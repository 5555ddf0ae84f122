//! Layout choices shared by the compact demos: a landscape view stacks
//! the header beside the content, a portrait one above it.
use vstd::prelude::*;

use crate::types::{wrap32, Dimension, Fixed};
use crate::widget::{FlexDirection, Padding, TextAlign};

verus! {

/// Spec: a `width` x `height` view counts as landscape when it is more
/// than 16 pixels wider than tall.
pub open spec fn landscape_spec(width: Fixed, height: Fixed) -> bool {
    width.raw > wrap32(height.raw + 16 * 256)
}

fn landscape(width: Fixed, height: Fixed) -> (r: bool)
    ensures
        r == landscape_spec(width, height),
{
    width.raw > height.add(Fixed::from_int(16)).raw
}

/// The shell lays header and content side by side in landscape, one
/// above the other in portrait.
pub fn shell_direction(width: Fixed, height: Fixed) -> (d: FlexDirection)
    ensures
        d == if landscape_spec(width, height) {
            FlexDirection::Row
        } else {
            FlexDirection::Column
        },
{
    if landscape(width, height) {
        FlexDirection::Row
    } else {
        FlexDirection::Column
    }
}

/// The header runs across the shell's direction.
pub fn header_direction(width: Fixed, height: Fixed) -> (d: FlexDirection)
    ensures
        d == if landscape_spec(width, height) {
            FlexDirection::Column
        } else {
            FlexDirection::Row
        },
{
    if landscape(width, height) {
        FlexDirection::Column
    } else {
        FlexDirection::Row
    }
}

/// `narrow` padding on every side when the view's shorter side is under
/// 112 pixels, `regular` otherwise.
pub fn padding(width: Fixed, height: Fixed, narrow: i32, regular: i32) -> (p: Padding)
    ensures
        ({
            let v = if (if width.raw <= height.raw { width.raw } else { height.raw }) < 112 * 256 {
                narrow
            } else {
                regular
            };
            p == (Padding { left: v, top: v, right: v, bottom: v })
        }),
{
    Padding::all(
        if width.min(height).raw < Fixed::from_int(112).raw {
            narrow
        } else {
            regular
        },
    )
}

/// The header is `landscape_width` pixels wide beside the content, full
/// width above it.
pub fn header_width(width: Fixed, height: Fixed, landscape_width: i32) -> (d: Dimension)
    ensures
        d == if landscape_spec(width, height) {
            Dimension::Px(Fixed { raw: wrap32(landscape_width * 256) })
        } else {
            Dimension::Percent(Fixed { raw: 25600 })
        },
{
    if landscape(width, height) {
        Dimension::px(landscape_width)
    } else {
        Dimension::percent(100)
    }
}

/// The header is full height beside the content, 14 pixels above it.
pub fn header_height(width: Fixed, height: Fixed) -> (d: Dimension)
    ensures
        d == if landscape_spec(width, height) {
            Dimension::Percent(Fixed { raw: 25600 })
        } else {
            Dimension::Px(Fixed { raw: 3584 })
        },
{
    if landscape(width, height) {
        Dimension::percent(100)
    } else {
        Dimension::px(14)
    }
}

/// The content takes the width the layout leaves in landscape, the full
/// width in portrait.
pub fn content_width(width: Fixed, height: Fixed) -> (d: Dimension)
    ensures
        d == if landscape_spec(width, height) {
            Dimension::Auto
        } else {
            Dimension::Percent(Fixed { raw: 25600 })
        },
{
    if landscape(width, height) {
        Dimension::Auto
    } else {
        Dimension::percent(100)
    }
}

/// The content is full height in landscape and takes the height the
/// layout leaves in portrait.
pub fn content_height(width: Fixed, height: Fixed) -> (d: Dimension)
    ensures
        d == if landscape_spec(width, height) {
            Dimension::Percent(Fixed { raw: 25600 })
        } else {
            Dimension::Auto
        },
{
    if landscape(width, height) {
        Dimension::percent(100)
    } else {
        Dimension::Auto
    }
}

/// The marker is a 10 x 4 bar in landscape and a 4 x 10 bar in portrait.
pub fn marker_width(width: Fixed, height: Fixed) -> (d: Dimension)
    ensures
        d == Dimension::Px(Fixed { raw: if landscape_spec(width, height) { 2560 } else { 1024 } }),
{
    Dimension::px(
        if landscape(width, height) {
            10
        } else {
            4
        },
    )
}

pub fn marker_height(width: Fixed, height: Fixed) -> (d: Dimension)
    ensures
        d == Dimension::Px(Fixed { raw: if landscape_spec(width, height) { 1024 } else { 2560 } }),
{
    Dimension::px(
        if landscape(width, height) {
            4
        } else {
            10
        },
    )
}

/// The title spans the header in landscape and sizes to its text in
/// portrait.
pub fn title_width(width: Fixed, height: Fixed) -> (d: Dimension)
    ensures
        d == if landscape_spec(width, height) {
            Dimension::Percent(Fixed { raw: 25600 })
        } else {
            Dimension::Auto
        },
{
    if landscape(width, height) {
        Dimension::percent(100)
    } else {
        Dimension::Auto
    }
}

pub fn title_height(width: Fixed, height: Fixed) -> (d: Dimension)
    ensures
        d == if landscape_spec(width, height) {
            Dimension::Auto
        } else {
            Dimension::Px(Fixed { raw: 3584 })
        },
{
    if landscape(width, height) {
        Dimension::Auto
    } else {
        Dimension::px(14)
    }
}

/// The mode label spans the header in landscape and is
/// `portrait_width` pixels wide in portrait.
pub fn mode_width(width: Fixed, height: Fixed, portrait_width: i32) -> (d: Dimension)
    ensures
        d == if landscape_spec(width, height) {
            Dimension::Percent(Fixed { raw: 25600 })
        } else {
            Dimension::Px(Fixed { raw: wrap32(portrait_width * 256) })
        },
{
    if landscape(width, height) {
        Dimension::percent(100)
    } else {
        Dimension::px(portrait_width)
    }
}

pub fn mode_height(width: Fixed, height: Fixed) -> (d: Dimension)
    ensures
        d == Dimension::Px(Fixed { raw: if landscape_spec(width, height) { 3072 } else { 3584 } }),
{
    Dimension::px(
        if landscape(width, height) {
            12
        } else {
            14
        },
    )
}

/// Header text is centred in landscape and starts at the leading edge in
/// portrait.
pub fn text_align(width: Fixed, height: Fixed) -> (a: TextAlign)
    ensures
        a == if landscape_spec(width, height) {
            TextAlign::Center
        } else {
            TextAlign::Start
        },
{
    if landscape(width, height) {
        TextAlign::Center
    } else {
        TextAlign::Start
    }
}

/// The mode label is centred in landscape and set against the trailing
/// edge in portrait.
pub fn mode_align(width: Fixed, height: Fixed) -> (a: TextAlign)
    ensures
        a == if landscape_spec(width, height) {
            TextAlign::Center
        } else {
            TextAlign::End
        },
{
    if landscape(width, height) {
        TextAlign::Center
    } else {
        TextAlign::End
    }
}

} // verus!
