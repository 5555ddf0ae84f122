//! Widget-tree components that the input pipeline reads.
use vstd::prelude::*;

use crate::ecs::{Entity, EntityData, World};
use crate::types::{Dimension, Fixed, Rect};

verus! {

/// Interaction state a user (or the app) pins on a widget.
#[derive(Clone, Copy, Debug, PartialEq, Eq, Structural)]
pub enum UserState {
    /// The widget and its whole subtree ignore input.
    Disabled,
    /// The widget shows an error; it still takes input.
    Errored,
}

/// The part of a widget's layout style that input code writes: an
/// absolute box.
#[derive(Clone, Copy, Debug, PartialEq, Eq, Structural)]
pub struct LayoutStyle {
    pub absolute: bool,
    pub left: Dimension,
    pub top: Dimension,
    pub width: Dimension,
    pub height: Dimension,
}

#[derive(Clone, Copy, Debug, PartialEq, Eq, Structural)]
pub struct Style {
    pub layout: LayoutStyle,
}

impl Style {
    pub open spec fn absolute_spec(rect: Rect) -> Style {
        Style {
            layout: LayoutStyle {
                absolute: true,
                left: Dimension::Px(rect.x),
                top: Dimension::Px(rect.y),
                width: Dimension::Px(rect.w),
                height: Dimension::Px(rect.h),
            },
        }
    }

    /// Style of an absolutely positioned box covering `rect`.
    pub fn absolute_at(rect: Rect) -> (s: Style)
        ensures
            s == Style::absolute_spec(rect),
    {
        Style {
            layout: LayoutStyle {
                absolute: true,
                left: Dimension::Px(rect.x),
                top: Dimension::Px(rect.y),
                width: Dimension::Px(rect.w),
                height: Dimension::Px(rect.h),
            },
        }
    }

    pub open spec fn flow_spec() -> Style {
        Style {
            layout: LayoutStyle {
                absolute: false,
                left: Dimension::Px(Fixed { raw: 0 }),
                top: Dimension::Px(Fixed { raw: 0 }),
                width: Dimension::Percent(Fixed { raw: 25600 }),
                height: Dimension::Percent(Fixed { raw: 25600 }),
            },
        }
    }

    /// Style of a box that takes its size from its parent.
    pub fn flow() -> (s: Style)
        ensures
            s == Style::flow_spec(),
    {
        Style {
            layout: LayoutStyle {
                absolute: false,
                left: Dimension::Px(Fixed::zero()),
                top: Dimension::Px(Fixed::zero()),
                width: Dimension::Percent(Fixed::from_int(100)),
                height: Dimension::Percent(Fixed::from_int(100)),
            },
        }
    }
}

/// The main axis along which a flex container lays out its children.
#[derive(Clone, Copy, Debug, PartialEq, Eq, Structural)]
pub enum FlexDirection {
    Row,
    Column,
}

/// Space kept clear inside a box's edges, in pixels.
#[derive(Clone, Copy, Debug, PartialEq, Eq, Structural)]
pub struct Padding {
    pub left: i32,
    pub top: i32,
    pub right: i32,
    pub bottom: i32,
}

impl Padding {
    /// The same padding on every side.
    pub fn all(v: i32) -> (p: Padding)
        ensures
            p == (Padding { left: v, top: v, right: v, bottom: v }),
    {
        Padding { left: v, top: v, right: v, bottom: v }
    }
}

/// Horizontal alignment of text within its box.
#[derive(Clone, Copy, Debug, PartialEq, Eq, Structural)]
pub enum TextAlign {
    Start,
    Center,
    End,
}

/// Spec: the laid-out rectangle of the widget root, once it has one.
pub open spec fn root_viewport_spec(w: &World) -> Option<Rect> {
    match w.res.widget_root {
        Some(r) => w.rect_of(r),
        None => None,
    }
}

/// The laid-out rectangle of the widget root, once it has one.
pub fn root_viewport(world: &World) -> (r: Option<Rect>)
    ensures
        r == root_viewport_spec(world),
{
    match world.res.widget_root {
        Some(root) => world.computed_rect(root),
        None => None,
    }
}

/// Spec: `s` moved so that its left and top edges sit at `(x, y)`.
pub open spec fn moved_style(s: Option<Style>, x: Fixed, y: Fixed) -> Option<Style> {
    match s {
        Some(st) => Some(Style { layout: LayoutStyle { left: Dimension::Px(x), top: Dimension::Px(y), ..st.layout } }),
        None => None,
    }
}

/// Spec: entity data `d` with its box moved to `(left, top)` (when it has
/// a style) and marked for redraw.
pub open spec fn moved_entity(d: EntityData, left: Fixed, top: Fixed) -> EntityData {
    EntityData { style: moved_style(d.style, left, top), dirty: true, ..d }
}

/// Moves widget `e` so that its top-left corner sits at `(left, top)` and
/// marks it for redraw; a widget without a style keeps its box.
pub fn set_position(world: &mut World, e: Entity, left: Fixed, top: Fixed)
    requires
        old(world).has(e),
    ensures
        final(world).res == old(world).res,
        final(world).entities@ == old(world).entities@.update(e.id as int, moved_entity(old(world).data(e), left, top)),
{
    let i = e.id as usize;
    if let Some(st) = world.entities[i].style {
        world.entities[i].style = Some(
            Style { layout: LayoutStyle { left: Dimension::Px(left), top: Dimension::Px(top), ..st.layout } },
        );
    }
    world.entities[i].dirty = true;
    proof {
        assert(world.entities@ =~= old(world).entities@.update(e.id as int, moved_entity(old(world).data(e), left, top)));
    }
}

} // verus!
