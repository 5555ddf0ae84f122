//! "effect panels": cards showing visual effects; one of them flashes
//! through three colours.
use vstd::prelude::*;

use crate::components::WidgetComponents;
use crate::ecs::{EntityData, World};

verus! {

/// A widget that flashes through red, green and blue, a second each at
/// 60 frames per second; `frame` counts the frames seen so far.
#[derive(Clone, Copy, Debug, PartialEq, Eq, Structural)]
pub struct ColorFlash {
    pub frame: u32,
}

/// Spec: the colour shown on frame `frame`: red, green or blue for 60
/// frames each, in turn.
pub open spec fn flash_color(frame: u32) -> u32 {
    let phase = (frame / 60) % 3;
    if phase == 0 {
        0xDC3C3C
    } else if phase == 1 {
        0x3CC850
    } else {
        0x288CDC
    }
}

/// Spec: the frame after `frame` on the wrapping counter.
pub open spec fn next_frame(frame: u32) -> u32 {
    if frame == u32::MAX {
        0
    } else {
        (frame + 1) as u32
    }
}

/// Spec: `d2` is `d` after one frame: a flashing widget counts the frame,
/// shows that frame's colour when it has a style, and is marked for
/// redraw; anything else is unchanged.
pub open spec fn flashed(d: EntityData, d2: EntityData) -> bool {
    match d.color_flash {
        Some(c) => {
            let f = next_frame(c.frame);
            d2 == (EntityData {
                color_flash: Some(ColorFlash { frame: f }),
                widgets: if d.style is Some {
                    WidgetComponents { bg_color: Some(flash_color(f)), ..d.widgets }
                } else {
                    d.widgets
                },
                dirty: true,
                ..d
            })
        },
        None => d2 == d,
    }
}

/// Advances every flashing widget by one frame.
pub fn animate_color_flash(world: &mut World)
    ensures
        final(world).res == old(world).res,
        final(world).entities@.len() == old(world).entities@.len(),
        forall|i: int| 0 <= i < old(world).entities@.len() ==> flashed(#[trigger] old(world).entities@[i], final(world).entities@[i]),
{
    let ghost w0 = *world;
    let n = world.entities.len();
    let mut i: usize = 0;
    while i < n
        invariant
            i <= n,
            n == world.entities@.len(),
            n == w0.entities@.len(),
            world.res == w0.res,
            forall|j: int| 0 <= j < i ==> flashed(#[trigger] w0.entities@[j], world.entities@[j]),
            forall|j: int| i <= j < n ==> #[trigger] world.entities@[j] == w0.entities@[j],
        decreases n - i,
    {
        if let Some(c) = world.entities[i].color_flash {
            let frame = c.frame.wrapping_add(1);
            let phase = (frame / 60) % 3;
            let color: u32 = if phase == 0 {
                0xDC3C3C
            } else if phase == 1 {
                0x3CC850
            } else {
                0x288CDC
            };
            world.entities[i].color_flash = Some(ColorFlash { frame });
            if world.entities[i].style.is_some() {
                world.entities[i].widgets.bg_color = Some(color);
            }
            world.entities[i].dirty = true;
        }
        i += 1;
    }
}

} // verus!
