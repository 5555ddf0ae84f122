//! Cursor and rotary input-feedback overlays.
//!
//! Two overlay entities live under the widget root, one per kind. State
//! the systems read and write lives in the [`InputFeedback`] resource; an
//! overlay's position is its entity's absolute layout.
pub mod cursor;
pub mod input;
pub mod rotary;

use vstd::prelude::*;

use crate::ecs::{Entity, World};
use crate::types::{Fixed, Rect};
use crate::widget::{LayoutStyle, Style};
use crate::types::Dimension;

verus! {

#[derive(Clone, Copy, Debug, PartialEq, Eq, Structural)]
pub enum CursorFeedbackMode {
    Dot,
    MagneticRect,
}

/// What the cursor overlay shows: the pointer, and the widget under it.
#[derive(Clone, Copy, Debug, PartialEq, Eq, Structural)]
pub struct CursorVisual {
    pub x: Fixed,
    pub y: Fixed,
    pub down: bool,
    pub target: Option<Entity>,
    pub target_rect: Option<Rect>,
}

impl CursorVisual {
    pub open spec fn initial() -> CursorVisual {
        CursorVisual { x: Fixed { raw: 0 }, y: Fixed { raw: 0 }, down: false, target: None, target_rect: None }
    }

    pub fn new() -> (v: CursorVisual)
        ensures
            v == CursorVisual::initial(),
    {
        CursorVisual { x: Fixed::zero(), y: Fixed::zero(), down: false, target: None, target_rect: None }
    }
}

#[derive(Clone, Copy, Debug, PartialEq, Eq, Structural)]
pub struct CursorFeedback {
    pub enabled: bool,
    pub mode: CursorFeedbackMode,
    pub current: CursorVisual,
    pub last_event_seq: u32,
    /// The overlay entity, once spawned.
    pub entity: Option<Entity>,
}

impl CursorFeedback {
    pub open spec fn initial() -> CursorFeedback {
        CursorFeedback {
            enabled: false,
            mode: CursorFeedbackMode::Dot,
            current: CursorVisual::initial(),
            last_event_seq: 0,
            entity: None,
        }
    }

    pub fn new() -> (c: CursorFeedback)
        ensures
            c == CursorFeedback::initial(),
    {
        CursorFeedback {
            enabled: false,
            mode: CursorFeedbackMode::Dot,
            current: CursorVisual::new(),
            last_event_seq: 0,
            entity: None,
        }
    }
}

/// Rotary overlay state. `entity` is `None` until the overlay is spawned
/// and fixed afterwards.
#[derive(Clone, Copy, Debug, PartialEq, Eq, Structural)]
pub struct RotaryFeedback {
    pub enabled: bool,
    pub progress: Fixed,
    pub target: Fixed,
    pub velocity: Fixed,
    pub direction: i8,
    pub opacity: Fixed,
    pub last_input_ms: u32,
    pub pulse: Fixed,
    pub last_input_seq: u32,
    pub entity: Option<Entity>,
}

impl RotaryFeedback {
    pub open spec fn initial() -> RotaryFeedback {
        RotaryFeedback {
            enabled: false,
            progress: Fixed { raw: 0 },
            target: Fixed { raw: 0 },
            velocity: Fixed { raw: 0 },
            direction: 0,
            opacity: Fixed { raw: 0 },
            last_input_ms: 0,
            pulse: Fixed { raw: 0 },
            last_input_seq: 0,
            entity: None,
        }
    }

    pub fn new() -> (r: RotaryFeedback)
        ensures
            r == RotaryFeedback::initial(),
    {
        RotaryFeedback {
            enabled: false,
            progress: Fixed::zero(),
            target: Fixed::zero(),
            velocity: Fixed::zero(),
            direction: 0,
            opacity: Fixed::zero(),
            last_input_ms: 0,
            pulse: Fixed::zero(),
            last_input_seq: 0,
            entity: None,
        }
    }
}

#[derive(Clone, Copy, Debug, PartialEq, Eq, Structural)]
pub struct InputFeedback {
    pub cursor: CursorFeedback,
    pub rotary: RotaryFeedback,
}

impl InputFeedback {
    pub fn new() -> (f: InputFeedback)
        ensures
            f.cursor == CursorFeedback::initial(),
            f.rotary == RotaryFeedback::initial(),
    {
        InputFeedback { cursor: CursorFeedback::new(), rotary: RotaryFeedback::new() }
    }

    /// Both overlays switched on, everything else at rest.
    pub fn enabled() -> (f: InputFeedback)
        ensures
            f.cursor == (CursorFeedback { enabled: true, ..CursorFeedback::initial() }),
            f.rotary == (RotaryFeedback { enabled: true, ..RotaryFeedback::initial() }),
    {
        let mut c = CursorFeedback::new();
        c.enabled = true;
        let mut r = RotaryFeedback::new();
        r.enabled = true;
        InputFeedback { cursor: c, rotary: r }
    }
}

/// Input accumulated between runs of the rotary feedback system.
#[derive(Clone, Copy, Debug, PartialEq, Eq, Structural)]
pub struct InputFeedbackInput {
    pub rotary_delta: i16,
    pub wheel_delta_y: Fixed,
    pub click_pulse: bool,
    pub event_seq: u32,
}

impl InputFeedbackInput {
    pub open spec fn initial() -> InputFeedbackInput {
        InputFeedbackInput { rotary_delta: 0, wheel_delta_y: Fixed { raw: 0 }, click_pulse: false, event_seq: 0 }
    }

    pub fn new() -> (i: InputFeedbackInput)
        ensures
            i == InputFeedbackInput::initial(),
    {
        InputFeedbackInput { rotary_delta: 0, wheel_delta_y: Fixed::zero(), click_pulse: false, event_seq: 0 }
    }
}

/// Marker component on the cursor overlay entity.
pub struct OverlayCursor;

/// Marker component on the rotary overlay entity.
pub struct OverlayRotary;

/// Spec: `d` with its style's absolute box moved to `rect` (no change
/// without a style).
pub open spec fn with_layout(d: crate::ecs::EntityData, rect: Rect) -> crate::ecs::EntityData {
    match d.style {
        Some(s) => crate::ecs::EntityData {
            style: Some(
                Style {
                    layout: LayoutStyle {
                        left: Dimension::Px(rect.x),
                        top: Dimension::Px(rect.y),
                        width: Dimension::Px(rect.w),
                        height: Dimension::Px(rect.h),
                        ..s.layout
                    },
                },
            ),
            ..d
        },
        None => d,
    }
}

/// Moves an overlay entity's absolute layout to `rect`.
pub fn write_overlay_layout(world: &mut World, entity: Entity, rect: Rect)
    ensures
        old(world).has(entity) ==> final(world).res == old(world).res && final(world).entities@
            == old(world).entities@.update(entity.id as int, with_layout(old(world).data(entity), rect)),
        !old(world).has(entity) ==> *final(world) == *old(world),
{
    if !world.contains(entity) {
        return ;
    }
    let i = entity.id as usize;
    if let Some(s) = world.entities[i].style {
        let mut s2 = s;
        s2.layout.left = Dimension::Px(rect.x);
        s2.layout.top = Dimension::Px(rect.y);
        s2.layout.width = Dimension::Px(rect.w);
        s2.layout.height = Dimension::Px(rect.h);
        world.entities[i].style = Some(s2);
    }
    proof {
        assert(world.entities@ =~= old(world).entities@.update(entity.id as int, with_layout(old(world).data(entity), rect)));
    }
}

} // verus!
