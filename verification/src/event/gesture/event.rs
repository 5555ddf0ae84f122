//! Gestures recognised from raw pointer input.
use vstd::prelude::*;

use crate::ecs::Entity;
use crate::types::{Fixed, Fixed64};

verus! {

#[derive(Clone, Copy, Debug, PartialEq, Eq, Structural)]
pub enum GestureEvent {
    Tap { x: Fixed, y: Fixed, target: Entity },
    LongPress { x: Fixed, y: Fixed, target: Entity },
    DragStart { x: Fixed, y: Fixed, target: Entity },
    DragMove { x: Fixed, y: Fixed, dx: Fixed, dy: Fixed, target: Entity },
    DragEnd { x: Fixed, y: Fixed, vx: Fixed, vy: Fixed, target: Entity },
    /// `scale_delta` is the change of finger distance since the previous
    /// `Pinch` (a ratio), so the product of all deltas is the total scale.
    Pinch { x: Fixed, y: Fixed, scale_delta: Fixed64, target: Entity },
    /// `angle` is the rotation since the previous `Rotate`, in radians.
    Rotate { x: Fixed, y: Fixed, angle: Fixed, target: Entity },
}

/// Spec: the entity a gesture is addressed to.
pub open spec fn gesture_target(e: GestureEvent) -> Entity {
    match e {
        GestureEvent::Tap { target, .. } => target,
        GestureEvent::LongPress { target, .. } => target,
        GestureEvent::DragStart { target, .. } => target,
        GestureEvent::DragMove { target, .. } => target,
        GestureEvent::DragEnd { target, .. } => target,
        GestureEvent::Pinch { target, .. } => target,
        GestureEvent::Rotate { target, .. } => target,
    }
}

impl GestureEvent {
    pub fn is_tap(&self) -> (r: bool)
        ensures
            r == (*self is Tap),
    {
        match self {
            GestureEvent::Tap { .. } => true,
            _ => false,
        }
    }

    pub fn target(&self) -> (t: Entity)
        ensures
            t == gesture_target(*self),
    {
        match self {
            GestureEvent::Tap { target, .. } => *target,
            GestureEvent::LongPress { target, .. } => *target,
            GestureEvent::DragStart { target, .. } => *target,
            GestureEvent::DragMove { target, .. } => *target,
            GestureEvent::DragEnd { target, .. } => *target,
            GestureEvent::Pinch { target, .. } => *target,
            GestureEvent::Rotate { target, .. } => *target,
        }
    }
}

} // verus!
