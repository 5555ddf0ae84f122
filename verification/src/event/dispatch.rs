//! Legacy single-handler dispatch: hit test, then the target's
//! `EventHandler`.
use vstd::prelude::*;

use crate::ecs::{Entity, World};

use super::hit_test::{hit_test, hit_test_spec};
use super::input::InputEvent;
use super::{Callbacks, WidgetEvent};

verus! {

/// Spec: the widget event a raw event becomes (press and release only).
pub open spec fn widget_event_of(event: InputEvent) -> Option<WidgetEvent> {
    match event {
        InputEvent::PointerDown { x, y, .. } => Some(WidgetEvent::TouchDown { x, y }),
        InputEvent::PointerUp { x, y, .. } => Some(WidgetEvent::Click { x, y }),
        _ => None,
    }
}

/// Spec: the handler number `dispatch` calls for `event`, with its target.
pub open spec fn dispatch_route(world: &World, root: Entity, event: InputEvent) -> Option<(Entity, u32)> {
    match widget_event_of(event) {
        None => None,
        Some(we) => {
            let (x, y) = match we {
                WidgetEvent::TouchDown { x, y } => (x, y),
                WidgetEvent::Click { x, y } => (x, y),
            };
            match hit_test_spec(world, root, x, y) {
                Some(t) => if world.has(t) && world.data(t).event_handler is Some {
                    Some((t, world.data(t).event_handler.unwrap().on_event))
                } else {
                    None
                },
                None => None,
            }
        },
    }
}

/// Dispatches a press / release: hit test, then the target's
/// `EventHandler` (a press becomes `TouchDown`, a release `Click`).
/// Returns the target and handler number it called; that handler ran
/// once, as the table's [`Callbacks::widget_event_outcome`] says, and no
/// other.
pub fn dispatch<C: Callbacks>(
    world: &World,
    callbacks: &mut C,
    root: Entity,
    event: &InputEvent,
    screen_w: u16,
    screen_h: u16,
) -> (r: Option<(Entity, u32)>)
    ensures
        r == dispatch_route(world, root, *event),
        match dispatch_route(world, root, *event) {
            Some((t, id)) => old(callbacks).widget_event_outcome(id, t, widget_event_of(*event).unwrap(), *final(callbacks)),
            None => *final(callbacks) == *old(callbacks),
        },
{
    let (we, x, y) = match event {
        InputEvent::PointerDown { x, y, .. } => (WidgetEvent::TouchDown { x: *x, y: *y }, *x, *y),
        InputEvent::PointerUp { x, y, .. } => (WidgetEvent::Click { x: *x, y: *y }, *x, *y),
        _ => {
            return None;
        },
    };
    let target = match hit_test(world, root, x, y, screen_w, screen_h) {
        Some(t) => t,
        None => {
            return None;
        },
    };
    match world.get(target) {
        Some(d) => match d.event_handler {
            Some(h) => {
                callbacks.widget_event(h.on_event, target, &we);
                Some((target, h.on_event))
            },
            None => None,
        },
        None => None,
    }
}

} // verus!
