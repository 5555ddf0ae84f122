//! Counting repeated taps on the same entity (double / triple tap).
use vstd::prelude::*;

use crate::ecs::{Entity, World};

use super::gesture::event::GestureEvent;
use super::gesture::recognizer::wrap_sub_u32;

verus! {

/// Two taps at most this far apart (ms) on one entity count as a series.
pub const MULTI_TAP_WINDOW_MS: u32 = 300;

#[derive(Clone, Copy, Debug, PartialEq, Eq, Structural)]
pub struct MultiTapEntry {
    pub entity: Entity,
    pub time_ms: u32,
    pub count: u8,
}

/// The most recent tap and how many taps its series has had.
#[derive(Clone, Copy, Debug, PartialEq, Eq, Structural)]
pub struct MultiTapTracker {
    pub last: Option<MultiTapEntry>,
}

impl MultiTapTracker {
    pub fn new() -> (t: MultiTapTracker)
        ensures
            t.last is None,
    {
        MultiTapTracker { last: None }
    }
}

/// Spec: the series count a tap on `target` at `now_ms` gets, given the
/// previous entry. A zero timestamp means "no clock" and never extends a
/// series; the count saturates at 255.
pub open spec fn next_count(prev: Option<MultiTapEntry>, target: Entity, now_ms: u32) -> u8 {
    match prev {
        Some(p) => if p.entity == target && now_ms != 0 && p.time_ms != 0 && wrap_sub_u32(
            now_ms,
            p.time_ms,
        ) <= MULTI_TAP_WINDOW_MS {
            if p.count == 255 {
                255
            } else {
                (p.count + 1) as u8
            }
        } else {
            1
        },
        None => 1,
    }
}

/// Spec: the tracker resource after observing `event`.
pub open spec fn observe_spec(t: Option<MultiTapTracker>, event: GestureEvent, now_ms: u32) -> Option<MultiTapTracker> {
    match event {
        GestureEvent::Tap { target, .. } => {
            let prev = match t {
                Some(tr) => tr.last,
                None => None,
            };
            Some(MultiTapTracker { last: Some(MultiTapEntry { entity: target, time_ms: now_ms, count: next_count(prev, target, now_ms) }) })
        },
        _ => t,
    }
}

/// Records a Tap into the [`MultiTapTracker`] resource (creating it when
/// missing); other gestures are ignored.
pub fn observe_gesture(world: &mut World, event: &GestureEvent, now_ms: u32)
    ensures
        final(world).entities@ == old(world).entities@,
        final(world).res == (crate::ecs::Resources {
            multi_tap: observe_spec(old(world).res.multi_tap, *event, now_ms),
            ..old(world).res
        }),
{
    let target = match event {
        GestureEvent::Tap { target, .. } => *target,
        _ => {
            return ;
        },
    };
    if world.res.multi_tap.is_none() {
        world.res.multi_tap = Some(MultiTapTracker::new());
    }
    let prev = match world.res.multi_tap {
        Some(t) => t.last,
        None => None,
    };
    let count: u8 = match prev {
        Some(p) => {
            if p.entity == target && now_ms != 0 && p.time_ms != 0 && super::gesture::recognizer::wrapping_sub_u32(
                now_ms,
                p.time_ms,
            ) <= MULTI_TAP_WINDOW_MS {
                if p.count == 255 {
                    255
                } else {
                    p.count + 1
                }
            } else {
                1
            }
        },
        None => 1,
    };
    world.res.multi_tap = Some(
        MultiTapTracker { last: Some(MultiTapEntry { entity: target, time_ms: now_ms, count }) },
    );
}

/// Spec: the tap count of `entity`'s current series (1 when it is not the
/// latest tap target or nothing is tracked).
pub open spec fn current_count_spec(w: &World, entity: Entity) -> u8 {
    match w.res.multi_tap {
        Some(t) => match t.last {
            Some(e) => if e.entity == entity {
                e.count
            } else {
                1
            },
            None => 1,
        },
        None => 1,
    }
}

pub fn current_count(world: &World, entity: Entity) -> (r: u8)
    ensures
        r == current_count_spec(world, entity),
{
    match world.res.multi_tap {
        Some(t) => match t.last {
            Some(e) => if e.entity == entity {
                e.count
            } else {
                1
            },
            None => 1,
        },
        None => 1,
    }
}

} // verus!
