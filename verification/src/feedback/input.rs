//! Recording raw input for the rotary feedback overlay.
use vstd::prelude::*;

use crate::ecs::{Resources, World};
use crate::event::input::{InputEvent, KEY_ROTARY_PRESS};
use crate::event::seq_next;
use crate::types::{wrap32, Fixed};

use super::InputFeedbackInput;

verus! {

/// Spec: `a + b` saturated to the `i16` range.
pub open spec fn sat_add_i16(a: i16, b: i16) -> i16 {
    let s = a + b;
    if s > i16::MAX {
        i16::MAX
    } else if s < i16::MIN {
        i16::MIN
    } else {
        s as i16
    }
}

/// Spec: the accumulated input after `event` (`None` when the event is
/// not one the rotary overlay reacts to).
pub open spec fn recorded(input: InputFeedbackInput, event: InputEvent) -> Option<InputFeedbackInput> {
    match event {
        InputEvent::Rotary { delta, .. } => Some(
            InputFeedbackInput {
                rotary_delta: sat_add_i16(input.rotary_delta, delta),
                event_seq: seq_next(input.event_seq),
                ..input
            },
        ),
        InputEvent::Wheel { dy, .. } => Some(
            InputFeedbackInput {
                wheel_delta_y: Fixed { raw: wrap32(input.wheel_delta_y.raw + dy.raw) },
                event_seq: seq_next(input.event_seq),
                ..input
            },
        ),
        InputEvent::Key { code, pressed } => if code == KEY_ROTARY_PRESS && pressed {
            Some(InputFeedbackInput { click_pulse: true, event_seq: seq_next(input.event_seq), ..input })
        } else {
            None
        },
        _ => None,
    }
}

/// Records a rotary step, wheel scroll or rotary press into
/// [`InputFeedbackInput`] for the rotary overlay (only while the
/// `InputFeedback` resource exists).
pub fn record_input(world: &mut World, event: &InputEvent)
    ensures
        final(world).entities@ == old(world).entities@,
        old(world).res.feedback is None ==> final(world).res == old(world).res,
        old(world).res.feedback is Some ==> {
            let cur = match old(world).res.feedback_input {
                Some(i) => i,
                None => InputFeedbackInput::initial(),
            };
            match recorded(cur, *event) {
                Some(n) => final(world).res == (Resources { feedback_input: Some(n), ..old(world).res }),
                None => final(world).res == old(world).res,
            }
        },
{
    if world.res.feedback.is_none() {
        return ;
    }
    let mut input = match world.res.feedback_input {
        Some(i) => i,
        None => InputFeedbackInput::new(),
    };
    match event {
        InputEvent::Rotary { delta, .. } => {
            let s: i32 = input.rotary_delta as i32 + *delta as i32;
            input.rotary_delta = if s > 32767 {
                32767
            } else if s < -32768 {
                -32768
            } else {
                s as i16
            };
            input.event_seq = crate::event::seq_bump(input.event_seq);
        },
        InputEvent::Wheel { dy, .. } => {
            input.wheel_delta_y = input.wheel_delta_y.add(*dy);
            input.event_seq = crate::event::seq_bump(input.event_seq);
        },
        InputEvent::Key { code, pressed } => {
            if *code == KEY_ROTARY_PRESS && *pressed {
                input.click_pulse = true;
                input.event_seq = crate::event::seq_bump(input.event_seq);
            } else {
                return ;
            }
        },
        _ => {
            return ;
        },
    }
    world.res.feedback_input = Some(input);
}

} // verus!
