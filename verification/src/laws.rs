//! Properties of the input pipeline that hold across calls and states.
use vstd::prelude::*;

use crate::ecs::{Entity, Resources, World};
use crate::event::gesture::event::{gesture_target, GestureEvent};
use crate::event::gesture::recognizer::{
    moved_finger, wrap_sub_u32, GestureRecognizer, GestureState, DRAG_THRESHOLD, LONG_PRESS_MS,
};
use crate::event::input::InputEvent;
use crate::event::multi_tap::{next_count, observe_spec, MultiTapEntry, MultiTapTracker, MULTI_TAP_WINDOW_MS};
use crate::event::sim::{
    due_from, durations_before, fired_spec, first_not_due, plan_spec, rotate_target, script_after, script_start, taps_after, timing_at, unhandled, unsigned_abs16, ResolvedAction, SimAction,
    SimCommand, SimTiming, SimulatedInput, TimelineProgress,
};
use crate::event::{
    bubble_ok, bubbles_run, callback_outcome, handlers_run, internal_handlers_spec, cursor_after, disabled_spec, disabled_within, handler_on_path,
    lemma_handler_on_path_congruent, lemma_quiet_walk, observed_res, seq_next, walk_run, Callbacks, PointerCursor,
};
use crate::feedback::cursor::cursor_system_ok;
use crate::feedback::rotary::{absorb_spec, frame_ms, max_pull_raw, physics_spec, rotary_system_ok};
use crate::feedback::{InputFeedbackInput, RotaryFeedback};
use crate::gallery::demos::book_flip::{page_step, Page};
use crate::gallery::demos::effect_glass::{glass_max_x, glass_x, GLASS_MARGIN};
use crate::gallery::demos::flip_card::{flip_step, FlipCard};
use crate::gallery::demos::image_flip::{spin_step, Spinner};
use crate::anim::{tick_spec, Spring};
use crate::event::gesture::recognizer::{dist_spec, velocity_spec, Finger};
use crate::event::scroll::system::{drag_velocity, dragged_offset, inertia_step, rotary_offset};
use crate::event::scroll::{ScrollAxis, ScrollOffset};
use crate::types::{
    abs_int, atan2_spec, atan_unit_spec, div_raw, div_trunc, in_half_turn, lemma_atan_unit_bounds, lemma_norm_angle_fixed,
    lemma_norm_angle_props, lemma_ratio_unit, mul_raw, norm_angle, wrap32, Fixed,
};
use crate::widget::UserState;

verus! {

// ─── Gesture recogniser ─────────────────────────────────────────────────

/// Spec: the recogniser's structural invariant. Idle holds no finger and
/// no target; a single-finger interaction holds exactly slot 0; a
/// two-finger interaction holds slot 0 or 1 (never 2 or 3).
pub open spec fn recognizer_wf(r: GestureRecognizer) -> bool {
    match r.state {
        GestureState::Idle => !r.f0.active && !r.f1.active && !r.f2.active && !r.f3.active
            && r.target is None,
        GestureState::Pending | GestureState::Dragging | GestureState::LongPressed => r.f0.active
            && !r.f1.active && !r.f2.active && !r.f3.active,
        GestureState::MultiPending | GestureState::MultiActive => !r.f2.active && !r.f3.active && (
        r.f0.active || r.f1.active),
    }
}

/// A fresh recogniser satisfies the invariant.
pub proof fn lemma_recognizer_initial_wf()
    ensures
        recognizer_wf(GestureRecognizer::initial()),
{
}

/// Every raw event keeps the recogniser's invariant.
pub proof fn lemma_update_keeps_wf(r: GestureRecognizer, event: InputEvent, t: u32, hit: Option<Entity>)
    requires
        recognizer_wf(r),
    ensures
        recognizer_wf(r.update_spec(event, t, hit).0),
{
}

/// The long-press check keeps the recogniser's invariant.
pub proof fn lemma_long_press_keeps_wf(r: GestureRecognizer, t: u32)
    requires
        recognizer_wf(r),
    ensures
        recognizer_wf(r.long_press_spec(t).0),
{
}

/// The invariant does not depend on whether a scroll container claims
/// the drag (the scroll system sets that flag between events).
pub proof fn lemma_claim_flag_keeps_wf(r: GestureRecognizer, claimed: bool)
    requires
        recognizer_wf(r),
    ensures
        recognizer_wf(GestureRecognizer { scroll_claimed: claimed, ..r }),
{
}

/// While a scroll container owns the drag the recogniser emits nothing.
pub proof fn lemma_scroll_claim_silences(r: GestureRecognizer, event: InputEvent, t: u32, hit: Option<Entity>, t2: u32)
    requires
        r.scroll_claimed,
    ensures
        r.update_spec(event, t, hit).1.len() == 0,
        r.long_press_spec(t2).1.len() == 0,
{
}

/// Every gesture the recogniser emits is addressed to the target the
/// interaction's first finger hit.
#[verifier::spinoff_prover]
#[verifier::rlimit(40)]
pub proof fn lemma_gestures_go_to_target(r: GestureRecognizer, event: InputEvent, t: u32, hit: Option<Entity>)
    ensures
        forall|i: int|
            0 <= i < r.update_spec(event, t, hit).1.len() ==> Some(
                gesture_target(#[trigger] r.update_spec(event, t, hit).1[i]),
            ) == r.target,
        forall|i: int|
            0 <= i < r.long_press_spec(t).1.len() ==> Some(gesture_target(#[trigger] r.long_press_spec(t).1[i]))
                == r.target,
{
}

/// One call made on a recogniser: a raw event (with the press's hit-test
/// target), or a long-press check.
#[derive(Clone, Copy, Debug, PartialEq, Eq, Structural)]
pub enum RecognizerCall {
    Update { event: InputEvent, t: u32, hit: Option<Entity> },
    Check { t: u32 },
}

/// Spec: the state and gestures one call produces.
pub open spec fn call_spec(r: GestureRecognizer, c: RecognizerCall) -> (GestureRecognizer, Seq<GestureEvent>) {
    match c {
        RecognizerCall::Update { event, t, hit } => r.update_spec(event, t, hit),
        RecognizerCall::Check { t } => r.long_press_spec(t),
    }
}

/// Spec: the state after the calls `cs` in order, and every gesture they
/// emitted, oldest first.
pub open spec fn run_spec(r: GestureRecognizer, cs: Seq<RecognizerCall>) -> (GestureRecognizer, Seq<GestureEvent>)
    decreases cs.len(),
{
    if cs.len() == 0 {
        (r, Seq::empty())
    } else {
        let p = run_spec(r, cs.drop_last());
        let q = call_spec(p.0, cs.last());
        (q.0, p.1 + q.1)
    }
}

proof fn lemma_multi_keeps_target(r: GestureRecognizer)
    ensures
        r.emit_multi_spec().0.target == r.target,
{
}

#[verifier::rlimit(40)]
proof fn lemma_update_keeps_target(r: GestureRecognizer, event: InputEvent, t: u32, hit: Option<Entity>)
    requires
        r.state != GestureState::Idle,
    ensures
        r.update_spec(event, t, hit).0.state == GestureState::Idle || r.update_spec(event, t, hit).0.target
            == r.target,
{
    if !r.scroll_claimed {
        match event {
            InputEvent::PointerMove { id, x, y } => {
                match r.slot_of(id) {
                    Some(i) => lemma_multi_keeps_target(r.with_finger(i, moved_finger(r.finger(i), x, y, t))),
                    None => {},
                }
            },
            _ => {},
        }
    }
}

/// A call made during an interaction either ends it or keeps its target,
/// and every gesture it emits is addressed to that target.
pub proof fn lemma_call_keeps_target(r: GestureRecognizer, c: RecognizerCall)
    requires
        r.state != GestureState::Idle,
    ensures
        call_spec(r, c).0.state == GestureState::Idle || call_spec(r, c).0.target == r.target,
        forall|i: int|
            0 <= i < call_spec(r, c).1.len() ==> Some(gesture_target(#[trigger] call_spec(r, c).1[i])) == r.target,
{
    match c {
        RecognizerCall::Update { event, t, hit } => {
            lemma_gestures_go_to_target(r, event, t, hit);
            lemma_update_keeps_target(r, event, t, hit);
        },
        RecognizerCall::Check { t } => lemma_gestures_go_to_target(
            r,
            InputEvent::PointerUp { id: 0, x: Fixed { raw: 0 }, y: Fixed { raw: 0 } },
            t,
            None,
        ),
    }
}

proof fn lemma_run_prefix(r: GestureRecognizer, cs: Seq<RecognizerCall>, k: int)
    requires
        0 <= k < cs.len(),
    ensures
        run_spec(r, cs.take(k + 1)) == ({
            let p = run_spec(r, cs.take(k));
            let q = call_spec(p.0, cs[k]);
            (q.0, p.1 + q.1)
        }),
{
    assert(cs.take(k + 1).drop_last() =~= cs.take(k));
    assert(cs.take(k + 1).last() == cs[k]);
}

/// Every gesture of one interaction goes to the target the first finger's
/// press hit: starting idle with a press that hit `hit`, and making any
/// calls while the recogniser stays busy (the last call may end the
/// interaction), every gesture emitted is addressed to `hit`; a press
/// that hit nothing emits nothing at all.
pub proof fn lemma_interaction_goes_to_press_target(r: GestureRecognizer, cs: Seq<RecognizerCall>)
    requires
        r.state == GestureState::Idle,
        cs.len() >= 1,
        cs[0] matches RecognizerCall::Update { event, .. } && event is PointerDown,
        forall|k: int| 1 <= k < cs.len() ==> (#[trigger] run_spec(r, cs.take(k))).0.state != GestureState::Idle,
    ensures
        forall|i: int|
            0 <= i < run_spec(r, cs).1.len() ==> Some(gesture_target(#[trigger] run_spec(r, cs).1[i])) == cs[0]->hit,
        cs[0]->hit is None ==> run_spec(r, cs).1.len() == 0,
{
    lemma_interaction_prefix(r, cs, cs.len() as int);
    assert(cs.take(cs.len() as int) =~= cs);
}

proof fn lemma_interaction_prefix(r: GestureRecognizer, cs: Seq<RecognizerCall>, k: int)
    requires
        r.state == GestureState::Idle,
        1 <= k <= cs.len(),
        cs[0] matches RecognizerCall::Update { event, .. } && event is PointerDown,
        forall|j: int| 1 <= j < cs.len() ==> (#[trigger] run_spec(r, cs.take(j))).0.state != GestureState::Idle,
    ensures
        run_spec(r, cs.take(k)).0.state != GestureState::Idle ==> run_spec(r, cs.take(k)).0.target == cs[0]->hit,
        forall|i: int|
            0 <= i < run_spec(r, cs.take(k)).1.len() ==> Some(gesture_target(#[trigger] run_spec(r, cs.take(k)).1[i]))
                == cs[0]->hit,
        cs[0]->hit is None ==> run_spec(r, cs.take(k)).1.len() == 0,
    decreases k,
{
    let hit = cs[0]->hit;
    if k == 1 {
        lemma_run_prefix(r, cs, 0);
        assert(cs.take(0) =~= Seq::<RecognizerCall>::empty());
        assert(run_spec(r, cs.take(1)).1 =~= Seq::<GestureEvent>::empty());
    } else {
        lemma_interaction_prefix(r, cs, k - 1);
        let p = run_spec(r, cs.take(k - 1));
        assert(p.0.state != GestureState::Idle);
        lemma_call_keeps_target(p.0, cs[k - 1]);
        lemma_run_prefix(r, cs, k - 1);
        let q = call_spec(p.0, cs[k - 1]);
        assert forall|i: int|
            0 <= i < run_spec(r, cs.take(k)).1.len() implies Some(
                gesture_target(#[trigger] run_spec(r, cs.take(k)).1[i]),
            ) == hit by {
            if i < p.1.len() {
                assert(run_spec(r, cs.take(k)).1[i] == p.1[i]);
            } else {
                assert(run_spec(r, cs.take(k)).1[i] == q.1[i - p.1.len()]);
            }
        }
        if hit is None {
            if run_spec(r, cs.take(k)).1.len() > 0 {
                assert(Some(gesture_target(run_spec(r, cs.take(k)).1[0])) == hit);
            }
        }
    }
}

/// Once a long press has fired, nothing more is emitted for the press:
/// whatever calls follow, as long as the recogniser has not gone idle
/// again (the lift that makes it idle emits nothing either).
pub proof fn lemma_long_press_silences_the_press(r: GestureRecognizer, cs: Seq<RecognizerCall>)
    requires
        r.state == GestureState::LongPressed,
        forall|k: int| 0 <= k < cs.len() ==> (#[trigger] run_spec(r, cs.take(k))).0.state != GestureState::Idle,
    ensures
        run_spec(r, cs).1.len() == 0,
{
    lemma_long_press_prefix(r, cs, cs.len() as int);
    assert(cs.take(cs.len() as int) =~= cs);
}

proof fn lemma_long_press_prefix(r: GestureRecognizer, cs: Seq<RecognizerCall>, k: int)
    requires
        r.state == GestureState::LongPressed,
        0 <= k <= cs.len(),
        forall|j: int| 0 <= j < cs.len() ==> (#[trigger] run_spec(r, cs.take(j))).0.state != GestureState::Idle,
    ensures
        run_spec(r, cs.take(k)).1.len() == 0,
        run_spec(r, cs.take(k)).0.state == GestureState::LongPressed || run_spec(r, cs.take(k)).0.state
            == GestureState::Idle,
    decreases k,
{
    if k == 0 {
        assert(cs.take(0) =~= Seq::<RecognizerCall>::empty());
    } else {
        lemma_long_press_prefix(r, cs, k - 1);
        let p = run_spec(r, cs.take(k - 1));
        assert(p.0.state == GestureState::LongPressed);
        lemma_run_prefix(r, cs, k - 1);
        lemma_long_pressed_call(p.0, cs[k - 1]);
    }
}

proof fn lemma_long_pressed_call(r: GestureRecognizer, c: RecognizerCall)
    requires
        r.state == GestureState::LongPressed,
    ensures
        call_spec(r, c).1.len() == 0,
        call_spec(r, c).0.state == GestureState::LongPressed || call_spec(r, c).0.state == GestureState::Idle,
{
}

/// A press lifted before it moved past the drag threshold is a Tap at the
/// release point, and the recogniser is idle again.
pub proof fn lemma_release_while_pending_taps(r: GestureRecognizer, id: u8, x: Fixed, y: Fixed, t: u32, target: Entity)
    requires
        r.state == GestureState::Pending,
        !r.scroll_claimed,
        r.target == Some(target),
    ensures
        r.update_spec(InputEvent::PointerUp { id, x, y }, t, None).1 == seq![
            GestureEvent::Tap { x, y, target },
        ],
        r.update_spec(InputEvent::PointerUp { id, x, y }, t, None).0.state == GestureState::Idle,
{
}

/// A finger that stays within the drag threshold (in whole pixels,
/// Manhattan distance) of where it landed starts no drag.
pub proof fn lemma_small_move_is_no_drag(r: GestureRecognizer, x: Fixed, y: Fixed, t: u32)
    requires
        r.state == GestureState::Pending,
        recognizer_wf(r),
        !r.scroll_claimed,
        crate::types::abs_int(crate::event::gesture::recognizer::to_int_spec(
            Fixed { raw: crate::types::wrap32(x.raw - r.f0.start_x.raw) },
        )) + crate::types::abs_int(crate::event::gesture::recognizer::to_int_spec(
            Fixed { raw: crate::types::wrap32(y.raw - r.f0.start_y.raw) },
        )) <= DRAG_THRESHOLD,
    ensures
        r.update_spec(InputEvent::PointerMove { id: r.f0.id, x, y }, t, None).1.len() == 0,
        r.update_spec(InputEvent::PointerMove { id: r.f0.id, x, y }, t, None).0.state
            == GestureState::Pending,
{
}

/// A long press fires at most once per press: once it has fired, neither
/// a later check nor any further raw event emits anything until the
/// finger lifts (and the lift emits nothing either).
pub proof fn lemma_long_press_fires_once(
    r: GestureRecognizer,
    t1: u32,
    t2: u32,
    event: InputEvent,
    t: u32,
    hit: Option<Entity>,
)
    requires
        r.long_press_spec(t1).1.len() > 0,
    ensures
        r.long_press_spec(t1).0.state == GestureState::LongPressed,
        r.long_press_spec(t1).0.long_press_spec(t2).1.len() == 0,
        r.long_press_spec(t1).0.update_spec(event, t, hit).1.len() == 0,
{
}

/// The long press needs the finger held for [`LONG_PRESS_MS`].
pub proof fn lemma_long_press_needs_hold(r: GestureRecognizer, t: u32)
    requires
        wrap_sub_u32(t, r.f0.down_ms) < LONG_PRESS_MS,
    ensures
        r.long_press_spec(t).1.len() == 0,
        r.long_press_spec(t).0 == r,
{
}

// ─── Directions of motion ───────────────────────────────────────────────

/// Spec: the angle (raw Q24.8 radians) of finger 1 seen from finger 0.
pub open spec fn pair_angle(r: GestureRecognizer) -> int {
    atan2_spec(
        wrap32(r.f1.current_y.raw - r.f0.current_y.raw) as int,
        wrap32(r.f1.current_x.raw - r.f0.current_x.raw) as int,
    )
}

/// Every direction's angle lies within half a turn either way.
pub proof fn lemma_atan2_within_half_turn(dy: int, dx: int)
    ensures
        -804 <= atan2_spec(dy, dx) <= 804,
{
    if !(dx == 0 && dy == 0) {
        let ax = abs_int(dx);
        let ay = abs_int(dy);
        if ay <= ax {
            lemma_ratio_unit(ay, ax);
            lemma_atan_unit_bounds((ay * 256) / ax);
        } else {
            lemma_ratio_unit(ax, ay);
            lemma_atan_unit_bounds((ax * 256) / ay);
        }
    }
}

/// A Rotate reports the turn the fingers made: its angle is the change
/// of the finger pair's direction since the last emitted rotation, taken
/// within half a turn (a whole turn is 1608 raw units), so turning the
/// pair counter-clockwise in atan2 terms gives a positive angle; the
/// emission then becomes the new reference, so successive angles add up
/// to the total turn.
pub proof fn lemma_rotate_reports_the_turn(r: GestureRecognizer)
    requires
        -0x4000_0000 <= r.last_emit_angle.raw <= 0x4000_0000,
    ensures
        forall|i: int|
            0 <= i < r.emit_multi_spec().1.len() ==> ((#[trigger] r.emit_multi_spec().1[i]) matches GestureEvent::Rotate {
                angle,
                ..
            } ==> in_half_turn(angle.raw as int) && (angle.raw - (pair_angle(r) - r.last_emit_angle.raw)) % 1608 == 0),
        forall|i: int|
            0 <= i < r.emit_multi_spec().1.len() && 0 <= pair_angle(r) - r.last_emit_angle.raw <= 803 ==> ((
            #[trigger] r.emit_multi_spec().1[i]) matches GestureEvent::Rotate { angle, .. } ==> angle.raw == pair_angle(r)
                - r.last_emit_angle.raw),
        forall|i: int|
            0 <= i < r.emit_multi_spec().1.len() && -803 <= pair_angle(r) - r.last_emit_angle.raw < 0 ==> ((
            #[trigger] r.emit_multi_spec().1[i]) matches GestureEvent::Rotate { angle, .. } ==> angle.raw == pair_angle(r)
                - r.last_emit_angle.raw),
        (exists|i: int|
            0 <= i < r.emit_multi_spec().1.len() && (#[trigger] r.emit_multi_spec().1[i]) is Rotate) ==> r.emit_multi_spec().0.last_emit_angle.raw
            == pair_angle(r),
{
    let cur = pair_angle(r);
    lemma_atan2_within_half_turn(
        wrap32(r.f1.current_y.raw - r.f0.current_y.raw) as int,
        wrap32(r.f1.current_x.raw - r.f0.current_x.raw) as int,
    );
    let d: int = cur - r.last_emit_angle.raw;
    assert((cur as i32) as int == cur);
    assert(wrap32(d) == d);
    lemma_norm_angle_props(d);
    let k = choose|k: int| #[trigger] (k * 1608) == norm_angle(d) - d;
    vstd::arithmetic::div_mod::lemma_mod_multiples_basic(k, 1608);
    assert((norm_angle(d) - d) % 1608 == 0);
    assert(norm_angle(d) as i32 as int == norm_angle(d));
    if -803 <= d <= 803 {
        lemma_norm_angle_fixed(d);
    }
}

/// Spec: the distance (raw Q24.8 pixels) between fingers 0 and 1.
pub open spec fn pair_dist(r: GestureRecognizer) -> i32 {
    dist_spec(
        Fixed { raw: wrap32(r.f1.current_x.raw - r.f0.current_x.raw) },
        Fixed { raw: wrap32(r.f1.current_y.raw - r.f0.current_y.raw) },
    )
}

proof fn lemma_ratio_64k(c: int, l: int)
    requires
        l > 0,
        -0x8000_0000 <= c < 0x8000_0000,
    ensures
        (div_trunc(c * 65536, l) >= 65536) == (c >= l),
        abs_int(div_trunc(c * 65536, l) * l - c * 65536) < l,
{
    if c >= 0 {
        vstd::arithmetic::div_mod::lemma_fundamental_div_mod(c * 65536, l);
        vstd::arithmetic::div_mod::lemma_mod_bound(c * 65536, l);
        let q = (c * 65536) / l;
        let m = (c * 65536) % l;
        assert(q * l == l * q) by (nonlinear_arith);
        if c >= l {
            assert(q >= 65536) by (nonlinear_arith)
                requires
                    c * 65536 == l * q + m,
                    m < l,
                    c >= l,
                    l > 0,
            ;
        } else {
            assert(q < 65536) by (nonlinear_arith)
                requires
                    c * 65536 == l * q + m,
                    m >= 0,
                    c < l,
                    l > 0,
            ;
        }
    } else {
        let n = -c * 65536;
        vstd::arithmetic::div_mod::lemma_fundamental_div_mod(n, l);
        vstd::arithmetic::div_mod::lemma_mod_bound(n, l);
        vstd::arithmetic::div_mod::lemma_div_pos_is_pos(n, l);
        let q = n / l;
        let m = n % l;
        assert((-q) * l == -(l * q)) by (nonlinear_arith);
        assert(-(c * 65536) == n);
    }
}

proof fn lemma_half(a: i32)
    ensures
        abs_int(2 * div_raw(a, 512) - a) <= 1,
{
    let x: int = a as int * 256;
    if x >= 0 {
        vstd::arithmetic::div_mod::lemma_fundamental_div_mod(x, 512);
        vstd::arithmetic::div_mod::lemma_mod_bound(x, 512);
        assert(div_trunc(x, 512) == x / 512);
        assert(x / 512 == (a as int) / 2);
        vstd::arithmetic::div_mod::lemma_fundamental_div_mod(a as int, 2);
    } else {
        assert(div_trunc(x, 512) == -((-x) / 512));
        assert((-x) / 512 == (-(a as int)) / 2);
        vstd::arithmetic::div_mod::lemma_fundamental_div_mod(-(a as int), 2);
    }
}

/// A Pinch reports how the fingers spread: its scale is the pair's
/// distance over the distance at the previous pinch (16.16 fixed point,
/// rounded towards zero), so spreading the fingers gives a scale of at
/// least 1 and closing them less than 1; and the emission becomes the
/// new reference. Pinch and Rotate are centred between the two fingers.
pub proof fn lemma_pinch_reports_the_spread(r: GestureRecognizer)
    requires
        r.last_emit_dist.raw > 0,
    ensures
        forall|i: int|
            0 <= i < r.emit_multi_spec().1.len() ==> ((#[trigger] r.emit_multi_spec().1[i]) matches GestureEvent::Pinch {
                scale_delta,
                ..
            } ==> (scale_delta.raw >= 65536) == (pair_dist(r) >= r.last_emit_dist.raw) && abs_int(
                scale_delta.raw * r.last_emit_dist.raw - pair_dist(r) * 65536,
            ) < r.last_emit_dist.raw),
        forall|i: int|
            0 <= i < r.emit_multi_spec().1.len() ==> ((#[trigger] r.emit_multi_spec().1[i]) matches GestureEvent::Pinch {
                x,
                y,
                ..
            } ==> (r.f0.current_x.raw + r.f1.current_x.raw == wrap32(r.f0.current_x.raw + r.f1.current_x.raw) ==> abs_int(
                2 * x.raw - (r.f0.current_x.raw + r.f1.current_x.raw),
            ) <= 1) && (r.f0.current_y.raw + r.f1.current_y.raw == wrap32(r.f0.current_y.raw + r.f1.current_y.raw)
                ==> abs_int(2 * y.raw - (r.f0.current_y.raw + r.f1.current_y.raw)) <= 1)),
        forall|i: int|
            0 <= i < r.emit_multi_spec().1.len() ==> ((#[trigger] r.emit_multi_spec().1[i]) matches GestureEvent::Rotate {
                x,
                y,
                ..
            } ==> (r.f0.current_x.raw + r.f1.current_x.raw == wrap32(r.f0.current_x.raw + r.f1.current_x.raw) ==> abs_int(
                2 * x.raw - (r.f0.current_x.raw + r.f1.current_x.raw),
            ) <= 1) && (r.f0.current_y.raw + r.f1.current_y.raw == wrap32(r.f0.current_y.raw + r.f1.current_y.raw)
                ==> abs_int(2 * y.raw - (r.f0.current_y.raw + r.f1.current_y.raw)) <= 1)),
        (exists|i: int|
            0 <= i < r.emit_multi_spec().1.len() && (#[trigger] r.emit_multi_spec().1[i]) is Pinch) ==> r.emit_multi_spec().0.last_emit_dist.raw
            == (if pair_dist(r) >= 1 {
            pair_dist(r) as int
        } else {
            1
        }),
{
    lemma_ratio_64k(pair_dist(r) as int, r.last_emit_dist.raw as int);
    lemma_half(wrap32(r.f0.current_x.raw + r.f1.current_x.raw));
    lemma_half(wrap32(r.f0.current_y.raw + r.f1.current_y.raw));
    let c = pair_dist(r) as int;
    let l = r.last_emit_dist.raw as int;
    assert(-0x8000_0000 * 65536 <= c * 65536 <= 0x8000_0000 * 65536);
    vstd::arithmetic::div_mod::lemma_div_is_ordered_by_denominator(abs_int(c * 65536), 1, l);
    assert(div_trunc(c * 65536, l) as i64 as int == div_trunc(c * 65536, l));
}

/// A release velocity follows the finger: for a last step of `pos - prev`
/// over `dt` ms, the velocity (px/s) has the step's sign and is the step
/// times 1000 over `dt`, rounded towards zero.
pub proof fn lemma_release_velocity_follows_the_finger(pos: Fixed, prev: Fixed, dt: u32)
    requires
        1 <= dt < 0x80_0000,
        -2_000_000 <= pos.raw - prev.raw <= 2_000_000,
    ensures
        pos.raw > prev.raw ==> velocity_spec(pos, prev, dt) >= 0,
        pos.raw < prev.raw ==> velocity_spec(pos, prev, dt) <= 0,
        abs_int(velocity_spec(pos, prev, dt) * dt - (pos.raw - prev.raw) * 1000) < dt,
{
    let d: int = pos.raw - prev.raw;
    assert(wrap32(d) == d);
    assert((d * 256000) == (d * 1000) * 256);
    vstd::arithmetic::div_mod::lemma_div_multiples_vanish(d * 1000, 256);
    assert(mul_raw(wrap32(d), 256000i32) == d * 1000);
    let b: int = dt as int;
    assert((dt as i32) as int == b);
    assert(wrap32(b * 256) == b * 256);
    let a: int = d * 1000;
    assert((a * 256) == (a * 256));
    if d >= 0 {
        vstd::arithmetic::div_mod::lemma_div_denominator(a * 256, 256, b);
        vstd::arithmetic::div_mod::lemma_div_multiples_vanish(a, 256);
        assert((a * 256) / (256 * b) == a / b);
        assert(256 * b == b * 256);
        vstd::arithmetic::div_mod::lemma_fundamental_div_mod(a, b);
        vstd::arithmetic::div_mod::lemma_mod_bound(a, b);
        vstd::arithmetic::div_mod::lemma_div_pos_is_pos(a, b);
        vstd::arithmetic::div_mod::lemma_div_is_ordered(a, 2_000_000_000, b);
        assert(2_000_000_000int / b <= 2_000_000_000) by {
            vstd::arithmetic::div_mod::lemma_div_is_ordered_by_denominator(2_000_000_000, 1, b);
        }
        assert(div_trunc(a * 256, b * 256) == a / b);
        assert(wrap32(a / b) == a / b);
        let q = a / b;
        assert(q * b == b * q) by (nonlinear_arith);
    } else {
        let na = -a;
        vstd::arithmetic::div_mod::lemma_div_denominator(na * 256, 256, b);
        vstd::arithmetic::div_mod::lemma_div_multiples_vanish(na, 256);
        assert(256 * b == b * 256);
        assert((-(a * 256)) == na * 256);
        vstd::arithmetic::div_mod::lemma_fundamental_div_mod(na, b);
        vstd::arithmetic::div_mod::lemma_mod_bound(na, b);
        vstd::arithmetic::div_mod::lemma_div_pos_is_pos(na, b);
        vstd::arithmetic::div_mod::lemma_div_is_ordered(na, 2_000_000_000, b);
        assert(2_000_000_000int / b <= 2_000_000_000) by {
            vstd::arithmetic::div_mod::lemma_div_is_ordered_by_denominator(2_000_000_000, 1, b);
        }
        assert(div_trunc(a * 256, b * 256) == -(na / b));
        assert(wrap32(-(na / b)) == -(na / b));
        let q = na / b;
        assert(q * b == b * q) by (nonlinear_arith);
        assert((-q) * b == -(q * b)) by (nonlinear_arith);
    }
}

/// A drag moves the content with the finger: a step that keeps the
/// offset inside `[0, max]` moves it by exactly the pointer motion,
/// reversed (dragging up scrolls the list down), along the container's
/// axis only.
pub proof fn lemma_drag_moves_content_with_the_finger(
    s: ScrollOffset,
    dir: ScrollAxis,
    dx: Fixed,
    dy: Fixed,
    max_x: i32,
    max_y: i32,
)
    ensures
        dir != ScrollAxis::Horizontal && dy.raw > i32::MIN && 0 <= s.y.raw - dy.raw <= max_y ==> dragged_offset(s, dir, dx, dy, max_x, max_y).y.raw
            == s.y.raw - dy.raw,
        dir != ScrollAxis::Vertical && dx.raw > i32::MIN && 0 <= s.x.raw - dx.raw <= max_x ==> dragged_offset(s, dir, dx, dy, max_x, max_y).x.raw
            == s.x.raw - dx.raw,
        dir == ScrollAxis::Vertical ==> dragged_offset(s, dir, dx, dy, max_x, max_y).x == s.x,
        dir == ScrollAxis::Horizontal ==> dragged_offset(s, dir, dx, dy, max_x, max_y).y == s.y,
{
}

/// The fling velocity a drag step records points the way the content
/// moved: against the pointer motion, along the container's axis.
pub proof fn lemma_drag_velocity_follows_the_content(dir: ScrollAxis, dx: Fixed, dy: Fixed)
    requires
        dx.raw > i32::MIN,
        dy.raw > i32::MIN,
    ensures
        drag_velocity(dir, dx, dy) == (match dir {
            ScrollAxis::Vertical => (0i32, (-dy.raw) as i32),
            ScrollAxis::Horizontal => ((-dx.raw) as i32, 0i32),
            ScrollAxis::Both => ((-dx.raw) as i32, (-dy.raw) as i32),
        }),
{
}

/// A released drag reports a velocity that follows the lifting finger:
/// each component has the sign of the finger's last step and is that
/// step times 1000 over the time it took (at least 1 ms), rounded towards
/// zero.
pub proof fn lemma_drag_end_velocity_follows_the_finger(r: GestureRecognizer, id: u8, x: Fixed, y: Fixed, t: u32, i: int)
    requires
        r.state == GestureState::Dragging,
        !r.scroll_claimed,
        r.target is Some,
        r.slot_of(id) == Some(i),
        (if wrap_sub_u32(t, r.finger(i).prev_ms) >= 1 {
            wrap_sub_u32(t, r.finger(i).prev_ms)
        } else {
            1
        }) < 0x80_0000,
        -2_000_000 <= x.raw - r.finger(i).prev_x.raw <= 2_000_000,
        -2_000_000 <= y.raw - r.finger(i).prev_y.raw <= 2_000_000,
    ensures
        ({
            let f = r.finger(i);
            let dt: int = if wrap_sub_u32(t, f.prev_ms) >= 1 {
                wrap_sub_u32(t, f.prev_ms) as int
            } else {
                1
            };
            let out = r.update_spec(InputEvent::PointerUp { id, x, y }, t, None).1;
            &&& out.len() == 1
            &&& out[0] matches GestureEvent::DragEnd { vx, vy, .. } && (x.raw > f.prev_x.raw ==> vx.raw >= 0) && (x.raw
                < f.prev_x.raw ==> vx.raw <= 0) && (y.raw > f.prev_y.raw ==> vy.raw >= 0) && (y.raw < f.prev_y.raw
                ==> vy.raw <= 0) && abs_int(vx.raw * dt - (x.raw - f.prev_x.raw) * 1000) < dt && abs_int(
                vy.raw * dt - (y.raw - f.prev_y.raw) * 1000,
            ) < dt
        }),
{
    let f = r.finger(i);
    let dt: u32 = if wrap_sub_u32(t, f.prev_ms) >= 1 {
        wrap_sub_u32(t, f.prev_ms)
    } else {
        1
    };
    lemma_release_velocity_follows_the_finger(x, f.prev_x, dt);
    lemma_release_velocity_follows_the_finger(y, f.prev_y, dt);
}

/// Past an edge, a horizontal drag is damped but still follows the
/// finger: the offset moves against the pointer motion, by at most that
/// motion.
pub proof fn lemma_elastic_drag_follows_the_finger_across(s: ScrollOffset, dx: Fixed, dy: Fixed, max_x: i32, max_y: i32)
    requires
        -0x10_0000 <= dx.raw <= 0x10_0000,
        -0x4000_0000 <= s.x.raw <= 0x4000_0000,
        0 <= max_x <= 0x4000_0000,
    ensures
        ({
            let r = dragged_offset(s, ScrollAxis::Horizontal, dx, dy, max_x, max_y);
            &&& (r.x.raw - s.x.raw) * dx.raw <= 0
            &&& abs_int(r.x.raw - s.x.raw) <= abs_int(dx.raw as int)
        }),
{
    let t = ScrollOffset { x: s.y, y: s.x };
    lemma_elastic_drag_follows_the_finger(t, dy, dx, max_y, max_x);
    assert(dragged_offset(s, ScrollAxis::Horizontal, dx, dy, max_x, max_y).x == dragged_offset(
        t,
        ScrollAxis::Vertical,
        dy,
        dx,
        max_y,
        max_x,
    ).y);
}

/// Past an edge, the drag is damped but still follows the finger: the
/// offset moves against the pointer motion, by at most that motion.
pub proof fn lemma_elastic_drag_follows_the_finger(s: ScrollOffset, dx: Fixed, dy: Fixed, max_x: i32, max_y: i32)
    requires
        -0x10_0000 <= dy.raw <= 0x10_0000,
        -0x4000_0000 <= s.y.raw <= 0x4000_0000,
        0 <= max_y <= 0x4000_0000,
    ensures
        ({
            let r = dragged_offset(s, ScrollAxis::Vertical, dx, dy, max_x, max_y);
            &&& (r.y.raw - s.y.raw) * dy.raw <= 0
            &&& abs_int(r.y.raw - s.y.raw) <= abs_int(dy.raw as int)
        }),
{
    let nd: int = -dy.raw;
    assert(wrap32(nd) == nd);
    let no: int = s.y.raw + nd;
    assert(wrap32(no) == no);
    if !(0 <= no <= max_y) {
        let over: int = if no < 0 { -no } else { no - max_y };
        assert(wrap32(over) == over);
        let denom: int = 200 + over / 256;
        vstd::arithmetic::div_mod::lemma_div_pos_is_pos(over, 256);
        assert(denom >= 200);
        let x: int = nd * 200;
        assert(wrap32(x) == x);
        if x >= 0 {
            vstd::arithmetic::div_mod::lemma_div_is_ordered_by_denominator(x, 200, denom);
            vstd::arithmetic::div_mod::lemma_div_pos_is_pos(x, denom);
            assert(x / 200 == nd);
            assert(div_trunc(x, denom) == x / denom);
        } else {
            vstd::arithmetic::div_mod::lemma_div_is_ordered_by_denominator(-x, 200, denom);
            vstd::arithmetic::div_mod::lemma_div_pos_is_pos(-x, denom);
            assert((-x) / 200 == -nd);
            assert(div_trunc(x, denom) == -((-x) / denom));
        }
        let e = div_trunc(x, denom);
        assert(wrap32(e) == e);
        assert(wrap32(s.y.raw + e) == s.y.raw + e);
        assert(e * dy.raw <= 0) by (nonlinear_arith)
            requires
                (nd >= 0 ==> 0 <= e <= nd),
                (nd < 0 ==> nd <= e <= 0),
                nd == -dy.raw,
        ;
    } else {
        assert(nd * dy.raw <= 0) by (nonlinear_arith)
            requires
                nd == -dy.raw,
        ;
    }
}

/// A fling that overscrolls bounces back to the edge it crossed: after an
/// inertia step of an elastic spring, a value below 0 is pulled back to
/// 0 and a value past `max` to `max`, with the bouncy preset; the
/// spring's position and speed are the free step's.
pub proof fn lemma_bounce_targets_the_crossed_edge(s: Spring, dt: u32, max: i32, elastic: bool)
    requires
        0 <= max,
    ensures
        inertia_step(s, dt, max, elastic).value == tick_spec(s, dt).value,
        inertia_step(s, dt, max, elastic).velocity == tick_spec(s, dt).velocity,
        elastic && inertia_step(s, dt, max, elastic).value.raw < 0 ==> inertia_step(s, dt, max, elastic).target.raw
            == 0,
        elastic && inertia_step(s, dt, max, elastic).value.raw > max ==> inertia_step(s, dt, max, elastic).target.raw
            == max,
        !elastic || (0 <= inertia_step(s, dt, max, elastic).value.raw <= max) ==> inertia_step(s, dt, max, elastic)
            == tick_spec(s, dt),
        elastic && !(0 <= inertia_step(s, dt, max, elastic).value.raw <= max) ==> inertia_step(s, dt, max, elastic).preset
            == crate::anim::bouncy_spec(),
{
}

/// Each rotary detent scrolls the container 20 px against the rotation,
/// along its axis.
pub proof fn lemma_rotary_scrolls_twenty_px_per_detent(s: ScrollOffset, axis: ScrollAxis, delta: i16)
    ensures
        axis == ScrollAxis::Horizontal && i32::MIN <= s.x.raw - 5120 * delta <= i32::MAX ==> rotary_offset(s, axis, delta)
            == (ScrollOffset { x: Fixed { raw: (s.x.raw - 5120 * delta) as i32 }, ..s }),
        axis != ScrollAxis::Horizontal && i32::MIN <= s.y.raw - 5120 * delta <= i32::MAX ==> rotary_offset(s, axis, delta)
            == (ScrollOffset { y: Fixed { raw: (s.y.raw - 5120 * delta) as i32 }, ..s }),
{
    let d: int = delta as int;
    assert(wrap32(d * 256) == d * 256);
    assert((d * 256) * 5120 == (d * 5120) * 256) by (nonlinear_arith);
    vstd::arithmetic::div_mod::lemma_div_multiples_vanish(d * 5120, 256);
    assert(wrap32(d * 5120) == d * 5120);
    assert(mul_raw(wrap32(d * 256), 5120i32) == d * 5120);
}

// ─── Multi-tap counting ─────────────────────────────────────────────────

/// A tap on the same entity within the window extends the series.
pub proof fn lemma_multi_tap_series(prev: MultiTapEntry, x: Fixed, y: Fixed, now_ms: u32)
    requires
        now_ms != 0,
        prev.time_ms != 0,
        wrap_sub_u32(now_ms, prev.time_ms) <= MULTI_TAP_WINDOW_MS,
        prev.count < 255,
    ensures
        observe_spec(
            Some(MultiTapTracker { last: Some(prev) }),
            GestureEvent::Tap { x, y, target: prev.entity },
            now_ms,
        ) == Some(
            MultiTapTracker {
                last: Some(MultiTapEntry { entity: prev.entity, time_ms: now_ms, count: (prev.count + 1) as u8 }),
            },
        ),
{
}

/// A tap on another entity, or after the window, starts a new series.
pub proof fn lemma_multi_tap_restart(prev: MultiTapEntry, target: Entity, x: Fixed, y: Fixed, now_ms: u32)
    requires
        target != prev.entity || wrap_sub_u32(now_ms, prev.time_ms) > MULTI_TAP_WINDOW_MS,
    ensures
        observe_spec(Some(MultiTapTracker { last: Some(prev) }), GestureEvent::Tap { x, y, target }, now_ms)
            == Some(MultiTapTracker { last: Some(MultiTapEntry { entity: target, time_ms: now_ms, count: 1 }) }),
{
}

/// Every observed tap counts at least once; other gestures leave the
/// tracker alone.
pub proof fn lemma_multi_tap_counts_taps(t: Option<MultiTapTracker>, event: GestureEvent, now_ms: u32)
    ensures
        event is Tap ==> (observe_spec(t, event, now_ms) matches Some(tr) && tr.last matches Some(e)
            && e.count >= 1 && e.entity == gesture_target(event)),
        !(event is Tap) ==> observe_spec(t, event, now_ms) == t,
{
}

// ─── Pointer cursor ─────────────────────────────────────────────────────

/// The cursor's event sequence number moves on press and release only;
/// a move only updates the position.
pub proof fn lemma_cursor_seq_moves_on_press_and_release(c: PointerCursor, event: InputEvent)
    ensures
        (event is PointerDown || event is PointerUp) ==> (cursor_after(Some(c), event) matches Some(n)
            && n.event_seq == seq_next(c.event_seq)),
        event is PointerMove ==> (cursor_after(Some(c), event) matches Some(n) && n.event_seq == c.event_seq
            && n.down == c.down),
        !(event is PointerDown || event is PointerUp || event is PointerMove) ==> cursor_after(Some(c), event)
            == Some(c),
{
}

// ─── Disabled subtrees ──────────────────────────────────────────────────

/// A disabled entity disables its whole subtree: a child of a disabled
/// entity counts as disabled.
pub proof fn lemma_disabled_propagates(w: &World, child: Entity, parent: Entity)
    requires
        w.has(child),
        w.parent_of(child) == Some(parent),
        w.user_state_of(parent) == Some(UserState::Disabled),
    ensures
        disabled_spec(w, child),
{
    assert(w.entities@.len() >= 1);
    let fuel = (w.entities@.len() + 1) as nat;
    if w.user_state_of(child) != Some(UserState::Disabled) {
        assert(disabled_within(w, parent, (fuel - 1) as nat));
    }
}

/// `Errored` is not `Disabled`: an entity whose only flag is `Errored`,
/// with no parent, is not disabled.
pub proof fn lemma_errored_is_not_disabled(w: &World, e: Entity)
    requires
        w.user_state_of(e) == Some(UserState::Errored),
        w.parent_of(e) is None,
    ensures
        !disabled_spec(w, e),
{
}

// ─── Simulated input ────────────────────────────────────────────────────

/// A script written with relative delays only never goes back in time.
pub proof fn lemma_relative_script_monotone(cmds: Seq<SimCommand>, i: int, j: int)
    requires
        0 <= i <= j < cmds.len(),
        forall|k: int| 0 <= k < cmds.len() ==> #[trigger] cmds[k].timing is After,
    ensures
        timing_at(cmds, i) <= timing_at(cmds, j),
    decreases j - i,
{
    if i < j {
        lemma_relative_script_monotone(cmds, i, j - 1);
    }
}

/// Spec: one run of the script player at `now`: the events it fires and
/// the script afterwards.
pub open spec fn script_tick(s: SimulatedInput, now: u32) -> (Seq<InputEvent>, SimulatedInput) {
    let after = script_after(s, now);
    (fired_spec(s, now), SimulatedInput { cursor: after.0, start_ms: after.1, ..s })
}

/// Spec: runs of the script player at the times `nows`, in order: every
/// event fired, oldest first, and the script afterwards.
pub open spec fn script_ticks(s: SimulatedInput, nows: Seq<u32>) -> (Seq<InputEvent>, SimulatedInput)
    decreases nows.len(),
{
    if nows.len() == 0 {
        (Seq::empty(), s)
    } else {
        let prev = script_ticks(s, nows.drop_last());
        let q = script_tick(prev.1, nows.last());
        (prev.0 + q.0, q.1)
    }
}

proof fn lemma_due_congruent(s1: SimulatedInput, s2: SimulatedInput, a: int, e: u32)
    requires
        s1.commands@ == s2.commands@,
        s1.resolved_ms@ == s2.resolved_ms@,
    ensures
        due_from(s1, a, e) == due_from(s2, a, e),
        first_not_due(s1, a, e) == first_not_due(s2, a, e),
    decreases s1.commands@.len() - a,
{
    if 0 <= a < s1.commands@.len() {
        lemma_due_congruent(s1, s2, a + 1, e);
    }
}

/// Commands due by `e1` stay due by a later `e2`: what is due from `a`
/// by `e2` is what was due by `e1`, then what is due from there on.
proof fn lemma_due_split(s: SimulatedInput, a: int, e1: u32, e2: u32)
    requires
        0 <= a,
        e1 <= e2,
    ensures
        due_from(s, a, e2) == due_from(s, a, e1) + due_from(s, first_not_due(s, a, e1), e2),
        first_not_due(s, a, e2) == first_not_due(s, first_not_due(s, a, e1), e2),
        a <= first_not_due(s, a, e1),
        a <= s.commands@.len() ==> first_not_due(s, a, e1) <= s.commands@.len(),
    decreases s.commands@.len() - a,
{
    if a < s.commands@.len() {
        if a < s.resolved_ms@.len() && s.resolved_ms@[a] <= e1 {
            lemma_due_split(s, a + 1, e1, e2);
            assert(due_from(s, a, e2) =~= seq![s.commands@[a].event] + due_from(s, a + 1, e2));
            assert(due_from(s, a, e1) =~= seq![s.commands@[a].event] + due_from(s, a + 1, e1));
            assert(due_from(s, a, e2) =~= due_from(s, a, e1) + due_from(s, first_not_due(s, a, e1), e2));
        } else {
            assert(due_from(s, a, e1) =~= Seq::<InputEvent>::empty());
            assert(due_from(s, a, e2) =~= due_from(s, a, e1) + due_from(s, a, e2));
        }
    } else {
        assert(due_from(s, a, e1) =~= Seq::<InputEvent>::empty());
        assert(due_from(s, a, e2) =~= due_from(s, a, e1) + due_from(s, a, e2));
    }
}

proof fn lemma_script_prefix(s: SimulatedInput, nows: Seq<u32>, k: int)
    requires
        0 < s.commands@.len() <= usize::MAX,
        s.cursor == 0,
        1 <= k <= nows.len(),
        forall|i: int, j: int|
            0 <= i <= j < nows.len() ==> wrap_sub_u32(nows[i], script_start(s, nows[0])) <= wrap_sub_u32(
                nows[j],
                script_start(s, nows[0]),
            ),
        forall|j: int|
            0 <= j < nows.len() - 1 ==> first_not_due(s, 0, wrap_sub_u32(#[trigger] nows[j], script_start(s, nows[0])))
                < s.commands@.len(),
    ensures
        ({
            let st = script_start(s, nows[0]);
            let e = wrap_sub_u32(nows[k - 1], st);
            let r = script_ticks(s, nows.take(k));
            &&& r.0 == due_from(s, 0, e)
            &&& r.1.commands == s.commands && r.1.resolved_ms == s.resolved_ms && r.1.looping == s.looping
                && r.1.root == s.root
            &&& first_not_due(s, 0, e) < s.commands@.len() || !s.looping ==> r.1.cursor == first_not_due(s, 0, e)
                && r.1.start_ms == Some(st)
            &&& first_not_due(s, 0, e) >= s.commands@.len() && s.looping ==> r.1.cursor == 0 && r.1.start_ms
                == Some(nows[k - 1])
            &&& first_not_due(s, 0, e) <= s.commands@.len()
        }),
    decreases k,
{
    let st = script_start(s, nows[0]);
    assert(nows.take(k).drop_last() =~= nows.take(k - 1));
    assert(nows.take(k).last() == nows[k - 1]);
    if k == 1 {
        assert(nows.take(0) =~= Seq::<u32>::empty());
        let e = wrap_sub_u32(nows[0], st);
        lemma_due_split(s, 0, e, e);
        assert(script_ticks(s, nows.take(1)) == (Seq::<InputEvent>::empty() + script_tick(s, nows[0]).0, script_tick(s, nows[0]).1));
        assert(script_ticks(s, nows.take(1)).0 =~= due_from(s, 0, e));
    } else {
        lemma_script_prefix(s, nows, k - 1);
        let prev = script_ticks(s, nows.take(k - 1));
        let e0 = wrap_sub_u32(nows[k - 2], st);
        let e = wrap_sub_u32(nows[k - 1], st);
        assert(first_not_due(s, 0, e0) < s.commands@.len());
        assert(prev.1.cursor == first_not_due(s, 0, e0) && prev.1.start_ms == Some(st));
        lemma_due_split(s, 0, e0, e);
        lemma_due_split(s, 0, e, e);
        lemma_due_congruent(prev.1, s, prev.1.cursor as int, e);
        let now = nows[k - 1];
        assert(script_start(prev.1, now) == st);
        assert(fired_spec(prev.1, now) == due_from(s, first_not_due(s, 0, e0), e));
        assert(first_not_due(prev.1, prev.1.cursor as int, e) == first_not_due(s, 0, e));
        assert(script_ticks(s, nows.take(k)) == (prev.0 + script_tick(prev.1, now).0, script_tick(prev.1, now).1));
        assert(script_ticks(s, nows.take(k)).0 =~= due_from(s, 0, e0) + due_from(s, first_not_due(s, 0, e0), e));
    }
}

/// The script player fires each command once per cycle, in index order,
/// exactly when it is due: over runs whose elapsed times (from the
/// script's start, fixed at the first run) do not go back, and with some
/// command still not due at every run before the last, the events fired are those
/// of the commands due by the last run, from the first on; the cursor
/// then stands at the first command not yet due, or, when every command
/// has fired and the script loops, back at the first with the clock
/// restarted at the last run.
pub proof fn lemma_script_fires_each_command_once(s: SimulatedInput, nows: Seq<u32>)
    requires
        0 < s.commands@.len() <= usize::MAX,
        s.cursor == 0,
        nows.len() >= 1,
        forall|i: int, j: int|
            0 <= i <= j < nows.len() ==> wrap_sub_u32(nows[i], script_start(s, nows[0])) <= wrap_sub_u32(
                nows[j],
                script_start(s, nows[0]),
            ),
        forall|j: int|
            0 <= j < nows.len() - 1 ==> first_not_due(s, 0, wrap_sub_u32(#[trigger] nows[j], script_start(s, nows[0])))
                < s.commands@.len(),
    ensures
        ({
            let e = wrap_sub_u32(nows.last(), script_start(s, nows[0]));
            let r = script_ticks(s, nows);
            let c = first_not_due(s, 0, e);
            &&& r.0 == due_from(s, 0, e)
            &&& c < s.commands@.len() || !s.looping ==> r.1.cursor == c && r.1.start_ms == Some(
                script_start(s, nows[0]),
            )
            &&& c >= s.commands@.len() && s.looping ==> r.1.cursor == 0 && r.1.start_ms == Some(nows.last())
        }),
{
    lemma_script_prefix(s, nows, nows.len() as int);
    assert(nows.take(nows.len() as int) =~= nows);
}

/// Timeline actions start in order: an action never starts before the
/// ones laid out ahead of it.
pub proof fn lemma_timeline_starts_in_order(actions: Seq<SimAction>, i: int, j: int)
    requires
        0 <= i <= j,
    ensures
        durations_before(actions, i) <= durations_before(actions, j),
    decreases j - i,
{
    if i < j {
        lemma_timeline_starts_in_order(actions, i, j - 1);
    }
}

/// Spec: the detents a linearly paced rotation of `ticks` detents, one
/// every `step_ms`, emits over the ticks at `els` ms into the action,
/// starting from progress `p`: how many rotary events went out, and the
/// progress after the last tick.
pub open spec fn rotation_run(ticks: i16, step_ms: u16, p: TimelineProgress, els: Seq<u32>) -> (nat, TimelineProgress)
    decreases els.len(),
{
    if els.len() == 0 {
        (0, p)
    } else {
        let prev = rotation_run(ticks, step_ms, p, els.drop_last());
        let q = plan_spec(ResolvedAction::Rotate { ticks, step_ms, ease_fn: None }, prev.1, els.last());
        (prev.0 + q.0.len(), q.1)
    }
}

/// Spec: the time between a rotation's detents (at least 1 ms).
pub open spec fn rotation_step(step_ms: u16) -> int {
    if step_ms >= 1 {
        step_ms as int
    } else {
        1
    }
}

/// Spec: a rotation's whole duration: one step per detent.
pub open spec fn rotation_ms(ticks: i16, step_ms: u16) -> int {
    rotation_step(step_ms) * unsigned_abs16(ticks) as int
}

proof fn lemma_linear_target(ticks: i16, step_ms: u16, el: u32)
    requires
        el as int / rotation_step(step_ms) < 65536,
    ensures
        rotate_target(ticks, step_ms, None, el) as int == ({
            let q = el as int / rotation_step(step_ms);
            if q <= unsigned_abs16(ticks) {
                q
            } else {
                unsigned_abs16(ticks) as int
            }
        }),
        (rotate_target(ticks, step_ms, None, el) >= unsigned_abs16(ticks)) == (el >= rotation_ms(ticks, step_ms)),
{
    let step: int = rotation_step(step_ms);
    let total = unsigned_abs16(ticks) as int;
    let e: int = el as int;
    let q = e / step;
    assert(step * total <= u32::MAX) by (nonlinear_arith)
        requires
            1 <= step <= 65535,
            0 <= total <= 65535,
    ;
    vstd::arithmetic::div_mod::lemma_fundamental_div_mod(e, step);
    vstd::arithmetic::div_mod::lemma_mod_pos_bound(e, step);
    let m = e % step;
    if q >= total {
        assert(e >= step * total) by (nonlinear_arith)
            requires
                e == step * q + m,
                0 <= m,
                q >= total,
                step >= 1,
        ;
    } else {
        assert(e < step * total) by (nonlinear_arith)
            requires
                e == step * q + m,
                m < step,
                q < total,
                q >= 0,
                step >= 1,
        ;
    }
    assert(rotation_ms(ticks, step_ms) == step * total);
}

proof fn lemma_rotation_prefix(ticks: i16, step_ms: u16, p: TimelineProgress, els: Seq<u32>, k: int)
    requires
        unsigned_abs16(ticks) > 0,
        p.rotate_emitted == 0,
        !p.action_started,
        0 <= k <= els.len(),
        forall|i: int, j: int| 0 <= i <= j < els.len() ==> els[i] <= els[j],
        forall|i: int| 0 <= i < els.len() ==> #[trigger] els[i] as int / rotation_step(step_ms) < 65536,
        forall|i: int| 0 <= i < k ==> #[trigger] els[i] < rotation_ms(ticks, step_ms),
    ensures
        rotation_run(ticks, step_ms, p, els.take(k)).0 == rotation_run(ticks, step_ms, p, els.take(k)).1.rotate_emitted,
        rotation_run(ticks, step_ms, p, els.take(k)).1 == (TimelineProgress {
            action_started: k > 0 || p.action_started,
            rotate_emitted: rotation_run(ticks, step_ms, p, els.take(k)).1.rotate_emitted,
            ..p
        }),
        k > 0 ==> rotation_run(ticks, step_ms, p, els.take(k)).1.rotate_emitted == rotate_target(ticks, step_ms, None, els[k - 1]),
    decreases k,
{
    if k > 0 {
        lemma_rotation_prefix(ticks, step_ms, p, els, k - 1);
        assert(els.take(k).drop_last() =~= els.take(k - 1));
        assert(els.take(k).last() == els[k - 1]);
        lemma_linear_target(ticks, step_ms, els[k - 1]);
        if k > 1 {
            lemma_linear_target(ticks, step_ms, els[k - 2]);
            vstd::arithmetic::div_mod::lemma_div_is_ordered(
                els[k - 2] as int,
                els[k - 1] as int,
                if step_ms >= 1 { step_ms as int } else { 1 },
            );
        }
    } else {
        assert(els.take(0) =~= Seq::<u32>::empty());
    }
}

/// A linearly paced rotation emits each of its detents exactly once.
/// Over ticks that come with a non-decreasing clock (less than 65536
/// steps into the action), the detents emitted so far are the ones due
/// (elapsed time over the step, at most all of them) and are what the
/// progress records; the tick at which the rotation's whole duration has
/// passed has emitted all `|ticks|` detents and moves the timeline on to
/// the next action.
pub proof fn lemma_rotation_emits_each_detent_once(ticks: i16, step_ms: u16, p: TimelineProgress, els: Seq<u32>)
    requires
        unsigned_abs16(ticks) > 0,
        p.rotate_emitted == 0,
        !p.action_started,
        p.cursor < usize::MAX,
        els.len() > 0,
        forall|i: int, j: int| 0 <= i <= j < els.len() ==> els[i] <= els[j],
        forall|i: int| 0 <= i < els.len() ==> #[trigger] els[i] as int / rotation_step(step_ms) < 65536,
        forall|i: int| 0 <= i < els.len() - 1 ==> #[trigger] els[i] < rotation_ms(ticks, step_ms),
    ensures
        els.last() < rotation_ms(ticks, step_ms) ==> {
            let r = rotation_run(ticks, step_ms, p, els);
            &&& r.0 == r.1.rotate_emitted
            &&& r.1.rotate_emitted == rotate_target(ticks, step_ms, None, els.last())
            &&& r.1.rotate_emitted < unsigned_abs16(ticks)
            &&& r.1.cursor == p.cursor
        },
        els.last() >= rotation_ms(ticks, step_ms) ==> {
            let r = rotation_run(ticks, step_ms, p, els);
            &&& r.0 == unsigned_abs16(ticks)
            &&& r.1.cursor == p.cursor + 1
            &&& r.1.rotate_emitted == 0
            &&& !r.1.action_started
        },
{
    let n = els.len() - 1;
    lemma_rotation_prefix(ticks, step_ms, p, els, n);
    assert(els =~= els.take(n + 1));
    assert(els.take(n + 1).drop_last() =~= els.take(n));
    lemma_linear_target(ticks, step_ms, els[n]);
    if n > 0 {
        lemma_linear_target(ticks, step_ms, els[n - 1]);
        vstd::arithmetic::div_mod::lemma_div_is_ordered(
            els[n - 1] as int,
            els[n] as int,
            rotation_step(step_ms),
        );
    }
}

// ─── Gesture bubbling ───────────────────────────────────────────────────

proof fn lemma_taps_after_prefix(t: Option<MultiTapTracker>, gs: Seq<GestureEvent>, n: int)
    requires
        0 <= n < gs.len(),
    ensures
        taps_after(t, gs.drop_last(), n) == taps_after(t, gs, n),
    decreases n,
{
    if n > 0 {
        lemma_taps_after_prefix(t, gs, n - 1);
    }
}

/// With no handler on the walk of any of the gestures, bubbling them one
/// after another leaves the callback table and the entities as they were;
/// the multi-tap tracker observes each gesture in turn and nothing else
/// changes.
pub proof fn lemma_quiet_bubbles<C: Callbacks>(c: C, w: World, gs: Seq<GestureEvent>, c2: C, w2: World)
    requires
        unhandled(&w, gs),
        bubbles_run(c, w, gs, c2, w2),
    ensures
        c2 == c,
        w2.entities@ == w.entities@,
        w2.res == (Resources { multi_tap: taps_after(w.res.multi_tap, gs, gs.len() as int), ..w.res }),
    decreases gs.len(),
{
    if gs.len() == 0 {
        assert(w2.res == (Resources { multi_tap: w.res.multi_tap, ..w.res }));
    } else {
        let n = gs.len() - 1;
        let (cm, wm) = choose|cm: C, wm: World|
            bubbles_run(c, w, gs.drop_last(), cm, wm) && #[trigger] bubble_ok(cm, wm, gs.last(), 0, c2, w2);
        assert forall|i: int| 0 <= i < gs.drop_last().len() implies !handler_on_path(
            &w,
            gesture_target(#[trigger] gs.drop_last()[i]),
            (w.entities@.len() + 1) as nat,
        ) by {
            assert(gs.drop_last()[i] == gs[i]);
        }
        lemma_quiet_bubbles(c, w, gs.drop_last(), cm, wm);
        lemma_taps_after_prefix(w.res.multi_tap, gs, n);
        let ev = gs.last();
        let fuel = (wm.entities@.len() + 1) as nat;
        let w1 = choose|w1: World|
            w1.entities@ == wm.entities@ && w1.res == observed_res(&wm, ev, 0) && #[trigger] walk_run(
                cm,
                w1,
                gesture_target(ev),
                ev,
                fuel,
                c2,
                w2,
            );
        assert(gs[n] == ev);
        assert(!handler_on_path(&w, gesture_target(gs[n]), (w.entities@.len() + 1) as nat));
        lemma_handler_on_path_congruent(&w, &w1, gesture_target(ev), fuel);
        lemma_quiet_walk(cm, w1, gesture_target(ev), ev, fuel, c2, w2);
    }
}

/// The walk stops at the first handler that consumes the event: when the
/// first internal handler of the walk's first entity consumes it, the
/// walk ends with that handler's own effect, so no later internal handler
/// and no user handler runs.
pub proof fn lemma_first_consumer_stops_walk<C: Callbacks>(
    c: C,
    w: World,
    cur: Entity,
    ev: GestureEvent,
    fuel: nat,
    c2: C,
    w2: World,
)
    requires
        fuel > 0,
        internal_handlers_spec(&w, cur).len() > 0,
        forall|cm: C, wm: World, r: bool|
            #[trigger] callback_outcome(internal_handlers_spec(&w, cur)[0], c, w, cur, ev, cm, wm, r) ==> r,
        walk_run(c, w, cur, ev, fuel, c2, w2),
    ensures
        callback_outcome(internal_handlers_spec(&w, cur)[0], c, w, cur, ev, c2, w2, true),
{
    let hs = internal_handlers_spec(&w, cur);
    let (c1, w1, done) = choose|c1: C, w1: World, done: bool|
        #[trigger] handlers_run(hs, c, w, cur, ev, c1, w1, done) && if done {
            c2 == c1 && w2 == w1
        } else {
            exists|cu: C, wu: World, r: Option<bool>|
                #[trigger] crate::event::trigger_outcome(c1, w1, cur, ev, cu, wu, r) && if r == Some(true) {
                    c2 == cu && w2 == wu
                } else {
                    match wu.parent_of(cur) {
                        Some(p) => walk_run(cu, wu, p, ev, (fuel - 1) as nat, c2, w2),
                        None => c2 == cu && w2 == wu,
                    }
                }
        };
    let (cm, wm, r) = choose|cm: C, wm: World, r: bool|
        #[trigger] callback_outcome(hs[0], c, w, cur, ev, cm, wm, r) && if r {
            done && c1 == cm && w1 == wm
        } else {
            handlers_run(hs.drop_first(), cm, wm, cur, ev, c1, w1, done)
        };
    assert(r);
}

// ─── Rotary feedback ────────────────────────────────────────────────────

/// Each input snapshot is taken in once: absorbing the same snapshot a
/// second time changes nothing.
pub proof fn lemma_absorb_once(r: RotaryFeedback, input: InputFeedbackInput)
    ensures
        absorb_spec(absorb_spec(r, input), input) == absorb_spec(r, input),
{
}

/// Spec: the rotary overlay's state lies within the membrane's bounds:
/// target and progress within the pull limit, opacity and pulse between
/// 0 and 1.
pub open spec fn rotary_in_bounds(r: RotaryFeedback) -> bool {
    &&& -max_pull_raw() <= r.target.raw <= max_pull_raw()
    &&& -max_pull_raw() <= r.progress.raw <= max_pull_raw()
    &&& 0 <= r.opacity.raw <= 256
    &&& 0 <= r.pulse.raw <= 256
}

/// Taking in an input batch keeps the overlay within the membrane's
/// bounds.
pub proof fn lemma_absorb_keeps_bounds(r: RotaryFeedback, input: InputFeedbackInput)
    requires
        rotary_in_bounds(r),
    ensures
        rotary_in_bounds(absorb_spec(r, input)),
{
}

proof fn lemma_div_small(a: int, b: int, bound: int)
    requires
        0 <= a <= bound * b,
        b > 0,
        bound >= 0,
    ensures
        0 <= a / b <= bound,
{
    vstd::arithmetic::div_mod::lemma_div_is_ordered(a, bound * b, b);
    vstd::arithmetic::div_mod::lemma_div_multiples_vanish(bound, b);
    vstd::arithmetic::div_mod::lemma_div_pos_is_pos(a, b);
    assert(bound * b == b * bound) by (nonlinear_arith);
    assert((bound * b) / b == bound);
}

/// A frame of spring physics keeps the overlay within the membrane's
/// bounds, for any frame shorter than 8388608 ms (longer ones wrap the
/// frame's fixed-point length).
pub proof fn lemma_physics_keeps_bounds(r: RotaryFeedback, dt: u32)
    requires
        rotary_in_bounds(r),
        dt < 8388608,
    ensures
        rotary_in_bounds(physics_spec(r, dt)),
{
    let x = dt as i32 as int * 256;
    assert(dt as i32 as int == dt as int);
    assert(0 <= x < 0x8000_0000);
    assert(wrap32(x) as int == x);
    lemma_div_small(x * 256, 4096, x / 16 + 1);
    let dtf = div_raw(wrap32(x), 4096i32);
    assert(0 <= dtf);
    lemma_div_small(dtf as int * 256, 6400, dtf as int);
    lemma_div_small(dtf as int * 256, 4096, dtf as int);
    let t = r.target.raw as int;
    assert(t * 1792 == (t * 7) * 256);
    vstd::arithmetic::div_mod::lemma_div_multiples_vanish(t * 7, 256);
    assert(mul_raw(r.target.raw, 1792i32) as int == t * 7);
    if t >= 0 {
        lemma_div_small(t * 7 * 256, 2048, 12288);
    } else {
        lemma_div_small(-(t * 7 * 256), 2048, 12288);
    }
}

/// Spec: the world's rotary overlay exists and lies within the
/// membrane's bounds.
pub open spec fn rotary_world_in_bounds(w: &World) -> bool {
    w.res.feedback matches Some(fb) && rotary_in_bounds(fb.rotary)
}

/// A frame of the rotary overlay keeps its state within the membrane's
/// bounds, for any input batch (frames shorter than 8388608 ms).
pub proof fn lemma_rotary_frame_keeps_bounds(w: &World, w2: &World)
    requires
        rotary_system_ok(w, w2),
        w.res.feedback matches Some(fb) && rotary_in_bounds(fb.rotary),
        frame_ms(w) < 8388608,
    ensures
        w2.res.feedback matches Some(fb2) && rotary_in_bounds(fb2.rotary),
{
    let fb = w.res.feedback.unwrap();
    let input = match w.res.feedback_input {
        Some(i) => i,
        None => InputFeedbackInput::initial(),
    };
    lemma_absorb_keeps_bounds(fb.rotary, input);
    lemma_physics_keeps_bounds(absorb_spec(fb.rotary, input), frame_ms(w));
}

/// Over any run of frames, the rotary overlay stays within the
/// membrane's bounds when it starts there.
pub proof fn lemma_rotary_frames_keep_bounds(ws: Seq<World>)
    requires
        ws.len() >= 1,
        rotary_world_in_bounds(&ws[0]),
        forall|i: int| 0 <= i < ws.len() - 1 ==> #[trigger] rotary_system_ok(&ws[i], &ws[i + 1]),
        forall|i: int| 0 <= i < ws.len() - 1 ==> #[trigger] frame_ms(&ws[i]) < 8388608,
    ensures
        forall|i: int| 0 <= i < ws.len() ==> #[trigger] rotary_world_in_bounds(&ws[i]),
    decreases ws.len(),
{
    if ws.len() > 1 {
        let init = ws.drop_last();
        assert forall|i: int| 0 <= i < init.len() - 1 implies #[trigger] rotary_system_ok(&init[i], &init[i + 1]) by {
            assert(init[i] == ws[i] && init[i + 1] == ws[i + 1]);
        }
        assert forall|i: int| 0 <= i < init.len() - 1 implies #[trigger] frame_ms(&init[i]) < 8388608 by {
            assert(init[i] == ws[i]);
        }
        assert(init[0] == ws[0]);
        lemma_rotary_frames_keep_bounds(init);
        let n = ws.len() - 1;
        let j = n - 1;
        assert(init[j] == ws[j]);
        assert(rotary_world_in_bounds(&init[j]));
        assert(ws[j + 1] == ws[n]);
        assert(rotary_system_ok(&ws[j], &ws[j + 1]));
        assert(frame_ms(&ws[j]) < 8388608);
        lemma_rotary_frame_keeps_bounds(&ws[n - 1], &ws[n]);
        assert forall|i: int| 0 <= i < ws.len() implies #[trigger] rotary_world_in_bounds(&ws[i]) by {
            if i < n {
                assert(init[i] == ws[i]);
            }
        }
    }
}

/// Each input batch is taken in by one frame only: in the frame after,
/// with no new batch posted, the overlay just runs its spring physics and
/// the consumed batch stays as it was.
pub proof fn lemma_rotary_batch_taken_once(w: &World, w2: &World, w3: &World)
    requires
        rotary_system_ok(w, w2),
        rotary_system_ok(w2, w3),
        w.res.feedback matches Some(fb) && fb.rotary.enabled,
    ensures
        w2.res.feedback matches Some(fb2) && w3.res.feedback matches Some(fb3) && fb3.rotary == physics_spec(
            fb2.rotary,
            frame_ms(w2),
        ),
        w3.res.feedback_input == w2.res.feedback_input,
{
}

/// A frame of the rotary overlay never moves it to another entity: the
/// overlay entity is set once, when it is spawned, and kept from then on.
pub proof fn lemma_rotary_frame_keeps_overlay_entity(w: &World, w2: &World)
    requires
        rotary_system_ok(w, w2),
        w.res.feedback is Some,
    ensures
        w2.res.feedback matches Some(f2) && f2.rotary.entity == w.res.feedback.unwrap().rotary.entity,
{
}

/// The cursor overlay's entity is set once: a frame of the cursor system
/// keeps an overlay it already has, and an overlay it spawns exists.
pub proof fn lemma_cursor_frame_keeps_overlay_entity(w: &World, w2: &World)
    requires
        cursor_system_ok(w, w2),
        w.res.feedback is Some,
        w.entities@.len() < u32::MAX,
    ensures
        w2.res.feedback is Some,
        w.res.feedback.unwrap().cursor.entity is Some ==> w2.res.feedback.unwrap().cursor.entity
            == w.res.feedback.unwrap().cursor.entity,
        w.res.feedback.unwrap().cursor.entity is None ==> (w2.res.feedback.unwrap().cursor.entity matches Some(e)
            ==> w2.has(e)),
{
}

// ─── Gallery motion ─────────────────────────────────────────────────────

/// A page that starts between 0 and 120 degrees stays there, whatever its
/// speed, as long as one frame moves it by at most 120 degrees; a
/// reflection keeps the speed's magnitude and reverses its sign.
pub proof fn lemma_page_stays_on_the_spread(p: Page, dt: u32)
    requires
        0 <= p.angle_deg.raw <= 120 * 256,
        -120 * 256 <= mul_raw(p.speed_deg_per_second.raw, wrap32(div_trunc(dt as int * 256, 1000))) <= 120 * 256,
        p.speed_deg_per_second.raw != i32::MIN,
    ensures
        0 <= page_step(p, dt).angle_deg.raw <= 120 * 256,
        page_step(p, dt).speed_deg_per_second.raw == p.speed_deg_per_second.raw
            || page_step(p, dt).speed_deg_per_second.raw == -p.speed_deg_per_second.raw,
{
}

/// A card that starts within one turn, turning by less than a full turn
/// per frame in the forward direction, stays within one turn.
pub proof fn lemma_flip_card_stays_within_a_turn(c: FlipCard)
    requires
        0 <= c.angle_deg.raw < 360 * 256,
        0 <= c.speed_deg.raw < 360 * 256,
    ensures
        0 <= flip_step(c).angle_deg.raw < 360 * 256,
{
}

/// A spinner whose angle and bounce phase start within one turn, turning
/// forward by less than a full turn per frame, keeps both within one turn.
pub proof fn lemma_spinner_stays_within_a_turn(s: Spinner)
    requires
        0 <= s.angle.raw < 360 * 256,
        0 <= s.bounce_phase.raw < 360 * 256,
        0 <= s.speed.raw < 360 * 256,
    ensures
        0 <= spin_step(s).angle.raw < 360 * 256,
        0 <= spin_step(s).bounce_phase.raw < 360 * 256,
        spin_step(s).speed == s.speed,
{
}

/// The glass panel never leaves the strip between the margin and its
/// right-most position, starts the cycle at the margin and reaches the
/// right-most position half way through: it sweeps the whole width.
pub proof fn lemma_glass_sweeps_the_view(span: int, t: int)
    requires
        0 <= t < 6000,
    ensures
        GLASS_MARGIN <= glass_x(span, t) <= glass_max_x(span),
        glass_x(span, 0) == GLASS_MARGIN,
        glass_x(span, 3000) == glass_max_x(span),
{
    let r = glass_max_x(span) - GLASS_MARGIN;
    let tri = if t < 3000 {
        t
    } else {
        6000 - t
    };
    assert(0 <= r * tri <= r * 3000) by (nonlinear_arith)
        requires
            0 <= r,
            0 <= tri <= 3000,
    ;
    vstd::arithmetic::div_mod::lemma_div_is_ordered(r * tri, r * 3000, 3000);
    vstd::arithmetic::div_mod::lemma_div_multiples_vanish(r, 3000);
    vstd::arithmetic::div_mod::lemma_div_pos_is_pos(r * tri, 3000);
    assert(r * 0 == 0);
}

} // verus!
