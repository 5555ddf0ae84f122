//! Scripted input: a list of timed raw events (`SimulatedInput`) and a
//! timeline of high-level actions (`SimTimeline`) that both feed the
//! same per-event pipeline as real input.
use vstd::prelude::*;

use crate::anim::{ease_spec, Ease};
use crate::ecs::{clock_ms, Entity, Resources, World};
use crate::types::{
    dimension_len, div_raw, mul_raw, norm_angle, sin_spec, wrap32, DimPoint, Fixed, Point, Rect,
};

use super::gesture::event::GestureEvent;
use super::gesture::recognizer::{wrap_sub_u32, wrapping_sub_u32, GestureRecognizer};
use super::hit_test::hit_test;
use super::input::{InputEvent, KEY_ROTARY_PRESS};
use super::gesture::event::gesture_target;
use super::multi_tap::{observe_spec, MultiTapTracker};
use super::{
    bubble_dispatch, bubble_ok, bubbles_run, dispatch_input, lemma_bubbles_push, lemma_inputs_push, dispatch_input_ok, handler_on_path, inputs_run,
    lemma_handler_on_path_congruent, pointer_hit, Callbacks,
};

verus! {

// ─── Anchoring ──────────────────────────────────────────────────────────

/// Spec: the screen point of `p`, relative to `anchor`'s rectangle when
/// anchored; `None` while the anchor has no laid-out rectangle.
pub open spec fn resolve_dim_point_spec(w: &World, p: DimPoint, anchor: Option<Entity>) -> Option<Point> {
    match anchor {
        Some(e) => match w.rect_of(e) {
            Some(r) => Some(
                Point {
                    x: Fixed { raw: wrap32(r.x.raw + dimension_len(p.x, r.w)) },
                    y: Fixed { raw: wrap32(r.y.raw + dimension_len(p.y, r.h)) },
                },
            ),
            None => None,
        },
        None => Some(
            Point {
                x: Fixed { raw: wrap32(0 + dimension_len(p.x, Fixed { raw: 0 })) },
                y: Fixed { raw: wrap32(0 + dimension_len(p.y, Fixed { raw: 0 })) },
            },
        ),
    }
}

/// `None` when the anchor isn't in the live layout (hidden, detached,
/// not yet laid out); the caller retries next frame.
pub fn resolve_dim_point(world: &World, p: DimPoint, anchor: Option<Entity>) -> (r: Option<Point>)
    ensures
        r == resolve_dim_point_spec(world, p, anchor),
{
    let (origin, pw, ph) = match anchor {
        Some(e) => match world.computed_rect(e) {
            Some(rect) => (Point { x: rect.x, y: rect.y }, rect.w, rect.h),
            None => {
                return None;
            },
        },
        None => (Point { x: Fixed::zero(), y: Fixed::zero() }, Fixed::zero(), Fixed::zero()),
    };
    let (lx, ly) = p.resolve(pw, ph);
    Some(Point { x: origin.x.add(lx), y: origin.y.add(ly) })
}

/// Spec: the centre of `r` (half extents, rounded towards zero).
pub open spec fn rect_center_spec(r: Rect) -> Point {
    Point {
        x: Fixed { raw: wrap32(r.x.raw + div_raw(r.w.raw, 512)) },
        y: Fixed { raw: wrap32(r.y.raw + div_raw(r.h.raw, 512)) },
    }
}

/// Spec: `center` when it lies inside the anchor's rectangle (or there is
/// no anchored rectangle), otherwise the rectangle's centre.
pub open spec fn anchored_center_spec(w: &World, anchor: Option<Entity>, center: Point) -> Point {
    match anchor {
        Some(e) => match w.rect_of(e) {
            Some(r) => if center.x.raw >= r.x.raw && center.x.raw < wrap32(r.x.raw + r.w.raw)
                && center.y.raw >= r.y.raw && center.y.raw < wrap32(r.y.raw + r.h.raw) {
                center
            } else {
                rect_center_spec(r)
            },
            None => center,
        },
        None => center,
    }
}

pub fn anchored_center(world: &World, anchor: Option<Entity>, center: Point) -> (r: Point)
    ensures
        r == anchored_center_spec(world, anchor, center),
{
    let e = match anchor {
        Some(e) => e,
        None => {
            return center;
        },
    };
    let rect = match world.computed_rect(e) {
        Some(r) => r,
        None => {
            return center;
        },
    };
    let inside = center.x.raw >= rect.x.raw && center.x.raw < rect.x.add(rect.w).raw
        && center.y.raw >= rect.y.raw && center.y.raw < rect.y.add(rect.h).raw;
    if inside {
        center
    } else {
        Point {
            x: rect.x.add(rect.w.div(Fixed::from_int(2))),
            y: rect.y.add(rect.h.div(Fixed::from_int(2))),
        }
    }
}

pub open spec fn min_i32(a: i32, b: i32) -> i32 {
    if a <= b {
        a
    } else {
        b
    }
}

pub open spec fn max_i32(a: i32, b: i32) -> i32 {
    if a >= b {
        a
    } else {
        b
    }
}

pub open spec fn clamp_i32(v: i32, lo: i32, hi: i32) -> i32 {
    if v < lo {
        lo
    } else if v > hi {
        hi
    } else {
        v
    }
}

/// Spec: the finger distance of a pinch about `center`, limited so both
/// fingers stay inside the anchor's rectangle horizontally.
pub open spec fn anchored_pinch_dist_spec(w: &World, anchor: Option<Entity>, center: Point, dist: Fixed) -> Fixed {
    match anchor {
        Some(e) => match w.rect_of(e) {
            Some(r) => {
                let left = wrap32(center.x.raw - r.x.raw);
                let right = wrap32(wrap32(r.x.raw + r.w.raw) - center.x.raw);
                let max_half = max_i32(min_i32(left, right), 0);
                let max_dist = wrap32(max_half * 2);
                if max_dist <= 0 {
                    Fixed { raw: 0 }
                } else {
                    Fixed { raw: clamp_i32(dist.raw, 0, max_dist) }
                }
            },
            None => dist,
        },
        None => dist,
    }
}

pub fn anchored_pinch_dist(world: &World, anchor: Option<Entity>, center: Point, dist: Fixed) -> (r: Fixed)
    ensures
        r == anchored_pinch_dist_spec(world, anchor, center, dist),
{
    let e = match anchor {
        Some(e) => e,
        None => {
            return dist;
        },
    };
    let rect = match world.computed_rect(e) {
        Some(r) => r,
        None => {
            return dist;
        },
    };
    let left = center.x.sub(rect.x);
    let right = rect.x.add(rect.w).sub(center.x);
    let max_half = left.min(right).max(Fixed::zero());
    let max_dist = max_half.mul(Fixed::from_int(2));
    proof {
        assert(mul_raw(max_half.raw, 512) == wrap32(max_half.raw * 2)) by {
            assert((max_half.raw as int) * 512 == (max_half.raw as int * 2) * 256)
                by (nonlinear_arith);
        }
    }
    if max_dist.raw <= 0 {
        Fixed::zero()
    } else {
        dist.clamp(Fixed::zero(), max_dist)
    }
}

/// Spec: the radius of a two-finger rotation about `center`, limited so
/// both fingers stay inside the anchor's rectangle.
pub open spec fn anchored_rotate_radius_spec(w: &World, anchor: Option<Entity>, center: Point, radius: Fixed) -> Fixed {
    match anchor {
        Some(e) => match w.rect_of(e) {
            Some(r) => {
                let left = wrap32(center.x.raw - r.x.raw);
                let right = wrap32(wrap32(r.x.raw + r.w.raw) - center.x.raw);
                let top = wrap32(center.y.raw - r.y.raw);
                let bottom = wrap32(wrap32(r.y.raw + r.h.raw) - center.y.raw);
                let max_radius = max_i32(min_i32(min_i32(min_i32(left, right), top), bottom), 0);
                Fixed { raw: clamp_i32(radius.raw, 0, max_radius) }
            },
            None => radius,
        },
        None => radius,
    }
}

pub fn anchored_rotate_radius(world: &World, anchor: Option<Entity>, center: Point, radius: Fixed) -> (r: Fixed)
    ensures
        r == anchored_rotate_radius_spec(world, anchor, center, radius),
{
    let e = match anchor {
        Some(e) => e,
        None => {
            return radius;
        },
    };
    let rect = match world.computed_rect(e) {
        Some(r) => r,
        None => {
            return radius;
        },
    };
    let left = center.x.sub(rect.x);
    let right = rect.x.add(rect.w).sub(center.x);
    let top = center.y.sub(rect.y);
    let bottom = rect.y.add(rect.h).sub(center.y);
    let max_radius = left.min(right).min(top).min(bottom).max(Fixed::zero());
    radius.clamp(Fixed::zero(), max_radius)
}

// ─── Timed raw events ───────────────────────────────────────────────────

#[derive(Clone, Copy, Debug, PartialEq, Eq, Structural)]
pub enum SimTiming {
    /// Absolute time from the start of the script.
    At(u32),
    /// Delay after the previous command (saturating).
    After(u32),
}

#[derive(Clone, Copy, Debug, PartialEq, Eq, Structural)]
pub struct SimCommand {
    pub timing: SimTiming,
    pub event: InputEvent,
}

impl SimCommand {
    pub fn at(ms: u32, event: InputEvent) -> (c: SimCommand)
        ensures
            c == (SimCommand { timing: SimTiming::At(ms), event }),
    {
        SimCommand { timing: SimTiming::At(ms), event }
    }

    pub fn after(ms: u32, event: InputEvent) -> (c: SimCommand)
        ensures
            c == (SimCommand { timing: SimTiming::After(ms), event }),
    {
        SimCommand { timing: SimTiming::After(ms), event }
    }
}

/// Spec: the time a command fires at, given the previous command's time.
pub open spec fn timing_step(prev: u32, t: SimTiming) -> u32 {
    match t {
        SimTiming::At(ms) => ms,
        SimTiming::After(ms) => if prev + ms > u32::MAX {
            u32::MAX
        } else {
            (prev + ms) as u32
        },
    }
}

/// Spec: the absolute firing time of command `i`.
pub open spec fn timing_at(cmds: Seq<SimCommand>, i: int) -> u32
    decreases i,
{
    if i <= 0 {
        timing_step(0, cmds[0].timing)
    } else {
        timing_step(timing_at(cmds, i - 1), cmds[i].timing)
    }
}

/// Absolute firing time of each command, in order.
pub fn resolve_timings(commands: &Vec<SimCommand>) -> (out: Vec<u32>)
    ensures
        out@.len() == commands@.len(),
        forall|i: int| 0 <= i < commands@.len() ==> out@[i] == timing_at(commands@, i),
{
    let mut resolved: Vec<u32> = Vec::with_capacity(commands.len());
    let mut current_ms: u32 = 0;
    let mut i: usize = 0;
    while i < commands.len()
        invariant
            i <= commands@.len(),
            resolved@.len() == i,
            forall|j: int| 0 <= j < i ==> resolved@[j] == timing_at(commands@, j),
            i > 0 ==> current_ms == timing_at(commands@, i - 1),
            i == 0 ==> current_ms == 0,
        decreases commands@.len() - i,
    {
        match commands[i].timing {
            SimTiming::At(ms) => {
                current_ms = ms;
            },
            SimTiming::After(ms) => {
                current_ms = current_ms.saturating_add(ms);
            },
        }
        resolved.push(current_ms);
        i = i + 1;
    }
    resolved
}

/// A script of raw input events fired at fixed times.
pub struct SimulatedInput {
    pub commands: Vec<SimCommand>,
    pub resolved_ms: Vec<u32>,
    pub cursor: usize,
    pub start_ms: Option<u32>,
    pub looping: bool,
    pub root: Option<Entity>,
}

impl SimulatedInput {
    pub fn new(commands: Vec<SimCommand>) -> (s: SimulatedInput)
        ensures
            s.commands@ == commands@,
            s.resolved_ms@.len() == commands@.len(),
            forall|i: int| 0 <= i < commands@.len() ==> s.resolved_ms@[i] == timing_at(commands@, i),
            s.cursor == 0,
            s.start_ms is None,
            !s.looping,
            s.root is None,
    {
        let resolved = resolve_timings(&commands);
        SimulatedInput {
            commands,
            resolved_ms: resolved,
            cursor: 0,
            start_ms: None,
            looping: false,
            root: None,
        }
    }

    pub fn looping(self, looping: bool) -> (s: SimulatedInput)
        ensures
            s == (SimulatedInput { looping, ..self }),
    {
        SimulatedInput { looping, ..self }
    }

    pub fn with_root(self, root: Entity) -> (s: SimulatedInput)
        ensures
            s == (SimulatedInput { root: Some(root), ..self }),
    {
        SimulatedInput { root: Some(root), ..self }
    }

    /// Time of the last command, 0 for an empty script.
    pub fn total_duration_ms(&self) -> (r: u32)
        ensures
            self.resolved_ms@.len() == 0 ==> r == 0,
            self.resolved_ms@.len() > 0 ==> r == self.resolved_ms@.last(),
    {
        if self.resolved_ms.len() == 0 {
            0
        } else {
            self.resolved_ms[self.resolved_ms.len() - 1]
        }
    }
}

/// Makes `root` the entity the simulated-input systems hit-test against
/// when a script names none.
pub fn set_sim_root(world: &mut World, root: Entity)
    ensures
        final(world).entities@ == old(world).entities@,
        final(world).res == (crate::ecs::Resources { sim_root: Some(root), ..old(world).res }),
{
    world.res.sim_root = Some(root);
}

// ─── High-level timeline actions ────────────────────────────────────────

/// `point` is in screen coordinates when `anchor` is `None`, local to the
/// anchor's rectangle otherwise.
#[derive(Clone, Copy, Debug, PartialEq, Eq, Structural)]
pub struct TapAction {
    pub point: DimPoint,
    pub anchor: Option<Entity>,
}

#[derive(Clone, Copy, Debug, PartialEq, Eq, Structural)]
pub struct DragAction {
    pub from: DimPoint,
    pub to: DimPoint,
    pub duration_ms: u16,
    pub ease: Ease,
    pub anchor: Option<Entity>,
}

/// Animated cursor move without pressing.
#[derive(Clone, Copy, Debug, PartialEq, Eq, Structural)]
pub struct MoveAction {
    pub from: DimPoint,
    pub to: DimPoint,
    pub duration_ms: u16,
    pub ease: Ease,
    pub anchor: Option<Entity>,
}

/// Encoder rotation of `ticks` signed detents. With `ease_fn = None` the
/// detents come every `step_ms`; with a curve they are spread over
/// `step_ms * |ticks|` following it.
#[derive(Clone, Copy, Debug, PartialEq, Eq, Structural)]
pub struct RotateAction {
    pub ticks: i16,
    pub step_ms: u16,
    pub ease_fn: Option<Ease>,
}

#[derive(Clone, Copy, Debug, PartialEq, Eq, Structural)]
pub struct PinchAction {
    pub center: DimPoint,
    pub from_dist: Fixed,
    pub to_dist: Fixed,
    pub duration_ms: u16,
    pub ease: Ease,
    pub anchor: Option<Entity>,
}

#[derive(Clone, Copy, Debug, PartialEq, Eq, Structural)]
pub struct RotateGestureAction {
    pub center: DimPoint,
    pub radius: Fixed,
    pub from_angle: Fixed,
    pub to_angle: Fixed,
    pub duration_ms: u16,
    pub ease: Ease,
    pub anchor: Option<Entity>,
}

#[derive(Clone, Copy, Debug, PartialEq, Eq, Structural)]
pub enum SimAction {
    Tap(TapAction),
    Drag(DragAction),
    MoveTo(MoveAction),
    Rotate(RotateAction),
    Pinch(PinchAction),
    RotateGesture(RotateGestureAction),
    RotaryClick,
    Wait(u32),
}

/// Spec: `|t|` as an unsigned count.
pub open spec fn unsigned_abs16(t: i16) -> u16 {
    if t < 0 {
        (-(t as int)) as u16
    } else {
        t as u16
    }
}

pub fn unsigned_abs(t: i16) -> (r: u16)
    ensures
        r == unsigned_abs16(t),
{
    if t < 0 {
        ((-(t as i32)) as u32) as u16
    } else {
        t as u16
    }
}

/// Spec: the per-detent step of `rotate_smooth`: `total_ms / max(|ticks|, 1)`
/// rounded up, at least 1.
pub open spec fn smooth_step_spec(ticks: i16, total_ms: u16) -> u16 {
    let abs = if unsigned_abs16(ticks) >= 1 {
        unsigned_abs16(ticks)
    } else {
        1u16
    };
    let q = (total_ms as int + abs as int - 1) / (abs as int);
    if q >= 1 {
        q as u16
    } else {
        1u16
    }
}

impl SimAction {
    pub fn tap(point: DimPoint) -> (a: SimAction)
        ensures
            a == SimAction::Tap(TapAction { point, anchor: None }),
    {
        SimAction::Tap(TapAction { point, anchor: None })
    }

    pub fn drag(from: DimPoint, to: DimPoint, duration_ms: u16, ease: Ease) -> (a: SimAction)
        ensures
            a == SimAction::Drag(DragAction { from, to, duration_ms, ease, anchor: None }),
    {
        SimAction::Drag(DragAction { from, to, duration_ms, ease, anchor: None })
    }

    pub fn move_to(from: DimPoint, to: DimPoint, duration_ms: u16, ease: Ease) -> (a: SimAction)
        ensures
            a == SimAction::MoveTo(MoveAction { from, to, duration_ms, ease, anchor: None }),
    {
        SimAction::MoveTo(MoveAction { from, to, duration_ms, ease, anchor: None })
    }

    pub fn rotate(ticks: i16, step_ms: u16) -> (a: SimAction)
        ensures
            a == SimAction::Rotate(RotateAction { ticks, step_ms, ease_fn: None }),
    {
        SimAction::Rotate(RotateAction { ticks, step_ms, ease_fn: None })
    }

    /// Detents spread over `total_ms` (rounded up to a multiple of
    /// `|ticks|`) following `ease_fn`.
    pub fn rotate_smooth(ticks: i16, total_ms: u16, ease_fn: Ease) -> (a: SimAction)
        ensures
            a == SimAction::Rotate(
                RotateAction { ticks, step_ms: smooth_step_spec(ticks, total_ms), ease_fn: Some(ease_fn) },
            ),
    {
        let t = unsigned_abs(ticks);
        let abs: u16 = if t >= 1 {
            t
        } else {
            1
        };
        let q: u32 = (total_ms as u32 + abs as u32 - 1) / (abs as u32);
        let step_ms: u16 = if q >= 1 {
            q as u16
        } else {
            1
        };
        SimAction::Rotate(RotateAction { ticks, step_ms, ease_fn: Some(ease_fn) })
    }

    pub fn pinch(center: DimPoint, from_dist: Fixed, to_dist: Fixed, duration_ms: u16, ease: Ease) -> (a: SimAction)
        ensures
            a == SimAction::Pinch(
                PinchAction { center, from_dist, to_dist, duration_ms, ease, anchor: None },
            ),
    {
        SimAction::Pinch(PinchAction { center, from_dist, to_dist, duration_ms, ease, anchor: None })
    }

    pub fn rotate_gesture(
        center: DimPoint,
        radius: Fixed,
        from_angle: Fixed,
        to_angle: Fixed,
        duration_ms: u16,
        ease: Ease,
    ) -> (a: SimAction)
        ensures
            a == SimAction::RotateGesture(
                RotateGestureAction {
                    center,
                    radius,
                    from_angle,
                    to_angle,
                    duration_ms,
                    ease,
                    anchor: None,
                },
            ),
    {
        SimAction::RotateGesture(
            RotateGestureAction { center, radius, from_angle, to_angle, duration_ms, ease, anchor: None },
        )
    }

    pub fn rotary_click() -> (a: SimAction)
        ensures
            a == SimAction::RotaryClick,
    {
        SimAction::RotaryClick
    }

    pub fn wait(ms: u32) -> (a: SimAction)
        ensures
            a == SimAction::Wait(ms),
    {
        SimAction::Wait(ms)
    }

    /// Anchors the action's coordinates to `e`'s rectangle; actions
    /// without coordinates are returned unchanged.
    pub fn on(self, e: Entity) -> (a: SimAction)
        ensures
            a == match self {
                SimAction::Tap(t) => SimAction::Tap(TapAction { anchor: Some(e), ..t }),
                SimAction::Drag(d) => SimAction::Drag(DragAction { anchor: Some(e), ..d }),
                SimAction::MoveTo(m) => SimAction::MoveTo(MoveAction { anchor: Some(e), ..m }),
                SimAction::Pinch(p) => SimAction::Pinch(PinchAction { anchor: Some(e), ..p }),
                SimAction::RotateGesture(r) => SimAction::RotateGesture(
                    RotateGestureAction { anchor: Some(e), ..r },
                ),
                _ => self,
            },
    {
        match self {
            SimAction::Tap(t) => SimAction::Tap(TapAction { anchor: Some(e), ..t }),
            SimAction::Drag(d) => SimAction::Drag(DragAction { anchor: Some(e), ..d }),
            SimAction::MoveTo(m) => SimAction::MoveTo(MoveAction { anchor: Some(e), ..m }),
            SimAction::Pinch(p) => SimAction::Pinch(PinchAction { anchor: Some(e), ..p }),
            SimAction::RotateGesture(r) => SimAction::RotateGesture(
                RotateGestureAction { anchor: Some(e), ..r },
            ),
            _ => self,
        }
    }
}

/// Spec: the time budget of one action.
pub open spec fn action_duration(a: SimAction) -> nat {
    match a {
        SimAction::Tap(_) => 100,
        SimAction::Drag(d) => d.duration_ms as nat,
        SimAction::MoveTo(m) => m.duration_ms as nat,
        SimAction::Rotate(r) => (unsigned_abs16(r.ticks) as nat) * (r.step_ms as nat),
        SimAction::Pinch(p) => p.duration_ms as nat,
        SimAction::RotateGesture(r) => r.duration_ms as nat,
        SimAction::RotaryClick => 100,
        SimAction::Wait(ms) => ms as nat,
    }
}

/// Spec: the total time budget of the first `n` actions.
pub open spec fn durations_before(actions: Seq<SimAction>, n: int) -> nat
    decreases n,
{
    if n <= 0 {
        0
    } else {
        durations_before(actions, n - 1) + action_duration(actions[n - 1])
    }
}

#[derive(Clone, Copy, Debug, PartialEq, Eq, Structural)]
pub struct TimelineEntry {
    pub action: SimAction,
    pub start_ms: u32,
}

/// A sequence of high-level actions played one after the other.
pub struct SimTimeline {
    pub entries: Vec<TimelineEntry>,
    pub cursor: usize,
    pub action_elapsed_ms: u32,
    pub action_started: bool,
    pub drag_move_emitted: bool,
    pub rotate_emitted: u16,
    pub start_ms: Option<u32>,
    pub looping: bool,
    pub total_ms: u32,
}

proof fn lemma_rotate_duration_bound(a: SimAction)
    ensures
        a is Rotate ==> action_duration(a) <= 0x8000 * 0xffff,
{
    match a {
        SimAction::Rotate(r) => {
            let t = unsigned_abs16(r.ticks) as nat;
            let s = r.step_ms as nat;
            assert(t <= 0x8000);
            assert(t * s <= 0x8000 * 0xffff) by (nonlinear_arith)
                requires
                    t <= 0x8000,
                    s <= 0xffff,
            ;
        },
        _ => {},
    }
}

impl SimTimeline {
    /// Lays the actions out back to back; `total_ms` is the sum of their
    /// budgets.
    pub fn new(actions: Vec<SimAction>) -> (tl: SimTimeline)
        requires
            durations_before(actions@, actions@.len() as int) <= u32::MAX,
        ensures
            tl.entries@.len() == actions@.len(),
            forall|i: int|
                0 <= i < actions@.len() ==> tl.entries@[i] == (TimelineEntry {
                    action: actions@[i],
                    start_ms: durations_before(actions@, i) as u32,
                }),
            tl.total_ms == durations_before(actions@, actions@.len() as int),
            tl.cursor == 0,
            tl.action_elapsed_ms == 0,
            !tl.action_started,
            !tl.drag_move_emitted,
            tl.rotate_emitted == 0,
            tl.start_ms is None,
            !tl.looping,
    {
        let mut entries: Vec<TimelineEntry> = Vec::with_capacity(actions.len());
        let mut t: u32 = 0;
        let mut i: usize = 0;
        while i < actions.len()
            invariant
                i <= actions@.len(),
                entries@.len() == i,
                t == durations_before(actions@, i as int),
                durations_before(actions@, actions@.len() as int) <= u32::MAX,
                forall|j: int|
                    0 <= j < i ==> entries@[j] == (TimelineEntry {
                        action: actions@[j],
                        start_ms: durations_before(actions@, j) as u32,
                    }),
            decreases actions@.len() - i,
        {
            let action = actions[i];
            entries.push(TimelineEntry { action, start_ms: t });
            proof {
                lemma_durations_monotone(actions@, i as int + 1, actions@.len() as int);
                lemma_rotate_duration_bound(action);
            }
            let d: u32 = match action {
                SimAction::Tap(_) => 100,
                SimAction::Drag(d) => d.duration_ms as u32,
                SimAction::MoveTo(m) => m.duration_ms as u32,
                SimAction::Rotate(r) => {
                    let a = unsigned_abs(r.ticks) as u32;
                    let s = r.step_ms as u32;
                    assert(a * s == action_duration(action));
                    a * s
                },
                SimAction::Pinch(p) => p.duration_ms as u32,
                SimAction::RotateGesture(r) => r.duration_ms as u32,
                SimAction::RotaryClick => 100,
                SimAction::Wait(ms) => ms,
            };
            t = t + d;
            i = i + 1;
        }
        SimTimeline {
            entries,
            cursor: 0,
            action_elapsed_ms: 0,
            action_started: false,
            drag_move_emitted: false,
            rotate_emitted: 0,
            start_ms: None,
            looping: false,
            total_ms: t,
        }
    }

    pub fn looping(self, looping: bool) -> (tl: SimTimeline)
        ensures
            tl == (SimTimeline { looping, ..self }),
    {
        SimTimeline { looping, ..self }
    }

    /// Whether the timeline still has actions to play (always, when looping).
    pub fn is_running(&self) -> (r: bool)
        ensures
            r == (self.looping || self.cursor < self.entries@.len()),
    {
        self.looping || self.cursor < self.entries.len()
    }
}

proof fn lemma_durations_monotone(actions: Seq<SimAction>, i: int, j: int)
    requires
        0 <= i <= j,
    ensures
        durations_before(actions, i) <= durations_before(actions, j),
    decreases j - i,
{
    if i < j {
        lemma_durations_monotone(actions, i, j - 1);
    }
}


// ─── Clock and display ──────────────────────────────────────────────────

/// Spec: the current time in ms on the wrapping `u32` clock (0 without a clock).
pub open spec fn now_ms_spec(w: &World) -> u32 {
    match w.res.clock {
        Some(c) => clock_ms(c.now_ns),
        None => 0,
    }
}

pub fn now_ms(world: &World) -> (r: u32)
    ensures
        r == now_ms_spec(world),
{
    match world.res.clock {
        Some(c) => c.now_ms(),
        None => 0,
    }
}

/// Spec: the logical display size, 128 x 128 when unknown.
pub open spec fn display_size_spec(w: &World) -> (u16, u16) {
    match w.res.display {
        Some(d) => (d.width, d.height),
        None => (128, 128),
    }
}

fn display_size(world: &World) -> (r: (u16, u16))
    ensures
        r == display_size_spec(world),
{
    match world.res.display {
        Some(d) => (d.width, d.height),
        None => (128, 128),
    }
}

// ─── Scripted raw events ────────────────────────────────────────────────

/// Spec: the first command at or after `from` that is not yet due at
/// `elapsed` ms into the script (the script's length when all are due).
pub open spec fn first_not_due(s: SimulatedInput, from: int, elapsed: u32) -> int
    decreases s.commands@.len() - from,
{
    if from < 0 || from >= s.commands@.len() {
        from
    } else if from < s.resolved_ms@.len() && s.resolved_ms@[from] <= elapsed {
        first_not_due(s, from + 1, elapsed)
    } else {
        from
    }
}

/// Spec: the script's start time and elapsed time at `now`.
pub open spec fn script_start(s: SimulatedInput, now: u32) -> u32 {
    match s.start_ms {
        Some(t) => t,
        None => now,
    }
}

/// Spec: the events of the due commands from `from` on, in order.
pub open spec fn due_from(s: SimulatedInput, from: int, elapsed: u32) -> Seq<InputEvent>
    decreases s.commands@.len() - from,
{
    if from < 0 || from >= s.commands@.len() {
        Seq::empty()
    } else if from < s.resolved_ms@.len() && s.resolved_ms@[from] <= elapsed {
        seq![s.commands@[from].event] + due_from(s, from + 1, elapsed)
    } else {
        Seq::empty()
    }
}

/// Spec: the events a script fires at `now`, in order.
pub open spec fn fired_spec(s: SimulatedInput, now: u32) -> Seq<InputEvent> {
    due_from(s, s.cursor as int, wrap_sub_u32(now, script_start(s, now)))
}

/// Spec: the script after firing at `now`: the cursor moves past the due
/// commands, and a looping script that ran out starts over at `now`.
pub open spec fn script_after(s: SimulatedInput, now: u32) -> (usize, Option<u32>) {
    let start = script_start(s, now);
    let c = first_not_due(s, s.cursor as int, wrap_sub_u32(now, start));
    if c >= s.commands@.len() && s.looping {
        (0usize, Some(now))
    } else {
        (c as usize, Some(start))
    }
}

/// Spec: the recogniser fed `evs[..n]` at time `now`, each press with its
/// hit-test target, and the gestures it produced.
pub open spec fn feed_spec(
    rec: GestureRecognizer,
    evs: Seq<InputEvent>,
    hits: Seq<Option<Entity>>,
    now: u32,
    n: int,
) -> (GestureRecognizer, Seq<GestureEvent>)
    decreases n,
{
    if n <= 0 {
        (rec, Seq::empty())
    } else {
        let prev = feed_spec(rec, evs, hits, now, n - 1);
        let next = prev.0.update_spec(evs[n - 1], now, hits[n - 1]);
        (next.0, prev.1 + next.1)
    }
}

/// Spec: what one tick of the raw-event script does: `w2` is the world
/// after it and `out` the gestures it leaves for bubbling.
pub open spec fn sim_input_step_ok(w: &World, w2: &World, out: Seq<GestureEvent>) -> bool {
    match w.res.sim_input {
        None => w2.entities@ == w.entities@ && w2.res == w.res && out.len() == 0,
        Some(s) => if s.commands@.len() == 0 {
            w2.entities@ == w.entities@ && w2.res == w.res && out.len() == 0
        } else {
            let now = now_ms_spec(w);
            let after = script_after(s, now);
            let root = match s.root {
                Some(r) => Some(r),
                None => w.res.sim_root,
            };
            &&& w2.entities@ == w.entities@
            &&& w2.res.sim_input matches Some(s2) && s2.cursor == after.0 && s2.start_ms == after.1
                && s2.commands@ == s.commands@ && s2.resolved_ms@ == s.resolved_ms@ && s2.looping
                == s.looping && s2.root == s.root
            &&& match (root, w.res.gesture) {
                (Some(r), Some(gs)) => {
                    let fired = fired_spec(s, now);
                    let hits = fired.map_values(|e: InputEvent| pointer_hit(w, r, e));
                    let fed = feed_spec(gs.recognizer, fired, hits, now, fired.len() as int);
                    &&& w2.res == Resources { sim_input: w2.res.sim_input, gesture: w2.res.gesture, ..w.res }
                    &&& w2.res.gesture matches Some(g2) && g2.recognizer == fed.0 && g2.events.buffer@.len()
                        == 0
                    &&& out == gs.events.buffer@ + fed.1
                },
                _ => {
                    &&& w2.res == Resources { sim_input: w2.res.sim_input, ..w.res }
                    &&& out.len() == 0
                },
            }
        },
    }
}

/// Spec: the gestures one tick of the raw-event script hands back: those
/// already buffered, then those the fired commands are recognised as.
pub open spec fn sim_step_gestures(w: &World) -> Seq<GestureEvent> {
    match w.res.sim_input {
        None => Seq::empty(),
        Some(s) => if s.commands@.len() == 0 {
            Seq::empty()
        } else {
            let now = now_ms_spec(w);
            let root = match s.root {
                Some(r) => Some(r),
                None => w.res.sim_root,
            };
            match (root, w.res.gesture) {
                (Some(r), Some(gs)) => {
                    let fired = fired_spec(s, now);
                    let hits = fired.map_values(|e: InputEvent| pointer_hit(w, r, e));
                    gs.events.buffer@ + feed_spec(gs.recognizer, fired, hits, now, fired.len() as int).1
                },
                _ => Seq::empty(),
            }
        },
    }
}

/// Spec: the multi-tap tracker after observing the first `n` of `gs`.
pub open spec fn taps_after(t: Option<MultiTapTracker>, gs: Seq<GestureEvent>, n: int) -> Option<MultiTapTracker>
    decreases n,
{
    if n <= 0 {
        t
    } else {
        observe_spec(taps_after(t, gs, n - 1), gs[n - 1], 0)
    }
}

/// Spec: no gesture of `gs` finds a handler on the walk from its target.
pub open spec fn unhandled(w: &World, gs: Seq<GestureEvent>) -> bool {
    forall|i: int|
        0 <= i < gs.len() ==> !handler_on_path(w, gesture_target(#[trigger] gs[i]), (w.entities@.len() + 1) as nat)
}

/// One tick of the raw-event script: fires every command that is due,
/// feeding each to the gesture recogniser (presses with their hit-test
/// target), and hands back the recognised gestures.
pub fn sim_input_step(world: &mut World) -> (out: Vec<GestureEvent>)
    ensures
        sim_input_step_ok(old(world), final(world), out@),
        out@ == sim_step_gestures(old(world)),
{
    let now = now_ms(world);
    let (sw, sh) = display_size(world);
    let mut sim = match world.res.sim_input.take() {
        Some(s) => s,
        None => {
            return Vec::new();
        },
    };
    let ghost s0 = sim;
    if sim.commands.len() == 0 {
        world.res.sim_input = Some(sim);
        return Vec::new();
    }
    let start = match sim.start_ms {
        Some(t) => t,
        None => now,
    };
    sim.start_ms = Some(start);
    let elapsed = wrapping_sub_u32(now, start);
    let from = sim.cursor;
    let mut fired: Vec<InputEvent> = Vec::new();
    while sim.cursor < sim.commands.len() && sim.cursor < sim.resolved_ms.len()
        && sim.resolved_ms[sim.cursor] <= elapsed
        invariant
            from == s0.cursor,
            from <= sim.cursor <= s0.commands@.len() || (sim.cursor == from),
            sim.commands@ == s0.commands@,
            sim.resolved_ms@ == s0.resolved_ms@,
            sim.looping == s0.looping,
            sim.root == s0.root,
            sim.start_ms == Some(start),
            start == script_start(s0, now),
            elapsed == wrap_sub_u32(now, start),
            first_not_due(s0, from as int, elapsed) == first_not_due(s0, sim.cursor as int, elapsed),
            fired@ + due_from(s0, sim.cursor as int, elapsed) == due_from(s0, from as int, elapsed),
        decreases s0.commands@.len() - sim.cursor,
    {
        let ghost f0 = fired@;
        fired.push(sim.commands[sim.cursor].event);
        proof {
            let c = sim.cursor as int;
            assert(due_from(s0, c, elapsed) == seq![s0.commands@[c].event] + due_from(s0, c + 1, elapsed));
            assert(fired@ + due_from(s0, c + 1, elapsed) =~= f0 + due_from(s0, c, elapsed));
        }
        sim.cursor = sim.cursor + 1;
    }
    proof {
        assert(first_not_due(s0, sim.cursor as int, elapsed) == sim.cursor as int);
        assert(due_from(s0, sim.cursor as int, elapsed) =~= Seq::<InputEvent>::empty());
        assert(fired@ =~= fired_spec(s0, now));
    }
    if sim.cursor >= sim.commands.len() && sim.looping {
        sim.cursor = 0;
        sim.start_ms = Some(now);
    }
    let root_opt = match sim.root {
        Some(r) => Some(r),
        None => world.res.sim_root,
    };
    world.res.sim_input = Some(sim);
    let root = match root_opt {
        Some(r) => r,
        None => {
            return Vec::new();
        },
    };
    let ghost w1 = *world;
    let mut hits: Vec<Option<Entity>> = Vec::new();
    let mut i: usize = 0;
    while i < fired.len()
        invariant
            i <= fired@.len(),
            hits@.len() == i,
            world.entities@ == old(world).entities@,
            *world == w1,
            forall|j: int| 0 <= j < i ==> hits@[j] == pointer_hit(old(world), root, fired@[j]),
        decreases fired@.len() - i,
    {
        let h = match fired[i] {
            InputEvent::PointerDown { x, y, .. } => hit_test(world, root, x, y, sw, sh),
            _ => None,
        };
        proof {
            lemma_pointer_hit_entities(world, old(world), root, fired@[i as int]);
        }
        hits.push(h);
        i = i + 1;
    }
    assert(hits@ =~= fired@.map_values(|e: InputEvent| pointer_hit(old(world), root, e)));
    match world.res.gesture.take() {
        Some(gs) => {
            let mut gs = gs;
            let ghost g0 = gs;
            let mut k: usize = 0;
            while k < fired.len()
                invariant
                    k <= fired@.len(),
                    hits@.len() == fired@.len(),
                    (gs.recognizer, gs.events.buffer@ .subrange(g0.events.buffer@.len() as int, gs.events.buffer@.len() as int)) == feed_spec(
                        g0.recognizer,
                        fired@,
                        hits@,
                        now,
                        k as int,
                    ),
                    gs.events.buffer@.len() >= g0.events.buffer@.len(),
                    gs.events.buffer@.subrange(0, g0.events.buffer@.len() as int) == g0.events.buffer@,
                decreases fired@.len() - k,
            {
                let ghost before = gs.events.buffer@;
                gs.recognizer.update(&fired[k], now, hits[k], &mut gs.events);
                proof {
                    let n0 = g0.events.buffer@.len() as int;
                    let prev = feed_spec(g0.recognizer, fired@, hits@, now, k as int);
                    let next = prev.0.update_spec(fired@[k as int], now, hits@[k as int]);
                    assert(gs.events.buffer@ == before + next.1);
                    assert(gs.events.buffer@.subrange(n0, gs.events.buffer@.len() as int) =~= prev.1 + next.1);
                    assert(gs.events.buffer@.subrange(0, n0) =~= g0.events.buffer@);
                }
                k = k + 1;
            }
            proof {
                let n0 = g0.events.buffer@.len() as int;
                assert(gs.events.buffer@ =~= g0.events.buffer@ + gs.events.buffer@.subrange(
                    n0,
                    gs.events.buffer@.len() as int,
                ));
            }
            let out = gs.events.drain();
            world.res.gesture = Some(gs);
            out
        },
        None => Vec::new(),
    }
}

proof fn lemma_pointer_hit_entities(w: &World, w2: &World, root: Entity, e: InputEvent)
    requires
        w.entities@ == w2.entities@,
    ensures
        pointer_hit(w, root, e) == pointer_hit(w2, root, e),
{
    super::hit_test::lemma_hit_test_entities(w, w2, root, e);
}

/// Runs the raw-event script one tick and bubbles the gestures it
/// produced to their targets, in order. When none of those gestures finds
/// a handler, the world is the stepped script's with the multi-tap
/// tracker having observed each gesture in turn.
pub fn sim_input_system<C: Callbacks>(world: &mut World, callbacks: &mut C)
    ensures
        exists|w1: World|
            #[trigger] sim_input_step_ok(old(world), &w1, sim_step_gestures(old(world))) && bubbles_run(
                *old(callbacks),
                w1,
                sim_step_gestures(old(world)),
                *final(callbacks),
                *final(world),
            ),
        old(world).res.sim_input is None ==> (final(world).entities@ == old(world).entities@
            && final(world).res == old(world).res),
        unhandled(old(world), sim_step_gestures(old(world))) ==> ({
            let gs = sim_step_gestures(old(world));
            &&& final(world).entities@ == old(world).entities@
            &&& final(world).res.multi_tap == taps_after(old(world).res.multi_tap, gs, gs.len() as int)
            &&& sim_input_step_ok(
                old(world),
                &World {
                    entities: final(world).entities,
                    res: Resources { multi_tap: old(world).res.multi_tap, ..final(world).res },
                },
                gs,
            )
        }),
{
    let ghost w0 = *world;
    let ghost c0 = *callbacks;
    let pending = sim_input_step(world);
    let ghost w1 = *world;
    let mut i: usize = 0;
    assert(pending@.take(0) =~= Seq::<GestureEvent>::empty());
    while i < pending.len()
        invariant
            i <= pending@.len(),
            bubbles_run(c0, w1, pending@.take(i as int), *callbacks, *world),
            pending@ == sim_step_gestures(&w0),
            sim_input_step_ok(&w0, &w1, pending@),
            w0.res.sim_input is None ==> (pending@.len() == 0 && world.entities@ == w0.entities@ && world.res
                == w0.res),
            unhandled(&w0, pending@) ==> {
                &&& world.entities@ == w0.entities@
                &&& world.res == Resources { multi_tap: taps_after(w0.res.multi_tap, pending@, i as int), ..w1.res }
            },
        decreases pending@.len() - i,
    {
        let ghost wi = *world;
        proof {
            if unhandled(&w0, pending@) {
                assert(w1.res.views == w0.res.views);
                lemma_handler_on_path_congruent(
                    &w0,
                    &wi,
                    gesture_target(pending@[i as int]),
                    (w0.entities@.len() + 1) as nat,
                );
                assert(!handler_on_path(&w0, gesture_target(pending@[i as int]), (w0.entities@.len() + 1) as nat));
            }
        }
        let ghost ci = *callbacks;
        bubble_dispatch(world, callbacks, &pending[i]);
        proof {
            assert(pending@.take(i + 1) =~= pending@.take(i as int).push(pending@[i as int]));
            lemma_bubbles_push(c0, w1, pending@.take(i as int), ci, wi, pending@[i as int], *callbacks, *world);
        }
        i = i + 1;
    }
    proof {
        assert(pending@.take(pending@.len() as int) =~= pending@);
        if unhandled(&w0, pending@) {
            assert(w1.res.multi_tap == w0.res.multi_tap);
            assert((Resources { multi_tap: w0.res.multi_tap, ..world.res }) == w1.res);
        }
    }
}


// ─── Timeline playback ──────────────────────────────────────────────────

/// An action with its coordinates resolved to screen points.
#[derive(Clone, Copy, Debug, PartialEq, Eq, Structural)]
pub enum ResolvedAction {
    Tap(Point),
    Drag { from: Point, to: Point, duration_ms: u16, ease: Ease },
    MoveTo { from: Point, to: Point, duration_ms: u16, ease: Ease },
    Rotate { ticks: i16, step_ms: u16, ease_fn: Option<Ease> },
    Pinch { center: Point, from_dist: Fixed, to_dist: Fixed, duration_ms: u16, ease: Ease },
    RotateGesture {
        center: Point,
        radius: Fixed,
        from_angle: Fixed,
        to_angle: Fixed,
        duration_ms: u16,
        ease: Ease,
    },
    RotaryClick,
    Wait(u32),
}

/// Spec: the action with its points resolved; `None` while an anchor is
/// not laid out yet.
pub open spec fn resolve_action_spec(w: &World, a: SimAction) -> Option<ResolvedAction> {
    match a {
        SimAction::Tap(t) => match resolve_dim_point_spec(w, t.point, t.anchor) {
            Some(p) => Some(ResolvedAction::Tap(p)),
            None => None,
        },
        SimAction::Drag(d) => match (
            resolve_dim_point_spec(w, d.from, d.anchor),
            resolve_dim_point_spec(w, d.to, d.anchor),
        ) {
            (Some(f), Some(t)) => Some(
                ResolvedAction::Drag { from: f, to: t, duration_ms: d.duration_ms, ease: d.ease },
            ),
            _ => None,
        },
        SimAction::MoveTo(m) => match (
            resolve_dim_point_spec(w, m.from, m.anchor),
            resolve_dim_point_spec(w, m.to, m.anchor),
        ) {
            (Some(f), Some(t)) => Some(
                ResolvedAction::MoveTo { from: f, to: t, duration_ms: m.duration_ms, ease: m.ease },
            ),
            _ => None,
        },
        SimAction::Rotate(r) => Some(
            ResolvedAction::Rotate { ticks: r.ticks, step_ms: r.step_ms, ease_fn: r.ease_fn },
        ),
        SimAction::Pinch(p) => match resolve_dim_point_spec(w, p.center, p.anchor) {
            Some(c0) => {
                let c = anchored_center_spec(w, p.anchor, c0);
                Some(
                    ResolvedAction::Pinch {
                        center: c,
                        from_dist: anchored_pinch_dist_spec(w, p.anchor, c, p.from_dist),
                        to_dist: anchored_pinch_dist_spec(w, p.anchor, c, p.to_dist),
                        duration_ms: p.duration_ms,
                        ease: p.ease,
                    },
                )
            },
            None => None,
        },
        SimAction::RotateGesture(r) => match resolve_dim_point_spec(w, r.center, r.anchor) {
            Some(c0) => {
                let c = anchored_center_spec(w, r.anchor, c0);
                Some(
                    ResolvedAction::RotateGesture {
                        center: c,
                        radius: anchored_rotate_radius_spec(w, r.anchor, c, r.radius),
                        from_angle: r.from_angle,
                        to_angle: r.to_angle,
                        duration_ms: r.duration_ms,
                        ease: r.ease,
                    },
                )
            },
            None => None,
        },
        SimAction::RotaryClick => Some(ResolvedAction::RotaryClick),
        SimAction::Wait(ms) => Some(ResolvedAction::Wait(ms)),
    }
}

pub fn resolve_action(world: &World, a: SimAction) -> (r: Option<ResolvedAction>)
    ensures
        r == resolve_action_spec(world, a),
{
    match a {
        SimAction::Tap(t) => match resolve_dim_point(world, t.point, t.anchor) {
            Some(p) => Some(ResolvedAction::Tap(p)),
            None => None,
        },
        SimAction::Drag(d) => {
            let f = resolve_dim_point(world, d.from, d.anchor);
            let t = resolve_dim_point(world, d.to, d.anchor);
            match (f, t) {
                (Some(f), Some(t)) => Some(
                    ResolvedAction::Drag { from: f, to: t, duration_ms: d.duration_ms, ease: d.ease },
                ),
                _ => None,
            }
        },
        SimAction::MoveTo(m) => {
            let f = resolve_dim_point(world, m.from, m.anchor);
            let t = resolve_dim_point(world, m.to, m.anchor);
            match (f, t) {
                (Some(f), Some(t)) => Some(
                    ResolvedAction::MoveTo { from: f, to: t, duration_ms: m.duration_ms, ease: m.ease },
                ),
                _ => None,
            }
        },
        SimAction::Rotate(r) => Some(
            ResolvedAction::Rotate { ticks: r.ticks, step_ms: r.step_ms, ease_fn: r.ease_fn },
        ),
        SimAction::Pinch(p) => match resolve_dim_point(world, p.center, p.anchor) {
            Some(c0) => {
                let c = anchored_center(world, p.anchor, c0);
                Some(
                    ResolvedAction::Pinch {
                        center: c,
                        from_dist: anchored_pinch_dist(world, p.anchor, c, p.from_dist),
                        to_dist: anchored_pinch_dist(world, p.anchor, c, p.to_dist),
                        duration_ms: p.duration_ms,
                        ease: p.ease,
                    },
                )
            },
            None => None,
        },
        SimAction::RotateGesture(r) => match resolve_dim_point(world, r.center, r.anchor) {
            Some(c0) => {
                let c = anchored_center(world, r.anchor, c0);
                Some(
                    ResolvedAction::RotateGesture {
                        center: c,
                        radius: anchored_rotate_radius(world, r.anchor, c, r.radius),
                        from_angle: r.from_angle,
                        to_angle: r.to_angle,
                        duration_ms: r.duration_ms,
                        ease: r.ease,
                    },
                )
            },
            None => None,
        },
        SimAction::RotaryClick => Some(ResolvedAction::RotaryClick),
        SimAction::Wait(ms) => Some(ResolvedAction::Wait(ms)),
    }
}

/// Playback position inside the current action.
#[derive(Clone, Copy, Debug, PartialEq, Eq, Structural)]
pub struct TimelineProgress {
    pub cursor: usize,
    pub action_elapsed_ms: u32,
    pub action_started: bool,
    pub drag_move_emitted: bool,
    pub rotate_emitted: u16,
}

/// Spec: the progress after starting the current action.
pub open spec fn started(p: TimelineProgress) -> TimelineProgress {
    TimelineProgress { action_started: true, action_elapsed_ms: 0, ..p }
}

/// Spec: the progress after finishing the current action.
pub open spec fn advanced(p: TimelineProgress) -> TimelineProgress {
    TimelineProgress {
        cursor: (p.cursor + 1) as usize,
        action_started: false,
        drag_move_emitted: false,
        rotate_emitted: 0,
        ..p
    }
}

pub open spec fn down_at(id: u8, p: Point) -> InputEvent {
    InputEvent::PointerDown { id, x: p.x, y: p.y }
}

pub open spec fn move_at(id: u8, p: Point) -> InputEvent {
    InputEvent::PointerMove { id, x: p.x, y: p.y }
}

pub open spec fn up_at(id: u8, p: Point) -> InputEvent {
    InputEvent::PointerUp { id, x: p.x, y: p.y }
}

/// Spec: progress `elapsed / duration` in Q24.8 (for `elapsed < duration`).
pub open spec fn progress_t(elapsed: u32, duration: u16) -> i32 {
    wrap32((elapsed as int * 256) / (duration as int))
}

/// Spec: `a + e * (b - a)`.
pub open spec fn lerp(a: Fixed, b: Fixed, e: i32) -> Fixed {
    Fixed { raw: wrap32(a.raw + mul_raw(e, wrap32(b.raw - a.raw))) }
}

pub open spec fn lerp_point(a: Point, b: Point, e: i32) -> Point {
    Point { x: lerp(a.x, b.x, e), y: lerp(a.y, b.y, e) }
}

/// Spec: the two fingers of a pinch `d` apart, level about `c`.
pub open spec fn pinch_fingers(c: Point, d: Fixed) -> (Point, Point) {
    let half = div_raw(d.raw, 512);
    (
        Point { x: Fixed { raw: wrap32(c.x.raw - half) }, y: c.y },
        Point { x: Fixed { raw: wrap32(c.x.raw + half) }, y: c.y },
    )
}

/// Spec: the two fingers of a rotation at `angle`, `radius` from `c`.
pub open spec fn rotate_fingers(c: Point, radius: Fixed, angle: Fixed) -> (Point, Point) {
    let dx = mul_raw(radius.raw, sin_spec(norm_angle(angle.raw as int + 402)) as i32);
    let dy = mul_raw(radius.raw, sin_spec(norm_angle(angle.raw as int)) as i32);
    (
        Point { x: Fixed { raw: wrap32(c.x.raw - dx) }, y: Fixed { raw: wrap32(c.y.raw - dy) } },
        Point { x: Fixed { raw: wrap32(c.x.raw + dx) }, y: Fixed { raw: wrap32(c.y.raw + dy) } },
    )
}

pub open spec fn min_u16(a: u16, b: u16) -> u16 {
    if a <= b {
        a
    } else {
        b
    }
}

/// Spec: an eased rotation can divide by its total time: the total, as a
/// fixed-point number, is not zero (it wraps to zero for multiples of
/// 2^24 ms).
pub open spec fn rotate_divisible(ticks: i16, step_ms: u16, ease_fn: Option<Ease>) -> bool {
    let total = unsigned_abs16(ticks);
    let step: u32 = if step_ms >= 1 {
        step_ms as u32
    } else {
        1u32
    };
    ease_fn is Some ==> (total == 0 || wrap32(step * total * 256) != 0)
}

/// Spec: how many detents of a rotation should have fired `elapsed` ms in.
pub open spec fn rotate_target(ticks: i16, step_ms: u16, ease_fn: Option<Ease>, elapsed: u32) -> u16 {
    let total = unsigned_abs16(ticks);
    let step: u32 = if step_ms >= 1 {
        step_ms as u32
    } else {
        1u32
    };
    let total_ms = step * total;
    match ease_fn {
        Some(e) => {
            let m = if elapsed <= total_ms {
                elapsed as int
            } else {
                total_ms as int
            };
            let t = if total_ms == 0 {
                256i32
            } else {
                div_raw(wrap32(m * 256), wrap32(total_ms * 256))
            };
            let pr = clamp_i32(ease_spec(e, t), 0, 256);
            let det = mul_raw(pr, wrap32(total * 256));
            min_u16(((det as int) / 256) as u16, total)
        },
        None => min_u16((elapsed / step) as u16, total),
    }
}

/// Spec: the raw events the current action emits this tick, and the
/// progress afterwards.
pub open spec fn plan_spec(a: ResolvedAction, p: TimelineProgress, el: u32) -> (Seq<InputEvent>, TimelineProgress) {
    match a {
        ResolvedAction::Tap(pt) => if !p.action_started {
            (seq![down_at(0, pt)], started(p))
        } else if el >= 50 {
            (seq![up_at(0, pt)], advanced(p))
        } else {
            (Seq::empty(), p)
        },
        ResolvedAction::Drag { from, to, duration_ms, ease } => if !p.action_started {
            (seq![down_at(0, from)], TimelineProgress { drag_move_emitted: false, ..started(p) })
        } else if el >= duration_ms && p.drag_move_emitted {
            (seq![up_at(0, to)], advanced(p))
        } else {
            let t = if el >= duration_ms {
                256i32
            } else {
                progress_t(el, duration_ms)
            };
            (
                seq![move_at(0, lerp_point(from, to, ease_spec(ease, t)))],
                TimelineProgress { drag_move_emitted: true, ..p },
            )
        },
        ResolvedAction::MoveTo { from, to, duration_ms, ease } => if !p.action_started {
            (seq![move_at(0, from)], started(p))
        } else if el >= duration_ms {
            (seq![move_at(0, to)], advanced(p))
        } else {
            (seq![move_at(0, lerp_point(from, to, ease_spec(ease, progress_t(el, duration_ms))))], p)
        },
        ResolvedAction::Pinch { center, from_dist, to_dist, duration_ms, ease } => if !p.action_started {
            let f = pinch_fingers(center, from_dist);
            (seq![down_at(1, f.0), down_at(2, f.1)], started(p))
        } else if el >= duration_ms {
            let f = pinch_fingers(center, to_dist);
            (seq![up_at(1, f.0), up_at(2, f.1)], advanced(p))
        } else {
            let d = lerp(from_dist, to_dist, ease_spec(ease, progress_t(el, duration_ms)));
            let f = pinch_fingers(center, d);
            (seq![move_at(1, f.0), move_at(2, f.1)], p)
        },
        ResolvedAction::RotateGesture {
            center,
            radius,
            from_angle,
            to_angle,
            duration_ms,
            ease,
        } => if !p.action_started {
            let f = rotate_fingers(center, radius, from_angle);
            (seq![down_at(1, f.0), down_at(2, f.1)], started(p))
        } else if el >= duration_ms {
            let f = rotate_fingers(center, radius, to_angle);
            (seq![up_at(1, f.0), up_at(2, f.1)], advanced(p))
        } else {
            let ang = lerp(from_angle, to_angle, ease_spec(ease, progress_t(el, duration_ms)));
            let f = rotate_fingers(center, radius, ang);
            (seq![move_at(1, f.0), move_at(2, f.1)], p)
        },
        ResolvedAction::Rotate { ticks, step_ms, ease_fn } => {
            let total = unsigned_abs16(ticks);
            if total == 0 {
                (Seq::empty(), advanced(p))
            } else {
                let target = rotate_target(ticks, step_ms, ease_fn, el);
                let sign: i16 = if ticks >= 0 {
                    1
                } else {
                    -1i16
                };
                let n: int = if target > p.rotate_emitted {
                    target - p.rotate_emitted
                } else {
                    0
                };
                let evs = Seq::new(n as nat, |i: int| InputEvent::Rotary { id: 0, delta: sign });
                let p2 = TimelineProgress { action_started: true, rotate_emitted: target, ..p };
                if target >= total {
                    (
                        evs,
                        TimelineProgress {
                            cursor: (p.cursor + 1) as usize,
                            action_started: false,
                            rotate_emitted: 0,
                            ..p2
                        },
                    )
                } else {
                    (evs, p2)
                }
            }
        },
        ResolvedAction::RotaryClick => if !p.action_started {
            (seq![InputEvent::Key { code: KEY_ROTARY_PRESS, pressed: true }], started(p))
        } else if el >= 50 {
            (seq![InputEvent::Key { code: KEY_ROTARY_PRESS, pressed: false }], advanced(p))
        } else {
            (Seq::empty(), p)
        },
        ResolvedAction::Wait(ms) => if el >= ms {
            (Seq::empty(), advanced(p))
        } else {
            (Seq::empty(), p)
        },
    }
}

fn interp_t(el: u32, duration_ms: u16) -> (t: Fixed)
    requires
        el < duration_ms,
    ensures
        t.raw == progress_t(el, duration_ms),
{
    let num: i32 = (el as i32) * 256;
    Fixed::from_raw(num / (duration_ms as i32))
}

fn lerp_fixed(a: Fixed, b: Fixed, e: Fixed) -> (r: Fixed)
    ensures
        r == lerp(a, b, e.raw),
{
    a.add(e.mul(b.sub(a)))
}

fn lerp_pt(a: Point, b: Point, e: Fixed) -> (r: Point)
    ensures
        r == lerp_point(a, b, e.raw),
{
    Point { x: lerp_fixed(a.x, b.x, e), y: lerp_fixed(a.y, b.y, e) }
}

fn pinch_pair(c: Point, d: Fixed) -> (r: (Point, Point))
    ensures
        r == pinch_fingers(c, d),
{
    let half = d.div(Fixed::from_int(2));
    (Point { x: c.x.sub(half), y: c.y }, Point { x: c.x.add(half), y: c.y })
}

fn rotate_pair(c: Point, radius: Fixed, angle: Fixed) -> (r: (Point, Point))
    ensures
        r == rotate_fingers(c, radius, angle),
{
    let dx = radius.mul(Fixed::cos_rad(angle));
    let dy = radius.mul(Fixed::sin_rad(angle));
    (
        Point { x: c.x.sub(dx), y: c.y.sub(dy) },
        Point { x: c.x.add(dx), y: c.y.add(dy) },
    )
}

fn rotate_target_exec(ticks: i16, step_ms: u16, ease_fn: Option<Ease>, el: u32) -> (r: u16)
    requires
        rotate_divisible(ticks, step_ms, ease_fn),
    ensures
        r == rotate_target(ticks, step_ms, ease_fn, el),
{
    let total = unsigned_abs(ticks);
    let step: u32 = if step_ms >= 1 {
        step_ms as u32
    } else {
        1
    };
    assert(step * total <= 0xffff * 0x8000) by (nonlinear_arith)
        requires
            step <= 0xffff,
            total <= 0x8000,
    ;
    let total_ms: u32 = step * (total as u32);
    match ease_fn {
        Some(e) => {
            let m: u32 = if el <= total_ms {
                el
            } else {
                total_ms
            };
            let t = if total_ms == 0 {
                Fixed::one()
            } else {
                Fixed::from_int(m as i32).div(Fixed::from_int(total_ms as i32))
            };
            let pr = e.apply(t).clamp(Fixed::zero(), Fixed::one());
            let det = pr.mul(Fixed::from_int(total as i32));
            let k = det.to_int() as u16;
            if k <= total {
                k
            } else {
                total
            }
        },
        None => {
            let k = (el / step) as u16;
            if k <= total {
                k
            } else {
                total
            }
        },
    }
}

/// The raw events the current action emits this tick (given its resolved
/// points, the progress and the time since it started) and the progress
/// afterwards.
pub fn plan_action(a: ResolvedAction, p: TimelineProgress, el: u32) -> (r: (Vec<InputEvent>, TimelineProgress))
    requires
        p.cursor < usize::MAX,
        a matches ResolvedAction::Rotate { ticks, step_ms, ease_fn } ==> rotate_divisible(ticks, step_ms, ease_fn),
    ensures
        r.0@ == plan_spec(a, p, el).0,
        r.1 == plan_spec(a, p, el).1,
{
    let adv = TimelineProgress {
        cursor: p.cursor + 1,
        action_started: false,
        drag_move_emitted: false,
        rotate_emitted: 0,
        ..p
    };
    let st = TimelineProgress { action_started: true, action_elapsed_ms: 0, ..p };
    let mut evs: Vec<InputEvent> = Vec::new();
    match a {
        ResolvedAction::Tap(pt) => {
            if !p.action_started {
                evs.push(InputEvent::PointerDown { id: 0, x: pt.x, y: pt.y });
                (evs, st)
            } else if el >= 50 {
                evs.push(InputEvent::PointerUp { id: 0, x: pt.x, y: pt.y });
                (evs, adv)
            } else {
                (evs, p)
            }
        },
        ResolvedAction::Drag { from, to, duration_ms, ease } => {
            if !p.action_started {
                evs.push(InputEvent::PointerDown { id: 0, x: from.x, y: from.y });
                (evs, TimelineProgress { drag_move_emitted: false, ..st })
            } else if el >= duration_ms as u32 && p.drag_move_emitted {
                evs.push(InputEvent::PointerUp { id: 0, x: to.x, y: to.y });
                (evs, adv)
            } else {
                let t = if el >= duration_ms as u32 {
                    Fixed::one()
                } else {
                    interp_t(el, duration_ms)
                };
                let q = lerp_pt(from, to, ease.apply(t));
                evs.push(InputEvent::PointerMove { id: 0, x: q.x, y: q.y });
                (evs, TimelineProgress { drag_move_emitted: true, ..p })
            }
        },
        ResolvedAction::MoveTo { from, to, duration_ms, ease } => {
            if !p.action_started {
                evs.push(InputEvent::PointerMove { id: 0, x: from.x, y: from.y });
                (evs, st)
            } else if el >= duration_ms as u32 {
                evs.push(InputEvent::PointerMove { id: 0, x: to.x, y: to.y });
                (evs, adv)
            } else {
                let q = lerp_pt(from, to, ease.apply(interp_t(el, duration_ms)));
                evs.push(InputEvent::PointerMove { id: 0, x: q.x, y: q.y });
                (evs, p)
            }
        },
        ResolvedAction::Pinch { center, from_dist, to_dist, duration_ms, ease } => {
            if !p.action_started {
                let (fa, fb) = pinch_pair(center, from_dist);
                evs.push(InputEvent::PointerDown { id: 1, x: fa.x, y: fa.y });
                evs.push(InputEvent::PointerDown { id: 2, x: fb.x, y: fb.y });
                (evs, st)
            } else if el >= duration_ms as u32 {
                let (fa, fb) = pinch_pair(center, to_dist);
                evs.push(InputEvent::PointerUp { id: 1, x: fa.x, y: fa.y });
                evs.push(InputEvent::PointerUp { id: 2, x: fb.x, y: fb.y });
                (evs, adv)
            } else {
                let d = lerp_fixed(from_dist, to_dist, ease.apply(interp_t(el, duration_ms)));
                let (fa, fb) = pinch_pair(center, d);
                evs.push(InputEvent::PointerMove { id: 1, x: fa.x, y: fa.y });
                evs.push(InputEvent::PointerMove { id: 2, x: fb.x, y: fb.y });
                (evs, p)
            }
        },
        ResolvedAction::RotateGesture { center, radius, from_angle, to_angle, duration_ms, ease } => {
            if !p.action_started {
                let (fa, fb) = rotate_pair(center, radius, from_angle);
                evs.push(InputEvent::PointerDown { id: 1, x: fa.x, y: fa.y });
                evs.push(InputEvent::PointerDown { id: 2, x: fb.x, y: fb.y });
                (evs, st)
            } else if el >= duration_ms as u32 {
                let (fa, fb) = rotate_pair(center, radius, to_angle);
                evs.push(InputEvent::PointerUp { id: 1, x: fa.x, y: fa.y });
                evs.push(InputEvent::PointerUp { id: 2, x: fb.x, y: fb.y });
                (evs, adv)
            } else {
                let ang = lerp_fixed(from_angle, to_angle, ease.apply(interp_t(el, duration_ms)));
                let (fa, fb) = rotate_pair(center, radius, ang);
                evs.push(InputEvent::PointerMove { id: 1, x: fa.x, y: fa.y });
                evs.push(InputEvent::PointerMove { id: 2, x: fb.x, y: fb.y });
                (evs, p)
            }
        },
        ResolvedAction::Rotate { ticks, step_ms, ease_fn } => {
            let total = unsigned_abs(ticks);
            if total == 0 {
                (evs, adv)
            } else {
                let target = rotate_target_exec(ticks, step_ms, ease_fn, el);
                let sign: i16 = if ticks >= 0 {
                    1
                } else {
                    -1
                };
                let mut k: u16 = p.rotate_emitted;
                let ghost n: int = if target > p.rotate_emitted {
                    target - p.rotate_emitted
                } else {
                    0
                };
                while k < target
                    invariant
                        p.rotate_emitted <= k || evs@.len() == 0,
                        k < target ==> evs@.len() == k - p.rotate_emitted,
                        k >= target ==> evs@.len() == n,
                        p.rotate_emitted <= k ==> evs@.len() == k - p.rotate_emitted,
                        forall|i: int| 0 <= i < evs@.len() ==> evs@[i] == (InputEvent::Rotary { id: 0, delta: sign }),
                        n == (if target > p.rotate_emitted {
                            target - p.rotate_emitted
                        } else {
                            0
                        }),
                        k <= target || k == p.rotate_emitted,
                    decreases target - k,
                {
                    evs.push(InputEvent::Rotary { id: 0, delta: sign });
                    k = k + 1;
                }
                assert(evs@ =~= Seq::new(n as nat, |i: int| InputEvent::Rotary { id: 0, delta: sign }));
                let p2 = TimelineProgress { action_started: true, rotate_emitted: target, ..p };
                if target >= total {
                    (evs, TimelineProgress { cursor: p.cursor + 1, action_started: false, rotate_emitted: 0, ..p2 })
                } else {
                    (evs, p2)
                }
            }
        },
        ResolvedAction::RotaryClick => {
            if !p.action_started {
                evs.push(InputEvent::Key { code: KEY_ROTARY_PRESS, pressed: true });
                (evs, st)
            } else if el >= 50 {
                evs.push(InputEvent::Key { code: KEY_ROTARY_PRESS, pressed: false });
                (evs, adv)
            } else {
                (evs, p)
            }
        },
        ResolvedAction::Wait(ms) => {
            if el >= ms {
                (evs, adv)
            } else {
                (evs, p)
            }
        },
    }
}


/// How one timeline tick updates the playback progress. A starting action
/// records its start before its events go out; every other update is
/// made once they have run, on the timeline as it then stands.
#[derive(Clone, Copy, Debug, PartialEq, Eq, Structural)]
pub enum ProgressWrite {
    /// Nothing changes.
    Keep,
    /// The current action starts (a drag also forgets its first move).
    Start { reset_drag: bool },
    /// A drag's first move went out.
    DragMoved,
    /// Rotation detents went out, up to `emitted` in all.
    Rotated { emitted: u16 },
    /// A rotation emitted its last detent: the next action is current.
    RotateDone,
    /// The action is done: the next action is current, from scratch.
    Advance,
}

/// Spec: the cursor moved on to the next action.
pub open spec fn next_cursor(c: usize) -> usize {
    if c == usize::MAX {
        0
    } else {
        (c + 1) as usize
    }
}

/// Spec: progress `p` with `wr` applied.
pub open spec fn apply_write(p: TimelineProgress, wr: ProgressWrite) -> TimelineProgress {
    match wr {
        ProgressWrite::Keep => p,
        ProgressWrite::Start { reset_drag } => TimelineProgress {
            drag_move_emitted: if reset_drag {
                false
            } else {
                p.drag_move_emitted
            },
            ..started(p)
        },
        ProgressWrite::DragMoved => TimelineProgress { drag_move_emitted: true, ..p },
        ProgressWrite::Rotated { emitted } => TimelineProgress { action_started: true, rotate_emitted: emitted, ..p },
        ProgressWrite::RotateDone => TimelineProgress {
            cursor: next_cursor(p.cursor),
            action_started: false,
            rotate_emitted: 0,
            ..p
        },
        ProgressWrite::Advance => TimelineProgress {
            cursor: next_cursor(p.cursor),
            action_started: false,
            drag_move_emitted: false,
            rotate_emitted: 0,
            ..p
        },
    }
}

/// Spec: the progress update a tick of action `a` makes, from progress
/// `p` at `el` ms into the action (the branches of [`plan_spec`]).
pub open spec fn write_spec(a: ResolvedAction, p: TimelineProgress, el: u32) -> ProgressWrite {
    match a {
        ResolvedAction::Tap(_) | ResolvedAction::RotaryClick => if !p.action_started {
            ProgressWrite::Start { reset_drag: false }
        } else if el >= 50 {
            ProgressWrite::Advance
        } else {
            ProgressWrite::Keep
        },
        ResolvedAction::Drag { duration_ms, .. } => if !p.action_started {
            ProgressWrite::Start { reset_drag: true }
        } else if el >= duration_ms && p.drag_move_emitted {
            ProgressWrite::Advance
        } else {
            ProgressWrite::DragMoved
        },
        ResolvedAction::MoveTo { duration_ms, .. } | ResolvedAction::Pinch { duration_ms, .. }
        | ResolvedAction::RotateGesture { duration_ms, .. } => if !p.action_started {
            ProgressWrite::Start { reset_drag: false }
        } else if el >= duration_ms {
            ProgressWrite::Advance
        } else {
            ProgressWrite::Keep
        },
        ResolvedAction::Rotate { ticks, step_ms, ease_fn } => {
            let total = unsigned_abs16(ticks);
            if total == 0 {
                ProgressWrite::Advance
            } else if rotate_target(ticks, step_ms, ease_fn, el) >= total {
                ProgressWrite::RotateDone
            } else {
                ProgressWrite::Rotated { emitted: rotate_target(ticks, step_ms, ease_fn, el) }
            }
        },
        ResolvedAction::Wait(ms) => if el >= ms {
            ProgressWrite::Advance
        } else {
            ProgressWrite::Keep
        },
    }
}

/// Applied to the progress it was planned from, a tick's update gives
/// the planned progress.
pub proof fn lemma_write_matches_plan(a: ResolvedAction, p: TimelineProgress, el: u32)
    requires
        p.cursor < usize::MAX,
    ensures
        apply_write(p, write_spec(a, p, el)) == plan_spec(a, p, el).1,
{
}

/// The progress update for a tick of action `a`.
pub fn plan_write(a: ResolvedAction, p: TimelineProgress, el: u32) -> (wr: ProgressWrite)
    requires
        a matches ResolvedAction::Rotate { ticks, step_ms, ease_fn } ==> rotate_divisible(ticks, step_ms, ease_fn),
    ensures
        wr == write_spec(a, p, el),
{
    match a {
        ResolvedAction::Tap(_) | ResolvedAction::RotaryClick => if !p.action_started {
            ProgressWrite::Start { reset_drag: false }
        } else if el >= 50 {
            ProgressWrite::Advance
        } else {
            ProgressWrite::Keep
        },
        ResolvedAction::Drag { duration_ms, .. } => if !p.action_started {
            ProgressWrite::Start { reset_drag: true }
        } else if el >= duration_ms as u32 && p.drag_move_emitted {
            ProgressWrite::Advance
        } else {
            ProgressWrite::DragMoved
        },
        ResolvedAction::MoveTo { duration_ms, .. } | ResolvedAction::Pinch { duration_ms, .. }
        | ResolvedAction::RotateGesture { duration_ms, .. } => if !p.action_started {
            ProgressWrite::Start { reset_drag: false }
        } else if el >= duration_ms as u32 {
            ProgressWrite::Advance
        } else {
            ProgressWrite::Keep
        },
        ResolvedAction::Rotate { ticks, step_ms, ease_fn } => {
            let total = unsigned_abs(ticks);
            if total == 0 {
                ProgressWrite::Advance
            } else {
                let target = rotate_target_exec(ticks, step_ms, ease_fn, el);
                if target >= total {
                    ProgressWrite::RotateDone
                } else {
                    ProgressWrite::Rotated { emitted: target }
                }
            }
        },
        ResolvedAction::Wait(ms) => if el >= ms {
            ProgressWrite::Advance
        } else {
            ProgressWrite::Keep
        },
    }
}

/// The raw events one timeline tick dispatches, where they go, the
/// playback progress the tick leads to, and the update that records it.
pub struct TimelineStep {
    pub root: Entity,
    pub now_ms: u32,
    pub lw: u16,
    pub lh: u16,
    pub events: Vec<InputEvent>,
    pub progress: TimelineProgress,
    pub write: ProgressWrite,
}

pub open spec fn progress_of(tl: SimTimeline) -> TimelineProgress {
    TimelineProgress {
        cursor: tl.cursor,
        action_elapsed_ms: tl.action_elapsed_ms,
        action_started: tl.action_started,
        drag_move_emitted: tl.drag_move_emitted,
        rotate_emitted: tl.rotate_emitted,
    }
}

/// Spec: the entity timeline input is hit-tested against.
pub open spec fn sim_root_spec(w: &World) -> Entity {
    match w.res.sim_root {
        Some(r) => r,
        None => Entity { id: 0, generation: 0 },
    }
}

/// Spec: what planning one timeline tick does. The timeline's clock
/// starts on its first tick; a finished timeline plans nothing (a looping
/// one rewinds and restarts its clock); an action whose start time has
/// not come, or whose anchor is not laid out, plans nothing; otherwise the
/// action is planned with the time since it started.
pub open spec fn sim_timeline_plan_ok(w: &World, w2: &World, r: Option<TimelineStep>) -> bool {
    &&& w2.entities@ == w.entities@
    &&& match w.res.sim_timeline {
        None => w2.res == w.res && r is None,
        Some(tl) => if tl.entries@.len() == 0 {
            w2.res == w.res && r is None
        } else {
            let now = now_ms_spec(w);
            let start = match tl.start_ms {
                Some(t) => t,
                None => now,
            };
            let elapsed = wrap_sub_u32(now, start);
            &&& w2.res == Resources { sim_timeline: w2.res.sim_timeline, ..w.res }
            &&& w2.res.sim_timeline matches Some(tl2) && tl2.entries@ == tl.entries@ && tl2.looping
                == tl.looping && tl2.total_ms == tl.total_ms && if tl.cursor >= tl.entries@.len() {
                &&& r is None
                &&& tl.looping ==> progress_of(tl2) == (TimelineProgress {
                    cursor: 0,
                    action_started: false,
                    drag_move_emitted: false,
                    rotate_emitted: 0,
                    ..progress_of(tl)
                }) && tl2.start_ms == Some(now)
                &&& !tl.looping ==> progress_of(tl2) == progress_of(tl) && tl2.start_ms == Some(start)
            } else {
                let entry = tl.entries@[tl.cursor as int];
                &&& progress_of(tl2) == progress_of(tl)
                &&& tl2.start_ms == Some(start)
                &&& if elapsed < entry.start_ms {
                    r is None
                } else {
                    match resolve_action_spec(w, entry.action) {
                        None => r is None,
                        Some(a) => {
                            let plan = plan_spec(a, progress_of(tl), (elapsed - entry.start_ms) as u32);
                            r matches Some(step) && step.events@ == plan.0 && step.progress == plan.1
                                && step.write == write_spec(a, progress_of(tl), (elapsed - entry.start_ms) as u32)
                                && step.now_ms == now && step.root == sim_root_spec(w) && (step.lw, step.lh)
                                == display_size_spec(w)
                        },
                    }
                }
            }
        },
    }
}

/// Spec: the tick the timeline is about to play can be planned: when it
/// reaches an eased rotation, that rotation's total time is a usable
/// divisor.
pub open spec fn timeline_tick_plannable(w: &World) -> bool {
    match w.res.sim_timeline {
        Some(tl) => {
            let now = now_ms_spec(w);
            let start = match tl.start_ms {
                Some(t) => t,
                None => now,
            };
            let elapsed = wrap_sub_u32(now, start);
            (tl.cursor < tl.entries@.len() && elapsed >= tl.entries@[tl.cursor as int].start_ms) ==> match tl.entries@[tl.cursor as int].action {
                SimAction::Rotate(r) => rotate_divisible(r.ticks, r.step_ms, r.ease_fn),
                _ => true,
            }
        },
        None => true,
    }
}

/// Spec: the timeline has nothing to play this tick: there is none, it is
/// empty or finished, its current action is not due yet, or that action's
/// anchor is not laid out.
pub open spec fn timeline_idle(w: &World) -> bool {
    match w.res.sim_timeline {
        None => true,
        Some(tl) => {
            let now = now_ms_spec(w);
            let start = match tl.start_ms {
                Some(t) => t,
                None => now,
            };
            let elapsed = wrap_sub_u32(now, start);
            ||| tl.entries@.len() == 0
            ||| tl.cursor >= tl.entries@.len()
            ||| elapsed < tl.entries@[tl.cursor as int].start_ms
            ||| resolve_action_spec(w, tl.entries@[tl.cursor as int].action) is None
        },
    }
}

/// Plans one timeline tick: the raw events to dispatch and the progress
/// to store afterwards.
#[verifier::rlimit(80)]
pub fn sim_timeline_plan(world: &mut World) -> (r: Option<TimelineStep>)
    requires
        timeline_tick_plannable(old(world)),
    ensures
        sim_timeline_plan_ok(old(world), final(world), r),
{
    let now = now_ms(world);
    let (lw, lh) = display_size(world);
    let root = match world.res.sim_root {
        Some(r) => r,
        None => Entity { id: 0, generation: 0 },
    };
    let mut tl = match world.res.sim_timeline.take() {
        Some(t) => t,
        None => {
            return None;
        },
    };
    if tl.entries.len() == 0 {
        world.res.sim_timeline = Some(tl);
        return None;
    }
    let start = match tl.start_ms {
        Some(t) => t,
        None => now,
    };
    tl.start_ms = Some(start);
    let elapsed = wrapping_sub_u32(now, start);
    if tl.cursor >= tl.entries.len() {
        if tl.looping {
            tl.cursor = 0;
            tl.action_started = false;
            tl.drag_move_emitted = false;
            tl.rotate_emitted = 0;
            tl.start_ms = Some(now);
        }
        world.res.sim_timeline = Some(tl);
        return None;
    }
    let entry = tl.entries[tl.cursor];
    let progress = TimelineProgress {
        cursor: tl.cursor,
        action_elapsed_ms: tl.action_elapsed_ms,
        action_started: tl.action_started,
        drag_move_emitted: tl.drag_move_emitted,
        rotate_emitted: tl.rotate_emitted,
    };
    world.res.sim_timeline = Some(tl);
    if elapsed < entry.start_ms {
        return None;
    }
    let resolved = match resolve_action(world, entry.action) {
        Some(a) => a,
        None => {
            return None;
        },
    };
    let (events, next) = plan_action(resolved, progress, elapsed - entry.start_ms);
    let write = plan_write(resolved, progress, elapsed - entry.start_ms);
    Some(TimelineStep { root, now_ms: now, lw, lh, events, progress: next, write })
}

/// Spec: `w2` is `w` with the progress update `wr` applied to the
/// timeline resource as it stands, if there is one.
pub open spec fn progress_written(w: &World, w2: &World, wr: ProgressWrite) -> bool {
    &&& w2.entities@ == w.entities@
    &&& match w.res.sim_timeline {
        Some(tl) => {
            &&& w2.res == Resources { sim_timeline: w2.res.sim_timeline, ..w.res }
            &&& w2.res.sim_timeline matches Some(tl2) && progress_of(tl2) == apply_write(progress_of(tl), wr)
                && tl2.entries@ == tl.entries@ && tl2.start_ms == tl.start_ms && tl2.looping == tl.looping
                && tl2.total_ms == tl.total_ms
        },
        None => w2.res == w.res,
    }
}

/// Applies a progress update to the timeline resource, if there is one.
pub fn write_progress(world: &mut World, wr: ProgressWrite)
    ensures
        progress_written(old(world), final(world), wr),
{
    match world.res.sim_timeline.take() {
        Some(tl) => {
            let mut tl = tl;
            let next = if tl.cursor == usize::MAX {
                0
            } else {
                tl.cursor + 1
            };
            match wr {
                ProgressWrite::Keep => {},
                ProgressWrite::Start { reset_drag } => {
                    tl.action_started = true;
                    tl.action_elapsed_ms = 0;
                    if reset_drag {
                        tl.drag_move_emitted = false;
                    }
                },
                ProgressWrite::DragMoved => {
                    tl.drag_move_emitted = true;
                },
                ProgressWrite::Rotated { emitted } => {
                    tl.action_started = true;
                    tl.rotate_emitted = emitted;
                },
                ProgressWrite::RotateDone => {
                    tl.cursor = next;
                    tl.action_started = false;
                    tl.rotate_emitted = 0;
                },
                ProgressWrite::Advance => {
                    tl.cursor = next;
                    tl.action_started = false;
                    tl.drag_move_emitted = false;
                    tl.rotate_emitted = 0;
                },
            }
            world.res.sim_timeline = Some(tl);
        },
        None => {},
    }
}

/// Spec: `out` is every gesture buffered in `w`'s [`GestureSystem`],
/// oldest first, and `w2` is `w` with that buffer emptied.
pub open spec fn gestures_drained(w: &World, w2: &World, out: Seq<GestureEvent>) -> bool {
    &&& w2.entities@ == w.entities@
    &&& match w.res.gesture {
        Some(gs) => {
            &&& out == gs.events.buffer@
            &&& w2.res == Resources { gesture: w2.res.gesture, ..w.res }
            &&& w2.res.gesture matches Some(g2) && g2.recognizer == gs.recognizer && g2.events.buffer@.len() == 0
        },
        None => out.len() == 0 && w2.res == w.res,
    }
}

/// Takes every buffered gesture out of the [`GestureSystem`], oldest first.
pub fn drain_gestures(world: &mut World) -> (out: Vec<GestureEvent>)
    ensures
        gestures_drained(old(world), final(world), out@),
{
    match world.res.gesture.take() {
        Some(gs) => {
            let mut gs = gs;
            let out = gs.events.drain();
            world.res.gesture = Some(gs);
            out
        },
        None => Vec::new(),
    }
}

/// Spec: `w2` is `w` with `wr` applied when `now` holds, `w` itself
/// otherwise.
pub open spec fn written_if(w: &World, w2: &World, wr: ProgressWrite, now: bool) -> bool {
    if now {
        progress_written(w, w2, wr)
    } else {
        *w2 == *w
    }
}

/// Spec: playing a planned tick `step` from `w` takes the table from `c`
/// to `c2` and the world to `w2`: a starting action records its start,
/// the step's raw events go through the input pipeline in order, any
/// other progress update is then applied to the timeline as it stands,
/// and the gestures then buffered are drained and bubbled in order.
pub open spec fn timeline_tick_ok<C: Callbacks>(c: C, w: World, step: TimelineStep, c2: C, w2: World) -> bool {
    let before = step.write is Start;
    exists|wb: World, cd: C, wd: World, ws: World, wg: World, gs: Seq<GestureEvent>|
        #![trigger inputs_run(c, wb, step.root, step.events@, step.now_ms, cd, wd), gestures_drained(&ws, &wg, gs)]
        written_if(&w, &wb, step.write, before) && inputs_run(c, wb, step.root, step.events@, step.now_ms, cd, wd)
            && written_if(&wd, &ws, step.write, !before) && gestures_drained(&ws, &wg, gs) && bubbles_run(
            cd,
            wg,
            gs,
            c2,
            w2,
        )
}

/// Plays the timeline one tick: plans the current action, records its
/// start if it starts, sends its raw events through the input pipeline,
/// applies any other progress update, and bubbles the recognised
/// gestures.
pub fn sim_timeline_system<C: Callbacks>(world: &mut World, callbacks: &mut C)
    requires
        timeline_tick_plannable(old(world)),
    ensures
        exists|wp: World, r: Option<TimelineStep>|
            #[trigger] sim_timeline_plan_ok(old(world), &wp, r) && match r {
                None => *final(world) == wp && *final(callbacks) == *old(callbacks),
                Some(step) => timeline_tick_ok(*old(callbacks), wp, step, *final(callbacks), *final(world)),
            },
        timeline_idle(old(world)) ==> sim_timeline_plan_ok(old(world), final(world), None),
        old(world).res.sim_timeline is None ==> (final(world).entities@ == old(world).entities@
            && final(world).res == old(world).res),
{
    let ghost c0 = *callbacks;
    let step = match sim_timeline_plan(world) {
        Some(s) => s,
        None => {
            return ;
        },
    };
    let ghost wp = *world;
    let before = match step.write {
        ProgressWrite::Start { .. } => true,
        _ => false,
    };
    if before {
        write_progress(world, step.write);
    }
    let ghost wb = *world;
    let mut i: usize = 0;
    assert(step.events@.take(0) =~= Seq::<InputEvent>::empty());
    while i < step.events.len()
        invariant
            i <= step.events@.len(),
            inputs_run(c0, wb, step.root, step.events@.take(i as int), step.now_ms, *callbacks, *world),
        decreases step.events@.len() - i,
    {
        let ghost ci = *callbacks;
        let ghost wi = *world;
        dispatch_input(world, callbacks, step.root, &step.events[i], step.now_ms, step.lw, step.lh);
        proof {
            assert(step.events@.take(i + 1) =~= step.events@.take(i as int).push(step.events@[i as int]));
            lemma_inputs_push(
                c0,
                wb,
                step.root,
                step.events@.take(i as int),
                step.now_ms,
                ci,
                wi,
                step.events@[i as int],
                *callbacks,
                *world,
            );
        }
        i = i + 1;
    }
    assert(step.events@.take(step.events@.len() as int) =~= step.events@);
    let ghost cd = *callbacks;
    let ghost wd = *world;
    if !before {
        write_progress(world, step.write);
    }
    let ghost ws = *world;
    let pending = drain_gestures(world);
    let ghost wg = *world;
    let mut k: usize = 0;
    assert(pending@.take(0) =~= Seq::<GestureEvent>::empty());
    while k < pending.len()
        invariant
            k <= pending@.len(),
            bubbles_run(cd, wg, pending@.take(k as int), *callbacks, *world),
        decreases pending@.len() - k,
    {
        let ghost ck = *callbacks;
        let ghost wk = *world;
        bubble_dispatch(world, callbacks, &pending[k]);
        proof {
            assert(pending@.take(k + 1) =~= pending@.take(k as int).push(pending@[k as int]));
            lemma_bubbles_push(cd, wg, pending@.take(k as int), ck, wk, pending@[k as int], *callbacks, *world);
        }
        k = k + 1;
    }
    proof {
        assert(pending@.take(pending@.len() as int) =~= pending@);
        assert(gestures_drained(&ws, &wg, pending@));
        assert(inputs_run(c0, wb, step.root, step.events@, step.now_ms, cd, wd));
        assert(written_if(&wp, &wb, step.write, before));
        assert(written_if(&wd, &ws, step.write, !before));
    }
}

} // verus!
