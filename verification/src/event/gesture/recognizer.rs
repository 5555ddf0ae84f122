//! The gesture recogniser: a state machine from raw pointer events to
//! taps, long presses, drags, pinches and rotations.
use vstd::prelude::*;

use crate::ecs::Entity;
use crate::event::input::InputEvent;
use crate::types::{
    abs_int, atan2_spec, div_raw, in_half_turn, mul_raw, norm_angle, normalize_angle, sqrt_raw,
    wrap32, Fixed, Fixed64, div_trunc,
};

use super::event::{gesture_target, GestureEvent};
use super::system::GestureEvents;

verus! {

#[derive(Clone, Copy, Debug, PartialEq, Eq, Structural)]
pub enum GestureState {
    Idle,
    /// Single finger down, drag threshold not yet crossed.
    Pending,
    Dragging,
    LongPressed,
    /// Two fingers down, neither pinch nor rotate threshold crossed.
    MultiPending,
    /// At least one of pinch or rotate is emitting.
    MultiActive,
}

/// Manhattan distance (whole pixels) a finger must travel before a drag starts.
pub const DRAG_THRESHOLD: i32 = 10;

/// Hold time after which a still finger becomes a long press.
pub const LONG_PRESS_MS: u32 = 500;

/// 5% relative distance change wakes Pinch (0.05 in Q24.8 is 13 raw).
pub const PINCH_THRESHOLD_RAW: i32 = 13;

/// About 0.1 rad wakes Rotate (26 raw).
pub const ROTATE_THRESHOLD_RAW: i32 = 26;

pub const MAX_FINGERS: usize = 4;

#[derive(Clone, Copy, Debug, PartialEq, Eq, Structural)]
pub struct Finger {
    pub id: u8,
    pub active: bool,
    pub start_x: Fixed,
    pub start_y: Fixed,
    pub current_x: Fixed,
    pub current_y: Fixed,
    pub prev_x: Fixed,
    pub prev_y: Fixed,
    pub prev_ms: u32,
    pub down_ms: u32,
}

/// Spec: an unused finger slot.
pub open spec fn empty_finger() -> Finger {
    Finger {
        id: 0,
        active: false,
        start_x: Fixed { raw: 0 },
        start_y: Fixed { raw: 0 },
        current_x: Fixed { raw: 0 },
        current_y: Fixed { raw: 0 },
        prev_x: Fixed { raw: 0 },
        prev_y: Fixed { raw: 0 },
        prev_ms: 0,
        down_ms: 0,
    }
}

/// Spec: a finger that just touched down at `(x, y)` at time `t`.
pub open spec fn fresh_finger(id: u8, x: Fixed, y: Fixed, t: u32) -> Finger {
    Finger {
        id,
        active: true,
        start_x: x,
        start_y: y,
        current_x: x,
        current_y: y,
        prev_x: x,
        prev_y: y,
        prev_ms: t,
        down_ms: t,
    }
}

/// Spec: finger `f` after moving to `(x, y)` at time `t`.
pub open spec fn moved_finger(f: Finger, x: Fixed, y: Fixed, t: u32) -> Finger {
    Finger { prev_x: f.current_x, prev_y: f.current_y, prev_ms: t, current_x: x, current_y: y, ..f }
}

impl Finger {
    pub fn empty() -> (f: Finger)
        ensures
            f == empty_finger(),
    {
        Finger {
            id: 0,
            active: false,
            start_x: Fixed::zero(),
            start_y: Fixed::zero(),
            current_x: Fixed::zero(),
            current_y: Fixed::zero(),
            prev_x: Fixed::zero(),
            prev_y: Fixed::zero(),
            prev_ms: 0,
            down_ms: 0,
        }
    }
}

/// Spec: `a - b` on the wrapping `u32` millisecond clock.
pub open spec fn wrap_sub_u32(a: u32, b: u32) -> u32 {
    if a >= b {
        (a - b) as u32
    } else {
        (a + 0x1_0000_0000 - b) as u32
    }
}

/// `a - b` on the wrapping `u32` millisecond clock.
pub fn wrapping_sub_u32(a: u32, b: u32) -> (r: u32)
    ensures
        r == wrap_sub_u32(a, b),
{
    if a >= b {
        a - b
    } else {
        ((a as u64) + 0x1_0000_0000 - (b as u64)) as u32
    }
}

/// Spec: length of the vector `(dx, dy)`.
pub open spec fn dist_spec(dx: Fixed, dy: Fixed) -> i32 {
    sqrt_raw(wrap32(mul_raw(dx.raw, dx.raw) + mul_raw(dy.raw, dy.raw)))
}

/// Length of the vector `(dx, dy)`.
pub fn dist(dx: Fixed, dy: Fixed) -> (r: Fixed)
    ensures
        r.raw == dist_spec(dx, dy),
{
    dx.mul(dx).add(dy.mul(dy)).sqrt()
}

/// Keeps a signed angle in `(-PI, PI]` so `cur - prev` does not jump a
/// whole turn at the wrap boundary.
pub fn wrap_pi(a: Fixed) -> (r: Fixed)
    ensures
        r.raw == norm_angle(a.raw as int),
        in_half_turn(r.raw as int),
{
    normalize_angle(a)
}

/// Spec: whole-pixel part of a fixed-point value.
pub open spec fn to_int_spec(f: Fixed) -> int {
    (f.raw as int) / 256
}

/// Spec: the drag velocity component `(pos - prev) * 1000 / dt`, in
/// pixels per second; zero when `dt` does not fit the fixed-point
/// divisor.
pub open spec fn velocity_spec(pos: Fixed, prev: Fixed, dt: u32) -> i32 {
    let num = mul_raw(wrap32(pos.raw - prev.raw), 256000i32);
    let den = wrap32((dt as i32) as int * 256);
    if den == 0 {
        0
    } else {
        div_raw(num, den)
    }
}

/// Multi-touch gesture recogniser. Finger slots are `f0..f3`; `f0` is the
/// first finger of an interaction.
#[derive(Clone, Copy, Debug, PartialEq, Eq, Structural)]
pub struct GestureRecognizer {
    pub state: GestureState,
    pub f0: Finger,
    pub f1: Finger,
    pub f2: Finger,
    pub f3: Finger,
    /// First-finger hit-test target; kept for the whole interaction.
    pub target: Option<Entity>,
    /// Multi-touch baseline captured when the second finger lands.
    pub initial_dist: Fixed,
    pub initial_angle: Fixed,
    pub last_emit_angle: Fixed,
    /// Finger distance when the last `Pinch` was emitted.
    pub last_emit_dist: Fixed,
    pub pinch_emitting: bool,
    pub rotate_emitting: bool,
    /// Set by the scroll system when a scroll container owns the
    /// current drag; the recogniser then stays silent.
    pub scroll_claimed: bool,
}

impl GestureRecognizer {
    pub open spec fn initial() -> GestureRecognizer {
        GestureRecognizer {
            state: GestureState::Idle,
            f0: empty_finger(),
            f1: empty_finger(),
            f2: empty_finger(),
            f3: empty_finger(),
            target: None,
            initial_dist: Fixed { raw: 0 },
            initial_angle: Fixed { raw: 0 },
            last_emit_angle: Fixed { raw: 0 },
            last_emit_dist: Fixed { raw: 0 },
            pinch_emitting: false,
            rotate_emitting: false,
            scroll_claimed: false,
        }
    }

    pub open spec fn finger(self, i: int) -> Finger {
        if i == 0 {
            self.f0
        } else if i == 1 {
            self.f1
        } else if i == 2 {
            self.f2
        } else {
            self.f3
        }
    }

    pub open spec fn with_finger(self, i: int, f: Finger) -> GestureRecognizer {
        if i == 0 {
            GestureRecognizer { f0: f, ..self }
        } else if i == 1 {
            GestureRecognizer { f1: f, ..self }
        } else if i == 2 {
            GestureRecognizer { f2: f, ..self }
        } else {
            GestureRecognizer { f3: f, ..self }
        }
    }

    /// Spec: first slot holding the active finger `id`.
    pub open spec fn slot_of(self, id: u8) -> Option<int> {
        if self.f0.active && self.f0.id == id {
            Some(0)
        } else if self.f1.active && self.f1.id == id {
            Some(1)
        } else if self.f2.active && self.f2.id == id {
            Some(2)
        } else if self.f3.active && self.f3.id == id {
            Some(3)
        } else {
            None
        }
    }

    /// Spec: first unused slot.
    pub open spec fn free_slot(self) -> Option<int> {
        if !self.f0.active {
            Some(0)
        } else if !self.f1.active {
            Some(1)
        } else if !self.f2.active {
            Some(2)
        } else if !self.f3.active {
            Some(3)
        } else {
            None
        }
    }

    pub open spec fn active_count_spec(self) -> int {
        (if self.f0.active { 1int } else { 0 }) + (if self.f1.active { 1int } else { 0 }) + (if self.f2.active { 1int } else { 0 }) + (if self.f3.active { 1int } else { 0 })
    }

    /// Spec: back to idle with every slot cleared; the multi-touch
    /// baseline values are left as they were.
    pub open spec fn reset_spec(self) -> GestureRecognizer {
        GestureRecognizer {
            state: GestureState::Idle,
            target: None,
            scroll_claimed: false,
            f0: empty_finger(),
            f1: empty_finger(),
            f2: empty_finger(),
            f3: empty_finger(),
            pinch_emitting: false,
            rotate_emitting: false,
            ..self
        }
    }

    /// Spec: the slot of finger `id` (if any) cleared.
    pub open spec fn release_spec(self, id: u8) -> GestureRecognizer {
        match self.slot_of(id) {
            Some(i) => self.with_finger(i, empty_finger()),
            None => self,
        }
    }

    /// Spec: the two-finger baseline taken from slots 0 and 1.
    pub open spec fn baseline_spec(self) -> GestureRecognizer {
        let dx = Fixed { raw: wrap32(self.f1.current_x.raw - self.f0.current_x.raw) };
        let dy = Fixed { raw: wrap32(self.f1.current_y.raw - self.f0.current_y.raw) };
        let d = dist_spec(dx, dy);
        let init = if d >= 1 {
            d
        } else {
            1
        };
        let angle = atan2_spec(dy.raw as int, dx.raw as int) as i32;
        GestureRecognizer {
            initial_dist: Fixed { raw: init },
            last_emit_dist: Fixed { raw: init },
            initial_angle: Fixed { raw: angle },
            last_emit_angle: Fixed { raw: angle },
            pinch_emitting: false,
            rotate_emitting: false,
            ..self
        }
    }

    /// Spec: effect of a finger touching down.
    pub open spec fn on_down_spec(self, id: u8, x: Fixed, y: Fixed, t: u32, hit: Option<Entity>) -> GestureRecognizer {
        match self.state {
            GestureState::Idle => GestureRecognizer {
                f0: fresh_finger(id, x, y, t),
                target: hit,
                state: GestureState::Pending,
                ..self
            },
            GestureState::Pending => match self.free_slot() {
                Some(i) => GestureRecognizer {
                    state: GestureState::MultiPending,
                    ..self.with_finger(i, fresh_finger(id, x, y, t)).baseline_spec()
                },
                None => self,
            },
            _ => self,
        }
    }

    /// Spec: the state and events that the current two-finger position
    /// produces (state after the finger update).
    pub open spec fn emit_multi_spec(self) -> (GestureRecognizer, Seq<GestureEvent>) {
        let f0 = self.f0;
        let f1 = self.f1;
        if !f0.active || !f1.active || self.initial_dist.raw == 0 || self.last_emit_dist.raw == 0 {
            (self, Seq::empty())
        } else {
            let dx = Fixed { raw: wrap32(f1.current_x.raw - f0.current_x.raw) };
            let dy = Fixed { raw: wrap32(f1.current_y.raw - f0.current_y.raw) };
            let cur_dist = dist_spec(dx, dy);
            let cur_angle = atan2_spec(dy.raw as int, dx.raw as int) as i32;
            let scale = div_raw(cur_dist, self.initial_dist.raw);
            let angle_total = norm_angle(wrap32(cur_angle - self.initial_angle.raw) as int);
            let cx = div_raw(wrap32(f0.current_x.raw + f1.current_x.raw), 512);
            let cy = div_raw(wrap32(f0.current_y.raw + f1.current_y.raw), 512);
            let scale_off = wrap32(abs_int(wrap32(scale - 256) as int));
            let pinch = self.pinch_emitting || scale_off > PINCH_THRESHOLD_RAW;
            let rotate = self.rotate_emitting || abs_int(angle_total) > ROTATE_THRESHOLD_RAW;
            let state = if pinch || rotate {
                GestureState::MultiActive
            } else {
                self.state
            };
            let s1 = GestureRecognizer { pinch_emitting: pinch, rotate_emitting: rotate, state, ..self };
            match self.target {
                None => (s1, Seq::empty()),
                Some(target) => {
                    let pinch_events = if pinch {
                        seq![
                            GestureEvent::Pinch {
                                x: Fixed { raw: cx },
                                y: Fixed { raw: cy },
                                scale_delta: Fixed64 {
                                    raw: div_trunc(cur_dist as int * 65536, self.last_emit_dist.raw as int) as i64,
                                },
                                target,
                            },
                        ]
                    } else {
                        Seq::empty()
                    };
                    let new_dist = if pinch {
                        if cur_dist >= 1 {
                            cur_dist
                        } else {
                            1
                        }
                    } else {
                        self.last_emit_dist.raw
                    };
                    let incremental = norm_angle(wrap32(cur_angle - self.last_emit_angle.raw) as int);
                    let rotate_events = if rotate {
                        seq![
                            GestureEvent::Rotate {
                                x: Fixed { raw: cx },
                                y: Fixed { raw: cy },
                                angle: Fixed { raw: incremental as i32 },
                                target,
                            },
                        ]
                    } else {
                        Seq::empty()
                    };
                    let new_angle = if rotate {
                        cur_angle
                    } else {
                        self.last_emit_angle.raw
                    };
                    (
                        GestureRecognizer {
                            last_emit_dist: Fixed { raw: new_dist },
                            last_emit_angle: Fixed { raw: new_angle },
                            ..s1
                        },
                        pinch_events + rotate_events,
                    )
                },
            }
        }
    }

    /// Spec: effect of finger `id` moving to `(x, y)` at time `t`.
    pub open spec fn on_move_spec(self, id: u8, x: Fixed, y: Fixed, t: u32) -> (GestureRecognizer, Seq<GestureEvent>) {
        match self.slot_of(id) {
            None => (self, Seq::empty()),
            Some(i) => {
                let s1 = self.with_finger(i, moved_finger(self.finger(i), x, y, t));
                let f0 = s1.f0;
                match s1.state {
                    GestureState::Pending => {
                        let dx = abs_int(to_int_spec(Fixed { raw: wrap32(f0.current_x.raw - f0.start_x.raw) }));
                        let dy = abs_int(to_int_spec(Fixed { raw: wrap32(f0.current_y.raw - f0.start_y.raw) }));
                        if dx + dy > DRAG_THRESHOLD {
                            let s2 = GestureRecognizer { state: GestureState::Dragging, ..s1 };
                            match s1.target {
                                Some(target) => (
                                    s2,
                                    seq![GestureEvent::DragStart { x: f0.start_x, y: f0.start_y, target }],
                                ),
                                None => (s2, Seq::empty()),
                            }
                        } else {
                            (s1, Seq::empty())
                        }
                    },
                    GestureState::Dragging => match s1.target {
                        Some(target) => (
                            s1,
                            seq![
                                GestureEvent::DragMove {
                                    x: f0.current_x,
                                    y: f0.current_y,
                                    dx: Fixed { raw: wrap32(f0.current_x.raw - f0.start_x.raw) },
                                    dy: Fixed { raw: wrap32(f0.current_y.raw - f0.start_y.raw) },
                                    target,
                                },
                            ],
                        ),
                        None => (s1, Seq::empty()),
                    },
                    GestureState::MultiPending => s1.emit_multi_spec(),
                    GestureState::MultiActive => s1.emit_multi_spec(),
                    _ => (s1, Seq::empty()),
                }
            },
        }
    }

    /// Spec: effect of finger `id` lifting at `(x, y)` at time `t`.
    pub open spec fn on_up_spec(self, id: u8, x: Fixed, y: Fixed, t: u32) -> (GestureRecognizer, Seq<GestureEvent>) {
        let released = self.release_spec(id);
        match self.state {
            GestureState::Pending => (
                released.reset_spec(),
                match self.target {
                    Some(target) => seq![GestureEvent::Tap { x, y, target }],
                    None => Seq::empty(),
                },
            ),
            GestureState::Dragging => (
                released.reset_spec(),
                match (self.target, self.slot_of(id)) {
                    (Some(target), Some(i)) => {
                        let f = self.finger(i);
                        let raw_dt = wrap_sub_u32(t, f.prev_ms);
                        let dt = if raw_dt >= 1 {
                            raw_dt
                        } else {
                            1
                        };
                        seq![
                            GestureEvent::DragEnd {
                                x,
                                y,
                                vx: Fixed { raw: velocity_spec(x, f.prev_x, dt) },
                                vy: Fixed { raw: velocity_spec(y, f.prev_y, dt) },
                                target,
                            },
                        ]
                    },
                    _ => Seq::empty(),
                },
            ),
            GestureState::LongPressed => (released.reset_spec(), Seq::empty()),
            GestureState::MultiPending => (
                if self.active_count_spec() <= 2 {
                    released.reset_spec()
                } else {
                    released
                },
                Seq::empty(),
            ),
            GestureState::MultiActive => (
                if self.active_count_spec() <= 2 {
                    released.reset_spec()
                } else {
                    released
                },
                Seq::empty(),
            ),
            GestureState::Idle => (released, Seq::empty()),
        }
    }

    /// Spec: the recogniser's response to one raw event: the next state
    /// and the gestures it emits, in order.
    pub open spec fn update_spec(self, event: InputEvent, t: u32, hit: Option<Entity>) -> (GestureRecognizer, Seq<GestureEvent>) {
        if self.scroll_claimed {
            match event {
                InputEvent::PointerUp { id, .. } => {
                    let released = self.release_spec(id);
                    (
                        if released.active_count_spec() == 0 {
                            released.reset_spec()
                        } else {
                            released
                        },
                        Seq::empty(),
                    )
                },
                _ => (self, Seq::empty()),
            }
        } else {
            match event {
                InputEvent::PointerDown { id, x, y } => (self.on_down_spec(id, x, y, t, hit), Seq::empty()),
                InputEvent::PointerMove { id, x, y } => self.on_move_spec(id, x, y, t),
                InputEvent::PointerUp { id, x, y } => self.on_up_spec(id, x, y, t),
                _ => (self, Seq::empty()),
            }
        }
    }

    /// Spec: the long-press check at time `t`.
    pub open spec fn long_press_spec(self, t: u32) -> (GestureRecognizer, Seq<GestureEvent>) {
        if self.state == GestureState::Pending && !self.scroll_claimed && wrap_sub_u32(t, self.f0.down_ms) >= LONG_PRESS_MS {
            (
                GestureRecognizer { state: GestureState::LongPressed, ..self },
                match self.target {
                    Some(target) => seq![
                        GestureEvent::LongPress { x: self.f0.current_x, y: self.f0.current_y, target },
                    ],
                    None => Seq::empty(),
                },
            )
        } else {
            (self, Seq::empty())
        }
    }

    pub fn new() -> (r: GestureRecognizer)
        ensures
            r == GestureRecognizer::initial(),
    {
        GestureRecognizer {
            state: GestureState::Idle,
            f0: Finger::empty(),
            f1: Finger::empty(),
            f2: Finger::empty(),
            f3: Finger::empty(),
            target: None,
            initial_dist: Fixed::zero(),
            initial_angle: Fixed::zero(),
            last_emit_angle: Fixed::zero(),
            last_emit_dist: Fixed::zero(),
            pinch_emitting: false,
            rotate_emitting: false,
            scroll_claimed: false,
        }
    }

    fn get_finger(&self, i: usize) -> (f: Finger)
        requires
            i < MAX_FINGERS,
        ensures
            f == self.finger(i as int),
    {
        if i == 0 {
            self.f0
        } else if i == 1 {
            self.f1
        } else if i == 2 {
            self.f2
        } else {
            self.f3
        }
    }

    fn set_finger(&mut self, i: usize, f: Finger)
        requires
            i < MAX_FINGERS,
        ensures
            *final(self) == old(self).with_finger(i as int, f),
    {
        if i == 0 {
            self.f0 = f;
        } else if i == 1 {
            self.f1 = f;
        } else if i == 2 {
            self.f2 = f;
        } else {
            self.f3 = f;
        }
    }

    /// Feeds one raw event through the recogniser, appending the gestures
    /// it recognises to `events_out`.
    pub fn update(
        &mut self,
        event: &InputEvent,
        elapsed_ms: u32,
        hit_target: Option<Entity>,
        events_out: &mut GestureEvents,
    )
        ensures
            *final(self) == old(self).update_spec(*event, elapsed_ms, hit_target).0,
            final(events_out).buffer@ == old(events_out).buffer@ + old(self).update_spec(
                *event,
                elapsed_ms,
                hit_target,
            ).1,
    {
        if self.scroll_claimed {
            if let InputEvent::PointerUp { id, .. } = event {
                self.release_finger(*id);
                if self.active_count() == 0 {
                    self.reset();
                }
            }
            assert(events_out.buffer@ == old(events_out).buffer@ + Seq::<GestureEvent>::empty());
            return;
        }
        match event {
            InputEvent::PointerDown { id, x, y } => {
                self.on_down(*id, *x, *y, elapsed_ms, hit_target);
                assert(events_out.buffer@ == old(events_out).buffer@ + Seq::<GestureEvent>::empty());
            },
            InputEvent::PointerMove { id, x, y } => self.on_move(*id, *x, *y, elapsed_ms, events_out),
            InputEvent::PointerUp { id, x, y } => self.on_up(*id, *x, *y, elapsed_ms, events_out),
            _ => {
                assert(events_out.buffer@ == old(events_out).buffer@ + Seq::<GestureEvent>::empty());
            },
        }
    }

    fn on_down(&mut self, id: u8, x: Fixed, y: Fixed, elapsed_ms: u32, hit_target: Option<Entity>)
        ensures
            *final(self) == old(self).on_down_spec(id, x, y, elapsed_ms, hit_target),
    {
        let fresh = Finger {
            id,
            active: true,
            start_x: x,
            start_y: y,
            current_x: x,
            current_y: y,
            prev_x: x,
            prev_y: y,
            prev_ms: elapsed_ms,
            down_ms: elapsed_ms,
        };
        match self.state {
            GestureState::Idle => {
                self.f0 = fresh;
                self.target = hit_target;
                self.state = GestureState::Pending;
            },
            GestureState::Pending => {
                if let Some(slot) = self.alloc_slot() {
                    self.set_finger(slot, fresh);
                    self.capture_multi_baseline();
                    self.state = GestureState::MultiPending;
                }
            },
            // A drag or long press in progress ignores extra fingers; so
            // does a two-finger gesture.
            _ => {},
        }
    }

    fn on_move(&mut self, id: u8, x: Fixed, y: Fixed, elapsed_ms: u32, events_out: &mut GestureEvents)
        ensures
            *final(self) == old(self).on_move_spec(id, x, y, elapsed_ms).0,
            final(events_out).buffer@ == old(events_out).buffer@ + old(self).on_move_spec(
                id,
                x,
                y,
                elapsed_ms,
            ).1,
    {
        let slot = match self.find_slot(id) {
            Some(s) => s,
            None => {
                assert(events_out.buffer@ == old(events_out).buffer@ + Seq::<GestureEvent>::empty());
                return ;
            },
        };
        let f = self.get_finger(slot);
        let moved = Finger {
            prev_x: f.current_x,
            prev_y: f.current_y,
            prev_ms: elapsed_ms,
            current_x: x,
            current_y: y,
            ..f
        };
        self.set_finger(slot, moved);
        match self.state {
            GestureState::Pending => {
                let f0 = self.f0;
                let dx = f0.current_x.sub(f0.start_x).to_int();
                let dy = f0.current_y.sub(f0.start_y).to_int();
                let adx: i32 = if dx < 0 { -dx } else { dx };
                let ady: i32 = if dy < 0 { -dy } else { dy };
                if adx + ady > DRAG_THRESHOLD {
                    self.state = GestureState::Dragging;
                    if let Some(target) = self.target {
                        events_out.push(GestureEvent::DragStart { x: f0.start_x, y: f0.start_y, target });
                    } else {
                        assert(events_out.buffer@ == old(events_out).buffer@ + Seq::<GestureEvent>::empty());
                    }
                } else {
                    assert(events_out.buffer@ == old(events_out).buffer@ + Seq::<GestureEvent>::empty());
                }
            },
            GestureState::Dragging => {
                let f0 = self.f0;
                if let Some(target) = self.target {
                    events_out.push(
                        GestureEvent::DragMove {
                            x: f0.current_x,
                            y: f0.current_y,
                            dx: f0.current_x.sub(f0.start_x),
                            dy: f0.current_y.sub(f0.start_y),
                            target,
                        },
                    );
                } else {
                    assert(events_out.buffer@ == old(events_out).buffer@ + Seq::<GestureEvent>::empty());
                }
            },
            GestureState::MultiPending | GestureState::MultiActive => {
                self.emit_multi(events_out);
            },
            _ => {
                assert(events_out.buffer@ == old(events_out).buffer@ + Seq::<GestureEvent>::empty());
            },
        }
    }

    fn on_up(&mut self, id: u8, x: Fixed, y: Fixed, elapsed_ms: u32, events_out: &mut GestureEvents)
        ensures
            *final(self) == old(self).on_up_spec(id, x, y, elapsed_ms).0,
            final(events_out).buffer@ == old(events_out).buffer@ + old(self).on_up_spec(
                id,
                x,
                y,
                elapsed_ms,
            ).1,
    {
        let was = self.state;
        let active_before = self.active_count();
        let lifting = match self.find_slot(id) {
            Some(slot) => Some(self.get_finger(slot)),
            None => None,
        };
        self.release_finger(id);
        match was {
            GestureState::Pending => {
                if let Some(target) = self.target {
                    events_out.push(GestureEvent::Tap { x, y, target });
                } else {
                    assert(events_out.buffer@ == old(events_out).buffer@ + Seq::<GestureEvent>::empty());
                }
                self.reset();
            },
            GestureState::Dragging => {
                match (self.target, lifting) {
                    (Some(target), Some(f)) => {
                        let raw_dt = wrapping_sub_u32(elapsed_ms, f.prev_ms);
                        let dt_ms = if raw_dt >= 1 { raw_dt } else { 1 };
                        let vx = velocity(x, f.prev_x, dt_ms);
                        let vy = velocity(y, f.prev_y, dt_ms);
                        events_out.push(GestureEvent::DragEnd { x, y, vx, vy, target });
                    },
                    _ => {
                        assert(events_out.buffer@ == old(events_out).buffer@ + Seq::<GestureEvent>::empty());
                    },
                }
                self.reset();
            },
            GestureState::LongPressed => {
                self.reset();
                assert(events_out.buffer@ == old(events_out).buffer@ + Seq::<GestureEvent>::empty());
            },
            GestureState::MultiPending | GestureState::MultiActive => {
                // Either finger lifting ends multi-touch; the survivor is not
                // tracked as a single-finger gesture.
                if active_before <= 2 {
                    self.reset();
                }
                assert(events_out.buffer@ == old(events_out).buffer@ + Seq::<GestureEvent>::empty());
            },
            GestureState::Idle => {
                assert(events_out.buffer@ == old(events_out).buffer@ + Seq::<GestureEvent>::empty());
            },
        }
    }

    fn capture_multi_baseline(&mut self)
        ensures
            *final(self) == old(self).baseline_spec(),
    {
        let f0 = self.f0;
        let f1 = self.f1;
        let dx = f1.current_x.sub(f0.current_x);
        let dy = f1.current_y.sub(f0.current_y);
        let d = dist(dx, dy).max(Fixed::from_raw(1));
        self.initial_dist = d;
        self.last_emit_dist = d;
        self.initial_angle = Fixed::atan2(dy, dx);
        self.last_emit_angle = self.initial_angle;
        self.pinch_emitting = false;
        self.rotate_emitting = false;
    }

    fn emit_multi(&mut self, events_out: &mut GestureEvents)
        ensures
            *final(self) == old(self).emit_multi_spec().0,
            final(events_out).buffer@ == old(events_out).buffer@ + old(self).emit_multi_spec().1,
    {
        let f0 = self.f0;
        let f1 = self.f1;
        if !f0.active || !f1.active || self.initial_dist.raw == 0 || self.last_emit_dist.raw == 0 {
            assert(events_out.buffer@ == old(events_out).buffer@ + Seq::<GestureEvent>::empty());
            return ;
        }
        let dx = f1.current_x.sub(f0.current_x);
        let dy = f1.current_y.sub(f0.current_y);
        let cur_dist = dist(dx, dy);
        let cur_angle = Fixed::atan2(dy, dx);
        let scale = cur_dist.div(self.initial_dist);
        let angle_total = wrap_pi(cur_angle.sub(self.initial_angle));
        let two = Fixed::from_int(2);
        let center_x = f0.current_x.add(f1.current_x).div(two);
        let center_y = f0.current_y.add(f1.current_y).div(two);
        let scale_off = scale.sub(Fixed::one()).abs();
        if !self.pinch_emitting && scale_off.raw > PINCH_THRESHOLD_RAW {
            self.pinch_emitting = true;
        }
        if !self.rotate_emitting && angle_total.abs().raw > ROTATE_THRESHOLD_RAW {
            self.rotate_emitting = true;
        }
        if self.pinch_emitting || self.rotate_emitting {
            self.state = GestureState::MultiActive;
        }
        if let Some(target) = self.target {
            let ghost before = events_out.buffer@;
            if self.pinch_emitting {
                let scale_delta = Fixed64::ratio(cur_dist, self.last_emit_dist);
                events_out.push(GestureEvent::Pinch { x: center_x, y: center_y, scale_delta, target });
                self.last_emit_dist = cur_dist.max(Fixed::from_raw(1));
            }
            let ghost mid = events_out.buffer@;
            if self.rotate_emitting {
                let incremental = wrap_pi(cur_angle.sub(self.last_emit_angle));
                self.last_emit_angle = cur_angle;
                events_out.push(GestureEvent::Rotate { x: center_x, y: center_y, angle: incremental, target });
            }
            proof {
                let spec = old(self).emit_multi_spec().1;
                assert(events_out.buffer@ =~= old(events_out).buffer@ + spec);
            }
        } else {
            assert(events_out.buffer@ == old(events_out).buffer@ + Seq::<GestureEvent>::empty());
        }
    }

    fn alloc_slot(&self) -> (r: Option<usize>)
        ensures
            r matches Some(i) ==> i < MAX_FINGERS && self.free_slot() == Some(i as int),
            r is None ==> self.free_slot() is None,
    {
        if !self.f0.active {
            Some(0)
        } else if !self.f1.active {
            Some(1)
        } else if !self.f2.active {
            Some(2)
        } else if !self.f3.active {
            Some(3)
        } else {
            None
        }
    }

    fn find_slot(&self, id: u8) -> (r: Option<usize>)
        ensures
            r matches Some(i) ==> i < MAX_FINGERS && self.slot_of(id) == Some(i as int),
            r is None ==> self.slot_of(id) is None,
    {
        if self.f0.active && self.f0.id == id {
            Some(0)
        } else if self.f1.active && self.f1.id == id {
            Some(1)
        } else if self.f2.active && self.f2.id == id {
            Some(2)
        } else if self.f3.active && self.f3.id == id {
            Some(3)
        } else {
            None
        }
    }

    fn active_count(&self) -> (n: usize)
        ensures
            n == self.active_count_spec(),
    {
        let mut n: usize = 0;
        if self.f0.active {
            n = n + 1;
        }
        if self.f1.active {
            n = n + 1;
        }
        if self.f2.active {
            n = n + 1;
        }
        if self.f3.active {
            n = n + 1;
        }
        n
    }

    fn release_finger(&mut self, id: u8)
        ensures
            *final(self) == old(self).release_spec(id),
    {
        if let Some(slot) = self.find_slot(id) {
            self.set_finger(slot, Finger::empty());
        }
    }

    /// Turns a finger held still for [`LONG_PRESS_MS`] into a long press.
    pub fn check_long_press(&mut self, elapsed_ms: u32, events_out: &mut GestureEvents)
        ensures
            *final(self) == old(self).long_press_spec(elapsed_ms).0,
            final(events_out).buffer@ == old(events_out).buffer@ + old(self).long_press_spec(
                elapsed_ms,
            ).1,
    {
        if self.state == GestureState::Pending && !self.scroll_claimed {
            let held = wrapping_sub_u32(elapsed_ms, self.f0.down_ms);
            if held >= LONG_PRESS_MS {
                self.state = GestureState::LongPressed;
                if let Some(target) = self.target {
                    events_out.push(
                        GestureEvent::LongPress { x: self.f0.current_x, y: self.f0.current_y, target },
                    );
                    return ;
                }
            }
        }
        assert(events_out.buffer@ == old(events_out).buffer@ + Seq::<GestureEvent>::empty());
    }

    fn reset(&mut self)
        ensures
            *final(self) == old(self).reset_spec(),
    {
        self.state = GestureState::Idle;
        self.target = None;
        self.scroll_claimed = false;
        self.f0 = Finger::empty();
        self.f1 = Finger::empty();
        self.f2 = Finger::empty();
        self.f3 = Finger::empty();
        self.pinch_emitting = false;
        self.rotate_emitting = false;
    }
}

/// Drag velocity component in pixels per second.
fn velocity(pos: Fixed, prev: Fixed, dt_ms: u32) -> (r: Fixed)
    ensures
        r.raw == velocity_spec(pos, prev, dt_ms),
{
    let num = pos.sub(prev).mul(Fixed::from_int(1000));
    let den = Fixed::from_int(dt_ms as i32);
    if den.raw == 0 {
        Fixed::zero()
    } else {
        num.div(den)
    }
}

} // verus!
