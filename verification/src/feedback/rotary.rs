//! Rotary feedback overlay: a membrane on the right edge that stretches
//! with encoder / wheel input and springs back.
use vstd::prelude::*;

use crate::ecs::{Entity, Resources, World};
use crate::types::{abs_int, div_raw, mul_raw, wrap32, Fixed, Rect};
use crate::view::WidgetView;
use crate::widget::Style;

use super::{with_layout, InputFeedback, InputFeedbackInput, RotaryFeedback};

verus! {

/// Track width on the right edge, wide enough for the membrane to swell.
pub const TRACK_WIDTH: i32 = 36;

/// Geometry of the magnetic membrane drawn by the rotary overlay.
#[derive(Clone, Copy, Debug, PartialEq, Eq, Structural)]
pub struct MagneticMembrane {
    /// Largest bulge, in pixels.
    pub max_amp: Fixed,
    /// Width of the bulge's bell curve, in pixels.
    pub sigma: Fixed,
    /// Visible span in units of `sigma`.
    pub visible_span: Fixed,
}

/// Current shape of the membrane: where the bulge sits and how far it swells.
#[derive(Clone, Copy, Debug, PartialEq, Eq, Structural)]
pub struct MagneticMembraneState {
    pub ball_offset: Fixed,
    pub amp: Fixed,
}

impl MagneticMembrane {
    pub open spec fn default_spec() -> MagneticMembrane {
        MagneticMembrane { max_amp: Fixed { raw: 7168i32 }, sigma: Fixed { raw: 2048i32 }, visible_span: Fixed { raw: 768i32 } }
    }

    pub open spec fn span_spec(self) -> i32 {
        mul_raw(self.sigma.raw, self.visible_span.raw)
    }

    /// The membrane with its default geometry (28 px bulge, 8 px sigma,
    /// three sigmas visible).
    pub fn new() -> (m: MagneticMembrane)
        ensures
            m == MagneticMembrane::default_spec(),
    {
        MagneticMembrane { max_amp: Fixed::from_int(28), sigma: Fixed::from_int(8), visible_span: Fixed::from_int(3) }
    }

    /// Half-length of the visible membrane, in pixels.
    pub fn span(&self) -> (r: Fixed)
        ensures
            r.raw == self.span_spec(),
    {
        self.sigma.mul(self.visible_span)
    }

    /// How far the bulge may travel from the centre: twice the span.
    pub fn max_pull(&self) -> (r: Fixed)
        ensures
            r.raw == mul_raw(self.span_spec(), 512i32),
    {
        self.span().mul(Fixed::from_int(2))
    }
}

/// Spec: the default membrane's pull limit (48 px).
pub open spec fn max_pull_raw() -> i32 {
    12288i32
}

proof fn lemma_default_max_pull()
    ensures
        mul_raw(MagneticMembrane::default_spec().span_spec(), 512i32) == max_pull_raw(),
{
    assert(2048int * 768int == 1572864int) by (nonlinear_arith);
    assert(1572864int / 256 == 6144int);
    assert(6144int * 512int == 3145728int) by (nonlinear_arith);
    assert(3145728int / 256 == 12288int);
}

/// Spec: the overlay is visible (moving, fading or pulsing).
pub open spec fn rotary_active_spec(r: RotaryFeedback) -> bool {
    r.progress.raw != 0 || r.opacity.raw != 0 || r.pulse.raw != 0
}

fn rotary_active(r: &RotaryFeedback) -> (b: bool)
    ensures
        b == rotary_active_spec(*r),
{
    r.progress.raw != 0 || r.opacity.raw != 0 || r.pulse.raw != 0
}

/// Spec: the track along the right edge of an `lw` x `lh` display.
pub open spec fn track_rect_spec(lw: u16, lh: u16) -> Rect {
    Rect {
        x: Fixed { raw: wrap32((lw as int - TRACK_WIDTH) * 256) },
        y: Fixed { raw: 0 },
        w: Fixed { raw: 9216i32 },
        h: Fixed { raw: wrap32(lh as int * 256) },
    }
}

fn rotary_track_rect(lw: u16, lh: u16) -> (r: Rect)
    ensures
        r == track_rect_spec(lw, lh),
{
    Rect::new(lw as i32 - TRACK_WIDTH, 0, TRACK_WIDTH, lh as i32)
}

/// Spec: the membrane shape for the overlay state: the bulge follows the
/// progress, and swells with the progress (relative to the span, capped)
/// or with half a click pulse, whichever is larger.
pub open spec fn membrane_state_spec(r: RotaryFeedback, m: MagneticMembrane) -> MagneticMembraneState {
    let span = m.span_spec();
    let denom = if span >= 256 {
        span
    } else {
        256
    };
    let frac = div_raw(wrap32(abs_int(r.progress.raw as int)), denom);
    let capped = if frac <= 256 {
        frac
    } else {
        256
    };
    let progress_amp = mul_raw(m.max_amp.raw, capped);
    let pulse_amp = div_raw(mul_raw(m.max_amp.raw, r.pulse.raw), 512);
    MagneticMembraneState {
        ball_offset: r.progress,
        amp: Fixed {
            raw: if progress_amp >= pulse_amp {
                progress_amp
            } else {
                pulse_amp
            },
        },
    }
}

/// The membrane shape for the rotary overlay state.
pub fn rotary_membrane_state(rotary: &RotaryFeedback, membrane: &MagneticMembrane) -> (s: MagneticMembraneState)
    ensures
        s == membrane_state_spec(*rotary, *membrane),
{
    let frac = rotary.progress.abs().div(membrane.span().max(Fixed::one())).min(Fixed::one());
    let progress_amp = membrane.max_amp.mul(frac);
    let pulse_amp = membrane.max_amp.mul(rotary.pulse).div(Fixed::from_int(2));
    MagneticMembraneState { ball_offset: rotary.progress, amp: progress_amp.max(pulse_amp) }
}

/// Spec: the overlay state after taking in a new input batch (when its
/// sequence number is new): an impulse (rotary detents minus wheel
/// scroll) pushes the target by 10 px per unit within the pull limit and
/// kicks the velocity; a click starts a pulse.
pub open spec fn absorb_spec(r: RotaryFeedback, input: InputFeedbackInput) -> RotaryFeedback {
    if input.event_seq == r.last_input_seq {
        r
    } else {
        let impulse = wrap32(wrap32(input.rotary_delta as int * 256) - input.wheel_delta_y.raw);
        let r1 = if impulse != 0 {
            let raw_target = wrap32(r.target.raw + mul_raw(impulse, 2560i32));
            let next_target = if raw_target < -max_pull_raw() {
                (-max_pull_raw()) as i32
            } else if raw_target > max_pull_raw() {
                max_pull_raw()
            } else {
                raw_target
            };
            RotaryFeedback {
                velocity: Fixed { raw: wrap32(r.velocity.raw + div_raw(wrap32(next_target - r.target.raw), 1024i32)) },
                target: Fixed { raw: next_target },
                direction: if impulse > 0 {
                    1
                } else {
                    -1i8
                },
                opacity: Fixed { raw: 256 },
                ..r
            }
        } else {
            r
        };
        let r2 = if input.click_pulse {
            RotaryFeedback { pulse: Fixed { raw: 256 }, opacity: Fixed { raw: 256 }, ..r1 }
        } else {
            r1
        };
        RotaryFeedback { last_input_seq: input.event_seq, ..r2 }
    }
}

/// Spec: one frame of the overlay's spring physics over `dt` ms.
pub open spec fn physics_spec(r: RotaryFeedback, dt: u32) -> RotaryFeedback {
    let dtf = div_raw(wrap32(dt as i32 as int * 256), 4096i32);
    let spring = div_raw(mul_raw(wrap32(r.target.raw - r.progress.raw), dtf), 768i32);
    let v1 = wrap32(r.velocity.raw + spring);
    let p1 = wrap32(r.progress.raw + div_raw(mul_raw(v1, dtf), 1024i32));
    let p2 = if p1 < -max_pull_raw() {
        (-max_pull_raw()) as i32
    } else if p1 > max_pull_raw() {
        max_pull_raw()
    } else {
        p1
    };
    let v2 = div_raw(mul_raw(v1, 5376i32), 6400i32);
    let t2 = div_raw(mul_raw(r.target.raw, 1792i32), 2048i32);
    let o1 = wrap32(r.opacity.raw - div_raw(dtf, 6400i32));
    let u1 = wrap32(r.pulse.raw - div_raw(dtf, 4096i32));
    let settled = wrap32(abs_int(p2 as int)) < 2 && wrap32(abs_int(v2 as int)) < 2 && wrap32(abs_int(t2 as int)) < 2;
    RotaryFeedback {
        progress: Fixed { raw: if settled { 0 } else { p2 } },
        velocity: Fixed { raw: if settled { 0 } else { v2 } },
        target: Fixed { raw: if settled { 0 } else { t2 } },
        opacity: Fixed { raw: if o1 >= 0 { o1 } else { 0 } },
        pulse: Fixed { raw: if u1 >= 0 { u1 } else { 0 } },
        ..r
    }
}

/// Spec: the frame length the overlay uses (at least 1 ms, 16 ms when unknown).
pub open spec fn frame_ms(w: &World) -> u32 {
    match w.res.delta_time_ms {
        Some(d) => if d >= 1 {
            d
        } else {
            1
        },
        None => 16,
    }
}

fn absorb(r: RotaryFeedback, input: InputFeedbackInput) -> (out: RotaryFeedback)
    ensures
        out == absorb_spec(r, input),
{
    if input.event_seq == r.last_input_seq {
        return r;
    }
    let mut r1 = r;
    let impulse = Fixed::from_int(input.rotary_delta as i32).sub(input.wheel_delta_y);
    if impulse.raw != 0 {
        let max_stretch = MagneticMembrane::new().max_pull();
        proof {
            lemma_default_max_pull();
        }
        let next_target = r.target.add(impulse.mul(Fixed::from_int(10))).clamp(Fixed::zero().sub(max_stretch), max_stretch);
        r1.velocity = r.velocity.add(next_target.sub(r.target).div(Fixed::from_int(4)));
        r1.target = next_target;
        r1.direction = if impulse.raw > 0 { 1 } else { -1 };
        r1.opacity = Fixed::one();
    }
    if input.click_pulse {
        r1.pulse = Fixed::one();
        r1.opacity = Fixed::one();
    }
    r1.last_input_seq = input.event_seq;
    r1
}

fn physics(r: RotaryFeedback, dt: u32) -> (out: RotaryFeedback)
    ensures
        out == physics_spec(r, dt),
{
    let mut f = r;
    let dt_fixed = Fixed::from_int(dt as i32).div(Fixed::from_int(16));
    let spring = f.target.sub(f.progress).mul(dt_fixed).div(Fixed::from_int(3));
    f.velocity = f.velocity.add(spring);
    f.progress = f.progress.add(f.velocity.mul(dt_fixed).div(Fixed::from_int(4)));
    let max_pull = MagneticMembrane::new().max_pull();
    proof {
        lemma_default_max_pull();
    }
    f.progress = f.progress.clamp(Fixed::zero().sub(max_pull), max_pull);
    f.velocity = f.velocity.mul(Fixed::from_int(21)).div(Fixed::from_int(25));
    f.target = f.target.mul(Fixed::from_int(7)).div(Fixed::from_int(8));
    f.opacity = f.opacity.sub(dt_fixed.div(Fixed::from_int(25))).max(Fixed::zero());
    f.pulse = f.pulse.sub(dt_fixed.div(Fixed::from_int(16))).max(Fixed::zero());
    let settle: i32 = 2;
    if f.progress.abs().raw < settle && f.velocity.abs().raw < settle && f.target.abs().raw < settle {
        f.progress = Fixed::zero();
        f.velocity = Fixed::zero();
        f.target = Fixed::zero();
    }
    f
}

/// Spec: what `rotary_feedback_system` leaves: the new overlay state, the
/// consumed input batch, and the overlay entity moved (onto the track
/// while active, collapsed otherwise) and marked dirty when the state
/// changed.
pub open spec fn rotary_system_ok(w: &World, w2: &World) -> bool {
    match w.res.feedback {
        None => *w2 == *w,
        Some(fb) => if !fb.rotary.enabled {
            *w2 == *w
        } else {
            let input = match w.res.feedback_input {
                Some(i) => i,
                None => InputFeedbackInput::initial(),
            };
            let consumed = input.event_seq != fb.rotary.last_input_seq;
            let res1 = if consumed {
                Resources {
                    feedback_input: Some(InputFeedbackInput { event_seq: input.event_seq, ..InputFeedbackInput::initial() }),
                    ..w.res
                }
            } else {
                w.res
            };
            let r2 = physics_spec(absorb_spec(fb.rotary, input), frame_ms(w));
            if r2 == fb.rotary {
                &&& w2.entities@ == w.entities@
                &&& w2.res == res1
            } else {
                let fb2 = InputFeedback { rotary: r2, ..fb };
                &&& w2.res == (Resources { feedback: Some(fb2), ..res1 })
                &&& match r2.entity {
                    Some(e) => {
                        let rect = match w.res.display {
                            Some(d) => if rotary_active_spec(r2) {
                                track_rect_spec(d.width, d.height)
                            } else {
                                Rect { x: Fixed { raw: 0 }, y: Fixed { raw: 0 }, w: Fixed { raw: 0 }, h: Fixed { raw: 0 } }
                            },
                            None => Rect { x: Fixed { raw: 0 }, y: Fixed { raw: 0 }, w: Fixed { raw: 0 }, h: Fixed { raw: 0 } },
                        };
                        &&& w.has(e) ==> w2.entities@ == w.entities@.update(
                            e.id as int,
                            crate::ecs::EntityData { dirty: true, ..with_layout(w.data(e), rect) },
                        )
                        &&& !w.has(e) ==> w2.entities@ == w.entities@
                    },
                    None => w2.entities@ == w.entities@,
                }
            }
        },
    }
}

/// Runs the rotary overlay one frame: takes in new input, advances the
/// spring, stores the state and moves / redraws the overlay when the
/// state changed.
#[verifier::rlimit(80)]
pub fn rotary_feedback_system(world: &mut World)
    ensures
        rotary_system_ok(old(world), final(world)),
{
    let mut feedback = match world.res.feedback {
        Some(f) => f,
        None => {
            return ;
        },
    };
    if !feedback.rotary.enabled {
        return ;
    }
    let before = feedback.rotary;
    let input = match world.res.feedback_input {
        Some(i) => i,
        None => InputFeedbackInput::new(),
    };
    if input.event_seq != feedback.rotary.last_input_seq {
        let mut cleared = InputFeedbackInput::new();
        cleared.event_seq = input.event_seq;
        world.res.feedback_input = Some(cleared);
    }
    let absorbed = absorb(feedback.rotary, input);
    let dt: u32 = match world.res.delta_time_ms {
        Some(d) => if d >= 1 { d } else { 1 },
        None => 16,
    };
    let r2 = physics(absorbed, dt);
    if r2 == before {
        return ;
    }
    feedback.rotary = r2;
    world.res.feedback = Some(feedback);
    let e = match r2.entity {
        Some(e) => e,
        None => {
            return ;
        },
    };
    let rect = match world.res.display {
        Some(d) => if rotary_active(&r2) {
            rotary_track_rect(d.width, d.height)
        } else {
            Rect::zero()
        },
        None => Rect::zero(),
    };
    super::write_overlay_layout(world, e, rect);
    if world.contains(e) {
        world.entities[e.id as usize].dirty = true;
        proof {
            assert(world.entities@ =~= old(world).entities@.update(
                e.id as int,
                crate::ecs::EntityData { dirty: true, ..with_layout(old(world).data(e), rect) },
            ));
        }
    }
}

/// Spec: an entity as the rotary overlay is spawned.
pub open spec fn is_rotary_overlay(d: crate::ecs::EntityData, root: Entity) -> bool {
    &&& d.widget
    &&& d.overlay_rotary
    &&& d.ignore_hit_test
    &&& d.style == Some(Style::absolute_spec(Rect { x: Fixed { raw: 0 }, y: Fixed { raw: 0 }, w: Fixed { raw: 0 }, h: Fixed { raw: 0 } }))
    &&& d.parent == Some(root)
}

/// Spawns the rotary overlay under `root` and records it in the
/// `InputFeedback` resource.
pub fn spawn_overlay_rotary(world: &mut World, root: Entity) -> (e: Entity)
    requires
        old(world).entities@.len() < u32::MAX,
    ensures
        e == crate::ecs::entity_at(old(world).entities@.len() as int),
        final(world).has(e),
        final(world).entities@.len() == old(world).entities@.len() + 1,
        is_rotary_overlay(final(world).data(e), root),
        final(world).res == (Resources {
            feedback: match old(world).res.feedback {
                Some(f) => Some(InputFeedback { rotary: RotaryFeedback { entity: Some(e), ..f.rotary }, ..f }),
                None => None,
            },
            ..old(world).res
        }),
{
    let e = world.spawn();
    let i = e.id as usize;
    world.entities[i].widget = true;
    world.entities[i].overlay_rotary = true;
    world.entities[i].ignore_hit_test = true;
    world.entities[i].style = Some(Style::absolute_at(Rect::zero()));
    world.entities[i].parent = Some(root);
    world.push_child(root, e);
    if let Some(f) = world.res.feedback {
        let mut f2 = f;
        f2.rotary.entity = Some(e);
        world.res.feedback = Some(f2);
    }
    e
}

/// The rotary overlay's view (drawn above regular widgets).
pub fn view() -> (v: WidgetView)
    ensures
        v.priority == 91,
        v.filter is None && v.internal is None && v.attach is None,
{
    WidgetView::new("input_feedback_rotary", 91)
}

} // verus!
