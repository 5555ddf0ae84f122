//! Easing curves and a critically-damped-style spring used for scroll
//! inertia and simulated gestures.
use vstd::prelude::*;

use crate::types::{abs_int, div_trunc, mul_raw, wrap32, Fixed};

verus! {

/// Easing curve mapping progress `t` in `[0, 1]` to eased progress.
#[derive(Clone, Copy, Debug, PartialEq, Eq, Structural)]
pub enum Ease {
    Linear,
    EaseInCubic,
    EaseOutCubic,
    EaseInOutCubic,
}

/// Spec: `t^3` in Q24.8 (each product floored).
pub open spec fn cube_raw(t: i32) -> i32 {
    mul_raw(mul_raw(t, t), t)
}

/// Spec: the eased value of `t` (raw Q24.8).
pub open spec fn ease_spec(e: Ease, t: i32) -> i32 {
    match e {
        Ease::Linear => t,
        Ease::EaseInCubic => cube_raw(t),
        Ease::EaseOutCubic => {
            let u = wrap32(256 - t);
            wrap32(256 - cube_raw(u))
        },
        Ease::EaseInOutCubic => if t < 128 {
            wrap32(cube_raw(t) * 4)
        } else {
            let u = wrap32(512 - wrap32(t * 2));
            wrap32(256 - wrap32(div_trunc(cube_raw(u) as int, 2)))
        },
    }
}

impl Ease {
    pub fn apply(self, t: Fixed) -> (r: Fixed)
        ensures
            r.raw == ease_spec(self, t.raw),
    {
        match self {
            Ease::Linear => t,
            Ease::EaseInCubic => t.mul(t).mul(t),
            Ease::EaseOutCubic => {
                let u = Fixed::one().sub(t);
                Fixed::one().sub(u.mul(u).mul(u))
            },
            Ease::EaseInOutCubic => {
                if t.raw < 128 {
                    t.mul(t).mul(t).mul_int(4)
                } else {
                    let u = Fixed::from_int(2).sub(t.mul_int(2));
                    Fixed::one().sub(u.mul(u).mul(u).div_int(2))
                }
            },
        }
    }
}

/// `linear(t) = t`.
pub fn linear(t: Fixed) -> (r: Fixed)
    ensures
        r == t,
{
    t
}

/// Cubic ease-in-out: slow start, fast middle, slow end.
pub fn ease_in_out_cubic(t: Fixed) -> (r: Fixed)
    ensures
        r.raw == ease_spec(Ease::EaseInOutCubic, t.raw),
{
    Ease::EaseInOutCubic.apply(t)
}

/// Spring constants: stiffness (1/s^2) and damping (1/s).
#[derive(Clone, Copy, Debug, PartialEq, Eq, Structural)]
pub struct SpringPreset {
    pub stiffness: i32,
    pub damping: i32,
}

/// Soft, non-oscillating settle used for scroll flings.
pub open spec fn smooth_spec() -> SpringPreset {
    SpringPreset { stiffness: 120, damping: 22 }
}

/// Stiffer, slightly oscillating settle used for edge bounce-back.
pub open spec fn bouncy_spec() -> SpringPreset {
    SpringPreset { stiffness: 180, damping: 14 }
}

pub fn smooth() -> (p: SpringPreset)
    ensures
        p == smooth_spec(),
{
    SpringPreset { stiffness: 120, damping: 22 }
}

pub fn bouncy() -> (p: SpringPreset)
    ensures
        p == bouncy_spec(),
{
    SpringPreset { stiffness: 180, damping: 14 }
}

/// A one-dimensional spring: `value` is pulled towards `target`.
/// `velocity` is in units per second.
#[derive(Clone, Copy, Debug, PartialEq, Eq, Structural)]
pub struct Spring {
    pub value: Fixed,
    pub target: Fixed,
    pub velocity: Fixed,
    pub preset: SpringPreset,
}

/// Spec: the step length of a tick of `dt_ms` milliseconds, in seconds.
pub open spec fn dt_seconds(dt_ms: u32) -> i32 {
    wrap32(div_trunc(wrap32(dt_ms as i32 as int * 256) as int, 1000))
}

/// Spec: the spring after one semi-implicit Euler step of `dt_ms`.
pub open spec fn tick_spec(s: Spring, dt_ms: u32) -> Spring {
    let dt = dt_seconds(dt_ms);
    let pull = wrap32(wrap32(s.target.raw - s.value.raw) as int * s.preset.stiffness as int);
    let drag = wrap32(s.velocity.raw as int * s.preset.damping as int);
    let accel = wrap32(pull - drag);
    let v = wrap32(s.velocity.raw + mul_raw(accel, dt));
    let x = wrap32(s.value.raw + mul_raw(v, dt));
    Spring { value: Fixed { raw: x }, velocity: Fixed { raw: v }, ..s }
}

/// Spec: close enough to rest (both speed and distance under one unit).
pub open spec fn settled_spec(s: Spring) -> bool {
    wrap32(abs_int(s.velocity.raw as int)) < 256 && wrap32(abs_int(wrap32(s.target.raw - s.value.raw) as int)) < 256
}

impl Spring {
    /// A spring at rest at `from`, pulled towards `to`.
    pub fn preset(from: Fixed, to: Fixed, preset: SpringPreset) -> (s: Spring)
        ensures
            s == (Spring { value: from, target: to, velocity: Fixed { raw: 0 }, preset }),
    {
        Spring { value: from, target: to, velocity: Fixed::zero(), preset }
    }

    pub fn with_velocity(self, v: Fixed) -> (s: Spring)
        ensures
            s == (Spring { velocity: v, ..self }),
    {
        Spring { velocity: v, ..self }
    }

    pub fn value(&self) -> (v: Fixed)
        ensures
            v == self.value,
    {
        self.value
    }

    pub fn tick(&mut self, dt_ms: u32)
        ensures
            *final(self) == tick_spec(*old(self), dt_ms),
    {
        let dt = Fixed::from_int(dt_ms as i32).div_int(1000);
        let pull = self.target.sub(self.value).mul_int(self.preset.stiffness);
        let drag = self.velocity.mul_int(self.preset.damping);
        let accel = pull.sub(drag);
        let v = self.velocity.add(accel.mul(dt));
        let x = self.value.add(v.mul(dt));
        self.velocity = v;
        self.value = x;
    }

    /// New resting point, optionally with new constants.
    pub fn retarget(&mut self, target: Fixed, preset: Option<SpringPreset>)
        ensures
            final(self).target == target,
            final(self).value == old(self).value,
            final(self).velocity == old(self).velocity,
            final(self).preset == match preset {
                Some(p) => p,
                None => old(self).preset,
            },
    {
        self.target = target;
        if let Some(p) = preset {
            self.preset = p;
        }
    }

    pub fn is_settled(&self) -> (r: bool)
        ensures
            r == settled_spec(*self),
    {
        self.velocity.abs().raw < 256 && self.target.sub(self.value).abs().raw < 256
    }
}

} // verus!
