//! Fixed-point numbers and the small geometry types that the input
//! pipeline works with.
//!
//! `Fixed` is a signed Q24.8 number: the value is `raw / 256`. Sums,
//! differences and products wrap around at the `i32` boundary like the
//! integer they are stored in; quotients are taken towards zero.
use vstd::prelude::*;

verus! {

/// Number of fractional bits of [`Fixed`].
pub const FRAC_BITS: u32 = 8;

/// Spec: the `i32` that `x` wraps to.
pub open spec fn wrap32(x: int) -> i32 {
    x as i32
}

/// Spec: the raw value of the product of two Q24.8 raws (floor of the
/// exact product, wrapped to `i32`).
pub open spec fn mul_raw(a: i32, b: i32) -> i32 {
    wrap32((a as int * b as int) / 256)
}

/// Spec: integer division rounding towards zero (Rust's `/`).
pub open spec fn div_trunc(a: int, b: int) -> int
    recommends
        b != 0,
{
    if (a >= 0) == (b > 0) || a == 0 {
        // same sign (or zero numerator): floor == trunc on magnitudes
        if a >= 0 && b > 0 {
            a / b
        } else if a <= 0 && b < 0 {
            (-a) / (-b)
        } else {
            0
        }
    } else if a < 0 {
        -((-a) / b)
    } else {
        -(a / (-b))
    }
}

/// Spec: the raw value of the quotient of two Q24.8 raws.
pub open spec fn div_raw(a: i32, b: i32) -> i32
    recommends
        b != 0,
{
    wrap32(div_trunc(a as int * 256, b as int))
}

/// Spec: absolute value as a mathematical integer.
pub open spec fn abs_int(x: int) -> int {
    if x < 0 {
        -x
    } else {
        x
    }
}

/// Signed Q24.8 fixed-point number.
#[derive(Clone, Copy, Debug, PartialEq, Eq, PartialOrd, Ord, Hash, Default, Structural)]
pub struct Fixed {
    pub raw: i32,
}

/// Signed Q47.16 fixed-point number used where a ratio needs more
/// precision than [`Fixed`] offers (pinch scale deltas).
#[derive(Clone, Copy, Debug, PartialEq, Eq, PartialOrd, Ord, Hash, Default, Structural)]
pub struct Fixed64 {
    pub raw: i64,
}

/// Exact truncating division of 64-bit integers.
pub fn div_i64(a: i64, b: i64) -> (q: i64)
    requires
        b != 0,
        !(a == i64::MIN && b == -1),
    ensures
        q == div_trunc(a as int, b as int),
{
    let wa: i128 = a as i128;
    let wb: i128 = b as i128;
    let r: i128 = if wa >= 0 && wb > 0 {
        wa / wb
    } else if wa <= 0 && wb < 0 {
        (-wa) / (-wb)
    } else if wa < 0 {
        -((-wa) / wb)
    } else if wa == 0 {
        0
    } else {
        -(wa / (-wb))
    };
    proof {
        let ia = a as int;
        let ib = b as int;
        if ia >= 0 && ib > 0 {
            vstd::arithmetic::div_mod::lemma_div_is_ordered_by_denominator(ia, 1, ib);
            vstd::arithmetic::div_mod::lemma_div_basics(ia);
        } else if ia <= 0 && ib < 0 {
            vstd::arithmetic::div_mod::lemma_div_basics(-ia);
            vstd::arithmetic::div_mod::lemma_div_pos_is_pos(-ia, -ib);
            if ib == -1 {
                assert((-ia) / (-ib) == -ia);
            } else {
                vstd::arithmetic::div_mod::lemma_div_is_ordered_by_denominator(-ia, 2, -ib);
                assert((-ia) / 2 <= 0x4000_0000_0000_0000);
            }
        } else if ia < 0 {
            vstd::arithmetic::div_mod::lemma_div_is_ordered_by_denominator(-ia, 1, ib);
            vstd::arithmetic::div_mod::lemma_div_basics(-ia);
            vstd::arithmetic::div_mod::lemma_div_pos_is_pos(-ia, ib);
        } else if ia > 0 {
            vstd::arithmetic::div_mod::lemma_div_is_ordered_by_denominator(ia, 1, -ib);
            vstd::arithmetic::div_mod::lemma_div_basics(ia);
            vstd::arithmetic::div_mod::lemma_div_pos_is_pos(ia, -ib);
        }
    }
    r as i64
}

/// Truncating division of `i32`s (Rust's `/`) by a positive divisor;
/// the quotient is no larger in magnitude than the dividend.
pub fn div_i32(a: i32, b: i32) -> (q: i32)
    requires
        b > 0,
    ensures
        q == div_trunc(a as int, b as int),
        abs_int(q as int) <= abs_int(a as int),
{
    let q = div_i64(a as i64, b as i64);
    proof {
        let ia = a as int;
        let ib = b as int;
        if ia >= 0 {
            vstd::arithmetic::div_mod::lemma_div_is_ordered_by_denominator(ia, 1, ib);
            vstd::arithmetic::div_mod::lemma_div_basics(ia);
            vstd::arithmetic::div_mod::lemma_div_pos_is_pos(ia, ib);
        } else {
            vstd::arithmetic::div_mod::lemma_div_is_ordered_by_denominator(-ia, 1, ib);
            vstd::arithmetic::div_mod::lemma_div_basics(-ia);
            vstd::arithmetic::div_mod::lemma_div_pos_is_pos(-ia, ib);
        }
    }
    q as i32
}

/// Arithmetic shift right by 8 bits, which is floor division by 256.
pub fn shr8_i64(x: i64) -> (r: i64)
    ensures
        r == x / 256,
{
    let r = x >> 8u32;
    assert(r == x / 256) by (bit_vector)
        requires
            r == x >> 8u32,
    ;
    r
}

/// Arithmetic shift right by 16 bits, which is floor division by 65536.
pub fn shr16_i128(x: i128) -> (r: i128)
    ensures
        r == x / 65536,
{
    let r = x >> 16u32;
    assert(r == x / 65536) by (bit_vector)
        requires
            r == x >> 16u32,
    ;
    r
}

proof fn lemma_mul_i32_bounds(a: i32, b: i32)
    ensures
        -0x4000_0000_0000_0000 <= (a as int) * (b as int) <= 0x4000_0000_0000_0000,
{
    assert(-0x4000_0000_0000_0000 <= (a as int) * (b as int) <= 0x4000_0000_0000_0000)
        by (nonlinear_arith)
        requires
            -0x8000_0000 <= a <= 0x7fff_ffff,
            -0x8000_0000 <= b <= 0x7fff_ffff,
    ;
}

impl Fixed {
    pub fn zero() -> (r: Fixed)
        ensures
            r.raw == 0,
    {
        Fixed { raw: 0 }
    }

    pub fn one() -> (r: Fixed)
        ensures
            r.raw == 256,
    {
        Fixed { raw: 256 }
    }

    /// π rounded to the nearest Q24.8 value (804 / 256).
    pub fn pi() -> (r: Fixed)
        ensures
            r.raw == 804,
    {
        Fixed { raw: 804 }
    }

    /// Spec: the value as a rational number scaled by 256.
    pub open spec fn spec_raw(self) -> int {
        self.raw as int
    }

    pub fn from_raw(raw: i32) -> (r: Fixed)
        ensures
            r.raw == raw,
    {
        Fixed { raw }
    }

    pub fn raw(self) -> (r: i32)
        ensures
            r == self.raw,
    {
        self.raw
    }

    /// `v` as a fixed-point number (wraps for `|v| >= 2^23`).
    pub fn from_int(v: i32) -> (r: Fixed)
        ensures
            r.raw == wrap32(v as int * 256),
    {
        let w: i64 = (v as i64) * 256;
        Fixed { raw: w as i32 }
    }

    /// Integer part, rounding towards negative infinity.
    pub fn to_int(self) -> (r: i32)
        ensures
            r == (self.raw as int) / 256,
            -0x80_0000 <= r < 0x80_0000,
    {
        let r = shr8_i64(self.raw as i64);
        r as i32
    }

    pub fn add(self, rhs: Fixed) -> (r: Fixed)
        ensures
            r.raw == wrap32(self.raw + rhs.raw),
    {
        let s: i64 = (self.raw as i64) + (rhs.raw as i64);
        Fixed { raw: s as i32 }
    }

    pub fn sub(self, rhs: Fixed) -> (r: Fixed)
        ensures
            r.raw == wrap32(self.raw - rhs.raw),
    {
        let s: i64 = (self.raw as i64) - (rhs.raw as i64);
        Fixed { raw: s as i32 }
    }

    pub fn neg(self) -> (r: Fixed)
        ensures
            r.raw == wrap32(-self.raw),
    {
        let s: i64 = -(self.raw as i64);
        Fixed { raw: s as i32 }
    }

    pub fn mul(self, rhs: Fixed) -> (r: Fixed)
        ensures
            r.raw == mul_raw(self.raw, rhs.raw),
    {
        proof {
            lemma_mul_i32_bounds(self.raw, rhs.raw);
        }
        let p: i64 = (self.raw as i64) * (rhs.raw as i64);
        let q = shr8_i64(p);
        Fixed { raw: q as i32 }
    }

    /// Multiplication by a plain integer.
    pub fn mul_int(self, k: i32) -> (r: Fixed)
        ensures
            r.raw == wrap32(self.raw * k),
    {
        proof {
            lemma_mul_i32_bounds(self.raw, k);
        }
        let p: i64 = (self.raw as i64) * (k as i64);
        Fixed { raw: p as i32 }
    }

    /// Division by a plain non-zero integer, rounding towards zero.
    pub fn div_int(self, k: i32) -> (r: Fixed)
        requires
            k != 0,
        ensures
            r.raw == wrap32(div_trunc(self.raw as int, k as int)),
    {
        let q = div_i64(self.raw as i64, k as i64);
        Fixed { raw: q as i32 }
    }

    /// `num / den` as a fixed-point number, rounding towards zero.
    pub fn from_ratio(num: i32, den: i32) -> (r: Fixed)
        requires
            den != 0,
        ensures
            r.raw == wrap32(div_trunc(num as int * 256, den as int)),
    {
        let q = div_i64((num as i64) * 256, den as i64);
        Fixed { raw: q as i32 }
    }

    pub fn div(self, rhs: Fixed) -> (r: Fixed)
        requires
            rhs.raw != 0,
        ensures
            r.raw == div_raw(self.raw, rhs.raw),
    {
        let n: i64 = (self.raw as i64) * 256;
        let q = div_i64(n, rhs.raw as i64);
        Fixed { raw: q as i32 }
    }

    pub fn abs(self) -> (r: Fixed)
        ensures
            r.raw == wrap32(abs_int(self.raw as int)),
            self.raw != i32::MIN ==> r.raw == abs_int(self.raw as int),
    {
        if self.raw < 0 {
            self.neg()
        } else {
            self
        }
    }

    pub fn min(self, other: Fixed) -> (r: Fixed)
        ensures
            r.raw == if self.raw <= other.raw { self.raw } else { other.raw },
    {
        if self.raw <= other.raw {
            self
        } else {
            other
        }
    }

    pub fn max(self, other: Fixed) -> (r: Fixed)
        ensures
            r.raw == if self.raw >= other.raw { self.raw } else { other.raw },
    {
        if self.raw >= other.raw {
            self
        } else {
            other
        }
    }

    /// `self` limited to `[lo, hi]`.
    pub fn clamp(self, lo: Fixed, hi: Fixed) -> (r: Fixed)
        requires
            lo.raw <= hi.raw,
        ensures
            r.raw == if self.raw < lo.raw {
                lo.raw
            } else if self.raw > hi.raw {
                hi.raw
            } else {
                self.raw
            },
            lo.raw <= r.raw <= hi.raw,
    {
        if self.raw < lo.raw {
            lo
        } else if self.raw > hi.raw {
            hi
        } else {
            self
        }
    }

    pub fn lt(self, other: Fixed) -> (r: bool)
        ensures
            r == (self.raw < other.raw),
    {
        self.raw < other.raw
    }

    pub fn le(self, other: Fixed) -> (r: bool)
        ensures
            r == (self.raw <= other.raw),
    {
        self.raw <= other.raw
    }

    /// Square root, rounded down; negative inputs give zero.
    pub fn sqrt(self) -> (r: Fixed)
        ensures
            r.raw == sqrt_raw(self.raw),
            self.raw > 0 ==> r.raw >= 0 && (r.raw as int) * (r.raw as int) <= (self.raw as int)
                * 256 < (r.raw as int + 1) * (r.raw as int + 1),
    {
        if self.raw <= 0 {
            return Fixed::zero();
        }
        let n: u64 = (self.raw as u64) * 256;
        let s = isqrt(n);
        proof {
            lemma_floor_sqrt_unique(s as int, n as int);
        }
        Fixed { raw: s as i32 }
    }
}

/// Spec: `r` is the square root of `n`, rounded down.
pub open spec fn is_floor_sqrt(r: int, n: int) -> bool {
    0 <= r && r * r <= n < (r + 1) * (r + 1)
}

/// Spec: raw value of the square root of a Q24.8 raw (zero for
/// non-positive inputs).
pub open spec fn sqrt_raw(raw: i32) -> i32 {
    if raw <= 0 {
        0
    } else {
        (choose|r: int| #[trigger] is_floor_sqrt(r, raw as int * 256)) as i32
    }
}

proof fn lemma_floor_sqrt_unique(r: int, n: int)
    requires
        is_floor_sqrt(r, n),
    ensures
        forall|r2: int| is_floor_sqrt(r2, n) ==> r2 == r,
        (choose|r2: int| is_floor_sqrt(r2, n)) == r,
{
    assert forall|r2: int| is_floor_sqrt(r2, n) implies r2 == r by {
        if r2 < r {
            assert((r2 + 1) * (r2 + 1) <= r * r) by (nonlinear_arith)
                requires
                    0 <= r2 < r,
            ;
        } else if r2 > r {
            assert((r + 1) * (r + 1) <= r2 * r2) by (nonlinear_arith)
                requires
                    0 <= r < r2,
            ;
        }
    }
}

/// Integer square root of `n < 2^40`, rounded down.
pub fn isqrt(n: u64) -> (r: u64)
    requires
        n < 0x100_0000_0000,
    ensures
        r < 0x10_0000,
        (r as int) * (r as int) <= n < (r as int + 1) * (r as int + 1),
{
    let mut lo: u64 = 0;
    let mut hi: u64 = 0x10_0000;
    assert(0x10_0000 * 0x10_0000 == 0x100_0000_0000) by (nonlinear_arith);
    while hi - lo > 1
        invariant
            lo < hi <= 0x10_0000,
            (lo as int) * (lo as int) <= n,
            n < (hi as int) * (hi as int),
        decreases hi - lo,
    {
        let mid = lo + (hi - lo) / 2;
        assert(lo < mid < hi);
        assert((mid as int) * (mid as int) <= 0x100_0000_0000) by (nonlinear_arith)
            requires
                mid <= 0x10_0000,
        ;
        if mid * mid <= n {
            lo = mid;
        } else {
            hi = mid;
        }
    }
    assert(hi == lo + 1);
    lo
}

impl Fixed64 {
    pub fn one() -> (r: Fixed64)
        ensures
            r.raw == 65536,
    {
        Fixed64 { raw: 65536 }
    }

    pub fn from_raw(raw: i64) -> (r: Fixed64)
        ensures
            r.raw == raw,
    {
        Fixed64 { raw }
    }

    /// Integer part, rounding towards negative infinity.
    pub fn to_int(self) -> (r: i64)
        ensures
            r == (self.raw as int) / 65536,
    {
        let r = shr16_i128(self.raw as i128);
        r as i64
    }

    /// Ratio of two fixed-point numbers at 16 fractional bits,
    /// rounding towards zero.
    pub fn ratio(num: Fixed, den: Fixed) -> (r: Fixed64)
        requires
            den.raw != 0,
        ensures
            r.raw == div_trunc(num.raw as int * 65536, den.raw as int),
    {
        let n: i64 = (num.raw as i64) * 65536;
        let q = div_i64(n, den.raw as i64);
        Fixed64 { raw: q }
    }

    /// Product at 16 fractional bits (floor), wrapping at the `i64` boundary.
    pub fn mul(self, rhs: Fixed64) -> (r: Fixed64)
        ensures
            r.raw == ((self.raw as int * rhs.raw as int) / 65536) as i64,
    {
        assert(-0x4000_0000_0000_0000_0000_0000_0000_0000 <= (self.raw as int) * (rhs.raw as int)
            <= 0x4000_0000_0000_0000_0000_0000_0000_0000) by (nonlinear_arith)
            requires
                -0x8000_0000_0000_0000 <= self.raw <= 0x7fff_ffff_ffff_ffff,
                -0x8000_0000_0000_0000 <= rhs.raw <= 0x7fff_ffff_ffff_ffff,
        ;
        let p: i128 = (self.raw as i128) * (rhs.raw as i128);
        let q = shr16_i128(p);
        Fixed64 { raw: q as i64 }
    }

    /// Narrowing to [`Fixed`] (floor, wrapping).
    pub fn to_fixed(self) -> (r: Fixed)
        ensures
            r.raw == wrap32((self.raw as int) / 256),
    {
        let q = shr8_i64(self.raw);
        Fixed { raw: q as i32 }
    }
}

impl vstd::std_specs::ops::AddSpecImpl for Fixed {
    open spec fn obeys_add_spec() -> bool {
        true
    }

    open spec fn add_req(self, rhs: Fixed) -> bool {
        true
    }

    open spec fn add_spec(self, rhs: Fixed) -> Fixed {
        Fixed { raw: wrap32(self.raw + rhs.raw) }
    }
}

impl vstd::std_specs::ops::SubSpecImpl for Fixed {
    open spec fn obeys_sub_spec() -> bool {
        true
    }

    open spec fn sub_req(self, rhs: Fixed) -> bool {
        true
    }

    open spec fn sub_spec(self, rhs: Fixed) -> Fixed {
        Fixed { raw: wrap32(self.raw - rhs.raw) }
    }
}

impl vstd::std_specs::ops::MulSpecImpl for Fixed {
    open spec fn obeys_mul_spec() -> bool {
        true
    }

    open spec fn mul_req(self, rhs: Fixed) -> bool {
        true
    }

    open spec fn mul_spec(self, rhs: Fixed) -> Fixed {
        Fixed { raw: mul_raw(self.raw, rhs.raw) }
    }
}

impl vstd::std_specs::ops::DivSpecImpl for Fixed {
    open spec fn obeys_div_spec() -> bool {
        true
    }

    open spec fn div_req(self, rhs: Fixed) -> bool {
        rhs.raw != 0
    }

    open spec fn div_spec(self, rhs: Fixed) -> Fixed {
        Fixed { raw: div_raw(self.raw, rhs.raw) }
    }
}

impl vstd::std_specs::ops::NegSpecImpl for Fixed {
    open spec fn obeys_neg_spec() -> bool {
        true
    }

    open spec fn neg_req(self) -> bool {
        true
    }

    open spec fn neg_spec(self) -> Fixed {
        Fixed { raw: wrap32(-self.raw) }
    }
}

impl core::ops::Div for Fixed {
    type Output = Fixed;

    fn div(self, rhs: Fixed) -> Fixed {
        Fixed::div(self, rhs)
    }
}

impl core::ops::Add for Fixed {
    type Output = Fixed;

    fn add(self, rhs: Fixed) -> Fixed {
        Fixed::add(self, rhs)
    }
}

impl core::ops::Sub for Fixed {
    type Output = Fixed;

    fn sub(self, rhs: Fixed) -> Fixed {
        Fixed::sub(self, rhs)
    }
}

impl core::ops::Mul for Fixed {
    type Output = Fixed;

    fn mul(self, rhs: Fixed) -> Fixed {
        Fixed::mul(self, rhs)
    }
}

impl core::ops::Neg for Fixed {
    type Output = Fixed;

    fn neg(self) -> Fixed {
        Fixed::neg(self)
    }
}


/// Spec: `a` moved into `(-PI, PI]` by whole turns of the Q24.8 circle
/// (a turn is 1608 raw units, twice [`Fixed::pi`]).
pub open spec fn in_half_turn(r: int) -> bool {
    -804 < r <= 804
}

/// Spec: the representative of angle `a` in `(-PI, PI]`, i.e. `a` plus
/// the whole number of turns that brings it there.
pub open spec fn norm_angle(a: int) -> int {
    (a + 803) % 1608 - 803
}

proof fn lemma_norm_angle_shift(a: int, k: int)
    ensures
        norm_angle(a + k * 1608) == norm_angle(a),
{
    vstd::arithmetic::div_mod::lemma_mod_multiples_vanish(k, a + 803, 1608);
    assert(1608 * k + (a + 803) == (a + k * 1608) + 803) by (nonlinear_arith);
}

pub proof fn lemma_norm_angle_fixed(x: int)
    requires
        in_half_turn(x),
    ensures
        norm_angle(x) == x,
{
    vstd::arithmetic::div_mod::lemma_small_mod((x + 803) as nat, 1608);
}

pub proof fn lemma_norm_angle_props(a: int)
    ensures
        in_half_turn(norm_angle(a)),
        exists|k: int| #[trigger] (k * 1608) == norm_angle(a) - a,
{
    vstd::arithmetic::div_mod::lemma_mod_bound(a + 803, 1608);
    vstd::arithmetic::div_mod::lemma_fundamental_div_mod(a + 803, 1608);
    let q = (a + 803) / 1608;
    assert((-q) * 1608 == norm_angle(a) - a) by (nonlinear_arith)
        requires
            a + 803 == 1608 * q + (a + 803) % 1608,
    ;
}

/// Moves an angle into `(-PI, PI]` by adding or removing whole turns.
pub fn normalize_angle(a: Fixed) -> (r: Fixed)
    ensures
        r.raw == norm_angle(a.raw as int),
        in_half_turn(r.raw as int),
{
    let mut x: i32 = a.raw;
    let ghost mut k: int = 0;
    while x > 804
        invariant
            x as int == a.raw as int + k * 1608,
        decreases x as int + 0x8000_0000,
    {
        x = x - 1608;
        proof {
            k = k - 1;
        }
    }
    while x <= -804
        invariant
            x <= 804,
            x as int == a.raw as int + k * 1608,
        decreases 804 - x,
    {
        x = x + 1608;
        proof {
            k = k + 1;
        }
    }
    proof {
        lemma_norm_angle_fixed(x as int);
        lemma_norm_angle_shift(a.raw as int, k);
    }
    Fixed { raw: x }
}

/// Spec: the arctangent approximation on the unit interval: for
/// `z = tan(t) * 256` with `0 <= z <= 256` it returns `t * 256`
/// using `t ~ (PI/4) z + 0.273 z (1 - z)`.
pub open spec fn atan_unit_spec(z: int) -> int {
    (201 * z) / 256 + (70 * z * (256 - z)) / 65536
}

/// Spec: the angle of the vector `(dx, dy)` in raw Q24.8 radians.
pub open spec fn atan2_spec(dy: int, dx: int) -> int {
    if dx == 0 && dy == 0 {
        0
    } else {
        let ax = abs_int(dx);
        let ay = abs_int(dy);
        let base = if ay <= ax {
            atan_unit_spec((ay * 256) / ax)
        } else {
            402 - atan_unit_spec((ax * 256) / ay)
        };
        let q = if dx < 0 {
            804 - base
        } else {
            base
        };
        if dy < 0 {
            -q
        } else {
            q
        }
    }
}

pub proof fn lemma_atan_unit_bounds(z: int)
    requires
        0 <= z <= 256,
    ensures
        0 <= atan_unit_spec(z) <= 219,
{
    assert(0 <= 201 * z <= 201 * 256) by (nonlinear_arith)
        requires
            0 <= z <= 256,
    ;
    assert(0 <= 70 * z * (256 - z) <= 70 * 256 * 256) by (nonlinear_arith)
        requires
            0 <= z <= 256,
    ;
    assert(70 * z * (256 - z) <= 70 * 128 * 128 + 70) by (nonlinear_arith)
        requires
            0 <= z <= 256,
    ;
    vstd::arithmetic::div_mod::lemma_div_pos_is_pos(201 * z, 256);
    vstd::arithmetic::div_mod::lemma_div_pos_is_pos(70 * z * (256 - z), 65536);
    vstd::arithmetic::div_mod::lemma_div_is_ordered(201 * z, 201int * 256, 256);
    vstd::arithmetic::div_mod::lemma_div_is_ordered(70 * z * (256 - z), 70int * 128 * 128 + 70, 65536);
}

fn atan_unit(z: i64) -> (r: i64)
    requires
        0 <= z <= 256,
    ensures
        r == atan_unit_spec(z as int),
        0 <= r <= 219,
{
    proof {
        lemma_atan_unit_bounds(z as int);
    }
    assert(0 <= 70 * z * (256 - z) <= 70 * 256 * 256) by (nonlinear_arith)
        requires
            0 <= z <= 256,
    ;
    (201 * z) / 256 + (70 * z * (256 - z)) / 65536
}

pub proof fn lemma_ratio_unit(small: int, big: int)
    requires
        0 <= small <= big,
        big > 0,
    ensures
        0 <= (small * 256) / big <= 256,
{
    assert(small * 256 <= big * 256) by (nonlinear_arith)
        requires
            small <= big,
    ;
    vstd::arithmetic::div_mod::lemma_div_pos_is_pos(small * 256, big);
    vstd::arithmetic::div_mod::lemma_div_is_ordered(small * 256, big * 256, big);
    vstd::arithmetic::div_mod::lemma_div_multiples_vanish(256, big);
}

/// Spec: Bhaskara's approximation of `sin` on `[0, PI]`, raw Q24.8 in and out.
pub open spec fn sin_half_spec(x: int) -> int {
    let t = x * (804 - x);
    (16 * t * 256) / (5 * 804 * 804 - 4 * t)
}

/// Spec: the sine approximation for an angle already in `(-PI, PI]`.
pub open spec fn sin_spec(x: int) -> int {
    if x < 0 {
        -sin_half_spec(-x)
    } else {
        sin_half_spec(x)
    }
}

proof fn lemma_sin_half_bounds(x: int)
    requires
        0 <= x <= 804,
    ensures
        0 <= sin_half_spec(x) <= 256,
        5 * 804 * 804 - 4 * (x * (804 - x)) > 0,
{
    let t = x * (804 - x);
    assert(0 <= t <= 402 * 402) by (nonlinear_arith)
        requires
            0 <= x <= 804,
            t == x * (804 - x),
    ;
    let den = 5 * 804 * 804 - 4 * t;
    let num = 16 * t * 256;
    assert(den >= 4 * 402 * 402);
    assert(num <= den * 256);
    vstd::arithmetic::div_mod::lemma_div_pos_is_pos(num, den);
    vstd::arithmetic::div_mod::lemma_div_is_ordered(num, den * 256, den);
    vstd::arithmetic::div_mod::lemma_div_multiples_vanish(256, den);
}

fn sin_half(x: i64) -> (r: i64)
    requires
        0 <= x <= 804,
    ensures
        r == sin_half_spec(x as int),
        0 <= r <= 256,
{
    proof {
        lemma_sin_half_bounds(x as int);
    }
    let t: i64 = x * (804 - x);
    assert(0 <= t <= 402 * 402) by (nonlinear_arith)
        requires
            0 <= x <= 804,
            t == x * (804 - x),
    ;
    (16 * t * 256) / (5 * 804 * 804 - 4 * t)
}

impl Fixed {
    /// Angle of the vector `(dx, dy)` in radians, in `[-PI, PI]`.
    /// Approximates `atan2` to within about half a degree.
    pub fn atan2(dy: Fixed, dx: Fixed) -> (r: Fixed)
        ensures
            r.raw == atan2_spec(dy.raw as int, dx.raw as int),
            -804 <= r.raw <= 804,
            dy.raw > 0 ==> r.raw >= 0,
            dy.raw < 0 ==> r.raw <= 0,
            dy.raw == 0 && dx.raw >= 0 ==> r.raw == 0,
            dy.raw == 0 && dx.raw < 0 ==> r.raw == 804,
    {
        if dx.raw == 0 && dy.raw == 0 {
            return Fixed { raw: 0 };
        }
        let ax: i64 = if dx.raw < 0 { -(dx.raw as i64) } else { dx.raw as i64 };
        let ay: i64 = if dy.raw < 0 { -(dy.raw as i64) } else { dy.raw as i64 };
        let base: i64 = if ay <= ax {
            proof {
                lemma_ratio_unit(ay as int, ax as int);
            }
            atan_unit((ay * 256) / ax)
        } else {
            proof {
                lemma_ratio_unit(ax as int, ay as int);
            }
            402 - atan_unit((ax * 256) / ay)
        };
        let q: i64 = if dx.raw < 0 { 804 - base } else { base };
        let r: i64 = if dy.raw < 0 { -q } else { q };
        proof {
            if dy.raw == 0 && dx.raw < 0 {
                assert(ay == 0);
                assert((0int * 256) / (ax as int) == 0);
            }
            if dy.raw == 0 && dx.raw > 0 {
                assert((0int * 256) / (ax as int) == 0);
            }
        }
        Fixed { raw: r as i32 }
    }

    /// Sine of an angle in radians, in `[-1, 1]`.
    pub fn sin_rad(a: Fixed) -> (r: Fixed)
        ensures
            r.raw == sin_spec(norm_angle(a.raw as int)),
            -256 <= r.raw <= 256,
    {
        let n = normalize_angle(a);
        let x: i64 = n.raw as i64;
        let s: i64 = if x < 0 { -sin_half(-x) } else { sin_half(x) };
        Fixed { raw: s as i32 }
    }

    /// Cosine of an angle in radians, in `[-1, 1]`: the sine a quarter
    /// turn further on.
    pub fn cos_rad(a: Fixed) -> (r: Fixed)
        ensures
            r.raw == sin_spec(norm_angle(a.raw as int + 402)),
            -256 <= r.raw <= 256,
    {
        let n = normalize_angle(a);
        let shifted = Fixed { raw: n.raw + 402 };
        let r = Fixed::sin_rad(shifted);
        proof {
            lemma_norm_angle_props(a.raw as int);
            let k = choose|k: int| #[trigger] (k * 1608) == norm_angle(a.raw as int) - a.raw as int;
            lemma_norm_angle_shift(a.raw as int + 402, k);
            assert(shifted.raw as int == (a.raw as int + 402) + k * 1608);
        }
        r
    }
}

/// Axis-aligned rectangle in logical pixels.
#[derive(Clone, Copy, Debug, PartialEq, Eq, Hash, Default, Structural)]
pub struct Rect {
    pub x: Fixed,
    pub y: Fixed,
    pub w: Fixed,
    pub h: Fixed,
}

/// Point in logical pixels.
#[derive(Clone, Copy, Debug, PartialEq, Eq, Hash, Default, Structural)]
pub struct Point {
    pub x: Fixed,
    pub y: Fixed,
}

impl Rect {
    /// Rectangle from whole-pixel coordinates.
    pub fn new(x: i32, y: i32, w: i32, h: i32) -> (r: Rect)
        ensures
            r.x.raw == wrap32(x * 256),
            r.y.raw == wrap32(y * 256),
            r.w.raw == wrap32(w * 256),
            r.h.raw == wrap32(h * 256),
    {
        Rect {
            x: Fixed::from_int(x),
            y: Fixed::from_int(y),
            w: Fixed::from_int(w),
            h: Fixed::from_int(h),
        }
    }

    pub fn zero() -> (r: Rect)
        ensures
            r.x.raw == 0 && r.y.raw == 0 && r.w.raw == 0 && r.h.raw == 0,
    {
        Rect { x: Fixed::zero(), y: Fixed::zero(), w: Fixed::zero(), h: Fixed::zero() }
    }

    /// Spec: the half-open rectangle `[x, x + w) x [y, y + h)` holds `(px, py)`.
    pub open spec fn spec_contains(self, px: Fixed, py: Fixed) -> bool {
        &&& px.raw >= self.x.raw
        &&& px.raw < wrap32(self.x.raw + self.w.raw)
        &&& py.raw >= self.y.raw
        &&& py.raw < wrap32(self.y.raw + self.h.raw)
    }

    pub fn contains(&self, px: Fixed, py: Fixed) -> (r: bool)
        ensures
            r == self.spec_contains(px, py),
    {
        px.raw >= self.x.raw && px.raw < self.x.add(self.w).raw && py.raw >= self.y.raw
            && py.raw < self.y.add(self.h).raw
    }
}

/// A length that is either absolute or relative to a parent size.
#[derive(Clone, Copy, Debug, PartialEq, Eq, Structural)]
pub enum Dimension {
    /// Logical pixels.
    Px(Fixed),
    /// Percent of the parent's size (`Fixed` percent, 100 = whole).
    Percent(Fixed),
    /// Left to the layout, which sizes the box from its content; it has
    /// no length of its own, so it resolves to zero.
    Auto,
}

/// Spec: the length a [`Dimension`] stands for inside `parent`.
pub open spec fn dimension_len(d: Dimension, parent: Fixed) -> i32 {
    match d {
        Dimension::Px(v) => v.raw,
        Dimension::Percent(p) => div_raw(mul_raw(parent.raw, p.raw), 25600),
        Dimension::Auto => 0,
    }
}

impl Dimension {
    pub fn px(v: i32) -> (r: Dimension)
        ensures
            r == Dimension::Px(Fixed { raw: wrap32(v * 256) }),
    {
        Dimension::Px(Fixed::from_int(v))
    }

    pub fn percent(v: i32) -> (r: Dimension)
        ensures
            r == Dimension::Percent(Fixed { raw: wrap32(v * 256) }),
    {
        Dimension::Percent(Fixed::from_int(v))
    }

    /// The length this dimension stands for inside a parent of size `parent`.
    pub fn resolve(self, parent: Fixed) -> (r: Fixed)
        ensures
            r.raw == dimension_len(self, parent),
    {
        match self {
            Dimension::Px(v) => v,
            Dimension::Percent(p) => parent.mul(p).div(Fixed { raw: 25600 }),
            Dimension::Auto => Fixed::zero(),
        }
    }
}

/// A point whose coordinates may be relative to a rectangle.
#[derive(Clone, Copy, Debug, PartialEq, Eq, Structural)]
pub struct DimPoint {
    pub x: Dimension,
    pub y: Dimension,
}

impl DimPoint {
    /// The centre of the reference rectangle (50%, 50%).
    pub fn center() -> (r: DimPoint)
        ensures
            r.x == Dimension::Percent(Fixed { raw: 12800i32 }),
            r.y == Dimension::Percent(Fixed { raw: 12800i32 }),
    {
        DimPoint { x: Dimension::percent(50), y: Dimension::percent(50) }
    }

    pub fn px(x: i32, y: i32) -> (r: DimPoint)
        ensures
            r.x == Dimension::Px(Fixed { raw: wrap32(x * 256) }),
            r.y == Dimension::Px(Fixed { raw: wrap32(y * 256) }),
    {
        DimPoint { x: Dimension::px(x), y: Dimension::px(y) }
    }

    pub fn from_point(p: Point) -> (r: DimPoint)
        ensures
            r.x == Dimension::Px(p.x),
            r.y == Dimension::Px(p.y),
    {
        DimPoint { x: Dimension::Px(p.x), y: Dimension::Px(p.y) }
    }

    pub fn from_dims(x: Dimension, y: Dimension) -> (r: DimPoint)
        ensures
            r.x == x && r.y == y,
    {
        DimPoint { x, y }
    }

    /// Offsets of this point inside a `w` x `h` rectangle.
    pub fn resolve(self, w: Fixed, h: Fixed) -> (r: (Fixed, Fixed))
        ensures
            r.0.raw == dimension_len(self.x, w),
            r.1.raw == dimension_len(self.y, h),
    {
        (self.x.resolve(w), self.y.resolve(h))
    }
}

/// One step of a widget's 3D transform.
#[derive(Clone, Copy, Debug, PartialEq, Eq, Structural)]
pub enum TransformStep {
    /// Rotation by `angle_deg` degrees about the vertical axis, seen in
    /// perspective from `distance` pixels away.
    RotateYPerspective { angle_deg: Fixed, distance: Fixed },
    /// Rotation by `angle_deg` degrees about the horizontal axis, seen in
    /// perspective from `distance` pixels away.
    RotateXPerspective { angle_deg: Fixed, distance: Fixed },
    Scale { sx: Fixed, sy: Fixed },
    Translate { tx: Fixed, ty: Fixed },
}

/// A widget's 3D transform, kept as the steps that make it up, outermost
/// first; the renderer turns it into a projection matrix when it draws.
#[derive(Debug, PartialEq, Eq)]
pub struct Transform3D {
    pub steps: Vec<TransformStep>,
}

impl Transform3D {
    /// The transform that leaves a widget as it is.
    pub fn identity() -> (t: Transform3D)
        ensures
            t.steps@ == Seq::<TransformStep>::empty(),
    {
        Transform3D { steps: Vec::new() }
    }

    fn single(step: TransformStep) -> (t: Transform3D)
        ensures
            t.steps@ == seq![step],
    {
        let mut steps: Vec<TransformStep> = Vec::new();
        steps.push(step);
        Transform3D { steps }
    }

    pub fn rotate_y_perspective(angle_deg: Fixed, distance: Fixed) -> (t: Transform3D)
        ensures
            t.steps@ == seq![TransformStep::RotateYPerspective { angle_deg, distance }],
    {
        Transform3D::single(TransformStep::RotateYPerspective { angle_deg, distance })
    }

    pub fn rotate_x_perspective(angle_deg: Fixed, distance: Fixed) -> (t: Transform3D)
        ensures
            t.steps@ == seq![TransformStep::RotateXPerspective { angle_deg, distance }],
    {
        Transform3D::single(TransformStep::RotateXPerspective { angle_deg, distance })
    }

    pub fn scale(sx: Fixed, sy: Fixed) -> (t: Transform3D)
        ensures
            t.steps@ == seq![TransformStep::Scale { sx, sy }],
    {
        Transform3D::single(TransformStep::Scale { sx, sy })
    }

    pub fn translate(tx: Fixed, ty: Fixed) -> (t: Transform3D)
        ensures
            t.steps@ == seq![TransformStep::Translate { tx, ty }],
    {
        Transform3D::single(TransformStep::Translate { tx, ty })
    }

    /// `self` applied on top of `other`.
    pub fn compose(self, other: Transform3D) -> (t: Transform3D)
        ensures
            t.steps@ == self.steps@ + other.steps@,
    {
        let mut steps = self.steps;
        let mut rest = other.steps;
        steps.append(&mut rest);
        Transform3D { steps }
    }
}

} // verus!
