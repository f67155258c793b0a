//! Single-precision values carried by their bit pattern.
//!
//! Sizes and colours reach this crate as IEEE-754 singles that it lays out,
//! compares and hands on, but never adds or multiplies. The bit pattern is all
//! that needs, and its order is exact.

use vstd::prelude::*;
use vstd::arithmetic::power2::*;

verus! {

/// Magnitude of the infinities: every larger magnitude is a NaN.
pub const INFINITE_MAGNITUDE: u32 = 0x7f80_0000;

/// Weight of the sign bit.
pub const SIGN_BIT: u32 = 0x8000_0000;

/// An IEEE-754 single, as its bit pattern.
#[derive(Clone, Copy, Debug, PartialEq, Eq, Structural)]
pub struct F32 {
    pub bits: u32,
}

/// The pattern of `1.0`.
pub const ONE_BITS: u32 = 0x3f80_0000;

impl F32 {
    /// `0.0`.
    pub open spec fn zero_value() -> F32 {
        F32 { bits: 0 }
    }

    /// `1.0`.
    pub open spec fn one_value() -> F32 {
        F32 { bits: ONE_BITS }
    }

    /// `0.0`.
    #[verifier::when_used_as_spec(zero_value)]
    pub fn zero() -> (value: F32)
        ensures
            value == F32::zero_value(),
    {
        F32 { bits: 0 }
    }

    /// `1.0`.
    #[verifier::when_used_as_spec(one_value)]
    pub fn one() -> (value: F32)
        ensures
            value == F32::one_value(),
    {
        F32 { bits: ONE_BITS }
    }

    /// The pattern without its sign bit.
    pub open spec fn magnitude(self) -> int {
        if self.bits >= SIGN_BIT {
            self.bits - SIGN_BIT
        } else {
            self.bits as int
        }
    }

    /// Neither a number nor an infinity.
    pub open spec fn nan(self) -> bool {
        self.magnitude() > INFINITE_MAGNITUDE
    }

    /// A number, not an infinity.
    pub open spec fn finite(self) -> bool {
        self.magnitude() < INFINITE_MAGNITUDE
    }

    /// Where the value stands in the order of the singles. The two zeroes
    /// stand in the same place; a NaN stands nowhere, so see [`Self::below`].
    pub open spec fn rank(self) -> int {
        if self.bits >= SIGN_BIT {
            -self.magnitude()
        } else {
            self.magnitude()
        }
    }

    /// `self < other`, which no NaN is part of.
    pub open spec fn below(self, other: F32) -> bool {
        &&& !self.nan()
        &&& !other.nan()
        &&& self.rank() < other.rank()
    }

    /// `self <= other`, which no NaN is part of.
    pub open spec fn at_most(self, other: F32) -> bool {
        &&& !self.nan()
        &&& !other.nan()
        &&& self.rank() <= other.rank()
    }

    /// Whether the value is a NaN.
    pub fn is_nan(self) -> (answer: bool)
        ensures
            answer == self.nan(),
    {
        if self.bits >= SIGN_BIT {
            self.bits - SIGN_BIT > INFINITE_MAGNITUDE
        } else {
            self.bits > INFINITE_MAGNITUDE
        }
    }

    /// Whether the value is a number, neither infinite nor NaN.
    pub fn is_finite(self) -> (answer: bool)
        ensures
            answer == self.finite(),
    {
        if self.bits >= SIGN_BIT {
            self.bits - SIGN_BIT < INFINITE_MAGNITUDE
        } else {
            self.bits < INFINITE_MAGNITUDE
        }
    }

    /// The rank as a machine integer.
    fn order(self) -> (rank: i64)
        ensures
            rank == self.rank(),
    {
        if self.bits >= SIGN_BIT {
            SIGN_BIT as i64 - self.bits as i64
        } else {
            self.bits as i64
        }
    }

    /// `self < other`.
    pub fn is_below(self, other: F32) -> (answer: bool)
        ensures
            answer == self.below(other),
    {
        !self.is_nan() && !other.is_nan() && self.order() < other.order()
    }

    /// `self <= other`.
    pub fn is_at_most(self, other: F32) -> (answer: bool)
        ensures
            answer == self.at_most(other),
    {
        !self.is_nan() && !other.is_nan() && self.order() <= other.order()
    }
}

/// Weight of the lowest exponent bit.
pub const EXPONENT_UNIT: u32 = 0x80_0000;

/// Exponent field of a quarter.
pub const QUARTER_EXPONENT: u32 = 125;

impl F32 {
    /// The value is `n` quarters exactly: its significand, shifted by its
    /// exponent, is that number of quarters.
    pub open spec fn is_quarters(self, n: int) -> bool {
        if n == 0 {
            self == F32::zero()
        } else {
            let shift = self.bits as int / EXPONENT_UNIT as int - QUARTER_EXPONENT;
            let significand = EXPONENT_UNIT + self.bits as int % EXPONENT_UNIT as int;
            &&& 0 <= shift <= 23
            &&& significand * pow2(shift as nat) == n * pow2(23)
        }
    }

    /// `n` quarters.
    pub fn from_quarters(n: u32) -> (value: F32)
        requires
            n < 2 * EXPONENT_UNIT,
        ensures
            value.is_quarters(n as int),
    {
        if n == 0 {
            return F32::zero();
        }
        let mut significand: u32 = n;
        let mut shift: u32 = 23;
        proof {
            lemma2_to64();
        }
        while significand < EXPONENT_UNIT
            invariant
                0 < n < 2 * EXPONENT_UNIT,
                0 < significand < 2 * EXPONENT_UNIT,
                shift <= 23,
                significand * pow2(shift as nat) == n * pow2(23),
                significand >= pow2((23 - shift) as nat),
                pow2(23) == EXPONENT_UNIT,
            decreases shift,
        {
            proof {
                if shift == 0 {
                    assert(significand >= EXPONENT_UNIT);
                }
                lemma_pow2_unfold(shift as nat);
                lemma_pow2_unfold((24 - shift) as nat);
                let half = pow2((shift - 1) as nat) as int;
                assert((2 * significand) * half == significand * (2 * half)) by (nonlinear_arith);
            }
            significand = 2 * significand;
            shift = shift - 1;
        }
        let bits: u32 = (shift + QUARTER_EXPONENT) * EXPONENT_UNIT + (significand - EXPONENT_UNIT);
        F32 { bits }
    }
}

/// A number of quarters is at most one single.
pub proof fn law_quarters_are_one_single(a: F32, b: F32, n: int)
    requires
        a.is_quarters(n),
        b.is_quarters(n),
    ensures
        a == b,
{
    if n != 0 {
        let unit = EXPONENT_UNIT as int;
        let shift_a = a.bits as int / unit - QUARTER_EXPONENT;
        let shift_b = b.bits as int / unit - QUARTER_EXPONENT;
        let one = unit + a.bits as int % unit;
        let other = unit + b.bits as int % unit;
        if shift_a < shift_b {
            lemma_shifts_order(one, shift_a as nat, other, shift_b as nat);
        } else if shift_b < shift_a {
            lemma_shifts_order(other, shift_b as nat, one, shift_a as nat);
        } else {
            lemma_pow2_pos(shift_a as nat);
            let power = pow2(shift_a as nat) as int;
            assert(one == other) by (nonlinear_arith)
                requires
                    one * power == other * power,
                    power > 0,
            ;
        }
    }
}

/// A significand of full length weighs more at a larger shift than any at a
/// smaller one.
proof fn lemma_shifts_order(low: int, less: nat, high: int, more: nat)
    requires
        low < 2 * EXPONENT_UNIT,
        high >= EXPONENT_UNIT,
        less < more,
    ensures
        low * pow2(less) < high * pow2(more),
{
    let gap = (more - less) as nat;
    lemma_pow2_adds(less, gap);
    lemma_pow2_unfold(gap);
    lemma_pow2_pos(less);
    lemma_pow2_pos((gap - 1) as nat);
    let power = pow2(less) as int;
    let step = pow2(gap) as int;
    assert(high * step >= 2 * high) by (nonlinear_arith)
        requires
            step >= 2,
            high >= 0,
    ;
    assert(low * power < high * (power * step)) by (nonlinear_arith)
        requires
            low < high * step,
            power > 0,
    ;
}

/// Exponent field of the least magnitude that is measured in units.
pub const LEAST_EXPONENT: u32 = 122;

/// Exponent field from which on every magnitude is whole.
pub const WHOLE_EXPONENT: u32 = 150;

/// The pattern of the step from one to the next single.
pub const EPSILON_BITS: u32 = 0x3400_0000;

/// A magnitude in units of 2 to the power of -28: its significand, shifted by its
/// exponent.
pub open spec fn units(magnitude: int) -> int {
    (EXPONENT_UNIT + magnitude % EXPONENT_UNIT as int) * pow2(
        (magnitude / EXPONENT_UNIT as int - LEAST_EXPONENT) as nat,
    )
}

/// A magnitude that is measured in units.
pub open spec fn measured(magnitude: int) -> bool {
    LEAST_EXPONENT <= magnitude / (EXPONENT_UNIT as int) < WHOLE_EXPONENT
}

/// Whether a magnitude is measured in units.
pub fn is_measured(magnitude: u32) -> (answer: bool)
    ensures
        answer == measured(magnitude as int),
{
    let exponent: u32 = magnitude / EXPONENT_UNIT;
    LEAST_EXPONENT <= exponent && exponent < WHOLE_EXPONENT
}

/// A magnitude in units.
pub fn to_units(magnitude: u32) -> (count: u64)
    requires
        measured(magnitude as int),
    ensures
        count == units(magnitude as int),
        0 < count < 0x10_0000_0000_0000,
{
    let exponent: u32 = magnitude / EXPONENT_UNIT;
    let steps: u32 = exponent - LEAST_EXPONENT;
    let mut count: u64 = (EXPONENT_UNIT + magnitude % EXPONENT_UNIT) as u64;
    let mut done: u32 = 0;
    let ghost significand = count as int;
    proof {
        lemma2_to64();
    }
    while done < steps
        invariant
            done <= steps <= 27,
            0 < significand < 0x100_0000,
            count == significand * pow2(done as nat),
            count < 0x100_0000 * pow2(done as nat),
        decreases steps - done,
    {
        proof {
            lemma_pow2_unfold((done + 1) as nat);
            lemma2_to64();
            if done < 27 {
                lemma_pow2_strictly_increases(done as nat, 27);
            }
            let power = pow2(done as nat) as int;
            assert(2 * (significand * power) == significand * (2 * power)) by (nonlinear_arith);
        }
        count = 2 * count;
        done = done + 1;
    }
    proof {
        lemma2_to64();
        if steps < 27 {
            lemma_pow2_strictly_increases(steps as nat, 27);
        }
        lemma_pow2_pos(steps as nat);
        let power = pow2(steps as nat) as int;
        assert(significand * power > 0) by (nonlinear_arith)
            requires
                significand > 0,
                power > 0,
        ;
    }
    count
}

impl F32 {
    /// The value in units of the least single above zero, which every number is a
    /// whole number of.
    pub open spec fn scaled(self) -> int {
        let exponent = self.magnitude() / EXPONENT_UNIT as int;
        let fraction = self.magnitude() % EXPONENT_UNIT as int;
        let size = if exponent == 0 {
            fraction
        } else {
            (EXPONENT_UNIT + fraction) * pow2((exponent - 1) as nat)
        };
        if self.bits >= SIGN_BIT {
            -size
        } else {
            size
        }
    }

    /// The value is further from `n` quarters than the step from one to the next
    /// single. An infinity always is, a NaN never.
    pub open spec fn departs(self, n: int) -> bool {
        if self.finite() {
            let gap = self.scaled() - n * pow2(147);
            gap > pow2(126) || -gap > pow2(126)
        } else {
            !self.nan()
        }
    }

    /// Whether the value is further from `n` quarters than the step from one to
    /// the next single.
    pub fn departs_from(self, n: u32) -> (answer: bool)
        requires
            n < 2 * EXPONENT_UNIT,
        ensures
            answer == self.departs(n as int),
    {
        if !self.is_finite() {
            return !self.is_nan();
        }
        let negative = self.bits >= SIGN_BIT;
        let magnitude: u32 = if negative { self.bits - SIGN_BIT } else { self.bits };
        let exponent: u32 = magnitude / EXPONENT_UNIT;
        if exponent < LEAST_EXPONENT {
            proof {
                lemma_small(self, n as int);
            }
            return n > 0 || magnitude > EPSILON_BITS;
        }
        if negative || exponent >= WHOLE_EXPONENT {
            proof {
                lemma_far(self, n as int);
            }
            return true;
        }
        let count: u64 = to_units(magnitude);
        let target: u64 = n as u64 * 0x400_0000;
        proof {
            lemma_near(self, n as int);
        }
        if count >= target {
            count - target > 32
        } else {
            target - count > 32
        }
    }
}

/// A significand of an exponent field, between powers of two.
proof fn lemma_significand(significand: int, exponent: nat)
    requires
        EXPONENT_UNIT <= significand < 2 * EXPONENT_UNIT,
    ensures
        pow2(exponent + 23) <= significand * pow2(exponent) < pow2(exponent + 24),
{
    lemma2_to64();
    lemma_pow2_adds(exponent, 23);
    lemma_pow2_adds(exponent, 24);
    lemma_pow2_pos(exponent);
    let power = pow2(exponent) as int;
    assert(0x80_0000 * power <= significand * power < 0x100_0000 * power) by (nonlinear_arith)
        requires
            0x80_0000 <= significand < 0x100_0000,
            power > 0,
    ;
}

proof fn lemma_pow2_ordered(a: nat, b: nat)
    requires
        a <= b,
    ensures
        pow2(a) <= pow2(b),
{
    if a < b {
        lemma_pow2_strictly_increases(a, b);
    }
}

/// Next to nothing: far from any quarter but none at all, from which it departs
/// past the least step.
proof fn lemma_small(value: F32, n: int)
    requires
        value.finite(),
        n >= 0,
        value.magnitude() / (EXPONENT_UNIT as int) < LEAST_EXPONENT,
    ensures
        value.departs(n) <==> (n > 0 || value.magnitude() > EPSILON_BITS),
{
    let exponent = value.magnitude() / EXPONENT_UNIT as int;
    let fraction = value.magnitude() % EXPONENT_UNIT as int;
    let size = if value.bits >= SIGN_BIT {
        -value.scaled()
    } else {
        value.scaled()
    };
    lemma2_to64();
    lemma_pow2_strictly_increases(24, 126);
    if exponent > 0 {
        lemma_significand(EXPONENT_UNIT + fraction, (exponent - 1) as nat);
        lemma_pow2_ordered((exponent - 1 + 24) as nat, 144);
        if exponent < 104 {
            lemma_pow2_ordered((exponent - 1 + 24) as nat, 126);
        } else if exponent > 104 {
            lemma_pow2_strictly_increases(126, (exponent - 1 + 23) as nat);
        } else {
            lemma_pow2_adds(103, 23);
            lemma_pow2_pos(103);
            let power = pow2(103) as int;
            assert((EXPONENT_UNIT + fraction) * power > EXPONENT_UNIT * power <==> fraction > 0)
                by (nonlinear_arith)
                requires
                    power > 0,
            ;
        }
    } else {
        lemma_pow2_strictly_increases(24, 144);
    }
    if n > 0 {
        lemma_pow2_strictly_increases(126, 144);
        lemma_pow2_unfold(147);
        lemma_pow2_unfold(146);
        lemma_pow2_unfold(145);
        let quarter = pow2(147) as int;
        assert(n * quarter >= quarter) by (nonlinear_arith)
            requires
                n >= 1,
                quarter >= 0,
        ;
        assert(-pow2(144) < value.scaled() < pow2(144));
    } else {
        assert(n * pow2(147) == 0) by (nonlinear_arith)
            requires
                n == 0,
        ;
    }
}

/// Below nothing, or beyond anything measured: far from every number of quarters.
proof fn lemma_far(value: F32, n: int)
    requires
        value.finite(),
        0 <= n < 2 * EXPONENT_UNIT,
        value.magnitude() / EXPONENT_UNIT as int >= LEAST_EXPONENT,
        value.bits >= SIGN_BIT || value.magnitude() / EXPONENT_UNIT as int >= WHOLE_EXPONENT,
    ensures
        value.departs(n),
{
    let exponent = value.magnitude() / EXPONENT_UNIT as int;
    let fraction = value.magnitude() % EXPONENT_UNIT as int;
    lemma_significand(EXPONENT_UNIT + fraction, (exponent - 1) as nat);
    let quarter = pow2(147) as int;
    lemma_pow2_pos(147);
    assert(0 <= n * quarter <= 0x100_0000 * quarter) by (nonlinear_arith)
        requires
            0 <= n < 0x100_0000,
            quarter > 0,
    ;
    lemma2_to64();
    lemma_pow2_adds(147, 24);
    if value.bits >= SIGN_BIT {
        lemma_pow2_strictly_increases(126, 144);
        lemma_pow2_ordered(144, (exponent - 1 + 23) as nat);
    } else {
        lemma_pow2_ordered(172, (exponent - 1 + 23) as nat);
        lemma_pow2_unfold(172);
        lemma_pow2_strictly_increases(126, 171);
    }
}

/// Where it is measured, the distance counts in units: 32 of them are the least
/// step.
proof fn lemma_near(value: F32, n: int)
    requires
        value.finite(),
        value.bits < SIGN_BIT,
        measured(value.magnitude()),
    ensures
        ({
            let gap = units(value.magnitude()) - n * 0x400_0000;
            value.departs(n) <==> (gap > 32 || -gap > 32)
        }),
{
    let exponent = value.magnitude() / EXPONENT_UNIT as int;
    let significand = EXPONENT_UNIT + value.magnitude() % EXPONENT_UNIT as int;
    let shift = (exponent - LEAST_EXPONENT) as nat;
    let unit = pow2(121) as int;
    lemma2_to64();
    lemma_pow2_adds(shift, 121);
    lemma_pow2_adds(26, 121);
    lemma_pow2_adds(5, 121);
    lemma_pow2_pos(121);
    let count = units(value.magnitude());
    let gap = count - n * 0x400_0000;
    let power = pow2(shift) as int;
    assert(significand * (power * unit) == (significand * power) * unit) by (nonlinear_arith);
    assert(value.scaled() == count * unit);
    assert(n * (0x400_0000 * unit) == (n * 0x400_0000) * unit) by (nonlinear_arith);
    assert(count * unit - (n * 0x400_0000) * unit == gap * unit) by (nonlinear_arith)
        requires
            gap == count - n * 0x400_0000,
    ;
    assert(gap * unit > 32 * unit <==> gap > 32) by (nonlinear_arith)
        requires
            unit > 0,
    ;
    assert(-(gap * unit) > 32 * unit <==> -gap > 32) by (nonlinear_arith)
        requires
            unit > 0,
    ;
}

/// One is four quarters, and zero none.
pub proof fn law_one_is_four_quarters()
    ensures
        F32::one().is_quarters(4),
        F32::zero().is_quarters(0),
{
    lemma2_to64();
    let bits = F32::one().bits as int;
    assert(bits / EXPONENT_UNIT as int == 127);
    assert(bits % EXPONENT_UNIT as int == 0);
    assert(pow2(2) == 4);
    assert(pow2(23) == 0x80_0000);
    assert(0x80_0000 * pow2(2) == 4 * pow2(23)) by (nonlinear_arith)
        requires
            pow2(2) == 4,
            pow2(23) == 0x80_0000,
    ;
}

/// A number of quarters departs from itself by nothing.
pub proof fn law_quarters_do_not_depart(value: F32, n: int)
    requires
        value.is_quarters(n),
    ensures
        value.finite(),
        !value.departs(n),
{
    lemma_pow2_pos(126);
    if n == 0 {
        assert(0 * pow2(147) == 0) by (nonlinear_arith);
    } else {
        let exponent = value.bits as int / EXPONENT_UNIT as int;
        let shift = (exponent - QUARTER_EXPONENT) as nat;
        let significand = EXPONENT_UNIT + value.bits as int % EXPONENT_UNIT as int;
        lemma_pow2_adds(shift, 124);
        lemma_pow2_adds(23, 124);
        let power = pow2(shift) as int;
        let rest = pow2(124) as int;
        let whole = pow2(23) as int;
        assert(significand * (power * rest) == (significand * power) * rest) by (nonlinear_arith);
        assert(n * (whole * rest) == (n * whole) * rest) by (nonlinear_arith);
        assert(value.scaled() == n * pow2(147));
    }
}

/// Halvings that leave `n` with no more binary digits than a significand has.
pub open spec fn surplus_digits(n: nat) -> nat
    decreases n,
{
    if n < 0x100_0000 {
        0
    } else {
        1 + surplus_digits(n / 2)
    }
}

/// The nearest multiple of `step`, counted in steps; the even one from halfway.
pub open spec fn nearest_multiple(n: nat, step: nat) -> nat {
    if 2 * (n % step) < step || (2 * (n % step) == step && (n / step) % 2 == 0) {
        n / step
    } else {
        n / step + 1
    }
}

/// The number nearest to `n` that a single holds: `n` itself while it is below
/// 2 to the power of 24.
pub open spec fn nearest_single(n: nat) -> nat {
    let step = pow2(surplus_digits(n));
    nearest_multiple(n, step) * step
}

impl F32 {
    /// The value is the whole number that is nearest to `n`.
    pub open spec fn rounds(self, n: nat) -> bool {
        &&& self.bits < SIGN_BIT
        &&& self.finite()
        &&& self.scaled() == nearest_single(n) * pow2(149)
    }

    /// The single that is nearest to `n`.
    pub open spec fn of_whole(n: u32) -> F32 {
        choose|value: F32| value.rounds(n as nat)
    }

    /// The single that is nearest to `n`.
    pub fn from_whole(n: u32) -> (value: F32)
        ensures
            value.rounds(n as nat),
            value == F32::of_whole(n),
    {
        let mut whole: u32 = n;
        let mut shift: u32 = 0;
        let mut step: u32 = 1;
        proof {
            lemma2_to64();
        }
        while whole >= 0x100_0000
            invariant
                surplus_digits(n as nat) == shift + surplus_digits(whole as nat),
                step == pow2(shift as nat),
                shift <= 8,
                shift == 8 ==> whole < 0x100_0000,
                whole < pow2((32 - shift) as nat),
                step >= 1,
            decreases whole,
        {
            proof {
                lemma_pow2_unfold((shift + 1) as nat);
                lemma_pow2_unfold((32 - shift) as nat);
                lemma2_to64();
            }
            whole = whole / 2;
            shift = shift + 1;
            step = 2 * step;
        }
        let below: u32 = n / step;
        let rest: u32 = n % step;
        let twice: u64 = 2 * rest as u64;
        proof {
            lemma_surplus(n as nat);
        }
        let multiple: u32 = if twice < step as u64 || (twice == step as u64 && below % 2 == 0) {
            below
        } else {
            below + 1
        };
        let value = from_multiple(multiple, shift);
        assert(value.rounds(n as nat));
        proof {
            lemma_one_rounds(value, F32::of_whole(n), n as nat);
        }
        value
    }

    /// The value as a length in texels: rounded, the greater one from halfway, at
    /// least one, and at most what a length can be. No number is one texel.
    pub open spec fn texels(self) -> int {
        if self.nan() || self.bits >= SIGN_BIT {
            1
        } else if !self.finite() {
            u32::MAX as int
        } else {
            let rounded = (self.scaled() + pow2(148)) / pow2(149) as int;
            if rounded < 1 {
                1
            } else if rounded > u32::MAX {
                u32::MAX as int
            } else {
                rounded
            }
        }
    }

    /// The value as a length in texels.
    pub fn to_texels(self) -> (count: u32)
        ensures
            count == self.texels(),
            count >= 1,
    {
        if self.is_nan() || self.bits >= SIGN_BIT {
            return 1;
        }
        if !self.is_finite() {
            return u32::MAX;
        }
        let exponent: u32 = self.bits / EXPONENT_UNIT;
        if exponent < 127 {
            proof {
                lemma_below_one(self);
            }
            return 1;
        }
        if exponent >= 159 {
            proof {
                lemma_beyond_lengths(self);
            }
            return u32::MAX;
        }
        let significand: u32 = EXPONENT_UNIT + self.bits % EXPONENT_UNIT;
        proof {
            lemma_texels(self);
        }
        if exponent >= 150 {
            let power: u32 = power_of_two(exponent - 150);
            assert(significand * power < 0x1_0000_0000) by {
                lemma2_to64();
                lemma_pow2_ordered((exponent - 150) as nat, 8);
                assert(significand * power < 0x100_0000 * 256) by (nonlinear_arith)
                    requires
                        significand < 0x100_0000,
                        0 < power <= 256,
                ;
            }
            significand * power
        } else {
            let half: u32 = power_of_two(149 - exponent);
            proof {
                lemma2_to64();
                lemma_pow2_ordered((149 - exponent) as nat, 22);
                lemma_pow2_unfold((150 - exponent) as nat);
            }
            (significand + half) / (2 * half)
        }
    }
}

/// Two to the power of `k`.
fn power_of_two(k: u32) -> (power: u32)
    requires
        k < 32,
    ensures
        power == pow2(k as nat),
        power >= 1,
{
    let mut power: u32 = 1;
    let mut done: u32 = 0;
    proof {
        lemma2_to64();
    }
    while done < k
        invariant
            done <= k < 32,
            power == pow2(done as nat),
            power >= 1,
        decreases k - done,
    {
        proof {
            lemma_pow2_unfold((done + 1) as nat);
            lemma2_to64();
            lemma_pow2_ordered((done + 1) as nat, 31);
        }
        power = 2 * power;
        done = done + 1;
    }
    power
}

/// `multiple` steps of 2 to the power of `shift`.
fn from_multiple(multiple: u32, shift: u32) -> (value: F32)
    requires
        multiple <= 0x100_0000,
        shift <= 8,
    ensures
        value.bits < SIGN_BIT,
        value.finite(),
        value.scaled() == multiple * pow2(shift as nat) * pow2(149),
{
    proof {
        lemma2_to64();
    }
    if multiple == 0 {
        assert(0 * pow2(shift as nat) * pow2(149) == 0) by (nonlinear_arith);
        return F32::zero();
    }
    let mut significand: u32 = multiple;
    let mut exponent: u32 = shift + 23;
    let ghost whole = multiple * pow2((shift + 23) as nat);
    if multiple == 0x100_0000 {
        significand = 0x80_0000;
        exponent = exponent + 1;
        proof {
            lemma_pow2_unfold((shift + 24) as nat);
        }
    }
    let ghost top = exponent as int;
    while significand < EXPONENT_UNIT
        invariant
            0 < significand < 2 * EXPONENT_UNIT,
            23 <= top <= 32,
            top - 23 <= exponent <= top,
            significand * pow2(exponent as nat) == whole,
            significand >= pow2((top - exponent) as nat),
            pow2(23) == EXPONENT_UNIT,
            pow2(0) == 1,
        decreases exponent,
    {
        proof {
            if exponent == top - 23 {
                assert(significand >= EXPONENT_UNIT);
            }
            lemma_pow2_unfold(exponent as nat);
            lemma_pow2_unfold((top - exponent + 1) as nat);
            let half = pow2((exponent - 1) as nat) as int;
            assert((2 * significand) * half == significand * (2 * half)) by (nonlinear_arith);
        }
        significand = 2 * significand;
        exponent = exponent - 1;
    }
    let bits: u32 = (127 + exponent) * EXPONENT_UNIT + (significand - EXPONENT_UNIT);
    let value = F32 { bits };
    proof {
        assert(value.magnitude() / EXPONENT_UNIT as int == 127 + exponent);
        assert(value.magnitude() % EXPONENT_UNIT as int == significand - EXPONENT_UNIT);
        lemma_pow2_adds(exponent as nat, 126);
        lemma_pow2_adds((shift + 23) as nat, 126);
        lemma_pow2_adds(shift as nat, 149);
        let power = pow2(exponent as nat) as int;
        let rest = pow2(126) as int;
        let count = pow2((shift + 23) as nat) as int;
        assert(significand * (power * rest) == (significand * power) * rest) by (nonlinear_arith);
        assert(multiple * (count * rest) == (multiple * count) * rest) by (nonlinear_arith);
        let small = pow2(shift as nat) as int;
        let large = pow2(149) as int;
        assert(multiple * (small * large) == multiple * small * large) by (nonlinear_arith);
    }
    value
}

/// What is left after the surplus digits are gone has as many as a significand.
proof fn lemma_surplus(n: nat)
    ensures
        n / pow2(surplus_digits(n)) < 0x100_0000,
        pow2(surplus_digits(n)) >= 1,
    decreases n,
{
    lemma2_to64();
    if n >= 0x100_0000 {
        lemma_surplus(n / 2);
        let shift = surplus_digits(n / 2);
        lemma_pow2_unfold(shift + 1);
        vstd::arithmetic::div_mod::lemma_div_denominator(n as int, 2, pow2(shift) as int);
    }
}

/// Numbers that are not negative are told apart by what they are worth.
proof fn lemma_scaled_tells_apart(a: F32, b: F32)
    requires
        a.bits < SIGN_BIT,
        b.bits < SIGN_BIT,
        a.scaled() == b.scaled(),
        a.scaled() >= EXPONENT_UNIT,
    ensures
        a == b,
{
    let unit = EXPONENT_UNIT as int;
    let exponent_a = a.bits as int / unit;
    let exponent_b = b.bits as int / unit;
    let one = unit + a.bits as int % unit;
    let other = unit + b.bits as int % unit;
    if exponent_a < exponent_b {
        lemma_shifts_order(one, (exponent_a - 1) as nat, other, (exponent_b - 1) as nat);
    } else if exponent_b < exponent_a {
        lemma_shifts_order(other, (exponent_b - 1) as nat, one, (exponent_a - 1) as nat);
    } else {
        lemma_pow2_pos((exponent_a - 1) as nat);
        let power = pow2((exponent_a - 1) as nat) as int;
        assert(one == other) by (nonlinear_arith)
            requires
                one * power == other * power,
                power > 0,
        ;
    }
}

/// One single rounds a number, and no other.
proof fn lemma_one_rounds(a: F32, b: F32, n: nat)
    requires
        a.rounds(n),
        b.rounds(n),
    ensures
        a == b,
{
    let worth = nearest_single(n) as int;
    let power = pow2(149) as int;
    lemma2_to64();
    lemma_pow2_strictly_increases(24, 149);
    if worth == 0 {
        assert(worth * power == 0) by (nonlinear_arith)
            requires
                worth == 0,
        ;
        lemma_only_zero(a);
        lemma_only_zero(b);
    } else {
        assert(worth * power >= power) by (nonlinear_arith)
            requires
                worth >= 1,
                power >= 0,
        ;
        lemma_scaled_tells_apart(a, b);
    }
}

proof fn lemma_only_zero(value: F32)
    requires
        value.bits < SIGN_BIT,
        value.scaled() == 0,
    ensures
        value == F32::zero(),
{
    let exponent = value.bits as int / EXPONENT_UNIT as int;
    if exponent > 0 {
        lemma_significand(
            EXPONENT_UNIT + value.bits as int % EXPONENT_UNIT as int,
            (exponent - 1) as nat,
        );
        lemma_pow2_pos((exponent - 1 + 23) as nat);
    }
}

proof fn lemma_below_one(value: F32)
    requires
        value.bits < SIGN_BIT,
        value.bits / EXPONENT_UNIT < 127,
    ensures
        (value.scaled() + pow2(148)) / pow2(149) as int <= 1,
{
    let exponent = value.bits as int / EXPONENT_UNIT as int;
    lemma2_to64();
    if exponent > 0 {
        lemma_significand(
            EXPONENT_UNIT + value.bits as int % EXPONENT_UNIT as int,
            (exponent - 1) as nat,
        );
        lemma_pow2_ordered((exponent - 1 + 24) as nat, 149);
    } else {
        lemma_pow2_strictly_increases(24, 149);
    }
    lemma_pow2_unfold(149);
    lemma_pow2_pos(149);
    let sum = value.scaled() + pow2(148);
    let power = pow2(149) as int;
    assert(sum / power <= 1) by (nonlinear_arith)
        requires
            sum < 2 * power,
            power > 0,
    ;
}

proof fn lemma_beyond_lengths(value: F32)
    requires
        value.bits < SIGN_BIT,
        value.bits / EXPONENT_UNIT >= 159,
    ensures
        (value.scaled() + pow2(148)) / pow2(149) as int > u32::MAX,
{
    let exponent = value.bits as int / EXPONENT_UNIT as int;
    lemma_significand(
        EXPONENT_UNIT + value.bits as int % EXPONENT_UNIT as int,
        (exponent - 1) as nat,
    );
    lemma_pow2_ordered(181, (exponent - 1 + 23) as nat);
    lemma_pow2_adds(32, 149);
    lemma2_to64();
    lemma_pow2_pos(148);
    lemma_pow2_pos(149);
    let sum = value.scaled() + pow2(148);
    let power = pow2(149) as int;
    assert(sum / power >= 0x1_0000_0000) by (nonlinear_arith)
        requires
            sum >= 0x1_0000_0000 * power,
            power > 0,
    ;
}

/// A length in texels, from significand and exponent.
proof fn lemma_texels(value: F32)
    requires
        value.bits < SIGN_BIT,
        127 <= value.bits / EXPONENT_UNIT < 159,
    ensures
        ({
            let exponent = value.bits as int / EXPONENT_UNIT as int;
            let significand = EXPONENT_UNIT + value.bits as int % EXPONENT_UNIT as int;
            value.texels() == (if exponent >= 150 {
                significand * pow2((exponent - 150) as nat)
            } else {
                (significand + pow2((149 - exponent) as nat)) / pow2((150 - exponent) as nat) as int
            })
        }),
{
    let exponent = value.bits as int / EXPONENT_UNIT as int;
    let significand = EXPONENT_UNIT + value.bits as int % EXPONENT_UNIT as int;
    lemma2_to64();
    if exponent >= 150 {
        let shift = (exponent - 150) as nat;
        let power = pow2(shift) as int;
        let unit = pow2(149) as int;
        lemma_pow2_adds(shift, 149);
        lemma_pow2_unfold(149);
        lemma_pow2_pos(148);
        lemma_pow2_pos(shift);
        lemma_pow2_ordered(shift, 8);
        let worth = significand * power;
        assert(significand * (power * unit) == worth * unit) by (nonlinear_arith)
            requires
                worth == significand * power,
        ;
        let sum = value.scaled() + pow2(148);
        assert(sum / unit == worth) by (nonlinear_arith)
            requires
                worth * unit < sum < worth * unit + unit,
                unit > 0,
        ;
        assert(1 <= worth <= 0x100_0000 * 256 - 256) by (nonlinear_arith)
            requires
                worth == significand * power,
                1 <= significand <= 0xff_ffff,
                1 <= power <= 256,
        ;
    } else {
        let down = (150 - exponent) as nat;
        let half = pow2((149 - exponent) as nat) as int;
        let whole = pow2(down) as int;
        let unit = pow2((exponent - 1) as nat) as int;
        lemma_pow2_adds((149 - exponent) as nat, (exponent - 1) as nat);
        lemma_pow2_adds(down, (exponent - 1) as nat);
        lemma_pow2_pos((exponent - 1) as nat);
        lemma_pow2_pos(down);
        lemma_pow2_unfold(down);
        lemma_pow2_ordered((149 - exponent) as nat, 22);
        assert(unit * (significand + half) == significand * unit + half * unit)
            by (nonlinear_arith);
        assert(unit * whole == whole * unit) by (nonlinear_arith);
        vstd::arithmetic::div_mod::lemma_div_multiples_vanish_quotient(
            unit,
            significand + half,
            whole,
        );
        let rounded = (significand + half) / whole;
        assert(1 <= rounded <= significand + half) by (nonlinear_arith)
            requires
                significand + half >= whole,
                whole >= 1,
                rounded == (significand + half) / whole,
        ;
    }
}

/// Every length that has no more binary digits than a significand is held by a
/// single exactly, and read back from it.
pub proof fn law_lengths_come_back(n: u32)
    requires
        n < 0x100_0000,
    ensures
        nearest_single(n as nat) == n,
        forall|value: F32| #[trigger]
            value.rounds(n as nat) ==> value.texels() == (if n == 0 {
                1
            } else {
                n as int
            }),
{
    lemma2_to64();
    let unit = pow2(149) as int;
    lemma_pow2_unfold(149);
    lemma_pow2_pos(148);
    assert(pow2(surplus_digits(n as nat)) == 1);
    assert(n as nat % 1 == 0 && n as nat / 1 == n);
    assert(nearest_multiple(n as nat, 1) == n);
    assert forall|value: F32| #[trigger] value.rounds(n as nat) implies value.texels() == (if n
        == 0 {
        1
    } else {
        n as int
    }) by {
        let sum = value.scaled() + pow2(148);
        assert(sum / unit == n) by (nonlinear_arith)
            requires
                n * unit <= sum < n * unit + unit,
                unit > 0,
        ;
    }
}

/// `<` on singles is irreflexive and transitive, and of two numbers exactly
/// one is below the other unless they stand in the same place.
pub proof fn law_singles_are_ordered(a: F32, b: F32, c: F32)
    ensures
        !a.below(a),
        a.below(b) && b.below(c) ==> a.below(c),
        !a.nan() && !b.nan() ==> (a.below(b) || b.below(a) || a.rank() == b.rank()),
        a.at_most(b) <==> (a.below(b) || (!a.nan() && !b.nan() && a.rank() == b.rank())),
{
}

/// The patterns of the infinities and the NaNs, and the order of all others: a
/// single is a NaN past the infinity of its sign, and finite before it.
pub proof fn law_kinds_of_singles(value: F32)
    ensures
        value.nan() <==> (0x7f80_0000 < value.bits <= 0x7fff_ffff || 0xff80_0000 < value.bits),
        value.finite() <==> !value.nan() && value.bits != 0x7f80_0000 && value.bits != 0xff80_0000,
        value.bits == 0 || value.bits == 0x8000_0000 ==> value.rank() == 0,
{
}

proof fn lemma_size_grows(less: F32, more: F32)
    requires
        less.bits < more.bits < SIGN_BIT,
    ensures
        0 <= less.scaled() < more.scaled(),
{
    let unit = EXPONENT_UNIT as int;
    let exponent = less.bits as int / unit;
    let other = more.bits as int / unit;
    let fraction = less.bits as int % unit;
    let rest = more.bits as int % unit;
    lemma2_to64();
    if exponent == other {
        if exponent > 0 {
            lemma_pow2_pos((exponent - 1) as nat);
            let power = pow2((exponent - 1) as nat) as int;
            assert(0 <= (unit + fraction) * power < (unit + rest) * power) by (nonlinear_arith)
                requires
                    0 <= unit + fraction < unit + rest,
                    power > 0,
            ;
        }
    } else if exponent == 0 {
        lemma_significand(unit + rest, (other - 1) as nat);
        lemma_pow2_ordered(23, (other - 1 + 23) as nat);
    } else {
        lemma_shifts_order(unit + fraction, (exponent - 1) as nat, unit + rest, (other - 1) as nat);
        lemma_significand(unit + fraction, (exponent - 1) as nat);
        lemma_pow2_pos((exponent - 1 + 23) as nat);
    }
}

proof fn lemma_sign(value: F32)
    ensures
        ({
            let size = F32 { bits: value.magnitude() as u32 };
            &&& size.bits < SIGN_BIT
            &&& value.scaled() == (if value.bits >= SIGN_BIT {
                -size.scaled()
            } else {
                size.scaled()
            })
            &&& size.scaled() >= 0
            &&& size.scaled() == 0 <==> size.bits == 0
        }),
{
    let size = F32 { bits: value.magnitude() as u32 };
    let zero = F32 { bits: 0 };
    assert(zero.scaled() == 0);
    if size.bits > 0 {
        lemma_size_grows(zero, size);
    }
}

/// Numbers are compared by what they are worth.
pub proof fn law_numbers_compare_by_worth(a: F32, b: F32)
    requires
        a.finite(),
        b.finite(),
    ensures
        a.below(b) <==> a.scaled() < b.scaled(),
        a.at_most(b) <==> a.scaled() <= b.scaled(),
{
    let one = F32 { bits: a.magnitude() as u32 };
    let other = F32 { bits: b.magnitude() as u32 };
    lemma_sign(a);
    lemma_sign(b);
    if one.bits < other.bits {
        lemma_size_grows(one, other);
    } else if other.bits < one.bits {
        lemma_size_grows(other, one);
    }
}

/// So many quarters are worth so many quarters.
pub proof fn law_quarters_are_worth_it(value: F32, n: int)
    requires
        value.is_quarters(n),
    ensures
        value.scaled() == n * pow2(147),
        4 * value.scaled() == n * pow2(149),
{
    lemma_pow2_unfold(148);
    lemma_pow2_unfold(149);
    if n == 0 {
        assert(0 * pow2(147) == 0) by (nonlinear_arith);
        assert(0 * pow2(149) == 0) by (nonlinear_arith);
    } else {
        let exponent = value.bits as int / EXPONENT_UNIT as int;
        let shift = (exponent - QUARTER_EXPONENT) as nat;
        let significand = EXPONENT_UNIT + value.bits as int % EXPONENT_UNIT as int;
        lemma_pow2_adds(shift, 124);
        lemma_pow2_adds(23, 124);
        let power = pow2(shift) as int;
        let rest = pow2(124) as int;
        let whole = pow2(23) as int;
        let quarter = pow2(147) as int;
        assert(significand * (power * rest) == (significand * power) * rest) by (nonlinear_arith);
        assert(n * (whole * rest) == (n * whole) * rest) by (nonlinear_arith);
        assert(4 * (n * quarter) == n * (4 * quarter)) by (nonlinear_arith);
    }
}

/// A value departs from a number of quarters just where it is further from it than
/// the step from one to the next single, on either side.
pub proof fn law_departing_is_past_the_least_step(value: F32, rest: F32, n: int)
    requires
        value.finite(),
        rest.is_quarters(n),
    ensures
        value.departs(n) <==> (value.scaled() - rest.scaled() > (F32 {
            bits: EPSILON_BITS,
        }).scaled() || rest.scaled() - value.scaled() > (F32 { bits: EPSILON_BITS }).scaled()),
{
    law_quarters_are_worth_it(rest, n);
    let least = F32 { bits: EPSILON_BITS };
    assert(least.magnitude() / EXPONENT_UNIT as int == 104);
    assert(least.magnitude() % EXPONENT_UNIT as int == 0);
    lemma2_to64();
    lemma_pow2_adds(23, 103);
}

/// A number of quarters departs from every other number of quarters.
pub proof fn law_other_quarters_depart(value: F32, here: int, there: int)
    requires
        value.is_quarters(here),
        here != there,
    ensures
        value.departs(there),
{
    law_quarters_do_not_depart(value, here);
    law_quarters_are_worth_it(value, here);
    lemma_pow2_strictly_increases(126, 147);
    let quarter = pow2(147) as int;
    let gap = here - there;
    assert(here * quarter - there * quarter == gap * quarter) by (nonlinear_arith)
        requires
            gap == here - there,
    ;
    if gap > 0 {
        assert(gap * quarter >= quarter) by (nonlinear_arith)
            requires
                gap >= 1,
                quarter >= 0,
        ;
    } else {
        assert(gap * quarter <= -quarter) by (nonlinear_arith)
            requires
                gap <= -1,
                quarter >= 0,
        ;
    }
}

/// There is a single worth `m` times two to the power of `e`, in the least units.
proof fn lemma_held(m: int, e: nat) -> (value: F32)
    requires
        0 < m <= 0x100_0000,
        126 <= e <= 160,
        m * pow2((e - 126) as nat) >= EXPONENT_UNIT,
    ensures
        value.bits < SIGN_BIT,
        value.finite(),
        value.scaled() == m * pow2(e),
    decreases e,
{
    lemma2_to64();
    let unit = EXPONENT_UNIT as int;
    if m == 0x100_0000 {
        let value = F32 { bits: ((e + 2) * unit) as u32 };
        lemma_pow2_unfold(e + 1);
        assert(value.magnitude() / unit == e + 2);
        assert(value.magnitude() % unit == 0);
        let power = pow2(e) as int;
        assert(unit * (2 * power) == 0x100_0000 * power) by (nonlinear_arith)
            requires
                unit == 0x80_0000,
        ;
        value
    } else if m >= unit {
        let value = F32 { bits: ((e + 1) * unit + (m - unit)) as u32 };
        assert(value.magnitude() / unit == e + 1);
        assert(value.magnitude() % unit == m - unit);
        value
    } else {
        if e == 126 {
            assert(m * pow2(0) == m) by (nonlinear_arith)
                requires
                    pow2(0) == 1,
            ;
        }
        lemma_pow2_unfold(e);
        lemma_pow2_unfold((e - 126) as nat);
        let half = pow2((e - 1) as nat) as int;
        let less = pow2((e - 127) as nat) as int;
        assert((2 * m) * half == m * (2 * half)) by (nonlinear_arith);
        assert((2 * m) * less == m * (2 * less)) by (nonlinear_arith);
        lemma_held(2 * m, (e - 1) as nat)
    }
}

/// Every whole number has a nearest single. It is the number itself while that has
/// no more binary digits than a significand, and off by at most one part in two to
/// the power of 24 otherwise.
pub proof fn law_whole_numbers_have_a_single(n: u32)
    ensures
        F32::of_whole(n).rounds(n as nat),
        n < 0x100_0000 ==> F32::of_whole(n).scaled() == n * pow2(149),
        n < 0x100_0000 ==> F32::of_whole(n).texels() == (if n == 0 {
            1
        } else {
            n as int
        }),
        -(n as int) <= (nearest_single(n as nat) - n) * 0x100_0000 <= n,
{
    let step = pow2(surplus_digits(n as nat));
    let multiple = nearest_multiple(n as nat, step);
    let worth = nearest_single(n as nat) as int;
    let unit = pow2(149) as int;
    lemma2_to64();
    lemma_surplus(n as nat);
    lemma_few_surplus(n);
    let below = n as int / step as int;
    let rest = n as int % step as int;
    assert(n as int == below * step + rest) by {
        vstd::arithmetic::div_mod::lemma_fundamental_div_mod(n as int, step as int);
        assert(step * below == below * step) by (nonlinear_arith);
    }
    assert((below + 1) * step == below * step + step) by (nonlinear_arith);
    assert(worth == multiple * step);
    if multiple == 0 {
        assert(worth == 0) by (nonlinear_arith)
            requires
                worth == multiple * step,
                multiple == 0,
        ;
        assert(worth * unit == 0) by (nonlinear_arith)
            requires
                worth == 0,
        ;
        assert(F32::zero().rounds(n as nat));
    } else {
        let shift = surplus_digits(n as nat);
        lemma_pow2_adds(shift, 149);
        lemma_pow2_ordered(23, (shift + 23) as nat);
        let power = pow2((shift + 23) as nat) as int;
        assert(multiple * power >= EXPONENT_UNIT) by (nonlinear_arith)
            requires
                multiple >= 1,
                power >= 0x80_0000,
        ;
        assert((149 + shift - 126) as nat == (shift + 23) as nat);
        let value = lemma_held(multiple as int, 149 + shift);
        assert(multiple * (step * unit) == worth * unit) by (nonlinear_arith)
            requires
                worth == multiple * step,
        ;
        assert(value.rounds(n as nat));
    }
    if n < 0x100_0000 {
        law_lengths_come_back(n);
    }
}

/// A number with surplus digits has as many as a significand before them, and no
/// more than eight of them if it fits a word.
proof fn lemma_few_surplus(n: u32)
    ensures
        surplus_digits(n as nat) <= 8,
        surplus_digits(n as nat) > 0 ==> 0x80_0000 * pow2(surplus_digits(n as nat)) <= n,
        surplus_digits(n as nat) == 0 ==> n < 0x100_0000,
    decreases n,
{
    lemma2_to64();
    reveal_with_fuel(surplus_digits, 2);
    if n >= 0x100_0000 {
        let half = n / 2;
        lemma_few_surplus(half);
        lemma_pow2_unfold((surplus_digits(half as nat) + 1) as nat);
        if surplus_digits(half as nat) == 8 {
            assert(half < 0x8000_0000);
        }
    }
}

/// A length in texels is the nearest whole number, between one and the most that a
/// length can be; anything that is no such length, negative or not a number at all,
/// is one texel or the most.
pub proof fn law_texels_are_nearest(value: F32)
    ensures
        1 <= value.texels() <= u32::MAX,
        value.nan() ==> value.texels() == 1,
        value.below(F32::zero()) ==> value.texels() == 1,
        value.bits == INFINITE_MAGNITUDE ==> value.texels() == u32::MAX,
        value.finite() && pow2(148) <= value.scaled() <= u32::MAX * pow2(149) ==> {
            let gap = value.texels() * pow2(149) - value.scaled();
            -pow2(149) < 2 * gap <= pow2(149)
        },
        value.finite() && value.scaled() < pow2(149) ==> value.texels() == 1,
        value.finite() && value.scaled() > u32::MAX * pow2(149) ==> value.texels() == u32::MAX,
{
    let unit = pow2(149) as int;
    let half = pow2(148) as int;
    lemma_pow2_unfold(149);
    lemma_pow2_pos(148);
    lemma_sign(value);
    if value.finite() && value.bits < SIGN_BIT {
        let sum = value.scaled() + half;
        let rounded = sum / unit;
        vstd::arithmetic::div_mod::lemma_fundamental_div_mod(sum, unit);
        let rest = sum % unit;
        assert(rounded * unit == unit * rounded) by (nonlinear_arith);
        let most = u32::MAX as int;
        if value.scaled() < unit {
            assert(rounded <= 1) by (nonlinear_arith)
                requires
                    unit * rounded < 2 * unit,
                    unit > 0,
            ;
        }
        if half <= value.scaled() {
            assert(rounded >= 1) by (nonlinear_arith)
                requires
                    unit * rounded > 0,
                    unit > 0,
            ;
        }
        if value.scaled() <= most * unit {
            assert(rounded <= most) by (nonlinear_arith)
                requires
                    unit * rounded <= most * unit + half,
                    half < unit,
                    unit > 0,
            ;
        } else {
            assert(rounded >= most) by (nonlinear_arith)
                requires
                    unit * rounded + rest > most * unit,
                    rest < unit,
                    unit > 0,
            ;
        }
    }
}

/// What is measured in units is worth so many units; what is not is less than a
/// thirty-second, or has no fraction at all.
pub proof fn law_units_measure(value: F32)
    requires
        value.finite(),
        value.bits < SIGN_BIT,
    ensures
        measured(value.magnitude()) ==> value.scaled() == units(value.magnitude()) * pow2(121),
        value.magnitude() / (EXPONENT_UNIT as int) < LEAST_EXPONENT ==> 0 <= value.scaled() < pow2(
            144,
        ),
        value.magnitude() / EXPONENT_UNIT as int >= WHOLE_EXPONENT ==> value.scaled() >= pow2(172),
{
    let exponent = value.magnitude() / EXPONENT_UNIT as int;
    let significand = EXPONENT_UNIT + value.magnitude() % EXPONENT_UNIT as int;
    lemma2_to64();
    if measured(value.magnitude()) {
        let shift = (exponent - LEAST_EXPONENT) as nat;
        let unit = pow2(121) as int;
        let power = pow2(shift) as int;
        lemma_pow2_adds(shift, 121);
        assert(significand * (power * unit) == (significand * power) * unit) by (nonlinear_arith);
    } else if exponent >= WHOLE_EXPONENT {
        lemma_significand(significand, (exponent - 1) as nat);
        lemma_pow2_ordered(172, (exponent - 1 + 23) as nat);
    } else if exponent > 0 {
        lemma_significand(significand, (exponent - 1) as nat);
        lemma_pow2_ordered((exponent - 1 + 24) as nat, 144);
        lemma_pow2_pos((exponent - 1 + 23) as nat);
    } else {
        lemma_pow2_strictly_increases(24, 144);
    }
}

} // verus!
