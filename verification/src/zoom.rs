//! What the zoom chip says.
//!
//! A zoom level is a single. In the range that matters every single is a whole
//! number of units of 2 to the power of -28, so its distance from whole numbers
//! and tenths is exact.

use vstd::prelude::*;
use vstd::arithmetic::power2::*;
use crate::bits::{
    is_measured, law_numbers_compare_by_worth, law_units_measure, measured, to_units, units,
    EXPONENT_UNIT, F32, INFINITE_MAGNITUDE, LEAST_EXPONENT, SIGN_BIT,
};
use crate::text::{decimal, decimal_text};

verus! {

/// Units in one.
pub const ZOOM_ONE: u64 = 0x1000_0000;

/// The single 0.05, in units.
pub const NEAR_WHOLE: u64 = 13_421_773;

/// The least number of units above the single 0.01.
pub const ABOVE_HUNDREDTH: u64 = 2_684_355;

/// The single 10.
pub const TEN_BITS: u32 = 0x4120_0000;

/// The nearest whole number; the greater one from halfway.
pub open spec fn nearest_whole(units: int) -> int {
    (units + ZOOM_ONE as int / 2) / ZOOM_ONE as int
}

/// Units between a magnitude and the nearest whole number.
pub open spec fn off_whole(units: int) -> int {
    let gap = units - nearest_whole(units) * ZOOM_ONE;
    if gap < 0 {
        -gap
    } else {
        gap
    }
}

/// The nearest number of tenths; the even one from halfway.
pub open spec fn nearest_tenths(units: int) -> int {
    let below = 10 * units / ZOOM_ONE as int;
    let rest = 10 * units % ZOOM_ONE as int;
    if 2 * rest < ZOOM_ONE || (2 * rest == ZOOM_ONE && below % 2 == 0) {
        below
    } else {
        below + 1
    }
}

/// A number of tenths, with one decimal.
pub open spec fn tenths_text(tenths: nat) -> Seq<char> {
    decimal(tenths / 10) + "."@ + decimal(tenths % 10)
}

/// What the zoom chip says: the zoom level as a whole number where it is all but
/// one, with one decimal otherwise; nothing above ten.
pub open spec fn zoom_text(zoom: F32) -> Seq<char> {
    let magnitude = zoom.magnitude();
    if zoom.nan() {
        "NaNx"@
    } else if zoom.bits < SIGN_BIT {
        if zoom.bits >= TEN_BITS {
            "10x"@
        } else if !measured(magnitude) {
            "0x"@
        } else if off_whole(units(magnitude)) < NEAR_WHOLE {
            decimal(nearest_whole(units(magnitude)) as nat) + "x"@
        } else {
            tenths_text(nearest_tenths(units(magnitude)) as nat) + "x"@
        }
    } else if magnitude == INFINITE_MAGNITUDE {
        "-infx"@
    } else if !measured(magnitude) || off_whole(units(magnitude)) < NEAR_WHOLE {
        "0x"@
    } else {
        "-"@ + tenths_text(nearest_tenths(units(magnitude)) as nat) + "x"@
    }
}

/// The preview is zoomed: the zoom level is further than a hundredth from one.
pub open spec fn zoomed(zoom: F32) -> bool {
    if zoom.nan() {
        false
    } else if zoom.bits >= SIGN_BIT || !measured(zoom.magnitude()) {
        true
    } else {
        let level = units(zoom.magnitude());
        level >= ZOOM_ONE + ABOVE_HUNDREDTH || level <= ZOOM_ONE - ABOVE_HUNDREDTH
    }
}

fn off_whole_units(count: u64) -> (gap: u64)
    requires
        count < 0x10_0000_0000_0000,
    ensures
        gap == off_whole(count as int),
{
    let over: u64 = count % ZOOM_ONE;
    if over < ZOOM_ONE / 2 {
        over
    } else {
        ZOOM_ONE - over
    }
}

fn tenths_of(count: u64) -> (tenths: u64)
    requires
        count < 0x10_0000_0000_0000,
    ensures
        tenths == nearest_tenths(count as int),
{
    let below: u64 = 10 * count / ZOOM_ONE;
    let rest: u64 = 10 * count % ZOOM_ONE;
    if 2 * rest < ZOOM_ONE || (2 * rest == ZOOM_ONE && below % 2 == 0) {
        below
    } else {
        below + 1
    }
}

fn one_decimal(tenths: u64) -> (text: String)
    ensures
        text@ == tenths_text(tenths as nat),
{
    let mut text = decimal_text(tenths / 10);
    text.append(".");
    let last = decimal_text(tenths % 10);
    text.append(last.as_str());
    text
}

/// What the zoom chip says.
pub fn zoom_label_text(zoom: F32) -> (text: String)
    ensures
        text@ == zoom_text(zoom),
{
    if zoom.is_nan() {
        return "NaNx".to_owned();
    }
    let negative = zoom.bits >= SIGN_BIT;
    let magnitude: u32 = if negative { zoom.bits - SIGN_BIT } else { zoom.bits };
    if !negative && zoom.bits >= TEN_BITS {
        return "10x".to_owned();
    }
    if negative && magnitude == INFINITE_MAGNITUDE {
        return "-infx".to_owned();
    }
    if !is_measured(magnitude) {
        return "0x".to_owned();
    }
    let count: u64 = to_units(magnitude);
    if off_whole_units(count) < NEAR_WHOLE {
        if negative {
            return "0x".to_owned();
        }
        let mut text = decimal_text((count + ZOOM_ONE / 2) / ZOOM_ONE);
        text.append("x");
        return text;
    }
    let tenths = one_decimal(tenths_of(count));
    let mut text = if negative { "-".to_owned() } else { String::new() };
    text.append(tenths.as_str());
    text.append("x");
    assert(text@ =~= zoom_text(zoom));
    text
}

/// Whether the preview is zoomed.
pub fn is_zoomed(zoom: F32) -> (answer: bool)
    ensures
        answer == zoomed(zoom),
{
    if zoom.is_nan() {
        return false;
    }
    if zoom.bits >= SIGN_BIT || !is_measured(zoom.bits) {
        return true;
    }
    let level: u64 = to_units(zoom.bits);
    level >= ZOOM_ONE + ABOVE_HUNDREDTH || level <= ZOOM_ONE - ABOVE_HUNDREDTH
}

/// A preview that is not zoomed says so: its chip reads `1x`.
pub proof fn law_no_zoom_reads_one(zoom: F32)
    requires
        !zoom.nan(),
        !zoomed(zoom),
    ensures
        zoom_text(zoom) == "1x"@,
{
    let level = units(zoom.magnitude());
    lemma2_to64();
    if zoom.bits >= TEN_BITS {
        let shift = (zoom.magnitude() / EXPONENT_UNIT as int - LEAST_EXPONENT) as nat;
        assert(shift >= 8);
        if shift > 8 {
            lemma_pow2_strictly_increases(8, shift);
        }
        let power = pow2(shift) as int;
        let significand = EXPONENT_UNIT + zoom.magnitude() % EXPONENT_UNIT as int;
        assert(significand * power >= 0x8000_0000) by (nonlinear_arith)
            requires
                significand >= 0x80_0000,
                power >= 256,
        ;
    }
    assert(nearest_whole(level) == 1);
    reveal_strlit("x");
    reveal_strlit("1x");
    assert(decimal(1) =~= seq!['1']);
    assert(decimal(1) + "x"@ =~= "1x"@);
}

/// The pattern of `0.01`.
pub const HUNDREDTH_BITS: u32 = 0x3c23_d70a;

/// The pattern of `0.05`.
pub const TWENTIETH_BITS: u32 = 0x3d4c_cccd;

proof fn lemma_marks()
    ensures
        ({
            let unit = pow2(121) as int;
            &&& unit > 0
            &&& F32::one().scaled() == 0x1000_0000 * unit
            &&& pow2(149) == 0x1000_0000 * unit
            &&& pow2(144) == 0x80_0000 * unit
            &&& pow2(172) == 0x8_0000_0000_0000 * unit
            &&& 4 * (F32 { bits: HUNDREDTH_BITS }).scaled() == 10_737_418 * unit
            &&& (F32 { bits: TWENTIETH_BITS }).scaled() == 13_421_773 * unit
            &&& (F32 { bits: TEN_BITS }).scaled() == 10 * pow2(149)
            &&& (F32 { bits: TEN_BITS }).finite()
        }),
{
    lemma2_to64();
    lemma_pow2_pos(121);
    lemma_pow2_adds(28, 121);
    lemma_pow2_adds(23, 121);
    lemma_pow2_adds(32, 19);
    lemma_pow2_adds(51, 121);
    lemma_pow2_adds(2, 119);
    lemma_pow2_adds(5, 121);
    lemma_pow2_adds(8, 121);
    let one = F32::one().magnitude();
    let hundredth = (F32 { bits: HUNDREDTH_BITS }).magnitude();
    let twentieth = (F32 { bits: TWENTIETH_BITS }).magnitude();
    let ten = (F32 { bits: TEN_BITS }).magnitude();
    assert(one / 0x80_0000 == 127 && one % 0x80_0000 == 0);
    assert(hundredth / 0x80_0000 == 120 && hundredth % 0x80_0000 == 0x23_d70a);
    assert(twentieth / 0x80_0000 == 122 && twentieth % 0x80_0000 == 0x4c_cccd);
    assert(ten / 0x80_0000 == 130 && ten % 0x80_0000 == 0x20_0000);
}

/// The preview is zoomed just where its level is further than a hundredth from one,
/// either way.
pub proof fn law_zoomed_is_past_a_hundredth(zoom: F32)
    requires
        zoom.finite(),
    ensures
        ({
            let gap = zoom.scaled() - F32::one().scaled();
            let least = (F32 { bits: HUNDREDTH_BITS }).scaled();
            zoomed(zoom) <==> gap > least || -gap > least
        }),
{
    let unit = pow2(121) as int;
    lemma_marks();
    if zoom.bits >= SIGN_BIT {
        let size = F32 { bits: (zoom.bits - SIGN_BIT) as u32 };
        assert(zoom.scaled() == -size.scaled());
        assert(size.scaled() >= 0) by {
            law_units_measure(size);
            if measured(size.magnitude()) {
                lemma_pow2_pos((size.magnitude() / EXPONENT_UNIT as int - LEAST_EXPONENT) as nat);
                let count = units(size.magnitude());
                let power = pow2(
                    (size.magnitude() / EXPONENT_UNIT as int - LEAST_EXPONENT) as nat,
                ) as int;
                let significand = EXPONENT_UNIT + size.magnitude() % EXPONENT_UNIT as int;
                assert(significand * power * unit >= 0) by (nonlinear_arith)
                    requires
                        significand >= 0,
                        power >= 0,
                        unit >= 0,
                ;
            }
        }
    } else {
        law_units_measure(zoom);
        if measured(zoom.magnitude()) {
            let level = units(zoom.magnitude());
            let far = 4 * (level - 0x1000_0000);
            assert(4 * (level * unit - 0x1000_0000 * unit) == far * unit) by (nonlinear_arith)
                requires
                    far == 4 * (level - 0x1000_0000),
            ;
            assert(far * unit > 10_737_418 * unit <==> far > 10_737_418) by (nonlinear_arith)
                requires
                    unit > 0,
            ;
            assert(-(far * unit) > 10_737_418 * unit <==> -far > 10_737_418) by (nonlinear_arith)
                requires
                    unit > 0,
            ;
        }
    }
}

/// What the chip says of a level that is next to a whole number, by less than a
/// twentieth: that number. From ten on it says ten.
pub proof fn law_zoom_reads_whole_numbers(zoom: F32, n: nat)
    requires
        zoom.finite(),
        zoom.bits < SIGN_BIT,
    ensures
        ({
            let gap = zoom.scaled() - n * pow2(149);
            let near = (F32 { bits: TWENTIETH_BITS }).scaled();
            &&& zoom.scaled() >= 10 * pow2(149) ==> zoom_text(zoom) == "10x"@
            &&& zoom.scaled() < 10 * pow2(149) && -near < gap < near ==> zoom_text(zoom) == decimal(
                n,
            ) + "x"@
        }),
{
    let unit = pow2(121) as int;
    let ten = F32 { bits: TEN_BITS };
    lemma_marks();
    law_numbers_compare_by_worth(ten, zoom);
    law_units_measure(zoom);
    let gap = zoom.scaled() - n * pow2(149);
    let near = (F32 { bits: TWENTIETH_BITS }).scaled();
    if zoom.scaled() < 10 * pow2(149) && -near < gap < near {
        let one = pow2(149) as int;
        assert(n * one == (n * 0x1000_0000) * unit) by (nonlinear_arith)
            requires
                one == 0x1000_0000 * unit,
        ;
        if measured(zoom.magnitude()) {
            let count = units(zoom.magnitude());
            let off = count - n * 0x1000_0000;
            assert(count * unit - (n * 0x1000_0000) * unit == off * unit) by (nonlinear_arith)
                requires
                    off == count - n * 0x1000_0000,
            ;
            assert(-13_421_773 < off < 13_421_773) by (nonlinear_arith)
                requires
                    -(13_421_773 * unit) < off * unit < 13_421_773 * unit,
                    unit > 0,
            ;
            assert(nearest_whole(count) == n);
            assert(off_whole(count) < NEAR_WHOLE);
        } else {
            assert(n == 0) by (nonlinear_arith)
                requires
                    (n * 0x1000_0000) * unit < 13_421_773 * unit + 0x80_0000 * unit,
                    unit > 0,
            ;
            reveal_strlit("x");
            reveal_strlit("0x");
            assert(decimal(0) =~= seq!['0']);
            assert(decimal(0) + "x"@ =~= "0x"@);
        }
    }
}

/// What the chip says of any other level below ten: the nearest number of tenths, with
/// one decimal.
pub proof fn law_zoom_reads_tenths(zoom: F32) -> (tenths: nat)
    requires
        zoom.finite(),
        zoom.bits < SIGN_BIT,
        zoom.scaled() < 10 * pow2(149),
        forall|n: nat|
            ({
                let gap = zoom.scaled() - #[trigger] (n * pow2(149));
                let near = (F32 { bits: TWENTIETH_BITS }).scaled();
                gap >= near || -gap >= near
            }),
    ensures
        zoom_text(zoom) == decimal(tenths / 10) + "."@ + decimal(tenths % 10) + "x"@,
        -pow2(149) <= 2 * (10 * zoom.scaled() - tenths * pow2(149)) <= pow2(149),
{
    let unit = pow2(121) as int;
    let one = pow2(149) as int;
    let ten = F32 { bits: TEN_BITS };
    lemma_marks();
    law_numbers_compare_by_worth(ten, zoom);
    law_units_measure(zoom);
    if !measured(zoom.magnitude()) {
        let none: nat = 0;
        assert(none * pow2(149) == 0) by (nonlinear_arith)
            requires
                none == 0,
        ;
    }
    let count = units(zoom.magnitude());
    assert(count >= 0) by (nonlinear_arith)
        requires
            count * unit >= 0,
            unit > 0,
    ;
    let whole = nearest_whole(count) as nat;
    let off = count - whole * 0x1000_0000;
    assert(whole * pow2(149) == (whole * 0x1000_0000) * unit) by (nonlinear_arith)
        requires
            pow2(149) == 0x1000_0000 * unit,
    ;
    assert(count * unit - (whole * 0x1000_0000) * unit == off * unit) by (nonlinear_arith)
        requires
            off == count - whole * 0x1000_0000,
    ;
    assert(off >= 13_421_773 || -off >= 13_421_773) by (nonlinear_arith)
        requires
            off * unit >= 13_421_773 * unit || -(off * unit) >= 13_421_773 * unit,
            unit > 0,
    ;
    let tenths = nearest_tenths(count) as nat;
    let rest = 10 * count - tenths * 0x1000_0000;
    assert(-0x800_0000 <= rest <= 0x800_0000);
    assert(tenths * one == (tenths * 0x1000_0000) * unit) by (nonlinear_arith)
        requires
            one == 0x1000_0000 * unit,
    ;
    assert(10 * (count * unit) - (tenths * 0x1000_0000) * unit == rest * unit) by (nonlinear_arith)
        requires
            rest == 10 * count - tenths * 0x1000_0000,
    ;
    assert(-(0x800_0000 * unit) <= rest * unit <= 0x800_0000 * unit) by (nonlinear_arith)
        requires
            -0x800_0000 <= rest <= 0x800_0000,
            unit > 0,
    ;
    tenths
}

/// What the chip says of what is no level at all: not a number, or no end to it.
pub proof fn law_zoom_of_no_level(zoom: F32)
    ensures
        zoom.nan() ==> zoom_text(zoom) == "NaNx"@ && !zoomed(zoom),
        zoom.bits == 0x7f80_0000 ==> zoom_text(zoom) == "10x"@ && zoomed(zoom),
        zoom.bits == 0xff80_0000 ==> zoom_text(zoom) == "-infx"@ && zoomed(zoom),
{
}

} // verus!
