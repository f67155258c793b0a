//! Parameters and step plan of the dual-Kawase blur.
//!
//! The blur of the frosted backdrop has to land on the same on-screen
//! thickness as the compositor's own frosted surfaces, so it runs the same
//! algorithm with the same pass counts and sample offsets. Offsets are kept as
//! ratios: the compositor derives them by dividing bands of whole numbers into
//! equal steps.

use vstd::prelude::*;
use vstd::arithmetic::logarithm::*;
use vstd::arithmetic::power::*;
use vstd::arithmetic::power2::*;

verus! {

/// Entries of the compositor's parameter table.
pub const BLUR_MAX_STEPS: u32 = 15;

/// Bands of the table: one per pass count.
pub const BLUR_BANDS: u32 = 4;

/// Most Kawase passes that any entry of the table asks for.
pub const MAX_KAWASE_PASSES: u32 = 4;

/// A quotient of two whole numbers.
#[derive(Clone, Copy, Debug, PartialEq, Eq, Structural)]
pub struct Ratio {
    pub num: u32,
    pub den: u32,
}

/// One entry of the table: a pass count, and the base sample offset in
/// physical screen pixels. Pass `i` uses half the offset of pass `i - 1`.
#[derive(Clone, Copy, Debug, PartialEq, Eq, Structural)]
pub struct CompositorBlurParams {
    /// This many downsamples, then this many upsamples.
    pub passes: u32,
    pub offset: Ratio,
}

/// Smallest and largest offset of band `i`.
pub open spec fn band(i: int) -> (int, int) {
    if i == 0 {
        (1, 2)
    } else if i == 1 {
        (2, 3)
    } else if i == 2 {
        (2, 5)
    } else {
        (3, 8)
    }
}

/// Width of band `i`.
pub open spec fn band_width(i: int) -> int {
    band(i).1 - band(i).0
}

/// Combined width of the first `n` bands.
pub open spec fn bands_width(n: nat) -> int
    decreases n,
{
    if n == 0 {
        0
    } else {
        bands_width((n - 1) as nat) + band_width(n - 1)
    }
}

/// Steps that band `i` asks for: its share of the table, rounded up.
pub open spec fn band_wanted(i: int) -> int {
    let total = bands_width(BLUR_BANDS as nat);
    (band_width(i) * BLUR_MAX_STEPS + total - 1) / total
}

/// Steps left for later bands once the first `n` have what they ask for;
/// negative when they ask for more than the table holds.
pub open spec fn steps_left(n: nat) -> int
    decreases n,
{
    if n == 0 {
        BLUR_MAX_STEPS as int
    } else {
        steps_left((n - 1) as nat) - band_wanted(n - 1)
    }
}

/// Steps that band `i` gets: what it asks for, less what the table lacks.
pub open spec fn band_steps(i: int) -> int {
    let left = steps_left((i + 1) as nat);
    if left >= 0 {
        band_wanted(i)
    } else if band_wanted(i) + left >= 0 {
        band_wanted(i) + left
    } else {
        0
    }
}

/// Entry `j` of band `i`: the band divided into equal steps, its smallest
/// offset left out and its largest in.
pub open spec fn band_entry(i: int, j: int) -> CompositorBlurParams {
    CompositorBlurParams {
        passes: (i + 1) as u32,
        offset: Ratio {
            num: (band(i).0 * band_steps(i) + band_width(i) * (j + 1)) as u32,
            den: band_steps(i) as u32,
        },
    }
}

/// The first `n` bands, one after the other.
pub open spec fn blur_table_of(n: nat) -> Seq<CompositorBlurParams>
    decreases n,
{
    if n == 0 {
        Seq::empty()
    } else {
        blur_table_of((n - 1) as nat) + Seq::new(
            band_steps(n - 1) as nat,
            |j: int| band_entry(n - 1, j),
        )
    }
}

/// The compositor's parameter table.
pub open spec fn blur_table() -> Seq<CompositorBlurParams> {
    blur_table_of(BLUR_BANDS as nat)
}

/// The bands in numbers: the last one asks for two steps more than are left.
#[verifier::spinoff_prover]
proof fn lemma_bands()
    ensures
        bands_width(4) == 10,
        band_wanted(0) == 2,
        band_wanted(1) == 2,
        band_wanted(2) == 5,
        band_wanted(3) == 8,
        steps_left(1) == 13,
        steps_left(2) == 11,
        steps_left(3) == 6,
        steps_left(4) == -2,
        band_steps(0) == 2,
        band_steps(1) == 2,
        band_steps(2) == 5,
        band_steps(3) == 6,
{
    reveal_with_fuel(bands_width, 5);
    assert(bands_width(4) == 10);
    assert(band_wanted(0) == (1 * 15 + 10 - 1) / 10int);
    assert(band_wanted(1) == (1 * 15 + 10 - 1) / 10int);
    assert(band_wanted(2) == (3 * 15 + 10 - 1) / 10int);
    assert(band_wanted(3) == (5 * 15 + 10 - 1) / 10int);
    reveal_with_fuel(steps_left, 5);
}

/// The table has an entry for every step, and these are they.
#[verifier::spinoff_prover]
pub proof fn law_blur_table_entries()
    ensures
        blur_table().len() == BLUR_MAX_STEPS,
        blur_table() =~= seq![
            band_params(1, 3, 2),
            band_params(1, 4, 2),
            band_params(2, 5, 2),
            band_params(2, 6, 2),
            band_params(3, 13, 5),
            band_params(3, 16, 5),
            band_params(3, 19, 5),
            band_params(3, 22, 5),
            band_params(3, 25, 5),
            band_params(4, 23, 6),
            band_params(4, 28, 6),
            band_params(4, 33, 6),
            band_params(4, 38, 6),
            band_params(4, 43, 6),
            band_params(4, 48, 6),
        ],
{
    lemma_bands();
    assert(blur_table_of(0) =~= seq![]);
    assert(blur_table_of(1) =~= seq![band_params(1, 3, 2), band_params(1, 4, 2)]);
    assert(blur_table_of(2) =~= blur_table_of(1) + seq![
        band_params(2, 5, 2),
        band_params(2, 6, 2),
    ]);
    assert(band_entry(2, 0) == band_params(3, 13, 5));
    assert(band_entry(2, 1) == band_params(3, 16, 5));
    assert(band_entry(2, 2) == band_params(3, 19, 5));
    assert(band_entry(2, 3) == band_params(3, 22, 5));
    assert(band_entry(2, 4) == band_params(3, 25, 5));
    assert(blur_table_of(3) =~= blur_table_of(2) + seq![
        band_params(3, 13, 5),
        band_params(3, 16, 5),
        band_params(3, 19, 5),
        band_params(3, 22, 5),
        band_params(3, 25, 5),
    ]);
    assert(band_entry(3, 0) == band_params(4, 23, 6));
    assert(band_entry(3, 1) == band_params(4, 28, 6));
    assert(band_entry(3, 2) == band_params(4, 33, 6));
    assert(band_entry(3, 3) == band_params(4, 38, 6));
    assert(band_entry(3, 4) == band_params(4, 43, 6));
    assert(band_entry(3, 5) == band_params(4, 48, 6));
    assert(blur_table_of(4) =~= blur_table_of(3) + seq![
        band_params(4, 23, 6),
        band_params(4, 28, 6),
        band_params(4, 33, 6),
        band_params(4, 38, 6),
        band_params(4, 43, 6),
        band_params(4, 48, 6),
    ]);
}

/// An entry written out.
pub open spec fn band_params(passes: u32, num: u32, den: u32) -> CompositorBlurParams {
    CompositorBlurParams { passes, offset: Ratio { num, den } }
}

/// Smallest and largest offset of band `i`.
fn band_bounds(i: u32) -> (bounds: (u32, u32))
    requires
        i < BLUR_BANDS,
    ensures
        bounds.0 == band(i as int).0,
        bounds.1 == band(i as int).1,
{
    if i == 0 {
        (1, 2)
    } else if i == 1 {
        (2, 3)
    } else if i == 2 {
        (2, 5)
    } else {
        (3, 8)
    }
}

/// Builds the compositor's parameter table.
pub fn compositor_blur_table() -> (table: Vec<CompositorBlurParams>)
    ensures
        table@ == blur_table(),
{
    proof {
        lemma_bands();
    }
    let mut total: u32 = 0;
    let mut n: u32 = 0;
    while n < BLUR_BANDS
        invariant
            n <= BLUR_BANDS,
            total == bands_width(n as nat),
            total <= 10 * n,
        decreases BLUR_BANDS - n,
    {
        let (low, high) = band_bounds(n);
        total = total + (high - low);
        n = n + 1;
    }
    let mut table: Vec<CompositorBlurParams> = Vec::new();
    let mut remaining: i32 = BLUR_MAX_STEPS as i32;
    let mut i: u32 = 0;
    while i < BLUR_BANDS
        invariant
            i <= BLUR_BANDS,
            total == 10,
            bands_width(BLUR_BANDS as nat) == 10,
            remaining == steps_left(i as nat),
            -100 * i <= remaining <= BLUR_MAX_STEPS,
            table@ == blur_table_of(i as nat),
        decreases BLUR_BANDS - i,
    {
        let (low, high) = band_bounds(i);
        let width: u32 = high - low;
        let wanted: u32 = (width * BLUR_MAX_STEPS + total - 1) / total;
        remaining = remaining - wanted as i32;
        let steps: u32 = if remaining >= 0 {
            wanted
        } else if wanted as i32 + remaining >= 0 {
            (wanted as i32 + remaining) as u32
        } else {
            0
        };
        assert(steps == band_steps(i as int));
        let ghost before = table@;
        let mut j: u32 = 1;
        while j <= steps
            invariant
                1 <= j <= steps + 1,
                i < BLUR_BANDS,
                steps == band_steps(i as int),
                steps <= 10,
                width == band_width(i as int),
                width <= 5,
                low == band(i as int).0,
                low <= 3,
                table@ == before + Seq::new((j - 1) as nat, |x: int| band_entry(i as int, x)),
            decreases steps + 1 - j,
        {
            assert(low * steps <= 30) by (nonlinear_arith)
                requires
                    low <= 3,
                    steps <= 10,
            ;
            assert(width * j <= 50) by (nonlinear_arith)
                requires
                    width <= 5,
                    j <= 10,
            ;
            let entry = CompositorBlurParams {
                passes: i + 1,
                offset: Ratio { num: low * steps + width * j, den: steps },
            };
            assert(entry == band_entry(i as int, j - 1));
            table.push(entry);
            assert(table@ =~= before + Seq::new(j as nat, |x: int| band_entry(i as int, x)));
            j = j + 1;
        }
        i = i + 1;
    }
    table
}

/// Index into the table for frost level `level`: one past it, at most the last.
pub open spec fn blur_index(level: u8) -> int {
    if level + 1 < BLUR_MAX_STEPS - 1 {
        level + 1
    } else {
        BLUR_MAX_STEPS - 1
    }
}

/// The compositor's own parameters for frost level `level`.
pub fn compositor_blur_params(level: u8) -> (params: CompositorBlurParams)
    ensures
        params == blur_table()[blur_index(level)],
{
    proof {
        law_blur_table_entries();
    }
    let table = compositor_blur_table();
    let last: usize = (BLUR_MAX_STEPS - 1) as usize;
    let next: usize = level as usize + 1;
    let index: usize = if next < last {
        next
    } else {
        last
    };
    table[index]
}

/// Every frost level asks for one to [`MAX_KAWASE_PASSES`] passes, and the
/// highest level asks for that many: the step allocation covers the table with
/// nothing to spare.
pub proof fn law_pass_bound_is_tight(level: u8)
    ensures
        1 <= blur_table()[blur_index(level)].passes <= MAX_KAWASE_PASSES,
        level >= 13 ==> blur_table()[blur_index(level)].passes == MAX_KAWASE_PASSES,
{
    law_blur_table_entries();
}

/// A level beyond the last one selects the last entry.
pub proof fn law_levels_beyond_the_table_clamp(level: u8)
    requires
        level >= 13,
    ensures
        blur_table()[blur_index(level)] == band_params(4, 48, 6),
        blur_index(level) == blur_index(13),
{
    law_blur_table_entries();
}

/// How thick a blur is, as the variance of its kernel up to a constant factor:
/// the square of the offset times what the passes add up to, `4^passes - 1`.
/// The offset counts in thirtieths of a pixel, which every offset of the table
/// is a whole number of.
pub open spec fn thickness(params: CompositorBlurParams) -> int {
    let thirtieths = params.offset.num * 30 / params.offset.den as int;
    thirtieths * thirtieths * (pow(4, params.passes as nat) - 1)
}

/// The offsets of the table go down wherever the pass count steps up, but the
/// blur itself grows thicker with every level.
pub proof fn law_blur_thickens_with_the_level(thinner: u8, thicker: u8)
    requires
        thinner < thicker <= 13,
    ensures
        thickness(blur_table()[blur_index(thinner)]) < thickness(
            blur_table()[blur_index(thicker)],
        ),
    decreases thicker,
{
    lemma_next_level_is_thicker((thicker - 1) as u8);
    if thinner < thicker - 1 {
        law_blur_thickens_with_the_level(thinner, (thicker - 1) as u8);
    }
}

proof fn lemma_next_level_is_thicker(level: u8)
    requires
        level < 13,
    ensures
        thickness(blur_table()[blur_index(level)]) < thickness(
            blur_table()[blur_index((level + 1) as u8)],
        ),
{
    law_blur_table_entries();
    lemma_thickness(1, 4, 2, 60);
    lemma_thickness(2, 5, 2, 75);
    lemma_thickness(2, 6, 2, 90);
    lemma_thickness(3, 13, 5, 78);
    lemma_thickness(3, 16, 5, 96);
    lemma_thickness(3, 19, 5, 114);
    lemma_thickness(3, 22, 5, 132);
    lemma_thickness(3, 25, 5, 150);
    lemma_thickness(4, 23, 6, 115);
    lemma_thickness(4, 28, 6, 140);
    lemma_thickness(4, 33, 6, 165);
    lemma_thickness(4, 38, 6, 190);
    lemma_thickness(4, 43, 6, 215);
    lemma_thickness(4, 48, 6, 240);
}

/// The thickness of an entry whose offset is `thirtieths` thirtieths of a pixel.
proof fn lemma_thickness(passes: u32, num: u32, den: u32, thirtieths: int)
    requires
        1 <= passes <= 4,
        den > 0,
        thirtieths >= 0,
        num * 30 == thirtieths * den,
    ensures
        thickness(band_params(passes, num, den)) == thirtieths * thirtieths * (if passes == 1 {
            3int
        } else if passes == 2 {
            15
        } else if passes == 3 {
            63
        } else {
            255
        }),
{
    reveal_with_fuel(pow, 5);
    vstd::arithmetic::div_mod::lemma_div_by_multiple(thirtieths, den as int);
}

/// The transition blur's parameters: it answers to no compositor setting.
pub open spec fn transition_blur() -> CompositorBlurParams {
    band_params(4, 3268, 1000)
}

/// The transition blur's parameters.
pub fn transition_blur_params() -> (params: CompositorBlurParams)
    ensures
        params == transition_blur(),
{
    CompositorBlurParams { passes: 4, offset: Ratio { num: 3268, den: 1000 } }
}

/// The lesser of two extents, at least one.
pub open spec fn short_side(width: u32, height: u32) -> int {
    let least = if width <= height {
        width as int
    } else {
        height as int
    };
    if least < 1 {
        1
    } else {
        least
    }
}

/// Passes that a `width` by `height` target can carry out of `passes` asked
/// for: as many as halvings keep the short side at a texel or more, and one
/// even where none does.
pub open spec fn carried_passes(width: u32, height: u32, passes: u32) -> int {
    let deepest = log(2, short_side(width, height));
    let most = if deepest < 1 {
        1
    } else {
        deepest
    };
    if passes < 1 {
        1
    } else if passes > most {
        most
    } else {
        passes as int
    }
}

/// Clamps a pass count to what a `width` by `height` target can carry.
pub fn effective_kawase_passes(width: u32, height: u32, passes: u32) -> (count: u32)
    ensures
        count == carried_passes(width, height, passes),
        1 <= count <= 31,
{
    let least: u32 = if width <= height {
        width
    } else {
        height
    };
    let smallest: u32 = if least < 1 {
        1
    } else {
        least
    };
    let mut rest: u32 = smallest;
    let mut deepest: u32 = 0;
    assert(pow2(0) == 1) by {
        lemma2_to64();
    }
    while rest > 1
        invariant
            rest >= 1,
            smallest >= 1,
            log(2, smallest as int) == deepest + log(2, rest as int),
            rest * pow2(deepest as nat) <= smallest,
            deepest <= 31,
        decreases rest,
    {
        proof {
            lemma_log_s(2, rest as int);
            lemma_pow2_unfold((deepest + 1) as nat);
            let half = rest as int / 2;
            let power = pow2(deepest as nat) as int;
            assert(half * (2 * power) <= rest * power) by (nonlinear_arith)
                requires
                    2 * half <= rest,
                    power >= 0,
            ;
            assert(pow2((deepest + 1) as nat) <= u32::MAX) by (nonlinear_arith)
                requires
                    half >= 1,
                    half * (2 * power) <= u32::MAX,
                    pow2((deepest + 1) as nat) == 2 * power,
                    power >= 0,
            ;
            if deepest >= 31 {
                lemma2_to64();
                lemma_pow2_strictly_increases_or_equal(32, (deepest + 1) as nat);
            }
        }
        rest = rest / 2;
        deepest = deepest + 1;
    }
    proof {
        lemma_log0(2, rest as int);
    }
    let most: u32 = if deepest < 1 {
        1
    } else {
        deepest
    };
    if passes < 1 {
        1
    } else if passes > most {
        most
    } else {
        passes
    }
}

proof fn lemma_pow2_strictly_increases_or_equal(a: nat, b: nat)
    requires
        a <= b,
    ensures
        pow2(a) <= pow2(b),
{
    if a < b {
        lemma_pow2_strictly_increases(a, b);
    }
}

/// An extent after `level` halvings, at least one.
pub open spec fn level_extent(extent: u32, level: nat) -> int {
    let halved = extent as int / pow2(level) as int;
    if halved < 1 {
        1
    } else {
        halved
    }
}

/// An extent after `level` halvings.
fn halved_extent(extent: u32, level: u32) -> (halved: u32)
    requires
        level < 32,
    ensures
        halved == level_extent(extent, level as nat),
        halved >= 1,
{
    proof {
        vstd::bits::lemma_u32_shr_is_div(extent, level);
    }
    let shifted: u32 = extent >> level;
    if shifted < 1 {
        1
    } else {
        shifted
    }
}

/// One of the two textures that the steps bounce between.
#[derive(Clone, Copy, Debug, PartialEq, Eq, Structural)]
pub enum PingPong {
    /// Where the transform pass renders, and where every run ends.
    A,
    B,
}

/// One step of the blur: which texture it samples and which it fills, and
/// which sub-rectangle of each.
#[derive(Clone, Copy, Debug, PartialEq, Eq, Structural)]
pub struct KawaseStep {
    pub source: PingPong,
    pub target: PingPong,
    /// Shrinks when set, grows otherwise.
    pub downsample: bool,
    /// Halvings of the sampled sub-rectangle.
    pub source_level: u32,
    pub source_width: u32,
    pub source_height: u32,
    pub target_width: u32,
    pub target_height: u32,
}

/// Halvings of the sub-rectangle that step `k` of a run samples.
pub open spec fn source_level(passes: int, k: int) -> int {
    if k < passes {
        k
    } else {
        2 * passes - k
    }
}

/// Halvings of the sub-rectangle that step `k` of a run fills.
pub open spec fn target_level(passes: int, k: int) -> int {
    if k < passes {
        k + 1
    } else {
        2 * passes - k - 1
    }
}

/// Step `k` of a run of `passes` passes over a `width` by `height` target.
pub open spec fn kawase_step(width: u32, height: u32, passes: int, k: int) -> KawaseStep {
    KawaseStep {
        source: if k % 2 == 0 {
            PingPong::A
        } else {
            PingPong::B
        },
        target: if k % 2 == 0 {
            PingPong::B
        } else {
            PingPong::A
        },
        downsample: k < passes,
        source_level: source_level(passes, k) as u32,
        source_width: level_extent(width, source_level(passes, k) as nat) as u32,
        source_height: level_extent(height, source_level(passes, k) as nat) as u32,
        target_width: level_extent(width, target_level(passes, k) as nat) as u32,
        target_height: level_extent(height, target_level(passes, k) as nat) as u32,
    }
}

/// Passes of a run: what the target carries, at most what is allocated.
pub open spec fn run_passes(width: u32, height: u32, passes: u32) -> int {
    let carried = carried_passes(width, height, passes);
    if carried > MAX_KAWASE_PASSES {
        MAX_KAWASE_PASSES as int
    } else {
        carried
    }
}

/// The steps of a whole run: every downsample, then every upsample.
pub open spec fn kawase_run(width: u32, height: u32, passes: u32) -> Seq<KawaseStep> {
    let count = run_passes(width, height, passes);
    Seq::new((2 * count) as nat, |k: int| kawase_step(width, height, count, k))
}

/// Plans a run of the blur over a `width` by `height` target.
pub fn kawase_chain(width: u32, height: u32, passes: u32) -> (steps: Vec<KawaseStep>)
    ensures
        steps@ == kawase_run(width, height, passes),
{
    let carried: u32 = effective_kawase_passes(width, height, passes);
    let count: u32 = if carried > MAX_KAWASE_PASSES {
        MAX_KAWASE_PASSES
    } else {
        carried
    };
    let mut steps: Vec<KawaseStep> = Vec::new();
    let mut k: u32 = 0;
    while k < 2 * count
        invariant
            k <= 2 * count,
            1 <= count <= MAX_KAWASE_PASSES,
            count == run_passes(width, height, passes),
            steps@ == kawase_run(width, height, passes).take(k as int),
        decreases 2 * count - k,
    {
        let from: u32 = if k < count {
            k
        } else {
            2 * count - k
        };
        let to: u32 = if k < count {
            k + 1
        } else {
            2 * count - k - 1
        };
        let step = KawaseStep {
            source: if k % 2 == 0 {
                PingPong::A
            } else {
                PingPong::B
            },
            target: if k % 2 == 0 {
                PingPong::B
            } else {
                PingPong::A
            },
            downsample: k < count,
            source_level: from,
            source_width: halved_extent(width, from),
            source_height: halved_extent(height, from),
            target_width: halved_extent(width, to),
            target_height: halved_extent(height, to),
        };
        assert(step == kawase_step(width, height, count as int, k as int));
        steps.push(step);
        assert(steps@ =~= kawase_run(width, height, passes).take(k + 1));
        k = k + 1;
    }
    assert(steps@ =~= kawase_run(width, height, passes));
    steps
}

/// The sample offset of a step, as a quotient of whole numbers.
#[derive(Clone, Copy, Debug, PartialEq, Eq, Structural)]
pub struct StepOffset {
    pub num: u32,
    pub den: u64,
}

/// The sample offset of a step that samples after `level` halvings: the base
/// offset, halved as often.
pub open spec fn halved_offset(params: CompositorBlurParams, level: nat) -> StepOffset {
    StepOffset { num: params.offset.num, den: (params.offset.den * pow2(level)) as u64 }
}

/// The sample offset of a step that samples after `level` halvings.
pub fn step_offset(params: &CompositorBlurParams, level: u32) -> (offset: StepOffset)
    requires
        level < 32,
    ensures
        offset.num == params.offset.num,
        offset.den == params.offset.den * pow2(level as nat),
        offset == halved_offset(*params, level as nat),
{
    let mut den: u64 = params.offset.den as u64;
    let mut done: u32 = 0;
    let ghost base = params.offset.den as int;
    proof {
        lemma2_to64();
    }
    while done < level
        invariant
            done <= level < 32,
            0 <= base <= u32::MAX,
            den == base * pow2(done as nat),
        decreases level - done,
    {
        proof {
            lemma2_to64();
            lemma_pow2_unfold((done + 1) as nat);
            lemma_pow2_strictly_increases_or_equal((done + 1) as nat, 31);
            let power = pow2(done as nat) as int;
            let twice = pow2((done + 1) as nat) as int;
            assert(base * twice == 2 * (base * power)) by (nonlinear_arith)
                requires
                    twice == 2 * power,
            ;
            assert(base * twice <= 0xffff_ffff * 0x8000_0000) by (nonlinear_arith)
                requires
                    0 <= base <= 0xffff_ffff,
                    0 <= twice <= 0x8000_0000,
            ;
        }
        den = 2 * den;
        done = done + 1;
    }
    StepOffset { num: params.offset.num, den }
}

/// The sample offset of each step.
pub open spec fn run_offsets(
    params: CompositorBlurParams,
    steps: Seq<KawaseStep>,
) -> Seq<StepOffset> {
    steps.map_values(|step: KawaseStep| halved_offset(params, step.source_level as nat))
}

/// The sample offset of each step.
pub fn step_offsets(params: &CompositorBlurParams, steps: &Vec<KawaseStep>) -> (offsets: Vec<
    StepOffset,
>)
    requires
        forall|k: int| 0 <= k < steps@.len() ==> (#[trigger] steps@[k]).source_level < 32,
    ensures
        offsets@ == run_offsets(*params, steps@),
{
    let mut offsets: Vec<StepOffset> = Vec::new();
    let mut k: usize = 0;
    while k < steps.len()
        invariant
            k <= steps@.len(),
            offsets@.len() == k,
            forall|j: int| 0 <= j < steps@.len() ==> (#[trigger] steps@[j]).source_level < 32,
            forall|j: int|
                0 <= j < k ==> #[trigger] offsets@[j] == run_offsets(*params, steps@)[j],
        decreases steps@.len() - k,
    {
        offsets.push(step_offset(params, steps[k].source_level));
        k = k + 1;
    }
    assert(offsets@ =~= run_offsets(*params, steps@));
    offsets
}

/// On the way down each step samples with half the offset of the one before it,
/// on the way up with twice as much, starting from the base offset.
pub proof fn law_offsets_halve_and_double(
    params: CompositorBlurParams,
    width: u32,
    height: u32,
    passes: u32,
    k: int,
)
    requires
        0 <= k < kawase_run(width, height, passes).len(),
    ensures
        ({
            let count = run_passes(width, height, passes);
            let offsets = run_offsets(params, kawase_run(width, height, passes));
            &&& offsets[0].den == params.offset.den
            &&& offsets[k].num == params.offset.num
            &&& offsets[k].den == params.offset.den * pow2(source_level(count, k) as nat)
            &&& k < count ==> offsets[k + 1].den == 2 * offsets[k].den
            &&& count <= k < 2 * count - 1 ==> offsets[k].den == 2 * offsets[k + 1].den
        }),
{
    let count = run_passes(width, height, passes);
    let run = kawase_run(width, height, passes);
    lemma_log_is_floor(short_side(width, height));
    lemma_offset_at(params, width, height, passes, 0);
    lemma_offset_at(params, width, height, passes, k);
    lemma2_to64();
    assert(params.offset.den * pow2(0) == params.offset.den);
    if k + 1 < 2 * count {
        lemma_offset_at(params, width, height, passes, k + 1);
        let den = params.offset.den as int;
        let here = pow2(source_level(count, k) as nat) as int;
        let next = pow2(source_level(count, k + 1) as nat) as int;
        if k < count {
            lemma_pow2_unfold(source_level(count, k + 1) as nat);
            assert(den * next == 2 * (den * here)) by (nonlinear_arith)
                requires
                    next == 2 * here,
            ;
        } else {
            lemma_pow2_unfold(source_level(count, k) as nat);
            assert(den * here == 2 * (den * next)) by (nonlinear_arith)
                requires
                    here == 2 * next,
            ;
        }
    }
}

proof fn lemma_offset_at(
    params: CompositorBlurParams,
    width: u32,
    height: u32,
    passes: u32,
    k: int,
)
    requires
        0 <= k < kawase_run(width, height, passes).len(),
    ensures
        ({
            let count = run_passes(width, height, passes);
            let offset = run_offsets(params, kawase_run(width, height, passes))[k];
            &&& offset.num == params.offset.num
            &&& offset.den == params.offset.den * pow2(source_level(count, k) as nat)
        }),
{
    let count = run_passes(width, height, passes);
    let level = source_level(count, k) as nat;
    lemma2_to64();
    lemma_pow2_strictly_increases_or_equal(level, 4);
    let den = params.offset.den as int;
    let power = pow2(level) as int;
    assert(0 <= den * power <= 0xffff_ffff * 16) by (nonlinear_arith)
        requires
            0 <= den <= 0xffff_ffff,
            0 <= power <= 16,
    ;
}

/// A pass count never outruns the target: the deepest level of a run on a
/// target two texels or more across keeps at least one.
pub proof fn law_deepest_level_is_not_empty(width: u32, height: u32, passes: u32)
    requires
        width >= 2,
        height >= 2,
    ensures
        width as int / pow2(carried_passes(width, height, passes) as nat) as int >= 1,
        height as int / pow2(carried_passes(width, height, passes) as nat) as int >= 1,
{
    let side = short_side(width, height);
    let deepest = log(2, side);
    lemma_log_s(2, side);
    lemma_log_nonnegative(2, side / 2);
    let count = carried_passes(width, height, passes);
    assert(1 <= count <= deepest);
    lemma_pow2(deepest as nat);
    lemma_log_is_floor(side);
    lemma_pow2_strictly_increases_or_equal(count as nat, deepest as nat);
    lemma_pow2_pos(count as nat);
    let power = pow2(count as nat) as int;
    assert(power <= side);
    vstd::arithmetic::div_mod::lemma_div_is_ordered(power, width as int, power);
    vstd::arithmetic::div_mod::lemma_div_is_ordered(power, height as int, power);
    vstd::arithmetic::div_mod::lemma_div_by_self(power);
}

/// `log` never overshoots.
proof fn lemma_log_is_floor(x: int)
    requires
        x >= 1,
    ensures
        log(2, x) >= 0,
        pow2(log(2, x) as nat) <= x,
    decreases x,
{
    lemma2_to64();
    if x < 2 {
        lemma_log0(2, x);
    } else {
        lemma_log_s(2, x);
        lemma_log_is_floor(x / 2);
        lemma_pow2_unfold(log(2, x) as nat);
    }
}

/// The steps of a run hand over to each other: the first samples the texture
/// that the transform pass filled, each samples exactly the sub-rectangle that
/// the one before it filled, and the last fills that texture again, whole.
pub proof fn law_steps_hand_over(width: u32, height: u32, passes: u32)
    ensures
        ({
            let run = kawase_run(width, height, passes);
            &&& 2 <= run.len() <= 2 * MAX_KAWASE_PASSES
            &&& run.len() % 2 == 0
            &&& run[0].source == PingPong::A
            &&& run[0].source_width == level_extent(width, 0)
            &&& run[0].source_height == level_extent(height, 0)
            &&& forall|k: int, next: int|
                #![trigger run[k], run[next]]
                0 <= k && next == k + 1 && next < run.len() ==> {
                    &&& run[next].source == run[k].target
                    &&& run[next].source_width == run[k].target_width
                    &&& run[next].source_height == run[k].target_height
                }
            &&& forall|k: int|
                #![trigger run[k]]
                0 <= k < run.len() ==> run[k].source != run[k].target
            &&& run.last().target == PingPong::A
            &&& run.last().target_width == level_extent(width, 0)
            &&& run.last().target_height == level_extent(height, 0)
        }),
{
    let run = kawase_run(width, height, passes);
    let count = run_passes(width, height, passes);
    lemma_log_is_floor(short_side(width, height));
    lemma2_to64();
    assert(run.len() == 2 * count);
    assert(run[0] == kawase_step(width, height, count, 0));
    assert(run.last() == kawase_step(width, height, count, 2 * count - 1));
    assert forall|k: int, next: int|
        #![trigger run[k], run[next]]
        0 <= k && next == k + 1 && next < run.len() implies {
        &&& run[next].source == run[k].target
        &&& run[next].source_width == run[k].target_width
        &&& run[next].source_height == run[k].target_height
    } by {
        assert(source_level(count, next) == target_level(count, k));
        assert(run[k] == kawase_step(width, height, count, k));
        assert(run[next] == kawase_step(width, height, count, next));
    }
}

/// Texels that the first `n` steps of a run of `passes` passes fill, in units
/// of the deepest level's share of the screen.
pub open spec fn filled_by_steps(passes: nat, n: nat) -> int
    decreases n,
{
    if n == 0 {
        0
    } else {
        filled_by_steps(passes, (n - 1) as nat) + pow(
            4,
            (passes - target_level(passes as int, n - 1)) as nat,
        )
    }
}

/// Texels that a whole run fills, the transform pass among them, in units of
/// the deepest level's share of the screen.
pub open spec fn filled_by_run(passes: nat) -> int {
    pow(4, passes) + filled_by_steps(passes, 2 * passes)
}

/// What the downsamples fill.
proof fn lemma_filled_down(passes: nat, n: nat)
    requires
        n <= passes,
    ensures
        3 * filled_by_steps(passes, n) == pow(4, passes) - pow(4, (passes - n) as nat),
    decreases n,
{
    if n > 0 {
        lemma_filled_down(passes, (n - 1) as nat);
        lemma_pow_unfold(4, (passes - n + 1) as nat);
    }
}

proof fn lemma_pow_unfold(b: int, e: nat)
    requires
        e > 0,
    ensures
        pow(b, e) == b * pow(b, (e - 1) as nat),
{
    reveal(pow);
}

/// What the downsamples and the first `n` upsamples fill.
proof fn lemma_filled_up(passes: nat, n: nat)
    requires
        n <= passes,
    ensures
        3 * filled_by_steps(passes, passes + n) == pow(4, passes) - 1 + 4 * (pow(4, n) - 1),
    decreases n,
{
    lemma_pow0(4);
    if n == 0 {
        lemma_filled_down(passes, passes);
    } else {
        lemma_filled_up(passes, (n - 1) as nat);
        lemma_pow_unfold(4, n);
        assert(target_level(passes as int, passes + n - 1) == passes - n);
        assert((passes + n - 1) as nat == (passes + (n - 1) as nat));
    }
}

/// The blur costs less than three screens of fill whatever the pass count, and
/// at least nine quarters: the setting barely matters, because the upsample
/// back to full size dominates.
pub proof fn law_chain_cost_is_flat(passes: nat)
    requires
        passes >= 1,
    ensures
        3 * filled_by_run(passes) == 8 * pow(4, passes) - 5,
        filled_by_run(passes) < 3 * pow(4, passes),
        4 * filled_by_run(passes) >= 9 * pow(4, passes),
{
    lemma_filled_up(passes, passes);
    lemma_pow_unfold(4, passes);
    lemma_pow_positive(4, (passes - 1) as nat);
}

/// Level by level the table is walked one entry at a time, from the second entry to
/// the last, where it stays.
pub proof fn law_levels_walk_the_table(level: u8)
    ensures
        blur_index(0) == 1,
        level < 13 ==> blur_index((level + 1) as u8) == blur_index(level) + 1,
        level >= 13 ==> blur_index(level) == 14,
        0 <= blur_index(level) < blur_table().len(),
{
    law_blur_table_entries();
}

/// As many passes are run as asked for, as long as each still halves the short side;
/// where fewer are, one more would leave nothing of it, or more than are allocated
/// were asked for. One is always run.
pub proof fn law_no_pass_is_left_out(width: u32, height: u32, passes: u32)
    ensures
        ({
            let count = run_passes(width, height, passes);
            let side = if width <= height {
                width as int
            } else {
                height as int
            };
            &&& 1 <= count <= 4
            &&& passes >= 1 ==> count <= passes
            &&& count < passes && count < 4 ==> side < pow2((count + 1) as nat)
            &&& count > 1 ==> pow2(count as nat) <= side
            &&& kawase_run(width, height, passes).len() == 2 * count
        }),
{
    let side = short_side(width, height);
    lemma_log_is_floor(side);
    lemma_log_ceiling(side);
    lemma2_to64();
    let deepest = log(2, side);
    let count = run_passes(width, height, passes);
    if count > 1 {
        lemma_pow2_strictly_increases_or_equal(count as nat, deepest as nat);
    }
}

proof fn lemma_log_ceiling(x: int)
    requires
        x >= 1,
    ensures
        log(2, x) >= 0,
        x < pow2((log(2, x) + 1) as nat),
    decreases x,
{
    lemma2_to64();
    if x < 2 {
        lemma_log0(2, x);
    } else {
        lemma_log_s(2, x);
        lemma_log_ceiling(x / 2);
        lemma_pow2_unfold((log(2, x) + 1) as nat);
    }
}

/// The first half of a run shrinks: each step fills half of what it samples, each
/// way, and at least a texel. The second half grows back through the same sizes. It
/// starts and ends with the whole target.
pub proof fn law_runs_halve_and_grow_back(width: u32, height: u32, passes: u32, k: int)
    requires
        0 <= k < kawase_run(width, height, passes).len(),
    ensures
        ({
            let run = kawase_run(width, height, passes);
            let step = run[k];
            let mirror = run[run.len() - 1 - k];
            &&& step.downsample <==> 2 * k < run.len()
            &&& step.target_width >= 1 && step.target_height >= 1
            &&& step.downsample ==> {
                &&& step.target_width == (if step.source_width >= 2 {
                    step.source_width as int / 2
                } else {
                    1
                })
                &&& step.target_height == (if step.source_height >= 2 {
                    step.source_height as int / 2
                } else {
                    1
                })
            }
            &&& mirror.target_width == step.source_width && mirror.target_height
                == step.source_height
            &&& mirror.source_width == step.target_width && mirror.source_height
                == step.target_height
            &&& width >= 1 ==> run[0].source_width == width
            &&& height >= 1 ==> run[0].source_height == height
            &&& step.source != step.target
            &&& step.source is A <==> k % 2 == 0
        }),
{
    let run = kawase_run(width, height, passes);
    let count = run_passes(width, height, passes);
    lemma_log_is_floor(short_side(width, height));
    lemma2_to64();
    assert(run[k] == kawase_step(width, height, count, k));
    let m = run.len() - 1 - k;
    assert(run[m] == kawase_step(width, height, count, m));
    assert(run[0] == kawase_step(width, height, count, 0));
    assert(source_level(count, m) == target_level(count, k));
    assert(target_level(count, m) == source_level(count, k));
    lemma_level_extent(width, source_level(count, k) as nat);
    lemma_level_extent(height, source_level(count, k) as nat);
    lemma_level_extent(width, target_level(count, k) as nat);
    lemma_level_extent(height, target_level(count, k) as nat);
    lemma_level_extent(width, 0);
    lemma_level_extent(height, 0);
}

/// One more halving halves, and no extent is ever more than the first.
proof fn lemma_level_extent(extent: u32, level: nat)
    ensures
        1 <= level_extent(extent, level) <= (if extent >= 1 {
            extent as int
        } else {
            1
        }),
        level == 0 && extent >= 1 ==> level_extent(extent, level) == extent,
        level_extent(extent, level + 1) == (if level_extent(extent, level) >= 2 {
            level_extent(extent, level) / 2
        } else {
            1
        }),
{
    lemma2_to64();
    lemma_pow2_pos(level);
    lemma_pow2_unfold(level + 1);
    let power = pow2(level) as int;
    let whole = extent as int;
    if level == 0 {
        assert(power == 1);
        assert(whole / 1 == whole);
    }
    vstd::arithmetic::div_mod::lemma_div_denominator(whole, power, 2);
    assert(power * 2 == 2 * power) by (nonlinear_arith);
    assert(0 <= whole / power <= whole) by (nonlinear_arith)
        requires
            whole >= 0,
            power >= 1,
    ;
}

/// The sample offset of a step is the base offset, halved for every halving of what
/// it samples: the offset of one level is twice that of the next.
pub proof fn law_offsets_follow_the_level(params: CompositorBlurParams, level: nat)
    requires
        level < 31,
    ensures
        halved_offset(params, 0).den == params.offset.den,
        halved_offset(params, level).num == params.offset.num,
        halved_offset(params, level + 1).den == 2 * halved_offset(params, level).den,
{
    lemma2_to64();
    lemma_pow2_unfold(level + 1);
    lemma_pow2_strictly_increases_or_equal(level + 1, 31);
    lemma_pow2_pos(level);
    let den = params.offset.den as int;
    let here = pow2(level) as int;
    let next = pow2(level + 1) as int;
    assert(den * next == 2 * (den * here)) by (nonlinear_arith)
        requires
            next == 2 * here,
    ;
    assert(0 <= den * next <= 0xffff_ffff * 0x8000_0000) by (nonlinear_arith)
        requires
            0 <= den <= 0xffff_ffff,
            0 <= next <= 0x8000_0000,
    ;
    assert(den * pow2(0) == den);
}

} // verus!
