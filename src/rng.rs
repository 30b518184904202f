//! The seeded random source. Every draw of the library goes through one
//! `GameRng` handle, passed by exclusive reference, so that a run is a
//! function of its seed and of the order of the calls.
use bracket_random::prelude::{parse_dice_string, RandomNumberGenerator};
use vstd::prelude::*;

verus! {

#[verifier::external_type_specification]
#[verifier::external_body]
pub struct ExRandomNumberGenerator(RandomNumberGenerator);

/// What `parse_dice_string` makes of a dice string: the number of dice, the
/// number of faces and the bonus, or `None` where the string is refused.
pub uninterp spec fn dice_notation(s: Seq<char>) -> Option<(i32, i32, i32)>;

/// The generator that `RandomNumberGenerator::seeded` makes from a seed.
pub uninterp spec fn seeded_stream(seed: u64) -> RandomNumberGenerator;

/// Relies on `RandomNumberGenerator::seeded`: a generator whose whole
/// stream is fixed by the seed.
#[verifier::external_body]
fn generator_from_seed(seed: u64) -> (r: RandomNumberGenerator)
    ensures
        r == seeded_stream(seed),
{
    RandomNumberGenerator::seeded(seed)
}

/// Relies on `RandomNumberGenerator::range`: a value in `[min, max)`; it
/// panics on an empty range.
#[verifier::external_body]
fn generator_range(g: &mut RandomNumberGenerator, min: i32, max: i32) -> (r: i32)
    requires
        min < max,
    ensures
        min <= r < max,
{
    g.range(min, max)
}

/// Relies on `RandomNumberGenerator::roll_dice`: the sum of `n` draws, each
/// in `[1, die_type]`, and 0 where `n` is not positive. A draw on an empty
/// range, or a sum past `i32::MAX`, panics.
#[verifier::external_body]
fn generator_roll_dice(g: &mut RandomNumberGenerator, n: i32, die_type: i32) -> (r: i32)
    requires
        n <= 0 || (1 <= die_type < i32::MAX && n * die_type <= i32::MAX),
    ensures
        n <= 0 ==> r == 0,
        n >= 1 ==> n <= r <= n * die_type,
{
    g.roll_dice(n, die_type)
}

/// Relies on `RandomNumberGenerator::next_u64`: the next raw value of the
/// stream.
#[verifier::external_body]
fn generator_next_u64(g: &mut RandomNumberGenerator) -> (r: u64) {
    g.next_u64()
}

/// Relies on `parse_dice_string`, which reads `NdM`, `NdM+K` or `NdM-K`
/// (white space ignored) and depends on the string alone. `N` and `M` are
/// read from decimal digits, so they are never negative.
#[verifier::external_body]
fn parse_dice(s: &str) -> (r: Option<(i32, i32, i32)>)
    ensures
        r == dice_notation(s@),
        r matches Some(d) ==> d.0 >= 0 && d.1 >= 0,
{
    match parse_dice_string(s) {
        Ok(d) => Some((d.n_dice, d.die_type, d.bonus)),
        Err(_) => None,
    }
}

/// The seeded random stream of a run.
pub struct GameRng {
    generator: RandomNumberGenerator,
}

impl GameRng {
    /// The generator's state.
    pub closed spec fn stream(&self) -> RandomNumberGenerator {
        self.generator
    }

    /// A stream fixed by `seed`.
    pub fn seeded(seed: u64) -> (r: GameRng)
        ensures
            r.stream() == seeded_stream(seed),
    {
        GameRng { generator: generator_from_seed(seed) }
    }
}

/// Replaces the stream by the one that `seed` fixes.
pub fn reseed(rng: &mut GameRng, seed: u64)
    ensures
        final(rng).stream() == seeded_stream(seed),
{
    rng.generator = generator_from_seed(seed);
}

/// The sum of `n` dice with `t` faces each; 0 where `n` is not positive.
pub fn roll_dice(rng: &mut GameRng, n: i32, t: i32) -> (r: i32)
    requires
        n <= 0 || (1 <= t < i32::MAX && n * t <= i32::MAX),
    ensures
        n <= 0 ==> r == 0,
        n >= 1 ==> n <= r <= n * t,
{
    generator_roll_dice(&mut rng.generator, n, t)
}

/// A value between `min` and `max`, both included.
pub fn range(rng: &mut GameRng, min: i32, max: i32) -> (r: i32)
    requires
        min <= max < i32::MAX,
    ensures
        min <= r <= max,
{
    generator_range(&mut rng.generator, min, max + 1)
}

/// The next raw 64-bit value of the stream.
pub fn next_u64(rng: &mut GameRng) -> (r: u64) {
    generator_next_u64(&mut rng.generator)
}

/// Dice in `NdM+K` notation: `n_dice` dice with `die_type` faces each, plus
/// `bonus`.
#[derive(PartialEq, Eq, Structural, Copy, Clone, Debug)]
pub struct Dice {
    pub n_dice: i32,
    pub die_type: i32,
    pub bonus: i32,
}

impl Dice {
    /// The smallest total of a roll.
    pub open spec fn min_total(self) -> int {
        (if self.n_dice <= 0 { 0 } else { self.n_dice as int }) + self.bonus
    }

    /// The largest total of a roll.
    pub open spec fn max_total(self) -> int {
        (if self.n_dice <= 0 { 0 } else { self.n_dice * self.die_type }) + self.bonus
    }

    /// Whether the dice can be rolled: every die has a face, and every total
    /// is an `i32`.
    pub open spec fn rollable(self) -> bool {
        (self.n_dice <= 0 || (1 <= self.die_type < i32::MAX && self.n_dice * self.die_type
            <= i32::MAX)) && i32::MIN <= self.min_total() && self.max_total() <= i32::MAX
    }
}

/// The dice that a notation string stands for, if it is well formed.
pub open spec fn dice_of(s: Seq<char>) -> Option<Dice> {
    match dice_notation(s) {
        Some(d) => Some(Dice { n_dice: d.0, die_type: d.1, bonus: d.2 }),
        None => None,
    }
}

proof fn lemma_product_fits(a: int, b: int)
    requires
        0 <= a <= i32::MAX,
        0 <= b <= i32::MAX,
    ensures
        0 <= a * b <= i32::MAX * i32::MAX,
{
    assert(0 <= a * b <= i32::MAX * i32::MAX) by (nonlinear_arith)
        requires
            0 <= a <= i32::MAX,
            0 <= b <= i32::MAX,
    ;
}

/// Rolls parsed dice. Malformed notation (`None`) and dice that cannot be
/// rolled give the sentinel 0.
pub fn roll_parsed(rng: &mut GameRng, dice: Option<Dice>) -> (r: i32)
    ensures
        dice is None ==> r == 0,
        dice matches Some(d) ==> (!d.rollable() ==> r == 0),
        dice matches Some(d) ==> (d.rollable() ==> d.min_total() <= r <= d.max_total()),
{
    match dice {
        None => 0,
        Some(d) => {
            let mut top: i64 = 0;
            if d.n_dice > 0 {
                if d.die_type < 1 || d.die_type == i32::MAX {
                    return 0;
                }
                proof {
                    lemma_product_fits(d.n_dice as int, d.die_type as int);
                }
                top = d.n_dice as i64 * d.die_type as i64;
                if top > i32::MAX as i64 {
                    return 0;
                }
            }
            let lo: i64 = (if d.n_dice <= 0 { 0 } else { d.n_dice as i64 }) + d.bonus as i64;
            let hi: i64 = top + d.bonus as i64;
            if lo < i32::MIN as i64 || hi > i32::MAX as i64 {
                return 0;
            }
            let sum = generator_roll_dice(&mut rng.generator, d.n_dice, d.die_type);
            (sum as i64 + d.bonus as i64) as i32
        },
    }
}

/// Rolls dice given in `NdM+K` notation. Malformed notation gives 0.
pub fn roll_str(rng: &mut GameRng, dice: &str) -> (r: i32)
    ensures
        dice_of(dice@) is None ==> r == 0,
        dice_of(dice@) matches Some(d) ==> (!d.rollable() ==> r == 0),
        dice_of(dice@) matches Some(d) ==> (d.rollable() ==> d.min_total() <= r
            <= d.max_total()),
{
    let parsed = match parse_dice(dice) {
        Some(t) => Some(Dice { n_dice: t.0, die_type: t.1, bonus: t.2 }),
        None => None,
    };
    roll_parsed(rng, parsed)
}

} // verus!
