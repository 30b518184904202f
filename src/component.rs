//! The data an actor carries: where it stands, its pools, attributes and
//! energy.
use crate::gamelogic::{RollResult, RollResultType, Rollable};
use crate::rng::{roll_str, GameRng};
use vstd::prelude::*;

verus! {

/// A grid cell and the level it belongs to.
#[derive(PartialEq, Eq, Structural, Clone, Copy, Debug)]
pub struct Position {
    pub x: i32,
    pub y: i32,
    pub map: i32,
}

impl Default for Position {
    fn default() -> (r: Position)
        ensures
            r == (Position { x: 0, y: 0, map: 0 }),
    {
        Position { x: 0, y: 0, map: 0 }
    }
}

/// A quantity between 0 and a maximum, such as hit points.
#[derive(PartialEq, Eq, Structural, Clone, Copy, Debug, Default)]
pub struct Pool {
    pub current: i32,
    pub max: i32,
}

impl Pool {
    /// A full pool of capacity `max`.
    pub fn new(max: i32) -> (r: Pool)
        ensures
            r.current == max,
            r.max == max,
    {
        Pool { current: max, max }
    }

    /// A pool holding `current` of capacity `max`.
    pub fn init(current: i32, max: i32) -> (r: Pool)
        ensures
            r.current == current,
            r.max == max,
    {
        Pool { current, max }
    }

    /// Takes `amount` away; the pool does not go below 0.
    pub fn decrease(&mut self, amount: i32)
        requires
            old(self).current - amount <= i32::MAX,
        ensures
            final(self).max == old(self).max,
            final(self).current == (if old(self).current - amount < 0 {
                0
            } else {
                old(self).current - amount
            }),
            final(self).current >= 0,
    {
        let v: i64 = self.current as i64 - amount as i64;
        self.current = if v < 0 {
            0
        } else {
            v as i32
        };
    }

    /// Adds `amount`; the pool does not go above its maximum.
    pub fn increase(&mut self, amount: i32)
        requires
            old(self).current + amount >= i32::MIN,
        ensures
            final(self).max == old(self).max,
            final(self).current == (if old(self).current + amount > old(self).max {
                old(self).max as int
            } else {
                old(self).current + amount
            }),
            final(self).current <= final(self).max,
    {
        let v: i64 = self.current as i64 + amount as i64;
        self.current = if v > self.max as i64 {
            self.max
        } else {
            v as i32
        };
    }

    /// Empties the pool.
    pub fn empty(&mut self)
        ensures
            final(self).current == 0,
            final(self).max == old(self).max,
    {
        self.current = 0;
    }

    /// Whether the pool is empty.
    pub fn is_empty(&self) -> (r: bool)
        ensures
            r == (self.current == 0),
    {
        self.current == 0
    }

    /// Whether the pool is full.
    pub fn is_full(&self) -> (r: bool)
        ensures
            r == (self.current == self.max),
    {
        self.current == self.max
    }

    /// Sets the pool to `amount`, raised to 0 and then lowered to the
    /// maximum.
    pub fn set(&mut self, amount: i32)
        ensures
            final(self).max == old(self).max,
            final(self).current == (if amount < 0 {
                if 0 > old(self).max { old(self).max } else { 0 }
            } else if amount > old(self).max {
                old(self).max
            } else {
                amount
            }),
            0 <= old(self).max ==> 0 <= final(self).current <= final(self).max,
    {
        self.current = amount;
        if self.current < 0 {
            self.current = 0;
        }
        if self.current > self.max {
            self.current = self.max;
        }
    }

    /// Fills the pool.
    pub fn set_max(&mut self)
        ensures
            final(self).current == old(self).max,
            final(self).max == old(self).max,
    {
        self.current = self.max;
    }
}

/// A percentile attribute: its base, and what modifies it.
#[derive(PartialEq, Eq, Structural, Clone, Copy, Debug, Default)]
pub struct Attribute {
    pub base: i32,
    pub modifiers: i32,
    pub bonus: i32,
}

/// `a / b` rounded toward zero, for positive `b`.
pub open spec fn div_toward_zero(a: int, b: int) -> int {
    if a >= 0 {
        a / b
    } else {
        -((-a) / b)
    }
}

/// The larger of two numbers.
pub open spec fn larger(a: int, b: int) -> int {
    if a >= b {
        a
    } else {
        b
    }
}

/// The outcome of `roll` against `base`. A roll at or under the base
/// succeeds: a 1 critically, one within a tenth of the base (at least 2)
/// extremely, one within two fifths (at least 3) greatly. A roll over it
/// fails: a 100 critically, one within a tenth of the rest up to 100 (at
/// least 1) of the top extremely, one within two fifths (at least 2)
/// greatly. Fractions are rounded toward zero.
pub open spec fn check_outcome(base: int, roll: int) -> RollResult {
    let great_success = larger(div_toward_zero(base * 2, 5), 3);
    let extreme_success = larger(div_toward_zero(base, 10), 2);
    let great_failure = larger(div_toward_zero((100 - base) * 2, 5), 2);
    let extreme_failure = larger(div_toward_zero(100 - base, 10), 1);
    if roll <= base {
        if roll == 1 {
            RollResult::Success(RollResultType::Critical)
        } else if roll <= extreme_success {
            RollResult::Success(RollResultType::Extreme)
        } else if roll <= great_success {
            RollResult::Success(RollResultType::Great)
        } else {
            RollResult::Success(RollResultType::Normal)
        }
    } else if roll == 100 {
        RollResult::Failure(RollResultType::Critical)
    } else if 100 - roll < extreme_failure {
        RollResult::Failure(RollResultType::Extreme)
    } else if 100 - roll < great_failure {
        RollResult::Failure(RollResultType::Great)
    } else {
        RollResult::Failure(RollResultType::Normal)
    }
}

fn div_toward_zero_exec(a: i64, b: i64) -> (r: i64)
    requires
        0 < b,
        -0x1_0000_0000_0000 <= a <= 0x1_0000_0000_0000,
    ensures
        r == div_toward_zero(a as int, b as int),
{
    if a >= 0 {
        a / b
    } else {
        -((-a) / b)
    }
}

impl Attribute {
    /// The outcome of `roll` against this attribute's base.
    pub fn check(&self, roll: i32) -> (r: RollResult)
        ensures
            r == check_outcome(self.base as int, roll as int),
    {
        let base = self.base as i64;
        let gs = div_toward_zero_exec(base * 2, 5);
        let great_success = if gs >= 3 { gs } else { 3 };
        let es = div_toward_zero_exec(base, 10);
        let extreme_success = if es >= 2 { es } else { 2 };
        let gf = div_toward_zero_exec((100 - base) * 2, 5);
        let great_failure = if gf >= 2 { gf } else { 2 };
        let ef = div_toward_zero_exec(100 - base, 10);
        let extreme_failure = if ef >= 1 { ef } else { 1 };
        let roll = roll as i64;
        if roll <= base {
            if roll == 1 {
                RollResult::Success(RollResultType::Critical)
            } else if roll <= extreme_success {
                RollResult::Success(RollResultType::Extreme)
            } else if roll <= great_success {
                RollResult::Success(RollResultType::Great)
            } else {
                RollResult::Success(RollResultType::Normal)
            }
        } else if roll == 100 {
            RollResult::Failure(RollResultType::Critical)
        } else if 100 - roll < extreme_failure {
            RollResult::Failure(RollResultType::Extreme)
        } else if 100 - roll < great_failure {
            RollResult::Failure(RollResultType::Great)
        } else {
            RollResult::Failure(RollResultType::Normal)
        }
    }

    /// Rolls one die of a hundred and checks it against this attribute.
    pub fn roll(&self, rng: &mut GameRng) -> (r: RollResult)
        ensures
            exists|v: i32| r == check_outcome(self.base as int, v as int),
    {
        let v = roll_str(rng, "1d100");
        self.check(v)
    }
}

impl Rollable for Attribute {
    fn check(&self, roll: i32) -> RollResult {
        Attribute::check(self, roll)
    }

    fn roll(&self, rng: &mut GameRng) -> RollResult {
        Attribute::roll(self, rng)
    }
}

/// Marks the actor that the player controls.
#[derive(Clone, Copy, Debug, Default)]
pub struct Player {}

/// Marks a sentient being.
#[derive(Clone, Copy, Debug, Default)]
pub struct Sentient {}

/// Marks a being with a physical body.
#[derive(Clone, Copy, Debug, Default)]
pub struct Corporeal {}

/// Marks a being with a mind.
#[derive(Clone, Copy, Debug, Default)]
pub struct Mental {}

/// Marks a being with a soul.
#[derive(Clone, Copy, Debug, Default)]
pub struct Spiritual {}

/// The colours an actor is drawn in.
#[derive(PartialEq, Eq, Structural, Clone, Copy, Debug)]
pub enum Color {
    Black,
    Red,
    Yellow,
    Gray,
    White,
}

/// How an actor is drawn: its character, colours, and drawing order.
#[derive(PartialEq, Eq, Structural, Clone, Copy, Debug)]
pub struct Render {
    pub glyph: char,
    pub fg: Color,
    pub bg: Color,
    pub order: i32,
    pub always: bool,
}

/// A short and a full name.
#[derive(Clone, Debug, Default)]
pub struct DetailedName {
    pub base: String,
    pub full: String,
}

/// The stats of an actor that change often.
#[derive(Clone, Copy, Debug, Default)]
pub struct Stats {
    /// Hit points.
    pub hp: Pool,
    /// Magic points.
    pub mp: Pool,
    /// Experience points.
    pub xp: i32,
    /// Defense value.
    pub dv: i32,
    /// Protection value.
    pub pv: i32,
    /// Experience level.
    pub lv: i32,
}

/// The four attributes of an actor.
#[derive(Clone, Copy, Debug, Default)]
pub struct Attributes {
    pub str: Attribute,
    pub dex: Attribute,
    pub con: Attribute,
    pub int: Attribute,
}

/// The energy that an ordinary move costs.
pub const MOVE_COST: i32 = 100;

/// What an actor means to do next, before it is checked or paid for.
#[derive(PartialEq, Eq, Structural, Clone, Copy, Debug)]
pub enum Intent {
    MoveRelative { dx: i32, dy: i32 },
    MoveAbsolute { x: i32, y: i32 },
    Nothing,
}

impl Intent {
    /// The base energy cost of the intent: a move costs `MOVE_COST`, doing
    /// nothing costs nothing.
    pub open spec fn cost(self) -> int {
        match self {
            Intent::Nothing => 0,
            _ => MOVE_COST as int,
        }
    }

    /// The base energy cost of the intent.
    pub fn energy_cost(&self) -> (r: i32)
        ensures
            r == self.cost(),
            r >= 0,
    {
        match self {
            Intent::Nothing => 0,
            _ => MOVE_COST,
        }
    }
}

/// How fast an actor is, in hundredths: 100 is the usual speed.
#[derive(PartialEq, Eq, Structural, Clone, Copy, Debug)]
pub struct Speed {
    pub percent: u32,
}

/// The energy an actor has gathered.
#[derive(PartialEq, Eq, Structural, Clone, Copy, Debug)]
pub struct Energy {
    pub energy: i32,
}

/// An action that has been checked and paid for.
#[derive(PartialEq, Eq, Structural, Clone, Copy, Debug)]
pub enum PerformAction {
    MoveAbsolute { x: i32, y: i32 },
    MoveRelative { dx: i32, dy: i32 },
}

/// Energy that an actor is to pay for its committed action.
#[derive(PartialEq, Eq, Structural, Clone, Copy, Debug)]
pub struct SpendEnergy(pub i32);

} // verus!
