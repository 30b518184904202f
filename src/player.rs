//! The player's character, made from the settings.
use crate::component::{
    Attribute, Attributes, Color, DetailedName, Player, Pool, Position, Render, Stats,
};
use crate::config::PlayerConfig;
use crate::rng::{dice_of, roll_str, GameRng};
use vstd::prelude::*;

verus! {

/// A roll of the dice `s` stands for: within the dice's bounds where they
/// can be rolled, 0 where they cannot or `s` is malformed.
pub open spec fn rolled_from(s: Seq<char>, v: i32) -> bool {
    match dice_of(s) {
        Some(d) => if d.rollable() {
            d.min_total() <= v <= d.max_total()
        } else {
            v == 0
        },
        None => v == 0,
    }
}

/// Everything the player's actor starts with.
pub struct PlayerBundle {
    pub player: Player,
    pub detailed_name: DetailedName,
    pub stats: Stats,
    pub render: Render,
    pub attributes: Attributes,
    pub position: Position,
}

/// An attribute of base `base`, unmodified.
fn plain_attribute(base: i32) -> (r: Attribute)
    ensures
        r.base == base,
        r.modifiers == 0,
        r.bonus == 0,
{
    Attribute { base, modifiers: 0, bonus: 0 }
}

impl PlayerBundle {
    /// The player at `pos`: full pools from the settings, level 1, drawn as
    /// a yellow `@`, and strength, dexterity, constitution and intelligence
    /// rolled in that order from the settings' dice.
    pub fn new(pos: Position, cfg: &PlayerConfig, rng: &mut GameRng) -> (r: PlayerBundle)
        ensures
            r.position == pos,
            r.detailed_name.base@ == "you"@,
            r.detailed_name.full@ == cfg.name@,
            r.stats.hp == (Pool { current: cfg.hp, max: cfg.hp }),
            r.stats.mp == (Pool { current: cfg.mp, max: cfg.mp }),
            r.stats.xp == 0 && r.stats.pv == 0 && r.stats.dv == 0 && r.stats.lv == 1,
            r.render == (Render { glyph: '@', fg: Color::Yellow, bg: Color::Black, order: 1, always: false }),
            rolled_from(cfg.str@, r.attributes.str.base),
            rolled_from(cfg.dex@, r.attributes.dex.base),
            rolled_from(cfg.con@, r.attributes.con.base),
            rolled_from(cfg.int@, r.attributes.int.base),
            r.attributes.str.modifiers == 0 && r.attributes.str.bonus == 0,
            r.attributes.dex.modifiers == 0 && r.attributes.dex.bonus == 0,
            r.attributes.con.modifiers == 0 && r.attributes.con.bonus == 0,
            r.attributes.int.modifiers == 0 && r.attributes.int.bonus == 0,
    {
        let str_roll = roll_str(rng, cfg.str.as_str());
        let dex_roll = roll_str(rng, cfg.dex.as_str());
        let con_roll = roll_str(rng, cfg.con.as_str());
        let int_roll = roll_str(rng, cfg.int.as_str());
        PlayerBundle {
            player: Player {  },
            detailed_name: DetailedName {
                base: String::from_str("you"),
                full: cfg.name.clone(),
            },
            stats: Stats {
                hp: Pool::new(cfg.hp),
                mp: Pool::new(cfg.mp),
                xp: 0,
                pv: 0,
                dv: 0,
                lv: 1,
            },
            render: Render { glyph: '@', fg: Color::Yellow, bg: Color::Black, order: 1, always: false },
            attributes: Attributes {
                str: plain_attribute(str_roll),
                dex: plain_attribute(dex_roll),
                con: plain_attribute(con_roll),
                int: plain_attribute(int_roll),
            },
            position: pos,
        }
    }
}

} // verus!
