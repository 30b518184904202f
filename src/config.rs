//! The settings of a game, with their defaults.
use vstd::prelude::*;

verus! {

/// Settings of the game as a whole.
#[derive(Debug)]
pub struct GameConfig {
    pub name: String,
}

/// The default game settings.
pub open spec fn default_game(c: &GameConfig) -> bool {
    c.name@ == "Rusty Legions"@
}

/// The default player: nameless, with no pools, skills or equipment, and
/// every attribute rolled as `1d1`.
pub open spec fn default_player(r: &PlayerConfig) -> bool {
    &&& r.name@ == "unknown"@
    &&& r.hp == 0
    &&& r.mp == 0
    &&& r.str@ == "1d1"@
    &&& r.con@ == "1d1"@
    &&& r.int@ == "1d1"@
    &&& r.dex@ == "1d1"@
    &&& r.vision_range == 0
    &&& r.skills.melee == 0 && r.skills.defense == 0 && r.skills.magic == 0
    &&& r.hp_regen.frequency == 0 && r.hp_regen.amount == 0
    &&& r.mp_regen.frequency == 0 && r.mp_regen.amount == 0
    &&& r.equipment.equipped@.len() == 0
    &&& r.equipment.carried@.len() == 0
    &&& r.equipment.carried_stacks@.len() == 0
}

/// The default world: ten levels of ten by ten.
pub open spec fn default_world(r: &WorldConfig) -> bool {
    &&& r.name@ == "The World"@
    &&& r.max_levels == 10
    &&& r.default_map_width == 10
    &&& r.default_map_height == 10
}

impl GameConfig {
    /// The default game settings.
    pub fn new() -> (r: GameConfig)
        ensures
            default_game(&r),
    {
        GameConfig { name: String::from_str("Rusty Legions") }
    }
}

/// A skill set of the player.
#[derive(Debug)]
pub struct PlayerSkills {
    pub melee: i32,
    pub defense: i32,
    pub magic: i32,
}

/// How often, and by how much, a pool regenerates.
#[derive(Debug)]
pub struct PlayerRegen {
    pub frequency: i32,
    pub amount: i32,
}

/// A number of items of one name.
#[derive(Debug)]
pub struct ItemStack {
    pub name: String,
    pub amount: i32,
}

/// What the player starts with.
#[derive(Debug)]
pub struct PlayerEquipment {
    pub equipped: Vec<String>,
    pub carried: Vec<String>,
    pub carried_stacks: Vec<ItemStack>,
}

/// The player at the start of a game. Attributes are dice in `NdM+K`
/// notation.
#[derive(Debug)]
pub struct PlayerConfig {
    pub name: String,
    pub hp: i32,
    pub mp: i32,
    pub str: String,
    pub con: String,
    pub int: String,
    pub dex: String,
    pub vision_range: i32,
    pub skills: PlayerSkills,
    pub hp_regen: PlayerRegen,
    pub mp_regen: PlayerRegen,
    pub equipment: PlayerEquipment,
}

impl PlayerConfig {
    /// The default player; see `default_player`.
    pub fn new() -> (r: PlayerConfig)
        ensures
            default_player(&r),
    {
        PlayerConfig {
            name: String::from_str("unknown"),
            hp: 0,
            mp: 0,
            str: String::from_str("1d1"),
            con: String::from_str("1d1"),
            int: String::from_str("1d1"),
            dex: String::from_str("1d1"),
            vision_range: 0,
            skills: PlayerSkills { melee: 0, defense: 0, magic: 0 },
            hp_regen: PlayerRegen { frequency: 0, amount: 0 },
            mp_regen: PlayerRegen { frequency: 0, amount: 0 },
            equipment: PlayerEquipment {
                equipped: Vec::new(),
                carried: Vec::new(),
                carried_stacks: Vec::new(),
            },
        }
    }
}

/// Settings of the world: its name, how many levels it has, and the size
/// of a level.
#[derive(Debug)]
pub struct WorldConfig {
    pub name: String,
    pub max_levels: i32,
    pub default_map_width: i32,
    pub default_map_height: i32,
}

impl WorldConfig {
    /// The default world; see `default_world`.
    pub fn new() -> (r: WorldConfig)
        ensures
            default_world(&r),
    {
        WorldConfig {
            name: String::from_str("The World"),
            max_levels: 10,
            default_map_width: 10,
            default_map_height: 10,
        }
    }
}

/// All settings.
#[derive(Debug)]
pub struct Config {
    pub game: GameConfig,
    pub player: PlayerConfig,
    pub world: WorldConfig,
}

/// Holds the settings in force.
#[derive(Debug)]
pub struct ConfigMaster {
    pub config: Config,
}

impl ConfigMaster {
    /// The default settings.
    pub fn new() -> (r: ConfigMaster)
        ensures
            default_game(&r.config.game),
            default_player(&r.config.player),
            default_world(&r.config.world),
    {
        ConfigMaster {
            config: Config {
                game: GameConfig::new(),
                player: PlayerConfig::new(),
                world: WorldConfig::new(),
            },
        }
    }

    /// Puts `config` in force.
    pub fn load(&mut self, config: Config)
        ensures
            final(self).config == config,
    {
        self.config = config;
    }
}

} // verus!
