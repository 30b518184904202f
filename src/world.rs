//! Setting up a new world: its levels, the player and the first other
//! actors.
use crate::component::{Energy, Position, Speed};
use crate::config::Config;
use crate::player::PlayerBundle;
use crate::rng::GameRng;
use crate::tile::TileType;
use crate::turn::{Actor, actors_ok, CurrentGameData};
use crate::worldgen::{generate_maps, level_name_of, FIRST_LEVEL};
use vstd::prelude::*;

verus! {

/// The width of a level before its border.
pub const LEVEL_WIDTH: usize = 80;

/// The height of a level before its border.
pub const LEVEL_HEIGHT: usize = 50;

/// How many other actors a new world starts with.
pub const NPC_COUNT: i32 = 5;

/// A world in play: the game data, the actors (the player's first), and
/// the player's character.
pub struct GameWorld {
    pub data: CurrentGameData,
    pub actors: Vec<Actor>,
    pub player: PlayerBundle,
}

/// Adds the player's actor at `pos`, at the usual speed, and returns its
/// index.
pub fn spawn(actors: &mut Vec<Actor>, pos: Position) -> (r: usize)
    requires
        old(actors)@.len() < usize::MAX,
    ensures
        r == old(actors)@.len(),
        final(actors)@ == old(actors)@.push(
            Actor {
                position: pos,
                energy: None,
                speed: Some(Speed { percent: 100 }),
                intent: None,
                action: None,
                spend: None,
                player: true,
            },
        ),
{
    let r = actors.len();
    actors.push(
        Actor {
            position: pos,
            energy: None,
            speed: Some(Speed { percent: 100 }),
            intent: None,
            action: None,
            spend: None,
            player: true,
        },
    );
    r
}

/// Adds the first other actors to the first level: a column of them from
/// `(10, 1)` down, with no energy yet and the usual speed.
pub fn spawn_npcs(actors: &mut Vec<Actor>)
    ensures
        final(actors)@.len() == old(actors)@.len() + NPC_COUNT,
        forall|i: int| 0 <= i < old(actors)@.len() ==> final(actors)@[i] == old(actors)@[i],
        forall|i: int|
            old(actors)@.len() <= i < final(actors)@.len() ==> #[trigger] final(actors)@[i] == (Actor {
                position: Position { x: 10, y: (i - old(actors)@.len() + 1) as i32, map: FIRST_LEVEL as i32 },
                energy: Some(Energy { energy: 0 }),
                speed: Some(Speed { percent: 100 }),
                intent: None,
                action: None,
                spend: None,
                player: false,
            }),
{
    let ghost start = *actors;
    let mut i: i32 = 1;
    while i <= NPC_COUNT
        invariant
            1 <= i <= NPC_COUNT + 1,
            actors@.len() == start@.len() + i - 1,
            forall|k: int| 0 <= k < start@.len() ==> actors@[k] == start@[k],
            forall|k: int|
                start@.len() <= k < actors@.len() ==> #[trigger] actors@[k] == (Actor {
                    position: Position { x: 10, y: (k - start@.len() + 1) as i32, map: FIRST_LEVEL as i32 },
                    energy: Some(Energy { energy: 0 }),
                    speed: Some(Speed { percent: 100 }),
                    intent: None,
                    action: None,
                    spend: None,
                    player: false,
                }),
        decreases NPC_COUNT + 1 - i,
    {
        actors.push(
            Actor {
                position: Position { x: 10, y: i, map: FIRST_LEVEL as i32 },
                energy: Some(Energy { energy: 0 }),
                speed: Some(Speed { percent: 100 }),
                intent: None,
                action: None,
                spend: None,
                player: false,
            },
        );
        i += 1;
    }
}

/// A new world: levels 1 to `max_levels`, the player's actor on the entry of
/// the first level, and the first other actors. It is the player's first
/// level that is in play.
pub fn generate_world(config: &Config, rng: &mut GameRng, reveal: bool) -> (r: GameWorld)
    requires
        1 <= config.world.max_levels < i32::MAX,
    ensures
        r.data.wf(),
        r.data.maps.map@.len() == config.world.max_levels + 1,
        forall|k: int|
            1 <= k < r.data.maps.map@.len() ==> (#[trigger] r.data.maps.map@[k]).id == k
                && r.data.maps.map@[k].name@ == level_name_of(k as nat)
                && r.data.maps.map@[k].width == LEVEL_WIDTH + 2
                && r.data.maps.map@[k].height == LEVEL_HEIGHT + 2,
        r.data.current_map == FIRST_LEVEL,
        r.data.player == Some(0usize),
        actors_ok(r.actors@),
        r.actors@.len() == 1 + NPC_COUNT,
        r.actors@[0].player,
        r.actors@[0].position == r.data.player_pos,
        r.player.position == r.data.player_pos,
        r.data.player_pos.map == FIRST_LEVEL,
        ({
            let m = r.data.maps.map@[FIRST_LEVEL as int];
            &&& m.in_bounds(r.data.player_pos.x as int, r.data.player_pos.y as int)
            &&& m.tile(r.data.player_pos.x as int, r.data.player_pos.y as int).tile_type
                == TileType::DungeonEntry
            &&& m.tile(r.data.player_pos.x as int, r.data.player_pos.y as int).tile_walkable
        }),
{
    proof {
        assert(LEVEL_WIDTH * LEVEL_HEIGHT <= usize::MAX);
        assert((LEVEL_WIDTH + 10) * (LEVEL_HEIGHT + 10) <= usize::MAX);
    }
    let (maps, entry) = generate_maps(
        FIRST_LEVEL as i32,
        config.world.max_levels,
        LEVEL_WIDTH,
        LEVEL_HEIGHT,
        rng,
        reveal,
    );
    proof {
        assert forall|k: int|
            1 <= k < maps.map@.len() implies (#[trigger] maps.map@[k]).id == k
                && maps.map@[k].name@ == level_name_of(k as nat)
                && maps.map@[k].width == LEVEL_WIDTH + 2
                && maps.map@[k].height == LEVEL_HEIGHT + 2 by {
            assert((FIRST_LEVEL as i32 + k - 1) as nat == k as nat);
        }
    }
    let player = PlayerBundle::new(entry, &config.player, rng);
    let mut actors: Vec<Actor> = Vec::new();
    let player_index = spawn(&mut actors, entry);
    spawn_npcs(&mut actors);
    let data = CurrentGameData {
        current_map: FIRST_LEVEL,
        player: Some(player_index),
        player_pos: entry,
        maps,
    };
    GameWorld { data, actors, player }
}

} // verus!
