//! Tiles: the terrain of one grid cell and the flags derived from it.
use vstd::prelude::*;

verus! {

/// The terrain of a tile.
#[derive(PartialEq, Eq, Structural, Hash, Clone, Copy, Debug)]
pub enum TileType {
    Wall,
    Floor,
    DungeonEntry,
}

impl Default for TileType {
    fn default() -> (r: TileType)
        ensures
            r == TileType::Wall,
    {
        TileType::Wall
    }
}

/// One cell of a level.
#[derive(PartialEq, Eq, Structural, Clone, Copy, Debug)]
pub struct Tile {
    pub tile_type: TileType,
    pub tile_revealed: bool,
    pub tile_visible: bool,
    pub tile_blocked: bool,
    pub tile_blocks_view: bool,
    pub tile_walkable: bool,
    pub tile_destructable: bool,
    pub tile_hitpoints: i32,
}

/// Solid rock. A fresh wall is not revealed: a level starts under fog.
pub open spec fn wall_tile() -> Tile {
    Tile {
        tile_type: TileType::Wall,
        tile_revealed: false,
        tile_visible: false,
        tile_blocked: false,
        tile_blocks_view: true,
        tile_walkable: false,
        tile_destructable: false,
        tile_hitpoints: 0,
    }
}

/// The ring of wall that closes a level on its four sides.
pub open spec fn border_tile() -> Tile {
    wall_tile()
}

/// Open ground.
pub open spec fn floor_tile() -> Tile {
    Tile {
        tile_type: TileType::Floor,
        tile_revealed: false,
        tile_visible: false,
        tile_blocked: false,
        tile_blocks_view: false,
        tile_walkable: true,
        tile_destructable: false,
        tile_hitpoints: 0,
    }
}

/// The way into the dungeon: open ground of its own kind.
pub open spec fn dungeon_entry_tile() -> Tile {
    Tile { tile_type: TileType::DungeonEntry, ..floor_tile() }
}

/// The same tile, marked as seen.
pub open spec fn revealed(t: Tile) -> Tile {
    Tile { tile_revealed: true, ..t }
}

impl Tile {
    /// A wall tile.
    pub fn wall() -> (r: Tile)
        ensures
            r == wall_tile(),
    {
        Tile {
            tile_type: TileType::Wall,
            tile_revealed: false,
            tile_visible: false,
            tile_blocked: false,
            tile_blocks_view: true,
            tile_walkable: false,
            tile_destructable: false,
            tile_hitpoints: 0,
        }
    }

    /// A border tile.
    pub fn border() -> (r: Tile)
        ensures
            r == border_tile(),
    {
        Tile::wall()
    }

    /// A floor tile.
    pub fn floor() -> (r: Tile)
        ensures
            r == floor_tile(),
    {
        Tile {
            tile_type: TileType::Floor,
            tile_revealed: false,
            tile_visible: false,
            tile_blocked: false,
            tile_blocks_view: false,
            tile_walkable: true,
            tile_destructable: false,
            tile_hitpoints: 0,
        }
    }

    /// A dungeon entry tile.
    pub fn dungeon_entry() -> (r: Tile)
        ensures
            r == dungeon_entry_tile(),
    {
        Tile {
            tile_type: TileType::DungeonEntry,
            tile_revealed: false,
            tile_visible: false,
            tile_blocked: false,
            tile_blocks_view: false,
            tile_walkable: true,
            tile_destructable: false,
            tile_hitpoints: 0,
        }
    }
}

impl Default for Tile {
    fn default() -> (r: Tile)
        ensures
            r == wall_tile(),
    {
        Tile::wall()
    }
}

} // verus!
