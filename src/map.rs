//! A level: its identity and its grid of tiles.
use crate::tile::{revealed, Tile, TileType, wall_tile};
use crate::tile_grid::{grid_clone, grid_cols, grid_get, grid_init, grid_ok, grid_rows, grid_set};
use grid::Grid;
use vstd::prelude::*;

verus! {

/// The tiles of a level, `height` rows of `width` tiles.
pub struct GameMap {
    pub id: i32,
    pub name: String,
    pub width: usize,
    pub height: usize,
    pub tiles: Grid<Tile>,
}

impl GameMap {
    /// The rows of the level, top to bottom.
    pub open spec fn cells(&self) -> Seq<Seq<Tile>> {
        grid_rows(self.tiles)
    }

    /// The grid has the level's dimensions. A level with no width or no
    /// height holds no tiles at all.
    pub open spec fn wf(&self) -> bool {
        &&& grid_ok(self.tiles)
        &&& self.cells().len() == (if self.width == 0 { 0 } else { self.height as int })
        &&& grid_cols(self.tiles) == (if self.height == 0 { 0 } else { self.width as int })
    }

    /// Whether `(x, y)` is a tile of the level.
    pub open spec fn in_bounds(&self, x: int, y: int) -> bool {
        0 <= x < self.width && 0 <= y < self.height
    }

    /// The tile in column `x` of row `y`.
    pub open spec fn tile(&self, x: int, y: int) -> Tile {
        self.cells()[y][x]
    }

    /// The rows of the level once `(x, y)` holds `t`.
    pub open spec fn cells_with(&self, x: int, y: int, t: Tile) -> Seq<Seq<Tile>> {
        self.cells().update(y, self.cells()[y].update(x, t))
    }

    /// Every dungeon entry tile of the level can be walked on.
    pub open spec fn entries_walkable(&self) -> bool {
        forall|x: int, y: int|
            self.in_bounds(x, y) && (#[trigger] self.tile(x, y)).tile_type == TileType::DungeonEntry
                ==> self.tile(x, y).tile_walkable
    }

    /// Everything but the tiles is the same.
    pub open spec fn same_header(&self, other: &GameMap) -> bool {
        &&& self.id == other.id
        &&& self.name@ == other.name@
        &&& self.width == other.width
        &&& self.height == other.height
    }

    /// A level of `width` by `height` wall tiles.
    pub fn new(id: i32, name: &str, width: usize, height: usize) -> (r: GameMap)
        requires
            width * height <= usize::MAX,
        ensures
            r.wf(),
            r.id == id,
            r.name@ == name@,
            r.width == width,
            r.height == height,
            forall|x: int, y: int| r.in_bounds(x, y) ==> #[trigger] r.tile(x, y) == wall_tile(),
    {
        proof {
            broadcast use vstd::string::to_string_from_display_ensures_for_str;
        }
        assert(height * width == width * height) by (nonlinear_arith);
        let tiles = grid_init(height, width, Tile::wall());
        let r = GameMap { id, name: name.to_string(), width, height, tiles };
        r
    }

    /// A copy of the level.
    pub fn clone_map(&self) -> (r: GameMap)
        ensures
            r.same_header(self),
            r.cells() == self.cells(),
            grid_cols(r.tiles) == grid_cols(self.tiles),
    {
        GameMap {
            id: self.id,
            name: self.name.clone(),
            width: self.width,
            height: self.height,
            tiles: grid_clone(&self.tiles),
        }
    }

    /// The tile in column `x` of row `y`.
    pub fn tile_at(&self, x: usize, y: usize) -> (r: Tile)
        requires
            self.wf(),
            self.in_bounds(x as int, y as int),
        ensures
            r == self.tile(x as int, y as int),
    {
        grid_get(&self.tiles, y, x)
    }

    /// Puts `t` in column `x` of row `y`.
    pub fn define_tile(&mut self, x: i32, y: i32, t: Tile)
        requires
            old(self).wf(),
            old(self).in_bounds(x as int, y as int),
        ensures
            final(self).wf(),
            final(self).same_header(old(self)),
            final(self).cells() == old(self).cells_with(x as int, y as int, t),
            forall|a: int, b: int|
                final(self).in_bounds(a, b) ==> #[trigger] final(self).tile(a, b) == (if a == x && b
                    == y {
                    t
                } else {
                    old(self).tile(a, b)
                }),
    {
        self.set_tile_at(x as usize, y as usize, t);
    }

    /// Puts `t` in column `x` of row `y`.
    fn set_tile_at(&mut self, x: usize, y: usize, t: Tile)
        requires
            old(self).wf(),
            old(self).in_bounds(x as int, y as int),
        ensures
            final(self).wf(),
            final(self).same_header(old(self)),
            final(self).cells() == old(self).cells_with(x as int, y as int, t),
            forall|a: int, b: int|
                final(self).in_bounds(a, b) ==> #[trigger] final(self).tile(a, b) == (if a == x && b
                    == y {
                    t
                } else {
                    old(self).tile(a, b)
                }),
    {
        grid_set(&mut self.tiles, y, x, t);
    }

    /// The character that shows the terrain at `(x, y)`.
    pub fn glyph(&self, x: usize, y: usize) -> (r: char)
        requires
            self.wf(),
            self.in_bounds(x as int, y as int),
        ensures
            self.tile(x as int, y as int).tile_type == TileType::Floor ==> r == '.',
            self.tile(x as int, y as int).tile_type == TileType::Wall ==> r == '#',
            self.tile(x as int, y as int).tile_type == TileType::DungeonEntry ==> r == '<',
    {
        match self.get_tile_type(x, y) {
            TileType::Floor => '.',
            TileType::Wall => '#',
            TileType::DungeonEntry => '<',
        }
    }

    /// Renames the level.
    pub fn set_name(&mut self, name: &str)
        ensures
            final(self).name@ == name@,
            final(self).id == old(self).id,
            final(self).width == old(self).width,
            final(self).height == old(self).height,
            final(self).tiles == old(self).tiles,
    {
        proof {
            broadcast use vstd::string::to_string_from_display_ensures_for_str;
        }
        self.name = name.to_string();
    }

    /// Sets the terrain at `(x, y)`.
    pub fn set_tile_type(&mut self, x: i32, y: i32, tile: TileType)
        requires
            old(self).wf(),
            old(self).in_bounds(x as int, y as int),
        ensures
            final(self).wf(),
            final(self).same_header(old(self)),
            final(self).cells() == old(self).cells_with(x as int, y as int,
                Tile { tile_type: tile, ..old(self).tile(x as int, y as int) }),
    {
        let mut t = self.tile_at(x as usize, y as usize);
        t.tile_type = tile;
        self.define_tile(x, y, t);
    }

    /// The terrain at `(x, y)`.
    pub fn get_tile_type(&self, x: usize, y: usize) -> (r: TileType)
        requires
            self.wf(),
            self.in_bounds(x as int, y as int),
        ensures
            r == self.tile(x as int, y as int).tile_type,
    {
        self.tile_at(x, y).tile_type
    }

    /// Sets whether the tile at `(x, y)` has been seen.
    pub fn set_revealed(&mut self, x: i32, y: i32, revealed: bool)
        requires
            old(self).wf(),
            old(self).in_bounds(x as int, y as int),
        ensures
            final(self).wf(),
            final(self).same_header(old(self)),
            final(self).cells() == old(self).cells_with(x as int, y as int,
                Tile { tile_revealed: revealed, ..old(self).tile(x as int, y as int) }),
    {
        let mut t = self.tile_at(x as usize, y as usize);
        t.tile_revealed = revealed;
        self.define_tile(x, y, t);
    }

    /// Whether the tile at `(x, y)` has been seen.
    pub fn is_revealed(&self, x: usize, y: usize) -> (r: bool)
        requires
            self.wf(),
            self.in_bounds(x as int, y as int),
        ensures
            r == self.tile(x as int, y as int).tile_revealed,
    {
        self.tile_at(x, y).tile_revealed
    }

    /// Sets whether the tile at `(x, y)` can be destroyed, and its hit points.
    pub fn set_destructable(&mut self, x: i32, y: i32, destructable: bool, hitpoints: i32)
        requires
            old(self).wf(),
            old(self).in_bounds(x as int, y as int),
        ensures
            final(self).wf(),
            final(self).same_header(old(self)),
            final(self).cells() == old(self).cells_with(x as int, y as int,
                Tile {
                    tile_destructable: destructable,
                    tile_hitpoints: hitpoints,
                    ..old(self).tile(x as int, y as int)
                }),
    {
        let mut t = self.tile_at(x as usize, y as usize);
        t.tile_destructable = destructable;
        t.tile_hitpoints = hitpoints;
        self.define_tile(x, y, t);
    }

    /// Whether the tile at `(x, y)` can be destroyed.
    pub fn is_destructable(&self, x: usize, y: usize) -> (r: bool)
        requires
            self.wf(),
            self.in_bounds(x as int, y as int),
        ensures
            r == self.tile(x as int, y as int).tile_destructable,
    {
        self.tile_at(x, y).tile_destructable
    }

    /// The hit points of the tile at `(x, y)`.
    pub fn get_hitpoints(&self, x: usize, y: usize) -> (r: i32)
        requires
            self.wf(),
            self.in_bounds(x as int, y as int),
        ensures
            r == self.tile(x as int, y as int).tile_hitpoints,
    {
        self.tile_at(x, y).tile_hitpoints
    }

    /// Sets whether the tile at `(x, y)` can be walked on.
    pub fn set_walkable(&mut self, x: i32, y: i32, walkable: bool)
        requires
            old(self).wf(),
            old(self).in_bounds(x as int, y as int),
        ensures
            final(self).wf(),
            final(self).same_header(old(self)),
            final(self).cells() == old(self).cells_with(x as int, y as int,
                Tile { tile_walkable: walkable, ..old(self).tile(x as int, y as int) }),
    {
        let mut t = self.tile_at(x as usize, y as usize);
        t.tile_walkable = walkable;
        self.define_tile(x, y, t);
    }

    /// Whether `(x, y)` is a tile of the level that can be walked on. A
    /// place off the level is never walkable.
    pub fn is_walkable(&self, x: i32, y: i32) -> (r: bool)
        requires
            self.wf(),
        ensures
            r == (self.in_bounds(x as int, y as int) && self.tile(x as int, y as int).tile_walkable),
    {
        if x < 0 || y < 0 || x as usize >= self.width || y as usize >= self.height {
            return false;
        }
        self.tile_at(x as usize, y as usize).tile_walkable
    }

    /// Sets whether the tile at `(x, y)` is blocked.
    pub fn set_blocked(&mut self, x: i32, y: i32, blocked: bool)
        requires
            old(self).wf(),
            old(self).in_bounds(x as int, y as int),
        ensures
            final(self).wf(),
            final(self).same_header(old(self)),
            final(self).cells() == old(self).cells_with(x as int, y as int,
                Tile { tile_blocked: blocked, ..old(self).tile(x as int, y as int) }),
    {
        let mut t = self.tile_at(x as usize, y as usize);
        t.tile_blocked = blocked;
        self.define_tile(x, y, t);
    }

    /// Whether the tile at `(x, y)` is blocked.
    pub fn is_blocked(&self, x: usize, y: usize) -> (r: bool)
        requires
            self.wf(),
            self.in_bounds(x as int, y as int),
        ensures
            r == self.tile(x as int, y as int).tile_blocked,
    {
        self.tile_at(x, y).tile_blocked
    }

    /// Sets whether the tile at `(x, y)` hides what lies behind it.
    pub fn set_blocks_view(&mut self, x: i32, y: i32, blocks_view: bool)
        requires
            old(self).wf(),
            old(self).in_bounds(x as int, y as int),
        ensures
            final(self).wf(),
            final(self).same_header(old(self)),
            final(self).cells() == old(self).cells_with(x as int, y as int,
                Tile { tile_blocks_view: blocks_view, ..old(self).tile(x as int, y as int) }),
    {
        let mut t = self.tile_at(x as usize, y as usize);
        t.tile_blocks_view = blocks_view;
        self.define_tile(x, y, t);
    }

    /// Whether the tile at `(x, y)` hides what lies behind it.
    pub fn blocks_view(&self, x: usize, y: usize) -> (r: bool)
        requires
            self.wf(),
            self.in_bounds(x as int, y as int),
        ensures
            r == self.tile(x as int, y as int).tile_blocks_view,
    {
        self.tile_at(x, y).tile_blocks_view
    }

    /// Sets whether the tile at `(x, y)` is in sight now.
    pub fn set_visible(&mut self, x: i32, y: i32, visible: bool)
        requires
            old(self).wf(),
            old(self).in_bounds(x as int, y as int),
        ensures
            final(self).wf(),
            final(self).same_header(old(self)),
            final(self).cells() == old(self).cells_with(x as int, y as int,
                Tile { tile_visible: visible, ..old(self).tile(x as int, y as int) }),
    {
        let mut t = self.tile_at(x as usize, y as usize);
        t.tile_visible = visible;
        self.define_tile(x, y, t);
    }

    /// Whether the tile at `(x, y)` is in sight now.
    pub fn is_visible(&self, x: usize, y: usize) -> (r: bool)
        requires
            self.wf(),
            self.in_bounds(x as int, y as int),
        ensures
            r == self.tile(x as int, y as int).tile_visible,
    {
        self.tile_at(x, y).tile_visible
    }
}

impl GameMap {
    /// Marks every tile of the level as seen.
    pub fn reveal_all(&mut self)
        requires
            old(self).wf(),
        ensures
            final(self).wf(),
            final(self).same_header(old(self)),
            forall|x: int, y: int|
                final(self).in_bounds(x, y) ==> #[trigger] final(self).tile(x, y) == revealed(old(self).tile(x, y)),
    {
        let ghost start = *self;
        let mut y: usize = 0;
        while y < self.height
            invariant
                self.wf(),
                self.same_header(&start),
                start.wf(),
                y <= self.height,
                forall|a: int, b: int|
                    self.in_bounds(a, b) ==> #[trigger] self.tile(a, b) == (if b < y {
                        revealed(start.tile(a, b))
                    } else {
                        start.tile(a, b)
                    }),
            decreases self.height - y,
        {
            let mut x: usize = 0;
            while x < self.width
                invariant
                    self.wf(),
                    self.same_header(&start),
                    start.wf(),
                    y < self.height,
                    x <= self.width,
                    forall|a: int, b: int|
                        self.in_bounds(a, b) ==> #[trigger] self.tile(a, b) == (if b < y || (b == y
                            && a < x) {
                            revealed(start.tile(a, b))
                        } else {
                            start.tile(a, b)
                        }),
                decreases self.width - x,
            {
                let t = self.tile_at(x, y);
                self.set_tile_at(x, y, Tile { tile_revealed: true, ..t });
                x += 1;
            }
            y += 1;
        }
    }
}

/// All levels of a campaign, indexed by level number.
pub struct Maps {
    pub map: Vec<GameMap>,
}

impl Maps {
    /// No levels yet.
    pub fn new() -> (r: Maps)
        ensures
            r.map@.len() == 0,
    {
        Maps { map: Vec::new() }
    }
}

} // verus!
