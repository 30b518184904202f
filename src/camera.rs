//! What the screen shows of a level: its seen tiles and the actors on it.
use crate::component::{Color, Position, Render};
use crate::map::GameMap;
use crate::tile::TileType;
use vstd::prelude::*;

verus! {

/// One cell of the screen.
#[derive(PartialEq, Eq, Structural, Clone, Copy, Debug)]
pub struct RenderedTile {
    pub glyph: char,
    pub fg: Color,
    pub bg: Color,
}

/// A blank cell.
pub open spec fn blank() -> RenderedTile {
    RenderedTile { glyph: ' ', fg: Color::Black, bg: Color::Black }
}

impl Default for RenderedTile {
    fn default() -> (r: RenderedTile)
        ensures
            r == blank(),
    {
        RenderedTile { glyph: ' ', fg: Color::Black, bg: Color::Black }
    }
}

/// The character of a terrain.
pub open spec fn glyph_of(t: TileType) -> char {
    match t {
        TileType::Floor => '.',
        TileType::Wall => '#',
        TileType::DungeonEntry => '<',
    }
}

/// How the tile `(x, y)` shows: blank until seen, then its character, white
/// while in sight and gray otherwise.
pub open spec fn tile_view(m: GameMap, x: int, y: int) -> RenderedTile {
    let t = m.tile(x, y);
    if t.tile_revealed {
        RenderedTile {
            glyph: glyph_of(t.tile_type),
            fg: if t.tile_visible { Color::White } else { Color::Gray },
            bg: Color::Black,
        }
    } else {
        blank()
    }
}

/// The last of the entities that stands on `(x, y)`, if any.
pub open spec fn top_render(entities: Seq<(Position, Render)>, x: int, y: int) -> Option<Render>
    decreases entities.len(),
{
    if entities.len() == 0 {
        None
    } else if entities.last().0.x == x && entities.last().0.y == y {
        Some(entities.last().1)
    } else {
        top_render(entities.drop_last(), x, y)
    }
}

/// How the cell `(x, y)` shows: the last entity on it, or else its tile.
pub open spec fn cell_view(m: GameMap, entities: Seq<(Position, Render)>, x: int, y: int) -> RenderedTile {
    match top_render(entities, x, y) {
        Some(r) => RenderedTile { glyph: r.glyph, fg: r.fg, bg: r.bg },
        None => tile_view(m, x, y),
    }
}

fn top_render_at(entities: &Vec<(Position, Render)>, x: usize, y: usize) -> (r: Option<Render>)
    ensures
        r == top_render(entities@, x as int, y as int),
{
    let mut found: Option<Render> = None;
    let mut k: usize = 0;
    while k < entities.len()
        invariant
            k <= entities@.len(),
            found == top_render(entities@.subrange(0, k as int), x as int, y as int),
        decreases entities@.len() - k,
    {
        let e = entities[k];
        proof {
            assert(entities@.subrange(0, k + 1).drop_last() == entities@.subrange(0, k as int));
            assert(entities@.subrange(0, k + 1).last() == e);
        }
        if e.0.x >= 0 && e.0.y >= 0 && e.0.x as usize == x && e.0.y as usize == y {
            found = Some(e.1);
        }
        k += 1;
    }
    proof {
        assert(entities@.subrange(0, entities@.len() as int) == entities@);
    }
    found
}

/// The screen of a level: one row per tile row, one cell per tile, each as
/// `cell_view` gives it. Entities off the level are not shown.
pub fn render_map(map: &GameMap, entities: &Vec<(Position, Render)>) -> (r: Vec<Vec<RenderedTile>>)
    requires
        map.wf(),
    ensures
        r@.len() == map.height,
        forall|y: int| 0 <= y < map.height ==> (#[trigger] r@[y])@.len() == map.width,
        forall|x: int, y: int|
            map.in_bounds(x, y) ==> #[trigger] r@[y]@[x] == cell_view(*map, entities@, x, y),
{
    let mut rows: Vec<Vec<RenderedTile>> = Vec::new();
    let mut y: usize = 0;
    while y < map.height
        invariant
            map.wf(),
            y <= map.height,
            rows@.len() == y,
            forall|b: int| 0 <= b < y ==> (#[trigger] rows@[b])@.len() == map.width,
            forall|a: int, b: int|
                0 <= a < map.width && 0 <= b < y ==> #[trigger] rows@[b]@[a] == cell_view(
                    *map,
                    entities@,
                    a,
                    b,
                ),
        decreases map.height - y,
    {
        let mut row: Vec<RenderedTile> = Vec::new();
        let mut x: usize = 0;
        while x < map.width
            invariant
                map.wf(),
                y < map.height,
                x <= map.width,
                row@.len() == x,
                forall|a: int| 0 <= a < x ==> #[trigger] row@[a] == cell_view(*map, entities@, a, y as int),
            decreases map.width - x,
        {
            let cell = match top_render_at(entities, x, y) {
                Some(r) => RenderedTile { glyph: r.glyph, fg: r.fg, bg: r.bg },
                None => {
                    let t = map.tile_at(x, y);
                    if t.tile_revealed {
                        RenderedTile {
                            glyph: map.glyph(x, y),
                            fg: if t.tile_visible {
                                Color::White
                            } else {
                                Color::Gray
                            },
                            bg: Color::Black,
                        }
                    } else {
                        RenderedTile { glyph: ' ', fg: Color::Black, bg: Color::Black }
                    }
                },
            };
            row.push(cell);
            x += 1;
        }
        rows.push(row);
        y += 1;
    }
    rows
}

/// What the screen is to show: a level, the entities on it and the
/// player's position.
pub struct Camera {
    pub player_pos: Position,
    pub map: GameMap,
    pub entities: Vec<(Position, Render)>,
}

impl Camera {
    pub fn new(player_pos: Position, map: GameMap, entities: Vec<(Position, Render)>) -> (r: Camera)
        ensures
            r.player_pos == player_pos,
            r.map == map,
            r.entities == entities,
    {
        Camera { player_pos, map, entities }
    }

    /// Shows another level.
    pub fn set_map(&mut self, map: GameMap)
        ensures
            final(self).map == map,
            final(self).player_pos == old(self).player_pos,
            final(self).entities == old(self).entities,
    {
        self.map = map;
    }

    /// Follows the player onto `map`.
    pub fn update(&mut self, player_pos: Position, map: GameMap)
        ensures
            final(self).map == map,
            final(self).player_pos == player_pos,
            final(self).entities == old(self).entities,
    {
        self.player_pos = player_pos;
        self.map = map;
    }

    /// The screen, as `render_map` gives it.
    pub fn render(&self) -> (r: Vec<Vec<RenderedTile>>)
        requires
            self.map.wf(),
        ensures
            r@.len() == self.map.height,
            forall|y: int| 0 <= y < self.map.height ==> (#[trigger] r@[y])@.len() == self.map.width,
            forall|x: int, y: int|
                self.map.in_bounds(x, y) ==> #[trigger] r@[y]@[x] == cell_view(self.map, self.entities@, x, y),
    {
        render_map(&self.map, &self.entities)
    }
}

} // verus!
