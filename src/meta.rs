//! Meta stages: each transforms the build context that the stages before it
//! left.
use crate::builders::{BuilderMap, center_inside, level_fits, room_inside, room_spans};
use crate::component::Position;
use crate::map::GameMap;
use crate::rect::MapRect;
use crate::rng::{roll_str, GameRng};
use crate::sort::{RoomSort, sort_rooms, sorted_by};
use crate::tile::{border_tile, dungeon_entry_tile, floor_tile, revealed, Tile};
use crate::tile_grid::{grid_insert_col, grid_insert_row, grid_push_col, grid_push_row};
use vstd::prelude::*;

verus! {

/// `(x, y)` lies in the rectangle, bounds included.
pub open spec fn in_rect(r: MapRect, x: int, y: int) -> bool {
    r.x1 <= x <= r.x2 && r.y1 <= y <= r.y2
}

/// The smaller side of the rectangle.
pub open spec fn short_side(r: MapRect) -> int {
    if r.x2 - r.x1 <= r.y2 - r.y1 {
        r.x2 - r.x1
    } else {
        r.y2 - r.y1
    }
}

/// `(x, y)` lies in the rectangle, no farther from its centre than half its
/// shorter side. Squared, in whole numbers: `4 * d^2 <= side^2`.
pub open spec fn in_circle(r: MapRect, x: int, y: int) -> bool {
    let dx = x - r.center_of().0;
    let dy = y - r.center_of().1;
    in_rect(r, x, y) && 4 * (dx * dx + dy * dy) <= short_side(r) * short_side(r)
}

/// The tiles that a room covers: its disc where `shape_roll` is 1, its
/// whole rectangle otherwise.
pub open spec fn in_shape(r: MapRect, shape_roll: i32, x: int, y: int) -> bool {
    if shape_roll == 1 {
        in_circle(r, x, y)
    } else {
        in_rect(r, x, y)
    }
}

proof fn lemma_squares_fit(dx: int, dy: int, m: int)
    requires
        -0x1_0000_0000 <= dx <= 0x1_0000_0000,
        -0x1_0000_0000 <= dy <= 0x1_0000_0000,
        -0x1_0000_0000 <= m <= 0x1_0000_0000,
    ensures
        0 <= dx * dx <= 0x1_0000_0000_0000_0000,
        0 <= dy * dy <= 0x1_0000_0000_0000_0000,
        0 <= m * m <= 0x1_0000_0000_0000_0000,
{
    assert(0 <= dx * dx <= 0x1_0000_0000_0000_0000) by (nonlinear_arith)
        requires
            -0x1_0000_0000 <= dx <= 0x1_0000_0000,
    ;
    assert(0 <= dy * dy <= 0x1_0000_0000_0000_0000) by (nonlinear_arith)
        requires
            -0x1_0000_0000 <= dy <= 0x1_0000_0000,
    ;
    assert(0 <= m * m <= 0x1_0000_0000_0000_0000) by (nonlinear_arith)
        requires
            -0x1_0000_0000 <= m <= 0x1_0000_0000,
    ;
}

/// Whether the tile `(x, y)` of the room's rectangle lies in its disc.
fn within_disc(r: &MapRect, x: i32, y: i32) -> (b: bool)
    requires
        in_rect(*r, x as int, y as int),
        0 <= r.x1,
        0 <= r.y1,
        r.x2 < i32::MAX,
        r.y2 < i32::MAX,
    ensures
        b == in_circle(*r, x as int, y as int),
{
    let c = r.center();
    let dx: i128 = x as i128 - c.0 as i128;
    let dy: i128 = y as i128 - c.1 as i128;
    let m: i128 = if r.x2 - r.x1 <= r.y2 - r.y1 {
        (r.x2 - r.x1) as i128
    } else {
        (r.y2 - r.y1) as i128
    };
    proof {
        lemma_squares_fit(dx as int, dy as int, m as int);
    }
    4 * (dx * dx + dy * dy) <= m * m
}

/// Some room among the first `shapes.len()` covers `(a, b)`, each drawn
/// with its shape roll.
pub open spec fn painted(rooms: Seq<MapRect>, shapes: Seq<i32>, a: int, b: int) -> bool {
    exists|i: int| 0 <= i < shapes.len() && i < rooms.len() && #[trigger] in_shape(rooms[i], shapes[i], a, b)
}

/// `after` is `before` with the rooms drawn, each with its shape roll: a
/// tile is floor where a room covers it and as it was elsewhere.
pub open spec fn drawn_with(before: GameMap, after: GameMap, rooms: Seq<MapRect>, shapes: Seq<i32>) -> bool {
    forall|a: int, b: int|
        after.in_bounds(a, b) ==> #[trigger] after.tile(a, b) == (if painted(rooms, shapes, a, b) {
            floor_tile()
        } else {
            before.tile(a, b)
        })
}

/// Lays floor on the tiles that the room covers, as `in_shape` gives them;
/// every other tile stays as it was.
pub fn draw_room(map: &mut GameMap, room: &MapRect, shape_roll: i32)
    requires
        old(map).wf(),
        old(map).width <= i32::MAX,
        old(map).height <= i32::MAX,
        room_inside(*room, old(map).width as int, old(map).height as int),
    ensures
        final(map).wf(),
        final(map).same_header(old(map)),
        forall|a: int, b: int|
            final(map).in_bounds(a, b) ==> #[trigger] final(map).tile(a, b) == (if in_shape(
                *room,
                shape_roll,
                a,
                b,
            ) {
                floor_tile()
            } else {
                old(map).tile(a, b)
            }),
{
    let ghost start = *map;
    let mut y = room.y1;
    while y <= room.y2
        invariant
            map.wf(),
            map.same_header(&start),
            start.wf(),
            room_inside(*room, start.width as int, start.height as int),
            start.width <= i32::MAX,
            start.height <= i32::MAX,
            room.y1 <= y,
            y <= room.y2 + 1 || y == room.y1,
            forall|a: int, b: int|
                map.in_bounds(a, b) ==> #[trigger] map.tile(a, b) == (if in_shape(
                    *room,
                    shape_roll,
                    a,
                    b,
                ) && b < y {
                    floor_tile()
                } else {
                    start.tile(a, b)
                }),
        decreases room.y2 + 1 - y,
    {
        let mut x = room.x1;
        while x <= room.x2
            invariant
                map.wf(),
                map.same_header(&start),
                start.wf(),
                room_inside(*room, start.width as int, start.height as int),
                room.y1 <= y <= room.y2,
                start.width <= i32::MAX,
                start.height <= i32::MAX,
                room.x1 <= x,
                x <= room.x2 + 1 || x == room.x1,
                forall|a: int, b: int|
                    map.in_bounds(a, b) ==> #[trigger] map.tile(a, b) == (if in_shape(
                        *room,
                        shape_roll,
                        a,
                        b,
                    ) && (b < y || (b == y && a < x)) {
                        floor_tile()
                    } else {
                        start.tile(a, b)
                    }),
            decreases room.x2 + 1 - x,
        {
            let covered = if shape_roll == 1 {
                within_disc(room, x, y)
            } else {
                true
            };
            if covered {
                map.define_tile(x, y, Tile::floor());
            }
            x += 1;
        }
        y += 1;
    }
}

/// Meta stage that lays each room onto the level, as a disc or as a
/// rectangle at random.
#[derive(Clone, Copy, Debug)]
pub struct RoomDrawer {}

impl RoomDrawer {
    pub fn new() -> (r: RoomDrawer) {
        RoomDrawer {  }
    }

    /// Draws each room in turn; a roll of 1 on one die of three makes it a
    /// disc, anything else its whole rectangle. Whatever the rolls, every
    /// tile of a room's disc becomes floor.
    pub fn build_map(&self, build_data: &mut BuilderMap, rng: &mut GameRng)
        requires
            old(build_data).wf(),
            old(build_data).rooms is Some,
            forall|k: int|
                0 <= k < old(build_data).room_list().len() ==> room_inside(
                    #[trigger] old(build_data).room_list()[k],
                    old(build_data).width as int,
                    old(build_data).height as int,
                ),
            level_fits(old(build_data).width as int, old(build_data).height as int),
        ensures
            final(build_data).wf(),
            final(build_data).map.same_header(&old(build_data).map),
            final(build_data).width == old(build_data).width,
            final(build_data).height == old(build_data).height,
            final(build_data).rooms == old(build_data).rooms,
            final(build_data).entry == old(build_data).entry,
            exists|shapes: Seq<i32>|
                shapes.len() == old(build_data).room_list().len() && #[trigger] drawn_with(
                    old(build_data).map,
                    final(build_data).map,
                    old(build_data).room_list(),
                    shapes,
                ),
            forall|i: int, a: int, b: int|
                0 <= i < old(build_data).room_list().len() && final(build_data).map.in_bounds(a, b)
                    && in_circle(#[trigger] old(build_data).room_list()[i], a, b)
                    ==> #[trigger] final(build_data).map.tile(a, b) == floor_tile(),
    {
        let ghost start = *build_data;
        let ghost rooms = start.room_list();
        let ghost mut shapes: Seq<i32> = Seq::empty();
        let n = match &build_data.rooms {
            Some(v) => v.len(),
            None => 0,
        };
        let mut i: usize = 0;
        while i < n
            invariant
                build_data.wf(),
                build_data.map.same_header(&start.map),
                build_data.width == start.width,
                build_data.height == start.height,
                build_data.rooms == start.rooms,
                build_data.entry == start.entry,
                start.wf(),
                start.rooms is Some,
                forall|k: int|
                    0 <= k < rooms.len() ==> room_inside(
                        #[trigger] rooms[k],
                        start.width as int,
                        start.height as int,
                    ),
                rooms == start.room_list(),
                level_fits(start.width as int, start.height as int),
                n == rooms.len(),
                i <= n,
                shapes.len() == i,
                forall|a: int, b: int|
                    build_data.map.in_bounds(a, b) ==> #[trigger] build_data.map.tile(a, b) == (if painted(
                        rooms,
                        shapes,
                        a,
                        b,
                    ) {
                        floor_tile()
                    } else {
                        start.map.tile(a, b)
                    }),
            decreases n - i,
        {
            let room = match &build_data.rooms {
                Some(v) => v[i],
                None => MapRect { x1: 0, y1: 0, x2: -1, y2: -1 },
            };
            assert(room == rooms[i as int]);
            let shape = roll_str(rng, "1d3");
            let ghost before = shapes;
            draw_room(&mut build_data.map, &room, shape);
            proof {
                shapes = shapes.push(shape);
                assert forall|a: int, b: int| build_data.map.in_bounds(a, b) implies #[trigger] build_data.map.tile(a, b)
                    == (if painted(rooms, shapes, a, b) {
                    floor_tile()
                } else {
                    start.map.tile(a, b)
                }) by {
                    if painted(rooms, before, a, b) {
                        let j = choose|j: int|
                            0 <= j < before.len() && j < rooms.len() && #[trigger] in_shape(
                                rooms[j],
                                before[j],
                                a,
                                b,
                            );
                        assert(in_shape(rooms[j], shapes[j], a, b));
                    }
                    if in_shape(room, shape, a, b) {
                        assert(in_shape(rooms[i as int], shapes[i as int], a, b));
                    }
                    if painted(rooms, shapes, a, b) && !in_shape(room, shape, a, b) {
                        let j = choose|j: int|
                            0 <= j < shapes.len() && j < rooms.len() && #[trigger] in_shape(
                                rooms[j],
                                shapes[j],
                                a,
                                b,
                            );
                        assert(j < i);
                        assert(in_shape(rooms[j], before[j], a, b));
                    }
                }
            }
            i += 1;
        }
        proof {
            assert(drawn_with(start.map, build_data.map, rooms, shapes));
            assert forall|k: int, a: int, b: int|
                0 <= k < rooms.len() && build_data.map.in_bounds(a, b) && in_circle(
                    #[trigger] rooms[k],
                    a,
                    b,
                ) implies #[trigger] build_data.map.tile(a, b) == floor_tile() by {
                assert(in_shape(rooms[k], shapes[k], a, b));
            }
        }
    }
}

/// Meta stage that orders the rooms, so that the first room is the
/// leftmost, rightmost, topmost or bottommost one.
#[derive(Clone, Copy, Debug)]
pub struct RoomSorter {
    pub sort_by: RoomSort,
}

impl RoomSorter {
    pub fn new(sort_by: RoomSort) -> (r: RoomSorter)
        ensures
            r.sort_by == sort_by,
    {
        RoomSorter { sort_by }
    }

    /// Sorts the rooms on the chosen edge. The rooms stay the same rooms.
    pub fn sorter(&self, build_data: &mut BuilderMap)
        requires
            old(build_data).rooms is Some,
        ensures
            final(build_data).map == old(build_data).map,
            final(build_data).width == old(build_data).width,
            final(build_data).height == old(build_data).height,
            final(build_data).entry == old(build_data).entry,
            final(build_data).rooms is Some,
            sorted_by(self.sort_by, final(build_data).room_list()),
            final(build_data).room_list().to_multiset() == old(build_data).room_list().to_multiset(),
            old(build_data).rooms_ok() ==> final(build_data).rooms_ok(),
    {
        let ghost start = *build_data;
        let sorted = match &build_data.rooms {
            Some(v) => sort_rooms(v, self.sort_by),
            None => Vec::new(),
        };
        build_data.rooms = Some(sorted);
        proof {
            if start.rooms_ok() {
                let w = build_data.width as int;
                let h = build_data.height as int;
                assert forall|i: int| 0 <= i < build_data.room_list().len() implies room_inside(
                    #[trigger] build_data.room_list()[i],
                    w,
                    h,
                ) && center_inside(build_data.room_list()[i], w, h) && room_spans(build_data.room_list()[i]) by {
                    let r = build_data.room_list()[i];
                    assert(start.room_list().contains(r));
                    let m = choose|m: int| 0 <= m < start.room_list().len() && start.room_list()[m] == r;
                    assert(room_inside(start.room_list()[m], w, h));
                }
            }
        }
    }
}

/// A line of `n` border tiles.
fn border_line(n: usize) -> (r: Vec<Tile>)
    ensures
        r@.len() == n,
        forall|i: int| 0 <= i < n ==> #[trigger] r@[i] == border_tile(),
{
    let mut v: Vec<Tile> = Vec::new();
    let mut i: usize = 0;
    while i < n
        invariant
            i <= n,
            v@.len() == i,
            forall|k: int| 0 <= k < i ==> #[trigger] v@[k] == border_tile(),
        decreases n - i,
    {
        v.push(Tile::border());
        i += 1;
    }
    v
}

/// Whether `(x, y)` lies on the outer ring of a `w` by `h` level.
pub open spec fn on_ring(x: int, y: int, w: int, h: int) -> bool {
    x == 0 || y == 0 || x == w - 1 || y == h - 1
}

/// Meta stage that closes the level with a ring of wall: the grid grows by
/// one tile on each side.
#[derive(Clone, Copy, Debug)]
pub struct Borders {}

impl Borders {
    pub fn new() -> (r: Borders) {
        Borders {  }
    }

    /// Adds a column of border tiles on the left and on the right, then a row
    /// on top and at the bottom. Every old tile moves one right and one down;
    /// the rooms and the entry keep their coordinates.
    pub fn build_map(&self, build_data: &mut BuilderMap)
        requires
            old(build_data).wf(),
            old(build_data).height >= 1,
            level_fits(old(build_data).width + 2, old(build_data).height + 2),
        ensures
            final(build_data).wf(),
            final(build_data).width == old(build_data).width + 2,
            final(build_data).height == old(build_data).height + 2,
            final(build_data).map.id == old(build_data).map.id,
            final(build_data).map.name@ == old(build_data).map.name@,
            final(build_data).rooms == old(build_data).rooms,
            final(build_data).entry == old(build_data).entry,
            forall|x: int, y: int|
                final(build_data).map.in_bounds(x, y) ==> #[trigger] final(build_data).map.tile(x, y)
                    == (if on_ring(x, y, final(build_data).width as int, final(build_data).height as int) {
                    border_tile()
                } else {
                    old(build_data).map.tile(x - 1, y - 1)
                }),
            forall|x: int, y: int|
                final(build_data).map.in_bounds(x, y) && on_ring(
                    x,
                    y,
                    final(build_data).width as int,
                    final(build_data).height as int,
                ) ==> !(#[trigger] final(build_data).map.tile(x, y)).tile_walkable,
    {
        let ghost start = *build_data;
        let ghost old_rows = build_data.map.cells();
        let h = build_data.height;
        let col = border_line(h);
        grid_insert_col(&mut build_data.map.tiles, 0, col);
        build_data.width = build_data.width + 1;
        build_data.map.width = build_data.map.width + 1;
        let ghost rows1 = build_data.map.cells();
        let col = border_line(h);
        grid_push_col(&mut build_data.map.tiles, col);
        build_data.width = build_data.width + 1;
        build_data.map.width = build_data.map.width + 1;
        let ghost rows2 = build_data.map.cells();
        let row = border_line(build_data.width);
        grid_insert_row(&mut build_data.map.tiles, 0, row);
        build_data.height = build_data.height + 1;
        build_data.map.height = build_data.map.height + 1;
        let ghost rows3 = build_data.map.cells();
        let row = border_line(build_data.width);
        grid_push_row(&mut build_data.map.tiles, row);
        build_data.height = build_data.height + 1;
        build_data.map.height = build_data.map.height + 1;
        proof {
            let w = build_data.width as int;
            let hh = build_data.height as int;
            let line = build_data.map.cells()[0];
            rows2.insert_ensures(0, line);
            assert forall|x: int, y: int| build_data.map.in_bounds(x, y) implies #[trigger] build_data.map.tile(x, y)
                == (if on_ring(x, y, w, hh) {
                border_tile()
            } else {
                start.map.tile(x - 1, y - 1)
            }) by {
                if y == 0 {
                } else if y == hh - 1 {
                } else {
                    assert(build_data.map.cells()[y] == rows3[y]);
                    assert(rows3[y] == rows2[y - 1]);
                    if start.width == 0 {
                        assert(rows2[y - 1] == rows1[y - 1].push(border_tile()));
                    } else {
                        assert(rows2[y - 1] == rows1[y - 1].push(border_tile()));
                        assert(rows1[y - 1] == old_rows[y - 1].insert(0, border_tile()));
                        old_rows[y - 1].insert_ensures(0, border_tile());
                        if 0 < x < w - 1 {
                            assert(rows1[y - 1][x] == old_rows[y - 1][x - 1]);
                        }
                    }
                }
            }
        }
    }
}

/// Meta stage that places the way into the dungeon at the centre of the
/// first room.
#[derive(Clone, Copy, Debug)]
pub struct DungeonEntryRoomBased {}

impl DungeonEntryRoomBased {
    pub fn new() -> (r: DungeonEntryRoomBased) {
        DungeonEntryRoomBased {  }
    }

    /// Records the centre of the first room as the entry and makes its tile
    /// a dungeon entry. Every other tile stays as it was.
    pub fn build_map(&self, build_data: &mut BuilderMap)
        requires
            old(build_data).wf(),
            old(build_data).rooms is Some,
            old(build_data).room_list().len() > 0,
            center_inside(
                old(build_data).room_list()[0],
                old(build_data).width as int,
                old(build_data).height as int,
            ),
            level_fits(old(build_data).width as int, old(build_data).height as int),
        ensures
            final(build_data).wf(),
            final(build_data).map.same_header(&old(build_data).map),
            final(build_data).width == old(build_data).width,
            final(build_data).height == old(build_data).height,
            final(build_data).rooms == old(build_data).rooms,
            final(build_data).entry_valid(),
            final(build_data).entry matches Some(p) ==> final(build_data).map.tile(p.x as int, p.y as int)
                == dungeon_entry_tile(),
            forall|x: int, y: int|
                final(build_data).map.in_bounds(x, y) && (x != old(build_data).room_list()[0].center_of().0
                    || y != old(build_data).room_list()[0].center_of().1)
                    ==> #[trigger] final(build_data).map.tile(x, y) == old(build_data).map.tile(x, y),
    {
        let room = match &build_data.rooms {
            Some(v) => v[0],
            None => MapRect { x1: 0, y1: 0, x2: 0, y2: 0 },
        };
        let c = room.center();
        build_data.entry = Some(Position { x: c.0, y: c.1, map: build_data.map.id });
        build_data.map.define_tile(c.0, c.1, Tile::dungeon_entry());
    }
}

/// Meta stage that marks every tile as seen, for a look at the whole level
/// while developing.
#[derive(Clone, Copy, Debug)]
pub struct RevealAll {}

impl RevealAll {
    pub fn new() -> (r: RevealAll) {
        RevealAll {  }
    }

    /// Marks every tile as seen; nothing else changes.
    pub fn build_map(&self, build_data: &mut BuilderMap)
        requires
            old(build_data).wf(),
        ensures
            final(build_data).wf(),
            final(build_data).map.same_header(&old(build_data).map),
            final(build_data).width == old(build_data).width,
            final(build_data).height == old(build_data).height,
            final(build_data).rooms == old(build_data).rooms,
            final(build_data).entry == old(build_data).entry,
            forall|x: int, y: int|
                final(build_data).map.in_bounds(x, y) ==> #[trigger] final(build_data).map.tile(x, y)
                    == revealed(old(build_data).map.tile(x, y)),
            old(build_data).entry_valid() ==> final(build_data).entry_valid(),
    {
        build_data.map.reveal_all();
    }
}

/// Meta stage that leaves the context as it is; a starting point for new
/// stages.
#[derive(Clone, Copy, Debug)]
pub struct Template {}

impl Template {
    pub fn new() -> (r: Template) {
        Template {  }
    }

    /// Changes nothing.
    pub fn build_map(&self, build_data: &mut BuilderMap)
        ensures
            *final(build_data) == *old(build_data),
    {
    }
}

/// Meta stage that leaves the context as it is, for trying out a chain.
#[derive(Clone, Copy, Debug)]
pub struct TestOne {}

impl TestOne {
    pub fn new() -> (r: TestOne) {
        TestOne {  }
    }

    /// Changes nothing.
    pub fn build_map(&self, build_data: &mut BuilderMap)
        ensures
            *final(build_data) == *old(build_data),
    {
    }
}

} // verus!
