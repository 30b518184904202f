//! The level builder: a build context that an initial stage fills with rooms
//! and that meta stages then transform in order.
use crate::component::Position;
use crate::map::GameMap;
use crate::rect::MapRect;
use crate::tile::TileType;
use vstd::prelude::*;

verus! {

/// Whether `w` by `h` tiles can be addressed with `i32` coordinates and held
/// in one grid.
pub open spec fn level_fits(w: int, h: int) -> bool {
    0 <= w <= i32::MAX && 0 <= h <= i32::MAX && w * h <= usize::MAX
}

/// Where a level grown by `a` on each axis is within the limits, so is one
/// grown by no more than `a`.
pub proof fn lemma_level_fits_smaller(w: int, h: int, a: int, b: int)
    requires
        level_fits(w + a, h + a),
        0 <= w,
        0 <= h,
        0 <= b <= a,
    ensures
        level_fits(w + b, h + b),
{
    assert((w + b) * (h + b) <= (w + a) * (h + a)) by (nonlinear_arith)
        requires
            0 <= w,
            0 <= h,
            0 <= b <= a,
    ;
}

/// The rectangle's left and top edges are not negative, and its right and
/// bottom edges lie within a `w` by `h` level.
pub open spec fn room_inside(r: MapRect, w: int, h: int) -> bool {
    0 <= r.x1 && r.x2 < w && 0 <= r.y1 && r.y2 < h
}

/// The rectangle spans more than one tile on each axis.
pub open spec fn room_spans(r: MapRect) -> bool {
    r.x1 < r.x2 && r.y1 < r.y2
}

/// The centre of the rectangle is a tile of a `w` by `h` level.
pub open spec fn center_inside(r: MapRect, w: int, h: int) -> bool {
    0 <= r.center_of().0 < w && 0 <= r.center_of().1 < h
}

/// No two rooms of the list overlap.
pub open spec fn pairwise_disjoint(rooms: Seq<MapRect>) -> bool {
    forall|i: int, j: int|
        0 <= i < rooms.len() && 0 <= j < rooms.len() && i != j ==> !(#[trigger] rooms[i]).overlaps(
            #[trigger] rooms[j],
        )
}

/// The working state of one level build.
pub struct BuilderMap {
    pub map: GameMap,
    pub width: usize,
    pub height: usize,
    pub rooms: Option<Vec<MapRect>>,
    pub entry: Option<Position>,
}

impl BuilderMap {
    /// The context's dimensions are those of its level.
    pub open spec fn wf(&self) -> bool {
        &&& self.map.wf()
        &&& self.width == self.map.width
        &&& self.height == self.map.height
    }

    /// The rooms of the context, empty where there are none yet.
    pub open spec fn room_list(&self) -> Seq<MapRect> {
        match self.rooms {
            Some(v) => v@,
            None => Seq::empty(),
        }
    }

    /// The entry is recorded: it is the centre of the first room, on this
    /// level, on a tile that is a walkable dungeon entry.
    pub open spec fn entry_valid(&self) -> bool {
        match self.entry {
            Some(p) => {
                &&& self.room_list().len() > 0
                &&& p.x as int == self.room_list()[0].center_of().0
                &&& p.y as int == self.room_list()[0].center_of().1
                &&& p.map == self.map.id
                &&& self.map.in_bounds(p.x as int, p.y as int)
                &&& self.map.tile(p.x as int, p.y as int).tile_type == TileType::DungeonEntry
                &&& self.map.tile(p.x as int, p.y as int).tile_walkable
            },
            None => false,
        }
    }

    /// There are rooms; each lies on the level, its centre too, and no two
    /// overlap.
    pub open spec fn rooms_ok(&self) -> bool {
        &&& self.rooms is Some
        &&& self.room_list().len() > 0
        &&& pairwise_disjoint(self.room_list())
        &&& forall|i: int|
            0 <= i < self.room_list().len() ==> room_inside(
                #[trigger] self.room_list()[i],
                self.width as int,
                self.height as int,
            ) && center_inside(self.room_list()[i], self.width as int, self.height as int)
                && room_spans(self.room_list()[i])
    }
}

} // verus!
