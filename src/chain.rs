//! The builder chain: one initial stage and an ordered list of meta stages,
//! run in order against one build context.
use crate::builders::{
    BuilderMap, center_inside, lemma_level_fits_smaller, level_fits, room_inside,
};
use crate::component::Position;
use crate::initial::{accepted, candidate_ok, EmptyMapBuilder, MAX_H, MAX_ROOMS, MAX_W, RoomsBuilder};
use crate::map::GameMap;
use crate::meta::{
    Borders, drawn_with, DungeonEntryRoomBased, on_ring, RevealAll, RoomDrawer, RoomSorter, Template,
    TestOne,
};
use crate::rect::MapRect;
use crate::rng::GameRng;
use crate::sort::sorted_by;
use crate::tile::{border_tile, dungeon_entry_tile, revealed, TileType, wall_tile};
use vstd::prelude::*;

verus! {

/// The stage that gives a fresh context its rooms.
#[derive(Clone, Copy, Debug)]
pub enum InitialStage {
    Empty(EmptyMapBuilder),
    Rooms(RoomsBuilder),
}

/// A stage that transforms the context.
#[derive(Clone, Copy, Debug)]
pub enum MetaStage {
    RoomDrawer(RoomDrawer),
    RoomSorter(RoomSorter),
    Borders(Borders),
    DungeonEntryRoomBased(DungeonEntryRoomBased),
    RevealAll(RevealAll),
    Template(Template),
    TestOne(TestOne),
}

impl MetaStage {
    /// The stage leaves a recorded entry valid.
    pub open spec fn keeps_entry(self) -> bool {
        match self {
            MetaStage::RevealAll(_) | MetaStage::Template(_) | MetaStage::TestOne(_) => true,
            _ => false,
        }
    }
}

/// How many border stages the list holds.
pub open spec fn borders_in(stages: Seq<MetaStage>) -> int
    decreases stages.len(),
{
    if stages.len() == 0 {
        0
    } else {
        borders_in(stages.drop_last()) + (if stages.last() is Borders { 1int } else { 0 })
    }
}

/// Border stages count up over a concatenation.
pub proof fn lemma_borders_in_concat(a: Seq<MetaStage>, b: Seq<MetaStage>)
    ensures
        borders_in(a + b) == borders_in(a) + borders_in(b),
    decreases b.len(),
{
    if b.len() == 0 {
        assert(a + b =~= a);
    } else {
        lemma_borders_in_concat(a, b.drop_last());
        assert((a + b).drop_last() =~= a + b.drop_last());
        assert((a + b).last() == b.last());
    }
}

/// How many dungeon entry stages the list holds.
pub open spec fn entry_stages(stages: Seq<MetaStage>) -> int
    decreases stages.len(),
{
    if stages.len() == 0 {
        0
    } else {
        entry_stages(stages.drop_last()) + (if stages.last() is DungeonEntryRoomBased { 1int } else { 0 })
    }
}

/// A count of entry stages is never negative.
pub proof fn lemma_entry_stages_nonneg(stages: Seq<MetaStage>)
    ensures
        entry_stages(stages) >= 0,
    decreases stages.len(),
{
    if stages.len() > 0 {
        lemma_entry_stages_nonneg(stages.drop_last());
    }
}

/// Entry stages count up over a concatenation.
pub proof fn lemma_entry_stages_concat(a: Seq<MetaStage>, b: Seq<MetaStage>)
    ensures
        entry_stages(a + b) == entry_stages(a) + entry_stages(b),
    decreases b.len(),
{
    if b.len() == 0 {
        assert(a + b =~= a);
    } else {
        lemma_entry_stages_concat(a, b.drop_last());
        assert((a + b).drop_last() =~= a + b.drop_last());
        assert((a + b).last() == b.last());
    }
}

/// The level has no dungeon entry tile.
pub open spec fn no_entry_tiles(m: GameMap) -> bool {
    forall|x: int, y: int|
        m.in_bounds(x, y) ==> (#[trigger] m.tile(x, y)).tile_type != TileType::DungeonEntry
}

/// The only dungeon entry tile of the level, if any, is the recorded entry.
pub open spec fn entries_at_entry(b: BuilderMap) -> bool {
    forall|x: int, y: int|
        b.map.in_bounds(x, y) && (#[trigger] b.map.tile(x, y)).tile_type == TileType::DungeonEntry
            ==> (b.entry matches Some(p) && x == p.x && y == p.y)
}

/// Among the first `i` stages there is a dungeon entry stage, and every
/// stage after the last of them leaves the entry valid.
pub open spec fn entry_settled(stages: Seq<MetaStage>, i: int) -> bool {
    exists|d: int|
        0 <= d < i && (#[trigger] stages[d]) is DungeonEntryRoomBased && forall|k: int|
            d < k < i ==> (#[trigger] stages[k]).keeps_entry()
}

/// What an initial stage does to a context: it sets the rooms (one inset
/// rectangle, or the rooms kept from some candidates) and nothing else.
pub open spec fn initial_effect(stage: InitialStage, before: BuilderMap, after: BuilderMap) -> bool {
    &&& after.map == before.map
    &&& after.width == before.width
    &&& after.height == before.height
    &&& after.entry == before.entry
    &&& after.rooms is Some
    &&& match stage {
        InitialStage::Empty(_) => after.room_list() == seq![
            MapRect { x1: 1, y1: 1, x2: (before.width - 1) as i32, y2: (before.height - 1) as i32 },
        ],
        InitialStage::Rooms(_) => exists|candidates: Seq<MapRect>|
            candidates.len() == MAX_ROOMS && (forall|i: int|
                0 <= i < candidates.len() ==> candidate_ok(
                    #[trigger] candidates[i],
                    before.width as int,
                    before.height as int,
                )) && after.room_list() == #[trigger] accepted(candidates),
    }
}

/// What a meta stage does to a context.
pub open spec fn meta_effect(stage: MetaStage, before: BuilderMap, after: BuilderMap) -> bool {
    match stage {
        MetaStage::RoomDrawer(_) => {
            &&& after.map.same_header(&before.map)
            &&& after.width == before.width
            &&& after.height == before.height
            &&& after.rooms == before.rooms
            &&& after.entry == before.entry
            &&& exists|shapes: Seq<i32>|
                shapes.len() == before.room_list().len() && #[trigger] drawn_with(
                    before.map,
                    after.map,
                    before.room_list(),
                    shapes,
                )
        },
        MetaStage::RoomSorter(s) => {
            &&& after.map == before.map
            &&& after.width == before.width
            &&& after.height == before.height
            &&& after.entry == before.entry
            &&& after.rooms is Some
            &&& sorted_by(s.sort_by, after.room_list())
            &&& after.room_list().to_multiset() == before.room_list().to_multiset()
        },
        MetaStage::Borders(_) => {
            &&& after.width == before.width + 2
            &&& after.height == before.height + 2
            &&& after.map.id == before.map.id
            &&& after.map.name@ == before.map.name@
            &&& after.rooms == before.rooms
            &&& after.entry == before.entry
            &&& forall|x: int, y: int|
                after.map.in_bounds(x, y) ==> #[trigger] after.map.tile(x, y) == (if on_ring(
                    x,
                    y,
                    after.width as int,
                    after.height as int,
                ) {
                    border_tile()
                } else {
                    before.map.tile(x - 1, y - 1)
                })
        },
        MetaStage::DungeonEntryRoomBased(_) => {
            &&& after.map.same_header(&before.map)
            &&& after.width == before.width
            &&& after.height == before.height
            &&& after.rooms == before.rooms
            &&& after.entry_valid()
            &&& (after.entry matches Some(p) ==> after.map.tile(p.x as int, p.y as int)
                == dungeon_entry_tile())
            &&& forall|x: int, y: int|
                after.map.in_bounds(x, y) && (x != before.room_list()[0].center_of().0 || y
                    != before.room_list()[0].center_of().1) ==> #[trigger] after.map.tile(x, y)
                    == before.map.tile(x, y)
        },
        MetaStage::RevealAll(_) => {
            &&& after.map.same_header(&before.map)
            &&& after.width == before.width
            &&& after.height == before.height
            &&& after.rooms == before.rooms
            &&& after.entry == before.entry
            &&& forall|x: int, y: int|
                after.map.in_bounds(x, y) ==> #[trigger] after.map.tile(x, y) == revealed(
                    before.map.tile(x, y),
                )
        },
        MetaStage::Template(_) | MetaStage::TestOne(_) => after == before,
    }
}

/// `states` are the contexts of a run: the initial stage takes `start` to
/// the first, and each meta stage in turn takes one to the next.
pub open spec fn chain_trace(
    starter: InitialStage,
    stages: Seq<MetaStage>,
    start: BuilderMap,
    states: Seq<BuilderMap>,
) -> bool {
    &&& states.len() == stages.len() + 1
    &&& initial_effect(starter, start, states[0])
    &&& forall|i: int|
        0 <= i < stages.len() ==> #[trigger] meta_effect(stages[i], states[i], states[i + 1])
}

/// A level build: one initial stage, the meta stages in order, and the
/// context they work on.
pub struct BuilderChain {
    pub starter: Option<InitialStage>,
    pub builders: Vec<MetaStage>,
    pub build_data: BuilderMap,
}

/// The context is fresh: a level of walls, no rooms and no entry.
pub open spec fn fresh_context(b: BuilderMap) -> bool {
    &&& b.wf()
    &&& b.rooms is None
    &&& b.entry is None
    &&& forall|x: int, y: int| b.map.in_bounds(x, y) ==> #[trigger] b.map.tile(x, y) == wall_tile()
}

impl BuilderChain {
    /// The chain can run: it has its initial stage, the level is large
    /// enough for it (three tiles on each side; room for the largest room
    /// with the rooms stage), and every border stage keeps the level within
    /// `i32` coordinates.
    pub open spec fn runnable(&self) -> bool {
        &&& self.starter is Some
        &&& self.build_data.wf()
        &&& 3 <= self.build_data.width
        &&& 3 <= self.build_data.height
        &&& (self.starter matches Some(InitialStage::Rooms(_)) ==> MAX_W + 2 <= self.build_data.width
            && MAX_H + 2 <= self.build_data.height)
        &&& level_fits(
            self.build_data.width + 2 * self.builders@.len(),
            self.build_data.height + 2 * self.builders@.len(),
        )
    }

    /// A chain with no stages yet, on a `width` by `height` level of walls.
    pub fn new(width: usize, height: usize) -> (r: BuilderChain)
        requires
            width * height <= usize::MAX,
        ensures
            r.starter is None,
            r.builders@.len() == 0,
            fresh_context(r.build_data),
            r.build_data.map.id == 0,
            r.build_data.width == width,
            r.build_data.height == height,
    {
        BuilderChain {
            starter: None,
            builders: Vec::new(),
            build_data: BuilderMap {
                map: GameMap::new(0, "New Map", width, height),
                width,
                height,
                rooms: None,
                entry: None,
            },
        }
    }

    /// Sets the initial stage. A chain has only one.
    pub fn start_with(&mut self, starter: InitialStage)
        requires
            old(self).starter is None,
        ensures
            final(self).starter == Some(starter),
            final(self).builders == old(self).builders,
            final(self).build_data == old(self).build_data,
    {
        self.starter = Some(starter);
    }

    /// Appends a meta stage.
    pub fn add(&mut self, metabuilder: MetaStage)
        ensures
            final(self).starter == old(self).starter,
            final(self).builders@ == old(self).builders@.push(metabuilder),
            final(self).build_data == old(self).build_data,
    {
        self.builders.push(metabuilder);
    }

    /// Runs the initial stage, then each meta stage in the order they were
    /// added. Afterwards there are rooms, no two of them overlap, each lies
    /// on the level, every dungeon entry tile is walkable, and where the
    /// last dungeon entry stage is followed only by stages that keep the
    /// entry, the recorded entry is valid.
    pub fn build_map(&mut self, rng: &mut GameRng)
        requires
            old(self).runnable(),
            old(self).build_data.map.entries_walkable(),
        ensures
            final(self).starter == old(self).starter,
            final(self).builders == old(self).builders,
            final(self).build_data.wf(),
            final(self).build_data.rooms_ok(),
            final(self).build_data.map.id == old(self).build_data.map.id,
            final(self).build_data.map.name@ == old(self).build_data.map.name@,
            final(self).build_data.map.entries_walkable(),
            level_fits(final(self).build_data.width as int, final(self).build_data.height as int),
            entry_settled(old(self).builders@, old(self).builders@.len() as int)
                ==> final(self).build_data.entry_valid(),
            no_entry_tiles(old(self).build_data.map) && entry_stages(old(self).builders@) == 1
                && entry_settled(old(self).builders@, old(self).builders@.len() as int)
                ==> entries_at_entry(final(self).build_data),
            final(self).build_data.width == old(self).build_data.width + 2 * borders_in(
                old(self).builders@,
            ),
            final(self).build_data.height == old(self).build_data.height + 2 * borders_in(
                old(self).builders@,
            ),
            exists|states: Seq<BuilderMap>|
                #[trigger] chain_trace(
                    old(self).starter.unwrap(),
                    old(self).builders@,
                    old(self).build_data,
                    states,
                ) && states.last() == final(self).build_data,
    {
        let ghost w0 = self.build_data.width as int;
        let ghost h0 = self.build_data.height as int;
        let ghost n = self.builders@.len() as int;
        proof {
            lemma_level_fits_smaller(w0, h0, 2 * n, 0);
        }
        let ghost start = self.build_data;
        match self.starter {
            Some(InitialStage::Empty(s)) => s.build_map(&mut self.build_data),
            Some(InitialStage::Rooms(s)) => s.build_map(&mut self.build_data, rng),
            None => {},
        }
        let ghost mut states: Seq<BuilderMap> = seq![self.build_data];
        proof {
            assert(initial_effect(self.starter.unwrap(), start, states[0]));
        }
        let mut i: usize = 0;
        while i < self.builders.len()
            invariant
                self.starter == old(self).starter,
                self.builders == old(self).builders,
                n == self.builders@.len(),
                i <= n,
                self.build_data.wf(),
                self.build_data.rooms_ok(),
                3 <= self.build_data.width,
                3 <= self.build_data.height,
                self.build_data.map.id == old(self).build_data.map.id,
                self.build_data.map.name@ == old(self).build_data.map.name@,
                self.build_data.map.entries_walkable(),
                level_fits(
                    self.build_data.width + 2 * (n - i),
                    self.build_data.height + 2 * (n - i),
                ),
                entry_settled(self.builders@, i as int) ==> self.build_data.entry_valid(),
                states.len() == i + 1,
                states.last() == self.build_data,
                self.build_data.width == start.width + 2 * borders_in(self.builders@.subrange(0, i as int)),
                no_entry_tiles(start.map) && entry_stages(self.builders@.subrange(0, i as int)) == 0
                    ==> no_entry_tiles(self.build_data.map),
                no_entry_tiles(start.map) && entry_stages(self.builders@.subrange(0, i as int)) == 1
                    && entry_settled(self.builders@, i as int) ==> entries_at_entry(self.build_data),
                self.build_data.height == start.height + 2 * borders_in(self.builders@.subrange(0, i as int)),
                initial_effect(self.starter.unwrap(), start, states[0]),
                start == old(self).build_data,
                forall|k: int|
                    0 <= k < i ==> #[trigger] meta_effect(self.builders@[k], states[k], states[k + 1]),
            decreases n - i,
        {
            let stage = self.builders[i];
            let ghost before = self.build_data;
            let ghost wb = before.width as int;
            let ghost hb = before.height as int;
            proof {
                lemma_level_fits_smaller(wb, hb, 2 * (n - i), 0);
                lemma_level_fits_smaller(wb, hb, 2 * (n - i), 2);
                lemma_level_fits_smaller(wb, hb, 2 * (n - i), 2 * (n - i - 1));
            }
            match stage {
                MetaStage::RoomDrawer(s) => s.build_map(&mut self.build_data, rng),
                MetaStage::RoomSorter(s) => s.sorter(&mut self.build_data),
                MetaStage::Borders(s) => {
                    s.build_map(&mut self.build_data);
                    proof {
                        let after = self.build_data;
                        assert forall|k: int| 0 <= k < after.room_list().len() implies room_inside(
                            #[trigger] after.room_list()[k],
                            after.width as int,
                            after.height as int,
                        ) && center_inside(after.room_list()[k], after.width as int, after.height as int)
                            && crate::builders::room_spans(after.room_list()[k]) by {
                            assert(room_inside(before.room_list()[k], wb, hb));
                            assert(center_inside(before.room_list()[k], wb, hb));
                        }
                        assert forall|x: int, y: int|
                            after.map.in_bounds(x, y) && (#[trigger] after.map.tile(x, y)).tile_type
                                == crate::tile::TileType::DungeonEntry implies after.map.tile(x, y).tile_walkable by {
                            if !crate::meta::on_ring(x, y, after.width as int, after.height as int) {
                                assert(before.map.in_bounds(x - 1, y - 1));
                            }
                        }
                    }
                },
                MetaStage::DungeonEntryRoomBased(s) => s.build_map(&mut self.build_data),
                MetaStage::RevealAll(s) => s.build_map(&mut self.build_data),
                MetaStage::Template(s) => s.build_map(&mut self.build_data),
                MetaStage::TestOne(s) => s.build_map(&mut self.build_data),
            }
            proof {
                assert(self.builders@.subrange(0, i + 1).drop_last() == self.builders@.subrange(0, i as int));
                assert(self.builders@.subrange(0, i + 1).last() == stage);
                let ghost prev = states;
                states = states.push(self.build_data);
                assert(stage == self.builders@[i as int]);
                assert(states[i as int] == before);
                assert(meta_effect(stage, before, self.build_data));
                assert forall|k: int|
                    0 <= k < i + 1 implies #[trigger] meta_effect(self.builders@[k], states[k], states[k + 1]) by {
                    if k < i {
                        assert(states[k] == prev[k]);
                        assert(states[k + 1] == prev[k + 1]);
                    }
                }
                let stages = self.builders@;
                let cur = self.build_data;
                let c0 = entry_stages(stages.subrange(0, i as int));
                lemma_entry_stages_nonneg(stages.subrange(0, i as int));
                if no_entry_tiles(start.map) && c0 == 0 && !(stage is DungeonEntryRoomBased) {
                    assert forall|x: int, y: int| cur.map.in_bounds(x, y) implies (#[trigger] cur.map.tile(
                        x,
                        y,
                    )).tile_type != TileType::DungeonEntry by {
                        match stage {
                            MetaStage::RoomDrawer(_) => {
                                let shapes = choose|shapes: Seq<i32>|
                                    shapes.len() == before.room_list().len() && #[trigger] drawn_with(
                                        before.map,
                                        cur.map,
                                        before.room_list(),
                                        shapes,
                                    );
                                assert(before.map.in_bounds(x, y));
                            },
                            MetaStage::Borders(_) => {
                                if !on_ring(x, y, cur.width as int, cur.height as int) {
                                    assert(before.map.in_bounds(x - 1, y - 1));
                                }
                            },
                            MetaStage::RevealAll(_) => {
                                assert(before.map.in_bounds(x, y));
                            },
                            _ => {
                                assert(before.map.in_bounds(x, y));
                            },
                        }
                    }
                }
                if no_entry_tiles(start.map) && c0 == 0 && stage is DungeonEntryRoomBased {
                    assert forall|x: int, y: int|
                        cur.map.in_bounds(x, y) && (#[trigger] cur.map.tile(x, y)).tile_type
                            == TileType::DungeonEntry implies (cur.entry matches Some(p) && x == p.x && y
                        == p.y) by {
                        assert(before.map.in_bounds(x, y));
                    }
                }
                if no_entry_tiles(start.map) && c0 == 1 && stage.keeps_entry() && entry_settled(
                    stages,
                    i + 1,
                ) {
                    let d = choose|d: int|
                        0 <= d < i + 1 && (#[trigger] stages[d]) is DungeonEntryRoomBased && forall|k: int|
                            d < k < i + 1 ==> (#[trigger] stages[k]).keeps_entry();
                    assert(stages[i as int].keeps_entry());
                    assert(entry_settled(stages, i as int));
                    assert forall|x: int, y: int|
                        cur.map.in_bounds(x, y) && (#[trigger] cur.map.tile(x, y)).tile_type
                            == TileType::DungeonEntry implies (cur.entry matches Some(p) && x == p.x && y
                        == p.y) by {
                        assert(before.map.in_bounds(x, y));
                        assert(before.map.tile(x, y).tile_type == TileType::DungeonEntry);
                    }
                }
                if entry_settled(stages, i + 1) {
                    let d = choose|d: int|
                        0 <= d < i + 1 && (#[trigger] stages[d]) is DungeonEntryRoomBased && forall|k: int|
                            d < k < i + 1 ==> (#[trigger] stages[k]).keeps_entry();
                    if d < i {
                        assert(stages[i as int].keeps_entry());
                        assert(entry_settled(stages, i as int));
                    }
                }
            }
            i += 1;
        }
        proof {
            assert(self.builders@.subrange(0, n) == self.builders@);
            assert(self.builders@.subrange(0, 0) =~= Seq::<MetaStage>::empty());
            assert(entry_stages(Seq::<MetaStage>::empty()) == 0);
            assert(chain_trace(self.starter.unwrap(), self.builders@, start, states));
        }
    }

    /// The first dungeon entry tile of the level, row by row from the top,
    /// each row from the left; `None` where the level has none.
    pub fn get_dungeon_entry(&self) -> (r: Option<Position>)
        requires
            self.build_data.map.wf(),
            level_fits(self.build_data.map.width as int, self.build_data.map.height as int),
        ensures
            r is None <==> forall|x: int, y: int|
                self.build_data.map.in_bounds(x, y) ==> (#[trigger] self.build_data.map.tile(x, y)).tile_type
                    != TileType::DungeonEntry,
            r matches Some(p) ==> {
                &&& p.map == self.build_data.map.id
                &&& self.build_data.map.in_bounds(p.x as int, p.y as int)
                &&& self.build_data.map.tile(p.x as int, p.y as int).tile_type == TileType::DungeonEntry
                &&& forall|x: int, y: int|
                    self.build_data.map.in_bounds(x, y) && (y < p.y || (y == p.y && x < p.x))
                        ==> (#[trigger] self.build_data.map.tile(x, y)).tile_type != TileType::DungeonEntry
            },
            self.build_data.entry_valid() && entries_at_entry(self.build_data) ==> r
                == self.build_data.entry,
    {
        let mut y: usize = 0;
        while y < self.build_data.map.height
            invariant
                self.build_data.map.wf(),
                level_fits(self.build_data.map.width as int, self.build_data.map.height as int),
                y <= self.build_data.map.height,
                forall|a: int, b: int|
                    self.build_data.map.in_bounds(a, b) && b < y ==> (#[trigger] self.build_data.map.tile(a, b)).tile_type
                        != TileType::DungeonEntry,
            decreases self.build_data.map.height - y,
        {
            let mut x: usize = 0;
            while x < self.build_data.map.width
                invariant
                    self.build_data.map.wf(),
                    level_fits(self.build_data.map.width as int, self.build_data.map.height as int),
                    y < self.build_data.map.height,
                    x <= self.build_data.map.width,
                    forall|a: int, b: int|
                        self.build_data.map.in_bounds(a, b) && (b < y || (b == y && a < x)) ==> (#[trigger] self.build_data.map.tile(
                            a,
                            b,
                        )).tile_type != TileType::DungeonEntry,
                decreases self.build_data.map.width - x,
            {
                if self.build_data.map.get_tile_type(x, y) == TileType::DungeonEntry {
                    assert(self.build_data.map.tile(x as int, y as int).tile_type == TileType::DungeonEntry);
                    return Some(Position { x: x as i32, y: y as i32, map: self.build_data.map.id });
                }
                x += 1;
            }
            y += 1;
        }
        None
    }

    /// A copy of the level as it stands.
    pub fn get_map(&self) -> (r: GameMap)
        ensures
            r.same_header(&self.build_data.map),
            r.cells() == self.build_data.map.cells(),
            r.wf() == self.build_data.map.wf(),
    {
        self.build_data.map.clone_map()
    }
}

} // verus!
