//! Level generation: the composition of a level's builder chain, and the
//! levels of a campaign.
use crate::builders::level_fits;
use crate::chain::{
    borders_in, entries_at_entry, entry_stages, lemma_borders_in_concat, lemma_entry_stages_concat,
    no_entry_tiles, BuilderChain, entry_settled, fresh_context, InitialStage, MetaStage,
};
use crate::component::Position;
use crate::initial::{EmptyMapBuilder, MAX_H, MAX_W, RoomsBuilder};
use crate::map::{GameMap, Maps};
use crate::meta::{Borders, DungeonEntryRoomBased, RevealAll, RoomDrawer, RoomSorter};
use crate::rng::{roll_str, GameRng};
use crate::sort::RoomSort;
use crate::tile::TileType;
use vstd::prelude::*;

verus! {

/// The level of the campaign that holds its entry.
pub const FIRST_LEVEL: usize = 1;

/// Whether `map_id` is the level that holds the campaign's entry.
pub open spec fn is_first_level(map_id: int) -> bool {
    map_id == FIRST_LEVEL
}

/// The room order that a roll of one four-sided die picks.
pub open spec fn sort_of_roll(roll: i32) -> RoomSort {
    if roll == 1 {
        RoomSort::Leftmost
    } else if roll == 2 {
        RoomSort::Rightmost
    } else if roll == 3 {
        RoomSort::Topmost
    } else {
        RoomSort::Bottommost
    }
}

/// The initial stage that a roll of one two-sided die picks: 1 makes one
/// empty room, anything else places rooms at random.
pub open spec fn initial_of_roll(roll: i32) -> InitialStage {
    if roll == 1 {
        InitialStage::Empty(EmptyMapBuilder {  })
    } else {
        InitialStage::Rooms(RoomsBuilder {  })
    }
}

/// The stages that end every composition: draw the rooms, close the level,
/// place the entry on the first level, and reveal everything where asked.
pub open spec fn closing_stages(first: bool, reveal: bool) -> Seq<MetaStage> {
    seq![MetaStage::RoomDrawer(RoomDrawer {  }), MetaStage::Borders(Borders {  })] + (if first {
        seq![MetaStage::DungeonEntryRoomBased(DungeonEntryRoomBased {  })]
    } else {
        Seq::empty()
    }) + (if reveal {
        seq![MetaStage::RevealAll(RevealAll {  })]
    } else {
        Seq::empty()
    })
}

/// The meta stages of a level: the rooms composition sorts its rooms first.
pub open spec fn meta_stages_of(map_type: i32, sort: i32, first: bool, reveal: bool) -> Seq<
    MetaStage,
> {
    if map_type == 1 {
        closing_stages(first, reveal)
    } else {
        seq![MetaStage::RoomSorter(RoomSorter { sort_by: sort_of_roll(sort) })] + closing_stages(
            first,
            reveal,
        )
    }
}

/// On the first level the entry stage is followed at most by a reveal stage.
pub proof fn lemma_first_level_settles_entry(map_type: i32, sort: i32, reveal: bool)
    ensures
        entry_settled(
            meta_stages_of(map_type, sort, true, reveal),
            meta_stages_of(map_type, sort, true, reveal).len() as int,
        ),
{
    let stages = meta_stages_of(map_type, sort, true, reveal);
    let d = if map_type == 1 { 2int } else { 3int };
    assert(stages[d] is DungeonEntryRoomBased);
    assert forall|k: int| d < k < stages.len() implies (#[trigger] stages[k]).keeps_entry() by {
        assert(stages[k] is RevealAll);
    }
}

proof fn lemma_one_stage(x: MetaStage)
    ensures
        borders_in(seq![x]) == (if x is Borders { 1int } else { 0 }),
{
    assert(seq![x].drop_last() =~= Seq::<MetaStage>::empty());
    assert(borders_in(Seq::<MetaStage>::empty()) == 0);
    assert(seq![x].last() == x);
}

proof fn lemma_one_stage_entry(x: MetaStage)
    ensures
        entry_stages(seq![x]) == (if x is DungeonEntryRoomBased { 1int } else { 0 }),
{
    assert(seq![x].drop_last() =~= Seq::<MetaStage>::empty());
    assert(entry_stages(Seq::<MetaStage>::empty()) == 0);
    assert(seq![x].last() == x);
}

/// The first level's composition places its entry exactly once.
pub proof fn lemma_one_entry(map_type: i32, sort: i32, reveal: bool)
    ensures
        entry_stages(meta_stages_of(map_type, sort, true, reveal)) == 1,
{
    let rd = MetaStage::RoomDrawer(RoomDrawer {  });
    let bo = MetaStage::Borders(Borders {  });
    let de = seq![MetaStage::DungeonEntryRoomBased(DungeonEntryRoomBased {  })];
    let rv = seq![MetaStage::RevealAll(RevealAll {  })];
    let e = Seq::<MetaStage>::empty();
    lemma_one_stage_entry(rd);
    lemma_one_stage_entry(bo);
    lemma_one_stage_entry(de[0]);
    lemma_one_stage_entry(rv[0]);
    assert(seq![rd, bo] =~= seq![rd] + seq![bo]);
    lemma_entry_stages_concat(seq![rd], seq![bo]);
    assert(de =~= seq![de[0]]);
    assert(rv =~= seq![rv[0]]);
    let last = if reveal { rv } else { e };
    assert(entry_stages(e) == 0);
    assert(entry_stages(de) == 1);
    assert(entry_stages(last) == 0);
    assert(entry_stages(seq![rd, bo]) == 0);
    lemma_entry_stages_concat(seq![rd, bo], de);
    lemma_entry_stages_concat(seq![rd, bo] + de, last);
    assert(closing_stages(true, reveal) == seq![rd, bo] + de + last);
    let sorter = MetaStage::RoomSorter(RoomSorter { sort_by: sort_of_roll(sort) });
    lemma_one_stage_entry(sorter);
    lemma_entry_stages_concat(seq![sorter], closing_stages(true, reveal));
    if map_type == 1 {
        assert(meta_stages_of(map_type, sort, true, reveal) == closing_stages(true, reveal));
    } else {
        assert(meta_stages_of(map_type, sort, true, reveal) == seq![sorter] + closing_stages(
            true,
            reveal,
        ));
    }
}

/// Every composition closes its level exactly once.
pub proof fn lemma_one_border(map_type: i32, sort: i32, first: bool, reveal: bool)
    ensures
        borders_in(meta_stages_of(map_type, sort, first, reveal)) == 1,
{
    let rd = MetaStage::RoomDrawer(RoomDrawer {  });
    let bo = MetaStage::Borders(Borders {  });
    let de = seq![MetaStage::DungeonEntryRoomBased(DungeonEntryRoomBased {  })];
    let rv = seq![MetaStage::RevealAll(RevealAll {  })];
    let e = Seq::<MetaStage>::empty();
    lemma_one_stage(rd);
    lemma_one_stage(bo);
    lemma_one_stage(de[0]);
    lemma_one_stage(rv[0]);
    assert(seq![rd, bo] =~= seq![rd] + seq![bo]);
    lemma_borders_in_concat(seq![rd], seq![bo]);
    assert(de =~= seq![de[0]]);
    assert(rv =~= seq![rv[0]]);
    let middle = if first { de } else { e };
    let last = if reveal { rv } else { e };
    assert(borders_in(e) == 0);
    assert(borders_in(middle) == 0);
    assert(borders_in(last) == 0);
    assert(borders_in(seq![rd, bo]) == 1);
    lemma_borders_in_concat(seq![rd, bo], middle);
    lemma_borders_in_concat(seq![rd, bo] + middle, last);
    assert(closing_stages(first, reveal) == seq![rd, bo] + middle + last);
    assert(borders_in(closing_stages(first, reveal)) == 1);
    let sorter = MetaStage::RoomSorter(RoomSorter { sort_by: sort_of_roll(sort) });
    lemma_one_stage(sorter);
    lemma_borders_in_concat(seq![sorter], closing_stages(first, reveal));
    assert(borders_in(seq![sorter]) == 0);
    if map_type == 1 {
        assert(meta_stages_of(map_type, sort, first, reveal) == closing_stages(first, reveal));
    } else {
        assert(meta_stages_of(map_type, sort, first, reveal) == seq![sorter] + closing_stages(
            first,
            reveal,
        ));
    }
}

/// The chain of a level, for given rolls: the level is `map_id`, named
/// `map_name`, `width` by `height` walls to start with.
pub fn compose_builder(
    map_id: usize,
    map_name: &str,
    width: usize,
    height: usize,
    map_type: i32,
    sort: i32,
    reveal: bool,
) -> (r: BuilderChain)
    requires
        width * height <= usize::MAX,
        map_id <= i32::MAX,
    ensures
        r.starter == Some(initial_of_roll(map_type)),
        r.builders@ == meta_stages_of(map_type, sort, is_first_level(map_id as int), reveal),
        fresh_context(r.build_data),
        r.build_data.map.id == map_id,
        r.build_data.map.name@ == map_name@,
        r.build_data.width == width,
        r.build_data.height == height,
{
    let mut builder = BuilderChain::new(width, height);
    if map_type == 1 {
        builder.start_with(InitialStage::Empty(EmptyMapBuilder::new()));
    } else {
        builder.start_with(InitialStage::Rooms(RoomsBuilder::new()));
        let by = if sort == 1 {
            RoomSort::Leftmost
        } else if sort == 2 {
            RoomSort::Rightmost
        } else if sort == 3 {
            RoomSort::Topmost
        } else {
            RoomSort::Bottommost
        };
        builder.add(MetaStage::RoomSorter(RoomSorter::new(by)));
    }
    builder.add(MetaStage::RoomDrawer(RoomDrawer::new()));
    builder.add(MetaStage::Borders(Borders::new()));
    if map_id == FIRST_LEVEL {
        builder.add(MetaStage::DungeonEntryRoomBased(DungeonEntryRoomBased::new()));
    }
    if reveal {
        builder.add(MetaStage::RevealAll(RevealAll::new()));
    }
    let ghost walls = builder.build_data.map;
    builder.build_data.map.id = map_id as i32;
    builder.build_data.map.set_name(map_name);
    assert forall|x: int, y: int| builder.build_data.map.in_bounds(x, y) implies #[trigger] builder.build_data.map.tile(x, y)
        == crate::tile::wall_tile() by {
        assert(walls.in_bounds(x, y));
        assert(walls.tile(x, y) == crate::tile::wall_tile());
    }
    assert(builder.builders@ =~= meta_stages_of(map_type, sort, is_first_level(map_id as int), reveal));
    builder
}

/// The chain of a level, with its composition drawn at random: one die of
/// two picks the initial stage, one die of four the room order.
pub fn random_builder(
    map_id: usize,
    map_name: &str,
    width: usize,
    height: usize,
    rng: &mut GameRng,
    reveal: bool,
) -> (r: BuilderChain)
    requires
        width * height <= usize::MAX,
        map_id <= i32::MAX,
    ensures
        exists|map_type: i32, sort: i32|
            r.starter == Some(initial_of_roll(map_type)) && r.builders@ == #[trigger] meta_stages_of(
                map_type,
                sort,
                is_first_level(map_id as int),
                reveal,
            ),
        fresh_context(r.build_data),
        r.build_data.map.id == map_id,
        r.build_data.map.name@ == map_name@,
        r.build_data.width == width,
        r.build_data.height == height,
{
    let map_type = roll_str(rng, "1d2");
    let sort = if map_type == 1 {
        0
    } else {
        roll_str(rng, "1d4")
    };
    compose_builder(map_id, map_name, width, height, map_type, sort, reveal)
}

/// The chain of level `map_id`; see `random_builder`.
pub fn generate_builder_chain(
    map_id: usize,
    map_name: &str,
    width: usize,
    height: usize,
    rng: &mut GameRng,
    reveal: bool,
) -> (r: BuilderChain)
    requires
        width * height <= usize::MAX,
        map_id <= i32::MAX,
    ensures
        exists|map_type: i32, sort: i32|
            r.starter == Some(initial_of_roll(map_type)) && r.builders@ == #[trigger] meta_stages_of(
                map_type,
                sort,
                is_first_level(map_id as int),
                reveal,
            ),
        fresh_context(r.build_data),
        r.build_data.map.id == map_id,
        r.build_data.map.name@ == map_name@,
        r.build_data.width == width,
        r.build_data.height == height,
{
    random_builder(map_id, map_name, width, height, rng, reveal)
}

/// The decimal digits of `n`.
pub open spec fn digits(n: nat) -> Seq<char>
    decreases n,
{
    let d = seq!['0', '1', '2', '3', '4', '5', '6', '7', '8', '9'][(n % 10) as int];
    if n < 10 {
        seq![d]
    } else {
        digits(n / 10).push(d)
    }
}

/// The name of level `n`: `D:` and its number.
pub open spec fn level_name_of(n: nat) -> Seq<char> {
    seq!['D', ':'] + digits(n)
}

/// Relies on `format!` writing a `&str` as it is, then a `usize` in
/// decimal.
#[verifier::external_body]
fn prefixed_number(prefix: &str, n: usize) -> (r: String)
    ensures
        r@ == prefix@ + digits(n as nat),
{
    format!("{}{}", prefix, n)
}

/// The name of level `n`.
pub fn level_name(n: usize) -> (r: String)
    ensures
        r@ == level_name_of(n as nat),
{
    proof {
        reveal_strlit("D:");
    }
    prefixed_number("D:", n)
}

/// A level inside the limits of generation: the rooms stage fits, and five
/// border stages would keep it within `i32` coordinates.
pub open spec fn level_size_ok(width: int, height: int) -> bool {
    MAX_W + 2 <= width && MAX_H + 2 <= height && level_fits(width + 10, height + 10)
}

/// Builds level `map_id`: draws its composition, then runs it. The rooms
/// are there and no two overlap; on the first level the recorded entry is
/// the centre of the first room, lies within that room, and its tile is a
/// walkable dungeon entry.
pub fn generate_level(
    map_id: usize,
    map_name: &str,
    width: usize,
    height: usize,
    rng: &mut GameRng,
    reveal: bool,
) -> (r: BuilderChain)
    requires
        level_size_ok(width as int, height as int),
        map_id <= i32::MAX,
    ensures
        r.build_data.wf(),
        r.build_data.rooms_ok(),
        r.build_data.map.id == map_id,
        r.build_data.map.name@ == map_name@,
        r.build_data.map.entries_walkable(),
        level_fits(r.build_data.width as int, r.build_data.height as int),
        r.build_data.width == width + 2,
        r.build_data.height == height + 2,
        is_first_level(map_id as int) ==> r.build_data.entry_valid(),
        is_first_level(map_id as int) ==> entries_at_entry(r.build_data),
        is_first_level(map_id as int) ==> (r.build_data.entry matches Some(p) && {
            let room = r.build_data.room_list()[0];
            room.x1 <= p.x <= room.x2 && room.y1 <= p.y <= room.y2
        }),
{
    proof {
        crate::builders::lemma_level_fits_smaller(width as int, height as int, 10, 0);
    }
    let mut builder = generate_builder_chain(map_id, map_name, width, height, rng, reveal);
    let ghost stages = builder.builders@;
    proof {
        let (t, s) = choose|t: i32, s: i32|
            builder.starter == Some(initial_of_roll(t)) && stages == #[trigger] meta_stages_of(
                t,
                s,
                is_first_level(map_id as int),
                reveal,
            );
        assert(stages.len() <= 5);
        crate::builders::lemma_level_fits_smaller(
            width as int,
            height as int,
            10,
            2 * stages.len() as int,
        );
        if is_first_level(map_id as int) {
            lemma_first_level_settles_entry(t, s, reveal);
            lemma_one_entry(t, s, reveal);
        }
        lemma_one_border(t, s, is_first_level(map_id as int), reveal);
        let m = builder.build_data.map;
        assert forall|x: int, y: int| m.in_bounds(x, y) implies (#[trigger] m.tile(x, y)).tile_type
            != TileType::DungeonEntry by {
            assert(m.tile(x, y) == crate::tile::wall_tile());
        }
        assert(no_entry_tiles(m));
        assert forall|x: int, y: int|
            m.in_bounds(x, y) && (#[trigger] m.tile(x, y)).tile_type == TileType::DungeonEntry implies m.tile(
            x,
            y,
        ).tile_walkable by {
            assert(m.tile(x, y) == crate::tile::wall_tile());
        }
    }
    builder.build_map(rng);
    proof {
        if is_first_level(map_id as int) {
            crate::rect::lemma_center_within(builder.build_data.room_list()[0]);
        }
    }
    builder
}

/// The levels `first` to `last` of a campaign, after a one-tile
/// placeholder at index 0, each `width` by `height` before its border; and
/// the entry found on the first level (the origin where the first level is
/// not among them).
pub fn generate_maps(
    first: i32,
    last: i32,
    width: usize,
    height: usize,
    rng: &mut GameRng,
    reveal: bool,
) -> (r: (Maps, Position))
    requires
        0 <= first,
        last < i32::MAX,
        level_size_ok(width as int, height as int),
    ensures
        r.0.map@.len() == 1 + (if last >= first { last - first + 1 } else { 0 }),
        forall|k: int| 0 <= k < r.0.map@.len() ==> (#[trigger] r.0.map@[k]).wf(),
        r.0.map@[0].id == 0,
        r.0.map@[0].name@ == "Zero"@,
        r.0.map@[0].width == 1 && r.0.map@[0].height == 1,
        forall|k: int|
            1 <= k < r.0.map@.len() ==> (#[trigger] r.0.map@[k]).width == width + 2
                && r.0.map@[k].height == height + 2,
        forall|k: int|
            1 <= k < r.0.map@.len() ==> (#[trigger] r.0.map@[k]).id == first + k - 1
                && r.0.map@[k].name@ == level_name_of((first + k - 1) as nat),
        first <= FIRST_LEVEL <= last ==> {
            let m = r.0.map@[FIRST_LEVEL - first + 1];
            &&& r.1.map == FIRST_LEVEL
            &&& m.in_bounds(r.1.x as int, r.1.y as int)
            &&& m.tile(r.1.x as int, r.1.y as int).tile_type == TileType::DungeonEntry
            &&& m.tile(r.1.x as int, r.1.y as int).tile_walkable
        },
        !(first <= FIRST_LEVEL <= last) ==> r.1 == (Position { x: 0, y: 0, map: 0 }),
{
    let mut maps = Maps::new();
    let mut dungeon_entry = Position { x: 0, y: 0, map: 0 };
    proof {
        reveal_strlit("Zero");
    }
    maps.map.push(GameMap::new(0, "Zero", 1, 1));
    if last < first {
        return (maps, dungeon_entry);
    }
    let mut i: i32 = first;
    while i <= last
        invariant
            0 <= first <= i,
            i <= last + 1,
            last < i32::MAX,
            level_size_ok(width as int, height as int),
            maps.map@.len() == 1 + (i - first),
            forall|k: int| 0 <= k < maps.map@.len() ==> (#[trigger] maps.map@[k]).wf(),
            maps.map@[0].id == 0,
            maps.map@[0].name@ == "Zero"@,
            maps.map@[0].width == 1 && maps.map@[0].height == 1,
            forall|k: int|
                1 <= k < maps.map@.len() ==> (#[trigger] maps.map@[k]).width == width + 2
                    && maps.map@[k].height == height + 2,
            forall|k: int|
                1 <= k < maps.map@.len() ==> (#[trigger] maps.map@[k]).id == first + k - 1
                    && maps.map@[k].name@ == level_name_of((first + k - 1) as nat),
            first <= FIRST_LEVEL < i ==> {
                let m = maps.map@[FIRST_LEVEL - first + 1];
                &&& dungeon_entry.map == FIRST_LEVEL
                &&& m.in_bounds(dungeon_entry.x as int, dungeon_entry.y as int)
                &&& m.tile(dungeon_entry.x as int, dungeon_entry.y as int).tile_type
                    == TileType::DungeonEntry
                &&& m.tile(dungeon_entry.x as int, dungeon_entry.y as int).tile_walkable
            },
            !(first <= FIRST_LEVEL < i) ==> dungeon_entry == (Position { x: 0, y: 0, map: 0 }),
        decreases last + 1 - i,
    {
        let name = level_name(i as usize);
        let builder = generate_level(i as usize, name.as_str(), width, height, rng, reveal);
        let ghost bm = builder.build_data.map;
        if i as usize == FIRST_LEVEL {
            match builder.get_dungeon_entry() {
                Some(p) => {
                    dungeon_entry = p;
                },
                None => {
                    proof {
                        let e = builder.build_data.entry.unwrap();
                        assert(bm.in_bounds(e.x as int, e.y as int));
                    }
                },
            }
        }
        let level = builder.get_map();
        let ghost before = maps.map@;
        maps.map.push(level);
        proof {
            if first <= FIRST_LEVEL <= i {
                let k = FIRST_LEVEL - first + 1;
                if i as usize == FIRST_LEVEL {
                    assert(maps.map@[k] == level);
                    assert(level.tile(dungeon_entry.x as int, dungeon_entry.y as int) == bm.tile(
                        dungeon_entry.x as int,
                        dungeon_entry.y as int,
                    ));
                } else {
                    assert(maps.map@[k] == before[k]);
                }
            }
        }
        i += 1;
    }
    (maps, dungeon_entry)
}

} // verus!
