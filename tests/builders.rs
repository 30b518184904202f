use rusty_legions::builders::BuilderMap;
use rusty_legions::chain::{BuilderChain, InitialStage, MetaStage};
use rusty_legions::initial::{accept_rooms, EmptyMapBuilder, RoomsBuilder};
use rusty_legions::map::GameMap;
use rusty_legions::meta::{draw_room, Borders, DungeonEntryRoomBased, RevealAll, RoomDrawer, RoomSorter};
use rusty_legions::rect::MapRect;
use rusty_legions::rng::GameRng;
use rusty_legions::sort::{sort_rooms, RoomSort};
use rusty_legions::tile::TileType;
use rusty_legions::worldgen::{compose_builder, generate_level, generate_maps};

fn context(width: usize, height: usize) -> BuilderMap {
    BuilderMap {
        map: GameMap::new(0, "test", width, height),
        width,
        height,
        rooms: None,
        entry: None,
    }
}

fn terrain(map: &GameMap) -> Vec<TileType> {
    let mut out = Vec::new();
    for y in 0..map.height {
        for x in 0..map.width {
            out.push(map.get_tile_type(x, y));
        }
    }
    out
}

#[test]
fn rect_center_of_literal_case() {
    assert_eq!(MapRect::new(0, 0, 4, 4).center(), (3, 3));
    assert_eq!(MapRect::new(2, 3, 5, 7).center(), ((2 * 2 + 5) / 2 + 1, (3 * 2 + 7) / 2 + 1));
    assert_eq!(MapRect::new(-5, -5, 2, 2).center(), (-3, -3));
}

#[test]
fn rect_intersection_is_inclusive() {
    let a = MapRect::new(0, 0, 4, 4);
    assert!(a.intersect(&MapRect::new(4, 4, 2, 2)));
    assert!(!a.intersect(&MapRect::new(5, 0, 2, 2)));
    assert!(MapRect::new(5, 0, 2, 2).intersect(&MapRect::new(6, 1, 0, 0)));
    assert_eq!(a.intersect(&MapRect::new(2, 9, 1, 1)), MapRect::new(2, 9, 1, 1).intersect(&a));
}

#[test]
fn accepted_rooms_skip_overlapping_candidates() {
    let candidates = vec![
        MapRect::new(0, 0, 4, 4),
        MapRect::new(2, 2, 4, 4),
        MapRect::new(10, 10, 3, 3),
        MapRect::new(13, 13, 2, 2),
        MapRect::new(20, 0, 3, 3),
    ];
    let rooms = accept_rooms(&candidates);
    assert_eq!(rooms, vec![candidates[0], candidates[2], candidates[4]]);
}

#[test]
fn rooms_stage_rooms_never_overlap() {
    for seed in [1u64, 2, 3, 123456789] {
        let mut rng = GameRng::seeded(seed);
        let mut ctx = context(80, 50);
        RoomsBuilder::new().build_map(&mut ctx, &mut rng);
        let rooms = ctx.rooms.unwrap();
        assert!(!rooms.is_empty() && rooms.len() <= 30);
        for i in 0..rooms.len() {
            for j in 0..rooms.len() {
                if i != j {
                    assert!(!rooms[i].intersect(&rooms[j]));
                }
            }
            assert!(rooms[i].x1 >= 0 && rooms[i].x2 <= 78 && rooms[i].y1 >= 0 && rooms[i].y2 <= 48);
        }
    }
}

#[test]
fn empty_stage_on_a_tiny_level() {
    let mut ctx = context(2, 2);
    EmptyMapBuilder::new().build_map(&mut ctx);
    assert_eq!(ctx.rooms.unwrap(), vec![MapRect::new(1, 1, 0, 0)]);
}

#[test]
fn entry_needs_only_the_centre_on_the_level() {
    let mut ctx = context(8, 6);
    ctx.rooms = Some(vec![MapRect::new(1, 1, 8, 2)]);
    DungeonEntryRoomBased::new().build_map(&mut ctx);
    let e = ctx.entry.unwrap();
    assert_eq!((e.x, e.y), (6, 3));
    assert_eq!(ctx.map.get_tile_type(6, 3), TileType::DungeonEntry);
}

#[test]
fn level_names_and_seeding() {
    assert_eq!(rusty_legions::worldgen::level_name(17), "D:17");
    assert_eq!(rusty_legions::worldgen::level_name(0), "D:0");
    let mut a = GameRng::seeded(5);
    let mut b = GameRng::seeded(6);
    rusty_legions::rng::reseed(&mut b, 5);
    assert_eq!(rusty_legions::rng::next_u64(&mut a), rusty_legions::rng::next_u64(&mut b));
}

#[test]
fn empty_stage_makes_one_inset_room() {
    let mut ctx = context(10, 8);
    EmptyMapBuilder::new().build_map(&mut ctx);
    assert_eq!(ctx.rooms.unwrap(), vec![MapRect::new(1, 1, 8, 6)]);
}

#[test]
fn rectangle_room_is_all_floor() {
    let mut map = GameMap::new(0, "t", 10, 10);
    draw_room(&mut map, &MapRect::new(2, 3, 3, 2), 2);
    for y in 0..10usize {
        for x in 0..10usize {
            let inside = (2..=5).contains(&x) && (3..=5).contains(&y);
            assert_eq!(map.get_tile_type(x, y) == TileType::Floor, inside);
            assert_eq!(map.is_walkable(x as i32, y as i32), inside);
        }
    }
}

#[test]
fn circle_room_keeps_corners() {
    let mut map = GameMap::new(0, "t", 12, 12);
    draw_room(&mut map, &MapRect::new(1, 1, 6, 6), 1);
    // centre (5, 5), radius 3
    assert_eq!(map.get_tile_type(5, 5), TileType::Floor);
    assert_eq!(map.get_tile_type(2, 5), TileType::Floor);
    assert_eq!(map.get_tile_type(5, 2), TileType::Floor);
    assert_eq!(map.get_tile_type(1, 1), TileType::Wall);
    assert_eq!(map.get_tile_type(7, 7), TileType::Floor);
    assert_eq!(map.get_tile_type(7, 1), TileType::Wall);
    assert_eq!(map.get_tile_type(1, 5), TileType::Wall);
}

#[test]
fn sorter_orders_each_way() {
    let rooms = vec![MapRect::new(5, 1, 2, 8), MapRect::new(1, 9, 3, 2), MapRect::new(9, 4, 1, 1)];
    let left = sort_rooms(&rooms, RoomSort::Leftmost);
    assert_eq!(left, vec![rooms[1], rooms[0], rooms[2]]);
    let right = sort_rooms(&rooms, RoomSort::Rightmost);
    assert_eq!(right, vec![rooms[2], rooms[0], rooms[1]]);
    let top = sort_rooms(&rooms, RoomSort::Topmost);
    assert_eq!(top, vec![rooms[0], rooms[2], rooms[1]]);
    let bottom = sort_rooms(&rooms, RoomSort::Bottommost);
    assert_eq!(bottom, vec![rooms[1], rooms[0], rooms[2]]);
    let mut ctx = context(20, 20);
    ctx.rooms = Some(rooms.clone());
    RoomSorter::new(RoomSort::Rightmost).sorter(&mut ctx);
    assert_eq!(ctx.rooms.unwrap(), right);
}

#[test]
fn borders_close_the_level() {
    let mut ctx = context(6, 4);
    ctx.rooms = Some(vec![MapRect::new(0, 0, 5, 3)]);
    let mut rng = GameRng::seeded(1);
    RoomDrawer::new().build_map(&mut ctx, &mut rng);
    Borders::new().build_map(&mut ctx);
    assert_eq!((ctx.width, ctx.height), (8, 6));
    assert_eq!((ctx.map.width, ctx.map.height), (8, 6));
    for y in 0..6usize {
        for x in 0..8usize {
            let ring = x == 0 || y == 0 || x == 7 || y == 5;
            assert_eq!(map_walkable(&ctx.map, x, y), !ring);
        }
    }
}

fn map_walkable(map: &GameMap, x: usize, y: usize) -> bool {
    map.is_walkable(x as i32, y as i32)
}

#[test]
fn entry_stage_marks_first_room_centre() {
    let mut ctx = context(20, 20);
    ctx.rooms = Some(vec![MapRect::new(2, 2, 4, 4), MapRect::new(10, 10, 3, 3)]);
    DungeonEntryRoomBased::new().build_map(&mut ctx);
    let e = ctx.entry.unwrap();
    assert_eq!((e.x, e.y, e.map), (5, 5, 0));
    assert_eq!(ctx.map.get_tile_type(5, 5), TileType::DungeonEntry);
    assert!(ctx.map.is_walkable(5, 5));
}

#[test]
fn reveal_all_reveals_every_tile() {
    let mut ctx = context(5, 3);
    assert!(!ctx.map.is_revealed(2, 1));
    RevealAll::new().build_map(&mut ctx);
    for y in 0..3usize {
        for x in 0..5usize {
            assert!(ctx.map.is_revealed(x, y));
        }
    }
}

fn run_rooms_level(seed: u64, sort: i32) -> BuilderChain {
    let mut rng = GameRng::seeded(seed);
    let mut chain = compose_builder(1, "D:1", 80, 50, 2, sort, false);
    chain.build_map(&mut rng);
    chain
}

#[test]
fn rooms_level_end_to_end() {
    let chain = run_rooms_level(123456789, 1);
    let rooms = chain.build_data.rooms.clone().unwrap();
    assert!(!rooms.is_empty());
    for i in 0..rooms.len() {
        for j in 0..rooms.len() {
            if i != j {
                assert!(!rooms[i].intersect(&rooms[j]));
            }
        }
    }
    for w in rooms.windows(2) {
        assert!(w[0].x1 <= w[1].x1);
    }
    let entry = chain.build_data.entry.unwrap();
    let first = rooms[0];
    assert!(first.x1 <= entry.x && entry.x <= first.x2);
    assert!(first.y1 <= entry.y && entry.y <= first.y2);
    assert_eq!(chain.build_data.map.get_tile_type(entry.x as usize, entry.y as usize), TileType::DungeonEntry);
    assert!(chain.build_data.map.is_walkable(entry.x, entry.y));
    assert_eq!(chain.get_dungeon_entry(), Some(entry));
    assert_eq!((chain.build_data.width, chain.build_data.height), (82, 52));
}

#[test]
fn same_seed_gives_same_level() {
    let a = run_rooms_level(42, 3);
    let b = run_rooms_level(42, 3);
    assert_eq!(terrain(&a.build_data.map), terrain(&b.build_data.map));
    assert_eq!(a.build_data.rooms, b.build_data.rooms);
    let c = run_rooms_level(43, 3);
    assert_ne!(terrain(&a.build_data.map), terrain(&c.build_data.map));
}

#[test]
fn empty_composition_on_first_level() {
    let mut rng = GameRng::seeded(5);
    let mut chain = compose_builder(1, "D:1", 20, 12, 1, 0, true);
    assert_eq!(chain.builders.len(), 4);
    chain.build_map(&mut rng);
    let entry = chain.build_data.entry.unwrap();
    assert_eq!((entry.x, entry.y), (11, 7));
    assert_eq!(chain.get_dungeon_entry(), Some(entry));
    assert!(chain.build_data.map.is_revealed(0, 0));
}

#[test]
fn later_levels_have_no_entry() {
    let mut rng = GameRng::seeded(6);
    let chain = generate_level(2, "D:2", 80, 50, &mut rng, false);
    assert_eq!(chain.build_data.entry, None);
    assert_eq!(chain.get_dungeon_entry(), None);
}

#[test]
fn chain_runs_stages_in_order() {
    let mut chain = BuilderChain::new(16, 12);
    chain.start_with(InitialStage::Empty(EmptyMapBuilder::new()));
    chain.add(MetaStage::Borders(Borders::new()));
    chain.add(MetaStage::Borders(Borders::new()));
    let mut rng = GameRng::seeded(1);
    chain.build_map(&mut rng);
    assert_eq!((chain.build_data.width, chain.build_data.height), (20, 16));
    let map = chain.get_map();
    assert_eq!((map.width, map.height), (20, 16));
    assert_eq!(map.name, "New Map");
}

#[test]
fn campaign_levels_and_entry() {
    let mut rng = GameRng::seeded(123456789);
    let (maps, entry) = generate_maps(1, 3, 80, 50, &mut rng, false);
    assert_eq!(maps.map.len(), 4);
    assert_eq!(maps.map[0].name, "Zero");
    assert_eq!((maps.map[0].width, maps.map[0].height), (1, 1));
    assert_eq!((maps.map[2].width, maps.map[2].height), (82, 52));
    assert_eq!(maps.map[1].name, "D:1");
    assert_eq!(maps.map[3].name, "D:3");
    assert_eq!(maps.map[2].id, 2);
    assert_eq!(entry.map, 1);
    assert_eq!(maps.map[1].get_tile_type(entry.x as usize, entry.y as usize), TileType::DungeonEntry);
    assert!(maps.map[1].is_walkable(entry.x, entry.y));
}
