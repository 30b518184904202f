use rusty_legions::map::{GameMap, Maps};
use rusty_legions::tile::{Tile, TileType};

#[test]
fn new_map_is_walls() {
    let map = GameMap::new(3, "D:3", 7, 5);
    assert_eq!((map.id, map.width, map.height), (3, 7, 5));
    assert_eq!(map.name, "D:3");
    for y in 0..5usize {
        for x in 0..7usize {
            assert_eq!(map.get_tile_type(x, y), TileType::Wall);
            assert!(map.blocks_view(x, y));
            assert!(!map.is_revealed(x, y));
            assert_eq!(map.glyph(x, y), '#');
        }
    }
    assert_eq!(Tile::default(), Tile::wall());
    assert_eq!(TileType::default(), TileType::Wall);
}

#[test]
fn tile_setters_change_one_tile() {
    let mut map = GameMap::new(0, "m", 4, 4);
    map.set_tile_type(1, 2, TileType::Floor);
    map.set_walkable(1, 2, true);
    map.set_blocks_view(1, 2, false);
    map.set_visible(1, 2, true);
    map.set_revealed(1, 2, true);
    map.set_blocked(1, 2, true);
    map.set_destructable(1, 2, true, 7);
    assert_eq!(map.glyph(1, 2), '.');
    assert!(map.is_walkable(1, 2));
    assert!(!map.blocks_view(1, 2));
    assert!(map.is_visible(1, 2));
    assert!(map.is_revealed(1, 2));
    assert!(map.is_blocked(1, 2));
    assert!(map.is_destructable(1, 2));
    assert_eq!(map.get_hitpoints(1, 2), 7);
    assert_eq!(map.get_tile_type(2, 1), TileType::Wall);
    assert!(!map.is_walkable(2, 1));
    map.define_tile(3, 3, Tile::dungeon_entry());
    assert_eq!(map.glyph(3, 3), '<');
    map.set_name("renamed");
    assert_eq!(map.name, "renamed");
}

#[test]
fn off_map_is_not_walkable() {
    let mut map = GameMap::new(0, "m", 3, 3);
    map.define_tile(0, 0, Tile::floor());
    assert!(map.is_walkable(0, 0));
    assert!(!map.is_walkable(-1, 0));
    assert!(!map.is_walkable(0, -1));
    assert!(!map.is_walkable(3, 0));
    assert!(!map.is_walkable(0, 3));
}

#[test]
fn copies_are_equal_and_independent() {
    let mut map = GameMap::new(1, "m", 3, 2);
    map.define_tile(2, 1, Tile::floor());
    let mut copy = map.clone_map();
    assert_eq!(copy.get_tile_type(2, 1), TileType::Floor);
    copy.define_tile(0, 0, Tile::floor());
    assert_eq!(map.get_tile_type(0, 0), TileType::Wall);
}

#[test]
fn maps_start_empty() {
    assert!(Maps::new().map.is_empty());
}
