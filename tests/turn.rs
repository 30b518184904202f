use rusty_legions::camera::{render_map, RenderedTile};
use rusty_legions::component::{Color, Energy, Intent, PerformAction, Position, Render, SpendEnergy, Speed};
use rusty_legions::config::{ConfigMaster, GameConfig, PlayerConfig, WorldConfig};
use rusty_legions::map::{GameMap, Maps};
use rusty_legions::meta::draw_room;
use rusty_legions::player::PlayerBundle;
use rusty_legions::rect::MapRect;
use rusty_legions::rng::GameRng;
use rusty_legions::states::{game_event_outcome, EventOutcome, GameEvent, GameState};
use rusty_legions::tile::TileType;
use rusty_legions::turn::{
    cleanup_intents, movement_action_system, spend_energy_system, intent_for_step, player_move_system, player_spent_energy_system,
    process_intents_system, produce_intents_system, set_player_intent, tick, update_player_pos, Actor,
    CurrentGameData, PlayerMoveRelativeEvent, PlayerSpentEnergy, TurnState,
};
use rusty_legions::world::{generate_world, spawn};

fn open_level() -> GameMap {
    let mut map = GameMap::new(1, "D:1", 10, 10);
    draw_room(&mut map, &MapRect::new(1, 1, 7, 7), 2);
    map
}

fn game_data() -> CurrentGameData {
    let mut maps = Maps::new();
    maps.map.push(GameMap::new(0, "Zero", 1, 1));
    maps.map.push(open_level());
    CurrentGameData { current_map: 1, player: Some(0), player_pos: Position { x: 2, y: 2, map: 1 }, maps }
}

fn actor(x: i32, y: i32, energy: i32, speed: u32, player: bool) -> Actor {
    Actor {
        position: Position { x, y, map: 1 },
        energy: if player { None } else { Some(Energy { energy }) },
        speed: Some(Speed { percent: speed }),
        intent: None,
        action: None,
        spend: None,
        player,
    }
}

#[test]
fn step_into_wall_is_nothing() {
    let map = open_level();
    let pos = Position { x: 1, y: 1, map: 1 };
    assert_eq!(intent_for_step(&map, pos, 1, 0), Intent::MoveRelative { dx: 1, dy: 0 });
    assert_eq!(intent_for_step(&map, pos, -1, 0), Intent::Nothing);
    assert_eq!(intent_for_step(&map, Position { x: i32::MAX, y: 1, map: 1 }, 1, 0), Intent::Nothing);
}

#[test]
fn produced_intents_only_for_autonomous_actors_on_level() {
    let cgd = game_data();
    let mut actors = vec![actor(2, 2, 0, 100, true), actor(4, 4, 0, 100, false), actor(4, 4, 0, 100, false)];
    actors[2].position.map = 2;
    let mut rng = GameRng::seeded(3);
    produce_intents_system(&cgd, &mut actors, &mut rng);
    assert_eq!(actors[0].intent, None);
    assert_eq!(actors[2].intent, None);
    match actors[1].intent {
        Some(Intent::MoveRelative { dx, dy }) => assert!(dx.abs() <= 1 && dy.abs() <= 1),
        Some(Intent::Nothing) => {}
        other => panic!("unexpected intent {:?}", other),
    }
    cleanup_intents(&mut actors);
    assert!(actors.iter().all(|a| a.intent.is_none()));
}

#[test]
fn energy_gates_autonomous_moves() {
    let cgd = game_data();
    let mut actors = vec![actor(3, 3, 99, 100, false), actor(3, 3, 100, 100, false), actor(3, 3, 60, 50, false)];
    for a in actors.iter_mut() {
        a.intent = Some(Intent::MoveRelative { dx: 1, dy: 0 });
    }
    let (moves, spent) = process_intents_system(&cgd, &mut actors);
    assert!(moves.is_empty() && spent.is_empty());
    assert_eq!(actors[0].action, None);
    assert_eq!(actors[1].action, Some(PerformAction::MoveRelative { dx: 1, dy: 0 }));
    assert_eq!(actors[1].spend, Some(SpendEnergy(100)));
    assert_eq!(actors[2].spend, Some(SpendEnergy(50)));
    movement_action_system(&mut actors);
    spend_energy_system(&mut actors);
    assert_eq!(actors[0].position.x, 3);
    assert_eq!(actors[0].energy, Some(Energy { energy: 99 }));
    assert_eq!(actors[1].position.x, 4);
    assert_eq!(actors[1].energy, Some(Energy { energy: 0 }));
    assert_eq!(actors[2].energy, Some(Energy { energy: 10 }));
    assert!(actors.iter().all(|a| a.action.is_none() && a.spend.is_none()));
}

#[test]
fn absolute_moves_set_coordinates() {
    let cgd = game_data();
    let mut actors = vec![actor(3, 3, 500, 100, false)];
    actors[0].intent = Some(Intent::MoveAbsolute { x: 6, y: 5 });
    process_intents_system(&cgd, &mut actors);
    movement_action_system(&mut actors);
    spend_energy_system(&mut actors);
    assert_eq!((actors[0].position.x, actors[0].position.y), (6, 5));
    assert_eq!(actors[0].energy, Some(Energy { energy: 400 }));
}

#[test]
fn player_bypasses_energy_and_turn_passes() {
    let cgd = game_data();
    let mut actors = vec![actor(2, 2, 0, 100, true), actor(5, 5, 0, 200, false), actor(5, 5, 0, 100, false)];
    actors[2].position.map = 2;
    set_player_intent(&cgd, &mut actors, Intent::MoveRelative { dx: 1, dy: 1 });
    let (moves, spent) = process_intents_system(&cgd, &mut actors);
    assert_eq!(moves, vec![PlayerMoveRelativeEvent { dx: 1, dy: 1 }]);
    assert_eq!(spent, vec![PlayerSpentEnergy(100)]);
    let state = player_move_system(&cgd, &moves, &mut actors, TurnState::PlayersTurn);
    assert_eq!(state, TurnState::NotPlayersTurn);
    assert_eq!((actors[0].position.x, actors[0].position.y), (3, 3));
    player_spent_energy_system(&cgd, &spent, &mut actors);
    assert_eq!(actors[1].energy, Some(Energy { energy: 200 }));
    assert_eq!(actors[2].energy, Some(Energy { energy: 0 }));
    let mut cgd = cgd;
    update_player_pos(&mut cgd, &actors);
    assert_eq!((cgd.player_pos.x, cgd.player_pos.y), (3, 3));
}

#[test]
fn player_move_into_wall_gives_no_events() {
    let cgd = game_data();
    let mut actors = vec![actor(2, 2, 0, 100, true)];
    set_player_intent(&cgd, &mut actors, Intent::MoveRelative { dx: -2, dy: 0 });
    let (moves, spent) = process_intents_system(&cgd, &mut actors);
    assert!(moves.is_empty() && spent.is_empty());
    let state = player_move_system(&cgd, &moves, &mut actors, TurnState::PlayersTurn);
    assert_eq!(state, TurnState::PlayersTurn);
}

#[test]
fn energy_never_negative_over_ticks() {
    let mut cgd = game_data();
    let mut actors = vec![actor(2, 2, 0, 100, true), actor(5, 5, 0, 150, false), actor(6, 6, 30, 70, false)];
    let mut rng = GameRng::seeded(77);
    for tick in 0..40 {
        cleanup_intents(&mut actors);
        let step = if tick % 2 == 0 { 1 } else { -1 };
        set_player_intent(&cgd, &mut actors, Intent::MoveRelative { dx: step, dy: 0 });
        produce_intents_system(&cgd, &mut actors, &mut rng);
        let (moves, spent) = process_intents_system(&cgd, &mut actors);
        for a in actors.iter() {
            if let Some(e) = a.energy {
                assert!(e.energy >= 0);
            }
        }
        movement_action_system(&mut actors);
        spend_energy_system(&mut actors);
        player_move_system(&cgd, &moves, &mut actors, TurnState::PlayersTurn);
        player_spent_energy_system(&cgd, &spent, &mut actors);
        update_player_pos(&mut cgd, &actors);
        for a in actors.iter() {
            if let Some(e) = a.energy {
                assert!(e.energy >= 0);
            }
        }
    }
}

#[test]
fn spawned_player_gets_next_index() {
    let mut actors = vec![actor(1, 1, 0, 100, false)];
    let i = spawn(&mut actors, Position { x: 4, y: 2, map: 1 });
    assert_eq!(i, 1);
    assert!(actors[1].player);
    assert_eq!(actors[1].position, Position { x: 4, y: 2, map: 1 });
}

#[test]
fn game_events_map_to_outcomes() {
    assert_eq!(game_event_outcome(&GameEvent::Quit), EventOutcome::Exit);
    assert_eq!(game_event_outcome(&GameEvent::GenerateWorld), EventOutcome::Enter(GameState::WorldGen));
    assert_eq!(game_event_outcome(&GameEvent::StartNewGame), EventOutcome::Enter(GameState::NewGame));
    assert_eq!(game_event_outcome(&GameEvent::ShowMainMenu), EventOutcome::Enter(GameState::Menu));
    assert_eq!(
        game_event_outcome(&GameEvent::PlayerMoveRelative { dx: 0, dy: -1 }),
        EventOutcome::PlayerIntent(Intent::MoveRelative { dx: 0, dy: -1 })
    );
    assert_eq!(game_event_outcome(&GameEvent::NextMenuItem), EventOutcome::Pass);
    assert_eq!(game_event_outcome(&GameEvent::PlayerMoveAbsolute { x: 1, y: 1 }), EventOutcome::Pass);
}

#[test]
fn default_settings() {
    let cfg = ConfigMaster::new();
    assert_eq!(cfg.config.game.name, "Rusty Legions");
    assert_eq!(cfg.config.world.max_levels, 10);
    assert_eq!(GameConfig::new().name, "Rusty Legions");
    assert_eq!(WorldConfig::new().name, "The World");
    let p = PlayerConfig::new();
    assert_eq!(p.name, "unknown");
    assert_eq!(p.str, "1d1");
    assert!(p.equipment.carried.is_empty());
}

#[test]
fn player_bundle_rolls_from_settings() {
    let mut p = PlayerConfig::new();
    p.hp = 12;
    p.mp = 4;
    p.str = "3d1+2".to_string();
    p.dex = "2d6".to_string();
    let mut rng = GameRng::seeded(1);
    let b = PlayerBundle::new(Position { x: 1, y: 2, map: 1 }, &p, &mut rng);
    assert_eq!(b.attributes.str.base, 5);
    assert!((2..=12).contains(&b.attributes.dex.base));
    assert_eq!(b.attributes.con.base, 1);
    assert_eq!(b.stats.hp.current, 12);
    assert_eq!(b.stats.mp.max, 4);
    assert_eq!(b.stats.lv, 1);
    assert_eq!(b.detailed_name.base, "you");
    assert_eq!(b.detailed_name.full, "unknown");
    assert_eq!(b.render.glyph, '@');
}

#[test]
fn new_world_puts_player_on_entry() {
    let mut cfg = ConfigMaster::new();
    cfg.config.world.max_levels = 2;
    let mut rng = GameRng::seeded(123456789);
    let world = generate_world(&cfg.config, &mut rng, false);
    assert_eq!(world.data.player, Some(0));
    assert_eq!(world.data.maps.map.len(), 3);
    assert_eq!(world.actors.len(), 6);
    let p = world.data.player_pos;
    assert_eq!(p.map, 1);
    assert_eq!(world.data.maps.map[1].get_tile_type(p.x as usize, p.y as usize), TileType::DungeonEntry);
    assert!(world.actors[0].player);
    assert_eq!(world.actors[3].position, Position { x: 10, y: 3, map: 1 });
}

#[test]
fn rendering_shows_seen_tiles_and_entities() {
    let mut map = GameMap::new(1, "D:1", 3, 2);
    map.define_tile(1, 0, rusty_legions::tile::Tile::floor());
    map.set_revealed(1, 0, true);
    map.set_revealed(0, 0, true);
    map.set_visible(0, 0, true);
    let at = |x, y| Position { x, y, map: 1 };
    let npc = Render { glyph: 'g', fg: Color::Red, bg: Color::Black, order: 1, always: true };
    let hero = Render { glyph: '@', fg: Color::Yellow, bg: Color::Black, order: 1, always: true };
    let screen = render_map(&map, &vec![(at(2, 1), npc), (at(2, 1), hero), (at(9, 9), npc)]);
    assert_eq!(screen.len(), 2);
    assert_eq!(screen[0].len(), 3);
    assert_eq!(screen[0][0], RenderedTile { glyph: '#', fg: Color::White, bg: Color::Black });
    assert_eq!(screen[0][1], RenderedTile { glyph: '.', fg: Color::Gray, bg: Color::Black });
    assert_eq!(screen[1][0], RenderedTile::default());
    assert_eq!(screen[1][2].glyph, '@');
}

#[test]
fn no_player_means_no_energy_handed_out() {
    let mut cgd = game_data();
    cgd.player = None;
    let mut actors = vec![actor(2, 2, 0, 100, true), actor(5, 5, 7, 100, false)];
    player_spent_energy_system(&cgd, &vec![PlayerSpentEnergy(100)], &mut actors);
    assert_eq!(actors[1].energy, Some(Energy { energy: 7 }));
    let mut cgd = game_data();
    cgd.player = Some(1);
    player_spent_energy_system(&cgd, &vec![PlayerSpentEnergy(100)], &mut actors);
    assert_eq!(actors[1].energy, Some(Energy { energy: 7 }));
}

#[test]
fn energy_goes_to_the_players_level() {
    let cgd = game_data();
    let mut actors = vec![actor(2, 2, 0, 100, true), actor(5, 5, 0, 50, false), actor(5, 5, 0, 100, false)];
    actors[0].position.map = 2;
    actors[2].position.map = 2;
    player_spent_energy_system(&cgd, &vec![PlayerSpentEnergy(100), PlayerSpentEnergy(30)], &mut actors);
    assert_eq!(actors[1].energy, Some(Energy { energy: 0 }));
    assert_eq!(actors[2].energy, Some(Energy { energy: 130 }));
}

#[test]
fn actor_without_speed_is_not_processed() {
    let cgd = game_data();
    let mut actors = vec![actor(3, 3, 500, 100, false)];
    actors[0].speed = None;
    actors[0].intent = Some(Intent::MoveRelative { dx: 1, dy: 0 });
    process_intents_system(&cgd, &mut actors);
    assert_eq!(actors[0].action, None);
    assert_eq!(actors[0].spend, None);
}

#[test]
fn absolute_player_move_becomes_relative_event() {
    let cgd = game_data();
    let mut actors = vec![actor(2, 2, 0, 100, true)];
    set_player_intent(&cgd, &mut actors, Intent::MoveAbsolute { x: 4, y: 3 });
    let (moves, spent) = process_intents_system(&cgd, &mut actors);
    assert_eq!(moves, vec![PlayerMoveRelativeEvent { dx: 2, dy: 1 }]);
    assert_eq!(spent, vec![PlayerSpentEnergy(100)]);
}

#[test]
fn tick_runs_a_whole_turn() {
    let mut cgd = game_data();
    let mut actors = vec![actor(2, 2, 0, 100, true), actor(5, 5, 0, 100, false)];
    let mut rng = GameRng::seeded(12);
    let state = tick(&mut cgd, &mut actors, &mut rng, None, TurnState::PlayersTurn);
    assert_eq!(state, TurnState::PlayersTurn);
    assert_eq!(actors[1].energy, Some(Energy { energy: 0 }));
    let state = tick(&mut cgd, &mut actors, &mut rng, Some(Intent::MoveRelative { dx: 1, dy: 0 }), TurnState::PlayersTurn);
    assert_eq!(state, TurnState::NotPlayersTurn);
    assert_eq!((actors[0].position.x, cgd.player_pos.x), (3, 3));
    assert_eq!(actors[1].energy, Some(Energy { energy: 100 }));
    let before = actors[1].position;
    let state = tick(&mut cgd, &mut actors, &mut rng, Some(Intent::MoveRelative { dx: -5, dy: 0 }), state);
    assert_eq!(state, TurnState::NotPlayersTurn);
    assert_eq!(actors[0].position.x, 3);
    let moved = actors[1].position != before;
    assert!(!moved || actors[1].energy == Some(Energy { energy: 0 }));
    assert!(actors.iter().all(|a| a.intent.is_some() || a.player));
}
