use rusty_legions::camera::Camera;
use rusty_legions::component::{Color, Position, Render};
use rusty_legions::map::GameMap;
use rusty_legions::menu::Menu;
use rusty_legions::states::GameEvent;

fn main_menu() -> Menu {
    let mut menu = Menu::new();
    menu.set_title("Main Menu");
    menu.add_item(("Generate World", Some(GameEvent::GenerateWorld)));
    menu.add_item(("New Game", Some(GameEvent::StartNewGame)));
    menu.add_item(("Load Game", None));
    menu.add_item(("Quit", Some(GameEvent::Quit)));
    menu
}

#[test]
fn menu_selection_wraps_both_ways() {
    let mut menu = main_menu();
    assert_eq!(menu.title, "Main Menu");
    assert_eq!(menu.index, 0);
    assert_eq!(menu.update(GameEvent::PrevMenuItem), None);
    assert_eq!(menu.index, 3);
    assert_eq!(menu.update(GameEvent::SelectMenuItem), Some(GameEvent::Quit));
    assert_eq!(menu.update(GameEvent::NextMenuItem), None);
    assert_eq!(menu.index, 0);
    menu.update(GameEvent::NextMenuItem);
    assert_eq!(menu.update(GameEvent::SelectMenuItem), Some(GameEvent::StartNewGame));
    menu.update(GameEvent::NextMenuItem);
    assert_eq!(menu.update(GameEvent::SelectMenuItem), None);
    assert_eq!(menu.update(GameEvent::Quit), None);
    assert_eq!(menu.index, 2);
}

#[test]
fn adding_an_item_selects_the_first() {
    let mut menu = main_menu();
    menu.update(GameEvent::NextMenuItem);
    menu.add_item(("Options", None));
    assert_eq!(menu.index, 0);
    assert_eq!(menu.items.len(), 5);
    assert_eq!(menu.items[4].0, "Options");
}

#[test]
fn camera_renders_its_level() {
    let here = Position { x: 1, y: 1, map: 1 };
    let hero = Render { glyph: '@', fg: Color::Yellow, bg: Color::Black, order: 1, always: true };
    let mut camera = Camera::new(here, GameMap::new(1, "D:1", 2, 2), vec![(here, hero)]);
    let screen = camera.render();
    assert_eq!(screen[1][1].glyph, '@');
    assert_eq!(screen[0][0].glyph, ' ');
    camera.update(Position { x: 0, y: 0, map: 2 }, GameMap::new(2, "D:2", 3, 1));
    let screen = camera.render();
    assert_eq!(screen.len(), 1);
    assert_eq!(screen[0].len(), 3);
    camera.set_map(GameMap::new(3, "D:3", 1, 4));
    assert_eq!(camera.render().len(), 4);
}
