//! The states of the application and what a game event does to them.
use crate::component::Intent;
use vstd::prelude::*;

verus! {

/// Where the application is.
#[derive(PartialEq, Eq, Structural, Clone, Copy, Debug, Hash)]
pub enum GameState {
    ApplicationStart,
    Menu,
    WorldGen,
    NewGame,
    InGame,
}

/// Which menu is open.
#[derive(PartialEq, Eq, Structural, Clone, Copy, Debug, Hash)]
pub enum MenuState {
    MainMenu,
    SomeOtherMenu,
}

/// An event of the game, from the keyboard or from a menu.
#[derive(PartialEq, Eq, Structural, Clone, Copy, Debug)]
pub enum GameEvent {
    Quit,
    ShowMainMenu,
    GenerateWorld,
    StartNewGame,
    NextMenuItem,
    PrevMenuItem,
    SelectMenuItem,
    PlayerMoveAbsolute { x: i32, y: i32 },
    PlayerMoveRelative { dx: i32, dy: i32 },
}

/// What the game does about an event.
#[derive(PartialEq, Eq, Structural, Clone, Copy, Debug)]
pub enum EventOutcome {
    /// Leave the application.
    Exit,
    /// Go to this state.
    Enter(GameState),
    /// Give the player this intent.
    PlayerIntent(Intent),
    /// Nothing for the game; menus may still act on it.
    Pass,
}

/// What the game does about `event`: quitting exits, the world, new game
/// and menu events change state, a relative move becomes the player's
/// intent.
pub fn game_event_outcome(event: &GameEvent) -> (r: EventOutcome)
    ensures
        r == (match *event {
            GameEvent::Quit => EventOutcome::Exit,
            GameEvent::GenerateWorld => EventOutcome::Enter(GameState::WorldGen),
            GameEvent::StartNewGame => EventOutcome::Enter(GameState::NewGame),
            GameEvent::ShowMainMenu => EventOutcome::Enter(GameState::Menu),
            GameEvent::PlayerMoveRelative { dx, dy } => EventOutcome::PlayerIntent(
                Intent::MoveRelative { dx, dy },
            ),
            _ => EventOutcome::Pass,
        }),
{
    match *event {
        GameEvent::Quit => EventOutcome::Exit,
        GameEvent::GenerateWorld => EventOutcome::Enter(GameState::WorldGen),
        GameEvent::StartNewGame => EventOutcome::Enter(GameState::NewGame),
        GameEvent::ShowMainMenu => EventOutcome::Enter(GameState::Menu),
        GameEvent::PlayerMoveRelative { dx, dy } => EventOutcome::PlayerIntent(
            Intent::MoveRelative { dx, dy },
        ),
        _ => EventOutcome::Pass,
    }
}

} // verus!
