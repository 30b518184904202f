//! Requests that flow between the interface and the game.
use vstd::prelude::*;

verus! {

/// A request to the application loop.
#[derive(PartialEq, Eq, Clone, Debug)]
pub enum Action {
    Tick,
    Quit,
    Suspend,
    Render,
    Resize(u16, u16),
    GenerateWorld,
    StartNewGame,
    NextMenuItem,
    PrevMenuItem,
    SelectMenuItem,
    PlayerMove { x: i32, y: i32 },
    Error(String),
}

} // verus!
