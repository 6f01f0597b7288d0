use vstd::prelude::*;

pub mod sat;
pub mod timer;
pub mod player;
pub mod wall;
pub mod collision;
pub mod rng;
pub mod session;
pub mod countdown;
pub mod game_over;
pub mod world;

verus! {

/// Which screen of the game is active. Exactly one value is current at a
/// time; transitions are driven by the per-frame step functions.
#[derive(Debug, Clone, Copy, PartialEq, Eq, Structural, Hash)]
pub enum AppState {
    MainMenu,
    CountDown,
    Game,
    GameOver,
}

} // verus!
