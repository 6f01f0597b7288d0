use vstd::prelude::*;

use crate::timer::Timer;

verus! {

/// The game-over screen: a one-shot half-second input lockout. The
/// "Game Over" display entity lives and dies with this state.
#[derive(Debug, Clone, Copy, PartialEq, Eq, Structural)]
pub struct GameOverState {
    pub lockout: Timer,
}

impl GameOverState {
    pub open spec fn wf(self) -> bool {
        &&& self.lockout.wf()
        &&& !self.lockout.repeating
        &&& self.lockout.duration_ms == 500
    }
}

/// The game-over state as created on entering the game-over screen.
pub open spec fn game_over_init_spec() -> GameOverState {
    GameOverState {
        lockout: Timer {
            duration_ms: 500,
            elapsed_ms: 0,
            repeating: false,
            finished: false,
            just_finished: false,
        },
    }
}

/// The game-over state after one frame of `dt` milliseconds.
pub open spec fn game_over_next_spec(g: GameOverState, dt: u32) -> GameOverState {
    GameOverState { lockout: g.lockout.tick_spec(dt) }
}

/// Create the state for a fresh game-over screen.
pub fn setup_game_over() -> (g: GameOverState)
    ensures
        g == game_over_init_spec(),
        g.wf(),
{
    GameOverState { lockout: Timer::new(500, false) }
}

/// One frame of the game-over screen; returns whether to go back to the
/// main menu, which happens on a jump edge once the lockout has expired.
/// A jump delivered before the lockout expires does nothing.
pub fn game_over(g: &mut GameOverState, dt: u32, jump_edge: bool) -> (to_menu: bool)
    requires
        old(g).wf(),
    ensures
        *final(g) == game_over_next_spec(*old(g), dt),
        final(g).wf(),
        to_menu == (old(g).lockout.tick_spec(dt).finished && jump_edge),
{
    g.lockout.tick(dt);
    g.lockout.finished && jump_edge
}

} // verus!
