use vstd::prelude::*;

use crate::timer::Timer;

verus! {

/// The pre-game countdown: a one-shot three-second timer and the digit
/// currently shown by the countdown display.
#[derive(Debug, Clone, Copy, PartialEq, Eq, Structural)]
pub struct CountdownState {
    pub timer: Timer,
    pub display: u32,
}

impl CountdownState {
    pub open spec fn wf(self) -> bool {
        &&& self.timer.wf()
        &&& !self.timer.repeating
        &&& self.timer.duration_ms == 3000
    }
}

/// The countdown as created on entering the countdown screen: the display
/// starts at "3".
pub open spec fn countdown_init_spec() -> CountdownState {
    CountdownState {
        timer: Timer {
            duration_ms: 3000,
            elapsed_ms: 0,
            repeating: false,
            finished: false,
            just_finished: false,
        },
        display: 3,
    }
}

/// The countdown after one frame of `dt` milliseconds: the timer advances;
/// on the completing frame the display is left as it was (the transition
/// happens instead), otherwise it shows the whole seconds left.
pub open spec fn countdown_next_spec(c: CountdownState, dt: u32) -> CountdownState {
    let t = c.timer.tick_spec(dt);
    CountdownState {
        timer: t,
        display: if t.just_finished {
            c.display
        } else {
            (3 - t.elapsed_ms / 1000) as u32
        },
    }
}

/// Create the countdown state for a fresh countdown screen.
pub fn setup_countdown() -> (c: CountdownState)
    ensures
        c == countdown_init_spec(),
        c.wf(),
{
    CountdownState { timer: Timer::new(3000, false), display: 3 }
}

/// One frame of the countdown screen; returns whether the countdown just
/// completed, which sends the game into play.
pub fn countdown(c: &mut CountdownState, dt: u32) -> (to_game: bool)
    requires
        old(c).wf(),
    ensures
        *final(c) == countdown_next_spec(*old(c), dt),
        final(c).wf(),
        to_game == old(c).timer.tick_spec(dt).just_finished,
{
    c.timer.tick(dt);
    let to_game = c.timer.just_finished;
    if !to_game {
        c.display = 3 - c.timer.elapsed_ms / 1000;
    }
    to_game
}

} // verus!
