use vstd::prelude::*;

use crate::collision::{box_bounded, collision, player_hits_wall};
use crate::countdown::{
    countdown, countdown_init_spec, countdown_next_spec, setup_countdown, CountdownState,
};
use crate::game_over::{
    game_over, game_over_init_spec, game_over_next_spec, setup_game_over, GameOverState,
};
use crate::player::{flap, gravity, movement, Player, Y_MAX, Y_MIN};
use crate::session::{
    gap_max_spec, gap_min_spec, player_init_spec, score_after_removal, score_keeper,
    session_init_spec, setup_game, spawn_shape, wall_in_field, walls, GameSession, WINDOW_LIMIT,
};
use crate::wall::{scroll_cull_spec, Wall};
use crate::AppState;

verus! {

/// The host's frame tick: elapsed time since the previous frame in whole
/// milliseconds, the jump input's rising edge, and the menu's start action.
#[derive(Debug, Clone, Copy, PartialEq, Eq, Structural)]
pub struct FrameInput {
    pub dt_ms: u32,
    pub jump: bool,
    pub start: bool,
}

/// The whole game core: the active screen and the data owned by it. Each
/// of the per-screen records exists exactly while its screen is active
/// (the session and the player persist through the game-over screen and
/// are destroyed on leaving it), so the display entities they stand for
/// never outlive their screen.
pub struct World {
    pub state: AppState,
    pub window_w: i64,
    pub window_h: i64,
    pub countdown: Option<CountdownState>,
    pub session: Option<GameSession>,
    pub player: Option<Player>,
    pub walls: Vec<Wall>,
    pub over: Option<GameOverState>,
}

/// The player the game state machine maintains: fixed extents, pinned to
/// its spawn column (it never moves horizontally), vertically inside the
/// clamp band.
pub open spec fn player_wf(p: Player) -> bool {
    &&& p.w == 45_000_000
    &&& p.h == 35_000_000
    &&& p.x == 80_000_000
    &&& p.vx == 0
    &&& Y_MIN <= p.y <= Y_MAX
}

impl World {
    /// Exactly the records of the active screen exist, every record is
    /// well formed, and all geometry is inside the play-field bounds.
    pub open spec fn wf(self) -> bool {
        &&& 0 < self.window_w <= WINDOW_LIMIT
        &&& 0 < self.window_h <= WINDOW_LIMIT
        &&& (self.countdown is Some <==> self.state == AppState::CountDown)
        &&& (self.session is Some <==> (self.state == AppState::Game || self.state
            == AppState::GameOver))
        &&& (self.player is Some <==> (self.state == AppState::Game || self.state
            == AppState::GameOver))
        &&& (self.over is Some <==> self.state == AppState::GameOver)
        &&& ((self.state == AppState::MainMenu || self.state == AppState::CountDown)
            ==> self.walls@.len() == 0)
        &&& (self.countdown matches Some(c) ==> c.wf())
        &&& (self.session matches Some(s) ==> s.wf())
        &&& (self.over matches Some(g) ==> g.wf())
        &&& (self.player matches Some(p) ==> player_wf(p))
        &&& forall|i: int|
            0 <= i < self.walls@.len() ==> wall_in_field(
                #[trigger] self.walls@[i],
                self.window_w as int,
            )
    }
}

/// Both worlds hold the same data.
pub open spec fn same_world(w1: World, w2: World) -> bool {
    &&& w2.state == w1.state
    &&& w2.window_w == w1.window_w
    &&& w2.window_h == w1.window_h
    &&& w2.countdown == w1.countdown
    &&& w2.session == w1.session
    &&& w2.player == w1.player
    &&& w2.walls@ == w1.walls@
    &&& w2.over == w1.over
}

/// A frame on the main menu: the start action opens the countdown screen
/// with its display at "3"; otherwise nothing changes.
pub open spec fn menu_rel(w1: World, w2: World, inp: FrameInput) -> bool {
    if inp.start {
        &&& w2.state == AppState::CountDown
        &&& w2.countdown == Some(countdown_init_spec())
        &&& w2.window_w == w1.window_w
        &&& w2.window_h == w1.window_h
        &&& w2.session == w1.session
        &&& w2.player == w1.player
        &&& w2.walls@ == w1.walls@
        &&& w2.over == w1.over
    } else {
        same_world(w1, w2)
    }
}

/// A frame on the countdown screen: the timer advances and the display
/// shows the whole seconds left; on the frame the timer completes, the
/// countdown display is destroyed and a fresh session and player enter
/// the game.
pub open spec fn countdown_rel(w1: World, w2: World, inp: FrameInput) -> bool {
    let c0 = w1.countdown->Some_0;
    let c1 = countdown_next_spec(c0, inp.dt_ms);
    &&& w2.window_w == w1.window_w
    &&& w2.window_h == w1.window_h
    &&& w2.walls@ == w1.walls@
    &&& w2.over == w1.over
    &&& if c0.timer.tick_spec(inp.dt_ms).just_finished {
        &&& w2.state == AppState::Game
        &&& w2.countdown is None
        &&& w2.session == Some(session_init_spec())
        &&& w2.player == Some(player_init_spec())
    } else {
        &&& w2.state == AppState::CountDown
        &&& w2.countdown == Some(c1)
        &&& w2.session == w1.session
        &&& w2.player == w1.player
    }
}

/// A frame of play, in the fixed system order: gravity, movement, jump
/// response, the obstacle spawner, the collision test, the score display.
/// The walls after the frame are the culled scroll of the old ones plus
/// whatever one spawn opportunity added; any overlap between the player
/// and a wall ends the run on this very frame.
pub open spec fn game_rel(w1: World, w2: World, inp: FrameInput) -> bool {
    let p0 = w1.player->Some_0;
    let p1 = p0.gravity_spec(inp.dt_ms).movement_spec(inp.dt_ms).flap_spec(inp.jump);
    let s0 = w1.session->Some_0;
    let t1 = s0.spawn_timer.tick_spec(inp.dt_ms);
    let culled = scroll_cull_spec(w1.walls@, inp.dt_ms);
    let removed = culled.len() < w1.walls@.len();
    let score1 = if removed {
        score_after_removal(s0.score)
    } else {
        s0.score
    };
    let hit = exists|i: int|
        0 <= i < w2.walls@.len() && player_hits_wall(p1, #[trigger] w2.walls@[i]);
    &&& w2.window_w == w1.window_w
    &&& w2.window_h == w1.window_h
    &&& w2.countdown is None
    &&& w2.player == Some(p1)
    &&& w2.session == Some(
        GameSession { score: score1, displayed_score: score1, spawn_timer: t1 },
    )
    &&& exists|spawned: Seq<Wall>|
        w2.walls@ == culled + spawned && #[trigger] spawn_shape(
            spawned,
            t1.just_finished,
            gap_min_spec(s0.score),
            gap_max_spec(s0.score, w1.window_h as int),
            w1.window_w as int,
            w1.window_h as int,
        )
    &&& w2.state == if hit {
        AppState::GameOver
    } else {
        AppState::Game
    }
    &&& w2.over == if hit {
        Some(game_over_init_spec())
    } else {
        None::<GameOverState>
    }
}

/// A frame on the game-over screen: the lockout timer advances; a jump
/// edge delivered once the lockout has expired returns to the main menu
/// and destroys every entity of the finished run — the player, all walls,
/// the session with its displays, and the game-over display.
pub open spec fn over_rel(w1: World, w2: World, inp: FrameInput) -> bool {
    let g0 = w1.over->Some_0;
    let g1 = game_over_next_spec(g0, inp.dt_ms);
    &&& w2.window_w == w1.window_w
    &&& w2.window_h == w1.window_h
    &&& if g1.lockout.finished && inp.jump {
        &&& w2.state == AppState::MainMenu
        &&& w2.countdown is None
        &&& w2.session is None
        &&& w2.player is None
        &&& w2.over is None
        &&& w2.walls@.len() == 0
    } else {
        &&& w2.state == AppState::GameOver
        &&& w2.countdown == w1.countdown
        &&& w2.session == w1.session
        &&& w2.player == w1.player
        &&& w2.walls@ == w1.walls@
        &&& w2.over == Some(g1)
    }
}

/// One frame of the whole state machine, by the screen that was active.
pub open spec fn step_rel(w1: World, w2: World, inp: FrameInput) -> bool {
    match w1.state {
        AppState::MainMenu => menu_rel(w1, w2, inp),
        AppState::CountDown => countdown_rel(w1, w2, inp),
        AppState::Game => game_rel(w1, w2, inp),
        AppState::GameOver => over_rel(w1, w2, inp),
    }
}

impl World {
    /// A fresh core on the main menu, for a play field of the given size.
    pub fn new(window_w: i64, window_h: i64) -> (w: World)
        requires
            0 < window_w <= WINDOW_LIMIT,
            0 < window_h <= WINDOW_LIMIT,
        ensures
            w.wf(),
            w.state == AppState::MainMenu,
            w.window_w == window_w,
            w.window_h == window_h,
            w.countdown is None,
            w.session is None,
            w.player is None,
            w.over is None,
            w.walls@.len() == 0,
    {
        World {
            state: AppState::MainMenu,
            window_w,
            window_h,
            countdown: None,
            session: None,
            player: None,
            walls: Vec::new(),
            over: None,
        }
    }

    /// Destroy every entity of the finished run: the player, all walls
    /// still alive, the session with its score and background displays,
    /// and the game-over display. Destruction is per-record and
    /// best-effort: a record that is already gone is simply left absent.
    pub fn game_cleanup(&mut self)
        ensures
            final(self).player is None,
            final(self).walls@.len() == 0,
            final(self).session is None,
            final(self).over is None,
            final(self).countdown == old(self).countdown,
            final(self).state == old(self).state,
            final(self).window_w == old(self).window_w,
            final(self).window_h == old(self).window_h,
    {
        self.player = None;
        self.walls = Vec::new();
        self.session = None;
        self.over = None;
    }

    /// Run one frame: the active screen's update systems in their fixed
    /// order, then any state transition they requested, with the old
    /// screen's records destroyed and the new screen's created atomically.
    pub fn step(&mut self, input: FrameInput)
        requires
            old(self).wf(),
        ensures
            final(self).wf(),
            step_rel(*old(self), *final(self), input),
    {
        match self.state {
            AppState::MainMenu => {
                if input.start {
                    self.countdown = Some(setup_countdown());
                    self.state = AppState::CountDown;
                }
            },
            AppState::CountDown => {
                let mut c = self.countdown.unwrap();
                let to_game = countdown(&mut c, input.dt_ms);
                if to_game {
                    self.countdown = None;
                    let fresh = setup_game();
                    self.session = Some(fresh.0);
                    self.player = Some(fresh.1);
                    self.state = AppState::Game;
                } else {
                    self.countdown = Some(c);
                }
            },
            AppState::Game => {
                let mut p = self.player.unwrap();
                gravity(&mut p, input.dt_ms);
                movement(&mut p, input.dt_ms);
                flap(&mut p, input.jump);
                let mut s = self.session.unwrap();
                walls(&mut s, &mut self.walls, input.dt_ms, self.window_w, self.window_h);
                proof {
                    assert(player_wf(p));
                    assert(box_bounded(p.x as int, p.y as int, p.w as int, p.h as int));
                    assert forall|i: int| 0 <= i < self.walls@.len() implies box_bounded(
                        #[trigger] self.walls@[i].x as int,
                        self.walls@[i].y as int,
                        self.walls@[i].w as int,
                        self.walls@[i].h as int,
                    ) by {
                        assert(wall_in_field(self.walls@[i], self.window_w as int));
                    }
                }
                let hit = collision(&p, &self.walls);
                score_keeper(&mut s);
                self.player = Some(p);
                self.session = Some(s);
                if hit {
                    self.over = Some(setup_game_over());
                    self.state = AppState::GameOver;
                }
            },
            AppState::GameOver => {
                let mut g = self.over.unwrap();
                let to_menu = game_over(&mut g, input.dt_ms, input.jump);
                if to_menu {
                    self.game_cleanup();
                    self.state = AppState::MainMenu;
                } else {
                    self.over = Some(g);
                }
            },
        }
    }
}

/// During play the score never decreases, and a frame that despawns any
/// number of walls (at least one) raises it by exactly one point.
pub proof fn lemma_score_monotone(w1: World, w2: World, inp: FrameInput)
    requires
        w1.wf(),
        w1.state == AppState::Game,
        step_rel(w1, w2, inp),
    ensures
        w2.session->Some_0.score >= w1.session->Some_0.score,
        (scroll_cull_spec(w1.walls@, inp.dt_ms).len() < w1.walls@.len() && w1.session->Some_0.score
            < u32::MAX) ==> w2.session->Some_0.score == w1.session->Some_0.score + 1,
        scroll_cull_spec(w1.walls@, inp.dt_ms).len() == w1.walls@.len()
            ==> w2.session->Some_0.score == w1.session->Some_0.score,
{
}

/// Entering the main menu from the game-over screen leaves no surviving
/// entity of the finished run: no player, no walls, no session displays,
/// no game-over display.
pub proof fn lemma_cleanup_complete(w1: World, w2: World, inp: FrameInput)
    requires
        w1.wf(),
        w1.state == AppState::GameOver,
        step_rel(w1, w2, inp),
        w1.over->Some_0.lockout.tick_spec(inp.dt_ms).finished,
        inp.jump,
    ensures
        w2.state == AppState::MainMenu,
        w2.player is None,
        w2.session is None,
        w2.over is None,
        w2.countdown is None,
        w2.walls@.len() == 0,
{
}

} // verus!
