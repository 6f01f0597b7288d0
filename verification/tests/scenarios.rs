use flappy_core::countdown::{countdown, setup_countdown};
use flappy_core::game_over::setup_game_over;
use flappy_core::player::Player;
use flappy_core::session::setup_game;
use flappy_core::wall::Wall;
use flappy_core::world::{FrameInput, World};
use flappy_core::AppState;

fn frame(dt_ms: u32, jump: bool, start: bool) -> FrameInput {
    FrameInput { dt_ms, jump, start }
}

fn world_in_game(walls: Vec<Wall>) -> World {
    let (session, player) = setup_game();
    let mut w = World::new(700_000_000, 500_000_000);
    w.state = AppState::Game;
    w.session = Some(session);
    w.player = Some(player);
    w.walls = walls;
    w
}

#[test]
fn start_action_opens_countdown_at_three() {
    let mut w = World::new(700_000_000, 500_000_000);
    assert_eq!(w.state, AppState::MainMenu);
    w.step(frame(16, false, false));
    assert_eq!(w.state, AppState::MainMenu);
    w.step(frame(16, false, true));
    assert_eq!(w.state, AppState::CountDown);
    assert_eq!(w.countdown.unwrap().display, 3);
}

#[test]
fn countdown_reaches_game_after_three_seconds_in_any_split() {
    // One split: three frames of a second each, then the completing sliver.
    let mut w = World::new(700_000_000, 500_000_000);
    w.step(frame(0, false, true));
    w.step(frame(1000, false, false));
    assert_eq!(w.countdown.unwrap().display, 2);
    w.step(frame(1000, false, false));
    assert_eq!(w.countdown.unwrap().display, 1);
    w.step(frame(999, false, false));
    assert_eq!(w.state, AppState::CountDown);
    assert_eq!(w.countdown.unwrap().display, 1);
    w.step(frame(1, false, false));
    assert_eq!(w.state, AppState::Game);
    assert_eq!(w.session.unwrap().score, 0);

    // Another split: everything in a single slow frame.
    let mut v = World::new(700_000_000, 500_000_000);
    v.step(frame(0, false, true));
    v.step(frame(3000, false, false));
    assert_eq!(v.state, AppState::Game);

    // And one overshooting frame still fires the edge exactly once.
    let mut u = World::new(700_000_000, 500_000_000);
    u.step(frame(0, false, true));
    u.step(frame(2999, false, false));
    assert_eq!(u.state, AppState::CountDown);
    u.step(frame(5000, false, false));
    assert_eq!(u.state, AppState::Game);
}

#[test]
fn countdown_display_counts_down() {
    let mut c = setup_countdown();
    assert_eq!(c.display, 3);
    assert!(!countdown(&mut c, 500));
    assert_eq!(c.display, 3);
    assert!(!countdown(&mut c, 700));
    assert_eq!(c.display, 2);
    assert!(!countdown(&mut c, 1000));
    assert_eq!(c.display, 1);
    assert!(!countdown(&mut c, 799));
    assert_eq!(c.display, 1);
    assert!(countdown(&mut c, 1));
}

#[test]
fn first_spawn_after_one_second_then_score_after_pass() {
    quad_rand::srand(7);
    let mut w = world_in_game(Vec::new());
    // Before the spawn timer's first second: no walls.
    w.step(frame(999, false, false));
    assert_eq!(w.walls.len(), 0);
    // The first second elapses: exactly one pair appears at the right edge.
    w.step(frame(1, false, false));
    assert_eq!(w.walls.len(), 2);
    assert_eq!(w.walls[0].x, 710_000_000);
    assert_eq!(w.walls[1].x, 710_000_000);
    assert_eq!(w.session.unwrap().score, 0);
    // The drawn gap stays within the score-zero bounds: reconstruct it from
    // the two wall centres (this fails if the draw ignored its interval).
    let top = 750_000_000 - w.walls[0].y;
    let bot = w.walls[1].y + 250_000_000;
    let gap = 500_000_000 - top - bot;
    assert!((200_000_000..=300_000_000).contains(&gap));
    assert!(top >= 100_000_000 && bot >= 100_000_000);
    // Scroll the pair past the left edge: score becomes 1 on the frame the
    // pair despawns, even though two walls left at once. The same frame
    // spawns the next pair.
    w.step(frame(1926, false, false));
    assert_eq!(w.session.unwrap().score, 1);
    assert_eq!(w.session.unwrap().displayed_score, 1);
    assert_eq!(w.walls.len(), 2);
    assert_eq!(w.state, AppState::Game);
}

#[test]
fn spawned_gaps_respect_bounds_across_scores() {
    quad_rand::srand(99);
    for score in [0u32, 40, 90, 140, 400] {
        let mut w = world_in_game(Vec::new());
        if let Some(session) = w.session.as_mut() {
            session.score = score;
        }
        w.step(frame(1000, false, false));
        assert_eq!(w.walls.len(), 2);
        let top = 750_000_000 - w.walls[0].y;
        let bot = w.walls[1].y + 250_000_000;
        let gap = 500_000_000 - top - bot;
        let lo = (200_000_000 - score as i64 * 1_000_000).max(80_000_000);
        let hi = (300_000_000 - score as i64 * 1_000_000).max(80_000_000);
        assert!(gap >= lo && gap <= hi);
        assert!(top >= 100_000_000);
        assert!(bot >= 100_000_000);
    }
}

#[test]
fn overlap_ends_run_within_the_same_frame() {
    let wall_on_player = Wall { w: 60_000_000, h: 500_000_000, x: 80_000_000, y: 250_000_000 };
    let mut w = world_in_game(vec![wall_on_player]);
    w.step(frame(0, false, false));
    assert_eq!(w.state, AppState::GameOver);
    assert!(w.over.is_some());
    // The session and its entities persist until game-over is left.
    assert!(w.session.is_some());
    assert!(w.player.is_some());
}

#[test]
fn lockout_blocks_early_jump_and_then_releases() {
    let mut w = world_in_game(vec![Wall {
        w: 60_000_000,
        h: 500_000_000,
        x: 80_000_000,
        y: 250_000_000,
    }]);
    w.step(frame(0, false, false));
    assert_eq!(w.state, AppState::GameOver);
    // A jump 300 ms in: the 0.5 s lockout still holds.
    w.step(frame(300, true, false));
    assert_eq!(w.state, AppState::GameOver);
    // A jump after the lockout expired: back to the menu, nothing survives.
    w.step(frame(300, true, false));
    assert_eq!(w.state, AppState::MainMenu);
    assert!(w.player.is_none());
    assert!(w.session.is_none());
    assert!(w.over.is_none());
    assert!(w.walls.is_empty());
}

#[test]
fn game_over_without_jump_stays_put() {
    let mut g = setup_game_over();
    let mut w = world_in_game(Vec::new());
    w.state = AppState::GameOver;
    w.over = Some(g);
    w.step(frame(5000, false, false));
    assert_eq!(w.state, AppState::GameOver);
    g = w.over.unwrap();
    assert!(g.lockout.finished);
}

#[test]
fn jump_during_game_lifts_player() {
    let mut w = world_in_game(Vec::new());
    w.step(frame(16, true, false));
    let p: Player = w.player.unwrap();
    // Gravity took 400 * 0.016 units per second, the flap added 400.
    assert_eq!(p.vy, 400_000 - 6_400);
    assert_eq!(w.state, AppState::Game);
}

#[test]
fn huge_window_runs_without_trouble() {
    quad_rand::srand(3);
    let mut w = World::new(1_000_000_000_000, 1_000_000_000_000);
    w.step(frame(0, false, true));
    w.step(frame(3000, false, false));
    assert_eq!(w.state, AppState::Game);
    w.step(frame(1000, false, false));
    assert_eq!(w.walls.len(), 2);
    w.step(frame(1000, true, false));
    assert!(w.walls.len() >= 2);
}

#[test]
fn cleanup_is_idempotent() {
    let mut w = world_in_game(vec![Wall {
        w: 60_000_000,
        h: 500_000_000,
        x: 200_000_000,
        y: 250_000_000,
    }]);
    w.game_cleanup();
    assert!(w.player.is_none() && w.session.is_none() && w.walls.is_empty() && w.over.is_none());
    // Cleaning an already-clean world changes nothing and fails nothing.
    w.game_cleanup();
    assert!(w.player.is_none() && w.session.is_none() && w.walls.is_empty() && w.over.is_none());
}
