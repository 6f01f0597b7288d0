use flappy_core::collision::{collide, collision};
use flappy_core::player::{flap, gravity, movement, Player};
use flappy_core::session::{gap_bounds, make_wall, score_keeper, setup_game, spawn_pair};
use flappy_core::timer::Timer;
use flappy_core::wall::{scroll_and_cull, Wall};

fn mid_air_player(y: i64, vy: i64) -> Player {
    Player { w: 45_000_000, h: 35_000_000, x: 80_000_000, y, vx: 0, vy, tilt: 0 }
}

#[test]
fn movement_clamps_to_floor_and_zeroes_velocity() {
    let mut p = mid_air_player(1_000_000, -500_000);
    movement(&mut p, 100);
    assert_eq!(p.y, 0);
    assert_eq!(p.vy, 0);
    assert_eq!(p.tilt, 0);
}

#[test]
fn movement_clamps_to_ceiling_and_zeroes_velocity() {
    let mut p = mid_air_player(499_000_000, 500_000);
    movement(&mut p, 100);
    assert_eq!(p.y, 500_000_000);
    assert_eq!(p.vy, 0);
}

#[test]
fn movement_keeps_player_inside_band() {
    // Whatever the starting point, after movement the position is in [0, 500].
    for &(y, vy) in &[(0i64, -1_000_000i64), (500_000_000, 900_000), (250_000_000, 0)] {
        let mut p = mid_air_player(y, vy);
        movement(&mut p, 16);
        assert!(p.y >= 0 && p.y <= 500_000_000);
    }
}

#[test]
fn gravity_accumulates_over_frames() {
    // 10 frames at 16 ms with no jump: the velocity drops by 400 * 0.016 * 10
    // units per second, exactly 64_000 milli-units per second.
    let mut p = mid_air_player(400_000_000, 0);
    for _ in 0..10 {
        gravity(&mut p, 16);
        movement(&mut p, 16);
    }
    assert_eq!(p.vy, -64_000);
}

#[test]
fn flap_adds_exact_impulse_independent_of_velocity() {
    let mut p = mid_air_player(250_000_000, 123);
    flap(&mut p, true);
    assert_eq!(p.vy, 400_123);
    let mut q = mid_air_player(250_000_000, -999_999);
    flap(&mut q, true);
    assert_eq!(q.vy, -599_999);
    let mut r = mid_air_player(250_000_000, 77);
    flap(&mut r, false);
    assert_eq!(r.vy, 77);
}

#[test]
fn tilt_follows_vertical_velocity() {
    let mut p = mid_air_player(250_000_000, 50_000);
    movement(&mut p, 0);
    // 50 units per second of climb tilts by 0.05 radians, in nano-radians.
    assert_eq!(p.tilt, 50_000_000);
}

#[test]
fn walls_scroll_left_at_fixed_speed() {
    let mut v = vec![Wall { w: 60_000_000, h: 500_000_000, x: 100_000_000, y: 0 }];
    let removed = scroll_and_cull(&mut v, 250);
    assert!(!removed);
    assert_eq!(v.len(), 1);
    // 400 units per second for 0.25 s is exactly 100 units.
    assert_eq!(v[0].x, 0);
}

#[test]
fn wall_survives_exactly_until_past_despawn_line() {
    // Landing exactly on the line keeps the wall.
    let mut v = vec![Wall { w: 60_000_000, h: 500_000_000, x: -59_600_000, y: 0 }];
    let removed = scroll_and_cull(&mut v, 1);
    assert!(!removed);
    assert_eq!(v[0].x, -60_000_000);
    // One more millisecond drops it below the line and despawns it.
    let removed = scroll_and_cull(&mut v, 1);
    assert!(removed);
    assert!(v.is_empty());
}

#[test]
fn cull_on_empty_list_removes_nothing() {
    let mut v: Vec<Wall> = Vec::new();
    let removed = scroll_and_cull(&mut v, 1000);
    assert!(!removed);
    assert!(v.is_empty());
}

#[test]
fn gap_bounds_match_formula() {
    // Fresh game in a 500-unit window: gap between 200 and 300 units.
    assert_eq!(gap_bounds(0, 500_000_000), (200_000_000, 300_000_000));
    // At 150 points both bounds have narrowed; the lower is floored at 80.
    assert_eq!(gap_bounds(150, 500_000_000), (80_000_000, 150_000_000));
    // At 300 points both are floored at 80.
    assert_eq!(gap_bounds(300, 500_000_000), (80_000_000, 80_000_000));
    // The floor holds for any score.
    for score in [0u32, 1, 119, 120, 121, 1000, u32::MAX] {
        let (lo, hi) = gap_bounds(score, 500_000_000);
        assert!(lo >= 80_000_000 && hi >= 80_000_000);
        assert!(lo <= hi);
    }
}

#[test]
fn make_wall_centres_the_box() {
    let w = make_wall(680_000_000, 100_000_000, 60_000_000, 500_000_000);
    assert_eq!(w.x, 710_000_000);
    assert_eq!(w.y, 350_000_000);
    assert_eq!(w.w, 60_000_000);
    assert_eq!(w.h, 500_000_000);
}

#[test]
fn spawn_pair_spans_window_minus_gap() {
    // A 200-unit gap placed 120 units from the top of a 700 x 500 window.
    let (top_wall, bottom_wall) = spawn_pair(700_000_000, 500_000_000, 200_000_000, 120_000_000);
    // Both walls sit at the right edge, 60 wide, full window height.
    assert_eq!(top_wall.x, 710_000_000);
    assert_eq!(bottom_wall.x, 710_000_000);
    assert_eq!(top_wall.w, 60_000_000);
    assert_eq!(bottom_wall.h, 500_000_000);
    // The top wall reaches 120 units into the window from above, the bottom
    // wall 180 units from below: 500 - 200 - 120.
    assert_eq!(top_wall.y, 500_000_000 - 120_000_000 + 250_000_000);
    assert_eq!(bottom_wall.y, 180_000_000 - 500_000_000 + 250_000_000);
}

#[test]
fn collision_is_symmetric_in_the_two_boxes() {
    let cases = [
        (0i64, 0i64, 100_000_000i64, 100_000_000i64, 40_000_000i64, 0i64, 60_000_000i64, 500_000_000i64),
        (0, 0, 100_000_000, 100_000_000, 400_000_000, 0, 60_000_000, 500_000_000),
        (10_000_000, 20_000_000, 30_000_000, 40_000_000, 25_000_000, 35_000_000, 10_000_000, 10_000_000),
    ];
    for &(ax, ay, aw, ah, bx, by, bw, bh) in &cases {
        let p_first = Player { w: aw, h: ah, x: ax, y: ay, vx: 0, vy: 0, tilt: 0 };
        let w_first = Wall { w: bw, h: bh, x: bx, y: by };
        let p_swapped = Player { w: bw, h: bh, x: bx, y: by, vx: 0, vy: 0, tilt: 0 };
        let w_swapped = Wall { w: aw, h: ah, x: ax, y: ay };
        assert_eq!(collide(&p_first, &w_first), collide(&p_swapped, &w_swapped));
    }
}

#[test]
fn collision_checks_every_wall() {
    let p = mid_air_player(250_000_000, 0);
    let far = Wall { w: 60_000_000, h: 500_000_000, x: 710_000_000, y: 250_000_000 };
    let near = Wall { w: 60_000_000, h: 500_000_000, x: 80_000_000, y: 250_000_000 };
    assert!(!collision(&p, &vec![far]));
    assert!(collision(&p, &vec![far, near]));
    assert!(!collision(&p, &Vec::new()));
}

#[test]
fn touching_edges_do_not_collide() {
    // Player right edge at 102.5 units, wall left edge exactly there.
    let p = mid_air_player(250_000_000, 0);
    let touching = Wall { w: 60_000_000, h: 500_000_000, x: 132_500_000, y: 250_000_000 };
    assert!(!collide(&p, &touching));
    let overlapping = Wall { w: 60_000_000, h: 500_000_000, x: 132_499_999, y: 250_000_000 };
    assert!(collide(&p, &overlapping));
}

#[test]
fn one_shot_timer_finishes_once() {
    let mut t = Timer::new(500, false);
    t.tick(499);
    assert!(!t.finished && !t.just_finished);
    t.tick(1);
    assert!(t.finished && t.just_finished);
    t.tick(100);
    assert!(t.finished && !t.just_finished);
}

#[test]
fn repeating_timer_wraps_and_fires_once_per_tick() {
    let mut t = Timer::new(1000, true);
    t.tick(2500);
    assert!(t.just_finished);
    assert_eq!(t.elapsed_ms, 500);
    t.tick(400);
    assert!(!t.just_finished);
    assert_eq!(t.elapsed_ms, 900);
    t.tick(100);
    assert!(t.just_finished);
    assert_eq!(t.elapsed_ms, 0);
}

#[test]
fn score_keeper_mirrors_score() {
    let (mut session, _player) = setup_game();
    session.score = 42;
    score_keeper(&mut session);
    assert_eq!(session.displayed_score, 42);
}

#[test]
fn fresh_session_and_player() {
    let (session, player) = setup_game();
    assert_eq!(session.score, 0);
    assert_eq!(session.spawn_timer.duration_ms, 1000);
    assert!(session.spawn_timer.repeating);
    assert_eq!((player.x, player.y), (80_000_000, 250_000_000));
    assert_eq!((player.vx, player.vy), (0, 0));
    assert_eq!((player.w, player.h), (45_000_000, 35_000_000));
}
