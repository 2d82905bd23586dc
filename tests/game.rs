use flappy::obstacle::{gap_size, Obstacle};
use flappy::player::Player;
use flappy::session::{GameMode, Key, Signal, State};

fn playing(player: Player, obstacle: Obstacle, score: u64) -> State {
    State { player, frame_time: 0, obstacle, mode: GameMode::Playing, score }
}

#[test]
fn gravity_adds_two_tenths_below_cap() {
    let mut p = Player::new(5, 250);
    p.gravity_and_move();
    assert_eq!(p, Player { x: 6, y: 252, velocity: 2 });
    p.velocity = 18;
    p.gravity_and_move();
    assert_eq!(p.velocity, 20);
    assert_eq!(p.y, 272);
}

#[test]
fn gravity_leaves_terminal_speed_alone() {
    let mut p = Player { x: 0, y: 0, velocity: 20 };
    p.gravity_and_move();
    assert_eq!(p, Player { x: 1, y: 20, velocity: 20 });
    p.gravity_and_move();
    assert_eq!(p.velocity, 20);
}

#[test]
fn flap_sets_upward_speed_twice_in_a_row() {
    let mut p = Player { x: 3, y: 100, velocity: 14 };
    p.flap();
    assert_eq!(p, Player { x: 3, y: 100, velocity: -20 });
    p.flap();
    assert_eq!(p, Player { x: 3, y: 100, velocity: -20 });
}

#[test]
fn height_is_clamped_at_zero() {
    let mut p = Player::new(0, 5);
    for _ in 0..30 {
        p.flap();
        p.gravity_and_move();
        assert!(p.y >= 0);
    }
    assert_eq!(p.y, 0);
}

#[test]
fn gap_size_narrows_to_floor() {
    assert_eq!(gap_size(0), 20);
    assert_eq!(gap_size(1), 19);
    assert_eq!(gap_size(17), 3);
    assert_eq!(gap_size(18), 2);
    assert_eq!(gap_size(100), 2);
    assert_eq!(gap_size(u64::MAX), 2);
}

#[test]
fn obstacle_draws_gap_in_range() {
    let mut seen = Vec::new();
    for _ in 0..200 {
        let o = Obstacle::new(80, 3);
        assert_eq!(o.x, 80);
        assert_eq!(o.size, 17);
        assert!(o.gap_y >= 10 && o.gap_y < 40);
        seen.push(o.gap_y);
    }
    assert!(seen.iter().any(|g| *g != seen[0]));
}

#[test]
fn collision_only_outside_gap_on_the_column() {
    let o = Obstacle::with_gap(10, 0, 25);
    assert_eq!(o.size, 20);
    let at = |y: i64| Player { x: 10, y, velocity: 0 };
    assert!(o.hit_obstacle(&at(149)));
    assert!(!o.hit_obstacle(&at(150)));
    assert!(!o.hit_obstacle(&at(250)));
    assert!(!o.hit_obstacle(&at(350)));
    assert!(o.hit_obstacle(&at(351)));
    assert!(!o.hit_obstacle(&Player { x: 11, y: 0, velocity: 0 }));
    assert!(!o.hit_obstacle(&Player { x: 9, y: 500, velocity: 0 }));
}

#[test]
fn centered_player_never_collides() {
    for size in 0..25 {
        let o = Obstacle { x: 7, gap_y: 20, size };
        assert!(!o.hit_obstacle(&Player { x: 7, y: 200, velocity: 5 }));
    }
}

#[test]
fn narrow_gap_uses_half_rounded_down() {
    let o = Obstacle { x: 0, gap_y: 20, size: 3 };
    assert_eq!(o.wall_rows(), (19, 21));
    assert!(!o.hit_obstacle(&Player { x: 0, y: 190, velocity: 0 }));
    assert!(o.hit_obstacle(&Player { x: 0, y: 189, velocity: 0 }));
    assert!(o.hit_obstacle(&Player { x: 0, y: 211, velocity: 0 }));
}

#[test]
fn obstacle_screen_column_is_relative_to_player() {
    let o = Obstacle::with_gap(85, 0, 25);
    assert_eq!(o.screen_column(5), 80);
    assert_eq!(o.screen_column(85), 0);
}

#[test]
fn menu_ignores_other_keys_and_starts_on_p() {
    let mut s = State::with_gap(25);
    assert_eq!(s.mode, GameMode::Menu);
    let before = s;
    assert_eq!(s.tick_with_gap(Some(Key::Space), 1_000, 30), Signal::Continue);
    assert_eq!(s, before);
    assert_eq!(s.tick_with_gap(Some(Key::Other), 1_000, 30), Signal::Continue);
    assert_eq!(s, before);
    assert_eq!(s.tick_with_gap(None, 1_000, 30), Signal::Continue);
    assert_eq!(s, before);
    assert_eq!(s.tick_with_gap(Some(Key::P), 1_000, 30), Signal::Continue);
    assert_eq!(s.mode, GameMode::Playing);
    assert_eq!(s.score, 0);
    assert_eq!(s.player, Player { x: 5, y: 250, velocity: 0 });
    assert_eq!(s.frame_time, 0);
    assert_eq!(s.obstacle, Obstacle { x: 80, gap_y: 30, size: 20 });
}

#[test]
fn menu_quits_on_q() {
    let mut s = State::new();
    let before = s;
    assert_eq!(s.tick(Some(Key::Q), 0), Signal::Quit);
    assert_eq!(s, before);
}

#[test]
fn passing_a_wall_scores_and_places_next_one() {
    let o = Obstacle::with_gap(80, 0, 25);
    let mut s = playing(Player { x: 80, y: 250, velocity: 0 }, o, 0);
    assert_eq!(s.tick_with_gap(None, 80_000, 30), Signal::Continue);
    assert_eq!(s.player.x, 81);
    assert_eq!(s.score, 1);
    assert_eq!(s.obstacle, Obstacle { x: 161, gap_y: 30, size: 19 });
    assert_eq!(s.mode, GameMode::Playing);
}

#[test]
fn physics_waits_for_frame_duration() {
    let mut s = State::with_gap(25);
    s.tick_with_gap(Some(Key::P), 0, 25);
    s.tick_with_gap(None, 40_000, 25);
    assert_eq!(s.frame_time, 40_000);
    assert_eq!(s.player, Player { x: 5, y: 250, velocity: 0 });
    s.tick_with_gap(None, 35_000, 25);
    assert_eq!(s.frame_time, 75_000);
    assert_eq!(s.player.x, 5);
    s.tick_with_gap(None, 1, 25);
    assert_eq!(s.frame_time, 0);
    assert_eq!(s.player, Player { x: 6, y: 252, velocity: 2 });
}

#[test]
fn flap_applies_without_a_physics_step() {
    let mut s = State::with_gap(25);
    s.tick_with_gap(Some(Key::P), 0, 25);
    s.tick_with_gap(Some(Key::Space), 10, 25);
    assert_eq!(s.player, Player { x: 5, y: 250, velocity: -20 });
    s.tick_with_gap(Some(Key::Space), 80_000, 25);
    assert_eq!(s.player, Player { x: 6, y: 232, velocity: -20 });
}

#[test]
fn leaving_screen_ends_and_keeps_score() {
    let o = Obstacle::with_gap(200, 3, 25);
    let mut s = playing(Player { x: 100, y: 500, velocity: 10 }, o, 3);
    s.tick_with_gap(None, 80_000, 25);
    assert_eq!(s.player.y, 512);
    assert_eq!(s.mode, GameMode::End);
    assert_eq!(s.score, 3);
    let before = s;
    assert_eq!(s.tick_with_gap(Some(Key::Space), 80_000, 25), Signal::Continue);
    assert_eq!(s, before);
}

#[test]
fn height_fifty_point_nine_is_still_on_screen() {
    let o = Obstacle::with_gap(200, 0, 25);
    let mut s = playing(Player { x: 100, y: 497, velocity: 10 }, o, 0);
    s.tick_with_gap(None, 80_000, 25);
    assert_eq!(s.player.y, 509);
    assert_eq!(s.mode, GameMode::Playing);
    s.player.y = 510;
    s.tick_with_gap(None, 0, 25);
    assert_eq!(s.mode, GameMode::End);
}

#[test]
fn striking_a_wall_ends() {
    let o = Obstacle::with_gap(80, 0, 25);
    let mut s = playing(Player { x: 79, y: 100, velocity: 0 }, o, 0);
    s.tick_with_gap(None, 80_000, 25);
    assert_eq!(s.player.x, 80);
    assert_eq!(s.mode, GameMode::End);
    assert_eq!(s.score, 0);
}

#[test]
fn restart_after_end_matches_fresh_start() {
    let o = Obstacle::with_gap(300, 7, 25);
    let mut ended = State { mode: GameMode::End, ..playing(Player { x: 250, y: 520, velocity: 20 }, o, 7) };
    assert_eq!(ended.tick_with_gap(Some(Key::P), 5_000, 33), Signal::Continue);
    let mut fresh = State::with_gap(12);
    fresh.tick_with_gap(Some(Key::P), 5_000, 33);
    assert_eq!(ended, fresh);
    assert_eq!(ended.score, 0);
    assert_eq!(ended.mode, GameMode::Playing);
}

#[test]
fn end_quits_on_q() {
    let o = Obstacle::with_gap(300, 2, 25);
    let mut s = State { mode: GameMode::End, ..playing(Player::new(250, 520), o, 2) };
    let before = s;
    assert_eq!(s.tick(Some(Key::Q), 0), Signal::Quit);
    assert_eq!(s, before);
}

#[test]
fn random_tick_keeps_gap_in_range() {
    let o = Obstacle::with_gap(80, 0, 25);
    let mut s = playing(Player { x: 80, y: 250, velocity: 0 }, o, 0);
    s.tick(None, 80_000);
    assert_eq!(s.score, 1);
    assert_eq!(s.obstacle.x, 161);
    assert!(s.obstacle.gap_y >= 10 && s.obstacle.gap_y < 40);
}
