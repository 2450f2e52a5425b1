use clicker::config::{GOAL, MAX_NUMBER};
use clicker::game::{advance_targets, Game};
use clicker::game_loop::GameLoop;
use clicker::render::{decimal_text, get_color};
use clicker::target::{random_target, Target};

fn target(x: i32, y: i32, w: i32, h: i32, value: i32, color: i32, direction: i32) -> Target {
    Target { x, y, w, h, value, color, direction }
}

fn game_with(targets: Vec<Target>, click: (i64, i64), score: i32) -> Game {
    let mut g = Game::new(500, 600);
    g.targets = targets;
    g.click_x = click.0;
    g.click_y = click.1;
    g.score = score;
    g
}

fn filler() -> Target {
    target(1, 1, 50, 50, 2, 1, 1)
}

#[test]
fn new_game_has_one_target() {
    let g = Game::new(800, 900);
    assert_eq!(g.targets, vec![target(100, 100, 100, 100, 1, 0, 0)]);
    assert_eq!(g.score, 0);
    assert!(g.running);
    assert_eq!((g.click_x, g.click_y), (0, 0));
}

#[test]
fn click_inside_removes_target_and_scores() {
    let mut g = game_with(vec![target(100, 100, 100, 100, 1, 0, 0)], (150, 150), 0);
    g.update();
    assert_eq!(g.score, 1);
    assert_eq!(g.targets.len(), 1);
    assert_ne!(g.targets[0], target(108, 100, 100, 100, 1, 0, 0));
    assert!(g.running);
}

#[test]
fn click_outside_moves_target_right() {
    let spawn = filler();
    let mut g = game_with(vec![target(100, 100, 100, 100, 1, 0, 0)], (0, 0), 0);
    g.update_with(spawn);
    assert_eq!(g.targets, vec![target(108, 100, 100, 100, 1, 0, 0), spawn]);
    assert_eq!(g.score, 0);
}

#[test]
fn leftward_target_moves_left() {
    let mut g = game_with(vec![target(100, 30, 70, 90, 4, 2, 1)], (0, 0), 10);
    g.update_with(filler());
    assert_eq!(g.targets[0], target(92, 30, 70, 90, 4, 2, 1));
    assert_eq!(g.score, 10);
}

#[test]
fn reaching_goal_exactly_stops_game() {
    let mut g = game_with(vec![target(100, 100, 100, 100, 1, 0, 0)], (150, 150), 98);
    g.update_with(filler());
    assert_eq!(g.score, GOAL);
    assert!(!g.running);
}

#[test]
fn passing_goal_wraps_score() {
    let mut g = game_with(vec![target(100, 100, 100, 100, 5, 0, 0)], (150, 150), 98);
    g.update_with(filler());
    assert_eq!(g.score, 4);
    assert!(g.running);
}

#[test]
fn click_on_border_counts() {
    let mut g = game_with(vec![target(100, 100, 100, 100, 3, 0, 0)], (200, 200), 0);
    g.update_with(filler());
    assert_eq!(g.score, 3);
    let mut g = game_with(vec![target(100, 100, 100, 100, 3, 0, 0)], (201, 200), 0);
    g.update_with(filler());
    assert_eq!(g.score, 0);
}

#[test]
fn targets_off_field_are_removed() {
    let spawn = filler();
    let targets = vec![
        target(501, 10, 50, 50, 1, 0, 0),
        target(500, 10, 50, 50, 1, 0, 0),
        target(-51, 10, 50, 50, 1, 0, 1),
        target(-50, 10, 50, 50, 1, 0, 1),
    ];
    let mut g = game_with(targets, (0, 0), 0);
    g.update_with(spawn);
    assert_eq!(
        g.targets,
        vec![target(508, 10, 50, 50, 1, 0, 0), target(-58, 10, 50, 50, 1, 0, 1), spawn]
    );
}

#[test]
fn off_field_target_under_click_scores_nothing() {
    let mut g = game_with(vec![target(501, 10, 50, 50, 7, 0, 0)], (520, 20), 0);
    g.update_with(filler());
    assert_eq!(g.score, 0);
    assert_eq!(g.targets, vec![filler()]);
}

#[test]
fn gain_sums_all_clicked_targets() {
    let targets = vec![
        target(100, 100, 100, 100, 2, 0, 0),
        target(120, 120, 60, 60, 3, 1, 1),
        target(300, 300, 50, 50, 9, 2, 0),
    ];
    let (kept, gain) = advance_targets(&targets, 150, 150);
    assert_eq!(gain, 5);
    assert_eq!(kept, vec![target(308, 300, 50, 50, 9, 2, 0)]);
}

#[test]
fn full_field_spawns_nothing() {
    let targets: Vec<Target> = (0..MAX_NUMBER).map(|_| filler()).collect();
    let mut g = game_with(targets, (400, 400), 0);
    g.update();
    assert_eq!(g.targets.len(), MAX_NUMBER);
    assert!(g.targets.iter().all(|t| *t == target(-7, 1, 50, 50, 2, 1, 1)));
}

#[test]
fn one_free_place_is_filled() {
    let mut targets: Vec<Target> = (0..MAX_NUMBER - 1).map(|_| filler()).collect();
    targets.push(target(100, 100, 100, 100, 1, 0, 0));
    let mut g = game_with(targets, (150, 150), 0);
    g.update();
    assert_eq!(g.targets.len(), MAX_NUMBER);
    assert_eq!(g.score, 1);
}

#[test]
fn stopped_game_does_not_change() {
    let mut g = game_with(vec![target(100, 100, 100, 100, 1, 0, 0)], (150, 150), GOAL);
    g.running = false;
    let before = g.clone();
    g.on_animation_frame();
    assert_eq!(g.targets, before.targets);
    assert_eq!(g.score, GOAL);
    assert!(!g.running);
}

#[test]
fn running_game_updates_on_frame() {
    let mut g = game_with(vec![target(100, 100, 100, 100, 1, 0, 0)], (0, 0), 0);
    g.on_animation_frame();
    assert_eq!(g.targets[0], target(108, 100, 100, 100, 1, 0, 0));
    assert_eq!(g.targets.len(), 2);
}

#[test]
fn click_is_scaled_to_field() {
    let mut g = Game::new(250, 1200);
    g.set_click(110, 220, 10, 20);
    assert_eq!((g.click_x, g.click_y), (200, 100));
    g.set_click(0, 0, 3, 3);
    assert_eq!((g.click_x, g.click_y), (-6, -1));
}

#[test]
fn random_targets_stay_in_spawn_ranges() {
    let mut xs = Vec::new();
    for _ in 0..200 {
        let t = random_target();
        assert!((1..400).contains(&t.x));
        assert!((1..500).contains(&t.y));
        assert!((50..400).contains(&t.w));
        assert!((50..400).contains(&t.h));
        assert!((1..10).contains(&t.value));
        assert!((0..4).contains(&t.color));
        assert!((0..2).contains(&t.direction));
        xs.push(t.x);
    }
    assert!(xs.iter().any(|x| *x != xs[0]));
}

#[test]
fn color_table() {
    assert_eq!(get_color(0), "rgb(0 128 0)");
    assert_eq!(get_color(1), "rgb(24 255 0)");
    assert_eq!(get_color(2), "rgb(131 245 44)");
    assert_eq!(get_color(3), "rgb(255 255 0)");
    assert_eq!(get_color(4), "rgba(0 128 0)");
    assert_eq!(get_color(-1), "rgba(0 128 0)");
}

#[test]
fn decimal_text_digits() {
    assert_eq!(decimal_text(0), "0");
    assert_eq!(decimal_text(7), "7");
    assert_eq!(decimal_text(99), "99");
    assert_eq!(decimal_text(4294967295), "4294967295");
}

#[test]
fn hud_text_shows_score_and_message() {
    let mut g = game_with(vec![], (0, 0), 42);
    assert_eq!(g.hud_text(), "42 / 99  Click Circle to reach 99");
    g.score = GOAL;
    g.running = false;
    assert_eq!(g.hud_text(), "99 / 99  Congratuation!!");
}

#[test]
fn sprites_follow_targets() {
    let g = game_with(vec![target(10, 20, 31, 41, 6, 2, 0)], (0, 0), 0);
    let s = g.sprites();
    assert_eq!(s.len(), 1);
    assert_eq!((s[0].x, s[0].y, s[0].w, s[0].h), (10, 20, 31, 41));
    assert_eq!(s[0].color, "rgb(131 245 44)");
    assert_eq!(s[0].label, "6");
    assert_eq!((s[0].label_x, s[0].label_y), (25, 40));
}

#[test]
fn loop_ticks_every_fifth_frame() {
    let g = game_with(vec![target(100, 100, 100, 100, 1, 0, 0)], (0, 0), 0);
    let mut l = GameLoop::start(g);
    let ticks: Vec<bool> = (0..10).map(|_| l.on_frame()).collect();
    assert_eq!(
        ticks,
        vec![false, false, false, false, true, false, false, false, false, true]
    );
    assert_eq!(l.game.targets[0].x, 116);
}

#[test]
fn loop_forwards_clicks() {
    let mut l = GameLoop::start(Game::new(500, 600));
    l.on_click(160, 170, 10, 20);
    assert_eq!((l.game.click_x, l.game.click_y), (150, 150));
    for _ in 0..5 {
        l.on_frame();
    }
    assert_eq!(l.game.score, 1);
}
