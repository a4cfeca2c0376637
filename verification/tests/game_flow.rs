use rusty_dragon::obstacle::Obstacle;
use rusty_dragon::player::Player;
use rusty_dragon::render::RenderCmd;
use rusty_dragon::state::{GameMode, InputEvent, State};

fn playing_state(player: Player, obstacle: Obstacle) -> State {
    State { player, frame_time: 0, obstacle, mode: GameMode::Playing, score: 0 }
}

#[test]
fn fresh_restart_scenario() {
    let mut s = State::new();
    assert!(matches!(s.mode, GameMode::Menu));
    s.restart();
    assert!(matches!(s.mode, GameMode::Playing));
    assert_eq!(s.score, 0);
    assert_eq!(s.frame_time, 0);
    assert_eq!(s.player.x, 5);
    assert_eq!(s.player.y, 25);
    assert_eq!(s.player.velocity, 0);
    assert_eq!(s.obstacle.x, 80);
    assert_eq!(s.obstacle.size, 20);
    assert!(s.obstacle.gap_y >= 10 && s.obstacle.gap_y < 40);
}

#[test]
fn subthreshold_tick_skips_physics_but_flaps() {
    let mut s = playing_state(Player::new(5, 25), Obstacle::with_gap(80, 25, 0));
    let out = s.tick(10, Some(InputEvent::Flap));
    assert_eq!(s.player.x, 5);
    assert_eq!(s.player.y, 25);
    assert_eq!(s.player.velocity, -20);
    assert_eq!(s.frame_time, 10);
    assert_eq!(s.score, 0);
    assert!(matches!(s.mode, GameMode::Playing));
    assert!(!out.quit);
}

#[test]
fn accumulator_crosses_threshold_once() {
    let mut s = playing_state(Player::new(5, 25), Obstacle::with_gap(80, 25, 0));
    s.tick(40, None);
    assert_eq!(s.frame_time, 40);
    assert_eq!(s.player.x, 5);
    s.tick(40, None);
    // 80 ms accumulated: exactly one physics step, accumulator reset
    assert_eq!(s.frame_time, 0);
    assert_eq!(s.player.x, 6);
    assert_eq!(s.player.velocity, 2);
}

#[test]
fn pass_through_scores_and_replaces_obstacle() {
    let mut s = playing_state(Player::new(80, 25), Obstacle::with_gap(80, 25, 0));
    let old_size = s.obstacle.size;
    s.tick(100, None);
    assert_eq!(s.player.x, 81);
    assert_eq!(s.score, 1);
    assert_eq!(s.obstacle.x, 81 + 80);
    assert_eq!(s.obstacle.size, 19);
    assert!(s.obstacle.size <= old_size);
    assert!(s.obstacle.gap_y >= 10 && s.obstacle.gap_y < 40);
    assert!(matches!(s.mode, GameMode::Playing));
}

#[test]
fn bottom_boundary_ends_the_run() {
    // one step from row 50 at terminal velocity lands on 52, past the boundary
    let mut s = playing_state(Player { x: 5, y: 50, velocity: 20 }, Obstacle::with_gap(80, 25, 0));
    s.tick(100, None);
    assert_eq!(s.player.y, 52);
    assert!(matches!(s.mode, GameMode::End));
}

#[test]
fn collision_ends_the_run() {
    // stepping onto the obstacle's column above the gap band
    let mut s = playing_state(Player { x: 79, y: 5, velocity: 0 }, Obstacle::with_gap(80, 25, 0));
    s.tick(100, None);
    assert_eq!(s.player.x, 80);
    assert!(matches!(s.mode, GameMode::End));
}

#[test]
fn menu_restart_begins_playing() {
    let mut s = State::new();
    let out = s.tick(16, Some(InputEvent::Restart));
    assert!(matches!(s.mode, GameMode::Playing));
    assert_eq!(s.score, 0);
    assert!(!out.quit);
}

#[test]
fn menu_quit_signals_outward() {
    let mut s = State::new();
    let out = s.tick(16, Some(InputEvent::Quit));
    assert!(matches!(s.mode, GameMode::Menu));
    assert!(out.quit);
}

#[test]
fn menu_ignores_flap_and_silence() {
    let mut s = State::new();
    let out = s.tick(16, Some(InputEvent::Flap));
    assert!(matches!(s.mode, GameMode::Menu));
    assert!(!out.quit);
    let out = s.tick(16, None);
    assert!(matches!(s.mode, GameMode::Menu));
    assert_eq!(s.frame_time, 0);
    assert!(!out.quit);
}

#[test]
fn menu_draws_the_fixed_lines() {
    let mut s = State::new();
    let out = s.tick(16, None);
    assert_eq!(out.commands.len(), 7);
    assert!(matches!(out.commands[0], RenderCmd::Cls));
    match &out.commands[1] {
        RenderCmd::PrintCentered { y, text } => {
            assert_eq!(*y, 5);
            assert_eq!(text, "Welcome to Andruil's Rusty Dragon");
        },
        other => panic!("expected a centered line, got {:?}", other),
    }
    match &out.commands[6] {
        RenderCmd::PrintCentered { y, text } => {
            assert_eq!(*y, 13);
            assert_eq!(text, "Q for Quitting");
        },
        other => panic!("expected a centered line, got {:?}", other),
    }
}

#[test]
fn game_over_reports_the_tally_and_restarts() {
    let mut s = State::new();
    s.mode = GameMode::End;
    s.score = 3;
    let out = s.tick(16, None);
    assert_eq!(out.commands.len(), 6);
    match &out.commands[3] {
        RenderCmd::PrintCentered { y, text } => {
            assert_eq!(*y, 7);
            assert_eq!(text, "But you earned 3 points");
        },
        other => panic!("expected a centered line, got {:?}", other),
    }
    let out = s.tick(16, Some(InputEvent::Restart));
    assert!(matches!(s.mode, GameMode::Playing));
    assert_eq!(s.score, 0);
    assert!(!out.quit);
}

#[test]
fn playing_frame_is_drawn_in_order() {
    let mut s = playing_state(Player::new(5, 25), Obstacle::with_gap(80, 25, 0));
    let out = s.tick(10, None);
    // clear, player glyph, two banner lines, then 30 obstacle bars
    assert_eq!(out.commands.len(), 34);
    assert!(matches!(out.commands[0], RenderCmd::ClsBg { .. }));
    assert!(matches!(out.commands[1], RenderCmd::Glyph { x: 0, y: 25, glyph: '>', .. }));
    match &out.commands[2] {
        RenderCmd::Print { x, y, text } => {
            assert_eq!((*x, *y), (35, 0));
            assert_eq!(text, "Press SPACE to fly up.");
        },
        other => panic!("expected the banner, got {:?}", other),
    }
    match &out.commands[3] {
        RenderCmd::Print { x, y, text } => {
            assert_eq!((*x, *y), (35, 0));
            assert_eq!(text, "Score: 0");
        },
        other => panic!("expected the score line, got {:?}", other),
    }
    assert!(matches!(out.commands[4], RenderCmd::Glyph { x: 75, y: 0, glyph: '|', .. }));
}
