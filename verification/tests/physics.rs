use rusty_dragon::player::Player;

#[test]
fn new_player_is_at_rest() {
    let p = Player::new(5, 25);
    assert_eq!(p.x, 5);
    assert_eq!(p.y, 25);
    assert_eq!(p.velocity, 0);
}

#[test]
fn gravity_is_non_decreasing_and_capped() {
    let mut p = Player::new(5, 25);
    let mut last = p.velocity;
    for _ in 0..40 {
        p.advance();
        assert!(p.velocity >= last);
        assert!(p.velocity <= 20);
        last = p.velocity;
    }
    assert_eq!(p.velocity, 20);
}

#[test]
fn gravity_accumulates_in_tenths() {
    let mut p = Player::new(5, 25);
    p.advance();
    assert_eq!(p.velocity, 2);
    assert_eq!(p.y, 25);
    p.advance();
    assert_eq!(p.velocity, 4);
    assert_eq!(p.y, 25);
    assert_eq!(p.x, 7);
}

#[test]
fn flap_sets_velocity_exactly() {
    let mut p = Player::new(5, 25);
    p.flap();
    assert_eq!(p.velocity, -20);
    for _ in 0..13 {
        p.advance();
    }
    p.flap();
    assert_eq!(p.velocity, -20);
    p.velocity = 20;
    p.flap();
    assert_eq!(p.velocity, -20);
}

#[test]
fn row_is_clamped_at_top_edge() {
    let mut p = Player::new(5, 0);
    p.flap();
    // while the velocity is still upward the row would go negative; it clamps
    for _ in 0..9 {
        p.advance();
        assert!(p.velocity < 0);
        assert_eq!(p.y, 0);
    }
    // and once gravity wins again the row grows from the clamp, never below 0
    for _ in 0..30 {
        p.advance();
        assert!(p.y >= 0);
    }
}

#[test]
fn climb_after_flap_moves_up_in_whole_rows() {
    let mut p = Player::new(5, 25);
    p.flap();
    p.advance();
    // velocity -20 pulled to -18: one whole row upward, truncated toward zero
    assert_eq!(p.velocity, -18);
    assert_eq!(p.y, 24);
    assert_eq!(p.x, 6);
}
