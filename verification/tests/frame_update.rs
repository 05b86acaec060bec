use pong::ball::{move_ball, paddle_overlaps};
use pong::paddle::{confine_paddles, confine_y, move_paddles};
use pong::world::{setup, Ball, InputSnapshot, Key, Paddle, VELOCITY};

fn no_keys() -> InputSnapshot {
    InputSnapshot { w: false, s: false, up: false, down: false }
}

#[test]
fn setup_places_ball_and_paddles() {
    let w = setup(800);
    assert_eq!(w.ball, Ball { x: 0, y: 0, vx: VELOCITY, vy: VELOCITY });
    assert_eq!(w.left.id, 0);
    assert_eq!(w.left.x, -700);
    assert_eq!(w.left.y, 0);
    assert_eq!(w.left.up_key, Key::W);
    assert_eq!(w.left.down_key, Key::S);
    assert_eq!(w.right.id, 1);
    assert_eq!(w.right.x, 700);
    assert_eq!(w.right.y, 0);
    assert_eq!(w.right.up_key, Key::Up);
    assert_eq!(w.right.down_key, Key::Down);
}

#[test]
fn pressed_reads_each_key() {
    let snap = InputSnapshot { w: true, s: false, up: true, down: false };
    assert!(snap.pressed(Key::W));
    assert!(!snap.pressed(Key::S));
    assert!(snap.pressed(Key::Up));
    assert!(!snap.pressed(Key::Down));
}

#[test]
fn up_key_moves_left_paddle_up() {
    let mut w = setup(800);
    let snap = InputSnapshot { w: true, ..no_keys() };
    move_paddles(&mut w, &snap, 2);
    assert_eq!(w.left.y, 1400);
    assert_eq!(w.right.y, 0);
}

#[test]
fn down_key_moves_left_paddle_down() {
    let mut w = setup(800);
    let snap = InputSnapshot { s: true, ..no_keys() };
    move_paddles(&mut w, &snap, 1);
    assert_eq!(w.left.y, -700);
    assert_eq!(w.right.y, 0);
}

#[test]
fn arrow_keys_steer_right_paddle() {
    let mut w = setup(800);
    let snap = InputSnapshot { up: true, ..no_keys() };
    move_paddles(&mut w, &snap, 3);
    assert_eq!(w.left.y, 0);
    assert_eq!(w.right.y, 2100);
}

#[test]
fn both_keys_held_cancel_for_one_frame() {
    let mut w = setup(800);
    let snap = InputSnapshot { w: true, s: true, ..no_keys() };
    move_paddles(&mut w, &snap, 5);
    assert_eq!(w.left.y, 0);
}

#[test]
fn no_keys_held_moves_nothing() {
    let mut w = setup(800);
    move_paddles(&mut w, &no_keys(), 7);
    assert_eq!(w.left.y, 0);
    assert_eq!(w.right.y, 0);
}

#[test]
fn confine_clamps_at_the_upper_wall() {
    assert_eq!(confine_y(500, 600), 400);
}

#[test]
fn confine_clamps_at_the_lower_wall() {
    assert_eq!(confine_y(-500, 600), -400);
}

#[test]
fn confine_keeps_an_inside_centre() {
    assert_eq!(confine_y(123, 600), 123);
}

#[test]
fn confine_is_idempotent_after_a_clamp() {
    let once = confine_y(10_000, 600);
    assert_eq!(once, 400);
    assert_eq!(confine_y(once, 600), once);
}

#[test]
fn oversized_paddle_takes_the_lower_clamp() {
    let mut w = setup(800);
    confine_paddles(&mut w, 100);
    assert_eq!(w.left.y, 100);
    assert_eq!(w.right.y, 100);
}

#[test]
fn resize_is_confined_with_the_live_height() {
    let mut w = setup(800);
    w.left.y = 500;
    confine_paddles(&mut w, 300);
    assert_eq!(w.left.y, 100);
    assert_eq!(w.right.y, 0);
}

#[test]
fn integration_is_exact_without_contact() {
    let mut w = setup(800);
    w.ball = Ball { x: 7, y: -9, vx: 11, vy: -13 };
    move_ball(&mut w, 600, 3);
    assert_eq!(w.ball, Ball { x: 40, y: -48, vx: 11, vy: -13 });
}

#[test]
fn ball_bounces_off_the_upper_wall() {
    let mut w = setup(800);
    move_ball(&mut w, 600, 1);
    assert_eq!(w.ball, Ball { x: 600, y: 600, vx: 600, vy: -600 });
}

#[test]
fn ball_bounces_off_the_left_paddle() {
    let mut w = setup(800);
    w.ball = Ball { x: -660, y: 0, vx: -600, vy: 0 };
    move_ball(&mut w, 600, 0);
    assert_eq!(w.ball, Ball { x: -660, y: 0, vx: 600, vy: 0 });
}

#[test]
fn ball_bounces_off_the_right_paddle() {
    let mut w = setup(800);
    w.ball = Ball { x: 660, y: 0, vx: 600, vy: 0 };
    move_ball(&mut w, 600, 0);
    assert_eq!(w.ball, Ball { x: 660, y: 0, vx: -600, vy: 0 });
}

#[test]
fn parked_ball_flips_twice_at_the_wall() {
    let mut w = setup(800);
    w.ball = Ball { x: 0, y: 600, vx: 0, vy: 300 };
    move_ball(&mut w, 600, 0);
    assert_eq!(w.ball.vy, -300);
    move_ball(&mut w, 600, 0);
    assert_eq!(w.ball.vy, 300);
}

#[test]
fn wall_check_fires_exactly_at_the_boundary() {
    let mut w = setup(800);
    w.ball = Ball { x: 0, y: 575, vx: 0, vy: 10 };
    move_ball(&mut w, 600, 0);
    assert_eq!(w.ball.vy, -10);
}

#[test]
fn ball_parked_on_a_paddle_toggles_every_frame() {
    let mut w = setup(800);
    w.ball = Ball { x: -800, y: 0, vx: -5, vy: 0 };
    move_ball(&mut w, 600, 0);
    assert_eq!(w.ball.vx, 5);
    move_ball(&mut w, 600, 0);
    assert_eq!(w.ball.vx, -5);
    move_ball(&mut w, 600, 0);
    assert_eq!(w.ball.vx, 5);
}

#[test]
fn paddle_overlap_fires_exactly_at_the_edge() {
    let left = Paddle { id: 0, x: -700, y: 0, up_key: Key::W, down_key: Key::S };
    assert!(paddle_overlaps(-650, 0, &left));
    assert!(!paddle_overlaps(-649, 0, &left));
}

#[test]
fn paddle_overlap_needs_the_ball_above_the_band_floor() {
    let left = Paddle { id: 0, x: -700, y: 300, up_key: Key::W, down_key: Key::S };
    assert!(paddle_overlaps(-800, 100, &left));
    assert!(!paddle_overlaps(-800, 99, &left));
}

#[test]
fn unknown_identity_never_overlaps() {
    let stray = Paddle { id: 7, x: 0, y: 0, up_key: Key::W, down_key: Key::S };
    assert!(!paddle_overlaps(0, 0, &stray));
}
