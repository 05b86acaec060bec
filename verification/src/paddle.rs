//! The per-frame paddle systems: steering from the held keys, then
//! confinement to the playfield.

use vstd::prelude::*;

use crate::world::{InputSnapshot, Paddle, World, HALF_PADDLE_HEIGHT, PADDLE_MOVEMENT_AMOUNT};

verus! {

/// A paddle centre at `y` after one steering step over `dt` ticks: a held
/// up key adds `PADDLE_MOVEMENT_AMOUNT * dt`, a held down key subtracts the
/// same amount, and holding both cancels exactly.
pub open spec fn paddle_moved_y(y: int, up: bool, down: bool, dt: int) -> int {
    y + (if up {
        PADDLE_MOVEMENT_AMOUNT * dt
    } else {
        0
    }) - (if down {
        PADDLE_MOVEMENT_AMOUNT * dt
    } else {
        0
    })
}

/// The steering arithmetic on a paddle centre at `y` over `dt` ticks stays
/// inside the machine range whichever keys are held.
pub open spec fn paddle_move_fits(y: int, dt: int) -> bool {
    &&& y + PADDLE_MOVEMENT_AMOUNT * dt <= i64::MAX
    &&& i64::MIN <= y - PADDLE_MOVEMENT_AMOUNT * dt
}

/// Steers one paddle by its own key bindings: up first, then down, each
/// applied only while held.
pub fn move_paddle(p: &mut Paddle, input: &InputSnapshot, dt: i64)
    requires
        0 <= dt,
        paddle_move_fits(old(p).y as int, dt as int),
    ensures
        final(p).y == paddle_moved_y(
            old(p).y as int,
            input.spec_pressed(old(p).up_key),
            input.spec_pressed(old(p).down_key),
            dt as int,
        ),
        *final(p) == (Paddle { y: final(p).y, ..*old(p) }),
{
    let dy: i64 = PADDLE_MOVEMENT_AMOUNT * dt;
    if input.pressed(p.up_key) {
        p.y = p.y + dy;
    }
    if input.pressed(p.down_key) {
        p.y = p.y - dy;
    }
}

/// The paddle controller: converts the key snapshot and the elapsed ticks
/// into a vertical displacement of each paddle, left then right.
pub fn move_paddles(w: &mut World, input: &InputSnapshot, dt: i64)
    requires
        0 <= dt,
        paddle_move_fits(old(w).left.y as int, dt as int),
        paddle_move_fits(old(w).right.y as int, dt as int),
    ensures
        final(w).left.y == paddle_moved_y(
            old(w).left.y as int,
            input.spec_pressed(old(w).left.up_key),
            input.spec_pressed(old(w).left.down_key),
            dt as int,
        ),
        final(w).right.y == paddle_moved_y(
            old(w).right.y as int,
            input.spec_pressed(old(w).right.up_key),
            input.spec_pressed(old(w).right.down_key),
            dt as int,
        ),
        final(w).left == (Paddle { y: final(w).left.y, ..old(w).left }),
        final(w).right == (Paddle { y: final(w).right.y, ..old(w).right }),
        final(w).ball == old(w).ball,
{
    move_paddle(&mut w.left, input, dt);
    move_paddle(&mut w.right, input, dt);
}

/// A paddle centre at `y` after confinement to a playfield with the given
/// half-height: the upper clamp, then independently the lower clamp, in
/// that order. With a playfield shorter than the paddle both clamps fire
/// and the lower one, applied last, wins.
pub open spec fn confined_y(y: int, half_field_height: int) -> int {
    let upper_clamped = if y + HALF_PADDLE_HEIGHT >= half_field_height {
        half_field_height - HALF_PADDLE_HEIGHT
    } else {
        y
    };
    if upper_clamped - HALF_PADDLE_HEIGHT <= -half_field_height {
        -half_field_height + HALF_PADDLE_HEIGHT
    } else {
        upper_clamped
    }
}

/// Confines one paddle centre to the playfield.
pub fn confine_y(y: i64, half_field_height: i64) -> (c: i64)
    requires
        0 <= half_field_height,
        y + HALF_PADDLE_HEIGHT <= i64::MAX,
        i64::MIN <= y - HALF_PADDLE_HEIGHT,
    ensures
        c == confined_y(y as int, half_field_height as int),
{
    let mut c: i64 = y;
    if c + HALF_PADDLE_HEIGHT >= half_field_height {
        c = half_field_height - HALF_PADDLE_HEIGHT;
    }
    if c - HALF_PADDLE_HEIGHT <= -half_field_height {
        c = -half_field_height + HALF_PADDLE_HEIGHT;
    }
    c
}

/// The paddle confiner: clamps both paddles to the playfield read fresh
/// this frame, so a mid-run window resize is picked up at once.
pub fn confine_paddles(w: &mut World, half_field_height: i64)
    requires
        0 <= half_field_height,
        old(w).left.y + HALF_PADDLE_HEIGHT <= i64::MAX,
        i64::MIN <= old(w).left.y - HALF_PADDLE_HEIGHT,
        old(w).right.y + HALF_PADDLE_HEIGHT <= i64::MAX,
        i64::MIN <= old(w).right.y - HALF_PADDLE_HEIGHT,
    ensures
        final(w).left.y == confined_y(old(w).left.y as int, half_field_height as int),
        final(w).right.y == confined_y(old(w).right.y as int, half_field_height as int),
        final(w).left == (Paddle { y: final(w).left.y, ..old(w).left }),
        final(w).right == (Paddle { y: final(w).right.y, ..old(w).right }),
        final(w).ball == old(w).ball,
{
    w.left.y = confine_y(w.left.y, half_field_height);
    w.right.y = confine_y(w.right.y, half_field_height);
}

} // verus!
