//! The per-frame ball system: exact Euler integration, then wall
//! reflection, then the two paddle reflections, in that fixed order.

use vstd::math::abs;
use vstd::prelude::*;

use crate::world::{Ball, Paddle, World, BALL_SIZE, HALF_BALL_SIZE, HALF_PADDLE_HEIGHT};

verus! {

/// Whether a ball centred at height `y` touches the top or bottom wall of
/// a playfield with the given half-height.
pub open spec fn wall_overlap(y: int, half_field_height: int) -> bool {
    y + HALF_BALL_SIZE >= half_field_height || y - HALF_BALL_SIZE <= -half_field_height
}

/// The ball's vertical velocity after the wall check at height `y`:
/// negated on overlap, kept otherwise. The position is never pushed back
/// inside the playfield, so a ball still overlapping on the next frame
/// flips again.
pub open spec fn wall_reflected_vy(y: int, vy: int, half_field_height: int) -> int {
    if wall_overlap(y, half_field_height) {
        -vy
    } else {
        vy
    }
}

/// Whether the ball centred at `(bx, by)` touches paddle `p`, by that
/// paddle's identity: identity 0 tests the ball's left extent against the
/// paddle's x, identity 1 the right extent, and both accept any ball at or
/// above the paddle band's lower edge. Any other identity never overlaps,
/// so such a paddle is skipped.
pub open spec fn paddle_overlap(bx: int, by: int, p: Paddle) -> bool {
    if p.id == 0 {
        bx - BALL_SIZE <= p.x && abs(p.y as int) - HALF_PADDLE_HEIGHT <= by
    } else if p.id == 1 {
        bx + BALL_SIZE >= p.x && abs(p.y as int) - HALF_PADDLE_HEIGHT <= by
    } else {
        false
    }
}

/// The ball's horizontal velocity after the paddle checks at `(bx, by)`:
/// each overlapping paddle negates it in turn, so overlapping both in the
/// same frame leaves it unchanged.
pub open spec fn paddle_reflected_vx(bx: int, by: int, vx: int, left: Paddle, right: Paddle) -> int {
    let after_left = if paddle_overlap(bx, by, left) {
        -vx
    } else {
        vx
    };
    if paddle_overlap(bx, by, right) {
        -after_left
    } else {
        after_left
    }
}

/// The integration and overlap arithmetic on ball `b` over `dt` ticks
/// stays inside the machine range.
pub open spec fn ball_step_fits(b: Ball, dt: int) -> bool {
    let nx = b.x + b.vx * dt;
    let ny = b.y + b.vy * dt;
    &&& i64::MIN <= b.vx * dt <= i64::MAX
    &&& i64::MIN <= b.vy * dt <= i64::MAX
    &&& i64::MIN <= nx - BALL_SIZE
    &&& nx + BALL_SIZE <= i64::MAX
    &&& i64::MIN <= ny - HALF_BALL_SIZE
    &&& ny + HALF_BALL_SIZE <= i64::MAX
    &&& i64::MIN < b.vx
    &&& i64::MIN < b.vy
}

/// Whether the ball centred at `(bx, by)` touches paddle `p`.
pub fn paddle_overlaps(bx: i64, by: i64, p: &Paddle) -> (r: bool)
    requires
        i64::MIN <= bx - BALL_SIZE,
        bx + BALL_SIZE <= i64::MAX,
        i64::MIN < p.y,
    ensures
        r == paddle_overlap(bx as int, by as int, *p),
{
    let band_floor: i64 = (if p.y < 0 {
        -p.y
    } else {
        p.y
    }) - HALF_PADDLE_HEIGHT;
    if p.id == 0 {
        bx - BALL_SIZE <= p.x && band_floor <= by
    } else if p.id == 1 {
        bx + BALL_SIZE >= p.x && band_floor <= by
    } else {
        false
    }
}

/// The ball integrator and collider: advances the ball by `velocity * dt`
/// exactly, then reflects the vertical velocity off the walls and the
/// horizontal velocity off each overlapping paddle. Positions are never
/// clamped or pushed out; only velocity signs change.
pub fn move_ball(w: &mut World, half_field_height: i64, dt: i64)
    requires
        0 <= dt,
        0 <= half_field_height,
        ball_step_fits(old(w).ball, dt as int),
        i64::MIN < old(w).left.y,
        i64::MIN < old(w).right.y,
    ensures
        final(w).ball.x == old(w).ball.x + old(w).ball.vx * dt,
        final(w).ball.y == old(w).ball.y + old(w).ball.vy * dt,
        final(w).ball.vy == wall_reflected_vy(
            final(w).ball.y as int,
            old(w).ball.vy as int,
            half_field_height as int,
        ),
        final(w).ball.vx == paddle_reflected_vx(
            final(w).ball.x as int,
            final(w).ball.y as int,
            old(w).ball.vx as int,
            old(w).left,
            old(w).right,
        ),
        final(w).left == old(w).left,
        final(w).right == old(w).right,
{
    let nx: i64 = w.ball.x + w.ball.vx * dt;
    let ny: i64 = w.ball.y + w.ball.vy * dt;
    w.ball.x = nx;
    w.ball.y = ny;

    if ny + HALF_BALL_SIZE >= half_field_height || ny - HALF_BALL_SIZE <= -half_field_height {
        w.ball.vy = -w.ball.vy;
    }
    if paddle_overlaps(nx, ny, &w.left) {
        w.ball.vx = -w.ball.vx;
    }
    if paddle_overlaps(nx, ny, &w.right) {
        w.ball.vx = -w.ball.vx;
    }
}

} // verus!
