//! The general laws of the frame update, stated over every input and
//! proved from the update rules' own specifications.

use vstd::math::abs;
use vstd::prelude::*;

use crate::ball::{paddle_reflected_vx, wall_reflected_vy};
use crate::paddle::{confined_y, paddle_moved_y};
use crate::world::{Paddle, HALF_PADDLE_HEIGHT, PADDLE_MOVEMENT_AMOUNT};

verus! {

/// One steering step displaces a paddle by `PADDLE_MOVEMENT_AMOUNT * dt`,
/// signed by the net of the held keys: up alone is `+1`, down alone `-1`,
/// and both or neither `0`.
pub proof fn lemma_steering_net_displacement(y: int, up: bool, down: bool, dt: int)
    ensures
        paddle_moved_y(y, up, down, dt) == y + PADDLE_MOVEMENT_AMOUNT * dt * ((if up {
            1int
        } else {
            0int
        }) - (if down {
            1int
        } else {
            0int
        })),
{
    let a = PADDLE_MOVEMENT_AMOUNT * dt;
    if up && down {
        assert(a * (1int - 1int) == 0) by (nonlinear_arith);
    } else if up {
        assert(a * (1int - 0int) == a) by (nonlinear_arith);
    } else if down {
        assert(a * (0int - 1int) == -a) by (nonlinear_arith);
    } else {
        assert(a * (0int - 0int) == 0) by (nonlinear_arith);
    }
}

/// Steering with both keys held for the same frame moves a paddle
/// nowhere: the upward and downward displacements cancel exactly.
pub proof fn lemma_both_keys_cancel(y: int, dt: int)
    ensures
        paddle_moved_y(y, true, true, dt) == y,
{
}

/// A paddle no taller than the playfield lies wholly inside it after
/// confinement, and stays inside for any starting centre.
pub proof fn lemma_confined_in_bounds(y: int, half_field_height: int)
    requires
        HALF_PADDLE_HEIGHT <= half_field_height,
    ensures
        abs(confined_y(y, half_field_height)) + HALF_PADDLE_HEIGHT <= half_field_height,
{
}

/// Confinement is idempotent: confining an already confined centre is a
/// no-op.
pub proof fn lemma_confine_idempotent(y: int, half_field_height: int)
    ensures
        confined_y(confined_y(y, half_field_height), half_field_height) == confined_y(
            y,
            half_field_height,
        ),
{
}

/// Wall reflection is an involution: over two consecutive frames that end
/// at the same height, the vertical velocity flips twice inside the
/// overlap band and not at all outside it, either way coming back to its
/// starting value.
pub proof fn lemma_wall_reflection_involution(y: int, vy: int, half_field_height: int)
    ensures
        wall_reflected_vy(
            y,
            wall_reflected_vy(y, vy, half_field_height),
            half_field_height,
        ) == vy,
{
}

/// Reflection only flips signs: the ball's speed along each axis is
/// conserved by the wall and paddle checks alike.
pub proof fn lemma_reflection_conserves_speed(
    bx: int,
    by: int,
    vx: int,
    vy: int,
    half_field_height: int,
    left: Paddle,
    right: Paddle,
)
    ensures
        abs(wall_reflected_vy(by, vy, half_field_height)) == abs(vy),
        abs(paddle_reflected_vx(bx, by, vx, left, right)) == abs(vx),
{
}

} // verus!
