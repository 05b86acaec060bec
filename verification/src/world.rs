//! Entities and startup placement: the ball, the ordered pair of paddles,
//! and the key bindings each paddle is steered with.

use vstd::prelude::*;

verus! {

/// Edge length of the square ball.
pub const BALL_SIZE: i64 = 50;

/// Half the ball's edge, read by the wall overlap test.
pub const HALF_BALL_SIZE: i64 = 25;

/// Horizontal extent of a paddle. No update rule reads it; the renderer does.
pub const PADDLE_WIDTH: i64 = 60;

/// Vertical extent of a paddle.
pub const PADDLE_HEIGHT: i64 = 400;

/// Half a paddle's height, read by confinement and the paddle overlap test.
pub const HALF_PADDLE_HEIGHT: i64 = 200;

/// Horizontal distance from a playfield edge to the paddle placed at it.
pub const PADDLE_PADDING: i64 = 100;

/// Vertical paddle speed while a steering key is held, in units per tick.
pub const PADDLE_MOVEMENT_AMOUNT: i64 = 700;

/// Each component of the ball's startup velocity, in units per tick.
pub const VELOCITY: i64 = 600;

/// A key a paddle can be steered with.
#[derive(Clone, Copy, Debug, PartialEq, Eq, Structural)]
pub enum Key {
    W,
    S,
    Up,
    Down,
}

/// Which steering keys are held this frame. A key the host window system
/// reports nothing about is simply not held.
#[derive(Clone, Copy, Debug, PartialEq, Eq, Structural)]
pub struct InputSnapshot {
    pub w: bool,
    pub s: bool,
    pub up: bool,
    pub down: bool,
}

impl InputSnapshot {
    /// Whether `k` is held in this snapshot.
    pub open spec fn spec_pressed(self, k: Key) -> bool {
        match k {
            Key::W => self.w,
            Key::S => self.s,
            Key::Up => self.up,
            Key::Down => self.down,
        }
    }

    /// Whether `k` is held in this snapshot.
    pub fn pressed(&self, k: Key) -> (held: bool)
        ensures
            held == self.spec_pressed(k),
    {
        match k {
            Key::W => self.w,
            Key::S => self.s,
            Key::Up => self.up,
            Key::Down => self.down,
        }
    }
}

/// The ball: a square of edge `BALL_SIZE` centred at `(x, y)`, moving at
/// `(vx, vy)` units per tick.
#[derive(Clone, Copy, Debug, PartialEq, Eq, Structural)]
pub struct Ball {
    pub x: i64,
    pub y: i64,
    pub vx: i64,
    pub vy: i64,
}

/// A paddle. Identity 0 sits at negative x and deflects the ball from the
/// left; identity 1 sits at positive x and deflects it from the right. The
/// x position is fixed for the life of the entity; only y ever changes.
#[derive(Clone, Copy, Debug, PartialEq, Eq, Structural)]
pub struct Paddle {
    pub id: u8,
    pub x: i64,
    pub y: i64,
    pub up_key: Key,
    pub down_key: Key,
}

/// The whole mutable state of a game: one ball and the ordered pair of
/// paddles, left before right.
#[derive(Clone, Copy, Debug, PartialEq, Eq, Structural)]
pub struct World {
    pub ball: Ball,
    pub left: Paddle,
    pub right: Paddle,
}

impl World {
    /// The two paddles carry their distinct identities: 0 on the left,
    /// 1 on the right. Startup establishes this and every update keeps it.
    pub open spec fn wf(self) -> bool {
        self.left.id == 0 && self.right.id == 1
    }
}

/// Builds the startup state for a playfield of the given half-width: the
/// ball at the origin moving up-right at `VELOCITY` per component, and the
/// two paddles centred vertically, `PADDLE_PADDING` in from their edges,
/// identity 0 steered by W/S and identity 1 by the arrow keys.
pub fn setup(half_field_width: i64) -> (w: World)
    requires
        0 <= half_field_width,
    ensures
        w.wf(),
        w.ball == (Ball { x: 0, y: 0, vx: VELOCITY, vy: VELOCITY }),
        w.left.x == PADDLE_PADDING - half_field_width,
        w.right.x == half_field_width - PADDLE_PADDING,
        w.left == (Paddle { id: 0, x: w.left.x, y: 0, up_key: Key::W, down_key: Key::S }),
        w.right == (Paddle { id: 1, x: w.right.x, y: 0, up_key: Key::Up, down_key: Key::Down }),
{
    World {
        ball: Ball { x: 0, y: 0, vx: VELOCITY, vy: VELOCITY },
        left: Paddle {
            id: 0,
            x: PADDLE_PADDING - half_field_width,
            y: 0,
            up_key: Key::W,
            down_key: Key::S,
        },
        right: Paddle {
            id: 1,
            x: half_field_width - PADDLE_PADDING,
            y: 0,
            up_key: Key::Up,
            down_key: Key::Down,
        },
    }
}

} // verus!
