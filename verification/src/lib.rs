//! A two-player Pong simulation core: a ball and two vertically movable
//! paddles on a bounded playfield, advanced frame by frame from the set of
//! held steering keys and the elapsed time.
//!
//! All coordinates, speeds and times are integers, so every frame update is
//! exact. One distance unit is half a screen pixel, which keeps the
//! half-extents used by the wall and confinement tests integral; time is a
//! whole number of ticks, and speeds are distance units per tick.
//!
//! Each frame runs, in this fixed order: `paddle::move_paddles`,
//! `paddle::confine_paddles`, `ball::move_ball`. The frame driver that
//! supplies the playfield bounds, the key snapshot and the elapsed ticks,
//! and that draws the resulting positions, lives outside this crate.

pub mod ball;
pub mod laws;
pub mod paddle;
pub mod world;
