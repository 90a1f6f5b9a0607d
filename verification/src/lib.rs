//! A fixed-size arena in which a ball bounces off the walls while two paddles
//! slide vertically, clamped to the arena. The stepper advances the whole
//! state by one frame's elapsed time; rendering and the event loop live
//! outside the library.
//!
//! All coordinates are exact integers: positions and extents in thousandths of
//! a pixel, velocities in whole pixels per second, frame deltas in whole
//! milliseconds. A velocity times a delta is then exactly a displacement in
//! thousandths of a pixel, so every step is computed and specified without
//! rounding.
//!
//! Known gap: the ball does not collide with the paddles. The ball reflects
//! off the arena walls only, and the paddles only stop at the top and bottom
//! walls.

pub mod model;
pub mod ball;
pub mod paddle;
pub mod game;
