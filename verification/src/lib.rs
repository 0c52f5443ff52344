//! A verified model of the startup scene of a small 2D "asteroids"-style game.
//!
//! The game itself runs on an external entity-component-system engine, which
//! owns the window, the renderer, the asset store and the frame loop.  What
//! this library holds is the first-party logic: the one-time scene bootstrap
//! that places a camera and a player ship into an entity store, and the
//! startup decision that refuses to touch the store when the display
//! configuration or the sprite sheet is missing.
//!
//! Coordinates are measured in *half-units*: a coordinate of `n` half-units
//! is the logical coordinate `n / 2`.  The centre of a `w × h` viewport,
//! `(w / 2, h / 2)`, is then exactly `(w, h)` in half-units for every integer
//! `w` and `h`, so centring never rounds.

pub mod components;
pub mod scene;
pub mod world;
