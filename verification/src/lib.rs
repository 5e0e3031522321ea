//! Rules of a small climbing game, on plain integer values.
//!
//! A player grapples and dashes upward through a field of falling and
//! floating obstacles, scores by height and destruction, and spends points
//! on upgrades. This crate holds what the game decides on every frame:
//! the speed gained by walking, hooking and dashing, what to spawn and what
//! to remove, score bookkeeping and upgrade prices. Rendering, physics integration and
//! input sampling are left to the host, which hands in snapshots and carries
//! out the returned commands.
//!
//! Units. Lengths and coordinates are thousandths of a world unit, speeds are
//! thousandths of a world unit per second, and times are nanoseconds.

pub mod clock;
pub mod economy;
pub mod entity;
pub mod geometry;
pub mod hud;
pub mod lifecycle;
pub mod player;
pub mod random;
pub mod shop;
pub mod spawning;
pub mod state;
pub mod thingamajig;
