//! Core simulation logic of a grid-based robot-deflection defense game.
//!
//! Players place directional gadgets (arrows, forks, groupers, defenders) on
//! a tile grid to redirect robot swarms that portals emit, trying to destroy
//! every enemy portal before their own portals fall.  This crate holds the
//! decision logic of that simulation — collision bookkeeping, gadget
//! influence rules, placement validity, the drag state machine, locomotion
//! force accumulation, spawn timing, combat resolution and the win/loss
//! controller — over plain values, so that every rule is stated in a
//! contract and proved.  Rendering, asset loading, floating-point physics
//! integration and input devices are outside collaborators: callers hand
//! this crate the plain values those collaborators produce (entity ids,
//! grid coordinates, fixed-point vectors, elapsed microseconds) and carry
//! its decisions back out.

pub mod arrow;
pub mod bullet;
pub mod cache;
pub mod defender;
pub mod drag;
pub mod fork;
pub mod grouper;
pub mod grid;
pub mod groups;
pub mod hp;
pub mod inventory;
pub mod level;
pub mod mouse;
pub mod portal;
pub mod robot;
pub mod team;
pub mod util;
pub mod vec2i;
