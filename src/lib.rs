//! A fixed-point simulation core for a reactor arena: molecules that collide
//! elastically, combine by a fixed table, are scheduled by a level script and
//! are cleared by a swinging weapon.
//!
//! Lengths are kept in thousandths of a pixel and times in microseconds, so
//! every step of the simulation is integer arithmetic, the same on every
//! machine.

pub mod geometry;
pub mod species;
pub mod bodies;
pub mod contact;
pub mod arena;
pub mod timeline;
pub mod resolver;
pub mod motion;
pub mod projectile;
pub mod weapon;
pub mod placement;
pub mod world;
pub mod scoring;
pub mod swing;
pub mod steering;
