//! Verified simulation core of a 2D rectangle platformer.
//!
//! The library models positions, sizes and velocities as integer world
//! units and frame times as integer milliseconds, and proves the per-frame
//! rules of the game: entity physics, the grab/carry/throw protocol, the
//! collision resolver against axis-aligned rectangles, the combat and
//! cleanup pass, and the camera follow.  Rendering, input polling and
//! timing live outside the library and hand it plain values.

pub mod baddies;
pub mod blocks;
pub mod camera;
pub mod constants;
pub mod game;
pub mod geom;
pub mod items;
pub mod laws;
pub mod level;
pub mod num;
pub mod physics;
pub mod player;
mod rng;
