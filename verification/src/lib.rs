//! Verified core of a small 2D game: integer world-coordinate geometry,
//! keyboard-driven movement, a camera that follows the player, click
//! detection against sprite bounding boxes, a dropdown that appears on
//! click, a repeating tick timer, and a wall-clock readout of the run time.
//!
//! The game engine's frame loop, rendering and input polling live outside
//! this crate; they hand these functions plain values (coordinates already
//! scaled to whole world units, key states, elapsed milliseconds) and apply
//! the decisions these functions return.

pub mod geometry;
pub mod movement;
pub mod camera;
pub mod click;
pub mod dropdown;
pub mod timer;
pub mod clock;
pub mod world;
