//! Core simulation logic for a small grid-based arcade game: a tile map of
//! walls, grid-snapped movement with wall collision, a single-slot queue of
//! pending direction changes, and a camera that eases toward a soft bounding
//! box around the tracked entity.
//!
//! Positions are whole world units (pixels); one grid cell is 32 by 32 units.
//! The host loop owns the clock and the window: it drains keyboard events,
//! then calls the per-tick entry points in order (direction gate, motion,
//! camera) with plain integer values.

pub mod camera;
pub mod level;
pub mod motion;
pub mod player;
pub mod vec3;
