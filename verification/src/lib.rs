//! A verified core for a single-screen block-breaker game.
//!
//! The playfield is modeled in fixed-point integer coordinates: one screen
//! unit is 1000 milli-units, so that every position, size and velocity is a
//! plain `i64` and the per-frame simulation can be specified and proved
//! exactly. The unverified frame loop converts to and from the renderer's
//! floating-point coordinates at the edge.

pub mod config;
pub mod entities;
pub mod game;
pub mod geometry;
pub mod laws;

pub use geometry::Rect;
pub use geometry::Vec2;
