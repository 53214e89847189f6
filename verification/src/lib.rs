//! Movable, drawable entities of a small arcade-style shooter: a player ship,
//! upward-flying shots, and enemies with interchangeable sprites.
//!
//! Geometry is fixed-point: positions are measured in micro-units
//! (one drawing unit is 1_000_000 micro-units) and time in milliseconds,
//! so every movement computation is exact integer arithmetic.
//! Rendering and asset loading are left to the caller, which receives
//! plain draw commands describing what to put where.

pub mod entities;
pub mod geometry;
pub mod laws;
