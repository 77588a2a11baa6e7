//! Flight dynamics and autonomous targeting for simulated agents.
//!
//! Quantities are single-precision numbers held by their bit patterns. The
//! library decides: which waypoint an agent seeks, where a tracked agent is
//! expected, how hard it may push along a direction, and when a step is
//! skipped. The arithmetic between those decisions belongs to the caller.

pub mod camera;
pub mod entity;
pub mod physics;
pub mod route;
pub mod scalar;
pub mod ship;
pub mod tracking;
pub mod vector;
