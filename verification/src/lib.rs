//! Positional-tracking engine for an optical lighthouse-style tracking rig.
//!
//! Fixed beacon stations sweep timed light pulses across a room; photodiode
//! sensors on a tracked object report pulse timing, and an external decoder
//! turns that timing into a pulse classification and a decoded angle pair.
//! This crate holds the triangulation and sensor-state engine that consumes
//! those decoded results: it routes classifications, projects decoded angles
//! into world-space rays, intersects ray pairs by closest approach, and keeps
//! a per-sensor table of the last angles and the last computed position fix.
//!
//! All scalar quantities are IEEE 754 single-precision values carried as raw
//! `u32` bit patterns. Arithmetic on them is performed by a software
//! implementation of the IEEE operations; the contracts in this crate describe
//! every computation exactly in terms of those operations.

pub mod decoder;
pub mod device;
pub mod geometry;
pub mod ieee;
pub mod projector;
pub mod tracker;
pub mod triangulate;
