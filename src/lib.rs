//! Homing projectiles on a fixed-step clock: steering with a bounded turn rate,
//! proximity fuses, speed decay after disengagement and the detonations that
//! replace spent projectiles.
//!
//! All quantities are integers. Headings and bearings are binary angles (a full
//! turn is 2^32 units, counter-clockwise positive, heading 0 facing +Y);
//! directions are vectors whose components are scaled by `DIRECTION_SCALE`.
//! The trigonometry that turns positions into bearings and headings into
//! directions belongs to the caller and is handed in as closures.
pub mod angle;
pub mod geometry;
pub mod detonation;
pub mod missile;
pub mod scene;
