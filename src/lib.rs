//! Orientation state for an interactive model viewer.
//!
//! Angles are held in fixed point: one unit is a nanoradian. Pointer
//! positions and deltas are in milli-pixels, and frame time is in
//! microseconds. The host converts from its own float values at the edge.
pub mod angle;
pub mod asset;
pub mod input;
pub mod orientation;
