//! Logic core of a turn-based tactical game on a rectangular grid.
//!
//! The crate tracks the state of every grid cell (type, attributes, per-edge
//! occupancy), a small set of controllable units, and a single active
//! selection, and turns pointer-selection events into committed unit
//! movement.  Rendering, input picking and camera control are external
//! collaborators: they feed plain event values in and read plain state
//! values out.

pub mod attributes;
pub mod grid;
pub mod selection;
pub mod session;
