//! Classification of tagged map edges into per-mode, per-direction
//! accessibility records.
//!
//! The library takes the free-form `(key, value)` attribute pairs attached to
//! a single map edge and derives, for foot, car, bicycle and train traffic,
//! whether the edge can be traversed in each direction.

pub mod categorize;
pub mod keyval;
pub mod laws;
pub mod text;
