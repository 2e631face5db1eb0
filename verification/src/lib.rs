//! Verified core of a small 2D simulation: a conveyor-belt shape sorter and a
//! tile-builder economy. The simulation state is held in explicit structs and
//! every per-frame pass (clock tick, shape spawning, motion, bin collection,
//! income accrual, panel selection) is a verified function over that state.
//! Rendering, input polling and the host engine stay outside the library.

pub mod clock;
pub mod conveyor;
pub mod economy;
pub mod movement;
pub mod panel;
pub mod shapes;
pub mod text;
pub mod tiles;
