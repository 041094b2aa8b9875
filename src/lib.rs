//! The decision logic of a windowed triangle renderer: the render surface
//! controller (surface configuration, readiness, frame planning) and the
//! application event dispatcher that drives it.

pub mod dispatch;
pub mod surface;

pub use dispatch::App;
pub use surface::State;
