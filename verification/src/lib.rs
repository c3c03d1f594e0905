//! Interactive control core of a real-time 3D viewer.
//!
//! The crate drives a fixed-timestep simulation: it turns raw input events
//! into camera motion, owns the run/pause/step loop state machine, and
//! composes the projective transform pipeline that maps world geometry to
//! screen space. Rendering, windowing and mesh loading are external
//! collaborators; a thin unverified driver supplies events and performs the
//! actual drawing.
//!
//! All arithmetic is exact: angles, speeds and coordinates are fixed-point
//! integers in sub-units of `1 / SCALE` (see [`config::SCALE`]), and
//! transforms are integer matrices understood projectively, so every contract
//! below pins its result down to the last sub-unit.

pub mod camera;
pub mod config;
pub mod driver;
pub mod input;
pub mod transform;
pub mod world;
