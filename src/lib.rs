//! Integer core of a Monte Carlo path tracer for scenes of spheres: the
//! decisions of the integrator, the choice of the nearest hit in a scene, the
//! mapping of a color channel to its display byte and the PPM encoding of the
//! finished pixel grid.
pub mod camera;
pub mod color;
pub mod common;
pub mod integrator;
pub mod ppm;
pub mod scene;
