//! Conversion of French Lambert projection coordinates to WGS84.
//!
//! The library holds the exact constants of the projection zones, the
//! ellipsoids and the unit conversions, the plan of stages that takes a
//! planar point to WGS84, and the bounded bookkeeping of the latitude
//! iterations. Floating-point evaluation of the plan happens outside it.
pub mod exact;
pub mod geodesy;
pub mod pipeline;
pub mod solver;
pub mod unit;
pub mod zone;

pub use exact::{Exact, ExactView};
pub use geodesy::{
    default_eps, eccentricity, meridian_longitude, ntf_to_wgs84, semi_major_axis, Ellipsoid,
    Meridian, Translation,
};
pub use pipeline::{projection_plan, Plan, Stage};
pub use solver::{Solver, Step, MAX_ITERATIONS};
pub use unit::{factor, is_projected_coordinates, AngleUnit};
pub use zone::{c, n, xs, ys, Zone};
