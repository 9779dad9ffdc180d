use vstd::prelude::*;
use crate::exact::{Exact, ExactView};
use crate::zone::decimal;

verus! {

/// A reference ellipsoid of the conversion.
#[derive(Clone, Copy, Debug, PartialEq, Eq, Structural)]
pub enum Ellipsoid {
    /// Clarke 1880 IGN, the ellipsoid of the historical NTF datum.
    ClarkeIgn,
    /// WGS84, also that of Lambert 93 (IERS).
    Wgs84,
}

/// A meridian from which longitudes are counted.
#[derive(Clone, Copy, Debug, PartialEq, Eq, Structural)]
pub enum Meridian {
    Paris,
    Greenwich,
    Iers,
}

/// A translation of Cartesian coordinates, in meters.
#[derive(Clone, Copy, Debug, PartialEq, Eq, Structural)]
pub struct Translation {
    pub dx: i32,
    pub dy: i32,
    pub dz: i32,
}

/// The semi-major axis `a` of an ellipsoid, in meters.
pub open spec fn axis_of(ellipsoid: Ellipsoid) -> ExactView {
    match ellipsoid {
        Ellipsoid::ClarkeIgn => decimal(63782492, 10),
        Ellipsoid::Wgs84 => decimal(6378137, 1),
    }
}

/// The first eccentricity `e` of an ellipsoid.
pub open spec fn eccentricity_of(ellipsoid: Ellipsoid) -> ExactView {
    match ellipsoid {
        Ellipsoid::ClarkeIgn => decimal(8248325676, 100000000000),
        Ellipsoid::Wgs84 => decimal(8181919106, 100000000000),
    }
}

/// The longitude of a central meridian, in radians.
pub open spec fn longitude_of(meridian: Meridian) -> ExactView {
    match meridian {
        Meridian::Paris => decimal(0, 1),
        Meridian::Greenwich => decimal(4079234433, 100000000000),
        Meridian::Iers => ExactView { pi_power: 1, num: 3, den: 180 },
    }
}

/// The shift from the NTF datum to WGS84, translation only.
pub open spec fn ntf_shift() -> Translation {
    Translation { dx: -168i32, dy: -60i32, dz: 320 }
}

/// The tolerance at which the latitude iterations stop.
pub open spec fn tolerance() -> ExactView {
    decimal(1, 1000000000000000)
}

/// The semi-major axis of `ellipsoid`, in meters.
pub fn semi_major_axis(ellipsoid: Ellipsoid) -> (r: Exact)
    ensures
        r.wf(),
        r@ == axis_of(ellipsoid),
{
    match ellipsoid {
        Ellipsoid::ClarkeIgn => Exact { pi_power: 0, num: 63782492, den: 10 },
        Ellipsoid::Wgs84 => Exact { pi_power: 0, num: 6378137, den: 1 },
    }
}

/// The first eccentricity of `ellipsoid`, a number strictly between zero and one.
pub fn eccentricity(ellipsoid: Ellipsoid) -> (r: Exact)
    ensures
        r.wf(),
        r@ == eccentricity_of(ellipsoid),
        0 < r@.num < r@.den,
{
    let num: i64 = match ellipsoid {
        Ellipsoid::ClarkeIgn => 8248325676,
        Ellipsoid::Wgs84 => 8181919106,
    };
    Exact { pi_power: 0, num, den: 100000000000 }
}

/// The longitude of `meridian`, in radians.
pub fn meridian_longitude(meridian: Meridian) -> (r: Exact)
    ensures
        r.wf(),
        r@ == longitude_of(meridian),
{
    match meridian {
        Meridian::Paris => Exact { pi_power: 0, num: 0, den: 1 },
        Meridian::Greenwich => Exact { pi_power: 0, num: 4079234433, den: 100000000000 },
        Meridian::Iers => Exact { pi_power: 1, num: 3, den: 180 },
    }
}

/// The NTF to WGS84 translation, in meters.
pub fn ntf_to_wgs84() -> (r: Translation)
    ensures
        r == ntf_shift(),
{
    Translation { dx: -168, dy: -60, dz: 320 }
}

/// The tolerance at which the latitude iterations stop, in radians.
pub fn default_eps() -> (r: Exact)
    ensures
        r.wf(),
        r@ == tolerance(),
{
    Exact { pi_power: 0, num: 1, den: 1000000000000000 }
}

} // verus!
