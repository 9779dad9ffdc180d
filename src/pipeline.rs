use vstd::prelude::*;
use crate::geodesy::{ntf_shift, ntf_to_wgs84, Ellipsoid, Meridian, Translation};
use crate::unit::{is_projected_coordinates, AngleUnit};
use crate::zone::Zone;

verus! {

/// One step of the conversion from a Lambert plane to WGS84.
#[derive(Clone, Copy, Debug, PartialEq, Eq, Structural)]
pub enum Stage {
    /// Inverse Lambert projection of `zone` onto `ellipsoid`, longitudes
    /// counted from `meridian`; the height passes through.
    PlaneToGeographic { zone: Zone, meridian: Meridian, ellipsoid: Ellipsoid },
    /// Geographic coordinates on `ellipsoid` to Cartesian coordinates.
    GeographicToCartesian { ellipsoid: Ellipsoid },
    /// A fixed translation of Cartesian coordinates.
    Translate { shift: Translation },
    /// Cartesian coordinates to geographic ones on `ellipsoid`, longitudes
    /// counted from `meridian`.
    CartesianToGeographic { meridian: Meridian, ellipsoid: Ellipsoid },
}

/// The stages that take a point tagged `unit` in `zone` to WGS84, with
/// `shift` as the datum translation.
///
/// A point that is not tagged `Meter` is already geographic and is left as
/// it is. Lambert 93 lies on a WGS84-compatible ellipsoid, so it needs no
/// datum shift; the other zones go through Cartesian coordinates on the
/// Clarke 1880 IGN ellipsoid, are translated, and come back on WGS84.
pub open spec fn stages(unit: AngleUnit, zone: Zone, shift: Translation) -> Seq<Stage> {
    if unit != AngleUnit::Meter {
        seq![]
    } else if zone == Zone::Lambert93 {
        seq![Stage::PlaneToGeographic { zone, meridian: Meridian::Iers, ellipsoid: Ellipsoid::Wgs84 }]
    } else {
        seq![
            Stage::PlaneToGeographic { zone, meridian: Meridian::Paris, ellipsoid: Ellipsoid::ClarkeIgn },
            Stage::GeographicToCartesian { ellipsoid: Ellipsoid::ClarkeIgn },
            Stage::Translate { shift },
            Stage::CartesianToGeographic { meridian: Meridian::Greenwich, ellipsoid: Ellipsoid::Wgs84 },
        ]
    }
}

/// The tag of the point that the stages give back.
pub open spec fn output_unit(unit: AngleUnit) -> AngleUnit {
    if unit == AngleUnit::Meter {
        AngleUnit::Radian
    } else {
        unit
    }
}

/// Whether a sequence of stages holds a datum translation.
pub open spec fn shifts_datum(s: Seq<Stage>) -> bool {
    exists|i: int| 0 <= i < s.len() && s[i] is Translate
}

/// The stages to run, in order, and the tag of the result.
pub struct Plan {
    pub stages: Vec<Stage>,
    pub unit: AngleUnit,
}

/// The plan that converts a point tagged `unit` in `zone` to WGS84.
pub fn projection_plan(unit: AngleUnit, zone: Zone) -> (r: Plan)
    ensures
        r.stages@ == stages(unit, zone, ntf_shift()),
        r.unit == output_unit(unit),
{
    if !is_projected_coordinates(unit) {
        return Plan { stages: Vec::new(), unit };
    }
    let mut steps: Vec<Stage> = Vec::new();
    match zone {
        Zone::Lambert93 => {
            steps.push(
                Stage::PlaneToGeographic { zone, meridian: Meridian::Iers, ellipsoid: Ellipsoid::Wgs84 },
            );
        },
        _ => {
            steps.push(
                Stage::PlaneToGeographic {
                    zone,
                    meridian: Meridian::Paris,
                    ellipsoid: Ellipsoid::ClarkeIgn,
                },
            );
            steps.push(Stage::GeographicToCartesian { ellipsoid: Ellipsoid::ClarkeIgn });
            steps.push(Stage::Translate { shift: ntf_to_wgs84() });
            steps.push(
                Stage::CartesianToGeographic {
                    meridian: Meridian::Greenwich,
                    ellipsoid: Ellipsoid::Wgs84,
                },
            );
        },
    }
    proof {
        assert(steps@ =~= stages(unit, zone, ntf_shift()));
    }
    Plan { stages: steps, unit: AngleUnit::Radian }
}

/// A point that is not tagged `Meter` goes through no stage and keeps its tag.
pub proof fn lemma_identity_unless_meter(unit: AngleUnit, zone: Zone, shift: Translation)
    requires
        unit != AngleUnit::Meter,
    ensures
        stages(unit, zone, shift).len() == 0,
        output_unit(unit) == unit,
{
}

/// Lambert 93 is converted without a datum translation, so its stages do not
/// depend on the translation's constants; every other zone is translated,
/// by exactly the constants given.
pub proof fn lemma_datum_shift_by_zone(zone: Zone, shift: Translation, other: Translation)
    ensures
        zone == Zone::Lambert93 ==> !shifts_datum(stages(AngleUnit::Meter, zone, shift)),
        zone == Zone::Lambert93 ==> stages(AngleUnit::Meter, zone, shift) == stages(
            AngleUnit::Meter,
            zone,
            other,
        ),
        zone != Zone::Lambert93 ==> shifts_datum(stages(AngleUnit::Meter, zone, shift)),
        zone != Zone::Lambert93 ==> (stages(AngleUnit::Meter, zone, shift) == stages(
            AngleUnit::Meter,
            zone,
            other,
        ) <==> shift == other),
{
    let s = stages(AngleUnit::Meter, zone, shift);
    let t = stages(AngleUnit::Meter, zone, other);
    if zone != Zone::Lambert93 {
        assert(s[2] is Translate);
        if s == t {
            assert(s[2] == t[2]);
        }
        if shift == other {
            assert(s =~= t);
        }
    }
}

} // verus!
