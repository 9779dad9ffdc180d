use vstd::prelude::*;
use crate::exact::{Exact, ExactView};

verus! {

/// A French Lambert conformal conic projection zone.
#[derive(Clone, Copy, Debug, PartialEq, Eq, Structural)]
pub enum Zone {
    LambertI,
    LambertII,
    LambertIII,
    LambertIV,
    LambertIIe,
    Lambert93,
}

/// The rational number `num / den`.
pub open spec fn decimal(num: int, den: int) -> ExactView {
    ExactView { pi_power: 0, num, den }
}

/// The cone exponent `n` of a zone.
pub open spec fn cone_exponent(zone: Zone) -> ExactView {
    match zone {
        Zone::LambertI => decimal(7604059656, 10000000000),
        Zone::LambertII => decimal(7289686274, 10000000000),
        Zone::LambertIII => decimal(6959127966, 10000000000),
        Zone::LambertIV => decimal(6712679322, 10000000000),
        Zone::LambertIIe => decimal(7289686274, 10000000000),
        Zone::Lambert93 => decimal(7256077650, 10000000000),
    }
}

/// The projection radius constant `c` of a zone, in meters.
pub open spec fn cone_constant(zone: Zone) -> ExactView {
    match zone {
        Zone::LambertI => decimal(1160379698, 100),
        Zone::LambertII => decimal(1174579339, 100),
        Zone::LambertIII => decimal(1194799252, 100),
        Zone::LambertIV => decimal(1213628199, 100),
        Zone::LambertIIe => decimal(1174579339, 100),
        Zone::Lambert93 => decimal(11754255426, 1000),
    }
}

/// The false easting `x_s` of a zone, in meters.
pub open spec fn false_easting(zone: Zone) -> ExactView {
    match zone {
        Zone::LambertIV => decimal(234358, 1000),
        Zone::Lambert93 => decimal(700000, 1),
        _ => decimal(600000, 1),
    }
}

/// The false northing `y_s` of a zone, in meters.
pub open spec fn false_northing(zone: Zone) -> ExactView {
    match zone {
        Zone::LambertI => decimal(5657616674, 1000),
        Zone::LambertII => decimal(6199695768, 1000),
        Zone::LambertIII => decimal(6791905085, 1000),
        Zone::LambertIV => decimal(7239161542, 1000),
        Zone::LambertIIe => decimal(8199695768, 1000),
        Zone::Lambert93 => decimal(12655612050, 1000),
    }
}

/// The cone exponent of `zone`, a number strictly between zero and one.
pub fn n(zone: Zone) -> (r: Exact)
    ensures
        r.wf(),
        r@ == cone_exponent(zone),
        0 < r@.num < r@.den,
{
    let num: i64 = match zone {
        Zone::LambertI => 7604059656,
        Zone::LambertII => 7289686274,
        Zone::LambertIII => 6959127966,
        Zone::LambertIV => 6712679322,
        Zone::LambertIIe => 7289686274,
        Zone::Lambert93 => 7256077650,
    };
    Exact { pi_power: 0, num, den: 10000000000 }
}

/// The projection radius constant of `zone`, in meters.
pub fn c(zone: Zone) -> (r: Exact)
    ensures
        r.wf(),
        r@ == cone_constant(zone),
        r@.num > 0,
{
    match zone {
        Zone::LambertI => Exact { pi_power: 0, num: 1160379698, den: 100 },
        Zone::LambertII => Exact { pi_power: 0, num: 1174579339, den: 100 },
        Zone::LambertIII => Exact { pi_power: 0, num: 1194799252, den: 100 },
        Zone::LambertIV => Exact { pi_power: 0, num: 1213628199, den: 100 },
        Zone::LambertIIe => Exact { pi_power: 0, num: 1174579339, den: 100 },
        Zone::Lambert93 => Exact { pi_power: 0, num: 11754255426, den: 1000 },
    }
}

/// The false easting of `zone`, in meters.
pub fn xs(zone: Zone) -> (r: Exact)
    ensures
        r.wf(),
        r@ == false_easting(zone),
        r@.num > 0,
{
    match zone {
        Zone::LambertIV => Exact { pi_power: 0, num: 234358, den: 1000 },
        Zone::Lambert93 => Exact { pi_power: 0, num: 700000, den: 1 },
        _ => Exact { pi_power: 0, num: 600000, den: 1 },
    }
}

/// The false northing of `zone`, in meters.
pub fn ys(zone: Zone) -> (r: Exact)
    ensures
        r.wf(),
        r@ == false_northing(zone),
        r@.num > 0,
{
    let num: i64 = match zone {
        Zone::LambertI => 5657616674,
        Zone::LambertII => 6199695768,
        Zone::LambertIII => 6791905085,
        Zone::LambertIV => 7239161542,
        Zone::LambertIIe => 8199695768,
        Zone::Lambert93 => 12655612050,
    };
    Exact { pi_power: 0, num, den: 1000 }
}

} // verus!
