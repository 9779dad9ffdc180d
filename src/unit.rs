use vstd::prelude::*;
use crate::exact::{Exact, ExactView};

verus! {

/// What the `x` and `y` coordinates of a point measure.
///
/// `Meter` marks planar projection coordinates that have not been
/// projected yet; it is no unit of angle.
#[derive(Clone, Copy, Debug, PartialEq, Eq, Structural)]
pub enum AngleUnit {
    Radian,
    Degree,
    Grad,
    Meter,
}

/// Whether a point tagged `unit` holds planar coordinates rather than angles.
pub fn is_projected_coordinates(unit: AngleUnit) -> (r: bool)
    ensures
        r == (unit == AngleUnit::Meter),
{
    match unit {
        AngleUnit::Meter => true,
        _ => false,
    }
}

/// The measure of a half turn in an angular unit.
pub open spec fn half_turn(unit: AngleUnit) -> ExactView {
    match unit {
        AngleUnit::Radian => ExactView { pi_power: 1, num: 1, den: 1 },
        AngleUnit::Degree => ExactView { pi_power: 0, num: 180, den: 1 },
        AngleUnit::Grad => ExactView { pi_power: 0, num: 200, den: 1 },
        AngleUnit::Meter => ExactView::one(),
    }
}

/// The multiplier that rescales an angle from `from` to `to`; any pair
/// that involves `Meter` leaves the coordinates as they are.
pub open spec fn conversion(from: AngleUnit, to: AngleUnit) -> ExactView {
    if from == AngleUnit::Meter || to == AngleUnit::Meter {
        ExactView::one()
    } else {
        half_turn(to).over(half_turn(from))
    }
}

/// The multiplier that rescales the `x` and `y` of a point from `from` to `to`.
pub fn factor(from: AngleUnit, to: AngleUnit) -> (r: Exact)
    ensures
        r.wf(),
        r@.equals(conversion(from, to)),
{
    match (from, to) {
        (AngleUnit::Degree, AngleUnit::Degree) => Exact { pi_power: 0, num: 1, den: 1 },
        (AngleUnit::Radian, AngleUnit::Radian) => Exact { pi_power: 0, num: 1, den: 1 },
        (AngleUnit::Grad, AngleUnit::Grad) => Exact { pi_power: 0, num: 1, den: 1 },
        (AngleUnit::Degree, AngleUnit::Radian) => Exact { pi_power: 1, num: 1, den: 180 },
        (AngleUnit::Radian, AngleUnit::Degree) => Exact { pi_power: -1, num: 180, den: 1 },
        (AngleUnit::Grad, AngleUnit::Radian) => Exact { pi_power: 1, num: 1, den: 200 },
        (AngleUnit::Radian, AngleUnit::Grad) => Exact { pi_power: -1, num: 200, den: 1 },
        (AngleUnit::Degree, AngleUnit::Grad) => Exact { pi_power: 0, num: 200, den: 180 },
        (AngleUnit::Grad, AngleUnit::Degree) => Exact { pi_power: 0, num: 180, den: 200 },
        _ => Exact { pi_power: 0, num: 1, den: 1 },
    }
}

/// Converting an angle to another unit and back multiplies it by exactly one.
pub proof fn lemma_conversion_round_trip(a: AngleUnit, b: AngleUnit)
    ensures
        conversion(a, b).times(conversion(b, a)).is_one(),
{
    if a != AngleUnit::Meter && b != AngleUnit::Meter {
        let (x, y) = (half_turn(a), half_turn(b));
        assert(x.den == 1 && y.den == 1);
        assert((y.num * x.den) * (x.num * y.den) == (y.den * x.num) * (x.den * y.num))
            by (nonlinear_arith)
            requires
                x.den == 1,
                y.den == 1,
        ;
    }
}

/// Converting between angular units in two steps is the same as converting
/// directly.
pub proof fn lemma_conversion_chain(a: AngleUnit, b: AngleUnit, c: AngleUnit)
    requires
        a != AngleUnit::Meter,
        b != AngleUnit::Meter,
        c != AngleUnit::Meter,
    ensures
        conversion(a, b).times(conversion(b, c)).equals(conversion(a, c)),
{
    let (x, y, z) = (half_turn(a), half_turn(b), half_turn(c));
    assert(x.den == 1 && y.den == 1 && z.den == 1);
    assert(((y.num * x.den) * (z.num * y.den)) * (z.den * x.num) == (z.num * x.den) * ((y.den
        * x.num) * (z.den * y.num))) by (nonlinear_arith)
        requires
            x.den == 1,
            y.den == 1,
            z.den == 1,
    ;
}

} // verus!
