use vstd::prelude::*;

verus! {

/// The mathematical value of an [`Exact`]: `num / den * pi^pi_power`.
pub struct ExactView {
    pub pi_power: int,
    pub num: int,
    pub den: int,
}

impl ExactView {
    pub open spec fn one() -> ExactView {
        ExactView { pi_power: 0, num: 1, den: 1 }
    }

    pub open spec fn times(self, other: ExactView) -> ExactView {
        ExactView {
            pi_power: self.pi_power + other.pi_power,
            num: self.num * other.num,
            den: self.den * other.den,
        }
    }

    /// Division by a positive value.
    pub open spec fn over(self, other: ExactView) -> ExactView
        recommends
            other.num > 0,
    {
        ExactView {
            pi_power: self.pi_power - other.pi_power,
            num: self.num * other.den,
            den: self.den * other.num,
        }
    }

    /// Both stand for the same real number (compared with the same power of pi).
    pub open spec fn equals(self, other: ExactView) -> bool {
        &&& self.pi_power == other.pi_power
        &&& self.num * other.den == other.num * self.den
    }

    pub open spec fn is_one(self) -> bool {
        self.equals(ExactView::one())
    }
}

/// A real constant held without rounding, as a rational multiple of a
/// power of pi. Floating-point code evaluates it at the precision it needs.
#[derive(Clone, Copy, Debug, PartialEq, Eq, Structural)]
pub struct Exact {
    pub pi_power: i8,
    pub num: i64,
    pub den: u64,
}

impl View for Exact {
    type V = ExactView;

    open spec fn view(&self) -> ExactView {
        ExactView { pi_power: self.pi_power as int, num: self.num as int, den: self.den as int }
    }
}

impl Exact {
    /// A denominator of zero stands for no number.
    pub open spec fn wf(self) -> bool {
        self.den > 0
    }
}

} // verus!
