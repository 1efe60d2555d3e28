//! Exact fractions with a positive denominator.

use vstd::prelude::*;

verus! {

/// The mathematical value `num / den` that a [`Ratio`] stands for.
pub struct Rational {
    pub num: int,
    pub den: int,
}

impl Rational {
    /// The fraction denotes the whole number `k`.
    pub open spec fn is_integer(self, k: int) -> bool {
        self.num == k * self.den
    }
}

/// A fraction `num / den` whose denominator is never zero.
///
/// Fractions are kept as they were formed and never reduced: the
/// denominator of a device coordinate is the surface extent it was
/// normalised by.
#[derive(Clone, Copy, Debug, PartialEq, Eq, Structural)]
pub struct Ratio {
    num: i64,
    den: u32,
}

impl View for Ratio {
    type V = Rational;

    closed spec fn view(&self) -> Rational {
        Rational { num: self.num as int, den: self.den as int }
    }
}

impl Ratio {
    #[verifier::type_invariant]
    closed spec fn positive_denominator(self) -> bool {
        self.den > 0
    }

    /// `num / den`, or `None` when the denominator is zero.
    pub fn new(num: i64, den: u32) -> (r: Option<Ratio>)
        ensures
            den == 0 <==> r is None,
            r matches Some(q) ==> q@ == (Rational { num: num as int, den: den as int }),
    {
        if den == 0 {
            None
        } else {
            Some(Ratio { num, den })
        }
    }

    /// `num / den` for a denominator that is known to be positive.
    pub fn over(num: i64, den: u32) -> (r: Ratio)
        requires
            den > 0,
        ensures
            r@ == (Rational { num: num as int, den: den as int }),
    {
        Ratio { num, den }
    }

    /// The numerator.
    pub fn numerator(&self) -> (n: i64)
        ensures
            n == self@.num,
    {
        self.num
    }

    /// The denominator, which is positive.
    pub fn denominator(&self) -> (d: u32)
        ensures
            d == self@.den,
            d > 0,
    {
        proof {
            use_type_invariant(self);
        }
        self.den
    }
}

} // verus!
