//! Exact pixel coordinates.
//!
//! Every coordinate the renderer produces is a rational number with a small,
//! per-render denominator (the vertical price range, or ten times the bar
//! count).  Keeping the division symbolic makes the layout promises exact:
//! two coordinates over the same denominator compare by their numerators.

use vstd::prelude::*;

verus! {

/// The rational number `num / den`.  Well-formed values have `den > 0`.
#[derive(Clone, Copy, Debug, PartialEq, Eq, Structural)]
pub struct Frac {
    pub num: i128,
    pub den: i128,
}

impl Frac {
    pub open spec fn wf(self) -> bool {
        self.den > 0
    }

    /// `self <= other` as rational numbers (both well-formed).
    pub open spec fn le(self, other: Frac) -> bool {
        self.num * other.den <= other.num * self.den
    }

    /// `self < other` as rational numbers (both well-formed).
    pub open spec fn lt(self, other: Frac) -> bool {
        self.num * other.den < other.num * self.den
    }

    /// The whole number `w` as a fraction over denominator one.
    pub fn whole(w: i64) -> (r: Frac)
        ensures
            r.num == w,
            r.den == 1,
    {
        Frac { num: w as i128, den: 1 }
    }
}

} // verus!
