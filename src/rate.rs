use vstd::prelude::*;

verus! {

/// A frame rate as an exact fraction `num / den` of frames per second.
#[derive(Clone, Copy, Debug, PartialEq, Eq, Structural)]
pub struct Rate {
    pub num: u64,
    pub den: u64,
}

impl Rate {
    /// A rate is meaningful only with a non-zero denominator.
    pub open spec fn wf(self) -> bool {
        self.den > 0
    }

    /// `self < other` as fractions.
    pub open spec fn lt(self, other: Rate) -> bool {
        (self.num as int) * (other.den as int) < (other.num as int) * (self.den as int)
    }

    /// Exact comparison of two rates by cross multiplication.
    pub fn less_than(&self, other: &Rate) -> (r: bool)
        ensures
            r == self.lt(*other),
    {
        let a = self.num as u128;
        let b = other.den as u128;
        let c = other.num as u128;
        let d = self.den as u128;
        proof {
            assert(a * b <= 0xffff_ffff_ffff_ffffu128 * 0xffff_ffff_ffff_ffffu128) by (nonlinear_arith)
                requires a <= 0xffff_ffff_ffff_ffffu128, b <= 0xffff_ffff_ffff_ffffu128;
            assert(c * d <= 0xffff_ffff_ffff_ffffu128 * 0xffff_ffff_ffff_ffffu128) by (nonlinear_arith)
                requires c <= 0xffff_ffff_ffff_ffffu128, d <= 0xffff_ffff_ffff_ffffu128;
        }
        a * b < c * d
    }
}

} // verus!
