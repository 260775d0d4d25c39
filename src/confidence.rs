use vstd::prelude::*;

verus! {

/// A confidence in `[0, 1]`, held exactly as the fraction `num / den`.
#[derive(Clone, Copy, Debug, PartialEq, Eq, Structural)]
pub struct Confidence {
    pub num: u64,
    pub den: u64,
}

impl Confidence {
    /// Well-formed: a proper fraction with a positive denominator.
    pub open spec fn wf(self) -> bool {
        0 < self.den && self.num <= self.den
    }
}

/// The confidence for a best distance `d1` and, when there was a runner-up, its
/// distance `d2`: full for a perfect match, one half when no runner-up exists, and
/// otherwise `1 - d1 / d2`, clamped to `[0, 1]`.
pub open spec fn confidence_of(d1: u64, d2: Option<u64>) -> Confidence {
    if d1 == 0 {
        Confidence { num: 1, den: 1 }
    } else {
        match d2 {
            None => Confidence { num: 1, den: 2 },
            Some(d) => if d == 0 || d <= d1 {
                Confidence { num: 0, den: 1 }
            } else {
                Confidence { num: (d - d1) as u64, den: d }
            },
        }
    }
}

/// Turns the best and the second-best distance into a confidence.
pub fn calculate_confidence(d1: u64, d2: Option<u64>) -> (r: Confidence)
    ensures
        r == confidence_of(d1, d2),
        r.wf(),
{
    if d1 == 0 {
        Confidence { num: 1, den: 1 }
    } else {
        match d2 {
            None => Confidence { num: 1, den: 2 },
            Some(d) => if d == 0 || d <= d1 {
                Confidence { num: 0, den: 1 }
            } else {
                Confidence { num: d - d1, den: d }
            },
        }
    }
}

} // verus!
