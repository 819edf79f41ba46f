//! The one value that drives a frame.
use vstd::prelude::*;
use crate::units::{UNIT, within_one};

verus! {

/// Sine and cosine of the time that has passed, each in millionths.
///
/// A phase is made by [`Phase::new`] alone, so neither count ever leaves the
/// range from minus one to one.
#[derive(Clone, Copy, Debug, PartialEq, Eq)]
pub struct Phase {
    sin: i64,
    cos: i64,
}

impl Phase {
    #[verifier::type_invariant]
    spec fn bounded(self) -> bool {
        within_one(self.sin as int) && within_one(self.cos as int)
    }

    /// The sine, as a mathematical integer.
    pub closed spec fn sine(self) -> int {
        self.sin as int
    }

    /// The cosine, as a mathematical integer.
    pub closed spec fn cosine(self) -> int {
        self.cos as int
    }

    /// Both counts are in range. This holds of every phase that a program
    /// can hold; a law about all phases asks for it.
    pub open spec fn wf(self) -> bool {
        within_one(self.sine()) && within_one(self.cosine())
    }

    /// The two counts are the coordinates of a point exactly on the unit
    /// circle.
    pub open spec fn on_unit_circle(self) -> bool {
        self.sine() * self.sine() + self.cosine() * self.cosine() == UNIT * UNIT
    }

    /// Makes a phase of a sine and a cosine, or refuses them when either is
    /// out of range.
    pub fn new(sin: i64, cos: i64) -> (made: Option<Phase>)
        ensures
            made is Some <==> within_one(sin as int) && within_one(cos as int),
            made matches Some(p) ==> p.sine() == sin && p.cosine() == cos && p.wf(),
    {
        if -UNIT <= sin && sin <= UNIT && -UNIT <= cos && cos <= UNIT {
            Some(Phase { sin, cos })
        } else {
            None
        }
    }

    /// The sine, in millionths.
    pub fn sin(&self) -> (count: i64)
        ensures
            count == self.sine(),
            self.wf(),
    {
        proof {
            use_type_invariant(self);
        }
        self.sin
    }

    /// The cosine, in millionths.
    pub fn cos(&self) -> (count: i64)
        ensures
            count == self.cosine(),
            self.wf(),
    {
        proof {
            use_type_invariant(self);
        }
        self.cos
    }
}

} // verus!
