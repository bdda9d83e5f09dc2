//! Score thresholds, per performance category and tier.

use vstd::prelude::*;
use crate::util::str_eq;

verus! {

/// One tier's score thresholds, keyed by performance category.
#[derive(Clone, Copy, Debug)]
pub struct Score {
    pub bullet: u16,
    pub super_blitz: u16,
    pub blitz: u16,
    pub rapid: u16,
}

impl Score {
    /// The threshold this tier holds for a performance category; categories
    /// outside the table have none.
    pub open spec fn spec_perf(&self, perf: Seq<char>) -> Option<u16> {
        if perf == "bullet"@ {
            Some(self.bullet)
        } else if perf == "superBlitz"@ {
            Some(self.super_blitz)
        } else if perf == "blitz"@ {
            Some(self.blitz)
        } else if perf == "rapid"@ {
            Some(self.rapid)
        } else {
            None
        }
    }

    /// Looks up the threshold for a performance-category key; an
    /// unrecognized key yields `None`.
    pub fn perf(&self, perf: &str) -> (r: Option<u16>)
        ensures
            r == self.spec_perf(perf@),
    {
        if str_eq(perf, "bullet") {
            Some(self.bullet)
        } else if str_eq(perf, "superBlitz") {
            Some(self.super_blitz)
        } else if str_eq(perf, "blitz") {
            Some(self.blitz)
        } else if str_eq(perf, "rapid") {
            Some(self.rapid)
        } else {
            None
        }
    }
}

/// The three score tiers, in increasing strictness; supplied once at startup
/// and immutable for the process lifetime.
#[derive(Clone, Copy, Debug)]
pub struct SusScore {
    pub low: Score,
    pub medium: Score,
    pub high: Score,
}

impl SusScore {
    /// The tiers are ordered: within each performance category the low
    /// threshold is at most the medium one, which is at most the high one.
    pub open spec fn wf(&self) -> bool {
        &&& self.low.bullet <= self.medium.bullet <= self.high.bullet
        &&& self.low.super_blitz <= self.medium.super_blitz <= self.high.super_blitz
        &&& self.low.blitz <= self.medium.blitz <= self.high.blitz
        &&& self.low.rapid <= self.medium.rapid <= self.high.rapid
    }
}

} // verus!
