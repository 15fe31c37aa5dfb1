//! Deltas between times.
//!
//! A delta is a time difference (current time - comparison time), together with its pace.
use super::pace::{self, spec_split_in_run, Pace};
use crate::model::timing::time::{self, fits_i32, human};
use vstd::prelude::*;

verus! {

/// A single-time time difference (current time - comparison time), with its pace.
#[derive(Clone, Copy, Debug, PartialEq, Eq, Structural)]
pub struct Delta {
    /// The pace of this delta.
    pub pace: Pace,
    /// The difference: current time minus comparison time.
    pub time: time::Time,
}

/// The pace a plain difference `d` denotes: breaking even or gaining time is ahead.
pub open spec fn pace_of_difference(d: int) -> Pace {
    if d <= 0 {
        Pace::Ahead
    } else {
        Pace::Behind
    }
}

impl Default for Delta {
    fn default() -> (d: Self)
        ensures
            d.pace == Pace::Inconclusive,
            d.time@ == 0,
    {
        Delta { pace: Pace::Inconclusive, time: time::Time::zero() }
    }
}

impl Delta {
    /// Gets the pace of this delta.
    pub fn pace(&self) -> (p: Pace)
        ensures
            p == self.pace,
    {
        self.pace
    }

    /// Calculates the delta by comparing `time` to `compared_to`.
    pub fn of_comparison(time: time::Time, compared_to: time::Time) -> (d: Self)
        requires
            fits_i32(time@ - compared_to@),
        ensures
            d.time@ == time@ - compared_to@,
            d.pace == pace_of_difference(time@ - compared_to@),
    {
        let t = time.minus(compared_to);
        let p = if t.into_millis() <= 0 {
            Pace::Ahead
        } else {
            Pace::Behind
        };
        Self { pace: p, time: t }
    }
}

/// A time difference at the split level.
#[derive(Clone, Copy, Debug, PartialEq, Eq, Structural)]
pub struct Split {
    /// The split delta.
    pub split: Delta,
    /// The cumulative run delta.
    pub run: Delta,
}

impl Default for Split {
    fn default() -> (s: Self)
        ensures
            s.split.pace == Pace::Inconclusive && s.split.time@ == 0,
            s.run.pace == Pace::Inconclusive && s.run.time@ == 0,
    {
        Split { split: Delta::default(), run: Delta::default() }
    }
}

impl Split {
    /// Constructs a [Split] delta from two [Delta]s: one representing the split individually,
    /// the other representing the cumulative delta across the run so far.
    pub fn new(split: Delta, run: Delta) -> (s: Self)
        ensures
            s == (Split { split, run }),
    {
        Self { split, run }
    }

    /// Gets the split-in-run pace from this delta.
    pub fn pace(&self) -> (p: pace::SplitInRun)
        ensures
            p == spec_split_in_run(self.split.pace, self.run.pace),
    {
        pace::SplitInRun::new(self.split.pace(), self.run.pace())
    }
}

/// A pair of a time and its delta against comparison.
#[derive(Clone, Copy, Debug, PartialEq, Eq, Structural)]
pub struct Time {
    /// The delta.
    pub delta: Delta,
    /// The time to which `delta` applies.
    pub time: time::Time,
}

impl Time {
    /// Calculates the delta by comparing `time` to `compared_to`, and attaches it to `time`.
    pub fn of_comparison(time: time::Time, compared_to: time::Time) -> (t: Self)
        requires
            fits_i32(time@ - compared_to@),
        ensures
            t.time == time,
            t.delta.time@ == time@ - compared_to@,
            t.delta.pace == pace_of_difference(time@ - compared_to@),
    {
        let delta = Delta::of_comparison(time, compared_to);
        Time { delta, time }
    }

    /// Reconstitutes the comparison time by applying the delta to the attempt time.
    pub fn comparison(&self) -> (c: time::Time)
        requires
            fits_i32(self.time@ - self.delta.time@),
        ensures
            c@ == self.time@ - self.delta.time@,
    {
        self.time.minus(self.delta.time)
    }

    /// Extracts the pace and time from this [Time] and puts them together.
    pub fn paced_time(&self) -> (p: pace::PacedTime)
        ensures
            p.pace == self.delta.pace,
            p.time == human::spec_from_millis(self.time.0),
    {
        pace::PacedTime { pace: self.delta.pace(), time: human::Time::from_millis(self.time.into_millis()) }
    }
}

/// Reconstituting the comparison time from a delta taken against it gives it back.
pub proof fn law_comparison_roundtrip(time: time::Time, compared_to: time::Time)
    requires
        fits_i32(time@ - compared_to@),
    ensures
        fits_i32(time@ - (time@ - compared_to@)),
        time@ - (time@ - compared_to@) == compared_to@,
{
}

} // verus!
