//! Structs and functions for pace computation.
use crate::model::timing::time::human::{self, signed_millis};
use vstd::prelude::*;

verus! {

/// Possible paces for a split or run.
#[derive(Clone, Copy, Debug, PartialEq, Eq, Structural, PartialOrd, Ord, Hash)]
pub enum Pace {
    /// There is no comparison for this time.
    Inconclusive,
    /// Time is behind its comparison.
    Behind,
    /// Time is ahead (or breaking even on) its comparison.
    Ahead,
    /// Time is a personal best ('gold split').
    PersonalBest,
}

/// The default pace is inconclusive.
impl Default for Pace {
    fn default() -> (p: Self)
        ensures
            p == Pace::Inconclusive,
    {
        Self::Inconclusive
    }
}

impl Pace {
    /// Calculates the pace by comparing `time` to `compared_to`: `Ahead` when `time` is no
    /// later than `compared_to`, `Behind` otherwise.
    pub fn of_comparison(time: human::Time, compared_to: human::Time) -> (p: Self)
        ensures
            p == (if signed_millis(time) <= signed_millis(compared_to) {
                Pace::Ahead
            } else {
                Pace::Behind
            }),
    {
        if time.signed_total() <= compared_to.signed_total() {
            Self::Ahead
        } else {
            Self::Behind
        }
    }
}

/// A pair of a time and its pace against comparison.
#[derive(Clone, Copy, Debug, PartialEq, Eq, Structural)]
pub struct PacedTime {
    /// The pace.
    pub pace: Pace,
    /// The time to which `pace` applies.
    pub time: human::Time,
}

impl Default for PacedTime {
    fn default() -> (p: Self)
        ensures
            p.pace == Pace::Inconclusive,
            p.time == human::zero_time(),
    {
        PacedTime { pace: Pace::Inconclusive, time: human::Time::default() }
    }
}

impl PacedTime {
    /// Shorthand for wrapping a time in a `Pace::Inconclusive` paced time.
    pub fn inconclusive(time: human::Time) -> (p: Self)
        ensures
            p == (PacedTime { pace: Pace::Inconclusive, time }),
    {
        Self { pace: Pace::Inconclusive, time }
    }

    /// Shorthand for wrapping a time in a `Pace::PersonalBest` paced time.
    pub fn personal_best(time: human::Time) -> (p: Self)
        ensures
            p == (PacedTime { pace: Pace::PersonalBest, time }),
    {
        Self { pace: Pace::PersonalBest, time }
    }

    /// Calculates the pace by comparing `time` to `compared_to`.
    pub fn of_comparison(time: human::Time, compared_to: human::Time) -> (p: Self)
        ensures
            p.time == time,
            p.pace == (if signed_millis(time) <= signed_millis(compared_to) {
                Pace::Ahead
            } else {
                Pace::Behind
            }),
    {
        Self { pace: Pace::of_comparison(time, compared_to), time }
    }
}

/// Combined pace note for a split in the context of a run in progress.
///
/// These note the pace of a run, as well as how the current split has affected it.
#[derive(Clone, Copy, Debug, PartialEq, Eq, Structural, Hash)]
pub enum SplitInRun {
    /// There is no pacing time.
    Inconclusive,
    /// The split is a personal best ('gold split').
    SplitPersonalBest,
    /// The run is behind, and we lost time on the given split.
    BehindAndLosing,
    /// The run is behind, but we gained time (or broke even) on the given split.
    BehindAndGaining,
    /// The run is ahead, but we lost time on the given split.
    AheadAndLosing,
    /// The run is ahead, and we gained time (or broke even) on the given split.
    AheadAndGaining,
}

/// The default split-in-run pace is inconclusive.
impl Default for SplitInRun {
    fn default() -> (p: Self)
        ensures
            p == SplitInRun::Inconclusive,
    {
        Self::Inconclusive
    }
}

/// The split-in-run pace note for a `split` pace and a `run_so_far` pace.
pub open spec fn spec_split_in_run(split: Pace, run_so_far: Pace) -> SplitInRun {
    match (split, run_so_far) {
        (Pace::Inconclusive, _) => SplitInRun::Inconclusive,
        (_, Pace::Inconclusive) => SplitInRun::Inconclusive,
        (Pace::PersonalBest, _) => SplitInRun::SplitPersonalBest,
        (Pace::Behind, Pace::Behind) => SplitInRun::BehindAndLosing,
        (Pace::Ahead, Pace::Behind) => SplitInRun::BehindAndGaining,
        (Pace::Behind, _) => SplitInRun::AheadAndLosing,
        (Pace::Ahead, _) => SplitInRun::AheadAndGaining,
    }
}

/// The overall pace of a run, given its split-in-run pace note.
pub open spec fn spec_overall(p: SplitInRun) -> Pace {
    match p {
        SplitInRun::Inconclusive => Pace::Inconclusive,
        SplitInRun::SplitPersonalBest => Pace::Ahead,
        SplitInRun::AheadAndGaining => Pace::Ahead,
        SplitInRun::AheadAndLosing => Pace::Ahead,
        SplitInRun::BehindAndLosing => Pace::Behind,
        SplitInRun::BehindAndGaining => Pace::Behind,
    }
}

impl SplitInRun {
    /// Constructs a split-in-run pace note from a `split` and `run_so_far` pace.
    pub fn new(split: Pace, run_so_far: Pace) -> (p: Self)
        ensures
            p == spec_split_in_run(split, run_so_far),
    {
        match (split, run_so_far) {
            (Pace::Inconclusive, _) | (_, Pace::Inconclusive) => Self::Inconclusive,
            (Pace::PersonalBest, _) => Self::SplitPersonalBest,
            (Pace::Behind, Pace::Behind) => Self::BehindAndLosing,
            (Pace::Ahead, Pace::Behind) => Self::BehindAndGaining,
            (Pace::Behind, Pace::Ahead) | (Pace::Behind, Pace::PersonalBest) => Self::AheadAndLosing,
            (Pace::Ahead, Pace::Ahead) | (Pace::Ahead, Pace::PersonalBest) => Self::AheadAndGaining,
        }
    }

    /// Extracts the overall pace note from a split-in-run pace.
    pub fn overall(self) -> (p: Pace)
        ensures
            p == spec_overall(self),
    {
        match self {
            SplitInRun::Inconclusive => Pace::Inconclusive,
            SplitInRun::SplitPersonalBest | SplitInRun::AheadAndGaining
            | SplitInRun::AheadAndLosing => Pace::Ahead,
            SplitInRun::BehindAndLosing | SplitInRun::BehindAndGaining => Pace::Behind,
        }
    }
}

/// For a split that is merely ahead or behind, within a run that is ahead or behind, the
/// overall pace of the combined note is the pace of the run so far.
pub proof fn law_overall_is_run_pace(split: Pace, run_so_far: Pace)
    requires
        split == Pace::Ahead || split == Pace::Behind,
        run_so_far == Pace::Ahead || run_so_far == Pace::Behind,
    ensures
        spec_overall(spec_split_in_run(split, run_so_far)) == run_so_far,
{
}

/// Whenever either pace is inconclusive, so is the combined note, and only then.
pub proof fn law_inconclusive(split: Pace, run_so_far: Pace)
    ensures
        (spec_split_in_run(split, run_so_far) == SplitInRun::Inconclusive) <==> (split
            == Pace::Inconclusive || run_so_far == Pace::Inconclusive),
{
}


/// The overall pace is inconclusive exactly when the split-in-run note is; so a note made
/// from an inconclusive split or run pace has an inconclusive overall pace.
pub proof fn law_overall_inconclusive(p: SplitInRun, split: Pace, run_so_far: Pace)
    ensures
        (spec_overall(p) == Pace::Inconclusive) <==> (p == SplitInRun::Inconclusive),
        (split == Pace::Inconclusive || run_so_far == Pace::Inconclusive) ==> spec_overall(
            spec_split_in_run(split, run_so_far),
        ) == Pace::Inconclusive,
{
}

} // verus!
