//! Parts of the model related to comparisons.
pub mod delta;
pub mod pace;
pub mod provider;
pub mod run;

pub use delta::Delta;
pub use pace::{Pace, PacedTime};
pub use provider::Provider;
pub use run::Run;

use super::aggregate::{self, AggregateSet};
use super::time::{self, fits_i32, Error};
use crate::model::short;
use vstd::prelude::*;

verus! {

/// Comparison data, containing information about split and run personal bests (PBs).
///
/// A comparison contains both per-split and aggregated times.  There is no inherent checking
/// that the former and latter agree.
#[derive(Clone, Debug)]
pub struct Comparison {
    /// Split comparisons.
    pub splits: short::NameMap<Split>,
    /// Precomputed run data.
    pub run: Run,
}

/// Split comparisons: a personal best for the split across all runs (used for 'gold splits'),
/// and the aggregates logged for this split on the comparison run.
#[derive(Clone, Copy, Debug, PartialEq, Eq, Structural)]
pub struct Split {
    /// The personal best for this split.
    ///
    /// Any splits that compare quicker than this time get the `PersonalBest` pace.
    pub split_pb: time::Time,
    /// Timing information for this split in the comparison run.
    pub in_pb_run: AggregateSet,
}

/// The delta of `against`'s time at `scope` over `base`'s, or the error if it cannot be stored.
pub open spec fn spec_aggregate_delta(
    base: Split,
    against: AggregateSet,
    scope: aggregate::Scope,
) -> Result<Delta, Error> {
    let t = against.spec_index(scope);
    let c = base.in_pb_run.spec_index(scope);
    if fits_i32(t@ - c@) {
        Ok(Delta { pace: delta::pace_of_difference(t@ - c@), time: time::Time((t@ - c@) as i32) })
    } else {
        Err(Error::DeltaOverflow { time: t.0, compared_to: c.0 })
    }
}

/// The split delta of `against` over `base`: the split-scope delta (marked as a personal best
/// when the split time beats the split PB) and the cumulative delta.
pub open spec fn spec_split_delta(base: Split, against: AggregateSet) -> Result<delta::Split, Error> {
    match spec_aggregate_delta(base, against, aggregate::Scope::Split) {
        Err(e) => Err(e),
        Ok(s) => match spec_aggregate_delta(base, against, aggregate::Scope::Cumulative) {
            Err(e) => Err(e),
            Ok(r) => Ok(
                delta::Split {
                    split: if against.split@ < base.split_pb@ {
                        Delta { pace: Pace::PersonalBest, time: s.time }
                    } else {
                        s
                    },
                    run: r,
                },
            ),
        },
    }
}

impl Default for Comparison {
    fn default() -> (c: Self)
        ensures
            c.splits.entries@.len() == 0,
            c.run.total_in_pb_run is None && c.run.sum_of_best is None,
    {
        Comparison { splits: short::NameMap::new(), run: Run::default() }
    }
}

impl Comparison {
    /// Gets a delta for the split with short name `split`, which has just posted an aggregate
    /// time pair of `against`.  Splits with no comparison get the default (inconclusive) delta.
    ///
    /// Fails if the delta cannot be represented as a time.
    pub fn delta(&self, split: &short::Name, against: AggregateSet) -> (r: Result<delta::Split, Error>)
        ensures
            match self.splits.spec_get(split@) {
                None => r matches Ok(d) && d.split.pace == Pace::Inconclusive && d.split.time@ == 0
                    && d.run.pace == Pace::Inconclusive && d.run.time@ == 0,
                Some(base) => r == spec_split_delta(base, against),
            },
    {
        match self.splits.get(split) {
            None => Ok(delta::Split::default()),
            Some(x) => x.delta(against),
        }
    }

    /// Gets the aggregate times for the split with short name `split`, if available.
    pub fn aggregate_for(&self, split: &short::Name) -> (r: Option<&AggregateSet>)
        ensures
            match (r, self.splits.spec_get(split@)) {
                (Some(a), Some(base)) => *a == base.in_pb_run,
                (None, None) => true,
                _ => false,
            },
    {
        match self.splits.get(split) {
            Some(x) => Some(&x.in_pb_run),
            None => None,
        }
    }
}

impl Split {
    /// Gets delta information for this split, which has just posted an aggregate time pair of
    /// `against`.
    ///
    /// Fails if the delta cannot be represented as a time.
    pub fn delta(&self, against: AggregateSet) -> (r: Result<delta::Split, Error>)
        ensures
            r == spec_split_delta(*self, against),
    {
        let mut split = match self.delta_against_aggregate(against, aggregate::Scope::Split) {
            Ok(d) => d,
            Err(e) => return Err(e),
        };
        if self.is_personal_best(against.split) {
            split.pace = Pace::PersonalBest;
        }
        let run = match self.delta_against_aggregate(against, aggregate::Scope::Cumulative) {
            Ok(d) => d,
            Err(e) => return Err(e),
        };
        Ok(delta::Split::new(split, run))
    }

    /// Gets a delta for the aggregate time of scope `scope` between `against` and this
    /// comparison.
    ///
    /// Fails if the delta cannot be represented as a time.
    pub fn delta_against_aggregate(&self, against: AggregateSet, scope: aggregate::Scope) -> (r:
        Result<Delta, Error>)
        ensures
            r == spec_aggregate_delta(*self, against, scope),
    {
        let t = against.index(scope);
        let c = self.in_pb_run.index(scope);
        let diff: i64 = (t.into_millis() as i64) - (c.into_millis() as i64);
        if diff < (i32::MIN as i64) || diff > (i32::MAX as i64) {
            Err(Error::DeltaOverflow { time: t.into_millis(), compared_to: c.into_millis() })
        } else {
            Ok(Delta::of_comparison(t, c))
        }
    }

    /// Checks whether `split_time` is a new personal best.
    pub fn is_personal_best(&self, split_time: time::Time) -> (b: bool)
        ensures
            b == (split_time@ < self.split_pb@),
    {
        split_time.into_millis() < self.split_pb.into_millis()
    }
}


/// A split's delta is its difference from the comparison run's split, and the run's delta its
/// cumulative difference; the split is marked a personal best exactly when its time beats the
/// split's personal best, and otherwise it is ahead when it is no slower than the comparison
/// run's split.
pub proof fn law_gold_split(base: Split, against: AggregateSet)
    requires
        fits_i32(against.split@ - base.in_pb_run.split@),
        fits_i32(against.cumulative@ - base.in_pb_run.cumulative@),
    ensures
        spec_split_delta(base, against) matches Ok(d) && d.split.time@ == against.split@
            - base.in_pb_run.split@ && d.run.time@ == against.cumulative@
            - base.in_pb_run.cumulative@ && (d.split.pace == Pace::PersonalBest
            <==> against.split@ < base.split_pb@) && (!(against.split@ < base.split_pb@)
            ==> d.split.pace == (if against.split@ <= base.in_pb_run.split@ {
            Pace::Ahead
        } else {
            Pace::Behind
        })) && d.run.pace == (if against.cumulative@ <= base.in_pb_run.cumulative@ {
            Pace::Ahead
        } else {
            Pace::Behind
        }),
{
}

} // verus!
