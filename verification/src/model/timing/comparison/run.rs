//! Run timing constructs.
use crate::model::timing::time;
use vstd::prelude::*;

verus! {

/// A set of calculated totals for a run.
#[derive(Copy, Clone, Debug, PartialEq, Eq, Structural)]
pub struct Run {
    /// The total time inside the PB run, if any.
    pub total_in_pb_run: Option<time::Time>,
    /// The sum of best segment times in the comparison.
    pub sum_of_best: Option<time::Time>,
}

/// Enumeration of types of run-wide total seen in a comparison.
///
/// These can be used to index a [Run].
#[derive(Copy, Clone, Debug, PartialEq, Eq, Structural)]
pub enum TotalType {
    /// Denotes the total time inside the PB run.
    TotalInPbRun,
    /// Denotes the sum-of-best.
    SumOfBest,
}

impl Default for Run {
    fn default() -> (r: Self)
        ensures
            r.total_in_pb_run is None,
            r.sum_of_best is None,
    {
        Run { total_in_pb_run: None, sum_of_best: None }
    }
}

impl Run {
    /// The total of type `ty`.
    pub open spec fn spec_index(self, ty: TotalType) -> Option<time::Time> {
        match ty {
            TotalType::TotalInPbRun => self.total_in_pb_run,
            TotalType::SumOfBest => self.sum_of_best,
        }
    }

    /// The total of type `ty`.
    pub fn index(&self, ty: TotalType) -> (t: Option<time::Time>)
        ensures
            t == self.spec_index(ty),
    {
        match ty {
            TotalType::TotalInPbRun => self.total_in_pb_run,
            TotalType::SumOfBest => self.sum_of_best,
        }
    }

    /// Replaces the total of type `ty`, leaving the other alone.
    pub fn set(&mut self, ty: TotalType, t: Option<time::Time>)
        ensures
            final(self).spec_index(ty) == t,
            forall|u: TotalType| u != ty ==> final(self).spec_index(u) == old(self).spec_index(u),
    {
        match ty {
            TotalType::TotalInPbRun => self.total_in_pb_run = t,
            TotalType::SumOfBest => self.sum_of_best = t,
        }
    }

    /// Lists all of the totals stored in this [Run], with their types.
    pub fn totals(&self) -> (v: Vec<(TotalType, Option<time::Time>)>)
        ensures
            v@ == seq![
                (TotalType::TotalInPbRun, self.total_in_pb_run),
                (TotalType::SumOfBest, self.sum_of_best),
            ],
    {
        let mut v = Vec::new();
        v.push((TotalType::TotalInPbRun, self.index(TotalType::TotalInPbRun)));
        v.push((TotalType::SumOfBest, self.index(TotalType::SumOfBest)));
        assert(v@ =~= seq![
            (TotalType::TotalInPbRun, self.total_in_pb_run),
            (TotalType::SumOfBest, self.sum_of_best),
        ]);
        v
    }
}

} // verus!
