//! Sets of aggregates.
use super::index::{Kind, Scope, Source};
use crate::model::run;
use crate::model::short;
use crate::model::timing::time::{self, fits_i32, prefix_sums_fit, sum_millis};
use vstd::prelude::*;

verus! {

/// A full set of aggregate times for one split, organised by source.
#[derive(Debug, Clone, Copy, PartialEq, Eq, Structural)]
pub struct Full {
    /// Times for the current attempt.
    pub attempt: AggregateSet,
    /// Times for the comparison.
    pub comparison: AggregateSet,
}

/// A set of aggregate times at various scopes.
#[derive(Debug, Clone, Copy, PartialEq, Eq, Structural)]
pub struct AggregateSet {
    /// Single time for this split only.
    pub split: time::Time,
    /// Cumulative time for all splits up to and including this split.
    pub cumulative: time::Time,
}

/// The total times of each split in `splits`.
pub open spec fn split_totals(splits: Seq<run::Split>) -> Seq<time::Time> {
    Seq::new(splits.len(), |i: int| time::Time(sum_millis(splits[i].times@) as i32))
}

impl AggregateSet {
    /// For each split in `splits`, yields the split's name and aggregate times: the total of
    /// its times, and the running total of split totals up to and including it.
    pub fn accumulate_splits(splits: &Vec<run::Split>) -> (r: Vec<(short::Name, AggregateSet)>)
        requires
            forall|i: int| 0 <= i < splits@.len() ==> prefix_sums_fit(#[trigger] splits@[i].times@),
            prefix_sums_fit(split_totals(splits@)),
        ensures
            r@.len() == splits@.len(),
            forall|i: int|
                0 <= i < r@.len() ==> {
                    &&& (#[trigger] r@[i]).0@ == splits@[i].short@
                    &&& r@[i].1.split@ == sum_millis(splits@[i].times@)
                    &&& r@[i].1.cumulative@ == sum_millis(split_totals(splits@).take(i + 1))
                },
    {
        let mut pairs: Vec<(short::Name, time::Time)> = Vec::new();
        let mut i: usize = 0;
        while i < splits.len()
            invariant
                i <= splits@.len(),
                forall|j: int| 0 <= j < splits@.len() ==> prefix_sums_fit(#[trigger] splits@[j].times@),
                pairs@.len() == i,
                forall|j: int|
                    0 <= j < i ==> (#[trigger] pairs@[j]).0@ == splits@[j].short@ && pairs@[j].1
                        == split_totals(splits@)[j],
            decreases splits@.len() - i,
        {
            let s = &splits[i];
            assert(prefix_sums_fit(s.times@));
            assert(fits_i32(sum_millis(s.times@.take(s.times@.len() as int))));
            assert(s.times@.take(s.times@.len() as int) =~= s.times@);
            let total = s.total_time();
            pairs.push((s.short.copy(), total));
            i = i + 1;
        }
        assert(pairs@.map_values(|p: (short::Name, time::Time)| p.1) =~= split_totals(splits@));
        assert forall|j: int| 0 <= j < splits@.len() implies #[trigger] split_totals(splits@)[j]@
            == sum_millis(splits@[j].times@) by {
            let ts = splits@[j].times@;
            assert(ts.take(ts.len() as int) =~= ts);
            assert(fits_i32(sum_millis(ts.take(ts.len() as int))));
        }
        let r = Self::accumulate_pairs(pairs);
        assert forall|j: int| 0 <= j < r@.len() implies r@[j].1.split@ == sum_millis(
            splits@[j].times@,
        ) by {
            assert(split_totals(splits@)[j]@ == sum_millis(splits@[j].times@));
        }
        r
    }

    /// The time at scope `scope`.
    pub open spec fn spec_index(self, scope: Scope) -> time::Time {
        match scope {
            Scope::Cumulative => self.cumulative,
            Scope::Split => self.split,
        }
    }

    /// The time at scope `scope`.
    pub fn index(&self, scope: Scope) -> (t: time::Time)
        ensures
            t == self.spec_index(scope),
    {
        match scope {
            Scope::Cumulative => self.cumulative,
            Scope::Split => self.split,
        }
    }

    /// Replaces the time at scope `scope`, leaving the other scope alone.
    pub fn set(&mut self, scope: Scope, t: time::Time)
        ensures
            final(self).spec_index(scope) == t,
            forall|s: Scope| s != scope ==> final(self).spec_index(s) == old(self).spec_index(s),
    {
        match scope {
            Scope::Cumulative => self.cumulative = t,
            Scope::Split => self.split = t,
        }
    }

    /// For each pair of item and split time in `pairs`, yields the item with the split's
    /// aggregate times: its own time, and the running total up to and including it.
    ///
    /// The running totals must all be representable.
    pub fn accumulate_pairs<T>(pairs: Vec<(T, time::Time)>) -> (r: Vec<(T, AggregateSet)>)
        requires
            prefix_sums_fit(pairs@.map_values(|p: (T, time::Time)| p.1)),
        ensures
            r@.len() == pairs@.len(),
            forall|i: int|
                0 <= i < r@.len() ==> {
                    &&& (#[trigger] r@[i]).0 == pairs@[i].0
                    &&& r@[i].1.split == pairs@[i].1
                    &&& r@[i].1.cumulative@ == sum_millis(
                        pairs@.map_values(|p: (T, time::Time)| p.1).take(i + 1),
                    )
                },
    {
        let ghost times = pairs@.map_values(|p: (T, time::Time)| p.1);
        let ghost orig = pairs@;
        let mut result: Vec<(T, AggregateSet)> = Vec::new();
        let mut cumulative = time::Time::default();
        let mut rest = pairs;
        let ghost n = orig.len();
        assert(rest@ =~= orig.skip(0));
        while rest.len() > 0
            invariant
                times == orig.map_values(|p: (T, time::Time)| p.1),
                prefix_sums_fit(times),
                n == orig.len(),
                result@.len() + rest@.len() == n,
                rest@ =~= orig.skip(result@.len() as int),
                cumulative@ == sum_millis(times.take(result@.len() as int)),
                forall|i: int|
                    0 <= i < result@.len() ==> {
                        &&& (#[trigger] result@[i]).0 == orig[i].0
                        &&& result@[i].1.split == orig[i].1
                        &&& result@[i].1.cumulative@ == sum_millis(times.take(i + 1))
                    },
            decreases rest@.len(),
        {
            let k = result.len();
            let (item, split) = rest.remove(0);
            assert(orig[k as int] == (item, split));
            assert(times.take(k + 1).drop_last() =~= times.take(k as int));
            assert(fits_i32(sum_millis(times.take(k + 1))));
            cumulative = cumulative.plus(split);
            result.push((item, AggregateSet { split, cumulative }));
            assert(rest@ =~= orig.skip(result@.len() as int));
        }
        result
    }
}

/// The time in `full` for the kind `kind`.
pub open spec fn spec_full_index(full: Full, kind: Kind) -> time::Time {
    full.spec_source(kind.source).spec_index(kind.scope)
}

impl Full {
    /// The set of times for source `source`.
    pub open spec fn spec_source(self, source: Source) -> AggregateSet {
        match source {
            Source::Attempt => self.attempt,
            Source::Comparison => self.comparison,
        }
    }

    /// The set of times for source `source`.
    pub fn source(&self, source: Source) -> (s: AggregateSet)
        ensures
            s == self.spec_source(source),
    {
        match source {
            Source::Attempt => self.attempt,
            Source::Comparison => self.comparison,
        }
    }

    /// The time of kind `kind`.
    pub fn index(&self, kind: Kind) -> (t: time::Time)
        ensures
            t == spec_full_index(*self, kind),
    {
        self.source(kind.source).index(kind.scope)
    }

    /// Replaces the time of kind `kind`, leaving the others alone.
    pub fn set(&mut self, kind: Kind, t: time::Time)
        ensures
            spec_full_index(*final(self), kind) == t,
            forall|k: Kind| k != kind ==> spec_full_index(*final(self), k) == spec_full_index(
                *old(self),
                k,
            ),
    {
        match kind.source {
            Source::Attempt => self.attempt.set(kind.scope, t),
            Source::Comparison => self.comparison.set(kind.scope, t),
        }
    }
}

impl Default for AggregateSet {
    fn default() -> (s: Self)
        ensures
            s.split@ == 0 && s.cumulative@ == 0,
    {
        AggregateSet { split: time::Time::zero(), cumulative: time::Time::zero() }
    }
}

impl Default for Full {
    fn default() -> (f: Self)
        ensures
            f.attempt.split@ == 0 && f.attempt.cumulative@ == 0 && f.comparison.split@ == 0
                && f.comparison.cumulative@ == 0,
    {
        Full { attempt: AggregateSet::default(), comparison: AggregateSet::default() }
    }
}

} // verus!
