//! A run in progress: its splits, and the times logged against each.
use super::short;
use super::timing::time::{self, prefix_sums_fit, sum_millis};
use vstd::prelude::*;

verus! {

/// A split in a run, with the times logged against it.
#[derive(Debug)]
pub struct Split {
    /// The short name of the split.
    pub short: short::Name,
    /// The display name of the split.
    pub name: String,
    /// The times logged against the split, in order.
    pub times: Vec<time::Time>,
}

impl Split {
    /// Constructs a split with no times.
    pub fn new(short: short::Name, name: String) -> (s: Self)
        ensures
            s.short@ == short@,
            s.name@ == name@,
            s.times@.len() == 0,
    {
        Split { short, name, times: Vec::new() }
    }

    /// The total of all times logged against this split.
    pub fn total_time(&self) -> (t: time::Time)
        requires
            prefix_sums_fit(self.times@),
        ensures
            t@ == sum_millis(self.times@),
    {
        time::Time::sum(self.times.as_slice())
    }
}

/// A run: an ordered list of splits.
#[derive(Debug)]
pub struct Run {
    /// The splits, in order.
    pub splits: Vec<Split>,
}

/// The times logged against each split of `run`.
pub open spec fn spec_times(run: &Run) -> Seq<Seq<time::Time>> {
    run.splits@.map_values(|s: Split| s.times@)
}

/// The short name and display name of each split of `run`.
pub open spec fn spec_labels(run: &Run) -> Seq<(Seq<char>, Seq<char>)> {
    run.splits@.map_values(|s: Split| (s.short@, s.name@))
}

impl Run {
    /// The number of splits in the run.
    pub fn num_splits(&self) -> (n: usize)
        ensures
            n == self.splits@.len(),
    {
        self.splits.len()
    }

    /// Logs `time` against the split at `index`, if there is one.
    pub fn push_to(&mut self, index: usize, time: time::Time)
        ensures
            spec_labels(final(self)) == spec_labels(old(self)),
            final(self).splits@.len() == old(self).splits@.len(),
            index < old(self).splits@.len() ==> spec_times(final(self)) == spec_times(old(self)).update(
                index as int,
                spec_times(old(self))[index as int].push(time),
            ),
            index >= old(self).splits@.len() ==> spec_times(final(self)) == spec_times(old(self)),
    {
        if index < self.splits.len() {
            let mut s = self.splits.remove(index);
            s.times.push(time);
            self.splits.insert(index, s);
            assert(spec_times(self) =~= spec_times(old(self)).update(
                index as int,
                spec_times(old(self))[index as int].push(time),
            ));
        }
    }

    /// Removes the last time logged against the split at `index`, returning it.
    pub fn pop_from(&mut self, index: usize) -> (r: Option<time::Time>)
        ensures
            spec_labels(final(self)) == spec_labels(old(self)),
            final(self).splits@.len() == old(self).splits@.len(),
            (index < old(self).splits@.len() && spec_times(old(self))[index as int].len() > 0)
                ==> r == Some(spec_times(old(self))[index as int].last()) && spec_times(final(self))
                == spec_times(old(self)).update(
                index as int,
                spec_times(old(self))[index as int].drop_last(),
            ),
            !(index < old(self).splits@.len() && spec_times(old(self))[index as int].len() > 0)
                ==> r is None && spec_times(final(self)) == spec_times(old(self)),
    {
        if index < self.splits.len() && self.splits[index].times.len() > 0 {
            let mut s = self.splits.remove(index);
            let t = s.times.pop();
            self.splits.insert(index, s);
            assert(spec_times(self) =~= spec_times(old(self)).update(
                index as int,
                spec_times(old(self))[index as int].drop_last(),
            ));
            t
        } else {
            None
        }
    }

    /// Removes every time logged against the split at `index`.
    pub fn clear_at(&mut self, index: usize)
        ensures
            spec_labels(final(self)) == spec_labels(old(self)),
            final(self).splits@.len() == old(self).splits@.len(),
            index < old(self).splits@.len() ==> spec_times(final(self)) == spec_times(old(self)).update(
                index as int,
                Seq::empty(),
            ),
            index >= old(self).splits@.len() ==> spec_times(final(self)) == spec_times(old(self)),
    {
        if index < self.splits.len() {
            let mut s = self.splits.remove(index);
            s.times = Vec::new();
            self.splits.insert(index, s);
            assert(spec_times(self) =~= spec_times(old(self)).update(index as int, Seq::empty()));
        }
    }

    /// Removes every time from every split, starting the run afresh.
    pub fn reset(&mut self)
        ensures
            spec_labels(final(self)) == spec_labels(old(self)),
            final(self).splits@.len() == old(self).splits@.len(),
            forall|i: int| 0 <= i < final(self).splits@.len() ==> spec_times(final(self))[i].len() == 0,
    {
        let n = self.splits.len();
        let mut i: usize = 0;
        while i < n
            invariant
                n == self.splits@.len(),
                n == old(self).splits@.len(),
                i <= n,
                forall|j: int| 0 <= j < i ==> spec_times(self)[j].len() == 0,
                spec_labels(self) == spec_labels(old(self)),
            decreases n - i,
        {
            self.clear_at(i);
            i = i + 1;
        }
    }
}

} // verus!
