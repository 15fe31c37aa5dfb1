//! Indexing enumerations for aggregates.
use vstd::prelude::*;

verus! {

/// The kind ([Source] and [Scope]) of an aggregate time.
#[derive(Debug, Clone, Copy, PartialEq, Eq, Structural, PartialOrd, Ord, Hash)]
pub struct Kind {
    /// The source of this aggregate time.
    pub source: Source,
    /// The scope of this aggregate time.
    pub scope: Scope,
}

impl Kind {
    /// A cumulative time from the current attempt.
    pub fn attempt_cumulative() -> (k: Self)
        ensures
            k == (Kind { source: Source::Attempt, scope: Scope::Cumulative }),
    {
        Source::Attempt.with(Scope::Cumulative)
    }

    /// A split time from the current attempt.
    pub fn attempt_split() -> (k: Self)
        ensures
            k == (Kind { source: Source::Attempt, scope: Scope::Split }),
    {
        Source::Attempt.with(Scope::Split)
    }

    /// A cumulative time from the comparison.
    pub fn comparison_cumulative() -> (k: Self)
        ensures
            k == (Kind { source: Source::Comparison, scope: Scope::Cumulative }),
    {
        Source::Comparison.with(Scope::Cumulative)
    }

    /// A split time from the comparison.
    pub fn comparison_split() -> (k: Self)
        ensures
            k == (Kind { source: Source::Comparison, scope: Scope::Split }),
    {
        Source::Comparison.with(Scope::Split)
    }
}

/// Enumeration of sources for aggregate times.
#[derive(Copy, Clone, Debug, PartialEq, Eq, Structural, PartialOrd, Ord, Hash)]
pub enum Source {
    /// This time comes from the run attempt.
    Attempt,
    /// This time comes from the comparison; ie, it is the time to which we are comparing.
    Comparison,
}

impl Source {
    /// Creates a `Kind` using this `Source` and a given `Scope` `scope`.
    pub fn with(self, scope: Scope) -> (k: Kind)
        ensures
            k.source == self,
            k.scope == scope,
    {
        Kind { source: self, scope }
    }
}

/// Enumeration of scopes for aggregate times.
#[derive(Copy, Clone, Debug, PartialEq, Eq, Structural, PartialOrd, Ord, Hash)]
pub enum Scope {
    /// Total of all times logged on the split.
    Split,
    /// Cumulative run time at this split; ie, the total plus all totals of all preceding splits.
    Cumulative,
}

} // verus!
