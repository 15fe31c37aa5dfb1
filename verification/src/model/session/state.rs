//! Dumps of session state.
use crate::model::short;
use crate::model::timing::aggregate::AggregateSet;
use crate::model::timing::comparison::{delta, Comparison};
use vstd::prelude::*;

verus! {

/// Notes on a split: its aggregates, and its delta against the comparison if known.
#[derive(Copy, Clone, Debug, PartialEq, Eq, Structural)]
pub struct SplitNote {
    /// The split's aggregate times.
    pub aggregates: AggregateSet,
    /// The split's delta against the comparison, if any.
    pub delta: Option<delta::Split>,
}

/// A full dump of a session's state.
#[derive(Debug)]
pub struct State {
    /// The attempt in progress.
    pub attempt: super::Attempt,
    /// The comparison in use.
    pub comparison: Comparison,
    /// Notes on each split, by short name.
    pub notes: short::NameMap<SplitNote>,
    /// The run-wide total, with its delta, if known.
    pub total: Option<delta::Time>,
}

} // verus!
