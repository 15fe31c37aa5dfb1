//! Events that sessions emit to their observers.
use crate::model::game::category::AttemptInfo;
use crate::model::short;
use crate::model::timing::aggregate::Kind;
use crate::model::timing::comparison::pace::{Pace, SplitInRun};
use crate::model::timing::comparison::run::TotalType;
use crate::model::timing::time;
use vstd::prelude::*;

verus! {

/// The type of a run-wide total.
#[derive(Copy, Clone, Debug, PartialEq, Eq, Structural)]
pub enum Total {
    /// The attempt's total, with its pace.
    Attempt(Pace),
    /// A total from the comparison.
    Comparison(TotalType),
}

/// The type of a time reported on a split.
#[derive(Copy, Clone, Debug, PartialEq, Eq, Structural)]
pub enum Time {
    /// A time was pushed onto the split.
    Pushed,
    /// An aggregate time of the split changed.
    Aggregate(Kind),
}

/// An event about one split.
#[derive(Copy, Clone, Debug, PartialEq, Eq, Structural)]
pub enum Split {
    /// A time of the given type was reported.
    Time(time::Time, Time),
    /// The split's pace changed.
    Pace(SplitInRun),
    /// Times were popped from the split.
    Popped(super::action::Pop),
}

/// An event emitted by a session.
#[derive(Clone, Debug)]
pub enum Event {
    /// A run-wide total changed (or was removed).
    Total(Total, Option<time::Time>),
    /// The session was reset, with new attempt information.
    Reset(AttemptInfo),
    /// Something happened to the split with the given short name.
    Split(short::Name, Split),
}

} // verus!
