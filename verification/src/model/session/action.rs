//! Actions that clients can ask a session to perform.
use crate::model::timing::time;
use vstd::prelude::*;

verus! {

/// What to do with the previous attempt when starting a new one.
#[derive(Copy, Clone, Debug, PartialEq, Eq, Structural)]
pub enum OldDestination {
    /// Save the previous attempt.
    Save,
    /// Discard the previous attempt.
    Discard,
}

/// How many times to pop from a split.
#[derive(Copy, Clone, Debug, PartialEq, Eq, Structural)]
pub enum Pop {
    /// Pop the last time.
    One,
    /// Pop every time.
    All,
}

/// An action on a session.
#[derive(Copy, Clone, Debug, PartialEq, Eq, Structural)]
pub enum Action {
    /// Start a new attempt, sending the old one to the given destination.
    NewRun(OldDestination),
    /// Push a time onto the split at the given index.
    Push(usize, time::Time),
    /// Pop times from the split at the given index.
    Pop(usize, Pop),
}

} // verus!
