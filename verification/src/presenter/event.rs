//! Events understood by the user interface.
use crate::model::timing::time::Position;
use vstd::prelude::*;

verus! {

/// High-level event, abstracted from a raw UI event.
#[derive(Copy, Clone, Debug, PartialEq, Eq, Structural)]
pub enum Event {
    /// Undo something (the exact thing depends on the mode): in navigation, removes one time
    /// for a split and returns it to the editor.
    Undo,
    /// Delete something completely (the exact thing depends on the mode): in navigation,
    /// removes all times for a split.
    Delete,
    /// Commit an edit in progress.
    Commit,
    /// Start editing a field at a particular position.
    EnterField(Position),
    /// Perform an event on the currently open editor.
    Edit(Edit),
    /// Start a new run.
    NewRun,
    /// Move the cursor.
    Cursor(super::cursor::Motion),
    /// Quit the program.
    Quit,
}

/// An edit event.
#[derive(Copy, Clone, Debug, PartialEq, Eq, Structural)]
pub enum Edit {
    /// Add the given digit to the current editor.
    Add(u8),
    /// Remove the last item (for instance, a digit from the current editor).
    Remove,
}

impl Event {
    /// Shorthand for producing a field event.
    pub fn digit(digit: u8) -> (e: Self)
        ensures
            e == Event::Edit(Edit::Add(digit)),
    {
        Self::Edit(Edit::Add(digit))
    }
}

} // verus!
