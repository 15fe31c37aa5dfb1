//! The presenter's modes and the results of handling events in them.
use super::cursor::Cursor;
use super::editor::{editor_commit_times, editor_step, Editor};
use super::event::Event;
use super::nav::{nav_step, Nav};
use crate::model::run::{spec_labels, spec_times, Run};
use crate::model::timing::time;
use vstd::prelude::*;

verus! {

/// Mode for when there is no run active.
#[derive(Copy, Clone, Debug, PartialEq, Eq, Structural)]
pub struct Inactive;

/// Mode for when we are quitting.
#[derive(Copy, Clone, Debug, PartialEq, Eq, Structural)]
pub struct Quitting;

/// The presenter's modes.
///
/// zombiesplit is heavily modal, so most of the current presenter state depends on the current
/// mode.
#[derive(Debug)]
pub enum Mode {
    /// No run is active.
    Inactive(Inactive),
    /// We are quitting.
    Quitting(Quitting),
    /// We are navigating splits.
    Nav(Nav),
    /// We are editing a time.
    Editor(Editor),
}

/// Enum of results of handling an event in a mode.
#[derive(Debug)]
pub enum EventResult {
    /// The event was not handled.
    NotHandled,
    /// The event was handled and the mode state should be considered dirty.
    Handled,
    /// The event caused a transition to another mode.
    Transition(Mode),
}

impl EventResult {
    /// Creates an event result from a 'was handled' boolean `handled`.
    pub fn from_handled(handled: bool) -> (r: Self)
        ensures
            handled ==> r is Handled,
            !handled ==> r is NotHandled,
    {
        if handled {
            Self::Handled
        } else {
            Self::NotHandled
        }
    }

    /// Shorthand for creating a transition.
    pub fn transition(to: Mode) -> (r: Self)
        ensures
            r == EventResult::Transition(to),
    {
        Self::Transition(to)
    }
}

/// Whether handling the event `e` in the mode `before`, over a run whose times are
/// `times_before`, leaves the mode `after`, the times `times_after` and the result `r`: the
/// inactive and quitting modes handle nothing, and the others step as their own rules say.
pub open spec fn mode_step(
    before: Mode,
    e: Event,
    times_before: Seq<Seq<time::Time>>,
    after: Mode,
    times_after: Seq<Seq<time::Time>>,
    r: EventResult,
) -> bool {
    match before {
        Mode::Nav(n) => after matches Mode::Nav(n2) && nav_step(
            n,
            e,
            times_before,
            n2,
            times_after,
            r,
        ),
        Mode::Editor(ed) => (after matches Mode::Editor(ed2) && editor_step(ed, e, ed2, r))
            && times_after == times_before,
        _ => r is NotHandled && after == before && times_after == times_before,
    }
}

/// The times of a run, given as `times`, after the mode `m` commits its changes: only an
/// editor has any.
pub open spec fn commit_times(m: Mode, times: Seq<Seq<time::Time>>) -> Seq<Seq<time::Time>> {
    match m {
        Mode::Editor(ed) => editor_commit_times(ed, times),
        _ => times,
    }
}

/// The mode `m` after it commits its changes: an editor folds its open field into its time.
pub open spec fn committed_mode(m: Mode) -> Mode {
    match m {
        Mode::Editor(ed) => Mode::Editor(Editor { time: ed.spec_committed_time(), ..ed }),
        _ => m,
    }
}

impl Mode {
    /// Handles the given event according to the mode.
    ///
    /// The mode can modify the run in-place if needed, but `commit` will get called as the mode
    /// is transitioning out.  The presenter handles some events itself when the mode does not.
    pub fn handle_event(&mut self, e: &Event, run: &mut Run) -> (r: EventResult)
        ensures
            spec_labels(final(run)) == spec_labels(old(run)),
            final(run).splits@.len() == old(run).splits@.len(),
            mode_step(*old(self), *e, spec_times(old(run)), *final(self), spec_times(final(run)), r),
            (*e is Quit || *e is NewRun || *e is Commit) ==> r is NotHandled,
    {
        match self {
            Mode::Nav(n) => n.handle_event(e, run),
            Mode::Editor(ed) => ed.handle_event(e),
            _ => EventResult::NotHandled,
        }
    }

    /// Commits any outstanding changes the mode needs to make to the run.
    pub fn commit(&mut self, run: &mut Run)
        ensures
            spec_labels(final(run)) == spec_labels(old(run)),
            *final(self) == committed_mode(*old(self)),
            final(run).splits@.len() == old(run).splits@.len(),
            spec_times(final(run)) == commit_times(*old(self), spec_times(old(run))),
    {
        match self {
            Mode::Editor(ed) => ed.commit(run),
            _ => {},
        }
    }

    /// If this mode has a cursor, retrieves it.
    pub fn cursor(&self) -> (c: Option<Cursor>)
        ensures
            match *self {
                Mode::Nav(n) => c == Some(n.spec_cursor()),
                Mode::Editor(ed) => c == Some(ed.cur),
                _ => c is None,
            },
    {
        match self {
            Mode::Nav(n) => Some(n.cursor()),
            Mode::Editor(ed) => Some(ed.cur),
            _ => None,
        }
    }

    /// If this mode has an editor, borrows it.
    pub fn editor(&self) -> (e: Option<&Editor>)
        ensures
            match *self {
                Mode::Editor(ed) => e == Some(&ed),
                _ => e is None,
            },
    {
        match self {
            Mode::Editor(ed) => Some(ed),
            _ => None,
        }
    }

    /// Is zombiesplit running while this mode is active?  Only quitting stops it.
    pub fn is_running(&self) -> (b: bool)
        ensures
            b == !(*self is Quitting),
    {
        match self {
            Mode::Quitting(_) => false,
            _ => true,
        }
    }
}

} // verus!
