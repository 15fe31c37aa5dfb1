//! The part of zombiesplit that displays and manipulates a run, exposing it to the view.
pub mod cursor;
pub mod editor;
pub mod event;
pub mod mode;
pub mod nav;
pub mod split;

pub use editor::Editor;

use crate::model::game::category::AttemptInfo;
use crate::model::run::{spec_labels, spec_times, Run};
use cursor::Cursor;
use crate::model::timing::time;
use crate::model::timing::time::human::signed_millis;
use mode::{commit_times, committed_mode, mode_step, EventResult, Inactive, Mode, Quitting};
use vstd::prelude::*;

verus! {

/// The part of zombiesplit that displays and manipulates a run.
#[derive(Debug)]
pub struct Presenter {
    /// The current mode.
    pub mode: Mode,
    /// The current run.
    pub run: Run,
    /// Information about the attempt.
    pub state: State,
}

/// Presenter state that is independent of the mode.
#[derive(Copy, Clone, Debug, PartialEq, Eq, Structural)]
pub struct State {
    /// The current attempt information.
    pub attempt: AttemptInfo,
}

/// Whether, after the mode has stepped to `m` with the run's times at `times` and the result
/// `r`, the presenter finishes with the mode `after` and the times `times_after`: a transition
/// commits `m` and moves to the new mode; an event that the mode did not handle is handled
/// globally (committing commits `m`, a new run clears every time, and quitting commits `m` and
/// moves to the quitting mode); anything else stays as the mode left it.
pub open spec fn presenter_after(
    m: Mode,
    times: Seq<Seq<time::Time>>,
    r: EventResult,
    e: event::Event,
    after: Mode,
    times_after: Seq<Seq<time::Time>>,
) -> bool {
    match r {
        EventResult::Handled => after == m && times_after == times,
        EventResult::Transition(next) => after == next && times_after == commit_times(m, times),
        EventResult::NotHandled => match e {
            event::Event::Commit => after == committed_mode(m) && times_after == commit_times(
                m,
                times,
            ),
            event::Event::NewRun => {
                &&& after == m
                &&& times_after.len() == times.len()
                &&& forall|i: int| 0 <= i < times_after.len() ==> (#[trigger] times_after[i]).len() == 0
            },
            event::Event::Quit => after is Quitting && times_after == commit_times(m, times),
            _ => after == m && times_after == times,
        },
    }
}

/// Whether handling the event `e` takes a presenter in the mode `before`, over a run whose
/// times are `times_before`, to the mode `after` and the times `times_after`: the mode steps
/// first, and the presenter finishes as [presenter_after] says.
pub open spec fn presenter_step(
    before: Mode,
    times_before: Seq<Seq<time::Time>>,
    e: event::Event,
    after: Mode,
    times_after: Seq<Seq<time::Time>>,
) -> bool {
    exists|m: Mode, times: Seq<Seq<time::Time>>, r: EventResult|
        #[trigger] mode_step(before, e, times_before, m, times, r) && presenter_after(
            m,
            times,
            r,
            e,
            after,
            times_after,
        )
}

impl Presenter {
    /// Constructs a new presenter for a given run, in the inactive mode.
    pub fn new(run: Run) -> (p: Self)
        ensures
            p.mode is Inactive,
            p.run == run,
            p.state.attempt.total == 0 && p.state.attempt.completed == 0,
    {
        Presenter { mode: Mode::Inactive(Inactive), run, state: State { attempt: AttemptInfo::default() } }
    }

    /// Gets where split `index` stands relative to the cursor, if any.
    pub fn split_position(&self, index: usize) -> (p: split::Position)
        ensures
            match self.mode {
                Mode::Nav(n) => p == (if index < n.spec_cursor().spec_pos() {
                    split::Position::Done
                } else if index == n.spec_cursor().spec_pos() {
                    split::Position::Cursor
                } else {
                    split::Position::Coming
                }),
                Mode::Editor(ed) => p == (if index < ed.cur.spec_pos() {
                    split::Position::Done
                } else if index == ed.cur.spec_pos() {
                    split::Position::Cursor
                } else {
                    split::Position::Coming
                }),
                _ => p == split::Position::Coming,
            },
    {
        match self.mode.cursor() {
            Some(c) => {
                let pos = c.position();
                if index < pos {
                    split::Position::Done
                } else if index == pos {
                    split::Position::Cursor
                } else {
                    split::Position::Coming
                }
            },
            None => split::Position::Coming,
        }
    }

    /// Gets whether the UI should be running.
    pub fn is_running(&self) -> (b: bool)
        ensures
            b == !(self.mode is Quitting),
    {
        self.mode.is_running()
    }

    /// Borrows the current editor, if one exists.
    pub fn editor(&self) -> (e: Option<&Editor>)
        ensures
            match self.mode {
                Mode::Editor(ed) => e == Some(&ed),
                _ => e is None,
            },
    {
        self.mode.editor()
    }

    /// Handles an event.
    ///
    /// Events are offered to the current mode first, and handled globally if the mode refuses
    /// them: committing commits the mode's changes, a new run clears every time, and quitting
    /// moves to the quitting mode.
    pub fn handle_event(&mut self, e: &event::Event)
        ensures
            spec_labels(&final(self).run) == spec_labels(&old(self).run),
            final(self).run.splits@.len() == old(self).run.splits@.len(),
            final(self).state == old(self).state,
            presenter_step(
                old(self).mode,
                spec_times(&old(self).run),
                *e,
                final(self).mode,
                spec_times(&final(self).run),
            ),
            *e == event::Event::Quit ==> final(self).mode is Quitting,
            *e == event::Event::NewRun ==> forall|i: int|
                0 <= i < final(self).run.splits@.len() ==> spec_times(&final(self).run)[i].len()
                    == 0,
    {
        let ghost m0 = self.mode;
        let ghost t0 = spec_times(&self.run);
        let r = self.mode.handle_event(e, &mut self.run);
        let ghost m1 = self.mode;
        let ghost t1 = spec_times(&self.run);
        let ghost r1 = r;
        assert(mode_step(m0, *e, t0, m1, t1, r1));
        match r {
            EventResult::Transition(new_mode) => self.transition(new_mode),
            EventResult::NotHandled => self.handle_event_globally(e),
            EventResult::Handled => {},
        }
        assert(presenter_after(m1, t1, r1, *e, self.mode, spec_times(&self.run)));
    }

    /// Handles an event that the mode has refused.
    fn handle_event_globally(&mut self, e: &event::Event)
        ensures
            spec_labels(&final(self).run) == spec_labels(&old(self).run),
            final(self).run.splits@.len() == old(self).run.splits@.len(),
            final(self).state == old(self).state,
            presenter_after(
                old(self).mode,
                spec_times(&old(self).run),
                EventResult::NotHandled,
                *e,
                final(self).mode,
                spec_times(&final(self).run),
            ),
    {
        match e {
            event::Event::Commit => self.mode.commit(&mut self.run),
            event::Event::NewRun => self.start_new_run(),
            event::Event::Quit => self.quit(),
            _ => {},
        }
    }

    /// Moves to `new_mode`, committing the current mode's changes first.
    pub fn transition(&mut self, new_mode: Mode)
        ensures
            spec_labels(&final(self).run) == spec_labels(&old(self).run),
            final(self).mode == new_mode,
            final(self).state == old(self).state,
            final(self).run.splits@.len() == old(self).run.splits@.len(),
            spec_times(&final(self).run) == commit_times(old(self).mode, spec_times(&old(self).run)),
    {
        self.mode.commit(&mut self.run);
        self.mode = new_mode;
    }

    /// Starts a new run, abandoning any previous run.
    fn start_new_run(&mut self)
        ensures
            spec_labels(&final(self).run) == spec_labels(&old(self).run),
            final(self).mode == old(self).mode,
            final(self).state == old(self).state,
            final(self).run.splits@.len() == old(self).run.splits@.len(),
            forall|i: int|
                0 <= i < final(self).run.splits@.len() ==> spec_times(&final(self).run)[i].len()
                    == 0,
    {
        self.run.reset();
    }

    /// Starts the process of quitting.
    fn quit(&mut self)
        ensures
            spec_labels(&final(self).run) == spec_labels(&old(self).run),
            final(self).mode is Quitting,
            final(self).state == old(self).state,
            final(self).run.splits@.len() == old(self).run.splits@.len(),
            spec_times(&final(self).run) == commit_times(old(self).mode, spec_times(&old(self).run)),
    {
        self.transition(Mode::Quitting(Quitting))
    }

    /// Reacts to the run being reset: navigation starts again at the top of the splits,
    /// without committing the previous mode.
    pub fn on_reset(&mut self)
        requires
            old(self).run.splits@.len() > 0,
        ensures
            final(self).mode matches Mode::Nav(n) && n.spec_cursor().spec_pos() == 0
                && n.spec_cursor().spec_max() == old(self).run.splits@.len() - 1,
            final(self).run == old(self).run,
    {
        let cur = Cursor::new(self.run.num_splits() - 1);
        self.mode = Mode::Nav(nav::Nav::new(cur));
    }

    /// Records new attempt information.
    pub fn on_new_attempt(&mut self, attempt: AttemptInfo)
        ensures
            final(self).state.attempt == attempt,
            final(self).mode == old(self).mode,
            final(self).run == old(self).run,
    {
        self.state.attempt = attempt;
    }
}


/// Quitting commits the current mode's changes: from an editor whose committed time can be
/// stored and whose cursor is on a split, that time is logged against the split; from any
/// other mode the times stay as they were.  The presenter then quits.
pub proof fn law_quit_commits(
    before: Mode,
    times_before: Seq<Seq<time::Time>>,
    after: Mode,
    times_after: Seq<Seq<time::Time>>,
)
    requires
        presenter_step(before, times_before, event::Event::Quit, after, times_after),
    ensures
        after is Quitting,
        match before {
            Mode::Editor(ed) => {
                let t = ed.spec_committed_time();
                let i = ed.cur.spec_pos() as int;
                times_after == (if time::fits_i32(signed_millis(t)) && i < times_before.len() {
                    times_before.update(i, times_before[i].push(time::Time(signed_millis(t) as i32)))
                } else {
                    times_before
                })
            },
            _ => times_after == times_before,
        },
{
    let (m, t, r) = choose|m: Mode, t: Seq<Seq<time::Time>>, r: EventResult|
        #[trigger] mode_step(before, event::Event::Quit, times_before, m, t, r) && presenter_after(
            m,
            t,
            r,
            event::Event::Quit,
            after,
            times_after,
        );
    match before {
        Mode::Editor(ed) => {
            let ed2 = m->Editor_0;
            assert(ed2 == ed);
        },
        _ => {},
    }
}

} // verus!
