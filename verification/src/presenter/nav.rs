//! The [Nav] struct and its implementations.
use super::cursor::{Cursor, Motion};
use super::editor::Editor;
use super::event::Event;
use super::mode::{EventResult, Mode};
use crate::model::run::{spec_labels, spec_times, Run};
use crate::model::timing::time::human;
use crate::model::timing::time::Position;
use vstd::prelude::*;

verus! {

/// Mode for when we are navigating splits.
#[derive(Copy, Clone, Debug, PartialEq, Eq, Structural)]
pub struct Nav {
    /// The cursor.
    cur: Cursor,
}

/// Whether handling the event `e` while navigating with `before`, over a run whose times are
/// `times_before`, leaves the navigation `after`, the times `times_after` and the result `r`:
/// cursor motions move the cursor one split (handled only if it moved), entering a field opens
/// an editor on a zero time, undo pops the last time of the split under the cursor into an
/// editor, delete clears that split's times, and every other event is left alone, unhandled.
pub open spec fn nav_step(
    before: Nav,
    e: Event,
    times_before: Seq<Seq<crate::model::timing::time::Time>>,
    after: Nav,
    times_after: Seq<Seq<crate::model::timing::time::Time>>,
    r: EventResult,
) -> bool {
    let c = before.spec_cursor();
    let i = c.spec_pos() as int;
    match e {
        Event::Cursor(m) => {
            let pos = after.spec_cursor().spec_pos();
            &&& times_after == times_before
            &&& after.spec_cursor().spec_max() == c.spec_max()
            &&& pos == (match m {
                Motion::Up => Cursor::up_from(c.spec_pos(), 1),
                Motion::Down => Cursor::down_from(c.spec_pos(), c.spec_max(), 1),
            })
            &&& if pos != c.spec_pos() {
                r is Handled
            } else {
                r is NotHandled
            }
        },
        Event::EnterField(f) => {
            &&& after == before
            &&& times_after == times_before
            &&& r matches EventResult::Transition(Mode::Editor(ed))
            &&& ed.cur == c
            &&& ed.time == human::zero_time()
            &&& (ed.field matches Some(fe) && fe.spec_position() == f && fe.spec_text().len() == 0)
        },
        Event::Undo => {
            &&& after == before
            &&& if i < times_before.len() && times_before[i].len() > 0 {
                &&& times_after == times_before.update(i, times_before[i].drop_last())
                &&& r matches EventResult::Transition(Mode::Editor(ed))
                &&& ed.cur == c
                &&& ed.time == human::spec_from_millis(times_before[i].last().0)
                &&& ed.field is None
            } else {
                times_after == times_before && r is Handled
            }
        },
        Event::Delete => {
            &&& after == before
            &&& r is Handled
            &&& times_after == (if i < times_before.len() {
                times_before.update(i, Seq::empty())
            } else {
                times_before
            })
        },
        _ => after == before && times_after == times_before && r is NotHandled,
    }
}

impl Nav {
    /// The cursor of this navigation.
    pub closed spec fn spec_cursor(&self) -> Cursor {
        self.cur
    }

    /// Creates a new nav mode using a given cursor.
    pub fn new(cur: Cursor) -> (n: Self)
        ensures
            n.spec_cursor() == cur,
    {
        Self { cur }
    }

    /// The cursor of this navigation.
    pub fn cursor(&self) -> (c: Cursor)
        ensures
            c == self.spec_cursor(),
    {
        self.cur
    }

    /// Creates a transition to a navigation from the given cursor.
    pub fn transition(cur: Cursor) -> (r: EventResult)
        ensures
            r matches EventResult::Transition(Mode::Nav(n)) && n.spec_cursor() == cur,
    {
        EventResult::transition(Mode::Nav(Self::new(cur)))
    }

    /// Handles an event while navigating: cursor motions move the cursor, entering a field
    /// opens an editor, undo pops a time into an editor, and delete clears the split's times.
    pub fn handle_event(&mut self, e: &Event, run: &mut Run) -> (r: EventResult)
        ensures
            spec_labels(final(run)) == spec_labels(old(run)),
            final(run).splits@.len() == old(run).splits@.len(),
            nav_step(*old(self), *e, spec_times(old(run)), *final(self), spec_times(final(run)), r),
    {
        match e {
            Event::Cursor(c) => self.move_cursor(*c),
            Event::EnterField(f) => self.enter_field(*f),
            Event::Undo => self.undo(run),
            Event::Delete => self.delete(run),
            _ => EventResult::NotHandled,
        }
    }

    /// Pops the last time of the split under the cursor, if any, into an editor.
    pub fn undo(&mut self, run: &mut Run) -> (r: EventResult)
        ensures
            spec_labels(final(run)) == spec_labels(old(run)),
            *final(self) == *old(self),
            final(run).splits@.len() == old(run).splits@.len(),
            ({
                let i = old(self).spec_cursor().spec_pos() as int;
                if i < old(run).splits@.len() && spec_times(old(run))[i].len() > 0 {
                    &&& spec_times(final(run)) == spec_times(old(run)).update(
                        i,
                        spec_times(old(run))[i].drop_last(),
                    )
                    &&& r matches EventResult::Transition(Mode::Editor(ed))
                    &&& ed.cur == old(self).spec_cursor()
                    &&& ed.time == human::spec_from_millis(spec_times(old(run))[i].last().0)
                    &&& ed.field is None
                } else {
                    spec_times(final(run)) == spec_times(old(run)) && r is Handled
                }
            }),
    {
        match run.pop_from(self.cur.position()) {
            Some(time) => EventResult::transition(
                Mode::Editor(Editor::with_time(self.cur, human::Time::from_millis(time.into_millis()))),
            ),
            None => EventResult::Handled,
        }
    }

    /// Removes every time of the split under the cursor.
    pub fn delete(&mut self, run: &mut Run) -> (r: EventResult)
        ensures
            spec_labels(final(run)) == spec_labels(old(run)),
            *final(self) == *old(self),
            r is Handled,
            final(run).splits@.len() == old(run).splits@.len(),
            old(self).spec_cursor().spec_pos() < old(run).splits@.len() ==> spec_times(final(run))
                == spec_times(old(run)).update(
                old(self).spec_cursor().spec_pos() as int,
                Seq::empty(),
            ),
            old(self).spec_cursor().spec_pos() >= old(run).splits@.len() ==> spec_times(final(run))
                == spec_times(old(run)),
    {
        run.clear_at(self.cur.position());
        EventResult::Handled
    }

    /// Moves the cursor one step according to `motion`; handled only if the cursor moved.
    pub fn move_cursor(&mut self, motion: Motion) -> (r: EventResult)
        ensures
            final(self).spec_cursor().spec_max() == old(self).spec_cursor().spec_max(),
            motion == Motion::Up ==> final(self).spec_cursor().spec_pos() == Cursor::up_from(
                old(self).spec_cursor().spec_pos(),
                1,
            ),
            motion == Motion::Down ==> final(self).spec_cursor().spec_pos() == Cursor::down_from(
                old(self).spec_cursor().spec_pos(),
                old(self).spec_cursor().spec_max(),
                1,
            ),
            (final(self).spec_cursor().spec_pos() != old(self).spec_cursor().spec_pos()) ==> r is Handled,
            (final(self).spec_cursor().spec_pos() == old(self).spec_cursor().spec_pos()) ==> r is NotHandled,
    {
        let moved = self.cur.move_by(motion, 1);
        EventResult::from_handled(moved)
    }

    /// Constructs an editor entering the given field.
    pub fn enter_field(&self, field: Position) -> (r: EventResult)
        ensures
            r matches EventResult::Transition(Mode::Editor(ed)) && ed.cur == self.spec_cursor()
                && ed.time == human::zero_time() && (ed.field matches Some(f) && f.spec_position()
                == field && f.spec_text().len() == 0),
    {
        let editor = Editor::new(self.cur, Some(field));
        EventResult::transition(Mode::Editor(editor))
    }
}

} // verus!
