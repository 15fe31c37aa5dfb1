//! Contains the split editor UI component.
use super::cursor::Cursor;
use super::event::{Edit, Event};
use super::mode::EventResult;
use crate::model::run::{spec_labels, spec_times, Run};
use crate::model::timing::time::error::Error;
use crate::model::timing::time::field::spec_parse_field;
use crate::model::timing::time::human::{self, signed_millis, spec_index};
use crate::model::timing::time::{self, fits_i32, Position};
use crate::text::{decimal, pad_right, pop_char, push_char, push_decimal};
use vstd::prelude::*;

verus! {

/// A split editor.
#[derive(Debug)]
pub struct Editor {
    /// The cursor on the split being edited.
    pub cur: Cursor,
    /// The time being edited.
    pub time: human::Time,
    /// The current field editor.
    pub field: Option<Field>,
}

/// A split field editor.
#[derive(Debug)]
pub struct Field {
    /// The position being edited.
    position: Position,
    /// The current string.
    string: String,
}

/// The number of digits that can be entered at each position.
pub open spec fn spec_max_digits(position: Position) -> nat {
    match position {
        Position::Hours => 0,
        Position::Minutes => 2,
        Position::Seconds => 2,
        Position::Milliseconds => 3,
    }
}

/// The number of digits that can be entered at each position.
pub fn max_digits(position: Position) -> (n: usize)
    ensures
        n == spec_max_digits(position),
{
    match position {
        Position::Hours => 0,
        Position::Minutes | Position::Seconds => 2,
        Position::Milliseconds => 3,
    }
}

/// The time `t` after committing the text `s` at `p`: the parsed value replaces the value at
/// `p`, or nothing changes if parsing fails.
pub open spec fn spec_commit_text(t: human::Time, p: Position, s: Seq<char>) -> human::Time {
    match spec_parse_field(p, s) {
        Ok(v) => match p {
            Position::Hours => human::Time { hours: v, ..t },
            Position::Minutes => human::Time { mins: v, ..t },
            Position::Seconds => human::Time { secs: v, ..t },
            Position::Milliseconds => human::Time { millis: v, ..t },
        },
        Err(_) => t,
    }
}

/// The text that the edit `e` leaves in a field at `position` holding `text`: a digit is
/// appended if there is room for it, and removing drops the last character if there is one.
pub open spec fn spec_edited(position: Position, text: Seq<char>, e: Edit) -> Seq<char> {
    match e {
        Edit::Add(d) => if spec_max_digits(position) <= text.len() {
            text
        } else {
            text + decimal(d as nat)
        },
        Edit::Remove => if text.len() == 0 {
            text
        } else {
            text.drop_last()
        },
    }
}

/// Whether the edit `e` changes a field at `position` holding `text`.
pub open spec fn spec_edit_changes(position: Position, text: Seq<char>, e: Edit) -> bool {
    match e {
        Edit::Add(_) => spec_max_digits(position) > text.len(),
        Edit::Remove => text.len() > 0,
    }
}

impl Field {
    /// The position being edited.
    pub closed spec fn spec_position(&self) -> Position {
        self.position
    }

    /// The text entered so far.
    pub closed spec fn spec_text(&self) -> Seq<char> {
        self.string@
    }

    /// Creates a new editor for position `position`, with no text.
    pub fn new(position: Position) -> (f: Self)
        ensures
            f.spec_position() == position,
            f.spec_text().len() == 0,
    {
        Self { position, string: String::new() }
    }

    /// Gets this editor's position.
    pub fn position(&self) -> (p: Position)
        ensures
            p == self.spec_position(),
    {
        self.position
    }

    /// The text entered so far.
    pub fn text(&self) -> (s: &str)
        ensures
            s@ == self.spec_text(),
    {
        self.string.as_str()
    }

    /// Performs an edit, returning whether it changed the text.
    pub fn edit(&mut self, e: &Edit) -> (changed: bool)
        ensures
            final(self).spec_position() == old(self).spec_position(),
            final(self).spec_text() == spec_edited(old(self).spec_position(), old(self).spec_text(), *e),
            changed == spec_edit_changes(old(self).spec_position(), old(self).spec_text(), *e),
            match *e {
                Edit::Add(d) => if spec_max_digits(old(self).spec_position()) <= old(
                    self,
                ).spec_text().len() {
                    !changed && final(self).spec_text() == old(self).spec_text()
                } else {
                    changed && final(self).spec_text() == old(self).spec_text() + decimal(d as nat)
                },
                Edit::Remove => if old(self).spec_text().len() == 0 {
                    !changed && final(self).spec_text() == old(self).spec_text()
                } else {
                    changed && final(self).spec_text() == old(self).spec_text().drop_last()
                },
            },
    {
        match e {
            Edit::Add(x) => self.add(*x),
            Edit::Remove => self.remove(),
        }
    }

    /// Adds a digit to the editor, unless it is full; returns whether the digit was added.
    pub fn add(&mut self, digit: u8) -> (added: bool)
        ensures
            final(self).spec_position() == old(self).spec_position(),
            spec_max_digits(old(self).spec_position()) <= old(self).spec_text().len() ==> !added
                && final(self).spec_text() == old(self).spec_text(),
            spec_max_digits(old(self).spec_position()) > old(self).spec_text().len() ==> added
                && final(self).spec_text() == old(self).spec_text() + decimal(digit as nat),
    {
        if self.max_digits() <= self.string.as_str().unicode_len() {
            false
        } else {
            push_decimal(&mut self.string, digit as u32);
            true
        }
    }

    /// Removes a digit from the editor, returning whether there was one to remove.
    pub fn remove(&mut self) -> (removed: bool)
        ensures
            final(self).spec_position() == old(self).spec_position(),
            old(self).spec_text().len() == 0 ==> !removed && final(self).spec_text() == old(
                self,
            ).spec_text(),
            old(self).spec_text().len() > 0 ==> removed && final(self).spec_text() == old(
                self,
            ).spec_text().drop_last(),
    {
        pop_char(&mut self.string).is_some()
    }

    /// Commits this editor's text to `time` at this editor's position.
    ///
    /// Fails if the text is not parseable for the particular field we're editing, leaving
    /// `time` unchanged.
    pub fn commit(&self, time: &mut human::Time) -> (r: Result<(), Error>)
        ensures
            *final(time) == spec_commit_text(*old(time), self.spec_position(), self.spec_text()),
            r is Ok <==> spec_parse_field(self.spec_position(), self.spec_text()) is Ok,
    {
        let r = time.set_field_str(self.position, self.string.as_str());
        proof {
            match spec_parse_field(self.spec_position(), self.spec_text()) {
                Ok(v) => {
                    let t = *final(time);
                    assert(spec_index(t, Position::Hours) == t.hours);
                    assert(spec_index(t, Position::Minutes) == t.mins);
                    assert(spec_index(t, Position::Seconds) == t.secs);
                    assert(spec_index(t, Position::Milliseconds) == t.millis);
                },
                Err(_) => {},
            }
        }
        r
    }

    /// The number of digits that this editor can hold.
    pub fn max_digits(&self) -> (n: usize)
        ensures
            n == spec_max_digits(self.spec_position()),
    {
        max_digits(self.position)
    }

    /// Shows the text entered so far, padded with underscores to the number of digits that the
    /// editor can hold.
    pub fn to_display_string(&self) -> (s: String)
        ensures
            s@ == pad_right(self.spec_text(), spec_max_digits(self.spec_position()), '_'),
    {
        let mut s = String::new();
        crate::text::push_str(&mut s, self.string.as_str());
        assert(s@ =~= self.string@);
        let len = self.string.as_str().unicode_len();
        let width = self.max_digits();
        if len < width {
            crate::text::push_repeat(&mut s, '_', width - len);
        }
        s
    }
}

/// Whether handling the event `e` takes the editor `before` to `after` with result `r`: edits
/// change the open field (handled only if its text changed), entering a field commits the open
/// one and opens a fresh one, and every other event is left alone, unhandled.
pub open spec fn editor_step(before: Editor, e: Event, after: Editor, r: EventResult) -> bool {
    &&& after.cur == before.cur
    &&& match e {
        Event::Edit(x) => {
            &&& after.time == before.time
            &&& match before.field {
                None => r is NotHandled && after.field is None,
                Some(f) => {
                    &&& (after.field matches Some(g) && g.spec_position() == f.spec_position()
                        && g.spec_text() == spec_edited(f.spec_position(), f.spec_text(), x))
                    &&& if spec_edit_changes(f.spec_position(), f.spec_text(), x) {
                        r is Handled
                    } else {
                        r is NotHandled
                    }
                },
            }
        },
        Event::EnterField(p) => {
            &&& r is Handled
            &&& after.time == before.spec_committed_time()
            &&& (after.field matches Some(g) && g.spec_position() == p && g.spec_text().len() == 0)
        },
        _ => r is NotHandled && after.time == before.time && after.field == before.field,
    }
}

/// The times of a run, given as `times`, after `ed` commits its time: the committed time is
/// logged against the split under the cursor, unless it cannot be stored as milliseconds or
/// there is no such split.
pub open spec fn editor_commit_times(ed: Editor, times: Seq<Seq<time::Time>>) -> Seq<Seq<time::Time>> {
    let t = ed.spec_committed_time();
    let i = ed.cur.spec_pos() as int;
    if fits_i32(signed_millis(t)) && i < times.len() {
        times.update(i, times[i].push(time::Time(signed_millis(t) as i32)))
    } else {
        times
    }
}

impl Editor {
    /// Constructs a new editor at the given cursor, on the given field if any, editing a zero
    /// time.
    pub fn new(cur: Cursor, field: Option<Position>) -> (e: Self)
        ensures
            e.cur == cur,
            e.time == human::zero_time(),
            match field {
                None => e.field is None,
                Some(p) => e.field matches Some(f) && f.spec_position() == p && f.spec_text().len()
                    == 0,
            },
    {
        Self {
            cur,
            time: human::Time::default(),
            field: match field {
                Some(p) => Some(Field::new(p)),
                None => None,
            },
        }
    }

    /// Constructs a new editor at the given cursor, editing an existing time, with no field.
    pub fn with_time(cur: Cursor, time: human::Time) -> (e: Self)
        ensures
            e.cur == cur,
            e.time == time,
            e.field is None,
    {
        Self { cur, time, field: None }
    }

    /// The time after committing any field in progress.
    pub open spec fn spec_committed_time(&self) -> human::Time {
        match self.field {
            Some(f) => spec_commit_text(self.time, f.spec_position(), f.spec_text()),
            None => self.time,
        }
    }

    /// Enters the named field, committing any edits on any current field.
    pub fn enter_field(&mut self, field: Position) -> (r: EventResult)
        ensures
            r is Handled,
            final(self).cur == old(self).cur,
            final(self).time == old(self).spec_committed_time(),
            final(self).field matches Some(f) && f.spec_position() == field && f.spec_text().len()
                == 0,
    {
        self.commit_field();
        self.field = Some(Field::new(field));
        EventResult::Handled
    }

    /// Applies an edit to the current field, if any; the edit is handled only if it changed
    /// the field's text.
    pub fn edit(&mut self, e: &Edit) -> (r: EventResult)
        ensures
            editor_step(*old(self), Event::Edit(*e), *final(self), r),
    {
        match &mut self.field {
            Some(f) => {
                if f.edit(e) {
                    EventResult::Handled
                } else {
                    EventResult::NotHandled
                }
            },
            None => EventResult::NotHandled,
        }
    }

    /// Commits the current field (if any) into the time being edited.  The field stays open.
    pub fn commit_field(&mut self)
        ensures
            final(self).cur == old(self).cur,
            final(self).time == old(self).spec_committed_time(),
            final(self).field == old(self).field,
    {
        match &self.field {
            Some(f) => {
                let _ = f.commit(&mut self.time);
            },
            None => {},
        }
    }

    /// Handles an event in editing mode: edits and field changes are the editor's own; every
    /// other event is left to the presenter.
    pub fn handle_event(&mut self, e: &Event) -> (r: EventResult)
        ensures
            editor_step(*old(self), *e, *final(self), r),
    {
        match e {
            Event::Edit(d) => self.edit(d),
            Event::EnterField(f) => self.enter_field(*f),
            _ => EventResult::NotHandled,
        }
    }

    /// Commits the edited time (with any field in progress) to the split under the cursor.
    ///
    /// A time that cannot be stored as milliseconds is dropped.
    pub fn commit(&mut self, run: &mut Run)
        ensures
            spec_labels(final(run)) == spec_labels(old(run)),
            final(self).time == old(self).spec_committed_time(),
            final(self).cur == old(self).cur,
            final(self).field == old(self).field,
            final(run).splits@.len() == old(run).splits@.len(),
            spec_times(final(run)) == editor_commit_times(*old(self), spec_times(old(run))),
    {
        self.commit_field();
        match human::to_internal(self.time) {
            Ok(t) => {
                let index = self.cur.position();
                run.push_to(index, t);
            },
            Err(_) => {},
        }
    }
}


/// A field editor at any position but hours takes exactly as many characters as the position
/// shows digits: a digit typed into a field with fewer is appended, and one typed into a full
/// field is refused.
pub proof fn law_field_holds_display_width(p: Position, text: Seq<char>, d: u8)
    requires
        p != Position::Hours,
    ensures
        spec_max_digits(p) == p.spec_default_width(),
        text.len() < p.spec_default_width() ==> spec_edit_changes(p, text, Edit::Add(d))
            && spec_edited(p, text, Edit::Add(d)) == text + decimal(d as nat),
        text.len() >= p.spec_default_width() ==> !spec_edit_changes(p, text, Edit::Add(d))
            && spec_edited(p, text, Edit::Add(d)) == text,
{
}

/// Typing three single digits into an empty milliseconds editor keeps all three, in order.
pub proof fn law_milliseconds_take_three_digits(a: u8, b: u8, c: u8)
    requires
        a < 10,
        b < 10,
        c < 10,
    ensures
        ({
            let p = Position::Milliseconds;
            let t1 = spec_edited(p, Seq::empty(), Edit::Add(a));
            let t2 = spec_edited(p, t1, Edit::Add(b));
            let t3 = spec_edited(p, t2, Edit::Add(c));
            &&& spec_edit_changes(p, Seq::empty(), Edit::Add(a))
            &&& spec_edit_changes(p, t1, Edit::Add(b))
            &&& spec_edit_changes(p, t2, Edit::Add(c))
            &&& t3 == seq![
                crate::text::digit_char(a as nat),
                crate::text::digit_char(b as nat),
                crate::text::digit_char(c as nat),
            ]
        }),
{
    let p = Position::Milliseconds;
    assert(decimal(a as nat) == seq![crate::text::digit_char(a as nat)]);
    assert(decimal(b as nat) == seq![crate::text::digit_char(b as nat)]);
    assert(decimal(c as nat) == seq![crate::text::digit_char(c as nat)]);
    let t1 = spec_edited(p, Seq::empty(), Edit::Add(a));
    assert(t1 =~= seq![crate::text::digit_char(a as nat)]);
    let t2 = spec_edited(p, t1, Edit::Add(b));
    assert(t2 =~= seq![crate::text::digit_char(a as nat), crate::text::digit_char(b as nat)]);
    let t3 = spec_edited(p, t2, Edit::Add(c));
    assert(t3 =~= seq![
        crate::text::digit_char(a as nat),
        crate::text::digit_char(b as nat),
        crate::text::digit_char(c as nat),
    ]);
}

} // verus!
