//! Decoding logic for top-level session dumps.
use super::attempt::{decodes_attempt, spec_info};
use super::comparison::comparison_matches;
use super::error::{Error, Missing};
use super::timing::{spec_aggregate, spec_split_delta, spec_total};
use crate::model::session::{self, state};
use crate::model::short;
use crate::model::timing::aggregate::AggregateSet;
use crate::model::timing::comparison::{self, delta, Comparison};
use crate::model::timing::time;
use crate::net::proto;
use vstd::prelude::*;

verus! {

/// The model form of a dumped split note: missing aggregates read as zero.
pub open spec fn spec_note(n: proto::SplitNote) -> Result<state::SplitNote, Error> {
    let aggregates = match n.aggregate {
        Some(a) => spec_aggregate(a),
        None => AggregateSet { split: time::Time(0), cumulative: time::Time(0) },
    };
    match n.delta {
        None => Ok(state::SplitNote { aggregates, delta: None }),
        Some(d) => match spec_split_delta(d) {
            Ok(sd) => Ok(state::SplitNote { aggregates, delta: Some(sd) }),
            Err(e) => Err(e),
        },
    }
}

/// Whether every note in `ns` decodes.
pub open spec fn notes_ok(ns: Seq<(String, proto::SplitNote)>) -> bool {
    forall|i: int| 0 <= i < ns.len() ==> (#[trigger] spec_note(ns[i].1)) is Ok
}

/// Whether `e` is the error of the first note in `ns` that does not decode.
pub open spec fn notes_fail_with(ns: Seq<(String, proto::SplitNote)>, e: Error) -> bool {
    exists|i: int|
        0 <= i < ns.len() && #[trigger] spec_note(ns[i].1) == Err::<state::SplitNote, Error>(e)
            && forall|j: int| 0 <= j < i ==> (#[trigger] spec_note(ns[j].1)) is Ok
}

/// Whether `m` holds, entry by entry and in order, the decoding of the notes `ns`.
pub open spec fn notes_match(ns: Seq<(String, proto::SplitNote)>, m: short::NameMap<state::SplitNote>) -> bool {
    &&& m.entries@.len() == ns.len()
    &&& forall|i: int|
        0 <= i < ns.len() ==> {
            &&& (#[trigger] m.entries@[i]).0@ == ns[i].0@
            &&& spec_note(ns[i].1) == Ok::<state::SplitNote, Error>(m.entries@[i].1)
        }
}

/// Whether a dumped attempt has what decoding needs, or the error that decoding it gives.
pub open spec fn spec_attempt_check(a: proto::DumpAttempt) -> Result<(), Error> {
    match a.game_category {
        None => Err(Error::Missing(Missing::AttemptInfo)),
        Some(_) => match spec_info(a) {
            Ok(_) => Ok(()),
            Err(e) => Err(e),
        },
    }
}

/// The model form of a dump's optional total.
pub open spec fn spec_dump_total(d: proto::DumpResponse) -> Result<Option<delta::Time>, Error> {
    match d.total {
        None => Ok(None),
        Some(t) => match spec_total(t) {
            Ok(x) => Ok(Some(x)),
            Err(e) => Err(e),
        },
    }
}

/// Whether `c` is the decoding of a dump's optional comparison; a missing one reads as the
/// empty comparison.
pub open spec fn dump_comparison_matches(d: Option<proto::DumpComparison>, c: Comparison) -> bool {
    match d {
        Some(w) => comparison_matches(w, c),
        None => c.splits.entries@.len() == 0 && c.run == comparison::Run {
            total_in_pb_run: None,
            sum_of_best: None,
        },
    }
}

/// Whether `r` is the decoding of the dump `d`.  The parts are decoded, and checked, in the
/// order attempt, comparison, notes, total; the first failure is the result.
pub open spec fn decodes_dump(d: proto::DumpResponse, r: Result<session::State, Error>) -> bool {
    match d.attempt {
        None => r == Err::<session::State, Error>(Error::Missing(Missing::Attempt)),
        Some(a) => match spec_attempt_check(a) {
            Err(e) => r == Err::<session::State, Error>(e),
            Ok(_) => if !notes_ok(d.notes@) {
                r matches Err(e) && notes_fail_with(d.notes@, e)
            } else {
                match spec_dump_total(d) {
                    Err(e) => r == Err::<session::State, Error>(e),
                    Ok(t) => r matches Ok(s) && decodes_attempt(
                        a,
                        Ok::<session::Attempt, Error>(s.attempt),
                    ) && dump_comparison_matches(d.comparison, s.comparison) && notes_match(
                        d.notes@,
                        s.notes,
                    ) && s.total == t,
                }
            },
        },
    }
}

/// Decodes a dump of the session state.
///
/// Fails if the attempt is missing or cannot be decoded, or if a note or the total holds a
/// delta that cannot be stored.
pub fn dump(d: &proto::DumpResponse) -> (r: Result<session::State, Error>)
    ensures
        decodes_dump(*d, r),
{
    let wire_attempt = match Missing::Attempt.require(d.attempt.as_ref()) {
        Ok(a) => a,
        Err(e) => return Err(e),
    };
    let attempt = match super::attempt::decode(wire_attempt) {
        Ok(a) => a,
        Err(e) => return Err(e),
    };
    let comparison = match &d.comparison {
        Some(c) => match super::comparison::decode(c) {
            Ok(c) => c,
            Err(e) => return Err(e),
        },
        None => Comparison::default(),
    };
    let notes = match notes(&d.notes) {
        Ok(n) => n,
        Err(e) => return Err(e),
    };
    let total = match &d.total {
        None => None,
        Some(t) => match super::timing::total(t) {
            Ok(x) => Some(x),
            Err(e) => return Err(e),
        },
    };
    Ok(session::State { attempt, comparison, notes, total })
}

/// Decodes the dumped notes, in order.
///
/// Fails with the error of the first note that does not decode.
pub fn notes(wire: &Vec<(String, proto::SplitNote)>) -> (r: Result<short::NameMap<state::SplitNote>, Error>)
    ensures
        match r {
            Ok(m) => notes_ok(wire@) && notes_match(wire@, m),
            Err(e) => !notes_ok(wire@) && notes_fail_with(wire@, e),
        },
{
    let mut entries: Vec<(short::Name, state::SplitNote)> = Vec::new();
    let mut i: usize = 0;
    while i < wire.len()
        invariant
            i <= wire@.len(),
            entries@.len() == i,
            forall|j: int|
                0 <= j < i ==> {
                    &&& (#[trigger] entries@[j]).0@ == wire@[j].0@
                    &&& spec_note(wire@[j].1) == Ok::<state::SplitNote, Error>(entries@[j].1)
                },
        decreases wire@.len() - i,
    {
        let (sid, n) = &wire[i];
        match note(n) {
            Ok(x) => {
                entries.push((short::Name::from_str(sid.as_str()), x));
            },
            Err(e) => {
                assert forall|j: int| 0 <= j < i implies (#[trigger] spec_note(wire@[j].1)) is Ok by {
                    assert(entries@[j].0@ == wire@[j].0@);
                }
                assert(spec_note(wire@[i as int].1) == Err::<state::SplitNote, Error>(e));
                return Err(e);
            },
        }
        i = i + 1;
    }
    let m = short::NameMap { entries };
    assert forall|j: int| 0 <= j < wire@.len() implies (#[trigger] spec_note(wire@[j].1)) is Ok by {
        assert(entries@[j].0@ == wire@[j].0@);
    }
    assert(notes_match(wire@, m));
    Ok(m)
}

/// Decodes a dumped split note.
///
/// Fails if its delta cannot be stored.
pub fn note(n: &proto::SplitNote) -> (r: Result<state::SplitNote, Error>)
    ensures
        r == spec_note(*n),
{
    let aggregates = match &n.aggregate {
        Some(a) => super::timing::aggregate(a),
        None => AggregateSet::default(),
    };
    let delta = match &n.delta {
        None => None,
        Some(d) => match super::timing::split_delta(d) {
            Ok(sd) => Some(sd),
            Err(e) => return Err(e),
        },
    };
    Ok(state::SplitNote { aggregates, delta })
}

} // verus!
