//! What decoding gives back of what encoding wrote.
//!
//! Paces, pop types, attempt counts, aggregates, actions and events come back exactly.  Deltas
//! travel as a pace and an unsigned size, so they come back exactly when their signs agree with
//! their paces (and, for split deltas, when their pair of paces is the one that their
//! split-in-run pace stands for); the split-in-run pace itself always comes back.
use super::decode;
use super::decode::error::Error;
use super::encode;
use crate::model::game::category::AttemptInfo;
use crate::model::run;
use crate::model::session::{self, action, event::Event, state};
use crate::model::short;
use crate::model::timing::aggregate::AggregateSet;
use crate::model::timing::comparison::delta::{self, Delta};
use crate::model::timing::comparison::pace::{spec_split_in_run, Pace, SplitInRun};
use crate::model::timing::time;
use vstd::prelude::*;

verus! {

/// Whether the sign of a delta agrees with its pace: positive when behind, and zero or
/// negative otherwise.
pub open spec fn sign_agrees(d: Delta) -> bool {
    if d.pace == Pace::Behind {
        d.time@ > 0
    } else {
        d.time@ <= 0
    }
}

/// Whether the pair of paces of a split delta is the pair that its split-in-run pace stands
/// for.
pub open spec fn paces_canonical(d: delta::Split) -> bool {
    decode::timing::spec_pace_pair(spec_split_in_run(d.split.pace, d.run.pace)) == (
        d.split.pace,
        d.run.pace,
    )
}

/// Whether a split delta comes back exactly from the wire.
pub open spec fn split_delta_transmissible(d: delta::Split) -> bool {
    sign_agrees(d.split) && sign_agrees(d.run) && paces_canonical(d)
}

/// Every pace comes back from its wire code.
pub proof fn law_pace_roundtrip(p: Pace)
    ensures
        decode::spec_pace_of_code(encode::spec_pace(p).spec_code()) == Some(p),
{
}

/// Every split-in-run pace comes back from its wire code.
pub proof fn law_split_in_run_pace_roundtrip(p: SplitInRun)
    ensures
        decode::spec_split_in_run_pace_of_code(encode::spec_split_in_run_pace(p).spec_code()) == Some(
            p,
        ),
{
}

/// Every pop type comes back from its wire code.
pub proof fn law_pop_roundtrip(p: action::Pop)
    ensures
        decode::spec_pop(encode::spec_pop(p)) == Ok::<action::Pop, Error>(p),
{
}

/// Attempt counts come back from the wire.
pub proof fn law_attempt_info_roundtrip(a: AttemptInfo)
    ensures
        decode::spec_attempt_info(encode::spec_attempt_info(a)) == Ok::<AttemptInfo, Error>(a),
{
}

/// Aggregate pairs come back from the wire.
pub proof fn law_aggregate_roundtrip(agg: AggregateSet)
    ensures
        decode::timing::spec_aggregate(encode::spec_aggregate(agg)) == agg,
{
}

/// A push action comes back from its request.
pub proof fn law_push_roundtrip(index: usize, t: time::Time)
    ensures
        decode::action::spec_push(super::PushRequest { index: index as u64, time: t.0 }) == Ok::<
            session::Action,
            Error,
        >(session::Action::Push(index, t)),
{
}

/// A pop action comes back from its request.
pub proof fn law_pop_request_roundtrip(index: usize, ty: action::Pop)
    ensures
        decode::action::spec_pop(
            super::PopRequest { index: index as u64, pop_type: encode::spec_pop(ty) },
        ) == Ok::<session::Action, Error>(session::Action::Pop(index, ty)),
{
}

/// A run delta whose sign agrees with its pace comes back from the wire.
pub proof fn law_run_delta_roundtrip(d: Delta)
    requires
        sign_agrees(d),
    ensures
        decode::timing::spec_run_delta(encode::timing::spec_run_delta(d)) == Ok::<Delta, Error>(d),
{
}

/// A run total whose delta's sign agrees with its pace comes back from the wire.
pub proof fn law_total_roundtrip(t: delta::Time)
    requires
        sign_agrees(t.delta),
    ensures
        decode::timing::spec_total(encode::timing::spec_total(t)) == Ok::<delta::Time, Error>(t),
{
}

/// A split delta whose signs agree with its paces, and whose paces are the pair that its
/// split-in-run pace stands for, comes back from the wire.
pub proof fn law_split_delta_roundtrip(d: delta::Split)
    requires
        split_delta_transmissible(d),
    ensures
        decode::timing::spec_split_delta(encode::timing::spec_split_delta(d)) == Ok::<
            delta::Split,
            Error,
        >(d),
{
}

/// The split-in-run pace of any split delta whose sizes fit in an `i32` comes back from the
/// wire.
pub proof fn law_split_delta_keeps_pace(d: delta::Split)
    requires
        d.split.time.0 != i32::MIN,
        d.run.time.0 != i32::MIN,
    ensures
        decode::timing::spec_split_delta(encode::timing::spec_split_delta(d)) matches Ok(back)
            && spec_split_in_run(back.split.pace, back.run.pace) == spec_split_in_run(
            d.split.pace,
            d.run.pace,
        ),
{
}

/// Whether two events say the same thing.
pub open spec fn same_event(a: Event, b: Event) -> bool {
    match (a, b) {
        (Event::Total(t1, v1), Event::Total(t2, v2)) => t1 == t2 && v1 == v2,
        (Event::Reset(i1), Event::Reset(i2)) => i1 == i2,
        (Event::Split(n1, s1), Event::Split(n2, s2)) => n1@ == n2@ && s1 == s2,
        _ => false,
    }
}

/// Decoding the wire form of an event gives the event back.
pub proof fn law_event_roundtrip(e: Event, w: super::Event, r: Result<Event, Error>)
    requires
        encode::event::encodes_event(e, w),
        w.payload is Some,
        decode::event::decodes_payload(w.payload->0, r),
    ensures
        r matches Ok(back) && same_event(e, back),
{
}

/// Whether two splits hold the same data.
pub open spec fn same_split(a: run::Split, b: run::Split) -> bool {
    a.short@ == b.short@ && a.name@ == b.name@ && a.times@ == b.times@
}

/// Whether two attempts hold the same data.
pub open spec fn same_attempt(a: session::Attempt, b: session::Attempt) -> bool {
    &&& a.info == b.info
    &&& a.category.game@ == b.category.game@
    &&& a.category.category@ == b.category.category@
    &&& a.category.short.game@ == b.category.short.game@
    &&& a.category.short.category@ == b.category.short.category@
    &&& a.splits@.len() == b.splits@.len()
    &&& forall|i: int| 0 <= i < a.splits@.len() ==> #[trigger] same_split(a.splits@[i], b.splits@[i])
}

/// Whether two name maps hold the same entries, in the same order.
pub open spec fn same_entries<V>(a: short::NameMap<V>, b: short::NameMap<V>) -> bool {
    &&& a.entries@.len() == b.entries@.len()
    &&& forall|i: int|
        0 <= i < a.entries@.len() ==> (#[trigger] a.entries@[i]).0@ == b.entries@[i].0@
            && a.entries@[i].1 == b.entries@[i].1
}

/// Whether two session states hold the same data.
pub open spec fn same_state(a: session::State, b: session::State) -> bool {
    &&& same_attempt(a.attempt, b.attempt)
    &&& a.comparison.run == b.comparison.run
    &&& same_entries(a.comparison.splits, b.comparison.splits)
    &&& same_entries(a.notes, b.notes)
    &&& a.total == b.total
}

/// Whether every delta in a session state comes back exactly from the wire.
pub open spec fn state_transmissible(s: session::State) -> bool {
    &&& forall|i: int|
        0 <= i < s.notes.entries@.len() ==> ((#[trigger] s.notes.entries@[i]).1.delta matches Some(
            d,
        ) ==> split_delta_transmissible(d))
    &&& (s.total matches Some(t) ==> sign_agrees(t.delta))
}

/// Decoding the dump of a session state gives the state back, when every delta in it comes
/// back exactly from the wire.
pub proof fn law_dump_roundtrip(s: session::State, w: super::DumpResponse, r: Result<session::State, Error>)
    requires
        state_transmissible(s),
        encode::dump::encodes_dump(s, w),
        decode::dump::decodes_dump(w, r),
    ensures
        r matches Ok(back) && same_state(s, back),
{
    let a = w.attempt->0;
    assert forall|i: int| 0 <= i < w.notes@.len() implies decode::dump::spec_note(w.notes@[i].1)
        == Ok::<state::SplitNote, Error>(s.notes.entries@[i].1) by {
        let n = s.notes.entries@[i].1;
        assert(w.notes@[i].1 == encode::dump::spec_note(n));
        law_aggregate_roundtrip(n.aggregates);
        if let Some(d) = n.delta {
            law_split_delta_roundtrip(d);
        }
    }
    assert(decode::dump::notes_ok(w.notes@));
    if let Some(t) = s.total {
        law_total_roundtrip(t);
    }
    let back = r->Ok_0;
    assert forall|i: int| 0 <= i < s.attempt.splits@.len() implies #[trigger] same_split(
        s.attempt.splits@[i],
        back.attempt.splits@[i],
    ) by {
        assert(encode::attempt::encodes_split(s.attempt.splits@[i], a.splits@[i]));
        assert(decode::attempt::split_matches(a.splits@[i], back.attempt.splits@[i]));
        assert(decode::attempt::spec_times(encode::attempt::spec_millis(s.attempt.splits@[i].times@))
            =~= s.attempt.splits@[i].times@);
    }
    let c = w.comparison->0;
    assert forall|i: int| 0 <= i < s.comparison.splits.entries@.len() implies (
    #[trigger] s.comparison.splits.entries@[i]).0@ == back.comparison.splits.entries@[i].0@
        && s.comparison.splits.entries@[i].1 == back.comparison.splits.entries@[i].1 by {
        assert(c.splits@[i].0@ == s.comparison.splits.entries@[i].0@);
        assert(back.comparison.splits.entries@[i].0@ == c.splits@[i].0@);
        law_aggregate_roundtrip(s.comparison.splits.entries@[i].1.in_pb_run);
    }
    assert forall|i: int| 0 <= i < s.notes.entries@.len() implies (
    #[trigger] s.notes.entries@[i]).0@ == back.notes.entries@[i].0@ && s.notes.entries@[i].1
        == back.notes.entries@[i].1 by {
        assert(w.notes@[i].0@ == s.notes.entries@[i].0@);
        assert(back.notes.entries@[i].0@ == w.notes@[i].0@);
        assert(decode::dump::spec_note(w.notes@[i].1) == Ok::<state::SplitNote, Error>(
            s.notes.entries@[i].1,
        ));
    }
}

/// The server reads back, from the request that the client sends for an action, the action
/// itself.
pub proof fn law_request_roundtrip(a: session::Action)
    ensures
        match crate::net::client::spec_request(a) {
            crate::net::client::Request::NewAttempt(r) => crate::net::server::spec_new_attempt(r)
                == a,
            crate::net::client::Request::Push(r) => decode::action::spec_push(r) == Ok::<
                session::Action,
                Error,
            >(a),
            crate::net::client::Request::Pop(r) => decode::action::spec_pop(r) == Ok::<
                session::Action,
                Error,
            >(a),
        },
{
}


/// The wire pace of a split that is merely ahead or behind, in a run that is ahead or behind,
/// names the run's pace and, where the split goes against it, the split's: `Behind` (code 1)
/// and `Ahead` (code 4) when they agree, `BehindButGaining` (code 2) for a gaining split in a
/// run behind, and `AheadButLosing` (code 3) for a losing split in a run ahead.  Decoding that
/// wire pace gives back the split-in-run note.
pub proof fn law_split_in_run_wire_pace(split: Pace, run_so_far: Pace)
    requires
        split == Pace::Ahead || split == Pace::Behind,
        run_so_far == Pace::Ahead || run_so_far == Pace::Behind,
    ensures
        ({
            let w = if run_so_far == Pace::Behind {
                if split == Pace::Behind {
                    super::Pace::Behind
                } else {
                    super::Pace::BehindButGaining
                }
            } else {
                if split == Pace::Behind {
                    super::Pace::AheadButLosing
                } else {
                    super::Pace::Ahead
                }
            };
            let code: i32 = if run_so_far == Pace::Behind {
                if split == Pace::Behind {
                    1
                } else {
                    2
                }
            } else {
                if split == Pace::Behind {
                    3
                } else {
                    4
                }
            };
            &&& encode::spec_split_in_run_pace(spec_split_in_run(split, run_so_far)) == w
            &&& w.spec_code() == code
            &&& decode::timing::spec_split_in_run_pace(w) == spec_split_in_run(split, run_so_far)
        }),
{
}


/// Read as a run pace, the wire pace of any split-in-run note but a personal best gives the
/// note's overall pace; and every wire pace but a personal best reads, as a run pace, as the
/// overall pace of the note it stands for.
pub proof fn law_wire_pace_is_overall(n: SplitInRun, w: super::Pace)
    ensures
        n != SplitInRun::SplitPersonalBest ==> decode::timing::spec_pace(
            encode::spec_split_in_run_pace(n),
        ) == crate::model::timing::comparison::pace::spec_overall(n),
        w != super::Pace::PersonalBest ==> decode::timing::spec_pace(w)
            == crate::model::timing::comparison::pace::spec_overall(
            decode::timing::spec_split_in_run_pace(w),
        ),
{
}

} // verus!
