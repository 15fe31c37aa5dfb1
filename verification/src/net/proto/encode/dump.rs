//! Top-level encoding for state dumps.
use super::attempt::encodes_attempt;
use super::comparison::encodes_comparison;
use crate::model::session::{self, state};
use crate::model::short;
use crate::net::proto::{self, Code};
use vstd::prelude::*;

verus! {

/// The dumped form of a split note.
pub open spec fn spec_note(n: state::SplitNote) -> proto::SplitNote {
    proto::SplitNote {
        aggregate: Some(super::spec_aggregate(n.aggregates)),
        delta: match n.delta {
            Some(d) => Some(super::timing::spec_split_delta(d)),
            None => None,
        },
    }
}

/// Whether `w` is the dumped form of the notes `m`, entry by entry and in order.
pub open spec fn encodes_notes(m: short::NameMap<state::SplitNote>, w: Seq<(String, proto::SplitNote)>) -> bool {
    &&& w.len() == m.entries@.len()
    &&& forall|i: int|
        0 <= i < m.entries@.len() ==> {
            &&& (#[trigger] w[i]).0@ == m.entries@[i].0@
            &&& w[i].1 == spec_note(m.entries@[i].1)
        }
}

/// Whether `w` is the dump of the session state `s`.
pub open spec fn encodes_dump(s: session::State, w: proto::DumpResponse) -> bool {
    &&& w.attempt matches Some(a) && encodes_attempt(s.attempt, a)
    &&& w.comparison matches Some(c) && encodes_comparison(s.comparison, c)
    &&& encodes_notes(s.notes, w.notes@)
    &&& w.total == (match s.total {
        Some(t) => Some(super::timing::spec_total(t)),
        None => None,
    })
}

/// Encodes a dump of the session state.
///
/// This cannot fail: every attempt count fits in a `u64`.
pub fn encode(d: &session::State) -> (r: Result<proto::DumpResponse, Code>)
    ensures
        r matches Ok(w) && encodes_dump(*d, w),
{
    let attempt = match super::attempt::encode(&d.attempt) {
        Ok(a) => a,
        Err(c) => return Err(c),
    };
    Ok(
        proto::DumpResponse {
            attempt: Some(attempt),
            comparison: Some(super::comparison::encode(&d.comparison)),
            notes: notes(&d.notes),
            total: match d.total {
                Some(t) => Some(super::timing::total(t)),
                None => None,
            },
        },
    )
}

/// Encodes the split notes, in order.
fn notes(m: &short::NameMap<state::SplitNote>) -> (r: Vec<(String, proto::SplitNote)>)
    ensures
        encodes_notes(*m, r@),
{
    let mut r: Vec<(String, proto::SplitNote)> = Vec::new();
    let mut i: usize = 0;
    while i < m.entries.len()
        invariant
            i <= m.entries@.len(),
            r@.len() == i,
            forall|j: int|
                0 <= j < i ==> {
                    &&& (#[trigger] r@[j]).0@ == m.entries@[j].0@
                    &&& r@[j].1 == spec_note(m.entries@[j].1)
                },
        decreases m.entries@.len() - i,
    {
        let (sid, n) = &m.entries[i];
        r.push((sid.0.clone(), note(n)));
        i = i + 1;
    }
    r
}

/// Encodes a split note.
fn note(n: &state::SplitNote) -> (r: proto::SplitNote)
    ensures
        r == spec_note(*n),
{
    proto::SplitNote {
        aggregate: Some(super::aggregate(&n.aggregates)),
        delta: match &n.delta {
            Some(d) => Some(super::timing::split_delta(d)),
            None => None,
        },
    }
}

} // verus!
