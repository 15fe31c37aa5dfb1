//! Encoding logic for comparisons.
use crate::model::short;
use crate::model::timing::comparison::{self, Comparison};
use crate::model::timing::time;
use crate::net::proto;
use vstd::prelude::*;

verus! {

/// The millisecond count of an optional time.
pub open spec fn spec_opt_millis(t: Option<time::Time>) -> Option<i32> {
    match t {
        Some(u) => Some(u.0),
        None => None,
    }
}

/// The dumped form of run totals.
pub open spec fn spec_run(r: comparison::Run) -> proto::DumpRun {
    proto::DumpRun {
        total_in_pb_run: spec_opt_millis(r.total_in_pb_run),
        sum_of_best: spec_opt_millis(r.sum_of_best),
    }
}

/// The dumped form of a split comparison.
pub open spec fn spec_segment(s: comparison::Split) -> proto::Segment {
    proto::Segment { in_pb_run: Some(super::spec_aggregate(s.in_pb_run)), split_pb: s.split_pb.0 }
}

/// Whether `w` is the dumped form of the comparison `c`, entry by entry and in order.
pub open spec fn encodes_comparison(c: Comparison, w: proto::DumpComparison) -> bool {
    &&& w.run == Some(spec_run(c.run))
    &&& w.splits@.len() == c.splits.entries@.len()
    &&& forall|i: int|
        0 <= i < c.splits.entries@.len() ==> {
            &&& (#[trigger] w.splits@[i]).0@ == c.splits.entries@[i].0@
            &&& w.splits@[i].1 == spec_segment(c.splits.entries@[i].1)
        }
}

/// Encodes a comparison into its dumped form.
pub fn encode(cmp: &Comparison) -> (r: proto::DumpComparison)
    ensures
        encodes_comparison(*cmp, r),
{
    proto::DumpComparison { run: Some(run(&cmp.run)), splits: segments(&cmp.splits) }
}

/// Encodes an optional time.
fn opt_millis(t: Option<time::Time>) -> (r: Option<i32>)
    ensures
        r == spec_opt_millis(t),
{
    match t {
        Some(u) => Some(u.into_millis()),
        None => None,
    }
}

/// Encodes run totals.
fn run(totals: &comparison::Run) -> (r: proto::DumpRun)
    ensures
        r == spec_run(*totals),
{
    proto::DumpRun {
        sum_of_best: opt_millis(totals.sum_of_best),
        total_in_pb_run: opt_millis(totals.total_in_pb_run),
    }
}

/// Encodes the split comparisons, in order.
fn segments(m: &short::NameMap<comparison::Split>) -> (r: Vec<(String, proto::Segment)>)
    ensures
        r@.len() == m.entries@.len(),
        forall|i: int|
            0 <= i < m.entries@.len() ==> {
                &&& (#[trigger] r@[i]).0@ == m.entries@[i].0@
                &&& r@[i].1 == spec_segment(m.entries@[i].1)
            },
{
    let mut r: Vec<(String, proto::Segment)> = Vec::new();
    let mut i: usize = 0;
    while i < m.entries.len()
        invariant
            i <= m.entries@.len(),
            r@.len() == i,
            forall|j: int|
                0 <= j < i ==> {
                    &&& (#[trigger] r@[j]).0@ == m.entries@[j].0@
                    &&& r@[j].1 == spec_segment(m.entries@[j].1)
                },
        decreases m.entries@.len() - i,
    {
        let (sid, sp) = &m.entries[i];
        r.push((sid.0.clone(), segment(sp)));
        i = i + 1;
    }
    r
}

/// Encodes a split comparison.
fn segment(s: &comparison::Split) -> (r: proto::Segment)
    ensures
        r == spec_segment(*s),
{
    proto::Segment { in_pb_run: Some(super::aggregate(&s.in_pb_run)), split_pb: s.split_pb.into_millis() }
}

} // verus!
