//! Decoding logic for comparisons.
use super::error::Error;
use crate::model::short;
use crate::model::timing::aggregate::AggregateSet;
use crate::model::timing::comparison::{self, Comparison};
use crate::model::timing::time;
use crate::net::proto;
use vstd::prelude::*;

verus! {

/// The time that an optional millisecond count stands for.
pub open spec fn spec_opt_time(ms: Option<i32>) -> Option<time::Time> {
    match ms {
        Some(m) => Some(time::Time(m)),
        None => None,
    }
}

/// The model form of dumped run totals.
pub open spec fn spec_run(r: proto::DumpRun) -> comparison::Run {
    comparison::Run {
        total_in_pb_run: spec_opt_time(r.total_in_pb_run),
        sum_of_best: spec_opt_time(r.sum_of_best),
    }
}

/// The model form of a dumped split comparison; missing aggregates read as zero.
pub open spec fn spec_segment(s: proto::Segment) -> comparison::Split {
    comparison::Split {
        split_pb: time::Time(s.split_pb),
        in_pb_run: match s.in_pb_run {
            Some(a) => super::timing::spec_aggregate(a),
            None => AggregateSet { split: time::Time(0), cumulative: time::Time(0) },
        },
    }
}

/// Whether `c` is the decoding of the dumped comparison `d`: missing run totals read as
/// none, and the split comparisons are decoded entry by entry, in order.
pub open spec fn comparison_matches(d: proto::DumpComparison, c: Comparison) -> bool {
    &&& c.run == (match d.run {
        Some(r) => spec_run(r),
        None => comparison::Run { total_in_pb_run: None, sum_of_best: None },
    })
    &&& c.splits.entries@.len() == d.splits@.len()
    &&& forall|i: int|
        0 <= i < d.splits@.len() ==> {
            &&& (#[trigger] c.splits.entries@[i]).0@ == d.splits@[i].0@
            &&& c.splits.entries@[i].1 == spec_segment(d.splits@[i].1)
        }
}

/// Decodes a dumped comparison.  This cannot fail: every wire time is a valid time.
pub fn decode(cmp: &proto::DumpComparison) -> (r: Result<Comparison, Error>)
    ensures
        r matches Ok(c) && comparison_matches(*cmp, c),
{
    let run = match &cmp.run {
        Some(r) => run(r),
        None => comparison::Run::default(),
    };
    Ok(Comparison { run, splits: segments(&cmp.splits) })
}

/// Decodes an optional millisecond count.
fn opt_time(ms: Option<i32>) -> (r: Option<time::Time>)
    ensures
        r == spec_opt_time(ms),
{
    match ms {
        Some(m) => Some(time::Time::from_millis(m)),
        None => None,
    }
}

/// Decodes dumped run totals.
fn run(totals: &proto::DumpRun) -> (r: comparison::Run)
    ensures
        r == spec_run(*totals),
{
    comparison::Run {
        total_in_pb_run: opt_time(totals.total_in_pb_run),
        sum_of_best: opt_time(totals.sum_of_best),
    }
}

/// Decodes the dumped split comparisons, in order.
fn segments(wire: &Vec<(String, proto::Segment)>) -> (r: short::NameMap<comparison::Split>)
    ensures
        r.entries@.len() == wire@.len(),
        forall|i: int|
            0 <= i < wire@.len() ==> {
                &&& (#[trigger] r.entries@[i]).0@ == wire@[i].0@
                &&& r.entries@[i].1 == spec_segment(wire@[i].1)
            },
{
    let mut entries: Vec<(short::Name, comparison::Split)> = Vec::new();
    let mut i: usize = 0;
    while i < wire.len()
        invariant
            i <= wire@.len(),
            entries@.len() == i,
            forall|j: int|
                0 <= j < i ==> {
                    &&& (#[trigger] entries@[j]).0@ == wire@[j].0@
                    &&& entries@[j].1 == spec_segment(wire@[j].1)
                },
        decreases wire@.len() - i,
    {
        let (sid, seg) = &wire[i];
        entries.push((short::Name::from_str(sid.as_str()), segment(seg)));
        i = i + 1;
    }
    short::NameMap { entries }
}

/// Decodes a dumped split comparison.
fn segment(seg: &proto::Segment) -> (r: comparison::Split)
    ensures
        r == spec_segment(*seg),
{
    comparison::Split {
        in_pb_run: match &seg.in_pb_run {
            Some(a) => super::timing::aggregate(a),
            None => AggregateSet::default(),
        },
        split_pb: time::Time::from_millis(seg.split_pb),
    }
}

} // verus!
