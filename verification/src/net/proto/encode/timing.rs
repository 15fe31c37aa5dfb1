//! Timing encoding logic.
//!
//! This is the counterpart of the similarly named decoding module: deltas travel as a pace and
//! the size of the delta.
use crate::model::timing::comparison::delta::{self, Delta};
use crate::model::timing::time;
use crate::net::proto;
use vstd::prelude::*;

verus! {

/// The size of a signed millisecond count.
pub open spec fn spec_abs(m: i32) -> u32 {
    if m < 0 {
        (-(m as int)) as u32
    } else {
        m as u32
    }
}

/// The wire form of a run-level delta.
pub open spec fn spec_run_delta(d: Delta) -> proto::RunDelta {
    proto::RunDelta { pace: super::spec_pace(d.pace).spec_code(), abs_delta: spec_abs(d.time.0) }
}

/// The wire form of a split-level delta: its split-in-run pace, and the sizes of its split and
/// run deltas.
pub open spec fn spec_split_delta(d: delta::Split) -> proto::SplitDelta {
    proto::SplitDelta {
        pace: super::spec_split_in_run_pace(
            crate::model::timing::comparison::pace::spec_split_in_run(d.split.pace, d.run.pace),
        ).spec_code(),
        split_abs_delta: spec_abs(d.split.time.0),
        run_abs_delta: spec_abs(d.run.time.0),
    }
}

/// The wire form of a run total.
pub open spec fn spec_total(t: delta::Time) -> proto::Total {
    proto::Total { delta: Some(spec_run_delta(t.delta)), time: proto::Time { millis: t.time.0 } }
}

/// Encodes a time.
pub fn time(t: &time::Time) -> (r: proto::Time)
    ensures
        r == (proto::Time { millis: t.0 }),
{
    proto::Time { millis: t.into_millis() }
}

/// The size of a time, in milliseconds.
pub fn abs_millis(t: time::Time) -> (r: u32)
    ensures
        r == spec_abs(t.0),
        r == (if t.0 < 0 {
            -t.0
        } else {
            t.0 as int
        }),
{
    let m = t.into_millis();
    if m < 0 {
        let wide: i64 = -(m as i64);
        wide as u32
    } else {
        m as u32
    }
}

/// Encodes a run total.
pub fn total(t: delta::Time) -> (r: proto::Total)
    ensures
        r == spec_total(t),
{
    proto::Total { delta: Some(run_delta(&t.delta)), time: time(&t.time) }
}

/// Encodes a split-level time delta.
pub fn split_delta(d: &delta::Split) -> (r: proto::SplitDelta)
    ensures
        r == spec_split_delta(*d),
{
    proto::SplitDelta {
        pace: super::split_in_run_pace(d.pace()).code(),
        split_abs_delta: abs_millis(d.split.time),
        run_abs_delta: abs_millis(d.run.time),
    }
}

/// Encodes a run-level time delta.
pub fn run_delta(d: &Delta) -> (r: proto::RunDelta)
    ensures
        r == spec_run_delta(*d),
{
    proto::RunDelta { pace: super::pace(d.pace()).code(), abs_delta: abs_millis(d.time) }
}

} // verus!
