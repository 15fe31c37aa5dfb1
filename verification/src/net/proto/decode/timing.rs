//! Timing decoding logic.
//!
//! This is the counterpart of the similarly named encoding module.  Deltas travel as a pace and
//! an unsigned amount; the sign of the amount is recovered from the pace (positive when behind,
//! and zero or negative otherwise).
use super::error::Error;
use crate::model::timing::aggregate::AggregateSet;
use crate::model::timing::comparison::delta::{self, Delta};
use crate::model::timing::comparison::pace::{Pace, SplitInRun};
use crate::model::timing::time;
use crate::net::proto;
use vstd::prelude::*;

verus! {

/// The model pace that a wire pace denotes.
pub open spec fn spec_pace(p: proto::Pace) -> Pace {
    match p {
        proto::Pace::NoPace => Pace::Inconclusive,
        proto::Pace::Behind => Pace::Behind,
        proto::Pace::BehindButGaining => Pace::Behind,
        proto::Pace::Ahead => Pace::Ahead,
        proto::Pace::AheadButLosing => Pace::Ahead,
        proto::Pace::PersonalBest => Pace::PersonalBest,
    }
}

/// The model split-in-run pace that a wire pace denotes.
pub open spec fn spec_split_in_run_pace(p: proto::Pace) -> SplitInRun {
    match p {
        proto::Pace::NoPace => SplitInRun::Inconclusive,
        proto::Pace::Behind => SplitInRun::BehindAndLosing,
        proto::Pace::BehindButGaining => SplitInRun::BehindAndGaining,
        proto::Pace::AheadButLosing => SplitInRun::AheadAndLosing,
        proto::Pace::Ahead => SplitInRun::AheadAndGaining,
        proto::Pace::PersonalBest => SplitInRun::SplitPersonalBest,
    }
}

/// The (split, run) pair of paces that a split-in-run pace stands for.
pub open spec fn spec_pace_pair(p: SplitInRun) -> (Pace, Pace) {
    match p {
        SplitInRun::Inconclusive => (Pace::Inconclusive, Pace::Inconclusive),
        SplitInRun::SplitPersonalBest => (Pace::PersonalBest, Pace::Ahead),
        SplitInRun::BehindAndLosing => (Pace::Behind, Pace::Behind),
        SplitInRun::BehindAndGaining => (Pace::Ahead, Pace::Behind),
        SplitInRun::AheadAndLosing => (Pace::Behind, Pace::Ahead),
        SplitInRun::AheadAndGaining => (Pace::Ahead, Pace::Ahead),
    }
}

/// The signed delta amount that `abs` stands for under `pace`, if it can be stored.
pub open spec fn spec_signed_amount(pace: Pace, abs: u32) -> Result<time::Time, Error> {
    if pace == Pace::Behind {
        if abs <= i32::MAX {
            Ok(time::Time(abs as i32))
        } else {
            Err(Error::IndexConversion)
        }
    } else {
        if abs <= 0x8000_0000u32 {
            Ok(time::Time((-(abs as int)) as i32))
        } else {
            Err(Error::IndexConversion)
        }
    }
}

/// The delta with pace `pace` and unsigned amount `abs`, if the amount can be stored.
pub open spec fn spec_delta(pace: Pace, abs: u32) -> Result<Delta, Error> {
    match spec_signed_amount(pace, abs) {
        Ok(t) => Ok(Delta { pace, time: t }),
        Err(e) => Err(e),
    }
}

/// The model form of a wire run delta.  Unknown pace codes read as no pace.
pub open spec fn spec_run_delta(d: proto::RunDelta) -> Result<Delta, Error> {
    spec_delta(spec_pace(proto::Pace::spec_from_code_or_default(d.pace)), d.abs_delta)
}

/// The model form of a wire split delta.  Unknown pace codes read as no pace.
pub open spec fn spec_split_delta(d: proto::SplitDelta) -> Result<delta::Split, Error> {
    let paces = spec_pace_pair(
        spec_split_in_run_pace(proto::Pace::spec_from_code_or_default(d.pace)),
    );
    match spec_delta(paces.0, d.split_abs_delta) {
        Err(e) => Err(e),
        Ok(split) => match spec_delta(paces.1, d.run_abs_delta) {
            Err(e) => Err(e),
            Ok(run) => Ok(delta::Split { split, run }),
        },
    }
}

/// The model form of a wire aggregate pair; missing times read as zero.
pub open spec fn spec_aggregate(agg: proto::Aggregate) -> AggregateSet {
    AggregateSet {
        split: match agg.split {
            Some(t) => time::Time(t.millis),
            None => time::Time(0),
        },
        cumulative: match agg.cumulative {
            Some(t) => time::Time(t.millis),
            None => time::Time(0),
        },
    }
}

/// The model form of a wire run total; a missing delta reads as the default delta.
pub open spec fn spec_total(t: proto::Total) -> Result<delta::Time, Error> {
    match t.delta {
        None => Ok(
            delta::Time {
                delta: Delta { pace: Pace::Inconclusive, time: time::Time(0) },
                time: time::Time(t.time.millis),
            },
        ),
        Some(d) => match spec_run_delta(d) {
            Ok(dl) => Ok(delta::Time { delta: dl, time: time::Time(t.time.millis) }),
            Err(e) => Err(e),
        },
    }
}

/// Decodes a wire pace into a model pace.
pub fn pace(p: proto::Pace) -> (r: Pace)
    ensures
        r == spec_pace(p),
{
    match p {
        proto::Pace::NoPace => Pace::Inconclusive,
        proto::Pace::Behind => Pace::Behind,
        proto::Pace::BehindButGaining => Pace::Behind,
        proto::Pace::Ahead => Pace::Ahead,
        proto::Pace::AheadButLosing => Pace::Ahead,
        proto::Pace::PersonalBest => Pace::PersonalBest,
    }
}

/// Decodes a wire pace into a model split-in-run pace.
pub fn split_in_run_pace(p: proto::Pace) -> (r: SplitInRun)
    ensures
        r == spec_split_in_run_pace(p),
{
    match p {
        proto::Pace::NoPace => SplitInRun::Inconclusive,
        proto::Pace::Behind => SplitInRun::BehindAndLosing,
        proto::Pace::BehindButGaining => SplitInRun::BehindAndGaining,
        proto::Pace::AheadButLosing => SplitInRun::AheadAndLosing,
        proto::Pace::Ahead => SplitInRun::AheadAndGaining,
        proto::Pace::PersonalBest => SplitInRun::SplitPersonalBest,
    }
}

/// Splits a split-in-run pace into the split pace and run pace that it stands for.
pub fn pace_pair(p: SplitInRun) -> (r: (Pace, Pace))
    ensures
        r == spec_pace_pair(p),
{
    match p {
        SplitInRun::Inconclusive => (Pace::Inconclusive, Pace::Inconclusive),
        SplitInRun::SplitPersonalBest => (Pace::PersonalBest, Pace::Ahead),
        SplitInRun::BehindAndLosing => (Pace::Behind, Pace::Behind),
        SplitInRun::BehindAndGaining => (Pace::Ahead, Pace::Behind),
        SplitInRun::AheadAndLosing => (Pace::Behind, Pace::Ahead),
        SplitInRun::AheadAndGaining => (Pace::Ahead, Pace::Ahead),
    }
}

/// Decodes an unsigned delta amount with pace `pace` into a delta.
///
/// Fails with `IndexConversion` if the signed amount cannot be stored.
pub fn delta(pace: Pace, abs: u32) -> (r: Result<Delta, Error>)
    ensures
        r == spec_delta(pace, abs),
{
    let wide: i64 = if pace == Pace::Behind {
        abs as i64
    } else {
        -(abs as i64)
    };
    if wide < (i32::MIN as i64) || wide > (i32::MAX as i64) {
        Err(Error::IndexConversion)
    } else {
        Ok(Delta { pace, time: time::Time(wide as i32) })
    }
}

/// Decodes a run-level time delta.
///
/// Fails with `IndexConversion` if the amount is too large to represent a valid delta.
pub fn run_delta(d: &proto::RunDelta) -> (r: Result<Delta, Error>)
    ensures
        r == spec_run_delta(*d),
{
    delta(pace(proto::Pace::from_code_or_default(d.pace)), d.abs_delta)
}

/// Decodes a split-level time delta.
///
/// Fails with `IndexConversion` if either amount is too large to represent a valid delta.
pub fn split_delta(d: &proto::SplitDelta) -> (r: Result<delta::Split, Error>)
    ensures
        r == spec_split_delta(*d),
{
    let paces = pace_pair(split_in_run_pace(proto::Pace::from_code_or_default(d.pace)));
    let split = match delta(paces.0, d.split_abs_delta) {
        Ok(s) => s,
        Err(e) => return Err(e),
    };
    let run = match delta(paces.1, d.run_abs_delta) {
        Ok(r) => r,
        Err(e) => return Err(e),
    };
    Ok(delta::Split { split, run })
}

/// Decodes a time.
pub fn time(t: &proto::Time) -> (r: time::Time)
    ensures
        r == time::Time(t.millis),
{
    time::Time::from_millis(t.millis)
}

/// Decodes an optional time, reading a missing one as zero.
fn time_or_zero(t: &Option<proto::Time>) -> (r: time::Time)
    ensures
        r == (match *t {
            Some(u) => time::Time(u.millis),
            None => time::Time(0),
        }),
{
    match t {
        Some(u) => time(u),
        None => time::Time::zero(),
    }
}

/// Decodes an aggregate pair.
pub fn aggregate(agg: &proto::Aggregate) -> (r: AggregateSet)
    ensures
        r == spec_aggregate(*agg),
{
    AggregateSet { split: time_or_zero(&agg.split), cumulative: time_or_zero(&agg.cumulative) }
}

/// Decodes a run-wide total.
///
/// Fails with `IndexConversion` if the delta amount is too large to represent a valid delta.
pub fn total(t: &proto::Total) -> (r: Result<delta::Time, Error>)
    ensures
        r == spec_total(*t),
{
    let d = match &t.delta {
        None => Delta::default(),
        Some(d) => match run_delta(d) {
            Ok(dl) => dl,
            Err(e) => return Err(e),
        },
    };
    Ok(delta::Time { delta: d, time: time(&t.time) })
}

} // verus!
