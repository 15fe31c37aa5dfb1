//! Helpers for encoding zombiesplit models into their wire equivalents.
//!
//! Encoding cannot fail on the platforms that Verus supports (a `usize` always fits in a
//! `u64`), but the functions whose counts could in principle overflow still return a
//! [Result], whose error is the status code to report.
pub mod action;
pub mod attempt;
pub mod comparison;
pub mod dump;
pub mod event;
pub mod timing;

use super::Code;
use crate::model::game::category;
use crate::model::session;
use crate::model::timing::aggregate::AggregateSet;
use crate::model::timing::comparison::pace::{Pace, SplitInRun};
use crate::net::dump::{Server, Version};
use vstd::prelude::*;

verus! {

/// The wire pace of a model pace.
pub open spec fn spec_pace(p: Pace) -> super::Pace {
    match p {
        Pace::Inconclusive => super::Pace::NoPace,
        Pace::Behind => super::Pace::Behind,
        Pace::Ahead => super::Pace::Ahead,
        Pace::PersonalBest => super::Pace::PersonalBest,
    }
}

/// The wire pace of a model split-in-run pace.
pub open spec fn spec_split_in_run_pace(p: SplitInRun) -> super::Pace {
    match p {
        SplitInRun::Inconclusive => super::Pace::NoPace,
        SplitInRun::BehindAndLosing => super::Pace::Behind,
        SplitInRun::BehindAndGaining => super::Pace::BehindButGaining,
        SplitInRun::AheadAndLosing => super::Pace::AheadButLosing,
        SplitInRun::AheadAndGaining => super::Pace::Ahead,
        SplitInRun::SplitPersonalBest => super::Pace::PersonalBest,
    }
}

/// The wire code of a model pop type.
pub open spec fn spec_pop(p: session::action::Pop) -> i32 {
    match p {
        session::action::Pop::One => super::Pop::One.spec_code(),
        session::action::Pop::All => super::Pop::All.spec_code(),
    }
}

/// The wire form of attempt counts.
pub open spec fn spec_attempt_info(a: category::AttemptInfo) -> super::AttemptInfo {
    super::AttemptInfo { total: a.total as u64, completed: a.completed as u64 }
}

/// The wire form of an aggregate pair.
pub open spec fn spec_aggregate(agg: AggregateSet) -> super::Aggregate {
    super::Aggregate {
        split: Some(super::Time { millis: agg.split.0 }),
        cumulative: Some(super::Time { millis: agg.cumulative.0 }),
    }
}

/// Encodes server metadata into a server information response.
///
/// This cannot fail.
pub fn server_info(server: &Server) -> (r: Result<super::ServerInfoResponse, Code>)
    ensures
        r matches Ok(s) && s.ident@ == server.ident@ && s.version == Some(
            super::Version {
                major: server.version.major,
                minor: server.version.minor,
                patch: server.version.patch,
            },
        ),
{
    Ok(super::ServerInfoResponse { ident: server.ident.clone(), version: Some(version(&server.version)) })
}

/// Encodes a version number.
pub fn version(v: &Version) -> (r: super::Version)
    ensures
        r == (super::Version { major: v.major, minor: v.minor, patch: v.patch }),
{
    super::Version { major: v.major, minor: v.minor, patch: v.patch }
}

/// Encodes attempt counts.
///
/// This cannot fail: every `usize` fits in a `u64`.
pub fn attempt_info(attempt: &category::AttemptInfo) -> (r: Result<super::AttemptInfo, Code>)
    ensures
        r == Ok::<super::AttemptInfo, Code>(spec_attempt_info(*attempt)),
{
    Ok(super::AttemptInfo { total: attempt.total as u64, completed: attempt.completed as u64 })
}

/// Encodes a pace.
pub fn pace(p: Pace) -> (r: super::Pace)
    ensures
        r == spec_pace(p),
{
    match p {
        Pace::Inconclusive => super::Pace::NoPace,
        Pace::Behind => super::Pace::Behind,
        Pace::Ahead => super::Pace::Ahead,
        Pace::PersonalBest => super::Pace::PersonalBest,
    }
}

/// Encodes a split-in-run pace.
pub fn split_in_run_pace(p: SplitInRun) -> (r: super::Pace)
    ensures
        r == spec_split_in_run_pace(p),
{
    match p {
        SplitInRun::Inconclusive => super::Pace::NoPace,
        SplitInRun::BehindAndLosing => super::Pace::Behind,
        SplitInRun::BehindAndGaining => super::Pace::BehindButGaining,
        SplitInRun::AheadAndLosing => super::Pace::AheadButLosing,
        SplitInRun::AheadAndGaining => super::Pace::Ahead,
        SplitInRun::SplitPersonalBest => super::Pace::PersonalBest,
    }
}

/// Encodes a pop type as its wire code.
pub fn pop(p: session::action::Pop) -> (r: i32)
    ensures
        r == spec_pop(p),
{
    match p {
        session::action::Pop::One => super::Pop::One.code(),
        session::action::Pop::All => super::Pop::All.code(),
    }
}

/// Encodes an aggregate pair.
pub fn aggregate(agg: &AggregateSet) -> (r: super::Aggregate)
    ensures
        r == spec_aggregate(*agg),
{
    super::Aggregate {
        split: Some(timing::time(&agg.split)),
        cumulative: Some(timing::time(&agg.cumulative)),
    }
}

} // verus!
