//! Encoding logic for events.
use crate::model::session::event::{self, Event};
use crate::model::short;
use crate::model::timing::aggregate::{Scope, Source};
use crate::model::timing::comparison::run::TotalType;
use crate::model::timing::time;
use crate::net::proto::{self, Code};
use vstd::prelude::*;

verus! {

/// The wire form of a total type.
pub open spec fn spec_total_type(ty: event::Total) -> proto::TotalType {
    match ty {
        event::Total::Attempt(p) => proto::TotalType::Attempt(super::spec_pace(p).spec_code()),
        event::Total::Comparison(t) => proto::TotalType::Comparison(
            spec_comparison_total_type(t).spec_code(),
        ),
    }
}

/// The wire form of a comparison total type.
pub open spec fn spec_comparison_total_type(ty: TotalType) -> proto::ComparisonType {
    match ty {
        TotalType::TotalInPbRun => proto::ComparisonType::TotalInPbRun,
        TotalType::SumOfBest => proto::ComparisonType::SumOfBest,
    }
}

/// The wire form of a total event.
pub open spec fn spec_total(ty: event::Total, value: Option<time::Time>) -> proto::EventTotal {
    proto::EventTotal {
        total_type: Some(spec_total_type(ty)),
        value: match value {
            Some(t) => Some(proto::Time { millis: t.0 }),
            None => None,
        },
    }
}

/// The wire form of a split time type.
pub open spec fn spec_split_time_type(ty: event::Time) -> proto::TimeType {
    match ty {
        event::Time::Pushed => proto::TimeType::Pushed,
        event::Time::Aggregate(k) => match (k.source, k.scope) {
            (Source::Attempt, Scope::Split) => proto::TimeType::AttemptTotal,
            (Source::Attempt, Scope::Cumulative) => proto::TimeType::AttemptCumulative,
            (Source::Comparison, Scope::Split) => proto::TimeType::ComparisonTotal,
            (Source::Comparison, Scope::Cumulative) => proto::TimeType::ComparisonCumulative,
        },
    }
}

/// The wire form of a split event payload.
pub open spec fn spec_split_payload(e: event::Split) -> proto::SplitPayload {
    match e {
        event::Split::Time(t, ty) => proto::SplitPayload::Time(
            proto::SplitTime {
                time_type: spec_split_time_type(ty).spec_code(),
                time: proto::Time { millis: t.0 },
            },
        ),
        event::Split::Pace(p) => proto::SplitPayload::Pace(super::spec_split_in_run_pace(p).spec_code()),
        event::Split::Popped(p) => proto::SplitPayload::Pop(super::spec_pop(p)),
    }
}

/// Whether `w` is the wire form of the event `e`.
pub open spec fn encodes_event(e: Event, w: proto::Event) -> bool {
    match e {
        Event::Total(ty, value) => w.payload == Some(proto::EventPayload::Total(spec_total(ty, value))),
        Event::Reset(info) => w.payload == Some(
            proto::EventPayload::Reset(super::spec_attempt_info(info)),
        ),
        Event::Split(sid, s) => w.payload matches Some(proto::EventPayload::Split(ws)) && ws.sid@
            == sid@ && ws.payload == Some(spec_split_payload(s)),
    }
}

/// Encodes a session event into a wire event.
///
/// This cannot fail: every attempt count fits in a `u64`.
pub fn encode(e: &Event) -> (r: Result<proto::Event, Code>)
    ensures
        r matches Ok(w) && encodes_event(*e, w),
{
    let payload = match e {
        Event::Total(ty, value) => proto::EventPayload::Total(total(*ty, *value)),
        Event::Reset(info) => match super::attempt_info(info) {
            Ok(i) => proto::EventPayload::Reset(i),
            Err(c) => return Err(c),
        },
        Event::Split(sid, s) => proto::EventPayload::Split(split(sid, s)),
    };
    Ok(proto::Event { payload: Some(payload) })
}

/// Encodes a total event.
fn total(ty: event::Total, value: Option<time::Time>) -> (r: proto::EventTotal)
    ensures
        r == spec_total(ty, value),
{
    proto::EventTotal {
        total_type: Some(total_type(ty)),
        value: match value {
            Some(t) => Some(super::timing::time(&t)),
            None => None,
        },
    }
}

/// Encodes a total type.
pub fn total_type(ty: event::Total) -> (r: proto::TotalType)
    ensures
        r == spec_total_type(ty),
{
    match ty {
        event::Total::Attempt(p) => proto::TotalType::Attempt(super::pace(p).code()),
        event::Total::Comparison(t) => proto::TotalType::Comparison(comparison_total_type(t).code()),
    }
}

/// Encodes a comparison total type.
fn comparison_total_type(ty: TotalType) -> (r: proto::ComparisonType)
    ensures
        r == spec_comparison_total_type(ty),
{
    match ty {
        TotalType::TotalInPbRun => proto::ComparisonType::TotalInPbRun,
        TotalType::SumOfBest => proto::ComparisonType::SumOfBest,
    }
}

/// Encodes a split event.
fn split(sid: &short::Name, e: &event::Split) -> (r: proto::EventSplit)
    ensures
        r.sid@ == sid@,
        r.payload == Some(spec_split_payload(*e)),
{
    proto::EventSplit { sid: sid.0.clone(), payload: Some(split_payload(e)) }
}

/// Encodes a split event payload.
fn split_payload(e: &event::Split) -> (r: proto::SplitPayload)
    ensures
        r == spec_split_payload(*e),
{
    match e {
        event::Split::Time(t, ty) => proto::SplitPayload::Time(split_time(*ty, *t)),
        event::Split::Pace(p) => proto::SplitPayload::Pace(super::split_in_run_pace(*p).code()),
        event::Split::Popped(p) => proto::SplitPayload::Pop(super::pop(*p)),
    }
}

/// Encodes a split time.
fn split_time(ty: event::Time, t: time::Time) -> (r: proto::SplitTime)
    ensures
        r == (proto::SplitTime {
            time_type: spec_split_time_type(ty).spec_code(),
            time: proto::Time { millis: t.0 },
        }),
{
    proto::SplitTime { time_type: split_time_type(ty).code(), time: super::timing::time(&t) }
}

/// Encodes a split time type.
pub fn split_time_type(ty: event::Time) -> (r: proto::TimeType)
    ensures
        r == spec_split_time_type(ty),
{
    match ty {
        event::Time::Pushed => proto::TimeType::Pushed,
        event::Time::Aggregate(k) => match (k.source, k.scope) {
            (Source::Attempt, Scope::Split) => proto::TimeType::AttemptTotal,
            (Source::Attempt, Scope::Cumulative) => proto::TimeType::AttemptCumulative,
            (Source::Comparison, Scope::Split) => proto::TimeType::ComparisonTotal,
            (Source::Comparison, Scope::Cumulative) => proto::TimeType::ComparisonCumulative,
        },
    }
}

} // verus!
