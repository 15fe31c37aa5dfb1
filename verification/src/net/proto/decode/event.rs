//! Decoding logic for events.
use super::error::{Error, Missing, Unknown};
use crate::model::session::event::{self, Event};
use crate::model::short;
use crate::model::timing::aggregate::{Kind, Scope, Source};
use crate::model::timing::comparison::run::TotalType;
use crate::model::timing::time;
use crate::net::proto;
use vstd::prelude::*;

verus! {

/// The model total type that a wire total type denotes, if its code is known.
pub open spec fn spec_total_type(t: proto::TotalType) -> Result<event::Total, Error> {
    match t {
        proto::TotalType::Attempt(code) => match super::spec_pace_of_code(code) {
            Some(p) => Ok(event::Total::Attempt(p)),
            None => Err(Error::Unknown(Unknown::Pace)),
        },
        proto::TotalType::Comparison(code) => match proto::ComparisonType::spec_from_code(code) {
            Some(proto::ComparisonType::TotalInPbRun) => Ok(
                event::Total::Comparison(TotalType::TotalInPbRun),
            ),
            Some(proto::ComparisonType::SumOfBest) => Ok(
                event::Total::Comparison(TotalType::SumOfBest),
            ),
            None => Err(Error::Unknown(Unknown::ComparisonTotalType)),
        },
    }
}

/// The model form of a wire total event: its type, and its value if any.
pub open spec fn spec_total(t: proto::EventTotal) -> Result<(event::Total, Option<time::Time>), Error> {
    match t.total_type {
        None => Err(Error::Unknown(Unknown::TotalType)),
        Some(ty) => match spec_total_type(ty) {
            Err(e) => Err(e),
            Ok(tt) => Ok(
                (
                    tt,
                    match t.value {
                        Some(v) => Some(time::Time(v.millis)),
                        None => None,
                    },
                ),
            ),
        },
    }
}

/// The model time type that a wire time type denotes.
pub open spec fn spec_split_time_type(ty: proto::TimeType) -> event::Time {
    match ty {
        proto::TimeType::Pushed => event::Time::Pushed,
        proto::TimeType::AttemptTotal => event::Time::Aggregate(
            Kind { source: Source::Attempt, scope: Scope::Split },
        ),
        proto::TimeType::AttemptCumulative => event::Time::Aggregate(
            Kind { source: Source::Attempt, scope: Scope::Cumulative },
        ),
        proto::TimeType::ComparisonTotal => event::Time::Aggregate(
            Kind { source: Source::Comparison, scope: Scope::Split },
        ),
        proto::TimeType::ComparisonCumulative => event::Time::Aggregate(
            Kind { source: Source::Comparison, scope: Scope::Cumulative },
        ),
    }
}

/// The model form of a wire split event payload.  Unknown time type codes read as pushed
/// times.
pub open spec fn spec_split_payload(p: Option<proto::SplitPayload>) -> Result<event::Split, Error> {
    match p {
        None => Err(Error::Missing(Missing::SplitEvent)),
        Some(proto::SplitPayload::Time(t)) => Ok(
            event::Split::Time(
                time::Time(t.time.millis),
                spec_split_time_type(proto::TimeType::spec_from_code_or_default(t.time_type)),
            ),
        ),
        Some(proto::SplitPayload::Pace(code)) => match super::spec_split_in_run_pace_of_code(code) {
            Some(p) => Ok(event::Split::Pace(p)),
            None => Err(Error::Unknown(Unknown::Pace)),
        },
        Some(proto::SplitPayload::Pop(code)) => match super::spec_pop(code) {
            Ok(p) => Ok(event::Split::Popped(p)),
            Err(e) => Err(e),
        },
    }
}

/// Whether `r` is the decoding of the wire event payload `p`.
pub open spec fn decodes_payload(p: proto::EventPayload, r: Result<Event, Error>) -> bool {
    match p {
        proto::EventPayload::Total(t) => match spec_total(t) {
            Ok(tv) => r == Ok::<Event, Error>(Event::Total(tv.0, tv.1)),
            Err(e) => r == Err::<Event, Error>(e),
        },
        proto::EventPayload::Reset(info) => match super::spec_attempt_info(info) {
            Ok(i) => r == Ok::<Event, Error>(Event::Reset(i)),
            Err(e) => r == Err::<Event, Error>(e),
        },
        proto::EventPayload::Split(s) => match spec_split_payload(s.payload) {
            Ok(sp) => r matches Ok(Event::Split(n, x)) && n@ == s.sid@ && x == sp,
            Err(e) => r == Err::<Event, Error>(e),
        },
    }
}

/// Decodes a wire event into a session event; an event with no payload decodes to nothing.
///
/// Fails if any index or count in the event does not fit in a `usize`, if any code in it is
/// unknown, or if it is missing a part that it needs.
pub fn decode(e: proto::Event) -> (r: Result<Option<Event>, Error>)
    ensures
        match e.payload {
            None => r == Ok::<Option<Event>, Error>(None),
            Some(p) => match r {
                Ok(Some(ev)) => decodes_payload(p, Ok::<Event, Error>(ev)),
                Ok(None) => false,
                Err(err) => decodes_payload(p, Err::<Event, Error>(err)),
            },
        },
{
    match e.payload {
        None => Ok(None),
        Some(p) => match payload(p) {
            Ok(ev) => Ok(Some(ev)),
            Err(err) => Err(err),
        },
    }
}

/// Decodes a wire event payload.
pub fn payload(e: proto::EventPayload) -> (r: Result<Event, Error>)
    ensures
        decodes_payload(e, r),
{
    match e {
        proto::EventPayload::Total(t) => match total(&t) {
            Ok(tv) => Ok(Event::Total(tv.0, tv.1)),
            Err(err) => Err(err),
        },
        proto::EventPayload::Reset(info) => match super::attempt_info(&info) {
            Ok(i) => Ok(Event::Reset(i)),
            Err(err) => Err(err),
        },
        proto::EventPayload::Split(s) => split(&s),
    }
}

/// Decodes a total event into its type and value.
///
/// Fails with `Unknown::TotalType` if the type is missing, and otherwise if its code is
/// unknown.
pub fn total(t: &proto::EventTotal) -> (r: Result<(event::Total, Option<time::Time>), Error>)
    ensures
        r == spec_total(*t),
{
    let raw = match Unknown::TotalType.require(t.total_type) {
        Ok(ty) => ty,
        Err(e) => return Err(e),
    };
    let ty = match total_type(&raw) {
        Ok(ty) => ty,
        Err(e) => return Err(e),
    };
    let value = match &t.value {
        Some(v) => Some(super::timing::time(v)),
        None => None,
    };
    Ok((ty, value))
}

/// Decodes the type of a total.
///
/// Fails if the pace or comparison type code is unknown.
pub fn total_type(t: &proto::TotalType) -> (r: Result<event::Total, Error>)
    ensures
        r == spec_total_type(*t),
{
    match t {
        proto::TotalType::Attempt(p) => attempt_total_type(*p),
        proto::TotalType::Comparison(ty) => comparison_total_type(*ty),
    }
}

/// Decodes an attempt total type from its pace code.
fn attempt_total_type(pace_num: i32) -> (r: Result<event::Total, Error>)
    ensures
        r == spec_total_type(proto::TotalType::Attempt(pace_num)),
{
    match super::pace_from_index(pace_num) {
        Ok(p) => Ok(event::Total::Attempt(p)),
        Err(e) => Err(e),
    }
}

/// Decodes a comparison total type from its code.
fn comparison_total_type(type_num: i32) -> (r: Result<event::Total, Error>)
    ensures
        r == spec_total_type(proto::TotalType::Comparison(type_num)),
{
    match Unknown::ComparisonTotalType.require(proto::ComparisonType::from_code(type_num)) {
        Ok(proto::ComparisonType::TotalInPbRun) => Ok(event::Total::Comparison(TotalType::TotalInPbRun)),
        Ok(proto::ComparisonType::SumOfBest) => Ok(event::Total::Comparison(TotalType::SumOfBest)),
        Err(e) => Err(e),
    }
}

/// Decodes a split event.
///
/// Fails with `Missing::SplitEvent` if the payload is missing, and otherwise if a code in it
/// is unknown.
pub fn split(s: &proto::EventSplit) -> (r: Result<Event, Error>)
    ensures
        decodes_payload(proto::EventPayload::Split(*s), r),
{
    let payload = match Missing::SplitEvent.require(s.payload) {
        Ok(p) => p,
        Err(e) => return Err(e),
    };
    let event = match payload {
        proto::SplitPayload::Time(t) => split_time(&t),
        proto::SplitPayload::Pace(p) => match split_pace(p) {
            Ok(x) => x,
            Err(e) => return Err(e),
        },
        proto::SplitPayload::Pop(p) => match split_pop(p) {
            Ok(x) => x,
            Err(e) => return Err(e),
        },
    };
    Ok(Event::Split(short::Name::from_str(s.sid.as_str()), event))
}

/// Decodes a split time event.
fn split_time(t: &proto::SplitTime) -> (r: event::Split)
    ensures
        Ok::<event::Split, Error>(r) == spec_split_payload(Some(proto::SplitPayload::Time(*t))),
{
    event::Split::Time(
        super::timing::time(&t.time),
        split_time_type(proto::TimeType::from_code_or_default(t.time_type)),
    )
}

/// Decodes a wire time type.
pub fn split_time_type(ty: proto::TimeType) -> (r: event::Time)
    ensures
        r == spec_split_time_type(ty),
{
    match ty {
        proto::TimeType::Pushed => event::Time::Pushed,
        proto::TimeType::AttemptTotal => event::Time::Aggregate(Kind::attempt_split()),
        proto::TimeType::AttemptCumulative => event::Time::Aggregate(Kind::attempt_cumulative()),
        proto::TimeType::ComparisonTotal => event::Time::Aggregate(Kind::comparison_split()),
        proto::TimeType::ComparisonCumulative => event::Time::Aggregate(
            Kind::comparison_cumulative(),
        ),
    }
}

/// Decodes a split pace event.
fn split_pace(pace_index: i32) -> (r: Result<event::Split, Error>)
    ensures
        r == spec_split_payload(Some(proto::SplitPayload::Pace(pace_index))),
{
    match super::split_in_run_pace_from_index(pace_index) {
        Ok(p) => Ok(event::Split::Pace(p)),
        Err(e) => Err(e),
    }
}

/// Decodes a split pop event.
fn split_pop(pop_index: i32) -> (r: Result<event::Split, Error>)
    ensures
        r == spec_split_payload(Some(proto::SplitPayload::Pop(pop_index))),
{
    match super::pop(pop_index) {
        Ok(p) => Ok(event::Split::Popped(p)),
        Err(e) => Err(e),
    }
}

} // verus!
