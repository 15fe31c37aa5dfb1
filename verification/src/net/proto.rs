//! The zombiesplit wire messages, and the code to `encode` the model into them and `decode`
//! them back into the model.
//!
//! Enumerations travel as `i32` codes; the `from_code` functions interpret codes, and the
//! `code` functions produce them.
pub mod decode;
pub mod encode;
pub mod roundtrip;

use vstd::prelude::*;

verus! {

/// A time, in milliseconds.
#[derive(Copy, Clone, Debug, PartialEq, Eq, Structural)]
pub struct Time {
    /// The number of milliseconds.
    pub millis: i32,
}

/// Counts of attempts.
#[derive(Copy, Clone, Debug, PartialEq, Eq, Structural)]
pub struct AttemptInfo {
    /// The total number of attempts.
    pub total: u64,
    /// The number of completed attempts.
    pub completed: u64,
}

/// Request to push a time onto a split.
#[derive(Copy, Clone, Debug, PartialEq, Eq, Structural)]
pub struct PushRequest {
    /// The index of the split.
    pub index: u64,
    /// The time, in milliseconds.
    pub time: i32,
}

/// Request to pop times from a split.
#[derive(Copy, Clone, Debug, PartialEq, Eq, Structural)]
pub struct PopRequest {
    /// The index of the split.
    pub index: u64,
    /// The pop type code.
    pub pop_type: i32,
}

/// Request to start a new attempt.
#[derive(Copy, Clone, Debug, PartialEq, Eq, Structural)]
pub struct NewAttemptRequest {
    /// Whether to save the previous attempt.
    pub save: bool,
}

/// Pop types.
#[derive(Copy, Clone, Debug, PartialEq, Eq, Structural)]
pub enum Pop {
    /// Pop one time (code 0).
    One,
    /// Pop all times (code 1).
    All,
}

/// Paces, as seen on the wire.
#[derive(Copy, Clone, Debug, PartialEq, Eq, Structural)]
pub enum Pace {
    /// No pace (code 0).
    NoPace,
    /// Behind (code 1).
    Behind,
    /// Behind, but gaining (code 2).
    BehindButGaining,
    /// Ahead, but losing (code 3).
    AheadButLosing,
    /// Ahead (code 4).
    Ahead,
    /// Personal best (code 5).
    PersonalBest,
}

/// Types of comparison total.
#[derive(Copy, Clone, Debug, PartialEq, Eq, Structural)]
pub enum ComparisonType {
    /// Total in the PB run (code 0).
    TotalInPbRun,
    /// Sum of best (code 1).
    SumOfBest,
}

/// Types of split time.
#[derive(Copy, Clone, Debug, PartialEq, Eq, Structural)]
pub enum TimeType {
    /// A pushed time (code 0).
    Pushed,
    /// The attempt's split total (code 1).
    AttemptTotal,
    /// The attempt's cumulative time (code 2).
    AttemptCumulative,
    /// The comparison's split total (code 3).
    ComparisonTotal,
    /// The comparison's cumulative time (code 4).
    ComparisonCumulative,
}

/// A pair of aggregate times.
#[derive(Copy, Clone, Debug, PartialEq, Eq, Structural)]
pub struct Aggregate {
    /// The split time.
    pub split: Option<Time>,
    /// The cumulative time.
    pub cumulative: Option<Time>,
}

/// A run-level delta: a pace code and an unsigned amount.
#[derive(Copy, Clone, Debug, PartialEq, Eq, Structural)]
pub struct RunDelta {
    /// The pace code.
    pub pace: i32,
    /// The size of the delta.
    pub abs_delta: u32,
}

/// A split-level delta: a pace code and the unsigned split and run amounts.
#[derive(Copy, Clone, Debug, PartialEq, Eq, Structural)]
pub struct SplitDelta {
    /// The (split-in-run) pace code.
    pub pace: i32,
    /// The size of the split delta.
    pub split_abs_delta: u32,
    /// The size of the run delta.
    pub run_abs_delta: u32,
}

/// A run total, with its delta.
#[derive(Copy, Clone, Debug, PartialEq, Eq, Structural)]
pub struct Total {
    /// The delta, if any.
    pub delta: Option<RunDelta>,
    /// The time.
    pub time: Time,
}

/// The type of a total event.
#[derive(Copy, Clone, Debug, PartialEq, Eq, Structural)]
pub enum TotalType {
    /// An attempt total, with a pace code.
    Attempt(i32),
    /// A comparison total, with a comparison type code.
    Comparison(i32),
}

/// A total event.
#[derive(Copy, Clone, Debug, PartialEq, Eq, Structural)]
pub struct EventTotal {
    /// The type of the total.
    pub total_type: Option<TotalType>,
    /// The value, if any.
    pub value: Option<Time>,
}

/// A time reported on a split.
#[derive(Copy, Clone, Debug, PartialEq, Eq, Structural)]
pub struct SplitTime {
    /// The type code of the time.
    pub time_type: i32,
    /// The time.
    pub time: Time,
}

/// The payload of a split event.
#[derive(Copy, Clone, Debug, PartialEq, Eq, Structural)]
pub enum SplitPayload {
    /// A time.
    Time(SplitTime),
    /// A (split-in-run) pace code.
    Pace(i32),
    /// A pop type code.
    Pop(i32),
}

/// A split event.
#[derive(Clone, Debug)]
pub struct EventSplit {
    /// The short name of the split.
    pub sid: String,
    /// The payload.
    pub payload: Option<SplitPayload>,
}

/// The payload of an event.
#[derive(Clone, Debug)]
pub enum EventPayload {
    /// A total changed.
    Total(EventTotal),
    /// The session was reset.
    Reset(AttemptInfo),
    /// Something happened on a split.
    Split(EventSplit),
}

/// An event.
#[derive(Clone, Debug)]
pub struct Event {
    /// The payload, if any.
    pub payload: Option<EventPayload>,
}

/// A server version.
#[derive(Copy, Clone, Debug, PartialEq, Eq, Structural)]
pub struct Version {
    /// Major version.
    pub major: u64,
    /// Minor version.
    pub minor: u64,
    /// Patch version.
    pub patch: u64,
}

/// Information about the server.
#[derive(Clone, Debug)]
pub struct ServerInfoResponse {
    /// The server identifier.
    pub ident: String,
    /// The protocol version.
    pub version: Option<Version>,
}

/// The game-category of a dumped attempt.
#[derive(Clone, Debug)]
pub struct GameCategory {
    /// The game's display name.
    pub game_name: String,
    /// The category's display name.
    pub category_name: String,
    /// The game's short name.
    pub game_sid: String,
    /// The category's short name.
    pub category_sid: String,
}

/// A dumped split.
#[derive(Clone, Debug)]
pub struct DumpSplit {
    /// The split's short name.
    pub sid: String,
    /// The split's display name.
    pub name: String,
    /// The times logged on the split, in milliseconds.
    pub times: Vec<i32>,
}

/// A dumped attempt.
#[derive(Clone, Debug)]
pub struct DumpAttempt {
    /// The game-category.
    pub game_category: Option<GameCategory>,
    /// The attempt counts.
    pub attempt_info: Option<AttemptInfo>,
    /// The splits.
    pub splits: Vec<DumpSplit>,
}

/// Dumped run totals of a comparison.
#[derive(Copy, Clone, Debug, PartialEq, Eq, Structural)]
pub struct DumpRun {
    /// The total in the PB run, in milliseconds.
    pub total_in_pb_run: Option<i32>,
    /// The sum of best, in milliseconds.
    pub sum_of_best: Option<i32>,
}

/// A dumped split comparison.
#[derive(Copy, Clone, Debug, PartialEq, Eq, Structural)]
pub struct Segment {
    /// The split's aggregates in the PB run.
    pub in_pb_run: Option<Aggregate>,
    /// The split's personal best, in milliseconds.
    pub split_pb: i32,
}

/// A dumped comparison.
#[derive(Clone, Debug)]
pub struct DumpComparison {
    /// The run totals.
    pub run: Option<DumpRun>,
    /// The split comparisons, by short name.
    pub splits: Vec<(String, Segment)>,
}

/// A dumped split note.
#[derive(Copy, Clone, Debug, PartialEq, Eq, Structural)]
pub struct SplitNote {
    /// The split's aggregates.
    pub aggregate: Option<Aggregate>,
    /// The split's delta.
    pub delta: Option<SplitDelta>,
}

/// A dump of the session state.
#[derive(Clone, Debug)]
pub struct DumpResponse {
    /// The attempt.
    pub attempt: Option<DumpAttempt>,
    /// The comparison.
    pub comparison: Option<DumpComparison>,
    /// Notes on each split, by short name.
    pub notes: Vec<(String, SplitNote)>,
    /// The run total.
    pub total: Option<Total>,
}

impl Pop {
    /// The code of this pop type.
    pub open spec fn spec_code(self) -> i32 {
        match self {
            Pop::One => 0,
            Pop::All => 1,
        }
    }

    /// The pop type with code `code`, if any.
    pub open spec fn spec_from_code(code: i32) -> Option<Pop> {
        if code == 0 {
            Some(Pop::One)
        } else if code == 1 {
            Some(Pop::All)
        } else {
            None
        }
    }

    /// The code of this pop type.
    pub fn code(self) -> (c: i32)
        ensures
            c == self.spec_code(),
    {
        match self {
            Pop::One => 0,
            Pop::All => 1,
        }
    }

    /// The pop type with code `code`, if any.
    pub fn from_code(code: i32) -> (p: Option<Pop>)
        ensures
            p == Pop::spec_from_code(code),
    {
        if code == 0 {
            Some(Pop::One)
        } else if code == 1 {
            Some(Pop::All)
        } else {
            None
        }
    }
}

impl Pace {
    /// The code of this pace.
    pub open spec fn spec_code(self) -> i32 {
        match self {
            Pace::NoPace => 0,
            Pace::Behind => 1,
            Pace::BehindButGaining => 2,
            Pace::AheadButLosing => 3,
            Pace::Ahead => 4,
            Pace::PersonalBest => 5,
        }
    }

    /// The pace with code `code`, if any.
    pub open spec fn spec_from_code(code: i32) -> Option<Pace> {
        if code == 0 {
            Some(Pace::NoPace)
        } else if code == 1 {
            Some(Pace::Behind)
        } else if code == 2 {
            Some(Pace::BehindButGaining)
        } else if code == 3 {
            Some(Pace::AheadButLosing)
        } else if code == 4 {
            Some(Pace::Ahead)
        } else if code == 5 {
            Some(Pace::PersonalBest)
        } else {
            None
        }
    }

    /// The code of this pace.
    pub fn code(self) -> (c: i32)
        ensures
            c == self.spec_code(),
    {
        match self {
            Pace::NoPace => 0,
            Pace::Behind => 1,
            Pace::BehindButGaining => 2,
            Pace::AheadButLosing => 3,
            Pace::Ahead => 4,
            Pace::PersonalBest => 5,
        }
    }

    /// The pace with code `code`, if any.
    pub fn from_code(code: i32) -> (p: Option<Pace>)
        ensures
            p == Pace::spec_from_code(code),
    {
        if code == 0 {
            Some(Pace::NoPace)
        } else if code == 1 {
            Some(Pace::Behind)
        } else if code == 2 {
            Some(Pace::BehindButGaining)
        } else if code == 3 {
            Some(Pace::AheadButLosing)
        } else if code == 4 {
            Some(Pace::Ahead)
        } else if code == 5 {
            Some(Pace::PersonalBest)
        } else {
            None
        }
    }

    /// The pace with code `code`, or `NoPace` (the default) for unknown codes.
    pub open spec fn spec_from_code_or_default(code: i32) -> Pace {
        match Pace::spec_from_code(code) {
            Some(q) => q,
            None => Pace::NoPace,
        }
    }

    /// The pace with code `code`, or `NoPace` (the default) for unknown codes.
    pub fn from_code_or_default(code: i32) -> (p: Pace)
        ensures
            p == Pace::spec_from_code_or_default(code),
    {
        match Self::from_code(code) {
            Some(p) => p,
            None => Pace::NoPace,
        }
    }
}

impl ComparisonType {
    /// The code of this comparison type.
    pub open spec fn spec_code(self) -> i32 {
        match self {
            ComparisonType::TotalInPbRun => 0,
            ComparisonType::SumOfBest => 1,
        }
    }

    /// The comparison type with code `code`, if any.
    pub open spec fn spec_from_code(code: i32) -> Option<ComparisonType> {
        if code == 0 {
            Some(ComparisonType::TotalInPbRun)
        } else if code == 1 {
            Some(ComparisonType::SumOfBest)
        } else {
            None
        }
    }

    /// The code of this comparison type.
    pub fn code(self) -> (c: i32)
        ensures
            c == self.spec_code(),
    {
        match self {
            ComparisonType::TotalInPbRun => 0,
            ComparisonType::SumOfBest => 1,
        }
    }

    /// The comparison type with code `code`, if any.
    pub fn from_code(code: i32) -> (t: Option<ComparisonType>)
        ensures
            t == ComparisonType::spec_from_code(code),
    {
        if code == 0 {
            Some(ComparisonType::TotalInPbRun)
        } else if code == 1 {
            Some(ComparisonType::SumOfBest)
        } else {
            None
        }
    }
}

impl TimeType {
    /// The code of this time type.
    pub open spec fn spec_code(self) -> i32 {
        match self {
            TimeType::Pushed => 0,
            TimeType::AttemptTotal => 1,
            TimeType::AttemptCumulative => 2,
            TimeType::ComparisonTotal => 3,
            TimeType::ComparisonCumulative => 4,
        }
    }

    /// The time type with code `code`; unknown codes give the default, `Pushed`.
    pub open spec fn spec_from_code_or_default(code: i32) -> TimeType {
        if code == 1 {
            TimeType::AttemptTotal
        } else if code == 2 {
            TimeType::AttemptCumulative
        } else if code == 3 {
            TimeType::ComparisonTotal
        } else if code == 4 {
            TimeType::ComparisonCumulative
        } else {
            TimeType::Pushed
        }
    }

    /// The code of this time type.
    pub fn code(self) -> (c: i32)
        ensures
            c == self.spec_code(),
    {
        match self {
            TimeType::Pushed => 0,
            TimeType::AttemptTotal => 1,
            TimeType::AttemptCumulative => 2,
            TimeType::ComparisonTotal => 3,
            TimeType::ComparisonCumulative => 4,
        }
    }

    /// The time type with code `code`; unknown codes give the default, `Pushed`.
    pub fn from_code_or_default(code: i32) -> (t: TimeType)
        ensures
            t == TimeType::spec_from_code_or_default(code),
    {
        if code == 1 {
            TimeType::AttemptTotal
        } else if code == 2 {
            TimeType::AttemptCumulative
        } else if code == 3 {
            TimeType::ComparisonTotal
        } else if code == 4 {
            TimeType::ComparisonCumulative
        } else {
            TimeType::Pushed
        }
    }
}

/// Status codes for reporting protocol errors.
#[derive(Copy, Clone, Debug, PartialEq, Eq, Structural)]
pub enum Code {
    /// A value was out of range.
    OutOfRange,
    /// Data was lost or missing.
    DataLoss,
    /// An argument was invalid.
    InvalidArgument,
}

} // verus!
