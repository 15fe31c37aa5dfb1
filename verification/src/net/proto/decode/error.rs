//! Decoding errors.
use crate::model::timing::time;
use crate::net::proto::Code;
use vstd::prelude::*;

verus! {

/// Decoding errors.
#[derive(Copy, Clone, Debug, PartialEq, Eq, Structural)]
pub enum Error {
    /// An integer didn't fit in the type it was converted to (eg, a 64-bit index on a 32-bit
    /// system).
    IndexConversion,
    /// Couldn't decode a time.
    Time(time::Error),
    /// Something we needed was missing.
    Missing(Missing),
    /// An enumeration was out of range.
    Unknown(Unknown),
}

/// Enumeration of missing-but-required data fields.
#[derive(Copy, Clone, Debug, PartialEq, Eq, Structural, Hash)]
pub enum Missing {
    /// The run was missing in a dump.
    Attempt,
    /// The attempt was missing its metadata.
    AttemptInfo,
    /// A split event was missing its payload.
    SplitEvent,
}

/// Enumeration of out-of-range enumeration values.
#[derive(Copy, Clone, Debug, PartialEq, Eq, Structural, Hash)]
pub enum Unknown {
    /// The type was missing in a total event.
    TotalType,
    /// The pace was out of range.
    Pace,
    /// The comparison total type was out of range in a comparison total event.
    ComparisonTotalType,
    /// The pop type was out of range in a pop event or request.
    Pop,
}

impl Missing {
    /// Lifts `val` to a result where, if `val` is missing, the error is this [Missing] tag.
    pub fn require<T>(self, val: Option<T>) -> (r: Result<T, Error>)
        ensures
            match val {
                Some(v) => r == Ok::<T, Error>(v),
                None => r == Err::<T, Error>(Error::Missing(self)),
            },
    {
        match val {
            Some(v) => Ok(v),
            None => Err(Error::Missing(self)),
        }
    }
}

impl Unknown {
    /// Lifts `val` to a result where, if `val` is missing, the error is this [Unknown] tag.
    pub fn require<T>(self, val: Option<T>) -> (r: Result<T, Error>)
        ensures
            match val {
                Some(v) => r == Ok::<T, Error>(v),
                None => r == Err::<T, Error>(Error::Unknown(self)),
            },
    {
        match val {
            Some(v) => Ok(v),
            None => Err(Error::Unknown(self)),
        }
    }
}

/// The status code under which a decoding error is reported to a client.
pub open spec fn spec_status_code(e: Error) -> Code {
    match e {
        Error::IndexConversion => Code::OutOfRange,
        Error::Time(time::Error::MsecOverflow(_)) => Code::OutOfRange,
        Error::Time(_) => Code::InvalidArgument,
        Error::Missing(_) => Code::DataLoss,
        Error::Unknown(_) => Code::OutOfRange,
    }
}

/// The status code under which a decoding error is reported to a client: out-of-range for
/// conversions, overflowing times and unknown enumerations, invalid-argument for other time
/// errors, and data-loss for missing data.
pub fn status_code(e: &Error) -> (c: Code)
    ensures
        c == spec_status_code(*e),
{
    match e {
        Error::IndexConversion => Code::OutOfRange,
        Error::Time(time::Error::MsecOverflow(_)) => Code::OutOfRange,
        Error::Time(_) => Code::InvalidArgument,
        Error::Missing(_) => Code::DataLoss,
        Error::Unknown(_) => Code::OutOfRange,
    }
}

} // verus!
