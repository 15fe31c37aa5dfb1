//! Helpers for decoding wire representations of zombiesplit models.
pub mod action;
pub mod attempt;
pub mod comparison;
pub mod dump;
pub mod error;
pub mod event;
pub mod timing;

pub use error::{Error, Missing, Unknown};

use crate::model::game::category;
use crate::model::session;
use crate::model::timing::comparison::pace::{Pace, SplitInRun};
use vstd::prelude::*;

verus! {

/// The model pace that a wire pace code denotes, if any.
pub open spec fn spec_pace_of_code(code: i32) -> Option<Pace> {
    match super::Pace::spec_from_code(code) {
        Some(p) => Some(timing::spec_pace(p)),
        None => None,
    }
}

/// The model split-in-run pace that a wire pace code denotes, if any.
pub open spec fn spec_split_in_run_pace_of_code(code: i32) -> Option<SplitInRun> {
    match super::Pace::spec_from_code(code) {
        Some(p) => Some(timing::spec_split_in_run_pace(p)),
        None => None,
    }
}

/// The model form of wire attempt information, if its counts fit in `usize`.
pub open spec fn spec_attempt_info(attempt: super::AttemptInfo) -> Result<category::AttemptInfo, Error> {
    if attempt.total <= usize::MAX && attempt.completed <= usize::MAX {
        Ok(category::AttemptInfo { total: attempt.total as usize, completed: attempt.completed as usize })
    } else {
        Err(Error::IndexConversion)
    }
}

/// Decodes attempt information into its model form.
///
/// Fails if the attempt counts cannot be stored as `usize`.
pub fn attempt_info(attempt: &super::AttemptInfo) -> (r: Result<category::AttemptInfo, Error>)
    ensures
        r == spec_attempt_info(*attempt),
{
    let total = match split_index(attempt.total) {
        Ok(t) => t,
        Err(e) => return Err(e),
    };
    let completed = match split_index(attempt.completed) {
        Ok(c) => c,
        Err(e) => return Err(e),
    };
    Ok(category::AttemptInfo { total, completed })
}

/// The model pop type that a wire pop type code denotes: code 0 pops one time, code 1 pops
/// all of them, and any other code is unknown.
pub open spec fn spec_pop(pop_index: i32) -> Result<session::action::Pop, Error> {
    if pop_index == 0 {
        Ok(session::action::Pop::One)
    } else if pop_index == 1 {
        Ok(session::action::Pop::All)
    } else {
        Err(Error::Unknown(Unknown::Pop))
    }
}

/// Interprets `pop_index` as a pop type code, and decodes it into the model form.
///
/// Fails with `Unknown::Pop` if `pop_index` is not a valid pop type code.
pub fn pop(pop_index: i32) -> (r: Result<session::action::Pop, Error>)
    ensures
        r == spec_pop(pop_index),
{
    match Unknown::Pop.require(super::Pop::from_code(pop_index)) {
        Ok(super::Pop::One) => Ok(session::action::Pop::One),
        Ok(super::Pop::All) => Ok(session::action::Pop::All),
        Err(e) => Err(e),
    }
}

/// Decodes a wire split index into a model index.
///
/// Fails with `IndexConversion` if the index is too large (as may happen on 32-bit systems).
pub fn split_index(index: u64) -> (r: Result<usize, Error>)
    ensures
        index <= usize::MAX ==> r == Ok::<usize, Error>(index as usize),
        index > usize::MAX ==> r == Err::<usize, Error>(Error::IndexConversion),
{
    if index <= (usize::MAX as u64) {
        Ok(index as usize)
    } else {
        Err(Error::IndexConversion)
    }
}

/// Decodes a wire pace code into a model pace.
///
/// Fails with `Unknown::Pace` if the code is not a pace.
pub fn pace_from_index(code: i32) -> (r: Result<Pace, Error>)
    ensures
        match spec_pace_of_code(code) {
            Some(p) => r == Ok::<Pace, Error>(p),
            None => r == Err::<Pace, Error>(Error::Unknown(Unknown::Pace)),
        },
{
    match Unknown::Pace.require(super::Pace::from_code(code)) {
        Ok(p) => Ok(timing::pace(p)),
        Err(e) => Err(e),
    }
}

/// Decodes a wire pace code into a model split-in-run pace.
///
/// Fails with `Unknown::Pace` if the code is not a pace.
pub fn split_in_run_pace_from_index(code: i32) -> (r: Result<SplitInRun, Error>)
    ensures
        match spec_split_in_run_pace_of_code(code) {
            Some(p) => r == Ok::<SplitInRun, Error>(p),
            None => r == Err::<SplitInRun, Error>(Error::Unknown(Unknown::Pace)),
        },
{
    match Unknown::Pace.require(super::Pace::from_code(code)) {
        Ok(p) => Ok(timing::split_in_run_pace(p)),
        Err(e) => Err(e),
    }
}

} // verus!
