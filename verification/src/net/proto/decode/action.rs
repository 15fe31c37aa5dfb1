//! Decodes wire requests into zombiesplit actions.
use super::error::Error;
use crate::model::session::action::Action;
use crate::model::timing::time;
use crate::net::proto;
use vstd::prelude::*;

verus! {

/// The action that a push request stands for, if its index fits in a `usize`.
pub open spec fn spec_push(request: proto::PushRequest) -> Result<Action, Error> {
    if request.index <= usize::MAX {
        Ok(Action::Push(request.index as usize, time::Time(request.time)))
    } else {
        Err(Error::IndexConversion)
    }
}

/// The action that a pop request stands for, if its index fits in a `usize` and its pop type
/// code is known.
pub open spec fn spec_pop(request: proto::PopRequest) -> Result<Action, Error> {
    if request.index <= usize::MAX {
        match super::spec_pop(request.pop_type) {
            Ok(p) => Ok(Action::Pop(request.index as usize, p)),
            Err(e) => Err(e),
        }
    } else {
        Err(Error::IndexConversion)
    }
}

/// Decodes a push request.
///
/// Fails with `IndexConversion` if the split index does not fit in a `usize`.
pub fn push(request: &proto::PushRequest) -> (r: Result<Action, Error>)
    ensures
        r == spec_push(*request),
{
    let index = match super::split_index(request.index) {
        Ok(i) => i,
        Err(e) => return Err(e),
    };
    Ok(Action::Push(index, time::Time::from_millis(request.time)))
}

/// Decodes a pop request.
///
/// Fails with `IndexConversion` if the split index does not fit in a `usize`, and otherwise
/// with `Unknown::Pop` if the pop type code is not a pop type.
pub fn pop(request: &proto::PopRequest) -> (r: Result<Action, Error>)
    ensures
        r == spec_pop(*request),
{
    let index = match super::split_index(request.index) {
        Ok(i) => i,
        Err(e) => return Err(e),
    };
    match super::pop(request.pop_type) {
        Ok(p) => Ok(Action::Pop(index, p)),
        Err(e) => Err(e),
    }
}

} // verus!
