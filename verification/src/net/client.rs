//! The decisions of the zombiesplit client: which request to send for an action, and what to
//! do with what the server streams back.
//!
//! The client itself (its connection, and the loop that sends requests and receives events)
//! lives outside the library; it hands these functions plain values and acts on what they
//! return.
use super::proto::{self, decode, encode, Code};
use crate::model::session::action::{Action, OldDestination};
use crate::model::session::event::Event;
use vstd::prelude::*;

verus! {

/// A request that the client sends to the server.
#[derive(Copy, Clone, Debug, PartialEq, Eq, Structural)]
pub enum Request {
    /// Start a new attempt.
    NewAttempt(proto::NewAttemptRequest),
    /// Push a time onto a split.
    Push(proto::PushRequest),
    /// Pop times from a split.
    Pop(proto::PopRequest),
}

/// The request that asks the server to perform `action`.
pub open spec fn spec_request(action: Action) -> Request {
    match action {
        Action::NewRun(dest) => Request::NewAttempt(
            proto::NewAttemptRequest { save: dest == OldDestination::Save },
        ),
        Action::Push(index, t) => Request::Push(proto::PushRequest { index: index as u64, time: t.0 }),
        Action::Pop(index, ty) => Request::Pop(
            proto::PopRequest { index: index as u64, pop_type: encode::spec_pop(ty) },
        ),
    }
}

/// Builds the request that asks the server to perform `action`: a new attempt saves the old
/// one exactly when the action says so.
///
/// This cannot fail: every `usize` index fits in a `u64`.
pub fn request(action: Action) -> (r: Result<Request, Code>)
    ensures
        r == Ok::<Request, Code>(spec_request(action)),
{
    match action {
        Action::NewRun(dest) => Ok(
            Request::NewAttempt(
                proto::NewAttemptRequest {
                    save: match dest {
                        OldDestination::Save => true,
                        OldDestination::Discard => false,
                    },
                },
            ),
        ),
        Action::Push(index, t) => match encode::action::push(index, t) {
            Ok(p) => Ok(Request::Push(p)),
            Err(c) => Err(c),
        },
        Action::Pop(index, ty) => match encode::action::pop(index, ty) {
            Ok(p) => Ok(Request::Pop(p)),
            Err(c) => Err(c),
        },
    }
}

/// What the client does with one message from the server's event stream.
#[derive(Debug)]
pub struct Received {
    /// Whether the stream is still open.
    pub open: bool,
    /// The event to pass on to the observer, if any.
    pub event: Option<Event>,
}

/// Handles one message of the server's event stream: a closed stream (no message) stops the
/// client; otherwise the message is decoded, and the event in it, if any, is passed on.
///
/// Fails if the message cannot be decoded.
pub fn handle_event(event_if_open: Option<proto::Event>) -> (r: Result<Received, decode::Error>)
    ensures
        match event_if_open {
            None => r matches Ok(x) && !x.open && x.event is None,
            Some(e) => match e.payload {
                None => r matches Ok(x) && x.open && x.event is None,
                Some(p) => match r {
                    Ok(x) => x.open && (x.event matches Some(ev) && decode::event::decodes_payload(
                        p,
                        Ok::<Event, decode::Error>(ev),
                    )),
                    Err(err) => decode::event::decodes_payload(p, Err::<Event, decode::Error>(err)),
                },
            },
        },
{
    match event_if_open {
        None => Ok(Received { open: false, event: None }),
        Some(e) => match decode::event::decode(e) {
            Ok(ev) => Ok(Received { open: true, event: ev }),
            Err(err) => Err(err),
        },
    }
}

} // verus!
