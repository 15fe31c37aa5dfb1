//! The decisions of the zombiesplit server: what it says about itself, which action a request
//! stands for, and what a client connection does with each message from its client and each
//! event from the session.
//!
//! The server itself (its listener, and the loops that receive requests and forward events)
//! lives outside the library; it hands these functions plain values and acts on what they
//! return.
use super::dump::{Server, Version};
use super::proto;
use crate::model::session::action::{Action, OldDestination};
use vstd::prelude::*;

verus! {

/// The server's identifier.
pub open spec fn spec_ident() -> Seq<char> {
    seq!['z', 's', 's', 'e', 'r', 'v', 'e', 'r']
}

/// Information about this server: its identifier and protocol version (0.1.0).
pub fn info() -> (s: Server)
    ensures
        s.ident@ == spec_ident(),
        s.version == (Version { major: 0, minor: 1, patch: 0 }),
{
    let mut ident = String::new();
    crate::text::push_char(&mut ident, 'z');
    crate::text::push_char(&mut ident, 's');
    crate::text::push_char(&mut ident, 's');
    crate::text::push_char(&mut ident, 'e');
    crate::text::push_char(&mut ident, 'r');
    crate::text::push_char(&mut ident, 'v');
    crate::text::push_char(&mut ident, 'e');
    crate::text::push_char(&mut ident, 'r');
    assert(ident@ =~= spec_ident());
    Server { ident, version: Version { major: 0, minor: 1, patch: 0 } }
}

/// The action that a new-attempt request stands for: the old attempt is saved exactly when
/// the request asks for it.
pub open spec fn spec_new_attempt(request: proto::NewAttemptRequest) -> Action {
    Action::NewRun(
        if request.save {
            OldDestination::Save
        } else {
            OldDestination::Discard
        },
    )
}

/// The action that a new-attempt request stands for: the old attempt is saved exactly when
/// the request asks for it.
pub fn new_attempt(request: &proto::NewAttemptRequest) -> (a: Action)
    ensures
        a == spec_new_attempt(*request),
{
    if request.save {
        Action::NewRun(OldDestination::Save)
    } else {
        Action::NewRun(OldDestination::Discard)
    }
}

/// What a client connection hears from the session.
#[derive(Clone, Debug)]
pub enum Incoming<E> {
    /// An event to forward to the client.
    Event(E),
    /// The session's event channel has closed.
    Closed,
    /// The connection fell behind by the given number of events, which are lost.
    Lagged(u64),
}

/// What a client connection does next.
#[derive(Clone, Debug)]
pub enum Step<E> {
    /// Sends the event to the client, and keeps going.
    Forward(E),
    /// Keeps going without sending anything.
    Continue,
    /// Stops serving the client.
    Stop,
}

/// Decides what a client connection does with a message from its client: an action is
/// forwarded to the session, and a closed connection (no message) stops it.
pub fn on_client_message<A>(message: Option<A>) -> (s: Step<A>)
    ensures
        match message {
            Some(a) => s == Step::Forward(a),
            None => s is Stop,
        },
{
    match message {
        Some(a) => Step::Forward(a),
        None => Step::Stop,
    }
}

/// Decides what a client connection does with what it heard from the session: events are
/// forwarded, a closed channel stops the connection, and lost events are skipped.
pub fn on_incoming<E>(incoming: Incoming<E>) -> (s: Step<E>)
    ensures
        match incoming {
            Incoming::Event(e) => s == Step::Forward(e),
            Incoming::Closed => s is Stop,
            Incoming::Lagged(_) => s is Continue,
        },
{
    match incoming {
        Incoming::Event(e) => Step::Forward(e),
        Incoming::Closed => Step::Stop,
        Incoming::Lagged(_) => Step::Continue,
    }
}

} // verus!
