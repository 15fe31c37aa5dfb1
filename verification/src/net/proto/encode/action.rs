//! Encodes zombiesplit actions into wire requests.
use crate::model::session;
use crate::model::timing::time;
use crate::net::proto::{self, Code};
use vstd::prelude::*;

verus! {

/// Encodes a push action.
///
/// This cannot fail: every `usize` index fits in a `u64`.
pub fn push(index: usize, t: time::Time) -> (r: Result<proto::PushRequest, Code>)
    ensures
        r == Ok::<proto::PushRequest, Code>(proto::PushRequest { index: index as u64, time: t.0 }),
{
    Ok(proto::PushRequest { index: index as u64, time: t.into_millis() })
}

/// Encodes a pop action.
///
/// This cannot fail: every `usize` index fits in a `u64`.
pub fn pop(index: usize, ty: session::action::Pop) -> (r: Result<proto::PopRequest, Code>)
    ensures
        r == Ok::<proto::PopRequest, Code>(
            proto::PopRequest { index: index as u64, pop_type: super::spec_pop(ty) },
        ),
{
    Ok(proto::PopRequest { index: index as u64, pop_type: super::pop(ty) })
}

} // verus!
