//! Encoding logic for run attempts.
use crate::model::game::category;
use crate::model::run;
use crate::model::session;
use crate::model::timing::time;
use crate::net::proto::{self, Code};
use vstd::prelude::*;

verus! {

/// The millisecond counts of a sequence of times.
pub open spec fn spec_millis(ts: Seq<time::Time>) -> Seq<i32> {
    ts.map_values(|t: time::Time| t.0)
}

/// Whether `w` is the wire form of the game-category `c`.
pub open spec fn encodes_category(c: category::Info, w: proto::GameCategory) -> bool {
    &&& w.game_name@ == c.game@
    &&& w.category_name@ == c.category@
    &&& w.game_sid@ == c.short.game@
    &&& w.category_sid@ == c.short.category@
}

/// Whether `w` is the wire form of the split `s`.
pub open spec fn encodes_split(s: run::Split, w: proto::DumpSplit) -> bool {
    &&& w.sid@ == s.short@
    &&& w.name@ == s.name@
    &&& w.times@ == spec_millis(s.times@)
}

/// Whether `w` is the wire form of the attempt `a`.
pub open spec fn encodes_attempt(a: session::Attempt, w: proto::DumpAttempt) -> bool {
    &&& w.game_category matches Some(g) && encodes_category(a.category, g)
    &&& w.attempt_info == Some(super::spec_attempt_info(a.info))
    &&& w.splits@.len() == a.splits@.len()
    &&& forall|i: int| 0 <= i < a.splits@.len() ==> #[trigger] encodes_split(a.splits@[i], w.splits@[i])
}

/// Encodes an attempt into its dumped form.
///
/// This cannot fail: every attempt count fits in a `u64`.
pub fn encode(run: &session::Attempt) -> (r: Result<proto::DumpAttempt, Code>)
    ensures
        r matches Ok(w) && encodes_attempt(*run, w),
{
    let info = match super::attempt_info(&run.info) {
        Ok(i) => i,
        Err(c) => return Err(c),
    };
    Ok(
        proto::DumpAttempt {
            game_category: Some(game_category(&run.category)),
            attempt_info: Some(info),
            splits: splits(&run.splits),
        },
    )
}

/// Encodes a game-category.
fn game_category(info: &category::Info) -> (r: proto::GameCategory)
    ensures
        encodes_category(*info, r),
{
    proto::GameCategory {
        category_name: info.category.clone(),
        game_name: info.game.clone(),
        category_sid: info.short.category.0.clone(),
        game_sid: info.short.game.0.clone(),
    }
}

/// Encodes splits, in order.
fn splits(list: &Vec<run::Split>) -> (r: Vec<proto::DumpSplit>)
    ensures
        r@.len() == list@.len(),
        forall|i: int| 0 <= i < list@.len() ==> #[trigger] encodes_split(list@[i], r@[i]),
{
    let mut r: Vec<proto::DumpSplit> = Vec::new();
    let mut i: usize = 0;
    while i < list.len()
        invariant
            i <= list@.len(),
            r@.len() == i,
            forall|j: int| 0 <= j < i ==> #[trigger] encodes_split(list@[j], r@[j]),
        decreases list@.len() - i,
    {
        r.push(split(&list[i]));
        i = i + 1;
    }
    r
}

/// Encodes a split.
fn split(s: &run::Split) -> (r: proto::DumpSplit)
    ensures
        encodes_split(*s, r),
{
    proto::DumpSplit { sid: s.short.0.clone(), name: s.name.clone(), times: times(&s.times) }
}

/// Encodes times as millisecond counts.
fn times(ts: &Vec<time::Time>) -> (r: Vec<i32>)
    ensures
        r@ == spec_millis(ts@),
{
    let mut r: Vec<i32> = Vec::new();
    let mut i: usize = 0;
    while i < ts.len()
        invariant
            i <= ts@.len(),
            r@ == spec_millis(ts@.take(i as int)),
        decreases ts@.len() - i,
    {
        assert(ts@.take(i + 1) =~= ts@.take(i as int).push(ts@[i as int]));
        r.push(ts[i].into_millis());
        i = i + 1;
        assert(r@ =~= spec_millis(ts@.take(i as int)));
    }
    assert(ts@.take(ts@.len() as int) =~= ts@);
    r
}

} // verus!
