//! Decoding logic for run attempts.
use super::error::{Error, Missing};
use crate::model::game::category;
use crate::model::run;
use crate::model::session;
use crate::model::short;
use crate::model::timing::time;
use crate::net::proto;
use vstd::prelude::*;

verus! {

/// The times that a sequence of millisecond counts stands for.
pub open spec fn spec_times(ms: Seq<i32>) -> Seq<time::Time> {
    ms.map_values(|m: i32| time::Time(m))
}

/// Whether `c` is the decoding of the wire game-category `g`.
pub open spec fn category_matches(g: proto::GameCategory, c: category::Info) -> bool {
    &&& c.game@ == g.game_name@
    &&& c.category@ == g.category_name@
    &&& c.short.game@ == g.game_sid@
    &&& c.short.category@ == g.category_sid@
}

/// Whether `s` is the decoding of the wire split `d`.
pub open spec fn split_matches(d: proto::DumpSplit, s: run::Split) -> bool {
    &&& s.short@ == d.sid@
    &&& s.name@ == d.name@
    &&& s.times@ == spec_times(d.times@)
}

/// Whether `splits` is, split by split, the decoding of the wire splits `ds`.
pub open spec fn splits_match(ds: Seq<proto::DumpSplit>, splits: Seq<run::Split>) -> bool {
    &&& splits.len() == ds.len()
    &&& forall|i: int| 0 <= i < ds.len() ==> #[trigger] split_matches(ds[i], splits[i])
}

/// The attempt counts that a dumped attempt carries; missing counts read as zero.
pub open spec fn spec_info(d: proto::DumpAttempt) -> Result<category::AttemptInfo, Error> {
    match d.attempt_info {
        None => Ok(category::AttemptInfo { total: 0, completed: 0 }),
        Some(i) => super::spec_attempt_info(i),
    }
}

/// Whether `r` is the decoding of the dumped attempt `d`: it needs a game-category, and
/// attempt counts that fit in `usize`.
pub open spec fn decodes_attempt(d: proto::DumpAttempt, r: Result<session::Attempt, Error>) -> bool {
    match d.game_category {
        None => r == Err::<session::Attempt, Error>(Error::Missing(Missing::AttemptInfo)),
        Some(g) => match spec_info(d) {
            Err(e) => r == Err::<session::Attempt, Error>(e),
            Ok(info) => r matches Ok(a) && a.info == info && category_matches(g, a.category)
                && splits_match(d.splits@, a.splits@),
        },
    }
}

/// Decodes a dumped attempt into its model representation.
///
/// Fails with `Missing::AttemptInfo` if the game-category is missing, and with
/// `IndexConversion` if the attempt counts do not fit in `usize`.
pub fn decode(run: &proto::DumpAttempt) -> (r: Result<session::Attempt, Error>)
    ensures
        decodes_attempt(*run, r),
{
    let category = match Missing::AttemptInfo.require(run.game_category.as_ref()) {
        Ok(g) => game_category(g),
        Err(e) => return Err(e),
    };
    let info = match &run.attempt_info {
        None => category::AttemptInfo::default(),
        Some(i) => match super::attempt_info(i) {
            Ok(i) => i,
            Err(e) => return Err(e),
        },
    };
    Ok(session::Attempt { category, info, splits: splits(&run.splits) })
}

/// Decodes a game-category.
fn game_category(info: &proto::GameCategory) -> (c: category::Info)
    ensures
        category_matches(*info, c),
{
    category::Info {
        game: info.game_name.clone(),
        category: info.category_name.clone(),
        short: category::ShortDescriptor::new(info.game_sid.as_str(), info.category_sid.as_str()),
    }
}

/// Decodes dumped splits, in order.
fn splits(list: &Vec<proto::DumpSplit>) -> (r: Vec<run::Split>)
    ensures
        splits_match(list@, r@),
{
    let mut r: Vec<run::Split> = Vec::new();
    let mut i: usize = 0;
    while i < list.len()
        invariant
            i <= list@.len(),
            r@.len() == i,
            forall|j: int| 0 <= j < i ==> #[trigger] split_matches(list@[j], r@[j]),
        decreases list@.len() - i,
    {
        r.push(split(&list[i]));
        i = i + 1;
    }
    r
}

/// Decodes a dumped split.
fn split(wire: &proto::DumpSplit) -> (s: run::Split)
    ensures
        split_matches(*wire, s),
{
    run::Split {
        short: short::Name::from_str(wire.sid.as_str()),
        name: wire.name.clone(),
        times: times(&wire.times),
    }
}

/// Decodes a list of millisecond counts into times.
fn times(ms: &Vec<i32>) -> (r: Vec<time::Time>)
    ensures
        r@ == spec_times(ms@),
{
    let mut r: Vec<time::Time> = Vec::new();
    let mut i: usize = 0;
    while i < ms.len()
        invariant
            i <= ms@.len(),
            r@ == spec_times(ms@.take(i as int)),
        decreases ms@.len() - i,
    {
        assert(ms@.take(i + 1) =~= ms@.take(i as int).push(ms@[i as int]));
        r.push(time::Time::from_millis(ms[i]));
        i = i + 1;
        assert(r@ =~= spec_times(ms@.take(i as int)));
    }
    assert(ms@.take(ms@.len() as int) =~= ms@);
    r
}

} // verus!
