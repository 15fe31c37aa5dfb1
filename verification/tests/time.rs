use zombiesplit::model::short;
use zombiesplit::model::timing::aggregate::{AggregateSet, Scope};
use zombiesplit::model::timing::time::Time;

/// Tests that adding and subtracting a time appears to be the identity.
#[test]
fn time_add_sub() {
    let t1: Time = Time::from_millis(15100);
    let t2: Time = Time::from_millis(6410);
    assert_eq!(t1, t1.plus(t2).minus(t2));
}

/// Tests that subtracting a large time from a short time does not saturate.
#[test]
fn time_sub_no_sat() {
    let t1: Time = Time::from_millis(15100);
    let t2: Time = Time::from_millis(6410);
    assert_eq!(t2, t2.minus(t1).plus(t1));
}

#[test]
fn accumulate_pairs_nonempty() {
    let pairs = vec![
        (short::Name::from_str("split1"), Time::from_millis(63)),
        (short::Name::from_str("split2"), Time::from_millis(42)),
        (short::Name::from_str("split3"), Time::from_millis(101)),
    ];
    let results = AggregateSet::accumulate_pairs(pairs.clone());
    assert_eq!(3, results.len(), "expected as many aggregates as splits");

    let mut cumulative = Time::default();
    for ((orig_name, orig_time), (agg_name, agg)) in pairs.iter().zip(&results) {
        assert_eq!(
            orig_name.0, agg_name.0,
            "aggregates should mention same splits in order"
        );
        assert_eq!(
            *orig_time,
            agg.index(Scope::Split),
            "aggregate split times should match"
        );

        cumulative = cumulative.plus(*orig_time);
        assert_eq!(
            cumulative,
            agg.index(Scope::Cumulative),
            "aggregate cumulative times should match"
        );
    }
}
