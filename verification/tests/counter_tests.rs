use docmeta::counter::{Counter, CounterKey, CounterUpdate};
use docmeta::errors::CounterError;
use docmeta::node::NodeKind;

fn heading_key() -> CounterKey {
    CounterKey::Elem(NodeKind::Heading)
}

fn frozen_with(updates: Vec<(u64, Option<CounterUpdate>)>) -> Counter {
    let mut c = Counter::new(heading_key());
    for (loc, upd) in updates {
        c.record(loc, upd);
    }
    c.freeze();
    c
}

#[test]
fn step_within_vector_truncates_and_increments() {
    // Step(2) on [2, 3, 7]: keep [2], bump the level-2 component, drop deeper.
    let c = frozen_with(vec![
        (1, Some(CounterUpdate::Assign(vec![2, 3, 7]))),
        (2, Some(CounterUpdate::Step(2))),
    ]);
    assert_eq!(c.at(2), Ok(vec![2, 4]));
}

#[test]
fn step_beyond_vector_pads_with_zeros_then_one() {
    // Step(4) on [5]: pad to [5, 0, 0, 0], bump the last: [5, 0, 0, 1].
    let c = frozen_with(vec![
        (1, Some(CounterUpdate::Assign(vec![5]))),
        (2, Some(CounterUpdate::Step(4))),
    ]);
    assert_eq!(c.at(2), Ok(vec![5, 0, 0, 1]));
}

#[test]
fn step_on_empty_counter_starts_at_one() {
    let c = frozen_with(vec![(1, Some(CounterUpdate::Step(1)))]);
    assert_eq!(c.at(1), Ok(vec![1]));
}

#[test]
fn replay_prefix_then_continue_matches_full_replay() {
    // The same event log split at any point gives the same answers as a
    // single pass: query each prefix of a longer log.
    let updates = vec![
        CounterUpdate::Step(1),
        CounterUpdate::Step(2),
        CounterUpdate::Step(2),
        CounterUpdate::Assign(vec![7]),
        CounterUpdate::Step(3),
        CounterUpdate::Step(1),
    ];
    let expected: Vec<Vec<u64>> = vec![
        vec![1],
        vec![1, 1],
        vec![1, 2],
        vec![7],
        vec![7, 0, 1],
        vec![8],
    ];
    let mut entries = Vec::new();
    for (i, u) in updates.iter().enumerate() {
        let copy = match u {
            CounterUpdate::Step(l) => CounterUpdate::Step(*l),
            CounterUpdate::Assign(v) => CounterUpdate::Assign(v.clone()),
        };
        entries.push((i as u64 + 1, Some(copy)));
    }
    let c = frozen_with(entries);
    for (i, want) in expected.iter().enumerate() {
        assert_eq!(c.at(i as u64 + 1), Ok(want.clone()));
    }
}

#[test]
fn node_without_update_keeps_prior_value() {
    // A node that contributes no event answers with the previous value.
    let c = frozen_with(vec![
        (10, Some(CounterUpdate::Step(1))),
        (20, None),
        (30, Some(CounterUpdate::Step(1))),
    ]);
    assert_eq!(c.at(10), Ok(vec![1]));
    assert_eq!(c.at(20), Ok(vec![1]));
    assert_eq!(c.at(30), Ok(vec![2]));
}

#[test]
fn counter_with_no_events_yields_initial_vector() {
    let c = frozen_with(vec![(10, None), (20, None)]);
    assert_eq!(c.at(20), Ok(vec![]));
}

#[test]
fn query_before_freeze_is_rejected() {
    let mut c = Counter::new(heading_key());
    c.record(10, Some(CounterUpdate::Step(1)));
    assert_eq!(c.at(10), Err(CounterError::NotYetResolved));
    c.freeze();
    assert_eq!(c.at(10), Ok(vec![1]));
}

#[test]
fn unknown_location_is_an_error() {
    let c = frozen_with(vec![(10, Some(CounterUpdate::Step(1)))]);
    assert_eq!(c.at(15), Err(CounterError::UnknownLocation));
    assert_eq!(c.at(5), Err(CounterError::UnknownLocation));
}

#[test]
fn named_counter_keeps_its_key() {
    let c = Counter::new(CounterKey::Named("figure".to_string()));
    assert_eq!(c.key, CounterKey::Named("figure".to_string()));
}
