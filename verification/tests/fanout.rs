use std::cell::Cell;
use topic_discovery::fanout::{batch_summary, execute, pair_outcomes};
use topic_discovery::node::NodeRecord;

fn node(tag: u8) -> NodeRecord {
    let mut id = [0u8; 32];
    id[0] = tag;
    NodeRecord { id }
}

#[test]
fn empty_targets_yield_empty_batch_without_invocation() {
    let calls = Cell::new(0u32);
    let targets: Vec<NodeRecord> = Vec::new();
    let results = execute(&targets, |_n: NodeRecord| -> Result<u32, String> {
        calls.set(calls.get() + 1);
        Ok(0)
    });
    assert!(results.is_empty());
    assert_eq!(calls.get(), 0);
}

#[test]
fn ordering_is_preserved_when_one_target_fails() {
    let targets = vec![node(1), node(2), node(3)];
    let results = execute(&targets, |n: NodeRecord| -> Result<u8, String> {
        if n.id[0] == 2 {
            Err(String::from("refused"))
        } else {
            Ok(n.id[0] + 100)
        }
    });
    assert_eq!(results.len(), 3);
    assert_eq!(results[0].0.id[0], 1);
    assert_eq!(results[1].0.id[0], 2);
    assert_eq!(results[2].0.id[0], 3);
    assert_eq!(results[0].1, Ok(101));
    assert_eq!(results[1].1, Err(String::from("refused")));
    assert_eq!(results[2].1, Ok(103));
}

#[test]
fn every_target_gets_exactly_one_outcome() {
    let targets: Vec<NodeRecord> = (0..17).map(|t| node(t)).collect();
    let calls = Cell::new(0u32);
    let results = execute(&targets, |n: NodeRecord| -> Result<(), String> {
        calls.set(calls.get() + 1);
        if n.id[0] % 3 == 0 {
            Err(String::from("down"))
        } else {
            Ok(())
        }
    });
    assert_eq!(results.len(), targets.len());
    assert_eq!(calls.get(), 17);
}

#[test]
fn pair_outcomes_correlates_positionally() {
    let targets = vec![node(7), node(8)];
    let outcomes: Vec<Result<u8, String>> = vec![Ok(70), Err(String::from("timeout"))];
    let results = pair_outcomes(&targets, outcomes);
    assert_eq!(results.len(), 2);
    assert_eq!(results[0].0.id[0], 7);
    assert_eq!(results[0].1, Ok(70));
    assert_eq!(results[1].0.id[0], 8);
    assert_eq!(results[1].1, Err(String::from("timeout")));
}

#[test]
fn batch_summary_counts_successes_and_failures() {
    let batch: Vec<(NodeRecord, Result<u8, String>)> = vec![
        (node(1), Ok(1)),
        (node(2), Err(String::from("a"))),
        (node(3), Ok(3)),
        (node(4), Err(String::from("b"))),
        (node(5), Err(String::from("c"))),
    ];
    let (ok, failed) = batch_summary(&batch);
    assert_eq!(ok, 2);
    assert_eq!(failed, 3);
}

#[test]
fn batch_summary_of_empty_batch_is_zero() {
    let batch: Vec<(NodeRecord, Result<u8, String>)> = Vec::new();
    let (ok, failed) = batch_summary(&batch);
    assert_eq!(ok, 0);
    assert_eq!(failed, 0);
}
