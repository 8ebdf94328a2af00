use std::cell::Cell;
use topic_discovery::advertise::{
    active_topics_report, ActiveTopicEntry, AdvertisePhase, PollReport, TopicAdvertiser,
};
use topic_discovery::fanout::execute;
use topic_discovery::node::{EngineError, NodeRecord};

fn node(tag: u8) -> NodeRecord {
    let mut id = [0u8; 32];
    id[0] = tag;
    NodeRecord { id }
}

#[test]
fn zero_closest_nodes_still_reaches_polling() {
    let mut a = TopicAdvertiser::new("gossip", None, 0, 0, 15);
    // A warm-up bounded to zero cycles grants none.
    assert!(a.next_warmup_cycle().is_none());
    assert_eq!(a.phase, AdvertisePhase::FindingClosest);

    let targets = a.take_closest_outcome(Ok(Vec::new()));
    assert!(targets.is_empty());

    // Zero targets: the registration fan-out attempts nothing.
    let attempts = Cell::new(0u32);
    let batch = execute(&targets, |_n: NodeRecord| -> Result<(), String> {
        attempts.set(attempts.get() + 1);
        Ok(())
    });
    assert!(batch.is_empty());
    assert_eq!(attempts.get(), 0);

    a.finish_registration();
    assert_eq!(a.phase, AdvertisePhase::Polling);
    assert!(a.poll_again());
}

#[test]
fn closest_lookup_failure_degrades_to_empty_targets() {
    let mut a = TopicAdvertiser::new("gossip", None, 0, 0, 15);
    assert!(a.next_warmup_cycle().is_none());
    let targets =
        a.take_closest_outcome(Err(EngineError { message: String::from("no peers") }));
    assert!(targets.is_empty());
    a.finish_registration();
    assert!(a.poll_again());
}

#[test]
fn warmup_runs_its_bounded_cycles_first() {
    let boot = node(9);
    let mut a = TopicAdvertiser::new("gossip", Some(boot), 2, 5, 15);
    assert_eq!(a.bootstrap.map(|n| n.id), Some(boot.id));
    assert_eq!(a.phase, AdvertisePhase::WarmingUp);
    assert_eq!(a.next_warmup_cycle().expect("first cycle").iteration, 1);
    assert_eq!(a.next_warmup_cycle().expect("second cycle").iteration, 2);
    assert_eq!(a.phase, AdvertisePhase::WarmingUp);
    assert!(a.next_warmup_cycle().is_none());
    assert_eq!(a.phase, AdvertisePhase::FindingClosest);
}

#[test]
fn advertiser_digest_matches_hasher() {
    let a = TopicAdvertiser::new("gossip", None, 3, 5, 15);
    let named = topic_discovery::topic::hashes("gossip");
    assert_eq!(a.digest.bytes, named[0].digest.bytes);
}

#[test]
fn registration_targets_are_the_closest_nodes_in_order() {
    let mut a = TopicAdvertiser::new("gossip", None, 0, 0, 15);
    assert!(a.next_warmup_cycle().is_none());
    let closest = vec![node(4), node(2), node(6)];
    let targets = a.take_closest_outcome(Ok(closest));
    let tags: Vec<u8> = targets.iter().map(|n| n.id[0]).collect();
    assert_eq!(tags, vec![4, 2, 6]);
}

#[test]
fn active_topics_report_keeps_entries_and_node_ids() {
    let entries = vec![
        ActiveTopicEntry { topic: String::from("gossip"), nodes: vec![node(1), node(2)] },
        ActiveTopicEntry { topic: String::from("blocks"), nodes: Vec::new() },
    ];
    match active_topics_report(Ok(entries)) {
        PollReport::Active { entries } => {
            assert_eq!(entries.len(), 2);
            assert_eq!(entries[0].0, "gossip");
            assert_eq!(entries[0].1.len(), 2);
            assert_eq!(entries[0].1[0][0], 1);
            assert_eq!(entries[0].1[1][0], 2);
            assert_eq!(entries[1].0, "blocks");
            assert!(entries[1].1.is_empty());
        }
        PollReport::Failed { .. } => panic!("expected an active report"),
    }
}

#[test]
fn active_topics_report_carries_error_text() {
    let outcome: Result<Vec<ActiveTopicEntry>, EngineError> =
        Err(EngineError { message: String::from("poll failed") });
    match active_topics_report(outcome) {
        PollReport::Active { .. } => panic!("expected a failure report"),
        PollReport::Failed { message } => assert_eq!(message, "poll failed"),
    }
}
