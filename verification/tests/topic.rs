use topic_discovery::node::EngineError;
use topic_discovery::topic::{hashes, removal_report, RemovalReport};

#[test]
fn hashes_is_deterministic() {
    let a = hashes("lighthouse");
    let b = hashes("lighthouse");
    assert_eq!(a.len(), b.len());
    for (x, y) in a.iter().zip(b.iter()) {
        assert_eq!(x.digest.bytes, y.digest.bytes);
        assert_eq!(x.hash_name, y.hash_name);
    }
}

#[test]
fn hashes_returns_one_sha256_digest() {
    let r = hashes("a topic");
    assert_eq!(r.len(), 1);
    assert_eq!(r[0].hash_name, "sha256");
}

#[test]
fn hashes_matches_known_sha256_vector() {
    // SHA-256("abc") from the published test vectors.
    let expected: [u8; 32] = [
        0xba, 0x78, 0x16, 0xbf, 0x8f, 0x01, 0xcf, 0xea, 0x41, 0x41, 0x40, 0xde, 0x5d, 0xae,
        0x22, 0x23, 0xb0, 0x03, 0x61, 0xa3, 0x96, 0x17, 0x7a, 0x9c, 0xb4, 0x10, 0xff, 0x61,
        0xf2, 0x00, 0x15, 0xad,
    ];
    let r = hashes("abc");
    assert_eq!(r[0].digest.bytes, expected);
}

#[test]
fn distinct_topics_hash_differently() {
    let a = hashes("topic-a");
    let b = hashes("topic-b");
    assert_ne!(a[0].digest.bytes, b[0].digest.bytes);
}

#[test]
fn removal_report_confirms_on_success() {
    let r = removal_report(Ok(String::from("gossip")));
    match r {
        RemovalReport::Removed { confirmation } => assert_eq!(confirmation, "gossip"),
        RemovalReport::Failed { .. } => panic!("expected a removal confirmation"),
    }
}

#[test]
fn removal_report_carries_error_text() {
    let e = EngineError { message: String::from("no such topic") };
    let r = removal_report(Err(e));
    match r {
        RemovalReport::Removed { .. } => panic!("expected a failure report"),
        RemovalReport::Failed { message } => assert_eq!(message, "no such topic"),
    }
}
