//! Topic digests: mapping a topic name to the fixed-width values under which
//! it is advertised, each tagged with the hash function that produced it.

use vstd::prelude::*;
use sha2::Digest;
use crate::node::{EngineError, TopicDigest};

verus! {

/// The SHA-256 value of a topic name's bytes. Left uninterpreted: it stands
/// for whatever `sha2` computes, a function of the input text alone.
pub uninterp spec fn sha256_of(s: Seq<char>) -> Seq<u8>;

/// Relies on `sha2::Sha256` (the one-shot `Digest::digest`): the 32-byte
/// SHA-256 value of the input, depending on the input bytes alone.
#[verifier::external_body]
fn sha256_digest(topic: &str) -> (r: [u8; 32])
    ensures
        r@ == sha256_of(topic@),
{
    let out = sha2::Sha256::digest(topic.as_bytes());
    let mut bytes = [0u8; 32];
    bytes.copy_from_slice(&out);
    bytes
}

/// A topic digest together with the name of the hash function it was derived
/// under.
pub struct NamedDigest {
    pub digest: TopicDigest,
    pub hash_name: String,
}

/// All digests under which this deployment advertises a topic, one per
/// recognized hash function. A single function, SHA-256, is recognized.
pub open spec fn spec_hashes(topic: Seq<char>) -> Seq<(Seq<u8>, Seq<char>)> {
    seq![(sha256_of(topic), "sha256"@)]
}

/// Derive every digest of `topic`, tagged with the hash function's name, in
/// a fixed order. Pure: the result is a function of the topic text alone.
pub fn hashes(topic: &str) -> (r: Vec<NamedDigest>)
    ensures
        r@.len() == spec_hashes(topic@).len(),
        forall|i: int|
            0 <= i < r@.len() ==> (r@[i].digest.bytes@, r@[i].hash_name@) == spec_hashes(
                topic@,
            )[i],
{
    let digest = TopicDigest { bytes: sha256_digest(topic) };
    let entry = NamedDigest { digest, hash_name: String::from_str("sha256") };
    let mut r: Vec<NamedDigest> = Vec::new();
    r.push(entry);
    r
}

/// What removing a topic from the republish set came to: the engine's
/// confirmation text, or its error. Failure is reported, never propagated.
pub enum RemovalReport {
    Removed { confirmation: String },
    Failed { message: String },
}

/// Reduce the engine's remove-topic answer to its report.
pub fn removal_report(outcome: Result<String, EngineError>) -> (r: RemovalReport)
    ensures
        (outcome matches Ok(text) ==> r matches RemovalReport::Removed { confirmation }
            && confirmation@ == text@),
        (outcome matches Err(e) ==> r matches RemovalReport::Failed { message } && message@
            == e.message@),
{
    match outcome {
        Ok(text) => RemovalReport::Removed { confirmation: text },
        Err(e) => RemovalReport::Failed { message: e.message },
    }
}

/// Deriving a topic's digests is deterministic: the same topic text always
/// yields byte-identical digests under the same hash-function names, in the
/// same order.
pub proof fn lemma_hashes_deterministic(t1: Seq<char>, t2: Seq<char>)
    requires
        t1 == t2,
    ensures
        spec_hashes(t1) == spec_hashes(t2),
{
}

} // verus!
