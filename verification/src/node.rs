//! Plain-value views of the discovery engine's entities: the node records,
//! the errors its operations report, and the advertisements nodes publish.

use vstd::prelude::*;

verus! {

/// A network peer, reduced to what this layer reads of it: its 32-byte node
/// identifier. The engine owns the full record; callers convert.
#[derive(Clone, Copy, Debug, PartialEq, Eq)]
pub struct NodeRecord {
    pub id: [u8; 32],
}

/// An error reported by a discovery-engine operation, carried as text. Every
/// such error is recoverable at this layer: it is logged, never propagated.
#[derive(Clone, Debug)]
pub struct EngineError {
    pub message: String,
}

/// A claim, reported by a specific node, that it serves the given topic
/// digest.
#[derive(Clone, Copy, Debug, PartialEq, Eq)]
pub struct AdvertisementRecord {
    pub digest: TopicDigest,
    pub node: NodeRecord,
}

/// A fixed-width value deterministically derived from a topic name under a
/// named hash function.
#[derive(Clone, Copy, Debug, PartialEq, Eq)]
pub struct TopicDigest {
    pub bytes: [u8; 32],
}

} // verus!
