//! Orchestrates advertising a topic: derive its digest, warm the peer set
//! with a short bounded discovery loop, fan a registration out to the nodes
//! closest to the digest, then poll forever which nodes report the topic
//! active. Each phase completes before the next begins, and no per-node or
//! per-poll failure aborts the protocol.

use vstd::prelude::*;
use crate::discovery::{LookupCycle, PeerDiscoveryLoop};
use crate::iteration::{IterationController, IterationPolicy};
use crate::node::{EngineError, NodeRecord, TopicDigest};
use crate::topic::{sha256_of, spec_hashes};

verus! {

/// The strictly sequential phases of one advertisement run. Polling is last
/// and never ends on its own.
#[derive(Clone, Copy, Debug, PartialEq, Eq)]
pub enum AdvertisePhase {
    WarmingUp,
    FindingClosest,
    Registering,
    Polling,
}

/// One advertisement run for a single topic. Callers perform the engine's
/// operations (lookups, registration requests, active-topic polls) and hand
/// each outcome back; this state machine decides what comes next.
pub struct TopicAdvertiser {
    pub digest: TopicDigest,
    pub bootstrap: Option<NodeRecord>,
    pub warmup: PeerDiscoveryLoop,
    pub phase: AdvertisePhase,
    pub poll_period_secs: u64,
}

impl TopicAdvertiser {
    /// Start an advertisement run: the topic's digest is derived up front,
    /// the warm-up loop is bounded to `warmup_cycles`, and the run begins in
    /// the warm-up phase. An explicitly supplied bootstrap record only seeds
    /// the peer set; failing to add it is non-fatal.
    pub fn new(
        topic: &str,
        bootstrap: Option<NodeRecord>,
        warmup_cycles: u64,
        warmup_delay_secs: u64,
        poll_period_secs: u64,
    ) -> (a: Self)
        ensures
            a.digest.bytes@ == sha256_of(topic@),
            a.bootstrap == bootstrap,
            a.warmup.controller == IterationController::new_spec(
                IterationPolicy::Bounded(warmup_cycles),
            ),
            a.warmup.delay_secs == warmup_delay_secs,
            a.phase is WarmingUp,
            a.poll_period_secs == poll_period_secs,
    {
        let mut named = crate::topic::hashes(topic);
        let first = named.remove(0);
        proof {
            assert(spec_hashes(topic@)[0].0 == sha256_of(topic@));
        }
        TopicAdvertiser {
            digest: first.digest,
            bootstrap,
            warmup: PeerDiscoveryLoop::new(IterationPolicy::Bounded(warmup_cycles), warmup_delay_secs),
            phase: AdvertisePhase::WarmingUp,
            poll_period_secs,
        }
    }

    /// Advance the warm-up: a granted cycle carries a random lookup target;
    /// once the bounded warm-up is spent the run moves on to finding the
    /// nodes closest to the topic digest.
    pub fn next_warmup_cycle(&mut self) -> (c: Option<LookupCycle>)
        requires
            old(self).phase is WarmingUp,
        ensures
            c is Some == old(self).warmup.controller.spec_step().0,
            final(self).warmup.controller == old(self).warmup.controller.spec_step().1,
            final(self).warmup.delay_secs == old(self).warmup.delay_secs,
            (c matches Some(cycle) ==> cycle.iteration == final(self).warmup.controller.count),
            c is Some ==> final(self).phase is WarmingUp,
            c is None ==> final(self).phase is FindingClosest,
            final(self).digest == old(self).digest,
            final(self).bootstrap == old(self).bootstrap,
            final(self).poll_period_secs == old(self).poll_period_secs,
    {
        let c = self.warmup.next_cycle();
        if c.is_none() {
            self.phase = AdvertisePhase::FindingClosest;
        }
        c
    }

    /// Take the engine's closest-node answer and yield the registration
    /// targets: the nodes as reported, in their order, or — when the lookup
    /// failed — the empty list, degrading that round rather than aborting.
    /// Either way the run proceeds to registration.
    pub fn take_closest_outcome(&mut self, outcome: Result<Vec<NodeRecord>, EngineError>) -> (targets:
        Vec<NodeRecord>)
        requires
            old(self).phase is FindingClosest,
        ensures
            final(self).phase is Registering,
            (outcome matches Ok(nodes) ==> targets == nodes),
            outcome is Err ==> targets@.len() == 0,
            final(self).digest == old(self).digest,
            final(self).bootstrap == old(self).bootstrap,
            final(self).warmup == old(self).warmup,
            final(self).poll_period_secs == old(self).poll_period_secs,
    {
        self.phase = AdvertisePhase::Registering;
        match outcome {
            Ok(nodes) => nodes,
            Err(_) => Vec::new(),
        }
    }

    /// Registration is over — partial success is acceptable, so any mix of
    /// per-node outcomes ends the phase — and the run enters its unbounded
    /// polling phase.
    pub fn finish_registration(&mut self)
        requires
            old(self).phase is Registering,
        ensures
            final(self).phase is Polling,
            final(self).digest == old(self).digest,
            final(self).bootstrap == old(self).bootstrap,
            final(self).warmup == old(self).warmup,
            final(self).poll_period_secs == old(self).poll_period_secs,
    {
        self.phase = AdvertisePhase::Polling;
    }

    /// Whether another active-topics poll follows: always. Polling is a
    /// process-lifetime operation; it never terminates on its own, whatever
    /// the previous poll reported.
    pub fn poll_again(&self) -> (again: bool)
        requires
            self.phase is Polling,
        ensures
            again,
    {
        true
    }
}

/// One entry of the engine's active-topics answer: a topic name and the
/// nodes that report it active.
pub struct ActiveTopicEntry {
    pub topic: String,
    pub nodes: Vec<NodeRecord>,
}

/// What one active-topics poll reports: per topic, the identifiers of the
/// nodes advertising it, in the engine's order; or the engine's error. A
/// failed poll is recoverable — the next poll proceeds regardless.
pub enum PollReport {
    Active { entries: Vec<(String, Vec<[u8; 32]>)> },
    Failed { message: String },
}

/// Reduce an active-topics outcome to its report, keeping every entry and
/// every node, in order.
pub fn active_topics_report(outcome: Result<Vec<ActiveTopicEntry>, EngineError>) -> (r: PollReport)
    ensures
        (outcome matches Ok(entries) ==> r matches PollReport::Active { entries: rep }
            && rep@.len() == entries@.len() && (forall|i: int|
            0 <= i < entries@.len() ==> (#[trigger] rep@[i]).0@ == entries@[i].topic@
                && rep@[i].1@.len() == entries@[i].nodes@.len() && (forall|k: int|
                0 <= k < entries@[i].nodes@.len() ==> rep@[i].1@[k]@
                    == entries@[i].nodes@[k].id@))),
        (outcome matches Err(e) ==> r matches PollReport::Failed { message } && message@
            == e.message@),
{
    match outcome {
        Ok(mut entries) => {
            let ghost orig = entries@;
            let mut rep: Vec<(String, Vec<[u8; 32]>)> = Vec::new();
            let mut j: usize = 0;
            while j < entries.len()
                invariant
                    j <= entries@.len(),
                    entries@ == orig,
                    rep@.len() == j,
                    forall|i: int|
                        0 <= i < j ==> (#[trigger] rep@[i]).0@ == orig[i].topic@ && rep@[i].1@.len()
                            == orig[i].nodes@.len() && (forall|k: int|
                            0 <= k < orig[i].nodes@.len() ==> rep@[i].1@[k]@
                                == orig[i].nodes@[k].id@),
                decreases entries@.len() - j,
            {
                let entry = &entries[j];
                let mut ids: Vec<[u8; 32]> = Vec::new();
                let mut k: usize = 0;
                while k < entry.nodes.len()
                    invariant
                        k <= entry.nodes@.len(),
                        ids@.len() == k,
                        forall|m: int| 0 <= m < k ==> ids@[m]@ == entry.nodes@[m].id@,
                    decreases entry.nodes@.len() - k,
                {
                    ids.push(entry.nodes[k].id);
                    k += 1;
                }
                let name_copy = copy_string(&entry.topic);
                rep.push((name_copy, ids));
                j += 1;
            }
            PollReport::Active { entries: rep }
        },
        Err(e) => PollReport::Failed { message: e.message },
    }
}

/// A fresh `String` with the same text.
fn copy_string(s: &String) -> (r: String)
    ensures
        r@ == s@,
{
    String::from_str(s.as_str())
}

} // verus!
