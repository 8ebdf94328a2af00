//! Orchestrates querying for a topic's advertisements: derive the digest,
//! warm the peer set, fan one query out to the nodes closest to the digest,
//! and merge what each node returned. A single bounded round: once the
//! merged set is produced the run is done.

use vstd::prelude::*;
use crate::discovery::{LookupCycle, PeerDiscoveryLoop};
use crate::iteration::{IterationController, IterationPolicy};
use crate::node::{AdvertisementRecord, EngineError, NodeRecord, TopicDigest};
use crate::topic::{sha256_of, spec_hashes};

verus! {

/// The strictly sequential phases of one query run.
#[derive(Clone, Copy, Debug, PartialEq, Eq)]
pub enum QueryPhase {
    WarmingUp,
    FindingClosest,
    Querying,
    Done,
}

/// One query run for a single topic. Callers perform the engine's
/// operations and hand each outcome back; this state machine decides what
/// comes next and merges the final answer.
pub struct TopicQueryer {
    pub digest: TopicDigest,
    pub bootstrap: Option<NodeRecord>,
    pub warmup: PeerDiscoveryLoop,
    pub phase: QueryPhase,
}

/// The advertisements a query round yields: every record of every node that
/// answered successfully, node by node in target order, records in each
/// node's own order. Nodes that failed contribute nothing — a per-node
/// failure never discards the rest of the batch.
pub open spec fn spec_merged_ads(
    outcomes: Seq<(NodeRecord, Result<Vec<AdvertisementRecord>, EngineError>)>,
) -> Seq<AdvertisementRecord>
    decreases outcomes.len(),
{
    if outcomes.len() == 0 {
        Seq::empty()
    } else {
        (match outcomes[0].1 {
            Ok(ads) => ads@,
            Err(_) => Seq::empty(),
        }) + spec_merged_ads(outcomes.drop_first())
    }
}

impl TopicQueryer {
    /// Start a query run: the topic's digest is derived up front, the
    /// warm-up loop is bounded to `warmup_cycles`, and the run begins in the
    /// warm-up phase.
    pub fn new(
        topic: &str,
        bootstrap: Option<NodeRecord>,
        warmup_cycles: u64,
        warmup_delay_secs: u64,
    ) -> (q: Self)
        ensures
            q.digest.bytes@ == sha256_of(topic@),
            q.bootstrap == bootstrap,
            q.warmup.controller == IterationController::new_spec(
                IterationPolicy::Bounded(warmup_cycles),
            ),
            q.warmup.delay_secs == warmup_delay_secs,
            q.phase is WarmingUp,
    {
        let mut named = crate::topic::hashes(topic);
        let first = named.remove(0);
        proof {
            assert(spec_hashes(topic@)[0].0 == sha256_of(topic@));
        }
        TopicQueryer {
            digest: first.digest,
            bootstrap,
            warmup: PeerDiscoveryLoop::new(IterationPolicy::Bounded(warmup_cycles), warmup_delay_secs),
            phase: QueryPhase::WarmingUp,
        }
    }

    /// Advance the warm-up: a granted cycle carries a random lookup target;
    /// once the bounded warm-up is spent the run moves on to finding the
    /// nodes closest to the topic digest.
    pub fn next_warmup_cycle(&mut self) -> (c: Option<LookupCycle>)
        requires
            old(self).phase is WarmingUp,
        ensures
            c is Some == old(self).warmup.controller.spec_step().0,
            final(self).warmup.controller == old(self).warmup.controller.spec_step().1,
            final(self).warmup.delay_secs == old(self).warmup.delay_secs,
            (c matches Some(cycle) ==> cycle.iteration == final(self).warmup.controller.count),
            c is Some ==> final(self).phase is WarmingUp,
            c is None ==> final(self).phase is FindingClosest,
            final(self).digest == old(self).digest,
            final(self).bootstrap == old(self).bootstrap,
    {
        let c = self.warmup.next_cycle();
        if c.is_none() {
            self.phase = QueryPhase::FindingClosest;
        }
        c
    }

    /// Take the engine's closest-node answer and yield the query targets:
    /// the nodes as reported, in their order, or — when the lookup failed —
    /// the empty list, degrading this round rather than aborting it.
    pub fn take_closest_outcome(&mut self, outcome: Result<Vec<NodeRecord>, EngineError>) -> (targets:
        Vec<NodeRecord>)
        requires
            old(self).phase is FindingClosest,
        ensures
            final(self).phase is Querying,
            (outcome matches Ok(nodes) ==> targets == nodes),
            outcome is Err ==> targets@.len() == 0,
            final(self).digest == old(self).digest,
            final(self).bootstrap == old(self).bootstrap,
            final(self).warmup == old(self).warmup,
    {
        self.phase = QueryPhase::Querying;
        match outcome {
            Ok(nodes) => nodes,
            Err(_) => Vec::new(),
        }
    }

    /// Merge one fan-out's per-node outcomes into the round's advertisement
    /// set and finish the run. Every successful node's records are kept, in
    /// order; failed nodes are skipped.
    pub fn aggregate(
        &mut self,
        outcomes: Vec<(NodeRecord, Result<Vec<AdvertisementRecord>, EngineError>)>,
    ) -> (ads: Vec<AdvertisementRecord>)
        requires
            old(self).phase is Querying,
        ensures
            final(self).phase is Done,
            ads@ == spec_merged_ads(outcomes@),
            final(self).digest == old(self).digest,
            final(self).bootstrap == old(self).bootstrap,
            final(self).warmup == old(self).warmup,
    {
        self.phase = QueryPhase::Done;
        let ghost orig = outcomes@;
        let mut rest = outcomes;
        let mut ads: Vec<AdvertisementRecord> = Vec::new();
        while rest.len() > 0
            invariant
                ads@ + spec_merged_ads(rest@) == spec_merged_ads(orig),
            decreases rest@.len(),
        {
            let ghost before = rest@;
            let pair = rest.remove(0);
            proof {
                assert(before.remove(0) =~= before.drop_first());
            }
            match pair.1 {
                Ok(mut found) => {
                    ads.append(&mut found);
                },
                Err(_) => {},
            }
        }
        proof {
            assert(ads@ + spec_merged_ads(rest@) =~= ads@);
        }
        ads
    }
}

} // verus!
