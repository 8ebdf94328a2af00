//! The periodic peer-discovery refresh: decide each cycle whether to run one
//! more random-target lookup, and reduce each lookup's outcome to the
//! diagnostics the caller logs. The lookup itself is the engine's work; a
//! failed cycle is recoverable, and the next cycle's delay is the retry
//! backoff.

use vstd::prelude::*;
use crate::iteration::{IterationController, IterationPolicy};
use crate::node::{EngineError, NodeRecord};

verus! {

/// Relies on `enr::NodeId::random`: a fresh 32-byte node identifier drawn
/// from the process's entropy source. Nothing is promised of its value: two
/// calls may or may not differ.
#[verifier::external_body]
fn random_node_id_bytes() -> (r: [u8; 32]) {
    enr::NodeId::random().raw()
}

/// One granted discovery cycle: the random target to look up and the
/// 1-indexed cycle number, for "iteration i/n" diagnostics.
pub struct LookupCycle {
    pub target: [u8; 32],
    pub iteration: u64,
}

/// Drives periodic random-target lookups, as many as its controller grants,
/// with a fixed delay between cycles.
pub struct PeerDiscoveryLoop {
    pub controller: IterationController,
    pub delay_secs: u64,
}

impl PeerDiscoveryLoop {
    /// A loop that will run as many cycles as `policy` grants, pausing
    /// `delay_secs` between them.
    pub fn new(policy: IterationPolicy, delay_secs: u64) -> (l: Self)
        ensures
            l.controller == IterationController::new_spec(policy),
            l.delay_secs == delay_secs,
    {
        PeerDiscoveryLoop { controller: IterationController::new(policy), delay_secs }
    }

    /// Begin the next cycle if the controller grants one: the answer and the
    /// counter advance exactly as one `should_run_next` call, and a granted
    /// cycle carries a freshly drawn random target. `None` means the loop is
    /// done and never restarts itself.
    pub fn next_cycle(&mut self) -> (c: Option<LookupCycle>)
        ensures
            c is Some == old(self).controller.spec_step().0,
            final(self).controller == old(self).controller.spec_step().1,
            final(self).delay_secs == old(self).delay_secs,
            (c matches Some(cycle) ==> cycle.iteration == final(self).controller.count),
    {
        let (run, iteration) = self.controller.should_run_next();
        if run {
            Some(LookupCycle { target: random_node_id_bytes(), iteration })
        } else {
            None
        }
    }
}

/// What one lookup cycle reports: the identifiers found, or the engine's
/// error. Either way the loop goes on; failure is per-cycle and recoverable.
pub enum LookupReport {
    Found { ids: Vec<[u8; 32]> },
    Failed { message: String },
}

/// Reduce a lookup outcome to its report: on success the found nodes'
/// identifiers, in the order the engine returned them; on failure the
/// error's text. No outcome aborts the loop.
pub fn lookup_report(outcome: Result<Vec<NodeRecord>, EngineError>) -> (r: LookupReport)
    ensures
        (outcome matches Ok(nodes) ==> r matches LookupReport::Found { ids } && ids@.len()
            == nodes@.len() && (forall|i: int| 0 <= i < nodes@.len() ==> ids@[i]@ == nodes@[i].id@)),
        (outcome matches Err(e) ==> r matches LookupReport::Failed { message } && message@
            == e.message@),
{
    match outcome {
        Ok(nodes) => {
            let mut ids: Vec<[u8; 32]> = Vec::new();
            let mut j: usize = 0;
            while j < nodes.len()
                invariant
                    j <= nodes@.len(),
                    ids@.len() == j,
                    forall|i: int| 0 <= i < j ==> ids@[i]@ == nodes@[i].id@,
                decreases nodes@.len() - j,
            {
                ids.push(nodes[j].id);
                j += 1;
            }
            LookupReport::Found { ids }
        },
        Err(e) => LookupReport::Failed { message: e.message },
    }
}

} // verus!
