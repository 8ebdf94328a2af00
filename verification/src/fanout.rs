//! Fanning one operation out over a set of target nodes and aggregating the
//! per-node outcomes. A batch never short-circuits: every target gets an
//! outcome, one target's failure never masks another's success, and the
//! returned sequence follows the input order, not completion order.

use vstd::prelude::*;
use crate::node::NodeRecord;

verus! {

/// Apply `op` to every target and pair each target with its outcome, in
/// input order. An `Err` outcome is captured in place, never propagated: the
/// batch always reports exactly one outcome per target.
pub fn execute<T, E, F: Fn(NodeRecord) -> Result<T, E>>(
    targets: &Vec<NodeRecord>,
    op: F,
) -> (results: Vec<(NodeRecord, Result<T, E>)>)
    requires
        forall|i: int| 0 <= i < targets@.len() ==> call_requires(op, (targets@[i],)),
    ensures
        results@.len() == targets@.len(),
        forall|i: int| 0 <= i < targets@.len() ==> (#[trigger] results@[i]).0 == targets@[i],
        forall|i: int|
            0 <= i < targets@.len() ==> call_ensures(op, (targets@[i],), (#[trigger] results@[i]).1),
{
    let mut results: Vec<(NodeRecord, Result<T, E>)> = Vec::new();
    let mut j: usize = 0;
    while j < targets.len()
        invariant
            forall|i: int| 0 <= i < targets@.len() ==> call_requires(op, (targets@[i],)),
            j <= targets@.len(),
            results@.len() == j,
            forall|i: int| 0 <= i < j ==> (#[trigger] results@[i]).0 == targets@[i],
            forall|i: int|
                0 <= i < j ==> call_ensures(op, (targets@[i],), (#[trigger] results@[i]).1),
        decreases targets@.len() - j,
    {
        let node = targets[j];
        let outcome = op(node);
        results.push((node, outcome));
        j += 1;
    }
    results
}

/// Pair targets with outcomes gathered elsewhere, positionally. This is the
/// aggregation half of a fan-out whose operations ran as concurrent tasks:
/// the caller collects one outcome per target, in target order, and this
/// function correlates them.
pub fn pair_outcomes<T, E>(targets: &Vec<NodeRecord>, outcomes: Vec<Result<T, E>>) -> (results:
    Vec<(NodeRecord, Result<T, E>)>)
    requires
        outcomes@.len() == targets@.len(),
    ensures
        results@.len() == targets@.len(),
        forall|i: int| 0 <= i < targets@.len() ==> (#[trigger] results@[i]).0 == targets@[i],
        forall|i: int| 0 <= i < targets@.len() ==> (#[trigger] results@[i]).1 == outcomes@[i],
{
    let ghost orig = outcomes@;
    let mut rest = outcomes;
    let mut results: Vec<(NodeRecord, Result<T, E>)> = Vec::new();
    let mut j: usize = 0;
    while j < targets.len()
        invariant
            orig.len() == targets@.len(),
            j <= targets@.len(),
            rest@ == orig.skip(j as int),
            results@.len() == j,
            forall|i: int| 0 <= i < j ==> (#[trigger] results@[i]).0 == targets@[i],
            forall|i: int| 0 <= i < j ==> (#[trigger] results@[i]).1 == orig[i],
        decreases targets@.len() - j,
    {
        let node = targets[j];
        let outcome = rest.remove(0);
        results.push((node, outcome));
        proof {
            assert(orig.skip(j as int).remove(0) =~= orig.skip(j + 1));
        }
        j += 1;
    }
    results
}

/// How many outcomes of a batch are successes.
pub open spec fn spec_ok_count<T, E>(batch: Seq<(NodeRecord, Result<T, E>)>) -> nat
    decreases batch.len(),
{
    if batch.len() == 0 {
        0
    } else {
        (if batch[0].1 is Ok {
            1nat
        } else {
            0nat
        }) + spec_ok_count(batch.drop_first())
    }
}

/// Count a batch's successes and failures, for per-batch diagnostics.
/// Partial failure is expected: the counts always add up to the batch size.
pub fn batch_summary<T, E>(batch: &Vec<(NodeRecord, Result<T, E>)>) -> (s: (usize, usize))
    ensures
        s.0 == spec_ok_count(batch@),
        s.0 + s.1 == batch@.len(),
{
    let mut ok: usize = 0;
    let mut failed: usize = 0;
    let mut j: usize = 0;
    proof {
        assert(batch@.skip(0) =~= batch@);
    }
    while j < batch.len()
        invariant
            j <= batch@.len(),
            ok + failed == j,
            spec_ok_count(batch@) == ok + spec_ok_count(batch@.skip(j as int)),
        decreases batch@.len() - j,
    {
        proof {
            assert(batch@.skip(j as int).drop_first() =~= batch@.skip(j + 1));
        }
        if batch[j].1.is_ok() {
            ok = ok + 1;
        } else {
            failed = failed + 1;
        }
        j += 1;
    }
    (ok, failed)
}

} // verus!
