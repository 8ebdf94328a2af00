//! Iteration control for periodic loops: run a fixed number of cycles, or
//! run forever.

use vstd::prelude::*;

verus! {

/// How many cycles a periodic loop may run: forever, or at most `n` times.
#[derive(Clone, Copy, Debug)]
pub enum IterationPolicy {
    Unbounded,
    Bounded(u64),
}

/// Tracks how many cycles a loop has started and decides whether another one
/// may begin. A `Bounded(n)` controller grants exactly `n` cycles; an
/// `Unbounded` controller always grants one more.
#[derive(Clone, Copy, Debug)]
pub struct IterationController {
    pub policy: IterationPolicy,
    pub count: u64,
}

impl IterationController {
    /// The value `new(policy)` returns, for use in specifications.
    pub open spec fn new_spec(policy: IterationPolicy) -> IterationController {
        IterationController { policy, count: 0 }
    }

    /// Whether the controller grants the next cycle in its current state.
    pub open spec fn spec_continue(self) -> bool {
        match self.policy {
            IterationPolicy::Unbounded => true,
            IterationPolicy::Bounded(n) => self.count < n,
        }
    }

    /// The state after one `should_run_next` call: the granted/denied answer
    /// and the successor controller. The cycle counter advances only on a
    /// granted cycle, and sticks at `u64::MAX` rather than wrapping.
    pub open spec fn spec_step(self) -> (bool, IterationController) {
        if self.spec_continue() {
            let next = if self.count < u64::MAX {
                (self.count + 1) as u64
            } else {
                self.count
            };
            (true, IterationController { policy: self.policy, count: next })
        } else {
            (false, self)
        }
    }

    /// The answers of `k` successive `should_run_next` calls starting here.
    pub open spec fn spec_answers(self, k: nat) -> Seq<bool>
        decreases k,
    {
        if k == 0 {
            Seq::empty()
        } else {
            seq![self.spec_step().0] + self.spec_step().1.spec_answers((k - 1) as nat)
        }
    }

    /// A fresh controller: no cycle has started yet.
    pub fn new(policy: IterationPolicy) -> (c: Self)
        ensures
            c.policy == policy,
            c.count == 0,
    {
        IterationController { policy, count: 0 }
    }

    /// Decide whether the next cycle may run. On a granted cycle the returned
    /// number is the 1-indexed cycle number, for "iteration i/n" diagnostics.
    pub fn should_run_next(&mut self) -> (r: (bool, u64))
        ensures
            r.0 == old(self).spec_step().0,
            *final(self) == old(self).spec_step().1,
            r.1 == final(self).count,
    {
        let run = match self.policy {
            IterationPolicy::Unbounded => true,
            IterationPolicy::Bounded(n) => self.count < n,
        };
        if run && self.count < u64::MAX {
            self.count = self.count + 1;
        }
        (run, self.count)
    }
}

/// A `Bounded(n)` controller that has already started `m` cycles answers the
/// next `k` calls with `true` exactly while the total stays below `n`.
proof fn lemma_bounded_answers_from(n: u64, m: u64, k: nat, i: int)
    requires
        0 <= i < k,
    ensures
        ((IterationController { policy: IterationPolicy::Bounded(n), count: m })
            .spec_answers(k)[i] == (m + i < n)),
    decreases k,
{
    let c = IterationController { policy: IterationPolicy::Bounded(n), count: m };
    lemma_answers_len(c.spec_step().1, (k - 1) as nat);
    if i > 0 {
        if m < n {
            lemma_bounded_answers_from(n, (m + 1) as u64, (k - 1) as nat, i - 1);
        } else {
            lemma_bounded_answers_from(n, m, (k - 1) as nat, i - 1);
        }
    }
}

/// A fresh `Bounded(n)` controller answers `true` on exactly the first `n`
/// calls to `should_run_next`, and `false` forever after.
pub proof fn lemma_bounded_runs_exactly_n(n: u64, k: nat)
    ensures
        forall|i: int|
            0 <= i < k ==> IterationController::new_spec(IterationPolicy::Bounded(n))
                .spec_answers(k)[i] == (i < n),
{
    assert forall|i: int| 0 <= i < k implies IterationController::new_spec(
        IterationPolicy::Bounded(n),
    ).spec_answers(k)[i] == (i < n) by {
        lemma_bounded_answers_from(n, 0, k, i);
    }
}

/// `spec_answers(k)` records one answer per call.
pub proof fn lemma_answers_len(c: IterationController, k: nat)
    ensures
        c.spec_answers(k).len() == k,
    decreases k,
{
    if k > 0 {
        lemma_answers_len(c.spec_step().1, (k - 1) as nat);
    }
}

proof fn lemma_unbounded_from(c: IterationController, k: nat, i: int)
    requires
        c.policy is Unbounded,
        0 <= i < k,
    ensures
        c.spec_answers(k)[i],
    decreases k,
{
    lemma_answers_len(c.spec_step().1, (k - 1) as nat);
    if i > 0 {
        lemma_unbounded_from(c.spec_step().1, (k - 1) as nat, i - 1);
    }
}

/// An `Unbounded` controller answers `true` on every call to
/// `should_run_next`, whatever its current cycle count.
pub proof fn lemma_unbounded_always_runs(c: IterationController, k: nat)
    requires
        c.policy is Unbounded,
    ensures
        forall|i: int| 0 <= i < k ==> c.spec_answers(k)[i],
{
    assert forall|i: int| 0 <= i < k implies c.spec_answers(k)[i] by {
        lemma_unbounded_from(c, k, i);
    }
}

} // verus!
