//! Readiness polling of the backend's health endpoint.
//!
//! The poll loop itself (HTTP request, sleep) is driven by the caller; this
//! module decides, after each probe, whether the backend is ready, whether to
//! wait and probe again, or whether the attempt budget is spent.
use vstd::prelude::*;

verus! {

/// Number of health probes made before the backend is declared unresponsive.
pub const MAX_ATTEMPTS: u32 = 30;

/// Seconds waited after each failed probe.
pub const POLL_INTERVAL_SECS: u64 = 1;

/// What the poll loop does after a probe.
#[derive(Debug, Clone, Copy, PartialEq, Eq, Structural)]
pub enum PollStep {
    /// The endpoint answered with success: the backend is ready.
    Ready,
    /// The probe failed: wait one interval, then probe again.
    SleepThenProbe,
    /// The probe failed and the budget is spent: wait one interval, then give up.
    SleepThenFail,
}

/// True when one of the first `MAX_ATTEMPTS` probes succeeded.
pub open spec fn becomes_ready(probes: Seq<bool>) -> bool {
    exists|i: int| 0 <= i < probes.len() && i < MAX_ATTEMPTS && #[trigger] probes[i]
}

/// The verdict that a sequence of probe results leads to: `Some(true)` when
/// the backend became ready, `Some(false)` when the budget ran out first, and
/// `None` while neither has happened.
pub open spec fn wait_result(probes: Seq<bool>) -> Option<bool> {
    if becomes_ready(probes) {
        Some(true)
    } else if probes.len() >= MAX_ATTEMPTS {
        Some(false)
    } else {
        None
    }
}

/// The step that follows the last probe of `probes`.
pub open spec fn step_after(probes: Seq<bool>) -> PollStep {
    match wait_result(probes) {
        Some(true) => PollStep::Ready,
        Some(false) => PollStep::SleepThenFail,
        None => PollStep::SleepThenProbe,
    }
}

/// One run of readiness polling.
pub struct ReadinessPoll {
    attempts: u32,
    finished: bool,
    history: Ghost<Seq<bool>>,
}

impl ReadinessPoll {
    /// The results of the probes recorded so far, oldest first.
    pub closed spec fn probes(&self) -> Seq<bool> {
        self.history@
    }

    /// True while another probe is expected.
    pub closed spec fn in_progress(&self) -> bool {
        !self.finished
    }

    pub closed spec fn wf(&self) -> bool {
        &&& self.attempts as nat == self.history@.len()
        &&& self.attempts <= MAX_ATTEMPTS
        &&& self.finished <==> wait_result(self.history@) is Some
    }

    /// A poll with no probe made yet.
    pub fn new() -> (r: Self)
        ensures
            r.wf(),
            r.probes() == Seq::<bool>::empty(),
            r.in_progress(),
    {
        ReadinessPoll { attempts: 0, finished: false, history: Ghost(Seq::empty()) }
    }

    /// Number of probes made so far.
    pub fn attempts(&self) -> (n: u32)
        requires
            self.wf(),
        ensures
            n as nat == self.probes().len(),
    {
        self.attempts
    }

    /// True once the poll has reached a verdict.
    pub fn is_finished(&self) -> (b: bool)
        requires
            self.wf(),
        ensures
            b == !self.in_progress(),
            b <==> wait_result(self.probes()) is Some,
    {
        self.finished
    }

    /// Records the result of one probe and says what the loop does next.
    pub fn record_probe(&mut self, healthy: bool) -> (step: PollStep)
        requires
            old(self).wf(),
            old(self).in_progress(),
        ensures
            final(self).wf(),
            final(self).probes() == old(self).probes().push(healthy),
            step == step_after(final(self).probes()),
            final(self).in_progress() <==> step == PollStep::SleepThenProbe,
    {
        let ghost before = self.history@;
        let ghost after = before.push(healthy);
        assert(!becomes_ready(before));
        assert(before.len() < MAX_ATTEMPTS);
        self.history = Ghost(after);
        self.attempts = self.attempts + 1;
        if healthy {
            assert(after[before.len() as int]);
            self.finished = true;
            PollStep::Ready
        } else {
            assert(!becomes_ready(after)) by {
                assert forall|i: int| 0 <= i < after.len() && i < MAX_ATTEMPTS implies !#[trigger] after[i] by {
                    if i < before.len() {
                        assert(after[i] == before[i]);
                    }
                }
            }
            if self.attempts < MAX_ATTEMPTS {
                PollStep::SleepThenProbe
            } else {
                self.finished = true;
                PollStep::SleepThenFail
            }
        }
    }
}

/// Against an endpoint that never answers with success, the poll reaches no
/// verdict before `MAX_ATTEMPTS` probes, and gives up exactly at that many.
pub proof fn lemma_unresponsive_times_out_at_budget(probes: Seq<bool>)
    requires
        forall|i: int| 0 <= i < probes.len() ==> !#[trigger] probes[i],
    ensures
        forall|k: int| 0 <= k < MAX_ATTEMPTS && k <= probes.len() ==> #[trigger] wait_result(
            probes.take(k),
        ) is None,
        probes.len() >= MAX_ATTEMPTS ==> wait_result(probes.take(MAX_ATTEMPTS as int)) == Some(
            false,
        ),
{
    assert forall|k: int| 0 <= k <= probes.len() implies !becomes_ready(#[trigger] probes.take(k)) by {
        let t = probes.take(k);
        assert forall|i: int| 0 <= i < t.len() implies !#[trigger] t[i] by {
            assert(t[i] == probes[i]);
        }
    }
    assert forall|k: int| 0 <= k < MAX_ATTEMPTS && k <= probes.len() implies #[trigger] wait_result(
        probes.take(k),
    ) is None by {
        assert(!becomes_ready(probes.take(k)));
    }
    if probes.len() >= MAX_ATTEMPTS {
        assert(!becomes_ready(probes.take(MAX_ATTEMPTS as int)));
    }
}

/// Probes that fail a number of times below the budget and then succeed lead
/// to readiness.
pub proof fn lemma_late_success_is_ready(failures: nat)
    requires
        failures < MAX_ATTEMPTS,
    ensures
        wait_result(Seq::new(failures, |i: int| false).push(true)) == Some(true),
{
    let s = Seq::new(failures, |i: int| false).push(true);
    assert(s[failures as int]);
}

} // verus!
