//! Polled locate: a bounded retry loop around the find call, for pages whose
//! content is rendered asynchronously after the initial load. The poll is a
//! pure function of its interval and timeout, not driver-wide state.

use vstd::prelude::*;

verus! {

/// How long to wait between two find attempts.
pub const POLL_INTERVAL_MS: u64 = 500;

/// How long the poll may keep retrying before "element not found".
pub const POLL_TIMEOUT_MS: u64 = 20000;

/// What a find attempt's result means for the poll.
#[derive(Clone, Copy, Debug, PartialEq, Eq, Structural)]
pub enum PollVerdict {
    Found,
    RetryAfterInterval,
    GiveUp,
}

/// The terminal failure reason of a poll that ran out of time.
pub fn not_found_reason() -> (r: &'static str)
    ensures
        r@ == "element not found"@,
{
    "element not found"
}

/// The state of one bounded retry loop: attempts are made at offsets
/// `0, interval, 2 * interval, ...`, strictly before the timeout.
pub struct PollSchedule {
    pub interval_ms: u64,
    pub timeout_ms: u64,
    pub waited_ms: u64,
}

impl PollSchedule {
    /// The next attempt still lies before the timeout.
    pub open spec fn wf(self) -> bool {
        0 < self.interval_ms && self.waited_ms < self.timeout_ms
    }

    /// A fresh poll: the first attempt happens immediately.
    pub fn new(interval_ms: u64, timeout_ms: u64) -> (r: Self)
        requires
            0 < interval_ms,
            0 < timeout_ms,
        ensures
            r.wf(),
            r.interval_ms == interval_ms,
            r.timeout_ms == timeout_ms,
            r.waited_ms == 0,
    {
        PollSchedule { interval_ms, timeout_ms, waited_ms: 0 }
    }

    /// A poll with the fixed interval and timeout the interaction uses.
    pub fn standard() -> (r: Self)
        ensures
            r.wf(),
            r.interval_ms == POLL_INTERVAL_MS,
            r.timeout_ms == POLL_TIMEOUT_MS,
            r.waited_ms == 0,
    {
        Self::new(POLL_INTERVAL_MS, POLL_TIMEOUT_MS)
    }

    /// Consume one find attempt's result: found ends the poll; otherwise the
    /// poll retries after its interval, unless the next attempt would start
    /// at or past the timeout, which is "element not found".
    pub fn on_attempt(&mut self, found: bool) -> (r: PollVerdict)
        requires
            old(self).wf(),
        ensures
            final(self).wf(),
            final(self).interval_ms == old(self).interval_ms,
            final(self).timeout_ms == old(self).timeout_ms,
            found ==> r is Found && final(self).waited_ms == old(self).waited_ms,
            !found && old(self).waited_ms + old(self).interval_ms >= old(self).timeout_ms ==> (
            r is GiveUp && final(self).waited_ms == old(self).waited_ms),
            !found && old(self).waited_ms + old(self).interval_ms < old(self).timeout_ms ==> (
            r is RetryAfterInterval && final(self).waited_ms == old(self).waited_ms + old(
                self,
            ).interval_ms),
    {
        if found {
            PollVerdict::Found
        } else if self.interval_ms >= self.timeout_ms - self.waited_ms {
            PollVerdict::GiveUp
        } else {
            self.waited_ms = self.waited_ms + self.interval_ms;
            PollVerdict::RetryAfterInterval
        }
    }
}

/// Whether a poll that has already waited `waited` succeeds when the element
/// first appears on attempt `found_at` (zero-based): the run of `on_attempt`
/// over `found_at` not-found results and then one found result.
pub open spec fn poll_run(waited: nat, interval: nat, timeout: nat, found_at: nat) -> bool
    decreases found_at,
{
    if found_at == 0 {
        true
    } else if waited + interval >= timeout {
        false
    } else {
        poll_run(waited + interval, interval, timeout, (found_at - 1) as nat)
    }
}

proof fn lemma_poll_run_characterization(waited: nat, interval: nat, timeout: nat, found_at: nat)
    requires
        0 < interval,
        waited < timeout,
    ensures
        poll_run(waited, interval, timeout, found_at) <==> waited + found_at * interval < timeout,
    decreases found_at,
{
    if found_at == 0 {
        assert(found_at * interval == 0);
    } else if waited + interval >= timeout {
        assert(found_at * interval >= interval) by (nonlinear_arith)
            requires
                found_at >= 1,
                0 < interval,
        ;
    } else {
        lemma_poll_run_characterization(waited + interval, interval, timeout, (found_at - 1) as nat);
        assert((found_at - 1) * interval + interval == found_at * interval) by (nonlinear_arith);
    }
}

/// Polled locate law: with the element appearing on attempt `found_at`, the
/// poll succeeds exactly when `found_at * interval` is still short of the
/// timeout, and otherwise fails.
pub proof fn lemma_polled_locate(interval: nat, timeout: nat, found_at: nat)
    requires
        0 < interval,
        0 < timeout,
    ensures
        poll_run(0, interval, timeout, found_at) <==> found_at * interval < timeout,
{
    lemma_poll_run_characterization(0, interval, timeout, found_at);
}

} // verus!
