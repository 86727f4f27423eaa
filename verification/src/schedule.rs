//! Launch scheduling and timing: the staggered start delay of each task and
//! the per-session timeout test.

use vstd::prelude::*;
use crate::text::{dec_digits, u64_to_dec};

verus! {

/// Milliseconds added to the launch delay for each later task index.
pub const STAGGER_INCREMENT_MS: u64 = 25;

/// The launch delay of the task with the given index: a scheduling offset
/// only, not a concurrency limit.
pub open spec fn stagger_delay_spec(index: nat) -> nat {
    (index * STAGGER_INCREMENT_MS) as nat
}

/// Compute the launch delay of task `index` in milliseconds.
pub fn stagger_delay_ms(index: u64) -> (r: u64)
    requires
        index <= u64::MAX / STAGGER_INCREMENT_MS,
    ensures
        r == stagger_delay_spec(index as nat),
{
    proof {
        assert(index * STAGGER_INCREMENT_MS <= (u64::MAX / STAGGER_INCREMENT_MS)
            * STAGGER_INCREMENT_MS) by (nonlinear_arith)
            requires
                index <= u64::MAX / STAGGER_INCREMENT_MS,
        ;
    }
    index * STAGGER_INCREMENT_MS
}

/// Stagger monotonicity: each task's scheduled start lies a full increment
/// after its predecessor's.
pub proof fn lemma_stagger_monotone(index: nat)
    ensures
        stagger_delay_spec(index + 1) == stagger_delay_spec(index) + STAGGER_INCREMENT_MS,
        stagger_delay_spec(index + 1) >= stagger_delay_spec(index) + STAGGER_INCREMENT_MS,
{
    assert((index + 1) * STAGGER_INCREMENT_MS == index * STAGGER_INCREMENT_MS
        + STAGGER_INCREMENT_MS) by (nonlinear_arith);
}

/// Whether a task's total execution time exceeds the per-session timeout.
/// Exceeding it is a failure for that task alone.
pub fn exceeded_timeout(elapsed_ms: u64, timeout_secs: u64) -> (r: bool)
    ensures
        r == (elapsed_ms > timeout_secs * 1000),
{
    (elapsed_ms as u128) > (timeout_secs as u128) * 1000
}

/// The failure reason of a task that ran past its timeout.
pub open spec fn timeout_reason_spec(timeout_secs: nat) -> Seq<char> {
    "session timed out after "@ + dec_digits(timeout_secs) + "s"@
}

/// Render the failure reason of a timed-out task.
pub fn timeout_reason(timeout_secs: u64) -> (r: String)
    ensures
        r@ == timeout_reason_spec(timeout_secs as nat),
{
    let mut reason = "session timed out after ".to_owned();
    let secs = u64_to_dec(timeout_secs);
    reason.append(secs.as_str());
    reason.append("s");
    proof {
        assert(reason@ =~= timeout_reason_spec(timeout_secs as nat));
    }
    reason
}

} // verus!
