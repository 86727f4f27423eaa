//! Result aggregation: the failure tally the tasks report into, the immutable
//! run summary, the per-outcome report lines, and the exit code contract.

use vstd::prelude::*;
use crate::text::{dec_digits, u64_to_dec};
use crate::remote::{format_duration_ms, human_duration_of};

verus! {

/// How many of the recorded outcomes are failures.
pub open spec fn failures_of(outcomes: Seq<bool>) -> nat
    decreases outcomes.len(),
{
    if outcomes.len() == 0 {
        0
    } else {
        failures_of(outcomes.drop_last()) + (if outcomes.last() {
            0nat
        } else {
            1nat
        })
    }
}

/// How many of the recorded outcomes are successes.
pub open spec fn successes_of(outcomes: Seq<bool>) -> nat
    decreases outcomes.len(),
{
    if outcomes.len() == 0 {
        0
    } else {
        successes_of(outcomes.drop_last()) + (if outcomes.last() {
            1nat
        } else {
            0nat
        })
    }
}

/// Every task is accounted for: over any sequence of terminal outcomes,
/// successes and failures together are exactly the number of outcomes.
pub proof fn lemma_outcome_accounting(outcomes: Seq<bool>)
    ensures
        successes_of(outcomes) + failures_of(outcomes) == outcomes.len(),
    decreases outcomes.len(),
{
    if outcomes.len() > 0 {
        lemma_outcome_accounting(outcomes.drop_last());
    }
}

/// The aggregate of a finished run. Immutable once computed; consumed only
/// for the final report line and the process exit code.
pub struct RunSummary {
    pub total: u64,
    pub failed: u64,
}

/// The final report line: `"<succeeded> / <total> succeeded"`.
pub open spec fn summary_line_spec(succeeded: nat, total: nat) -> Seq<char> {
    dec_digits(succeeded) + " / "@ + dec_digits(total) + " succeeded"@
}

impl RunSummary {
    /// No more tasks failed than ran.
    pub open spec fn wf(self) -> bool {
        self.failed <= self.total
    }

    pub open spec fn spec_succeeded(self) -> int {
        self.total - self.failed
    }

    /// How many tasks succeeded: the derived `total - failed`.
    pub fn succeeded(&self) -> (r: u64)
        requires
            self.wf(),
        ensures
            r == self.spec_succeeded(),
    {
        self.total - self.failed
    }

    /// The process result: nonzero exactly when one or more tasks failed.
    pub fn exit_code(&self) -> (r: i32)
        ensures
            self.failed > 0 ==> r == 1,
            self.failed == 0 ==> r == 0,
    {
        if self.failed > 0 {
            1
        } else {
            0
        }
    }

    /// Render the final report line.
    pub fn summary_line(&self) -> (r: String)
        requires
            self.wf(),
        ensures
            r@ == summary_line_spec(self.spec_succeeded() as nat, self.total as nat),
    {
        let mut line = u64_to_dec(self.total - self.failed);
        line.append(" / ");
        let total = u64_to_dec(self.total);
        line.append(total.as_str());
        line.append(" succeeded");
        proof {
            assert(line@ =~= summary_line_spec(self.spec_succeeded() as nat, self.total as nat));
        }
        line
    }
}

/// The shared failure tally: incremented exactly once per failing task, never
/// decremented, and read only after every task has reported.
pub struct Tally {
    pub total: u64,
    pub completed: u64,
    pub failed: u64,
    pub history: Ghost<Seq<bool>>,
}

impl Tally {
    /// The counters agree with the recorded history: one entry per terminal
    /// outcome, and `failed` counts exactly the failures among them.
    pub open spec fn wf(self) -> bool {
        &&& self.completed == self.history@.len()
        &&& self.completed <= self.total
        &&& self.failed == failures_of(self.history@)
    }

    /// Start a run of `total` tasks with nothing recorded yet.
    pub fn new(total: u64) -> (r: Tally)
        ensures
            r.wf(),
            r.total == total,
            r.completed == 0,
            r.history@ == Seq::<bool>::empty(),
    {
        Tally { total, completed: 0, failed: 0, history: Ghost(Seq::empty()) }
    }

    /// Record one terminal outcome. The failure count increases exactly when
    /// the outcome is a failure, and by exactly one.
    pub fn record(&mut self, success: bool)
        requires
            old(self).wf(),
            old(self).completed < old(self).total,
        ensures
            final(self).wf(),
            final(self).total == old(self).total,
            final(self).history@ == old(self).history@.push(success),
            final(self).completed == old(self).completed + 1,
            final(self).failed == old(self).failed + (if success {
                0int
            } else {
                1int
            }),
    {
        proof {
            lemma_outcome_accounting(self.history@);
            assert(old(self).history@.push(success).drop_last() =~= old(self).history@);
        }
        self.completed = self.completed + 1;
        if !success {
            self.failed = self.failed + 1;
        }
        self.history = Ghost(self.history@.push(success));
    }

    /// Whether every task has reported a terminal outcome.
    pub fn is_complete(&self) -> (r: bool)
        ensures
            r == (self.completed == self.total),
    {
        self.completed == self.total
    }

    /// Aggregate into the immutable summary, once every task has reported:
    /// exactly `total` outcomes were recorded, and the summary's succeeded
    /// and failed counts add up to that total.
    pub fn summary(&self) -> (r: RunSummary)
        requires
            self.wf(),
            self.completed == self.total,
        ensures
            r.wf(),
            r.total == self.total,
            r.total == self.history@.len(),
            r.failed == failures_of(self.history@),
            r.spec_succeeded() == successes_of(self.history@),
            r.spec_succeeded() + r.failed == r.total,
    {
        proof {
            lemma_outcome_accounting(self.history@);
        }
        RunSummary { total: self.total, failed: self.failed }
    }
}

/// The report line of a task that succeeded after the given duration.
pub open spec fn success_report_spec(index: nat, duration_ms: u64) -> Seq<char> {
    "Test #"@ + dec_digits(index) + " finished in "@ + human_duration_of(duration_ms) + "."@
}

/// Render the one-line report of a successful task.
pub fn success_report_line(index: u64, duration_ms: u64) -> (r: String)
    ensures
        r@ == success_report_spec(index as nat, duration_ms),
{
    let mut line = "Test #".to_owned();
    let index_text = u64_to_dec(index);
    line.append(index_text.as_str());
    line.append(" finished in ");
    let duration_text = format_duration_ms(duration_ms);
    line.append(duration_text.as_str());
    line.append(".");
    proof {
        assert(line@ =~= success_report_spec(index as nat, duration_ms));
    }
    line
}

/// The report line of a task that failed for the given reason.
pub open spec fn failure_report_spec(index: nat, reason: Seq<char>) -> Seq<char> {
    "Test #"@ + dec_digits(index) + " failed: "@ + reason
}

/// Render the one-line report of a failed task.
pub fn failure_report_line(index: u64, reason: &str) -> (r: String)
    ensures
        r@ == failure_report_spec(index as nat, reason@),
{
    let mut line = "Test #".to_owned();
    let index_text = u64_to_dec(index);
    line.append(index_text.as_str());
    line.append(" failed: ");
    line.append(reason);
    proof {
        assert(line@ =~= failure_report_spec(index as nat, reason@));
    }
    line
}

} // verus!
