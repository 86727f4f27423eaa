//! One session's lifecycle: open the remote session, run the interaction,
//! and guarantee teardown exactly once per opened session, on success and
//! failure alike. Any interaction failure is labeled with the session
//! identifier before it reaches the orchestrator.

use vstd::prelude::*;

verus! {

/// Where one session stands in its lifecycle.
#[derive(Clone, Copy, Debug, PartialEq, Eq, Structural)]
pub enum DriverPhase {
    Idle,
    Open,
    NeedsTeardown,
    Finished,
}

/// A failure labeled with the session it came from.
pub open spec fn labeled_failure_spec(session_id: Seq<char>, reason: Seq<char>) -> Seq<char> {
    session_id + " failed due to "@ + reason
}

/// The identification metadata attached to every session's capabilities.
pub fn capability_metadata() -> (r: Vec<(&'static str, &'static str)>)
    ensures
        r@.len() == 2,
        r@[0].0@ == "name"@ && r@[0].1@ == "test-name"@,
        r@[1].0@ == "build"@ && r@[1].1@ == "test-build"@,
{
    let mut pairs: Vec<(&'static str, &'static str)> = Vec::new();
    pairs.push(("name", "test-name"));
    pairs.push(("build", "test-build"));
    pairs
}

/// One session's lifecycle record. The remote session itself lives outside;
/// this tracks what is owed to it, above all the single teardown call.
pub struct SessionDriver {
    pub phase: DriverPhase,
    pub session_id: Option<String>,
    pub failure: Option<String>,
    pub close_calls: u64,
}

impl SessionDriver {
    /// The lifecycle invariant: no teardown before the interaction is over,
    /// and, once finished, exactly one teardown per opened session and none
    /// for a session that never opened.
    pub open spec fn wf(self) -> bool {
        match self.phase {
            DriverPhase::Idle => self.close_calls == 0 && self.session_id is None
                && self.failure is None,
            DriverPhase::Open => self.close_calls == 0 && self.session_id is Some,
            DriverPhase::NeedsTeardown => self.close_calls == 0 && self.session_id is Some,
            DriverPhase::Finished => (self.session_id is Some ==> self.close_calls == 1) && (
            self.session_id is None ==> self.close_calls == 0),
        }
    }

    /// A driver that has not asked for a session yet.
    pub fn new() -> (r: Self)
        ensures
            r.wf(),
            r.phase is Idle,
            r.close_calls == 0,
    {
        SessionDriver { phase: DriverPhase::Idle, session_id: None, failure: None, close_calls: 0 }
    }

    /// Opening the remote session failed: the task ends here, with the
    /// transport error as the reason. No teardown is owed, since no session
    /// exists.
    pub fn on_open_failed(&mut self, error: String) -> (r: String)
        requires
            old(self).wf(),
            old(self).phase is Idle,
        ensures
            final(self).wf(),
            final(self).phase is Finished,
            final(self).session_id is None,
            final(self).close_calls == 0,
            r@ == error@,
    {
        self.phase = DriverPhase::Finished;
        error
    }

    /// The remote session opened; its identifier labels any later failure.
    pub fn on_opened(&mut self, session_id: String)
        requires
            old(self).wf(),
            old(self).phase is Idle,
        ensures
            final(self).wf(),
            final(self).phase is Open,
            final(self).session_id matches Some(id) && id@ == session_id@,
            final(self).failure is None,
            final(self).close_calls == 0,
    {
        self.phase = DriverPhase::Open;
        self.session_id = Some(session_id);
    }

    /// The interaction reached a terminal outcome — success when `failure`
    /// is `None`. On either path the session still has to be torn down.
    pub fn on_interaction_done(&mut self, failure: Option<String>)
        requires
            old(self).wf(),
            old(self).phase is Open,
        ensures
            final(self).wf(),
            final(self).phase is NeedsTeardown,
            final(self).session_id == old(self).session_id,
            final(self).close_calls == 0,
            final(self).failure == failure,
    {
        self.phase = DriverPhase::NeedsTeardown;
        self.failure = failure;
    }

    /// The one session-close call was issued. Its own failure is swallowed
    /// (never overriding the interaction's verdict), and it can never be
    /// issued a second time: afterwards the driver is finished.
    pub fn on_teardown(&mut self)
        requires
            old(self).wf(),
            old(self).phase is NeedsTeardown,
        ensures
            final(self).wf(),
            final(self).phase is Finished,
            final(self).session_id == old(self).session_id,
            final(self).failure == old(self).failure,
            final(self).close_calls == old(self).close_calls + 1,
            final(self).close_calls == 1,
    {
        self.phase = DriverPhase::Finished;
        self.close_calls = self.close_calls + 1;
    }

    /// The task's outcome once the session is torn down: success, or the
    /// interaction's failure labeled with the session identifier.
    pub fn outcome(&self) -> (r: Result<(), String>)
        requires
            self.wf(),
            self.phase is Finished,
            self.session_id is Some,
        ensures
            r is Ok <==> self.failure is None,
            r matches Err(e) ==> (self.failure matches Some(f) && e@ == labeled_failure_spec(
                self.session_id->0@,
                f@,
            )),
    {
        match &self.failure {
            None => Ok(()),
            Some(reason) => {
                let id = match &self.session_id {
                    Some(id) => id,
                    None => {
                        proof {
                            assert(false);
                        }
                        unreached()
                    },
                };
                let mut label = id.clone();
                label.append(" failed due to ");
                label.append(reason.as_str());
                Err(label)
            },
        }
    }
}

/// Teardown is owed exactly once per successfully opened session, on success
/// and failure paths alike, and never for a session that failed to open: a
/// finished driver has issued exactly one close call if and only if its
/// session opened.
pub proof fn lemma_teardown_exactly_once(driver: SessionDriver)
    requires
        driver.wf(),
        driver.phase is Finished,
    ensures
        driver.session_id is Some ==> driver.close_calls == 1,
        driver.session_id is None ==> driver.close_calls == 0,
{
}

} // verus!
