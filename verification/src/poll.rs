//! Polling a run until it reaches a terminal status, within the wait limit.

use vstd::prelude::*;

use crate::error::Error;
use crate::run::RunHandle;
use crate::text::{append, same_text};
use crate::time::TimeSpan;

verus! {

/// The run statuses that mean the run ended without success.
pub open spec fn is_failed_status(s: Seq<char>) -> bool {
    s == "FAILED"@ || s == "ABORTED"@ || s == "TIMED-OUT"@ || s == "TIMED_OUT"@
}

/// What to do after a poll of the run's status.
pub enum PollStep {
    /// The run succeeded.
    Succeeded,
    /// The run ended without success (`Error::RunFailed`).
    Failed(Error),
    /// The wait limit is used up (`Error::Timeout`).
    TimedOut(Error),
    /// Sleep this long, then poll again.
    Sleep(TimeSpan),
}

/// The kinds of step a poll can lead to.
pub enum PollKind {
    /// The run succeeded.
    Succeeded,
    /// The run ended without success.
    Failed,
    /// The wait limit is used up.
    TimedOut,
    /// Poll again after this many nanoseconds.
    Sleep(nat),
}

/// The kind of step after a poll reported `status`, `elapsed` nanoseconds
/// after polling began, under the wait limit `wait` and the polling interval
/// `every`.
pub open spec fn poll_kind(wait: nat, every: nat, status: Seq<char>, elapsed: nat) -> PollKind {
    if status == "SUCCEEDED"@ {
        PollKind::Succeeded
    } else if is_failed_status(status) {
        PollKind::Failed
    } else if wait <= elapsed {
        PollKind::TimedOut
    } else if wait - elapsed <= every {
        PollKind::Sleep((wait - elapsed) as nat)
    } else {
        PollKind::Sleep(every)
    }
}

/// The kind of a step that `poll_step` gives.
pub open spec fn poll_step_kind(r: &PollStep) -> PollKind {
    match r {
        PollStep::Succeeded => PollKind::Succeeded,
        PollStep::Failed(_) => PollKind::Failed,
        PollStep::TimedOut(_) => PollKind::TimedOut,
        PollStep::Sleep(d) => PollKind::Sleep(d@),
    }
}

/// A poll that ends the wait: a terminal status, or the wait limit used up.
pub open spec fn decides_poll(wait: nat, poll: (Seq<char>, nat)) -> bool {
    poll.0 == "SUCCEEDED"@ || is_failed_status(poll.0) || wait <= poll.1
}

/// Where a wait ends when its polls report `polls` in turn (each a status
/// and the time elapsed when it came): the index of the last poll made, and
/// the kind of step it leads to.
pub open spec fn poll_end(wait: nat, every: nat, polls: Seq<(Seq<char>, nat)>) -> (nat, PollKind)
    decreases polls.len(),
{
    if polls.len() == 0 {
        (0, PollKind::TimedOut)
    } else {
        let k = poll_kind(wait, every, polls[0].0, polls[0].1);
        if k is Sleep {
            let (j, e) = poll_end(wait, every, polls.drop_first());
            (j + 1, e)
        } else {
            (0, k)
        }
    }
}

impl<'c> RunHandle<'c> {
    /// The URL that reports the run's status.
    pub fn status_url(&self) -> (r: String)
        ensures
            r@ == self.spec_client()@.api_base + "/actor-runs/"@ + self.spec_run_id(),
    {
        let mut u = crate::text::owned(self.client().get_api_base());
        append(&mut u, "/actor-runs/");
        append(&mut u, self.get_run_id());
        u
    }

    /// What to do after a poll reported `status`, `elapsed` after polling
    /// began. `SUCCEEDED` ends the wait; `FAILED`, `ABORTED`, `TIMED-OUT` and
    /// `TIMED_OUT` end it with `RunFailed`; any other status means the run is
    /// still going: once the wait limit is used up the wait ends with
    /// `Timeout`, otherwise the next poll comes after the polling interval,
    /// or sooner if the limit comes first.
    pub fn poll_step(&self, status: &str, elapsed: TimeSpan) -> (r: PollStep)
        ensures
            status@ == "SUCCEEDED"@ ==> r is Succeeded,
            status@ != "SUCCEEDED"@ && is_failed_status(status@) ==> (r matches PollStep::Failed(
                Error::RunFailed(s),
            ) && s@ == status@),
            status@ != "SUCCEEDED"@ && !is_failed_status(status@) ==> ({
                let wait = self.spec_client()@.max_wait;
                let every = self.spec_client()@.poll_interval;
                &&& wait@ <= elapsed@ ==> (r matches PollStep::TimedOut(Error::Timeout(w)) && w
                    == wait)
                &&& elapsed@ < wait@ ==> (r matches PollStep::Sleep(d) && d@ == if wait@
                    - elapsed@ <= every@ {
                    wait@ - elapsed@
                } else {
                    every@ as int
                })
            }),
            poll_step_kind(&r) == poll_kind(
                self.spec_client()@.max_wait@,
                self.spec_client()@.poll_interval@,
                status@,
                elapsed@,
            ),
            r matches PollStep::Sleep(d) ==> elapsed@ + d@ <= self.spec_client()@.max_wait@
                && d@ <= self.spec_client()@.poll_interval@,
    {
        if same_text(status, "SUCCEEDED") {
            return PollStep::Succeeded;
        }
        if same_text(status, "FAILED") || same_text(status, "ABORTED") || same_text(
            status,
            "TIMED-OUT",
        ) || same_text(status, "TIMED_OUT") {
            return PollStep::Failed(Error::RunFailed(crate::text::owned(status)));
        }
        let wait = self.client().get_max_wait();
        match wait.checked_sub(&elapsed) {
            Some(remaining) => {
                if remaining.is_zero() {
                    PollStep::TimedOut(Error::Timeout(wait))
                } else {
                    PollStep::Sleep(remaining.min(self.client().get_poll_interval()))
                }
            },
            None => PollStep::TimedOut(Error::Timeout(wait)),
        }
    }
}

} // verus!
