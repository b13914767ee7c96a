//! Sending a request with retries: which HTTP statuses are transient, how
//! long to back off before the next attempt, and what to do after each
//! attempt.

use vstd::prelude::*;

use crate::client::ApifyClient;

verus! {

/// The HTTP statuses that warrant a retry: 429 and the 5xx statuses of an
/// overloaded or failing gateway or server.
pub open spec fn is_transient(status: u16) -> bool {
    status == 429 || status == 500 || status == 502 || status == 503 || status == 504
}

/// A successful (2xx) HTTP status.
pub open spec fn is_success(status: u16) -> bool {
    200 <= status <= 299
}

/// `2` to the power `k`.
pub open spec fn pow2(k: nat) -> nat
    decreases k,
{
    if k == 0 {
        1
    } else {
        2 * pow2((k - 1) as nat)
    }
}

/// The pause before retry number `attempt + 1`, in milliseconds:
/// 200 ms doubled per attempt (at most six doublings), never more than 10 s.
pub open spec fn backoff_spec(attempt: nat) -> nat {
    let doublings = if attempt < 6 {
        attempt
    } else {
        6
    };
    let d = 200 * pow2(doublings);
    if d < 10_000 {
        d
    } else {
        10_000
    }
}

/// What one attempt to send a request came to.
#[derive(Debug, Clone, Copy, PartialEq, Eq, Structural)]
pub enum SendOutcome {
    /// The server answered with this HTTP status.
    Response(u16),
    /// No answer: the transport failed.
    TransportFailure,
}

/// What to do after an attempt.
#[derive(Debug, Clone, Copy, PartialEq, Eq, Structural)]
pub enum SendStep {
    /// The answer is a success: hand it on.
    Accept,
    /// Wait `delay_millis`, then make attempt number `next_attempt`.
    Retry { next_attempt: u32, delay_millis: u64 },
    /// Give up with this HTTP error status (the error keeps the body).
    FailStatus(u16),
    /// Give up with the transport error.
    FailTransport,
}

/// The decision after attempt number `attempt` (counted from 0) came to
/// `outcome`, when at most `max_retries` retries are allowed: a success is
/// accepted; a transient status or a transport failure is retried while
/// retries are left; anything else fails at once.
pub open spec fn send_step(max_retries: u32, attempt: u32, outcome: SendOutcome) -> SendStep {
    match outcome {
        SendOutcome::Response(s) => if is_success(s) {
            SendStep::Accept
        } else if is_transient(s) && attempt < max_retries {
            SendStep::Retry {
                next_attempt: (attempt + 1) as u32,
                delay_millis: backoff_spec(attempt as nat) as u64,
            }
        } else {
            SendStep::FailStatus(s)
        },
        SendOutcome::TransportFailure => if attempt < max_retries {
            SendStep::Retry {
                next_attempt: (attempt + 1) as u32,
                delay_millis: backoff_spec(attempt as nat) as u64,
            }
        } else {
            SendStep::FailTransport
        },
    }
}

/// How many attempts a request takes from attempt number `attempt` on,
/// when the attempts come to `outcomes` in turn (until they run out).
pub open spec fn attempts(max_retries: u32, attempt: u32, outcomes: Seq<SendOutcome>) -> nat
    decreases outcomes.len(),
{
    if outcomes.len() == 0 {
        0
    } else {
        1 + match send_step(max_retries, attempt, outcomes[0]) {
            SendStep::Retry { next_attempt, .. } => attempts(
                max_retries,
                next_attempt,
                outcomes.drop_first(),
            ),
            _ => 0,
        }
    }
}

/// An attempt outcome that ends the request whatever retries are left: a
/// success, or an HTTP error status that is not transient.
pub open spec fn decides_send(outcome: SendOutcome) -> bool {
    match outcome {
        SendOutcome::Response(s) => is_success(s) || !is_transient(s),
        SendOutcome::TransportFailure => false,
    }
}

/// The step that ends a request whose last attempt came to `outcome`.
pub open spec fn final_step(outcome: SendOutcome) -> SendStep {
    match outcome {
        SendOutcome::Response(s) => if is_success(s) {
            SendStep::Accept
        } else {
            SendStep::FailStatus(s)
        },
        SendOutcome::TransportFailure => SendStep::FailTransport,
    }
}

/// Where a request ends from attempt number `attempt` on, when its attempts
/// come to `outcomes` in turn (`outcomes[m]` for attempt `attempt + m`): the
/// number of the last attempt and the step that ends it.
pub open spec fn send_end(max_retries: u32, attempt: u32, outcomes: Seq<SendOutcome>) -> (
    u32,
    SendStep,
)
    decreases outcomes.len(),
{
    if outcomes.len() == 0 {
        (attempt, SendStep::FailTransport)
    } else {
        match send_step(max_retries, attempt, outcomes[0]) {
            SendStep::Retry { next_attempt, .. } => send_end(
                max_retries,
                next_attempt,
                outcomes.drop_first(),
            ),
            step => (attempt, step),
        }
    }
}

/// Whether an HTTP status warrants a retry.
pub fn is_transient_status(status: u16) -> (r: bool)
    ensures
        r == is_transient(status),
        r <==> (status == 429 || status == 500 || status == 502 || status == 503 || status
            == 504),
{
    status == 429 || status == 500 || status == 502 || status == 503 || status == 504
}

/// Exponential backoff in milliseconds: 200, 400, 800, ..., capped at 10 s.
pub fn backoff_millis(attempt: u32) -> (r: u64)
    ensures
        r as nat == backoff_spec(attempt as nat),
        r <= 10_000,
{
    let doublings: u32 = if attempt < 6 {
        attempt
    } else {
        6
    };
    let mut d: u64 = 200;
    let mut i: u32 = 0;
    while i < doublings
        invariant
            i <= doublings <= 6,
            d as nat == 200 * pow2(i as nat),
            d <= 200 * 64,
        decreases doublings - i,
    {
        assert(pow2((i + 1) as nat) == 2 * pow2(i as nat));
        assert(pow2(i as nat) <= 32) by {
            reveal_with_fuel(pow2, 7);
        }
        d = d * 2;
        i += 1;
    }
    if d < 10_000 {
        d
    } else {
        10_000
    }
}

impl ApifyClient {
    /// What to do after attempt number `attempt` (from 0) of a request came
    /// to `outcome`, under this client's retry limit.
    pub fn after_send(&self, attempt: u32, outcome: SendOutcome) -> (r: SendStep)
        ensures
            r == send_step(self@.max_retries, attempt, outcome),
            outcome is Response ==> ({
                let s = outcome->Response_0;
                &&& 200 <= s <= 299 ==> r == SendStep::Accept
                &&& !(200 <= s <= 299) && !(s == 429 || s == 500 || s == 502 || s == 503 || s
                    == 504) ==> r == SendStep::FailStatus(s)
                &&& (s == 429 || s == 500 || s == 502 || s == 503 || s == 504) && attempt
                    < self@.max_retries ==> (r matches SendStep::Retry { next_attempt, .. }
                    && next_attempt == attempt + 1)
            }),
    {
        let max = self.get_max_retries();
        match outcome {
            SendOutcome::Response(s) => {
                if 200 <= s && s <= 299 {
                    SendStep::Accept
                } else if is_transient_status(s) && attempt < max {
                    SendStep::Retry { next_attempt: attempt + 1, delay_millis: backoff_millis(attempt) }
                } else {
                    SendStep::FailStatus(s)
                }
            },
            SendOutcome::TransportFailure => {
                if attempt < max {
                    SendStep::Retry { next_attempt: attempt + 1, delay_millis: backoff_millis(attempt) }
                } else {
                    SendStep::FailTransport
                }
            },
        }
    }
}

} // verus!
