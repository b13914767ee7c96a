//! Properties of the library that span several calls.

use vstd::prelude::*;

use crate::client::{client_debug_text, ClientView};
use crate::pages::{MAX_PAGE, collected, dataset_page, download, items_left, kept_items, page_limit};
use crate::retry::{
    attempts, backoff_spec, decides_send, final_step, pow2, send_end, send_step, SendOutcome,
    SendStep,
};
use crate::run::{decides_run, next_key_index, rotation_end, submissions, submit_kind, RunInfo};
use crate::error::{rotates_key, Error};
use crate::validate::{dots_at, is_valid_actor_id};
use crate::poll::{decides_poll, is_failed_status, poll_end, poll_kind};

verus! {

/// `pow2` grows with its exponent.
proof fn lemma_pow2_monotone(a: nat, b: nat)
    requires
        a <= b,
    ensures
        pow2(a) <= pow2(b),
    decreases b,
{
    if a < b {
        lemma_pow2_monotone(a, (b - 1) as nat);
    }
}

/// The backoff starts at 200 ms, never shrinks from one attempt to the next,
/// and never exceeds 10 s.
pub proof fn backoff_grows_up_to_ten_seconds(a: nat, b: nat)
    requires
        a <= b,
    ensures
        backoff_spec(0) == 200,
        backoff_spec(a) <= backoff_spec(b),
        backoff_spec(b) <= 10_000,
{
    let da: nat = if a < 6 { a } else { 6 };
    let db: nat = if b < 6 { b } else { 6 };
    lemma_pow2_monotone(da, db);
}

/// Every 2xx answer, 200 included, is accepted at once, whatever the attempt
/// and the retry limit.
pub proof fn success_statuses_are_accepted(max_retries: u32, attempt: u32, status: u16)
    requires
        200 <= status <= 299,
    ensures
        send_step(max_retries, attempt, SendOutcome::Response(status)) == SendStep::Accept,
{
}

/// An HTTP error status is retried exactly when it is 429, 500, 502, 503 or
/// 504 and retries are left; any other error status (such as 402 for a key
/// out of credit, 404 or 501) fails the request at once with that status.
pub proof fn only_transient_statuses_are_retried(max_retries: u32, attempt: u32, status: u16)
    requires
        !(200 <= status <= 299),
    ensures
        (status == 429 || status == 500 || status == 502 || status == 503 || status == 504)
            && attempt < max_retries ==> send_step(
            max_retries,
            attempt,
            SendOutcome::Response(status),
        ) == (SendStep::Retry {
            next_attempt: (attempt + 1) as u32,
            delay_millis: backoff_spec(attempt as nat) as u64,
        }),
        !((status == 429 || status == 500 || status == 502 || status == 503 || status == 504)
            && attempt < max_retries) ==> send_step(
            max_retries,
            attempt,
            SendOutcome::Response(status),
        ) == SendStep::FailStatus(status),
{
}

/// A transport failure is retried exactly while retries are left.
pub proof fn transport_failures_are_retried_while_allowed(max_retries: u32, attempt: u32)
    ensures
        attempt < max_retries ==> send_step(max_retries, attempt, SendOutcome::TransportFailure)
            is Retry,
        attempt >= max_retries ==> send_step(max_retries, attempt, SendOutcome::TransportFailure)
            == SendStep::FailTransport,
{
}

/// A request is sent at most `max_retries + 1` times, whatever each attempt
/// comes to.
pub proof fn attempts_are_bounded(max_retries: u32, outcomes: Seq<SendOutcome>)
    ensures
        attempts(max_retries, 0, outcomes) <= max_retries + 1,
{
    lemma_attempts_from(max_retries, 0, outcomes);
}

proof fn lemma_attempts_from(max_retries: u32, attempt: u32, outcomes: Seq<SendOutcome>)
    requires
        attempt <= max_retries,
    ensures
        attempts(max_retries, attempt, outcomes) <= max_retries - attempt + 1,
    decreases outcomes.len(),
{
    if outcomes.len() > 0 {
        match send_step(max_retries, attempt, outcomes[0]) {
            SendStep::Retry { next_attempt, .. } => {
                lemma_attempts_from(max_retries, next_attempt, outcomes.drop_first());
            },
            _ => {},
        }
    }
}

/// A request ends at the first attempt that decides it (a success, or an
/// HTTP error status that is not transient), or at attempt `max_retries`
/// when none does before: that is, after `k + 1` sends. It ends accepting
/// the success, failing with the last HTTP status (a transient one when the
/// retries ran out), or failing with the transport error. Every attempt
/// before it waited the backoff for its number (`send_step`).
pub proof fn retries_end_at_first_deciding_attempt(max_retries: u32, outcomes: Seq<SendOutcome>)
    requires
        outcomes.len() > max_retries,
    ensures
        ({
            let (k, step) = send_end(max_retries, 0, outcomes);
            &&& k <= max_retries
            &&& attempts(max_retries, 0, outcomes) == k + 1
            &&& forall|i: int| 0 <= i < k ==> !decides_send(#[trigger] outcomes[i])
            &&& decides_send(outcomes[k as int]) || k == max_retries
            &&& step == final_step(outcomes[k as int])
        }),
{
    lemma_send_from(max_retries, 0, outcomes);
}

proof fn lemma_send_from(max_retries: u32, attempt: u32, outcomes: Seq<SendOutcome>)
    requires
        attempt <= max_retries,
        outcomes.len() > max_retries - attempt,
    ensures
        ({
            let (k, step) = send_end(max_retries, attempt, outcomes);
            &&& attempt <= k <= max_retries
            &&& attempts(max_retries, attempt, outcomes) == k - attempt + 1
            &&& forall|i: int| 0 <= i < k - attempt ==> !decides_send(#[trigger] outcomes[i])
            &&& decides_send(outcomes[k - attempt]) || k == max_retries
            &&& step == final_step(outcomes[k - attempt])
        }),
    decreases outcomes.len(),
{
    match send_step(max_retries, attempt, outcomes[0]) {
        SendStep::Retry { next_attempt, .. } => {
            let rest = outcomes.drop_first();
            lemma_send_from(max_retries, next_attempt, rest);
            let (k, _) = send_end(max_retries, next_attempt, rest);
            assert forall|i: int| 0 <= i < k - attempt implies !decides_send(#[trigger] outcomes[i]) by {
                if i > 0 {
                    assert(outcomes[i] == rest[i - 1]);
                }
            }
            assert(outcomes[k - attempt] == rest[k - next_attempt]);
        },
        _ => {},
    }
}

/// An HTTP error status moves the run on to the next key unless it is 400,
/// 404, 405 or 422 (a bad request, the same with every key): auth failures,
/// exhausted credit, rate limits and every 5xx server error rotate.
pub proof fn api_status_rotates_unless_bad_request(status: u16, body: String)
    ensures
        rotates_key(&Error::ApiStatus { status, body }) <==> !(status == 400 || status == 404
            || status == 405 || status == 422),
        500 <= status <= 599 ==> rotates_key(&Error::ApiStatus { status, body }),
        status == 401 || status == 402 || status == 403 || status == 429 ==> rotates_key(
            &Error::ApiStatus { status, body },
        ),
{
}

/// Every failure other than an HTTP error status may depend on the key, so
/// it rotates.
pub proof fn other_failures_rotate(e: Error)
    requires
        !(e is ApiStatus),
    ensures
        rotates_key(&e),
{
}

/// After submitting with key `i` of `n`, a key-dependent failure (any HTTP
/// error status but 400, 404, 405 and 422) moves on to key `i + 1` when
/// there is one.
pub proof fn key_failure_moves_to_next_key(n: nat, i: nat, status: u16, body: String)
    requires
        i + 1 < n,
        !(status == 400 || status == 404 || status == 405 || status == 422),
    ensures
        next_key_index(n, i, &Err(Error::ApiStatus { status, body })) == Some(i + 1),
{
}

/// Starting a run submits at most once per API key: keys are tried in
/// order, each at most once, whatever the submissions come to.
pub proof fn submissions_are_bounded_by_keys(n: nat, outcomes: Seq<Result<RunInfo, Error>>)
    requires
        n > 0,
    ensures
        submissions(n, 0, outcomes) <= n,
{
    lemma_submissions_from(n, 0, outcomes);
}

proof fn lemma_submissions_from(n: nat, i: nat, outcomes: Seq<Result<RunInfo, Error>>)
    requires
        i < n,
    ensures
        submissions(n, i, outcomes) <= n - i,
    decreases outcomes.len(),
{
    if outcomes.len() > 0 {
        match next_key_index(n, i, &outcomes[0]) {
            Some(j) => {
                lemma_submissions_from(n, j, outcomes.drop_first());
            },
            None => {},
        }
    }
}

/// A failure that is the same for every key (a bad request: 400, 404, 405
/// or 422) ends the run after that one submission, however many keys are
/// left.
pub proof fn request_error_is_not_rotated(
    n: nat,
    i: nat,
    e: Error,
    rest: Seq<Result<RunInfo, Error>>,
)
    requires
        !rotates_key(&e),
    ensures
        submissions(n, i, seq![Err(e)] + rest) == 1,
{
    assert((seq![Err(e)] + rest)[0] == Err::<RunInfo, Error>(e));
}

/// With a retry limit of 0 a request is sent exactly once, whatever it
/// comes to.
pub proof fn zero_retries_send_once(outcomes: Seq<SendOutcome>)
    requires
        outcomes.len() > 0,
    ensures
        attempts(0, 0, outcomes) == 1,
{
}

/// A run ends at the first key whose submission decides it: the run
/// started, or a failure that is the same for every key. No key after it is
/// submitted with; the keys before it all failed in a way that may depend on
/// the key. The run then starts with that key (`after_submit` gives a handle
/// holding it and the run's ids) or fails with that key's failure. When no
/// key decides, every key is tried and the run ends with `AllKeysFailed`
/// (`after_submit` gives it the last key's failure text).
pub proof fn rotation_ends_at_first_deciding_key(n: nat, outcomes: Seq<Result<RunInfo, Error>>)
    requires
        n > 0,
        outcomes.len() >= n,
    ensures
        ({
            let (j, k) = rotation_end(n, 0, outcomes);
            &&& j < n
            &&& submissions(n, 0, outcomes) == j + 1
            &&& forall|m: int| 0 <= m < j ==> !decides_run(#[trigger] &outcomes[m])
            &&& decides_run(&outcomes[j as int]) && outcomes[j as int] is Ok ==> k is Start
            &&& decides_run(&outcomes[j as int]) && outcomes[j as int] is Err ==> k is Surface
            &&& !decides_run(&outcomes[j as int]) ==> j == n - 1 && k is GiveUp
        }),
{
    lemma_rotation_from(n, 0, outcomes);
}

proof fn lemma_rotation_from(n: nat, i: nat, outcomes: Seq<Result<RunInfo, Error>>)
    requires
        i < n,
        outcomes.len() >= n - i,
    ensures
        ({
            let (j, k) = rotation_end(n, i, outcomes);
            &&& i <= j < n
            &&& submissions(n, i, outcomes) == j - i + 1
            &&& forall|m: int| 0 <= m < j - i ==> !decides_run(#[trigger] &outcomes[m])
            &&& decides_run(&outcomes[j - i]) && outcomes[j - i] is Ok ==> k is Start
            &&& decides_run(&outcomes[j - i]) && outcomes[j - i] is Err ==> k is Surface
            &&& !decides_run(&outcomes[j - i]) ==> j == n - 1 && k is GiveUp
        }),
    decreases outcomes.len(),
{
    let k = submit_kind(n, i, &outcomes[0]);
    if k is Next {
        let rest = outcomes.drop_first();
        lemma_rotation_from(n, i + 1, rest);
        let (j, _) = rotation_end(n, i + 1, rest);
        assert forall|m: int| 0 <= m < j - i implies !decides_run(#[trigger] &outcomes[m]) by {
            if m > 0 {
                assert(outcomes[m] == rest[m - 1]);
            }
        }
        assert(outcomes[j - i] == rest[j - (i + 1)]);
    }
}

/// A wait ends at the first poll that reports a terminal status or comes
/// once the wait limit is used up: no poll follows it, and every poll before
/// it reported a status of a run still going. It ends in success for
/// `SUCCEEDED`, with `RunFailed` for a failed status (`poll_step` gives it
/// the status), and otherwise with `Timeout`.
pub proof fn wait_ends_at_first_deciding_poll(wait: nat, every: nat, polls: Seq<(Seq<char>, nat)>)
    requires
        exists|i: int| 0 <= i < polls.len() && decides_poll(wait, #[trigger] polls[i]),
    ensures
        ({
            let (j, k) = poll_end(wait, every, polls);
            &&& j < polls.len()
            &&& forall|m: int| 0 <= m < j ==> !decides_poll(wait, #[trigger] polls[m])
            &&& decides_poll(wait, polls[j as int])
            &&& polls[j as int].0 == "SUCCEEDED"@ ==> k is Succeeded
            &&& polls[j as int].0 != "SUCCEEDED"@ && is_failed_status(polls[j as int].0)
                ==> k is Failed
            &&& polls[j as int].0 != "SUCCEEDED"@ && !is_failed_status(polls[j as int].0)
                ==> k is TimedOut
        }),
    decreases polls.len(),
{
    let k = poll_kind(wait, every, polls[0].0, polls[0].1);
    if k is Sleep {
        let rest = polls.drop_first();
        let i = choose|i: int| 0 <= i < polls.len() && decides_poll(wait, #[trigger] polls[i]);
        assert(i > 0);
        assert(rest[i - 1] == polls[i]);
        wait_ends_at_first_deciding_poll(wait, every, rest);
        let (j, _) = poll_end(wait, every, rest);
        assert forall|m: int| 0 <= m < j + 1 implies !decides_poll(wait, #[trigger] polls[m]) by {
            if m > 0 {
                assert(polls[m] == rest[m - 1]);
            }
        }
        assert(polls[j + 1 as int] == rest[j as int]);
    }
}

/// Every actor id made of ASCII letters and digits (`a`-`z`, `A`-`Z`,
/// `0`-`9`), possibly with `~`, `_`, `-` and `/` (the slug and numeric
/// forms), is valid as long as it is not empty.
pub proof fn alphanumeric_actor_ids_are_valid(s: Seq<char>)
    requires
        s.len() > 0,
        forall|i: int|
            0 <= i < s.len() ==> ('a' <= #[trigger] s[i] && s[i] <= 'z') || ('A' <= s[i] && s[i]
                <= 'Z') || ('0' <= s[i] && s[i] <= '9') || s[i] == '~' || s[i] == '_' || s[i]
                == '-' || s[i] == '/',
    ensures
        is_valid_actor_id(s),
{
    assert forall|i: int| !dots_at(s, i) by {
        if dots_at(s, i) {
            assert(s[i] == '.');
        }
    }
}

/// An actor id is refused when it is empty, holds `..`, or holds any
/// character other than an ASCII letter, an ASCII digit, `~`, `_`, `-`, `/`
/// or `.` (such as a space, `?`, `@`, `%` or a non-ASCII letter).
pub proof fn actor_ids_with_other_characters_are_invalid(s: Seq<char>, i: int)
    requires
        0 <= i < s.len(),
        !(('a' <= s[i] && s[i] <= 'z') || ('A' <= s[i] && s[i] <= 'Z') || ('0' <= s[i] && s[i]
            <= '9') || s[i] == '~' || s[i] == '_' || s[i] == '-' || s[i] == '/' || s[i] == '.'),
    ensures
        !is_valid_actor_id(s),
        !is_valid_actor_id(Seq::<char>::empty()),
{
}

/// An actor id holding two dots in a row is refused.
pub proof fn actor_ids_with_double_dot_are_invalid(s: Seq<char>, i: int)
    requires
        0 <= i && i + 1 < s.len(),
        s[i] == '.',
        s[i + 1] == '.',
    ensures
        !is_valid_actor_id(s),
{
    assert(dots_at(s, i));
}

/// The number of items a download may reach: the cap, or no bound.
pub open spec fn cap_bound(cap: Option<usize>, dataset_len: nat) -> nat {
    match cap {
        None => dataset_len,
        Some(c) => if dataset_len <= c {
            dataset_len
        } else {
            c as nat
        },
    }
}

/// A download that is not cut short by the wait limit, from a server that
/// answers every page from the same dataset `d`, gets the start of the
/// dataset in order, no item skipped or repeated: all of it, or with a cap
/// exactly its first `min(d.len(), cap)` items.
pub proof fn download_gets_dataset_up_to_cap<A>(cap: Option<usize>, d: Seq<A>)
    ensures
        download(cap, d, 0) == d.take(cap_bound(cap, d.len()) as int),
{
    lemma_download_from(cap, d, 0);
    assert(d.subrange(0, cap_bound(cap, d.len()) as int) =~= d.take(
        cap_bound(cap, d.len()) as int,
    ));
}

proof fn lemma_download_from<A>(cap: Option<usize>, d: Seq<A>, offset: nat)
    requires
        offset <= cap_bound(cap, d.len()),
    ensures
        download(cap, d, offset) =~= d.subrange(offset as int, cap_bound(cap, d.len()) as int),
    decreases d.len() - offset,
{
    let t = cap_bound(cap, d.len());
    let limit = page_limit(cap, offset);
    if limit > 0 {
        let p = dataset_page(d, offset, limit);
        if p.len() >= limit {
            lemma_download_from(cap, d, offset + limit);
            assert(d.subrange(offset as int, t as int) =~= p + d.subrange(
                (offset + limit) as int,
                t as int,
            ));
        }
    }
}

/// The page asked for is never larger than 1000 items, and is exactly 1000
/// whenever at least that many items may still be downloaded; otherwise it
/// is what is left of the cap (0 once the cap is reached).
pub proof fn pages_are_at_most_a_thousand(cap: Option<usize>, offset: nat)
    ensures
        page_limit(cap, offset) <= 1000,
        cap is None ==> page_limit(cap, offset) == 1000,
        cap is Some ==> ({
            let c = cap->0;
            &&& offset + 1000 <= c ==> page_limit(cap, offset) == 1000
            &&& offset <= c && c < offset + 1000 ==> page_limit(cap, offset) == c - offset
            &&& c <= offset ==> page_limit(cap, offset) == 0
        }),
{
}

/// The pages `pages`, joined in order up to and including the first one
/// shorter than `limit`.
pub open spec fn joined_until_short<A>(pages: Seq<Seq<A>>, limit: nat) -> Seq<A>
    decreases pages.len(),
{
    if pages.len() == 0 {
        Seq::empty()
    } else if pages[0].len() < limit {
        pages[0]
    } else {
        pages[0] + joined_until_short(pages.drop_first(), limit)
    }
}

/// Without a cap, a download keeps every item of every page it receives,
/// in order, each page asked for at the offset after all items so far, up
/// to and including the first page shorter than `MAX_PAGE`.
pub proof fn uncapped_download_keeps_every_page<A>(offset: nat, pages: Seq<Seq<A>>)
    requires
        forall|i: int| 0 <= i < pages.len() ==> (#[trigger] pages[i]).len() <= usize::MAX,
    ensures
        collected(None, offset, pages) == joined_until_short(pages, MAX_PAGE as nat),
    decreases pages.len(),
{
    if pages.len() > 0 {
        let p = pages[0];
        assert(p.take(p.len() as int) =~= p);
        let rest = pages.drop_first();
        assert forall|i: int| 0 <= i < rest.len() implies (#[trigger] rest[i]).len() <= usize::MAX by {
            assert(rest[i] == pages[i + 1]);
        }
        uncapped_download_keeps_every_page(offset + p.len(), rest);
    }
}

/// With a cap, a download never keeps more items than the cap, whatever the
/// server answers, even pages longer than were asked for.
pub proof fn download_never_exceeds_cap<A>(c: usize, pages: Seq<Seq<A>>)
    ensures
        collected(Some(c), 0, pages).len() <= c,
{
    lemma_collected_within(c, 0, pages);
}

proof fn lemma_collected_within<A>(c: usize, offset: nat, pages: Seq<Seq<A>>)
    ensures
        collected(Some(c), offset, pages).len() <= items_left(Some(c), offset),
    decreases pages.len(),
{
    let limit = page_limit(Some(c), offset);
    if limit > 0 && pages.len() > 0 {
        let p = pages[0];
        if p.len() >= limit {
            let kept = kept_items(Some(c), offset, p.len());
            lemma_collected_within(c, offset + kept, pages.drop_first());
        }
    }
}

/// The debug text of a client does not depend on what the API keys are,
/// only on how many there are.
pub proof fn debug_text_hides_keys(a: ClientView, b: ClientView)
    requires
        a.api_keys.len() == b.api_keys.len(),
        a.api_base == b.api_base,
        a.poll_interval == b.poll_interval,
        a.max_wait == b.max_wait,
        a.max_retries == b.max_retries,
        a.max_items == b.max_items,
    ensures
        client_debug_text(a) == client_debug_text(b),
{
}

} // verus!
