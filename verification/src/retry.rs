//! Retrying one record: classification of attempts, backoff delays, and the
//! state machine that decides after each attempt whether to try again.

use vstd::prelude::*;
use vstd::arithmetic::power2::pow2;
use vstd::arithmetic::power2::lemma_pow2_strictly_increases;
use vstd::arithmetic::power2::lemma2_to64;
use vstd::arithmetic::power2::lemma2_to64_rest;
use vstd::bits::lemma_u64_shl_is_mul;
use vstd::string::StringExecFns;
use crate::state::Outcome;

verus! {

/// Whether an HTTP status code stands for success: the codes 200 to 299.
pub fn is_success_status(code: u16) -> (ok: bool)
    ensures
        ok == (200 <= code < 300),
{
    code >= 200 && code < 300
}

/// Seconds to wait before the attempt with the given index: nothing before
/// the first, then one second, doubled with every further attempt.
pub open spec fn backoff(attempt: nat) -> nat {
    if attempt == 0 {
        0
    } else {
        pow2((attempt - 1) as nat)
    }
}

/// The delay before an attempt, as long as it fits 64 bits.
pub fn backoff_delay_secs(attempt: u32) -> (secs: u64)
    requires
        attempt <= 64,
    ensures
        secs == backoff(attempt as nat),
{
    if attempt == 0 {
        0
    } else {
        let shift: u64 = (attempt - 1) as u64;
        proof {
            lemma2_to64();
            lemma2_to64_rest();
            if shift < 63 {
                lemma_pow2_strictly_increases(shift as nat, 63);
            }
            lemma_u64_shl_is_mul(1, shift);
        }
        1u64 << shift
    }
}

/// What one download attempt came to, as the driver saw it.
#[derive(Clone, Debug)]
pub enum AttemptResult {
    /// Success status, body read in full and written to the output file.
    Saved,
    /// The server answered with a status outside the success range.
    BadStatus { status: String },
    /// The request did not get an answer.
    RequestFailed { detail: String },
    /// The status was fine but the body could not be read in full.
    BodyReadFailed { detail: String },
    /// The body was read but the output file could not be written.
    WriteFailed { detail: String },
}

impl AttemptResult {
    /// A failure after which another attempt may help.
    pub open spec fn is_recoverable(self) -> bool {
        self is BadStatus || self is RequestFailed || self is BodyReadFailed
    }

    /// The text that reports this result as a failure of the download of
    /// `url`; empty for a saved file.
    pub open spec fn reason(self, url: Seq<char>) -> Seq<char> {
        match self {
            AttemptResult::Saved => Seq::empty(),
            AttemptResult::BadStatus { status } => "HTTP "@ + status@ + ": "@ + url,
            AttemptResult::RequestFailed { detail } => "Request failed: "@ + detail@,
            AttemptResult::BodyReadFailed { detail } => "Failed to read response body: "@
                + detail@,
            AttemptResult::WriteFailed { detail } => detail@,
        }
    }

    /// The failure text of this result for the download of `url`.
    pub fn reason_text(&self, url: &str) -> (text: String)
        ensures
            text@ == self.reason(url@),
    {
        match self {
            AttemptResult::Saved => String::new(),
            AttemptResult::BadStatus { status } => {
                let mut text = String::from_str("HTTP ");
                text.append(status.as_str());
                text.append(": ");
                text.append(url);
                text
            },
            AttemptResult::RequestFailed { detail } => {
                let mut text = String::from_str("Request failed: ");
                text.append(detail.as_str());
                text
            },
            AttemptResult::BodyReadFailed { detail } => {
                let mut text = String::from_str("Failed to read response body: ");
                text.append(detail.as_str());
                text
            },
            AttemptResult::WriteFailed { detail } => detail.clone(),
        }
    }
}

/// Mathematical value of a retry state.
pub ghost enum RetryView {
    Attempting(nat),
    Success,
    Failed(Seq<char>),
}

impl RetryView {
    /// No further attempt follows.
    pub open spec fn is_terminal(self) -> bool {
        !(self is Attempting)
    }
}

/// The state that follows when attempt `attempt` of the download of `url`
/// ends with `result` and `max_retries` retries are allowed: a saved file
/// ends the record in success; a recoverable failure leads to the next
/// attempt while retries are left and otherwise ends it in failure; a failed
/// write ends it in failure at once.
pub open spec fn next_state(
    attempt: nat,
    result: AttemptResult,
    url: Seq<char>,
    max_retries: nat,
) -> RetryView {
    if result is Saved {
        RetryView::Success
    } else if result.is_recoverable() && attempt < max_retries {
        RetryView::Attempting(attempt + 1)
    } else {
        RetryView::Failed(result.reason(url))
    }
}

/// Where one record stands between its attempts.
#[derive(Clone, Debug)]
pub enum RetryState {
    /// The attempt with this index comes next or is under way.
    Attempting(u32),
    /// The file was fetched and stored.
    Success,
    /// The record failed for good, for the reason given.
    Failed(String),
}

impl View for RetryState {
    type V = RetryView;

    open spec fn view(&self) -> RetryView {
        match *self {
            RetryState::Attempting(n) => RetryView::Attempting(n as nat),
            RetryState::Success => RetryView::Success,
            RetryState::Failed(reason) => RetryView::Failed(reason@),
        }
    }
}

impl RetryState {
    /// The state of a record before its first attempt.
    pub fn start() -> (state: RetryState)
        ensures
            state@ == RetryView::Attempting(0),
    {
        RetryState::Attempting(0)
    }

    /// The state after the attempt under way ended with `result`. A state
    /// that is final stays as it is.
    pub fn on_result(self, result: &AttemptResult, url: &str, max_retries: u32) -> (next:
        RetryState)
        ensures
            next@ == match self@ {
                RetryView::Attempting(n) => next_state(n, *result, url@, max_retries as nat),
                _ => self@,
            },
    {
        match self {
            RetryState::Attempting(n) => {
                match result {
                    AttemptResult::Saved => RetryState::Success,
                    AttemptResult::WriteFailed { .. } => RetryState::Failed(
                        result.reason_text(url),
                    ),
                    _ => {
                        if n < max_retries {
                            RetryState::Attempting(n + 1)
                        } else {
                            RetryState::Failed(result.reason_text(url))
                        }
                    },
                }
            },
            RetryState::Success => RetryState::Success,
            RetryState::Failed(reason) => RetryState::Failed(reason),
        }
    }

    /// The index of the attempt to make next, if one is to be made.
    pub fn pending_attempt(&self) -> (attempt: Option<u32>)
        ensures
            attempt == match self@ {
                RetryView::Attempting(n) => Some(n as u32),
                _ => None,
            },
    {
        match self {
            RetryState::Attempting(n) => Some(*n),
            _ => None,
        }
    }

    /// The outcome of the record, once it is finished.
    pub fn into_outcome(self) -> (outcome: Option<Outcome>)
        ensures
            match self@ {
                RetryView::Attempting(_) => outcome is None,
                RetryView::Success => outcome == Some(Outcome::Success),
                RetryView::Failed(reason) => outcome matches Some(Outcome::Failed(text))
                    && text@ == reason,
            },
    {
        match self {
            RetryState::Attempting(_) => None,
            RetryState::Success => Some(Outcome::Success),
            RetryState::Failed(reason) => Some(Outcome::Failed(reason)),
        }
    }

    /// Whether the record is finished, in success or in failure.
    pub fn is_finished(&self) -> (done: bool)
        ensures
            done == self@.is_terminal(),
    {
        match self {
            RetryState::Attempting(_) => false,
            _ => true,
        }
    }
}

/// What a sequence of attempt results leads to.
pub ghost struct Trace {
    /// The state reached.
    pub state: RetryView,
    /// How many attempts were made.
    pub attempts: nat,
    /// The delays, in seconds, between one attempt and the next.
    pub delays: Seq<nat>,
}

/// Runs one record against a script of attempt results: each result is the
/// answer to one attempt, until the record is finished; what is left of the
/// script is never asked for.
pub open spec fn run(results: Seq<AttemptResult>, url: Seq<char>, max_retries: nat) -> Trace
    decreases results.len(),
{
    if results.len() == 0 {
        Trace { state: RetryView::Attempting(0), attempts: 0, delays: Seq::empty() }
    } else {
        let before = run(results.drop_last(), url, max_retries);
        match before.state {
            RetryView::Attempting(n) => Trace {
                state: next_state(n, results.last(), url, max_retries),
                attempts: before.attempts + 1,
                delays: if n == 0 {
                    before.delays
                } else {
                    before.delays.push(backoff(n))
                },
            },
            _ => before,
        }
    }
}

/// The delays 1, 2, 4, ... between the first `count + 1` attempts.
pub open spec fn doubling_delays(count: nat) -> Seq<nat> {
    Seq::new(count, |k: int| pow2(k as nat))
}

/// Once a record is finished, further results change nothing.
pub proof fn lemma_finished_stays(
    results: Seq<AttemptResult>,
    url: Seq<char>,
    max_retries: nat,
    k: int,
)
    requires
        0 <= k <= results.len(),
        run(results.take(k), url, max_retries).state.is_terminal(),
    ensures
        run(results, url, max_retries) == run(results.take(k), url, max_retries),
    decreases results.len(),
{
    if k == results.len() {
        assert(results.take(k) =~= results);
    } else {
        assert(results.drop_last().take(k) =~= results.take(k));
        lemma_finished_stays(results.drop_last(), url, max_retries, k);
    }
}

/// While every attempt fails recoverably, attempt follows attempt with
/// doubling delays until the retries are used up.
pub proof fn lemma_failing_prefix(results: Seq<AttemptResult>, url: Seq<char>, max_retries: nat)
    requires
        results.len() <= max_retries + 1,
        forall|i: int| 0 <= i < results.len() ==> (#[trigger] results[i]).is_recoverable(),
    ensures
        run(results, url, max_retries).attempts == results.len(),
        results.len() <= max_retries ==> run(results, url, max_retries).state
            == RetryView::Attempting(results.len()),
        results.len() == max_retries + 1 ==> run(results, url, max_retries).state
            == RetryView::Failed(results.last().reason(url)),
        run(results, url, max_retries).delays =~= doubling_delays(
            if results.len() == 0 {
                0
            } else {
                (results.len() - 1) as nat
            },
        ),
    decreases results.len(),
{
    if results.len() > 0 {
        let shorter = results.drop_last();
        assert forall|i: int| 0 <= i < shorter.len() implies (#[trigger] shorter[i]).is_recoverable() by {
            assert(shorter[i] == results[i]);
        }
        lemma_failing_prefix(shorter, url, max_retries);
    }
}

/// A record whose every attempt fails recoverably is attempted exactly
/// `max_retries + 1` times, with delays of 1, 2, 4, ... seconds between the
/// attempts, and then fails with the reason of the last attempt.
pub proof fn lemma_always_failing(results: Seq<AttemptResult>, url: Seq<char>, max_retries: nat)
    requires
        results.len() > max_retries,
        forall|i: int| 0 <= i < results.len() ==> (#[trigger] results[i]).is_recoverable(),
    ensures
        run(results, url, max_retries).attempts == max_retries + 1,
        run(results, url, max_retries).state == RetryView::Failed(
            results[max_retries as int].reason(url),
        ),
        run(results, url, max_retries).delays == doubling_delays(max_retries),
{
    let used = results.take(max_retries + 1 as int);
    assert forall|i: int| 0 <= i < used.len() implies (#[trigger] used[i]).is_recoverable() by {
        assert(used[i] == results[i]);
    }
    lemma_failing_prefix(used, url, max_retries);
    assert(used.last() == results[max_retries as int]);
    lemma_finished_stays(results, url, max_retries, max_retries + 1 as int);
}

/// A record whose first attempt fails recoverably and whose second attempt
/// saves the file ends in success after exactly two attempts, one second
/// apart, if at least one retry is allowed.
pub proof fn lemma_second_attempt_succeeds(
    results: Seq<AttemptResult>,
    url: Seq<char>,
    max_retries: nat,
)
    requires
        max_retries >= 1,
        results.len() >= 2,
        results[0].is_recoverable(),
        results[1] is Saved,
    ensures
        run(results, url, max_retries).state == RetryView::Success,
        run(results, url, max_retries).attempts == 2,
        run(results, url, max_retries).delays == seq![1nat],
{
    let two = results.take(2);
    let one = two.drop_last();
    assert(one.drop_last().len() == 0);
    assert(one.last() == results[0]);
    assert(two.last() == results[1]);
    reveal_with_fuel(run, 3);
    lemma2_to64();
    assert(run(one, url, max_retries).state == RetryView::Attempting(1));
    assert(run(two, url, max_retries).delays =~= seq![1nat]);
    lemma_finished_stays(results, url, max_retries, 2);
}

} // verus!
