//! The retry decisions of the fetch layer.
//!
//! A fetch is a run of at most three attempts. After each attempt the
//! caller reports what came of it, and is told whether to hand the body on,
//! to give up, or to try again, and how long to sleep first.

use crate::errors::{BoothClientError, ClientFailure, FailureKind};
use vstd::arithmetic::power2::{lemma2_to64, lemma_pow2_unfold, pow2};
use vstd::prelude::*;

verus! {

/// The greatest number of attempts of one fetch.
pub const MAX_RETRIES: u32 = 3;

/// The first pause after a failure in transport, in milliseconds.
pub const NETWORK_BACKOFF_MS: u64 = 500;

/// The first pause after an answer 429, in milliseconds.
pub const RATE_LIMIT_BACKOFF_MS: u64 = 1000;

/// The status by which a server says that requests come too fast.
pub const TOO_MANY_REQUESTS: u16 = 429;

/// A status in the range of success, 200 to 299.
pub open spec fn status_is_success(status: u16) -> bool {
    200 <= status < 300
}

/// The pause after attempt `attempt` (counted from 1): `base` doubled for
/// each attempt before it.
pub open spec fn backoff_after(base: u64, attempt: u32) -> int {
    base * pow2((attempt - 1) as nat)
}

/// What one attempt came to.
#[derive(Debug)]
pub enum AttemptOutcome<T> {
    /// The server answered with a success status and the body was read.
    Body(T),
    /// The server answered with a success status, but reading the body
    /// failed.
    BodyUnreadable { message: String },
    /// The server answered with this status, which is no success.
    Status { code: u16 },
    /// The request did not get through.
    Transport { message: String },
}

/// What the caller does next.
#[derive(Debug)]
pub enum NextStep<T> {
    /// Hand the body to whoever asked for it.
    Deliver(T),
    /// Give up with this error.
    Fail(BoothClientError),
    /// Make another attempt.
    Attempt,
}

/// A decision: first sleep for `backoff_ms` milliseconds (not at all where
/// it is 0), then do `next`.
#[derive(Debug)]
pub struct Decision<T> {
    pub backoff_ms: u64,
    pub next: NextStep<T>,
}

/// The course of one fetch so far.
#[derive(Debug)]
pub struct RetryState {
    /// How many attempts have been reported.
    pub attempts: u32,
    /// The error of the last attempt that failed and could be tried again.
    pub last_error: Option<BoothClientError>,
}

/// The error that a failed attempt leaves behind, where the fetch may go
/// on after it; `None` for an outcome that ends the fetch.
pub open spec fn retryable_failure<T>(outcome: AttemptOutcome<T>) -> Option<ClientFailure> {
    match outcome {
        AttemptOutcome::Body(_) => None,
        AttemptOutcome::BodyUnreadable { message } => Some(
            ClientFailure::ResponseRead { message: message@ },
        ),
        AttemptOutcome::Status { code } => if code == TOO_MANY_REQUESTS {
            Some(ClientFailure::RateLimited)
        } else {
            None
        },
        AttemptOutcome::Transport { message } => Some(
            ClientFailure::NetworkError { message: message@ },
        ),
    }
}

/// The pause that follows attempt `attempt` with this outcome: after 429
/// always, after a failure in transport where attempts are left, and none
/// otherwise.
pub open spec fn pause_after<T>(outcome: AttemptOutcome<T>, attempt: u32) -> int {
    match outcome {
        AttemptOutcome::Status { code } => if code == TOO_MANY_REQUESTS {
            backoff_after(RATE_LIMIT_BACKOFF_MS, attempt)
        } else {
            0
        },
        AttemptOutcome::Transport { .. } => if attempt < MAX_RETRIES {
            backoff_after(NETWORK_BACKOFF_MS, attempt)
        } else {
            0
        },
        _ => 0,
    }
}

/// Whether a status is one of success.
pub fn is_success_status(status: u16) -> (success: bool)
    ensures
        success == status_is_success(status),
{
    200 <= status && status < 300
}

/// The pause after attempt `attempt`, starting from `base` milliseconds.
pub(crate) fn backoff_millis(base: u64, attempt: u32) -> (millis: u64)
    requires
        1 <= attempt <= MAX_RETRIES,
        base <= 1_000_000,
    ensures
        millis == backoff_after(base, attempt),
{
    proof {
        lemma2_to64();
        assert(pow2(0) == 1);
        assert(base * pow2(0) == base) by (nonlinear_arith)
            requires
                pow2(0) == 1,
        ;
    }
    let mut millis: u64 = base;
    let mut done: u32 = 1;
    while done < attempt
        invariant
            1 <= done <= attempt <= MAX_RETRIES,
            base <= 1_000_000,
            millis == base * pow2((done - 1) as nat),
            millis <= 4_000_000,
        decreases attempt - done,
    {
        proof {
            lemma2_to64();
            assert(pow2(done as nat) == 2 * pow2((done - 1) as nat)) by {
                lemma_pow2_unfold(done as nat);
            }
            assert(base * (2 * pow2((done - 1) as nat)) == 2 * (base * pow2((done - 1) as nat)))
                by (nonlinear_arith);
            assert(base * pow2(done as nat) <= 4_000_000) by (nonlinear_arith)
                requires
                    base <= 1_000_000,
                    pow2(done as nat) <= 4,
            ;
        }
        millis = millis * 2;
        done += 1;
    }
    millis
}

/// The error of a fetch that may make no further attempt: the last error
/// that an attempt left behind, or `MaxRetriesExceeded` where none did.
pub open spec fn exhaustion(last_error: Option<ClientFailure>) -> ClientFailure {
    match last_error {
        Some(failure) => failure,
        None => ClientFailure::MaxRetriesExceeded,
    }
}

/// The views of the errors that a state may hold.
pub open spec fn error_view(error: Option<BoothClientError>) -> Option<ClientFailure> {
    match error {
        Some(e) => Some(e@),
        None => None,
    }
}

impl RetryState {
    /// The state before the first attempt.
    pub fn new() -> (state: RetryState)
        ensures
            state.attempts == 0,
            state.last_error is None,
    {
        RetryState { attempts: 0, last_error: None }
    }

    /// The error with which the fetch ends when no attempt is left.
    pub fn exhausted(&self) -> (error: BoothClientError)
        ensures
            error@ == exhaustion(error_view(self.last_error)),
    {
        match &self.last_error {
            Some(e) => e.copy(),
            None => BoothClientError::MaxRetriesExceeded,
        }
    }

    /// Takes note of what the attempt just made came to, and says what to
    /// do next.
    ///
    /// A body is handed on. A status that is neither a success nor 429
    /// ends the fetch at once. After 429 the caller sleeps, twice as long
    /// after each attempt; after a failure in transport it sleeps half as
    /// long, and not at all after the last attempt. A failed attempt is
    /// followed by another while fewer than three were made; after the
    /// third the fetch fails with the error of that attempt. Once three
    /// attempts have been reported, nothing is taken note of any more and
    /// the answer is to give up.
    pub fn record<T>(&mut self, outcome: AttemptOutcome<T>) -> (decision: Decision<T>)
        ensures
            old(self).attempts >= MAX_RETRIES ==> {
                &&& *final(self) == *old(self)
                &&& decision.backoff_ms == 0
                &&& decision.next matches NextStep::Fail(e) && e@ == exhaustion(
                    error_view(old(self).last_error),
                )
            },
            old(self).attempts < MAX_RETRIES ==> {
                &&& final(self).attempts == old(self).attempts + 1
                &&& decision.backoff_ms == pause_after(outcome, final(self).attempts)
                &&& match outcome {
                    AttemptOutcome::Body(body) => decision.next == NextStep::Deliver(body),
                    AttemptOutcome::Status { code } if code != TOO_MANY_REQUESTS => decision.next matches NextStep::Fail(
                        e,
                    ) && e@ == (ClientFailure::HttpError { status: code }),
                    _ => if final(self).attempts < MAX_RETRIES {
                        decision.next is Attempt
                    } else {
                        decision.next matches NextStep::Fail(e) && Some(e@) == retryable_failure(
                            outcome,
                        )
                    },
                }
                &&& match retryable_failure(outcome) {
                    Some(failure) => error_view(final(self).last_error) == Some(failure),
                    None => final(self).last_error == old(self).last_error,
                }
            },
    {
        if self.attempts >= MAX_RETRIES {
            return Decision { backoff_ms: 0, next: NextStep::Fail(self.exhausted()) };
        }
        let attempt: u32 = self.attempts + 1;
        self.attempts = attempt;
        match outcome {
            AttemptOutcome::Body(body) => Decision { backoff_ms: 0, next: NextStep::Deliver(body) },
            AttemptOutcome::BodyUnreadable { message } => {
                self.last_error = Some(BoothClientError::ResponseRead { message: message.clone() });
                let next = if attempt < MAX_RETRIES {
                    NextStep::Attempt
                } else {
                    NextStep::Fail(BoothClientError::ResponseRead { message })
                };
                Decision { backoff_ms: 0, next }
            },
            AttemptOutcome::Status { code } => {
                if code == TOO_MANY_REQUESTS {
                    self.last_error = Some(BoothClientError::RateLimited);
                    let next = if attempt < MAX_RETRIES {
                        NextStep::Attempt
                    } else {
                        NextStep::Fail(BoothClientError::RateLimited)
                    };
                    Decision { backoff_ms: backoff_millis(RATE_LIMIT_BACKOFF_MS, attempt), next }
                } else {
                    Decision {
                        backoff_ms: 0,
                        next: NextStep::Fail(BoothClientError::HttpError { status: code }),
                    }
                }
            },
            AttemptOutcome::Transport { message } => {
                self.last_error = Some(BoothClientError::NetworkError { message: message.clone() });
                if attempt < MAX_RETRIES {
                    Decision {
                        backoff_ms: backoff_millis(NETWORK_BACKOFF_MS, attempt),
                        next: NextStep::Attempt,
                    }
                } else {
                    Decision {
                        backoff_ms: 0,
                        next: NextStep::Fail(BoothClientError::NetworkError { message }),
                    }
                }
            },
        }
    }
}

/// How a fetch went: what it returned, the pauses it made, in order, and
/// the number of attempts it took.
pub struct FetchTrace<T> {
    pub result: Result<T, ClientFailure>,
    pub sleeps: Seq<u64>,
    pub attempts: nat,
}

/// The pause after an attempt as the list of sleeps that it adds.
pub open spec fn sleeps_after<T>(outcome: AttemptOutcome<T>, attempt: u32) -> Seq<u64> {
    if pause_after(outcome, attempt) > 0 {
        seq![pause_after(outcome, attempt) as u64]
    } else {
        Seq::empty()
    }
}

/// The outcome ends the fetch whatever the number of the attempt.
pub open spec fn is_final_outcome<T>(outcome: AttemptOutcome<T>) -> bool {
    match outcome {
        AttemptOutcome::Body(_) => true,
        AttemptOutcome::Status { code } => code != TOO_MANY_REQUESTS,
        _ => false,
    }
}

/// How a fetch goes on whose attempts come to `outcomes` in turn, after
/// `attempts` attempts that left `last_error` behind. It ends with the
/// first body or definitive status; where no attempt is left, or no
/// outcome, it fails with the last error.
pub open spec fn fetch_trace<T>(
    outcomes: Seq<AttemptOutcome<T>>,
    attempts: nat,
    last_error: Option<ClientFailure>,
) -> FetchTrace<T>
    decreases outcomes.len(),
{
    if outcomes.len() == 0 || attempts >= MAX_RETRIES {
        FetchTrace { result: Err(exhaustion(last_error)), sleeps: Seq::empty(), attempts }
    } else {
        let outcome = outcomes[0];
        let attempt = (attempts + 1) as u32;
        match outcome {
            AttemptOutcome::Body(body) => FetchTrace {
                result: Ok(body),
                sleeps: Seq::empty(),
                attempts: attempts + 1,
            },
            AttemptOutcome::Status { code } if code != TOO_MANY_REQUESTS => FetchTrace {
                result: Err(ClientFailure::HttpError { status: code }),
                sleeps: Seq::empty(),
                attempts: attempts + 1,
            },
            _ => {
                let rest = fetch_trace(
                    outcomes.drop_first(),
                    attempts + 1,
                    retryable_failure(outcome),
                );
                FetchTrace {
                    result: rest.result,
                    sleeps: sleeps_after(outcome, attempt) + rest.sleeps,
                    attempts: rest.attempts,
                }
            },
        }
    }
}

/// What a fetch returned, the pauses that it made and the attempts that it
/// took.
#[derive(Debug)]
pub struct FetchReport<T> {
    pub result: Result<T, BoothClientError>,
    pub sleeps: Vec<u64>,
    pub attempts: u32,
}

impl<T> FetchReport<T> {
    /// The report as a mathematical value.
    pub open spec fn trace(self) -> FetchTrace<T> {
        FetchTrace {
            result: match self.result {
                Ok(body) => Ok(body),
                Err(e) => Err(e@),
            },
            sleeps: self.sleeps@,
            attempts: self.attempts as nat,
        }
    }
}

/// Only a failure of the transient kind is followed by another attempt.
pub proof fn lemma_only_transient_failures_are_retried<T>(outcome: AttemptOutcome<T>)
    ensures
        retryable_failure(outcome) matches Some(failure) ==> failure.kind() == FailureKind::Transient,
        is_final_outcome(outcome) ==> retryable_failure(outcome) is None,
{
}

/// A pause is never longer than four seconds.
pub proof fn lemma_pause_bounds<T>(outcome: AttemptOutcome<T>, attempt: u32)
    requires
        1 <= attempt <= MAX_RETRIES,
    ensures
        0 <= pause_after(outcome, attempt) <= 4000,
{
    lemma2_to64();
    let doubling = pow2((attempt - 1) as nat);
    assert(doubling == 1 || doubling == 2 || doubling == 4);
    assert(RATE_LIMIT_BACKOFF_MS * doubling <= 4000 && NETWORK_BACKOFF_MS * doubling <= 4000
        && 0 <= RATE_LIMIT_BACKOFF_MS * doubling && 0 <= NETWORK_BACKOFF_MS * doubling);
}

/// A fetch takes at most three attempts, sleeps at most once per attempt,
/// and returns a body only where its last attempt brought that body.
pub proof fn lemma_fetch_keeps_budget<T>(
    outcomes: Seq<AttemptOutcome<T>>,
    attempts: nat,
    last_error: Option<ClientFailure>,
)
    requires
        attempts <= MAX_RETRIES,
    ensures
        ({
            let trace = fetch_trace(outcomes, attempts, last_error);
            &&& attempts <= trace.attempts <= MAX_RETRIES
            &&& trace.attempts <= attempts + outcomes.len()
            &&& trace.sleeps.len() <= trace.attempts - attempts
            &&& forall|i: int| 0 <= i < trace.sleeps.len() ==> 0 < #[trigger] trace.sleeps[i] <= 4000
            &&& trace.result matches Ok(body) ==> trace.attempts > attempts && outcomes[trace.attempts
                - attempts - 1] == AttemptOutcome::Body(body)
        }),
    decreases outcomes.len(),
{
    if outcomes.len() == 0 || attempts >= MAX_RETRIES {
    } else {
        let outcome = outcomes[0];
        let attempt = (attempts + 1) as u32;
        if !is_final_outcome(outcome) {
            let rest = outcomes.drop_first();
            lemma_fetch_keeps_budget(rest, attempts + 1, retryable_failure(outcome));
            lemma_pause_bounds(outcome, attempt);
            let trace = fetch_trace(outcomes, attempts, last_error);
            let tail = fetch_trace(rest, attempts + 1, retryable_failure(outcome));
            let head = sleeps_after(outcome, attempt);
            assert(trace.sleeps == head + tail.sleeps);
            assert(trace.attempts == tail.attempts);
            assert(trace.result == tail.result);
            assert forall|i: int| 0 <= i < trace.sleeps.len() implies 0 < #[trigger] trace.sleeps[i]
                <= 4000 by {
                if i < head.len() {
                    assert(trace.sleeps[i] == head[i]);
                } else {
                    assert(trace.sleeps[i] == tail.sleeps[i - head.len()]);
                }
            }
            if trace.result is Ok {
                let k = tail.attempts - attempts - 2;
                assert(0 <= k < rest.len());
                assert(rest[k] == outcomes[k + 1]);
            }
        }
    }
}

/// Plays a fetch through whose attempts come to `outcomes`, one after the
/// other, and reports how it went. Outcomes beyond the end of the fetch are
/// not looked at.
#[verifier::loop_isolation(false)]
pub fn run_fetch<T>(outcomes: Vec<AttemptOutcome<T>>) -> (report: FetchReport<T>)
    ensures
        report.trace() == fetch_trace(outcomes@, 0, None),
        report.attempts <= MAX_RETRIES,
        report.attempts <= outcomes.len(),
        report.sleeps.len() <= report.attempts,
{
    let ghost script = outcomes@;
    let mut remaining = outcomes;
    let mut state = RetryState::new();
    let mut sleeps: Vec<u64> = Vec::new();
    proof {
        lemma_fetch_keeps_budget(script, 0, None);
        assert(script.skip(0) == script);
        assert(Seq::<u64>::empty() + fetch_trace(script, 0, None).sleeps == fetch_trace(
            script,
            0,
            None,
        ).sleeps);
    }
    loop
        invariant
            state.attempts <= MAX_RETRIES,
            state.attempts <= script.len(),
            remaining@ == script.skip(state.attempts as int),
            ({
                let rest = fetch_trace(remaining@, state.attempts as nat, error_view(state.last_error));
                let whole = fetch_trace(script, 0, None);
                rest.result == whole.result && rest.attempts == whole.attempts && sleeps@
                    + rest.sleeps == whole.sleeps
            }),
        decreases remaining.len(),
    {
        if remaining.len() == 0 || state.attempts >= MAX_RETRIES {
            let error = state.exhausted();
            assert(sleeps@ + Seq::<u64>::empty() == sleeps@);
            return FetchReport { result: Err(error), sleeps, attempts: state.attempts };
        }
        let ghost before = remaining@;
        let ghost slept = sleeps@;
        let outcome = remaining.remove(0);
        assert(remaining@ == before.drop_first());
        assert(outcome == before[0]);
        let ghost attempt = (state.attempts + 1) as u32;
        let ghost tail = fetch_trace(remaining@, attempt as nat, retryable_failure(outcome));
        let decision = state.record(outcome);
        if decision.backoff_ms > 0 {
            sleeps.push(decision.backoff_ms);
        }
        assert(sleeps@ == slept + sleeps_after(outcome, attempt));
        match decision.next {
            NextStep::Deliver(body) => {
                assert(sleeps@ + Seq::<u64>::empty() == sleeps@);
                return FetchReport { result: Ok(body), sleeps, attempts: state.attempts };
            },
            NextStep::Fail(error) => {
                proof {
                    if !is_final_outcome(outcome) {
                        assert(tail.sleeps == Seq::<u64>::empty());
                    }
                    assert(sleeps@ + Seq::<u64>::empty() == sleeps@);
                    assert(slept + Seq::<u64>::empty() == slept);
                    assert((slept + sleeps_after(outcome, attempt)) + Seq::<u64>::empty() == slept
                        + (sleeps_after(outcome, attempt) + Seq::<u64>::empty()));
                }
                return FetchReport { result: Err(error), sleeps, attempts: state.attempts };
            },
            NextStep::Attempt => {
                proof {
                    assert((slept + sleeps_after(outcome, attempt)) + tail.sleeps == slept + (
                    sleeps_after(outcome, attempt) + tail.sleeps));
                    assert(remaining@ == script.skip(state.attempts as int));
                }
            },
        }
    }
}

} // verus!
