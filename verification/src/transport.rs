//! The transport executor's decision core.
//!
//! One logical call spans several physical attempts. After each attempt the
//! retry machine decides: succeed with the raw response, fail terminally, or
//! wait and re-issue the request. The waiting and the re-issuing are outside
//! work and are driven by the application; every decision is made here and
//! verified against `spec_transition`. A whole call over a given sequence of
//! attempt outcomes is modelled by `spec_run`, and the laws at the bottom of
//! this file are proved of that model.

use vstd::prelude::*;

use crate::error::{Error, HttpFailure};
use crate::RawResponse;

verus! {

/// Status with which the service signals "accepted, not ready yet".
pub const ACCEPTED_STATUS: u16 = 202;

/// How many retries one logical call may perform (so five attempts in all).
pub const MAX_RETRIES: u32 = 4;

/// The outcome of one physical transmission attempt, as the application
/// observed it.
#[derive(Debug, PartialEq)]
pub enum AttemptOutcome {
    /// The request never completed: connection error, timeout, DNS, TLS.
    /// Carries the underlying description.
    Failure(String),
    /// The request completed; the service answered with this response.
    Response(RawResponse),
}

impl Clone for AttemptOutcome {
    /// An exact copy of the observed outcome.
    fn clone(&self) -> (r: Self)
        ensures
            r == *self,
    {
        match self {
            AttemptOutcome::Failure(m) => AttemptOutcome::Failure(m.clone()),
            AttemptOutcome::Response(resp) => AttemptOutcome::Response(resp.clone()),
        }
    }
}

/// What the retry machine asks the application to do after one attempt.
#[derive(Debug, PartialEq)]
pub enum Step {
    /// The call is over: surface this error.
    Fail(Error),
    /// Wait this many milliseconds, then re-issue the identical request.
    Sleep(u64),
    /// The call succeeded: hand this raw response to the decoder.
    Done(RawResponse),
}

/// Delay in milliseconds requested after the attempt made with this many
/// retries already performed: 200 ms, doubled for each retry.
pub open spec fn backoff_ms(retries: nat) -> nat
    decreases retries,
{
    if retries == 0 {
        200
    } else {
        2 * backoff_ms((retries - 1) as nat)
    }
}

/// One transition of the retry machine: the decision for this attempt's
/// outcome, and the retry count the next attempt starts from.
pub open spec fn spec_transition(retries: nat, outcome: AttemptOutcome) -> (Step, nat) {
    match outcome {
        AttemptOutcome::Failure(m) => (
            Step::Fail(Error::HttpError(HttpFailure::Transport(m))),
            retries,
        ),
        AttemptOutcome::Response(resp) => {
            if resp.status == ACCEPTED_STATUS {
                if retries >= MAX_RETRIES {
                    (Step::Fail(Error::MaxRetryError(retries as u32)), retries)
                } else {
                    (Step::Sleep(backoff_ms(retries) as u64), retries + 1)
                }
            } else if 400 <= resp.status && resp.status <= 599 {
                (Step::Fail(Error::HttpError(HttpFailure::Status(resp.status))), retries)
            } else {
                (Step::Done(resp), retries)
            }
        },
    }
}

/// Retry state of one logical call: the attempt counter. It is created
/// fresh for every call and never outlives it.
pub struct RetryState {
    pub retries: u32,
}

impl RetryState {
    /// A fresh state: no retries performed yet.
    pub fn new() -> (s: Self)
        ensures
            s.retries == 0,
    {
        RetryState { retries: 0 }
    }

    /// Decide what to do with the outcome of one attempt, advancing the
    /// retry count exactly as the machine's transition function says.
    pub fn step(&mut self, outcome: AttemptOutcome) -> (s: Step)
        ensures
            (s, final(self).retries as nat) == spec_transition(
                old(self).retries as nat,
                outcome,
            ),
    {
        match outcome {
            AttemptOutcome::Failure(m) => Step::Fail(Error::HttpError(HttpFailure::Transport(m))),
            AttemptOutcome::Response(resp) => {
                if resp.status == ACCEPTED_STATUS {
                    if self.retries >= MAX_RETRIES {
                        Step::Fail(Error::MaxRetryError(self.retries))
                    } else {
                        let delay = backoff_delay(self.retries);
                        self.retries = self.retries + 1;
                        Step::Sleep(delay)
                    }
                } else if 400 <= resp.status && resp.status <= 599 {
                    Step::Fail(Error::HttpError(HttpFailure::Status(resp.status)))
                } else {
                    Step::Done(resp)
                }
            },
        }
    }
}

/// The delay requested before retry number `retries + 1`.
fn backoff_delay(retries: u32) -> (d: u64)
    requires
        retries < MAX_RETRIES,
    ensures
        d == backoff_ms(retries as nat),
{
    proof {
        assert(backoff_ms(0) == 200);
        assert(backoff_ms(1) == 400);
        assert(backoff_ms(2) == 800);
        assert(backoff_ms(3) == 1600);
    }
    match retries {
        0 => 200,
        1 => 400,
        2 => 800,
        _ => 1600,
    }
}

/// How a whole scripted run of the executor ends.
#[derive(Debug, PartialEq)]
pub enum RunOutcome {
    /// An attempt succeeded; this raw response goes to the decoder.
    Success(RawResponse),
    /// The call failed terminally with this classified error.
    Failed(Error),
    /// The script ran out while the machine still wanted another attempt.
    Exhausted,
}

/// What one logical call does on a given sequence of attempt outcomes:
/// how many attempts it consumes, the delays it requests between them,
/// and how it ends.
pub struct TransportRun {
    pub attempts: nat,
    pub delays: Seq<u64>,
    pub outcome: RunOutcome,
}

/// The executor's whole-call model: starting from `retries` retries already
/// performed, consume attempt outcomes in order, one transition each, until
/// a decision other than waiting is reached.
pub open spec fn spec_run(retries: nat, outcomes: Seq<AttemptOutcome>) -> TransportRun
    decreases outcomes.len(),
{
    if outcomes.len() == 0 {
        TransportRun { attempts: 0, delays: Seq::empty(), outcome: RunOutcome::Exhausted }
    } else {
        let (step, next) = spec_transition(retries, outcomes[0]);
        match step {
            Step::Fail(e) => TransportRun {
                attempts: 1,
                delays: Seq::empty(),
                outcome: RunOutcome::Failed(e),
            },
            Step::Done(r) => TransportRun {
                attempts: 1,
                delays: Seq::empty(),
                outcome: RunOutcome::Success(r),
            },
            Step::Sleep(d) => {
                let rest = spec_run(next, outcomes.skip(1));
                TransportRun {
                    attempts: (rest.attempts + 1) as nat,
                    delays: seq![d] + rest.delays,
                    outcome: rest.outcome,
                }
            },
        }
    }
}

/// Report of one scripted run: the classified end, the delays requested
/// between attempts, in order, and how many attempts were consumed.
#[derive(Debug, PartialEq)]
pub struct RunReport {
    pub outcome: RunOutcome,
    pub delays: Vec<u64>,
    pub attempts: usize,
}

/// The transport executor's loop with the outside world abstracted into a
/// script: feed the machine one attempt outcome after the other, starting
/// from a fresh retry state, until the call succeeds, fails, or the script
/// runs out. The report is exactly what `spec_run` says for the script.
pub fn run_attempts(outcomes: &Vec<AttemptOutcome>) -> (r: RunReport)
    ensures
        r.outcome == spec_run(0, outcomes@).outcome,
        r.delays@ == spec_run(0, outcomes@).delays,
        r.attempts == spec_run(0, outcomes@).attempts,
{
    let mut state = RetryState::new();
    let mut delays: Vec<u64> = Vec::new();
    let mut i: usize = 0;
    proof {
        assert(outcomes@.skip(0) =~= outcomes@);
        assert(Seq::<u64>::empty() + spec_run(0, outcomes@).delays =~= spec_run(
            0,
            outcomes@,
        ).delays);
    }
    while i < outcomes.len()
        invariant
            i <= outcomes@.len(),
            spec_run(0, outcomes@).attempts == i + spec_run(
                state.retries as nat,
                outcomes@.skip(i as int),
            ).attempts,
            spec_run(0, outcomes@).delays == delays@ + spec_run(
                state.retries as nat,
                outcomes@.skip(i as int),
            ).delays,
            spec_run(0, outcomes@).outcome == spec_run(
                state.retries as nat,
                outcomes@.skip(i as int),
            ).outcome,
        decreases outcomes@.len() - i,
    {
        let ghost pre_retries = state.retries as nat;
        let ghost remaining = outcomes@.skip(i as int);
        let outcome = outcomes[i].clone();
        proof {
            assert(remaining[0] == outcomes@[i as int]);
            assert(remaining.skip(1) =~= outcomes@.skip(i + 1));
        }
        match state.step(outcome) {
            Step::Fail(e) => {
                proof {
                    assert(spec_run(pre_retries, remaining).outcome == RunOutcome::Failed(e));
                    assert(delays@ + Seq::<u64>::empty() =~= delays@);
                }
                return RunReport { outcome: RunOutcome::Failed(e), delays, attempts: i + 1 };
            },
            Step::Done(resp) => {
                proof {
                    assert(delays@ + Seq::<u64>::empty() =~= delays@);
                }
                return RunReport { outcome: RunOutcome::Success(resp), delays, attempts: i + 1 };
            },
            Step::Sleep(d) => {
                let ghost rest = spec_run(state.retries as nat, outcomes@.skip(i + 1));
                proof {
                    assert(spec_run(pre_retries, remaining).delays == seq![d] + rest.delays);
                    assert((delays@ + seq![d]) + rest.delays =~= delays@ + (seq![d] + rest.delays));
                }
                delays.push(d);
            },
        }
        i = i + 1;
    }
    proof {
        assert(outcomes@.skip(i as int) =~= Seq::<AttemptOutcome>::empty());
        assert(delays@ + Seq::<u64>::empty() =~= delays@);
    }
    RunReport { outcome: RunOutcome::Exhausted, delays, attempts: i }
}

/// Law: logical calls are independent. What a call does is a function of
/// its own attempt outcomes alone, and every call starts from a fresh
/// retry count of zero; two calls that observe the same outcomes end the
/// same way, whatever ran before or between them.
pub proof fn lemma_calls_independent(a: Seq<AttemptOutcome>, b: Seq<AttemptOutcome>)
    requires
        a == b,
    ensures
        spec_run(0, a) == spec_run(0, b),
{
}

/// Whether one attempt was answered with the "accepted, not ready" status.
pub open spec fn is_accepted_response(o: AttemptOutcome) -> bool {
    o matches AttemptOutcome::Response(resp) && resp.status == ACCEPTED_STATUS
}

/// Law: if the service answers "accepted" on every attempt, the call makes
/// exactly five attempts, waits 200, 400, 800 and 1600 ms between them, and
/// fails reporting four retries exhausted.
pub proof fn lemma_accepted_exhausts_retries(outcomes: Seq<AttemptOutcome>)
    requires
        outcomes.len() >= 5,
        forall|i: int| 0 <= i < outcomes.len() ==> is_accepted_response(#[trigger] outcomes[i]),
    ensures
        spec_run(0, outcomes).attempts == 5,
        spec_run(0, outcomes).delays == seq![200u64, 400u64, 800u64, 1600u64],
        spec_run(0, outcomes).outcome == RunOutcome::Failed(Error::MaxRetryError(4)),
{
    let s1 = outcomes.skip(1);
    let s2 = s1.skip(1);
    let s3 = s2.skip(1);
    let s4 = s3.skip(1);
    assert(s1[0] == outcomes[1] && s2[0] == outcomes[2] && s3[0] == outcomes[3] && s4[0]
        == outcomes[4]);
    assert(backoff_ms(0) == 200);
    assert(backoff_ms(1) == 400);
    assert(backoff_ms(2) == 800);
    assert(backoff_ms(3) == 1600);
    assert(spec_run(4, s4).attempts == 1 && spec_run(4, s4).delays =~= Seq::<u64>::empty()
        && spec_run(4, s4).outcome == RunOutcome::Failed(Error::MaxRetryError(4)));
    assert(spec_run(3, s3).attempts == 2 && spec_run(3, s3).delays =~= seq![1600u64] && spec_run(
        3,
        s3,
    ).outcome == RunOutcome::Failed(Error::MaxRetryError(4)));
    assert(spec_run(2, s2).attempts == 3 && spec_run(2, s2).delays =~= seq![800u64, 1600u64]
        && spec_run(2, s2).outcome == RunOutcome::Failed(Error::MaxRetryError(4)));
    assert(spec_run(1, s1).attempts == 4 && spec_run(1, s1).delays =~= seq![400u64, 800u64, 1600u64]
        && spec_run(1, s1).outcome == RunOutcome::Failed(Error::MaxRetryError(4)));
    assert(spec_run(0, outcomes).attempts == 5 && spec_run(0, outcomes).delays =~= seq![
        200u64,
        400u64,
        800u64,
        1600u64,
    ] && spec_run(0, outcomes).outcome == RunOutcome::Failed(Error::MaxRetryError(4)));
}

/// Law: the backoff policy is bounded. Starting from `retries` retries
/// already performed, a call makes at most `5 - retries` attempts and
/// requests at most `4 - retries` delays, whatever the service answers:
/// a fresh call never exceeds five attempts and four waits.
pub proof fn lemma_attempts_bounded(retries: nat, outcomes: Seq<AttemptOutcome>)
    requires
        retries <= MAX_RETRIES,
    ensures
        spec_run(retries, outcomes).attempts <= 5 - retries,
        spec_run(retries, outcomes).delays.len() <= 4 - retries,
    decreases outcomes.len(),
{
    if outcomes.len() > 0 {
        let (step, next) = spec_transition(retries, outcomes[0]);
        if step is Sleep {
            assert(retries < MAX_RETRIES && next == retries + 1);
            lemma_attempts_bounded(next, outcomes.skip(1));
        }
    }
}

/// Law: a terminal client- or server-error status on the first attempt
/// fails the call at once: exactly one attempt, no delay, and the error
/// carries that status.
pub proof fn lemma_error_status_fails_immediately(first: RawResponse, outcomes: Seq<AttemptOutcome>)
    requires
        outcomes.len() >= 1,
        outcomes[0] == AttemptOutcome::Response(first),
        400 <= first.status <= 599,
    ensures
        spec_run(0, outcomes).attempts == 1,
        spec_run(0, outcomes).delays == Seq::<u64>::empty(),
        spec_run(0, outcomes).outcome == RunOutcome::Failed(
            Error::HttpError(HttpFailure::Status(first.status)),
        ),
{
}

} // verus!
