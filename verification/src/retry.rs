//! What is done after each try of the call of a job: when it is tried
//! again, after which delay, and when the job has ended.

use std::time::Duration;
use tokio_retry::strategy::ExponentialBackoff;
use vstd::prelude::*;
use vstd::arithmetic::power2::{pow2, lemma2_to64};
use crate::errors::{ClientError, Errors, classify};

verus! {

/// The number of times the call of one job is tried at most.
pub const MAX_ATTEMPTS: usize = 3;

/// The delay before the first retry, in milliseconds.
pub const BASE_DELAY_MS: u64 = 100;

/// The factor by which the delay grows from one retry to the next.
pub const BACKOFF_FACTOR: u64 = 2;

/// The longest delay before a retry, in milliseconds.
pub const MAX_DELAY_MS: u64 = 200;

/// How one try of the call ended.
#[derive(Clone, Copy, Debug, PartialEq, Eq, Structural)]
pub enum AttemptOutcome {
    Success,
    Failure(ClientError),
}

/// What is done after one try of the call.
#[derive(Debug, PartialEq, Eq)]
pub enum RetryAction {
    /// The job is done and has its result.
    Succeed,
    /// The call is tried again after so many milliseconds.
    RetryAfter(u64),
    /// The job is done and has failed.
    Fail(Errors),
}

/// The delay before retry number `retry`, counted from 0, in milliseconds:
/// the base delay doubled `retry` times, but no more than the longest delay.
pub open spec fn backoff_delay_ms(retry: nat) -> nat {
    let grown = BASE_DELAY_MS as nat * pow2(retry);
    if grown > MAX_DELAY_MS as nat {
        MAX_DELAY_MS as nat
    } else {
        grown
    }
}

/// What is done after a try that ended in `outcome`, when `made` tries were
/// made before it. A success ends the job. A failure is tried again only if
/// it is transient and fewer than `MAX_ATTEMPTS` tries were made with this
/// one; else the job fails with the failure classified.
pub open spec fn next_action(made: nat, outcome: AttemptOutcome) -> RetryAction {
    match outcome {
        AttemptOutcome::Success => RetryAction::Succeed,
        AttemptOutcome::Failure(e) => if e.is_transient() && made + 1 < MAX_ATTEMPTS {
            RetryAction::RetryAfter(backoff_delay_ms(made) as u64)
        } else {
            RetryAction::Fail(classify(e))
        },
    }
}

/// A product of two numbers that stops at the largest number.
pub open spec fn saturating_product(a: u64, b: u64) -> u64 {
    if a * b > u64::MAX {
        u64::MAX
    } else {
        (a * b) as u64
    }
}

/// The first `count` delays of an exponential backoff, in milliseconds.
/// Each delay is the current power of `base` times `factor`; where that is
/// more than `max_delay`, the delay is `max_delay` and the power stays;
/// else the power grows by one. Products stop at the largest number.
pub open spec fn exponential_delays(
    current: u64,
    base: u64,
    factor: u64,
    max_delay: u64,
    count: nat,
) -> Seq<u64>
    decreases count,
{
    if count == 0 {
        Seq::<u64>::empty()
    } else {
        let delay = saturating_product(current, factor);
        if delay > max_delay {
            seq![max_delay] + exponential_delays(
                current,
                base,
                factor,
                max_delay,
                (count - 1) as nat,
            )
        } else {
            seq![delay] + exponential_delays(
                saturating_product(current, base),
                base,
                factor,
                max_delay,
                (count - 1) as nat,
            )
        }
    }
}

/// Takes the first `count` delays of `tokio_retry`'s `ExponentialBackoff`
/// made from `base`, with the given factor and longest delay, in
/// milliseconds. Trusted: the strategy starts at the first power of `base`
/// and yields its delays as `exponential_delays` says.
#[verifier::external_body]
fn exponential_backoff(base: u64, factor: u64, max_delay: u64, count: usize) -> (r: Vec<u64>)
    ensures
        r@ == exponential_delays(base, base, factor, max_delay, count as nat),
{
    ExponentialBackoff::from_millis(base)
        .factor(factor)
        .max_delay(Duration::from_millis(max_delay))
        .take(count)
        .map(|d| d.as_millis() as u64)
        .collect()
}

/// The delays before the retries of one job, in order and in milliseconds:
/// one for each try but the first.
pub fn retry_schedule() -> (v: Vec<u64>)
    ensures
        v@.len() == MAX_ATTEMPTS - 1,
        forall|i: int| 0 <= i < v@.len() ==> v@[i] == backoff_delay_ms(i as nat),
        v@ == seq![100u64, 200u64],
{
    let v = exponential_backoff(
        BACKOFF_FACTOR,
        BASE_DELAY_MS / BACKOFF_FACTOR,
        MAX_DELAY_MS,
        MAX_ATTEMPTS - 1,
    );
    proof {
        lemma2_to64();
        reveal_with_fuel(exponential_delays, 3);
        assert(saturating_product(2, 50) == 100) by (nonlinear_arith)
            requires
                2 * 50 == 100,
        ;
        assert(v@ =~= seq![100u64, 200u64]);
    }
    v
}

/// What is done after a try of the call that ended in `outcome`, when
/// `made` tries were made before it.
pub fn retry_decision(made: usize, outcome: AttemptOutcome) -> (a: RetryAction)
    ensures
        a == next_action(made as nat, outcome),
{
    match outcome {
        AttemptOutcome::Success => RetryAction::Succeed,
        AttemptOutcome::Failure(e) => {
            if e.is_retryable() && made < MAX_ATTEMPTS - 1 {
                let schedule = retry_schedule();
                RetryAction::RetryAfter(schedule[made])
            } else {
                RetryAction::Fail(Errors::from(e))
            }
        },
    }
}

/// A job whose first two tries fail in the transport and whose third try
/// succeeds has succeeded: both failures are tried again, after the base
/// delay and after twice the base delay.
pub proof fn lemma_third_try_succeeds(first: ClientError, second: ClientError)
    requires
        first.is_transient(),
        second.is_transient(),
    ensures
        next_action(0, AttemptOutcome::Failure(first)) == RetryAction::RetryAfter(100),
        next_action(1, AttemptOutcome::Failure(second)) == RetryAction::RetryAfter(200),
        next_action(2, AttemptOutcome::Success) == RetryAction::Succeed,
{
    lemma2_to64();
}

/// No call is tried more than `MAX_ATTEMPTS` times: after the last try, and
/// after any later one, a failure of any kind ends the job.
pub proof fn lemma_retry_budget(made: nat, e: ClientError)
    requires
        made + 1 >= MAX_ATTEMPTS,
    ensures
        next_action(made, AttemptOutcome::Failure(e)) == RetryAction::Fail(classify(e)),
{
}

/// A response with status 401 or 402 is never tried again, however few
/// tries were made: the job fails at once, as unauthorized or as low on
/// funds.
pub proof fn lemma_terminal_never_retried(made: nat, e: ClientError)
    ensures
        e.status() == Some(401u16) ==> next_action(made, AttemptOutcome::Failure(e))
            == RetryAction::Fail(Errors::UnauthorizedError),
        e.status() == Some(402u16) ==> next_action(made, AttemptOutcome::Failure(e))
            == RetryAction::Fail(Errors::LowFunds),
{
}

/// The stage of a job. A job waits, then its call is tried, up to
/// `MAX_ATTEMPTS` times, and then it has succeeded or failed for good.
#[derive(Debug, PartialEq, Eq)]
pub enum JobState {
    /// The job was not started.
    Pending,
    /// The call is being tried; so many tries were made before this one.
    Executing(usize),
    /// The job has its result.
    Succeeded,
    /// The job has failed for good.
    Failed(Errors),
}

impl JobState {
    /// Whether the job has ended.
    pub open spec fn is_terminal(self) -> bool {
        self is Succeeded || self is Failed
    }

    /// The stage after the job was started: the first try, if it waited.
    pub open spec fn started(self) -> JobState {
        match self {
            JobState::Pending => JobState::Executing(0),
            s => s,
        }
    }

    /// The stage after a try ended in `outcome`. Only a job whose call is
    /// being tried changes its stage.
    pub open spec fn after(self, outcome: AttemptOutcome) -> JobState {
        match self {
            JobState::Executing(made) => match next_action(made as nat, outcome) {
                RetryAction::Succeed => JobState::Succeeded,
                RetryAction::RetryAfter(_) => JobState::Executing((made + 1) as usize),
                RetryAction::Fail(e) => JobState::Failed(e),
            },
            s => s,
        }
    }

    /// The wait before the next try after a try ended in `outcome`, in
    /// milliseconds, if there is a next try.
    pub open spec fn delay_after(self, outcome: AttemptOutcome) -> Option<u64> {
        match self {
            JobState::Executing(made) => match next_action(made as nat, outcome) {
                RetryAction::RetryAfter(d) => Some(d),
                _ => None,
            },
            _ => None,
        }
    }

    /// The stage after the tries ended in these outcomes, one after the
    /// other.
    pub open spec fn after_all(self, outcomes: Seq<AttemptOutcome>) -> JobState
        decreases outcomes.len(),
    {
        if outcomes.len() == 0 {
            self
        } else {
            self.after(outcomes[0]).after_all(outcomes.subrange(1, outcomes.len() as int))
        }
    }

    /// A job that waits.
    pub fn new() -> (s: JobState)
        ensures
            s == JobState::Pending,
    {
        JobState::Pending
    }

    /// Whether the job has ended.
    pub fn is_done(&self) -> (r: bool)
        ensures
            r == self.is_terminal(),
    {
        match self {
            JobState::Succeeded => true,
            JobState::Failed(_) => true,
            _ => false,
        }
    }

    /// Starts a job that waits.
    pub fn start(self) -> (s: JobState)
        ensures
            s == self.started(),
    {
        match self {
            JobState::Pending => JobState::Executing(0),
            s => s,
        }
    }

    /// Takes note that a try ended in `outcome`. Gives the next stage, and
    /// the wait before the next try where there is one.
    pub fn on_outcome(self, outcome: AttemptOutcome) -> (r: (JobState, Option<u64>))
        ensures
            r.0 == self.after(outcome),
            r.1 == self.delay_after(outcome),
            r.1 is Some <==> r.0 is Executing && self is Executing,
    {
        match self {
            JobState::Executing(made) => match retry_decision(made, outcome) {
                RetryAction::Succeed => (JobState::Succeeded, None),
                RetryAction::RetryAfter(d) => (JobState::Executing(made + 1), Some(d)),
                RetryAction::Fail(e) => (JobState::Failed(e), None),
            },
            s => (s, None),
        }
    }
}

/// A job that has ended stays as it is, whatever comes after.
pub proof fn lemma_terminal_stays(s: JobState, outcomes: Seq<AttemptOutcome>)
    requires
        s.is_terminal(),
    ensures
        s.after_all(outcomes) == s,
    decreases outcomes.len(),
{
    if outcomes.len() > 0 {
        lemma_terminal_stays(s, outcomes.subrange(1, outcomes.len() as int));
    }
}

/// Once its call is tried, a job always ends: after as many outcomes as
/// tries are left to it, it has succeeded or failed, whatever the outcomes
/// were.
pub proof fn lemma_job_ends(made: usize, outcomes: Seq<AttemptOutcome>)
    requires
        made < MAX_ATTEMPTS,
        outcomes.len() >= MAX_ATTEMPTS - made,
    ensures
        JobState::Executing(made).after_all(outcomes).is_terminal(),
    decreases outcomes.len(),
{
    let s = JobState::Executing(made);
    let next = s.after(outcomes[0]);
    let rest = outcomes.subrange(1, outcomes.len() as int);
    if next.is_terminal() {
        lemma_terminal_stays(next, rest);
    } else {
        assert(next == JobState::Executing((made + 1) as usize));
        assert(made + 1 < MAX_ATTEMPTS);
        lemma_job_ends((made + 1) as usize, rest);
    }
}

/// A job is never tried more often than `MAX_ATTEMPTS` times: while its
/// call is being tried, fewer tries than that were made before, as many as
/// outcomes were seen.
pub proof fn lemma_tries_bounded(outcomes: Seq<AttemptOutcome>)
    ensures
        JobState::Pending.started().after_all(outcomes) is Executing ==> {
            &&& JobState::Pending.started().after_all(outcomes)->Executing_0 == outcomes.len()
            &&& outcomes.len() < MAX_ATTEMPTS
        },
{
    lemma_tries_counted(0, outcomes);
}

proof fn lemma_tries_counted(made: usize, outcomes: Seq<AttemptOutcome>)
    requires
        made < MAX_ATTEMPTS,
    ensures
        JobState::Executing(made).after_all(outcomes) is Executing ==> {
            &&& JobState::Executing(made).after_all(outcomes)->Executing_0 == made + outcomes.len()
            &&& made + outcomes.len() < MAX_ATTEMPTS
        },
    decreases outcomes.len(),
{
    if outcomes.len() > 0 {
        let next = JobState::Executing(made).after(outcomes[0]);
        let rest = outcomes.subrange(1, outcomes.len() as int);
        if next.is_terminal() {
            lemma_terminal_stays(next, rest);
        } else {
            lemma_tries_counted((made + 1) as usize, rest);
        }
    }
}

/// A job whose first two tries fail in the transport and whose third try
/// succeeds has succeeded.
pub proof fn lemma_two_failures_then_success(first: ClientError, second: ClientError)
    requires
        first.is_transient(),
        second.is_transient(),
    ensures
        JobState::Pending.started().after_all(
            seq![
                AttemptOutcome::Failure(first),
                AttemptOutcome::Failure(second),
                AttemptOutcome::Success,
            ],
        ) == JobState::Succeeded,
{
    let outcomes = seq![
        AttemptOutcome::Failure(first),
        AttemptOutcome::Failure(second),
        AttemptOutcome::Success,
    ];
    let two = outcomes.subrange(1, 3);
    let one = two.subrange(1, 2);
    let none = one.subrange(1, 1);
    lemma_third_try_succeeds(first, second);
    assert(JobState::Executing(0).after(outcomes[0]) == JobState::Executing(1));
    assert(JobState::Executing(1).after(two[0]) == JobState::Executing(2));
    assert(JobState::Executing(2).after(one[0]) == JobState::Succeeded);
    assert(JobState::Succeeded.after_all(none) == JobState::Succeeded);
    assert(JobState::Executing(2).after_all(one) == JobState::Succeeded);
    assert(JobState::Executing(1).after_all(two) == JobState::Succeeded);
}

/// A job whose call is answered with status 401 or 402 fails at that try,
/// as unauthorized or as low on funds, and stays so: nothing is tried
/// after it.
pub proof fn lemma_terminal_status_ends_job(
    made: usize,
    e: ClientError,
    later: Seq<AttemptOutcome>,
)
    ensures
        e.status() == Some(401u16) ==> JobState::Executing(made).after_all(
            seq![AttemptOutcome::Failure(e)] + later,
        ) == JobState::Failed(Errors::UnauthorizedError),
        e.status() == Some(402u16) ==> JobState::Executing(made).after_all(
            seq![AttemptOutcome::Failure(e)] + later,
        ) == JobState::Failed(Errors::LowFunds),
        e.status() == Some(401u16) || e.status() == Some(402u16) ==> JobState::Executing(
            made,
        ).delay_after(AttemptOutcome::Failure(e)) is None,
{
    let outcomes = seq![AttemptOutcome::Failure(e)] + later;
    assert(outcomes[0] == AttemptOutcome::Failure(e));
    assert(outcomes.subrange(1, outcomes.len() as int) =~= later);
    lemma_terminal_never_retried(made as nat, e);
    if e.status() == Some(401u16) {
        lemma_terminal_stays(JobState::Failed(Errors::UnauthorizedError), later);
    }
    if e.status() == Some(402u16) {
        lemma_terminal_stays(JobState::Failed(Errors::LowFunds), later);
    }
}

} // verus!
