//! A whole run, told as a function of the outcomes that the operation
//! produces attempt after attempt, and what holds of every such run.

use crate::policy::{RetryLimit, RetryPolicy};
use crate::retry_result::RetryResult;
use crate::retryer::{classify, Step};
use vstd::prelude::*;

verus! {

/// What a run came to.
pub struct RunSummary<T, E> {
    /// How many times the operation was executed.
    pub executions: nat,
    /// The waits between the attempts, in milliseconds, in order.
    pub waits: Seq<u64>,
    /// The result of the run; `None` while the run still asks for attempts.
    pub result: Option<Result<T, E>>,
}

/// The run that has made `done` attempts and goes on with the outcomes
/// from `outcomes[done]`. `outcomes[i]` is what attempt `i + 1` produces.
pub open spec fn run_from<T, E>(
    policy: RetryPolicy,
    outcomes: Seq<RetryResult<T, E>>,
    done: nat,
) -> RunSummary<T, E>
    decreases outcomes.len() - done,
{
    if done >= outcomes.len() {
        RunSummary { executions: done, waits: Seq::empty(), result: None }
    } else {
        match classify(policy, done + 1, outcomes[done as int]) {
            Step::Done(result) => RunSummary {
                executions: done + 1,
                waits: Seq::empty(),
                result: Some(result),
            },
            Step::Wait(millis) => {
                let rest = run_from(policy, outcomes, done + 1);
                RunSummary {
                    executions: rest.executions,
                    waits: seq![millis] + rest.waits,
                    result: rest.result,
                }
            },
        }
    }
}

/// The run from its beginning.
pub open spec fn run<T, E>(policy: RetryPolicy, outcomes: Seq<RetryResult<T, E>>) -> RunSummary<
    T,
    E,
> {
    run_from(policy, outcomes, 0)
}

/// Transient failures within the budget never end a run: if attempts
/// `done + 1` to `upto` all ask for a retry and the limit admits each of
/// these attempt counts, the run goes on from attempt `upto + 1` as it would
/// have from there, with one wait for each of the failures in between.
pub proof fn retries_in_budget_are_absorbed<T, E>(
    policy: RetryPolicy,
    outcomes: Seq<RetryResult<T, E>>,
    done: nat,
    upto: nat,
)
    requires
        done <= upto <= outcomes.len(),
        forall|i: int|
            done <= i < upto ==> (#[trigger] outcomes[i]) is Retry && policy.limit.admits(
                (i + 1) as nat,
            ),
    ensures
        run_from(policy, outcomes, done).executions == run_from(policy, outcomes, upto).executions,
        run_from(policy, outcomes, done).result == run_from(policy, outcomes, upto).result,
        run_from(policy, outcomes, done).waits.len() == (upto - done) + run_from(
            policy,
            outcomes,
            upto,
        ).waits.len(),
        forall|j: int|
            0 <= j < upto - done ==> (#[trigger] run_from(policy, outcomes, done).waits[j])
                == policy.wait_after((done + j + 1) as nat),
    decreases upto - done,
{
    if done < upto {
        assert(outcomes[done as int] is Retry && policy.limit.admits((done + 1) as nat));
        retries_in_budget_are_absorbed(policy, outcomes, done + 1, upto);
        let here = run_from(policy, outcomes, done);
        let rest = run_from(policy, outcomes, done + 1);
        assert(here.waits == seq![policy.wait_after(done + 1)] + rest.waits);
        assert forall|j: int| 0 <= j < upto - done implies (#[trigger] here.waits[j])
            == policy.wait_after((done + j + 1) as nat) by {
            if j > 0 {
                assert(here.waits[j] == rest.waits[j - 1]);
            }
        }
    }
}

/// Under a limit of `n >= 1` attempts, an operation that asks for a retry
/// every time is executed exactly `n` times, and the run fails with the
/// error of the `n`th execution, after `n - 1` waits.
pub proof fn always_retry_exhausts_limit<T, E>(
    policy: RetryPolicy,
    outcomes: Seq<RetryResult<T, E>>,
    n: u64,
)
    requires
        policy.limit == RetryLimit::Limited(n),
        n >= 1,
        outcomes.len() >= n,
        forall|i: int| 0 <= i < n ==> (#[trigger] outcomes[i]) is Retry,
    ensures
        run(policy, outcomes).executions == n,
        run(policy, outcomes).result == Some(
            Err::<T, E>(outcomes[n - 1]->Retry_0),
        ),
        run(policy, outcomes).waits.len() == n - 1,
{
    let last = (n - 1) as nat;
    retries_in_budget_are_absorbed(policy, outcomes, 0, last);
    assert(outcomes[last as int] is Retry);
    assert(!policy.limit.admits(last + 1));
}

/// Whatever the policy, an operation that succeeds at its first execution
/// is executed once, and the run returns its value without any wait.
pub proof fn first_success_ends_run<T, E>(
    policy: RetryPolicy,
    outcomes: Seq<RetryResult<T, E>>,
    value: T,
)
    requires
        outcomes.len() >= 1,
        outcomes[0] == RetryResult::<T, E>::Success(value),
    ensures
        run(policy, outcomes).executions == 1,
        run(policy, outcomes).result == Some(Ok::<T, E>(value)),
        run(policy, outcomes).waits.len() == 0,
{
}

/// Whatever the policy, an operation that aborts at its first execution is
/// executed once, and the run fails with the abort error without any wait.
pub proof fn first_abort_ends_run<T, E>(
    policy: RetryPolicy,
    outcomes: Seq<RetryResult<T, E>>,
    error: E,
)
    requires
        outcomes.len() >= 1,
        outcomes[0] == RetryResult::<T, E>::Abort(error),
    ensures
        run(policy, outcomes).executions == 1,
        run(policy, outcomes).result == Some(Err::<T, E>(error)),
        run(policy, outcomes).waits.len() == 0,
{
}

/// A policy without limit never gives up: if the operation asks for a retry
/// `failures` times and then succeeds, the run returns that value after
/// `failures + 1` executions, however large `failures` is.
pub proof fn unlimited_never_exhausts<T, E>(
    policy: RetryPolicy,
    outcomes: Seq<RetryResult<T, E>>,
    failures: nat,
    value: T,
)
    requires
        policy.limit == RetryLimit::Unlimited,
        outcomes.len() > failures,
        forall|i: int| 0 <= i < failures ==> (#[trigger] outcomes[i]) is Retry,
        outcomes[failures as int] == RetryResult::<T, E>::Success(value),
    ensures
        run(policy, outcomes).executions == failures + 1,
        run(policy, outcomes).result == Some(Ok::<T, E>(value)),
        run(policy, outcomes).waits.len() == failures,
{
    retries_in_budget_are_absorbed(policy, outcomes, 0, failures);
}

/// A policy without limit is still running, with no result, after any
/// number of transient failures.
pub proof fn unlimited_run_goes_on<T, E>(policy: RetryPolicy, outcomes: Seq<RetryResult<T, E>>)
    requires
        policy.limit == RetryLimit::Unlimited,
        forall|i: int| 0 <= i < outcomes.len() ==> (#[trigger] outcomes[i]) is Retry,
    ensures
        run(policy, outcomes).executions == outcomes.len(),
        run(policy, outcomes).result.is_none(),
{
    retries_in_budget_are_absorbed(policy, outcomes, 0, outcomes.len());
}

/// The driver never invents a result: a run that ended did so with the
/// plain result of the outcome of its last execution, which was a value, an
/// abort, or a transient failure that the limit no longer admitted.
pub proof fn result_is_last_outcome<T, E>(
    policy: RetryPolicy,
    outcomes: Seq<RetryResult<T, E>>,
    done: nat,
)
    requires
        run_from(policy, outcomes, done).result.is_some(),
    ensures
        done < run_from(policy, outcomes, done).executions <= outcomes.len(),
        run_from(policy, outcomes, done).result == Some(
            outcomes[run_from(policy, outcomes, done).executions - 1].as_result(),
        ),
        outcomes[run_from(policy, outcomes, done).executions - 1] is Retry
            ==> !policy.limit.admits(run_from(policy, outcomes, done).executions),
        forall|i: int|
            done <= i < run_from(policy, outcomes, done).executions - 1 ==> (
            #[trigger] outcomes[i]) is Retry,
    decreases outcomes.len() - done,
{
    if done < outcomes.len() {
        match classify(policy, done + 1, outcomes[done as int]) {
            Step::Done(_) => {},
            Step::Wait(_) => {
                result_is_last_outcome(policy, outcomes, done + 1);
            },
        }
    }
}

/// A finite limit bounds every run: under a limit of `n` attempts the
/// operation is executed at most `n` times, and once where `n` is zero,
/// whatever it returns.
pub proof fn limit_bounds_executions<T, E>(
    policy: RetryPolicy,
    outcomes: Seq<RetryResult<T, E>>,
    n: u64,
)
    requires
        policy.limit == RetryLimit::Limited(n),
    ensures
        run(policy, outcomes).executions <= n || run(policy, outcomes).executions <= 1,
{
    executions_stay_within(policy, outcomes, n, 0);
}

proof fn executions_stay_within<T, E>(
    policy: RetryPolicy,
    outcomes: Seq<RetryResult<T, E>>,
    n: u64,
    done: nat,
)
    requires
        policy.limit == RetryLimit::Limited(n),
        done == 0 || done < n,
    ensures
        run_from(policy, outcomes, done).executions <= n || run_from(
            policy,
            outcomes,
            done,
        ).executions <= 1,
    decreases outcomes.len() - done,
{
    if done < outcomes.len() {
        match classify(policy, done + 1, outcomes[done as int]) {
            Step::Done(_) => {},
            Step::Wait(_) => {
                executions_stay_within(policy, outcomes, n, done + 1);
            },
        }
    }
}

/// Every attempt but the one that ends the run is followed by one wait,
/// and the wait after attempt `k` is what the policy's backoff prescribes
/// for `k`.
pub proof fn waits_follow_backoff<T, E>(
    policy: RetryPolicy,
    outcomes: Seq<RetryResult<T, E>>,
    done: nat,
)
    ensures
        run_from(policy, outcomes, done).result.is_some() ==> run_from(
            policy,
            outcomes,
            done,
        ).waits.len() + 1 + done == run_from(policy, outcomes, done).executions,
        run_from(policy, outcomes, done).result.is_none() ==> run_from(
            policy,
            outcomes,
            done,
        ).waits.len() + done == run_from(policy, outcomes, done).executions,
        forall|j: int|
            0 <= j < run_from(policy, outcomes, done).waits.len() ==> (#[trigger] run_from(
                policy,
                outcomes,
                done,
            ).waits[j]) == policy.wait_after((done + j + 1) as nat),
    decreases outcomes.len() - done,
{
    if done < outcomes.len() {
        match classify(policy, done + 1, outcomes[done as int]) {
            Step::Done(_) => {},
            Step::Wait(millis) => {
                waits_follow_backoff(policy, outcomes, done + 1);
                let here = run_from(policy, outcomes, done);
                let rest = run_from(policy, outcomes, done + 1);
                assert(here.waits == seq![millis] + rest.waits);
                assert forall|j: int| 0 <= j < here.waits.len() implies (#[trigger] here.waits[j])
                    == policy.wait_after((done + j + 1) as nat) by {
                    if j > 0 {
                        assert(here.waits[j] == rest.waits[j - 1]);
                    }
                }
            },
        }
    }
}

} // verus!
