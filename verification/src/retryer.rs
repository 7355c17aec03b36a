//! The retry state machine: it counts attempts, classifies each outcome
//! and says whether the run is over or how long to wait before the next
//! attempt. Whoever drives it performs the attempts and the waits.

use crate::global::{get_default_policy, DefaultPolicyStore};
use crate::policy::{RetryLimit, RetryPolicy};
use crate::retry_result::RetryResult;
use crate::trace::{run, run_from};
use crate::util::OwnedOrRef;
use vstd::prelude::*;

verus! {

/// Where a runner stands.
#[derive(Debug, Clone, Copy, PartialEq, Eq, Structural)]
pub enum Phase {
    /// Made, not yet driven.
    Idle,
    /// Between the start of a run and its terminal outcome.
    Running,
    /// The run has reached its result.
    Done,
}

/// What the driver does after an outcome has been classified.
#[derive(Debug)]
pub enum Step<T, E> {
    /// The run is over, with this result.
    Done(Result<T, E>),
    /// Wait this many milliseconds, then make the next attempt.
    Wait(u64),
}

/// What replaying a record of outcomes came to.
#[derive(Debug)]
pub struct Replayed<T, E> {
    /// The result of the run; `None` where the record ended first.
    pub result: Option<Result<T, E>>,
    /// The waits between the attempts, in milliseconds, in order.
    pub waits: Vec<u64>,
}

/// What a run under `policy` does with the outcome of attempt number
/// `attempt`, counted from one.
///
/// A value ends the run with `Ok`, an abort ends it with `Err` at once. A
/// transient failure ends it with `Err` once the limit no longer admits
/// the attempt count; until then it asks for a wait.
pub open spec fn classify<T, E>(policy: RetryPolicy, attempt: nat, outcome: RetryResult<T, E>) -> Step<
    T,
    E,
> {
    match outcome {
        RetryResult::Success(v) => Step::Done(Ok(v)),
        RetryResult::Abort(e) => Step::Done(Err(e)),
        RetryResult::Retry(e) => if policy.limit.admits(attempt) {
            Step::Wait(policy.wait_after(attempt))
        } else {
            Step::Done(Err(e))
        },
    }
}

/// Drives one operation under one policy. It holds the policy, owned or
/// borrowed, and the number of attempts made in the current run.
pub struct Retryer<'a> {
    policy: OwnedOrRef<'a, RetryPolicy>,
    count: u64,
    phase: Phase,
}

impl<'a> Retryer<'a> {
    /// While a run is under way the limit still admits the attempts made.
    #[verifier::type_invariant]
    closed spec fn budget_left_while_running(self) -> bool {
        self.phase == Phase::Running ==> self.count == 0 || self.policy.value().limit.admits(
            self.count as nat,
        )
    }

    /// The policy in force.
    pub closed spec fn policy(self) -> RetryPolicy {
        self.policy.value()
    }

    /// The number of attempts made since the run began.
    pub closed spec fn attempts(self) -> nat {
        self.count as nat
    }

    /// Where the runner stands.
    pub closed spec fn phase(self) -> Phase {
        self.phase
    }

    /// True when the runner can take the outcome of one more attempt: a run
    /// is under way and the attempt counter has room. Under a finite limit
    /// the counter of a run under way always has room.
    pub open spec fn accepts_outcome(self) -> bool {
        &&& self.phase() == Phase::Running
        &&& self.policy().limit is Unlimited ==> self.attempts() < u64::MAX
    }

    /// An idle runner that owns its policy.
    pub fn new(policy: RetryPolicy) -> (retryer: Retryer<'a>)
        ensures
            retryer.policy() == policy,
            retryer.attempts() == 0,
            retryer.phase() == Phase::Idle,
    {
        Retryer { policy: OwnedOrRef::Owned(policy), count: 0, phase: Phase::Idle }
    }

    /// An idle runner that borrows a policy its caller means to use again.
    pub fn with_policy_ref(policy: &'a RetryPolicy) -> (retryer: Retryer<'a>)
        ensures
            retryer.policy() == *policy,
            retryer.attempts() == 0,
            retryer.phase() == Phase::Idle,
    {
        Retryer { policy: OwnedOrRef::Ref(policy), count: 0, phase: Phase::Idle }
    }

    /// An idle runner that owns a copy of the default policy that `store`
    /// holds at this moment. Later changes of the store do not reach it.
    pub fn with_default_policy(store: &DefaultPolicyStore) -> (retryer: Retryer<'a>)
        ensures
            retryer.policy() == store.held(),
            retryer.attempts() == 0,
            retryer.phase() == Phase::Idle,
    {
        Retryer::new(get_default_policy(store))
    }

    /// The policy in force.
    pub fn current_policy(&self) -> (policy: &RetryPolicy)
        ensures
            *policy == self.policy(),
    {
        self.policy.as_ref()
    }

    /// The number of attempts made since the run began.
    pub fn count(&self) -> (count: u64)
        ensures
            count == self.attempts(),
    {
        self.count
    }

    /// Tells whether a run is under way.
    pub fn is_running(&self) -> (running: bool)
        ensures
            running == (self.phase() == Phase::Running),
    {
        self.phase == Phase::Running
    }

    /// Tells whether the runner can take the outcome of one more attempt.
    pub fn can_accept_outcome(&self) -> (ready: bool)
        ensures
            ready == self.accepts_outcome(),
    {
        match self.policy.as_ref().limit {
            RetryLimit::Unlimited => self.phase == Phase::Running && self.count < u64::MAX,
            RetryLimit::Limited(_) => self.phase == Phase::Running,
        }
    }

    /// Replaces the policy of a runner that is not in the middle of a run.
    /// The runner owns the new policy.
    pub fn set_policy(&mut self, policy: RetryPolicy)
        requires
            old(self).phase() != Phase::Running,
        ensures
            final(self).policy() == policy,
            final(self).attempts() == old(self).attempts(),
            final(self).phase() == old(self).phase(),
    {
        self.policy = OwnedOrRef::Owned(policy);
    }

    /// Begins a run: the attempt counter goes back to zero, whatever an
    /// earlier run left behind.
    pub fn begin(&mut self)
        ensures
            final(self).policy() == old(self).policy(),
            final(self).attempts() == 0,
            final(self).phase() == Phase::Running,
    {
        self.count = 0;
        self.phase = Phase::Running;
    }

    /// Counts one attempt and classifies its outcome: the run is over with
    /// a result, or the driver waits and tries again.
    pub fn on_outcome<T, E>(&mut self, outcome: RetryResult<T, E>) -> (step: Step<T, E>)
        requires
            old(self).accepts_outcome(),
        ensures
            final(self).policy() == old(self).policy(),
            final(self).attempts() == old(self).attempts() + 1,
            step == classify(old(self).policy(), old(self).attempts() + 1, outcome),
            final(self).phase() == (if step is Wait {
                Phase::Running
            } else {
                Phase::Done
            }),
    {
        proof {
            use_type_invariant(&*self);
        }
        self.phase = Phase::Done;
        self.count = self.count + 1;
        match outcome {
            RetryResult::Success(v) => Step::Done(Ok(v)),
            RetryResult::Abort(e) => Step::Done(Err(e)),
            RetryResult::Retry(e) => {
                if self.policy.as_ref().can_retry(self.count) {
                    let millis = self.policy.as_ref().wait_time(self.count);
                    self.phase = Phase::Running;
                    Step::Wait(millis)
                } else {
                    Step::Done(Err(e))
                }
            },
        }
    }

    /// Drives a whole run over recorded outcomes, the first for the first
    /// attempt, without waiting: it returns what the run comes to and the
    /// waits it would have made. Outcomes after the one that ends the run
    /// are not looked at. Where the record ends before the run does, the
    /// runner is left running and the result is `None`.
    pub fn replay<T, E>(&mut self, outcomes: Vec<RetryResult<T, E>>) -> (replayed: Replayed<T, E>)
        ensures
            final(self).policy() == old(self).policy(),
            final(self).attempts() == run(old(self).policy(), outcomes@).executions,
            replayed.result == run(old(self).policy(), outcomes@).result,
            replayed.waits@ == run(old(self).policy(), outcomes@).waits,
            final(self).phase() == (if replayed.result is None {
                Phase::Running
            } else {
                Phase::Done
            }),
    {
        let ghost policy = self.policy();
        let ghost script = outcomes@;
        assert(script.len() == outcomes.len());
        let mut result: Option<Result<T, E>> = None;
        let mut waits: Vec<u64> = Vec::new();
        self.begin();
        for outcome in it: outcomes
            invariant
                it.seq() == script,
                script.len() <= usize::MAX,
                self.policy() == policy,
                result is None ==> {
                    &&& self.phase() == Phase::Running
                    &&& self.attempts() == it.index()
                    &&& run(policy, script).executions == run_from(
                        policy,
                        script,
                        it.index() as nat,
                    ).executions
                    &&& run(policy, script).result == run_from(
                        policy,
                        script,
                        it.index() as nat,
                    ).result
                    &&& run(policy, script).waits == waits@ + run_from(
                        policy,
                        script,
                        it.index() as nat,
                    ).waits
                },
                result is Some ==> {
                    &&& self.phase() == Phase::Done
                    &&& self.attempts() == run(policy, script).executions
                    &&& result == run(policy, script).result
                    &&& waits@ == run(policy, script).waits
                },
        {
            if result.is_none() {
                let ghost before = waits@;
                let ghost rest = run_from(policy, script, (it.index() + 1) as nat).waits;
                match self.on_outcome(outcome) {
                    Step::Done(r) => {
                        result = Some(r);
                        assert(before + Seq::<u64>::empty() == before);
                    },
                    Step::Wait(millis) => {
                        waits.push(millis);
                        assert(before + (seq![millis] + rest) == before.push(millis) + rest);
                    },
                }
            }
        }
        proof {
            if result is None {
                assert(waits@ + Seq::<u64>::empty() == waits@);
            }
        }
        Replayed { result, waits }
    }
}

} // verus!
