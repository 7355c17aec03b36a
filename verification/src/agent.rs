//! An operation that fails on purpose, to exercise a retry run: it counts
//! its executions and succeeds or fails by a chosen behaviour.

use rand::Rng;
use vstd::prelude::*;

verus! {

/// The number that an execution hands back, in its success or its failure.
#[derive(Clone, Copy, Debug)]
pub struct SignalValue(Option<i32>);

impl SignalValue {
    /// The number inside, if any.
    pub closed spec fn value(self) -> Option<i32> {
        self.0
    }

    pub fn from(value: i32) -> (signal: Self)
        ensures
            signal.value() == Some(value),
    {
        SignalValue(Some(value))
    }

    pub fn get(&self) -> (value: Option<i32>)
        ensures
            value == self.value(),
    {
        self.0
    }
}

pub type FallibleResult = Result<SignalValue, SignalValue>;

/// How an agent decides whether an execution succeeds. `count` below is
/// the number of the execution, counted from one.
#[derive(Clone, Debug)]
pub enum FallibleBehaviour<F> {
    AlwaysSucceed,
    AlwaysFail,
    /// Succeeds while `count` is below the number, fails from then on.
    FailAfter(u64),
    /// Fails while `count` is below the number, succeeds from then on.
    SucceedAfter(u64),
    /// Draws a number from 1 to `i32::MAX` and succeeds when the function
    /// accepts it.
    RandomisedSuccess(F),
}

/// An operation that counts its executions and fails by design.
#[derive(Clone, Debug)]
pub struct FallibleAgent<F> {
    pub behaviour: FallibleBehaviour<F>,
    count: u64,
}

/// The generator type of `rand`, `rand::rngs::ThreadRng`: a handle to the
/// thread's random number generator. Nothing is known of what it holds.
#[verifier::external_type_specification]
#[verifier::external_body]
pub struct ExThreadRng(rand::rngs::ThreadRng);

/// Calls `rand::rng()`, which hands out the thread's generator. Nothing is
/// claimed of it. The call panics only where the system gives the
/// generator no seed when the thread first asks for it.
#[verifier::external_body]
fn thread_generator() -> (rng: rand::rngs::ThreadRng) {
    rand::rng()
}

/// Calls `Rng::random_range` on the generator with the range
/// `low..=high`. The contract claims only what the range promises: the
/// number lies between the two bounds, both included. An empty range, on
/// which `random_range` panics, is left out.
#[verifier::external_body]
fn draw_between(rng: &mut rand::rngs::ThreadRng, low: i32, high: i32) -> (n: i32)
    requires
        low <= high,
    ensures
        low <= n <= high,
{
    rng.random_range(low..=high)
}

/// A number from 1 to `i32::MAX`, drawn from the thread's generator.
fn generate_random_number() -> (n: i32)
    ensures
        n >= 1,
{
    let mut rng = thread_generator();
    draw_between(&mut rng, 1, i32::MAX)
}

/// The number that the execution numbered `count` reports: the count,
/// cut to 32 bits.
pub open spec fn signal_of(count: u64) -> i32 {
    count as i32
}

impl<F: Fn(i32) -> bool> FallibleAgent<F> {
    /// The number of executions so far.
    pub closed spec fn executions(self) -> u64 {
        self.count
    }

    /// The behaviour that the agent follows.
    pub closed spec fn chosen(self) -> FallibleBehaviour<F> {
        self.behaviour
    }

    /// True when the agent can be executed whatever number is drawn: a
    /// random behaviour's function takes every number from 1 up.
    pub open spec fn accepts_every_draw(self) -> bool {
        self.chosen() matches FallibleBehaviour::RandomisedSuccess(accept) ==> forall|n: i32|
            n >= 1 ==> call_requires(accept, (n,))
    }

    /// Whether an execution numbered `count` succeeds under a behaviour
    /// that draws no number.
    pub open spec fn succeeds_at(behaviour: FallibleBehaviour<F>, count: u64) -> bool
        recommends
            !(behaviour is RandomisedSuccess),
    {
        match behaviour {
            FallibleBehaviour::AlwaysSucceed => true,
            FallibleBehaviour::AlwaysFail => false,
            FallibleBehaviour::FailAfter(n) => count < n,
            FallibleBehaviour::SucceedAfter(n) => count >= n,
            FallibleBehaviour::RandomisedSuccess(_) => false,
        }
    }

    /// True when `result` is what a behaviour that draws no number returns
    /// at the execution numbered `count`: a success or a failure as the
    /// behaviour decides, holding the count.
    pub open spec fn scripted(
        behaviour: FallibleBehaviour<F>,
        count: u64,
        result: FallibleResult,
    ) -> bool
        recommends
            !(behaviour is RandomisedSuccess),
    {
        match result {
            Ok(signal) => Self::succeeds_at(behaviour, count) && signal.value() == Some(
                signal_of(count),
            ),
            Err(signal) => !Self::succeeds_at(behaviour, count) && signal.value() == Some(
                signal_of(count),
            ),
        }
    }

    /// True when `result` is what a random behaviour may return: it holds
    /// a number from 1 up, as a success if `accept` took the number and as
    /// a failure if it did not.
    pub open spec fn drawn(accept: F, result: FallibleResult) -> bool {
        match result {
            Ok(signal) => signal.value() matches Some(n) && n >= 1 && call_ensures(
                accept,
                (n,),
                true,
            ),
            Err(signal) => signal.value() matches Some(n) && n >= 1 && call_ensures(
                accept,
                (n,),
                false,
            ),
        }
    }

    /// What the agent may return at the execution numbered `count`.
    pub open spec fn may_return(self, count: u64, result: FallibleResult) -> bool {
        match self.chosen() {
            FallibleBehaviour::RandomisedSuccess(accept) => Self::drawn(accept, result),
            _ => Self::scripted(self.chosen(), count, result),
        }
    }

    pub fn count(&self) -> (count: u64)
        ensures
            count == self.executions(),
    {
        self.count
    }

    /// An agent that has not been executed yet.
    pub fn new(behaviour: FallibleBehaviour<F>) -> (agent: Self)
        ensures
            agent.chosen() == behaviour,
            agent.executions() == 0,
    {
        FallibleAgent { behaviour, count: 0 }
    }

    /// Counts one execution and returns what the behaviour decides.
    pub fn execute(&mut self) -> (result: FallibleResult)
        requires
            old(self).executions() < u64::MAX,
            old(self).accepts_every_draw(),
        ensures
            final(self).chosen() == old(self).chosen(),
            final(self).executions() == old(self).executions() + 1,
            old(self).may_return(final(self).executions(), result),
    {
        self.count += 1;
        self.exec()
    }

    /// Returns what the behaviour decides for the current count, without
    /// counting an execution.
    pub fn exec(&mut self) -> (result: FallibleResult)
        requires
            old(self).accepts_every_draw(),
        ensures
            *final(self) == *old(self),
            old(self).may_return(old(self).executions(), result),
    {
        match &self.behaviour {
            FallibleBehaviour::AlwaysSucceed => Ok(SignalValue::from(cut_to_i32(self.count))),
            FallibleBehaviour::AlwaysFail => Err(SignalValue::from(cut_to_i32(self.count))),
            FallibleBehaviour::FailAfter(n) => {
                if self.count < *n {
                    Ok(SignalValue::from(cut_to_i32(self.count)))
                } else {
                    Err(SignalValue::from(cut_to_i32(self.count)))
                }
            },
            FallibleBehaviour::SucceedAfter(n) => {
                if self.count < *n {
                    Err(SignalValue::from(cut_to_i32(self.count)))
                } else {
                    Ok(SignalValue::from(cut_to_i32(self.count)))
                }
            },
            FallibleBehaviour::RandomisedSuccess(accept) => {
                let random_number = generate_random_number();
                if accept(random_number) {
                    Ok(SignalValue::from(random_number))
                } else {
                    Err(SignalValue::from(random_number))
                }
            },
        }
    }
}

/// The count cut to its low 32 bits, read as a signed number.
fn cut_to_i32(count: u64) -> (n: i32)
    ensures
        n == signal_of(count),
{
    #[verifier::truncate]
    (count as i32)
}

} // verus!
