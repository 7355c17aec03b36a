use retry_rs::backoff::BackoffPolicy;
use retry_rs::global::{
    get_default_policy, reset_default_policy, set_default_policy, DefaultPolicyStore,
};
use retry_rs::policy::{RetryLimit, RetryPolicy};
use retry_rs::retry_result::RetryResult;
use retry_rs::retryer::{Retryer, Step};

fn executions_until_success(policy: RetryPolicy, failures: u64) -> (bool, u64, Vec<u64>) {
    let mut executions = 0u64;
    let mut waits = Vec::new();
    let mut retryer = Retryer::new(policy);
    retryer.begin();
    loop {
        executions += 1;
        let outcome: RetryResult<(), ()> =
            if executions < failures { RetryResult::Retry(()) } else { RetryResult::Success(()) };
        match retryer.on_outcome(outcome) {
            Step::Done(result) => return (result.is_ok(), executions, waits),
            Step::Wait(millis) => waits.push(millis),
        }
    }
}

#[test]
fn store_starts_with_the_built_in_default() {
    let store = DefaultPolicyStore::new();
    let policy = get_default_policy(&store);
    assert_eq!(policy.limit, RetryLimit::Unlimited);
    assert_eq!(policy.base_delay, 1000);
    assert_eq!(policy.delay_time, BackoffPolicy::Constant);
}

#[test]
fn prepared_functions_use_global_default_policy() {
    let mut store = DefaultPolicyStore::new();
    let policy = RetryPolicy::builder()
        .limit(RetryLimit::Limited(50))
        .backoff_policy(BackoffPolicy::Constant)
        .base_delay(1)
        .build_with_defaults();
    set_default_policy(&mut store, policy);

    let observed = get_default_policy(&store);
    assert_eq!(observed.limit, RetryLimit::Limited(50));
    assert_eq!(observed.base_delay, 1);
    let (ok, count, waits) = executions_until_success(observed, 50);
    assert!(ok);
    assert_eq!(count, 50);
    assert_eq!(waits, vec![1u64; 49]);

    reset_default_policy(&mut store);

    let observed = get_default_policy(&store);
    assert_eq!(observed.limit, RetryLimit::Unlimited);
    assert_eq!(observed.base_delay, 1000);
    assert_eq!(observed.delay_time, BackoffPolicy::Constant);
    let (ok, count, waits) = executions_until_success(observed, 5);
    assert!(ok);
    assert_eq!(count, 5);
    assert_eq!(waits, vec![1000u64; 4]);
}

#[test]
fn last_set_wins() {
    let mut store = DefaultPolicyStore::new();
    let first = RetryPolicy { limit: RetryLimit::Limited(1), base_delay: 1, delay_time: BackoffPolicy::Linear };
    let second = RetryPolicy { limit: RetryLimit::Limited(2), base_delay: 2, delay_time: BackoffPolicy::Exponential };
    set_default_policy(&mut store, first);
    set_default_policy(&mut store, second);
    let held = get_default_policy(&store);
    assert_eq!(held.limit, RetryLimit::Limited(2));
    assert_eq!(held.base_delay, 2);
    assert_eq!(held.delay_time, BackoffPolicy::Exponential);
}

#[test]
fn a_copy_outlives_later_changes() {
    let mut store = DefaultPolicyStore::new();
    let before = get_default_policy(&store);
    set_default_policy(
        &mut store,
        RetryPolicy { limit: RetryLimit::Limited(3), base_delay: 9, delay_time: BackoffPolicy::Linear },
    );
    assert_eq!(before.limit, RetryLimit::Unlimited);
    assert_eq!(before.base_delay, 1000);
}

#[test]
fn runner_made_from_the_store_keeps_its_copy() {
    let mut store = DefaultPolicyStore::new();
    let policy_a =
        RetryPolicy { limit: RetryLimit::Limited(3), base_delay: 9, delay_time: BackoffPolicy::Linear };
    set_default_policy(&mut store, policy_a);
    let mut retryer = Retryer::with_default_policy(&store);
    reset_default_policy(&mut store);
    assert_eq!(retryer.current_policy().limit, RetryLimit::Limited(3));
    assert_eq!(retryer.current_policy().base_delay, 9);
    assert_eq!(retryer.current_policy().delay_time, BackoffPolicy::Linear);
    let replayed = retryer.replay(vec![
        RetryResult::<(), u8>::Retry(1),
        RetryResult::Retry(2),
        RetryResult::Retry(3),
        RetryResult::Retry(4),
    ]);
    assert_eq!(replayed.result, Some(Err(3)));
    assert_eq!(replayed.waits, vec![9, 18]);
    let fresh = Retryer::with_default_policy(&store);
    assert_eq!(fresh.current_policy().limit, RetryLimit::Unlimited);
    assert_eq!(fresh.current_policy().base_delay, 1000);
}
