use retry_rs::agent::{FallibleAgent, FallibleBehaviour};
use retry_rs::backoff::BackoffPolicy;
use retry_rs::policy::{RetryLimit, RetryPolicy, RetryPolicyBuilder};
use retry_rs::retry_result::RetryResult;
use retry_rs::retryer::{Phase, Retryer, Step};
use retry_rs::{abort, retry, success};

type Accept = fn(i32) -> bool;

/// Drives a run to its end as a program would, recording the waits in place
/// of sleeping.
fn drive<T, E>(
    retryer: &mut Retryer,
    mut operation: impl FnMut() -> RetryResult<T, E>,
) -> (Result<T, E>, Vec<u64>) {
    let mut waits = Vec::new();
    retryer.begin();
    loop {
        assert!(retryer.can_accept_outcome());
        match retryer.on_outcome(operation()) {
            Step::Done(result) => return (result, waits),
            Step::Wait(millis) => waits.push(millis),
        }
    }
}

fn limited(limit: u64, base_delay: u64, shape: BackoffPolicy) -> RetryPolicy {
    RetryPolicyBuilder::new()
        .limit(RetryLimit::Limited(limit))
        .backoff_policy(shape)
        .base_delay(base_delay)
        .build()
}

fn agent(behaviour: FallibleBehaviour<Accept>) -> FallibleAgent<Accept> {
    FallibleAgent::new(behaviour)
}

fn as_outcome(result: Result<retry_rs::agent::SignalValue, retry_rs::agent::SignalValue>) -> RetryResult<u32, u32> {
    match result {
        Ok(val) => RetryResult::Success(val.get().unwrap() as u32),
        Err(val) => RetryResult::Retry(val.get().unwrap() as u32),
    }
}

#[test]
fn lib_agent_fails() {
    let mut agent = agent(FallibleBehaviour::AlwaysFail);
    let policy = limited(5, 100, BackoffPolicy::Linear);
    let mut retryer = Retryer::new(policy);
    let (res, waits) = drive(&mut retryer, || as_outcome(agent.execute()));
    assert!(res.is_err());
    assert_eq!(res, Err(5));
    assert_eq!(agent.count(), 5);
    assert_eq!(waits, vec![100, 200, 300, 400]);
}

#[test]
fn lib_agent_succeeds_after_5() {
    let mut agent = agent(FallibleBehaviour::SucceedAfter(5));
    let policy = limited(5, 100, BackoffPolicy::Linear);
    let mut retryer = Retryer::new(policy);
    let (res, _) = drive(&mut retryer, || as_outcome(agent.execute()));
    let c = agent.count();
    assert!(res.is_ok());
    assert_eq!(c, 5);
    assert_eq!(retryer.count(), 5);
}

#[test]
fn lib_prepared_function() {
    let mut agent = agent(FallibleBehaviour::AlwaysSucceed);
    let mut retryer = Retryer::new(RetryPolicy::default());
    let (res, waits) = drive(&mut retryer, || as_outcome(agent.execute()));
    assert!(res.is_ok());
    assert!(waits.is_empty());
}

#[test]
fn runs_only_specified_number() {
    let mut agent = agent(FallibleBehaviour::AlwaysFail);
    let mut retryer = Retryer::new(limited(1, 1, BackoffPolicy::Constant));
    let (res, waits) = drive(&mut retryer, || {
        let _ = agent.execute();
        RetryResult::<(), ()>::Retry(())
    });
    assert!(res.is_err());
    assert_eq!(agent.count(), 1);
    assert!(waits.is_empty());
}

#[test]
fn runs_only_specified_number_again() {
    let mut agent = agent(FallibleBehaviour::AlwaysFail);
    let mut retryer = Retryer::new(limited(100, 1, BackoffPolicy::Constant));
    let (res, waits) = drive(&mut retryer, || match agent.execute() {
        Ok(_) => RetryResult::<(), ()>::Success(()),
        Err(_) => RetryResult::Retry(()),
    });
    assert!(res.is_err());
    assert_eq!(agent.count(), 100);
    assert_eq!(waits, vec![1u64; 99]);
}

#[test]
fn wont_run_multiple_times_on_success() {
    let mut agent = agent(FallibleBehaviour::AlwaysSucceed);
    let mut retryer = Retryer::new(limited(2, 15, BackoffPolicy::Constant));
    let (res, _) = drive(&mut retryer, || match agent.execute() {
        Ok(_) => RetryResult::<(), ()>::Success(()),
        Err(_) => RetryResult::Retry(()),
    });
    assert!(res.is_ok());
    assert_eq!(agent.count(), 1);
}

#[test]
fn async_closure_testing() {
    let policy = limited(20, 15, BackoffPolicy::Constant);
    let mut agent = agent(FallibleBehaviour::SucceedAfter(15));
    let mut retryer = Retryer::with_policy_ref(&policy);
    let (res, waits) = drive(&mut retryer, || match agent.execute() {
        Ok(_v) => RetryResult::<(), ()>::Success(()),
        Err(_e) => RetryResult::Retry(()),
    });
    let count = agent.count();
    assert!(res.is_ok());
    assert_eq!(count, 15);
    assert_eq!(waits, vec![15u64; 14]);
}

#[test]
fn retry_directly_on_closure_with_policy() {
    let policy = limited(4, 1, BackoffPolicy::Constant);
    let mut agent = agent(FallibleBehaviour::SucceedAfter(4));
    let mut retryer = Retryer::with_policy_ref(&policy);
    let (res, _) = drive(&mut retryer, || match agent.execute() {
        Ok(_v) => RetryResult::<(), ()>::Success(()),
        Err(_e) => RetryResult::Retry(()),
    });
    assert!(res.is_ok());
    assert_eq!(agent.count(), 4);
}

#[test]
fn limited_policy_runs_exactly_limit_times_and_keeps_last_error() {
    for n in 1u64..=12 {
        let mut executions = 0u64;
        let mut retryer = Retryer::new(limited(n, 1, BackoffPolicy::Constant));
        let (res, waits) = drive(&mut retryer, || {
            executions += 1;
            retry::<(), u64>(executions * 10)
        });
        assert_eq!(res, Err(n * 10));
        assert_eq!(executions, n);
        assert_eq!(retryer.count(), n);
        assert_eq!(waits.len() as u64, n - 1);
    }
}

#[test]
fn limit_of_zero_still_makes_one_attempt() {
    let mut executions = 0u64;
    let mut retryer = Retryer::new(limited(0, 1, BackoffPolicy::Constant));
    let (res, waits) = drive(&mut retryer, || {
        executions += 1;
        retry::<(), u64>(executions)
    });
    assert_eq!(res, Err(1));
    assert_eq!(executions, 1);
    assert!(waits.is_empty());
}

#[test]
fn first_success_means_one_execution() {
    for limit in [RetryLimit::Unlimited, RetryLimit::Limited(0), RetryLimit::Limited(1), RetryLimit::Limited(7)] {
        let policy = RetryPolicy::builder().limit(limit).build_with_defaults();
        let mut executions = 0u64;
        let mut retryer = Retryer::new(policy);
        let (res, waits) = drive(&mut retryer, || {
            executions += 1;
            success::<&str, &str>("value")
        });
        assert_eq!(res, Ok("value"));
        assert_eq!(executions, 1);
        assert!(waits.is_empty());
        assert!(!retryer.is_running());
    }
}

#[test]
fn first_abort_means_one_execution_and_no_wait() {
    for limit in [RetryLimit::Unlimited, RetryLimit::Limited(0), RetryLimit::Limited(1), RetryLimit::Limited(7)] {
        let policy = RetryPolicy::builder().limit(limit).build_with_defaults();
        let mut executions = 0u64;
        let mut retryer = Retryer::new(policy);
        let (res, waits) = drive(&mut retryer, || {
            executions += 1;
            abort::<&str, &str>("fatal")
        });
        assert_eq!(res, Err("fatal"));
        assert_eq!(executions, 1);
        assert!(waits.is_empty());
    }
}

#[test]
fn abort_after_retries_stops_at_once() {
    let mut executions = 0u64;
    let mut retryer = Retryer::new(limited(10, 2, BackoffPolicy::Exponential));
    let (res, waits) = drive(&mut retryer, || {
        executions += 1;
        if executions < 4 {
            retry::<(), u64>(executions)
        } else {
            abort(executions + 100)
        }
    });
    assert_eq!(res, Err(104));
    assert_eq!(executions, 4);
    assert_eq!(waits, vec![2, 4, 8]);
}

#[test]
fn unlimited_policy_never_exhausts() {
    let policy = RetryPolicy::builder().base_delay(0).build_with_defaults();
    let mut executions = 0u64;
    let mut retryer = Retryer::new(policy);
    let (res, waits) = drive(&mut retryer, || {
        executions += 1;
        if executions <= 100_000 {
            retry::<u64, ()>(())
        } else {
            success(executions)
        }
    });
    assert_eq!(res, Ok(100_001));
    assert_eq!(executions, 100_001);
    assert_eq!(waits.len(), 100_000);
}

#[test]
fn succeeds_on_fifth_of_five() {
    let mut executions = 0u64;
    let mut retryer = Retryer::new(limited(5, 1, BackoffPolicy::Constant));
    let (res, waits) = drive(&mut retryer, || {
        executions += 1;
        if executions <= 4 {
            retry::<&str, &str>("busy")
        } else {
            success("done")
        }
    });
    assert_eq!(res, Ok("done"));
    assert_eq!(executions, 5);
    assert_eq!(waits, vec![1, 1, 1, 1]);
}

#[test]
fn limit_of_one_means_one_execution() {
    let mut executions = 0u64;
    let mut retryer = Retryer::new(limited(1, 1, BackoffPolicy::Constant));
    let (res, _) = drive(&mut retryer, || {
        executions += 1;
        retry::<(), &str>("again")
    });
    assert_eq!(res, Err("again"));
    assert_eq!(executions, 1);
}

#[test]
fn waits_follow_the_backoff_shape() {
    for (shape, expected) in [
        (BackoffPolicy::Constant, vec![10u64, 10, 10, 10]),
        (BackoffPolicy::Linear, vec![10, 20, 30, 40]),
        (BackoffPolicy::Exponential, vec![10, 20, 40, 80]),
    ] {
        let mut retryer = Retryer::new(limited(5, 10, shape));
        let (res, waits) = drive(&mut retryer, || retry::<(), ()>(()));
        assert!(res.is_err());
        assert_eq!(waits, expected);
    }
}

#[test]
fn on_outcome_counts_and_classifies() {
    let mut retryer = Retryer::new(limited(2, 7, BackoffPolicy::Linear));
    assert_eq!(retryer.count(), 0);
    assert!(!retryer.is_running());
    assert!(!retryer.can_accept_outcome());
    retryer.begin();
    assert!(retryer.is_running());
    match retryer.on_outcome(retry::<u8, &str>("first")) {
        Step::Wait(millis) => assert_eq!(millis, 7),
        Step::Done(_) => panic!("the run ended with budget left"),
    }
    assert_eq!(retryer.count(), 1);
    assert!(retryer.is_running());
    match retryer.on_outcome(retry::<u8, &str>("second")) {
        Step::Done(result) => assert_eq!(result, Err("second")),
        Step::Wait(_) => panic!("the run went on beyond its limit"),
    }
    assert_eq!(retryer.count(), 2);
    assert!(!retryer.is_running());
    assert!(!retryer.can_accept_outcome());
}

#[test]
fn begin_resets_the_count() {
    let mut retryer = Retryer::new(limited(3, 1, BackoffPolicy::Constant));
    let (res, _) = drive(&mut retryer, || retry::<(), ()>(()));
    assert!(res.is_err());
    assert_eq!(retryer.count(), 3);
    retryer.begin();
    assert_eq!(retryer.count(), 0);
    let (res, _) = drive(&mut retryer, || success::<u8, ()>(1));
    assert_eq!(res, Ok(1));
    assert_eq!(retryer.count(), 1);
}

#[test]
fn set_policy_before_the_run_takes_effect() {
    let mut retryer = Retryer::new(RetryPolicy::default());
    retryer.set_policy(RetryPolicy {
        limit: RetryLimit::Limited(10),
        base_delay: 500,
        delay_time: BackoffPolicy::Constant,
    });
    let (res, waits) = drive(&mut retryer, || retry::<String, String>("intermittent error".to_string()));
    assert_eq!(res, Err("intermittent error".to_string()));
    assert_eq!(retryer.count(), 10);
    assert_eq!(waits, vec![500u64; 9]);
}

#[test]
fn borrowed_policy_serves_many_runs() {
    let policy = limited(3, 1, BackoffPolicy::Constant);
    for _ in 0..3 {
        let mut retryer = Retryer::with_policy_ref(&policy);
        let (res, _) = drive(&mut retryer, || retry::<(), u8>(9));
        assert_eq!(res, Err(9));
        assert_eq!(retryer.count(), 3);
    }
    assert_eq!(policy.limit, RetryLimit::Limited(3));
}

#[test]
fn replay_gives_result_and_waits() {
    let mut retryer = Retryer::new(limited(3, 5, BackoffPolicy::Exponential));
    let replayed = retryer.replay(vec![
        retry::<u8, &str>("a"),
        retry("b"),
        retry("c"),
        success(1),
    ]);
    assert_eq!(replayed.result, Some(Err("c")));
    assert_eq!(replayed.waits, vec![5, 10]);
    assert_eq!(retryer.count(), 3);
    assert!(!retryer.is_running());
}

#[test]
fn replay_stops_at_the_first_terminal_outcome() {
    let mut retryer = Retryer::new(RetryPolicy::default());
    let replayed = retryer.replay(vec![
        retry::<u8, &str>("a"),
        success(7),
        abort("never seen"),
    ]);
    assert_eq!(replayed.result, Some(Ok(7)));
    assert_eq!(replayed.waits, vec![1000]);
    assert_eq!(retryer.count(), 2);
}

#[test]
fn replay_of_a_short_record_is_still_running() {
    let mut retryer = Retryer::new(RetryPolicy::default());
    let replayed = retryer.replay(vec![retry::<u8, &str>("a"), retry("b")]);
    assert_eq!(replayed.result, None);
    assert_eq!(replayed.waits, vec![1000, 1000]);
    assert_eq!(retryer.count(), 2);
    assert!(retryer.is_running());
    let replayed = retryer.replay(Vec::<RetryResult<u8, &str>>::new());
    assert_eq!(replayed.result, None);
    assert_eq!(retryer.count(), 0);
}

#[test]
fn outcome_collapses_to_result() {
    assert_eq!(Result::<u8, &str>::from(success(3)), Ok(3));
    assert_eq!(Result::<u8, &str>::from(retry("later")), Err("later"));
    assert_eq!(Result::<u8, &str>::from(abort("never")), Err("never"));
    assert!(success::<u8, ()>(1).is_success());
    assert!(retry::<u8, ()>(()).is_retry());
    assert!(abort::<u8, ()>(()).is_abort());
    assert!(!abort::<u8, ()>(()).is_retry());
}

#[test]
fn phase_names_are_distinct() {
    assert_ne!(Phase::Idle, Phase::Running);
    assert_ne!(Phase::Running, Phase::Done);
}
