use threadpool::stop_token::{
    job_should_cancel, job_should_continue, joint_verdict, negate, ExecutionResult,
    JointStopToken, RunningCancelable, StopToken,
};

#[test]
fn fresh_token_is_not_canceled() {
    let t = StopToken::new();
    assert!(!t.should_cancel());
    assert!(t.should_continue());
    let d = StopToken::default();
    assert!(!d.should_cancel());
}

#[test]
fn cancel_is_seen_and_stays() {
    let t = StopToken::new();
    t.cancel();
    assert!(t.should_cancel());
    assert!(!t.should_continue());
    t.cancel();
    assert!(t.should_cancel());
    assert!(t.should_cancel());
}

#[test]
fn clones_share_the_flag() {
    let t = StopToken::new();
    let c = t.clone();
    assert!(!c.should_cancel());
    t.cancel();
    assert!(c.should_cancel());
    let d = c.clone();
    assert!(d.should_cancel());
}

#[test]
fn canceling_one_token_leaves_the_others() {
    let a = StopToken::new();
    let b = StopToken::new();
    let pool = StopToken::new();
    a.cancel();
    assert!(a.should_cancel());
    assert!(!b.should_cancel());
    assert!(!pool.should_cancel());
    assert!(JointStopToken::new(&pool, &a).should_cancel());
    assert!(!JointStopToken::new(&pool, &b).should_cancel());
    assert!(JointStopToken::new(&pool, &b).should_continue());
}

#[test]
fn joint_token_sees_either_flag() {
    let pool = StopToken::new();
    let job = StopToken::new();
    let joint = JointStopToken::new(&pool, &job);
    assert!(!joint.should_cancel());
    assert!(joint.should_continue());
    job.cancel();
    assert!(joint.should_cancel());
    assert!(!joint.should_continue());

    let pool = StopToken::new();
    let job = StopToken::new();
    let joint = JointStopToken::new(&pool, &job);
    pool.cancel();
    assert!(joint.should_cancel());
    assert!(!job.should_cancel());
}

#[test]
fn joint_verdict_is_or() {
    assert!(!joint_verdict(false, None));
    assert!(!joint_verdict(false, Some(false)));
    assert!(joint_verdict(false, Some(true)));
    assert!(joint_verdict(true, None));
    assert!(joint_verdict(true, Some(false)));
    assert!(joint_verdict(true, Some(true)));
    assert!(negate(false));
    assert!(!negate(true));
}

#[test]
fn job_should_cancel_without_own_token_follows_pool() {
    let pool = StopToken::new();
    assert!(!job_should_cancel(&pool, None));
    assert!(job_should_continue(&pool, None));
    pool.cancel();
    assert!(job_should_cancel(&pool, None));
    assert!(!job_should_continue(&pool, None));
}

#[test]
fn job_should_cancel_with_own_token() {
    let pool = StopToken::new();
    let job = StopToken::new();
    assert!(!job_should_cancel(&pool, Some(&job)));
    job.cancel();
    assert!(job_should_cancel(&pool, Some(&job)));
    assert!(!job_should_continue(&pool, Some(&job)));
    assert!(!job_should_cancel(&pool, None));
}

#[test]
fn execution_result_accessors() {
    let c: ExecutionResult<u8> = ExecutionResult::Canceled;
    assert!(c.is_canceled());
    assert_eq!(c.returned(), None);
    let r = ExecutionResult::Returned(5u8);
    assert!(!r.is_canceled());
    assert_eq!(r.returned(), Some(5));
    assert_ne!(ExecutionResult::Returned(1u8), ExecutionResult::Canceled);
}

#[test]
fn running_cancelable_set_and_clear() {
    let mut r = RunningCancelable::No;
    assert!(r.is_not_canceled());
    assert!(!r.is_canceled());
    let t = StopToken::new();
    assert_eq!(r.set(Some(t.clone())), Ok(()));
    assert!(matches!(r, RunningCancelable::Yes(_)));
    assert_eq!(r.clear(), Ok(()));
    assert!(matches!(r, RunningCancelable::No));
    assert_eq!(r.set(None), Ok(()));
    assert!(matches!(r, RunningCancelable::No));
    assert!(!t.should_cancel());
}

#[test]
fn running_cancelable_cancel_sets_the_running_token() {
    let mut r = RunningCancelable::No;
    let t = StopToken::new();
    assert_eq!(r.set(Some(t.clone())), Ok(()));
    r.cancel();
    assert!(r.is_canceled());
    assert!(!r.is_not_canceled());
    assert!(t.should_cancel());
}

#[test]
fn running_cancelable_canceled_is_final() {
    let mut r = RunningCancelable::No;
    r.cancel();
    assert!(r.is_canceled());
    let t = StopToken::new();
    assert_eq!(r.set(Some(t.clone())), Err(()));
    assert!(r.is_canceled());
    assert_eq!(r.set(None), Err(()));
    assert_eq!(r.clear(), Err(()));
    assert!(r.is_canceled());
    r.cancel();
    assert!(r.is_canceled());
    assert!(!t.should_cancel());
}
