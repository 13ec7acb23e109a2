use threadpool::policy::{Cancelable, CancelationPolicy, Uncacelable};
use threadpool::promise::{resolve, Completion, Promise};
use threadpool::stop_token::StopToken;

#[test]
fn wait_returns_what_was_sent() {
    let (tx, rx) = oneshot::channel::<Result<u32, String>>();
    let promise = Promise::new(Uncacelable, rx);
    tx.send(Ok(42)).unwrap();
    assert_eq!(promise.wait(), Completion::Returned(42));
}

#[test]
fn wait_hands_over_the_panic_payload() {
    let (tx, rx) = oneshot::channel::<Result<u32, String>>();
    let promise = Promise::new(Uncacelable, rx);
    tx.send(Err("boom".to_string())).unwrap();
    assert_eq!(promise.wait(), Completion::Panicked("boom".to_string()));
}

#[test]
fn dropped_sender_gives_no_result() {
    let (tx, rx) = oneshot::channel::<Result<u32, String>>();
    let promise = Promise::new(Uncacelable, rx);
    drop(tx);
    assert_eq!(promise.wait(), Completion::NoResult);
}

#[test]
fn cancel_sets_the_job_token_then_waits() {
    let (tx, rx) = oneshot::channel::<Result<u32, String>>();
    let marker = Cancelable::default();
    let job_token = marker.token().unwrap();
    let other = StopToken::new();
    assert!(!job_token.should_cancel());
    let promise = Promise::new(marker, rx);
    tx.send(Ok(1)).unwrap();
    assert_eq!(promise.cancel(), Completion::Returned(1));
    assert!(job_token.should_cancel());
    assert!(!other.should_cancel());
}

#[test]
fn dropped_handle_makes_send_fail_quietly() {
    let (tx, rx) = oneshot::channel::<Result<u32, String>>();
    let promise = Promise::new(Uncacelable, rx);
    drop(promise);
    assert!(tx.send(Ok(1)).is_err());
}

#[test]
fn channel_pairs_reporter_and_handle() {
    let (reporter, promise) = Promise::<u32, Uncacelable, String>::channel(Uncacelable);
    assert!(reporter.report(Ok(9)));
    assert_eq!(promise.wait(), Completion::Returned(9));

    let (reporter, promise) = Promise::<u32, Uncacelable, String>::channel(Uncacelable);
    assert!(reporter.report(Err("boom".to_string())));
    assert_eq!(promise.wait(), Completion::Panicked("boom".to_string()));
}

#[test]
fn report_to_a_dropped_handle_is_quiet() {
    let (reporter, promise) = Promise::<u32, Uncacelable, String>::channel(Uncacelable);
    drop(promise);
    assert!(!reporter.report(Ok(9)));
}

#[test]
fn dropped_reporter_gives_no_result() {
    let (reporter, promise) = Promise::<u32, Cancelable, String>::channel(Cancelable::default());
    drop(reporter);
    assert_eq!(promise.cancel(), Completion::NoResult);
}

#[test]
fn resolve_covers_every_case() {
    assert_eq!(resolve::<u8, u8>(None), Completion::NoResult);
    assert_eq!(resolve::<u8, u8>(Some(Ok(3))), Completion::Returned(3));
    assert_eq!(resolve::<u8, u8>(Some(Err(4))), Completion::Panicked(4));
}

#[test]
fn into_result_separates_the_panic() {
    assert_eq!(Completion::<u8, u8>::NoResult.into_result(), Ok(None));
    assert_eq!(Completion::<u8, u8>::Returned(3).into_result(), Ok(Some(3)));
    assert_eq!(Completion::<u8, u8>::Panicked(4).into_result(), Err(4));
}

#[test]
fn policies_give_their_token() {
    assert!(Uncacelable.token().is_none());
    let c = Cancelable::default();
    let t = c.token().unwrap();
    assert!(!t.should_cancel());
    c.0.cancel();
    assert!(t.should_cancel());
    let d = Cancelable::default();
    assert!(!d.token().unwrap().should_cancel());
}
