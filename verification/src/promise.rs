//! The caller's end of a job: a single-use handle on its outcome.

use crate::policy::Cancelable;
use vstd::prelude::*;

verus! {

/// The receiving end of a single-use channel. Nothing inside it is visible
/// to the verifier.
#[verifier::external_type_specification]
#[verifier::external_body]
#[verifier::reject_recursive_types(T)]
pub struct ExReceiver<T>(oneshot::Receiver<T>);

/// The sending end of a single-use channel. Nothing inside it is visible to
/// the verifier.
#[verifier::external_type_specification]
#[verifier::external_body]
#[verifier::reject_recursive_types(T)]
pub struct ExSender<T>(oneshot::Sender<T>);

/// What a handle observes when it is waited on.
#[derive(Debug, PartialEq, Eq)]
pub enum Completion<R, E> {
    /// The sending end went away without a message: the job never ran.
    NoResult,
    /// The job ran to its end and produced this value.
    Returned(R),
    /// The job panicked; this is what it panicked with.
    Panicked(E),
}

/// What a handle reports for each thing its channel can yield: nothing at
/// all, a value, or a captured panic.
pub open spec fn spec_resolve<R, E>(received: Option<Result<R, E>>) -> Completion<R, E> {
    match received {
        None => Completion::NoResult,
        Some(Ok(value)) => Completion::Returned(value),
        Some(Err(payload)) => Completion::Panicked(payload),
    }
}

/// Turns what came out of the channel into what the handle reports.
pub fn resolve<R, E>(received: Option<Result<R, E>>) -> (c: Completion<R, E>)
    ensures
        c == spec_resolve(received),
{
    match received {
        None => Completion::NoResult,
        Some(Ok(value)) => Completion::Returned(value),
        Some(Err(payload)) => Completion::Panicked(payload),
    }
}

/// A handle's report tells apart everything its channel can yield: "no
/// result" is reported only when nothing was sent, a captured panic is handed
/// over as it was caught, and no two different messages are reported alike.
pub proof fn lemma_resolve_is_faithful<R, E>(a: Option<Result<R, E>>, b: Option<Result<R, E>>)
    ensures
        spec_resolve(a) == spec_resolve(b) ==> a == b,
        spec_resolve(a) is NoResult <==> a is None,
        forall|payload: E|
            spec_resolve(a) == Completion::<R, E>::Panicked(payload) <==> a == Some(
                Err::<R, E>(payload),
            ),
        forall|value: R|
            spec_resolve(a) == Completion::<R, E>::Returned(value) <==> a == Some(
                Ok::<R, E>(value),
            ),
{
}

impl<R, E> Completion<R, E> {
    /// The value, if there is one and the job did not panic. `Err` hands the
    /// panic back so that the caller can raise it again.
    pub fn into_result(self) -> (r: Result<Option<R>, E>)
        ensures
            r == match self {
                Completion::NoResult => Ok::<Option<R>, E>(None),
                Completion::Returned(value) => Ok(Some(value)),
                Completion::Panicked(payload) => Err(payload),
            },
    {
        match self {
            Completion::NoResult => Ok(None),
            Completion::Returned(value) => Ok(Some(value)),
            Completion::Panicked(payload) => Err(payload),
        }
    }
}

/// Blocks until the channel yields its message or its sending end is gone.
///
/// Trusted: this is `oneshot::Receiver::recv`, which returns the message once
/// it was sent and an error once the sender was dropped without sending.
/// Which of the two happens is up to the other end, so nothing is promised
/// of the result; the call does not return while the sender lives and stays
/// silent.
#[verifier::external_body]
fn receive<T>(response: oneshot::Receiver<T>) -> (received: Option<T>) {
    response.recv().ok()
}

/// Makes a channel for one message.
///
/// Trusted: this is `oneshot::channel`, which allocates the channel and
/// returns its two ends. Nothing is claimed of them.
#[verifier::external_body]
fn open_channel<T>() -> (ends: (oneshot::Sender<T>, oneshot::Receiver<T>)) {
    oneshot::channel()
}

/// Puts the message into the channel and says whether the receiving end was
/// still there to get it.
///
/// Trusted: this is `oneshot::Sender::send`, which does not wait for the
/// receiver and returns an error when the receiver was dropped before.
/// Whether it was is up to the other end, so nothing is promised of the
/// result.
#[verifier::external_body]
fn send_message<T>(sender: oneshot::Sender<T>, message: T) -> (delivered: bool) {
    sender.send(message).is_ok()
}

/// The job's end of its channel: it is moved into the job's body and used
/// once, when the body has ended.
#[verifier::reject_recursive_types(R)]
#[verifier::reject_recursive_types(E)]
pub struct Reporter<R, E> {
    sender: oneshot::Sender<Result<R, E>>,
}

impl<R, E> Reporter<R, E> {
    /// Sends the outcome to the handle. When the handle is gone already the
    /// outcome is dropped and `false` is returned; that is no error.
    pub fn report(self, outcome: Result<R, E>) -> (delivered: bool) {
        send_message(self.sender, outcome)
    }
}

/// A single-use handle on one job's outcome. No two handles share a job.
#[verifier::reject_recursive_types(R)]
#[verifier::reject_recursive_types(E)]
pub struct Promise<R, S, E> {
    cancelable: S,
    response: oneshot::Receiver<Result<R, E>>,
}

impl<R, S, E> Promise<R, S, E> {
    /// The handle on the job whose body holds the sending end of `response`.
    pub fn new(cancelable: S, response: oneshot::Receiver<Result<R, E>>) -> (p: Promise<R, S, E>)
        ensures
            p.marker() == cancelable,
    {
        Promise { cancelable, response }
    }

    /// A fresh channel: the end that reports one outcome, and the handle that
    /// waits for it.
    pub fn channel(cancelable: S) -> (ends: (Reporter<R, E>, Promise<R, S, E>))
        ensures
            ends.1.marker() == cancelable,
    {
        let (sender, response) = open_channel();
        (Reporter { sender }, Promise { cancelable, response })
    }

    /// The cancellation marker this handle was made with.
    pub closed spec fn marker(&self) -> S {
        self.cancelable
    }

    /// Blocks until the outcome arrives or can no longer arrive, and reports
    /// which: see [`resolve`] for what is reported in each case.
    pub fn wait(self) -> Completion<R, E> {
        resolve(receive(self.response))
    }
}

impl<R, E> Promise<R, Cancelable, E> {
    /// Asks the job to stop by setting its token, then waits as
    /// [`Promise::wait`] does. The job is not aborted: it is reported as it
    /// ends.
    pub fn cancel(self) -> Completion<R, E> {
        self.cancelable.0.cancel();
        self.wait()
    }
}

} // verus!
