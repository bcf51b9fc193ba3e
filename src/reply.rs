//! Request and response on top of fire-and-forget jobs.
use vstd::prelude::*;
use tokio::sync::oneshot;

use crate::error::{TaqError, TaqResult};
use crate::handle::Handle;
use crate::job::{Body, Job, Work};

verus! {

/// tokio's `oneshot::Sender`, carried through opaque.
#[verifier::external_type_specification]
#[verifier::external_body]
#[verifier::reject_recursive_types(T)]
pub struct ExOneshotSender<T>(oneshot::Sender<T>);

/// tokio's `oneshot::Receiver`, carried through opaque.
#[verifier::external_type_specification]
#[verifier::external_body]
#[verifier::reject_recursive_types(T)]
pub struct ExOneshotReceiver<T>(oneshot::Receiver<T>);

/// tokio's `oneshot::error::RecvError`, which a receiver yields when its
/// sender is gone. Verus asks for it because the receiver's `Future` impl
/// names it.
#[verifier::external_type_specification]
#[verifier::external_body]
pub struct ExRecvError(oneshot::error::RecvError);

/// std's `mpsc::SyncSender`, carried through opaque.
#[verifier::external_type_specification]
#[verifier::external_body]
#[verifier::reject_recursive_types(T)]
pub struct ExSyncSender<T>(std::sync::mpsc::SyncSender<T>);

/// std's `mpsc::Receiver`, carried through opaque.
#[verifier::external_type_specification]
#[verifier::external_body]
#[verifier::reject_recursive_types(T)]
pub struct ExStdReceiver<T>(std::sync::mpsc::Receiver<T>);

/// Relies on tokio's `oneshot::channel`: a fresh slot for a single value.
pub assume_specification<T>[ tokio::sync::oneshot::channel::<T> ]() -> (
    oneshot::Sender<T>,
    oneshot::Receiver<T>,
);

/// Relies on std's `mpsc::sync_channel`: a fresh queue that buffers up to
/// `bound` values.
pub assume_specification<T>[ std::sync::mpsc::sync_channel::<T> ](bound: usize) -> (
    std::sync::mpsc::SyncSender<T>,
    std::sync::mpsc::Receiver<T>,
);

/// Relies on tokio's `oneshot::Sender::send`: it never waits, and when the
/// receiver is gone it hands the value back.
#[verifier::external_body]
fn publish<T>(slot: oneshot::Sender<T>, value: T) -> (r: Result<(), T>)
    ensures
        r matches Err(v) ==> v == value,
{
    slot.send(value)
}

/// Relies on std's `SyncSender::try_send`: it never waits, and whether the
/// queue is full or its receiver is gone, the error hands the value back.
#[verifier::external_body]
fn publish_blocking<T>(slot: std::sync::mpsc::SyncSender<T>, value: T) -> (r: Result<(), T>)
    ensures
        r matches Err(v) ==> v == value,
{
    match slot.try_send(value) {
        Ok(()) => Ok(()),
        Err(std::sync::mpsc::TrySendError::Full(v)) => Err(v),
        Err(std::sync::mpsc::TrySendError::Disconnected(v)) => Err(v),
    }
}

/// A job that runs another job and publishes its result into a reply slot.
#[verifier::reject_recursive_types(A)]
#[verifier::reject_recursive_types(R)]
struct Reply<A, R> {
    job: Job<Body<A, R>>,
    slot: oneshot::Sender<R>,
}

impl<A, R: Send> Work<A, ()> for Reply<A, R> {
    /// The inner job ran once; whether the reply reached a receiver does not
    /// change what happened to the state.
    closed spec fn done(&self, before: A, after: A, r: ()) -> bool {
        exists|v: R| self.job.body().done(before, after, v)
    }

    fn perform(self: Box<Self>, state: &mut A) {
        let Reply { job, slot } = *self;
        let value = job.with(state);
        let _ = publish(slot, value);
    }
}

/// A job that runs another job and hands its result to a blocking receiver.
#[verifier::reject_recursive_types(A)]
#[verifier::reject_recursive_types(R)]
struct BlockingReply<A, R> {
    job: Job<Body<A, R>>,
    slot: std::sync::mpsc::SyncSender<R>,
}

impl<A, R: Send> Work<A, ()> for BlockingReply<A, R> {
    /// As for [`Reply`]: the inner job ran once.
    closed spec fn done(&self, before: A, after: A, r: ()) -> bool {
        exists|v: R| self.job.body().done(before, after, v)
    }

    fn perform(self: Box<Self>, state: &mut A) {
        let BlockingReply { job, slot } = *self;
        let value = job.with(state);
        let _ = publish_blocking(slot, value);
    }
}

/// The job that runs `func` and publishes its result into `slot`.
fn reply_job<A: 'static, R: Send + 'static>(func: Job<Body<A, R>>, slot: oneshot::Sender<R>) -> (j: Job<Body<A, ()>>)
    ensures
        forall|b: A, a: A| j.body().done(b, a, ()) <==> exists|v: R| func.body().done(b, a, v),
{
    let reply = Reply { job: func, slot };
    let ghost inner = reply;
    let body: Body<A, ()> = Box::new(reply);
    let j = Job::new(body);
    assert(forall|b: A, a: A| j.body().done(b, a, ()) == inner.done(b, a, ()));
    assert(inner.job == func);
    j
}

/// The job that runs `func` and hands its result to `slot`.
fn blocking_reply_job<A: 'static, R: Send + 'static>(
    func: Job<Body<A, R>>,
    slot: std::sync::mpsc::SyncSender<R>,
) -> (j: Job<Body<A, ()>>)
    ensures
        forall|b: A, a: A| j.body().done(b, a, ()) <==> exists|v: R| func.body().done(b, a, v),
{
    let reply = BlockingReply { job: func, slot };
    let ghost inner = reply;
    let body: Body<A, ()> = Box::new(reply);
    let j = Job::new(body);
    assert(forall|b: A, a: A| j.body().done(b, a, ()) == inner.done(b, a, ()));
    assert(inner.job == func);
    j
}

/// What a request returns, given the result of sending its job: the
/// receiver of the reply when the job was queued, the send's error otherwise.
pub fn reply_result<T>(sent: TaqResult<()>, rx: T) -> (r: TaqResult<T>)
    ensures
        r == (match sent {
            Ok(()) => Ok(rx),
            Err(e) => Err::<T, TaqError>(e),
        }),
{
    match sent {
        Ok(()) => Ok(rx),
        Err(e) => Err(e),
    }
}

/// Jobs whose result comes back to the caller.
pub trait HandleExt<A, R> {
    /// Sends a job to the task and returns the receiver of its result.
    ///
    /// Fails with [`TaqError::SendToClosed`] when the task's mailbox has been
    /// dropped. Awaiting the receiver gives the job's result once the task has
    /// run it, or an error when the task stopped without running it.
    fn recv(&self, func: Job<Body<A, R>>) -> (r: TaqResult<oneshot::Receiver<R>>)
        ensures
            match r {
                Ok(_) => true,
                Err(e) => e == TaqError::SendToClosed,
            },
    ;

    /// As [`HandleExt::recv`], for callers that wait by blocking their thread.
    fn blocking_recv(&self, func: Job<Body<A, R>>) -> (r: TaqResult<std::sync::mpsc::Receiver<R>>)
        ensures
            match r {
                Ok(_) => true,
                Err(e) => e == TaqError::SendToClosed,
            },
    ;
}

impl<A: 'static, R: Send + 'static> HandleExt<A, R> for Handle<A> {
    fn recv(&self, func: Job<Body<A, R>>) -> (r: TaqResult<oneshot::Receiver<R>>) {
        let (tx, rx) = tokio::sync::oneshot::channel();
        reply_result(self.run(reply_job(func, tx)), rx)
    }

    fn blocking_recv(&self, func: Job<Body<A, R>>) -> (r: TaqResult<std::sync::mpsc::Receiver<R>>) {
        let (tx, rx) = std::sync::mpsc::sync_channel(1);
        reply_result(self.run(blocking_reply_job(func, tx)), rx)
    }
}

} // verus!
