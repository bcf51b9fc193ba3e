//! The sending side of an actor's mailbox.
use vstd::prelude::*;
use tokio::sync::mpsc::{UnboundedReceiver, UnboundedSender};

use crate::error::{TaqError, TaqResult};
use crate::job::{Body, Job};

verus! {

/// tokio's `mpsc::UnboundedSender`, carried through opaque.
#[verifier::external_type_specification]
#[verifier::external_body]
#[verifier::reject_recursive_types(T)]
pub struct ExUnboundedSender<T>(UnboundedSender<T>);

/// tokio's `mpsc::UnboundedReceiver`, carried through opaque.
#[verifier::external_type_specification]
#[verifier::external_body]
#[verifier::reject_recursive_types(T)]
pub struct ExUnboundedReceiver<T>(UnboundedReceiver<T>);

/// Relies on tokio's `mpsc::unbounded_channel`: a fresh queue with no bound on
/// its length, whose sending half can be cloned.
pub assume_specification<T>[ tokio::sync::mpsc::unbounded_channel::<T> ]() -> (
    UnboundedSender<T>,
    UnboundedReceiver<T>,
);

/// Relies on tokio's `Clone` for `UnboundedSender`: one more sender of the same queue.
pub assume_specification<T>[ <UnboundedSender<T> as Clone>::clone ](
    s: &UnboundedSender<T>,
) -> UnboundedSender<T>;

/// Relies on tokio's `UnboundedSender::send`: it never waits, and when the
/// receiving half is gone it fails and hands back the message it was given.
/// (It aborts the process only when about `usize::MAX / 2` messages wait in
/// one queue at once.)
#[verifier::external_body]
fn enqueue<T>(tx: &UnboundedSender<T>, message: T) -> (r: Result<(), T>)
    ensures
        r matches Err(m) ==> m == message,
{
    tx.send(message).map_err(|e| e.0)
}

/// What a send reports, given what the queue did with the message: success
/// when the message was queued, [`TaqError::SendToClosed`] when it came back.
pub open spec fn delivery_spec<T>(outcome: Result<(), T>) -> TaqResult<()> {
    match outcome {
        Ok(()) => Ok(()),
        Err(_) => Err(TaqError::SendToClosed),
    }
}

/// Turns what the queue did with a message into the result of a send.
pub fn delivery_result<T>(outcome: Result<(), T>) -> (r: TaqResult<()>)
    ensures
        r == delivery_spec(outcome),
{
    match outcome {
        Ok(()) => Ok(()),
        Err(_) => Err(TaqError::SendToClosed),
    }
}

/// The cloneable sending side of a task's mailbox.
///
/// Every clone sends into the same mailbox; once all of them are dropped the
/// task sees its mailbox closed.
#[verifier::reject_recursive_types(A)]
pub struct Handle<A> {
    tx: UnboundedSender<Job<Body<A, ()>>>,
    mailbox: Ghost<int>,
}

/// The receiving end of a task's mailbox, owned by the task's loop.
#[verifier::reject_recursive_types(A)]
pub struct Mailbox<A> {
    rx: UnboundedReceiver<Job<Body<A, ()>>>,
    name: Ghost<int>,
}

impl<A> Mailbox<A> {
    /// The name that ties this mailbox to the handles that send into it.
    /// Names say which handles belong together; two mailboxes may share one.
    pub closed spec fn id(&self) -> int {
        self.name@
    }

    /// The queue from which the task takes its jobs, in the order they were sent.
    pub fn into_receiver(self) -> UnboundedReceiver<Job<Body<A, ()>>> {
        self.rx
    }
}

/// Opens a new mailbox: a handle to send jobs into it and the receiving end
/// from which the task takes them in the order they were sent.
pub fn open_mailbox<A>() -> (r: (Handle<A>, Mailbox<A>))
    ensures
        r.0.id() == r.1.id(),
{
    let (tx, rx) = tokio::sync::mpsc::unbounded_channel();
    let ghost name: int = arbitrary();
    (Handle { tx, mailbox: Ghost(name) }, Mailbox { rx, name: Ghost(name) })
}

impl<A> Handle<A> {
    /// The name of the mailbox this handle sends into (see [`Mailbox::id`]).
    pub closed spec fn id(&self) -> int {
        self.mailbox@
    }

    /// Sends a job to the task without waiting.
    ///
    /// Fails with [`TaqError::SendToClosed`] when the task's mailbox has been
    /// dropped; the job is then dropped unrun. Success does not promise that
    /// the task will run the job: it may stop before it reaches it.
    pub fn run(&self, func: Job<Body<A, ()>>) -> (r: TaqResult<()>)
        ensures
            r is Ok || r == Err::<(), TaqError>(TaqError::SendToClosed),
    {
        delivery_result(enqueue(&self.tx, func))
    }
}

impl<A> Clone for Handle<A> {
    /// Another handle to the same task.
    fn clone(&self) -> (r: Self)
        ensures
            r.id() == self.id(),
    {
        Handle { tx: self.tx.clone(), mailbox: self.mailbox }
    }
}

} // verus!
