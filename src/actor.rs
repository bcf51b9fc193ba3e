//! The decision at the heart of an actor's loop.
use vstd::prelude::*;

use crate::job::{Body, Job};

verus! {

/// What an actor's loop does after one turn.
#[derive(Debug, Clone, Copy, PartialEq, Eq, Structural)]
pub enum Next {
    /// Ask the mailbox for the next job.
    Continue,
    /// The mailbox is closed and empty: the actor's lifetime ends.
    Stop,
}

/// One turn of an actor's loop, given what its mailbox yielded.
///
/// A job is run once against `state`, to completion before the turn ends, so no
/// two jobs ever run at once; the end of the mailbox (`None`) stops the loop
/// and leaves the state as it was.
pub fn serve<A>(state: &mut A, received: Option<Job<Body<A, ()>>>) -> (r: Next)
    ensures
        r == (if received is Some { Next::Continue } else { Next::Stop }),
        received is None ==> *final(state) == *old(state),
        received matches Some(j) ==> j.body().done(*old(state), *final(state), ()),
{
    match received {
        Some(job) => {
            job.with(state);
            Next::Continue
        },
        None => Next::Stop,
    }
}

} // verus!
