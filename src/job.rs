//! One-shot units of work against an actor's state.
use vstd::prelude::*;

verus! {

/// The body of a [`Job`]: work that runs once with exclusive access to the
/// state of type `A` and produces an `R`.
///
/// The body takes itself by value, so it cannot run twice.
pub trait Work<A, R>: Send {
    /// Whether a run of this body may take the state from `before` to
    /// `after` and return `r`. A body that states nothing allows anything.
    open spec fn done(&self, before: A, after: A, r: R) -> bool {
        true
    }

    /// Runs the work against `state` and returns its result.
    fn perform(self: Box<Self>, state: &mut A) -> (r: R)
        ensures
            self.done(*old(state), *final(state), r),
    ;
}

/// The boxed body of a job against state `A` producing an `R`.
pub type Body<A, R> = Box<dyn Work<A, R>>;

impl<A, R> Work<A, R> for Box<dyn Work<A, R>> {
    /// A boxed body allows what the body inside allows.
    open spec fn done(&self, before: A, after: A, r: R) -> bool {
        (**self).done(before, after, r)
    }

    fn perform(self: Box<Self>, state: &mut A) -> (r: R) {
        (*self).perform(state)
    }
}

/// Deferred work: a body of type `W` that runs at most once.
///
/// The jobs that a mailbox carries are `Job<Body<A, R>>`: work against an
/// actor's state of type `A`, producing an `R`. A job owns its body, is
/// consumed by [`Job::with`] and cannot be cloned.
pub struct Job<W> {
    pub(crate) body: W,
}

impl<W> Job<W> {
    /// The body that the job runs.
    pub closed spec fn body(&self) -> W {
        self.body
    }

    /// Makes a job of the given body, without running it.
    pub fn new(f: W) -> (r: Self)
        ensures
            r.body() == f,
    {
        Job { body: f }
    }

    /// Consumes the job and runs its body once against `state`.
    pub fn with<A, R>(self, state: &mut A) -> (r: R)
        where
            W: Work<A, R>,
        ensures
            self.body().done(*old(state), *final(state), r),
    {
        Box::new(self.body).perform(state)
    }

    /// The same job with its body boxed, as a mailbox carries it.
    ///
    /// Verus does not follow a call through a box made from a generic body,
    /// so this states nothing; a body boxed where its type is known keeps its
    /// `done` (as the reply jobs show).
    pub fn boxed<A, R>(self) -> Job<Body<A, R>>
        where
            W: Work<A, R> + 'static,
    {
        Job { body: Box::new(self.body) }
    }
}

} // verus!
