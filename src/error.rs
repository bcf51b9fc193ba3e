//! The error that the library reports to callers.
use vstd::prelude::*;

verus! {

/// Why an operation on a task could not be completed.
#[derive(Debug, Clone, Copy, PartialEq, Eq, Structural)]
pub enum TaqError {
    /// The task's mailbox has been closed: nothing can be sent to it any more.
    SendToClosed,
}

/// A `Result` whose error is a [`TaqError`].
pub type TaqResult<R> = Result<R, TaqError>;

/// The sentence that describes each error.
pub open spec fn error_text(e: TaqError) -> Seq<char> {
    match e {
        TaqError::SendToClosed => "The operation could not be completed because the task has been closed."@,
    }
}

impl TaqError {
    /// Describes the error in one sentence.
    pub fn message(&self) -> (r: String)
        ensures
            r@ == error_text(*self),
    {
        match self {
            TaqError::SendToClosed => {
                let s = "The operation could not be completed because the task has been closed.";
                proof { reveal_strlit("The operation could not be completed because the task has been closed."); }
                String::from_str(s)
            },
        }
    }
}

} // verus!
