//! Actors that own their state and take work through a mailbox.
//!
//! A [`Handle`] is the cloneable sending side of an actor's mailbox; a [`Job`]
//! is one unit of work against the actor's state, run at most once.
mod actor;
pub mod error;
mod handle;
mod job;
mod reply;

pub use actor::{serve, Next};
pub use error::{TaqError, TaqResult};
pub use handle::{delivery_result, delivery_spec, open_mailbox, Handle, Mailbox};
pub use job::{Body, Job, Work};
pub use reply::{reply_result, HandleExt};
