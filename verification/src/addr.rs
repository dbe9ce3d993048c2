//! Messages, and the creation of an actor's mailbox.
pub use crate::mailbox::{AddrSender, Mailbox};
use crate::mailbox::mpsc_channel;
use vstd::prelude::*;

verus! {

/// A value that can be sent to an actor; `Result` is what the actor answers.
pub trait Message {
    type Result;
}

/// The number of messages the mailbox holds on top of the one slot that each
/// sender is guaranteed.
pub const MAILBOX_BUFFER: usize = 2;

/// Creates an actor's mailbox, with `MAILBOX_BUFFER` shared slots, and its
/// first sender, which reaches it.
pub fn channel<T>() -> (res: (AddrSender<T>, Mailbox<T>))
    ensures
        res.0.buffer() == MAILBOX_BUFFER,
        res.1.buffer() == MAILBOX_BUFFER,
        res.0.mailbox() == res.1.id(),
{
    mpsc_channel(MAILBOX_BUFFER)
}

} // verus!
