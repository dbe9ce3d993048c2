//! The two halves of an actor's mailbox, as the library holds them: each
//! half records the mailbox it belongs to and the number of shared slots the
//! mailbox was created with. Only the calls into the channel crate, below,
//! set those records.
use futures::channel::mpsc::{Receiver, Sender};
use vstd::prelude::*;

verus! {

#[verifier::external_type_specification]
#[verifier::external_body]
#[verifier::reject_recursive_types(T)]
pub struct ExMpscSender<T>(Sender<T>);

#[verifier::external_type_specification]
#[verifier::external_body]
#[verifier::reject_recursive_types(T)]
pub struct ExMpscReceiver<T>(Receiver<T>);

/// Calls `futures::channel::mpsc::channel`, which creates a bounded channel
/// whose capacity is `buffer` plus one slot per sender, and returns its two
/// halves, both holding the same shared channel state. It panics when
/// `buffer` is not below its maximum buffer size, `usize::MAX >> 2`. Claimed:
/// both halves record `buffer`, and they record one and the same mailbox.
#[verifier::external_body]
pub(crate) fn mpsc_channel<T>(buffer: usize) -> (res: (AddrSender<T>, Mailbox<T>))
    requires
        buffer < usize::MAX / 4,
    ensures
        res.0.buffer() == buffer,
        res.1.buffer() == buffer,
        res.0.mailbox() == res.1.id(),
{
    let (tx, rx) = futures::channel::mpsc::channel(buffer);
    let id: Ghost<int> = Ghost(vstd::pervasive::arbitrary());
    (
        AddrSender { inner: tx, buffer: Ghost(buffer as nat), mailbox: id },
        Mailbox { inner: rx, buffer: Ghost(buffer as nat), id },
    )
}

/// Calls `Clone::clone` on a `futures::channel::mpsc::Sender`, which registers
/// one more sender on the same shared channel state. Claimed: the clone
/// records the same mailbox and buffer as `s`. It panics only when the
/// channel already has its maximum number of senders (about
/// `usize::MAX >> 2`); that count is kept inside the channel and is not
/// stated here.
#[verifier::external_body]
fn clone_mpsc_sender<T>(s: &AddrSender<T>) -> (res: AddrSender<T>)
    ensures
        res.mailbox() == s.mailbox(),
        res.buffer() == s.buffer(),
{
    AddrSender { inner: s.inner.clone(), buffer: s.buffer, mailbox: s.mailbox }
}

/// The sending half of an actor's mailbox.
#[verifier::reject_recursive_types(T)]
pub struct AddrSender<T> {
    inner: Sender<T>,
    buffer: Ghost<nat>,
    mailbox: Ghost<int>,
}

impl<T> AddrSender<T> {
    /// The channel handle this sender holds.
    pub closed spec fn handle(&self) -> Sender<T> {
        self.inner
    }

    /// The number of shared slots of the mailbox this sender reaches, as the
    /// mailbox was created with.
    pub closed spec fn buffer(&self) -> nat {
        self.buffer@
    }

    /// The mailbox this sender reaches.
    pub closed spec fn mailbox(&self) -> int {
        self.mailbox@
    }

    /// The channel handle itself, for sending.
    pub fn inner_mut(&mut self) -> (res: &mut Sender<T>)
        ensures
            *res == old(self).handle(),
            final(self).handle() == *final(res),
            final(self).buffer() == old(self).buffer(),
            final(self).mailbox() == old(self).mailbox(),
    {
        &mut self.inner
    }
}

impl<T> Clone for AddrSender<T> {
    /// Another handle on the same mailbox.
    fn clone(&self) -> (res: Self)
        ensures
            res.mailbox() == self.mailbox(),
            res.buffer() == self.buffer(),
    {
        clone_mpsc_sender(self)
    }
}

/// The receiving half of an actor's mailbox.
#[verifier::reject_recursive_types(T)]
pub struct Mailbox<T> {
    inner: Receiver<T>,
    buffer: Ghost<nat>,
    id: Ghost<int>,
}

impl<T> Mailbox<T> {
    /// The channel handle this mailbox holds.
    pub closed spec fn handle(&self) -> Receiver<T> {
        self.inner
    }

    /// The number of shared slots the mailbox was created with.
    pub closed spec fn buffer(&self) -> nat {
        self.buffer@
    }

    /// Which mailbox this is: the senders that reach it record the same.
    pub closed spec fn id(&self) -> int {
        self.id@
    }

    /// The channel handle itself, for receiving.
    pub fn receiver_mut(&mut self) -> (res: &mut Receiver<T>)
        ensures
            *res == old(self).handle(),
            final(self).handle() == *final(res),
            final(self).buffer() == old(self).buffer(),
            final(self).id() == old(self).id(),
    {
        &mut self.inner
    }
}

} // verus!
