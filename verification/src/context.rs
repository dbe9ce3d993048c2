//! The state an actor runs in: the actor itself, its mailbox sender, the
//! items queued for its next round, the waker of its task, and whether it is
//! still running.
use crate::addr::AddrSender;
use crate::waker::TaskWaker;
use std::task::Waker;
use vstd::prelude::*;

verus! {

/// What an actor's context holds, as values.
#[verifier::reject_recursive_types(T)]
pub struct ContextView<A, I, T> {
    pub actor: A,
    pub running: bool,
    /// The items queued since the last round, oldest first.
    pub queued: Seq<I>,
    /// The waker of the actor's task, once it has been polled.
    pub waker: Option<Waker>,
    pub sender: AddrSender<T>,
    /// How many times the stored waker has been woken since it was stored
    /// (none while no waker is stored).
    pub wakes: nat,
}

/// The context after an item is queued. Queuing wakes the task exactly when the context holds its waker.
pub open spec fn spec_add_item<A, I, T>(v: ContextView<A, I, T>, f: I) -> ContextView<A, I, T> {
    ContextView {
        queued: v.queued.push(f),
        wakes: if v.waker is Some {
            v.wakes + 1
        } else {
            v.wakes
        },
        ..v
    }
}

/// The context after a stop.
pub open spec fn spec_stop<A, I, T>(v: ContextView<A, I, T>) -> ContextView<A, I, T> {
    ContextView { running: false, ..v }
}

/// The context at the start of a round, and the items it hands over.
pub open spec fn spec_begin_round<A, I, T>(v: ContextView<A, I, T>, w: Waker) -> (
    ContextView<A, I, T>,
    Seq<I>,
) {
    (ContextView { queued: Seq::empty(), waker: Some(w), wakes: 0, ..v }, v.queued)
}

/// The context `v` after the items `fs` are queued, one after the other.
pub open spec fn spec_add_items<A, I, T>(v: ContextView<A, I, T>, fs: Seq<I>) -> ContextView<
    A,
    I,
    T,
>
    decreases fs.len(),
{
    if fs.len() == 0 {
        v
    } else {
        spec_add_item(spec_add_items(v, fs.drop_last()), fs.last())
    }
}

/// The context of a running actor.
#[verifier::reject_recursive_types(T)]
#[verifier::reject_recursive_types(I)]
pub struct Context<A, I, T> {
    sender: AddrSender<T>,
    new_items: Vec<I>,
    waker: Option<TaskWaker>,
    running: bool,
    actor: A,
}

impl<A, I, T> View for Context<A, I, T> {
    type V = ContextView<A, I, T>;

    closed spec fn view(&self) -> ContextView<A, I, T> {
        ContextView {
            actor: self.actor,
            running: self.running,
            queued: self.new_items@,
            waker: match self.waker {
                Some(tw) => Some(tw.waker()),
                None => None,
            },
            sender: self.sender,
            wakes: match self.waker {
                Some(tw) => tw.woken(),
                None => 0,
            },
        }
    }
}

impl<A, I, T> Context<A, I, T> {
    /// A context for `actor` that has not been polled yet: running, with no
    /// queued item and no waker.
    pub fn new(actor: A, sender: AddrSender<T>) -> (res: Self)
        ensures
            res@ == (ContextView::<A, I, T> {
                actor,
                running: true,
                queued: Seq::empty(),
                waker: None,
                sender,
                wakes: 0,
            }),
    {
        Context {
            sender,
            new_items: Vec::new(),
            waker: None,
            running: true,
            actor,
        }
    }

    /// Another handle on the actor's mailbox.
    pub fn sender(&self) -> (res: AddrSender<T>)
        ensures
            res.mailbox() == self@.sender.mailbox(),
            res.buffer() == self@.sender.buffer(),
    {
        self.sender.clone()
    }

    /// Marks the actor as stopped.
    pub fn stop(&mut self)
        ensures
            final(self)@ == spec_stop(old(self)@),
            !final(self)@.running,
            final(self)@.queued == old(self)@.queued,
            final(self)@.actor == old(self)@.actor,
            final(self)@.waker == old(self)@.waker,
            final(self)@.wakes == old(self)@.wakes,
            final(self)@.sender == old(self)@.sender,
    {
        self.running = false;
    }

    /// Whether the actor has not been stopped.
    pub fn is_running(&self) -> (res: bool)
        ensures
            res == self@.running,
    {
        self.running
    }

    /// Queues an item for the next round and, if the task has a waker, wakes
    /// the task so that the round comes.
    pub fn add_item(&mut self, f: I)
        ensures
            final(self)@ == spec_add_item(old(self)@, f),
    {
        self.new_items.push(f);
        match &mut self.waker {
            Some(w) => w.wake(),
            None => {},
        }
    }

    /// Starts a round: stores the task's waker and hands over every queued
    /// item, oldest first, leaving the queue empty.
    pub fn begin_round(&mut self, waker: Waker) -> (res: Vec<I>)
        ensures
            (final(self)@, res@) == spec_begin_round(old(self)@, waker),
    {
        self.waker = Some(TaskWaker::new(waker));
        let mut items: Vec<I> = Vec::new();
        std::mem::swap(&mut items, &mut self.new_items);
        items
    }

    /// The number of items queued for the next round.
    pub fn queued_len(&self) -> (res: usize)
        ensures
            res == self@.queued.len(),
    {
        self.new_items.len()
    }

    /// Whether the task's waker has been stored.
    pub fn has_waker(&self) -> (res: bool)
        ensures
            res == self@.waker is Some,
    {
        self.waker.is_some()
    }

    /// The actor.
    pub fn actor(&self) -> (res: &A)
        ensures
            *res == self@.actor,
    {
        &self.actor
    }

    /// The actor, to change it.
    pub fn actor_mut(&mut self) -> (res: &mut A)
        ensures
            *res == old(self)@.actor,
            final(self)@ == (ContextView { actor: *final(res), ..old(self)@ }),
    {
        &mut self.actor
    }
}

/// A round hands over exactly the items queued since the previous round, in
/// the order they were queued: nothing is lost, repeated or reordered.
pub proof fn lemma_round_hands_over_queued_items<A, I, T>(
    v: ContextView<A, I, T>,
    fs: Seq<I>,
    w: Waker,
)
    requires
        v.queued.len() == 0,
    ensures
        spec_begin_round(spec_add_items(v, fs), w).1 == fs,
        spec_begin_round(spec_add_items(v, fs), w).0.queued.len() == 0,
{
    lemma_add_items_queue(v, fs);
}

/// Queuing items appends them to the queue and changes nothing else.
pub proof fn lemma_add_items_queue<A, I, T>(v: ContextView<A, I, T>, fs: Seq<I>)
    ensures
        spec_add_items(v, fs).queued == v.queued + fs,
        spec_add_items(v, fs).actor == v.actor,
        spec_add_items(v, fs).running == v.running,
        spec_add_items(v, fs).waker == v.waker,
        spec_add_items(v, fs).sender == v.sender,
        v.waker is None ==> spec_add_items(v, fs).wakes == v.wakes,
        v.waker is Some ==> spec_add_items(v, fs).wakes == v.wakes + fs.len(),
    decreases fs.len(),
{
    if fs.len() > 0 {
        lemma_add_items_queue(v, fs.drop_last());
        assert(v.queued + fs == (v.queued + fs.drop_last()).push(fs.last()));
    } else {
        assert(v.queued + fs == v.queued);
    }
}

/// Once its task has been polled, the context wakes the task once for
/// every item queued after the round began; before that it never wakes it.
pub proof fn lemma_queued_items_wake_polled_task<A, I, T>(
    v: ContextView<A, I, T>,
    w: Waker,
    fs: Seq<I>,
)
    ensures
        spec_add_items(v, fs).wakes == v.wakes + (if v.waker is Some {
            fs.len()
        } else {
            0
        }),
        spec_add_items(spec_begin_round(v, w).0, fs).wakes == fs.len(),
{
    lemma_add_items_queue(v, fs);
    lemma_add_items_queue(spec_begin_round(v, w).0, fs);
}

/// Stopping changes nothing but the running flag: the queued items, the
/// actor, the waker and the sender stay as they were, so a round after a stop
/// hands over exactly what it would have handed over without it.
pub proof fn lemma_stop_changes_only_running<A, I, T>(v: ContextView<A, I, T>, w: Waker)
    ensures
        !spec_stop(v).running,
        spec_stop(v).queued == v.queued,
        spec_stop(v).actor == v.actor,
        spec_stop(v).waker == v.waker,
        spec_stop(v).wakes == v.wakes,
        spec_stop(v).sender == v.sender,
        spec_begin_round(spec_stop(v), w).1 == spec_begin_round(v, w).1,
{
}

/// Beginning a round empties the queue, handing its items over in order,
/// stores the new waker with no wake-up sent through it yet, and leaves the
/// actor, its running flag and its sender as they were.
pub proof fn lemma_begin_round_changes_only_queue_and_waker<A, I, T>(
    v: ContextView<A, I, T>,
    w: Waker,
)
    ensures
        spec_begin_round(v, w).1 == v.queued,
        spec_begin_round(v, w).0.queued.len() == 0,
        spec_begin_round(v, w).0.waker == Some(w),
        spec_begin_round(v, w).0.wakes == 0,
        spec_begin_round(v, w).0.running == v.running,
        spec_begin_round(v, w).0.actor == v.actor,
        spec_begin_round(v, w).0.sender == v.sender,
{
}

/// Queuing an item appends it to the queue and changes nothing else but the
/// count of wake-ups, which rises by one exactly when a waker is stored.
pub proof fn lemma_add_item_appends<A, I, T>(v: ContextView<A, I, T>, f: I)
    ensures
        spec_add_item(v, f).queued.len() == v.queued.len() + 1,
        spec_add_item(v, f).queued.last() == f,
        forall|i: int| 0 <= i < v.queued.len() ==> spec_add_item(v, f).queued[i] == v.queued[i],
        spec_add_item(v, f).running == v.running,
        spec_add_item(v, f).actor == v.actor,
        spec_add_item(v, f).waker == v.waker,
        spec_add_item(v, f).sender == v.sender,
        spec_add_item(v, f).wakes == v.wakes + (if v.waker is Some { 1nat } else { 0nat }),
{
}

/// A stopped actor stays stopped: queuing items and starting rounds never
/// set it running again, and stopping twice is stopping once.
pub proof fn lemma_stopped_stays_stopped<A, I, T>(v: ContextView<A, I, T>, f: I, w: Waker)
    requires
        !v.running,
    ensures
        !spec_add_item(v, f).running,
        !spec_begin_round(v, w).0.running,
        spec_stop(v) == v,
        spec_stop(spec_stop(v)) == spec_stop(v),
{
}

} // verus!
