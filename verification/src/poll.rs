//! The decisions of an actor's scheduling loop.
//!
//! Each time the executor polls an actor, the actor runs rounds: it stores the
//! waker and moves the items queued since the last round into the set of items
//! it polls, then drains its mailbox, opening every message, then polls its
//! items, opening every action that a finished item hands back. A round in
//! which something was opened is followed by another round; the first round in
//! which nothing was opened ends the poll, which then returns `Pending`: an
//! actor never completes on its own. A closed mailbox is an error.
//!
//! The outside work (polling the mailbox and the items, opening what they
//! yield) is done by the caller; this module takes what it observed and says
//! what to do next.
use vstd::prelude::*;

verus! {

/// Where a poll of an actor stands.
#[derive(Clone, Copy, PartialEq, Eq, Structural, Debug)]
pub enum Phase {
    /// Draining the mailbox.
    Mailbox,
    /// Polling the items.
    Items,
    /// The poll is over.
    Finished,
}

/// What the caller observed after doing the last action.
#[derive(Clone, Copy, PartialEq, Eq, Structural, Debug)]
pub enum PollEvent {
    /// The mailbox yielded a message.
    MessageReceived,
    /// The mailbox has no message ready.
    MailboxPending,
    /// The mailbox is closed: every sender is gone.
    MailboxClosed,
    /// An item finished and handed back an action to open.
    ActionReady,
    /// An item finished with nothing to open.
    ItemDone,
    /// No item is ready, or no item is left.
    ItemsIdle,
}

/// What the caller is to do next.
#[derive(Clone, Copy, PartialEq, Eq, Structural, Debug)]
pub enum PollAction {
    /// Store the waker, move the queued items into the polled set, then poll the mailbox.
    BeginRound,
    /// Open the message just received, then poll the mailbox again.
    OpenMessage,
    /// Poll the items.
    PollItems,
    /// Open the action just handed back, then poll the items again.
    OpenAction,
    /// End the poll and return `Pending`.
    Yield,
    /// End the poll: the mailbox closed under a live actor.
    Fail,
}

/// The state of one poll of an actor: the phase, and whether the current
/// round has opened anything yet.
#[derive(Clone, Copy, PartialEq, Eq, Structural, Debug)]
pub struct PollLoop {
    pub phase: Phase,
    pub modified: bool,
}

/// The events that can follow the action that leads into `phase`.
pub open spec fn accepts(phase: Phase, event: PollEvent) -> bool {
    match phase {
        Phase::Mailbox => event is MessageReceived || event is MailboxPending || event is MailboxClosed,
        Phase::Items => event is ActionReady || event is ItemDone || event is ItemsIdle,
        Phase::Finished => false,
    }
}

/// The transition table of the scheduling loop.
pub open spec fn spec_step(s: PollLoop, event: PollEvent) -> (PollLoop, PollAction) {
    match event {
        PollEvent::MessageReceived => (PollLoop { phase: Phase::Mailbox, modified: true }, PollAction::OpenMessage),
        PollEvent::MailboxPending => (PollLoop { phase: Phase::Items, modified: s.modified }, PollAction::PollItems),
        PollEvent::MailboxClosed => (PollLoop { phase: Phase::Finished, modified: s.modified }, PollAction::Fail),
        PollEvent::ActionReady => (PollLoop { phase: Phase::Items, modified: true }, PollAction::OpenAction),
        PollEvent::ItemDone => (PollLoop { phase: Phase::Items, modified: s.modified }, PollAction::PollItems),
        PollEvent::ItemsIdle => if s.modified {
            (PollLoop { phase: Phase::Mailbox, modified: false }, PollAction::BeginRound)
        } else {
            (PollLoop { phase: Phase::Finished, modified: false }, PollAction::Yield)
        },
    }
}

impl PollLoop {
    /// Starts a poll: the first action is always to begin a round.
    pub fn start() -> (res: (PollLoop, PollAction))
        ensures
            res.0 == (PollLoop { phase: Phase::Mailbox, modified: false }),
            res.1 == PollAction::BeginRound,
    {
        (PollLoop { phase: Phase::Mailbox, modified: false }, PollAction::BeginRound)
    }

    /// Whether the poll is over.
    pub fn is_finished(&self) -> (res: bool)
        ensures
            res == (self.phase == Phase::Finished),
    {
        match self.phase {
            Phase::Finished => true,
            _ => false,
        }
    }

    /// Whether `event` can follow the last action.
    pub fn accepts_event(&self, event: PollEvent) -> (res: bool)
        ensures
            res == accepts(self.phase, event),
    {
        match self.phase {
            Phase::Mailbox => match event {
                PollEvent::MessageReceived | PollEvent::MailboxPending | PollEvent::MailboxClosed => true,
                _ => false,
            },
            Phase::Items => match event {
                PollEvent::ActionReady | PollEvent::ItemDone | PollEvent::ItemsIdle => true,
                _ => false,
            },
            Phase::Finished => false,
        }
    }

    /// Takes what the caller observed and says what to do next.
    pub fn step(&mut self, event: PollEvent) -> (action: PollAction)
        requires
            accepts(old(self).phase, event),
        ensures
            (*final(self), action) == spec_step(*old(self), event),
            event == PollEvent::MessageReceived ==> action == PollAction::OpenMessage,
            event == PollEvent::ActionReady ==> action == PollAction::OpenAction,
    {
        match event {
            PollEvent::MessageReceived => {
                self.modified = true;
                PollAction::OpenMessage
            },
            PollEvent::MailboxPending => {
                self.phase = Phase::Items;
                PollAction::PollItems
            },
            PollEvent::MailboxClosed => {
                self.phase = Phase::Finished;
                PollAction::Fail
            },
            PollEvent::ActionReady => {
                self.modified = true;
                PollAction::OpenAction
            },
            PollEvent::ItemDone => PollAction::PollItems,
            PollEvent::ItemsIdle => {
                if self.modified {
                    self.phase = Phase::Mailbox;
                    self.modified = false;
                    PollAction::BeginRound
                } else {
                    self.phase = Phase::Finished;
                    PollAction::Yield
                }
            },
        }
    }
}

/// Every message the mailbox yields is opened, and every action a finished
/// item hands back is opened, whatever the round has opened before: the loop
/// stays in the same phase, marks the round as having made progress, and
/// asks for the opening.
pub proof fn lemma_everything_received_is_opened(s: PollLoop, event: PollEvent)
    requires
        accepts(s.phase, event),
    ensures
        event == PollEvent::MessageReceived ==> {
            &&& spec_step(s, event).1 == PollAction::OpenMessage
            &&& spec_step(s, event).0.phase == Phase::Mailbox
            &&& spec_step(s, event).0.modified
        },
        event == PollEvent::ActionReady ==> {
            &&& spec_step(s, event).1 == PollAction::OpenAction
            &&& spec_step(s, event).0.phase == Phase::Items
            &&& spec_step(s, event).0.modified
        },
{
}

/// Events that open nothing leave the round's progress as it was: a mailbox
/// with nothing ready moves on to the items, and an item that finished with
/// nothing to open has the items polled again.
pub proof fn lemma_idle_events_keep_progress(s: PollLoop, event: PollEvent)
    requires
        accepts(s.phase, event),
    ensures
        event == PollEvent::MailboxPending ==> spec_step(s, event) == (
            PollLoop { phase: Phase::Items, modified: s.modified },
            PollAction::PollItems,
        ),
        event == PollEvent::ItemDone ==> spec_step(s, event) == (
            PollLoop { phase: Phase::Items, modified: s.modified },
            PollAction::PollItems,
        ),
{
}

/// The events the caller can observe after doing an action are exactly the
/// ones the next step takes: after beginning a round or opening a message it
/// polls the mailbox, after polling or opening an action it polls the items,
/// and after yielding or failing it observes nothing more.
pub proof fn lemma_actions_lead_to_accepted_events(s: PollLoop, event: PollEvent, next: PollEvent)
    requires
        accepts(s.phase, event),
    ensures
        ({
            let (s2, a) = spec_step(s, event);
            &&& (a == PollAction::BeginRound || a == PollAction::OpenMessage) ==> (accepts(
                s2.phase,
                next,
            ) <==> (next == PollEvent::MessageReceived || next == PollEvent::MailboxPending
                || next == PollEvent::MailboxClosed))
            &&& (a == PollAction::PollItems || a == PollAction::OpenAction) ==> (accepts(
                s2.phase,
                next,
            ) <==> (next == PollEvent::ActionReady || next == PollEvent::ItemDone || next
                == PollEvent::ItemsIdle))
            &&& (a == PollAction::Yield || a == PollAction::Fail) ==> !accepts(s2.phase, next)
        }),
{
}

/// A poll ends by yielding exactly when the items went idle at the end of a
/// round that opened nothing.
pub proof fn lemma_yield_only_after_quiet_round(s: PollLoop, event: PollEvent)
    requires
        accepts(s.phase, event),
    ensures
        spec_step(s, event).1 == PollAction::Yield <==> (s.phase == Phase::Items && event
            == PollEvent::ItemsIdle && !s.modified),
{
}

/// A round that opened a message or an action is always followed by a new
/// round, which starts with nothing opened.
pub proof fn lemma_progress_starts_new_round(s: PollLoop, event: PollEvent)
    requires
        accepts(s.phase, event),
    ensures
        spec_step(s, event).1 == PollAction::BeginRound <==> (s.phase == Phase::Items && event
            == PollEvent::ItemsIdle && s.modified),
        spec_step(s, event).1 == PollAction::BeginRound ==> spec_step(s, event).0 == (PollLoop {
            phase: Phase::Mailbox,
            modified: false,
        }),
{
}

/// Opening a message or an action marks the round as having made progress,
/// and within a round that mark is never lost.
pub proof fn lemma_progress_is_kept(s: PollLoop, event: PollEvent)
    requires
        accepts(s.phase, event),
    ensures
        (event == PollEvent::MessageReceived || event == PollEvent::ActionReady) ==> spec_step(
            s,
            event,
        ).0.modified,
        (s.modified && spec_step(s, event).1 != PollAction::BeginRound) ==> spec_step(
            s,
            event,
        ).0.modified,
{
}

/// A poll ends (the state becomes finished) only by yielding or failing, and
/// fails exactly when the mailbox reports that it is closed.
pub proof fn lemma_poll_ends_only_by_yield_or_fail(s: PollLoop, event: PollEvent)
    requires
        accepts(s.phase, event),
    ensures
        spec_step(s, event).0.phase == Phase::Finished <==> (spec_step(s, event).1
            == PollAction::Yield || spec_step(s, event).1 == PollAction::Fail),
        spec_step(s, event).1 == PollAction::Fail <==> event == PollEvent::MailboxClosed,
{
}

/// The mailbox is drained before any item is polled: from the mailbox phase
/// the loop moves to the items only when the mailbox has nothing ready.
pub proof fn lemma_mailbox_drained_before_items(s: PollLoop, event: PollEvent)
    requires
        accepts(s.phase, event),
        s.phase == Phase::Mailbox,
    ensures
        spec_step(s, event).0.phase == Phase::Items <==> event == PollEvent::MailboxPending,
{
}

} // verus!
