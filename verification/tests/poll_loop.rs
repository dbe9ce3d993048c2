use ak::poll::{Phase, PollAction, PollEvent, PollLoop};

fn run(events: &[PollEvent]) -> (PollLoop, Vec<PollAction>) {
    let (mut s, first) = PollLoop::start();
    let mut actions = vec![first];
    for e in events {
        assert!(s.accepts_event(*e));
        actions.push(s.step(*e));
    }
    (s, actions)
}

#[test]
fn poll_starts_with_a_round() {
    let (s, a) = PollLoop::start();
    assert_eq!(a, PollAction::BeginRound);
    assert_eq!(s, PollLoop { phase: Phase::Mailbox, modified: false });
    assert!(!s.is_finished());
}

#[test]
fn quiet_poll_yields_after_one_round() {
    let (s, actions) = run(&[PollEvent::MailboxPending, PollEvent::ItemsIdle]);
    assert_eq!(actions, vec![PollAction::BeginRound, PollAction::PollItems, PollAction::Yield]);
    assert!(s.is_finished());
}

#[test]
fn message_opened_leads_to_another_round() {
    let (s, actions) = run(&[
        PollEvent::MessageReceived,
        PollEvent::MessageReceived,
        PollEvent::MailboxPending,
        PollEvent::ItemsIdle,
        PollEvent::MailboxPending,
        PollEvent::ItemsIdle,
    ]);
    assert_eq!(
        actions,
        vec![
            PollAction::BeginRound,
            PollAction::OpenMessage,
            PollAction::OpenMessage,
            PollAction::PollItems,
            PollAction::BeginRound,
            PollAction::PollItems,
            PollAction::Yield,
        ]
    );
    assert!(s.is_finished());
}

#[test]
fn action_opened_leads_to_another_round() {
    let (s, actions) = run(&[
        PollEvent::MailboxPending,
        PollEvent::ItemDone,
        PollEvent::ActionReady,
        PollEvent::ItemsIdle,
    ]);
    assert_eq!(
        actions,
        vec![
            PollAction::BeginRound,
            PollAction::PollItems,
            PollAction::PollItems,
            PollAction::OpenAction,
            PollAction::BeginRound,
        ]
    );
    assert_eq!(s, PollLoop { phase: Phase::Mailbox, modified: false });
}

#[test]
fn item_done_without_action_is_no_progress() {
    let (_, actions) = run(&[PollEvent::MailboxPending, PollEvent::ItemDone, PollEvent::ItemsIdle]);
    assert_eq!(actions.last(), Some(&PollAction::Yield));
}

#[test]
fn closed_mailbox_fails() {
    let (s, actions) = run(&[PollEvent::MessageReceived, PollEvent::MailboxClosed]);
    assert_eq!(actions.last(), Some(&PollAction::Fail));
    assert!(s.is_finished());
}

#[test]
fn events_must_fit_the_phase() {
    let (s, _) = PollLoop::start();
    assert!(!s.accepts_event(PollEvent::ItemsIdle));
    assert!(!s.accepts_event(PollEvent::ActionReady));
    assert!(s.accepts_event(PollEvent::MailboxClosed));
    let done = PollLoop { phase: Phase::Finished, modified: false };
    assert!(!done.accepts_event(PollEvent::MessageReceived));
    assert!(!done.accepts_event(PollEvent::ItemsIdle));
    let items = PollLoop { phase: Phase::Items, modified: true };
    assert!(items.accepts_event(PollEvent::ItemDone));
    assert!(!items.accepts_event(PollEvent::MailboxPending));
}
