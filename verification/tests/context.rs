use ak::addr::{channel, AddrSender};
use ak::context::Context;
use futures::task::{noop_waker, waker, ArcWake};
use std::sync::atomic::{AtomicUsize, Ordering};
use std::sync::Arc;

struct Counter(AtomicUsize);

impl ArcWake for Counter {
    fn wake_by_ref(arc_self: &Arc<Self>) {
        arc_self.0.fetch_add(1, Ordering::SeqCst);
    }
}

fn fresh(actor: i32) -> Context<i32, &'static str, u8> {
    let (tx, _rx) = channel::<u8>();
    Context::new(actor, tx)
}

#[test]
fn new_context_is_running_and_empty() {
    let ctx = fresh(7);
    assert!(ctx.is_running());
    assert_eq!(ctx.queued_len(), 0);
    assert!(!ctx.has_waker());
    assert_eq!(*ctx.actor(), 7);
}

#[test]
fn stop_stops_and_stays_stopped() {
    let mut ctx = fresh(0);
    ctx.stop();
    assert!(!ctx.is_running());
    ctx.add_item("a");
    let _ = ctx.begin_round(noop_waker());
    assert!(!ctx.is_running());
    ctx.stop();
    assert!(!ctx.is_running());
}

#[test]
fn round_hands_over_items_in_order() {
    let mut ctx = fresh(0);
    ctx.add_item("a");
    ctx.add_item("b");
    ctx.add_item("c");
    assert_eq!(ctx.queued_len(), 3);
    let items = ctx.begin_round(noop_waker());
    assert_eq!(items, vec!["a", "b", "c"]);
    assert_eq!(ctx.queued_len(), 0);
    assert!(ctx.has_waker());
    ctx.add_item("d");
    assert_eq!(ctx.begin_round(noop_waker()), vec!["d"]);
    assert_eq!(ctx.begin_round(noop_waker()), Vec::<&str>::new());
}

#[test]
fn add_item_wakes_the_task_once_it_has_a_waker() {
    let counter = Arc::new(Counter(AtomicUsize::new(0)));
    let mut ctx = fresh(0);
    ctx.add_item("before");
    assert_eq!(counter.0.load(Ordering::SeqCst), 0);
    let _ = ctx.begin_round(waker(counter.clone()));
    ctx.add_item("after");
    assert_eq!(counter.0.load(Ordering::SeqCst), 1);
    ctx.add_item("again");
    assert_eq!(counter.0.load(Ordering::SeqCst), 2);
}

#[test]
fn actor_mut_changes_the_actor_only() {
    let mut ctx = fresh(1);
    ctx.add_item("x");
    *ctx.actor_mut() += 41;
    assert_eq!(*ctx.actor(), 42);
    assert_eq!(ctx.queued_len(), 1);
    assert!(ctx.is_running());
}

#[test]
fn mailbox_holds_buffer_plus_one_per_sender() {
    let (mut tx, mut rx) = channel::<u32>();
    assert!(tx.inner_mut().try_send(1).is_ok());
    assert!(tx.inner_mut().try_send(2).is_ok());
    assert!(tx.inner_mut().try_send(3).is_ok());
    let full = tx.inner_mut().try_send(4);
    assert!(full.is_err());
    assert!(full.unwrap_err().is_full());
    assert_eq!(rx.receiver_mut().try_next().unwrap(), Some(1));
    assert_eq!(rx.receiver_mut().try_next().unwrap(), Some(2));
    assert_eq!(rx.receiver_mut().try_next().unwrap(), Some(3));
}

#[test]
fn context_sender_reaches_the_same_mailbox() {
    let (tx, mut rx) = channel::<u32>();
    let ctx: Context<(), u8, u32> = Context::new((), tx);
    let mut other: AddrSender<u32> = ctx.sender();
    assert!(other.inner_mut().try_send(9).is_ok());
    assert_eq!(rx.receiver_mut().try_next().unwrap(), Some(9));
}

#[test]
fn cloned_sender_reaches_the_same_mailbox() {
    let (tx, mut rx) = channel::<u32>();
    let mut a = tx.clone();
    let mut b = a.clone();
    assert!(a.inner_mut().try_send(1).is_ok());
    assert!(b.inner_mut().try_send(2).is_ok());
    assert_eq!(rx.receiver_mut().try_next().unwrap(), Some(1));
    assert_eq!(rx.receiver_mut().try_next().unwrap(), Some(2));
    drop(tx);
}
