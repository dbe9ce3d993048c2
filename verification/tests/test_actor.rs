use ak::addr::channel;
use ak::context::Context;
use ak::test_actor::{can_handle, handle_test_message, TestActor, TestReply};

fn ctx_with(x: i32) -> Context<TestActor, (), ()> {
    let (tx, _rx) = channel::<()>();
    Context::new(TestActor { x }, tx)
}

#[test]
fn first_message_replies_at_once() {
    let mut ctx = ctx_with(0);
    let r = handle_test_message(&mut ctx);
    assert_eq!(r, TestReply { value: 1, delay_secs: None });
    assert_eq!(ctx.actor().x, 1);
    assert!(!ctx.is_running());
}

#[test]
fn later_messages_wait_twice_the_count() {
    let mut ctx = ctx_with(1);
    assert_eq!(handle_test_message(&mut ctx), TestReply { value: 2, delay_secs: Some(4) });
    assert_eq!(handle_test_message(&mut ctx), TestReply { value: 3, delay_secs: Some(6) });
    assert_eq!(ctx.actor().x, 3);
}

#[test]
fn negative_count_replies_at_once() {
    let mut ctx = ctx_with(-5);
    assert_eq!(handle_test_message(&mut ctx), TestReply { value: -4, delay_secs: None });
}

#[test]
fn counts_that_would_overflow_are_refused() {
    assert!(can_handle(0));
    assert!(can_handle(1073741822));
    assert!(!can_handle(1073741823));
    assert!(!can_handle(i32::MAX));
    assert!(can_handle(i32::MIN));
    assert!(can_handle(-2));
}
