//! The actor that the demonstration program runs.
use crate::context::{spec_stop, Context, ContextView};
use vstd::prelude::*;

verus! {

/// An actor that counts the messages it has handled.
pub struct TestActor {
    pub x: i32,
}

/// How the actor answers a message: after waiting `delay_secs` seconds, if
/// any, it replies `value`.
#[derive(PartialEq, Eq, Structural, Debug, Clone, Copy)]
pub struct TestReply {
    pub value: i32,
    pub delay_secs: Option<u64>,
}

/// Whether handling one more message keeps the count and its doubled delay
/// within `i32`.
pub open spec fn handle_fits(x: i32) -> bool {
    &&& x < i32::MAX
    &&& x + 1 > 1 ==> 2 * (x + 1) <= i32::MAX
}

/// The reply to the message that raises the count to `x`.
pub open spec fn spec_reply(x: int) -> TestReply {
    TestReply {
        value: x as i32,
        delay_secs: if x > 1 {
            Some((2 * x) as u64)
        } else {
            None
        },
    }
}

/// The reply carries the new count, and waits exactly twice the count in
/// seconds once the count is above one, and not at all otherwise.
pub proof fn lemma_reply_waits_twice_the_count(x: i32)
    requires
        handle_fits(x),
    ensures
        spec_reply(x + 1).value == x + 1,
        x + 1 > 1 ==> spec_reply(x + 1).delay_secs == Some((2 * (x + 1)) as u64),
        x + 1 > 1 ==> spec_reply(x + 1).delay_secs->0 == 2 * spec_reply(x + 1).value,
        x + 1 <= 1 ==> spec_reply(x + 1).delay_secs is None,
{
}

/// Whether `handle_test_message` can be called on this count.
pub fn can_handle(x: i32) -> (res: bool)
    ensures
        res == handle_fits(x),
{
    x < i32::MAX && (x + 1 <= 1 || x + 1 <= i32::MAX / 2)
}

/// Handles one message: counts it, stops the actor, and says how to reply:
/// with the new count, after a delay of twice the count in seconds once the
/// count is above one.
pub fn handle_test_message<I, T>(ctx: &mut Context<TestActor, I, T>) -> (res: TestReply)
    requires
        handle_fits(old(ctx)@.actor.x),
    ensures
        final(ctx)@ == spec_stop(
            ContextView { actor: TestActor { x: (old(ctx)@.actor.x + 1) as i32 }, ..old(ctx)@ },
        ),
        res == spec_reply(old(ctx)@.actor.x + 1),
        res.value == old(ctx)@.actor.x + 1,
        res.value > 1 ==> res.delay_secs == Some((2 * res.value) as u64),
        res.value <= 1 ==> res.delay_secs is None,
{
    let a = ctx.actor_mut();
    a.x = a.x + 1;
    let x = a.x;
    ctx.stop();
    let delay_secs = if x > 1 {
        Some((2 * x) as u64)
    } else {
        None
    };
    TestReply { value: x, delay_secs }
}

} // verus!
