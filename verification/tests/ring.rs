use ak::addr::channel;
use ak::context::Context;
use ak::ring::{handle_first_addr, handle_payload, PayloadStep, RingNode};

fn node(limit: usize, next: Option<u32>) -> Context<RingNode<u32>, (), ()> {
    let (tx, _rx) = channel::<()>();
    Context::new(RingNode { id: 3, limit, next }, tx)
}

#[test]
fn counter_below_limit_is_passed_on() {
    let mut ctx = node(10, Some(4));
    assert_eq!(handle_payload(&mut ctx, 0), PayloadStep::Forward(1));
    assert_eq!(handle_payload(&mut ctx, 9), PayloadStep::Forward(10));
    assert!(ctx.is_running());
}

#[test]
fn counter_at_limit_stops_the_node() {
    let mut ctx = node(10, Some(4));
    assert_eq!(handle_payload(&mut ctx, 10), PayloadStep::Stop);
    assert!(!ctx.is_running());
    let mut ctx = node(0, None);
    assert_eq!(handle_payload(&mut ctx, 0), PayloadStep::Stop);
}

#[test]
fn node_without_next_is_unchained() {
    let mut ctx = node(10, None);
    assert_eq!(handle_payload(&mut ctx, 5), PayloadStep::Unchained);
    assert!(ctx.is_running());
}

#[test]
fn first_address_is_passed_on_then_kept_by_the_last_node() {
    let mut middle = node(10, Some(4));
    assert_eq!(handle_first_addr(&mut middle, 0), Some(0));
    assert_eq!(middle.actor().next, Some(4));
    let mut last = node(10, None);
    assert_eq!(handle_first_addr(&mut last, 0), None);
    assert_eq!(last.actor().next, Some(0));
}

#[test]
fn counter_goes_round_a_small_ring() {
    // Three nodes, limit 7: the counter is handled by nodes 0,1,2,0,1,2,0 and node 1 stops.
    let mut ring: Vec<Context<RingNode<u32>, (), ()>> = (0..3)
        .map(|i| {
            let (tx, _rx) = channel::<()>();
            Context::new(RingNode { id: i, limit: 7, next: Some(((i + 1) % 3) as u32) }, tx)
        })
        .collect();
    let mut at = 0usize;
    let mut payload = 0usize;
    loop {
        match handle_payload(&mut ring[at], payload) {
            PayloadStep::Forward(p) => {
                payload = p;
                at = ring[at].actor().next.unwrap() as usize;
            }
            PayloadStep::Stop => break,
            PayloadStep::Unchained => panic!("ring is closed"),
        }
    }
    assert_eq!(at, 7 % 3);
    assert_eq!(payload, 7);
    assert!(!ring[1].is_running());
    assert!(ring[0].is_running());
}
