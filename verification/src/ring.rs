//! The nodes of the ring benchmark: a chain of actors, closed into a ring by
//! passing the first node's address down the chain, then a counter passed
//! from node to node until it reaches the nodes' limit.
use crate::context::{spec_stop, Context, ContextView};
use vstd::prelude::*;

verus! {

/// A node of the ring; `next` is the address of the node it passes to.
pub struct RingNode<N> {
    pub id: usize,
    pub limit: usize,
    pub next: Option<N>,
}

/// What a node does with a counter.
#[derive(PartialEq, Eq, Structural, Debug, Clone, Copy)]
pub enum PayloadStep {
    /// The counter reached the limit: the node stops.
    Stop,
    /// Pass this counter to the next node.
    Forward(usize),
    /// The node has no next node: the ring was not built.
    Unchained,
}

/// The decision of a node on counter `payload`.
pub open spec fn spec_payload_step<N>(node: RingNode<N>, payload: usize) -> PayloadStep {
    if payload >= node.limit {
        PayloadStep::Stop
    } else if node.next is Some {
        PayloadStep::Forward((payload + 1) as usize)
    } else {
        PayloadStep::Unchained
    }
}

/// The node after it receives the first node's address, and the address it
/// passes on, if any: a node with a next node passes the address on, the
/// last node of the chain takes it as its next node.
pub open spec fn spec_first_addr<N>(node: RingNode<N>, first: N) -> (RingNode<N>, Option<N>) {
    if node.next is Some {
        (node, Some(first))
    } else {
        (RingNode { next: Some(first), ..node }, None)
    }
}

/// Handles a counter: stops the node once the counter reached the limit,
/// else says to pass the next counter on.
pub fn handle_payload<N, I, T>(ctx: &mut Context<RingNode<N>, I, T>, payload: usize) -> (res:
    PayloadStep)
    ensures
        res == spec_payload_step(old(ctx)@.actor, payload),
        payload >= old(ctx)@.actor.limit <==> res == PayloadStep::Stop,
        res == PayloadStep::Stop ==> !final(ctx)@.running,
        res is Forward ==> res->Forward_0 == payload + 1,
        final(ctx)@ == (if res is Stop {
            spec_stop(old(ctx)@)
        } else {
            old(ctx)@
        }),
{
    let limit = ctx.actor().limit;
    if payload >= limit {
        ctx.stop();
        PayloadStep::Stop
    } else if ctx.actor().next.is_some() {
        PayloadStep::Forward(payload + 1)
    } else {
        PayloadStep::Unchained
    }
}

/// Handles the first node's address: a node that has a next node gives it
/// back to be passed on; the last node keeps it as its next node.
pub fn handle_first_addr<N, I, T>(ctx: &mut Context<RingNode<N>, I, T>, first: N) -> (res:
    Option<N>)
    ensures
        (final(ctx)@.actor, res) == spec_first_addr(old(ctx)@.actor, first),
        old(ctx)@.actor.next is Some ==> final(ctx)@.actor == old(ctx)@.actor && res == Some(first),
        final(ctx)@.actor.id == old(ctx)@.actor.id,
        final(ctx)@.actor.limit == old(ctx)@.actor.limit,
        final(ctx)@ == (ContextView { actor: final(ctx)@.actor, ..old(ctx)@ }),
{
    let node = ctx.actor_mut();
    if node.next.is_some() {
        Some(first)
    } else {
        node.next = Some(first);
        None
    }
}

/// A node stops on every counter that has reached its limit, at it or past
/// it; on a counter below the limit it passes on the next counter, one more,
/// when it has a next node, and reports the missing link otherwise.
pub proof fn lemma_payload_decision<N>(node: RingNode<N>, payload: usize)
    ensures
        payload >= node.limit ==> spec_payload_step(node, payload) == PayloadStep::Stop,
        payload < node.limit && node.next is Some ==> spec_payload_step(node, payload)
            == PayloadStep::Forward((payload + 1) as usize) && payload + 1 <= node.limit,
        payload < node.limit && node.next is None ==> spec_payload_step(node, payload)
            == PayloadStep::Unchained,
{
}

/// A node that has a next node only passes the first address on and stays
/// exactly as it was; the last node of the chain keeps the address as its
/// next node and changes nothing else.
pub proof fn lemma_first_addr_decision<N>(node: RingNode<N>, first: N)
    ensures
        node.next is Some ==> spec_first_addr(node, first) == (node, Some(first)),
        node.next is None ==> spec_first_addr(node, first).1 is None,
        node.next is None ==> spec_first_addr(node, first).0.next == Some(first),
        spec_first_addr(node, first).0.id == node.id,
        spec_first_addr(node, first).0.limit == node.limit,
{
}

/// Node `i` of the chain of `n` nodes as it is created: each node but the
/// last knows the next one.
pub open spec fn chain_node(n: nat, limit: usize, i: nat) -> RingNode<nat> {
    RingNode {
        id: i as usize,
        limit,
        next: if i + 1 < n {
            Some(i + 1)
        } else {
            None
        },
    }
}

/// Node `i` of the ring of `n` nodes: the last node knows the first.
pub open spec fn ring_node(n: nat, limit: usize, i: nat) -> RingNode<nat> {
    RingNode { id: i as usize, limit, next: Some((i + 1) % n) }
}

/// The node of the chain that keeps the first node's address, when the
/// address is handed to node `i`.
pub open spec fn adopting_node(n: nat, limit: usize, i: nat) -> nat
    decreases n - i,
{
    if i + 1 < n && spec_first_addr(chain_node(n, limit, i), 0nat).1 is Some {
        adopting_node(n, limit, i + 1)
    } else {
        i
    }
}

/// The node that stops, when the counter `payload` reaches node `node` of
/// the ring of `n` nodes.
pub open spec fn stopping_node(n: nat, limit: usize, node: nat, payload: usize) -> nat
    decreases limit - payload,
{
    match spec_payload_step(ring_node(n, limit, node), payload) {
        PayloadStep::Forward(p) => if payload < p <= limit {
            stopping_node(n, limit, (node + 1) % n, p)
        } else {
            node
        },
        _ => node,
    }
}

/// Handing the first node's address to the first node of a chain closes
/// the chain into a ring: the address travels to the last node, which takes
/// it as its next node, and no other node changes.
pub proof fn lemma_first_addr_closes_ring(n: nat, limit: usize, i: nat)
    requires
        i < n,
    ensures
        adopting_node(n, limit, i) == n - 1,
        spec_first_addr(chain_node(n, limit, (n - 1) as nat), 0nat) == (
            ring_node(n, limit, (n - 1) as nat),
            None::<nat>,
        ),
        forall|j: nat| j + 1 < n ==> #[trigger] chain_node(n, limit, j) == ring_node(n, limit, j),
    decreases n - i,
{
    if i + 1 < n {
        lemma_first_addr_closes_ring(n, limit, i + 1);
    }
    assert(((n - 1) as nat + 1) % n == 0) by {
        vstd::arithmetic::div_mod::lemma_mod_self_0(n as int);
    }
    assert forall|j: nat| j + 1 < n implies #[trigger] chain_node(n, limit, j) == ring_node(
        n,
        limit,
        j,
    ) by {
        vstd::arithmetic::div_mod::lemma_small_mod((j + 1) as nat, n);
    }
}

/// A counter started at node `payload % n` of a ring of `n` nodes, all with
/// the same limit, goes round until it reaches the limit: the node that
/// stops is node `limit % n`.
pub proof fn lemma_ring_stops_at_limit(n: nat, limit: usize, payload: usize)
    requires
        n > 0,
        payload <= limit,
    ensures
        stopping_node(n, limit, payload as nat % n, payload) == limit as nat % n,
    decreases limit - payload,
{
    let node = payload as nat % n;
    if payload < limit {
        let p = (payload + 1) as usize;
        assert(spec_payload_step(ring_node(n, limit, node), payload) == PayloadStep::Forward(p));
        assert((node + 1) % n == p as nat % n) by {
            // (x % n + 1) % n == (1 + x % n) % n == (1 + x) % n
            vstd::arithmetic::div_mod::lemma_add_mod_noop_right(1, payload as int, n as int);
        }
        lemma_ring_stops_at_limit(n, limit, p);
    }
}

} // verus!
