# ak

A small actor runtime on top of `futures` and `tokio`. Each actor runs in a
task of its own, receives messages through a bounded mailbox, and answers each
message through a one-shot channel. Handlers may await; a rewrite turns each
await of a handler into a suspension point, so that the actor's context is
given up while the handler waits.

The library in `src/` is verified with Verus:

- `poll`: the decisions of the loop that runs an actor each time its task is
  polled (rounds of mailbox draining and item polling, ending in `Pending`).
- `context`: the state an actor runs in (queued items, waker, running flag).
- `addr`: messages and the creation of an actor's mailbox.
- `mailbox`: the two halves of a mailbox, each recording which mailbox it
  belongs to and its shared slots, set only by the calls into the channel crate.
- `waker`: the stored waker of an actor's task and the count of wake-ups sent
  through it, raised only by the call that wakes.
- `suspend_points`: the rewrite of awaits into suspension points.
- `types`: a future that holds a context while another future runs.
- `test_actor`: the counting actor of the demonstration program.
- `ring`: the nodes of the ring benchmark and where a counter going round stops.
- `computation`: the computations the demonstration program declares and leaves unimplemented; they may not be called.

`app/` holds the parts that only the executor can do: the task that polls an
actor, the handler and action traits, addresses and recipients, the runtime,
the conversion between `syn` syntax trees and the library's expression trees,
and the demonstration program.
