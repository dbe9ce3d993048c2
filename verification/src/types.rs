//! A future that runs while its actor's context is given up, and hands the
//! context back together with the future's output.
use vstd::prelude::*;

verus! {

/// A future `f` together with the context it gave up. The context is handed
/// back once, when the future completes.
pub struct Suspend<C, F> {
    ctx: Option<C>,
    f: F,
}

impl<C, F> Suspend<C, F> {
    /// The context still held, if the suspension has not completed.
    pub closed spec fn held(&self) -> Option<C> {
        self.ctx
    }

    /// The future that runs during the suspension.
    pub closed spec fn future(&self) -> F {
        self.f
    }

    /// Gives up `ctx` while `f` runs.
    pub fn new(ctx: C, f: F) -> (res: Self)
        ensures
            res.held() == Some(ctx),
            res.future() == f,
    {
        Suspend { ctx: Some(ctx), f }
    }

    /// Whether the context is still held, that is, the suspension has not
    /// completed yet.
    pub fn is_holding(&self) -> (res: bool)
        ensures
            res == self.held() is Some,
    {
        self.ctx.is_some()
    }

    /// The future, to poll it.
    pub fn future_mut(&mut self) -> (res: &mut F)
        ensures
            *res == old(self).future(),
            final(self).future() == *final(res),
            final(self).held() == old(self).held(),
    {
        &mut self.f
    }

    /// Completes the suspension with the future's output: the context comes
    /// back with it, and is no longer held.
    pub fn complete<O>(&mut self, output: O) -> (res: (C, O))
        requires
            old(self).held() is Some,
        ensures
            res == (old(self).held()->0, output),
            final(self).held() is None,
            final(self).future() == old(self).future(),
    {
        let ctx = self.ctx.take().unwrap();
        (ctx, output)
    }
}

} // verus!
