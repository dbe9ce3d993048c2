//! The rewrite behind the `suspend` attribute.
//!
//! A handler body borrows its context for the whole of its future. To let
//! other messages reach the actor while the handler waits, every `.await` in
//! the body is turned into a suspension point: the awaited future is handed to
//! the context, which gives itself up while the future runs and is handed back
//! with the future's output. Awaits nested in the awaited expression are
//! rewritten first; nothing but awaits changes.
//!
//! Expressions are modelled as trees: an `.await` with the expression it
//! awaits, a suspension point with the expression it awaits, and every other
//! expression as a payload (the expression with its sub-expressions taken
//! out) followed by those sub-expressions in order.
use vstd::prelude::*;

verus! {

/// An expression of a handler body.
#[derive(Debug, PartialEq, Eq)]
pub enum Expr<T> {
    /// Any expression other than an await: its payload and its sub-expressions.
    Node(T, Exprs<T>),
    /// `base.await`.
    Await(Box<Expr<T>>),
    /// A suspension point that awaits `base` with the context given up.
    Suspend(Box<Expr<T>>),
}

/// The sub-expressions of a node, in order.
#[derive(Debug, PartialEq, Eq)]
pub enum Exprs<T> {
    Nil,
    Cons(Box<Expr<T>>, Box<Exprs<T>>),
}

/// The expression with every await turned into a suspension point.
pub open spec fn rewritten<T>(e: Expr<T>) -> Expr<T>
    decreases e,
{
    match e {
        Expr::Node(p, cs) => Expr::Node(p, rewritten_all(cs)),
        Expr::Await(b) => Expr::Suspend(Box::new(rewritten(*b))),
        Expr::Suspend(b) => Expr::Suspend(Box::new(rewritten(*b))),
    }
}

/// Every expression of the list rewritten, in the same order.
pub open spec fn rewritten_all<T>(l: Exprs<T>) -> Exprs<T>
    decreases l,
{
    match l {
        Exprs::Nil => Exprs::Nil,
        Exprs::Cons(h, t) => Exprs::Cons(Box::new(rewritten(*h)), Box::new(rewritten_all(*t))),
    }
}

/// The number of awaits in an expression.
pub open spec fn await_count<T>(e: Expr<T>) -> nat
    decreases e,
{
    match e {
        Expr::Node(_, cs) => await_count_all(cs),
        Expr::Await(b) => 1 + await_count(*b),
        Expr::Suspend(b) => await_count(*b),
    }
}

/// The number of awaits in a list of expressions.
pub open spec fn await_count_all<T>(l: Exprs<T>) -> nat
    decreases l,
{
    match l {
        Exprs::Nil => 0,
        Exprs::Cons(h, t) => await_count(*h) + await_count_all(*t),
    }
}

/// The number of suspension points in an expression.
pub open spec fn suspend_count<T>(e: Expr<T>) -> nat
    decreases e,
{
    match e {
        Expr::Node(_, cs) => suspend_count_all(cs),
        Expr::Await(b) => suspend_count(*b),
        Expr::Suspend(b) => 1 + suspend_count(*b),
    }
}

/// The number of suspension points in a list of expressions.
pub open spec fn suspend_count_all<T>(l: Exprs<T>) -> nat
    decreases l,
{
    match l {
        Exprs::Nil => 0,
        Exprs::Cons(h, t) => suspend_count(*h) + suspend_count_all(*t),
    }
}

/// The expression with every suspension point read back as a plain await.
pub open spec fn erased<T>(e: Expr<T>) -> Expr<T>
    decreases e,
{
    match e {
        Expr::Node(p, cs) => Expr::Node(p, erased_all(cs)),
        Expr::Await(b) => Expr::Await(Box::new(erased(*b))),
        Expr::Suspend(b) => Expr::Await(Box::new(erased(*b))),
    }
}

/// Every expression of the list erased, in the same order.
pub open spec fn erased_all<T>(l: Exprs<T>) -> Exprs<T>
    decreases l,
{
    match l {
        Exprs::Nil => Exprs::Nil,
        Exprs::Cons(h, t) => Exprs::Cons(Box::new(erased(*h)), Box::new(erased_all(*t))),
    }
}

/// The expressions of a list, as a sequence.
pub open spec fn exprs_seq<T>(l: Exprs<T>) -> Seq<Expr<T>>
    decreases l,
{
    match l {
        Exprs::Nil => Seq::empty(),
        Exprs::Cons(h, t) => seq![*h].add(exprs_seq(*t)),
    }
}

/// Turns every await of the expression into a suspension point, the awaits
/// inside the awaited expression first.
pub fn rewrite_awaits<T>(e: Expr<T>) -> (res: Expr<T>)
    ensures
        res == rewritten(e),
    decreases e,
{
    match e {
        Expr::Node(p, cs) => Expr::Node(p, rewrite_awaits_all(cs)),
        Expr::Await(b) => Expr::Suspend(Box::new(rewrite_awaits(*b))),
        Expr::Suspend(b) => Expr::Suspend(Box::new(rewrite_awaits(*b))),
    }
}

/// Rewrites every expression of the list, keeping their order.
pub fn rewrite_awaits_all<T>(l: Exprs<T>) -> (res: Exprs<T>)
    ensures
        res == rewritten_all(l),
    decreases l,
{
    match l {
        Exprs::Nil => Exprs::Nil,
        Exprs::Cons(h, t) => Exprs::Cons(
            Box::new(rewrite_awaits(*h)),
            Box::new(rewrite_awaits_all(*t)),
        ),
    }
}

/// Builds the list that holds the expressions of `v`, in order.
pub fn exprs_from_vec<T>(v: Vec<Expr<T>>) -> (res: Exprs<T>)
    ensures
        exprs_seq(res) == v@,
{
    let ghost orig = v@;
    let mut v = v;
    let mut acc: Exprs<T> = Exprs::Nil;
    while v.len() > 0
        invariant
            v@.len() <= orig.len(),
            v@ == orig.subrange(0, v@.len() as int),
            exprs_seq(acc) == orig.subrange(v@.len() as int, orig.len() as int),
        decreases v@.len(),
    {
        let x = v.pop().unwrap();
        assert(orig.subrange(v@.len() as int, orig.len() as int) == seq![x].add(
            orig.subrange(v@.len() + 1int, orig.len() as int),
        ));
        acc = Exprs::Cons(Box::new(x), Box::new(acc));
    }
    assert(orig.subrange(0, orig.len() as int) == orig);
    acc
}

/// Gives back the expressions of the list, in order.
pub fn exprs_into_vec<T>(l: Exprs<T>) -> (res: Vec<Expr<T>>)
    ensures
        res@ == exprs_seq(l),
{
    let mut out: Vec<Expr<T>> = Vec::new();
    let mut cur = l;
    loop
        invariant
            out@ + exprs_seq(cur) == exprs_seq(l),
        decreases exprs_seq(cur).len(),
    {
        match cur {
            Exprs::Nil => {
                assert(out@ + exprs_seq(cur) == out@);
                return out;
            },
            Exprs::Cons(h, t) => {
                let ghost before = out@;
                out.push(*h);
                assert(out@ + exprs_seq(*t) == before + exprs_seq(Exprs::Cons(h, t)));
                cur = *t;
            },
        }
    }
}

/// After the rewrite no await is left.
pub proof fn lemma_no_await_left<T>(e: Expr<T>)
    ensures
        await_count(rewritten(e)) == 0,
    decreases e,
{
    match e {
        Expr::Node(_, cs) => lemma_no_await_left_all(cs),
        Expr::Await(b) => lemma_no_await_left(*b),
        Expr::Suspend(b) => lemma_no_await_left(*b),
    }
}

/// After the rewrite no await is left in any expression of the list.
pub proof fn lemma_no_await_left_all<T>(l: Exprs<T>)
    ensures
        await_count_all(rewritten_all(l)) == 0,
    decreases l,
{
    match l {
        Exprs::Nil => {},
        Exprs::Cons(h, t) => {
            lemma_no_await_left(*h);
            lemma_no_await_left_all(*t);
        },
    }
}

/// Each await becomes exactly one suspension point.
pub proof fn lemma_one_suspension_per_await<T>(e: Expr<T>)
    ensures
        suspend_count(rewritten(e)) == suspend_count(e) + await_count(e),
    decreases e,
{
    match e {
        Expr::Node(_, cs) => lemma_one_suspension_per_await_all(cs),
        Expr::Await(b) => lemma_one_suspension_per_await(*b),
        Expr::Suspend(b) => lemma_one_suspension_per_await(*b),
    }
}

/// Each await of the list becomes exactly one suspension point.
pub proof fn lemma_one_suspension_per_await_all<T>(l: Exprs<T>)
    ensures
        suspend_count_all(rewritten_all(l)) == suspend_count_all(l) + await_count_all(l),
    decreases l,
{
    match l {
        Exprs::Nil => {},
        Exprs::Cons(h, t) => {
            lemma_one_suspension_per_await(*h);
            lemma_one_suspension_per_await_all(*t);
        },
    }
}

/// The rewrite changes nothing but awaits: reading the suspension points back
/// as awaits gives the expression that was rewritten, read the same way.
pub proof fn lemma_rewrite_changes_only_awaits<T>(e: Expr<T>)
    ensures
        erased(rewritten(e)) == erased(e),
    decreases e,
{
    match e {
        Expr::Node(_, cs) => lemma_rewrite_changes_only_awaits_all(cs),
        Expr::Await(b) => lemma_rewrite_changes_only_awaits(*b),
        Expr::Suspend(b) => lemma_rewrite_changes_only_awaits(*b),
    }
}

/// The rewrite of a list changes nothing but awaits.
pub proof fn lemma_rewrite_changes_only_awaits_all<T>(l: Exprs<T>)
    ensures
        erased_all(rewritten_all(l)) == erased_all(l),
    decreases l,
{
    match l {
        Exprs::Nil => {},
        Exprs::Cons(h, t) => {
            lemma_rewrite_changes_only_awaits(*h);
            lemma_rewrite_changes_only_awaits_all(*t);
        },
    }
}

/// On an expression written without suspension points, reading the
/// suspension points back as awaits undoes the rewrite.
pub proof fn lemma_erase_undoes_rewrite<T>(e: Expr<T>)
    requires
        suspend_count(e) == 0,
    ensures
        erased(rewritten(e)) == e,
{
    lemma_rewrite_changes_only_awaits(e);
    lemma_erase_keeps_plain(e);
}

/// Erasing an expression without suspension points leaves it as it is.
pub proof fn lemma_erase_keeps_plain<T>(e: Expr<T>)
    requires
        suspend_count(e) == 0,
    ensures
        erased(e) == e,
    decreases e,
{
    match e {
        Expr::Node(_, cs) => lemma_erase_keeps_plain_all(cs),
        Expr::Await(b) => lemma_erase_keeps_plain(*b),
        Expr::Suspend(b) => {},
    }
}

/// Erasing a list without suspension points leaves it as it is.
pub proof fn lemma_erase_keeps_plain_all<T>(l: Exprs<T>)
    requires
        suspend_count_all(l) == 0,
    ensures
        erased_all(l) == l,
    decreases l,
{
    match l {
        Exprs::Nil => {},
        Exprs::Cons(h, t) => {
            lemma_erase_keeps_plain(*h);
            lemma_erase_keeps_plain_all(*t);
        },
    }
}

/// The rewrite keeps the number and the order of the expressions of a list.
pub proof fn lemma_rewrite_keeps_list_shape<T>(l: Exprs<T>)
    ensures
        exprs_seq(rewritten_all(l)).len() == exprs_seq(l).len(),
        forall|i: int|
            0 <= i < exprs_seq(l).len() ==> #[trigger] exprs_seq(rewritten_all(l))[i] == rewritten(
                exprs_seq(l)[i],
            ),
    decreases l,
{
    match l {
        Exprs::Nil => {},
        Exprs::Cons(h, t) => {
            lemma_rewrite_keeps_list_shape(*t);
            assert forall|i: int| 0 <= i < exprs_seq(l).len() implies #[trigger] exprs_seq(
                rewritten_all(l),
            )[i] == rewritten(exprs_seq(l)[i]) by {
                if i > 0 {
                    assert(exprs_seq(rewritten_all(l))[i] == exprs_seq(rewritten_all(*t))[i - 1]);
                    assert(exprs_seq(l)[i] == exprs_seq(*t)[i - 1]);
                }
            }
        },
    }
}

} // verus!
