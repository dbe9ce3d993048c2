use ak::suspend_points::{exprs_from_vec, exprs_into_vec, rewrite_awaits, rewrite_awaits_all, Expr, Exprs};

fn leaf(s: &'static str) -> Expr<&'static str> {
    Expr::Node(s, Exprs::Nil)
}

fn node(s: &'static str, kids: Vec<Expr<&'static str>>) -> Expr<&'static str> {
    Expr::Node(s, exprs_from_vec(kids))
}

fn awaited(e: Expr<&'static str>) -> Expr<&'static str> {
    Expr::Await(Box::new(e))
}

fn suspended(e: Expr<&'static str>) -> Expr<&'static str> {
    Expr::Suspend(Box::new(e))
}

#[test]
fn test_suspending() {
    // The handler body: `self.x += 1; let res = delay(..).await.await; self.x -= 1; return self.x;`
    let body = node(
        "block",
        vec![
            node("x += 1", vec![]),
            node("let res", vec![awaited(awaited(node("delay_for", vec![leaf("secs")])))]),
            node("x -= 1", vec![]),
            node("return", vec![leaf("self.x")]),
        ],
    );
    let expected = node(
        "block",
        vec![
            node("x += 1", vec![]),
            node("let res", vec![suspended(suspended(node("delay_for", vec![leaf("secs")])))]),
            node("x -= 1", vec![]),
            node("return", vec![leaf("self.x")]),
        ],
    );
    assert_eq!(rewrite_awaits(body), expected);
}

#[test]
fn expression_without_await_is_unchanged() {
    let e = node("call", vec![leaf("a"), node("add", vec![leaf("b"), leaf("c")])]);
    let same = node("call", vec![leaf("a"), node("add", vec![leaf("b"), leaf("c")])]);
    assert_eq!(rewrite_awaits(e), same);
}

#[test]
fn awaits_deep_in_nodes_are_rewritten() {
    let e = node("if", vec![leaf("cond"), node("then", vec![awaited(leaf("fut"))]), awaited(leaf("other"))]);
    let want = node("if", vec![leaf("cond"), node("then", vec![suspended(leaf("fut"))]), suspended(leaf("other"))]);
    assert_eq!(rewrite_awaits(e), want);
}

#[test]
fn awaited_expression_is_rewritten_inside() {
    let e = awaited(node("join", vec![awaited(leaf("a")), leaf("b")]));
    let want = suspended(node("join", vec![suspended(leaf("a")), leaf("b")]));
    assert_eq!(rewrite_awaits(e), want);
}

#[test]
fn list_rewrite_keeps_order() {
    let l = exprs_from_vec(vec![awaited(leaf("a")), leaf("b"), awaited(leaf("c"))]);
    let out = exprs_into_vec(rewrite_awaits_all(l));
    assert_eq!(out, vec![suspended(leaf("a")), leaf("b"), suspended(leaf("c"))]);
}

#[test]
fn vec_list_roundtrip() {
    let v = vec![leaf("a"), leaf("b"), leaf("c")];
    let l = exprs_from_vec(v);
    assert_eq!(
        l,
        Exprs::Cons(
            Box::new(leaf("a")),
            Box::new(Exprs::Cons(Box::new(leaf("b")), Box::new(Exprs::Cons(Box::new(leaf("c")), Box::new(Exprs::Nil))))),
        )
    );
    assert_eq!(exprs_into_vec(l), vec![leaf("a"), leaf("b"), leaf("c")]);
    assert_eq!(exprs_into_vec(exprs_from_vec(Vec::<Expr<&str>>::new())), Vec::<Expr<&str>>::new());
}
