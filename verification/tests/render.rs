use phased_lambda::expr::{ExpTC, ExpUD, Expression};
use phased_lambda::render::{render_abs, render_int, render_var, Render};
use phased_lambda::typ::Typ;

fn fun(d: Typ, c: Typ) -> Typ {
    Typ::Fun(Box::new(d), Box::new(c))
}

#[test]
fn integers_in_decimal() {
    assert_eq!(render_int(0), "0");
    assert_eq!(render_int(7), "7");
    assert_eq!(render_int(10), "10");
    assert_eq!(render_int(-1), "-1");
    assert_eq!(render_int(1234567890), "1234567890");
    assert_eq!(render_int(-908), "-908");
    assert_eq!(render_int(i32::MAX), "2147483647");
    assert_eq!(render_int(i32::MIN), "-2147483648");
}

#[test]
fn integers_agree_with_std() {
    for n in [-100000, -4096, -99, -10, -9, 9, 11, 99, 100, 101, 65535, 1000000] {
        assert_eq!(render_int(n), format!("{}", n));
    }
}

#[test]
fn types_as_text() {
    assert_eq!(Typ::I.render(), "I");
    assert_eq!(fun(Typ::I, Typ::I).render(), "Fun(I, I)");
    assert_eq!(fun(fun(Typ::I, Typ::I), Typ::I).render(), "Fun(Fun(I, I), I)");
    assert_eq!(fun(Typ::I, fun(Typ::I, Typ::I)).render(), "Fun(I, Fun(I, I))");
    assert_eq!(().render(), "()");
}

#[test]
fn types_as_text_agree_with_debug() {
    let t = fun(fun(Typ::I, fun(Typ::I, Typ::I)), fun(Typ::I, Typ::I));
    assert_eq!(t.render(), format!("{:?}", t));
}

#[test]
fn leaves_as_text() {
    let lit: ExpTC = Expression::Lit((), 5);
    assert_eq!(lit.render(), "Lit { ξ: (), n: 5 }");
    let neg: ExpUD = Expression::Lit((), -42);
    assert_eq!(neg.render(), "Lit { ξ: (), n: -42 }");
    let var: ExpTC = Expression::Var((), "x".to_owned());
    assert_eq!(var.render(), "Var { ξ: (), x: \"x\" }");
    let ext: ExpUD = Expression::Exp(());
    assert_eq!(ext.render(), "Exp { ξ: () }");
}

#[test]
fn nodes_as_text() {
    let ann: ExpTC = Expression::Ann((), Box::new(Expression::Lit((), 10)), fun(Typ::I, Typ::I));
    assert_eq!(
        ann.render(),
        "Ann { ξ: (), x: Lit { ξ: (), n: 10 }, α: Fun(I, I) }"
    );
    let abs: ExpTC = Expression::Abs(
        (),
        "y".to_owned(),
        Box::new(Expression::App(
            Typ::I,
            Box::new(Expression::Var((), "y".to_owned())),
            Box::new(Expression::Var((), "x".to_owned())),
        )),
    );
    assert_eq!(
        abs.render(),
        "Abs { ξ: (), x: \"y\", m: App { ξ: I, f: Var { ξ: (), x: \"y\" }, x: Var { ξ: (), x: \"x\" } } }"
    );
}

#[test]
fn application_annotation_depends_on_the_phase() {
    let fresh: ExpUD = Expression::App(
        (),
        Box::new(Expression::Var((), "f".to_owned())),
        Box::new(Expression::Lit((), 1)),
    );
    assert_eq!(
        fresh.render(),
        "App { ξ: (), f: Var { ξ: (), x: \"f\" }, x: Lit { ξ: (), n: 1 } }"
    );
    let elaborated: ExpTC = Expression::App(
        fun(Typ::I, Typ::I),
        Box::new(Expression::Var((), "f".to_owned())),
        Box::new(Expression::Lit((), 1)),
    );
    assert_eq!(
        elaborated.render(),
        "App { ξ: Fun(I, I), f: Var { ξ: (), x: \"f\" }, x: Lit { ξ: (), n: 1 } }"
    );
}

#[test]
fn different_trees_different_text() {
    let a: ExpTC = Expression::Var((), "x".to_owned());
    let b: ExpTC = Expression::Var((), "y".to_owned());
    let c: ExpTC = Expression::Lit((), 0);
    assert_ne!(a.render(), b.render());
    assert_ne!(a.render(), c.render());
    assert_eq!(a.render(), a.render());
}

#[test]
fn application_of_literals_as_text() {
    let e: ExpTC = Expression::App(
        fun(Typ::I, Typ::I),
        Box::new(Expression::Lit((), 1)),
        Box::new(Expression::Lit((), 2)),
    );
    assert_eq!(
        e.render(),
        "App { ξ: Fun(I, I), f: Lit { ξ: (), n: 1 }, x: Lit { ξ: (), n: 2 } }"
    );
    let u: ExpUD = Expression::App(
        (),
        Box::new(Expression::Lit((), 1)),
        Box::new(Expression::Lit((), 2)),
    );
    assert_eq!(
        u.render(),
        "App { ξ: (), f: Lit { ξ: (), n: 1 }, x: Lit { ξ: (), n: 2 } }"
    );
}

#[test]
fn identity_as_text() {
    let e: ExpUD = Expression::Abs(
        (),
        "x".to_owned(),
        Box::new(Expression::Var((), "x".to_owned())),
    );
    assert_eq!(e.render(), "Abs { ξ: (), x: \"x\", m: Var { ξ: (), x: \"x\" } }");
}

#[test]
fn ascription_as_text() {
    let e: ExpTC = Expression::Ann((), Box::new(Expression::Lit((), 10)), Typ::I);
    assert_eq!(e.render(), "Ann { ξ: (), x: Lit { ξ: (), n: 10 }, α: I }");
}

#[test]
fn extension_point_as_text() {
    let e: ExpUD = Expression::Exp(());
    assert_eq!(e.render(), "Exp { ξ: () }");
    let t: ExpTC = Expression::Exp(());
    assert_eq!(t.render(), "Exp { ξ: () }");
}

#[test]
fn names_are_escaped() {
    let quote: ExpTC = Expression::Var((), "\"".to_owned());
    assert_eq!(quote.render(), "Var { ξ: (), x: \"\\\"\" }");
    let backslash: ExpTC = Expression::Var((), "a\\b".to_owned());
    assert_eq!(backslash.render(), "Var { ξ: (), x: \"a\\\\b\" }");
    let newline: ExpUD = Expression::Abs((), "a\nb".to_owned(), Box::new(Expression::Lit((), 0)));
    assert_eq!(
        newline.render(),
        "Abs { ξ: (), x: \"a\\nb\", m: Lit { ξ: (), n: 0 } }"
    );
    let empty: ExpTC = Expression::Var((), String::new());
    assert_eq!(empty.render(), "Var { ξ: (), x: \"\" }");
}

#[test]
fn names_agree_with_std() {
    for name in ["x", "", "\"", "\\", "tab\there", "it's", "f g", "\u{3be}", "\u{7f}"] {
        let e: ExpTC = Expression::Var((), name.to_owned());
        assert_eq!(e.render(), format!("Var {{ ξ: (), x: {:?} }}", name));
    }
}

#[test]
fn a_quote_in_a_name_cannot_pass_for_structure() {
    let trick = "\", m: Var { ξ: (), x: \"";
    let a: ExpTC = Expression::Abs(
        (),
        String::new(),
        Box::new(Expression::Var((), trick.to_owned())),
    );
    let b: ExpTC = Expression::Abs(
        (),
        trick.to_owned(),
        Box::new(Expression::Var((), String::new())),
    );
    assert_ne!(a.render(), b.render());
}

#[test]
fn node_layouts() {
    assert_eq!(render_var("()", "\"x\""), "Var { ξ: (), x: \"x\" }");
    assert_eq!(render_var("", ""), "Var { ξ: , x:  }");
    assert_eq!(
        render_abs("()", "\"y\"", "Lit { ξ: (), n: 3 }"),
        "Abs { ξ: (), x: \"y\", m: Lit { ξ: (), n: 3 } }"
    );
    assert_eq!(render_abs("A", "B", "C"), "Abs { ξ: A, x: B, m: C }");
}
