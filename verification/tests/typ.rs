use phased_lambda::typ::Typ;

fn fun(d: Typ, c: Typ) -> Typ {
    Typ::Fun(Box::new(d), Box::new(c))
}

#[test]
fn equality_is_structural() {
    assert!(Typ::I.equals(&Typ::I));
    assert!(Typ::I == Typ::I);
    assert!(!Typ::I.equals(&fun(Typ::I, Typ::I)));
    assert!(!fun(Typ::I, Typ::I).equals(&Typ::I));
    assert!(fun(Typ::I, Typ::I).equals(&fun(Typ::I, Typ::I)));
    let left = fun(fun(Typ::I, Typ::I), Typ::I);
    let right = fun(Typ::I, fun(Typ::I, Typ::I));
    assert!(left != right);
    assert!(!left.equals(&right));
    assert!(left.equals(&fun(fun(Typ::I, Typ::I), Typ::I)));
    assert!(left == left.clone());
}

#[test]
fn arrow_builds_a_function_type() {
    assert_eq!(Typ::arrow(Typ::I, Typ::I), fun(Typ::I, Typ::I));
    assert_eq!(
        Typ::arrow(fun(Typ::I, Typ::I), Typ::I),
        Typ::Fun(Box::new(fun(Typ::I, Typ::I)), Box::new(Typ::I))
    );
    assert_ne!(Typ::arrow(Typ::I, fun(Typ::I, Typ::I)), Typ::arrow(fun(Typ::I, Typ::I), Typ::I));
}

#[test]
fn clone_is_the_same_tree() {
    let t = fun(fun(Typ::I, fun(Typ::I, Typ::I)), Typ::I);
    let u = t.clone();
    assert_eq!(t, u);
    assert_eq!(Typ::I.clone(), Typ::I);
}
