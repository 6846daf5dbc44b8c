//! The checking judgment: is an expression of the type-checked phase well
//! typed against an expected type, under an environment?

use vstd::prelude::*;
use crate::env::Env;
use crate::expr::{ExpTC, Expression, TC};
use crate::typ::Typ;

verus! {

impl ExpTC {
    /// The judgment itself, `env |- self : expected`, by the shape of the
    /// expression:
    ///
    /// - a literal has every type, not the integer type alone;
    /// - a variable has the type that the environment binds it to, and no
    ///   other;
    /// - an ascription has its declared type, provided its inner expression
    ///   has it too;
    /// - an abstraction has an arrow type when its body has the codomain
    ///   under the environment that rebinds the parameter to the domain;
    /// - an application has a type when its argument has the annotated type
    ///   and its callee the arrow from the annotated type to that type;
    /// - the extension point has no type.
    pub open spec fn well_typed(self, env: Map<Seq<char>, Typ>, expected: Typ) -> bool
        decreases self,
    {
        match self {
            Expression::Lit(_, _) => true,
            Expression::Var(_, x) => env.contains_key(x@) && env[x@] == expected,
            Expression::Ann(_, inner, declared) => declared == expected && inner.well_typed(
                env,
                expected,
            ),
            Expression::Abs(_, x, body) => match expected {
                Typ::Fun(domain, codomain) => body.well_typed(env.insert(x@, *domain), *codomain),
                Typ::I => false,
            },
            Expression::App(arg_typ, callee, argument) => argument.well_typed(env, arg_typ)
                && callee.well_typed(env, Typ::Fun(Box::new(arg_typ), Box::new(expected))),
            Expression::Exp(_) => false,
        }
    }

    /// Decides the judgment. The environment is only read: an abstraction
    /// checks its body under an extended copy.
    pub fn check(&self, env: &Env, expected: Typ) -> (r: bool)
        ensures
            r == self.well_typed(env@, expected),
        decreases *self,
    {
        match self {
            Expression::Lit(_, _) => true,
            Expression::Var(_, x) => match env.get(x) {
                Some(bound) => *bound == expected,
                None => false,
            },
            Expression::Ann(_, inner, declared) => expected == *declared && inner.check(
                env,
                expected,
            ),
            Expression::Abs(_, x, body) => match expected {
                Typ::Fun(domain, codomain) => {
                    let inner_env = env.extended(x.clone(), *domain);
                    body.check(&inner_env, *codomain)
                },
                Typ::I => false,
            },
            Expression::App(arg_typ, callee, argument) => argument.check(env, arg_typ.clone())
                && callee.check(env, Typ::arrow(arg_typ.clone(), expected)),
            Expression::Exp(_) => false,
        }
    }
}

/// A literal has every type, under every environment.
pub proof fn lemma_literal_accepted(n: i32, env: Map<Seq<char>, Typ>, expected: Typ)
    ensures
        Expression::<TC>::Lit((), n).well_typed(env, expected),
{
}

/// A variable has a type exactly when the environment binds it to that type.
pub proof fn lemma_variable_lookup(x: String, env: Map<Seq<char>, Typ>, expected: Typ)
    ensures
        Expression::<TC>::Var((), x).well_typed(env, expected) <==> (env.contains_key(x@)
            && env[x@] == expected),
{
}

/// An ascription has a type exactly when that type is the declared one and
/// the inner expression has it; against any other type it fails, whatever the
/// inner expression is.
pub proof fn lemma_ascription_conjunction(
    inner: ExpTC,
    declared: Typ,
    env: Map<Seq<char>, Typ>,
    expected: Typ,
)
    ensures
        Expression::<TC>::Ann((), Box::new(inner), declared).well_typed(env, expected) <==> (
        declared == expected && inner.well_typed(env, expected)),
        expected != declared ==> !Expression::<TC>::Ann((), Box::new(inner), declared).well_typed(
            env,
            expected,
        ),
{
}

/// An abstraction has no type that is not an arrow. Against an arrow it has
/// the type exactly when its body has the codomain once the parameter is
/// bound to the domain.
pub proof fn lemma_abstraction_shape(
    x: String,
    body: ExpTC,
    env: Map<Seq<char>, Typ>,
    expected: Typ,
)
    ensures
        !(expected is Fun) ==> !Expression::<TC>::Abs((), x, Box::new(body)).well_typed(
            env,
            expected,
        ),
        expected matches Typ::Fun(d, c) ==> (Expression::<TC>::Abs((), x, Box::new(body)).well_typed(
            env,
            expected,
        ) <==> body.well_typed(env.insert(x@, *d), *c)),
{
}

/// Rebinding by an abstraction is local. Where the environment already binds
/// the parameter, the body sees the parameter at the arrow's domain and no
/// longer at its earlier type, while an argument that stands beside the
/// abstraction in an application is still judged under the environment as it
/// was.
pub proof fn lemma_shadowing_is_local(
    x: String,
    body: ExpTC,
    argument: ExpTC,
    env: Map<Seq<char>, Typ>,
    domain: Typ,
    codomain: Typ,
)
    requires
        env.contains_key(x@),
    ensures
        Expression::<TC>::Abs((), x, Box::new(body)).well_typed(
            env,
            Typ::Fun(Box::new(domain), Box::new(codomain)),
        ) <==> body.well_typed(env.insert(x@, domain), codomain),
        env.insert(x@, domain)[x@] == domain,
        Expression::<TC>::Abs((), x, Box::new(Expression::Var((), x))).well_typed(
            env,
            Typ::Fun(Box::new(domain), Box::new(codomain)),
        ) <==> domain == codomain,
        Expression::<TC>::App(
            domain,
            Box::new(Expression::Abs((), x, Box::new(body))),
            Box::new(argument),
        ).well_typed(env, codomain) <==> (argument.well_typed(env, domain) && body.well_typed(
            env.insert(x@, domain),
            codomain,
        )),
{
    reveal_with_fuel(Expression::well_typed, 3);
}

/// An application has a type exactly when its argument has the annotated
/// type and its callee has the arrow from the annotated type to that type.
pub proof fn lemma_application_composition(
    arg_typ: Typ,
    callee: ExpTC,
    argument: ExpTC,
    env: Map<Seq<char>, Typ>,
    expected: Typ,
)
    ensures
        Expression::<TC>::App(arg_typ, Box::new(callee), Box::new(argument)).well_typed(
            env,
            expected,
        ) <==> (argument.well_typed(env, arg_typ) && callee.well_typed(
            env,
            Typ::Fun(Box::new(arg_typ), Box::new(expected)),
        )),
{
}

/// The extension point has no type.
pub proof fn lemma_extension_rejected(env: Map<Seq<char>, Typ>, expected: Typ)
    ensures
        !Expression::<TC>::Exp(()).well_typed(env, expected),
{
}

} // verus!
