//! The type algebra: one atomic type and the function arrow.

use vstd::prelude::*;

verus! {

/// A type of the calculus: the integer type `I`, or a function from the first
/// component to the second.
///
/// A `Typ` is its own mathematical model: two values are equal exactly when
/// they are the same tree.
#[derive(Debug)]
pub enum Typ {
    I,
    Fun(Box<Typ>, Box<Typ>),
}

impl Typ {
    /// Deep structural equality: `true` exactly when the two types are the
    /// same tree.
    pub fn equals(&self, other: &Typ) -> (r: bool)
        ensures
            r == (*self == *other),
        decreases *self,
    {
        match (self, other) {
            (Typ::I, Typ::I) => true,
            (Typ::Fun(d1, c1), Typ::Fun(d2, c2)) => d1.equals(d2) && c1.equals(c2),
            _ => false,
        }
    }

    /// The arrow type from `domain` to `codomain`.
    pub fn arrow(domain: Typ, codomain: Typ) -> (r: Typ)
        ensures
            r == Typ::Fun(Box::new(domain), Box::new(codomain)),
    {
        Typ::Fun(Box::new(domain), Box::new(codomain))
    }
}

impl PartialEq for Typ {
    fn eq(&self, other: &Typ) -> (r: bool) {
        self.equals(other)
    }
}

impl Eq for Typ {}

impl vstd::std_specs::cmp::PartialEqSpecImpl for Typ {
    open spec fn obeys_eq_spec() -> bool {
        true
    }

    open spec fn eq_spec(&self, other: &Typ) -> bool {
        *self == *other
    }
}

impl Clone for Typ {
    /// A copy that is the same tree as `self`.
    fn clone(&self) -> (r: Typ)
        ensures
            r == *self,
        decreases *self,
    {
        match self {
            Typ::I => Typ::I,
            Typ::Fun(d, c) => Typ::Fun(Box::new((**d).clone()), Box::new((**c).clone())),
        }
    }
}

} // verus!
