//! One syntax tree for every phase of the compiler.
//!
//! The six node kinds are written down once, in [`Expression`]. What a node
//! carries beside its parts, its annotation, depends on the phase: each node
//! kind has a marker type, and the marker's impl of [`FamilyXi`] for a phase
//! names the annotation of that kind in that phase. A new phase is a new tag
//! with six such impls; no other phase changes.

use vstd::prelude::*;
use crate::typ::Typ;

verus! {

/// Resolves, for the node kind that implements it, the annotation that a node
/// of that kind carries in phase `P`.
pub trait FamilyXi<P> {
    /// The annotation's type.
    type R;
}

/// The node kind of integer literals.
pub struct LitS;

/// The node kind of variable references.
pub struct VarS;

/// The node kind of type ascriptions.
pub struct AnnS;

/// The node kind of abstractions.
pub struct AbsS;

/// The node kind of applications.
pub struct AppS;

/// The node kind of the open extension point.
pub struct ExpS;

/// An expression of phase `P`. The first component of every node is its
/// annotation. A tree owns its children, so it is finite and shares nothing.
pub enum Expression<P> where
    LitS: FamilyXi<P>,
    VarS: FamilyXi<P>,
    AnnS: FamilyXi<P>,
    AbsS: FamilyXi<P>,
    AppS: FamilyXi<P>,
    ExpS: FamilyXi<P>,
{
    /// An integer literal.
    Lit(<LitS as FamilyXi<P>>::R, i32),
    /// A reference to the variable of that name.
    Var(<VarS as FamilyXi<P>>::R, String),
    /// An expression ascribed the declared type.
    Ann(<AnnS as FamilyXi<P>>::R, Box<Expression<P>>, Typ),
    /// A function of one parameter: the parameter's name, then the body.
    Abs(<AbsS as FamilyXi<P>>::R, String, Box<Expression<P>>),
    /// An application: the callee, then the argument.
    App(<AppS as FamilyXi<P>>::R, Box<Expression<P>>, Box<Expression<P>>),
    /// The place where a later phase may add node kinds of its own. It holds
    /// an annotation and nothing else.
    Exp(<ExpS as FamilyXi<P>>::R),
}

/// The phase of freshly built trees: no node kind carries anything.
pub struct UD;

impl FamilyXi<UD> for LitS { type R = (); }
impl FamilyXi<UD> for VarS { type R = (); }
impl FamilyXi<UD> for AnnS { type R = (); }
impl FamilyXi<UD> for AbsS { type R = (); }
impl FamilyXi<UD> for AppS { type R = (); }
impl FamilyXi<UD> for ExpS { type R = (); }

/// An expression without annotations.
pub type ExpUD = Expression<UD>;

/// The phase after type elaboration: an application carries the type that
/// its argument is to have; no other node kind carries anything.
pub struct TC;

impl FamilyXi<TC> for LitS { type R = (); }
impl FamilyXi<TC> for VarS { type R = (); }
impl FamilyXi<TC> for AnnS { type R = (); }
impl FamilyXi<TC> for AbsS { type R = (); }
impl FamilyXi<TC> for AppS { type R = Typ; }
impl FamilyXi<TC> for ExpS { type R = (); }

/// An expression whose applications name their argument's type.
pub type ExpTC = Expression<TC>;

} // verus!
