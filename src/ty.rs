//! The semantic model: identifiers, lifetimes, type expressions and predicates.
use vstd::prelude::*;

verus! {

/// An opaque handle naming a declaration of one build.
#[derive(Clone, Copy, Debug, PartialEq, Eq, Structural)]
pub struct DefId {
    pub krate: u32,
    pub index: u32,
}

/// The descriptor of a free lifetime's binder.
#[derive(Clone, Copy, Debug, PartialEq, Eq, Structural)]
pub enum BoundRegionKind {
    Anon(u32),
    Named(DefId, u32),
    Env,
}

/// A lifetime.
#[derive(Clone, Copy, Debug, PartialEq, Eq, Structural)]
pub enum Region {
    /// A lifetime parameter resolved against an item's declaration.
    EarlyBound { def_id: DefId, index: u32, name: u32 },
    /// A lifetime resolved against a scope.
    Free { scope: DefId, bound: BoundRegionKind },
    Static,
    Erased,
    /// A lifetime that inference has not resolved yet.
    Infer(u32),
}

#[derive(Clone, Copy, Debug, PartialEq, Eq, Structural)]
pub enum Mutability {
    Not,
    Mut,
}

/// One entry of a generic-argument list.
#[derive(Debug, PartialEq, Eq)]
pub enum GenericArg {
    Lifetime(Region),
    Type(Box<Ty>),
    /// A constant argument, carried through untranslated.
    Const(u64),
}

/// A generic-argument list, positionally assigned to an item's parameters.
#[derive(Debug, PartialEq, Eq)]
pub enum ArgList {
    Nil,
    Cons(GenericArg, Box<ArgList>),
}

/// A type expression.
#[derive(Debug, PartialEq, Eq)]
pub enum Ty {
    /// A nominal type.
    Adt { did: DefId, args: ArgList },
    Ref { region: Region, pointee: Box<Ty>, mutbl: Mutability },
    /// The type of a function item.
    FnDef { did: DefId, args: ArgList },
    /// A trait-object type.
    Dynamic { preds: ExPredList, region: Region },
    /// An associated-type projection.
    Projection { did: DefId, args: ArgList },
    /// An opaque return type.
    Opaque { did: DefId, args: ArgList },
    /// A bound type parameter, known by its position only.
    Param { index: u32, name: u32 },
    /// A primitive type, or any other type that names no item.
    Prim(u32),
    /// A type that inference has not resolved yet.
    Infer(u32),
    Error,
    /// The reserved self type that stands in a trait object's predicates.
    DummySelf,
}

/// A constraint attached to a trait-object type, without its self type.
#[derive(Debug, PartialEq, Eq)]
pub enum ExPred {
    Trait { did: DefId, args: ArgList },
    Projection { did: DefId, args: ArgList, term: Box<Ty> },
    AutoTrait(DefId),
    /// The marker that replaces the whole list of an object type that could not
    /// be rewritten: the object type is unknown.
    Unrepresentable,
}

#[derive(Debug, PartialEq, Eq)]
pub enum ExPredList {
    Nil,
    Cons(ExPred, Box<ExPredList>),
}

#[derive(Clone, Copy, Debug, PartialEq, Eq, Structural)]
pub enum ClosureKind {
    Fn,
    FnMut,
    FnOnce,
}

#[derive(Debug, PartialEq, Eq)]
pub struct TraitRef {
    pub def_id: DefId,
    pub args: ArgList,
}

#[derive(Debug, PartialEq, Eq)]
pub enum Term {
    Ty(Ty),
    Const(u64),
}

/// A constraint.
#[derive(Debug, PartialEq, Eq)]
pub enum Predicate {
    Trait { trait_ref: TraitRef, negative: bool },
    RegionOutlives(Region, Region),
    TypeOutlives(Ty, Region),
    Projection { did: DefId, args: ArgList, term: Term },
    WellFormed(GenericArg),
    ObjectSafe(DefId),
    ClosureKind(DefId, ArgList, ClosureKind),
    Subtype { a_is_expected: bool, a: Ty, b: Ty },
    Coerce { a: Ty, b: Ty },
    /// An unevaluated constant expression that must be evaluable.
    ConstEvaluatable { did: DefId, args: ArgList },
    ConstEquate(u64, u64),
    /// Well-formedness from the environment, a kind that is not supported here.
    TypeWellFormedFromEnv(Ty),
}

/// The caller bounds of an item.
#[derive(Debug, PartialEq, Eq)]
pub struct ParamEnv {
    pub caller_bounds: Vec<Predicate>,
    pub reveal_all: bool,
}

#[derive(Clone, Copy, Debug, PartialEq, Eq, Structural)]
pub enum AssocKind {
    Const,
    Fn,
    Type,
}

/// An inherent method or constant attached to a type.
#[derive(Debug, PartialEq, Eq)]
pub struct InherentEntry {
    pub parent_def_id: DefId,
    pub kind: AssocKind,
    pub name: String,
}

#[derive(Clone, Copy, Debug, PartialEq, Eq, Structural)]
pub enum ParamKind {
    Lifetime,
    Type,
    Const,
}

/// A generic parameter of an item.
#[derive(Clone, Copy, Debug, PartialEq, Eq, Structural)]
pub struct ParamDef {
    pub def_id: DefId,
    pub index: u32,
    pub name: u32,
    pub kind: ParamKind,
}

/// The `n`th entry of an argument list.
pub open spec fn nth_arg(l: ArgList, n: nat) -> Option<GenericArg>
    decreases l,
{
    match l {
        ArgList::Nil => None,
        ArgList::Cons(h, t) => if n == 0 {
            Some(h)
        } else {
            nth_arg(*t, (n - 1) as nat)
        },
    }
}

pub open spec fn nth_expred(l: ExPredList, n: nat) -> Option<ExPred>
    decreases l,
{
    match l {
        ExPredList::Nil => None,
        ExPredList::Cons(h, t) => if n == 0 {
            Some(h)
        } else {
            nth_expred(*t, (n - 1) as nat)
        },
    }
}

pub open spec fn expred_len(l: ExPredList) -> nat
    decreases l,
{
    match l {
        ExPredList::Nil => 0,
        ExPredList::Cons(_, t) => 1 + expred_len(*t),
    }
}

impl ArgList {
    /// The entry at position `n`, if the list is that long.
    pub fn get(&self, n: u32) -> (r: Option<&GenericArg>)
        ensures
            match r {
                Some(a) => nth_arg(*self, n as nat) == Some(*a),
                None => nth_arg(*self, n as nat) is None,
            },
        decreases self,
    {
        match self {
            ArgList::Nil => None,
            ArgList::Cons(h, t) => if n == 0 {
                Some(h)
            } else {
                t.get(n - 1)
            },
        }
    }
}

} // verus!
