//! Deep copies of type expressions.
use vstd::prelude::*;
use crate::ty::{ArgList, ExPred, ExPredList, GenericArg, Ty};

verus! {

pub fn copy_ty(t: &Ty) -> (r: Ty)
    ensures
        r == *t,
    decreases t,
{
    match t {
        Ty::Adt { did, args } => Ty::Adt { did: *did, args: copy_args(args) },
        Ty::Ref { region, pointee, mutbl } => Ty::Ref {
            region: *region,
            pointee: Box::new(copy_ty(pointee)),
            mutbl: *mutbl,
        },
        Ty::FnDef { did, args } => Ty::FnDef { did: *did, args: copy_args(args) },
        Ty::Dynamic { preds, region } => Ty::Dynamic { preds: copy_expreds(preds), region: *region },
        Ty::Projection { did, args } => Ty::Projection { did: *did, args: copy_args(args) },
        Ty::Opaque { did, args } => Ty::Opaque { did: *did, args: copy_args(args) },
        Ty::Param { index, name } => Ty::Param { index: *index, name: *name },
        Ty::Prim(p) => Ty::Prim(*p),
        Ty::Infer(v) => Ty::Infer(*v),
        Ty::Error => Ty::Error,
        Ty::DummySelf => Ty::DummySelf,
    }
}

pub fn copy_arg(a: &GenericArg) -> (r: GenericArg)
    ensures
        r == *a,
    decreases a,
{
    match a {
        GenericArg::Lifetime(r) => GenericArg::Lifetime(*r),
        GenericArg::Type(t) => GenericArg::Type(Box::new(copy_ty(t))),
        GenericArg::Const(c) => GenericArg::Const(*c),
    }
}

pub fn copy_args(l: &ArgList) -> (r: ArgList)
    ensures
        r == *l,
    decreases l,
{
    match l {
        ArgList::Nil => ArgList::Nil,
        ArgList::Cons(h, t) => ArgList::Cons(copy_arg(h), Box::new(copy_args(t))),
    }
}

pub fn copy_expred(p: &ExPred) -> (r: ExPred)
    ensures
        r == *p,
    decreases p,
{
    match p {
        ExPred::Trait { did, args } => ExPred::Trait { did: *did, args: copy_args(args) },
        ExPred::Projection { did, args, term } => ExPred::Projection {
            did: *did,
            args: copy_args(args),
            term: Box::new(copy_ty(term)),
        },
        ExPred::AutoTrait(d) => ExPred::AutoTrait(*d),
        ExPred::Unrepresentable => ExPred::Unrepresentable,
    }
}

pub fn copy_expreds(l: &ExPredList) -> (r: ExPredList)
    ensures
        r == *l,
    decreases l,
{
    match l {
        ExPredList::Nil => ExPredList::Nil,
        ExPredList::Cons(h, t) => ExPredList::Cons(copy_expred(h), Box::new(copy_expreds(t))),
    }
}

} // verus!
