//! Replacement of unresolved inference placeholders by explicit sentinels.
use vstd::prelude::*;
use crate::ty::{ArgList, ExPred, ExPredList, GenericArg, Region, Ty};

verus! {

pub open spec fn cleanup_region_spec(r: Region) -> Region {
    match r {
        Region::Infer(_) => Region::Erased,
        _ => r,
    }
}

/// A type with every unresolved lifetime erased and every unresolved type replaced
/// by the error type.
pub open spec fn cleanup_ty_spec(t: Ty) -> Ty
    decreases t,
{
    match t {
        Ty::Adt { did, args } => Ty::Adt { did, args: cleanup_args_spec(args) },
        Ty::Ref { region, pointee, mutbl } => Ty::Ref {
            region: cleanup_region_spec(region),
            pointee: Box::new(cleanup_ty_spec(*pointee)),
            mutbl,
        },
        Ty::FnDef { did, args } => Ty::FnDef { did, args: cleanup_args_spec(args) },
        Ty::Dynamic { preds, region } => Ty::Dynamic {
            preds: cleanup_expreds_spec(preds),
            region: cleanup_region_spec(region),
        },
        Ty::Projection { did, args } => Ty::Projection { did, args: cleanup_args_spec(args) },
        Ty::Opaque { did, args } => Ty::Opaque { did, args: cleanup_args_spec(args) },
        Ty::Infer(_) => Ty::Error,
        _ => t,
    }
}

pub open spec fn cleanup_arg_spec(a: GenericArg) -> GenericArg
    decreases a,
{
    match a {
        GenericArg::Lifetime(r) => GenericArg::Lifetime(cleanup_region_spec(r)),
        GenericArg::Type(t) => GenericArg::Type(Box::new(cleanup_ty_spec(*t))),
        GenericArg::Const(c) => GenericArg::Const(c),
    }
}

pub open spec fn cleanup_args_spec(l: ArgList) -> ArgList
    decreases l,
{
    match l {
        ArgList::Nil => ArgList::Nil,
        ArgList::Cons(h, t) => ArgList::Cons(cleanup_arg_spec(h), Box::new(cleanup_args_spec(*t))),
    }
}

pub open spec fn cleanup_expred_spec(p: ExPred) -> ExPred
    decreases p,
{
    match p {
        ExPred::Trait { did, args } => ExPred::Trait { did, args: cleanup_args_spec(args) },
        ExPred::Projection { did, args, term } => ExPred::Projection {
            did,
            args: cleanup_args_spec(args),
            term: Box::new(cleanup_ty_spec(*term)),
        },
        _ => p,
    }
}

pub open spec fn cleanup_expreds_spec(l: ExPredList) -> ExPredList
    decreases l,
{
    match l {
        ExPredList::Nil => ExPredList::Nil,
        ExPredList::Cons(h, t) => ExPredList::Cons(
            cleanup_expred_spec(h),
            Box::new(cleanup_expreds_spec(*t)),
        ),
    }
}

/// A folder that removes inference artifacts from types and lifetimes.
pub struct InferenceCleanupFolder {}

impl InferenceCleanupFolder {
    pub fn new() -> (r: InferenceCleanupFolder) {
        InferenceCleanupFolder {  }
    }

    /// Erases a lifetime that inference has not resolved.
    pub fn fold_region(&self, r: Region) -> (out: Region)
        ensures
            out == cleanup_region_spec(r),
    {
        match r {
            Region::Infer(_) => Region::Erased,
            _ => r,
        }
    }

    /// Folds a type bottom-up: unresolved lifetimes become erased, unresolved types
    /// become the error type.
    pub fn fold_ty(&self, t: &Ty) -> (r: Ty)
        ensures
            r == cleanup_ty_spec(*t),
        decreases t,
    {
        match t {
            Ty::Adt { did, args } => Ty::Adt { did: *did, args: self.fold_args(args) },
            Ty::Ref { region, pointee, mutbl } => Ty::Ref {
                region: self.fold_region(*region),
                pointee: Box::new(self.fold_ty(pointee)),
                mutbl: *mutbl,
            },
            Ty::FnDef { did, args } => Ty::FnDef { did: *did, args: self.fold_args(args) },
            Ty::Dynamic { preds, region } => Ty::Dynamic {
                preds: self.fold_expreds(preds),
                region: self.fold_region(*region),
            },
            Ty::Projection { did, args } => Ty::Projection { did: *did, args: self.fold_args(args) },
            Ty::Opaque { did, args } => Ty::Opaque { did: *did, args: self.fold_args(args) },
            Ty::Param { index, name } => Ty::Param { index: *index, name: *name },
            Ty::Prim(p) => Ty::Prim(*p),
            Ty::Infer(_) => Ty::Error,
            Ty::Error => Ty::Error,
            Ty::DummySelf => Ty::DummySelf,
        }
    }

    fn fold_arg(&self, a: &GenericArg) -> (r: GenericArg)
        ensures
            r == cleanup_arg_spec(*a),
        decreases a,
    {
        match a {
            GenericArg::Lifetime(r) => GenericArg::Lifetime(self.fold_region(*r)),
            GenericArg::Type(t) => GenericArg::Type(Box::new(self.fold_ty(t))),
            GenericArg::Const(c) => GenericArg::Const(*c),
        }
    }

    fn fold_args(&self, l: &ArgList) -> (r: ArgList)
        ensures
            r == cleanup_args_spec(*l),
        decreases l,
    {
        match l {
            ArgList::Nil => ArgList::Nil,
            ArgList::Cons(h, t) => ArgList::Cons(self.fold_arg(h), Box::new(self.fold_args(t))),
        }
    }

    fn fold_expred(&self, p: &ExPred) -> (r: ExPred)
        ensures
            r == cleanup_expred_spec(*p),
        decreases p,
    {
        match p {
            ExPred::Trait { did, args } => ExPred::Trait { did: *did, args: self.fold_args(args) },
            ExPred::Projection { did, args, term } => ExPred::Projection {
                did: *did,
                args: self.fold_args(args),
                term: Box::new(self.fold_ty(term)),
            },
            ExPred::AutoTrait(d) => ExPred::AutoTrait(*d),
            ExPred::Unrepresentable => ExPred::Unrepresentable,
        }
    }

    fn fold_expreds(&self, l: &ExPredList) -> (r: ExPredList)
        ensures
            r == cleanup_expreds_spec(*l),
        decreases l,
    {
        match l {
            ExPredList::Nil => ExPredList::Nil,
            ExPredList::Cons(h, t) => ExPredList::Cons(
                self.fold_expred(h),
                Box::new(self.fold_expreds(t)),
            ),
        }
    }
}

} // verus!
