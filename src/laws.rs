//! Properties of the translation, proved over its spec functions.
use vstd::prelude::*;
use crate::db::{type_entries, TypeDb};
use crate::translate::{index_lookup, unrepresentable, TranslationContext};
use crate::ty::{
    expred_len, nth_expred, ArgList, BoundRegionKind, DefId, ExPredList, GenericArg, ParamDef,
    ParamKind, Region, Ty,
};

verus! {

impl<'a> TranslationContext<'a> {
    /// A lifetime that names no identifier of the source build, or any lifetime where
    /// parameters are not translated.
    pub open spec fn region_needs_none(&self, r: Region) -> bool {
        let keyed = match r {
            Region::EarlyBound { def_id, .. } => !self.needs_spec(def_id),
            Region::Free { scope, bound } => !self.needs_spec(scope) && match bound {
                BoundRegionKind::Named(d, _) => !self.needs_spec(d),
                _ => true,
            },
            _ => true,
        };
        !self.translate_params_spec() || keyed
    }

    /// A type built from primitives, references, placeholders, parameters that
    /// need no re-keying and nominal types of no source-build item.
    pub open spec fn ty_needs_none(&self, im: Seq<(u32, DefId)>, t: Ty) -> bool
        decreases t,
    {
        match t {
            Ty::Adt { did, args } => !self.needs_spec(did) && self.args_need_none(im, args),
            Ty::Ref { region, pointee, .. } => self.region_needs_none(region) && self.ty_needs_none(
                im,
                *pointee,
            ),
            Ty::Param { index, .. } => {
                let owner_kept = match index_lookup(im, index) {
                    Some(o) => !self.needs_spec(o),
                    None => true,
                };
                index == 0 || !self.translate_params_spec() || owner_kept
            },
            Ty::Prim(_) | Ty::Infer(_) | Ty::Error | Ty::DummySelf => true,
            _ => false,
        }
    }

    pub open spec fn args_need_none(&self, im: Seq<(u32, DefId)>, l: ArgList) -> bool
        decreases l,
    {
        match l {
            ArgList::Nil => true,
            ArgList::Cons(h, t) => {
                let head = match h {
                    GenericArg::Lifetime(r) => self.region_needs_none(r),
                    GenericArg::Type(ty) => self.ty_needs_none(im, *ty),
                    GenericArg::Const(_) => true,
                };
                head && self.args_need_none(im, *t)
            },
        }
    }

    /// An identifier that belongs to no source-build item translates to itself.
    pub proof fn lemma_tr_id_keeps(&self, d: DefId)
        requires
            !self.needs_spec(d),
        ensures
            self.tr_id_spec(d) == d,
    {
    }

    /// Identity: a type that needs no translation translates to itself, in either
    /// direction.
    pub proof fn lemma_identity(&self, im: Seq<(u32, DefId)>, t: Ty)
        requires
            self.ty_needs_none(im, t),
        ensures
            self.fold_ty_spec(im, t) == t,
        decreases t,
    {
        match t {
            Ty::Adt { did, args } => {
                self.lemma_identity_args(im, args);
            },
            Ty::Ref { region, pointee, .. } => {
                self.lemma_identity_region(region);
                self.lemma_identity(im, *pointee);
            },
            _ => {},
        }
    }

    pub proof fn lemma_identity_region(&self, r: Region)
        requires
            self.region_needs_none(r),
        ensures
            self.tr_region_spec(r) == r,
    {
        match r {
            Region::EarlyBound { def_id, .. } => {
                if self.translate_params_spec() {
                    self.lemma_tr_id_keeps(def_id);
                }
            },
            Region::Free { scope, bound } => {
                if self.translate_params_spec() {
                    self.lemma_tr_id_keeps(scope);
                    if let BoundRegionKind::Named(d, _) = bound {
                        self.lemma_tr_id_keeps(d);
                    }
                }
            },
            _ => {},
        }
    }

    pub proof fn lemma_identity_args(&self, im: Seq<(u32, DefId)>, l: ArgList)
        requires
            self.args_need_none(im, l),
        ensures
            self.fold_args_spec(im, l) == l,
        decreases l,
    {
        if let ArgList::Cons(h, t) = l {
            match h {
                GenericArg::Lifetime(r) => self.lemma_identity_region(r),
                GenericArg::Type(ty) => self.lemma_identity(im, *ty),
                GenericArg::Const(_) => {},
            }
            self.lemma_identity_args(im, *t);
            assert(self.fold_arg_spec(im, h) == h);
        }
    }

    /// Best effort: a nominal type whose own identifier maps is re-keyed even where
    /// a nominal type among its arguments has no counterpart; that inner type keeps
    /// its identifier and only its own arguments are translated.
    pub proof fn lemma_best_effort(
        &self,
        im: Seq<(u32, DefId)>,
        outer: DefId,
        inner: DefId,
        inner_args: ArgList,
    )
        requires
            self.needs_spec(outer),
            (self.lookup_spec(outer) is Some),
            self.needs_spec(inner),
            (self.lookup_spec(inner) is None),
        ensures
            self.fold_ty_spec(im, adt_of_one(outer, (Ty::Adt { did: inner, args: inner_args })))
                == adt_of_one(
                self.lookup_spec(outer)->0,
                (Ty::Adt { did: inner, args: self.fold_args_spec(im, inner_args) }),
            ),
    {
        let inner_ty = Ty::Adt { did: inner, args: inner_args };
        let tail = Box::new(ArgList::Nil);
        let args = ArgList::Cons(GenericArg::Type(Box::new(inner_ty)), tail);
        assert(self.fold_ty_spec(im, inner_ty) == Ty::Adt {
            did: inner,
            args: self.fold_args_spec(im, inner_args),
        });
        assert(self.fold_args_spec(im, *tail) == ArgList::Nil);
        assert(self.fold_arg_spec(im, GenericArg::Type(Box::new(inner_ty))) == GenericArg::Type(
            Box::new(self.fold_ty_spec(im, inner_ty)),
        ));
        assert(self.fold_args_spec(im, args) == ArgList::Cons(
            self.fold_arg_spec(im, GenericArg::Type(Box::new(inner_ty))),
            Box::new(self.fold_args_spec(im, *tail)),
        ));
    }

    pub proof fn lemma_expreds_fail(&self, im: Seq<(u32, DefId)>, l: ExPredList, k: nat)
        requires
            k < expred_len(l),
            (self.fold_expred_spec(im, nth_expred(l, k)->0) is None),
        ensures
            (self.fold_expreds_spec(im, l) is None),
        decreases l,
    {
        if let ExPredList::Cons(_, t) = l {
            if k > 0 {
                self.lemma_expreds_fail(im, *t, (k - 1) as nat);
            }
        }
    }

    /// A translated predicate list of a trait object keeps its length.
    pub proof fn lemma_expreds_len(&self, im: Seq<(u32, DefId)>, l: ExPredList)
        requires
            (self.fold_expreds_spec(im, l) is Some),
        ensures
            expred_len(self.fold_expreds_spec(im, l)->0) == expred_len(l),
        decreases l,
    {
        if let ExPredList::Cons(_, t) = l {
            self.lemma_expreds_len(im, *t);
        }
    }

    /// Trait-object sentinel: where any one predicate of a trait object has no
    /// translation, the whole object type carries the unrepresentable marker in
    /// place of its list, never a shorter list.
    pub proof fn lemma_object_sentinel(
        &self,
        im: Seq<(u32, DefId)>,
        preds: ExPredList,
        region: Region,
        k: nat,
    )
        requires
            k < expred_len(preds),
            (self.fold_expred_spec(im, nth_expred(preds, k)->0) is None),
        ensures
            self.fold_ty_spec(im, (Ty::Dynamic { preds, region })) == (Ty::Dynamic {
                preds: unrepresentable(),
                region: self.tr_region_spec(region),
            }),
    {
        self.lemma_expreds_fail(im, preds, k);
    }
}

/// The nominal type `did` with the single type argument `arg`.
pub open spec fn adt_of_one(did: DefId, arg: Ty) -> Ty {
    Ty::Adt {
        did,
        args: ArgList::Cons(GenericArg::Type(Box::new(arg)), Box::new(ArgList::Nil)),
    }
}

proof fn lemma_lookup_concat(a: Seq<(u32, DefId)>, b: Seq<(u32, DefId)>, k: u32)
    ensures
        index_lookup(a + b, k) == match index_lookup(b, k) {
            Some(x) => Some(x),
            None => index_lookup(a, k),
        },
    decreases b.len(),
{
    if b.len() == 0 {
        assert(a + b =~= a);
    } else {
        assert((a + b).drop_last() =~= a + b.drop_last());
        assert((a + b).last() == b.last());
        lemma_lookup_concat(a, b.drop_last(), k);
    }
}

proof fn lemma_entries_miss(s: Seq<ParamDef>, k: u32)
    requires
        forall|j: int| 0 <= j < s.len() ==> (#[trigger] s[j]).index != k,
    ensures
        index_lookup(type_entries(s), k) is None,
    decreases s.len(),
{
    if s.len() > 0 {
        assert forall|j: int| 0 <= j < s.drop_last().len() implies (
        #[trigger] s.drop_last()[j]).index != k by {
            assert(s.drop_last()[j] == s[j]);
        }
        lemma_entries_miss(s.drop_last(), k);
        let rest = type_entries(s.drop_last());
        assert(rest.push((s.last().index, s.last().def_id)).drop_last() =~= rest);
        assert(s.last() == s[s.len() - 1]);
    }
}

proof fn lemma_entries_hit(s: Seq<ParamDef>, m: int)
    requires
        0 <= m < s.len(),
        s[m].kind == ParamKind::Type,
        forall|j: int| 0 <= j < s.len() && j != m ==> (#[trigger] s[j]).index != s[m].index,
    ensures
        index_lookup(type_entries(s), s[m].index) == Some(s[m].def_id),
    decreases s.len(),
{
    let rest = type_entries(s.drop_last());
    assert(rest.push((s.last().index, s.last().def_id)).drop_last() =~= rest);
    assert(s.last() == s[s.len() - 1]);
    if m < s.len() - 1 {
        assert(s.drop_last()[m] == s[m]);
        assert forall|j: int| 0 <= j < s.drop_last().len() && j != m implies (
        #[trigger] s.drop_last()[j]).index != s.drop_last()[m].index by {
            assert(s.drop_last()[j] == s[j]);
        }
        assert(s.last() == s[s.len() - 1]);
        lemma_entries_hit(s.drop_last(), m);
    }
}

/// Parameter-index stability: where the parameters of an item, inherited and own,
/// have distinct indices, the index map of the item resolves the index of each of
/// its type parameters, inherited ones included, to that parameter's identifier.
pub proof fn lemma_index_map_stable(db: TypeDb, id: DefId, p: ParamDef)
    requires
        db.all_params_spec(id).contains(p),
        p.kind == ParamKind::Type,
        forall|i: int, j: int|
            0 <= i < j < db.all_params_spec(id).len() ==> (#[trigger] db.all_params_spec(id)[i]).index
                != (#[trigger] db.all_params_spec(id)[j]).index,
    ensures
        index_lookup(db.index_entries_spec(id), p.index) == Some(p.def_id),
{
    let own = db.own_params_spec(id);
    let parent = db.parent_params_spec(id);
    let all = db.all_params_spec(id);
    let m = choose|m: int| 0 <= m < all.len() && all[m] == p;
    lemma_lookup_concat(type_entries(own), type_entries(parent), p.index);
    if m < parent.len() {
        assert(parent[m] == p);
        assert forall|j: int| 0 <= j < parent.len() && j != m implies (#[trigger] parent[j]).index
            != parent[m].index by {
            assert(parent[j] == all[j]);
        }
        lemma_entries_hit(parent, m);
    } else {
        let mo = m - parent.len();
        assert(own[mo] == p);
        assert forall|j: int| 0 <= j < own.len() && j != mo implies (#[trigger] own[j]).index
            != own[mo].index by {
            assert(own[j] == all[j + parent.len()]);
        }
        assert forall|j: int| 0 <= j < parent.len() implies (#[trigger] parent[j]).index
            != p.index by {
            assert(parent[j] == all[j]);
        }
        lemma_entries_hit(own, mo);
        lemma_entries_miss(parent, p.index);
    }
}

} // verus!
