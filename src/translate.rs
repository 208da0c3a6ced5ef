//! Rewriting of type expressions, argument lists and predicates from one build's
//! identifiers into the other's.
use vstd::prelude::*;
use crate::copy::copy_arg;
use crate::db::{push_type_entries, TypeDb};
use crate::mapping::{find_param, IdMapping};
use crate::ty::{
    nth_arg, ArgList, BoundRegionKind, DefId, ExPred, ExPredList, GenericArg, InherentEntry,
    ParamDef, ParamEnv, ParamKind, Predicate, Region, Term, TraitRef, Ty,
};

verus! {

/// The build whose identifiers a translation produces.
#[derive(Clone, Copy, Debug, PartialEq, Eq, Structural)]
pub enum Direction {
    ToNew,
    ToOld,
}

/// The identifier of the last entry with index `k`: later entries win.
pub open spec fn index_lookup(m: Seq<(u32, DefId)>, k: u32) -> Option<DefId>
    decreases m.len(),
{
    if m.len() == 0 {
        None
    } else if m.last().0 == k {
        Some(m.last().1)
    } else {
        index_lookup(m.drop_last(), k)
    }
}

/// A map from a type parameter's index to its identifier.
pub struct IndexMap {
    entries: Vec<(u32, DefId)>,
}

impl View for IndexMap {
    type V = Seq<(u32, DefId)>;

    closed spec fn view(&self) -> Seq<(u32, DefId)> {
        self.entries@
    }
}

impl IndexMap {
    /// The identifier of the type parameter at `index`.
    pub fn get(&self, index: u32) -> (r: Option<DefId>)
        ensures
            r == index_lookup(self@, index),
    {
        let mut i: usize = self.entries.len();
        assert(self.entries@.subrange(0, i as int) =~= self.entries@);
        while i > 0
            invariant
                i <= self.entries@.len(),
                index_lookup(self.entries@, index) == index_lookup(
                    self.entries@.subrange(0, i as int),
                    index,
                ),
            decreases i,
        {
            assert(self.entries@.subrange(0, i as int).drop_last() =~= self.entries@.subrange(
                0,
                i - 1,
            ));
            if self.entries[i - 1].0 == index {
                return Some(self.entries[i - 1].1);
            }
            i = i - 1;
        }
        None
    }
}

/// The context in which identifiers are translated: a mapping, the type database,
/// a direction, and whether parameters are translated.
pub struct TranslationContext<'a> {
    db: &'a TypeDb,
    id_mapping: &'a IdMapping,
    translate_params: bool,
    direction: Direction,
}

impl<'a> TranslationContext<'a> {
    pub closed spec fn db_spec(&self) -> TypeDb {
        *self.db
    }

    pub closed spec fn mapping_spec(&self) -> IdMapping {
        *self.id_mapping
    }

    pub closed spec fn translate_params_spec(&self) -> bool {
        self.translate_params
    }

    pub closed spec fn direction_spec(&self) -> Direction {
        self.direction
    }

    /// The counterpart of `d` in the target build.
    pub open spec fn lookup_spec(&self, d: DefId) -> Option<DefId> {
        match self.direction_spec() {
            Direction::ToNew => self.mapping_spec().new_id_spec(d),
            Direction::ToOld => self.mapping_spec().old_id_spec(d),
        }
    }

    /// Whether `d` belongs to the source build.
    pub open spec fn needs_spec(&self, d: DefId) -> bool {
        match self.direction_spec() {
            Direction::ToNew => self.mapping_spec().in_old_crate_spec(d),
            Direction::ToOld => self.mapping_spec().in_new_crate_spec(d),
        }
    }

    /// The counterpart of `d`, or `d` itself where it has none.
    pub open spec fn tr_id_spec(&self, d: DefId) -> DefId {
        match self.lookup_spec(d) {
            Some(t) => t,
            None => d,
        }
    }

    pub open spec fn tr_region_spec(&self, r: Region) -> Region {
        if !self.translate_params_spec() {
            r
        } else {
            match r {
                Region::EarlyBound { def_id, index, name } => Region::EarlyBound {
                    def_id: self.tr_id_spec(def_id),
                    index,
                    name,
                },
                Region::Free { scope, bound } => Region::Free {
                    scope: self.tr_id_spec(scope),
                    bound: match bound {
                        BoundRegionKind::Named(d, n) => BoundRegionKind::Named(self.tr_id_spec(d), n),
                        _ => bound,
                    },
                },
                _ => r,
            }
        }
    }

    /// The target argument for the parameter `p` of the target item `t`, given the
    /// translated source arguments `f`.
    pub open spec fn param_arg_spec(&self, t: DefId, p: ParamDef, f: ArgList) -> Option<
        GenericArg,
    > {
        match p.kind {
            ParamKind::Lifetime => match nth_arg(f, p.index as nat) {
                Some(GenericArg::Lifetime(r)) => Some(GenericArg::Lifetime(r)),
                _ => None,
            },
            ParamKind::Type => match nth_arg(f, p.index as nat) {
                Some(GenericArg::Type(ty)) => Some(GenericArg::Type(ty)),
                _ => if self.mapping_spec().non_mapped_defaulted_spec().contains(p.def_id) {
                    match self.db_spec().type_of_spec(p.def_id) {
                        Some(ty) => Some(GenericArg::Type(Box::new(ty))),
                        None => None,
                    }
                } else if self.db_spec().has_self_spec(t) && p.index == 0 {
                    Some(GenericArg::Type(Box::new(Ty::Param { index: p.index, name: p.name })))
                } else {
                    None
                },
            },
            ParamKind::Const => None,
        }
    }

    /// The target arguments for the parameters `ps[i..]`; none where one fails.
    pub open spec fn build_spec(&self, t: DefId, ps: Seq<ParamDef>, i: int, f: ArgList) -> Option<
        ArgList,
    >
        decreases ps.len() - i,
    {
        if i < 0 || i >= ps.len() {
            Some(ArgList::Nil)
        } else {
            match (self.param_arg_spec(t, ps[i], f), self.build_spec(t, ps, i + 1, f)) {
                (Some(h), Some(r)) => Some(ArgList::Cons(h, Box::new(r))),
                _ => None,
            }
        }
    }

    /// The target identifier and argument list for `did` with the translated
    /// arguments `f`; none where `did` has no counterpart or a parameter fails.
    pub open spec fn subst_spec(&self, did: DefId, f: ArgList) -> Option<(DefId, ArgList)> {
        match self.lookup_spec(did) {
            Some(t) => match self.build_spec(t, self.db_spec().all_params_spec(t), 0, f) {
                Some(a) => Some((t, a)),
                None => None,
            },
            None => None,
        }
    }

    /// A bound type parameter, re-keyed through the index map `im`.
    pub open spec fn tr_param_spec(&self, im: Seq<(u32, DefId)>, index: u32, name: u32) -> Ty {
        let same = Ty::Param { index, name };
        if index != 0 && self.translate_params_spec() {
            match index_lookup(im, index) {
                Some(o) => if self.needs_spec(o) {
                    match find_param(self.mapping_spec().type_params_spec(), self.tr_id_spec(o)) {
                        Some(p) => Ty::Param { index: p.index, name: p.name },
                        None => same,
                    }
                } else {
                    same
                },
                None => same,
            }
        } else {
            same
        }
    }

    /// The bottom-up translation of a type expression.
    pub open spec fn fold_ty_spec(&self, im: Seq<(u32, DefId)>, t: Ty) -> Ty
        decreases t,
    {
        match t {
            Ty::Adt { did, args } => {
                let f = self.fold_args_spec(im, args);
                if self.needs_spec(did) && self.lookup_spec(did) is Some {
                    Ty::Adt { did: self.lookup_spec(did)->0, args: f }
                } else {
                    Ty::Adt { did, args: f }
                }
            },
            Ty::Ref { region, pointee, mutbl } => Ty::Ref {
                region: self.tr_region_spec(region),
                pointee: Box::new(self.fold_ty_spec(im, *pointee)),
                mutbl,
            },
            Ty::FnDef { did, args } => {
                let f = self.fold_args_spec(im, args);
                match self.subst_spec(did, f) {
                    Some((d, a)) => Ty::FnDef { did: d, args: a },
                    None => Ty::FnDef { did, args: f },
                }
            },
            Ty::Dynamic { preds, region } => {
                let r = self.tr_region_spec(region);
                match self.fold_expreds_spec(im, preds) {
                    Some(p) => Ty::Dynamic { preds: p, region: r },
                    None => Ty::Dynamic { preds: unrepresentable(), region: r },
                }
            },
            Ty::Projection { did, args } => {
                let f = self.fold_args_spec(im, args);
                match self.subst_spec(did, f) {
                    Some((d, a)) => Ty::Projection { did: d, args: a },
                    None => Ty::Projection { did, args: f },
                }
            },
            Ty::Opaque { did, args } => {
                let f = self.fold_args_spec(im, args);
                match self.subst_spec(did, f) {
                    Some((d, a)) => Ty::Opaque { did: d, args: a },
                    None => Ty::Opaque { did, args: f },
                }
            },
            Ty::Param { index, name } => self.tr_param_spec(im, index, name),
            _ => t,
        }
    }

    pub open spec fn fold_arg_spec(&self, im: Seq<(u32, DefId)>, a: GenericArg) -> GenericArg
        decreases a,
    {
        match a {
            GenericArg::Lifetime(r) => GenericArg::Lifetime(self.tr_region_spec(r)),
            GenericArg::Type(t) => GenericArg::Type(Box::new(self.fold_ty_spec(im, *t))),
            GenericArg::Const(c) => GenericArg::Const(c),
        }
    }

    pub open spec fn fold_args_spec(&self, im: Seq<(u32, DefId)>, l: ArgList) -> ArgList
        decreases l,
    {
        match l {
            ArgList::Nil => ArgList::Nil,
            ArgList::Cons(h, t) => ArgList::Cons(
                self.fold_arg_spec(im, h),
                Box::new(self.fold_args_spec(im, *t)),
            ),
        }
    }

    /// An existential predicate, translated with the placeholder self type in front
    /// of its arguments; none where it has no counterpart.
    pub open spec fn fold_expred_spec(&self, im: Seq<(u32, DefId)>, p: ExPred) -> Option<ExPred>
        decreases p,
    {
        match p {
            ExPred::Trait { did, args } => match self.subst_spec(
                did,
                with_dummy_self(self.fold_args_spec(im, args)),
            ) {
                Some((d, ArgList::Cons(_, rest))) => Some(ExPred::Trait { did: d, args: *rest }),
                _ => None,
            },
            ExPred::Projection { did, args, term } => match self.subst_spec(
                did,
                with_dummy_self(self.fold_args_spec(im, args)),
            ) {
                Some((d, ArgList::Cons(_, rest))) => Some(
                    ExPred::Projection {
                        did: d,
                        args: *rest,
                        term: Box::new(self.fold_ty_spec(im, *term)),
                    },
                ),
                _ => None,
            },
            ExPred::AutoTrait(d) => Some(ExPred::AutoTrait(self.tr_id_spec(d))),
            ExPred::Unrepresentable => Some(ExPred::Unrepresentable),
        }
    }

    /// All predicates of a trait object translated, or none.
    pub open spec fn fold_expreds_spec(&self, im: Seq<(u32, DefId)>, l: ExPredList) -> Option<
        ExPredList,
    >
        decreases l,
    {
        match l {
            ExPredList::Nil => Some(ExPredList::Nil),
            ExPredList::Cons(h, t) => match (
                self.fold_expred_spec(im, h),
                self.fold_expreds_spec(im, *t),
            ) {
                (Some(a), Some(b)) => Some(ExPredList::Cons(a, Box::new(b))),
                _ => None,
            },
        }
    }
}


impl<'a> TranslationContext<'a> {
    /// The translation of one predicate; none where an identifier it must re-key
    /// has no counterpart, or where its kind is not supported.
    pub open spec fn tr_pred_spec(&self, im: Seq<(u32, DefId)>, p: Predicate) -> Option<Predicate> {
        match p {
            Predicate::Trait { trait_ref, negative } => match self.subst_spec(
                trait_ref.def_id,
                self.fold_args_spec(im, trait_ref.args),
            ) {
                Some((d, a)) => Some(
                    Predicate::Trait { trait_ref: TraitRef { def_id: d, args: a }, negative },
                ),
                None => None,
            },
            Predicate::RegionOutlives(a, b) => Some(
                Predicate::RegionOutlives(self.tr_region_spec(a), self.tr_region_spec(b)),
            ),
            Predicate::TypeOutlives(t, r) => Some(
                Predicate::TypeOutlives(self.fold_ty_spec(im, t), self.tr_region_spec(r)),
            ),
            Predicate::Projection { did, args, term } => match self.subst_spec(
                did,
                self.fold_args_spec(im, args),
            ) {
                Some((d, a)) => Some(
                    Predicate::Projection {
                        did: d,
                        args: a,
                        term: match term {
                            Term::Ty(t) => Term::Ty(self.fold_ty_spec(im, t)),
                            Term::Const(c) => Term::Const(c),
                        },
                    },
                ),
                None => None,
            },
            Predicate::WellFormed(a) => Some(Predicate::WellFormed(self.fold_arg_spec(im, a))),
            Predicate::ObjectSafe(d) => Some(Predicate::ObjectSafe(self.tr_id_spec(d))),
            Predicate::ClosureKind(d, args, k) => Some(
                Predicate::ClosureKind(self.tr_id_spec(d), self.fold_args_spec(im, args), k),
            ),
            Predicate::Subtype { a_is_expected, a, b } => Some(
                Predicate::Subtype {
                    a_is_expected,
                    a: self.fold_ty_spec(im, a),
                    b: self.fold_ty_spec(im, b),
                },
            ),
            Predicate::Coerce { a, b } => Some(
                Predicate::Coerce { a: self.fold_ty_spec(im, a), b: self.fold_ty_spec(im, b) },
            ),
            Predicate::ConstEvaluatable { did, args } => match self.subst_spec(
                did,
                self.fold_args_spec(im, args),
            ) {
                Some((d, a)) => Some(Predicate::ConstEvaluatable { did: d, args: a }),
                None => None,
            },
            Predicate::ConstEquate(a, b) => Some(Predicate::ConstEquate(a, b)),
            Predicate::TypeWellFormedFromEnv(_) => None,
        }
    }

    /// Whether every predicate of `s` translates.
    pub open spec fn all_preds_translate(&self, im: Seq<(u32, DefId)>, s: Seq<Predicate>) -> bool {
        forall|i: int| 0 <= i < s.len() ==> (#[trigger] self.tr_pred_spec(im, s[i])) is Some
    }

    /// The translation of a predicate list: all of it, or none.
    pub open spec fn tr_preds_spec(&self, im: Seq<(u32, DefId)>, s: Seq<Predicate>) -> Option<
        Seq<Predicate>,
    > {
        if self.all_preds_translate(im, s) {
            Some(Seq::new(s.len(), |i: int| self.tr_pred_spec(im, s[i])->0))
        } else {
            None
        }
    }
}


impl<'a> TranslationContext<'a> {
    /// A context translating to the new build's identifiers.
    pub fn target_new(db: &'a TypeDb, id_mapping: &'a IdMapping, translate_params: bool) -> (r:
        TranslationContext<'a>)
        ensures
            r.db_spec() == *db,
            r.mapping_spec() == *id_mapping,
            r.translate_params_spec() == translate_params,
            r.direction_spec() == Direction::ToNew,
    {
        TranslationContext { db, id_mapping, translate_params, direction: Direction::ToNew }
    }

    /// A context translating to the old build's identifiers.
    pub fn target_old(db: &'a TypeDb, id_mapping: &'a IdMapping, translate_params: bool) -> (r:
        TranslationContext<'a>)
        ensures
            r.db_spec() == *db,
            r.mapping_spec() == *id_mapping,
            r.translate_params_spec() == translate_params,
            r.direction_spec() == Direction::ToOld,
    {
        TranslationContext { db, id_mapping, translate_params, direction: Direction::ToOld }
    }

    /// The index map of `orig_def_id`: its own type parameters and those it
    /// inherits, each by index.
    pub fn construct_index_map(&self, orig_def_id: DefId) -> (r: IndexMap)
        ensures
            r@ == self.db_spec().index_entries_spec(orig_def_id),
    {
        let mut entries: Vec<(u32, DefId)> = Vec::new();
        if let Some(g) = self.db.generics_of(orig_def_id) {
            push_type_entries(&mut entries, &g.params);
            if let Some(p) = g.parent {
                if let Some(pg) = self.db.generics_of(p) {
                    push_type_entries(&mut entries, &pg.params);
                }
            }
        }
        proof {
            assert(entries@ =~= self.db_spec().index_entries_spec(orig_def_id));
        }
        IndexMap { entries }
    }

    fn lookup(&self, d: DefId) -> (r: Option<DefId>)
        ensures
            r == self.lookup_spec(d),
    {
        match self.direction {
            Direction::ToNew => self.id_mapping.get_new_id(d),
            Direction::ToOld => self.id_mapping.get_old_id(d),
        }
    }

    fn needs_translation(&self, d: DefId) -> (r: bool)
        ensures
            r == self.needs_spec(d),
    {
        match self.direction {
            Direction::ToNew => self.id_mapping.in_old_crate(d),
            Direction::ToOld => self.id_mapping.in_new_crate(d),
        }
    }

    fn translate_orig(&self, d: DefId) -> (r: DefId)
        ensures
            r == self.tr_id_spec(d),
    {
        match self.lookup(d) {
            Some(t) => t,
            None => d,
        }
    }

    fn translate_region(&self, r: Region) -> (out: Region)
        ensures
            out == self.tr_region_spec(r),
    {
        if !self.translate_params {
            return r;
        }
        match r {
            Region::EarlyBound { def_id, index, name } => Region::EarlyBound {
                def_id: self.translate_orig(def_id),
                index,
                name,
            },
            Region::Free { scope, bound } => Region::Free {
                scope: self.translate_orig(scope),
                bound: match bound {
                    BoundRegionKind::Named(d, n) => BoundRegionKind::Named(self.translate_orig(d), n),
                    _ => bound,
                },
            },
            _ => r,
        }
    }

    fn param_arg(&self, t: DefId, p: ParamDef, f: &ArgList) -> (r: Option<GenericArg>)
        ensures
            r == self.param_arg_spec(t, p, *f),
    {
        match p.kind {
            ParamKind::Lifetime => match f.get(p.index) {
                Some(GenericArg::Lifetime(r)) => Some(GenericArg::Lifetime(*r)),
                _ => None,
            },
            ParamKind::Type => match f.get(p.index) {
                Some(a @ GenericArg::Type(_)) => Some(copy_arg(a)),
                _ => if self.id_mapping.is_non_mapped_defaulted_type_param(p.def_id) {
                    match self.db.type_of(p.def_id) {
                        Some(ty) => Some(GenericArg::Type(Box::new(ty))),
                        None => None,
                    }
                } else if self.db.has_self(t) && p.index == 0 {
                    Some(GenericArg::Type(Box::new(Ty::Param { index: p.index, name: p.name })))
                } else {
                    None
                },
            },
            ParamKind::Const => None,
        }
    }

    fn build(&self, t: DefId, ps: &Vec<ParamDef>, i: usize, f: &ArgList) -> (r: Option<ArgList>)
        ensures
            r == self.build_spec(t, ps@, i as int, *f),
        decreases ps@.len() - i,
    {
        if i >= ps.len() {
            return Some(ArgList::Nil);
        }
        let h = self.param_arg(t, ps[i], f);
        let rest = self.build(t, ps, i + 1, f);
        match (h, rest) {
            (Some(h), Some(r)) => Some(ArgList::Cons(h, Box::new(r))),
            _ => None,
        }
    }

    /// The target identifier and arguments for `did` with the already translated
    /// arguments `f`.
    fn subst(&self, did: DefId, f: &ArgList) -> (r: Option<(DefId, ArgList)>)
        ensures
            r == self.subst_spec(did, *f),
    {
        match self.lookup(did) {
            Some(t) => {
                let ps = self.db.all_params(t);
                match self.build(t, &ps, 0, f) {
                    Some(a) => Some((t, a)),
                    None => None,
                }
            },
            None => None,
        }
    }

    /// Translates an identifier together with its argument list, all or nothing.
    pub fn translate_orig_substs(&self, index_map: &IndexMap, did: DefId, args: &ArgList) -> (r:
        Option<(DefId, ArgList)>)
        ensures
            r == self.subst_spec(did, self.fold_args_spec(index_map@, *args)),
    {
        let f = self.fold_args(index_map, args);
        self.subst(did, &f)
    }

    fn translate_param(&self, index_map: &IndexMap, index: u32, name: u32) -> (r: Ty)
        ensures
            r == self.tr_param_spec(index_map@, index, name),
    {
        if index != 0 && self.translate_params {
            if let Some(o) = index_map.get(index) {
                if self.needs_translation(o) {
                    if let Some(p) = self.id_mapping.get_type_param(self.translate_orig(o)) {
                        return Ty::Param { index: p.index, name: p.name };
                    }
                }
            }
        }
        Ty::Param { index, name }
    }

    /// Translates a type expression bottom-up. A node whose identifier has no
    /// counterpart is kept, with its children translated.
    pub fn translate(&self, index_map: &IndexMap, t: &Ty) -> (r: Ty)
        ensures
            r == self.fold_ty_spec(index_map@, *t),
        decreases t,
    {
        match t {
            Ty::Adt { did, args } => {
                let f = self.fold_args(index_map, args);
                if self.needs_translation(*did) {
                    if let Some(n) = self.lookup(*did) {
                        return Ty::Adt { did: n, args: f };
                    }
                }
                Ty::Adt { did: *did, args: f }
            },
            Ty::Ref { region, pointee, mutbl } => Ty::Ref {
                region: self.translate_region(*region),
                pointee: Box::new(self.translate(index_map, pointee)),
                mutbl: *mutbl,
            },
            Ty::FnDef { did, args } => {
                let f = self.fold_args(index_map, args);
                match self.subst(*did, &f) {
                    Some((d, a)) => Ty::FnDef { did: d, args: a },
                    None => Ty::FnDef { did: *did, args: f },
                }
            },
            Ty::Dynamic { preds, region } => {
                let r = self.translate_region(*region);
                match self.fold_expreds(index_map, preds) {
                    Some(p) => Ty::Dynamic { preds: p, region: r },
                    None => Ty::Dynamic {
                        preds: ExPredList::Cons(ExPred::Unrepresentable, Box::new(ExPredList::Nil)),
                        region: r,
                    },
                }
            },
            Ty::Projection { did, args } => {
                let f = self.fold_args(index_map, args);
                match self.subst(*did, &f) {
                    Some((d, a)) => Ty::Projection { did: d, args: a },
                    None => Ty::Projection { did: *did, args: f },
                }
            },
            Ty::Opaque { did, args } => {
                let f = self.fold_args(index_map, args);
                match self.subst(*did, &f) {
                    Some((d, a)) => Ty::Opaque { did: d, args: a },
                    None => Ty::Opaque { did: *did, args: f },
                }
            },
            Ty::Param { index, name } => self.translate_param(index_map, *index, *name),
            Ty::Prim(p) => Ty::Prim(*p),
            Ty::Infer(v) => Ty::Infer(*v),
            Ty::Error => Ty::Error,
            Ty::DummySelf => Ty::DummySelf,
        }
    }

    fn fold_arg(&self, index_map: &IndexMap, a: &GenericArg) -> (r: GenericArg)
        ensures
            r == self.fold_arg_spec(index_map@, *a),
        decreases a,
    {
        match a {
            GenericArg::Lifetime(r) => GenericArg::Lifetime(self.translate_region(*r)),
            GenericArg::Type(t) => GenericArg::Type(Box::new(self.translate(index_map, t))),
            GenericArg::Const(c) => GenericArg::Const(*c),
        }
    }

    /// Translates each argument of a list.
    pub fn fold_args(&self, index_map: &IndexMap, l: &ArgList) -> (r: ArgList)
        ensures
            r == self.fold_args_spec(index_map@, *l),
        decreases l,
    {
        match l {
            ArgList::Nil => ArgList::Nil,
            ArgList::Cons(h, t) => ArgList::Cons(
                self.fold_arg(index_map, h),
                Box::new(self.fold_args(index_map, t)),
            ),
        }
    }

    fn fold_expred(&self, index_map: &IndexMap, p: &ExPred) -> (r: Option<ExPred>)
        ensures
            r == self.fold_expred_spec(index_map@, *p),
        decreases p,
    {
        match p {
            ExPred::Trait { did, args } => {
                let f = self.fold_args(index_map, args);
                let full = ArgList::Cons(GenericArg::Type(Box::new(Ty::DummySelf)), Box::new(f));
                match self.subst(*did, &full) {
                    Some((d, ArgList::Cons(_, rest))) => Some(ExPred::Trait { did: d, args: *rest }),
                    _ => None,
                }
            },
            ExPred::Projection { did, args, term } => {
                let f = self.fold_args(index_map, args);
                let full = ArgList::Cons(GenericArg::Type(Box::new(Ty::DummySelf)), Box::new(f));
                match self.subst(*did, &full) {
                    Some((d, ArgList::Cons(_, rest))) => Some(
                        ExPred::Projection {
                            did: d,
                            args: *rest,
                            term: Box::new(self.translate(index_map, term)),
                        },
                    ),
                    _ => None,
                }
            },
            ExPred::AutoTrait(d) => Some(ExPred::AutoTrait(self.translate_orig(*d))),
            ExPred::Unrepresentable => Some(ExPred::Unrepresentable),
        }
    }

    fn fold_expreds(&self, index_map: &IndexMap, l: &ExPredList) -> (r: Option<ExPredList>)
        ensures
            r == self.fold_expreds_spec(index_map@, *l),
        decreases l,
    {
        match l {
            ExPredList::Nil => Some(ExPredList::Nil),
            ExPredList::Cons(h, t) => {
                let a = self.fold_expred(index_map, h);
                let b = self.fold_expreds(index_map, t);
                match (a, b) {
                    (Some(a), Some(b)) => Some(ExPredList::Cons(a, Box::new(b))),
                    _ => None,
                }
            },
        }
    }
}


impl<'a> TranslationContext<'a> {
    /// Translates the type of the item `orig_def_id`, best effort.
    pub fn translate_item_type(&self, orig_def_id: DefId, orig: &Ty) -> (r: Ty)
        ensures
            r == self.fold_ty_spec(self.db_spec().index_entries_spec(orig_def_id), *orig),
    {
        let index_map = self.construct_index_map(orig_def_id);
        self.translate(&index_map, orig)
    }

    fn translate_predicate(&self, index_map: &IndexMap, p: &Predicate) -> (r: Option<Predicate>)
        ensures
            r == self.tr_pred_spec(index_map@, *p),
    {
        match p {
            Predicate::Trait { trait_ref, negative } => match self.translate_orig_substs(
                index_map,
                trait_ref.def_id,
                &trait_ref.args,
            ) {
                Some((d, a)) => Some(
                    Predicate::Trait {
                        trait_ref: TraitRef { def_id: d, args: a },
                        negative: *negative,
                    },
                ),
                None => None,
            },
            Predicate::RegionOutlives(a, b) => Some(
                Predicate::RegionOutlives(self.translate_region(*a), self.translate_region(*b)),
            ),
            Predicate::TypeOutlives(t, r) => Some(
                Predicate::TypeOutlives(self.translate(index_map, t), self.translate_region(*r)),
            ),
            Predicate::Projection { did, args, term } => match self.translate_orig_substs(
                index_map,
                *did,
                args,
            ) {
                Some((d, a)) => Some(
                    Predicate::Projection {
                        did: d,
                        args: a,
                        term: match term {
                            Term::Ty(t) => Term::Ty(self.translate(index_map, t)),
                            Term::Const(c) => Term::Const(*c),
                        },
                    },
                ),
                None => None,
            },
            Predicate::WellFormed(a) => Some(Predicate::WellFormed(self.fold_arg(index_map, a))),
            Predicate::ObjectSafe(d) => Some(Predicate::ObjectSafe(self.translate_orig(*d))),
            Predicate::ClosureKind(d, args, k) => Some(
                Predicate::ClosureKind(self.translate_orig(*d), self.fold_args(index_map, args), *k),
            ),
            Predicate::Subtype { a_is_expected, a, b } => Some(
                Predicate::Subtype {
                    a_is_expected: *a_is_expected,
                    a: self.translate(index_map, a),
                    b: self.translate(index_map, b),
                },
            ),
            Predicate::Coerce { a, b } => Some(
                Predicate::Coerce {
                    a: self.translate(index_map, a),
                    b: self.translate(index_map, b),
                },
            ),
            Predicate::ConstEvaluatable { did, args } => match self.translate_orig_substs(
                index_map,
                *did,
                args,
            ) {
                Some((d, a)) => Some(Predicate::ConstEvaluatable { did: d, args: a }),
                None => None,
            },
            Predicate::ConstEquate(a, b) => Some(Predicate::ConstEquate(*a, *b)),
            Predicate::TypeWellFormedFromEnv(_) => None,
        }
    }

    fn translate_predicates(&self, orig_def_id: DefId, orig_preds: &Vec<Predicate>) -> (r: Option<
        Vec<Predicate>,
    >)
        ensures
            match r {
                Some(v) => self.tr_preds_spec(
                    self.db_spec().index_entries_spec(orig_def_id),
                    orig_preds@,
                ) == Some(v@),
                None => self.tr_preds_spec(
                    self.db_spec().index_entries_spec(orig_def_id),
                    orig_preds@,
                ) is None,
            },
    {
        let index_map = self.construct_index_map(orig_def_id);
        let ghost im = index_map@;
        let mut target_preds: Vec<Predicate> = Vec::new();
        let mut i: usize = 0;
        while i < orig_preds.len()
            invariant
                i <= orig_preds@.len(),
                im == self.db_spec().index_entries_spec(orig_def_id),
                index_map@ == im,
                forall|j: int| 0 <= j < i ==> (#[trigger] self.tr_pred_spec(im, orig_preds@[j])) is Some,
                target_preds@ =~= Seq::new(i as nat, |j: int| self.tr_pred_spec(im, orig_preds@[j])->0),
            decreases orig_preds@.len() - i,
        {
            match self.translate_predicate(&index_map, &orig_preds[i]) {
                Some(p) => target_preds.push(p),
                None => {
                    assert(!self.all_preds_translate(im, orig_preds@));
                    return None;
                },
            }
            i = i + 1;
        }
        Some(target_preds)
    }

    /// Translates the caller bounds of the item `orig_def_id`: all of them, or none
    /// where any one cannot be translated.
    pub fn translate_param_env(&self, orig_def_id: DefId, param_env: &ParamEnv) -> (r: Option<
        ParamEnv,
    >)
        requires
            forall|i: int|
                0 <= i < param_env.caller_bounds@.len() ==> !((
                #[trigger] param_env.caller_bounds@[i]) is TypeWellFormedFromEnv),
        ensures
            ({
                let im = self.db_spec().index_entries_spec(orig_def_id);
                let s = param_env.caller_bounds@;
                &&& r is Some <==> self.all_preds_translate(im, s)
                &&& (exists|i: int| 0 <= i < s.len() && (#[trigger] self.tr_pred_spec(im, s[i])) is None)
                    ==> r is None
                &&& r matches Some(e) ==> {
                    &&& e.reveal_all == param_env.reveal_all
                    &&& e.caller_bounds@.len() == s.len()
                    &&& forall|i: int|
                        0 <= i < s.len() ==> Some(#[trigger] e.caller_bounds@[i]) == self.tr_pred_spec(
                            im,
                            s[i],
                        )
                }
            }),
    {
        match self.translate_predicates(orig_def_id, &param_env.caller_bounds) {
            Some(target_preds) => Some(
                ParamEnv { caller_bounds: target_preds, reveal_all: param_env.reveal_all },
            ),
            None => None,
        }
    }

    /// Translates a trait reference in the context of the item `orig_def_id`: the
    /// trait's identifier falls back to itself, its arguments are best effort.
    pub fn translate_trait_ref(&self, orig_def_id: DefId, orig_trait_ref: &TraitRef) -> (r:
        TraitRef)
        ensures
            r.def_id == self.tr_id_spec(orig_trait_ref.def_id),
            r.args == self.fold_args_spec(
                self.db_spec().index_entries_spec(orig_def_id),
                orig_trait_ref.args,
            ),
    {
        let index_map = self.construct_index_map(orig_def_id);
        TraitRef {
            def_id: self.translate_orig(orig_trait_ref.def_id),
            args: self.fold_args(&index_map, &orig_trait_ref.args),
        }
    }

    /// Re-keys an inherent entry to the counterpart of its owning item; none where
    /// the owner has no counterpart.
    pub fn translate_inherent_entry(&self, orig_entry: &InherentEntry) -> (r: Option<InherentEntry>)
        ensures
            match self.lookup_spec(orig_entry.parent_def_id) {
                Some(p) => r matches Some(e) && e.parent_def_id == p && e.kind == orig_entry.kind
                    && e.name@ == orig_entry.name@,
                None => r is None,
            },
    {
        match self.lookup(orig_entry.parent_def_id) {
            Some(parent_def_id) => Some(
                InherentEntry {
                    parent_def_id,
                    kind: orig_entry.kind,
                    name: orig_entry.name.clone(),
                },
            ),
            None => None,
        }
    }

    /// Whether `def_id` has a counterpart in the target build.
    pub fn can_translate(&self, def_id: DefId) -> (r: bool)
        ensures
            r == self.lookup_spec(def_id) is Some,
    {
        self.lookup(def_id).is_some()
    }
}

/// The predicate list of an object type that could not be translated.
pub open spec fn unrepresentable() -> ExPredList {
    ExPredList::Cons(ExPred::Unrepresentable, Box::new(ExPredList::Nil))
}

/// An argument list with the placeholder self type in front.
pub open spec fn with_dummy_self(f: ArgList) -> ArgList {
    ArgList::Cons(GenericArg::Type(Box::new(Ty::DummySelf)), Box::new(f))
}

} // verus!
