use semverver::cleanup::InferenceCleanupFolder;
use semverver::db::{Generics, TypeDb};
use semverver::mapping::IdMapping;
use semverver::translate::TranslationContext;
use semverver::ty::{
    ArgList, AssocKind, DefId, ExPred, ExPredList, GenericArg, InherentEntry, Mutability,
    ParamDef, ParamEnv, ParamKind, Predicate, Region, TraitRef, Ty,
};

const OLD: u32 = 1;
const NEW: u32 = 2;

fn old_id(index: u32) -> DefId {
    DefId { krate: OLD, index }
}

fn new_id(index: u32) -> DefId {
    DefId { krate: NEW, index }
}

fn adt(did: DefId, args: Vec<GenericArg>) -> Ty {
    Ty::Adt { did, args: list(args) }
}

fn list(args: Vec<GenericArg>) -> ArgList {
    let mut l = ArgList::Nil;
    for a in args.into_iter().rev() {
        l = ArgList::Cons(a, Box::new(l));
    }
    l
}

fn ty_arg(t: Ty) -> GenericArg {
    GenericArg::Type(Box::new(t))
}

fn expreds(ps: Vec<ExPred>) -> ExPredList {
    let mut l = ExPredList::Nil;
    for p in ps.into_iter().rev() {
        l = ExPredList::Cons(p, Box::new(l));
    }
    l
}

fn type_param(def_id: DefId, index: u32) -> ParamDef {
    ParamDef { def_id, index, name: index, kind: ParamKind::Type }
}

fn abc_mapping() -> IdMapping {
    let mut m = IdMapping::new(OLD, NEW);
    assert!(m.add_mapping(old_id(10), new_id(10)));
    m
}

fn no_generics() -> Generics {
    Generics { parent: None, params: vec![], has_self: false }
}

#[test]
fn mapped_type_is_rekeyed() {
    let m = abc_mapping();
    let db = TypeDb::new();
    let cx = TranslationContext::target_new(&db, &m, false);
    let r = cx.translate_item_type(old_id(1), &adt(old_id(10), vec![]));
    assert_eq!(r, adt(new_id(10), vec![]));
}

#[test]
fn unmapped_argument_is_kept_inside_rekeyed_type() {
    let m = abc_mapping();
    let db = TypeDb::new();
    let cx = TranslationContext::target_new(&db, &m, false);
    let orig = adt(old_id(10), vec![ty_arg(adt(old_id(20), vec![]))]);
    let r = cx.translate_item_type(old_id(1), &orig);
    assert_eq!(r, adt(new_id(10), vec![ty_arg(adt(old_id(20), vec![]))]));
}

#[test]
fn inherent_entry_is_rekeyed() {
    let m = abc_mapping();
    let db = TypeDb::new();
    let cx = TranslationContext::target_new(&db, &m, false);
    let e = InherentEntry { parent_def_id: old_id(10), kind: AssocKind::Fn, name: "abc".to_string() };
    let r = cx.translate_inherent_entry(&e);
    assert_eq!(
        r,
        Some(InherentEntry { parent_def_id: new_id(10), kind: AssocKind::Fn, name: "abc".to_string() })
    );
}

#[test]
fn inherent_entry_without_counterpart_is_dropped() {
    let m = IdMapping::new(OLD, NEW);
    let db = TypeDb::new();
    let cx = TranslationContext::target_new(&db, &m, false);
    let e = InherentEntry { parent_def_id: old_id(10), kind: AssocKind::Fn, name: "abc".to_string() };
    assert_eq!(cx.translate_inherent_entry(&e), None);
}

#[test]
fn primitive_types_are_unchanged_either_way() {
    let m = abc_mapping();
    let db = TypeDb::new();
    let foreign = DefId { krate: 0, index: 5 };
    let orig = Ty::Ref {
        region: Region::Static,
        pointee: Box::new(adt(foreign, vec![ty_arg(Ty::Prim(3))])),
        mutbl: Mutability::Mut,
    };
    let expected = Ty::Ref {
        region: Region::Static,
        pointee: Box::new(adt(foreign, vec![ty_arg(Ty::Prim(3))])),
        mutbl: Mutability::Mut,
    };
    let to_new = TranslationContext::target_new(&db, &m, true);
    assert_eq!(to_new.translate_item_type(old_id(1), &orig), expected);
    let to_old = TranslationContext::target_old(&db, &m, true);
    assert_eq!(to_old.translate_item_type(new_id(1), &orig), expected);
}

#[test]
fn mapping_round_trips() {
    let m = abc_mapping();
    let n = m.get_new_id(old_id(10)).unwrap();
    assert_eq!(n, new_id(10));
    assert_eq!(m.get_old_id(n), Some(old_id(10)));
    let foreign = DefId { krate: 0, index: 5 };
    assert_eq!(m.get_old_id(m.get_new_id(foreign).unwrap()), Some(foreign));
    assert_eq!(m.get_new_id(old_id(11)), None);
}

#[test]
fn conflicting_mappings_are_refused() {
    let mut m = abc_mapping();
    assert!(!m.add_mapping(old_id(10), new_id(11)));
    assert!(!m.add_mapping(old_id(11), new_id(10)));
    assert!(!m.add_mapping(new_id(11), old_id(11)));
    assert_eq!(m.get_new_id(old_id(11)), None);
}

fn trait_pred(did: DefId, self_ty: Ty) -> Predicate {
    Predicate::Trait {
        trait_ref: TraitRef { def_id: did, args: list(vec![ty_arg(self_ty)]) },
        negative: false,
    }
}

fn trait_db() -> TypeDb {
    let mut db = TypeDb::new();
    db.add_generics(
        new_id(30),
        Generics { parent: None, params: vec![type_param(new_id(31), 0)], has_self: true },
    );
    db
}

#[test]
fn one_unmapped_predicate_cancels_the_environment() {
    let mut m = abc_mapping();
    assert!(m.add_mapping(old_id(30), new_id(30)));
    let db = trait_db();
    let cx = TranslationContext::target_new(&db, &m, false);
    let env = ParamEnv {
        caller_bounds: vec![
            trait_pred(old_id(30), adt(old_id(10), vec![])),
            trait_pred(old_id(40), adt(old_id(10), vec![])),
        ],
        reveal_all: false,
    };
    assert_eq!(cx.translate_param_env(old_id(1), &env), None);
}

#[test]
fn mapped_predicates_translate_in_full() {
    let mut m = abc_mapping();
    assert!(m.add_mapping(old_id(30), new_id(30)));
    let db = trait_db();
    let cx = TranslationContext::target_new(&db, &m, false);
    let env = ParamEnv {
        caller_bounds: vec![
            trait_pred(old_id(30), adt(old_id(10), vec![])),
            Predicate::RegionOutlives(Region::Static, Region::Static),
        ],
        reveal_all: true,
    };
    let r = cx.translate_param_env(old_id(1), &env).unwrap();
    assert_eq!(
        r,
        ParamEnv {
            caller_bounds: vec![
                trait_pred(new_id(30), adt(new_id(10), vec![])),
                Predicate::RegionOutlives(Region::Static, Region::Static),
            ],
            reveal_all: true,
        }
    );
}

#[test]
fn object_type_with_unmapped_trait_becomes_unrepresentable() {
    let mut m = abc_mapping();
    assert!(m.add_mapping(old_id(30), new_id(30)));
    let db = trait_db();
    let cx = TranslationContext::target_new(&db, &m, false);
    let orig = Ty::Dynamic {
        preds: expreds(vec![
            ExPred::Trait { did: old_id(30), args: ArgList::Nil },
            ExPred::Trait { did: old_id(40), args: ArgList::Nil },
            ExPred::AutoTrait(old_id(10)),
        ]),
        region: Region::Static,
    };
    let r = cx.translate_item_type(old_id(1), &orig);
    assert_eq!(
        r,
        Ty::Dynamic { preds: expreds(vec![ExPred::Unrepresentable]), region: Region::Static }
    );
}

#[test]
fn object_type_with_mapped_traits_keeps_its_list() {
    let mut m = abc_mapping();
    assert!(m.add_mapping(old_id(30), new_id(30)));
    let db = trait_db();
    let cx = TranslationContext::target_new(&db, &m, false);
    let orig = Ty::Dynamic {
        preds: expreds(vec![
            ExPred::Trait { did: old_id(30), args: ArgList::Nil },
            ExPred::AutoTrait(old_id(10)),
            ExPred::AutoTrait(old_id(50)),
        ]),
        region: Region::Static,
    };
    let r = cx.translate_item_type(old_id(1), &orig);
    assert_eq!(
        r,
        Ty::Dynamic {
            preds: expreds(vec![
                ExPred::Trait { did: new_id(30), args: ArgList::Nil },
                ExPred::AutoTrait(new_id(10)),
                ExPred::AutoTrait(old_id(50)),
            ]),
            region: Region::Static,
        }
    );
}

fn impl_and_method_db() -> TypeDb {
    let mut db = TypeDb::new();
    db.add_generics(
        old_id(60),
        Generics { parent: None, params: vec![type_param(old_id(61), 0)], has_self: false },
    );
    db.add_generics(
        old_id(62),
        Generics {
            parent: Some(old_id(60)),
            params: vec![
                ParamDef { def_id: old_id(64), index: 1, name: 9, kind: ParamKind::Lifetime },
                type_param(old_id(63), 2),
            ],
            has_self: false,
        },
    );
    db
}

#[test]
fn index_map_resolves_inherited_parameters() {
    let m = abc_mapping();
    let db = impl_and_method_db();
    let cx = TranslationContext::target_new(&db, &m, true);
    let im = cx.construct_index_map(old_id(62));
    assert_eq!(im.get(0), Some(old_id(61)));
    assert_eq!(im.get(2), Some(old_id(63)));
    assert_eq!(im.get(1), None);
}

#[test]
fn bound_parameter_is_retargeted() {
    let mut m = abc_mapping();
    assert!(m.add_mapping(old_id(63), new_id(73)));
    m.add_type_param(new_id(73), ParamDef { def_id: new_id(73), index: 2, name: 17, kind: ParamKind::Type });
    let db = impl_and_method_db();
    let cx = TranslationContext::target_new(&db, &m, true);
    let r = cx.translate_item_type(old_id(62), &Ty::Param { index: 2, name: 2 });
    assert_eq!(r, Ty::Param { index: 2, name: 17 });
    let kept = cx.translate_item_type(old_id(62), &Ty::Param { index: 0, name: 0 });
    assert_eq!(kept, Ty::Param { index: 0, name: 0 });
    let off = TranslationContext::target_new(&db, &m, false);
    assert_eq!(off.translate_item_type(old_id(62), &Ty::Param { index: 2, name: 2 }), Ty::Param { index: 2, name: 2 });
}

#[test]
fn function_item_arguments_are_translated_once() {
    let mut m = abc_mapping();
    assert!(m.add_mapping(old_id(80), new_id(80)));
    let mut db = TypeDb::new();
    db.add_generics(
        new_id(80),
        Generics { parent: None, params: vec![type_param(new_id(81), 0)], has_self: false },
    );
    let cx = TranslationContext::target_new(&db, &m, false);
    let orig = Ty::FnDef { did: old_id(80), args: list(vec![ty_arg(adt(old_id(10), vec![]))]) };
    let r = cx.translate_item_type(old_id(1), &orig);
    assert_eq!(r, Ty::FnDef { did: new_id(80), args: list(vec![ty_arg(adt(new_id(10), vec![]))]) });
}

#[test]
fn missing_argument_keeps_function_item() {
    let mut m = abc_mapping();
    assert!(m.add_mapping(old_id(80), new_id(80)));
    let mut db = TypeDb::new();
    db.add_generics(
        new_id(80),
        Generics {
            parent: None,
            params: vec![type_param(new_id(81), 0), type_param(new_id(82), 1)],
            has_self: false,
        },
    );
    let cx = TranslationContext::target_new(&db, &m, false);
    let orig = Ty::FnDef { did: old_id(80), args: list(vec![ty_arg(adt(old_id(10), vec![]))]) };
    let r = cx.translate_item_type(old_id(1), &orig);
    assert_eq!(r, Ty::FnDef { did: old_id(80), args: list(vec![ty_arg(adt(new_id(10), vec![]))]) });
}

#[test]
fn defaulted_parameter_takes_its_declared_type() {
    let mut m = abc_mapping();
    assert!(m.add_mapping(old_id(80), new_id(80)));
    m.add_non_mapped_defaulted(new_id(82));
    let mut db = TypeDb::new();
    db.add_generics(
        new_id(80),
        Generics {
            parent: None,
            params: vec![type_param(new_id(81), 0), type_param(new_id(82), 1)],
            has_self: false,
        },
    );
    db.add_type(new_id(82), Ty::Prim(8));
    let cx = TranslationContext::target_new(&db, &m, false);
    let orig = Ty::Opaque { did: old_id(80), args: list(vec![ty_arg(Ty::Prim(1))]) };
    let r = cx.translate_item_type(old_id(1), &orig);
    assert_eq!(r, Ty::Opaque { did: new_id(80), args: list(vec![ty_arg(Ty::Prim(1)), ty_arg(Ty::Prim(8))]) });
}

#[test]
fn self_position_takes_a_placeholder() {
    let mut m = abc_mapping();
    assert!(m.add_mapping(old_id(30), new_id(30)));
    let db = trait_db();
    let cx = TranslationContext::target_new(&db, &m, false);
    let orig = Ty::Projection { did: old_id(30), args: ArgList::Nil };
    let r = cx.translate_item_type(old_id(1), &orig);
    assert_eq!(r, Ty::Projection { did: new_id(30), args: list(vec![ty_arg(Ty::Param { index: 0, name: 0 })]) });
}

#[test]
fn const_parameter_is_not_translated() {
    let mut m = abc_mapping();
    assert!(m.add_mapping(old_id(80), new_id(80)));
    let mut db = TypeDb::new();
    db.add_generics(
        new_id(80),
        Generics {
            parent: None,
            params: vec![ParamDef { def_id: new_id(81), index: 0, name: 0, kind: ParamKind::Const }],
            has_self: false,
        },
    );
    let cx = TranslationContext::target_new(&db, &m, false);
    let im = cx.construct_index_map(old_id(1));
    assert_eq!(cx.translate_orig_substs(&im, old_id(80), &list(vec![GenericArg::Const(4)])), None);
}

#[test]
fn regions_are_rekeyed_only_with_parameters() {
    let mut m = abc_mapping();
    assert!(m.add_mapping(old_id(90), new_id(90)));
    let db = TypeDb::new();
    let orig = Ty::Ref {
        region: Region::EarlyBound { def_id: old_id(90), index: 0, name: 3 },
        pointee: Box::new(Ty::Prim(1)),
        mutbl: Mutability::Not,
    };
    let on = TranslationContext::target_new(&db, &m, true);
    assert_eq!(
        on.translate_item_type(old_id(1), &orig),
        Ty::Ref {
            region: Region::EarlyBound { def_id: new_id(90), index: 0, name: 3 },
            pointee: Box::new(Ty::Prim(1)),
            mutbl: Mutability::Not,
        }
    );
    let off = TranslationContext::target_new(&db, &m, false);
    assert_eq!(
        off.translate_item_type(old_id(1), &orig),
        Ty::Ref {
            region: Region::EarlyBound { def_id: old_id(90), index: 0, name: 3 },
            pointee: Box::new(Ty::Prim(1)),
            mutbl: Mutability::Not,
        }
    );
}

#[test]
fn trait_ref_falls_back_to_its_own_identifier() {
    let m = abc_mapping();
    let mut db = TypeDb::new();
    db.add_generics(old_id(1), no_generics());
    let cx = TranslationContext::target_new(&db, &m, false);
    let r = cx.translate_trait_ref(
        old_id(1),
        &TraitRef { def_id: old_id(40), args: list(vec![ty_arg(adt(old_id(10), vec![]))]) },
    );
    assert_eq!(r, TraitRef { def_id: old_id(40), args: list(vec![ty_arg(adt(new_id(10), vec![]))]) });
}

#[test]
fn translating_to_old_build() {
    let m = abc_mapping();
    let db = TypeDb::new();
    let cx = TranslationContext::target_old(&db, &m, false);
    assert_eq!(cx.translate_item_type(new_id(1), &adt(new_id(10), vec![])), adt(old_id(10), vec![]));
    assert!(cx.can_translate(new_id(10)));
    assert!(!cx.can_translate(new_id(11)));
    assert!(!cx.can_translate(old_id(10)));
}

#[test]
fn inference_placeholders_are_cleaned() {
    let f = InferenceCleanupFolder::new();
    let orig = Ty::Ref {
        region: Region::Infer(1),
        pointee: Box::new(adt(old_id(10), vec![ty_arg(Ty::Infer(2)), GenericArg::Lifetime(Region::Infer(3))])),
        mutbl: Mutability::Not,
    };
    assert_eq!(
        f.fold_ty(&orig),
        Ty::Ref {
            region: Region::Erased,
            pointee: Box::new(adt(old_id(10), vec![ty_arg(Ty::Error), GenericArg::Lifetime(Region::Erased)])),
            mutbl: Mutability::Not,
        }
    );
    assert_eq!(f.fold_region(Region::Static), Region::Static);
}
