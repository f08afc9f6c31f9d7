use charon::assumed::{
    function_to_info, get_fun_id_from_name, get_name_from_type_id, get_type_id_from_name,
    is_marker_trait, type_to_used_params, AssumedFunId,
};
use charon::ids::{ConstGenericVarId, RegionVarId, TraitClauseId, TraitDeclId, TraitImplId, TypeVarId};
use charon::make_subst::{make_cg_subst, make_region_subst, make_type_subst};
use charon::names::{Name, PathElem};
use charon::rewrite::{walk_ty_mut, TraitInstanceIdSelfReplacer};
use charon::types::{
    ConstGeneric, GenericArgs, LiteralTy, RTy, Region, TraitDeclRef, TraitInstanceId, TraitRef, Ty,
};
use charon::values::Literal;

fn path(segs: &[&str]) -> Name {
    Name { name: segs.iter().enumerate().map(|(i, s)| PathElem::Ident(s.to_string(), i)).collect() }
}

#[test]
fn type_subst_from_lists() {
    let m = make_type_subst(&vec![TypeVarId::new(0), TypeVarId::new(1)], &vec![Ty::Never, Ty::Literal(LiteralTy::Bool)]);
    assert_eq!(m.get(&TypeVarId::new(0)), Some(&Ty::Never));
    assert_eq!(m.get(&TypeVarId::new(1)), Some(&Ty::Literal(LiteralTy::Bool)));
    assert_eq!(m.len(), 2);
}

#[test]
fn later_bindings_override_earlier_ones() {
    let m = make_region_subst(&vec![RegionVarId::new(0), RegionVarId::new(0)], &vec![Region::Static, Region::Var(RegionVarId::new(3))]);
    assert_eq!(m.get(&RegionVarId::new(0)), Some(&Region::Var(RegionVarId::new(3))));
    assert_eq!(m.len(), 1);
    assert_eq!(RegionVarId::new(0).substitute(&m), Region::Var(RegionVarId::new(3)));
}

#[test]
fn const_generic_subst_from_lists() {
    let m = make_cg_subst(&vec![ConstGenericVarId::new(4)], &vec![ConstGeneric::Value(Literal::Char('c'))]);
    assert_eq!(m.get(&ConstGenericVarId::new(4)), Some(&ConstGeneric::Value(Literal::Char('c'))));
}

fn self_based_ref() -> TraitRef<Region> {
    TraitRef {
        trait_id: TraitInstanceId::ItemClause(
            Box::new(TraitInstanceId::ParentClause(Box::new(TraitInstanceId::SelfId), TraitDeclId::new(0), TraitClauseId::new(0))),
            TraitDeclId::new(1),
            "W".to_string(),
            TraitClauseId::new(2),
        ),
        generics: GenericArgs::empty(),
        trait_decl_ref: TraitDeclRef { trait_id: TraitDeclId::new(1), generics: GenericArgs::empty() },
    }
}

#[test]
fn self_instance_is_replaced_everywhere() {
    let mut t: RTy = Ty::Arrow(
        vec![Ty::TraitType(self_based_ref(), GenericArgs::empty(), "Item".to_string())],
        Box::new(Ty::Never),
    );
    let imp = TraitInstanceId::TraitImpl(TraitImplId::new(8));
    t.replace_self_trait_instance_id(&imp);
    let expected_ref = TraitRef {
        trait_id: TraitInstanceId::ItemClause(
            Box::new(TraitInstanceId::ParentClause(Box::new(imp.clone()), TraitDeclId::new(0), TraitClauseId::new(0))),
            TraitDeclId::new(1),
            "W".to_string(),
            TraitClauseId::new(2),
        ),
        generics: GenericArgs::empty(),
        trait_decl_ref: TraitDeclRef { trait_id: TraitDeclId::new(1), generics: GenericArgs::empty() },
    };
    let expected: RTy = Ty::Arrow(
        vec![Ty::TraitType(expected_ref, GenericArgs::empty(), "Item".to_string())],
        Box::new(Ty::Never),
    );
    assert_eq!(t, expected);
}

#[test]
fn trait_ref_self_replacement_leaves_other_instances() {
    let mut tr: TraitRef<Region> = TraitRef {
        trait_id: TraitInstanceId::Clause(TraitClauseId::new(0)),
        generics: GenericArgs::empty(),
        trait_decl_ref: TraitDeclRef { trait_id: TraitDeclId::new(1), generics: GenericArgs::empty() },
    };
    let before = tr.clone();
    tr.replace_self_trait_instance_id(&TraitInstanceId::TraitImpl(TraitImplId::new(0)));
    assert_eq!(tr, before);
}

#[test]
fn recognised_names() {
    assert!(is_marker_trait(&path(&["core", "marker", "Sized"])));
    assert!(!is_marker_trait(&path(&["core", "marker", "Copy"])));
    assert_eq!(get_type_id_from_name(&path(&["alloc", "boxed", "Box"])), Some(charon::types::AssumedTy::Box));
    assert_eq!(get_type_id_from_name(&path(&["alloc", "boxed"])), None);
    assert_eq!(get_name_from_type_id(charon::types::AssumedTy::PtrNonNull), vec!["core", "ptr", "NonNull"]);
    assert_eq!(get_name_from_type_id(charon::types::AssumedTy::Slice), vec!["Slice"]);
    assert_eq!(get_fun_id_from_name(&path(&["alloc", "alloc", "box_free"])), Some(AssumedFunId::BoxFree));
    assert_eq!(get_fun_id_from_name(&path(&["core", "slice", "[T]", "len"])), Some(AssumedFunId::SliceLen));
    assert_eq!(get_fun_id_from_name(&path(&["f"])), None);
    assert_eq!(type_to_used_params(&path(&["alloc", "boxed", "Box"])), Some(vec![true, false]));
    assert_eq!(type_to_used_params(&path(&["core", "ptr", "Unique"])), Some(vec![true]));
    assert_eq!(type_to_used_params(&path(&["x"])), None);
    let info = function_to_info(&path(&["alloc", "alloc", "box_free"])).unwrap();
    assert_eq!(info.used_type_params, vec![true, false]);
    assert_eq!(info.used_args, vec![true, false]);
    let panic = function_to_info(&path(&["core", "panicking", "panic"])).unwrap();
    assert!(panic.used_type_params.is_empty());
    assert!(function_to_info(&path(&["core"])).is_none());
}

#[test]
fn impl_segments_never_match() {
    let n = Name { name: vec![PathElem::Ident("core".to_string(), 0), PathElem::Impl, PathElem::Ident("Sized".to_string(), 0)] };
    assert!(!is_marker_trait(&n));
}

#[test]
fn self_instance_is_replaced_in_function_pointers_and_deferred_obligations() {
    let fn_ptr_ref = TraitRef {
        trait_id: TraitInstanceId::FnPointer(Box::new(Ty::TraitType(self_based_ref(), GenericArgs::empty(), "X".to_string()))),
        generics: GenericArgs::empty(),
        trait_decl_ref: TraitDeclRef { trait_id: TraitDeclId::new(1), generics: GenericArgs::empty() },
    };
    let unsolved_ref = TraitRef {
        trait_id: TraitInstanceId::Unsolved(
            TraitDeclId::new(4),
            GenericArgs::new(vec![], vec![], vec![], vec![self_based_ref()]),
        ),
        generics: GenericArgs::empty(),
        trait_decl_ref: TraitDeclRef { trait_id: TraitDeclId::new(4), generics: GenericArgs::empty() },
    };
    let mut t: RTy = Ty::Arrow(
        vec![Ty::TraitType(fn_ptr_ref, GenericArgs::empty(), "A".to_string())],
        Box::new(Ty::TraitType(unsolved_ref, GenericArgs::empty(), "B".to_string())),
    );
    t.replace_self_trait_instance_id(&TraitInstanceId::TraitImpl(TraitImplId::new(3)));
    let text = format!("{:?}", t);
    assert!(!text.contains("SelfId"));
    assert_eq!(text.matches("TraitImplId { index: 3 }").count(), 2);
}

#[test]
fn mutating_traversal_applies_the_rewrite_children_first() {
    let mut t: RTy = Ty::Ref(
        Region::Static,
        Box::new(Ty::TraitType(self_based_ref(), GenericArgs::empty(), "Item".to_string())),
        charon::types::RefKind::Shared,
    );
    let v = TraitInstanceIdSelfReplacer { new_id: TraitInstanceId::Clause(TraitClauseId::new(7)) };
    walk_ty_mut(&v, &mut t);
    match t {
        Ty::Ref(_, inner, _) => match *inner {
            Ty::TraitType(tr, _, _) => assert_eq!(
                tr.trait_id,
                TraitInstanceId::ItemClause(
                    Box::new(TraitInstanceId::ParentClause(
                        Box::new(TraitInstanceId::Clause(TraitClauseId::new(7))),
                        TraitDeclId::new(0),
                        TraitClauseId::new(0),
                    )),
                    TraitDeclId::new(1),
                    "W".to_string(),
                    TraitClauseId::new(2),
                )
            ),
            _ => panic!("shape changed"),
        },
        _ => panic!("shape changed"),
    }
}
