use charon::ids::{ConstGenericVarId, GlobalDeclId, TraitClauseId, TraitDeclId, TypeDeclId, TypeVarId};
use charon::types::{
    ConstGeneric, EGenericArgs, ETraitRef, ETy, ErasedRegion, GenericArgs, LiteralTy, RefKind,
    TraitDeclRef, TraitInstanceId, TraitRef, Ty, TypeId,
};
use charon::unify::TySubst;
use charon::values::Literal;

fn tv(i: usize) -> TypeVarId {
    TypeVarId::new(i)
}

fn var(i: usize) -> ETy {
    Ty::TypeVar(tv(i))
}

fn lit(l: LiteralTy) -> ETy {
    Ty::Literal(l)
}

fn adt(id: usize, types: Vec<ETy>) -> ETy {
    Ty::Adt(TypeId::Adt(TypeDeclId::new(id)), GenericArgs::new_from_types(types))
}

fn types(ts: Vec<ETy>) -> EGenericArgs {
    GenericArgs::new_from_types(ts)
}

#[test]
fn unification_finds_the_bindings() {
    let src = types(vec![adt(0, vec![var(0), Ty::Ref(ErasedRegion::Erased, Box::new(var(1)), RefKind::Shared)])]);
    let tgt = types(vec![adt(0, vec![lit(LiteralTy::Bool), Ty::Ref(ErasedRegion::Erased, Box::new(Ty::Never), RefKind::Shared)])]);
    let m = TySubst::unify_args_with_fixed(&vec![], &vec![], &src, &tgt).unwrap();
    assert_eq!(m.type_vars_map.get(&tv(0)), Some(&lit(LiteralTy::Bool)));
    assert_eq!(m.type_vars_map.get(&tv(1)), Some(&Ty::Never));
    assert_eq!(m.type_vars_map.len(), 2);
    assert!(m.ignore_regions);
}

#[test]
fn substituting_the_bindings_gives_the_target() {
    let src_ty = adt(3, vec![var(0), Ty::RawPtr(Box::new(var(1)), RefKind::Mut)]);
    let tgt_ty = adt(3, vec![adt(4, vec![lit(LiteralTy::Char)]), Ty::RawPtr(Box::new(lit(LiteralTy::Bool)), RefKind::Mut)]);
    let src = types(vec![src_ty.clone()]);
    let tgt = types(vec![tgt_ty.clone()]);
    let m = TySubst::unify_args_with_fixed(&vec![], &vec![], &src, &tgt).unwrap();
    let r = src_ty.erase_regions_substitute_types(&m.type_vars_map, &m.const_generics_map);
    assert_eq!(r, tgt_ty);
}

#[test]
fn unification_binds_const_generics() {
    let src: EGenericArgs = GenericArgs::new(vec![], vec![], vec![ConstGeneric::Var(ConstGenericVarId::new(0))], vec![]);
    let tgt: EGenericArgs = GenericArgs::new(vec![], vec![], vec![ConstGeneric::Value(Literal::Bool(false))], vec![]);
    let m = TySubst::unify_args_with_fixed(&vec![], &vec![], &src, &tgt).unwrap();
    assert_eq!(m.const_generics_map.get(&ConstGenericVarId::new(0)), Some(&ConstGeneric::Value(Literal::Bool(false))));
}

#[test]
fn unification_fails_on_arity_mismatch() {
    let src = types(vec![var(0), var(1)]);
    let tgt = types(vec![lit(LiteralTy::Bool)]);
    assert!(TySubst::unify_args_with_fixed(&vec![], &vec![], &src, &tgt).is_err());
}

#[test]
fn unification_fails_on_conflicting_bindings() {
    let src = types(vec![adt(9, vec![var(0), var(0)])]);
    let tgt = types(vec![adt(9, vec![lit(LiteralTy::Bool), lit(LiteralTy::Char)])]);
    assert!(TySubst::unify_args_with_fixed(&vec![], &vec![], &src, &tgt).is_err());
}

#[test]
fn unification_rejects_a_repeated_variable_even_when_consistent() {
    let src = types(vec![adt(9, vec![var(0), var(0)])]);
    let tgt = types(vec![adt(9, vec![lit(LiteralTy::Bool), lit(LiteralTy::Bool)])]);
    assert!(TySubst::unify_args_with_fixed(&vec![], &vec![], &src, &tgt).is_err());
}

#[test]
fn fixed_type_variable_is_rigid() {
    let src = types(vec![var(0)]);
    let tgt = types(vec![lit(LiteralTy::Bool)]);
    assert!(TySubst::unify_args_with_fixed(&vec![tv(0)], &vec![], &src, &tgt).is_err());
    let tgt_same = types(vec![var(0)]);
    assert!(TySubst::unify_args_with_fixed(&vec![tv(0)], &vec![], &src, &tgt_same).is_err());
}

#[test]
fn fixed_variables_are_bound_to_themselves() {
    let src = types(vec![var(1)]);
    let tgt = types(vec![lit(LiteralTy::Bool)]);
    let m = TySubst::unify_args_with_fixed(&vec![tv(0)], &vec![ConstGenericVarId::new(2)], &src, &tgt).unwrap();
    assert_eq!(m.type_vars_map.get(&tv(0)), Some(&var(0)));
    assert_eq!(m.type_vars_map.get(&tv(1)), Some(&lit(LiteralTy::Bool)));
    assert_eq!(m.const_generics_map.get(&ConstGenericVarId::new(2)), Some(&ConstGeneric::Var(ConstGenericVarId::new(2))));
}

#[test]
fn fixed_const_generic_variable_is_rigid() {
    let c = ConstGenericVarId::new(0);
    let src: EGenericArgs = GenericArgs::new(vec![], vec![], vec![ConstGeneric::Var(c)], vec![]);
    let tgt: EGenericArgs = GenericArgs::new(vec![], vec![], vec![ConstGeneric::Var(c)], vec![]);
    assert!(TySubst::unify_args_with_fixed(&vec![], &vec![c], &src, &tgt).is_err());
}

#[test]
fn unification_fails_on_head_mismatch() {
    let src = types(vec![adt(0, vec![])]);
    let tgt = types(vec![adt(1, vec![])]);
    assert!(TySubst::unify_args_with_fixed(&vec![], &vec![], &src, &tgt).is_err());
    let src2 = types(vec![Ty::Ref(ErasedRegion::Erased, Box::new(Ty::Never), RefKind::Mut)]);
    let tgt2 = types(vec![Ty::Ref(ErasedRegion::Erased, Box::new(Ty::Never), RefKind::Shared)]);
    assert!(TySubst::unify_args_with_fixed(&vec![], &vec![], &src2, &tgt2).is_err());
    let src3: EGenericArgs = GenericArgs::new(vec![], vec![], vec![ConstGeneric::Global(GlobalDeclId::new(0))], vec![]);
    let tgt3: EGenericArgs = GenericArgs::new(vec![], vec![], vec![ConstGeneric::Global(GlobalDeclId::new(1))], vec![]);
    assert!(TySubst::unify_args_with_fixed(&vec![], &vec![], &src3, &tgt3).is_err());
}

#[test]
fn identical_function_types_unify() {
    let f = Ty::Arrow(vec![], Box::new(Ty::Never));
    let src = types(vec![f.clone()]);
    let tgt = types(vec![f]);
    let m = TySubst::unify_args_with_fixed(&vec![], &vec![], &src, &tgt).unwrap();
    assert!(m.type_vars_map.is_empty());
}

#[test]
fn function_types_unify_inputs_then_output() {
    let src_ty = Ty::Arrow(vec![var(0), lit(LiteralTy::Bool)], Box::new(var(1)));
    let tgt_ty = Ty::Arrow(vec![lit(LiteralTy::Char), lit(LiteralTy::Bool)], Box::new(Ty::Never));
    let m = TySubst::unify_args_with_fixed(&vec![], &vec![], &types(vec![src_ty.clone()]), &types(vec![tgt_ty.clone()])).unwrap();
    assert_eq!(m.type_vars_map.get(&tv(0)), Some(&lit(LiteralTy::Char)));
    assert_eq!(m.type_vars_map.get(&tv(1)), Some(&Ty::Never));
    assert_eq!(src_ty.erase_regions_substitute_types(&m.type_vars_map, &m.const_generics_map), tgt_ty);
    let fewer = Ty::Arrow(vec![lit(LiteralTy::Char)], Box::new(Ty::Never));
    assert!(TySubst::unify_args_with_fixed(&vec![], &vec![], &types(vec![src_ty]), &types(vec![fewer])).is_err());
}

fn trait_ref(decl: usize) -> ETraitRef {
    TraitRef {
        trait_id: TraitInstanceId::Clause(TraitClauseId::new(0)),
        generics: GenericArgs::empty(),
        trait_decl_ref: TraitDeclRef { trait_id: TraitDeclId::new(decl), generics: GenericArgs::empty() },
    }
}

#[test]
fn trait_types_unify_their_arguments() {
    let src_ty = Ty::TraitType(trait_ref(1), types(vec![var(0)]), "Item".to_string());
    let tgt_ty = Ty::TraitType(trait_ref(1), types(vec![lit(LiteralTy::Bool)]), "Item".to_string());
    let m = TySubst::unify_args_with_fixed(&vec![], &vec![], &types(vec![src_ty]), &types(vec![tgt_ty])).unwrap();
    assert_eq!(m.type_vars_map.get(&tv(0)), Some(&lit(LiteralTy::Bool)));
}

#[test]
fn trait_types_need_equal_references_and_names() {
    let src_ty = Ty::TraitType(trait_ref(1), types(vec![var(0)]), "Item".to_string());
    let other_ref = Ty::TraitType(trait_ref(2), types(vec![lit(LiteralTy::Bool)]), "Item".to_string());
    let other_name = Ty::TraitType(trait_ref(1), types(vec![lit(LiteralTy::Bool)]), "Output".to_string());
    assert!(TySubst::unify_args_with_fixed(&vec![], &vec![], &types(vec![src_ty.clone()]), &types(vec![other_ref])).is_err());
    assert!(TySubst::unify_args_with_fixed(&vec![], &vec![], &types(vec![src_ty]), &types(vec![other_name])).is_err());
}

fn trait_ref_with(regions: Vec<ErasedRegion>, ts: Vec<ETy>) -> ETraitRef {
    TraitRef {
        trait_id: TraitInstanceId::Clause(TraitClauseId::new(0)),
        generics: GenericArgs::new(regions, ts, vec![], vec![]),
        trait_decl_ref: TraitDeclRef { trait_id: TraitDeclId::new(1), generics: GenericArgs::empty() },
    }
}

#[test]
fn regions_inside_trait_references_are_ignored() {
    let src_ty = Ty::TraitType(trait_ref_with(vec![ErasedRegion::Erased], vec![]), types(vec![]), "Item".to_string());
    let tgt_ty = Ty::TraitType(trait_ref_with(vec![], vec![]), types(vec![]), "Item".to_string());
    assert!(TySubst::unify_args_with_fixed(&vec![], &vec![], &types(vec![src_ty]), &types(vec![tgt_ty])).is_ok());
}

#[test]
fn variables_inside_trait_references_are_bound() {
    let src_ty = Ty::TraitType(trait_ref_with(vec![], vec![var(0)]), types(vec![var(1)]), "Item".to_string());
    let tgt_ty = Ty::TraitType(trait_ref_with(vec![], vec![Ty::Never]), types(vec![lit(LiteralTy::Bool)]), "Item".to_string());
    let m = TySubst::unify_args_with_fixed(&vec![], &vec![], &types(vec![src_ty.clone()]), &types(vec![tgt_ty.clone()])).unwrap();
    assert_eq!(m.type_vars_map.get(&tv(0)), Some(&Ty::Never));
    assert_eq!(m.type_vars_map.get(&tv(1)), Some(&lit(LiteralTy::Bool)));
    assert_eq!(src_ty.erase_regions_substitute_types(&m.type_vars_map, &m.const_generics_map), tgt_ty);
    let src2 = Ty::TraitType(trait_ref_with(vec![], vec![var(0)]), types(vec![]), "Item".to_string());
    let tgt2 = Ty::TraitType(trait_ref_with(vec![], vec![Ty::Never]), types(vec![]), "Item".to_string());
    assert!(TySubst::unify_args_with_fixed(&vec![tv(0)], &vec![], &types(vec![src2]), &types(vec![tgt2])).is_err());
}

#[test]
fn fixed_type_variable_is_rigid_when_nested() {
    let src = types(vec![Ty::Never, adt(0, vec![Ty::RawPtr(Box::new(var(0)), RefKind::Mut)])]);
    let tgt = types(vec![Ty::Never, adt(0, vec![Ty::RawPtr(Box::new(lit(LiteralTy::Bool)), RefKind::Mut)])]);
    assert!(TySubst::unify_args_with_fixed(&vec![], &vec![], &src, &tgt).is_ok());
    assert!(TySubst::unify_args_with_fixed(&vec![tv(0)], &vec![], &src, &tgt).is_err());
}

#[test]
fn unification_ignores_regions() {
    let src: EGenericArgs = GenericArgs::new(vec![ErasedRegion::Erased], vec![var(0)], vec![], vec![]);
    let tgt: EGenericArgs = GenericArgs::new(vec![], vec![Ty::Never], vec![], vec![]);
    assert!(TySubst::unify_args_with_fixed(&vec![], &vec![], &src, &tgt).is_ok());
}

#[test]
fn ground_arguments_unify_with_themselves() {
    let a = types(vec![adt(2, vec![lit(LiteralTy::Bool)]), Ty::Never]);
    let m = TySubst::unify_args_with_fixed(&vec![], &vec![], &a, &a).unwrap();
    assert!(m.type_vars_map.is_empty());
}
