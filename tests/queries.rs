use charon::decls::{GenericParams, Predicates, TypeDecl, TypeDeclKind, TypeVar, TypeVarIdGenerator, Field, Variant};
use charon::ids::{ConstGenericVarId, RegionVarId, TraitClauseId, TypeDeclId, TypeVarId};
use charon::types::{
    AssumedTy, ConstGeneric, GenericArgs, IntegerTy, LiteralTy, RTy, RefKind, Region, Ty, TypeId,
};

fn rv(i: usize) -> Region {
    Region::Var(RegionVarId::new(i))
}

fn bool_ty() -> RTy {
    Ty::Literal(LiteralTy::Bool)
}

#[test]
fn unit_is_the_empty_tuple() {
    let u: RTy = Ty::mk_unit();
    assert!(u.is_unit());
    let pair: RTy = Ty::Adt(TypeId::Tuple, GenericArgs::new_from_types(vec![bool_ty()]));
    assert!(!pair.is_unit());
    let user: RTy = Ty::Adt(TypeId::Adt(TypeDeclId::new(0)), GenericArgs::empty());
    assert!(!user.is_unit());
    assert!(!bool_ty().is_unit());
}

#[test]
fn scalar_queries() {
    let u8_ty: RTy = Ty::Literal(LiteralTy::Integer(IntegerTy::U8));
    let i64_ty: RTy = Ty::Literal(LiteralTy::Integer(IntegerTy::I64));
    assert!(u8_ty.is_scalar() && u8_ty.is_unsigned_scalar() && !u8_ty.is_signed_scalar());
    assert!(i64_ty.is_scalar() && i64_ty.is_signed_scalar() && !i64_ty.is_unsigned_scalar());
    assert!(!bool_ty().is_scalar());
    assert!(!bool_ty().is_signed_scalar());
}

#[test]
fn integer_sizes() {
    assert_eq!(IntegerTy::U8.size(), 1);
    assert_eq!(IntegerTy::I16.size(), 2);
    assert_eq!(IntegerTy::U32.size(), 4);
    assert_eq!(IntegerTy::I64.size(), 8);
    assert_eq!(IntegerTy::U128.size(), 16);
    assert_eq!(IntegerTy::Usize.size(), std::mem::size_of::<usize>());
    assert!(IntegerTy::Isize.is_signed());
    assert!(IntegerTy::Usize.is_unsigned());
}

#[test]
fn box_queries() {
    let b: RTy = Ty::Adt(TypeId::Assumed(AssumedTy::Box), GenericArgs::new_from_types(vec![bool_ty()]));
    assert!(b.is_box());
    assert_eq!(b.as_box(), Some(&bool_ty()));
    assert!(!bool_ty().is_box());
    assert_eq!(bool_ty().as_box(), None);
}

#[test]
fn region_var_membership() {
    let mut set: im::OrdSet<usize> = im::OrdSet::new();
    set.insert(0);
    let r: RTy = Ty::Ref(rv(0), Box::new(bool_ty()), RefKind::Shared);
    assert!(r.contains_region_var(&set));
    assert!(!bool_ty().contains_region_var(&set));
    let other: RTy = Ty::Ref(rv(1), Box::new(bool_ty()), RefKind::Shared);
    assert!(!other.contains_region_var(&set));
    let stat: RTy = Ty::Ref(Region::Static, Box::new(bool_ty()), RefKind::Shared);
    assert!(!stat.contains_region_var(&set));
    assert!(rv(0).contains_var(&set));
    assert!(!Region::Static.contains_var(&set));
}

#[test]
fn region_var_in_nested_arguments() {
    let mut set: im::OrdSet<usize> = im::OrdSet::new();
    set.insert(2);
    let only_types: RTy = Ty::Adt(
        TypeId::Tuple,
        GenericArgs::new_from_types(vec![Ty::Ref(rv(2), Box::new(bool_ty()), RefKind::Mut)]),
    );
    assert!(only_types.contains_region_var(&set));
    let in_regions: RTy = Ty::Adt(TypeId::Adt(TypeDeclId::new(1)), GenericArgs::new(vec![rv(2)], vec![], vec![], vec![]));
    assert!(in_regions.contains_region_var(&set));
    let arrow: RTy = Ty::Arrow(vec![bool_ty()], Box::new(Ty::Ref(rv(2), Box::new(bool_ty()), RefKind::Mut)));
    assert!(arrow.contains_region_var(&set));
}

#[test]
fn variables_regions_and_never() {
    let var: RTy = Ty::TypeVar(TypeVarId::new(0));
    assert!(var.contains_variables());
    assert!(!var.contains_regions());
    let stat: RTy = Ty::Ref(Region::Static, Box::new(bool_ty()), RefKind::Shared);
    assert!(stat.contains_variables());
    assert!(stat.contains_regions());
    assert!(!bool_ty().contains_variables());
    let with_region: RTy = Ty::Adt(TypeId::Tuple, GenericArgs::new(vec![Region::Static], vec![], vec![], vec![]));
    assert!(with_region.contains_regions());
    let never_inside: RTy = Ty::RawPtr(Box::new(Ty::Arrow(vec![Ty::Never], Box::new(bool_ty()))), RefKind::Mut);
    assert!(never_inside.contains_never());
    assert!(!stat.contains_never());
    assert!(Ty::<Region>::Never.contains_never());
}

#[test]
fn generic_args_sizes() {
    let a: charon::types::RGenericArgs = GenericArgs::new(
        vec![Region::Static],
        vec![bool_ty(), bool_ty()],
        vec![ConstGeneric::Var(ConstGenericVarId::new(0))],
        vec![],
    );
    assert_eq!(a.len(), 4);
    assert!(!a.is_empty());
    let e: charon::types::RGenericArgs = GenericArgs::empty();
    assert_eq!(e.len(), 0);
    assert!(e.is_empty());
}

#[test]
fn generic_params_and_predicates() {
    let p = GenericParams::empty();
    assert_eq!(p.len(), 0);
    assert!(p.is_empty());
    let preds = Predicates { regions_outlive: vec![], types_outlive: vec![], trait_type_constraints: vec![] };
    assert!(preds.is_empty());
}

#[test]
fn fresh_type_variables() {
    let mut gen = TypeVarIdGenerator::new();
    let a = TypeVar::fresh("T".to_string(), &mut gen);
    let b = TypeVar::fresh("U".to_string(), &mut gen);
    assert_eq!(a.index, TypeVarId::new(0));
    assert_eq!(b.index, TypeVarId::new(1));
    assert_eq!(b.name, "U");
    assert_eq!(TypeVar::new(TypeVarId::new(5), "V".to_string()).index.index, 5);
    let _ = TraitClauseId::new(0);
}

#[test]
fn fields_of_declarations() {
    let field = Field { name: Some("x".to_string()), ty: bool_ty() };
    let s = TypeDecl {
        def_id: TypeDeclId::new(0),
        name: vec!["S".to_string()],
        generics: GenericParams::empty(),
        preds: Predicates { regions_outlive: vec![], types_outlive: vec![], trait_type_constraints: vec![] },
        kind: TypeDeclKind::Struct(vec![field]),
    };
    assert_eq!(s.get_fields(None).unwrap().len(), 1);
    let e = TypeDecl {
        def_id: TypeDeclId::new(1),
        name: vec!["E".to_string()],
        generics: GenericParams::empty(),
        preds: Predicates { regions_outlive: vec![], types_outlive: vec![], trait_type_constraints: vec![] },
        kind: TypeDeclKind::Enum(vec![
            Variant { name: "A".to_string(), fields: vec![] },
            Variant { name: "B".to_string(), fields: vec![Field { name: None, ty: bool_ty() }] },
        ]),
    };
    assert_eq!(e.get_fields(Some(1)).unwrap().len(), 1);
    let err = TypeDecl {
        def_id: TypeDeclId::new(2),
        name: vec![],
        generics: GenericParams::empty(),
        preds: Predicates { regions_outlive: vec![], types_outlive: vec![], trait_type_constraints: vec![] },
        kind: TypeDeclKind::Error("failed".to_string()),
    };
    assert!(err.get_fields(None).is_err());
}

#[test]
fn pretty_identifiers() {
    assert_eq!(TypeVarId::new(0).to_pretty_string(), "@T0");
    assert_eq!(RegionVarId::new(12).to_pretty_string(), "@R12");
    assert_eq!(ConstGenericVarId::new(305).to_pretty_string(), "@Const305");
    assert_eq!(TypeDeclId::new(7).to_pretty_string(), "@Adt7");
    assert_eq!(TraitClauseId::new(10).to_pretty_string(), "@TraitClause10");
    assert_eq!(charon::ids::TraitImplId::new(99).to_pretty_string(), "@TraitImpl99");
}
