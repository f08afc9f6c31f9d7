use charon::ids::{ConstGenericVarId, RegionVarId, TraitClauseId, TraitDeclId, TypeDeclId, TypeVarId};
use charon::types::{
    ConstGeneric, ETy, ErasedRegion, GenericArgs, IntegerTy, LiteralTy, RTy, RefKind, Region,
    TraitDeclRef, TraitInstanceId, TraitRef, Ty, TypeId,
};
use charon::values::{Literal, ScalarValue};

fn tv(i: usize) -> TypeVarId {
    TypeVarId::new(i)
}

fn rv(i: usize) -> Region {
    Region::Var(RegionVarId::new(i))
}

fn bool_ty<R>() -> Ty<R> {
    Ty::Literal(LiteralTy::Bool)
}

fn adt(id: usize, types: Vec<RTy>) -> RTy {
    Ty::Adt(TypeId::Adt(TypeDeclId::new(id)), GenericArgs::new_from_types(types))
}

fn sample_trait_ref() -> TraitRef<Region> {
    TraitRef {
        trait_id: TraitInstanceId::ParentClause(
            Box::new(TraitInstanceId::Clause(TraitClauseId::new(0))),
            TraitDeclId::new(3),
            TraitClauseId::new(1),
        ),
        generics: GenericArgs::new(vec![rv(1)], vec![Ty::TypeVar(tv(2))], vec![], vec![]),
        trait_decl_ref: TraitDeclRef {
            trait_id: TraitDeclId::new(3),
            generics: GenericArgs::new_from_types(vec![Ty::TypeVar(tv(2))]),
        },
    }
}

fn sample_ty() -> RTy {
    let args = GenericArgs::new(
        vec![rv(0), Region::Static],
        vec![
            Ty::TypeVar(tv(0)),
            Ty::Ref(rv(1), Box::new(Ty::TypeVar(tv(1))), RefKind::Mut),
            Ty::Arrow(vec![bool_ty(), Ty::Never], Box::new(Ty::RawPtr(Box::new(bool_ty()), RefKind::Shared))),
        ],
        vec![
            ConstGeneric::Var(ConstGenericVarId::new(0)),
            ConstGeneric::Value(Literal::Scalar(ScalarValue::Usize(4))),
        ],
        vec![sample_trait_ref()],
    );
    Ty::Adt(
        TypeId::Adt(TypeDeclId::new(7)),
        GenericArgs::new(
            vec![],
            vec![
                Ty::Adt(TypeId::Tuple, args),
                Ty::TraitType(sample_trait_ref(), GenericArgs::empty(), "Item".to_string()),
            ],
            vec![],
            vec![],
        ),
    )
}

#[test]
fn identity_substitution_gives_the_type_back() {
    let t = sample_ty();
    let r = t.substitute(
        &|r: &Region| *r,
        &|v: &TypeVarId| Ty::TypeVar(*v),
        &|c: &ConstGenericVarId| ConstGeneric::Var(*c),
    );
    assert_eq!(r, t);
}

#[test]
fn identity_substitution_on_args_and_trait_refs() {
    let tr = sample_trait_ref();
    let r = tr.substitute(
        &|r: &Region| *r,
        &|v: &TypeVarId| Ty::TypeVar(*v),
        &|c: &ConstGenericVarId| ConstGeneric::Var(*c),
    );
    assert_eq!(r, tr);
    let a = GenericArgs::new(vec![rv(3)], vec![Ty::TypeVar(tv(5))], vec![ConstGeneric::Var(ConstGenericVarId::new(2))], vec![]);
    let b = a.substitute(
        &|r: &Region| *r,
        &|v: &TypeVarId| Ty::TypeVar(*v),
        &|c: &ConstGenericVarId| ConstGeneric::Var(*c),
    );
    assert_eq!(a, b);
}

#[test]
fn clone_is_a_deep_copy() {
    let t = sample_ty();
    assert_eq!(t.clone(), t);
}

#[test]
fn substitution_replaces_every_variable() {
    let t: RTy = Ty::Ref(rv(0), Box::new(adt(1, vec![Ty::TypeVar(tv(0)), Ty::TypeVar(tv(1))])), RefKind::Shared);
    let r = t.substitute(
        &|_r: &Region| Region::Static,
        &|v: &TypeVarId| if v.index == 0 { bool_ty() } else { Ty::Never },
        &|c: &ConstGenericVarId| ConstGeneric::Var(*c),
    );
    let expected: RTy = Ty::Ref(Region::Static, Box::new(adt(1, vec![bool_ty(), Ty::Never])), RefKind::Shared);
    assert_eq!(r, expected);
}

#[test]
fn substitution_reaches_trait_references() {
    let t: RTy = Ty::TraitType(sample_trait_ref(), GenericArgs::empty(), "Item".to_string());
    let r = t.substitute(
        &|r: &Region| *r,
        &|_v: &TypeVarId| Ty::Literal(LiteralTy::Char),
        &|c: &ConstGenericVarId| ConstGeneric::Var(*c),
    );
    match r {
        Ty::TraitType(tr, _, name) => {
            assert_eq!(name, "Item");
            assert_eq!(tr.generics.types, vec![Ty::Literal(LiteralTy::Char)]);
            assert_eq!(tr.trait_decl_ref.generics.types, vec![Ty::Literal(LiteralTy::Char)]);
        }
        _ => panic!("shape changed"),
    }
}

#[test]
fn const_generic_substitution() {
    let v = ConstGeneric::Var(ConstGenericVarId::new(1));
    let value = ConstGeneric::Value(Literal::Bool(true));
    assert_eq!(v.substitute(&|_c: &ConstGenericVarId| value), value);
    assert_eq!(value.substitute(&|c: &ConstGenericVarId| ConstGeneric::Var(*c)), value);
    assert_eq!(ConstGenericVarId::new(4).substitute(&|c: &ConstGenericVarId| ConstGeneric::Var(ConstGenericVarId::new(c.index + 1))),
        ConstGeneric::Var(ConstGenericVarId::new(5)));
}

#[test]
fn erase_regions_is_idempotent() {
    let t = sample_ty();
    let e: ETy = t.erase_regions();
    let ee: ETy = e.erase_regions();
    assert_eq!(ee, e);
}

#[test]
fn erase_regions_erases_every_region() {
    let t: RTy = Ty::Ref(rv(2), Box::new(Ty::TypeVar(tv(0))), RefKind::Mut);
    let e: ETy = t.erase_regions();
    assert_eq!(e, Ty::Ref(ErasedRegion::Erased, Box::new(Ty::TypeVar(tv(0))), RefKind::Mut));
}

#[test]
fn substitute_types_through_maps() {
    let mut ts: im::HashMap<TypeVarId, RTy> = im::HashMap::new();
    ts.insert(tv(0), Ty::Literal(LiteralTy::Integer(IntegerTy::U32)));
    let mut cs: im::HashMap<ConstGenericVarId, ConstGeneric> = im::HashMap::new();
    cs.insert(ConstGenericVarId::new(0), ConstGeneric::Value(Literal::Char('x')));
    let t: RTy = Ty::Adt(
        TypeId::Adt(TypeDeclId::new(0)),
        GenericArgs::new(vec![rv(0)], vec![Ty::TypeVar(tv(0))], vec![ConstGeneric::Var(ConstGenericVarId::new(0))], vec![]),
    );
    let r = t.substitute_types(&ts, &cs);
    let expected: RTy = Ty::Adt(
        TypeId::Adt(TypeDeclId::new(0)),
        GenericArgs::new(
            vec![rv(0)],
            vec![Ty::Literal(LiteralTy::Integer(IntegerTy::U32))],
            vec![ConstGeneric::Value(Literal::Char('x'))],
            vec![],
        ),
    );
    assert_eq!(r, expected);
}

#[test]
fn substitute_regions_types_through_maps() {
    let mut rs: im::HashMap<RegionVarId, Region> = im::HashMap::new();
    rs.insert(RegionVarId::new(0), rv(9));
    let mut ts: im::HashMap<TypeVarId, RTy> = im::HashMap::new();
    ts.insert(tv(1), Ty::Never);
    let t: RTy = Ty::Ref(rv(0), Box::new(Ty::Ref(Region::Static, Box::new(Ty::TypeVar(tv(1))), RefKind::Shared)), RefKind::Mut);
    let r = t.substitute_regions_types(&rs, &ts);
    let expected: RTy = Ty::Ref(rv(9), Box::new(Ty::Ref(Region::Static, Box::new(Ty::Never), RefKind::Shared)), RefKind::Mut);
    assert_eq!(r, expected);
}

#[test]
fn erase_regions_substitute_types_through_maps() {
    let mut ts: im::HashMap<TypeVarId, ETy> = im::HashMap::new();
    ts.insert(tv(0), Ty::Ref(ErasedRegion::Erased, Box::new(bool_ty()), RefKind::Shared));
    let cs: im::HashMap<ConstGenericVarId, ConstGeneric> = im::HashMap::new();
    let t: RTy = Ty::Ref(rv(3), Box::new(Ty::TypeVar(tv(0))), RefKind::Mut);
    let r = t.erase_regions_substitute_types(&ts, &cs);
    let expected: ETy = Ty::Ref(
        ErasedRegion::Erased,
        Box::new(Ty::Ref(ErasedRegion::Erased, Box::new(bool_ty()), RefKind::Shared)),
        RefKind::Mut,
    );
    assert_eq!(r, expected);
}
