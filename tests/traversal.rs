use charon::decls::{GenericParams, OutlivesPred, Predicates, RegionVar, TraitClause, TypeVar};
use charon::ids::{RegionVarId, TraitClauseId, TraitDeclId, TypeDeclId, TypeVarId};
use charon::visit_decls::{walk_generic_params, walk_predicates};
use charon::types::{GenericArgs, LiteralTy, RTy, RefKind, Region, Ty, TypeId};
use charon::visit::{trace_of, walk_ty, TraceRecorder, TyTag, Visit};

fn sample() -> RTy {
    Ty::Adt(
        TypeId::Adt(TypeDeclId::new(4)),
        GenericArgs::new(
            vec![Region::Var(RegionVarId::new(0))],
            vec![
                Ty::Ref(Region::Static, Box::new(Ty::TypeVar(TypeVarId::new(1))), RefKind::Mut),
                Ty::Arrow(vec![Ty::Literal(LiteralTy::Bool)], Box::new(Ty::Never)),
            ],
            vec![],
            vec![],
        ),
    )
}

#[test]
fn identical_trees_give_identical_traces() {
    let a = trace_of(&sample());
    let b = trace_of(&sample());
    assert_eq!(a, b);
    let mut rec = TraceRecorder::new();
    walk_ty(&mut rec, &sample());
    assert_eq!(rec.trace, a);
}

#[test]
fn traversal_order() {
    let trace = trace_of(&sample());
    let expected = vec![
        Visit::Ty(TyTag::Adt),
        Visit::TypeDeclId(TypeDeclId::new(4)),
        Visit::Region(Region::Var(RegionVarId::new(0))),
        Visit::Ty(TyTag::Ref),
        Visit::Region(Region::Static),
        Visit::Ty(TyTag::TypeVar),
        Visit::TypeVarId(TypeVarId::new(1)),
        Visit::Ty(TyTag::Arrow),
        Visit::Ty(TyTag::Literal),
        Visit::LiteralTy(LiteralTy::Bool),
        Visit::Ty(TyTag::Never),
    ];
    assert_eq!(trace, expected);
}

#[test]
fn generic_params_and_predicates_traversal() {
    let g = GenericParams {
        regions: vec![RegionVar { index: RegionVarId::new(0), name: Some("'a".to_string()) }],
        types: vec![TypeVar::new(TypeVarId::new(0), "T".to_string())],
        const_generics: vec![],
        trait_clauses: vec![TraitClause {
            clause_id: TraitClauseId::new(0),
            trait_id: TraitDeclId::new(5),
            generics: GenericArgs::new_from_types(vec![Ty::TypeVar(TypeVarId::new(0))]),
        }],
    };
    let mut rec = TraceRecorder::new();
    walk_generic_params(&mut rec, &g);
    assert_eq!(
        rec.trace,
        vec![
            Visit::RegionVarId(RegionVarId::new(0)),
            Visit::TypeVarId(TypeVarId::new(0)),
            Visit::TraitClauseId(TraitClauseId::new(0)),
            Visit::TraitDeclId(TraitDeclId::new(5)),
            Visit::Ty(TyTag::TypeVar),
            Visit::TypeVarId(TypeVarId::new(0)),
        ]
    );
    let p = Predicates {
        regions_outlive: vec![OutlivesPred(Region::Var(RegionVarId::new(0)), Region::Static)],
        types_outlive: vec![OutlivesPred(Ty::TypeVar(TypeVarId::new(0)), Region::Var(RegionVarId::new(0)))],
        trait_type_constraints: vec![],
    };
    let mut rec2 = TraceRecorder::new();
    walk_predicates(&mut rec2, &p);
    assert_eq!(
        rec2.trace,
        vec![
            Visit::Region(Region::Var(RegionVarId::new(0))),
            Visit::Region(Region::Static),
            Visit::Ty(TyTag::TypeVar),
            Visit::TypeVarId(TypeVarId::new(0)),
            Visit::Region(Region::Var(RegionVarId::new(0))),
        ]
    );
}
