//! Unification on the mathematical models: a state (the bindings found so
//! far) is threaded through a left-to-right structural descent.
use vstd::prelude::*;

use crate::ids::{ConstGenericVarId, TypeVarId};
use crate::subst_spec::{cg_vars_ok, subst_cg, SubstFns, VarPreds};
use crate::types::{
    ConstGeneric, ErasedRegion, GenericArgsModel, TraitInstanceModel, TraitRefModel, TyModel,
};

verus! {

/// The bindings of a unification in progress.
pub struct UnifyState {
    pub ignore_regions: bool,
    pub regions: Map<ErasedRegion, ErasedRegion>,
    pub types: Map<TypeVarId, TyModel<ErasedRegion>>,
    pub cgs: Map<ConstGenericVarId, ConstGeneric>,
}

pub open spec fn unify_region_spec(s: UnifyState, src: ErasedRegion, tgt: ErasedRegion) -> Option<UnifyState> {
    if s.regions.contains_key(src) {
        if s.regions[src] == tgt {
            Some(s)
        } else {
            None
        }
    } else {
        Some(UnifyState { regions: s.regions.insert(src, tgt), ..s })
    }
}

pub open spec fn unify_cg_spec(s: UnifyState, src: ConstGeneric, tgt: ConstGeneric) -> Option<UnifyState> {
    match src {
        ConstGeneric::Var(v) => if s.cgs.contains_key(v) {
            None
        } else {
            Some(UnifyState { cgs: s.cgs.insert(v, tgt), ..s })
        },
        ConstGeneric::Global(a) => match tgt {
            ConstGeneric::Global(b) => if a == b {
                Some(s)
            } else {
                None
            },
            _ => None,
        },
        ConstGeneric::Value(a) => match tgt {
            ConstGeneric::Value(b) => if a == b {
                Some(s)
            } else {
                None
            },
            _ => None,
        },
    }
}

pub open spec fn unify_regions_spec(
    s: UnifyState,
    srcs: Seq<ErasedRegion>,
    tgts: Seq<ErasedRegion>,
) -> Option<UnifyState>
    decreases srcs.len(),
{
    if srcs.len() != tgts.len() {
        None
    } else if srcs.len() == 0 {
        Some(s)
    } else {
        match unify_region_spec(s, srcs[0], tgts[0]) {
            None => None,
            Some(s1) => unify_regions_spec(
                s1,
                srcs.subrange(1, srcs.len() as int),
                tgts.subrange(1, tgts.len() as int),
            ),
        }
    }
}

pub open spec fn unify_cgs_spec(
    s: UnifyState,
    srcs: Seq<ConstGeneric>,
    tgts: Seq<ConstGeneric>,
) -> Option<UnifyState>
    decreases srcs.len(),
{
    if srcs.len() != tgts.len() {
        None
    } else if srcs.len() == 0 {
        Some(s)
    } else {
        match unify_cg_spec(s, srcs[0], tgts[0]) {
            None => None,
            Some(s1) => unify_cgs_spec(
                s1,
                srcs.subrange(1, srcs.len() as int),
                tgts.subrange(1, tgts.len() as int),
            ),
        }
    }
}

/// Unifies a source type (a pattern) with a target type: a source variable
/// is bound to the target (only once), equal heads unify their children in
/// order. Two trait types unify when their item names are equal, their trait
/// references unify and then their arguments do; two function types unify
/// when their inputs unify in order and then their outputs do.
pub open spec fn unify_ty_spec(
    s: UnifyState,
    src: TyModel<ErasedRegion>,
    tgt: TyModel<ErasedRegion>,
) -> Option<UnifyState>
    decreases src,
{
    match src {
        TyModel::TypeVar(v) => if s.types.contains_key(v) {
            None
        } else {
            Some(UnifyState { types: s.types.insert(v, tgt), ..s })
        },
        TyModel::Adt(id, a) => match tgt {
            TyModel::Adt(id2, b) => if id == id2 {
                unify_args_spec(s, a, b)
            } else {
                None
            },
            _ => None,
        },
        TyModel::Literal(l) => match tgt {
            TyModel::Literal(l2) => if l == l2 {
                Some(s)
            } else {
                None
            },
            _ => None,
        },
        TyModel::Never => match tgt {
            TyModel::Never => Some(s),
            _ => None,
        },
        TyModel::Ref(r, t, k) => match tgt {
            TyModel::Ref(r2, t2, k2) => {
                let s0 = if s.ignore_regions {
                    Some(s)
                } else {
                    unify_region_spec(s, r, r2)
                };
                match s0 {
                    None => None,
                    Some(s1) => match unify_ty_spec(s1, *t, *t2) {
                        None => None,
                        Some(s2) => if k == k2 {
                            Some(s2)
                        } else {
                            None
                        },
                    },
                }
            },
            _ => None,
        },
        TyModel::RawPtr(t, k) => match tgt {
            TyModel::RawPtr(t2, k2) => match unify_ty_spec(s, *t, *t2) {
                None => None,
                Some(s2) => if k == k2 {
                    Some(s2)
                } else {
                    None
                },
            },
            _ => None,
        },
        TyModel::TraitType(tr, a, name) => match tgt {
            TyModel::TraitType(tr2, b, name2) => if name == name2 {
                match unify_trait_ref_spec(s, tr, tr2) {
                    None => None,
                    Some(s1) => unify_args_spec(s1, a, b),
                }
            } else {
                None
            },
            _ => None,
        },
        TyModel::Arrow(ins, out) => match tgt {
            TyModel::Arrow(ins2, out2) => match unify_tys_spec(s, ins, ins2) {
                None => None,
                Some(s1) => unify_ty_spec(s1, *out, *out2),
            },
            _ => None,
        },
    }
}

/// Unifies two trait references: the trait instances, then the arguments,
/// then the arguments of the trait declaration references, which must name
/// the same trait.
pub open spec fn unify_trait_ref_spec(
    s: UnifyState,
    src: TraitRefModel<ErasedRegion>,
    tgt: TraitRefModel<ErasedRegion>,
) -> Option<UnifyState>
    decreases src,
{
    if src.trait_decl_ref.trait_id != tgt.trait_decl_ref.trait_id {
        None
    } else {
        match unify_trait_instance_spec(s, src.trait_id, tgt.trait_id) {
            None => None,
            Some(s1) => match unify_args_spec(s1, src.generics, tgt.generics) {
                None => None,
                Some(s2) => unify_args_spec(s2, src.trait_decl_ref.generics, tgt.trait_decl_ref.generics),
            },
        }
    }
}

/// Unifies two trait instance paths: equal heads with equal identifiers,
/// unifying the bases of parent and item clauses, the types of function
/// pointers and the arguments of deferred obligations.
pub open spec fn unify_trait_instance_spec(
    s: UnifyState,
    src: TraitInstanceModel<ErasedRegion>,
    tgt: TraitInstanceModel<ErasedRegion>,
) -> Option<UnifyState>
    decreases src,
{
    match src {
        TraitInstanceModel::ParentClause(b, d, c) => match tgt {
            TraitInstanceModel::ParentClause(b2, d2, c2) => if d == d2 && c == c2 {
                unify_trait_instance_spec(s, *b, *b2)
            } else {
                None
            },
            _ => None,
        },
        TraitInstanceModel::ItemClause(b, d, n, c) => match tgt {
            TraitInstanceModel::ItemClause(b2, d2, n2, c2) => if d == d2 && n == n2 && c == c2 {
                unify_trait_instance_spec(s, *b, *b2)
            } else {
                None
            },
            _ => None,
        },
        TraitInstanceModel::FnPointer(t) => match tgt {
            TraitInstanceModel::FnPointer(t2) => unify_ty_spec(s, *t, *t2),
            _ => None,
        },
        TraitInstanceModel::Unsolved(d, a) => match tgt {
            TraitInstanceModel::Unsolved(d2, b) => if d == d2 {
                unify_args_spec(s, a, b)
            } else {
                None
            },
            _ => None,
        },
        _ => if src == tgt {
            Some(s)
        } else {
            None
        },
    }
}

pub open spec fn unify_tys_spec(
    s: UnifyState,
    srcs: Seq<TyModel<ErasedRegion>>,
    tgts: Seq<TyModel<ErasedRegion>>,
) -> Option<UnifyState>
    decreases srcs,
{
    if srcs.len() != tgts.len() {
        None
    } else if srcs.len() == 0 {
        Some(s)
    } else {
        match unify_ty_spec(s, srcs[0], tgts[0]) {
            None => None,
            Some(s1) => unify_tys_spec(
                s1,
                srcs.subrange(1, srcs.len() as int),
                tgts.subrange(1, tgts.len() as int),
            ),
        }
    }
}

/// Unifies generic arguments: regions (unless ignored), then types, then
/// const generics. Trait references are not looked at.
pub open spec fn unify_args_spec(
    s: UnifyState,
    a: GenericArgsModel<ErasedRegion>,
    b: GenericArgsModel<ErasedRegion>,
) -> Option<UnifyState>
    decreases a,
{
    let s0 = if s.ignore_regions {
        Some(s)
    } else {
        unify_regions_spec(s, a.regions, b.regions)
    };
    match s0 {
        None => None,
        Some(s1) => match unify_tys_spec(s1, a.types, b.types) {
            None => None,
            Some(s2) => unify_cgs_spec(s2, a.const_generics, b.const_generics),
        },
    }
}

/// The state in which unification starts: the static region mapping, and
/// the fixed variables bound to themselves.
pub open spec fn initial_state(
    fixed_types: Seq<TypeVarId>,
    fixed_cgs: Seq<ConstGenericVarId>,
) -> UnifyState {
    UnifyState {
        ignore_regions: true,
        regions: map![ErasedRegion::Erased => ErasedRegion::Erased],
        types: Map::new(
            |v: TypeVarId| fixed_types.contains(v),
            |v: TypeVarId| TyModel::TypeVar(v),
        ),
        cgs: Map::new(
            |c: ConstGenericVarId| fixed_cgs.contains(c),
            |c: ConstGenericVarId| ConstGeneric::Var(c),
        ),
    }
}

/// The substitution that a unification state stands for; regions stay.
pub open spec fn state_subst(s: UnifyState) -> SubstFns<ErasedRegion, ErasedRegion> {
    SubstFns {
        region: |r: ErasedRegion| r,
        ty: |v: TypeVarId| s.types[v],
        cg: |c: ConstGenericVarId| s.cgs[c],
    }
}

/// `s2` keeps every binding of `s`.
pub open spec fn extends(s: UnifyState, s2: UnifyState) -> bool {
    &&& s2.ignore_regions == s.ignore_regions
    &&& s.regions.submap_of(s2.regions)
    &&& s.types.submap_of(s2.types)
    &&& s.cgs.submap_of(s2.cgs)
}

/// At every position where unification compares two argument lists, their
/// region lists have the same length and neither holds trait references:
/// the parts that unification does not look at already agree.
pub open spec fn ty_aligned(src: TyModel<ErasedRegion>, tgt: TyModel<ErasedRegion>) -> bool
    decreases src,
{
    match src {
        TyModel::Adt(_, a) => match tgt {
            TyModel::Adt(_, b) => args_aligned(a, b),
            _ => true,
        },
        TyModel::Ref(_, t, _) => match tgt {
            TyModel::Ref(_, t2, _) => ty_aligned(*t, *t2),
            _ => true,
        },
        TyModel::RawPtr(t, _) => match tgt {
            TyModel::RawPtr(t2, _) => ty_aligned(*t, *t2),
            _ => true,
        },
        TyModel::TraitType(tr, a, _) => match tgt {
            TyModel::TraitType(tr2, b, _) => trait_ref_aligned(tr, tr2) && args_aligned(a, b),
            _ => true,
        },
        TyModel::Arrow(ins, out) => match tgt {
            TyModel::Arrow(ins2, out2) => (forall|i: int|
                0 <= i < ins.len() && i < ins2.len() ==> ty_aligned(#[trigger] ins[i], ins2[i]))
                && ty_aligned(*out, *out2),
            _ => true,
        },
        _ => true,
    }
}

pub open spec fn args_aligned(a: GenericArgsModel<ErasedRegion>, b: GenericArgsModel<ErasedRegion>) -> bool
    decreases a,
{
    &&& a.regions.len() == b.regions.len()
    &&& a.trait_refs.len() == 0
    &&& b.trait_refs.len() == 0
    &&& forall|i: int|
        0 <= i < a.types.len() && i < b.types.len() ==> ty_aligned(#[trigger] a.types[i], b.types[i])
}

pub open spec fn trait_ref_aligned(a: TraitRefModel<ErasedRegion>, b: TraitRefModel<ErasedRegion>) -> bool
    decreases a,
{
    &&& trait_instance_aligned(a.trait_id, b.trait_id)
    &&& args_aligned(a.generics, b.generics)
    &&& args_aligned(a.trait_decl_ref.generics, b.trait_decl_ref.generics)
}

pub open spec fn trait_instance_aligned(
    a: TraitInstanceModel<ErasedRegion>,
    b: TraitInstanceModel<ErasedRegion>,
) -> bool
    decreases a,
{
    match a {
        TraitInstanceModel::ParentClause(x, _, _) => match b {
            TraitInstanceModel::ParentClause(y, _, _) => trait_instance_aligned(*x, *y),
            _ => true,
        },
        TraitInstanceModel::ItemClause(x, _, _, _) => match b {
            TraitInstanceModel::ItemClause(y, _, _, _) => trait_instance_aligned(*x, *y),
            _ => true,
        },
        TraitInstanceModel::FnPointer(x) => match b {
            TraitInstanceModel::FnPointer(y) => ty_aligned(*x, *y),
            _ => true,
        },
        TraitInstanceModel::Unsolved(_, x) => match b {
            TraitInstanceModel::Unsolved(_, y) => args_aligned(x, y),
            _ => true,
        },
        _ => true,
    }
}

proof fn lemma_extends_trans(a: UnifyState, b: UnifyState, c: UnifyState)
    requires
        extends(a, b),
        extends(b, c),
    ensures
        extends(a, c),
{
    vstd::map_lib::lemma_submap_of_trans(a.types, b.types, c.types);
    vstd::map_lib::lemma_submap_of_trans(a.cgs, b.cgs, c.cgs);
    vstd::map_lib::lemma_submap_of_trans(a.regions, b.regions, c.regions);
}

proof fn lemma_erased_regions_equal(a: Seq<ErasedRegion>, b: Seq<ErasedRegion>)
    requires
        a.len() == b.len(),
    ensures
        a == b,
{
    assert forall|i: int| 0 <= i < a.len() implies a[i] == b[i] by {
        match a[i] {
            ErasedRegion::Erased => match b[i] {
                ErasedRegion::Erased => {},
            },
        }
    }
    assert(a =~= b);
}

proof fn lemma_unify_region_extends(s: UnifyState, src: ErasedRegion, tgt: ErasedRegion)
    requires
        unify_region_spec(s, src, tgt) is Some,
    ensures
        extends(s, unify_region_spec(s, src, tgt)->0),
{
}

proof fn lemma_unify_regions_extends(s: UnifyState, srcs: Seq<ErasedRegion>, tgts: Seq<ErasedRegion>)
    requires
        unify_regions_spec(s, srcs, tgts) is Some,
    ensures
        srcs.len() == tgts.len(),
        extends(s, unify_regions_spec(s, srcs, tgts)->0),
    decreases srcs.len(),
{
    if srcs.len() > 0 {
        let s1 = unify_region_spec(s, srcs[0], tgts[0])->0;
        lemma_unify_region_extends(s, srcs[0], tgts[0]);
        lemma_unify_regions_extends(s1, srcs.subrange(1, srcs.len() as int), tgts.subrange(1, tgts.len() as int));
    }
}

proof fn lemma_unify_cgs_sound(s: UnifyState, srcs: Seq<ConstGeneric>, tgts: Seq<ConstGeneric>)
    requires
        unify_cgs_spec(s, srcs, tgts) is Some,
    ensures
        srcs.len() == tgts.len(),
        extends(s, unify_cgs_spec(s, srcs, tgts)->0),
        forall|s3: UnifyState, i: int|
            extends(unify_cgs_spec(s, srcs, tgts)->0, s3) && 0 <= i < srcs.len()
                ==> #[trigger] subst_cg(srcs[i], state_subst(s3).cg) == tgts[i],
    decreases srcs.len(),
{
    if srcs.len() > 0 {
        let r = unify_cgs_spec(s, srcs, tgts)->0;
        let s1 = unify_cg_spec(s, srcs[0], tgts[0])->0;
        let rest_s = srcs.subrange(1, srcs.len() as int);
        let rest_t = tgts.subrange(1, tgts.len() as int);
        lemma_unify_cgs_sound(s1, rest_s, rest_t);
        lemma_extends_trans(s, s1, r);
        assert forall|s3: UnifyState, i: int|
            extends(r, s3) && 0 <= i < srcs.len()
                implies #[trigger] subst_cg(srcs[i], state_subst(s3).cg) == tgts[i] by {
            if i == 0 {
                lemma_extends_trans(s1, r, s3);
                if let ConstGeneric::Var(v) = srcs[0] {
                    assert(s1.cgs.dom().contains(v));
                    assert(s3.cgs.dom().contains(v));
                    assert(s3.cgs[v] == s1.cgs[v]);
                }
            } else {
                assert(rest_s[i - 1] == srcs[i]);
                assert(rest_t[i - 1] == tgts[i]);
            }
        }
    }
}

/// Soundness of type unification: once it succeeds, the source with the
/// bindings substituted (those found and any added later) is the target.
pub proof fn lemma_unify_ty_sound(s: UnifyState, src: TyModel<ErasedRegion>, tgt: TyModel<ErasedRegion>)
    requires
        unify_ty_spec(s, src, tgt) is Some,
        ty_aligned(src, tgt),
    ensures
        extends(s, unify_ty_spec(s, src, tgt)->0),
        forall|s3: UnifyState|
            extends(unify_ty_spec(s, src, tgt)->0, s3) ==> #[trigger] src.subst(state_subst(s3)) == tgt,
    decreases src,
{
    let r = unify_ty_spec(s, src, tgt)->0;
    match src {
        TyModel::TypeVar(v) => {
            assert forall|s3: UnifyState| extends(r, s3) implies #[trigger] src.subst(state_subst(s3)) == tgt by {
                assert(r.types.dom().contains(v));
                assert(s3.types.dom().contains(v));
                assert(s3.types[v] == r.types[v]);
            }
        },
        TyModel::Adt(id, a) => {
            let b = tgt->Adt_1;
            lemma_unify_args_sound(s, a, b);
            assert forall|s3: UnifyState| extends(r, s3) implies #[trigger] src.subst(state_subst(s3)) == tgt by {
                assert(a.subst(state_subst(s3)) == b);
            }
        },
        TyModel::Ref(r1, t, k) => {
            let r2 = tgt->Ref_0;
            let t2 = *tgt->Ref_1;
            let s1 = if s.ignore_regions {
                s
            } else {
                lemma_unify_region_extends(s, r1, r2);
                unify_region_spec(s, r1, r2)->0
            };
            lemma_unify_ty_sound(s1, *t, t2);
            lemma_extends_trans(s, s1, r);
            assert forall|s3: UnifyState| extends(r, s3) implies #[trigger] src.subst(state_subst(s3)) == tgt by {
                match r1 {
                    ErasedRegion::Erased => match r2 {
                        ErasedRegion::Erased => {},
                    },
                }
                assert(t.subst(state_subst(s3)) == t2);
            }
        },
        TyModel::RawPtr(t, k) => {
            let t2 = *tgt->RawPtr_0;
            lemma_unify_ty_sound(s, *t, t2);
            assert forall|s3: UnifyState| extends(r, s3) implies #[trigger] src.subst(state_subst(s3)) == tgt by {
                assert(t.subst(state_subst(s3)) == t2);
            }
        },
        TyModel::TraitType(tr, a, _) => {
            let tr2 = tgt->TraitType_0;
            let b = tgt->TraitType_1;
            lemma_unify_trait_ref_sound(s, tr, tr2);
            let s1 = unify_trait_ref_spec(s, tr, tr2)->0;
            lemma_unify_args_sound(s1, a, b);
            lemma_extends_trans(s, s1, r);
            assert forall|s3: UnifyState| extends(r, s3) implies #[trigger] src.subst(state_subst(s3)) == tgt by {
                lemma_extends_trans(s1, r, s3);
                assert(a.subst(state_subst(s3)) == b);
                assert(tr.subst(state_subst(s3)) == tr2);
            }
        },
        TyModel::Arrow(ins, out) => {
            let ins2 = tgt->Arrow_0;
            let out2 = *tgt->Arrow_1;
            assert forall|i: int| 0 <= i < ins.len() && i < ins2.len() implies ty_aligned(#[trigger] ins[i], ins2[i]) by {}
            lemma_unify_tys_sound(s, ins, ins2);
            let s1 = unify_tys_spec(s, ins, ins2)->0;
            lemma_unify_ty_sound(s1, *out, out2);
            lemma_extends_trans(s, s1, r);
            assert forall|s3: UnifyState| extends(r, s3) implies #[trigger] src.subst(state_subst(s3)) == tgt by {
                lemma_extends_trans(s1, r, s3);
                let m = src.subst(state_subst(s3));
                assert forall|i: int| 0 <= i < ins.len() implies m->Arrow_0[i] == ins2[i] by {
                    assert(ins[i].subst(state_subst(s3)) == ins2[i]);
                }
                assert(m->Arrow_0 =~= ins2);
                assert(out.subst(state_subst(s3)) == out2);
            }
        },
        _ => {},
    }
}

/// Soundness of trait reference unification.
pub proof fn lemma_unify_trait_ref_sound(
    s: UnifyState,
    src: TraitRefModel<ErasedRegion>,
    tgt: TraitRefModel<ErasedRegion>,
)
    requires
        unify_trait_ref_spec(s, src, tgt) is Some,
        trait_ref_aligned(src, tgt),
    ensures
        extends(s, unify_trait_ref_spec(s, src, tgt)->0),
        forall|s3: UnifyState|
            extends(unify_trait_ref_spec(s, src, tgt)->0, s3) ==> #[trigger] src.subst(state_subst(s3)) == tgt,
    decreases src,
{
    let r = unify_trait_ref_spec(s, src, tgt)->0;
    lemma_unify_trait_instance_sound(s, src.trait_id, tgt.trait_id);
    let s1 = unify_trait_instance_spec(s, src.trait_id, tgt.trait_id)->0;
    lemma_unify_args_sound(s1, src.generics, tgt.generics);
    let s2 = unify_args_spec(s1, src.generics, tgt.generics)->0;
    lemma_unify_args_sound(s2, src.trait_decl_ref.generics, tgt.trait_decl_ref.generics);
    lemma_extends_trans(s1, s2, r);
    lemma_extends_trans(s, s1, r);
    assert forall|s3: UnifyState| extends(r, s3) implies #[trigger] src.subst(state_subst(s3)) == tgt by {
        lemma_extends_trans(s2, r, s3);
        lemma_extends_trans(s1, r, s3);
        assert(src.trait_id.subst(state_subst(s3)) == tgt.trait_id);
        assert(src.generics.subst(state_subst(s3)) == tgt.generics);
        assert(src.trait_decl_ref.generics.subst(state_subst(s3)) == tgt.trait_decl_ref.generics);
    }
}

/// Soundness of trait instance unification.
pub proof fn lemma_unify_trait_instance_sound(
    s: UnifyState,
    src: TraitInstanceModel<ErasedRegion>,
    tgt: TraitInstanceModel<ErasedRegion>,
)
    requires
        unify_trait_instance_spec(s, src, tgt) is Some,
        trait_instance_aligned(src, tgt),
    ensures
        extends(s, unify_trait_instance_spec(s, src, tgt)->0),
        forall|s3: UnifyState|
            extends(unify_trait_instance_spec(s, src, tgt)->0, s3) ==> #[trigger] src.subst(state_subst(s3)) == tgt,
    decreases src,
{
    let r = unify_trait_instance_spec(s, src, tgt)->0;
    match src {
        TraitInstanceModel::ParentClause(b, _, _) => {
            lemma_unify_trait_instance_sound(s, *b, *tgt->ParentClause_0);
            assert forall|s3: UnifyState| extends(r, s3) implies #[trigger] src.subst(state_subst(s3)) == tgt by {
                assert(b.subst(state_subst(s3)) == *tgt->ParentClause_0);
            }
        },
        TraitInstanceModel::ItemClause(b, _, _, _) => {
            lemma_unify_trait_instance_sound(s, *b, *tgt->ItemClause_0);
            assert forall|s3: UnifyState| extends(r, s3) implies #[trigger] src.subst(state_subst(s3)) == tgt by {
                assert(b.subst(state_subst(s3)) == *tgt->ItemClause_0);
            }
        },
        TraitInstanceModel::FnPointer(t) => {
            lemma_unify_ty_sound(s, *t, *tgt->FnPointer_0);
            assert forall|s3: UnifyState| extends(r, s3) implies #[trigger] src.subst(state_subst(s3)) == tgt by {
                assert(t.subst(state_subst(s3)) == *tgt->FnPointer_0);
            }
        },
        TraitInstanceModel::Unsolved(_, a) => {
            lemma_unify_args_sound(s, a, tgt->Unsolved_1);
            assert forall|s3: UnifyState| extends(r, s3) implies #[trigger] src.subst(state_subst(s3)) == tgt by {
                assert(a.subst(state_subst(s3)) == tgt->Unsolved_1);
            }
        },
        _ => {
            assert(extends(s, s)) by {
                assert(s.types.submap_of(s.types));
            }
        },
    }
}

proof fn lemma_unify_tys_sound(
    s: UnifyState,
    srcs: Seq<TyModel<ErasedRegion>>,
    tgts: Seq<TyModel<ErasedRegion>>,
)
    requires
        unify_tys_spec(s, srcs, tgts) is Some,
        forall|i: int| 0 <= i < srcs.len() && i < tgts.len() ==> ty_aligned(#[trigger] srcs[i], tgts[i]),
    ensures
        srcs.len() == tgts.len(),
        extends(s, unify_tys_spec(s, srcs, tgts)->0),
        forall|s3: UnifyState, i: int|
            extends(unify_tys_spec(s, srcs, tgts)->0, s3) && 0 <= i < srcs.len()
                ==> #[trigger] srcs[i].subst(state_subst(s3)) == tgts[i],
    decreases srcs,
{
    if srcs.len() > 0 {
        let r = unify_tys_spec(s, srcs, tgts)->0;
        let s1 = unify_ty_spec(s, srcs[0], tgts[0])->0;
        let rest_s = srcs.subrange(1, srcs.len() as int);
        let rest_t = tgts.subrange(1, tgts.len() as int);
        lemma_unify_ty_sound(s, srcs[0], tgts[0]);
        assert forall|i: int| 0 <= i < rest_s.len() && i < rest_t.len() implies ty_aligned(#[trigger] rest_s[i], rest_t[i]) by {
            assert(rest_s[i] == srcs[i + 1]);
            assert(rest_t[i] == tgts[i + 1]);
        }
        lemma_unify_tys_sound(s1, rest_s, rest_t);
        lemma_extends_trans(s, s1, r);
        assert forall|s3: UnifyState, i: int|
            extends(r, s3) && 0 <= i < srcs.len()
                implies #[trigger] srcs[i].subst(state_subst(s3)) == tgts[i] by {
            if i == 0 {
                lemma_extends_trans(s1, r, s3);
            } else {
                assert(rest_s[i - 1] == srcs[i]);
                assert(rest_t[i - 1] == tgts[i]);
            }
        }
    }
}

/// Soundness of argument unification: once it succeeds, the source
/// arguments with the bindings substituted are the target arguments.
pub proof fn lemma_unify_args_sound(
    s: UnifyState,
    a: GenericArgsModel<ErasedRegion>,
    b: GenericArgsModel<ErasedRegion>,
)
    requires
        unify_args_spec(s, a, b) is Some,
        args_aligned(a, b),
    ensures
        extends(s, unify_args_spec(s, a, b)->0),
        forall|s3: UnifyState|
            extends(unify_args_spec(s, a, b)->0, s3) ==> #[trigger] a.subst(state_subst(s3)) == b,
    decreases a,
{
    let r = unify_args_spec(s, a, b)->0;
    let s1 = if s.ignore_regions {
        s
    } else {
        lemma_unify_regions_extends(s, a.regions, b.regions);
        unify_regions_spec(s, a.regions, b.regions)->0
    };
    lemma_unify_tys_sound(s1, a.types, b.types);
    let s2 = unify_tys_spec(s1, a.types, b.types)->0;
    lemma_unify_cgs_sound(s2, a.const_generics, b.const_generics);
    lemma_erased_regions_equal(a.regions, b.regions);
    lemma_extends_trans(s1, s2, r);
    lemma_extends_trans(s, s1, r);
    assert forall|s3: UnifyState| extends(r, s3) implies #[trigger] a.subst(state_subst(s3)) == b by {
        let m = a.subst(state_subst(s3));
        lemma_extends_trans(s2, r, s3);
        assert(m.regions =~= b.regions);
        assert forall|i: int| 0 <= i < a.types.len() implies m.types[i] == b.types[i] by {
            assert(a.types[i].subst(state_subst(s3)) == b.types[i]);
        }
        assert(m.types =~= b.types);
        assert forall|i: int| 0 <= i < a.const_generics.len() implies m.const_generics[i] == b.const_generics[i] by {
            assert(subst_cg(a.const_generics[i], state_subst(s3).cg) == b.const_generics[i]);
        }
        assert(m.const_generics =~= b.const_generics);
        assert(m.trait_refs =~= b.trait_refs);
    }
}

/// Unification with fixed variables is sound: when it succeeds with
/// bindings `m`, substituting `m` into the source arguments gives the target
/// arguments. It is stated where the parts it does not compare (region list
/// lengths, trait references) already agree.
pub proof fn lemma_unify_args_with_fixed_sound(
    fixed_types: Seq<TypeVarId>,
    fixed_cgs: Seq<ConstGenericVarId>,
    src: GenericArgsModel<ErasedRegion>,
    tgt: GenericArgsModel<ErasedRegion>,
)
    requires
        unify_args_spec(initial_state(fixed_types, fixed_cgs), src, tgt) is Some,
        args_aligned(src, tgt),
    ensures
        src.subst(state_subst(unify_args_spec(initial_state(fixed_types, fixed_cgs), src, tgt)->0))
            == tgt,
{
    let s = initial_state(fixed_types, fixed_cgs);
    lemma_unify_args_sound(s, src, tgt);
    let r = unify_args_spec(s, src, tgt)->0;
    assert(extends(r, r));
}

/// `v` occurs in `t` at a position that unification compares: the types of
/// the arguments of an ADT or trait type, the pointee of a reference or raw
/// pointer, the inputs and output of a function type, and inside the trait
/// reference of a trait type.
pub open spec fn ty_reaches_var(t: TyModel<ErasedRegion>, v: TypeVarId) -> bool
    decreases t,
{
    match t {
        TyModel::TypeVar(w) => w == v,
        TyModel::Adt(_, a) => exists|i: int| 0 <= i < a.types.len() && ty_reaches_var(#[trigger] a.types[i], v),
        TyModel::TraitType(tr, a, _) => trait_ref_reaches_var(tr, v) || exists|i: int|
            0 <= i < a.types.len() && ty_reaches_var(#[trigger] a.types[i], v),
        TyModel::Ref(_, inner, _) => ty_reaches_var(*inner, v),
        TyModel::RawPtr(inner, _) => ty_reaches_var(*inner, v),
        TyModel::Arrow(ins, out) => (exists|i: int| 0 <= i < ins.len() && ty_reaches_var(#[trigger] ins[i], v))
            || ty_reaches_var(*out, v),
        _ => false,
    }
}

pub open spec fn trait_ref_reaches_var(tr: TraitRefModel<ErasedRegion>, v: TypeVarId) -> bool
    decreases tr,
{
    ||| trait_instance_reaches_var(tr.trait_id, v)
    ||| exists|i: int|
        0 <= i < tr.generics.types.len() && ty_reaches_var(#[trigger] tr.generics.types[i], v)
    ||| exists|i: int|
        0 <= i < tr.trait_decl_ref.generics.types.len() && ty_reaches_var(
            #[trigger] tr.trait_decl_ref.generics.types[i],
            v,
        )
}

pub open spec fn trait_instance_reaches_var(id: TraitInstanceModel<ErasedRegion>, v: TypeVarId) -> bool
    decreases id,
{
    match id {
        TraitInstanceModel::ParentClause(b, _, _) => trait_instance_reaches_var(*b, v),
        TraitInstanceModel::ItemClause(b, _, _, _) => trait_instance_reaches_var(*b, v),
        TraitInstanceModel::FnPointer(t) => ty_reaches_var(*t, v),
        TraitInstanceModel::Unsolved(_, a) => exists|i: int|
            0 <= i < a.types.len() && ty_reaches_var(#[trigger] a.types[i], v),
        _ => false,
    }
}

proof fn lemma_unify_ty_extends(s: UnifyState, src: TyModel<ErasedRegion>, tgt: TyModel<ErasedRegion>)
    requires
        unify_ty_spec(s, src, tgt) is Some,
    ensures
        extends(s, unify_ty_spec(s, src, tgt)->0),
    decreases src,
{
    let r = unify_ty_spec(s, src, tgt)->0;
    match src {
        TyModel::Adt(_, a) => lemma_unify_args_extends(s, a, tgt->Adt_1),
        TyModel::TraitType(tr, a, _) => {
            lemma_unify_trait_ref_extends(s, tr, tgt->TraitType_0);
            let s1 = unify_trait_ref_spec(s, tr, tgt->TraitType_0)->0;
            lemma_unify_args_extends(s1, a, tgt->TraitType_1);
            lemma_extends_trans(s, s1, r);
        },
        TyModel::Ref(r1, t, _) => {
            let s1 = if s.ignore_regions {
                s
            } else {
                lemma_unify_region_extends(s, r1, tgt->Ref_0);
                unify_region_spec(s, r1, tgt->Ref_0)->0
            };
            lemma_unify_ty_extends(s1, *t, *tgt->Ref_1);
            lemma_extends_trans(s, s1, r);
        },
        TyModel::RawPtr(t, _) => lemma_unify_ty_extends(s, *t, *tgt->RawPtr_0),
        TyModel::Arrow(ins, out) => {
            lemma_unify_tys_extends(s, ins, tgt->Arrow_0);
            let s1 = unify_tys_spec(s, ins, tgt->Arrow_0)->0;
            lemma_unify_ty_extends(s1, *out, *tgt->Arrow_1);
            lemma_extends_trans(s, s1, r);
        },
        _ => {},
    }
}

proof fn lemma_unify_trait_ref_extends(
    s: UnifyState,
    src: TraitRefModel<ErasedRegion>,
    tgt: TraitRefModel<ErasedRegion>,
)
    requires
        unify_trait_ref_spec(s, src, tgt) is Some,
    ensures
        extends(s, unify_trait_ref_spec(s, src, tgt)->0),
    decreases src,
{
    let r = unify_trait_ref_spec(s, src, tgt)->0;
    lemma_unify_trait_instance_extends(s, src.trait_id, tgt.trait_id);
    let s1 = unify_trait_instance_spec(s, src.trait_id, tgt.trait_id)->0;
    lemma_unify_args_extends(s1, src.generics, tgt.generics);
    let s2 = unify_args_spec(s1, src.generics, tgt.generics)->0;
    lemma_unify_args_extends(s2, src.trait_decl_ref.generics, tgt.trait_decl_ref.generics);
    lemma_extends_trans(s1, s2, r);
    lemma_extends_trans(s, s1, r);
}

proof fn lemma_unify_trait_instance_extends(
    s: UnifyState,
    src: TraitInstanceModel<ErasedRegion>,
    tgt: TraitInstanceModel<ErasedRegion>,
)
    requires
        unify_trait_instance_spec(s, src, tgt) is Some,
    ensures
        extends(s, unify_trait_instance_spec(s, src, tgt)->0),
    decreases src,
{
    match src {
        TraitInstanceModel::ParentClause(b, _, _) => lemma_unify_trait_instance_extends(s, *b, *tgt->ParentClause_0),
        TraitInstanceModel::ItemClause(b, _, _, _) => lemma_unify_trait_instance_extends(s, *b, *tgt->ItemClause_0),
        TraitInstanceModel::FnPointer(t) => lemma_unify_ty_extends(s, *t, *tgt->FnPointer_0),
        TraitInstanceModel::Unsolved(_, a) => lemma_unify_args_extends(s, a, tgt->Unsolved_1),
        _ => {
            assert(s.types.submap_of(s.types));
        },
    }
}

proof fn lemma_unify_tys_extends(s: UnifyState, srcs: Seq<TyModel<ErasedRegion>>, tgts: Seq<TyModel<ErasedRegion>>)
    requires
        unify_tys_spec(s, srcs, tgts) is Some,
    ensures
        extends(s, unify_tys_spec(s, srcs, tgts)->0),
    decreases srcs,
{
    if srcs.len() > 0 {
        let s1 = unify_ty_spec(s, srcs[0], tgts[0])->0;
        lemma_unify_ty_extends(s, srcs[0], tgts[0]);
        lemma_unify_tys_extends(s1, srcs.subrange(1, srcs.len() as int), tgts.subrange(1, tgts.len() as int));
        lemma_extends_trans(s, s1, unify_tys_spec(s, srcs, tgts)->0);
    }
}

proof fn lemma_unify_args_extends(s: UnifyState, a: GenericArgsModel<ErasedRegion>, b: GenericArgsModel<ErasedRegion>)
    requires
        unify_args_spec(s, a, b) is Some,
    ensures
        extends(s, unify_args_spec(s, a, b)->0),
    decreases a,
{
    let s1 = if s.ignore_regions {
        s
    } else {
        lemma_unify_regions_extends(s, a.regions, b.regions);
        unify_regions_spec(s, a.regions, b.regions)->0
    };
    lemma_unify_tys_extends(s1, a.types, b.types);
    let s2 = unify_tys_spec(s1, a.types, b.types)->0;
    lemma_unify_cgs_sound(s2, a.const_generics, b.const_generics);
    lemma_extends_trans(s1, s2, unify_args_spec(s, a, b)->0);
    lemma_extends_trans(s, s1, unify_args_spec(s, a, b)->0);
}

/// A variable already bound when unification starts cannot occur at a
/// compared position of a source that unifies.
proof fn lemma_unify_ty_rigid(s: UnifyState, src: TyModel<ErasedRegion>, tgt: TyModel<ErasedRegion>, v: TypeVarId)
    requires
        unify_ty_spec(s, src, tgt) is Some,
        ty_reaches_var(src, v),
    ensures
        !s.types.contains_key(v),
    decreases src,
{
    match src {
        TyModel::Adt(_, a) => lemma_unify_args_rigid(s, a, tgt->Adt_1, v),
        TyModel::TraitType(tr, a, _) => {
            if trait_ref_reaches_var(tr, v) {
                lemma_unify_trait_ref_rigid(s, tr, tgt->TraitType_0, v);
            } else {
                lemma_unify_trait_ref_extends(s, tr, tgt->TraitType_0);
                let s1 = unify_trait_ref_spec(s, tr, tgt->TraitType_0)->0;
                lemma_unify_args_rigid(s1, a, tgt->TraitType_1, v);
            }
        },
        TyModel::Ref(r1, t, _) => {
            let s1 = if s.ignore_regions {
                s
            } else {
                lemma_unify_region_extends(s, r1, tgt->Ref_0);
                unify_region_spec(s, r1, tgt->Ref_0)->0
            };
            lemma_unify_ty_rigid(s1, *t, *tgt->Ref_1, v);
        },
        TyModel::RawPtr(t, _) => lemma_unify_ty_rigid(s, *t, *tgt->RawPtr_0, v),
        TyModel::Arrow(ins, out) => {
            if exists|i: int| 0 <= i < ins.len() && ty_reaches_var(#[trigger] ins[i], v) {
                lemma_unify_tys_rigid(s, ins, tgt->Arrow_0, v);
            } else {
                lemma_unify_tys_extends(s, ins, tgt->Arrow_0);
                let s1 = unify_tys_spec(s, ins, tgt->Arrow_0)->0;
                lemma_unify_ty_rigid(s1, *out, *tgt->Arrow_1, v);
            }
        },
        _ => {},
    }
}

proof fn lemma_unify_trait_ref_rigid(
    s: UnifyState,
    src: TraitRefModel<ErasedRegion>,
    tgt: TraitRefModel<ErasedRegion>,
    v: TypeVarId,
)
    requires
        unify_trait_ref_spec(s, src, tgt) is Some,
        trait_ref_reaches_var(src, v),
    ensures
        !s.types.contains_key(v),
    decreases src,
{
    let s1 = unify_trait_instance_spec(s, src.trait_id, tgt.trait_id)->0;
    lemma_unify_trait_instance_extends(s, src.trait_id, tgt.trait_id);
    let s2 = unify_args_spec(s1, src.generics, tgt.generics)->0;
    lemma_unify_args_extends(s1, src.generics, tgt.generics);
    if trait_instance_reaches_var(src.trait_id, v) {
        lemma_unify_trait_instance_rigid(s, src.trait_id, tgt.trait_id, v);
    } else if exists|i: int|
        0 <= i < src.generics.types.len() && ty_reaches_var(#[trigger] src.generics.types[i], v) {
        lemma_unify_args_rigid(s1, src.generics, tgt.generics, v);
    } else {
        lemma_unify_args_rigid(s2, src.trait_decl_ref.generics, tgt.trait_decl_ref.generics, v);
        lemma_extends_trans(s, s1, s2);
    }
}

proof fn lemma_unify_trait_instance_rigid(
    s: UnifyState,
    src: TraitInstanceModel<ErasedRegion>,
    tgt: TraitInstanceModel<ErasedRegion>,
    v: TypeVarId,
)
    requires
        unify_trait_instance_spec(s, src, tgt) is Some,
        trait_instance_reaches_var(src, v),
    ensures
        !s.types.contains_key(v),
    decreases src,
{
    match src {
        TraitInstanceModel::ParentClause(b, _, _) => lemma_unify_trait_instance_rigid(s, *b, *tgt->ParentClause_0, v),
        TraitInstanceModel::ItemClause(b, _, _, _) => lemma_unify_trait_instance_rigid(s, *b, *tgt->ItemClause_0, v),
        TraitInstanceModel::FnPointer(t) => lemma_unify_ty_rigid(s, *t, *tgt->FnPointer_0, v),
        TraitInstanceModel::Unsolved(_, a) => lemma_unify_args_rigid(s, a, tgt->Unsolved_1, v),
        _ => {},
    }
}

proof fn lemma_unify_tys_rigid(
    s: UnifyState,
    srcs: Seq<TyModel<ErasedRegion>>,
    tgts: Seq<TyModel<ErasedRegion>>,
    v: TypeVarId,
)
    requires
        unify_tys_spec(s, srcs, tgts) is Some,
        exists|i: int| 0 <= i < srcs.len() && ty_reaches_var(#[trigger] srcs[i], v),
    ensures
        !s.types.contains_key(v),
    decreases srcs,
{
    let i = choose|i: int| 0 <= i < srcs.len() && ty_reaches_var(#[trigger] srcs[i], v);
    let s1 = unify_ty_spec(s, srcs[0], tgts[0])->0;
    if i == 0 {
        lemma_unify_ty_rigid(s, srcs[0], tgts[0], v);
    } else {
        let rest_s = srcs.subrange(1, srcs.len() as int);
        let rest_t = tgts.subrange(1, tgts.len() as int);
        assert(rest_s[i - 1] == srcs[i]);
        lemma_unify_tys_rigid(s1, rest_s, rest_t, v);
        lemma_unify_ty_extends(s, srcs[0], tgts[0]);
    }
}

proof fn lemma_unify_args_rigid(
    s: UnifyState,
    a: GenericArgsModel<ErasedRegion>,
    b: GenericArgsModel<ErasedRegion>,
    v: TypeVarId,
)
    requires
        unify_args_spec(s, a, b) is Some,
        exists|i: int| 0 <= i < a.types.len() && ty_reaches_var(#[trigger] a.types[i], v),
    ensures
        !s.types.contains_key(v),
    decreases a,
{
    let s1 = if s.ignore_regions {
        s
    } else {
        lemma_unify_regions_extends(s, a.regions, b.regions);
        unify_regions_spec(s, a.regions, b.regions)->0
    };
    lemma_unify_tys_rigid(s1, a.types, b.types, v);
}

/// A fixed type variable is rigid: a source in which it occurs at any
/// position that unification compares (a type argument, however deeply
/// nested in argument types, pointees, function inputs and outputs) does
/// not unify, whatever the target.
pub proof fn lemma_fixed_type_var_rigid(
    fixed_types: Seq<TypeVarId>,
    fixed_cgs: Seq<ConstGenericVarId>,
    v: TypeVarId,
    src: GenericArgsModel<ErasedRegion>,
    tgt: GenericArgsModel<ErasedRegion>,
)
    requires
        fixed_types.contains(v),
        exists|i: int| 0 <= i < src.types.len() && ty_reaches_var(#[trigger] src.types[i], v),
    ensures
        unify_args_spec(initial_state(fixed_types, fixed_cgs), src, tgt) is None,
{
    let s = initial_state(fixed_types, fixed_cgs);
    assert(s.types.contains_key(v));
    if unify_args_spec(s, src, tgt) is Some {
        lemma_unify_args_rigid(s, src, tgt, v);
    }
}

/// Conditions met by a tree without type or const generic variables.
pub open spec fn ground_preds() -> VarPreds<ErasedRegion> {
    VarPreds {
        region: |r: ErasedRegion| true,
        ty: |v: TypeVarId| false,
        cg: |c: ConstGenericVarId| false,
    }
}

/// A ground type unifies with itself, binding nothing, when regions are
/// ignored.
pub proof fn lemma_unify_ty_refl(s: UnifyState, t: TyModel<ErasedRegion>)
    requires
        s.ignore_regions,
        t.vars_ok(ground_preds()),
    ensures
        unify_ty_spec(s, t, t) == Some(s),
    decreases t,
{
    match t {
        TyModel::Adt(_, a) => lemma_unify_args_refl(s, a),
        TyModel::Ref(_, inner, _) => lemma_unify_ty_refl(s, *inner),
        TyModel::RawPtr(inner, _) => lemma_unify_ty_refl(s, *inner),
        TyModel::TraitType(tr, a, _) => {
            lemma_unify_trait_ref_refl(s, tr);
            lemma_unify_args_refl(s, a);
        },
        TyModel::Arrow(ins, out) => {
            lemma_unify_tys_refl(s, ins);
            lemma_unify_ty_refl(s, *out);
        },
        _ => {},
    }
}

proof fn lemma_unify_tys_refl(s: UnifyState, ts: Seq<TyModel<ErasedRegion>>)
    requires
        s.ignore_regions,
        forall|i: int| 0 <= i < ts.len() ==> (#[trigger] ts[i]).vars_ok(ground_preds()),
    ensures
        unify_tys_spec(s, ts, ts) == Some(s),
    decreases ts,
{
    if ts.len() > 0 {
        lemma_unify_ty_refl(s, ts[0]);
        let rest = ts.subrange(1, ts.len() as int);
        assert forall|i: int| 0 <= i < rest.len() implies (#[trigger] rest[i]).vars_ok(ground_preds()) by {
            assert(rest[i] == ts[i + 1]);
        }
        lemma_unify_tys_refl(s, rest);
    }
}

proof fn lemma_unify_cgs_refl(s: UnifyState, cs: Seq<ConstGeneric>)
    requires
        forall|i: int| 0 <= i < cs.len() ==> cg_vars_ok(#[trigger] cs[i], ground_preds().cg),
    ensures
        unify_cgs_spec(s, cs, cs) == Some(s),
    decreases cs.len(),
{
    if cs.len() > 0 {
        assert(cg_vars_ok(cs[0], ground_preds().cg));
        let rest = cs.subrange(1, cs.len() as int);
        assert forall|i: int| 0 <= i < rest.len() implies cg_vars_ok(#[trigger] rest[i], ground_preds().cg) by {
            assert(rest[i] == cs[i + 1]);
        }
        lemma_unify_cgs_refl(s, rest);
    }
}

/// Ground generic arguments unify with themselves, binding nothing, when
/// regions are ignored.
pub proof fn lemma_unify_args_refl(s: UnifyState, a: GenericArgsModel<ErasedRegion>)
    requires
        s.ignore_regions,
        a.vars_ok(ground_preds()),
    ensures
        unify_args_spec(s, a, a) == Some(s),
    decreases a,
{
    lemma_unify_tys_refl(s, a.types);
    lemma_unify_cgs_refl(s, a.const_generics);
}

proof fn lemma_unify_trait_ref_refl(s: UnifyState, tr: TraitRefModel<ErasedRegion>)
    requires
        s.ignore_regions,
        tr.vars_ok(ground_preds()),
    ensures
        unify_trait_ref_spec(s, tr, tr) == Some(s),
    decreases tr,
{
    lemma_unify_trait_instance_refl(s, tr.trait_id);
    lemma_unify_args_refl(s, tr.generics);
    lemma_unify_args_refl(s, tr.trait_decl_ref.generics);
}

proof fn lemma_unify_trait_instance_refl(s: UnifyState, id: TraitInstanceModel<ErasedRegion>)
    requires
        s.ignore_regions,
        id.vars_ok(ground_preds()),
    ensures
        unify_trait_instance_spec(s, id, id) == Some(s),
    decreases id,
{
    match id {
        TraitInstanceModel::ParentClause(b, _, _) => lemma_unify_trait_instance_refl(s, *b),
        TraitInstanceModel::ItemClause(b, _, _, _) => lemma_unify_trait_instance_refl(s, *b),
        TraitInstanceModel::FnPointer(t) => lemma_unify_ty_refl(s, *t),
        TraitInstanceModel::Unsolved(_, a) => lemma_unify_args_refl(s, a),
        _ => {},
    }
}

/// Ground arguments unify with themselves under any fixed variables, and the
/// bindings found are those the fixed variables start with.
pub proof fn lemma_ground_args_unify_with_themselves(
    fixed_types: Seq<TypeVarId>,
    fixed_cgs: Seq<ConstGenericVarId>,
    a: GenericArgsModel<ErasedRegion>,
)
    requires
        a.vars_ok(ground_preds()),
    ensures
        unify_args_spec(initial_state(fixed_types, fixed_cgs), a, a) == Some(
            initial_state(fixed_types, fixed_cgs),
        ),
{
    lemma_unify_args_refl(initial_state(fixed_types, fixed_cgs), a);
}

/// Argument lists whose type lists differ in length never unify when
/// regions are ignored.
pub proof fn lemma_arity_mismatch_fails(
    s: UnifyState,
    src: GenericArgsModel<ErasedRegion>,
    tgt: GenericArgsModel<ErasedRegion>,
)
    requires
        s.ignore_regions,
        src.types.len() != tgt.types.len(),
    ensures
        unify_args_spec(s, src, tgt) is None,
{
}

} // verus!
