//! Substitution on the mathematical models of types.
use vstd::prelude::*;

use crate::ids::{ConstGenericVarId, TypeVarId};
use crate::types::{
    ConstGeneric, ErasedRegion, GenericArgsModel, TraitDeclRefModel, TraitInstanceModel, TraitRefModel, TyModel,
};

verus! {

/// A substitution: what to put in place of each region, type variable and
/// const generic variable.
#[verifier::reject_recursive_types(R1)]
pub struct SubstFns<R1, R2> {
    pub region: spec_fn(R1) -> R2,
    pub ty: spec_fn(TypeVarId) -> TyModel<R2>,
    pub cg: spec_fn(ConstGenericVarId) -> ConstGeneric,
}

/// Conditions on the variables of a tree: which regions, type variables and
/// const generic variables may occur in it.
#[verifier::reject_recursive_types(R)]
pub struct VarPreds<R> {
    pub region: spec_fn(R) -> bool,
    pub ty: spec_fn(TypeVarId) -> bool,
    pub cg: spec_fn(ConstGenericVarId) -> bool,
}

/// The substitution that leaves every variable in place.
pub open spec fn identity_subst<R>() -> SubstFns<R, R> {
    SubstFns {
        region: |r: R| r,
        ty: |v: TypeVarId| TyModel::TypeVar(v),
        cg: |c: ConstGenericVarId| ConstGeneric::Var(c),
    }
}

pub open spec fn subst_cg(c: ConstGeneric, f: spec_fn(ConstGenericVarId) -> ConstGeneric) -> ConstGeneric {
    match c {
        ConstGeneric::Var(v) => f(v),
        _ => c,
    }
}

pub open spec fn cg_vars_ok(c: ConstGeneric, p: spec_fn(ConstGenericVarId) -> bool) -> bool {
    match c {
        ConstGeneric::Var(v) => p(v),
        _ => true,
    }
}

impl<R> TyModel<R> {
    pub open spec fn subst<R2>(self, s: SubstFns<R, R2>) -> TyModel<R2>
        decreases self,
    {
        match self {
            TyModel::Adt(id, args) => TyModel::Adt(id, args.subst(s)),
            TyModel::TypeVar(v) => (s.ty)(v),
            TyModel::Literal(l) => TyModel::Literal(l),
            TyModel::Never => TyModel::Never,
            TyModel::Ref(r, t, k) => TyModel::Ref((s.region)(r), Box::new(t.subst(s)), k),
            TyModel::RawPtr(t, k) => TyModel::RawPtr(Box::new(t.subst(s)), k),
            TyModel::TraitType(tr, args, name) => TyModel::TraitType(
                tr.subst(s),
                args.subst(s),
                name,
            ),
            TyModel::Arrow(ins, out) => TyModel::Arrow(
                Seq::new(
                    ins.len(),
                    |i: int|
                        if 0 <= i < ins.len() {
                            ins[i].subst(s)
                        } else {
                            TyModel::Never
                        },
                ),
                Box::new(out.subst(s)),
            ),
        }
    }

    /// Every variable of the tree, trait references included, meets `p`.
    pub open spec fn vars_ok(self, p: VarPreds<R>) -> bool
        decreases self,
    {
        match self {
            TyModel::Adt(_, args) => args.vars_ok(p),
            TyModel::TypeVar(v) => (p.ty)(v),
            TyModel::Literal(_) | TyModel::Never => true,
            TyModel::Ref(r, t, _) => (p.region)(r) && t.vars_ok(p),
            TyModel::RawPtr(t, _) => t.vars_ok(p),
            TyModel::TraitType(tr, args, _) => tr.vars_ok(p) && args.vars_ok(p),
            TyModel::Arrow(ins, out) => (forall|i: int|
                0 <= i < ins.len() ==> (#[trigger] ins[i]).vars_ok(p)) && out.vars_ok(p),
        }
    }
}

impl<R> GenericArgsModel<R> {
    pub open spec fn subst<R2>(self, s: SubstFns<R, R2>) -> GenericArgsModel<R2>
        decreases self,
    {
        GenericArgsModel {
            regions: self.regions.map_values(s.region),
            types: Seq::new(
                self.types.len(),
                |i: int|
                    if 0 <= i < self.types.len() {
                        self.types[i].subst(s)
                    } else {
                        TyModel::Never
                    },
            ),
            const_generics: self.const_generics.map_values(|c: ConstGeneric| subst_cg(c, s.cg)),
            trait_refs: Seq::new(
                self.trait_refs.len(),
                |i: int|
                    if 0 <= i < self.trait_refs.len() {
                        self.trait_refs[i].subst(s)
                    } else {
                        arbitrary()
                    },
            ),
        }
    }

    pub open spec fn vars_ok(self, p: VarPreds<R>) -> bool
        decreases self,
    {
        &&& forall|i: int| 0 <= i < self.regions.len() ==> (p.region)(#[trigger] self.regions[i])
        &&& forall|i: int| 0 <= i < self.types.len() ==> (#[trigger] self.types[i]).vars_ok(p)
        &&& forall|i: int|
            0 <= i < self.const_generics.len() ==> cg_vars_ok(#[trigger] self.const_generics[i], p.cg)
        &&& forall|i: int| 0 <= i < self.trait_refs.len() ==> (#[trigger] self.trait_refs[i]).vars_ok(p)
    }
}

impl<R> TraitRefModel<R> {
    pub open spec fn subst<R2>(self, s: SubstFns<R, R2>) -> TraitRefModel<R2>
        decreases self,
    {
        TraitRefModel {
            trait_id: self.trait_id.subst(s),
            generics: self.generics.subst(s),
            trait_decl_ref: self.trait_decl_ref.subst(s),
        }
    }

    pub open spec fn vars_ok(self, p: VarPreds<R>) -> bool
        decreases self,
    {
        self.trait_id.vars_ok(p) && self.generics.vars_ok(p) && self.trait_decl_ref.vars_ok(p)
    }
}

impl<R> TraitDeclRefModel<R> {
    pub open spec fn subst<R2>(self, s: SubstFns<R, R2>) -> TraitDeclRefModel<R2>
        decreases self,
    {
        TraitDeclRefModel { trait_id: self.trait_id, generics: self.generics.subst(s) }
    }

    pub open spec fn vars_ok(self, p: VarPreds<R>) -> bool
        decreases self,
    {
        self.generics.vars_ok(p)
    }
}

impl<R> TraitInstanceModel<R> {
    pub open spec fn subst<R2>(self, s: SubstFns<R, R2>) -> TraitInstanceModel<R2>
        decreases self,
    {
        match self {
            TraitInstanceModel::SelfId => TraitInstanceModel::SelfId,
            TraitInstanceModel::TraitImpl(id) => TraitInstanceModel::TraitImpl(id),
            TraitInstanceModel::BuiltinOrAuto(id) => TraitInstanceModel::BuiltinOrAuto(id),
            TraitInstanceModel::Clause(id) => TraitInstanceModel::Clause(id),
            TraitInstanceModel::ParentClause(base, d, c) => TraitInstanceModel::ParentClause(
                Box::new(base.subst(s)),
                d,
                c,
            ),
            TraitInstanceModel::ItemClause(base, d, name, c) => TraitInstanceModel::ItemClause(
                Box::new(base.subst(s)),
                d,
                name,
                c,
            ),
            TraitInstanceModel::FnPointer(t) => TraitInstanceModel::FnPointer(Box::new(t.subst(s))),
            TraitInstanceModel::Unsolved(d, args) => TraitInstanceModel::Unsolved(d, args.subst(s)),
            TraitInstanceModel::Unknown(msg) => TraitInstanceModel::Unknown(msg),
        }
    }

    pub open spec fn vars_ok(self, p: VarPreds<R>) -> bool
        decreases self,
    {
        match self {
            TraitInstanceModel::ParentClause(base, _, _) => base.vars_ok(p),
            TraitInstanceModel::ItemClause(base, _, _, _) => base.vars_ok(p),
            TraitInstanceModel::FnPointer(t) => t.vars_ok(p),
            TraitInstanceModel::Unsolved(_, args) => args.vars_ok(p),
            _ => true,
        }
    }
}

/// The substitution that erases every region and leaves variables in place.
pub open spec fn erase_subst<R>() -> SubstFns<R, ErasedRegion> {
    SubstFns {
        region: |r: R| ErasedRegion::Erased,
        ty: |v: TypeVarId| TyModel::TypeVar(v),
        cg: |c: ConstGenericVarId| ConstGeneric::Var(c),
    }
}

/// Conditions that every variable meets.
pub open spec fn all_hold<R>(p: VarPreds<R>) -> bool {
    &&& forall|x: R| #[trigger] (p.region)(x)
    &&& forall|v: TypeVarId| #[trigger] (p.ty)(v)
    &&& forall|c: ConstGenericVarId| #[trigger] (p.cg)(c)
}

/// Substituting every variable by itself gives the type back.
pub proof fn lemma_ty_subst_identity<R>(t: TyModel<R>)
    ensures
        t.subst(identity_subst()) == t,
    decreases t,
{
    match t {
        TyModel::Adt(_, args) => lemma_args_subst_identity(args),
        TyModel::Ref(_, b, _) => lemma_ty_subst_identity(*b),
        TyModel::RawPtr(b, _) => lemma_ty_subst_identity(*b),
        TyModel::TraitType(tr, args, _) => {
            lemma_trait_ref_subst_identity(tr);
            lemma_args_subst_identity(args);
        },
        TyModel::Arrow(ins, out) => {
            assert forall|i: int| 0 <= i < ins.len() implies (#[trigger] ins[i]).subst(identity_subst()) == ins[i] by {
                lemma_ty_subst_identity(ins[i]);
            }
            lemma_ty_subst_identity(*out);
            assert(t.subst(identity_subst())->Arrow_0 =~= ins);
        },
        _ => {},
    }
}

/// Substituting every variable by itself gives the arguments back.
pub proof fn lemma_args_subst_identity<R>(a: GenericArgsModel<R>)
    ensures
        a.subst(identity_subst()) == a,
    decreases a,
{
    let r = a.subst(identity_subst());
    assert forall|i: int| 0 <= i < a.types.len() implies (#[trigger] a.types[i]).subst(identity_subst()) == a.types[i] by {
        lemma_ty_subst_identity(a.types[i]);
    }
    assert forall|i: int| 0 <= i < a.trait_refs.len() implies (#[trigger] a.trait_refs[i]).subst(identity_subst()) == a.trait_refs[i] by {
        lemma_trait_ref_subst_identity(a.trait_refs[i]);
    }
    assert(r.regions =~= a.regions);
    assert(r.types =~= a.types);
    assert(r.const_generics =~= a.const_generics);
    assert(r.trait_refs =~= a.trait_refs);
}

/// Substituting every variable by itself gives the trait reference back.
pub proof fn lemma_trait_ref_subst_identity<R>(tr: TraitRefModel<R>)
    ensures
        tr.subst(identity_subst()) == tr,
    decreases tr,
{
    lemma_trait_instance_subst_identity(tr.trait_id);
    lemma_args_subst_identity(tr.generics);
    lemma_args_subst_identity(tr.trait_decl_ref.generics);
}

/// Substituting every variable by itself gives the trait instance back.
pub proof fn lemma_trait_instance_subst_identity<R>(id: TraitInstanceModel<R>)
    ensures
        id.subst(identity_subst()) == id,
    decreases id,
{
    match id {
        TraitInstanceModel::ParentClause(b, _, _) => lemma_trait_instance_subst_identity(*b),
        TraitInstanceModel::ItemClause(b, _, _, _) => lemma_trait_instance_subst_identity(*b),
        TraitInstanceModel::FnPointer(t) => lemma_ty_subst_identity(*t),
        TraitInstanceModel::Unsolved(_, args) => lemma_args_subst_identity(args),
        _ => {},
    }
}

/// The substitution doing `s1`, then `s2` on what `s1` put in place.
pub open spec fn compose_subst<R1, R2, R3>(s1: SubstFns<R1, R2>, s2: SubstFns<R2, R3>) -> SubstFns<R1, R3> {
    SubstFns {
        region: |r: R1| (s2.region)((s1.region)(r)),
        ty: |v: TypeVarId| (s1.ty)(v).subst(s2),
        cg: |c: ConstGenericVarId| subst_cg((s1.cg)(c), s2.cg),
    }
}

/// Substituting `s1` and then `s2` is substituting their composition.
pub proof fn lemma_ty_subst_compose<R1, R2, R3>(
    t: TyModel<R1>,
    s1: SubstFns<R1, R2>,
    s2: SubstFns<R2, R3>,
)
    ensures
        t.subst(s1).subst(s2) == t.subst(compose_subst(s1, s2)),
    decreases t,
{
    match t {
        TyModel::Adt(_, args) => lemma_args_subst_compose(args, s1, s2),
        TyModel::Ref(_, b, _) => lemma_ty_subst_compose(*b, s1, s2),
        TyModel::RawPtr(b, _) => lemma_ty_subst_compose(*b, s1, s2),
        TyModel::TraitType(tr, args, _) => {
            lemma_trait_ref_subst_compose(tr, s1, s2);
            lemma_args_subst_compose(args, s1, s2);
        },
        TyModel::Arrow(ins, out) => {
            assert forall|i: int| 0 <= i < ins.len() implies (#[trigger] ins[i]).subst(s1).subst(s2) == ins[i].subst(compose_subst(s1, s2)) by {
                lemma_ty_subst_compose(ins[i], s1, s2);
            }
            lemma_ty_subst_compose(*out, s1, s2);
            assert(t.subst(s1).subst(s2)->Arrow_0 =~= t.subst(compose_subst(s1, s2))->Arrow_0);
        },
        _ => {},
    }
}

pub proof fn lemma_args_subst_compose<R1, R2, R3>(
    a: GenericArgsModel<R1>,
    s1: SubstFns<R1, R2>,
    s2: SubstFns<R2, R3>,
)
    ensures
        a.subst(s1).subst(s2) == a.subst(compose_subst(s1, s2)),
    decreases a,
{
    let r = a.subst(s1).subst(s2);
    let q = a.subst(compose_subst(s1, s2));
    assert forall|i: int| 0 <= i < a.types.len() implies (#[trigger] a.types[i]).subst(s1).subst(s2) == a.types[i].subst(compose_subst(s1, s2)) by {
        lemma_ty_subst_compose(a.types[i], s1, s2);
    }
    assert forall|i: int| 0 <= i < a.trait_refs.len() implies (#[trigger] a.trait_refs[i]).subst(s1).subst(s2) == a.trait_refs[i].subst(compose_subst(s1, s2)) by {
        lemma_trait_ref_subst_compose(a.trait_refs[i], s1, s2);
    }
    assert forall|i: int| 0 <= i < a.const_generics.len() implies r.const_generics[i] == q.const_generics[i] by {
        match a.const_generics[i] {
            ConstGeneric::Var(v) => {},
            _ => {},
        }
    }
    assert(r.regions =~= q.regions);
    assert(r.types =~= q.types);
    assert(r.const_generics =~= q.const_generics);
    assert(r.trait_refs =~= q.trait_refs);
}

pub proof fn lemma_trait_ref_subst_compose<R1, R2, R3>(
    tr: TraitRefModel<R1>,
    s1: SubstFns<R1, R2>,
    s2: SubstFns<R2, R3>,
)
    ensures
        tr.subst(s1).subst(s2) == tr.subst(compose_subst(s1, s2)),
    decreases tr,
{
    lemma_trait_instance_subst_compose(tr.trait_id, s1, s2);
    lemma_args_subst_compose(tr.generics, s1, s2);
    lemma_args_subst_compose(tr.trait_decl_ref.generics, s1, s2);
}

pub proof fn lemma_trait_instance_subst_compose<R1, R2, R3>(
    id: TraitInstanceModel<R1>,
    s1: SubstFns<R1, R2>,
    s2: SubstFns<R2, R3>,
)
    ensures
        id.subst(s1).subst(s2) == id.subst(compose_subst(s1, s2)),
    decreases id,
{
    match id {
        TraitInstanceModel::ParentClause(b, _, _) => lemma_trait_instance_subst_compose(*b, s1, s2),
        TraitInstanceModel::ItemClause(b, _, _, _) => lemma_trait_instance_subst_compose(*b, s1, s2),
        TraitInstanceModel::FnPointer(t) => lemma_ty_subst_compose(*t, s1, s2),
        TraitInstanceModel::Unsolved(_, args) => lemma_args_subst_compose(args, s1, s2),
        _ => {},
    }
}

/// Conditions that hold of every variable hold of the variables of a type.
pub proof fn lemma_ty_vars_ok<R>(t: TyModel<R>, p: VarPreds<R>)
    requires
        all_hold(p),
    ensures
        t.vars_ok(p),
    decreases t,
{
    match t {
        TyModel::Adt(_, args) => lemma_args_vars_ok(args, p),
        TyModel::Ref(_, b, _) => lemma_ty_vars_ok(*b, p),
        TyModel::RawPtr(b, _) => lemma_ty_vars_ok(*b, p),
        TyModel::TraitType(tr, args, _) => {
            lemma_trait_ref_vars_ok(tr, p);
            lemma_args_vars_ok(args, p);
        },
        TyModel::Arrow(ins, out) => {
            assert forall|i: int| 0 <= i < ins.len() implies (#[trigger] ins[i]).vars_ok(p) by {
                lemma_ty_vars_ok(ins[i], p);
            }
            lemma_ty_vars_ok(*out, p);
        },
        _ => {},
    }
}

pub proof fn lemma_args_vars_ok<R>(a: GenericArgsModel<R>, p: VarPreds<R>)
    requires
        all_hold(p),
    ensures
        a.vars_ok(p),
    decreases a,
{
    assert forall|i: int| 0 <= i < a.types.len() implies (#[trigger] a.types[i]).vars_ok(p) by {
        lemma_ty_vars_ok(a.types[i], p);
    }
    assert forall|i: int| 0 <= i < a.trait_refs.len() implies (#[trigger] a.trait_refs[i]).vars_ok(p) by {
        lemma_trait_ref_vars_ok(a.trait_refs[i], p);
    }
}

pub proof fn lemma_trait_ref_vars_ok<R>(tr: TraitRefModel<R>, p: VarPreds<R>)
    requires
        all_hold(p),
    ensures
        tr.vars_ok(p),
    decreases tr,
{
    lemma_trait_instance_vars_ok(tr.trait_id, p);
    lemma_args_vars_ok(tr.generics, p);
    lemma_args_vars_ok(tr.trait_decl_ref.generics, p);
}

pub proof fn lemma_trait_instance_vars_ok<R>(id: TraitInstanceModel<R>, p: VarPreds<R>)
    requires
        all_hold(p),
    ensures
        id.vars_ok(p),
    decreases id,
{
    match id {
        TraitInstanceModel::ParentClause(b, _, _) => lemma_trait_instance_vars_ok(*b, p),
        TraitInstanceModel::ItemClause(b, _, _, _) => lemma_trait_instance_vars_ok(*b, p),
        TraitInstanceModel::FnPointer(t) => lemma_ty_vars_ok(*t, p),
        TraitInstanceModel::Unsolved(_, args) => lemma_args_vars_ok(args, p),
        _ => {},
    }
}

/// Every variable that meets `p` meets `q`.
pub open spec fn preds_imply<R>(p: VarPreds<R>, q: VarPreds<R>) -> bool {
    &&& forall|x: R| #[trigger] (p.region)(x) ==> (q.region)(x)
    &&& forall|v: TypeVarId| #[trigger] (p.ty)(v) ==> (q.ty)(v)
    &&& forall|c: ConstGenericVarId| #[trigger] (p.cg)(c) ==> (q.cg)(c)
}

/// Weakening the conditions on the variables keeps them satisfied.
pub proof fn lemma_ty_vars_weaken<R>(t: TyModel<R>, p: VarPreds<R>, q: VarPreds<R>)
    requires
        t.vars_ok(p),
        preds_imply(p, q),
    ensures
        t.vars_ok(q),
    decreases t,
{
    match t {
        TyModel::Adt(_, args) => lemma_args_vars_weaken(args, p, q),
        TyModel::Ref(_, b, _) => lemma_ty_vars_weaken(*b, p, q),
        TyModel::RawPtr(b, _) => lemma_ty_vars_weaken(*b, p, q),
        TyModel::TraitType(tr, args, _) => {
            lemma_trait_ref_vars_weaken(tr, p, q);
            lemma_args_vars_weaken(args, p, q);
        },
        TyModel::Arrow(ins, out) => {
            assert forall|i: int| 0 <= i < ins.len() implies (#[trigger] ins[i]).vars_ok(q) by {
                lemma_ty_vars_weaken(ins[i], p, q);
            }
            lemma_ty_vars_weaken(*out, p, q);
        },
        _ => {},
    }
}

pub proof fn lemma_args_vars_weaken<R>(a: GenericArgsModel<R>, p: VarPreds<R>, q: VarPreds<R>)
    requires
        a.vars_ok(p),
        preds_imply(p, q),
    ensures
        a.vars_ok(q),
    decreases a,
{
    assert forall|i: int| 0 <= i < a.types.len() implies (#[trigger] a.types[i]).vars_ok(q) by {
        lemma_ty_vars_weaken(a.types[i], p, q);
    }
    assert forall|i: int| 0 <= i < a.trait_refs.len() implies (#[trigger] a.trait_refs[i]).vars_ok(q) by {
        lemma_trait_ref_vars_weaken(a.trait_refs[i], p, q);
    }
    assert forall|i: int| 0 <= i < a.const_generics.len() implies cg_vars_ok(#[trigger] a.const_generics[i], q.cg) by {
        assert(cg_vars_ok(a.const_generics[i], p.cg));
    }
}

pub proof fn lemma_trait_ref_vars_weaken<R>(tr: TraitRefModel<R>, p: VarPreds<R>, q: VarPreds<R>)
    requires
        tr.vars_ok(p),
        preds_imply(p, q),
    ensures
        tr.vars_ok(q),
    decreases tr,
{
    lemma_trait_instance_vars_weaken(tr.trait_id, p, q);
    lemma_args_vars_weaken(tr.generics, p, q);
    lemma_args_vars_weaken(tr.trait_decl_ref.generics, p, q);
}

pub proof fn lemma_trait_instance_vars_weaken<R>(id: TraitInstanceModel<R>, p: VarPreds<R>, q: VarPreds<R>)
    requires
        id.vars_ok(p),
        preds_imply(p, q),
    ensures
        id.vars_ok(q),
    decreases id,
{
    match id {
        TraitInstanceModel::ParentClause(b, _, _) => lemma_trait_instance_vars_weaken(*b, p, q),
        TraitInstanceModel::ItemClause(b, _, _, _) => lemma_trait_instance_vars_weaken(*b, p, q),
        TraitInstanceModel::FnPointer(t) => lemma_ty_vars_weaken(*t, p, q),
        TraitInstanceModel::Unsolved(_, args) => lemma_args_vars_weaken(args, p, q),
        _ => {},
    }
}

/// Erasing the regions of a type whose regions are already erased changes
/// nothing: erasure is idempotent.
pub proof fn lemma_erase_regions_idempotent<R>(t: TyModel<R>)
    ensures
        t.subst(erase_subst()).subst(erase_subst()) == t.subst(erase_subst()),
{
    let e = erase_subst::<ErasedRegion>();
    let id = identity_subst::<ErasedRegion>();
    assert(e.region =~= id.region) by {
        assert forall|r: ErasedRegion| #[trigger] (e.region)(r) == (id.region)(r) by {
            match r {
                ErasedRegion::Erased => {},
            }
        }
    }
    assert(e.ty =~= id.ty);
    assert(e.cg =~= id.cg);
    assert(e == id);
    lemma_ty_subst_identity(t.subst(erase_subst()));
}

} // verus!
