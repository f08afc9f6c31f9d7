//! The substitution engine: builds a new tree in which every region, type
//! variable and const generic variable is replaced as the given functions say.
use vstd::prelude::*;

use crate::collections::{
    const_generic_subst_contents, const_generic_subst_get, erased_type_subst_contents,
    erased_type_subst_get, region_subst_contents, region_subst_get, type_subst_contents,
    type_subst_get, const_generic_subst_entries, erased_type_subst_entries, region_subst_entries,
    type_subst_entries, ConstGenericSubst, ErasedTypeSubst, RegionSubst, TypeSubst,
};
use crate::ids::{ConstGenericVarId, RegionVarId, TypeVarId};
use crate::subst_spec::{
    cg_vars_ok, compose_subst, erase_subst, identity_subst, lemma_args_subst_identity,
    lemma_args_vars_ok, lemma_trait_instance_subst_identity, lemma_trait_instance_vars_ok,
    lemma_trait_ref_subst_identity, lemma_trait_ref_vars_ok, lemma_ty_subst_compose,
    lemma_ty_subst_identity, lemma_ty_vars_ok, lemma_ty_vars_weaken, preds_imply, subst_cg,
    SubstFns, VarPreds,
};
use crate::types::{
    ETy, ErasedRegion, RTy, Region, TyModel, lemma_args_view, lemma_arrow_view, ConstGeneric, GenericArgs, TraitDeclRef, TraitInstanceId,
    TraitRef, Ty,
};

verus! {

broadcast use vstd::std_specs::vec::group_vec_axioms;

/// The closures compute the substitution `s` (on every input they accept).
pub open spec fn realizes<R, R2, FR, FT, FC>(s: SubstFns<R, R2>, rsubst: FR, tsubst: FT, cgsubst: FC) -> bool
    where
        FR: Fn(&R) -> R2,
        FT: Fn(&TypeVarId) -> Ty<R2>,
        FC: Fn(&ConstGenericVarId) -> ConstGeneric,
{
    &&& forall|x: R, o: R2| #[trigger] rsubst.ensures((&x,), o) ==> o == (s.region)(x)
    &&& forall|v: TypeVarId, o: Ty<R2>| #[trigger] tsubst.ensures((&v,), o) ==> o@ == (s.ty)(v)
    &&& forall|c: ConstGenericVarId, o: ConstGeneric|
        #[trigger] cgsubst.ensures((&c,), o) ==> o == (s.cg)(c)
}

/// The variables on which the closures may be called.
pub open spec fn callable<R, R2, FR, FT, FC>(rsubst: FR, tsubst: FT, cgsubst: FC) -> VarPreds<R>
    where
        FR: Fn(&R) -> R2,
        FT: Fn(&TypeVarId) -> Ty<R2>,
        FC: Fn(&ConstGenericVarId) -> ConstGeneric,
{
    VarPreds {
        region: |x: R| rsubst.requires((&x,)),
        ty: |v: TypeVarId| tsubst.requires((&v,)),
        cg: |c: ConstGenericVarId| cgsubst.requires((&c,)),
    }
}

impl ConstGenericVarId {
    pub fn substitute<FC>(&self, cgsubst: &FC) -> (r: ConstGeneric)
        where
            FC: Fn(&ConstGenericVarId) -> ConstGeneric,
        requires
            cgsubst.requires((self,)),
        ensures
            cgsubst.ensures((self,), r),
    {
        cgsubst(self)
    }
}

impl RegionVarId {
    /// The region that `rsubst` binds this variable to.
    pub fn substitute(&self, rsubst: &RegionSubst) -> (r: Region)
        requires
            region_subst_contents(*rsubst).contains_key(*self),
        ensures
            r == region_subst_contents(*rsubst)[*self],
    {
        *region_subst_get(rsubst, self).unwrap()
    }
}

impl ConstGeneric {
    pub fn substitute<FC>(&self, cgsubst: &FC) -> (r: ConstGeneric)
        where
            FC: Fn(&ConstGenericVarId) -> ConstGeneric,
        requires
            cg_vars_ok(*self, |c: ConstGenericVarId| cgsubst.requires((&c,))),
        ensures
            match *self {
                ConstGeneric::Var(v) => cgsubst.ensures((&v,), r),
                _ => r == *self,
            },
    {
        match self {
            ConstGeneric::Var(id) => id.substitute(cgsubst),
            ConstGeneric::Value(v) => ConstGeneric::Value(*v),
            ConstGeneric::Global(id) => ConstGeneric::Global(*id),
        }
    }
}

fn substitute_const_generics<FC>(cgs: &Vec<ConstGeneric>, cgsubst: &FC) -> (r: Vec<ConstGeneric>)
    where
        FC: Fn(&ConstGenericVarId) -> ConstGeneric,
    requires
        forall|i: int|
            0 <= i < cgs@.len() ==> cg_vars_ok(
                #[trigger] cgs@[i],
                |c: ConstGenericVarId| cgsubst.requires((&c,)),
            ),
    ensures
        r@.len() == cgs@.len(),
        forall|j: int| 0 <= j < cgs@.len() ==> match #[trigger] cgs@[j] {
            ConstGeneric::Var(v) => cgsubst.ensures((&v,), r@[j]),
            _ => r@[j] == cgs@[j],
        },
{
    let mut out: Vec<ConstGeneric> = Vec::new();
    let mut i: usize = 0;
    while i < cgs.len()
        invariant
            i <= cgs@.len(),
            out@.len() == i,
            forall|j: int| 0 <= j < cgs@.len() ==> cg_vars_ok(
                #[trigger] cgs@[j],
                |c: ConstGenericVarId| cgsubst.requires((&c,)),
            ),
            forall|j: int| 0 <= j < i ==> match #[trigger] cgs@[j] {
                ConstGeneric::Var(v) => cgsubst.ensures((&v,), out@[j]),
                _ => out@[j] == cgs@[j],
            },
        decreases cgs@.len() - i,
    {
        out.push(cgs[i].substitute(cgsubst));
        i += 1;
    }
    out
}

fn substitute_tys<R, R2, FR, FT, FC>(tys: &Vec<Ty<R>>, rsubst: &FR, tsubst: &FT, cgsubst: &FC) -> (r: Vec<Ty<R2>>)
    where
        FR: Fn(&R) -> R2,
        FT: Fn(&TypeVarId) -> Ty<R2>,
        FC: Fn(&ConstGenericVarId) -> ConstGeneric,
    requires
        forall|i: int| 0 <= i < tys@.len() ==> (#[trigger] tys@[i])@.vars_ok(callable(*rsubst, *tsubst, *cgsubst)),
    ensures
        r@.len() == tys@.len(),
        forall|s: SubstFns<R, R2>, i: int|
            #![trigger realizes(s, *rsubst, *tsubst, *cgsubst), tys@[i]]
            realizes(s, *rsubst, *tsubst, *cgsubst) && 0 <= i < tys@.len() ==> r@[i]@ == tys@[i]@.subst(s),
    decreases tys,
{
    let mut out: Vec<Ty<R2>> = Vec::new();
    let mut i: usize = 0;
    while i < tys.len()
        invariant
            i <= tys@.len(),
            out@.len() == i,
            forall|j: int| 0 <= j < tys@.len() ==> (#[trigger] tys@[j])@.vars_ok(callable(*rsubst, *tsubst, *cgsubst)),
            forall|s: SubstFns<R, R2>, j: int|
                #![trigger realizes(s, *rsubst, *tsubst, *cgsubst), tys@[j]]
                realizes(s, *rsubst, *tsubst, *cgsubst) && 0 <= j < i ==> out@[j]@ == tys@[j]@.subst(s),
        decreases tys@.len() - i,
    {
        let t = tys[i].substitute(rsubst, tsubst, cgsubst);
        out.push(t);
        i += 1;
    }
    out
}

fn substitute_trait_refs<R, R2, FR, FT, FC>(trs: &Vec<TraitRef<R>>, rsubst: &FR, tsubst: &FT, cgsubst: &FC) -> (r: Vec<TraitRef<R2>>)
    where
        FR: Fn(&R) -> R2,
        FT: Fn(&TypeVarId) -> Ty<R2>,
        FC: Fn(&ConstGenericVarId) -> ConstGeneric,
    requires
        forall|i: int| 0 <= i < trs@.len() ==> (#[trigger] trs@[i])@.vars_ok(callable(*rsubst, *tsubst, *cgsubst)),
    ensures
        r@.len() == trs@.len(),
        forall|s: SubstFns<R, R2>, i: int|
            #![trigger realizes(s, *rsubst, *tsubst, *cgsubst), trs@[i]]
            realizes(s, *rsubst, *tsubst, *cgsubst) && 0 <= i < trs@.len() ==> r@[i]@ == trs@[i]@.subst(s),
    decreases trs,
{
    let mut out: Vec<TraitRef<R2>> = Vec::new();
    let mut i: usize = 0;
    while i < trs.len()
        invariant
            i <= trs@.len(),
            out@.len() == i,
            forall|j: int| 0 <= j < trs@.len() ==> (#[trigger] trs@[j])@.vars_ok(callable(*rsubst, *tsubst, *cgsubst)),
            forall|s: SubstFns<R, R2>, j: int|
                #![trigger realizes(s, *rsubst, *tsubst, *cgsubst), trs@[j]]
                realizes(s, *rsubst, *tsubst, *cgsubst) && 0 <= j < i ==> out@[j]@ == trs@[j]@.subst(s),
        decreases trs@.len() - i,
    {
        let t = trs[i].substitute(rsubst, tsubst, cgsubst);
        out.push(t);
        i += 1;
    }
    out
}

impl<R> Ty<R> {
    /// Replaces every region, type variable and const generic variable,
    /// trait references included, keeping the shape of every other node.
    pub fn substitute<R2, FR, FT, FC>(&self, rsubst: &FR, tsubst: &FT, cgsubst: &FC) -> (r: Ty<R2>)
        where
            FR: Fn(&R) -> R2,
            FT: Fn(&TypeVarId) -> Ty<R2>,
            FC: Fn(&ConstGenericVarId) -> ConstGeneric,
        requires
            self@.vars_ok(callable(*rsubst, *tsubst, *cgsubst)),
        ensures
            forall|s: SubstFns<R, R2>|
                #![trigger realizes(s, *rsubst, *tsubst, *cgsubst)]
                realizes(s, *rsubst, *tsubst, *cgsubst) ==> r@ == self@.subst(s),
        decreases self,
    {
        match self {
            Ty::Adt(id, args) => {
                let a = args.substitute(rsubst, tsubst, cgsubst);
                Ty::Adt(*id, a)
            },
            Ty::TypeVar(id) => tsubst(id),
            Ty::Literal(l) => Ty::Literal(*l),
            Ty::Never => Ty::Never,
            Ty::Ref(rid, t, kind) => {
                let r2 = rsubst(rid);
                let t2 = t.substitute(rsubst, tsubst, cgsubst);
                Ty::Ref(r2, Box::new(t2), *kind)
            },
            Ty::RawPtr(t, kind) => {
                let t2 = t.substitute(rsubst, tsubst, cgsubst);
                Ty::RawPtr(Box::new(t2), *kind)
            },
            Ty::TraitType(tr, args, name) => {
                let tr2 = tr.substitute(rsubst, tsubst, cgsubst);
                let a = args.substitute(rsubst, tsubst, cgsubst);
                Ty::TraitType(tr2, a, name.clone())
            },
            Ty::Arrow(ins, out) => {
                proof {
                    lemma_arrow_view(*self);
                }
                let ins2 = substitute_tys(ins, rsubst, tsubst, cgsubst);
                let out2 = out.substitute(rsubst, tsubst, cgsubst);
                let res = Ty::Arrow(ins2, Box::new(out2));
                proof {
                    lemma_arrow_view(res);
                    assert forall|s: SubstFns<R, R2>| realizes(s, *rsubst, *tsubst, *cgsubst) implies res@ == #[trigger] self@.subst(s) by {
                        assert forall|i: int| 0 <= i < ins@.len() implies res@->Arrow_0[i] == self@.subst(s)->Arrow_0[i] by {
                            assert(self@->Arrow_0[i] == ins@[i]@);
                            assert(ins2@[i]@ == ins@[i]@.subst(s));
                            assert(self@.subst(s)->Arrow_0[i] == self@->Arrow_0[i].subst(s));
                        }
                        assert(res@->Arrow_0 =~= self@.subst(s)->Arrow_0);
                    }
                }
                res
            },
        }
    }

    /// Applies `rsubst` to each region of a list.
    fn substitute_regions<R2, FR>(regions: &Vec<R>, rsubst: &FR) -> (r: Vec<R2>)
        where
            FR: Fn(&R) -> R2,
        requires
            forall|i: int| 0 <= i < regions@.len() ==> rsubst.requires((&#[trigger] regions@[i],)),
        ensures
            r@.len() == regions@.len(),
            forall|i: int| 0 <= i < regions@.len() ==> rsubst.ensures((&#[trigger] regions@[i],), r@[i]),
    {
        let mut out: Vec<R2> = Vec::new();
        let mut i: usize = 0;
        while i < regions.len()
            invariant
                i <= regions@.len(),
                out@.len() == i,
                forall|j: int| 0 <= j < regions@.len() ==> rsubst.requires((&#[trigger] regions@[j],)),
                forall|j: int| 0 <= j < i ==> rsubst.ensures((&#[trigger] regions@[j],), out@[j]),
            decreases regions@.len() - i,
        {
            out.push(rsubst(&regions[i]));
            i += 1;
        }
        out
    }
}

impl<R> GenericArgs<R> {
    pub fn substitute<R2, FR, FT, FC>(&self, rsubst: &FR, tsubst: &FT, cgsubst: &FC) -> (r: GenericArgs<R2>)
        where
            FR: Fn(&R) -> R2,
            FT: Fn(&TypeVarId) -> Ty<R2>,
            FC: Fn(&ConstGenericVarId) -> ConstGeneric,
        requires
            self@.vars_ok(callable(*rsubst, *tsubst, *cgsubst)),
        ensures
            forall|s: SubstFns<R, R2>|
                #![trigger realizes(s, *rsubst, *tsubst, *cgsubst)]
                realizes(s, *rsubst, *tsubst, *cgsubst) ==> r@ == self@.subst(s),
        decreases self,
    {
        proof {
            lemma_args_view(*self);
        }
        let regions = Ty::<R>::substitute_regions(&self.regions, rsubst);
        let types = substitute_tys(&self.types, rsubst, tsubst, cgsubst);
        let const_generics = substitute_const_generics(&self.const_generics, cgsubst);
        let trait_refs = substitute_trait_refs(&self.trait_refs, rsubst, tsubst, cgsubst);
        let res = GenericArgs { regions, types, const_generics, trait_refs };
        proof {
            lemma_args_view(res);
            assert forall|s: SubstFns<R, R2>| realizes(s, *rsubst, *tsubst, *cgsubst) implies res@ == #[trigger] self@.subst(s) by {
                assert(res@.regions =~= self@.subst(s).regions);
                assert forall|i: int| 0 <= i < self.types@.len() implies res@.types[i] == self@.subst(s).types[i] by {
                    assert(self@.types[i] == self.types@[i]@);
                    assert(res.types@[i]@ == self.types@[i]@.subst(s));
                    assert(self@.subst(s).types[i] == self@.types[i].subst(s));
                }
                assert(res@.types =~= self@.subst(s).types);
                assert(res@.const_generics =~= self@.subst(s).const_generics);
                assert forall|i: int| 0 <= i < self.trait_refs@.len() implies res@.trait_refs[i] == self@.subst(s).trait_refs[i] by {
                    assert(self@.trait_refs[i] == self.trait_refs@[i]@);
                    assert(res.trait_refs@[i]@ == self.trait_refs@[i]@.subst(s));
                    assert(self@.subst(s).trait_refs[i] == self@.trait_refs[i].subst(s));
                }
                assert(res@.trait_refs =~= self@.subst(s).trait_refs);
            }
        }
        res
    }
}

impl<R> TraitRef<R> {
    pub fn substitute<R2, FR, FT, FC>(&self, rsubst: &FR, tsubst: &FT, cgsubst: &FC) -> (r: TraitRef<R2>)
        where
            FR: Fn(&R) -> R2,
            FT: Fn(&TypeVarId) -> Ty<R2>,
            FC: Fn(&ConstGenericVarId) -> ConstGeneric,
        requires
            self@.vars_ok(callable(*rsubst, *tsubst, *cgsubst)),
        ensures
            forall|s: SubstFns<R, R2>|
                #![trigger realizes(s, *rsubst, *tsubst, *cgsubst)]
                realizes(s, *rsubst, *tsubst, *cgsubst) ==> r@ == self@.subst(s),
        decreases self,
    {
        let trait_id = self.trait_id.substitute(rsubst, tsubst, cgsubst);
        let generics = self.generics.substitute(rsubst, tsubst, cgsubst);
        let trait_decl_ref = self.trait_decl_ref.substitute(rsubst, tsubst, cgsubst);
        TraitRef { trait_id, generics, trait_decl_ref }
    }
}

impl<R> TraitDeclRef<R> {
    pub fn substitute<R2, FR, FT, FC>(&self, rsubst: &FR, tsubst: &FT, cgsubst: &FC) -> (r: TraitDeclRef<R2>)
        where
            FR: Fn(&R) -> R2,
            FT: Fn(&TypeVarId) -> Ty<R2>,
            FC: Fn(&ConstGenericVarId) -> ConstGeneric,
        requires
            self@.vars_ok(callable(*rsubst, *tsubst, *cgsubst)),
        ensures
            forall|s: SubstFns<R, R2>|
                #![trigger realizes(s, *rsubst, *tsubst, *cgsubst)]
                realizes(s, *rsubst, *tsubst, *cgsubst) ==> r@ == self@.subst(s),
        decreases self,
    {
        let generics = self.generics.substitute(rsubst, tsubst, cgsubst);
        TraitDeclRef { trait_id: self.trait_id, generics }
    }
}

impl<R> TraitInstanceId<R> {
    pub fn substitute<R2, FR, FT, FC>(&self, rsubst: &FR, tsubst: &FT, cgsubst: &FC) -> (r: TraitInstanceId<R2>)
        where
            FR: Fn(&R) -> R2,
            FT: Fn(&TypeVarId) -> Ty<R2>,
            FC: Fn(&ConstGenericVarId) -> ConstGeneric,
        requires
            self@.vars_ok(callable(*rsubst, *tsubst, *cgsubst)),
        ensures
            forall|s: SubstFns<R, R2>|
                #![trigger realizes(s, *rsubst, *tsubst, *cgsubst)]
                realizes(s, *rsubst, *tsubst, *cgsubst) ==> r@ == self@.subst(s),
        decreases self,
    {
        match self {
            TraitInstanceId::SelfId => TraitInstanceId::SelfId,
            TraitInstanceId::TraitImpl(id) => TraitInstanceId::TraitImpl(*id),
            TraitInstanceId::BuiltinOrAuto(id) => TraitInstanceId::BuiltinOrAuto(*id),
            TraitInstanceId::Clause(id) => TraitInstanceId::Clause(*id),
            TraitInstanceId::ParentClause(base, decl_id, clause_id) => {
                let b = base.substitute(rsubst, tsubst, cgsubst);
                TraitInstanceId::ParentClause(Box::new(b), *decl_id, *clause_id)
            },
            TraitInstanceId::ItemClause(base, decl_id, name, clause_id) => {
                let b = base.substitute(rsubst, tsubst, cgsubst);
                TraitInstanceId::ItemClause(Box::new(b), *decl_id, name.clone(), *clause_id)
            },
            TraitInstanceId::FnPointer(t) => {
                let t2 = t.substitute(rsubst, tsubst, cgsubst);
                TraitInstanceId::FnPointer(Box::new(t2))
            },
            TraitInstanceId::Unsolved(decl_id, args) => {
                let a = args.substitute(rsubst, tsubst, cgsubst);
                TraitInstanceId::Unsolved(*decl_id, a)
            },
            TraitInstanceId::Unknown(msg) => TraitInstanceId::Unknown(msg.clone()),
        }
    }
}


impl<R: Copy> Clone for Ty<R> {
    /// A deep copy, built by substituting every variable by itself.
    fn clone(&self) -> (r: Self)
        ensures
            r@ == self@,
    {
        let fr = |x: &R| -> (o: R)
            ensures
                o == *x,
            { *x };
        let ft = |v: &TypeVarId| -> (o: Ty<R>)
            ensures
                o@ == TyModel::<R>::TypeVar(*v),
            { Ty::TypeVar(*v) };
        let fc = |c: &ConstGenericVarId| -> (o: ConstGeneric)
            ensures
                o == ConstGeneric::Var(*c),
            { ConstGeneric::Var(*c) };
        proof {
            lemma_ty_vars_ok(self@, callable(fr, ft, fc));
        }
        let r = self.substitute(&fr, &ft, &fc);
        proof {
            assert(realizes(identity_subst(), fr, ft, fc));
            lemma_ty_subst_identity(self@);
        }
        r
    }
}

impl<R: Copy> Clone for GenericArgs<R> {
    /// A deep copy, built by substituting every variable by itself.
    fn clone(&self) -> (r: Self)
        ensures
            r@ == self@,
    {
        let fr = |x: &R| -> (o: R)
            ensures
                o == *x,
            { *x };
        let ft = |v: &TypeVarId| -> (o: Ty<R>)
            ensures
                o@ == TyModel::<R>::TypeVar(*v),
            { Ty::TypeVar(*v) };
        let fc = |c: &ConstGenericVarId| -> (o: ConstGeneric)
            ensures
                o == ConstGeneric::Var(*c),
            { ConstGeneric::Var(*c) };
        proof {
            lemma_args_vars_ok(self@, callable(fr, ft, fc));
        }
        let r = self.substitute(&fr, &ft, &fc);
        proof {
            assert(realizes(identity_subst(), fr, ft, fc));
            lemma_args_subst_identity(self@);
        }
        r
    }
}

impl<R: Copy> Clone for TraitRef<R> {
    /// A deep copy, built by substituting every variable by itself.
    fn clone(&self) -> (r: Self)
        ensures
            r@ == self@,
    {
        let fr = |x: &R| -> (o: R)
            ensures
                o == *x,
            { *x };
        let ft = |v: &TypeVarId| -> (o: Ty<R>)
            ensures
                o@ == TyModel::<R>::TypeVar(*v),
            { Ty::TypeVar(*v) };
        let fc = |c: &ConstGenericVarId| -> (o: ConstGeneric)
            ensures
                o == ConstGeneric::Var(*c),
            { ConstGeneric::Var(*c) };
        proof {
            lemma_trait_ref_vars_ok(self@, callable(fr, ft, fc));
        }
        let r = self.substitute(&fr, &ft, &fc);
        proof {
            assert(realizes(identity_subst(), fr, ft, fc));
            lemma_trait_ref_subst_identity(self@);
        }
        r
    }
}

impl<R: Copy> Clone for TraitInstanceId<R> {
    /// A deep copy, built by substituting every variable by itself.
    fn clone(&self) -> (r: Self)
        ensures
            r@ == self@,
    {
        let fr = |x: &R| -> (o: R)
            ensures
                o == *x,
            { *x };
        let ft = |v: &TypeVarId| -> (o: Ty<R>)
            ensures
                o@ == TyModel::<R>::TypeVar(*v),
            { Ty::TypeVar(*v) };
        let fc = |c: &ConstGenericVarId| -> (o: ConstGeneric)
            ensures
                o == ConstGeneric::Var(*c),
            { ConstGeneric::Var(*c) };
        proof {
            lemma_trait_instance_vars_ok(self@, callable(fr, ft, fc));
        }
        let r = self.substitute(&fr, &ft, &fc);
        proof {
            assert(realizes(identity_subst(), fr, ft, fc));
            lemma_trait_instance_subst_identity(self@);
        }
        r
    }
}

impl<R> Ty<R> {
    /// Replaces every region by the erased marker, keeping variables.
    pub fn erase_regions(&self) -> (r: ETy)
        ensures
            r@ == self@.subst(erase_subst()),
    {
        let fr = |x: &R| -> (o: ErasedRegion)
            ensures
                o == ErasedRegion::Erased,
            { ErasedRegion::Erased };
        let ft = |v: &TypeVarId| -> (o: ETy)
            ensures
                o@ == TyModel::<ErasedRegion>::TypeVar(*v),
            { Ty::TypeVar(*v) };
        let fc = |c: &ConstGenericVarId| -> (o: ConstGeneric)
            ensures
                o == ConstGeneric::Var(*c),
            { ConstGeneric::Var(*c) };
        proof {
            lemma_ty_vars_ok(self@, callable(fr, ft, fc));
        }
        let r = self.substitute(&fr, &ft, &fc);
        proof {
            assert(realizes(erase_subst(), fr, ft, fc));
        }
        r
    }
}

/// The substitution given by a region function and two maps.
pub open spec fn map_subst<R, R2>(
    region: spec_fn(R) -> R2,
    types: Map<TypeVarId, Ty<R2>>,
    cgs: Map<ConstGenericVarId, ConstGeneric>,
) -> SubstFns<R, R2> {
    SubstFns { region, ty: |v: TypeVarId| types[v]@, cg: |c: ConstGenericVarId| cgs[c] }
}

/// Every region meets `region`, and every variable has an entry in its map.
pub open spec fn map_covers<R, R2>(
    region: spec_fn(R) -> bool,
    types: Map<TypeVarId, Ty<R2>>,
    cgs: Map<ConstGenericVarId, ConstGeneric>,
) -> VarPreds<R> {
    VarPreds {
        region,
        ty: |v: TypeVarId| types.contains_key(v),
        cg: |c: ConstGenericVarId| cgs.contains_key(c),
    }
}

/// Maps region variables through `m`, keeping the static region.
pub open spec fn region_var_subst(m: Map<RegionVarId, Region>) -> spec_fn(Region) -> Region {
    |r: Region|
        match r {
            Region::Static => Region::Static,
            Region::Var(id) => m[id],
        }
}

/// The region variables have an entry in `m`.
pub open spec fn region_var_covered(m: Map<RegionVarId, Region>) -> spec_fn(Region) -> bool {
    |r: Region|
        match r {
            Region::Static => true,
            Region::Var(id) => m.contains_key(id),
        }
}

impl Ty<Region> {
    /// Substitutes the type and const generic variables through the maps,
    /// keeping the regions.
    pub fn substitute_types(&self, subst: &TypeSubst, cgsubst: &ConstGenericSubst) -> (r: RTy)
        requires
            self@.vars_ok(
                map_covers(
                    |x: Region| true,
                    type_subst_contents(*subst),
                    const_generic_subst_contents(*cgsubst),
                ),
            ),
        ensures
            r@ == self@.subst(
                map_subst(
                    identity_subst::<Region>().region,
                    type_subst_contents(*subst),
                    const_generic_subst_contents(*cgsubst),
                ),
            ),
    {
        let fr = |x: &Region| -> (o: Region)
            ensures
                o == *x,
            { *x };
        let ft = |v: &TypeVarId| -> (o: RTy)
            requires
                type_subst_entries(subst).contains_key(*v),
            ensures
                o@ == type_subst_entries(subst)[*v]@,
            { type_subst_get(subst, v).unwrap().clone() };
        let fc = |c: &ConstGenericVarId| -> (o: ConstGeneric)
            requires
                const_generic_subst_entries(cgsubst).contains_key(*c),
            ensures
                o == const_generic_subst_entries(cgsubst)[*c],
            { *const_generic_subst_get(cgsubst, c).unwrap() };
        proof {
            let p = map_covers(
                |x: Region| true,
                type_subst_contents(*subst),
                const_generic_subst_contents(*cgsubst),
            );
            assert(preds_imply(p, callable(fr, ft, fc)));
            lemma_ty_vars_weaken(self@, p, callable(fr, ft, fc));
        }
        let r = self.substitute(&fr, &ft, &fc);
        proof {
            assert(realizes(
                map_subst(
                    identity_subst::<Region>().region,
                    type_subst_contents(*subst),
                    const_generic_subst_contents(*cgsubst),
                ),
                fr,
                ft,
                fc,
            ));
        }
        r
    }

    /// Renames the region variables through `rsubst` and substitutes the type
    /// variables through `tsubst`; const generic variables stay.
    pub fn substitute_regions_types(&self, rsubst: &RegionSubst, tsubst: &TypeSubst) -> (r: RTy)
        requires
            self@.vars_ok(
                map_covers(
                    region_var_covered(region_subst_contents(*rsubst)),
                    type_subst_contents(*tsubst),
                    Map::total(|c: ConstGenericVarId| ConstGeneric::Var(c)),
                ),
            ),
        ensures
            r@ == self@.subst(
                map_subst(
                    region_var_subst(region_subst_contents(*rsubst)),
                    type_subst_contents(*tsubst),
                    Map::total(|c: ConstGenericVarId| ConstGeneric::Var(c)),
                ),
            ),
    {
        let fr = |x: &Region| -> (o: Region)
            requires
                region_var_covered(region_subst_entries(rsubst))(*x),
            ensures
                o == region_var_subst(region_subst_entries(rsubst))(*x),
            {
                match x {
                    Region::Static => Region::Static,
                    Region::Var(id) => *region_subst_get(rsubst, id).unwrap(),
                }
            };
        let ft = |v: &TypeVarId| -> (o: RTy)
            requires
                type_subst_entries(tsubst).contains_key(*v),
            ensures
                o@ == type_subst_entries(tsubst)[*v]@,
            { type_subst_get(tsubst, v).unwrap().clone() };
        let fc = |c: &ConstGenericVarId| -> (o: ConstGeneric)
            ensures
                o == ConstGeneric::Var(*c),
            { ConstGeneric::Var(*c) };
        proof {
            let p = map_covers(
                region_var_covered(region_subst_contents(*rsubst)),
                type_subst_contents(*tsubst),
                Map::total(|c: ConstGenericVarId| ConstGeneric::Var(c)),
            );
            assert(preds_imply(p, callable(fr, ft, fc)));
            lemma_ty_vars_weaken(self@, p, callable(fr, ft, fc));
        }
        let r = self.substitute(&fr, &ft, &fc);
        proof {
            let s = map_subst(
                region_var_subst(region_subst_contents(*rsubst)),
                type_subst_contents(*tsubst),
                Map::total(|c: ConstGenericVarId| ConstGeneric::Var(c)),
            );
            assert(realizes(s, fr, ft, fc));
        }
        r
    }
}

impl<R> Ty<R> {
    /// Erases the regions and substitutes the type and const generic
    /// variables through the maps.
    pub fn erase_regions_substitute_types(
        &self,
        subst: &ErasedTypeSubst,
        cgsubst: &ConstGenericSubst,
    ) -> (r: ETy)
        requires
            self@.vars_ok(
                map_covers(
                    |x: R| true,
                    erased_type_subst_contents(*subst),
                    const_generic_subst_contents(*cgsubst),
                ),
            ),
        ensures
            r@ == self@.subst(
                map_subst(
                    erase_subst::<R>().region,
                    erased_type_subst_contents(*subst),
                    const_generic_subst_contents(*cgsubst),
                ),
            ),
    {
        let fr = |x: &R| -> (o: ErasedRegion)
            ensures
                o == ErasedRegion::Erased,
            { ErasedRegion::Erased };
        let ft = |v: &TypeVarId| -> (o: ETy)
            requires
                erased_type_subst_entries(subst).contains_key(*v),
            ensures
                o@ == erased_type_subst_entries(subst)[*v]@,
            { erased_type_subst_get(subst, v).unwrap().clone() };
        let fc = |c: &ConstGenericVarId| -> (o: ConstGeneric)
            requires
                const_generic_subst_entries(cgsubst).contains_key(*c),
            ensures
                o == const_generic_subst_entries(cgsubst)[*c],
            { *const_generic_subst_get(cgsubst, c).unwrap() };
        proof {
            let p = map_covers(
                |x: R| true,
                erased_type_subst_contents(*subst),
                const_generic_subst_contents(*cgsubst),
            );
            assert(preds_imply(p, callable(fr, ft, fc)));
            lemma_ty_vars_weaken(self@, p, callable(fr, ft, fc));
        }
        let r = self.substitute(&fr, &ft, &fc);
        proof {
            assert(realizes(
                map_subst(
                    erase_subst::<R>().region,
                    erased_type_subst_contents(*subst),
                    const_generic_subst_contents(*cgsubst),
                ),
                fr,
                ft,
                fc,
            ));
        }
        r
    }
}

/// Renaming the region variables through `m`, leaving every other variable
/// in place.
pub open spec fn region_renaming(m: Map<RegionVarId, Region>) -> SubstFns<Region, Region> {
    SubstFns { region: region_var_subst(m), ..identity_subst() }
}

/// Erasing the regions and substituting the types at once, as
/// `erase_regions_substitute_types` does, is erasing the regions and then
/// substituting the types of the erased type.
pub proof fn lemma_erase_then_substitute<R>(
    t: TyModel<R>,
    types: Map<TypeVarId, ETy>,
    cgs: Map<ConstGenericVarId, ConstGeneric>,
)
    ensures
        t.subst(map_subst(erase_subst::<R>().region, types, cgs)) == t.subst(erase_subst()).subst(
            map_subst(identity_subst::<ErasedRegion>().region, types, cgs),
        ),
{
    let s2 = map_subst(identity_subst::<ErasedRegion>().region, types, cgs);
    lemma_ty_subst_compose(t, erase_subst::<R>(), s2);
    let c = compose_subst(erase_subst::<R>(), s2);
    let m = map_subst(erase_subst::<R>().region, types, cgs);
    assert(c.region =~= m.region);
    assert(c.ty =~= m.ty);
    assert(c.cg =~= m.cg);
    assert(c == m);
}

/// Renaming the regions of a type and then erasing them is erasing them.
pub proof fn lemma_erase_after_region_renaming(t: TyModel<Region>, m: Map<RegionVarId, Region>)
    ensures
        t.subst(region_renaming(m)).subst(erase_subst()) == t.subst(erase_subst()),
{
    lemma_ty_subst_compose(t, region_renaming(m), erase_subst::<Region>());
    let c = compose_subst(region_renaming(m), erase_subst::<Region>());
    let e = erase_subst::<Region>();
    assert(c.region =~= e.region);
    assert(c.ty =~= e.ty);
    assert(c.cg =~= e.cg);
    assert(c == e);
}

} // verus!
