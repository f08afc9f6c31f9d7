//! The unification engine: finds the bindings of source variables that make
//! a source list of generic arguments equal to a target list.
use vstd::prelude::*;

use crate::collections::{
    const_generic_subst_contents, const_generic_subst_insert, const_generic_subst_new,
    erased_region_map_contents, erased_region_map_get, erased_region_map_insert,
    erased_region_map_new, erased_type_subst_contents, erased_type_subst_insert,
    erased_type_subst_new, ConstGenericSubst, ErasedRegionMap, ErasedTypeSubst,
};
use crate::ids::{ConstGenericVarId, TypeVarId};
use crate::types::{
    lemma_args_view, lemma_arrow_view, ConstGeneric, EGenericArgs, ETraitRef, ETy, ErasedRegion,
    TraitInstanceId, Ty, TyModel,
};
use crate::unify_spec::{
    initial_state, unify_args_spec, unify_cg_spec, unify_cgs_spec, unify_region_spec,
    unify_regions_spec, unify_trait_instance_spec, unify_trait_ref_spec, unify_ty_spec,
    unify_tys_spec, UnifyState,
};

verus! {

broadcast use vstd::std_specs::vec::group_vec_axioms;

/// The bindings found by unification.
pub struct TySubst {
    pub ignore_regions: bool,
    pub regions_map: ErasedRegionMap,
    pub type_vars_map: ErasedTypeSubst,
    pub const_generics_map: ConstGenericSubst,
}

/// The models of a list of types.
pub open spec fn tys_model(v: &Vec<ETy>) -> Seq<TyModel<ErasedRegion>> {
    Seq::new(v@.len(), |i: int| if 0 <= i < v@.len() { v@[i].model() } else { TyModel::Never })
}

/// The models of the values of a map of types.
pub open spec fn types_model(m: Map<TypeVarId, ETy>) -> Map<TypeVarId, TyModel<ErasedRegion>> {
    m.map_values(|t: ETy| t.model())
}

impl View for TySubst {
    type V = UnifyState;

    open spec fn view(&self) -> UnifyState {
        UnifyState {
            ignore_regions: self.ignore_regions,
            regions: erased_region_map_contents(self.regions_map),
            types: types_model(erased_type_subst_contents(self.type_vars_map)),
            cgs: const_generic_subst_contents(self.const_generics_map),
        }
    }
}

impl TySubst {
    fn new() -> (r: Self)
        ensures
            r@ == (UnifyState {
                ignore_regions: false,
                regions: map![ErasedRegion::Erased => ErasedRegion::Erased],
                types: Map::empty(),
                cgs: Map::empty(),
            }),
    {
        let mut regions_map = erased_region_map_new();
        let _ = erased_region_map_insert(&mut regions_map, ErasedRegion::Erased, ErasedRegion::Erased);
        let r = TySubst {
            ignore_regions: false,
            regions_map,
            type_vars_map: erased_type_subst_new(),
            const_generics_map: const_generic_subst_new(),
        };
        proof {
            assert(r@.regions =~= map![ErasedRegion::Erased => ErasedRegion::Erased]);
            assert(r@.types =~= Map::empty());
        }
        r
    }

    fn unify_regions(&mut self, src: &ErasedRegion, tgt: &ErasedRegion) -> (r: Result<(), ()>)
        ensures
            match unify_region_spec(old(self)@, *src, *tgt) {
                Some(s) => r is Ok && final(self)@ == s,
                None => r is Err,
            },
    {
        match erased_region_map_get(&self.regions_map, src) {
            None => {
                let prev = erased_region_map_insert(&mut self.regions_map, *src, *tgt);
                if prev.is_none() {
                    Ok(())
                } else {
                    Err(())
                }
            },
            Some(x) => {
                if *x == *tgt {
                    Ok(())
                } else {
                    Err(())
                }
            },
        }
    }

    fn unify_const_generics(&mut self, src: &ConstGeneric, tgt: &ConstGeneric) -> (r: Result<(), ()>)
        ensures
            match unify_cg_spec(old(self)@, *src, *tgt) {
                Some(s) => r is Ok && final(self)@ == s,
                None => r is Err,
            },
    {
        if let ConstGeneric::Var(v) = src {
            let prev = const_generic_subst_insert(&mut self.const_generics_map, *v, *tgt);
            return if prev.is_none() {
                Ok(())
            } else {
                Err(())
            };
        }
        match src {
            ConstGeneric::Global(a) => match tgt {
                ConstGeneric::Global(b) => if *a == *b {
                    Ok(())
                } else {
                    Err(())
                },
                _ => Err(()),
            },
            ConstGeneric::Value(a) => match tgt {
                ConstGeneric::Value(b) => if *a == *b {
                    Ok(())
                } else {
                    Err(())
                },
                _ => Err(()),
            },
            _ => Err(()),
        }
    }

    fn unify_types(&mut self, src: &ETy, tgt: &ETy) -> (r: Result<(), ()>)
        ensures
            match unify_ty_spec(old(self)@, src@, tgt@) {
                Some(s) => r is Ok && final(self)@ == s,
                None => r is Err,
            },
        decreases src,
    {
        if let Ty::TypeVar(v) = src {
            let ghost before = self@;
            let c = tgt.clone();
            let prev = erased_type_subst_insert(&mut self.type_vars_map, *v, c);
            proof {
                assert(self@.types =~= before.types.insert(*v, tgt@));
            }
            return if prev.is_none() {
                Ok(())
            } else {
                Err(())
            };
        }
        match src {
            Ty::Adt(id, a) => match tgt {
                Ty::Adt(id2, b) => if *id == *id2 {
                    self.unify_args(a, b)
                } else {
                    Err(())
                },
                _ => Err(()),
            },
            Ty::Literal(l) => match tgt {
                Ty::Literal(l2) => if *l == *l2 {
                    Ok(())
                } else {
                    Err(())
                },
                _ => Err(()),
            },
            Ty::Never => match tgt {
                Ty::Never => Ok(()),
                _ => Err(()),
            },
            Ty::Ref(r1, t1, k1) => match tgt {
                Ty::Ref(r2, t2, k2) => {
                    if !self.ignore_regions {
                        match self.unify_regions(r1, r2) {
                            Ok(()) => {},
                            Err(()) => {
                                return Err(());
                            },
                        }
                    }
                    match self.unify_types(t1, t2) {
                        Ok(()) => {},
                        Err(()) => {
                            return Err(());
                        },
                    }
                    if *k1 == *k2 {
                        Ok(())
                    } else {
                        Err(())
                    }
                },
                _ => Err(()),
            },
            Ty::RawPtr(t1, k1) => match tgt {
                Ty::RawPtr(t2, k2) => {
                    match self.unify_types(t1, t2) {
                        Ok(()) => {},
                        Err(()) => {
                            return Err(());
                        },
                    }
                    if *k1 == *k2 {
                        Ok(())
                    } else {
                        Err(())
                    }
                },
                _ => Err(()),
            },
            Ty::TraitType(tr, a, name) => match tgt {
                Ty::TraitType(tr2, b, name2) => {
                    if !(*name == *name2) {
                        return Err(());
                    }
                    match self.unify_trait_refs(tr, tr2) {
                        Ok(()) => {},
                        Err(()) => {
                            return Err(());
                        },
                    }
                    self.unify_args(a, b)
                },
                _ => Err(()),
            },
            Ty::TypeVar(_) => Err(()),
            Ty::Arrow(ins, out) => match tgt {
                Ty::Arrow(ins2, out2) => {
                    proof {
                        lemma_arrow_view(*src);
                        lemma_arrow_view(*tgt);
                        assert(src@->Arrow_0 =~= tys_model(ins));
                        assert(tgt@->Arrow_0 =~= tys_model(ins2));
                    }
                    match self.unify_types_lists(ins, ins2) {
                        Ok(()) => {},
                        Err(()) => {
                            return Err(());
                        },
                    }
                    self.unify_types(out, out2)
                },
                _ => Err(()),
            },
        }
    }

    fn unify_trait_refs(&mut self, src: &ETraitRef, tgt: &ETraitRef) -> (r: Result<(), ()>)
        ensures
            match unify_trait_ref_spec(old(self)@, src@, tgt@) {
                Some(s) => r is Ok && final(self)@ == s,
                None => r is Err,
            },
        decreases src,
    {
        if src.trait_decl_ref.trait_id != tgt.trait_decl_ref.trait_id {
            return Err(());
        }
        match self.unify_trait_instances(&src.trait_id, &tgt.trait_id) {
            Ok(()) => {},
            Err(()) => {
                return Err(());
            },
        }
        match self.unify_args(&src.generics, &tgt.generics) {
            Ok(()) => {},
            Err(()) => {
                return Err(());
            },
        }
        self.unify_args(&src.trait_decl_ref.generics, &tgt.trait_decl_ref.generics)
    }

    fn unify_trait_instances(
        &mut self,
        src: &TraitInstanceId<ErasedRegion>,
        tgt: &TraitInstanceId<ErasedRegion>,
    ) -> (r: Result<(), ()>)
        ensures
            match unify_trait_instance_spec(old(self)@, src@, tgt@) {
                Some(s) => r is Ok && final(self)@ == s,
                None => r is Err,
            },
        decreases src,
    {
        match src {
            TraitInstanceId::ParentClause(b, d, c) => match tgt {
                TraitInstanceId::ParentClause(b2, d2, c2) => if *d == *d2 && *c == *c2 {
                    self.unify_trait_instances(b, b2)
                } else {
                    Err(())
                },
                _ => Err(()),
            },
            TraitInstanceId::ItemClause(b, d, n, c) => match tgt {
                TraitInstanceId::ItemClause(b2, d2, n2, c2) => if *d == *d2 && *c == *c2 && *n == *n2 {
                    self.unify_trait_instances(b, b2)
                } else {
                    Err(())
                },
                _ => Err(()),
            },
            TraitInstanceId::FnPointer(t) => match tgt {
                TraitInstanceId::FnPointer(t2) => self.unify_types(t, t2),
                _ => Err(()),
            },
            TraitInstanceId::Unsolved(d, a) => match tgt {
                TraitInstanceId::Unsolved(d2, b) => if *d == *d2 {
                    self.unify_args(a, b)
                } else {
                    Err(())
                },
                _ => Err(()),
            },
            TraitInstanceId::SelfId => match tgt {
                TraitInstanceId::SelfId => Ok(()),
                _ => Err(()),
            },
            TraitInstanceId::TraitImpl(x) => match tgt {
                TraitInstanceId::TraitImpl(y) => if *x == *y {
                    Ok(())
                } else {
                    Err(())
                },
                _ => Err(()),
            },
            TraitInstanceId::BuiltinOrAuto(x) => match tgt {
                TraitInstanceId::BuiltinOrAuto(y) => if *x == *y {
                    Ok(())
                } else {
                    Err(())
                },
                _ => Err(()),
            },
            TraitInstanceId::Clause(x) => match tgt {
                TraitInstanceId::Clause(y) => if *x == *y {
                    Ok(())
                } else {
                    Err(())
                },
                _ => Err(()),
            },
            TraitInstanceId::Unknown(m) => match tgt {
                TraitInstanceId::Unknown(m2) => if *m == *m2 {
                    Ok(())
                } else {
                    Err(())
                },
                _ => Err(()),
            },
        }
    }

    fn unify_regions_lists(&mut self, src: &Vec<ErasedRegion>, tgt: &Vec<ErasedRegion>) -> (r: Result<(), ()>)
        ensures
            match unify_regions_spec(old(self)@, src@, tgt@) {
                Some(s) => r is Ok && final(self)@ == s,
                None => r is Err,
            },
    {
        if src.len() != tgt.len() {
            return Err(());
        }
        let ghost s0 = self@;
        let n = src.len();
        let mut i: usize = 0;
        proof {
            assert(src@.subrange(0, n as int) =~= src@);
            assert(tgt@.subrange(0, n as int) =~= tgt@);
        }
        while i < n
            invariant
                n == src@.len() == tgt@.len(),
                i <= n,
                s0 == old(self)@,
                unify_regions_spec(self@, src@.subrange(i as int, n as int), tgt@.subrange(i as int, n as int))
                    == unify_regions_spec(s0, src@, tgt@),
            decreases n - i,
        {
            proof {
                let ss = src@.subrange(i as int, n as int);
                let ts = tgt@.subrange(i as int, n as int);
                assert(ss.subrange(1, ss.len() as int) =~= src@.subrange(i + 1, n as int));
                assert(ts.subrange(1, ts.len() as int) =~= tgt@.subrange(i + 1, n as int));
            }
            let ghost pre = self@;
            match self.unify_regions(&src[i], &tgt[i]) {
                Ok(()) => {},
                Err(()) => {
                    proof {
                        assert(unify_regions_spec(pre, src@.subrange(i as int, n as int), tgt@.subrange(i as int, n as int)) is None);
                        assert(unify_regions_spec(s0, src@, tgt@) is None);
                    }
                    return Err(());
                },
            }
            i += 1;
        }
        Ok(())
    }

    fn unify_const_generics_lists(&mut self, src: &Vec<ConstGeneric>, tgt: &Vec<ConstGeneric>) -> (r: Result<(), ()>)
        ensures
            match unify_cgs_spec(old(self)@, src@, tgt@) {
                Some(s) => r is Ok && final(self)@ == s,
                None => r is Err,
            },
    {
        if src.len() != tgt.len() {
            return Err(());
        }
        let ghost s0 = self@;
        let n = src.len();
        let mut i: usize = 0;
        proof {
            assert(src@.subrange(0, n as int) =~= src@);
            assert(tgt@.subrange(0, n as int) =~= tgt@);
        }
        while i < n
            invariant
                n == src@.len() == tgt@.len(),
                i <= n,
                s0 == old(self)@,
                unify_cgs_spec(self@, src@.subrange(i as int, n as int), tgt@.subrange(i as int, n as int))
                    == unify_cgs_spec(s0, src@, tgt@),
            decreases n - i,
        {
            proof {
                let ss = src@.subrange(i as int, n as int);
                let ts = tgt@.subrange(i as int, n as int);
                assert(ss.subrange(1, ss.len() as int) =~= src@.subrange(i + 1, n as int));
                assert(ts.subrange(1, ts.len() as int) =~= tgt@.subrange(i + 1, n as int));
            }
            let ghost pre = self@;
            match self.unify_const_generics(&src[i], &tgt[i]) {
                Ok(()) => {},
                Err(()) => {
                    proof {
                        assert(unify_cgs_spec(pre, src@.subrange(i as int, n as int), tgt@.subrange(i as int, n as int)) is None);
                        assert(unify_cgs_spec(s0, src@, tgt@) is None);
                    }
                    return Err(());
                },
            }
            i += 1;
        }
        Ok(())
    }

    fn unify_types_lists(&mut self, src: &Vec<ETy>, tgt: &Vec<ETy>) -> (r: Result<(), ()>)
        ensures
            match unify_tys_spec(old(self)@, tys_model(src), tys_model(tgt)) {
                Some(s) => r is Ok && final(self)@ == s,
                None => r is Err,
            },
        decreases src,
    {
        if src.len() != tgt.len() {
            return Err(());
        }
        let ghost s0 = self@;
        let ghost sm = tys_model(src);
        let ghost tm = tys_model(tgt);
        let n = src.len();
        let mut i: usize = 0;
        proof {
            assert(sm.subrange(0, n as int) =~= sm);
            assert(tm.subrange(0, n as int) =~= tm);
        }
        while i < n
            invariant
                n == src@.len() == tgt@.len(),
                sm == tys_model(src),
                tm == tys_model(tgt),
                i <= n,
                s0 == old(self)@,
                unify_tys_spec(self@, sm.subrange(i as int, n as int), tm.subrange(i as int, n as int))
                    == unify_tys_spec(s0, sm, tm),
            decreases n - i,
        {
            proof {
                let ss = sm.subrange(i as int, n as int);
                let ts = tm.subrange(i as int, n as int);
                assert(ss.subrange(1, ss.len() as int) =~= sm.subrange(i + 1, n as int));
                assert(ts.subrange(1, ts.len() as int) =~= tm.subrange(i + 1, n as int));
                assert(ss[0] == src@[i as int]@);
                assert(ts[0] == tgt@[i as int]@);
            }
            let ghost pre = self@;
            match self.unify_types(&src[i], &tgt[i]) {
                Ok(()) => {},
                Err(()) => {
                    proof {
                        assert(unify_tys_spec(pre, sm.subrange(i as int, n as int), tm.subrange(i as int, n as int)) is None);
                        assert(unify_tys_spec(s0, sm, tm) is None);
                    }
                    return Err(());
                },
            }
            i += 1;
        }
        Ok(())
    }

    fn unify_args(&mut self, src: &EGenericArgs, tgt: &EGenericArgs) -> (r: Result<(), ()>)
        ensures
            match unify_args_spec(old(self)@, src@, tgt@) {
                Some(s) => r is Ok && final(self)@ == s,
                None => r is Err,
            },
        decreases src,
    {
        proof {
            lemma_args_view(*src);
            lemma_args_view(*tgt);
            assert(src@.types =~= tys_model(&src.types));
            assert(tgt@.types =~= tys_model(&tgt.types));
        }
        if !self.ignore_regions {
            match self.unify_regions_lists(&src.regions, &tgt.regions) {
                Ok(()) => {},
                Err(()) => {
                    return Err(());
                },
            }
        }
        match self.unify_types_lists(&src.types, &tgt.types) {
            Ok(()) => {},
            Err(()) => {
                return Err(());
            },
        }
        self.unify_const_generics_lists(&src.const_generics, &tgt.const_generics)
    }

    /// Unifies `src` with `tgt`, regions ignored, with the given type and
    /// const generic variables fixed: each is bound to itself from the
    /// start, so that a source occurrence of one of them fails.
    pub fn unify_args_with_fixed(
        fixed_type_vars: &Vec<TypeVarId>,
        fixed_const_generic_vars: &Vec<ConstGenericVarId>,
        src: &EGenericArgs,
        tgt: &EGenericArgs,
    ) -> (r: Result<TySubst, ()>)
        ensures
            match unify_args_spec(initial_state(fixed_type_vars@, fixed_const_generic_vars@), src@, tgt@) {
                Some(s) => r is Ok && r->Ok_0@ == s,
                None => r is Err,
            },
    {
        let mut s = TySubst::new();
        let mut i: usize = 0;
        while i < fixed_type_vars.len()
            invariant
                i <= fixed_type_vars@.len(),
                s@.ignore_regions == false,
                s@.regions == map![ErasedRegion::Erased => ErasedRegion::Erased],
                s@.cgs == Map::<ConstGenericVarId, ConstGeneric>::empty(),
                s@.types == Map::new(
                    |v: TypeVarId| fixed_type_vars@.take(i as int).contains(v),
                    |v: TypeVarId| TyModel::<ErasedRegion>::TypeVar(v),
                ),
            decreases fixed_type_vars@.len() - i,
        {
            let v = fixed_type_vars[i];
            let ghost before = s@;
            let _ = erased_type_subst_insert(&mut s.type_vars_map, v, Ty::TypeVar(v));
            proof {
                assert(s@.types =~= before.types.insert(v, TyModel::<ErasedRegion>::TypeVar(v)));
                assert(fixed_type_vars@.take(i + 1) =~= fixed_type_vars@.take(i as int).push(v));
                assert forall|w: TypeVarId| #[trigger] fixed_type_vars@.take(i + 1).contains(w) == (
                    fixed_type_vars@.take(i as int).contains(w) || w == v) by {
                    let p = fixed_type_vars@.take(i as int);
                    if p.contains(w) {
                        let k = choose|k: int| 0 <= k < p.len() && p[k] == w;
                        assert(p.push(v)[k] == w);
                    }
                    if w == v {
                        assert(p.push(v)[p.len() as int] == w);
                    }
                    if p.push(v).contains(w) && w != v {
                        let k = choose|k: int| 0 <= k < p.push(v).len() && p.push(v)[k] == w;
                        assert(k < p.len());
                        assert(p[k] == w);
                    }
                }
                assert(s@.types =~= Map::new(
                    |w: TypeVarId| fixed_type_vars@.take(i + 1).contains(w),
                    |w: TypeVarId| TyModel::<ErasedRegion>::TypeVar(w),
                ));
            }
            i += 1;
        }
        let mut j: usize = 0;
        while j < fixed_const_generic_vars.len()
            invariant
                j <= fixed_const_generic_vars@.len(),
                i == fixed_type_vars@.len(),
                s@.ignore_regions == false,
                s@.regions == map![ErasedRegion::Erased => ErasedRegion::Erased],
                s@.types == Map::new(
                    |v: TypeVarId| fixed_type_vars@.take(i as int).contains(v),
                    |v: TypeVarId| TyModel::<ErasedRegion>::TypeVar(v),
                ),
                s@.cgs == Map::new(
                    |c: ConstGenericVarId| fixed_const_generic_vars@.take(j as int).contains(c),
                    |c: ConstGenericVarId| ConstGeneric::Var(c),
                ),
            decreases fixed_const_generic_vars@.len() - j,
        {
            let c = fixed_const_generic_vars[j];
            let _ = const_generic_subst_insert(&mut s.const_generics_map, c, ConstGeneric::Var(c));
            proof {
                assert(fixed_const_generic_vars@.take(j + 1) =~= fixed_const_generic_vars@.take(j as int).push(c));
                assert forall|w: ConstGenericVarId| #[trigger] fixed_const_generic_vars@.take(j + 1).contains(w) == (
                    fixed_const_generic_vars@.take(j as int).contains(w) || w == c) by {
                    let p = fixed_const_generic_vars@.take(j as int);
                    if p.contains(w) {
                        let k = choose|k: int| 0 <= k < p.len() && p[k] == w;
                        assert(p.push(c)[k] == w);
                    }
                    if w == c {
                        assert(p.push(c)[p.len() as int] == w);
                    }
                    if p.push(c).contains(w) && w != c {
                        let k = choose|k: int| 0 <= k < p.push(c).len() && p.push(c)[k] == w;
                        assert(k < p.len());
                        assert(p[k] == w);
                    }
                }
                assert(s@.cgs =~= Map::new(
                    |w: ConstGenericVarId| fixed_const_generic_vars@.take(j + 1).contains(w),
                    |w: ConstGenericVarId| ConstGeneric::Var(w),
                ));
            }
            j += 1;
        }
        s.ignore_regions = true;
        proof {
            assert(fixed_type_vars@.take(i as int) =~= fixed_type_vars@);
            assert(fixed_const_generic_vars@.take(j as int) =~= fixed_const_generic_vars@);
            assert(s@ == initial_state(fixed_type_vars@, fixed_const_generic_vars@));
        }
        match s.unify_args(src, tgt) {
            Ok(()) => Ok(s),
            Err(()) => Err(()),
        }
    }
}

} // verus!
