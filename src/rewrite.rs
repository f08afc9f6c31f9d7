//! The mutating traversal: every node of a tree (region, type, const
//! generic, trait instance) is rewritten by a visitor, children first, each
//! kind through its own method. Replacing the `SelfId` placeholder by a
//! concrete trait instance, as needed to instantiate a trait's default items
//! for one of its implementations, is one such rewrite.
use vstd::prelude::*;

use crate::types::{
    lemma_args_view, lemma_arrow_view, ConstGeneric, GenericArgs, GenericArgsModel, TraitDeclRef,
    TraitDeclRefModel, TraitInstanceId, TraitInstanceModel, TraitRef, TraitRefModel, Ty, TyModel,
};

verus! {

broadcast use vstd::std_specs::vec::group_vec_axioms;

/// What a rewrite does to each kind of node, once the node's children are
/// rewritten.
#[verifier::reject_recursive_types(R)]
pub struct Rewrites<R> {
    pub region: spec_fn(R) -> R,
    pub ty: spec_fn(TyModel<R>) -> TyModel<R>,
    pub cg: spec_fn(ConstGeneric) -> ConstGeneric,
    pub instance: spec_fn(TraitInstanceModel<R>) -> TraitInstanceModel<R>,
}

/// A mutating visitor: one method per kind of node, each given the node with
/// its children already rewritten. A method that is not overridden keeps
/// the node as it is.
pub trait TypeRewriter<R>: Sized {
    spec fn region_spec(&self, r: R) -> R;

    spec fn ty_spec(&self, t: TyModel<R>) -> TyModel<R>;

    spec fn cg_spec(&self, c: ConstGeneric) -> ConstGeneric;

    spec fn instance_spec(&self, id: TraitInstanceModel<R>) -> TraitInstanceModel<R>;

    fn rewrite_region(&self, r: R) -> (o: R)
        ensures
            o == self.region_spec(r),
    ;

    fn rewrite_ty(&self, t: Ty<R>) -> (o: Ty<R>)
        ensures
            o@ == self.ty_spec(t@),
    ;

    fn rewrite_const_generic(&self, c: ConstGeneric) -> (o: ConstGeneric)
        ensures
            o == self.cg_spec(c),
    ;

    fn rewrite_trait_instance(&self, id: TraitInstanceId<R>) -> (o: TraitInstanceId<R>)
        ensures
            o@ == self.instance_spec(id@),
    ;
}

/// The rewrites a visitor performs.
pub open spec fn rewrites_of<R, V: TypeRewriter<R>>(v: V) -> Rewrites<R> {
    Rewrites {
        region: |r: R| v.region_spec(r),
        ty: |t: TyModel<R>| v.ty_spec(t),
        cg: |c: ConstGeneric| v.cg_spec(c),
        instance: |i: TraitInstanceModel<R>| v.instance_spec(i),
    }
}

impl<R> TraitInstanceModel<R> {
    /// The instance with every node rewritten by `f`, children first: the
    /// base of a parent or item clause, the type of a function pointer and
    /// the arguments of a deferred obligation, then the node itself.
    pub open spec fn rewrite_all(
        self,
        f: Rewrites<R>,
    ) -> TraitInstanceModel<R>
        decreases self,
    {
        (f.instance)(
            match self {
                TraitInstanceModel::ParentClause(base, d, c) => TraitInstanceModel::ParentClause(
                    Box::new(base.rewrite_all(f)),
                    d,
                    c,
                ),
                TraitInstanceModel::ItemClause(base, d, name, c) => TraitInstanceModel::ItemClause(
                    Box::new(base.rewrite_all(f)),
                    d,
                    name,
                    c,
                ),
                TraitInstanceModel::FnPointer(t) => TraitInstanceModel::FnPointer(
                    Box::new(t.rewrite_all(f)),
                ),
                TraitInstanceModel::Unsolved(d, args) => TraitInstanceModel::Unsolved(
                    d,
                    args.rewrite_all(f),
                ),
                _ => self,
            },
        )
    }
}

impl<R> TyModel<R> {
    /// Every node of the type rewritten by `f`, children first.
    pub open spec fn rewrite_all(
        self,
        f: Rewrites<R>,
    ) -> TyModel<R>
        decreases self, 1nat,
    {
        (f.ty)(self.rewrite_children(f))
    }

    /// The node with its children rewritten by `f`.
    pub open spec fn rewrite_children(
        self,
        f: Rewrites<R>,
    ) -> TyModel<R>
        decreases self, 0nat,
    {
        match self {
            TyModel::Adt(id, args) => TyModel::Adt(id, args.rewrite_all(f)),
            TyModel::Ref(r, t, k) => TyModel::Ref((f.region)(r), Box::new(t.rewrite_all(f)), k),
            TyModel::RawPtr(t, k) => TyModel::RawPtr(Box::new(t.rewrite_all(f)), k),
            TyModel::TraitType(tr, args, name) => TyModel::TraitType(
                tr.rewrite_all(f),
                args.rewrite_all(f),
                name,
            ),
            TyModel::Arrow(ins, out) => TyModel::Arrow(
                Seq::new(
                    ins.len(),
                    |i: int|
                        if 0 <= i < ins.len() {
                            ins[i].rewrite_all(f)
                        } else {
                            TyModel::Never
                        },
                ),
                Box::new(out.rewrite_all(f)),
            ),
            _ => self,
        }
    }
}

impl<R> GenericArgsModel<R> {
    pub open spec fn rewrite_all(
        self,
        f: Rewrites<R>,
    ) -> GenericArgsModel<R>
        decreases self,
    {
        GenericArgsModel {
            regions: self.regions.map_values(f.region),
            types: Seq::new(
                self.types.len(),
                |i: int|
                    if 0 <= i < self.types.len() {
                        self.types[i].rewrite_all(f)
                    } else {
                        TyModel::Never
                    },
            ),
            const_generics: self.const_generics.map_values(f.cg),
            trait_refs: Seq::new(
                self.trait_refs.len(),
                |i: int|
                    if 0 <= i < self.trait_refs.len() {
                        self.trait_refs[i].rewrite_all(f)
                    } else {
                        arbitrary()
                    },
            ),
        }
    }
}

impl<R> TraitRefModel<R> {
    pub open spec fn rewrite_all(
        self,
        f: Rewrites<R>,
    ) -> TraitRefModel<R>
        decreases self,
    {
        TraitRefModel {
            trait_id: self.trait_id.rewrite_all(f),
            generics: self.generics.rewrite_all(f),
            trait_decl_ref: TraitDeclRefModel {
                trait_id: self.trait_decl_ref.trait_id,
                generics: self.trait_decl_ref.generics.rewrite_all(f),
            },
        }
    }
}

fn rewrite_regions<R, V: TypeRewriter<R>>(regions: &Vec<R>, v: &V) -> (r: Vec<R>)
    where
        R: Copy,
    ensures
        r@ == regions@.map_values(rewrites_of(*v).region),
{
    let mut out: Vec<R> = Vec::new();
    let mut i: usize = 0;
    while i < regions.len()
        invariant
            i <= regions@.len(),
            out@.len() == i,
            forall|j: int| 0 <= j < i ==> #[trigger] out@[j] == v.region_spec(regions@[j]),
        decreases regions@.len() - i,
    {
        out.push(v.rewrite_region(regions[i]));
        i += 1;
    }
    proof {
        assert(out@ =~= regions@.map_values(rewrites_of(*v).region));
    }
    out
}

fn rewrite_const_generics<R, V: TypeRewriter<R>>(cgs: &Vec<ConstGeneric>, v: &V) -> (r: Vec<ConstGeneric>)
    ensures
        r@ == cgs@.map_values(rewrites_of(*v).cg),
{
    let mut out: Vec<ConstGeneric> = Vec::new();
    let mut i: usize = 0;
    while i < cgs.len()
        invariant
            i <= cgs@.len(),
            out@.len() == i,
            forall|j: int| 0 <= j < i ==> #[trigger] out@[j] == v.cg_spec(cgs@[j]),
        decreases cgs@.len() - i,
    {
        out.push(v.rewrite_const_generic(cgs[i]));
        i += 1;
    }
    proof {
        assert(out@ =~= cgs@.map_values(rewrites_of(*v).cg));
    }
    out
}

fn rewrite_tys<R: Copy, V: TypeRewriter<R>>(tys: &Vec<Ty<R>>, v: &V) -> (r: Vec<Ty<R>>)
    ensures
        r@.len() == tys@.len(),
        forall|i: int|
            0 <= i < tys@.len() ==> (#[trigger] r@[i])@ == tys@[i]@.rewrite_all(rewrites_of(*v)),
    decreases tys,
{
    let mut out: Vec<Ty<R>> = Vec::new();
    let mut i: usize = 0;
    while i < tys.len()
        invariant
            i <= tys@.len(),
            out@.len() == i,
            forall|j: int|
                0 <= j < i ==> (#[trigger] out@[j])@ == tys@[j]@.rewrite_all(rewrites_of(*v)),
        decreases tys@.len() - i,
    {
        out.push(rewrite_ty(&tys[i], v));
        i += 1;
    }
    out
}

fn rewrite_trait_refs<R: Copy, V: TypeRewriter<R>>(trs: &Vec<TraitRef<R>>, v: &V) -> (r: Vec<TraitRef<R>>)
    ensures
        r@.len() == trs@.len(),
        forall|i: int|
            0 <= i < trs@.len() ==> (#[trigger] r@[i])@ == trs@[i]@.rewrite_all(rewrites_of(*v)),
    decreases trs,
{
    let mut out: Vec<TraitRef<R>> = Vec::new();
    let mut i: usize = 0;
    while i < trs.len()
        invariant
            i <= trs@.len(),
            out@.len() == i,
            forall|j: int|
                0 <= j < i ==> (#[trigger] out@[j])@ == trs@[j]@.rewrite_all(rewrites_of(*v)),
        decreases trs@.len() - i,
    {
        out.push(rewrite_trait_ref(&trs[i], v));
        i += 1;
    }
    out
}

fn rewrite_args<R: Copy, V: TypeRewriter<R>>(a: &GenericArgs<R>, v: &V) -> (r: GenericArgs<R>)
    ensures
        r@ == a@.rewrite_all(rewrites_of(*v)),
    decreases a,
{
    proof {
        lemma_args_view(*a);
    }
    let regions = rewrite_regions(&a.regions, v);
    let types = rewrite_tys(&a.types, v);
    let const_generics = rewrite_const_generics(&a.const_generics, v);
    let trait_refs = rewrite_trait_refs(&a.trait_refs, v);
    let r = GenericArgs { regions, types, const_generics, trait_refs };
    proof {
        lemma_args_view(r);
        let f = rewrites_of(*v);
        let m = a@.rewrite_all(f);
        assert forall|i: int| 0 <= i < a.types@.len() implies r@.types[i] == m.types[i] by {
            assert(a@.types[i] == a.types@[i]@);
            assert(m.types[i] == a@.types[i].rewrite_all(f));
        }
        assert forall|i: int| 0 <= i < a.trait_refs@.len() implies r@.trait_refs[i] == m.trait_refs[i] by {
            assert(a@.trait_refs[i] == a.trait_refs@[i]@);
            assert(m.trait_refs[i] == a@.trait_refs[i].rewrite_all(f));
        }
        assert(r@.types =~= m.types);
        assert(r@.trait_refs =~= m.trait_refs);
    }
    r
}

fn rewrite_trait_ref<R: Copy, V: TypeRewriter<R>>(tr: &TraitRef<R>, v: &V) -> (r: TraitRef<R>)
    ensures
        r@ == tr@.rewrite_all(rewrites_of(*v)),
    decreases tr,
{
    let trait_id = rewrite_trait_instance(&tr.trait_id, v);
    let generics = rewrite_args(&tr.generics, v);
    let decl_generics = rewrite_args(&tr.trait_decl_ref.generics, v);
    TraitRef {
        trait_id,
        generics,
        trait_decl_ref: TraitDeclRef { trait_id: tr.trait_decl_ref.trait_id, generics: decl_generics },
    }
}

fn rewrite_trait_instance<R: Copy, V: TypeRewriter<R>>(id: &TraitInstanceId<R>, v: &V) -> (r: TraitInstanceId<R>)
    ensures
        r@ == id@.rewrite_all(rewrites_of(*v)),
    decreases id,
{
    let node = match id {
        TraitInstanceId::ParentClause(base, d, c) => {
            let b = rewrite_trait_instance(base, v);
            TraitInstanceId::ParentClause(Box::new(b), *d, *c)
        },
        TraitInstanceId::ItemClause(base, d, name, c) => {
            let b = rewrite_trait_instance(base, v);
            TraitInstanceId::ItemClause(Box::new(b), *d, name.clone(), *c)
        },
        TraitInstanceId::FnPointer(t) => TraitInstanceId::FnPointer(Box::new(rewrite_ty(t, v))),
        TraitInstanceId::Unsolved(d, args) => TraitInstanceId::Unsolved(*d, rewrite_args(args, v)),
        _ => id.clone(),
    };
    v.rewrite_trait_instance(node)
}

fn rewrite_ty<R: Copy, V: TypeRewriter<R>>(t: &Ty<R>, v: &V) -> (r: Ty<R>)
    ensures
        r@ == t@.rewrite_all(rewrites_of(*v)),
    decreases t,
{
    let node = match t {
        Ty::Adt(id, args) => Ty::Adt(*id, rewrite_args(args, v)),
        Ty::Ref(rg, inner, k) => {
            let rg2 = v.rewrite_region(*rg);
            Ty::Ref(rg2, Box::new(rewrite_ty(inner, v)), *k)
        },
        Ty::RawPtr(inner, k) => Ty::RawPtr(Box::new(rewrite_ty(inner, v)), *k),
        Ty::TraitType(tr, args, name) => {
            let tr2 = rewrite_trait_ref(tr, v);
            let a = rewrite_args(args, v);
            Ty::TraitType(tr2, a, name.clone())
        },
        Ty::Arrow(ins, out) => {
            proof {
                lemma_arrow_view(*t);
            }
            let ins2 = rewrite_tys(ins, v);
            let out2 = rewrite_ty(out, v);
            let n = Ty::Arrow(ins2, Box::new(out2));
            proof {
                lemma_arrow_view(n);
                let f = rewrites_of(*v);
                let m = t@.rewrite_children(f);
                assert forall|i: int| 0 <= i < ins@.len() implies n@->Arrow_0[i] == m->Arrow_0[i] by {
                    assert(t@->Arrow_0[i] == ins@[i]@);
                    assert(m->Arrow_0[i] == t@->Arrow_0[i].rewrite_all(f));
                }
                assert(n@->Arrow_0 =~= m->Arrow_0);
            }
            n
        },
        _ => t.clone(),
    };
    proof {
        assert(node@ == t@.rewrite_children(rewrites_of(*v)));
    }
    v.rewrite_ty(node)
}

/// The mutating traversal of a type: rewrites every node of `t` with `v`,
/// children first.
pub fn walk_ty_mut<R: Copy, V: TypeRewriter<R>>(v: &V, t: &mut Ty<R>)
    ensures
        final(t)@ == old(t)@.rewrite_all(rewrites_of(*v)),
{
    let r = rewrite_ty(t, v);
    *t = r;
}

/// The mutating traversal of generic arguments.
pub fn walk_generic_args_mut<R: Copy, V: TypeRewriter<R>>(v: &V, a: &mut GenericArgs<R>)
    ensures
        final(a)@ == old(a)@.rewrite_all(rewrites_of(*v)),
{
    let r = rewrite_args(a, v);
    *a = r;
}

/// The mutating traversal of a trait reference.
pub fn walk_trait_ref_mut<R: Copy, V: TypeRewriter<R>>(v: &V, tr: &mut TraitRef<R>)
    ensures
        final(tr)@ == old(tr)@.rewrite_all(rewrites_of(*v)),
{
    let r = rewrite_trait_ref(tr, v);
    *tr = r;
}

/// `SelfId` replaced by `n`; every other node left as it is.
pub open spec fn self_replacement<R>(n: TraitInstanceModel<R>) -> Rewrites<R> {
    Rewrites {
        region: |r: R| r,
        ty: |t: TyModel<R>| t,
        cg: |c: ConstGeneric| c,
        instance: |m: TraitInstanceModel<R>|
            match m {
                TraitInstanceModel::SelfId => n,
                _ => m,
            },
    }
}

/// The rewrite that replaces the `SelfId` trait instance by `new_id`; it
/// keeps regions, types and const generics.
pub struct TraitInstanceIdSelfReplacer<R> {
    pub new_id: TraitInstanceId<R>,
}

impl<R: Copy> TypeRewriter<R> for TraitInstanceIdSelfReplacer<R> {
    open spec fn region_spec(&self, r: R) -> R {
        r
    }

    open spec fn ty_spec(&self, t: TyModel<R>) -> TyModel<R> {
        t
    }

    open spec fn cg_spec(&self, c: ConstGeneric) -> ConstGeneric {
        c
    }

    open spec fn instance_spec(&self, id: TraitInstanceModel<R>) -> TraitInstanceModel<R> {
        (self_replacement(self.new_id@).instance)(id)
    }

    fn rewrite_region(&self, r: R) -> (o: R) {
        r
    }

    fn rewrite_ty(&self, t: Ty<R>) -> (o: Ty<R>) {
        t
    }

    fn rewrite_const_generic(&self, c: ConstGeneric) -> (o: ConstGeneric) {
        c
    }

    fn rewrite_trait_instance(&self, id: TraitInstanceId<R>) -> (o: TraitInstanceId<R>) {
        match id {
            TraitInstanceId::SelfId => self.new_id.clone(),
            other => other,
        }
    }
}

impl<R: Copy> Ty<R> {
    /// Replaces every occurrence of the `SelfId` trait instance in the type by
    /// `new_id`: in its trait references, along the bases of parent and item
    /// clauses, and inside function pointer types and deferred obligations.
    pub fn replace_self_trait_instance_id(&mut self, new_id: &TraitInstanceId<R>)
        ensures
            final(self)@ == old(self)@.rewrite_all(self_replacement(new_id@)),
    {
        let v = TraitInstanceIdSelfReplacer { new_id: new_id.clone() };
        walk_ty_mut(&v, self);
        proof {
            let a = rewrites_of(v);
            let b = self_replacement(new_id@);
            assert(a.region =~= b.region);
            assert(a.ty =~= b.ty);
            assert(a.cg =~= b.cg);
            assert(a.instance =~= b.instance);
            assert(a == b);
        }
    }
}

impl<R: Copy> TraitRef<R> {
    /// Replaces every occurrence of the `SelfId` trait instance in the trait
    /// reference by `new_id`.
    pub fn replace_self_trait_instance_id(&mut self, new_id: &TraitInstanceId<R>)
        ensures
            final(self)@ == old(self)@.rewrite_all(self_replacement(new_id@)),
    {
        let v = TraitInstanceIdSelfReplacer { new_id: new_id.clone() };
        walk_trait_ref_mut(&v, self);
        proof {
            let a = rewrites_of(v);
            let b = self_replacement(new_id@);
            assert(a.region =~= b.region);
            assert(a.ty =~= b.ty);
            assert(a.cg =~= b.cg);
            assert(a.instance =~= b.instance);
            assert(a == b);
        }
    }
}

} // verus!
