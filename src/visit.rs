//! The traversal framework. A traversal walks a tree in a fixed order and
//! hands each node it meets to a visitor as an event; the events of a tree
//! are given by the spec functions below, so the visitor's final state is a
//! fold of its step function over them.
use vstd::prelude::*;

use crate::ids::{
    ConstGenericVarId, GlobalDeclId, RegionVarId, TraitClauseId, TraitDeclId, TraitImplId, TypeDeclId,
    TypeVarId,
};
use crate::types::{
    lemma_args_view, lemma_arrow_view, AssumedTy, ConstGeneric, GenericArgs, GenericArgsModel,
    LiteralTy, TraitInstanceId, TraitInstanceModel, TraitRef, TraitRefModel, Ty, TyModel, TypeId,
};
use crate::values::Literal;

verus! {

broadcast use vstd::std_specs::vec::group_vec_axioms;

/// The head of a type node.
#[derive(Debug, Clone, Copy, PartialEq, Eq, Structural)]
pub enum TyTag {
    Adt,
    TypeVar,
    Literal,
    Never,
    Ref,
    RawPtr,
    TraitType,
    Arrow,
}

/// The head of a trait instance node.
#[derive(Debug, Clone, Copy, PartialEq, Eq, Structural)]
pub enum TraitInstanceTag {
    SelfId,
    TraitImpl,
    BuiltinOrAuto,
    Clause,
    ParentClause,
    ItemClause,
    FnPointer,
    Unsolved,
    Unknown,
}

/// What a traversal hands to the visitor.
#[derive(Debug, Clone, Copy, PartialEq, Eq)]
pub enum Visit<R> {
    /// Entering a type node.
    Ty(TyTag),
    /// Entering a trait instance node.
    TraitInstance(TraitInstanceTag),
    Region(R),
    /// A region variable declared by generic parameters.
    RegionVarId(RegionVarId),
    TypeVarId(TypeVarId),
    TypeDeclId(TypeDeclId),
    AssumedTy(AssumedTy),
    LiteralTy(LiteralTy),
    GlobalDeclId(GlobalDeclId),
    ConstGenericVarId(ConstGenericVarId),
    Literal(Literal),
    TraitDeclId(TraitDeclId),
    TraitImplId(TraitImplId),
    TraitClauseId(TraitClauseId),
}

/// A visitor: an abstract state that each event updates.
pub trait TypeVisitor<R>: Sized {
    /// The abstract state of a visitor.
    type State;

    spec fn state(&self) -> Self::State;

    /// The state after handling `e` in state `s`.
    spec fn after(s: Self::State, e: Visit<R>) -> Self::State;

    fn visit(&mut self, e: Visit<R>)
        ensures
            final(self).state() == Self::after(old(self).state(), e),
    ;
}

/// The state after handling the events `es` in order.
pub open spec fn run<R, V: TypeVisitor<R>>(v: V::State, es: Seq<Visit<R>>) -> V::State
    decreases es.len(),
{
    if es.len() == 0 {
        v
    } else {
        V::after(run::<R, V>(v, es.drop_last()), es.last())
    }
}

/// Handling two runs of events one after the other is handling their
/// concatenation.
pub proof fn lemma_run_concat<R, V: TypeVisitor<R>>(v: V::State, a: Seq<Visit<R>>, b: Seq<Visit<R>>)
    ensures
        run::<R, V>(v, a + b) == run::<R, V>(run::<R, V>(v, a), b),
    decreases b.len(),
{
    if b.len() == 0 {
        assert(a + b =~= a);
    } else {
        lemma_run_concat::<R, V>(v, a, b.drop_last());
        assert((a + b).drop_last() =~= a + b.drop_last());
        assert((a + b).last() == b.last());
    }
}

pub open spec fn type_id_events<R>(id: TypeId) -> Seq<Visit<R>> {
    match id {
        TypeId::Adt(d) => seq![Visit::TypeDeclId(d)],
        TypeId::Tuple => seq![],
        TypeId::Assumed(a) => seq![Visit::AssumedTy(a)],
    }
}

pub open spec fn cg_event<R>(c: ConstGeneric) -> Visit<R> {
    match c {
        ConstGeneric::Global(id) => Visit::GlobalDeclId(id),
        ConstGeneric::Var(id) => Visit::ConstGenericVarId(id),
        ConstGeneric::Value(l) => Visit::Literal(l),
    }
}

impl<R> TyModel<R> {
    /// The events of a traversal of the type, in order: the node itself,
    /// then for an ADT its identifier and arguments, for a reference its
    /// region then its pointee, for a trait type its trait reference then
    /// its arguments, for a function type its inputs then its output.
    pub open spec fn events(self) -> Seq<Visit<R>>
        decreases self,
    {
        match self {
            TyModel::Adt(id, args) => seq![Visit::Ty(TyTag::Adt)] + type_id_events(id) + args.events(),
            TyModel::TypeVar(v) => seq![Visit::Ty(TyTag::TypeVar), Visit::TypeVarId(v)],
            TyModel::Literal(l) => seq![Visit::Ty(TyTag::Literal), Visit::LiteralTy(l)],
            TyModel::Never => seq![Visit::Ty(TyTag::Never)],
            TyModel::Ref(r, t, _) => seq![Visit::Ty(TyTag::Ref), Visit::Region(r)] + t.events(),
            TyModel::RawPtr(t, _) => seq![Visit::Ty(TyTag::RawPtr)] + t.events(),
            TyModel::TraitType(tr, args, _) => seq![Visit::Ty(TyTag::TraitType)] + tr.events()
                + args.events(),
            TyModel::Arrow(ins, out) => seq![Visit::Ty(TyTag::Arrow)] + tys_events(ins) + out.events(),
        }
    }
}

/// The events of a list of types, one after the other.
pub open spec fn tys_events<R>(s: Seq<TyModel<R>>) -> Seq<Visit<R>>
    decreases s,
{
    if s.len() == 0 {
        seq![]
    } else {
        tys_events(s.subrange(0, s.len() - 1)) + s[s.len() - 1].events()
    }
}

/// The events of a list of trait references, one after the other.
pub open spec fn trait_refs_events<R>(s: Seq<TraitRefModel<R>>) -> Seq<Visit<R>>
    decreases s,
{
    if s.len() == 0 {
        seq![]
    } else {
        trait_refs_events(s.subrange(0, s.len() - 1)) + s[s.len() - 1].events()
    }
}

impl<R> GenericArgsModel<R> {
    /// Regions, then types, then const generics, then trait references.
    pub open spec fn events(self) -> Seq<Visit<R>>
        decreases self,
    {
        self.regions.map_values(|r: R| Visit::Region(r)) + tys_events(self.types)
            + self.const_generics.map_values(|c: ConstGeneric| cg_event(c))
            + trait_refs_events(self.trait_refs)
    }
}

impl<R> TraitRefModel<R> {
    /// The trait instance, the arguments, then the trait declaration
    /// reference (its identifier, then its arguments).
    pub open spec fn events(self) -> Seq<Visit<R>>
        decreases self,
    {
        self.trait_id.events() + self.generics.events() + seq![
            Visit::TraitDeclId(self.trait_decl_ref.trait_id),
        ] + self.trait_decl_ref.generics.events()
    }
}

impl<R> TraitInstanceModel<R> {
    pub open spec fn events(self) -> Seq<Visit<R>>
        decreases self,
    {
        match self {
            TraitInstanceModel::SelfId => seq![Visit::TraitInstance(TraitInstanceTag::SelfId)],
            TraitInstanceModel::TraitImpl(id) => seq![
                Visit::TraitInstance(TraitInstanceTag::TraitImpl),
                Visit::TraitImplId(id),
            ],
            TraitInstanceModel::BuiltinOrAuto(id) => seq![
                Visit::TraitInstance(TraitInstanceTag::BuiltinOrAuto),
                Visit::TraitDeclId(id),
            ],
            TraitInstanceModel::Clause(id) => seq![
                Visit::TraitInstance(TraitInstanceTag::Clause),
                Visit::TraitClauseId(id),
            ],
            TraitInstanceModel::ParentClause(base, d, c) => seq![
                Visit::TraitInstance(TraitInstanceTag::ParentClause),
            ] + base.events() + seq![Visit::TraitDeclId(d), Visit::TraitClauseId(c)],
            TraitInstanceModel::ItemClause(base, d, _, c) => seq![
                Visit::TraitInstance(TraitInstanceTag::ItemClause),
            ] + base.events() + seq![Visit::TraitDeclId(d), Visit::TraitClauseId(c)],
            TraitInstanceModel::FnPointer(t) => seq![
                Visit::TraitInstance(TraitInstanceTag::FnPointer),
            ] + t.events(),
            TraitInstanceModel::Unsolved(d, args) => seq![
                Visit::TraitInstance(TraitInstanceTag::Unsolved),
                Visit::TraitDeclId(d),
            ] + args.events(),
            TraitInstanceModel::Unknown(_) => seq![Visit::TraitInstance(TraitInstanceTag::Unknown)],
        }
    }
}

/// Handling one event is one step.
pub proof fn lemma_run_single<R, V: TypeVisitor<R>>(v: V::State, e: Visit<R>)
    ensures
        run::<R, V>(v, seq![e]) == V::after(v, e),
{
    let d = seq![e].drop_last();
    assert(d =~= Seq::<Visit<R>>::empty());
    assert(run::<R, V>(v, d) == v);
    assert(seq![e].last() == e);
}

/// Handling one more event after a run.
pub proof fn lemma_run_push<R, V: TypeVisitor<R>>(v: V::State, es: Seq<Visit<R>>, e: Visit<R>)
    ensures
        run::<R, V>(v, es.push(e)) == V::after(run::<R, V>(v, es), e),
{
    assert(es.push(e).drop_last() =~= es);
}

/// The models of a list of types.
pub open spec fn ty_models<R>(v: &Vec<Ty<R>>) -> Seq<TyModel<R>> {
    Seq::new(v@.len(), |i: int| if 0 <= i < v@.len() { v@[i].model() } else { TyModel::Never })
}

/// The models of a list of trait references.
pub open spec fn trait_ref_models<R>(v: &Vec<TraitRef<R>>) -> Seq<TraitRefModel<R>> {
    Seq::new(v@.len(), |i: int| if 0 <= i < v@.len() { v@[i].model() } else { arbitrary() })
}

fn walk_tys<R: Copy, V: TypeVisitor<R>>(v: &mut V, tys: &Vec<Ty<R>>)
    ensures
        final(v).state() == run::<R, V>(old(v).state(), tys_events(ty_models(tys))),
    decreases tys,
{
    let ghost v0 = v.state();
    let ghost ms = ty_models(tys);
    let mut i: usize = 0;
    proof {
        assert(ms.subrange(0, 0) =~= Seq::<TyModel<R>>::empty());
    }
    while i < tys.len()
        invariant
            i <= tys@.len(),
            ms == ty_models(tys),
            v.state() == run::<R, V>(v0, tys_events(ms.subrange(0, i as int))),
        decreases tys@.len() - i,
    {
        walk_ty(v, &tys[i]);
        proof {
            let pre = ms.subrange(0, i as int);
            let next = ms.subrange(0, i + 1);
            assert(next.subrange(0, next.len() - 1) =~= pre);
            assert(next[next.len() - 1] == tys@[i as int]@);
            lemma_run_concat::<R, V>(v0, tys_events(pre), tys@[i as int]@.events());
        }
        i += 1;
    }
    proof {
        assert(ms.subrange(0, i as int) =~= ms);
    }
}

fn walk_trait_refs<R: Copy, V: TypeVisitor<R>>(v: &mut V, trs: &Vec<TraitRef<R>>)
    ensures
        final(v).state() == run::<R, V>(old(v).state(), trait_refs_events(trait_ref_models(trs))),
    decreases trs,
{
    let ghost v0 = v.state();
    let ghost ms = trait_ref_models(trs);
    let mut i: usize = 0;
    proof {
        assert(ms.subrange(0, 0) =~= Seq::<TraitRefModel<R>>::empty());
    }
    while i < trs.len()
        invariant
            i <= trs@.len(),
            ms == trait_ref_models(trs),
            v.state() == run::<R, V>(v0, trait_refs_events(ms.subrange(0, i as int))),
        decreases trs@.len() - i,
    {
        walk_trait_ref(v, &trs[i]);
        proof {
            let pre = ms.subrange(0, i as int);
            let next = ms.subrange(0, i + 1);
            assert(next.subrange(0, next.len() - 1) =~= pre);
            assert(next[next.len() - 1] == trs@[i as int]@);
            lemma_run_concat::<R, V>(v0, trait_refs_events(pre), trs@[i as int]@.events());
        }
        i += 1;
    }
    proof {
        assert(ms.subrange(0, i as int) =~= ms);
    }
}

/// Visits the generic arguments: regions, types, const generics, then trait
/// references.
pub fn walk_generic_args<R: Copy, V: TypeVisitor<R>>(v: &mut V, args: &GenericArgs<R>)
    ensures
        final(v).state() == run::<R, V>(old(v).state(), args@.events()),
    decreases args,
{
    let ghost v0 = v.state();
    proof {
        lemma_args_view(*args);
        assert(args@.types =~= ty_models(&args.types));
        assert(args@.trait_refs =~= trait_ref_models(&args.trait_refs));
    }
    let ghost rs = args.regions@.map_values(|r: R| Visit::Region(r));
    let mut i: usize = 0;
    proof {
        assert(rs.subrange(0, 0) =~= Seq::<Visit<R>>::empty());
    }
    while i < args.regions.len()
        invariant
            i <= args.regions@.len(),
            rs == args.regions@.map_values(|r: R| Visit::Region(r)),
            v.state() == run::<R, V>(v0, rs.subrange(0, i as int)),
        decreases args.regions@.len() - i,
    {
        v.visit(Visit::Region(args.regions[i]));
        proof {
            assert(rs.subrange(0, i + 1) =~= rs.subrange(0, i as int).push(Visit::Region(args.regions@[i as int])));
            lemma_run_push::<R, V>(v0, rs.subrange(0, i as int), Visit::Region(args.regions@[i as int]));
        }
        i += 1;
    }
    proof {
        assert(rs.subrange(0, i as int) =~= rs);
    }
    let ghost v1 = v.state();
    walk_tys(v, &args.types);
    let ghost v2 = v.state();
    let ghost cs = args.const_generics@.map_values(|c: ConstGeneric| cg_event::<R>(c));
    let mut j: usize = 0;
    proof {
        assert(cs.subrange(0, 0) =~= Seq::<Visit<R>>::empty());
    }
    while j < args.const_generics.len()
        invariant
            j <= args.const_generics@.len(),
            cs == args.const_generics@.map_values(|c: ConstGeneric| cg_event::<R>(c)),
            v.state() == run::<R, V>(v2, cs.subrange(0, j as int)),
        decreases args.const_generics@.len() - j,
    {
        let e = match args.const_generics[j] {
            ConstGeneric::Global(id) => Visit::GlobalDeclId(id),
            ConstGeneric::Var(id) => Visit::ConstGenericVarId(id),
            ConstGeneric::Value(l) => Visit::Literal(l),
        };
        v.visit(e);
        proof {
            assert(cs.subrange(0, j + 1) =~= cs.subrange(0, j as int).push(e));
            lemma_run_push::<R, V>(v2, cs.subrange(0, j as int), e);
        }
        j += 1;
    }
    proof {
        assert(cs.subrange(0, j as int) =~= cs);
    }
    let ghost v3 = v.state();
    walk_trait_refs(v, &args.trait_refs);
    proof {
        let a = rs;
        let b = tys_events(args@.types);
        let c = cs;
        let d = trait_refs_events(args@.trait_refs);
        lemma_run_concat::<R, V>(v0, a, b);
        lemma_run_concat::<R, V>(v0, a + b, c);
        lemma_run_concat::<R, V>(v0, a + b + c, d);
        assert(args@.regions.map_values(|r: R| Visit::Region(r)) =~= a);
        assert(args@.const_generics.map_values(|c: ConstGeneric| cg_event::<R>(c)) =~= c);
    }
}

/// Visits a trait reference: its trait instance, its arguments, then its
/// trait declaration reference.
pub fn walk_trait_ref<R: Copy, V: TypeVisitor<R>>(v: &mut V, tr: &TraitRef<R>)
    ensures
        final(v).state() == run::<R, V>(old(v).state(), tr@.events()),
    decreases tr,
{
    let ghost v0 = v.state();
    walk_trait_instance_id(v, &tr.trait_id);
    walk_generic_args(v, &tr.generics);
    let ghost v2 = v.state();
    v.visit(Visit::TraitDeclId(tr.trait_decl_ref.trait_id));
    walk_generic_args(v, &tr.trait_decl_ref.generics);
    proof {
        let a = tr.trait_id@.events();
        let b = tr.generics@.events();
        let c = seq![Visit::TraitDeclId(tr.trait_decl_ref.trait_id)];
        let d = tr.trait_decl_ref.generics@.events();
        lemma_run_single::<R, V>(v2, Visit::TraitDeclId(tr.trait_decl_ref.trait_id));
        lemma_run_concat::<R, V>(v0, a, b);
        lemma_run_concat::<R, V>(v0, a + b, c);
        lemma_run_concat::<R, V>(v0, a + b + c, d);
    }
}

/// Visits a trait instance.
pub fn walk_trait_instance_id<R: Copy, V: TypeVisitor<R>>(v: &mut V, id: &TraitInstanceId<R>)
    ensures
        final(v).state() == run::<R, V>(old(v).state(), id@.events()),
    decreases id,
{
    let ghost v0 = v.state();
    match id {
        TraitInstanceId::SelfId => {
            v.visit(Visit::TraitInstance(TraitInstanceTag::SelfId));
            proof {
                lemma_run_single::<R, V>(v0, Visit::TraitInstance(TraitInstanceTag::SelfId));
            }
        },
        TraitInstanceId::TraitImpl(i) => {
            v.visit(Visit::TraitInstance(TraitInstanceTag::TraitImpl));
            v.visit(Visit::TraitImplId(*i));
            proof {
                lemma_run_push::<R, V>(v0, seq![Visit::TraitInstance(TraitInstanceTag::TraitImpl)], Visit::TraitImplId(*i));
                lemma_run_single::<R, V>(v0, Visit::TraitInstance(TraitInstanceTag::TraitImpl));
                assert(seq![Visit::TraitInstance(TraitInstanceTag::TraitImpl)].push(Visit::TraitImplId(*i))
                    =~= id@.events());
            }
        },
        TraitInstanceId::BuiltinOrAuto(d) => {
            v.visit(Visit::TraitInstance(TraitInstanceTag::BuiltinOrAuto));
            v.visit(Visit::TraitDeclId(*d));
            proof {
                lemma_run_push::<R, V>(v0, seq![Visit::TraitInstance(TraitInstanceTag::BuiltinOrAuto)], Visit::TraitDeclId(*d));
                lemma_run_single::<R, V>(v0, Visit::TraitInstance(TraitInstanceTag::BuiltinOrAuto));
                assert(seq![Visit::TraitInstance(TraitInstanceTag::BuiltinOrAuto)].push(Visit::TraitDeclId(*d))
                    =~= id@.events());
            }
        },
        TraitInstanceId::Clause(c) => {
            v.visit(Visit::TraitInstance(TraitInstanceTag::Clause));
            v.visit(Visit::TraitClauseId(*c));
            proof {
                lemma_run_push::<R, V>(v0, seq![Visit::TraitInstance(TraitInstanceTag::Clause)], Visit::TraitClauseId(*c));
                lemma_run_single::<R, V>(v0, Visit::TraitInstance(TraitInstanceTag::Clause));
                assert(seq![Visit::TraitInstance(TraitInstanceTag::Clause)].push(Visit::TraitClauseId(*c))
                    =~= id@.events());
            }
        },
        TraitInstanceId::ParentClause(base, d, c) => {
            let tag = Visit::TraitInstance(TraitInstanceTag::ParentClause);
            v.visit(tag);
            walk_trait_instance_id(v, base);
            let ghost v2 = v.state();
            v.visit(Visit::TraitDeclId(*d));
            v.visit(Visit::TraitClauseId(*c));
            proof {
                let tail = seq![Visit::TraitDeclId(*d), Visit::TraitClauseId(*c)];
                lemma_run_single::<R, V>(v0, tag);
                lemma_run_single::<R, V>(v2, Visit::TraitDeclId(*d));
                lemma_run_push::<R, V>(v2, seq![Visit::TraitDeclId(*d)], Visit::TraitClauseId(*c));
                assert(seq![Visit::TraitDeclId(*d)].push(Visit::TraitClauseId(*c)) =~= tail);
                lemma_run_concat::<R, V>(v0, seq![tag], base@.events());
                lemma_run_concat::<R, V>(v0, seq![tag] + base@.events(), tail);
            }
        },
        TraitInstanceId::ItemClause(base, d, _, c) => {
            let tag = Visit::TraitInstance(TraitInstanceTag::ItemClause);
            v.visit(tag);
            walk_trait_instance_id(v, base);
            let ghost v2 = v.state();
            v.visit(Visit::TraitDeclId(*d));
            v.visit(Visit::TraitClauseId(*c));
            proof {
                let tail = seq![Visit::TraitDeclId(*d), Visit::TraitClauseId(*c)];
                lemma_run_single::<R, V>(v0, tag);
                lemma_run_single::<R, V>(v2, Visit::TraitDeclId(*d));
                lemma_run_push::<R, V>(v2, seq![Visit::TraitDeclId(*d)], Visit::TraitClauseId(*c));
                assert(seq![Visit::TraitDeclId(*d)].push(Visit::TraitClauseId(*c)) =~= tail);
                lemma_run_concat::<R, V>(v0, seq![tag], base@.events());
                lemma_run_concat::<R, V>(v0, seq![tag] + base@.events(), tail);
            }
        },
        TraitInstanceId::FnPointer(t) => {
            let tag = Visit::TraitInstance(TraitInstanceTag::FnPointer);
            v.visit(tag);
            walk_ty(v, t);
            proof {
                lemma_run_single::<R, V>(v0, tag);
                lemma_run_concat::<R, V>(v0, seq![tag], (**t)@.events());
            }
        },
        TraitInstanceId::Unsolved(d, args) => {
            let tag = Visit::TraitInstance(TraitInstanceTag::Unsolved);
            v.visit(tag);
            v.visit(Visit::TraitDeclId(*d));
            walk_generic_args(v, args);
            proof {
                let head = seq![tag, Visit::TraitDeclId(*d)];
                lemma_run_single::<R, V>(v0, tag);
                lemma_run_push::<R, V>(v0, seq![tag], Visit::TraitDeclId(*d));
                assert(seq![tag].push(Visit::TraitDeclId(*d)) =~= head);
                lemma_run_concat::<R, V>(v0, head, args@.events());
            }
        },
        TraitInstanceId::Unknown(_) => {
            v.visit(Visit::TraitInstance(TraitInstanceTag::Unknown));
            proof {
                lemma_run_single::<R, V>(v0, Visit::TraitInstance(TraitInstanceTag::Unknown));
            }
        },
    }
}

/// Visits a type: the node, then its parts in the order `events` gives.
pub fn walk_ty<R: Copy, V: TypeVisitor<R>>(v: &mut V, t: &Ty<R>)
    ensures
        final(v).state() == run::<R, V>(old(v).state(), t@.events()),
    decreases t,
{
    let ghost v0 = v.state();
    match t {
        Ty::Adt(id, args) => {
            let tag = Visit::Ty(TyTag::Adt);
            v.visit(tag);
            let ghost v1 = v.state();
            match id {
                TypeId::Adt(d) => {
                    v.visit(Visit::TypeDeclId(*d));
                    proof {
                        lemma_run_single::<R, V>(v1, Visit::TypeDeclId(*d));
                    }
                },
                TypeId::Tuple => {},
                TypeId::Assumed(a) => {
                    v.visit(Visit::AssumedTy(*a));
                    proof {
                        lemma_run_single::<R, V>(v1, Visit::AssumedTy(*a));
                    }
                },
            }
            walk_generic_args(v, args);
            proof {
                lemma_run_single::<R, V>(v0, tag);
                lemma_run_concat::<R, V>(v0, seq![tag], type_id_events(*id));
                lemma_run_concat::<R, V>(v0, seq![tag] + type_id_events(*id), args@.events());
            }
        },
        Ty::TypeVar(x) => {
            let tag = Visit::Ty(TyTag::TypeVar);
            v.visit(tag);
            v.visit(Visit::TypeVarId(*x));
            proof {
                lemma_run_single::<R, V>(v0, tag);
                lemma_run_push::<R, V>(v0, seq![tag], Visit::TypeVarId(*x));
                assert(seq![tag].push(Visit::TypeVarId(*x)) =~= t@.events());
            }
        },
        Ty::Literal(l) => {
            let tag = Visit::Ty(TyTag::Literal);
            v.visit(tag);
            v.visit(Visit::LiteralTy(*l));
            proof {
                lemma_run_single::<R, V>(v0, tag);
                lemma_run_push::<R, V>(v0, seq![tag], Visit::LiteralTy(*l));
                assert(seq![tag].push(Visit::LiteralTy(*l)) =~= t@.events());
            }
        },
        Ty::Never => {
            v.visit(Visit::Ty(TyTag::Never));
            proof {
                lemma_run_single::<R, V>(v0, Visit::Ty(TyTag::Never));
            }
        },
        Ty::Ref(r, inner, _) => {
            let tag = Visit::Ty(TyTag::Ref);
            v.visit(tag);
            v.visit(Visit::Region(*r));
            walk_ty(v, inner);
            proof {
                let head = seq![tag, Visit::Region(*r)];
                lemma_run_single::<R, V>(v0, tag);
                lemma_run_push::<R, V>(v0, seq![tag], Visit::Region(*r));
                assert(seq![tag].push(Visit::Region(*r)) =~= head);
                lemma_run_concat::<R, V>(v0, head, (**inner)@.events());
            }
        },
        Ty::RawPtr(inner, _) => {
            let tag = Visit::Ty(TyTag::RawPtr);
            v.visit(tag);
            walk_ty(v, inner);
            proof {
                lemma_run_single::<R, V>(v0, tag);
                lemma_run_concat::<R, V>(v0, seq![tag], (**inner)@.events());
            }
        },
        Ty::TraitType(tr, args, _) => {
            let tag = Visit::Ty(TyTag::TraitType);
            v.visit(tag);
            walk_trait_ref(v, tr);
            walk_generic_args(v, args);
            proof {
                lemma_run_single::<R, V>(v0, tag);
                lemma_run_concat::<R, V>(v0, seq![tag], tr@.events());
                lemma_run_concat::<R, V>(v0, seq![tag] + tr@.events(), args@.events());
            }
        },
        Ty::Arrow(ins, out) => {
            let tag = Visit::Ty(TyTag::Arrow);
            v.visit(tag);
            walk_tys(v, ins);
            walk_ty(v, out);
            proof {
                lemma_arrow_view(*t);
                assert(t@->Arrow_0 =~= ty_models(ins));
                lemma_run_single::<R, V>(v0, tag);
                lemma_run_concat::<R, V>(v0, seq![tag], tys_events(ty_models(ins)));
                lemma_run_concat::<R, V>(v0, seq![tag] + tys_events(ty_models(ins)), (**out)@.events());
            }
        },
    }
}

/// A visitor that records every event it is handed.
pub struct TraceRecorder<R> {
    pub trace: Vec<Visit<R>>,
}

impl<R> TraceRecorder<R> {
    pub fn new() -> (r: Self)
        ensures
            r.trace@ == Seq::<Visit<R>>::empty(),
    {
        TraceRecorder { trace: Vec::new() }
    }
}

impl<R> TypeVisitor<R> for TraceRecorder<R> {
    type State = Seq<Visit<R>>;

    open spec fn state(&self) -> Seq<Visit<R>> {
        self.trace@
    }

    open spec fn after(s: Seq<Visit<R>>, e: Visit<R>) -> Seq<Visit<R>> {
        s.push(e)
    }

    fn visit(&mut self, e: Visit<R>) {
        self.trace.push(e);
    }
}

/// A recorder that starts empty ends with exactly the events of the tree.
pub proof fn lemma_recorded_trace<R>(es: Seq<Visit<R>>)
    ensures
        run::<R, TraceRecorder<R>>(Seq::empty(), es) == es,
    decreases es.len(),
{
    if es.len() > 0 {
        lemma_recorded_trace(es.drop_last());
        assert(es.drop_last().push(es.last()) =~= es);
    }
}

/// Traversals are deterministic: two traversals of equal trees, started in
/// equal states, hand the same events in the same order and end in equal
/// states.
pub proof fn lemma_traversal_deterministic<R, V: TypeVisitor<R>>(
    t1: TyModel<R>,
    t2: TyModel<R>,
    s1: V::State,
    s2: V::State,
)
    requires
        t1 == t2,
        s1 == s2,
    ensures
        t1.events() == t2.events(),
        run::<R, V>(s1, t1.events()) == run::<R, V>(s2, t2.events()),
{
}

/// Records the events of a traversal of `t`.
pub fn trace_of<R: Copy>(t: &Ty<R>) -> (r: Vec<Visit<R>>)
    ensures
        r@ == t@.events(),
{
    let mut rec = TraceRecorder::new();
    walk_ty(&mut rec, t);
    proof {
        lemma_recorded_trace(t@.events());
    }
    rec.trace
}

} // verus!
