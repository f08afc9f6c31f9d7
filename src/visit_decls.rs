//! Traversal of declaration-level items: generic parameters, trait clauses
//! and predicates. Their types are signature-level, so the visitors here
//! see `Region` slots.
use vstd::prelude::*;

use crate::decls::{GenericParams, Predicates, RegionOutlives, TraitClause, TypeOutlives, RTraitTypeConstraint};
use crate::types::Region;
use crate::visit::{
    lemma_run_concat, lemma_run_push, lemma_run_single, run, walk_generic_args, walk_trait_ref,
    walk_ty, TypeVisitor, Visit,
};

verus! {

broadcast use vstd::std_specs::vec::group_vec_axioms;

impl TraitClause {
    /// The clause identifier, the trait identifier, then the arguments.
    pub open spec fn events(&self) -> Seq<Visit<Region>> {
        seq![Visit::TraitClauseId(self.clause_id), Visit::TraitDeclId(self.trait_id)]
            + self.generics@.events()
    }
}

/// Events of a list, each item's events after those of the items before it.
pub open spec fn clauses_events(s: Seq<TraitClause>) -> Seq<Visit<Region>>
    decreases s.len(),
{
    if s.len() == 0 {
        seq![]
    } else {
        clauses_events(s.drop_last()) + s.last().events()
    }
}

pub open spec fn region_outlives_events(s: Seq<RegionOutlives>) -> Seq<Visit<Region>>
    decreases s.len(),
{
    if s.len() == 0 {
        seq![]
    } else {
        region_outlives_events(s.drop_last()) + seq![Visit::Region(s.last().0), Visit::Region(s.last().1)]
    }
}

pub open spec fn type_outlives_events(s: Seq<TypeOutlives>) -> Seq<Visit<Region>>
    decreases s.len(),
{
    if s.len() == 0 {
        seq![]
    } else {
        type_outlives_events(s.drop_last()) + s.last().0@.events() + seq![Visit::Region(s.last().1)]
    }
}

pub open spec fn constraint_events(c: RTraitTypeConstraint) -> Seq<Visit<Region>> {
    c.trait_ref@.events() + c.generics@.events() + c.ty@.events()
}

pub open spec fn constraints_events(s: Seq<RTraitTypeConstraint>) -> Seq<Visit<Region>>
    decreases s.len(),
{
    if s.len() == 0 {
        seq![]
    } else {
        constraints_events(s.drop_last()) + constraint_events(s.last())
    }
}

impl GenericParams {
    /// The declared region, type and const generic variables, then the
    /// trait clauses.
    pub open spec fn events(&self) -> Seq<Visit<Region>> {
        self.regions@.map_values(|r: crate::decls::RegionVar| Visit::<Region>::RegionVarId(r.index))
            + self.types@.map_values(|t: crate::decls::TypeVar| Visit::<Region>::TypeVarId(t.index))
            + self.const_generics@.map_values(
            |c: crate::decls::ConstGenericVar| Visit::<Region>::ConstGenericVarId(c.index),
        ) + clauses_events(self.trait_clauses@)
    }
}

impl Predicates {
    /// Regions outliving regions, types outliving regions, then the
    /// constraints on associated types.
    pub open spec fn events(&self) -> Seq<Visit<Region>> {
        region_outlives_events(self.regions_outlive@) + type_outlives_events(self.types_outlive@)
            + constraints_events(self.trait_type_constraints@)
    }
}

/// Visits a trait clause.
pub fn walk_trait_clause<V: TypeVisitor<Region>>(v: &mut V, c: &TraitClause)
    ensures
        final(v).state() == run::<Region, V>(old(v).state(), c.events()),
{
    let ghost v0 = v.state();
    v.visit(Visit::TraitClauseId(c.clause_id));
    v.visit(Visit::TraitDeclId(c.trait_id));
    walk_generic_args(v, &c.generics);
    proof {
        let head = seq![Visit::TraitClauseId(c.clause_id), Visit::TraitDeclId(c.trait_id)];
        lemma_run_single::<Region, V>(v0, Visit::TraitClauseId(c.clause_id));
        lemma_run_push::<Region, V>(v0, seq![Visit::TraitClauseId(c.clause_id)], Visit::TraitDeclId(c.trait_id));
        assert(seq![Visit::TraitClauseId(c.clause_id)].push(Visit::TraitDeclId(c.trait_id)) =~= head);
        lemma_run_concat::<Region, V>(v0, head, c.generics@.events());
    }
}

/// Visits generic parameters.
pub fn walk_generic_params<V: TypeVisitor<Region>>(v: &mut V, g: &GenericParams)
    ensures
        final(v).state() == run::<Region, V>(old(v).state(), g.events()),
{
    let ghost v0 = v.state();
    let ghost a = g.regions@.map_values(|r: crate::decls::RegionVar| Visit::<Region>::RegionVarId(r.index));
    let mut i: usize = 0;
    proof {
        assert(a.subrange(0, 0) =~= Seq::<Visit<Region>>::empty());
    }
    while i < g.regions.len()
        invariant
            i <= g.regions@.len(),
            a == g.regions@.map_values(|r: crate::decls::RegionVar| Visit::<Region>::RegionVarId(r.index)),
            v.state() == run::<Region, V>(v0, a.subrange(0, i as int)),
        decreases g.regions@.len() - i,
    {
        let e = Visit::RegionVarId(g.regions[i].index);
        v.visit(e);
        proof {
            assert(a.subrange(0, i + 1) =~= a.subrange(0, i as int).push(e));
            lemma_run_push::<Region, V>(v0, a.subrange(0, i as int), e);
        }
        i += 1;
    }
    proof {
        assert(a.subrange(0, i as int) =~= a);
    }
    let ghost v1 = v.state();
    let ghost b = g.types@.map_values(|t: crate::decls::TypeVar| Visit::<Region>::TypeVarId(t.index));
    let mut j: usize = 0;
    proof {
        assert(b.subrange(0, 0) =~= Seq::<Visit<Region>>::empty());
    }
    while j < g.types.len()
        invariant
            j <= g.types@.len(),
            b == g.types@.map_values(|t: crate::decls::TypeVar| Visit::<Region>::TypeVarId(t.index)),
            v.state() == run::<Region, V>(v1, b.subrange(0, j as int)),
        decreases g.types@.len() - j,
    {
        let e = Visit::TypeVarId(g.types[j].index);
        v.visit(e);
        proof {
            assert(b.subrange(0, j + 1) =~= b.subrange(0, j as int).push(e));
            lemma_run_push::<Region, V>(v1, b.subrange(0, j as int), e);
        }
        j += 1;
    }
    proof {
        assert(b.subrange(0, j as int) =~= b);
    }
    let ghost v2 = v.state();
    let ghost c = g.const_generics@.map_values(
        |x: crate::decls::ConstGenericVar| Visit::<Region>::ConstGenericVarId(x.index),
    );
    let mut k: usize = 0;
    proof {
        assert(c.subrange(0, 0) =~= Seq::<Visit<Region>>::empty());
    }
    while k < g.const_generics.len()
        invariant
            k <= g.const_generics@.len(),
            c == g.const_generics@.map_values(
                |x: crate::decls::ConstGenericVar| Visit::<Region>::ConstGenericVarId(x.index),
            ),
            v.state() == run::<Region, V>(v2, c.subrange(0, k as int)),
        decreases g.const_generics@.len() - k,
    {
        let e = Visit::ConstGenericVarId(g.const_generics[k].index);
        v.visit(e);
        proof {
            assert(c.subrange(0, k + 1) =~= c.subrange(0, k as int).push(e));
            lemma_run_push::<Region, V>(v2, c.subrange(0, k as int), e);
        }
        k += 1;
    }
    proof {
        assert(c.subrange(0, k as int) =~= c);
    }
    let ghost v3 = v.state();
    let ghost cl = g.trait_clauses@;
    let mut m: usize = 0;
    proof {
        assert(cl.subrange(0, 0) =~= Seq::<TraitClause>::empty());
    }
    while m < g.trait_clauses.len()
        invariant
            m <= g.trait_clauses@.len(),
            cl == g.trait_clauses@,
            v.state() == run::<Region, V>(v3, clauses_events(cl.subrange(0, m as int))),
        decreases g.trait_clauses@.len() - m,
    {
        walk_trait_clause(v, &g.trait_clauses[m]);
        proof {
            let pre = cl.subrange(0, m as int);
            assert(cl.subrange(0, m + 1).drop_last() =~= pre);
            assert(cl.subrange(0, m + 1).last() == cl[m as int]);
            lemma_run_concat::<Region, V>(v3, clauses_events(pre), cl[m as int].events());
        }
        m += 1;
    }
    proof {
        assert(cl.subrange(0, m as int) =~= cl);
        let d = clauses_events(cl);
        lemma_run_concat::<Region, V>(v0, a, b);
        lemma_run_concat::<Region, V>(v0, a + b, c);
        lemma_run_concat::<Region, V>(v0, a + b + c, d);
    }
}

/// Visits predicates.
pub fn walk_predicates<V: TypeVisitor<Region>>(v: &mut V, p: &Predicates)
    ensures
        final(v).state() == run::<Region, V>(old(v).state(), p.events()),
{
    let ghost v0 = v.state();
    let ghost ro = p.regions_outlive@;
    let mut i: usize = 0;
    proof {
        assert(ro.subrange(0, 0) =~= Seq::<RegionOutlives>::empty());
    }
    while i < p.regions_outlive.len()
        invariant
            i <= p.regions_outlive@.len(),
            ro == p.regions_outlive@,
            v.state() == run::<Region, V>(v0, region_outlives_events(ro.subrange(0, i as int))),
        decreases p.regions_outlive@.len() - i,
    {
        let ghost vi = v.state();
        let e0 = Visit::Region(p.regions_outlive[i].0);
        let e1 = Visit::Region(p.regions_outlive[i].1);
        v.visit(e0);
        v.visit(e1);
        proof {
            let pre = ro.subrange(0, i as int);
            assert(ro.subrange(0, i + 1).drop_last() =~= pre);
            assert(ro.subrange(0, i + 1).last() == ro[i as int]);
            lemma_run_single::<Region, V>(vi, e0);
            lemma_run_push::<Region, V>(vi, seq![e0], e1);
            assert(seq![e0].push(e1) =~= seq![e0, e1]);
            lemma_run_concat::<Region, V>(v0, region_outlives_events(pre), seq![e0, e1]);
        }
        i += 1;
    }
    proof {
        assert(ro.subrange(0, i as int) =~= ro);
    }
    let ghost v1 = v.state();
    let ghost to = p.types_outlive@;
    let mut j: usize = 0;
    proof {
        assert(to.subrange(0, 0) =~= Seq::<TypeOutlives>::empty());
    }
    while j < p.types_outlive.len()
        invariant
            j <= p.types_outlive@.len(),
            to == p.types_outlive@,
            v.state() == run::<Region, V>(v1, type_outlives_events(to.subrange(0, j as int))),
        decreases p.types_outlive@.len() - j,
    {
        let ghost vj = v.state();
        walk_ty(v, &p.types_outlive[j].0);
        let ghost vk = v.state();
        let e = Visit::Region(p.types_outlive[j].1);
        v.visit(e);
        proof {
            let pre = to.subrange(0, j as int);
            let item = to[j as int];
            assert(to.subrange(0, j + 1).drop_last() =~= pre);
            assert(to.subrange(0, j + 1).last() == item);
            lemma_run_single::<Region, V>(vk, e);
            lemma_run_concat::<Region, V>(vj, item.0@.events(), seq![e]);
            lemma_run_concat::<Region, V>(v1, type_outlives_events(pre), item.0@.events() + seq![e]);
            assert(type_outlives_events(pre) + item.0@.events() + seq![e]
                =~= type_outlives_events(pre) + (item.0@.events() + seq![e]));
        }
        j += 1;
    }
    proof {
        assert(to.subrange(0, j as int) =~= to);
    }
    let ghost v2 = v.state();
    let ghost cs = p.trait_type_constraints@;
    let mut k: usize = 0;
    proof {
        assert(cs.subrange(0, 0) =~= Seq::<RTraitTypeConstraint>::empty());
    }
    while k < p.trait_type_constraints.len()
        invariant
            k <= p.trait_type_constraints@.len(),
            cs == p.trait_type_constraints@,
            v.state() == run::<Region, V>(v2, constraints_events(cs.subrange(0, k as int))),
        decreases p.trait_type_constraints@.len() - k,
    {
        let ghost vk = v.state();
        let c = &p.trait_type_constraints[k];
        walk_trait_ref(v, &c.trait_ref);
        walk_generic_args(v, &c.generics);
        walk_ty(v, &c.ty);
        proof {
            let pre = cs.subrange(0, k as int);
            assert(cs.subrange(0, k + 1).drop_last() =~= pre);
            assert(cs.subrange(0, k + 1).last() == cs[k as int]);
            let x = c.trait_ref@.events();
            let y = c.generics@.events();
            let z = c.ty@.events();
            lemma_run_concat::<Region, V>(vk, x, y);
            lemma_run_concat::<Region, V>(vk, x + y, z);
            lemma_run_concat::<Region, V>(v2, constraints_events(pre), constraint_events(*c));
        }
        k += 1;
    }
    proof {
        assert(cs.subrange(0, k as int) =~= cs);
        let a = region_outlives_events(ro);
        let b = type_outlives_events(to);
        let c = constraints_events(cs);
        lemma_run_concat::<Region, V>(v0, a, b);
        lemma_run_concat::<Region, V>(v0, a + b, c);
    }
}

} // verus!
