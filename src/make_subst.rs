//! Building substitutions from parallel lists of variables and values.
use vstd::prelude::*;

use crate::collections::{
    const_generic_subst_contents, const_generic_subst_insert, const_generic_subst_new,
    region_subst_contents, region_subst_insert, region_subst_new, type_subst_contents,
    type_subst_insert, type_subst_new, ConstGenericSubst, RegionSubst, TypeSubst,
};
use crate::ids::{ConstGenericVarId, RegionVarId, TypeVarId};
use crate::types::{ConstGeneric, RTy, Region, Ty, TyModel};

verus! {

/// The map binding `keys[i]` to `vals[i]`, a later binding of a key
/// overriding an earlier one.
pub open spec fn zip_map<K, V>(keys: Seq<K>, vals: Seq<V>) -> Map<K, V>
    decreases keys.len(),
{
    if keys.len() == 0 || vals.len() == 0 {
        Map::empty()
    } else {
        zip_map(keys.drop_last(), vals.drop_last()).insert(keys.last(), vals.last())
    }
}

/// The models of the values of a map of types.
pub open spec fn map_models<K, R>(m: Map<K, Ty<R>>) -> Map<K, TyModel<R>> {
    m.map_values(|t: Ty<R>| t.model())
}

/// The models of a list of types.
pub open spec fn seq_models<R>(s: Seq<Ty<R>>) -> Seq<TyModel<R>> {
    s.map_values(|t: Ty<R>| t.model())
}

/// Binds each type variable to the type at the same position.
pub fn make_type_subst(params: &Vec<TypeVarId>, types: &Vec<RTy>) -> (r: TypeSubst)
    requires
        params@.len() == types@.len(),
    ensures
        map_models(type_subst_contents(r)) == zip_map(params@, seq_models(types@)),
{
    let mut m = type_subst_new();
    let mut i: usize = 0;
    proof {
        assert(map_models(type_subst_contents(m)) =~= Map::empty());
    }
    while i < params.len()
        invariant
            i <= params@.len(),
            params@.len() == types@.len(),
            map_models(type_subst_contents(m)) == zip_map(
                params@.subrange(0, i as int),
                seq_models(types@).subrange(0, i as int),
            ),
        decreases params@.len() - i,
    {
        let ghost before = map_models(type_subst_contents(m));
        let v = types[i].clone();
        let _ = type_subst_insert(&mut m, params[i], v);
        proof {
            let ks = params@.subrange(0, i + 1);
            let vs = seq_models(types@).subrange(0, i + 1);
            assert(ks.drop_last() =~= params@.subrange(0, i as int));
            assert(vs.drop_last() =~= seq_models(types@).subrange(0, i as int));
            assert(map_models(type_subst_contents(m)) =~= before.insert(params@[i as int], types@[i as int]@));
        }
        i += 1;
    }
    proof {
        assert(params@.subrange(0, i as int) =~= params@);
        assert(seq_models(types@).subrange(0, i as int) =~= seq_models(types@));
    }
    m
}

/// Binds each region variable to the region at the same position.
pub fn make_region_subst(keys: &Vec<RegionVarId>, values: &Vec<Region>) -> (r: RegionSubst)
    requires
        keys@.len() == values@.len(),
    ensures
        region_subst_contents(r) == zip_map(keys@, values@),
{
    let mut m = region_subst_new();
    let mut i: usize = 0;
    while i < keys.len()
        invariant
            i <= keys@.len(),
            keys@.len() == values@.len(),
            region_subst_contents(m) == zip_map(keys@.subrange(0, i as int), values@.subrange(0, i as int)),
        decreases keys@.len() - i,
    {
        let _ = region_subst_insert(&mut m, keys[i], values[i]);
        proof {
            let ks = keys@.subrange(0, i + 1);
            let vs = values@.subrange(0, i + 1);
            assert(ks.drop_last() =~= keys@.subrange(0, i as int));
            assert(vs.drop_last() =~= values@.subrange(0, i as int));
        }
        i += 1;
    }
    proof {
        assert(keys@.subrange(0, i as int) =~= keys@);
        assert(values@.subrange(0, i as int) =~= values@);
    }
    m
}

/// Binds each const generic variable to the const generic at the same
/// position.
pub fn make_cg_subst(keys: &Vec<ConstGenericVarId>, values: &Vec<ConstGeneric>) -> (r: ConstGenericSubst)
    requires
        keys@.len() == values@.len(),
    ensures
        const_generic_subst_contents(r) == zip_map(keys@, values@),
{
    let mut m = const_generic_subst_new();
    let mut i: usize = 0;
    proof {
        assert(const_generic_subst_contents(m) =~= zip_map(keys@.subrange(0, 0), values@.subrange(0, 0)));
    }
    while i < keys.len()
        invariant
            i <= keys@.len(),
            keys@.len() == values@.len(),
            const_generic_subst_contents(m) == zip_map(keys@.subrange(0, i as int), values@.subrange(0, i as int)),
        decreases keys@.len() - i,
    {
        let _ = const_generic_subst_insert(&mut m, keys[i], values[i]);
        proof {
            let ks = keys@.subrange(0, i + 1);
            let vs = values@.subrange(0, i + 1);
            assert(ks.drop_last() =~= keys@.subrange(0, i as int));
            assert(vs.drop_last() =~= values@.subrange(0, i as int));
        }
        i += 1;
    }
    proof {
        assert(keys@.subrange(0, i as int) =~= keys@);
        assert(values@.subrange(0, i as int) =~= values@);
    }
    m
}

} // verus!
