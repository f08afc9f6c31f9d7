//! The persistent maps and sets of the `im` crate, as used by substitution
//! and unification, with what their operations do stated over the contents.
use vstd::prelude::*;

use crate::ids::{ConstGenericVarId, RegionVarId, TypeVarId};
use crate::types::{ConstGeneric, ErasedRegion, ETy, RTy, Region};

verus! {

#[verifier::external_type_specification]
#[verifier::external_body]
#[verifier::reject_recursive_types(K)]
#[verifier::reject_recursive_types(V)]
#[verifier::reject_recursive_types(S)]
pub struct ExImHashMap<K, V, S>(im::HashMap<K, V, S>);

#[verifier::external_type_specification]
#[verifier::external_body]
#[verifier::reject_recursive_types(A)]
pub struct ExImOrdSet<A>(im::OrdSet<A>);

/// A mapping from type variables to signature-level types.
pub type TypeSubst = im::HashMap<TypeVarId, RTy>;

/// A mapping from type variables to body-level types.
pub type ErasedTypeSubst = im::HashMap<TypeVarId, ETy>;

/// A mapping from const generic variables to const generics.
pub type ConstGenericSubst = im::HashMap<ConstGenericVarId, ConstGeneric>;

/// A mapping from region variables to regions.
pub type RegionSubst = im::HashMap<RegionVarId, Region>;

/// A mapping between erased regions.
pub type ErasedRegionMap = im::HashMap<ErasedRegion, ErasedRegion>;

/// A set of region variable indices.
pub type RegionIndexSet = im::OrdSet<usize>;

/// The entries of a `TypeSubst`.
pub uninterp spec fn type_subst_contents(m: im::HashMap<TypeVarId, RTy>) -> Map<TypeVarId, RTy>;

/// The entries of an `ErasedTypeSubst`.
pub uninterp spec fn erased_type_subst_contents(m: im::HashMap<TypeVarId, ETy>) -> Map<TypeVarId, ETy>;

/// The entries of a `ConstGenericSubst`.
pub uninterp spec fn const_generic_subst_contents(
    m: im::HashMap<ConstGenericVarId, ConstGeneric>,
) -> Map<ConstGenericVarId, ConstGeneric>;

/// The entries of a `RegionSubst`.
pub uninterp spec fn region_subst_contents(m: im::HashMap<RegionVarId, Region>) -> Map<RegionVarId, Region>;

/// The entries of an `ErasedRegionMap`.
pub uninterp spec fn erased_region_map_contents(
    m: im::HashMap<ErasedRegion, ErasedRegion>,
) -> Map<ErasedRegion, ErasedRegion>;

/// The elements of a `RegionIndexSet`.
pub uninterp spec fn region_index_set_contents(s: im::OrdSet<usize>) -> Set<usize>;

/// The entries of the map behind a reference.
pub open spec fn type_subst_entries(m: &TypeSubst) -> Map<TypeVarId, RTy> {
    type_subst_contents(*m)
}

/// The entries of the map behind a reference.
pub open spec fn erased_type_subst_entries(m: &ErasedTypeSubst) -> Map<TypeVarId, ETy> {
    erased_type_subst_contents(*m)
}

/// The entries of the map behind a reference.
pub open spec fn const_generic_subst_entries(m: &ConstGenericSubst) -> Map<ConstGenericVarId, ConstGeneric> {
    const_generic_subst_contents(*m)
}

/// The entries of the map behind a reference.
pub open spec fn region_subst_entries(m: &RegionSubst) -> Map<RegionVarId, Region> {
    region_subst_contents(*m)
}

/// Relies on `im::HashMap::get`: the value stored under the key, if any.
#[verifier::external_body]
pub(crate) fn type_subst_get<'a>(m: &'a TypeSubst, k: &TypeVarId) -> (r: Option<&'a RTy>)
    ensures
        match r {
            Some(v) => type_subst_contents(*m).contains_key(*k) && *v == type_subst_contents(*m)[*k],
            None => !type_subst_contents(*m).contains_key(*k),
        },
{
    m.get(k)
}

/// Relies on `im::HashMap::get`: the value stored under the key, if any.
#[verifier::external_body]
pub(crate) fn erased_type_subst_get<'a>(m: &'a ErasedTypeSubst, k: &TypeVarId) -> (r: Option<&'a ETy>)
    ensures
        match r {
            Some(v) => erased_type_subst_contents(*m).contains_key(*k)
                && *v == erased_type_subst_contents(*m)[*k],
            None => !erased_type_subst_contents(*m).contains_key(*k),
        },
{
    m.get(k)
}

/// Relies on `im::HashMap::get`: the value stored under the key, if any.
#[verifier::external_body]
pub(crate) fn const_generic_subst_get<'a>(m: &'a ConstGenericSubst, k: &ConstGenericVarId) -> (r: Option<&'a ConstGeneric>)
    ensures
        match r {
            Some(v) => const_generic_subst_contents(*m).contains_key(*k)
                && *v == const_generic_subst_contents(*m)[*k],
            None => !const_generic_subst_contents(*m).contains_key(*k),
        },
{
    m.get(k)
}

/// Relies on `im::HashMap::get`: the value stored under the key, if any.
#[verifier::external_body]
pub(crate) fn region_subst_get<'a>(m: &'a RegionSubst, k: &RegionVarId) -> (r: Option<&'a Region>)
    ensures
        match r {
            Some(v) => region_subst_contents(*m).contains_key(*k) && *v == region_subst_contents(*m)[*k],
            None => !region_subst_contents(*m).contains_key(*k),
        },
{
    m.get(k)
}

/// Relies on `im::HashMap::get`: the value stored under the key, if any.
#[verifier::external_body]
pub(crate) fn erased_region_map_get<'a>(m: &'a ErasedRegionMap, k: &ErasedRegion) -> (r: Option<&'a ErasedRegion>)
    ensures
        match r {
            Some(v) => erased_region_map_contents(*m).contains_key(*k)
                && *v == erased_region_map_contents(*m)[*k],
            None => !erased_region_map_contents(*m).contains_key(*k),
        },
{
    m.get(k)
}

/// Relies on `im::HashMap::new`: an empty map.
#[verifier::external_body]
pub(crate) fn type_subst_new() -> (r: TypeSubst)
    ensures
        type_subst_contents(r) =~= Map::empty(),
{
    im::HashMap::new()
}

/// Relies on `im::HashMap::new`: an empty map.
#[verifier::external_body]
pub(crate) fn region_subst_new() -> (r: RegionSubst)
    ensures
        region_subst_contents(r) =~= Map::empty(),
{
    im::HashMap::new()
}

/// Relies on `im::HashMap::insert`: the entry is set, overwriting an earlier
/// one, and the earlier value is handed back.
#[verifier::external_body]
pub(crate) fn type_subst_insert(m: &mut TypeSubst, k: TypeVarId, v: RTy) -> (r: Option<RTy>)
    ensures
        type_subst_contents(*final(m)) == type_subst_contents(*old(m)).insert(k, v),
        match r {
            Some(prev) => type_subst_contents(*old(m)).contains_key(k)
                && prev == type_subst_contents(*old(m))[k],
            None => !type_subst_contents(*old(m)).contains_key(k),
        },
{
    m.insert(k, v)
}

/// Relies on `im::HashMap::insert`: the entry is set, overwriting an earlier
/// one, and the earlier value is handed back.
#[verifier::external_body]
pub(crate) fn region_subst_insert(m: &mut RegionSubst, k: RegionVarId, v: Region) -> (r: Option<Region>)
    ensures
        region_subst_contents(*final(m)) == region_subst_contents(*old(m)).insert(k, v),
        match r {
            Some(prev) => region_subst_contents(*old(m)).contains_key(k)
                && prev == region_subst_contents(*old(m))[k],
            None => !region_subst_contents(*old(m)).contains_key(k),
        },
{
    m.insert(k, v)
}

/// Relies on `im::HashMap::new`: an empty map.
#[verifier::external_body]
pub(crate) fn erased_type_subst_new() -> (r: ErasedTypeSubst)
    ensures
        erased_type_subst_contents(r) =~= Map::empty(),
{
    im::HashMap::new()
}

/// Relies on `im::HashMap::new`: an empty map.
#[verifier::external_body]
pub(crate) fn const_generic_subst_new() -> (r: ConstGenericSubst)
    ensures
        const_generic_subst_contents(r) =~= Map::empty(),
{
    im::HashMap::new()
}

/// Relies on `im::HashMap::new`: an empty map.
#[verifier::external_body]
pub(crate) fn erased_region_map_new() -> (r: ErasedRegionMap)
    ensures
        erased_region_map_contents(r) =~= Map::empty(),
{
    im::HashMap::new()
}

/// Relies on `im::HashMap::insert`: the entry is set, overwriting an earlier
/// one, and the earlier value is handed back.
#[verifier::external_body]
pub(crate) fn erased_type_subst_insert(m: &mut ErasedTypeSubst, k: TypeVarId, v: ETy) -> (r: Option<ETy>)
    ensures
        erased_type_subst_contents(*final(m)) == erased_type_subst_contents(*old(m)).insert(k, v),
        match r {
            Some(prev) => erased_type_subst_contents(*old(m)).contains_key(k)
                && prev == erased_type_subst_contents(*old(m))[k],
            None => !erased_type_subst_contents(*old(m)).contains_key(k),
        },
{
    m.insert(k, v)
}

/// Relies on `im::HashMap::insert`: the entry is set, overwriting an earlier
/// one, and the earlier value is handed back.
#[verifier::external_body]
pub(crate) fn const_generic_subst_insert(m: &mut ConstGenericSubst, k: ConstGenericVarId, v: ConstGeneric) -> (r: Option<ConstGeneric>)
    ensures
        const_generic_subst_contents(*final(m)) == const_generic_subst_contents(*old(m)).insert(k, v),
        match r {
            Some(prev) => const_generic_subst_contents(*old(m)).contains_key(k)
                && prev == const_generic_subst_contents(*old(m))[k],
            None => !const_generic_subst_contents(*old(m)).contains_key(k),
        },
{
    m.insert(k, v)
}

/// Relies on `im::HashMap::insert`: the entry is set, overwriting an earlier
/// one, and the earlier value is handed back.
#[verifier::external_body]
pub(crate) fn erased_region_map_insert(m: &mut ErasedRegionMap, k: ErasedRegion, v: ErasedRegion) -> (r: Option<ErasedRegion>)
    ensures
        erased_region_map_contents(*final(m)) == erased_region_map_contents(*old(m)).insert(k, v),
        match r {
            Some(prev) => erased_region_map_contents(*old(m)).contains_key(k)
                && prev == erased_region_map_contents(*old(m))[k],
            None => !erased_region_map_contents(*old(m)).contains_key(k),
        },
{
    m.insert(k, v)
}

/// Relies on `im::OrdSet::contains`: membership of the element.
#[verifier::external_body]
pub(crate) fn region_index_set_contains(s: &RegionIndexSet, a: &usize) -> (r: bool)
    ensures
        r == region_index_set_contents(*s).contains(*a),
{
    s.contains(a)
}

} // verus!
