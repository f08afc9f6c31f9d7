//! Structural queries over types.
use vstd::prelude::*;

use crate::collections::{region_index_set_contains, region_index_set_contents, RegionIndexSet};
use crate::types::{
    lemma_args_view, lemma_arrow_view, AssumedTy, GenericArgs, GenericArgsModel, IntegerTy,
    LiteralTy, Region, Ty, TyModel, TypeId,
};

verus! {

broadcast use vstd::std_specs::vec::group_vec_axioms;

impl<R> TyModel<R> {
    /// Some node of the tree, not looking into trait references, is `Never`.
    pub open spec fn contains_never(self) -> bool
        decreases self,
    {
        match self {
            TyModel::Adt(_, args) => (exists|i: int| 0 <= i < args.types.len() && (#[trigger] args.types[i]).contains_never()),
            TyModel::TraitType(_, args, _) => (exists|i: int| 0 <= i < args.types.len() && (#[trigger] args.types[i]).contains_never()),
            TyModel::TypeVar(_) => false,
            TyModel::Literal(_) => false,
            TyModel::Never => true,
            TyModel::Ref(_, t, _) => t.contains_never(),
            TyModel::RawPtr(t, _) => t.contains_never(),
            TyModel::Arrow(ins, out) => (exists|i: int| 0 <= i < ins.len() && (#[trigger] ins[i]).contains_never()) || out.contains_never(),
        }
    }

    /// The tree holds a type variable, or a region slot of any kind (a reference
    /// always counts, as does a non-empty region list), not looking into trait references.
    pub open spec fn contains_variables(self) -> bool
        decreases self,
    {
        match self {
            TyModel::Adt(_, args) => args.regions.len() > 0 || (exists|i: int| 0 <= i < args.types.len() && (#[trigger] args.types[i]).contains_variables()),
            TyModel::TraitType(_, args, _) => args.regions.len() > 0 || (exists|i: int| 0 <= i < args.types.len() && (#[trigger] args.types[i]).contains_variables()),
            TyModel::TypeVar(_) => true,
            TyModel::Literal(_) => false,
            TyModel::Never => false,
            TyModel::Ref(_, t, _) => true,
            TyModel::RawPtr(t, _) => t.contains_variables(),
            TyModel::Arrow(ins, out) => (exists|i: int| 0 <= i < ins.len() && (#[trigger] ins[i]).contains_variables()) || out.contains_variables(),
        }
    }

    /// The tree holds a region slot (a reference, or a non-empty region list),
    /// not looking into trait references.
    pub open spec fn contains_regions(self) -> bool
        decreases self,
    {
        match self {
            TyModel::Adt(_, args) => args.regions.len() > 0 || (exists|i: int| 0 <= i < args.types.len() && (#[trigger] args.types[i]).contains_regions()),
            TyModel::TraitType(_, args, _) => args.regions.len() > 0 || (exists|i: int| 0 <= i < args.types.len() && (#[trigger] args.types[i]).contains_regions()),
            TyModel::TypeVar(_) => false,
            TyModel::Literal(_) => false,
            TyModel::Never => false,
            TyModel::Ref(_, t, _) => true,
            TyModel::RawPtr(t, _) => t.contains_regions(),
            TyModel::Arrow(ins, out) => (exists|i: int| 0 <= i < ins.len() && (#[trigger] ins[i]).contains_regions()) || out.contains_regions(),
        }
    }
}

fn any_contains_never<R>(tys: &Vec<Ty<R>>) -> (r: bool)
    ensures
        r == exists|i: int| 0 <= i < tys@.len() && (#[trigger] tys@[i])@.contains_never(),
    decreases tys,
{
    let mut i: usize = 0;
    while i < tys.len()
        invariant
            i <= tys@.len(),
            forall|j: int| 0 <= j < i ==> !(#[trigger] tys@[j])@.contains_never(),
        decreases tys@.len() - i,
    {
        if tys[i].contains_never() {
            return true;
        }
        i += 1;
    }
    false
}

impl<R> Ty<R> {
    pub fn contains_never(&self) -> (r: bool)
        ensures
            r == self@.contains_never(),
        decreases self,
    {
        match self {
            Ty::Adt(_, args) => {
                proof {
                    lemma_args_view(*args);
                }
                let r = any_contains_never(&args.types);
                proof {
                    if r {
                        let i = choose|i: int|
                            0 <= i < args.types@.len() && (#[trigger] args.types@[i])@.contains_never();
                        assert(args@.types[i] == args.types@[i]@);
                    } else {
                        assert forall|i: int| 0 <= i < args@.types.len() implies !(
                        #[trigger] args@.types[i]).contains_never() by {
                            assert(args@.types[i] == args.types@[i]@);
                        }
                        assert(self@->Adt_1 == args@);
                    }
                }
                r
            },
            Ty::TraitType(_, args, _) => {
                proof {
                    lemma_args_view(*args);
                }
                let r = any_contains_never(&args.types);
                proof {
                    if r {
                        let i = choose|i: int|
                            0 <= i < args.types@.len() && (#[trigger] args.types@[i])@.contains_never();
                        assert(args@.types[i] == args.types@[i]@);
                    } else {
                        assert forall|i: int| 0 <= i < args@.types.len() implies !(
                        #[trigger] args@.types[i]).contains_never() by {
                            assert(args@.types[i] == args.types@[i]@);
                        }
                    }
                    assert(self@->TraitType_1 == args@);
                }
                r
            },
            Ty::TypeVar(_) => false,
            Ty::Literal(_) => false,
            Ty::Never => true,
            Ty::Ref(_, t, _) => t.contains_never(),
            Ty::RawPtr(t, _) => t.contains_never(),
            Ty::Arrow(ins, out) => {
                proof {
                    lemma_arrow_view(*self);
                }
                any_contains_never(ins) || out.contains_never()
            },
        }
    }
}

fn any_contains_variables<R>(tys: &Vec<Ty<R>>) -> (r: bool)
    ensures
        r == exists|i: int| 0 <= i < tys@.len() && (#[trigger] tys@[i])@.contains_variables(),
    decreases tys,
{
    let mut i: usize = 0;
    while i < tys.len()
        invariant
            i <= tys@.len(),
            forall|j: int| 0 <= j < i ==> !(#[trigger] tys@[j])@.contains_variables(),
        decreases tys@.len() - i,
    {
        if tys[i].contains_variables() {
            return true;
        }
        i += 1;
    }
    false
}

impl<R> Ty<R> {
    pub fn contains_variables(&self) -> (r: bool)
        ensures
            r == self@.contains_variables(),
        decreases self,
    {
        match self {
            Ty::Adt(_, args) => {
                proof {
                    lemma_args_view(*args);
                }
                args.regions.len() > 0 || any_contains_variables(&args.types)
            },
            Ty::TraitType(_, args, _) => {
                proof {
                    lemma_args_view(*args);
                }
                args.regions.len() > 0 || any_contains_variables(&args.types)
            },
            Ty::TypeVar(_) => true,
            Ty::Literal(_) => false,
            Ty::Never => false,
            Ty::Ref(_, t, _) => true,
            Ty::RawPtr(t, _) => t.contains_variables(),
            Ty::Arrow(ins, out) => {
                proof {
                    lemma_arrow_view(*self);
                }
                any_contains_variables(ins) || out.contains_variables()
            },
        }
    }
}

fn any_contains_regions<R>(tys: &Vec<Ty<R>>) -> (r: bool)
    ensures
        r == exists|i: int| 0 <= i < tys@.len() && (#[trigger] tys@[i])@.contains_regions(),
    decreases tys,
{
    let mut i: usize = 0;
    while i < tys.len()
        invariant
            i <= tys@.len(),
            forall|j: int| 0 <= j < i ==> !(#[trigger] tys@[j])@.contains_regions(),
        decreases tys@.len() - i,
    {
        if tys[i].contains_regions() {
            return true;
        }
        i += 1;
    }
    false
}

impl<R> Ty<R> {
    pub fn contains_regions(&self) -> (r: bool)
        ensures
            r == self@.contains_regions(),
        decreases self,
    {
        match self {
            Ty::Adt(_, args) => {
                proof {
                    lemma_args_view(*args);
                }
                args.regions.len() > 0 || any_contains_regions(&args.types)
            },
            Ty::TraitType(_, args, _) => {
                proof {
                    lemma_args_view(*args);
                }
                args.regions.len() > 0 || any_contains_regions(&args.types)
            },
            Ty::TypeVar(_) => false,
            Ty::Literal(_) => false,
            Ty::Never => false,
            Ty::Ref(_, t, _) => true,
            Ty::RawPtr(t, _) => t.contains_regions(),
            Ty::Arrow(ins, out) => {
                proof {
                    lemma_arrow_view(*self);
                }
                any_contains_regions(ins) || out.contains_regions()
            },
        }
    }
}

impl IntegerTy {
    pub open spec fn spec_is_signed(&self) -> bool {
        match self {
            IntegerTy::Isize | IntegerTy::I8 | IntegerTy::I16 | IntegerTy::I32 | IntegerTy::I64
            | IntegerTy::I128 => true,
            _ => false,
        }
    }

    /// The size in bytes of a value of this type.
    pub open spec fn spec_size(&self) -> nat {
        match self {
            IntegerTy::I8 | IntegerTy::U8 => 1,
            IntegerTy::I16 | IntegerTy::U16 => 2,
            IntegerTy::I32 | IntegerTy::U32 => 4,
            IntegerTy::I64 | IntegerTy::U64 => 8,
            IntegerTy::I128 | IntegerTy::U128 => 16,
            IntegerTy::Isize | IntegerTy::Usize => vstd::layout::size_of::<usize>(),
        }
    }

    #[verifier::when_used_as_spec(spec_is_signed)]
    pub fn is_signed(&self) -> (r: bool)
        ensures
            r == self.spec_is_signed(),
    {
        match self {
            IntegerTy::Isize | IntegerTy::I8 | IntegerTy::I16 | IntegerTy::I32 | IntegerTy::I64
            | IntegerTy::I128 => true,
            _ => false,
        }
    }

    pub fn is_unsigned(&self) -> (r: bool)
        ensures
            r == !self.spec_is_signed(),
    {
        !self.is_signed()
    }

    /// The size in bytes of a value of this type on the running machine.
    pub fn size(&self) -> (r: usize)
        ensures
            r as nat == self.spec_size(),
    {
        broadcast use vstd::layout::layout_of_primitives;

        match self {
            IntegerTy::Isize => core::mem::size_of::<isize>(),
            IntegerTy::I8 => core::mem::size_of::<i8>(),
            IntegerTy::I16 => core::mem::size_of::<i16>(),
            IntegerTy::I32 => core::mem::size_of::<i32>(),
            IntegerTy::I64 => core::mem::size_of::<i64>(),
            IntegerTy::I128 => core::mem::size_of::<i128>(),
            IntegerTy::Usize => core::mem::size_of::<usize>(),
            IntegerTy::U8 => core::mem::size_of::<u8>(),
            IntegerTy::U16 => core::mem::size_of::<u16>(),
            IntegerTy::U32 => core::mem::size_of::<u32>(),
            IntegerTy::U64 => core::mem::size_of::<u64>(),
            IntegerTy::U128 => core::mem::size_of::<u128>(),
        }
    }
}

impl LiteralTy {
    pub fn is_integer(&self) -> (r: bool)
        ensures
            r == (*self is Integer),
    {
        match self {
            LiteralTy::Integer(_) => true,
            _ => false,
        }
    }
}

impl<R> TyModel<R> {
    /// The 0-tuple.
    pub open spec fn is_unit(self) -> bool {
        match self {
            TyModel::Adt(TypeId::Tuple, args) => args.types.len() == 0,
            _ => false,
        }
    }

    /// A box whose arguments have the expected shape: one type, nothing else.
    pub open spec fn box_well_formed(self) -> bool {
        match self {
            TyModel::Adt(TypeId::Assumed(AssumedTy::Box), args) => args.regions.len() == 0
                && args.types.len() == 1 && args.const_generics.len() == 0,
            _ => true,
        }
    }

    pub open spec fn is_box(self) -> bool {
        self matches TyModel::Adt(TypeId::Assumed(AssumedTy::Box), _)
    }
}

impl<R> Ty<R> {
    /// True exactly for the 0-tuple.
    pub fn is_unit(&self) -> (r: bool)
        ensures
            r == self@.is_unit(),
    {
        match self {
            Ty::Adt(TypeId::Tuple, args) => {
                proof {
                    lemma_args_view(*args);
                }
                args.types.len() == 0
            },
            _ => false,
        }
    }

    /// The 0-tuple.
    pub fn mk_unit() -> (r: Ty<R>)
        ensures
            r@ == TyModel::<R>::Adt(
                TypeId::Tuple,
                GenericArgsModel {
                    regions: Seq::empty(),
                    types: Seq::empty(),
                    const_generics: Seq::empty(),
                    trait_refs: Seq::empty(),
                },
            ),
            r@.is_unit(),
    {
        let a = GenericArgs::empty();
        proof {
            lemma_args_view(a);
            assert(a@.regions =~= Seq::empty());
            assert(a@.types =~= Seq::empty());
            assert(a@.const_generics =~= Seq::empty());
            assert(a@.trait_refs =~= Seq::empty());
        }
        Ty::Adt(TypeId::Tuple, a)
    }

    /// An integer literal type.
    pub fn is_scalar(&self) -> (r: bool)
        ensures
            r == (self@ matches TyModel::Literal(LiteralTy::Integer(_))),
    {
        match self {
            Ty::Literal(kind) => kind.is_integer(),
            _ => false,
        }
    }

    /// An unsigned integer literal type.
    pub fn is_unsigned_scalar(&self) -> (r: bool)
        ensures
            r == (self@ matches TyModel::Literal(LiteralTy::Integer(k)) && !k.spec_is_signed()),
    {
        match self {
            Ty::Literal(LiteralTy::Integer(kind)) => kind.is_unsigned(),
            _ => false,
        }
    }

    /// A signed integer literal type.
    pub fn is_signed_scalar(&self) -> (r: bool)
        ensures
            r == (self@ matches TyModel::Literal(LiteralTy::Integer(k)) && k.spec_is_signed()),
    {
        match self {
            Ty::Literal(LiteralTy::Integer(kind)) => kind.is_signed(),
            _ => false,
        }
    }

    pub fn is_box(&self) -> (r: bool)
        requires
            self@.box_well_formed(),
        ensures
            r == self@.is_box(),
    {
        match self {
            Ty::Adt(TypeId::Assumed(AssumedTy::Box), _) => true,
            _ => false,
        }
    }

    /// The boxed type, for a box.
    pub fn as_box(&self) -> (r: Option<&Ty<R>>)
        requires
            self@.box_well_formed(),
        ensures
            match r {
                Some(t) => self@.is_box() && t@ == self@->Adt_1.types[0],
                None => !self@.is_box(),
            },
    {
        match self {
            Ty::Adt(TypeId::Assumed(AssumedTy::Box), generics) => {
                proof {
                    lemma_args_view(*generics);
                }
                Some(&generics.types[0])
            },
            _ => None,
        }
    }
}

/// A region variable whose index is in `set`.
pub open spec fn region_in(r: Region, set: Set<usize>) -> bool {
    match r {
        Region::Var(id) => set.contains(id.index),
        Region::Static => false,
    }
}

impl Region {
    /// This is a region variable whose index is in the set.
    pub fn contains_var(&self, rset: &RegionIndexSet) -> (r: bool)
        ensures
            r == region_in(*self, region_index_set_contents(*rset)),
    {
        match self {
            Region::Static => false,
            Region::Var(id) => region_index_set_contains(rset, &id.index),
        }
    }
}

impl TyModel<Region> {
    /// A reference, or a region list of a nested ADT or trait type (its trait
    /// reference not looked into), carries a region variable from `set`.
    pub open spec fn contains_region_var(self, set: Set<usize>) -> bool
        decreases self,
    {
        match self {
            TyModel::TypeVar(_) | TyModel::Literal(_) | TyModel::Never => false,
            TyModel::Ref(r, t, _) => region_in(r, set) || t.contains_region_var(set),
            TyModel::RawPtr(t, _) => t.contains_region_var(set),
            TyModel::Adt(_, args) => (exists|i: int|
                0 <= i < args.regions.len() && region_in(#[trigger] args.regions[i], set)) || (exists|i: int|
                0 <= i < args.types.len() && (#[trigger] args.types[i]).contains_region_var(set)),
            TyModel::TraitType(_, args, _) => (exists|i: int|
                0 <= i < args.regions.len() && region_in(#[trigger] args.regions[i], set)) || (exists|i: int|
                0 <= i < args.types.len() && (#[trigger] args.types[i]).contains_region_var(set)),
            TyModel::Arrow(ins, out) => (exists|i: int|
                0 <= i < ins.len() && (#[trigger] ins[i]).contains_region_var(set)) || out.contains_region_var(set),
        }
    }
}

fn any_region_in(regions: &Vec<Region>, rset: &RegionIndexSet) -> (r: bool)
    ensures
        r == exists|i: int|
            0 <= i < regions@.len() && region_in(#[trigger] regions@[i], region_index_set_contents(*rset)),
{
    let mut i: usize = 0;
    while i < regions.len()
        invariant
            i <= regions@.len(),
            forall|j: int| 0 <= j < i ==> !region_in(#[trigger] regions@[j], region_index_set_contents(*rset)),
        decreases regions@.len() - i,
    {
        if regions[i].contains_var(rset) {
            return true;
        }
        i += 1;
    }
    false
}

fn any_contains_region_var(tys: &Vec<Ty<Region>>, rset: &RegionIndexSet) -> (r: bool)
    ensures
        r == exists|i: int|
            0 <= i < tys@.len() && (#[trigger] tys@[i])@.contains_region_var(region_index_set_contents(*rset)),
    decreases tys,
{
    let mut i: usize = 0;
    while i < tys.len()
        invariant
            i <= tys@.len(),
            forall|j: int| 0 <= j < i ==> !(#[trigger] tys@[j])@.contains_region_var(region_index_set_contents(*rset)),
        decreases tys@.len() - i,
    {
        if tys[i].contains_region_var(rset) {
            return true;
        }
        i += 1;
    }
    false
}

impl Ty<Region> {
    /// Whether the type holds one of the region variables whose indices are
    /// in `rset` (see the model function of the same name).
    pub fn contains_region_var(&self, rset: &RegionIndexSet) -> (r: bool)
        ensures
            r == self@.contains_region_var(region_index_set_contents(*rset)),
        decreases self,
    {
        match self {
            Ty::TypeVar(_) | Ty::Literal(_) | Ty::Never => false,
            Ty::Ref(r, t, _) => r.contains_var(rset) || t.contains_region_var(rset),
            Ty::RawPtr(t, _) => t.contains_region_var(rset),
            Ty::Adt(_, args) => {
                proof {
                    lemma_args_view(*args);
                }
                let a = any_region_in(&args.regions, rset);
                let b = any_contains_region_var(&args.types, rset);
                proof {
                    let set = region_index_set_contents(*rset);
                    if b {
                        let i = choose|i: int|
                            0 <= i < args.types@.len() && (#[trigger] args.types@[i])@.contains_region_var(set);
                        assert(args@.types[i] == args.types@[i]@);
                    } else {
                        assert forall|i: int| 0 <= i < args@.types.len() implies !(
                        #[trigger] args@.types[i]).contains_region_var(set) by {
                            assert(args@.types[i] == args.types@[i]@);
                        }
                    }
                    assert(self@->Adt_1 == args@);
                }
                a || b
            },
            Ty::TraitType(_, args, _) => {
                proof {
                    lemma_args_view(*args);
                }
                let a = any_region_in(&args.regions, rset);
                let b = any_contains_region_var(&args.types, rset);
                proof {
                    let set = region_index_set_contents(*rset);
                    if b {
                        let i = choose|i: int|
                            0 <= i < args.types@.len() && (#[trigger] args.types@[i])@.contains_region_var(set);
                        assert(args@.types[i] == args.types@[i]@);
                    } else {
                        assert forall|i: int| 0 <= i < args@.types.len() implies !(
                        #[trigger] args@.types[i]).contains_region_var(set) by {
                            assert(args@.types[i] == args.types@[i]@);
                        }
                    }
                    assert(self@->TraitType_1 == args@);
                }
                a || b
            },
            Ty::Arrow(ins, out) => {
                proof {
                    lemma_arrow_view(*self);
                }
                any_contains_region_var(ins, rset) || out.contains_region_var(rset)
            },
        }
    }
}

} // verus!
