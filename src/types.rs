//! The type tree, generic arguments and parameters, and trait references.
//!
//! Every tree is generic over the type `R` of its region slots: `Region` for
//! signature-level types, `ErasedRegion` for body-level types.
use vstd::prelude::*;

use crate::ids::{
    ConstGenericVarId, FieldId, GlobalDeclId, RegionVarId, TraitClauseId, TraitDeclId,
    TraitImplId, TypeDeclId, TypeVarId, VariantId,
};
use crate::values::Literal;

verus! {

/// A region (lifetime) as it appears in signatures.
#[derive(Debug, Clone, Copy, PartialEq, Eq, Hash, Structural)]
pub enum Region {
    Static,
    Var(RegionVarId),
}

/// The region slot of a type whose lifetime information was erased.
#[derive(Debug, Clone, Copy, PartialEq, Eq, Hash, Structural)]
pub enum ErasedRegion {
    Erased,
}

pub type TraitItemName = String;

pub type FieldName = String;

#[derive(Debug, Clone, Copy, PartialEq, Eq, Hash, Structural)]
pub enum IntegerTy {
    Isize,
    I8,
    I16,
    I32,
    I64,
    I128,
    Usize,
    U8,
    U16,
    U32,
    U64,
    U128,
}

#[derive(Debug, Clone, Copy, PartialEq, Eq, Hash, Structural)]
pub enum RefKind {
    Mut,
    Shared,
}

/// Types that are handled as primitives.
#[derive(Debug, Clone, Copy, PartialEq, Eq, Hash, Structural)]
pub enum AssumedTy {
    Box,
    Vec,
    Option,
    Range,
    PtrUnique,
    PtrNonNull,
    Array,
    Slice,
    Str,
}

/// Head of an algebraic type: a user type, a tuple or an assumed type.
#[derive(Debug, Clone, Copy, PartialEq, Eq, Hash, Structural)]
pub enum TypeId {
    Adt(TypeDeclId),
    Tuple,
    Assumed(AssumedTy),
}

/// Types of primitive values.
#[derive(Debug, Clone, Copy, PartialEq, Eq, Hash, Structural)]
pub enum LiteralTy {
    Integer(IntegerTy),
    Bool,
    Char,
}

/// A const generic argument.
#[derive(Debug, Clone, Copy, PartialEq, Eq, Hash, Structural)]
pub enum ConstGeneric {
    Global(GlobalDeclId),
    Var(ConstGenericVarId),
    Value(Literal),
}

/// How a trait obligation is discharged: a path through the clauses that
/// are in scope, not a pointer to a resolved target.
#[derive(Debug, PartialEq, Eq)]
pub enum TraitInstanceId<R> {
    SelfId,
    TraitImpl(TraitImplId),
    BuiltinOrAuto(TraitDeclId),
    Clause(TraitClauseId),
    ParentClause(Box<TraitInstanceId<R>>, TraitDeclId, TraitClauseId),
    ItemClause(Box<TraitInstanceId<R>>, TraitDeclId, TraitItemName, TraitClauseId),
    FnPointer(Box<Ty<R>>),
    Unsolved(TraitDeclId, GenericArgs<R>),
    Unknown(String),
}

/// A reference to a trait instance.
#[derive(Debug, PartialEq, Eq)]
pub struct TraitRef<R> {
    pub trait_id: TraitInstanceId<R>,
    pub generics: GenericArgs<R>,
    pub trait_decl_ref: TraitDeclRef<R>,
}

/// A reference to a trait declaration.
#[derive(Debug, PartialEq, Eq)]
pub struct TraitDeclRef<R> {
    pub trait_id: TraitDeclId,
    pub generics: GenericArgs<R>,
}

/// The generic arguments supplied at a use site.
#[derive(Debug, PartialEq, Eq)]
pub struct GenericArgs<R> {
    pub regions: Vec<R>,
    pub types: Vec<Ty<R>>,
    pub const_generics: Vec<ConstGeneric>,
    pub trait_refs: Vec<TraitRef<R>>,
}

/// A type.
#[derive(Debug, PartialEq, Eq)]
pub enum Ty<R> {
    Adt(TypeId, GenericArgs<R>),
    TypeVar(TypeVarId),
    Literal(LiteralTy),
    Never,
    Ref(R, Box<Ty<R>>, RefKind),
    RawPtr(Box<Ty<R>>, RefKind),
    TraitType(TraitRef<R>, GenericArgs<R>, TraitItemName),
    Arrow(Vec<Ty<R>>, Box<Ty<R>>),
}

/// A type with regions, as in signatures.
pub type RTy = Ty<Region>;

/// A type with erased regions, as in bodies.
pub type ETy = Ty<ErasedRegion>;

pub type RGenericArgs = GenericArgs<Region>;

pub type EGenericArgs = GenericArgs<ErasedRegion>;

pub type RTraitRef = TraitRef<Region>;

pub type ETraitRef = TraitRef<ErasedRegion>;

/// Mathematical model of `Ty`: the same tree with sequences for vectors.
pub enum TyModel<R> {
    Adt(TypeId, GenericArgsModel<R>),
    TypeVar(TypeVarId),
    Literal(LiteralTy),
    Never,
    Ref(R, Box<TyModel<R>>, RefKind),
    RawPtr(Box<TyModel<R>>, RefKind),
    TraitType(TraitRefModel<R>, GenericArgsModel<R>, Seq<char>),
    Arrow(Seq<TyModel<R>>, Box<TyModel<R>>),
}

pub struct GenericArgsModel<R> {
    pub regions: Seq<R>,
    pub types: Seq<TyModel<R>>,
    pub const_generics: Seq<ConstGeneric>,
    pub trait_refs: Seq<TraitRefModel<R>>,
}

pub struct TraitRefModel<R> {
    pub trait_id: TraitInstanceModel<R>,
    pub generics: GenericArgsModel<R>,
    pub trait_decl_ref: TraitDeclRefModel<R>,
}

pub struct TraitDeclRefModel<R> {
    pub trait_id: TraitDeclId,
    pub generics: GenericArgsModel<R>,
}

pub enum TraitInstanceModel<R> {
    SelfId,
    TraitImpl(TraitImplId),
    BuiltinOrAuto(TraitDeclId),
    Clause(TraitClauseId),
    ParentClause(Box<TraitInstanceModel<R>>, TraitDeclId, TraitClauseId),
    ItemClause(Box<TraitInstanceModel<R>>, TraitDeclId, Seq<char>, TraitClauseId),
    FnPointer(Box<TyModel<R>>),
    Unsolved(TraitDeclId, GenericArgsModel<R>),
    Unknown(Seq<char>),
}

impl<R> Ty<R> {
    /// The mathematical model of this value.
    pub open spec fn model(&self) -> TyModel<R>
        decreases self,
    {
        match self {
            Ty::Adt(id, args) => TyModel::Adt(*id, args.model()),
            Ty::TypeVar(v) => TyModel::TypeVar(*v),
            Ty::Literal(l) => TyModel::Literal(*l),
            Ty::Never => TyModel::Never,
            Ty::Ref(r, t, k) => TyModel::Ref(*r, Box::new((**t).model()), *k),
            Ty::RawPtr(t, k) => TyModel::RawPtr(Box::new((**t).model()), *k),
            Ty::TraitType(tr, args, name) => TyModel::TraitType(tr.model(), args.model(), name@),
            Ty::Arrow(ins, out) => TyModel::Arrow(
                Seq::new(
                    ins@.len(),
                    |i: int|
                        if 0 <= i < ins@.len() {
                            ins@[i].model()
                        } else {
                            TyModel::Never
                        },
                ),
                Box::new((**out).model()),
            ),
        }
    }
}

impl<R> GenericArgs<R> {
    /// The mathematical model of this value.
    pub open spec fn model(&self) -> GenericArgsModel<R>
        decreases self,
    {
        GenericArgsModel {
            regions: self.regions@,
            types: Seq::new(
                self.types@.len(),
                |i: int|
                    if 0 <= i < self.types@.len() {
                        self.types@[i].model()
                    } else {
                        TyModel::Never
                    },
            ),
            const_generics: self.const_generics@,
            trait_refs: Seq::new(
                self.trait_refs@.len(),
                |i: int|
                    if 0 <= i < self.trait_refs@.len() {
                        self.trait_refs@[i].model()
                    } else {
                        arbitrary()
                    },
            ),
        }
    }
}

impl<R> TraitRef<R> {
    /// The mathematical model of this value.
    pub open spec fn model(&self) -> TraitRefModel<R>
        decreases self,
    {
        TraitRefModel {
            trait_id: self.trait_id.model(),
            generics: self.generics.model(),
            trait_decl_ref: self.trait_decl_ref.model(),
        }
    }
}

impl<R> TraitDeclRef<R> {
    /// The mathematical model of this value.
    pub open spec fn model(&self) -> TraitDeclRefModel<R>
        decreases self,
    {
        TraitDeclRefModel { trait_id: self.trait_id, generics: self.generics.model() }
    }
}

impl<R> TraitInstanceId<R> {
    /// The mathematical model of this value.
    pub open spec fn model(&self) -> TraitInstanceModel<R>
        decreases self,
    {
        match self {
            TraitInstanceId::SelfId => TraitInstanceModel::SelfId,
            TraitInstanceId::TraitImpl(id) => TraitInstanceModel::TraitImpl(*id),
            TraitInstanceId::BuiltinOrAuto(id) => TraitInstanceModel::BuiltinOrAuto(*id),
            TraitInstanceId::Clause(id) => TraitInstanceModel::Clause(*id),
            TraitInstanceId::ParentClause(base, d, c) => TraitInstanceModel::ParentClause(
                Box::new((**base).model()),
                *d,
                *c,
            ),
            TraitInstanceId::ItemClause(base, d, name, c) => TraitInstanceModel::ItemClause(
                Box::new((**base).model()),
                *d,
                name@,
                *c,
            ),
            TraitInstanceId::FnPointer(t) => TraitInstanceModel::FnPointer(Box::new((**t).model())),
            TraitInstanceId::Unsolved(d, args) => TraitInstanceModel::Unsolved(*d, args.model()),
            TraitInstanceId::Unknown(msg) => TraitInstanceModel::Unknown(msg@),
        }
    }
}

impl<R> View for Ty<R> {
    type V = TyModel<R>;

    open spec fn view(&self) -> TyModel<R> {
        self.model()
    }
}

impl<R> View for GenericArgs<R> {
    type V = GenericArgsModel<R>;

    open spec fn view(&self) -> GenericArgsModel<R> {
        self.model()
    }
}

impl<R> View for TraitRef<R> {
    type V = TraitRefModel<R>;

    open spec fn view(&self) -> TraitRefModel<R> {
        self.model()
    }
}

impl<R> View for TraitDeclRef<R> {
    type V = TraitDeclRefModel<R>;

    open spec fn view(&self) -> TraitDeclRefModel<R> {
        self.model()
    }
}

impl<R> View for TraitInstanceId<R> {
    type V = TraitInstanceModel<R>;

    open spec fn view(&self) -> TraitInstanceModel<R> {
        self.model()
    }
}

} // verus!

verus! {

impl<R> GenericArgs<R> {
    /// The number of arguments of all four kinds.
    pub fn len(&self) -> (r: usize)
        requires
            self.regions@.len() + self.types@.len() + self.const_generics@.len()
                + self.trait_refs@.len() <= usize::MAX,
        ensures
            r == self.regions@.len() + self.types@.len() + self.const_generics@.len()
                + self.trait_refs@.len(),
    {
        self.regions.len() + self.types.len() + self.const_generics.len() + self.trait_refs.len()
    }

    /// All four lists are empty.
    pub fn is_empty(&self) -> (r: bool)
        ensures
            r == (self.regions@.len() == 0 && self.types@.len() == 0
                && self.const_generics@.len() == 0 && self.trait_refs@.len() == 0),
    {
        self.regions.len() == 0 && self.types.len() == 0 && self.const_generics.len() == 0
            && self.trait_refs.len() == 0
    }

    pub fn empty() -> (r: Self)
        ensures
            r.regions@.len() == 0,
            r.types@.len() == 0,
            r.const_generics@.len() == 0,
            r.trait_refs@.len() == 0,
    {
        GenericArgs {
            regions: Vec::new(),
            types: Vec::new(),
            const_generics: Vec::new(),
            trait_refs: Vec::new(),
        }
    }

    /// Arguments made of types alone.
    pub fn new_from_types(types: Vec<Ty<R>>) -> (r: Self)
        ensures
            r.regions@.len() == 0,
            r.types == types,
            r.const_generics@.len() == 0,
            r.trait_refs@.len() == 0,
    {
        GenericArgs {
            regions: Vec::new(),
            types,
            const_generics: Vec::new(),
            trait_refs: Vec::new(),
        }
    }

    pub fn new(
        regions: Vec<R>,
        types: Vec<Ty<R>>,
        const_generics: Vec<ConstGeneric>,
        trait_refs: Vec<TraitRef<R>>,
    ) -> (r: Self)
        ensures
            r.regions == regions,
            r.types == types,
            r.const_generics == const_generics,
            r.trait_refs == trait_refs,
    {
        GenericArgs { regions, types, const_generics, trait_refs }
    }
}

/// The model of generic arguments lists the models of their entries.
pub proof fn lemma_args_view<R>(a: GenericArgs<R>)
    ensures
        a@.regions == a.regions@,
        a@.const_generics == a.const_generics@,
        a@.types.len() == a.types@.len(),
        a@.trait_refs.len() == a.trait_refs@.len(),
        forall|i: int|
            #![trigger a@.types[i]]
            #![trigger a.types@[i]]
            0 <= i < a.types@.len() ==> a@.types[i] == a.types@[i]@,
        forall|i: int|
            #![trigger a@.trait_refs[i]]
            #![trigger a.trait_refs@[i]]
            0 <= i < a.trait_refs@.len() ==> a@.trait_refs[i] == a.trait_refs@[i]@,
{
}

/// The model of a function type lists the models of its inputs.
pub proof fn lemma_arrow_view<R>(t: Ty<R>)
    requires
        t is Arrow,
    ensures
        t@->Arrow_0.len() == t->Arrow_0@.len(),
        forall|i: int|
            #![trigger t@->Arrow_0[i]]
            #![trigger t->Arrow_0@[i]]
            0 <= i < t->Arrow_0@.len() ==> t@->Arrow_0[i] == t->Arrow_0@[i]@,
        *t@->Arrow_1 == (*t->Arrow_1)@,
{
}

} // verus!
