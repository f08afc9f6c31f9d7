//! Generic parameters, predicates and type declarations.
use vstd::prelude::*;

use crate::ids::{ConstGenericVarId, RegionVarId, TraitClauseId, TraitDeclId, TypeDeclId, TypeVarId};
use crate::types::{LiteralTy, RGenericArgs, RTy, Region, TraitItemName};

verus! {

/// A type variable.
#[derive(Debug, PartialEq, Eq)]
pub struct TypeVar {
    pub index: TypeVarId,
    pub name: String,
}

/// A region variable.
#[derive(Debug, PartialEq, Eq)]
pub struct RegionVar {
    pub index: RegionVarId,
    pub name: Option<String>,
}

/// A const generic variable.
#[derive(Debug, PartialEq, Eq)]
pub struct ConstGenericVar {
    pub index: ConstGenericVarId,
    pub name: String,
    pub ty: LiteralTy,
}

/// Hands out fresh type variable identifiers, in increasing order.
pub struct TypeVarIdGenerator {
    pub next: usize,
}

impl TypeVarIdGenerator {
    pub fn new() -> (r: Self)
        ensures
            r.next == 0,
    {
        TypeVarIdGenerator { next: 0 }
    }

    /// The next identifier; it was never handed out before.
    pub fn fresh_id(&mut self) -> (r: TypeVarId)
        requires
            old(self).next < usize::MAX,
        ensures
            r.index == old(self).next,
            final(self).next == old(self).next + 1,
    {
        let r = TypeVarId { index: self.next };
        self.next = self.next + 1;
        r
    }
}

impl TypeVar {
    pub fn new(index: TypeVarId, name: String) -> (r: TypeVar)
        ensures
            r.index == index,
            r.name == name,
    {
        TypeVar { index, name }
    }

    /// A type variable with a fresh identifier.
    pub fn fresh(name: String, gen: &mut TypeVarIdGenerator) -> (r: TypeVar)
        requires
            old(gen).next < usize::MAX,
        ensures
            r.index.index == old(gen).next,
            r.name == name,
            final(gen).next == old(gen).next + 1,
    {
        TypeVar { index: gen.fresh_id(), name }
    }
}

/// A trait obligation attached to a declaration. Its arguments hold no
/// trait references: further obligations are separate clauses.
#[derive(Debug, PartialEq, Eq)]
pub struct TraitClause {
    pub clause_id: TraitClauseId,
    pub trait_id: TraitDeclId,
    pub generics: RGenericArgs,
}

impl TraitClause {
    pub open spec fn well_formed(&self) -> bool {
        self.generics.trait_refs@.len() == 0
    }
}

/// The generic parameters of a declaration.
#[derive(Debug, PartialEq, Eq)]
pub struct GenericParams {
    pub regions: Vec<RegionVar>,
    pub types: Vec<TypeVar>,
    pub const_generics: Vec<ConstGenericVar>,
    pub trait_clauses: Vec<TraitClause>,
}

impl GenericParams {
    /// Each parameter's identifier is its position in its vector, and every
    /// trait clause is well formed.
    pub open spec fn well_formed(&self) -> bool {
        &&& forall|i: int| 0 <= i < self.regions@.len() ==> (#[trigger] self.regions@[i]).index.index == i
        &&& forall|i: int| 0 <= i < self.types@.len() ==> (#[trigger] self.types@[i]).index.index == i
        &&& forall|i: int|
            0 <= i < self.const_generics@.len() ==> (#[trigger] self.const_generics@[i]).index.index == i
        &&& forall|i: int|
            0 <= i < self.trait_clauses@.len() ==> (#[trigger] self.trait_clauses@[i]).clause_id.index == i
                && self.trait_clauses@[i].well_formed()
    }

    /// The number of parameters of all four kinds.
    pub fn len(&self) -> (r: usize)
        requires
            self.regions@.len() + self.types@.len() + self.const_generics@.len()
                + self.trait_clauses@.len() <= usize::MAX,
        ensures
            r == self.regions@.len() + self.types@.len() + self.const_generics@.len()
                + self.trait_clauses@.len(),
    {
        self.regions.len() + self.types.len() + self.const_generics.len() + self.trait_clauses.len()
    }

    /// All four lists are empty.
    pub fn is_empty(&self) -> (r: bool)
        ensures
            r == (self.regions@.len() == 0 && self.types@.len() == 0
                && self.const_generics@.len() == 0 && self.trait_clauses@.len() == 0),
    {
        self.regions.len() == 0 && self.types.len() == 0 && self.const_generics.len() == 0
            && self.trait_clauses.len() == 0
    }

    pub fn empty() -> (r: Self)
        ensures
            r.regions@.len() == 0,
            r.types@.len() == 0,
            r.const_generics@.len() == 0,
            r.trait_clauses@.len() == 0,
            r.well_formed(),
    {
        GenericParams {
            regions: Vec::new(),
            types: Vec::new(),
            const_generics: Vec::new(),
            trait_clauses: Vec::new(),
        }
    }
}

/// `.0` outlives `.1`.
#[derive(Debug, PartialEq, Eq)]
pub struct OutlivesPred<T, U>(pub T, pub U);

pub type RegionOutlives = OutlivesPred<Region, Region>;

pub type TypeOutlives = OutlivesPred<RTy, Region>;

/// A constraint on an associated type of a trait: `T : Foo<S = String>`.
#[derive(Debug, PartialEq, Eq)]
pub struct TraitTypeConstraint<R> {
    pub trait_ref: crate::types::TraitRef<R>,
    pub generics: crate::types::GenericArgs<R>,
    pub item_name: TraitItemName,
    pub ty: crate::types::Ty<R>,
}

pub type RTraitTypeConstraint = TraitTypeConstraint<Region>;

/// The predicates of a declaration other than its trait clauses.
#[derive(Debug, PartialEq, Eq)]
pub struct Predicates {
    pub regions_outlive: Vec<RegionOutlives>,
    pub types_outlive: Vec<TypeOutlives>,
    pub trait_type_constraints: Vec<RTraitTypeConstraint>,
}

impl Predicates {
    /// No predicate of any kind.
    pub fn is_empty(&self) -> (r: bool)
        ensures
            r == (self.regions_outlive@.len() == 0 && self.types_outlive@.len() == 0
                && self.trait_type_constraints@.len() == 0),
    {
        self.regions_outlive.len() == 0 && self.types_outlive.len() == 0
            && self.trait_type_constraints.len() == 0
    }
}

/// A field of a structure or of an enum variant.
#[derive(Debug, PartialEq, Eq)]
pub struct Field {
    pub name: Option<String>,
    pub ty: RTy,
}

/// A variant of an enumeration.
#[derive(Debug, PartialEq, Eq)]
pub struct Variant {
    pub name: String,
    pub fields: Vec<Field>,
}

/// What a type declaration defines.
#[derive(Debug, PartialEq, Eq)]
pub enum TypeDeclKind {
    Struct(Vec<Field>),
    Enum(Vec<Variant>),
    /// A type whose definition is not available.
    Opaque,
    /// A type whose extraction failed, with the reason.
    Error(String),
}

/// A type declaration.
#[derive(Debug, PartialEq, Eq)]
pub struct TypeDecl {
    pub def_id: TypeDeclId,
    /// The path of the type, one segment per element.
    pub name: Vec<String>,
    pub generics: GenericParams,
    pub preds: Predicates,
    pub kind: TypeDeclKind,
}

impl TypeDecl {
    /// The fields of a structure (`variant_id` absent) or of a variant of an
    /// enumeration (`variant_id` present); an error for a type whose
    /// extraction failed.
    pub fn get_fields(&self, variant_id: Option<usize>) -> (r: Result<&Vec<Field>, ()>)
        requires
            match self.kind {
                TypeDeclKind::Enum(vs) => variant_id is Some && variant_id->0 < vs@.len(),
                TypeDeclKind::Struct(_) => variant_id is None,
                TypeDeclKind::Opaque => false,
                TypeDeclKind::Error(_) => true,
            },
        ensures
            match self.kind {
                TypeDeclKind::Enum(vs) => r == Ok::<&Vec<Field>, ()>(&vs@[variant_id->0 as int].fields),
                TypeDeclKind::Struct(fs) => r == Ok::<&Vec<Field>, ()>(&fs),
                _ => r is Err,
            },
    {
        match &self.kind {
            TypeDeclKind::Enum(variants) => {
                let i = variant_id.unwrap();
                Ok(&variants[i].fields)
            },
            TypeDeclKind::Struct(fields) => Ok(fields),
            TypeDeclKind::Opaque => Err(()),
            TypeDeclKind::Error(_) => Err(()),
        }
    }
}

} // verus!
