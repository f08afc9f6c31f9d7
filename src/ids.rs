//! Index-typed identifiers: one opaque handle type per kind of entity.
use vstd::prelude::*;

use crate::decimal::{decimal_digits, prefixed_decimal};

verus! {

/// Identifier of a type variable: a dense index into the owning declaration's vector.
#[derive(Debug, Clone, Copy, PartialEq, Eq, Hash, Structural)]
pub struct TypeVarId {
    pub index: usize,
}

impl TypeVarId {
    pub fn new(index: usize) -> (r: Self)
        ensures
            r.index == index,
    {
        TypeVarId { index }
    }

    /// Prints the identifier as `@T` followed by its index in decimal.
    pub fn to_pretty_string(self) -> (r: String)
        ensures
            r@ == "@T"@ + decimal_digits(self.index as nat),
    {
        prefixed_decimal("@T", self.index)
    }
}

/// Identifier of a type declaration: a dense index into the owning declaration's vector.
#[derive(Debug, Clone, Copy, PartialEq, Eq, Hash, Structural)]
pub struct TypeDeclId {
    pub index: usize,
}

impl TypeDeclId {
    pub fn new(index: usize) -> (r: Self)
        ensures
            r.index == index,
    {
        TypeDeclId { index }
    }

    /// Prints the identifier as `@Adt` followed by its index in decimal.
    pub fn to_pretty_string(self) -> (r: String)
        ensures
            r@ == "@Adt"@ + decimal_digits(self.index as nat),
    {
        prefixed_decimal("@Adt", self.index)
    }
}

/// Identifier of a enum variant: a dense index into the owning declaration's vector.
#[derive(Debug, Clone, Copy, PartialEq, Eq, Hash, Structural)]
pub struct VariantId {
    pub index: usize,
}

impl VariantId {
    pub fn new(index: usize) -> (r: Self)
        ensures
            r.index == index,
    {
        VariantId { index }
    }

    /// Prints the identifier as `@Variant` followed by its index in decimal.
    pub fn to_pretty_string(self) -> (r: String)
        ensures
            r@ == "@Variant"@ + decimal_digits(self.index as nat),
    {
        prefixed_decimal("@Variant", self.index)
    }
}

/// Identifier of a field: a dense index into the owning declaration's vector.
#[derive(Debug, Clone, Copy, PartialEq, Eq, Hash, Structural)]
pub struct FieldId {
    pub index: usize,
}

impl FieldId {
    pub fn new(index: usize) -> (r: Self)
        ensures
            r.index == index,
    {
        FieldId { index }
    }

    /// Prints the identifier as `@Field` followed by its index in decimal.
    pub fn to_pretty_string(self) -> (r: String)
        ensures
            r@ == "@Field"@ + decimal_digits(self.index as nat),
    {
        prefixed_decimal("@Field", self.index)
    }
}

/// Identifier of a region variable: a dense index into the owning declaration's vector.
#[derive(Debug, Clone, Copy, PartialEq, Eq, Hash, Structural)]
pub struct RegionVarId {
    pub index: usize,
}

impl RegionVarId {
    pub fn new(index: usize) -> (r: Self)
        ensures
            r.index == index,
    {
        RegionVarId { index }
    }

    /// Prints the identifier as `@R` followed by its index in decimal.
    pub fn to_pretty_string(self) -> (r: String)
        ensures
            r@ == "@R"@ + decimal_digits(self.index as nat),
    {
        prefixed_decimal("@R", self.index)
    }
}

/// Identifier of a const generic variable: a dense index into the owning declaration's vector.
#[derive(Debug, Clone, Copy, PartialEq, Eq, Hash, Structural)]
pub struct ConstGenericVarId {
    pub index: usize,
}

impl ConstGenericVarId {
    pub fn new(index: usize) -> (r: Self)
        ensures
            r.index == index,
    {
        ConstGenericVarId { index }
    }

    /// Prints the identifier as `@Const` followed by its index in decimal.
    pub fn to_pretty_string(self) -> (r: String)
        ensures
            r@ == "@Const"@ + decimal_digits(self.index as nat),
    {
        prefixed_decimal("@Const", self.index)
    }
}

/// Identifier of a global declaration: a dense index into the owning declaration's vector.
#[derive(Debug, Clone, Copy, PartialEq, Eq, Hash, Structural)]
pub struct GlobalDeclId {
    pub index: usize,
}

impl GlobalDeclId {
    pub fn new(index: usize) -> (r: Self)
        ensures
            r.index == index,
    {
        GlobalDeclId { index }
    }

    /// Prints the identifier as `@Global` followed by its index in decimal.
    pub fn to_pretty_string(self) -> (r: String)
        ensures
            r@ == "@Global"@ + decimal_digits(self.index as nat),
    {
        prefixed_decimal("@Global", self.index)
    }
}

/// Identifier of a trait clause: a dense index into the owning declaration's vector.
#[derive(Debug, Clone, Copy, PartialEq, Eq, Hash, Structural)]
pub struct TraitClauseId {
    pub index: usize,
}

impl TraitClauseId {
    pub fn new(index: usize) -> (r: Self)
        ensures
            r.index == index,
    {
        TraitClauseId { index }
    }

    /// Prints the identifier as `@TraitClause` followed by its index in decimal.
    pub fn to_pretty_string(self) -> (r: String)
        ensures
            r@ == "@TraitClause"@ + decimal_digits(self.index as nat),
    {
        prefixed_decimal("@TraitClause", self.index)
    }
}

/// Identifier of a trait declaration: a dense index into the owning declaration's vector.
#[derive(Debug, Clone, Copy, PartialEq, Eq, Hash, Structural)]
pub struct TraitDeclId {
    pub index: usize,
}

impl TraitDeclId {
    pub fn new(index: usize) -> (r: Self)
        ensures
            r.index == index,
    {
        TraitDeclId { index }
    }

    /// Prints the identifier as `@TraitDecl` followed by its index in decimal.
    pub fn to_pretty_string(self) -> (r: String)
        ensures
            r@ == "@TraitDecl"@ + decimal_digits(self.index as nat),
    {
        prefixed_decimal("@TraitDecl", self.index)
    }
}

/// Identifier of a trait implementation: a dense index into the owning declaration's vector.
#[derive(Debug, Clone, Copy, PartialEq, Eq, Hash, Structural)]
pub struct TraitImplId {
    pub index: usize,
}

impl TraitImplId {
    pub fn new(index: usize) -> (r: Self)
        ensures
            r.index == index,
    {
        TraitImplId { index }
    }

    /// Prints the identifier as `@TraitImpl` followed by its index in decimal.
    pub fn to_pretty_string(self) -> (r: String)
        ensures
            r@ == "@TraitImpl"@ + decimal_digits(self.index as nat),
    {
        prefixed_decimal("@TraitImpl", self.index)
    }
}

} // verus!
