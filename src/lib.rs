//! Typed intermediate representation of types, generic parameters and
//! trait obligations, with the machinery that manipulates it: substitution,
//! unification and traversal.
pub mod assumed;
pub mod collections;
pub mod decimal;
pub mod decls;
pub mod ids;
pub mod make_subst;
pub mod names;
pub mod queries;
pub mod rewrite;
pub mod subst;
pub mod subst_spec;
pub mod types;
pub mod unify;
pub mod unify_spec;
pub mod values;
pub mod visit;
pub mod visit_decls;
