//! Paths naming declarations.
use vstd::prelude::*;

verus! {

/// One segment of a path: an identifier with its disambiguator, or an
/// implementation block.
#[derive(Debug, PartialEq, Eq)]
pub enum PathElem {
    Ident(String, usize),
    Impl,
}

/// The path of a declaration.
#[derive(Debug, PartialEq, Eq)]
pub struct Name {
    pub name: Vec<PathElem>,
}

pub type TypeName = Name;

pub type FunName = Name;

/// The characters of each string of a list.
pub open spec fn strings_view(v: Seq<String>) -> Seq<Seq<char>> {
    v.map_values(|s: String| s@)
}

impl Name {
    /// The path is made of identifiers spelled as in `reference`, whatever
    /// their disambiguators.
    pub open spec fn matches_ref(&self, reference: Seq<Seq<char>>) -> bool {
        &&& self.name@.len() == reference.len()
        &&& forall|i: int|
            0 <= i < reference.len() ==> match #[trigger] self.name@[i] {
                PathElem::Ident(s, _) => s@ == reference[i],
                PathElem::Impl => false,
            }
    }

    /// Compares the path with a reference path, ignoring disambiguators.
    pub fn equals_ref_name(&self, reference: &Vec<String>) -> (r: bool)
        ensures
            r == self.matches_ref(strings_view(reference@)),
    {
        if self.name.len() != reference.len() {
            return false;
        }
        let mut i: usize = 0;
        while i < reference.len()
            invariant
                i <= reference@.len(),
                self.name@.len() == reference@.len(),
                forall|j: int|
                    0 <= j < i ==> match #[trigger] self.name@[j] {
                        PathElem::Ident(s, _) => s@ == reference@[j]@,
                        PathElem::Impl => false,
                    },
            decreases reference@.len() - i,
        {
            match &self.name[i] {
                PathElem::Ident(s, _) => {
                    if !(*s == reference[i]) {
                        return false;
                    }
                },
                PathElem::Impl => {
                    return false;
                },
            }
            i += 1;
        }
        true
    }
}

} // verus!
