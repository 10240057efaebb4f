//! The terms of the semantic model: its business terms and its business groups.

use vstd::prelude::*;

verus! {

/// A term of EN-16931: a business term (`BT-n`) or a business group (`BG-n`).
#[derive(Debug, Clone, Copy, PartialEq, Eq, Structural)]
pub enum Term {
    /// A business term.
    BT(u16),
    /// A business group.
    BG(u16),
}

impl Term {
    /// Whether two terms are the same.
    pub fn same(&self, other: &Term) -> (r: bool)
        ensures
            r == (*self == *other),
    {
        match (self, other) {
            (Term::BT(a), Term::BT(b)) => *a == *b,
            (Term::BG(a), Term::BG(b)) => *a == *b,
            _ => false,
        }
    }
}

} // verus!
