//! The OASIS Universal Business Language binding: its namespace set and its marker.

use vstd::prelude::*;

verus! {

/// The record-form namespace set of the UBL binding.
///
/// A member renders as the abbreviation of its namespace URI,
/// so a UBL path reads as `/Q{INV}Invoice[1]/Q{CAC}InvoiceLine[2]/Q{CBC}ID[1]`.
#[derive(Debug, Clone, Copy, PartialEq, Eq, Structural)]
pub enum Namespace {
    /// The namespace of the root `Invoice` document.
    Inv,
    /// The Common Aggregate Components namespace, holding the nested business groups.
    Cac,
    /// The Common Basic Components namespace, holding the leaf fields.
    Cbc,
}

impl Namespace {
    /// The short rendering of the member, such as `INV`.
    pub fn to_string(&self) -> (s: String)
        ensures
            s@ == crate::namespace::Namespace::spec_render(*self),
    {
        crate::text::owned(crate::namespace::Namespace::render(*self))
    }
}

impl crate::namespace::Namespace for Namespace {
    open spec fn spec_uri(self) -> Seq<char> {
        match self {
            Namespace::Inv => "urn:oasis:names:specification:ubl:schema:xsd:Invoice-2"@,
            Namespace::Cac => "urn:oasis:names:specification:ubl:schema:xsd:CommonAggregateComponents-2"@,
            Namespace::Cbc => "urn:oasis:names:specification:ubl:schema:xsd:CommonBasicComponents-2"@,
        }
    }

    open spec fn spec_prefix(self) -> Seq<char> {
        match self {
            Namespace::Inv => ""@,
            Namespace::Cac => "cac"@,
            Namespace::Cbc => "cbc"@,
        }
    }

    open spec fn spec_abbreviation(self) -> Seq<char> {
        match self {
            Namespace::Inv => "ubl"@,
            Namespace::Cac => "cac"@,
            Namespace::Cbc => "cbc"@,
        }
    }

    open spec fn spec_render(self) -> Seq<char> {
        match self {
            Namespace::Inv => "INV"@,
            Namespace::Cac => "CAC"@,
            Namespace::Cbc => "CBC"@,
        }
    }

    open spec fn spec_members() -> Seq<Self> {
        seq![Namespace::Inv, Namespace::Cac, Namespace::Cbc]
    }

    fn uri(self) -> (r: &'static str) {
        match self {
            Namespace::Inv => "urn:oasis:names:specification:ubl:schema:xsd:Invoice-2",
            Namespace::Cac => "urn:oasis:names:specification:ubl:schema:xsd:CommonAggregateComponents-2",
            Namespace::Cbc => "urn:oasis:names:specification:ubl:schema:xsd:CommonBasicComponents-2",
        }
    }

    // The root carries the default namespace, so it needs no prefix.
    fn prefix(self) -> (r: &'static str) {
        match self {
            Namespace::Inv => "",
            Namespace::Cac => "cac",
            Namespace::Cbc => "cbc",
        }
    }

    fn abbreviation(self) -> (r: &'static str) {
        match self {
            Namespace::Inv => "ubl",
            Namespace::Cac => "cac",
            Namespace::Cbc => "cbc",
        }
    }

    fn render(self) -> (r: &'static str) {
        match self {
            Namespace::Inv => "INV",
            Namespace::Cac => "CAC",
            Namespace::Cbc => "CBC",
        }
    }

    fn members() -> (r: Vec<Self>) {
        let r = vec![Namespace::Inv, Namespace::Cac, Namespace::Cbc];
        assert(r@ =~= Self::spec_members());
        r
    }

    fn same(self, other: Self) -> (b: bool) {
        self == other
    }

    proof fn lemma_members() {
        reveal_strlit("urn:oasis:names:specification:ubl:schema:xsd:Invoice-2");
        reveal_strlit("urn:oasis:names:specification:ubl:schema:xsd:CommonAggregateComponents-2");
        reveal_strlit("urn:oasis:names:specification:ubl:schema:xsd:CommonBasicComponents-2");
        reveal_strlit("");
        reveal_strlit("cac");
        reveal_strlit("cbc");
        reveal_strlit("ubl");
        let m = Self::spec_members();
        assert forall|n: Self| #[trigger] m.contains(n) by {
            match n {
                Namespace::Inv => assert(m[0] == n),
                Namespace::Cac => assert(m[1] == n),
                Namespace::Cbc => assert(m[2] == n),
            }
        }
        assert("urn:oasis:names:specification:ubl:schema:xsd:Invoice-2"@[45] != "urn:oasis:names:specification:ubl:schema:xsd:CommonAggregateComponents-2"@[45]);
        assert("urn:oasis:names:specification:ubl:schema:xsd:CommonAggregateComponents-2"@[51] != "urn:oasis:names:specification:ubl:schema:xsd:CommonBasicComponents-2"@[51]);
        assert("urn:oasis:names:specification:ubl:schema:xsd:Invoice-2"@.len() != "urn:oasis:names:specification:ubl:schema:xsd:CommonBasicComponents-2"@.len());
        assert("cac"@[1] != "cbc"@[1]);
        assert(""@.len() != "cac"@.len());
        assert(""@.len() != "cbc"@.len());
        assert(Namespace::Inv.spec_prefix() != Namespace::Cac.spec_prefix());
        assert(Namespace::Inv.spec_prefix() != Namespace::Cbc.spec_prefix());
        assert(Namespace::Cac.spec_prefix() != Namespace::Cbc.spec_prefix());
        assert("ubl"@[0] != "cac"@[0]);
        assert("ubl"@[0] != "cbc"@[0]);
        assert(""@.len() != "ubl"@.len());
    }
}

} // verus!
