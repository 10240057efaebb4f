//! The UN/CEFACT Cross Industry Invoice binding: its namespace set.

use vstd::prelude::*;

verus! {

/// The record-form namespace set of the CII binding.
///
/// A member renders as the abbreviation of its namespace URI,
/// so a CII path reads as `/Q{RSM}CrossIndustryInvoice[1]/Q{RAM}...`.
#[derive(Debug, Clone, Copy, PartialEq, Eq, Structural)]
pub enum Namespace {
    /// The namespace of the root `CrossIndustryInvoice` document
    /// and its top-level structural elements.
    Rsm,
    /// The Reusable Aggregate Business Information Entity namespace,
    /// holding the business groups and fields.
    Ram,
    /// The Unqualified Data Type namespace, holding the value carriers.
    Udt,
    /// The Qualified Data Type namespace, holding the formatted value carriers.
    Qdt,
}

impl Namespace {
    /// The short rendering of the member, such as `INV`.
    pub fn to_string(&self) -> (s: String)
        ensures
            s@ == crate::namespace::Namespace::spec_render(*self),
    {
        crate::text::owned(crate::namespace::Namespace::render(*self))
    }
}

impl crate::namespace::Namespace for Namespace {
    open spec fn spec_uri(self) -> Seq<char> {
        match self {
            Namespace::Rsm => "urn:un:unece:uncefact:data:standard:CrossIndustryInvoice:100"@,
            Namespace::Ram => "urn:un:unece:uncefact:data:standard:ReusableAggregateBusinessInformationEntity:100"@,
            Namespace::Udt => "urn:un:unece:uncefact:data:standard:UnqualifiedDataType:100"@,
            Namespace::Qdt => "urn:un:unece:uncefact:data:standard:QualifiedDataType:100"@,
        }
    }

    open spec fn spec_prefix(self) -> Seq<char> {
        match self {
            Namespace::Rsm => "rsm"@,
            Namespace::Ram => "ram"@,
            Namespace::Udt => "udt"@,
            Namespace::Qdt => "qdt"@,
        }
    }

    open spec fn spec_abbreviation(self) -> Seq<char> {
        match self {
            Namespace::Rsm => "rsm"@,
            Namespace::Ram => "ram"@,
            Namespace::Udt => "udt"@,
            Namespace::Qdt => "qdt"@,
        }
    }

    open spec fn spec_render(self) -> Seq<char> {
        match self {
            Namespace::Rsm => "RSM"@,
            Namespace::Ram => "RAM"@,
            Namespace::Udt => "UDT"@,
            Namespace::Qdt => "QDT"@,
        }
    }

    open spec fn spec_members() -> Seq<Self> {
        seq![Namespace::Rsm, Namespace::Ram, Namespace::Udt, Namespace::Qdt]
    }

    fn uri(self) -> (r: &'static str) {
        match self {
            Namespace::Rsm => "urn:un:unece:uncefact:data:standard:CrossIndustryInvoice:100",
            Namespace::Ram => "urn:un:unece:uncefact:data:standard:ReusableAggregateBusinessInformationEntity:100",
            Namespace::Udt => "urn:un:unece:uncefact:data:standard:UnqualifiedDataType:100",
            Namespace::Qdt => "urn:un:unece:uncefact:data:standard:QualifiedDataType:100",
        }
    }

    fn prefix(self) -> (r: &'static str) {
        match self {
            Namespace::Rsm => "rsm",
            Namespace::Ram => "ram",
            Namespace::Udt => "udt",
            Namespace::Qdt => "qdt",
        }
    }

    fn abbreviation(self) -> (r: &'static str) {
        match self {
            Namespace::Rsm => "rsm",
            Namespace::Ram => "ram",
            Namespace::Udt => "udt",
            Namespace::Qdt => "qdt",
        }
    }

    fn render(self) -> (r: &'static str) {
        match self {
            Namespace::Rsm => "RSM",
            Namespace::Ram => "RAM",
            Namespace::Udt => "UDT",
            Namespace::Qdt => "QDT",
        }
    }

    fn members() -> (r: Vec<Self>) {
        let r = vec![Namespace::Rsm, Namespace::Ram, Namespace::Udt, Namespace::Qdt];
        assert(r@ =~= Self::spec_members());
        r
    }

    fn same(self, other: Self) -> (b: bool) {
        self == other
    }

    proof fn lemma_members() {
        reveal_strlit("urn:un:unece:uncefact:data:standard:CrossIndustryInvoice:100");
        reveal_strlit("urn:un:unece:uncefact:data:standard:ReusableAggregateBusinessInformationEntity:100");
        reveal_strlit("urn:un:unece:uncefact:data:standard:UnqualifiedDataType:100");
        reveal_strlit("urn:un:unece:uncefact:data:standard:QualifiedDataType:100");
        reveal_strlit("rsm");
        reveal_strlit("ram");
        reveal_strlit("udt");
        reveal_strlit("qdt");
        let m = Self::spec_members();
        assert forall|n: Self| #[trigger] m.contains(n) by {
            match n {
                Namespace::Rsm => assert(m[0] == n),
                Namespace::Ram => assert(m[1] == n),
                Namespace::Udt => assert(m[2] == n),
                Namespace::Qdt => assert(m[3] == n),
            }
        }
        assert("urn:un:unece:uncefact:data:standard:CrossIndustryInvoice:100"@[36] != "urn:un:unece:uncefact:data:standard:ReusableAggregateBusinessInformationEntity:100"@[36]);
        assert("urn:un:unece:uncefact:data:standard:CrossIndustryInvoice:100"@[36] != "urn:un:unece:uncefact:data:standard:UnqualifiedDataType:100"@[36]);
        assert("urn:un:unece:uncefact:data:standard:CrossIndustryInvoice:100"@[36] != "urn:un:unece:uncefact:data:standard:QualifiedDataType:100"@[36]);
        assert("urn:un:unece:uncefact:data:standard:ReusableAggregateBusinessInformationEntity:100"@[36] != "urn:un:unece:uncefact:data:standard:UnqualifiedDataType:100"@[36]);
        assert("urn:un:unece:uncefact:data:standard:ReusableAggregateBusinessInformationEntity:100"@[36] != "urn:un:unece:uncefact:data:standard:QualifiedDataType:100"@[36]);
        assert("urn:un:unece:uncefact:data:standard:UnqualifiedDataType:100"@[36] != "urn:un:unece:uncefact:data:standard:QualifiedDataType:100"@[36]);
        assert("rsm"@[1] != "ram"@[1]);
        assert("rsm"@[0] != "udt"@[0]);
        assert("rsm"@[0] != "qdt"@[0]);
        assert("ram"@[0] != "udt"@[0]);
        assert("ram"@[0] != "qdt"@[0]);
        assert("udt"@[0] != "qdt"@[0]);
    }
}

} // verus!
