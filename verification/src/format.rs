//! The XML bindings of the standard, each represented by a marker type.

use vstd::prelude::*;
use crate::table::spec_lookup;
use crate::binding::Binding;
use crate::document::DocumentBuilder;
use crate::error::Error;
use crate::model::Invoice;
use crate::namespace::{Namespace, spec_default_entries};
use crate::parser::{spec_expected, spec_opens, Parser};
use crate::profile::Profile;
use crate::serializer::{spec_root_written, Serializer};
use crate::term::Term;

verus! {

/// An XML binding of the standard, represented by a marker type.
pub trait Format {
    /// The base set of record-form namespaces this binding writes.
    type Namespace: Namespace;

    /// The namespace of the root element of a document in this binding.
    spec fn spec_root_namespace() -> Self::Namespace;

    /// The local name of the root element of a document in this binding.
    spec fn spec_root_element() -> Seq<char>;

    /// The binding this marker stands for.
    spec fn spec_binding() -> Binding;

    /// The namespace of the root element of a document in this binding.
    fn root_namespace() -> (r: Self::Namespace)
        ensures
            r == Self::spec_root_namespace(),
    ;

    /// The local name of the root element of a document in this binding.
    fn root_element() -> (r: &'static str)
        ensures
            r@ == Self::spec_root_element(),
    ;

    /// The binding this marker stands for, as a validator's target names it.
    fn binding() -> (r: Binding)
        ensures
            r == Self::spec_binding(),
    ;
}

/// The marker of the OASIS Universal Business Language binding.
#[derive(Debug, Clone, Copy, PartialEq, Eq)]
pub struct Ubl;

/// The marker of the UN/CEFACT Cross Industry Invoice binding.
#[derive(Debug, Clone, Copy, PartialEq, Eq)]
pub struct Cii;

impl Format for Ubl {
    type Namespace = crate::ubl::Namespace;

    open spec fn spec_root_namespace() -> crate::ubl::Namespace {
        crate::ubl::Namespace::Inv
    }

    open spec fn spec_root_element() -> Seq<char> {
        "Invoice"@
    }

    open spec fn spec_binding() -> Binding {
        Binding::Ubl
    }

    fn root_namespace() -> (r: crate::ubl::Namespace) {
        crate::ubl::Namespace::Inv
    }

    fn root_element() -> (r: &'static str) {
        "Invoice"
    }

    fn binding() -> (r: Binding) {
        Binding::Ubl
    }
}

impl Format for Cii {
    type Namespace = crate::cii::Namespace;

    open spec fn spec_root_namespace() -> crate::cii::Namespace {
        crate::cii::Namespace::Rsm
    }

    open spec fn spec_root_element() -> Seq<char> {
        "CrossIndustryInvoice"@
    }

    open spec fn spec_binding() -> Binding {
        Binding::Cii
    }

    fn root_namespace() -> (r: crate::cii::Namespace) {
        crate::cii::Namespace::Rsm
    }

    fn root_element() -> (r: &'static str) {
        "CrossIndustryInvoice"
    }

    fn binding() -> (r: Binding) {
        Binding::Cii
    }
}

/// Writes an invoice in the XML of the binding `F`.
pub trait Serializable<F: Format> {
    /// The document the binding writes for the invoice, the profile and the business process,
    /// leaving out the forbidden terms.
    spec fn spec_written(invoice: Invoice, profile: Profile, business_process: Option<String>, forbidden: Seq<Term>) -> Seq<char>;

    /// Writes the whole invoice under the root element of the binding, filling the dictionary
    /// and the abbreviation table in the same pass. The profile stamps its `BT-24` identifier
    /// and its forbidden terms are left out.
    fn serialize(
        serializer: &mut Serializer<F::Namespace>,
        invoice: &Invoice,
        profile: Profile,
        business_process: &Option<String>,
    )
        requires
            old(serializer).wf(),
            old(serializer).spec_abbreviations() == spec_default_entries::<F::Namespace>(),
        ensures
            final(serializer).wf(),
            final(serializer).spec_trace().spec_path() == old(serializer).spec_trace().spec_path(),
            final(serializer).spec_trace().spec_context() == old(serializer).spec_trace().spec_context(),
            final(serializer).spec_forbidden() == old(serializer).spec_forbidden(),
            spec_root_written::<F>(old(serializer).spec_xml(), final(serializer).spec_xml()),
            final(serializer).spec_xml() == old(serializer).spec_xml() + Self::spec_written(
                *invoice,
                profile,
                *business_process,
                old(serializer).spec_forbidden(),
            ),
            final(serializer).spec_trace().spec_dictionary().lookup(
                old(serializer).spec_trace().spec_path().push(crate::serializer::spec_root_step::<F>(old(serializer).spec_trace())),
            ) == Some(Seq::<crate::context::SegmentView>::empty()),
            forall|n: F::Namespace| #[trigger] spec_lookup(final(serializer).spec_abbreviations(), n.spec_prefix())
                == Some(n),
            forall|n: F::Namespace| #[trigger] spec_lookup(final(serializer).spec_abbreviations(), n.spec_abbreviation())
                == Some(n),
    ;
}

/// Restores an invoice from the XML of the binding `F`.
pub trait Deserializable<F: Format> {
    /// Whether the builder holds what the binding reads from the document whose root element
    /// starts at `cursor`: its profile and the head of its invoice.
    spec fn spec_reads(tokens: Seq<crate::token::TokenView<F::Namespace>>, cursor: int, builder: DocumentBuilder) -> bool;

    /// Whether the binding refuses the document whose root element starts at `cursor` for its
    /// head: a missing root, an unknown profile, or a malformed head.
    spec fn spec_refused(tokens: Seq<crate::token::TokenView<F::Namespace>>, cursor: int) -> bool;

    /// Reads the whole document from the parser into a builder, from the root element down,
    /// filling the dictionary in the same pass.
    fn deserialize(parser: &mut Parser<F::Namespace>) -> (r: Result<DocumentBuilder, Error>)
        requires
            old(parser).wf(),
        ensures
            final(parser).follows(old(parser)),
            r is Ok ==> final(parser).restored(old(parser)),
            !spec_opens(old(parser).spec_tokens(), old(parser).spec_cursor(), F::spec_root_namespace(), F::spec_root_element())
                ==> (r matches Err(e) && e@ == spec_expected(F::spec_root_element())),
            r matches Ok(b) ==> Self::spec_reads(old(parser).spec_tokens(), old(parser).spec_cursor(), b),
            Self::spec_refused(old(parser).spec_tokens(), old(parser).spec_cursor()) ==> r is Err,
    ;
}

impl Serializable<Ubl> for Invoice {
    /// The document the UBL writing walk writes.
    open spec fn spec_written(invoice: Invoice, profile: Profile, business_process: Option<String>, forbidden: Seq<Term>) -> Seq<char> {
        crate::ubl_write::spec_ubl_document(invoice, profile, business_process, forbidden)
    }

    fn serialize(
        serializer: &mut Serializer<crate::ubl::Namespace>,
        invoice: &Invoice,
        profile: Profile,
        business_process: &Option<String>,
    ) {
        crate::ubl_write::serialize(serializer, invoice, profile, business_process);
    }
}

impl Serializable<Cii> for Invoice {
    /// The document the CII writing walk writes.
    open spec fn spec_written(invoice: Invoice, profile: Profile, business_process: Option<String>, forbidden: Seq<Term>) -> Seq<char> {
        crate::cii_write::spec_cii_document(invoice, profile, business_process, forbidden)
    }

    fn serialize(
        serializer: &mut Serializer<crate::cii::Namespace>,
        invoice: &Invoice,
        profile: Profile,
        business_process: &Option<String>,
    ) {
        crate::cii_write::serialize(serializer, invoice, profile, business_process);
    }
}

impl Deserializable<Ubl> for Invoice {
    /// The profile is the one the customization identifier names, the head is the one
    /// `spec_ubl_head` reads after it, and the currency and buyer references the ones
    /// `spec_ubl_codes` reads after the head, and the references before the additional documents
    /// the ones `spec_ubl_reference_heads` reads after those, and the additional documents and
    /// the project reference the ones `spec_ubl_documents_tail` reads after them, and the seller
    /// and buyer the ones `spec_ubl_parties_head` reads after those, then the payee and tax
    /// representative the ones `spec_ubl_other_parties` reads, then the delivery, payment means
    /// and payment terms the ones `spec_ubl_settlement_heads` reads.
    open spec fn spec_reads(tokens: Seq<crate::token::TokenView<crate::ubl::Namespace>>, cursor: int, builder: DocumentBuilder) -> bool {
        &&& spec_opens(tokens, cursor, Ubl::spec_root_namespace(), Ubl::spec_root_element())
        &&& match crate::parser::spec_leaf_at(tokens, cursor + 1, crate::ubl::Namespace::Cbc, "CustomizationID"@) {
            None => false,
            Some((t, next)) => crate::profile::spec_profile_id(builder.profile) == t && match crate::ubl_read::spec_ubl_head(tokens, next) {
                Some((h, c)) => h == crate::ubl_read::spec_head_of(builder) && match crate::ubl_read::spec_ubl_codes_at(tokens, c) {
                    Some((codes, d)) => codes == crate::ubl_read::spec_codes_of(builder.invoice) && match crate::ubl_read::spec_ubl_reference_heads_at(
                        tokens,
                        d,
                    ) {
                        Some((refs, e)) => refs == crate::ubl_read::spec_refs_of(builder.invoice) && match crate::ubl_read::spec_ubl_documents_tail(
                            tokens,
                            e,
                        ) {
                            Some((w, f)) => w == crate::ubl_read::spec_documents_of(builder.invoice) && match crate::ubl_read::spec_ubl_parties_head(
                                tokens,
                                f,
                            ) {
                                Some((sv, bv, g)) => sv == crate::ubl_read::spec_seller_opt(builder.invoice.seller) && bv
                                    == crate::ubl_read::spec_buyer_opt(builder.invoice.buyer) && match crate::ubl_read::spec_ubl_other_parties(
                                    tokens,
                                    g,
                                ) {
                                    Some((pv, rv, h)) => pv == crate::ubl_read::spec_payee_opt(builder.invoice.payee) && rv
                                        == crate::ubl_read::spec_representative_opt(builder.invoice.tax_representative) && match crate::ubl_read::spec_ubl_settlement_heads(
                                        tokens,
                                        h,
                                    ) {
                                        Some((dv, mv, tv, _)) => dv == crate::ubl_read::spec_delivery_opt(builder.invoice.delivery) && mv
                                            == crate::ubl_read::spec_payment_opt(builder.invoice.payment) && tv == crate::ubl_read::spec_texts(
                                            builder.invoice.payment_terms,
                                        ),
                                        None => false,
                                    },
                                    None => false,
                                },
                                None => false,
                            },
                            None => false,
                        },
                        None => false,
                    },
                    None => false,
                },
                None => false,
            },
        }
    }

    open spec fn spec_refused(tokens: Seq<crate::token::TokenView<crate::ubl::Namespace>>, cursor: int) -> bool {
        ||| !spec_opens(tokens, cursor, Ubl::spec_root_namespace(), Ubl::spec_root_element())
        ||| match crate::parser::spec_leaf_at(tokens, cursor + 1, crate::ubl::Namespace::Cbc, "CustomizationID"@) {
            None => true,
            Some((t, next)) => (forall|v: Profile| crate::profile::spec_profile_id(v) != t) || match crate::ubl_read::spec_ubl_head(
                tokens,
                next,
            ) {
                Some((_, c)) => match crate::ubl_read::spec_ubl_codes_at(tokens, c) {
                    None => true,
                    Some((_, d)) => match crate::ubl_read::spec_ubl_reference_heads_at(tokens, d) {
                        None => true,
                        Some((_, e)) => match crate::ubl_read::spec_ubl_documents_tail(tokens, e) {
                            None => true,
                            Some((_, f)) => match crate::ubl_read::spec_ubl_parties_head(tokens, f) {
                                None => true,
                                Some((_, _, g)) => match crate::ubl_read::spec_ubl_other_parties(tokens, g) {
                                    None => true,
                                    Some((_, _, h)) => crate::ubl_read::spec_ubl_settlement_heads(tokens, h) is None,
                                },
                            },
                        },
                    },
                },
                None => true,
            },
        }
    }

    fn deserialize(parser: &mut Parser<crate::ubl::Namespace>) -> (r: Result<DocumentBuilder, Error>) {
        crate::ubl_read::deserialize(parser)
    }
}

impl Deserializable<Cii> for Invoice {
    /// The profile and the business process are the ones the document context names, and the
    /// number, type code, issue date and notes are the ones `spec_cii_exchanged` reads after
    /// the context.
    open spec fn spec_reads(tokens: Seq<crate::token::TokenView<crate::cii::Namespace>>, cursor: int, builder: DocumentBuilder) -> bool {
        &&& spec_opens(tokens, cursor, Cii::spec_root_namespace(), Cii::spec_root_element())
        &&& crate::cii_read::spec_context_profile(tokens, cursor + 1) == Some(crate::profile::spec_profile_id(builder.profile))
        &&& crate::cii_read::spec_context_process(tokens, cursor + 1) == Some(crate::ubl_read::spec_string_of(builder.business_process))
        &&& match crate::cii_read::spec_context_end(tokens, cursor + 1) {
            None => false,
            Some(c) => crate::cii_read::spec_cii_exchanged(tokens, c) == Some(crate::cii_read::spec_exchanged_of(builder.invoice)),
        }
    }

    open spec fn spec_refused(tokens: Seq<crate::token::TokenView<crate::cii::Namespace>>, cursor: int) -> bool {
        ||| !spec_opens(tokens, cursor, Cii::spec_root_namespace(), Cii::spec_root_element())
        ||| match crate::cii_read::spec_context_profile(tokens, cursor + 1) {
            None => true,
            Some(t) => (forall|v: Profile| crate::profile::spec_profile_id(v) != t) || match crate::cii_read::spec_context_end(
                tokens,
                cursor + 1,
            ) {
                Some(c) => crate::cii_read::spec_cii_exchanged(tokens, c) is None,
                None => true,
            },
        }
    }

    fn deserialize(parser: &mut Parser<crate::cii::Namespace>) -> (r: Result<DocumentBuilder, Error>) {
        crate::cii_read::deserialize(parser)
    }
}

} // verus!
