//! The CII reading walk: the invoice read from the tokens of a CII document, from the root
//! element down, with the dictionary of its nodes filled in the same pass.

use vstd::prelude::*;
use crate::cii::Namespace;
use crate::decimal::Decimal;
use crate::document::DocumentBuilder;
use crate::error::Error;
use crate::exemption_reason::ExemptionReason;
use crate::format::{Cii, Format};
use crate::invoice_type::InvoiceType;
use crate::model::{
    BinaryObject, Buyer, Classification, Contact, CreditTransfer, Delivery, Details, DirectDebit,
    ElectronicAddress, Invoice, InvoiceLine, Item, ItemAttribute, ItemReference, LegalEntity,
    LocationReference, ObjectReference, OperationalEntity, Payee, PaymentCard,
    PaymentInstructions, Period, PostalAddress, PrecedingInvoice, Seller, SupportingDocument,
    TaxRepresentative, VatBreakdown, VatIdentifier, VatPoint,
};
use crate::parser::{spec_carrier_at, spec_expected, spec_filled_text, spec_leaf_at, spec_opens, spec_optional_leaf_at, spec_closes, spec_open_attributes, spec_optional_wrapped_leaf_at,
    spec_optional_carrier_at, Parser,
};
use crate::pricing::{Adjustment, Amount, LineAdjustment, Price, Reason};
use crate::profile::Profile;
use crate::reading::{
    attribute, parse_basic_date, parse_country, parse_currency, parse_decimal, parse_email,
    parse_quantity, parse_url, period_from,
};
use crate::serializer::lemma_push_then_drop;
use crate::text::{str_eq, trim};
use crate::ubl_read::{fill_exemption, parse_percentage, Exemption};
use crate::values::{Date, NonEmptyString, Percentage};
use crate::vat::{VatCategory, VatTreatment};

verus! {

broadcast use lemma_push_then_drop;

/// A non-empty text from an optional attribute.
fn optional_attribute(attributes: &Vec<(String, String)>, key: &str) -> (r: Result<Option<NonEmptyString>, Error>)
    ensures
        match crate::reading::spec_attribute(crate::token::spec_attributes(attributes@), key@) {
            None => r matches Ok(None),
            Some(v) => if v.len() > 0 {
                r matches Ok(Some(x)) && x@ == v
            } else {
                r matches Err(e) && e@ == crate::error::ErrorView::InvalidValue("empty text"@)
            },
        },
{
    match attribute(attributes, key) {
        Some(value) => Ok(Some(NonEmptyString::parse(value)?)),
        None => Ok(None),
    }
}

/// The text of the specification identifier (`BT-24`) of the document context that opens at
/// a cursor, when its parameters are laid out as the context reading expects.
pub open spec fn spec_context_profile(tokens: Seq<crate::token::TokenView<Namespace>>, cursor: int) -> Option<Seq<char>> {
    match spec_optional_wrapped_leaf_at(
        tokens,
        cursor + 1,
        Namespace::Ram,
        "BusinessProcessSpecifiedDocumentContextParameter"@,
        Namespace::Ram,
        "ID"@,
    ) {
        None => None,
        Some((_, after_process)) => match spec_leaf_at(tokens, after_process + 1, Namespace::Ram, "ID"@) {
            None => None,
            Some((id, _)) => Some(id),
        },
    }
}

/// Reads the whole invoice from the parser, from the root element down, filling the
/// dictionary in the same pass. The exemption reason that the VAT breakdown states is
/// given to the exempt lines and adjustments.
///
/// A missing mandatory element or a malformed value fails the read.
#[verifier::spinoff_prover]
pub fn deserialize(p: &mut Parser<Namespace>) -> (r: Result<DocumentBuilder, Error>)
    requires
        old(p).wf(),
    ensures
        final(p).follows(old(p)),
        r is Ok ==> final(p).restored(old(p)),
        !spec_opens(old(p).spec_tokens(), old(p).spec_cursor(), Cii::spec_root_namespace(), Cii::spec_root_element())
            ==> (r matches Err(e) && e@ == spec_expected(Cii::spec_root_element())),
        spec_opens(old(p).spec_tokens(), old(p).spec_cursor(), Cii::spec_root_namespace(), Cii::spec_root_element())
            ==> match spec_context_profile(old(p).spec_tokens(), old(p).spec_cursor() + 1) {
            None => r is Err,
            Some(t) => {
                &&& (forall|v: Profile| crate::profile::spec_profile_id(v) != t) ==> r is Err
                &&& r matches Ok(b) ==> crate::profile::spec_profile_id(b.profile) == t
                &&& r matches Ok(b) ==> spec_context_process(old(p).spec_tokens(), old(p).spec_cursor() + 1) == Some(
                    crate::ubl_read::spec_string_of(b.business_process),
                )
                &&& spec_context_end(old(p).spec_tokens(), old(p).spec_cursor() + 1) matches Some(c) && {
                    &&& spec_cii_exchanged(old(p).spec_tokens(), c) is None ==> r is Err
                    &&& r matches Ok(b) ==> spec_cii_exchanged(old(p).spec_tokens(), c) == Some(spec_exchanged_of(b.invoice))
                }
            },
        },
{
    p.enter_structural(Cii::root_namespace(), Cii::root_element())?;
    let (profile, business_process) = exchanged_document_context(p)?;
    assert(spec_context_profile(old(p).spec_tokens(), old(p).spec_cursor() + 1) == Some(crate::profile::spec_profile_id(profile)));
    assert(spec_context_end(old(p).spec_tokens(), old(p).spec_cursor() + 1) == Some(p.spec_cursor()));
    let mut head = Invoice::new(InvoiceType::CommercialInvoice);
    exchanged_document(p, &mut head)?;
    let mut invoice = Invoice::new(InvoiceType::CommercialInvoice);
    let mut exemption = Exemption { reason: None };
    if p.is_open(Namespace::Rsm, "SupplyChainTradeTransaction") {
        p.enter_structural(Namespace::Rsm, "SupplyChainTradeTransaction")?;
        let ghost before_lines = *p;
        let mut lines: Vec<InvoiceLine> = Vec::new();
        while p.is_open(Namespace::Ram, "IncludedSupplyChainTradeLineItem")
            invariant
                p.restored(&before_lines),
                before_lines.wf(),
                before_lines.follows(old(p)),
            spec_opens(old(p).spec_tokens(), old(p).spec_cursor(), Cii::spec_root_namespace(), Cii::spec_root_element()),
                lines@.len() <= p.spec_cursor() - before_lines.spec_cursor(),
                spec_context_profile(old(p).spec_tokens(), old(p).spec_cursor() + 1) == Some(crate::profile::spec_profile_id(profile)),
            decreases p.spec_tokens().len() - p.spec_cursor(),
        {
            let line = read_line(p, lines.len() + 1)?;
            lines.push(line);
        }
        invoice.lines = lines;
        header_trade_agreement(p, &mut invoice)?;
        header_trade_delivery(p, &mut invoice)?;
        exemption = header_trade_settlement(p, &mut invoice)?;
        p.leave_wrapper()?;
    }
    p.leave_wrapper()?;
    let lines = apply_line_exemption(invoice.lines, &exemption);
    invoice.lines = lines;
    let adjustments = crate::ubl_read::apply_exemption(invoice.adjustments, &exemption);
    invoice.adjustments = adjustments;
    invoice.number = head.number;
    invoice.type_code = head.type_code;
    invoice.issue_date = head.issue_date;
    invoice.notes = head.notes;
    Ok(DocumentBuilder { invoice, profile, business_process })
}

/// The business process the document context whose start is at `cursor + 1` states, when its
/// optional parameter is well formed.
pub open spec fn spec_context_process(tokens: Seq<crate::token::TokenView<Namespace>>, cursor: int) -> Option<Option<Seq<char>>> {
    match spec_optional_wrapped_leaf_at(
        tokens,
        cursor + 1,
        Namespace::Ram,
        "BusinessProcessSpecifiedDocumentContextParameter"@,
        Namespace::Ram,
        "ID"@,
    ) {
        None => None,
        Some((process, _)) => Some(process),
    }
}

/// The position after the document context whose start is at `cursor + 1`, when it is well
/// formed up to its profile identifier.
pub open spec fn spec_context_end(tokens: Seq<crate::token::TokenView<Namespace>>, cursor: int) -> Option<int> {
    match spec_optional_wrapped_leaf_at(
        tokens,
        cursor + 1,
        Namespace::Ram,
        "BusinessProcessSpecifiedDocumentContextParameter"@,
        Namespace::Ram,
        "ID"@,
    ) {
        None => None,
        Some((_, after_process)) => match spec_leaf_at(tokens, after_process + 1, Namespace::Ram, "ID"@) {
            None => None,
            Some((_, after_id)) => Some(after_id + 2),
        },
    }
}

/// The lines with the exemption reason filled into their exempt VAT treatments; every other
/// field of a line stays.
pub fn apply_line_exemption(lines: Vec<InvoiceLine>, exemption: &Exemption) -> (r: Vec<InvoiceLine>)
    ensures
        r@.len() == lines@.len(),
        forall|i: int| 0 <= i < r@.len() ==> spec_line_filled(lines@[i], #[trigger] r@[i], *exemption),
{
    let ghost original = lines@;
    let mut remaining = lines;
    let mut filled: Vec<InvoiceLine> = Vec::new();
    proof {
        assert(remaining@ =~= original.skip(0));
    }
    while remaining.len() > 0
        invariant
            filled@.len() <= original.len(),
            remaining@ =~= original.skip(filled@.len() as int),
            forall|i: int| 0 <= i < filled@.len() ==> spec_line_filled(original[i], #[trigger] filled@[i], *exemption),
        decreases remaining@.len(),
    {
        let ghost k = filled@.len() as int;
        let mut line = remaining.remove(0);
        assert(line == original[k]);
        line.vat = match line.vat {
            Some(vat) => Some(fill_exemption(vat, exemption)),
            None => None,
        };
        filled.push(line);
        assert(remaining@ =~= original.skip(k + 1));
    }
    filled
}

/// Whether `after` is the line `before` with the exemption reason filled into its VAT.
pub open spec fn spec_line_filled(before: InvoiceLine, after: InvoiceLine, exemption: Exemption) -> bool {
    &&& after.id == before.id
    &&& after.note == before.note
    &&& after.object == before.object
    &&& after.quantity == before.quantity
    &&& after.net_amount == before.net_amount
    &&& after.order_line_reference == before.order_line_reference
    &&& after.buyer_accounting_reference == before.buyer_accounting_reference
    &&& after.period == before.period
    &&& after.adjustments == before.adjustments
    &&& after.price == before.price
    &&& after.item == before.item
    &&& match before.vat {
        Some(v) => after.vat matches Some(w) && crate::ubl_read::spec_filled(v, w, exemption),
        None => after.vat is None,
    }
}

/// Reads the document context: the business process (`BT-23`) and the profile (`BT-24`).
#[verifier::spinoff_prover]
pub fn exchanged_document_context(p: &mut Parser<Namespace>) -> (r: Result<(Profile, Option<String>), Error>)
    requires
        old(p).wf(),
    ensures
        final(p).follows(old(p)),
        r is Ok ==> final(p).restored(old(p)),
        match spec_optional_wrapped_leaf_at(
            old(p).spec_tokens(),
            old(p).spec_cursor() + 1,
            Namespace::Ram,
            "BusinessProcessSpecifiedDocumentContextParameter"@,
            Namespace::Ram,
            "ID"@,
        ) {
            None => r is Err,
            Some((process, after_process)) => match spec_leaf_at(old(p).spec_tokens(), after_process + 1, Namespace::Ram, "ID"@) {
                None => r is Err,
                Some((id, after_id)) => if spec_opens(old(p).spec_tokens(), old(p).spec_cursor(), Namespace::Rsm, "ExchangedDocumentContext"@)
                    && (spec_opens(old(p).spec_tokens(), old(p).spec_cursor() + 1, Namespace::Ram, "BusinessProcessSpecifiedDocumentContextParameter"@)
                    ==> process is Some) && spec_opens(
                    old(p).spec_tokens(),
                    after_process,
                    Namespace::Ram,
                    "GuidelineSpecifiedDocumentContextParameter"@,
                ) && (exists|v: Profile| crate::profile::spec_profile_id(v) == id) && spec_closes(old(p).spec_tokens(), after_id)
                    && spec_closes(old(p).spec_tokens(), after_id + 1) {
                    r matches Ok((profile, b)) && crate::profile::spec_profile_id(profile) == id && match b {
                        Some(x) => process == Some(x@),
                        None => process is None,
                    } && final(p).spec_cursor() == after_id + 2
                } else {
                    r is Err
                },
            },
        },
{
    p.enter_structural(Namespace::Rsm, "ExchangedDocumentContext")?;
    let business_process = if p.is_open(Namespace::Ram, "BusinessProcessSpecifiedDocumentContextParameter") {
        p.enter_structural(Namespace::Ram, "BusinessProcessSpecifiedDocumentContextParameter")?;
        let value = p.rooted(Namespace::Ram, "ID")?;
        p.leave_wrapper()?;
        Some(value)
    } else {
        None
    };
    p.enter_structural(Namespace::Ram, "GuidelineSpecifiedDocumentContextParameter")?;
    let identifier = p.rooted(Namespace::Ram, "ID")?;
    let profile = Profile::parse(identifier.as_str())?;
    p.leave_wrapper()?;
    p.leave_wrapper()?;
    Ok((profile, business_process))
}

/// Reads the exchanged document header into the invoice: the number, the type, the issue
/// date and the notes.
#[verifier::spinoff_prover]
#[verifier::rlimit(100)]
pub fn exchanged_document(p: &mut Parser<Namespace>, invoice: &mut Invoice) -> (r: Result<(), Error>)
    requires
        old(p).wf(),
    ensures
        final(p).follows(old(p)),
        r is Ok ==> final(p).restored(old(p)),
        match spec_cii_exchanged(old(p).spec_tokens(), old(p).spec_cursor()) {
            None => r is Err,
            Some(h) => r is Ok && spec_exchanged_of(*final(invoice)) == h,
        },
{
    p.enter_structural(Namespace::Rsm, "ExchangedDocument")?;
    invoice.number = p.optional_leaf(Namespace::Ram, "ID", "number")?;
    let code = p.leaf(Namespace::Ram, "TypeCode", "type_code")?;
    invoice.type_code = InvoiceType::parse(code.as_str())?;
    invoice.issue_date = optional_datetime(p, "IssueDateTime", "issue_date")?;
    let ghost before_notes = *p;
    let mut notes: Vec<crate::model::Note> = Vec::new();
    proof {
        assert(notes@.map_values(|n: crate::model::Note| crate::ubl_read::spec_note_view(n)) =~= Seq::empty());
        assert(Seq::<(Option<Seq<char>>, Seq<char>)>::empty() + Seq::empty() =~= Seq::<(Option<Seq<char>>, Seq<char>)>::empty());
    }
    while p.is_open(Namespace::Ram, "IncludedNote")
        invariant
            p.restored(&before_notes),
            before_notes.wf(),
            before_notes.follows(old(p)),
            notes@.len() <= p.spec_cursor() - before_notes.spec_cursor(),
            spec_cii_notes(before_notes.spec_tokens(), before_notes.spec_cursor()) is None ==> spec_cii_exchanged(
                old(p).spec_tokens(),
                old(p).spec_cursor(),
            ) is None,
            spec_cii_notes(before_notes.spec_tokens(), before_notes.spec_cursor()) == match spec_cii_notes(p.spec_tokens(), p.spec_cursor()) {
                Some((rest, end)) => Some((notes@.map_values(|n: crate::model::Note| crate::ubl_read::spec_note_view(n)) + rest, end)),
                None => None,
            },
        decreases p.spec_tokens().len() - p.spec_cursor(),
    {
        let ghost before = notes@.map_values(|n: crate::model::Note| crate::ubl_read::spec_note_view(n));
        let ghost at = p.spec_cursor();
        p.enter_repeatable(Namespace::Ram, "IncludedNote", "notes", notes.len() + 1)?;
        let read = p.derived(Namespace::Ram, "Content");
        let content = match read {
            Ok((_, c)) => c,
            Err(e) => {
                assert(spec_cii_note_at(p.spec_tokens(), at + 1) is None);
                assert(spec_cii_notes(p.spec_tokens(), at) is None);
                return Err(e);
            },
        };
        let parsed = NonEmptyString::parse(content.as_str());
        let text = match parsed {
            Ok(t) => t,
            Err(e) => {
                assert(spec_cii_note_at(p.spec_tokens(), at + 1) is None);
                assert(spec_cii_notes(p.spec_tokens(), at) is None);
                return Err(e);
            },
        };
        let subject_code = if p.is_open(Namespace::Ram, "SubjectCode") {
            let (_, code) = p.derived(Namespace::Ram, "SubjectCode")?;
            Some(NonEmptyString::parse(code.as_str())?)
        } else {
            None
        };
        p.leave_group()?;
        notes.push(crate::model::Note { subject_code, text });
        proof {
            let added = notes@.map_values(|n: crate::model::Note| crate::ubl_read::spec_note_view(n));
            assert(added =~= before.push(added.last()));
            assert(spec_cii_note_at(p.spec_tokens(), at + 1) == Some((added.last(), p.spec_cursor())));
            if let Some((rest, end)) = spec_cii_notes(p.spec_tokens(), p.spec_cursor()) {
                assert(before + (seq![added.last()] + rest) =~= added + rest);
            }
        }
    }
    invoice.notes = notes;
    proof {
        assert(notes@.map_values(|n: crate::model::Note| crate::ubl_read::spec_note_view(n)) + Seq::empty() =~= notes@.map_values(
            |n: crate::model::Note| crate::ubl_read::spec_note_view(n),
        ));
    }
    p.leave_wrapper()?;
    Ok(())
}

/// What the exchanged document states: the number, the type code, the issue date and the
/// notes, each as its subject code and text.
pub struct ExchangedView {
    pub number: Option<Seq<char>>,
    pub type_code: InvoiceType,
    pub issue_date: Option<crate::values::DateView>,
    pub notes: Seq<(Option<Seq<char>>, Seq<char>)>,
}

/// The exchanged document fields of an invoice.
pub open spec fn spec_exchanged_of(invoice: Invoice) -> ExchangedView {
    ExchangedView {
        number: crate::ubl_read::spec_texts(invoice.number),
        type_code: invoice.type_code,
        issue_date: crate::ubl_read::spec_date_of(invoice.issue_date),
        notes: invoice.notes@.map_values(|n: crate::model::Note| crate::ubl_read::spec_note_view(n)),
    }
}

/// An optional date wrapper at `cursor`: the date its `udt:DateTimeString` states, and the
/// position after it; `None` when it is there and malformed or not a date.
pub open spec fn spec_optional_datetime_at(
    tokens: Seq<crate::token::TokenView<Namespace>>,
    cursor: int,
    element: Seq<char>,
) -> Option<(Option<crate::values::DateView>, int)> {
    if !spec_opens(tokens, cursor, Namespace::Ram, element) {
        Some((None, cursor))
    } else {
        match spec_carrier_at(tokens, cursor, Namespace::Ram, element, Namespace::Udt, "DateTimeString"@) {
            Some((t, next)) => match crate::reading::spec_parse_basic_date(t) {
                Some((y, m, d)) => Some((Some(crate::values::DateView { year: y, month: m, day: d }), next)),
                None => None,
            },
            None => None,
        }
    }
}

/// One note from `cursor`, just inside its `IncludedNote` element: the non-empty content, the
/// optional non-empty subject code and the end tag; the note and the position after it.
pub open spec fn spec_cii_note_at(tokens: Seq<crate::token::TokenView<Namespace>>, cursor: int) -> Option<((Option<Seq<char>>, Seq<char>), int)> {
    match spec_leaf_at(tokens, cursor, Namespace::Ram, "Content"@) {
        None => None,
        Some((text, c1)) => if text.len() == 0 {
            None
        } else {
            let subject = if spec_opens(tokens, c1, Namespace::Ram, "SubjectCode"@) {
                match spec_leaf_at(tokens, c1, Namespace::Ram, "SubjectCode"@) {
                    Some((code, c2)) => if code.len() > 0 {
                        Some((Some(code), c2))
                    } else {
                        None
                    },
                    None => None,
                }
            } else {
                Some((None, c1))
            };
            match subject {
                None => None,
                Some((code, c2)) => if spec_closes(tokens, c2) {
                    Some(((code, text), c2 + 1))
                } else {
                    None
                },
            }
        },
    }
}

/// The notes from `cursor` on and the position after the last; `None` when one is malformed.
pub open spec fn spec_cii_notes(tokens: Seq<crate::token::TokenView<Namespace>>, cursor: int) -> Option<(Seq<(Option<Seq<char>>, Seq<char>)>, int)>
    decreases tokens.len() - cursor,
{
    if cursor < 0 || cursor >= tokens.len() || !spec_opens(tokens, cursor, Namespace::Ram, "IncludedNote"@) {
        Some((Seq::empty(), cursor))
    } else {
        match spec_cii_note_at(tokens, cursor + 1) {
            Some((note, next)) => if next > cursor {
                match spec_cii_notes(tokens, next) {
                    Some((rest, end)) => Some((seq![note] + rest, end)),
                    None => None,
                }
            } else {
                None
            },
            None => None,
        }
    }
}

/// The exchanged document a CII document states at `cursor`: the optional non-empty number,
/// the type code, the optional issue date and the notes, then its end tag; `None` when one of
/// them is malformed.
pub open spec fn spec_cii_exchanged(tokens: Seq<crate::token::TokenView<Namespace>>, cursor: int) -> Option<ExchangedView> {
    if !spec_opens(tokens, cursor, Namespace::Rsm, "ExchangedDocument"@) {
        None
    } else {
        match spec_optional_leaf_at(tokens, cursor + 1, Namespace::Ram, "ID"@) {
            None => None,
            Some((number, c1)) => if !spec_filled_text(number) {
                None
            } else {
                match spec_leaf_at(tokens, c1, Namespace::Ram, "TypeCode"@) {
                    None => None,
                    Some((code, c2)) => match crate::invoice_type::spec_parse(code) {
                        Err(_) => None,
                        Ok(type_code) => match spec_optional_datetime_at(tokens, c2, "IssueDateTime"@) {
                            None => None,
                            Some((issue_date, c3)) => match spec_cii_notes(tokens, c3) {
                                None => None,
                                Some((notes, end)) => if spec_closes(tokens, end) {
                                    Some(ExchangedView { number, type_code, issue_date, notes })
                                } else {
                                    None
                                },
                            },
                        },
                    },
                }
            },
        }
    }
}

/// Reads a date wrapper mapped to a field, whose value carrier is a `udt:DateTimeString`.
#[verifier::spinoff_prover]
pub fn datetime(p: &mut Parser<Namespace>, element: &str, field: &'static str) -> (r: Result<Date, Error>)
    requires
        old(p).wf(),
    ensures
        final(p).follows(old(p)),
        r is Ok ==> final(p).advanced(old(p)),
        match spec_carrier_at(old(p).spec_tokens(), old(p).spec_cursor(), Namespace::Ram, element@, Namespace::Udt, "DateTimeString"@) {
            Some((t, next)) => match crate::reading::spec_parse_basic_date(t) {
                Some((y, m, d)) => r matches Ok(x) && x@ == (crate::values::DateView { year: y, month: m, day: d })
                    && final(p).spec_cursor() == next,
                None => r is Err,
            },
            None => r is Err,
        },
{
    p.enter_group(Namespace::Ram, element, field)?;
    p.take_open(Namespace::Udt, "DateTimeString")?;
    let text = p.take_text();
    p.take_close()?;
    p.leave_group()?;
    parse_basic_date(text.as_str())
}

/// Reads an optional date wrapper whose value carrier is a `udt:DateTimeString`.
#[verifier::spinoff_prover]
pub fn optional_datetime(p: &mut Parser<Namespace>, element: &str, field: &'static str) -> (r: Result<Option<Date>, Error>)
    requires
        old(p).wf(),
    ensures
        final(p).follows(old(p)),
        r is Ok ==> final(p).restored(old(p)),
        !spec_opens(old(p).spec_tokens(), old(p).spec_cursor(), Namespace::Ram, element@) ==> (r matches Ok(None)
            && *final(p) == *old(p)),
        spec_opens(old(p).spec_tokens(), old(p).spec_cursor(), Namespace::Ram, element@) ==> (match spec_carrier_at(old(p).spec_tokens(), old(p).spec_cursor(), Namespace::Ram, element@, Namespace::Udt, "DateTimeString"@) {
            Some((t, next)) => match crate::reading::spec_parse_basic_date(t) {
                Some((y, m, d)) => r matches Ok(Some(x)) && x@ == (crate::values::DateView { year: y, month: m, day: d })
                    && final(p).spec_cursor() == next,
                None => r is Err,
            },
            None => r is Err,
        }),
{
    if p.is_open(Namespace::Ram, element) {
        Ok(Some(datetime(p, element, field)?))
    } else {
        Ok(None)
    }
}

/// Reads a charge indicator whose value carrier is a `udt:Indicator`: a charge when its
/// text, surrounding white space aside, is `true`.
#[verifier::spinoff_prover]
pub fn indicator(p: &mut Parser<Namespace>) -> (r: Result<bool, Error>)
    requires
        old(p).wf(),
    ensures
        final(p).follows(old(p)),
        r is Ok ==> final(p).advanced(old(p)),
        match spec_carrier_at(old(p).spec_tokens(), old(p).spec_cursor(), Namespace::Ram, "ChargeIndicator"@, Namespace::Udt, "Indicator"@) {
            Some((t, next)) => r matches Ok(b) && b == (crate::text::spec_trim(t) == "true"@)
                && final(p).spec_cursor() == next,
            None => r is Err,
        },
{
    p.enter_nested(Namespace::Ram, "ChargeIndicator")?;
    p.take_open(Namespace::Udt, "Indicator")?;
    let text = p.take_text();
    p.take_close()?;
    p.leave_wrapper()?;
    Ok(str_eq(trim(text.as_str()), "true"))
}

/// Reads one invoice line (`BG-25`).
#[verifier::spinoff_prover]
pub fn read_line(p: &mut Parser<Namespace>, instance: usize) -> (r: Result<InvoiceLine, Error>)
    requires
        old(p).wf(),
    ensures
        final(p).follows(old(p)),
        r is Ok ==> final(p).advanced(old(p)),
{
    p.enter_repeatable(Namespace::Ram, "IncludedSupplyChainTradeLineItem", "lines", instance)?;
    let mut line = InvoiceLine {
        id: None,
        note: None,
        object: None,
        quantity: None,
        net_amount: None,
        order_line_reference: None,
        buyer_accounting_reference: None,
        period: None,
        adjustments: Vec::new(),
        price: None,
        vat: None,
        item: None,
    };
    if p.is_open(Namespace::Ram, "AssociatedDocumentLineDocument") {
        p.enter_structural(Namespace::Ram, "AssociatedDocumentLineDocument")?;
        line.id = p.optional_leaf(Namespace::Ram, "LineID", "id")?;
        if p.is_open(Namespace::Ram, "IncludedNote") {
            p.enter_group(Namespace::Ram, "IncludedNote", "note")?;
            line.note = match p.optional_derived(Namespace::Ram, "Content")? {
                Some((_, text)) => Some(NonEmptyString::parse(text.as_str())?),
                None => None,
            };
            p.leave_group()?;
        }
        p.leave_wrapper()?;
    }
    if p.is_open(Namespace::Ram, "SpecifiedTradeProduct") {
        line.item = Some(read_product(p)?);
    }
    if p.is_open(Namespace::Ram, "SpecifiedLineTradeAgreement") {
        let (order, price) = read_agreement(p)?;
        line.order_line_reference = order;
        line.price = price;
    }
    if p.is_open(Namespace::Ram, "SpecifiedLineTradeDelivery") {
        p.enter_structural(Namespace::Ram, "SpecifiedLineTradeDelivery")?;
        line.quantity = match p.optional_leaf_attr(Namespace::Ram, "BilledQuantity", "quantity")? {
            Some((attributes, text)) => Some(parse_quantity(&attributes, text.as_str())?),
            None => None,
        };
        p.leave_wrapper()?;
    }
    if p.is_open(Namespace::Ram, "SpecifiedLineTradeSettlement") {
        read_line_settlement(p, &mut line)?;
    }
    p.leave_group()?;
    Ok(line)
}

/// Reads the line product into an item (`BG-31`).
#[verifier::spinoff_prover]
pub fn read_product(p: &mut Parser<Namespace>) -> (r: Result<Item, Error>)
    requires
        old(p).wf(),
    ensures
        final(p).follows(old(p)),
        r is Ok ==> final(p).advanced(old(p)),
{
    p.enter_group(Namespace::Ram, "SpecifiedTradeProduct", "item")?;
    let standard_id = match p.optional_leaf_attr(Namespace::Ram, "GlobalID", "standard_id")? {
        Some((attributes, id)) => {
            let issuer = match attribute(&attributes, "schemeID") {
                Some(value) => NonEmptyString::parse(value)?,
                None => {
                    return Err(Error::malformed_xml("a standard identifier without a scheme"));
                },
            };
            Some(ItemReference { id: NonEmptyString::parse(id.as_str())?, issuer })
        },
        None => None,
    };
    let seller_id = p.optional_leaf(Namespace::Ram, "SellerAssignedID", "seller_id")?;
    let buyer_id = p.optional_leaf(Namespace::Ram, "BuyerAssignedID", "buyer_id")?;
    let name = p.optional_leaf(Namespace::Ram, "Name", "name")?;
    let description = p.optional_leaf(Namespace::Ram, "Description", "description")?;
    let ghost before_attributes = *p;
    let mut attributes: Vec<ItemAttribute> = Vec::new();
    while p.is_open(Namespace::Ram, "ApplicableProductCharacteristic")
        invariant
            p.restored(&before_attributes),
            before_attributes.wf(),
            before_attributes.follows(old(p)),
        decreases p.spec_tokens().len() - p.spec_cursor(),
    {
        p.enter_structural(Namespace::Ram, "ApplicableProductCharacteristic")?;
        let name_text = p.leaf(Namespace::Ram, "Description", "attributes")?;
        let value_text = p.leaf(Namespace::Ram, "Value", "attributes")?;
        p.leave_wrapper()?;
        attributes.push(ItemAttribute {
            name: NonEmptyString::parse(name_text.as_str())?,
            value: NonEmptyString::parse(value_text.as_str())?,
        });
    }
    let ghost before_classifications = *p;
    let mut classifications: Vec<Classification> = Vec::new();
    while p.is_open(Namespace::Ram, "DesignatedProductClassification")
        invariant
            p.restored(&before_classifications),
            before_classifications.wf(),
            before_classifications.follows(old(p)),
        decreases p.spec_tokens().len() - p.spec_cursor(),
    {
        p.enter_structural(Namespace::Ram, "DesignatedProductClassification")?;
        let mut classification = Classification { id: None, scheme: None, version: None };
        if let Some((list, id)) = p.optional_leaf_attr(Namespace::Ram, "ClassCode", "classifications")? {
            classification.id = Some(NonEmptyString::parse(id.as_str())?);
            classification.scheme = optional_attribute(&list, "listID")?;
            classification.version = optional_attribute(&list, "listVersionID")?;
        }
        p.leave_wrapper()?;
        classifications.push(classification);
    }
    let mut country_of_origin = None;
    if p.is_open(Namespace::Ram, "OriginTradeCountry") {
        p.enter_structural(Namespace::Ram, "OriginTradeCountry")?;
        let code = p.optional_text(Namespace::Ram, "ID", "country_of_origin")?;
        p.leave_wrapper()?;
        if let Some(code) = code {
            country_of_origin = Some(parse_country(code.as_str())?);
        }
    }
    p.leave_group()?;
    Ok(Item {
        name,
        description,
        seller_id,
        buyer_id,
        standard_id,
        classifications,
        country_of_origin,
        attributes,
    })
}

/// Reads the line trade agreement: the order line reference (`BT-132`) and the price
/// (`BG-29`). The gross price is the charge amount of the gross price group when there is
/// one, the net price otherwise; the base quantity of the net price group applies only
/// without the gross price group.
#[verifier::spinoff_prover]
pub fn read_agreement(p: &mut Parser<Namespace>) -> (r: Result<(Option<NonEmptyString>, Option<Price>), Error>)
    requires
        old(p).wf(),
    ensures
        final(p).follows(old(p)),
        r is Ok ==> final(p).advanced(old(p)),
{
    p.enter_structural(Namespace::Ram, "SpecifiedLineTradeAgreement")?;
    let mut order = None;
    if p.is_open(Namespace::Ram, "BuyerOrderReferencedDocument") {
        p.enter_structural(Namespace::Ram, "BuyerOrderReferencedDocument")?;
        order = p.optional_leaf(Namespace::Ram, "LineID", "order_line_reference")?;
        p.leave_wrapper()?;
    }
    let mut stated = false;
    let mut gross: Option<Decimal> = None;
    let mut discount: Option<Decimal> = None;
    let mut base_quantity = None;
    let mut has_gross = false;
    if p.is_open(Namespace::Ram, "GrossPriceProductTradePrice") {
        stated = true;
        has_gross = true;
        p.enter_group(Namespace::Ram, "GrossPriceProductTradePrice", "price")?;
        gross = match p.optional_derived(Namespace::Ram, "ChargeAmount")? {
            Some((_, text)) => Some(parse_decimal(text.as_str())?),
            None => None,
        };
        base_quantity = match p.optional_derived(Namespace::Ram, "BasisQuantity")? {
            Some((attributes, text)) => Some(parse_quantity(&attributes, text.as_str())?),
            None => None,
        };
        if p.is_open(Namespace::Ram, "AppliedTradeAllowanceCharge") {
            p.enter_nested(Namespace::Ram, "AppliedTradeAllowanceCharge")?;
            if p.is_open(Namespace::Ram, "ChargeIndicator") {
                indicator(p)?;
            }
            discount = match p.optional_derived(Namespace::Ram, "ActualAmount")? {
                Some((_, text)) => Some(parse_decimal(text.as_str())?),
                None => None,
            };
            p.leave_wrapper()?;
        }
        p.leave_group()?;
    }
    let mut net: Option<Decimal> = None;
    if p.is_open(Namespace::Ram, "NetPriceProductTradePrice") {
        stated = true;
        p.enter_group(Namespace::Ram, "NetPriceProductTradePrice", "price")?;
        net = match p.optional_text(Namespace::Ram, "ChargeAmount", "net")? {
            Some(text) => Some(parse_decimal(text.as_str())?),
            None => None,
        };
        let quantity = match p.optional_derived(Namespace::Ram, "BasisQuantity")? {
            Some((attributes, text)) => Some(parse_quantity(&attributes, text.as_str())?),
            None => None,
        };
        p.leave_group()?;
        if !has_gross {
            base_quantity = quantity;
        }
    }
    p.leave_wrapper()?;
    if !stated {
        return Ok((order, None));
    }
    let gross = match (gross, net) {
        (Some(gross), _) => gross,
        (None, Some(net)) => net,
        (None, None) => {
            return Err(Error::malformed_xml("a price without an amount"));
        },
    };
    Ok((order, Some(Price { gross, discount, base_quantity })))
}

/// Reads the line trade settlement into the line: the VAT, the period, the adjustments, the
/// net amount, the object identifier and the accounting reference.
#[verifier::spinoff_prover]
pub fn read_line_settlement(p: &mut Parser<Namespace>, line: &mut InvoiceLine) -> (r: Result<(), Error>)
    requires
        old(p).wf(),
    ensures
        final(p).follows(old(p)),
        r is Ok ==> final(p).advanced(old(p)),
{
    p.enter_structural(Namespace::Ram, "SpecifiedLineTradeSettlement")?;
    if p.is_open(Namespace::Ram, "ApplicableTradeTax") {
        line.vat = Some(read_line_tax(p)?);
    }
    if p.is_open(Namespace::Ram, "BillingSpecifiedPeriod") {
        line.period = Some(billing_period(p, "period")?);
    }
    let ghost before_adjustments = *p;
    let mut adjustments: Vec<LineAdjustment> = Vec::new();
    while p.is_open(Namespace::Ram, "SpecifiedTradeAllowanceCharge")
        invariant
            p.restored(&before_adjustments),
            before_adjustments.wf(),
            before_adjustments.follows(old(p)),
            adjustments@.len() <= p.spec_cursor() - before_adjustments.spec_cursor(),
        decreases p.spec_tokens().len() - p.spec_cursor(),
    {
        let adjustment = read_line_adjustment(p, adjustments.len() + 1)?;
        adjustments.push(adjustment);
    }
    line.adjustments = adjustments;
    if p.is_open(Namespace::Ram, "SpecifiedTradeSettlementLineMonetarySummation") {
        p.enter_structural(Namespace::Ram, "SpecifiedTradeSettlementLineMonetarySummation")?;
        line.net_amount = match p.optional_text(Namespace::Ram, "LineTotalAmount", "net_amount")? {
            Some(text) => Some(parse_decimal(text.as_str())?),
            None => None,
        };
        p.leave_wrapper()?;
    }
    if p.is_open(Namespace::Ram, "AdditionalReferencedDocument") {
        p.enter_group(Namespace::Ram, "AdditionalReferencedDocument", "object")?;
        let (_, text) = p.derived(Namespace::Ram, "IssuerAssignedID")?;
        let id = NonEmptyString::parse(text.as_str())?;
        p.optional_derived(Namespace::Ram, "TypeCode")?;
        let scheme = match p.optional_derived(Namespace::Ram, "ReferenceTypeCode")? {
            Some((_, text)) => Some(NonEmptyString::parse(text.as_str())?),
            None => None,
        };
        p.leave_group()?;
        line.object = Some(ObjectReference { id, scheme });
    }
    line.buyer_accounting_reference = optional_accounting_account(p)?;
    p.leave_wrapper()?;
    Ok(())
}

/// Reads the receivable accounting account (`BT-19`/`BT-133`), when present.
#[verifier::spinoff_prover]
pub fn optional_accounting_account(p: &mut Parser<Namespace>) -> (r: Result<Option<NonEmptyString>, Error>)
    requires
        old(p).wf(),
    ensures
        final(p).follows(old(p)),
        r is Ok ==> final(p).restored(old(p)),
        !spec_opens(old(p).spec_tokens(), old(p).spec_cursor(), Namespace::Ram, "ReceivableSpecifiedTradeAccountingAccount"@) ==> (r matches Ok(None) && *final(p) == *old(p)),
        spec_opens(old(p).spec_tokens(), old(p).spec_cursor(), Namespace::Ram, "ReceivableSpecifiedTradeAccountingAccount"@) ==> match spec_optional_leaf_at(old(p).spec_tokens(), old(p).spec_cursor() + 1, Namespace::Ram, "ID"@) {
            None => r is Err,
            Some((id, next)) => if spec_closes(old(p).spec_tokens(), next) && spec_filled_text(id) {
                r matches Ok(x) && crate::ubl_read::spec_texts(x) == id && final(p).spec_cursor() == next + 1
            } else {
                r is Err
            },
        },
{
    if !p.is_open(Namespace::Ram, "ReceivableSpecifiedTradeAccountingAccount") {
        return Ok(None);
    }
    p.enter_group(Namespace::Ram, "ReceivableSpecifiedTradeAccountingAccount", "buyer_accounting_reference")?;
    let reference = match p.optional_derived(Namespace::Ram, "ID")? {
        Some((_, text)) => Some(NonEmptyString::parse(text.as_str())?),
        None => None,
    };
    p.leave_group()?;
    Ok(reference)
}

/// Reads the type, category and rate of an applicable trade tax into a VAT treatment.
#[verifier::spinoff_prover]
fn read_trade_tax(p: &mut Parser<Namespace>) -> (r: Result<VatTreatment, Error>)
    requires
        old(p).wf(),
    ensures
        final(p).follows(old(p)),
        r is Ok ==> final(p).restored(old(p)),
        match spec_optional_leaf_at(old(p).spec_tokens(), old(p).spec_cursor(), Namespace::Ram, "TypeCode"@) {
            None => r is Err,
            Some((_, after_type)) => match spec_leaf_at(old(p).spec_tokens(), after_type, Namespace::Ram, "CategoryCode"@) {
                None => r is Err,
                Some((code, after_code)) => match spec_leaf_at(old(p).spec_tokens(), after_code, Namespace::Ram, "RateApplicablePercent"@) {
                    None => r is Err,
                    Some((percent, after_percent)) => if crate::vat::spec_known_category(code) && crate::vat::spec_rate_text(percent) is Some {
                        r matches Ok(t) && crate::vat::spec_treatment_is(t, code, crate::vat::spec_rate_text(percent)->Some_0)
                            && final(p).spec_cursor() == after_percent
                    } else {
                        r is Err
                    },
                },
            },
        },
{
    p.optional_derived(Namespace::Ram, "TypeCode")?;
    let (_, code) = p.derived(Namespace::Ram, "CategoryCode")?;
    let category = VatCategory::parse(code.as_str())?;
    let (_, percent) = p.derived(Namespace::Ram, "RateApplicablePercent")?;
    let rate = parse_percentage(percent.as_str())?;
    VatTreatment::from_parts(category, Some(rate), None, None)
}

/// Reads the line VAT (`BG-30`).
#[verifier::spinoff_prover]
pub fn read_line_tax(p: &mut Parser<Namespace>) -> (r: Result<VatTreatment, Error>)
    requires
        old(p).wf(),
    ensures
        final(p).follows(old(p)),
        r is Ok ==> final(p).advanced(old(p)),
        match spec_optional_leaf_at(old(p).spec_tokens(), old(p).spec_cursor() + 1, Namespace::Ram, "TypeCode"@) {
            None => r is Err,
            Some((_, after_type)) => match spec_leaf_at(old(p).spec_tokens(), after_type, Namespace::Ram, "CategoryCode"@) {
                None => r is Err,
                Some((code, after_code)) => match spec_leaf_at(old(p).spec_tokens(), after_code, Namespace::Ram, "RateApplicablePercent"@) {
                    None => r is Err,
                    Some((percent, after_percent)) => if crate::vat::spec_known_category(code) && crate::vat::spec_rate_text(percent) is Some && spec_opens(old(p).spec_tokens(), old(p).spec_cursor(), Namespace::Ram, "ApplicableTradeTax"@) && spec_closes(old(p).spec_tokens(), after_percent) {
                        r matches Ok(t) && crate::vat::spec_treatment_is(t, code, crate::vat::spec_rate_text(percent)->Some_0)
                            && final(p).spec_cursor() == after_percent + 1
                    } else {
                        r is Err
                    },
                },
            },
        },
{
    p.enter_group(Namespace::Ram, "ApplicableTradeTax", "vat")?;
    let vat = read_trade_tax(p)?;
    p.leave_group()?;
    Ok(vat)
}

/// The rate and the value of an adjustment amount as read from the texts of its percent, its
/// base and its actual amount: relative with the rate and the base when both are stated,
/// absolute with the actual amount otherwise; `None` when a text is malformed or no amount
/// is stated.
pub open spec fn spec_cii_amount(
    factor: Option<Seq<char>>,
    base: Option<Seq<char>>,
    actual: Option<Seq<char>>,
) -> Option<(Option<crate::decimal::DecimalView>, crate::decimal::DecimalView)> {
    if (base matches Some(b) && crate::reading::spec_decimal_value(b) is None) || (actual matches Some(a)
        && crate::reading::spec_decimal_value(a) is None) {
        None
    } else if factor is Some && base is Some {
        match crate::vat::spec_rate_text(factor->Some_0) {
            Some(rate) => Some((Some(rate), crate::reading::spec_decimal_value(base->Some_0)->Some_0)),
            None => None,
        }
    } else if actual is Some {
        Some((None, crate::reading::spec_decimal_value(actual->Some_0)->Some_0))
    } else {
        None
    }
}

/// The rate of a relative amount, if it is one, and its base or its absolute value.
pub open spec fn spec_amount_view(amount: Amount) -> (Option<crate::decimal::DecimalView>, crate::decimal::DecimalView) {
    match amount {
        Amount::Relative { rate, base } => (Some(rate@), base@),
        Amount::Absolute(value) => (None, value@),
    }
}

/// The code and the text of an adjustment reason, and whether it is a charge.
pub open spec fn spec_reason_view(reason: Reason) -> (bool, Option<Seq<char>>, Option<Seq<char>>) {
    match reason {
        Reason::Allowance { code, text } => (false, crate::ubl_read::spec_texts(code), crate::ubl_read::spec_texts(text)),
        Reason::Charge { code, text } => (true, crate::ubl_read::spec_texts(code), crate::ubl_read::spec_texts(text)),
    }
}

/// Reads one line-level allowance or charge (`BG-27`/`BG-28`).
#[verifier::spinoff_prover]
pub fn read_line_adjustment(p: &mut Parser<Namespace>, instance: usize) -> (r: Result<LineAdjustment, Error>)
    requires
        old(p).wf(),
    ensures
        final(p).follows(old(p)),
        r is Ok ==> final(p).advanced(old(p)),
        match spec_carrier_at(old(p).spec_tokens(), old(p).spec_cursor() + 1, Namespace::Ram, "ChargeIndicator"@, Namespace::Udt, "Indicator"@) {
            None => r is Err,
            Some((flag, a)) => match spec_optional_leaf_at(old(p).spec_tokens(), a, Namespace::Ram, "CalculationPercent"@) {
                None => r is Err,
                Some((factor, b)) => match spec_optional_leaf_at(old(p).spec_tokens(), b, Namespace::Ram, "BasisAmount"@) {
                    None => r is Err,
                    Some((base, c)) => match spec_optional_leaf_at(old(p).spec_tokens(), c, Namespace::Ram, "ActualAmount"@) {
                        None => r is Err,
                        Some((actual, d)) => match spec_optional_leaf_at(old(p).spec_tokens(), d, Namespace::Ram, "ReasonCode"@) {
                            None => r is Err,
                            Some((code, e)) => match spec_optional_leaf_at(old(p).spec_tokens(), e, Namespace::Ram, "Reason"@) {
                                None => r is Err,
                                Some((text, f)) => if spec_opens(old(p).spec_tokens(), old(p).spec_cursor(), Namespace::Ram, "SpecifiedTradeAllowanceCharge"@)
                                    && spec_cii_amount(factor, base, actual) is Some && spec_filled_text(code)
                                    && spec_filled_text(text) && spec_closes(old(p).spec_tokens(), f) {
                                    r matches Ok(x) && spec_amount_view(x.amount) == spec_cii_amount(factor, base, actual)->Some_0
                                        && spec_reason_view(x.reason) == (crate::text::spec_trim(flag) == "true"@, code, text) && final(p).spec_cursor() == f + 1
                                } else {
                                    r is Err
                                },
                            },
                        },
                    },
                },
            },
        },
{
    p.enter_repeatable(Namespace::Ram, "SpecifiedTradeAllowanceCharge", "adjustments", instance)?;
    let charge = indicator(p)?;
    let amount = read_adjustment_amount(p)?;
    let reason = read_reason(p, charge)?;
    p.leave_group()?;
    Ok(LineAdjustment { amount, reason })
}

/// Reads the amount of an adjustment: relative with its rate and base when both are stated,
/// absolute otherwise, which needs the actual amount.
#[verifier::spinoff_prover]
pub fn read_adjustment_amount(p: &mut Parser<Namespace>) -> (r: Result<Amount, Error>)
    requires
        old(p).wf(),
    ensures
        final(p).follows(old(p)),
        r is Ok ==> final(p).restored(old(p)),
        match spec_optional_leaf_at(old(p).spec_tokens(), old(p).spec_cursor(), Namespace::Ram, "CalculationPercent"@) {
            None => r is Err,
            Some((factor, after_factor)) => match spec_optional_leaf_at(old(p).spec_tokens(), after_factor, Namespace::Ram, "BasisAmount"@) {
                None => r is Err,
                Some((base, after_base)) => match spec_optional_leaf_at(old(p).spec_tokens(), after_base, Namespace::Ram, "ActualAmount"@) {
                    None => r is Err,
                    Some((actual, after_actual)) => if (base matches Some(b) && crate::reading::spec_decimal_value(b) is None)
                        || (actual matches Some(a) && crate::reading::spec_decimal_value(a) is None) {
                        r is Err
                    } else if factor is Some && base is Some {
                        if crate::vat::spec_rate_text(factor->Some_0) is Some {
                            r matches Ok(Amount::Relative { rate, base: b }) && rate@ == crate::vat::spec_rate_text(
                                factor->Some_0,
                            )->Some_0 && Some(b@) == crate::reading::spec_decimal_value(base->Some_0)
                                && final(p).spec_cursor() == after_actual
                        } else {
                            r is Err
                        }
                    } else if actual is Some {
                        r matches Ok(Amount::Absolute(a)) && Some(a@) == crate::reading::spec_decimal_value(actual->Some_0)
                            && final(p).spec_cursor() == after_actual
                    } else {
                        r matches Err(e) && e@ == crate::error::ErrorView::MalformedXml("an adjustment without an amount"@)
                    },
                },
            },
        },
{
    let rate = p.optional_text(Namespace::Ram, "CalculationPercent", "amount")?;
    let base = match p.optional_text(Namespace::Ram, "BasisAmount", "amount")? {
        Some(text) => Some(parse_decimal(text.as_str())?),
        None => None,
    };
    let actual = match p.optional_text(Namespace::Ram, "ActualAmount", "amount")? {
        Some(text) => Some(parse_decimal(text.as_str())?),
        None => None,
    };
    match (rate, base, actual) {
        (Some(rate), Some(base), _) => Ok(Amount::Relative { rate: parse_percentage(rate.as_str())?, base }),
        (_, _, Some(actual)) => Ok(Amount::Absolute(actual)),
        _ => Err(Error::malformed_xml("an adjustment without an amount")),
    }
}

/// Reads the reason code and text of an adjustment, for the direction its indicator gives.
#[verifier::spinoff_prover]
pub fn read_reason(p: &mut Parser<Namespace>, charge: bool) -> (r: Result<Reason, Error>)
    requires
        old(p).wf(),
    ensures
        final(p).follows(old(p)),
        r is Ok ==> final(p).restored(old(p)),
        r matches Ok(reason) ==> (reason is Charge <==> charge),
        match spec_optional_leaf_at(old(p).spec_tokens(), old(p).spec_cursor(), Namespace::Ram, "ReasonCode"@) {
            None => r is Err,
            Some((code, after_code)) => match spec_optional_leaf_at(old(p).spec_tokens(), after_code, Namespace::Ram, "Reason"@) {
                None => r is Err,
                Some((text, after_text)) => if spec_filled_text(code) && spec_filled_text(text) {
                    r matches Ok(reason) && final(p).spec_cursor() == after_text && match reason {
                        Reason::Allowance { code: c, text: t } | Reason::Charge { code: c, text: t } =>
                            crate::ubl_read::spec_texts(c) == code && crate::ubl_read::spec_texts(t) == text,
                    }
                } else {
                    r is Err
                },
            },
        },
{
    let code = if p.is_open(Namespace::Ram, "ReasonCode") {
        let (_, text) = p.derived(Namespace::Ram, "ReasonCode")?;
        Some(NonEmptyString::parse(text.as_str())?)
    } else {
        None
    };
    let text = if p.is_open(Namespace::Ram, "Reason") {
        let (_, text) = p.derived(Namespace::Ram, "Reason")?;
        Some(NonEmptyString::parse(text.as_str())?)
    } else {
        None
    };
    if charge {
        Ok(Reason::Charge { code, text })
    } else {
        Ok(Reason::Allowance { code, text })
    }
}

/// Reads a billing period (`BG-14`/`BG-26`); a period with neither date is refused.
#[verifier::spinoff_prover]
pub fn billing_period(p: &mut Parser<Namespace>, field: &'static str) -> (r: Result<Period, Error>)
    requires
        old(p).wf(),
    ensures
        final(p).follows(old(p)),
        r is Ok ==> final(p).advanced(old(p)),
        match spec_optional_carrier_at(old(p).spec_tokens(), old(p).spec_cursor() + 1, Namespace::Ram, "StartDateTime"@, Namespace::Udt, "DateTimeString"@) {
            None => r is Err,
            Some((start, after_start)) => match spec_optional_carrier_at(
                old(p).spec_tokens(),
                after_start,
                Namespace::Ram,
                "EndDateTime"@,
                Namespace::Udt,
                "DateTimeString"@,
            ) {
                None => r is Err,
                Some((end, after_end)) => if spec_opens(old(p).spec_tokens(), old(p).spec_cursor(), Namespace::Ram, "BillingSpecifiedPeriod"@)
                    && crate::reading::spec_read_optional_basic_date(start) is Some && crate::reading::spec_read_optional_basic_date(end) is Some
                    && spec_closes(old(p).spec_tokens(), after_end) {
                    if start is None && end is None {
                        r matches Err(e) && e@ == crate::error::ErrorView::MalformedXml("an empty billing period"@)
                    } else {
                        r matches Ok(period) && Some(crate::reading::spec_date_views(period.start)) == crate::reading::spec_read_optional_basic_date(start)
                            && Some(crate::reading::spec_date_views(period.end)) == crate::reading::spec_read_optional_basic_date(end)
                            && final(p).spec_cursor() == after_end + 1
                    }
                } else {
                    r is Err
                },
            },
        },
{
    p.enter_group(Namespace::Ram, "BillingSpecifiedPeriod", field)?;
    let start = optional_datetime(p, "StartDateTime", field)?;
    let end = optional_datetime(p, "EndDateTime", field)?;
    p.leave_group()?;
    match period_from(start, end) {
        Some(period) => Ok(period),
        None => Err(Error::malformed_xml("an empty billing period")),
    }
}

/// Reads a single-identifier reference document when present.
#[verifier::spinoff_prover]
pub fn optional_reference(p: &mut Parser<Namespace>, element: &str, field: &'static str) -> (r: Result<Option<NonEmptyString>, Error>)
    requires
        old(p).wf(),
    ensures
        final(p).follows(old(p)),
        r is Ok ==> final(p).restored(old(p)),
        !spec_opens(old(p).spec_tokens(), old(p).spec_cursor(), Namespace::Ram, element@) ==> (r matches Ok(None) && *final(p) == *old(p)),
        spec_opens(old(p).spec_tokens(), old(p).spec_cursor(), Namespace::Ram, element@) ==> match spec_optional_leaf_at(old(p).spec_tokens(), old(p).spec_cursor() + 1, Namespace::Ram, "IssuerAssignedID"@) {
            None => r is Err,
            Some((id, next)) => if spec_closes(old(p).spec_tokens(), next) && spec_filled_text(id) {
                r matches Ok(x) && crate::ubl_read::spec_texts(x) == id && final(p).spec_cursor() == next + 1
            } else {
                r is Err
            },
        },
{
    if !p.is_open(Namespace::Ram, element) {
        return Ok(None);
    }
    p.enter_group(Namespace::Ram, element, field)?;
    let id = optional_issuer_assigned_id(p)?;
    p.leave_group()?;
    Ok(id)
}

/// Reads the issuer-assigned identifier of a referenced document, when present.
#[verifier::spinoff_prover]
fn optional_issuer_assigned_id(p: &mut Parser<Namespace>) -> (r: Result<Option<NonEmptyString>, Error>)
    requires
        old(p).wf(),
    ensures
        final(p).follows(old(p)),
        r is Ok ==> final(p).restored(old(p)),
        match spec_optional_leaf_at(old(p).spec_tokens(), old(p).spec_cursor(), Namespace::Ram, "IssuerAssignedID"@) {
            None => r is Err,
            Some((None, _)) => r matches Ok(None) && *final(p) == *old(p),
            Some((Some(t), next)) => if t.len() > 0 {
                r matches Ok(Some(x)) && x@ == t && final(p).spec_cursor() == next
            } else {
                r is Err
            },
        },
{
    match p.optional_derived(Namespace::Ram, "IssuerAssignedID")? {
        Some((_, text)) => Ok(Some(NonEmptyString::parse(text.as_str())?)),
        None => Ok(None),
    }
}

/// Reads the header trade agreement into the invoice, when present: the buyer reference,
/// the parties, the order and contract references, the additional documents and the project.
#[verifier::spinoff_prover]
pub fn header_trade_agreement(p: &mut Parser<Namespace>, invoice: &mut Invoice) -> (r: Result<(), Error>)
    requires
        old(p).wf(),
    ensures
        final(p).follows(old(p)),
        r is Ok ==> final(p).restored(old(p)),
{
    if !p.is_open(Namespace::Ram, "ApplicableHeaderTradeAgreement") {
        return Ok(());
    }
    p.enter_structural(Namespace::Ram, "ApplicableHeaderTradeAgreement")?;
    invoice.buyer_reference = p.optional_leaf(Namespace::Ram, "BuyerReference", "buyer_reference")?;
    if p.is_open(Namespace::Ram, "SellerTradeParty") {
        invoice.seller = Some(read_seller(p)?);
    }
    if p.is_open(Namespace::Ram, "BuyerTradeParty") {
        invoice.buyer = Some(read_buyer(p)?);
    }
    if p.is_open(Namespace::Ram, "SellerTaxRepresentativeTradeParty") {
        invoice.tax_representative = Some(read_tax_representative(p)?);
    }
    invoice.sales_order_reference = optional_reference(p, "SellerOrderReferencedDocument", "sales_order_reference")?;
    invoice.purchase_order_reference = optional_reference(p, "BuyerOrderReferencedDocument", "purchase_order_reference")?;
    invoice.contract_reference = optional_reference(p, "ContractReferencedDocument", "contract_reference")?;
    let ghost before_documents = *p;
    let mut documents: Vec<SupportingDocument> = Vec::new();
    while p.is_open(Namespace::Ram, "AdditionalReferencedDocument")
        invariant
            p.restored(&before_documents),
            before_documents.wf(),
            before_documents.follows(old(p)),
            documents@.len() <= p.spec_cursor() - before_documents.spec_cursor(),
        decreases p.spec_tokens().len() - p.spec_cursor(),
    {
        match read_additional_document(p, documents.len() + 1)? {
            AdditionalDocument::Object(object) => {
                invoice.object = Some(object);
            },
            AdditionalDocument::Tender(tender) => {
                invoice.tender_or_lot_reference = tender;
            },
            AdditionalDocument::Supporting(document) => {
                documents.push(document);
            },
        }
    }
    invoice.supporting_documents = documents;
    if p.is_open(Namespace::Ram, "SpecifiedProcuringProject") {
        p.enter_group(Namespace::Ram, "SpecifiedProcuringProject", "project_reference")?;
        invoice.project_reference = match p.optional_derived(Namespace::Ram, "ID")? {
            Some((_, text)) => Some(NonEmptyString::parse(text.as_str())?),
            None => None,
        };
        p.optional_derived(Namespace::Ram, "Name")?;
        p.leave_group()?;
    }
    p.leave_wrapper()?;
    Ok(())
}

/// What an additional referenced document holds: the invoiced object, the tender or lot
/// reference, or a supporting document.
pub enum AdditionalDocument {
    Object(ObjectReference),
    Tender(Option<NonEmptyString>),
    Supporting(SupportingDocument),
}

/// Reads one additional referenced document, told apart by its type code: `130` marks the
/// invoiced object, `50` the tender or lot reference, any other a supporting document.
#[verifier::spinoff_prover]
pub fn read_additional_document(p: &mut Parser<Namespace>, instance: usize) -> (r: Result<AdditionalDocument, Error>)
    requires
        old(p).wf(),
    ensures
        final(p).follows(old(p)),
        r is Ok ==> final(p).advanced(old(p)),
{
    let kind: u8 = match p.peek_child_text("TypeCode") {
        Some(code) => if str_eq(code.as_str(), "130") {
            0
        } else if str_eq(code.as_str(), "50") {
            1
        } else {
            2
        },
        None => 2,
    };
    if kind == 0 {
        p.enter_group(Namespace::Ram, "AdditionalReferencedDocument", "object")?;
        let (_, text) = p.derived(Namespace::Ram, "IssuerAssignedID")?;
        let id = NonEmptyString::parse(text.as_str())?;
        p.optional_derived(Namespace::Ram, "TypeCode")?;
        let scheme = match p.optional_derived(Namespace::Ram, "ReferenceTypeCode")? {
            Some((_, text)) => Some(NonEmptyString::parse(text.as_str())?),
            None => None,
        };
        p.leave_group()?;
        Ok(AdditionalDocument::Object(ObjectReference { id, scheme }))
    } else if kind == 1 {
        p.enter_group(Namespace::Ram, "AdditionalReferencedDocument", "tender_or_lot_reference")?;
        let tender = optional_issuer_assigned_id(p)?;
        p.optional_derived(Namespace::Ram, "TypeCode")?;
        p.leave_group()?;
        Ok(AdditionalDocument::Tender(tender))
    } else {
        p.enter_repeatable(Namespace::Ram, "AdditionalReferencedDocument", "supporting_documents", instance)?;
        let (_, text) = p.derived(Namespace::Ram, "IssuerAssignedID")?;
        let reference = NonEmptyString::parse(text.as_str())?;
        let external_location = match p.optional_text(Namespace::Ram, "URIID", "external_location")? {
            Some(uri) => Some(parse_url(uri.as_str())?),
            None => None,
        };
        p.optional_derived(Namespace::Ram, "TypeCode")?;
        let description = p.optional_leaf(Namespace::Ram, "Name", "description")?;
        let attachment = if p.is_open(Namespace::Ram, "AttachmentBinaryObject") {
            Some(read_attachment(p)?)
        } else {
            None
        };
        p.leave_group()?;
        Ok(AdditionalDocument::Supporting(SupportingDocument { reference, description, external_location, attachment }))
    }
}

/// Reads an attached binary object (`BT-125`), its content in base64.
#[verifier::spinoff_prover]
pub fn read_attachment(p: &mut Parser<Namespace>) -> (r: Result<BinaryObject, Error>)
    requires
        old(p).wf(),
    ensures
        final(p).follows(old(p)),
        r is Ok ==> final(p).restored(old(p)),
        match spec_leaf_at(old(p).spec_tokens(), old(p).spec_cursor(), Namespace::Ram, "AttachmentBinaryObject"@) {
            None => r is Err,
            Some((encoded, next)) => {
                let mime = crate::reading::spec_attribute(spec_open_attributes(old(p).spec_tokens(), old(p).spec_cursor()), "mimeCode"@);
                let filename = crate::reading::spec_attribute(spec_open_attributes(old(p).spec_tokens(), old(p).spec_cursor()), "filename"@);
                if mime is Some && mime->Some_0.len() > 0 && filename is Some && filename->Some_0.len() > 0 {
                    match crate::ubl_read::spec_decode_base64(crate::text::spec_trim(encoded)) {
                        Ok(bytes) => r matches Ok(x) && x.content@ == bytes && Some(x.mime@) == mime
                            && Some(x.filename@) == filename && final(p).spec_cursor() == next,
                        Err(message) => r matches Err(e) && e@ == crate::error::ErrorView::MalformedXml(message),
                    }
                } else {
                    r is Err
                }
            },
        },
{
    let (attributes, encoded) = p.leaf_attr(Namespace::Ram, "AttachmentBinaryObject", "attachment")?;
    let mime = match attribute(&attributes, "mimeCode") {
        Some(mime) => NonEmptyString::parse(mime)?,
        None => {
            return Err(Error::malformed_xml("a binary object without a mime code"));
        },
    };
    let filename = match attribute(&attributes, "filename") {
        Some(name) => NonEmptyString::parse(name)?,
        None => {
            return Err(Error::malformed_xml("a binary object without a filename"));
        },
    };
    let content = match crate::ubl_read::decode_base64(trim(encoded.as_str())) {
        Ok(content) => content,
        Err(message) => {
            return Err(Error::MalformedXml(message));
        },
    };
    Ok(BinaryObject { content, mime, filename })
}

/// What a specified tax registration carries: a VAT identifier or another registration.
pub enum TaxRegistration {
    Vat(VatIdentifier),
    Other(NonEmptyString),
}

/// Reads the seller (`BG-4`).
#[verifier::spinoff_prover]
pub fn read_seller(p: &mut Parser<Namespace>) -> (r: Result<Seller, Error>)
    requires
        old(p).wf(),
    ensures
        final(p).follows(old(p)),
        r is Ok ==> final(p).advanced(old(p)),
{
    p.enter_group(Namespace::Ram, "SellerTradeParty", "seller")?;
    let identifiers = read_identifiers(p)?;
    let name = p.optional_leaf(Namespace::Ram, "Name", "name")?;
    let additional_legal_information = p.optional_leaf(Namespace::Ram, "Description", "additional_legal_information")?;
    let (legal_entity, trading_name) = read_legal_organization(p)?;
    let contact = if p.is_open(Namespace::Ram, "DefinedTradeContact") {
        Some(read_contact(p)?)
    } else {
        None
    };
    let address = optional_address(p)?;
    let electronic_address = optional_electronic_address(p)?;
    let mut vat = None;
    let mut tax_registration = None;
    let ghost before_registrations = *p;
    while p.is_open(Namespace::Ram, "SpecifiedTaxRegistration")
        invariant
            p.restored(&before_registrations),
            before_registrations.wf(),
            before_registrations.follows(old(p)),
        decreases p.spec_tokens().len() - p.spec_cursor(),
    {
        match read_tax_registration(p)? {
            Some(TaxRegistration::Vat(value)) => {
                vat = Some(value);
            },
            Some(TaxRegistration::Other(value)) => {
                tax_registration = Some(value);
            },
            None => {},
        }
    }
    p.leave_group()?;
    Ok(Seller {
        name,
        trading_name,
        identifiers,
        legal_entity,
        additional_legal_information,
        vat,
        tax_registration,
        electronic_address,
        address,
        contact,
    })
}

/// Reads the buyer (`BG-7`); a tax registration other than VAT is read and dropped.
#[verifier::spinoff_prover]
pub fn read_buyer(p: &mut Parser<Namespace>) -> (r: Result<Buyer, Error>)
    requires
        old(p).wf(),
    ensures
        final(p).follows(old(p)),
        r is Ok ==> final(p).advanced(old(p)),
{
    p.enter_group(Namespace::Ram, "BuyerTradeParty", "buyer")?;
    let identifiers = read_identifiers(p)?;
    let name = p.optional_leaf(Namespace::Ram, "Name", "name")?;
    let (legal_entity, trading_name) = read_legal_organization(p)?;
    let contact = if p.is_open(Namespace::Ram, "DefinedTradeContact") {
        Some(read_contact(p)?)
    } else {
        None
    };
    let address = optional_address(p)?;
    let electronic_address = optional_electronic_address(p)?;
    let mut vat = None;
    let ghost before_registrations = *p;
    while p.is_open(Namespace::Ram, "SpecifiedTaxRegistration")
        invariant
            p.restored(&before_registrations),
            before_registrations.wf(),
            before_registrations.follows(old(p)),
        decreases p.spec_tokens().len() - p.spec_cursor(),
    {
        if let Some(TaxRegistration::Vat(value)) = read_tax_registration(p)? {
            vat = Some(value);
        }
    }
    p.leave_group()?;
    Ok(Buyer { name, trading_name, identifiers, legal_entity, vat, electronic_address, address, contact })
}

/// Reads the seller tax representative (`BG-11`); a registration other than VAT is refused.
#[verifier::spinoff_prover]
pub fn read_tax_representative(p: &mut Parser<Namespace>) -> (r: Result<TaxRepresentative, Error>)
    requires
        old(p).wf(),
    ensures
        final(p).follows(old(p)),
        r is Ok ==> final(p).advanced(old(p)),
        match spec_optional_leaf_at(old(p).spec_tokens(), old(p).spec_cursor() + 1, Namespace::Ram, "Name"@) {
            None => r is Err,
            Some((name, a)) => match spec_cii_optional_address(old(p).spec_tokens(), a) {
                None => r is Err,
                Some((address, b)) => match spec_optional_wrapped_leaf_at(
                    old(p).spec_tokens(),
                    b,
                    Namespace::Ram,
                    "SpecifiedTaxRegistration"@,
                    Namespace::Ram,
                    "ID"@,
                ) {
                    None => r is Err,
                    Some((vat, c)) => {
                        let other = vat is Some && crate::reading::spec_attribute(spec_open_attributes(old(p).spec_tokens(), b + 1), "schemeID"@)
                            == Some("FC"@);
                        if spec_opens(old(p).spec_tokens(), old(p).spec_cursor(), Namespace::Ram, "SellerTaxRepresentativeTradeParty"@)
                            && spec_filled_text(name) && spec_filled_text(vat) && !other && spec_closes(old(p).spec_tokens(), c) {
                            r matches Ok(x) && crate::ubl_read::spec_texts(x.name) == name && match vat {
                                Some(t) => x.vat matches Some(v) && v.id@ == t,
                                None => x.vat is None,
                            } && crate::cii_read::spec_address_option(x.address) == match address {
                                Some(texts) => Some(crate::reading::spec_address_read(texts)),
                                None => None,
                            } && final(p).spec_cursor() == c + 1
                        } else {
                            r is Err
                        }
                    },
                },
            },
        },
{
    p.enter_group(Namespace::Ram, "SellerTaxRepresentativeTradeParty", "tax_representative")?;
    let name = p.optional_leaf(Namespace::Ram, "Name", "name")?;
    let address = optional_address(p)?;
    let mut vat = None;
    if p.is_open(Namespace::Ram, "SpecifiedTaxRegistration") {
        vat = match read_tax_registration(p)? {
            Some(TaxRegistration::Vat(value)) => Some(value),
            Some(TaxRegistration::Other(_)) => {
                return Err(Error::malformed_xml("a tax representative without a VAT id"));
            },
            None => None,
        };
    }
    p.leave_group()?;
    Ok(TaxRepresentative { name, vat, address })
}

/// The party identifiers from `cursor` on, each an `ID`, or a `GlobalID` with its scheme, with
/// its text and scheme, and the position after the last; `None` when one is malformed.
pub open spec fn spec_cii_identifiers(tokens: Seq<crate::token::TokenView<Namespace>>, cursor: int) -> Option<(Seq<(Seq<char>, Option<Seq<char>>)>, int)>
    decreases tokens.len() - cursor,
{
    if cursor < 0 || cursor >= tokens.len() {
        Some((Seq::empty(), cursor))
    } else if spec_opens(tokens, cursor, Namespace::Ram, "ID"@) {
        match spec_leaf_at(tokens, cursor, Namespace::Ram, "ID"@) {
            Some((t, next)) => if t.len() > 0 && next > cursor {
                match spec_cii_identifiers(tokens, next) {
                    Some((rest, end)) => Some((seq![(t, None::<Seq<char>>)] + rest, end)),
                    None => None,
                }
            } else {
                None
            },
            None => None,
        }
    } else if spec_opens(tokens, cursor, Namespace::Ram, "GlobalID"@) {
        match spec_leaf_at(tokens, cursor, Namespace::Ram, "GlobalID"@) {
            Some((t, next)) => {
                let scheme = crate::reading::spec_attribute(spec_open_attributes(tokens, cursor), "schemeID"@);
                if t.len() > 0 && spec_filled_text(scheme) && next > cursor {
                    match spec_cii_identifiers(tokens, next) {
                        Some((rest, end)) => Some((seq![(t, scheme)] + rest, end)),
                        None => None,
                    }
                } else {
                    None
                }
            },
            None => None,
        }
    } else {
        Some((Seq::empty(), cursor))
    }
}

/// The texts and schemes of a list of identifiers.
pub open spec fn spec_identifier_texts(identifiers: Seq<OperationalEntity>) -> Seq<(Seq<char>, Option<Seq<char>>)> {
    identifiers.map_values(|o: OperationalEntity| (o.id@, crate::ubl_read::spec_texts(o.issuer)))
}

/// Reads the party identifiers: an `ID`, or a `GlobalID` with its scheme.
#[verifier::spinoff_prover]
pub fn read_identifiers(p: &mut Parser<Namespace>) -> (r: Result<Vec<OperationalEntity>, Error>)
    requires
        old(p).wf(),
    ensures
        final(p).follows(old(p)),
        r is Ok ==> final(p).restored(old(p)),
        match spec_cii_identifiers(old(p).spec_tokens(), old(p).spec_cursor()) {
            Some((ids, end)) => r matches Ok(v) && spec_identifier_texts(v@) == ids && final(p).spec_cursor() == end,
            None => r is Err,
        },
{
    let mut identifiers: Vec<OperationalEntity> = Vec::new();
    proof {
        assert(spec_identifier_texts(identifiers@) =~= Seq::empty());
        assert(Seq::<(Seq<char>, Option<Seq<char>>)>::empty() + Seq::empty() =~= Seq::<(Seq<char>, Option<Seq<char>>)>::empty());
    }
    while p.is_open(Namespace::Ram, "ID") || p.is_open(Namespace::Ram, "GlobalID")
        invariant
            p.restored(old(p)),
            old(p).wf(),
            spec_cii_identifiers(old(p).spec_tokens(), old(p).spec_cursor()) == match spec_cii_identifiers(
                p.spec_tokens(),
                p.spec_cursor(),
            ) {
                Some((rest, end)) => Some((spec_identifier_texts(identifiers@) + rest, end)),
                None => None,
            },
        decreases p.spec_tokens().len() - p.spec_cursor(),
    {
        let ghost before = spec_identifier_texts(identifiers@);
        let ghost at = p.spec_cursor();
        if p.is_open(Namespace::Ram, "ID") {
            let text = p.leaf(Namespace::Ram, "ID", "identifiers")?;
            identifiers.push(OperationalEntity { id: NonEmptyString::parse(text.as_str())?, issuer: None });
        } else {
            let (attributes, text) = p.leaf_attr(Namespace::Ram, "GlobalID", "identifiers")?;
            let issuer = optional_attribute(&attributes, "schemeID")?;
            identifiers.push(OperationalEntity { id: NonEmptyString::parse(text.as_str())?, issuer });
        }
        proof {
            let added = spec_identifier_texts(identifiers@);
            assert(added =~= before.push(added.last()));
            if let Some((rest, end)) = spec_cii_identifiers(p.spec_tokens(), p.spec_cursor()) {
                assert(before + (seq![added.last()] + rest) =~= added + rest);
            }
        }
    }
    proof {
        assert(spec_identifier_texts(identifiers@) + Seq::empty() =~= spec_identifier_texts(identifiers@));
    }
    Ok(identifiers)
}

/// Reads the specified legal organization, when present: the legal registration identifier
/// and the trading name.
#[verifier::spinoff_prover]
pub fn read_legal_organization(p: &mut Parser<Namespace>) -> (r: Result<(Option<LegalEntity>, Option<NonEmptyString>), Error>)
    requires
        old(p).wf(),
    ensures
        final(p).follows(old(p)),
        r is Ok ==> final(p).restored(old(p)),
        !spec_opens(old(p).spec_tokens(), old(p).spec_cursor(), Namespace::Ram, "SpecifiedLegalOrganization"@) ==> (r matches Ok((None, None))
            && *final(p) == *old(p)),
        spec_opens(old(p).spec_tokens(), old(p).spec_cursor(), Namespace::Ram, "SpecifiedLegalOrganization"@) ==> match spec_optional_leaf_at(
            old(p).spec_tokens(),
            old(p).spec_cursor() + 1,
            Namespace::Ram,
            "ID"@,
        ) {
            None => r is Err,
            Some((id, after_id)) => match spec_optional_leaf_at(old(p).spec_tokens(), after_id, Namespace::Ram, "TradingBusinessName"@) {
                None => r is Err,
                Some((name, after_name)) => {
                    let issuer = crate::reading::spec_attribute(spec_open_attributes(old(p).spec_tokens(), old(p).spec_cursor() + 1), "schemeID"@);
                    if spec_filled_text(id) && (id is Some ==> spec_filled_text(issuer)) && spec_filled_text(name)
                        && spec_closes(old(p).spec_tokens(), after_name) {
                        r matches Ok((e, n)) && crate::ubl_read::spec_texts(n) == name && match id {
                            Some(t) => e matches Some(entity) && entity.id@ == t && crate::ubl_read::spec_texts(entity.issuer) == issuer,
                            None => e is None,
                        } && final(p).spec_cursor() == after_name + 1
                    } else {
                        r is Err
                    }
                },
            },
        },
{
    if !p.is_open(Namespace::Ram, "SpecifiedLegalOrganization") {
        return Ok((None, None));
    }
    p.enter_structural(Namespace::Ram, "SpecifiedLegalOrganization")?;
    let legal_entity = optional_legal_entity(p)?;
    let trading_name = p.optional_leaf(Namespace::Ram, "TradingBusinessName", "trading_name")?;
    p.leave_wrapper()?;
    Ok((legal_entity, trading_name))
}

/// Reads the legal registration identifier of a party, when present.
#[verifier::spinoff_prover]
pub fn optional_legal_entity(p: &mut Parser<Namespace>) -> (r: Result<Option<LegalEntity>, Error>)
    requires
        old(p).wf(),
    ensures
        final(p).follows(old(p)),
        r is Ok ==> final(p).restored(old(p)),
        match spec_optional_leaf_at(old(p).spec_tokens(), old(p).spec_cursor(), Namespace::Ram, "ID"@) {
            None => r is Err,
            Some((None, _)) => r matches Ok(None) && *final(p) == *old(p),
            Some((Some(t), next)) => {
                let a = crate::reading::spec_attribute(spec_open_attributes(old(p).spec_tokens(), old(p).spec_cursor()), "schemeID"@);
                if t.len() > 0 && spec_filled_text(a) {
                    r matches Ok(Some(x)) && x.id@ == t && crate::ubl_read::spec_texts(x.issuer) == a
                        && final(p).spec_cursor() == next
                } else {
                    r is Err
                }
            },
        },
{
    match p.optional_leaf_attr(Namespace::Ram, "ID", "legal_entity")? {
        None => Ok(None),
        Some((attributes, id)) => {
            let issuer = optional_attribute(&attributes, "schemeID")?;
            Ok(Some(LegalEntity { id: NonEmptyString::parse(id.as_str())?, issuer }))
        },
    }
}

/// Reads a defined trade contact.
#[verifier::spinoff_prover]
pub fn read_contact(p: &mut Parser<Namespace>) -> (r: Result<Contact, Error>)
    requires
        old(p).wf(),
    ensures
        final(p).follows(old(p)),
        r is Ok ==> final(p).advanced(old(p)),
        match spec_optional_leaf_at(old(p).spec_tokens(), old(p).spec_cursor() + 1, Namespace::Ram, "PersonName"@) {
            None => r is Err,
            Some((name, after_name)) => match spec_optional_wrapped_leaf_at(
                old(p).spec_tokens(),
                after_name,
                Namespace::Ram,
                "TelephoneUniversalCommunication"@,
                Namespace::Ram,
                "CompleteNumber"@,
            ) {
                None => r is Err,
                Some((phone, after_phone)) => match spec_optional_wrapped_leaf_at(
                    old(p).spec_tokens(),
                    after_phone,
                    Namespace::Ram,
                    "EmailURIUniversalCommunication"@,
                    Namespace::Ram,
                    "URIID"@,
                ) {
                    None => r is Err,
                    Some((mail, after_mail)) => if spec_opens(old(p).spec_tokens(), old(p).spec_cursor(), Namespace::Ram, "DefinedTradeContact"@)
                        && spec_filled_text(name) && spec_filled_text(phone) && crate::reading::spec_valid_email(mail)
                        && spec_closes(old(p).spec_tokens(), after_mail) {
                        r matches Ok(x) && crate::ubl_read::spec_texts(x.name) == name && crate::ubl_read::spec_texts(x.telephone) == phone
                            && crate::reading::spec_email_text(x.email) == crate::reading::spec_trimmed(mail) && final(p).spec_cursor() == after_mail + 1
                    } else {
                        r is Err
                    },
                },
            },
        },
{
    p.enter_group(Namespace::Ram, "DefinedTradeContact", "contact")?;
    let name = p.optional_leaf(Namespace::Ram, "PersonName", "name")?;
    let mut telephone = None;
    if p.is_open(Namespace::Ram, "TelephoneUniversalCommunication") {
        p.enter_structural(Namespace::Ram, "TelephoneUniversalCommunication")?;
        telephone = p.optional_leaf(Namespace::Ram, "CompleteNumber", "telephone")?;
        p.leave_wrapper()?;
    }
    let mut email = None;
    if p.is_open(Namespace::Ram, "EmailURIUniversalCommunication") {
        p.enter_structural(Namespace::Ram, "EmailURIUniversalCommunication")?;
        let text = p.optional_text(Namespace::Ram, "URIID", "email")?;
        p.leave_wrapper()?;
        if let Some(text) = text {
            email = Some(parse_email(text.as_str())?);
        }
    }
    p.leave_group()?;
    Ok(Contact { name, telephone, email })
}

/// The fields of a postal trade address whose start is at `cursor - 1`, in the order of
/// `spec_address_texts`, and the position of its end.
pub open spec fn spec_cii_address_fields(tokens: Seq<crate::token::TokenView<Namespace>>, cursor: int) -> Option<(Seq<Option<Seq<char>>>, int)> {
    match spec_optional_leaf_at(tokens, cursor, Namespace::Ram, "PostcodeCode"@) {
        None => None,
        Some((post_code, a)) => match spec_optional_leaf_at(tokens, a, Namespace::Ram, "LineOne"@) {
            None => None,
            Some((line_one, b)) => match spec_optional_leaf_at(tokens, b, Namespace::Ram, "LineTwo"@) {
                None => None,
                Some((line_two, c)) => match spec_optional_leaf_at(tokens, c, Namespace::Ram, "LineThree"@) {
                    None => None,
                    Some((line_three, d)) => match spec_optional_leaf_at(tokens, d, Namespace::Ram, "CityName"@) {
                        None => None,
                        Some((city, e)) => match spec_optional_leaf_at(tokens, e, Namespace::Ram, "CountryID"@) {
                            None => None,
                            Some((country, f)) => match spec_optional_leaf_at(
                                tokens,
                                f,
                                Namespace::Ram,
                                "CountrySubDivisionName"@,
                            ) {
                                None => None,
                                Some((subdivision, g)) => Some(
                                    (seq![line_one, line_two, line_three, city, post_code, subdivision, country], g),
                                ),
                            },
                        },
                    },
                },
            },
        },
    }
}

/// An optional postal trade address at `cursor`: its fields when it is there and the position
/// after it; the address absent consumes nothing. `None` when it is there but malformed.
pub open spec fn spec_cii_optional_address(tokens: Seq<crate::token::TokenView<Namespace>>, cursor: int) -> Option<(Option<Seq<Option<Seq<char>>>>, int)> {
    if spec_opens(tokens, cursor, Namespace::Ram, "PostalTradeAddress"@) {
        match spec_cii_address_fields(tokens, cursor + 1) {
            Some((texts, end)) => if crate::reading::spec_valid_address(texts) && spec_closes(tokens, end) {
                Some((Some(texts), end + 1))
            } else {
                None
            },
            None => None,
        }
    } else {
        Some((None, cursor))
    }
}

/// The fields of an optional address as read.
pub open spec fn spec_address_option(address: Option<PostalAddress>) -> Option<Seq<Option<Seq<char>>>> {
    match address {
        Some(a) => Some(crate::reading::spec_address_texts(a)),
        None => None,
    }
}

/// Reads a postal trade address, when present.
#[verifier::rlimit(50)]
#[verifier::spinoff_prover]
pub fn optional_address(p: &mut Parser<Namespace>) -> (r: Result<Option<PostalAddress>, Error>)
    requires
        old(p).wf(),
    ensures
        final(p).follows(old(p)),
        r is Ok ==> final(p).restored(old(p)),
        !spec_opens(old(p).spec_tokens(), old(p).spec_cursor(), Namespace::Ram, "PostalTradeAddress"@) ==> (r matches Ok(None) && *final(p) == *old(p)),
        spec_opens(old(p).spec_tokens(), old(p).spec_cursor(), Namespace::Ram, "PostalTradeAddress"@) ==> match spec_cii_address_fields(old(p).spec_tokens(), old(p).spec_cursor() + 1) {
            None => r is Err,
            Some((texts, end)) => if crate::reading::spec_valid_address(texts) && spec_closes(old(p).spec_tokens(), end) {
                r matches Ok(Some(a)) && crate::reading::spec_address_texts(a) == crate::reading::spec_address_read(texts)
                    && final(p).spec_cursor() == end + 1
            } else {
                r is Err
            },
        },
{
    if !p.is_open(Namespace::Ram, "PostalTradeAddress") {
        return Ok(None);
    }
    p.enter_group(Namespace::Ram, "PostalTradeAddress", "address")?;
    let post_code = p.optional_leaf(Namespace::Ram, "PostcodeCode", "postal_code")?;
    let line_one = p.optional_leaf(Namespace::Ram, "LineOne", "line1")?;
    let line_two = p.optional_leaf(Namespace::Ram, "LineTwo", "line2")?;
    let line_three = p.optional_leaf(Namespace::Ram, "LineThree", "line3")?;
    let city = p.optional_leaf(Namespace::Ram, "CityName", "city")?;
    let country = match p.optional_text(Namespace::Ram, "CountryID", "country")? {
        Some(code) => Some(parse_country(code.as_str())?),
        None => None,
    };
    let subdivision = p.optional_leaf(Namespace::Ram, "CountrySubDivisionName", "country_subdivision")?;
    p.leave_group()?;
    let address = PostalAddress { line1: line_one, line2: line_two, line3: line_three, city, postal_code: post_code, country_subdivision: subdivision, country };
    proof {
        if let Some((texts, end)) = spec_cii_address_fields(old(p).spec_tokens(), old(p).spec_cursor() + 1) {
            assert(crate::reading::spec_address_texts(address) =~= crate::reading::spec_address_read(texts));
        }
    }
    Ok(Some(address))
}

/// Reads a party electronic address (`BT-34`/`BT-49`), when present.
#[verifier::spinoff_prover]
pub fn optional_electronic_address(p: &mut Parser<Namespace>) -> (r: Result<Option<ElectronicAddress>, Error>)
    requires
        old(p).wf(),
    ensures
        final(p).follows(old(p)),
        r is Ok ==> final(p).restored(old(p)),
        !spec_opens(old(p).spec_tokens(), old(p).spec_cursor(), Namespace::Ram, "URIUniversalCommunication"@) ==> (r matches Ok(None) && *final(p) == *old(p)),
        spec_opens(old(p).spec_tokens(), old(p).spec_cursor(), Namespace::Ram, "URIUniversalCommunication"@) ==> match spec_optional_leaf_at(
            old(p).spec_tokens(),
            old(p).spec_cursor() + 1,
            Namespace::Ram,
            "URIID"@,
        ) {
            None => r is Err,
            Some((id, after)) => {
                let scheme = crate::reading::spec_attribute(spec_open_attributes(old(p).spec_tokens(), old(p).spec_cursor() + 1), "schemeID"@);
                if spec_filled_text(id) && (id is Some ==> spec_filled_text(scheme)) && spec_closes(old(p).spec_tokens(), after) {
                    r matches Ok(Some(x)) && crate::ubl_read::spec_texts(x.id) == id && (id is Some ==> crate::ubl_read::spec_texts(x.scheme) == scheme)
                        && (id is None ==> x.scheme is None) && final(p).spec_cursor() == after + 1
                } else {
                    r is Err
                }
            },
        },
{
    if !p.is_open(Namespace::Ram, "URIUniversalCommunication") {
        return Ok(None);
    }
    p.enter_structural(Namespace::Ram, "URIUniversalCommunication")?;
    let mut address = ElectronicAddress { id: None, scheme: None };
    if let Some((attributes, id)) = p.optional_leaf_attr(Namespace::Ram, "URIID", "electronic_address")? {
        address.id = Some(NonEmptyString::parse(id.as_str())?);
        address.scheme = optional_attribute(&attributes, "schemeID")?;
    }
    p.leave_wrapper()?;
    Ok(Some(address))
}

/// Reads a specified tax registration; the scheme identifier `FC` marks a tax registration
/// other than VAT, any other scheme a VAT identifier. Its scheme is peeked first, for the
/// field it maps to.
#[verifier::spinoff_prover]
pub fn read_tax_registration(p: &mut Parser<Namespace>) -> (r: Result<Option<TaxRegistration>, Error>)
    requires
        old(p).wf(),
    ensures
        final(p).follows(old(p)),
        r is Ok ==> final(p).advanced(old(p)),
        match spec_optional_leaf_at(old(p).spec_tokens(), old(p).spec_cursor() + 1, Namespace::Ram, "ID"@) {
            None => r is Err,
            Some((id, after)) => if spec_opens(old(p).spec_tokens(), old(p).spec_cursor(), Namespace::Ram, "SpecifiedTaxRegistration"@)
                && spec_filled_text(id) && spec_closes(old(p).spec_tokens(), after) {
                final(p).spec_cursor() == after + 1 && match id {
                    None => r matches Ok(None),
                    Some(t) => if crate::reading::spec_attribute(spec_open_attributes(old(p).spec_tokens(), old(p).spec_cursor() + 1), "schemeID"@)
                        == Some("FC"@) {
                        r matches Ok(Some(TaxRegistration::Other(v))) && v@ == t
                    } else {
                        r matches Ok(Some(TaxRegistration::Vat(v))) && v.id@ == t
                    },
                }
            } else {
                r is Err
            },
        },
{
    let other = match p.peek_child_attribute("schemeID") {
        Some(scheme) => str_eq(scheme.as_str(), "FC"),
        None => false,
    };
    let field: &'static str = if other { "tax_registration" } else { "vat" };
    p.enter_group(Namespace::Ram, "SpecifiedTaxRegistration", field)?;
    let id = p.optional_leaf_attr(Namespace::Ram, "ID", field)?;
    p.leave_group()?;
    match id {
        None => Ok(None),
        Some((_, text)) => {
            let value = NonEmptyString::parse(text.as_str())?;
            if other {
                Ok(Some(TaxRegistration::Other(value)))
            } else {
                Ok(Some(TaxRegistration::Vat(VatIdentifier { id: value })))
            }
        },
    }
}

/// Reads the header trade delivery into the invoice, when present: the ship-to party, the
/// delivery date (`BT-72`) and the despatch and receiving advice references.
#[verifier::spinoff_prover]
pub fn header_trade_delivery(p: &mut Parser<Namespace>, invoice: &mut Invoice) -> (r: Result<(), Error>)
    requires
        old(p).wf(),
    ensures
        final(p).follows(old(p)),
        r is Ok ==> final(p).restored(old(p)),
{
    if !p.is_open(Namespace::Ram, "ApplicableHeaderTradeDelivery") {
        return Ok(());
    }
    p.enter_structural(Namespace::Ram, "ApplicableHeaderTradeDelivery")?;
    let mut delivery: Option<Delivery> = None;
    if p.is_open(Namespace::Ram, "ShipToTradeParty") {
        delivery = Some(read_ship_to(p)?);
    }
    if p.is_open(Namespace::Ram, "ActualDeliverySupplyChainEvent") {
        p.enter_structural(Namespace::Ram, "ActualDeliverySupplyChainEvent")?;
        let date = optional_datetime(p, "OccurrenceDateTime", "date")?;
        p.leave_wrapper()?;
        if date.is_some() {
            delivery = match delivery {
                Some(d) => Some(Delivery { name: d.name, location: d.location, date, address: d.address }),
                None => Some(Delivery { name: None, location: None, date, address: None }),
            };
        }
    }
    invoice.delivery = delivery;
    invoice.despatch_advice_reference = optional_reference(p, "DespatchAdviceReferencedDocument", "despatch_advice_reference")?;
    invoice.receiving_advice_reference = optional_reference(p, "ReceivingAdviceReferencedDocument", "receiving_advice_reference")?;
    p.leave_wrapper()?;
    Ok(())
}

/// Reads the ship-to party into a delivery without its date: the location, the name and
/// the address.
#[verifier::spinoff_prover]
pub fn read_ship_to(p: &mut Parser<Namespace>) -> (r: Result<Delivery, Error>)
    requires
        old(p).wf(),
    ensures
        final(p).follows(old(p)),
        r is Ok ==> final(p).advanced(old(p)),
        match spec_optional_leaf_at(old(p).spec_tokens(), old(p).spec_cursor() + 1, Namespace::Ram, "ID"@) {
            None => r is Err,
            Some((id, after_id)) => match spec_optional_leaf_at(old(p).spec_tokens(), after_id, Namespace::Ram, "Name"@) {
                None => r is Err,
                Some((name, after_name)) => match spec_cii_optional_address(old(p).spec_tokens(), after_name) {
                    None => r is Err,
                    Some((address, after_address)) => {
                        let scheme = crate::reading::spec_attribute(spec_open_attributes(old(p).spec_tokens(), old(p).spec_cursor() + 1), "schemeID"@);
                        if spec_opens(old(p).spec_tokens(), old(p).spec_cursor(), Namespace::Ram, "ShipToTradeParty"@) && spec_filled_text(id)
                            && (id is Some ==> spec_filled_text(scheme)) && spec_filled_text(name)
                            && spec_closes(old(p).spec_tokens(), after_address) {
                            r matches Ok(d) && crate::ubl_read::spec_texts(d.name) == name && d.date is None && match id {
                                Some(t) => d.location matches Some(l) && crate::ubl_read::spec_texts(l.id) == Some(t) && crate::ubl_read::spec_texts(l.issuer) == scheme,
                                None => d.location is None,
                            } && spec_address_option(d.address) == match address {
                                Some(texts) => Some(crate::reading::spec_address_read(texts)),
                                None => None,
                            } && final(p).spec_cursor() == after_address + 1
                        } else {
                            r is Err
                        }
                    },
                },
            },
        },
{
    p.enter_group(Namespace::Ram, "ShipToTradeParty", "delivery")?;
    let location = match p.optional_leaf_attr(Namespace::Ram, "ID", "location")? {
        Some((attributes, id)) => {
            let issuer = optional_attribute(&attributes, "schemeID")?;
            Some(LocationReference { id: Some(NonEmptyString::parse(id.as_str())?), issuer })
        },
        None => None,
    };
    let name = p.optional_leaf(Namespace::Ram, "Name", "name")?;
    let address = optional_address(p)?;
    p.leave_group()?;
    Ok(Delivery { name, location, date: None, address })
}

/// The payment instructions with the creditor identifier (`BT-90`) and the mandate reference
/// (`BT-89`) of a direct debit given to their details: to a direct debit they fill its two
/// fields; details that are absent become a direct debit when either is stated.
pub fn with_mandate(
    payment: PaymentInstructions,
    creditor: Option<NonEmptyString>,
    mandate: Option<NonEmptyString>,
) -> (r: PaymentInstructions)
    ensures
        r.means == payment.means,
        r.means_text == payment.means_text,
        r.remittance_information == payment.remittance_information,
        match payment.details {
            Some(Details::DirectDebit(d)) => r.details == Some(
                Details::DirectDebit(DirectDebit { mandate_reference: mandate, creditor_identifier: creditor, debited_account: d.debited_account }),
            ),
            None => if creditor is Some || mandate is Some {
                r.details == Some(Details::DirectDebit(DirectDebit { mandate_reference: mandate, creditor_identifier: creditor, debited_account: None }))
            } else {
                r.details is None
            },
            other => r.details == other,
        },
{
    let details = match payment.details {
        Some(Details::DirectDebit(debit)) => Some(
            Details::DirectDebit(DirectDebit { mandate_reference: mandate, creditor_identifier: creditor, debited_account: debit.debited_account }),
        ),
        None => if creditor.is_some() || mandate.is_some() {
            Some(Details::DirectDebit(DirectDebit { mandate_reference: mandate, creditor_identifier: creditor, debited_account: None }))
        } else {
            None
        },
        other => other,
    };
    PaymentInstructions {
        means: payment.means,
        means_text: payment.means_text,
        remittance_information: payment.remittance_information,
        details,
    }
}

/// Reads the header trade settlement into the invoice, when present, giving the exemption
/// reason the VAT breakdown states.
#[verifier::spinoff_prover]
pub fn header_trade_settlement(p: &mut Parser<Namespace>, invoice: &mut Invoice) -> (r: Result<Exemption, Error>)
    requires
        old(p).wf(),
    ensures
        final(p).follows(old(p)),
        r is Ok ==> final(p).restored(old(p)),
{
    if !p.is_open(Namespace::Ram, "ApplicableHeaderTradeSettlement") {
        return Ok(Exemption { reason: None });
    }
    p.enter_structural(Namespace::Ram, "ApplicableHeaderTradeSettlement")?;
    let creditor = p.optional_leaf(Namespace::Ram, "CreditorReferenceID", "creditor_identifier")?;
    let remittance = p.optional_leaf(Namespace::Ram, "PaymentReference", "remittance_information")?;
    if p.is_open(Namespace::Ram, "TaxCurrencyCode") {
        let code = p.leaf(Namespace::Ram, "TaxCurrencyCode", "vat_accounting_total")?;
        parse_currency(code.as_str())?;
    }
    invoice.currency = match p.optional_text(Namespace::Ram, "InvoiceCurrencyCode", "currency")? {
        Some(code) => Some(parse_currency(code.as_str())?),
        None => None,
    };
    if p.is_open(Namespace::Ram, "PayeeTradeParty") {
        invoice.payee = Some(read_payee(p)?);
    }
    let mut payment = None;
    if p.is_open(Namespace::Ram, "SpecifiedTradeSettlementPaymentMeans") {
        let mut means = read_payment_means(p)?;
        means.remittance_information = remittance;
        payment = Some(means);
    }
    let (exemption, vat_point) = read_tax_breakdown(p, invoice)?;
    invoice.vat_point = vat_point;
    if p.is_open(Namespace::Ram, "BillingSpecifiedPeriod") {
        invoice.invoicing_period = Some(billing_period(p, "invoicing_period")?);
    }
    let ghost before_adjustments = *p;
    let mut adjustments: Vec<Adjustment> = Vec::new();
    while p.is_open(Namespace::Ram, "SpecifiedTradeAllowanceCharge")
        invariant
            p.restored(&before_adjustments),
            before_adjustments.wf(),
            before_adjustments.follows(old(p)),
            adjustments@.len() <= p.spec_cursor() - before_adjustments.spec_cursor(),
        decreases p.spec_tokens().len() - p.spec_cursor(),
    {
        let adjustment = read_adjustment(p, adjustments.len() + 1)?;
        adjustments.push(adjustment);
    }
    invoice.adjustments = adjustments;
    let mut mandate = None;
    if p.is_open(Namespace::Ram, "SpecifiedTradePaymentTerms") {
        p.enter_structural(Namespace::Ram, "SpecifiedTradePaymentTerms")?;
        invoice.payment_terms = p.optional_leaf(Namespace::Ram, "Description", "payment_terms")?;
        invoice.payment_due_date = optional_datetime(p, "DueDateDateTime", "payment_due_date")?;
        mandate = p.optional_leaf(Namespace::Ram, "DirectDebitMandateID", "mandate_reference")?;
        p.leave_wrapper()?;
    }
    if p.is_open(Namespace::Ram, "SpecifiedTradeSettlementHeaderMonetarySummation") {
        read_monetary_summation(p, invoice)?;
    }
    let ghost before_preceding = *p;
    let mut preceding: Vec<PrecedingInvoice> = Vec::new();
    while p.is_open(Namespace::Ram, "InvoiceReferencedDocument")
        invariant
            p.restored(&before_preceding),
            before_preceding.wf(),
            before_preceding.follows(old(p)),
            preceding@.len() <= p.spec_cursor() - before_preceding.spec_cursor(),
        decreases p.spec_tokens().len() - p.spec_cursor(),
    {
        let reference = read_preceding_invoice(p, preceding.len() + 1)?;
        preceding.push(reference);
    }
    invoice.preceding_invoices = preceding;
    invoice.buyer_accounting_reference = optional_accounting_account(p)?;
    p.leave_wrapper()?;
    invoice.payment = match payment {
        Some(payment) => Some(with_mandate(payment, creditor, mandate)),
        None => None,
    };
    Ok(exemption)
}

/// Reads the payee (`BG-10`).
#[verifier::spinoff_prover]
pub fn read_payee(p: &mut Parser<Namespace>) -> (r: Result<Payee, Error>)
    requires
        old(p).wf(),
    ensures
        final(p).follows(old(p)),
        r is Ok ==> final(p).advanced(old(p)),
        match spec_cii_identifiers(old(p).spec_tokens(), old(p).spec_cursor() + 1) {
            None => r is Err,
            Some((ids, after_ids)) => match spec_optional_leaf_at(old(p).spec_tokens(), after_ids, Namespace::Ram, "Name"@) {
                None => r is Err,
                Some((name, after_name)) => match spec_optional_wrapped_leaf_at(
                    old(p).spec_tokens(),
                    after_name,
                    Namespace::Ram,
                    "SpecifiedLegalOrganization"@,
                    Namespace::Ram,
                    "ID"@,
                ) {
                    None => r is Err,
                    Some((entity, after_entity)) => if spec_opens(old(p).spec_tokens(), old(p).spec_cursor(), Namespace::Ram, "PayeeTradeParty"@)
                        && spec_filled_text(name) && spec_filled_text(entity) && (entity is Some ==> spec_filled_text(
                        crate::reading::spec_attribute(spec_open_attributes(old(p).spec_tokens(), after_name + 1), "schemeID"@),
                    )) && spec_closes(old(p).spec_tokens(), after_entity) {
                        r matches Ok(x) && spec_identifier_texts(x.identifiers@) == ids && crate::ubl_read::spec_texts(x.name) == name
                            && match entity {
                                Some(t) => x.legal_entity matches Some(e) && e.id@ == t && crate::ubl_read::spec_texts(e.issuer) == crate::reading::spec_attribute(
                                    spec_open_attributes(old(p).spec_tokens(), after_name + 1),
                                    "schemeID"@,
                                ),
                                None => x.legal_entity is None,
                            } && final(p).spec_cursor() == after_entity + 1
                    } else {
                        r is Err
                    },
                },
            },
        },
{
    p.enter_group(Namespace::Ram, "PayeeTradeParty", "payee")?;
    let identifiers = read_identifiers(p)?;
    let name = p.optional_leaf(Namespace::Ram, "Name", "name")?;
    let mut legal_entity = None;
    if p.is_open(Namespace::Ram, "SpecifiedLegalOrganization") {
        p.enter_structural(Namespace::Ram, "SpecifiedLegalOrganization")?;
        legal_entity = optional_legal_entity(p)?;
        p.leave_wrapper()?;
    }
    p.leave_group()?;
    Ok(Payee { name, identifiers, legal_entity })
}

/// Reads the payment means (`BG-16`) without the remittance information: the means code and
/// text, and the card, the debited account or the credit transfer accounts.
#[verifier::spinoff_prover]
pub fn read_payment_means(p: &mut Parser<Namespace>) -> (r: Result<PaymentInstructions, Error>)
    requires
        old(p).wf(),
    ensures
        final(p).follows(old(p)),
        r is Ok ==> final(p).advanced(old(p)),
        match spec_cii_payment_means(old(p).spec_tokens(), old(p).spec_cursor()) {
            None => r is Err,
            Some((means, text, details, next)) => r matches Ok(x) && spec_payment_view(x) == (means, text, None::<Seq<char>>, details)
                && final(p).spec_cursor() == next,
        },
{
    p.enter_group(Namespace::Ram, "SpecifiedTradeSettlementPaymentMeans", "payment")?;
    let (_, code) = p.derived(Namespace::Ram, "TypeCode")?;
    let means = NonEmptyString::parse(code.as_str())?;
    let means_text = if p.is_open(Namespace::Ram, "Information") {
        let (_, text) = p.derived(Namespace::Ram, "Information")?;
        Some(NonEmptyString::parse(text.as_str())?)
    } else {
        None
    };
    let details = read_payment_details(p)?;
    p.leave_group()?;
    Ok(PaymentInstructions { means, means_text, remittance_information: None, details })
}

/// What the details of a payment means hold, as plain values.
pub enum PaymentDetailsView {
    /// The payee accounts: each account, its name and its provider.
    Transfers(Seq<(Seq<char>, Option<Seq<char>>, Option<Seq<char>>)>),
    /// The card: its primary account number and its holder.
    Card(Seq<char>, Option<Seq<char>>),
    /// The direct debit: its mandate, its creditor and the debited account.
    Debit(Option<Seq<char>>, Option<Seq<char>>, Option<Seq<char>>),
    /// No details.
    Absent,
}

/// A credit transfer as plain values: the account, its name and its provider.
pub open spec fn spec_transfer_view(t: CreditTransfer) -> (Seq<char>, Option<Seq<char>>, Option<Seq<char>>) {
    (t.account@, crate::ubl_read::spec_texts(t.account_name), crate::ubl_read::spec_texts(t.provider))
}

/// The details of a payment means as plain values.
pub open spec fn spec_details_view(details: Option<Details>) -> PaymentDetailsView {
    match details {
        Some(Details::CreditTransfers(ts)) => PaymentDetailsView::Transfers(ts@.map_values(|t: CreditTransfer| spec_transfer_view(t))),
        Some(Details::Card(c)) => PaymentDetailsView::Card(c.primary_account_number@, crate::ubl_read::spec_texts(c.holder_name)),
        Some(Details::DirectDebit(d)) => PaymentDetailsView::Debit(
            crate::ubl_read::spec_texts(d.mandate_reference),
            crate::ubl_read::spec_texts(d.creditor_identifier),
            crate::ubl_read::spec_texts(d.debited_account),
        ),
        None => PaymentDetailsView::Absent,
    }
}

/// The payment instructions as plain values: the means code and text, the remittance
/// information and the details.
pub open spec fn spec_payment_view(x: PaymentInstructions) -> (Seq<char>, Option<Seq<char>>, Option<Seq<char>>, PaymentDetailsView) {
    (x.means@, crate::ubl_read::spec_texts(x.means_text), crate::ubl_read::spec_texts(x.remittance_information), spec_details_view(x.details))
}

/// One credit transfer read at a cursor: the account, its name, its provider and the
/// position after it, when its elements are laid out as the reading expects.
pub open spec fn spec_cii_transfer(tokens: Seq<crate::token::TokenView<Namespace>>, cursor: int) -> Option<(Seq<char>, Option<Seq<char>>, Option<Seq<char>>, int)> {
    match spec_leaf_at(tokens, cursor + 1, Namespace::Ram, "IBANID"@) {
        None => None,
        Some((account, after_account)) => match spec_optional_leaf_at(tokens, after_account, Namespace::Ram, "AccountName"@) {
            None => None,
            Some((name, after_name)) => match spec_optional_wrapped_leaf_at(
                tokens,
                after_name + 1,
                Namespace::Ram,
                "PayeeSpecifiedCreditorFinancialInstitution"@,
                Namespace::Ram,
                "BICID"@,
            ) {
                None => None,
                Some((provider, after_provider)) => if spec_opens(tokens, cursor, Namespace::Ram, "PayeePartyCreditorFinancialAccount"@)
                    && account.len() > 0 && spec_filled_text(name) && spec_closes(tokens, after_name) && spec_filled_text(provider) {
                    Some((account, name, provider, after_provider))
                } else {
                    None
                },
            },
        },
    }
}

/// The run of credit transfers read from a cursor on, and the position after it.
pub open spec fn spec_cii_transfers(tokens: Seq<crate::token::TokenView<Namespace>>, cursor: int) -> Option<(Seq<(Seq<char>, Option<Seq<char>>, Option<Seq<char>>)>, int)>
    decreases tokens.len() - cursor,
{
    if spec_opens(tokens, cursor, Namespace::Ram, "PayeePartyCreditorFinancialAccount"@) {
        match spec_cii_transfer(tokens, cursor) {
            None => None,
            Some((account, name, provider, next)) => if cursor < next <= tokens.len() {
                match spec_cii_transfers(tokens, next) {
                    None => None,
                    Some((rest, end)) => Some((seq![(account, name, provider)] + rest, end)),
                }
            } else {
                None
            },
        }
    } else {
        Some((Seq::empty(), cursor))
    }
}

/// The payment card read at a cursor: its number, its holder and the position after it.
pub open spec fn spec_cii_card(tokens: Seq<crate::token::TokenView<Namespace>>, cursor: int) -> Option<(Seq<char>, Option<Seq<char>>, int)> {
    match spec_leaf_at(tokens, cursor + 1, Namespace::Ram, "ID"@) {
        None => None,
        Some((number, after_number)) => match spec_optional_leaf_at(tokens, after_number, Namespace::Ram, "CardholderName"@) {
            None => None,
            Some((holder, after_holder)) => if number.len() > 0 && spec_filled_text(holder) && spec_closes(tokens, after_holder) {
                Some((number, holder, after_holder + 1))
            } else {
                None
            },
        },
    }
}

/// The debited account read at a cursor, and the position after its wrapper.
pub open spec fn spec_cii_debit(tokens: Seq<crate::token::TokenView<Namespace>>, cursor: int) -> Option<(Option<Seq<char>>, int)> {
    match spec_optional_leaf_at(tokens, cursor + 1, Namespace::Ram, "IBANID"@) {
        None => None,
        Some((account, after_account)) => if spec_filled_text(account) && spec_closes(tokens, after_account) {
            Some((account, after_account + 1))
        } else {
            None
        },
    }
}

/// The details of a payment means read at a cursor: the card, the debited account or the
/// payee accounts, whichever opens there, and the position after them.
pub open spec fn spec_cii_details(tokens: Seq<crate::token::TokenView<Namespace>>, cursor: int) -> Option<(PaymentDetailsView, int)> {
    if spec_opens(tokens, cursor, Namespace::Ram, "ApplicableTradeSettlementFinancialCard"@) {
        match spec_cii_card(tokens, cursor) {
            Some((number, holder, next)) => Some((PaymentDetailsView::Card(number, holder), next)),
            None => None,
        }
    } else if spec_opens(tokens, cursor, Namespace::Ram, "PayerPartyDebtorFinancialAccount"@) {
        match spec_cii_debit(tokens, cursor) {
            Some((account, next)) => Some((PaymentDetailsView::Debit(None, None, account), next)),
            None => None,
        }
    } else if spec_opens(tokens, cursor, Namespace::Ram, "PayeePartyCreditorFinancialAccount"@) {
        match spec_cii_transfers(tokens, cursor) {
            Some((transfers, next)) => Some((PaymentDetailsView::Transfers(transfers), next)),
            None => None,
        }
    } else {
        Some((PaymentDetailsView::Absent, cursor))
    }
}

/// The payment means read at a cursor: the means code and text, the details and the position
/// after the group, when it is laid out as the reading expects.
pub open spec fn spec_cii_payment_means(tokens: Seq<crate::token::TokenView<Namespace>>, cursor: int) -> Option<(Seq<char>, Option<Seq<char>>, PaymentDetailsView, int)> {
    match spec_leaf_at(tokens, cursor + 1, Namespace::Ram, "TypeCode"@) {
        None => None,
        Some((code, after_code)) => match spec_optional_leaf_at(tokens, after_code, Namespace::Ram, "Information"@) {
            None => None,
            Some((text, after_text)) => match spec_cii_details(tokens, after_text) {
                None => None,
                Some((details, after_details)) => if spec_opens(
                    tokens,
                    cursor,
                    Namespace::Ram,
                    "SpecifiedTradeSettlementPaymentMeans"@,
                ) && code.len() > 0 && spec_filled_text(text) && spec_closes(tokens, after_details) {
                    Some((code, text, details, after_details + 1))
                } else {
                    None
                },
            },
        },
    }
}

/// Reads the details of a payment means: the card, the debited account or the payee
/// accounts, whichever opens at the cursor.
#[verifier::spinoff_prover]
pub fn read_payment_details(p: &mut Parser<Namespace>) -> (r: Result<Option<Details>, Error>)
    requires
        old(p).wf(),
    ensures
        final(p).follows(old(p)),
        r is Ok ==> final(p).restored(old(p)),
        match spec_cii_details(old(p).spec_tokens(), old(p).spec_cursor()) {
            None => r is Err,
            Some((details, next)) => r matches Ok(x) && spec_details_view(x) == details && final(p).spec_cursor() == next,
        },
{
    if p.is_open(Namespace::Ram, "ApplicableTradeSettlementFinancialCard") {
        p.enter_nested(Namespace::Ram, "ApplicableTradeSettlementFinancialCard")?;
        let (_, number) = p.derived(Namespace::Ram, "ID")?;
        let primary_account_number = NonEmptyString::parse(number.as_str())?;
        let holder_name = if p.is_open(Namespace::Ram, "CardholderName") {
            let (_, holder) = p.derived(Namespace::Ram, "CardholderName")?;
            Some(NonEmptyString::parse(holder.as_str())?)
        } else {
            None
        };
        p.leave_wrapper()?;
        Ok(Some(Details::Card(PaymentCard { primary_account_number, holder_name })))
    } else if p.is_open(Namespace::Ram, "PayerPartyDebtorFinancialAccount") {
        p.enter_nested(Namespace::Ram, "PayerPartyDebtorFinancialAccount")?;
        let debited_account = match p.optional_derived(Namespace::Ram, "IBANID")? {
            Some((_, text)) => Some(NonEmptyString::parse(text.as_str())?),
            None => None,
        };
        p.leave_wrapper()?;
        Ok(Some(Details::DirectDebit(DirectDebit { mandate_reference: None, creditor_identifier: None, debited_account })))
    } else if p.is_open(Namespace::Ram, "PayeePartyCreditorFinancialAccount") {
        let ghost start = p.spec_cursor();
        let ghost tokens = p.spec_tokens();
        let ghost before_transfers = *p;
        let mut transfers: Vec<CreditTransfer> = Vec::new();
        while p.is_open(Namespace::Ram, "PayeePartyCreditorFinancialAccount")
            invariant
                p.restored(&before_transfers),
                before_transfers.wf(),
                before_transfers.follows(old(p)),
                p.spec_tokens() == tokens,
                tokens == old(p).spec_tokens(),
                start == old(p).spec_cursor(),
                !spec_opens(tokens, start, Namespace::Ram, "ApplicableTradeSettlementFinancialCard"@),
                !spec_opens(tokens, start, Namespace::Ram, "PayerPartyDebtorFinancialAccount"@),
                spec_opens(tokens, start, Namespace::Ram, "PayeePartyCreditorFinancialAccount"@),
                spec_cii_transfers(tokens, start) == match spec_cii_transfers(tokens, p.spec_cursor()) {
                    Some((rest, end)) => Some((transfers@.map_values(|t: CreditTransfer| spec_transfer_view(t)) + rest, end)),
                    None => None::<(Seq<(Seq<char>, Option<Seq<char>>, Option<Seq<char>>)>, int)>,
                },
            decreases p.spec_tokens().len() - p.spec_cursor(),
        {
            let ghost here = p.spec_cursor();
            let ghost done = transfers@.map_values(|t: CreditTransfer| spec_transfer_view(t));
            let transfer = match read_credit_transfer(p) {
                Ok(t) => t,
                Err(e) => {
                    assert(spec_cii_transfers(tokens, here) is None);
                    return Err(e);
                },
            };
            proof {
                let (account, name, provider, next) = spec_cii_transfer(tokens, here).unwrap();
                assert(spec_transfer_view(transfer) == (account, name, provider));
            }
            transfers.push(transfer);
            proof {
                let v = transfers@.map_values(|t: CreditTransfer| spec_transfer_view(t));
                assert(v =~= done.push(spec_transfer_view(transfer)));
                match spec_cii_transfers(tokens, p.spec_cursor()) {
                    Some((rest, end)) => {
                        assert(done + (seq![spec_transfer_view(transfer)] + rest) =~= v + rest);
                    },
                    None => {},
                }
            }
        }
        proof {
            assert(transfers@.map_values(|t: CreditTransfer| spec_transfer_view(t)) + Seq::<(Seq<char>, Option<Seq<char>>, Option<Seq<char>>)>::empty()
                =~= transfers@.map_values(|t: CreditTransfer| spec_transfer_view(t)));
        }
        Ok(Some(Details::CreditTransfers(transfers)))
    } else {
        Ok(None)
    }
}

/// Reads one credit transfer (`BG-17`): the account and its name, and the provider that
/// follows them.
#[verifier::spinoff_prover]
pub fn read_credit_transfer(p: &mut Parser<Namespace>) -> (r: Result<CreditTransfer, Error>)
    requires
        old(p).wf(),
    ensures
        final(p).follows(old(p)),
        r is Ok ==> final(p).advanced(old(p)),
        match spec_cii_transfer(old(p).spec_tokens(), old(p).spec_cursor()) {
            None => r is Err,
            Some((account, name, provider, next)) => r matches Ok(x) && spec_transfer_view(x) == (account, name, provider)
                && final(p).spec_cursor() == next,
        },
{
    p.enter_nested(Namespace::Ram, "PayeePartyCreditorFinancialAccount")?;
    let (_, text) = p.derived(Namespace::Ram, "IBANID")?;
    let account = NonEmptyString::parse(text.as_str())?;
    let account_name = if p.is_open(Namespace::Ram, "AccountName") {
        let (_, name) = p.derived(Namespace::Ram, "AccountName")?;
        Some(NonEmptyString::parse(name.as_str())?)
    } else {
        None
    };
    p.leave_wrapper()?;
    let mut provider = None;
    if p.is_open(Namespace::Ram, "PayeeSpecifiedCreditorFinancialInstitution") {
        p.enter_nested(Namespace::Ram, "PayeeSpecifiedCreditorFinancialInstitution")?;
        provider = match p.optional_derived(Namespace::Ram, "BICID")? {
            Some((_, text)) => Some(NonEmptyString::parse(text.as_str())?),
            None => None,
        };
        p.leave_wrapper()?;
    }
    Ok(CreditTransfer { account, account_name, provider })
}

/// Reads the VAT breakdown (`BG-23`) into the invoice, giving the exemption reason of its
/// exempt group and the VAT point date code (`BT-8`) its groups state.
#[verifier::spinoff_prover]
pub fn read_tax_breakdown(p: &mut Parser<Namespace>, invoice: &mut Invoice) -> (r: Result<(Exemption, Option<VatPoint>), Error>)
    requires
        old(p).wf(),
    ensures
        final(p).follows(old(p)),
        r is Ok ==> final(p).restored(old(p)),
{
    let mut exemption = Exemption { reason: None };
    let mut vat_point = None;
    let mut breakdown: Vec<VatBreakdown> = Vec::new();
    while p.is_open(Namespace::Ram, "ApplicableTradeTax")
        invariant
            p.restored(old(p)),
            old(p).wf(),
            breakdown@.len() <= p.spec_cursor() - old(p).spec_cursor(),
        decreases p.spec_tokens().len() - p.spec_cursor(),
    {
        let (group, event) = read_breakdown_group(p, breakdown.len() + 1)?;
        if event.is_some() {
            vat_point = event;
        }
        if let Some(VatTreatment::Exempt { code, text }) = &group.treatment {
            exemption.reason = Some((*code, match text {
                Some(t) => Some(t.copy()),
                None => None,
            }));
        }
        breakdown.push(group);
    }
    invoice.vat_breakdown = breakdown;
    Ok((exemption, vat_point))
}

/// An optional decimal as read: `Some(None)` without a text, `None` when the text is no decimal.
pub open spec fn spec_optional_decimal(text: Option<Seq<char>>) -> Option<Option<crate::decimal::DecimalView>> {
    match text {
        None => Some(None),
        Some(t) => match crate::reading::spec_decimal_value(t) {
            Some(v) => Some(Some(v)),
            None => None,
        },
    }
}

/// The value of an optional decimal.
pub open spec fn spec_decimal_option(value: Option<Decimal>) -> Option<crate::decimal::DecimalView> {
    match value {
        Some(d) => Some(d@),
        None => None,
    }
}

/// Reads one group of the VAT breakdown (`BG-23`) and the VAT point date code it states; the
/// treatment is absent without a category code, and an unstated rate reads as zero.
#[verifier::spinoff_prover]
pub fn read_breakdown_group(p: &mut Parser<Namespace>, instance: usize) -> (r: Result<(VatBreakdown, Option<VatPoint>), Error>)
    requires
        old(p).wf(),
    ensures
        final(p).follows(old(p)),
        r is Ok ==> final(p).advanced(old(p)),
        match spec_optional_leaf_at(old(p).spec_tokens(), old(p).spec_cursor() + 1, Namespace::Ram, "CalculatedAmount"@) {
            None => r is Err,
            Some((tax, a)) => match spec_optional_leaf_at(old(p).spec_tokens(), a, Namespace::Ram, "TypeCode"@) {
                None => r is Err,
                Some((_, b)) => match spec_optional_leaf_at(old(p).spec_tokens(), b, Namespace::Ram, "ExemptionReason"@) {
                    None => r is Err,
                    Some((text, c)) => match spec_optional_leaf_at(old(p).spec_tokens(), c, Namespace::Ram, "BasisAmount"@) {
                        None => r is Err,
                        Some((taxable, d)) => match spec_optional_leaf_at(old(p).spec_tokens(), d, Namespace::Ram, "CategoryCode"@) {
                            None => r is Err,
                            Some((category, e)) => match spec_optional_leaf_at(old(p).spec_tokens(), e, Namespace::Ram, "ExemptionReasonCode"@) {
                                None => r is Err,
                                Some((code, f)) => match spec_optional_leaf_at(old(p).spec_tokens(), f, Namespace::Ram, "DueDateTypeCode"@) {
                                    None => r is Err,
                                    Some((event, g)) => match spec_optional_leaf_at(old(p).spec_tokens(), g, Namespace::Ram, "RateApplicablePercent"@) {
                                        None => r is Err,
                                        Some((percent, h)) => {
                                            let rate = match percent {
                                                Some(t) => crate::vat::spec_rate_text(t),
                                                None => Some(crate::decimal::DecimalView { mantissa: 0, scale: 0 }),
                                            };
                                            if spec_opens(old(p).spec_tokens(), old(p).spec_cursor(), Namespace::Ram, "ApplicableTradeTax"@)
                                                && spec_optional_decimal(tax) is Some && spec_filled_text(text)
                                                && spec_optional_decimal(taxable) is Some
                                                && (category matches Some(k) ==> crate::vat::spec_known_category(k))
                                                && (code matches Some(k) ==> exists|x: ExemptionReason| crate::exemption_reason::spec_exemption_code(x) == k)
                                                && (event matches Some(t) ==> crate::text::spec_parse_unsigned(t, 65535) is Some)
                                                && rate is Some && spec_closes(old(p).spec_tokens(), h) {
                                                r matches Ok((group, point)) && final(p).spec_cursor() == h + 1
                                                    && Some(spec_decimal_option(group.tax)) == spec_optional_decimal(tax)
                                                    && Some(spec_decimal_option(group.taxable)) == spec_optional_decimal(taxable)
                                                    && match event {
                                                        Some(t) => point matches Some(VatPoint::Event(n))
                                                            && crate::text::spec_parse_unsigned(t, 65535) == Some(n as nat),
                                                        None => point is None,
                                                    } && match category {
                                                        None => group.treatment is None,
                                                        Some(k) => group.treatment matches Some(t) && crate::vat::spec_treatment_is(t, k, rate->Some_0)
                                                            && (t matches VatTreatment::Exempt { code: cc, text: x } ==> crate::ubl_read::spec_texts(x) == text && match code {
                                                                Some(ct) => cc matches Some(reason) && crate::exemption_reason::spec_exemption_code(reason) == ct,
                                                                None => cc is None,
                                                            }),
                                                    }
                                            } else {
                                                r is Err
                                            }
                                        },
                                    },
                                },
                            },
                        },
                    },
                },
            },
        },
{
    proof {
        vstd::arithmetic::power::lemma_pow0(10);
    }
    p.enter_repeatable(Namespace::Ram, "ApplicableTradeTax", "vat_breakdown", instance)?;
    let tax = match p.optional_text(Namespace::Ram, "CalculatedAmount", "tax")? {
        Some(text) => Some(parse_decimal(text.as_str())?),
        None => None,
    };
    p.optional_derived(Namespace::Ram, "TypeCode")?;
    let text = match p.optional_text(Namespace::Ram, "ExemptionReason", "treatment")? {
        Some(text) => Some(NonEmptyString::parse(text.as_str())?),
        None => None,
    };
    let taxable = match p.optional_text(Namespace::Ram, "BasisAmount", "taxable")? {
        Some(text) => Some(parse_decimal(text.as_str())?),
        None => None,
    };
    let category = match p.optional_text(Namespace::Ram, "CategoryCode", "treatment")? {
        Some(text) => Some(VatCategory::parse(text.as_str())?),
        None => None,
    };
    let code = match p.optional_text(Namespace::Ram, "ExemptionReasonCode", "treatment")? {
        Some(text) => Some(ExemptionReason::parse(text.as_str())?),
        None => None,
    };
    let mut event = None;
    if p.is_open(Namespace::Ram, "DueDateTypeCode") {
        let (_, text) = p.derived(Namespace::Ram, "DueDateTypeCode")?;
        event = match crate::text::parse_unsigned(text.as_str(), 65535) {
            Some(code) => Some(VatPoint::Event(code as u16)),
            None => {
                return Err(Error::invalid_value(text.as_str()));
            },
        };
    }
    let rate = match p.optional_text(Namespace::Ram, "RateApplicablePercent", "treatment")? {
        Some(text) => parse_percentage(text.as_str())?,
        None => Percentage::try_from(Decimal::zero())?,
    };
    p.leave_group()?;
    let treatment = match category {
        Some(category) => Some(VatTreatment::from_parts(category, Some(rate), code, text)?),
        None => None,
    };
    Ok((VatBreakdown { taxable, tax, treatment }, event))
}

/// Reads one document-level allowance or charge (`BG-20`/`BG-21`).
#[verifier::spinoff_prover]
pub fn read_adjustment(p: &mut Parser<Namespace>, instance: usize) -> (r: Result<Adjustment, Error>)
    requires
        old(p).wf(),
    ensures
        final(p).follows(old(p)),
        r is Ok ==> final(p).advanced(old(p)),
        match spec_carrier_at(old(p).spec_tokens(), old(p).spec_cursor() + 1, Namespace::Ram, "ChargeIndicator"@, Namespace::Udt, "Indicator"@) {
            None => r is Err,
            Some((flag, a)) => match spec_optional_leaf_at(old(p).spec_tokens(), a, Namespace::Ram, "CalculationPercent"@) {
                None => r is Err,
                Some((factor, b)) => match spec_optional_leaf_at(old(p).spec_tokens(), b, Namespace::Ram, "BasisAmount"@) {
                    None => r is Err,
                    Some((base, c)) => match spec_optional_leaf_at(old(p).spec_tokens(), c, Namespace::Ram, "ActualAmount"@) {
                        None => r is Err,
                        Some((actual, d)) => match spec_optional_leaf_at(old(p).spec_tokens(), d, Namespace::Ram, "ReasonCode"@) {
                            None => r is Err,
                            Some((code, e)) => match spec_optional_leaf_at(old(p).spec_tokens(), e, Namespace::Ram, "Reason"@) {
                                None => r is Err,
                                Some((text, f)) => match spec_optional_leaf_at(old(p).spec_tokens(), f + 1, Namespace::Ram, "TypeCode"@) {
                                    None => r is Err,
                                    Some((_, g)) => match spec_leaf_at(old(p).spec_tokens(), g, Namespace::Ram, "CategoryCode"@) {
                                        None => r is Err,
                                        Some((category, h)) => match spec_leaf_at(old(p).spec_tokens(), h, Namespace::Ram, "RateApplicablePercent"@) {
                                            None => r is Err,
                                            Some((percent, k)) => if spec_opens(old(p).spec_tokens(), old(p).spec_cursor(), Namespace::Ram, "SpecifiedTradeAllowanceCharge"@)
                                    && spec_cii_amount(factor, base, actual) is Some && spec_filled_text(code)
                                    && spec_filled_text(text)
                                                && spec_opens(old(p).spec_tokens(), f, Namespace::Ram, "CategoryTradeTax"@)
                                                && crate::vat::spec_known_category(category)
                                                && crate::vat::spec_rate_text(percent) is Some && spec_closes(old(p).spec_tokens(), k)
                                                && spec_closes(old(p).spec_tokens(), k + 1) {
                                                r matches Ok(x) && spec_amount_view(x.amount) == spec_cii_amount(factor, base, actual)->Some_0
                                        && spec_reason_view(x.reason) == (crate::text::spec_trim(flag) == "true"@, code, text)
                                                    && crate::vat::spec_treatment_is(x.vat, category, crate::vat::spec_rate_text(percent)->Some_0)
                                                    && final(p).spec_cursor() == k + 2
                                            } else {
                                                r is Err
                                            },
                                        },
                                    },
                                },
                            },
                        },
                    },
                },
            },
        },
{
    p.enter_repeatable(Namespace::Ram, "SpecifiedTradeAllowanceCharge", "adjustments", instance)?;
    let charge = indicator(p)?;
    let amount = read_adjustment_amount(p)?;
    let reason = read_reason(p, charge)?;
    p.enter_nested(Namespace::Ram, "CategoryTradeTax")?;
    let vat = read_trade_tax(p)?;
    p.leave_wrapper()?;
    p.leave_group()?;
    Ok(Adjustment { amount, vat, reason })
}

/// The model field a monetary summation element is mapped to, when it is one of the amounts.
pub open spec fn spec_cii_summation_field(name: Seq<char>) -> Option<Seq<char>> {
    if name == "LineTotalAmount"@ {
        Some("line_net_total"@)
    } else if name == "ChargeTotalAmount"@ {
        Some("charges_total"@)
    } else if name == "AllowanceTotalAmount"@ {
        Some("allowances_total"@)
    } else if name == "TaxBasisTotalAmount"@ {
        Some("net_total"@)
    } else if name == "TaxTotalAmount"@ {
        Some("vat_total"@)
    } else if name == "RoundingAmount"@ {
        Some("rounding"@)
    } else if name == "GrandTotalAmount"@ {
        Some("gross_total"@)
    } else if name == "TotalPrepaidAmount"@ {
        Some("paid"@)
    } else if name == "DuePayableAmount"@ {
        Some("due"@)
    } else {
        None
    }
}

/// Reads one amount of the monetary summation into its field of the invoice; an element of
/// no known amount is read and dropped.
#[verifier::spinoff_prover]
pub fn read_summation_amount(p: &mut Parser<Namespace>, invoice: &mut Invoice, name: &str) -> (r: Result<(), Error>)
    requires
        old(p).wf(),
    ensures
        final(p).follows(old(p)),
        r is Ok ==> final(p).restored(old(p)),
        r is Ok ==> final(p).spec_cursor() > old(p).spec_cursor() || !crate::parser::spec_opens(
            old(p).spec_tokens(),
            old(p).spec_cursor(),
            Namespace::Ram,
            name@,
        ),
        ({
            let field = spec_cii_summation_field(name@);
            match spec_leaf_at(old(p).spec_tokens(), old(p).spec_cursor(), Namespace::Ram, name@) {
                None => r is Err,
                Some((text, next)) => match field {
                    None => r is Ok && *final(invoice) == *old(invoice) && final(p).spec_cursor() == next,
                    Some(f) => match crate::reading::spec_decimal_value(text) {
                        Some(v) => r is Ok && crate::reading::spec_with_total(*old(invoice), *final(invoice), f, v)
                            && final(p).spec_cursor() == next,
                        None => r is Err,
                    },
                },
            }
        }),
{
    let field: &'static str = if str_eq(name, "LineTotalAmount") {
        "line_net_total"
    } else if str_eq(name, "ChargeTotalAmount") {
        "charges_total"
    } else if str_eq(name, "AllowanceTotalAmount") {
        "allowances_total"
    } else if str_eq(name, "TaxBasisTotalAmount") {
        "net_total"
    } else if str_eq(name, "TaxTotalAmount") {
        "vat_total"
    } else if str_eq(name, "RoundingAmount") {
        "rounding"
    } else if str_eq(name, "GrandTotalAmount") {
        "gross_total"
    } else if str_eq(name, "TotalPrepaidAmount") {
        "paid"
    } else if str_eq(name, "DuePayableAmount") {
        "due"
    } else {
        p.derived(Namespace::Ram, name)?;
        return Ok(());
    };
    let text = p.leaf(Namespace::Ram, name, field)?;
    let value = Some(parse_decimal(text.as_str())?);
    if str_eq(field, "line_net_total") {
        invoice.line_net_total = value;
    } else if str_eq(field, "charges_total") {
        invoice.charges_total = value;
    } else if str_eq(field, "allowances_total") {
        invoice.allowances_total = value;
    } else if str_eq(field, "net_total") {
        invoice.net_total = value;
    } else if str_eq(field, "vat_total") {
        invoice.vat_total = value;
    } else if str_eq(field, "rounding") {
        invoice.rounding = value;
    } else if str_eq(field, "gross_total") {
        invoice.gross_total = value;
    } else if str_eq(field, "paid") {
        invoice.paid = value;
    } else {
        invoice.due = value;
    }
    Ok(())
}

/// Reads the header monetary summation, keeping every amount the document states.
#[verifier::spinoff_prover]
pub fn read_monetary_summation(p: &mut Parser<Namespace>, invoice: &mut Invoice) -> (r: Result<(), Error>)
    requires
        old(p).wf(),
    ensures
        final(p).follows(old(p)),
        r is Ok ==> final(p).restored(old(p)),
{
    p.enter_structural(Namespace::Ram, "SpecifiedTradeSettlementHeaderMonetarySummation")?;
    let ghost inside = *p;
    while p.is_open_namespace(Namespace::Ram)
        invariant
            p.restored(&inside),
            inside.wf(),
            inside.follows(old(p)),
        decreases p.spec_tokens().len() - p.spec_cursor(),
    {
        let (_, name) = p.head()?;
        read_summation_amount(p, invoice, name.as_str())?;
    }
    p.leave_wrapper()?;
    Ok(())
}

/// Reads one preceding invoice reference (`BG-3`), its issue date in a `qdt` carrier.
#[verifier::spinoff_prover]
pub fn read_preceding_invoice(p: &mut Parser<Namespace>, instance: usize) -> (r: Result<PrecedingInvoice, Error>)
    requires
        old(p).wf(),
    ensures
        final(p).follows(old(p)),
        r is Ok ==> final(p).advanced(old(p)),
        match spec_optional_leaf_at(old(p).spec_tokens(), old(p).spec_cursor() + 1, Namespace::Ram, "IssuerAssignedID"@) {
            None => r is Err,
            Some((number, after_number)) => match spec_optional_carrier_at(
                old(p).spec_tokens(),
                after_number,
                Namespace::Ram,
                "FormattedIssueDateTime"@,
                Namespace::Qdt,
                "DateTimeString"@,
            ) {
                None => r is Err,
                Some((issued, after_issued)) => if spec_opens(old(p).spec_tokens(), old(p).spec_cursor(), Namespace::Ram, "InvoiceReferencedDocument"@)
                    && spec_filled_text(number) && crate::reading::spec_read_optional_basic_date(issued) is Some
                    && spec_closes(old(p).spec_tokens(), after_issued) {
                    r matches Ok(x) && crate::ubl_read::spec_texts(x.number) == number && Some(crate::reading::spec_date_views(x.issue_date))
                        == crate::reading::spec_read_optional_basic_date(issued) && final(p).spec_cursor() == after_issued + 1
                } else {
                    r is Err
                },
            },
        },
{
    p.enter_repeatable(Namespace::Ram, "InvoiceReferencedDocument", "preceding_invoices", instance)?;
    let number = optional_issuer_assigned_id(p)?;
    let issue_date = if p.is_open(Namespace::Ram, "FormattedIssueDateTime") {
        p.enter_nested(Namespace::Ram, "FormattedIssueDateTime")?;
        p.take_open(Namespace::Qdt, "DateTimeString")?;
        let text = p.take_text();
        p.take_close()?;
        p.leave_wrapper()?;
        Some(parse_basic_date(text.as_str())?)
    } else {
        None
    };
    p.leave_group()?;
    Ok(PrecedingInvoice { number, issue_date })
}

} // verus!
