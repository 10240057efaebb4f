//! The UBL reading walk: the invoice read from the tokens of a UBL document, from the root
//! element down, with the dictionary of its nodes filled in the same pass.

use vstd::prelude::*;
use base64::Engine;
use crate::decimal::{Decimal, DecimalView};
use crate::document::DocumentBuilder;
use crate::error::Error;
use crate::exemption_reason::ExemptionReason;
use crate::format::{Format, Ubl};
use crate::invoice_type::InvoiceType;
use crate::model::{
    AccountingTotal, BinaryObject, Buyer, Classification, Contact, CreditTransfer, Delivery,
    Details, DirectDebit, ElectronicAddress, Invoice, InvoiceLine, Item, ItemAttribute,
    ItemReference, LegalEntity, LocationReference, ObjectReference, OperationalEntity, Payee,
    PaymentCard, PaymentInstructions, PostalAddress, PrecedingInvoice, Seller, SupportingDocument,
    TaxRepresentative, VatBreakdown, VatIdentifier, VatPoint,
};
use crate::parser::{spec_expected, spec_filled_text, spec_leaf_at, spec_opens, spec_optional_leaf_at, spec_closes, spec_open_attributes, spec_optional_wrapped_leaf_at,
    spec_optional_carrier_at, Parser,
};
use crate::pricing::{Adjustment, Amount, LineAdjustment, Price, Reason};
use crate::profile::Profile;
use crate::reading::{
    attribute, parse_country, parse_currency, parse_date, parse_decimal, parse_email, parse_note,
    parse_quantity, parse_url, period_from,
};
use crate::serializer::lemma_push_then_drop;
use crate::text::{owned, str_eq, trim};
use crate::ubl::Namespace;
use crate::values::{Date, NonEmptyString, Percentage};
use crate::vat::{VatCategory, VatTreatment};

verus! {

broadcast use lemma_push_then_drop;

/// A rate from its text: a decimal between zero and one hundred.
pub fn parse_percentage(text: &str) -> (r: Result<Percentage, Error>)
    ensures
        r matches Ok(p) ==> crate::decimal::spec_parse_decimal(crate::text::spec_trim(text@)) == Some((p@.mantissa, p@.scale)),
        r is Ok <==> (crate::decimal::spec_parse_decimal(crate::text::spec_trim(text@)) matches Some((m, s))
            && crate::values::spec_is_percentage(crate::decimal::DecimalView { mantissa: m, scale: s })),
        crate::decimal::spec_parse_decimal(crate::text::spec_trim(text@)) is None ==> (r matches Err(e)
            && e@ == crate::reading::spec_invalid("invalid decimal: "@, text@)),
{
    let value = parse_decimal(text)?;
    Percentage::try_from(value)
}

/// A non-empty text from an optional attribute.
fn optional_attribute(attributes: &Vec<(String, String)>, key: &str) -> (r: Result<Option<NonEmptyString>, Error>)
    ensures
        match crate::reading::spec_attribute(crate::token::spec_attributes(attributes@), key@) {
            None => r matches Ok(None),
            Some(v) => if v.len() > 0 {
                r matches Ok(Some(x)) && x@ == v
            } else {
                r matches Err(e) && e@ == crate::error::ErrorView::InvalidValue("empty text"@)
            },
        },
{
    match attribute(attributes, key) {
        Some(value) => Ok(Some(NonEmptyString::parse(value)?)),
        None => Ok(None),
    }
}

/// Reads the whole invoice from the parser, from the root element down, filling the
/// dictionary in the same pass.
///
/// A missing mandatory element or a malformed value fails the read.
#[verifier::spinoff_prover]
#[verifier::rlimit(100)]
pub fn deserialize(p: &mut Parser<Namespace>) -> (r: Result<DocumentBuilder, Error>)
    requires
        old(p).wf(),
    ensures
        final(p).follows(old(p)),
        r is Ok ==> final(p).restored(old(p)),
        !spec_opens(old(p).spec_tokens(), old(p).spec_cursor(), Ubl::spec_root_namespace(), Ubl::spec_root_element())
            ==> (r matches Err(e) && e@ == spec_expected(Ubl::spec_root_element())),
        spec_opens(old(p).spec_tokens(), old(p).spec_cursor(), Ubl::spec_root_namespace(), Ubl::spec_root_element())
            ==> match spec_leaf_at(old(p).spec_tokens(), old(p).spec_cursor() + 1, Namespace::Cbc, "CustomizationID"@) {
            None => r is Err,
            Some((t, next)) => {
                &&& (forall|v: Profile| crate::profile::spec_profile_id(v) != t) ==> (r matches Err(e) && e@
                    == crate::error::ErrorView::InvalidValue("parse failed."@))
                &&& r matches Ok(b) ==> crate::profile::spec_profile_id(b.profile) == t
                &&& match spec_ubl_head(old(p).spec_tokens(), next) {
                    None => r is Err,
                    Some((h, c)) => {
                        &&& r matches Ok(b) ==> h == spec_head_of(b)
                        &&& spec_ubl_codes(old(p).spec_tokens(), c) is None ==> r is Err
                        &&& r matches Ok(b) ==> spec_ubl_codes(old(p).spec_tokens(), c) == Some(spec_codes_of(b.invoice))
                        &&& spec_ubl_codes_at(old(p).spec_tokens(), c) matches Some((_, d)) ==> {
                            &&& spec_ubl_reference_heads(old(p).spec_tokens(), d) is None ==> r is Err
                            &&& r matches Ok(b) ==> spec_ubl_reference_heads(old(p).spec_tokens(), d) == Some(spec_refs_of(b.invoice))
                            &&& spec_ubl_reference_heads_at(old(p).spec_tokens(), d) matches Some((_, e)) ==> {
                                &&& spec_ubl_documents_tail(old(p).spec_tokens(), e) is None ==> r is Err
                                &&& r matches Ok(b) ==> (spec_ubl_documents_tail(old(p).spec_tokens(), e) matches Some((w, _)) && w
                                    == spec_documents_of(b.invoice))
                                &&& spec_ubl_documents_tail(old(p).spec_tokens(), e) matches Some((_, f)) ==> {
                                    &&& spec_ubl_parties_head(old(p).spec_tokens(), f) is None ==> r is Err
                                    &&& r matches Ok(b) ==> (spec_ubl_parties_head(old(p).spec_tokens(), f) matches Some((sv, bv, _))
                                        && sv == spec_seller_opt(b.invoice.seller) && bv == spec_buyer_opt(b.invoice.buyer))
                                    &&& spec_ubl_parties_head(old(p).spec_tokens(), f) matches Some((_, _, g)) ==> {
                                        &&& spec_ubl_other_parties(old(p).spec_tokens(), g) is None ==> r is Err
                                        &&& r matches Ok(b) ==> (spec_ubl_other_parties(old(p).spec_tokens(), g) matches Some((pv, rv, _))
                                            && pv == spec_payee_opt(b.invoice.payee) && rv == spec_representative_opt(b.invoice.tax_representative))
                                        &&& spec_ubl_other_parties(old(p).spec_tokens(), g) matches Some((_, _, h)) ==> {
                                            &&& spec_ubl_settlement_heads(old(p).spec_tokens(), h) is None ==> r is Err
                                            &&& r matches Ok(b) ==> (spec_ubl_settlement_heads(old(p).spec_tokens(), h) matches Some((dv, mv, tv, _))
                                                && dv == spec_delivery_opt(b.invoice.delivery) && mv == spec_payment_opt(b.invoice.payment)
                                                && tv == spec_texts(b.invoice.payment_terms))
                                        }
                                    }
                                }
                            }
                        }
                    },
                }
            },
        },
{
    p.enter_structural(Ubl::root_namespace(), Ubl::root_element())?;
    let ghost inside = *p;
    let identifier = p.rooted(Namespace::Cbc, "CustomizationID")?;
    let ghost after_id = p.spec_cursor();
    let profile = Profile::parse(identifier.as_str())?;
    assert(crate::profile::spec_profile_id(profile) == identifier@);
    let business_process = if p.is_open(Namespace::Cbc, "ProfileID") {
        Some(p.rooted(Namespace::Cbc, "ProfileID")?)
    } else {
        None
    };
    let number = p.optional_leaf(Namespace::Cbc, "ID", "number")?;
    let issue_date = optional_date(p, "IssueDate", "issue_date")?;
    let payment_due_date = optional_date(p, "DueDate", "payment_due_date")?;
    let code = p.leaf(Namespace::Cbc, "InvoiceTypeCode", "type_code")?;
    let type_code = InvoiceType::parse(code.as_str())?;
    let notes = read_notes(p)?;
    let ghost head = HeadView {
        business_process: spec_string_of(business_process),
        number: spec_texts(number),
        issue_date: spec_date_of(issue_date),
        payment_due_date: spec_date_of(payment_due_date),
        type_code,
        notes: notes@.map_values(|n: crate::model::Note| spec_note_view(n)),
    };
    let ghost after_notes = p.spec_cursor();
    assert(spec_ubl_head(old(p).spec_tokens(), after_id) == Some((head, after_notes)));
    let mut invoice = Invoice::new(InvoiceType::CommercialInvoice);
    if p.is_open(Namespace::Cbc, "TaxPointDate") {
        let text = p.leaf(Namespace::Cbc, "TaxPointDate", "vat_point")?;
        invoice.vat_point = Some(VatPoint::Date(parse_date(text.as_str())?));
    }
    let currency = match p.optional_text(Namespace::Cbc, "DocumentCurrencyCode", "currency")? {
        Some(code) => Some(parse_currency(code.as_str())?),
        None => None,
    };
    let accounting_currency = if p.is_open(Namespace::Cbc, "TaxCurrencyCode") {
        let code = p.leaf(Namespace::Cbc, "TaxCurrencyCode", "vat_accounting_total")?;
        Some(parse_currency(code.as_str())?)
    } else {
        None
    };
    let buyer_accounting_reference = p.optional_leaf(Namespace::Cbc, "AccountingCost", "buyer_accounting_reference")?;
    let buyer_reference = p.optional_leaf(Namespace::Cbc, "BuyerReference", "buyer_reference")?;
    let ghost after_codes = p.spec_cursor();
    assert(spec_ubl_codes(old(p).spec_tokens(), after_notes) == Some(
        (
            match currency {
                Some(c) => Some(c@),
                None => None,
            },
            spec_texts(buyer_accounting_reference),
            spec_texts(buyer_reference),
        ),
    ));
    assert(spec_ubl_codes_at(old(p).spec_tokens(), after_notes) matches Some((_, d)) && d == after_codes);
    read_references(p, &mut invoice)?;
    let ghost refs = spec_refs_of(invoice);
    let ghost documents = spec_documents_of(invoice);
    assert(spec_ubl_reference_heads(old(p).spec_tokens(), after_codes) == Some(refs));
    read_parties(p, &mut invoice)?;
    let exemptions = read_totals(p, &mut invoice, accounting_currency)?;
    let ghost before_lines = *p;
    let mut lines: Vec<InvoiceLine> = Vec::new();
    while p.is_open(Namespace::Cac, "InvoiceLine")
        invariant
            p.restored(&before_lines),
            before_lines.wf(),
            before_lines.follows(old(p)),
            spec_opens(old(p).spec_tokens(), old(p).spec_cursor(), Ubl::spec_root_namespace(), Ubl::spec_root_element()),
            lines@.len() <= p.spec_cursor() - before_lines.spec_cursor(),
            crate::profile::spec_profile_id(profile) == identifier@,
            spec_leaf_at(old(p).spec_tokens(), old(p).spec_cursor() + 1, Namespace::Cbc, "CustomizationID"@) matches Some((t, _)) && t == identifier@,
        decreases p.spec_tokens().len() - p.spec_cursor(),
    {
        let line = read_line(p, lines.len() + 1, &exemptions)?;
        lines.push(line);
    }
    invoice.lines = lines;
    let adjustments = apply_exemption(invoice.adjustments, &exemptions);
    invoice.adjustments = adjustments;
    p.leave_wrapper()?;
    invoice.number = number;
    invoice.issue_date = issue_date;
    invoice.payment_due_date = payment_due_date;
    invoice.type_code = type_code;
    invoice.notes = notes;
    invoice.currency = currency;
    invoice.buyer_accounting_reference = buyer_accounting_reference;
    invoice.buyer_reference = buyer_reference;
    Ok(DocumentBuilder { invoice, profile, business_process })
}

/// The invoice currency, the buyer accounting reference and the buyer reference of an invoice.
pub open spec fn spec_codes_of(invoice: Invoice) -> (Option<Seq<char>>, Option<Seq<char>>, Option<Seq<char>>) {
    (
        match invoice.currency {
            Some(c) => Some(c@),
            None => None,
        },
        spec_texts(invoice.buyer_accounting_reference),
        spec_texts(invoice.buyer_reference),
    )
}

/// A currency code leaf of the basic components at `cursor`, when it is there: the code it
/// states, surrounding white space aside, and the position after it; `None` when it is there and
/// malformed or no currency.
pub open spec fn spec_currency_at(
    tokens: Seq<crate::token::TokenView<Namespace>>,
    cursor: int,
    name: Seq<char>,
) -> Option<(Option<Seq<char>>, int)> {
    match spec_optional_leaf_at(tokens, cursor, Namespace::Cbc, name) {
        None => None,
        Some((None, c)) => Some((None, c)),
        Some((Some(t), c)) => if crate::values::spec_is_currency_code(crate::text::spec_trim(t)) {
            Some((Some(crate::text::spec_trim(t)), c))
        } else {
            None
        },
    }
}

/// What a UBL document states after its notes, from `cursor`: the optional tax point date, the
/// optional invoice currency, the optional VAT accounting currency, the optional buyer
/// accounting reference and the optional buyer reference; the invoice currency and the two
/// references, or `None` when one of them is malformed.
pub open spec fn spec_ubl_codes(tokens: Seq<crate::token::TokenView<Namespace>>, cursor: int) -> Option<
    (Option<Seq<char>>, Option<Seq<char>>, Option<Seq<char>>),
> {
    match spec_ubl_codes_at(tokens, cursor) {
        Some((codes, _)) => Some(codes),
        None => None,
    }
}

/// The codes `spec_ubl_codes` reads from `cursor`, with the position after them.
pub open spec fn spec_ubl_codes_at(tokens: Seq<crate::token::TokenView<Namespace>>, cursor: int) -> Option<
    ((Option<Seq<char>>, Option<Seq<char>>, Option<Seq<char>>), int),
> {
    match spec_optional_date_at(tokens, cursor, "TaxPointDate"@) {
        None => None,
        Some((_, c1)) => match spec_currency_at(tokens, c1, "DocumentCurrencyCode"@) {
            None => None,
            Some((currency, c2)) => match spec_currency_at(tokens, c2, "TaxCurrencyCode"@) {
                None => None,
                Some((_, c3)) => match spec_optional_leaf_at(tokens, c3, Namespace::Cbc, "AccountingCost"@) {
                    None => None,
                    Some((accounting, c4)) => match spec_optional_leaf_at(tokens, c4, Namespace::Cbc, "BuyerReference"@) {
                        None => None,
                        Some((reference, c5)) => if spec_filled_text(accounting) && spec_filled_text(reference) {
                            Some(((currency, accounting, reference), c5))
                        } else {
                            None
                        },
                    },
                },
            },
        },
    }
}

/// What the head of a document states: the business process, the number, the issue and due
/// dates, the type code and the notes, each as its subject code and text.
pub struct HeadView {
    pub business_process: Option<Seq<char>>,
    pub number: Option<Seq<char>>,
    pub issue_date: Option<crate::values::DateView>,
    pub payment_due_date: Option<crate::values::DateView>,
    pub type_code: InvoiceType,
    pub notes: Seq<(Option<Seq<char>>, Seq<char>)>,
}

/// The view of an optional string.
pub open spec fn spec_string_of(text: Option<String>) -> Option<Seq<char>> {
    match text {
        Some(t) => Some(t@),
        None => None,
    }
}

/// The view of an optional date.
pub open spec fn spec_date_of(date: Option<Date>) -> Option<crate::values::DateView> {
    match date {
        Some(d) => Some(d@),
        None => None,
    }
}

/// The head of the invoice a builder holds.
pub open spec fn spec_head_of(b: DocumentBuilder) -> HeadView {
    HeadView {
        business_process: spec_string_of(b.business_process),
        number: spec_texts(b.invoice.number),
        issue_date: spec_date_of(b.invoice.issue_date),
        payment_due_date: spec_date_of(b.invoice.payment_due_date),
        type_code: b.invoice.type_code,
        notes: b.invoice.notes@.map_values(|n: crate::model::Note| spec_note_view(n)),
    }
}

/// An optional date leaf of the basic components at `cursor`: the date it states, and the
/// position after it; `None` when it is there and malformed or not a date.
pub open spec fn spec_optional_date_at(
    tokens: Seq<crate::token::TokenView<Namespace>>,
    cursor: int,
    name: Seq<char>,
) -> Option<(Option<crate::values::DateView>, int)> {
    match spec_optional_leaf_at(tokens, cursor, Namespace::Cbc, name) {
        None => None,
        Some((None, c)) => Some((None, c)),
        Some((Some(t), c)) => match crate::reading::spec_parse_date(t) {
            Some((y, m, d)) => Some((Some(crate::values::DateView { year: y, month: m, day: d }), c)),
            None => None,
        },
    }
}

/// The head a UBL document states from `cursor`, just after its customization identifier:
/// the optional business process, the optional non-empty number, the optional issue and due
/// dates, the type code and the notes, with the position after them; `None` when one of them
/// is malformed.
pub open spec fn spec_ubl_head(tokens: Seq<crate::token::TokenView<Namespace>>, cursor: int) -> Option<(HeadView, int)> {
    let process = if spec_opens(tokens, cursor, Namespace::Cbc, "ProfileID"@) {
        match spec_leaf_at(tokens, cursor, Namespace::Cbc, "ProfileID"@) {
            Some((t, c)) => Some((Some(t), c)),
            None => None,
        }
    } else {
        Some((None, cursor))
    };
    match process {
        None => None,
        Some((business_process, c1)) => match spec_optional_leaf_at(tokens, c1, Namespace::Cbc, "ID"@) {
            None => None,
            Some((number, c2)) => if !spec_filled_text(number) {
                None
            } else {
                match spec_optional_date_at(tokens, c2, "IssueDate"@) {
                    None => None,
                    Some((issue_date, c3)) => match spec_optional_date_at(tokens, c3, "DueDate"@) {
                        None => None,
                        Some((payment_due_date, c4)) => match spec_leaf_at(tokens, c4, Namespace::Cbc, "InvoiceTypeCode"@) {
                            None => None,
                            Some((code, c5)) => match crate::invoice_type::spec_parse(code) {
                                Err(_) => None,
                                Ok(type_code) => match spec_ubl_notes(tokens, c5) {
                                    None => None,
                                    Some((notes, end)) => Some(
                                        (HeadView { business_process, number, issue_date, payment_due_date, type_code, notes }, end),
                                    ),
                                },
                            },
                        },
                    },
                }
            },
        },
    }
}

/// Reads an optional date leaf of the basic components, mapped to a model field.
pub fn optional_date(p: &mut Parser<Namespace>, name: &str, field: &'static str) -> (r: Result<Option<Date>, Error>)
    requires
        old(p).wf(),
    ensures
        final(p).follows(old(p)),
        r is Ok ==> final(p).restored(old(p)),
        match spec_optional_leaf_at(old(p).spec_tokens(), old(p).spec_cursor(), Namespace::Cbc, name@) {
            None => r is Err,
            Some((None, _)) => r matches Ok(None) && *final(p) == *old(p),
            Some((Some(t), next)) => match crate::reading::spec_parse_date(t) {
                Some((y, m, d)) => r matches Ok(Some(x)) && x@ == (crate::values::DateView { year: y, month: m, day: d })
                    && final(p).spec_cursor() == next,
                None => r is Err,
            },
        },
{
    if p.is_open(Namespace::Cbc, name) {
        let text = p.leaf(Namespace::Cbc, name, field)?;
        Ok(Some(parse_date(text.as_str())?))
    } else {
        Ok(None)
    }
}

/// Whether a note text reads as a note: a non-empty text, after a non-empty subject code
/// when it states one.
pub open spec fn spec_note_valid(t: Seq<char>) -> bool {
    match crate::reading::spec_note_parts(t) {
        (Some(code), text) => code.len() > 0 && text.len() > 0,
        (None, text) => text.len() > 0,
    }
}

/// The subject code and the text of a note.
pub open spec fn spec_note_view(note: crate::model::Note) -> (Option<Seq<char>>, Seq<char>) {
    (spec_texts(note.subject_code), note.text@)
}

/// The notes from `cursor` on, each the subject code and text its `Note` element states, and the
/// position after the last; `None` when one is malformed.
pub open spec fn spec_ubl_notes(tokens: Seq<crate::token::TokenView<Namespace>>, cursor: int) -> Option<(Seq<(Option<Seq<char>>, Seq<char>)>, int)>
    decreases tokens.len() - cursor,
{
    if cursor < 0 || cursor >= tokens.len() || !spec_opens(tokens, cursor, Namespace::Cbc, "Note"@) {
        Some((Seq::empty(), cursor))
    } else {
        match spec_leaf_at(tokens, cursor, Namespace::Cbc, "Note"@) {
            Some((t, next)) => if spec_note_valid(t) && next > cursor {
                match spec_ubl_notes(tokens, next) {
                    Some((rest, end)) => Some((seq![crate::reading::spec_note_parts(t)] + rest, end)),
                    None => None,
                }
            } else {
                None
            },
            None => None,
        }
    }
}

/// Reads the notes (`BG-1`).
pub fn read_notes(p: &mut Parser<Namespace>) -> (r: Result<Vec<crate::model::Note>, Error>)
    requires
        old(p).wf(),
    ensures
        final(p).follows(old(p)),
        r is Ok ==> final(p).restored(old(p)),
        match spec_ubl_notes(old(p).spec_tokens(), old(p).spec_cursor()) {
            Some((notes, end)) => r matches Ok(v) && v@.map_values(|n: crate::model::Note| spec_note_view(n)) == notes
                && final(p).spec_cursor() == end,
            None => r is Err,
        },
{
    let mut notes: Vec<crate::model::Note> = Vec::new();
    proof {
        assert(notes@.map_values(|n: crate::model::Note| spec_note_view(n)) =~= Seq::empty());
        assert(Seq::<(Option<Seq<char>>, Seq<char>)>::empty() + Seq::empty() =~= Seq::<(Option<Seq<char>>, Seq<char>)>::empty());
    }
    while p.is_open(Namespace::Cbc, "Note")
        invariant
            p.restored(old(p)),
            old(p).wf(),
            notes@.len() <= p.spec_cursor() - old(p).spec_cursor(),
            spec_ubl_notes(old(p).spec_tokens(), old(p).spec_cursor()) == match spec_ubl_notes(p.spec_tokens(), p.spec_cursor()) {
                Some((rest, end)) => Some((notes@.map_values(|n: crate::model::Note| spec_note_view(n)) + rest, end)),
                None => None,
            },
        decreases p.spec_tokens().len() - p.spec_cursor(),
    {
        let ghost before = notes@.map_values(|n: crate::model::Note| spec_note_view(n));
        let text = p.repeatable_leaf(Namespace::Cbc, "Note", "notes", notes.len() + 1)?;
        notes.push(parse_note(text.as_str())?);
        proof {
            let added = notes@.map_values(|n: crate::model::Note| spec_note_view(n));
            assert(added =~= before.push(added.last()));
            if let Some((rest, end)) = spec_ubl_notes(p.spec_tokens(), p.spec_cursor()) {
                assert(before + (seq![added.last()] + rest) =~= added + rest);
            }
        }
    }
    proof {
        assert(notes@.map_values(|n: crate::model::Note| spec_note_view(n)) + Seq::empty() =~= notes@.map_values(
            |n: crate::model::Note| spec_note_view(n),
        ));
    }
    Ok(notes)
}

/// Reads the periods, the references and the additional documents of the invoice. Each of
/// these fields is set, to `None` or empty where the document leaves it out.
#[verifier::spinoff_prover]
#[verifier::rlimit(100)]
pub fn read_references(p: &mut Parser<Namespace>, invoice: &mut Invoice) -> (r: Result<(), Error>)
    requires
        old(p).wf(),
    ensures
        final(p).follows(old(p)),
        r is Ok ==> final(p).restored(old(p)),
        match spec_ubl_reference_heads_at(old(p).spec_tokens(), old(p).spec_cursor()) {
            None => r is Err,
            Some((v, d)) => {
                &&& r is Ok ==> spec_refs_of(*final(invoice)) == v
                &&& match spec_ubl_documents_tail(old(p).spec_tokens(), d) {
                    None => r is Err,
                    Some((w, end)) => r is Ok && spec_documents_of(*final(invoice)) == w && final(p).spec_cursor() == end,
                }
            },
        },
{
    let ghost start = p.spec_cursor();
    invoice.object = None;
    invoice.invoicing_period = None;
    invoice.purchase_order_reference = None;
    invoice.sales_order_reference = None;
    if p.is_open(Namespace::Cac, "InvoicePeriod") {
        p.enter_group(Namespace::Cac, "InvoicePeriod", "invoicing_period")?;
        let start = optional_date(p, "StartDate", "invoicing_period")?;
        let end = optional_date(p, "EndDate", "invoicing_period")?;
        let event = if p.is_open(Namespace::Cbc, "DescriptionCode") {
            let text = p.leaf(Namespace::Cbc, "DescriptionCode", "vat_point")?;
            match crate::text::parse_unsigned(text.as_str(), 65535) {
                Some(code) => Some(VatPoint::Event(code as u16)),
                None => {
                    return Err(Error::invalid_value(text.as_str()));
                },
            }
        } else {
            None
        };
        p.leave_group()?;
        invoice.invoicing_period = period_from(start, end);
        if event.is_some() {
            invoice.vat_point = event;
        }
    }
    let ghost after_period = p.spec_cursor();
    assert(spec_ubl_period_at(old(p).spec_tokens(), start) == Some((spec_period_of(invoice.invoicing_period), after_period)));
    if p.is_open(Namespace::Cac, "OrderReference") {
        p.enter_structural(Namespace::Cac, "OrderReference")?;
        invoice.purchase_order_reference = p.optional_leaf(Namespace::Cbc, "ID", "purchase_order_reference")?;
        invoice.sales_order_reference = p.optional_leaf(Namespace::Cbc, "SalesOrderID", "sales_order_reference")?;
        p.leave_wrapper()?;
    }
    let ghost before_billing = *p;
    assert(spec_ubl_orders_at(old(p).spec_tokens(), after_period) == Some(
        ((spec_texts(invoice.purchase_order_reference), spec_texts(invoice.sales_order_reference)), before_billing.spec_cursor()),
    ));
    let mut preceding: Vec<PrecedingInvoice> = Vec::new();
    proof {
        assert(preceding@.map_values(|x: PrecedingInvoice| spec_preceding_view(x)) =~= Seq::empty());
        assert(Seq::<(Option<Seq<char>>, Option<(int, int, int)>)>::empty() + Seq::empty() =~= Seq::<(Option<Seq<char>>, Option<(int, int, int)>)>::empty());
    }
    while p.is_open(Namespace::Cac, "BillingReference")
        invariant
            p.restored(&before_billing),
            before_billing.wf(),
            before_billing.follows(old(p)),
            preceding@.len() <= p.spec_cursor() - before_billing.spec_cursor(),
            spec_ubl_billing(before_billing.spec_tokens(), before_billing.spec_cursor()) is None ==> spec_ubl_reference_heads(
                old(p).spec_tokens(),
                old(p).spec_cursor(),
            ) is None,
            spec_ubl_billing(before_billing.spec_tokens(), before_billing.spec_cursor()) == match spec_ubl_billing(p.spec_tokens(), p.spec_cursor()) {
                Some((rest, end)) => Some((preceding@.map_values(|x: PrecedingInvoice| spec_preceding_view(x)) + rest, end)),
                None => None,
            },
        decreases p.spec_tokens().len() - p.spec_cursor(),
    {
        let ghost before = preceding@.map_values(|x: PrecedingInvoice| spec_preceding_view(x));
        let ghost at = p.spec_cursor();
        let read = read_billing_reference(p, preceding.len() + 1);
        let reference = match read {
            Ok(x) => x,
            Err(e) => {
                assert(spec_ubl_billing(p.spec_tokens(), at) is None);
                return Err(e);
            },
        };
        preceding.push(reference);
        proof {
            let added = preceding@.map_values(|x: PrecedingInvoice| spec_preceding_view(x));
            assert(added =~= before.push(added.last()));
            if let Some((rest, end)) = spec_ubl_billing(p.spec_tokens(), p.spec_cursor()) {
                assert(before + (seq![added.last()] + rest) =~= added + rest);
            }
        }
    }
    proof {
        assert(preceding@.map_values(|x: PrecedingInvoice| spec_preceding_view(x)) + Seq::empty() =~= preceding@.map_values(
            |x: PrecedingInvoice| spec_preceding_view(x),
        ));
    }
    invoice.preceding_invoices = preceding;
    let ghost after_billing = p.spec_cursor();
    invoice.despatch_advice_reference = optional_reference(p, "DespatchDocumentReference", "despatch_advice_reference")?;
    invoice.receiving_advice_reference = optional_reference(p, "ReceiptDocumentReference", "receiving_advice_reference")?;
    invoice.tender_or_lot_reference = optional_reference(p, "OriginatorDocumentReference", "tender_or_lot_reference")?;
    invoice.contract_reference = optional_reference(p, "ContractDocumentReference", "contract_reference")?;
    assert(spec_ubl_reference_heads(old(p).spec_tokens(), old(p).spec_cursor()) == Some(spec_refs_of(*invoice)));
    let ghost refs = spec_refs_of(*invoice);
    let ghost after_heads = p.spec_cursor();
    assert(spec_ubl_reference_heads_at(old(p).spec_tokens(), old(p).spec_cursor()) == Some((refs, after_heads)));
    let ghost before_documents = *p;
    let mut documents: Vec<SupportingDocument> = Vec::new();
    while p.is_open(Namespace::Cac, "AdditionalDocumentReference")
        invariant
            p.restored(&before_documents),
            before_documents.wf(),
            before_documents.follows(old(p)),
            documents@.len() <= p.spec_cursor() - before_documents.spec_cursor(),
            spec_refs_of(*invoice) == refs,
            spec_ubl_reference_heads_at(old(p).spec_tokens(), old(p).spec_cursor()) == Some((refs, after_heads)),
            before_documents.spec_cursor() == after_heads,
            before_documents.spec_tokens() == old(p).spec_tokens(),
            spec_ubl_documents(before_documents.spec_tokens(), before_documents.spec_cursor()) == match spec_ubl_documents(
                p.spec_tokens(),
                p.spec_cursor(),
            ) {
                Some((object, rest, end)) => Some((
                    if object is Some { object } else { spec_object_view(invoice.object) },
                    documents@.map_values(|d: SupportingDocument| spec_supporting_view(d)) + rest,
                    end,
                )),
                None => None,
            },
        decreases p.spec_tokens().len() - p.spec_cursor(),
    {
        let ghost before = documents@.map_values(|d: SupportingDocument| spec_supporting_view(d));
        let ghost at = p.spec_cursor();
        let ghost object_before = spec_object_view(invoice.object);
        let read = read_additional_document(p, documents.len() + 1);
        let document = match read {
            Ok(x) => x,
            Err(e) => {
                assert(spec_ubl_documents(p.spec_tokens(), at) is None);
                return Err(e);
            },
        };
        match document {
            AdditionalDocument::Object(object) => {
                invoice.object = Some(object);
            },
            AdditionalDocument::Supporting(document) => {
                documents.push(document);
                proof {
                    let added = documents@.map_values(|d: SupportingDocument| spec_supporting_view(d));
                    assert(added =~= before.push(added.last()));
                    if let Some((object, rest, end)) = spec_ubl_documents(p.spec_tokens(), p.spec_cursor()) {
                        assert(before + (seq![added.last()] + rest) =~= added + rest);
                    }
                }
            },
        }
    }
    proof {
        assert(documents@.map_values(|d: SupportingDocument| spec_supporting_view(d)) + Seq::empty() =~= documents@.map_values(
            |d: SupportingDocument| spec_supporting_view(d),
        ));
    }
    invoice.supporting_documents = documents;
    invoice.project_reference = optional_reference(p, "ProjectReference", "project_reference")?;
    Ok(())
}

/// Reads one preceding invoice reference (`BG-3`).
pub fn read_billing_reference(p: &mut Parser<Namespace>, instance: usize) -> (r: Result<PrecedingInvoice, Error>)
    requires
        old(p).wf(),
    ensures
        final(p).follows(old(p)),
        r is Ok ==> final(p).advanced(old(p)),
        match spec_optional_leaf_at(old(p).spec_tokens(), old(p).spec_cursor() + 2, Namespace::Cbc, "ID"@) {
            None => r is Err,
            Some((number, after_number)) => match spec_optional_leaf_at(old(p).spec_tokens(), after_number, Namespace::Cbc, "IssueDate"@) {
                None => r is Err,
                Some((issued, after_issued)) => if spec_opens(old(p).spec_tokens(), old(p).spec_cursor(), Namespace::Cac, "BillingReference"@)
                    && spec_opens(old(p).spec_tokens(), old(p).spec_cursor() + 1, Namespace::Cac, "InvoiceDocumentReference"@) && spec_filled_text(number)
                    && crate::reading::spec_read_optional_date(issued) is Some && spec_closes(old(p).spec_tokens(), after_issued)
                    && spec_closes(old(p).spec_tokens(), after_issued + 1) {
                    r matches Ok(x) && crate::ubl_read::spec_texts(x.number) == number && Some(crate::reading::spec_date_views(x.issue_date))
                        == crate::reading::spec_read_optional_date(issued) && final(p).spec_cursor() == after_issued + 2
                } else {
                    r is Err
                },
            },
        },
{
    p.enter_repeatable(Namespace::Cac, "BillingReference", "preceding_invoices", instance)?;
    p.enter_structural(Namespace::Cac, "InvoiceDocumentReference")?;
    let number = p.optional_leaf(Namespace::Cbc, "ID", "number")?;
    let issue_date = optional_date(p, "IssueDate", "issue_date")?;
    p.leave_wrapper()?;
    p.leave_group()?;
    Ok(PrecedingInvoice { number, issue_date })
}

/// Reads a single-identifier reference group when present.
pub fn optional_reference(p: &mut Parser<Namespace>, element: &str, field: &'static str) -> (r: Result<Option<NonEmptyString>, Error>)
    requires
        old(p).wf(),
    ensures
        final(p).follows(old(p)),
        r is Ok ==> final(p).restored(old(p)),
        !spec_opens(old(p).spec_tokens(), old(p).spec_cursor(), Namespace::Cac, element@) ==> (r matches Ok(None) && *final(p) == *old(p)),
        spec_opens(old(p).spec_tokens(), old(p).spec_cursor(), Namespace::Cac, element@) ==> match spec_optional_leaf_at(old(p).spec_tokens(), old(p).spec_cursor() + 1, Namespace::Cbc, "ID"@) {
            None => r is Err,
            Some((id, next)) => if spec_closes(old(p).spec_tokens(), next) && spec_filled_text(id) && id is Some {
                r matches Ok(x) && crate::ubl_read::spec_texts(x) == id && final(p).spec_cursor() == next + 1
            } else {
                r is Err
            },
        },
{
    if !p.is_open(Namespace::Cac, element) {
        return Ok(None);
    }
    p.enter_group(Namespace::Cac, element, field)?;
    let text = p.leaf(Namespace::Cbc, "ID", field)?;
    let id = NonEmptyString::parse(text.as_str())?;
    p.leave_group()?;
    Ok(Some(id))
}

/// What an additional document reference holds: the invoiced object or a supporting document.
pub enum AdditionalDocument {
    Object(ObjectReference),
    Supporting(SupportingDocument),
}

/// The references of an invoice that stand before its additional documents: the invoicing
/// period, the order references, the preceding invoices and the despatch, receiving, tender
/// and contract references.
pub struct RefsView {
    pub invoicing_period: Option<(Option<crate::values::DateView>, Option<crate::values::DateView>)>,
    pub purchase_order_reference: Option<Seq<char>>,
    pub sales_order_reference: Option<Seq<char>>,
    pub preceding_invoices: Seq<(Option<Seq<char>>, Option<(int, int, int)>)>,
    pub despatch_advice_reference: Option<Seq<char>>,
    pub receiving_advice_reference: Option<Seq<char>>,
    pub tender_or_lot_reference: Option<Seq<char>>,
    pub contract_reference: Option<Seq<char>>,
}

/// The number and issue date of a preceding invoice.
pub open spec fn spec_preceding_view(x: PrecedingInvoice) -> (Option<Seq<char>>, Option<(int, int, int)>) {
    (spec_texts(x.number), crate::reading::spec_date_views(x.issue_date))
}

/// The start and end of an optional period.
pub open spec fn spec_period_of(p: Option<crate::model::Period>) -> Option<(Option<crate::values::DateView>, Option<crate::values::DateView>)> {
    match p {
        Some(x) => Some((spec_date_of(x.start), spec_date_of(x.end))),
        None => None,
    }
}

/// The references an invoice states before its additional documents.
pub open spec fn spec_refs_of(i: Invoice) -> RefsView {
    RefsView {
        invoicing_period: spec_period_of(i.invoicing_period),
        purchase_order_reference: spec_texts(i.purchase_order_reference),
        sales_order_reference: spec_texts(i.sales_order_reference),
        preceding_invoices: i.preceding_invoices@.map_values(|x: PrecedingInvoice| spec_preceding_view(x)),
        despatch_advice_reference: spec_texts(i.despatch_advice_reference),
        receiving_advice_reference: spec_texts(i.receiving_advice_reference),
        tender_or_lot_reference: spec_texts(i.tender_or_lot_reference),
        contract_reference: spec_texts(i.contract_reference),
    }
}

/// The optional invoicing period at `cursor`: its start and end (`None` when it states neither),
/// after which an optional VAT point code that must be a number up to 65535, and the position
/// after it; `None` when it is malformed.
pub open spec fn spec_ubl_period_at(
    tokens: Seq<crate::token::TokenView<Namespace>>,
    cursor: int,
) -> Option<(Option<(Option<crate::values::DateView>, Option<crate::values::DateView>)>, int)> {
    if !spec_opens(tokens, cursor, Namespace::Cac, "InvoicePeriod"@) {
        Some((None, cursor))
    } else {
        match spec_optional_date_at(tokens, cursor + 1, "StartDate"@) {
            None => None,
            Some((start, a)) => match spec_optional_date_at(tokens, a, "EndDate"@) {
                None => None,
                Some((end, b)) => {
                    let c = if spec_opens(tokens, b, Namespace::Cbc, "DescriptionCode"@) {
                        match spec_leaf_at(tokens, b, Namespace::Cbc, "DescriptionCode"@) {
                            Some((t, c)) => if crate::text::spec_parse_unsigned(t, 65535) is Some {
                                Some(c)
                            } else {
                                None
                            },
                            None => None,
                        }
                    } else {
                        Some(b)
                    };
                    match c {
                        Some(c) => if spec_closes(tokens, c) {
                            Some((if start is None && end is None { None } else { Some((start, end)) }, c + 1))
                        } else {
                            None
                        },
                        None => None,
                    }
                },
            },
        }
    }
}

/// The optional order reference at `cursor`: the purchase and sales order identifiers, and the
/// position after it; `None` when it is malformed.
pub open spec fn spec_ubl_orders_at(
    tokens: Seq<crate::token::TokenView<Namespace>>,
    cursor: int,
) -> Option<((Option<Seq<char>>, Option<Seq<char>>), int)> {
    if !spec_opens(tokens, cursor, Namespace::Cac, "OrderReference"@) {
        Some(((None, None), cursor))
    } else {
        match spec_optional_leaf_at(tokens, cursor + 1, Namespace::Cbc, "ID"@) {
            None => None,
            Some((purchase, a)) => match spec_optional_leaf_at(tokens, a, Namespace::Cbc, "SalesOrderID"@) {
                None => None,
                Some((sales, b)) => if spec_filled_text(purchase) && spec_filled_text(sales) && spec_closes(tokens, b) {
                    Some(((purchase, sales), b + 1))
                } else {
                    None
                },
            },
        }
    }
}

/// The preceding invoices from `cursor` on, each its number and issue date, and the position
/// after the last; `None` when one is malformed.
pub open spec fn spec_ubl_billing(
    tokens: Seq<crate::token::TokenView<Namespace>>,
    cursor: int,
) -> Option<(Seq<(Option<Seq<char>>, Option<(int, int, int)>)>, int)>
    decreases tokens.len() - cursor,
{
    if cursor < 0 || cursor >= tokens.len() || !spec_opens(tokens, cursor, Namespace::Cac, "BillingReference"@) {
        Some((Seq::empty(), cursor))
    } else {
        match spec_optional_leaf_at(tokens, cursor + 2, Namespace::Cbc, "ID"@) {
            None => None,
            Some((number, a)) => match spec_optional_leaf_at(tokens, a, Namespace::Cbc, "IssueDate"@) {
                None => None,
                Some((issued, b)) => if spec_opens(tokens, cursor + 1, Namespace::Cac, "InvoiceDocumentReference"@)
                    && spec_filled_text(number) && crate::reading::spec_read_optional_date(issued) is Some
                    && spec_closes(tokens, b) && spec_closes(tokens, b + 1) && b + 2 > cursor {
                    match spec_ubl_billing(tokens, b + 2) {
                        Some((rest, end)) => Some(
                            (seq![(number, crate::reading::spec_read_optional_date(issued)->Some_0)] + rest, end),
                        ),
                        None => None,
                    }
                } else {
                    None
                },
            },
        }
    }
}

/// An optional single-identifier reference group at `cursor`: its non-empty identifier and the
/// position after it; `None` when it is malformed.
pub open spec fn spec_optional_reference_at(
    tokens: Seq<crate::token::TokenView<Namespace>>,
    cursor: int,
    element: Seq<char>,
) -> Option<(Option<Seq<char>>, int)> {
    if !spec_opens(tokens, cursor, Namespace::Cac, element) {
        Some((None, cursor))
    } else {
        match spec_optional_leaf_at(tokens, cursor + 1, Namespace::Cbc, "ID"@) {
            Some((id, next)) => if spec_closes(tokens, next) && spec_filled_text(id) && id is Some {
                Some((id, next + 1))
            } else {
                None
            },
            None => None,
        }
    }
}

/// The references a UBL document states from `cursor`, before its additional documents; `None`
/// when one of them is malformed.
pub open spec fn spec_ubl_reference_heads(tokens: Seq<crate::token::TokenView<Namespace>>, cursor: int) -> Option<RefsView> {
    match spec_ubl_reference_heads_at(tokens, cursor) {
        Some((v, _)) => Some(v),
        None => None,
    }
}

/// The references `spec_ubl_reference_heads` reads from `cursor`, with the position after them.
pub open spec fn spec_ubl_reference_heads_at(tokens: Seq<crate::token::TokenView<Namespace>>, cursor: int) -> Option<(RefsView, int)> {
    match spec_ubl_period_at(tokens, cursor) {
        None => None,
        Some((period, c1)) => match spec_ubl_orders_at(tokens, c1) {
            None => None,
            Some(((purchase, sales), c2)) => match spec_ubl_billing(tokens, c2) {
                None => None,
                Some((preceding, c3)) => match spec_optional_reference_at(tokens, c3, "DespatchDocumentReference"@) {
                    None => None,
                    Some((despatch, c4)) => match spec_optional_reference_at(tokens, c4, "ReceiptDocumentReference"@) {
                        None => None,
                        Some((receiving, c5)) => match spec_optional_reference_at(tokens, c5, "OriginatorDocumentReference"@) {
                            None => None,
                            Some((tender, c6)) => match spec_optional_reference_at(tokens, c6, "ContractDocumentReference"@) {
                                None => None,
                                Some((contract, c7)) => Some(
                                    (RefsView {
                                        invoicing_period: period,
                                        purchase_order_reference: purchase,
                                        sales_order_reference: sales,
                                        preceding_invoices: preceding,
                                        despatch_advice_reference: despatch,
                                        receiving_advice_reference: receiving,
                                        tender_or_lot_reference: tender,
                                        contract_reference: contract,
                                    }, c7),
                                ),
                            },
                        },
                    },
                },
            },
        },
    }
}

/// What a supporting document states: its reference, description, external location and
/// attachment, the attachment as its content, mime code and filename.
pub type SupportingView = (Seq<char>, Option<Seq<char>>, Option<Seq<char>>, Option<(Seq<u8>, Seq<char>, Seq<char>)>);

/// What an additional document reference states: the invoiced object, by its identifier and
/// scheme, or a supporting document.
pub enum DocumentView {
    Object(Seq<char>, Option<Seq<char>>),
    Supporting(SupportingView),
}

/// The view of a supporting document.
pub open spec fn spec_supporting_view(d: SupportingDocument) -> SupportingView {
    (
        d.reference@,
        spec_texts(d.description),
        match d.external_location {
            Some(u) => Some(u@),
            None => None,
        },
        match d.attachment {
            Some(b) => Some((b.content@, b.mime@, b.filename@)),
            None => None,
        },
    )
}

/// The view of an optional object reference.
pub open spec fn spec_object_view(o: Option<ObjectReference>) -> Option<(Seq<char>, Option<Seq<char>>)> {
    match o {
        Some(x) => Some((x.id@, spec_texts(x.scheme))),
        None => None,
    }
}

/// The attachment of a supporting document from `cursor`, just inside its `Attachment`
/// element: an external reference with an optional URL, or an embedded binary object; the
/// external location, the attachment and the position of the end of the `Attachment` element.
pub open spec fn spec_attachment_at(
    tokens: Seq<crate::token::TokenView<Namespace>>,
    cursor: int,
) -> Option<(Option<Seq<char>>, Option<(Seq<u8>, Seq<char>, Seq<char>)>, int)> {
    if spec_opens(tokens, cursor, Namespace::Cac, "ExternalReference"@) {
        match spec_optional_leaf_at(tokens, cursor + 1, Namespace::Cbc, "URI"@) {
            None => None,
            Some((uri, c)) => if spec_closes(tokens, c) && (uri matches Some(t) ==> crate::values::spec_is_url(crate::text::spec_trim(t))) {
                Some((
                    match uri {
                        Some(t) => Some(crate::text::spec_trim(t)),
                        None => None,
                    },
                    None,
                    c + 1,
                ))
            } else {
                None
            },
        }
    } else {
        match spec_leaf_at(tokens, cursor, Namespace::Cbc, "EmbeddedDocumentBinaryObject"@) {
            None => None,
            Some((encoded, next)) => {
                let mime = crate::reading::spec_attribute(spec_open_attributes(tokens, cursor), "mimeCode"@);
                let filename = crate::reading::spec_attribute(spec_open_attributes(tokens, cursor), "filename"@);
                if mime is Some && mime->Some_0.len() > 0 && filename is Some && filename->Some_0.len() > 0 {
                    match spec_decode_base64(crate::text::spec_trim(encoded)) {
                        Ok(bytes) => Some((None, Some((bytes, mime->Some_0, filename->Some_0)), next)),
                        Err(_) => None,
                    }
                } else {
                    None
                }
            },
        }
    }
}

/// One additional document reference at `cursor`: the invoiced object when its document type
/// code is `130`, otherwise a supporting document; and the position after it.
pub open spec fn spec_additional_at(tokens: Seq<crate::token::TokenView<Namespace>>, cursor: int) -> Option<(DocumentView, int)> {
    if !spec_opens(tokens, cursor, Namespace::Cac, "AdditionalDocumentReference"@) {
        None
    } else if crate::parser::spec_child_text(tokens, cursor, 0, "DocumentTypeCode"@) == Some("130"@) {
        match spec_leaf_at(tokens, cursor + 1, Namespace::Cbc, "ID"@) {
            None => None,
            Some((id, a)) => {
                let scheme = crate::reading::spec_attribute(spec_open_attributes(tokens, cursor + 1), "schemeID"@);
                match spec_leaf_at(tokens, a, Namespace::Cbc, "DocumentTypeCode"@) {
                    None => None,
                    Some((_, b)) => if id.len() > 0 && (scheme matches Some(v) ==> v.len() > 0) && spec_closes(tokens, b) {
                        Some((DocumentView::Object(id, scheme), b + 1))
                    } else {
                        None
                    },
                }
            },
        }
    } else {
        match spec_leaf_at(tokens, cursor + 1, Namespace::Cbc, "ID"@) {
            None => None,
            Some((reference, a)) => match spec_optional_leaf_at(tokens, a, Namespace::Cbc, "DocumentDescription"@) {
                None => None,
                Some((description, b)) => if reference.len() == 0 || !spec_filled_text(description) {
                    None
                } else {
                    let attached = if spec_opens(tokens, b, Namespace::Cac, "Attachment"@) {
                        match spec_attachment_at(tokens, b + 1) {
                            Some((external, attachment, c)) => if spec_closes(tokens, c) {
                                Some((external, attachment, c + 1))
                            } else {
                                None
                            },
                            None => None,
                        }
                    } else {
                        Some((None, None, b))
                    };
                    match attached {
                        None => None,
                        Some((external, attachment, c)) => if spec_closes(tokens, c) {
                            Some((DocumentView::Supporting((reference, description, external, attachment)), c + 1))
                        } else {
                            None
                        },
                    }
                },
            },
        }
    }
}

/// The additional document references from `cursor` on: the last invoiced object, the
/// supporting documents in order, and the position after the last; `None` when one is malformed.
pub open spec fn spec_ubl_documents(
    tokens: Seq<crate::token::TokenView<Namespace>>,
    cursor: int,
) -> Option<(Option<(Seq<char>, Option<Seq<char>>)>, Seq<SupportingView>, int)>
    decreases tokens.len() - cursor,
{
    if cursor < 0 || cursor >= tokens.len() || !spec_opens(tokens, cursor, Namespace::Cac, "AdditionalDocumentReference"@) {
        Some((None, Seq::empty(), cursor))
    } else {
        match spec_additional_at(tokens, cursor) {
            None => None,
            Some((document, next)) => if next <= cursor {
                None
            } else {
                match spec_ubl_documents(tokens, next) {
                    None => None,
                    Some((object, rest, end)) => match document {
                        DocumentView::Object(id, scheme) => Some((
                            if object is Some { object } else { Some((id, scheme)) },
                            rest,
                            end,
                        )),
                        DocumentView::Supporting(d) => Some((object, seq![d] + rest, end)),
                    },
                }
            },
        }
    }
}

/// The invoiced object, the supporting documents and the project reference of an invoice.
pub open spec fn spec_documents_of(i: Invoice) -> (Option<(Seq<char>, Option<Seq<char>>)>, Seq<SupportingView>, Option<Seq<char>>) {
    (
        spec_object_view(i.object),
        i.supporting_documents@.map_values(|d: SupportingDocument| spec_supporting_view(d)),
        spec_texts(i.project_reference),
    )
}

/// The additional documents and the project reference a UBL document states from `cursor`, and
/// the position after them; `None` when one of them is malformed.
pub open spec fn spec_ubl_documents_tail(
    tokens: Seq<crate::token::TokenView<Namespace>>,
    cursor: int,
) -> Option<((Option<(Seq<char>, Option<Seq<char>>)>, Seq<SupportingView>, Option<Seq<char>>), int)> {
    match spec_ubl_documents(tokens, cursor) {
        None => None,
        Some((object, supporting, c)) => match spec_optional_reference_at(tokens, c, "ProjectReference"@) {
            None => None,
            Some((project, end)) => Some(((object, supporting, project), end)),
        },
    }
}

/// Reads one additional document reference into the object or a supporting document.
/// The document type code `130` marks the invoiced object.
#[verifier::spinoff_prover]
#[verifier::rlimit(100)]
pub fn read_additional_document(p: &mut Parser<Namespace>, instance: usize) -> (r: Result<AdditionalDocument, Error>)
    requires
        old(p).wf(),
    ensures
        final(p).follows(old(p)),
        r is Ok ==> final(p).advanced(old(p)),
        match spec_additional_at(old(p).spec_tokens(), old(p).spec_cursor()) {
            None => r is Err,
            Some((DocumentView::Object(id, scheme), next)) => r matches Ok(AdditionalDocument::Object(o))
                && spec_object_view(Some(o)) == Some((id, scheme)) && final(p).spec_cursor() == next,
            Some((DocumentView::Supporting(d), next)) => r matches Ok(AdditionalDocument::Supporting(x))
                && spec_supporting_view(x) == d && final(p).spec_cursor() == next,
        },
{
    proof {
        reveal_strlit("130");
    }
    let is_object = match p.peek_child_text("DocumentTypeCode") {
        Some(code) => str_eq(code.as_str(), "130"),
        None => false,
    };
    if is_object {
        p.enter_group(Namespace::Cac, "AdditionalDocumentReference", "object")?;
        let (attributes, value) = p.derived(Namespace::Cbc, "ID")?;
        let id = NonEmptyString::parse(value.as_str())?;
        let scheme = optional_attribute(&attributes, "schemeID")?;
        p.derived(Namespace::Cbc, "DocumentTypeCode")?;
        p.leave_group()?;
        Ok(AdditionalDocument::Object(ObjectReference { id, scheme }))
    } else {
        p.enter_repeatable(Namespace::Cac, "AdditionalDocumentReference", "supporting_documents", instance)?;
        let text = p.leaf(Namespace::Cbc, "ID", "reference")?;
        let reference = NonEmptyString::parse(text.as_str())?;
        let description = p.optional_leaf(Namespace::Cbc, "DocumentDescription", "description")?;
        let mut external_location = None;
        let mut attachment = None;
        if p.is_open(Namespace::Cac, "Attachment") {
            p.enter_structural(Namespace::Cac, "Attachment")?;
            if p.is_open(Namespace::Cac, "ExternalReference") {
                p.enter_structural(Namespace::Cac, "ExternalReference")?;
                if let Some(uri) = p.optional_text(Namespace::Cbc, "URI", "external_location")? {
                    external_location = Some(parse_url(uri.as_str())?);
                }
                p.leave_wrapper()?;
            } else {
                attachment = Some(read_binary(p)?);
            }
            p.leave_wrapper()?;
        }
        p.leave_group()?;
        Ok(AdditionalDocument::Supporting(SupportingDocument { reference, description, external_location, attachment }))
    }
}

/// The bytes a base64 text decodes to with the standard engine, or the message of its error:
/// a function of the characters alone.
pub uninterp spec fn spec_decode_base64(text: Seq<char>) -> Result<Seq<u8>, Seq<char>>;

/// The bytes a base64 text decodes to with the standard engine, or the message of its error.
///
/// Trusted: `base64::engine::general_purpose::STANDARD.decode`, whose result is named.
#[verifier::external_body]
pub(crate) fn decode_base64(text: &str) -> (r: Result<Vec<u8>, String>)
    ensures
        match r {
            Ok(bytes) => spec_decode_base64(text@) == Ok::<Seq<u8>, Seq<char>>(bytes@),
            Err(message) => spec_decode_base64(text@) == Err::<Seq<u8>, Seq<char>>(message@),
        },
{
    base64::engine::general_purpose::STANDARD.decode(text).map_err(|error| error.to_string())
}

/// Reads an embedded binary attachment (`BT-125`).
pub fn read_binary(p: &mut Parser<Namespace>) -> (r: Result<BinaryObject, Error>)
    requires
        old(p).wf(),
    ensures
        final(p).follows(old(p)),
        r is Ok ==> final(p).restored(old(p)),
        match spec_leaf_at(old(p).spec_tokens(), old(p).spec_cursor(), Namespace::Cbc, "EmbeddedDocumentBinaryObject"@) {
            None => r is Err,
            Some((encoded, next)) => {
                let mime = crate::reading::spec_attribute(spec_open_attributes(old(p).spec_tokens(), old(p).spec_cursor()), "mimeCode"@);
                let filename = crate::reading::spec_attribute(spec_open_attributes(old(p).spec_tokens(), old(p).spec_cursor()), "filename"@);
                if mime is Some && mime->Some_0.len() > 0 && filename is Some && filename->Some_0.len() > 0 {
                    match crate::ubl_read::spec_decode_base64(crate::text::spec_trim(encoded)) {
                        Ok(bytes) => r matches Ok(x) && x.content@ == bytes && Some(x.mime@) == mime
                            && Some(x.filename@) == filename && final(p).spec_cursor() == next,
                        Err(message) => r matches Err(e) && e@ == crate::error::ErrorView::MalformedXml(message),
                    }
                } else {
                    r is Err
                }
            },
        },
{
    let (attributes, encoded) = p.derived(Namespace::Cbc, "EmbeddedDocumentBinaryObject")?;
    let mime = match attribute(&attributes, "mimeCode") {
        Some(mime) => NonEmptyString::parse(mime)?,
        None => {
            return Err(Error::malformed_xml("a binary object without a mime code"));
        },
    };
    let filename = match attribute(&attributes, "filename") {
        Some(name) => NonEmptyString::parse(name)?,
        None => {
            return Err(Error::malformed_xml("a binary object without a filename"));
        },
    };
    let content = match decode_base64(trim(encoded.as_str())) {
        Ok(content) => content,
        Err(message) => {
            return Err(Error::MalformedXml(message));
        },
    };
    Ok(BinaryObject { content, mime, filename })
}

/// Reads the parties, the delivery, the payment and the adjustments of the invoice. Each of
/// these fields is set, to `None` or empty where the document leaves it out.
#[verifier::spinoff_prover]
#[verifier::rlimit(100)]
pub fn read_parties(p: &mut Parser<Namespace>, invoice: &mut Invoice) -> (r: Result<(), Error>)
    requires
        old(p).wf(),
    ensures
        final(p).follows(old(p)),
        r is Ok ==> final(p).restored(old(p)),
        spec_refs_of(*final(invoice)) == spec_refs_of(*old(invoice)),
        spec_documents_of(*final(invoice)) == spec_documents_of(*old(invoice)),
        match spec_ubl_parties_head(old(p).spec_tokens(), old(p).spec_cursor()) {
            None => r is Err,
            Some((seller, buyer, c)) => {
                &&& r is Ok ==> spec_seller_opt(final(invoice).seller) == seller && spec_buyer_opt(final(invoice).buyer) == buyer
                &&& match spec_ubl_other_parties(old(p).spec_tokens(), c) {
                    None => r is Err,
                    Some((payee, representative, d)) => {
                        &&& r is Ok ==> spec_payee_opt(final(invoice).payee) == payee && spec_representative_opt(
                            final(invoice).tax_representative,
                        ) == representative
                        &&& match spec_ubl_settlement_heads(old(p).spec_tokens(), d) {
                            None => r is Err,
                            Some((delivery, payment, terms, _)) => r is Ok ==> spec_delivery_opt(final(invoice).delivery) == delivery
                                && spec_payment_opt(final(invoice).payment) == payment && spec_texts(final(invoice).payment_terms) == terms,
                        }
                    },
                }
            },
        },
{
    invoice.seller = None;
    invoice.buyer = None;
    invoice.payee = None;
    invoice.tax_representative = None;
    invoice.delivery = None;
    invoice.payment = None;
    invoice.payment_terms = None;
    if p.is_open(Namespace::Cac, "AccountingSupplierParty") {
        invoice.seller = Some(read_supplier_party(p)?);
    }
    if p.is_open(Namespace::Cac, "AccountingCustomerParty") {
        invoice.buyer = Some(read_customer_party(p)?);
    }
    if p.is_open(Namespace::Cac, "PayeeParty") {
        invoice.payee = Some(read_payee_party(p)?);
    }
    if p.is_open(Namespace::Cac, "TaxRepresentativeParty") {
        invoice.tax_representative = Some(read_tax_representative_party(p)?);
    }
    if p.is_open(Namespace::Cac, "Delivery") {
        invoice.delivery = Some(read_delivery(p)?);
    }
    if p.is_open(Namespace::Cac, "PaymentMeans") {
        invoice.payment = Some(read_payment_means(p)?);
    }
    if p.is_open(Namespace::Cac, "PaymentTerms") {
        p.enter_group(Namespace::Cac, "PaymentTerms", "payment_terms")?;
        invoice.payment_terms = p.optional_leaf(Namespace::Cbc, "Note", "payment_terms")?;
        p.leave_group()?;
    }
    let ghost before_adjustments = *p;
    let mut adjustments: Vec<Adjustment> = Vec::new();
    while p.is_open(Namespace::Cac, "AllowanceCharge")
        invariant
            p.restored(&before_adjustments),
            before_adjustments.wf(),
            before_adjustments.follows(old(p)),
            adjustments@.len() <= p.spec_cursor() - before_adjustments.spec_cursor(),
            spec_refs_of(*invoice) == spec_refs_of(*old(invoice)),
            spec_documents_of(*invoice) == spec_documents_of(*old(invoice)),
            spec_ubl_parties_head(old(p).spec_tokens(), old(p).spec_cursor()) matches Some((seller, buyer, _)) ==> spec_seller_opt(
                invoice.seller,
            ) == seller && spec_buyer_opt(invoice.buyer) == buyer,
            spec_ubl_parties_head(old(p).spec_tokens(), old(p).spec_cursor()) matches Some((_, _, c)) ==> (spec_ubl_other_parties(
                old(p).spec_tokens(),
                c,
            ) matches Some((payee, representative, _)) ==> spec_payee_opt(invoice.payee) == payee && spec_representative_opt(
                invoice.tax_representative,
            ) == representative),
            spec_ubl_parties_head(old(p).spec_tokens(), old(p).spec_cursor()) matches Some((_, _, c)) ==> (spec_ubl_other_parties(
                old(p).spec_tokens(),
                c,
            ) matches Some((_, _, d)) ==> (spec_ubl_settlement_heads(old(p).spec_tokens(), d) matches Some((delivery, payment, terms, _))
                ==> spec_delivery_opt(invoice.delivery) == delivery && spec_payment_opt(invoice.payment) == payment && spec_texts(
                invoice.payment_terms,
            ) == terms)),
        decreases p.spec_tokens().len() - p.spec_cursor(),
    {
        let adjustment = read_adjustment(p, adjustments.len() + 1)?;
        adjustments.push(adjustment);
    }
    invoice.adjustments = adjustments;
    Ok(())
}

/// What a party tax scheme carries: a VAT identifier or another tax registration.
pub enum PartyTaxScheme {
    Vat(VatIdentifier),
    Other(NonEmptyString),
}

/// What a party states: its electronic address (identifier and scheme), identifiers, trading
/// name, postal address (as its texts), VAT identifier, tax registration, name, legal entity
/// (identifier and issuer), additional legal information and contact (name, telephone and
/// e-mail).
pub struct PartyView {
    pub electronic_address: Option<(Option<Seq<char>>, Option<Seq<char>>)>,
    pub identifiers: Seq<(Seq<char>, Option<Seq<char>>)>,
    pub trading_name: Option<Seq<char>>,
    pub address: Option<Seq<Option<Seq<char>>>>,
    pub vat: Option<Seq<char>>,
    pub tax_registration: Option<Seq<char>>,
    pub name: Option<Seq<char>>,
    pub legal_entity: Option<(Seq<char>, Option<Seq<char>>)>,
    pub additional_legal_information: Option<Seq<char>>,
    pub contact: Option<(Option<Seq<char>>, Option<Seq<char>>, Option<Seq<char>>)>,
}

/// The view of an optional electronic address.
pub open spec fn spec_endpoint_view(e: Option<ElectronicAddress>) -> Option<(Option<Seq<char>>, Option<Seq<char>>)> {
    match e {
        Some(x) => Some((spec_texts(x.id), spec_texts(x.scheme))),
        None => None,
    }
}

/// The view of an optional postal address.
pub open spec fn spec_address_view(a: Option<PostalAddress>) -> Option<Seq<Option<Seq<char>>>> {
    match a {
        Some(x) => Some(crate::reading::spec_address_texts(x)),
        None => None,
    }
}

/// The view of an optional legal entity.
pub open spec fn spec_legal_view(e: Option<LegalEntity>) -> Option<(Seq<char>, Option<Seq<char>>)> {
    match e {
        Some(x) => Some((x.id@, spec_texts(x.issuer))),
        None => None,
    }
}

/// The view of an optional contact.
pub open spec fn spec_contact_view(c: Option<Contact>) -> Option<(Option<Seq<char>>, Option<Seq<char>>, Option<Seq<char>>)> {
    match c {
        Some(x) => Some((spec_texts(x.name), spec_texts(x.telephone), crate::reading::spec_email_text(x.email))),
        None => None,
    }
}

/// The view of an optional VAT identifier.
pub open spec fn spec_vat_view(v: Option<crate::model::VatIdentifier>) -> Option<Seq<char>> {
    match v {
        Some(x) => Some(x.id@),
        None => None,
    }
}

/// What a seller states.
pub open spec fn spec_seller_view(s: Seller) -> PartyView {
    PartyView {
        electronic_address: spec_endpoint_view(s.electronic_address),
        identifiers: crate::cii_read::spec_identifier_texts(s.identifiers@),
        trading_name: spec_texts(s.trading_name),
        address: spec_address_view(s.address),
        vat: spec_vat_view(s.vat),
        tax_registration: spec_texts(s.tax_registration),
        name: spec_texts(s.name),
        legal_entity: spec_legal_view(s.legal_entity),
        additional_legal_information: spec_texts(s.additional_legal_information),
        contact: spec_contact_view(s.contact),
    }
}

/// What a buyer states: no tax registration and no additional legal information.
pub open spec fn spec_buyer_view(b: Buyer) -> PartyView {
    PartyView {
        electronic_address: spec_endpoint_view(b.electronic_address),
        identifiers: crate::cii_read::spec_identifier_texts(b.identifiers@),
        trading_name: spec_texts(b.trading_name),
        address: spec_address_view(b.address),
        vat: spec_vat_view(b.vat),
        tax_registration: None,
        name: spec_texts(b.name),
        legal_entity: spec_legal_view(b.legal_entity),
        additional_legal_information: None,
        contact: spec_contact_view(b.contact),
    }
}

/// An optional endpoint at `cursor` and the position after it.
pub open spec fn spec_endpoint_at(tokens: Seq<crate::token::TokenView<Namespace>>, cursor: int) -> Option<
    (Option<(Option<Seq<char>>, Option<Seq<char>>)>, int),
> {
    match spec_optional_leaf_at(tokens, cursor, Namespace::Cbc, "EndpointID"@) {
        None => None,
        Some((None, c)) => Some((None, c)),
        Some((Some(t), next)) => {
            let a = crate::reading::spec_attribute(spec_open_attributes(tokens, cursor), "schemeID"@);
            if t.len() > 0 && spec_filled_text(a) {
                Some((Some((Some(t), a)), next))
            } else {
                None
            }
        },
    }
}

/// An optional party name at `cursor` and the position after it.
pub open spec fn spec_party_name_at(tokens: Seq<crate::token::TokenView<Namespace>>, cursor: int) -> Option<(Option<Seq<char>>, int)> {
    if !spec_opens(tokens, cursor, Namespace::Cac, "PartyName"@) {
        Some((None, cursor))
    } else {
        match spec_optional_leaf_at(tokens, cursor + 1, Namespace::Cbc, "Name"@) {
            None => None,
            Some((id, next)) => if spec_closes(tokens, next) && spec_filled_text(id) {
                Some((id, next + 1))
            } else {
                None
            },
        }
    }
}

/// An optional postal address at `cursor`, as its texts, and the position after it.
pub open spec fn spec_address_at(tokens: Seq<crate::token::TokenView<Namespace>>, cursor: int) -> Option<(Option<Seq<Option<Seq<char>>>>, int)> {
    if !spec_opens(tokens, cursor, Namespace::Cac, "PostalAddress"@) {
        Some((None, cursor))
    } else {
        match spec_ubl_address_fields(tokens, cursor + 1) {
            None => None,
            Some((texts, end)) => if crate::reading::spec_valid_address(texts) && spec_closes(tokens, end) {
                Some((Some(crate::reading::spec_address_read(texts)), end + 1))
            } else {
                None
            },
        }
    }
}

/// The party tax schemes from `cursor` on: the last VAT identifier, the last other tax
/// registration, and the position after the last scheme.
pub open spec fn spec_tax_schemes(tokens: Seq<crate::token::TokenView<Namespace>>, cursor: int) -> Option<
    (Option<Seq<char>>, Option<Seq<char>>, int),
>
    decreases tokens.len() - cursor,
{
    if cursor < 0 || cursor >= tokens.len() || !spec_opens(tokens, cursor, Namespace::Cac, "PartyTaxScheme"@) {
        Some((None, None, cursor))
    } else {
        match spec_optional_leaf_at(tokens, cursor + 1, Namespace::Cbc, "CompanyID"@) {
            None => None,
            Some((company, a)) => match spec_optional_wrapped_leaf_at(tokens, a, Namespace::Cac, "TaxScheme"@, Namespace::Cbc, "ID"@) {
                None => None,
                Some((scheme, b)) => if spec_filled_text(company) && spec_closes(tokens, b) && b + 1 > cursor {
                    match spec_tax_schemes(tokens, b + 1) {
                        None => None,
                        Some((vat, other, end)) => {
                            let this_vat = if company is Some && scheme == Some("VAT"@) { company } else { None };
                            let this_other = if company is Some && scheme != Some("VAT"@) { company } else { None };
                            Some((
                                if vat is Some { vat } else { this_vat },
                                if other is Some { other } else { this_other },
                                end,
                            ))
                        },
                    }
                } else {
                    None
                },
            },
        }
    }
}

/// An optional party legal entity at `cursor`: the registration name, the legal entity and the
/// legal form, and the position after it.
pub open spec fn spec_legal_at(tokens: Seq<crate::token::TokenView<Namespace>>, cursor: int) -> Option<
    ((Option<Seq<char>>, Option<(Seq<char>, Option<Seq<char>>)>, Option<Seq<char>>), int),
> {
    if !spec_opens(tokens, cursor, Namespace::Cac, "PartyLegalEntity"@) {
        Some(((None, None, None), cursor))
    } else {
        match spec_optional_leaf_at(tokens, cursor + 1, Namespace::Cbc, "RegistrationName"@) {
            None => None,
            Some((name, a)) => match spec_optional_leaf_at(tokens, a, Namespace::Cbc, "CompanyID"@) {
                None => None,
                Some((id, b)) => match spec_optional_leaf_at(tokens, b, Namespace::Cbc, "CompanyLegalForm"@) {
                    None => None,
                    Some((form, c)) => {
                        let issuer = crate::reading::spec_attribute(spec_open_attributes(tokens, a), "schemeID"@);
                        if spec_filled_text(name) && spec_filled_text(id) && (id is Some ==> spec_filled_text(issuer))
                            && spec_filled_text(form) && spec_closes(tokens, c) {
                            Some((
                                (name, match id {
                                    Some(t) => Some((t, issuer)),
                                    None => None,
                                }, form),
                                c + 1,
                            ))
                        } else {
                            None
                        }
                    },
                },
            },
        }
    }
}

/// An optional contact at `cursor`: name, telephone and e-mail, and the position after it.
pub open spec fn spec_contact_at(tokens: Seq<crate::token::TokenView<Namespace>>, cursor: int) -> Option<
    (Option<(Option<Seq<char>>, Option<Seq<char>>, Option<Seq<char>>)>, int),
> {
    if !spec_opens(tokens, cursor, Namespace::Cac, "Contact"@) {
        Some((None, cursor))
    } else {
        match spec_optional_leaf_at(tokens, cursor + 1, Namespace::Cbc, "Name"@) {
            None => None,
            Some((name, a)) => match spec_optional_leaf_at(tokens, a, Namespace::Cbc, "Telephone"@) {
                None => None,
                Some((phone, b)) => match spec_optional_leaf_at(tokens, b, Namespace::Cbc, "ElectronicMail"@) {
                    None => None,
                    Some((mail, c)) => if spec_filled_text(name) && spec_filled_text(phone) && crate::reading::spec_valid_email(mail)
                        && spec_closes(tokens, c) {
                        Some((Some((name, phone, crate::reading::spec_trimmed(mail))), c + 1))
                    } else {
                        None
                    },
                },
            },
        }
    }
}

/// The body of a party from `cursor`, just inside its `Party` element, and the position of its
/// end tag; `None` when a part is malformed.
pub open spec fn spec_party_body(tokens: Seq<crate::token::TokenView<Namespace>>, cursor: int) -> Option<(PartyView, int)> {
    match spec_endpoint_at(tokens, cursor) {
        None => None,
        Some((endpoint, c1)) => match spec_ubl_identifiers(tokens, c1) {
            None => None,
            Some((identifiers, c2)) => match spec_party_name_at(tokens, c2) {
                None => None,
                Some((trading_name, c3)) => match spec_address_at(tokens, c3) {
                    None => None,
                    Some((address, c4)) => match spec_tax_schemes(tokens, c4) {
                        None => None,
                        Some((vat, registration, c5)) => match spec_legal_at(tokens, c5) {
                            None => None,
                            Some(((name, legal, information), c6)) => match spec_contact_at(tokens, c6) {
                                None => None,
                                Some((contact, c7)) => Some(
                                    (
                                        PartyView {
                                            electronic_address: endpoint,
                                            identifiers,
                                            trading_name,
                                            address,
                                            vat,
                                            tax_registration: registration,
                                            name,
                                            legal_entity: legal,
                                            additional_legal_information: information,
                                            contact,
                                        },
                                        c7,
                                    ),
                                ),
                            },
                        },
                    },
                },
            },
        },
    }
}

/// A party wrapped in the element `element` at `cursor`, and the position after it.
pub open spec fn spec_wrapped_party_at(tokens: Seq<crate::token::TokenView<Namespace>>, cursor: int, element: Seq<char>) -> Option<(PartyView, int)> {
    if !spec_opens(tokens, cursor, Namespace::Cac, element) || !spec_opens(tokens, cursor + 1, Namespace::Cac, "Party"@) {
        None
    } else {
        match spec_party_body(tokens, cursor + 2) {
            None => None,
            Some((v, e)) => if spec_closes(tokens, e) && spec_closes(tokens, e + 1) {
                Some((v, e + 2))
            } else {
                None
            },
        }
    }
}

/// The view of an optional seller.
pub open spec fn spec_seller_opt(s: Option<Seller>) -> Option<PartyView> {
    match s {
        Some(x) => Some(spec_seller_view(x)),
        None => None,
    }
}

/// The view of an optional buyer.
pub open spec fn spec_buyer_opt(b: Option<Buyer>) -> Option<PartyView> {
    match b {
        Some(x) => Some(spec_buyer_view(x)),
        None => None,
    }
}

/// The optional seller and buyer parties at `cursor`, and the position after them; `None` when
/// one of them is malformed.
pub open spec fn spec_ubl_parties_head(tokens: Seq<crate::token::TokenView<Namespace>>, cursor: int) -> Option<
    (Option<PartyView>, Option<PartyView>, int),
> {
    let seller = if spec_opens(tokens, cursor, Namespace::Cac, "AccountingSupplierParty"@) {
        match spec_wrapped_party_at(tokens, cursor, "AccountingSupplierParty"@) {
            Some((v, c)) => Some((Some(v), c)),
            None => None,
        }
    } else {
        Some((None, cursor))
    };
    match seller {
        None => None,
        Some((seller, c1)) => if spec_opens(tokens, c1, Namespace::Cac, "AccountingCustomerParty"@) {
            match spec_wrapped_party_at(tokens, c1, "AccountingCustomerParty"@) {
                Some((v, c2)) => Some((seller, Some(spec_as_buyer(v)), c2)),
                None => None,
            }
        } else {
            Some((seller, None, c1))
        },
    }
}

/// What a payee states: its identifiers, name and legal entity (identifier and issuer).
pub type PayeeView = (Seq<(Seq<char>, Option<Seq<char>>)>, Option<Seq<char>>, Option<(Seq<char>, Option<Seq<char>>)>);

/// What a tax representative states: its name, VAT identifier and postal address texts.
pub type RepresentativeView = (Option<Seq<char>>, Option<Seq<char>>, Option<Seq<Option<Seq<char>>>>);

/// The view of an optional payee.
pub open spec fn spec_payee_opt(x: Option<crate::model::Payee>) -> Option<PayeeView> {
    match x {
        Some(y) => Some((crate::cii_read::spec_identifier_texts(y.identifiers@), spec_texts(y.name), spec_legal_view(y.legal_entity))),
        None => None,
    }
}

/// The view of an optional tax representative.
pub open spec fn spec_representative_opt(x: Option<crate::model::TaxRepresentative>) -> Option<RepresentativeView> {
    match x {
        Some(y) => Some((spec_texts(y.name), spec_vat_view(y.vat), crate::cii_read::spec_address_option(y.address))),
        None => None,
    }
}

/// A payee party at `cursor` and the position after it; `None` when it is malformed.
pub open spec fn spec_payee_at(tokens: Seq<crate::token::TokenView<Namespace>>, cursor: int) -> Option<(PayeeView, int)> {
    match spec_ubl_identifiers(tokens, cursor + 1) {
        None => None,
        Some((ids, a)) => match spec_optional_wrapped_leaf_at(tokens, a, Namespace::Cac, "PartyName"@, Namespace::Cbc, "Name"@) {
            None => None,
            Some((name, b)) => match spec_optional_wrapped_leaf_at(tokens, b, Namespace::Cac, "PartyLegalEntity"@, Namespace::Cbc, "CompanyID"@) {
                None => None,
                Some((entity, c)) => {
                    let issuer = crate::reading::spec_attribute(spec_open_attributes(tokens, b + 1), "schemeID"@);
                    if spec_opens(tokens, cursor, Namespace::Cac, "PayeeParty"@) && spec_filled_text(name) && spec_filled_text(entity)
                        && (entity is Some ==> spec_filled_text(issuer)) && spec_closes(tokens, c) {
                        Some((
                            (ids, name, match entity {
                                Some(t) => Some((t, issuer)),
                                None => None,
                            }),
                            c + 1,
                        ))
                    } else {
                        None
                    }
                },
            },
        },
    }
}

/// A tax representative party at `cursor` and the position after it; `None` when it is malformed.
pub open spec fn spec_representative_at(tokens: Seq<crate::token::TokenView<Namespace>>, cursor: int) -> Option<(RepresentativeView, int)> {
    match spec_optional_wrapped_leaf_at(tokens, cursor + 1, Namespace::Cac, "PartyName"@, Namespace::Cbc, "Name"@) {
        None => None,
        Some((name, a)) => match spec_ubl_optional_address(tokens, a, "PostalAddress"@) {
            None => None,
            Some((address, b)) => {
                let texts = match address {
                    Some(t) => Some(crate::reading::spec_address_read(t)),
                    None => None,
                };
                if !spec_opens(tokens, cursor, Namespace::Cac, "TaxRepresentativeParty"@) || !spec_filled_text(name) {
                    None
                } else if spec_opens(tokens, b, Namespace::Cac, "PartyTaxScheme"@) {
                    match spec_optional_leaf_at(tokens, b + 1, Namespace::Cbc, "CompanyID"@) {
                        None => None,
                        Some((company, c)) => match spec_optional_wrapped_leaf_at(tokens, c, Namespace::Cac, "TaxScheme"@, Namespace::Cbc, "ID"@) {
                            None => None,
                            Some((scheme, d)) => if spec_filled_text(company) && (company is Some ==> scheme == Some("VAT"@))
                                && spec_closes(tokens, d) && spec_closes(tokens, d + 1) {
                                Some(((name, company, texts), d + 2))
                            } else {
                                None
                            },
                        },
                    }
                } else if spec_closes(tokens, b) {
                    Some(((name, None, texts), b + 1))
                } else {
                    None
                }
            },
        },
    }
}

/// The optional payee and tax representative parties at `cursor`, and the position after them;
/// `None` when one of them is malformed.
pub open spec fn spec_ubl_other_parties(tokens: Seq<crate::token::TokenView<Namespace>>, cursor: int) -> Option<
    (Option<PayeeView>, Option<RepresentativeView>, int),
> {
    let payee = if spec_opens(tokens, cursor, Namespace::Cac, "PayeeParty"@) {
        match spec_payee_at(tokens, cursor) {
            Some((v, c)) => Some((Some(v), c)),
            None => None,
        }
    } else {
        Some((None, cursor))
    };
    match payee {
        None => None,
        Some((payee, c1)) => if spec_opens(tokens, c1, Namespace::Cac, "TaxRepresentativeParty"@) {
            match spec_representative_at(tokens, c1) {
                Some((v, c2)) => Some((payee, Some(v), c2)),
                None => None,
            }
        } else {
            Some((payee, None, c1))
        },
    }
}

/// What a delivery states: its date, the name of its party, its location (identifier and
/// scheme) and its postal address texts.
pub type DeliveryView = (
    Option<(int, int, int)>,
    Option<Seq<char>>,
    Option<(Option<Seq<char>>, Option<Seq<char>>)>,
    Option<Seq<Option<Seq<char>>>>,
);

/// The view of an optional delivery.
pub open spec fn spec_delivery_opt(x: Option<Delivery>) -> Option<DeliveryView> {
    match x {
        Some(d) => Some((
            crate::reading::spec_date_views(d.date),
            spec_texts(d.name),
            match d.location {
                Some(l) => Some((spec_texts(l.id), spec_texts(l.issuer))),
                None => None,
            },
            crate::cii_read::spec_address_option(d.address),
        )),
        None => None,
    }
}

/// A delivery at `cursor` and the position after it; `None` when it is malformed.
pub open spec fn spec_delivery_at(tokens: Seq<crate::token::TokenView<Namespace>>, cursor: int) -> Option<(DeliveryView, int)> {
    match spec_optional_leaf_at(tokens, cursor + 1, Namespace::Cbc, "ActualDeliveryDate"@) {
        None => None,
        Some((date, a)) => match spec_delivery_location(tokens, a) {
            None => None,
            Some((location, b)) => match spec_delivery_party(tokens, b) {
                None => None,
                Some((name, end)) => if spec_opens(tokens, cursor, Namespace::Cac, "Delivery"@)
                    && crate::reading::spec_read_optional_date(date) is Some && spec_closes(tokens, end) {
                    Some((
                        (
                            crate::reading::spec_read_optional_date(date)->Some_0,
                            name,
                            match location {
                                None => None,
                                Some((id, scheme, _)) => match id {
                                    Some(t) => Some((Some(t), scheme)),
                                    None => None,
                                },
                            },
                            match location {
                                None => None,
                                Some((_, _, address)) => match address {
                                    Some(texts) => Some(crate::reading::spec_address_read(texts)),
                                    None => None,
                                },
                            },
                        ),
                        end + 1,
                    ))
                } else {
                    None
                },
            },
        },
    }
}

/// The view of optional payment instructions.
pub open spec fn spec_payment_opt(x: Option<PaymentInstructions>) -> Option<
    (Seq<char>, Option<Seq<char>>, Option<Seq<char>>, crate::cii_read::PaymentDetailsView),
> {
    match x {
        Some(y) => Some(crate::cii_read::spec_payment_view(y)),
        None => None,
    }
}

/// The optional delivery, payment instructions and payment terms at `cursor`, and the position
/// after them; `None` when one of them is malformed.
pub open spec fn spec_ubl_settlement_heads(tokens: Seq<crate::token::TokenView<Namespace>>, cursor: int) -> Option<
    (
        Option<DeliveryView>,
        Option<(Seq<char>, Option<Seq<char>>, Option<Seq<char>>, crate::cii_read::PaymentDetailsView)>,
        Option<Seq<char>>,
        int,
    ),
> {
    let delivery = if spec_opens(tokens, cursor, Namespace::Cac, "Delivery"@) {
        match spec_delivery_at(tokens, cursor) {
            Some((v, c)) => Some((Some(v), c)),
            None => None,
        }
    } else {
        Some((None, cursor))
    };
    match delivery {
        None => None,
        Some((delivery, c1)) => {
            let payment = if spec_opens(tokens, c1, Namespace::Cac, "PaymentMeans"@) {
                match spec_ubl_payment_means(tokens, c1) {
                    Some((means, text, remittance, details, c)) => Some((Some((means, text, remittance, details)), c)),
                    None => None,
                }
            } else {
                Some((None, c1))
            };
            match payment {
                None => None,
                Some((payment, c2)) => if spec_opens(tokens, c2, Namespace::Cac, "PaymentTerms"@) {
                    match spec_optional_leaf_at(tokens, c2 + 1, Namespace::Cbc, "Note"@) {
                        Some((note, d)) => if spec_filled_text(note) && spec_closes(tokens, d) {
                            Some((delivery, payment, note, d + 1))
                        } else {
                            None
                        },
                        None => None,
                    }
                } else {
                    Some((delivery, payment, None, c2))
                },
            }
        },
    }
}

/// The buyer's view of a party read: without tax registration and additional legal information.
pub open spec fn spec_as_buyer(v: PartyView) -> PartyView {
    PartyView { tax_registration: None, additional_legal_information: None, ..v }
}

/// Reads the supplier party into a seller (`BG-4`).
#[verifier::spinoff_prover]
#[verifier::rlimit(100)]
pub fn read_supplier_party(p: &mut Parser<Namespace>) -> (r: Result<Seller, Error>)
    requires
        old(p).wf(),
    ensures
        final(p).follows(old(p)),
        r is Ok ==> final(p).advanced(old(p)),
        match spec_wrapped_party_at(old(p).spec_tokens(), old(p).spec_cursor(), "AccountingSupplierParty"@) {
            None => r is Err,
            Some((v, next)) => r matches Ok(x) && spec_seller_view(x) == v && final(p).spec_cursor() == next,
        },
{
    p.enter_structural(Namespace::Cac, "AccountingSupplierParty")?;
    p.enter_group(Namespace::Cac, "Party", "seller")?;
    let electronic_address = optional_endpoint(p, "electronic_address")?;
    let identifiers = read_identifiers(p, "identifiers")?;
    let trading_name = optional_party_name(p, "trading_name")?;
    let address = optional_address(p, "PostalAddress")?;
    let mut vat = None;
    let mut tax_registration = None;
    let ghost before_schemes = *p;
    while p.is_open(Namespace::Cac, "PartyTaxScheme")
        invariant
            p.restored(&before_schemes),
            before_schemes.wf(),
            before_schemes.follows(old(p)),
            spec_tax_schemes(before_schemes.spec_tokens(), before_schemes.spec_cursor()) is None ==> spec_wrapped_party_at(
                old(p).spec_tokens(),
                old(p).spec_cursor(),
                "AccountingSupplierParty"@,
            ) is None,
            spec_tax_schemes(before_schemes.spec_tokens(), before_schemes.spec_cursor()) == match spec_tax_schemes(
                p.spec_tokens(),
                p.spec_cursor(),
            ) {
                Some((v, o, end)) => Some((
                    if v is Some { v } else { spec_vat_view(vat) },
                    if o is Some { o } else { spec_texts(tax_registration) },
                    end,
                )),
                None => None,
            },
        decreases p.spec_tokens().len() - p.spec_cursor(),
    {
        let ghost at = p.spec_cursor();
        let read = read_party_tax_scheme(p);
        let scheme = match read {
            Ok(x) => x,
            Err(e) => {
                assert(spec_tax_schemes(p.spec_tokens(), at) is None);
                return Err(e);
            },
        };
        match scheme {
            Some(PartyTaxScheme::Vat(value)) => {
                vat = Some(value);
            },
            Some(PartyTaxScheme::Other(value)) => {
                tax_registration = Some(value);
            },
            None => {},
        }
    }
    let (name, legal_entity, additional_legal_information) = read_legal_entity(p, "name")?;
    let contact = optional_contact(p, "contact")?;
    p.leave_group()?;
    p.leave_wrapper()?;
    Ok(Seller {
        name,
        trading_name,
        identifiers,
        legal_entity,
        additional_legal_information,
        vat,
        tax_registration,
        electronic_address,
        address,
        contact,
    })
}

/// Reads the customer party into a buyer (`BG-7`).
#[verifier::spinoff_prover]
#[verifier::rlimit(100)]
pub fn read_customer_party(p: &mut Parser<Namespace>) -> (r: Result<Buyer, Error>)
    requires
        old(p).wf(),
    ensures
        final(p).follows(old(p)),
        r is Ok ==> final(p).advanced(old(p)),
        match spec_wrapped_party_at(old(p).spec_tokens(), old(p).spec_cursor(), "AccountingCustomerParty"@) {
            None => r is Err,
            Some((v, next)) => r matches Ok(x) && spec_buyer_view(x) == spec_as_buyer(v) && final(p).spec_cursor() == next,
        },
{
    p.enter_structural(Namespace::Cac, "AccountingCustomerParty")?;
    p.enter_group(Namespace::Cac, "Party", "buyer")?;
    let electronic_address = optional_endpoint(p, "electronic_address")?;
    let identifiers = read_identifiers(p, "identifiers")?;
    let trading_name = optional_party_name(p, "trading_name")?;
    let address = optional_address(p, "PostalAddress")?;
    let mut vat = None;
    let ghost before_schemes = *p;
    let ghost mut other: Option<Seq<char>> = None;
    while p.is_open(Namespace::Cac, "PartyTaxScheme")
        invariant
            p.restored(&before_schemes),
            before_schemes.wf(),
            before_schemes.follows(old(p)),
            spec_tax_schemes(before_schemes.spec_tokens(), before_schemes.spec_cursor()) is None ==> spec_wrapped_party_at(
                old(p).spec_tokens(),
                old(p).spec_cursor(),
                "AccountingCustomerParty"@,
            ) is None,
            spec_tax_schemes(before_schemes.spec_tokens(), before_schemes.spec_cursor()) == match spec_tax_schemes(
                p.spec_tokens(),
                p.spec_cursor(),
            ) {
                Some((v, o, end)) => Some((if v is Some { v } else { spec_vat_view(vat) }, if o is Some { o } else { other }, end)),
                None => None,
            },
        decreases p.spec_tokens().len() - p.spec_cursor(),
    {
        let ghost at = p.spec_cursor();
        let read = read_party_tax_scheme(p);
        let scheme = match read {
            Ok(x) => x,
            Err(e) => {
                assert(spec_tax_schemes(p.spec_tokens(), at) is None);
                return Err(e);
            },
        };
        match scheme {
            Some(PartyTaxScheme::Vat(value)) => {
                vat = Some(value);
            },
            Some(PartyTaxScheme::Other(value)) => {
                proof {
                    other = Some(value@);
                }
            },
            None => {},
        }
    }
    let (name, legal_entity, _) = read_legal_entity(p, "name")?;
    let contact = optional_contact(p, "contact")?;
    p.leave_group()?;
    p.leave_wrapper()?;
    Ok(Buyer { name, trading_name, identifiers, legal_entity, vat, electronic_address, address, contact })
}

/// Reads the payee party (`BG-10`).
pub fn read_payee_party(p: &mut Parser<Namespace>) -> (r: Result<Payee, Error>)
    requires
        old(p).wf(),
    ensures
        final(p).follows(old(p)),
        r is Ok ==> final(p).advanced(old(p)),
        match spec_ubl_identifiers(old(p).spec_tokens(), old(p).spec_cursor() + 1) {
            None => r is Err,
            Some((ids, after_ids)) => match spec_optional_wrapped_leaf_at(
                old(p).spec_tokens(),
                after_ids,
                Namespace::Cac,
                "PartyName"@,
                Namespace::Cbc,
                "Name"@,
            ) {
                None => r is Err,
                Some((name, after_name)) => match spec_optional_wrapped_leaf_at(
                    old(p).spec_tokens(),
                    after_name,
                    Namespace::Cac,
                    "PartyLegalEntity"@,
                    Namespace::Cbc,
                    "CompanyID"@,
                ) {
                    None => r is Err,
                    Some((entity, after_entity)) => if spec_opens(old(p).spec_tokens(), old(p).spec_cursor(), Namespace::Cac, "PayeeParty"@)
                        && spec_filled_text(name) && spec_filled_text(entity) && (entity is Some ==> spec_filled_text(
                        crate::reading::spec_attribute(spec_open_attributes(old(p).spec_tokens(), after_name + 1), "schemeID"@),
                    )) && spec_closes(old(p).spec_tokens(), after_entity) {
                        r matches Ok(x) && crate::cii_read::spec_identifier_texts(x.identifiers@) == ids
                            && crate::ubl_read::spec_texts(x.name) == name && match entity {
                                Some(t) => x.legal_entity matches Some(e) && e.id@ == t && crate::ubl_read::spec_texts(e.issuer) == crate::reading::spec_attribute(
                                    spec_open_attributes(old(p).spec_tokens(), after_name + 1),
                                    "schemeID"@,
                                ),
                                None => x.legal_entity is None,
                            } && final(p).spec_cursor() == after_entity + 1
                    } else {
                        r is Err
                    },
                },
            },
        },
{
    p.enter_group(Namespace::Cac, "PayeeParty", "payee")?;
    let identifiers = read_identifiers(p, "identifiers")?;
    let name = optional_party_name(p, "name")?;
    let mut legal_entity = None;
    if p.is_open(Namespace::Cac, "PartyLegalEntity") {
        p.enter_structural(Namespace::Cac, "PartyLegalEntity")?;
        legal_entity = optional_company_id(p, "legal_entity")?;
        p.leave_wrapper()?;
    }
    p.leave_group()?;
    Ok(Payee { name, identifiers, legal_entity })
}

/// An optional postal address element at `cursor`: its fields when it is there and the
/// position after it; the address absent consumes nothing. `None` when it is there but malformed.
pub open spec fn spec_ubl_optional_address(tokens: Seq<crate::token::TokenView<Namespace>>, cursor: int, element: Seq<char>) -> Option<(Option<Seq<Option<Seq<char>>>>, int)> {
    if spec_opens(tokens, cursor, Namespace::Cac, element) {
        match spec_ubl_address_fields(tokens, cursor + 1) {
            Some((texts, end)) => if crate::reading::spec_valid_address(texts) && spec_closes(tokens, end) {
                Some((Some(texts), end + 1))
            } else {
                None
            },
            None => None,
        }
    } else {
        Some((None, cursor))
    }
}

/// Reads the tax representative party (`BG-11`); a tax scheme other than VAT is refused.
pub fn read_tax_representative_party(p: &mut Parser<Namespace>) -> (r: Result<TaxRepresentative, Error>)
    requires
        old(p).wf(),
    ensures
        final(p).follows(old(p)),
        r is Ok ==> final(p).advanced(old(p)),
        match spec_optional_wrapped_leaf_at(old(p).spec_tokens(), old(p).spec_cursor() + 1, Namespace::Cac, "PartyName"@, Namespace::Cbc, "Name"@) {
            None => r is Err,
            Some((name, a)) => match spec_ubl_optional_address(old(p).spec_tokens(), a, "PostalAddress"@) {
                None => r is Err,
                Some((address, b)) => if spec_opens(old(p).spec_tokens(), b, Namespace::Cac, "PartyTaxScheme"@) {
                    match spec_optional_leaf_at(old(p).spec_tokens(), b + 1, Namespace::Cbc, "CompanyID"@) {
                        None => r is Err,
                        Some((company, c)) => match spec_optional_wrapped_leaf_at(
                            old(p).spec_tokens(),
                            c,
                            Namespace::Cac,
                            "TaxScheme"@,
                            Namespace::Cbc,
                            "ID"@,
                        ) {
                            None => r is Err,
                            Some((scheme, d)) => if spec_opens(old(p).spec_tokens(), old(p).spec_cursor(), Namespace::Cac, "TaxRepresentativeParty"@)
                                && spec_filled_text(name) && spec_filled_text(company)
                                && (company is Some ==> scheme == Some("VAT"@)) && spec_closes(old(p).spec_tokens(), d)
                                && spec_closes(old(p).spec_tokens(), d + 1) {
                                r matches Ok(x) && crate::ubl_read::spec_texts(x.name) == name && match company {
                                    Some(t) => x.vat matches Some(v) && v.id@ == t,
                                    None => x.vat is None,
                                } && crate::cii_read::spec_address_option(x.address) == match address {
                                Some(texts) => Some(crate::reading::spec_address_read(texts)),
                                None => None,
                            } && final(p).spec_cursor() == d + 2
                            } else {
                                r is Err
                            },
                        },
                    }
                } else if spec_opens(old(p).spec_tokens(), old(p).spec_cursor(), Namespace::Cac, "TaxRepresentativeParty"@) && spec_filled_text(name)
                    && spec_closes(old(p).spec_tokens(), b) {
                    r matches Ok(x) && crate::ubl_read::spec_texts(x.name) == name && x.vat is None && crate::cii_read::spec_address_option(x.address) == match address {
                                Some(texts) => Some(crate::reading::spec_address_read(texts)),
                                None => None,
                            }
                        && final(p).spec_cursor() == b + 1
                } else {
                    r is Err
                },
            },
        },
{
    p.enter_group(Namespace::Cac, "TaxRepresentativeParty", "tax_representative")?;
    let name = optional_party_name(p, "name")?;
    let address = optional_address(p, "PostalAddress")?;
    let mut vat = None;
    if p.is_open(Namespace::Cac, "PartyTaxScheme") {
        vat = match read_party_tax_scheme(p)? {
            Some(PartyTaxScheme::Vat(value)) => Some(value),
            Some(PartyTaxScheme::Other(_)) => {
                return Err(Error::malformed_xml("a tax representative without a VAT scheme"));
            },
            None => None,
        };
    }
    p.leave_group()?;
    Ok(TaxRepresentative { name, vat, address })
}

/// The identifier, its scheme and the address an optional delivery location at `cursor`
/// states, and the position after it; the location absent consumes nothing. `None` when it is
/// malformed.
pub open spec fn spec_delivery_location(
    tokens: Seq<crate::token::TokenView<Namespace>>,
    cursor: int,
) -> Option<(Option<(Option<Seq<char>>, Option<Seq<char>>, Option<Seq<Option<Seq<char>>>>)>, int)> {
    if spec_opens(tokens, cursor, Namespace::Cac, "DeliveryLocation"@) {
        match spec_optional_leaf_at(tokens, cursor + 1, Namespace::Cbc, "ID"@) {
            Some((id, a)) => match spec_ubl_optional_address(tokens, a, "Address"@) {
                Some((address, b)) => {
                    let scheme = crate::reading::spec_attribute(spec_open_attributes(tokens, cursor + 1), "schemeID"@);
                    if spec_filled_text(id) && (id is Some ==> spec_filled_text(scheme)) && spec_closes(tokens, b) {
                        Some((Some((id, scheme, address)), b + 1))
                    } else {
                        None
                    }
                },
                None => None,
            },
            None => None,
        }
    } else {
        Some((None, cursor))
    }
}

/// The name an optional delivery party at `cursor` states, and the position after it; the party
/// absent consumes nothing. `None` when it is malformed.
pub open spec fn spec_delivery_party(tokens: Seq<crate::token::TokenView<Namespace>>, cursor: int) -> Option<(Option<Seq<char>>, int)> {
    if spec_opens(tokens, cursor, Namespace::Cac, "DeliveryParty"@) {
        match spec_optional_wrapped_leaf_at(tokens, cursor + 1, Namespace::Cac, "PartyName"@, Namespace::Cbc, "Name"@) {
            Some((name, end)) => if spec_filled_text(name) && spec_closes(tokens, end) {
                Some((name, end + 1))
            } else {
                None
            },
            None => None,
        }
    } else {
        Some((None, cursor))
    }
}

/// Reads the delivery information (`BG-13`).
pub fn read_delivery(p: &mut Parser<Namespace>) -> (r: Result<Delivery, Error>)
    requires
        old(p).wf(),
    ensures
        final(p).follows(old(p)),
        r is Ok ==> final(p).advanced(old(p)),
        match spec_optional_leaf_at(old(p).spec_tokens(), old(p).spec_cursor() + 1, Namespace::Cbc, "ActualDeliveryDate"@) {
            None => r is Err,
            Some((date, a)) => match spec_delivery_location(old(p).spec_tokens(), a) {
                None => r is Err,
                Some((location, b)) => match spec_delivery_party(old(p).spec_tokens(), b) {
                    None => r is Err,
                    Some((name, end)) => {
                        if spec_opens(old(p).spec_tokens(), old(p).spec_cursor(), Namespace::Cac, "Delivery"@)
                            && crate::reading::spec_read_optional_date(date) is Some && spec_closes(old(p).spec_tokens(), end) {
                            r matches Ok(x) && final(p).spec_cursor() == end + 1
                                && Some(crate::reading::spec_date_views(x.date)) == crate::reading::spec_read_optional_date(date)
                                && spec_texts(x.name) == name && match location {
                                None => x.location is None && x.address is None,
                                Some((id, scheme, address)) => (match id {
                                    Some(t) => x.location matches Some(l) && spec_texts(l.id) == Some(t) && spec_texts(l.issuer) == scheme,
                                    None => x.location is None,
                                }) && crate::cii_read::spec_address_option(x.address) == (match address {
                                    Some(texts) => Some(crate::reading::spec_address_read(texts)),
                                    None => None,
                                }),
                            }
                        } else {
                            r is Err
                        }
                    },
                },
            },
        },
{
    p.enter_group(Namespace::Cac, "Delivery", "delivery")?;
    let date = optional_date(p, "ActualDeliveryDate", "date")?;
    let mut location = None;
    let mut address = None;
    if p.is_open(Namespace::Cac, "DeliveryLocation") {
        p.enter_structural(Namespace::Cac, "DeliveryLocation")?;
        if p.is_open(Namespace::Cbc, "ID") {
            let (attributes, id) = p.leaf_attr(Namespace::Cbc, "ID", "location")?;
            let issuer = optional_attribute(&attributes, "schemeID")?;
            location = Some(LocationReference { id: Some(NonEmptyString::parse(id.as_str())?), issuer });
        }
        address = optional_address(p, "Address")?;
        p.leave_wrapper()?;
    }
    let mut name = None;
    if p.is_open(Namespace::Cac, "DeliveryParty") {
        p.enter_structural(Namespace::Cac, "DeliveryParty")?;
        name = optional_party_name(p, "name")?;
        p.leave_wrapper()?;
    }
    p.leave_group()?;
    Ok(Delivery { name, location, date, address })
}

/// Reads the payment instructions (`BG-16`).
pub fn read_payment_means(p: &mut Parser<Namespace>) -> (r: Result<PaymentInstructions, Error>)
    requires
        old(p).wf(),
    ensures
        final(p).follows(old(p)),
        r is Ok ==> final(p).advanced(old(p)),
        match spec_ubl_payment_means(old(p).spec_tokens(), old(p).spec_cursor()) {
            None => r is Err,
            Some((means, text, remittance, details, next)) => r matches Ok(x) && crate::cii_read::spec_payment_view(x) == (
                means,
                text,
                remittance,
                details,
            ) && final(p).spec_cursor() == next,
        },
{
    p.enter_group(Namespace::Cac, "PaymentMeans", "payment")?;
    let (attributes, code) = p.leaf_attr(Namespace::Cbc, "PaymentMeansCode", "means")?;
    let means = NonEmptyString::parse(code.as_str())?;
    let means_text = optional_attribute(&attributes, "name")?;
    let remittance_information = p.optional_leaf(Namespace::Cbc, "PaymentID", "remittance_information")?;
    let details = read_payment_details(p)?;
    p.leave_group()?;
    Ok(PaymentInstructions { means, means_text, remittance_information, details })
}

/// The name of the payment means code, read from the attributes of its element: absent, or a
/// text that must not be empty.
pub open spec fn spec_means_name(tokens: Seq<crate::token::TokenView<Namespace>>, cursor: int) -> Option<Option<Seq<char>>> {
    match crate::reading::spec_attribute(spec_open_attributes(tokens, cursor), "name"@) {
        None => Some(None),
        Some(v) => if v.len() > 0 {
            Some(Some(v))
        } else {
            None
        },
    }
}

/// The run of payee accounts read from a cursor on, and the position after it.
pub open spec fn spec_ubl_transfers(tokens: Seq<crate::token::TokenView<Namespace>>, cursor: int) -> Option<(Seq<(Seq<char>, Option<Seq<char>>, Option<Seq<char>>)>, int)>
    decreases tokens.len() - cursor,
{
    if spec_opens(tokens, cursor, Namespace::Cac, "PayeeFinancialAccount"@) {
        match spec_ubl_transfer(tokens, cursor) {
            None => None,
            Some((account, name, provider, next)) => if cursor < next <= tokens.len() {
                match spec_ubl_transfers(tokens, next) {
                    None => None,
                    Some((rest, end)) => Some((seq![(account, name, provider)] + rest, end)),
                }
            } else {
                None
            },
        }
    } else {
        Some((Seq::empty(), cursor))
    }
}

/// The details of a payment means read at a cursor: the payee accounts, the card or the
/// mandate, whichever opens there, and the position after them.
pub open spec fn spec_ubl_details(tokens: Seq<crate::token::TokenView<Namespace>>, cursor: int) -> Option<(crate::cii_read::PaymentDetailsView, int)> {
    if spec_opens(tokens, cursor, Namespace::Cac, "PayeeFinancialAccount"@) {
        match spec_ubl_transfers(tokens, cursor) {
            Some((transfers, next)) => Some((crate::cii_read::PaymentDetailsView::Transfers(transfers), next)),
            None => None,
        }
    } else if spec_opens(tokens, cursor, Namespace::Cac, "CardAccount"@) {
        match spec_ubl_card(tokens, cursor) {
            Some((number, holder, next)) => Some((crate::cii_read::PaymentDetailsView::Card(number, holder), next)),
            None => None,
        }
    } else if spec_opens(tokens, cursor, Namespace::Cac, "PaymentMandate"@) {
        match spec_ubl_debit(tokens, cursor) {
            Some((mandate, creditor, account, next)) => Some((crate::cii_read::PaymentDetailsView::Debit(mandate, creditor, account), next)),
            None => None,
        }
    } else {
        Some((crate::cii_read::PaymentDetailsView::Absent, cursor))
    }
}

/// The payment means read at a cursor: the means code, its name, the remittance information,
/// the details and the position after the group, when it is laid out as the reading expects.
pub open spec fn spec_ubl_payment_means(tokens: Seq<crate::token::TokenView<Namespace>>, cursor: int) -> Option<
    (Seq<char>, Option<Seq<char>>, Option<Seq<char>>, crate::cii_read::PaymentDetailsView, int),
> {
    match spec_leaf_at(tokens, cursor + 1, Namespace::Cbc, "PaymentMeansCode"@) {
        None => None,
        Some((code, after_code)) => match spec_means_name(tokens, cursor + 1) {
            None => None,
            Some(name) => match spec_optional_leaf_at(tokens, after_code, Namespace::Cbc, "PaymentID"@) {
                None => None,
                Some((remittance, after_remittance)) => match spec_ubl_details(tokens, after_remittance) {
                    None => None,
                    Some((details, after_details)) => if spec_opens(tokens, cursor, Namespace::Cac, "PaymentMeans"@)
                        && code.len() > 0 && spec_filled_text(remittance) && spec_closes(tokens, after_details) {
                        Some((code, name, remittance, details, after_details + 1))
                    } else {
                        None
                    },
                },
            },
        },
    }
}

/// Reads the details of a payment means: the payee accounts, the card or the mandate,
/// whichever opens at the cursor.
#[verifier::spinoff_prover]
pub fn read_payment_details(p: &mut Parser<Namespace>) -> (r: Result<Option<Details>, Error>)
    requires
        old(p).wf(),
    ensures
        final(p).follows(old(p)),
        r is Ok ==> final(p).restored(old(p)),
        match spec_ubl_details(old(p).spec_tokens(), old(p).spec_cursor()) {
            None => r is Err,
            Some((details, next)) => r matches Ok(x) && crate::cii_read::spec_details_view(x) == details && final(p).spec_cursor() == next,
        },
{
    if p.is_open(Namespace::Cac, "PayeeFinancialAccount") {
        let ghost start = p.spec_cursor();
        let ghost tokens = p.spec_tokens();
        let ghost before_transfers = *p;
        let mut transfers: Vec<CreditTransfer> = Vec::new();
        while p.is_open(Namespace::Cac, "PayeeFinancialAccount")
            invariant
                p.restored(&before_transfers),
                before_transfers.wf(),
                before_transfers.follows(old(p)),
                p.spec_tokens() == tokens,
                tokens == old(p).spec_tokens(),
                start == old(p).spec_cursor(),
                spec_opens(tokens, start, Namespace::Cac, "PayeeFinancialAccount"@),
                spec_ubl_transfers(tokens, start) == match spec_ubl_transfers(tokens, p.spec_cursor()) {
                    Some((rest, end)) => Some((transfers@.map_values(|t: CreditTransfer| crate::cii_read::spec_transfer_view(t)) + rest, end)),
                    None => None::<(Seq<(Seq<char>, Option<Seq<char>>, Option<Seq<char>>)>, int)>,
                },
            decreases p.spec_tokens().len() - p.spec_cursor(),
        {
            let ghost here = p.spec_cursor();
            let ghost done = transfers@.map_values(|t: CreditTransfer| crate::cii_read::spec_transfer_view(t));
            let transfer = match read_credit_transfer(p) {
                Ok(t) => t,
                Err(e) => {
                    assert(spec_ubl_transfers(tokens, here) is None);
                    return Err(e);
                },
            };
            transfers.push(transfer);
            proof {
                let v = transfers@.map_values(|t: CreditTransfer| crate::cii_read::spec_transfer_view(t));
                assert(v =~= done.push(crate::cii_read::spec_transfer_view(transfer)));
                match spec_ubl_transfers(tokens, p.spec_cursor()) {
                    Some((rest, end)) => {
                        assert(done + (seq![crate::cii_read::spec_transfer_view(transfer)] + rest) =~= v + rest);
                    },
                    None => {},
                }
            }
        }
        proof {
            assert(transfers@.map_values(|t: CreditTransfer| crate::cii_read::spec_transfer_view(t)) + Seq::<(Seq<char>, Option<Seq<char>>, Option<Seq<char>>)>::empty()
                =~= transfers@.map_values(|t: CreditTransfer| crate::cii_read::spec_transfer_view(t)));
        }
        Ok(Some(Details::CreditTransfers(transfers)))
    } else if p.is_open(Namespace::Cac, "CardAccount") {
        Ok(Some(Details::Card(read_card(p)?)))
    } else if p.is_open(Namespace::Cac, "PaymentMandate") {
        Ok(Some(Details::DirectDebit(read_direct_debit(p)?)))
    } else {
        Ok(None)
    }
}

/// One payee account read at a cursor: the account, its name, its provider and the position
/// after it, when its elements are laid out as the reading expects.
pub open spec fn spec_ubl_transfer(tokens: Seq<crate::token::TokenView<Namespace>>, cursor: int) -> Option<(Seq<char>, Option<Seq<char>>, Option<Seq<char>>, int)> {
    match spec_leaf_at(tokens, cursor + 1, Namespace::Cbc, "ID"@) {
        None => None,
        Some((account, after_account)) => match spec_optional_leaf_at(tokens, after_account, Namespace::Cbc, "Name"@) {
            None => None,
            Some((name, after_name)) => if spec_opens(tokens, after_name, Namespace::Cac, "FinancialInstitutionBranch"@) {
                match spec_optional_leaf_at(tokens, after_name + 1, Namespace::Cbc, "ID"@) {
                    None => None,
                    Some((provider, after_provider)) => if spec_opens(tokens, cursor, Namespace::Cac, "PayeeFinancialAccount"@)
                        && account.len() > 0 && spec_filled_text(name) && spec_filled_text(provider)
                        && spec_closes(tokens, after_provider) && spec_closes(tokens, after_provider + 1) {
                        Some((account, name, provider, after_provider + 2))
                    } else {
                        None
                    },
                }
            } else if spec_opens(tokens, cursor, Namespace::Cac, "PayeeFinancialAccount"@) && account.len() > 0
                && spec_filled_text(name) && spec_closes(tokens, after_name) {
                Some((account, name, None, after_name + 1))
            } else {
                None
            },
        },
    }
}

/// Reads one credit transfer (`BG-17`).
pub fn read_credit_transfer(p: &mut Parser<Namespace>) -> (r: Result<CreditTransfer, Error>)
    requires
        old(p).wf(),
    ensures
        final(p).follows(old(p)),
        r is Ok ==> final(p).advanced(old(p)),
        match spec_ubl_transfer(old(p).spec_tokens(), old(p).spec_cursor()) {
            None => r is Err,
            Some((account, name, provider, next)) => r matches Ok(x) && crate::cii_read::spec_transfer_view(x) == (account, name, provider)
                && final(p).spec_cursor() == next,
        },
{
    p.enter_structural(Namespace::Cac, "PayeeFinancialAccount")?;
    let text = p.leaf(Namespace::Cbc, "ID", "account")?;
    let account = NonEmptyString::parse(text.as_str())?;
    let account_name = p.optional_leaf(Namespace::Cbc, "Name", "account_name")?;
    let mut provider = None;
    if p.is_open(Namespace::Cac, "FinancialInstitutionBranch") {
        p.enter_structural(Namespace::Cac, "FinancialInstitutionBranch")?;
        provider = p.optional_leaf(Namespace::Cbc, "ID", "provider")?;
        p.leave_wrapper()?;
    }
    p.leave_wrapper()?;
    Ok(CreditTransfer { account, account_name, provider })
}

/// The payment card read at a cursor: its number, its holder and the position after it.
pub open spec fn spec_ubl_card(tokens: Seq<crate::token::TokenView<Namespace>>, cursor: int) -> Option<(Seq<char>, Option<Seq<char>>, int)> {
    match spec_leaf_at(tokens, cursor + 1, Namespace::Cbc, "PrimaryAccountNumberID"@) {
        None => None,
        Some((number, after_number)) => match spec_optional_leaf_at(tokens, after_number, Namespace::Cbc, "HolderName"@) {
            None => None,
            Some((holder, after_holder)) => if spec_opens(tokens, cursor, Namespace::Cac, "CardAccount"@)
                && number.len() > 0 && spec_filled_text(holder) && spec_closes(tokens, after_holder) {
                Some((number, holder, after_holder + 1))
            } else {
                None
            },
        },
    }
}

/// Reads the payment card information (`BG-18`).
pub fn read_card(p: &mut Parser<Namespace>) -> (r: Result<PaymentCard, Error>)
    requires
        old(p).wf(),
    ensures
        final(p).follows(old(p)),
        r is Ok ==> final(p).advanced(old(p)),
        match spec_ubl_card(old(p).spec_tokens(), old(p).spec_cursor()) {
            None => r is Err,
            Some((number, holder, next)) => r matches Ok(card) && card.primary_account_number@ == number
                && crate::ubl_read::spec_texts(card.holder_name) == holder && final(p).spec_cursor() == next,
        },
{
    p.enter_structural(Namespace::Cac, "CardAccount")?;
    let text = p.leaf(Namespace::Cbc, "PrimaryAccountNumberID", "primary_account_number")?;
    let primary_account_number = NonEmptyString::parse(text.as_str())?;
    let holder_name = p.optional_leaf(Namespace::Cbc, "HolderName", "holder_name")?;
    p.leave_wrapper()?;
    Ok(PaymentCard { primary_account_number, holder_name })
}

/// The direct debit read at a cursor: its mandate, its creditor, the debited account and the
/// position after it.
pub open spec fn spec_ubl_debit(tokens: Seq<crate::token::TokenView<Namespace>>, cursor: int) -> Option<(Option<Seq<char>>, Option<Seq<char>>, Option<Seq<char>>, int)> {
    match spec_optional_leaf_at(tokens, cursor + 1, Namespace::Cbc, "ID"@) {
        None => None,
        Some((mandate, after_mandate)) => match spec_optional_leaf_at(tokens, after_mandate, Namespace::Cbc, "PayerPartyID"@) {
            None => None,
            Some((creditor, after_creditor)) => if spec_opens(tokens, after_creditor, Namespace::Cac, "PayerFinancialAccount"@) {
                match spec_optional_leaf_at(tokens, after_creditor + 1, Namespace::Cbc, "ID"@) {
                    None => None,
                    Some((account, after_account)) => if spec_opens(tokens, cursor, Namespace::Cac, "PaymentMandate"@)
                        && spec_filled_text(mandate) && spec_filled_text(creditor) && spec_filled_text(account)
                        && spec_closes(tokens, after_account) && spec_closes(tokens, after_account + 1) {
                        Some((mandate, creditor, account, after_account + 2))
                    } else {
                        None
                    },
                }
            } else if spec_opens(tokens, cursor, Namespace::Cac, "PaymentMandate"@) && spec_filled_text(mandate)
                && spec_filled_text(creditor) && spec_closes(tokens, after_creditor) {
                Some((mandate, creditor, None, after_creditor + 1))
            } else {
                None
            },
        },
    }
}

/// Reads the direct debit (`BG-19`).
pub fn read_direct_debit(p: &mut Parser<Namespace>) -> (r: Result<DirectDebit, Error>)
    requires
        old(p).wf(),
    ensures
        final(p).follows(old(p)),
        r is Ok ==> final(p).advanced(old(p)),
        match spec_ubl_debit(old(p).spec_tokens(), old(p).spec_cursor()) {
            None => r is Err,
            Some((mandate, creditor, account, next)) => r matches Ok(debit) && crate::ubl_read::spec_texts(debit.mandate_reference) == mandate
                && crate::ubl_read::spec_texts(debit.creditor_identifier) == creditor && crate::ubl_read::spec_texts(debit.debited_account) == account
                && final(p).spec_cursor() == next,
        },
{
    p.enter_structural(Namespace::Cac, "PaymentMandate")?;
    let mandate = p.optional_leaf(Namespace::Cbc, "ID", "mandate_reference")?;
    let creditor = p.optional_leaf(Namespace::Cbc, "PayerPartyID", "creditor_identifier")?;
    let mut debited_account = None;
    if p.is_open(Namespace::Cac, "PayerFinancialAccount") {
        p.enter_structural(Namespace::Cac, "PayerFinancialAccount")?;
        debited_account = p.optional_leaf(Namespace::Cbc, "ID", "debited_account")?;
        p.leave_wrapper()?;
    }
    p.leave_wrapper()?;
    Ok(DirectDebit { mandate_reference: mandate, creditor_identifier: creditor, debited_account })
}

/// The rate and the value of an adjustment amount as read from the texts of its factor, its
/// amount and its base: relative with the rate and the base when the factor and the base are
/// stated, absolute with the amount otherwise; `None` when a text is malformed.
pub open spec fn spec_ubl_amount(
    factor: Option<Seq<char>>,
    amount: Seq<char>,
    base: Option<Seq<char>>,
) -> Option<(Option<crate::decimal::DecimalView>, crate::decimal::DecimalView)> {
    if crate::reading::spec_decimal_value(amount) is None || (base matches Some(b) && crate::reading::spec_decimal_value(b) is None) {
        None
    } else if factor is Some && base is Some {
        match crate::vat::spec_rate_text(factor->Some_0) {
            Some(rate) => Some((Some(rate), crate::reading::spec_decimal_value(base->Some_0)->Some_0)),
            None => None,
        }
    } else {
        Some((None, crate::reading::spec_decimal_value(amount)->Some_0))
    }
}

/// Reads one document-level allowance or charge (`BG-20`/`BG-21`).
pub fn read_adjustment(p: &mut Parser<Namespace>, instance: usize) -> (r: Result<Adjustment, Error>)
    requires
        old(p).wf(),
    ensures
        final(p).follows(old(p)),
        r is Ok ==> final(p).advanced(old(p)),
        match spec_leaf_at(old(p).spec_tokens(), old(p).spec_cursor() + 1, Namespace::Cbc, "ChargeIndicator"@) {
            None => r is Err,
            Some((flag, a)) => match spec_optional_leaf_at(old(p).spec_tokens(), a, Namespace::Cbc, "AllowanceChargeReasonCode"@) {
                None => r is Err,
                Some((code, b)) => match spec_optional_leaf_at(old(p).spec_tokens(), b, Namespace::Cbc, "AllowanceChargeReason"@) {
                    None => r is Err,
                    Some((text, c)) => match spec_optional_leaf_at(old(p).spec_tokens(), c, Namespace::Cbc, "MultiplierFactorNumeric"@) {
                        None => r is Err,
                        Some((factor, d)) => match spec_leaf_at(old(p).spec_tokens(), d, Namespace::Cbc, "Amount"@) {
                            None => r is Err,
                            Some((amount, e)) => match spec_optional_leaf_at(old(p).spec_tokens(), e, Namespace::Cbc, "BaseAmount"@) {
                                None => r is Err,
                                Some((base, f)) => match spec_leaf_at(old(p).spec_tokens(), f + 1, Namespace::Cbc, "ID"@) {
                                    None => r is Err,
                                    Some((category, g)) => match spec_leaf_at(old(p).spec_tokens(), g, Namespace::Cbc, "Percent"@) {
                                        None => r is Err,
                                        Some((percent, h)) => match spec_leaf_at(old(p).spec_tokens(), h + 1, Namespace::Cbc, "ID"@) {
                                            None => r is Err,
                                            Some((_, k)) => if spec_opens(old(p).spec_tokens(), old(p).spec_cursor(), Namespace::Cac, "AllowanceCharge"@)
                                    && spec_ubl_amount(factor, amount, base) is Some && spec_filled_text(code)
                                    && spec_filled_text(text)
                                                && spec_opens(old(p).spec_tokens(), f, Namespace::Cac, "TaxCategory"@)
                                                && crate::vat::spec_known_category(category)
                                                && crate::vat::spec_rate_text(percent) is Some
                                                && spec_opens(old(p).spec_tokens(), h, Namespace::Cac, "TaxScheme"@)
                                                && spec_closes(old(p).spec_tokens(), k) && spec_closes(old(p).spec_tokens(), k + 1) && spec_closes(old(p).spec_tokens(), k + 2) {
                                                r matches Ok(x) && crate::cii_read::spec_amount_view(x.amount) == spec_ubl_amount(factor, amount, base)->Some_0
                                        && crate::cii_read::spec_reason_view(x.reason) == (crate::text::spec_trim(flag) == "true"@, code, text)
                                                    && crate::vat::spec_treatment_is(x.vat, category, crate::vat::spec_rate_text(percent)->Some_0)
                                                    && final(p).spec_cursor() == k + 3
                                            } else {
                                                r is Err
                                            },
                                        },
                                    },
                                },
                            },
                        },
                    },
                },
            },
        },
{
    p.enter_repeatable(Namespace::Cac, "AllowanceCharge", "adjustments", instance)?;
    let charge = read_charge_indicator(p)?;
    let reason = read_reason(p, charge)?;
    let amount = read_adjustment_amount(p)?;
    let vat = read_tax_category(p)?;
    p.leave_group()?;
    Ok(Adjustment { amount, vat, reason })
}

/// Reads the charge indicator of an adjustment: `true` for a charge.
pub fn read_charge_indicator(p: &mut Parser<Namespace>) -> (r: Result<bool, Error>)
    requires
        old(p).wf(),
    ensures
        final(p).follows(old(p)),
        r is Ok ==> final(p).restored(old(p)),
        match spec_leaf_at(old(p).spec_tokens(), old(p).spec_cursor(), Namespace::Cbc, "ChargeIndicator"@) {
            Some((t, next)) => r matches Ok(b) && b == (crate::text::spec_trim(t) == "true"@)
                && final(p).spec_cursor() == next,
            None => r is Err,
        },
{
    let (_, text) = p.derived(Namespace::Cbc, "ChargeIndicator")?;
    Ok(str_eq(trim(text.as_str()), "true"))
}

/// Reads the reason code and text of an adjustment, in the direction of its indicator.
pub fn read_reason(p: &mut Parser<Namespace>, charge: bool) -> (r: Result<Reason, Error>)
    requires
        old(p).wf(),
    ensures
        final(p).follows(old(p)),
        r is Ok ==> final(p).restored(old(p)),
        r matches Ok(reason) ==> (reason is Charge <==> charge),
        match spec_optional_leaf_at(old(p).spec_tokens(), old(p).spec_cursor(), Namespace::Cbc, "AllowanceChargeReasonCode"@) {
            None => r is Err,
            Some((code, after_code)) => match spec_optional_leaf_at(old(p).spec_tokens(), after_code, Namespace::Cbc, "AllowanceChargeReason"@) {
                None => r is Err,
                Some((text, after_text)) => if spec_filled_text(code) && spec_filled_text(text) {
                    r matches Ok(reason) && final(p).spec_cursor() == after_text && match reason {
                        Reason::Allowance { code: c, text: t } | Reason::Charge { code: c, text: t } =>
                            crate::ubl_read::spec_texts(c) == code && crate::ubl_read::spec_texts(t) == text,
                    }
                } else {
                    r is Err
                },
            },
        },
{
    let code = if p.is_open(Namespace::Cbc, "AllowanceChargeReasonCode") {
        let (_, text) = p.derived(Namespace::Cbc, "AllowanceChargeReasonCode")?;
        Some(NonEmptyString::parse(text.as_str())?)
    } else {
        None
    };
    let text = if p.is_open(Namespace::Cbc, "AllowanceChargeReason") {
        let (_, text) = p.derived(Namespace::Cbc, "AllowanceChargeReason")?;
        Some(NonEmptyString::parse(text.as_str())?)
    } else {
        None
    };
    if charge {
        Ok(Reason::Charge { code, text })
    } else {
        Ok(Reason::Allowance { code, text })
    }
}

/// Reads the amount of an adjustment: relative when a factor and a base are stated,
/// absolute otherwise.
pub fn read_adjustment_amount(p: &mut Parser<Namespace>) -> (r: Result<Amount, Error>)
    requires
        old(p).wf(),
    ensures
        final(p).follows(old(p)),
        r is Ok ==> final(p).restored(old(p)),
        match spec_optional_leaf_at(old(p).spec_tokens(), old(p).spec_cursor(), Namespace::Cbc, "MultiplierFactorNumeric"@) {
            None => r is Err,
            Some((factor, after_factor)) => match spec_leaf_at(old(p).spec_tokens(), after_factor, Namespace::Cbc, "Amount"@) {
                None => r is Err,
                Some((amount, after_amount)) => match spec_optional_leaf_at(old(p).spec_tokens(), after_amount, Namespace::Cbc, "BaseAmount"@) {
                    None => r is Err,
                    Some((base, after_base)) => if crate::reading::spec_decimal_value(amount) is None || (base matches Some(b)
                        && crate::reading::spec_decimal_value(b) is None) {
                        r is Err
                    } else if factor is Some && base is Some {
                        if crate::vat::spec_rate_text(factor->Some_0) is Some {
                            r matches Ok(Amount::Relative { rate, base: b }) && rate@ == crate::vat::spec_rate_text(
                                factor->Some_0,
                            )->Some_0 && Some(b@) == crate::reading::spec_decimal_value(base->Some_0)
                                && final(p).spec_cursor() == after_base
                        } else {
                            r is Err
                        }
                    } else {
                        r matches Ok(Amount::Absolute(a)) && Some(a@) == crate::reading::spec_decimal_value(amount)
                            && final(p).spec_cursor() == after_base
                    },
                },
            },
        },
{
    let factor = p.optional_text(Namespace::Cbc, "MultiplierFactorNumeric", "amount")?;
    let text = p.leaf(Namespace::Cbc, "Amount", "amount")?;
    let amount = parse_decimal(text.as_str())?;
    let base = match p.optional_text(Namespace::Cbc, "BaseAmount", "amount")? {
        Some(text) => Some(parse_decimal(text.as_str())?),
        None => None,
    };
    match (factor, base) {
        (Some(factor), Some(base)) => Ok(Amount::Relative { rate: parse_percentage(factor.as_str())?, base }),
        _ => Ok(Amount::Absolute(amount)),
    }
}

/// Reads an allowance or charge VAT category.
pub fn read_tax_category(p: &mut Parser<Namespace>) -> (r: Result<VatTreatment, Error>)
    requires
        old(p).wf(),
    ensures
        final(p).follows(old(p)),
        r is Ok ==> final(p).restored(old(p)),
        match spec_leaf_at(old(p).spec_tokens(), old(p).spec_cursor() + 1, Namespace::Cbc, "ID"@) {
            None => r is Err,
            Some((code, after_code)) => match spec_leaf_at(old(p).spec_tokens(), after_code, Namespace::Cbc, "Percent"@) {
                None => r is Err,
                Some((percent, after_percent)) => match spec_leaf_at(old(p).spec_tokens(), after_percent + 1, Namespace::Cbc, "ID"@) {
                    None => r is Err,
                    Some((_, after_scheme)) => if spec_opens(old(p).spec_tokens(), old(p).spec_cursor(), Namespace::Cac, "TaxCategory"@)
                        && crate::vat::spec_known_category(code) && crate::vat::spec_rate_text(percent) is Some
                        && spec_opens(old(p).spec_tokens(), after_percent, Namespace::Cac, "TaxScheme"@)
                        && spec_closes(old(p).spec_tokens(), after_scheme) && spec_closes(old(p).spec_tokens(), after_scheme + 1) {
                        r matches Ok(t) && crate::vat::spec_treatment_is(t, code, crate::vat::spec_rate_text(percent)->Some_0)
                            && final(p).spec_cursor() == after_scheme + 2
                    } else {
                        r is Err
                    },
                },
            },
        },
{
    p.enter_nested(Namespace::Cac, "TaxCategory")?;
    let (_, code) = p.derived(Namespace::Cbc, "ID")?;
    let category = VatCategory::parse(code.as_str())?;
    let (_, percent) = p.derived(Namespace::Cbc, "Percent")?;
    let rate = parse_percentage(percent.as_str())?;
    p.enter_nested(Namespace::Cac, "TaxScheme")?;
    p.derived(Namespace::Cbc, "ID")?;
    p.leave_wrapper()?;
    p.leave_wrapper()?;
    VatTreatment::from_parts(category, Some(rate), None, None)
}

/// The exemption reason of the exempt VAT group of the breakdown, which the lines and the
/// adjustments take over: UBL states it with the breakdown only.
pub struct Exemption {
    pub reason: Option<(Option<ExemptionReason>, Option<NonEmptyString>)>,
}

/// A treatment with the exemption reason filled in, when it is exempt.
pub fn fill_exemption(vat: VatTreatment, exemption: &Exemption) -> (r: VatTreatment)
    ensures
        spec_filled(vat, r, *exemption),
{
    match (vat, &exemption.reason) {
        (VatTreatment::Exempt { .. }, Some((code, text))) => VatTreatment::Exempt {
            code: *code,
            text: match text {
                Some(t) => Some(t.copy()),
                None => None,
            },
        },
        (vat, _) => vat,
    }
}

/// The characters of an optional text.
pub open spec fn spec_texts(text: Option<NonEmptyString>) -> Option<Seq<char>> {
    match text {
        Some(t) => Some(t@),
        None => None,
    }
}

/// Whether `after` is `before` with the exemption reason filled in: an exempt treatment takes
/// the code and the text of the reason when there is one; any other treatment stays.
pub open spec fn spec_filled(before: VatTreatment, after: VatTreatment, exemption: Exemption) -> bool {
    match (before, exemption.reason) {
        (VatTreatment::Exempt { .. }, Some((code, text))) => after matches VatTreatment::Exempt { code: c, text: t }
            && c == code && spec_texts(t) == spec_texts(text),
        _ => after == before,
    }
}

/// The adjustments with the exemption reason filled into their exempt treatments.
pub fn apply_exemption(adjustments: Vec<Adjustment>, exemption: &Exemption) -> (r: Vec<Adjustment>)
    ensures
        r@.len() == adjustments@.len(),
        forall|i: int| 0 <= i < r@.len() ==> {
            &&& (#[trigger] r@[i]).amount == adjustments@[i].amount
            &&& r@[i].reason == adjustments@[i].reason
            &&& spec_filled(adjustments@[i].vat, r@[i].vat, *exemption)
        },
{
    let ghost original = adjustments@;
    let mut remaining = adjustments;
    let mut filled: Vec<Adjustment> = Vec::new();
    proof {
        assert(remaining@ =~= original.skip(0));
    }
    while remaining.len() > 0
        invariant
            filled@.len() <= original.len(),
            remaining@ =~= original.skip(filled@.len() as int),
            forall|i: int| 0 <= i < filled@.len() ==> {
                &&& (#[trigger] filled@[i]).amount == original[i].amount
                &&& filled@[i].reason == original[i].reason
                &&& spec_filled(original[i].vat, filled@[i].vat, *exemption)
            },
        decreases remaining@.len(),
    {
        let ghost k = filled@.len() as int;
        let adjustment = remaining.remove(0);
        assert(adjustment == original[k]);
        filled.push(Adjustment {
            amount: adjustment.amount,
            vat: fill_exemption(adjustment.vat, exemption),
            reason: adjustment.reason,
        });
        assert(remaining@ =~= original.skip(k + 1));
    }
    filled
}

/// Reads the tax totals and the legal monetary total into the invoice, giving the exemption
/// reason the breakdown states.
pub fn read_totals(
    p: &mut Parser<Namespace>,
    invoice: &mut Invoice,
    accounting_currency: Option<crate::values::Currency>,
) -> (r: Result<Exemption, Error>)
    requires
        old(p).wf(),
    ensures
        final(p).follows(old(p)),
        r is Ok ==> final(p).restored(old(p)),
        r is Ok ==> spec_refs_of(*final(invoice)) == spec_refs_of(*old(invoice)),
        r is Ok ==> spec_documents_of(*final(invoice)) == spec_documents_of(*old(invoice)),
        r is Ok ==> final(invoice).seller == old(invoice).seller && final(invoice).buyer == old(invoice).buyer,
        r is Ok ==> final(invoice).payee == old(invoice).payee && final(invoice).tax_representative == old(invoice).tax_representative,
        r is Ok ==> final(invoice).delivery == old(invoice).delivery && final(invoice).payment == old(invoice).payment
            && final(invoice).payment_terms == old(invoice).payment_terms,
{
    let mut exemption = Exemption { reason: None };
    if p.is_open(Namespace::Cac, "TaxTotal") {
        p.enter_structural(Namespace::Cac, "TaxTotal")?;
        if let Some(text) = p.optional_text(Namespace::Cbc, "TaxAmount", "vat_total")? {
            invoice.vat_total = Some(parse_decimal(text.as_str())?);
        }
        let ghost before_breakdown = *p;
        let mut breakdown: Vec<VatBreakdown> = Vec::new();
        while p.is_open(Namespace::Cac, "TaxSubtotal")
            invariant
                p.restored(&before_breakdown),
                before_breakdown.wf(),
                before_breakdown.follows(old(p)),
                breakdown@.len() <= p.spec_cursor() - before_breakdown.spec_cursor(),
                spec_refs_of(*invoice) == spec_refs_of(*old(invoice)),
                spec_documents_of(*invoice) == spec_documents_of(*old(invoice)),
                invoice.seller == old(invoice).seller && invoice.buyer == old(invoice).buyer,
                invoice.payee == old(invoice).payee && invoice.tax_representative == old(invoice).tax_representative,
                invoice.delivery == old(invoice).delivery && invoice.payment == old(invoice).payment
                    && invoice.payment_terms == old(invoice).payment_terms,
            decreases p.spec_tokens().len() - p.spec_cursor(),
        {
            let group = read_breakdown_group(p, breakdown.len() + 1)?;
            if let Some(VatTreatment::Exempt { code, text }) = &group.treatment {
                exemption.reason = Some((*code, match text {
                    Some(t) => Some(t.copy()),
                    None => None,
                }));
            }
            breakdown.push(group);
        }
        invoice.vat_breakdown = breakdown;
        p.leave_wrapper()?;
    }
    if p.is_open(Namespace::Cac, "TaxTotal") {
        p.enter_structural(Namespace::Cac, "TaxTotal")?;
        let value = match p.optional_text(Namespace::Cbc, "TaxAmount", "vat_accounting_total")? {
            Some(text) => Some(parse_decimal(text.as_str())?),
            None => None,
        };
        p.leave_wrapper()?;
        invoice.vat_accounting_total = match (accounting_currency, value) {
            (Some(currency), Some(value)) => Some(AccountingTotal { currency, value }),
            _ => None,
        };
    }
    if p.is_open(Namespace::Cac, "LegalMonetaryTotal") {
        read_legal_monetary_total(p, invoice)?;
    }
    Ok(exemption)
}

/// The category code, rate, exemption code and exemption text a tax category at `cursor` states
/// (the rate zero when unstated), and the position after it; `None` when it is malformed.
pub open spec fn spec_ubl_category_at(
    tokens: Seq<crate::token::TokenView<Namespace>>,
    cursor: int,
) -> Option<(Option<Seq<char>>, crate::decimal::DecimalView, Option<Seq<char>>, Option<Seq<char>>, int)> {
    match spec_optional_leaf_at(tokens, cursor + 1, Namespace::Cbc, "ID"@) {
        None => None,
        Some((category, a)) => match spec_optional_leaf_at(tokens, a, Namespace::Cbc, "Percent"@) {
            None => None,
            Some((percent, b)) => match spec_optional_leaf_at(tokens, b, Namespace::Cbc, "TaxExemptionReasonCode"@) {
                None => None,
                Some((code, c)) => match spec_optional_leaf_at(tokens, c, Namespace::Cbc, "TaxExemptionReason"@) {
                    None => None,
                    Some((text, d)) => match spec_optional_wrapped_leaf_at(tokens, d, Namespace::Cac, "TaxScheme"@, Namespace::Cbc, "ID"@) {
                        None => None,
                        Some((_, e)) => {
                            let rate = match percent {
                                Some(t) => crate::vat::spec_rate_text(t),
                                None => Some(crate::decimal::DecimalView { mantissa: 0, scale: 0 }),
                            };
                            if spec_opens(tokens, cursor, Namespace::Cac, "TaxCategory"@)
                                && (category matches Some(k) ==> crate::vat::spec_known_category(k)) && rate is Some
                                && (code matches Some(k) ==> exists|x: ExemptionReason| crate::exemption_reason::spec_exemption_code(x) == k)
                                && spec_filled_text(text) && spec_closes(tokens, e) {
                                Some((category, rate->Some_0, code, text, e + 1))
                            } else {
                                None
                            }
                        },
                    },
                },
            },
        },
    }
}

/// Whether a treatment is the one a tax category states: none without a category code.
pub open spec fn spec_treatment_read(
    treatment: Option<VatTreatment>,
    category: Option<Seq<char>>,
    rate: crate::decimal::DecimalView,
    code: Option<Seq<char>>,
    text: Option<Seq<char>>,
) -> bool {
    match category {
        None => treatment is None,
        Some(k) => treatment matches Some(t) && crate::vat::spec_treatment_is(t, k, rate) && (t matches VatTreatment::Exempt { code: c, text: x } ==> spec_texts(x) == text && match code {
            Some(ct) => c matches Some(reason) && crate::exemption_reason::spec_exemption_code(reason) == ct,
            None => c is None,
        }),
    }
}

/// Reads one group of the VAT breakdown (`BG-23`).
pub fn read_breakdown_group(p: &mut Parser<Namespace>, instance: usize) -> (r: Result<VatBreakdown, Error>)
    requires
        old(p).wf(),
    ensures
        final(p).follows(old(p)),
        r is Ok ==> final(p).advanced(old(p)),
        match spec_optional_leaf_at(old(p).spec_tokens(), old(p).spec_cursor() + 1, Namespace::Cbc, "TaxableAmount"@) {
            None => r is Err,
            Some((taxable, a)) => match spec_optional_leaf_at(old(p).spec_tokens(), a, Namespace::Cbc, "TaxAmount"@) {
                None => r is Err,
                Some((tax, b)) => {
                    let categorised = spec_opens(old(p).spec_tokens(), b, Namespace::Cac, "TaxCategory"@);
                    let category = spec_ubl_category_at(old(p).spec_tokens(), b);
                    if spec_opens(old(p).spec_tokens(), old(p).spec_cursor(), Namespace::Cac, "TaxSubtotal"@)
                        && crate::cii_read::spec_optional_decimal(taxable) is Some
                        && crate::cii_read::spec_optional_decimal(tax) is Some
                        && (categorised ==> (category is Some && spec_closes(old(p).spec_tokens(), category->Some_0.4)))
                        && (!categorised ==> spec_closes(old(p).spec_tokens(), b)) {
                        r matches Ok(x) && Some(crate::cii_read::spec_decimal_option(x.taxable))
                            == crate::cii_read::spec_optional_decimal(taxable) && Some(crate::cii_read::spec_decimal_option(x.tax))
                            == crate::cii_read::spec_optional_decimal(tax) && (categorised ==> spec_treatment_read(
                            x.treatment,
                            category->Some_0.0,
                            category->Some_0.1,
                            category->Some_0.2,
                            category->Some_0.3,
                        ) && final(p).spec_cursor() == category->Some_0.4 + 1) && (!categorised ==> x.treatment is None
                            && final(p).spec_cursor() == b + 1)
                    } else {
                        r is Err
                    }
                },
            },
        },
{
    p.enter_repeatable(Namespace::Cac, "TaxSubtotal", "vat_breakdown", instance)?;
    let taxable = match p.optional_text(Namespace::Cbc, "TaxableAmount", "taxable")? {
        Some(text) => Some(parse_decimal(text.as_str())?),
        None => None,
    };
    let tax = match p.optional_text(Namespace::Cbc, "TaxAmount", "tax")? {
        Some(text) => Some(parse_decimal(text.as_str())?),
        None => None,
    };
    let treatment = if p.is_open(Namespace::Cac, "TaxCategory") {
        read_breakdown_category(p)?
    } else {
        None
    };
    p.leave_group()?;
    Ok(VatBreakdown { taxable, tax, treatment })
}

/// Reads the VAT category of a breakdown group, absent without the category code;
/// an unstated rate reads as zero.
pub fn read_breakdown_category(p: &mut Parser<Namespace>) -> (r: Result<Option<VatTreatment>, Error>)
    requires
        old(p).wf(),
    ensures
        final(p).follows(old(p)),
        r is Ok ==> final(p).restored(old(p)),
        match spec_optional_leaf_at(old(p).spec_tokens(), old(p).spec_cursor() + 1, Namespace::Cbc, "ID"@) {
            None => r is Err,
            Some((category, a)) => match spec_optional_leaf_at(old(p).spec_tokens(), a, Namespace::Cbc, "Percent"@) {
                None => r is Err,
                Some((percent, b)) => match spec_optional_leaf_at(old(p).spec_tokens(), b, Namespace::Cbc, "TaxExemptionReasonCode"@) {
                    None => r is Err,
                    Some((code, c)) => match spec_optional_leaf_at(old(p).spec_tokens(), c, Namespace::Cbc, "TaxExemptionReason"@) {
                        None => r is Err,
                        Some((text, d)) => match spec_optional_wrapped_leaf_at(
                            old(p).spec_tokens(),
                            d,
                            Namespace::Cac,
                            "TaxScheme"@,
                            Namespace::Cbc,
                            "ID"@,
                        ) {
                            None => r is Err,
                            Some((_, e)) => {
                                let rate = match percent {
                                    Some(t) => crate::vat::spec_rate_text(t),
                                    None => Some(crate::decimal::DecimalView { mantissa: 0, scale: 0 }),
                                };
                                if spec_opens(old(p).spec_tokens(), old(p).spec_cursor(), Namespace::Cac, "TaxCategory"@)
                                    && (category matches Some(k) ==> crate::vat::spec_known_category(k)) && rate is Some
                                    && (code matches Some(k) ==> exists|x: ExemptionReason| crate::exemption_reason::spec_exemption_code(x) == k)
                                    && spec_filled_text(text) && spec_closes(old(p).spec_tokens(), e) {
                                    final(p).spec_cursor() == e + 1 && match category {
                                        None => r matches Ok(None),
                                        Some(k) => r matches Ok(Some(t)) && crate::vat::spec_treatment_is(t, k, rate->Some_0)
                                            && (t matches VatTreatment::Exempt { code: c, text: x } ==> crate::ubl_read::spec_texts(x) == text && match code {
                                                Some(ct) => c matches Some(reason) && crate::exemption_reason::spec_exemption_code(reason) == ct,
                                                None => c is None,
                                            }),
                                    }
                                } else {
                                    r is Err
                                }
                            },
                        },
                    },
                },
            },
        },
{
    proof {
        vstd::arithmetic::power::lemma_pow0(10);
    }
    p.enter_group(Namespace::Cac, "TaxCategory", "treatment")?;
    let category = match p.optional_derived(Namespace::Cbc, "ID")? {
        Some((_, text)) => Some(VatCategory::parse(text.as_str())?),
        None => None,
    };
    let rate = match p.optional_derived(Namespace::Cbc, "Percent")? {
        Some((_, text)) => parse_percentage(text.as_str())?,
        None => Percentage::try_from(Decimal::zero())?,
    };
    let code = if p.is_open(Namespace::Cbc, "TaxExemptionReasonCode") {
        let (_, text) = p.derived(Namespace::Cbc, "TaxExemptionReasonCode")?;
        Some(ExemptionReason::parse(text.as_str())?)
    } else {
        None
    };
    let text = if p.is_open(Namespace::Cbc, "TaxExemptionReason") {
        let (_, text) = p.derived(Namespace::Cbc, "TaxExemptionReason")?;
        Some(NonEmptyString::parse(text.as_str())?)
    } else {
        None
    };
    if p.is_open(Namespace::Cac, "TaxScheme") {
        p.enter_nested(Namespace::Cac, "TaxScheme")?;
        p.optional_derived(Namespace::Cbc, "ID")?;
        p.leave_wrapper()?;
    }
    p.leave_group()?;
    match category {
        None => Ok(None),
        Some(category) => Ok(Some(VatTreatment::from_parts(category, Some(rate), code, text)?)),
    }
}

/// Reads one amount of the legal monetary total into its field of the invoice; an element
/// of no known amount is read and dropped.
pub fn read_monetary_amount(p: &mut Parser<Namespace>, invoice: &mut Invoice, name: &str) -> (r: Result<(), Error>)
    requires
        old(p).wf(),
    ensures
        final(p).follows(old(p)),
        r is Ok ==> final(p).restored(old(p)),
        r is Ok ==> final(p).spec_cursor() > old(p).spec_cursor() || !crate::parser::spec_opens(
            old(p).spec_tokens(),
            old(p).spec_cursor(),
            Namespace::Cbc,
            name@,
        ),
        ({
            let field = if name@ == "LineExtensionAmount"@ {
            Some("line_net_total"@)
        } else if name@ == "TaxExclusiveAmount"@ {
            Some("net_total"@)
        } else if name@ == "TaxInclusiveAmount"@ {
            Some("gross_total"@)
        } else if name@ == "AllowanceTotalAmount"@ {
            Some("allowances_total"@)
        } else if name@ == "ChargeTotalAmount"@ {
            Some("charges_total"@)
        } else if name@ == "PrepaidAmount"@ {
            Some("paid"@)
        } else if name@ == "PayableRoundingAmount"@ {
            Some("rounding"@)
        } else if name@ == "PayableAmount"@ {
            Some("due"@)
        } else {
                None::<Seq<char>>
            };
            match spec_leaf_at(old(p).spec_tokens(), old(p).spec_cursor(), Namespace::Cbc, name@) {
                None => r is Err,
                Some((text, next)) => match field {
                    None => r is Ok && *final(invoice) == *old(invoice) && final(p).spec_cursor() == next,
                    Some(f) => match crate::reading::spec_decimal_value(text) {
                        Some(v) => r is Ok && crate::reading::spec_with_total(*old(invoice), *final(invoice), f, v)
                            && final(p).spec_cursor() == next,
                        None => r is Err,
                    },
                },
            }
        }),
{
    proof {
        reveal_strlit("line_net_total");
        assert("line_net_total"@.len() == 14);
        reveal_strlit("LineExtensionAmount");
        reveal_strlit("TaxExclusiveAmount");
        reveal_strlit("TaxInclusiveAmount");
        reveal_strlit("AllowanceTotalAmount");
        reveal_strlit("ChargeTotalAmount");
        reveal_strlit("PrepaidAmount");
        reveal_strlit("PayableRoundingAmount");
        reveal_strlit("PayableAmount");
        reveal_strlit("vat_total");
        assert("vat_total"@.len() == 9);
        reveal_strlit("net_total");
        assert("net_total"@.len() == 9);
        reveal_strlit("gross_total");
        assert("gross_total"@.len() == 11);
        reveal_strlit("allowances_total");
        assert("allowances_total"@.len() == 16);
        reveal_strlit("charges_total");
        assert("charges_total"@.len() == 13);
        reveal_strlit("paid");
        assert("paid"@.len() == 4);
        reveal_strlit("rounding");
        assert("rounding"@.len() == 8);
        reveal_strlit("due");
        assert("due"@.len() == 3);
    }
    let field: &'static str = if str_eq(name, "LineExtensionAmount") {
        "line_net_total"
    } else if str_eq(name, "TaxExclusiveAmount") {
        "net_total"
    } else if str_eq(name, "TaxInclusiveAmount") {
        "gross_total"
    } else if str_eq(name, "AllowanceTotalAmount") {
        "allowances_total"
    } else if str_eq(name, "ChargeTotalAmount") {
        "charges_total"
    } else if str_eq(name, "PrepaidAmount") {
        "paid"
    } else if str_eq(name, "PayableRoundingAmount") {
        "rounding"
    } else if str_eq(name, "PayableAmount") {
        "due"
    } else {
        p.derived(Namespace::Cbc, name)?;
        return Ok(());
    };
    let text = p.leaf(Namespace::Cbc, name, field)?;
    let value = Some(parse_decimal(text.as_str())?);
    if str_eq(field, "line_net_total") {
        invoice.line_net_total = value;
    } else if str_eq(field, "net_total") {
        invoice.net_total = value;
    } else if str_eq(field, "gross_total") {
        invoice.gross_total = value;
    } else if str_eq(field, "allowances_total") {
        invoice.allowances_total = value;
    } else if str_eq(field, "charges_total") {
        invoice.charges_total = value;
    } else if str_eq(field, "paid") {
        invoice.paid = value;
    } else if str_eq(field, "rounding") {
        invoice.rounding = value;
    } else {
        invoice.due = value;
    }
    Ok(())
}

/// The eight amounts of the legal monetary total of an invoice.
pub struct TotalsView {
    pub line_net_total: Option<DecimalView>,
    pub net_total: Option<DecimalView>,
    pub gross_total: Option<DecimalView>,
    pub allowances_total: Option<DecimalView>,
    pub charges_total: Option<DecimalView>,
    pub paid: Option<DecimalView>,
    pub rounding: Option<DecimalView>,
    pub due: Option<DecimalView>,
}

/// The view of an optional decimal.
pub open spec fn spec_amount_of(d: Option<crate::decimal::Decimal>) -> Option<DecimalView> {
    match d {
        Some(x) => Some(x@),
        None => None,
    }
}

/// The amounts of the legal monetary total an invoice states.
pub open spec fn spec_totals_of(i: Invoice) -> TotalsView {
    TotalsView {
        line_net_total: spec_amount_of(i.line_net_total),
        net_total: spec_amount_of(i.net_total),
        gross_total: spec_amount_of(i.gross_total),
        allowances_total: spec_amount_of(i.allowances_total),
        charges_total: spec_amount_of(i.charges_total),
        paid: spec_amount_of(i.paid),
        rounding: spec_amount_of(i.rounding),
        due: spec_amount_of(i.due),
    }
}

/// Whether `after` is `before` but for the eight amounts of the legal monetary total.
pub open spec fn spec_keeps_all_but_totals(before: Invoice, after: Invoice) -> bool {
    after == (Invoice {
        line_net_total: after.line_net_total,
        net_total: after.net_total,
        gross_total: after.gross_total,
        allowances_total: after.allowances_total,
        charges_total: after.charges_total,
        paid: after.paid,
        rounding: after.rounding,
        due: after.due,
        ..before
    })
}

/// The model field a monetary total element is mapped to, when it is one of the eight.
pub open spec fn spec_total_field(name: Seq<char>) -> Option<Seq<char>> {
    if name == "LineExtensionAmount"@ {
        Some("line_net_total"@)
    } else if name == "TaxExclusiveAmount"@ {
        Some("net_total"@)
    } else if name == "TaxInclusiveAmount"@ {
        Some("gross_total"@)
    } else if name == "AllowanceTotalAmount"@ {
        Some("allowances_total"@)
    } else if name == "ChargeTotalAmount"@ {
        Some("charges_total"@)
    } else if name == "PrepaidAmount"@ {
        Some("paid"@)
    } else if name == "PayableRoundingAmount"@ {
        Some("rounding"@)
    } else if name == "PayableAmount"@ {
        Some("due"@)
    } else {
        None
    }
}

/// The amounts with the one of an element replaced.
pub open spec fn spec_set_total(t: TotalsView, name: Seq<char>, v: DecimalView) -> TotalsView {
    if name == "LineExtensionAmount"@ {
        TotalsView { line_net_total: Some(v), ..t }
    } else if name == "TaxExclusiveAmount"@ {
        TotalsView { net_total: Some(v), ..t }
    } else if name == "TaxInclusiveAmount"@ {
        TotalsView { gross_total: Some(v), ..t }
    } else if name == "AllowanceTotalAmount"@ {
        TotalsView { allowances_total: Some(v), ..t }
    } else if name == "ChargeTotalAmount"@ {
        TotalsView { charges_total: Some(v), ..t }
    } else if name == "PrepaidAmount"@ {
        TotalsView { paid: Some(v), ..t }
    } else if name == "PayableRoundingAmount"@ {
        TotalsView { rounding: Some(v), ..t }
    } else {
        TotalsView { due: Some(v), ..t }
    }
}

/// The amounts a run of leaves of the basic components states from `cursor`, each amount
/// element replacing the amount it is mapped to and any other leaf skipped, and the position
/// after the last leaf; `None` when a leaf is malformed or an amount is no decimal.
pub open spec fn spec_ubl_amounts(tokens: Seq<crate::token::TokenView<Namespace>>, cursor: int, t: TotalsView) -> Option<(TotalsView, int)>
    decreases tokens.len() - cursor,
{
    if cursor < 0 || cursor >= tokens.len() {
        Some((t, cursor))
    } else {
        match tokens[cursor] {
            crate::token::TokenView::Open { namespace, name, .. } => if namespace != Namespace::Cbc {
                Some((t, cursor))
            } else {
                match spec_leaf_at(tokens, cursor, Namespace::Cbc, name) {
                    None => None,
                    Some((text, next)) => if next <= cursor {
                        None
                    } else {
                        match spec_total_field(name) {
                            None => spec_ubl_amounts(tokens, next, t),
                            Some(_) => match crate::reading::spec_decimal_value(text) {
                                None => None,
                                Some(v) => spec_ubl_amounts(tokens, next, spec_set_total(t, name, v)),
                            },
                        }
                    },
                }
            },
            _ => Some((t, cursor)),
        }
    }
}

/// The amounts a legal monetary total at `cursor` states over `t`, and the position after it;
/// `None` when it is not there or malformed.
pub open spec fn spec_ubl_monetary_total(tokens: Seq<crate::token::TokenView<Namespace>>, cursor: int, t: TotalsView) -> Option<(TotalsView, int)> {
    if !spec_opens(tokens, cursor, Namespace::Cac, "LegalMonetaryTotal"@) {
        None
    } else {
        match spec_ubl_amounts(tokens, cursor + 1, t) {
            None => None,
            Some((u, end)) => if spec_closes(tokens, end) {
                Some((u, end + 1))
            } else {
                None
            },
        }
    }
}

// Setting one amount of the monetary total keeps the others and every other field.
proof fn lemma_with_total(before: Invoice, after: Invoice, name: Seq<char>, v: DecimalView)
    requires
        spec_total_field(name) matches Some(f) && crate::reading::spec_with_total(before, after, f, v),
    ensures
        spec_totals_of(after) == spec_set_total(spec_totals_of(before), name, v),
        spec_keeps_all_but_totals(before, after),
{
    reveal_strlit("line_net_total");
    reveal_strlit("net_total");
    reveal_strlit("gross_total");
    reveal_strlit("allowances_total");
    reveal_strlit("charges_total");
    reveal_strlit("paid");
    reveal_strlit("rounding");
    reveal_strlit("due");
    reveal_strlit("vat_total");
    reveal_strlit("LineExtensionAmount");
    reveal_strlit("TaxExclusiveAmount");
    reveal_strlit("TaxInclusiveAmount");
    reveal_strlit("AllowanceTotalAmount");
    reveal_strlit("ChargeTotalAmount");
    reveal_strlit("PrepaidAmount");
    reveal_strlit("PayableRoundingAmount");
    reveal_strlit("PayableAmount");
    assert("line_net_total"@.len() == 14);
    assert("net_total"@.len() == 9);
    assert("gross_total"@.len() == 11);
    assert("allowances_total"@.len() == 16);
    assert("charges_total"@.len() == 13);
    assert("paid"@.len() == 4);
    assert("rounding"@.len() == 8);
    assert("due"@.len() == 3);
    assert("vat_total"@.len() == 9);
    assert("LineExtensionAmount"@.len() == 19);
    assert("TaxExclusiveAmount"@.len() == 18);
    assert("TaxInclusiveAmount"@.len() == 18);
    assert("AllowanceTotalAmount"@.len() == 20);
    assert("ChargeTotalAmount"@.len() == 17);
    assert("PrepaidAmount"@.len() == 13);
    assert("PayableRoundingAmount"@.len() == 21);
    assert("PayableAmount"@.len() == 13);
    assert("TaxExclusiveAmount"@[3] != "TaxInclusiveAmount"@[3]);
    assert("PrepaidAmount"@[1] != "PayableAmount"@[1]);
    assert("net_total"@[0] != "vat_total"@[0]);
    let t = spec_totals_of(before);
    if name == "LineExtensionAmount"@ {
        assert(after == (Invoice { line_net_total: after.line_net_total, ..before }));
        assert(spec_totals_of(after) == (TotalsView { line_net_total: Some(v), ..t }));
    } else if name == "TaxExclusiveAmount"@ {
        assert(after == (Invoice { net_total: after.net_total, ..before }));
        assert(spec_totals_of(after) == (TotalsView { net_total: Some(v), ..t }));
    } else if name == "TaxInclusiveAmount"@ {
        assert(name != "TaxExclusiveAmount"@);
        assert(after == (Invoice { gross_total: after.gross_total, ..before }));
        assert(spec_totals_of(after) == (TotalsView { gross_total: Some(v), ..t }));
    } else if name == "AllowanceTotalAmount"@ {
        assert(after == (Invoice { allowances_total: after.allowances_total, ..before }));
        assert(spec_totals_of(after) == (TotalsView { allowances_total: Some(v), ..t }));
    } else if name == "ChargeTotalAmount"@ {
        assert(after == (Invoice { charges_total: after.charges_total, ..before }));
        assert(spec_totals_of(after) == (TotalsView { charges_total: Some(v), ..t }));
    } else if name == "PrepaidAmount"@ {
        assert(after == (Invoice { paid: after.paid, ..before }));
        assert(spec_totals_of(after) == (TotalsView { paid: Some(v), ..t }));
    } else if name == "PayableRoundingAmount"@ {
        assert(after == (Invoice { rounding: after.rounding, ..before }));
        assert(spec_totals_of(after) == (TotalsView { rounding: Some(v), ..t }));
    } else {
        assert(name == "PayableAmount"@);
        assert(name != "PrepaidAmount"@);
        assert(after == (Invoice { due: after.due, ..before }));
        assert(spec_totals_of(after) == (TotalsView { due: Some(v), ..t }));
    }
}

/// Reads the legal monetary total, keeping every amount the document states.
#[verifier::spinoff_prover]
#[verifier::rlimit(100)]
pub fn read_legal_monetary_total(p: &mut Parser<Namespace>, invoice: &mut Invoice) -> (r: Result<(), Error>)
    requires
        old(p).wf(),
    ensures
        final(p).follows(old(p)),
        r is Ok ==> final(p).restored(old(p)),
        match spec_ubl_monetary_total(old(p).spec_tokens(), old(p).spec_cursor(), spec_totals_of(*old(invoice))) {
            None => r is Err,
            Some((t, end)) => r is Ok && spec_totals_of(*final(invoice)) == t && spec_keeps_all_but_totals(*old(invoice), *final(invoice))
                && final(p).spec_cursor() == end,
        },
{
    p.enter_structural(Namespace::Cac, "LegalMonetaryTotal")?;
    let ghost inside = *p;
    while p.is_open_namespace(Namespace::Cbc)
        invariant
            p.restored(&inside),
            inside.wf(),
            inside.follows(old(p)),
            inside.spec_cursor() == old(p).spec_cursor() + 1,
            spec_opens(old(p).spec_tokens(), old(p).spec_cursor(), Namespace::Cac, "LegalMonetaryTotal"@),
            spec_keeps_all_but_totals(*old(invoice), *invoice),
            spec_ubl_amounts(inside.spec_tokens(), inside.spec_cursor(), spec_totals_of(*old(invoice))) == spec_ubl_amounts(
                p.spec_tokens(),
                p.spec_cursor(),
                spec_totals_of(*invoice),
            ),
        decreases p.spec_tokens().len() - p.spec_cursor(),
    {
        let (_, name) = p.head()?;
        let ghost at = p.spec_cursor();
        let ghost before = *invoice;
        let read = read_monetary_amount(p, invoice, name.as_str());
        match read {
            Ok(()) => {},
            Err(e) => {
                assert(spec_ubl_amounts(p.spec_tokens(), at, spec_totals_of(before)) is None);
                return Err(e);
            },
        }
        proof {
            if let Some((text, next)) = spec_leaf_at(p.spec_tokens(), at, Namespace::Cbc, name@) {
                if let Some(f) = spec_total_field(name@) {
                    if let Some(v) = crate::reading::spec_decimal_value(text) {
                        lemma_with_total(before, *invoice, name@, v);
                    }
                }
            }
        }
    }
    p.leave_wrapper()?;
    Ok(())
}

/// Reads one invoice line (`BG-25`), its exempt VAT taking the exemption reason of the breakdown.
pub fn read_line(p: &mut Parser<Namespace>, instance: usize, exemption: &Exemption) -> (r: Result<InvoiceLine, Error>)
    requires
        old(p).wf(),
    ensures
        final(p).follows(old(p)),
        r is Ok ==> final(p).advanced(old(p)),
{
    p.enter_repeatable(Namespace::Cac, "InvoiceLine", "lines", instance)?;
    let id = p.optional_leaf(Namespace::Cbc, "ID", "id")?;
    let note = p.optional_leaf(Namespace::Cbc, "Note", "note")?;
    let quantity = match p.optional_leaf_attr(Namespace::Cbc, "InvoicedQuantity", "quantity")? {
        Some((attributes, text)) => Some(parse_quantity(&attributes, text.as_str())?),
        None => None,
    };
    let net_amount = match p.optional_text(Namespace::Cbc, "LineExtensionAmount", "net_amount")? {
        Some(text) => Some(parse_decimal(text.as_str())?),
        None => None,
    };
    let buyer_accounting_reference = p.optional_leaf(Namespace::Cbc, "AccountingCost", "buyer_accounting_reference")?;
    let mut period = None;
    if p.is_open(Namespace::Cac, "InvoicePeriod") {
        p.enter_group(Namespace::Cac, "InvoicePeriod", "period")?;
        let start = optional_date(p, "StartDate", "period")?;
        let end = optional_date(p, "EndDate", "period")?;
        p.leave_group()?;
        period = period_from(start, end);
    }
    let mut order_line_reference = None;
    if p.is_open(Namespace::Cac, "OrderLineReference") {
        p.enter_structural(Namespace::Cac, "OrderLineReference")?;
        order_line_reference = p.optional_leaf(Namespace::Cbc, "LineID", "order_line_reference")?;
        p.leave_wrapper()?;
    }
    let mut object = None;
    if p.is_open(Namespace::Cac, "DocumentReference") {
        p.enter_structural(Namespace::Cac, "DocumentReference")?;
        let (attributes, id) = p.leaf_attr(Namespace::Cbc, "ID", "object")?;
        let scheme = optional_attribute(&attributes, "schemeID")?;
        object = Some(ObjectReference { id: NonEmptyString::parse(id.as_str())?, scheme });
        p.leave_wrapper()?;
    }
    let ghost before_adjustments = *p;
    let mut adjustments: Vec<LineAdjustment> = Vec::new();
    while p.is_open(Namespace::Cac, "AllowanceCharge")
        invariant
            p.restored(&before_adjustments),
            before_adjustments.wf(),
            before_adjustments.follows(old(p)),
            adjustments@.len() <= p.spec_cursor() - before_adjustments.spec_cursor(),
        decreases p.spec_tokens().len() - p.spec_cursor(),
    {
        let adjustment = read_line_adjustment(p, adjustments.len() + 1)?;
        adjustments.push(adjustment);
    }
    let (item, vat) = if p.is_open(Namespace::Cac, "Item") {
        read_item(p)?
    } else {
        (None, None)
    };
    let vat = match vat {
        Some(vat) => Some(fill_exemption(vat, exemption)),
        None => None,
    };
    let price = if p.is_open(Namespace::Cac, "Price") {
        Some(read_price(p)?)
    } else {
        None
    };
    p.leave_group()?;
    Ok(InvoiceLine {
        id,
        note,
        object,
        quantity,
        net_amount,
        order_line_reference,
        buyer_accounting_reference,
        period,
        adjustments,
        price,
        vat,
        item,
    })
}

/// Reads one line-level allowance or charge (`BG-27`/`BG-28`).
pub fn read_line_adjustment(p: &mut Parser<Namespace>, instance: usize) -> (r: Result<LineAdjustment, Error>)
    requires
        old(p).wf(),
    ensures
        final(p).follows(old(p)),
        r is Ok ==> final(p).advanced(old(p)),
        match spec_leaf_at(old(p).spec_tokens(), old(p).spec_cursor() + 1, Namespace::Cbc, "ChargeIndicator"@) {
            None => r is Err,
            Some((flag, a)) => match spec_optional_leaf_at(old(p).spec_tokens(), a, Namespace::Cbc, "AllowanceChargeReasonCode"@) {
                None => r is Err,
                Some((code, b)) => match spec_optional_leaf_at(old(p).spec_tokens(), b, Namespace::Cbc, "AllowanceChargeReason"@) {
                    None => r is Err,
                    Some((text, c)) => match spec_optional_leaf_at(old(p).spec_tokens(), c, Namespace::Cbc, "MultiplierFactorNumeric"@) {
                        None => r is Err,
                        Some((factor, d)) => match spec_leaf_at(old(p).spec_tokens(), d, Namespace::Cbc, "Amount"@) {
                            None => r is Err,
                            Some((amount, e)) => match spec_optional_leaf_at(old(p).spec_tokens(), e, Namespace::Cbc, "BaseAmount"@) {
                                None => r is Err,
                                Some((base, f)) => if spec_opens(old(p).spec_tokens(), old(p).spec_cursor(), Namespace::Cac, "AllowanceCharge"@)
                                    && spec_ubl_amount(factor, amount, base) is Some && spec_filled_text(code)
                                    && spec_filled_text(text) && spec_closes(old(p).spec_tokens(), f) {
                                    r matches Ok(x) && crate::cii_read::spec_amount_view(x.amount) == spec_ubl_amount(factor, amount, base)->Some_0
                                        && crate::cii_read::spec_reason_view(x.reason) == (crate::text::spec_trim(flag) == "true"@, code, text) && final(p).spec_cursor() == f + 1
                                } else {
                                    r is Err
                                },
                            },
                        },
                    },
                },
            },
        },
{
    p.enter_repeatable(Namespace::Cac, "AllowanceCharge", "adjustments", instance)?;
    let charge = read_charge_indicator(p)?;
    let reason = read_reason(p, charge)?;
    let amount = read_adjustment_amount(p)?;
    p.leave_group()?;
    Ok(LineAdjustment { amount, reason })
}

/// Reads the item (`BG-31`) and the line VAT its classified tax category states.
/// The classified tax category sits between the head of the item and its attributes in the
/// UBL schema, and belongs to the line in the model, so the item segment is dropped before it.
pub fn read_item(p: &mut Parser<Namespace>) -> (r: Result<(Option<Item>, Option<VatTreatment>), Error>)
    requires
        old(p).wf(),
    ensures
        final(p).follows(old(p)),
        r is Ok ==> final(p).restored(old(p)),
{
    p.enter_group(Namespace::Cac, "Item", "item")?;
    let description = p.optional_leaf(Namespace::Cbc, "Description", "description")?;
    let name = p.optional_leaf(Namespace::Cbc, "Name", "name")?;
    let buyer_id = optional_identifier(p, "BuyersItemIdentification", "buyer_id")?;
    let seller_id = optional_identifier(p, "SellersItemIdentification", "seller_id")?;
    let mut standard_id = None;
    if p.is_open(Namespace::Cac, "StandardItemIdentification") {
        p.enter_structural(Namespace::Cac, "StandardItemIdentification")?;
        let (attributes, id) = p.leaf_attr(Namespace::Cbc, "ID", "standard_id")?;
        let issuer = match attribute(&attributes, "schemeID") {
            Some(value) => NonEmptyString::parse(value)?,
            None => {
                return Err(Error::malformed_xml("a standard identifier without a scheme"));
            },
        };
        standard_id = Some(ItemReference { id: NonEmptyString::parse(id.as_str())?, issuer });
        p.leave_wrapper()?;
    }
    let mut country_of_origin = None;
    if p.is_open(Namespace::Cac, "OriginCountry") {
        p.enter_structural(Namespace::Cac, "OriginCountry")?;
        let code = p.optional_text(Namespace::Cbc, "IdentificationCode", "country_of_origin")?;
        p.leave_wrapper()?;
        if let Some(code) = code {
            country_of_origin = Some(parse_country(code.as_str())?);
        }
    }
    let ghost before_classifications = *p;
    let mut classifications: Vec<Classification> = Vec::new();
    while p.is_open(Namespace::Cac, "CommodityClassification")
        invariant
            p.restored(&before_classifications),
            before_classifications.wf(),
            before_classifications.follows(old(p)),
        decreases p.spec_tokens().len() - p.spec_cursor(),
    {
        classifications.push(read_classification(p)?);
    }
    // The classified tax category is a sibling of the item in the model.
    p.pop_segment();
    let vat = if p.is_open(Namespace::Cac, "ClassifiedTaxCategory") {
        Some(read_classified_tax_category(p)?)
    } else {
        None
    };
    let ghost before_attributes = *p;
    let mut attributes: Vec<ItemAttribute> = Vec::new();
    while p.is_open(Namespace::Cac, "AdditionalItemProperty")
        invariant
            p.restored(&before_attributes),
            before_attributes.wf(),
            before_attributes.follows(old(p)),
        decreases p.spec_tokens().len() - p.spec_cursor(),
    {
        p.enter_structural(Namespace::Cac, "AdditionalItemProperty")?;
        let name_text = p.leaf(Namespace::Cbc, "Name", "attributes")?;
        let value_text = p.leaf(Namespace::Cbc, "Value", "attributes")?;
        p.leave_wrapper()?;
        attributes.push(ItemAttribute {
            name: NonEmptyString::parse(name_text.as_str())?,
            value: NonEmptyString::parse(value_text.as_str())?,
        });
    }
    p.leave_wrapper()?;
    let item = Item {
        name,
        description,
        seller_id,
        buyer_id,
        standard_id,
        classifications,
        country_of_origin,
        attributes,
    };
    Ok((Some(item), vat))
}

/// Reads one item classification (`BT-158`).
pub fn read_classification(p: &mut Parser<Namespace>) -> (r: Result<Classification, Error>)
    requires
        old(p).wf(),
    ensures
        final(p).follows(old(p)),
        r is Ok ==> final(p).advanced(old(p)),
        match spec_optional_leaf_at(old(p).spec_tokens(), old(p).spec_cursor() + 1, Namespace::Cbc, "ItemClassificationCode"@) {
            None => r is Err,
            Some((None, after)) => if spec_opens(old(p).spec_tokens(), old(p).spec_cursor(), Namespace::Cac, "CommodityClassification"@)
                && spec_closes(old(p).spec_tokens(), after) {
                r matches Ok(x) && x.id is None && x.scheme is None && x.version is None
                    && final(p).spec_cursor() == after + 1
            } else {
                r is Err
            },
            Some((Some(id), after)) => {
                let list = crate::reading::spec_attribute(spec_open_attributes(old(p).spec_tokens(), old(p).spec_cursor() + 1), "listID"@);
                let version = crate::reading::spec_attribute(spec_open_attributes(old(p).spec_tokens(), old(p).spec_cursor() + 1), "listVersionID"@);
                if spec_opens(old(p).spec_tokens(), old(p).spec_cursor(), Namespace::Cac, "CommodityClassification"@) && id.len() > 0
                    && spec_filled_text(list) && spec_filled_text(version) && spec_closes(old(p).spec_tokens(), after) {
                    r matches Ok(x) && crate::ubl_read::spec_texts(x.id) == Some(id) && crate::ubl_read::spec_texts(x.scheme) == list
                        && crate::ubl_read::spec_texts(x.version) == version && final(p).spec_cursor() == after + 1
                } else {
                    r is Err
                }
            },
        },
{
    p.enter_structural(Namespace::Cac, "CommodityClassification")?;
    let mut classification = Classification { id: None, scheme: None, version: None };
    if let Some((attributes, id)) = p.optional_leaf_attr(Namespace::Cbc, "ItemClassificationCode", "classifications")? {
        classification.id = Some(NonEmptyString::parse(id.as_str())?);
        classification.scheme = optional_attribute(&attributes, "listID")?;
        classification.version = optional_attribute(&attributes, "listVersionID")?;
    }
    p.leave_wrapper()?;
    Ok(classification)
}

/// Reads the classified tax category into the line VAT treatment.
pub fn read_classified_tax_category(p: &mut Parser<Namespace>) -> (r: Result<VatTreatment, Error>)
    requires
        old(p).wf(),
    ensures
        final(p).follows(old(p)),
        r is Ok ==> final(p).restored(old(p)),
        match spec_leaf_at(old(p).spec_tokens(), old(p).spec_cursor() + 1, Namespace::Cbc, "ID"@) {
            None => r is Err,
            Some((code, after_code)) => match spec_leaf_at(old(p).spec_tokens(), after_code, Namespace::Cbc, "Percent"@) {
                None => r is Err,
                Some((percent, after_percent)) => match spec_leaf_at(old(p).spec_tokens(), after_percent + 1, Namespace::Cbc, "ID"@) {
                    None => r is Err,
                    Some((_, after_scheme)) => if spec_opens(old(p).spec_tokens(), old(p).spec_cursor(), Namespace::Cac, "ClassifiedTaxCategory"@)
                        && crate::vat::spec_known_category(code) && crate::vat::spec_rate_text(percent) is Some
                        && spec_opens(old(p).spec_tokens(), after_percent, Namespace::Cac, "TaxScheme"@)
                        && spec_closes(old(p).spec_tokens(), after_scheme) && spec_closes(old(p).spec_tokens(), after_scheme + 1) {
                        r matches Ok(t) && crate::vat::spec_treatment_is(t, code, crate::vat::spec_rate_text(percent)->Some_0)
                            && final(p).spec_cursor() == after_scheme + 2
                    } else {
                        r is Err
                    },
                },
            },
        },
{
    p.enter_group(Namespace::Cac, "ClassifiedTaxCategory", "vat")?;
    let code = p.leaf(Namespace::Cbc, "ID", "vat")?;
    let category = VatCategory::parse(code.as_str())?;
    let percent = p.leaf(Namespace::Cbc, "Percent", "vat")?;
    let rate = parse_percentage(percent.as_str())?;
    p.enter_structural(Namespace::Cac, "TaxScheme")?;
    p.leaf(Namespace::Cbc, "ID", "vat")?;
    p.leave_wrapper()?;
    p.leave_group()?;
    VatTreatment::from_parts(category, Some(rate), None, None)
}

/// The discount and the gross price an optional allowance of a price at `cursor` states, and the
/// position after it; the allowance absent consumes nothing. `None` when it is malformed.
pub open spec fn spec_price_allowance(tokens: Seq<crate::token::TokenView<Namespace>>, cursor: int) -> Option<(Option<Seq<char>>, Option<Seq<char>>, int)> {
    if spec_opens(tokens, cursor, Namespace::Cac, "AllowanceCharge"@) {
        match spec_optional_leaf_at(tokens, cursor + 1, Namespace::Cbc, "ChargeIndicator"@) {
            Some((_, a)) => match spec_optional_leaf_at(tokens, a, Namespace::Cbc, "Amount"@) {
                Some((discount, b)) => match spec_optional_leaf_at(tokens, b, Namespace::Cbc, "BaseAmount"@) {
                    Some((gross, c)) => if spec_closes(tokens, c) {
                        Some((discount, gross, c + 1))
                    } else {
                        None
                    },
                    None => None,
                },
                None => None,
            },
            None => None,
        }
    } else {
        Some((None, None, cursor))
    }
}

/// Reads the line price (`BG-29`): the gross price is the base amount of the discount when
/// one is stated, the price amount otherwise.
pub fn read_price(p: &mut Parser<Namespace>) -> (r: Result<Price, Error>)
    requires
        old(p).wf(),
    ensures
        final(p).follows(old(p)),
        r is Ok ==> final(p).advanced(old(p)),
        match spec_optional_leaf_at(old(p).spec_tokens(), old(p).spec_cursor() + 1, Namespace::Cbc, "PriceAmount"@) {
            None => r is Err,
            Some((net, a)) => match spec_optional_leaf_at(old(p).spec_tokens(), a, Namespace::Cbc, "BaseQuantity"@) {
                None => r is Err,
                Some((quantity, b)) => match spec_price_allowance(old(p).spec_tokens(), b) {
                    None => r is Err,
                    Some((discount, gross, c)) => {
                        let unit = crate::reading::spec_attribute(spec_open_attributes(old(p).spec_tokens(), a), "unitCode"@);
                        if spec_opens(old(p).spec_tokens(), old(p).spec_cursor(), Namespace::Cac, "Price"@)
                            && crate::cii_read::spec_optional_decimal(net) is Some
                            && (quantity matches Some(q) ==> (unit matches Some(u) && crate::values::spec_is_unit_code(u)
                                && crate::reading::spec_decimal_value(q) is Some))
                            && crate::cii_read::spec_optional_decimal(discount) is Some
                            && crate::cii_read::spec_optional_decimal(gross) is Some && spec_closes(old(p).spec_tokens(), c) {
                            if gross is None && net is None {
                                r matches Err(e) && e@ == crate::error::ErrorView::MalformedXml("a price without an amount"@)
                            } else {
                                r matches Ok(x) && final(p).spec_cursor() == c + 1
                                    && Some(x.gross@) == crate::reading::spec_decimal_value(
                                    if gross is Some { gross->Some_0 } else { net->Some_0 },
                                ) && Some(crate::cii_read::spec_decimal_option(x.discount))
                                    == crate::cii_read::spec_optional_decimal(discount) && match quantity {
                                    Some(q) => x.base_quantity matches Some(bq) && unit == Some(bq.unit@)
                                        && crate::reading::spec_decimal_value(q) == Some(bq.value@),
                                    None => x.base_quantity is None,
                                }
                            }
                        } else {
                            r is Err
                        }
                    },
                },
            },
        },
{
    p.enter_group(Namespace::Cac, "Price", "price")?;
    let net = match p.optional_text(Namespace::Cbc, "PriceAmount", "net")? {
        Some(text) => Some(parse_decimal(text.as_str())?),
        None => None,
    };
    let base_quantity = match p.optional_leaf_attr(Namespace::Cbc, "BaseQuantity", "price")? {
        Some((attributes, text)) => Some(parse_quantity(&attributes, text.as_str())?),
        None => None,
    };
    let mut discount = None;
    let mut gross = None;
    if p.is_open(Namespace::Cac, "AllowanceCharge") {
        p.enter_structural(Namespace::Cac, "AllowanceCharge")?;
        p.optional_text(Namespace::Cbc, "ChargeIndicator", "price")?;
        if let Some(text) = p.optional_text(Namespace::Cbc, "Amount", "price")? {
            discount = Some(parse_decimal(text.as_str())?);
        }
        if let Some(text) = p.optional_text(Namespace::Cbc, "BaseAmount", "price")? {
            gross = Some(parse_decimal(text.as_str())?);
        }
        p.leave_wrapper()?;
    }
    p.leave_group()?;
    let gross = match (gross, net) {
        (Some(gross), _) => gross,
        (None, Some(net)) => net,
        (None, None) => {
            return Err(Error::malformed_xml("a price without an amount"));
        },
    };
    Ok(Price { gross, discount, base_quantity })
}

/// Reads a party endpoint electronic address (`BT-34`/`BT-49`).
pub fn optional_endpoint(p: &mut Parser<Namespace>, field: &'static str) -> (r: Result<Option<ElectronicAddress>, Error>)
    requires
        old(p).wf(),
    ensures
        final(p).follows(old(p)),
        r is Ok ==> final(p).restored(old(p)),
        match spec_optional_leaf_at(old(p).spec_tokens(), old(p).spec_cursor(), Namespace::Cbc, "EndpointID"@) {
            None => r is Err,
            Some((None, _)) => r matches Ok(None) && *final(p) == *old(p),
            Some((Some(t), next)) => {
                let a = crate::reading::spec_attribute(spec_open_attributes(old(p).spec_tokens(), old(p).spec_cursor()), "schemeID"@);
                if t.len() > 0 && spec_filled_text(a) {
                    r matches Ok(Some(x)) && x.id matches Some(i) && i@ == t && crate::ubl_read::spec_texts(x.scheme) == a
                        && final(p).spec_cursor() == next
                } else {
                    r is Err
                }
            },
        },
{
    if !p.is_open(Namespace::Cbc, "EndpointID") {
        return Ok(None);
    }
    let (attributes, id) = p.leaf_attr(Namespace::Cbc, "EndpointID", field)?;
    let scheme = optional_attribute(&attributes, "schemeID")?;
    Ok(Some(ElectronicAddress { id: Some(NonEmptyString::parse(id.as_str())?), scheme }))
}

/// The party identifiers from `cursor` on, each a `PartyIdentification` around an `ID` with an
/// optional scheme, with its text and scheme, and the position after the last; `None` when one
/// is malformed.
pub open spec fn spec_ubl_identifiers(tokens: Seq<crate::token::TokenView<Namespace>>, cursor: int) -> Option<(Seq<(Seq<char>, Option<Seq<char>>)>, int)>
    decreases tokens.len() - cursor,
{
    if cursor < 0 || cursor >= tokens.len() || !spec_opens(tokens, cursor, Namespace::Cac, "PartyIdentification"@) {
        Some((Seq::empty(), cursor))
    } else {
        match spec_leaf_at(tokens, cursor + 1, Namespace::Cbc, "ID"@) {
            Some((t, next)) => {
                let scheme = crate::reading::spec_attribute(spec_open_attributes(tokens, cursor + 1), "schemeID"@);
                if t.len() > 0 && spec_filled_text(scheme) && spec_closes(tokens, next) && next + 1 > cursor {
                    match spec_ubl_identifiers(tokens, next + 1) {
                        Some((rest, end)) => Some((seq![(t, scheme)] + rest, end)),
                        None => None,
                    }
                } else {
                    None
                }
            },
            None => None,
        }
    }
}

/// Reads the party identifiers (`BT-29`/`BT-46`/`BT-60`).
pub fn read_identifiers(p: &mut Parser<Namespace>, field: &'static str) -> (r: Result<Vec<OperationalEntity>, Error>)
    requires
        old(p).wf(),
    ensures
        final(p).follows(old(p)),
        r is Ok ==> final(p).restored(old(p)),
        match spec_ubl_identifiers(old(p).spec_tokens(), old(p).spec_cursor()) {
            Some((ids, end)) => r matches Ok(v) && crate::cii_read::spec_identifier_texts(v@) == ids
                && final(p).spec_cursor() == end,
            None => r is Err,
        },
{
    let mut identifiers: Vec<OperationalEntity> = Vec::new();
    proof {
        assert(crate::cii_read::spec_identifier_texts(identifiers@) =~= Seq::empty());
        assert(Seq::<(Seq<char>, Option<Seq<char>>)>::empty() + Seq::empty() =~= Seq::<(Seq<char>, Option<Seq<char>>)>::empty());
    }
    while p.is_open(Namespace::Cac, "PartyIdentification")
        invariant
            p.restored(old(p)),
            old(p).wf(),
            spec_ubl_identifiers(old(p).spec_tokens(), old(p).spec_cursor()) == match spec_ubl_identifiers(
                p.spec_tokens(),
                p.spec_cursor(),
            ) {
                Some((rest, end)) => Some((crate::cii_read::spec_identifier_texts(identifiers@) + rest, end)),
                None => None,
            },
        decreases p.spec_tokens().len() - p.spec_cursor(),
    {
        let ghost before = crate::cii_read::spec_identifier_texts(identifiers@);
        p.enter_group(Namespace::Cac, "PartyIdentification", field)?;
        let (attributes, id) = p.leaf_attr(Namespace::Cbc, "ID", field)?;
        let issuer = optional_attribute(&attributes, "schemeID")?;
        p.leave_group()?;
        identifiers.push(OperationalEntity { id: NonEmptyString::parse(id.as_str())?, issuer });
        proof {
            let added = crate::cii_read::spec_identifier_texts(identifiers@);
            assert(added =~= before.push(added.last()));
            if let Some((rest, end)) = spec_ubl_identifiers(p.spec_tokens(), p.spec_cursor()) {
                assert(before + (seq![added.last()] + rest) =~= added + rest);
            }
        }
    }
    proof {
        assert(crate::cii_read::spec_identifier_texts(identifiers@) + Seq::empty() =~= crate::cii_read::spec_identifier_texts(
            identifiers@,
        ));
    }
    Ok(identifiers)
}

/// Reads a party name group when present.
pub fn optional_party_name(p: &mut Parser<Namespace>, field: &'static str) -> (r: Result<Option<NonEmptyString>, Error>)
    requires
        old(p).wf(),
    ensures
        final(p).follows(old(p)),
        r is Ok ==> final(p).restored(old(p)),
        !spec_opens(old(p).spec_tokens(), old(p).spec_cursor(), Namespace::Cac, "PartyName"@) ==> (r matches Ok(None) && *final(p) == *old(p)),
        spec_opens(old(p).spec_tokens(), old(p).spec_cursor(), Namespace::Cac, "PartyName"@) ==> match spec_optional_leaf_at(old(p).spec_tokens(), old(p).spec_cursor() + 1, Namespace::Cbc, "Name"@) {
            None => r is Err,
            Some((id, next)) => if spec_closes(old(p).spec_tokens(), next) && spec_filled_text(id) {
                r matches Ok(x) && crate::ubl_read::spec_texts(x) == id && final(p).spec_cursor() == next + 1
            } else {
                r is Err
            },
        },
{
    if !p.is_open(Namespace::Cac, "PartyName") {
        return Ok(None);
    }
    p.enter_group(Namespace::Cac, "PartyName", field)?;
    let name = p.optional_leaf(Namespace::Cbc, "Name", field)?;
    p.leave_group()?;
    Ok(name)
}

/// Reads a party tax scheme; the field it maps to follows its scheme code, peeked first.
pub fn read_party_tax_scheme(p: &mut Parser<Namespace>) -> (r: Result<Option<PartyTaxScheme>, Error>)
    requires
        old(p).wf(),
    ensures
        final(p).follows(old(p)),
        r is Ok ==> final(p).advanced(old(p)),
        match spec_optional_leaf_at(old(p).spec_tokens(), old(p).spec_cursor() + 1, Namespace::Cbc, "CompanyID"@) {
            None => r is Err,
            Some((company, after_company)) => match spec_optional_wrapped_leaf_at(
                old(p).spec_tokens(),
                after_company,
                Namespace::Cac,
                "TaxScheme"@,
                Namespace::Cbc,
                "ID"@,
            ) {
                None => r is Err,
                Some((scheme, after_scheme)) => if spec_opens(old(p).spec_tokens(), old(p).spec_cursor(), Namespace::Cac, "PartyTaxScheme"@)
                    && spec_filled_text(company) && spec_closes(old(p).spec_tokens(), after_scheme) {
                    final(p).spec_cursor() == after_scheme + 1 && match company {
                        None => r matches Ok(None),
                        Some(t) => if scheme == Some("VAT"@) {
                            r matches Ok(Some(PartyTaxScheme::Vat(v))) && v.id@ == t
                        } else {
                            r matches Ok(Some(PartyTaxScheme::Other(v))) && v@ == t
                        },
                    }
                } else {
                    r is Err
                },
            },
        },
{
    let is_vat = match p.peek_tax_scheme() {
        Some(code) => str_eq(code.as_str(), "VAT"),
        None => false,
    };
    let field: &'static str = if is_vat { "vat" } else { "tax_registration" };
    p.enter_group(Namespace::Cac, "PartyTaxScheme", field)?;
    let company = p.optional_text(Namespace::Cbc, "CompanyID", field)?;
    let mut scheme = None;
    if p.is_open(Namespace::Cac, "TaxScheme") {
        p.enter_structural(Namespace::Cac, "TaxScheme")?;
        scheme = p.optional_text(Namespace::Cbc, "ID", field)?;
        p.leave_wrapper()?;
    }
    p.leave_group()?;
    let company = match company {
        Some(company) => company,
        None => {
            return Ok(None);
        },
    };
    let vat = match &scheme {
        Some(code) => str_eq(code.as_str(), "VAT"),
        None => false,
    };
    if vat {
        Ok(Some(PartyTaxScheme::Vat(VatIdentifier { id: NonEmptyString::parse(company.as_str())? })))
    } else {
        Ok(Some(PartyTaxScheme::Other(NonEmptyString::parse(company.as_str())?)))
    }
}

/// Reads the party legal entity, when present: the name, the legal id and the legal form.
pub fn read_legal_entity(p: &mut Parser<Namespace>, name_field: &'static str) -> (r: Result<(Option<NonEmptyString>, Option<LegalEntity>, Option<NonEmptyString>), Error>)
    requires
        old(p).wf(),
    ensures
        final(p).follows(old(p)),
        r is Ok ==> final(p).restored(old(p)),
        !spec_opens(old(p).spec_tokens(), old(p).spec_cursor(), Namespace::Cac, "PartyLegalEntity"@) ==> (r matches Ok((None, None, None))
            && *final(p) == *old(p)),
        spec_opens(old(p).spec_tokens(), old(p).spec_cursor(), Namespace::Cac, "PartyLegalEntity"@) ==> match spec_optional_leaf_at(
            old(p).spec_tokens(),
            old(p).spec_cursor() + 1,
            Namespace::Cbc,
            "RegistrationName"@,
        ) {
            None => r is Err,
            Some((name, after_name)) => match spec_optional_leaf_at(old(p).spec_tokens(), after_name, Namespace::Cbc, "CompanyID"@) {
                None => r is Err,
                Some((id, after_id)) => match spec_optional_leaf_at(old(p).spec_tokens(), after_id, Namespace::Cbc, "CompanyLegalForm"@) {
                    None => r is Err,
                    Some((form, after_form)) => {
                        let issuer = crate::reading::spec_attribute(spec_open_attributes(old(p).spec_tokens(), after_name), "schemeID"@);
                        if spec_filled_text(name) && spec_filled_text(id) && (id is Some ==> spec_filled_text(issuer))
                            && spec_filled_text(form) && spec_closes(old(p).spec_tokens(), after_form) {
                            r matches Ok((n, e, f)) && crate::ubl_read::spec_texts(n) == name && crate::ubl_read::spec_texts(f) == form && match id {
                                Some(t) => e matches Some(entity) && entity.id@ == t && crate::ubl_read::spec_texts(entity.issuer) == issuer,
                                None => e is None,
                            } && final(p).spec_cursor() == after_form + 1
                        } else {
                            r is Err
                        }
                    },
                },
            },
        },
{
    if !p.is_open(Namespace::Cac, "PartyLegalEntity") {
        return Ok((None, None, None));
    }
    p.enter_structural(Namespace::Cac, "PartyLegalEntity")?;
    let name = p.optional_leaf(Namespace::Cbc, "RegistrationName", name_field)?;
    let legal_entity = optional_company_id(p, "legal_entity")?;
    let legal_form = p.optional_leaf(Namespace::Cbc, "CompanyLegalForm", "additional_legal_information")?;
    p.leave_wrapper()?;
    Ok((name, legal_entity, legal_form))
}

/// Reads a legal registration id (`BT-30`/`BT-47`/`BT-61`) when present.
pub fn optional_company_id(p: &mut Parser<Namespace>, field: &'static str) -> (r: Result<Option<LegalEntity>, Error>)
    requires
        old(p).wf(),
    ensures
        final(p).follows(old(p)),
        r is Ok ==> final(p).restored(old(p)),
        match spec_optional_leaf_at(old(p).spec_tokens(), old(p).spec_cursor(), Namespace::Cbc, "CompanyID"@) {
            None => r is Err,
            Some((None, _)) => r matches Ok(None) && *final(p) == *old(p),
            Some((Some(t), next)) => {
                let a = crate::reading::spec_attribute(spec_open_attributes(old(p).spec_tokens(), old(p).spec_cursor()), "schemeID"@);
                if t.len() > 0 && spec_filled_text(a) {
                    r matches Ok(Some(x)) && x.id@ == t && crate::ubl_read::spec_texts(x.issuer) == a
                        && final(p).spec_cursor() == next
                } else {
                    r is Err
                }
            },
        },
{
    match p.optional_leaf_attr(Namespace::Cbc, "CompanyID", field)? {
        None => Ok(None),
        Some((attributes, id)) => {
            let issuer = optional_attribute(&attributes, "schemeID")?;
            Ok(Some(LegalEntity { id: NonEmptyString::parse(id.as_str())?, issuer }))
        },
    }
}

/// Reads a contact group (`BG-6`/`BG-9`) when present.
pub fn optional_contact(p: &mut Parser<Namespace>, field: &'static str) -> (r: Result<Option<Contact>, Error>)
    requires
        old(p).wf(),
    ensures
        final(p).follows(old(p)),
        r is Ok ==> final(p).restored(old(p)),
        !spec_opens(old(p).spec_tokens(), old(p).spec_cursor(), Namespace::Cac, "Contact"@) ==> (r matches Ok(None) && *final(p) == *old(p)),
        spec_opens(old(p).spec_tokens(), old(p).spec_cursor(), Namespace::Cac, "Contact"@) ==> match spec_optional_leaf_at(old(p).spec_tokens(), old(p).spec_cursor() + 1, Namespace::Cbc, "Name"@) {
            None => r is Err,
            Some((name, after_name)) => match spec_optional_leaf_at(old(p).spec_tokens(), after_name, Namespace::Cbc, "Telephone"@) {
                None => r is Err,
                Some((phone, after_phone)) => match spec_optional_leaf_at(old(p).spec_tokens(), after_phone, Namespace::Cbc, "ElectronicMail"@) {
                    None => r is Err,
                    Some((mail, after_mail)) => if spec_filled_text(name) && spec_filled_text(phone)
                        && crate::reading::spec_valid_email(mail) && spec_closes(old(p).spec_tokens(), after_mail) {
                        r matches Ok(Some(x)) && crate::ubl_read::spec_texts(x.name) == name && crate::ubl_read::spec_texts(x.telephone) == phone
                            && crate::reading::spec_email_text(x.email) == crate::reading::spec_trimmed(mail) && final(p).spec_cursor() == after_mail + 1
                    } else {
                        r is Err
                    },
                },
            },
        },
{
    if !p.is_open(Namespace::Cac, "Contact") {
        return Ok(None);
    }
    p.enter_group(Namespace::Cac, "Contact", field)?;
    let name = p.optional_leaf(Namespace::Cbc, "Name", "name")?;
    let telephone = p.optional_leaf(Namespace::Cbc, "Telephone", "telephone")?;
    let email = if p.is_open(Namespace::Cbc, "ElectronicMail") {
        let text = p.leaf(Namespace::Cbc, "ElectronicMail", "email")?;
        Some(parse_email(text.as_str())?)
    } else {
        None
    };
    p.leave_group()?;
    Ok(Some(Contact { name, telephone, email }))
}

/// The fields of a postal address whose start is at `cursor - 1`, in the order of
/// `spec_address_texts`, and the position of its end.
pub open spec fn spec_ubl_address_fields(tokens: Seq<crate::token::TokenView<Namespace>>, cursor: int) -> Option<(Seq<Option<Seq<char>>>, int)> {
    match spec_optional_leaf_at(tokens, cursor, Namespace::Cbc, "StreetName"@) {
        None => None,
        Some((line_one, a)) => match spec_optional_leaf_at(tokens, a, Namespace::Cbc, "AdditionalStreetName"@) {
            None => None,
            Some((line_two, b)) => match spec_optional_leaf_at(tokens, b, Namespace::Cbc, "CityName"@) {
                None => None,
                Some((city, c)) => match spec_optional_leaf_at(tokens, c, Namespace::Cbc, "PostalZone"@) {
                    None => None,
                    Some((post_code, d)) => match spec_optional_leaf_at(tokens, d, Namespace::Cbc, "CountrySubentity"@) {
                        None => None,
                        Some((subdivision, e)) => match spec_optional_wrapped_leaf_at(
                            tokens,
                            e,
                            Namespace::Cac,
                            "AddressLine"@,
                            Namespace::Cbc,
                            "Line"@,
                        ) {
                            None => None,
                            Some((line_three, f)) => match spec_optional_wrapped_leaf_at(
                                tokens,
                                f,
                                Namespace::Cac,
                                "Country"@,
                                Namespace::Cbc,
                                "IdentificationCode"@,
                            ) {
                                None => None,
                                Some((country, g)) => Some(
                                    (seq![line_one, line_two, line_three, city, post_code, subdivision, country], g),
                                ),
                            },
                        },
                    },
                },
            },
        },
    }
}

/// Reads a postal address (`BG-5`/`BG-8`/`BG-12`/`BG-15`) when present.
#[verifier::rlimit(50)]
pub fn optional_address(p: &mut Parser<Namespace>, element: &str) -> (r: Result<Option<PostalAddress>, Error>)
    requires
        old(p).wf(),
    ensures
        final(p).follows(old(p)),
        r is Ok ==> final(p).restored(old(p)),
        !spec_opens(old(p).spec_tokens(), old(p).spec_cursor(), Namespace::Cac, element@) ==> (r matches Ok(None) && *final(p) == *old(p)),
        spec_opens(old(p).spec_tokens(), old(p).spec_cursor(), Namespace::Cac, element@) ==> match spec_ubl_address_fields(old(p).spec_tokens(), old(p).spec_cursor() + 1) {
            None => r is Err,
            Some((texts, end)) => if crate::reading::spec_valid_address(texts) && spec_closes(old(p).spec_tokens(), end) {
                r matches Ok(Some(a)) && crate::reading::spec_address_texts(a) == crate::reading::spec_address_read(texts)
                    && final(p).spec_cursor() == end + 1
            } else {
                r is Err
            },
        },
{
    if !p.is_open(Namespace::Cac, element) {
        return Ok(None);
    }
    p.enter_group(Namespace::Cac, element, "address")?;
    let line_one = p.optional_leaf(Namespace::Cbc, "StreetName", "line1")?;
    let line_two = p.optional_leaf(Namespace::Cbc, "AdditionalStreetName", "line2")?;
    let city = p.optional_leaf(Namespace::Cbc, "CityName", "city")?;
    let post_code = p.optional_leaf(Namespace::Cbc, "PostalZone", "postal_code")?;
    let subdivision = p.optional_leaf(Namespace::Cbc, "CountrySubentity", "country_subdivision")?;
    let mut line_three = None;
    if p.is_open(Namespace::Cac, "AddressLine") {
        p.enter_structural(Namespace::Cac, "AddressLine")?;
        line_three = p.optional_leaf(Namespace::Cbc, "Line", "line3")?;
        p.leave_wrapper()?;
    }
    let mut country = None;
    if p.is_open(Namespace::Cac, "Country") {
        p.enter_structural(Namespace::Cac, "Country")?;
        let code = p.optional_text(Namespace::Cbc, "IdentificationCode", "country")?;
        p.leave_wrapper()?;
        if let Some(code) = code {
            country = Some(parse_country(code.as_str())?);
        }
    }
    p.leave_group()?;
    let address = PostalAddress { line1: line_one, line2: line_two, line3: line_three, city, postal_code: post_code, country_subdivision: subdivision, country };
    proof {
        if let Some((texts, end)) = spec_ubl_address_fields(old(p).spec_tokens(), old(p).spec_cursor() + 1) {
            assert(crate::reading::spec_address_texts(address) =~= crate::reading::spec_address_read(texts));
        }
    }
    Ok(Some(address))
}

/// Reads an item identifier wrapper when present.
pub fn optional_identifier(p: &mut Parser<Namespace>, element: &str, field: &'static str) -> (r: Result<Option<NonEmptyString>, Error>)
    requires
        old(p).wf(),
    ensures
        final(p).follows(old(p)),
        r is Ok ==> final(p).restored(old(p)),
        !spec_opens(old(p).spec_tokens(), old(p).spec_cursor(), Namespace::Cac, element@) ==> (r matches Ok(None) && *final(p) == *old(p)),
        spec_opens(old(p).spec_tokens(), old(p).spec_cursor(), Namespace::Cac, element@) ==> match spec_optional_leaf_at(old(p).spec_tokens(), old(p).spec_cursor() + 1, Namespace::Cbc, "ID"@) {
            None => r is Err,
            Some((id, next)) => if spec_closes(old(p).spec_tokens(), next) && spec_filled_text(id) {
                r matches Ok(x) && crate::ubl_read::spec_texts(x) == id && final(p).spec_cursor() == next + 1
            } else {
                r is Err
            },
        },
{
    if !p.is_open(Namespace::Cac, element) {
        return Ok(None);
    }
    p.enter_structural(Namespace::Cac, element)?;
    let id = p.optional_leaf(Namespace::Cbc, "ID", field)?;
    p.leave_wrapper()?;
    Ok(id)
}

} // verus!
