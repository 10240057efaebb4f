//! The UBL writing walk: the invoice rendered under the UBL root element, with the dictionary
//! of its nodes filled in the same pass.

use vstd::prelude::*;
use crate::table::spec_lookup;
use base64::Engine;
use crate::decimal::{Decimal, DecimalView, spec_decimal_text, spec_round_dp};
use crate::format::{Format, Ubl};
use crate::model::{
    BinaryObject, Buyer, Classification, Contact, Delivery, Details, ElectronicAddress,
    Invoice, InvoiceLine, Item, LegalEntity, Note, ObjectReference, OperationalEntity, Payee,
    PaymentInstructions, Period, PostalAddress, PrecedingInvoice, Seller, SupportingDocument,
    TaxRepresentative, VatBreakdown, VatPoint,
};
use crate::namespace::spec_default_entries;
use crate::pricing::{Adjustment, Amount, LineAdjustment, Price, Reason};
use crate::profile::Profile;
use crate::serializer::{
    group_extends, lemma_push_then_drop, spec_declarations, spec_qname, spec_restored,
    spec_element, spec_optional_element, spec_root_written, spec_scheme_attribute, spec_wrapped,
    spec_term_element, spec_wrapped_each, spec_group, Serializer,
};
use crate::xml::{spec_end_tag, spec_start_tag};
use crate::term::Term;
use crate::text::{append_str, decimal_text, owned, push_char, spec_decimal};
use crate::ubl::Namespace;
use crate::values::Date;
use crate::vat::VatTreatment;

verus! {

broadcast use lemma_push_then_drop, group_extends;

/// A number written with at least `width` digits, zeros in front.
pub open spec fn spec_padded(n: nat, width: nat) -> Seq<char> {
    let digits = spec_decimal(n);
    if digits.len() < width {
        Seq::new((width - digits.len()) as nat, |i: int| '0') + digits
    } else {
        digits
    }
}

/// Writes a number with at least `width` digits, zeros in front.
pub fn padded(n: u32, width: usize) -> (r: String)
    ensures
        r@ == spec_padded(n as nat, width as nat),
{
    let digits = decimal_text(n as u128);
    let length = digits.unicode_len();
    let mut r = String::new();
    if length < width {
        let mut i: usize = 0;
        while i < width - length
            invariant
                i <= width - length,
                r@ == Seq::new(i as nat, |j: int| '0'),
            decreases width - length - i,
        {
            push_char(&mut r, '0');
            assert(r@ =~= Seq::new((i + 1) as nat, |j: int| '0'));
            i = i + 1;
        }
    }
    append_str(&mut r, digits.as_str());
    r
}

/// A date as an ISO-8601 calendar date (`YYYY-MM-DD`), the UBL form: the year with at least
/// four characters, its sign included, and the month and the day with two digits.
pub open spec fn spec_date_text(year: int, month: int, day: int) -> Seq<char> {
    let y = if year >= 0 {
        spec_padded(year as nat, 4)
    } else {
        seq!['-'] + spec_padded((-year) as nat, 3)
    };
    y + seq!['-'] + spec_padded(month as nat, 2) + seq!['-'] + spec_padded(day as nat, 2)
}

/// Renders a date as an ISO-8601 calendar date (`YYYY-MM-DD`), the UBL form.
pub fn date_text(value: &Date) -> (r: String)
    ensures
        r@ == spec_date_text(value@.year, value@.month, value@.day),
{
    let year = value.year();
    let mut r = if year >= 0 {
        padded(year as u32, 4)
    } else {
        let mut r = String::new();
        push_char(&mut r, '-');
        let magnitude: u32 = if year == i32::MIN { 2147483648u32 } else { (-year) as u32 };
        let digits = padded(magnitude, 3);
        append_str(&mut r, digits.as_str());
        r
    };
    push_char(&mut r, '-');
    let month = padded(value.month() as u32, 2);
    append_str(&mut r, month.as_str());
    push_char(&mut r, '-');
    let day = padded(value.day() as u32, 2);
    append_str(&mut r, day.as_str());
    r
}

/// The form of a monetary amount: rounded to two places, halves away from zero, and written
/// with exactly two fraction digits when they fit the mantissa.
pub open spec fn spec_money(value: DecimalView) -> Seq<char> {
    let rounded = spec_round_dp(value, 2);
    let widened = rounded.mantissa * crate::decimal::pow10((2 - rounded.scale) as nat);
    if crate::decimal::fits(widened) {
        spec_decimal_text(DecimalView { mantissa: widened, scale: 2 })
    } else {
        spec_decimal_text(rounded)
    }
}

/// Renders a monetary amount rounded to two fraction digits, the EN-16931 form.
/// It is the only place where the library rounds an amount for writing.
pub fn money(value: &Decimal) -> (r: String)
    ensures
        r@ == spec_money(value@),
{
    let rounded = value.round_dp(2);
    match crate::decimal::pow10_i128(2 - rounded.scale) {
        Some(p) => match rounded.mantissa.checked_mul(p) {
            Some(m) => Decimal { mantissa: m, scale: 2 }.to_string(),
            None => rounded.to_string(),
        },
        None => rounded.to_string(),
    }
}

/// The character of the standard base64 alphabet for a six-bit value.
pub open spec fn spec_base64_digit(v: int) -> char {
    if v < 26 {
        ('A' as int + v) as char
    } else if v < 52 {
        ('a' as int + (v - 26)) as char
    } else if v < 62 {
        ('0' as int + (v - 52)) as char
    } else if v == 62 {
        '+'
    } else {
        '/'
    }
}

/// A content in standard base64 with padding: every three bytes give four characters of
/// six bits each, and a last group of one or two bytes is padded with `=` to four.
pub open spec fn spec_base64(content: Seq<u8>) -> Seq<char>
    decreases content.len(),
{
    if content.len() == 0 {
        Seq::empty()
    } else if content.len() == 1 {
        let b0 = content[0] as int;
        seq![spec_base64_digit(b0 / 4), spec_base64_digit((b0 % 4) * 16), '=', '=']
    } else if content.len() == 2 {
        let (b0, b1) = (content[0] as int, content[1] as int);
        seq![spec_base64_digit(b0 / 4), spec_base64_digit((b0 % 4) * 16 + b1 / 16), spec_base64_digit((b1 % 16) * 4), '=']
    } else {
        let (b0, b1, b2) = (content[0] as int, content[1] as int, content[2] as int);
        seq![
            spec_base64_digit(b0 / 4),
            spec_base64_digit((b0 % 4) * 16 + b1 / 16),
            spec_base64_digit((b1 % 16) * 4 + b2 / 64),
            spec_base64_digit(b2 % 64),
        ] + spec_base64(content.subrange(3, content.len() as int))
    }
}

/// The content encoded in standard base64 with padding.
///
/// Trusted: `base64::engine::general_purpose::STANDARD.encode`, which encodes with the
/// standard alphabet and pads the last group, as `spec_base64` states.
#[verifier::external_body]
pub(crate) fn encode_base64(content: &Vec<u8>) -> (r: String)
    ensures
        r@ == spec_base64(content@),
{
    base64::engine::general_purpose::STANDARD.encode(content)
}

/// A note as written: `#subject#text`, or the bare text when the subject is dropped.
pub open spec fn spec_note_text(subject: Option<Seq<char>>, text: Seq<char>, drop_subject: bool) -> Seq<char> {
    match subject {
        Some(code) => if drop_subject {
            text
        } else {
            seq!['#'] + code + seq!['#'] + text
        },
        None => text,
    }
}

/// Encodes a note as `#subject#text`, or the bare text when the subject is dropped.
pub fn note_text(note: &Note, drop_subject: bool) -> (r: String)
    ensures
        r@ == spec_note_text(
            match note.subject_code {
                Some(c) => Some(c@),
                None => None,
            },
            note.text@,
            drop_subject,
        ),
{
    match &note.subject_code {
        Some(code) => if drop_subject {
            note.text.to_string()
        } else {
            let mut r = String::new();
            push_char(&mut r, '#');
            append_str(&mut r, code.as_str());
            push_char(&mut r, '#');
            append_str(&mut r, note.text.as_str());
            r
        },
        None => note.text.to_string(),
    }
}

/// The context field a single-identifier reference term maps to: the empty text for a term
/// of no such field.
pub open spec fn spec_field_of(term: Term) -> Seq<char> {
    match term {
        Term::BT(11) => "project_reference"@,
        Term::BT(12) => "contract_reference"@,
        Term::BT(15) => "receiving_advice_reference"@,
        Term::BT(16) => "despatch_advice_reference"@,
        Term::BT(17) => "tender_or_lot_reference"@,
        Term::BT(27) | Term::BT(44) => "name"@,
        Term::BT(28) | Term::BT(45) => "trading_name"@,
        Term::BT(29) | Term::BT(46) | Term::BT(60) => "identifiers"@,
        Term::BT(30) | Term::BT(47) | Term::BT(61) => "legal_entity"@,
        Term::BT(31) | Term::BT(48) | Term::BT(63) => "vat"@,
        Term::BT(32) => "tax_registration"@,
        Term::BT(34) | Term::BT(49) => "electronic_address"@,
        Term::BT(41) | Term::BT(56) => "name"@,
        Term::BT(42) | Term::BT(57) => "telephone"@,
        Term::BT(43) | Term::BT(58) => "email"@,
        Term::BT(59) | Term::BT(62) => "name"@,
        Term::BT(70) => "name"@,
        Term::BG(6) | Term::BG(9) => "contact"@,
        _ => ""@,
    }
}

/// The context field a single-identifier reference term maps to.
pub fn field_of(term: Term) -> (r: &'static str)
    ensures
        r@ == spec_field_of(term),
{
    match term {
        Term::BT(11) => "project_reference",
        Term::BT(12) => "contract_reference",
        Term::BT(15) => "receiving_advice_reference",
        Term::BT(16) => "despatch_advice_reference",
        Term::BT(17) => "tender_or_lot_reference",
        Term::BT(27) | Term::BT(44) => "name",
        Term::BT(28) | Term::BT(45) => "trading_name",
        Term::BT(29) | Term::BT(46) | Term::BT(60) => "identifiers",
        Term::BT(30) | Term::BT(47) | Term::BT(61) => "legal_entity",
        Term::BT(31) | Term::BT(48) | Term::BT(63) => "vat",
        Term::BT(32) => "tax_registration",
        Term::BT(34) | Term::BT(49) => "electronic_address",
        Term::BT(41) | Term::BT(56) => "name",
        Term::BT(42) | Term::BT(57) => "telephone",
        Term::BT(43) | Term::BT(58) => "email",
        Term::BT(59) | Term::BT(62) => "name",
        Term::BT(70) => "name",
        Term::BG(6) | Term::BG(9) => "contact",
        _ => "",
    }
}

/// One attribute, as a pair of owned texts.
fn attribute(key: &str, value: &str) -> (r: Vec<(String, String)>)
    ensures
        r@.len() == 1,
        r@[0].0@ == key@,
        r@[0].1@ == value@,
{
    vec![(owned(key), owned(value))]
}

/// The `currencyID` attribute of an amount, absent without the invoice currency.
fn currency_attribute(invoice: &Invoice) -> (r: Vec<(String, String)>)
    ensures
        crate::token::spec_attributes(r@) == spec_currency(*invoice),
        invoice.currency is None ==> r@.len() == 0,
        invoice.currency matches Some(c) ==> r@.len() == 1 && r@[0].0@ == "currencyID"@ && r@[0].1@ == c@,
{
    let r = match &invoice.currency {
        Some(currency) => attribute("currencyID", currency.code()),
        None => Vec::new(),
    };
    assert(crate::token::spec_attributes(r@) =~= spec_currency(*invoice));
    r
}

/// The `currencyID` attribute of an amount in the invoice currency, absent without it.
pub open spec fn spec_currency(invoice: Invoice) -> Seq<(Seq<char>, Seq<char>)> {
    match invoice.currency {
        Some(c) => seq![("currencyID"@, c@)],
        None => Seq::empty(),
    }
}

/// Writes the whole invoice under the UBL root element, filling the dictionary and the
/// abbreviation table in the same pass. The profile stamps its `BT-24` identifier and
/// its forbidden terms are left out.
#[verifier::spinoff_prover]
#[verifier::rlimit(100)]
pub fn serialize(
    serializer: &mut Serializer<Namespace>,
    invoice: &Invoice,
    profile: Profile,
    business_process: &Option<String>,
)
    requires
        old(serializer).wf(),
        old(serializer).spec_abbreviations() == spec_default_entries::<Namespace>(),
    ensures
        final(serializer).wf(),
        final(serializer).spec_trace().spec_path() == old(serializer).spec_trace().spec_path(),
        final(serializer).spec_trace().spec_context() == old(serializer).spec_trace().spec_context(),
        final(serializer).spec_forbidden() == old(serializer).spec_forbidden(),
        spec_root_written::<Ubl>(old(serializer).spec_xml(), final(serializer).spec_xml()),
        final(serializer).spec_xml() == old(serializer).spec_xml() + spec_ubl_document(
            *invoice,
            profile,
            *business_process,
            old(serializer).spec_forbidden(),
        ),
        final(serializer).spec_trace().spec_dictionary().lookup(
            old(serializer).spec_trace().spec_path().push(crate::serializer::spec_root_step::<Ubl>(old(serializer).spec_trace())),
        ) == Some(Seq::<crate::context::SegmentView>::empty()),
        forall|n: Namespace| #[trigger] spec_lookup(
            final(serializer).spec_abbreviations(),
            crate::namespace::Namespace::spec_prefix(n),
        ) == Some(n),
        forall|n: Namespace| #[trigger] spec_lookup(
            final(serializer).spec_abbreviations(),
            crate::namespace::Namespace::spec_abbreviation(n),
        ) == Some(n),
{
    let s = serializer;
    let currency = currency_attribute(invoice);
    s.open_root::<Ubl>();
    let ghost inside = *s;
    serialize_body(s, invoice, profile, business_process, &currency);
    assert(s.spec_trace().spec_path() == inside.spec_trace().spec_path());
    s.close_root::<Ubl>();
    assert(s.spec_xml() =~= old(serializer).spec_xml() + spec_ubl_document(
        *invoice,
        profile,
        *business_process,
        old(serializer).spec_forbidden(),
    ));
}

/// Writes what the root element holds: the head and references, the parties, the delivery and
/// payment, and the tail.
#[verifier::spinoff_prover]
#[verifier::rlimit(100)]
fn serialize_body(
    s: &mut Serializer<Namespace>,
    invoice: &Invoice,
    profile: Profile,
    business_process: &Option<String>,
    currency: &Vec<(String, String)>,
)
    requires
        old(s).wf(),
        crate::token::spec_attributes(currency@) == spec_currency(*invoice),
    ensures
        spec_restored(*old(s), *final(s)),
        final(s).spec_xml() == old(s).spec_xml() + spec_ubl_body(*invoice, profile, *business_process, old(s).spec_forbidden()),
{
    header(s, invoice, profile, business_process);
    serialize_parties(s, invoice);
    let ghost front = s.spec_xml();
    assert(front =~= old(s).spec_xml() + spec_ubl_front(*invoice, profile, *business_process, old(s).spec_forbidden()));
    serialize_settlement(s, invoice);
    serialize_tail(s, invoice, currency);
    assert(s.spec_xml() =~= front + (spec_ubl_settlement(*invoice, old(s).spec_forbidden()) + spec_ubl_tail(*invoice, old(s).spec_forbidden())));
    proof {
        reveal(spec_ubl_body);
    }
    assert(s.spec_xml() =~= old(s).spec_xml() + spec_ubl_body(*invoice, profile, *business_process, old(s).spec_forbidden()));
}

/// The whole document as written: the root start tag with the declarations of every namespace,
/// the body and the root end tag.
pub open spec fn spec_ubl_document(invoice: Invoice, profile: Profile, business_process: Option<String>, forbidden: Seq<Term>) -> Seq<char> {
    spec_start_tag(
        spec_qname(Ubl::spec_root_namespace(), Ubl::spec_root_element()),
        spec_declarations(<Namespace as crate::namespace::Namespace>::spec_members()),
    ) + spec_ubl_body(invoice, profile, business_process, forbidden) + spec_end_tag(
        spec_qname(Ubl::spec_root_namespace(), Ubl::spec_root_element()),
    )
}

/// What the root element holds as written: the head and references, the parties, the delivery
/// and payment, and the tail. Its definition is revealed where it is needed.
#[verifier::opaque]
pub open spec fn spec_ubl_body(invoice: Invoice, profile: Profile, business_process: Option<String>, forbidden: Seq<Term>) -> Seq<char> {
    spec_ubl_front(invoice, profile, business_process, forbidden) + (spec_ubl_settlement(invoice, forbidden) + spec_ubl_tail(
        invoice,
        forbidden,
    ))
}

/// The front of the root element as written: the head, the references and the parties.
pub open spec fn spec_ubl_front(invoice: Invoice, profile: Profile, business_process: Option<String>, forbidden: Seq<Term>) -> Seq<char> {
    spec_ubl_head(invoice, profile, business_process, forbidden) + spec_references(invoice, forbidden)
        + spec_ubl_parties(invoice, forbidden)
}

/// The parties as written: the seller, the buyer, the payee and the tax representative.
pub open spec fn spec_ubl_parties(invoice: Invoice, forbidden: Seq<Term>) -> Seq<char> {
    (match invoice.seller {
        Some(p) => spec_supplier_party(p, forbidden),
        None => Seq::empty(),
    }) + (match invoice.buyer {
        Some(p) => spec_customer_party(p, forbidden),
        None => Seq::empty(),
    }) + (match invoice.payee {
        Some(p) => spec_payee_party(p, forbidden),
        None => Seq::empty(),
    }) + (match invoice.tax_representative {
        Some(p) => spec_tax_representative_party(p, forbidden),
        None => Seq::empty(),
    })
}

/// The payment instructions as written (`BG-16`), absent where the profile forbids them.
pub open spec fn spec_payment_means(payment: PaymentInstructions, forbidden: Seq<Term>) -> Seq<char> {
    if forbidden.contains(Term::BG(16)) {
        Seq::empty()
    } else {
        spec_group(Namespace::Cac, "PaymentMeans"@, spec_payment_means_body(payment))
    }
}

/// The payment terms as written (`BT-20`), absent where the profile forbids them.
pub open spec fn spec_payment_terms(terms: Option<crate::values::NonEmptyString>, forbidden: Seq<Term>) -> Seq<char> {
    match terms {
        Some(t) => if forbidden.contains(Term::BT(20)) {
            Seq::empty()
        } else {
            spec_group(Namespace::Cac, "PaymentTerms"@, spec_element(Namespace::Cbc, "Note"@, Seq::empty(), t@))
        },
        None => Seq::empty(),
    }
}

/// The delivery, the payment instructions and the payment terms as written.
pub open spec fn spec_ubl_settlement(invoice: Invoice, forbidden: Seq<Term>) -> Seq<char> {
    (match invoice.delivery {
        Some(d) => spec_delivery(d, forbidden),
        None => Seq::empty(),
    }) + (match invoice.payment {
        Some(p) => spec_payment_means(p, forbidden),
        None => Seq::empty(),
    }) + spec_payment_terms(invoice.payment_terms, forbidden)
}

/// Writes the parties: the seller, the buyer, the payee and the tax representative.
#[verifier::spinoff_prover]
#[verifier::rlimit(100)]
fn serialize_parties(s: &mut Serializer<Namespace>, invoice: &Invoice)
    requires
        old(s).wf(),
    ensures
        spec_restored(*old(s), *final(s)),
        final(s).spec_xml() == old(s).spec_xml() + spec_ubl_parties(*invoice, old(s).spec_forbidden()),
{
    if let Some(seller) = &invoice.seller {
        supplier_party(s, seller);
    }
    let ghost x1 = s.spec_xml();
    if let Some(buyer) = &invoice.buyer {
        customer_party(s, buyer);
    }
    let ghost x2 = s.spec_xml();
    if let Some(payee) = &invoice.payee {
        payee_party(s, payee);
    }
    let ghost x3 = s.spec_xml();
    if let Some(representative) = &invoice.tax_representative {
        tax_representative_party(s, representative);
    }
    assert(s.spec_xml() =~= old(s).spec_xml() + spec_ubl_parties(*invoice, old(s).spec_forbidden()));
}

/// Writes the delivery, the payment instructions and the payment terms.
#[verifier::spinoff_prover]
#[verifier::rlimit(100)]
fn serialize_settlement(s: &mut Serializer<Namespace>, invoice: &Invoice)
    requires
        old(s).wf(),
    ensures
        spec_restored(*old(s), *final(s)),
        final(s).spec_xml() == old(s).spec_xml() + spec_ubl_settlement(*invoice, old(s).spec_forbidden()),
{
    if let Some(delivery) = &invoice.delivery {
        delivery_group(s, delivery);
    }
    let ghost x1 = s.spec_xml();
    if let Some(payment) = &invoice.payment {
        payment_means(s, payment);
    }
    let ghost x2 = s.spec_xml();
    payment_terms(s, &invoice.payment_terms);
    assert(s.spec_xml() =~= old(s).spec_xml() + spec_ubl_settlement(*invoice, old(s).spec_forbidden()));
}

/// Writes the payment terms (`BT-20`), unless the profile forbids them.
#[verifier::spinoff_prover]
#[verifier::rlimit(100)]
fn payment_terms(s: &mut Serializer<Namespace>, terms: &Option<crate::values::NonEmptyString>)
    requires
        old(s).wf(),
    ensures
        spec_restored(*old(s), *final(s)),
        final(s).spec_xml() == old(s).spec_xml() + spec_payment_terms(*terms, old(s).spec_forbidden()),
{
    if let Some(terms) = terms {
        if s.open_group(Namespace::Cac, "PaymentTerms", "payment_terms", Term::BT(20)) {
            s.field_leaf(Namespace::Cbc, "Note", "payment_terms", terms.as_str());
            s.close_group(Namespace::Cac, "PaymentTerms");
        }
    }
    assert(s.spec_xml() =~= old(s).spec_xml() + spec_payment_terms(*terms, old(s).spec_forbidden()));
}

/// The head of the invoice as written, from the specification identifier to the buyer
/// reference.
pub open spec fn spec_ubl_head(invoice: Invoice, profile: Profile, business_process: Option<String>, forbidden: Seq<Term>) -> Seq<char> {
    spec_header_lead(invoice, profile, business_process, forbidden) + spec_notes(invoice.notes@, forbidden)
        + spec_header_codes(invoice, forbidden)
}

/// The tail of the invoice as written: the allowances and charges, the tax totals, the legal
/// monetary total and the lines.
pub open spec fn spec_ubl_tail(invoice: Invoice, forbidden: Seq<Term>) -> Seq<char> {
    spec_adjustments(invoice.adjustments@, forbidden, spec_currency(invoice)) + spec_tax_total(invoice, forbidden)
        + spec_legal_monetary_total(invoice, forbidden) + spec_lines(invoice.lines@, forbidden, spec_currency(invoice))
}

/// Writes the tail of the invoice: the allowances and charges, the tax totals, the legal
/// monetary total and the lines.
#[verifier::spinoff_prover]
#[verifier::rlimit(100)]
fn serialize_tail(s: &mut Serializer<Namespace>, invoice: &Invoice, currency: &Vec<(String, String)>)
    requires
        old(s).wf(),
        crate::token::spec_attributes(currency@) == spec_currency(*invoice),
    ensures
        spec_restored(*old(s), *final(s)),
        final(s).spec_xml() == old(s).spec_xml() + spec_ubl_tail(*invoice, old(s).spec_forbidden()),
{
    adjustments(s, &invoice.adjustments, currency);
    tax_total(s, invoice);
    legal_monetary_total(s, invoice);
    lines(s, &invoice.lines, currency);
    assert(s.spec_xml() =~= old(s).spec_xml() + spec_ubl_tail(*invoice, old(s).spec_forbidden()));
}

/// Writes the regulatory fields (`BT-23`/`BT-24`) and the header fields of the invoice,
/// then its periods and references.
#[verifier::rlimit(100)]
pub fn header(
    s: &mut Serializer<Namespace>,
    invoice: &Invoice,
    profile: Profile,
    business_process: &Option<String>,
)
    requires
        old(s).wf(),
    ensures
        spec_restored(*old(s), *final(s)),
        final(s).spec_xml() == old(s).spec_xml() + spec_ubl_head(*invoice, profile, *business_process, old(s).spec_forbidden())
            + spec_references(*invoice, old(s).spec_forbidden()),
{
    header_lead(s, invoice, profile, business_process);
    notes(s, &invoice.notes);
    header_codes(s, invoice);
    references(s, invoice);
    assert(s.spec_xml() =~= old(s).spec_xml() + spec_ubl_head(*invoice, profile, *business_process, old(s).spec_forbidden())
        + spec_references(*invoice, old(s).spec_forbidden()));
}

/// The regulatory fields and the first header fields as written: the specification
/// identifier (`BT-24`), the business process (`BT-23`), the number, the dates and the
/// type code.
pub open spec fn spec_header_lead(invoice: Invoice, profile: Profile, business_process: Option<String>, forbidden: Seq<Term>) -> Seq<char> {
    spec_element(Namespace::Cbc, "CustomizationID"@, Seq::empty(), crate::profile::spec_profile_id(profile))
        + crate::serializer::spec_text_element(Namespace::Cbc, "ProfileID"@, crate::cii_write::spec_string_text(business_process))
        + spec_header_dates(invoice, forbidden)
        + spec_term_element(
        forbidden,
        Term::BT(3),
        Namespace::Cbc,
        "InvoiceTypeCode"@,
        Seq::empty(),
        Some(spec_decimal(crate::invoice_type::spec_code(invoice.type_code))),
    )
}

/// A date leaf of the header as written, when the invoice states it and the profile allows it.
pub open spec fn spec_date_leaf(forbidden: Seq<Term>, term: Term, name: Seq<char>, date: Option<Date>) -> Seq<char> {
    spec_term_element(
        forbidden,
        term,
        Namespace::Cbc,
        name,
        Seq::empty(),
        match date {
            Some(d) => Some(spec_date_text(d@.year, d@.month, d@.day)),
            None => None,
        },
    )
}

/// The number, issue date and due date of the invoice as written.
pub open spec fn spec_header_dates(invoice: Invoice, forbidden: Seq<Term>) -> Seq<char> {
    spec_term_element(forbidden, Term::BT(1), Namespace::Cbc, "ID"@, Seq::empty(), crate::ubl_read::spec_texts(invoice.number))
        + spec_date_leaf(forbidden, Term::BT(2), "IssueDate"@, invoice.issue_date)
        + spec_date_leaf(forbidden, Term::BT(9), "DueDate"@, invoice.payment_due_date)
}

/// Writes the regulatory fields (`BT-24`/`BT-23`), the number, the dates and the type code.
#[verifier::rlimit(100)]
#[verifier::spinoff_prover]
fn header_lead(s: &mut Serializer<Namespace>, invoice: &Invoice, profile: Profile, business_process: &Option<String>)
    requires
        old(s).wf(),
    ensures
        spec_restored(*old(s), *final(s)),
        final(s).spec_xml() == old(s).spec_xml() + spec_header_lead(*invoice, profile, *business_process, old(s).spec_forbidden()),
{
    let none: Vec<(String, String)> = Vec::new();
    assert(crate::token::spec_attributes(none@) =~= Seq::empty());
    // Regulatory-flow fields: the specification identifier (BT-24) and business process (BT-23).
    let id = profile.to_string();
    s.rooted(Namespace::Cbc, "CustomizationID", &none, id.as_str());
    if let Some(process) = business_process {
        s.rooted(Namespace::Cbc, "ProfileID", &none, process.as_str());
    }
    let ghost x1 = s.spec_xml();
    header_dates(s, invoice);
    let ghost x2 = s.spec_xml();
    let code = invoice.type_code.to_string();
    s.leaf(Namespace::Cbc, "InvoiceTypeCode", "type_code", Term::BT(3), code.as_str());
    assert(s.spec_xml() =~= old(s).spec_xml() + spec_header_lead(*invoice, profile, *business_process, old(s).spec_forbidden()));
}

/// Writes the number, the issue date and the due date of the invoice.
#[verifier::rlimit(100)]
#[verifier::spinoff_prover]
fn header_dates(s: &mut Serializer<Namespace>, invoice: &Invoice)
    requires
        old(s).wf(),
    ensures
        spec_restored(*old(s), *final(s)),
        final(s).spec_xml() == old(s).spec_xml() + spec_header_dates(*invoice, old(s).spec_forbidden()),
{
    if let Some(number) = &invoice.number {
        s.leaf(Namespace::Cbc, "ID", "number", Term::BT(1), number.as_str());
    }
    let ghost x1 = s.spec_xml();
    if let Some(issued) = &invoice.issue_date {
        let text = date_text(issued);
        s.leaf(Namespace::Cbc, "IssueDate", "issue_date", Term::BT(2), text.as_str());
    }
    let ghost x2 = s.spec_xml();
    if let Some(due) = &invoice.payment_due_date {
        let text = date_text(due);
        s.leaf(Namespace::Cbc, "DueDate", "payment_due_date", Term::BT(9), text.as_str());
    }
    assert(s.spec_xml() =~= old(s).spec_xml() + spec_header_dates(*invoice, old(s).spec_forbidden()));
}

/// The VAT point date, the currencies and the buyer references of the header as written.
pub open spec fn spec_header_codes(invoice: Invoice, forbidden: Seq<Term>) -> Seq<char> {
    spec_header_currencies(invoice, forbidden) + spec_header_buyer_references(invoice, forbidden)
}

/// The VAT point date and the currencies of the header as written.
pub open spec fn spec_header_currencies(invoice: Invoice, forbidden: Seq<Term>) -> Seq<char> {
    spec_term_element(
        forbidden,
        Term::BT(7),
        Namespace::Cbc,
        "TaxPointDate"@,
        Seq::empty(),
        match invoice.vat_point {
            Some(VatPoint::Date(d)) => Some(spec_date_text(d@.year, d@.month, d@.day)),
            _ => None,
        },
    ) + spec_term_element(
        forbidden,
        Term::BT(5),
        Namespace::Cbc,
        "DocumentCurrencyCode"@,
        Seq::empty(),
        match invoice.currency {
            Some(c) => Some(c@),
            None => None,
        },
    ) + spec_term_element(
        forbidden,
        Term::BT(6),
        Namespace::Cbc,
        "TaxCurrencyCode"@,
        Seq::empty(),
        match invoice.vat_accounting_total {
            Some(a) => Some(a.currency@),
            None => None,
        },
    )
}

/// The buyer accounting reference and the buyer reference of the header as written.
pub open spec fn spec_header_buyer_references(invoice: Invoice, forbidden: Seq<Term>) -> Seq<char> {
    spec_term_element(
        forbidden,
        Term::BT(19),
        Namespace::Cbc,
        "AccountingCost"@,
        Seq::empty(),
        crate::ubl_read::spec_texts(invoice.buyer_accounting_reference),
    ) + spec_term_element(forbidden, Term::BT(10), Namespace::Cbc, "BuyerReference"@, Seq::empty(), crate::ubl_read::spec_texts(invoice.buyer_reference))
}

/// Writes the VAT point date (`BT-7`), the currencies (`BT-5`/`BT-6`) and the buyer
/// references (`BT-19`/`BT-10`) of the header.
#[verifier::spinoff_prover]
#[verifier::rlimit(100)]
pub fn header_codes(s: &mut Serializer<Namespace>, invoice: &Invoice)
    requires
        old(s).wf(),
    ensures
        spec_restored(*old(s), *final(s)),
        final(s).spec_xml() == old(s).spec_xml() + spec_header_codes(*invoice, old(s).spec_forbidden()),
{
    header_currencies(s, invoice);
    header_buyer_references(s, invoice);
    assert(s.spec_xml() =~= old(s).spec_xml() + spec_header_codes(*invoice, old(s).spec_forbidden()));
}

/// Writes the VAT point date (`BT-7`) and the currencies (`BT-5`/`BT-6`).
#[verifier::spinoff_prover]
#[verifier::rlimit(100)]
fn header_currencies(s: &mut Serializer<Namespace>, invoice: &Invoice)
    requires
        old(s).wf(),
    ensures
        spec_restored(*old(s), *final(s)),
        final(s).spec_xml() == old(s).spec_xml() + spec_header_currencies(*invoice, old(s).spec_forbidden()),
{
    if let Some(VatPoint::Date(point)) = &invoice.vat_point {
        let text = date_text(point);
        s.leaf(Namespace::Cbc, "TaxPointDate", "vat_point", Term::BT(7), text.as_str());
    }
    let ghost x1 = s.spec_xml();
    if let Some(c) = &invoice.currency {
        s.leaf(Namespace::Cbc, "DocumentCurrencyCode", "currency", Term::BT(5), c.code());
    }
    let ghost x2 = s.spec_xml();
    if let Some(accounting) = &invoice.vat_accounting_total {
        s.leaf(Namespace::Cbc, "TaxCurrencyCode", "vat_accounting_total", Term::BT(6), accounting.currency.code());
    }
    assert(s.spec_xml() =~= old(s).spec_xml() + spec_header_currencies(*invoice, old(s).spec_forbidden()));
}

/// Writes the buyer accounting reference (`BT-19`) and the buyer reference (`BT-10`).
#[verifier::spinoff_prover]
#[verifier::rlimit(100)]
fn header_buyer_references(s: &mut Serializer<Namespace>, invoice: &Invoice)
    requires
        old(s).wf(),
    ensures
        spec_restored(*old(s), *final(s)),
        final(s).spec_xml() == old(s).spec_xml() + spec_header_buyer_references(*invoice, old(s).spec_forbidden()),
{
    if let Some(reference) = &invoice.buyer_accounting_reference {
        s.leaf(Namespace::Cbc, "AccountingCost", "buyer_accounting_reference", Term::BT(19), reference.as_str());
    }
    let ghost x1 = s.spec_xml();
    if let Some(reference) = &invoice.buyer_reference {
        s.leaf(Namespace::Cbc, "BuyerReference", "buyer_reference", Term::BT(10), reference.as_str());
    }
    assert(s.spec_xml() =~= old(s).spec_xml() + spec_header_buyer_references(*invoice, old(s).spec_forbidden()));
}

/// Writes the periods, the references and the additional documents of the invoice.
#[verifier::spinoff_prover]
#[verifier::rlimit(100)]
pub fn references(s: &mut Serializer<Namespace>, invoice: &Invoice)
    requires
        old(s).wf(),
    ensures
        spec_restored(*old(s), *final(s)),
        final(s).spec_xml() == old(s).spec_xml() + spec_references(*invoice, old(s).spec_forbidden()),
{
    invoice_period(s, invoice);
    order_reference(s, invoice);
    billing_references(s, &invoice.preceding_invoices);
    let ghost x1 = s.spec_xml();
    document_references(s, invoice);
    let ghost x2 = s.spec_xml();
    additional_documents(s, invoice);
    optional_reference(s, "ProjectReference", Term::BT(11), &invoice.project_reference);
    assert(s.spec_xml() =~= old(s).spec_xml() + spec_references(*invoice, old(s).spec_forbidden()));
}

/// A document reference carrying a single identifier as written, when there is one and the
/// profile allows its term.
pub open spec fn spec_reference_group(element: Seq<char>, term: Term, id: Option<crate::values::NonEmptyString>, forbidden: Seq<Term>) -> Seq<char> {
    match id {
        Some(v) => if forbidden.contains(term) {
            Seq::empty()
        } else {
            spec_group(Namespace::Cac, element, spec_element(Namespace::Cbc, "ID"@, Seq::empty(), v@))
        },
        None => Seq::empty(),
    }
}

/// The despatch advice, receiving advice, tender or lot and contract references as written.
pub open spec fn spec_document_references(invoice: Invoice, forbidden: Seq<Term>) -> Seq<char> {
    spec_reference_group("DespatchDocumentReference"@, Term::BT(16), invoice.despatch_advice_reference, forbidden)
        + spec_reference_group("ReceiptDocumentReference"@, Term::BT(15), invoice.receiving_advice_reference, forbidden)
        + spec_reference_group("OriginatorDocumentReference"@, Term::BT(17), invoice.tender_or_lot_reference, forbidden)
        + spec_reference_group("ContractDocumentReference"@, Term::BT(12), invoice.contract_reference, forbidden)
}

/// The periods, references and additional documents of the invoice as written.
pub open spec fn spec_references(invoice: Invoice, forbidden: Seq<Term>) -> Seq<char> {
    spec_invoice_period(invoice, forbidden) + spec_order_reference(invoice, forbidden)
        + spec_billing_references(invoice.preceding_invoices@, forbidden) + spec_document_references(invoice, forbidden)
        + spec_additional_documents(invoice, forbidden)
        + spec_reference_group("ProjectReference"@, Term::BT(11), invoice.project_reference, forbidden)
}

/// Writes the despatch advice, receiving advice, tender or lot and contract references.
#[verifier::spinoff_prover]
#[verifier::rlimit(100)]
fn document_references(s: &mut Serializer<Namespace>, invoice: &Invoice)
    requires
        old(s).wf(),
    ensures
        spec_restored(*old(s), *final(s)),
        final(s).spec_xml() == old(s).spec_xml() + spec_document_references(*invoice, old(s).spec_forbidden()),
{
    optional_reference(s, "DespatchDocumentReference", Term::BT(16), &invoice.despatch_advice_reference);
    optional_reference(s, "ReceiptDocumentReference", Term::BT(15), &invoice.receiving_advice_reference);
    optional_reference(s, "OriginatorDocumentReference", Term::BT(17), &invoice.tender_or_lot_reference);
    optional_reference(s, "ContractDocumentReference", Term::BT(12), &invoice.contract_reference);
    assert(s.spec_xml() =~= old(s).spec_xml() + spec_document_references(*invoice, old(s).spec_forbidden()));
}

/// Writes a document reference carrying an identifier, when there is one.
#[verifier::spinoff_prover]
#[verifier::rlimit(100)]
fn optional_reference(s: &mut Serializer<Namespace>, element: &str, term: Term, id: &Option<crate::values::NonEmptyString>)
    requires
        old(s).wf(),
    ensures
        spec_restored(*old(s), *final(s)),
        final(s).spec_xml() == old(s).spec_xml() + spec_reference_group(element@, term, *id, old(s).spec_forbidden()),
{
    if let Some(reference) = id {
        reference_group(s, element, term, reference.as_str());
    }
    assert(s.spec_xml() =~= old(s).spec_xml() + spec_reference_group(element@, term, *id, old(s).spec_forbidden()));
}

/// Writes the notes (`BG-1`), each a repeatable single-value element; the subject codes are
/// dropped when the profile forbids them (`BT-21`).
#[verifier::spinoff_prover]
#[verifier::rlimit(100)]
pub fn notes(s: &mut Serializer<Namespace>, notes: &Vec<Note>)
    requires
        old(s).wf(),
    ensures
        spec_restored(*old(s), *final(s)),
        spec_wrapped_each(
            old(s).spec_xml(),
            final(s).spec_xml(),
            Namespace::Cbc,
            "Note"@,
            if old(s).spec_forbidden().contains(Term::BG(1)) { 0 } else { notes@.len() },
        ),
        final(s).spec_xml() == old(s).spec_xml() + spec_notes(notes@, old(s).spec_forbidden()),
{
    let drop_subject = s.forbids(Term::BT(21));
    let mut i: usize = 0;
    while i < notes.len()
        invariant
            i <= notes@.len(),
            old(s).wf(),
            drop_subject == old(s).spec_forbidden().contains(Term::BT(21)),
            spec_restored(*old(s), *s),
            spec_wrapped_each(old(s).spec_xml(), s.spec_xml(), Namespace::Cbc, "Note"@, if old(s).spec_forbidden().contains(Term::BG(1)) { 0 } else { i as nat }),
            s.spec_xml() == old(s).spec_xml() + spec_notes(notes@.take(i as int), old(s).spec_forbidden()),
        decreases notes@.len() - i,
    {
        let ghost previous = s.spec_xml();
        let text = note_text(&notes[i], drop_subject);
        s.repeatable_leaf(Namespace::Cbc, "Note", "notes", Term::BG(1), i + 1, text.as_str());
        proof {
            if !old(s).spec_forbidden().contains(Term::BG(1)) {
                assert(spec_wrapped(previous, s.spec_xml(), Namespace::Cbc, "Note"@));
            }
            let done = notes@.take(i + 1);
            assert(done.drop_last() =~= notes@.take(i as int));
            assert(s.spec_xml() =~= old(s).spec_xml() + spec_notes(done, old(s).spec_forbidden()));
        }
        i = i + 1;
    }
    assert(notes@.take(i as int) =~= notes@);
}

/// One note as written, its subject code dropped where the profile forbids it (`BT-21`).
pub open spec fn spec_note(note: Note, forbidden: Seq<Term>) -> Seq<char> {
    spec_element(
        Namespace::Cbc,
        "Note"@,
        Seq::empty(),
        spec_note_text(
            match note.subject_code {
                Some(c) => Some(c@),
                None => None,
            },
            note.text@,
            forbidden.contains(Term::BT(21)),
        ),
    )
}

/// The notes as written (`BG-1`), none where the profile forbids them.
pub open spec fn spec_notes(notes: Seq<Note>, forbidden: Seq<Term>) -> Seq<char>
    decreases notes.len(),
{
    if notes.len() == 0 || forbidden.contains(Term::BG(1)) {
        Seq::empty()
    } else {
        spec_notes(notes.drop_last(), forbidden) + spec_note(notes.last(), forbidden)
    }
}

/// Writes the invoice period (`BG-14`) and the VAT point date code (`BT-8`).
#[verifier::spinoff_prover]
#[verifier::rlimit(100)]
pub fn invoice_period(s: &mut Serializer<Namespace>, invoice: &Invoice)
    requires
        old(s).wf(),
    ensures
        spec_restored(*old(s), *final(s)),
        (invoice.invoicing_period is Some || invoice.vat_point matches Some(VatPoint::Event(_))) && !old(s).spec_forbidden().contains(Term::BG(14)) ==> spec_wrapped(old(s).spec_xml(), final(s).spec_xml(), Namespace::Cac, "InvoicePeriod"@),
        !(invoice.invoicing_period is Some || invoice.vat_point matches Some(VatPoint::Event(_))) || old(s).spec_forbidden().contains(Term::BG(14)) ==> *final(s) == *old(s),
        final(s).spec_xml() == old(s).spec_xml() + spec_invoice_period(*invoice, old(s).spec_forbidden()),
{
    let event = match &invoice.vat_point {
        Some(VatPoint::Event(code)) => Some(decimal_text(*code as u128)),
        _ => None,
    };
    assert(crate::cii_write::spec_string_text(event) == crate::cii_write::spec_event_text(invoice.vat_point));
    if invoice.invoicing_period.is_none() && event.is_none() {
        assert(s.spec_xml() =~= old(s).spec_xml() + Seq::<char>::empty());
        return;
    }
    if s.open_group(Namespace::Cac, "InvoicePeriod", "invoicing_period", Term::BG(14)) {
        let ghost opened = s.spec_xml();
        if let Some(period) = &invoice.invoicing_period {
            period_dates(s, period, "invoicing_period");
        }
        let ghost dated = s.spec_xml();
        if let Some(code) = &event {
            s.field_leaf(Namespace::Cbc, "DescriptionCode", "vat_point", code.as_str());
        }
        s.close_group(Namespace::Cac, "InvoicePeriod");
        assert(s.spec_xml() =~= old(s).spec_xml() + spec_invoice_period(*invoice, old(s).spec_forbidden()));
    } else {
        assert(s.spec_xml() =~= old(s).spec_xml() + Seq::<char>::empty());
    }
}

/// The invoice period (`BG-14`) with the VAT point date code (`BT-8`) as written: absent
/// without either, or where the profile forbids the period.
pub open spec fn spec_invoice_period(invoice: Invoice, forbidden: Seq<Term>) -> Seq<char> {
    if !(invoice.invoicing_period is Some || invoice.vat_point matches Some(VatPoint::Event(_))) || forbidden.contains(Term::BG(14)) {
        Seq::empty()
    } else {
        spec_group(
            Namespace::Cac,
            "InvoicePeriod"@,
            (match invoice.invoicing_period {
                Some(p) => spec_date_element("StartDate"@, p.start) + spec_date_element("EndDate"@, p.end),
                None => Seq::empty(),
            }) + crate::serializer::spec_text_element(Namespace::Cbc, "DescriptionCode"@, crate::cii_write::spec_event_text(invoice.vat_point)),
        )
    }
}

/// Writes the start and end dates of a period, each mapped to the field of the period.
#[verifier::spinoff_prover]
#[verifier::rlimit(100)]
fn period_dates(s: &mut Serializer<Namespace>, period: &Period, field: &'static str)
    requires
        old(s).wf(),
    ensures
        spec_restored(*old(s), *final(s)),
        final(s).spec_xml() == old(s).spec_xml() + spec_date_element("StartDate"@, period.start) + spec_date_element("EndDate"@, period.end),
{
    if let Some(start) = &period.start {
        let text = date_text(start);
        s.field_leaf(Namespace::Cbc, "StartDate", field, text.as_str());
    }
    let ghost middle = s.spec_xml();
    if let Some(end) = &period.end {
        let text = date_text(end);
        s.field_leaf(Namespace::Cbc, "EndDate", field, text.as_str());
    }
    assert(s.spec_xml() =~= old(s).spec_xml() + spec_date_element("StartDate"@, period.start) + spec_date_element("EndDate"@, period.end));
}

/// Writes the order and sales order references (`BT-13`/`BT-14`).
#[verifier::spinoff_prover]
#[verifier::rlimit(100)]
pub fn order_reference(s: &mut Serializer<Namespace>, invoice: &Invoice)
    requires
        old(s).wf(),
    ensures
        spec_restored(*old(s), *final(s)),
        invoice.purchase_order_reference is Some || invoice.sales_order_reference is Some ==> spec_wrapped(old(s).spec_xml(), final(s).spec_xml(), Namespace::Cac, "OrderReference"@),
        !(invoice.purchase_order_reference is Some || invoice.sales_order_reference is Some) ==> *final(s) == *old(s),
        final(s).spec_xml() == old(s).spec_xml() + spec_order_reference(*invoice, old(s).spec_forbidden()),
{
    if invoice.purchase_order_reference.is_none() && invoice.sales_order_reference.is_none() {
        assert(s.spec_xml() =~= old(s).spec_xml() + Seq::<char>::empty());
        return;
    }
    s.open_structural(Namespace::Cac, "OrderReference");
    let ghost opened = *s;
    if let Some(order) = &invoice.purchase_order_reference {
        s.leaf(Namespace::Cbc, "ID", "purchase_order_reference", Term::BT(13), order.as_str());
    }
    let ghost middle = s.spec_xml();
    if let Some(sales) = &invoice.sales_order_reference {
        s.leaf(Namespace::Cbc, "SalesOrderID", "sales_order_reference", Term::BT(14), sales.as_str());
    }
    assert(spec_restored(opened, *s));
    s.close_wrapper(Namespace::Cac, "OrderReference");
    assert(s.spec_xml() =~= old(s).spec_xml() + spec_order_reference(*invoice, old(s).spec_forbidden()));
}

/// The order and sales order references as written (`BT-13`/`BT-14`), absent without both.
pub open spec fn spec_order_reference(invoice: Invoice, forbidden: Seq<Term>) -> Seq<char> {
    if invoice.purchase_order_reference is None && invoice.sales_order_reference is None {
        Seq::empty()
    } else {
        spec_group(
            Namespace::Cac,
            "OrderReference"@,
            spec_term_element(forbidden, Term::BT(13), Namespace::Cbc, "ID"@, Seq::empty(), crate::ubl_read::spec_texts(invoice.purchase_order_reference))
                + spec_term_element(forbidden, Term::BT(14), Namespace::Cbc, "SalesOrderID"@, Seq::empty(), crate::ubl_read::spec_texts(invoice.sales_order_reference)),
        )
    }
}

/// Writes the preceding invoice references (`BG-3`).
#[verifier::spinoff_prover]
#[verifier::rlimit(100)]
pub fn billing_references(s: &mut Serializer<Namespace>, preceding: &Vec<PrecedingInvoice>)
    requires
        old(s).wf(),
    ensures
        spec_restored(*old(s), *final(s)),
        spec_wrapped_each(
            old(s).spec_xml(),
            final(s).spec_xml(),
            Namespace::Cac,
            "BillingReference"@,
            if old(s).spec_forbidden().contains(Term::BG(3)) { 0 } else { preceding@.len() },
        ),
        final(s).spec_xml() == old(s).spec_xml() + spec_billing_references(preceding@, old(s).spec_forbidden()),
{
    let mut i: usize = 0;
    while i < preceding.len()
        invariant
            i <= preceding@.len(),
            old(s).wf(),
            spec_restored(*old(s), *s),
            spec_wrapped_each(old(s).spec_xml(), s.spec_xml(), Namespace::Cac, "BillingReference"@, if old(s).spec_forbidden().contains(Term::BG(3)) { 0 } else { i as nat }),
            s.spec_xml() == old(s).spec_xml() + spec_billing_references(preceding@.take(i as int), old(s).spec_forbidden()),
        decreases preceding@.len() - i,
    {
        let ghost previous = s.spec_xml();
        billing_reference(s, &preceding[i], i + 1);
        proof {
            if !old(s).spec_forbidden().contains(Term::BG(3)) {
                assert(spec_wrapped(previous, s.spec_xml(), Namespace::Cac, "BillingReference"@));
            }
            let done = preceding@.take(i + 1);
            assert(done.drop_last() =~= preceding@.take(i as int));
            assert(s.spec_xml() =~= old(s).spec_xml() + spec_billing_references(done, old(s).spec_forbidden()));
        }
        i = i + 1;
    }
    assert(preceding@.take(i as int) =~= preceding@);
}

/// One preceding invoice reference as written (`BG-3`), absent where the profile forbids it.
pub open spec fn spec_billing_reference(invoice: PrecedingInvoice, forbidden: Seq<Term>) -> Seq<char> {
    if forbidden.contains(Term::BG(3)) {
        Seq::empty()
    } else {
        spec_group(
            Namespace::Cac,
            "BillingReference"@,
            spec_group(
                Namespace::Cac,
                "InvoiceDocumentReference"@,
                spec_optional_element(Namespace::Cbc, "ID"@, invoice.number) + spec_date_element("IssueDate"@, invoice.issue_date),
            ),
        )
    }
}

/// The preceding invoice references as written, one after the other.
pub open spec fn spec_billing_references(invoices: Seq<PrecedingInvoice>, forbidden: Seq<Term>) -> Seq<char>
    decreases invoices.len(),
{
    if invoices.len() == 0 {
        Seq::empty()
    } else {
        spec_billing_references(invoices.drop_last(), forbidden) + spec_billing_reference(invoices.last(), forbidden)
    }
}

/// Writes one preceding invoice reference (`BG-3`), unless the profile forbids it.
#[verifier::spinoff_prover]
#[verifier::rlimit(100)]
fn billing_reference(s: &mut Serializer<Namespace>, invoice: &PrecedingInvoice, instance: usize)
    requires
        old(s).wf(),
    ensures
        spec_restored(*old(s), *final(s)),
        !old(s).spec_forbidden().contains(Term::BG(3)) ==> spec_wrapped(old(s).spec_xml(), final(s).spec_xml(), Namespace::Cac, "BillingReference"@),
        final(s).spec_xml() == old(s).spec_xml() + spec_billing_reference(*invoice, old(s).spec_forbidden()),
{
    if s.open_repeatable(Namespace::Cac, "BillingReference", "preceding_invoices", Term::BG(3), instance) {
        s.open_structural(Namespace::Cac, "InvoiceDocumentReference");
        let ghost opened = *s;
        if let Some(number) = &invoice.number {
            s.field_leaf(Namespace::Cbc, "ID", "number", number.as_str());
        }
        let ghost middle = s.spec_xml();
        if let Some(issued) = &invoice.issue_date {
            let text = date_text(issued);
            s.field_leaf(Namespace::Cbc, "IssueDate", "issue_date", text.as_str());
        }
        assert(spec_restored(opened, *s));
        s.close_wrapper(Namespace::Cac, "InvoiceDocumentReference");
        s.close_group(Namespace::Cac, "BillingReference");
        assert(s.spec_xml() =~= old(s).spec_xml() + spec_billing_reference(*invoice, old(s).spec_forbidden()));
    } else {
        assert(s.spec_xml() =~= old(s).spec_xml() + Seq::<char>::empty());
    }
}

/// Writes a document reference carrying a single identifier.
#[verifier::spinoff_prover]
#[verifier::rlimit(100)]
pub fn reference_group(s: &mut Serializer<Namespace>, element: &str, term: Term, id: &str)
    requires
        old(s).wf(),
    ensures
        spec_restored(*old(s), *final(s)),
        !old(s).spec_forbidden().contains(term) ==> spec_wrapped(old(s).spec_xml(), final(s).spec_xml(), Namespace::Cac, element@),
        old(s).spec_forbidden().contains(term) ==> *final(s) == *old(s),
        !old(s).spec_forbidden().contains(term) ==> final(s).spec_xml() == old(s).spec_xml() + spec_group(
            Namespace::Cac,
            element@,
            spec_element(Namespace::Cbc, "ID"@, Seq::empty(), id@),
        ),
{
    let field = field_of(term);
    if s.open_group(Namespace::Cac, element, field, term) {
        s.field_leaf(Namespace::Cbc, "ID", field, id);
        s.close_group(Namespace::Cac, element);
    }
}

/// Writes the invoiced object (`BT-18`) and the supporting documents (`BG-24`).
#[verifier::spinoff_prover]
#[verifier::rlimit(100)]
pub fn additional_documents(s: &mut Serializer<Namespace>, invoice: &Invoice)
    requires
        old(s).wf(),
    ensures
        spec_restored(*old(s), *final(s)),
        spec_wrapped_each(
            old(s).spec_xml(),
            final(s).spec_xml(),
            Namespace::Cac,
            "AdditionalDocumentReference"@,
            (if invoice.object is Some && !old(s).spec_forbidden().contains(Term::BT(18)) { 1nat } else { 0nat }) + (if old(s).spec_forbidden().contains(
                Term::BG(24),
            ) {
                0nat
            } else {
                invoice.supporting_documents@.len()
            }),
        ),
        final(s).spec_xml() == old(s).spec_xml() + spec_additional_documents(*invoice, old(s).spec_forbidden()),
{
    let ghost first: nat = if invoice.object is Some && !old(s).spec_forbidden().contains(Term::BT(18)) { 1nat } else { 0nat };
    proof {
        assert(spec_wrapped_each(old(s).spec_xml(), old(s).spec_xml(), Namespace::Cac, "AdditionalDocumentReference"@, 0nat));
    }
    if let Some(object) = &invoice.object {
        additional_object(s, object);
        proof {
            if first == 1 {
                assert(spec_wrapped_each(old(s).spec_xml(), s.spec_xml(), Namespace::Cac, "AdditionalDocumentReference"@, 1nat));
            }
        }
    } else {
        assert(s.spec_xml() =~= old(s).spec_xml() + Seq::<char>::empty());
    }
    let ghost objected = s.spec_xml();
    let documents = &invoice.supporting_documents;
    let mut i: usize = 0;
    while i < documents.len()
        invariant
            i <= documents@.len(),
            old(s).wf(),
            spec_restored(*old(s), *s),
            spec_wrapped_each(
                old(s).spec_xml(),
                s.spec_xml(),
                Namespace::Cac,
                "AdditionalDocumentReference"@,
                first + (if old(s).spec_forbidden().contains(Term::BG(24)) { 0nat } else { i as nat }),
            ),
            s.spec_xml() == objected + spec_supporting_documents(documents@.take(i as int), old(s).spec_forbidden()),
        decreases documents@.len() - i,
    {
        let ghost previous = s.spec_xml();
        additional_supporting(s, &documents[i], i + 1);
        proof {
            if !old(s).spec_forbidden().contains(Term::BG(24)) {
                assert(spec_wrapped(previous, s.spec_xml(), Namespace::Cac, "AdditionalDocumentReference"@));
            }
            let done = documents@.take(i + 1);
            assert(done.drop_last() =~= documents@.take(i as int));
            assert(s.spec_xml() =~= objected + spec_supporting_documents(done, old(s).spec_forbidden()));
        }
        i = i + 1;
    }
    assert(documents@.take(i as int) =~= documents@);
    assert(s.spec_xml() =~= old(s).spec_xml() + spec_additional_documents(*invoice, old(s).spec_forbidden()));
}

/// The invoiced object (`BT-18`) as an additional document reference, as written.
pub open spec fn spec_additional_object(object: ObjectReference, forbidden: Seq<Term>) -> Seq<char> {
    if forbidden.contains(Term::BT(18)) {
        Seq::empty()
    } else {
        spec_group(
            Namespace::Cac,
            "AdditionalDocumentReference"@,
            spec_element(Namespace::Cbc, "ID"@, spec_scheme_attribute(object.scheme), object.id@)
                + spec_element(Namespace::Cbc, "DocumentTypeCode"@, Seq::empty(), "130"@),
        )
    }
}

/// One supporting document as written (`BG-24`): its reference and description, its external
/// location unless the profile forbids it (`BT-124`), and its attachment.
pub open spec fn spec_supporting_document(document: SupportingDocument, forbidden: Seq<Term>) -> Seq<char> {
    if forbidden.contains(Term::BG(24)) {
        Seq::empty()
    } else {
        spec_group(
            Namespace::Cac,
            "AdditionalDocumentReference"@,
            spec_element(Namespace::Cbc, "ID"@, Seq::empty(), document.reference@)
                + spec_term_element(forbidden, Term::BT(123), Namespace::Cbc, "DocumentDescription"@, Seq::empty(), crate::ubl_read::spec_texts(document.description))
                + spec_supporting_attachments(document, forbidden),
        )
    }
}

/// The external location and the embedded attachment of a supporting document as written.
pub open spec fn spec_supporting_attachments(document: SupportingDocument, forbidden: Seq<Term>) -> Seq<char> {
    (match document.external_location {
        Some(location) => if forbidden.contains(Term::BT(124)) {
            Seq::empty()
        } else {
            spec_group(
                Namespace::Cac,
                "Attachment"@,
                spec_group(Namespace::Cac, "ExternalReference"@, spec_element(Namespace::Cbc, "URI"@, Seq::empty(), location@)),
            )
        },
        None => Seq::empty(),
    }) + (match document.attachment {
        Some(binary) => spec_group(
            Namespace::Cac,
            "Attachment"@,
            spec_element(
                Namespace::Cbc,
                "EmbeddedDocumentBinaryObject"@,
                seq![("mimeCode"@, binary.mime@), ("filename"@, binary.filename@)],
                spec_base64(binary.content@),
            ),
        ),
        None => Seq::empty(),
    })
}

/// The supporting documents as written, one after the other.
pub open spec fn spec_supporting_documents(documents: Seq<SupportingDocument>, forbidden: Seq<Term>) -> Seq<char>
    decreases documents.len(),
{
    if documents.len() == 0 {
        Seq::empty()
    } else {
        spec_supporting_documents(documents.drop_last(), forbidden) + spec_supporting_document(documents.last(), forbidden)
    }
}

/// The invoiced object and the supporting documents as written.
pub open spec fn spec_additional_documents(invoice: Invoice, forbidden: Seq<Term>) -> Seq<char> {
    (match invoice.object {
        Some(o) => spec_additional_object(o, forbidden),
        None => Seq::empty(),
    }) + spec_supporting_documents(invoice.supporting_documents@, forbidden)
}

/// Writes the invoiced object identifier as an additional document reference.
#[verifier::spinoff_prover]
#[verifier::rlimit(100)]
pub fn additional_object(s: &mut Serializer<Namespace>, object: &ObjectReference)
    requires
        old(s).wf(),
    ensures
        spec_restored(*old(s), *final(s)),
        !old(s).spec_forbidden().contains(Term::BT(18)) ==> spec_wrapped(old(s).spec_xml(), final(s).spec_xml(), Namespace::Cac, "AdditionalDocumentReference"@),
        old(s).spec_forbidden().contains(Term::BT(18)) ==> *final(s) == *old(s),
        final(s).spec_xml() == old(s).spec_xml() + spec_additional_object(*object, old(s).spec_forbidden()),
{
    if s.open_group(Namespace::Cac, "AdditionalDocumentReference", "object", Term::BT(18)) {
        let attributes = match &object.scheme {
            Some(scheme) => attribute("schemeID", scheme.as_str()),
            None => Vec::new(),
        };
        assert(crate::token::spec_attributes(attributes@) =~= spec_scheme_attribute(object.scheme));
        s.derived(Namespace::Cbc, "ID", &attributes, object.id.as_str());
        let none: Vec<(String, String)> = Vec::new();
        assert(crate::token::spec_attributes(none@) =~= Seq::empty());
        s.derived(Namespace::Cbc, "DocumentTypeCode", &none, "130");
        s.close_group(Namespace::Cac, "AdditionalDocumentReference");
        assert(s.spec_xml() =~= old(s).spec_xml() + spec_additional_object(*object, old(s).spec_forbidden()));
    } else {
        assert(s.spec_xml() =~= old(s).spec_xml() + Seq::<char>::empty());
    }
}

/// Writes a supporting document (`BG-24`) as an additional document reference.
#[verifier::spinoff_prover]
#[verifier::rlimit(100)]
pub fn additional_supporting(s: &mut Serializer<Namespace>, document: &SupportingDocument, instance: usize)
    requires
        old(s).wf(),
    ensures
        spec_restored(*old(s), *final(s)),
        !old(s).spec_forbidden().contains(Term::BG(24)) ==> spec_wrapped(old(s).spec_xml(), final(s).spec_xml(), Namespace::Cac, "AdditionalDocumentReference"@),
        old(s).spec_forbidden().contains(Term::BG(24)) ==> *final(s) == *old(s),
        final(s).spec_xml() == old(s).spec_xml() + spec_supporting_document(*document, old(s).spec_forbidden()),
{
    if s.open_repeatable(
        Namespace::Cac,
        "AdditionalDocumentReference",
        "supporting_documents",
        Term::BG(24),
        instance,
    ) {
        let ghost opened = s.spec_xml();
        s.field_leaf(Namespace::Cbc, "ID", "reference", document.reference.as_str());
        let ghost x1 = s.spec_xml();
        if let Some(description) = &document.description {
            s.leaf(Namespace::Cbc, "DocumentDescription", "description", Term::BT(123), description.as_str());
        }
        let ghost x2 = s.spec_xml();
        supporting_attachments(s, document);
        s.close_group(Namespace::Cac, "AdditionalDocumentReference");
        assert(s.spec_xml() =~= old(s).spec_xml() + spec_supporting_document(*document, old(s).spec_forbidden()));
    } else {
        assert(s.spec_xml() =~= old(s).spec_xml() + Seq::<char>::empty());
    }
}

/// Writes the external location, unless the profile forbids it, and the embedded attachment
/// of a supporting document.
#[verifier::spinoff_prover]
#[verifier::rlimit(100)]
fn supporting_attachments(s: &mut Serializer<Namespace>, document: &SupportingDocument)
    requires
        old(s).wf(),
    ensures
        spec_restored(*old(s), *final(s)),
        final(s).spec_xml() == old(s).spec_xml() + spec_supporting_attachments(*document, old(s).spec_forbidden()),
{
    if let Some(location) = &document.external_location {
        if !s.forbids(Term::BT(124)) {
            s.open_structural(Namespace::Cac, "Attachment");
            let ghost outer = *s;
            structural_uri(s, location.as_str());
            assert(spec_restored(outer, *s));
            s.close_wrapper(Namespace::Cac, "Attachment");
        }
    }
    let ghost located = s.spec_xml();
    if let Some(binary) = &document.attachment {
        s.open_structural(Namespace::Cac, "Attachment");
        let ghost outer = *s;
        embedded_binary(s, binary);
        assert(spec_restored(outer, *s));
        s.close_wrapper(Namespace::Cac, "Attachment");
    }
    assert(s.spec_xml() =~= old(s).spec_xml() + spec_supporting_attachments(*document, old(s).spec_forbidden()));
}

/// Writes an external reference around the location of a supporting document (`BT-124`).
#[verifier::spinoff_prover]
#[verifier::rlimit(100)]
fn structural_uri(s: &mut Serializer<Namespace>, location: &str)
    requires
        old(s).wf(),
    ensures
        spec_restored(*old(s), *final(s)),
        final(s).spec_xml() == old(s).spec_xml() + spec_group(
            Namespace::Cac,
            "ExternalReference"@,
            spec_element(Namespace::Cbc, "URI"@, Seq::empty(), location@),
        ),
{
    s.open_structural(Namespace::Cac, "ExternalReference");
    s.field_leaf(Namespace::Cbc, "URI", "external_location", location);
    s.close_wrapper(Namespace::Cac, "ExternalReference");
}

/// Writes an embedded binary attachment (`BT-125`), its content in base64.
#[verifier::spinoff_prover]
#[verifier::rlimit(100)]
pub fn embedded_binary(s: &mut Serializer<Namespace>, binary: &BinaryObject)
    requires
        old(s).wf(),
    ensures
        spec_restored(*old(s), *final(s)),
        final(s).spec_xml() == old(s).spec_xml() + spec_element(
            Namespace::Cbc,
            "EmbeddedDocumentBinaryObject"@,
            seq![("mimeCode"@, binary.mime@), ("filename"@, binary.filename@)],
            spec_base64(binary.content@),
        ),
{
    let encoded = encode_base64(&binary.content);
    let attributes = vec![
        (owned("mimeCode"), binary.mime.to_string()),
        (owned("filename"), binary.filename.to_string()),
    ];
    assert(crate::token::spec_attributes(attributes@) =~= seq![
        ("mimeCode"@, binary.mime@),
        ("filename"@, binary.filename@),
    ]);
    s.write_field_leaf(
        Namespace::Cbc,
        "EmbeddedDocumentBinaryObject",
        "attachment",
        &attributes,
        encoded.as_str(),
    );
}

/// Writes the seller (`BG-4`) under the supplier party wrapper.
#[verifier::spinoff_prover]
#[verifier::rlimit(100)]
pub fn supplier_party(s: &mut Serializer<Namespace>, seller: &Seller)
    requires
        old(s).wf(),
    ensures
        spec_restored(*old(s), *final(s)),
        spec_wrapped(old(s).spec_xml(), final(s).spec_xml(), Namespace::Cac, "AccountingSupplierParty"@),
        final(s).spec_xml() == old(s).spec_xml() + spec_supplier_party(*seller, old(s).spec_forbidden()),
{
    s.open_structural(Namespace::Cac, "AccountingSupplierParty");
    let ghost outer = *s;
    if s.open_group(Namespace::Cac, "Party", "seller", Term::BG(4)) {
        let ghost opened = s.spec_xml();
        seller_head(s, seller);
        seller_taxes(s, seller);
        seller_legal(s, seller);
        let ghost legal = s.spec_xml();
        if let Some(contact) = &seller.contact {
            contact_group(s, contact, Term::BG(6), Term::BT(41), Term::BT(42), Term::BT(43));
        }
        s.close_group(Namespace::Cac, "Party");
        assert(s.spec_xml() =~= outer.spec_xml() + spec_party_group(Term::BG(4), spec_seller_body(*seller, old(s).spec_forbidden()), old(s).spec_forbidden()));
    } else {
        assert(s.spec_xml() =~= outer.spec_xml() + spec_party_group(Term::BG(4), spec_seller_body(*seller, old(s).spec_forbidden()), old(s).spec_forbidden()));
    }
    assert(spec_restored(outer, *s));
    s.close_wrapper(Namespace::Cac, "AccountingSupplierParty");
    assert(s.spec_xml() =~= old(s).spec_xml() + spec_supplier_party(*seller, old(s).spec_forbidden()));
}

/// A party group as written around its body, absent where the profile forbids its term.
pub open spec fn spec_party_group(term: Term, body: Seq<char>, forbidden: Seq<Term>) -> Seq<char> {
    if forbidden.contains(term) {
        Seq::empty()
    } else {
        spec_group(Namespace::Cac, "Party"@, body)
    }
}

/// An optional endpoint as written.
pub open spec fn spec_optional_endpoint(address: Option<ElectronicAddress>, term: Term, forbidden: Seq<Term>) -> Seq<char> {
    match address {
        Some(a) => spec_endpoint(a, term, forbidden),
        None => Seq::empty(),
    }
}

/// The identification part of a seller as written: its endpoint, identifiers, trading name and
/// address.
pub open spec fn spec_seller_head(seller: Seller, forbidden: Seq<Term>) -> Seq<char> {
    spec_optional_endpoint(seller.electronic_address, Term::BT(34), forbidden)
        + spec_party_identifiers(seller.identifiers@, Term::BT(29), forbidden)
        + spec_party_name(crate::ubl_read::spec_texts(seller.trading_name), Term::BT(28), forbidden)
        + spec_postal_address("PostalAddress"@, Term::BG(5), seller.address, forbidden)
}

/// The VAT identifier of a party, when it has one.
pub open spec fn spec_vat_id(vat: Option<crate::model::VatIdentifier>) -> Option<Seq<char>> {
    match vat {
        Some(v) => Some(v.id@),
        None => None,
    }
}

/// The tax schemes of a seller as written: its VAT identifier and its tax registration.
pub open spec fn spec_seller_taxes(seller: Seller, forbidden: Seq<Term>) -> Seq<char> {
    spec_party_tax_scheme(spec_vat_id(seller.vat), "VAT"@, Term::BT(31), forbidden)
        + spec_party_tax_scheme(crate::ubl_read::spec_texts(seller.tax_registration), "FC"@, Term::BT(32), forbidden)
}

/// The legal entity of a seller as written: its name, registration and legal form.
pub open spec fn spec_seller_legal(seller: Seller, forbidden: Seq<Term>) -> Seq<char> {
    spec_group(
        Namespace::Cac,
        "PartyLegalEntity"@,
        spec_term_element(forbidden, Term::BT(27), Namespace::Cbc, "RegistrationName"@, Seq::empty(), crate::ubl_read::spec_texts(seller.name))
            + spec_legal_entity(seller.legal_entity, Term::BT(30), forbidden)
            + spec_term_element(
            forbidden,
            Term::BT(33),
            Namespace::Cbc,
            "CompanyLegalForm"@,
            Seq::empty(),
            crate::ubl_read::spec_texts(seller.additional_legal_information),
        ),
    )
}

/// What the seller party holds as written.
pub open spec fn spec_seller_body(seller: Seller, forbidden: Seq<Term>) -> Seq<char> {
    spec_seller_head(seller, forbidden) + spec_seller_taxes(seller, forbidden) + spec_seller_legal(seller, forbidden)
        + spec_contact(seller.contact, Term::BG(6), Term::BT(41), Term::BT(42), Term::BT(43), forbidden)
}

/// The seller as written (`BG-4`) under the supplier party wrapper.
pub open spec fn spec_supplier_party(seller: Seller, forbidden: Seq<Term>) -> Seq<char> {
    spec_group(
        Namespace::Cac,
        "AccountingSupplierParty"@,
        spec_party_group(Term::BG(4), spec_seller_body(seller, forbidden), forbidden),
    )
}

/// Writes the endpoint, identifiers, trading name and address of a seller.
#[verifier::spinoff_prover]
#[verifier::rlimit(100)]
fn seller_head(s: &mut Serializer<Namespace>, seller: &Seller)
    requires
        old(s).wf(),
    ensures
        spec_restored(*old(s), *final(s)),
        final(s).spec_xml() == old(s).spec_xml() + spec_seller_head(*seller, old(s).spec_forbidden()),
{
    party_head(s, &seller.electronic_address, &seller.identifiers, &seller.trading_name, &seller.address, Term::BT(34), Term::BT(29), Term::BT(28), Term::BG(5));
    assert(s.spec_xml() =~= old(s).spec_xml() + spec_seller_head(*seller, old(s).spec_forbidden()));
}

/// Writes the endpoint, identifiers, trading name and address of a party.
#[verifier::spinoff_prover]
#[verifier::rlimit(100)]
fn party_head(
    s: &mut Serializer<Namespace>,
    electronic_address: &Option<ElectronicAddress>,
    identifiers: &Vec<OperationalEntity>,
    trading_name: &Option<crate::values::NonEmptyString>,
    address: &Option<PostalAddress>,
    endpoint_term: Term,
    identifier_term: Term,
    name_term: Term,
    address_group: Term,
)
    requires
        old(s).wf(),
    ensures
        spec_restored(*old(s), *final(s)),
        final(s).spec_xml() == old(s).spec_xml() + spec_optional_endpoint(*electronic_address, endpoint_term, old(s).spec_forbidden())
            + spec_party_identifiers(identifiers@, identifier_term, old(s).spec_forbidden())
            + spec_party_name(crate::ubl_read::spec_texts(*trading_name), name_term, old(s).spec_forbidden())
            + spec_postal_address("PostalAddress"@, address_group, *address, old(s).spec_forbidden()),
{
    if let Some(a) = electronic_address {
        endpoint(s, a, endpoint_term);
    }
    let ghost x1 = s.spec_xml();
    party_identifiers(s, identifiers, identifier_term);
    let ghost x2 = s.spec_xml();
    if let Some(trading) = trading_name {
        party_name(s, trading.as_str(), name_term);
    }
    let ghost x3 = s.spec_xml();
    if let Some(a) = address {
        postal_address(s, "PostalAddress", address_group, a);
    }
    assert(s.spec_xml() =~= old(s).spec_xml() + spec_optional_endpoint(*electronic_address, endpoint_term, old(s).spec_forbidden())
        + spec_party_identifiers(identifiers@, identifier_term, old(s).spec_forbidden())
        + spec_party_name(crate::ubl_read::spec_texts(*trading_name), name_term, old(s).spec_forbidden())
        + spec_postal_address("PostalAddress"@, address_group, *address, old(s).spec_forbidden()));
}

/// Writes the tax scheme of a party's VAT identifier, when it has one.
#[verifier::spinoff_prover]
#[verifier::rlimit(100)]
fn vat_scheme(s: &mut Serializer<Namespace>, vat: &Option<crate::model::VatIdentifier>, term: Term)
    requires
        old(s).wf(),
    ensures
        spec_restored(*old(s), *final(s)),
        final(s).spec_xml() == old(s).spec_xml() + spec_party_tax_scheme(spec_vat_id(*vat), "VAT"@, term, old(s).spec_forbidden()),
{
    if let Some(v) = vat {
        party_tax_scheme(s, v.id.as_str(), "VAT", term);
    }
    assert(s.spec_xml() =~= old(s).spec_xml() + spec_party_tax_scheme(spec_vat_id(*vat), "VAT"@, term, old(s).spec_forbidden()));
}

/// Writes the VAT identifier and the tax registration of a seller.
#[verifier::spinoff_prover]
#[verifier::rlimit(100)]
fn seller_taxes(s: &mut Serializer<Namespace>, seller: &Seller)
    requires
        old(s).wf(),
    ensures
        spec_restored(*old(s), *final(s)),
        final(s).spec_xml() == old(s).spec_xml() + spec_seller_taxes(*seller, old(s).spec_forbidden()),
{
    vat_scheme(s, &seller.vat, Term::BT(31));
    let ghost x1 = s.spec_xml();
    if let Some(registration) = &seller.tax_registration {
        party_tax_scheme(s, registration.as_str(), "FC", Term::BT(32));
    }
    assert(s.spec_xml() =~= old(s).spec_xml() + spec_seller_taxes(*seller, old(s).spec_forbidden()));
}

/// Writes a legal registration identifier, when there is one.
#[verifier::spinoff_prover]
#[verifier::rlimit(100)]
fn optional_legal_entity(s: &mut Serializer<Namespace>, entity: &Option<LegalEntity>, term: Term)
    requires
        old(s).wf(),
    ensures
        spec_restored(*old(s), *final(s)),
        final(s).spec_xml() == old(s).spec_xml() + spec_legal_entity(*entity, term, old(s).spec_forbidden()),
{
    if let Some(e) = entity {
        legal_entity_id(s, e, term);
    }
    assert(s.spec_xml() =~= old(s).spec_xml() + spec_legal_entity(*entity, term, old(s).spec_forbidden()));
}

/// Writes a leaf of a field, when there is a value and the profile allows its term.
#[verifier::spinoff_prover]
#[verifier::rlimit(100)]
fn optional_leaf(s: &mut Serializer<Namespace>, name: &str, field: &'static str, term: Term, value: &Option<crate::values::NonEmptyString>)
    requires
        old(s).wf(),
    ensures
        spec_restored(*old(s), *final(s)),
        final(s).spec_xml() == old(s).spec_xml() + spec_term_element(
            old(s).spec_forbidden(),
            term,
            Namespace::Cbc,
            name@,
            Seq::empty(),
            crate::ubl_read::spec_texts(*value),
        ),
{
    if let Some(v) = value {
        s.leaf(Namespace::Cbc, name, field, term, v.as_str());
    }
    assert(s.spec_xml() =~= old(s).spec_xml() + spec_term_element(
        old(s).spec_forbidden(),
        term,
        Namespace::Cbc,
        name@,
        Seq::empty(),
        crate::ubl_read::spec_texts(*value),
    ));
}

/// Writes the legal entity of a seller: its name, registration and legal form.
#[verifier::spinoff_prover]
#[verifier::rlimit(100)]
fn seller_legal(s: &mut Serializer<Namespace>, seller: &Seller)
    requires
        old(s).wf(),
    ensures
        spec_restored(*old(s), *final(s)),
        final(s).spec_xml() == old(s).spec_xml() + spec_seller_legal(*seller, old(s).spec_forbidden()),
{
    s.open_structural(Namespace::Cac, "PartyLegalEntity");
    let ghost opened = *s;
    optional_leaf(s, "RegistrationName", "name", Term::BT(27), &seller.name);
    optional_legal_entity(s, &seller.legal_entity, Term::BT(30));
    optional_leaf(s, "CompanyLegalForm", "additional_legal_information", Term::BT(33), &seller.additional_legal_information);
    assert(spec_restored(opened, *s));
    s.close_wrapper(Namespace::Cac, "PartyLegalEntity");
    assert(s.spec_xml() =~= old(s).spec_xml() + spec_seller_legal(*seller, old(s).spec_forbidden()));
}

/// Writes the buyer (`BG-7`) under the customer party wrapper.
#[verifier::spinoff_prover]
#[verifier::rlimit(100)]
pub fn customer_party(s: &mut Serializer<Namespace>, buyer: &Buyer)
    requires
        old(s).wf(),
    ensures
        spec_restored(*old(s), *final(s)),
        spec_wrapped(old(s).spec_xml(), final(s).spec_xml(), Namespace::Cac, "AccountingCustomerParty"@),
        final(s).spec_xml() == old(s).spec_xml() + spec_customer_party(*buyer, old(s).spec_forbidden()),
{
    s.open_structural(Namespace::Cac, "AccountingCustomerParty");
    let ghost outer = *s;
    if s.open_group(Namespace::Cac, "Party", "buyer", Term::BG(7)) {
        let ghost opened = s.spec_xml();
        buyer_head(s, buyer);
        buyer_legal(s, buyer);
        let ghost legal = s.spec_xml();
        if let Some(contact) = &buyer.contact {
            contact_group(s, contact, Term::BG(9), Term::BT(56), Term::BT(57), Term::BT(58));
        }
        s.close_group(Namespace::Cac, "Party");
        assert(s.spec_xml() =~= outer.spec_xml() + spec_party_group(Term::BG(7), spec_buyer_body(*buyer, old(s).spec_forbidden()), old(s).spec_forbidden()));
    } else {
        assert(s.spec_xml() =~= outer.spec_xml() + spec_party_group(Term::BG(7), spec_buyer_body(*buyer, old(s).spec_forbidden()), old(s).spec_forbidden()));
    }
    assert(spec_restored(outer, *s));
    s.close_wrapper(Namespace::Cac, "AccountingCustomerParty");
    assert(s.spec_xml() =~= old(s).spec_xml() + spec_customer_party(*buyer, old(s).spec_forbidden()));
}

/// The legal entity of a buyer as written: its name and registration.
pub open spec fn spec_buyer_legal(buyer: Buyer, forbidden: Seq<Term>) -> Seq<char> {
    spec_group(
        Namespace::Cac,
        "PartyLegalEntity"@,
        spec_term_element(forbidden, Term::BT(44), Namespace::Cbc, "RegistrationName"@, Seq::empty(), crate::ubl_read::spec_texts(buyer.name))
            + spec_legal_entity(buyer.legal_entity, Term::BT(47), forbidden),
    )
}

/// The identification and tax part of a buyer as written: its endpoint, identifiers, trading
/// name, address and VAT identifier.
pub open spec fn spec_buyer_head(buyer: Buyer, forbidden: Seq<Term>) -> Seq<char> {
    spec_optional_endpoint(buyer.electronic_address, Term::BT(49), forbidden)
        + spec_party_identifiers(buyer.identifiers@, Term::BT(46), forbidden)
        + spec_party_name(crate::ubl_read::spec_texts(buyer.trading_name), Term::BT(45), forbidden)
        + spec_postal_address("PostalAddress"@, Term::BG(8), buyer.address, forbidden)
        + spec_party_tax_scheme(spec_vat_id(buyer.vat), "VAT"@, Term::BT(48), forbidden)
}

/// What the buyer party holds as written.
pub open spec fn spec_buyer_body(buyer: Buyer, forbidden: Seq<Term>) -> Seq<char> {
    spec_buyer_head(buyer, forbidden)
        + spec_buyer_legal(buyer, forbidden)
        + spec_contact(buyer.contact, Term::BG(9), Term::BT(56), Term::BT(57), Term::BT(58), forbidden)
}

/// The buyer as written (`BG-7`) under the customer party wrapper.
pub open spec fn spec_customer_party(buyer: Buyer, forbidden: Seq<Term>) -> Seq<char> {
    spec_group(
        Namespace::Cac,
        "AccountingCustomerParty"@,
        spec_party_group(Term::BG(7), spec_buyer_body(buyer, forbidden), forbidden),
    )
}

/// Writes the endpoint, identifiers, trading name, address and VAT identifier of a buyer.
#[verifier::spinoff_prover]
#[verifier::rlimit(100)]
fn buyer_head(s: &mut Serializer<Namespace>, buyer: &Buyer)
    requires
        old(s).wf(),
    ensures
        spec_restored(*old(s), *final(s)),
        final(s).spec_xml() == old(s).spec_xml() + spec_buyer_head(*buyer, old(s).spec_forbidden()),
{
    party_head(s, &buyer.electronic_address, &buyer.identifiers, &buyer.trading_name, &buyer.address, Term::BT(49), Term::BT(46), Term::BT(45), Term::BG(8));
    vat_scheme(s, &buyer.vat, Term::BT(48));
    assert(s.spec_xml() =~= old(s).spec_xml() + spec_buyer_head(*buyer, old(s).spec_forbidden()));
}

/// Writes the legal entity of a buyer: its name and registration.
#[verifier::spinoff_prover]
#[verifier::rlimit(100)]
fn buyer_legal(s: &mut Serializer<Namespace>, buyer: &Buyer)
    requires
        old(s).wf(),
    ensures
        spec_restored(*old(s), *final(s)),
        final(s).spec_xml() == old(s).spec_xml() + spec_buyer_legal(*buyer, old(s).spec_forbidden()),
{
    s.open_structural(Namespace::Cac, "PartyLegalEntity");
    let ghost opened = *s;
    optional_leaf(s, "RegistrationName", "name", Term::BT(44), &buyer.name);
    optional_legal_entity(s, &buyer.legal_entity, Term::BT(47));
    assert(spec_restored(opened, *s));
    s.close_wrapper(Namespace::Cac, "PartyLegalEntity");
    assert(s.spec_xml() =~= old(s).spec_xml() + spec_buyer_legal(*buyer, old(s).spec_forbidden()));
}

/// Writes the payee (`BG-10`).
#[verifier::spinoff_prover]
#[verifier::rlimit(100)]
pub fn payee_party(s: &mut Serializer<Namespace>, payee: &Payee)
    requires
        old(s).wf(),
    ensures
        spec_restored(*old(s), *final(s)),
        !old(s).spec_forbidden().contains(Term::BG(10)) ==> spec_wrapped(old(s).spec_xml(), final(s).spec_xml(), Namespace::Cac, "PayeeParty"@),
        old(s).spec_forbidden().contains(Term::BG(10)) ==> *final(s) == *old(s),
        final(s).spec_xml() == old(s).spec_xml() + spec_payee_party(*payee, old(s).spec_forbidden()),
{
    if s.open_group(Namespace::Cac, "PayeeParty", "payee", Term::BG(10)) {
        let ghost opened = s.spec_xml();
        party_identifiers(s, &payee.identifiers, Term::BT(60));
        let ghost x1 = s.spec_xml();
        if let Some(name) = &payee.name {
            party_name(s, name.as_str(), Term::BT(59));
        }
        let ghost x2 = s.spec_xml();
        if let Some(entity) = &payee.legal_entity {
            s.open_structural(Namespace::Cac, "PartyLegalEntity");
            let ghost inner = *s;
            legal_entity_id(s, entity, Term::BT(61));
            assert(spec_restored(inner, *s));
            s.close_wrapper(Namespace::Cac, "PartyLegalEntity");
        }
        s.close_group(Namespace::Cac, "PayeeParty");
        assert(s.spec_xml() =~= old(s).spec_xml() + spec_payee_party(*payee, old(s).spec_forbidden()));
    } else {
        assert(s.spec_xml() =~= old(s).spec_xml() + Seq::<char>::empty());
    }
}

/// The payee as written (`BG-10`), absent where the profile forbids it.
pub open spec fn spec_payee_party(payee: Payee, forbidden: Seq<Term>) -> Seq<char> {
    if forbidden.contains(Term::BG(10)) {
        Seq::empty()
    } else {
        spec_group(
            Namespace::Cac,
            "PayeeParty"@,
            spec_party_identifiers(payee.identifiers@, Term::BT(60), forbidden)
                + spec_party_name(crate::ubl_read::spec_texts(payee.name), Term::BT(59), forbidden)
                + match payee.legal_entity {
                Some(e) => spec_group(Namespace::Cac, "PartyLegalEntity"@, spec_legal_entity(Some(e), Term::BT(61), forbidden)),
                None => Seq::empty(),
            },
        )
    }
}

/// Writes the seller tax representative (`BG-11`).
#[verifier::spinoff_prover]
#[verifier::rlimit(100)]
pub fn tax_representative_party(s: &mut Serializer<Namespace>, representative: &TaxRepresentative)
    requires
        old(s).wf(),
    ensures
        spec_restored(*old(s), *final(s)),
        !old(s).spec_forbidden().contains(Term::BG(11)) ==> spec_wrapped(old(s).spec_xml(), final(s).spec_xml(), Namespace::Cac, "TaxRepresentativeParty"@),
        old(s).spec_forbidden().contains(Term::BG(11)) ==> *final(s) == *old(s),
        final(s).spec_xml() == old(s).spec_xml() + spec_tax_representative_party(*representative, old(s).spec_forbidden()),
{
    if s.open_group(Namespace::Cac, "TaxRepresentativeParty", "tax_representative", Term::BG(11)) {
        let ghost opened = s.spec_xml();
        if let Some(name) = &representative.name {
            party_name(s, name.as_str(), Term::BT(62));
        }
        let ghost x1 = s.spec_xml();
        if let Some(address) = &representative.address {
            postal_address(s, "PostalAddress", Term::BG(12), address);
        }
        let ghost x2 = s.spec_xml();
        vat_scheme(s, &representative.vat, Term::BT(63));
        s.close_group(Namespace::Cac, "TaxRepresentativeParty");
        assert(s.spec_xml() =~= old(s).spec_xml() + spec_tax_representative_party(*representative, old(s).spec_forbidden()));
    } else {
        assert(s.spec_xml() =~= old(s).spec_xml() + Seq::<char>::empty());
    }
}

/// The seller tax representative as written (`BG-11`), absent where the profile forbids it.
pub open spec fn spec_tax_representative_party(representative: TaxRepresentative, forbidden: Seq<Term>) -> Seq<char> {
    if forbidden.contains(Term::BG(11)) {
        Seq::empty()
    } else {
        spec_group(
            Namespace::Cac,
            "TaxRepresentativeParty"@,
            spec_party_name(crate::ubl_read::spec_texts(representative.name), Term::BT(62), forbidden)
                + spec_postal_address("PostalAddress"@, Term::BG(12), representative.address, forbidden)
                + spec_party_tax_scheme(spec_vat_id(representative.vat), "VAT"@, Term::BT(63), forbidden),
        )
    }
}

/// Writes a party endpoint electronic address (`BT-34`/`BT-49`).
#[verifier::spinoff_prover]
#[verifier::rlimit(100)]
pub fn endpoint(s: &mut Serializer<Namespace>, address: &ElectronicAddress, term: Term)
    requires
        old(s).wf(),
    ensures
        spec_restored(*old(s), *final(s)),
        address.id is None ==> *final(s) == *old(s),
        old(s).spec_forbidden().contains(term) ==> *final(s) == *old(s),
        final(s).spec_xml() == old(s).spec_xml() + spec_endpoint(*address, term, old(s).spec_forbidden()),
{
    let id = match &address.id {
        Some(id) => id,
        None => {
            assert(s.spec_xml() =~= old(s).spec_xml() + Seq::<char>::empty());
            return;
        },
    };
    let attributes = match &address.scheme {
        Some(scheme) => attribute("schemeID", scheme.as_str()),
        None => Vec::new(),
    };
    assert(crate::token::spec_attributes(attributes@) =~= spec_scheme_attribute(address.scheme));
    s.leaf_attr(Namespace::Cbc, "EndpointID", field_of(term), term, &attributes, id.as_str());
    assert(s.spec_xml() =~= old(s).spec_xml() + spec_endpoint(*address, term, old(s).spec_forbidden()));
}

/// A party endpoint as written, when it has an identifier and the profile allows its term.
pub open spec fn spec_endpoint(address: ElectronicAddress, term: Term, forbidden: Seq<Term>) -> Seq<char> {
    spec_term_element(forbidden, term, Namespace::Cbc, "EndpointID"@, spec_scheme_attribute(address.scheme), crate::ubl_read::spec_texts(address.id))
}

/// Writes the party identifiers (`BT-29`/`BT-46`/`BT-60`).
#[verifier::spinoff_prover]
#[verifier::rlimit(100)]
pub fn party_identifiers(s: &mut Serializer<Namespace>, identifiers: &Vec<OperationalEntity>, term: Term)
    requires
        old(s).wf(),
    ensures
        spec_restored(*old(s), *final(s)),
        spec_wrapped_each(
            old(s).spec_xml(),
            final(s).spec_xml(),
            Namespace::Cac,
            "PartyIdentification"@,
            if old(s).spec_forbidden().contains(term) { 0 } else { identifiers@.len() },
        ),
        final(s).spec_xml() == old(s).spec_xml() + spec_party_identifiers(identifiers@, term, old(s).spec_forbidden()),
{
    let field = field_of(term);
    let mut i: usize = 0;
    while i < identifiers.len()
        invariant
            i <= identifiers@.len(),
            old(s).wf(),
            spec_restored(*old(s), *s),
            spec_wrapped_each(old(s).spec_xml(), s.spec_xml(), Namespace::Cac, "PartyIdentification"@, if old(s).spec_forbidden().contains(term) { 0 } else { i as nat }),
            s.spec_xml() == old(s).spec_xml() + spec_party_identifiers(identifiers@.take(i as int), term, old(s).spec_forbidden()),
        decreases identifiers@.len() - i,
    {
        let ghost previous = s.spec_xml();
        party_identifier(s, &identifiers[i], field, term);
        proof {
            if !old(s).spec_forbidden().contains(term) {
                assert(spec_wrapped(previous, s.spec_xml(), Namespace::Cac, "PartyIdentification"@));
            }
            let done = identifiers@.take(i + 1);
            assert(done.drop_last() =~= identifiers@.take(i as int));
            assert(s.spec_xml() =~= old(s).spec_xml() + spec_party_identifiers(done, term, old(s).spec_forbidden()));
        }
        i = i + 1;
    }
    assert(identifiers@.take(i as int) =~= identifiers@);
}

/// One party identifier as written, absent where the profile forbids its term.
pub open spec fn spec_party_identifier(identifier: OperationalEntity, term: Term, forbidden: Seq<Term>) -> Seq<char> {
    if forbidden.contains(term) {
        Seq::empty()
    } else {
        spec_group(
            Namespace::Cac,
            "PartyIdentification"@,
            spec_element(Namespace::Cbc, "ID"@, spec_scheme_attribute(identifier.issuer), identifier.id@),
        )
    }
}

/// The party identifiers as written, one after the other.
pub open spec fn spec_party_identifiers(identifiers: Seq<OperationalEntity>, term: Term, forbidden: Seq<Term>) -> Seq<char>
    decreases identifiers.len(),
{
    if identifiers.len() == 0 {
        Seq::empty()
    } else {
        spec_party_identifiers(identifiers.drop_last(), term, forbidden) + spec_party_identifier(identifiers.last(), term, forbidden)
    }
}

/// Writes one party identifier, unless the profile forbids its term.
#[verifier::spinoff_prover]
#[verifier::rlimit(100)]
fn party_identifier(s: &mut Serializer<Namespace>, identifier: &OperationalEntity, field: &'static str, term: Term)
    requires
        old(s).wf(),
    ensures
        spec_restored(*old(s), *final(s)),
        !old(s).spec_forbidden().contains(term) ==> spec_wrapped(old(s).spec_xml(), final(s).spec_xml(), Namespace::Cac, "PartyIdentification"@),
        final(s).spec_xml() == old(s).spec_xml() + spec_party_identifier(*identifier, term, old(s).spec_forbidden()),
{
    if s.open_group(Namespace::Cac, "PartyIdentification", field, term) {
        let attributes = match &identifier.issuer {
            Some(issuer) => attribute("schemeID", issuer.as_str()),
            None => Vec::new(),
        };
        assert(crate::token::spec_attributes(attributes@) =~= spec_scheme_attribute(identifier.issuer));
        s.write_field_leaf(Namespace::Cbc, "ID", field, &attributes, identifier.id.as_str());
        s.close_group(Namespace::Cac, "PartyIdentification");
        assert(s.spec_xml() =~= old(s).spec_xml() + spec_party_identifier(*identifier, term, old(s).spec_forbidden()));
    } else {
        assert(s.spec_xml() =~= old(s).spec_xml() + Seq::<char>::empty());
    }
}

/// Writes a party trading name (`BT-28`/`BT-45`).
#[verifier::spinoff_prover]
#[verifier::rlimit(100)]
pub fn party_name(s: &mut Serializer<Namespace>, name: &str, term: Term)
    requires
        old(s).wf(),
    ensures
        spec_restored(*old(s), *final(s)),
        !old(s).spec_forbidden().contains(term) ==> spec_wrapped(old(s).spec_xml(), final(s).spec_xml(), Namespace::Cac, "PartyName"@),
        old(s).spec_forbidden().contains(term) ==> *final(s) == *old(s),
        final(s).spec_xml() == old(s).spec_xml() + spec_party_name(Some(name@), term, old(s).spec_forbidden()),
{
    let field = field_of(term);
    if s.open_group(Namespace::Cac, "PartyName", field, term) {
        s.field_leaf(Namespace::Cbc, "Name", field, name);
        s.close_group(Namespace::Cac, "PartyName");
        assert(s.spec_xml() =~= old(s).spec_xml() + spec_party_name(Some(name@), term, old(s).spec_forbidden()));
    } else {
        assert(s.spec_xml() =~= old(s).spec_xml() + Seq::<char>::empty());
    }
}

/// A party name group as written, when there is a name and the profile allows its term.
pub open spec fn spec_party_name(name: Option<Seq<char>>, term: Term, forbidden: Seq<Term>) -> Seq<char> {
    match name {
        Some(n) => if forbidden.contains(term) {
            Seq::empty()
        } else {
            spec_group(Namespace::Cac, "PartyName"@, spec_element(Namespace::Cbc, "Name"@, Seq::empty(), n))
        },
        None => Seq::empty(),
    }
}

/// Writes a party tax scheme carrying a company id under a scheme code.
#[verifier::spinoff_prover]
#[verifier::rlimit(100)]
pub fn party_tax_scheme(s: &mut Serializer<Namespace>, company: &str, scheme: &str, term: Term)
    requires
        old(s).wf(),
    ensures
        spec_restored(*old(s), *final(s)),
        !old(s).spec_forbidden().contains(term) ==> spec_wrapped(old(s).spec_xml(), final(s).spec_xml(), Namespace::Cac, "PartyTaxScheme"@),
        old(s).spec_forbidden().contains(term) ==> *final(s) == *old(s),
        final(s).spec_xml() == old(s).spec_xml() + spec_party_tax_scheme(Some(company@), scheme@, term, old(s).spec_forbidden()),
{
    let field = field_of(term);
    if s.open_group(Namespace::Cac, "PartyTaxScheme", field, term) {
        s.field_leaf(Namespace::Cbc, "CompanyID", field, company);
        let ghost x1 = s.spec_xml();
        s.open_structural(Namespace::Cac, "TaxScheme");
        s.field_leaf(Namespace::Cbc, "ID", field, scheme);
        s.close_wrapper(Namespace::Cac, "TaxScheme");
        s.close_group(Namespace::Cac, "PartyTaxScheme");
        assert(s.spec_xml() =~= old(s).spec_xml() + spec_party_tax_scheme(Some(company@), scheme@, term, old(s).spec_forbidden()));
    } else {
        assert(s.spec_xml() =~= old(s).spec_xml() + Seq::<char>::empty());
    }
}

/// A party tax scheme as written: the company identifier under its scheme code, when there is
/// one and the profile allows its term.
pub open spec fn spec_party_tax_scheme(company: Option<Seq<char>>, scheme: Seq<char>, term: Term, forbidden: Seq<Term>) -> Seq<char> {
    match company {
        Some(c) => if forbidden.contains(term) {
            Seq::empty()
        } else {
            spec_group(
                Namespace::Cac,
                "PartyTaxScheme"@,
                spec_element(Namespace::Cbc, "CompanyID"@, Seq::empty(), c)
                    + spec_group(Namespace::Cac, "TaxScheme"@, spec_element(Namespace::Cbc, "ID"@, Seq::empty(), scheme)),
            )
        },
        None => Seq::empty(),
    }
}

/// Writes the legal registration id (`BT-30`/`BT-47`/`BT-61`).
#[verifier::spinoff_prover]
#[verifier::rlimit(100)]
pub fn legal_entity_id(s: &mut Serializer<Namespace>, entity: &LegalEntity, term: Term)
    requires
        old(s).wf(),
    ensures
        spec_restored(*old(s), *final(s)),
        old(s).spec_forbidden().contains(term) ==> *final(s) == *old(s),
        final(s).spec_xml() == old(s).spec_xml() + spec_legal_entity(Some(*entity), term, old(s).spec_forbidden()),
{
    let attributes = match &entity.issuer {
        Some(issuer) => attribute("schemeID", issuer.as_str()),
        None => Vec::new(),
    };
    assert(crate::token::spec_attributes(attributes@) =~= spec_scheme_attribute(entity.issuer));
    s.leaf_attr(Namespace::Cbc, "CompanyID", field_of(term), term, &attributes, entity.id.as_str());
    assert(s.spec_xml() =~= old(s).spec_xml() + spec_legal_entity(Some(*entity), term, old(s).spec_forbidden()));
}

/// A legal registration identifier as written, when there is one and the profile allows its term.
pub open spec fn spec_legal_entity(entity: Option<LegalEntity>, term: Term, forbidden: Seq<Term>) -> Seq<char> {
    match entity {
        Some(e) => spec_term_element(forbidden, term, Namespace::Cbc, "CompanyID"@, spec_scheme_attribute(e.issuer), Some(e.id@)),
        None => Seq::empty(),
    }
}

/// Writes a contact group (`BG-6`/`BG-9`).
#[verifier::spinoff_prover]
#[verifier::rlimit(100)]
pub fn contact_group(
    s: &mut Serializer<Namespace>,
    contact: &Contact,
    group: Term,
    name: Term,
    phone: Term,
    mail: Term,
)
    requires
        old(s).wf(),
    ensures
        spec_restored(*old(s), *final(s)),
        !old(s).spec_forbidden().contains(group) ==> spec_wrapped(old(s).spec_xml(), final(s).spec_xml(), Namespace::Cac, "Contact"@),
        old(s).spec_forbidden().contains(group) ==> *final(s) == *old(s),
        final(s).spec_xml() == old(s).spec_xml() + spec_contact(Some(*contact), group, name, phone, mail, old(s).spec_forbidden()),
{
    if s.open_group(Namespace::Cac, "Contact", field_of(group), group) {
        if let Some(value) = &contact.name {
            s.leaf(Namespace::Cbc, "Name", field_of(name), name, value.as_str());
        }
        let ghost x1 = s.spec_xml();
        if let Some(value) = &contact.telephone {
            s.leaf(Namespace::Cbc, "Telephone", field_of(phone), phone, value.as_str());
        }
        let ghost x2 = s.spec_xml();
        if let Some(value) = &contact.email {
            s.leaf(Namespace::Cbc, "ElectronicMail", field_of(mail), mail, value.as_str());
        }
        s.close_group(Namespace::Cac, "Contact");
        assert(s.spec_xml() =~= old(s).spec_xml() + spec_contact(Some(*contact), group, name, phone, mail, old(s).spec_forbidden()));
    } else {
        assert(s.spec_xml() =~= old(s).spec_xml() + Seq::<char>::empty());
    }
}

/// A contact group as written, when there is a contact and the profile allows its group: its
/// name, telephone and email, each where the profile allows its term.
pub open spec fn spec_contact(contact: Option<Contact>, group: Term, name: Term, phone: Term, mail: Term, forbidden: Seq<Term>) -> Seq<char> {
    match contact {
        Some(c) => if forbidden.contains(group) {
            Seq::empty()
        } else {
            spec_group(
                Namespace::Cac,
                "Contact"@,
                spec_term_element(forbidden, name, Namespace::Cbc, "Name"@, Seq::empty(), crate::ubl_read::spec_texts(c.name))
                    + spec_term_element(forbidden, phone, Namespace::Cbc, "Telephone"@, Seq::empty(), crate::ubl_read::spec_texts(c.telephone))
                    + spec_term_element(
                    forbidden,
                    mail,
                    Namespace::Cbc,
                    "ElectronicMail"@,
                    Seq::empty(),
                    match c.email {
                        Some(e) => Some(e@),
                        None => None,
                    },
                ),
            )
        },
        None => Seq::empty(),
    }
}

/// Writes a postal address (`BG-5`/`BG-8`/`BG-12`/`BG-15`).
#[verifier::spinoff_prover]
#[verifier::rlimit(100)]
pub fn postal_address(s: &mut Serializer<Namespace>, element: &str, group: Term, address: &PostalAddress)
    requires
        old(s).wf(),
    ensures
        spec_restored(*old(s), *final(s)),
        !old(s).spec_forbidden().contains(group) ==> spec_wrapped(old(s).spec_xml(), final(s).spec_xml(), Namespace::Cac, element@),
        old(s).spec_forbidden().contains(group) ==> *final(s) == *old(s),
        final(s).spec_xml() == old(s).spec_xml() + spec_postal_address(element@, group, Some(*address), old(s).spec_forbidden()),
{
    if s.open_group(Namespace::Cac, element, "address", group) {
        let ghost opened = s.spec_xml();
        address_fields(s, address);
        address_tail(s, address);
        s.close_group(Namespace::Cac, element);
        assert(s.spec_xml() =~= old(s).spec_xml() + spec_postal_address(element@, group, Some(*address), old(s).spec_forbidden()));
    } else {
        assert(s.spec_xml() =~= old(s).spec_xml() + Seq::<char>::empty());
    }
}

/// The street lines, city, post code and subdivision of an address as written.
pub open spec fn spec_address_fields(address: PostalAddress) -> Seq<char> {
    spec_optional_element(Namespace::Cbc, "StreetName"@, address.line1)
        + spec_optional_element(Namespace::Cbc, "AdditionalStreetName"@, address.line2)
        + spec_optional_element(Namespace::Cbc, "CityName"@, address.city)
        + spec_optional_element(Namespace::Cbc, "PostalZone"@, address.postal_code)
        + spec_optional_element(Namespace::Cbc, "CountrySubentity"@, address.country_subdivision)
}

/// The third address line and the country of an address as written.
pub open spec fn spec_address_tail(address: PostalAddress) -> Seq<char> {
    spec_identification("AddressLine"@, "Line"@, address.line3) + match address.country {
        Some(c) => spec_group(Namespace::Cac, "Country"@, spec_element(Namespace::Cbc, "IdentificationCode"@, Seq::empty(), c@)),
        None => Seq::empty(),
    }
}

/// A postal address as written, when there is one and the profile allows its group.
pub open spec fn spec_postal_address(element: Seq<char>, group: Term, address: Option<PostalAddress>, forbidden: Seq<Term>) -> Seq<char> {
    match address {
        Some(a) => if forbidden.contains(group) {
            Seq::empty()
        } else {
            spec_group(Namespace::Cac, element, spec_address_fields(a) + spec_address_tail(a))
        },
        None => Seq::empty(),
    }
}

/// Writes the street lines, city, post code and subdivision of an address.
#[verifier::spinoff_prover]
#[verifier::rlimit(100)]
fn address_fields(s: &mut Serializer<Namespace>, address: &PostalAddress)
    requires
        old(s).wf(),
    ensures
        spec_restored(*old(s), *final(s)),
        final(s).spec_xml() == old(s).spec_xml() + spec_address_fields(*address),
{
    if let Some(line) = &address.line1 {
        s.field_leaf(Namespace::Cbc, "StreetName", "line1", line.as_str());
    }
    let ghost x1 = s.spec_xml();
    if let Some(line) = &address.line2 {
        s.field_leaf(Namespace::Cbc, "AdditionalStreetName", "line2", line.as_str());
    }
    let ghost x2 = s.spec_xml();
    if let Some(city) = &address.city {
        s.field_leaf(Namespace::Cbc, "CityName", "city", city.as_str());
    }
    let ghost x3 = s.spec_xml();
    if let Some(zip) = &address.postal_code {
        s.field_leaf(Namespace::Cbc, "PostalZone", "postal_code", zip.as_str());
    }
    let ghost x4 = s.spec_xml();
    if let Some(subdivision) = &address.country_subdivision {
        s.field_leaf(Namespace::Cbc, "CountrySubentity", "country_subdivision", subdivision.as_str());
    }
    assert(s.spec_xml() =~= old(s).spec_xml() + spec_address_fields(*address));
}

/// Writes the third address line and the country of an address.
#[verifier::spinoff_prover]
#[verifier::rlimit(100)]
fn address_tail(s: &mut Serializer<Namespace>, address: &PostalAddress)
    requires
        old(s).wf(),
    ensures
        spec_restored(*old(s), *final(s)),
        final(s).spec_xml() == old(s).spec_xml() + spec_address_tail(*address),
{
    if let Some(line) = &address.line3 {
        s.open_structural(Namespace::Cac, "AddressLine");
        s.field_leaf(Namespace::Cbc, "Line", "line3", line.as_str());
        s.close_wrapper(Namespace::Cac, "AddressLine");
    }
    let ghost x1 = s.spec_xml();
    if let Some(country) = &address.country {
        s.open_structural(Namespace::Cac, "Country");
        s.field_leaf(Namespace::Cbc, "IdentificationCode", "country", country.alpha2());
        s.close_wrapper(Namespace::Cac, "Country");
    }
    assert(s.spec_xml() =~= old(s).spec_xml() + spec_address_tail(*address));
}

/// Writes the delivery information (`BG-13`).
#[verifier::spinoff_prover]
#[verifier::rlimit(100)]
pub fn delivery_group(s: &mut Serializer<Namespace>, delivery: &Delivery)
    requires
        old(s).wf(),
    ensures
        spec_restored(*old(s), *final(s)),
        !old(s).spec_forbidden().contains(Term::BG(13)) ==> spec_wrapped(old(s).spec_xml(), final(s).spec_xml(), Namespace::Cac, "Delivery"@),
        old(s).spec_forbidden().contains(Term::BG(13)) ==> *final(s) == *old(s),
        final(s).spec_xml() == old(s).spec_xml() + spec_delivery(*delivery, old(s).spec_forbidden()),
{
    if s.open_group(Namespace::Cac, "Delivery", "delivery", Term::BG(13)) {
        let ghost opened = s.spec_xml();
        if let Some(day) = &delivery.date {
            let text = date_text(day);
            s.field_leaf(Namespace::Cbc, "ActualDeliveryDate", "date", text.as_str());
        }
        let ghost x1 = s.spec_xml();
        if delivery.location.is_some() || delivery.address.is_some() {
            delivery_location(s, delivery);
        }
        let ghost x2 = s.spec_xml();
        if let Some(name) = &delivery.name {
            s.open_structural(Namespace::Cac, "DeliveryParty");
            let ghost inner = *s;
            party_name(s, name.as_str(), Term::BT(70));
            assert(spec_restored(inner, *s));
            s.close_wrapper(Namespace::Cac, "DeliveryParty");
        }
        s.close_group(Namespace::Cac, "Delivery");
        assert(s.spec_xml() =~= old(s).spec_xml() + spec_delivery(*delivery, old(s).spec_forbidden()));
    } else {
        assert(s.spec_xml() =~= old(s).spec_xml() + Seq::<char>::empty());
    }
}

/// The location of a delivery as written: its identifier and its address.
pub open spec fn spec_delivery_location(delivery: Delivery, forbidden: Seq<Term>) -> Seq<char> {
    spec_group(
        Namespace::Cac,
        "DeliveryLocation"@,
        (match delivery.location {
            Some(l) => match l.id {
                Some(id) => spec_element(Namespace::Cbc, "ID"@, spec_scheme_attribute(l.issuer), id@),
                None => Seq::empty(),
            },
            None => Seq::empty(),
        }) + spec_postal_address("Address"@, Term::BG(15), delivery.address, forbidden),
    )
}

/// The delivery information as written (`BG-13`), absent where the profile forbids it.
pub open spec fn spec_delivery(delivery: Delivery, forbidden: Seq<Term>) -> Seq<char> {
    if forbidden.contains(Term::BG(13)) {
        Seq::empty()
    } else {
        spec_group(
            Namespace::Cac,
            "Delivery"@,
            spec_date_element("ActualDeliveryDate"@, delivery.date) + (if delivery.location is Some || delivery.address is Some {
                spec_delivery_location(delivery, forbidden)
            } else {
                Seq::empty()
            }) + match delivery.name {
                Some(n) => spec_group(Namespace::Cac, "DeliveryParty"@, spec_party_name(Some(n@), Term::BT(70), forbidden)),
                None => Seq::empty(),
            },
        )
    }
}

/// Writes the location of a delivery: its identifier and its address.
#[verifier::spinoff_prover]
#[verifier::rlimit(100)]
fn delivery_location(s: &mut Serializer<Namespace>, delivery: &Delivery)
    requires
        old(s).wf(),
    ensures
        spec_restored(*old(s), *final(s)),
        final(s).spec_xml() == old(s).spec_xml() + spec_delivery_location(*delivery, old(s).spec_forbidden()),
{
    s.open_structural(Namespace::Cac, "DeliveryLocation");
    let ghost opened = *s;
    if let Some(location) = &delivery.location {
        if let Some(id) = &location.id {
            let attributes = match &location.issuer {
                Some(issuer) => attribute("schemeID", issuer.as_str()),
                None => Vec::new(),
            };
            assert(crate::token::spec_attributes(attributes@) =~= spec_scheme_attribute(location.issuer));
            s.write_field_leaf(Namespace::Cbc, "ID", "location", &attributes, id.as_str());
        }
    }
    let ghost x1 = s.spec_xml();
    if let Some(address) = &delivery.address {
        postal_address(s, "Address", Term::BG(15), address);
    }
    assert(spec_restored(opened, *s));
    s.close_wrapper(Namespace::Cac, "DeliveryLocation");
    assert(s.spec_xml() =~= old(s).spec_xml() + spec_delivery_location(*delivery, old(s).spec_forbidden()));
}

/// Writes the payment instructions (`BG-16`).
#[verifier::spinoff_prover]
#[verifier::rlimit(100)]
pub fn payment_means(s: &mut Serializer<Namespace>, payment: &PaymentInstructions)
    requires
        old(s).wf(),
    ensures
        spec_restored(*old(s), *final(s)),
        !old(s).spec_forbidden().contains(Term::BG(16)) ==> spec_wrapped(old(s).spec_xml(), final(s).spec_xml(), Namespace::Cac, "PaymentMeans"@),
        old(s).spec_forbidden().contains(Term::BG(16)) ==> *final(s) == *old(s),
        final(s).spec_xml() == old(s).spec_xml() + (if old(s).spec_forbidden().contains(Term::BG(16)) {
            Seq::empty()
        } else {
            spec_group(Namespace::Cac, "PaymentMeans"@, spec_payment_means_body(*payment))
        }),
{
    if s.open_group(Namespace::Cac, "PaymentMeans", "payment", Term::BG(16)) {
        let ghost opened = s.spec_xml();
        let attributes = match &payment.means_text {
            Some(text) => attribute("name", text.as_str()),
            None => Vec::new(),
        };
        assert(crate::token::spec_attributes(attributes@) =~= spec_means_attributes(payment.means_text));
        s.write_field_leaf(Namespace::Cbc, "PaymentMeansCode", "means", &attributes, payment.means.as_str());
        if let Some(reference) = &payment.remittance_information {
            s.field_leaf(Namespace::Cbc, "PaymentID", "remittance_information", reference.as_str());
        }
        let ghost head = s.spec_xml();
        assert(head =~= opened + spec_element(Namespace::Cbc, "PaymentMeansCode"@, spec_means_attributes(payment.means_text), payment.means@)
            + spec_optional_element(Namespace::Cbc, "PaymentID"@, payment.remittance_information));
        payment_details(s, &payment.details);
        s.close_group(Namespace::Cac, "PaymentMeans");
        assert(s.spec_xml() =~= old(s).spec_xml() + spec_group(Namespace::Cac, "PaymentMeans"@, spec_payment_means_body(*payment)));
    } else {
        assert(s.spec_xml() =~= old(s).spec_xml() + Seq::<char>::empty());
    }
}

/// The `name` attribute of the payment means code, carrying its text (`BT-82`).
pub open spec fn spec_means_attributes(text: Option<crate::values::NonEmptyString>) -> Seq<(Seq<char>, Seq<char>)> {
    match text {
        Some(t) => seq![("name"@, t@)],
        None => Seq::empty(),
    }
}

/// What the payment means group holds as written: its code, the remittance information and
/// the details of the means.
pub open spec fn spec_payment_means_body(payment: PaymentInstructions) -> Seq<char> {
    spec_element(Namespace::Cbc, "PaymentMeansCode"@, spec_means_attributes(payment.means_text), payment.means@)
        + spec_optional_element(Namespace::Cbc, "PaymentID"@, payment.remittance_information)
        + spec_payment_details(payment.details)
}

/// One payee account as written (`BG-17`).
pub open spec fn spec_credit_transfer(transfer: crate::model::CreditTransfer) -> Seq<char> {
    spec_group(
        Namespace::Cac,
        "PayeeFinancialAccount"@,
        spec_element(Namespace::Cbc, "ID"@, Seq::empty(), transfer.account@)
            + spec_optional_element(Namespace::Cbc, "Name"@, transfer.account_name)
            + match transfer.provider {
            Some(p) => spec_group(
                Namespace::Cac,
                "FinancialInstitutionBranch"@,
                spec_element(Namespace::Cbc, "ID"@, Seq::empty(), p@),
            ),
            None => Seq::empty(),
        },
    )
}

/// The payee accounts as written, one after the other.
pub open spec fn spec_credit_transfers(transfers: Seq<crate::model::CreditTransfer>) -> Seq<char>
    decreases transfers.len(),
{
    if transfers.len() == 0 {
        Seq::empty()
    } else {
        spec_credit_transfers(transfers.drop_last()) + spec_credit_transfer(transfers.last())
    }
}

/// The details of the payment means as written: the payee accounts, the card or the mandate.
pub open spec fn spec_payment_details(details: Option<Details>) -> Seq<char> {
    match details {
        Some(Details::CreditTransfers(transfers)) => spec_credit_transfers(transfers@),
        Some(Details::Card(card)) => spec_group(
            Namespace::Cac,
            "CardAccount"@,
            spec_element(Namespace::Cbc, "PrimaryAccountNumberID"@, Seq::empty(), card.primary_account_number@)
                + spec_optional_element(Namespace::Cbc, "HolderName"@, card.holder_name),
        ),
        Some(Details::DirectDebit(debit)) => spec_group(
            Namespace::Cac,
            "PaymentMandate"@,
            spec_optional_element(Namespace::Cbc, "ID"@, debit.mandate_reference)
                + spec_optional_element(Namespace::Cbc, "PayerPartyID"@, debit.creditor_identifier)
                + match debit.debited_account {
                Some(a) => spec_group(
                    Namespace::Cac,
                    "PayerFinancialAccount"@,
                    spec_element(Namespace::Cbc, "ID"@, Seq::empty(), a@),
                ),
                None => Seq::empty(),
            },
        ),
        None => Seq::empty(),
    }
}

/// Writes the details of the payment means: the payee accounts, the card or the mandate.
#[verifier::spinoff_prover]
#[verifier::rlimit(100)]
fn payment_details(s: &mut Serializer<Namespace>, details: &Option<Details>)
    requires
        old(s).wf(),
    ensures
        spec_restored(*old(s), *final(s)),
        final(s).spec_xml() == old(s).spec_xml() + spec_payment_details(*details),
{
    match details {
        Some(Details::CreditTransfers(transfers)) => {
            let mut i: usize = 0;
            while i < transfers.len()
                invariant
                    i <= transfers@.len(),
                    old(s).wf(),
                    spec_restored(*old(s), *s),
                    s.spec_xml() == old(s).spec_xml() + spec_credit_transfers(transfers@.take(i as int)),
                decreases transfers@.len() - i,
            {
                credit_transfer(s, &transfers[i]);
                proof {
                    let done = transfers@.take(i + 1);
                    assert(done.drop_last() =~= transfers@.take(i as int));
                    assert(s.spec_xml() =~= old(s).spec_xml() + spec_credit_transfers(done));
                }
                i = i + 1;
            }
            assert(transfers@.take(i as int) =~= transfers@);
        },
        Some(Details::Card(card)) => {
            card_account(s, card);
        },
        Some(Details::DirectDebit(debit)) => {
            payment_mandate(s, debit);
        },
        None => {
            assert(s.spec_xml() =~= old(s).spec_xml() + Seq::<char>::empty());
        },
    }
}

/// Writes one payee account (`BG-17`).
#[verifier::rlimit(100)]
#[verifier::spinoff_prover]
fn credit_transfer(s: &mut Serializer<Namespace>, transfer: &crate::model::CreditTransfer)
    requires
        old(s).wf(),
    ensures
        spec_restored(*old(s), *final(s)),
        final(s).spec_xml() == old(s).spec_xml() + spec_credit_transfer(*transfer),
{
    s.open_structural(Namespace::Cac, "PayeeFinancialAccount");
    let ghost opened = *s;
    s.field_leaf(Namespace::Cbc, "ID", "account", transfer.account.as_str());
    if let Some(name) = &transfer.account_name {
        s.field_leaf(Namespace::Cbc, "Name", "account_name", name.as_str());
    }
    if let Some(provider) = &transfer.provider {
        structural_leaf(s, "FinancialInstitutionBranch", "ID", "provider", provider.as_str());
    }
    assert(spec_restored(opened, *s));
    s.close_wrapper(Namespace::Cac, "PayeeFinancialAccount");
    assert(s.spec_xml() =~= old(s).spec_xml() + spec_credit_transfer(*transfer));
}

/// Writes the payment card (`BG-18`).
#[verifier::rlimit(100)]
#[verifier::spinoff_prover]
fn card_account(s: &mut Serializer<Namespace>, card: &crate::model::PaymentCard)
    requires
        old(s).wf(),
    ensures
        spec_restored(*old(s), *final(s)),
        final(s).spec_xml() == old(s).spec_xml() + spec_payment_details(Some(Details::Card(*card))),
{
    s.open_structural(Namespace::Cac, "CardAccount");
    let ghost opened = *s;
    s.field_leaf(Namespace::Cbc, "PrimaryAccountNumberID", "primary_account_number", card.primary_account_number.as_str());
    if let Some(holder) = &card.holder_name {
        s.field_leaf(Namespace::Cbc, "HolderName", "holder_name", holder.as_str());
    }
    assert(spec_restored(opened, *s));
    s.close_wrapper(Namespace::Cac, "CardAccount");
    assert(s.spec_xml() =~= old(s).spec_xml() + spec_payment_details(Some(Details::Card(*card))));
}

/// Writes the direct debit mandate (`BG-19`).
#[verifier::rlimit(100)]
#[verifier::spinoff_prover]
fn payment_mandate(s: &mut Serializer<Namespace>, debit: &crate::model::DirectDebit)
    requires
        old(s).wf(),
    ensures
        spec_restored(*old(s), *final(s)),
        final(s).spec_xml() == old(s).spec_xml() + spec_payment_details(Some(Details::DirectDebit(*debit))),
{
    s.open_structural(Namespace::Cac, "PaymentMandate");
    let ghost opened = *s;
    if let Some(reference) = &debit.mandate_reference {
        s.field_leaf(Namespace::Cbc, "ID", "mandate_reference", reference.as_str());
    }
    if let Some(creditor) = &debit.creditor_identifier {
        s.field_leaf(Namespace::Cbc, "PayerPartyID", "creditor_identifier", creditor.as_str());
    }
    let ghost middle = s.spec_xml();
    if let Some(account) = &debit.debited_account {
        structural_leaf(s, "PayerFinancialAccount", "ID", "debited_account", account.as_str());
    }
    assert(spec_restored(opened, *s));
    s.close_wrapper(Namespace::Cac, "PaymentMandate");
    assert(s.spec_xml() =~= old(s).spec_xml() + spec_payment_details(Some(Details::DirectDebit(*debit))));
}

/// Writes a term-less aggregate around a single identifier leaf mapped to a model field.
#[verifier::spinoff_prover]
#[verifier::rlimit(100)]
fn structural_leaf(s: &mut Serializer<Namespace>, wrapper: &str, name: &str, field: &'static str, value: &str)
    requires
        old(s).wf(),
    ensures
        spec_restored(*old(s), *final(s)),
        final(s).spec_xml() == old(s).spec_xml() + spec_group(
            Namespace::Cac,
            wrapper@,
            spec_element(Namespace::Cbc, name@, Seq::empty(), value@),
        ),
{
    s.open_structural(Namespace::Cac, wrapper);
    s.field_leaf(Namespace::Cbc, name, field, value);
    s.close_wrapper(Namespace::Cac, wrapper);
}

/// Writes the document-level allowances and charges (`BG-20`/`BG-21`).
#[verifier::spinoff_prover]
#[verifier::rlimit(100)]
pub fn adjustments(s: &mut Serializer<Namespace>, adjustments: &Vec<Adjustment>, currency: &Vec<(String, String)>)
    requires
        old(s).wf(),
    ensures
        spec_restored(*old(s), *final(s)),
        !old(s).spec_forbidden().contains(Term::BG(20)) && !old(s).spec_forbidden().contains(Term::BG(21)) ==> spec_wrapped_each(
            old(s).spec_xml(),
            final(s).spec_xml(),
            Namespace::Cac,
            "AllowanceCharge"@,
            adjustments@.len(),
        ),
        final(s).spec_xml() == old(s).spec_xml() + spec_adjustments(adjustments@, old(s).spec_forbidden(), crate::token::spec_attributes(currency@)),
{
    let mut i: usize = 0;
    while i < adjustments.len()
        invariant
            i <= adjustments@.len(),
            old(s).wf(),
            spec_restored(*old(s), *s),
            !old(s).spec_forbidden().contains(Term::BG(20)) && !old(s).spec_forbidden().contains(Term::BG(21)) ==> spec_wrapped_each(old(s).spec_xml(), s.spec_xml(), Namespace::Cac, "AllowanceCharge"@, i as nat),
            s.spec_xml() == old(s).spec_xml() + spec_adjustments(adjustments@.take(i as int), old(s).spec_forbidden(), crate::token::spec_attributes(currency@)),
        decreases adjustments@.len() - i,
    {
        let ghost previous = s.spec_xml();
        document_adjustment(s, &adjustments[i], i + 1, currency);
        proof {
            if !old(s).spec_forbidden().contains(Term::BG(20)) && !old(s).spec_forbidden().contains(Term::BG(21)) {
                assert(spec_wrapped(previous, s.spec_xml(), Namespace::Cac, "AllowanceCharge"@));
            }
            let done = adjustments@.take(i + 1);
            assert(done.drop_last() =~= adjustments@.take(i as int));
            assert(s.spec_xml() =~= old(s).spec_xml() + spec_adjustments(done, old(s).spec_forbidden(), crate::token::spec_attributes(currency@)));
        }
        i = i + 1;
    }
    assert(adjustments@.take(i as int) =~= adjustments@);
}

/// The term of a document allowance or charge: `BG-21` for a charge, `BG-20` for an allowance.
pub open spec fn spec_adjustment_term(adjustment: Adjustment) -> Term {
    if adjustment.reason is Charge {
        Term::BG(21)
    } else {
        Term::BG(20)
    }
}

/// One document allowance or charge as written, absent where the profile forbids its term.
pub open spec fn spec_adjustment(adjustment: Adjustment, forbidden: Seq<Term>, currency: Seq<(Seq<char>, Seq<char>)>) -> Seq<char> {
    if forbidden.contains(spec_adjustment_term(adjustment)) {
        Seq::empty()
    } else {
        spec_group(
            Namespace::Cac,
            "AllowanceCharge"@,
            spec_element(
                Namespace::Cbc,
                "ChargeIndicator"@,
                Seq::empty(),
                if adjustment.reason is Charge { "true"@ } else { "false"@ },
            ) + spec_reason(adjustment.reason) + spec_adjustment_amount(adjustment.amount, currency)
                + spec_group(Namespace::Cac, "TaxCategory"@, spec_category_body(adjustment.vat)),
        )
    }
}

/// The document allowances and charges as written, one after the other.
pub open spec fn spec_adjustments(adjustments: Seq<Adjustment>, forbidden: Seq<Term>, currency: Seq<(Seq<char>, Seq<char>)>) -> Seq<char>
    decreases adjustments.len(),
{
    if adjustments.len() == 0 {
        Seq::empty()
    } else {
        spec_adjustments(adjustments.drop_last(), forbidden, currency) + spec_adjustment(adjustments.last(), forbidden, currency)
    }
}

/// Writes one document allowance or charge, unless the profile forbids its term.
#[verifier::rlimit(100)]
#[verifier::spinoff_prover]
fn document_adjustment(s: &mut Serializer<Namespace>, adjustment: &Adjustment, instance: usize, currency: &Vec<(String, String)>)
    requires
        old(s).wf(),
    ensures
        spec_restored(*old(s), *final(s)),
        !old(s).spec_forbidden().contains(spec_adjustment_term(*adjustment)) ==> spec_wrapped(old(s).spec_xml(), final(s).spec_xml(), Namespace::Cac, "AllowanceCharge"@),
        final(s).spec_xml() == old(s).spec_xml() + spec_adjustment(*adjustment, old(s).spec_forbidden(), crate::token::spec_attributes(currency@)),
{
    let charge = matches!(adjustment.reason, Reason::Charge { .. });
    let term = if charge { Term::BG(21) } else { Term::BG(20) };
    if s.open_repeatable(Namespace::Cac, "AllowanceCharge", "adjustments", term, instance) {
        charge_indicator(s, charge);
        adjustment_reason(s, &adjustment.reason);
        adjustment_amount(s, &adjustment.amount, currency);
        tax_category(s, &adjustment.vat);
        s.close_group(Namespace::Cac, "AllowanceCharge");
        assert(s.spec_xml() =~= old(s).spec_xml() + spec_adjustment(*adjustment, old(s).spec_forbidden(), crate::token::spec_attributes(currency@)));
    } else {
        assert(s.spec_xml() =~= old(s).spec_xml() + Seq::<char>::empty());
    }
}

/// Writes the charge indicator of an adjustment.
#[verifier::spinoff_prover]
#[verifier::rlimit(100)]
pub fn charge_indicator(s: &mut Serializer<Namespace>, charge: bool)
    requires
        old(s).wf(),
    ensures
        spec_restored(*old(s), *final(s)),
        final(s).spec_xml() == old(s).spec_xml() + spec_element(
            Namespace::Cbc,
            "ChargeIndicator"@,
            Seq::empty(),
            if charge { "true"@ } else { "false"@ },
        ),
{
    let none: Vec<(String, String)> = Vec::new();
    s.derived(Namespace::Cbc, "ChargeIndicator", &none, if charge { "true" } else { "false" });
}

/// Writes the reason code and text of an adjustment, mapped to the adjustment.
#[verifier::spinoff_prover]
#[verifier::rlimit(100)]
pub fn adjustment_reason(s: &mut Serializer<Namespace>, reason: &Reason)
    requires
        old(s).wf(),
    ensures
        spec_restored(*old(s), *final(s)),
        final(s).spec_xml() == old(s).spec_xml() + match *reason {
            Reason::Allowance { code, text } | Reason::Charge { code, text } => spec_optional_element(
                Namespace::Cbc,
                "AllowanceChargeReasonCode"@,
                code,
            ) + spec_optional_element(Namespace::Cbc, "AllowanceChargeReason"@, text),
        },
{
    let (code, text) = match reason {
        Reason::Allowance { code, text } => (code, text),
        Reason::Charge { code, text } => (code, text),
    };
    let none: Vec<(String, String)> = Vec::new();
    if let Some(code) = code {
        s.derived(Namespace::Cbc, "AllowanceChargeReasonCode", &none, code.as_str());
    }
    if let Some(text) = text {
        s.derived(Namespace::Cbc, "AllowanceChargeReason", &none, text.as_str());
    }
}

/// The amount a relative adjustment comes to as written, when it can be computed.
pub open spec fn spec_computed_amount(amount: Amount, currency: Seq<(Seq<char>, Seq<char>)>) -> Seq<char> {
    if crate::pricing::spec_amount_fits(amount) {
        spec_element(Namespace::Cbc, "Amount"@, currency, spec_money(crate::pricing::spec_amount_value(amount)))
    } else {
        Seq::empty()
    }
}

/// The amount of an adjustment as written: the fixed sum, or the rate, the amount it comes
/// to and the base.
pub open spec fn spec_adjustment_amount(amount: Amount, currency: Seq<(Seq<char>, Seq<char>)>) -> Seq<char> {
    match amount {
        Amount::Absolute(v) => spec_element(Namespace::Cbc, "Amount"@, currency, spec_money(v@)),
        Amount::Relative { rate, base } => spec_element(
            Namespace::Cbc,
            "MultiplierFactorNumeric"@,
            Seq::empty(),
            crate::decimal::spec_decimal_text(rate@),
        ) + spec_computed_amount(amount, currency) + spec_element(Namespace::Cbc, "BaseAmount"@, currency, spec_money(base@)),
    }
}

/// Writes the amount of an adjustment, absolute or relative, mapped to the amount field.
/// A relative amount is written with the amount it comes to, when that can be computed.
#[verifier::spinoff_prover]
#[verifier::rlimit(100)]
pub fn adjustment_amount(s: &mut Serializer<Namespace>, amount: &Amount, currency: &Vec<(String, String)>)
    requires
        old(s).wf(),
    ensures
        spec_restored(*old(s), *final(s)),
        amount matches Amount::Absolute(v) ==> final(s).spec_xml() == old(s).spec_xml() + spec_element(
            Namespace::Cbc,
            "Amount"@,
            crate::token::spec_attributes(currency@),
            spec_money(v@),
        ),
        final(s).spec_xml() == old(s).spec_xml() + spec_adjustment_amount(*amount, crate::token::spec_attributes(currency@)),
{
    match amount {
        Amount::Relative { rate, base } => {
            let factor = rate.value().to_string();
            s.field_leaf(Namespace::Cbc, "MultiplierFactorNumeric", "amount", factor.as_str());
            let ghost after_factor = s.spec_xml();
            if let Some(product) = base.checked_mul(&rate.value()) {
                if let Some(hundredth) = product.shifted(2) {
                    let value = money(&crate::pricing::rounded(hundredth));
                    s.write_field_leaf(Namespace::Cbc, "Amount", "amount", currency, value.as_str());
                }
            }
            assert(s.spec_xml() =~= after_factor + spec_computed_amount(*amount, crate::token::spec_attributes(currency@)));
            let written = money(base);
            s.write_field_leaf(Namespace::Cbc, "BaseAmount", "amount", currency, written.as_str());
            assert(s.spec_xml() =~= old(s).spec_xml() + spec_adjustment_amount(*amount, crate::token::spec_attributes(currency@)));
        },
        Amount::Absolute(value) => {
            let written = money(value);
            s.write_field_leaf(Namespace::Cbc, "Amount", "amount", currency, written.as_str());
        },
    }
}

/// Writes an allowance or charge VAT category, mapped to the enclosing adjustment.
#[verifier::spinoff_prover]
#[verifier::rlimit(100)]
pub fn tax_category(s: &mut Serializer<Namespace>, vat: &VatTreatment)
    requires
        old(s).wf(),
    ensures
        spec_restored(*old(s), *final(s)),
        spec_wrapped(old(s).spec_xml(), final(s).spec_xml(), Namespace::Cac, "TaxCategory"@),
        final(s).spec_xml() == old(s).spec_xml() + spec_group(Namespace::Cac, "TaxCategory"@, spec_category_body(*vat)),
{
    let none: Vec<(String, String)> = Vec::new();
    assert(crate::token::spec_attributes(none@) =~= Seq::empty());
    s.open_nested(Namespace::Cac, "TaxCategory");
    s.derived(Namespace::Cbc, "ID", &none, vat.category().code());
    let rate = vat.rate().to_string();
    s.derived(Namespace::Cbc, "Percent", &none, rate.as_str());
    s.open_nested(Namespace::Cac, "TaxScheme");
    s.derived(Namespace::Cbc, "ID", &none, "VAT");
    s.close_wrapper(Namespace::Cac, "TaxScheme");
    s.close_wrapper(Namespace::Cac, "TaxCategory");
    assert(s.spec_xml() =~= old(s).spec_xml() + spec_group(Namespace::Cac, "TaxCategory"@, spec_category_body(*vat)));
}

/// Writes the tax total (`BT-110`, `BG-23`) and the accounting-currency tax total (`BT-111`).
/// The first total is absent without the VAT total and the breakdown.
#[verifier::spinoff_prover]
#[verifier::rlimit(100)]
pub fn tax_total(s: &mut Serializer<Namespace>, invoice: &Invoice)
    requires
        old(s).wf(),
    ensures
        spec_restored(*old(s), *final(s)),
        spec_wrapped_each(
            old(s).spec_xml(),
            final(s).spec_xml(),
            Namespace::Cac,
            "TaxTotal"@,
            (if invoice.vat_total is Some || invoice.vat_breakdown@.len() > 0 { 1nat } else { 0nat }) + (
            if invoice.vat_accounting_total is Some { 1nat } else { 0nat }),
        ),
        final(s).spec_xml() == old(s).spec_xml() + spec_tax_total(*invoice, old(s).spec_forbidden()),
{
    let currency = currency_attribute(invoice);
    if invoice.vat_total.is_some() || invoice.vat_breakdown.len() > 0 {
        vat_total(s, invoice, &currency);
    } else {
        assert(s.spec_xml() =~= old(s).spec_xml() + Seq::<char>::empty());
    }
    let ghost first = s.spec_xml();
    let ghost count: nat = if invoice.vat_total is Some || invoice.vat_breakdown@.len() > 0 { 1nat } else { 0nat };
    proof {
        assert(spec_wrapped_each(old(s).spec_xml(), old(s).spec_xml(), Namespace::Cac, "TaxTotal"@, 0nat));
        if count == 1 {
            assert(spec_wrapped_each(old(s).spec_xml(), first, Namespace::Cac, "TaxTotal"@, 1nat));
        }
        assert(spec_wrapped_each(old(s).spec_xml(), first, Namespace::Cac, "TaxTotal"@, count));
    }
    if let Some(accounting) = &invoice.vat_accounting_total {
        accounting_total(s, accounting);
        assert(spec_wrapped_each(old(s).spec_xml(), s.spec_xml(), Namespace::Cac, "TaxTotal"@, count + 1));
    } else {
        assert(s.spec_xml() =~= first + Seq::<char>::empty());
    }
    assert(s.spec_xml() =~= old(s).spec_xml() + spec_tax_total(*invoice, old(s).spec_forbidden()));
}

/// The tax totals as written: the VAT total with the breakdown, when the invoice states
/// either, then the VAT total in accounting currency (`BT-111`), when it states it.
pub open spec fn spec_tax_total(invoice: Invoice, forbidden: Seq<Term>) -> Seq<char> {
    (if invoice.vat_total is Some || invoice.vat_breakdown@.len() > 0 {
        spec_group(
            Namespace::Cac,
            "TaxTotal"@,
            spec_total(invoice, forbidden, Term::BT(110), "TaxAmount"@, invoice.vat_total)
                + spec_breakdown_groups(invoice.vat_breakdown@, forbidden, spec_currency(invoice)),
        )
    } else {
        Seq::empty()
    }) + (match invoice.vat_accounting_total {
        Some(a) => spec_accounting_total(a, forbidden),
        None => Seq::empty(),
    })
}

/// The VAT total in accounting currency as written, in a tax total of its own.
pub open spec fn spec_accounting_total(total: crate::model::AccountingTotal, forbidden: Seq<Term>) -> Seq<char> {
    spec_group(
        Namespace::Cac,
        "TaxTotal"@,
        spec_term_element(
            forbidden,
            Term::BT(111),
            Namespace::Cbc,
            "TaxAmount"@,
            seq![("currencyID"@, total.currency@)],
            Some(spec_money(total.value@)),
        ),
    )
}

/// The groups of the VAT breakdown as written, one after the other.
pub open spec fn spec_breakdown_groups(groups: Seq<VatBreakdown>, forbidden: Seq<Term>, currency: Seq<(Seq<char>, Seq<char>)>) -> Seq<char>
    decreases groups.len(),
{
    if groups.len() == 0 {
        Seq::empty()
    } else {
        spec_breakdown_groups(groups.drop_last(), forbidden, currency) + spec_breakdown_group(groups.last(), forbidden, currency)
    }
}

/// One group of the VAT breakdown as written (`BG-23`), absent where the profile forbids it.
pub open spec fn spec_breakdown_group(group: VatBreakdown, forbidden: Seq<Term>, currency: Seq<(Seq<char>, Seq<char>)>) -> Seq<char> {
    if forbidden.contains(Term::BG(23)) {
        Seq::empty()
    } else {
        spec_group(
            Namespace::Cac,
            "TaxSubtotal"@,
            spec_term_element(forbidden, Term::BT(116), Namespace::Cbc, "TaxableAmount"@, currency, crate::cii_write::spec_money_text(group.taxable))
                + spec_term_element(forbidden, Term::BT(117), Namespace::Cbc, "TaxAmount"@, currency, crate::cii_write::spec_money_text(group.tax))
                + match group.treatment {
                Some(t) => spec_breakdown_category(t, forbidden),
                None => Seq::empty(),
            },
        )
    }
}

/// The VAT category of a breakdown group as written, absent where the profile forbids it.
pub open spec fn spec_breakdown_category(treatment: VatTreatment, forbidden: Seq<Term>) -> Seq<char> {
    if forbidden.contains(Term::BT(118)) {
        Seq::empty()
    } else {
        spec_group(
            Namespace::Cac,
            "TaxCategory"@,
            spec_element(Namespace::Cbc, "ID"@, Seq::empty(), crate::vat::spec_category_code(crate::vat::spec_category(treatment)))
                + spec_element(Namespace::Cbc, "Percent"@, Seq::empty(), spec_decimal_text(crate::vat::spec_rate(treatment)))
                + crate::serializer::spec_text_element(Namespace::Cbc, "TaxExemptionReasonCode"@, crate::cii_write::spec_exempt_code(Some(treatment)))
                + crate::serializer::spec_text_element(Namespace::Cbc, "TaxExemptionReason"@, crate::cii_write::spec_exempt_text(Some(treatment)))
                + spec_group(Namespace::Cac, "TaxScheme"@, spec_element(Namespace::Cbc, "ID"@, Seq::empty(), "VAT"@)),
        )
    }
}

/// Writes the VAT total (`BT-110`) with the VAT breakdown in its tax total.
#[verifier::rlimit(100)]
#[verifier::spinoff_prover]
fn vat_total(s: &mut Serializer<Namespace>, invoice: &Invoice, currency: &Vec<(String, String)>)
    requires
        old(s).wf(),
        crate::token::spec_attributes(currency@) == spec_currency(*invoice),
    ensures
        spec_restored(*old(s), *final(s)),
        spec_wrapped(old(s).spec_xml(), final(s).spec_xml(), Namespace::Cac, "TaxTotal"@),
        final(s).spec_xml() == old(s).spec_xml() + spec_group(
            Namespace::Cac,
            "TaxTotal"@,
            spec_total(*invoice, old(s).spec_forbidden(), Term::BT(110), "TaxAmount"@, invoice.vat_total)
                + spec_breakdown_groups(invoice.vat_breakdown@, old(s).spec_forbidden(), spec_currency(*invoice)),
        ),
{
    s.open_structural(Namespace::Cac, "TaxTotal");
    let ghost opened = *s;
    monetary_amount(s, "TaxAmount", "vat_total", Term::BT(110), currency, &invoice.vat_total);
    let ghost head = s.spec_xml();
    let breakdown = &invoice.vat_breakdown;
    let mut i: usize = 0;
    while i < breakdown.len()
        invariant
            i <= breakdown@.len(),
            opened.wf(),
            spec_restored(opened, *s),
            crate::token::spec_attributes(currency@) == spec_currency(*invoice),
            s.spec_forbidden() == old(s).spec_forbidden(),
            s.spec_xml() == head + spec_breakdown_groups(breakdown@.take(i as int), old(s).spec_forbidden(), spec_currency(*invoice)),
        decreases breakdown@.len() - i,
    {
        breakdown_group(s, &breakdown[i], i + 1, currency);
        proof {
            let done = breakdown@.take(i + 1);
            assert(done.drop_last() =~= breakdown@.take(i as int));
            assert(s.spec_xml() =~= head + spec_breakdown_groups(done, old(s).spec_forbidden(), spec_currency(*invoice)));
        }
        i = i + 1;
    }
    assert(breakdown@.take(i as int) =~= breakdown@);
    s.close_wrapper(Namespace::Cac, "TaxTotal");
    assert(s.spec_xml() =~= old(s).spec_xml() + spec_group(
        Namespace::Cac,
        "TaxTotal"@,
        spec_total(*invoice, old(s).spec_forbidden(), Term::BT(110), "TaxAmount"@, invoice.vat_total)
            + spec_breakdown_groups(invoice.vat_breakdown@, old(s).spec_forbidden(), spec_currency(*invoice)),
    ));
}

/// Writes the VAT total in accounting currency (`BT-111`) in a tax total of its own.
#[verifier::spinoff_prover]
#[verifier::rlimit(100)]
fn accounting_total(s: &mut Serializer<Namespace>, accounting: &crate::model::AccountingTotal)
    requires
        old(s).wf(),
    ensures
        spec_restored(*old(s), *final(s)),
        spec_wrapped(old(s).spec_xml(), final(s).spec_xml(), Namespace::Cac, "TaxTotal"@),
        final(s).spec_xml() == old(s).spec_xml() + spec_accounting_total(*accounting, old(s).spec_forbidden()),
{
    let value = money(&accounting.value);
    let attributes = attribute("currencyID", accounting.currency.code());
    assert(crate::token::spec_attributes(attributes@) =~= seq![("currencyID"@, accounting.currency@)]);
    s.open_structural(Namespace::Cac, "TaxTotal");
    let ghost opened = *s;
    s.leaf_attr(Namespace::Cbc, "TaxAmount", "vat_accounting_total", Term::BT(111), &attributes, value.as_str());
    assert(spec_restored(opened, *s));
    s.close_wrapper(Namespace::Cac, "TaxTotal");
}

/// Writes one group of the VAT breakdown (`BG-23`).
#[verifier::spinoff_prover]
#[verifier::rlimit(100)]
pub fn breakdown_group(s: &mut Serializer<Namespace>, group: &VatBreakdown, instance: usize, currency: &Vec<(String, String)>)
    requires
        old(s).wf(),
    ensures
        spec_restored(*old(s), *final(s)),
        !old(s).spec_forbidden().contains(Term::BG(23)) ==> spec_wrapped(old(s).spec_xml(), final(s).spec_xml(), Namespace::Cac, "TaxSubtotal"@),
        old(s).spec_forbidden().contains(Term::BG(23)) ==> *final(s) == *old(s),
        final(s).spec_xml() == old(s).spec_xml() + spec_breakdown_group(*group, old(s).spec_forbidden(), crate::token::spec_attributes(currency@)),
{
    if s.open_repeatable(Namespace::Cac, "TaxSubtotal", "vat_breakdown", Term::BG(23), instance) {
        let ghost opened = s.spec_xml();
        monetary_amount(s, "TaxableAmount", "taxable", Term::BT(116), currency, &group.taxable);
        monetary_amount(s, "TaxAmount", "tax", Term::BT(117), currency, &group.tax);
        let ghost amounts = s.spec_xml();
        if let Some(treatment) = &group.treatment {
            breakdown_category(s, treatment);
        }
        s.close_group(Namespace::Cac, "TaxSubtotal");
        assert(s.spec_xml() =~= old(s).spec_xml() + spec_breakdown_group(*group, old(s).spec_forbidden(), crate::token::spec_attributes(currency@)));
    } else {
        assert(s.spec_xml() =~= old(s).spec_xml() + Seq::<char>::empty());
    }
}

/// Writes the VAT category of a breakdown group, mapped to its treatment field.
#[verifier::rlimit(100)]
#[verifier::spinoff_prover]
pub fn breakdown_category(s: &mut Serializer<Namespace>, treatment: &VatTreatment)
    requires
        old(s).wf(),
    ensures
        spec_restored(*old(s), *final(s)),
        !old(s).spec_forbidden().contains(Term::BT(118)) ==> spec_wrapped(old(s).spec_xml(), final(s).spec_xml(), Namespace::Cac, "TaxCategory"@),
        old(s).spec_forbidden().contains(Term::BT(118)) ==> *final(s) == *old(s),
        final(s).spec_xml() == old(s).spec_xml() + spec_breakdown_category(*treatment, old(s).spec_forbidden()),
{
    if s.open_group(Namespace::Cac, "TaxCategory", "treatment", Term::BT(118)) {
        let none: Vec<(String, String)> = Vec::new();
        assert(crate::token::spec_attributes(none@) =~= Seq::empty());
        let ghost opened = s.spec_xml();
        s.derived(Namespace::Cbc, "ID", &none, treatment.category().code());
        let rate = treatment.rate().to_string();
        s.derived(Namespace::Cbc, "Percent", &none, rate.as_str());
        let ghost head = s.spec_xml();
        exemption(s, treatment);
        let ghost reasons = s.spec_xml();
        s.open_nested(Namespace::Cac, "TaxScheme");
        s.derived(Namespace::Cbc, "ID", &none, "VAT");
        s.close_wrapper(Namespace::Cac, "TaxScheme");
        s.close_group(Namespace::Cac, "TaxCategory");
        assert(s.spec_xml() =~= old(s).spec_xml() + spec_breakdown_category(*treatment, old(s).spec_forbidden()));
    } else {
        assert(s.spec_xml() =~= old(s).spec_xml() + Seq::<char>::empty());
    }
}

/// Writes the exemption reason code and text of an exempt treatment.
#[verifier::spinoff_prover]
#[verifier::rlimit(100)]
fn exemption(s: &mut Serializer<Namespace>, treatment: &VatTreatment)
    requires
        old(s).wf(),
    ensures
        spec_restored(*old(s), *final(s)),
        final(s).spec_xml() == old(s).spec_xml() + crate::serializer::spec_text_element(
            Namespace::Cbc,
            "TaxExemptionReasonCode"@,
            crate::cii_write::spec_exempt_code(Some(*treatment)),
        ) + crate::serializer::spec_text_element(
            Namespace::Cbc,
            "TaxExemptionReason"@,
            crate::cii_write::spec_exempt_text(Some(*treatment)),
        ),
{
    let none: Vec<(String, String)> = Vec::new();
    assert(crate::token::spec_attributes(none@) =~= Seq::empty());
    if let VatTreatment::Exempt { code, text } = treatment {
        if let Some(code) = code {
            s.derived(Namespace::Cbc, "TaxExemptionReasonCode", &none, code.as_str());
        }
        let ghost middle = s.spec_xml();
        if let Some(text) = text {
            s.derived(Namespace::Cbc, "TaxExemptionReason", &none, text.as_str());
        }
    }
    assert(s.spec_xml() =~= old(s).spec_xml() + crate::serializer::spec_text_element(
        Namespace::Cbc,
        "TaxExemptionReasonCode"@,
        crate::cii_write::spec_exempt_code(Some(*treatment)),
    ) + crate::serializer::spec_text_element(
        Namespace::Cbc,
        "TaxExemptionReason"@,
        crate::cii_write::spec_exempt_text(Some(*treatment)),
    ));
}

/// Writes one amount of the legal monetary total, if the invoice states it.
fn monetary_amount(
    s: &mut Serializer<Namespace>,
    name: &str,
    field: &'static str,
    term: Term,
    currency: &Vec<(String, String)>,
    value: &Option<Decimal>,
)
    requires
        old(s).wf(),
    ensures
        spec_restored(*old(s), *final(s)),
        value is None || old(s).spec_forbidden().contains(term) ==> *final(s) == *old(s),
        value matches Some(v) ==> (!old(s).spec_forbidden().contains(term) ==> final(s).spec_xml()
            == old(s).spec_xml() + spec_element(
            Namespace::Cbc,
            name@,
            crate::token::spec_attributes(currency@),
            spec_money(v@),
        )),
        final(s).spec_xml() == old(s).spec_xml() + spec_term_element(
            old(s).spec_forbidden(),
            term,
            Namespace::Cbc,
            name@,
            crate::token::spec_attributes(currency@),
            crate::cii_write::spec_money_text(*value),
        ),
{
    if let Some(value) = value {
        let written = money(value);
        s.leaf_attr(Namespace::Cbc, name, field, term, currency, written.as_str());
    } else {
        assert(s.spec_xml() =~= old(s).spec_xml() + Seq::<char>::empty());
    }
}

/// Writes the legal monetary total, each amount mapped to its own field.
/// The whole group is absent when the invoice states none of its amounts.
#[verifier::spinoff_prover]
#[verifier::rlimit(100)]
pub fn legal_monetary_total(s: &mut Serializer<Namespace>, invoice: &Invoice)
    requires
        old(s).wf(),
    ensures
        spec_restored(*old(s), *final(s)),
        spec_states_totals(*invoice) ==> spec_wrapped(old(s).spec_xml(), final(s).spec_xml(), Namespace::Cac, "LegalMonetaryTotal"@),
        !spec_states_totals(*invoice) ==> *final(s) == *old(s),
        final(s).spec_xml() == old(s).spec_xml() + spec_legal_monetary_total(*invoice, old(s).spec_forbidden()),
{
    if invoice.line_net_total.is_none() && invoice.net_total.is_none() && invoice.gross_total.is_none()
        && invoice.allowances_total.is_none() && invoice.charges_total.is_none()
        && invoice.paid.is_none() && invoice.rounding.is_none() && invoice.due.is_none() {
        assert(s.spec_xml() =~= old(s).spec_xml() + Seq::<char>::empty());
        return;
    }
    let currency = currency_attribute(invoice);
    s.open_structural(Namespace::Cac, "LegalMonetaryTotal");
    let ghost opened = *s;
    totals_head(s, invoice, &currency);
    totals_tail(s, invoice, &currency);
    assert(spec_restored(opened, *s));
    s.close_wrapper(Namespace::Cac, "LegalMonetaryTotal");
    assert(s.spec_xml() =~= old(s).spec_xml() + spec_legal_monetary_total(*invoice, old(s).spec_forbidden()));
}

/// Whether the invoice states any amount of the legal monetary total.
pub open spec fn spec_states_totals(invoice: Invoice) -> bool {
    invoice.line_net_total is Some || invoice.net_total is Some || invoice.gross_total is Some
        || invoice.allowances_total is Some || invoice.charges_total is Some || invoice.paid is Some
        || invoice.rounding is Some || invoice.due is Some
}

/// One amount of the legal monetary total as written.
pub open spec fn spec_total(invoice: Invoice, forbidden: Seq<Term>, term: Term, name: Seq<char>, value: Option<Decimal>) -> Seq<char> {
    spec_term_element(forbidden, term, Namespace::Cbc, name, spec_currency(invoice), crate::cii_write::spec_money_text(value))
}

/// The first amounts of the legal monetary total as written, up to the allowances.
pub open spec fn spec_totals_head(invoice: Invoice, forbidden: Seq<Term>) -> Seq<char> {
    spec_total(invoice, forbidden, Term::BT(106), "LineExtensionAmount"@, invoice.line_net_total)
        + spec_total(invoice, forbidden, Term::BT(109), "TaxExclusiveAmount"@, invoice.net_total)
        + spec_total(invoice, forbidden, Term::BT(112), "TaxInclusiveAmount"@, invoice.gross_total)
        + spec_total(invoice, forbidden, Term::BT(107), "AllowanceTotalAmount"@, invoice.allowances_total)
}

/// The last amounts of the legal monetary total as written, from the charges on.
pub open spec fn spec_totals_tail(invoice: Invoice, forbidden: Seq<Term>) -> Seq<char> {
    spec_total(invoice, forbidden, Term::BT(108), "ChargeTotalAmount"@, invoice.charges_total)
        + spec_total(invoice, forbidden, Term::BT(113), "PrepaidAmount"@, invoice.paid)
        + spec_total(invoice, forbidden, Term::BT(114), "PayableRoundingAmount"@, invoice.rounding)
        + spec_total(invoice, forbidden, Term::BT(115), "PayableAmount"@, invoice.due)
}

/// The legal monetary total as written: absent where the invoice states none of its amounts,
/// otherwise each amount it states that the profile allows.
pub open spec fn spec_legal_monetary_total(invoice: Invoice, forbidden: Seq<Term>) -> Seq<char> {
    if spec_states_totals(invoice) {
        spec_group(
            Namespace::Cac,
            "LegalMonetaryTotal"@,
            spec_totals_head(invoice, forbidden) + spec_totals_tail(invoice, forbidden),
        )
    } else {
        Seq::empty()
    }
}

/// Writes the first amounts of the legal monetary total, up to the allowances.
#[verifier::rlimit(100)]
#[verifier::spinoff_prover]
fn totals_head(s: &mut Serializer<Namespace>, invoice: &Invoice, currency: &Vec<(String, String)>)
    requires
        old(s).wf(),
        crate::token::spec_attributes(currency@) == spec_currency(*invoice),
    ensures
        spec_restored(*old(s), *final(s)),
        final(s).spec_xml() == old(s).spec_xml() + spec_totals_head(*invoice, old(s).spec_forbidden()),
{
    let ghost x0 = s.spec_xml();
    monetary_amount(s, "LineExtensionAmount", "line_net_total", Term::BT(106), currency, &invoice.line_net_total);
    monetary_amount(s, "TaxExclusiveAmount", "net_total", Term::BT(109), currency, &invoice.net_total);
    monetary_amount(s, "TaxInclusiveAmount", "gross_total", Term::BT(112), currency, &invoice.gross_total);
    monetary_amount(s, "AllowanceTotalAmount", "allowances_total", Term::BT(107), currency, &invoice.allowances_total);
    assert(s.spec_xml() =~= x0 + spec_totals_head(*invoice, old(s).spec_forbidden()));
}

/// Writes the last amounts of the legal monetary total, from the charges on.
#[verifier::rlimit(100)]
#[verifier::spinoff_prover]
fn totals_tail(s: &mut Serializer<Namespace>, invoice: &Invoice, currency: &Vec<(String, String)>)
    requires
        old(s).wf(),
        crate::token::spec_attributes(currency@) == spec_currency(*invoice),
    ensures
        spec_restored(*old(s), *final(s)),
        final(s).spec_xml() == old(s).spec_xml() + spec_totals_tail(*invoice, old(s).spec_forbidden()),
{
    let ghost x0 = s.spec_xml();
    monetary_amount(s, "ChargeTotalAmount", "charges_total", Term::BT(108), currency, &invoice.charges_total);
    monetary_amount(s, "PrepaidAmount", "paid", Term::BT(113), currency, &invoice.paid);
    monetary_amount(s, "PayableRoundingAmount", "rounding", Term::BT(114), currency, &invoice.rounding);
    monetary_amount(s, "PayableAmount", "due", Term::BT(115), currency, &invoice.due);
    assert(s.spec_xml() =~= x0 + spec_totals_tail(*invoice, old(s).spec_forbidden()));
}

/// Writes the invoice lines (`BG-25`), each a repeatable-group instance.
#[verifier::rlimit(100)]
#[verifier::spinoff_prover]
pub fn lines(s: &mut Serializer<Namespace>, lines: &Vec<InvoiceLine>, currency: &Vec<(String, String)>)
    requires
        old(s).wf(),
    ensures
        spec_restored(*old(s), *final(s)),
        spec_wrapped_each(
            old(s).spec_xml(),
            final(s).spec_xml(),
            Namespace::Cac,
            "InvoiceLine"@,
            if old(s).spec_forbidden().contains(Term::BG(25)) { 0 } else { lines@.len() },
        ),
        final(s).spec_xml() == old(s).spec_xml() + spec_lines(lines@, old(s).spec_forbidden(), crate::token::spec_attributes(currency@)),
{
    let forbidden = s.forbids(Term::BG(25));
    let mut i: usize = 0;
    while i < lines.len()
        invariant
            i <= lines@.len(),
            old(s).wf(),
            spec_restored(*old(s), *s),
            forbidden == old(s).spec_forbidden().contains(Term::BG(25)),
            spec_wrapped_each(old(s).spec_xml(), s.spec_xml(), Namespace::Cac, "InvoiceLine"@, if forbidden { 0 } else { i as nat }),
            s.spec_xml() == old(s).spec_xml() + spec_lines(lines@.take(i as int), old(s).spec_forbidden(), crate::token::spec_attributes(currency@)),
        decreases lines@.len() - i,
    {
        let ghost previous = s.spec_xml();
        line_group(s, &lines[i], i + 1, currency);
        proof {
            let done = lines@.take(i + 1);
            assert(done.drop_last() =~= lines@.take(i as int));
            assert(s.spec_xml() =~= old(s).spec_xml() + spec_lines(done, old(s).spec_forbidden(), crate::token::spec_attributes(currency@)));
        }
        i = i + 1;
    }
    assert(lines@.take(i as int) =~= lines@);
}

/// Writes one line group (`BG-25`), unless the profile forbids lines.
#[verifier::spinoff_prover]
#[verifier::rlimit(100)]
fn line_group(s: &mut Serializer<Namespace>, line: &InvoiceLine, instance: usize, currency: &Vec<(String, String)>)
    requires
        old(s).wf(),
    ensures
        spec_restored(*old(s), *final(s)),
        !old(s).spec_forbidden().contains(Term::BG(25)) ==> spec_wrapped(old(s).spec_xml(), final(s).spec_xml(), Namespace::Cac, "InvoiceLine"@),
        old(s).spec_forbidden().contains(Term::BG(25)) ==> *final(s) == *old(s),
        !old(s).spec_forbidden().contains(Term::BG(25)) ==> final(s).spec_xml() == old(s).spec_xml() + spec_group(
            Namespace::Cac,
            "InvoiceLine"@,
            spec_invoice_line(*line, old(s).spec_forbidden(), crate::token::spec_attributes(currency@)),
        ),
{
    if s.open_repeatable(Namespace::Cac, "InvoiceLine", "lines", Term::BG(25), instance) {
        invoice_line(s, line, currency);
        s.close_group(Namespace::Cac, "InvoiceLine");
        assert(spec_wrapped(old(s).spec_xml(), s.spec_xml(), Namespace::Cac, "InvoiceLine"@));
    }
}

/// The lines of the invoice as written (`BG-25`), none where the profile forbids them.
pub open spec fn spec_lines(lines: Seq<InvoiceLine>, forbidden: Seq<Term>, currency: Seq<(Seq<char>, Seq<char>)>) -> Seq<char>
    decreases lines.len(),
{
    if lines.len() == 0 || forbidden.contains(Term::BG(25)) {
        Seq::empty()
    } else {
        spec_lines(lines.drop_last(), forbidden, currency) + spec_group(
            Namespace::Cac,
            "InvoiceLine"@,
            spec_invoice_line(lines.last(), forbidden, currency),
        )
    }
}

/// Writes one invoice line body.
#[verifier::spinoff_prover]
#[verifier::rlimit(100)]
pub fn invoice_line(s: &mut Serializer<Namespace>, line: &InvoiceLine, currency: &Vec<(String, String)>)
    requires
        old(s).wf(),
    ensures
        spec_restored(*old(s), *final(s)),
        final(s).spec_xml() == old(s).spec_xml() + spec_invoice_line(*line, old(s).spec_forbidden(), crate::token::spec_attributes(currency@)),
{
    line_fields(s, line, currency);
    line_references(s, line, currency);
    assert(s.spec_xml() =~= old(s).spec_xml() + spec_invoice_line(*line, old(s).spec_forbidden(), crate::token::spec_attributes(currency@)));
}

/// What a line group holds as written: its single fields, then its references, adjustments,
/// item and price.
pub open spec fn spec_invoice_line(line: InvoiceLine, forbidden: Seq<Term>, currency: Seq<(Seq<char>, Seq<char>)>) -> Seq<char> {
    spec_line_fields(line, forbidden, currency) + spec_line_references(line, forbidden, currency)
}

/// The first single fields of a line as written: its identifier, note and quantity.
pub open spec fn spec_line_fields_head(line: InvoiceLine, forbidden: Seq<Term>) -> Seq<char> {
    spec_term_element(forbidden, Term::BT(126), Namespace::Cbc, "ID"@, Seq::empty(), crate::ubl_read::spec_texts(line.id))
        + spec_term_element(forbidden, Term::BT(127), Namespace::Cbc, "Note"@, Seq::empty(), crate::ubl_read::spec_texts(line.note))
        + spec_term_element(
        forbidden,
        Term::BT(129),
        Namespace::Cbc,
        "InvoicedQuantity"@,
        match line.quantity {
            Some(q) => seq![("unitCode"@, q.unit@)],
            None => Seq::empty(),
        },
        match line.quantity {
            Some(q) => Some(crate::decimal::spec_decimal_text(q.value@)),
            None => None,
        },
    )
}

/// The last single fields of a line as written: its net amount and accounting reference.
pub open spec fn spec_line_fields_tail(line: InvoiceLine, forbidden: Seq<Term>, currency: Seq<(Seq<char>, Seq<char>)>) -> Seq<char> {
    spec_term_element(
        forbidden,
        Term::BT(131),
        Namespace::Cbc,
        "LineExtensionAmount"@,
        currency,
        crate::cii_write::spec_money_text(line.net_amount),
    ) + spec_term_element(
        forbidden,
        Term::BT(133),
        Namespace::Cbc,
        "AccountingCost"@,
        Seq::empty(),
        crate::ubl_read::spec_texts(line.buyer_accounting_reference),
    )
}

/// The single fields of a line as written: its identifier, note, quantity, net amount and
/// accounting reference, each when the line states it and the profile allows its term.
pub open spec fn spec_line_fields(line: InvoiceLine, forbidden: Seq<Term>, currency: Seq<(Seq<char>, Seq<char>)>) -> Seq<char> {
    spec_line_fields_head(line, forbidden) + spec_line_fields_tail(line, forbidden, currency)
}

/// Writes the single fields of a line: its identifier, note, quantity, net amount and
/// accounting reference.
#[verifier::spinoff_prover]
#[verifier::rlimit(100)]
pub fn line_fields(s: &mut Serializer<Namespace>, line: &InvoiceLine, currency: &Vec<(String, String)>)
    requires
        old(s).wf(),
    ensures
        spec_restored(*old(s), *final(s)),
        final(s).spec_xml() == old(s).spec_xml() + spec_line_fields(*line, old(s).spec_forbidden(), crate::token::spec_attributes(currency@)),
{
    line_fields_head(s, line);
    line_fields_tail(s, line, currency);
    assert(s.spec_xml() =~= old(s).spec_xml() + spec_line_fields(*line, old(s).spec_forbidden(), crate::token::spec_attributes(currency@)));
}

/// Writes the identifier, note and quantity of a line.
#[verifier::rlimit(100)]
#[verifier::spinoff_prover]
fn line_fields_head(s: &mut Serializer<Namespace>, line: &InvoiceLine)
    requires
        old(s).wf(),
    ensures
        spec_restored(*old(s), *final(s)),
        final(s).spec_xml() == old(s).spec_xml() + spec_line_fields_head(*line, old(s).spec_forbidden()),
{
    if let Some(id) = &line.id {
        s.leaf(Namespace::Cbc, "ID", "id", Term::BT(126), id.as_str());
    }
    let ghost x1 = s.spec_xml();
    if let Some(note) = &line.note {
        s.leaf(Namespace::Cbc, "Note", "note", Term::BT(127), note.as_str());
    }
    let ghost x2 = s.spec_xml();
    if let Some(quantity) = &line.quantity {
        let attributes = attribute("unitCode", quantity.unit.code());
        assert(crate::token::spec_attributes(attributes@) =~= seq![("unitCode"@, quantity.unit@)]);
        let value = quantity.value.to_string();
        s.leaf_attr(Namespace::Cbc, "InvoicedQuantity", "quantity", Term::BT(129), &attributes, value.as_str());
    }
    assert(s.spec_xml() =~= old(s).spec_xml() + spec_line_fields_head(*line, old(s).spec_forbidden()));
}

/// Writes the net amount and accounting reference of a line.
#[verifier::rlimit(100)]
#[verifier::spinoff_prover]
fn line_fields_tail(s: &mut Serializer<Namespace>, line: &InvoiceLine, currency: &Vec<(String, String)>)
    requires
        old(s).wf(),
    ensures
        spec_restored(*old(s), *final(s)),
        final(s).spec_xml() == old(s).spec_xml() + spec_line_fields_tail(*line, old(s).spec_forbidden(), crate::token::spec_attributes(currency@)),
{
    if let Some(net) = &line.net_amount {
        let value = money(net);
        s.leaf_attr(Namespace::Cbc, "LineExtensionAmount", "net_amount", Term::BT(131), currency, value.as_str());
    }
    let ghost x1 = s.spec_xml();
    if let Some(reference) = &line.buyer_accounting_reference {
        s.leaf(Namespace::Cbc, "AccountingCost", "buyer_accounting_reference", Term::BT(133), reference.as_str());
    }
    assert(s.spec_xml() =~= old(s).spec_xml() + spec_line_fields_tail(*line, old(s).spec_forbidden(), crate::token::spec_attributes(currency@)));
}

/// Writes the groups of a line: its period, order line and object references, adjustments,
/// item with the line VAT, and price.
#[verifier::rlimit(100)]
#[verifier::spinoff_prover]
pub fn line_references(s: &mut Serializer<Namespace>, line: &InvoiceLine, currency: &Vec<(String, String)>)
    requires
        old(s).wf(),
    ensures
        spec_restored(*old(s), *final(s)),
        final(s).spec_xml() == old(s).spec_xml() + spec_line_references(*line, old(s).spec_forbidden(), crate::token::spec_attributes(currency@)),
{
    line_links(s, line);
    line_adjustments(s, &line.adjustments, currency);
    let ghost adjusted = s.spec_xml();
    if line.item.is_some() || line.vat.is_some() {
        item(s, line);
    }
    let ghost itemized = s.spec_xml();
    if let Some(price) = &line.price {
        line_price(s, price, currency);
    }
    assert(s.spec_xml() =~= old(s).spec_xml() + spec_line_references(*line, old(s).spec_forbidden(), crate::token::spec_attributes(currency@)));
}

/// The period, order line reference and object of a line as written.
pub open spec fn spec_line_links(line: InvoiceLine, forbidden: Seq<Term>) -> Seq<char> {
    (match line.period {
        Some(p) => spec_line_period(p, forbidden),
        None => Seq::empty(),
    }) + (match line.order_line_reference {
        Some(order) => spec_group(
            Namespace::Cac,
            "OrderLineReference"@,
            spec_term_element(forbidden, Term::BT(132), Namespace::Cbc, "LineID"@, Seq::empty(), Some(order@)),
        ),
        None => Seq::empty(),
    }) + (match line.object {
        Some(object) => spec_group(
            Namespace::Cac,
            "DocumentReference"@,
            spec_term_element(forbidden, Term::BT(128), Namespace::Cbc, "ID"@, spec_scheme_attribute(object.scheme), Some(object.id@)),
        ),
        None => Seq::empty(),
    })
}

/// What follows the single fields of a line as written: its period and references, its
/// allowances and charges, its item and its price.
pub open spec fn spec_line_references(line: InvoiceLine, forbidden: Seq<Term>, currency: Seq<(Seq<char>, Seq<char>)>) -> Seq<char> {
    spec_line_links(line, forbidden) + spec_line_adjustments(line.adjustments@, forbidden, currency) + (if line.item is Some
        || line.vat is Some {
        spec_group(Namespace::Cac, "Item"@, spec_item_body(line, forbidden))
    } else {
        Seq::empty()
    }) + (match line.price {
        Some(p) => spec_line_price(p, forbidden, currency),
        None => Seq::empty(),
    })
}

/// Writes the period, order line reference and object of a line.
#[verifier::rlimit(100)]
#[verifier::spinoff_prover]
fn line_links(s: &mut Serializer<Namespace>, line: &InvoiceLine)
    requires
        old(s).wf(),
    ensures
        spec_restored(*old(s), *final(s)),
        final(s).spec_xml() == old(s).spec_xml() + spec_line_links(*line, old(s).spec_forbidden()),
{
    if let Some(period) = &line.period {
        line_period(s, period);
    }
    let ghost x1 = s.spec_xml();
    if let Some(order) = &line.order_line_reference {
        order_line_reference(s, order);
    }
    let ghost x2 = s.spec_xml();
    if let Some(object) = &line.object {
        line_object(s, object);
    }
    assert(s.spec_xml() =~= old(s).spec_xml() + spec_line_links(*line, old(s).spec_forbidden()));
}

/// Writes the referenced purchase order line (`BT-132`) in its aggregate.
#[verifier::spinoff_prover]
#[verifier::rlimit(100)]
fn order_line_reference(s: &mut Serializer<Namespace>, order: &crate::values::NonEmptyString)
    requires
        old(s).wf(),
    ensures
        spec_restored(*old(s), *final(s)),
        final(s).spec_xml() == old(s).spec_xml() + spec_group(
            Namespace::Cac,
            "OrderLineReference"@,
            spec_term_element(old(s).spec_forbidden(), Term::BT(132), Namespace::Cbc, "LineID"@, Seq::empty(), Some(order@)),
        ),
{
    s.open_structural(Namespace::Cac, "OrderLineReference");
    let ghost opened = *s;
    s.leaf(Namespace::Cbc, "LineID", "order_line_reference", Term::BT(132), order.as_str());
    assert(spec_restored(opened, *s));
    s.close_wrapper(Namespace::Cac, "OrderLineReference");
}

/// Writes the invoiced object identifier of a line (`BT-128`) in its document reference.
#[verifier::rlimit(100)]
#[verifier::spinoff_prover]
fn line_object(s: &mut Serializer<Namespace>, object: &ObjectReference)
    requires
        old(s).wf(),
    ensures
        spec_restored(*old(s), *final(s)),
        final(s).spec_xml() == old(s).spec_xml() + spec_group(
            Namespace::Cac,
            "DocumentReference"@,
            spec_term_element(old(s).spec_forbidden(), Term::BT(128), Namespace::Cbc, "ID"@, spec_scheme_attribute(object.scheme), Some(object.id@)),
        ),
{
    s.open_structural(Namespace::Cac, "DocumentReference");
    let ghost opened = *s;
    let attributes = match &object.scheme {
        Some(scheme) => attribute("schemeID", scheme.as_str()),
        None => Vec::new(),
    };
    assert(crate::token::spec_attributes(attributes@) =~= spec_scheme_attribute(object.scheme));
    s.leaf_attr(Namespace::Cbc, "ID", "object", Term::BT(128), &attributes, object.id.as_str());
    assert(spec_restored(opened, *s));
    s.close_wrapper(Namespace::Cac, "DocumentReference");
}

/// A date leaf as written, when there is a date.
pub open spec fn spec_date_element(name: Seq<char>, date: Option<Date>) -> Seq<char> {
    match date {
        Some(d) => spec_element(Namespace::Cbc, name, Seq::empty(), spec_date_text(d@.year, d@.month, d@.day)),
        None => Seq::empty(),
    }
}

/// The invoice period of a line as written (`BG-26`), absent where the profile forbids it.
pub open spec fn spec_line_period(period: Period, forbidden: Seq<Term>) -> Seq<char> {
    if forbidden.contains(Term::BG(26)) {
        Seq::empty()
    } else {
        spec_group(
            Namespace::Cac,
            "InvoicePeriod"@,
            spec_date_element("StartDate"@, period.start) + spec_date_element("EndDate"@, period.end),
        )
    }
}

/// Writes the line invoice period (`BG-26`).
#[verifier::spinoff_prover]
#[verifier::rlimit(100)]
pub fn line_period(s: &mut Serializer<Namespace>, period: &Period)
    requires
        old(s).wf(),
    ensures
        spec_restored(*old(s), *final(s)),
        !old(s).spec_forbidden().contains(Term::BG(26)) ==> spec_wrapped(old(s).spec_xml(), final(s).spec_xml(), Namespace::Cac, "InvoicePeriod"@),
        old(s).spec_forbidden().contains(Term::BG(26)) ==> *final(s) == *old(s),
        final(s).spec_xml() == old(s).spec_xml() + spec_line_period(*period, old(s).spec_forbidden()),
{
    if s.open_group(Namespace::Cac, "InvoicePeriod", "period", Term::BG(26)) {
        let ghost opened = s.spec_xml();
        if let Some(start) = &period.start {
            let text = date_text(start);
            s.field_leaf(Namespace::Cbc, "StartDate", "period", text.as_str());
        }
        let ghost middle = s.spec_xml();
        if let Some(end) = &period.end {
            let text = date_text(end);
            s.field_leaf(Namespace::Cbc, "EndDate", "period", text.as_str());
        }
        s.close_group(Namespace::Cac, "InvoicePeriod");
        assert(s.spec_xml() =~= old(s).spec_xml() + spec_line_period(*period, old(s).spec_forbidden()));
    } else {
        assert(s.spec_xml() =~= old(s).spec_xml() + Seq::<char>::empty());
    }
}

/// The term of a line allowance or charge: `BG-28` for a charge, `BG-27` for an allowance.
pub open spec fn spec_line_adjustment_term(adjustment: LineAdjustment) -> Term {
    if adjustment.reason is Charge {
        Term::BG(28)
    } else {
        Term::BG(27)
    }
}

/// One line allowance or charge as written, absent where the profile forbids its term.
pub open spec fn spec_line_adjustment(adjustment: LineAdjustment, forbidden: Seq<Term>, currency: Seq<(Seq<char>, Seq<char>)>) -> Seq<char> {
    if forbidden.contains(spec_line_adjustment_term(adjustment)) {
        Seq::empty()
    } else {
        spec_group(
            Namespace::Cac,
            "AllowanceCharge"@,
            spec_element(
                Namespace::Cbc,
                "ChargeIndicator"@,
                Seq::empty(),
                if adjustment.reason is Charge { "true"@ } else { "false"@ },
            ) + spec_reason(adjustment.reason) + spec_adjustment_amount(adjustment.amount, currency),
        )
    }
}

/// The reason code and text of an adjustment as written.
pub open spec fn spec_reason(reason: Reason) -> Seq<char> {
    match reason {
        Reason::Allowance { code, text } | Reason::Charge { code, text } => spec_optional_element(
            Namespace::Cbc,
            "AllowanceChargeReasonCode"@,
            code,
        ) + spec_optional_element(Namespace::Cbc, "AllowanceChargeReason"@, text),
    }
}

/// The line allowances and charges as written, one after the other.
pub open spec fn spec_line_adjustments(adjustments: Seq<LineAdjustment>, forbidden: Seq<Term>, currency: Seq<(Seq<char>, Seq<char>)>) -> Seq<char>
    decreases adjustments.len(),
{
    if adjustments.len() == 0 {
        Seq::empty()
    } else {
        spec_line_adjustments(adjustments.drop_last(), forbidden, currency) + spec_line_adjustment(adjustments.last(), forbidden, currency)
    }
}

/// Writes the line-level allowances and charges (`BG-27`/`BG-28`).
#[verifier::spinoff_prover]
#[verifier::rlimit(100)]
pub fn line_adjustments(s: &mut Serializer<Namespace>, adjustments: &Vec<LineAdjustment>, currency: &Vec<(String, String)>)
    requires
        old(s).wf(),
    ensures
        spec_restored(*old(s), *final(s)),
        !old(s).spec_forbidden().contains(Term::BG(27)) && !old(s).spec_forbidden().contains(Term::BG(28)) ==> spec_wrapped_each(
            old(s).spec_xml(),
            final(s).spec_xml(),
            Namespace::Cac,
            "AllowanceCharge"@,
            adjustments@.len(),
        ),
        final(s).spec_xml() == old(s).spec_xml() + spec_line_adjustments(adjustments@, old(s).spec_forbidden(), crate::token::spec_attributes(currency@)),
{
    let mut i: usize = 0;
    while i < adjustments.len()
        invariant
            i <= adjustments@.len(),
            old(s).wf(),
            spec_restored(*old(s), *s),
            !old(s).spec_forbidden().contains(Term::BG(27)) && !old(s).spec_forbidden().contains(Term::BG(28)) ==> spec_wrapped_each(old(s).spec_xml(), s.spec_xml(), Namespace::Cac, "AllowanceCharge"@, i as nat),
            s.spec_xml() == old(s).spec_xml() + spec_line_adjustments(adjustments@.take(i as int), old(s).spec_forbidden(), crate::token::spec_attributes(currency@)),
        decreases adjustments@.len() - i,
    {
        let ghost previous = s.spec_xml();
        line_adjustment(s, &adjustments[i], i + 1, currency);
        proof {
            if !old(s).spec_forbidden().contains(Term::BG(27)) && !old(s).spec_forbidden().contains(Term::BG(28)) {
                assert(spec_wrapped(previous, s.spec_xml(), Namespace::Cac, "AllowanceCharge"@));
            }
            let done = adjustments@.take(i + 1);
            assert(done.drop_last() =~= adjustments@.take(i as int));
            assert(s.spec_xml() =~= old(s).spec_xml() + spec_line_adjustments(done, old(s).spec_forbidden(), crate::token::spec_attributes(currency@)));
        }
        i = i + 1;
    }
    assert(adjustments@.take(i as int) =~= adjustments@);
}

/// Writes one line allowance or charge, unless the profile forbids its term.
#[verifier::rlimit(100)]
#[verifier::spinoff_prover]
fn line_adjustment(s: &mut Serializer<Namespace>, adjustment: &LineAdjustment, instance: usize, currency: &Vec<(String, String)>)
    requires
        old(s).wf(),
    ensures
        spec_restored(*old(s), *final(s)),
        !old(s).spec_forbidden().contains(spec_line_adjustment_term(*adjustment)) ==> spec_wrapped(old(s).spec_xml(), final(s).spec_xml(), Namespace::Cac, "AllowanceCharge"@),
        final(s).spec_xml() == old(s).spec_xml() + spec_line_adjustment(*adjustment, old(s).spec_forbidden(), crate::token::spec_attributes(currency@)),
{
    let charge = matches!(adjustment.reason, Reason::Charge { .. });
    let term = if charge { Term::BG(28) } else { Term::BG(27) };
    if s.open_repeatable(Namespace::Cac, "AllowanceCharge", "adjustments", term, instance) {
        charge_indicator(s, charge);
        adjustment_reason(s, &adjustment.reason);
        adjustment_amount(s, &adjustment.amount, currency);
        s.close_group(Namespace::Cac, "AllowanceCharge");
        assert(s.spec_xml() =~= old(s).spec_xml() + spec_line_adjustment(*adjustment, old(s).spec_forbidden(), crate::token::spec_attributes(currency@)));
    } else {
        assert(s.spec_xml() =~= old(s).spec_xml() + Seq::<char>::empty());
    }
}

/// Writes the item (`BG-31`) with the line VAT as its classified tax category.
/// The classified tax category sits between the head of the item and its attributes in the
/// UBL schema, and belongs to the line in the model, so the item segment is dropped before it.
#[verifier::rlimit(100)]
#[verifier::spinoff_prover]
pub fn item(s: &mut Serializer<Namespace>, line: &InvoiceLine)
    requires
        old(s).wf(),
    ensures
        spec_restored(*old(s), *final(s)),
        spec_wrapped(old(s).spec_xml(), final(s).spec_xml(), Namespace::Cac, "Item"@),
        final(s).spec_xml() == old(s).spec_xml() + spec_group(Namespace::Cac, "Item"@, spec_item_body(*line, old(s).spec_forbidden())),
{
    s.open_field_group(Namespace::Cac, "Item", "item");
    let ghost opened = s.spec_xml();
    if let Some(item) = &line.item {
        item_head(s, item);
    }
    let ghost head = s.spec_xml();
    // The classified tax category is a sibling of the item in the model.
    s.pop_segment();
    if let Some(vat) = &line.vat {
        classified_tax_category(s, vat);
    }
    let ghost category = s.spec_xml();
    if let Some(item) = &line.item {
        item_attributes(s, item);
    }
    s.close_wrapper(Namespace::Cac, "Item");
    assert(s.spec_xml() =~= old(s).spec_xml() + spec_group(Namespace::Cac, "Item"@, spec_item_body(*line, old(s).spec_forbidden())));
}

/// What the item group of a line holds as written: the item fields, the classified tax
/// category and the item attributes.
pub open spec fn spec_item_body(line: InvoiceLine, forbidden: Seq<Term>) -> Seq<char> {
    (match line.item {
        Some(item) => spec_item_head(item),
        None => Seq::empty(),
    }) + (match line.vat {
        Some(vat) => spec_classified_tax_category(vat, forbidden),
        None => Seq::empty(),
    }) + (match line.item {
        Some(item) => spec_item_attributes(item.attributes@),
        None => Seq::empty(),
    })
}

/// A term-less aggregate around an identifier leaf, when there is one.
pub open spec fn spec_identification(wrapper: Seq<char>, name: Seq<char>, value: Option<crate::values::NonEmptyString>) -> Seq<char> {
    match value {
        Some(v) => spec_group(Namespace::Cac, wrapper, spec_element(Namespace::Cbc, name, Seq::empty(), v@)),
        None => Seq::empty(),
    }
}

/// The item name, description and identifiers as written.
pub open spec fn spec_item_names(item: Item) -> Seq<char> {
    spec_optional_element(Namespace::Cbc, "Description"@, item.description)
        + spec_optional_element(Namespace::Cbc, "Name"@, item.name)
        + spec_identification("BuyersItemIdentification"@, "ID"@, item.buyer_id)
        + spec_identification("SellersItemIdentification"@, "ID"@, item.seller_id)
}

/// The standard identifier and the country of origin of an item as written.
pub open spec fn spec_item_origin(item: Item) -> Seq<char> {
    (match item.standard_id {
        Some(standard) => spec_group(
            Namespace::Cac,
            "StandardItemIdentification"@,
            spec_element(Namespace::Cbc, "ID"@, seq![("schemeID"@, standard.issuer@)], standard.id@),
        ),
        None => Seq::empty(),
    }) + (match item.country_of_origin {
        Some(country) => spec_group(
            Namespace::Cac,
            "OriginCountry"@,
            spec_element(Namespace::Cbc, "IdentificationCode"@, Seq::empty(), country@),
        ),
        None => Seq::empty(),
    })
}

/// The item fields that precede the classified tax category, as written.
pub open spec fn spec_item_head(item: Item) -> Seq<char> {
    spec_item_names(item) + spec_item_origin(item) + spec_classifications(item.classifications@)
}

/// The attributes of an item classification code: its scheme and scheme version.
pub open spec fn spec_classification_attributes(classification: Classification) -> Seq<(Seq<char>, Seq<char>)> {
    (match classification.scheme {
        Some(v) => seq![("listID"@, v@)],
        None => Seq::empty(),
    }) + (match classification.version {
        Some(v) => seq![("listVersionID"@, v@)],
        None => Seq::empty(),
    })
}

/// One item classification as written (`BT-158`).
pub open spec fn spec_classification(classification: Classification) -> Seq<char> {
    spec_group(
        Namespace::Cac,
        "CommodityClassification"@,
        match classification.id {
            Some(id) => spec_element(
                Namespace::Cbc,
                "ItemClassificationCode"@,
                spec_classification_attributes(classification),
                id@,
            ),
            None => Seq::empty(),
        },
    )
}

/// The item classifications as written, one after the other.
pub open spec fn spec_classifications(classifications: Seq<Classification>) -> Seq<char>
    decreases classifications.len(),
{
    if classifications.len() == 0 {
        Seq::empty()
    } else {
        spec_classifications(classifications.drop_last()) + spec_classification(classifications.last())
    }
}

/// One item attribute as written (`BG-32`).
pub open spec fn spec_item_attribute(attribute: crate::model::ItemAttribute) -> Seq<char> {
    spec_group(
        Namespace::Cac,
        "AdditionalItemProperty"@,
        spec_element(Namespace::Cbc, "Name"@, Seq::empty(), attribute.name@)
            + spec_element(Namespace::Cbc, "Value"@, Seq::empty(), attribute.value@),
    )
}

/// The item attributes as written, one after the other.
pub open spec fn spec_item_attributes(attributes: Seq<crate::model::ItemAttribute>) -> Seq<char>
    decreases attributes.len(),
{
    if attributes.len() == 0 {
        Seq::empty()
    } else {
        spec_item_attributes(attributes.drop_last()) + spec_item_attribute(attributes.last())
    }
}

/// Writes the item fields that precede the classified tax category.
#[verifier::spinoff_prover]
#[verifier::rlimit(100)]
pub fn item_head(s: &mut Serializer<Namespace>, item: &Item)
    requires
        old(s).wf(),
    ensures
        spec_restored(*old(s), *final(s)),
        final(s).spec_xml() == old(s).spec_xml() + spec_item_head(*item),
{
    item_names(s, item);
    item_origin(s, item);
    let ghost before = s.spec_xml();
    let classifications = &item.classifications;
    let mut i: usize = 0;
    while i < classifications.len()
        invariant
            i <= classifications@.len(),
            old(s).wf(),
            spec_restored(*old(s), *s),
            s.spec_xml() == before + spec_classifications(classifications@.take(i as int)),
        decreases classifications@.len() - i,
    {
        commodity_classification(s, &classifications[i]);
        proof {
            let done = classifications@.take(i + 1);
            assert(done.drop_last() =~= classifications@.take(i as int));
            assert(s.spec_xml() =~= before + spec_classifications(done));
        }
        i = i + 1;
    }
    assert(classifications@.take(i as int) =~= classifications@);
    assert(s.spec_xml() =~= old(s).spec_xml() + spec_item_head(*item));
}

/// Writes the item name, description, and buyer's and seller's identifiers.
#[verifier::rlimit(100)]
#[verifier::spinoff_prover]
fn item_names(s: &mut Serializer<Namespace>, item: &Item)
    requires
        old(s).wf(),
    ensures
        spec_restored(*old(s), *final(s)),
        final(s).spec_xml() == old(s).spec_xml() + spec_item_names(*item),
{
    if let Some(description) = &item.description {
        s.field_leaf(Namespace::Cbc, "Description", "description", description.as_str());
    }
    if let Some(name) = &item.name {
        s.field_leaf(Namespace::Cbc, "Name", "name", name.as_str());
    }
    if let Some(id) = &item.buyer_id {
        structural_leaf(s, "BuyersItemIdentification", "ID", "buyer_id", id.as_str());
    }
    if let Some(id) = &item.seller_id {
        structural_leaf(s, "SellersItemIdentification", "ID", "seller_id", id.as_str());
    }
    assert(s.spec_xml() =~= old(s).spec_xml() + spec_item_names(*item));
}

/// Writes the item standard identifier and country of origin.
#[verifier::rlimit(100)]
#[verifier::spinoff_prover]
fn item_origin(s: &mut Serializer<Namespace>, item: &Item)
    requires
        old(s).wf(),
    ensures
        spec_restored(*old(s), *final(s)),
        final(s).spec_xml() == old(s).spec_xml() + spec_item_origin(*item),
{
    if let Some(standard) = &item.standard_id {
        s.open_structural(Namespace::Cac, "StandardItemIdentification");
        let attributes = attribute("schemeID", standard.issuer.as_str());
        assert(crate::token::spec_attributes(attributes@) =~= seq![("schemeID"@, standard.issuer@)]);
        s.write_field_leaf(Namespace::Cbc, "ID", "standard_id", &attributes, standard.id.as_str());
        s.close_wrapper(Namespace::Cac, "StandardItemIdentification");
    }
    let ghost middle = s.spec_xml();
    if let Some(country) = &item.country_of_origin {
        s.open_structural(Namespace::Cac, "OriginCountry");
        s.field_leaf(Namespace::Cbc, "IdentificationCode", "country_of_origin", country.alpha2());
        s.close_wrapper(Namespace::Cac, "OriginCountry");
    }
    assert(s.spec_xml() =~= old(s).spec_xml() + spec_item_origin(*item));
}

/// Writes one item classification (`BT-158`).
#[verifier::spinoff_prover]
#[verifier::rlimit(100)]
pub fn commodity_classification(s: &mut Serializer<Namespace>, classification: &Classification)
    requires
        old(s).wf(),
    ensures
        spec_restored(*old(s), *final(s)),
        spec_wrapped(old(s).spec_xml(), final(s).spec_xml(), Namespace::Cac, "CommodityClassification"@),
        final(s).spec_xml() == old(s).spec_xml() + spec_classification(*classification),
{
    s.open_structural(Namespace::Cac, "CommodityClassification");
    if let Some(id) = &classification.id {
        let mut attributes: Vec<(String, String)> = Vec::new();
        if let Some(scheme) = &classification.scheme {
            attributes.push((owned("listID"), scheme.to_string()));
        }
        if let Some(version) = &classification.version {
            attributes.push((owned("listVersionID"), version.to_string()));
        }
        assert(crate::token::spec_attributes(attributes@) =~= spec_classification_attributes(*classification));
        s.write_field_leaf(Namespace::Cbc, "ItemClassificationCode", "classifications", &attributes, id.as_str());
    }
    s.close_wrapper(Namespace::Cac, "CommodityClassification");
    assert(s.spec_xml() =~= old(s).spec_xml() + spec_classification(*classification));
}

/// Writes the item attributes (`BG-32`), which follow the classified tax category.
#[verifier::spinoff_prover]
#[verifier::rlimit(100)]
pub fn item_attributes(s: &mut Serializer<Namespace>, item: &Item)
    requires
        old(s).wf(),
    ensures
        spec_restored(*old(s), *final(s)),
        spec_wrapped_each(
            old(s).spec_xml(),
            final(s).spec_xml(),
            Namespace::Cac,
            "AdditionalItemProperty"@,
            item.attributes@.len(),
        ),
        final(s).spec_xml() == old(s).spec_xml() + spec_item_attributes(item.attributes@),
{
    let attributes = &item.attributes;
    let mut i: usize = 0;
    while i < attributes.len()
        invariant
            i <= attributes@.len(),
            old(s).wf(),
            spec_restored(*old(s), *s),
            spec_wrapped_each(old(s).spec_xml(), s.spec_xml(), Namespace::Cac, "AdditionalItemProperty"@, i as nat),
            s.spec_xml() == old(s).spec_xml() + spec_item_attributes(attributes@.take(i as int)),
        decreases attributes@.len() - i,
    {
        let ghost previous = s.spec_xml();
        s.open_structural(Namespace::Cac, "AdditionalItemProperty");
        s.field_leaf(Namespace::Cbc, "Name", "attributes", attributes[i].name.as_str());
        s.field_leaf(Namespace::Cbc, "Value", "attributes", attributes[i].value.as_str());
        s.close_wrapper(Namespace::Cac, "AdditionalItemProperty");
        proof {
            if true {
                assert(spec_wrapped(previous, s.spec_xml(), Namespace::Cac, "AdditionalItemProperty"@));
            }
            let done = attributes@.take(i + 1);
            assert(done.drop_last() =~= attributes@.take(i as int));
            assert(s.spec_xml() =~= old(s).spec_xml() + spec_item_attributes(done));
        }
        i = i + 1;
    }
    assert(attributes@.take(i as int) =~= attributes@);
}

/// Writes the line VAT as a UBL classified tax category, mapped to the VAT field.
#[verifier::spinoff_prover]
#[verifier::rlimit(100)]
pub fn classified_tax_category(s: &mut Serializer<Namespace>, vat: &VatTreatment)
    requires
        old(s).wf(),
    ensures
        spec_restored(*old(s), *final(s)),
        !old(s).spec_forbidden().contains(Term::BG(30)) ==> spec_wrapped(old(s).spec_xml(), final(s).spec_xml(), Namespace::Cac, "ClassifiedTaxCategory"@),
        old(s).spec_forbidden().contains(Term::BG(30)) ==> *final(s) == *old(s),
        final(s).spec_xml() == old(s).spec_xml() + spec_classified_tax_category(*vat, old(s).spec_forbidden()),
{
    if s.open_group(Namespace::Cac, "ClassifiedTaxCategory", "vat", Term::BG(30)) {
        s.field_leaf(Namespace::Cbc, "ID", "vat", vat.category().code());
        let rate = vat.rate().to_string();
        s.field_leaf(Namespace::Cbc, "Percent", "vat", rate.as_str());
        structural_leaf(s, "TaxScheme", "ID", "vat", "VAT");
        s.close_group(Namespace::Cac, "ClassifiedTaxCategory");
        assert(s.spec_xml() =~= old(s).spec_xml() + spec_classified_tax_category(*vat, old(s).spec_forbidden()));
    } else {
        assert(s.spec_xml() =~= old(s).spec_xml() + Seq::<char>::empty());
    }
}

/// The category, rate and scheme of a VAT treatment as written: the children of a tax
/// category.
pub open spec fn spec_category_body(vat: VatTreatment) -> Seq<char> {
    spec_element(Namespace::Cbc, "ID"@, Seq::empty(), crate::vat::spec_category_code(crate::vat::spec_category(vat)))
        + spec_element(Namespace::Cbc, "Percent"@, Seq::empty(), spec_decimal_text(crate::vat::spec_rate(vat)))
        + spec_group(Namespace::Cac, "TaxScheme"@, spec_element(Namespace::Cbc, "ID"@, Seq::empty(), "VAT"@))
}

/// The classified tax category of a line as written (`BG-30`), absent where the profile
/// forbids it.
pub open spec fn spec_classified_tax_category(vat: VatTreatment, forbidden: Seq<Term>) -> Seq<char> {
    if forbidden.contains(Term::BG(30)) {
        Seq::empty()
    } else {
        spec_group(Namespace::Cac, "ClassifiedTaxCategory"@, spec_category_body(vat))
    }
}

/// Writes the line price (`BG-29`), every price with its own scale: the net price,
/// the base quantity, and the discount with the gross price it is taken from.
#[verifier::spinoff_prover]
#[verifier::rlimit(100)]
pub fn line_price(s: &mut Serializer<Namespace>, price: &Price, currency: &Vec<(String, String)>)
    requires
        old(s).wf(),
    ensures
        spec_restored(*old(s), *final(s)),
        !old(s).spec_forbidden().contains(Term::BG(29)) ==> spec_wrapped(old(s).spec_xml(), final(s).spec_xml(), Namespace::Cac, "Price"@),
        old(s).spec_forbidden().contains(Term::BG(29)) ==> *final(s) == *old(s),
        final(s).spec_xml() == old(s).spec_xml() + spec_line_price(*price, old(s).spec_forbidden(), crate::token::spec_attributes(currency@)),
{
    if s.open_group(Namespace::Cac, "Price", "price", Term::BG(29)) {
        let ghost opened = s.spec_xml();
        price_amounts(s, price, currency);
        if let Some(discount) = &price.discount {
            price_discount(s, price, discount, currency);
        }
        s.close_group(Namespace::Cac, "Price");
        assert(s.spec_xml() =~= old(s).spec_xml() + spec_line_price(*price, old(s).spec_forbidden(), crate::token::spec_attributes(currency@)));
    } else {
        assert(s.spec_xml() =~= old(s).spec_xml() + Seq::<char>::empty());
    }
}

/// The net price and base quantity of a line price as written.
pub open spec fn spec_price_amounts(price: Price, forbidden: Seq<Term>, currency: Seq<(Seq<char>, Seq<char>)>) -> Seq<char> {
    spec_term_element(
        forbidden,
        Term::BT(146),
        Namespace::Cbc,
        "PriceAmount"@,
        currency,
        if crate::pricing::spec_net_fits(price) {
            Some(spec_decimal_text(crate::pricing::spec_net(price)))
        } else {
            None
        },
    ) + match price.base_quantity {
        Some(base) => spec_element(
            Namespace::Cbc,
            "BaseQuantity"@,
            seq![("unitCode"@, base.unit@)],
            spec_decimal_text(base.value@),
        ),
        None => Seq::empty(),
    }
}

/// The discount of a line price as written, with the gross price it is taken from.
pub open spec fn spec_price_discount(price: Price, currency: Seq<(Seq<char>, Seq<char>)>) -> Seq<char> {
    match price.discount {
        Some(d) => spec_group(
            Namespace::Cac,
            "AllowanceCharge"@,
            spec_element(Namespace::Cbc, "ChargeIndicator"@, Seq::empty(), "false"@)
                + spec_element(Namespace::Cbc, "Amount"@, currency, spec_decimal_text(d@))
                + spec_element(Namespace::Cbc, "BaseAmount"@, currency, spec_decimal_text(price.gross@)),
        ),
        None => Seq::empty(),
    }
}

/// The line price as written (`BG-29`), absent where the profile forbids it.
pub open spec fn spec_line_price(price: Price, forbidden: Seq<Term>, currency: Seq<(Seq<char>, Seq<char>)>) -> Seq<char> {
    if forbidden.contains(Term::BG(29)) {
        Seq::empty()
    } else {
        spec_group(
            Namespace::Cac,
            "Price"@,
            spec_price_amounts(price, forbidden, currency) + spec_price_discount(price, currency),
        )
    }
}

/// Writes the net price and the base quantity of a line price.
#[verifier::rlimit(100)]
#[verifier::spinoff_prover]
fn price_amounts(s: &mut Serializer<Namespace>, price: &Price, currency: &Vec<(String, String)>)
    requires
        old(s).wf(),
    ensures
        spec_restored(*old(s), *final(s)),
        final(s).spec_xml() == old(s).spec_xml() + spec_price_amounts(*price, old(s).spec_forbidden(), crate::token::spec_attributes(currency@)),
{
    let discount = match &price.discount {
        Some(d) => *d,
        None => Decimal::zero(),
    };
    if let Some(net) = price.gross.checked_sub(&discount) {
        let value = net.to_string();
        s.leaf_attr(Namespace::Cbc, "PriceAmount", "net", Term::BT(146), currency, value.as_str());
    }
    let ghost middle = s.spec_xml();
    if let Some(base) = &price.base_quantity {
        let attributes = attribute("unitCode", base.unit.code());
        assert(crate::token::spec_attributes(attributes@) =~= seq![("unitCode"@, base.unit@)]);
        let value = base.value.to_string();
        s.write_field_leaf(Namespace::Cbc, "BaseQuantity", "price", &attributes, value.as_str());
    }
    assert(s.spec_xml() =~= old(s).spec_xml() + spec_price_amounts(*price, old(s).spec_forbidden(), crate::token::spec_attributes(currency@)));
}

/// Writes the discount of a line price with the gross price it is taken from.
#[verifier::rlimit(100)]
#[verifier::spinoff_prover]
fn price_discount(s: &mut Serializer<Namespace>, price: &Price, discount: &Decimal, currency: &Vec<(String, String)>)
    requires
        old(s).wf(),
        price.discount == Some(*discount),
    ensures
        spec_restored(*old(s), *final(s)),
        final(s).spec_xml() == old(s).spec_xml() + spec_price_discount(*price, crate::token::spec_attributes(currency@)),
{
    s.open_structural(Namespace::Cac, "AllowanceCharge");
    let ghost opened = *s;
    s.field_leaf(Namespace::Cbc, "ChargeIndicator", "price", "false");
    let amount = discount.to_string();
    s.write_field_leaf(Namespace::Cbc, "Amount", "price", currency, amount.as_str());
    let gross = price.gross.to_string();
    s.write_field_leaf(Namespace::Cbc, "BaseAmount", "price", currency, gross.as_str());
    assert(spec_restored(opened, *s));
    s.close_wrapper(Namespace::Cac, "AllowanceCharge");
    assert(s.spec_xml() =~= old(s).spec_xml() + spec_price_discount(*price, crate::token::spec_attributes(currency@)));
}

} // verus!
