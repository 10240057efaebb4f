//! The CII writing walk: the invoice rendered under the CII root element, with the dictionary
//! of its nodes filled in the same pass.

use vstd::prelude::*;
use crate::table::spec_lookup;
use crate::cii::Namespace;
use crate::decimal::Decimal;
use crate::format::{Cii, Format};
use crate::model::{
    Buyer, Contact, Delivery, Details, ElectronicAddress, Invoice, InvoiceLine, Item,
    LegalEntity, Note, OperationalEntity, Payee, PaymentInstructions, Period, PostalAddress,
    PrecedingInvoice, Seller, TaxRepresentative, VatBreakdown, VatPoint,
};
use crate::namespace::spec_default_entries;
use crate::pricing::{Adjustment, Amount, LineAdjustment, Price, Reason};
use crate::profile::Profile;
use crate::serializer::{
    group_extends, lemma_push_then_drop, spec_declarations, spec_element, spec_group, spec_optional_element,
    spec_qname, spec_restored, spec_root_written, spec_term_element, spec_wrapped, spec_wrapped_each, Serializer,
};
use crate::xml::{spec_end_tag, spec_start_tag};
use crate::term::Term;
use crate::text::{append_str, decimal_text, owned, push_char, spec_decimal};
use crate::ubl_write::{money, padded, spec_money, spec_padded};
use crate::values::Date;
use crate::vat::VatTreatment;

verus! {

broadcast use lemma_push_then_drop, group_extends;

/// A date as an ISO-8601 basic calendar date (`YYYYMMDD`), the CII form `102`: the year with
/// at least four characters, its sign included, and the month and the day with two digits.
pub open spec fn spec_basic_date(year: int, month: int, day: int) -> Seq<char> {
    let y = if year >= 0 {
        spec_padded(year as nat, 4)
    } else {
        seq!['-'] + spec_padded((-year) as nat, 3)
    };
    y + spec_padded(month as nat, 2) + spec_padded(day as nat, 2)
}

/// Renders a date as an ISO-8601 basic calendar date (`YYYYMMDD`), the CII form `102`.
pub fn basic_date(value: &Date) -> (r: String)
    ensures
        r@ == spec_basic_date(value@.year, value@.month, value@.day),
{
    let year = value.year();
    let mut r = if year >= 0 {
        padded(year as u32, 4)
    } else {
        let mut r = String::new();
        push_char(&mut r, '-');
        let magnitude: u32 = if year == i32::MIN { 2147483648u32 } else { (-year) as u32 };
        let digits = padded(magnitude, 3);
        append_str(&mut r, digits.as_str());
        r
    };
    let month = padded(value.month() as u32, 2);
    append_str(&mut r, month.as_str());
    let day = padded(value.day() as u32, 2);
    append_str(&mut r, day.as_str());
    r
}

/// No attributes.
fn none() -> (r: Vec<(String, String)>)
    ensures
        r@.len() == 0,
{
    Vec::new()
}

/// One attribute, as a pair of owned texts.
fn attribute(key: &str, value: &str) -> (r: Vec<(String, String)>)
    ensures
        r@.len() == 1,
        r@[0].0@ == key@,
        r@[0].1@ == value@,
{
    vec![(owned(key), owned(value))]
}

/// The `schemeID` attribute of an identifier, absent without its scheme.
fn scheme_attribute(scheme: &Option<crate::values::NonEmptyString>) -> (r: Vec<(String, String)>)
    ensures
        scheme is None ==> r@.len() == 0,
        scheme matches Some(s) ==> r@.len() == 1 && r@[0].0@ == "schemeID"@ && r@[0].1@ == s@,
{
    match scheme {
        Some(s) => attribute("schemeID", s.as_str()),
        None => Vec::new(),
    }
}

/// Writes the whole invoice under the CII root element, filling the dictionary and the
/// abbreviation table in the same pass. The profile stamps its `BT-24` identifier and
/// its forbidden terms are left out.
#[verifier::spinoff_prover]
#[verifier::rlimit(100)]
pub fn serialize(
    serializer: &mut Serializer<Namespace>,
    invoice: &Invoice,
    profile: Profile,
    business_process: &Option<String>,
)
    requires
        old(serializer).wf(),
        old(serializer).spec_abbreviations() == spec_default_entries::<Namespace>(),
    ensures
        final(serializer).wf(),
        final(serializer).spec_trace().spec_path() == old(serializer).spec_trace().spec_path(),
        final(serializer).spec_trace().spec_context() == old(serializer).spec_trace().spec_context(),
        final(serializer).spec_forbidden() == old(serializer).spec_forbidden(),
        spec_root_written::<Cii>(old(serializer).spec_xml(), final(serializer).spec_xml()),
        final(serializer).spec_xml() == old(serializer).spec_xml() + spec_cii_document(
            *invoice,
            profile,
            *business_process,
            old(serializer).spec_forbidden(),
        ),
        final(serializer).spec_trace().spec_dictionary().lookup(
            old(serializer).spec_trace().spec_path().push(crate::serializer::spec_root_step::<Cii>(old(serializer).spec_trace())),
        ) == Some(Seq::<crate::context::SegmentView>::empty()),
        forall|n: Namespace| #[trigger] spec_lookup(
            final(serializer).spec_abbreviations(),
            crate::namespace::Namespace::spec_prefix(n),
        ) == Some(n),
        forall|n: Namespace| #[trigger] spec_lookup(
            final(serializer).spec_abbreviations(),
            crate::namespace::Namespace::spec_abbreviation(n),
        ) == Some(n),
{
    let s = serializer;
    s.open_root::<Cii>();
    let ghost inside = *s;
    serialize_body(s, invoice, profile, business_process);
    assert(s.spec_trace().spec_path() == inside.spec_trace().spec_path());
    s.close_root::<Cii>();
    assert(s.spec_xml() =~= old(serializer).spec_xml() + spec_cii_document(
        *invoice,
        profile,
        *business_process,
        old(serializer).spec_forbidden(),
    ));
}

/// Writes what the root element holds: the head and the trade transaction.
#[verifier::spinoff_prover]
#[verifier::rlimit(100)]
fn serialize_body(s: &mut Serializer<Namespace>, invoice: &Invoice, profile: Profile, business_process: &Option<String>)
    requires
        old(s).wf(),
    ensures
        spec_restored(*old(s), *final(s)),
        final(s).spec_xml() == old(s).spec_xml() + spec_cii_body(*invoice, profile, *business_process, old(s).spec_forbidden()),
{
    exchanged_document_context(s, profile, business_process);
    exchanged_document(s, invoice);
    let ghost headed = s.spec_xml();
    assert(headed =~= old(s).spec_xml() + spec_cii_head(*invoice, profile, *business_process, old(s).spec_forbidden()));
    trade_transaction(s, invoice);
    proof {
        reveal(spec_cii_body);
    }
    assert(s.spec_xml() =~= old(s).spec_xml() + spec_cii_body(*invoice, profile, *business_process, old(s).spec_forbidden()));
}

/// Writes the trade transaction: the lines, then the header agreement, delivery and
/// settlement.
#[verifier::spinoff_prover]
#[verifier::rlimit(100)]
fn trade_transaction(s: &mut Serializer<Namespace>, invoice: &Invoice)
    requires
        old(s).wf(),
    ensures
        spec_restored(*old(s), *final(s)),
        final(s).spec_xml() == old(s).spec_xml() + spec_cii_transaction(*invoice, old(s).spec_forbidden()),
{
    s.open_structural(Namespace::Rsm, "SupplyChainTradeTransaction");
    let ghost opened = *s;
    transaction_front(s, invoice);
    transaction_back(s, invoice);
    assert(spec_restored(opened, *s));
    s.close_wrapper(Namespace::Rsm, "SupplyChainTradeTransaction");
    assert(s.spec_xml() =~= old(s).spec_xml() + spec_cii_transaction(*invoice, old(s).spec_forbidden()));
}

/// The whole document as written: the root start tag with the declarations of every namespace,
/// the body and the root end tag.
pub open spec fn spec_cii_document(invoice: Invoice, profile: Profile, business_process: Option<String>, forbidden: Seq<Term>) -> Seq<char> {
    spec_start_tag(
        spec_qname(Cii::spec_root_namespace(), Cii::spec_root_element()),
        spec_declarations(<Namespace as crate::namespace::Namespace>::spec_members()),
    ) + spec_cii_body(invoice, profile, business_process, forbidden) + spec_end_tag(
        spec_qname(Cii::spec_root_namespace(), Cii::spec_root_element()),
    )
}

/// What the root element holds as written: the head and the trade transaction. Its definition
/// is revealed where it is needed.
#[verifier::opaque]
pub open spec fn spec_cii_body(invoice: Invoice, profile: Profile, business_process: Option<String>, forbidden: Seq<Term>) -> Seq<char> {
    spec_cii_head(invoice, profile, business_process, forbidden) + spec_cii_transaction(invoice, forbidden)
}

/// The trade transaction as written: the lines, the header agreement, the header delivery and
/// the header settlement.
pub open spec fn spec_cii_transaction(invoice: Invoice, forbidden: Seq<Term>) -> Seq<char> {
    crate::serializer::spec_group(
        Namespace::Rsm,
        "SupplyChainTradeTransaction"@,
        spec_transaction_front(invoice, forbidden) + spec_transaction_back(invoice, forbidden),
    )
}

/// The lines and the header agreement as written.
pub open spec fn spec_transaction_front(invoice: Invoice, forbidden: Seq<Term>) -> Seq<char> {
    spec_cii_lines(invoice.lines@, forbidden) + spec_header_trade_agreement(invoice, forbidden)
}

/// The header delivery and the header settlement as written.
pub open spec fn spec_transaction_back(invoice: Invoice, forbidden: Seq<Term>) -> Seq<char> {
    spec_header_trade_delivery(invoice, forbidden) + spec_header_trade_settlement(invoice, forbidden)
}

/// Writes the lines and the header agreement.
#[verifier::spinoff_prover]
#[verifier::rlimit(100)]
fn transaction_front(s: &mut Serializer<Namespace>, invoice: &Invoice)
    requires
        old(s).wf(),
    ensures
        spec_restored(*old(s), *final(s)),
        final(s).spec_xml() == old(s).spec_xml() + spec_transaction_front(*invoice, old(s).spec_forbidden()),
{
    lines(s, &invoice.lines);
    header_trade_agreement(s, invoice);
    assert(s.spec_xml() =~= old(s).spec_xml() + spec_transaction_front(*invoice, old(s).spec_forbidden()));
}

/// Writes the header delivery and the header settlement.
#[verifier::spinoff_prover]
#[verifier::rlimit(100)]
fn transaction_back(s: &mut Serializer<Namespace>, invoice: &Invoice)
    requires
        old(s).wf(),
    ensures
        spec_restored(*old(s), *final(s)),
        final(s).spec_xml() == old(s).spec_xml() + spec_transaction_back(*invoice, old(s).spec_forbidden()),
{
    header_trade_delivery(s, invoice);
    header_trade_settlement(s, invoice);
    assert(s.spec_xml() =~= old(s).spec_xml() + spec_transaction_back(*invoice, old(s).spec_forbidden()));
}

/// The head of the invoice as written: the document context and the exchanged document with
/// its number, type code, issue date and notes.
pub open spec fn spec_cii_head(invoice: Invoice, profile: Profile, business_process: Option<String>, forbidden: Seq<Term>) -> Seq<char> {
    spec_document_context(profile, business_process) + crate::serializer::spec_group(
        Namespace::Rsm,
        "ExchangedDocument"@,
        spec_document_header(invoice, forbidden) + spec_included_notes(invoice.notes@, forbidden),
    )
}

/// Writes the document context: the business process (`BT-23`) and the profile (`BT-24`).
pub fn exchanged_document_context(
    s: &mut Serializer<Namespace>,
    profile: Profile,
    business_process: &Option<String>,
)
    requires
        old(s).wf(),
    ensures
        spec_restored(*old(s), *final(s)),
        spec_wrapped(old(s).spec_xml(), final(s).spec_xml(), Namespace::Rsm, "ExchangedDocumentContext"@),
        final(s).spec_xml() == old(s).spec_xml() + spec_document_context(profile, *business_process),
{
    s.open_structural(Namespace::Rsm, "ExchangedDocumentContext");
    let ghost opened = *s;
    if let Some(process) = business_process {
        context_parameter(s, "BusinessProcessSpecifiedDocumentContextParameter", process.as_str());
    }
    let ghost x1 = s.spec_xml();
    let id = profile.to_string();
    context_parameter(s, "GuidelineSpecifiedDocumentContextParameter", id.as_str());
    assert(spec_restored(opened, *s));
    s.close_wrapper(Namespace::Rsm, "ExchangedDocumentContext");
    assert(s.spec_xml() =~= old(s).spec_xml() + spec_document_context(profile, *business_process));
}

/// A document context parameter as written: its identifier in its wrapper.
pub open spec fn spec_context_parameter(wrapper: Seq<char>, id: Seq<char>) -> Seq<char> {
    crate::serializer::spec_group(
        Namespace::Ram,
        wrapper,
        crate::serializer::spec_element(Namespace::Ram, "ID"@, Seq::empty(), id),
    )
}

/// The document context as written: the business process (`BT-23`), when there is one, and
/// the specification identifier of the profile (`BT-24`).
pub open spec fn spec_document_context(profile: Profile, business_process: Option<String>) -> Seq<char> {
    crate::serializer::spec_group(
        Namespace::Rsm,
        "ExchangedDocumentContext"@,
        (match business_process {
            Some(p) => spec_context_parameter("BusinessProcessSpecifiedDocumentContextParameter"@, p@),
            None => Seq::empty(),
        }) + spec_context_parameter(
            "GuidelineSpecifiedDocumentContextParameter"@,
            crate::profile::spec_profile_id(profile),
        ),
    )
}

/// Writes one document context parameter, recorded at the root context.
#[verifier::spinoff_prover]
#[verifier::rlimit(100)]
fn context_parameter(s: &mut Serializer<Namespace>, wrapper: &str, id: &str)
    requires
        old(s).wf(),
    ensures
        spec_restored(*old(s), *final(s)),
        final(s).spec_xml() == old(s).spec_xml() + spec_context_parameter(wrapper@, id@),
{
    let none = none();
    assert(crate::token::spec_attributes(none@) =~= Seq::empty());
    s.open_structural(Namespace::Ram, wrapper);
    s.rooted(Namespace::Ram, "ID", &none, id);
    s.close_wrapper(Namespace::Ram, wrapper);
}

/// Writes the exchanged document header: the number, the type, the issue date and the notes.
/// The subject codes of the notes are dropped when the profile forbids them (`BT-21`).
#[verifier::spinoff_prover]
#[verifier::rlimit(100)]
pub fn exchanged_document(s: &mut Serializer<Namespace>, invoice: &Invoice)
    requires
        old(s).wf(),
    ensures
        spec_restored(*old(s), *final(s)),
        spec_wrapped(old(s).spec_xml(), final(s).spec_xml(), Namespace::Rsm, "ExchangedDocument"@),
        final(s).spec_xml() == old(s).spec_xml() + crate::serializer::spec_group(
            Namespace::Rsm,
            "ExchangedDocument"@,
            spec_document_header(*invoice, old(s).spec_forbidden()) + spec_included_notes(invoice.notes@, old(s).spec_forbidden()),
        ),
{
    s.open_structural(Namespace::Rsm, "ExchangedDocument");
    let ghost opened = *s;
    document_header(s, invoice);
    let ghost headed = s.spec_xml();
    let drop_subject = s.forbids(Term::BT(21));
    let notes = &invoice.notes;
    let mut i: usize = 0;
    while i < notes.len()
        invariant
            i <= notes@.len(),
            opened.wf(),
            spec_restored(opened, *s),
            opened.spec_forbidden() == old(s).spec_forbidden(),
            drop_subject == old(s).spec_forbidden().contains(Term::BT(21)),
            s.spec_xml() == headed + spec_included_notes(notes@.take(i as int), old(s).spec_forbidden()),
        decreases notes@.len() - i,
    {
        included_note(s, &notes[i], i + 1, drop_subject);
        proof {
            let done = notes@.take(i + 1);
            assert(done.drop_last() =~= notes@.take(i as int));
            assert(s.spec_xml() =~= headed + spec_included_notes(done, old(s).spec_forbidden()));
        }
        i = i + 1;
    }
    assert(notes@.take(i as int) =~= notes@);
    s.close_wrapper(Namespace::Rsm, "ExchangedDocument");
    assert(s.spec_xml() =~= old(s).spec_xml() + crate::serializer::spec_group(
        Namespace::Rsm,
        "ExchangedDocument"@,
        spec_document_header(*invoice, old(s).spec_forbidden()) + spec_included_notes(invoice.notes@, old(s).spec_forbidden()),
    ));
}

/// The number, type code and issue date of the document as written.
pub open spec fn spec_document_header(invoice: Invoice, forbidden: Seq<Term>) -> Seq<char> {
    crate::serializer::spec_term_element(
        forbidden,
        Term::BT(1),
        Namespace::Ram,
        "ID"@,
        Seq::empty(),
        crate::ubl_read::spec_texts(invoice.number),
    ) + crate::serializer::spec_term_element(
        forbidden,
        Term::BT(3),
        Namespace::Ram,
        "TypeCode"@,
        Seq::empty(),
        Some(spec_decimal(crate::invoice_type::spec_code(invoice.type_code))),
    ) + spec_datetime(forbidden, Term::BT(2), "IssueDateTime"@, invoice.issue_date)
}

/// One note as written (`BG-1`), absent where the profile forbids notes; its subject code is
/// dropped where the profile forbids that (`BT-21`).
pub open spec fn spec_included_note(note: Note, forbidden: Seq<Term>) -> Seq<char> {
    if forbidden.contains(Term::BG(1)) {
        Seq::empty()
    } else {
        crate::serializer::spec_group(
            Namespace::Ram,
            "IncludedNote"@,
            crate::serializer::spec_element(Namespace::Ram, "Content"@, Seq::empty(), note.text@) + match note.subject_code {
                Some(c) => if forbidden.contains(Term::BT(21)) {
                    Seq::empty()
                } else {
                    crate::serializer::spec_element(Namespace::Ram, "SubjectCode"@, Seq::empty(), c@)
                },
                None => Seq::empty(),
            },
        )
    }
}

/// The notes as written, one after the other.
pub open spec fn spec_included_notes(notes: Seq<Note>, forbidden: Seq<Term>) -> Seq<char>
    decreases notes.len(),
{
    if notes.len() == 0 {
        Seq::empty()
    } else {
        spec_included_notes(notes.drop_last(), forbidden) + spec_included_note(notes.last(), forbidden)
    }
}

/// Writes the number, the type code and the issue date of the document.
#[verifier::spinoff_prover]
#[verifier::rlimit(100)]
fn document_header(s: &mut Serializer<Namespace>, invoice: &Invoice)
    requires
        old(s).wf(),
    ensures
        spec_restored(*old(s), *final(s)),
        final(s).spec_xml() == old(s).spec_xml() + spec_document_header(*invoice, old(s).spec_forbidden()),
{
    if let Some(number) = &invoice.number {
        s.leaf(Namespace::Ram, "ID", "number", Term::BT(1), number.as_str());
    }
    let ghost x1 = s.spec_xml();
    let code = invoice.type_code.to_string();
    s.leaf(Namespace::Ram, "TypeCode", "type_code", Term::BT(3), code.as_str());
    let ghost x2 = s.spec_xml();
    if let Some(issued) = &invoice.issue_date {
        datetime(s, "IssueDateTime", "issue_date", Term::BT(2), issued);
    }
    assert(s.spec_xml() =~= old(s).spec_xml() + spec_document_header(*invoice, old(s).spec_forbidden()));
}

/// Writes one note (`BG-1`), unless the profile forbids notes.
#[verifier::spinoff_prover]
#[verifier::rlimit(100)]
fn included_note(s: &mut Serializer<Namespace>, note: &Note, instance: usize, drop_subject: bool)
    requires
        old(s).wf(),
        drop_subject == old(s).spec_forbidden().contains(Term::BT(21)),
    ensures
        spec_restored(*old(s), *final(s)),
        final(s).spec_xml() == old(s).spec_xml() + spec_included_note(*note, old(s).spec_forbidden()),
{
    let none = none();
    assert(crate::token::spec_attributes(none@) =~= Seq::empty());
    if s.open_repeatable(Namespace::Ram, "IncludedNote", "notes", Term::BG(1), instance) {
        s.derived(Namespace::Ram, "Content", &none, note.text.as_str());
        let ghost content = s.spec_xml();
        if let Some(code) = &note.subject_code {
            if !drop_subject {
                s.derived(Namespace::Ram, "SubjectCode", &none, code.as_str());
            }
        }
        s.close_group(Namespace::Ram, "IncludedNote");
        assert(s.spec_xml() =~= old(s).spec_xml() + spec_included_note(*note, old(s).spec_forbidden()));
    } else {
        assert(s.spec_xml() =~= old(s).spec_xml() + Seq::<char>::empty());
    }
}

/// Writes a date wrapper mapped to a field, whose value carrier is a `udt:DateTimeString`
/// of form `102`, unless the profile forbids its term.
#[verifier::spinoff_prover]
#[verifier::rlimit(100)]
pub fn datetime(s: &mut Serializer<Namespace>, element: &str, field: &'static str, term: Term, value: &Date)
    requires
        old(s).wf(),
    ensures
        spec_restored(*old(s), *final(s)),
        !old(s).spec_forbidden().contains(term) ==> spec_wrapped(old(s).spec_xml(), final(s).spec_xml(), Namespace::Ram, element@),
        old(s).spec_forbidden().contains(term) ==> *final(s) == *old(s),
        final(s).spec_xml() == old(s).spec_xml() + spec_datetime(old(s).spec_forbidden(), term, element@, Some(*value)),
{
    if s.open_group(Namespace::Ram, element, field, term) {
        let text = basic_date(value);
        let format = attribute("format", "102");
        assert(crate::token::spec_attributes(format@) =~= seq![("format"@, "102"@)]);
        s.write_element(Namespace::Udt, "DateTimeString", &format, text.as_str());
        s.close_group(Namespace::Ram, element);
        assert(s.spec_xml() =~= old(s).spec_xml() + spec_datetime(old(s).spec_forbidden(), term, element@, Some(*value)));
    } else {
        assert(s.spec_xml() =~= old(s).spec_xml() + Seq::<char>::empty());
    }
}

/// A date wrapper as written, around its `udt:DateTimeString` of form `102`, when there is a
/// date and the profile allows its term.
pub open spec fn spec_datetime(forbidden: Seq<Term>, term: Term, element: Seq<char>, value: Option<Date>) -> Seq<char> {
    match value {
        Some(d) => if forbidden.contains(term) {
            Seq::empty()
        } else {
            crate::serializer::spec_group(
                Namespace::Ram,
                element,
                crate::serializer::spec_element(
                    Namespace::Udt,
                    "DateTimeString"@,
                    seq![("format"@, "102"@)],
                    spec_basic_date(d@.year, d@.month, d@.day),
                ),
            )
        },
        None => Seq::empty(),
    }
}

/// Writes a charge indicator whose value carrier is a `udt:Indicator`.
#[verifier::spinoff_prover]
#[verifier::rlimit(100)]
pub fn indicator(s: &mut Serializer<Namespace>, charge: bool)
    requires
        old(s).wf(),
    ensures
        spec_restored(*old(s), *final(s)),
        spec_wrapped(old(s).spec_xml(), final(s).spec_xml(), Namespace::Ram, "ChargeIndicator"@),
        final(s).spec_xml() == old(s).spec_xml() + spec_indicator(charge),
{
    let none = none();
    assert(crate::token::spec_attributes(none@) =~= Seq::empty());
    s.open_nested(Namespace::Ram, "ChargeIndicator");
    s.write_element(Namespace::Udt, "Indicator", &none, if charge { "true" } else { "false" });
    s.close_wrapper(Namespace::Ram, "ChargeIndicator");
    assert(s.spec_xml() =~= old(s).spec_xml() + spec_indicator(charge));
}

/// A charge indicator as written, around its `udt:Indicator`.
pub open spec fn spec_indicator(charge: bool) -> Seq<char> {
    spec_group(
        Namespace::Ram,
        "ChargeIndicator"@,
        spec_element(Namespace::Udt, "Indicator"@, Seq::empty(), if charge { "true"@ } else { "false"@ }),
    )
}

/// Writes the invoice lines (`BG-25`), each a repeatable-group instance.
#[verifier::spinoff_prover]
#[verifier::rlimit(100)]
pub fn lines(s: &mut Serializer<Namespace>, lines: &Vec<InvoiceLine>)
    requires
        old(s).wf(),
    ensures
        spec_restored(*old(s), *final(s)),
        spec_wrapped_each(
            old(s).spec_xml(),
            final(s).spec_xml(),
            Namespace::Ram,
            "IncludedSupplyChainTradeLineItem"@,
            if old(s).spec_forbidden().contains(Term::BG(25)) { 0 } else { lines@.len() },
        ),
        final(s).spec_xml() == old(s).spec_xml() + spec_cii_lines(lines@, old(s).spec_forbidden()),
{
    let mut i: usize = 0;
    while i < lines.len()
        invariant
            i <= lines@.len(),
            old(s).wf(),
            spec_restored(*old(s), *s),
            spec_wrapped_each(old(s).spec_xml(), s.spec_xml(), Namespace::Ram, "IncludedSupplyChainTradeLineItem"@, if old(s).spec_forbidden().contains(Term::BG(25)) { 0 } else { i as nat }),
            s.spec_xml() == old(s).spec_xml() + spec_cii_lines(lines@.take(i as int), old(s).spec_forbidden()),
        decreases lines@.len() - i,
    {
        let ghost previous = s.spec_xml();
        line_item(s, &lines[i], i + 1);
        proof {
            if !old(s).spec_forbidden().contains(Term::BG(25)) {
                assert(spec_wrapped(previous, s.spec_xml(), Namespace::Ram, "IncludedSupplyChainTradeLineItem"@));
            }
            let done = lines@.take(i + 1);
            assert(done.drop_last() =~= lines@.take(i as int));
            assert(s.spec_xml() =~= old(s).spec_xml() + spec_cii_lines(done, old(s).spec_forbidden()));
        }
        i = i + 1;
    }
    assert(lines@.take(i as int) =~= lines@);
}

/// The lines of the invoice as written (`BG-25`), none where the profile forbids them.
pub open spec fn spec_cii_lines(lines: Seq<InvoiceLine>, forbidden: Seq<Term>) -> Seq<char>
    decreases lines.len(),
{
    if lines.len() == 0 || forbidden.contains(Term::BG(25)) {
        Seq::empty()
    } else {
        spec_cii_lines(lines.drop_last(), forbidden) + spec_group(
            Namespace::Ram,
            "IncludedSupplyChainTradeLineItem"@,
            spec_cii_line(lines.last(), forbidden),
        )
    }
}

/// Writes one line item (`BG-25`), unless the profile forbids lines.
#[verifier::spinoff_prover]
#[verifier::rlimit(100)]
fn line_item(s: &mut Serializer<Namespace>, line_value: &InvoiceLine, instance: usize)
    requires
        old(s).wf(),
    ensures
        spec_restored(*old(s), *final(s)),
        !old(s).spec_forbidden().contains(Term::BG(25)) ==> spec_wrapped(old(s).spec_xml(), final(s).spec_xml(), Namespace::Ram, "IncludedSupplyChainTradeLineItem"@),
        old(s).spec_forbidden().contains(Term::BG(25)) ==> *final(s) == *old(s),
        !old(s).spec_forbidden().contains(Term::BG(25)) ==> final(s).spec_xml() == old(s).spec_xml() + spec_group(
            Namespace::Ram,
            "IncludedSupplyChainTradeLineItem"@,
            spec_cii_line(*line_value, old(s).spec_forbidden()),
        ),
{
    if s.open_repeatable(Namespace::Ram, "IncludedSupplyChainTradeLineItem", "lines", Term::BG(25), instance) {
        line(s, line_value);
        s.close_group(Namespace::Ram, "IncludedSupplyChainTradeLineItem");
        assert(spec_wrapped(old(s).spec_xml(), s.spec_xml(), Namespace::Ram, "IncludedSupplyChainTradeLineItem"@));
    }
}

/// Writes one invoice line body.
#[verifier::spinoff_prover]
#[verifier::rlimit(100)]
pub fn line(s: &mut Serializer<Namespace>, line: &InvoiceLine)
    requires
        old(s).wf(),
    ensures
        spec_restored(*old(s), *final(s)),
        final(s).spec_xml() == old(s).spec_xml() + spec_cii_line(*line, old(s).spec_forbidden()),
{
    line_document(s, line);
    let ghost document = s.spec_xml();
    if let Some(item) = &line.item {
        line_product(s, item);
    }
    let ghost product = s.spec_xml();
    line_agreement(s, line);
    line_delivery(s, line);
    line_settlement(s, line);
    assert(s.spec_xml() =~= old(s).spec_xml() + spec_cii_line(*line, old(s).spec_forbidden()));
}

/// The associated document of a line as written: its identifier and its note.
pub open spec fn spec_cii_line_document(line: InvoiceLine, forbidden: Seq<Term>) -> Seq<char> {
    spec_group(
        Namespace::Ram,
        "AssociatedDocumentLineDocument"@,
        spec_term_element(forbidden, Term::BT(126), Namespace::Ram, "LineID"@, Seq::empty(), crate::ubl_read::spec_texts(line.id))
            + match line.note {
            Some(n) => if forbidden.contains(Term::BT(127)) {
                Seq::empty()
            } else {
                spec_group(Namespace::Ram, "IncludedNote"@, spec_element(Namespace::Ram, "Content"@, Seq::empty(), n@))
            },
            None => Seq::empty(),
        },
    )
}

/// The line trade delivery as written: the billed quantity (`BT-129`/`BT-130`).
pub open spec fn spec_cii_line_delivery(line: InvoiceLine, forbidden: Seq<Term>) -> Seq<char> {
    spec_group(
        Namespace::Ram,
        "SpecifiedLineTradeDelivery"@,
        spec_term_element(
            forbidden,
            Term::BT(129),
            Namespace::Ram,
            "BilledQuantity"@,
            match line.quantity {
                Some(q) => seq![("unitCode"@, q.unit@)],
                None => Seq::empty(),
            },
            match line.quantity {
                Some(q) => Some(crate::decimal::spec_decimal_text(q.value@)),
                None => None,
            },
        ),
    )
}

/// One line as written: its document, its product, its agreement, its delivery and its
/// settlement.
pub open spec fn spec_cii_line(line: InvoiceLine, forbidden: Seq<Term>) -> Seq<char> {
    spec_cii_line_document(line, forbidden) + (match line.item {
        Some(i) => spec_group(Namespace::Ram, "SpecifiedTradeProduct"@, spec_product_body(i)),
        None => Seq::empty(),
    }) + spec_cii_line_agreement(line, forbidden) + spec_cii_line_delivery(line, forbidden) + spec_cii_line_settlement(
        line,
        forbidden,
    )
}

/// Writes the associated document of a line: its identifier and its note.
#[verifier::spinoff_prover]
#[verifier::rlimit(100)]
fn line_document(s: &mut Serializer<Namespace>, line: &InvoiceLine)
    requires
        old(s).wf(),
    ensures
        spec_restored(*old(s), *final(s)),
        final(s).spec_xml() == old(s).spec_xml() + spec_cii_line_document(*line, old(s).spec_forbidden()),
{
    let none = none();
    assert(crate::token::spec_attributes(none@) =~= Seq::empty());
    s.open_structural(Namespace::Ram, "AssociatedDocumentLineDocument");
    let ghost opened = *s;
    if let Some(id) = &line.id {
        s.leaf(Namespace::Ram, "LineID", "id", Term::BT(126), id.as_str());
    }
    let ghost x1 = s.spec_xml();
    if let Some(note) = &line.note {
        if s.open_group(Namespace::Ram, "IncludedNote", "note", Term::BT(127)) {
            s.derived(Namespace::Ram, "Content", &none, note.as_str());
            s.close_group(Namespace::Ram, "IncludedNote");
        }
    }
    assert(spec_restored(opened, *s));
    s.close_wrapper(Namespace::Ram, "AssociatedDocumentLineDocument");
    assert(s.spec_xml() =~= old(s).spec_xml() + spec_cii_line_document(*line, old(s).spec_forbidden()));
}

/// Writes the line trade delivery: the billed quantity.
#[verifier::spinoff_prover]
#[verifier::rlimit(100)]
fn line_delivery(s: &mut Serializer<Namespace>, line: &InvoiceLine)
    requires
        old(s).wf(),
    ensures
        spec_restored(*old(s), *final(s)),
        final(s).spec_xml() == old(s).spec_xml() + spec_cii_line_delivery(*line, old(s).spec_forbidden()),
{
    s.open_structural(Namespace::Ram, "SpecifiedLineTradeDelivery");
    let ghost opened = *s;
    if let Some(quantity) = &line.quantity {
        let attributes = attribute("unitCode", quantity.unit.code());
        assert(crate::token::spec_attributes(attributes@) =~= seq![("unitCode"@, quantity.unit@)]);
        let value = quantity.value.to_string();
        s.leaf_attr(Namespace::Ram, "BilledQuantity", "quantity", Term::BT(129), &attributes, value.as_str());
    }
    assert(spec_restored(opened, *s));
    s.close_wrapper(Namespace::Ram, "SpecifiedLineTradeDelivery");
    assert(s.spec_xml() =~= old(s).spec_xml() + spec_cii_line_delivery(*line, old(s).spec_forbidden()));
}

/// Writes the line product (`BG-31`), mapped to the item of the line.
#[verifier::spinoff_prover]
#[verifier::rlimit(100)]
pub fn line_product(s: &mut Serializer<Namespace>, item: &Item)
    requires
        old(s).wf(),
    ensures
        spec_restored(*old(s), *final(s)),
        spec_wrapped(old(s).spec_xml(), final(s).spec_xml(), Namespace::Ram, "SpecifiedTradeProduct"@),
        final(s).spec_xml() == old(s).spec_xml() + crate::serializer::spec_group(
            Namespace::Ram,
            "SpecifiedTradeProduct"@,
            spec_product_body(*item),
        ),
{
    s.open_field_group(Namespace::Ram, "SpecifiedTradeProduct", "item");
    let ghost opened = *s;
    product_ids(s, item);
    let ghost named = s.spec_xml();
    let attributes = &item.attributes;
    let mut i: usize = 0;
    while i < attributes.len()
        invariant
            i <= attributes@.len(),
            opened.wf(),
            spec_restored(opened, *s),
            s.spec_xml() == named + spec_characteristics(attributes@.take(i as int)),
        decreases attributes@.len() - i,
    {
        product_characteristic(s, &attributes[i]);
        proof {
            let done = attributes@.take(i + 1);
            assert(done.drop_last() =~= attributes@.take(i as int));
            assert(s.spec_xml() =~= named + spec_characteristics(done));
        }
        i = i + 1;
    }
    assert(attributes@.take(i as int) =~= attributes@);
    let ghost characterized = s.spec_xml();
    let classifications = &item.classifications;
    let mut j: usize = 0;
    while j < classifications.len()
        invariant
            j <= classifications@.len(),
            opened.wf(),
            spec_restored(opened, *s),
            s.spec_xml() == characterized + spec_product_classifications(classifications@.take(j as int)),
        decreases classifications@.len() - j,
    {
        product_classification(s, &classifications[j]);
        proof {
            let done = classifications@.take(j + 1);
            assert(done.drop_last() =~= classifications@.take(j as int));
            assert(s.spec_xml() =~= characterized + spec_product_classifications(done));
        }
        j = j + 1;
    }
    assert(classifications@.take(j as int) =~= classifications@);
    let ghost classified = s.spec_xml();
    if let Some(country) = &item.country_of_origin {
        origin_country(s, country);
    }
    assert(spec_restored(opened, *s));
    s.close_group(Namespace::Ram, "SpecifiedTradeProduct");
    assert(s.spec_xml() =~= old(s).spec_xml() + crate::serializer::spec_group(
        Namespace::Ram,
        "SpecifiedTradeProduct"@,
        spec_product_body(*item),
    ));
}

/// The identifiers, name and description of a product as written.
pub open spec fn spec_product_ids(item: Item) -> Seq<char> {
    (match item.standard_id {
        Some(standard) => crate::serializer::spec_element(
            Namespace::Ram,
            "GlobalID"@,
            seq![("schemeID"@, standard.issuer@)],
            standard.id@,
        ),
        None => Seq::empty(),
    }) + crate::serializer::spec_optional_element(Namespace::Ram, "SellerAssignedID"@, item.seller_id)
        + crate::serializer::spec_optional_element(Namespace::Ram, "BuyerAssignedID"@, item.buyer_id)
        + crate::serializer::spec_optional_element(Namespace::Ram, "Name"@, item.name)
        + crate::serializer::spec_optional_element(Namespace::Ram, "Description"@, item.description)
}

/// One product characteristic as written (`BG-32`).
pub open spec fn spec_characteristic(attribute: crate::model::ItemAttribute) -> Seq<char> {
    crate::serializer::spec_group(
        Namespace::Ram,
        "ApplicableProductCharacteristic"@,
        crate::serializer::spec_element(Namespace::Ram, "Description"@, Seq::empty(), attribute.name@)
            + crate::serializer::spec_element(Namespace::Ram, "Value"@, Seq::empty(), attribute.value@),
    )
}

/// The product characteristics as written, one after the other.
pub open spec fn spec_characteristics(attributes: Seq<crate::model::ItemAttribute>) -> Seq<char>
    decreases attributes.len(),
{
    if attributes.len() == 0 {
        Seq::empty()
    } else {
        spec_characteristics(attributes.drop_last()) + spec_characteristic(attributes.last())
    }
}

/// One product classification as written (`BT-158`).
pub open spec fn spec_product_classification(classification: crate::model::Classification) -> Seq<char> {
    crate::serializer::spec_group(
        Namespace::Ram,
        "DesignatedProductClassification"@,
        match classification.id {
            Some(id) => crate::serializer::spec_element(
                Namespace::Ram,
                "ClassCode"@,
                crate::ubl_write::spec_classification_attributes(classification),
                id@,
            ),
            None => Seq::empty(),
        },
    )
}

/// The product classifications as written, one after the other.
pub open spec fn spec_product_classifications(classifications: Seq<crate::model::Classification>) -> Seq<char>
    decreases classifications.len(),
{
    if classifications.len() == 0 {
        Seq::empty()
    } else {
        spec_product_classifications(classifications.drop_last()) + spec_product_classification(classifications.last())
    }
}

/// What the product of a line holds as written: its identifiers, name and description, its
/// characteristics, its classifications and its country of origin.
pub open spec fn spec_product_body(item: Item) -> Seq<char> {
    spec_product_ids(item) + spec_characteristics(item.attributes@) + spec_product_classifications(item.classifications@)
        + match item.country_of_origin {
        Some(country) => crate::serializer::spec_group(
            Namespace::Ram,
            "OriginTradeCountry"@,
            crate::serializer::spec_element(Namespace::Ram, "ID"@, Seq::empty(), country@),
        ),
        None => Seq::empty(),
    }
}

/// Writes the identifiers, name and description of a product.
#[verifier::spinoff_prover]
#[verifier::rlimit(100)]
fn product_ids(s: &mut Serializer<Namespace>, item: &Item)
    requires
        old(s).wf(),
    ensures
        spec_restored(*old(s), *final(s)),
        final(s).spec_xml() == old(s).spec_xml() + spec_product_ids(*item),
{
    if let Some(standard) = &item.standard_id {
        let attributes = attribute("schemeID", standard.issuer.as_str());
        assert(crate::token::spec_attributes(attributes@) =~= seq![("schemeID"@, standard.issuer@)]);
        s.write_field_leaf(Namespace::Ram, "GlobalID", "standard_id", &attributes, standard.id.as_str());
    }
    let ghost x1 = s.spec_xml();
    if let Some(id) = &item.seller_id {
        s.field_leaf(Namespace::Ram, "SellerAssignedID", "seller_id", id.as_str());
    }
    let ghost x2 = s.spec_xml();
    if let Some(id) = &item.buyer_id {
        s.field_leaf(Namespace::Ram, "BuyerAssignedID", "buyer_id", id.as_str());
    }
    let ghost x3 = s.spec_xml();
    if let Some(name) = &item.name {
        s.field_leaf(Namespace::Ram, "Name", "name", name.as_str());
    }
    let ghost x4 = s.spec_xml();
    if let Some(description) = &item.description {
        s.field_leaf(Namespace::Ram, "Description", "description", description.as_str());
    }
    assert(s.spec_xml() =~= old(s).spec_xml() + spec_product_ids(*item));
}

/// Writes one product characteristic (`BG-32`).
#[verifier::spinoff_prover]
#[verifier::rlimit(100)]
fn product_characteristic(s: &mut Serializer<Namespace>, attribute: &crate::model::ItemAttribute)
    requires
        old(s).wf(),
    ensures
        spec_restored(*old(s), *final(s)),
        final(s).spec_xml() == old(s).spec_xml() + spec_characteristic(*attribute),
{
    s.open_structural(Namespace::Ram, "ApplicableProductCharacteristic");
    let ghost opened = *s;
    s.field_leaf(Namespace::Ram, "Description", "attributes", attribute.name.as_str());
    s.field_leaf(Namespace::Ram, "Value", "attributes", attribute.value.as_str());
    assert(spec_restored(opened, *s));
    s.close_wrapper(Namespace::Ram, "ApplicableProductCharacteristic");
    assert(s.spec_xml() =~= old(s).spec_xml() + spec_characteristic(*attribute));
}

/// Writes one product classification (`BT-158`).
#[verifier::spinoff_prover]
#[verifier::rlimit(100)]
fn product_classification(s: &mut Serializer<Namespace>, classification: &crate::model::Classification)
    requires
        old(s).wf(),
    ensures
        spec_restored(*old(s), *final(s)),
        final(s).spec_xml() == old(s).spec_xml() + spec_product_classification(*classification),
{
    s.open_structural(Namespace::Ram, "DesignatedProductClassification");
    let ghost opened = *s;
    if let Some(id) = &classification.id {
        let mut list: Vec<(String, String)> = Vec::new();
        if let Some(scheme) = &classification.scheme {
            list.push((owned("listID"), scheme.to_string()));
        }
        if let Some(version) = &classification.version {
            list.push((owned("listVersionID"), version.to_string()));
        }
        assert(crate::token::spec_attributes(list@) =~= crate::ubl_write::spec_classification_attributes(*classification));
        s.write_field_leaf(Namespace::Ram, "ClassCode", "classifications", &list, id.as_str());
    }
    assert(spec_restored(opened, *s));
    s.close_wrapper(Namespace::Ram, "DesignatedProductClassification");
    assert(s.spec_xml() =~= old(s).spec_xml() + spec_product_classification(*classification));
}

/// Writes the country of origin of a product (`BT-159`).
#[verifier::spinoff_prover]
#[verifier::rlimit(100)]
fn origin_country(s: &mut Serializer<Namespace>, country: &crate::values::CountryCode)
    requires
        old(s).wf(),
    ensures
        spec_restored(*old(s), *final(s)),
        final(s).spec_xml() == old(s).spec_xml() + crate::serializer::spec_group(
            Namespace::Ram,
            "OriginTradeCountry"@,
            crate::serializer::spec_element(Namespace::Ram, "ID"@, Seq::empty(), country@),
        ),
{
    s.open_structural(Namespace::Ram, "OriginTradeCountry");
    s.field_leaf(Namespace::Ram, "ID", "country_of_origin", country.alpha2());
    s.close_wrapper(Namespace::Ram, "OriginTradeCountry");
}

/// Writes the line trade agreement: the order line reference (`BT-132`) and the prices.
#[verifier::spinoff_prover]
#[verifier::rlimit(100)]
pub fn line_agreement(s: &mut Serializer<Namespace>, line: &InvoiceLine)
    requires
        old(s).wf(),
    ensures
        spec_restored(*old(s), *final(s)),
        spec_wrapped(old(s).spec_xml(), final(s).spec_xml(), Namespace::Ram, "SpecifiedLineTradeAgreement"@),
        final(s).spec_xml() == old(s).spec_xml() + spec_cii_line_agreement(*line, old(s).spec_forbidden()),
{
    s.open_structural(Namespace::Ram, "SpecifiedLineTradeAgreement");
    let ghost opened = *s;
    if let Some(order) = &line.order_line_reference {
        buyer_order_line(s, order);
    }
    let ghost x1 = s.spec_xml();
    if let Some(price) = &line.price {
        line_price(s, price);
    }
    assert(spec_restored(opened, *s));
    s.close_wrapper(Namespace::Ram, "SpecifiedLineTradeAgreement");
    assert(s.spec_xml() =~= old(s).spec_xml() + spec_cii_line_agreement(*line, old(s).spec_forbidden()));
}

/// Writes the referenced purchase order line (`BT-132`) in its referenced document.
#[verifier::spinoff_prover]
#[verifier::rlimit(100)]
fn buyer_order_line(s: &mut Serializer<Namespace>, order: &crate::values::NonEmptyString)
    requires
        old(s).wf(),
    ensures
        spec_restored(*old(s), *final(s)),
        final(s).spec_xml() == old(s).spec_xml() + spec_group(
            Namespace::Ram,
            "BuyerOrderReferencedDocument"@,
            spec_term_element(old(s).spec_forbidden(), Term::BT(132), Namespace::Ram, "LineID"@, Seq::empty(), Some(order@)),
        ),
{
    s.open_structural(Namespace::Ram, "BuyerOrderReferencedDocument");
    let ghost inner = *s;
    s.leaf(Namespace::Ram, "LineID", "order_line_reference", Term::BT(132), order.as_str());
    assert(spec_restored(inner, *s));
    s.close_wrapper(Namespace::Ram, "BuyerOrderReferencedDocument");
}

/// The line trade agreement as written: the order line reference and the prices.
pub open spec fn spec_cii_line_agreement(line: InvoiceLine, forbidden: Seq<Term>) -> Seq<char> {
    spec_group(
        Namespace::Ram,
        "SpecifiedLineTradeAgreement"@,
        (match line.order_line_reference {
            Some(o) => spec_group(
                Namespace::Ram,
                "BuyerOrderReferencedDocument"@,
                spec_term_element(forbidden, Term::BT(132), Namespace::Ram, "LineID"@, Seq::empty(), Some(o@)),
            ),
            None => Seq::empty(),
        }) + match line.price {
            Some(p) => spec_cii_line_price(p, forbidden),
            None => Seq::empty(),
        },
    )
}

/// The base quantity of a price as written, when it has one.
pub open spec fn spec_basis_quantity(price: Price) -> Seq<char> {
    match price.base_quantity {
        Some(b) => spec_element(
            Namespace::Ram,
            "BasisQuantity"@,
            seq![("unitCode"@, b.unit@)],
            crate::decimal::spec_decimal_text(b.value@),
        ),
        None => Seq::empty(),
    }
}

/// The gross price group as written, with the discount it carries, when there is a discount.
pub open spec fn spec_gross_price(price: Price) -> Seq<char> {
    match price.discount {
        Some(d) => spec_group(
            Namespace::Ram,
            "GrossPriceProductTradePrice"@,
            spec_element(Namespace::Ram, "ChargeAmount"@, Seq::empty(), crate::decimal::spec_decimal_text(price.gross@))
                + spec_basis_quantity(price) + spec_group(
                Namespace::Ram,
                "AppliedTradeAllowanceCharge"@,
                spec_indicator(false) + spec_element(Namespace::Ram, "ActualAmount"@, Seq::empty(), crate::decimal::spec_decimal_text(d@)),
            ),
        ),
        None => Seq::empty(),
    }
}

/// The net price group as written: the net price, when it can be computed and the profile
/// allows it, and the base quantity.
pub open spec fn spec_net_price(price: Price, forbidden: Seq<Term>) -> Seq<char> {
    spec_group(
        Namespace::Ram,
        "NetPriceProductTradePrice"@,
        spec_term_element(
            forbidden,
            Term::BT(146),
            Namespace::Ram,
            "ChargeAmount"@,
            Seq::empty(),
            if crate::pricing::spec_net_fits(price) {
                Some(crate::decimal::spec_decimal_text(crate::pricing::spec_net(price)))
            } else {
                None
            },
        ) + spec_basis_quantity(price),
    )
}

/// The prices of a line as written: the gross price with its discount, then the net price.
pub open spec fn spec_cii_line_price(price: Price, forbidden: Seq<Term>) -> Seq<char> {
    spec_gross_price(price) + spec_net_price(price, forbidden)
}

/// Writes the gross and net prices of a line (`BG-29`), every price with its own scale.
/// The gross price group, which carries the discount, is absent without a discount: the
/// gross price is then the net price.
#[verifier::spinoff_prover]
#[verifier::rlimit(100)]
pub fn line_price(s: &mut Serializer<Namespace>, price: &Price)
    requires
        old(s).wf(),
    ensures
        spec_restored(*old(s), *final(s)),
        final(s).spec_xml() == old(s).spec_xml() + spec_cii_line_price(*price, old(s).spec_forbidden()),
{
    if let Some(discount) = &price.discount {
        gross_price(s, price, discount);
    }
    let ghost gross_written = s.spec_xml();
    net_price(s, price);
    assert(s.spec_xml() =~= old(s).spec_xml() + spec_cii_line_price(*price, old(s).spec_forbidden()));
}

/// Writes the base quantity of a price, when it has one.
#[verifier::spinoff_prover]
#[verifier::rlimit(100)]
fn basis_quantity(s: &mut Serializer<Namespace>, price: &Price)
    requires
        old(s).wf(),
    ensures
        spec_restored(*old(s), *final(s)),
        final(s).spec_xml() == old(s).spec_xml() + spec_basis_quantity(*price),
{
    if let Some(base) = &price.base_quantity {
        let attributes = attribute("unitCode", base.unit.code());
        assert(crate::token::spec_attributes(attributes@) =~= seq![("unitCode"@, base.unit@)]);
        let value = base.value.to_string();
        s.derived(Namespace::Ram, "BasisQuantity", &attributes, value.as_str());
    }
    assert(s.spec_xml() =~= old(s).spec_xml() + spec_basis_quantity(*price));
}

/// Writes the gross price group with the discount it carries.
#[verifier::spinoff_prover]
#[verifier::rlimit(100)]
fn gross_price(s: &mut Serializer<Namespace>, price: &Price, discount: &Decimal)
    requires
        old(s).wf(),
        price.discount == Some(*discount),
    ensures
        spec_restored(*old(s), *final(s)),
        final(s).spec_xml() == old(s).spec_xml() + spec_gross_price(*price),
{
    let none = none();
    assert(crate::token::spec_attributes(none@) =~= Seq::empty());
    s.open_field_group(Namespace::Ram, "GrossPriceProductTradePrice", "price");
    let ghost opened = s.spec_xml();
    let gross = price.gross.to_string();
    s.derived(Namespace::Ram, "ChargeAmount", &none, gross.as_str());
    basis_quantity(s, price);
    let ghost based = s.spec_xml();
    s.open_nested(Namespace::Ram, "AppliedTradeAllowanceCharge");
    let ghost inner = *s;
    indicator(s, false);
    let amount = discount.to_string();
    s.derived(Namespace::Ram, "ActualAmount", &none, amount.as_str());
    assert(spec_restored(inner, *s));
    s.close_wrapper(Namespace::Ram, "AppliedTradeAllowanceCharge");
    s.close_group(Namespace::Ram, "GrossPriceProductTradePrice");
    assert(s.spec_xml() =~= old(s).spec_xml() + spec_gross_price(*price));
}

/// Writes the net price group: the net price, when it can be computed, and the base quantity.
#[verifier::spinoff_prover]
#[verifier::rlimit(100)]
fn net_price(s: &mut Serializer<Namespace>, price: &Price)
    requires
        old(s).wf(),
    ensures
        spec_restored(*old(s), *final(s)),
        final(s).spec_xml() == old(s).spec_xml() + spec_net_price(*price, old(s).spec_forbidden()),
{
    s.open_field_group(Namespace::Ram, "NetPriceProductTradePrice", "price");
    let ghost opened = s.spec_xml();
    let discount = match &price.discount {
        Some(d) => *d,
        None => Decimal::zero(),
    };
    if let Some(net) = price.gross.checked_sub(&discount) {
        let value = net.to_string();
        s.leaf(Namespace::Ram, "ChargeAmount", "net", Term::BT(146), value.as_str());
    }
    let ghost charged = s.spec_xml();
    basis_quantity(s, price);
    s.close_group(Namespace::Ram, "NetPriceProductTradePrice");
    assert(s.spec_xml() =~= old(s).spec_xml() + spec_net_price(*price, old(s).spec_forbidden()));
}

/// Writes the line trade settlement: the VAT, the period, the adjustments, the net amount,
/// the object identifier and the accounting reference of the line.
#[verifier::spinoff_prover]
#[verifier::rlimit(100)]
pub fn line_settlement(s: &mut Serializer<Namespace>, line: &InvoiceLine)
    requires
        old(s).wf(),
    ensures
        spec_restored(*old(s), *final(s)),
        spec_wrapped(old(s).spec_xml(), final(s).spec_xml(), Namespace::Ram, "SpecifiedLineTradeSettlement"@),
        final(s).spec_xml() == old(s).spec_xml() + spec_cii_line_settlement(*line, old(s).spec_forbidden()),
{
    s.open_structural(Namespace::Ram, "SpecifiedLineTradeSettlement");
    let ghost opened = *s;
    settlement_head(s, line);
    line_adjustments(s, &line.adjustments);
    settlement_tail(s, line);
    assert(spec_restored(opened, *s));
    s.close_wrapper(Namespace::Ram, "SpecifiedLineTradeSettlement");
    assert(s.spec_xml() =~= old(s).spec_xml() + spec_cii_line_settlement(*line, old(s).spec_forbidden()));
}

/// The VAT and the period of a line as written.
pub open spec fn spec_cii_settlement_head(line: InvoiceLine, forbidden: Seq<Term>) -> Seq<char> {
    (match line.vat {
        Some(v) => spec_line_tax(v),
        None => Seq::empty(),
    }) + match line.period {
        Some(p) => spec_billing_period(p, Term::BG(26), forbidden),
        None => Seq::empty(),
    }
}

/// The net amount, the object identifier and the accounting reference of a line as written.
pub open spec fn spec_cii_settlement_tail(line: InvoiceLine, forbidden: Seq<Term>) -> Seq<char> {
    (match line.net_amount {
        Some(n) => spec_group(
            Namespace::Ram,
            "SpecifiedTradeSettlementLineMonetarySummation"@,
            spec_term_element(forbidden, Term::BT(131), Namespace::Ram, "LineTotalAmount"@, Seq::empty(), Some(spec_money(n@))),
        ),
        None => Seq::empty(),
    }) + (match line.object {
        Some(o) => spec_referenced_document(
            o.id@,
            "130"@,
            spec_optional_element(Namespace::Ram, "ReferenceTypeCode"@, o.scheme),
        ),
        None => Seq::empty(),
    }) + match line.buyer_accounting_reference {
        Some(r) => spec_accounting_account(r@),
        None => Seq::empty(),
    }
}

/// The line trade settlement as written: the VAT, the period, the adjustments, the net amount,
/// the object identifier and the accounting reference.
pub open spec fn spec_cii_line_settlement(line: InvoiceLine, forbidden: Seq<Term>) -> Seq<char> {
    spec_group(
        Namespace::Ram,
        "SpecifiedLineTradeSettlement"@,
        spec_cii_settlement_head(line, forbidden) + spec_cii_line_adjustments(line.adjustments@, forbidden)
            + spec_cii_settlement_tail(line, forbidden),
    )
}

/// Writes the VAT and the period of a line.
#[verifier::spinoff_prover]
#[verifier::rlimit(100)]
fn settlement_head(s: &mut Serializer<Namespace>, line: &InvoiceLine)
    requires
        old(s).wf(),
    ensures
        spec_restored(*old(s), *final(s)),
        final(s).spec_xml() == old(s).spec_xml() + spec_cii_settlement_head(*line, old(s).spec_forbidden()),
{
    if let Some(vat) = &line.vat {
        line_tax(s, vat);
    }
    let ghost x1 = s.spec_xml();
    if let Some(period) = &line.period {
        billing_period(s, period, "period", Term::BG(26));
    }
    assert(s.spec_xml() =~= old(s).spec_xml() + spec_cii_settlement_head(*line, old(s).spec_forbidden()));
}

/// Writes the net amount, the object identifier and the accounting reference of a line.
#[verifier::spinoff_prover]
#[verifier::rlimit(100)]
fn settlement_tail(s: &mut Serializer<Namespace>, line: &InvoiceLine)
    requires
        old(s).wf(),
    ensures
        spec_restored(*old(s), *final(s)),
        final(s).spec_xml() == old(s).spec_xml() + spec_cii_settlement_tail(*line, old(s).spec_forbidden()),
{
    if let Some(net) = &line.net_amount {
        s.open_structural(Namespace::Ram, "SpecifiedTradeSettlementLineMonetarySummation");
        let ghost inner = *s;
        let value = money(net);
        s.leaf(Namespace::Ram, "LineTotalAmount", "net_amount", Term::BT(131), value.as_str());
        assert(spec_restored(inner, *s));
        s.close_wrapper(Namespace::Ram, "SpecifiedTradeSettlementLineMonetarySummation");
    }
    let ghost x1 = s.spec_xml();
    if let Some(object) = &line.object {
        line_object(s, object);
    }
    let ghost x2 = s.spec_xml();
    if let Some(reference) = &line.buyer_accounting_reference {
        accounting_account(s, reference.as_str());
    }
    assert(s.spec_xml() =~= old(s).spec_xml() + spec_cii_settlement_tail(*line, old(s).spec_forbidden()));
}

/// Writes the object identifier of a line (`BT-128`) as a referenced document.
#[verifier::spinoff_prover]
#[verifier::rlimit(100)]
fn line_object(s: &mut Serializer<Namespace>, object: &crate::model::ObjectReference)
    requires
        old(s).wf(),
    ensures
        spec_restored(*old(s), *final(s)),
        final(s).spec_xml() == old(s).spec_xml() + spec_referenced_document(
            object.id@,
            "130"@,
            spec_optional_element(Namespace::Ram, "ReferenceTypeCode"@, object.scheme),
        ),
{
    let none = none();
    assert(crate::token::spec_attributes(none@) =~= Seq::empty());
    s.open_field_group(Namespace::Ram, "AdditionalReferencedDocument", "object");
    s.derived(Namespace::Ram, "IssuerAssignedID", &none, object.id.as_str());
    s.derived(Namespace::Ram, "TypeCode", &none, "130");
    let ghost typed = s.spec_xml();
    if let Some(scheme) = &object.scheme {
        s.derived(Namespace::Ram, "ReferenceTypeCode", &none, scheme.as_str());
    }
    s.close_group(Namespace::Ram, "AdditionalReferencedDocument");
    assert(s.spec_xml() =~= old(s).spec_xml() + spec_referenced_document(
        object.id@,
        "130"@,
        spec_optional_element(Namespace::Ram, "ReferenceTypeCode"@, object.scheme),
    ));
}

/// Writes the line allowances and charges, one after the other.
#[verifier::spinoff_prover]
#[verifier::rlimit(100)]
fn line_adjustments(s: &mut Serializer<Namespace>, adjustments: &Vec<LineAdjustment>)
    requires
        old(s).wf(),
    ensures
        spec_restored(*old(s), *final(s)),
        final(s).spec_xml() == old(s).spec_xml() + spec_cii_line_adjustments(adjustments@, old(s).spec_forbidden()),
{
    let mut i: usize = 0;
    while i < adjustments.len()
        invariant
            i <= adjustments@.len(),
            old(s).wf(),
            spec_restored(*old(s), *s),
            s.spec_xml() == old(s).spec_xml() + spec_cii_line_adjustments(adjustments@.take(i as int), old(s).spec_forbidden()),
        decreases adjustments@.len() - i,
    {
        line_adjustment(s, &adjustments[i], i + 1);
        proof {
            let done = adjustments@.take(i + 1);
            assert(done.drop_last() =~= adjustments@.take(i as int));
            assert(s.spec_xml() =~= old(s).spec_xml() + spec_cii_line_adjustments(done, old(s).spec_forbidden()));
        }
        i = i + 1;
    }
    assert(adjustments@.take(i as int) =~= adjustments@);
}

/// Writes a receivable accounting account (`BT-19`/`BT-133`).
#[verifier::spinoff_prover]
#[verifier::rlimit(100)]
pub fn accounting_account(s: &mut Serializer<Namespace>, reference: &str)
    requires
        old(s).wf(),
    ensures
        spec_restored(*old(s), *final(s)),
        spec_wrapped(old(s).spec_xml(), final(s).spec_xml(), Namespace::Ram, "ReceivableSpecifiedTradeAccountingAccount"@),
        final(s).spec_xml() == old(s).spec_xml() + spec_accounting_account(reference@),
{
    let none = none();
    assert(crate::token::spec_attributes(none@) =~= Seq::empty());
    s.open_field_group(Namespace::Ram, "ReceivableSpecifiedTradeAccountingAccount", "buyer_accounting_reference");
    s.derived(Namespace::Ram, "ID", &none, reference);
    s.close_group(Namespace::Ram, "ReceivableSpecifiedTradeAccountingAccount");
}

/// A receivable accounting account as written, around its identifier.
pub open spec fn spec_accounting_account(reference: Seq<char>) -> Seq<char> {
    spec_group(
        Namespace::Ram,
        "ReceivableSpecifiedTradeAccountingAccount"@,
        spec_element(Namespace::Ram, "ID"@, Seq::empty(), reference),
    )
}

/// Writes a VAT treatment as an applicable trade tax: its type, category and rate.
#[verifier::spinoff_prover]
#[verifier::rlimit(100)]
fn trade_tax(s: &mut Serializer<Namespace>, vat: &VatTreatment)
    requires
        old(s).wf(),
    ensures
        spec_restored(*old(s), *final(s)),
        final(s).spec_xml() == old(s).spec_xml() + crate::serializer::spec_element(Namespace::Ram, "TypeCode"@, Seq::empty(), "VAT"@)
            + crate::serializer::spec_element(
            Namespace::Ram,
            "CategoryCode"@,
            Seq::empty(),
            crate::vat::spec_category_code(crate::vat::spec_category(*vat)),
        ) + crate::serializer::spec_element(
            Namespace::Ram,
            "RateApplicablePercent"@,
            Seq::empty(),
            crate::decimal::spec_decimal_text(crate::vat::spec_rate(*vat)),
        ),
{
    let none = none();
    s.derived(Namespace::Ram, "TypeCode", &none, "VAT");
    s.derived(Namespace::Ram, "CategoryCode", &none, vat.category().code());
    let rate = vat.rate().to_string();
    s.derived(Namespace::Ram, "RateApplicablePercent", &none, rate.as_str());
}

/// Writes the line VAT as an applicable trade tax, mapped to the line VAT.
#[verifier::spinoff_prover]
#[verifier::rlimit(100)]
pub fn line_tax(s: &mut Serializer<Namespace>, vat: &VatTreatment)
    requires
        old(s).wf(),
    ensures
        spec_restored(*old(s), *final(s)),
        spec_wrapped(old(s).spec_xml(), final(s).spec_xml(), Namespace::Ram, "ApplicableTradeTax"@),
        final(s).spec_xml() == old(s).spec_xml() + spec_line_tax(*vat),
{
    s.open_field_group(Namespace::Ram, "ApplicableTradeTax", "vat");
    trade_tax(s, vat);
    s.close_group(Namespace::Ram, "ApplicableTradeTax");
    assert(s.spec_xml() =~= old(s).spec_xml() + spec_line_tax(*vat));
}

/// The type, category and rate of a VAT treatment as written in an applicable trade tax.
pub open spec fn spec_trade_tax(vat: VatTreatment) -> Seq<char> {
    spec_element(Namespace::Ram, "TypeCode"@, Seq::empty(), "VAT"@) + spec_element(
        Namespace::Ram,
        "CategoryCode"@,
        Seq::empty(),
        crate::vat::spec_category_code(crate::vat::spec_category(vat)),
    ) + spec_element(
        Namespace::Ram,
        "RateApplicablePercent"@,
        Seq::empty(),
        crate::decimal::spec_decimal_text(crate::vat::spec_rate(vat)),
    )
}

/// The VAT of a line as written in its applicable trade tax.
pub open spec fn spec_line_tax(vat: VatTreatment) -> Seq<char> {
    spec_group(Namespace::Ram, "ApplicableTradeTax"@, spec_trade_tax(vat))
}

/// Writes one line-level allowance (`BG-27`) or charge (`BG-28`).
#[verifier::spinoff_prover]
#[verifier::rlimit(100)]
pub fn line_adjustment(s: &mut Serializer<Namespace>, adjustment: &LineAdjustment, instance: usize)
    requires
        old(s).wf(),
    ensures
        spec_restored(*old(s), *final(s)),
        !old(s).spec_forbidden().contains(crate::ubl_write::spec_line_adjustment_term(*adjustment)) ==> spec_wrapped(old(s).spec_xml(), final(s).spec_xml(), Namespace::Ram, "SpecifiedTradeAllowanceCharge"@),
        old(s).spec_forbidden().contains(crate::ubl_write::spec_line_adjustment_term(*adjustment)) ==> *final(s) == *old(s),
        final(s).spec_xml() == old(s).spec_xml() + spec_cii_line_adjustment(*adjustment, old(s).spec_forbidden()),
{
    let charge = matches!(adjustment.reason, Reason::Charge { .. });
    let term = if charge { Term::BG(28) } else { Term::BG(27) };
    if s.open_repeatable(Namespace::Ram, "SpecifiedTradeAllowanceCharge", "adjustments", term, instance) {
        indicator(s, charge);
        adjustment_amount(s, &adjustment.amount);
        adjustment_reason(s, &adjustment.reason);
        s.close_group(Namespace::Ram, "SpecifiedTradeAllowanceCharge");
        assert(s.spec_xml() =~= old(s).spec_xml() + spec_cii_line_adjustment(*adjustment, old(s).spec_forbidden()));
    } else {
        assert(s.spec_xml() =~= old(s).spec_xml() + Seq::<char>::empty());
    }
}

/// The reason code and text of an adjustment as written.
pub open spec fn spec_cii_reason(reason: Reason) -> Seq<char> {
    match reason {
        Reason::Allowance { code, text } | Reason::Charge { code, text } => spec_optional_element(
            Namespace::Ram,
            "ReasonCode"@,
            code,
        ) + spec_optional_element(Namespace::Ram, "Reason"@, text),
    }
}

/// One line allowance or charge as written, absent where the profile forbids its term.
pub open spec fn spec_cii_line_adjustment(adjustment: LineAdjustment, forbidden: Seq<Term>) -> Seq<char> {
    if forbidden.contains(crate::ubl_write::spec_line_adjustment_term(adjustment)) {
        Seq::empty()
    } else {
        spec_group(
            Namespace::Ram,
            "SpecifiedTradeAllowanceCharge"@,
            spec_indicator(adjustment.reason is Charge) + spec_cii_adjustment_amount(adjustment.amount)
                + spec_cii_reason(adjustment.reason),
        )
    }
}

/// The line allowances and charges as written, one after the other.
pub open spec fn spec_cii_line_adjustments(adjustments: Seq<LineAdjustment>, forbidden: Seq<Term>) -> Seq<char>
    decreases adjustments.len(),
{
    if adjustments.len() == 0 {
        Seq::empty()
    } else {
        spec_cii_line_adjustments(adjustments.drop_last(), forbidden) + spec_cii_line_adjustment(adjustments.last(), forbidden)
    }
}

/// The amount of an adjustment as written: the fixed sum, or the rate, the base and the amount
/// it comes to when that can be computed.
pub open spec fn spec_cii_adjustment_amount(amount: Amount) -> Seq<char> {
    match amount {
        Amount::Absolute(v) => spec_element(Namespace::Ram, "ActualAmount"@, Seq::empty(), spec_money(v@)),
        Amount::Relative { rate, base } => spec_element(
            Namespace::Ram,
            "CalculationPercent"@,
            Seq::empty(),
            crate::decimal::spec_decimal_text(rate@),
        ) + spec_element(Namespace::Ram, "BasisAmount"@, Seq::empty(), spec_money(base@)) + if crate::pricing::spec_amount_fits(amount) {
            spec_element(Namespace::Ram, "ActualAmount"@, Seq::empty(), spec_money(crate::pricing::spec_amount_value(amount)))
        } else {
            Seq::empty()
        },
    }
}

/// Writes the amount of an adjustment, absolute or relative, mapped to the amount field.
/// A relative amount is written with its rate and base, and with the amount it comes to
/// when that can be computed.
#[verifier::spinoff_prover]
#[verifier::rlimit(100)]
pub fn adjustment_amount(s: &mut Serializer<Namespace>, amount: &Amount)
    requires
        old(s).wf(),
    ensures
        spec_restored(*old(s), *final(s)),
        final(s).spec_xml() == old(s).spec_xml() + spec_cii_adjustment_amount(*amount),
{
    match amount {
        Amount::Relative { rate, base } => {
            let percent = rate.value().to_string();
            s.field_leaf(Namespace::Ram, "CalculationPercent", "amount", percent.as_str());
            let written = money(base);
            s.field_leaf(Namespace::Ram, "BasisAmount", "amount", written.as_str());
            let ghost after_basis = s.spec_xml();
            if let Some(product) = base.checked_mul(&rate.value()) {
                if let Some(hundredth) = product.shifted(2) {
                    let value = money(&crate::pricing::rounded(hundredth));
                    s.field_leaf(Namespace::Ram, "ActualAmount", "amount", value.as_str());
                }
            }
            assert(s.spec_xml() =~= old(s).spec_xml() + spec_cii_adjustment_amount(*amount));
        },
        Amount::Absolute(value) => {
            let written = money(value);
            s.field_leaf(Namespace::Ram, "ActualAmount", "amount", written.as_str());
        },
    }
}

/// Writes the reason code and text of an adjustment, mapped to the adjustment.
#[verifier::spinoff_prover]
#[verifier::rlimit(100)]
pub fn adjustment_reason(s: &mut Serializer<Namespace>, reason: &Reason)
    requires
        old(s).wf(),
    ensures
        spec_restored(*old(s), *final(s)),
        final(s).spec_xml() == old(s).spec_xml() + match *reason {
            Reason::Allowance { code, text } | Reason::Charge { code, text } => crate::serializer::spec_optional_element(
                Namespace::Ram,
                "ReasonCode"@,
                code,
            ) + crate::serializer::spec_optional_element(Namespace::Ram, "Reason"@, text),
        },
{
    let (code, text) = match reason {
        Reason::Allowance { code, text } => (code, text),
        Reason::Charge { code, text } => (code, text),
    };
    let none = none();
    if let Some(code) = code {
        s.derived(Namespace::Ram, "ReasonCode", &none, code.as_str());
    }
    if let Some(text) = text {
        s.derived(Namespace::Ram, "Reason", &none, text.as_str());
    }
}

/// Writes a billing period (`BG-14`/`BG-26`), its dates mapped to the period field.
#[verifier::spinoff_prover]
#[verifier::rlimit(100)]
pub fn billing_period(s: &mut Serializer<Namespace>, period: &Period, field: &'static str, term: Term)
    requires
        old(s).wf(),
    ensures
        spec_restored(*old(s), *final(s)),
        !old(s).spec_forbidden().contains(term) ==> spec_wrapped(old(s).spec_xml(), final(s).spec_xml(), Namespace::Ram, "BillingSpecifiedPeriod"@),
        old(s).spec_forbidden().contains(term) ==> *final(s) == *old(s),
        final(s).spec_xml() == old(s).spec_xml() + spec_billing_period(*period, term, old(s).spec_forbidden()),
{
    if s.open_group(Namespace::Ram, "BillingSpecifiedPeriod", field, term) {
        let ghost opened = s.spec_xml();
        if let Some(start) = &period.start {
            datetime(s, "StartDateTime", field, term, start);
        }
        let ghost x1 = s.spec_xml();
        if let Some(end) = &period.end {
            datetime(s, "EndDateTime", field, term, end);
        }
        s.close_group(Namespace::Ram, "BillingSpecifiedPeriod");
        assert(s.spec_xml() =~= old(s).spec_xml() + spec_billing_period(*period, term, old(s).spec_forbidden()));
    } else {
        assert(s.spec_xml() =~= old(s).spec_xml() + Seq::<char>::empty());
    }
}

/// A billing period as written, absent where the profile forbids its term: its start and end
/// dates.
pub open spec fn spec_billing_period(period: Period, term: Term, forbidden: Seq<Term>) -> Seq<char> {
    if forbidden.contains(term) {
        Seq::empty()
    } else {
        spec_group(
            Namespace::Ram,
            "BillingSpecifiedPeriod"@,
            spec_datetime(forbidden, term, "StartDateTime"@, period.start) + spec_datetime(forbidden, term, "EndDateTime"@, period.end),
        )
    }
}

/// Writes a single-identifier reference document, unless the profile forbids its term.
#[verifier::spinoff_prover]
#[verifier::rlimit(100)]
pub fn reference(s: &mut Serializer<Namespace>, element: &str, term: Term, field: &'static str, id: &str)
    requires
        old(s).wf(),
    ensures
        spec_restored(*old(s), *final(s)),
        !old(s).spec_forbidden().contains(term) ==> spec_wrapped(old(s).spec_xml(), final(s).spec_xml(), Namespace::Ram, element@),
        old(s).spec_forbidden().contains(term) ==> *final(s) == *old(s),
        !old(s).spec_forbidden().contains(term) ==> final(s).spec_xml() == old(s).spec_xml() + spec_group(
            Namespace::Ram,
            element@,
            spec_element(Namespace::Ram, "IssuerAssignedID"@, Seq::empty(), id@),
        ),
{
    if s.open_group(Namespace::Ram, element, field, term) {
        let none = none();
        assert(crate::token::spec_attributes(none@) =~= Seq::empty());
        s.derived(Namespace::Ram, "IssuerAssignedID", &none, id);
        s.close_group(Namespace::Ram, element);
    }
}

/// Writes the header trade agreement: the buyer reference (`BT-10`), the seller (`BG-4`),
/// the buyer (`BG-7`), the tax representative (`BG-11`), the order and contract references,
/// the additional documents and the project reference (`BT-11`).
#[verifier::spinoff_prover]
#[verifier::rlimit(100)]
pub fn header_trade_agreement(s: &mut Serializer<Namespace>, invoice: &Invoice)
    requires
        old(s).wf(),
    ensures
        spec_restored(*old(s), *final(s)),
        spec_wrapped(old(s).spec_xml(), final(s).spec_xml(), Namespace::Ram, "ApplicableHeaderTradeAgreement"@),
        final(s).spec_xml() == old(s).spec_xml() + spec_header_trade_agreement(*invoice, old(s).spec_forbidden()),
{
    s.open_structural(Namespace::Ram, "ApplicableHeaderTradeAgreement");
    let ghost opened = *s;
    agreement_parties(s, invoice);
    agreement_references(s, invoice);
    assert(spec_restored(opened, *s));
    s.close_wrapper(Namespace::Ram, "ApplicableHeaderTradeAgreement");
    assert(s.spec_xml() =~= old(s).spec_xml() + spec_header_trade_agreement(*invoice, old(s).spec_forbidden()));
}

/// The buyer reference and the seller of the header trade agreement as written.
pub open spec fn spec_agreement_seller(invoice: Invoice, forbidden: Seq<Term>) -> Seq<char> {
    spec_term_element(forbidden, Term::BT(10), Namespace::Ram, "BuyerReference"@, Seq::empty(), crate::ubl_read::spec_texts(invoice.buyer_reference))
        + match invoice.seller {
        Some(p) => spec_cii_seller(p, forbidden),
        None => Seq::empty(),
    }
}

/// The buyer and the tax representative of the header trade agreement as written.
pub open spec fn spec_agreement_buyer(invoice: Invoice, forbidden: Seq<Term>) -> Seq<char> {
    (match invoice.buyer {
        Some(p) => spec_cii_buyer(p, forbidden),
        None => Seq::empty(),
    }) + match invoice.tax_representative {
        Some(p) => spec_cii_tax_representative(p, forbidden),
        None => Seq::empty(),
    }
}

/// The buyer reference and the parties of the header trade agreement as written.
pub open spec fn spec_agreement_parties(invoice: Invoice, forbidden: Seq<Term>) -> Seq<char> {
    spec_agreement_seller(invoice, forbidden) + spec_agreement_buyer(invoice, forbidden)
}

/// A referenced document carrying an identifier as written, when there is one and the profile
/// allows its term.
pub open spec fn spec_cii_reference(element: Seq<char>, term: Term, id: Option<crate::values::NonEmptyString>, forbidden: Seq<Term>) -> Seq<char> {
    match id {
        Some(v) => if forbidden.contains(term) {
            Seq::empty()
        } else {
            spec_group(Namespace::Ram, element, spec_element(Namespace::Ram, "IssuerAssignedID"@, Seq::empty(), v@))
        },
        None => Seq::empty(),
    }
}

/// The procuring project as written (`BT-11`), when there is one and the profile allows it.
pub open spec fn spec_project(project: Option<crate::values::NonEmptyString>, forbidden: Seq<Term>) -> Seq<char> {
    match project {
        Some(p) => if forbidden.contains(Term::BT(11)) {
            Seq::empty()
        } else {
            spec_group(
                Namespace::Ram,
                "SpecifiedProcuringProject"@,
                spec_element(Namespace::Ram, "ID"@, Seq::empty(), p@) + spec_element(Namespace::Ram, "Name"@, Seq::empty(), "Project"@),
            )
        },
        None => Seq::empty(),
    }
}

/// The references of the header trade agreement as written: the order and contract
/// references, the additional documents and the project.
pub open spec fn spec_agreement_references(invoice: Invoice, forbidden: Seq<Term>) -> Seq<char> {
    spec_cii_reference("SellerOrderReferencedDocument"@, Term::BT(14), invoice.sales_order_reference, forbidden)
        + spec_cii_reference("BuyerOrderReferencedDocument"@, Term::BT(13), invoice.purchase_order_reference, forbidden)
        + spec_cii_reference("ContractReferencedDocument"@, Term::BT(12), invoice.contract_reference, forbidden)
        + spec_additional_documents(invoice, forbidden) + spec_project(invoice.project_reference, forbidden)
}

/// The header trade agreement as written.
pub open spec fn spec_header_trade_agreement(invoice: Invoice, forbidden: Seq<Term>) -> Seq<char> {
    spec_group(
        Namespace::Ram,
        "ApplicableHeaderTradeAgreement"@,
        spec_agreement_parties(invoice, forbidden) + spec_agreement_references(invoice, forbidden),
    )
}

/// Writes the buyer reference and the parties of the header trade agreement.
#[verifier::spinoff_prover]
#[verifier::rlimit(100)]
fn agreement_parties(s: &mut Serializer<Namespace>, invoice: &Invoice)
    requires
        old(s).wf(),
    ensures
        spec_restored(*old(s), *final(s)),
        final(s).spec_xml() == old(s).spec_xml() + spec_agreement_parties(*invoice, old(s).spec_forbidden()),
{
    agreement_seller(s, invoice);
    agreement_buyer(s, invoice);
    assert(s.spec_xml() =~= old(s).spec_xml() + spec_agreement_parties(*invoice, old(s).spec_forbidden()));
}

/// Writes the buyer reference and the seller of the header trade agreement.
#[verifier::spinoff_prover]
#[verifier::rlimit(100)]
fn agreement_seller(s: &mut Serializer<Namespace>, invoice: &Invoice)
    requires
        old(s).wf(),
    ensures
        spec_restored(*old(s), *final(s)),
        final(s).spec_xml() == old(s).spec_xml() + spec_agreement_seller(*invoice, old(s).spec_forbidden()),
{
    if let Some(reference) = &invoice.buyer_reference {
        s.leaf(Namespace::Ram, "BuyerReference", "buyer_reference", Term::BT(10), reference.as_str());
    }
    let ghost x1 = s.spec_xml();
    if let Some(seller) = &invoice.seller {
        seller_party(s, seller);
    }
    assert(s.spec_xml() =~= old(s).spec_xml() + spec_agreement_seller(*invoice, old(s).spec_forbidden()));
}

/// Writes the buyer and the tax representative of the header trade agreement.
#[verifier::spinoff_prover]
#[verifier::rlimit(100)]
fn agreement_buyer(s: &mut Serializer<Namespace>, invoice: &Invoice)
    requires
        old(s).wf(),
    ensures
        spec_restored(*old(s), *final(s)),
        final(s).spec_xml() == old(s).spec_xml() + spec_agreement_buyer(*invoice, old(s).spec_forbidden()),
{
    if let Some(buyer) = &invoice.buyer {
        buyer_party(s, buyer);
    }
    let ghost x1 = s.spec_xml();
    if let Some(representative) = &invoice.tax_representative {
        tax_representative_party(s, representative);
    }
    assert(s.spec_xml() =~= old(s).spec_xml() + spec_agreement_buyer(*invoice, old(s).spec_forbidden()));
}

/// Writes a referenced document carrying an identifier, when there is one.
#[verifier::spinoff_prover]
#[verifier::rlimit(100)]
fn optional_reference(s: &mut Serializer<Namespace>, element: &str, term: Term, field: &'static str, id: &Option<crate::values::NonEmptyString>)
    requires
        old(s).wf(),
    ensures
        spec_restored(*old(s), *final(s)),
        final(s).spec_xml() == old(s).spec_xml() + spec_cii_reference(element@, term, *id, old(s).spec_forbidden()),
{
    if let Some(v) = id {
        reference(s, element, term, field, v.as_str());
    }
    assert(s.spec_xml() =~= old(s).spec_xml() + spec_cii_reference(element@, term, *id, old(s).spec_forbidden()));
}

/// Writes the procuring project (`BT-11`), unless the profile forbids it.
#[verifier::spinoff_prover]
#[verifier::rlimit(100)]
fn project(s: &mut Serializer<Namespace>, project: &Option<crate::values::NonEmptyString>)
    requires
        old(s).wf(),
    ensures
        spec_restored(*old(s), *final(s)),
        final(s).spec_xml() == old(s).spec_xml() + spec_project(*project, old(s).spec_forbidden()),
{
    if let Some(project) = project {
        if s.open_group(Namespace::Ram, "SpecifiedProcuringProject", "project_reference", Term::BT(11)) {
            let none = none();
            assert(crate::token::spec_attributes(none@) =~= Seq::empty());
            s.derived(Namespace::Ram, "ID", &none, project.as_str());
            s.derived(Namespace::Ram, "Name", &none, "Project");
            s.close_group(Namespace::Ram, "SpecifiedProcuringProject");
        }
    }
    assert(s.spec_xml() =~= old(s).spec_xml() + spec_project(*project, old(s).spec_forbidden()));
}

/// Writes the references of the header trade agreement.
#[verifier::spinoff_prover]
#[verifier::rlimit(100)]
fn agreement_references(s: &mut Serializer<Namespace>, invoice: &Invoice)
    requires
        old(s).wf(),
    ensures
        spec_restored(*old(s), *final(s)),
        final(s).spec_xml() == old(s).spec_xml() + spec_agreement_references(*invoice, old(s).spec_forbidden()),
{
    optional_reference(s, "SellerOrderReferencedDocument", Term::BT(14), "sales_order_reference", &invoice.sales_order_reference);
    optional_reference(s, "BuyerOrderReferencedDocument", Term::BT(13), "purchase_order_reference", &invoice.purchase_order_reference);
    optional_reference(s, "ContractReferencedDocument", Term::BT(12), "contract_reference", &invoice.contract_reference);
    let ghost x3 = s.spec_xml();
    additional_documents(s, invoice);
    project(s, &invoice.project_reference);
    assert(s.spec_xml() =~= old(s).spec_xml() + spec_agreement_references(*invoice, old(s).spec_forbidden()));
}

/// Writes the invoiced object (`BT-18`), the tender or lot reference (`BT-17`) and the
/// supporting documents (`BG-24`), told apart by their type codes `130`, `50` and `916`.
#[verifier::spinoff_prover]
#[verifier::rlimit(100)]
pub fn additional_documents(s: &mut Serializer<Namespace>, invoice: &Invoice)
    requires
        old(s).wf(),
    ensures
        spec_restored(*old(s), *final(s)),
        spec_wrapped_each(
            old(s).spec_xml(),
            final(s).spec_xml(),
            Namespace::Ram,
            "AdditionalReferencedDocument"@,
            (if invoice.object is Some && !old(s).spec_forbidden().contains(Term::BT(18)) { 1nat } else { 0nat }) + (
            if invoice.tender_or_lot_reference is Some && !old(s).spec_forbidden().contains(Term::BT(17)) { 1nat } else { 0nat })
                + (if old(s).spec_forbidden().contains(Term::BG(24)) { 0nat } else { invoice.supporting_documents@.len() }),
        ),
        final(s).spec_xml() == old(s).spec_xml() + spec_additional_documents(*invoice, old(s).spec_forbidden()),
{
    let ghost first: nat = if invoice.object is Some && !old(s).spec_forbidden().contains(Term::BT(18)) { 1nat } else { 0nat };
    let ghost second: nat = first + if invoice.tender_or_lot_reference is Some && !old(s).spec_forbidden().contains(Term::BT(17)) {
        1nat
    } else {
        0nat
    };
    let ghost start = s.spec_xml();
    proof {
        assert(spec_wrapped_each(start, start, Namespace::Ram, "AdditionalReferencedDocument"@, 0nat));
    }
    if let Some(object) = &invoice.object {
        object_document(s, object);
        proof {
            if !old(s).spec_forbidden().contains(Term::BT(18)) {
                assert(spec_wrapped_each(start, s.spec_xml(), Namespace::Ram, "AdditionalReferencedDocument"@, 1nat));
            }
        }
    } else {
        assert(s.spec_xml() =~= start + Seq::<char>::empty());
    }
    let ghost after_object = s.spec_xml();
    assert(spec_wrapped_each(start, after_object, Namespace::Ram, "AdditionalReferencedDocument"@, first));
    if let Some(tender) = &invoice.tender_or_lot_reference {
        tender_document(s, tender);
    } else {
        assert(s.spec_xml() =~= after_object + Seq::<char>::empty());
    }
    assert(spec_wrapped_each(start, s.spec_xml(), Namespace::Ram, "AdditionalReferencedDocument"@, second));
    let ghost referenced = s.spec_xml();
    let drop_location = s.forbids(Term::BT(124));
    let documents = &invoice.supporting_documents;
    let ghost opened = *s;
    let mut i: usize = 0;
    while i < documents.len()
        invariant
            i <= documents@.len(),
            opened.wf(),
            old(s).wf(),
            spec_restored(opened, *s),
            opened.keeps(old(s)),
            drop_location == old(s).spec_forbidden().contains(Term::BT(124)),
            spec_wrapped_each(start, s.spec_xml(), Namespace::Ram, "AdditionalReferencedDocument"@, second + (if old(s).spec_forbidden().contains(Term::BG(24)) { 0nat } else { i as nat })),
            s.spec_xml() == referenced + spec_supporting_documents(documents@.take(i as int), old(s).spec_forbidden()),
        decreases documents@.len() - i,
    {
        let ghost previous = s.spec_xml();
        supporting_document(s, &documents[i], i + 1, drop_location);
        proof {
            if !old(s).spec_forbidden().contains(Term::BG(24)) {
                assert(spec_wrapped(previous, s.spec_xml(), Namespace::Ram, "AdditionalReferencedDocument"@));
            }
            let done = documents@.take(i + 1);
            assert(done.drop_last() =~= documents@.take(i as int));
            assert(s.spec_xml() =~= referenced + spec_supporting_documents(done, old(s).spec_forbidden()));
        }
        i = i + 1;
    }
    assert(documents@.take(i as int) =~= documents@);
    assert(s.spec_xml() =~= old(s).spec_xml() + spec_additional_documents(*invoice, old(s).spec_forbidden()));
}

/// A referenced document as written: its identifier, its type code and what follows.
pub open spec fn spec_referenced_document(id: Seq<char>, type_code: Seq<char>, rest: Seq<char>) -> Seq<char> {
    crate::serializer::spec_group(
        Namespace::Ram,
        "AdditionalReferencedDocument"@,
        crate::serializer::spec_element(Namespace::Ram, "IssuerAssignedID"@, Seq::empty(), id)
            + crate::serializer::spec_element(Namespace::Ram, "TypeCode"@, Seq::empty(), type_code) + rest,
    )
}

/// The invoiced object (`BT-18`) as written, absent where the profile forbids it.
pub open spec fn spec_object_document(object: crate::model::ObjectReference, forbidden: Seq<Term>) -> Seq<char> {
    if forbidden.contains(Term::BT(18)) {
        Seq::empty()
    } else {
        spec_referenced_document(
            object.id@,
            "130"@,
            crate::serializer::spec_optional_element(Namespace::Ram, "ReferenceTypeCode"@, object.scheme),
        )
    }
}

/// The tender or lot reference (`BT-17`) as written, absent where the profile forbids it.
pub open spec fn spec_tender_document(tender: crate::values::NonEmptyString, forbidden: Seq<Term>) -> Seq<char> {
    if forbidden.contains(Term::BT(17)) {
        Seq::empty()
    } else {
        spec_referenced_document(tender@, "50"@, Seq::empty())
    }
}

/// One supporting document as written (`BG-24`), absent where the profile forbids it; its
/// external location is dropped where the profile forbids that (`BT-124`).
pub open spec fn spec_supporting_document(document: crate::model::SupportingDocument, forbidden: Seq<Term>) -> Seq<char> {
    if forbidden.contains(Term::BG(24)) {
        Seq::empty()
    } else {
        crate::serializer::spec_group(
            Namespace::Ram,
            "AdditionalReferencedDocument"@,
            crate::serializer::spec_element(Namespace::Ram, "IssuerAssignedID"@, Seq::empty(), document.reference@)
                + (match document.external_location {
                Some(location) => if forbidden.contains(Term::BT(124)) {
                    Seq::empty()
                } else {
                    crate::serializer::spec_element(Namespace::Ram, "URIID"@, Seq::empty(), location@)
                },
                None => Seq::empty(),
            }) + crate::serializer::spec_element(Namespace::Ram, "TypeCode"@, Seq::empty(), "916"@)
                + crate::serializer::spec_optional_element(Namespace::Ram, "Name"@, document.description)
                + match document.attachment {
                Some(binary) => crate::serializer::spec_element(
                    Namespace::Ram,
                    "AttachmentBinaryObject"@,
                    seq![("mimeCode"@, binary.mime@), ("filename"@, binary.filename@)],
                    crate::ubl_write::spec_base64(binary.content@),
                ),
                None => Seq::empty(),
            },
        )
    }
}

/// The supporting documents as written, one after the other.
pub open spec fn spec_supporting_documents(documents: Seq<crate::model::SupportingDocument>, forbidden: Seq<Term>) -> Seq<char>
    decreases documents.len(),
{
    if documents.len() == 0 {
        Seq::empty()
    } else {
        spec_supporting_documents(documents.drop_last(), forbidden) + spec_supporting_document(documents.last(), forbidden)
    }
}

/// The referenced documents as written: the invoiced object, the tender or lot reference and
/// the supporting documents.
pub open spec fn spec_additional_documents(invoice: Invoice, forbidden: Seq<Term>) -> Seq<char> {
    (match invoice.object {
        Some(o) => spec_object_document(o, forbidden),
        None => Seq::empty(),
    }) + (match invoice.tender_or_lot_reference {
        Some(t) => spec_tender_document(t, forbidden),
        None => Seq::empty(),
    }) + spec_supporting_documents(invoice.supporting_documents@, forbidden)
}

/// Writes the invoiced object identifier (`BT-18`) as a referenced document.
#[verifier::spinoff_prover]
#[verifier::rlimit(100)]
fn object_document(s: &mut Serializer<Namespace>, object: &crate::model::ObjectReference)
    requires
        old(s).wf(),
    ensures
        spec_restored(*old(s), *final(s)),
        !old(s).spec_forbidden().contains(Term::BT(18)) ==> spec_wrapped(old(s).spec_xml(), final(s).spec_xml(), Namespace::Ram, "AdditionalReferencedDocument"@),
        final(s).spec_xml() == old(s).spec_xml() + spec_object_document(*object, old(s).spec_forbidden()),
{
    let none = none();
    assert(crate::token::spec_attributes(none@) =~= Seq::empty());
    if s.open_group(Namespace::Ram, "AdditionalReferencedDocument", "object", Term::BT(18)) {
        s.derived(Namespace::Ram, "IssuerAssignedID", &none, object.id.as_str());
        s.derived(Namespace::Ram, "TypeCode", &none, "130");
        let ghost typed = s.spec_xml();
        if let Some(scheme) = &object.scheme {
            s.derived(Namespace::Ram, "ReferenceTypeCode", &none, scheme.as_str());
        }
        s.close_group(Namespace::Ram, "AdditionalReferencedDocument");
        assert(s.spec_xml() =~= old(s).spec_xml() + spec_object_document(*object, old(s).spec_forbidden()));
    } else {
        assert(s.spec_xml() =~= old(s).spec_xml() + Seq::<char>::empty());
    }
}

/// Writes the tender or lot reference (`BT-17`) as a referenced document.
#[verifier::spinoff_prover]
#[verifier::rlimit(100)]
fn tender_document(s: &mut Serializer<Namespace>, tender: &crate::values::NonEmptyString)
    requires
        old(s).wf(),
    ensures
        spec_restored(*old(s), *final(s)),
        !old(s).spec_forbidden().contains(Term::BT(17)) ==> spec_wrapped(old(s).spec_xml(), final(s).spec_xml(), Namespace::Ram, "AdditionalReferencedDocument"@),
        final(s).spec_xml() == old(s).spec_xml() + spec_tender_document(*tender, old(s).spec_forbidden()),
{
    let none = none();
    assert(crate::token::spec_attributes(none@) =~= Seq::empty());
    if s.open_group(Namespace::Ram, "AdditionalReferencedDocument", "tender_or_lot_reference", Term::BT(17)) {
        s.derived(Namespace::Ram, "IssuerAssignedID", &none, tender.as_str());
        s.derived(Namespace::Ram, "TypeCode", &none, "50");
        s.close_group(Namespace::Ram, "AdditionalReferencedDocument");
        assert(s.spec_xml() =~= old(s).spec_xml() + spec_tender_document(*tender, old(s).spec_forbidden()));
    } else {
        assert(s.spec_xml() =~= old(s).spec_xml() + Seq::<char>::empty());
    }
}

/// Writes one supporting document (`BG-24`), unless the profile forbids it.
#[verifier::spinoff_prover]
#[verifier::rlimit(100)]
fn supporting_document(s: &mut Serializer<Namespace>, document: &crate::model::SupportingDocument, instance: usize, drop_location: bool)
    requires
        old(s).wf(),
        drop_location == old(s).spec_forbidden().contains(Term::BT(124)),
    ensures
        spec_restored(*old(s), *final(s)),
        !old(s).spec_forbidden().contains(Term::BG(24)) ==> spec_wrapped(old(s).spec_xml(), final(s).spec_xml(), Namespace::Ram, "AdditionalReferencedDocument"@),
        final(s).spec_xml() == old(s).spec_xml() + spec_supporting_document(*document, old(s).spec_forbidden()),
{
    let none = none();
    assert(crate::token::spec_attributes(none@) =~= Seq::empty());
    if s.open_repeatable(Namespace::Ram, "AdditionalReferencedDocument", "supporting_documents", Term::BG(24), instance) {
        s.derived(Namespace::Ram, "IssuerAssignedID", &none, document.reference.as_str());
        let ghost x1 = s.spec_xml();
        if let Some(location) = &document.external_location {
            if !drop_location {
                s.field_leaf(Namespace::Ram, "URIID", "external_location", location.as_str());
            }
        }
        let ghost x2 = s.spec_xml();
        s.derived(Namespace::Ram, "TypeCode", &none, "916");
        if let Some(description) = &document.description {
            s.field_leaf(Namespace::Ram, "Name", "description", description.as_str());
        }
        let ghost x3 = s.spec_xml();
        if let Some(binary) = &document.attachment {
            let encoded = crate::ubl_write::encode_base64(&binary.content);
            let attributes = vec![
                (owned("mimeCode"), binary.mime.to_string()),
                (owned("filename"), binary.filename.to_string()),
            ];
            assert(crate::token::spec_attributes(attributes@) =~= seq![("mimeCode"@, binary.mime@), ("filename"@, binary.filename@)]);
            s.write_field_leaf(Namespace::Ram, "AttachmentBinaryObject", "attachment", &attributes, encoded.as_str());
        }
        s.close_group(Namespace::Ram, "AdditionalReferencedDocument");
        assert(s.spec_xml() =~= old(s).spec_xml() + spec_supporting_document(*document, old(s).spec_forbidden()));
    } else {
        assert(s.spec_xml() =~= old(s).spec_xml() + Seq::<char>::empty());
    }
}

/// Writes the seller (`BG-4`).
#[verifier::spinoff_prover]
#[verifier::rlimit(100)]
pub fn seller_party(s: &mut Serializer<Namespace>, seller: &Seller)
    requires
        old(s).wf(),
    ensures
        spec_restored(*old(s), *final(s)),
        !old(s).spec_forbidden().contains(Term::BG(4)) ==> spec_wrapped(old(s).spec_xml(), final(s).spec_xml(), Namespace::Ram, "SellerTradeParty"@),
        old(s).spec_forbidden().contains(Term::BG(4)) ==> *final(s) == *old(s),
        final(s).spec_xml() == old(s).spec_xml() + spec_cii_seller(*seller, old(s).spec_forbidden()),
{
    if s.open_group(Namespace::Ram, "SellerTradeParty", "seller", Term::BG(4)) {
        let ghost opened = s.spec_xml();
        seller_names(s, seller);
        party_contacts(s, &seller.contact, &seller.address, &seller.electronic_address);
        registrations(s, &seller.vat, &seller.tax_registration);
        s.close_group(Namespace::Ram, "SellerTradeParty");
        assert(s.spec_xml() =~= old(s).spec_xml() + spec_cii_seller(*seller, old(s).spec_forbidden()));
    } else {
        assert(s.spec_xml() =~= old(s).spec_xml() + Seq::<char>::empty());
    }
}

/// The identifiers, name, legal information and legal organization of a seller as written.
pub open spec fn spec_seller_names(seller: Seller) -> Seq<char> {
    spec_identifier_elements(seller.identifiers@) + spec_optional_element(Namespace::Ram, "Name"@, seller.name)
        + spec_optional_element(Namespace::Ram, "Description"@, seller.additional_legal_information)
        + spec_legal_organization(seller.legal_entity, seller.trading_name)
}

/// The contact, postal address and electronic address of a party as written.
pub open spec fn spec_party_contacts(
    contact: Option<Contact>,
    address: Option<PostalAddress>,
    electronic_address: Option<ElectronicAddress>,
    forbidden: Seq<Term>,
) -> Seq<char> {
    (match contact {
        Some(c) => spec_cii_contact(c, forbidden),
        None => Seq::empty(),
    }) + (match address {
        Some(a) => spec_cii_postal_address(a),
        None => Seq::empty(),
    }) + match electronic_address {
        Some(a) => spec_electronic_address(a),
        None => Seq::empty(),
    }
}

/// The tax registrations of a party as written: its VAT identifier and its tax registration.
pub open spec fn spec_registrations(vat: Option<crate::model::VatIdentifier>, registration: Option<crate::values::NonEmptyString>) -> Seq<char> {
    (match vat {
        Some(v) => spec_tax_registration(v.id@, "VA"@),
        None => Seq::empty(),
    }) + match registration {
        Some(r) => spec_tax_registration(r@, "FC"@),
        None => Seq::empty(),
    }
}

/// The seller as written (`BG-4`), absent where the profile forbids it.
pub open spec fn spec_cii_seller(seller: Seller, forbidden: Seq<Term>) -> Seq<char> {
    if forbidden.contains(Term::BG(4)) {
        Seq::empty()
    } else {
        spec_group(
            Namespace::Ram,
            "SellerTradeParty"@,
            spec_seller_names(seller) + spec_party_contacts(seller.contact, seller.address, seller.electronic_address, forbidden)
                + spec_registrations(seller.vat, seller.tax_registration),
        )
    }
}

/// Writes the identifiers, name, legal information and legal organization of a seller.
#[verifier::spinoff_prover]
#[verifier::rlimit(100)]
fn seller_names(s: &mut Serializer<Namespace>, seller: &Seller)
    requires
        old(s).wf(),
    ensures
        spec_restored(*old(s), *final(s)),
        final(s).spec_xml() == old(s).spec_xml() + spec_seller_names(*seller),
{
    party_identifiers(s, &seller.identifiers);
    let ghost x1 = s.spec_xml();
    if let Some(name) = &seller.name {
        s.field_leaf(Namespace::Ram, "Name", "name", name.as_str());
    }
    let ghost x2 = s.spec_xml();
    if let Some(information) = &seller.additional_legal_information {
        s.field_leaf(Namespace::Ram, "Description", "additional_legal_information", information.as_str());
    }
    let ghost x3 = s.spec_xml();
    legal_organization(s, &seller.legal_entity, &seller.trading_name);
    assert(s.spec_xml() =~= old(s).spec_xml() + spec_seller_names(*seller));
}

/// Writes the contact, postal address and electronic address of a party.
#[verifier::spinoff_prover]
#[verifier::rlimit(100)]
fn party_contacts(
    s: &mut Serializer<Namespace>,
    contact: &Option<Contact>,
    address: &Option<PostalAddress>,
    electronic: &Option<ElectronicAddress>,
)
    requires
        old(s).wf(),
    ensures
        spec_restored(*old(s), *final(s)),
        final(s).spec_xml() == old(s).spec_xml() + spec_party_contacts(*contact, *address, *electronic, old(s).spec_forbidden()),
{
    if let Some(c) = contact {
        contact_group(s, c);
    }
    let ghost x1 = s.spec_xml();
    if let Some(a) = address {
        postal_address(s, a);
    }
    let ghost x2 = s.spec_xml();
    if let Some(a) = electronic {
        electronic_address(s, a);
    }
    assert(s.spec_xml() =~= old(s).spec_xml() + spec_party_contacts(*contact, *address, *electronic, old(s).spec_forbidden()));
}

/// Writes the VAT identifier and the tax registration of a party.
#[verifier::spinoff_prover]
#[verifier::rlimit(100)]
fn registrations(s: &mut Serializer<Namespace>, vat: &Option<crate::model::VatIdentifier>, registration: &Option<crate::values::NonEmptyString>)
    requires
        old(s).wf(),
    ensures
        spec_restored(*old(s), *final(s)),
        final(s).spec_xml() == old(s).spec_xml() + spec_registrations(*vat, *registration),
{
    if let Some(v) = vat {
        tax_registration(s, v.id.as_str(), "VA", "vat");
    }
    let ghost x1 = s.spec_xml();
    if let Some(r) = registration {
        tax_registration(s, r.as_str(), "FC", "tax_registration");
    }
    assert(s.spec_xml() =~= old(s).spec_xml() + spec_registrations(*vat, *registration));
}

/// Writes the buyer (`BG-7`).
#[verifier::spinoff_prover]
#[verifier::rlimit(100)]
pub fn buyer_party(s: &mut Serializer<Namespace>, buyer: &Buyer)
    requires
        old(s).wf(),
    ensures
        spec_restored(*old(s), *final(s)),
        !old(s).spec_forbidden().contains(Term::BG(7)) ==> spec_wrapped(old(s).spec_xml(), final(s).spec_xml(), Namespace::Ram, "BuyerTradeParty"@),
        old(s).spec_forbidden().contains(Term::BG(7)) ==> *final(s) == *old(s),
        final(s).spec_xml() == old(s).spec_xml() + spec_cii_buyer(*buyer, old(s).spec_forbidden()),
{
    if s.open_group(Namespace::Ram, "BuyerTradeParty", "buyer", Term::BG(7)) {
        let ghost opened = s.spec_xml();
        buyer_names(s, buyer);
        party_contacts(s, &buyer.contact, &buyer.address, &buyer.electronic_address);
        registrations(s, &buyer.vat, &None);
        s.close_group(Namespace::Ram, "BuyerTradeParty");
        assert(s.spec_xml() =~= old(s).spec_xml() + spec_cii_buyer(*buyer, old(s).spec_forbidden()));
    } else {
        assert(s.spec_xml() =~= old(s).spec_xml() + Seq::<char>::empty());
    }
}

/// The identifiers, name and legal organization of a buyer as written.
pub open spec fn spec_buyer_names(buyer: Buyer) -> Seq<char> {
    spec_identifier_elements(buyer.identifiers@) + spec_optional_element(Namespace::Ram, "Name"@, buyer.name)
        + spec_legal_organization(buyer.legal_entity, buyer.trading_name)
}

/// The buyer as written (`BG-7`), absent where the profile forbids it.
pub open spec fn spec_cii_buyer(buyer: Buyer, forbidden: Seq<Term>) -> Seq<char> {
    if forbidden.contains(Term::BG(7)) {
        Seq::empty()
    } else {
        spec_group(
            Namespace::Ram,
            "BuyerTradeParty"@,
            spec_buyer_names(buyer) + spec_party_contacts(buyer.contact, buyer.address, buyer.electronic_address, forbidden)
                + spec_registrations(buyer.vat, None),
        )
    }
}

/// Writes the identifiers, name and legal organization of a buyer.
#[verifier::spinoff_prover]
#[verifier::rlimit(100)]
fn buyer_names(s: &mut Serializer<Namespace>, buyer: &Buyer)
    requires
        old(s).wf(),
    ensures
        spec_restored(*old(s), *final(s)),
        final(s).spec_xml() == old(s).spec_xml() + spec_buyer_names(*buyer),
{
    party_identifiers(s, &buyer.identifiers);
    let ghost x1 = s.spec_xml();
    if let Some(name) = &buyer.name {
        s.field_leaf(Namespace::Ram, "Name", "name", name.as_str());
    }
    let ghost x2 = s.spec_xml();
    legal_organization(s, &buyer.legal_entity, &buyer.trading_name);
    assert(s.spec_xml() =~= old(s).spec_xml() + spec_buyer_names(*buyer));
}

/// Writes the seller tax representative (`BG-11`).
#[verifier::spinoff_prover]
#[verifier::rlimit(100)]
pub fn tax_representative_party(s: &mut Serializer<Namespace>, representative: &TaxRepresentative)
    requires
        old(s).wf(),
    ensures
        spec_restored(*old(s), *final(s)),
        !old(s).spec_forbidden().contains(Term::BG(11)) ==> spec_wrapped(old(s).spec_xml(), final(s).spec_xml(), Namespace::Ram, "SellerTaxRepresentativeTradeParty"@),
        old(s).spec_forbidden().contains(Term::BG(11)) ==> *final(s) == *old(s),
        final(s).spec_xml() == old(s).spec_xml() + spec_cii_tax_representative(*representative, old(s).spec_forbidden()),
{
    if s.open_group(Namespace::Ram, "SellerTaxRepresentativeTradeParty", "tax_representative", Term::BG(11)) {
        let ghost opened = s.spec_xml();
        if let Some(name) = &representative.name {
            s.field_leaf(Namespace::Ram, "Name", "name", name.as_str());
        }
        let ghost x1 = s.spec_xml();
        party_contacts(s, &None, &representative.address, &None);
        registrations(s, &representative.vat, &None);
        s.close_group(Namespace::Ram, "SellerTaxRepresentativeTradeParty");
        assert(s.spec_xml() =~= old(s).spec_xml() + spec_cii_tax_representative(*representative, old(s).spec_forbidden()));
    } else {
        assert(s.spec_xml() =~= old(s).spec_xml() + Seq::<char>::empty());
    }
}

/// The seller tax representative as written (`BG-11`), absent where the profile forbids it.
pub open spec fn spec_cii_tax_representative(representative: TaxRepresentative, forbidden: Seq<Term>) -> Seq<char> {
    if forbidden.contains(Term::BG(11)) {
        Seq::empty()
    } else {
        spec_group(
            Namespace::Ram,
            "SellerTaxRepresentativeTradeParty"@,
            spec_optional_element(Namespace::Ram, "Name"@, representative.name)
                + spec_party_contacts(None, representative.address, None, forbidden)
                + spec_registrations(representative.vat, None),
        )
    }
}

/// The elements of a list of party identifiers: a `GlobalID` with its scheme when the
/// identifier has one, an `ID` otherwise, one after the other.
pub open spec fn spec_identifier_elements(identifiers: Seq<OperationalEntity>) -> Seq<char>
    decreases identifiers.len(),
{
    if identifiers.len() == 0 {
        Seq::empty()
    } else {
        let last = identifiers.last();
        spec_identifier_elements(identifiers.drop_last()) + match last.issuer {
            Some(issuer) => crate::serializer::spec_element(
                Namespace::Ram,
                "GlobalID"@,
                seq![("schemeID"@, issuer@)],
                last.id@,
            ),
            None => crate::serializer::spec_element(Namespace::Ram, "ID"@, Seq::empty(), last.id@),
        }
    }
}

/// Writes the party identifiers: a `GlobalID` with its scheme when the identifier has one,
/// an `ID` otherwise.
#[verifier::spinoff_prover]
#[verifier::rlimit(100)]
pub fn party_identifiers(s: &mut Serializer<Namespace>, identifiers: &Vec<OperationalEntity>)
    requires
        old(s).wf(),
    ensures
        spec_restored(*old(s), *final(s)),
        final(s).spec_xml() == old(s).spec_xml() + spec_identifier_elements(identifiers@),
{
    let mut i: usize = 0;
    proof {
        assert(identifiers@.take(0) =~= Seq::<OperationalEntity>::empty());
        assert(s.spec_xml() =~= s.spec_xml() + Seq::<char>::empty());
    }
    while i < identifiers.len()
        invariant
            i <= identifiers@.len(),
            spec_restored(*old(s), *s),
            s.spec_xml() == old(s).spec_xml() + spec_identifier_elements(identifiers@.take(i as int)),
        decreases identifiers@.len() - i,
    {
        let identifier = &identifiers[i];
        let ghost before = s.spec_xml();
        match &identifier.issuer {
            Some(issuer) => {
                let attributes = attribute("schemeID", issuer.as_str());
                assert(crate::token::spec_attributes(attributes@) =~= seq![("schemeID"@, issuer@)]);
                s.write_field_leaf(Namespace::Ram, "GlobalID", "identifiers", &attributes, identifier.id.as_str());
            },
            None => s.field_leaf(Namespace::Ram, "ID", "identifiers", identifier.id.as_str()),
        }
        proof {
            assert(identifiers@.take(i + 1).drop_last() =~= identifiers@.take(i as int));
            assert(identifiers@.take(i + 1).last() == *identifier);
            assert(s.spec_xml() =~= old(s).spec_xml() + spec_identifier_elements(identifiers@.take(i + 1)));
        }
        i = i + 1;
    }
    proof {
        assert(identifiers@.take(i as int) =~= identifiers@);
    }
}

/// Writes the specified legal organization: the legal registration identifier and the
/// trading name, absent without both.
#[verifier::spinoff_prover]
#[verifier::rlimit(100)]
pub fn legal_organization(
    s: &mut Serializer<Namespace>,
    entity: &Option<LegalEntity>,
    trading_name: &Option<crate::values::NonEmptyString>,
)
    requires
        old(s).wf(),
    ensures
        spec_restored(*old(s), *final(s)),
        entity is Some || trading_name is Some ==> spec_wrapped(old(s).spec_xml(), final(s).spec_xml(), Namespace::Ram, "SpecifiedLegalOrganization"@),
        !(entity is Some || trading_name is Some) ==> *final(s) == *old(s),
        final(s).spec_xml() == old(s).spec_xml() + spec_legal_organization(*entity, *trading_name),
{
    if entity.is_none() && trading_name.is_none() {
        assert(s.spec_xml() =~= old(s).spec_xml() + Seq::<char>::empty());
        return;
    }
    s.open_structural(Namespace::Ram, "SpecifiedLegalOrganization");
    let ghost opened = *s;
    if let Some(entity) = entity {
        legal_entity_id(s, entity);
    }
    let ghost x1 = s.spec_xml();
    if let Some(name) = trading_name {
        s.field_leaf(Namespace::Ram, "TradingBusinessName", "trading_name", name.as_str());
    }
    assert(spec_restored(opened, *s));
    s.close_wrapper(Namespace::Ram, "SpecifiedLegalOrganization");
    assert(s.spec_xml() =~= old(s).spec_xml() + spec_legal_organization(*entity, *trading_name));
}

/// The legal organization of a party as written: its registration identifier and its trading
/// name, absent without both.
pub open spec fn spec_legal_organization(entity: Option<LegalEntity>, trading_name: Option<crate::values::NonEmptyString>) -> Seq<char> {
    if entity is None && trading_name is None {
        Seq::empty()
    } else {
        spec_group(
            Namespace::Ram,
            "SpecifiedLegalOrganization"@,
            (match entity {
                Some(e) => spec_element(Namespace::Ram, "ID"@, crate::serializer::spec_scheme_attribute(e.issuer), e.id@),
                None => Seq::empty(),
            }) + spec_optional_element(Namespace::Ram, "TradingBusinessName"@, trading_name),
        )
    }
}

/// Writes the legal registration identifier (`BT-30`/`BT-47`/`BT-61`), with its scheme.
#[verifier::spinoff_prover]
#[verifier::rlimit(100)]
pub fn legal_entity_id(s: &mut Serializer<Namespace>, entity: &LegalEntity)
    requires
        old(s).wf(),
    ensures
        spec_restored(*old(s), *final(s)),
        final(s).spec_xml() == old(s).spec_xml() + crate::serializer::spec_element(
            Namespace::Ram,
            "ID"@,
            crate::serializer::spec_scheme_attribute(entity.issuer),
            entity.id@,
        ),
{
    let attributes = scheme_attribute(&entity.issuer);
    assert(crate::token::spec_attributes(attributes@) =~= crate::serializer::spec_scheme_attribute(entity.issuer));
    s.write_field_leaf(Namespace::Ram, "ID", "legal_entity", &attributes, entity.id.as_str());
}

/// Writes a defined trade contact, under the term of the seller contact (`BG-6`).
#[verifier::spinoff_prover]
#[verifier::rlimit(100)]
pub fn contact_group(s: &mut Serializer<Namespace>, contact: &Contact)
    requires
        old(s).wf(),
    ensures
        spec_restored(*old(s), *final(s)),
        !old(s).spec_forbidden().contains(Term::BG(6)) ==> spec_wrapped(old(s).spec_xml(), final(s).spec_xml(), Namespace::Ram, "DefinedTradeContact"@),
        old(s).spec_forbidden().contains(Term::BG(6)) ==> *final(s) == *old(s),
        final(s).spec_xml() == old(s).spec_xml() + spec_cii_contact(*contact, old(s).spec_forbidden()),
{
    if s.open_group(Namespace::Ram, "DefinedTradeContact", "contact", Term::BG(6)) {
        let ghost opened = s.spec_xml();
        if let Some(name) = &contact.name {
            s.field_leaf(Namespace::Ram, "PersonName", "name", name.as_str());
        }
        let ghost x1 = s.spec_xml();
        contact_channels(s, contact);
        s.close_group(Namespace::Ram, "DefinedTradeContact");
        assert(s.spec_xml() =~= old(s).spec_xml() + spec_cii_contact(*contact, old(s).spec_forbidden()));
    } else {
        assert(s.spec_xml() =~= old(s).spec_xml() + Seq::<char>::empty());
    }
}

/// The telephone and the email of a contact as written.
pub open spec fn spec_contact_channels(contact: Contact) -> Seq<char> {
    (match contact.telephone {
        Some(p) => spec_group(
            Namespace::Ram,
            "TelephoneUniversalCommunication"@,
            spec_element(Namespace::Ram, "CompleteNumber"@, Seq::empty(), p@),
        ),
        None => Seq::empty(),
    }) + match contact.email {
        Some(e) => spec_group(
            Namespace::Ram,
            "EmailURIUniversalCommunication"@,
            spec_element(Namespace::Ram, "URIID"@, Seq::empty(), e@),
        ),
        None => Seq::empty(),
    }
}

/// A contact as written (`BG-6`), absent where the profile forbids it.
pub open spec fn spec_cii_contact(contact: Contact, forbidden: Seq<Term>) -> Seq<char> {
    if forbidden.contains(Term::BG(6)) {
        Seq::empty()
    } else {
        spec_group(
            Namespace::Ram,
            "DefinedTradeContact"@,
            spec_optional_element(Namespace::Ram, "PersonName"@, contact.name) + spec_contact_channels(contact),
        )
    }
}

/// Writes the telephone and the email of a contact.
#[verifier::spinoff_prover]
#[verifier::rlimit(100)]
fn contact_channels(s: &mut Serializer<Namespace>, contact: &Contact)
    requires
        old(s).wf(),
    ensures
        spec_restored(*old(s), *final(s)),
        final(s).spec_xml() == old(s).spec_xml() + spec_contact_channels(*contact),
{
    if let Some(phone) = &contact.telephone {
        s.open_structural(Namespace::Ram, "TelephoneUniversalCommunication");
        s.field_leaf(Namespace::Ram, "CompleteNumber", "telephone", phone.as_str());
        s.close_wrapper(Namespace::Ram, "TelephoneUniversalCommunication");
    }
    let ghost x1 = s.spec_xml();
    if let Some(email) = &contact.email {
        s.open_structural(Namespace::Ram, "EmailURIUniversalCommunication");
        s.field_leaf(Namespace::Ram, "URIID", "email", email.as_str());
        s.close_wrapper(Namespace::Ram, "EmailURIUniversalCommunication");
    }
    assert(s.spec_xml() =~= old(s).spec_xml() + spec_contact_channels(*contact));
}

/// Writes a postal trade address, mapped to the address field.
#[verifier::spinoff_prover]
#[verifier::rlimit(100)]
pub fn postal_address(s: &mut Serializer<Namespace>, address: &PostalAddress)
    requires
        old(s).wf(),
    ensures
        spec_restored(*old(s), *final(s)),
        spec_wrapped(old(s).spec_xml(), final(s).spec_xml(), Namespace::Ram, "PostalTradeAddress"@),
        final(s).spec_xml() == old(s).spec_xml() + spec_cii_postal_address(*address),
{
    s.open_field_group(Namespace::Ram, "PostalTradeAddress", "address");
    let ghost opened = s.spec_xml();
    address_lines(s, address);
    address_places(s, address);
    s.close_group(Namespace::Ram, "PostalTradeAddress");
    assert(s.spec_xml() =~= old(s).spec_xml() + spec_cii_postal_address(*address));
}

/// The post code and the street lines of an address as written.
pub open spec fn spec_address_lines(address: PostalAddress) -> Seq<char> {
    spec_optional_element(Namespace::Ram, "PostcodeCode"@, address.postal_code)
        + spec_optional_element(Namespace::Ram, "LineOne"@, address.line1)
        + spec_optional_element(Namespace::Ram, "LineTwo"@, address.line2)
        + spec_optional_element(Namespace::Ram, "LineThree"@, address.line3)
}

/// The city, country and subdivision of an address as written.
pub open spec fn spec_address_places(address: PostalAddress) -> Seq<char> {
    spec_optional_element(Namespace::Ram, "CityName"@, address.city) + (match address.country {
        Some(c) => spec_element(Namespace::Ram, "CountryID"@, Seq::empty(), c@),
        None => Seq::empty(),
    }) + spec_optional_element(Namespace::Ram, "CountrySubDivisionName"@, address.country_subdivision)
}

/// A postal trade address as written.
pub open spec fn spec_cii_postal_address(address: PostalAddress) -> Seq<char> {
    spec_group(Namespace::Ram, "PostalTradeAddress"@, spec_address_lines(address) + spec_address_places(address))
}

/// Writes the post code and the street lines of an address.
#[verifier::spinoff_prover]
#[verifier::rlimit(100)]
fn address_lines(s: &mut Serializer<Namespace>, address: &PostalAddress)
    requires
        old(s).wf(),
    ensures
        spec_restored(*old(s), *final(s)),
        final(s).spec_xml() == old(s).spec_xml() + spec_address_lines(*address),
{
    if let Some(zip) = &address.postal_code {
        s.field_leaf(Namespace::Ram, "PostcodeCode", "postal_code", zip.as_str());
    }
    let ghost x1 = s.spec_xml();
    if let Some(line) = &address.line1 {
        s.field_leaf(Namespace::Ram, "LineOne", "line1", line.as_str());
    }
    let ghost x2 = s.spec_xml();
    if let Some(line) = &address.line2 {
        s.field_leaf(Namespace::Ram, "LineTwo", "line2", line.as_str());
    }
    let ghost x3 = s.spec_xml();
    if let Some(line) = &address.line3 {
        s.field_leaf(Namespace::Ram, "LineThree", "line3", line.as_str());
    }
    assert(s.spec_xml() =~= old(s).spec_xml() + spec_address_lines(*address));
}

/// Writes the city, country and subdivision of an address.
#[verifier::spinoff_prover]
#[verifier::rlimit(100)]
fn address_places(s: &mut Serializer<Namespace>, address: &PostalAddress)
    requires
        old(s).wf(),
    ensures
        spec_restored(*old(s), *final(s)),
        final(s).spec_xml() == old(s).spec_xml() + spec_address_places(*address),
{
    if let Some(city) = &address.city {
        s.field_leaf(Namespace::Ram, "CityName", "city", city.as_str());
    }
    let ghost x1 = s.spec_xml();
    if let Some(country) = &address.country {
        s.field_leaf(Namespace::Ram, "CountryID", "country", country.alpha2());
    }
    let ghost x2 = s.spec_xml();
    if let Some(subdivision) = &address.country_subdivision {
        s.field_leaf(Namespace::Ram, "CountrySubDivisionName", "country_subdivision", subdivision.as_str());
    }
    assert(s.spec_xml() =~= old(s).spec_xml() + spec_address_places(*address));
}

/// Writes a party electronic address (`BT-34`/`BT-49`), absent without its identifier.
#[verifier::spinoff_prover]
#[verifier::rlimit(100)]
pub fn electronic_address(s: &mut Serializer<Namespace>, address: &ElectronicAddress)
    requires
        old(s).wf(),
    ensures
        spec_restored(*old(s), *final(s)),
        address.id is Some ==> spec_wrapped(old(s).spec_xml(), final(s).spec_xml(), Namespace::Ram, "URIUniversalCommunication"@),
        !(address.id is Some) ==> *final(s) == *old(s),
        final(s).spec_xml() == old(s).spec_xml() + spec_electronic_address(*address),
{
    let id = match &address.id {
        Some(id) => id,
        None => {
            assert(s.spec_xml() =~= old(s).spec_xml() + Seq::<char>::empty());
            return;
        },
    };
    s.open_structural(Namespace::Ram, "URIUniversalCommunication");
    let attributes = scheme_attribute(&address.scheme);
    assert(crate::token::spec_attributes(attributes@) =~= crate::serializer::spec_scheme_attribute(address.scheme));
    s.write_field_leaf(Namespace::Ram, "URIID", "electronic_address", &attributes, id.as_str());
    s.close_wrapper(Namespace::Ram, "URIUniversalCommunication");
    assert(s.spec_xml() =~= old(s).spec_xml() + spec_electronic_address(*address));
}

/// A party electronic address as written, when it has an identifier.
pub open spec fn spec_electronic_address(address: ElectronicAddress) -> Seq<char> {
    match address.id {
        Some(id) => spec_group(
            Namespace::Ram,
            "URIUniversalCommunication"@,
            spec_element(Namespace::Ram, "URIID"@, crate::serializer::spec_scheme_attribute(address.scheme), id@),
        ),
        None => Seq::empty(),
    }
}

/// Writes a specified tax registration under a scheme identifier (`VA` or `FC`).
#[verifier::spinoff_prover]
#[verifier::rlimit(100)]
pub fn tax_registration(s: &mut Serializer<Namespace>, id: &str, scheme: &str, field: &'static str)
    requires
        old(s).wf(),
    ensures
        spec_restored(*old(s), *final(s)),
        spec_wrapped(old(s).spec_xml(), final(s).spec_xml(), Namespace::Ram, "SpecifiedTaxRegistration"@),
        final(s).spec_xml() == old(s).spec_xml() + spec_tax_registration(id@, scheme@),
{
    s.open_field_group(Namespace::Ram, "SpecifiedTaxRegistration", field);
    let attributes = attribute("schemeID", scheme);
    assert(crate::token::spec_attributes(attributes@) =~= seq![("schemeID"@, scheme@)]);
    s.write_field_leaf(Namespace::Ram, "ID", field, &attributes, id);
    s.close_group(Namespace::Ram, "SpecifiedTaxRegistration");
}

/// A tax registration as written, under its scheme identifier.
pub open spec fn spec_tax_registration(id: Seq<char>, scheme: Seq<char>) -> Seq<char> {
    spec_group(
        Namespace::Ram,
        "SpecifiedTaxRegistration"@,
        spec_element(Namespace::Ram, "ID"@, seq![("schemeID"@, scheme)], id),
    )
}

/// Writes the header trade delivery (`BG-13`): the ship-to party, the delivery date
/// (`BT-72`) and the despatch and receiving advice references. The wrapper is mandatory in
/// the CII schema, so it is always written, even when empty.
#[verifier::spinoff_prover]
#[verifier::rlimit(100)]
pub fn header_trade_delivery(s: &mut Serializer<Namespace>, invoice: &Invoice)
    requires
        old(s).wf(),
    ensures
        spec_restored(*old(s), *final(s)),
        spec_wrapped(old(s).spec_xml(), final(s).spec_xml(), Namespace::Ram, "ApplicableHeaderTradeDelivery"@),
        final(s).spec_xml() == old(s).spec_xml() + spec_header_trade_delivery(*invoice, old(s).spec_forbidden()),
{
    s.open_structural(Namespace::Ram, "ApplicableHeaderTradeDelivery");
    let ghost opened = *s;
    if let Some(delivery) = &invoice.delivery {
        delivery_details(s, delivery);
    }
    let ghost x1 = s.spec_xml();
    optional_reference(s, "DespatchAdviceReferencedDocument", Term::BT(16), "despatch_advice_reference", &invoice.despatch_advice_reference);
    optional_reference(s, "ReceivingAdviceReferencedDocument", Term::BT(15), "receiving_advice_reference", &invoice.receiving_advice_reference);
    assert(spec_restored(opened, *s));
    s.close_wrapper(Namespace::Ram, "ApplicableHeaderTradeDelivery");
    assert(s.spec_xml() =~= old(s).spec_xml() + spec_header_trade_delivery(*invoice, old(s).spec_forbidden()));
}

/// The ship-to party and the delivery date of a delivery as written.
pub open spec fn spec_delivery_details(delivery: Delivery, forbidden: Seq<Term>) -> Seq<char> {
    spec_delivery_party(delivery, forbidden) + match delivery.date {
        Some(d) => spec_group(
            Namespace::Ram,
            "ActualDeliverySupplyChainEvent"@,
            spec_datetime(forbidden, Term::BT(72), "OccurrenceDateTime"@, Some(d)),
        ),
        None => Seq::empty(),
    }
}

/// The header trade delivery as written: the ship-to party, the delivery date and the
/// despatch and receiving advice references.
pub open spec fn spec_header_trade_delivery(invoice: Invoice, forbidden: Seq<Term>) -> Seq<char> {
    spec_group(
        Namespace::Ram,
        "ApplicableHeaderTradeDelivery"@,
        (match invoice.delivery {
            Some(d) => spec_delivery_details(d, forbidden),
            None => Seq::empty(),
        }) + spec_cii_reference("DespatchAdviceReferencedDocument"@, Term::BT(16), invoice.despatch_advice_reference, forbidden)
            + spec_cii_reference("ReceivingAdviceReferencedDocument"@, Term::BT(15), invoice.receiving_advice_reference, forbidden),
    )
}

/// Writes the ship-to party and the delivery date of a delivery.
#[verifier::spinoff_prover]
#[verifier::rlimit(100)]
fn delivery_details(s: &mut Serializer<Namespace>, delivery: &Delivery)
    requires
        old(s).wf(),
    ensures
        spec_restored(*old(s), *final(s)),
        final(s).spec_xml() == old(s).spec_xml() + spec_delivery_details(*delivery, old(s).spec_forbidden()),
{
    delivery_party(s, delivery);
    let ghost x1 = s.spec_xml();
    if let Some(day) = &delivery.date {
        s.open_structural(Namespace::Ram, "ActualDeliverySupplyChainEvent");
        let ghost inner = *s;
        datetime(s, "OccurrenceDateTime", "date", Term::BT(72), day);
        assert(spec_restored(inner, *s));
        s.close_wrapper(Namespace::Ram, "ActualDeliverySupplyChainEvent");
    }
    assert(s.spec_xml() =~= old(s).spec_xml() + spec_delivery_details(*delivery, old(s).spec_forbidden()));
}

/// Writes the ship-to party of the delivery: its location, name and address, absent
/// without all three.
#[verifier::spinoff_prover]
#[verifier::rlimit(100)]
pub fn delivery_party(s: &mut Serializer<Namespace>, delivery: &Delivery)
    requires
        old(s).wf(),
    ensures
        spec_restored(*old(s), *final(s)),
        (delivery.name is Some || delivery.location is Some || delivery.address is Some) && !old(s).spec_forbidden().contains(Term::BG(13)) ==> spec_wrapped(old(s).spec_xml(), final(s).spec_xml(), Namespace::Ram, "ShipToTradeParty"@),
        !(delivery.name is Some || delivery.location is Some || delivery.address is Some) || old(s).spec_forbidden().contains(Term::BG(13)) ==> *final(s) == *old(s),
        final(s).spec_xml() == old(s).spec_xml() + spec_delivery_party(*delivery, old(s).spec_forbidden()),
{
    if delivery.name.is_none() && delivery.location.is_none() && delivery.address.is_none() {
        assert(s.spec_xml() =~= old(s).spec_xml() + Seq::<char>::empty());
        return;
    }
    if s.open_group(Namespace::Ram, "ShipToTradeParty", "delivery", Term::BG(13)) {
        let ghost opened = s.spec_xml();
        if let Some(location) = &delivery.location {
            if let Some(id) = &location.id {
                let attributes = scheme_attribute(&location.issuer);
                assert(crate::token::spec_attributes(attributes@) =~= crate::serializer::spec_scheme_attribute(location.issuer));
                s.write_field_leaf(Namespace::Ram, "ID", "location", &attributes, id.as_str());
            }
        }
        let ghost x1 = s.spec_xml();
        if let Some(name) = &delivery.name {
            s.field_leaf(Namespace::Ram, "Name", "name", name.as_str());
        }
        let ghost x2 = s.spec_xml();
        if let Some(address) = &delivery.address {
            postal_address(s, address);
        }
        s.close_group(Namespace::Ram, "ShipToTradeParty");
        assert(s.spec_xml() =~= old(s).spec_xml() + spec_delivery_party(*delivery, old(s).spec_forbidden()));
    } else {
        assert(s.spec_xml() =~= old(s).spec_xml() + Seq::<char>::empty());
    }
}

/// The ship-to party of a delivery as written: its location, name and address, absent without
/// all three or where the profile forbids the delivery.
pub open spec fn spec_delivery_party(delivery: Delivery, forbidden: Seq<Term>) -> Seq<char> {
    if !(delivery.name is Some || delivery.location is Some || delivery.address is Some) || forbidden.contains(Term::BG(13)) {
        Seq::empty()
    } else {
        spec_group(
            Namespace::Ram,
            "ShipToTradeParty"@,
            (match delivery.location {
                Some(l) => match l.id {
                    Some(id) => spec_element(Namespace::Ram, "ID"@, crate::serializer::spec_scheme_attribute(l.issuer), id@),
                    None => Seq::empty(),
                },
                None => Seq::empty(),
            }) + spec_optional_element(Namespace::Ram, "Name"@, delivery.name) + match delivery.address {
                Some(a) => spec_cii_postal_address(a),
                None => Seq::empty(),
            },
        )
    }
}

/// The direct debit of a payment, when it is paid by one.
fn direct_debit(payment: &Option<PaymentInstructions>) -> (r: Option<&crate::model::DirectDebit>)
    ensures
        match payment {
            Some(p) => match p.details {
                Some(Details::DirectDebit(d)) => r == Some(&d),
                _ => r is None,
            },
            None => r is None,
        },
{
    match payment {
        Some(p) => match &p.details {
            Some(Details::DirectDebit(debit)) => Some(debit),
            _ => None,
        },
        None => None,
    }
}

/// Writes the header trade settlement: the creditor identifier (`BT-90`), the remittance
/// information (`BT-83`), the currencies (`BT-5`/`BT-6`), the payee, the payment means, the
/// VAT breakdown, the invoicing period, the adjustments, the payment terms, the totals, the
/// preceding invoices and the accounting reference (`BT-19`).
#[verifier::spinoff_prover]
#[verifier::rlimit(100)]
pub fn header_trade_settlement(s: &mut Serializer<Namespace>, invoice: &Invoice)
    requires
        old(s).wf(),
    ensures
        spec_restored(*old(s), *final(s)),
        spec_wrapped(old(s).spec_xml(), final(s).spec_xml(), Namespace::Ram, "ApplicableHeaderTradeSettlement"@),
        final(s).spec_xml() == old(s).spec_xml() + spec_header_trade_settlement(*invoice, old(s).spec_forbidden()),
{
    s.open_structural(Namespace::Ram, "ApplicableHeaderTradeSettlement");
    let ghost opened = *s;
    settlement_front(s, invoice);
    settlement_back(s, invoice);
    assert(spec_restored(opened, *s));
    s.close_wrapper(Namespace::Ram, "ApplicableHeaderTradeSettlement");
    assert(s.spec_xml() =~= old(s).spec_xml() + spec_header_trade_settlement(*invoice, old(s).spec_forbidden()));
}

/// The creditor identifier of the direct debit the invoice is paid by, when it states one.
pub open spec fn spec_creditor(invoice: Invoice) -> Option<Seq<char>> {
    match invoice.payment {
        Some(p) => match p.details {
            Some(Details::DirectDebit(d)) => crate::ubl_read::spec_texts(d.creditor_identifier),
            _ => None,
        },
        None => None,
    }
}

/// The remittance information of the payment, when it states one.
pub open spec fn spec_remittance(invoice: Invoice) -> Option<Seq<char>> {
    match invoice.payment {
        Some(p) => crate::ubl_read::spec_texts(p.remittance_information),
        None => None,
    }
}

/// The creditor identifier, the remittance information and the currencies as written.
pub open spec fn spec_settlement_codes(invoice: Invoice, forbidden: Seq<Term>) -> Seq<char> {
    spec_term_element(forbidden, Term::BT(90), Namespace::Ram, "CreditorReferenceID"@, Seq::empty(), spec_creditor(invoice))
        + spec_term_element(forbidden, Term::BT(83), Namespace::Ram, "PaymentReference"@, Seq::empty(), spec_remittance(invoice))
        + spec_term_element(
        forbidden,
        Term::BT(6),
        Namespace::Ram,
        "TaxCurrencyCode"@,
        Seq::empty(),
        match invoice.vat_accounting_total {
            Some(a) => Some(a.currency@),
            None => None,
        },
    ) + spec_term_element(
        forbidden,
        Term::BT(5),
        Namespace::Ram,
        "InvoiceCurrencyCode"@,
        Seq::empty(),
        match invoice.currency {
            Some(c) => Some(c@),
            None => None,
        },
    )
}

/// The payee and the payment means as written.
pub open spec fn spec_settlement_means(invoice: Invoice, forbidden: Seq<Term>) -> Seq<char> {
    (match invoice.payee {
        Some(p) => spec_cii_payee(p, forbidden),
        None => Seq::empty(),
    }) + match invoice.payment {
        Some(p) => spec_cii_payment_means(p, forbidden),
        None => Seq::empty(),
    }
}

/// The VAT breakdown, the invoicing period, the adjustments and the payment terms as written.
pub open spec fn spec_settlement_terms(invoice: Invoice, forbidden: Seq<Term>) -> Seq<char> {
    spec_breakdown_groups(invoice.vat_breakdown@, forbidden, spec_event_text(invoice.vat_point)) + (match invoice.invoicing_period {
        Some(p) => spec_billing_period(p, Term::BG(14), forbidden),
        None => Seq::empty(),
    }) + spec_cii_adjustments(invoice.adjustments@, forbidden) + spec_cii_payment_terms(invoice, forbidden)
}

/// The totals, the preceding invoices and the accounting reference as written.
pub open spec fn spec_settlement_totals(invoice: Invoice, forbidden: Seq<Term>) -> Seq<char> {
    spec_cii_monetary_summation(invoice, forbidden) + spec_preceding_invoices(invoice.preceding_invoices@, forbidden)
        + match invoice.buyer_accounting_reference {
        Some(r) => spec_accounting_account(r@),
        None => Seq::empty(),
    }
}

/// The header trade settlement as written.
pub open spec fn spec_header_trade_settlement(invoice: Invoice, forbidden: Seq<Term>) -> Seq<char> {
    spec_group(
        Namespace::Ram,
        "ApplicableHeaderTradeSettlement"@,
        spec_settlement_front(invoice, forbidden) + spec_settlement_back(invoice, forbidden),
    )
}

/// The codes, the payee and the payment means as written.
pub open spec fn spec_settlement_front(invoice: Invoice, forbidden: Seq<Term>) -> Seq<char> {
    spec_settlement_codes(invoice, forbidden) + spec_settlement_means(invoice, forbidden)
}

/// The breakdown, the terms and the totals as written.
pub open spec fn spec_settlement_back(invoice: Invoice, forbidden: Seq<Term>) -> Seq<char> {
    spec_settlement_terms(invoice, forbidden) + spec_settlement_totals(invoice, forbidden)
}

/// Writes the codes, the payee and the payment means.
#[verifier::spinoff_prover]
#[verifier::rlimit(100)]
fn settlement_front(s: &mut Serializer<Namespace>, invoice: &Invoice)
    requires
        old(s).wf(),
    ensures
        spec_restored(*old(s), *final(s)),
        final(s).spec_xml() == old(s).spec_xml() + spec_settlement_front(*invoice, old(s).spec_forbidden()),
{
    settlement_codes(s, invoice);
    settlement_means(s, invoice);
    assert(s.spec_xml() =~= old(s).spec_xml() + spec_settlement_front(*invoice, old(s).spec_forbidden()));
}

/// Writes the breakdown, the terms and the totals.
#[verifier::spinoff_prover]
#[verifier::rlimit(100)]
fn settlement_back(s: &mut Serializer<Namespace>, invoice: &Invoice)
    requires
        old(s).wf(),
    ensures
        spec_restored(*old(s), *final(s)),
        final(s).spec_xml() == old(s).spec_xml() + spec_settlement_back(*invoice, old(s).spec_forbidden()),
{
    settlement_terms(s, invoice);
    settlement_totals(s, invoice);
    assert(s.spec_xml() =~= old(s).spec_xml() + spec_settlement_back(*invoice, old(s).spec_forbidden()));
}

/// Writes a leaf, when there is a text and the profile allows its term.
#[verifier::spinoff_prover]
#[verifier::rlimit(100)]
fn optional_text_leaf(s: &mut Serializer<Namespace>, name: &str, field: &'static str, term: Term, value: Option<&str>)
    requires
        old(s).wf(),
    ensures
        spec_restored(*old(s), *final(s)),
        final(s).spec_xml() == old(s).spec_xml() + spec_term_element(
            old(s).spec_forbidden(),
            term,
            Namespace::Ram,
            name@,
            Seq::empty(),
            match value {
                Some(v) => Some(v@),
                None => None,
            },
        ),
{
    if let Some(v) = value {
        s.leaf(Namespace::Ram, name, field, term, v);
    }
    assert(s.spec_xml() =~= old(s).spec_xml() + spec_term_element(
        old(s).spec_forbidden(),
        term,
        Namespace::Ram,
        name@,
        Seq::empty(),
        match value {
            Some(v) => Some(v@),
            None => None,
        },
    ));
}

/// Writes the creditor identifier, the remittance information and the currencies.
#[verifier::spinoff_prover]
#[verifier::rlimit(100)]
fn settlement_codes(s: &mut Serializer<Namespace>, invoice: &Invoice)
    requires
        old(s).wf(),
    ensures
        spec_restored(*old(s), *final(s)),
        final(s).spec_xml() == old(s).spec_xml() + spec_settlement_codes(*invoice, old(s).spec_forbidden()),
{
    let creditor = match direct_debit(&invoice.payment) {
        Some(debit) => match &debit.creditor_identifier {
            Some(c) => Some(c.as_str()),
            None => None,
        },
        None => None,
    };
    let remittance = match &invoice.payment {
        Some(payment) => match &payment.remittance_information {
            Some(r) => Some(r.as_str()),
            None => None,
        },
        None => None,
    };
    let accounting = match &invoice.vat_accounting_total {
        Some(a) => Some(a.currency.code()),
        None => None,
    };
    let currency = match &invoice.currency {
        Some(c) => Some(c.code()),
        None => None,
    };
    optional_text_leaf(s, "CreditorReferenceID", "creditor_identifier", Term::BT(90), creditor);
    optional_text_leaf(s, "PaymentReference", "remittance_information", Term::BT(83), remittance);
    optional_text_leaf(s, "TaxCurrencyCode", "vat_accounting_total", Term::BT(6), accounting);
    optional_text_leaf(s, "InvoiceCurrencyCode", "currency", Term::BT(5), currency);
    assert(s.spec_xml() =~= old(s).spec_xml() + spec_settlement_codes(*invoice, old(s).spec_forbidden()));
}

/// Writes the payee and the payment means.
#[verifier::spinoff_prover]
#[verifier::rlimit(100)]
fn settlement_means(s: &mut Serializer<Namespace>, invoice: &Invoice)
    requires
        old(s).wf(),
    ensures
        spec_restored(*old(s), *final(s)),
        final(s).spec_xml() == old(s).spec_xml() + spec_settlement_means(*invoice, old(s).spec_forbidden()),
{
    if let Some(payee) = &invoice.payee {
        payee_party(s, payee);
    }
    let ghost x1 = s.spec_xml();
    if let Some(payment) = &invoice.payment {
        payment_means(s, payment);
    }
    assert(s.spec_xml() =~= old(s).spec_xml() + spec_settlement_means(*invoice, old(s).spec_forbidden()));
}

/// Writes the VAT breakdown, the invoicing period, the adjustments and the payment terms.
#[verifier::spinoff_prover]
#[verifier::rlimit(100)]
fn settlement_terms(s: &mut Serializer<Namespace>, invoice: &Invoice)
    requires
        old(s).wf(),
    ensures
        spec_restored(*old(s), *final(s)),
        final(s).spec_xml() == old(s).spec_xml() + spec_settlement_terms(*invoice, old(s).spec_forbidden()),
{
    tax_breakdown(s, invoice);
    let ghost x1 = s.spec_xml();
    if let Some(period) = &invoice.invoicing_period {
        billing_period(s, period, "invoicing_period", Term::BG(14));
    }
    let ghost x2 = s.spec_xml();
    adjustments(s, &invoice.adjustments);
    payment_terms(s, invoice);
    assert(s.spec_xml() =~= old(s).spec_xml() + spec_settlement_terms(*invoice, old(s).spec_forbidden()));
}

/// Writes the totals, the preceding invoices and the accounting reference.
#[verifier::spinoff_prover]
#[verifier::rlimit(100)]
fn settlement_totals(s: &mut Serializer<Namespace>, invoice: &Invoice)
    requires
        old(s).wf(),
    ensures
        spec_restored(*old(s), *final(s)),
        final(s).spec_xml() == old(s).spec_xml() + spec_settlement_totals(*invoice, old(s).spec_forbidden()),
{
    monetary_summation(s, invoice);
    preceding_invoices(s, &invoice.preceding_invoices);
    let ghost x2 = s.spec_xml();
    if let Some(reference) = &invoice.buyer_accounting_reference {
        accounting_account(s, reference.as_str());
    }
    assert(s.spec_xml() =~= old(s).spec_xml() + spec_settlement_totals(*invoice, old(s).spec_forbidden()));
}

/// Writes the payee (`BG-10`).
#[verifier::spinoff_prover]
#[verifier::rlimit(100)]
pub fn payee_party(s: &mut Serializer<Namespace>, payee: &Payee)
    requires
        old(s).wf(),
    ensures
        spec_restored(*old(s), *final(s)),
        !old(s).spec_forbidden().contains(Term::BG(10)) ==> spec_wrapped(old(s).spec_xml(), final(s).spec_xml(), Namespace::Ram, "PayeeTradeParty"@),
        old(s).spec_forbidden().contains(Term::BG(10)) ==> *final(s) == *old(s),
        final(s).spec_xml() == old(s).spec_xml() + spec_cii_payee(*payee, old(s).spec_forbidden()),
{
    if s.open_group(Namespace::Ram, "PayeeTradeParty", "payee", Term::BG(10)) {
        let ghost opened = s.spec_xml();
        party_identifiers(s, &payee.identifiers);
        let ghost x1 = s.spec_xml();
        if let Some(name) = &payee.name {
            s.field_leaf(Namespace::Ram, "Name", "name", name.as_str());
        }
        let ghost x2 = s.spec_xml();
        if let Some(entity) = &payee.legal_entity {
            s.open_structural(Namespace::Ram, "SpecifiedLegalOrganization");
            let ghost inner = *s;
            legal_entity_id(s, entity);
            assert(spec_restored(inner, *s));
            s.close_wrapper(Namespace::Ram, "SpecifiedLegalOrganization");
        }
        s.close_group(Namespace::Ram, "PayeeTradeParty");
        assert(s.spec_xml() =~= old(s).spec_xml() + spec_cii_payee(*payee, old(s).spec_forbidden()));
    } else {
        assert(s.spec_xml() =~= old(s).spec_xml() + Seq::<char>::empty());
    }
}

/// The payee as written (`BG-10`), absent where the profile forbids it.
pub open spec fn spec_cii_payee(payee: Payee, forbidden: Seq<Term>) -> Seq<char> {
    if forbidden.contains(Term::BG(10)) {
        Seq::empty()
    } else {
        spec_group(
            Namespace::Ram,
            "PayeeTradeParty"@,
            spec_identifier_elements(payee.identifiers@) + spec_optional_element(Namespace::Ram, "Name"@, payee.name)
                + match payee.legal_entity {
                Some(e) => spec_group(
                    Namespace::Ram,
                    "SpecifiedLegalOrganization"@,
                    spec_element(Namespace::Ram, "ID"@, crate::serializer::spec_scheme_attribute(e.issuer), e.id@),
                ),
                None => Seq::empty(),
            },
        )
    }
}

/// Writes the payment means (`BG-16`): the means code and text, and the card, the debited
/// account or the credit transfer accounts, each recorded against the payment.
#[verifier::spinoff_prover]
#[verifier::rlimit(100)]
pub fn payment_means(s: &mut Serializer<Namespace>, payment: &PaymentInstructions)
    requires
        old(s).wf(),
    ensures
        spec_restored(*old(s), *final(s)),
        !old(s).spec_forbidden().contains(Term::BG(16)) ==> spec_wrapped(old(s).spec_xml(), final(s).spec_xml(), Namespace::Ram, "SpecifiedTradeSettlementPaymentMeans"@),
        old(s).spec_forbidden().contains(Term::BG(16)) ==> *final(s) == *old(s),
        final(s).spec_xml() == old(s).spec_xml() + spec_cii_payment_means(*payment, old(s).spec_forbidden()),
{
    if s.open_group(Namespace::Ram, "SpecifiedTradeSettlementPaymentMeans", "payment", Term::BG(16)) {
        let ghost opened = s.spec_xml();
        let none = none();
        assert(crate::token::spec_attributes(none@) =~= Seq::empty());
        s.derived(Namespace::Ram, "TypeCode", &none, payment.means.as_str());
        let ghost x1 = s.spec_xml();
        if let Some(text) = &payment.means_text {
            s.derived(Namespace::Ram, "Information", &none, text.as_str());
        }
        let ghost x2 = s.spec_xml();
        means_details(s, &payment.details);
        s.close_group(Namespace::Ram, "SpecifiedTradeSettlementPaymentMeans");
        assert(s.spec_xml() =~= old(s).spec_xml() + spec_cii_payment_means(*payment, old(s).spec_forbidden()));
    } else {
        assert(s.spec_xml() =~= old(s).spec_xml() + Seq::<char>::empty());
    }
}

/// One payee account as written: the account and its name, then its provider.
pub open spec fn spec_cii_transfer(transfer: crate::model::CreditTransfer) -> Seq<char> {
    spec_group(
        Namespace::Ram,
        "PayeePartyCreditorFinancialAccount"@,
        spec_element(Namespace::Ram, "IBANID"@, Seq::empty(), transfer.account@)
            + spec_optional_element(Namespace::Ram, "AccountName"@, transfer.account_name),
    ) + match transfer.provider {
        Some(p) => spec_group(
            Namespace::Ram,
            "PayeeSpecifiedCreditorFinancialInstitution"@,
            spec_element(Namespace::Ram, "BICID"@, Seq::empty(), p@),
        ),
        None => Seq::empty(),
    }
}

/// The payee accounts as written, one after the other.
pub open spec fn spec_cii_transfers(transfers: Seq<crate::model::CreditTransfer>) -> Seq<char>
    decreases transfers.len(),
{
    if transfers.len() == 0 {
        Seq::empty()
    } else {
        spec_cii_transfers(transfers.drop_last()) + spec_cii_transfer(transfers.last())
    }
}

/// The details of a payment means as written: the card, the debited account or the payee
/// accounts.
pub open spec fn spec_cii_means_details(details: Option<Details>) -> Seq<char> {
    match details {
        Some(Details::Card(card)) => spec_group(
            Namespace::Ram,
            "ApplicableTradeSettlementFinancialCard"@,
            spec_element(Namespace::Ram, "ID"@, Seq::empty(), card.primary_account_number@)
                + spec_optional_element(Namespace::Ram, "CardholderName"@, card.holder_name),
        ),
        Some(Details::DirectDebit(debit)) => match debit.debited_account {
            Some(a) => spec_group(
                Namespace::Ram,
                "PayerPartyDebtorFinancialAccount"@,
                spec_element(Namespace::Ram, "IBANID"@, Seq::empty(), a@),
            ),
            None => Seq::empty(),
        },
        Some(Details::CreditTransfers(transfers)) => spec_cii_transfers(transfers@),
        None => Seq::empty(),
    }
}

/// The payment means as written (`BG-16`), absent where the profile forbids it.
pub open spec fn spec_cii_payment_means(payment: PaymentInstructions, forbidden: Seq<Term>) -> Seq<char> {
    if forbidden.contains(Term::BG(16)) {
        Seq::empty()
    } else {
        spec_group(
            Namespace::Ram,
            "SpecifiedTradeSettlementPaymentMeans"@,
            spec_element(Namespace::Ram, "TypeCode"@, Seq::empty(), payment.means@)
                + spec_optional_element(Namespace::Ram, "Information"@, payment.means_text)
                + spec_cii_means_details(payment.details),
        )
    }
}

/// Writes the details of a payment means: the card, the debited account or the payee accounts.
#[verifier::spinoff_prover]
#[verifier::rlimit(100)]
fn means_details(s: &mut Serializer<Namespace>, details: &Option<Details>)
    requires
        old(s).wf(),
    ensures
        spec_restored(*old(s), *final(s)),
        final(s).spec_xml() == old(s).spec_xml() + spec_cii_means_details(*details),
{
    let none = none();
    assert(crate::token::spec_attributes(none@) =~= Seq::empty());
    match details {
        Some(Details::Card(card)) => {
            s.open_nested(Namespace::Ram, "ApplicableTradeSettlementFinancialCard");
            let ghost opened = *s;
            s.derived(Namespace::Ram, "ID", &none, card.primary_account_number.as_str());
            let ghost x1 = s.spec_xml();
            if let Some(holder) = &card.holder_name {
                s.derived(Namespace::Ram, "CardholderName", &none, holder.as_str());
            }
            assert(spec_restored(opened, *s));
            s.close_wrapper(Namespace::Ram, "ApplicableTradeSettlementFinancialCard");
            assert(s.spec_xml() =~= old(s).spec_xml() + spec_cii_means_details(*details));
        },
        Some(Details::DirectDebit(debit)) => {
            if let Some(account) = &debit.debited_account {
                s.open_nested(Namespace::Ram, "PayerPartyDebtorFinancialAccount");
                s.derived(Namespace::Ram, "IBANID", &none, account.as_str());
                s.close_wrapper(Namespace::Ram, "PayerPartyDebtorFinancialAccount");
            }
            assert(s.spec_xml() =~= old(s).spec_xml() + spec_cii_means_details(*details));
        },
        Some(Details::CreditTransfers(transfers)) => {
            let mut i: usize = 0;
            while i < transfers.len()
                invariant
                    i <= transfers@.len(),
                    old(s).wf(),
                    spec_restored(*old(s), *s),
                    s.spec_xml() == old(s).spec_xml() + spec_cii_transfers(transfers@.take(i as int)),
                decreases transfers@.len() - i,
            {
                credit_transfer(s, &transfers[i]);
                proof {
                    let done = transfers@.take(i + 1);
                    assert(done.drop_last() =~= transfers@.take(i as int));
                    assert(s.spec_xml() =~= old(s).spec_xml() + spec_cii_transfers(done));
                }
                i = i + 1;
            }
            assert(transfers@.take(i as int) =~= transfers@);
        },
        None => {
            assert(s.spec_xml() =~= old(s).spec_xml() + Seq::<char>::empty());
        },
    }
}

/// Writes one payee account and its provider.
#[verifier::spinoff_prover]
#[verifier::rlimit(100)]
fn credit_transfer(s: &mut Serializer<Namespace>, transfer: &crate::model::CreditTransfer)
    requires
        old(s).wf(),
    ensures
        spec_restored(*old(s), *final(s)),
        final(s).spec_xml() == old(s).spec_xml() + spec_cii_transfer(*transfer),
{
    let none = none();
    assert(crate::token::spec_attributes(none@) =~= Seq::empty());
    s.open_nested(Namespace::Ram, "PayeePartyCreditorFinancialAccount");
    let ghost opened = *s;
    s.derived(Namespace::Ram, "IBANID", &none, transfer.account.as_str());
    let ghost x1 = s.spec_xml();
    if let Some(name) = &transfer.account_name {
        s.derived(Namespace::Ram, "AccountName", &none, name.as_str());
    }
    assert(spec_restored(opened, *s));
    s.close_wrapper(Namespace::Ram, "PayeePartyCreditorFinancialAccount");
    let ghost x2 = s.spec_xml();
    if let Some(provider) = &transfer.provider {
        s.open_nested(Namespace::Ram, "PayeeSpecifiedCreditorFinancialInstitution");
        s.derived(Namespace::Ram, "BICID", &none, provider.as_str());
        s.close_wrapper(Namespace::Ram, "PayeeSpecifiedCreditorFinancialInstitution");
    }
    assert(s.spec_xml() =~= old(s).spec_xml() + spec_cii_transfer(*transfer));
}

/// Writes the VAT breakdown (`BG-23`), each group an instance mapped to its own fields,
/// with the VAT point date code (`BT-8`) in each group.
#[verifier::spinoff_prover]
#[verifier::rlimit(100)]
pub fn tax_breakdown(s: &mut Serializer<Namespace>, invoice: &Invoice)
    requires
        old(s).wf(),
    ensures
        spec_restored(*old(s), *final(s)),
        spec_wrapped_each(
            old(s).spec_xml(),
            final(s).spec_xml(),
            Namespace::Ram,
            "ApplicableTradeTax"@,
            if old(s).spec_forbidden().contains(Term::BG(23)) { 0 } else { invoice.vat_breakdown@.len() },
        ),
        final(s).spec_xml() == old(s).spec_xml() + spec_breakdown_groups(
            invoice.vat_breakdown@,
            old(s).spec_forbidden(),
            spec_event_text(invoice.vat_point),
        ),
{
    let event = match &invoice.vat_point {
        Some(VatPoint::Event(code)) => Some(decimal_text(*code as u128)),
        _ => None,
    };
    let breakdown = &invoice.vat_breakdown;
    let mut i: usize = 0;
    while i < breakdown.len()
        invariant
            i <= breakdown@.len(),
            s.wf(),
            spec_string_text(event) == spec_event_text(invoice.vat_point),
            spec_restored(*old(s), *s),
            spec_wrapped_each(old(s).spec_xml(), s.spec_xml(), Namespace::Ram, "ApplicableTradeTax"@, if old(s).spec_forbidden().contains(Term::BG(23)) { 0 } else { i as nat }),
            s.spec_xml() == old(s).spec_xml() + spec_breakdown_groups(breakdown@.take(i as int), old(s).spec_forbidden(), spec_event_text(invoice.vat_point)),
        decreases breakdown@.len() - i,
    {
        let ghost previous = s.spec_xml();
        breakdown_group(s, &breakdown[i], i + 1, &event);
        proof {
            if !old(s).spec_forbidden().contains(Term::BG(23)) {
                assert(spec_wrapped(previous, s.spec_xml(), Namespace::Ram, "ApplicableTradeTax"@));
            }
            let done = breakdown@.take(i + 1);
            assert(done.drop_last() =~= breakdown@.take(i as int));
            assert(done.last() == breakdown@[i as int]);
            assert(s.spec_xml() =~= old(s).spec_xml() + spec_breakdown_groups(done, old(s).spec_forbidden(), spec_event_text(invoice.vat_point)));
        }
        i = i + 1;
    }
    assert(breakdown@.take(i as int) =~= breakdown@);
}

/// The event code of the VAT point as written (`BT-8`), when the point is one.
pub open spec fn spec_event_text(point: Option<VatPoint>) -> Option<Seq<char>> {
    match point {
        Some(VatPoint::Event(code)) => Some(spec_decimal(code as nat)),
        _ => None,
    }
}

/// The exemption text of a treatment, when it is an exempt one that states it.
pub open spec fn spec_exempt_text(treatment: Option<VatTreatment>) -> Option<Seq<char>> {
    match treatment {
        Some(VatTreatment::Exempt { text: Some(t), .. }) => Some(t@),
        _ => None,
    }
}

/// The exemption reason code of a treatment, when it is an exempt one that states it.
pub open spec fn spec_exempt_code(treatment: Option<VatTreatment>) -> Option<Seq<char>> {
    match treatment {
        Some(VatTreatment::Exempt { code: Some(c), .. }) => Some(crate::exemption_reason::spec_exemption_code(c)),
        _ => None,
    }
}

/// The category code and the rate of an optional treatment, as written.
pub open spec fn spec_treatment_texts(treatment: Option<VatTreatment>) -> (Option<Seq<char>>, Option<Seq<char>>) {
    match treatment {
        Some(t) => (
            Some(crate::vat::spec_category_code(crate::vat::spec_category(t))),
            Some(crate::decimal::spec_decimal_text(crate::vat::spec_rate(t))),
        ),
        None => (None, None),
    }
}

/// The first children of a group of the VAT breakdown as written: the VAT amount, the type
/// code, the exemption text and the taxable amount.
pub open spec fn spec_breakdown_head(group: VatBreakdown, forbidden: Seq<Term>) -> Seq<char> {
    crate::serializer::spec_term_element(forbidden, Term::BT(117), Namespace::Ram, "CalculatedAmount"@, Seq::empty(), spec_money_text(group.tax))
        + crate::serializer::spec_element(Namespace::Ram, "TypeCode"@, Seq::empty(), "VAT"@)
        + crate::serializer::spec_text_element(Namespace::Ram, "ExemptionReason"@, spec_exempt_text(group.treatment))
        + crate::serializer::spec_term_element(forbidden, Term::BT(116), Namespace::Ram, "BasisAmount"@, Seq::empty(), spec_money_text(group.taxable))
}

/// The last children of a group of the VAT breakdown as written: the category code, the
/// exemption code, the VAT point date code and the rate.
pub open spec fn spec_breakdown_tail(group: VatBreakdown, event: Option<Seq<char>>) -> Seq<char> {
    crate::serializer::spec_text_element(Namespace::Ram, "CategoryCode"@, spec_treatment_texts(group.treatment).0)
        + crate::serializer::spec_text_element(Namespace::Ram, "ExemptionReasonCode"@, spec_exempt_code(group.treatment))
        + crate::serializer::spec_text_element(Namespace::Ram, "DueDateTypeCode"@, event)
        + crate::serializer::spec_text_element(Namespace::Ram, "RateApplicablePercent"@, spec_treatment_texts(group.treatment).1)
}

/// A group of the VAT breakdown as written, nothing when the profile forbids the breakdown.
pub open spec fn spec_breakdown_group(group: VatBreakdown, forbidden: Seq<Term>, event: Option<Seq<char>>) -> Seq<char> {
    if forbidden.contains(Term::BG(23)) {
        Seq::empty()
    } else {
        crate::serializer::spec_group(
            Namespace::Ram,
            "ApplicableTradeTax"@,
            spec_breakdown_head(group, forbidden) + spec_breakdown_tail(group, event),
        )
    }
}

/// The groups of the VAT breakdown as written, one after the other.
pub open spec fn spec_breakdown_groups(groups: Seq<VatBreakdown>, forbidden: Seq<Term>, event: Option<Seq<char>>) -> Seq<char>
    decreases groups.len(),
{
    if groups.len() == 0 {
        Seq::empty()
    } else {
        spec_breakdown_groups(groups.drop_last(), forbidden, event) + spec_breakdown_group(groups.last(), forbidden, event)
    }
}

/// The text of an optional string.
pub open spec fn spec_string_text(value: Option<String>) -> Option<Seq<char>> {
    match value {
        Some(v) => Some(v@),
        None => None,
    }
}

// Writes the first children of a group of the VAT breakdown.
#[verifier::spinoff_prover]
#[verifier::rlimit(100)]
fn breakdown_head(s: &mut Serializer<Namespace>, group: &VatBreakdown)
    requires
        old(s).wf(),
    ensures
        spec_restored(*old(s), *final(s)),
        final(s).spec_xml() == old(s).spec_xml() + spec_breakdown_head(*group, old(s).spec_forbidden()),
{
    let none = none();
    assert(crate::token::spec_attributes(none@) =~= Seq::empty());
    let ghost x0 = s.spec_xml();
    if let Some(tax) = &group.tax {
        let value = money(tax);
        s.leaf(Namespace::Ram, "CalculatedAmount", "tax", Term::BT(117), value.as_str());
    }
    s.derived(Namespace::Ram, "TypeCode", &none, "VAT");
    if let Some(VatTreatment::Exempt { text: Some(text), .. }) = &group.treatment {
        s.field_leaf(Namespace::Ram, "ExemptionReason", "treatment", text.as_str());
    }
    if let Some(taxable) = &group.taxable {
        let value = money(taxable);
        s.leaf(Namespace::Ram, "BasisAmount", "taxable", Term::BT(116), value.as_str());
    }
    assert(s.spec_xml() =~= x0 + spec_breakdown_head(*group, old(s).spec_forbidden()));
}

// Writes the last children of a group of the VAT breakdown.
#[verifier::spinoff_prover]
#[verifier::rlimit(100)]
fn breakdown_tail(s: &mut Serializer<Namespace>, group: &VatBreakdown, event: &Option<String>)
    requires
        old(s).wf(),
    ensures
        spec_restored(*old(s), *final(s)),
        final(s).spec_xml() == old(s).spec_xml() + spec_breakdown_tail(*group, spec_string_text(*event)),
{
    let none = none();
    assert(crate::token::spec_attributes(none@) =~= Seq::empty());
    let ghost x0 = s.spec_xml();
    if let Some(treatment) = &group.treatment {
        s.field_leaf(Namespace::Ram, "CategoryCode", "treatment", treatment.category().code());
    }
    if let Some(VatTreatment::Exempt { code: Some(code), .. }) = &group.treatment {
        s.field_leaf(Namespace::Ram, "ExemptionReasonCode", "treatment", code.as_str());
    }
    if let Some(code) = event {
        s.derived(Namespace::Ram, "DueDateTypeCode", &none, code.as_str());
    }
    if let Some(treatment) = &group.treatment {
        let rate = treatment.rate().to_string();
        s.field_leaf(Namespace::Ram, "RateApplicablePercent", "treatment", rate.as_str());
    }
    assert(s.spec_xml() =~= x0 + spec_breakdown_tail(*group, spec_string_text(*event)));
}

/// Writes one group of the VAT breakdown (`BG-23`).
#[verifier::spinoff_prover]
#[verifier::rlimit(100)]
pub fn breakdown_group(s: &mut Serializer<Namespace>, group: &VatBreakdown, instance: usize, event: &Option<String>)
    requires
        old(s).wf(),
    ensures
        spec_restored(*old(s), *final(s)),
        !old(s).spec_forbidden().contains(Term::BG(23)) ==> spec_wrapped(old(s).spec_xml(), final(s).spec_xml(), Namespace::Ram, "ApplicableTradeTax"@),
        old(s).spec_forbidden().contains(Term::BG(23)) ==> *final(s) == *old(s),
        final(s).spec_xml() == old(s).spec_xml() + spec_breakdown_group(*group, old(s).spec_forbidden(), spec_string_text(*event)),
{
    if s.open_repeatable(Namespace::Ram, "ApplicableTradeTax", "vat_breakdown", Term::BG(23), instance) {
        let ghost opened = s.spec_xml();
        breakdown_head(s, group);
        breakdown_tail(s, group, event);
        s.close_group(Namespace::Ram, "ApplicableTradeTax");
        assert(s.spec_xml() =~= old(s).spec_xml() + spec_breakdown_group(*group, old(s).spec_forbidden(), spec_string_text(*event)));
    } else {
        assert(s.spec_xml() =~= old(s).spec_xml() + Seq::<char>::empty());
    }
}

/// Writes the document-level allowances (`BG-20`) and charges (`BG-21`).
#[verifier::spinoff_prover]
#[verifier::rlimit(100)]
pub fn adjustments(s: &mut Serializer<Namespace>, adjustments: &Vec<Adjustment>)
    requires
        old(s).wf(),
    ensures
        spec_restored(*old(s), *final(s)),
        !old(s).spec_forbidden().contains(Term::BG(20)) && !old(s).spec_forbidden().contains(Term::BG(21)) ==> spec_wrapped_each(
            old(s).spec_xml(),
            final(s).spec_xml(),
            Namespace::Ram,
            "SpecifiedTradeAllowanceCharge"@,
            adjustments@.len(),
        ),
        final(s).spec_xml() == old(s).spec_xml() + spec_cii_adjustments(adjustments@, old(s).spec_forbidden()),
{
    let mut i: usize = 0;
    while i < adjustments.len()
        invariant
            i <= adjustments@.len(),
            old(s).wf(),
            spec_restored(*old(s), *s),
            !old(s).spec_forbidden().contains(Term::BG(20)) && !old(s).spec_forbidden().contains(Term::BG(21)) ==> spec_wrapped_each(old(s).spec_xml(), s.spec_xml(), Namespace::Ram, "SpecifiedTradeAllowanceCharge"@, i as nat),
            s.spec_xml() == old(s).spec_xml() + spec_cii_adjustments(adjustments@.take(i as int), old(s).spec_forbidden()),
        decreases adjustments@.len() - i,
    {
        let ghost previous = s.spec_xml();
        document_adjustment(s, &adjustments[i], i + 1);
        proof {
            if !old(s).spec_forbidden().contains(Term::BG(20)) && !old(s).spec_forbidden().contains(Term::BG(21)) {
                assert(spec_wrapped(previous, s.spec_xml(), Namespace::Ram, "SpecifiedTradeAllowanceCharge"@));
            }
            let done = adjustments@.take(i + 1);
            assert(done.drop_last() =~= adjustments@.take(i as int));
            assert(s.spec_xml() =~= old(s).spec_xml() + spec_cii_adjustments(done, old(s).spec_forbidden()));
        }
        i = i + 1;
    }
    assert(adjustments@.take(i as int) =~= adjustments@);
}

/// One document allowance or charge as written, absent where the profile forbids its term.
pub open spec fn spec_cii_adjustment(adjustment: Adjustment, forbidden: Seq<Term>) -> Seq<char> {
    if forbidden.contains(crate::ubl_write::spec_adjustment_term(adjustment)) {
        Seq::empty()
    } else {
        spec_group(
            Namespace::Ram,
            "SpecifiedTradeAllowanceCharge"@,
            spec_indicator(adjustment.reason is Charge) + spec_cii_adjustment_amount(adjustment.amount)
                + spec_cii_reason(adjustment.reason) + spec_group(Namespace::Ram, "CategoryTradeTax"@, spec_trade_tax(adjustment.vat)),
        )
    }
}

/// The document allowances and charges as written, one after the other.
pub open spec fn spec_cii_adjustments(adjustments: Seq<Adjustment>, forbidden: Seq<Term>) -> Seq<char>
    decreases adjustments.len(),
{
    if adjustments.len() == 0 {
        Seq::empty()
    } else {
        spec_cii_adjustments(adjustments.drop_last(), forbidden) + spec_cii_adjustment(adjustments.last(), forbidden)
    }
}

/// Writes one document allowance or charge, unless the profile forbids its term.
#[verifier::spinoff_prover]
#[verifier::rlimit(100)]
fn document_adjustment(s: &mut Serializer<Namespace>, adjustment: &Adjustment, instance: usize)
    requires
        old(s).wf(),
    ensures
        spec_restored(*old(s), *final(s)),
        !old(s).spec_forbidden().contains(crate::ubl_write::spec_adjustment_term(*adjustment)) ==> spec_wrapped(old(s).spec_xml(), final(s).spec_xml(), Namespace::Ram, "SpecifiedTradeAllowanceCharge"@),
        final(s).spec_xml() == old(s).spec_xml() + spec_cii_adjustment(*adjustment, old(s).spec_forbidden()),
{
    let charge = matches!(adjustment.reason, Reason::Charge { .. });
    let term = if charge { Term::BG(21) } else { Term::BG(20) };
    if s.open_repeatable(Namespace::Ram, "SpecifiedTradeAllowanceCharge", "adjustments", term, instance) {
        let ghost opened = s.spec_xml();
        indicator(s, charge);
        adjustment_amount(s, &adjustment.amount);
        adjustment_reason(s, &adjustment.reason);
        let ghost reasoned = s.spec_xml();
        category_trade_tax(s, &adjustment.vat);
        s.close_group(Namespace::Ram, "SpecifiedTradeAllowanceCharge");
        assert(s.spec_xml() =~= old(s).spec_xml() + spec_cii_adjustment(*adjustment, old(s).spec_forbidden()));
    } else {
        assert(s.spec_xml() =~= old(s).spec_xml() + Seq::<char>::empty());
    }
}

/// Writes the VAT of an adjustment as its category trade tax.
#[verifier::spinoff_prover]
#[verifier::rlimit(100)]
fn category_trade_tax(s: &mut Serializer<Namespace>, vat: &VatTreatment)
    requires
        old(s).wf(),
    ensures
        spec_restored(*old(s), *final(s)),
        final(s).spec_xml() == old(s).spec_xml() + spec_group(Namespace::Ram, "CategoryTradeTax"@, spec_trade_tax(*vat)),
{
    s.open_nested(Namespace::Ram, "CategoryTradeTax");
    let ghost opened = *s;
    trade_tax(s, vat);
    assert(spec_restored(opened, *s));
    s.close_wrapper(Namespace::Ram, "CategoryTradeTax");
    assert(s.spec_xml() =~= old(s).spec_xml() + spec_group(Namespace::Ram, "CategoryTradeTax"@, spec_trade_tax(*vat)));
}

/// Writes the payment terms (`BT-20`), the due date (`BT-9`) and the mandate reference
/// (`BT-89`), absent without all three.
#[verifier::spinoff_prover]
#[verifier::rlimit(100)]
pub fn payment_terms(s: &mut Serializer<Namespace>, invoice: &Invoice)
    requires
        old(s).wf(),
    ensures
        spec_restored(*old(s), *final(s)),
        spec_terms_written(*invoice) ==> spec_wrapped(old(s).spec_xml(), final(s).spec_xml(), Namespace::Ram, "SpecifiedTradePaymentTerms"@),
        !spec_terms_written(*invoice) ==> *final(s) == *old(s),
        final(s).spec_xml() == old(s).spec_xml() + spec_cii_payment_terms(*invoice, old(s).spec_forbidden()),
{
    let mandate = match direct_debit(&invoice.payment) {
        Some(debit) => match &debit.mandate_reference {
            Some(m) => Some(m),
            None => None,
        },
        None => None,
    };
    assert(match mandate {
        Some(m) => spec_mandate(*invoice) == Some(m@),
        None => spec_mandate(*invoice) is None,
    });
    if invoice.payment_terms.is_none() && invoice.payment_due_date.is_none() && mandate.is_none() {
        assert(s.spec_xml() =~= old(s).spec_xml() + Seq::<char>::empty());
        return;
    }
    s.open_structural(Namespace::Ram, "SpecifiedTradePaymentTerms");
    let ghost opened = *s;
    if let Some(terms) = &invoice.payment_terms {
        s.field_leaf(Namespace::Ram, "Description", "payment_terms", terms.as_str());
    }
    let ghost x1 = s.spec_xml();
    if let Some(due) = &invoice.payment_due_date {
        datetime(s, "DueDateDateTime", "payment_due_date", Term::BT(9), due);
    }
    let ghost x2 = s.spec_xml();
    if let Some(reference) = mandate {
        s.field_leaf(Namespace::Ram, "DirectDebitMandateID", "mandate_reference", reference.as_str());
    }
    assert(spec_restored(opened, *s));
    s.close_wrapper(Namespace::Ram, "SpecifiedTradePaymentTerms");
    assert(s.spec_xml() =~= old(s).spec_xml() + spec_cii_payment_terms(*invoice, old(s).spec_forbidden()));
}

/// The mandate reference of the direct debit the invoice is paid by, when it states one.
pub open spec fn spec_mandate(invoice: Invoice) -> Option<Seq<char>> {
    match invoice.payment {
        Some(p) => match p.details {
            Some(Details::DirectDebit(d)) => crate::ubl_read::spec_texts(d.mandate_reference),
            _ => None,
        },
        None => None,
    }
}

/// Whether the payment terms group is written: the invoice states payment terms, a due date or
/// a mandate reference.
pub open spec fn spec_terms_written(invoice: Invoice) -> bool {
    invoice.payment_terms is Some || invoice.payment_due_date is Some || spec_mandate(invoice) is Some
}

/// The payment terms as written: the terms, the due date and the mandate reference, absent
/// without all three.
pub open spec fn spec_cii_payment_terms(invoice: Invoice, forbidden: Seq<Term>) -> Seq<char> {
    if !spec_terms_written(invoice) {
        Seq::empty()
    } else {
        spec_group(
            Namespace::Ram,
            "SpecifiedTradePaymentTerms"@,
            spec_optional_element(Namespace::Ram, "Description"@, invoice.payment_terms)
                + spec_datetime(forbidden, Term::BT(9), "DueDateDateTime"@, invoice.payment_due_date)
                + crate::serializer::spec_text_element(Namespace::Ram, "DirectDebitMandateID"@, spec_mandate(invoice)),
        )
    }
}

/// The text of an optional amount, rounded to two places.
pub open spec fn spec_money_text(value: Option<Decimal>) -> Option<Seq<char>> {
    match value {
        Some(v) => Some(crate::ubl_write::spec_money(v@)),
        None => None,
    }
}

/// The first amounts of the monetary summation as written, up to the tax basis, each when the
/// invoice states it and the profile allows its term.
pub open spec fn spec_cii_summation_head(invoice: Invoice, forbidden: Seq<Term>) -> Seq<char> {
    let none = Seq::<(Seq<char>, Seq<char>)>::empty();
    crate::serializer::spec_term_element(forbidden, Term::BT(106), Namespace::Ram, "LineTotalAmount"@, none, spec_money_text(invoice.line_net_total))
        + crate::serializer::spec_term_element(forbidden, Term::BT(108), Namespace::Ram, "ChargeTotalAmount"@, none, spec_money_text(invoice.charges_total))
        + crate::serializer::spec_term_element(forbidden, Term::BT(107), Namespace::Ram, "AllowanceTotalAmount"@, none, spec_money_text(invoice.allowances_total))
        + crate::serializer::spec_term_element(forbidden, Term::BT(109), Namespace::Ram, "TaxBasisTotalAmount"@, none, spec_money_text(invoice.net_total))
}

/// The last amounts of the monetary summation as written, from the VAT total on, each when the
/// invoice states it and the profile allows its term; the VAT total carries the invoice currency.
pub open spec fn spec_cii_summation_tail(invoice: Invoice, forbidden: Seq<Term>) -> Seq<char> {
    let currency = match invoice.currency {
        Some(c) => seq![("currencyID"@, c@)],
        None => Seq::<(Seq<char>, Seq<char>)>::empty(),
    };
    crate::serializer::spec_term_element(forbidden, Term::BT(110), Namespace::Ram, "TaxTotalAmount"@, currency, spec_money_text(invoice.vat_total))
        + spec_cii_payable(invoice, forbidden)
}

/// The rounding, grand total, prepaid and due amounts of the monetary summation as written.
pub open spec fn spec_cii_payable(invoice: Invoice, forbidden: Seq<Term>) -> Seq<char> {
    let none = Seq::<(Seq<char>, Seq<char>)>::empty();
    crate::serializer::spec_term_element(forbidden, Term::BT(114), Namespace::Ram, "RoundingAmount"@, none, spec_money_text(invoice.rounding))
        + crate::serializer::spec_term_element(forbidden, Term::BT(112), Namespace::Ram, "GrandTotalAmount"@, none, spec_money_text(invoice.gross_total))
        + crate::serializer::spec_term_element(forbidden, Term::BT(113), Namespace::Ram, "TotalPrepaidAmount"@, none, spec_money_text(invoice.paid))
        + crate::serializer::spec_term_element(forbidden, Term::BT(115), Namespace::Ram, "DuePayableAmount"@, none, spec_money_text(invoice.due))
}

/// The amounts of the monetary summation as written.
pub open spec fn spec_cii_summation(invoice: Invoice, forbidden: Seq<Term>) -> Seq<char> {
    spec_cii_summation_head(invoice, forbidden) + spec_cii_summation_tail(invoice, forbidden)
}

/// Writes the first amounts of the monetary summation, up to the tax basis.
#[verifier::spinoff_prover]
#[verifier::rlimit(100)]
fn summation_head(s: &mut Serializer<Namespace>, invoice: &Invoice)
    requires
        old(s).wf(),
    ensures
        spec_restored(*old(s), *final(s)),
        final(s).spec_xml() == old(s).spec_xml() + spec_cii_summation_head(*invoice, old(s).spec_forbidden()),
{
    let none = none();
    assert(crate::token::spec_attributes(none@) =~= Seq::empty());
    let ghost x0 = s.spec_xml();
    summation_amount(s, "LineTotalAmount", "line_net_total", Term::BT(106), &none, &invoice.line_net_total);
    summation_amount(s, "ChargeTotalAmount", "charges_total", Term::BT(108), &none, &invoice.charges_total);
    summation_amount(s, "AllowanceTotalAmount", "allowances_total", Term::BT(107), &none, &invoice.allowances_total);
    summation_amount(s, "TaxBasisTotalAmount", "net_total", Term::BT(109), &none, &invoice.net_total);
    assert(s.spec_xml() =~= x0 + spec_cii_summation_head(*invoice, old(s).spec_forbidden()));
}

/// Writes the last amounts of the monetary summation, from the VAT total on.
#[verifier::rlimit(100)]
#[verifier::spinoff_prover]
fn summation_tail(s: &mut Serializer<Namespace>, invoice: &Invoice)
    requires
        old(s).wf(),
    ensures
        spec_restored(*old(s), *final(s)),
        final(s).spec_xml() == old(s).spec_xml() + spec_cii_summation_tail(*invoice, old(s).spec_forbidden()),
{
    let currency = match &invoice.currency {
        Some(c) => attribute("currencyID", c.code()),
        None => Vec::new(),
    };
    assert(crate::token::spec_attributes(currency@) =~= match invoice.currency {
        Some(c) => seq![("currencyID"@, c@)],
        None => Seq::<(Seq<char>, Seq<char>)>::empty(),
    });
    let ghost x0 = s.spec_xml();
    summation_amount(s, "TaxTotalAmount", "vat_total", Term::BT(110), &currency, &invoice.vat_total);
    summation_payable(s, invoice);
    assert(s.spec_xml() =~= x0 + spec_cii_summation_tail(*invoice, old(s).spec_forbidden()));
}

/// Writes the rounding, grand total, prepaid and due amounts of the monetary summation.
#[verifier::spinoff_prover]
#[verifier::rlimit(100)]
fn summation_payable(s: &mut Serializer<Namespace>, invoice: &Invoice)
    requires
        old(s).wf(),
    ensures
        spec_restored(*old(s), *final(s)),
        final(s).spec_xml() == old(s).spec_xml() + spec_cii_payable(*invoice, old(s).spec_forbidden()),
{
    let none = none();
    assert(crate::token::spec_attributes(none@) =~= Seq::empty());
    let ghost x0 = s.spec_xml();
    summation_amount(s, "RoundingAmount", "rounding", Term::BT(114), &none, &invoice.rounding);
    summation_amount(s, "GrandTotalAmount", "gross_total", Term::BT(112), &none, &invoice.gross_total);
    summation_amount(s, "TotalPrepaidAmount", "paid", Term::BT(113), &none, &invoice.paid);
    summation_amount(s, "DuePayableAmount", "due", Term::BT(115), &none, &invoice.due);
    assert(s.spec_xml() =~= x0 + spec_cii_payable(*invoice, old(s).spec_forbidden()));
}

/// Writes one amount of the monetary summation, if the invoice states it.
fn summation_amount(
    s: &mut Serializer<Namespace>,
    name: &str,
    field: &'static str,
    term: Term,
    attributes: &Vec<(String, String)>,
    value: &Option<Decimal>,
)
    requires
        old(s).wf(),
    ensures
        spec_restored(*old(s), *final(s)),
        value is None || old(s).spec_forbidden().contains(term) ==> *final(s) == *old(s),
        value matches Some(v) ==> (!old(s).spec_forbidden().contains(term) ==> final(s).spec_xml()
            == old(s).spec_xml() + crate::serializer::spec_element(
            Namespace::Ram,
            name@,
            crate::token::spec_attributes(attributes@),
            crate::ubl_write::spec_money(v@),
        )),
        final(s).spec_xml() == old(s).spec_xml() + crate::serializer::spec_term_element(
            old(s).spec_forbidden(),
            term,
            Namespace::Ram,
            name@,
            crate::token::spec_attributes(attributes@),
            spec_money_text(*value),
        ),
{
    if let Some(value) = value {
        let written = money(value);
        s.leaf_attr(Namespace::Ram, name, field, term, attributes, written.as_str());
    }
}

/// Writes the header monetary summation, each amount mapped to its own field; the VAT total
/// carries the invoice currency. The whole group is absent when the invoice states none of
/// its amounts.
#[verifier::spinoff_prover]
#[verifier::rlimit(100)]
pub fn monetary_summation(s: &mut Serializer<Namespace>, invoice: &Invoice)
    requires
        old(s).wf(),
    ensures
        spec_restored(*old(s), *final(s)),
        invoice.line_net_total is Some || invoice.charges_total is Some || invoice.allowances_total is Some || invoice.net_total is Some || invoice.vat_total is Some || invoice.rounding is Some || invoice.gross_total is Some || invoice.paid is Some || invoice.due is Some ==> spec_wrapped(old(s).spec_xml(), final(s).spec_xml(), Namespace::Ram, "SpecifiedTradeSettlementHeaderMonetarySummation"@),
        !(invoice.line_net_total is Some || invoice.charges_total is Some || invoice.allowances_total is Some || invoice.net_total is Some || invoice.vat_total is Some || invoice.rounding is Some || invoice.gross_total is Some || invoice.paid is Some || invoice.due is Some) ==> *final(s) == *old(s),
        (invoice.line_net_total is Some || invoice.charges_total is Some || invoice.allowances_total is Some
            || invoice.net_total is Some || invoice.vat_total is Some || invoice.rounding is Some
            || invoice.gross_total is Some || invoice.paid is Some || invoice.due is Some) ==> final(s).spec_xml()
            == old(s).spec_xml() + crate::serializer::spec_group(
            Namespace::Ram,
            "SpecifiedTradeSettlementHeaderMonetarySummation"@,
            spec_cii_summation(*invoice, old(s).spec_forbidden()),
        ),
        final(s).spec_xml() == old(s).spec_xml() + spec_cii_monetary_summation(*invoice, old(s).spec_forbidden()),
{
    if invoice.line_net_total.is_none() && invoice.charges_total.is_none()
        && invoice.allowances_total.is_none() && invoice.net_total.is_none()
        && invoice.vat_total.is_none() && invoice.rounding.is_none()
        && invoice.gross_total.is_none() && invoice.paid.is_none() && invoice.due.is_none() {
        assert(s.spec_xml() =~= old(s).spec_xml() + Seq::<char>::empty());
        return;
    }
    s.open_structural(Namespace::Ram, "SpecifiedTradeSettlementHeaderMonetarySummation");
    let ghost opened = s.spec_xml();
    summation_head(s, invoice);
    summation_tail(s, invoice);
    assert(s.spec_xml() =~= opened + spec_cii_summation(*invoice, old(s).spec_forbidden()));
    s.close_wrapper(Namespace::Ram, "SpecifiedTradeSettlementHeaderMonetarySummation");
    assert(s.spec_xml() =~= old(s).spec_xml() + crate::serializer::spec_group(
        Namespace::Ram,
        "SpecifiedTradeSettlementHeaderMonetarySummation"@,
        spec_cii_summation(*invoice, old(s).spec_forbidden()),
    ));
}

/// The monetary summation as written: absent where the invoice states none of its amounts.
pub open spec fn spec_cii_monetary_summation(invoice: Invoice, forbidden: Seq<Term>) -> Seq<char> {
    if invoice.line_net_total is Some || invoice.charges_total is Some || invoice.allowances_total is Some
        || invoice.net_total is Some || invoice.vat_total is Some || invoice.rounding is Some
        || invoice.gross_total is Some || invoice.paid is Some || invoice.due is Some {
        spec_group(Namespace::Ram, "SpecifiedTradeSettlementHeaderMonetarySummation"@, spec_cii_summation(invoice, forbidden))
    } else {
        Seq::empty()
    }
}

/// Writes the preceding invoice references (`BG-3`), the issue date in a `qdt` carrier.
#[verifier::spinoff_prover]
#[verifier::rlimit(100)]
pub fn preceding_invoices(s: &mut Serializer<Namespace>, preceding: &Vec<PrecedingInvoice>)
    requires
        old(s).wf(),
    ensures
        spec_restored(*old(s), *final(s)),
        spec_wrapped_each(
            old(s).spec_xml(),
            final(s).spec_xml(),
            Namespace::Ram,
            "InvoiceReferencedDocument"@,
            if old(s).spec_forbidden().contains(Term::BG(3)) { 0 } else { preceding@.len() },
        ),
        final(s).spec_xml() == old(s).spec_xml() + spec_preceding_invoices(preceding@, old(s).spec_forbidden()),
{
    let mut i: usize = 0;
    while i < preceding.len()
        invariant
            i <= preceding@.len(),
            old(s).wf(),
            spec_restored(*old(s), *s),
            spec_wrapped_each(old(s).spec_xml(), s.spec_xml(), Namespace::Ram, "InvoiceReferencedDocument"@, if old(s).spec_forbidden().contains(Term::BG(3)) { 0 } else { i as nat }),
            s.spec_xml() == old(s).spec_xml() + spec_preceding_invoices(preceding@.take(i as int), old(s).spec_forbidden()),
        decreases preceding@.len() - i,
    {
        let ghost previous = s.spec_xml();
        preceding_invoice(s, &preceding[i], i + 1);
        proof {
            if !old(s).spec_forbidden().contains(Term::BG(3)) {
                assert(spec_wrapped(previous, s.spec_xml(), Namespace::Ram, "InvoiceReferencedDocument"@));
            }
            let done = preceding@.take(i + 1);
            assert(done.drop_last() =~= preceding@.take(i as int));
            assert(s.spec_xml() =~= old(s).spec_xml() + spec_preceding_invoices(done, old(s).spec_forbidden()));
        }
        i = i + 1;
    }
    assert(preceding@.take(i as int) =~= preceding@);
}

/// One preceding invoice as written (`BG-3`), absent where the profile forbids it: its number
/// and its issue date.
pub open spec fn spec_preceding_invoice(invoice: PrecedingInvoice, forbidden: Seq<Term>) -> Seq<char> {
    if forbidden.contains(Term::BG(3)) {
        Seq::empty()
    } else {
        spec_group(
            Namespace::Ram,
            "InvoiceReferencedDocument"@,
            spec_optional_element(Namespace::Ram, "IssuerAssignedID"@, invoice.number) + match invoice.issue_date {
                Some(d) => spec_group(
                    Namespace::Ram,
                    "FormattedIssueDateTime"@,
                    spec_element(
                        Namespace::Qdt,
                        "DateTimeString"@,
                        seq![("format"@, "102"@)],
                        spec_basic_date(d@.year, d@.month, d@.day),
                    ),
                ),
                None => Seq::empty(),
            },
        )
    }
}

/// The preceding invoices as written, one after the other.
pub open spec fn spec_preceding_invoices(invoices: Seq<PrecedingInvoice>, forbidden: Seq<Term>) -> Seq<char>
    decreases invoices.len(),
{
    if invoices.len() == 0 {
        Seq::empty()
    } else {
        spec_preceding_invoices(invoices.drop_last(), forbidden) + spec_preceding_invoice(invoices.last(), forbidden)
    }
}

/// Writes one preceding invoice reference (`BG-3`), unless the profile forbids it.
#[verifier::spinoff_prover]
#[verifier::rlimit(100)]
fn preceding_invoice(s: &mut Serializer<Namespace>, invoice: &PrecedingInvoice, instance: usize)
    requires
        old(s).wf(),
    ensures
        spec_restored(*old(s), *final(s)),
        !old(s).spec_forbidden().contains(Term::BG(3)) ==> spec_wrapped(old(s).spec_xml(), final(s).spec_xml(), Namespace::Ram, "InvoiceReferencedDocument"@),
        final(s).spec_xml() == old(s).spec_xml() + spec_preceding_invoice(*invoice, old(s).spec_forbidden()),
{
    let none = none();
    assert(crate::token::spec_attributes(none@) =~= Seq::empty());
    if s.open_repeatable(Namespace::Ram, "InvoiceReferencedDocument", "preceding_invoices", Term::BG(3), instance) {
        let ghost opened = s.spec_xml();
        if let Some(number) = &invoice.number {
            s.derived(Namespace::Ram, "IssuerAssignedID", &none, number.as_str());
        }
        let ghost x1 = s.spec_xml();
        if let Some(issued) = &invoice.issue_date {
            s.open_nested(Namespace::Ram, "FormattedIssueDateTime");
            let text = basic_date(issued);
            let format = attribute("format", "102");
            assert(crate::token::spec_attributes(format@) =~= seq![("format"@, "102"@)]);
            s.write_element(Namespace::Qdt, "DateTimeString", &format, text.as_str());
            s.close_wrapper(Namespace::Ram, "FormattedIssueDateTime");
        }
        s.close_group(Namespace::Ram, "InvoiceReferencedDocument");
        assert(s.spec_xml() =~= old(s).spec_xml() + spec_preceding_invoice(*invoice, old(s).spec_forbidden()));
    } else {
        assert(s.spec_xml() =~= old(s).spec_xml() + Seq::<char>::empty());
    }
}

} // verus!
