//! The groups of the semantic model: the parties, the references, the payment and the lines.
//!
//! Every field but the type code is optional: the model checks the types of the values,
//! and the external validator checks the completeness of the document.
//! The codes of the outside lists that the model does not enumerate
//! (identifier schemes, payment means, reason codes) are kept as written.

use vstd::prelude::*;
use crate::decimal::{Decimal, DecimalView, spec_add, spec_is_zero, spec_quotient_2dp, spec_quotient_fits, spec_mul, fits};
use crate::invoice_type::InvoiceType;
use crate::pricing::{
    Adjustment, LineAdjustment, Price, adjustments_sum, rounded, spec_add_fits,
    spec_adjustments_fit, spec_adjustments_sum, spec_net, spec_net_fits, spec_rounded,
};
use crate::values::{CountryCode, Currency, Date, EmailAddress, NonEmptyString, Quantity, Url};
use crate::vat::VatTreatment;

verus! {

/// A legal registration identifier (`BT-30`/`BT-47`/`BT-61`) with its issuing agency.
#[derive(Debug, PartialEq, Eq)]
pub struct LegalEntity {
    pub id: NonEmptyString,
    pub issuer: Option<NonEmptyString>,
}

/// An identifier of a party (`BT-29`/`BT-46`/`BT-60`) with its issuing agency.
#[derive(Debug, PartialEq, Eq)]
pub struct OperationalEntity {
    pub id: NonEmptyString,
    pub issuer: Option<NonEmptyString>,
}

/// A VAT identifier (`BT-31`/`BT-48`/`BT-63`), prefixed by its country.
#[derive(Debug, PartialEq, Eq)]
pub struct VatIdentifier {
    pub id: NonEmptyString,
}

/// An electronic address (`BT-34`/`BT-49`) with its scheme.
#[derive(Debug, PartialEq, Eq)]
pub struct ElectronicAddress {
    pub id: Option<NonEmptyString>,
    pub scheme: Option<NonEmptyString>,
}

/// A postal address (`BG-5`/`BG-8`/`BG-12`/`BG-15`).
#[derive(Debug, PartialEq, Eq)]
pub struct PostalAddress {
    pub line1: Option<NonEmptyString>,
    pub line2: Option<NonEmptyString>,
    pub line3: Option<NonEmptyString>,
    pub city: Option<NonEmptyString>,
    pub postal_code: Option<NonEmptyString>,
    pub country_subdivision: Option<NonEmptyString>,
    pub country: Option<CountryCode>,
}

/// A contact point (`BG-6`/`BG-9`).
#[derive(Debug, PartialEq, Eq)]
pub struct Contact {
    pub name: Option<NonEmptyString>,
    pub telephone: Option<NonEmptyString>,
    pub email: Option<EmailAddress>,
}

/// The party that receives the goods or services and pays for them (`BG-7`).
#[derive(Debug, PartialEq, Eq)]
pub struct Buyer {
    /// Buyer name (`BT-44`).
    pub name: Option<NonEmptyString>,
    /// Buyer trading name (`BT-45`).
    pub trading_name: Option<NonEmptyString>,
    /// Alternative identifiers of the same party (`BT-46`).
    pub identifiers: Vec<OperationalEntity>,
    /// Buyer legal registration (`BT-47`).
    pub legal_entity: Option<LegalEntity>,
    /// Buyer VAT identifier (`BT-48`).
    pub vat: Option<VatIdentifier>,
    /// Buyer electronic address (`BT-49`).
    pub electronic_address: Option<ElectronicAddress>,
    /// Buyer postal address (`BG-8`).
    pub address: Option<PostalAddress>,
    /// Buyer contact (`BG-9`).
    pub contact: Option<Contact>,
}

impl Buyer {
    /// A buyer of whom nothing is stated.
    pub fn new() -> (r: Buyer)
        ensures
            r.name is None && r.trading_name is None && r.identifiers@.len() == 0
                && r.legal_entity is None && r.vat is None && r.electronic_address is None
                && r.address is None && r.contact is None,
    {
        Buyer {
            name: None,
            trading_name: None,
            identifiers: Vec::new(),
            legal_entity: None,
            vat: None,
            electronic_address: None,
            address: None,
            contact: None,
        }
    }
}

/// The party that issues the invoice and supplies the goods or services (`BG-4`).
#[derive(Debug, PartialEq, Eq)]
pub struct Seller {
    /// Seller name (`BT-27`).
    pub name: Option<NonEmptyString>,
    /// Seller trading name (`BT-28`).
    pub trading_name: Option<NonEmptyString>,
    /// Alternative identifiers of the same party (`BT-29`).
    pub identifiers: Vec<OperationalEntity>,
    /// Seller legal registration (`BT-30`).
    pub legal_entity: Option<LegalEntity>,
    /// Seller additional legal information (`BT-33`).
    pub additional_legal_information: Option<NonEmptyString>,
    /// Seller VAT identifier (`BT-31`).
    pub vat: Option<VatIdentifier>,
    /// Seller tax registration identifier (`BT-32`).
    pub tax_registration: Option<NonEmptyString>,
    /// Seller electronic address (`BT-34`).
    pub electronic_address: Option<ElectronicAddress>,
    /// Seller postal address (`BG-5`).
    pub address: Option<PostalAddress>,
    /// Seller contact (`BG-6`).
    pub contact: Option<Contact>,
}

/// The seller the same organization is in the seller role: what the buyer states carries
/// over, and the seller-only fields start empty.
pub open spec fn spec_seller_of(buyer: Buyer) -> Seller {
    Seller {
        name: buyer.name,
        trading_name: buyer.trading_name,
        identifiers: buyer.identifiers,
        legal_entity: buyer.legal_entity,
        additional_legal_information: None,
        vat: buyer.vat,
        tax_registration: None,
        electronic_address: buyer.electronic_address,
        address: buyer.address,
        contact: buyer.contact,
    }
}

/// Re-casts the same organization from the buyer role into the seller role (a resale).
/// The seller-only fields start empty and may be filled afterwards.
impl From<Buyer> for Seller {
    fn from(buyer: Buyer) -> (r: Seller) {
        Seller {
            name: buyer.name,
            trading_name: buyer.trading_name,
            identifiers: buyer.identifiers,
            legal_entity: buyer.legal_entity,
            additional_legal_information: None,
            vat: buyer.vat,
            tax_registration: None,
            electronic_address: buyer.electronic_address,
            address: buyer.address,
            contact: buyer.contact,
        }
    }
}

impl vstd::std_specs::convert::FromSpecImpl<Buyer> for Seller {
    open spec fn obeys_from_spec() -> bool {
        true
    }

    open spec fn from_spec(buyer: Buyer) -> Seller {
        spec_seller_of(buyer)
    }
}

/// A party that represents the seller for VAT (`BG-11`).
#[derive(Debug, PartialEq, Eq)]
pub struct TaxRepresentative {
    /// Tax representative name (`BT-62`).
    pub name: Option<NonEmptyString>,
    /// Tax representative VAT identifier (`BT-63`).
    pub vat: Option<VatIdentifier>,
    /// Tax representative postal address (`BG-12`).
    pub address: Option<PostalAddress>,
}

/// The party that receives the payment, when it is not the seller (`BG-10`).
#[derive(Debug, PartialEq, Eq)]
pub struct Payee {
    /// Payee name (`BT-59`).
    pub name: Option<NonEmptyString>,
    /// Payee identifiers (`BT-60`).
    pub identifiers: Vec<OperationalEntity>,
    /// Payee legal registration (`BT-61`).
    pub legal_entity: Option<LegalEntity>,
}

/// A location identifier (`BT-71`) with its scheme.
#[derive(Debug, PartialEq, Eq)]
pub struct LocationReference {
    pub id: Option<NonEmptyString>,
    pub issuer: Option<NonEmptyString>,
}

/// The delivery information (`BG-13`).
#[derive(Debug, PartialEq, Eq)]
pub struct Delivery {
    /// Deliver to party name (`BT-70`).
    pub name: Option<NonEmptyString>,
    /// Deliver to location identifier (`BT-71`).
    pub location: Option<LocationReference>,
    /// Actual delivery date (`BT-72`).
    pub date: Option<Date>,
    /// Deliver to address (`BG-15`).
    pub address: Option<PostalAddress>,
}

/// A standard item identifier (`BT-157`) with its scheme.
#[derive(Debug, PartialEq, Eq)]
pub struct ItemReference {
    pub id: NonEmptyString,
    pub issuer: NonEmptyString,
}

/// An item classification identifier (`BT-158`) with its scheme and scheme version.
#[derive(Debug, PartialEq, Eq)]
pub struct Classification {
    pub id: Option<NonEmptyString>,
    pub scheme: Option<NonEmptyString>,
    pub version: Option<NonEmptyString>,
}

/// An item attribute (`BG-32`): its name (`BT-160`) and value (`BT-161`).
#[derive(Debug, PartialEq, Eq)]
pub struct ItemAttribute {
    pub name: NonEmptyString,
    pub value: NonEmptyString,
}

/// The item information (`BG-31`).
#[derive(Debug, PartialEq, Eq)]
pub struct Item {
    /// Item name (`BT-153`).
    pub name: Option<NonEmptyString>,
    /// Item description (`BT-154`).
    pub description: Option<NonEmptyString>,
    /// Item seller's identifier (`BT-155`).
    pub seller_id: Option<NonEmptyString>,
    /// Item buyer's identifier (`BT-156`).
    pub buyer_id: Option<NonEmptyString>,
    /// Item standard identifier (`BT-157`).
    pub standard_id: Option<ItemReference>,
    /// Item classifications (`BT-158`).
    pub classifications: Vec<Classification>,
    /// Item country of origin (`BT-159`).
    pub country_of_origin: Option<CountryCode>,
    /// Item attributes (`BG-32`).
    pub attributes: Vec<ItemAttribute>,
}

/// An invoiced object identifier (`BT-18`/`BT-128`) with its scheme.
#[derive(Debug, PartialEq, Eq)]
pub struct ObjectReference {
    pub id: NonEmptyString,
    pub scheme: Option<NonEmptyString>,
}

/// An invoice note (`BG-1`).
#[derive(Debug, PartialEq, Eq)]
pub struct Note {
    /// Invoice note subject code (`BT-21`).
    pub subject_code: Option<NonEmptyString>,
    /// Invoice note (`BT-22`).
    pub text: NonEmptyString,
}

/// A preceding invoice reference (`BG-3`).
#[derive(Debug, PartialEq, Eq)]
pub struct PrecedingInvoice {
    /// Preceding invoice reference (`BT-25`).
    pub number: Option<NonEmptyString>,
    /// Preceding invoice issue date (`BT-26`).
    pub issue_date: Option<Date>,
}

/// An attached document (`BT-125`): its content, its MIME code and its file name.
#[derive(Debug, PartialEq, Eq)]
pub struct BinaryObject {
    pub content: Vec<u8>,
    pub mime: NonEmptyString,
    pub filename: NonEmptyString,
}

/// An additional supporting document (`BG-24`).
#[derive(Debug, PartialEq, Eq)]
pub struct SupportingDocument {
    /// Supporting document reference (`BT-122`).
    pub reference: NonEmptyString,
    /// Supporting document description (`BT-123`).
    pub description: Option<NonEmptyString>,
    /// External document location (`BT-124`).
    pub external_location: Option<Url>,
    /// Attached document (`BT-125`).
    pub attachment: Option<BinaryObject>,
}

/// A credit transfer (`BG-17`).
#[derive(Debug, PartialEq, Eq)]
pub struct CreditTransfer {
    /// Payment account identifier (`BT-84`).
    pub account: NonEmptyString,
    /// Payment account name (`BT-85`).
    pub account_name: Option<NonEmptyString>,
    /// Payment service provider identifier (`BT-86`).
    pub provider: Option<NonEmptyString>,
}

/// Payment card information (`BG-18`).
#[derive(Debug, PartialEq, Eq)]
pub struct PaymentCard {
    /// Payment card primary account number (`BT-87`).
    pub primary_account_number: NonEmptyString,
    /// Payment card holder name (`BT-88`).
    pub holder_name: Option<NonEmptyString>,
}

/// A direct debit (`BG-19`).
#[derive(Debug, PartialEq, Eq)]
pub struct DirectDebit {
    /// Mandate reference identifier (`BT-89`).
    pub mandate_reference: Option<NonEmptyString>,
    /// Bank assigned creditor identifier (`BT-90`).
    pub creditor_identifier: Option<NonEmptyString>,
    /// Debited account identifier (`BT-91`).
    pub debited_account: Option<NonEmptyString>,
}

/// The details of the payment means.
#[derive(Debug, PartialEq, Eq)]
pub enum Details {
    CreditTransfers(Vec<CreditTransfer>),
    Card(PaymentCard),
    DirectDebit(DirectDebit),
}

/// The payment instructions (`BG-16`).
#[derive(Debug, PartialEq, Eq)]
pub struct PaymentInstructions {
    /// Payment means type code (`BT-81`).
    pub means: NonEmptyString,
    /// Payment means text (`BT-82`).
    pub means_text: Option<NonEmptyString>,
    /// Remittance information (`BT-83`).
    pub remittance_information: Option<NonEmptyString>,
    /// The details of the means.
    pub details: Option<Details>,
}

/// A period (`BG-14`/`BG-26`): its start and end dates.
#[derive(Debug, PartialEq, Eq)]
pub struct Period {
    pub start: Option<Date>,
    pub end: Option<Date>,
}

/// One charged position of the invoice (`BG-25`).
/// All amounts here are in the invoice currency (`BT-5`).
#[derive(Debug, PartialEq, Eq)]
pub struct InvoiceLine {
    /// Line identifier (`BT-126`).
    pub id: Option<NonEmptyString>,
    /// Line note (`BT-127`).
    pub note: Option<NonEmptyString>,
    /// Object identifier (`BT-128`).
    pub object: Option<ObjectReference>,
    /// Invoiced quantity (`BT-129`+`BT-130`).
    pub quantity: Option<Quantity>,
    /// Line net amount (`BT-131`), as the issuer states it.
    pub net_amount: Option<Decimal>,
    /// Referenced purchase order line reference (`BT-132`).
    pub order_line_reference: Option<NonEmptyString>,
    /// Buyer accounting reference (`BT-133`).
    pub buyer_accounting_reference: Option<NonEmptyString>,
    /// Line period (`BG-26`).
    pub period: Option<Period>,
    /// Line allowances and charges (`BG-27`/`BG-28`).
    pub adjustments: Vec<LineAdjustment>,
    /// Price details (`BG-29`).
    pub price: Option<Price>,
    /// Line VAT treatment (`BG-30`).
    pub vat: Option<VatTreatment>,
    /// Item information (`BG-31`).
    pub item: Option<Item>,
}

/// The quantity the price of a line applies to: its base quantity, or one unit.
pub open spec fn spec_base(p: Price) -> DecimalView {
    match p.base_quantity {
        Some(q) => q.value@,
        None => DecimalView { mantissa: 1, scale: 0 },
    }
}

/// The line amount before adjustments: the quantity times the net price over the base
/// quantity, rounded.
pub open spec fn spec_line_amount(quantity: Quantity, price: Price) -> DecimalView {
    spec_quotient_2dp(spec_mul(quantity.value@, spec_net(price)), spec_base(price))
}

/// The line net amount (`BT-131`): the rounded quantity-times-net-price, plus the signed line
/// allowances and charges, or `None` when the quantity or the price is absent.
pub open spec fn spec_net_amount(line: InvoiceLine) -> Option<DecimalView> {
    match (line.quantity, line.price) {
        (Some(q), Some(p)) => Some(
            spec_add(spec_line_amount(q, p), spec_adjustments_sum(line.adjustments@)),
        ),
        _ => None,
    }
}

/// Whether the net amount of a line can be computed: a base quantity other than zero,
/// and every intermediate amount within the range of the mantissa.
pub open spec fn spec_net_amount_computable(line: InvoiceLine) -> bool {
    match (line.quantity, line.price) {
        (Some(q), Some(p)) => {
            &&& spec_net_fits(p)
            &&& fits(q.value@.mantissa * spec_net(p).mantissa)
            &&& q.value@.scale + spec_net(p).scale <= u32::MAX
            &&& !spec_is_zero(spec_base(p))
            &&& spec_quotient_fits(spec_mul(q.value@, spec_net(p)), spec_base(p))
            &&& spec_adjustments_fit(line.adjustments@)
            &&& spec_add_fits(spec_line_amount(q, p), spec_adjustments_sum(line.adjustments@))
        },
        _ => true,
    }
}

impl InvoiceLine {
    /// The line net amount (`BT-131`): the rounded quantity-times-net-price, plus the signed line
    /// allowances and charges, or `None` when the quantity or the price is absent.
    #[verifier::spinoff_prover]
    #[verifier::rlimit(50)]
    pub fn net_amount(&self) -> (r: Option<Decimal>)
        requires
            spec_net_amount_computable(*self),
        ensures
            match spec_net_amount(*self) {
                Some(v) => r matches Some(d) && d@ == v,
                None => r is None,
            },
    {
        let quantity = match &self.quantity {
            Some(q) => q,
            None => {
                return None;
            },
        };
        let price = match &self.price {
            Some(p) => p,
            None => {
                return None;
            },
        };
        let net = price.net();
        let base = match &price.base_quantity {
            Some(q) => q.value,
            None => Decimal::one(),
        };
        let product = quantity.value.checked_mul(&net).unwrap();
        let line = product.quotient_2dp(&base).unwrap();
        let adjustments = adjustments_sum(&self.adjustments);
        Some(line.checked_add(&adjustments).unwrap())
    }
}

/// The VAT point (`BT-7` date or `BT-8` event code).
#[derive(Debug, PartialEq, Eq)]
pub enum VatPoint {
    /// The date the VAT becomes due (`BT-7`).
    Date(Date),
    /// The code of the event the VAT becomes due on (`BT-8`, UNTDID 2005).
    Event(u16),
}

/// A total in the accounting currency (`BT-111` with `BT-6`).
#[derive(Debug, PartialEq, Eq)]
pub struct AccountingTotal {
    /// The accounting currency (`BT-6`).
    pub currency: Currency,
    /// The VAT total in that currency (`BT-111`).
    pub value: Decimal,
}

/// One group of the VAT breakdown (`BG-23`).
#[derive(Debug, PartialEq, Eq)]
pub struct VatBreakdown {
    /// VAT category taxable amount (`BT-116`).
    pub taxable: Option<Decimal>,
    /// VAT category tax amount (`BT-117`).
    pub tax: Option<Decimal>,
    /// VAT category with its rate or exemption reason (`BT-118` to `BT-121`).
    pub treatment: Option<VatTreatment>,
}

/// The business facts a document describes (the base invoice of EN-16931).
///
/// The issuer states every amount: the library computes none of them,
/// and the external validator checks their consistency.
#[derive(Debug, PartialEq, Eq)]
pub struct Invoice {
    /// Invoice number (`BT-1`).
    pub number: Option<NonEmptyString>,
    /// Issue date (`BT-2`).
    pub issue_date: Option<Date>,
    /// Type code (`BT-3`), the commercial invoice by default.
    pub type_code: InvoiceType,
    /// Currency (`BT-5`).
    pub currency: Option<Currency>,
    /// VAT total in the accounting currency (`BT-111`+`BT-6`).
    pub vat_accounting_total: Option<AccountingTotal>,
    /// VAT point (`BT-7` date or `BT-8` code).
    pub vat_point: Option<VatPoint>,
    /// Payment due date (`BT-9`).
    pub payment_due_date: Option<Date>,
    /// Buyer reference (`BT-10`).
    pub buyer_reference: Option<NonEmptyString>,
    /// Project reference (`BT-11`).
    pub project_reference: Option<NonEmptyString>,
    /// Contract reference (`BT-12`).
    pub contract_reference: Option<NonEmptyString>,
    /// Purchase order reference (`BT-13`).
    pub purchase_order_reference: Option<NonEmptyString>,
    /// Sales order reference (`BT-14`).
    pub sales_order_reference: Option<NonEmptyString>,
    /// Receiving advice reference (`BT-15`).
    pub receiving_advice_reference: Option<NonEmptyString>,
    /// Despatch advice reference (`BT-16`).
    pub despatch_advice_reference: Option<NonEmptyString>,
    /// Tender or lot reference (`BT-17`).
    pub tender_or_lot_reference: Option<NonEmptyString>,
    /// Invoiced object identifier (`BT-18`).
    pub object: Option<ObjectReference>,
    /// Buyer accounting reference (`BT-19`).
    pub buyer_accounting_reference: Option<NonEmptyString>,
    /// Payment terms (`BT-20`).
    pub payment_terms: Option<NonEmptyString>,
    /// Invoicing period (`BG-14`).
    pub invoicing_period: Option<Period>,
    /// Sum of line net amounts (`BT-106`).
    pub line_net_total: Option<Decimal>,
    /// Sum of document-level allowances (`BT-107`).
    pub allowances_total: Option<Decimal>,
    /// Sum of document-level charges (`BT-108`).
    pub charges_total: Option<Decimal>,
    /// Total without VAT (`BT-109`).
    pub net_total: Option<Decimal>,
    /// Total VAT amount (`BT-110`).
    pub vat_total: Option<Decimal>,
    /// Total with VAT (`BT-112`).
    pub gross_total: Option<Decimal>,
    /// Paid amount (`BT-113`).
    pub paid: Option<Decimal>,
    /// Rounding amount (`BT-114`).
    pub rounding: Option<Decimal>,
    /// Amount due for payment (`BT-115`).
    pub due: Option<Decimal>,
    /// Notes (`BG-1`).
    pub notes: Vec<Note>,
    /// Preceding invoice references (`BG-3`).
    pub preceding_invoices: Vec<PrecedingInvoice>,
    /// Seller (`BG-4`).
    pub seller: Option<Seller>,
    /// Buyer (`BG-7`).
    pub buyer: Option<Buyer>,
    /// Payee (`BG-10`).
    pub payee: Option<Payee>,
    /// Seller tax representative (`BG-11`).
    pub tax_representative: Option<TaxRepresentative>,
    /// Delivery information (`BG-13`).
    pub delivery: Option<Delivery>,
    /// Payment instructions (`BG-16`).
    pub payment: Option<PaymentInstructions>,
    /// Document-level allowances and charges (`BG-20`/`BG-21`).
    pub adjustments: Vec<Adjustment>,
    /// VAT breakdown (`BG-23`).
    pub vat_breakdown: Vec<VatBreakdown>,
    /// Additional supporting documents (`BG-24`).
    pub supporting_documents: Vec<SupportingDocument>,
    /// Invoice lines (`BG-25`).
    pub lines: Vec<InvoiceLine>,
}

impl Invoice {
    /// An invoice of the given type of which nothing else is stated.
    pub fn new(type_code: InvoiceType) -> (r: Invoice)
        ensures
            r.type_code == type_code,
            r.number is None && r.issue_date is None && r.currency is None,
            r.notes@.len() == 0 && r.lines@.len() == 0 && r.adjustments@.len() == 0,
            r.seller is None && r.buyer is None,
            r.due is None && r.net_total is None,
    {
        Invoice {
            number: None,
            issue_date: None,
            type_code,
            currency: None,
            vat_accounting_total: None,
            vat_point: None,
            payment_due_date: None,
            buyer_reference: None,
            project_reference: None,
            contract_reference: None,
            purchase_order_reference: None,
            sales_order_reference: None,
            receiving_advice_reference: None,
            despatch_advice_reference: None,
            tender_or_lot_reference: None,
            object: None,
            buyer_accounting_reference: None,
            payment_terms: None,
            invoicing_period: None,
            line_net_total: None,
            allowances_total: None,
            charges_total: None,
            net_total: None,
            vat_total: None,
            gross_total: None,
            paid: None,
            rounding: None,
            due: None,
            notes: Vec::new(),
            preceding_invoices: Vec::new(),
            seller: None,
            buyer: None,
            payee: None,
            tax_representative: None,
            delivery: None,
            payment: None,
            adjustments: Vec::new(),
            vat_breakdown: Vec::new(),
            supporting_documents: Vec::new(),
            lines: Vec::new(),
        }
    }
}

} // verus!
