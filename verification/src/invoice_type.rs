//! The invoice type code (`BT-3`, EN-16931 subset of UNTDID 1001).
//!
//! Source: [EN-16931 codelist](https://github.com/ConnectingEurope/eInvoicing-EN16931/blob/master/ubl/schematron/codelist/EN16931-UBL-codes.sch), rule `BR-CL-01`.

use vstd::prelude::*;
use crate::error::{Error, ErrorView};
use crate::text::{decimal_text, owned, parse_unsigned, spec_decimal, spec_parse_unsigned, push_char, append_str};

verus! {

/// The invoice type code (`BT-3`): the document type.
///
/// The set is the EN-16931 subset of UNTDID 1001, enforced by `BR-CL-01`.
/// It unites the UBL `InvoiceTypeCode` and `CreditNoteTypeCode` lists.
/// Each variant stands for its numeric code.
#[derive(Debug, Clone, Copy, PartialEq, Eq, Structural)]
pub enum InvoiceType {
    RequestForPayment,
    DebitNoteGoodsServices,
    CreditNoteGoodsServices,
    MeteredServicesInvoice,
    CreditNoteFinancialAdjustments,
    DebitNoteFinancialAdjustments,
    TaxNotification,
    InvoicingDataSheet,
    DirectPaymentValuation,
    ProvisionalPaymentValuation,
    PaymentValuation,
    InterimApplicationForPayment,
    FinalPaymentRequest,
    PaymentRequestForCompletedUnits,
    SelfBilledCreditNote,
    ConsolidatedCreditNote,
    PriceVariationInvoice,
    CreditNotePriceVariation,
    DelcredereCreditNote,
    ProformaInvoice,
    PartialInvoice,
    CommercialInvoiceWithPackingList,
    CommercialInvoice,
    CreditNote,
    CommissionNote,
    DebitNote,
    CorrectedInvoice,
    ConsolidatedInvoice,
    PrepaymentInvoice,
    HireInvoice,
    TaxInvoice,
    SelfBilledInvoice,
    DelcredereInvoice,
    FactoredInvoice,
    LeaseInvoice,
    ConsignmentInvoice,
    FactoredCreditNote,
    OcrPaymentCreditNote,
    DebitAdvice,
    ReversalOfDebit,
    ReversalOfCredit,
    SelfBilledCorrectiveInvoice,
    FactoredCorrectiveInvoice,
    SelfBilledFactoredCorrectiveInvoice,
    SelfPrepaymentInvoice,
    SelfBilledFactoredInvoice,
    SelfBilledFactoredCreditNote,
    PrepaymentCreditNote,
    SelfBilledDebitNote,
    ForwardersCreditNote,
    ForwardersInvoiceDiscrepancyReport,
    InsurersInvoice,
    ForwardersInvoice,
    PortChargesDocuments,
    InvoiceInformationForAccounting,
    FreightInvoice,
    ClaimNotification,
    ConsularInvoice,
    PartialConstructionInvoice,
    PartialFinalConstructionInvoice,
    FinalConstructionInvoice,
    CustomsInvoice,
}

/// Whether an invoice type code denotes an invoice or a credit note.
#[derive(Debug, Clone, Copy, PartialEq, Eq, Structural)]
pub enum DocumentKind {
    Invoice,
    CreditNote,
}

/// The numeric code of an invoice type.
pub open spec fn spec_code(t: InvoiceType) -> nat {
    match t {
        InvoiceType::RequestForPayment => 71,
        InvoiceType::DebitNoteGoodsServices => 80,
        InvoiceType::CreditNoteGoodsServices => 81,
        InvoiceType::MeteredServicesInvoice => 82,
        InvoiceType::CreditNoteFinancialAdjustments => 83,
        InvoiceType::DebitNoteFinancialAdjustments => 84,
        InvoiceType::TaxNotification => 102,
        InvoiceType::InvoicingDataSheet => 130,
        InvoiceType::DirectPaymentValuation => 202,
        InvoiceType::ProvisionalPaymentValuation => 203,
        InvoiceType::PaymentValuation => 204,
        InvoiceType::InterimApplicationForPayment => 211,
        InvoiceType::FinalPaymentRequest => 218,
        InvoiceType::PaymentRequestForCompletedUnits => 219,
        InvoiceType::SelfBilledCreditNote => 261,
        InvoiceType::ConsolidatedCreditNote => 262,
        InvoiceType::PriceVariationInvoice => 295,
        InvoiceType::CreditNotePriceVariation => 296,
        InvoiceType::DelcredereCreditNote => 308,
        InvoiceType::ProformaInvoice => 325,
        InvoiceType::PartialInvoice => 326,
        InvoiceType::CommercialInvoiceWithPackingList => 331,
        InvoiceType::CommercialInvoice => 380,
        InvoiceType::CreditNote => 381,
        InvoiceType::CommissionNote => 382,
        InvoiceType::DebitNote => 383,
        InvoiceType::CorrectedInvoice => 384,
        InvoiceType::ConsolidatedInvoice => 385,
        InvoiceType::PrepaymentInvoice => 386,
        InvoiceType::HireInvoice => 387,
        InvoiceType::TaxInvoice => 388,
        InvoiceType::SelfBilledInvoice => 389,
        InvoiceType::DelcredereInvoice => 390,
        InvoiceType::FactoredInvoice => 393,
        InvoiceType::LeaseInvoice => 394,
        InvoiceType::ConsignmentInvoice => 395,
        InvoiceType::FactoredCreditNote => 396,
        InvoiceType::OcrPaymentCreditNote => 420,
        InvoiceType::DebitAdvice => 456,
        InvoiceType::ReversalOfDebit => 457,
        InvoiceType::ReversalOfCredit => 458,
        InvoiceType::SelfBilledCorrectiveInvoice => 471,
        InvoiceType::FactoredCorrectiveInvoice => 472,
        InvoiceType::SelfBilledFactoredCorrectiveInvoice => 473,
        InvoiceType::SelfPrepaymentInvoice => 500,
        InvoiceType::SelfBilledFactoredInvoice => 501,
        InvoiceType::SelfBilledFactoredCreditNote => 502,
        InvoiceType::PrepaymentCreditNote => 503,
        InvoiceType::SelfBilledDebitNote => 527,
        InvoiceType::ForwardersCreditNote => 532,
        InvoiceType::ForwardersInvoiceDiscrepancyReport => 553,
        InvoiceType::InsurersInvoice => 575,
        InvoiceType::ForwardersInvoice => 623,
        InvoiceType::PortChargesDocuments => 633,
        InvoiceType::InvoiceInformationForAccounting => 751,
        InvoiceType::FreightInvoice => 780,
        InvoiceType::ClaimNotification => 817,
        InvoiceType::ConsularInvoice => 870,
        InvoiceType::PartialConstructionInvoice => 875,
        InvoiceType::PartialFinalConstructionInvoice => 876,
        InvoiceType::FinalConstructionInvoice => 877,
        InvoiceType::CustomsInvoice => 935,
    }
}

/// The invoice type whose numeric code is `code`, if the list carries one.
pub open spec fn spec_from_code(code: int) -> Option<InvoiceType> {
    if code == 71 {
        Some(InvoiceType::RequestForPayment)
    } else if code == 80 {
        Some(InvoiceType::DebitNoteGoodsServices)
    } else if code == 81 {
        Some(InvoiceType::CreditNoteGoodsServices)
    } else if code == 82 {
        Some(InvoiceType::MeteredServicesInvoice)
    } else if code == 83 {
        Some(InvoiceType::CreditNoteFinancialAdjustments)
    } else if code == 84 {
        Some(InvoiceType::DebitNoteFinancialAdjustments)
    } else if code == 102 {
        Some(InvoiceType::TaxNotification)
    } else if code == 130 {
        Some(InvoiceType::InvoicingDataSheet)
    } else if code == 202 {
        Some(InvoiceType::DirectPaymentValuation)
    } else if code == 203 {
        Some(InvoiceType::ProvisionalPaymentValuation)
    } else if code == 204 {
        Some(InvoiceType::PaymentValuation)
    } else if code == 211 {
        Some(InvoiceType::InterimApplicationForPayment)
    } else if code == 218 {
        Some(InvoiceType::FinalPaymentRequest)
    } else if code == 219 {
        Some(InvoiceType::PaymentRequestForCompletedUnits)
    } else if code == 261 {
        Some(InvoiceType::SelfBilledCreditNote)
    } else if code == 262 {
        Some(InvoiceType::ConsolidatedCreditNote)
    } else if code == 295 {
        Some(InvoiceType::PriceVariationInvoice)
    } else if code == 296 {
        Some(InvoiceType::CreditNotePriceVariation)
    } else if code == 308 {
        Some(InvoiceType::DelcredereCreditNote)
    } else if code == 325 {
        Some(InvoiceType::ProformaInvoice)
    } else if code == 326 {
        Some(InvoiceType::PartialInvoice)
    } else if code == 331 {
        Some(InvoiceType::CommercialInvoiceWithPackingList)
    } else if code == 380 {
        Some(InvoiceType::CommercialInvoice)
    } else if code == 381 {
        Some(InvoiceType::CreditNote)
    } else if code == 382 {
        Some(InvoiceType::CommissionNote)
    } else if code == 383 {
        Some(InvoiceType::DebitNote)
    } else if code == 384 {
        Some(InvoiceType::CorrectedInvoice)
    } else if code == 385 {
        Some(InvoiceType::ConsolidatedInvoice)
    } else if code == 386 {
        Some(InvoiceType::PrepaymentInvoice)
    } else if code == 387 {
        Some(InvoiceType::HireInvoice)
    } else if code == 388 {
        Some(InvoiceType::TaxInvoice)
    } else if code == 389 {
        Some(InvoiceType::SelfBilledInvoice)
    } else if code == 390 {
        Some(InvoiceType::DelcredereInvoice)
    } else if code == 393 {
        Some(InvoiceType::FactoredInvoice)
    } else if code == 394 {
        Some(InvoiceType::LeaseInvoice)
    } else if code == 395 {
        Some(InvoiceType::ConsignmentInvoice)
    } else if code == 396 {
        Some(InvoiceType::FactoredCreditNote)
    } else if code == 420 {
        Some(InvoiceType::OcrPaymentCreditNote)
    } else if code == 456 {
        Some(InvoiceType::DebitAdvice)
    } else if code == 457 {
        Some(InvoiceType::ReversalOfDebit)
    } else if code == 458 {
        Some(InvoiceType::ReversalOfCredit)
    } else if code == 471 {
        Some(InvoiceType::SelfBilledCorrectiveInvoice)
    } else if code == 472 {
        Some(InvoiceType::FactoredCorrectiveInvoice)
    } else if code == 473 {
        Some(InvoiceType::SelfBilledFactoredCorrectiveInvoice)
    } else if code == 500 {
        Some(InvoiceType::SelfPrepaymentInvoice)
    } else if code == 501 {
        Some(InvoiceType::SelfBilledFactoredInvoice)
    } else if code == 502 {
        Some(InvoiceType::SelfBilledFactoredCreditNote)
    } else if code == 503 {
        Some(InvoiceType::PrepaymentCreditNote)
    } else if code == 527 {
        Some(InvoiceType::SelfBilledDebitNote)
    } else if code == 532 {
        Some(InvoiceType::ForwardersCreditNote)
    } else if code == 553 {
        Some(InvoiceType::ForwardersInvoiceDiscrepancyReport)
    } else if code == 575 {
        Some(InvoiceType::InsurersInvoice)
    } else if code == 623 {
        Some(InvoiceType::ForwardersInvoice)
    } else if code == 633 {
        Some(InvoiceType::PortChargesDocuments)
    } else if code == 751 {
        Some(InvoiceType::InvoiceInformationForAccounting)
    } else if code == 780 {
        Some(InvoiceType::FreightInvoice)
    } else if code == 817 {
        Some(InvoiceType::ClaimNotification)
    } else if code == 870 {
        Some(InvoiceType::ConsularInvoice)
    } else if code == 875 {
        Some(InvoiceType::PartialConstructionInvoice)
    } else if code == 876 {
        Some(InvoiceType::PartialFinalConstructionInvoice)
    } else if code == 877 {
        Some(InvoiceType::FinalConstructionInvoice)
    } else if code == 935 {
        Some(InvoiceType::CustomsInvoice)
    } else {
        None
    }
}

/// The kind of document an invoice type denotes.
pub open spec fn spec_kind(t: InvoiceType) -> DocumentKind {
    match t {
        InvoiceType::CreditNoteGoodsServices
        | InvoiceType::CreditNoteFinancialAdjustments
        | InvoiceType::SelfBilledCreditNote
        | InvoiceType::ConsolidatedCreditNote
        | InvoiceType::CreditNotePriceVariation
        | InvoiceType::DelcredereCreditNote
        | InvoiceType::CreditNote
        | InvoiceType::FactoredCreditNote
        | InvoiceType::OcrPaymentCreditNote
        | InvoiceType::ReversalOfCredit
        | InvoiceType::SelfBilledFactoredCreditNote
        | InvoiceType::PrepaymentCreditNote
        | InvoiceType::ForwardersCreditNote => DocumentKind::CreditNote,
        _ => DocumentKind::Invoice,
    }
}

/// The error a text or a number that names no invoice type yields.
pub open spec fn spec_unknown_text(text: Seq<char>) -> ErrorView {
    ErrorView::InvalidValue(seq!['"'] + text + seq!['"'])
}

/// The invoice type a text names: the decimal code as `u16::from_str` reads it.
pub open spec fn spec_parse(text: Seq<char>) -> Result<InvoiceType, ErrorView> {
    match spec_parse_unsigned(text, 65535) {
        Some(n) => match spec_from_code(n as int) {
            Some(t) => Ok(t),
            None => Err(spec_unknown_text(text)),
        },
        None => Err(spec_unknown_text(text)),
    }
}

impl InvoiceType {
    /// The numeric code.
    pub fn code(&self) -> (r: u16)
        ensures
            r as nat == spec_code(*self),
    {
        match self {
            InvoiceType::RequestForPayment => 71,
            InvoiceType::DebitNoteGoodsServices => 80,
            InvoiceType::CreditNoteGoodsServices => 81,
            InvoiceType::MeteredServicesInvoice => 82,
            InvoiceType::CreditNoteFinancialAdjustments => 83,
            InvoiceType::DebitNoteFinancialAdjustments => 84,
            InvoiceType::TaxNotification => 102,
            InvoiceType::InvoicingDataSheet => 130,
            InvoiceType::DirectPaymentValuation => 202,
            InvoiceType::ProvisionalPaymentValuation => 203,
            InvoiceType::PaymentValuation => 204,
            InvoiceType::InterimApplicationForPayment => 211,
            InvoiceType::FinalPaymentRequest => 218,
            InvoiceType::PaymentRequestForCompletedUnits => 219,
            InvoiceType::SelfBilledCreditNote => 261,
            InvoiceType::ConsolidatedCreditNote => 262,
            InvoiceType::PriceVariationInvoice => 295,
            InvoiceType::CreditNotePriceVariation => 296,
            InvoiceType::DelcredereCreditNote => 308,
            InvoiceType::ProformaInvoice => 325,
            InvoiceType::PartialInvoice => 326,
            InvoiceType::CommercialInvoiceWithPackingList => 331,
            InvoiceType::CommercialInvoice => 380,
            InvoiceType::CreditNote => 381,
            InvoiceType::CommissionNote => 382,
            InvoiceType::DebitNote => 383,
            InvoiceType::CorrectedInvoice => 384,
            InvoiceType::ConsolidatedInvoice => 385,
            InvoiceType::PrepaymentInvoice => 386,
            InvoiceType::HireInvoice => 387,
            InvoiceType::TaxInvoice => 388,
            InvoiceType::SelfBilledInvoice => 389,
            InvoiceType::DelcredereInvoice => 390,
            InvoiceType::FactoredInvoice => 393,
            InvoiceType::LeaseInvoice => 394,
            InvoiceType::ConsignmentInvoice => 395,
            InvoiceType::FactoredCreditNote => 396,
            InvoiceType::OcrPaymentCreditNote => 420,
            InvoiceType::DebitAdvice => 456,
            InvoiceType::ReversalOfDebit => 457,
            InvoiceType::ReversalOfCredit => 458,
            InvoiceType::SelfBilledCorrectiveInvoice => 471,
            InvoiceType::FactoredCorrectiveInvoice => 472,
            InvoiceType::SelfBilledFactoredCorrectiveInvoice => 473,
            InvoiceType::SelfPrepaymentInvoice => 500,
            InvoiceType::SelfBilledFactoredInvoice => 501,
            InvoiceType::SelfBilledFactoredCreditNote => 502,
            InvoiceType::PrepaymentCreditNote => 503,
            InvoiceType::SelfBilledDebitNote => 527,
            InvoiceType::ForwardersCreditNote => 532,
            InvoiceType::ForwardersInvoiceDiscrepancyReport => 553,
            InvoiceType::InsurersInvoice => 575,
            InvoiceType::ForwardersInvoice => 623,
            InvoiceType::PortChargesDocuments => 633,
            InvoiceType::InvoiceInformationForAccounting => 751,
            InvoiceType::FreightInvoice => 780,
            InvoiceType::ClaimNotification => 817,
            InvoiceType::ConsularInvoice => 870,
            InvoiceType::PartialConstructionInvoice => 875,
            InvoiceType::PartialFinalConstructionInvoice => 876,
            InvoiceType::FinalConstructionInvoice => 877,
            InvoiceType::CustomsInvoice => 935,
        }
    }

    /// The invoice type of a numeric code, if the list carries one.
    pub fn from_code(code: u16) -> (r: Option<InvoiceType>)
        ensures
            r == spec_from_code(code as int),
    {
        match code {
            71 => Some(InvoiceType::RequestForPayment),
            80 => Some(InvoiceType::DebitNoteGoodsServices),
            81 => Some(InvoiceType::CreditNoteGoodsServices),
            82 => Some(InvoiceType::MeteredServicesInvoice),
            83 => Some(InvoiceType::CreditNoteFinancialAdjustments),
            84 => Some(InvoiceType::DebitNoteFinancialAdjustments),
            102 => Some(InvoiceType::TaxNotification),
            130 => Some(InvoiceType::InvoicingDataSheet),
            202 => Some(InvoiceType::DirectPaymentValuation),
            203 => Some(InvoiceType::ProvisionalPaymentValuation),
            204 => Some(InvoiceType::PaymentValuation),
            211 => Some(InvoiceType::InterimApplicationForPayment),
            218 => Some(InvoiceType::FinalPaymentRequest),
            219 => Some(InvoiceType::PaymentRequestForCompletedUnits),
            261 => Some(InvoiceType::SelfBilledCreditNote),
            262 => Some(InvoiceType::ConsolidatedCreditNote),
            295 => Some(InvoiceType::PriceVariationInvoice),
            296 => Some(InvoiceType::CreditNotePriceVariation),
            308 => Some(InvoiceType::DelcredereCreditNote),
            325 => Some(InvoiceType::ProformaInvoice),
            326 => Some(InvoiceType::PartialInvoice),
            331 => Some(InvoiceType::CommercialInvoiceWithPackingList),
            380 => Some(InvoiceType::CommercialInvoice),
            381 => Some(InvoiceType::CreditNote),
            382 => Some(InvoiceType::CommissionNote),
            383 => Some(InvoiceType::DebitNote),
            384 => Some(InvoiceType::CorrectedInvoice),
            385 => Some(InvoiceType::ConsolidatedInvoice),
            386 => Some(InvoiceType::PrepaymentInvoice),
            387 => Some(InvoiceType::HireInvoice),
            388 => Some(InvoiceType::TaxInvoice),
            389 => Some(InvoiceType::SelfBilledInvoice),
            390 => Some(InvoiceType::DelcredereInvoice),
            393 => Some(InvoiceType::FactoredInvoice),
            394 => Some(InvoiceType::LeaseInvoice),
            395 => Some(InvoiceType::ConsignmentInvoice),
            396 => Some(InvoiceType::FactoredCreditNote),
            420 => Some(InvoiceType::OcrPaymentCreditNote),
            456 => Some(InvoiceType::DebitAdvice),
            457 => Some(InvoiceType::ReversalOfDebit),
            458 => Some(InvoiceType::ReversalOfCredit),
            471 => Some(InvoiceType::SelfBilledCorrectiveInvoice),
            472 => Some(InvoiceType::FactoredCorrectiveInvoice),
            473 => Some(InvoiceType::SelfBilledFactoredCorrectiveInvoice),
            500 => Some(InvoiceType::SelfPrepaymentInvoice),
            501 => Some(InvoiceType::SelfBilledFactoredInvoice),
            502 => Some(InvoiceType::SelfBilledFactoredCreditNote),
            503 => Some(InvoiceType::PrepaymentCreditNote),
            527 => Some(InvoiceType::SelfBilledDebitNote),
            532 => Some(InvoiceType::ForwardersCreditNote),
            553 => Some(InvoiceType::ForwardersInvoiceDiscrepancyReport),
            575 => Some(InvoiceType::InsurersInvoice),
            623 => Some(InvoiceType::ForwardersInvoice),
            633 => Some(InvoiceType::PortChargesDocuments),
            751 => Some(InvoiceType::InvoiceInformationForAccounting),
            780 => Some(InvoiceType::FreightInvoice),
            817 => Some(InvoiceType::ClaimNotification),
            870 => Some(InvoiceType::ConsularInvoice),
            875 => Some(InvoiceType::PartialConstructionInvoice),
            876 => Some(InvoiceType::PartialFinalConstructionInvoice),
            877 => Some(InvoiceType::FinalConstructionInvoice),
            935 => Some(InvoiceType::CustomsInvoice),
            _ => None,
        }
    }

    /// Whether the code denotes an invoice or a credit note.
    pub fn kind(&self) -> (r: DocumentKind)
        ensures
            r == spec_kind(*self),
    {
        match self {
            InvoiceType::CreditNoteGoodsServices
            | InvoiceType::CreditNoteFinancialAdjustments
            | InvoiceType::SelfBilledCreditNote
            | InvoiceType::ConsolidatedCreditNote
            | InvoiceType::CreditNotePriceVariation
            | InvoiceType::DelcredereCreditNote
            | InvoiceType::CreditNote
            | InvoiceType::FactoredCreditNote
            | InvoiceType::OcrPaymentCreditNote
            | InvoiceType::ReversalOfCredit
            | InvoiceType::SelfBilledFactoredCreditNote
            | InvoiceType::PrepaymentCreditNote
            | InvoiceType::ForwardersCreditNote => DocumentKind::CreditNote,
            _ => DocumentKind::Invoice,
        }
    }

    /// The decimal code.
    pub fn to_string(&self) -> (r: String)
        ensures
            r@ == spec_decimal(spec_code(*self)),
    {
        decimal_text(self.code() as u128)
    }

    /// The invoice type a text names, or `Error::InvalidValue` for any other text.
    pub fn parse(text: &str) -> (r: Result<InvoiceType, Error>)
        ensures
            match spec_parse(text@) {
                Ok(t) => r == Ok::<InvoiceType, Error>(t),
                Err(e) => r matches Err(x) && x@ == e,
            },
    {
        match parse_unsigned(text, 65535) {
            Some(n) => match InvoiceType::from_code(n as u16) {
                Some(t) => Ok(t),
                None => Err(unknown_text(text)),
            },
            None => Err(unknown_text(text)),
        }
    }

    /// The invoice type of a 32-bit number, or `Error::InvalidValue` for any other number.
    pub fn from_number(value: u32) -> (r: Result<InvoiceType, Error>)
        ensures
            match spec_from_code(value as int) {
                Some(t) => r == Ok::<InvoiceType, Error>(t),
                None => r matches Err(x) && x@ == ErrorView::InvalidValue(spec_decimal(value as nat)),
            },
    {
        if value <= 65535 {
            match InvoiceType::from_code(value as u16) {
                Some(t) => return Ok(t),
                None => {},
            }
        }
        Err(Error::InvalidValue(decimal_text(value as u128)))
    }
}

// The error of a text that names no invoice type: the text in double quotes.
fn unknown_text(text: &str) -> (e: Error)
    ensures
        e@ == spec_unknown_text(text@),
{
    let mut s = String::new();
    push_char(&mut s, '"');
    append_str(&mut s, text);
    push_char(&mut s, '"');
    assert(s@ =~= seq!['"'] + text@ + seq!['"']);
    Error::InvalidValue(s)
}

impl std::str::FromStr for InvoiceType {
    type Err = Error;

    fn from_str(text: &str) -> Result<InvoiceType, Error> {
        InvoiceType::parse(text)
    }
}

impl From<InvoiceType> for u16 {
    fn from(code: InvoiceType) -> (r: u16) {
        code.code()
    }
}

impl vstd::std_specs::convert::FromSpecImpl<InvoiceType> for u16 {
    open spec fn obeys_from_spec() -> bool {
        true
    }

    open spec fn from_spec(code: InvoiceType) -> u16 {
        spec_code(code) as u16
    }
}

impl From<InvoiceType> for u32 {
    fn from(code: InvoiceType) -> (r: u32) {
        code.code() as u32
    }
}

impl vstd::std_specs::convert::FromSpecImpl<InvoiceType> for u32 {
    open spec fn obeys_from_spec() -> bool {
        true
    }

    open spec fn from_spec(code: InvoiceType) -> u32 {
        spec_code(code) as u32
    }
}

impl TryFrom<u32> for InvoiceType {
    type Error = Error;

    fn try_from(value: u32) -> (r: Result<InvoiceType, Error>)
        ensures
            match spec_from_code(value as int) {
                Some(t) => r == Ok::<InvoiceType, Error>(t),
                None => r matches Err(x) && x@ == ErrorView::InvalidValue(spec_decimal(value as nat)),
            },
    {
        InvoiceType::from_number(value)
    }
}

impl vstd::std_specs::convert::TryFromSpecImpl<u32> for InvoiceType {
    open spec fn obeys_try_from_spec() -> bool {
        false
    }

    open spec fn try_from_spec(value: u32) -> Result<InvoiceType, Error> {
        arbitrary()
    }
}

impl<'a> TryFrom<&'a str> for InvoiceType {
    type Error = Error;

    fn try_from(text: &'a str) -> (r: Result<InvoiceType, Error>)
        ensures
            match spec_parse(text@) {
                Ok(t) => r == Ok::<InvoiceType, Error>(t),
                Err(e) => r matches Err(x) && x@ == e,
            },
    {
        InvoiceType::parse(text)
    }
}

impl<'a> vstd::std_specs::convert::TryFromSpecImpl<&'a str> for InvoiceType {
    open spec fn obeys_try_from_spec() -> bool {
        false
    }

    open spec fn try_from_spec(text: &'a str) -> Result<InvoiceType, Error> {
        arbitrary()
    }
}

} // verus!
