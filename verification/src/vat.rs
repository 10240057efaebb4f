//! The VAT categories and the VAT treatment of a taxable element.

use vstd::prelude::*;
use crate::decimal::{Decimal, DecimalView};
use crate::error::{Error, ErrorView};
use crate::exemption_reason::ExemptionReason;
use crate::text::{owned, str_eq};
use crate::values::{NonEmptyString, Percentage};

verus! {

/// The VAT category code (`BT-95`/`BT-102`/`BT-118`/`BT-151`, UNTDID 5305 subset).
#[derive(Debug, Clone, Copy, PartialEq, Eq, Structural)]
pub enum VatCategory {
    /// Standard rate (`S`).
    Standard,
    /// Canary Islands general indirect tax (`L`).
    CanaryIslands,
    /// Ceuta and Melilla tax on production, services, and imports (`M`).
    CeutaMelilla,
    /// VAT transferred in Italy (`B`).
    TransferredItaly,
    /// Exempt from VAT (`E`).
    Exempt,
    /// Zero rate (`Z`).
    ZeroRated,
    /// VAT reverse charge (`AE`).
    ReverseCharge,
    /// Intra-community supply (`K`).
    IntraCommunitySupply,
    /// Export outside the EU (`G`).
    FreeExport,
    /// Not subject to VAT (`O`).
    OutsideScope,
}

/// The code of each category.
pub open spec fn spec_category_code(c: VatCategory) -> Seq<char> {
    match c {
        VatCategory::Standard => "S"@,
        VatCategory::CanaryIslands => "L"@,
        VatCategory::CeutaMelilla => "M"@,
        VatCategory::TransferredItaly => "B"@,
        VatCategory::Exempt => "E"@,
        VatCategory::ZeroRated => "Z"@,
        VatCategory::ReverseCharge => "AE"@,
        VatCategory::IntraCommunitySupply => "K"@,
        VatCategory::FreeExport => "G"@,
        VatCategory::OutsideScope => "O"@,
    }
}

/// Whether a category carries a rate.
pub open spec fn spec_is_rated(c: VatCategory) -> bool {
    c == VatCategory::Standard || c == VatCategory::CanaryIslands || c == VatCategory::CeutaMelilla
        || c == VatCategory::TransferredItaly
}

impl VatCategory {
    /// The code of the category.
    pub fn code(&self) -> (r: &'static str)
        ensures
            r@ == spec_category_code(*self),
    {
        match self {
            VatCategory::Standard => "S",
            VatCategory::CanaryIslands => "L",
            VatCategory::CeutaMelilla => "M",
            VatCategory::TransferredItaly => "B",
            VatCategory::Exempt => "E",
            VatCategory::ZeroRated => "Z",
            VatCategory::ReverseCharge => "AE",
            VatCategory::IntraCommunitySupply => "K",
            VatCategory::FreeExport => "G",
            VatCategory::OutsideScope => "O",
        }
    }

    /// The category a code names, or `Error::InvalidValue` for any other text.
    pub fn parse(text: &str) -> (r: Result<VatCategory, Error>)
        ensures
            r matches Ok(c) ==> spec_category_code(c) == text@,
            r is Err ==> forall|c: VatCategory| spec_category_code(c) != text@,
            r matches Err(e) ==> e@ == ErrorView::InvalidValue(text@),
    {
        if str_eq(text, "S") {
            Ok(VatCategory::Standard)
        } else if str_eq(text, "L") {
            Ok(VatCategory::CanaryIslands)
        } else if str_eq(text, "M") {
            Ok(VatCategory::CeutaMelilla)
        } else if str_eq(text, "B") {
            Ok(VatCategory::TransferredItaly)
        } else if str_eq(text, "E") {
            Ok(VatCategory::Exempt)
        } else if str_eq(text, "Z") {
            Ok(VatCategory::ZeroRated)
        } else if str_eq(text, "AE") {
            Ok(VatCategory::ReverseCharge)
        } else if str_eq(text, "K") {
            Ok(VatCategory::IntraCommunitySupply)
        } else if str_eq(text, "G") {
            Ok(VatCategory::FreeExport)
        } else if str_eq(text, "O") {
            Ok(VatCategory::OutsideScope)
        } else {
            Err(Error::invalid_value(text))
        }
    }

    /// Whether the category carries a rate.
    pub fn is_rated(&self) -> (r: bool)
        ensures
            r == spec_is_rated(*self),
    {
        match self {
            VatCategory::Standard
            | VatCategory::CanaryIslands
            | VatCategory::CeutaMelilla
            | VatCategory::TransferredItaly => true,
            _ => false,
        }
    }
}

/// The VAT treatment of a taxable element.
/// It includes VAT category with the rate or exemption reason the category admits
/// (`BT-95`/`BT-102`/`BT-151`, `BT-96`/`BT-103`/`BT-152`, `BT-120`/`BT-121`).
#[derive(Debug, PartialEq, Eq)]
pub enum VatTreatment {
    /// Standard rate (`S`).
    Standard { rate: Percentage },
    /// Canary Islands general indirect tax (`L`, IGIC).
    CanaryIslands { rate: Percentage },
    /// Ceuta and Melilla tax on production, services, and imports (`M`, IPSI).
    CeutaMelilla { rate: Percentage },
    /// VAT transferred in Italy (`B`, split payment).
    TransferredItaly { rate: Percentage },
    /// Exempt from VAT (`E`).
    Exempt {
        /// Exemption reason code (`BT-121`).
        code: Option<ExemptionReason>,
        /// Exemption reason text (`BT-120`).
        text: Option<NonEmptyString>,
    },
    /// Zero rate (`Z`).
    ZeroRated,
    /// VAT reverse charge (`AE`).
    ReverseCharge,
    /// Intra-community supply (`K`).
    IntraCommunitySupply,
    /// Export outside the EU (`G`).
    FreeExport,
    /// Not subject to VAT (`O`).
    OutsideScope,
}

/// The category of a treatment.
pub open spec fn spec_category(t: VatTreatment) -> VatCategory {
    match t {
        VatTreatment::Standard { .. } => VatCategory::Standard,
        VatTreatment::CanaryIslands { .. } => VatCategory::CanaryIslands,
        VatTreatment::CeutaMelilla { .. } => VatCategory::CeutaMelilla,
        VatTreatment::TransferredItaly { .. } => VatCategory::TransferredItaly,
        VatTreatment::Exempt { .. } => VatCategory::Exempt,
        VatTreatment::ZeroRated => VatCategory::ZeroRated,
        VatTreatment::ReverseCharge => VatCategory::ReverseCharge,
        VatTreatment::IntraCommunitySupply => VatCategory::IntraCommunitySupply,
        VatTreatment::FreeExport => VatCategory::FreeExport,
        VatTreatment::OutsideScope => VatCategory::OutsideScope,
    }
}

/// The rate of a treatment: that of a rated category, zero otherwise.
pub open spec fn spec_rate(t: VatTreatment) -> DecimalView {
    match t {
        VatTreatment::Standard { rate } => rate@,
        VatTreatment::CanaryIslands { rate } => rate@,
        VatTreatment::CeutaMelilla { rate } => rate@,
        VatTreatment::TransferredItaly { rate } => rate@,
        _ => DecimalView { mantissa: 0, scale: 0 },
    }
}

impl VatTreatment {
    /// The VAT category code (`BT-118`/`BT-151`) of this treatment.
    pub fn category(&self) -> (r: VatCategory)
        ensures
            r == spec_category(*self),
    {
        match self {
            VatTreatment::Standard { .. } => VatCategory::Standard,
            VatTreatment::CanaryIslands { .. } => VatCategory::CanaryIslands,
            VatTreatment::CeutaMelilla { .. } => VatCategory::CeutaMelilla,
            VatTreatment::TransferredItaly { .. } => VatCategory::TransferredItaly,
            VatTreatment::Exempt { .. } => VatCategory::Exempt,
            VatTreatment::ZeroRated => VatCategory::ZeroRated,
            VatTreatment::ReverseCharge => VatCategory::ReverseCharge,
            VatTreatment::IntraCommunitySupply => VatCategory::IntraCommunitySupply,
            VatTreatment::FreeExport => VatCategory::FreeExport,
            VatTreatment::OutsideScope => VatCategory::OutsideScope,
        }
    }

    /// The VAT rate (`BT-119`/`BT-152`) of this treatment,
    /// zero for the non-rated categories.
    pub fn rate(&self) -> (r: Decimal)
        ensures
            r@ == spec_rate(*self),
    {
        match self {
            VatTreatment::Standard { rate }
            | VatTreatment::CanaryIslands { rate }
            | VatTreatment::CeutaMelilla { rate }
            | VatTreatment::TransferredItaly { rate } => rate.value(),
            _ => Decimal::zero(),
        }
    }

    /// The treatment of a category with the rate and the exemption reason it was stated with.
    ///
    /// A rated category without a rate yields `Error::InvalidValue`; the rate of an unrated
    /// category and the exemption reason of a category other than `E` are not kept.
    pub fn from_parts(
        category: VatCategory,
        rate: Option<Percentage>,
        code: Option<ExemptionReason>,
        text: Option<NonEmptyString>,
    ) -> (r: Result<VatTreatment, Error>)
        ensures
            spec_is_rated(category) ==> (rate is None <==> r is Err),
            r matches Ok(t) ==> spec_category(t) == category,
            r matches Ok(t) ==> (spec_is_rated(category) ==> spec_rate(t) == rate.unwrap()@),
            r matches Ok(t) ==> (category == VatCategory::Exempt ==> (t matches VatTreatment::Exempt {
                code: c,
                text: x,
            } && c == code && x == text)),
            !spec_is_rated(category) ==> r is Ok,
            r matches Err(e) ==> e@ == ErrorView::InvalidValue("a rated VAT category needs a rate"@),
    {
        match category {
            VatCategory::Exempt => Ok(VatTreatment::Exempt { code, text }),
            VatCategory::ZeroRated => Ok(VatTreatment::ZeroRated),
            VatCategory::ReverseCharge => Ok(VatTreatment::ReverseCharge),
            VatCategory::IntraCommunitySupply => Ok(VatTreatment::IntraCommunitySupply),
            VatCategory::FreeExport => Ok(VatTreatment::FreeExport),
            VatCategory::OutsideScope => Ok(VatTreatment::OutsideScope),
            _ => match rate {
                None => Err(Error::invalid_value("a rated VAT category needs a rate")),
                Some(rate) => match category {
                    VatCategory::Standard => Ok(VatTreatment::Standard { rate }),
                    VatCategory::CanaryIslands => Ok(VatTreatment::CanaryIslands { rate }),
                    VatCategory::CeutaMelilla => Ok(VatTreatment::CeutaMelilla { rate }),
                    _ => Ok(VatTreatment::TransferredItaly { rate }),
                },
            },
        }
    }
}

/// A treatment carries a rate exactly when its category is a rated one; the rate of any
/// other treatment is zero.
pub proof fn law_only_rated_treatments_carry_a_rate(t: VatTreatment)
    ensures
        spec_is_rated(spec_category(t)) <==> (t is Standard || t is CanaryIslands || t is CeutaMelilla
            || t is TransferredItaly),
        !spec_is_rated(spec_category(t)) ==> spec_rate(t) == (DecimalView { mantissa: 0, scale: 0 }),
{
}

/// Whether a text is the code of a VAT category.
pub open spec fn spec_known_category(code: Seq<char>) -> bool {
    exists|c: VatCategory| spec_category_code(c) == code
}

/// A rate read from its text, surrounding white space aside: a decimal between zero and
/// one hundred.
pub open spec fn spec_rate_text(text: Seq<char>) -> Option<DecimalView> {
    match crate::decimal::spec_parse_decimal(crate::text::spec_trim(text)) {
        Some((m, s)) => if crate::values::spec_is_percentage(DecimalView { mantissa: m, scale: s }) {
            Some(DecimalView { mantissa: m, scale: s })
        } else {
            None
        },
        None => None,
    }
}

/// Whether a treatment is that of the category with the code, at the rate when the category
/// is a rated one.
pub open spec fn spec_treatment_is(t: VatTreatment, code: Seq<char>, rate: DecimalView) -> bool {
    &&& spec_category_code(spec_category(t)) == code
    &&& spec_is_rated(spec_category(t)) ==> spec_rate(t) == rate
}

} // verus!
