//! The VAT exemption reason code list (`BT-121`, CEF `VATEX`).

use vstd::prelude::*;
use crate::error::{Error, ErrorView};
use crate::text::{owned, str_eq};

verus! {

/// The VAT exemption reason (`BT-121`, CEF `VATEX`):
/// the legal reason for a VAT exemption.
///
/// Source: [EN-16931 codelist](https://github.com/ConnectingEurope/eInvoicing-EN16931/blob/master/ubl/schematron/codelist/EN16931-UBL-codes.sch), rule `BR-CL-22`.
/// Each member renders as its code and parses back from it.
#[derive(Debug, Clone, Copy, PartialEq, Eq, Structural)]
pub enum ExemptionReason {
    Eu79C,
    Eu132,
    Eu1321A,
    Eu1321B,
    Eu1321C,
    Eu1321D,
    Eu1321E,
    Eu1321F,
    Eu1321G,
    Eu1321H,
    Eu1321I,
    Eu1321J,
    Eu1321K,
    Eu1321L,
    Eu1321M,
    Eu1321N,
    Eu1321O,
    Eu1321P,
    Eu1321Q,
    Eu1351,
    Eu143,
    Eu1431A,
    Eu1431B,
    Eu1431C,
    Eu1431D,
    Eu1431E,
    Eu1431F,
    Eu1431Fa,
    Eu1431G,
    Eu1431H,
    Eu1431I,
    Eu1431J,
    Eu1431K,
    Eu1431L,
    Eu144,
    Eu1461E,
    Eu159,
    Eu309,
    Eu148,
    Eu148A,
    Eu148B,
    Eu148C,
    Eu148D,
    Eu148E,
    Eu148F,
    Eu148G,
    Eu151,
    Eu1511A,
    Eu1511Aa,
    Eu1511B,
    Eu1511C,
    Eu1511D,
    Eu1511E,
    EuD,
    EuF,
    EuI,
    EuJ,
    FrFranchise,
    FrCnwvat,
    Eu153,
    FrCgi2611,
    FrCgi2612,
    FrCgi2613,
    FrCgi2614,
    FrCgi2615,
    FrCgi2617,
    FrCgi2618,
    FrCgi261A,
    FrCgi261B,
    FrCgi261C1,
    FrCgi261C2,
    FrCgi261C3,
    FrCgi261D1,
    FrCgi261D1Bis,
    FrCgi261D2,
    FrCgi261D3,
    FrCgi261D4,
    FrCgi261E1,
    FrCgi261E2,
    FrCgi277A,
    FrCgi275,
    Fr298Sexdeciesa,
    FrCgi295,
    FrAe,
}

/// The text of each member.
pub open spec fn spec_exemption_code(v: ExemptionReason) -> Seq<char> {
    match v {
        ExemptionReason::Eu79C => "VATEX-EU-79-C"@,
        ExemptionReason::Eu132 => "VATEX-EU-132"@,
        ExemptionReason::Eu1321A => "VATEX-EU-132-1A"@,
        ExemptionReason::Eu1321B => "VATEX-EU-132-1B"@,
        ExemptionReason::Eu1321C => "VATEX-EU-132-1C"@,
        ExemptionReason::Eu1321D => "VATEX-EU-132-1D"@,
        ExemptionReason::Eu1321E => "VATEX-EU-132-1E"@,
        ExemptionReason::Eu1321F => "VATEX-EU-132-1F"@,
        ExemptionReason::Eu1321G => "VATEX-EU-132-1G"@,
        ExemptionReason::Eu1321H => "VATEX-EU-132-1H"@,
        ExemptionReason::Eu1321I => "VATEX-EU-132-1I"@,
        ExemptionReason::Eu1321J => "VATEX-EU-132-1J"@,
        ExemptionReason::Eu1321K => "VATEX-EU-132-1K"@,
        ExemptionReason::Eu1321L => "VATEX-EU-132-1L"@,
        ExemptionReason::Eu1321M => "VATEX-EU-132-1M"@,
        ExemptionReason::Eu1321N => "VATEX-EU-132-1N"@,
        ExemptionReason::Eu1321O => "VATEX-EU-132-1O"@,
        ExemptionReason::Eu1321P => "VATEX-EU-132-1P"@,
        ExemptionReason::Eu1321Q => "VATEX-EU-132-1Q"@,
        ExemptionReason::Eu1351 => "VATEX-EU-135-1"@,
        ExemptionReason::Eu143 => "VATEX-EU-143"@,
        ExemptionReason::Eu1431A => "VATEX-EU-143-1A"@,
        ExemptionReason::Eu1431B => "VATEX-EU-143-1B"@,
        ExemptionReason::Eu1431C => "VATEX-EU-143-1C"@,
        ExemptionReason::Eu1431D => "VATEX-EU-143-1D"@,
        ExemptionReason::Eu1431E => "VATEX-EU-143-1E"@,
        ExemptionReason::Eu1431F => "VATEX-EU-143-1F"@,
        ExemptionReason::Eu1431Fa => "VATEX-EU-143-1FA"@,
        ExemptionReason::Eu1431G => "VATEX-EU-143-1G"@,
        ExemptionReason::Eu1431H => "VATEX-EU-143-1H"@,
        ExemptionReason::Eu1431I => "VATEX-EU-143-1I"@,
        ExemptionReason::Eu1431J => "VATEX-EU-143-1J"@,
        ExemptionReason::Eu1431K => "VATEX-EU-143-1K"@,
        ExemptionReason::Eu1431L => "VATEX-EU-143-1L"@,
        ExemptionReason::Eu144 => "VATEX-EU-144"@,
        ExemptionReason::Eu1461E => "VATEX-EU-146-1E"@,
        ExemptionReason::Eu159 => "VATEX-EU-159"@,
        ExemptionReason::Eu309 => "VATEX-EU-309"@,
        ExemptionReason::Eu148 => "VATEX-EU-148"@,
        ExemptionReason::Eu148A => "VATEX-EU-148-A"@,
        ExemptionReason::Eu148B => "VATEX-EU-148-B"@,
        ExemptionReason::Eu148C => "VATEX-EU-148-C"@,
        ExemptionReason::Eu148D => "VATEX-EU-148-D"@,
        ExemptionReason::Eu148E => "VATEX-EU-148-E"@,
        ExemptionReason::Eu148F => "VATEX-EU-148-F"@,
        ExemptionReason::Eu148G => "VATEX-EU-148-G"@,
        ExemptionReason::Eu151 => "VATEX-EU-151"@,
        ExemptionReason::Eu1511A => "VATEX-EU-151-1A"@,
        ExemptionReason::Eu1511Aa => "VATEX-EU-151-1AA"@,
        ExemptionReason::Eu1511B => "VATEX-EU-151-1B"@,
        ExemptionReason::Eu1511C => "VATEX-EU-151-1C"@,
        ExemptionReason::Eu1511D => "VATEX-EU-151-1D"@,
        ExemptionReason::Eu1511E => "VATEX-EU-151-1E"@,
        ExemptionReason::EuD => "VATEX-EU-D"@,
        ExemptionReason::EuF => "VATEX-EU-F"@,
        ExemptionReason::EuI => "VATEX-EU-I"@,
        ExemptionReason::EuJ => "VATEX-EU-J"@,
        ExemptionReason::FrFranchise => "VATEX-FR-FRANCHISE"@,
        ExemptionReason::FrCnwvat => "VATEX-FR-CNWVAT"@,
        ExemptionReason::Eu153 => "VATEX-EU-153"@,
        ExemptionReason::FrCgi2611 => "VATEX-FR-CGI261-1"@,
        ExemptionReason::FrCgi2612 => "VATEX-FR-CGI261-2"@,
        ExemptionReason::FrCgi2613 => "VATEX-FR-CGI261-3"@,
        ExemptionReason::FrCgi2614 => "VATEX-FR-CGI261-4"@,
        ExemptionReason::FrCgi2615 => "VATEX-FR-CGI261-5"@,
        ExemptionReason::FrCgi2617 => "VATEX-FR-CGI261-7"@,
        ExemptionReason::FrCgi2618 => "VATEX-FR-CGI261-8"@,
        ExemptionReason::FrCgi261A => "VATEX-FR-CGI261A"@,
        ExemptionReason::FrCgi261B => "VATEX-FR-CGI261B"@,
        ExemptionReason::FrCgi261C1 => "VATEX-FR-CGI261C-1"@,
        ExemptionReason::FrCgi261C2 => "VATEX-FR-CGI261C-2"@,
        ExemptionReason::FrCgi261C3 => "VATEX-FR-CGI261C-3"@,
        ExemptionReason::FrCgi261D1 => "VATEX-FR-CGI261D-1"@,
        ExemptionReason::FrCgi261D1Bis => "VATEX-FR-CGI261D-1BIS"@,
        ExemptionReason::FrCgi261D2 => "VATEX-FR-CGI261D-2"@,
        ExemptionReason::FrCgi261D3 => "VATEX-FR-CGI261D-3"@,
        ExemptionReason::FrCgi261D4 => "VATEX-FR-CGI261D-4"@,
        ExemptionReason::FrCgi261E1 => "VATEX-FR-CGI261E-1"@,
        ExemptionReason::FrCgi261E2 => "VATEX-FR-CGI261E-2"@,
        ExemptionReason::FrCgi277A => "VATEX-FR-CGI277A"@,
        ExemptionReason::FrCgi275 => "VATEX-FR-CGI275"@,
        ExemptionReason::Fr298Sexdeciesa => "VATEX-FR-298SEXDECIESA"@,
        ExemptionReason::FrCgi295 => "VATEX-FR-CGI295"@,
        ExemptionReason::FrAe => "VATEX-FR-AE"@,
    }
}

/// The reason whose code a text is, the first one in the order of the list.
pub open spec fn spec_exemption_from_code(text: Seq<char>) -> Option<ExemptionReason> {
    if text == "VATEX-EU-79-C"@ {
        Some(ExemptionReason::Eu79C)
    } else     if text == "VATEX-EU-132"@ {
        Some(ExemptionReason::Eu132)
    } else     if text == "VATEX-EU-132-1A"@ {
        Some(ExemptionReason::Eu1321A)
    } else     if text == "VATEX-EU-132-1B"@ {
        Some(ExemptionReason::Eu1321B)
    } else     if text == "VATEX-EU-132-1C"@ {
        Some(ExemptionReason::Eu1321C)
    } else     if text == "VATEX-EU-132-1D"@ {
        Some(ExemptionReason::Eu1321D)
    } else     if text == "VATEX-EU-132-1E"@ {
        Some(ExemptionReason::Eu1321E)
    } else     if text == "VATEX-EU-132-1F"@ {
        Some(ExemptionReason::Eu1321F)
    } else     if text == "VATEX-EU-132-1G"@ {
        Some(ExemptionReason::Eu1321G)
    } else     if text == "VATEX-EU-132-1H"@ {
        Some(ExemptionReason::Eu1321H)
    } else     if text == "VATEX-EU-132-1I"@ {
        Some(ExemptionReason::Eu1321I)
    } else     if text == "VATEX-EU-132-1J"@ {
        Some(ExemptionReason::Eu1321J)
    } else     if text == "VATEX-EU-132-1K"@ {
        Some(ExemptionReason::Eu1321K)
    } else     if text == "VATEX-EU-132-1L"@ {
        Some(ExemptionReason::Eu1321L)
    } else     if text == "VATEX-EU-132-1M"@ {
        Some(ExemptionReason::Eu1321M)
    } else     if text == "VATEX-EU-132-1N"@ {
        Some(ExemptionReason::Eu1321N)
    } else     if text == "VATEX-EU-132-1O"@ {
        Some(ExemptionReason::Eu1321O)
    } else     if text == "VATEX-EU-132-1P"@ {
        Some(ExemptionReason::Eu1321P)
    } else     if text == "VATEX-EU-132-1Q"@ {
        Some(ExemptionReason::Eu1321Q)
    } else     if text == "VATEX-EU-135-1"@ {
        Some(ExemptionReason::Eu1351)
    } else     if text == "VATEX-EU-143"@ {
        Some(ExemptionReason::Eu143)
    } else     if text == "VATEX-EU-143-1A"@ {
        Some(ExemptionReason::Eu1431A)
    } else     if text == "VATEX-EU-143-1B"@ {
        Some(ExemptionReason::Eu1431B)
    } else     if text == "VATEX-EU-143-1C"@ {
        Some(ExemptionReason::Eu1431C)
    } else     if text == "VATEX-EU-143-1D"@ {
        Some(ExemptionReason::Eu1431D)
    } else     if text == "VATEX-EU-143-1E"@ {
        Some(ExemptionReason::Eu1431E)
    } else     if text == "VATEX-EU-143-1F"@ {
        Some(ExemptionReason::Eu1431F)
    } else     if text == "VATEX-EU-143-1FA"@ {
        Some(ExemptionReason::Eu1431Fa)
    } else     if text == "VATEX-EU-143-1G"@ {
        Some(ExemptionReason::Eu1431G)
    } else     if text == "VATEX-EU-143-1H"@ {
        Some(ExemptionReason::Eu1431H)
    } else     if text == "VATEX-EU-143-1I"@ {
        Some(ExemptionReason::Eu1431I)
    } else     if text == "VATEX-EU-143-1J"@ {
        Some(ExemptionReason::Eu1431J)
    } else     if text == "VATEX-EU-143-1K"@ {
        Some(ExemptionReason::Eu1431K)
    } else     if text == "VATEX-EU-143-1L"@ {
        Some(ExemptionReason::Eu1431L)
    } else     if text == "VATEX-EU-144"@ {
        Some(ExemptionReason::Eu144)
    } else     if text == "VATEX-EU-146-1E"@ {
        Some(ExemptionReason::Eu1461E)
    } else     if text == "VATEX-EU-159"@ {
        Some(ExemptionReason::Eu159)
    } else     if text == "VATEX-EU-309"@ {
        Some(ExemptionReason::Eu309)
    } else     if text == "VATEX-EU-148"@ {
        Some(ExemptionReason::Eu148)
    } else     if text == "VATEX-EU-148-A"@ {
        Some(ExemptionReason::Eu148A)
    } else     if text == "VATEX-EU-148-B"@ {
        Some(ExemptionReason::Eu148B)
    } else     if text == "VATEX-EU-148-C"@ {
        Some(ExemptionReason::Eu148C)
    } else     if text == "VATEX-EU-148-D"@ {
        Some(ExemptionReason::Eu148D)
    } else     if text == "VATEX-EU-148-E"@ {
        Some(ExemptionReason::Eu148E)
    } else     if text == "VATEX-EU-148-F"@ {
        Some(ExemptionReason::Eu148F)
    } else     if text == "VATEX-EU-148-G"@ {
        Some(ExemptionReason::Eu148G)
    } else     if text == "VATEX-EU-151"@ {
        Some(ExemptionReason::Eu151)
    } else     if text == "VATEX-EU-151-1A"@ {
        Some(ExemptionReason::Eu1511A)
    } else     if text == "VATEX-EU-151-1AA"@ {
        Some(ExemptionReason::Eu1511Aa)
    } else     if text == "VATEX-EU-151-1B"@ {
        Some(ExemptionReason::Eu1511B)
    } else     if text == "VATEX-EU-151-1C"@ {
        Some(ExemptionReason::Eu1511C)
    } else     if text == "VATEX-EU-151-1D"@ {
        Some(ExemptionReason::Eu1511D)
    } else     if text == "VATEX-EU-151-1E"@ {
        Some(ExemptionReason::Eu1511E)
    } else     if text == "VATEX-EU-D"@ {
        Some(ExemptionReason::EuD)
    } else     if text == "VATEX-EU-F"@ {
        Some(ExemptionReason::EuF)
    } else     if text == "VATEX-EU-I"@ {
        Some(ExemptionReason::EuI)
    } else     if text == "VATEX-EU-J"@ {
        Some(ExemptionReason::EuJ)
    } else     if text == "VATEX-FR-FRANCHISE"@ {
        Some(ExemptionReason::FrFranchise)
    } else     if text == "VATEX-FR-CNWVAT"@ {
        Some(ExemptionReason::FrCnwvat)
    } else     if text == "VATEX-EU-153"@ {
        Some(ExemptionReason::Eu153)
    } else     if text == "VATEX-FR-CGI261-1"@ {
        Some(ExemptionReason::FrCgi2611)
    } else     if text == "VATEX-FR-CGI261-2"@ {
        Some(ExemptionReason::FrCgi2612)
    } else     if text == "VATEX-FR-CGI261-3"@ {
        Some(ExemptionReason::FrCgi2613)
    } else     if text == "VATEX-FR-CGI261-4"@ {
        Some(ExemptionReason::FrCgi2614)
    } else     if text == "VATEX-FR-CGI261-5"@ {
        Some(ExemptionReason::FrCgi2615)
    } else     if text == "VATEX-FR-CGI261-7"@ {
        Some(ExemptionReason::FrCgi2617)
    } else     if text == "VATEX-FR-CGI261-8"@ {
        Some(ExemptionReason::FrCgi2618)
    } else     if text == "VATEX-FR-CGI261A"@ {
        Some(ExemptionReason::FrCgi261A)
    } else     if text == "VATEX-FR-CGI261B"@ {
        Some(ExemptionReason::FrCgi261B)
    } else     if text == "VATEX-FR-CGI261C-1"@ {
        Some(ExemptionReason::FrCgi261C1)
    } else     if text == "VATEX-FR-CGI261C-2"@ {
        Some(ExemptionReason::FrCgi261C2)
    } else     if text == "VATEX-FR-CGI261C-3"@ {
        Some(ExemptionReason::FrCgi261C3)
    } else     if text == "VATEX-FR-CGI261D-1"@ {
        Some(ExemptionReason::FrCgi261D1)
    } else     if text == "VATEX-FR-CGI261D-1BIS"@ {
        Some(ExemptionReason::FrCgi261D1Bis)
    } else     if text == "VATEX-FR-CGI261D-2"@ {
        Some(ExemptionReason::FrCgi261D2)
    } else     if text == "VATEX-FR-CGI261D-3"@ {
        Some(ExemptionReason::FrCgi261D3)
    } else     if text == "VATEX-FR-CGI261D-4"@ {
        Some(ExemptionReason::FrCgi261D4)
    } else     if text == "VATEX-FR-CGI261E-1"@ {
        Some(ExemptionReason::FrCgi261E1)
    } else     if text == "VATEX-FR-CGI261E-2"@ {
        Some(ExemptionReason::FrCgi261E2)
    } else     if text == "VATEX-FR-CGI277A"@ {
        Some(ExemptionReason::FrCgi277A)
    } else     if text == "VATEX-FR-CGI275"@ {
        Some(ExemptionReason::FrCgi275)
    } else     if text == "VATEX-FR-298SEXDECIESA"@ {
        Some(ExemptionReason::Fr298Sexdeciesa)
    } else     if text == "VATEX-FR-CGI295"@ {
        Some(ExemptionReason::FrCgi295)
    } else     if text == "VATEX-FR-AE"@ {
        Some(ExemptionReason::FrAe)
    } else {
        None
    }
}

impl ExemptionReason {
    /// Every member, in the order of the list.
    pub open spec fn spec_members() -> Seq<ExemptionReason> {
        seq![
            ExemptionReason::Eu79C,
            ExemptionReason::Eu132,
            ExemptionReason::Eu1321A,
            ExemptionReason::Eu1321B,
            ExemptionReason::Eu1321C,
            ExemptionReason::Eu1321D,
            ExemptionReason::Eu1321E,
            ExemptionReason::Eu1321F,
            ExemptionReason::Eu1321G,
            ExemptionReason::Eu1321H,
            ExemptionReason::Eu1321I,
            ExemptionReason::Eu1321J,
            ExemptionReason::Eu1321K,
            ExemptionReason::Eu1321L,
            ExemptionReason::Eu1321M,
            ExemptionReason::Eu1321N,
            ExemptionReason::Eu1321O,
            ExemptionReason::Eu1321P,
            ExemptionReason::Eu1321Q,
            ExemptionReason::Eu1351,
            ExemptionReason::Eu143,
            ExemptionReason::Eu1431A,
            ExemptionReason::Eu1431B,
            ExemptionReason::Eu1431C,
            ExemptionReason::Eu1431D,
            ExemptionReason::Eu1431E,
            ExemptionReason::Eu1431F,
            ExemptionReason::Eu1431Fa,
            ExemptionReason::Eu1431G,
            ExemptionReason::Eu1431H,
            ExemptionReason::Eu1431I,
            ExemptionReason::Eu1431J,
            ExemptionReason::Eu1431K,
            ExemptionReason::Eu1431L,
            ExemptionReason::Eu144,
            ExemptionReason::Eu1461E,
            ExemptionReason::Eu159,
            ExemptionReason::Eu309,
            ExemptionReason::Eu148,
            ExemptionReason::Eu148A,
            ExemptionReason::Eu148B,
            ExemptionReason::Eu148C,
            ExemptionReason::Eu148D,
            ExemptionReason::Eu148E,
            ExemptionReason::Eu148F,
            ExemptionReason::Eu148G,
            ExemptionReason::Eu151,
            ExemptionReason::Eu1511A,
            ExemptionReason::Eu1511Aa,
            ExemptionReason::Eu1511B,
            ExemptionReason::Eu1511C,
            ExemptionReason::Eu1511D,
            ExemptionReason::Eu1511E,
            ExemptionReason::EuD,
            ExemptionReason::EuF,
            ExemptionReason::EuI,
            ExemptionReason::EuJ,
            ExemptionReason::FrFranchise,
            ExemptionReason::FrCnwvat,
            ExemptionReason::Eu153,
            ExemptionReason::FrCgi2611,
            ExemptionReason::FrCgi2612,
            ExemptionReason::FrCgi2613,
            ExemptionReason::FrCgi2614,
            ExemptionReason::FrCgi2615,
            ExemptionReason::FrCgi2617,
            ExemptionReason::FrCgi2618,
            ExemptionReason::FrCgi261A,
            ExemptionReason::FrCgi261B,
            ExemptionReason::FrCgi261C1,
            ExemptionReason::FrCgi261C2,
            ExemptionReason::FrCgi261C3,
            ExemptionReason::FrCgi261D1,
            ExemptionReason::FrCgi261D1Bis,
            ExemptionReason::FrCgi261D2,
            ExemptionReason::FrCgi261D3,
            ExemptionReason::FrCgi261D4,
            ExemptionReason::FrCgi261E1,
            ExemptionReason::FrCgi261E2,
            ExemptionReason::FrCgi277A,
            ExemptionReason::FrCgi275,
            ExemptionReason::Fr298Sexdeciesa,
            ExemptionReason::FrCgi295,
            ExemptionReason::FrAe
        ]
    }

    /// The text of the member.
    pub fn as_str(&self) -> (r: &'static str)
        ensures
            r@ == spec_exemption_code(*self),
    {
        match self {
            ExemptionReason::Eu79C => "VATEX-EU-79-C",
            ExemptionReason::Eu132 => "VATEX-EU-132",
            ExemptionReason::Eu1321A => "VATEX-EU-132-1A",
            ExemptionReason::Eu1321B => "VATEX-EU-132-1B",
            ExemptionReason::Eu1321C => "VATEX-EU-132-1C",
            ExemptionReason::Eu1321D => "VATEX-EU-132-1D",
            ExemptionReason::Eu1321E => "VATEX-EU-132-1E",
            ExemptionReason::Eu1321F => "VATEX-EU-132-1F",
            ExemptionReason::Eu1321G => "VATEX-EU-132-1G",
            ExemptionReason::Eu1321H => "VATEX-EU-132-1H",
            ExemptionReason::Eu1321I => "VATEX-EU-132-1I",
            ExemptionReason::Eu1321J => "VATEX-EU-132-1J",
            ExemptionReason::Eu1321K => "VATEX-EU-132-1K",
            ExemptionReason::Eu1321L => "VATEX-EU-132-1L",
            ExemptionReason::Eu1321M => "VATEX-EU-132-1M",
            ExemptionReason::Eu1321N => "VATEX-EU-132-1N",
            ExemptionReason::Eu1321O => "VATEX-EU-132-1O",
            ExemptionReason::Eu1321P => "VATEX-EU-132-1P",
            ExemptionReason::Eu1321Q => "VATEX-EU-132-1Q",
            ExemptionReason::Eu1351 => "VATEX-EU-135-1",
            ExemptionReason::Eu143 => "VATEX-EU-143",
            ExemptionReason::Eu1431A => "VATEX-EU-143-1A",
            ExemptionReason::Eu1431B => "VATEX-EU-143-1B",
            ExemptionReason::Eu1431C => "VATEX-EU-143-1C",
            ExemptionReason::Eu1431D => "VATEX-EU-143-1D",
            ExemptionReason::Eu1431E => "VATEX-EU-143-1E",
            ExemptionReason::Eu1431F => "VATEX-EU-143-1F",
            ExemptionReason::Eu1431Fa => "VATEX-EU-143-1FA",
            ExemptionReason::Eu1431G => "VATEX-EU-143-1G",
            ExemptionReason::Eu1431H => "VATEX-EU-143-1H",
            ExemptionReason::Eu1431I => "VATEX-EU-143-1I",
            ExemptionReason::Eu1431J => "VATEX-EU-143-1J",
            ExemptionReason::Eu1431K => "VATEX-EU-143-1K",
            ExemptionReason::Eu1431L => "VATEX-EU-143-1L",
            ExemptionReason::Eu144 => "VATEX-EU-144",
            ExemptionReason::Eu1461E => "VATEX-EU-146-1E",
            ExemptionReason::Eu159 => "VATEX-EU-159",
            ExemptionReason::Eu309 => "VATEX-EU-309",
            ExemptionReason::Eu148 => "VATEX-EU-148",
            ExemptionReason::Eu148A => "VATEX-EU-148-A",
            ExemptionReason::Eu148B => "VATEX-EU-148-B",
            ExemptionReason::Eu148C => "VATEX-EU-148-C",
            ExemptionReason::Eu148D => "VATEX-EU-148-D",
            ExemptionReason::Eu148E => "VATEX-EU-148-E",
            ExemptionReason::Eu148F => "VATEX-EU-148-F",
            ExemptionReason::Eu148G => "VATEX-EU-148-G",
            ExemptionReason::Eu151 => "VATEX-EU-151",
            ExemptionReason::Eu1511A => "VATEX-EU-151-1A",
            ExemptionReason::Eu1511Aa => "VATEX-EU-151-1AA",
            ExemptionReason::Eu1511B => "VATEX-EU-151-1B",
            ExemptionReason::Eu1511C => "VATEX-EU-151-1C",
            ExemptionReason::Eu1511D => "VATEX-EU-151-1D",
            ExemptionReason::Eu1511E => "VATEX-EU-151-1E",
            ExemptionReason::EuD => "VATEX-EU-D",
            ExemptionReason::EuF => "VATEX-EU-F",
            ExemptionReason::EuI => "VATEX-EU-I",
            ExemptionReason::EuJ => "VATEX-EU-J",
            ExemptionReason::FrFranchise => "VATEX-FR-FRANCHISE",
            ExemptionReason::FrCnwvat => "VATEX-FR-CNWVAT",
            ExemptionReason::Eu153 => "VATEX-EU-153",
            ExemptionReason::FrCgi2611 => "VATEX-FR-CGI261-1",
            ExemptionReason::FrCgi2612 => "VATEX-FR-CGI261-2",
            ExemptionReason::FrCgi2613 => "VATEX-FR-CGI261-3",
            ExemptionReason::FrCgi2614 => "VATEX-FR-CGI261-4",
            ExemptionReason::FrCgi2615 => "VATEX-FR-CGI261-5",
            ExemptionReason::FrCgi2617 => "VATEX-FR-CGI261-7",
            ExemptionReason::FrCgi2618 => "VATEX-FR-CGI261-8",
            ExemptionReason::FrCgi261A => "VATEX-FR-CGI261A",
            ExemptionReason::FrCgi261B => "VATEX-FR-CGI261B",
            ExemptionReason::FrCgi261C1 => "VATEX-FR-CGI261C-1",
            ExemptionReason::FrCgi261C2 => "VATEX-FR-CGI261C-2",
            ExemptionReason::FrCgi261C3 => "VATEX-FR-CGI261C-3",
            ExemptionReason::FrCgi261D1 => "VATEX-FR-CGI261D-1",
            ExemptionReason::FrCgi261D1Bis => "VATEX-FR-CGI261D-1BIS",
            ExemptionReason::FrCgi261D2 => "VATEX-FR-CGI261D-2",
            ExemptionReason::FrCgi261D3 => "VATEX-FR-CGI261D-3",
            ExemptionReason::FrCgi261D4 => "VATEX-FR-CGI261D-4",
            ExemptionReason::FrCgi261E1 => "VATEX-FR-CGI261E-1",
            ExemptionReason::FrCgi261E2 => "VATEX-FR-CGI261E-2",
            ExemptionReason::FrCgi277A => "VATEX-FR-CGI277A",
            ExemptionReason::FrCgi275 => "VATEX-FR-CGI275",
            ExemptionReason::Fr298Sexdeciesa => "VATEX-FR-298SEXDECIESA",
            ExemptionReason::FrCgi295 => "VATEX-FR-CGI295",
            ExemptionReason::FrAe => "VATEX-FR-AE",
        }
    }

    /// The text of the member, as an owned string.
    pub fn to_string(&self) -> (r: String)
        ensures
            r@ == spec_exemption_code(*self),
    {
        owned(self.as_str())
    }

    /// The reason a code names, or `Error::InvalidValue` for any other text.
    pub fn parse(text: &str) -> (r: Result<ExemptionReason, Error>)
        ensures
            r matches Ok(v) ==> spec_exemption_code(v) == text@,
            r is Err ==> forall|v: ExemptionReason| spec_exemption_code(v) != text@,
            r matches Err(e) ==> e@ == ErrorView::InvalidValue("parse failed."@),
            match spec_exemption_from_code(text@) {
                Some(v) => r == Ok::<ExemptionReason, Error>(v),
                None => r is Err,
            },
    {
        if str_eq(text, "VATEX-EU-79-C") {
            return Ok(ExemptionReason::Eu79C);
        }
        if str_eq(text, "VATEX-EU-132") {
            return Ok(ExemptionReason::Eu132);
        }
        if str_eq(text, "VATEX-EU-132-1A") {
            return Ok(ExemptionReason::Eu1321A);
        }
        if str_eq(text, "VATEX-EU-132-1B") {
            return Ok(ExemptionReason::Eu1321B);
        }
        if str_eq(text, "VATEX-EU-132-1C") {
            return Ok(ExemptionReason::Eu1321C);
        }
        if str_eq(text, "VATEX-EU-132-1D") {
            return Ok(ExemptionReason::Eu1321D);
        }
        if str_eq(text, "VATEX-EU-132-1E") {
            return Ok(ExemptionReason::Eu1321E);
        }
        if str_eq(text, "VATEX-EU-132-1F") {
            return Ok(ExemptionReason::Eu1321F);
        }
        if str_eq(text, "VATEX-EU-132-1G") {
            return Ok(ExemptionReason::Eu1321G);
        }
        if str_eq(text, "VATEX-EU-132-1H") {
            return Ok(ExemptionReason::Eu1321H);
        }
        if str_eq(text, "VATEX-EU-132-1I") {
            return Ok(ExemptionReason::Eu1321I);
        }
        if str_eq(text, "VATEX-EU-132-1J") {
            return Ok(ExemptionReason::Eu1321J);
        }
        if str_eq(text, "VATEX-EU-132-1K") {
            return Ok(ExemptionReason::Eu1321K);
        }
        if str_eq(text, "VATEX-EU-132-1L") {
            return Ok(ExemptionReason::Eu1321L);
        }
        if str_eq(text, "VATEX-EU-132-1M") {
            return Ok(ExemptionReason::Eu1321M);
        }
        if str_eq(text, "VATEX-EU-132-1N") {
            return Ok(ExemptionReason::Eu1321N);
        }
        if str_eq(text, "VATEX-EU-132-1O") {
            return Ok(ExemptionReason::Eu1321O);
        }
        if str_eq(text, "VATEX-EU-132-1P") {
            return Ok(ExemptionReason::Eu1321P);
        }
        if str_eq(text, "VATEX-EU-132-1Q") {
            return Ok(ExemptionReason::Eu1321Q);
        }
        if str_eq(text, "VATEX-EU-135-1") {
            return Ok(ExemptionReason::Eu1351);
        }
        if str_eq(text, "VATEX-EU-143") {
            return Ok(ExemptionReason::Eu143);
        }
        if str_eq(text, "VATEX-EU-143-1A") {
            return Ok(ExemptionReason::Eu1431A);
        }
        if str_eq(text, "VATEX-EU-143-1B") {
            return Ok(ExemptionReason::Eu1431B);
        }
        if str_eq(text, "VATEX-EU-143-1C") {
            return Ok(ExemptionReason::Eu1431C);
        }
        if str_eq(text, "VATEX-EU-143-1D") {
            return Ok(ExemptionReason::Eu1431D);
        }
        if str_eq(text, "VATEX-EU-143-1E") {
            return Ok(ExemptionReason::Eu1431E);
        }
        if str_eq(text, "VATEX-EU-143-1F") {
            return Ok(ExemptionReason::Eu1431F);
        }
        if str_eq(text, "VATEX-EU-143-1FA") {
            return Ok(ExemptionReason::Eu1431Fa);
        }
        if str_eq(text, "VATEX-EU-143-1G") {
            return Ok(ExemptionReason::Eu1431G);
        }
        if str_eq(text, "VATEX-EU-143-1H") {
            return Ok(ExemptionReason::Eu1431H);
        }
        if str_eq(text, "VATEX-EU-143-1I") {
            return Ok(ExemptionReason::Eu1431I);
        }
        if str_eq(text, "VATEX-EU-143-1J") {
            return Ok(ExemptionReason::Eu1431J);
        }
        if str_eq(text, "VATEX-EU-143-1K") {
            return Ok(ExemptionReason::Eu1431K);
        }
        if str_eq(text, "VATEX-EU-143-1L") {
            return Ok(ExemptionReason::Eu1431L);
        }
        if str_eq(text, "VATEX-EU-144") {
            return Ok(ExemptionReason::Eu144);
        }
        if str_eq(text, "VATEX-EU-146-1E") {
            return Ok(ExemptionReason::Eu1461E);
        }
        if str_eq(text, "VATEX-EU-159") {
            return Ok(ExemptionReason::Eu159);
        }
        if str_eq(text, "VATEX-EU-309") {
            return Ok(ExemptionReason::Eu309);
        }
        if str_eq(text, "VATEX-EU-148") {
            return Ok(ExemptionReason::Eu148);
        }
        if str_eq(text, "VATEX-EU-148-A") {
            return Ok(ExemptionReason::Eu148A);
        }
        if str_eq(text, "VATEX-EU-148-B") {
            return Ok(ExemptionReason::Eu148B);
        }
        if str_eq(text, "VATEX-EU-148-C") {
            return Ok(ExemptionReason::Eu148C);
        }
        if str_eq(text, "VATEX-EU-148-D") {
            return Ok(ExemptionReason::Eu148D);
        }
        if str_eq(text, "VATEX-EU-148-E") {
            return Ok(ExemptionReason::Eu148E);
        }
        if str_eq(text, "VATEX-EU-148-F") {
            return Ok(ExemptionReason::Eu148F);
        }
        if str_eq(text, "VATEX-EU-148-G") {
            return Ok(ExemptionReason::Eu148G);
        }
        if str_eq(text, "VATEX-EU-151") {
            return Ok(ExemptionReason::Eu151);
        }
        if str_eq(text, "VATEX-EU-151-1A") {
            return Ok(ExemptionReason::Eu1511A);
        }
        if str_eq(text, "VATEX-EU-151-1AA") {
            return Ok(ExemptionReason::Eu1511Aa);
        }
        if str_eq(text, "VATEX-EU-151-1B") {
            return Ok(ExemptionReason::Eu1511B);
        }
        if str_eq(text, "VATEX-EU-151-1C") {
            return Ok(ExemptionReason::Eu1511C);
        }
        if str_eq(text, "VATEX-EU-151-1D") {
            return Ok(ExemptionReason::Eu1511D);
        }
        if str_eq(text, "VATEX-EU-151-1E") {
            return Ok(ExemptionReason::Eu1511E);
        }
        if str_eq(text, "VATEX-EU-D") {
            return Ok(ExemptionReason::EuD);
        }
        if str_eq(text, "VATEX-EU-F") {
            return Ok(ExemptionReason::EuF);
        }
        if str_eq(text, "VATEX-EU-I") {
            return Ok(ExemptionReason::EuI);
        }
        if str_eq(text, "VATEX-EU-J") {
            return Ok(ExemptionReason::EuJ);
        }
        if str_eq(text, "VATEX-FR-FRANCHISE") {
            return Ok(ExemptionReason::FrFranchise);
        }
        if str_eq(text, "VATEX-FR-CNWVAT") {
            return Ok(ExemptionReason::FrCnwvat);
        }
        if str_eq(text, "VATEX-EU-153") {
            return Ok(ExemptionReason::Eu153);
        }
        if str_eq(text, "VATEX-FR-CGI261-1") {
            return Ok(ExemptionReason::FrCgi2611);
        }
        if str_eq(text, "VATEX-FR-CGI261-2") {
            return Ok(ExemptionReason::FrCgi2612);
        }
        if str_eq(text, "VATEX-FR-CGI261-3") {
            return Ok(ExemptionReason::FrCgi2613);
        }
        if str_eq(text, "VATEX-FR-CGI261-4") {
            return Ok(ExemptionReason::FrCgi2614);
        }
        if str_eq(text, "VATEX-FR-CGI261-5") {
            return Ok(ExemptionReason::FrCgi2615);
        }
        if str_eq(text, "VATEX-FR-CGI261-7") {
            return Ok(ExemptionReason::FrCgi2617);
        }
        if str_eq(text, "VATEX-FR-CGI261-8") {
            return Ok(ExemptionReason::FrCgi2618);
        }
        if str_eq(text, "VATEX-FR-CGI261A") {
            return Ok(ExemptionReason::FrCgi261A);
        }
        if str_eq(text, "VATEX-FR-CGI261B") {
            return Ok(ExemptionReason::FrCgi261B);
        }
        if str_eq(text, "VATEX-FR-CGI261C-1") {
            return Ok(ExemptionReason::FrCgi261C1);
        }
        if str_eq(text, "VATEX-FR-CGI261C-2") {
            return Ok(ExemptionReason::FrCgi261C2);
        }
        if str_eq(text, "VATEX-FR-CGI261C-3") {
            return Ok(ExemptionReason::FrCgi261C3);
        }
        if str_eq(text, "VATEX-FR-CGI261D-1") {
            return Ok(ExemptionReason::FrCgi261D1);
        }
        if str_eq(text, "VATEX-FR-CGI261D-1BIS") {
            return Ok(ExemptionReason::FrCgi261D1Bis);
        }
        if str_eq(text, "VATEX-FR-CGI261D-2") {
            return Ok(ExemptionReason::FrCgi261D2);
        }
        if str_eq(text, "VATEX-FR-CGI261D-3") {
            return Ok(ExemptionReason::FrCgi261D3);
        }
        if str_eq(text, "VATEX-FR-CGI261D-4") {
            return Ok(ExemptionReason::FrCgi261D4);
        }
        if str_eq(text, "VATEX-FR-CGI261E-1") {
            return Ok(ExemptionReason::FrCgi261E1);
        }
        if str_eq(text, "VATEX-FR-CGI261E-2") {
            return Ok(ExemptionReason::FrCgi261E2);
        }
        if str_eq(text, "VATEX-FR-CGI277A") {
            return Ok(ExemptionReason::FrCgi277A);
        }
        if str_eq(text, "VATEX-FR-CGI275") {
            return Ok(ExemptionReason::FrCgi275);
        }
        if str_eq(text, "VATEX-FR-298SEXDECIESA") {
            return Ok(ExemptionReason::Fr298Sexdeciesa);
        }
        if str_eq(text, "VATEX-FR-CGI295") {
            return Ok(ExemptionReason::FrCgi295);
        }
        if str_eq(text, "VATEX-FR-AE") {
            return Ok(ExemptionReason::FrAe);
        }
        Err(Error::invalid_value("parse failed."))
    }
}

impl std::str::FromStr for ExemptionReason {
    type Err = Error;

    fn from_str(text: &str) -> Result<ExemptionReason, Error> {
        ExemptionReason::parse(text)
    }
}

impl<'a> TryFrom<&'a str> for ExemptionReason {
    type Error = Error;

    fn try_from(text: &'a str) -> (r: Result<ExemptionReason, Error>)
        ensures
            r matches Ok(v) ==> spec_exemption_code(v) == text@,
            r is Err <==> forall|v: ExemptionReason| spec_exemption_code(v) != text@,
            r matches Err(e) ==> e@ == ErrorView::InvalidValue("parse failed."@),
            match spec_exemption_from_code(text@) {
                Some(v) => r == Ok::<ExemptionReason, Error>(v),
                None => r is Err,
            },
    {
        ExemptionReason::parse(text)
    }
}

impl<'a> vstd::std_specs::convert::TryFromSpecImpl<&'a str> for ExemptionReason {
    open spec fn obeys_try_from_spec() -> bool {
        false
    }

    open spec fn try_from_spec(text: &'a str) -> Result<ExemptionReason, Error> {
        arbitrary()
    }
}

} // verus!
