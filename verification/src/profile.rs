//! The profiles of the core: the `BT-24` a document declares and the terms it forbids.

use vstd::prelude::*;
use crate::error::{Error, ErrorView};
use crate::term::Term;
use crate::text::{owned, str_eq};

verus! {

/// A supported profile: base EN-16931 or one of its CIUS restrictions and extensions.
///
/// A profile is a core component, not an extension axis.
/// It adds no vocabulary and only stamps its `BT-24` specification identifier on a document
/// and names the superset terms it forbids there.
///
/// The forbidden set is declarative data.
/// It covers the unconditional prohibitions only.
/// Conditional, relational, and code-list rules stay with the external validator.
///
/// The variant renders as its `BT-24` string and parses back from it.
/// Every version of a profile family is a distinct variant,
/// since it carries its own `BT-24` value.
#[derive(Debug, Clone, Copy, PartialEq, Eq, Structural)]
pub enum Profile {
    CiusAtGov110,
    CiusAtNat100,
    CiusEsFace100,
    CiusIt200,
    En16931,
    FacturXBasic,
    FacturXExtended,
    Nlcius10,
    Nlcius10GAccount,
    Oioubl3Invoice,
    PeppolBisBilling30,
    PeppolBisBillingInternationalAunz30,
    PeppolBisBillingInternationalSg30,
    PeppolBisSelfBilling30,
    PeppolBisSelfBillingInternationalAunz30,
    PintAeBilling,
    PintAeSelfBilling,
    PintAunzBilling,
    PintAunzSelfBilling,
    PintEuBilling,
    PintJpBilling,
    PintMyBilling,
    PintMySelfBilling,
    UblBe,
    XRechnung12,
    XRechnung20,
    XRechnung20Extension,
    XRechnung21,
    XRechnung21Extension,
    XRechnung22,
    XRechnung22Extension,
    XRechnung23,
    XRechnung23Extension,
    XRechnung30,
    XRechnung30Extension,
}

/// The text of each member.
pub open spec fn spec_profile_id(v: Profile) -> Seq<char> {
    match v {
        Profile::CiusAtGov110 => "urn:cen.eu:en16931:2017#compliant#urn:erechnung.gv.at:CIUS-AT-NAT:1.0.0#compliant#urn:erechnung.gv.at:CIUS-AT-GOV:1.1.0"@,
        Profile::CiusAtNat100 => "urn:cen.eu:en16931:2017#compliant#urn:erechnung.gv.at:CIUS-AT-NAT:1.0.0"@,
        Profile::CiusEsFace100 => "urn:cen.eu:en16931:2017#compliant#urn:face.gob.es:CIUS-ES-FACE:1.0.0"@,
        Profile::CiusIt200 => "urn:cen.eu:en16931:2017#compliant#urn:fatturapa.gov.it:CIUS-IT:2.0.0"@,
        Profile::En16931 => "urn:cen.eu:en16931:2017"@,
        Profile::FacturXBasic => "urn:cen.eu:en16931:2017#compliant#urn:factur-x.eu:1p0:basic"@,
        Profile::FacturXExtended => "urn:cen.eu:en16931:2017#conformant#urn:factur-x.eu:1p0:extended"@,
        Profile::Nlcius10 => "urn:cen.eu:en16931:2017#compliant#urn:fdc:nen.nl:nlcius:v1.0"@,
        Profile::Nlcius10GAccount => "urn:cen.eu:en16931:2017#compliant#urn:fdc:nen.nl:nlcius:v1.0#conformant#urn:fdc:nen.nl:gaccount:v1.0"@,
        Profile::Oioubl3Invoice => "urn:fdc:oioubl.dk:trns:billing:invoice:3.0"@,
        Profile::PeppolBisBilling30 => "urn:cen.eu:en16931:2017#compliant#urn:fdc:peppol.eu:2017:poacc:billing:3.0"@,
        Profile::PeppolBisBillingInternationalAunz30 => "urn:cen.eu:en16931:2017#conformant#urn:fdc:peppol.eu:2017:poacc:billing:international:aunz:3.0"@,
        Profile::PeppolBisBillingInternationalSg30 => "urn:cen.eu:en16931:2017#conformant#urn:fdc:peppol.eu:2017:poacc:billing:international:sg:3.0"@,
        Profile::PeppolBisSelfBilling30 => "urn:cen.eu:en16931:2017#compliant#urn:fdc:peppol.eu:2017:poacc:selfbilling:3.0"@,
        Profile::PeppolBisSelfBillingInternationalAunz30 => "urn:cen.eu:en16931:2017#conformant#urn:fdc:peppol.eu:2017:poacc:selfbilling:international:aunz:3.0"@,
        Profile::PintAeBilling => "urn:peppol:pint:billing-1@ae-1"@,
        Profile::PintAeSelfBilling => "urn:peppol:pint:selfbilling-1@ae-1"@,
        Profile::PintAunzBilling => "urn:peppol:pint:billing-1@aunz-1"@,
        Profile::PintAunzSelfBilling => "urn:peppol:pint:selfbilling-1@aunz-1"@,
        Profile::PintEuBilling => "urn:peppol:pint:billing-1@eu-1"@,
        Profile::PintJpBilling => "urn:peppol:pint:billing-1@jp-1"@,
        Profile::PintMyBilling => "urn:peppol:pint:billing-1@my-1"@,
        Profile::PintMySelfBilling => "urn:peppol:pint:selfbilling-1@my-1"@,
        Profile::UblBe => "urn:cen.eu:en16931:2017#conformant#urn:UBL.BE:1.0.0.20180214"@,
        Profile::XRechnung12 => "urn:cen.eu:en16931:2017#compliant#urn:xoev-de:kosit:standard:xrechnung_1.2"@,
        Profile::XRechnung20 => "urn:cen.eu:en16931:2017#compliant#urn:xoev-de:kosit:standard:xrechnung_2.0"@,
        Profile::XRechnung20Extension => "urn:cen.eu:en16931:2017#compliant#urn:xoev-de:kosit:standard:xrechnung_2.0#conformant#urn:xoev-de:kosit:extension:xrechnung_2.0"@,
        Profile::XRechnung21 => "urn:cen.eu:en16931:2017#compliant#urn:xoev-de:kosit:standard:xrechnung_2.1"@,
        Profile::XRechnung21Extension => "urn:cen.eu:en16931:2017#compliant#urn:xoev-de:kosit:standard:xrechnung_2.1#conformant#urn:xoev-de:kosit:extension:xrechnung_2.1"@,
        Profile::XRechnung22 => "urn:cen.eu:en16931:2017#compliant#urn:xoev-de:kosit:standard:xrechnung_2.2"@,
        Profile::XRechnung22Extension => "urn:cen.eu:en16931:2017#compliant#urn:xoev-de:kosit:standard:xrechnung_2.2#conformant#urn:xoev-de:kosit:extension:xrechnung_2.2"@,
        Profile::XRechnung23 => "urn:cen.eu:en16931:2017#compliant#urn:xoev-de:kosit:standard:xrechnung_2.3"@,
        Profile::XRechnung23Extension => "urn:cen.eu:en16931:2017#compliant#urn:xoev-de:kosit:standard:xrechnung_2.3#conformant#urn:xoev-de:kosit:extension:xrechnung_2.3"@,
        Profile::XRechnung30 => "urn:cen.eu:en16931:2017#compliant#urn:xeinkauf.de:kosit:xrechnung_3.0"@,
        Profile::XRechnung30Extension => "urn:cen.eu:en16931:2017#compliant#urn:xeinkauf.de:kosit:xrechnung_3.0#conformant#urn:xeinkauf.de:kosit:extension:xrechnung_3.0"@,
    }
}

impl Profile {
    /// Every member, in the order of the list.
    pub open spec fn spec_members() -> Seq<Profile> {
        seq![
            Profile::CiusAtGov110,
            Profile::CiusAtNat100,
            Profile::CiusEsFace100,
            Profile::CiusIt200,
            Profile::En16931,
            Profile::FacturXBasic,
            Profile::FacturXExtended,
            Profile::Nlcius10,
            Profile::Nlcius10GAccount,
            Profile::Oioubl3Invoice,
            Profile::PeppolBisBilling30,
            Profile::PeppolBisBillingInternationalAunz30,
            Profile::PeppolBisBillingInternationalSg30,
            Profile::PeppolBisSelfBilling30,
            Profile::PeppolBisSelfBillingInternationalAunz30,
            Profile::PintAeBilling,
            Profile::PintAeSelfBilling,
            Profile::PintAunzBilling,
            Profile::PintAunzSelfBilling,
            Profile::PintEuBilling,
            Profile::PintJpBilling,
            Profile::PintMyBilling,
            Profile::PintMySelfBilling,
            Profile::UblBe,
            Profile::XRechnung12,
            Profile::XRechnung20,
            Profile::XRechnung20Extension,
            Profile::XRechnung21,
            Profile::XRechnung21Extension,
            Profile::XRechnung22,
            Profile::XRechnung22Extension,
            Profile::XRechnung23,
            Profile::XRechnung23Extension,
            Profile::XRechnung30,
            Profile::XRechnung30Extension
        ]
    }

    /// The text of the member.
    pub fn as_str(&self) -> (r: &'static str)
        ensures
            r@ == spec_profile_id(*self),
    {
        match self {
            Profile::CiusAtGov110 => "urn:cen.eu:en16931:2017#compliant#urn:erechnung.gv.at:CIUS-AT-NAT:1.0.0#compliant#urn:erechnung.gv.at:CIUS-AT-GOV:1.1.0",
            Profile::CiusAtNat100 => "urn:cen.eu:en16931:2017#compliant#urn:erechnung.gv.at:CIUS-AT-NAT:1.0.0",
            Profile::CiusEsFace100 => "urn:cen.eu:en16931:2017#compliant#urn:face.gob.es:CIUS-ES-FACE:1.0.0",
            Profile::CiusIt200 => "urn:cen.eu:en16931:2017#compliant#urn:fatturapa.gov.it:CIUS-IT:2.0.0",
            Profile::En16931 => "urn:cen.eu:en16931:2017",
            Profile::FacturXBasic => "urn:cen.eu:en16931:2017#compliant#urn:factur-x.eu:1p0:basic",
            Profile::FacturXExtended => "urn:cen.eu:en16931:2017#conformant#urn:factur-x.eu:1p0:extended",
            Profile::Nlcius10 => "urn:cen.eu:en16931:2017#compliant#urn:fdc:nen.nl:nlcius:v1.0",
            Profile::Nlcius10GAccount => "urn:cen.eu:en16931:2017#compliant#urn:fdc:nen.nl:nlcius:v1.0#conformant#urn:fdc:nen.nl:gaccount:v1.0",
            Profile::Oioubl3Invoice => "urn:fdc:oioubl.dk:trns:billing:invoice:3.0",
            Profile::PeppolBisBilling30 => "urn:cen.eu:en16931:2017#compliant#urn:fdc:peppol.eu:2017:poacc:billing:3.0",
            Profile::PeppolBisBillingInternationalAunz30 => "urn:cen.eu:en16931:2017#conformant#urn:fdc:peppol.eu:2017:poacc:billing:international:aunz:3.0",
            Profile::PeppolBisBillingInternationalSg30 => "urn:cen.eu:en16931:2017#conformant#urn:fdc:peppol.eu:2017:poacc:billing:international:sg:3.0",
            Profile::PeppolBisSelfBilling30 => "urn:cen.eu:en16931:2017#compliant#urn:fdc:peppol.eu:2017:poacc:selfbilling:3.0",
            Profile::PeppolBisSelfBillingInternationalAunz30 => "urn:cen.eu:en16931:2017#conformant#urn:fdc:peppol.eu:2017:poacc:selfbilling:international:aunz:3.0",
            Profile::PintAeBilling => "urn:peppol:pint:billing-1@ae-1",
            Profile::PintAeSelfBilling => "urn:peppol:pint:selfbilling-1@ae-1",
            Profile::PintAunzBilling => "urn:peppol:pint:billing-1@aunz-1",
            Profile::PintAunzSelfBilling => "urn:peppol:pint:selfbilling-1@aunz-1",
            Profile::PintEuBilling => "urn:peppol:pint:billing-1@eu-1",
            Profile::PintJpBilling => "urn:peppol:pint:billing-1@jp-1",
            Profile::PintMyBilling => "urn:peppol:pint:billing-1@my-1",
            Profile::PintMySelfBilling => "urn:peppol:pint:selfbilling-1@my-1",
            Profile::UblBe => "urn:cen.eu:en16931:2017#conformant#urn:UBL.BE:1.0.0.20180214",
            Profile::XRechnung12 => "urn:cen.eu:en16931:2017#compliant#urn:xoev-de:kosit:standard:xrechnung_1.2",
            Profile::XRechnung20 => "urn:cen.eu:en16931:2017#compliant#urn:xoev-de:kosit:standard:xrechnung_2.0",
            Profile::XRechnung20Extension => "urn:cen.eu:en16931:2017#compliant#urn:xoev-de:kosit:standard:xrechnung_2.0#conformant#urn:xoev-de:kosit:extension:xrechnung_2.0",
            Profile::XRechnung21 => "urn:cen.eu:en16931:2017#compliant#urn:xoev-de:kosit:standard:xrechnung_2.1",
            Profile::XRechnung21Extension => "urn:cen.eu:en16931:2017#compliant#urn:xoev-de:kosit:standard:xrechnung_2.1#conformant#urn:xoev-de:kosit:extension:xrechnung_2.1",
            Profile::XRechnung22 => "urn:cen.eu:en16931:2017#compliant#urn:xoev-de:kosit:standard:xrechnung_2.2",
            Profile::XRechnung22Extension => "urn:cen.eu:en16931:2017#compliant#urn:xoev-de:kosit:standard:xrechnung_2.2#conformant#urn:xoev-de:kosit:extension:xrechnung_2.2",
            Profile::XRechnung23 => "urn:cen.eu:en16931:2017#compliant#urn:xoev-de:kosit:standard:xrechnung_2.3",
            Profile::XRechnung23Extension => "urn:cen.eu:en16931:2017#compliant#urn:xoev-de:kosit:standard:xrechnung_2.3#conformant#urn:xoev-de:kosit:extension:xrechnung_2.3",
            Profile::XRechnung30 => "urn:cen.eu:en16931:2017#compliant#urn:xeinkauf.de:kosit:xrechnung_3.0",
            Profile::XRechnung30Extension => "urn:cen.eu:en16931:2017#compliant#urn:xeinkauf.de:kosit:xrechnung_3.0#conformant#urn:xeinkauf.de:kosit:extension:xrechnung_3.0",
        }
    }

    /// The text of the member, as an owned string.
    pub fn to_string(&self) -> (r: String)
        ensures
            r@ == spec_profile_id(*self),
    {
        owned(self.as_str())
    }

    /// The profile a `BT-24` identifier names, or `Error::InvalidValue` for any other text.
    pub fn parse(text: &str) -> (r: Result<Profile, Error>)
        ensures
            r matches Ok(v) ==> spec_profile_id(v) == text@,
            r is Err ==> forall|v: Profile| spec_profile_id(v) != text@,
            r matches Err(e) ==> e@ == ErrorView::InvalidValue("parse failed."@),
    {
        if str_eq(text, "urn:cen.eu:en16931:2017#compliant#urn:erechnung.gv.at:CIUS-AT-NAT:1.0.0#compliant#urn:erechnung.gv.at:CIUS-AT-GOV:1.1.0") {
            return Ok(Profile::CiusAtGov110);
        }
        if str_eq(text, "urn:cen.eu:en16931:2017#compliant#urn:erechnung.gv.at:CIUS-AT-NAT:1.0.0") {
            return Ok(Profile::CiusAtNat100);
        }
        if str_eq(text, "urn:cen.eu:en16931:2017#compliant#urn:face.gob.es:CIUS-ES-FACE:1.0.0") {
            return Ok(Profile::CiusEsFace100);
        }
        if str_eq(text, "urn:cen.eu:en16931:2017#compliant#urn:fatturapa.gov.it:CIUS-IT:2.0.0") {
            return Ok(Profile::CiusIt200);
        }
        if str_eq(text, "urn:cen.eu:en16931:2017") {
            return Ok(Profile::En16931);
        }
        if str_eq(text, "urn:cen.eu:en16931:2017#compliant#urn:factur-x.eu:1p0:basic") {
            return Ok(Profile::FacturXBasic);
        }
        if str_eq(text, "urn:cen.eu:en16931:2017#conformant#urn:factur-x.eu:1p0:extended") {
            return Ok(Profile::FacturXExtended);
        }
        if str_eq(text, "urn:cen.eu:en16931:2017#compliant#urn:fdc:nen.nl:nlcius:v1.0") {
            return Ok(Profile::Nlcius10);
        }
        if str_eq(text, "urn:cen.eu:en16931:2017#compliant#urn:fdc:nen.nl:nlcius:v1.0#conformant#urn:fdc:nen.nl:gaccount:v1.0") {
            return Ok(Profile::Nlcius10GAccount);
        }
        if str_eq(text, "urn:fdc:oioubl.dk:trns:billing:invoice:3.0") {
            return Ok(Profile::Oioubl3Invoice);
        }
        if str_eq(text, "urn:cen.eu:en16931:2017#compliant#urn:fdc:peppol.eu:2017:poacc:billing:3.0") {
            return Ok(Profile::PeppolBisBilling30);
        }
        if str_eq(text, "urn:cen.eu:en16931:2017#conformant#urn:fdc:peppol.eu:2017:poacc:billing:international:aunz:3.0") {
            return Ok(Profile::PeppolBisBillingInternationalAunz30);
        }
        if str_eq(text, "urn:cen.eu:en16931:2017#conformant#urn:fdc:peppol.eu:2017:poacc:billing:international:sg:3.0") {
            return Ok(Profile::PeppolBisBillingInternationalSg30);
        }
        if str_eq(text, "urn:cen.eu:en16931:2017#compliant#urn:fdc:peppol.eu:2017:poacc:selfbilling:3.0") {
            return Ok(Profile::PeppolBisSelfBilling30);
        }
        if str_eq(text, "urn:cen.eu:en16931:2017#conformant#urn:fdc:peppol.eu:2017:poacc:selfbilling:international:aunz:3.0") {
            return Ok(Profile::PeppolBisSelfBillingInternationalAunz30);
        }
        if str_eq(text, "urn:peppol:pint:billing-1@ae-1") {
            return Ok(Profile::PintAeBilling);
        }
        if str_eq(text, "urn:peppol:pint:selfbilling-1@ae-1") {
            return Ok(Profile::PintAeSelfBilling);
        }
        if str_eq(text, "urn:peppol:pint:billing-1@aunz-1") {
            return Ok(Profile::PintAunzBilling);
        }
        if str_eq(text, "urn:peppol:pint:selfbilling-1@aunz-1") {
            return Ok(Profile::PintAunzSelfBilling);
        }
        if str_eq(text, "urn:peppol:pint:billing-1@eu-1") {
            return Ok(Profile::PintEuBilling);
        }
        if str_eq(text, "urn:peppol:pint:billing-1@jp-1") {
            return Ok(Profile::PintJpBilling);
        }
        if str_eq(text, "urn:peppol:pint:billing-1@my-1") {
            return Ok(Profile::PintMyBilling);
        }
        if str_eq(text, "urn:peppol:pint:selfbilling-1@my-1") {
            return Ok(Profile::PintMySelfBilling);
        }
        if str_eq(text, "urn:cen.eu:en16931:2017#conformant#urn:UBL.BE:1.0.0.20180214") {
            return Ok(Profile::UblBe);
        }
        if str_eq(text, "urn:cen.eu:en16931:2017#compliant#urn:xoev-de:kosit:standard:xrechnung_1.2") {
            return Ok(Profile::XRechnung12);
        }
        if str_eq(text, "urn:cen.eu:en16931:2017#compliant#urn:xoev-de:kosit:standard:xrechnung_2.0") {
            return Ok(Profile::XRechnung20);
        }
        if str_eq(text, "urn:cen.eu:en16931:2017#compliant#urn:xoev-de:kosit:standard:xrechnung_2.0#conformant#urn:xoev-de:kosit:extension:xrechnung_2.0") {
            return Ok(Profile::XRechnung20Extension);
        }
        if str_eq(text, "urn:cen.eu:en16931:2017#compliant#urn:xoev-de:kosit:standard:xrechnung_2.1") {
            return Ok(Profile::XRechnung21);
        }
        if str_eq(text, "urn:cen.eu:en16931:2017#compliant#urn:xoev-de:kosit:standard:xrechnung_2.1#conformant#urn:xoev-de:kosit:extension:xrechnung_2.1") {
            return Ok(Profile::XRechnung21Extension);
        }
        if str_eq(text, "urn:cen.eu:en16931:2017#compliant#urn:xoev-de:kosit:standard:xrechnung_2.2") {
            return Ok(Profile::XRechnung22);
        }
        if str_eq(text, "urn:cen.eu:en16931:2017#compliant#urn:xoev-de:kosit:standard:xrechnung_2.2#conformant#urn:xoev-de:kosit:extension:xrechnung_2.2") {
            return Ok(Profile::XRechnung22Extension);
        }
        if str_eq(text, "urn:cen.eu:en16931:2017#compliant#urn:xoev-de:kosit:standard:xrechnung_2.3") {
            return Ok(Profile::XRechnung23);
        }
        if str_eq(text, "urn:cen.eu:en16931:2017#compliant#urn:xoev-de:kosit:standard:xrechnung_2.3#conformant#urn:xoev-de:kosit:extension:xrechnung_2.3") {
            return Ok(Profile::XRechnung23Extension);
        }
        if str_eq(text, "urn:cen.eu:en16931:2017#compliant#urn:xeinkauf.de:kosit:xrechnung_3.0") {
            return Ok(Profile::XRechnung30);
        }
        if str_eq(text, "urn:cen.eu:en16931:2017#compliant#urn:xeinkauf.de:kosit:xrechnung_3.0#conformant#urn:xeinkauf.de:kosit:extension:xrechnung_3.0") {
            return Ok(Profile::XRechnung30Extension);
        }
        Err(Error::invalid_value("parse failed."))
    }
}

impl std::str::FromStr for Profile {
    type Err = Error;

    fn from_str(text: &str) -> Result<Profile, Error> {
        Profile::parse(text)
    }
}

/// The terms a profile forbids in a serialized document.
pub open spec fn spec_forbidden_terms(p: Profile) -> Seq<Term> {
    match p {
        Profile::PeppolBisBilling30 => seq![Term::BT(21)],
        Profile::CiusAtNat100 | Profile::CiusAtGov110 => seq![Term::BT(124)],
        _ => seq![],
    }
}

impl Profile {
    /// The terms the profile forbids in a serialized document.
    pub fn forbidden_terms(&self) -> (r: Vec<Term>)
        ensures
            r@ == spec_forbidden_terms(*self),
    {
        let r = match self {
            Profile::PeppolBisBilling30 => vec![Term::BT(21)],
            Profile::CiusAtNat100 | Profile::CiusAtGov110 => vec![Term::BT(124)],
            _ => Vec::new(),
        };
        assert(r@ =~= spec_forbidden_terms(*self));
        r
    }

    /// Whether the profile forbids the given term.
    pub fn forbids(&self, term: Term) -> (r: bool)
        ensures
            r == spec_forbidden_terms(*self).contains(term),
    {
        let forbidden = self.forbidden_terms();
        let mut i: usize = 0;
        while i < forbidden.len()
            invariant
                i <= forbidden@.len(),
                forbidden@ == spec_forbidden_terms(*self),
                forall|j: int| 0 <= j < i ==> forbidden@[j] != term,
            decreases forbidden@.len() - i,
        {
            if forbidden[i].same(&term) {
                return true;
            }
            i = i + 1;
        }
        false
    }
}

} // verus!
