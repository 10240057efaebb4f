use en16931::{DocumentKind, Error, ExemptionReason, InvoiceType, Profile, Term, VatCategory};

#[test]
fn parses_a_known_code() {
    let reason: ExemptionReason = "VATEX-EU-132"
        .parse()
        .expect("VATEX-EU-132 is a valid exemption reason");

    assert_eq!(reason, ExemptionReason::Eu132);
    assert_eq!(reason.to_string(), "VATEX-EU-132");
}

#[test]
fn parses_a_national_code() {
    let reason: ExemptionReason = "VATEX-FR-298SEXDECIESA"
        .parse()
        .expect("a national exemption reason parses");

    assert_eq!(reason, ExemptionReason::Fr298Sexdeciesa);
    assert_eq!(reason.to_string(), "VATEX-FR-298SEXDECIESA");
}

#[test]
fn exemption_reason_rejects_an_unknown_code() {
    assert!("VATEX-EU-999".parse::<ExemptionReason>().is_err());
}

#[test]
fn converts_via_try_from() {
    assert_eq!(
        ExemptionReason::try_from("VATEX-EU-F").expect("VATEX-EU-F is a valid exemption reason"),
        ExemptionReason::EuF
    );
    assert!(matches!(
        ExemptionReason::try_from("FOO"),
        Err(Error::InvalidValue(_))
    ));
}

#[test]
fn parses_a_commercial_invoice_code() {
    let code: InvoiceType = "380".parse().expect("380 is a valid invoice type");

    assert_eq!(code, InvoiceType::CommercialInvoice);
    assert_eq!(code.to_string(), "380");
}

#[test]
fn parses_a_credit_note_code() {
    let code: InvoiceType = "381".parse().expect("381 is a valid invoice type");

    assert_eq!(code, InvoiceType::CreditNote);
}

#[test]
fn converts_from_and_into_a_number() {
    let code = InvoiceType::try_from(380u32).expect("380 is a valid invoice type");

    assert_eq!(code, InvoiceType::CommercialInvoice);
    assert_eq!(u16::from(code), 380);
    assert_eq!(u32::from(code), 380);
}

#[test]
fn classifies_the_document_kind() {
    assert_eq!(InvoiceType::CommercialInvoice.kind(), DocumentKind::Invoice);
    assert_eq!(InvoiceType::CreditNote.kind(), DocumentKind::CreditNote);
}

#[test]
fn invoice_type_rejects_an_unknown_code() {
    assert!(matches!(
        "999".parse::<InvoiceType>(),
        Err(Error::InvalidValue(_))
    ));
}

#[test]
fn rejects_an_unknown_number() {
    assert!(matches!(
        InvoiceType::try_from(999u32),
        Err(Error::InvalidValue(_))
    ));
}

#[test]
fn converts_via_try_from_str() {
    assert_eq!(
        InvoiceType::try_from("380").expect("380 is a valid invoice type"),
        InvoiceType::CommercialInvoice
    );
}

#[test]
fn reads_a_code_with_a_plus_sign_as_the_number_parser_does() {
    assert_eq!("+380".parse::<InvoiceType>(), Ok(InvoiceType::CommercialInvoice));
    assert!("380 ".parse::<InvoiceType>().is_err());
    assert!("".parse::<InvoiceType>().is_err());
    assert!("70000".parse::<InvoiceType>().is_err());
}

#[test]
fn quotes_the_text_of_an_unknown_code() {
    assert_eq!(
        "999".parse::<InvoiceType>(),
        Err(Error::InvalidValue("\"999\"".to_owned()))
    );
    assert_eq!(
        InvoiceType::try_from(70000u32),
        Err(Error::InvalidValue("70000".to_owned()))
    );
}

#[test]
fn maps_every_code_back_to_its_type() {
    assert_eq!(InvoiceType::from_code(71), Some(InvoiceType::RequestForPayment));
    assert_eq!(InvoiceType::from_code(935), Some(InvoiceType::CustomsInvoice));
    assert_eq!(InvoiceType::from_code(72), None);
    assert_eq!(InvoiceType::CustomsInvoice.code(), 935);
    assert_eq!(InvoiceType::PrepaymentCreditNote.kind(), DocumentKind::CreditNote);
}

#[test]
fn rejects_an_unknown_identifier() {
    assert!("urn:example:unknown".parse::<Profile>().is_err());
}

#[test]
fn parses_a_profile_from_its_identifier() {
    let profile: Profile = "urn:cen.eu:en16931:2017".parse().expect("the base profile");

    assert_eq!(profile, Profile::En16931);
    assert_eq!(
        Profile::PeppolBisBilling30.to_string(),
        "urn:cen.eu:en16931:2017#compliant#urn:fdc:peppol.eu:2017:poacc:billing:3.0"
    );
}

#[test]
fn forbids_the_terms_of_its_profile() {
    assert!(Profile::PeppolBisBilling30.forbids(Term::BT(21)));
    assert!(Profile::CiusAtGov110.forbids(Term::BT(124)));
    assert!(!Profile::En16931.forbids(Term::BT(21)));
    assert!(!Profile::PeppolBisBilling30.forbids(Term::BG(21)));
    assert_eq!(Profile::CiusAtNat100.forbidden_terms(), vec![Term::BT(124)]);
    assert!(Profile::XRechnung30.forbidden_terms().is_empty());
}

#[test]
fn reads_a_vat_category_code() {
    assert_eq!(VatCategory::parse("AE"), Ok(VatCategory::ReverseCharge));
    assert_eq!(VatCategory::Standard.code(), "S");
    assert_eq!(
        VatCategory::parse("X"),
        Err(Error::InvalidValue("X".to_owned()))
    );
}

#[test]
fn reads_a_currency_code_with_surrounding_white_space() {
    let currency = en16931::reading::parse_currency("\u{a0} EUR\t\n").expect("a currency code");
    assert_eq!(currency, en16931::reading::parse_currency("EUR").expect("a currency code"));
    assert!(en16931::reading::parse_currency("E UR").is_err());
}
