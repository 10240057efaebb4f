use en16931::{Binding, Error};

#[test]
fn detects_the_ubl_binding_from_its_root() {
    let xml =
        r#"<Invoice xmlns="urn:oasis:names:specification:ubl:schema:xsd:Invoice-2"></Invoice>"#;

    assert_eq!(Binding::detect(xml).expect("a UBL document"), Binding::Ubl);
}

#[test]
fn detects_the_ubl_binding_from_a_credit_note_root() {
    let xml = r#"<CreditNote xmlns="urn:oasis:names:specification:ubl:schema:xsd:CreditNote-2"></CreditNote>"#;

    assert_eq!(Binding::detect(xml).expect("a UBL document"), Binding::Ubl);
}

#[test]
fn detects_the_cii_binding_from_its_root() {
    let xml = r#"<rsm:CrossIndustryInvoice xmlns:rsm="urn:un:unece:uncefact:data:standard:CrossIndustryInvoice:100"/>"#;

    assert_eq!(Binding::detect(xml).expect("a CII document"), Binding::Cii);
}

#[test]
fn rejects_an_unrecognized_root_namespace() {
    let xml = r#"<foo xmlns="urn:example:unknown"/>"#;

    assert!(matches!(Binding::detect(xml), Err(Error::MalformedXml { .. })));
}

#[test]
fn rejects_a_root_without_a_namespace() {
    assert_eq!(
        Binding::detect("<Invoice/>"),
        Err(Error::MalformedXml(
            "the root element has no namespace".to_owned()
        ))
    );
}

#[test]
fn rejects_a_document_without_a_root() {
    assert_eq!(
        Binding::detect("<?xml version=\"1.0\"?>"),
        Err(Error::MalformedXml("no root element".to_owned()))
    );
}

#[test]
fn names_the_unrecognized_root_namespace() {
    assert_eq!(
        Binding::from_root(&Some("urn:example:unknown".to_owned())),
        Err(Error::MalformedXml(
            "unrecognized root namespace: urn:example:unknown".to_owned()
        ))
    );
}
