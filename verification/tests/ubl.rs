use en16931::Ubl;
use en16931::ubl;
use en16931::{
    Abbreviations, Binding, Buyer, Context, Decimal, Document, DocumentBuilder, Invoice,
    InvoiceLine, InvoiceType, Location, LocationStep, NonEmptyString, Note, Price, Profile,
    RawNamespace, Segment, Seller, SupportingDocument, BinaryObject,
};

fn text(value: &str) -> Option<NonEmptyString> {
    Some(value.parse().expect("a non-empty string"))
}

fn empty_builder() -> DocumentBuilder {
    DocumentBuilder {
        invoice: Invoice::new(InvoiceType::CommercialInvoice),
        profile: Profile::En16931,
        business_process: None,
    }
}

fn line(id: &str, net: i64) -> InvoiceLine {
    InvoiceLine {
        id: text(id),
        note: None,
        object: None,
        quantity: None,
        net_amount: Some(Decimal::new(net, 2)),
        order_line_reference: None,
        buyer_accounting_reference: None,
        period: None,
        adjustments: Vec::new(),
        price: None,
        vat: None,
        item: None,
    }
}

fn builder() -> DocumentBuilder {
    let mut source = empty_builder();
    source.invoice.number = text("INV-2026-001");
    source.invoice.notes = vec![Note {
        subject_code: text("AAB"),
        text: "General note text".parse().expect("a note"),
    }];
    source.invoice.seller = Some(Seller::from(Buyer {
        name: text("Acme Supplies"),
        ..Buyer::new()
    }));
    source.invoice.due = Some(Decimal::new(12000, 2));
    source.invoice.lines = vec![line("1", 5000), line("2", 7000)];
    source
}

fn written(builder: DocumentBuilder) -> Document<Ubl> {
    Document::try_from(builder).expect("a serialized document")
}

fn location(steps: &[(&str, &str, usize)]) -> Location {
    Location {
        steps: steps
            .iter()
            .map(|(abbreviation, name, index)| LocationStep {
                namespace: Some(RawNamespace::Abbreviation((*abbreviation).to_owned())),
                name: (*name).to_owned(),
                index: *index,
            })
            .collect(),
    }
}

fn field(name: &'static str) -> Segment {
    Segment { field: name, index: None }
}

fn instance(name: &'static str, index: usize) -> Segment {
    Segment { field: name, index: Some(index) }
}

fn context(segments: Vec<Segment>) -> Context {
    Context { segments }
}

#[test]
fn detects_its_own_output_as_ubl() {
    let document = written(builder());

    assert_eq!(
        Binding::detect(document.xml()).expect("a UBL document"),
        Binding::Ubl
    );
}

#[test]
fn binds_the_default_namespace_it_writes() {
    let document = written(builder());

    // The root carries the default namespace, so its abbreviation is empty.
    let address = location(&[("", "Invoice", 1), ("cac", "InvoiceLine", 2)]);

    assert_eq!(
        document.resolve(&address),
        Some(context(vec![instance("lines", 2)]))
    );
}

#[test]
fn maps_nodes_to_their_contexts() {
    let document = written(builder());

    let root = location(&[("ubl", "Invoice", 1)]);
    let seller_name = location(&[
        ("ubl", "Invoice", 1),
        ("cac", "AccountingSupplierParty", 1),
        ("cac", "Party", 1),
        ("cac", "PartyLegalEntity", 1),
        ("cbc", "RegistrationName", 1),
    ]);
    let second_line = location(&[("ubl", "Invoice", 1), ("cac", "InvoiceLine", 2)]);
    let payable = location(&[
        ("ubl", "Invoice", 1),
        ("cac", "LegalMonetaryTotal", 1),
        ("cbc", "PayableAmount", 1),
    ]);
    let second_line_net = location(&[
        ("ubl", "Invoice", 1),
        ("cac", "InvoiceLine", 2),
        ("cbc", "LineExtensionAmount", 1),
    ]);

    assert_eq!(document.resolve(&root), Some(context(Vec::new())));
    assert_eq!(
        document.resolve(&seller_name),
        Some(context(vec![field("seller"), field("name")]))
    );
    assert_eq!(
        document.resolve(&second_line),
        Some(context(vec![instance("lines", 2)]))
    );
    assert_eq!(document.resolve(&payable), Some(context(vec![field("due")])));
    assert_eq!(
        document.resolve(&second_line_net),
        Some(context(vec![instance("lines", 2), field("net_amount")]))
    );
}

#[test]
fn keeps_the_deepest_bound_node_of_a_location() {
    let document = written(builder());

    // An attribute step names no namespace: the node it belongs to answers.
    let mut address = location(&[("ubl", "Invoice", 1), ("cac", "InvoiceLine", 1)]);
    address.steps.push(LocationStep {
        namespace: None,
        name: "schemeID".to_owned(),
        index: 1,
    });

    assert_eq!(
        document.resolve(&address),
        Some(context(vec![instance("lines", 1)]))
    );
    assert_eq!(document.resolve(&location(&[("xsi", "Invoice", 1)])), None);
}

#[test]
fn drops_a_term_the_profile_forbids() {
    // Peppol BIS forbids the note subject code (BT-21).
    let mut source = builder();
    source.profile = Profile::PeppolBisBilling30;
    let document = written(source);
    let xml = document.xml();

    assert!(xml.contains("<cbc:CustomizationID>urn:cen.eu:en16931:2017#compliant"));
    assert!(xml.contains("<cbc:Note>General note text</cbc:Note>"));
    assert!(!xml.contains("#AAB#"));
}

#[test]
fn keeps_the_note_subject_the_base_profile_allows() {
    let document = written(builder());

    assert!(document.xml().contains("<cbc:Note>#AAB#General note text</cbc:Note>"));
}

#[test]
fn serializes_an_empty_invoice_without_totals() {
    let document = written(empty_builder());

    assert!(document
        .xml()
        .contains("<cbc:InvoiceTypeCode>380</cbc:InvoiceTypeCode>"));
    assert!(!document.xml().contains("LegalMonetaryTotal"));
    assert!(!document.xml().contains("TaxTotal"));
}

#[test]
fn writes_the_root_with_every_namespace_of_the_set() {
    let document = written(empty_builder());

    assert!(document.xml().starts_with(
        "<Invoice xmlns=\"urn:oasis:names:specification:ubl:schema:xsd:Invoice-2\" xmlns:cac=\"urn:oasis:names:specification:ubl:schema:xsd:CommonAggregateComponents-2\" xmlns:cbc=\"urn:oasis:names:specification:ubl:schema:xsd:CommonBasicComponents-2\">"
    ));
    assert!(document.xml().ends_with("</Invoice>"));
}

#[test]
fn serializes_a_stated_zero_total() {
    let mut source = empty_builder();
    source.invoice.allowances_total = Some(Decimal::zero());

    let document = written(source);

    assert!(document
        .xml()
        .contains("<cbc:AllowanceTotalAmount>0.00</cbc:AllowanceTotalAmount>"));
}

#[test]
fn rounds_an_amount_to_two_decimals_on_serialization() {
    let mut source = empty_builder();
    source.invoice.due = Some(Decimal::new(10505, 3));
    source.invoice.rounding = Some(Decimal::new(-10505, 3));
    source.invoice.paid = Some(Decimal::new(105, 1));

    let document = written(source);
    let xml = document.xml();

    assert!(xml.contains("<cbc:PayableAmount>10.51</cbc:PayableAmount>"));
    assert!(xml.contains("<cbc:PayableRoundingAmount>-10.51</cbc:PayableRoundingAmount>"));
    assert!(xml.contains("<cbc:PrepaidAmount>10.50</cbc:PrepaidAmount>"));
    // The model keeps the amount as the issuer stated it.
    assert_eq!(document.into_invoice().due, Some(Decimal::new(10505, 3)));
}

#[test]
fn serializes_a_price_with_its_own_scale() {
    let mut source = empty_builder();
    let mut priced = line("1", 0);
    priced.net_amount = None;
    priced.price = Some(Price {
        gross: Decimal::new(5, 3),
        discount: None,
        base_quantity: None,
    });
    source.invoice.lines = vec![priced];

    let document = written(source);

    assert!(document
        .xml()
        .contains("<cbc:PriceAmount>0.005</cbc:PriceAmount>"));
}

#[test]
fn escapes_the_text_it_writes() {
    let mut source = empty_builder();
    source.invoice.number = text("A&B <1>");

    let document = written(source);

    assert!(document.xml().contains("<cbc:ID>A&amp;B &lt;1&gt;</cbc:ID>"));
}

#[test]
fn seeds_the_abbreviations_of_the_rule_sets() {
    let abbreviations = Abbreviations::<ubl::Namespace>::default_abbreviations();

    assert_eq!(abbreviations.resolve("cbc"), Some(ubl::Namespace::Cbc));
}

fn entry(severity: en16931::Severity, steps: Option<Location>, original: &str) -> en16931::Entry {
    en16931::Entry {
        severity,
        code: "BR-01".to_owned(),
        text: "A rule".to_owned(),
        original_location: original.to_owned(),
        normalized_location: steps,
    }
}

#[test]
fn binds_each_finding_to_its_node_and_rejects_on_an_error() {
    let document = written(builder());
    let report = en16931::RawReport {
        findings: vec![
            entry(
                en16931::Severity::Warning,
                Some(location(&[("", "Invoice", 1), ("cbc", "ID", 1)])),
                "/Invoice/cbc:ID",
            ),
            entry(
                en16931::Severity::Error,
                Some(location(&[("", "Invoice", 1), ("cac", "InvoiceLine", 2)])),
                "/Invoice/cac:InvoiceLine[2]",
            ),
        ],
    };

    let invalid = match document.check(report).expect("every finding binds") {
        Err(invalid) => invalid,
        Ok(_) => panic!("an error rejects the document"),
    };

    assert_eq!(invalid.problems().len(), 2);
    assert_eq!(invalid.problems()[0].context, context(vec![field("number")]));
    assert_eq!(invalid.problems()[1].context, context(vec![instance("lines", 2)]));
    assert_eq!(invalid.report().problems[1].code, "BR-01");
    assert_eq!(Invoice::from(invalid), builder().invoice);
}

#[test]
fn accepts_a_document_with_warnings_only() {
    let document = written(builder());
    let report = en16931::RawReport {
        findings: vec![entry(
            en16931::Severity::Information,
            Some(location(&[("", "Invoice", 1)])),
            "/Invoice",
        )],
    };

    let valid = match document.check(report).expect("every finding binds") {
        Ok(valid) => valid,
        Err(_) => panic!("no error rejects the document"),
    };

    assert_eq!(valid.report().problems.len(), 1);
    let recovered: Document<Ubl> = Document::from(valid);
    assert_eq!(recovered.into_invoice(), builder().invoice);
}

#[test]
fn refuses_a_finding_that_binds_to_no_node() {
    let document = written(builder());
    let report = en16931::RawReport {
        findings: vec![
            entry(en16931::Severity::Error, None, "not a path"),
            entry(
                en16931::Severity::Error,
                Some(location(&[("", "Nothing", 1)])),
                "/Nothing",
            ),
        ],
    };

    assert!(matches!(
        document.check(report),
        Err(en16931::Error::UnboundLocation(original)) if original == "not a path"
    ));
}

#[test]
fn writes_an_attachment_in_padded_base64() {
    let mut source = empty_builder();
    source.invoice.supporting_documents = vec![SupportingDocument {
        reference: "ATT-1".parse().expect("a reference"),
        description: None,
        external_location: None,
        attachment: Some(BinaryObject {
            content: b"Hello".to_vec(),
            mime: "text/plain".parse().expect("a mime code"),
            filename: "hello.txt".parse().expect("a filename"),
        }),
    }];
    let document = written(source);
    assert!(document.xml().contains(">SGVsbG8=</cbc:EmbeddedDocumentBinaryObject>"));
}
