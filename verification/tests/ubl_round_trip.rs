use en16931::Ubl;
use en16931::{
    Amount, Buyer, Classification, Contact, CountryCode, Currency, Date, Decimal, Delivery,
    Details, Document, DocumentBuilder, EmailAddress, Error, ExemptionReason, Invoice,
    InvoiceLine, InvoiceType, Item, ItemAttribute, LegalEntity, LineAdjustment, NonEmptyString,
    Note, OperationalEntity, PaymentCard, PaymentInstructions, Percentage, Period, PostalAddress,
    Price, Profile, Quantity, Reason, Seller, Unit, VatBreakdown, VatIdentifier, VatTreatment,
};

fn text(value: &str) -> NonEmptyString {
    value.parse().expect("a non-empty string")
}

fn rate(value: i64) -> Percentage {
    Percentage::try_from(Decimal::new(value, 0)).expect("a valid rate")
}

fn date(year: i32, month: u8, day: u8) -> Date {
    Date::from_calendar_date(year, month, day).expect("a valid date")
}

fn address() -> PostalAddress {
    PostalAddress {
        line1: Some(text("Main Street 1")),
        line2: None,
        line3: Some(text("Building B")),
        city: Some(text("Berlin")),
        postal_code: Some(text("10115")),
        country_subdivision: None,
        country: Some(CountryCode::for_alpha2("DE").expect("a country")),
    }
}

fn invoice() -> Invoice {
    let mut invoice = Invoice::new(InvoiceType::CommercialInvoice);
    invoice.number = Some(text("INV-2026-001"));
    invoice.issue_date = Some(date(2026, 1, 15));
    invoice.payment_due_date = Some(date(2026, 2, 14));
    invoice.currency = Some(Currency::from_code("EUR").expect("a currency"));
    invoice.buyer_reference = Some(text("REF-7"));
    invoice.notes = vec![Note {
        subject_code: Some(text("AAB")),
        text: text("General note text"),
    }];
    invoice.invoicing_period = Some(Period {
        start: Some(date(2026, 1, 1)),
        end: Some(date(2026, 1, 31)),
    });
    invoice.purchase_order_reference = Some(text("PO-42"));
    invoice.contract_reference = Some(text("CT-9"));
    invoice.seller = Some(Seller {
        name: Some(text("Acme Supplies")),
        trading_name: Some(text("Acme")),
        identifiers: vec![OperationalEntity {
            id: text("4000001123452"),
            issuer: Some(text("0088")),
        }],
        legal_entity: Some(LegalEntity {
            id: text("HRB 1234"),
            issuer: None,
        }),
        additional_legal_information: Some(text("GmbH")),
        vat: Some(VatIdentifier { id: text("DE123456789") }),
        tax_registration: Some(text("201/113/40209")),
        electronic_address: None,
        address: Some(address()),
        contact: Some(Contact {
            name: Some(text("Jane Doe")),
            telephone: Some(text("+49 30 1234")),
            email: Some(EmailAddress::parse("jane@acme.example").expect("an address")),
        }),
    });
    invoice.buyer = Some(Buyer {
        name: Some(text("Buyer Ltd")),
        vat: Some(VatIdentifier { id: text("FR12345678901") }),
        ..Buyer::new()
    });
    invoice.delivery = Some(Delivery {
        name: Some(text("Warehouse")),
        location: None,
        date: Some(date(2026, 1, 10)),
        address: None,
    });
    invoice.payment_terms = Some(text("30 days net"));
    invoice.adjustments = vec![en16931::Adjustment {
        amount: Amount::Absolute(Decimal::new(1000, 2)),
        vat: VatTreatment::Standard { rate: rate(19) },
        reason: Reason::Allowance {
            code: Some(text("95")),
            text: Some(text("Discount")),
        },
    }];
    invoice.vat_total = Some(Decimal::new(1900, 2));
    invoice.vat_breakdown = vec![VatBreakdown {
        taxable: Some(Decimal::new(10000, 2)),
        tax: Some(Decimal::new(1900, 2)),
        treatment: Some(VatTreatment::Standard { rate: rate(19) }),
    }];
    invoice.line_net_total = Some(Decimal::new(11000, 2));
    invoice.allowances_total = Some(Decimal::new(1000, 2));
    invoice.net_total = Some(Decimal::new(10000, 2));
    invoice.gross_total = Some(Decimal::new(11900, 2));
    invoice.due = Some(Decimal::new(11900, 2));
    invoice.lines = vec![InvoiceLine {
        id: Some(text("1")),
        note: None,
        object: None,
        quantity: Some(Quantity {
            unit: Unit::from_code("C62").expect("a unit"),
            value: Decimal::new(10, 0),
        }),
        net_amount: Some(Decimal::new(11000, 2)),
        order_line_reference: Some(text("3")),
        buyer_accounting_reference: None,
        period: None,
        adjustments: vec![LineAdjustment {
            amount: Amount::Absolute(Decimal::new(500, 2)),
            reason: Reason::Charge {
                code: None,
                text: Some(text("Packing")),
            },
        }],
        price: Some(Price {
            gross: Decimal::new(1200, 2),
            discount: Some(Decimal::new(150, 2)),
            base_quantity: None,
        }),
        vat: Some(VatTreatment::Standard { rate: rate(19) }),
        item: Some(Item {
            name: Some(text("Widget")),
            description: Some(text("A blue widget")),
            seller_id: Some(text("W-1")),
            buyer_id: None,
            standard_id: None,
            classifications: vec![Classification {
                id: Some(text("43211503")),
                scheme: Some(text("STI")),
                version: None,
            }],
            country_of_origin: Some(CountryCode::for_alpha2("CN").expect("a country")),
            attributes: vec![ItemAttribute {
                name: text("Colour"),
                value: text("Blue"),
            }],
        }),
    }];
    invoice
}

fn builder(invoice: Invoice) -> DocumentBuilder {
    DocumentBuilder {
        invoice,
        profile: Profile::En16931,
        business_process: Some("urn:fdc:peppol.eu:2017:poacc:billing:01:1.0".to_owned()),
    }
}

fn written(builder: DocumentBuilder) -> Document<Ubl> {
    Document::try_from(builder).expect("a serialized document")
}

fn read(xml: &str) -> Result<Document<Ubl>, Error> {
    Document::parse(xml)
}

#[test]
fn round_trips_the_document_through_ubl() {
    let document = written(builder(invoice()));

    let parsed = read(document.xml()).expect("a valid UBL document");

    assert_eq!(parsed.target().profile, Profile::En16931);
    assert_eq!(parsed.into_invoice(), invoice());
}

fn card_invoice() -> Invoice {
    let mut invoice = Invoice::new(InvoiceType::CommercialInvoice);
    invoice.number = Some(text("INV-CARD"));
    invoice.payment = Some(PaymentInstructions {
        means: text("48"),
        means_text: Some(text("Card")),
        remittance_information: Some(text("RF18539007547034")),
        details: Some(Details::Card(PaymentCard {
            primary_account_number: text("1234"),
            holder_name: Some(text("Jane Doe")),
        })),
    });
    invoice
}

#[test]
fn round_trips_the_card_document_through_ubl() {
    let document = written(builder(card_invoice()));

    let parsed = read(document.xml()).expect("a valid UBL document");

    assert_eq!(parsed.into_invoice(), card_invoice());
}

fn exempt_invoice() -> Invoice {
    let mut invoice = Invoice::new(InvoiceType::CreditNote);
    invoice.vat_breakdown = vec![VatBreakdown {
        taxable: Some(Decimal::new(100, 0)),
        tax: Some(Decimal::new(0, 0)),
        treatment: Some(VatTreatment::Exempt {
            code: Some(ExemptionReason::Eu132),
            text: Some(text("Exempt supply")),
        }),
    }];
    invoice
}

#[test]
fn round_trips_an_exempt_breakdown() {
    let document = written(builder(exempt_invoice()));

    let parsed = read(document.xml()).expect("a valid UBL document");

    assert_eq!(parsed.into_invoice(), exempt_invoice());
}

#[test]
fn serializes_an_empty_invoice_and_reads_it_back() {
    let empty = || Invoice::new(InvoiceType::CommercialInvoice);
    let document = written(builder(empty()));

    let parsed = read(document.xml()).expect("a valid UBL document");

    assert_eq!(parsed.into_invoice(), empty());
}

#[test]
fn parses_a_document_without_a_number() {
    let document = written(builder(invoice()));
    let xml = document
        .xml()
        .replacen("<cbc:ID>INV-2026-001</cbc:ID>", "", 1);

    let parsed = read(&xml).expect("a valid UBL document");

    assert_eq!(parsed.into_invoice().number, None);
}

#[test]
fn rejects_a_document_without_a_type_code() {
    let xml = r#"<Invoice xmlns="urn:oasis:names:specification:ubl:schema:xsd:Invoice-2" xmlns:cbc="urn:oasis:names:specification:ubl:schema:xsd:CommonBasicComponents-2"><cbc:CustomizationID>urn:cen.eu:en16931:2017</cbc:CustomizationID></Invoice>"#;

    let outcome = read(xml);

    assert!(matches!(outcome, Err(Error::MalformedXml { .. })));
}

#[test]
fn rejects_a_standard_rated_category_without_a_rate() {
    let xml = r#"<Invoice xmlns="urn:oasis:names:specification:ubl:schema:xsd:Invoice-2" xmlns:cac="urn:oasis:names:specification:ubl:schema:xsd:CommonAggregateComponents-2" xmlns:cbc="urn:oasis:names:specification:ubl:schema:xsd:CommonBasicComponents-2"><cbc:CustomizationID>urn:cen.eu:en16931:2017</cbc:CustomizationID><cbc:InvoiceTypeCode>380</cbc:InvoiceTypeCode><cac:InvoiceLine><cac:Item><cac:ClassifiedTaxCategory><cbc:ID>S</cbc:ID><cac:TaxScheme><cbc:ID>VAT</cbc:ID></cac:TaxScheme></cac:ClassifiedTaxCategory></cac:Item></cac:InvoiceLine></Invoice>"#;

    let outcome = read(xml);

    assert!(matches!(outcome, Err(Error::MalformedXml { .. })));
}

#[test]
fn rejects_an_element_of_an_unknown_namespace() {
    let xml = r#"<Invoice xmlns="urn:oasis:names:specification:ubl:schema:xsd:Invoice-2" xmlns:foo="urn:example:unknown"><foo:Bar/></Invoice>"#;

    let outcome = read(xml);

    assert!(matches!(
        outcome,
        Err(Error::MalformedXml(message)) if message.starts_with("unknown namespace")
    ));
}

#[test]
fn maps_the_nodes_it_reads_to_their_contexts() {
    let document = written(builder(invoice()));
    let parsed = read(document.xml()).expect("a valid UBL document");

    let location = en16931::Location {
        steps: vec![
            en16931::LocationStep {
                namespace: Some(en16931::RawNamespace::Abbreviation("ubl".to_owned())),
                name: "Invoice".to_owned(),
                index: 1,
            },
            en16931::LocationStep {
                namespace: Some(en16931::RawNamespace::Abbreviation("cac".to_owned())),
                name: "InvoiceLine".to_owned(),
                index: 1,
            },
        ],
    };

    assert_eq!(
        parsed.resolve(&location),
        Some(en16931::Context {
            segments: vec![en16931::Segment {
                field: "lines",
                index: Some(1),
            }],
        })
    );
}
