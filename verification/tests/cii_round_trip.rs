use en16931::Cii;
use en16931::{
    Amount, Buyer, Classification, Contact, CountryCode, Currency, Date, Decimal, Delivery,
    Details, Document, DocumentBuilder, EmailAddress, Error, ExemptionReason, Invoice,
    InvoiceLine, InvoiceType, Item, ItemAttribute, LegalEntity, LineAdjustment, NonEmptyString,
    Note, OperationalEntity, PaymentCard, PaymentInstructions, CreditTransfer, DirectDebit, SupportingDocument, BinaryObject, Url, ObjectReference, PrecedingInvoice, Percentage, Period, PostalAddress,
    Price, Profile, Quantity, Reason, Seller, Unit, VatBreakdown, VatIdentifier, VatTreatment,
};

fn text(value: &str) -> NonEmptyString {
    value.parse().expect("a non-empty string")
}

fn rate(value: i64) -> Percentage {
    Percentage::try_from(Decimal::new(value, 0)).expect("a valid rate")
}

fn date(year: i32, month: u8, day: u8) -> Date {
    Date::from_calendar_date(year, month, day).expect("a valid date")
}

fn address() -> PostalAddress {
    PostalAddress {
        line1: Some(text("Main Street 1")),
        line2: None,
        line3: Some(text("Building B")),
        city: Some(text("Berlin")),
        postal_code: Some(text("10115")),
        country_subdivision: None,
        country: Some(CountryCode::for_alpha2("DE").expect("a country")),
    }
}

fn invoice() -> Invoice {
    let mut invoice = Invoice::new(InvoiceType::CommercialInvoice);
    invoice.number = Some(text("INV-2026-001"));
    invoice.issue_date = Some(date(2026, 1, 15));
    invoice.payment_due_date = Some(date(2026, 2, 14));
    invoice.currency = Some(Currency::from_code("EUR").expect("a currency"));
    invoice.buyer_reference = Some(text("REF-7"));
    invoice.notes = vec![Note {
        subject_code: Some(text("AAB")),
        text: text("General note text"),
    }];
    invoice.invoicing_period = Some(Period {
        start: Some(date(2026, 1, 1)),
        end: Some(date(2026, 1, 31)),
    });
    invoice.purchase_order_reference = Some(text("PO-42"));
    invoice.contract_reference = Some(text("CT-9"));
    invoice.seller = Some(Seller {
        name: Some(text("Acme Supplies")),
        trading_name: Some(text("Acme")),
        identifiers: vec![OperationalEntity {
            id: text("4000001123452"),
            issuer: Some(text("0088")),
        }],
        legal_entity: Some(LegalEntity {
            id: text("HRB 1234"),
            issuer: None,
        }),
        additional_legal_information: Some(text("GmbH")),
        vat: Some(VatIdentifier { id: text("DE123456789") }),
        tax_registration: Some(text("201/113/40209")),
        electronic_address: None,
        address: Some(address()),
        contact: Some(Contact {
            name: Some(text("Jane Doe")),
            telephone: Some(text("+49 30 1234")),
            email: Some(EmailAddress::parse("jane@acme.example").expect("an address")),
        }),
    });
    invoice.buyer = Some(Buyer {
        name: Some(text("Buyer Ltd")),
        vat: Some(VatIdentifier { id: text("FR12345678901") }),
        ..Buyer::new()
    });
    invoice.delivery = Some(Delivery {
        name: Some(text("Warehouse")),
        location: None,
        date: Some(date(2026, 1, 10)),
        address: None,
    });
    invoice.payment_terms = Some(text("30 days net"));
    invoice.adjustments = vec![en16931::Adjustment {
        amount: Amount::Absolute(Decimal::new(1000, 2)),
        vat: VatTreatment::Standard { rate: rate(19) },
        reason: Reason::Allowance {
            code: Some(text("95")),
            text: Some(text("Discount")),
        },
    }];
    invoice.vat_total = Some(Decimal::new(1900, 2));
    invoice.vat_breakdown = vec![VatBreakdown {
        taxable: Some(Decimal::new(10000, 2)),
        tax: Some(Decimal::new(1900, 2)),
        treatment: Some(VatTreatment::Standard { rate: rate(19) }),
    }];
    invoice.line_net_total = Some(Decimal::new(11000, 2));
    invoice.allowances_total = Some(Decimal::new(1000, 2));
    invoice.net_total = Some(Decimal::new(10000, 2));
    invoice.gross_total = Some(Decimal::new(11900, 2));
    invoice.due = Some(Decimal::new(11900, 2));
    invoice.lines = vec![InvoiceLine {
        id: Some(text("1")),
        note: None,
        object: None,
        quantity: Some(Quantity {
            unit: Unit::from_code("C62").expect("a unit"),
            value: Decimal::new(10, 0),
        }),
        net_amount: Some(Decimal::new(11000, 2)),
        order_line_reference: Some(text("3")),
        buyer_accounting_reference: None,
        period: None,
        adjustments: vec![LineAdjustment {
            amount: Amount::Absolute(Decimal::new(500, 2)),
            reason: Reason::Charge {
                code: None,
                text: Some(text("Packing")),
            },
        }],
        price: Some(Price {
            gross: Decimal::new(1200, 2),
            discount: Some(Decimal::new(150, 2)),
            base_quantity: None,
        }),
        vat: Some(VatTreatment::Standard { rate: rate(19) }),
        item: Some(Item {
            name: Some(text("Widget")),
            description: Some(text("A blue widget")),
            seller_id: Some(text("W-1")),
            buyer_id: None,
            standard_id: None,
            classifications: vec![Classification {
                id: Some(text("43211503")),
                scheme: Some(text("STI")),
                version: None,
            }],
            country_of_origin: Some(CountryCode::for_alpha2("CN").expect("a country")),
            attributes: vec![ItemAttribute {
                name: text("Colour"),
                value: text("Blue"),
            }],
        }),
    }];
    invoice
}

fn builder(invoice: Invoice) -> DocumentBuilder {
    DocumentBuilder {
        invoice,
        profile: Profile::En16931,
        business_process: Some("urn:fdc:peppol.eu:2017:poacc:billing:01:1.0".to_owned()),
    }
}

fn written(builder: DocumentBuilder) -> Document<Cii> {
    Document::try_from(builder).expect("a serialized document")
}

fn read(xml: &str) -> Result<Document<Cii>, Error> {
    Document::parse(xml)
}

#[test]
fn round_trips_the_document_through_cii() {
    let document = written(builder(invoice()));

    let parsed = read(document.xml()).expect("a valid CII document");

    assert_eq!(parsed.target().profile, Profile::En16931);
    assert_eq!(parsed.target().binding, en16931::Binding::Cii);
    assert_eq!(parsed.into_invoice(), invoice());
}

#[test]
fn writes_the_cii_root_and_context() {
    let document = written(builder(invoice()));
    let xml = document.xml();

    assert!(xml.starts_with("<rsm:CrossIndustryInvoice xmlns:rsm=\"urn:un:unece:uncefact:data:standard:CrossIndustryInvoice:100\""));
    assert!(xml.contains("<ram:GuidelineSpecifiedDocumentContextParameter><ram:ID>urn:cen.eu:en16931:2017</ram:ID></ram:GuidelineSpecifiedDocumentContextParameter>"));
    assert!(xml.contains("<ram:IssueDateTime><udt:DateTimeString format=\"102\">20260115</udt:DateTimeString></ram:IssueDateTime>"));
    assert!(xml.contains("<ram:TaxTotalAmount currencyID=\"EUR\">19.00</ram:TaxTotalAmount>"));
    assert!(xml.ends_with("</rsm:CrossIndustryInvoice>"));
}

fn payment_invoice(details: Details) -> Invoice {
    let mut invoice = Invoice::new(InvoiceType::CommercialInvoice);
    invoice.number = Some(text("INV-PAY"));
    invoice.payment = Some(PaymentInstructions {
        means: text("58"),
        means_text: Some(text("Transfer")),
        remittance_information: Some(text("RF18539007547034")),
        details: Some(details),
    });
    invoice
}

#[test]
fn round_trips_a_card_payment_through_cii() {
    let card = || {
        payment_invoice(Details::Card(PaymentCard {
            primary_account_number: text("1234"),
            holder_name: Some(text("Jane Doe")),
        }))
    };
    let parsed = read(written(builder(card())).xml()).expect("a valid CII document");

    assert_eq!(parsed.into_invoice(), card());
}

#[test]
fn round_trips_credit_transfers_through_cii() {
    let transfers = || {
        payment_invoice(Details::CreditTransfers(vec![
            CreditTransfer {
                account: text("DE89370400440532013000"),
                account_name: Some(text("Acme")),
                provider: Some(text("COBADEFFXXX")),
            },
            CreditTransfer {
                account: text("FR1420041010050500013M02606"),
                account_name: None,
                provider: None,
            },
        ]))
    };
    let parsed = read(written(builder(transfers())).xml()).expect("a valid CII document");

    assert_eq!(parsed.into_invoice(), transfers());
}

#[test]
fn round_trips_a_direct_debit_through_cii() {
    let debit = || {
        payment_invoice(Details::DirectDebit(DirectDebit {
            mandate_reference: Some(text("MANDATE-1")),
            creditor_identifier: Some(text("DE98ZZZ09999999999")),
            debited_account: Some(text("DE02120300000000202051")),
        }))
    };
    let document = written(builder(debit()));

    assert!(document.xml().contains("<ram:DirectDebitMandateID>MANDATE-1</ram:DirectDebitMandateID>"));
    let parsed = read(document.xml()).expect("a valid CII document");

    assert_eq!(parsed.into_invoice(), debit());
}

fn exempt_line_invoice() -> Invoice {
    let exempt = || VatTreatment::Exempt {
        code: Some(ExemptionReason::Eu132),
        text: Some(text("Exempt supply")),
    };
    let mut invoice = Invoice::new(InvoiceType::CreditNote);
    invoice.vat_breakdown = vec![VatBreakdown {
        taxable: Some(Decimal::new(100, 0)),
        tax: Some(Decimal::new(0, 0)),
        treatment: Some(exempt()),
    }];
    invoice.lines = vec![InvoiceLine {
        id: Some(text("1")),
        note: Some(text("A note")),
        object: Some(ObjectReference { id: text("OBJ-1"), scheme: Some(text("AAA")) }),
        quantity: None,
        net_amount: Some(Decimal::new(100, 0)),
        order_line_reference: None,
        buyer_accounting_reference: Some(text("4711")),
        period: Some(Period { start: Some(date(2026, 1, 1)), end: None }),
        adjustments: Vec::new(),
        price: Some(Price { gross: Decimal::new(100, 0), discount: None, base_quantity: None }),
        vat: Some(exempt()),
        item: None,
    }];
    invoice
}

#[test]
fn gives_the_breakdown_exemption_to_the_lines_in_cii() {
    let parsed = read(written(builder(exempt_line_invoice())).xml()).expect("a valid CII document");

    assert_eq!(parsed.into_invoice(), exempt_line_invoice());
}

fn referenced_invoice() -> Invoice {
    let mut invoice = Invoice::new(InvoiceType::CommercialInvoice);
    invoice.tender_or_lot_reference = Some(text("LOT-3"));
    invoice.object = Some(ObjectReference { id: text("OBJ-9"), scheme: None });
    invoice.project_reference = Some(text("PRJ-1"));
    invoice.sales_order_reference = Some(text("SO-5"));
    invoice.despatch_advice_reference = Some(text("DA-1"));
    invoice.receiving_advice_reference = Some(text("RA-1"));
    invoice.buyer_accounting_reference = Some(text("ACC-1"));
    invoice.preceding_invoices = vec![PrecedingInvoice {
        number: Some(text("INV-2025-099")),
        issue_date: Some(date(2025, 12, 31)),
    }];
    invoice.supporting_documents = vec![SupportingDocument {
        reference: text("DOC-1"),
        description: Some(text("Timesheet")),
        external_location: Some(Url::parse("https://example.com/doc").expect("a url")),
        attachment: Some(BinaryObject {
            content: vec![1, 2, 3, 250],
            mime: text("application/pdf"),
            filename: text("timesheet.pdf"),
        }),
    }];
    invoice
}

#[test]
fn round_trips_the_references_through_cii() {
    let parsed = read(written(builder(referenced_invoice())).xml()).expect("a valid CII document");

    assert_eq!(parsed.into_invoice(), referenced_invoice());
}

#[test]
fn serializes_an_empty_invoice_to_cii_and_reads_it_back() {
    let empty = || Invoice::new(InvoiceType::CommercialInvoice);
    let parsed = read(written(builder(empty())).xml()).expect("a valid CII document");

    assert_eq!(parsed.into_invoice(), empty());
}

#[test]
fn reads_a_negative_year_written_in_basic_form() {
    let mut invoice = Invoice::new(InvoiceType::CommercialInvoice);
    invoice.issue_date = Some(date(-5, 3, 1));
    let document = written(builder(invoice));

    assert!(document.xml().contains(">-0050301</udt:DateTimeString>"));
    let parsed = read(document.xml()).expect("a valid CII document");
    assert_eq!(parsed.into_invoice().issue_date, Some(date(-5, 3, 1)));
}

#[test]
fn rejects_a_cii_date_of_the_wrong_length() {
    let document = written(builder(invoice()));
    let xml = document.xml().replacen(">20260115<", ">2026-01-15<", 1);

    let outcome = read(&xml);

    assert!(matches!(outcome, Err(Error::MalformedXml(message)) if message == "invalid date: 2026-01-15"));
}

#[test]
fn rejects_a_cii_document_without_a_guideline() {
    let xml = r#"<rsm:CrossIndustryInvoice xmlns:rsm="urn:un:unece:uncefact:data:standard:CrossIndustryInvoice:100" xmlns:ram="urn:un:unece:uncefact:data:standard:ReusableAggregateBusinessInformationEntity:100"><rsm:ExchangedDocumentContext></rsm:ExchangedDocumentContext></rsm:CrossIndustryInvoice>"#;

    let outcome = read(xml);

    assert!(matches!(outcome, Err(Error::MalformedXml(message)) if message == "expected <GuidelineSpecifiedDocumentContextParameter>"));
}

#[test]
fn drops_the_note_subject_in_cii_when_the_profile_forbids_it() {
    let mut source = builder(invoice());
    source.profile = Profile::PeppolBisBilling30;
    let document = written(source);

    assert!(!document.xml().contains("SubjectCode"));
}
