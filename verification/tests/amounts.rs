use en16931::{
    Amount, Buyer, Date, Decimal, Error, InvoiceLine, LineAdjustment, NonEmptyString,
    Percentage, Price, Quantity, Reason, Seller, Unit, VatCategory, VatTreatment,
};

#[test]
fn values_a_relative_amount_as_the_base_times_the_rate() {
    let amount = Amount::Relative {
        rate: Percentage::try_from(Decimal::new(15, 1)).expect("a valid rate"),
        base: Decimal::new(20000, 2),
    };

    assert_eq!(amount.value(), Decimal::new(300, 2));
}

#[test]
fn rounds_a_relative_amount_half_away_from_zero() {
    let amount = Amount::Relative {
        rate: Percentage::try_from(Decimal::new(75, 1)).expect("a valid rate"),
        base: Decimal::new(1003, 2),
    };

    // 10.03 * 7.5% = 0.75225 -> 0.75
    assert_eq!(amount.value(), Decimal::new(75, 2));
}

#[test]
fn rounds_a_half_cent_away_from_zero() {
    let amount = Amount::Relative {
        rate: Percentage::try_from(Decimal::new(50, 0)).expect("a valid rate"),
        base: Decimal::new(-1, 2),
    };

    // -0.01 * 50% = -0.005 -> -0.01
    assert_eq!(amount.value(), Decimal::new(-1, 2));
    assert_eq!(amount.value().to_string(), "-0.01");
}

fn price(gross: i64, discount: Option<i64>) -> Price {
    Price {
        gross: Decimal::new(gross, 2),
        discount: discount.map(|value| Decimal::new(value, 2)),
        base_quantity: None,
    }
}

#[test]
fn nets_the_gross_less_the_discount() {
    assert_eq!(price(1000, Some(150)).net(), Decimal::new(850, 2));
}

#[test]
fn nets_to_the_gross_without_a_discount() {
    assert_eq!(price(1000, None).net(), Decimal::new(1000, 2));
}

fn line(quantity: i64, gross: i64, adjustments: Vec<LineAdjustment>) -> InvoiceLine {
    InvoiceLine {
        id: None,
        note: None,
        object: None,
        quantity: Some(Quantity {
            unit: Unit::from_code("C62").expect("C62 is a unit"),
            value: Decimal::new(quantity, 0),
        }),
        net_amount: None,
        order_line_reference: None,
        buyer_accounting_reference: None,
        period: None,
        adjustments,
        price: Some(price(gross, None)),
        vat: None,
        item: None,
    }
}

#[test]
fn nets_the_quantity_times_the_net_price() {
    assert_eq!(
        line(10, 500, Vec::new()).net_amount(),
        Some(Decimal::new(5000, 2))
    );
}

#[test]
fn nets_after_the_line_allowances_and_charges() {
    let adjustments = vec![
        LineAdjustment {
            amount: Amount::Absolute(Decimal::new(200, 2)),
            reason: Reason::Allowance {
                code: None,
                text: None,
            },
        },
        LineAdjustment {
            amount: Amount::Absolute(Decimal::new(50, 2)),
            reason: Reason::Charge {
                code: None,
                text: None,
            },
        },
    ];

    // 10 * 5.00 - 2.00 + 0.50 = 48.50
    assert_eq!(
        line(10, 500, adjustments).net_amount(),
        Some(Decimal::new(4850, 2))
    );
}

#[test]
fn nets_nothing_without_a_price() {
    let line = InvoiceLine {
        price: None,
        ..line(10, 500, Vec::new())
    };

    assert_eq!(line.net_amount(), None);
}

#[test]
fn nets_over_the_base_quantity() {
    let mut line = line(3, 500, Vec::new());
    line.price = Some(Price {
        gross: Decimal::new(500, 2),
        discount: None,
        base_quantity: Some(Quantity {
            unit: Unit::from_code("C62").expect("C62 is a unit"),
            value: Decimal::new(1000, 0),
        }),
    });

    // 3 * 5.00 / 1000 = 0.015 -> 0.02
    assert_eq!(line.net_amount(), Some(Decimal::new(2, 2)));
}

#[test]
fn signs_an_allowance_negative_and_a_charge_positive() {
    let allowance = LineAdjustment {
        amount: Amount::Absolute(Decimal::new(200, 2)),
        reason: Reason::Allowance { code: None, text: None },
    };
    let charge = LineAdjustment {
        amount: Amount::Absolute(Decimal::new(200, 2)),
        reason: Reason::Charge { code: None, text: None },
    };

    assert_eq!(allowance.signed_amount(), Decimal::new(-200, 2));
    assert_eq!(charge.signed_amount(), Decimal::new(2, 0));
}

#[test]
fn compares_decimals_by_value() {
    assert_eq!(Decimal::new(10, 1), Decimal::new(100, 2));
    assert_ne!(Decimal::new(10, 1), Decimal::new(101, 2));
    assert_eq!(Decimal::new(1234, 2).to_string(), "12.34");
    assert_eq!(Decimal::new(5, 3).to_string(), "0.005");
    assert_eq!(Decimal::new(-5, 0).to_string(), "-5");
    assert_eq!(Decimal::parse("12.340"), Some(Decimal::new(12340, 3)));
    assert_eq!(Decimal::parse("12.340").map(|d| d.scale), Some(3));
    assert_eq!(Decimal::parse("abc"), None);
}

#[test]
fn rejects_a_rate_beyond_a_hundred() {
    assert!(Percentage::try_from(Decimal::new(10001, 2)).is_err());
    assert!(Percentage::try_from(Decimal::new(-1, 0)).is_err());
    assert!(Percentage::try_from(Decimal::new(100, 0)).is_ok());
}

#[test]
fn promotes_a_buyer_to_a_seller() {
    let buyer = Buyer {
        name: Some("Acme".parse().expect("a valid name")),
        ..Buyer::new()
    };

    let seller = Seller::from(buyer);

    assert_eq!(
        seller.name,
        Some("Acme".parse::<NonEmptyString>().expect("a valid name"))
    );
    assert!(seller.tax_registration.is_none());
    assert!(seller.additional_legal_information.is_none());
}

#[test]
fn rejects_an_empty_text() {
    assert!("".parse::<NonEmptyString>().is_err());
}

#[test]
fn refuses_a_rated_category_without_a_rate() {
    assert!(matches!(
        VatTreatment::from_parts(VatCategory::Standard, None, None, None),
        Err(Error::InvalidValue(_))
    ));
    let rate = Percentage::try_from(Decimal::new(20, 0)).expect("a valid rate");
    let treatment = VatTreatment::from_parts(VatCategory::Standard, Some(rate), None, None)
        .expect("a rated category with its rate");
    assert_eq!(treatment.category(), VatCategory::Standard);
    assert_eq!(treatment.rate(), Decimal::new(20, 0));
    assert_eq!(VatTreatment::ZeroRated.rate(), Decimal::new(0, 0));
}

#[test]
fn validates_the_values_of_the_outside_lists() {
    assert!(Unit::from_code("C62").is_some());
    assert!(Unit::from_code("NOPE").is_none());
    assert!(en16931::CountryCode::for_alpha2("DE").is_ok());
    assert!(en16931::CountryCode::for_alpha2("XX").is_err());
    assert!(en16931::Currency::from_code("EUR").is_some());
    assert!(en16931::Currency::from_code("EURO").is_none());
    assert!(en16931::EmailAddress::parse("billing@example.com").is_ok());
    assert!(en16931::EmailAddress::parse("not an address").is_err());
    assert!(en16931::Url::parse("https://example.com/a.pdf").is_ok());
    assert!(en16931::Url::parse("no url").is_err());
    assert!(Date::from_calendar_date(2024, 2, 29).is_ok());
    assert!(Date::from_calendar_date(2023, 2, 29).is_err());
    assert!(Date::from_calendar_date(2023, 13, 1).is_err());
}
