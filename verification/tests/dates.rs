use en16931::cii_write::basic_date;
use en16931::reading::{parse_basic_date, parse_date};
use en16931::ubl_write::date_text;
use en16931::{Date, Error, Profile};

fn date(year: i32, month: u8, day: u8) -> Date {
    Date::from_calendar_date(year, month, day).expect("a valid date")
}

#[test]
fn writes_the_ubl_calendar_form() {
    assert_eq!(date_text(&date(2026, 1, 5)), "2026-01-05");
    assert_eq!(date_text(&date(987, 12, 31)), "0987-12-31");
    assert_eq!(date_text(&date(-5, 3, 1)), "-005-03-01");
}

#[test]
fn reads_back_the_ubl_calendar_form() {
    for value in [date(2026, 1, 5), date(987, 12, 31), date(2024, 2, 29)] {
        assert_eq!(parse_date(&date_text(&value)).expect("a date"), value);
    }
}

#[test]
fn does_not_read_back_a_ubl_date_before_year_zero() {
    assert!(matches!(parse_date("-005-03-01"), Err(Error::MalformedXml(_))));
}

#[test]
fn writes_the_cii_basic_form() {
    assert_eq!(basic_date(&date(2026, 1, 5)), "20260105");
    assert_eq!(basic_date(&date(987, 12, 31)), "09871231");
    assert_eq!(basic_date(&date(-5, 3, 1)), "-0050301");
}

#[test]
fn reads_back_the_cii_basic_form() {
    for value in [date(2026, 1, 5), date(987, 12, 31), date(-5, 3, 1), date(2024, 2, 29)] {
        assert_eq!(parse_basic_date(&basic_date(&value)).expect("a date"), value);
    }
}

#[test]
fn reads_a_basic_date_inside_white_space() {
    assert_eq!(parse_basic_date("  20260105\n").expect("a date"), date(2026, 1, 5));
}

#[test]
fn rejects_a_basic_date_that_names_no_day() {
    assert!(matches!(
        parse_basic_date("20230229"),
        Err(Error::MalformedXml(message)) if message == "invalid date: 20230229"
    ));
    assert!(matches!(
        parse_basic_date("2023+229"),
        Err(Error::MalformedXml(message)) if message == "invalid date: 2023+229"
    ));
}

#[test]
fn parses_back_the_identifier_of_each_profile() {
    for profile in [
        Profile::En16931,
        Profile::PeppolBisBilling30,
        Profile::XRechnung23Extension,
        Profile::XRechnung23,
        Profile::CiusAtGov110,
        Profile::PintMySelfBilling,
    ] {
        assert_eq!(Profile::parse(&profile.to_string()).expect("a profile"), profile);
    }
}
