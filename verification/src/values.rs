//! The value types of the model: texts, rates, quantities and the codes of the outside lists.

use vstd::prelude::*;
use crate::decimal::{Decimal, DecimalView, pow10};
use crate::error::{Error, ErrorView};
use crate::text::owned;

verus! {

/// A text that holds at least one character.
#[derive(Debug, PartialEq, Eq)]
pub struct NonEmptyString {
    value: String,
}

impl View for NonEmptyString {
    type V = Seq<char>;

    closed spec fn view(&self) -> Seq<char> {
        self.value@
    }
}

impl NonEmptyString {
    #[verifier::type_invariant]
    closed spec fn not_empty(self) -> bool {
        self.value@.len() > 0
    }

    /// The text as a non-empty string, or `Error::InvalidValue` for the empty text.
    pub fn parse(text: &str) -> (r: Result<NonEmptyString, Error>)
        ensures
            text@.len() > 0 ==> (r matches Ok(v) && v@ == text@),
            text@.len() == 0 ==> (r matches Err(e) && e@ == ErrorView::InvalidValue("empty text"@)),
    {
        if text.unicode_len() == 0 {
            Err(Error::invalid_value("empty text"))
        } else {
            Ok(NonEmptyString { value: owned(text) })
        }
    }

    /// The characters of the text.
    pub fn as_str(&self) -> (r: &str)
        ensures
            r@ == self@,
            r@.len() > 0,
    {
        proof {
            use_type_invariant(self);
        }
        self.value.as_str()
    }

    /// An equal copy of the text.
    pub fn copy(&self) -> (r: NonEmptyString)
        ensures
            r@ == self@,
    {
        proof {
            use_type_invariant(self);
        }
        NonEmptyString { value: owned(self.value.as_str()) }
    }

    /// The text as an owned string.
    pub fn to_string(&self) -> (r: String)
        ensures
            r@ == self@,
    {
        owned(self.value.as_str())
    }
}

impl std::str::FromStr for NonEmptyString {
    type Err = Error;

    fn from_str(text: &str) -> Result<NonEmptyString, Error> {
        NonEmptyString::parse(text)
    }
}

/// Whether a decimal lies between zero and one hundred, both included.
pub open spec fn spec_is_percentage(d: DecimalView) -> bool {
    0 <= d.mantissa <= 100 * pow10(d.scale)
}

/// A percentage rate, between zero and one hundred.
#[derive(Debug, Clone, Copy, PartialEq, Eq)]
pub struct Percentage {
    value: Decimal,
}

impl View for Percentage {
    type V = DecimalView;

    closed spec fn view(&self) -> DecimalView {
        self.value@
    }
}

impl Percentage {
    #[verifier::type_invariant]
    closed spec fn in_range(self) -> bool {
        spec_is_percentage(self.value@)
    }

    /// The rate a decimal states, or `Error::InvalidValue` outside zero to one hundred.
    pub fn try_from(value: Decimal) -> (r: Result<Percentage, Error>)
        ensures
            spec_is_percentage(value@) ==> (r matches Ok(p) && p@ == value@),
            !spec_is_percentage(value@) ==> (r matches Err(e) && e is InvalidValue),
    {
        let hundred = match crate::decimal::pow10_i128(value.scale) {
            Some(p) => p.checked_mul(100),
            None => None,
        };
        proof {
            vstd::arithmetic::power::lemma_pow_positive(10, value.scale as nat);
        }
        proof {
            crate::decimal::lemma_pow10_edge();
            vstd::arithmetic::power::lemma_pow_positive(10, 39);
            if hundred is None {
                assert(100 * pow10(value.scale as nat) > i128::MAX);
            }
        }
        let within = match hundred {
            Some(h) => 0 <= value.mantissa && value.mantissa <= h,
            None => 0 <= value.mantissa,
        };
        if within {
            Ok(Percentage { value })
        } else {
            Err(Error::invalid_value("a rate lies between 0 and 100"))
        }
    }

    /// The rate as a decimal.
    pub fn value(&self) -> (r: Decimal)
        ensures
            r@ == self@,
            spec_is_percentage(r@),
    {
        proof {
            use_type_invariant(self);
        }
        self.value
    }
}

/// Whether a text is a code of the UN/CEFACT units of measure (Recommendation 20).
pub uninterp spec fn spec_is_unit_code(code: Seq<char>) -> bool;

/// Whether a text is a unit code.
///
/// Trusted: `cefact_units::UnitCode::from_code`, whose answer is named, not stated.
#[verifier::external_body]
fn is_unit_code(code: &str) -> (r: bool)
    ensures
        r == spec_is_unit_code(code@),
{
    cefact_units::UnitCode::from_code(code).is_some()
}

/// A unit of measure (`BT-130`/`BT-150`), by its UN/CEFACT code.
#[derive(Debug, PartialEq, Eq)]
pub struct Unit {
    code: String,
}

impl View for Unit {
    type V = Seq<char>;

    closed spec fn view(&self) -> Seq<char> {
        self.code@
    }
}

impl Unit {
    #[verifier::type_invariant]
    closed spec fn known(self) -> bool {
        spec_is_unit_code(self.code@)
    }

    /// The unit a code names, if the list carries it.
    pub fn from_code(code: &str) -> (r: Option<Unit>)
        ensures
            spec_is_unit_code(code@) ==> (r matches Some(u) && u@ == code@),
            !spec_is_unit_code(code@) ==> r is None,
    {
        if is_unit_code(code) {
            Some(Unit { code: owned(code) })
        } else {
            None
        }
    }

    /// The code of the unit.
    pub fn code(&self) -> (r: &str)
        ensures
            r@ == self@,
            spec_is_unit_code(r@),
    {
        proof {
            use_type_invariant(self);
        }
        self.code.as_str()
    }

    /// An equal copy of the unit.
    pub fn copy(&self) -> (r: Unit)
        ensures
            r@ == self@,
    {
        proof {
            use_type_invariant(self);
        }
        Unit { code: owned(self.code.as_str()) }
    }
}

/// A quantity: a number of units (`BT-129`+`BT-130`, `BT-149`+`BT-150`).
#[derive(Debug, PartialEq, Eq)]
pub struct Quantity {
    /// The unit of measure.
    pub unit: Unit,
    /// The number of units.
    pub value: Decimal,
}

/// Whether a text is the alpha-2 code of an ISO 3166-1 country.
pub uninterp spec fn spec_is_country_code(code: Seq<char>) -> bool;

/// Whether a text is an alpha-2 country code.
///
/// Trusted: `isocountry::CountryCode::for_alpha2`, whose answer is named, not stated.
#[verifier::external_body]
fn is_country_code(code: &str) -> (r: bool)
    ensures
        r == spec_is_country_code(code@),
{
    isocountry::CountryCode::for_alpha2(code).is_ok()
}

/// A country (`BT-40`/`BT-55`/`BT-69`/`BT-80`/`BT-159`), by its ISO 3166-1 alpha-2 code.
#[derive(Debug, PartialEq, Eq)]
pub struct CountryCode {
    code: String,
}

impl View for CountryCode {
    type V = Seq<char>;

    closed spec fn view(&self) -> Seq<char> {
        self.code@
    }
}

impl CountryCode {
    #[verifier::type_invariant]
    closed spec fn known(self) -> bool {
        spec_is_country_code(self.code@)
    }

    /// The country an alpha-2 code names, or `Error::InvalidValue` for another text.
    pub fn for_alpha2(code: &str) -> (r: Result<CountryCode, Error>)
        ensures
            spec_is_country_code(code@) ==> (r matches Ok(c) && c@ == code@),
            !spec_is_country_code(code@) ==> (r matches Err(e) && e@ == ErrorView::InvalidValue(code@)),
    {
        if is_country_code(code) {
            Ok(CountryCode { code: owned(code) })
        } else {
            Err(Error::invalid_value(code))
        }
    }

    /// The alpha-2 code of the country.
    pub fn alpha2(&self) -> (r: &str)
        ensures
            r@ == self@,
            spec_is_country_code(r@),
    {
        proof {
            use_type_invariant(self);
        }
        self.code.as_str()
    }
}

/// Whether a text is the alphabetic code of an ISO 4217 currency.
pub uninterp spec fn spec_is_currency_code(code: Seq<char>) -> bool;

/// Whether a text is a currency code.
///
/// Trusted: `iso_currency::Currency::from_code`, whose answer is named, not stated.
#[verifier::external_body]
fn is_currency_code(code: &str) -> (r: bool)
    ensures
        r == spec_is_currency_code(code@),
{
    iso_currency::Currency::from_code(code).is_some()
}

/// A currency (`BT-5`/`BT-6`), by its ISO 4217 code.
#[derive(Debug, PartialEq, Eq)]
pub struct Currency {
    code: String,
}

impl View for Currency {
    type V = Seq<char>;

    closed spec fn view(&self) -> Seq<char> {
        self.code@
    }
}

impl Currency {
    #[verifier::type_invariant]
    closed spec fn known(self) -> bool {
        spec_is_currency_code(self.code@)
    }

    /// The currency a code names, if the list carries it.
    pub fn from_code(code: &str) -> (r: Option<Currency>)
        ensures
            spec_is_currency_code(code@) ==> (r matches Some(c) && c@ == code@),
            !spec_is_currency_code(code@) ==> r is None,
    {
        if is_currency_code(code) {
            Some(Currency { code: owned(code) })
        } else {
            None
        }
    }

    /// The code of the currency.
    pub fn code(&self) -> (r: &str)
        ensures
            r@ == self@,
            spec_is_currency_code(r@),
    {
        proof {
            use_type_invariant(self);
        }
        self.code.as_str()
    }
}

/// Whether a text is an e-mail address.
pub uninterp spec fn spec_is_email_address(text: Seq<char>) -> bool;

/// Whether a text is an e-mail address.
///
/// Trusted: `email_address::EmailAddress::is_valid`, whose answer is named, not stated.
#[verifier::external_body]
fn is_email_address(text: &str) -> (r: bool)
    ensures
        r == spec_is_email_address(text@),
{
    email_address::EmailAddress::is_valid(text)
}

/// An e-mail address (`BT-43`/`BT-58`).
#[derive(Debug, PartialEq, Eq)]
pub struct EmailAddress {
    text: String,
}

impl View for EmailAddress {
    type V = Seq<char>;

    closed spec fn view(&self) -> Seq<char> {
        self.text@
    }
}

impl EmailAddress {
    #[verifier::type_invariant]
    closed spec fn valid(self) -> bool {
        spec_is_email_address(self.text@)
    }

    /// The address a text spells, or `Error::InvalidValue` for another text.
    pub fn parse(text: &str) -> (r: Result<EmailAddress, Error>)
        ensures
            spec_is_email_address(text@) ==> (r matches Ok(a) && a@ == text@),
            !spec_is_email_address(text@) ==> (r matches Err(e) && e@ == ErrorView::InvalidValue(text@)),
    {
        if is_email_address(text) {
            Ok(EmailAddress { text: owned(text) })
        } else {
            Err(Error::invalid_value(text))
        }
    }

    /// The text of the address.
    pub fn as_str(&self) -> (r: &str)
        ensures
            r@ == self@,
            spec_is_email_address(r@),
    {
        proof {
            use_type_invariant(self);
        }
        self.text.as_str()
    }
}

/// Whether a text is an absolute URL.
pub uninterp spec fn spec_is_url(text: Seq<char>) -> bool;

/// Whether a text parses as an absolute URL.
///
/// Trusted: `url::Url::parse`, whose answer is named, not stated.
#[verifier::external_body]
fn is_url(text: &str) -> (r: bool)
    ensures
        r == spec_is_url(text@),
{
    url::Url::parse(text).is_ok()
}

/// An external document location (`BT-124`).
#[derive(Debug, PartialEq, Eq)]
pub struct Url {
    text: String,
}

impl View for Url {
    type V = Seq<char>;

    closed spec fn view(&self) -> Seq<char> {
        self.text@
    }
}

impl Url {
    #[verifier::type_invariant]
    closed spec fn valid(self) -> bool {
        spec_is_url(self.text@)
    }

    /// The location a text spells, or `Error::InvalidValue` for another text.
    pub fn parse(text: &str) -> (r: Result<Url, Error>)
        ensures
            spec_is_url(text@) ==> (r matches Ok(u) && u@ == text@),
            !spec_is_url(text@) ==> (r matches Err(e) && e@ == ErrorView::InvalidValue(text@)),
    {
        if is_url(text) {
            Ok(Url { text: owned(text) })
        } else {
            Err(Error::invalid_value(text))
        }
    }

    /// The text of the location, as written.
    pub fn as_str(&self) -> (r: &str)
        ensures
            r@ == self@,
            spec_is_url(r@),
    {
        proof {
            use_type_invariant(self);
        }
        self.text.as_str()
    }
}

/// Whether a year is a leap year of the proleptic Gregorian calendar.
pub open spec fn spec_is_leap_year(year: int) -> bool {
    (year % 4 == 0 && year % 100 != 0) || year % 400 == 0
}

/// The number of days of a month, in a leap year or a common one.
pub open spec fn spec_days_in_month(month: int, leap: bool) -> int {
    if month == 2 {
        if leap { 29 } else { 28 }
    } else if month == 4 || month == 6 || month == 9 || month == 11 {
        30
    } else {
        31
    }
}

/// Whether a year, a month and a day name a day of the proleptic Gregorian calendar
/// that the calendar library represents: a year from -9999 to 9999, a month from 1 to 12,
/// and a day of that month.
pub open spec fn spec_is_calendar_date(year: int, month: int, day: int) -> bool {
    &&& -9999 <= year <= 9999
    &&& 1 <= month <= 12
    &&& 1 <= day <= spec_days_in_month(month, spec_is_leap_year(year))
}

/// Whether a year, a month and a day name a day.
///
/// Trusted: `time::Month::try_from` and `time::Date::from_calendar_date`, which accept a month
/// from 1 to 12, a year in the range the library represents without its large-dates feature,
/// and a day of that month.
#[verifier::external_body]
fn is_calendar_date(year: i32, month: u8, day: u8) -> (r: bool)
    ensures
        r == spec_is_calendar_date(year as int, month as int, day as int),
{
    match time::Month::try_from(month) {
        Ok(month) => time::Date::from_calendar_date(year, month, day).is_ok(),
        Err(_) => false,
    }
}

/// A calendar date (`BT-2`, `BT-7`, `BT-9`, ...).
#[derive(Debug, Clone, Copy, PartialEq, Eq)]
pub struct Date {
    year: i32,
    month: u8,
    day: u8,
}

/// The values of a date: its year, its month and its day.
pub struct DateView {
    pub year: int,
    pub month: int,
    pub day: int,
}

impl View for Date {
    type V = DateView;

    closed spec fn view(&self) -> DateView {
        DateView { year: self.year as int, month: self.month as int, day: self.day as int }
    }
}

impl Date {
    #[verifier::type_invariant]
    closed spec fn valid(self) -> bool {
        spec_is_calendar_date(self.year as int, self.month as int, self.day as int)
    }

    /// The date of a year, a month (1 to 12) and a day, or `Error::InvalidValue` when
    /// they name no day.
    pub fn from_calendar_date(year: i32, month: u8, day: u8) -> (r: Result<Date, Error>)
        ensures
            spec_is_calendar_date(year as int, month as int, day as int) ==> (r matches Ok(d)
                && d@ == (DateView { year: year as int, month: month as int, day: day as int })),
            !spec_is_calendar_date(year as int, month as int, day as int) ==> (r matches Err(e)
                && e is InvalidValue),
    {
        if is_calendar_date(year, month, day) {
            Ok(Date { year, month, day })
        } else {
            Err(Error::invalid_value("not a calendar date"))
        }
    }

    /// The year.
    pub fn year(&self) -> (r: i32)
        ensures
            r as int == self@.year,
    {
        self.year
    }

    /// The month, from 1 to 12.
    pub fn month(&self) -> (r: u8)
        ensures
            r as int == self@.month,
    {
        self.month
    }

    /// The day of the month.
    pub fn day(&self) -> (r: u8)
        ensures
            r as int == self@.day,
    {
        self.day
    }
}

} // verus!
