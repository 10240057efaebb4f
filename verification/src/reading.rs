//! The readers of the values a binding writes as text: dates, amounts, codes and notes.

use vstd::prelude::*;
use crate::decimal::{Decimal, DecimalView, spec_parse_decimal};
use crate::error::{Error, ErrorView};
use crate::model::{Note, Period};
use crate::text::{append_str, owned, parse_unsigned, spec_parse_unsigned, spec_trim, str_eq, trim};
use crate::values::{CountryCode, Currency, Date, EmailAddress, NonEmptyString, Quantity, Unit, Url};

verus! {

/// An error of a malformed value: its label followed by the text as written.
pub open spec fn spec_invalid(label: Seq<char>, value: Seq<char>) -> ErrorView {
    ErrorView::MalformedXml(label + value)
}

/// The error of a malformed value: its label followed by the text as written.
pub fn invalid(label: &str, value: &str) -> (e: Error)
    ensures
        e@ == spec_invalid(label@, value@),
{
    Error::malformed_xml_with(label, value)
}

/// The value of the first attribute with the key, if any.
pub open spec fn spec_attribute(attributes: Seq<(Seq<char>, Seq<char>)>, key: Seq<char>) -> Option<Seq<char>>
    decreases attributes.len(),
{
    if attributes.len() == 0 {
        None
    } else if attributes[0].0 == key {
        Some(attributes[0].1)
    } else {
        spec_attribute(attributes.drop_first(), key)
    }
}

/// The value of the first attribute with the key, if any.
pub fn attribute<'a>(attributes: &'a Vec<(String, String)>, key: &str) -> (r: Option<&'a str>)
    ensures
        match spec_attribute(crate::token::spec_attributes(attributes@), key@) {
            Some(v) => r matches Some(x) && x@ == v,
            None => r is None,
        },
{
    let ghost all = crate::token::spec_attributes(attributes@);
    let mut i: usize = 0;
    proof {
        assert(all.skip(0) =~= all);
    }
    while i < attributes.len()
        invariant
            i <= attributes@.len(),
            all == crate::token::spec_attributes(attributes@),
            spec_attribute(all.skip(i as int), key@) == spec_attribute(all, key@),
        decreases attributes@.len() - i,
    {
        proof {
            assert(all.skip(i as int)[0] == all[i as int]);
            assert(all.skip(i as int).drop_first() =~= all.skip(i + 1));
        }
        if str_eq(attributes[i].0.as_str(), key) {
            return Some(attributes[i].1.as_str());
        }
        i = i + 1;
    }
    None
}

/// A decimal from its text, surrounding white space aside.
pub fn parse_decimal(value: &str) -> (r: Result<Decimal, Error>)
    ensures
        match spec_parse_decimal(spec_trim(value@)) {
            Some((m, s)) => r matches Ok(d) && d@ == (DecimalView { mantissa: m, scale: s }),
            None => r matches Err(e) && e@ == spec_invalid("invalid decimal: "@, value@),
        },
{
    match Decimal::parse(trim(value)) {
        Some(d) => Ok(d),
        None => Err(invalid("invalid decimal: ", value)),
    }
}

/// A currency from its code, surrounding white space aside.
pub fn parse_currency(value: &str) -> (r: Result<Currency, Error>)
    ensures
        crate::values::spec_is_currency_code(spec_trim(value@)) ==> (r matches Ok(c) && c@ == spec_trim(value@)),
        !crate::values::spec_is_currency_code(spec_trim(value@)) ==> (r matches Err(e) && e@ == spec_invalid("invalid currency: "@, value@)),
{
    match Currency::from_code(trim(value)) {
        Some(c) => Ok(c),
        None => Err(invalid("invalid currency: ", value)),
    }
}

/// A country from its alpha-2 code, surrounding white space aside.
pub fn parse_country(value: &str) -> (r: Result<CountryCode, Error>)
    ensures
        crate::values::spec_is_country_code(spec_trim(value@)) ==> (r matches Ok(c) && c@ == spec_trim(value@)),
        !crate::values::spec_is_country_code(spec_trim(value@)) ==> (r matches Err(e) && e@ == spec_invalid("invalid country: "@, value@)),
{
    match CountryCode::for_alpha2(trim(value)) {
        Ok(c) => Ok(c),
        Err(_) => Err(invalid("invalid country: ", value)),
    }
}

/// An e-mail address from its text, surrounding white space aside.
pub fn parse_email(value: &str) -> (r: Result<EmailAddress, Error>)
    ensures
        crate::values::spec_is_email_address(spec_trim(value@)) ==> (r matches Ok(a) && a@ == spec_trim(value@)),
        !crate::values::spec_is_email_address(spec_trim(value@)) ==> (r matches Err(e) && e@ == spec_invalid("invalid email: "@, value@)),
{
    match EmailAddress::parse(trim(value)) {
        Ok(a) => Ok(a),
        Err(_) => Err(invalid("invalid email: ", value)),
    }
}

/// A URL from its text, surrounding white space aside.
pub fn parse_url(value: &str) -> (r: Result<Url, Error>)
    ensures
        crate::values::spec_is_url(spec_trim(value@)) ==> (r matches Ok(u) && u@ == spec_trim(value@)),
        !crate::values::spec_is_url(spec_trim(value@)) ==> (r matches Err(e) && e@ == spec_invalid("invalid url: "@, value@)),
{
    match Url::parse(trim(value)) {
        Ok(u) => Ok(u),
        Err(_) => Err(invalid("invalid url: ", value)),
    }
}

/// A quantity from its `unitCode` attribute and its text.
pub fn parse_quantity(attributes: &Vec<(String, String)>, text: &str) -> (r: Result<Quantity, Error>)
    ensures
        spec_attribute(crate::token::spec_attributes(attributes@), "unitCode"@) is None ==> (r matches Err(e)
            && e@ == ErrorView::MalformedXml("a quantity without a unit"@)),
        r matches Ok(q) ==> spec_attribute(crate::token::spec_attributes(attributes@), "unitCode"@) == Some(q.unit@)
            && spec_parse_decimal(spec_trim(text@)) == Some((q.value@.mantissa, q.value@.scale)),
        r is Ok <==> (spec_attribute(crate::token::spec_attributes(attributes@), "unitCode"@) matches Some(u)
            && crate::values::spec_is_unit_code(u) && spec_parse_decimal(spec_trim(text@)) is Some),
{
    let code = match attribute(attributes, "unitCode") {
        Some(code) => code,
        None => {
            return Err(Error::malformed_xml("a quantity without a unit"));
        },
    };
    let unit = match Unit::from_code(code) {
        Some(unit) => unit,
        None => {
            return Err(invalid("invalid unit: ", code));
        },
    };
    let value = parse_decimal(text)?;
    Ok(Quantity { unit, value })
}

/// The index of the first `#` at or after `from`, if any.
pub open spec fn spec_find_hash(s: Seq<char>, from: int) -> Option<int>
    decreases s.len() - from,
{
    if from < 0 || from >= s.len() {
        None
    } else if s[from] == '#' {
        Some(from)
    } else {
        spec_find_hash(s, from + 1)
    }
}

/// The subject code and the text a written note holds: `#subject#text`, or the bare text.
pub open spec fn spec_note_parts(value: Seq<char>) -> (Option<Seq<char>>, Seq<char>) {
    if value.len() > 0 && value[0] == '#' {
        match spec_find_hash(value, 1) {
            Some(i) => (Some(value.subrange(1, i)), value.subrange(i + 1, value.len() as int)),
            None => (None, value),
        }
    } else {
        (None, value)
    }
}

// The index of the first `#` at or after `from`, if any.
fn find_hash(s: &str, from: usize) -> (r: Option<usize>)
    requires
        from <= s@.len(),
    ensures
        match spec_find_hash(s@, from as int) {
            Some(i) => r == Some(i as usize) && from <= i < s@.len(),
            None => r is None,
        },
{
    let n = s.unicode_len();
    let mut i = from;
    while i < n
        invariant
            from <= i <= n,
            n == s@.len(),
            spec_find_hash(s@, i as int) == spec_find_hash(s@, from as int),
        decreases n - i,
    {
        if s.get_char(i) == '#' {
            return Some(i);
        }
        i = i + 1;
    }
    None
}

/// A note from its written form: `#subject#text`, or the bare text.
pub fn parse_note(value: &str) -> (r: Result<Note, Error>)
    ensures
        r is Ok <==> match spec_note_parts(value@) {
            (Some(code), text) => code.len() > 0 && text.len() > 0,
            (None, text) => text.len() > 0,
        },
        r matches Err(e) ==> e@ == ErrorView::InvalidValue("empty text"@),
        r matches Ok(n) ==> match spec_note_parts(value@) {
            (Some(code), text) => (n.subject_code matches Some(c) && c@ == code) && n.text@ == text,
            (None, text) => n.subject_code is None && n.text@ == text,
        },
{
    let n = value.unicode_len();
    if n > 0 && value.get_char(0) == '#' {
        if let Some(i) = find_hash(value, 1) {
            let code = NonEmptyString::parse(value.substring_char(1, i))?;
            let text = NonEmptyString::parse(value.substring_char(i + 1, n))?;
            return Ok(Note { subject_code: Some(code), text });
        }
    }
    Ok(Note { subject_code: None, text: NonEmptyString::parse(value)? })
}

/// A period from its start and end, absent when neither is stated.
pub fn period_from(start: Option<Date>, end: Option<Date>) -> (r: Option<Period>)
    ensures
        (start is None && end is None) <==> r is None,
        r matches Some(p) ==> p.start == start && p.end == end,
{
    if start.is_none() && end.is_none() {
        None
    } else {
        Some(Period { start, end })
    }
}

/// The three parts of a text split at its first two dashes, when it has two.
pub open spec fn spec_date_parts(s: Seq<char>) -> Option<(Seq<char>, Seq<char>, Seq<char>)> {
    match spec_find_dash(s, 0) {
        None => None,
        Some(i) => match spec_find_dash(s, i + 1) {
            None => None,
            Some(j) => {
                let rest = s.subrange(j + 1, s.len() as int);
                let third = match spec_find_dash(rest, 0) {
                    Some(k) => rest.subrange(0, k),
                    None => rest,
                };
                Some((s.subrange(0, i), s.subrange(i + 1, j), third))
            },
        },
    }
}

/// The index of the first `-` at or after `from`, if any.
pub open spec fn spec_find_dash(s: Seq<char>, from: int) -> Option<int>
    decreases s.len() - from,
{
    if from < 0 || from >= s.len() {
        None
    } else if s[from] == '-' {
        Some(from)
    } else {
        spec_find_dash(s, from + 1)
    }
}

// The index of the first `-` at or after `from`, if any.
fn find_dash(s: &str, from: usize) -> (r: Option<usize>)
    requires
        from <= s@.len(),
    ensures
        match spec_find_dash(s@, from as int) {
            Some(i) => r == Some(i as usize) && from <= i < s@.len(),
            None => r is None,
        },
{
    let n = s.unicode_len();
    let mut i = from;
    while i < n
        invariant
            from <= i <= n,
            n == s@.len(),
            spec_find_dash(s@, i as int) == spec_find_dash(s@, from as int),
        decreases n - i,
    {
        if s.get_char(i) == '-' {
            return Some(i);
        }
        i = i + 1;
    }
    None
}

/// A date from its ISO-8601 calendar form (`YYYY-MM-DD`): the year, the month and the day
/// read as the unsigned decimals of their parts, then checked against the calendar.
pub open spec fn spec_parse_date(value: Seq<char>) -> Option<(int, int, int)> {
    match spec_date_parts(value) {
        Some((y, m, d)) => match (
            spec_parse_unsigned(y, 2147483647),
            spec_parse_unsigned(m, 255),
            spec_parse_unsigned(d, 255),
        ) {
            (Some(year), Some(month), Some(day)) => if crate::values::spec_is_calendar_date(
                year as int,
                month as int,
                day as int,
            ) {
                Some((year as int, month as int, day as int))
            } else {
                None
            },
            _ => None,
        },
        None => None,
    }
}

/// A date from its ISO-8601 calendar form (`YYYY-MM-DD`).
pub fn parse_date(value: &str) -> (r: Result<Date, Error>)
    ensures
        match spec_parse_date(value@) {
            Some((y, m, d)) => r matches Ok(x) && x@.year == y && x@.month == m && x@.day == d,
            None => r matches Err(e) && e@ == spec_invalid("invalid date: "@, value@),
        },
{
    let n = value.unicode_len();
    let parts = match find_dash(value, 0) {
        None => None,
        Some(i) => match find_dash(value, i + 1) {
            None => None,
            Some(j) => {
                let rest = value.substring_char(j + 1, n);
                let third = match find_dash(rest, 0) {
                    Some(k) => rest.substring_char(0, k),
                    None => rest,
                };
                Some((value.substring_char(0, i), value.substring_char(i + 1, j), third))
            },
        },
    };
    proof {
        if let Some((y, m, d)) = parts {
            assert(spec_date_parts(value@) == Some((y@, m@, d@)));
        } else {
            assert(spec_date_parts(value@) is None);
        }
    }
    if let Some((y, m, d)) = parts {
        match (parse_unsigned(y, 2147483647), parse_unsigned(m, 255), parse_unsigned(d, 255)) {
            (Some(year), Some(month), Some(day)) => {
                match Date::from_calendar_date(year as i32, month as u8, day as u8) {
                    Ok(date) => {
                        return Ok(date);
                    },
                    Err(_) => {},
                }
            },
            _ => {},
        }
    }
    Err(invalid("invalid date: ", value))
}

/// A year from its text as a signed decimal: an optional sign, then digits.
pub open spec fn spec_parse_year(y: Seq<char>) -> Option<int> {
    if y.len() > 0 && y[0] == '-' {
        let rest = y.drop_first();
        if rest.len() > 0 && rest[0] == '+' {
            None
        } else {
            match spec_parse_unsigned(rest, 2147483648) {
                Some(n) => Some(-n),
                None => None,
            }
        }
    } else {
        match spec_parse_unsigned(y, 2147483647) {
            Some(n) => Some(n as int),
            None => None,
        }
    }
}

// A year from its text as a signed decimal.
fn parse_year(y: &str) -> (r: Option<i32>)
    ensures
        match spec_parse_year(y@) {
            Some(n) => r == Some(n as i32),
            None => r is None,
        },
{
    let n = y.unicode_len();
    if n > 0 && y.get_char(0) == '-' {
        let rest = y.substring_char(1, n);
        proof {
            assert(rest@ =~= y@.drop_first());
        }
        if n > 1 && rest.get_char(0) == '+' {
            None
        } else {
            match parse_unsigned(rest, 2147483648) {
                Some(m) => {
                    if m == 2147483648u32 {
                        Some(i32::MIN)
                    } else {
                        Some(-(m as i32))
                    }
                },
                None => None,
            }
        }
    } else {
        match parse_unsigned(y, 2147483647) {
            Some(m) => Some(m as i32),
            None => None,
        }
    }
}

/// A date from its ISO-8601 basic form (`YYYYMMDD`): eight characters, the year read as a
/// signed decimal of the first four, the month and the day as the unsigned decimals of the
/// next two and the last two, then checked against the calendar.
pub open spec fn spec_read_basic_date(v: Seq<char>) -> Option<(int, int, int)> {
    if v.len() != 8 {
        None
    } else {
        match (
            spec_parse_year(v.subrange(0, 4)),
            spec_parse_unsigned(v.subrange(4, 6), 255),
            spec_parse_unsigned(v.subrange(6, 8), 255),
        ) {
            (Some(year), Some(month), Some(day)) => if crate::values::spec_is_calendar_date(
                year,
                month as int,
                day as int,
            ) {
                Some((year, month as int, day as int))
            } else {
                None
            },
            _ => None,
        }
    }
}

/// A date from its ISO-8601 basic form (`YYYYMMDD`), surrounding white space aside.
pub open spec fn spec_parse_basic_date(value: Seq<char>) -> Option<(int, int, int)> {
    spec_read_basic_date(spec_trim(value))
}

/// A date from its ISO-8601 basic form (`YYYYMMDD`), the CII form `102`.
pub fn parse_basic_date(value: &str) -> (r: Result<Date, Error>)
    ensures
        match spec_parse_basic_date(value@) {
            Some((y, m, d)) => r matches Ok(x) && x@.year == y && x@.month == m && x@.day == d,
            None => r matches Err(e) && e@ == spec_invalid("invalid date: "@, spec_trim(value@)),
        },
{
    let v = trim(value);
    if v.unicode_len() == 8 {
        let year = parse_year(v.substring_char(0, 4));
        let month = parse_unsigned(v.substring_char(4, 6), 255);
        let day = parse_unsigned(v.substring_char(6, 8), 255);
        match (year, month, day) {
            (Some(year), Some(month), Some(day)) => {
                match Date::from_calendar_date(year, month as u8, day as u8) {
                    Ok(date) => {
                        return Ok(date);
                    },
                    Err(_) => {},
                }
            },
            _ => {},
        }
    }
    Err(invalid("invalid date: ", v))
}

/// The decimal a text spells, surrounding white space aside.
pub open spec fn spec_decimal_value(text: Seq<char>) -> Option<DecimalView> {
    match spec_parse_decimal(spec_trim(text)) {
        Some((m, s)) => Some(DecimalView { mantissa: m, scale: s }),
        None => None,
    }
}

/// Whether an optional text, when there is one, is an e-mail address, surrounding white
/// space aside.
pub open spec fn spec_valid_email(text: Option<Seq<char>>) -> bool {
    text matches Some(t) ==> crate::values::spec_is_email_address(spec_trim(t))
}

/// An optional text without its surrounding white space.
pub open spec fn spec_trimmed(text: Option<Seq<char>>) -> Option<Seq<char>> {
    match text {
        Some(t) => Some(spec_trim(t)),
        None => None,
    }
}

/// The characters of an optional e-mail address.
pub open spec fn spec_email_text(email: Option<EmailAddress>) -> Option<Seq<char>> {
    match email {
        Some(e) => Some(e@),
        None => None,
    }
}

/// Whether an optional text, when there is one, is a country code, surrounding white space
/// aside.
pub open spec fn spec_valid_country(text: Option<Seq<char>>) -> bool {
    text matches Some(t) ==> crate::values::spec_is_country_code(spec_trim(t))
}

/// The characters of the fields of an address, in the order line one, line two, line three,
/// city, post code, subdivision, country.
pub open spec fn spec_address_texts(a: crate::model::PostalAddress) -> Seq<Option<Seq<char>>> {
    seq![
        crate::ubl_read::spec_texts(a.line1),
        crate::ubl_read::spec_texts(a.line2),
        crate::ubl_read::spec_texts(a.line3),
        crate::ubl_read::spec_texts(a.city),
        crate::ubl_read::spec_texts(a.postal_code),
        crate::ubl_read::spec_texts(a.country_subdivision),
        match a.country {
            Some(c) => Some(c@),
            None => None,
        },
    ]
}

/// Whether every optional text but the country, when there is one, is not empty, and the
/// country is a country code.
pub open spec fn spec_valid_address(texts: Seq<Option<Seq<char>>>) -> bool {
    &&& texts.len() == 7
    &&& crate::parser::spec_filled_text(texts[0])
    &&& crate::parser::spec_filled_text(texts[1])
    &&& crate::parser::spec_filled_text(texts[2])
    &&& crate::parser::spec_filled_text(texts[3])
    &&& crate::parser::spec_filled_text(texts[4])
    &&& crate::parser::spec_filled_text(texts[5])
    &&& spec_valid_country(texts[6])
}

/// The address fields as read: the texts with the country without its surrounding white space.
pub open spec fn spec_address_read(texts: Seq<Option<Seq<char>>>) -> Seq<Option<Seq<char>>> {
    texts.update(6, spec_trimmed(texts[6]))
}

/// An optional date read from its basic form: `Some(None)` without a text, `None` when the text
/// names no date.
pub open spec fn spec_read_optional_basic_date(text: Option<Seq<char>>) -> Option<Option<(int, int, int)>> {
    match text {
        None => Some(None),
        Some(t) => match spec_parse_basic_date(t) {
            Some(d) => Some(Some(d)),
            None => None,
        },
    }
}

/// The year, month and day of an optional date.
pub open spec fn spec_date_views(date: Option<Date>) -> Option<(int, int, int)> {
    match date {
        Some(d) => Some((d@.year, d@.month, d@.day)),
        None => None,
    }
}

/// An optional date read from its calendar form: `Some(None)` without a text, `None` when the
/// text names no date.
pub open spec fn spec_read_optional_date(text: Option<Seq<char>>) -> Option<Option<(int, int, int)>> {
    match text {
        None => Some(None),
        Some(t) => match spec_parse_date(t) {
            Some(d) => Some(Some(d)),
            None => None,
        },
    }
}

/// Whether `after` is the invoice `before` with the total that the element name carries set to
/// the value; an element of no known total changes nothing.
pub open spec fn spec_with_total(
    before: crate::model::Invoice,
    after: crate::model::Invoice,
    field: Seq<char>,
    value: DecimalView,
) -> bool {
    if field == "line_net_total"@ {
        after.line_net_total matches Some(x) && x@ == value && after == (crate::model::Invoice { line_net_total: after.line_net_total, ..before })
    } else if field == "charges_total"@ {
        after.charges_total matches Some(x) && x@ == value && after == (crate::model::Invoice { charges_total: after.charges_total, ..before })
    } else if field == "allowances_total"@ {
        after.allowances_total matches Some(x) && x@ == value && after == (crate::model::Invoice { allowances_total: after.allowances_total, ..before })
    } else if field == "net_total"@ {
        after.net_total matches Some(x) && x@ == value && after == (crate::model::Invoice { net_total: after.net_total, ..before })
    } else if field == "vat_total"@ {
        after.vat_total matches Some(x) && x@ == value && after == (crate::model::Invoice { vat_total: after.vat_total, ..before })
    } else if field == "rounding"@ {
        after.rounding matches Some(x) && x@ == value && after == (crate::model::Invoice { rounding: after.rounding, ..before })
    } else if field == "gross_total"@ {
        after.gross_total matches Some(x) && x@ == value && after == (crate::model::Invoice { gross_total: after.gross_total, ..before })
    } else if field == "paid"@ {
        after.paid matches Some(x) && x@ == value && after == (crate::model::Invoice { paid: after.paid, ..before })
    } else {
        after.due matches Some(x) && x@ == value && after == (crate::model::Invoice { due: after.due, ..before })
    }
}

} // verus!
