//! The properties the library keeps across its operations, stated over the views its
//! functions' contracts use.

use vstd::prelude::*;
use crate::decimal::{div_half_away, pow10, same_value, spec_round_dp, DecimalView};
use crate::invoice_type::{spec_code, spec_from_code, InvoiceType};
use crate::model::{spec_seller_of, Buyer};
use crate::namespace::{spec_declare, spec_default_entries, spec_from_uri, Namespace};
use crate::profile::{spec_forbidden_terms, spec_profile_id, Profile};
use crate::table::spec_lookup;
use crate::text::{spec_all_digits, spec_decimal, spec_digit, spec_digit_value, spec_digits_value, spec_parse_unsigned};
use crate::ubl_write::{spec_date_text, spec_padded};
use crate::cii_write::spec_basic_date;
use crate::reading::{spec_date_parts, spec_find_dash, spec_parse_date, spec_read_basic_date};
use crate::values::spec_is_calendar_date;
use crate::token::{spec_absorb, spec_read_attributes, spec_tokenize, XmlEventView};

verus! {

/// A declaration that succeeds binds the abbreviation to its namespace, and keeps what
/// every other abbreviation resolves to.
pub proof fn law_declare_then_resolve<N: Namespace>(
    entries: Seq<(Seq<char>, N)>,
    abbreviation: Seq<char>,
    namespace: N,
    other: Seq<char>,
)
    ensures
        spec_declare(entries, abbreviation, namespace) matches Some(after) ==> spec_lookup(
            after,
            abbreviation,
        ) == Some(namespace),
        spec_declare(entries, abbreviation, namespace) matches Some(after) ==> (other
            != abbreviation ==> spec_lookup(after, other) == spec_lookup(entries, other)),
        spec_declare(entries, abbreviation, namespace) is None <==> (spec_lookup(
            entries,
            abbreviation,
        ) matches Some(bound) && bound != namespace),
{
    let pushed = entries.push((abbreviation, namespace));
    assert(pushed.drop_last() =~= entries);
}

/// A namespace URI reads back as the member it belongs to.
pub proof fn law_from_uri_inverts_uri<N: Namespace>(n: N)
    ensures
        spec_from_uri::<N>(n.spec_uri()) == Some(n),
{
    N::lemma_members();
}

/// The table the rule sets seed resolves the abbreviation of every member to that member.
pub proof fn law_default_abbreviations_resolve<N: Namespace>(n: N)
    ensures
        spec_lookup(spec_default_entries::<N>(), n.spec_abbreviation()) == Some(n),
{
    N::lemma_members();
    let s = spec_default_entries::<N>();
    let m = N::spec_members();
    assert(m.contains(n));
    let k = choose|k: int| 0 <= k < m.len() && m[k] == n;
    assert(s[k].0 == n.spec_abbreviation());
    assert forall|a: int, b: int| 0 <= a < b < s.len() implies s[a].0 != s[b].0 by {
        assert(s[a].0 == m[a].spec_abbreviation());
        assert(s[b].0 == m[b].spec_abbreviation());
    }
    crate::table::lemma_lookup_present(s, n.spec_abbreviation(), k);
}

/// The code of an invoice type reads back as that type, and a code that reads as a type
/// is that type's code.
pub proof fn law_invoice_type_code_round_trip(t: InvoiceType, code: int)
    ensures
        spec_from_code(spec_code(t) as int) == Some(t),
        spec_from_code(code) matches Some(u) ==> spec_code(u) == code,
{
}

/// Rounding to `dp` places moves a number by at most half a unit of the last kept place,
/// and a half is rounded away from zero.
pub proof fn law_rounding_is_nearest(a: int, b: int)
    requires
        b > 0,
    ensures
        2 * (if a >= 0 { b * div_half_away(a, b) - a } else { a - b * div_half_away(a, b) }) <= b,
        2 * (if a >= 0 { a - b * div_half_away(a, b) } else { b * div_half_away(a, b) - a }) < b,
{
    let m = if a >= 0 { a } else { -a };
    vstd::arithmetic::div_mod::lemma_fundamental_div_mod(2 * m + b, 2 * b);
    vstd::arithmetic::div_mod::lemma_mod_bound(2 * m + b, 2 * b);
    let q = (2 * m + b) / (2 * b);
    let r = (2 * m + b) % (2 * b);
    assert(2 * m + b == (2 * b) * q + r);
    assert(0 <= r < 2 * b);
    assert(2 * (b * q - m) <= b) by (nonlinear_arith)
        requires
            2 * m + b == (2 * b) * q + r,
            0 <= r,
    ;
    assert(2 * (m - b * q) < b) by (nonlinear_arith)
        requires
            2 * m + b == (2 * b) * q + r,
            r < 2 * b,
    ;
    if a < 0 {
        assert(div_half_away(a, b) == -q);
        assert(b * div_half_away(a, b) == -(b * q)) by (nonlinear_arith)
            requires
                div_half_away(a, b) == -q,
        ;
    }
}

/// Two decimals of the same digits stand for the same number at every added place:
/// `d` and `d` with `k` more trailing zeros are equal.
pub proof fn law_trailing_zeros_keep_the_value(d: DecimalView, k: nat)
    ensures
        same_value(d, DecimalView { mantissa: d.mantissa * pow10(k), scale: d.scale + k }),
{
    vstd::arithmetic::power::lemma_pow_adds(10, d.scale, k);
    vstd::arithmetic::mul::lemma_mul_is_associative(d.mantissa, pow10(k), pow10(d.scale));
    vstd::arithmetic::mul::lemma_mul_is_commutative(pow10(k), pow10(d.scale));
}

/// Rounding leaves a number that already has no more than `dp` places unchanged.
pub proof fn law_rounding_keeps_a_short_number(d: DecimalView, dp: nat)
    requires
        d.scale <= dp,
    ensures
        spec_round_dp(d, dp) == d,
{
}

/// A profile forbids exactly the terms it lists.
pub proof fn law_profile_forbids_what_it_lists(p: Profile)
    ensures
        p == Profile::PeppolBisBilling30 ==> spec_forbidden_terms(p) == seq![crate::term::Term::BT(21)],
        p == Profile::CiusAtNat100 || p == Profile::CiusAtGov110 ==> spec_forbidden_terms(p)
            == seq![crate::term::Term::BT(124)],
        p != Profile::PeppolBisBilling30 && p != Profile::CiusAtNat100 && p != Profile::CiusAtGov110
            ==> spec_forbidden_terms(p).len() == 0,
{
}

/// Promoting a buyer to a seller keeps everything the buyer states and leaves the
/// seller-only fields empty.
pub proof fn law_promotion_keeps_the_buyer(buyer: Buyer)
    ensures
        spec_seller_of(buyer).name == buyer.name,
        spec_seller_of(buyer).trading_name == buyer.trading_name,
        spec_seller_of(buyer).identifiers == buyer.identifiers,
        spec_seller_of(buyer).legal_entity == buyer.legal_entity,
        spec_seller_of(buyer).vat == buyer.vat,
        spec_seller_of(buyer).electronic_address == buyer.electronic_address,
        spec_seller_of(buyer).address == buyer.address,
        spec_seller_of(buyer).contact == buyer.contact,
        spec_seller_of(buyer).additional_legal_information is None,
        spec_seller_of(buyer).tax_registration is None,
{
}

// A digit character reads back as its value.
proof fn lemma_digit(k: nat)
    requires
        k < 10,
    ensures
        spec_digit_value(spec_digit(k)) == Some(k),
        spec_digit(k) != '-' && spec_digit(k) != '+',
{
}

// The decimal rendering of a number is made of digits, at least one, and spells the number.
proof fn lemma_decimal(n: nat)
    ensures
        spec_all_digits(spec_decimal(n)),
        spec_digits_value(spec_decimal(n)) == n,
        spec_decimal(n).len() >= 1,
    decreases n,
{
    if n < 10 {
        lemma_digit(n);
        let s = spec_decimal(n);
        assert(s.drop_last() =~= Seq::<char>::empty());
        assert(s.last() == spec_digit(n));
        assert(spec_digits_value(s) == spec_digits_value(s.drop_last()) * 10 + n);
    } else {
        lemma_decimal(n / 10);
        lemma_digit(n % 10);
        let s = spec_decimal(n);
        assert(s.drop_last() =~= spec_decimal(n / 10));
        assert(s.last() == spec_digit(n % 10));
        assert(spec_digits_value(s) == spec_digits_value(spec_decimal(n / 10)) * 10 + n % 10);
        assert((n / 10) * 10 + n % 10 == n) by (nonlinear_arith);
        assert forall|i: int| 0 <= i < s.len() implies (#[trigger] spec_digit_value(s[i])) is Some by {
            if i < s.len() - 1 {
                assert(s[i] == spec_decimal(n / 10)[i]);
            }
        }
    }
}

// Zeros in front of digits change neither that they are digits nor what they spell.
proof fn lemma_zeros_in_front(k: nat, s: Seq<char>)
    requires
        spec_all_digits(s),
    ensures
        spec_all_digits(Seq::new(k, |i: int| '0') + s),
        spec_digits_value(Seq::new(k, |i: int| '0') + s) == spec_digits_value(s),
    decreases s.len() + k,
{
    let z = Seq::new(k, |i: int| '0');
    let t = z + s;
    assert forall|i: int| 0 <= i < t.len() implies (#[trigger] spec_digit_value(t[i])) is Some by {
        if i >= z.len() {
            assert(t[i] == s[i - z.len()]);
        }
    }
    if s.len() == 0 {
        assert(t =~= z);
        if k > 0 {
            let shorter = Seq::new((k - 1) as nat, |i: int| '0');
            assert(z.drop_last() =~= shorter + Seq::<char>::empty());
            lemma_zeros_in_front((k - 1) as nat, Seq::<char>::empty());
        }
    } else {
        assert(t.drop_last() =~= z + s.drop_last());
        assert(spec_all_digits(s.drop_last())) by {
            assert forall|i: int| 0 <= i < s.drop_last().len() implies (#[trigger] spec_digit_value(
                s.drop_last()[i],
            )) is Some by {
                assert(s.drop_last()[i] == s[i]);
            }
        }
        lemma_zeros_in_front(k, s.drop_last());
    }
}

// A padded number is made of digits, at least one, and spells the number.
proof fn lemma_padded(n: nat, width: nat)
    ensures
        spec_all_digits(spec_padded(n, width)),
        spec_digits_value(spec_padded(n, width)) == n,
        spec_padded(n, width).len() >= 1,
        spec_padded(n, width).len() >= width,
        forall|i: int| 0 <= i < spec_padded(n, width).len() ==> spec_padded(n, width)[i] != '-'
            && spec_padded(n, width)[i] != '+',
{
    lemma_decimal(n);
    let digits = spec_decimal(n);
    if digits.len() < width {
        lemma_zeros_in_front((width - digits.len()) as nat, digits);
    }
    let p = spec_padded(n, width);
    assert forall|i: int| 0 <= i < p.len() implies p[i] != '-' && p[i] != '+' by {
        assert(spec_digit_value(p[i]) is Some);
    }
}

// Ten raised to `k`, as a natural number.
spec fn ten_to(k: nat) -> nat
    decreases k,
{
    if k == 0 { 1 } else { 10 * ten_to((k - 1) as nat) }
}

// A number below ten to the `k` has at most `k` digits.
proof fn lemma_decimal_len_at_most(n: nat, k: nat)
    requires
        k >= 1,
        n < ten_to(k),
    ensures
        spec_decimal(n).len() <= k,
    decreases k,
{
    if n >= 10 {
        let t = ten_to((k - 1) as nat);
        assert(n / 10 < t) by (nonlinear_arith)
            requires
                n < 10 * t,
        ;
        if k == 1 {
            assert(ten_to(0) == 1);
        } else {
            lemma_decimal_len_at_most(n / 10, (k - 1) as nat);
        }
    }
}

// A number below ten to the `width` is padded to exactly `width` characters.
proof fn lemma_padded_len(n: nat, width: nat)
    requires
        width >= 1,
        n < ten_to(width),
    ensures
        spec_padded(n, width).len() == width,
{
    lemma_decimal_len_at_most(n, width);
}

// The first dash at or after `from` is at `i` when none stands before it.
proof fn lemma_find_dash(s: Seq<char>, from: int, i: int)
    requires
        0 <= from <= i <= s.len(),
        forall|j: int| from <= j < i ==> s[j] != '-',
    ensures
        i < s.len() && s[i] == '-' ==> spec_find_dash(s, from) == Some(i),
        i == s.len() ==> spec_find_dash(s, from) is None,
    decreases i - from,
{
    if from < i {
        lemma_find_dash(s, from + 1, i);
    }
}

// A padded number reads back as that number, with any bound it stays under.
proof fn lemma_padded_reads_back(n: nat, width: nat, max: nat)
    requires
        n <= max,
    ensures
        spec_parse_unsigned(spec_padded(n, width), max) == Some(n),
{
    lemma_padded(n, width);
    let p = spec_padded(n, width);
    assert(p[0] != '+');
}

/// A date written in the calendar form of UBL (`YYYY-MM-DD`) reads back as that date, for
/// every year from zero on. A year before zero is written with a leading `-`, which the form
/// does not read back.
pub proof fn law_date_text_reads_back(year: int, month: int, day: int)
    requires
        0 <= year <= i32::MAX,
        0 <= month <= 255,
        0 <= day <= 255,
        spec_is_calendar_date(year, month, day),
    ensures
        spec_parse_date(spec_date_text(year, month, day)) == Some((year, month, day)),
{
    let y = spec_padded(year as nat, 4);
    let m = spec_padded(month as nat, 2);
    let d = spec_padded(day as nat, 2);
    lemma_padded(year as nat, 4);
    lemma_padded(month as nat, 2);
    lemma_padded(day as nat, 2);
    let s = spec_date_text(year, month, day);
    assert(s =~= y + seq!['-'] + m + seq!['-'] + d);
    let i = y.len() as int;
    let j = i + 1 + m.len();
    assert forall|k: int| 0 <= k < i implies s[k] != '-' by {
        assert(s[k] == y[k]);
    }
    lemma_find_dash(s, 0, i);
    assert forall|k: int| i + 1 <= k < j implies s[k] != '-' by {
        assert(s[k] == m[k - i - 1]);
    }
    lemma_find_dash(s, i + 1, j);
    let rest = s.subrange(j + 1, s.len() as int);
    assert(rest =~= d);
    lemma_find_dash(d, 0, d.len() as int);
    assert(s.subrange(0, i) =~= y);
    assert(s.subrange(i + 1, j) =~= m);
    assert(spec_date_parts(s) == Some((y, m, d)));
    lemma_padded_reads_back(year as nat, 4, 2147483647);
    lemma_padded_reads_back(month as nat, 2, 255);
    lemma_padded_reads_back(day as nat, 2, 255);
}

/// A date written in the basic form of CII (`YYYYMMDD`) reads back as that date, for every
/// year that the form holds in four characters: from `-999` to `9999`.
pub proof fn law_basic_date_reads_back(year: int, month: int, day: int)
    requires
        -999 <= year <= 9999,
        1 <= month <= 12,
        1 <= day <= 31,
        spec_is_calendar_date(year, month, day),
    ensures
        spec_read_basic_date(spec_basic_date(year, month, day)) == Some((year, month, day)),
{
    reveal_with_fuel(ten_to, 5);
    let m = spec_padded(month as nat, 2);
    let d = spec_padded(day as nat, 2);
    lemma_padded_len(month as nat, 2);
    lemma_padded_len(day as nat, 2);
    lemma_padded_reads_back(month as nat, 2, 255);
    lemma_padded_reads_back(day as nat, 2, 255);
    let y = if year >= 0 {
        spec_padded(year as nat, 4)
    } else {
        seq!['-'] + spec_padded((-year) as nat, 3)
    };
    if year >= 0 {
        lemma_padded_len(year as nat, 4);
        lemma_padded(year as nat, 4);
        lemma_padded_reads_back(year as nat, 4, 2147483647);
        assert(y[0] != '-');
    } else {
        let p = spec_padded((-year) as nat, 3);
        lemma_padded_len((-year) as nat, 3);
        lemma_padded(( -year) as nat, 3);
        lemma_padded_reads_back((-year) as nat, 3, 2147483648);
        assert(y.drop_first() =~= p);
        assert(p[0] != '+');
    }
    let s = spec_basic_date(year, month, day);
    assert(s =~= y + m + d);
    assert(s.subrange(0, 4) =~= y);
    assert(s.subrange(4, 6) =~= m);
    assert(s.subrange(6, 8) =~= d);
}

/// The identifier of a profile names that profile alone: parsing the identifier a profile
/// renders gives that profile back.
pub proof fn law_profile_id_names_one_profile(p: Profile, q: Profile)
    ensures
        spec_profile_id(p) == spec_profile_id(q) ==> p == q,
{
    reveal_strlit("urn:cen.eu:en16931:2017#compliant#urn:erechnung.gv.at:CIUS-AT-NAT:1.0.0#compliant#urn:erechnung.gv.at:CIUS-AT-GOV:1.1.0");
    assert("urn:cen.eu:en16931:2017#compliant#urn:erechnung.gv.at:CIUS-AT-NAT:1.0.0#compliant#urn:erechnung.gv.at:CIUS-AT-GOV:1.1.0"@.len() == 119);
    reveal_strlit("urn:cen.eu:en16931:2017#compliant#urn:erechnung.gv.at:CIUS-AT-NAT:1.0.0");
    assert("urn:cen.eu:en16931:2017#compliant#urn:erechnung.gv.at:CIUS-AT-NAT:1.0.0"@.len() == 71);
    reveal_strlit("urn:cen.eu:en16931:2017#compliant#urn:face.gob.es:CIUS-ES-FACE:1.0.0");
    assert("urn:cen.eu:en16931:2017#compliant#urn:face.gob.es:CIUS-ES-FACE:1.0.0"@.len() == 68);
    reveal_strlit("urn:cen.eu:en16931:2017#compliant#urn:fatturapa.gov.it:CIUS-IT:2.0.0");
    assert("urn:cen.eu:en16931:2017#compliant#urn:fatturapa.gov.it:CIUS-IT:2.0.0"@.len() == 68);
    reveal_strlit("urn:cen.eu:en16931:2017");
    assert("urn:cen.eu:en16931:2017"@.len() == 23);
    reveal_strlit("urn:cen.eu:en16931:2017#compliant#urn:factur-x.eu:1p0:basic");
    assert("urn:cen.eu:en16931:2017#compliant#urn:factur-x.eu:1p0:basic"@.len() == 59);
    reveal_strlit("urn:cen.eu:en16931:2017#conformant#urn:factur-x.eu:1p0:extended");
    assert("urn:cen.eu:en16931:2017#conformant#urn:factur-x.eu:1p0:extended"@.len() == 63);
    reveal_strlit("urn:cen.eu:en16931:2017#compliant#urn:fdc:nen.nl:nlcius:v1.0");
    assert("urn:cen.eu:en16931:2017#compliant#urn:fdc:nen.nl:nlcius:v1.0"@.len() == 60);
    reveal_strlit("urn:cen.eu:en16931:2017#compliant#urn:fdc:nen.nl:nlcius:v1.0#conformant#urn:fdc:nen.nl:gaccount:v1.0");
    assert("urn:cen.eu:en16931:2017#compliant#urn:fdc:nen.nl:nlcius:v1.0#conformant#urn:fdc:nen.nl:gaccount:v1.0"@.len() == 100);
    reveal_strlit("urn:fdc:oioubl.dk:trns:billing:invoice:3.0");
    assert("urn:fdc:oioubl.dk:trns:billing:invoice:3.0"@.len() == 42);
    reveal_strlit("urn:cen.eu:en16931:2017#compliant#urn:fdc:peppol.eu:2017:poacc:billing:3.0");
    assert("urn:cen.eu:en16931:2017#compliant#urn:fdc:peppol.eu:2017:poacc:billing:3.0"@.len() == 74);
    reveal_strlit("urn:cen.eu:en16931:2017#conformant#urn:fdc:peppol.eu:2017:poacc:billing:international:aunz:3.0");
    assert("urn:cen.eu:en16931:2017#conformant#urn:fdc:peppol.eu:2017:poacc:billing:international:aunz:3.0"@.len() == 94);
    reveal_strlit("urn:cen.eu:en16931:2017#conformant#urn:fdc:peppol.eu:2017:poacc:billing:international:sg:3.0");
    assert("urn:cen.eu:en16931:2017#conformant#urn:fdc:peppol.eu:2017:poacc:billing:international:sg:3.0"@.len() == 92);
    reveal_strlit("urn:cen.eu:en16931:2017#compliant#urn:fdc:peppol.eu:2017:poacc:selfbilling:3.0");
    assert("urn:cen.eu:en16931:2017#compliant#urn:fdc:peppol.eu:2017:poacc:selfbilling:3.0"@.len() == 78);
    reveal_strlit("urn:cen.eu:en16931:2017#conformant#urn:fdc:peppol.eu:2017:poacc:selfbilling:international:aunz:3.0");
    assert("urn:cen.eu:en16931:2017#conformant#urn:fdc:peppol.eu:2017:poacc:selfbilling:international:aunz:3.0"@.len() == 98);
    reveal_strlit("urn:peppol:pint:billing-1@ae-1");
    assert("urn:peppol:pint:billing-1@ae-1"@.len() == 30);
    reveal_strlit("urn:peppol:pint:selfbilling-1@ae-1");
    assert("urn:peppol:pint:selfbilling-1@ae-1"@.len() == 34);
    reveal_strlit("urn:peppol:pint:billing-1@aunz-1");
    assert("urn:peppol:pint:billing-1@aunz-1"@.len() == 32);
    reveal_strlit("urn:peppol:pint:selfbilling-1@aunz-1");
    assert("urn:peppol:pint:selfbilling-1@aunz-1"@.len() == 36);
    reveal_strlit("urn:peppol:pint:billing-1@eu-1");
    assert("urn:peppol:pint:billing-1@eu-1"@.len() == 30);
    reveal_strlit("urn:peppol:pint:billing-1@jp-1");
    assert("urn:peppol:pint:billing-1@jp-1"@.len() == 30);
    reveal_strlit("urn:peppol:pint:billing-1@my-1");
    assert("urn:peppol:pint:billing-1@my-1"@.len() == 30);
    reveal_strlit("urn:peppol:pint:selfbilling-1@my-1");
    assert("urn:peppol:pint:selfbilling-1@my-1"@.len() == 34);
    reveal_strlit("urn:cen.eu:en16931:2017#conformant#urn:UBL.BE:1.0.0.20180214");
    assert("urn:cen.eu:en16931:2017#conformant#urn:UBL.BE:1.0.0.20180214"@.len() == 60);
    reveal_strlit("urn:cen.eu:en16931:2017#compliant#urn:xoev-de:kosit:standard:xrechnung_1.2");
    assert("urn:cen.eu:en16931:2017#compliant#urn:xoev-de:kosit:standard:xrechnung_1.2"@.len() == 74);
    reveal_strlit("urn:cen.eu:en16931:2017#compliant#urn:xoev-de:kosit:standard:xrechnung_2.0");
    assert("urn:cen.eu:en16931:2017#compliant#urn:xoev-de:kosit:standard:xrechnung_2.0"@.len() == 74);
    reveal_strlit("urn:cen.eu:en16931:2017#compliant#urn:xoev-de:kosit:standard:xrechnung_2.0#conformant#urn:xoev-de:kosit:extension:xrechnung_2.0");
    assert("urn:cen.eu:en16931:2017#compliant#urn:xoev-de:kosit:standard:xrechnung_2.0#conformant#urn:xoev-de:kosit:extension:xrechnung_2.0"@.len() == 127);
    reveal_strlit("urn:cen.eu:en16931:2017#compliant#urn:xoev-de:kosit:standard:xrechnung_2.1");
    assert("urn:cen.eu:en16931:2017#compliant#urn:xoev-de:kosit:standard:xrechnung_2.1"@.len() == 74);
    reveal_strlit("urn:cen.eu:en16931:2017#compliant#urn:xoev-de:kosit:standard:xrechnung_2.1#conformant#urn:xoev-de:kosit:extension:xrechnung_2.1");
    assert("urn:cen.eu:en16931:2017#compliant#urn:xoev-de:kosit:standard:xrechnung_2.1#conformant#urn:xoev-de:kosit:extension:xrechnung_2.1"@.len() == 127);
    reveal_strlit("urn:cen.eu:en16931:2017#compliant#urn:xoev-de:kosit:standard:xrechnung_2.2");
    assert("urn:cen.eu:en16931:2017#compliant#urn:xoev-de:kosit:standard:xrechnung_2.2"@.len() == 74);
    reveal_strlit("urn:cen.eu:en16931:2017#compliant#urn:xoev-de:kosit:standard:xrechnung_2.2#conformant#urn:xoev-de:kosit:extension:xrechnung_2.2");
    assert("urn:cen.eu:en16931:2017#compliant#urn:xoev-de:kosit:standard:xrechnung_2.2#conformant#urn:xoev-de:kosit:extension:xrechnung_2.2"@.len() == 127);
    reveal_strlit("urn:cen.eu:en16931:2017#compliant#urn:xoev-de:kosit:standard:xrechnung_2.3");
    assert("urn:cen.eu:en16931:2017#compliant#urn:xoev-de:kosit:standard:xrechnung_2.3"@.len() == 74);
    reveal_strlit("urn:cen.eu:en16931:2017#compliant#urn:xoev-de:kosit:standard:xrechnung_2.3#conformant#urn:xoev-de:kosit:extension:xrechnung_2.3");
    assert("urn:cen.eu:en16931:2017#compliant#urn:xoev-de:kosit:standard:xrechnung_2.3#conformant#urn:xoev-de:kosit:extension:xrechnung_2.3"@.len() == 127);
    reveal_strlit("urn:cen.eu:en16931:2017#compliant#urn:xeinkauf.de:kosit:xrechnung_3.0");
    assert("urn:cen.eu:en16931:2017#compliant#urn:xeinkauf.de:kosit:xrechnung_3.0"@.len() == 69);
    reveal_strlit("urn:cen.eu:en16931:2017#compliant#urn:xeinkauf.de:kosit:xrechnung_3.0#conformant#urn:xeinkauf.de:kosit:extension:xrechnung_3.0");
    assert("urn:cen.eu:en16931:2017#compliant#urn:xeinkauf.de:kosit:xrechnung_3.0#conformant#urn:xeinkauf.de:kosit:extension:xrechnung_3.0"@.len() == 126);
    assert("urn:cen.eu:en16931:2017#compliant#urn:face.gob.es:CIUS-ES-FACE:1.0.0"@[40] != "urn:cen.eu:en16931:2017#compliant#urn:fatturapa.gov.it:CIUS-IT:2.0.0"@[40]);
    assert("urn:cen.eu:en16931:2017#compliant#urn:fdc:nen.nl:nlcius:v1.0"@[26] != "urn:cen.eu:en16931:2017#conformant#urn:UBL.BE:1.0.0.20180214"@[26]);
    assert("urn:cen.eu:en16931:2017#compliant#urn:fdc:peppol.eu:2017:poacc:billing:3.0"@[38] != "urn:cen.eu:en16931:2017#compliant#urn:xoev-de:kosit:standard:xrechnung_1.2"@[38]);
    assert("urn:cen.eu:en16931:2017#compliant#urn:fdc:peppol.eu:2017:poacc:billing:3.0"@[38] != "urn:cen.eu:en16931:2017#compliant#urn:xoev-de:kosit:standard:xrechnung_2.0"@[38]);
    assert("urn:cen.eu:en16931:2017#compliant#urn:fdc:peppol.eu:2017:poacc:billing:3.0"@[38] != "urn:cen.eu:en16931:2017#compliant#urn:xoev-de:kosit:standard:xrechnung_2.1"@[38]);
    assert("urn:cen.eu:en16931:2017#compliant#urn:fdc:peppol.eu:2017:poacc:billing:3.0"@[38] != "urn:cen.eu:en16931:2017#compliant#urn:xoev-de:kosit:standard:xrechnung_2.2"@[38]);
    assert("urn:cen.eu:en16931:2017#compliant#urn:fdc:peppol.eu:2017:poacc:billing:3.0"@[38] != "urn:cen.eu:en16931:2017#compliant#urn:xoev-de:kosit:standard:xrechnung_2.3"@[38]);
    assert("urn:peppol:pint:billing-1@ae-1"@[26] != "urn:peppol:pint:billing-1@eu-1"@[26]);
    assert("urn:peppol:pint:billing-1@ae-1"@[26] != "urn:peppol:pint:billing-1@jp-1"@[26]);
    assert("urn:peppol:pint:billing-1@ae-1"@[26] != "urn:peppol:pint:billing-1@my-1"@[26]);
    assert("urn:peppol:pint:selfbilling-1@ae-1"@[30] != "urn:peppol:pint:selfbilling-1@my-1"@[30]);
    assert("urn:peppol:pint:billing-1@eu-1"@[26] != "urn:peppol:pint:billing-1@jp-1"@[26]);
    assert("urn:peppol:pint:billing-1@eu-1"@[26] != "urn:peppol:pint:billing-1@my-1"@[26]);
    assert("urn:peppol:pint:billing-1@jp-1"@[26] != "urn:peppol:pint:billing-1@my-1"@[26]);
    assert("urn:cen.eu:en16931:2017#compliant#urn:xoev-de:kosit:standard:xrechnung_1.2"@[71] != "urn:cen.eu:en16931:2017#compliant#urn:xoev-de:kosit:standard:xrechnung_2.0"@[71]);
    assert("urn:cen.eu:en16931:2017#compliant#urn:xoev-de:kosit:standard:xrechnung_1.2"@[71] != "urn:cen.eu:en16931:2017#compliant#urn:xoev-de:kosit:standard:xrechnung_2.1"@[71]);
    assert("urn:cen.eu:en16931:2017#compliant#urn:xoev-de:kosit:standard:xrechnung_1.2"@[71] != "urn:cen.eu:en16931:2017#compliant#urn:xoev-de:kosit:standard:xrechnung_2.2"@[71]);
    assert("urn:cen.eu:en16931:2017#compliant#urn:xoev-de:kosit:standard:xrechnung_1.2"@[71] != "urn:cen.eu:en16931:2017#compliant#urn:xoev-de:kosit:standard:xrechnung_2.3"@[71]);
    assert("urn:cen.eu:en16931:2017#compliant#urn:xoev-de:kosit:standard:xrechnung_2.0"@[73] != "urn:cen.eu:en16931:2017#compliant#urn:xoev-de:kosit:standard:xrechnung_2.1"@[73]);
    assert("urn:cen.eu:en16931:2017#compliant#urn:xoev-de:kosit:standard:xrechnung_2.0"@[73] != "urn:cen.eu:en16931:2017#compliant#urn:xoev-de:kosit:standard:xrechnung_2.2"@[73]);
    assert("urn:cen.eu:en16931:2017#compliant#urn:xoev-de:kosit:standard:xrechnung_2.0"@[73] != "urn:cen.eu:en16931:2017#compliant#urn:xoev-de:kosit:standard:xrechnung_2.3"@[73]);
    assert("urn:cen.eu:en16931:2017#compliant#urn:xoev-de:kosit:standard:xrechnung_2.0#conformant#urn:xoev-de:kosit:extension:xrechnung_2.0"@[73] != "urn:cen.eu:en16931:2017#compliant#urn:xoev-de:kosit:standard:xrechnung_2.1#conformant#urn:xoev-de:kosit:extension:xrechnung_2.1"@[73]);
    assert("urn:cen.eu:en16931:2017#compliant#urn:xoev-de:kosit:standard:xrechnung_2.0#conformant#urn:xoev-de:kosit:extension:xrechnung_2.0"@[73] != "urn:cen.eu:en16931:2017#compliant#urn:xoev-de:kosit:standard:xrechnung_2.2#conformant#urn:xoev-de:kosit:extension:xrechnung_2.2"@[73]);
    assert("urn:cen.eu:en16931:2017#compliant#urn:xoev-de:kosit:standard:xrechnung_2.0#conformant#urn:xoev-de:kosit:extension:xrechnung_2.0"@[73] != "urn:cen.eu:en16931:2017#compliant#urn:xoev-de:kosit:standard:xrechnung_2.3#conformant#urn:xoev-de:kosit:extension:xrechnung_2.3"@[73]);
    assert("urn:cen.eu:en16931:2017#compliant#urn:xoev-de:kosit:standard:xrechnung_2.1"@[73] != "urn:cen.eu:en16931:2017#compliant#urn:xoev-de:kosit:standard:xrechnung_2.2"@[73]);
    assert("urn:cen.eu:en16931:2017#compliant#urn:xoev-de:kosit:standard:xrechnung_2.1"@[73] != "urn:cen.eu:en16931:2017#compliant#urn:xoev-de:kosit:standard:xrechnung_2.3"@[73]);
    assert("urn:cen.eu:en16931:2017#compliant#urn:xoev-de:kosit:standard:xrechnung_2.1#conformant#urn:xoev-de:kosit:extension:xrechnung_2.1"@[73] != "urn:cen.eu:en16931:2017#compliant#urn:xoev-de:kosit:standard:xrechnung_2.2#conformant#urn:xoev-de:kosit:extension:xrechnung_2.2"@[73]);
    assert("urn:cen.eu:en16931:2017#compliant#urn:xoev-de:kosit:standard:xrechnung_2.1#conformant#urn:xoev-de:kosit:extension:xrechnung_2.1"@[73] != "urn:cen.eu:en16931:2017#compliant#urn:xoev-de:kosit:standard:xrechnung_2.3#conformant#urn:xoev-de:kosit:extension:xrechnung_2.3"@[73]);
    assert("urn:cen.eu:en16931:2017#compliant#urn:xoev-de:kosit:standard:xrechnung_2.2"@[73] != "urn:cen.eu:en16931:2017#compliant#urn:xoev-de:kosit:standard:xrechnung_2.3"@[73]);
    assert("urn:cen.eu:en16931:2017#compliant#urn:xoev-de:kosit:standard:xrechnung_2.2#conformant#urn:xoev-de:kosit:extension:xrechnung_2.2"@[73] != "urn:cen.eu:en16931:2017#compliant#urn:xoev-de:kosit:standard:xrechnung_2.3#conformant#urn:xoev-de:kosit:extension:xrechnung_2.3"@[73]);
}

// Whether a table still binds every abbreviation another one binds, to the same namespace.
spec fn spec_keeps_bindings<N>(before: Seq<(Seq<char>, N)>, after: Seq<(Seq<char>, N)>) -> bool {
    forall|k: Seq<char>| #[trigger] spec_lookup(before, k) is Some ==> spec_lookup(after, k) == spec_lookup(
        before,
        k,
    )
}

// A declaration that succeeds keeps every binding.
proof fn lemma_declare_keeps<N: Namespace>(entries: Seq<(Seq<char>, N)>, abbreviation: Seq<char>, namespace: N)
    ensures
        spec_declare(entries, abbreviation, namespace) matches Some(after) ==> spec_keeps_bindings(
            entries,
            after,
        ),
{
    if let Some(after) = spec_declare(entries, abbreviation, namespace) {
        assert forall|k: Seq<char>| #[trigger] spec_lookup(entries, k) is Some implies spec_lookup(after, k)
            == spec_lookup(entries, k) by {
            law_declare_then_resolve(entries, abbreviation, namespace, k);
        }
    }
}

// Reading the attributes of a start tag keeps every binding.
proof fn lemma_read_attributes_keeps<N: Namespace>(
    attributes: Seq<(Seq<char>, Seq<char>, Seq<char>)>,
    entries: Seq<(Seq<char>, N)>,
)
    ensures
        spec_read_attributes(attributes, entries) matches Ok((kept, table)) ==> spec_keeps_bindings(
            entries,
            table,
        ),
    decreases attributes.len(),
{
    if attributes.len() > 0 {
        lemma_read_attributes_keeps(attributes.drop_last(), entries);
        if let Ok((kept, table)) = spec_read_attributes(attributes.drop_last(), entries) {
            let a = attributes.last();
            if let Some(n) = spec_from_uri::<N>(a.2) {
                lemma_declare_keeps(table, crate::token::spec_declared_abbreviation(a.0), n);
            }
        }
    }
}

// Taking in one event of the reader keeps every binding.
proof fn lemma_absorb_keeps<N: Namespace>(
    tokens: Seq<crate::token::TokenView<N>>,
    entries: Seq<(Seq<char>, N)>,
    event: XmlEventView,
)
    ensures
        spec_absorb(tokens, entries, event) matches Ok((t, table)) ==> spec_keeps_bindings(entries, table),
{
    if let XmlEventView::Start { namespace, local, attributes, empty } = event {
        lemma_read_attributes_keeps(attributes, entries);
    }
}

/// Reading a document keeps the abbreviations of the rule sets: whatever the document
/// declares, each still resolves to its namespace, since a declaration that would bind one
/// to another namespace fails the read.
pub proof fn law_reading_keeps_the_rule_set_abbreviations<N: Namespace>(events: Seq<XmlEventView>, n: N)
    ensures
        spec_tokenize::<N>(events) matches Ok((tokens, entries)) ==> spec_lookup(
            entries,
            n.spec_abbreviation(),
        ) == Some(n),
    decreases events.len(),
{
    if events.len() == 0 {
        law_default_abbreviations_resolve(n);
    } else {
        law_reading_keeps_the_rule_set_abbreviations::<N>(events.drop_last(), n);
        if let Ok((tokens, entries)) = spec_tokenize::<N>(events.drop_last()) {
            lemma_absorb_keeps(tokens, entries, events.last());
            assert(spec_lookup(entries, n.spec_abbreviation()) is Some);
        }
    }
}

/// Regrouping eight texts written one after the other.
proof fn lemma_regroup(
    a: Seq<char>,
    b: Seq<char>,
    c: Seq<char>,
    d: Seq<char>,
    e: Seq<char>,
    f: Seq<char>,
    g: Seq<char>,
    h: Seq<char>,
)
    ensures
        a + (b + (c + (d + e + f + g))) + h == (a + b + c + d + e) + f + (g + h),
{
    assert(a + (b + (c + (d + e + f + g))) + h =~= (a + b + c + d + e) + f + (g + h));
}

/// The legal monetary total of a UBL document stands in the whole document as one piece: the
/// document is what precedes it, the total and what follows it, and the total is written
/// exactly when the invoice states one of its amounts, as the `LegalMonetaryTotal` group of
/// each stated amount in its own element.
#[verifier::spinoff_prover]
#[verifier::rlimit(100)]
pub proof fn law_ubl_document_holds_its_monetary_total(
    invoice: crate::model::Invoice,
    profile: Profile,
    business_process: Option<String>,
    forbidden: Seq<crate::term::Term>,
)
    ensures
        exists|before: Seq<char>, after: Seq<char>|
            crate::ubl_write::spec_ubl_document(invoice, profile, business_process, forbidden) == before
                + crate::ubl_write::spec_legal_monetary_total(invoice, forbidden) + after,
        crate::ubl_write::spec_legal_monetary_total(invoice, forbidden).len() > 0 <==> crate::ubl_write::spec_states_totals(
            invoice,
        ),
        crate::ubl_write::spec_states_totals(invoice) ==> crate::ubl_write::spec_legal_monetary_total(invoice, forbidden)
            == crate::serializer::spec_group(
            crate::ubl::Namespace::Cac,
            "LegalMonetaryTotal"@,
            crate::ubl_write::spec_totals_head(invoice, forbidden) + crate::ubl_write::spec_totals_tail(invoice, forbidden),
        ),
{
    reveal(crate::ubl_write::spec_ubl_body);
    let total = crate::ubl_write::spec_legal_monetary_total(invoice, forbidden);
    let start = crate::xml::spec_start_tag(
        crate::serializer::spec_qname(<crate::format::Ubl as crate::format::Format>::spec_root_namespace(), <crate::format::Ubl as crate::format::Format>::spec_root_element()),
        crate::serializer::spec_declarations(<crate::ubl::Namespace as Namespace>::spec_members()),
    );
    let end = crate::xml::spec_end_tag(
        crate::serializer::spec_qname(<crate::format::Ubl as crate::format::Format>::spec_root_namespace(), <crate::format::Ubl as crate::format::Format>::spec_root_element()),
    );
    let front = crate::ubl_write::spec_ubl_front(invoice, profile, business_process, forbidden);
    let settlement = crate::ubl_write::spec_ubl_settlement(invoice, forbidden);
    let adjustments = crate::ubl_write::spec_adjustments(invoice.adjustments@, forbidden, crate::ubl_write::spec_currency(invoice));
    let tax = crate::ubl_write::spec_tax_total(invoice, forbidden);
    let lines = crate::ubl_write::spec_lines(invoice.lines@, forbidden, crate::ubl_write::spec_currency(invoice));
    assert(crate::ubl_write::spec_ubl_tail(invoice, forbidden) == adjustments + tax + total + lines);
    assert(crate::ubl_write::spec_ubl_document(invoice, profile, business_process, forbidden) == start + (front + (settlement
        + (adjustments + tax + total + lines))) + end);
    lemma_regroup(start, front, settlement, adjustments, tax, total, lines, end);
    let before = start + front + settlement + adjustments + tax;
    let after = lines + end;
    assert(crate::ubl_write::spec_ubl_document(invoice, profile, business_process, forbidden) == before + total + after);
    if crate::ubl_write::spec_states_totals(invoice) {
        let open = crate::xml::spec_start_tag(
            crate::serializer::spec_qname(crate::ubl::Namespace::Cac, "LegalMonetaryTotal"@),
            Seq::empty(),
        );
        assert(open.len() > 0);
    }
}


/// Each profile renders its own published `BT-24` identifier.
pub proof fn law_profile_identifiers()
    ensures
        spec_profile_id(Profile::CiusAtGov110) == "urn:cen.eu:en16931:2017#compliant#urn:erechnung.gv.at:CIUS-AT-NAT:1.0.0#compliant#urn:erechnung.gv.at:CIUS-AT-GOV:1.1.0"@,
        spec_profile_id(Profile::CiusAtNat100) == "urn:cen.eu:en16931:2017#compliant#urn:erechnung.gv.at:CIUS-AT-NAT:1.0.0"@,
        spec_profile_id(Profile::CiusEsFace100) == "urn:cen.eu:en16931:2017#compliant#urn:face.gob.es:CIUS-ES-FACE:1.0.0"@,
        spec_profile_id(Profile::CiusIt200) == "urn:cen.eu:en16931:2017#compliant#urn:fatturapa.gov.it:CIUS-IT:2.0.0"@,
        spec_profile_id(Profile::En16931) == "urn:cen.eu:en16931:2017"@,
        spec_profile_id(Profile::FacturXBasic) == "urn:cen.eu:en16931:2017#compliant#urn:factur-x.eu:1p0:basic"@,
        spec_profile_id(Profile::FacturXExtended) == "urn:cen.eu:en16931:2017#conformant#urn:factur-x.eu:1p0:extended"@,
        spec_profile_id(Profile::Nlcius10) == "urn:cen.eu:en16931:2017#compliant#urn:fdc:nen.nl:nlcius:v1.0"@,
        spec_profile_id(Profile::Nlcius10GAccount) == "urn:cen.eu:en16931:2017#compliant#urn:fdc:nen.nl:nlcius:v1.0#conformant#urn:fdc:nen.nl:gaccount:v1.0"@,
        spec_profile_id(Profile::Oioubl3Invoice) == "urn:fdc:oioubl.dk:trns:billing:invoice:3.0"@,
        spec_profile_id(Profile::PeppolBisBilling30) == "urn:cen.eu:en16931:2017#compliant#urn:fdc:peppol.eu:2017:poacc:billing:3.0"@,
        spec_profile_id(Profile::PeppolBisBillingInternationalAunz30) == "urn:cen.eu:en16931:2017#conformant#urn:fdc:peppol.eu:2017:poacc:billing:international:aunz:3.0"@,
        spec_profile_id(Profile::PeppolBisBillingInternationalSg30) == "urn:cen.eu:en16931:2017#conformant#urn:fdc:peppol.eu:2017:poacc:billing:international:sg:3.0"@,
        spec_profile_id(Profile::PeppolBisSelfBilling30) == "urn:cen.eu:en16931:2017#compliant#urn:fdc:peppol.eu:2017:poacc:selfbilling:3.0"@,
        spec_profile_id(Profile::PeppolBisSelfBillingInternationalAunz30) == "urn:cen.eu:en16931:2017#conformant#urn:fdc:peppol.eu:2017:poacc:selfbilling:international:aunz:3.0"@,
        spec_profile_id(Profile::PintAeBilling) == "urn:peppol:pint:billing-1@ae-1"@,
        spec_profile_id(Profile::PintAeSelfBilling) == "urn:peppol:pint:selfbilling-1@ae-1"@,
        spec_profile_id(Profile::PintAunzBilling) == "urn:peppol:pint:billing-1@aunz-1"@,
        spec_profile_id(Profile::PintAunzSelfBilling) == "urn:peppol:pint:selfbilling-1@aunz-1"@,
        spec_profile_id(Profile::PintEuBilling) == "urn:peppol:pint:billing-1@eu-1"@,
        spec_profile_id(Profile::PintJpBilling) == "urn:peppol:pint:billing-1@jp-1"@,
        spec_profile_id(Profile::PintMyBilling) == "urn:peppol:pint:billing-1@my-1"@,
        spec_profile_id(Profile::PintMySelfBilling) == "urn:peppol:pint:selfbilling-1@my-1"@,
        spec_profile_id(Profile::UblBe) == "urn:cen.eu:en16931:2017#conformant#urn:UBL.BE:1.0.0.20180214"@,
        spec_profile_id(Profile::XRechnung12) == "urn:cen.eu:en16931:2017#compliant#urn:xoev-de:kosit:standard:xrechnung_1.2"@,
        spec_profile_id(Profile::XRechnung20) == "urn:cen.eu:en16931:2017#compliant#urn:xoev-de:kosit:standard:xrechnung_2.0"@,
        spec_profile_id(Profile::XRechnung20Extension) == "urn:cen.eu:en16931:2017#compliant#urn:xoev-de:kosit:standard:xrechnung_2.0#conformant#urn:xoev-de:kosit:extension:xrechnung_2.0"@,
        spec_profile_id(Profile::XRechnung21) == "urn:cen.eu:en16931:2017#compliant#urn:xoev-de:kosit:standard:xrechnung_2.1"@,
        spec_profile_id(Profile::XRechnung21Extension) == "urn:cen.eu:en16931:2017#compliant#urn:xoev-de:kosit:standard:xrechnung_2.1#conformant#urn:xoev-de:kosit:extension:xrechnung_2.1"@,
        spec_profile_id(Profile::XRechnung22) == "urn:cen.eu:en16931:2017#compliant#urn:xoev-de:kosit:standard:xrechnung_2.2"@,
        spec_profile_id(Profile::XRechnung22Extension) == "urn:cen.eu:en16931:2017#compliant#urn:xoev-de:kosit:standard:xrechnung_2.2#conformant#urn:xoev-de:kosit:extension:xrechnung_2.2"@,
        spec_profile_id(Profile::XRechnung23) == "urn:cen.eu:en16931:2017#compliant#urn:xoev-de:kosit:standard:xrechnung_2.3"@,
        spec_profile_id(Profile::XRechnung23Extension) == "urn:cen.eu:en16931:2017#compliant#urn:xoev-de:kosit:standard:xrechnung_2.3#conformant#urn:xoev-de:kosit:extension:xrechnung_2.3"@,
        spec_profile_id(Profile::XRechnung30) == "urn:cen.eu:en16931:2017#compliant#urn:xeinkauf.de:kosit:xrechnung_3.0"@,
        spec_profile_id(Profile::XRechnung30Extension) == "urn:cen.eu:en16931:2017#compliant#urn:xeinkauf.de:kosit:xrechnung_3.0#conformant#urn:xeinkauf.de:kosit:extension:xrechnung_3.0"@,
{
}

/// Each invoice type has its own UNTDID 1001 number, and each of those numbers reads as its
/// type.
pub proof fn law_invoice_type_codes()
    ensures
        spec_code(InvoiceType::RequestForPayment) == 71,
        spec_code(InvoiceType::DebitNoteGoodsServices) == 80,
        spec_code(InvoiceType::CreditNoteGoodsServices) == 81,
        spec_code(InvoiceType::MeteredServicesInvoice) == 82,
        spec_code(InvoiceType::CreditNoteFinancialAdjustments) == 83,
        spec_code(InvoiceType::DebitNoteFinancialAdjustments) == 84,
        spec_code(InvoiceType::TaxNotification) == 102,
        spec_code(InvoiceType::InvoicingDataSheet) == 130,
        spec_code(InvoiceType::DirectPaymentValuation) == 202,
        spec_code(InvoiceType::ProvisionalPaymentValuation) == 203,
        spec_code(InvoiceType::PaymentValuation) == 204,
        spec_code(InvoiceType::InterimApplicationForPayment) == 211,
        spec_code(InvoiceType::FinalPaymentRequest) == 218,
        spec_code(InvoiceType::PaymentRequestForCompletedUnits) == 219,
        spec_code(InvoiceType::SelfBilledCreditNote) == 261,
        spec_code(InvoiceType::ConsolidatedCreditNote) == 262,
        spec_code(InvoiceType::PriceVariationInvoice) == 295,
        spec_code(InvoiceType::CreditNotePriceVariation) == 296,
        spec_code(InvoiceType::DelcredereCreditNote) == 308,
        spec_code(InvoiceType::ProformaInvoice) == 325,
        spec_code(InvoiceType::PartialInvoice) == 326,
        spec_code(InvoiceType::CommercialInvoiceWithPackingList) == 331,
        spec_code(InvoiceType::CommercialInvoice) == 380,
        spec_code(InvoiceType::CreditNote) == 381,
        spec_code(InvoiceType::CommissionNote) == 382,
        spec_code(InvoiceType::DebitNote) == 383,
        spec_code(InvoiceType::CorrectedInvoice) == 384,
        spec_code(InvoiceType::ConsolidatedInvoice) == 385,
        spec_code(InvoiceType::PrepaymentInvoice) == 386,
        spec_code(InvoiceType::HireInvoice) == 387,
        spec_code(InvoiceType::TaxInvoice) == 388,
        spec_code(InvoiceType::SelfBilledInvoice) == 389,
        spec_code(InvoiceType::DelcredereInvoice) == 390,
        spec_code(InvoiceType::FactoredInvoice) == 393,
        spec_code(InvoiceType::LeaseInvoice) == 394,
        spec_code(InvoiceType::ConsignmentInvoice) == 395,
        spec_code(InvoiceType::FactoredCreditNote) == 396,
        spec_code(InvoiceType::OcrPaymentCreditNote) == 420,
        spec_code(InvoiceType::DebitAdvice) == 456,
        spec_code(InvoiceType::ReversalOfDebit) == 457,
        spec_code(InvoiceType::ReversalOfCredit) == 458,
        spec_code(InvoiceType::SelfBilledCorrectiveInvoice) == 471,
        spec_code(InvoiceType::FactoredCorrectiveInvoice) == 472,
        spec_code(InvoiceType::SelfBilledFactoredCorrectiveInvoice) == 473,
        spec_code(InvoiceType::SelfPrepaymentInvoice) == 500,
        spec_code(InvoiceType::SelfBilledFactoredInvoice) == 501,
        spec_code(InvoiceType::SelfBilledFactoredCreditNote) == 502,
        spec_code(InvoiceType::PrepaymentCreditNote) == 503,
        spec_code(InvoiceType::SelfBilledDebitNote) == 527,
        spec_code(InvoiceType::ForwardersCreditNote) == 532,
        spec_code(InvoiceType::ForwardersInvoiceDiscrepancyReport) == 553,
        spec_code(InvoiceType::InsurersInvoice) == 575,
        spec_code(InvoiceType::ForwardersInvoice) == 623,
        spec_code(InvoiceType::PortChargesDocuments) == 633,
        spec_code(InvoiceType::InvoiceInformationForAccounting) == 751,
        spec_code(InvoiceType::FreightInvoice) == 780,
        spec_code(InvoiceType::ClaimNotification) == 817,
        spec_code(InvoiceType::ConsularInvoice) == 870,
        spec_code(InvoiceType::PartialConstructionInvoice) == 875,
        spec_code(InvoiceType::PartialFinalConstructionInvoice) == 876,
        spec_code(InvoiceType::FinalConstructionInvoice) == 877,
        spec_code(InvoiceType::CustomsInvoice) == 935,
        spec_from_code(71) == Some(InvoiceType::RequestForPayment),
        spec_from_code(80) == Some(InvoiceType::DebitNoteGoodsServices),
        spec_from_code(81) == Some(InvoiceType::CreditNoteGoodsServices),
        spec_from_code(82) == Some(InvoiceType::MeteredServicesInvoice),
        spec_from_code(83) == Some(InvoiceType::CreditNoteFinancialAdjustments),
        spec_from_code(84) == Some(InvoiceType::DebitNoteFinancialAdjustments),
        spec_from_code(102) == Some(InvoiceType::TaxNotification),
        spec_from_code(130) == Some(InvoiceType::InvoicingDataSheet),
        spec_from_code(202) == Some(InvoiceType::DirectPaymentValuation),
        spec_from_code(203) == Some(InvoiceType::ProvisionalPaymentValuation),
        spec_from_code(204) == Some(InvoiceType::PaymentValuation),
        spec_from_code(211) == Some(InvoiceType::InterimApplicationForPayment),
        spec_from_code(218) == Some(InvoiceType::FinalPaymentRequest),
        spec_from_code(219) == Some(InvoiceType::PaymentRequestForCompletedUnits),
        spec_from_code(261) == Some(InvoiceType::SelfBilledCreditNote),
        spec_from_code(262) == Some(InvoiceType::ConsolidatedCreditNote),
        spec_from_code(295) == Some(InvoiceType::PriceVariationInvoice),
        spec_from_code(296) == Some(InvoiceType::CreditNotePriceVariation),
        spec_from_code(308) == Some(InvoiceType::DelcredereCreditNote),
        spec_from_code(325) == Some(InvoiceType::ProformaInvoice),
        spec_from_code(326) == Some(InvoiceType::PartialInvoice),
        spec_from_code(331) == Some(InvoiceType::CommercialInvoiceWithPackingList),
        spec_from_code(380) == Some(InvoiceType::CommercialInvoice),
        spec_from_code(381) == Some(InvoiceType::CreditNote),
        spec_from_code(382) == Some(InvoiceType::CommissionNote),
        spec_from_code(383) == Some(InvoiceType::DebitNote),
        spec_from_code(384) == Some(InvoiceType::CorrectedInvoice),
        spec_from_code(385) == Some(InvoiceType::ConsolidatedInvoice),
        spec_from_code(386) == Some(InvoiceType::PrepaymentInvoice),
        spec_from_code(387) == Some(InvoiceType::HireInvoice),
        spec_from_code(388) == Some(InvoiceType::TaxInvoice),
        spec_from_code(389) == Some(InvoiceType::SelfBilledInvoice),
        spec_from_code(390) == Some(InvoiceType::DelcredereInvoice),
        spec_from_code(393) == Some(InvoiceType::FactoredInvoice),
        spec_from_code(394) == Some(InvoiceType::LeaseInvoice),
        spec_from_code(395) == Some(InvoiceType::ConsignmentInvoice),
        spec_from_code(396) == Some(InvoiceType::FactoredCreditNote),
        spec_from_code(420) == Some(InvoiceType::OcrPaymentCreditNote),
        spec_from_code(456) == Some(InvoiceType::DebitAdvice),
        spec_from_code(457) == Some(InvoiceType::ReversalOfDebit),
        spec_from_code(458) == Some(InvoiceType::ReversalOfCredit),
        spec_from_code(471) == Some(InvoiceType::SelfBilledCorrectiveInvoice),
        spec_from_code(472) == Some(InvoiceType::FactoredCorrectiveInvoice),
        spec_from_code(473) == Some(InvoiceType::SelfBilledFactoredCorrectiveInvoice),
        spec_from_code(500) == Some(InvoiceType::SelfPrepaymentInvoice),
        spec_from_code(501) == Some(InvoiceType::SelfBilledFactoredInvoice),
        spec_from_code(502) == Some(InvoiceType::SelfBilledFactoredCreditNote),
        spec_from_code(503) == Some(InvoiceType::PrepaymentCreditNote),
        spec_from_code(527) == Some(InvoiceType::SelfBilledDebitNote),
        spec_from_code(532) == Some(InvoiceType::ForwardersCreditNote),
        spec_from_code(553) == Some(InvoiceType::ForwardersInvoiceDiscrepancyReport),
        spec_from_code(575) == Some(InvoiceType::InsurersInvoice),
        spec_from_code(623) == Some(InvoiceType::ForwardersInvoice),
        spec_from_code(633) == Some(InvoiceType::PortChargesDocuments),
        spec_from_code(751) == Some(InvoiceType::InvoiceInformationForAccounting),
        spec_from_code(780) == Some(InvoiceType::FreightInvoice),
        spec_from_code(817) == Some(InvoiceType::ClaimNotification),
        spec_from_code(870) == Some(InvoiceType::ConsularInvoice),
        spec_from_code(875) == Some(InvoiceType::PartialConstructionInvoice),
        spec_from_code(876) == Some(InvoiceType::PartialFinalConstructionInvoice),
        spec_from_code(877) == Some(InvoiceType::FinalConstructionInvoice),
        spec_from_code(935) == Some(InvoiceType::CustomsInvoice),
{
}

/// A line adjustment is signed by its direction: a charge adds its amount, an allowance of the
/// same amount takes it away.
pub proof fn law_adjustments_are_signed_by_direction(charge: crate::pricing::LineAdjustment, allowance: crate::pricing::LineAdjustment)
    requires
        charge.reason is Charge,
        allowance.reason is Allowance,
        charge.amount == allowance.amount,
    ensures
        crate::pricing::spec_signed_amount(charge) == crate::pricing::spec_amount_value(charge.amount),
        crate::pricing::spec_signed_amount(allowance).mantissa == -crate::pricing::spec_signed_amount(charge).mantissa,
        crate::pricing::spec_signed_amount(allowance).scale == crate::pricing::spec_signed_amount(charge).scale,
{
}

/// The net amount of a line is its quantity times its net price (the gross price less the
/// discount) over the base quantity (one unit where none is stated), rounded to two places,
/// plus its signed allowances and charges; a line without a quantity or a price has none.
pub proof fn law_line_net_amount_uses_the_net_price(line: crate::model::InvoiceLine)
    ensures
        match (line.quantity, line.price) {
            (Some(q), Some(p)) => {
                let discount = match p.discount {
                    Some(d) => d@,
                    None => DecimalView { mantissa: 0, scale: 0 },
                };
                let base = match p.base_quantity {
                    Some(b) => b.value@,
                    None => DecimalView { mantissa: 1, scale: 0 },
                };
                crate::model::spec_net_amount(line) == Some(
                    crate::decimal::spec_add(
                        crate::decimal::spec_quotient_2dp(
                            crate::decimal::spec_mul(q.value@, crate::decimal::spec_sub(p.gross@, discount)),
                            base,
                        ),
                        crate::pricing::spec_adjustments_sum(line.adjustments@),
                    ),
                )
            },
            _ => crate::model::spec_net_amount(line) is None,
        },
{
}


/// The tokens of an element of the namespace and the name holding one text.
pub open spec fn spec_leaf_tokens<N: Namespace>(namespace: N, name: Seq<char>, text: Seq<char>) -> Seq<crate::token::TokenView<N>> {
    seq![
        crate::token::TokenView::Open { namespace, name, attributes: Seq::empty() },
        crate::token::TokenView::Text(text),
        crate::token::TokenView::Close,
    ]
}

/// The tokens of a UBL postal address body that states every field: the street name, the
/// additional street name, the city, the post code, the country subdivision, the address line
/// and the country code, in the schema's order.
pub open spec fn spec_ubl_address_tokens(
    line1: Seq<char>,
    line2: Seq<char>,
    line3: Seq<char>,
    city: Seq<char>,
    post_code: Seq<char>,
    subdivision: Seq<char>,
    country: Seq<char>,
) -> Seq<crate::token::TokenView<crate::ubl::Namespace>> {
    spec_leaf_tokens(crate::ubl::Namespace::Cbc, "StreetName"@, line1) + spec_leaf_tokens(
        crate::ubl::Namespace::Cbc,
        "AdditionalStreetName"@,
        line2,
    ) + spec_leaf_tokens(crate::ubl::Namespace::Cbc, "CityName"@, city) + spec_leaf_tokens(
        crate::ubl::Namespace::Cbc,
        "PostalZone"@,
        post_code,
    ) + spec_leaf_tokens(crate::ubl::Namespace::Cbc, "CountrySubentity"@, subdivision) + seq![
        crate::token::TokenView::Open { namespace: crate::ubl::Namespace::Cac, name: "AddressLine"@, attributes: Seq::empty() },
    ] + spec_leaf_tokens(crate::ubl::Namespace::Cbc, "Line"@, line3) + seq![
        crate::token::TokenView::Close,
        crate::token::TokenView::Open { namespace: crate::ubl::Namespace::Cac, name: "Country"@, attributes: Seq::empty() },
    ] + spec_leaf_tokens(crate::ubl::Namespace::Cbc, "IdentificationCode"@, country) + seq![crate::token::TokenView::Close]
}

/// Reading a UBL postal address puts each element in its own field: the street name in line
/// one, the additional street name in line two, the address line in line three, the city name,
/// the postal zone in the post code, the country subentity in the country subdivision, and the
/// identification code, surrounding white space aside, in the country. Whatever address the
/// reader builds from what it read (`optional_address`) holds these texts.
pub proof fn law_ubl_address_reads_each_field(
    line1: Seq<char>,
    line2: Seq<char>,
    line3: Seq<char>,
    city: Seq<char>,
    post_code: Seq<char>,
    subdivision: Seq<char>,
    country: Seq<char>,
    address: crate::model::PostalAddress,
)
    ensures
        crate::ubl_read::spec_ubl_address_fields(spec_ubl_address_tokens(line1, line2, line3, city, post_code, subdivision, country), 0)
            matches Some((texts, end)) && end == 25 && (crate::reading::spec_address_texts(address) == crate::reading::spec_address_read(texts) ==> {
            &&& crate::ubl_read::spec_texts(address.line1) == Some(line1)
            &&& crate::ubl_read::spec_texts(address.line2) == Some(line2)
            &&& crate::ubl_read::spec_texts(address.line3) == Some(line3)
            &&& crate::ubl_read::spec_texts(address.city) == Some(city)
            &&& crate::ubl_read::spec_texts(address.postal_code) == Some(post_code)
            &&& crate::ubl_read::spec_texts(address.country_subdivision) == Some(subdivision)
            &&& address.country matches Some(c) && c@ == crate::text::spec_trim(country)
        }),
{
    let tokens = spec_ubl_address_tokens(line1, line2, line3, city, post_code, subdivision, country);
    assert(tokens.len() == 25);
    assert(tokens[0] == crate::token::TokenView::Open { namespace: crate::ubl::Namespace::Cbc, name: "StreetName"@, attributes: Seq::empty() });
    assert(tokens[1] == crate::token::TokenView::<crate::ubl::Namespace>::Text(line1));
    assert(tokens[2] == crate::token::TokenView::<crate::ubl::Namespace>::Close);
    assert(tokens[3] == crate::token::TokenView::Open { namespace: crate::ubl::Namespace::Cbc, name: "AdditionalStreetName"@, attributes: Seq::empty() });
    assert(tokens[4] == crate::token::TokenView::<crate::ubl::Namespace>::Text(line2));
    assert(tokens[5] == crate::token::TokenView::<crate::ubl::Namespace>::Close);
    assert(tokens[6] == crate::token::TokenView::Open { namespace: crate::ubl::Namespace::Cbc, name: "CityName"@, attributes: Seq::empty() });
    assert(tokens[7] == crate::token::TokenView::<crate::ubl::Namespace>::Text(city));
    assert(tokens[8] == crate::token::TokenView::<crate::ubl::Namespace>::Close);
    assert(tokens[9] == crate::token::TokenView::Open { namespace: crate::ubl::Namespace::Cbc, name: "PostalZone"@, attributes: Seq::empty() });
    assert(tokens[10] == crate::token::TokenView::<crate::ubl::Namespace>::Text(post_code));
    assert(tokens[11] == crate::token::TokenView::<crate::ubl::Namespace>::Close);
    assert(tokens[12] == crate::token::TokenView::Open { namespace: crate::ubl::Namespace::Cbc, name: "CountrySubentity"@, attributes: Seq::empty() });
    assert(tokens[13] == crate::token::TokenView::<crate::ubl::Namespace>::Text(subdivision));
    assert(tokens[14] == crate::token::TokenView::<crate::ubl::Namespace>::Close);
    assert(tokens[15] == crate::token::TokenView::Open { namespace: crate::ubl::Namespace::Cac, name: "AddressLine"@, attributes: Seq::empty() });
    assert(tokens[16] == crate::token::TokenView::Open { namespace: crate::ubl::Namespace::Cbc, name: "Line"@, attributes: Seq::empty() });
    assert(tokens[17] == crate::token::TokenView::<crate::ubl::Namespace>::Text(line3));
    assert(tokens[18] == crate::token::TokenView::<crate::ubl::Namespace>::Close);
    assert(tokens[19] == crate::token::TokenView::<crate::ubl::Namespace>::Close);
    assert(tokens[20] == crate::token::TokenView::Open { namespace: crate::ubl::Namespace::Cac, name: "Country"@, attributes: Seq::empty() });
    assert(tokens[21] == crate::token::TokenView::Open { namespace: crate::ubl::Namespace::Cbc, name: "IdentificationCode"@, attributes: Seq::empty() });
    assert(tokens[22] == crate::token::TokenView::<crate::ubl::Namespace>::Text(country));
    assert(tokens[23] == crate::token::TokenView::<crate::ubl::Namespace>::Close);
    assert(tokens[24] == crate::token::TokenView::<crate::ubl::Namespace>::Close);
    let texts = seq![Some(line1), Some(line2), Some(line3), Some(city), Some(post_code), Some(subdivision), Some(country)];
    assert(crate::ubl_read::spec_ubl_address_fields(tokens, 0) == Some((texts, 25int)));
    if crate::reading::spec_address_texts(address) == crate::reading::spec_address_read(texts) {
        assert(crate::reading::spec_address_texts(address)[1] == Some(line2));
        assert(crate::reading::spec_address_texts(address)[0] == Some(line1));
        assert(crate::reading::spec_address_texts(address)[2] == Some(line3));
        assert(crate::reading::spec_address_texts(address)[3] == Some(city));
        assert(crate::reading::spec_address_texts(address)[4] == Some(post_code));
        assert(crate::reading::spec_address_texts(address)[5] == Some(subdivision));
        assert(crate::reading::spec_address_texts(address)[6] == Some(crate::text::spec_trim(country)));
    }
}



// The pieces of a group of seven parts, each found between what precedes and what follows it.
#[verifier::spinoff_prover]
#[verifier::rlimit(100)]
proof fn lemma_seven_cii(st: Seq<char>, p0: Seq<char>, p1: Seq<char>, p2: Seq<char>, p3: Seq<char>, p4: Seq<char>, p5: Seq<char>, p6: Seq<char>, et: Seq<char>)
    ensures
        st + ((((p0 + p1) + p2) + p3) + ((p4 + p5) + p6)) + et == (st) + p0 + (p1 + p2 + p3 + p4 + p5 + p6 + et),
        st + ((((p0 + p1) + p2) + p3) + ((p4 + p5) + p6)) + et == (st + p0) + p1 + (p2 + p3 + p4 + p5 + p6 + et),
        st + ((((p0 + p1) + p2) + p3) + ((p4 + p5) + p6)) + et == (st + p0 + p1) + p2 + (p3 + p4 + p5 + p6 + et),
        st + ((((p0 + p1) + p2) + p3) + ((p4 + p5) + p6)) + et == (st + p0 + p1 + p2) + p3 + (p4 + p5 + p6 + et),
        st + ((((p0 + p1) + p2) + p3) + ((p4 + p5) + p6)) + et == (st + p0 + p1 + p2 + p3) + p4 + (p5 + p6 + et),
        st + ((((p0 + p1) + p2) + p3) + ((p4 + p5) + p6)) + et == (st + p0 + p1 + p2 + p3 + p4) + p5 + (p6 + et),
        st + ((((p0 + p1) + p2) + p3) + ((p4 + p5) + p6)) + et == (st + p0 + p1 + p2 + p3 + p4 + p5) + p6 + (et),
{
    assert(st + ((((p0 + p1) + p2) + p3) + ((p4 + p5) + p6)) + et == (st) + p0 + (p1 + p2 + p3 + p4 + p5 + p6 + et)) by { assert(st + ((((p0 + p1) + p2) + p3) + ((p4 + p5) + p6)) + et =~= (st) + p0 + (p1 + p2 + p3 + p4 + p5 + p6 + et)); }
    assert(st + ((((p0 + p1) + p2) + p3) + ((p4 + p5) + p6)) + et == (st + p0) + p1 + (p2 + p3 + p4 + p5 + p6 + et)) by { assert(st + ((((p0 + p1) + p2) + p3) + ((p4 + p5) + p6)) + et =~= (st + p0) + p1 + (p2 + p3 + p4 + p5 + p6 + et)); }
    assert(st + ((((p0 + p1) + p2) + p3) + ((p4 + p5) + p6)) + et == (st + p0 + p1) + p2 + (p3 + p4 + p5 + p6 + et)) by { assert(st + ((((p0 + p1) + p2) + p3) + ((p4 + p5) + p6)) + et =~= (st + p0 + p1) + p2 + (p3 + p4 + p5 + p6 + et)); }
    assert(st + ((((p0 + p1) + p2) + p3) + ((p4 + p5) + p6)) + et == (st + p0 + p1 + p2) + p3 + (p4 + p5 + p6 + et)) by { assert(st + ((((p0 + p1) + p2) + p3) + ((p4 + p5) + p6)) + et =~= (st + p0 + p1 + p2) + p3 + (p4 + p5 + p6 + et)); }
    assert(st + ((((p0 + p1) + p2) + p3) + ((p4 + p5) + p6)) + et == (st + p0 + p1 + p2 + p3) + p4 + (p5 + p6 + et)) by { assert(st + ((((p0 + p1) + p2) + p3) + ((p4 + p5) + p6)) + et =~= (st + p0 + p1 + p2 + p3) + p4 + (p5 + p6 + et)); }
    assert(st + ((((p0 + p1) + p2) + p3) + ((p4 + p5) + p6)) + et == (st + p0 + p1 + p2 + p3 + p4) + p5 + (p6 + et)) by { assert(st + ((((p0 + p1) + p2) + p3) + ((p4 + p5) + p6)) + et =~= (st + p0 + p1 + p2 + p3 + p4) + p5 + (p6 + et)); }
    assert(st + ((((p0 + p1) + p2) + p3) + ((p4 + p5) + p6)) + et == (st + p0 + p1 + p2 + p3 + p4 + p5) + p6 + (et)) by { assert(st + ((((p0 + p1) + p2) + p3) + ((p4 + p5) + p6)) + et =~= (st + p0 + p1 + p2 + p3 + p4 + p5) + p6 + (et)); }
}

// The pieces of a group of seven parts, each found between what precedes and what follows it.
#[verifier::spinoff_prover]
#[verifier::rlimit(100)]
proof fn lemma_seven_ubl(st: Seq<char>, p0: Seq<char>, p1: Seq<char>, p2: Seq<char>, p3: Seq<char>, p4: Seq<char>, p5: Seq<char>, p6: Seq<char>, et: Seq<char>)
    ensures
        st + (((((p0 + p1) + p2) + p3) + p4) + (p5 + p6)) + et == (st) + p0 + (p1 + p2 + p3 + p4 + p5 + p6 + et),
        st + (((((p0 + p1) + p2) + p3) + p4) + (p5 + p6)) + et == (st + p0) + p1 + (p2 + p3 + p4 + p5 + p6 + et),
        st + (((((p0 + p1) + p2) + p3) + p4) + (p5 + p6)) + et == (st + p0 + p1) + p2 + (p3 + p4 + p5 + p6 + et),
        st + (((((p0 + p1) + p2) + p3) + p4) + (p5 + p6)) + et == (st + p0 + p1 + p2) + p3 + (p4 + p5 + p6 + et),
        st + (((((p0 + p1) + p2) + p3) + p4) + (p5 + p6)) + et == (st + p0 + p1 + p2 + p3) + p4 + (p5 + p6 + et),
        st + (((((p0 + p1) + p2) + p3) + p4) + (p5 + p6)) + et == (st + p0 + p1 + p2 + p3 + p4) + p5 + (p6 + et),
        st + (((((p0 + p1) + p2) + p3) + p4) + (p5 + p6)) + et == (st + p0 + p1 + p2 + p3 + p4 + p5) + p6 + (et),
{
    assert(st + (((((p0 + p1) + p2) + p3) + p4) + (p5 + p6)) + et == (st) + p0 + (p1 + p2 + p3 + p4 + p5 + p6 + et)) by { assert(st + (((((p0 + p1) + p2) + p3) + p4) + (p5 + p6)) + et =~= (st) + p0 + (p1 + p2 + p3 + p4 + p5 + p6 + et)); }
    assert(st + (((((p0 + p1) + p2) + p3) + p4) + (p5 + p6)) + et == (st + p0) + p1 + (p2 + p3 + p4 + p5 + p6 + et)) by { assert(st + (((((p0 + p1) + p2) + p3) + p4) + (p5 + p6)) + et =~= (st + p0) + p1 + (p2 + p3 + p4 + p5 + p6 + et)); }
    assert(st + (((((p0 + p1) + p2) + p3) + p4) + (p5 + p6)) + et == (st + p0 + p1) + p2 + (p3 + p4 + p5 + p6 + et)) by { assert(st + (((((p0 + p1) + p2) + p3) + p4) + (p5 + p6)) + et =~= (st + p0 + p1) + p2 + (p3 + p4 + p5 + p6 + et)); }
    assert(st + (((((p0 + p1) + p2) + p3) + p4) + (p5 + p6)) + et == (st + p0 + p1 + p2) + p3 + (p4 + p5 + p6 + et)) by { assert(st + (((((p0 + p1) + p2) + p3) + p4) + (p5 + p6)) + et =~= (st + p0 + p1 + p2) + p3 + (p4 + p5 + p6 + et)); }
    assert(st + (((((p0 + p1) + p2) + p3) + p4) + (p5 + p6)) + et == (st + p0 + p1 + p2 + p3) + p4 + (p5 + p6 + et)) by { assert(st + (((((p0 + p1) + p2) + p3) + p4) + (p5 + p6)) + et =~= (st + p0 + p1 + p2 + p3) + p4 + (p5 + p6 + et)); }
    assert(st + (((((p0 + p1) + p2) + p3) + p4) + (p5 + p6)) + et == (st + p0 + p1 + p2 + p3 + p4) + p5 + (p6 + et)) by { assert(st + (((((p0 + p1) + p2) + p3) + p4) + (p5 + p6)) + et =~= (st + p0 + p1 + p2 + p3 + p4) + p5 + (p6 + et)); }
    assert(st + (((((p0 + p1) + p2) + p3) + p4) + (p5 + p6)) + et == (st + p0 + p1 + p2 + p3 + p4 + p5) + p6 + (et)) by { assert(st + (((((p0 + p1) + p2) + p3) + p4) + (p5 + p6)) + et =~= (st + p0 + p1 + p2 + p3 + p4 + p5) + p6 + (et)); }
}

// A part wrapped in its own start and end tags, found inside a text.
#[verifier::spinoff_prover]
#[verifier::rlimit(100)]
proof fn lemma_wrapped_part(before: Seq<char>, start: Seq<char>, x: Seq<char>, end: Seq<char>, after: Seq<char>)
    ensures
        before + (start + x + end) + after == (before + start) + x + (end + after),
{
    assert(before + (start + x + end) + after =~= (before + start) + x + (end + after));
}

/// The CII postal trade address writes each field as its own element: the post code as
/// `PostcodeCode`, line one as `LineOne`, line two as `LineTwo`, line three as `LineThree`, the
/// city as `CityName`, the country as `CountryID` and the country subdivision as
/// `CountrySubDivisionName`, each holding the field's text.
pub proof fn law_cii_address_writes_each_field(a: crate::model::PostalAddress)
    ensures
        a.postal_code matches Some(v) ==> (exists|before: Seq<char>, after: Seq<char>| crate::cii_write::spec_cii_postal_address(a) == before + crate::serializer::spec_element(crate::cii::Namespace::Ram, "PostcodeCode"@, Seq::empty(), v@) + after),
        a.line1 matches Some(v) ==> (exists|before: Seq<char>, after: Seq<char>| crate::cii_write::spec_cii_postal_address(a) == before + crate::serializer::spec_element(crate::cii::Namespace::Ram, "LineOne"@, Seq::empty(), v@) + after),
        a.line2 matches Some(v) ==> (exists|before: Seq<char>, after: Seq<char>| crate::cii_write::spec_cii_postal_address(a) == before + crate::serializer::spec_element(crate::cii::Namespace::Ram, "LineTwo"@, Seq::empty(), v@) + after),
        a.line3 matches Some(v) ==> (exists|before: Seq<char>, after: Seq<char>| crate::cii_write::spec_cii_postal_address(a) == before + crate::serializer::spec_element(crate::cii::Namespace::Ram, "LineThree"@, Seq::empty(), v@) + after),
        a.city matches Some(v) ==> (exists|before: Seq<char>, after: Seq<char>| crate::cii_write::spec_cii_postal_address(a) == before + crate::serializer::spec_element(crate::cii::Namespace::Ram, "CityName"@, Seq::empty(), v@) + after),
        a.country matches Some(c) ==> (exists|before: Seq<char>, after: Seq<char>| crate::cii_write::spec_cii_postal_address(a) == before + crate::serializer::spec_element(crate::cii::Namespace::Ram, "CountryID"@, Seq::empty(), c@) + after),
        a.country_subdivision matches Some(v) ==> (exists|before: Seq<char>, after: Seq<char>| crate::cii_write::spec_cii_postal_address(a) == before + crate::serializer::spec_element(crate::cii::Namespace::Ram, "CountrySubDivisionName"@, Seq::empty(), v@) + after),
{
    lemma_seven_cii(crate::xml::spec_start_tag(crate::serializer::spec_qname(crate::cii::Namespace::Ram, "PostalTradeAddress"@), Seq::empty()), crate::serializer::spec_optional_element(crate::cii::Namespace::Ram, "PostcodeCode"@, a.postal_code), crate::serializer::spec_optional_element(crate::cii::Namespace::Ram, "LineOne"@, a.line1), crate::serializer::spec_optional_element(crate::cii::Namespace::Ram, "LineTwo"@, a.line2), crate::serializer::spec_optional_element(crate::cii::Namespace::Ram, "LineThree"@, a.line3), crate::serializer::spec_optional_element(crate::cii::Namespace::Ram, "CityName"@, a.city), (match a.country { Some(c) => crate::serializer::spec_element(crate::cii::Namespace::Ram, "CountryID"@, Seq::empty(), c@), None => Seq::empty() }), crate::serializer::spec_optional_element(crate::cii::Namespace::Ram, "CountrySubDivisionName"@, a.country_subdivision), crate::xml::spec_end_tag(crate::serializer::spec_qname(crate::cii::Namespace::Ram, "PostalTradeAddress"@)));
    assert(crate::cii_write::spec_cii_postal_address(a) == crate::xml::spec_start_tag(crate::serializer::spec_qname(crate::cii::Namespace::Ram, "PostalTradeAddress"@), Seq::empty()) + ((crate::serializer::spec_optional_element(crate::cii::Namespace::Ram, "PostcodeCode"@, a.postal_code) + crate::serializer::spec_optional_element(crate::cii::Namespace::Ram, "LineOne"@, a.line1) + crate::serializer::spec_optional_element(crate::cii::Namespace::Ram, "LineTwo"@, a.line2) + crate::serializer::spec_optional_element(crate::cii::Namespace::Ram, "LineThree"@, a.line3)) + (crate::serializer::spec_optional_element(crate::cii::Namespace::Ram, "CityName"@, a.city) + (match a.country { Some(c) => crate::serializer::spec_element(crate::cii::Namespace::Ram, "CountryID"@, Seq::empty(), c@), None => Seq::empty() }) + crate::serializer::spec_optional_element(crate::cii::Namespace::Ram, "CountrySubDivisionName"@, a.country_subdivision))) + crate::xml::spec_end_tag(crate::serializer::spec_qname(crate::cii::Namespace::Ram, "PostalTradeAddress"@)));
    if let Some(v) = a.postal_code {
        assert(crate::serializer::spec_optional_element(crate::cii::Namespace::Ram, "PostcodeCode"@, a.postal_code) == crate::serializer::spec_element(crate::cii::Namespace::Ram, "PostcodeCode"@, Seq::empty(), v@));
        assert(crate::cii_write::spec_cii_postal_address(a) == (crate::xml::spec_start_tag(crate::serializer::spec_qname(crate::cii::Namespace::Ram, "PostalTradeAddress"@), Seq::empty())) + crate::serializer::spec_element(crate::cii::Namespace::Ram, "PostcodeCode"@, Seq::empty(), v@) + (crate::serializer::spec_optional_element(crate::cii::Namespace::Ram, "LineOne"@, a.line1) + crate::serializer::spec_optional_element(crate::cii::Namespace::Ram, "LineTwo"@, a.line2) + crate::serializer::spec_optional_element(crate::cii::Namespace::Ram, "LineThree"@, a.line3) + crate::serializer::spec_optional_element(crate::cii::Namespace::Ram, "CityName"@, a.city) + (match a.country { Some(c) => crate::serializer::spec_element(crate::cii::Namespace::Ram, "CountryID"@, Seq::empty(), c@), None => Seq::empty() }) + crate::serializer::spec_optional_element(crate::cii::Namespace::Ram, "CountrySubDivisionName"@, a.country_subdivision) + crate::xml::spec_end_tag(crate::serializer::spec_qname(crate::cii::Namespace::Ram, "PostalTradeAddress"@))));
    }
    if let Some(v) = a.line1 {
        assert(crate::serializer::spec_optional_element(crate::cii::Namespace::Ram, "LineOne"@, a.line1) == crate::serializer::spec_element(crate::cii::Namespace::Ram, "LineOne"@, Seq::empty(), v@));
        assert(crate::cii_write::spec_cii_postal_address(a) == (crate::xml::spec_start_tag(crate::serializer::spec_qname(crate::cii::Namespace::Ram, "PostalTradeAddress"@), Seq::empty()) + crate::serializer::spec_optional_element(crate::cii::Namespace::Ram, "PostcodeCode"@, a.postal_code)) + crate::serializer::spec_element(crate::cii::Namespace::Ram, "LineOne"@, Seq::empty(), v@) + (crate::serializer::spec_optional_element(crate::cii::Namespace::Ram, "LineTwo"@, a.line2) + crate::serializer::spec_optional_element(crate::cii::Namespace::Ram, "LineThree"@, a.line3) + crate::serializer::spec_optional_element(crate::cii::Namespace::Ram, "CityName"@, a.city) + (match a.country { Some(c) => crate::serializer::spec_element(crate::cii::Namespace::Ram, "CountryID"@, Seq::empty(), c@), None => Seq::empty() }) + crate::serializer::spec_optional_element(crate::cii::Namespace::Ram, "CountrySubDivisionName"@, a.country_subdivision) + crate::xml::spec_end_tag(crate::serializer::spec_qname(crate::cii::Namespace::Ram, "PostalTradeAddress"@))));
    }
    if let Some(v) = a.line2 {
        assert(crate::serializer::spec_optional_element(crate::cii::Namespace::Ram, "LineTwo"@, a.line2) == crate::serializer::spec_element(crate::cii::Namespace::Ram, "LineTwo"@, Seq::empty(), v@));
        assert(crate::cii_write::spec_cii_postal_address(a) == (crate::xml::spec_start_tag(crate::serializer::spec_qname(crate::cii::Namespace::Ram, "PostalTradeAddress"@), Seq::empty()) + crate::serializer::spec_optional_element(crate::cii::Namespace::Ram, "PostcodeCode"@, a.postal_code) + crate::serializer::spec_optional_element(crate::cii::Namespace::Ram, "LineOne"@, a.line1)) + crate::serializer::spec_element(crate::cii::Namespace::Ram, "LineTwo"@, Seq::empty(), v@) + (crate::serializer::spec_optional_element(crate::cii::Namespace::Ram, "LineThree"@, a.line3) + crate::serializer::spec_optional_element(crate::cii::Namespace::Ram, "CityName"@, a.city) + (match a.country { Some(c) => crate::serializer::spec_element(crate::cii::Namespace::Ram, "CountryID"@, Seq::empty(), c@), None => Seq::empty() }) + crate::serializer::spec_optional_element(crate::cii::Namespace::Ram, "CountrySubDivisionName"@, a.country_subdivision) + crate::xml::spec_end_tag(crate::serializer::spec_qname(crate::cii::Namespace::Ram, "PostalTradeAddress"@))));
    }
    if let Some(v) = a.line3 {
        assert(crate::serializer::spec_optional_element(crate::cii::Namespace::Ram, "LineThree"@, a.line3) == crate::serializer::spec_element(crate::cii::Namespace::Ram, "LineThree"@, Seq::empty(), v@));
        assert(crate::cii_write::spec_cii_postal_address(a) == (crate::xml::spec_start_tag(crate::serializer::spec_qname(crate::cii::Namespace::Ram, "PostalTradeAddress"@), Seq::empty()) + crate::serializer::spec_optional_element(crate::cii::Namespace::Ram, "PostcodeCode"@, a.postal_code) + crate::serializer::spec_optional_element(crate::cii::Namespace::Ram, "LineOne"@, a.line1) + crate::serializer::spec_optional_element(crate::cii::Namespace::Ram, "LineTwo"@, a.line2)) + crate::serializer::spec_element(crate::cii::Namespace::Ram, "LineThree"@, Seq::empty(), v@) + (crate::serializer::spec_optional_element(crate::cii::Namespace::Ram, "CityName"@, a.city) + (match a.country { Some(c) => crate::serializer::spec_element(crate::cii::Namespace::Ram, "CountryID"@, Seq::empty(), c@), None => Seq::empty() }) + crate::serializer::spec_optional_element(crate::cii::Namespace::Ram, "CountrySubDivisionName"@, a.country_subdivision) + crate::xml::spec_end_tag(crate::serializer::spec_qname(crate::cii::Namespace::Ram, "PostalTradeAddress"@))));
    }
    if let Some(v) = a.city {
        assert(crate::serializer::spec_optional_element(crate::cii::Namespace::Ram, "CityName"@, a.city) == crate::serializer::spec_element(crate::cii::Namespace::Ram, "CityName"@, Seq::empty(), v@));
        assert(crate::cii_write::spec_cii_postal_address(a) == (crate::xml::spec_start_tag(crate::serializer::spec_qname(crate::cii::Namespace::Ram, "PostalTradeAddress"@), Seq::empty()) + crate::serializer::spec_optional_element(crate::cii::Namespace::Ram, "PostcodeCode"@, a.postal_code) + crate::serializer::spec_optional_element(crate::cii::Namespace::Ram, "LineOne"@, a.line1) + crate::serializer::spec_optional_element(crate::cii::Namespace::Ram, "LineTwo"@, a.line2) + crate::serializer::spec_optional_element(crate::cii::Namespace::Ram, "LineThree"@, a.line3)) + crate::serializer::spec_element(crate::cii::Namespace::Ram, "CityName"@, Seq::empty(), v@) + ((match a.country { Some(c) => crate::serializer::spec_element(crate::cii::Namespace::Ram, "CountryID"@, Seq::empty(), c@), None => Seq::empty() }) + crate::serializer::spec_optional_element(crate::cii::Namespace::Ram, "CountrySubDivisionName"@, a.country_subdivision) + crate::xml::spec_end_tag(crate::serializer::spec_qname(crate::cii::Namespace::Ram, "PostalTradeAddress"@))));
    }
    if let Some(c) = a.country {
        assert((match a.country { Some(c) => crate::serializer::spec_element(crate::cii::Namespace::Ram, "CountryID"@, Seq::empty(), c@), None => Seq::empty() }) == crate::serializer::spec_element(crate::cii::Namespace::Ram, "CountryID"@, Seq::empty(), c@));
        assert(crate::cii_write::spec_cii_postal_address(a) == (crate::xml::spec_start_tag(crate::serializer::spec_qname(crate::cii::Namespace::Ram, "PostalTradeAddress"@), Seq::empty()) + crate::serializer::spec_optional_element(crate::cii::Namespace::Ram, "PostcodeCode"@, a.postal_code) + crate::serializer::spec_optional_element(crate::cii::Namespace::Ram, "LineOne"@, a.line1) + crate::serializer::spec_optional_element(crate::cii::Namespace::Ram, "LineTwo"@, a.line2) + crate::serializer::spec_optional_element(crate::cii::Namespace::Ram, "LineThree"@, a.line3) + crate::serializer::spec_optional_element(crate::cii::Namespace::Ram, "CityName"@, a.city)) + crate::serializer::spec_element(crate::cii::Namespace::Ram, "CountryID"@, Seq::empty(), c@) + (crate::serializer::spec_optional_element(crate::cii::Namespace::Ram, "CountrySubDivisionName"@, a.country_subdivision) + crate::xml::spec_end_tag(crate::serializer::spec_qname(crate::cii::Namespace::Ram, "PostalTradeAddress"@))));
    }
    if let Some(v) = a.country_subdivision {
        assert(crate::serializer::spec_optional_element(crate::cii::Namespace::Ram, "CountrySubDivisionName"@, a.country_subdivision) == crate::serializer::spec_element(crate::cii::Namespace::Ram, "CountrySubDivisionName"@, Seq::empty(), v@));
        assert(crate::cii_write::spec_cii_postal_address(a) == (crate::xml::spec_start_tag(crate::serializer::spec_qname(crate::cii::Namespace::Ram, "PostalTradeAddress"@), Seq::empty()) + crate::serializer::spec_optional_element(crate::cii::Namespace::Ram, "PostcodeCode"@, a.postal_code) + crate::serializer::spec_optional_element(crate::cii::Namespace::Ram, "LineOne"@, a.line1) + crate::serializer::spec_optional_element(crate::cii::Namespace::Ram, "LineTwo"@, a.line2) + crate::serializer::spec_optional_element(crate::cii::Namespace::Ram, "LineThree"@, a.line3) + crate::serializer::spec_optional_element(crate::cii::Namespace::Ram, "CityName"@, a.city) + (match a.country { Some(c) => crate::serializer::spec_element(crate::cii::Namespace::Ram, "CountryID"@, Seq::empty(), c@), None => Seq::empty() })) + crate::serializer::spec_element(crate::cii::Namespace::Ram, "CountrySubDivisionName"@, Seq::empty(), v@) + (crate::xml::spec_end_tag(crate::serializer::spec_qname(crate::cii::Namespace::Ram, "PostalTradeAddress"@))));
    }
}

/// A UBL postal address the profile allows writes each field as its own element: line one as
/// `StreetName`, line two as `AdditionalStreetName`, the city as `CityName`, the post code as
/// `PostalZone`, the country subdivision as `CountrySubentity`, line three as the `Line` of an
/// `AddressLine` and the country as the `IdentificationCode` of a `Country`.
pub proof fn law_ubl_address_writes_each_field(
    element: Seq<char>,
    group: crate::term::Term,
    a: crate::model::PostalAddress,
    forbidden: Seq<crate::term::Term>,
)
    requires
        !forbidden.contains(group),
    ensures
        a.line1 matches Some(v) ==> (exists|before: Seq<char>, after: Seq<char>| crate::ubl_write::spec_postal_address(element, group, Some(a), forbidden) == before + crate::serializer::spec_element(crate::ubl::Namespace::Cbc, "StreetName"@, Seq::empty(), v@) + after),
        a.line2 matches Some(v) ==> (exists|before: Seq<char>, after: Seq<char>| crate::ubl_write::spec_postal_address(element, group, Some(a), forbidden) == before + crate::serializer::spec_element(crate::ubl::Namespace::Cbc, "AdditionalStreetName"@, Seq::empty(), v@) + after),
        a.city matches Some(v) ==> (exists|before: Seq<char>, after: Seq<char>| crate::ubl_write::spec_postal_address(element, group, Some(a), forbidden) == before + crate::serializer::spec_element(crate::ubl::Namespace::Cbc, "CityName"@, Seq::empty(), v@) + after),
        a.postal_code matches Some(v) ==> (exists|before: Seq<char>, after: Seq<char>| crate::ubl_write::spec_postal_address(element, group, Some(a), forbidden) == before + crate::serializer::spec_element(crate::ubl::Namespace::Cbc, "PostalZone"@, Seq::empty(), v@) + after),
        a.country_subdivision matches Some(v) ==> (exists|before: Seq<char>, after: Seq<char>| crate::ubl_write::spec_postal_address(element, group, Some(a), forbidden) == before + crate::serializer::spec_element(crate::ubl::Namespace::Cbc, "CountrySubentity"@, Seq::empty(), v@) + after),
        a.line3 matches Some(v) ==> (exists|before: Seq<char>, after: Seq<char>| crate::ubl_write::spec_postal_address(element, group, Some(a), forbidden) == before + crate::serializer::spec_element(crate::ubl::Namespace::Cbc, "Line"@, Seq::empty(), v@) + after),
        a.country matches Some(c) ==> (exists|before: Seq<char>, after: Seq<char>| crate::ubl_write::spec_postal_address(element, group, Some(a), forbidden) == before + crate::serializer::spec_element(crate::ubl::Namespace::Cbc, "IdentificationCode"@, Seq::empty(), c@) + after),
{
    lemma_seven_ubl(crate::xml::spec_start_tag(crate::serializer::spec_qname(crate::ubl::Namespace::Cac, element), Seq::empty()), crate::serializer::spec_optional_element(crate::ubl::Namespace::Cbc, "StreetName"@, a.line1), crate::serializer::spec_optional_element(crate::ubl::Namespace::Cbc, "AdditionalStreetName"@, a.line2), crate::serializer::spec_optional_element(crate::ubl::Namespace::Cbc, "CityName"@, a.city), crate::serializer::spec_optional_element(crate::ubl::Namespace::Cbc, "PostalZone"@, a.postal_code), crate::serializer::spec_optional_element(crate::ubl::Namespace::Cbc, "CountrySubentity"@, a.country_subdivision), crate::ubl_write::spec_identification("AddressLine"@, "Line"@, a.line3), (match a.country { Some(c) => crate::serializer::spec_group(crate::ubl::Namespace::Cac, "Country"@, crate::serializer::spec_element(crate::ubl::Namespace::Cbc, "IdentificationCode"@, Seq::empty(), c@)), None => Seq::empty() }), crate::xml::spec_end_tag(crate::serializer::spec_qname(crate::ubl::Namespace::Cac, element)));
    assert(crate::ubl_write::spec_postal_address(element, group, Some(a), forbidden) == crate::xml::spec_start_tag(crate::serializer::spec_qname(crate::ubl::Namespace::Cac, element), Seq::empty()) + ((crate::serializer::spec_optional_element(crate::ubl::Namespace::Cbc, "StreetName"@, a.line1) + crate::serializer::spec_optional_element(crate::ubl::Namespace::Cbc, "AdditionalStreetName"@, a.line2) + crate::serializer::spec_optional_element(crate::ubl::Namespace::Cbc, "CityName"@, a.city) + crate::serializer::spec_optional_element(crate::ubl::Namespace::Cbc, "PostalZone"@, a.postal_code) + crate::serializer::spec_optional_element(crate::ubl::Namespace::Cbc, "CountrySubentity"@, a.country_subdivision)) + (crate::ubl_write::spec_identification("AddressLine"@, "Line"@, a.line3) + (match a.country { Some(c) => crate::serializer::spec_group(crate::ubl::Namespace::Cac, "Country"@, crate::serializer::spec_element(crate::ubl::Namespace::Cbc, "IdentificationCode"@, Seq::empty(), c@)), None => Seq::empty() }))) + crate::xml::spec_end_tag(crate::serializer::spec_qname(crate::ubl::Namespace::Cac, element)));
    if let Some(v) = a.line1 {
        assert(crate::serializer::spec_optional_element(crate::ubl::Namespace::Cbc, "StreetName"@, a.line1) == crate::serializer::spec_element(crate::ubl::Namespace::Cbc, "StreetName"@, Seq::empty(), v@));
        assert(crate::ubl_write::spec_postal_address(element, group, Some(a), forbidden) == (crate::xml::spec_start_tag(crate::serializer::spec_qname(crate::ubl::Namespace::Cac, element), Seq::empty())) + crate::serializer::spec_element(crate::ubl::Namespace::Cbc, "StreetName"@, Seq::empty(), v@) + (crate::serializer::spec_optional_element(crate::ubl::Namespace::Cbc, "AdditionalStreetName"@, a.line2) + crate::serializer::spec_optional_element(crate::ubl::Namespace::Cbc, "CityName"@, a.city) + crate::serializer::spec_optional_element(crate::ubl::Namespace::Cbc, "PostalZone"@, a.postal_code) + crate::serializer::spec_optional_element(crate::ubl::Namespace::Cbc, "CountrySubentity"@, a.country_subdivision) + crate::ubl_write::spec_identification("AddressLine"@, "Line"@, a.line3) + (match a.country { Some(c) => crate::serializer::spec_group(crate::ubl::Namespace::Cac, "Country"@, crate::serializer::spec_element(crate::ubl::Namespace::Cbc, "IdentificationCode"@, Seq::empty(), c@)), None => Seq::empty() }) + crate::xml::spec_end_tag(crate::serializer::spec_qname(crate::ubl::Namespace::Cac, element))));
    }
    if let Some(v) = a.line2 {
        assert(crate::serializer::spec_optional_element(crate::ubl::Namespace::Cbc, "AdditionalStreetName"@, a.line2) == crate::serializer::spec_element(crate::ubl::Namespace::Cbc, "AdditionalStreetName"@, Seq::empty(), v@));
        assert(crate::ubl_write::spec_postal_address(element, group, Some(a), forbidden) == (crate::xml::spec_start_tag(crate::serializer::spec_qname(crate::ubl::Namespace::Cac, element), Seq::empty()) + crate::serializer::spec_optional_element(crate::ubl::Namespace::Cbc, "StreetName"@, a.line1)) + crate::serializer::spec_element(crate::ubl::Namespace::Cbc, "AdditionalStreetName"@, Seq::empty(), v@) + (crate::serializer::spec_optional_element(crate::ubl::Namespace::Cbc, "CityName"@, a.city) + crate::serializer::spec_optional_element(crate::ubl::Namespace::Cbc, "PostalZone"@, a.postal_code) + crate::serializer::spec_optional_element(crate::ubl::Namespace::Cbc, "CountrySubentity"@, a.country_subdivision) + crate::ubl_write::spec_identification("AddressLine"@, "Line"@, a.line3) + (match a.country { Some(c) => crate::serializer::spec_group(crate::ubl::Namespace::Cac, "Country"@, crate::serializer::spec_element(crate::ubl::Namespace::Cbc, "IdentificationCode"@, Seq::empty(), c@)), None => Seq::empty() }) + crate::xml::spec_end_tag(crate::serializer::spec_qname(crate::ubl::Namespace::Cac, element))));
    }
    if let Some(v) = a.city {
        assert(crate::serializer::spec_optional_element(crate::ubl::Namespace::Cbc, "CityName"@, a.city) == crate::serializer::spec_element(crate::ubl::Namespace::Cbc, "CityName"@, Seq::empty(), v@));
        assert(crate::ubl_write::spec_postal_address(element, group, Some(a), forbidden) == (crate::xml::spec_start_tag(crate::serializer::spec_qname(crate::ubl::Namespace::Cac, element), Seq::empty()) + crate::serializer::spec_optional_element(crate::ubl::Namespace::Cbc, "StreetName"@, a.line1) + crate::serializer::spec_optional_element(crate::ubl::Namespace::Cbc, "AdditionalStreetName"@, a.line2)) + crate::serializer::spec_element(crate::ubl::Namespace::Cbc, "CityName"@, Seq::empty(), v@) + (crate::serializer::spec_optional_element(crate::ubl::Namespace::Cbc, "PostalZone"@, a.postal_code) + crate::serializer::spec_optional_element(crate::ubl::Namespace::Cbc, "CountrySubentity"@, a.country_subdivision) + crate::ubl_write::spec_identification("AddressLine"@, "Line"@, a.line3) + (match a.country { Some(c) => crate::serializer::spec_group(crate::ubl::Namespace::Cac, "Country"@, crate::serializer::spec_element(crate::ubl::Namespace::Cbc, "IdentificationCode"@, Seq::empty(), c@)), None => Seq::empty() }) + crate::xml::spec_end_tag(crate::serializer::spec_qname(crate::ubl::Namespace::Cac, element))));
    }
    if let Some(v) = a.postal_code {
        assert(crate::serializer::spec_optional_element(crate::ubl::Namespace::Cbc, "PostalZone"@, a.postal_code) == crate::serializer::spec_element(crate::ubl::Namespace::Cbc, "PostalZone"@, Seq::empty(), v@));
        assert(crate::ubl_write::spec_postal_address(element, group, Some(a), forbidden) == (crate::xml::spec_start_tag(crate::serializer::spec_qname(crate::ubl::Namespace::Cac, element), Seq::empty()) + crate::serializer::spec_optional_element(crate::ubl::Namespace::Cbc, "StreetName"@, a.line1) + crate::serializer::spec_optional_element(crate::ubl::Namespace::Cbc, "AdditionalStreetName"@, a.line2) + crate::serializer::spec_optional_element(crate::ubl::Namespace::Cbc, "CityName"@, a.city)) + crate::serializer::spec_element(crate::ubl::Namespace::Cbc, "PostalZone"@, Seq::empty(), v@) + (crate::serializer::spec_optional_element(crate::ubl::Namespace::Cbc, "CountrySubentity"@, a.country_subdivision) + crate::ubl_write::spec_identification("AddressLine"@, "Line"@, a.line3) + (match a.country { Some(c) => crate::serializer::spec_group(crate::ubl::Namespace::Cac, "Country"@, crate::serializer::spec_element(crate::ubl::Namespace::Cbc, "IdentificationCode"@, Seq::empty(), c@)), None => Seq::empty() }) + crate::xml::spec_end_tag(crate::serializer::spec_qname(crate::ubl::Namespace::Cac, element))));
    }
    if let Some(v) = a.country_subdivision {
        assert(crate::serializer::spec_optional_element(crate::ubl::Namespace::Cbc, "CountrySubentity"@, a.country_subdivision) == crate::serializer::spec_element(crate::ubl::Namespace::Cbc, "CountrySubentity"@, Seq::empty(), v@));
        assert(crate::ubl_write::spec_postal_address(element, group, Some(a), forbidden) == (crate::xml::spec_start_tag(crate::serializer::spec_qname(crate::ubl::Namespace::Cac, element), Seq::empty()) + crate::serializer::spec_optional_element(crate::ubl::Namespace::Cbc, "StreetName"@, a.line1) + crate::serializer::spec_optional_element(crate::ubl::Namespace::Cbc, "AdditionalStreetName"@, a.line2) + crate::serializer::spec_optional_element(crate::ubl::Namespace::Cbc, "CityName"@, a.city) + crate::serializer::spec_optional_element(crate::ubl::Namespace::Cbc, "PostalZone"@, a.postal_code)) + crate::serializer::spec_element(crate::ubl::Namespace::Cbc, "CountrySubentity"@, Seq::empty(), v@) + (crate::ubl_write::spec_identification("AddressLine"@, "Line"@, a.line3) + (match a.country { Some(c) => crate::serializer::spec_group(crate::ubl::Namespace::Cac, "Country"@, crate::serializer::spec_element(crate::ubl::Namespace::Cbc, "IdentificationCode"@, Seq::empty(), c@)), None => Seq::empty() }) + crate::xml::spec_end_tag(crate::serializer::spec_qname(crate::ubl::Namespace::Cac, element))));
    }
    if let Some(v) = a.line3 {
        assert(crate::ubl_write::spec_identification("AddressLine"@, "Line"@, a.line3) == crate::xml::spec_start_tag(crate::serializer::spec_qname(crate::ubl::Namespace::Cac, "AddressLine"@), Seq::empty()) + crate::serializer::spec_element(crate::ubl::Namespace::Cbc, "Line"@, Seq::empty(), v@) + crate::xml::spec_end_tag(crate::serializer::spec_qname(crate::ubl::Namespace::Cac, "AddressLine"@)));
        assert(crate::ubl_write::spec_postal_address(element, group, Some(a), forbidden) == (crate::xml::spec_start_tag(crate::serializer::spec_qname(crate::ubl::Namespace::Cac, element), Seq::empty()) + crate::serializer::spec_optional_element(crate::ubl::Namespace::Cbc, "StreetName"@, a.line1) + crate::serializer::spec_optional_element(crate::ubl::Namespace::Cbc, "AdditionalStreetName"@, a.line2) + crate::serializer::spec_optional_element(crate::ubl::Namespace::Cbc, "CityName"@, a.city) + crate::serializer::spec_optional_element(crate::ubl::Namespace::Cbc, "PostalZone"@, a.postal_code) + crate::serializer::spec_optional_element(crate::ubl::Namespace::Cbc, "CountrySubentity"@, a.country_subdivision)) + (crate::xml::spec_start_tag(crate::serializer::spec_qname(crate::ubl::Namespace::Cac, "AddressLine"@), Seq::empty()) + crate::serializer::spec_element(crate::ubl::Namespace::Cbc, "Line"@, Seq::empty(), v@) + crate::xml::spec_end_tag(crate::serializer::spec_qname(crate::ubl::Namespace::Cac, "AddressLine"@))) + ((match a.country { Some(c) => crate::serializer::spec_group(crate::ubl::Namespace::Cac, "Country"@, crate::serializer::spec_element(crate::ubl::Namespace::Cbc, "IdentificationCode"@, Seq::empty(), c@)), None => Seq::empty() }) + crate::xml::spec_end_tag(crate::serializer::spec_qname(crate::ubl::Namespace::Cac, element))));
        lemma_wrapped_part(crate::xml::spec_start_tag(crate::serializer::spec_qname(crate::ubl::Namespace::Cac, element), Seq::empty()) + crate::serializer::spec_optional_element(crate::ubl::Namespace::Cbc, "StreetName"@, a.line1) + crate::serializer::spec_optional_element(crate::ubl::Namespace::Cbc, "AdditionalStreetName"@, a.line2) + crate::serializer::spec_optional_element(crate::ubl::Namespace::Cbc, "CityName"@, a.city) + crate::serializer::spec_optional_element(crate::ubl::Namespace::Cbc, "PostalZone"@, a.postal_code) + crate::serializer::spec_optional_element(crate::ubl::Namespace::Cbc, "CountrySubentity"@, a.country_subdivision), crate::xml::spec_start_tag(crate::serializer::spec_qname(crate::ubl::Namespace::Cac, "AddressLine"@), Seq::empty()), crate::serializer::spec_element(crate::ubl::Namespace::Cbc, "Line"@, Seq::empty(), v@), crate::xml::spec_end_tag(crate::serializer::spec_qname(crate::ubl::Namespace::Cac, "AddressLine"@)), (match a.country { Some(c) => crate::serializer::spec_group(crate::ubl::Namespace::Cac, "Country"@, crate::serializer::spec_element(crate::ubl::Namespace::Cbc, "IdentificationCode"@, Seq::empty(), c@)), None => Seq::empty() }) + crate::xml::spec_end_tag(crate::serializer::spec_qname(crate::ubl::Namespace::Cac, element)));
        assert(crate::ubl_write::spec_postal_address(element, group, Some(a), forbidden) == ((crate::xml::spec_start_tag(crate::serializer::spec_qname(crate::ubl::Namespace::Cac, element), Seq::empty()) + crate::serializer::spec_optional_element(crate::ubl::Namespace::Cbc, "StreetName"@, a.line1) + crate::serializer::spec_optional_element(crate::ubl::Namespace::Cbc, "AdditionalStreetName"@, a.line2) + crate::serializer::spec_optional_element(crate::ubl::Namespace::Cbc, "CityName"@, a.city) + crate::serializer::spec_optional_element(crate::ubl::Namespace::Cbc, "PostalZone"@, a.postal_code) + crate::serializer::spec_optional_element(crate::ubl::Namespace::Cbc, "CountrySubentity"@, a.country_subdivision)) + crate::xml::spec_start_tag(crate::serializer::spec_qname(crate::ubl::Namespace::Cac, "AddressLine"@), Seq::empty())) + crate::serializer::spec_element(crate::ubl::Namespace::Cbc, "Line"@, Seq::empty(), v@) + (crate::xml::spec_end_tag(crate::serializer::spec_qname(crate::ubl::Namespace::Cac, "AddressLine"@)) + ((match a.country { Some(c) => crate::serializer::spec_group(crate::ubl::Namespace::Cac, "Country"@, crate::serializer::spec_element(crate::ubl::Namespace::Cbc, "IdentificationCode"@, Seq::empty(), c@)), None => Seq::empty() }) + crate::xml::spec_end_tag(crate::serializer::spec_qname(crate::ubl::Namespace::Cac, element)))));
    }
    if let Some(c) = a.country {
        assert((match a.country { Some(c) => crate::serializer::spec_group(crate::ubl::Namespace::Cac, "Country"@, crate::serializer::spec_element(crate::ubl::Namespace::Cbc, "IdentificationCode"@, Seq::empty(), c@)), None => Seq::empty() }) == crate::xml::spec_start_tag(crate::serializer::spec_qname(crate::ubl::Namespace::Cac, "Country"@), Seq::empty()) + crate::serializer::spec_element(crate::ubl::Namespace::Cbc, "IdentificationCode"@, Seq::empty(), c@) + crate::xml::spec_end_tag(crate::serializer::spec_qname(crate::ubl::Namespace::Cac, "Country"@)));
        assert(crate::ubl_write::spec_postal_address(element, group, Some(a), forbidden) == (crate::xml::spec_start_tag(crate::serializer::spec_qname(crate::ubl::Namespace::Cac, element), Seq::empty()) + crate::serializer::spec_optional_element(crate::ubl::Namespace::Cbc, "StreetName"@, a.line1) + crate::serializer::spec_optional_element(crate::ubl::Namespace::Cbc, "AdditionalStreetName"@, a.line2) + crate::serializer::spec_optional_element(crate::ubl::Namespace::Cbc, "CityName"@, a.city) + crate::serializer::spec_optional_element(crate::ubl::Namespace::Cbc, "PostalZone"@, a.postal_code) + crate::serializer::spec_optional_element(crate::ubl::Namespace::Cbc, "CountrySubentity"@, a.country_subdivision) + crate::ubl_write::spec_identification("AddressLine"@, "Line"@, a.line3)) + (crate::xml::spec_start_tag(crate::serializer::spec_qname(crate::ubl::Namespace::Cac, "Country"@), Seq::empty()) + crate::serializer::spec_element(crate::ubl::Namespace::Cbc, "IdentificationCode"@, Seq::empty(), c@) + crate::xml::spec_end_tag(crate::serializer::spec_qname(crate::ubl::Namespace::Cac, "Country"@))) + (crate::xml::spec_end_tag(crate::serializer::spec_qname(crate::ubl::Namespace::Cac, element))));
        lemma_wrapped_part(crate::xml::spec_start_tag(crate::serializer::spec_qname(crate::ubl::Namespace::Cac, element), Seq::empty()) + crate::serializer::spec_optional_element(crate::ubl::Namespace::Cbc, "StreetName"@, a.line1) + crate::serializer::spec_optional_element(crate::ubl::Namespace::Cbc, "AdditionalStreetName"@, a.line2) + crate::serializer::spec_optional_element(crate::ubl::Namespace::Cbc, "CityName"@, a.city) + crate::serializer::spec_optional_element(crate::ubl::Namespace::Cbc, "PostalZone"@, a.postal_code) + crate::serializer::spec_optional_element(crate::ubl::Namespace::Cbc, "CountrySubentity"@, a.country_subdivision) + crate::ubl_write::spec_identification("AddressLine"@, "Line"@, a.line3), crate::xml::spec_start_tag(crate::serializer::spec_qname(crate::ubl::Namespace::Cac, "Country"@), Seq::empty()), crate::serializer::spec_element(crate::ubl::Namespace::Cbc, "IdentificationCode"@, Seq::empty(), c@), crate::xml::spec_end_tag(crate::serializer::spec_qname(crate::ubl::Namespace::Cac, "Country"@)), crate::xml::spec_end_tag(crate::serializer::spec_qname(crate::ubl::Namespace::Cac, element)));
        assert(crate::ubl_write::spec_postal_address(element, group, Some(a), forbidden) == ((crate::xml::spec_start_tag(crate::serializer::spec_qname(crate::ubl::Namespace::Cac, element), Seq::empty()) + crate::serializer::spec_optional_element(crate::ubl::Namespace::Cbc, "StreetName"@, a.line1) + crate::serializer::spec_optional_element(crate::ubl::Namespace::Cbc, "AdditionalStreetName"@, a.line2) + crate::serializer::spec_optional_element(crate::ubl::Namespace::Cbc, "CityName"@, a.city) + crate::serializer::spec_optional_element(crate::ubl::Namespace::Cbc, "PostalZone"@, a.postal_code) + crate::serializer::spec_optional_element(crate::ubl::Namespace::Cbc, "CountrySubentity"@, a.country_subdivision) + crate::ubl_write::spec_identification("AddressLine"@, "Line"@, a.line3)) + crate::xml::spec_start_tag(crate::serializer::spec_qname(crate::ubl::Namespace::Cac, "Country"@), Seq::empty())) + crate::serializer::spec_element(crate::ubl::Namespace::Cbc, "IdentificationCode"@, Seq::empty(), c@) + (crate::xml::spec_end_tag(crate::serializer::spec_qname(crate::ubl::Namespace::Cac, "Country"@)) + (crate::xml::spec_end_tag(crate::serializer::spec_qname(crate::ubl::Namespace::Cac, element)))));
    }
}


/// Each VAT category has its own UNCL 5305 code.
pub proof fn law_vat_category_codes()
    ensures
        crate::vat::spec_category_code(crate::vat::VatCategory::Standard) == "S"@,
        crate::vat::spec_category_code(crate::vat::VatCategory::CanaryIslands) == "L"@,
        crate::vat::spec_category_code(crate::vat::VatCategory::CeutaMelilla) == "M"@,
        crate::vat::spec_category_code(crate::vat::VatCategory::TransferredItaly) == "B"@,
        crate::vat::spec_category_code(crate::vat::VatCategory::Exempt) == "E"@,
        crate::vat::spec_category_code(crate::vat::VatCategory::ZeroRated) == "Z"@,
        crate::vat::spec_category_code(crate::vat::VatCategory::ReverseCharge) == "AE"@,
        crate::vat::spec_category_code(crate::vat::VatCategory::IntraCommunitySupply) == "K"@,
        crate::vat::spec_category_code(crate::vat::VatCategory::FreeExport) == "G"@,
        crate::vat::spec_category_code(crate::vat::VatCategory::OutsideScope) == "O"@,
{
}

/// Each exemption reason has its own VATEX code.
pub proof fn law_exemption_reason_codes()
    ensures
        crate::exemption_reason::spec_exemption_code(crate::exemption_reason::ExemptionReason::Eu79C) == "VATEX-EU-79-C"@,
        crate::exemption_reason::spec_exemption_code(crate::exemption_reason::ExemptionReason::Eu132) == "VATEX-EU-132"@,
        crate::exemption_reason::spec_exemption_code(crate::exemption_reason::ExemptionReason::Eu1321A) == "VATEX-EU-132-1A"@,
        crate::exemption_reason::spec_exemption_code(crate::exemption_reason::ExemptionReason::Eu1321B) == "VATEX-EU-132-1B"@,
        crate::exemption_reason::spec_exemption_code(crate::exemption_reason::ExemptionReason::Eu1321C) == "VATEX-EU-132-1C"@,
        crate::exemption_reason::spec_exemption_code(crate::exemption_reason::ExemptionReason::Eu1321D) == "VATEX-EU-132-1D"@,
        crate::exemption_reason::spec_exemption_code(crate::exemption_reason::ExemptionReason::Eu1321E) == "VATEX-EU-132-1E"@,
        crate::exemption_reason::spec_exemption_code(crate::exemption_reason::ExemptionReason::Eu1321F) == "VATEX-EU-132-1F"@,
        crate::exemption_reason::spec_exemption_code(crate::exemption_reason::ExemptionReason::Eu1321G) == "VATEX-EU-132-1G"@,
        crate::exemption_reason::spec_exemption_code(crate::exemption_reason::ExemptionReason::Eu1321H) == "VATEX-EU-132-1H"@,
        crate::exemption_reason::spec_exemption_code(crate::exemption_reason::ExemptionReason::Eu1321I) == "VATEX-EU-132-1I"@,
        crate::exemption_reason::spec_exemption_code(crate::exemption_reason::ExemptionReason::Eu1321J) == "VATEX-EU-132-1J"@,
        crate::exemption_reason::spec_exemption_code(crate::exemption_reason::ExemptionReason::Eu1321K) == "VATEX-EU-132-1K"@,
        crate::exemption_reason::spec_exemption_code(crate::exemption_reason::ExemptionReason::Eu1321L) == "VATEX-EU-132-1L"@,
        crate::exemption_reason::spec_exemption_code(crate::exemption_reason::ExemptionReason::Eu1321M) == "VATEX-EU-132-1M"@,
        crate::exemption_reason::spec_exemption_code(crate::exemption_reason::ExemptionReason::Eu1321N) == "VATEX-EU-132-1N"@,
        crate::exemption_reason::spec_exemption_code(crate::exemption_reason::ExemptionReason::Eu1321O) == "VATEX-EU-132-1O"@,
        crate::exemption_reason::spec_exemption_code(crate::exemption_reason::ExemptionReason::Eu1321P) == "VATEX-EU-132-1P"@,
        crate::exemption_reason::spec_exemption_code(crate::exemption_reason::ExemptionReason::Eu1321Q) == "VATEX-EU-132-1Q"@,
        crate::exemption_reason::spec_exemption_code(crate::exemption_reason::ExemptionReason::Eu1351) == "VATEX-EU-135-1"@,
        crate::exemption_reason::spec_exemption_code(crate::exemption_reason::ExemptionReason::Eu143) == "VATEX-EU-143"@,
        crate::exemption_reason::spec_exemption_code(crate::exemption_reason::ExemptionReason::Eu1431A) == "VATEX-EU-143-1A"@,
        crate::exemption_reason::spec_exemption_code(crate::exemption_reason::ExemptionReason::Eu1431B) == "VATEX-EU-143-1B"@,
        crate::exemption_reason::spec_exemption_code(crate::exemption_reason::ExemptionReason::Eu1431C) == "VATEX-EU-143-1C"@,
        crate::exemption_reason::spec_exemption_code(crate::exemption_reason::ExemptionReason::Eu1431D) == "VATEX-EU-143-1D"@,
        crate::exemption_reason::spec_exemption_code(crate::exemption_reason::ExemptionReason::Eu1431E) == "VATEX-EU-143-1E"@,
        crate::exemption_reason::spec_exemption_code(crate::exemption_reason::ExemptionReason::Eu1431F) == "VATEX-EU-143-1F"@,
        crate::exemption_reason::spec_exemption_code(crate::exemption_reason::ExemptionReason::Eu1431Fa) == "VATEX-EU-143-1FA"@,
        crate::exemption_reason::spec_exemption_code(crate::exemption_reason::ExemptionReason::Eu1431G) == "VATEX-EU-143-1G"@,
        crate::exemption_reason::spec_exemption_code(crate::exemption_reason::ExemptionReason::Eu1431H) == "VATEX-EU-143-1H"@,
        crate::exemption_reason::spec_exemption_code(crate::exemption_reason::ExemptionReason::Eu1431I) == "VATEX-EU-143-1I"@,
        crate::exemption_reason::spec_exemption_code(crate::exemption_reason::ExemptionReason::Eu1431J) == "VATEX-EU-143-1J"@,
        crate::exemption_reason::spec_exemption_code(crate::exemption_reason::ExemptionReason::Eu1431K) == "VATEX-EU-143-1K"@,
        crate::exemption_reason::spec_exemption_code(crate::exemption_reason::ExemptionReason::Eu1431L) == "VATEX-EU-143-1L"@,
        crate::exemption_reason::spec_exemption_code(crate::exemption_reason::ExemptionReason::Eu144) == "VATEX-EU-144"@,
        crate::exemption_reason::spec_exemption_code(crate::exemption_reason::ExemptionReason::Eu1461E) == "VATEX-EU-146-1E"@,
        crate::exemption_reason::spec_exemption_code(crate::exemption_reason::ExemptionReason::Eu159) == "VATEX-EU-159"@,
        crate::exemption_reason::spec_exemption_code(crate::exemption_reason::ExemptionReason::Eu309) == "VATEX-EU-309"@,
        crate::exemption_reason::spec_exemption_code(crate::exemption_reason::ExemptionReason::Eu148) == "VATEX-EU-148"@,
        crate::exemption_reason::spec_exemption_code(crate::exemption_reason::ExemptionReason::Eu148A) == "VATEX-EU-148-A"@,
        crate::exemption_reason::spec_exemption_code(crate::exemption_reason::ExemptionReason::Eu148B) == "VATEX-EU-148-B"@,
        crate::exemption_reason::spec_exemption_code(crate::exemption_reason::ExemptionReason::Eu148C) == "VATEX-EU-148-C"@,
        crate::exemption_reason::spec_exemption_code(crate::exemption_reason::ExemptionReason::Eu148D) == "VATEX-EU-148-D"@,
        crate::exemption_reason::spec_exemption_code(crate::exemption_reason::ExemptionReason::Eu148E) == "VATEX-EU-148-E"@,
        crate::exemption_reason::spec_exemption_code(crate::exemption_reason::ExemptionReason::Eu148F) == "VATEX-EU-148-F"@,
        crate::exemption_reason::spec_exemption_code(crate::exemption_reason::ExemptionReason::Eu148G) == "VATEX-EU-148-G"@,
        crate::exemption_reason::spec_exemption_code(crate::exemption_reason::ExemptionReason::Eu151) == "VATEX-EU-151"@,
        crate::exemption_reason::spec_exemption_code(crate::exemption_reason::ExemptionReason::Eu1511A) == "VATEX-EU-151-1A"@,
        crate::exemption_reason::spec_exemption_code(crate::exemption_reason::ExemptionReason::Eu1511Aa) == "VATEX-EU-151-1AA"@,
        crate::exemption_reason::spec_exemption_code(crate::exemption_reason::ExemptionReason::Eu1511B) == "VATEX-EU-151-1B"@,
        crate::exemption_reason::spec_exemption_code(crate::exemption_reason::ExemptionReason::Eu1511C) == "VATEX-EU-151-1C"@,
        crate::exemption_reason::spec_exemption_code(crate::exemption_reason::ExemptionReason::Eu1511D) == "VATEX-EU-151-1D"@,
        crate::exemption_reason::spec_exemption_code(crate::exemption_reason::ExemptionReason::Eu1511E) == "VATEX-EU-151-1E"@,
        crate::exemption_reason::spec_exemption_code(crate::exemption_reason::ExemptionReason::EuD) == "VATEX-EU-D"@,
        crate::exemption_reason::spec_exemption_code(crate::exemption_reason::ExemptionReason::EuF) == "VATEX-EU-F"@,
        crate::exemption_reason::spec_exemption_code(crate::exemption_reason::ExemptionReason::EuI) == "VATEX-EU-I"@,
        crate::exemption_reason::spec_exemption_code(crate::exemption_reason::ExemptionReason::EuJ) == "VATEX-EU-J"@,
        crate::exemption_reason::spec_exemption_code(crate::exemption_reason::ExemptionReason::FrFranchise) == "VATEX-FR-FRANCHISE"@,
        crate::exemption_reason::spec_exemption_code(crate::exemption_reason::ExemptionReason::FrCnwvat) == "VATEX-FR-CNWVAT"@,
        crate::exemption_reason::spec_exemption_code(crate::exemption_reason::ExemptionReason::Eu153) == "VATEX-EU-153"@,
        crate::exemption_reason::spec_exemption_code(crate::exemption_reason::ExemptionReason::FrCgi2611) == "VATEX-FR-CGI261-1"@,
        crate::exemption_reason::spec_exemption_code(crate::exemption_reason::ExemptionReason::FrCgi2612) == "VATEX-FR-CGI261-2"@,
        crate::exemption_reason::spec_exemption_code(crate::exemption_reason::ExemptionReason::FrCgi2613) == "VATEX-FR-CGI261-3"@,
        crate::exemption_reason::spec_exemption_code(crate::exemption_reason::ExemptionReason::FrCgi2614) == "VATEX-FR-CGI261-4"@,
        crate::exemption_reason::spec_exemption_code(crate::exemption_reason::ExemptionReason::FrCgi2615) == "VATEX-FR-CGI261-5"@,
        crate::exemption_reason::spec_exemption_code(crate::exemption_reason::ExemptionReason::FrCgi2617) == "VATEX-FR-CGI261-7"@,
        crate::exemption_reason::spec_exemption_code(crate::exemption_reason::ExemptionReason::FrCgi2618) == "VATEX-FR-CGI261-8"@,
        crate::exemption_reason::spec_exemption_code(crate::exemption_reason::ExemptionReason::FrCgi261A) == "VATEX-FR-CGI261A"@,
        crate::exemption_reason::spec_exemption_code(crate::exemption_reason::ExemptionReason::FrCgi261B) == "VATEX-FR-CGI261B"@,
        crate::exemption_reason::spec_exemption_code(crate::exemption_reason::ExemptionReason::FrCgi261C1) == "VATEX-FR-CGI261C-1"@,
        crate::exemption_reason::spec_exemption_code(crate::exemption_reason::ExemptionReason::FrCgi261C2) == "VATEX-FR-CGI261C-2"@,
        crate::exemption_reason::spec_exemption_code(crate::exemption_reason::ExemptionReason::FrCgi261C3) == "VATEX-FR-CGI261C-3"@,
        crate::exemption_reason::spec_exemption_code(crate::exemption_reason::ExemptionReason::FrCgi261D1) == "VATEX-FR-CGI261D-1"@,
        crate::exemption_reason::spec_exemption_code(crate::exemption_reason::ExemptionReason::FrCgi261D1Bis) == "VATEX-FR-CGI261D-1BIS"@,
        crate::exemption_reason::spec_exemption_code(crate::exemption_reason::ExemptionReason::FrCgi261D2) == "VATEX-FR-CGI261D-2"@,
        crate::exemption_reason::spec_exemption_code(crate::exemption_reason::ExemptionReason::FrCgi261D3) == "VATEX-FR-CGI261D-3"@,
        crate::exemption_reason::spec_exemption_code(crate::exemption_reason::ExemptionReason::FrCgi261D4) == "VATEX-FR-CGI261D-4"@,
        crate::exemption_reason::spec_exemption_code(crate::exemption_reason::ExemptionReason::FrCgi261E1) == "VATEX-FR-CGI261E-1"@,
        crate::exemption_reason::spec_exemption_code(crate::exemption_reason::ExemptionReason::FrCgi261E2) == "VATEX-FR-CGI261E-2"@,
        crate::exemption_reason::spec_exemption_code(crate::exemption_reason::ExemptionReason::FrCgi277A) == "VATEX-FR-CGI277A"@,
        crate::exemption_reason::spec_exemption_code(crate::exemption_reason::ExemptionReason::FrCgi275) == "VATEX-FR-CGI275"@,
        crate::exemption_reason::spec_exemption_code(crate::exemption_reason::ExemptionReason::Fr298Sexdeciesa) == "VATEX-FR-298SEXDECIESA"@,
        crate::exemption_reason::spec_exemption_code(crate::exemption_reason::ExemptionReason::FrCgi295) == "VATEX-FR-CGI295"@,
        crate::exemption_reason::spec_exemption_code(crate::exemption_reason::ExemptionReason::FrAe) == "VATEX-FR-AE"@,
{
}

/// The credit notes among the invoice types are the documents of the credit note kind; every
/// other type is an invoice.
pub proof fn law_invoice_type_kinds()
    ensures
        crate::invoice_type::spec_kind(InvoiceType::RequestForPayment) == crate::invoice_type::DocumentKind::Invoice,
        crate::invoice_type::spec_kind(InvoiceType::DebitNoteGoodsServices) == crate::invoice_type::DocumentKind::Invoice,
        crate::invoice_type::spec_kind(InvoiceType::CreditNoteGoodsServices) == crate::invoice_type::DocumentKind::CreditNote,
        crate::invoice_type::spec_kind(InvoiceType::MeteredServicesInvoice) == crate::invoice_type::DocumentKind::Invoice,
        crate::invoice_type::spec_kind(InvoiceType::CreditNoteFinancialAdjustments) == crate::invoice_type::DocumentKind::CreditNote,
        crate::invoice_type::spec_kind(InvoiceType::DebitNoteFinancialAdjustments) == crate::invoice_type::DocumentKind::Invoice,
        crate::invoice_type::spec_kind(InvoiceType::TaxNotification) == crate::invoice_type::DocumentKind::Invoice,
        crate::invoice_type::spec_kind(InvoiceType::InvoicingDataSheet) == crate::invoice_type::DocumentKind::Invoice,
        crate::invoice_type::spec_kind(InvoiceType::DirectPaymentValuation) == crate::invoice_type::DocumentKind::Invoice,
        crate::invoice_type::spec_kind(InvoiceType::ProvisionalPaymentValuation) == crate::invoice_type::DocumentKind::Invoice,
        crate::invoice_type::spec_kind(InvoiceType::PaymentValuation) == crate::invoice_type::DocumentKind::Invoice,
        crate::invoice_type::spec_kind(InvoiceType::InterimApplicationForPayment) == crate::invoice_type::DocumentKind::Invoice,
        crate::invoice_type::spec_kind(InvoiceType::FinalPaymentRequest) == crate::invoice_type::DocumentKind::Invoice,
        crate::invoice_type::spec_kind(InvoiceType::PaymentRequestForCompletedUnits) == crate::invoice_type::DocumentKind::Invoice,
        crate::invoice_type::spec_kind(InvoiceType::SelfBilledCreditNote) == crate::invoice_type::DocumentKind::CreditNote,
        crate::invoice_type::spec_kind(InvoiceType::ConsolidatedCreditNote) == crate::invoice_type::DocumentKind::CreditNote,
        crate::invoice_type::spec_kind(InvoiceType::PriceVariationInvoice) == crate::invoice_type::DocumentKind::Invoice,
        crate::invoice_type::spec_kind(InvoiceType::CreditNotePriceVariation) == crate::invoice_type::DocumentKind::CreditNote,
        crate::invoice_type::spec_kind(InvoiceType::DelcredereCreditNote) == crate::invoice_type::DocumentKind::CreditNote,
        crate::invoice_type::spec_kind(InvoiceType::ProformaInvoice) == crate::invoice_type::DocumentKind::Invoice,
        crate::invoice_type::spec_kind(InvoiceType::PartialInvoice) == crate::invoice_type::DocumentKind::Invoice,
        crate::invoice_type::spec_kind(InvoiceType::CommercialInvoiceWithPackingList) == crate::invoice_type::DocumentKind::Invoice,
        crate::invoice_type::spec_kind(InvoiceType::CommercialInvoice) == crate::invoice_type::DocumentKind::Invoice,
        crate::invoice_type::spec_kind(InvoiceType::CreditNote) == crate::invoice_type::DocumentKind::CreditNote,
        crate::invoice_type::spec_kind(InvoiceType::CommissionNote) == crate::invoice_type::DocumentKind::Invoice,
        crate::invoice_type::spec_kind(InvoiceType::DebitNote) == crate::invoice_type::DocumentKind::Invoice,
        crate::invoice_type::spec_kind(InvoiceType::CorrectedInvoice) == crate::invoice_type::DocumentKind::Invoice,
        crate::invoice_type::spec_kind(InvoiceType::ConsolidatedInvoice) == crate::invoice_type::DocumentKind::Invoice,
        crate::invoice_type::spec_kind(InvoiceType::PrepaymentInvoice) == crate::invoice_type::DocumentKind::Invoice,
        crate::invoice_type::spec_kind(InvoiceType::HireInvoice) == crate::invoice_type::DocumentKind::Invoice,
        crate::invoice_type::spec_kind(InvoiceType::TaxInvoice) == crate::invoice_type::DocumentKind::Invoice,
        crate::invoice_type::spec_kind(InvoiceType::SelfBilledInvoice) == crate::invoice_type::DocumentKind::Invoice,
        crate::invoice_type::spec_kind(InvoiceType::DelcredereInvoice) == crate::invoice_type::DocumentKind::Invoice,
        crate::invoice_type::spec_kind(InvoiceType::FactoredInvoice) == crate::invoice_type::DocumentKind::Invoice,
        crate::invoice_type::spec_kind(InvoiceType::LeaseInvoice) == crate::invoice_type::DocumentKind::Invoice,
        crate::invoice_type::spec_kind(InvoiceType::ConsignmentInvoice) == crate::invoice_type::DocumentKind::Invoice,
        crate::invoice_type::spec_kind(InvoiceType::FactoredCreditNote) == crate::invoice_type::DocumentKind::CreditNote,
        crate::invoice_type::spec_kind(InvoiceType::OcrPaymentCreditNote) == crate::invoice_type::DocumentKind::CreditNote,
        crate::invoice_type::spec_kind(InvoiceType::DebitAdvice) == crate::invoice_type::DocumentKind::Invoice,
        crate::invoice_type::spec_kind(InvoiceType::ReversalOfDebit) == crate::invoice_type::DocumentKind::Invoice,
        crate::invoice_type::spec_kind(InvoiceType::ReversalOfCredit) == crate::invoice_type::DocumentKind::CreditNote,
        crate::invoice_type::spec_kind(InvoiceType::SelfBilledCorrectiveInvoice) == crate::invoice_type::DocumentKind::Invoice,
        crate::invoice_type::spec_kind(InvoiceType::FactoredCorrectiveInvoice) == crate::invoice_type::DocumentKind::Invoice,
        crate::invoice_type::spec_kind(InvoiceType::SelfBilledFactoredCorrectiveInvoice) == crate::invoice_type::DocumentKind::Invoice,
        crate::invoice_type::spec_kind(InvoiceType::SelfPrepaymentInvoice) == crate::invoice_type::DocumentKind::Invoice,
        crate::invoice_type::spec_kind(InvoiceType::SelfBilledFactoredInvoice) == crate::invoice_type::DocumentKind::Invoice,
        crate::invoice_type::spec_kind(InvoiceType::SelfBilledFactoredCreditNote) == crate::invoice_type::DocumentKind::CreditNote,
        crate::invoice_type::spec_kind(InvoiceType::PrepaymentCreditNote) == crate::invoice_type::DocumentKind::CreditNote,
        crate::invoice_type::spec_kind(InvoiceType::SelfBilledDebitNote) == crate::invoice_type::DocumentKind::Invoice,
        crate::invoice_type::spec_kind(InvoiceType::ForwardersCreditNote) == crate::invoice_type::DocumentKind::CreditNote,
        crate::invoice_type::spec_kind(InvoiceType::ForwardersInvoiceDiscrepancyReport) == crate::invoice_type::DocumentKind::Invoice,
        crate::invoice_type::spec_kind(InvoiceType::InsurersInvoice) == crate::invoice_type::DocumentKind::Invoice,
        crate::invoice_type::spec_kind(InvoiceType::ForwardersInvoice) == crate::invoice_type::DocumentKind::Invoice,
        crate::invoice_type::spec_kind(InvoiceType::PortChargesDocuments) == crate::invoice_type::DocumentKind::Invoice,
        crate::invoice_type::spec_kind(InvoiceType::InvoiceInformationForAccounting) == crate::invoice_type::DocumentKind::Invoice,
        crate::invoice_type::spec_kind(InvoiceType::FreightInvoice) == crate::invoice_type::DocumentKind::Invoice,
        crate::invoice_type::spec_kind(InvoiceType::ClaimNotification) == crate::invoice_type::DocumentKind::Invoice,
        crate::invoice_type::spec_kind(InvoiceType::ConsularInvoice) == crate::invoice_type::DocumentKind::Invoice,
        crate::invoice_type::spec_kind(InvoiceType::PartialConstructionInvoice) == crate::invoice_type::DocumentKind::Invoice,
        crate::invoice_type::spec_kind(InvoiceType::PartialFinalConstructionInvoice) == crate::invoice_type::DocumentKind::Invoice,
        crate::invoice_type::spec_kind(InvoiceType::FinalConstructionInvoice) == crate::invoice_type::DocumentKind::Invoice,
        crate::invoice_type::spec_kind(InvoiceType::CustomsInvoice) == crate::invoice_type::DocumentKind::Invoice,
{
}


/// The tokens of a CII postal trade address body that states every field, in the schema's
/// order: the post code, the three lines, the city, the country code and the subdivision.
pub open spec fn spec_cii_address_tokens(
    line1: Seq<char>,
    line2: Seq<char>,
    line3: Seq<char>,
    city: Seq<char>,
    post_code: Seq<char>,
    subdivision: Seq<char>,
    country: Seq<char>,
) -> Seq<crate::token::TokenView<crate::cii::Namespace>> {
    spec_leaf_tokens(crate::cii::Namespace::Ram, "PostcodeCode"@, post_code) + spec_leaf_tokens(crate::cii::Namespace::Ram, "LineOne"@, line1) + spec_leaf_tokens(crate::cii::Namespace::Ram, "LineTwo"@, line2) + spec_leaf_tokens(crate::cii::Namespace::Ram, "LineThree"@, line3) + spec_leaf_tokens(crate::cii::Namespace::Ram, "CityName"@, city) + spec_leaf_tokens(crate::cii::Namespace::Ram, "CountryID"@, country) + spec_leaf_tokens(crate::cii::Namespace::Ram, "CountrySubDivisionName"@, subdivision)
}

/// Reading a CII postal trade address puts each element in its own field: `PostcodeCode` in
/// the post code, `LineOne`, `LineTwo` and `LineThree` in the three lines, `CityName` in the
/// city, `CountrySubDivisionName` in the country subdivision and `CountryID`, surrounding
/// white space aside, in the country. Whatever address the reader builds from what it read
/// holds these texts.
pub proof fn law_cii_address_reads_each_field(
    line1: Seq<char>,
    line2: Seq<char>,
    line3: Seq<char>,
    city: Seq<char>,
    post_code: Seq<char>,
    subdivision: Seq<char>,
    country: Seq<char>,
    address: crate::model::PostalAddress,
)
    ensures
        crate::cii_read::spec_cii_address_fields(spec_cii_address_tokens(line1, line2, line3, city, post_code, subdivision, country), 0)
            matches Some((texts, end)) && end == 21 && (crate::reading::spec_address_texts(address) == crate::reading::spec_address_read(texts) ==> {
            &&& crate::ubl_read::spec_texts(address.line1) == Some(line1)
            &&& crate::ubl_read::spec_texts(address.line2) == Some(line2)
            &&& crate::ubl_read::spec_texts(address.line3) == Some(line3)
            &&& crate::ubl_read::spec_texts(address.city) == Some(city)
            &&& crate::ubl_read::spec_texts(address.postal_code) == Some(post_code)
            &&& crate::ubl_read::spec_texts(address.country_subdivision) == Some(subdivision)
            &&& address.country matches Some(c) && c@ == crate::text::spec_trim(country)
        }),
{
    let tokens = spec_cii_address_tokens(line1, line2, line3, city, post_code, subdivision, country);
    assert(tokens.len() == 21);
    assert(tokens[0] == crate::token::TokenView::Open { namespace: crate::cii::Namespace::Ram, name: "PostcodeCode"@, attributes: Seq::empty() });
    assert(tokens[1] == crate::token::TokenView::<crate::cii::Namespace>::Text(post_code));
    assert(tokens[2] == crate::token::TokenView::<crate::cii::Namespace>::Close);
    assert(tokens[3] == crate::token::TokenView::Open { namespace: crate::cii::Namespace::Ram, name: "LineOne"@, attributes: Seq::empty() });
    assert(tokens[4] == crate::token::TokenView::<crate::cii::Namespace>::Text(line1));
    assert(tokens[5] == crate::token::TokenView::<crate::cii::Namespace>::Close);
    assert(tokens[6] == crate::token::TokenView::Open { namespace: crate::cii::Namespace::Ram, name: "LineTwo"@, attributes: Seq::empty() });
    assert(tokens[7] == crate::token::TokenView::<crate::cii::Namespace>::Text(line2));
    assert(tokens[8] == crate::token::TokenView::<crate::cii::Namespace>::Close);
    assert(tokens[9] == crate::token::TokenView::Open { namespace: crate::cii::Namespace::Ram, name: "LineThree"@, attributes: Seq::empty() });
    assert(tokens[10] == crate::token::TokenView::<crate::cii::Namespace>::Text(line3));
    assert(tokens[11] == crate::token::TokenView::<crate::cii::Namespace>::Close);
    assert(tokens[12] == crate::token::TokenView::Open { namespace: crate::cii::Namespace::Ram, name: "CityName"@, attributes: Seq::empty() });
    assert(tokens[13] == crate::token::TokenView::<crate::cii::Namespace>::Text(city));
    assert(tokens[14] == crate::token::TokenView::<crate::cii::Namespace>::Close);
    assert(tokens[15] == crate::token::TokenView::Open { namespace: crate::cii::Namespace::Ram, name: "CountryID"@, attributes: Seq::empty() });
    assert(tokens[16] == crate::token::TokenView::<crate::cii::Namespace>::Text(country));
    assert(tokens[17] == crate::token::TokenView::<crate::cii::Namespace>::Close);
    assert(tokens[18] == crate::token::TokenView::Open { namespace: crate::cii::Namespace::Ram, name: "CountrySubDivisionName"@, attributes: Seq::empty() });
    assert(tokens[19] == crate::token::TokenView::<crate::cii::Namespace>::Text(subdivision));
    assert(tokens[20] == crate::token::TokenView::<crate::cii::Namespace>::Close);
    let texts = seq![Some(line1), Some(line2), Some(line3), Some(city), Some(post_code), Some(subdivision), Some(country)];
    assert(crate::cii_read::spec_cii_address_fields(tokens, 0) == Some((texts, 21int)));
    if crate::reading::spec_address_texts(address) == crate::reading::spec_address_read(texts) {
        assert(crate::reading::spec_address_texts(address)[0] == Some(line1));
        assert(crate::reading::spec_address_texts(address)[1] == Some(line2));
        assert(crate::reading::spec_address_texts(address)[2] == Some(line3));
        assert(crate::reading::spec_address_texts(address)[3] == Some(city));
        assert(crate::reading::spec_address_texts(address)[4] == Some(post_code));
        assert(crate::reading::spec_address_texts(address)[5] == Some(subdivision));
        assert(crate::reading::spec_address_texts(address)[6] == Some(crate::text::spec_trim(country)));
    }
}


// The pieces of a group of eight parts, each found between what precedes and what follows it.
#[verifier::spinoff_prover]
#[verifier::rlimit(100)]
proof fn lemma_eight(st: Seq<char>, p0: Seq<char>, p1: Seq<char>, p2: Seq<char>, p3: Seq<char>, p4: Seq<char>, p5: Seq<char>, p6: Seq<char>, p7: Seq<char>, et: Seq<char>)
    ensures
        st + ((((p0 + p1) + p2) + p3) + (((p4 + p5) + p6) + p7)) + et == (st) + p0 + (p1 + p2 + p3 + p4 + p5 + p6 + p7 + et),
        st + ((((p0 + p1) + p2) + p3) + (((p4 + p5) + p6) + p7)) + et == (st + p0) + p1 + (p2 + p3 + p4 + p5 + p6 + p7 + et),
        st + ((((p0 + p1) + p2) + p3) + (((p4 + p5) + p6) + p7)) + et == (st + p0 + p1) + p2 + (p3 + p4 + p5 + p6 + p7 + et),
        st + ((((p0 + p1) + p2) + p3) + (((p4 + p5) + p6) + p7)) + et == (st + p0 + p1 + p2) + p3 + (p4 + p5 + p6 + p7 + et),
        st + ((((p0 + p1) + p2) + p3) + (((p4 + p5) + p6) + p7)) + et == (st + p0 + p1 + p2 + p3) + p4 + (p5 + p6 + p7 + et),
        st + ((((p0 + p1) + p2) + p3) + (((p4 + p5) + p6) + p7)) + et == (st + p0 + p1 + p2 + p3 + p4) + p5 + (p6 + p7 + et),
        st + ((((p0 + p1) + p2) + p3) + (((p4 + p5) + p6) + p7)) + et == (st + p0 + p1 + p2 + p3 + p4 + p5) + p6 + (p7 + et),
        st + ((((p0 + p1) + p2) + p3) + (((p4 + p5) + p6) + p7)) + et == (st + p0 + p1 + p2 + p3 + p4 + p5 + p6) + p7 + (et),
{
    assert(st + ((((p0 + p1) + p2) + p3) + (((p4 + p5) + p6) + p7)) + et == (st) + p0 + (p1 + p2 + p3 + p4 + p5 + p6 + p7 + et)) by { assert(st + ((((p0 + p1) + p2) + p3) + (((p4 + p5) + p6) + p7)) + et =~= (st) + p0 + (p1 + p2 + p3 + p4 + p5 + p6 + p7 + et)); }
    assert(st + ((((p0 + p1) + p2) + p3) + (((p4 + p5) + p6) + p7)) + et == (st + p0) + p1 + (p2 + p3 + p4 + p5 + p6 + p7 + et)) by { assert(st + ((((p0 + p1) + p2) + p3) + (((p4 + p5) + p6) + p7)) + et =~= (st + p0) + p1 + (p2 + p3 + p4 + p5 + p6 + p7 + et)); }
    assert(st + ((((p0 + p1) + p2) + p3) + (((p4 + p5) + p6) + p7)) + et == (st + p0 + p1) + p2 + (p3 + p4 + p5 + p6 + p7 + et)) by { assert(st + ((((p0 + p1) + p2) + p3) + (((p4 + p5) + p6) + p7)) + et =~= (st + p0 + p1) + p2 + (p3 + p4 + p5 + p6 + p7 + et)); }
    assert(st + ((((p0 + p1) + p2) + p3) + (((p4 + p5) + p6) + p7)) + et == (st + p0 + p1 + p2) + p3 + (p4 + p5 + p6 + p7 + et)) by { assert(st + ((((p0 + p1) + p2) + p3) + (((p4 + p5) + p6) + p7)) + et =~= (st + p0 + p1 + p2) + p3 + (p4 + p5 + p6 + p7 + et)); }
    assert(st + ((((p0 + p1) + p2) + p3) + (((p4 + p5) + p6) + p7)) + et == (st + p0 + p1 + p2 + p3) + p4 + (p5 + p6 + p7 + et)) by { assert(st + ((((p0 + p1) + p2) + p3) + (((p4 + p5) + p6) + p7)) + et =~= (st + p0 + p1 + p2 + p3) + p4 + (p5 + p6 + p7 + et)); }
    assert(st + ((((p0 + p1) + p2) + p3) + (((p4 + p5) + p6) + p7)) + et == (st + p0 + p1 + p2 + p3 + p4) + p5 + (p6 + p7 + et)) by { assert(st + ((((p0 + p1) + p2) + p3) + (((p4 + p5) + p6) + p7)) + et =~= (st + p0 + p1 + p2 + p3 + p4) + p5 + (p6 + p7 + et)); }
    assert(st + ((((p0 + p1) + p2) + p3) + (((p4 + p5) + p6) + p7)) + et == (st + p0 + p1 + p2 + p3 + p4 + p5) + p6 + (p7 + et)) by { assert(st + ((((p0 + p1) + p2) + p3) + (((p4 + p5) + p6) + p7)) + et =~= (st + p0 + p1 + p2 + p3 + p4 + p5) + p6 + (p7 + et)); }
    assert(st + ((((p0 + p1) + p2) + p3) + (((p4 + p5) + p6) + p7)) + et == (st + p0 + p1 + p2 + p3 + p4 + p5 + p6) + p7 + (et)) by { assert(st + ((((p0 + p1) + p2) + p3) + (((p4 + p5) + p6) + p7)) + et =~= (st + p0 + p1 + p2 + p3 + p4 + p5 + p6) + p7 + (et)); }
}

/// The UBL legal monetary total writes each amount the invoice states, and the profile allows,
/// as its own element in the invoice currency with the amount's two-place text: the line net
/// total as `LineExtensionAmount`, the net total as `TaxExclusiveAmount`, the gross total as
/// `TaxInclusiveAmount`, the allowances as `AllowanceTotalAmount`, the charges as
/// `ChargeTotalAmount`, the prepaid amount as `PrepaidAmount`, the rounding as
/// `PayableRoundingAmount` and the amount due as `PayableAmount`.
#[verifier::spinoff_prover]
#[verifier::rlimit(100)]
pub proof fn law_ubl_monetary_total_writes_each_amount(invoice: crate::model::Invoice, forbidden: Seq<crate::term::Term>)
    ensures
        invoice.line_net_total matches Some(v) ==> (!forbidden.contains(crate::term::Term::BT(106)) ==> (exists|before: Seq<char>, after: Seq<char>| crate::ubl_write::spec_legal_monetary_total(invoice, forbidden) == before + crate::serializer::spec_element(crate::ubl::Namespace::Cbc, "LineExtensionAmount"@, crate::ubl_write::spec_currency(invoice), crate::ubl_write::spec_money(v@)) + after)),
        invoice.net_total matches Some(v) ==> (!forbidden.contains(crate::term::Term::BT(109)) ==> (exists|before: Seq<char>, after: Seq<char>| crate::ubl_write::spec_legal_monetary_total(invoice, forbidden) == before + crate::serializer::spec_element(crate::ubl::Namespace::Cbc, "TaxExclusiveAmount"@, crate::ubl_write::spec_currency(invoice), crate::ubl_write::spec_money(v@)) + after)),
        invoice.gross_total matches Some(v) ==> (!forbidden.contains(crate::term::Term::BT(112)) ==> (exists|before: Seq<char>, after: Seq<char>| crate::ubl_write::spec_legal_monetary_total(invoice, forbidden) == before + crate::serializer::spec_element(crate::ubl::Namespace::Cbc, "TaxInclusiveAmount"@, crate::ubl_write::spec_currency(invoice), crate::ubl_write::spec_money(v@)) + after)),
        invoice.allowances_total matches Some(v) ==> (!forbidden.contains(crate::term::Term::BT(107)) ==> (exists|before: Seq<char>, after: Seq<char>| crate::ubl_write::spec_legal_monetary_total(invoice, forbidden) == before + crate::serializer::spec_element(crate::ubl::Namespace::Cbc, "AllowanceTotalAmount"@, crate::ubl_write::spec_currency(invoice), crate::ubl_write::spec_money(v@)) + after)),
        invoice.charges_total matches Some(v) ==> (!forbidden.contains(crate::term::Term::BT(108)) ==> (exists|before: Seq<char>, after: Seq<char>| crate::ubl_write::spec_legal_monetary_total(invoice, forbidden) == before + crate::serializer::spec_element(crate::ubl::Namespace::Cbc, "ChargeTotalAmount"@, crate::ubl_write::spec_currency(invoice), crate::ubl_write::spec_money(v@)) + after)),
        invoice.paid matches Some(v) ==> (!forbidden.contains(crate::term::Term::BT(113)) ==> (exists|before: Seq<char>, after: Seq<char>| crate::ubl_write::spec_legal_monetary_total(invoice, forbidden) == before + crate::serializer::spec_element(crate::ubl::Namespace::Cbc, "PrepaidAmount"@, crate::ubl_write::spec_currency(invoice), crate::ubl_write::spec_money(v@)) + after)),
        invoice.rounding matches Some(v) ==> (!forbidden.contains(crate::term::Term::BT(114)) ==> (exists|before: Seq<char>, after: Seq<char>| crate::ubl_write::spec_legal_monetary_total(invoice, forbidden) == before + crate::serializer::spec_element(crate::ubl::Namespace::Cbc, "PayableRoundingAmount"@, crate::ubl_write::spec_currency(invoice), crate::ubl_write::spec_money(v@)) + after)),
        invoice.due matches Some(v) ==> (!forbidden.contains(crate::term::Term::BT(115)) ==> (exists|before: Seq<char>, after: Seq<char>| crate::ubl_write::spec_legal_monetary_total(invoice, forbidden) == before + crate::serializer::spec_element(crate::ubl::Namespace::Cbc, "PayableAmount"@, crate::ubl_write::spec_currency(invoice), crate::ubl_write::spec_money(v@)) + after)),
{
    if crate::ubl_write::spec_states_totals(invoice) {
        lemma_eight(crate::xml::spec_start_tag(crate::serializer::spec_qname(crate::ubl::Namespace::Cac, "LegalMonetaryTotal"@), Seq::empty()), crate::ubl_write::spec_total(invoice, forbidden, crate::term::Term::BT(106), "LineExtensionAmount"@, invoice.line_net_total), crate::ubl_write::spec_total(invoice, forbidden, crate::term::Term::BT(109), "TaxExclusiveAmount"@, invoice.net_total), crate::ubl_write::spec_total(invoice, forbidden, crate::term::Term::BT(112), "TaxInclusiveAmount"@, invoice.gross_total), crate::ubl_write::spec_total(invoice, forbidden, crate::term::Term::BT(107), "AllowanceTotalAmount"@, invoice.allowances_total), crate::ubl_write::spec_total(invoice, forbidden, crate::term::Term::BT(108), "ChargeTotalAmount"@, invoice.charges_total), crate::ubl_write::spec_total(invoice, forbidden, crate::term::Term::BT(113), "PrepaidAmount"@, invoice.paid), crate::ubl_write::spec_total(invoice, forbidden, crate::term::Term::BT(114), "PayableRoundingAmount"@, invoice.rounding), crate::ubl_write::spec_total(invoice, forbidden, crate::term::Term::BT(115), "PayableAmount"@, invoice.due), crate::xml::spec_end_tag(crate::serializer::spec_qname(crate::ubl::Namespace::Cac, "LegalMonetaryTotal"@)));
        assert(crate::ubl_write::spec_legal_monetary_total(invoice, forbidden) == crate::xml::spec_start_tag(crate::serializer::spec_qname(crate::ubl::Namespace::Cac, "LegalMonetaryTotal"@), Seq::empty()) + ((crate::ubl_write::spec_total(invoice, forbidden, crate::term::Term::BT(106), "LineExtensionAmount"@, invoice.line_net_total) + crate::ubl_write::spec_total(invoice, forbidden, crate::term::Term::BT(109), "TaxExclusiveAmount"@, invoice.net_total) + crate::ubl_write::spec_total(invoice, forbidden, crate::term::Term::BT(112), "TaxInclusiveAmount"@, invoice.gross_total) + crate::ubl_write::spec_total(invoice, forbidden, crate::term::Term::BT(107), "AllowanceTotalAmount"@, invoice.allowances_total)) + (crate::ubl_write::spec_total(invoice, forbidden, crate::term::Term::BT(108), "ChargeTotalAmount"@, invoice.charges_total) + crate::ubl_write::spec_total(invoice, forbidden, crate::term::Term::BT(113), "PrepaidAmount"@, invoice.paid) + crate::ubl_write::spec_total(invoice, forbidden, crate::term::Term::BT(114), "PayableRoundingAmount"@, invoice.rounding) + crate::ubl_write::spec_total(invoice, forbidden, crate::term::Term::BT(115), "PayableAmount"@, invoice.due))) + crate::xml::spec_end_tag(crate::serializer::spec_qname(crate::ubl::Namespace::Cac, "LegalMonetaryTotal"@)));
        if let Some(v) = invoice.line_net_total {
            if !forbidden.contains(crate::term::Term::BT(106)) {
                assert(crate::ubl_write::spec_total(invoice, forbidden, crate::term::Term::BT(106), "LineExtensionAmount"@, invoice.line_net_total) == crate::serializer::spec_element(crate::ubl::Namespace::Cbc, "LineExtensionAmount"@, crate::ubl_write::spec_currency(invoice), crate::ubl_write::spec_money(v@)));
                assert(crate::ubl_write::spec_legal_monetary_total(invoice, forbidden) == (crate::xml::spec_start_tag(crate::serializer::spec_qname(crate::ubl::Namespace::Cac, "LegalMonetaryTotal"@), Seq::empty())) + crate::serializer::spec_element(crate::ubl::Namespace::Cbc, "LineExtensionAmount"@, crate::ubl_write::spec_currency(invoice), crate::ubl_write::spec_money(v@)) + (crate::ubl_write::spec_total(invoice, forbidden, crate::term::Term::BT(109), "TaxExclusiveAmount"@, invoice.net_total) + crate::ubl_write::spec_total(invoice, forbidden, crate::term::Term::BT(112), "TaxInclusiveAmount"@, invoice.gross_total) + crate::ubl_write::spec_total(invoice, forbidden, crate::term::Term::BT(107), "AllowanceTotalAmount"@, invoice.allowances_total) + crate::ubl_write::spec_total(invoice, forbidden, crate::term::Term::BT(108), "ChargeTotalAmount"@, invoice.charges_total) + crate::ubl_write::spec_total(invoice, forbidden, crate::term::Term::BT(113), "PrepaidAmount"@, invoice.paid) + crate::ubl_write::spec_total(invoice, forbidden, crate::term::Term::BT(114), "PayableRoundingAmount"@, invoice.rounding) + crate::ubl_write::spec_total(invoice, forbidden, crate::term::Term::BT(115), "PayableAmount"@, invoice.due) + crate::xml::spec_end_tag(crate::serializer::spec_qname(crate::ubl::Namespace::Cac, "LegalMonetaryTotal"@))));
            }
        }
        if let Some(v) = invoice.net_total {
            if !forbidden.contains(crate::term::Term::BT(109)) {
                assert(crate::ubl_write::spec_total(invoice, forbidden, crate::term::Term::BT(109), "TaxExclusiveAmount"@, invoice.net_total) == crate::serializer::spec_element(crate::ubl::Namespace::Cbc, "TaxExclusiveAmount"@, crate::ubl_write::spec_currency(invoice), crate::ubl_write::spec_money(v@)));
                assert(crate::ubl_write::spec_legal_monetary_total(invoice, forbidden) == (crate::xml::spec_start_tag(crate::serializer::spec_qname(crate::ubl::Namespace::Cac, "LegalMonetaryTotal"@), Seq::empty()) + crate::ubl_write::spec_total(invoice, forbidden, crate::term::Term::BT(106), "LineExtensionAmount"@, invoice.line_net_total)) + crate::serializer::spec_element(crate::ubl::Namespace::Cbc, "TaxExclusiveAmount"@, crate::ubl_write::spec_currency(invoice), crate::ubl_write::spec_money(v@)) + (crate::ubl_write::spec_total(invoice, forbidden, crate::term::Term::BT(112), "TaxInclusiveAmount"@, invoice.gross_total) + crate::ubl_write::spec_total(invoice, forbidden, crate::term::Term::BT(107), "AllowanceTotalAmount"@, invoice.allowances_total) + crate::ubl_write::spec_total(invoice, forbidden, crate::term::Term::BT(108), "ChargeTotalAmount"@, invoice.charges_total) + crate::ubl_write::spec_total(invoice, forbidden, crate::term::Term::BT(113), "PrepaidAmount"@, invoice.paid) + crate::ubl_write::spec_total(invoice, forbidden, crate::term::Term::BT(114), "PayableRoundingAmount"@, invoice.rounding) + crate::ubl_write::spec_total(invoice, forbidden, crate::term::Term::BT(115), "PayableAmount"@, invoice.due) + crate::xml::spec_end_tag(crate::serializer::spec_qname(crate::ubl::Namespace::Cac, "LegalMonetaryTotal"@))));
            }
        }
        if let Some(v) = invoice.gross_total {
            if !forbidden.contains(crate::term::Term::BT(112)) {
                assert(crate::ubl_write::spec_total(invoice, forbidden, crate::term::Term::BT(112), "TaxInclusiveAmount"@, invoice.gross_total) == crate::serializer::spec_element(crate::ubl::Namespace::Cbc, "TaxInclusiveAmount"@, crate::ubl_write::spec_currency(invoice), crate::ubl_write::spec_money(v@)));
                assert(crate::ubl_write::spec_legal_monetary_total(invoice, forbidden) == (crate::xml::spec_start_tag(crate::serializer::spec_qname(crate::ubl::Namespace::Cac, "LegalMonetaryTotal"@), Seq::empty()) + crate::ubl_write::spec_total(invoice, forbidden, crate::term::Term::BT(106), "LineExtensionAmount"@, invoice.line_net_total) + crate::ubl_write::spec_total(invoice, forbidden, crate::term::Term::BT(109), "TaxExclusiveAmount"@, invoice.net_total)) + crate::serializer::spec_element(crate::ubl::Namespace::Cbc, "TaxInclusiveAmount"@, crate::ubl_write::spec_currency(invoice), crate::ubl_write::spec_money(v@)) + (crate::ubl_write::spec_total(invoice, forbidden, crate::term::Term::BT(107), "AllowanceTotalAmount"@, invoice.allowances_total) + crate::ubl_write::spec_total(invoice, forbidden, crate::term::Term::BT(108), "ChargeTotalAmount"@, invoice.charges_total) + crate::ubl_write::spec_total(invoice, forbidden, crate::term::Term::BT(113), "PrepaidAmount"@, invoice.paid) + crate::ubl_write::spec_total(invoice, forbidden, crate::term::Term::BT(114), "PayableRoundingAmount"@, invoice.rounding) + crate::ubl_write::spec_total(invoice, forbidden, crate::term::Term::BT(115), "PayableAmount"@, invoice.due) + crate::xml::spec_end_tag(crate::serializer::spec_qname(crate::ubl::Namespace::Cac, "LegalMonetaryTotal"@))));
            }
        }
        if let Some(v) = invoice.allowances_total {
            if !forbidden.contains(crate::term::Term::BT(107)) {
                assert(crate::ubl_write::spec_total(invoice, forbidden, crate::term::Term::BT(107), "AllowanceTotalAmount"@, invoice.allowances_total) == crate::serializer::spec_element(crate::ubl::Namespace::Cbc, "AllowanceTotalAmount"@, crate::ubl_write::spec_currency(invoice), crate::ubl_write::spec_money(v@)));
                assert(crate::ubl_write::spec_legal_monetary_total(invoice, forbidden) == (crate::xml::spec_start_tag(crate::serializer::spec_qname(crate::ubl::Namespace::Cac, "LegalMonetaryTotal"@), Seq::empty()) + crate::ubl_write::spec_total(invoice, forbidden, crate::term::Term::BT(106), "LineExtensionAmount"@, invoice.line_net_total) + crate::ubl_write::spec_total(invoice, forbidden, crate::term::Term::BT(109), "TaxExclusiveAmount"@, invoice.net_total) + crate::ubl_write::spec_total(invoice, forbidden, crate::term::Term::BT(112), "TaxInclusiveAmount"@, invoice.gross_total)) + crate::serializer::spec_element(crate::ubl::Namespace::Cbc, "AllowanceTotalAmount"@, crate::ubl_write::spec_currency(invoice), crate::ubl_write::spec_money(v@)) + (crate::ubl_write::spec_total(invoice, forbidden, crate::term::Term::BT(108), "ChargeTotalAmount"@, invoice.charges_total) + crate::ubl_write::spec_total(invoice, forbidden, crate::term::Term::BT(113), "PrepaidAmount"@, invoice.paid) + crate::ubl_write::spec_total(invoice, forbidden, crate::term::Term::BT(114), "PayableRoundingAmount"@, invoice.rounding) + crate::ubl_write::spec_total(invoice, forbidden, crate::term::Term::BT(115), "PayableAmount"@, invoice.due) + crate::xml::spec_end_tag(crate::serializer::spec_qname(crate::ubl::Namespace::Cac, "LegalMonetaryTotal"@))));
            }
        }
        if let Some(v) = invoice.charges_total {
            if !forbidden.contains(crate::term::Term::BT(108)) {
                assert(crate::ubl_write::spec_total(invoice, forbidden, crate::term::Term::BT(108), "ChargeTotalAmount"@, invoice.charges_total) == crate::serializer::spec_element(crate::ubl::Namespace::Cbc, "ChargeTotalAmount"@, crate::ubl_write::spec_currency(invoice), crate::ubl_write::spec_money(v@)));
                assert(crate::ubl_write::spec_legal_monetary_total(invoice, forbidden) == (crate::xml::spec_start_tag(crate::serializer::spec_qname(crate::ubl::Namespace::Cac, "LegalMonetaryTotal"@), Seq::empty()) + crate::ubl_write::spec_total(invoice, forbidden, crate::term::Term::BT(106), "LineExtensionAmount"@, invoice.line_net_total) + crate::ubl_write::spec_total(invoice, forbidden, crate::term::Term::BT(109), "TaxExclusiveAmount"@, invoice.net_total) + crate::ubl_write::spec_total(invoice, forbidden, crate::term::Term::BT(112), "TaxInclusiveAmount"@, invoice.gross_total) + crate::ubl_write::spec_total(invoice, forbidden, crate::term::Term::BT(107), "AllowanceTotalAmount"@, invoice.allowances_total)) + crate::serializer::spec_element(crate::ubl::Namespace::Cbc, "ChargeTotalAmount"@, crate::ubl_write::spec_currency(invoice), crate::ubl_write::spec_money(v@)) + (crate::ubl_write::spec_total(invoice, forbidden, crate::term::Term::BT(113), "PrepaidAmount"@, invoice.paid) + crate::ubl_write::spec_total(invoice, forbidden, crate::term::Term::BT(114), "PayableRoundingAmount"@, invoice.rounding) + crate::ubl_write::spec_total(invoice, forbidden, crate::term::Term::BT(115), "PayableAmount"@, invoice.due) + crate::xml::spec_end_tag(crate::serializer::spec_qname(crate::ubl::Namespace::Cac, "LegalMonetaryTotal"@))));
            }
        }
        if let Some(v) = invoice.paid {
            if !forbidden.contains(crate::term::Term::BT(113)) {
                assert(crate::ubl_write::spec_total(invoice, forbidden, crate::term::Term::BT(113), "PrepaidAmount"@, invoice.paid) == crate::serializer::spec_element(crate::ubl::Namespace::Cbc, "PrepaidAmount"@, crate::ubl_write::spec_currency(invoice), crate::ubl_write::spec_money(v@)));
                assert(crate::ubl_write::spec_legal_monetary_total(invoice, forbidden) == (crate::xml::spec_start_tag(crate::serializer::spec_qname(crate::ubl::Namespace::Cac, "LegalMonetaryTotal"@), Seq::empty()) + crate::ubl_write::spec_total(invoice, forbidden, crate::term::Term::BT(106), "LineExtensionAmount"@, invoice.line_net_total) + crate::ubl_write::spec_total(invoice, forbidden, crate::term::Term::BT(109), "TaxExclusiveAmount"@, invoice.net_total) + crate::ubl_write::spec_total(invoice, forbidden, crate::term::Term::BT(112), "TaxInclusiveAmount"@, invoice.gross_total) + crate::ubl_write::spec_total(invoice, forbidden, crate::term::Term::BT(107), "AllowanceTotalAmount"@, invoice.allowances_total) + crate::ubl_write::spec_total(invoice, forbidden, crate::term::Term::BT(108), "ChargeTotalAmount"@, invoice.charges_total)) + crate::serializer::spec_element(crate::ubl::Namespace::Cbc, "PrepaidAmount"@, crate::ubl_write::spec_currency(invoice), crate::ubl_write::spec_money(v@)) + (crate::ubl_write::spec_total(invoice, forbidden, crate::term::Term::BT(114), "PayableRoundingAmount"@, invoice.rounding) + crate::ubl_write::spec_total(invoice, forbidden, crate::term::Term::BT(115), "PayableAmount"@, invoice.due) + crate::xml::spec_end_tag(crate::serializer::spec_qname(crate::ubl::Namespace::Cac, "LegalMonetaryTotal"@))));
            }
        }
        if let Some(v) = invoice.rounding {
            if !forbidden.contains(crate::term::Term::BT(114)) {
                assert(crate::ubl_write::spec_total(invoice, forbidden, crate::term::Term::BT(114), "PayableRoundingAmount"@, invoice.rounding) == crate::serializer::spec_element(crate::ubl::Namespace::Cbc, "PayableRoundingAmount"@, crate::ubl_write::spec_currency(invoice), crate::ubl_write::spec_money(v@)));
                assert(crate::ubl_write::spec_legal_monetary_total(invoice, forbidden) == (crate::xml::spec_start_tag(crate::serializer::spec_qname(crate::ubl::Namespace::Cac, "LegalMonetaryTotal"@), Seq::empty()) + crate::ubl_write::spec_total(invoice, forbidden, crate::term::Term::BT(106), "LineExtensionAmount"@, invoice.line_net_total) + crate::ubl_write::spec_total(invoice, forbidden, crate::term::Term::BT(109), "TaxExclusiveAmount"@, invoice.net_total) + crate::ubl_write::spec_total(invoice, forbidden, crate::term::Term::BT(112), "TaxInclusiveAmount"@, invoice.gross_total) + crate::ubl_write::spec_total(invoice, forbidden, crate::term::Term::BT(107), "AllowanceTotalAmount"@, invoice.allowances_total) + crate::ubl_write::spec_total(invoice, forbidden, crate::term::Term::BT(108), "ChargeTotalAmount"@, invoice.charges_total) + crate::ubl_write::spec_total(invoice, forbidden, crate::term::Term::BT(113), "PrepaidAmount"@, invoice.paid)) + crate::serializer::spec_element(crate::ubl::Namespace::Cbc, "PayableRoundingAmount"@, crate::ubl_write::spec_currency(invoice), crate::ubl_write::spec_money(v@)) + (crate::ubl_write::spec_total(invoice, forbidden, crate::term::Term::BT(115), "PayableAmount"@, invoice.due) + crate::xml::spec_end_tag(crate::serializer::spec_qname(crate::ubl::Namespace::Cac, "LegalMonetaryTotal"@))));
            }
        }
        if let Some(v) = invoice.due {
            if !forbidden.contains(crate::term::Term::BT(115)) {
                assert(crate::ubl_write::spec_total(invoice, forbidden, crate::term::Term::BT(115), "PayableAmount"@, invoice.due) == crate::serializer::spec_element(crate::ubl::Namespace::Cbc, "PayableAmount"@, crate::ubl_write::spec_currency(invoice), crate::ubl_write::spec_money(v@)));
                assert(crate::ubl_write::spec_legal_monetary_total(invoice, forbidden) == (crate::xml::spec_start_tag(crate::serializer::spec_qname(crate::ubl::Namespace::Cac, "LegalMonetaryTotal"@), Seq::empty()) + crate::ubl_write::spec_total(invoice, forbidden, crate::term::Term::BT(106), "LineExtensionAmount"@, invoice.line_net_total) + crate::ubl_write::spec_total(invoice, forbidden, crate::term::Term::BT(109), "TaxExclusiveAmount"@, invoice.net_total) + crate::ubl_write::spec_total(invoice, forbidden, crate::term::Term::BT(112), "TaxInclusiveAmount"@, invoice.gross_total) + crate::ubl_write::spec_total(invoice, forbidden, crate::term::Term::BT(107), "AllowanceTotalAmount"@, invoice.allowances_total) + crate::ubl_write::spec_total(invoice, forbidden, crate::term::Term::BT(108), "ChargeTotalAmount"@, invoice.charges_total) + crate::ubl_write::spec_total(invoice, forbidden, crate::term::Term::BT(113), "PrepaidAmount"@, invoice.paid) + crate::ubl_write::spec_total(invoice, forbidden, crate::term::Term::BT(114), "PayableRoundingAmount"@, invoice.rounding)) + crate::serializer::spec_element(crate::ubl::Namespace::Cbc, "PayableAmount"@, crate::ubl_write::spec_currency(invoice), crate::ubl_write::spec_money(v@)) + (crate::xml::spec_end_tag(crate::serializer::spec_qname(crate::ubl::Namespace::Cac, "LegalMonetaryTotal"@))));
            }
        }
    }
}


/// Reading a UBL monetary amount element sets the amount it is mapped to and keeps the others:
/// `LineExtensionAmount` the line net total, `TaxExclusiveAmount` the net total,
/// `TaxInclusiveAmount` the gross total, `AllowanceTotalAmount` the allowances,
/// `ChargeTotalAmount` the charges, `PrepaidAmount` the prepaid amount,
/// `PayableRoundingAmount` the rounding and `PayableAmount` the amount due.
#[verifier::spinoff_prover]
#[verifier::rlimit(100)]
pub proof fn law_ubl_monetary_total_reads_each_amount(text: Seq<char>, v: DecimalView, totals: crate::ubl_read::TotalsView)
    requires
        crate::reading::spec_decimal_value(text) == Some(v),
    ensures
        crate::ubl_read::spec_ubl_amounts(spec_leaf_tokens(crate::ubl::Namespace::Cbc, "LineExtensionAmount"@, text), 0, totals) == Some((crate::ubl_read::TotalsView { line_net_total: Some(v), ..totals }, 3int)),
        crate::ubl_read::spec_ubl_amounts(spec_leaf_tokens(crate::ubl::Namespace::Cbc, "TaxExclusiveAmount"@, text), 0, totals) == Some((crate::ubl_read::TotalsView { net_total: Some(v), ..totals }, 3int)),
        crate::ubl_read::spec_ubl_amounts(spec_leaf_tokens(crate::ubl::Namespace::Cbc, "TaxInclusiveAmount"@, text), 0, totals) == Some((crate::ubl_read::TotalsView { gross_total: Some(v), ..totals }, 3int)),
        crate::ubl_read::spec_ubl_amounts(spec_leaf_tokens(crate::ubl::Namespace::Cbc, "AllowanceTotalAmount"@, text), 0, totals) == Some((crate::ubl_read::TotalsView { allowances_total: Some(v), ..totals }, 3int)),
        crate::ubl_read::spec_ubl_amounts(spec_leaf_tokens(crate::ubl::Namespace::Cbc, "ChargeTotalAmount"@, text), 0, totals) == Some((crate::ubl_read::TotalsView { charges_total: Some(v), ..totals }, 3int)),
        crate::ubl_read::spec_ubl_amounts(spec_leaf_tokens(crate::ubl::Namespace::Cbc, "PrepaidAmount"@, text), 0, totals) == Some((crate::ubl_read::TotalsView { paid: Some(v), ..totals }, 3int)),
        crate::ubl_read::spec_ubl_amounts(spec_leaf_tokens(crate::ubl::Namespace::Cbc, "PayableRoundingAmount"@, text), 0, totals) == Some((crate::ubl_read::TotalsView { rounding: Some(v), ..totals }, 3int)),
        crate::ubl_read::spec_ubl_amounts(spec_leaf_tokens(crate::ubl::Namespace::Cbc, "PayableAmount"@, text), 0, totals) == Some((crate::ubl_read::TotalsView { due: Some(v), ..totals }, 3int)),
{
    reveal_strlit("LineExtensionAmount");
    assert("LineExtensionAmount"@.len() == 19);
    reveal_strlit("TaxExclusiveAmount");
    assert("TaxExclusiveAmount"@.len() == 18);
    reveal_strlit("TaxInclusiveAmount");
    assert("TaxInclusiveAmount"@.len() == 18);
    reveal_strlit("AllowanceTotalAmount");
    assert("AllowanceTotalAmount"@.len() == 20);
    reveal_strlit("ChargeTotalAmount");
    assert("ChargeTotalAmount"@.len() == 17);
    reveal_strlit("PrepaidAmount");
    assert("PrepaidAmount"@.len() == 13);
    reveal_strlit("PayableRoundingAmount");
    assert("PayableRoundingAmount"@.len() == 21);
    reveal_strlit("PayableAmount");
    assert("PayableAmount"@.len() == 13);
    assert("TaxExclusiveAmount"@[3] != "TaxInclusiveAmount"@[3]);
    assert("PrepaidAmount"@[1] != "PayableAmount"@[1]);
    assert(spec_leaf_tokens(crate::ubl::Namespace::Cbc, "LineExtensionAmount"@, text).len() == 3);
    assert(spec_leaf_tokens(crate::ubl::Namespace::Cbc, "LineExtensionAmount"@, text)[0] == crate::token::TokenView::Open { namespace: crate::ubl::Namespace::Cbc, name: "LineExtensionAmount"@, attributes: Seq::empty() });
    assert(spec_leaf_tokens(crate::ubl::Namespace::Cbc, "LineExtensionAmount"@, text)[1] == crate::token::TokenView::<crate::ubl::Namespace>::Text(text));
    assert(spec_leaf_tokens(crate::ubl::Namespace::Cbc, "LineExtensionAmount"@, text)[2] == crate::token::TokenView::<crate::ubl::Namespace>::Close);
    assert(crate::ubl_read::spec_ubl_amounts(spec_leaf_tokens(crate::ubl::Namespace::Cbc, "LineExtensionAmount"@, text), 3, crate::ubl_read::TotalsView { line_net_total: Some(v), ..totals }) == Some((crate::ubl_read::TotalsView { line_net_total: Some(v), ..totals }, 3int)));
    assert(spec_leaf_tokens(crate::ubl::Namespace::Cbc, "TaxExclusiveAmount"@, text).len() == 3);
    assert(spec_leaf_tokens(crate::ubl::Namespace::Cbc, "TaxExclusiveAmount"@, text)[0] == crate::token::TokenView::Open { namespace: crate::ubl::Namespace::Cbc, name: "TaxExclusiveAmount"@, attributes: Seq::empty() });
    assert(spec_leaf_tokens(crate::ubl::Namespace::Cbc, "TaxExclusiveAmount"@, text)[1] == crate::token::TokenView::<crate::ubl::Namespace>::Text(text));
    assert(spec_leaf_tokens(crate::ubl::Namespace::Cbc, "TaxExclusiveAmount"@, text)[2] == crate::token::TokenView::<crate::ubl::Namespace>::Close);
    assert(crate::ubl_read::spec_ubl_amounts(spec_leaf_tokens(crate::ubl::Namespace::Cbc, "TaxExclusiveAmount"@, text), 3, crate::ubl_read::TotalsView { net_total: Some(v), ..totals }) == Some((crate::ubl_read::TotalsView { net_total: Some(v), ..totals }, 3int)));
    assert(spec_leaf_tokens(crate::ubl::Namespace::Cbc, "TaxInclusiveAmount"@, text).len() == 3);
    assert(spec_leaf_tokens(crate::ubl::Namespace::Cbc, "TaxInclusiveAmount"@, text)[0] == crate::token::TokenView::Open { namespace: crate::ubl::Namespace::Cbc, name: "TaxInclusiveAmount"@, attributes: Seq::empty() });
    assert(spec_leaf_tokens(crate::ubl::Namespace::Cbc, "TaxInclusiveAmount"@, text)[1] == crate::token::TokenView::<crate::ubl::Namespace>::Text(text));
    assert(spec_leaf_tokens(crate::ubl::Namespace::Cbc, "TaxInclusiveAmount"@, text)[2] == crate::token::TokenView::<crate::ubl::Namespace>::Close);
    assert(crate::ubl_read::spec_ubl_amounts(spec_leaf_tokens(crate::ubl::Namespace::Cbc, "TaxInclusiveAmount"@, text), 3, crate::ubl_read::TotalsView { gross_total: Some(v), ..totals }) == Some((crate::ubl_read::TotalsView { gross_total: Some(v), ..totals }, 3int)));
    assert(spec_leaf_tokens(crate::ubl::Namespace::Cbc, "AllowanceTotalAmount"@, text).len() == 3);
    assert(spec_leaf_tokens(crate::ubl::Namespace::Cbc, "AllowanceTotalAmount"@, text)[0] == crate::token::TokenView::Open { namespace: crate::ubl::Namespace::Cbc, name: "AllowanceTotalAmount"@, attributes: Seq::empty() });
    assert(spec_leaf_tokens(crate::ubl::Namespace::Cbc, "AllowanceTotalAmount"@, text)[1] == crate::token::TokenView::<crate::ubl::Namespace>::Text(text));
    assert(spec_leaf_tokens(crate::ubl::Namespace::Cbc, "AllowanceTotalAmount"@, text)[2] == crate::token::TokenView::<crate::ubl::Namespace>::Close);
    assert(crate::ubl_read::spec_ubl_amounts(spec_leaf_tokens(crate::ubl::Namespace::Cbc, "AllowanceTotalAmount"@, text), 3, crate::ubl_read::TotalsView { allowances_total: Some(v), ..totals }) == Some((crate::ubl_read::TotalsView { allowances_total: Some(v), ..totals }, 3int)));
    assert(spec_leaf_tokens(crate::ubl::Namespace::Cbc, "ChargeTotalAmount"@, text).len() == 3);
    assert(spec_leaf_tokens(crate::ubl::Namespace::Cbc, "ChargeTotalAmount"@, text)[0] == crate::token::TokenView::Open { namespace: crate::ubl::Namespace::Cbc, name: "ChargeTotalAmount"@, attributes: Seq::empty() });
    assert(spec_leaf_tokens(crate::ubl::Namespace::Cbc, "ChargeTotalAmount"@, text)[1] == crate::token::TokenView::<crate::ubl::Namespace>::Text(text));
    assert(spec_leaf_tokens(crate::ubl::Namespace::Cbc, "ChargeTotalAmount"@, text)[2] == crate::token::TokenView::<crate::ubl::Namespace>::Close);
    assert(crate::ubl_read::spec_ubl_amounts(spec_leaf_tokens(crate::ubl::Namespace::Cbc, "ChargeTotalAmount"@, text), 3, crate::ubl_read::TotalsView { charges_total: Some(v), ..totals }) == Some((crate::ubl_read::TotalsView { charges_total: Some(v), ..totals }, 3int)));
    assert(spec_leaf_tokens(crate::ubl::Namespace::Cbc, "PrepaidAmount"@, text).len() == 3);
    assert(spec_leaf_tokens(crate::ubl::Namespace::Cbc, "PrepaidAmount"@, text)[0] == crate::token::TokenView::Open { namespace: crate::ubl::Namespace::Cbc, name: "PrepaidAmount"@, attributes: Seq::empty() });
    assert(spec_leaf_tokens(crate::ubl::Namespace::Cbc, "PrepaidAmount"@, text)[1] == crate::token::TokenView::<crate::ubl::Namespace>::Text(text));
    assert(spec_leaf_tokens(crate::ubl::Namespace::Cbc, "PrepaidAmount"@, text)[2] == crate::token::TokenView::<crate::ubl::Namespace>::Close);
    assert(crate::ubl_read::spec_ubl_amounts(spec_leaf_tokens(crate::ubl::Namespace::Cbc, "PrepaidAmount"@, text), 3, crate::ubl_read::TotalsView { paid: Some(v), ..totals }) == Some((crate::ubl_read::TotalsView { paid: Some(v), ..totals }, 3int)));
    assert(spec_leaf_tokens(crate::ubl::Namespace::Cbc, "PayableRoundingAmount"@, text).len() == 3);
    assert(spec_leaf_tokens(crate::ubl::Namespace::Cbc, "PayableRoundingAmount"@, text)[0] == crate::token::TokenView::Open { namespace: crate::ubl::Namespace::Cbc, name: "PayableRoundingAmount"@, attributes: Seq::empty() });
    assert(spec_leaf_tokens(crate::ubl::Namespace::Cbc, "PayableRoundingAmount"@, text)[1] == crate::token::TokenView::<crate::ubl::Namespace>::Text(text));
    assert(spec_leaf_tokens(crate::ubl::Namespace::Cbc, "PayableRoundingAmount"@, text)[2] == crate::token::TokenView::<crate::ubl::Namespace>::Close);
    assert(crate::ubl_read::spec_ubl_amounts(spec_leaf_tokens(crate::ubl::Namespace::Cbc, "PayableRoundingAmount"@, text), 3, crate::ubl_read::TotalsView { rounding: Some(v), ..totals }) == Some((crate::ubl_read::TotalsView { rounding: Some(v), ..totals }, 3int)));
    assert(spec_leaf_tokens(crate::ubl::Namespace::Cbc, "PayableAmount"@, text).len() == 3);
    assert(spec_leaf_tokens(crate::ubl::Namespace::Cbc, "PayableAmount"@, text)[0] == crate::token::TokenView::Open { namespace: crate::ubl::Namespace::Cbc, name: "PayableAmount"@, attributes: Seq::empty() });
    assert(spec_leaf_tokens(crate::ubl::Namespace::Cbc, "PayableAmount"@, text)[1] == crate::token::TokenView::<crate::ubl::Namespace>::Text(text));
    assert(spec_leaf_tokens(crate::ubl::Namespace::Cbc, "PayableAmount"@, text)[2] == crate::token::TokenView::<crate::ubl::Namespace>::Close);
    assert(crate::ubl_read::spec_ubl_amounts(spec_leaf_tokens(crate::ubl::Namespace::Cbc, "PayableAmount"@, text), 3, crate::ubl_read::TotalsView { due: Some(v), ..totals }) == Some((crate::ubl_read::TotalsView { due: Some(v), ..totals }, 3int)));
}


/// The currency attribute of an invoice: its currency code, when it states one.
pub open spec fn spec_currency_attribute(invoice: crate::model::Invoice) -> Seq<(Seq<char>, Seq<char>)> {
    match invoice.currency {
        Some(c) => seq![("currencyID"@, c@)],
        None => Seq::empty(),
    }
}

// The pieces of the monetary summation group, each found between what precedes and what
// follows it.
#[verifier::spinoff_prover]
#[verifier::rlimit(100)]
proof fn lemma_nine(st: Seq<char>, p0: Seq<char>, p1: Seq<char>, p2: Seq<char>, p3: Seq<char>, p4: Seq<char>, p5: Seq<char>, p6: Seq<char>, p7: Seq<char>, p8: Seq<char>, et: Seq<char>)
    ensures
        st + ((((p0 + p1) + p2) + p3) + (p4 + (((p5 + p6) + p7) + p8))) + et == (st) + p0 + (p1 + p2 + p3 + p4 + p5 + p6 + p7 + p8 + et),
        st + ((((p0 + p1) + p2) + p3) + (p4 + (((p5 + p6) + p7) + p8))) + et == (st + p0) + p1 + (p2 + p3 + p4 + p5 + p6 + p7 + p8 + et),
        st + ((((p0 + p1) + p2) + p3) + (p4 + (((p5 + p6) + p7) + p8))) + et == (st + p0 + p1) + p2 + (p3 + p4 + p5 + p6 + p7 + p8 + et),
        st + ((((p0 + p1) + p2) + p3) + (p4 + (((p5 + p6) + p7) + p8))) + et == (st + p0 + p1 + p2) + p3 + (p4 + p5 + p6 + p7 + p8 + et),
        st + ((((p0 + p1) + p2) + p3) + (p4 + (((p5 + p6) + p7) + p8))) + et == (st + p0 + p1 + p2 + p3) + p4 + (p5 + p6 + p7 + p8 + et),
        st + ((((p0 + p1) + p2) + p3) + (p4 + (((p5 + p6) + p7) + p8))) + et == (st + p0 + p1 + p2 + p3 + p4) + p5 + (p6 + p7 + p8 + et),
        st + ((((p0 + p1) + p2) + p3) + (p4 + (((p5 + p6) + p7) + p8))) + et == (st + p0 + p1 + p2 + p3 + p4 + p5) + p6 + (p7 + p8 + et),
        st + ((((p0 + p1) + p2) + p3) + (p4 + (((p5 + p6) + p7) + p8))) + et == (st + p0 + p1 + p2 + p3 + p4 + p5 + p6) + p7 + (p8 + et),
        st + ((((p0 + p1) + p2) + p3) + (p4 + (((p5 + p6) + p7) + p8))) + et == (st + p0 + p1 + p2 + p3 + p4 + p5 + p6 + p7) + p8 + (et),
{
    assert(st + ((((p0 + p1) + p2) + p3) + (p4 + (((p5 + p6) + p7) + p8))) + et == (st) + p0 + (p1 + p2 + p3 + p4 + p5 + p6 + p7 + p8 + et)) by { assert(st + ((((p0 + p1) + p2) + p3) + (p4 + (((p5 + p6) + p7) + p8))) + et =~= (st) + p0 + (p1 + p2 + p3 + p4 + p5 + p6 + p7 + p8 + et)); }
    assert(st + ((((p0 + p1) + p2) + p3) + (p4 + (((p5 + p6) + p7) + p8))) + et == (st + p0) + p1 + (p2 + p3 + p4 + p5 + p6 + p7 + p8 + et)) by { assert(st + ((((p0 + p1) + p2) + p3) + (p4 + (((p5 + p6) + p7) + p8))) + et =~= (st + p0) + p1 + (p2 + p3 + p4 + p5 + p6 + p7 + p8 + et)); }
    assert(st + ((((p0 + p1) + p2) + p3) + (p4 + (((p5 + p6) + p7) + p8))) + et == (st + p0 + p1) + p2 + (p3 + p4 + p5 + p6 + p7 + p8 + et)) by { assert(st + ((((p0 + p1) + p2) + p3) + (p4 + (((p5 + p6) + p7) + p8))) + et =~= (st + p0 + p1) + p2 + (p3 + p4 + p5 + p6 + p7 + p8 + et)); }
    assert(st + ((((p0 + p1) + p2) + p3) + (p4 + (((p5 + p6) + p7) + p8))) + et == (st + p0 + p1 + p2) + p3 + (p4 + p5 + p6 + p7 + p8 + et)) by { assert(st + ((((p0 + p1) + p2) + p3) + (p4 + (((p5 + p6) + p7) + p8))) + et =~= (st + p0 + p1 + p2) + p3 + (p4 + p5 + p6 + p7 + p8 + et)); }
    assert(st + ((((p0 + p1) + p2) + p3) + (p4 + (((p5 + p6) + p7) + p8))) + et == (st + p0 + p1 + p2 + p3) + p4 + (p5 + p6 + p7 + p8 + et)) by { assert(st + ((((p0 + p1) + p2) + p3) + (p4 + (((p5 + p6) + p7) + p8))) + et =~= (st + p0 + p1 + p2 + p3) + p4 + (p5 + p6 + p7 + p8 + et)); }
    assert(st + ((((p0 + p1) + p2) + p3) + (p4 + (((p5 + p6) + p7) + p8))) + et == (st + p0 + p1 + p2 + p3 + p4) + p5 + (p6 + p7 + p8 + et)) by { assert(st + ((((p0 + p1) + p2) + p3) + (p4 + (((p5 + p6) + p7) + p8))) + et =~= (st + p0 + p1 + p2 + p3 + p4) + p5 + (p6 + p7 + p8 + et)); }
    assert(st + ((((p0 + p1) + p2) + p3) + (p4 + (((p5 + p6) + p7) + p8))) + et == (st + p0 + p1 + p2 + p3 + p4 + p5) + p6 + (p7 + p8 + et)) by { assert(st + ((((p0 + p1) + p2) + p3) + (p4 + (((p5 + p6) + p7) + p8))) + et =~= (st + p0 + p1 + p2 + p3 + p4 + p5) + p6 + (p7 + p8 + et)); }
    assert(st + ((((p0 + p1) + p2) + p3) + (p4 + (((p5 + p6) + p7) + p8))) + et == (st + p0 + p1 + p2 + p3 + p4 + p5 + p6) + p7 + (p8 + et)) by { assert(st + ((((p0 + p1) + p2) + p3) + (p4 + (((p5 + p6) + p7) + p8))) + et =~= (st + p0 + p1 + p2 + p3 + p4 + p5 + p6) + p7 + (p8 + et)); }
    assert(st + ((((p0 + p1) + p2) + p3) + (p4 + (((p5 + p6) + p7) + p8))) + et == (st + p0 + p1 + p2 + p3 + p4 + p5 + p6 + p7) + p8 + (et)) by { assert(st + ((((p0 + p1) + p2) + p3) + (p4 + (((p5 + p6) + p7) + p8))) + et =~= (st + p0 + p1 + p2 + p3 + p4 + p5 + p6 + p7) + p8 + (et)); }
}

/// The CII monetary summation writes each amount the invoice states, and the profile allows,
/// as its own element with the amount's two-place text: the line net total as
/// `LineTotalAmount`, the charges as `ChargeTotalAmount`, the allowances as
/// `AllowanceTotalAmount`, the net total as `TaxBasisTotalAmount`, the VAT total as
/// `TaxTotalAmount` in the invoice currency, the rounding as `RoundingAmount`, the gross total
/// as `GrandTotalAmount`, the prepaid amount as `TotalPrepaidAmount` and the amount due as
/// `DuePayableAmount`.
#[verifier::spinoff_prover]
#[verifier::rlimit(100)]
pub proof fn law_cii_monetary_summation_writes_each_amount(invoice: crate::model::Invoice, forbidden: Seq<crate::term::Term>)
    ensures
        invoice.line_net_total matches Some(v) ==> (!forbidden.contains(crate::term::Term::BT(106)) ==> (exists|before: Seq<char>, after: Seq<char>| crate::cii_write::spec_cii_monetary_summation(invoice, forbidden) == before + crate::serializer::spec_element(crate::cii::Namespace::Ram, "LineTotalAmount"@, Seq::<(Seq<char>, Seq<char>)>::empty(), crate::ubl_write::spec_money(v@)) + after)),
        invoice.charges_total matches Some(v) ==> (!forbidden.contains(crate::term::Term::BT(108)) ==> (exists|before: Seq<char>, after: Seq<char>| crate::cii_write::spec_cii_monetary_summation(invoice, forbidden) == before + crate::serializer::spec_element(crate::cii::Namespace::Ram, "ChargeTotalAmount"@, Seq::<(Seq<char>, Seq<char>)>::empty(), crate::ubl_write::spec_money(v@)) + after)),
        invoice.allowances_total matches Some(v) ==> (!forbidden.contains(crate::term::Term::BT(107)) ==> (exists|before: Seq<char>, after: Seq<char>| crate::cii_write::spec_cii_monetary_summation(invoice, forbidden) == before + crate::serializer::spec_element(crate::cii::Namespace::Ram, "AllowanceTotalAmount"@, Seq::<(Seq<char>, Seq<char>)>::empty(), crate::ubl_write::spec_money(v@)) + after)),
        invoice.net_total matches Some(v) ==> (!forbidden.contains(crate::term::Term::BT(109)) ==> (exists|before: Seq<char>, after: Seq<char>| crate::cii_write::spec_cii_monetary_summation(invoice, forbidden) == before + crate::serializer::spec_element(crate::cii::Namespace::Ram, "TaxBasisTotalAmount"@, Seq::<(Seq<char>, Seq<char>)>::empty(), crate::ubl_write::spec_money(v@)) + after)),
        invoice.vat_total matches Some(v) ==> (!forbidden.contains(crate::term::Term::BT(110)) ==> (exists|before: Seq<char>, after: Seq<char>| crate::cii_write::spec_cii_monetary_summation(invoice, forbidden) == before + crate::serializer::spec_element(crate::cii::Namespace::Ram, "TaxTotalAmount"@, spec_currency_attribute(invoice), crate::ubl_write::spec_money(v@)) + after)),
        invoice.rounding matches Some(v) ==> (!forbidden.contains(crate::term::Term::BT(114)) ==> (exists|before: Seq<char>, after: Seq<char>| crate::cii_write::spec_cii_monetary_summation(invoice, forbidden) == before + crate::serializer::spec_element(crate::cii::Namespace::Ram, "RoundingAmount"@, Seq::<(Seq<char>, Seq<char>)>::empty(), crate::ubl_write::spec_money(v@)) + after)),
        invoice.gross_total matches Some(v) ==> (!forbidden.contains(crate::term::Term::BT(112)) ==> (exists|before: Seq<char>, after: Seq<char>| crate::cii_write::spec_cii_monetary_summation(invoice, forbidden) == before + crate::serializer::spec_element(crate::cii::Namespace::Ram, "GrandTotalAmount"@, Seq::<(Seq<char>, Seq<char>)>::empty(), crate::ubl_write::spec_money(v@)) + after)),
        invoice.paid matches Some(v) ==> (!forbidden.contains(crate::term::Term::BT(113)) ==> (exists|before: Seq<char>, after: Seq<char>| crate::cii_write::spec_cii_monetary_summation(invoice, forbidden) == before + crate::serializer::spec_element(crate::cii::Namespace::Ram, "TotalPrepaidAmount"@, Seq::<(Seq<char>, Seq<char>)>::empty(), crate::ubl_write::spec_money(v@)) + after)),
        invoice.due matches Some(v) ==> (!forbidden.contains(crate::term::Term::BT(115)) ==> (exists|before: Seq<char>, after: Seq<char>| crate::cii_write::spec_cii_monetary_summation(invoice, forbidden) == before + crate::serializer::spec_element(crate::cii::Namespace::Ram, "DuePayableAmount"@, Seq::<(Seq<char>, Seq<char>)>::empty(), crate::ubl_write::spec_money(v@)) + after)),
{
    if invoice.line_net_total is Some || invoice.charges_total is Some || invoice.allowances_total is Some || invoice.net_total is Some || invoice.vat_total is Some || invoice.rounding is Some || invoice.gross_total is Some || invoice.paid is Some || invoice.due is Some {
        lemma_nine(crate::xml::spec_start_tag(crate::serializer::spec_qname(crate::cii::Namespace::Ram, "SpecifiedTradeSettlementHeaderMonetarySummation"@), Seq::empty()), crate::serializer::spec_term_element(forbidden, crate::term::Term::BT(106), crate::cii::Namespace::Ram, "LineTotalAmount"@, Seq::<(Seq<char>, Seq<char>)>::empty(), crate::cii_write::spec_money_text(invoice.line_net_total)), crate::serializer::spec_term_element(forbidden, crate::term::Term::BT(108), crate::cii::Namespace::Ram, "ChargeTotalAmount"@, Seq::<(Seq<char>, Seq<char>)>::empty(), crate::cii_write::spec_money_text(invoice.charges_total)), crate::serializer::spec_term_element(forbidden, crate::term::Term::BT(107), crate::cii::Namespace::Ram, "AllowanceTotalAmount"@, Seq::<(Seq<char>, Seq<char>)>::empty(), crate::cii_write::spec_money_text(invoice.allowances_total)), crate::serializer::spec_term_element(forbidden, crate::term::Term::BT(109), crate::cii::Namespace::Ram, "TaxBasisTotalAmount"@, Seq::<(Seq<char>, Seq<char>)>::empty(), crate::cii_write::spec_money_text(invoice.net_total)), crate::serializer::spec_term_element(forbidden, crate::term::Term::BT(110), crate::cii::Namespace::Ram, "TaxTotalAmount"@, (match invoice.currency { Some(c) => seq![("currencyID"@, c@)], None => Seq::<(Seq<char>, Seq<char>)>::empty() }), crate::cii_write::spec_money_text(invoice.vat_total)), crate::serializer::spec_term_element(forbidden, crate::term::Term::BT(114), crate::cii::Namespace::Ram, "RoundingAmount"@, Seq::<(Seq<char>, Seq<char>)>::empty(), crate::cii_write::spec_money_text(invoice.rounding)), crate::serializer::spec_term_element(forbidden, crate::term::Term::BT(112), crate::cii::Namespace::Ram, "GrandTotalAmount"@, Seq::<(Seq<char>, Seq<char>)>::empty(), crate::cii_write::spec_money_text(invoice.gross_total)), crate::serializer::spec_term_element(forbidden, crate::term::Term::BT(113), crate::cii::Namespace::Ram, "TotalPrepaidAmount"@, Seq::<(Seq<char>, Seq<char>)>::empty(), crate::cii_write::spec_money_text(invoice.paid)), crate::serializer::spec_term_element(forbidden, crate::term::Term::BT(115), crate::cii::Namespace::Ram, "DuePayableAmount"@, Seq::<(Seq<char>, Seq<char>)>::empty(), crate::cii_write::spec_money_text(invoice.due)), crate::xml::spec_end_tag(crate::serializer::spec_qname(crate::cii::Namespace::Ram, "SpecifiedTradeSettlementHeaderMonetarySummation"@)));
        assert(crate::cii_write::spec_cii_monetary_summation(invoice, forbidden) == crate::xml::spec_start_tag(crate::serializer::spec_qname(crate::cii::Namespace::Ram, "SpecifiedTradeSettlementHeaderMonetarySummation"@), Seq::empty()) + ((crate::serializer::spec_term_element(forbidden, crate::term::Term::BT(106), crate::cii::Namespace::Ram, "LineTotalAmount"@, Seq::<(Seq<char>, Seq<char>)>::empty(), crate::cii_write::spec_money_text(invoice.line_net_total)) + crate::serializer::spec_term_element(forbidden, crate::term::Term::BT(108), crate::cii::Namespace::Ram, "ChargeTotalAmount"@, Seq::<(Seq<char>, Seq<char>)>::empty(), crate::cii_write::spec_money_text(invoice.charges_total)) + crate::serializer::spec_term_element(forbidden, crate::term::Term::BT(107), crate::cii::Namespace::Ram, "AllowanceTotalAmount"@, Seq::<(Seq<char>, Seq<char>)>::empty(), crate::cii_write::spec_money_text(invoice.allowances_total)) + crate::serializer::spec_term_element(forbidden, crate::term::Term::BT(109), crate::cii::Namespace::Ram, "TaxBasisTotalAmount"@, Seq::<(Seq<char>, Seq<char>)>::empty(), crate::cii_write::spec_money_text(invoice.net_total))) + (crate::serializer::spec_term_element(forbidden, crate::term::Term::BT(110), crate::cii::Namespace::Ram, "TaxTotalAmount"@, (match invoice.currency { Some(c) => seq![("currencyID"@, c@)], None => Seq::<(Seq<char>, Seq<char>)>::empty() }), crate::cii_write::spec_money_text(invoice.vat_total)) + (crate::serializer::spec_term_element(forbidden, crate::term::Term::BT(114), crate::cii::Namespace::Ram, "RoundingAmount"@, Seq::<(Seq<char>, Seq<char>)>::empty(), crate::cii_write::spec_money_text(invoice.rounding)) + crate::serializer::spec_term_element(forbidden, crate::term::Term::BT(112), crate::cii::Namespace::Ram, "GrandTotalAmount"@, Seq::<(Seq<char>, Seq<char>)>::empty(), crate::cii_write::spec_money_text(invoice.gross_total)) + crate::serializer::spec_term_element(forbidden, crate::term::Term::BT(113), crate::cii::Namespace::Ram, "TotalPrepaidAmount"@, Seq::<(Seq<char>, Seq<char>)>::empty(), crate::cii_write::spec_money_text(invoice.paid)) + crate::serializer::spec_term_element(forbidden, crate::term::Term::BT(115), crate::cii::Namespace::Ram, "DuePayableAmount"@, Seq::<(Seq<char>, Seq<char>)>::empty(), crate::cii_write::spec_money_text(invoice.due))))) + crate::xml::spec_end_tag(crate::serializer::spec_qname(crate::cii::Namespace::Ram, "SpecifiedTradeSettlementHeaderMonetarySummation"@)));
        if let Some(v) = invoice.line_net_total {
            if !forbidden.contains(crate::term::Term::BT(106)) {
                assert(crate::serializer::spec_term_element(forbidden, crate::term::Term::BT(106), crate::cii::Namespace::Ram, "LineTotalAmount"@, Seq::<(Seq<char>, Seq<char>)>::empty(), crate::cii_write::spec_money_text(invoice.line_net_total)) == crate::serializer::spec_element(crate::cii::Namespace::Ram, "LineTotalAmount"@, Seq::<(Seq<char>, Seq<char>)>::empty(), crate::ubl_write::spec_money(v@)));
                assert(crate::cii_write::spec_cii_monetary_summation(invoice, forbidden) == (crate::xml::spec_start_tag(crate::serializer::spec_qname(crate::cii::Namespace::Ram, "SpecifiedTradeSettlementHeaderMonetarySummation"@), Seq::empty())) + crate::serializer::spec_element(crate::cii::Namespace::Ram, "LineTotalAmount"@, Seq::<(Seq<char>, Seq<char>)>::empty(), crate::ubl_write::spec_money(v@)) + (crate::serializer::spec_term_element(forbidden, crate::term::Term::BT(108), crate::cii::Namespace::Ram, "ChargeTotalAmount"@, Seq::<(Seq<char>, Seq<char>)>::empty(), crate::cii_write::spec_money_text(invoice.charges_total)) + crate::serializer::spec_term_element(forbidden, crate::term::Term::BT(107), crate::cii::Namespace::Ram, "AllowanceTotalAmount"@, Seq::<(Seq<char>, Seq<char>)>::empty(), crate::cii_write::spec_money_text(invoice.allowances_total)) + crate::serializer::spec_term_element(forbidden, crate::term::Term::BT(109), crate::cii::Namespace::Ram, "TaxBasisTotalAmount"@, Seq::<(Seq<char>, Seq<char>)>::empty(), crate::cii_write::spec_money_text(invoice.net_total)) + crate::serializer::spec_term_element(forbidden, crate::term::Term::BT(110), crate::cii::Namespace::Ram, "TaxTotalAmount"@, (match invoice.currency { Some(c) => seq![("currencyID"@, c@)], None => Seq::<(Seq<char>, Seq<char>)>::empty() }), crate::cii_write::spec_money_text(invoice.vat_total)) + crate::serializer::spec_term_element(forbidden, crate::term::Term::BT(114), crate::cii::Namespace::Ram, "RoundingAmount"@, Seq::<(Seq<char>, Seq<char>)>::empty(), crate::cii_write::spec_money_text(invoice.rounding)) + crate::serializer::spec_term_element(forbidden, crate::term::Term::BT(112), crate::cii::Namespace::Ram, "GrandTotalAmount"@, Seq::<(Seq<char>, Seq<char>)>::empty(), crate::cii_write::spec_money_text(invoice.gross_total)) + crate::serializer::spec_term_element(forbidden, crate::term::Term::BT(113), crate::cii::Namespace::Ram, "TotalPrepaidAmount"@, Seq::<(Seq<char>, Seq<char>)>::empty(), crate::cii_write::spec_money_text(invoice.paid)) + crate::serializer::spec_term_element(forbidden, crate::term::Term::BT(115), crate::cii::Namespace::Ram, "DuePayableAmount"@, Seq::<(Seq<char>, Seq<char>)>::empty(), crate::cii_write::spec_money_text(invoice.due)) + crate::xml::spec_end_tag(crate::serializer::spec_qname(crate::cii::Namespace::Ram, "SpecifiedTradeSettlementHeaderMonetarySummation"@))));
            }
        }
        if let Some(v) = invoice.charges_total {
            if !forbidden.contains(crate::term::Term::BT(108)) {
                assert(crate::serializer::spec_term_element(forbidden, crate::term::Term::BT(108), crate::cii::Namespace::Ram, "ChargeTotalAmount"@, Seq::<(Seq<char>, Seq<char>)>::empty(), crate::cii_write::spec_money_text(invoice.charges_total)) == crate::serializer::spec_element(crate::cii::Namespace::Ram, "ChargeTotalAmount"@, Seq::<(Seq<char>, Seq<char>)>::empty(), crate::ubl_write::spec_money(v@)));
                assert(crate::cii_write::spec_cii_monetary_summation(invoice, forbidden) == (crate::xml::spec_start_tag(crate::serializer::spec_qname(crate::cii::Namespace::Ram, "SpecifiedTradeSettlementHeaderMonetarySummation"@), Seq::empty()) + crate::serializer::spec_term_element(forbidden, crate::term::Term::BT(106), crate::cii::Namespace::Ram, "LineTotalAmount"@, Seq::<(Seq<char>, Seq<char>)>::empty(), crate::cii_write::spec_money_text(invoice.line_net_total))) + crate::serializer::spec_element(crate::cii::Namespace::Ram, "ChargeTotalAmount"@, Seq::<(Seq<char>, Seq<char>)>::empty(), crate::ubl_write::spec_money(v@)) + (crate::serializer::spec_term_element(forbidden, crate::term::Term::BT(107), crate::cii::Namespace::Ram, "AllowanceTotalAmount"@, Seq::<(Seq<char>, Seq<char>)>::empty(), crate::cii_write::spec_money_text(invoice.allowances_total)) + crate::serializer::spec_term_element(forbidden, crate::term::Term::BT(109), crate::cii::Namespace::Ram, "TaxBasisTotalAmount"@, Seq::<(Seq<char>, Seq<char>)>::empty(), crate::cii_write::spec_money_text(invoice.net_total)) + crate::serializer::spec_term_element(forbidden, crate::term::Term::BT(110), crate::cii::Namespace::Ram, "TaxTotalAmount"@, (match invoice.currency { Some(c) => seq![("currencyID"@, c@)], None => Seq::<(Seq<char>, Seq<char>)>::empty() }), crate::cii_write::spec_money_text(invoice.vat_total)) + crate::serializer::spec_term_element(forbidden, crate::term::Term::BT(114), crate::cii::Namespace::Ram, "RoundingAmount"@, Seq::<(Seq<char>, Seq<char>)>::empty(), crate::cii_write::spec_money_text(invoice.rounding)) + crate::serializer::spec_term_element(forbidden, crate::term::Term::BT(112), crate::cii::Namespace::Ram, "GrandTotalAmount"@, Seq::<(Seq<char>, Seq<char>)>::empty(), crate::cii_write::spec_money_text(invoice.gross_total)) + crate::serializer::spec_term_element(forbidden, crate::term::Term::BT(113), crate::cii::Namespace::Ram, "TotalPrepaidAmount"@, Seq::<(Seq<char>, Seq<char>)>::empty(), crate::cii_write::spec_money_text(invoice.paid)) + crate::serializer::spec_term_element(forbidden, crate::term::Term::BT(115), crate::cii::Namespace::Ram, "DuePayableAmount"@, Seq::<(Seq<char>, Seq<char>)>::empty(), crate::cii_write::spec_money_text(invoice.due)) + crate::xml::spec_end_tag(crate::serializer::spec_qname(crate::cii::Namespace::Ram, "SpecifiedTradeSettlementHeaderMonetarySummation"@))));
            }
        }
        if let Some(v) = invoice.allowances_total {
            if !forbidden.contains(crate::term::Term::BT(107)) {
                assert(crate::serializer::spec_term_element(forbidden, crate::term::Term::BT(107), crate::cii::Namespace::Ram, "AllowanceTotalAmount"@, Seq::<(Seq<char>, Seq<char>)>::empty(), crate::cii_write::spec_money_text(invoice.allowances_total)) == crate::serializer::spec_element(crate::cii::Namespace::Ram, "AllowanceTotalAmount"@, Seq::<(Seq<char>, Seq<char>)>::empty(), crate::ubl_write::spec_money(v@)));
                assert(crate::cii_write::spec_cii_monetary_summation(invoice, forbidden) == (crate::xml::spec_start_tag(crate::serializer::spec_qname(crate::cii::Namespace::Ram, "SpecifiedTradeSettlementHeaderMonetarySummation"@), Seq::empty()) + crate::serializer::spec_term_element(forbidden, crate::term::Term::BT(106), crate::cii::Namespace::Ram, "LineTotalAmount"@, Seq::<(Seq<char>, Seq<char>)>::empty(), crate::cii_write::spec_money_text(invoice.line_net_total)) + crate::serializer::spec_term_element(forbidden, crate::term::Term::BT(108), crate::cii::Namespace::Ram, "ChargeTotalAmount"@, Seq::<(Seq<char>, Seq<char>)>::empty(), crate::cii_write::spec_money_text(invoice.charges_total))) + crate::serializer::spec_element(crate::cii::Namespace::Ram, "AllowanceTotalAmount"@, Seq::<(Seq<char>, Seq<char>)>::empty(), crate::ubl_write::spec_money(v@)) + (crate::serializer::spec_term_element(forbidden, crate::term::Term::BT(109), crate::cii::Namespace::Ram, "TaxBasisTotalAmount"@, Seq::<(Seq<char>, Seq<char>)>::empty(), crate::cii_write::spec_money_text(invoice.net_total)) + crate::serializer::spec_term_element(forbidden, crate::term::Term::BT(110), crate::cii::Namespace::Ram, "TaxTotalAmount"@, (match invoice.currency { Some(c) => seq![("currencyID"@, c@)], None => Seq::<(Seq<char>, Seq<char>)>::empty() }), crate::cii_write::spec_money_text(invoice.vat_total)) + crate::serializer::spec_term_element(forbidden, crate::term::Term::BT(114), crate::cii::Namespace::Ram, "RoundingAmount"@, Seq::<(Seq<char>, Seq<char>)>::empty(), crate::cii_write::spec_money_text(invoice.rounding)) + crate::serializer::spec_term_element(forbidden, crate::term::Term::BT(112), crate::cii::Namespace::Ram, "GrandTotalAmount"@, Seq::<(Seq<char>, Seq<char>)>::empty(), crate::cii_write::spec_money_text(invoice.gross_total)) + crate::serializer::spec_term_element(forbidden, crate::term::Term::BT(113), crate::cii::Namespace::Ram, "TotalPrepaidAmount"@, Seq::<(Seq<char>, Seq<char>)>::empty(), crate::cii_write::spec_money_text(invoice.paid)) + crate::serializer::spec_term_element(forbidden, crate::term::Term::BT(115), crate::cii::Namespace::Ram, "DuePayableAmount"@, Seq::<(Seq<char>, Seq<char>)>::empty(), crate::cii_write::spec_money_text(invoice.due)) + crate::xml::spec_end_tag(crate::serializer::spec_qname(crate::cii::Namespace::Ram, "SpecifiedTradeSettlementHeaderMonetarySummation"@))));
            }
        }
        if let Some(v) = invoice.net_total {
            if !forbidden.contains(crate::term::Term::BT(109)) {
                assert(crate::serializer::spec_term_element(forbidden, crate::term::Term::BT(109), crate::cii::Namespace::Ram, "TaxBasisTotalAmount"@, Seq::<(Seq<char>, Seq<char>)>::empty(), crate::cii_write::spec_money_text(invoice.net_total)) == crate::serializer::spec_element(crate::cii::Namespace::Ram, "TaxBasisTotalAmount"@, Seq::<(Seq<char>, Seq<char>)>::empty(), crate::ubl_write::spec_money(v@)));
                assert(crate::cii_write::spec_cii_monetary_summation(invoice, forbidden) == (crate::xml::spec_start_tag(crate::serializer::spec_qname(crate::cii::Namespace::Ram, "SpecifiedTradeSettlementHeaderMonetarySummation"@), Seq::empty()) + crate::serializer::spec_term_element(forbidden, crate::term::Term::BT(106), crate::cii::Namespace::Ram, "LineTotalAmount"@, Seq::<(Seq<char>, Seq<char>)>::empty(), crate::cii_write::spec_money_text(invoice.line_net_total)) + crate::serializer::spec_term_element(forbidden, crate::term::Term::BT(108), crate::cii::Namespace::Ram, "ChargeTotalAmount"@, Seq::<(Seq<char>, Seq<char>)>::empty(), crate::cii_write::spec_money_text(invoice.charges_total)) + crate::serializer::spec_term_element(forbidden, crate::term::Term::BT(107), crate::cii::Namespace::Ram, "AllowanceTotalAmount"@, Seq::<(Seq<char>, Seq<char>)>::empty(), crate::cii_write::spec_money_text(invoice.allowances_total))) + crate::serializer::spec_element(crate::cii::Namespace::Ram, "TaxBasisTotalAmount"@, Seq::<(Seq<char>, Seq<char>)>::empty(), crate::ubl_write::spec_money(v@)) + (crate::serializer::spec_term_element(forbidden, crate::term::Term::BT(110), crate::cii::Namespace::Ram, "TaxTotalAmount"@, (match invoice.currency { Some(c) => seq![("currencyID"@, c@)], None => Seq::<(Seq<char>, Seq<char>)>::empty() }), crate::cii_write::spec_money_text(invoice.vat_total)) + crate::serializer::spec_term_element(forbidden, crate::term::Term::BT(114), crate::cii::Namespace::Ram, "RoundingAmount"@, Seq::<(Seq<char>, Seq<char>)>::empty(), crate::cii_write::spec_money_text(invoice.rounding)) + crate::serializer::spec_term_element(forbidden, crate::term::Term::BT(112), crate::cii::Namespace::Ram, "GrandTotalAmount"@, Seq::<(Seq<char>, Seq<char>)>::empty(), crate::cii_write::spec_money_text(invoice.gross_total)) + crate::serializer::spec_term_element(forbidden, crate::term::Term::BT(113), crate::cii::Namespace::Ram, "TotalPrepaidAmount"@, Seq::<(Seq<char>, Seq<char>)>::empty(), crate::cii_write::spec_money_text(invoice.paid)) + crate::serializer::spec_term_element(forbidden, crate::term::Term::BT(115), crate::cii::Namespace::Ram, "DuePayableAmount"@, Seq::<(Seq<char>, Seq<char>)>::empty(), crate::cii_write::spec_money_text(invoice.due)) + crate::xml::spec_end_tag(crate::serializer::spec_qname(crate::cii::Namespace::Ram, "SpecifiedTradeSettlementHeaderMonetarySummation"@))));
            }
        }
        if let Some(v) = invoice.vat_total {
            if !forbidden.contains(crate::term::Term::BT(110)) {
                assert(crate::serializer::spec_term_element(forbidden, crate::term::Term::BT(110), crate::cii::Namespace::Ram, "TaxTotalAmount"@, (match invoice.currency { Some(c) => seq![("currencyID"@, c@)], None => Seq::<(Seq<char>, Seq<char>)>::empty() }), crate::cii_write::spec_money_text(invoice.vat_total)) == crate::serializer::spec_element(crate::cii::Namespace::Ram, "TaxTotalAmount"@, spec_currency_attribute(invoice), crate::ubl_write::spec_money(v@)));
                assert(crate::cii_write::spec_cii_monetary_summation(invoice, forbidden) == (crate::xml::spec_start_tag(crate::serializer::spec_qname(crate::cii::Namespace::Ram, "SpecifiedTradeSettlementHeaderMonetarySummation"@), Seq::empty()) + crate::serializer::spec_term_element(forbidden, crate::term::Term::BT(106), crate::cii::Namespace::Ram, "LineTotalAmount"@, Seq::<(Seq<char>, Seq<char>)>::empty(), crate::cii_write::spec_money_text(invoice.line_net_total)) + crate::serializer::spec_term_element(forbidden, crate::term::Term::BT(108), crate::cii::Namespace::Ram, "ChargeTotalAmount"@, Seq::<(Seq<char>, Seq<char>)>::empty(), crate::cii_write::spec_money_text(invoice.charges_total)) + crate::serializer::spec_term_element(forbidden, crate::term::Term::BT(107), crate::cii::Namespace::Ram, "AllowanceTotalAmount"@, Seq::<(Seq<char>, Seq<char>)>::empty(), crate::cii_write::spec_money_text(invoice.allowances_total)) + crate::serializer::spec_term_element(forbidden, crate::term::Term::BT(109), crate::cii::Namespace::Ram, "TaxBasisTotalAmount"@, Seq::<(Seq<char>, Seq<char>)>::empty(), crate::cii_write::spec_money_text(invoice.net_total))) + crate::serializer::spec_element(crate::cii::Namespace::Ram, "TaxTotalAmount"@, spec_currency_attribute(invoice), crate::ubl_write::spec_money(v@)) + (crate::serializer::spec_term_element(forbidden, crate::term::Term::BT(114), crate::cii::Namespace::Ram, "RoundingAmount"@, Seq::<(Seq<char>, Seq<char>)>::empty(), crate::cii_write::spec_money_text(invoice.rounding)) + crate::serializer::spec_term_element(forbidden, crate::term::Term::BT(112), crate::cii::Namespace::Ram, "GrandTotalAmount"@, Seq::<(Seq<char>, Seq<char>)>::empty(), crate::cii_write::spec_money_text(invoice.gross_total)) + crate::serializer::spec_term_element(forbidden, crate::term::Term::BT(113), crate::cii::Namespace::Ram, "TotalPrepaidAmount"@, Seq::<(Seq<char>, Seq<char>)>::empty(), crate::cii_write::spec_money_text(invoice.paid)) + crate::serializer::spec_term_element(forbidden, crate::term::Term::BT(115), crate::cii::Namespace::Ram, "DuePayableAmount"@, Seq::<(Seq<char>, Seq<char>)>::empty(), crate::cii_write::spec_money_text(invoice.due)) + crate::xml::spec_end_tag(crate::serializer::spec_qname(crate::cii::Namespace::Ram, "SpecifiedTradeSettlementHeaderMonetarySummation"@))));
            }
        }
        if let Some(v) = invoice.rounding {
            if !forbidden.contains(crate::term::Term::BT(114)) {
                assert(crate::serializer::spec_term_element(forbidden, crate::term::Term::BT(114), crate::cii::Namespace::Ram, "RoundingAmount"@, Seq::<(Seq<char>, Seq<char>)>::empty(), crate::cii_write::spec_money_text(invoice.rounding)) == crate::serializer::spec_element(crate::cii::Namespace::Ram, "RoundingAmount"@, Seq::<(Seq<char>, Seq<char>)>::empty(), crate::ubl_write::spec_money(v@)));
                assert(crate::cii_write::spec_cii_monetary_summation(invoice, forbidden) == (crate::xml::spec_start_tag(crate::serializer::spec_qname(crate::cii::Namespace::Ram, "SpecifiedTradeSettlementHeaderMonetarySummation"@), Seq::empty()) + crate::serializer::spec_term_element(forbidden, crate::term::Term::BT(106), crate::cii::Namespace::Ram, "LineTotalAmount"@, Seq::<(Seq<char>, Seq<char>)>::empty(), crate::cii_write::spec_money_text(invoice.line_net_total)) + crate::serializer::spec_term_element(forbidden, crate::term::Term::BT(108), crate::cii::Namespace::Ram, "ChargeTotalAmount"@, Seq::<(Seq<char>, Seq<char>)>::empty(), crate::cii_write::spec_money_text(invoice.charges_total)) + crate::serializer::spec_term_element(forbidden, crate::term::Term::BT(107), crate::cii::Namespace::Ram, "AllowanceTotalAmount"@, Seq::<(Seq<char>, Seq<char>)>::empty(), crate::cii_write::spec_money_text(invoice.allowances_total)) + crate::serializer::spec_term_element(forbidden, crate::term::Term::BT(109), crate::cii::Namespace::Ram, "TaxBasisTotalAmount"@, Seq::<(Seq<char>, Seq<char>)>::empty(), crate::cii_write::spec_money_text(invoice.net_total)) + crate::serializer::spec_term_element(forbidden, crate::term::Term::BT(110), crate::cii::Namespace::Ram, "TaxTotalAmount"@, (match invoice.currency { Some(c) => seq![("currencyID"@, c@)], None => Seq::<(Seq<char>, Seq<char>)>::empty() }), crate::cii_write::spec_money_text(invoice.vat_total))) + crate::serializer::spec_element(crate::cii::Namespace::Ram, "RoundingAmount"@, Seq::<(Seq<char>, Seq<char>)>::empty(), crate::ubl_write::spec_money(v@)) + (crate::serializer::spec_term_element(forbidden, crate::term::Term::BT(112), crate::cii::Namespace::Ram, "GrandTotalAmount"@, Seq::<(Seq<char>, Seq<char>)>::empty(), crate::cii_write::spec_money_text(invoice.gross_total)) + crate::serializer::spec_term_element(forbidden, crate::term::Term::BT(113), crate::cii::Namespace::Ram, "TotalPrepaidAmount"@, Seq::<(Seq<char>, Seq<char>)>::empty(), crate::cii_write::spec_money_text(invoice.paid)) + crate::serializer::spec_term_element(forbidden, crate::term::Term::BT(115), crate::cii::Namespace::Ram, "DuePayableAmount"@, Seq::<(Seq<char>, Seq<char>)>::empty(), crate::cii_write::spec_money_text(invoice.due)) + crate::xml::spec_end_tag(crate::serializer::spec_qname(crate::cii::Namespace::Ram, "SpecifiedTradeSettlementHeaderMonetarySummation"@))));
            }
        }
        if let Some(v) = invoice.gross_total {
            if !forbidden.contains(crate::term::Term::BT(112)) {
                assert(crate::serializer::spec_term_element(forbidden, crate::term::Term::BT(112), crate::cii::Namespace::Ram, "GrandTotalAmount"@, Seq::<(Seq<char>, Seq<char>)>::empty(), crate::cii_write::spec_money_text(invoice.gross_total)) == crate::serializer::spec_element(crate::cii::Namespace::Ram, "GrandTotalAmount"@, Seq::<(Seq<char>, Seq<char>)>::empty(), crate::ubl_write::spec_money(v@)));
                assert(crate::cii_write::spec_cii_monetary_summation(invoice, forbidden) == (crate::xml::spec_start_tag(crate::serializer::spec_qname(crate::cii::Namespace::Ram, "SpecifiedTradeSettlementHeaderMonetarySummation"@), Seq::empty()) + crate::serializer::spec_term_element(forbidden, crate::term::Term::BT(106), crate::cii::Namespace::Ram, "LineTotalAmount"@, Seq::<(Seq<char>, Seq<char>)>::empty(), crate::cii_write::spec_money_text(invoice.line_net_total)) + crate::serializer::spec_term_element(forbidden, crate::term::Term::BT(108), crate::cii::Namespace::Ram, "ChargeTotalAmount"@, Seq::<(Seq<char>, Seq<char>)>::empty(), crate::cii_write::spec_money_text(invoice.charges_total)) + crate::serializer::spec_term_element(forbidden, crate::term::Term::BT(107), crate::cii::Namespace::Ram, "AllowanceTotalAmount"@, Seq::<(Seq<char>, Seq<char>)>::empty(), crate::cii_write::spec_money_text(invoice.allowances_total)) + crate::serializer::spec_term_element(forbidden, crate::term::Term::BT(109), crate::cii::Namespace::Ram, "TaxBasisTotalAmount"@, Seq::<(Seq<char>, Seq<char>)>::empty(), crate::cii_write::spec_money_text(invoice.net_total)) + crate::serializer::spec_term_element(forbidden, crate::term::Term::BT(110), crate::cii::Namespace::Ram, "TaxTotalAmount"@, (match invoice.currency { Some(c) => seq![("currencyID"@, c@)], None => Seq::<(Seq<char>, Seq<char>)>::empty() }), crate::cii_write::spec_money_text(invoice.vat_total)) + crate::serializer::spec_term_element(forbidden, crate::term::Term::BT(114), crate::cii::Namespace::Ram, "RoundingAmount"@, Seq::<(Seq<char>, Seq<char>)>::empty(), crate::cii_write::spec_money_text(invoice.rounding))) + crate::serializer::spec_element(crate::cii::Namespace::Ram, "GrandTotalAmount"@, Seq::<(Seq<char>, Seq<char>)>::empty(), crate::ubl_write::spec_money(v@)) + (crate::serializer::spec_term_element(forbidden, crate::term::Term::BT(113), crate::cii::Namespace::Ram, "TotalPrepaidAmount"@, Seq::<(Seq<char>, Seq<char>)>::empty(), crate::cii_write::spec_money_text(invoice.paid)) + crate::serializer::spec_term_element(forbidden, crate::term::Term::BT(115), crate::cii::Namespace::Ram, "DuePayableAmount"@, Seq::<(Seq<char>, Seq<char>)>::empty(), crate::cii_write::spec_money_text(invoice.due)) + crate::xml::spec_end_tag(crate::serializer::spec_qname(crate::cii::Namespace::Ram, "SpecifiedTradeSettlementHeaderMonetarySummation"@))));
            }
        }
        if let Some(v) = invoice.paid {
            if !forbidden.contains(crate::term::Term::BT(113)) {
                assert(crate::serializer::spec_term_element(forbidden, crate::term::Term::BT(113), crate::cii::Namespace::Ram, "TotalPrepaidAmount"@, Seq::<(Seq<char>, Seq<char>)>::empty(), crate::cii_write::spec_money_text(invoice.paid)) == crate::serializer::spec_element(crate::cii::Namespace::Ram, "TotalPrepaidAmount"@, Seq::<(Seq<char>, Seq<char>)>::empty(), crate::ubl_write::spec_money(v@)));
                assert(crate::cii_write::spec_cii_monetary_summation(invoice, forbidden) == (crate::xml::spec_start_tag(crate::serializer::spec_qname(crate::cii::Namespace::Ram, "SpecifiedTradeSettlementHeaderMonetarySummation"@), Seq::empty()) + crate::serializer::spec_term_element(forbidden, crate::term::Term::BT(106), crate::cii::Namespace::Ram, "LineTotalAmount"@, Seq::<(Seq<char>, Seq<char>)>::empty(), crate::cii_write::spec_money_text(invoice.line_net_total)) + crate::serializer::spec_term_element(forbidden, crate::term::Term::BT(108), crate::cii::Namespace::Ram, "ChargeTotalAmount"@, Seq::<(Seq<char>, Seq<char>)>::empty(), crate::cii_write::spec_money_text(invoice.charges_total)) + crate::serializer::spec_term_element(forbidden, crate::term::Term::BT(107), crate::cii::Namespace::Ram, "AllowanceTotalAmount"@, Seq::<(Seq<char>, Seq<char>)>::empty(), crate::cii_write::spec_money_text(invoice.allowances_total)) + crate::serializer::spec_term_element(forbidden, crate::term::Term::BT(109), crate::cii::Namespace::Ram, "TaxBasisTotalAmount"@, Seq::<(Seq<char>, Seq<char>)>::empty(), crate::cii_write::spec_money_text(invoice.net_total)) + crate::serializer::spec_term_element(forbidden, crate::term::Term::BT(110), crate::cii::Namespace::Ram, "TaxTotalAmount"@, (match invoice.currency { Some(c) => seq![("currencyID"@, c@)], None => Seq::<(Seq<char>, Seq<char>)>::empty() }), crate::cii_write::spec_money_text(invoice.vat_total)) + crate::serializer::spec_term_element(forbidden, crate::term::Term::BT(114), crate::cii::Namespace::Ram, "RoundingAmount"@, Seq::<(Seq<char>, Seq<char>)>::empty(), crate::cii_write::spec_money_text(invoice.rounding)) + crate::serializer::spec_term_element(forbidden, crate::term::Term::BT(112), crate::cii::Namespace::Ram, "GrandTotalAmount"@, Seq::<(Seq<char>, Seq<char>)>::empty(), crate::cii_write::spec_money_text(invoice.gross_total))) + crate::serializer::spec_element(crate::cii::Namespace::Ram, "TotalPrepaidAmount"@, Seq::<(Seq<char>, Seq<char>)>::empty(), crate::ubl_write::spec_money(v@)) + (crate::serializer::spec_term_element(forbidden, crate::term::Term::BT(115), crate::cii::Namespace::Ram, "DuePayableAmount"@, Seq::<(Seq<char>, Seq<char>)>::empty(), crate::cii_write::spec_money_text(invoice.due)) + crate::xml::spec_end_tag(crate::serializer::spec_qname(crate::cii::Namespace::Ram, "SpecifiedTradeSettlementHeaderMonetarySummation"@))));
            }
        }
        if let Some(v) = invoice.due {
            if !forbidden.contains(crate::term::Term::BT(115)) {
                assert(crate::serializer::spec_term_element(forbidden, crate::term::Term::BT(115), crate::cii::Namespace::Ram, "DuePayableAmount"@, Seq::<(Seq<char>, Seq<char>)>::empty(), crate::cii_write::spec_money_text(invoice.due)) == crate::serializer::spec_element(crate::cii::Namespace::Ram, "DuePayableAmount"@, Seq::<(Seq<char>, Seq<char>)>::empty(), crate::ubl_write::spec_money(v@)));
                assert(crate::cii_write::spec_cii_monetary_summation(invoice, forbidden) == (crate::xml::spec_start_tag(crate::serializer::spec_qname(crate::cii::Namespace::Ram, "SpecifiedTradeSettlementHeaderMonetarySummation"@), Seq::empty()) + crate::serializer::spec_term_element(forbidden, crate::term::Term::BT(106), crate::cii::Namespace::Ram, "LineTotalAmount"@, Seq::<(Seq<char>, Seq<char>)>::empty(), crate::cii_write::spec_money_text(invoice.line_net_total)) + crate::serializer::spec_term_element(forbidden, crate::term::Term::BT(108), crate::cii::Namespace::Ram, "ChargeTotalAmount"@, Seq::<(Seq<char>, Seq<char>)>::empty(), crate::cii_write::spec_money_text(invoice.charges_total)) + crate::serializer::spec_term_element(forbidden, crate::term::Term::BT(107), crate::cii::Namespace::Ram, "AllowanceTotalAmount"@, Seq::<(Seq<char>, Seq<char>)>::empty(), crate::cii_write::spec_money_text(invoice.allowances_total)) + crate::serializer::spec_term_element(forbidden, crate::term::Term::BT(109), crate::cii::Namespace::Ram, "TaxBasisTotalAmount"@, Seq::<(Seq<char>, Seq<char>)>::empty(), crate::cii_write::spec_money_text(invoice.net_total)) + crate::serializer::spec_term_element(forbidden, crate::term::Term::BT(110), crate::cii::Namespace::Ram, "TaxTotalAmount"@, (match invoice.currency { Some(c) => seq![("currencyID"@, c@)], None => Seq::<(Seq<char>, Seq<char>)>::empty() }), crate::cii_write::spec_money_text(invoice.vat_total)) + crate::serializer::spec_term_element(forbidden, crate::term::Term::BT(114), crate::cii::Namespace::Ram, "RoundingAmount"@, Seq::<(Seq<char>, Seq<char>)>::empty(), crate::cii_write::spec_money_text(invoice.rounding)) + crate::serializer::spec_term_element(forbidden, crate::term::Term::BT(112), crate::cii::Namespace::Ram, "GrandTotalAmount"@, Seq::<(Seq<char>, Seq<char>)>::empty(), crate::cii_write::spec_money_text(invoice.gross_total)) + crate::serializer::spec_term_element(forbidden, crate::term::Term::BT(113), crate::cii::Namespace::Ram, "TotalPrepaidAmount"@, Seq::<(Seq<char>, Seq<char>)>::empty(), crate::cii_write::spec_money_text(invoice.paid))) + crate::serializer::spec_element(crate::cii::Namespace::Ram, "DuePayableAmount"@, Seq::<(Seq<char>, Seq<char>)>::empty(), crate::ubl_write::spec_money(v@)) + (crate::xml::spec_end_tag(crate::serializer::spec_qname(crate::cii::Namespace::Ram, "SpecifiedTradeSettlementHeaderMonetarySummation"@))));
            }
        }
    }
}


/// Reading a CII monetary summation maps each amount element to its own field: `LineTotalAmount`
/// to the line net total, `ChargeTotalAmount` to the charges, `AllowanceTotalAmount` to the
/// allowances, `TaxBasisTotalAmount` to the net total, `TaxTotalAmount` to the VAT total,
/// `RoundingAmount` to the rounding, `GrandTotalAmount` to the gross total,
/// `TotalPrepaidAmount` to the prepaid amount and `DuePayableAmount` to the amount due.
pub proof fn law_cii_summation_fields()
    ensures
        crate::cii_read::spec_cii_summation_field("LineTotalAmount"@) == Some("line_net_total"@),
        crate::cii_read::spec_cii_summation_field("ChargeTotalAmount"@) == Some("charges_total"@),
        crate::cii_read::spec_cii_summation_field("AllowanceTotalAmount"@) == Some("allowances_total"@),
        crate::cii_read::spec_cii_summation_field("TaxBasisTotalAmount"@) == Some("net_total"@),
        crate::cii_read::spec_cii_summation_field("TaxTotalAmount"@) == Some("vat_total"@),
        crate::cii_read::spec_cii_summation_field("RoundingAmount"@) == Some("rounding"@),
        crate::cii_read::spec_cii_summation_field("GrandTotalAmount"@) == Some("gross_total"@),
        crate::cii_read::spec_cii_summation_field("TotalPrepaidAmount"@) == Some("paid"@),
        crate::cii_read::spec_cii_summation_field("DuePayableAmount"@) == Some("due"@),
{
    reveal_strlit("LineTotalAmount");
    assert("LineTotalAmount"@.len() == 15);
    reveal_strlit("ChargeTotalAmount");
    assert("ChargeTotalAmount"@.len() == 17);
    reveal_strlit("AllowanceTotalAmount");
    assert("AllowanceTotalAmount"@.len() == 20);
    reveal_strlit("TaxBasisTotalAmount");
    assert("TaxBasisTotalAmount"@.len() == 19);
    reveal_strlit("TaxTotalAmount");
    assert("TaxTotalAmount"@.len() == 14);
    reveal_strlit("RoundingAmount");
    assert("RoundingAmount"@.len() == 14);
    reveal_strlit("GrandTotalAmount");
    assert("GrandTotalAmount"@.len() == 16);
    reveal_strlit("TotalPrepaidAmount");
    assert("TotalPrepaidAmount"@.len() == 18);
    reveal_strlit("DuePayableAmount");
    assert("DuePayableAmount"@.len() == 16);
    assert("TaxTotalAmount"@[0] != "RoundingAmount"@[0]);
    assert("GrandTotalAmount"@[0] != "DuePayableAmount"@[0]);
}


/// Reading an amount into a field of the invoice sets that very field to the amount read.
pub proof fn law_reading_a_total_sets_its_field(before: crate::model::Invoice, after: crate::model::Invoice, v: DecimalView)
    ensures
        crate::reading::spec_with_total(before, after, "line_net_total"@, v) ==> crate::ubl_read::spec_amount_of(after.line_net_total) == Some(v),
        crate::reading::spec_with_total(before, after, "net_total"@, v) ==> crate::ubl_read::spec_amount_of(after.net_total) == Some(v),
        crate::reading::spec_with_total(before, after, "gross_total"@, v) ==> crate::ubl_read::spec_amount_of(after.gross_total) == Some(v),
        crate::reading::spec_with_total(before, after, "allowances_total"@, v) ==> crate::ubl_read::spec_amount_of(after.allowances_total) == Some(v),
        crate::reading::spec_with_total(before, after, "charges_total"@, v) ==> crate::ubl_read::spec_amount_of(after.charges_total) == Some(v),
        crate::reading::spec_with_total(before, after, "paid"@, v) ==> crate::ubl_read::spec_amount_of(after.paid) == Some(v),
        crate::reading::spec_with_total(before, after, "rounding"@, v) ==> crate::ubl_read::spec_amount_of(after.rounding) == Some(v),
        crate::reading::spec_with_total(before, after, "due"@, v) ==> crate::ubl_read::spec_amount_of(after.due) == Some(v),
        crate::reading::spec_with_total(before, after, "vat_total"@, v) ==> crate::ubl_read::spec_amount_of(after.vat_total) == Some(v),
{
    reveal_strlit("line_net_total");
    assert("line_net_total"@.len() == 14);
    reveal_strlit("net_total");
    assert("net_total"@.len() == 9);
    reveal_strlit("gross_total");
    assert("gross_total"@.len() == 11);
    reveal_strlit("allowances_total");
    assert("allowances_total"@.len() == 16);
    reveal_strlit("charges_total");
    assert("charges_total"@.len() == 13);
    reveal_strlit("paid");
    assert("paid"@.len() == 4);
    reveal_strlit("rounding");
    assert("rounding"@.len() == 8);
    reveal_strlit("due");
    assert("due"@.len() == 3);
    reveal_strlit("vat_total");
    assert("vat_total"@.len() == 9);
    assert("net_total"@[0] != "vat_total"@[0]);
}


/// The net price of a price is its gross price less its discount, the gross price itself where
/// it states no discount.
pub proof fn law_net_price_is_gross_less_discount(p: crate::pricing::Price)
    ensures
        crate::pricing::spec_net(p) == crate::decimal::spec_sub(
            p.gross@,
            match p.discount {
                Some(d) => d@,
                None => DecimalView { mantissa: 0, scale: 0 },
            },
        ),
{
}

// Three parts written one after the other inside a group, each found between what precedes
// and what follows it.
#[verifier::spinoff_prover]
#[verifier::rlimit(100)]
proof fn lemma_three(st: Seq<char>, p0: Seq<char>, p1: Seq<char>, p2: Seq<char>, et: Seq<char>)
    ensures
        st + ((p0 + p1) + p2) + et == st + p0 + (p1 + p2 + et),
        st + ((p0 + p1) + p2) + et == (st + p0) + p1 + (p2 + et),
        st + ((p0 + p1) + p2) + et == (st + p0 + p1) + p2 + et,
        st + (p0 + (p1 + p2)) + et == st + p0 + (p1 + p2 + et),
        st + (p0 + (p1 + p2)) + et == (st + p0) + p1 + (p2 + et),
        st + (p0 + (p1 + p2)) + et == (st + p0 + p1) + p2 + et,
{
    assert(st + ((p0 + p1) + p2) + et =~= st + p0 + (p1 + p2 + et));
    assert(st + ((p0 + p1) + p2) + et =~= (st + p0) + p1 + (p2 + et));
    assert(st + ((p0 + p1) + p2) + et =~= (st + p0 + p1) + p2 + et);
    assert(st + (p0 + (p1 + p2)) + et =~= st + p0 + (p1 + p2 + et));
    assert(st + (p0 + (p1 + p2)) + et =~= (st + p0) + p1 + (p2 + et));
    assert(st + (p0 + (p1 + p2)) + et =~= (st + p0 + p1) + p2 + et);
}

/// A UBL contact the profile allows writes its name as `Name`, its telephone as `Telephone`
/// and its e-mail as `ElectronicMail`, each where the profile allows its term.
pub proof fn law_ubl_contact_writes_each_field(
    c: crate::model::Contact,
    group: crate::term::Term,
    name: crate::term::Term,
    phone: crate::term::Term,
    mail: crate::term::Term,
    forbidden: Seq<crate::term::Term>,
)
    requires
        !forbidden.contains(group),
    ensures
        c.name matches Some(v) ==> (!forbidden.contains(name) ==> (exists|before: Seq<char>, after: Seq<char>| crate::ubl_write::spec_contact(Some(c), group, name, phone, mail, forbidden) == before + crate::serializer::spec_element(crate::ubl::Namespace::Cbc, "Name"@, Seq::empty(), v@) + after)),
        c.telephone matches Some(v) ==> (!forbidden.contains(phone) ==> (exists|before: Seq<char>, after: Seq<char>| crate::ubl_write::spec_contact(Some(c), group, name, phone, mail, forbidden) == before + crate::serializer::spec_element(crate::ubl::Namespace::Cbc, "Telephone"@, Seq::empty(), v@) + after)),
        c.email matches Some(v) ==> (!forbidden.contains(mail) ==> (exists|before: Seq<char>, after: Seq<char>| crate::ubl_write::spec_contact(Some(c), group, name, phone, mail, forbidden) == before + crate::serializer::spec_element(crate::ubl::Namespace::Cbc, "ElectronicMail"@, Seq::empty(), v@) + after)),
{
    lemma_three(crate::xml::spec_start_tag(crate::serializer::spec_qname(crate::ubl::Namespace::Cac, "Contact"@), Seq::empty()), crate::serializer::spec_term_element(forbidden, name, crate::ubl::Namespace::Cbc, "Name"@, Seq::empty(), crate::ubl_read::spec_texts(c.name)), crate::serializer::spec_term_element(forbidden, phone, crate::ubl::Namespace::Cbc, "Telephone"@, Seq::empty(), crate::ubl_read::spec_texts(c.telephone)), crate::serializer::spec_term_element(forbidden, mail, crate::ubl::Namespace::Cbc, "ElectronicMail"@, Seq::empty(), match c.email { Some(e) => Some(e@), None => None }), crate::xml::spec_end_tag(crate::serializer::spec_qname(crate::ubl::Namespace::Cac, "Contact"@)));
    assert(crate::ubl_write::spec_contact(Some(c), group, name, phone, mail, forbidden) == crate::xml::spec_start_tag(crate::serializer::spec_qname(crate::ubl::Namespace::Cac, "Contact"@), Seq::empty()) + ((crate::serializer::spec_term_element(forbidden, name, crate::ubl::Namespace::Cbc, "Name"@, Seq::empty(), crate::ubl_read::spec_texts(c.name)) + crate::serializer::spec_term_element(forbidden, phone, crate::ubl::Namespace::Cbc, "Telephone"@, Seq::empty(), crate::ubl_read::spec_texts(c.telephone))) + crate::serializer::spec_term_element(forbidden, mail, crate::ubl::Namespace::Cbc, "ElectronicMail"@, Seq::empty(), match c.email { Some(e) => Some(e@), None => None })) + crate::xml::spec_end_tag(crate::serializer::spec_qname(crate::ubl::Namespace::Cac, "Contact"@)));
    if let Some(v) = c.name {
        if !forbidden.contains(name) {
            assert(crate::serializer::spec_term_element(forbidden, name, crate::ubl::Namespace::Cbc, "Name"@, Seq::empty(), crate::ubl_read::spec_texts(c.name)) == crate::serializer::spec_element(crate::ubl::Namespace::Cbc, "Name"@, Seq::empty(), v@));
            assert(crate::ubl_write::spec_contact(Some(c), group, name, phone, mail, forbidden) == (crate::xml::spec_start_tag(crate::serializer::spec_qname(crate::ubl::Namespace::Cac, "Contact"@), Seq::empty())) + crate::serializer::spec_element(crate::ubl::Namespace::Cbc, "Name"@, Seq::empty(), v@) + (crate::serializer::spec_term_element(forbidden, phone, crate::ubl::Namespace::Cbc, "Telephone"@, Seq::empty(), crate::ubl_read::spec_texts(c.telephone)) + crate::serializer::spec_term_element(forbidden, mail, crate::ubl::Namespace::Cbc, "ElectronicMail"@, Seq::empty(), match c.email { Some(e) => Some(e@), None => None }) + crate::xml::spec_end_tag(crate::serializer::spec_qname(crate::ubl::Namespace::Cac, "Contact"@))));
        }
    }
    if let Some(v) = c.telephone {
        if !forbidden.contains(phone) {
            assert(crate::serializer::spec_term_element(forbidden, phone, crate::ubl::Namespace::Cbc, "Telephone"@, Seq::empty(), crate::ubl_read::spec_texts(c.telephone)) == crate::serializer::spec_element(crate::ubl::Namespace::Cbc, "Telephone"@, Seq::empty(), v@));
            assert(crate::ubl_write::spec_contact(Some(c), group, name, phone, mail, forbidden) == (crate::xml::spec_start_tag(crate::serializer::spec_qname(crate::ubl::Namespace::Cac, "Contact"@), Seq::empty()) + crate::serializer::spec_term_element(forbidden, name, crate::ubl::Namespace::Cbc, "Name"@, Seq::empty(), crate::ubl_read::spec_texts(c.name))) + crate::serializer::spec_element(crate::ubl::Namespace::Cbc, "Telephone"@, Seq::empty(), v@) + (crate::serializer::spec_term_element(forbidden, mail, crate::ubl::Namespace::Cbc, "ElectronicMail"@, Seq::empty(), match c.email { Some(e) => Some(e@), None => None }) + crate::xml::spec_end_tag(crate::serializer::spec_qname(crate::ubl::Namespace::Cac, "Contact"@))));
        }
    }
    if let Some(v) = c.email {
        if !forbidden.contains(mail) {
            assert(crate::serializer::spec_term_element(forbidden, mail, crate::ubl::Namespace::Cbc, "ElectronicMail"@, Seq::empty(), match c.email { Some(e) => Some(e@), None => None }) == crate::serializer::spec_element(crate::ubl::Namespace::Cbc, "ElectronicMail"@, Seq::empty(), v@));
            assert(crate::ubl_write::spec_contact(Some(c), group, name, phone, mail, forbidden) == (crate::xml::spec_start_tag(crate::serializer::spec_qname(crate::ubl::Namespace::Cac, "Contact"@), Seq::empty()) + crate::serializer::spec_term_element(forbidden, name, crate::ubl::Namespace::Cbc, "Name"@, Seq::empty(), crate::ubl_read::spec_texts(c.name)) + crate::serializer::spec_term_element(forbidden, phone, crate::ubl::Namespace::Cbc, "Telephone"@, Seq::empty(), crate::ubl_read::spec_texts(c.telephone))) + crate::serializer::spec_element(crate::ubl::Namespace::Cbc, "ElectronicMail"@, Seq::empty(), v@) + (crate::xml::spec_end_tag(crate::serializer::spec_qname(crate::ubl::Namespace::Cac, "Contact"@))));
        }
    }
}

/// The UBL header writes the invoice number as `ID`, the issue date as `IssueDate` and the
/// payment due date as `DueDate`, each where the profile allows its term.
pub proof fn law_ubl_header_writes_number_and_dates(invoice: crate::model::Invoice, forbidden: Seq<crate::term::Term>)
    ensures
        invoice.number matches Some(n) ==> (!forbidden.contains(crate::term::Term::BT(1)) ==> (exists|before: Seq<char>, after: Seq<char>| crate::ubl_write::spec_header_dates(invoice, forbidden) == before + crate::serializer::spec_element(crate::ubl::Namespace::Cbc, "ID"@, Seq::empty(), n@) + after)),
        invoice.issue_date matches Some(d) ==> (!forbidden.contains(crate::term::Term::BT(2)) ==> (exists|before: Seq<char>, after: Seq<char>| crate::ubl_write::spec_header_dates(invoice, forbidden) == before + crate::serializer::spec_element(crate::ubl::Namespace::Cbc, "IssueDate"@, Seq::empty(), crate::ubl_write::spec_date_text(d@.year, d@.month, d@.day)) + after)),
        invoice.payment_due_date matches Some(d) ==> (!forbidden.contains(crate::term::Term::BT(9)) ==> (exists|before: Seq<char>, after: Seq<char>| crate::ubl_write::spec_header_dates(invoice, forbidden) == before + crate::serializer::spec_element(crate::ubl::Namespace::Cbc, "DueDate"@, Seq::empty(), crate::ubl_write::spec_date_text(d@.year, d@.month, d@.day)) + after)),
{
    lemma_three(Seq::<char>::empty(), crate::serializer::spec_term_element(forbidden, crate::term::Term::BT(1), crate::ubl::Namespace::Cbc, "ID"@, Seq::empty(), crate::ubl_read::spec_texts(invoice.number)), crate::ubl_write::spec_date_leaf(forbidden, crate::term::Term::BT(2), "IssueDate"@, invoice.issue_date), crate::ubl_write::spec_date_leaf(forbidden, crate::term::Term::BT(9), "DueDate"@, invoice.payment_due_date), Seq::<char>::empty());
    assert(crate::ubl_write::spec_header_dates(invoice, forbidden) == Seq::<char>::empty() + ((crate::serializer::spec_term_element(forbidden, crate::term::Term::BT(1), crate::ubl::Namespace::Cbc, "ID"@, Seq::empty(), crate::ubl_read::spec_texts(invoice.number)) + crate::ubl_write::spec_date_leaf(forbidden, crate::term::Term::BT(2), "IssueDate"@, invoice.issue_date)) + crate::ubl_write::spec_date_leaf(forbidden, crate::term::Term::BT(9), "DueDate"@, invoice.payment_due_date)) + Seq::<char>::empty());
    if let Some(n) = invoice.number {
        if !forbidden.contains(crate::term::Term::BT(1)) {
            assert(crate::serializer::spec_term_element(forbidden, crate::term::Term::BT(1), crate::ubl::Namespace::Cbc, "ID"@, Seq::empty(), crate::ubl_read::spec_texts(invoice.number)) == crate::serializer::spec_element(crate::ubl::Namespace::Cbc, "ID"@, Seq::empty(), n@));
            assert(crate::ubl_write::spec_header_dates(invoice, forbidden) == (Seq::<char>::empty()) + crate::serializer::spec_element(crate::ubl::Namespace::Cbc, "ID"@, Seq::empty(), n@) + (crate::ubl_write::spec_date_leaf(forbidden, crate::term::Term::BT(2), "IssueDate"@, invoice.issue_date) + crate::ubl_write::spec_date_leaf(forbidden, crate::term::Term::BT(9), "DueDate"@, invoice.payment_due_date) + Seq::<char>::empty()));
        }
    }
    if let Some(d) = invoice.issue_date {
        if !forbidden.contains(crate::term::Term::BT(2)) {
            assert(crate::ubl_write::spec_date_leaf(forbidden, crate::term::Term::BT(2), "IssueDate"@, invoice.issue_date) == crate::serializer::spec_element(crate::ubl::Namespace::Cbc, "IssueDate"@, Seq::empty(), crate::ubl_write::spec_date_text(d@.year, d@.month, d@.day)));
            assert(crate::ubl_write::spec_header_dates(invoice, forbidden) == (Seq::<char>::empty() + crate::serializer::spec_term_element(forbidden, crate::term::Term::BT(1), crate::ubl::Namespace::Cbc, "ID"@, Seq::empty(), crate::ubl_read::spec_texts(invoice.number))) + crate::serializer::spec_element(crate::ubl::Namespace::Cbc, "IssueDate"@, Seq::empty(), crate::ubl_write::spec_date_text(d@.year, d@.month, d@.day)) + (crate::ubl_write::spec_date_leaf(forbidden, crate::term::Term::BT(9), "DueDate"@, invoice.payment_due_date) + Seq::<char>::empty()));
        }
    }
    if let Some(d) = invoice.payment_due_date {
        if !forbidden.contains(crate::term::Term::BT(9)) {
            assert(crate::ubl_write::spec_date_leaf(forbidden, crate::term::Term::BT(9), "DueDate"@, invoice.payment_due_date) == crate::serializer::spec_element(crate::ubl::Namespace::Cbc, "DueDate"@, Seq::empty(), crate::ubl_write::spec_date_text(d@.year, d@.month, d@.day)));
            assert(crate::ubl_write::spec_header_dates(invoice, forbidden) == (Seq::<char>::empty() + crate::serializer::spec_term_element(forbidden, crate::term::Term::BT(1), crate::ubl::Namespace::Cbc, "ID"@, Seq::empty(), crate::ubl_read::spec_texts(invoice.number)) + crate::ubl_write::spec_date_leaf(forbidden, crate::term::Term::BT(2), "IssueDate"@, invoice.issue_date)) + crate::serializer::spec_element(crate::ubl::Namespace::Cbc, "DueDate"@, Seq::empty(), crate::ubl_write::spec_date_text(d@.year, d@.month, d@.day)) + Seq::<char>::empty());
        }
    }
}

/// A CII contact the profile allows writes its name as `PersonName`, its telephone as the
/// `CompleteNumber` of a `TelephoneUniversalCommunication` and its e-mail as the `URIID` of an
/// `EmailURIUniversalCommunication`.
pub proof fn law_cii_contact_writes_each_field(c: crate::model::Contact, forbidden: Seq<crate::term::Term>)
    requires
        !forbidden.contains(crate::term::Term::BG(6)),
    ensures
        c.name matches Some(v) ==> (exists|before: Seq<char>, after: Seq<char>| crate::cii_write::spec_cii_contact(c, forbidden) == before + crate::serializer::spec_element(crate::cii::Namespace::Ram, "PersonName"@, Seq::empty(), v@) + after),
        c.telephone matches Some(v) ==> (exists|before: Seq<char>, after: Seq<char>| crate::cii_write::spec_cii_contact(c, forbidden) == before + crate::serializer::spec_element(crate::cii::Namespace::Ram, "CompleteNumber"@, Seq::empty(), v@) + after),
        c.email matches Some(v) ==> (exists|before: Seq<char>, after: Seq<char>| crate::cii_write::spec_cii_contact(c, forbidden) == before + crate::serializer::spec_element(crate::cii::Namespace::Ram, "URIID"@, Seq::empty(), v@) + after),
{
    lemma_three(crate::xml::spec_start_tag(crate::serializer::spec_qname(crate::cii::Namespace::Ram, "DefinedTradeContact"@), Seq::empty()), crate::serializer::spec_optional_element(crate::cii::Namespace::Ram, "PersonName"@, c.name), (match c.telephone { Some(x) => crate::serializer::spec_group(crate::cii::Namespace::Ram, "TelephoneUniversalCommunication"@, crate::serializer::spec_element(crate::cii::Namespace::Ram, "CompleteNumber"@, Seq::empty(), x@)), None => Seq::empty() }), (match c.email { Some(x) => crate::serializer::spec_group(crate::cii::Namespace::Ram, "EmailURIUniversalCommunication"@, crate::serializer::spec_element(crate::cii::Namespace::Ram, "URIID"@, Seq::empty(), x@)), None => Seq::empty() }), crate::xml::spec_end_tag(crate::serializer::spec_qname(crate::cii::Namespace::Ram, "DefinedTradeContact"@)));
    assert(crate::cii_write::spec_cii_contact(c, forbidden) == crate::xml::spec_start_tag(crate::serializer::spec_qname(crate::cii::Namespace::Ram, "DefinedTradeContact"@), Seq::empty()) + (crate::serializer::spec_optional_element(crate::cii::Namespace::Ram, "PersonName"@, c.name) + ((match c.telephone { Some(x) => crate::serializer::spec_group(crate::cii::Namespace::Ram, "TelephoneUniversalCommunication"@, crate::serializer::spec_element(crate::cii::Namespace::Ram, "CompleteNumber"@, Seq::empty(), x@)), None => Seq::empty() }) + (match c.email { Some(x) => crate::serializer::spec_group(crate::cii::Namespace::Ram, "EmailURIUniversalCommunication"@, crate::serializer::spec_element(crate::cii::Namespace::Ram, "URIID"@, Seq::empty(), x@)), None => Seq::empty() }))) + crate::xml::spec_end_tag(crate::serializer::spec_qname(crate::cii::Namespace::Ram, "DefinedTradeContact"@)));
    if let Some(v) = c.name {
        assert(crate::serializer::spec_optional_element(crate::cii::Namespace::Ram, "PersonName"@, c.name) == crate::serializer::spec_element(crate::cii::Namespace::Ram, "PersonName"@, Seq::empty(), v@));
        assert(crate::cii_write::spec_cii_contact(c, forbidden) == (crate::xml::spec_start_tag(crate::serializer::spec_qname(crate::cii::Namespace::Ram, "DefinedTradeContact"@), Seq::empty())) + crate::serializer::spec_element(crate::cii::Namespace::Ram, "PersonName"@, Seq::empty(), v@) + ((match c.telephone { Some(x) => crate::serializer::spec_group(crate::cii::Namespace::Ram, "TelephoneUniversalCommunication"@, crate::serializer::spec_element(crate::cii::Namespace::Ram, "CompleteNumber"@, Seq::empty(), x@)), None => Seq::empty() }) + (match c.email { Some(x) => crate::serializer::spec_group(crate::cii::Namespace::Ram, "EmailURIUniversalCommunication"@, crate::serializer::spec_element(crate::cii::Namespace::Ram, "URIID"@, Seq::empty(), x@)), None => Seq::empty() }) + crate::xml::spec_end_tag(crate::serializer::spec_qname(crate::cii::Namespace::Ram, "DefinedTradeContact"@))));
    }
    if let Some(v) = c.telephone {
        assert((match c.telephone { Some(x) => crate::serializer::spec_group(crate::cii::Namespace::Ram, "TelephoneUniversalCommunication"@, crate::serializer::spec_element(crate::cii::Namespace::Ram, "CompleteNumber"@, Seq::empty(), x@)), None => Seq::empty() }) == crate::xml::spec_start_tag(crate::serializer::spec_qname(crate::cii::Namespace::Ram, "TelephoneUniversalCommunication"@), Seq::empty()) + crate::serializer::spec_element(crate::cii::Namespace::Ram, "CompleteNumber"@, Seq::empty(), v@) + crate::xml::spec_end_tag(crate::serializer::spec_qname(crate::cii::Namespace::Ram, "TelephoneUniversalCommunication"@)));
        assert(crate::cii_write::spec_cii_contact(c, forbidden) == (crate::xml::spec_start_tag(crate::serializer::spec_qname(crate::cii::Namespace::Ram, "DefinedTradeContact"@), Seq::empty()) + crate::serializer::spec_optional_element(crate::cii::Namespace::Ram, "PersonName"@, c.name)) + (crate::xml::spec_start_tag(crate::serializer::spec_qname(crate::cii::Namespace::Ram, "TelephoneUniversalCommunication"@), Seq::empty()) + crate::serializer::spec_element(crate::cii::Namespace::Ram, "CompleteNumber"@, Seq::empty(), v@) + crate::xml::spec_end_tag(crate::serializer::spec_qname(crate::cii::Namespace::Ram, "TelephoneUniversalCommunication"@))) + ((match c.email { Some(x) => crate::serializer::spec_group(crate::cii::Namespace::Ram, "EmailURIUniversalCommunication"@, crate::serializer::spec_element(crate::cii::Namespace::Ram, "URIID"@, Seq::empty(), x@)), None => Seq::empty() }) + crate::xml::spec_end_tag(crate::serializer::spec_qname(crate::cii::Namespace::Ram, "DefinedTradeContact"@))));
        lemma_wrapped_part(crate::xml::spec_start_tag(crate::serializer::spec_qname(crate::cii::Namespace::Ram, "DefinedTradeContact"@), Seq::empty()) + crate::serializer::spec_optional_element(crate::cii::Namespace::Ram, "PersonName"@, c.name), crate::xml::spec_start_tag(crate::serializer::spec_qname(crate::cii::Namespace::Ram, "TelephoneUniversalCommunication"@), Seq::empty()), crate::serializer::spec_element(crate::cii::Namespace::Ram, "CompleteNumber"@, Seq::empty(), v@), crate::xml::spec_end_tag(crate::serializer::spec_qname(crate::cii::Namespace::Ram, "TelephoneUniversalCommunication"@)), (match c.email { Some(x) => crate::serializer::spec_group(crate::cii::Namespace::Ram, "EmailURIUniversalCommunication"@, crate::serializer::spec_element(crate::cii::Namespace::Ram, "URIID"@, Seq::empty(), x@)), None => Seq::empty() }) + crate::xml::spec_end_tag(crate::serializer::spec_qname(crate::cii::Namespace::Ram, "DefinedTradeContact"@)));
    }
    if let Some(v) = c.email {
        assert((match c.email { Some(x) => crate::serializer::spec_group(crate::cii::Namespace::Ram, "EmailURIUniversalCommunication"@, crate::serializer::spec_element(crate::cii::Namespace::Ram, "URIID"@, Seq::empty(), x@)), None => Seq::empty() }) == crate::xml::spec_start_tag(crate::serializer::spec_qname(crate::cii::Namespace::Ram, "EmailURIUniversalCommunication"@), Seq::empty()) + crate::serializer::spec_element(crate::cii::Namespace::Ram, "URIID"@, Seq::empty(), v@) + crate::xml::spec_end_tag(crate::serializer::spec_qname(crate::cii::Namespace::Ram, "EmailURIUniversalCommunication"@)));
        assert(crate::cii_write::spec_cii_contact(c, forbidden) == (crate::xml::spec_start_tag(crate::serializer::spec_qname(crate::cii::Namespace::Ram, "DefinedTradeContact"@), Seq::empty()) + crate::serializer::spec_optional_element(crate::cii::Namespace::Ram, "PersonName"@, c.name) + (match c.telephone { Some(x) => crate::serializer::spec_group(crate::cii::Namespace::Ram, "TelephoneUniversalCommunication"@, crate::serializer::spec_element(crate::cii::Namespace::Ram, "CompleteNumber"@, Seq::empty(), x@)), None => Seq::empty() })) + (crate::xml::spec_start_tag(crate::serializer::spec_qname(crate::cii::Namespace::Ram, "EmailURIUniversalCommunication"@), Seq::empty()) + crate::serializer::spec_element(crate::cii::Namespace::Ram, "URIID"@, Seq::empty(), v@) + crate::xml::spec_end_tag(crate::serializer::spec_qname(crate::cii::Namespace::Ram, "EmailURIUniversalCommunication"@))) + crate::xml::spec_end_tag(crate::serializer::spec_qname(crate::cii::Namespace::Ram, "DefinedTradeContact"@)));
        lemma_wrapped_part(crate::xml::spec_start_tag(crate::serializer::spec_qname(crate::cii::Namespace::Ram, "DefinedTradeContact"@), Seq::empty()) + crate::serializer::spec_optional_element(crate::cii::Namespace::Ram, "PersonName"@, c.name) + (match c.telephone { Some(x) => crate::serializer::spec_group(crate::cii::Namespace::Ram, "TelephoneUniversalCommunication"@, crate::serializer::spec_element(crate::cii::Namespace::Ram, "CompleteNumber"@, Seq::empty(), x@)), None => Seq::empty() }), crate::xml::spec_start_tag(crate::serializer::spec_qname(crate::cii::Namespace::Ram, "EmailURIUniversalCommunication"@), Seq::empty()), crate::serializer::spec_element(crate::cii::Namespace::Ram, "URIID"@, Seq::empty(), v@), crate::xml::spec_end_tag(crate::serializer::spec_qname(crate::cii::Namespace::Ram, "EmailURIUniversalCommunication"@)), crate::xml::spec_end_tag(crate::serializer::spec_qname(crate::cii::Namespace::Ram, "DefinedTradeContact"@)));
    }
}


/// The tokens of a UBL contact stating a name, a telephone and an e-mail.
pub open spec fn spec_ubl_contact_tokens(name: Seq<char>, phone: Seq<char>, mail: Seq<char>) -> Seq<crate::token::TokenView<crate::ubl::Namespace>> {
    seq![crate::token::TokenView::Open { namespace: crate::ubl::Namespace::Cac, name: "Contact"@, attributes: Seq::empty() }] + spec_leaf_tokens(
        crate::ubl::Namespace::Cbc,
        "Name"@,
        name,
    ) + spec_leaf_tokens(crate::ubl::Namespace::Cbc, "Telephone"@, phone) + spec_leaf_tokens(crate::ubl::Namespace::Cbc, "ElectronicMail"@, mail) + seq![
        crate::token::TokenView::Close,
    ]
}

/// Reading a UBL contact puts `Name` in the contact name, `Telephone` in the telephone and
/// `ElectronicMail`, surrounding white space aside, in the e-mail of the contact read.
pub proof fn law_ubl_contact_reads_each_field(name: Seq<char>, phone: Seq<char>, mail: Seq<char>, contact: crate::model::Contact)
    requires
        name.len() > 0,
        phone.len() > 0,
        crate::reading::spec_valid_email(Some(mail)),
    ensures
        crate::ubl_read::spec_contact_at(spec_ubl_contact_tokens(name, phone, mail), 0) matches Some((read, end)) && end == 11
            && (crate::ubl_read::spec_contact_view(Some(contact)) == read ==> {
            &&& crate::ubl_read::spec_texts(contact.name) == Some(name)
            &&& crate::ubl_read::spec_texts(contact.telephone) == Some(phone)
            &&& crate::reading::spec_email_text(contact.email) == Some(crate::text::spec_trim(mail))
        }),
{
    let tokens = spec_ubl_contact_tokens(name, phone, mail);
    assert(tokens.len() == 11);
    assert(tokens[0] == crate::token::TokenView::Open { namespace: crate::ubl::Namespace::Cac, name: "Contact"@, attributes: Seq::empty() });
    assert(tokens[1] == crate::token::TokenView::Open { namespace: crate::ubl::Namespace::Cbc, name: "Name"@, attributes: Seq::empty() });
    assert(tokens[2] == crate::token::TokenView::<crate::ubl::Namespace>::Text(name));
    assert(tokens[3] == crate::token::TokenView::<crate::ubl::Namespace>::Close);
    assert(tokens[4] == crate::token::TokenView::Open { namespace: crate::ubl::Namespace::Cbc, name: "Telephone"@, attributes: Seq::empty() });
    assert(tokens[5] == crate::token::TokenView::<crate::ubl::Namespace>::Text(phone));
    assert(tokens[6] == crate::token::TokenView::<crate::ubl::Namespace>::Close);
    assert(tokens[7] == crate::token::TokenView::Open { namespace: crate::ubl::Namespace::Cbc, name: "ElectronicMail"@, attributes: Seq::empty() });
    assert(tokens[8] == crate::token::TokenView::<crate::ubl::Namespace>::Text(mail));
    assert(tokens[9] == crate::token::TokenView::<crate::ubl::Namespace>::Close);
    assert(tokens[10] == crate::token::TokenView::<crate::ubl::Namespace>::Close);
    assert(crate::ubl_read::spec_contact_at(tokens, 0) == Some((Some((Some(name), Some(phone), Some(crate::text::spec_trim(mail)))), 11int)));
}


// The first `#` at or after `from` is the one at `i` when none stands between them.
proof fn lemma_find_hash(s: Seq<char>, from: int, i: int)
    requires
        0 <= from <= i < s.len(),
        s[i] == '#',
        forall|j: int| from <= j < i ==> s[j] != '#',
    ensures
        crate::reading::spec_find_hash(s, from) == Some(i),
    decreases i - from,
{
    if from < i {
        lemma_find_hash(s, from + 1, i);
    }
}

/// A note written with its subject code reads back as that subject code and text, for a code
/// without `#`; a note written without one reads back as its bare text, for a text that does
/// not start with `#`.
pub proof fn law_note_text_reads_back(code: Seq<char>, text: Seq<char>)
    ensures
        (forall|j: int| 0 <= j < code.len() ==> code[j] != '#') ==> crate::reading::spec_note_parts(
            crate::ubl_write::spec_note_text(Some(code), text, false),
        ) == (Some(code), text),
        !(text.len() > 0 && text[0] == '#') ==> crate::reading::spec_note_parts(crate::ubl_write::spec_note_text(None, text, false))
            == (None::<Seq<char>>, text),
        !(text.len() > 0 && text[0] == '#') ==> crate::reading::spec_note_parts(crate::ubl_write::spec_note_text(Some(code), text, true))
            == (None::<Seq<char>>, text),
{
    if forall|j: int| 0 <= j < code.len() ==> code[j] != '#' {
        let w = seq!['#'] + code + seq!['#'] + text;
        assert(w[0] == '#');
        assert(w[code.len() as int + 1] == '#');
        assert forall|j: int| 1 <= j < code.len() as int + 1 implies w[j] != '#' by {
            assert(w[j] == code[j - 1]);
        }
        lemma_find_hash(w, 1, code.len() as int + 1);
        assert(w.subrange(1, code.len() as int + 1) =~= code);
        assert(w.subrange(code.len() as int + 2, w.len() as int) =~= text);
    }
}

/// A relative amount of one hundred percent of a base with two places is the base itself.
pub proof fn law_full_relative_amount_is_its_base(rate: crate::values::Percentage, base: crate::decimal::Decimal)
    requires
        rate@ == (DecimalView { mantissa: 100, scale: 0 }),
        base@.scale == 2,
    ensures
        crate::pricing::spec_amount_value(crate::pricing::Amount::Relative { rate, base }) == base@,
{
    let m: int = base@.mantissa;
    vstd::arithmetic::power::lemma_pow1(10);
    vstd::arithmetic::power::lemma_pow_adds(10, 1, 1);
    assert(crate::decimal::pow10(2) == 100);
    if m >= 0 {
        assert((2 * (m * 100int) + 100int) / (2 * 100int) == m) by (nonlinear_arith)
            requires
                m >= 0,
        ;
    } else {
        assert((2 * -(m * 100int) + 100int) / (2 * 100int) == -m) by (nonlinear_arith)
            requires
                m < 0,
        ;
    }
}


/// The tokens of a UBL party legal entity stating a registration name, a company identifier
/// with its scheme and a legal form.
pub open spec fn spec_ubl_legal_tokens(name: Seq<char>, id: Seq<char>, scheme: Seq<char>, form: Seq<char>) -> Seq<crate::token::TokenView<crate::ubl::Namespace>> {
    seq![crate::token::TokenView::Open { namespace: crate::ubl::Namespace::Cac, name: "PartyLegalEntity"@, attributes: Seq::empty() }] + spec_leaf_tokens(crate::ubl::Namespace::Cbc, "RegistrationName"@, name)
        + seq![
        crate::token::TokenView::Open { namespace: crate::ubl::Namespace::Cbc, name: "CompanyID"@, attributes: seq![("schemeID"@, scheme)] },
        crate::token::TokenView::Text(id),
        crate::token::TokenView::Close,
    ] + spec_leaf_tokens(crate::ubl::Namespace::Cbc, "CompanyLegalForm"@, form) + seq![crate::token::TokenView::Close]
}

/// Reading a UBL party legal entity puts `RegistrationName` in the party's name, `CompanyID`
/// with its scheme in the legal entity's identifier and issuer, and `CompanyLegalForm` in the
/// additional legal information of the seller read.
pub proof fn law_ubl_legal_entity_reads_each_field(name: Seq<char>, id: Seq<char>, scheme: Seq<char>, form: Seq<char>, seller: crate::model::Seller)
    requires
        name.len() > 0,
        id.len() > 0,
        scheme.len() > 0,
        form.len() > 0,
    ensures
        crate::ubl_read::spec_legal_at(spec_ubl_legal_tokens(name, id, scheme, form), 0) matches Some(((n, e, f), end)) && end == 11 && ({
            let v = crate::ubl_read::spec_seller_view(seller);
            v.name == n && v.legal_entity == e && v.additional_legal_information == f
        } ==> {
            &&& crate::ubl_read::spec_texts(seller.name) == Some(name)
            &&& seller.legal_entity matches Some(x) && x.id@ == id && crate::ubl_read::spec_texts(x.issuer) == Some(scheme)
            &&& crate::ubl_read::spec_texts(seller.additional_legal_information) == Some(form)
        }),
{
    let tokens = spec_ubl_legal_tokens(name, id, scheme, form);
    let attributes = seq![("schemeID"@, scheme)];
    assert(tokens.len() == 11);
    assert(tokens[0] == crate::token::TokenView::Open { namespace: crate::ubl::Namespace::Cac, name: "PartyLegalEntity"@, attributes: Seq::empty() });
    assert(tokens[1] == crate::token::TokenView::Open { namespace: crate::ubl::Namespace::Cbc, name: "RegistrationName"@, attributes: Seq::empty() });
    assert(tokens[2] == crate::token::TokenView::<crate::ubl::Namespace>::Text(name));
    assert(tokens[3] == crate::token::TokenView::<crate::ubl::Namespace>::Close);
    assert(tokens[4] == crate::token::TokenView::Open { namespace: crate::ubl::Namespace::Cbc, name: "CompanyID"@, attributes: attributes });
    assert(tokens[5] == crate::token::TokenView::<crate::ubl::Namespace>::Text(id));
    assert(tokens[6] == crate::token::TokenView::<crate::ubl::Namespace>::Close);
    assert(tokens[7] == crate::token::TokenView::Open { namespace: crate::ubl::Namespace::Cbc, name: "CompanyLegalForm"@, attributes: Seq::empty() });
    assert(tokens[8] == crate::token::TokenView::<crate::ubl::Namespace>::Text(form));
    assert(tokens[9] == crate::token::TokenView::<crate::ubl::Namespace>::Close);
    assert(tokens[10] == crate::token::TokenView::<crate::ubl::Namespace>::Close);
    assert(crate::parser::spec_open_attributes(tokens, 4) == attributes);
    assert(crate::reading::spec_attribute(attributes, "schemeID"@) == Some(scheme));
    assert(crate::ubl_read::spec_legal_at(tokens, 0) == Some(((Some(name), Some((id, Some(scheme))), Some(form)), 11int)));
}

/// The tokens of a UBL party name.
pub open spec fn spec_ubl_party_name_tokens(name: Seq<char>) -> Seq<crate::token::TokenView<crate::ubl::Namespace>> {
    seq![crate::token::TokenView::Open { namespace: crate::ubl::Namespace::Cac, name: "PartyName"@, attributes: Seq::empty() }] + spec_leaf_tokens(crate::ubl::Namespace::Cbc, "Name"@, name) + seq![
        crate::token::TokenView::Close,
    ]
}

/// Reading a UBL party name puts its `Name` in the trading name of the party read.
pub proof fn law_ubl_party_name_reads_the_trading_name(name: Seq<char>, seller: crate::model::Seller)
    requires
        name.len() > 0,
    ensures
        crate::ubl_read::spec_party_name_at(spec_ubl_party_name_tokens(name), 0) matches Some((t, end)) && end == 5 && (
        crate::ubl_read::spec_seller_view(seller).trading_name == t ==> crate::ubl_read::spec_texts(seller.trading_name) == Some(name)),
{
    let tokens = spec_ubl_party_name_tokens(name);
    assert(tokens.len() == 5);
    assert(tokens[0] == crate::token::TokenView::Open { namespace: crate::ubl::Namespace::Cac, name: "PartyName"@, attributes: Seq::empty() });
    assert(tokens[1] == crate::token::TokenView::Open { namespace: crate::ubl::Namespace::Cbc, name: "Name"@, attributes: Seq::empty() });
    assert(tokens[2] == crate::token::TokenView::<crate::ubl::Namespace>::Text(name));
    assert(tokens[3] == crate::token::TokenView::<crate::ubl::Namespace>::Close);
    assert(tokens[4] == crate::token::TokenView::<crate::ubl::Namespace>::Close);
    assert(crate::ubl_read::spec_party_name_at(tokens, 0) == Some((Some(name), 5int)));
}


/// Each member of the UBL and CII namespace sets has its own namespace URI, the prefix a
/// document declares for it, the abbreviation of its rule set and the name it renders to.
pub proof fn law_namespace_tables()
    ensures
        crate::namespace::Namespace::spec_uri(crate::ubl::Namespace::Inv) == "urn:oasis:names:specification:ubl:schema:xsd:Invoice-2"@,
        crate::namespace::Namespace::spec_uri(crate::ubl::Namespace::Cac) == "urn:oasis:names:specification:ubl:schema:xsd:CommonAggregateComponents-2"@,
        crate::namespace::Namespace::spec_uri(crate::ubl::Namespace::Cbc) == "urn:oasis:names:specification:ubl:schema:xsd:CommonBasicComponents-2"@,
        crate::namespace::Namespace::spec_prefix(crate::ubl::Namespace::Inv) == ""@,
        crate::namespace::Namespace::spec_prefix(crate::ubl::Namespace::Cac) == "cac"@,
        crate::namespace::Namespace::spec_prefix(crate::ubl::Namespace::Cbc) == "cbc"@,
        crate::namespace::Namespace::spec_abbreviation(crate::ubl::Namespace::Inv) == "ubl"@,
        crate::namespace::Namespace::spec_abbreviation(crate::ubl::Namespace::Cac) == "cac"@,
        crate::namespace::Namespace::spec_abbreviation(crate::ubl::Namespace::Cbc) == "cbc"@,
        crate::namespace::Namespace::spec_render(crate::ubl::Namespace::Inv) == "INV"@,
        crate::namespace::Namespace::spec_render(crate::ubl::Namespace::Cac) == "CAC"@,
        crate::namespace::Namespace::spec_render(crate::ubl::Namespace::Cbc) == "CBC"@,
        crate::namespace::Namespace::spec_uri(crate::cii::Namespace::Rsm) == "urn:un:unece:uncefact:data:standard:CrossIndustryInvoice:100"@,
        crate::namespace::Namespace::spec_uri(crate::cii::Namespace::Ram) == "urn:un:unece:uncefact:data:standard:ReusableAggregateBusinessInformationEntity:100"@,
        crate::namespace::Namespace::spec_uri(crate::cii::Namespace::Udt) == "urn:un:unece:uncefact:data:standard:UnqualifiedDataType:100"@,
        crate::namespace::Namespace::spec_uri(crate::cii::Namespace::Qdt) == "urn:un:unece:uncefact:data:standard:QualifiedDataType:100"@,
        crate::namespace::Namespace::spec_prefix(crate::cii::Namespace::Rsm) == "rsm"@,
        crate::namespace::Namespace::spec_prefix(crate::cii::Namespace::Ram) == "ram"@,
        crate::namespace::Namespace::spec_prefix(crate::cii::Namespace::Udt) == "udt"@,
        crate::namespace::Namespace::spec_prefix(crate::cii::Namespace::Qdt) == "qdt"@,
        crate::namespace::Namespace::spec_abbreviation(crate::cii::Namespace::Rsm) == "rsm"@,
        crate::namespace::Namespace::spec_abbreviation(crate::cii::Namespace::Ram) == "ram"@,
        crate::namespace::Namespace::spec_abbreviation(crate::cii::Namespace::Udt) == "udt"@,
        crate::namespace::Namespace::spec_abbreviation(crate::cii::Namespace::Qdt) == "qdt"@,
        crate::namespace::Namespace::spec_render(crate::cii::Namespace::Rsm) == "RSM"@,
        crate::namespace::Namespace::spec_render(crate::cii::Namespace::Ram) == "RAM"@,
        crate::namespace::Namespace::spec_render(crate::cii::Namespace::Udt) == "UDT"@,
        crate::namespace::Namespace::spec_render(crate::cii::Namespace::Qdt) == "QDT"@,
{
}


/// The UBL binding roots a document in the `Invoice` element of the UBL invoice namespace, the
/// CII binding in the `CrossIndustryInvoice` element of the CII namespace; a root in the UBL
/// invoice or credit note namespace is read as UBL, one in the CII namespace as CII.
pub proof fn law_binding_roots()
    ensures
        <crate::format::Ubl as crate::format::Format>::spec_root_namespace() == crate::ubl::Namespace::Inv,
        <crate::format::Ubl as crate::format::Format>::spec_root_element() == "Invoice"@,
        <crate::format::Ubl as crate::format::Format>::spec_binding() == crate::binding::Binding::Ubl,
        <crate::format::Cii as crate::format::Format>::spec_root_namespace() == crate::cii::Namespace::Rsm,
        <crate::format::Cii as crate::format::Format>::spec_root_element() == "CrossIndustryInvoice"@,
        <crate::format::Cii as crate::format::Format>::spec_binding() == crate::binding::Binding::Cii,
        crate::binding::spec_from_root(Some("urn:oasis:names:specification:ubl:schema:xsd:Invoice-2"@)) == Ok::<crate::binding::Binding, crate::error::ErrorView>(crate::binding::Binding::Ubl),
        crate::binding::spec_from_root(Some("urn:oasis:names:specification:ubl:schema:xsd:CreditNote-2"@)) == Ok::<crate::binding::Binding, crate::error::ErrorView>(crate::binding::Binding::Ubl),
        crate::binding::spec_from_root(Some("urn:un:unece:uncefact:data:standard:CrossIndustryInvoice:100"@)) == Ok::<crate::binding::Binding, crate::error::ErrorView>(crate::binding::Binding::Cii),
{
    reveal_strlit("urn:oasis:names:specification:ubl:schema:xsd:Invoice-2");
    reveal_strlit("urn:oasis:names:specification:ubl:schema:xsd:CreditNote-2");
    reveal_strlit("urn:un:unece:uncefact:data:standard:CrossIndustryInvoice:100");
    assert("urn:oasis:names:specification:ubl:schema:xsd:Invoice-2"@.len() == 54);
    assert("urn:oasis:names:specification:ubl:schema:xsd:CreditNote-2"@.len() == 57);
    assert("urn:un:unece:uncefact:data:standard:CrossIndustryInvoice:100"@.len() == 60);
}

} // verus!
