//! Exact decimal numbers: a signed mantissa over a power of ten.

use vstd::prelude::*;
use vstd::arithmetic::power::pow;
use vstd::arithmetic::div_mod::{lemma_fundamental_div_mod, lemma_fundamental_div_mod_converse};
use crate::text::{append_str, owned, push_char, spec_decimal, decimal_text};

verus! {

/// `10` raised to `k`.
pub open spec fn pow10(k: nat) -> int {
    pow(10, k)
}

/// Whether an integer fits the mantissa of a decimal.
pub open spec fn fits(x: int) -> bool {
    i128::MIN <= x <= i128::MAX
}

/// The value a decimal stands for: `mantissa / 10^scale`.
pub struct DecimalView {
    pub mantissa: int,
    pub scale: nat,
}

/// The sum of two decimals, at the larger of their scales.
pub open spec fn spec_add(a: DecimalView, b: DecimalView) -> DecimalView {
    let s = if a.scale >= b.scale { a.scale } else { b.scale };
    DecimalView {
        mantissa: a.mantissa * pow10((s - a.scale) as nat) + b.mantissa * pow10((s - b.scale) as nat),
        scale: s,
    }
}

/// The opposite of a decimal, at its scale.
pub open spec fn spec_neg(a: DecimalView) -> DecimalView {
    DecimalView { mantissa: -a.mantissa, scale: a.scale }
}

/// The difference of two decimals, at the larger of their scales.
pub open spec fn spec_sub(a: DecimalView, b: DecimalView) -> DecimalView {
    spec_add(a, spec_neg(b))
}

/// The product of two decimals, at the sum of their scales.
pub open spec fn spec_mul(a: DecimalView, b: DecimalView) -> DecimalView {
    DecimalView { mantissa: a.mantissa * b.mantissa, scale: a.scale + b.scale }
}

/// The integer nearest to `a / b`, halves rounded away from zero (`b > 0`).
pub open spec fn div_half_away(a: int, b: int) -> int {
    if a >= 0 {
        (2 * a + b) / (2 * b)
    } else {
        -((2 * -a + b) / (2 * b))
    }
}

/// The integer nearest to `a / b`, halves rounded away from zero (`b != 0`).
pub open spec fn div_half_away_signed(a: int, b: int) -> int {
    if b > 0 {
        div_half_away(a, b)
    } else {
        div_half_away(-a, -b)
    }
}

/// The quotient of two decimals rounded to two places, halves away from zero.
pub open spec fn spec_quotient_2dp(n: DecimalView, d: DecimalView) -> DecimalView {
    DecimalView {
        mantissa: div_half_away_signed(
            n.mantissa * pow10(d.scale + 2),
            d.mantissa * pow10(n.scale),
        ),
        scale: 2,
    }
}

/// Whether the quotient of two decimals can be taken within the range of the mantissa.
pub open spec fn spec_quotient_fits(n: DecimalView, d: DecimalView) -> bool {
    let a = n.mantissa * pow10(d.scale + 2);
    let b = d.mantissa * pow10(n.scale);
    &&& d.scale + 2 <= u32::MAX
    &&& fits(a) && fits(b) && a != i128::MIN
    &&& b < 0 ==> fits(-b)
}

/// Whether a decimal stands for zero.
pub open spec fn spec_is_zero(d: DecimalView) -> bool {
    d.mantissa == 0
}

/// A decimal rounded to `dp` places, halves away from zero;
/// one with no more than `dp` places is kept as it is.
pub open spec fn spec_round_dp(a: DecimalView, dp: nat) -> DecimalView {
    if a.scale <= dp {
        a
    } else {
        DecimalView {
            mantissa: div_half_away(a.mantissa, pow10((a.scale - dp) as nat)),
            scale: dp,
        }
    }
}

/// Whether two decimals stand for the same number, whatever their scales.
pub open spec fn same_value(a: DecimalView, b: DecimalView) -> bool {
    a.mantissa * pow10(b.scale) == b.mantissa * pow10(a.scale)
}

/// The text of a decimal: its sign, its integral digits, then its `scale` fractional digits.
pub open spec fn spec_decimal_text(a: DecimalView) -> Seq<char> {
    let magnitude = if a.mantissa < 0 { -a.mantissa } else { a.mantissa };
    let digits = spec_decimal(magnitude as nat);
    let padded = if digits.len() <= a.scale {
        Seq::new((a.scale + 1 - digits.len()) as nat, |i: int| '0') + digits
    } else {
        digits
    };
    let split = padded.len() - a.scale;
    let sign = if a.mantissa < 0 { seq!['-'] } else { Seq::empty() };
    if a.scale == 0 {
        sign + padded
    } else {
        sign + padded.subrange(0, split) + seq!['.'] + padded.subrange(split, padded.len() as int)
    }
}

/// What a decimal text parses to: its mantissa and its scale, when it is a number.
pub uninterp spec fn spec_parse_decimal(text: Seq<char>) -> Option<(int, nat)>;

/// An exact decimal number: `mantissa / 10^scale`.
///
/// Two decimals are equal when they stand for the same number, so `1.0 == 1.00`;
/// the scale is kept for rendering.
#[derive(Debug, Clone, Copy)]
pub struct Decimal {
    /// The signed digits of the number.
    pub mantissa: i128,
    /// The number of digits after the decimal point.
    pub scale: u32,
}

impl View for Decimal {
    type V = DecimalView;

    open spec fn view(&self) -> DecimalView {
        DecimalView { mantissa: self.mantissa as int, scale: self.scale as nat }
    }
}

impl PartialEq for Decimal {
    fn eq(&self, other: &Self) -> (r: bool) {
        self.same(other)
    }
}

impl Eq for Decimal {}

impl vstd::std_specs::cmp::PartialEqSpecImpl for Decimal {
    open spec fn obeys_eq_spec() -> bool {
        true
    }

    open spec fn eq_spec(&self, other: &Self) -> bool {
        same_value(self@, other@)
    }
}

// `a * 10^b * 10^c == a * 10^(b + c)`.
proof fn lemma_shift(a: int, b: nat, c: nat)
    ensures
        a * pow10(b) * pow10(c) == a * pow10(b + c),
        pow10(b) > 0,
{
    vstd::arithmetic::power::lemma_pow_adds(10, b, c);
    vstd::arithmetic::power::lemma_pow_positive(10, b);
    vstd::arithmetic::mul::lemma_mul_is_associative(a, pow10(b), pow10(c));
}

// Rounding half away from zero adds one to the truncated quotient exactly when the
// remainder reaches half the divisor.
proof fn lemma_half_away(a: int, b: int)
    requires
        a >= 0,
        b > 0,
    ensures
        (2 * a + b) / (2 * b) == a / b + if 2 * (a % b) >= b { 1int } else { 0int },
{
    lemma_fundamental_div_mod(a, b);
    let q = a / b;
    let r = a % b;
    assert(0 <= r < b) by {
        vstd::arithmetic::div_mod::lemma_mod_bound(a, b);
    }
    assert(a == b * q + r);
    if 2 * r >= b {
        assert(2 * a + b == (q + 1) * (2 * b) + (2 * r - b)) by (nonlinear_arith)
            requires
                a == b * q + r,
        ;
        lemma_fundamental_div_mod_converse(2 * a + b, 2 * b, q + 1, 2 * r - b);
    } else {
        assert(2 * a + b == q * (2 * b) + (2 * r + b)) by (nonlinear_arith)
            requires
                a == b * q + r,
        ;
        lemma_fundamental_div_mod_converse(2 * a + b, 2 * b, q, 2 * r + b);
    }
}

// The powers of ten at the edge of the mantissa's range.
pub proof fn lemma_pow10_edge()
    ensures
        pow10(38) == 100000000000000000000000000000000000000int,
        pow10(39) == 1000000000000000000000000000000000000000int,
{
    reveal_with_fuel(pow, 40);
}

/// `10^k` for a `k` whose power fits the mantissa.
pub fn pow10_small(k: u32) -> (r: i128)
    requires
        k <= 38,
    ensures
        r == pow10(k as nat),
        r > 0,
{
    let mut x: i128 = 1;
    let mut i: u32 = 0;
    proof {
        vstd::arithmetic::power::lemma_pow0(10);
        lemma_pow10_edge();
    }
    while i < k
        invariant
            i <= k <= 38,
            x == pow10(i as nat),
            pow10(38) == 100000000000000000000000000000000000000int,
        decreases k - i,
    {
        proof {
            vstd::arithmetic::power::lemma_pow_adds(10, i as nat, 1);
            vstd::arithmetic::power::lemma_pow1(10);
            vstd::arithmetic::power::lemma_pow_increases(10, (i + 1) as nat, 38);
            assert(x * 10 == pow10((i + 1) as nat));
            assert(pow10((i + 1) as nat) <= pow10(38));
            vstd::arithmetic::power::lemma_pow_positive(10, i as nat);
        }
        x = x * 10;
        i = i + 1;
    }
    proof {
        vstd::arithmetic::power::lemma_pow_positive(10, k as nat);
    }
    x
}

/// `10^k` when it fits the mantissa.
pub fn pow10_i128(k: u32) -> (r: Option<i128>)
    ensures
        r matches Some(x) ==> x == pow10(k as nat) && k <= 38,
        r is None ==> pow10(k as nat) >= pow10(39) && k > 38,
{
    proof {
        lemma_pow10_edge();
    }
    if k <= 38 {
        Some(pow10_small(k))
    } else {
        proof {
            vstd::arithmetic::power::lemma_pow_increases(10, 39, k as nat);
        }
        None
    }
}

// `m * 10^k` when it fits the mantissa.
fn shift_left(m: i128, k: u32) -> (r: Option<i128>)
    ensures
        r matches Some(x) ==> x == m * pow10(k as nat),
        r is None <==> !fits(m * pow10(k as nat)),
{
    proof {
        vstd::arithmetic::power::lemma_pow_positive(10, k as nat);
    }
    if m == 0 {
        assert(m * pow10(k as nat) == 0);
        return Some(0);
    }
    match pow10_i128(k) {
        None => {
            proof {
                lemma_pow10_edge();
                let p = pow10(k as nat);
                if m > 0 {
                    assert(m * p >= p) by (nonlinear_arith)
                        requires
                            m >= 1,
                            p > 0,
                    ;
                } else {
                    assert(m * p <= -p) by (nonlinear_arith)
                        requires
                            m <= -1,
                            p > 0,
                    ;
                }
            }
            None
        },
        Some(p) => m.checked_mul(p),
    }
}

impl Decimal {
    /// The decimal `num / 10^scale`.
    pub fn new(num: i64, scale: u32) -> (r: Decimal)
        requires
            scale <= 28,
        ensures
            r@ == (DecimalView { mantissa: num as int, scale: scale as nat }),
    {
        Decimal { mantissa: num as i128, scale }
    }

    /// The number zero, without decimal places.
    pub fn zero() -> (r: Decimal)
        ensures
            r@ == (DecimalView { mantissa: 0, scale: 0 }),
    {
        Decimal { mantissa: 0, scale: 0 }
    }

    /// The number one, without decimal places.
    pub fn one() -> (r: Decimal)
        ensures
            r@ == (DecimalView { mantissa: 1, scale: 0 }),
    {
        Decimal { mantissa: 1, scale: 0 }
    }

    /// Whether two decimals stand for the same number.
    pub fn same(&self, other: &Decimal) -> (r: bool)
        ensures
            r == same_value(self@, other@),
    {
        let (low, high) = if self.scale <= other.scale { (self, other) } else { (other, self) };
        proof {
            vstd::arithmetic::power::lemma_pow_positive(10, low.scale as nat);
            lemma_shift(low.mantissa as int, (high.scale - low.scale) as nat, low.scale as nat);
            lemma_shift(high.mantissa as int, 0, low.scale as nat);
            vstd::arithmetic::power::lemma_pow0(10);
            lemma_shift(1, (high.scale - low.scale) as nat, low.scale as nat);
            assert(((high.scale - low.scale) as nat + low.scale as nat) == high.scale as nat);
            assert(pow10(high.scale as nat) == pow10((high.scale - low.scale) as nat) * pow10(
                low.scale as nat,
            ));
            let p = pow10(low.scale as nat);
            let x = low.mantissa as int * pow10((high.scale - low.scale) as nat);
            assert(low.mantissa as int * pow10(high.scale as nat) == x * p) by (nonlinear_arith)
                requires
                    x == low.mantissa as int * pow10((high.scale - low.scale) as nat),
                    pow10(high.scale as nat) == pow10((high.scale - low.scale) as nat) * p,
            ;
            assert(x * p == high.mantissa * p <==> x == high.mantissa) by (nonlinear_arith)
                requires
                    p > 0,
            ;
        }
        match shift_left(low.mantissa, high.scale - low.scale) {
            None => false,
            Some(x) => x == high.mantissa,
        }
    }

    /// The sum, at the larger scale, or `None` when a mantissa would leave its range.
    pub fn checked_add(&self, other: &Decimal) -> (r: Option<Decimal>)
        ensures
            r matches Some(d) ==> d@ == spec_add(self@, other@),
            r is None <==> !(fits(self.mantissa * pow10((spec_add(self@, other@).scale - self.scale) as nat))
                && fits(other.mantissa * pow10((spec_add(self@, other@).scale - other.scale) as nat))
                && fits(spec_add(self@, other@).mantissa)),
    {
        let s = if self.scale >= other.scale { self.scale } else { other.scale };
        let a = shift_left(self.mantissa, s - self.scale);
        let b = shift_left(other.mantissa, s - other.scale);
        match (a, b) {
            (Some(a), Some(b)) => match a.checked_add(b) {
                Some(m) => Some(Decimal { mantissa: m, scale: s }),
                None => None,
            },
            _ => None,
        }
    }

    /// The opposite, or `None` for the one mantissa without an opposite.
    pub fn checked_neg(&self) -> (r: Option<Decimal>)
        ensures
            r matches Some(d) ==> d@ == spec_neg(self@),
            r is None <==> !fits(-self.mantissa),
    {
        if self.mantissa == i128::MIN {
            None
        } else {
            Some(Decimal { mantissa: -self.mantissa, scale: self.scale })
        }
    }

    /// The difference, at the larger scale, or `None` when a mantissa would leave its range.
    pub fn checked_sub(&self, other: &Decimal) -> (r: Option<Decimal>)
        ensures
            r matches Some(d) ==> d@ == spec_sub(self@, other@),
            !fits(-other.mantissa) ==> r is None,
            fits(-other.mantissa) ==> (r is None <==> !(fits(self.mantissa * pow10((spec_sub(self@, other@).scale - self.scale) as nat))
                && fits(-other.mantissa * pow10((spec_sub(self@, other@).scale - other.scale) as nat))
                && fits(spec_sub(self@, other@).mantissa))),
    {
        match other.checked_neg() {
            None => None,
            Some(n) => self.checked_add(&n),
        }
    }

    /// The product, at the sum of the scales, or `None` when it leaves the range.
    pub fn checked_mul(&self, other: &Decimal) -> (r: Option<Decimal>)
        ensures
            r matches Some(d) ==> d@ == spec_mul(self@, other@),
            r is None <==> !(fits(self.mantissa * other.mantissa) && self.scale + other.scale
                <= u32::MAX),
    {
        match (self.mantissa.checked_mul(other.mantissa), self.scale.checked_add(other.scale)) {
            (Some(m), Some(s)) => Some(Decimal { mantissa: m, scale: s }),
            _ => None,
        }
    }

    /// The number divided by `10^k`: the same digits, `k` more places.
    pub fn shifted(&self, k: u32) -> (r: Option<Decimal>)
        ensures
            r matches Some(d) ==> d@ == (DecimalView { mantissa: self.mantissa as int, scale: (self.scale + k) as nat }),
            r is None <==> self.scale + k > u32::MAX,
    {
        match self.scale.checked_add(k) {
            Some(s) => Some(Decimal { mantissa: self.mantissa, scale: s }),
            None => None,
        }
    }

    /// The number rounded to `dp` places, halves away from zero.
    pub fn round_dp(&self, dp: u32) -> (r: Decimal)
        ensures
            r@ == spec_round_dp(self@, dp as nat),
    {
        if self.scale <= dp {
            return *self;
        }
        let k = self.scale - dp;
        proof {
            vstd::arithmetic::power::lemma_pow_positive(10, k as nat);
        }
        let magnitude: u128 = if self.mantissa < 0 {
            (-(self.mantissa + 1)) as u128 + 1
        } else {
            self.mantissa as u128
        };
        let rounded: u128 = if k > 38 {
            // The divisor exceeds twice the magnitude: the number rounds to zero.
            proof {
                lemma_pow10_edge();
                vstd::arithmetic::power::lemma_pow_increases(10, 39, k as nat);
                let m = magnitude as int;
                let p = pow10(k as nat);
                assert(2 * m + p < 2 * p);
                lemma_fundamental_div_mod_converse(2 * m + p, 2 * p, 0, 2 * m + p);
            }
            0
        } else {
            let p = pow10_small(k) as u128;
            let q = magnitude / p;
            let rem = magnitude % p;
            proof {
                lemma_half_away(magnitude as int, p as int);
            }
            if rem >= p - rem {
                q + 1
            } else {
                q
            }
        };
        proof {
            assert(rounded as int == (2 * (magnitude as int) + pow10(k as nat)) / (2 * pow10(
                k as nat,
            )));
        }
        // The rounded magnitude stays far below the range of the mantissa.
        assert(rounded as int <= i128::MAX) by {
            if k <= 38 {
                let m = magnitude as int;
                let p = pow10(k as nat);
                vstd::arithmetic::power::lemma_pow_increases(10, 1, k as nat);
                vstd::arithmetic::power::lemma_pow1(10);
                vstd::arithmetic::div_mod::lemma_div_is_ordered_by_denominator(m, 10, p);
                vstd::arithmetic::div_mod::lemma_div_is_ordered(m, 0x8000_0000_0000_0000_0000_0000_0000_0000int, 10);
                lemma_half_away(m, p);
            }
        }
        let mantissa: i128 = if self.mantissa < 0 {
            -(rounded as i128)
        } else {
            rounded as i128
        };
        Decimal { mantissa, scale: dp }
    }

    /// The text of the number, with exactly `scale` digits after the point.
    pub fn to_string(&self) -> (s: String)
        ensures
            s@ == spec_decimal_text(self@),
    {
        let magnitude: u128 = if self.mantissa < 0 {
            (-(self.mantissa + 1)) as u128 + 1
        } else {
            self.mantissa as u128
        };
        let digits = decimal_text(magnitude);
        let scale = self.scale as usize;
        let ghost d = digits@;
        let mut padded = String::new();
        let n = digits.unicode_len();
        proof {
            lemma_decimal_len(magnitude as nat);
        }
        let zeros: usize = if n <= scale { scale - n + 1 } else { 0 };
        let mut i: usize = 0;
        while i < zeros
            invariant
                i <= zeros,
                padded@ == Seq::new(i as nat, |j: int| '0'),
            decreases zeros - i,
        {
            push_char(&mut padded, '0');
            assert(padded@ =~= Seq::new((i + 1) as nat, |j: int| '0'));
            i = i + 1;
        }
        append_str(&mut padded, digits.as_str());
        let ghost pad = padded@;
        proof {
            if n <= scale {
                assert(pad =~= Seq::new((scale + 1 - n) as nat, |j: int| '0') + d);
            } else {
                assert(pad =~= d);
            }
        }
        let mut s = if self.mantissa < 0 { owned("-") } else { String::new() };
        proof {
            reveal_strlit("-");
        }
        let ghost sign = s@;
        if scale == 0 {
            append_str(&mut s, padded.as_str());
        } else {
            let split = padded.unicode_len() - scale;
            append_str(&mut s, padded.as_str().substring_char(0, split));
            push_char(&mut s, '.');
            append_str(&mut s, padded.as_str().substring_char(split, padded.unicode_len()));
        }
        s
    }
}

// A decimal rendering holds at least one digit.
proof fn lemma_decimal_len(n: nat)
    ensures
        spec_decimal(n).len() >= 1,
    decreases n,
{
    if n >= 10 {
        lemma_decimal_len(n / 10);
    }
}

/// The integer nearest to `a / b`, halves away from zero.
pub fn div_round(a: i128, b: i128) -> (r: i128)
    requires
        b > 0,
        a != i128::MIN,
    ensures
        r == div_half_away(a as int, b as int),
{
    let magnitude: u128 = if a < 0 { (-a) as u128 } else { a as u128 };
    let bb = b as u128;
    let q = magnitude / bb;
    let rem = magnitude % bb;
    proof {
        lemma_half_away(magnitude as int, b as int);
        lemma_fundamental_div_mod(magnitude as int, b as int);
        vstd::arithmetic::div_mod::lemma_mod_bound(magnitude as int, b as int);
    }
    let rounded: u128 = if rem >= bb - rem {
        proof {
            let m = magnitude as int;
            let qq = q as int;
            let rr = rem as int;
            assert(qq + 1 <= m) by (nonlinear_arith)
                requires
                    m == (b as int) * qq + rr,
                    0 <= rr < b,
                    rr >= b - rr,
                    qq >= 0,
            ;
        }
        q + 1
    } else {
        proof {
            let m = magnitude as int;
            assert(q as int <= m) by (nonlinear_arith)
                requires
                    m == (b as int) * (q as int) + (rem as int),
                    rem >= 0,
                    b > 0,
                    q >= 0,
            ;
        }
        q
    };
    if a < 0 {
        -(rounded as i128)
    } else {
        rounded as i128
    }
}

impl Decimal {
    /// The quotient of two decimals rounded to two places, halves away from zero,
    /// or `None` when it cannot be taken within the range of the mantissa.
    pub fn quotient_2dp(&self, divisor: &Decimal) -> (r: Option<Decimal>)
        requires
            !spec_is_zero(divisor@),
        ensures
            r matches Some(q) ==> q@ == spec_quotient_2dp(self@, divisor@),
            r is None <==> !spec_quotient_fits(self@, divisor@),
    {
        let up = match divisor.scale.checked_add(2) {
            Some(k) => k,
            None => {
                return None;
            },
        };
        let a = match shift_left(self.mantissa, up) {
            Some(a) => a,
            None => {
                return None;
            },
        };
        let b = match shift_left(divisor.mantissa, self.scale) {
            Some(b) => b,
            None => {
                return None;
            },
        };
        if a == i128::MIN {
            return None;
        }
        proof {
            vstd::arithmetic::power::lemma_pow_positive(10, self.scale as nat);
            assert(b != 0) by (nonlinear_arith)
                requires
                    b == divisor.mantissa * pow10(self.scale as nat),
                    divisor.mantissa != 0,
                    pow10(self.scale as nat) > 0,
            ;
        }
        if b > 0 {
            Some(Decimal { mantissa: div_round(a, b), scale: 2 })
        } else if b == i128::MIN {
            None
        } else {
            Some(Decimal { mantissa: div_round(-a, -b), scale: 2 })
        }
    }
}

/// A decimal text read as a mantissa and a scale, when it is a number.
///
/// Trusted: `rust_decimal::Decimal::from_str`. What it accepts is named, not stated.
#[verifier::external_body]
fn parse_decimal_parts(text: &str) -> (r: Option<(i128, u32)>)
    ensures
        match r {
            Some((m, s)) => spec_parse_decimal(text@) == Some((m as int, s as nat)),
            None => spec_parse_decimal(text@) is None,
        },
{
    text.parse::<rust_decimal::Decimal>().ok().map(|d| (d.mantissa(), d.scale()))
}

impl Decimal {
    /// The decimal a text denotes, when it is a number.
    pub fn parse(text: &str) -> (r: Option<Decimal>)
        ensures
            match spec_parse_decimal(text@) {
                Some((m, s)) => r matches Some(d) && d@ == (DecimalView { mantissa: m, scale: s }),
                None => r is None,
            },
    {
        match parse_decimal_parts(text) {
            Some((mantissa, scale)) => Some(Decimal { mantissa, scale }),
            None => None,
        }
    }
}

} // verus!
