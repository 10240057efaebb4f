//! The priced parts of an invoice: allowances and charges, prices, and the net amount of a line.

use vstd::prelude::*;
use crate::decimal::{
    Decimal, DecimalView, fits, pow10, spec_add, spec_mul, spec_neg, spec_quotient_2dp,
    spec_quotient_fits, spec_round_dp, spec_sub, spec_is_zero,
};
use crate::values::{NonEmptyString, Percentage, Quantity};
use crate::vat::VatTreatment;

verus! {

/// The amount of an adjustment: a fixed sum, or a percentage of a base.
#[derive(Debug, PartialEq, Eq)]
pub enum Amount {
    /// A fixed amount (`BT-92`/`BT-99`/`BT-136`/`BT-141`).
    Absolute(Decimal),
    /// A percentage of a base
    /// (`BT-94`/`BT-101`/`BT-138`/`BT-143` of `BT-93`/`BT-100`/`BT-137`/ `BT-142`).
    Relative {
        /// The percentage rate applied to the base.
        rate: Percentage,
        /// The base the rate is applied to.
        base: Decimal,
    },
}

/// The reason for an adjustment, keyed by its direction: an allowance or a charge.
/// The direction selects the reason code list
/// (`UNCL5189` for an allowance, `UNCL7161` for a charge), whose code is kept as written.
#[derive(Debug, PartialEq, Eq)]
pub enum Reason {
    /// An allowance (a deduction).
    Allowance {
        /// Reason code (`BT-98`/`BT-140`).
        code: Option<NonEmptyString>,
        /// Reason text (`BT-97`/`BT-139`).
        text: Option<NonEmptyString>,
    },
    /// A charge (an addition).
    Charge {
        /// Reason code (`BT-105`/`BT-145`).
        code: Option<NonEmptyString>,
        /// Reason text (`BT-104`/`BT-144`).
        text: Option<NonEmptyString>,
    },
}

/// A document-level adjustment (`BG-20` allowance, `BG-21` charge):
/// a deduction or addition applied to the whole invoice.
/// The `reason` direction tells an allowance from a charge.
///
/// All its amounts are in the invoice currency (`BT-5`).
#[derive(Debug, PartialEq, Eq)]
pub struct Adjustment {
    /// Amount (`BT-92`/`BT-99`+`BT-93`+`BT-94`/`BT-100`+`BT-101`).
    pub amount: Amount,
    /// VAT treatment (`BT-95`+`BT-96`/`BT-102`+`BT-103`).
    pub vat: VatTreatment,
    /// Reason and direction (`BT-97`+`BT-98`/`BT-104`+`BT-105`).
    pub reason: Reason,
}

/// A line-level adjustment (`BG-27` allowance, `BG-28` charge):
/// a deduction or addition applied to one invoice line.
/// The line carries its own VAT, so no VAT treatment appears here.
///
/// All its amounts are in the invoice currency (`BT-5`).
#[derive(Debug, PartialEq, Eq)]
pub struct LineAdjustment {
    /// Amount (`BT-136`/`BT-141`+`BT-137`+`BT-138`/`BT-142`+`BT-143`).
    pub amount: Amount,
    /// Reason and direction (`BT-139`+`BT-140`/`BT-144`+`BT-145`).
    pub reason: Reason,
}

/// Price details (`BG-29`): the item price and the quantity it applies to.
///
/// Amounts are in the invoice currency (`BT-5`).
/// The price is stated per base quantity, not per single unit,
/// so a price of `5.00` over a base quantity of `1000` means `0.005` per unit.
/// The net price (`BT-146`) is `gross - discount`.
#[derive(Debug, PartialEq, Eq)]
pub struct Price {
    /// Gross price (`BT-148`): the price before the discount, always present.
    pub gross: Decimal,
    /// Price discount (`BT-147`).
    pub discount: Option<Decimal>,
    /// Base quantity (`BT-149`+`BT-150`).
    pub base_quantity: Option<Quantity>,
}

/// An amount rounded to the two places of the currency, halves away from zero.
pub open spec fn spec_rounded(d: DecimalView) -> DecimalView {
    spec_round_dp(d, 2)
}

/// The rounding of the invoice: an amount to two places, halves away from zero.
pub fn rounded(d: Decimal) -> (r: Decimal)
    ensures
        r@ == spec_rounded(d@),
{
    d.round_dp(2)
}

/// The amount an adjustment amount stands for: the fixed sum, or the base times the rate
/// over one hundred, rounded.
pub open spec fn spec_amount_value(a: Amount) -> DecimalView {
    match a {
        Amount::Absolute(v) => v@,
        Amount::Relative { rate, base } => spec_rounded(
            DecimalView {
                mantissa: base@.mantissa * rate@.mantissa,
                scale: base@.scale + rate@.scale + 2,
            },
        ),
    }
}

/// Whether the amount can be computed within the range of the mantissa.
pub open spec fn spec_amount_fits(a: Amount) -> bool {
    match a {
        Amount::Absolute(_) => true,
        Amount::Relative { rate, base } => fits(base@.mantissa * rate@.mantissa) && base@.scale
            + rate@.scale + 2 <= u32::MAX,
    }
}

impl Amount {
    /// The adjustment amount (`BT-92`/`BT-99`/`BT-136`/`BT-141`):
    /// the fixed sum, or the base times the rate, rounded.
    #[verifier::spinoff_prover]
    #[verifier::rlimit(50)]
    pub fn value(&self) -> (r: Decimal)
        requires
            spec_amount_fits(*self),
        ensures
            r@ == spec_amount_value(*self),
    {
        match self {
            Amount::Absolute(value) => *value,
            Amount::Relative { rate, base } => {
                let product = base.checked_mul(&rate.value()).unwrap();
                let hundredth = product.shifted(2).unwrap();
                rounded(hundredth)
            },
        }
    }
}

/// The amount of a line adjustment signed by its direction.
pub open spec fn spec_signed_amount(a: LineAdjustment) -> DecimalView {
    match a.reason {
        Reason::Charge { .. } => spec_amount_value(a.amount),
        Reason::Allowance { .. } => spec_neg(spec_amount_value(a.amount)),
    }
}

/// Whether the signed amount can be computed within the range of the mantissa.
pub open spec fn spec_signed_fits(a: LineAdjustment) -> bool {
    &&& spec_amount_fits(a.amount)
    &&& (a.reason is Allowance ==> fits(-spec_amount_value(a.amount).mantissa))
}

impl LineAdjustment {
    /// The amount signed by direction: positive for a charge, negative for an allowance.
    #[verifier::spinoff_prover]
    #[verifier::rlimit(50)]
    pub fn signed_amount(&self) -> (r: Decimal)
        requires
            spec_signed_fits(*self),
        ensures
            r@ == spec_signed_amount(*self),
    {
        match self.reason {
            Reason::Charge { .. } => self.amount.value(),
            Reason::Allowance { .. } => self.amount.value().checked_neg().unwrap(),
        }
    }
}

/// Whether the sum of two decimals can be taken within the range of the mantissa.
pub open spec fn spec_add_fits(a: DecimalView, b: DecimalView) -> bool {
    let s = spec_add(a, b).scale;
    &&& fits(a.mantissa * pow10((s - a.scale) as nat))
    &&& fits(b.mantissa * pow10((s - b.scale) as nat))
    &&& fits(spec_add(a, b).mantissa)
}

/// The net price of a price: the gross less the discount, if any.
pub open spec fn spec_net(p: Price) -> DecimalView {
    match p.discount {
        Some(d) => spec_sub(p.gross@, d@),
        None => spec_sub(p.gross@, DecimalView { mantissa: 0, scale: 0 }),
    }
}

/// Whether the net price can be computed within the range of the mantissa.
pub open spec fn spec_net_fits(p: Price) -> bool {
    let d = match p.discount {
        Some(d) => d@,
        None => DecimalView { mantissa: 0, scale: 0 },
    };
    fits(-d.mantissa) && spec_add_fits(p.gross@, spec_neg(d))
}

impl Price {
    /// The net price (`BT-146`): the gross price less the discount.
    #[verifier::spinoff_prover]
    #[verifier::rlimit(50)]
    pub fn net(&self) -> (r: Decimal)
        requires
            spec_net_fits(*self),
        ensures
            r@ == spec_net(*self),
    {
        let discount = match &self.discount {
            Some(d) => *d,
            None => Decimal::zero(),
        };
        self.gross.checked_sub(&discount).unwrap()
    }
}

/// The sum of the signed amounts of line adjustments, from zero.
pub open spec fn spec_adjustments_sum(adjustments: Seq<LineAdjustment>) -> DecimalView
    decreases adjustments.len(),
{
    if adjustments.len() == 0 {
        DecimalView { mantissa: 0, scale: 0 }
    } else {
        spec_add(
            spec_adjustments_sum(adjustments.drop_last()),
            spec_signed_amount(adjustments.last()),
        )
    }
}

/// Whether the sum can be taken, one adjustment after the other, within the range of the mantissa.
pub open spec fn spec_adjustments_fit(adjustments: Seq<LineAdjustment>) -> bool
    decreases adjustments.len(),
{
    adjustments.len() == 0 || {
        &&& spec_adjustments_fit(adjustments.drop_last())
        &&& spec_signed_fits(adjustments.last())
        &&& spec_add_fits(
            spec_adjustments_sum(adjustments.drop_last()),
            spec_signed_amount(adjustments.last()),
        )
    }
}

// A sum that can be taken over a list can be taken over each of its prefixes.
proof fn lemma_adjustments_fit_prefix(adjustments: Seq<LineAdjustment>, i: int)
    requires
        0 <= i <= adjustments.len(),
        spec_adjustments_fit(adjustments),
    ensures
        spec_adjustments_fit(adjustments.take(i)),
    decreases adjustments.len() - i,
{
    if i < adjustments.len() {
        lemma_adjustments_fit_prefix(adjustments, i + 1);
        assert(adjustments.take(i + 1).drop_last() =~= adjustments.take(i));
    } else {
        assert(adjustments.take(i) =~= adjustments);
    }
}

/// The sum of the signed amounts of line adjustments.
#[verifier::spinoff_prover]
#[verifier::rlimit(50)]
pub fn adjustments_sum(adjustments: &Vec<LineAdjustment>) -> (r: Decimal)
    requires
        spec_adjustments_fit(adjustments@),
    ensures
        r@ == spec_adjustments_sum(adjustments@),
{
    let mut sum = Decimal::zero();
    let mut i: usize = 0;
    proof {
        assert(adjustments@.take(0) =~= Seq::<LineAdjustment>::empty());
    }
    while i < adjustments.len()
        invariant
            i <= adjustments@.len(),
            spec_adjustments_fit(adjustments@),
            sum@ == spec_adjustments_sum(adjustments@.take(i as int)),
        decreases adjustments@.len() - i,
    {
        proof {
            lemma_adjustments_fit_prefix(adjustments@, i + 1);
            assert(adjustments@.take(i + 1).drop_last() =~= adjustments@.take(i as int));
            assert(adjustments@.take(i + 1).last() == adjustments@[i as int]);
        }
        let signed = adjustments[i].signed_amount();
        sum = sum.checked_add(&signed).unwrap();
        i = i + 1;
    }
    assert(adjustments@.take(i as int) =~= adjustments@);
    sum
}

} // verus!
