use vstd::prelude::*;
use alloy::primitives::{U256, U512};
use std::str::FromStr;

verus! {

/// 2^64, the weight of one limb.
pub open spec fn limb_base() -> nat {
    18446744073709551616nat
}

/// 2^256, one past the largest 256-bit amount.
pub open spec fn amount_bound() -> nat {
    limb_base() * limb_base() * limb_base() * limb_base()
}

/// Value of four little-endian 64-bit limbs.
pub open spec fn limbs_value(l0: u64, l1: u64, l2: u64, l3: u64) -> nat {
    l0 as nat + limb_base() * (l1 as nat + limb_base() * (l2 as nat + limb_base() * (l3 as nat)))
}

/// Denominator of a scaled percentage: 1% is 10_000.
pub const PERCENT_PRECISION: u64 = 1_000_000;

/// A 256-bit unsigned token amount, held as little-endian 64-bit limbs.
#[derive(Clone, Copy, Debug, PartialEq, Eq)]
pub struct Amount {
    pub limbs: [u64; 4],
}

/// A 512-bit unsigned intermediate, wide enough for the product of two amounts.
#[derive(Clone, Copy, Debug, PartialEq, Eq)]
pub struct Wide {
    pub low: Amount,
    pub high: Amount,
}

impl Amount {
    pub open spec fn value(&self) -> nat {
        limbs_value(self.limbs[0], self.limbs[1], self.limbs[2], self.limbs[3])
    }

    pub fn from_u64(x: u64) -> (r: Amount)
        ensures
            r.value() == x as nat,
    {
        Amount { limbs: [x, 0, 0, 0] }
    }

    pub fn zero() -> (r: Amount)
        ensures
            r.value() == 0,
    {
        Amount { limbs: [0, 0, 0, 0] }
    }
}

impl Wide {
    pub open spec fn value(&self) -> nat {
        self.low.value() + amount_bound() * self.high.value()
    }
}

pub proof fn lemma_amount_below_bound(a: Amount)
    ensures
        a.value() < amount_bound(),
{
    let b = limb_base();
    let (l0, l1, l2, l3) = (a.limbs[0] as nat, a.limbs[1] as nat, a.limbs[2] as nat, a.limbs[3] as nat);
    assert(l2 + b * l3 < b * b) by (nonlinear_arith)
        requires l2 < b, l3 < b;
    assert(l1 + b * (l2 + b * l3) < b * b * b) by (nonlinear_arith)
        requires l1 < b, l2 + b * l3 < b * b;
    assert(l0 + b * (l1 + b * (l2 + b * l3)) < b * b * b * b) by (nonlinear_arith)
        requires l0 < b, l1 + b * (l2 + b * l3) < b * b * b;
}

/// Name for what ruint's `FromStr` for `U256` yields on a text: the amount, or
/// `None` where the text is rejected.
pub uninterp spec fn amount_text_value(s: Seq<char>) -> Option<nat>;

pub open spec fn is_decimal_digit(c: char) -> bool {
    '0' <= c && c <= '9'
}

/// Value of a text of decimal digits.
pub open spec fn decimal_value(s: Seq<char>) -> nat
    decreases s.len(),
{
    if s.len() == 0 {
        0
    } else {
        10 * decimal_value(s.drop_last()) + ((s.last() as int) - ('0' as int)) as nat
    }
}

pub open spec fn is_decimal_text(s: Seq<char>) -> bool {
    s.len() > 0 && forall|i: int| 0 <= i < s.len() ==> is_decimal_digit(#[trigger] s[i])
}

/// Whether a text opens with a radix prefix (`0x`, `0o`, `0b`, either case).
pub open spec fn has_radix_prefix(s: Seq<char>) -> bool {
    s.len() >= 2 && s[0] == '0' && (s[1] == 'x' || s[1] == 'X' || s[1] == 'o' || s[1] == 'O'
        || s[1] == 'b' || s[1] == 'B')
}

/// A text without a radix prefix that holds a character which is neither a
/// decimal digit nor `_`.
pub open spec fn is_non_numeric_text(s: Seq<char>) -> bool {
    !has_radix_prefix(s) && exists|i: int|
        0 <= i < s.len() && !is_decimal_digit(#[trigger] s[i]) && s[i] != '_'
}

/// Relies on ruint's `FromStr` for `U256`: decimal text gives its value when it
/// is below 2^256; a text without radix prefix holding a character other than a
/// decimal digit or `_` is rejected.
#[verifier::external_body]
pub(crate) fn parse_u256(s: &str) -> (r: Option<Amount>)
    ensures
        r matches Some(a) ==> amount_text_value(s@) == Some(a.value()),
        r is None <==> amount_text_value(s@) is None,
        is_decimal_text(s@) ==> (r is Some <==> decimal_value(s@) < amount_bound()),
        is_decimal_text(s@) && r is Some ==> r.unwrap().value() == decimal_value(s@),
        is_non_numeric_text(s@) ==> r is None,
{
    U256::from_str(s).ok().map(|v| Amount { limbs: v.into_limbs() })
}

/// Relies on ruint's `<` for `U256`, which orders by numeric value.
#[verifier::external_body]
pub(crate) fn u256_lt(a: Amount, b: Amount) -> (r: bool)
    ensures
        r == (a.value() < b.value()),
{
    U256::from_limbs(a.limbs) < U256::from_limbs(b.limbs)
}

/// Relies on ruint's `widening_mul`: the full 512-bit product of two 256-bit values.
#[verifier::external_body]
pub(crate) fn u256_widening_mul(a: Amount, b: Amount) -> (r: Wide)
    ensures
        r.value() == a.value() * b.value(),
{
    let p: U512 = U256::from_limbs(a.limbs).widening_mul(U256::from_limbs(b.limbs));
    let l = p.into_limbs();
    Wide {
        low: Amount { limbs: [l[0], l[1], l[2], l[3]] },
        high: Amount { limbs: [l[4], l[5], l[6], l[7]] },
    }
}

/// Relies on ruint's `/` for `U512`: the floor of the quotient, for a divisor
/// that is not zero.
#[verifier::external_body]
pub(crate) fn u512_div(a: Wide, d: u64) -> (r: Wide)
    requires
        d > 0,
    ensures
        r.value() == a.value() / (d as nat),
{
    let l = [a.low.limbs, a.high.limbs].concat();
    let q = U512::from_limbs_slice(&l) / U512::from(d);
    let l = q.into_limbs();
    Wide {
        low: Amount { limbs: [l[0], l[1], l[2], l[3]] },
        high: Amount { limbs: [l[4], l[5], l[6], l[7]] },
    }
}

/// The 256-bit amount equal to `w`, where there is one.
pub fn narrow(w: Wide) -> (r: Option<Amount>)
    ensures
        r is Some <==> w.value() < amount_bound(),
        r matches Some(a) ==> a.value() == w.value(),
{
    let h = w.high.limbs;
    if h[0] == 0 && h[1] == 0 && h[2] == 0 && h[3] == 0 {
        Some(w.low)
    } else {
        proof {
            lemma_amount_below_bound(w.low);
            assert(w.high.value() >= 1);
            assert(amount_bound() * w.high.value() >= amount_bound()) by (nonlinear_arith)
                requires w.high.value() >= 1;
        }
        None
    }
}

/// The exact debit `floor(balance * scaled_percent / 1_000_000)`, which may
/// exceed 256 bits when the percentage is above one hundred.
pub open spec fn resolved_debit(balance: nat, scaled_percent: nat) -> nat {
    balance * scaled_percent / (PERCENT_PRECISION as nat)
}

/// Resolves the amount a wallet must have approved before a collection.
pub fn resolve_debit(balance: Amount, scaled_percent: Amount) -> (r: Wide)
    ensures
        r.value() == resolved_debit(balance.value(), scaled_percent.value()),
{
    let p = u256_widening_mul(balance, scaled_percent);
    u512_div(p, PERCENT_PRECISION)
}

/// Whether an allowance is strictly below a required debit.
pub fn allowance_below(allowance: Amount, required: Wide) -> (r: bool)
    ensures
        r == (allowance.value() < required.value()),
{
    match narrow(required) {
        Some(req) => u256_lt(allowance, req),
        None => {
            proof {
                lemma_amount_below_bound(allowance);
            }
            true
        },
    }
}

} // verus!
