//! Amounts in base units ("wei").
//!
//! A [`Wei`] is one 256-bit on-chain amount, a [`WeiTotal`] a 512-bit sum of
//! such amounts. Both hold little-endian 64-bit limbs, and their views are the
//! natural numbers that the limbs spell. Parsing, printing and adding are done
//! by the `alloy` integer types behind small trusted functions.

use alloy::primitives::{U256, U512};
use std::str::FromStr;
use vstd::prelude::*;

verus! {

/// The number of values of a 64-bit limb, `2^64`.
pub open spec fn limb_base() -> nat {
    0x1_0000_0000_0000_0000
}

/// One more than the largest [`Wei`], `2^256`.
pub open spec fn wei_limit() -> nat {
    limb_base() * limb_base() * limb_base() * limb_base()
}

/// One more than the largest [`WeiTotal`], `2^512`.
pub open spec fn total_limit() -> nat {
    wei_limit() * wei_limit()
}

/// The number that four little-endian limbs spell.
pub open spec fn limbs4_value(l: Seq<u64>) -> nat
    recommends
        l.len() == 4,
{
    l[0] as nat + limb_base() * (l[1] as nat + limb_base() * (l[2] as nat + limb_base() * (
    l[3] as nat)))
}

/// The number that eight little-endian limbs spell.
pub open spec fn limbs8_value(l: Seq<u64>) -> nat
    recommends
        l.len() == 8,
{
    limbs4_value(l.subrange(0, 4)) + wei_limit() * limbs4_value(l.subrange(4, 8))
}

/// The character of one decimal digit.
pub open spec fn digit_char(d: nat) -> char
    recommends
        d < 10,
{
    if d == 0 {
        '0'
    } else if d == 1 {
        '1'
    } else if d == 2 {
        '2'
    } else if d == 3 {
        '3'
    } else if d == 4 {
        '4'
    } else if d == 5 {
        '5'
    } else if d == 6 {
        '6'
    } else if d == 7 {
        '7'
    } else if d == 8 {
        '8'
    } else {
        '9'
    }
}

/// The decimal text of a number: its digits, most significant first, with no
/// leading zero, and `"0"` for zero.
pub open spec fn decimal_text(n: nat) -> Seq<char>
    decreases n,
{
    if n < 10 {
        seq![digit_char(n)]
    } else {
        decimal_text(n / 10).push(digit_char(n % 10))
    }
}

/// What `U256::from_str` makes of a text: the number it reads, or `None`
/// where it refuses the text.
pub uninterp spec fn u256_from_str(text: Seq<char>) -> Option<nat>;

/// An amount of at most 256 bits.
#[derive(Clone, Copy, Debug)]
pub struct Wei {
    /// Little-endian limbs.
    pub limbs: [u64; 4],
}

/// A sum of amounts, of at most 512 bits.
#[derive(Clone, Copy, Debug)]
pub struct WeiTotal {
    /// Little-endian limbs.
    pub limbs: [u64; 8],
}

impl View for Wei {
    type V = nat;

    open spec fn view(&self) -> nat {
        limbs4_value(self.limbs@)
    }
}

impl View for WeiTotal {
    type V = nat;

    open spec fn view(&self) -> nat {
        limbs8_value(self.limbs@)
    }
}

/// Every amount lies below `2^256`.
pub proof fn lemma_wei_bounded(w: Wei)
    ensures
        w@ < wei_limit(),
{
    lemma_limbs4_bounded(w.limbs@);
}

/// Four limbs spell a number below `2^256`.
pub proof fn lemma_limbs4_bounded(l: Seq<u64>)
    requires
        l.len() == 4,
    ensures
        limbs4_value(l) < wei_limit(),
{
    let b = limb_base();
    let v3 = l[3] as nat;
    let v2 = l[2] as nat + b * v3;
    let v1 = l[1] as nat + b * v2;
    assert(v3 + 1 <= b);
    assert(b * v3 + b == b * (v3 + 1)) by (nonlinear_arith);
    assert(b * (v3 + 1) <= b * b) by (nonlinear_arith)
        requires
            v3 + 1 <= b,
    ;
    assert(v2 + 1 <= b * b);
    assert(b * v2 + b == b * (v2 + 1)) by (nonlinear_arith);
    assert(b * (v2 + 1) <= b * (b * b)) by (nonlinear_arith)
        requires
            v2 + 1 <= b * b,
    ;
    assert(v1 + 1 <= b * (b * b));
    assert(b * v1 + b == b * (v1 + 1)) by (nonlinear_arith);
    assert(b * (v1 + 1) <= b * (b * (b * b))) by (nonlinear_arith)
        requires
            v1 + 1 <= b * (b * b),
    ;
    assert(b * (b * (b * b)) == b * b * b * b) by (nonlinear_arith);
}

/// Four limbs spell zero exactly when each of them is zero.
pub proof fn lemma_limbs4_zero(l: Seq<u64>)
    requires
        l.len() == 4,
    ensures
        limbs4_value(l) == 0 <==> (l[0] == 0 && l[1] == 0 && l[2] == 0 && l[3] == 0),
{
    let b = limb_base();
    let v3 = l[3] as nat;
    let v2 = l[2] as nat + b * v3;
    let v1 = l[1] as nat + b * v2;
    assert(v3 > 0 ==> b * v3 > 0) by (nonlinear_arith)
        requires
            b > 0,
    ;
    assert(v2 > 0 ==> b * v2 > 0) by (nonlinear_arith)
        requires
            b > 0,
    ;
    assert(v1 > 0 ==> b * v1 > 0) by (nonlinear_arith)
        requires
            b > 0,
    ;
    assert(v3 == 0 ==> b * v3 == 0);
    assert(v2 == 0 ==> b * v2 == 0);
    assert(v1 == 0 ==> b * v1 == 0);
}

/// The sum of `count` amounts, one more added, still lies below `2^512`.
pub proof fn lemma_sum_fits(count: nat, sum: nat, next: nat)
    requires
        count < limb_base(),
        sum <= count * wei_limit(),
        next < wei_limit(),
    ensures
        sum + next < total_limit(),
        sum + next <= (count + 1) * wei_limit(),
{
    let b = limb_base();
    let w = wei_limit();
    assert((count + 1) * w == count * w + w) by (nonlinear_arith);
    assert(b <= w) by (nonlinear_arith)
        requires
            b >= 1,
            w == b * b * b * b,
    ;
    assert((count + 1) * w <= w * w) by (nonlinear_arith)
        requires
            count + 1 <= w,
    ;
}

/// `U256::from_str`, of the `alloy` crate. The result is whatever that
/// function makes of the text, named [`u256_from_str`]: `None` where it
/// refuses the text, else the number it read.
#[verifier::external_body]
fn u256_parse(text: &str) -> (r: Option<Wei>)
    ensures
        r is Some <==> u256_from_str(text@) is Some,
        r matches Some(w) ==> u256_from_str(text@) == Some(w@),
{
    match U256::from_str(text) {
        Ok(v) => Some(Wei { limbs: v.into_limbs() }),
        Err(_) => None,
    }
}

/// The `Display` of `alloy`'s `U256`, which writes the number in base ten
/// without sign, padding or leading zeros.
#[verifier::external_body]
fn u256_to_string(w: &Wei) -> (r: String)
    ensures
        r@ == decimal_text(w@),
{
    U256::from_limbs(w.limbs).to_string()
}

/// The `Display` of `alloy`'s `U512`, which writes the number in base ten
/// without sign, padding or leading zeros.
#[verifier::external_body]
fn u512_to_string(t: &WeiTotal) -> (r: String)
    ensures
        r@ == decimal_text(t@),
{
    U512::from_limbs(t.limbs).to_string()
}

/// `checked_add` of `alloy`'s `U512`, on a total and a widened amount: the
/// exact sum where it lies below `2^512`, else `None`.
#[verifier::external_body]
fn u512_checked_add(t: &WeiTotal, w: &Wei) -> (r: Option<WeiTotal>)
    ensures
        r is Some <==> t@ + w@ < total_limit(),
        r matches Some(s) ==> s@ == t@ + w@,
{
    match U512::from_limbs(t.limbs).checked_add(U512::from(U256::from_limbs(w.limbs))) {
        Some(v) => Some(WeiTotal { limbs: v.into_limbs() }),
        None => None,
    }
}

impl Wei {
    /// The amount zero.
    pub fn zero() -> (r: Wei)
        ensures
            r@ == 0,
    {
        Wei { limbs: [0, 0, 0, 0] }
    }

    /// The amount `v`.
    pub fn from_u64(v: u64) -> (r: Wei)
        ensures
            r@ == v,
    {
        Wei { limbs: [v, 0, 0, 0] }
    }

    /// Whether the amount is zero.
    pub fn is_zero(&self) -> (r: bool)
        ensures
            r == (self@ == 0),
    {
        proof {
            lemma_limbs4_zero(self.limbs@);
        }
        self.limbs[0] == 0 && self.limbs[1] == 0 && self.limbs[2] == 0 && self.limbs[3] == 0
    }

    /// Reads an amount from text. Which texts are accepted, and as what
    /// number, is decided by the integer parser behind [`u256_from_str`].
    pub fn parse(text: &str) -> (r: Option<Wei>)
        ensures
            r is Some <==> u256_from_str(text@) is Some,
            r matches Some(w) ==> u256_from_str(text@) == Some(w@),
    {
        u256_parse(text)
    }

    /// The amount in decimal.
    pub fn to_decimal(&self) -> (r: String)
        ensures
            r@ == decimal_text(self@),
    {
        u256_to_string(self)
    }
}

impl WeiTotal {
    /// The empty sum.
    pub fn zero() -> (r: WeiTotal)
        ensures
            r@ == 0,
    {
        let r = WeiTotal { limbs: [0, 0, 0, 0, 0, 0, 0, 0] };
        proof {
            lemma_limbs4_zero(r.limbs@.subrange(0, 4));
            lemma_limbs4_zero(r.limbs@.subrange(4, 8));
        }
        r
    }

    /// Whether the sum is zero.
    pub fn is_zero(&self) -> (r: bool)
        ensures
            r == (self@ == 0),
    {
        proof {
            let lo = self.limbs@.subrange(0, 4);
            let hi = self.limbs@.subrange(4, 8);
            lemma_limbs4_zero(lo);
            lemma_limbs4_zero(hi);
            let w = wei_limit();
            let h = limbs4_value(hi);
            assert(w > 0) by (nonlinear_arith)
                requires
                    w == limb_base() * limb_base() * limb_base() * limb_base(),
                    limb_base() > 0,
            ;
            assert(h > 0 ==> w * h > 0) by (nonlinear_arith)
                requires
                    w > 0,
            ;
            assert(h == 0 ==> w * h == 0) by (nonlinear_arith);
        }
        self.limbs[0] == 0 && self.limbs[1] == 0 && self.limbs[2] == 0 && self.limbs[3] == 0
            && self.limbs[4] == 0 && self.limbs[5] == 0 && self.limbs[6] == 0 && self.limbs[7]
            == 0
    }

    /// The sum with one more amount, where it still lies below `2^512`.
    pub fn checked_add(&self, w: &Wei) -> (r: Option<WeiTotal>)
        ensures
            r is Some <==> self@ + w@ < total_limit(),
            r matches Some(s) ==> s@ == self@ + w@,
    {
        u512_checked_add(self, w)
    }

    /// The sum in decimal.
    pub fn to_decimal(&self) -> (r: String)
        ensures
            r@ == decimal_text(self@),
    {
        u512_to_string(self)
    }
}

}
