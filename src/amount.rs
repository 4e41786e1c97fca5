//! 256-bit unsigned amounts of the base currency unit.

use casper_types::U256;
use vstd::prelude::*;

verus! {

/// The base of one 64-bit word.
pub open spec fn word_base() -> int {
    0x1_0000_0000_0000_0000
}

/// One more than the largest 256-bit amount.
pub open spec fn amount_limit() -> int {
    word_base() * word_base() * word_base() * word_base()
}

/// An unsigned 256-bit amount, as four little-endian 64-bit words.
#[derive(Clone, Copy, Debug, PartialEq, Eq, Structural)]
pub struct Amount {
    pub w0: u64,
    pub w1: u64,
    pub w2: u64,
    pub w3: u64,
}

impl View for Amount {
    type V = nat;

    open spec fn view(&self) -> nat {
        (self.w0 + word_base() * (self.w1 + word_base() * (self.w2 + word_base() * self.w3))) as nat
    }
}

impl Amount {
    /// The amount zero.
    pub fn zero() -> (r: Amount)
        ensures
            r@ == 0,
    {
        Amount { w0: 0, w1: 0, w2: 0, w3: 0 }
    }

    /// The amount `v`.
    pub fn from_u64(v: u64) -> (r: Amount)
        ensures
            r@ == v,
    {
        Amount { w0: v, w1: 0, w2: 0, w3: 0 }
    }

    /// Whether the amount is zero.
    pub fn is_zero(&self) -> (r: bool)
        ensures
            r == (self@ == 0),
    {
        proof {
            lemma_amount_zero_words(*self);
        }
        self.w0 == 0 && self.w1 == 0 && self.w2 == 0 && self.w3 == 0
    }
}

proof fn lemma_amount_zero_words(a: Amount)
    ensures
        a@ == 0 <==> (a.w0 == 0 && a.w1 == 0 && a.w2 == 0 && a.w3 == 0),
{
    let b = word_base();
    let t2 = a.w2 + b * a.w3;
    let t1 = a.w1 + b * t2;
    assert(t2 >= 0) by (nonlinear_arith)
        requires a.w2 >= 0, a.w3 >= 0, b > 0, t2 == a.w2 + b * a.w3;
    assert(t1 >= 0) by (nonlinear_arith)
        requires a.w1 >= 0, t2 >= 0, b > 0, t1 == a.w1 + b * t2;
    assert(t2 == 0 ==> a.w3 == 0) by (nonlinear_arith)
        requires a.w2 >= 0, a.w3 >= 0, b > 0, t2 == a.w2 + b * a.w3;
    assert(t1 == 0 ==> t2 == 0) by (nonlinear_arith)
        requires a.w1 >= 0, t2 >= 0, b > 0, t1 == a.w1 + b * t2;
    assert(a.w0 + b * t1 == 0 ==> t1 == 0) by (nonlinear_arith)
        requires a.w0 >= 0, t1 >= 0, b > 0;
}

/// Relies on the `<` of `casper_types::U256` (uint's `Ord`, which compares the
/// little-endian words from the most significant one down).
#[verifier::external_body]
pub(crate) fn lt(a: Amount, b: Amount) -> (r: bool)
    ensures
        r == (a@ < b@),
{
    U256([a.w0, a.w1, a.w2, a.w3]) < U256([b.w0, b.w1, b.w2, b.w3])
}

/// Relies on `U256::checked_add`: the sum, or `None` where it would not fit in
/// 256 bits.
#[verifier::external_body]
pub(crate) fn checked_add(a: Amount, b: Amount) -> (r: Option<Amount>)
    ensures
        r is Some <==> a@ + b@ < amount_limit(),
        r matches Some(s) ==> s@ == a@ + b@,
{
    U256([a.w0, a.w1, a.w2, a.w3])
        .checked_add(U256([b.w0, b.w1, b.w2, b.w3]))
        .map(|v| Amount { w0: v.0[0], w1: v.0[1], w2: v.0[2], w3: v.0[3] })
}

/// Relies on the `-` of `casper_types::U256`, which panics only when `b > a`.
#[verifier::external_body]
pub(crate) fn difference(a: Amount, b: Amount) -> (r: Amount)
    requires
        b@ <= a@,
    ensures
        r@ == a@ - b@,
{
    let v = U256([a.w0, a.w1, a.w2, a.w3]) - U256([b.w0, b.w1, b.w2, b.w3]);
    Amount { w0: v.0[0], w1: v.0[1], w2: v.0[2], w3: v.0[3] }
}

/// Relies on `U256::checked_mul`: the product, or `None` where it would not fit
/// in 256 bits.
#[verifier::external_body]
pub(crate) fn checked_mul(a: Amount, m: u64) -> (r: Option<Amount>)
    ensures
        r is Some <==> a@ * m < amount_limit(),
        r matches Some(p) ==> p@ == a@ * m,
{
    U256([a.w0, a.w1, a.w2, a.w3])
        .checked_mul(U256::from(m))
        .map(|v| Amount { w0: v.0[0], w1: v.0[1], w2: v.0[2], w3: v.0[3] })
}

/// Relies on the `/` of `casper_types::U256` by a `u64`: the quotient rounded
/// down; it panics only on a zero divisor.
#[verifier::external_body]
pub(crate) fn div(a: Amount, d: u64) -> (r: Amount)
    requires
        d > 0,
    ensures
        r@ == a@ / (d as nat),
{
    let v = U256([a.w0, a.w1, a.w2, a.w3]) / d;
    Amount { w0: v.0[0], w1: v.0[1], w2: v.0[2], w3: v.0[3] }
}

} // verus!

verus! {

/// The amount whose value is `n` (for `n` below the limit).
pub open spec fn amount_of(n: nat) -> Amount {
    let n = n as int;
    let b = word_base();
    Amount {
        w0: (n % b) as u64,
        w1: ((n / b) % b) as u64,
        w2: ((n / b / b) % b) as u64,
        w3: (n / b / b / b) as u64,
    }
}

/// An amount is determined by its value.
pub proof fn lemma_amount_canonical(a: Amount)
    ensures
        amount_of(a@) == a,
{
    let b = word_base();
    let t2 = a.w2 + b * a.w3;
    let t1 = a.w1 + b * t2;
    let n = a.w0 + b * t1;
    assert(t2 >= 0 && t1 >= 0) by (nonlinear_arith)
        requires a.w1 >= 0, a.w2 >= 0, a.w3 >= 0, b > 0, t2 == a.w2 + b * a.w3, t1 == a.w1 + b * t2;
    assert(n == a@);
    vstd::arithmetic::div_mod::lemma_fundamental_div_mod_converse(n, b, t1, a.w0 as int);
    vstd::arithmetic::div_mod::lemma_fundamental_div_mod_converse(t1, b, t2, a.w1 as int);
    vstd::arithmetic::div_mod::lemma_fundamental_div_mod_converse(t2, b, a.w3 as int, a.w2 as int);
}

} // verus!
