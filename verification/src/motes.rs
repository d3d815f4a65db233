//! Amounts of native tokens (motes) held as the 512-bit unsigned integers
//! that the chain uses. Arithmetic is done by `U512` of `casper_types`.

use vstd::prelude::*;
use vstd::arithmetic::power2::pow2;
use casper_types::U512;

verus! {

/// The value of little-endian 64-bit words.
pub open spec fn words_value(w: Seq<u64>) -> nat
    decreases w.len(),
{
    if w.len() == 0 {
        0
    } else {
        w[0] as nat + 0x1_0000_0000_0000_0000 * words_value(w.drop_first())
    }
}

/// One more than the largest amount a `U512` holds.
pub open spec fn motes_bound() -> nat {
    pow2(512)
}

/// Basis points in one whole (100%).
pub const BPS_DENOM: u32 = 10_000;

/// The share of `amount` given in basis points, rounded down.
pub open spec fn bps_of(amount: nat, bps: nat) -> nat {
    amount * bps / 10_000
}

/// An amount in motes: the eight little-endian words of a `U512`.
#[derive(Clone, Copy, Debug, PartialEq, Eq)]
pub struct Motes {
    words: [u64; 8],
}

impl View for Motes {
    type V = nat;

    closed spec fn view(&self) -> nat {
        words_value(self.words@)
    }
}

/// `U512::from(u64)`: the number itself.
#[verifier::external_body]
fn u512_from_u64(x: u64) -> (r: Motes)
    ensures
        r@ == x,
{
    Motes { words: U512::from(x).0 }
}

/// `U512 + U512`, which panics on overflow: the sum.
#[verifier::external_body]
fn u512_add(a: &Motes, b: &Motes) -> (r: Motes)
    requires
        a@ + b@ < motes_bound(),
    ensures
        r@ == a@ + b@,
{
    Motes { words: (U512(a.words) + U512(b.words)).0 }
}

/// `U512 - U512`, which panics on underflow: the difference.
#[verifier::external_body]
fn u512_sub(a: &Motes, b: &Motes) -> (r: Motes)
    requires
        b@ <= a@,
    ensures
        r@ == a@ - b@,
{
    Motes { words: (U512(a.words) - U512(b.words)).0 }
}

/// `U512 * U512`, which panics on overflow: the product.
#[verifier::external_body]
fn u512_mul(a: &Motes, b: &Motes) -> (r: Motes)
    requires
        a@ * b@ < motes_bound(),
    ensures
        r@ == a@ * b@,
{
    Motes { words: (U512(a.words) * U512(b.words)).0 }
}

/// `U512 / U512`, which panics on a zero divisor: the quotient rounded down.
#[verifier::external_body]
fn u512_div(a: &Motes, b: &Motes) -> (r: Motes)
    requires
        b@ > 0,
    ensures
        r@ == a@ / b@,
{
    Motes { words: (U512(a.words) / U512(b.words)).0 }
}

/// `U512 % U512`, which panics on a zero divisor: the remainder.
#[verifier::external_body]
fn u512_rem(a: &Motes, b: &Motes) -> (r: Motes)
    requires
        b@ > 0,
    ensures
        r@ == a@ % b@,
{
    Motes { words: (U512(a.words) % U512(b.words)).0 }
}

/// `U512::is_zero`: whether the value is zero.
#[verifier::external_body]
fn u512_is_zero(a: &Motes) -> (r: bool)
    ensures
        r == (a@ == 0),
{
    U512(a.words).is_zero()
}

/// `U512 <= U512` (the order of the numbers).
#[verifier::external_body]
fn u512_le(a: &Motes, b: &Motes) -> (r: bool)
    ensures
        r == (a@ <= b@),
{
    U512(a.words) <= U512(b.words)
}

/// `U512::low_u64`: the lowest word, which is the value when it fits.
#[verifier::external_body]
fn u512_low_u64(a: &Motes) -> (r: u64)
    ensures
        a@ <= u64::MAX ==> r == a@,
{
    U512(a.words).low_u64()
}

impl Motes {
    /// The amount `x` motes.
    pub fn from_u64(x: u64) -> (r: Motes)
        ensures
            r@ == x,
    {
        u512_from_u64(x)
    }

    /// No motes.
    pub fn zero() -> (r: Motes)
        ensures
            r@ == 0,
    {
        u512_from_u64(0)
    }

    /// The amount whose little-endian words are `words`.
    pub fn from_words(words: [u64; 8]) -> (r: Motes)
        ensures
            r@ == words_value(words@),
    {
        Motes { words }
    }

    /// The little-endian words of the amount.
    pub fn words(&self) -> (r: [u64; 8])
        ensures
            words_value(r@) == self@,
    {
        self.words
    }

    /// Whether the amount is zero.
    pub fn is_zero(&self) -> (r: bool)
        ensures
            r == (self@ == 0),
    {
        u512_is_zero(self)
    }

    /// Whether `self` is at most `other`.
    pub fn le(&self, other: &Motes) -> (r: bool)
        ensures
            r == (self@ <= other@),
    {
        u512_le(self, other)
    }

    /// The sum; the caller rules out overflow.
    pub fn add(&self, other: &Motes) -> (r: Motes)
        requires
            self@ + other@ < motes_bound(),
        ensures
            r@ == self@ + other@,
    {
        u512_add(self, other)
    }

    /// The difference; the caller rules out underflow.
    pub fn sub(&self, other: &Motes) -> (r: Motes)
        requires
            other@ <= self@,
        ensures
            r@ == self@ - other@,
    {
        u512_sub(self, other)
    }

    /// `self * bps / 10_000` as the protocol computes a share in basis
    /// points; the caller rules out overflow of the product.
    pub fn bps_share(&self, bps: u32) -> (r: Motes)
        requires
            self@ * bps < motes_bound(),
        ensures
            r@ == bps_of(self@, bps as nat),
    {
        let factor = u512_from_u64(bps as u64);
        let product = u512_mul(self, &factor);
        let denom = u512_from_u64(BPS_DENOM as u64);
        u512_div(&product, &denom)
    }

    /// The whole and fractional parts of the amount in units of
    /// `10^9` motes (one CSPR).
    pub fn split_cspr(&self) -> (r: (Motes, u64))
        ensures
            r.0@ == self@ / 1_000_000_000,
            r.1 == self@ % 1_000_000_000,
    {
        let unit = u512_from_u64(1_000_000_000);
        let whole = u512_div(self, &unit);
        let frac = u512_rem(self, &unit);
        let low = u512_low_u64(&frac);
        (whole, low)
    }
}

/// A share in basis points of at most the whole is at most the amount.
pub proof fn lemma_bps_of_le(amount: nat, bps: nat)
    requires
        bps <= 10_000,
    ensures
        bps_of(amount, bps) <= amount,
{
    assert(amount * bps <= amount * 10_000) by (nonlinear_arith)
        requires bps <= 10_000;
    assert((amount * bps) / 10_000 <= (amount * 10_000) / 10_000) by (nonlinear_arith)
        requires amount * bps <= amount * 10_000;
    assert((amount * 10_000) / 10_000 == amount) by (nonlinear_arith);
}

} // verus!
