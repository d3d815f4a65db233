//! Reading numbers given as decimal text (the walkthrough's settings), with
//! a default when the text is not a number.

use vstd::prelude::*;
use vstd::string::StringSliceAdditionalSpecFns;
use casper_types::U512;
use crate::motes::{Motes, motes_bound};

verus! {

/// Whether every byte is an ASCII decimal digit.
pub open spec fn all_digits(b: Seq<u8>) -> bool {
    forall|i: int| 0 <= i < b.len() ==> 48 <= #[trigger] b[i] <= 57
}

/// The number that the decimal digits `b` write.
pub open spec fn decimal_value(b: Seq<u8>) -> nat
    decreases b.len(),
{
    if b.len() == 0 {
        0
    } else {
        decimal_value(b.drop_last()) * 10 + (b.last() - 48) as nat
    }
}

/// The number that `b` writes in the syntax of std's unsigned integer
/// parsing: an optional `+`, then at least one decimal digit.
pub open spec fn unsigned_decimal(b: Seq<u8>) -> Option<nat> {
    let d = if b.len() > 0 && b[0] == 43 {
        b.drop_first()
    } else {
        b
    };
    if d.len() > 0 && all_digits(d) {
        Some(decimal_value(d))
    } else {
        None
    }
}

/// `<u64 as FromStr>::from_str`: the number when `s` is an optional `+`
/// and decimal digits whose value fits in a `u64`, else an error.
#[verifier::external_body]
fn parse_u64(s: &str) -> (r: Option<u64>)
    ensures
        r == (match unsigned_decimal(s.spec_bytes()) {
            Some(v) => if v <= u64::MAX {
                Some(v as u64)
            } else {
                None
            },
            None => None,
        }),
{
    s.parse::<u64>().ok()
}

/// `<u32 as FromStr>::from_str`: the number when `s` is an optional `+`
/// and decimal digits whose value fits in a `u32`, else an error.
#[verifier::external_body]
fn parse_u32(s: &str) -> (r: Option<u32>)
    ensures
        r == (match unsigned_decimal(s.spec_bytes()) {
            Some(v) => if v <= u32::MAX {
                Some(v as u32)
            } else {
                None
            },
            None => None,
        }),
{
    s.parse::<u32>().ok()
}

/// `U512::from_dec_str`: the number when every byte of `s` is a decimal
/// digit (the empty text is zero) and the value is below 2^512, else an
/// error.
#[verifier::external_body]
fn u512_from_dec_str(s: &str) -> (r: Option<Motes>)
    ensures
        r is Some <==> (all_digits(s.spec_bytes()) && decimal_value(s.spec_bytes())
            < motes_bound()),
        r matches Some(m) ==> m@ == decimal_value(s.spec_bytes()),
{
    match U512::from_dec_str(s) {
        Ok(v) => Some(Motes::from_words(v.0)),
        Err(_) => None,
    }
}

/// The `u64` that `raw` writes, or `default` when there is no text or it
/// is not such a number.
pub fn u64_or_default(raw: Option<&str>, default: u64) -> (r: u64)
    ensures
        r == (match raw {
            Some(s) => match unsigned_decimal(s.spec_bytes()) {
                Some(v) => if v <= u64::MAX {
                    v as u64
                } else {
                    default
                },
                None => default,
            },
            None => default,
        }),
{
    match raw {
        Some(s) => match parse_u64(s) {
            Some(v) => v,
            None => default,
        },
        None => default,
    }
}

/// The `u32` that `raw` writes, or `default` when there is no text or it
/// is not such a number.
pub fn u32_or_default(raw: Option<&str>, default: u32) -> (r: u32)
    ensures
        r == (match raw {
            Some(s) => match unsigned_decimal(s.spec_bytes()) {
                Some(v) => if v <= u32::MAX {
                    v as u32
                } else {
                    default
                },
                None => default,
            },
            None => default,
        }),
{
    match raw {
        Some(s) => match parse_u32(s) {
            Some(v) => v,
            None => default,
        },
        None => default,
    }
}

/// Whether `s` is an amount as `U512::from_dec_str` reads it.
pub open spec fn is_motes_text(s: Seq<u8>) -> bool {
    all_digits(s) && decimal_value(s) < motes_bound()
}

/// The amount that `raw` writes in decimal, or the amount that `default`
/// writes when `raw` is not one; `default` must then be one.
pub fn motes_or_default(raw: &str, default: &str) -> (r: Motes)
    requires
        !is_motes_text(raw.spec_bytes()) ==> is_motes_text(default.spec_bytes()),
    ensures
        is_motes_text(raw.spec_bytes()) ==> r@ == decimal_value(raw.spec_bytes()),
        !is_motes_text(raw.spec_bytes()) ==> r@ == decimal_value(default.spec_bytes()),
{
    match u512_from_dec_str(raw) {
        Some(m) => m,
        None => match u512_from_dec_str(default) {
            Some(m) => m,
            None => vstd::pervasive::unreached(),
        },
    }
}

} // verus!
