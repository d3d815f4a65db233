//! The computations of the lifecycle walkthrough: stage numbering, status
//! names, hash decoding and the wait for maturity.

use vstd::prelude::*;
use vstd::string::StringSliceAdditionalSpecFns;

verus! {

broadcast use vstd::array::group_array_axioms;

/// The circled digit shown for stage `k` (1 to 9).
pub open spec fn circled_digit(k: int) -> char {
    if k <= 1 {
        '\u{2460}'
    } else if k == 2 {
        '\u{2461}'
    } else if k == 3 {
        '\u{2462}'
    } else if k == 4 {
        '\u{2463}'
    } else if k == 5 {
        '\u{2464}'
    } else if k == 6 {
        '\u{2465}'
    } else if k == 7 {
        '\u{2466}'
    } else if k == 8 {
        '\u{2467}'
    } else {
        '\u{2468}'
    }
}

/// The circled digit for stage `n`; stage 0 shows as stage 1.
pub fn num(n: u8) -> (r: char)
    requires
        n <= 9,
    ensures
        r == circled_digit(n as int),
{
    let digits: [char; 9] = [
        '\u{2460}',
        '\u{2461}',
        '\u{2462}',
        '\u{2463}',
        '\u{2464}',
        '\u{2465}',
        '\u{2466}',
        '\u{2467}',
        '\u{2468}',
    ];
    let i = (n as usize).saturating_sub(1);
    digits[i]
}

/// The name of a lifecycle status code.
pub open spec fn status_label(s: u8) -> Seq<char> {
    if s == 0 {
        "REGISTERED"@
    } else if s == 1 {
        "EVALUATED"@
    } else if s == 2 {
        "FUNDED"@
    } else if s == 3 {
        "SETTLED"@
    } else if s == 4 {
        "DEFAULTED"@
    } else {
        "UNKNOWN"@
    }
}

/// The name of a lifecycle status code; codes past 4 are "UNKNOWN".
pub fn status_name(s: u8) -> (r: &'static str)
    ensures
        r@ == status_label(s),
{
    match s {
        0 => "REGISTERED",
        1 => "EVALUATED",
        2 => "FUNDED",
        3 => "SETTLED",
        4 => "DEFAULTED",
        _ => "UNKNOWN",
    }
}

/// `s` without every leading repetition of the non-empty pattern `p`.
pub open spec fn trim_start(s: Seq<u8>, p: Seq<u8>) -> Seq<u8>
    decreases s.len(),
{
    if p.len() > 0 && p.len() <= s.len() && s.subrange(0, p.len() as int) == p {
        trim_start(s.subrange(p.len() as int, s.len() as int), p)
    } else {
        s
    }
}

/// The bytes of `hash-`.
pub open spec fn hash_prefix() -> Seq<u8> {
    seq![104u8, 97u8, 115u8, 104u8, 45u8]
}

/// The bytes of `0x`.
pub open spec fn hex_prefix() -> Seq<u8> {
    seq![48u8, 120u8]
}

/// What `decode_hex_32` reads: the input without leading `hash-` and then
/// without leading `0x`.
pub open spec fn hex_body(input: Seq<u8>) -> Seq<u8> {
    trim_start(trim_start(input, hash_prefix()), hex_prefix())
}

/// Whether `c` is a hexadecimal digit (either case).
pub open spec fn is_hex_digit(c: u8) -> bool {
    (48 <= c <= 57) || (97 <= c <= 102) || (65 <= c <= 70)
}

/// The value of a hexadecimal digit.
pub open spec fn hex_digit_value(c: u8) -> nat {
    if 48 <= c <= 57 {
        (c - 48) as nat
    } else if 97 <= c <= 102 {
        (c - 87) as nat
    } else {
        (c - 55) as nat
    }
}

/// Whether two characters are two hexadecimal digits.
pub open spec fn is_hex_pair(a: u8, b: u8) -> bool {
    is_hex_digit(a) && is_hex_digit(b)
}

/// The byte that two hexadecimal digits write.
pub open spec fn hex_pair_value(a: u8, b: u8) -> nat {
    16 * hex_digit_value(a) + hex_digit_value(b)
}

/// Whether `body` is 32 bytes written as 64 characters in base 16.
pub open spec fn is_hex32(body: Seq<u8>) -> bool {
    &&& body.len() == 64
    &&& forall|i: int| 0 <= i < 32 ==> #[trigger] is_hex_pair(body[2 * i], body[2 * i + 1])
}

/// Whether `p` occurs in `b` at `start`.
fn has_prefix_at(b: &[u8], start: usize, p: &[u8]) -> (r: bool)
    requires
        start <= b@.len(),
    ensures
        r == (p@.len() <= b@.len() - start && b@.subrange(start as int, start + p@.len()) == p@),
{
    if p.len() > b.len() - start {
        return false;
    }
    let n = b.len();
    let mut i: usize = 0;
    while i < p.len()
        invariant
            0 <= i <= p@.len(),
            n == b@.len(),
            start + p@.len() <= b@.len(),
            forall|j: int| 0 <= j < i ==> b@[start + j] == p@[j],
        decreases p@.len() - i,
    {
        if b[start + i] != p[i] {
            assert(b@.subrange(start as int, start + p@.len())[i as int] != p@[i as int]);
            return false;
        }
        i = i + 1;
    }
    assert(b@.subrange(start as int, start + p@.len()) =~= p@);
    true
}

/// The index after every leading repetition of `p` in `b` from `start`.
fn skip_repeated(b: &[u8], start: usize, p: &[u8]) -> (r: usize)
    requires
        start <= b@.len(),
        p@.len() > 0,
    ensures
        start <= r <= b@.len(),
        b@.subrange(r as int, b@.len() as int) == trim_start(
            b@.subrange(start as int, b@.len() as int),
            p@,
        ),
{
    let n = b.len();
    let mut at = start;
    while has_prefix_at(b, at, p)
        invariant
            start <= at <= b@.len(),
            n == b@.len(),
            p@.len() > 0,
            trim_start(b@.subrange(at as int, b@.len() as int), p@) == trim_start(
                b@.subrange(start as int, b@.len() as int),
                p@,
            ),
        decreases b@.len() - at,
    {
        let ghost rest = b@.subrange(at as int, b@.len() as int);
        assert(rest.subrange(0, p@.len() as int) =~= b@.subrange(at as int, at + p@.len()));
        assert(rest.subrange(p@.len() as int, rest.len() as int) =~= b@.subrange(
            at + p@.len(),
            b@.len() as int,
        ));
        at = at + p.len();
    }
    proof {
        let rest = b@.subrange(at as int, b@.len() as int);
        if p@.len() <= rest.len() {
            assert(rest.subrange(0, p@.len() as int) =~= b@.subrange(at as int, at + p@.len()));
        }
    }
    at
}

/// The value of the hexadecimal digit `c`.
fn hex_digit(c: u8) -> (r: u8)
    requires
        is_hex_digit(c),
    ensures
        r == hex_digit_value(c),
{
    if 48 <= c && c <= 57 {
        c - 48
    } else if 97 <= c && c <= 102 {
        c - 87
    } else {
        c - 55
    }
}

/// Decodes a 64-digit hexadecimal hash (either case), optionally prefixed
/// with `hash-` and `0x`, into 32 bytes.
pub fn decode_hex_32(input: &str) -> (r: [u8; 32])
    requires
        is_hex32(hex_body(input.spec_bytes())),
    ensures
        forall|i: int| 0 <= i < 32 ==> #[trigger] r@[i] as nat == hex_pair_value(
            hex_body(input.spec_bytes())[2 * i],
            hex_body(input.spec_bytes())[2 * i + 1],
        ),
{
    let b = input.as_bytes();
    let hash: [u8; 5] = [104, 97, 115, 104, 45];
    let hex: [u8; 2] = [48, 120];
    proof {
        assert(hash@ =~= hash_prefix());
        assert(hex@ =~= hex_prefix());
        assert(b@.subrange(0, b@.len() as int) =~= b@);
    }
    let after_hash = skip_repeated(b, 0, hash.as_slice());
    let start = skip_repeated(b, after_hash, hex.as_slice());
    let ghost body = hex_body(input.spec_bytes());
    assert(b@.subrange(start as int, b@.len() as int) == body);
    let n = b.len();
    let mut out: [u8; 32] = [0u8; 32];
    let mut i: usize = 0;
    while i < 32
        invariant
            0 <= i <= 32,
            n == b@.len(),
            start + 64 == n,
            body == b@.subrange(start as int, b@.len() as int),
            is_hex32(body),
            forall|j: int| 0 <= j < i ==> #[trigger] out@[j] as nat == hex_pair_value(
                body[2 * j],
                body[2 * j + 1],
            ),
        decreases 32 - i,
    {
        assert(is_hex_pair(body[2 * i], body[2 * i + 1]));
        let hi = b[start + 2 * i];
        let lo = b[start + 2 * i + 1];
        let v: u8 = 16 * hex_digit(hi) + hex_digit(lo);
        out[i] = v;
        i = i + 1;
    }
    out
}

/// The hexadecimal digit for `n` (below 16), lower or upper case.
pub open spec fn hex_digit_char(n: nat, upper: bool) -> u8 {
    if n < 10 {
        (48 + n) as u8
    } else if upper {
        (55 + n) as u8
    } else {
        (87 + n) as u8
    }
}

/// The 64-digit hexadecimal encoding of 32 bytes, high digit first.
pub open spec fn hex_encode(b: Seq<u8>, upper: bool) -> Seq<u8> {
    Seq::new(
        64,
        |j: int|
            if j % 2 == 0 {
                hex_digit_char(b[j / 2] as nat / 16, upper)
            } else {
                hex_digit_char(b[j / 2] as nat % 16, upper)
            },
    )
}

/// The four prefixes a hash may carry: none, `hash-`, `0x`, `hash-0x`.
pub open spec fn is_hash_prefix(p: Seq<u8>) -> bool {
    ||| p == Seq::<u8>::empty()
    ||| p == hash_prefix()
    ||| p == hex_prefix()
    ||| p == hash_prefix() + hex_prefix()
}

/// Trimming a pattern that the text does not start with leaves it.
proof fn lemma_trim_absent(s: Seq<u8>, p: Seq<u8>)
    requires
        p.len() > 0,
        s.len() >= p.len() ==> s[p.len() - 1] != p[p.len() - 1] || s[0] != p[0],
    ensures
        trim_start(s, p) == s,
{
    if p.len() <= s.len() && s.subrange(0, p.len() as int) == p {
        assert(s.subrange(0, p.len() as int)[0] == s[0]);
        assert(s.subrange(0, p.len() as int)[p.len() - 1] == s[p.len() - 1]);
    }
}

/// Trimming a pattern once present, and then absent, leaves the rest.
proof fn lemma_trim_once(p: Seq<u8>, rest: Seq<u8>)
    requires
        p.len() > 0,
        trim_start(rest, p) == rest,
    ensures
        trim_start(p + rest, p) == rest,
{
    let s = p + rest;
    assert(s.subrange(0, p.len() as int) =~= p);
    assert(s.subrange(p.len() as int, s.len() as int) =~= rest);
}

/// Decoding inverts hexadecimal encoding, in either case and with any of
/// the accepted prefixes: the text is accepted and gives back the bytes.
pub proof fn lemma_decode_inverts_encode(b: Seq<u8>, upper: bool, prefix: Seq<u8>)
    requires
        b.len() == 32,
        is_hash_prefix(prefix),
    ensures
        is_hex32(hex_body(prefix + hex_encode(b, upper))),
        forall|i: int| 0 <= i < 32 ==> hex_pair_value(
            #[trigger] hex_body(prefix + hex_encode(b, upper))[2 * i],
            hex_body(prefix + hex_encode(b, upper))[2 * i + 1],
        ) == b[i] as nat,
{
    let e = hex_encode(b, upper);
    assert forall|j: int| 0 <= j < 64 implies #[trigger] is_hex_digit(e[j]) by {
        let n: nat = if j % 2 == 0 { b[j / 2] as nat / 16 } else { b[j / 2] as nat % 16 };
        assert(n < 16);
    }
    // The encoding starts with a hex digit, which no prefix ends or starts with.
    lemma_trim_absent(e, hex_prefix());
    lemma_trim_absent(e, hash_prefix());
    let hp = hex_prefix() + e;
    lemma_trim_absent(hp, hash_prefix());
    if prefix == Seq::<u8>::empty() {
        assert(prefix + e =~= e);
    } else if prefix == hash_prefix() {
        lemma_trim_once(hash_prefix(), e);
    } else if prefix == hex_prefix() {
        lemma_trim_once(hex_prefix(), e);
    } else {
        assert(prefix + e =~= hash_prefix() + hp);
        lemma_trim_once(hash_prefix(), hp);
        lemma_trim_once(hex_prefix(), e);
    }
    assert(hex_body(prefix + e) == e);
    assert forall|i: int| 0 <= i < 32 implies hex_pair_value(
        #[trigger] hex_body(prefix + e)[2 * i],
        hex_body(prefix + e)[2 * i + 1],
    ) == b[i] as nat && is_hex_pair(e[2 * i], e[2 * i + 1]) by {
        assert(is_hex_digit(e[2 * i]) && is_hex_digit(e[2 * i + 1]));
        let x = b[i] as nat;
        assert((2 * i) / 2 == i && (2 * i + 1) / 2 == i && (2 * i) % 2 == 0 && (2 * i + 1) % 2 == 1);
        assert(hex_digit_value(hex_digit_char(x / 16, upper)) == x / 16);
        assert(hex_digit_value(hex_digit_char(x % 16, upper)) == x % 16);
        assert(16 * (x / 16) + x % 16 == x) by (nonlinear_arith);
    }
}

/// What to do while waiting for an invoice's maturity.
#[derive(Clone, Copy, Debug, PartialEq, Eq)]
pub enum MaturityWait {
    /// The block time has reached maturity.
    Reached,
    /// Still `remaining_s` seconds to go: sleep `sleep_s` seconds (1 to 20)
    /// and read the block time again.
    Wait { remaining_s: u64, sleep_s: u64 },
}

/// The next step of waiting for `maturity` when the block time (in
/// milliseconds) is `now`.
pub fn maturity_wait_step(now: u64, maturity: u64) -> (r: MaturityWait)
    ensures
        now >= maturity ==> r == MaturityWait::Reached,
        now < maturity ==> r == (MaturityWait::Wait {
            remaining_s: ((maturity - now) / 1000) as u64,
            sleep_s: if (maturity - now) / 1000 > 20 {
                20
            } else if (maturity - now) / 1000 < 1 {
                1
            } else {
                ((maturity - now) / 1000) as u64
            },
        }),
{
    if now >= maturity {
        return MaturityWait::Reached;
    }
    let remaining_s = (maturity - now) / 1000;
    let sleep_s = if remaining_s > 20 {
        20
    } else if remaining_s < 1 {
        1
    } else {
        remaining_s
    };
    MaturityWait::Wait { remaining_s, sleep_s }
}

} // verus!
