//! Byte-level helpers for the ASCII wire protocols.
//!
//! The transports this crate speaks (GDB remote-serial, OpenOCD Tcl-RPC) are
//! ASCII protocols, so commands and replies are handled as byte sequences.
//! This module holds the small verified building blocks: comparison and
//! substring search, hexadecimal and decimal rendering, and numeric token
//! parsing.

use crate::errors::Error;
use vstd::prelude::*;

verus! {

use vstd::string::StrSliceExecFns;

/// Whether `n` occurs as a contiguous subsequence of `h`.
pub open spec fn contains_sub(h: Seq<u8>, n: Seq<u8>) -> bool {
    exists|i: int| 0 <= i && i + n.len() <= h.len() && #[trigger] h.subrange(i, i + n.len() as int)
        == n
}

/// Whether the two byte slices hold the same bytes.
pub fn bytes_eq(a: &[u8], b: &[u8]) -> (r: bool)
    ensures
        r <==> a@ == b@,
{
    if a.len() != b.len() {
        return false;
    }
    let mut i: usize = 0;
    while i < a.len()
        invariant
            i <= a@.len(),
            a@.len() == b@.len(),
            forall|j: int| 0 <= j < i ==> a@[j] == b@[j],
        decreases a@.len() - i,
    {
        if a[i] != b[i] {
            return false;
        }
        i = i + 1;
    }
    proof {
        assert(a@ =~= b@);
    }
    true
}

/// Whether `n` occurs in `h` starting exactly at `at`.
pub fn matches_at(h: &[u8], n: &[u8], at: usize) -> (r: bool)
    requires
        at + n@.len() <= h@.len(),
    ensures
        r <==> h@.subrange(at as int, at + n@.len() as int) == n@,
{
    let hl = h.len();
    let mut k: usize = 0;
    while k < n.len()
        invariant
            k <= n@.len(),
            at + n@.len() <= h@.len(),
            hl == h@.len(),
            forall|j: int| 0 <= j < k ==> h@[at + j] == n@[j],
        decreases n@.len() - k,
    {
        if h[at + k] != n[k] {
            proof {
                assert(h@.subrange(at as int, at + n@.len() as int)[k as int] != n@[k as int]);
            }
            return false;
        }
        k = k + 1;
    }
    proof {
        assert(h@.subrange(at as int, at + n@.len() as int) =~= n@);
    }
    true
}

/// Whether `n` occurs anywhere in `h`.
pub fn contains_bytes(h: &[u8], n: &[u8]) -> (r: bool)
    ensures
        r <==> contains_sub(h@, n@),
{
    if n.len() > h.len() {
        return false;
    }
    if n.len() == 0 {
        proof {
            assert(h@.subrange(0, 0 + n@.len() as int) =~= n@);
        }
        return true;
    }
    let last = h.len() - n.len();
    let mut i: usize = 0;
    while i <= last
        invariant
            n@.len() <= h@.len(),
            last == h@.len() - n@.len(),
            last < usize::MAX,
            i <= last + 1,
            forall|j: int| 0 <= j < i ==> #[trigger] h@.subrange(j, j + n@.len() as int) != n@,
        decreases last + 1 - i,
    {
        if matches_at(h, n, i) {
            return true;
        }
        i = i + 1;
    }
    false
}

/// Whether `h` starts with `p`.
pub fn starts_with(h: &[u8], p: &[u8]) -> (r: bool)
    ensures
        r <==> p@.len() <= h@.len() && h@.subrange(0, p@.len() as int) == p@,
{
    if p.len() > h.len() {
        return false;
    }
    matches_at(h, p, 0)
}

/// Whether `h` ends with `s`.
pub fn ends_with(h: &[u8], s: &[u8]) -> (r: bool)
    ensures
        r <==> s@.len() <= h@.len() && h@.subrange(h@.len() - s@.len(), h@.len() as int) == s@,
{
    if s.len() > h.len() {
        return false;
    }
    matches_at(h, s, h.len() - s.len())
}

/// Whether two string slices hold the same characters.
pub fn str_eq(a: &str, b: &str) -> (r: bool)
    ensures
        r <==> a@ == b@,
{
    let al = a.unicode_len();
    let bl = b.unicode_len();
    if al != bl {
        return false;
    }
    let mut i: usize = 0;
    while i < al
        invariant
            i <= al,
            al == a@.len(),
            al == b@.len(),
            forall|j: int| 0 <= j < i ==> a@[j] == b@[j],
        decreases al - i,
    {
        if a.get_char(i) != b.get_char(i) {
            return false;
        }
        i = i + 1;
    }
    proof {
        assert(a@ =~= b@);
    }
    true
}

/// The first position of `b` in `h`, if any.
pub fn find_byte(h: &[u8], b: u8) -> (r: Option<usize>)
    ensures
        match r {
            Some(i) => i < h@.len() && h@[i as int] == b && forall|j: int|
                0 <= j < i ==> h@[j] != b,
            None => forall|j: int| 0 <= j < h@.len() ==> h@[j] != b,
        },
{
    let mut i: usize = 0;
    while i < h.len()
        invariant
            i <= h@.len(),
            forall|j: int| 0 <= j < i ==> h@[j] != b,
        decreases h@.len() - i,
    {
        if h[i] == b {
            return Some(i);
        }
        i = i + 1;
    }
    None
}

/// The lowercase hexadecimal digit for a value below 16.
pub open spec fn hex_digit(v: u8) -> u8
    recommends
        v < 16,
{
    if v < 10 {
        (0x30 + v) as u8
    } else {
        (0x57 + v) as u8
    }
}

/// The uppercase hexadecimal digit for a value below 16.
pub open spec fn hex_digit_upper(v: u8) -> u8
    recommends
        v < 16,
{
    if v < 10 {
        (0x30 + v) as u8
    } else {
        (0x37 + v) as u8
    }
}

/// Renders one hexadecimal digit in lowercase.
pub fn hex_digit_exec(v: u8) -> (r: u8)
    requires
        v < 16,
    ensures
        r == hex_digit(v),
{
    if v < 10 {
        0x30 + v
    } else {
        0x57 + v
    }
}

/// Renders one hexadecimal digit in uppercase.
pub fn hex_digit_upper_exec(v: u8) -> (r: u8)
    requires
        v < 16,
    ensures
        r == hex_digit_upper(v),
{
    if v < 10 {
        0x30 + v
    } else {
        0x37 + v
    }
}

/// The shortest lowercase hexadecimal rendering of `v`.
pub open spec fn hex_seq(v: nat) -> Seq<u8>
    decreases v,
{
    if v < 16 {
        seq![hex_digit(v as u8)]
    } else {
        hex_seq(v / 16).push(hex_digit((v % 16) as u8))
    }
}

/// The shortest uppercase hexadecimal rendering of `v`.
pub open spec fn hex_seq_upper(v: nat) -> Seq<u8>
    decreases v,
{
    if v < 16 {
        seq![hex_digit_upper(v as u8)]
    } else {
        hex_seq_upper(v / 16).push(hex_digit_upper((v % 16) as u8))
    }
}

/// The decimal rendering of `v`.
pub open spec fn dec_seq(v: nat) -> Seq<u8>
    decreases v,
{
    if v < 10 {
        seq![(0x30 + v) as u8]
    } else {
        dec_seq(v / 10).push((0x30 + v % 10) as u8)
    }
}

/// Appends the shortest lowercase hexadecimal rendering of `v`.
pub fn push_hex_u64(out: &mut Vec<u8>, v: u64)
    ensures
        final(out)@ == old(out)@ + hex_seq(v as nat),
    decreases v,
{
    if v < 16 {
        out.push(hex_digit_exec(v as u8));
    } else {
        push_hex_u64(out, v / 16);
        out.push(hex_digit_exec((v % 16) as u8));
    }
}

/// Appends the uppercase hexadecimal rendering of `v`, zero-padded to at
/// least two digits.
pub fn push_hex2_upper_u32(out: &mut Vec<u8>, v: u32)
    ensures
        final(out)@ == old(out)@ + (if v < 16 {
            seq![0x30u8, hex_digit_upper(v as u8)]
        } else {
            hex_seq_upper(v as nat)
        }),
{
    if v < 16 {
        out.push(0x30);
        out.push(hex_digit_upper_exec(v as u8));
    } else {
        push_hex_upper_u32(out, v);
    }
}

/// Appends the shortest uppercase hexadecimal rendering of `v`.
pub fn push_hex_upper_u32(out: &mut Vec<u8>, v: u32)
    ensures
        final(out)@ == old(out)@ + hex_seq_upper(v as nat),
    decreases v,
{
    if v < 16 {
        out.push(hex_digit_upper_exec(v as u8));
    } else {
        push_hex_upper_u32(out, v / 16);
        out.push(hex_digit_upper_exec((v % 16) as u8));
    }
}

/// Appends exactly two lowercase hexadecimal digits for a byte.
pub fn push_hex2(out: &mut Vec<u8>, v: u8)
    ensures
        final(out)@ == old(out)@ + seq![hex_digit(v / 16), hex_digit(v % 16)],
{
    out.push(hex_digit_exec(v / 16));
    out.push(hex_digit_exec(v % 16));
}

/// Appends the decimal rendering of `v`.
pub fn push_dec_u64(out: &mut Vec<u8>, v: u64)
    ensures
        final(out)@ == old(out)@ + dec_seq(v as nat),
    decreases v,
{
    if v < 10 {
        out.push(0x30 + (v as u8));
    } else {
        push_dec_u64(out, v / 10);
        out.push(0x30 + ((v % 10) as u8));
    }
}

/// Whether `c` is an ASCII decimal digit.
pub open spec fn is_dec_digit(c: u8) -> bool {
    0x30 <= c <= 0x39
}

/// Whether `c` is an ASCII hexadecimal digit, either case.
pub open spec fn is_hex_digit_char(c: u8) -> bool {
    is_dec_digit(c) || (0x61 <= c <= 0x66) || (0x41 <= c <= 0x46)
}

/// The numeric value of a hexadecimal digit.
pub open spec fn hex_char_val(c: u8) -> u8
    recommends
        is_hex_digit_char(c),
{
    if 0x30 <= c <= 0x39 {
        (c - 0x30) as u8
    } else if 0x61 <= c <= 0x66 {
        (c - 0x57) as u8
    } else {
        (c - 0x37) as u8
    }
}

/// The numeric value of a hexadecimal digit, or an out-of-range marker.
pub fn hex_char_val_exec(c: u8) -> (r: Option<u8>)
    ensures
        match r {
            Some(v) => is_hex_digit_char(c) && v == hex_char_val(c),
            None => !is_hex_digit_char(c),
        },
{
    if 0x30 <= c && c <= 0x39 {
        Some(c - 0x30)
    } else if 0x61 <= c && c <= 0x66 {
        Some(c - 0x57)
    } else if 0x41 <= c && c <= 0x46 {
        Some(c - 0x37)
    } else {
        None
    }
}

/// Whether `s` is a non-empty run of decimal digits.
pub open spec fn is_dec_token(s: Seq<u8>) -> bool {
    s.len() > 0 && forall|i: int| 0 <= i < s.len() ==> is_dec_digit(#[trigger] s[i])
}

/// The value of a run of decimal digits.
pub open spec fn dec_value(s: Seq<u8>) -> nat
    decreases s.len(),
{
    if s.len() == 0 {
        0
    } else {
        dec_value(s.drop_last()) * 10 + (if is_dec_digit(s.last()) {
            (s.last() - 0x30) as nat
        } else {
            0
        })
    }
}

/// Whether `s` is a non-empty run of hexadecimal digits.
pub open spec fn is_hex_token(s: Seq<u8>) -> bool {
    s.len() > 0 && forall|i: int| 0 <= i < s.len() ==> is_hex_digit_char(#[trigger] s[i])
}

/// The value of a run of hexadecimal digits.
pub open spec fn hex_value(s: Seq<u8>) -> nat
    decreases s.len(),
{
    if s.len() == 0 {
        0
    } else {
        hex_value(s.drop_last()) * 16 + hex_char_val(s.last()) as nat
    }
}

/// Whether `s` carries a `0x`/`0X` prefix.
pub open spec fn has_hex_prefix(s: Seq<u8>) -> bool {
    s.len() >= 2 && s[0] == 0x30 && (s[1] == 0x78 || s[1] == 0x58)
}

/// Whether `s` is a well-formed unsigned number token: a `0x`-prefixed
/// hexadecimal run or a plain decimal run.
pub open spec fn is_uint_token(s: Seq<u8>) -> bool {
    if has_hex_prefix(s) {
        is_hex_token(s.skip(2))
    } else {
        is_dec_token(s)
    }
}

/// The value of a well-formed unsigned number token.
pub open spec fn uint_token_value(s: Seq<u8>) -> nat {
    if has_hex_prefix(s) {
        hex_value(s.skip(2))
    } else {
        dec_value(s)
    }
}

/// Parses a run of decimal digits, left to right.
fn parse_dec_run(s: &[u8]) -> (r: Option<u64>)
    ensures
        match r {
            Some(v) => is_dec_token(s@) && dec_value(s@) == v,
            None => !is_dec_token(s@) || dec_value(s@) > u64::MAX,
        },
{
    if s.len() == 0 {
        return None;
    }
    let mut acc: u64 = 0;
    let mut i: usize = 0;
    while i < s.len()
        invariant
            i <= s@.len(),
            forall|j: int| 0 <= j < i ==> is_dec_digit(#[trigger] s@[j]),
            acc == dec_value(s@.take(i as int)),
        decreases s@.len() - i,
    {
        let c = s[i];
        if !(0x30 <= c && c <= 0x39) {
            proof {
                assert(!is_dec_token(s@));
            }
            return None;
        }
        let d = (c - 0x30) as u64;
        let acc10 = match acc.checked_mul(10) {
            Some(a) => a,
            None => {
                proof {
                    lemma_dec_value_extend_overflow(s@, i as int, acc as nat);
                }
                return None;
            },
        };
        let next = match acc10.checked_add(d) {
            Some(a) => a,
            None => {
                proof {
                    lemma_dec_value_extend_overflow(s@, i as int, acc as nat);
                }
                return None;
            },
        };
        proof {
            assert(s@.take(i + 1).drop_last() =~= s@.take(i as int));
            assert(s@.take(i + 1).last() == s@[i as int]);
        }
        acc = next;
        i = i + 1;
    }
    proof {
        assert(s@.take(s@.len() as int) =~= s@);
    }
    Some(acc)
}

/// A prefix value that already overflows forces the whole run to overflow.
proof fn lemma_dec_value_extend_overflow(s: Seq<u8>, i: int, acc: nat)
    requires
        0 <= i < s.len(),
        acc == dec_value(s.take(i)),
        acc * 10 + (if is_dec_digit(s[i]) {
            (s[i] - 0x30) as nat
        } else {
            0
        }) > u64::MAX,
    ensures
        dec_value(s) > u64::MAX,
    decreases s.len() - i,
{
    assert(s.take(i + 1).drop_last() =~= s.take(i));
    assert(s.take(i + 1).last() == s[i]);
    let next = dec_value(s.take(i + 1));
    assert(next > u64::MAX);
    lemma_dec_value_prefix_monotonic(s, i + 1);
}

/// A decimal run's value never falls below the value of any of its prefixes.
proof fn lemma_dec_value_prefix_monotonic(s: Seq<u8>, i: int)
    requires
        0 <= i <= s.len(),
    ensures
        dec_value(s) >= dec_value(s.take(i)),
    decreases s.len() - i,
{
    if i < s.len() {
        assert(s.take(i + 1).drop_last() =~= s.take(i));
        assert(dec_value(s.take(i + 1)) >= dec_value(s.take(i)));
        lemma_dec_value_prefix_monotonic(s, i + 1);
    } else {
        assert(s.take(i) =~= s);
    }
}

/// Parses a run of hexadecimal digits, left to right.
fn parse_hex_run(s: &[u8]) -> (r: Option<u64>)
    ensures
        match r {
            Some(v) => is_hex_token(s@) && hex_value(s@) == v,
            None => !is_hex_token(s@) || hex_value(s@) > u64::MAX,
        },
{
    if s.len() == 0 {
        return None;
    }
    let mut acc: u64 = 0;
    let mut i: usize = 0;
    while i < s.len()
        invariant
            i <= s@.len(),
            forall|j: int| 0 <= j < i ==> is_hex_digit_char(#[trigger] s@[j]),
            acc == hex_value(s@.take(i as int)),
        decreases s@.len() - i,
    {
        let d = match hex_char_val_exec(s[i]) {
            Some(d) => d,
            None => {
                proof {
                    assert(!is_hex_token(s@));
                }
                return None;
            },
        };
        let acc16 = match acc.checked_mul(16) {
            Some(a) => a,
            None => {
                proof {
                    lemma_hex_value_extend_overflow(s@, i as int, acc as nat);
                }
                return None;
            },
        };
        let next = match acc16.checked_add(d as u64) {
            Some(a) => a,
            None => {
                proof {
                    lemma_hex_value_extend_overflow(s@, i as int, acc as nat);
                }
                return None;
            },
        };
        proof {
            assert(s@.take(i + 1).drop_last() =~= s@.take(i as int));
            assert(s@.take(i + 1).last() == s@[i as int]);
        }
        acc = next;
        i = i + 1;
    }
    proof {
        assert(s@.take(s@.len() as int) =~= s@);
    }
    Some(acc)
}

/// A prefix value that already overflows forces the whole run to overflow.
proof fn lemma_hex_value_extend_overflow(s: Seq<u8>, i: int, acc: nat)
    requires
        0 <= i < s.len(),
        acc == hex_value(s.take(i)),
        acc * 16 + hex_char_val(s[i]) > u64::MAX,
    ensures
        hex_value(s) > u64::MAX,
    decreases s.len() - i,
{
    assert(s.take(i + 1).drop_last() =~= s.take(i));
    assert(s.take(i + 1).last() == s[i]);
    lemma_hex_value_prefix_monotonic(s, i + 1);
}

/// A hexadecimal run's value never falls below the value of any prefix.
proof fn lemma_hex_value_prefix_monotonic(s: Seq<u8>, i: int)
    requires
        0 <= i <= s.len(),
    ensures
        hex_value(s) >= hex_value(s.take(i)),
    decreases s.len() - i,
{
    if i < s.len() {
        assert(s.take(i + 1).drop_last() =~= s.take(i));
        lemma_hex_value_prefix_monotonic(s, i + 1);
    } else {
        assert(s.take(i) =~= s);
    }
}

/// Parses a plain decimal token that must fit in a `u32`.
pub fn parse_u32_dec(s: &[u8]) -> (r: Option<u32>)
    ensures
        match r {
            Some(v) => is_dec_token(s@) && dec_value(s@) == v,
            None => !is_dec_token(s@) || dec_value(s@) > u32::MAX,
        },
{
    match parse_dec_run(s) {
        Some(v) => if v <= 0xffff_ffff {
            Some(v as u32)
        } else {
            None
        },
        None => None,
    }
}

/// Parses a plain decimal token that must fit in a `usize`.
pub fn parse_usize_dec(s: &[u8]) -> (r: Option<usize>)
    ensures
        match r {
            Some(v) => is_dec_token(s@) && dec_value(s@) == v,
            None => !is_dec_token(s@) || dec_value(s@) > usize::MAX,
        },
{
    match parse_dec_run(s) {
        Some(v) => if v <= usize::MAX as u64 {
            Some(v as usize)
        } else {
            None
        },
        None => None,
    }
}

/// Parses an unsigned number token: `0x`-prefixed hexadecimal, or decimal.
pub fn parse_u64_token(s: &[u8]) -> (r: Option<u64>)
    ensures
        match r {
            Some(v) => is_uint_token(s@) && uint_token_value(s@) == v,
            None => !is_uint_token(s@) || uint_token_value(s@) > u64::MAX,
        },
{
    if s.len() >= 2 && s[0] == 0x30 && (s[1] == 0x78 || s[1] == 0x58) {
        let rest = vstd::slice::slice_subrange(s, 2, s.len());
        proof {
            assert(rest@ =~= s@.skip(2));
        }
        parse_hex_run(rest)
    } else {
        parse_dec_run(s)
    }
}

/// Parses an unsigned number token that must fit in a `u32`.
pub fn parse_u32_token(s: &[u8]) -> (r: Option<u32>)
    ensures
        match r {
            Some(v) => is_uint_token(s@) && uint_token_value(s@) == v,
            None => !is_uint_token(s@) || uint_token_value(s@) > u32::MAX,
        },
{
    match parse_u64_token(s) {
        Some(v) => if v <= 0xffff_ffff {
            Some(v as u32)
        } else {
            None
        },
        None => None,
    }
}

/// Parses an unsigned number token that must fit in a `u8`.
pub fn parse_u8_token(s: &[u8]) -> (r: Option<u8>)
    ensures
        match r {
            Some(v) => is_uint_token(s@) && uint_token_value(s@) == v,
            None => !is_uint_token(s@) || uint_token_value(s@) > u8::MAX,
        },
{
    match parse_u64_token(s) {
        Some(v) => if v <= 0xff {
            Some(v as u8)
        } else {
            None
        },
        None => None,
    }
}

/// Parses an unsigned number token that must fit in a `usize`.
pub fn parse_usize_token(s: &[u8]) -> (r: Option<usize>)
    ensures
        match r {
            Some(v) => is_uint_token(s@) && uint_token_value(s@) == v,
            None => !is_uint_token(s@) || uint_token_value(s@) > usize::MAX,
        },
{
    match parse_u64_token(s) {
        Some(v) => if v <= usize::MAX as u64 {
            Some(v as usize)
        } else {
            None
        },
        None => None,
    }
}

/// Whether the stretch of `s` holds hexadecimal digit pairs throughout.
pub open spec fn hex_pairs_ok(s: Seq<u8>) -> bool {
    s.len() % 2 == 0 && forall|i: int|
        0 <= i < s.len() ==> is_hex_digit_char(#[trigger] s[i])
}

/// The bytes a stretch of hexadecimal digit pairs decodes to.
pub open spec fn hex_pairs_val(s: Seq<u8>) -> Seq<u8> {
    Seq::new(
        (s.len() / 2) as nat,
        |i: int|
            (hex_char_val(s[2 * i]) * 16 + hex_char_val(
                s[2 * i + 1],
            )) as u8,
    )
}

/// Decodes a stretch of hexadecimal digit pairs.  An odd-length stretch
/// is malformed framing; an even-length stretch with a non-digit fails
/// the number.
pub fn decode_hex_pairs(s: &[u8]) -> (r: Result<Vec<u8>, Error>)
    ensures
        match r {
            Ok(v) => hex_pairs_ok(s@) && v@ == hex_pairs_val(s@),
            Err(e) => !hex_pairs_ok(s@) && e == (if s@.len() % 2 != 0 {
                Error::BadResponse
            } else {
                Error::BadInteger
            }),
        },
{
    let n = s.len();
    if n % 2 != 0 {
        return Err(Error::BadResponse);
    }
    let mut out: Vec<u8> = Vec::new();
    let mut i: usize = 0;
    while i < n
        invariant
            i <= n,
            i % 2 == 0,
            n % 2 == 0,
            n == s@.len(),
            out@.len() == i / 2,
            forall|j: int| 0 <= j < i ==> is_hex_digit_char(#[trigger] s@[j]),
            forall|k: int|
                0 <= k < i / 2 ==> out@[k] == ((hex_char_val(s@[2 * k]) * 16
                    + hex_char_val(s@[2 * k + 1])) as u8),
        decreases n - i,
    {
        let hi = match hex_char_val_exec(s[i]) {
            Some(v) => v,
            None => {
                return Err(Error::BadInteger);
            },
        };
        let lo = match hex_char_val_exec(s[i + 1]) {
            Some(v) => v,
            None => {
                return Err(Error::BadInteger);
            },
        };
        out.push(hi * 16 + lo);
        i = i + 2;
    }
    proof {
        assert(out@ =~= hex_pairs_val(s@));
    }
    Ok(out)
}

/// Whether `c` is an ASCII decimal digit.
pub open spec fn is_dec_char(c: char) -> bool {
    0x30 <= c as int <= 0x39
}

/// Whether `s` is a non-empty run of decimal digit characters.
pub open spec fn is_dec_chars(s: Seq<char>) -> bool {
    s.len() > 0 && forall|i: int| 0 <= i < s.len() ==> is_dec_char(#[trigger] s[i])
}

/// The value of a run of decimal digit characters.
pub open spec fn dec_value_chars(s: Seq<char>) -> nat
    decreases s.len(),
{
    if s.len() == 0 {
        0
    } else {
        dec_value_chars(s.drop_last()) * 10 + (if is_dec_char(s.last()) {
            (s.last() as int - 0x30) as nat
        } else {
            0
        })
    }
}

/// A decimal character run's value never falls below the value of any of
/// its prefixes.
proof fn lemma_dec_chars_prefix_monotonic(s: Seq<char>, i: int)
    requires
        0 <= i <= s.len(),
    ensures
        dec_value_chars(s) >= dec_value_chars(s.take(i)),
    decreases s.len() - i,
{
    if i < s.len() {
        assert(s.take(i + 1).drop_last() =~= s.take(i));
        lemma_dec_chars_prefix_monotonic(s, i + 1);
    } else {
        assert(s.take(i) =~= s);
    }
}

/// Parses a run of decimal digit characters that must fit in a `u32`.
pub fn parse_u32_dec_str(s: &str) -> (r: Option<u32>)
    ensures
        match r {
            Some(v) => is_dec_chars(s@) && dec_value_chars(s@) == v,
            None => !is_dec_chars(s@) || dec_value_chars(s@) > u32::MAX,
        },
{
    let n = s.unicode_len();
    if n == 0 {
        return None;
    }
    let mut acc: u64 = 0;
    let mut i: usize = 0;
    while i < n
        invariant
            i <= n,
            n == s@.len(),
            forall|j: int| 0 <= j < i ==> is_dec_char(#[trigger] s@[j]),
            acc == dec_value_chars(s@.take(i as int)),
            acc <= 0xffff_ffff,
        decreases n - i,
    {
        let c = s.get_char(i);
        let cv = c as u32;
        if !(0x30 <= cv && cv <= 0x39) {
            proof {
                assert(!is_dec_chars(s@));
            }
            return None;
        }
        proof {
            assert(s@.take(i + 1).drop_last() =~= s@.take(i as int));
            assert(s@.take(i + 1).last() == s@[i as int]);
        }
        let next = acc * 10 + (cv - 0x30) as u64;
        if next > 0xffff_ffff {
            proof {
                lemma_dec_chars_prefix_monotonic(s@, i + 1);
            }
            return None;
        }
        acc = next;
        i = i + 1;
    }
    proof {
        assert(s@.take(n as int) =~= s@);
    }
    Some(acc as u32)
}

} // verus!
