//! Byte-level text helpers for instrument responses and commands.
//!
//! Responses are short ASCII strings such as `F1` or `SPN100`: a letter
//! prefix naming the setting, then a decimal number. These helpers trim
//! ASCII whitespace, strip such a prefix, and convert between decimal
//! digits and numbers, each against an exact specification.

use vstd::prelude::*;
use vstd::string::StringSliceAdditionalSpecFns;
use vstd::utf8::valid_utf8;

use crate::error::DriverError;

verus! {

/// ASCII whitespace, as trimming removes it: space, tab, LF, VT, FF, CR.
pub open spec fn is_ascii_space(b: u8) -> bool {
    b == 32 || (9 <= b <= 13)
}

/// `s` with leading ASCII whitespace removed.
pub open spec fn trim_start_bytes(s: Seq<u8>) -> Seq<u8>
    decreases s.len(),
{
    if s.len() > 0 && is_ascii_space(s[0]) {
        trim_start_bytes(s.drop_first())
    } else {
        s
    }
}

/// `s` with trailing ASCII whitespace removed.
pub open spec fn trim_end_bytes(s: Seq<u8>) -> Seq<u8>
    decreases s.len(),
{
    if s.len() > 0 && is_ascii_space(s[s.len() - 1]) {
        trim_end_bytes(s.drop_last())
    } else {
        s
    }
}

/// `s` with ASCII whitespace removed at both ends.
pub open spec fn trimmed_bytes(s: Seq<u8>) -> Seq<u8> {
    trim_end_bytes(trim_start_bytes(s))
}

/// `s` without `p` in front where `p` is a prefix of `s`; `s` unchanged
/// where it is not.
pub open spec fn strip_prefix_bytes(s: Seq<u8>, p: Seq<u8>) -> Seq<u8> {
    if p.len() <= s.len() && s.subrange(0, p.len() as int) == p {
        s.skip(p.len() as int)
    } else {
        s
    }
}

/// The part of a response that carries the value: whitespace trimmed, then
/// the echoed command prefix stripped where the instrument echoed one.
pub open spec fn response_body_bytes(s: Seq<u8>, p: Seq<u8>) -> Seq<u8> {
    strip_prefix_bytes(trimmed_bytes(s), p)
}

/// An ASCII decimal digit.
pub open spec fn is_digit(b: u8) -> bool {
    48 <= b <= 57
}

/// Every byte of `s` is a decimal digit.
pub open spec fn all_digits(s: Seq<u8>) -> bool {
    forall|i: int| 0 <= i < s.len() ==> is_digit(s[i])
}

/// The number the digit string `s` denotes.
pub open spec fn digits_value(s: Seq<u8>) -> int
    decreases s.len(),
{
    if s.len() == 0 {
        0
    } else {
        digits_value(s.drop_last()) * 10 + (s[s.len() - 1] - 48)
    }
}

/// What parsing `s` as an unsigned decimal yields: an optional leading
/// `+`, then at least one digit, and a value that fits in 16 bits.
pub open spec fn parse_u16_bytes(s: Seq<u8>) -> Option<u16> {
    let body = if s.len() > 0 && s[0] == 43 {
        s.drop_first()
    } else {
        s
    };
    if body.len() > 0 && all_digits(body) && digits_value(body) <= 65535 {
        Some(digits_value(body) as u16)
    } else {
        None
    }
}

/// The numeric value of a whole response: body extracted, then parsed.
pub open spec fn numeric_value(s: Seq<u8>, p: Seq<u8>) -> Option<u16> {
    parse_u16_bytes(response_body_bytes(s, p))
}

/// The decimal digit string of `n` (for negative `n` unspecified).
pub open spec fn decimal_digits(n: int) -> Seq<u8>
    decreases n,
{
    if n < 10 {
        seq![(48 + n) as u8]
    } else {
        decimal_digits(n / 10) + seq![(48 + n % 10) as u8]
    }
}

/// Whether `b` is ASCII whitespace.
fn is_space_byte(b: u8) -> (r: bool)
    ensures
        r == is_ascii_space(b),
{
    b == 32 || (b >= 9 && b <= 13)
}

/// Whether `p` occurs in `bytes` at position `lo`.
#[verifier::loop_isolation(false)]
fn has_prefix_at(bytes: &[u8], lo: usize, p: &[u8]) -> (r: bool)
    requires
        lo + p@.len() <= bytes@.len(),
    ensures
        r <==> bytes@.subrange(lo as int, lo + p@.len()) == p@,
{
    let blen: usize = bytes.len();
    let plen: usize = p.len();
    let mut j: usize = 0;
    while j < plen
        invariant
            j <= plen,
            plen == p@.len(),
            blen == bytes@.len(),
            lo + plen <= blen,
            forall|k: int| 0 <= k < j ==> bytes@[lo + k] == p@[k],
        decreases plen - j,
    {
        if bytes[lo + j] != p[j] {
            proof {
                assert(bytes@.subrange(lo as int, lo + p@.len())[j as int] != p@[j as int]);
            }
            return false;
        }
        j = j + 1;
    }
    proof {
        assert(bytes@.subrange(lo as int, lo + p@.len()) =~= p@);
    }
    true
}

proof fn lemma_trim_start(s: Seq<u8>, lo: int)
    requires
        0 <= lo <= s.len(),
        forall|j: int| 0 <= j < lo ==> is_ascii_space(s[j]),
        lo == s.len() || !is_ascii_space(s[lo]),
    ensures
        trim_start_bytes(s) == s.skip(lo),
    decreases lo,
{
    if lo == 0 {
        assert(s.skip(0) =~= s);
    } else {
        lemma_trim_start(s.drop_first(), lo - 1);
        assert(s.drop_first().skip(lo - 1) =~= s.skip(lo));
    }
}

proof fn lemma_trim_end(s: Seq<u8>, hi: int)
    requires
        0 <= hi <= s.len(),
        forall|j: int| hi <= j < s.len() ==> is_ascii_space(s[j]),
        hi == 0 || !is_ascii_space(s[hi - 1]),
    ensures
        trim_end_bytes(s) == s.take(hi),
    decreases s.len(),
{
    if hi == s.len() {
        assert(s.take(hi) =~= s);
    } else {
        lemma_trim_end(s.drop_last(), hi);
        assert(s.drop_last().take(hi) =~= s.take(hi));
    }
}

proof fn lemma_digits_value_nonneg(s: Seq<u8>)
    requires
        all_digits(s),
    ensures
        digits_value(s) >= 0,
    decreases s.len(),
{
    if s.len() > 0 {
        assert(all_digits(s.drop_last()));
        lemma_digits_value_nonneg(s.drop_last());
    }
}

proof fn lemma_digits_value_extend(s: Seq<u8>, k: int)
    requires
        all_digits(s),
        0 <= k <= s.len(),
    ensures
        digits_value(s) >= digits_value(s.take(k)),
    decreases s.len() - k,
{
    if k < s.len() {
        assert(s.take(k + 1).drop_last() =~= s.take(k));
        assert(all_digits(s.take(k)));
        lemma_digits_value_nonneg(s.take(k));
        assert(digits_value(s.take(k + 1)) >= digits_value(s.take(k)));
        lemma_digits_value_extend(s, k + 1);
    } else {
        assert(s.take(k) =~= s);
    }
}

/// Extract the value-carrying part of a response: trim ASCII whitespace at
/// both ends, then strip the echoed `prefix` where it is present.
pub fn response_body(response: &str, prefix: &[u8]) -> (r: Vec<u8>)
    ensures
        r@ == response_body_bytes(response.spec_bytes(), prefix@),
{
    let bytes: &[u8] = response.as_bytes();
    let p: &[u8] = prefix;
    let n: usize = bytes.len();

    let mut lo: usize = 0;
    while lo < n && is_space_byte(bytes[lo])
        invariant
            lo <= n,
            n == bytes@.len(),
            forall|j: int| 0 <= j < lo ==> is_ascii_space(bytes@[j]),
        decreases n - lo,
    {
        lo = lo + 1;
    }
    let mut hi: usize = n;
    while hi > lo && is_space_byte(bytes[hi - 1])
        invariant
            lo <= hi <= n,
            n == bytes@.len(),
            forall|j: int| hi <= j < n ==> is_ascii_space(bytes@[j]),
            forall|j: int| 0 <= j < lo ==> is_ascii_space(bytes@[j]),
        decreases hi,
    {
        hi = hi - 1;
    }

    let ghost t: Seq<u8> = bytes@.subrange(lo as int, hi as int);
    proof {
        lemma_trim_start(bytes@, lo as int);
        let skipped = bytes@.skip(lo as int);
        lemma_trim_end(skipped, hi - lo);
        assert(skipped.take(hi - lo) =~= t);
        assert(trimmed_bytes(bytes@) == t);
    }

    // Strip the prefix when the trimmed body starts with it.
    let plen: usize = p.len();
    let mut start: usize = lo;
    if plen <= hi - lo {
        proof {
            assert(t.subrange(0, plen as int) =~= bytes@.subrange(lo as int, lo + plen));
        }
        if has_prefix_at(bytes, lo, p) {
            start = lo + plen;
        }
    }

    let mut out: Vec<u8> = Vec::new();
    let mut i: usize = start;
    while i < hi
        invariant
            start <= i <= hi <= n,
            n == bytes@.len(),
            out@ == bytes@.subrange(start as int, i as int),
        decreases hi - i,
    {
        out.push(bytes[i]);
        proof {
            assert(out@ =~= bytes@.subrange(start as int, i + 1));
        }
        i = i + 1;
    }

    proof {
        if start == lo {
            assert(out@ =~= t);
            assert(strip_prefix_bytes(t, p@) == t);
        } else {
            assert(out@ =~= t.skip(p@.len() as int));
        }
    }
    out
}

/// Parse an unsigned decimal with an optional leading `+`, as the digits
/// denote it, refusing anything else and values above 16 bits.
#[verifier::loop_isolation(false)]
pub fn parse_u16(bytes: &[u8]) -> (r: Option<u16>)
    ensures
        r == parse_u16_bytes(bytes@),
{
    let n: usize = bytes.len();
    let start: usize = if n > 0 && bytes[0] == 43 {
        1
    } else {
        0
    };
    let ghost body: Seq<u8> = bytes@.skip(start as int);
    proof {
        if start == 1 {
            assert(bytes@.skip(1) =~= bytes@.drop_first());
        } else {
            assert(bytes@.skip(0) =~= bytes@);
        }
    }
    if start == n {
        return None;
    }
    let mut value: u32 = 0;
    let mut i: usize = start;
    while i < n
        invariant
            start <= i <= n,
            n == bytes@.len(),
            body == bytes@.skip(start as int),
            all_digits(body.take(i - start)),
            value == digits_value(body.take(i - start)),
            value <= 65535,
        decreases n - i,
    {
        let b = bytes[i];
        if b < 48 || b > 57 {
            proof {
                assert(!is_digit(body[i - start]));
            }
            return None;
        }
        let digit: u32 = (b - 48) as u32;
        let next: u32 = value * 10 + digit;
        proof {
            assert(body.take(i - start + 1).drop_last() =~= body.take(i - start));
            assert(next == digits_value(body.take(i - start + 1)));
        }
        if next > 65535 {
            proof {
                if all_digits(body) {
                    lemma_digits_value_extend(body, i - start + 1);
                }
            }
            return None;
        }
        value = next;
        i = i + 1;
    }
    proof {
        assert(body.take(n - start) =~= body);
    }
    Some(value as u16)
}

/// Law: the decimal digit string of `n` is all digits, non-empty, and
/// parses back to `n`.
pub proof fn lemma_decimal_digits_value(n: int)
    requires
        n >= 0,
    ensures
        all_digits(decimal_digits(n)),
        digits_value(decimal_digits(n)) == n,
        decimal_digits(n).len() >= 1,
    decreases n,
{
    if n < 10 {
        let s = decimal_digits(n);
        assert(s =~= seq![(48 + n) as u8]);
        assert(s[0] == (48 + n) as u8);
        assert((48 + n) as u8 == 48 + n);
        assert(s.drop_last() =~= Seq::<u8>::empty());
        assert(digits_value(Seq::<u8>::empty()) == 0);
        assert(digits_value(s) == digits_value(s.drop_last()) * 10 + (s[0] - 48));
    } else {
        lemma_decimal_digits_value(n / 10);
        let d = decimal_digits(n / 10);
        let whole = d + seq![(48 + n % 10) as u8];
        assert(whole.drop_last() =~= d);
        assert(0 <= n % 10 < 10);
        assert(whole[whole.len() - 1] == (48 + n % 10) as u8);
        assert((48 + n % 10) as u8 == 48 + n % 10);
        assert(digits_value(whole) == digits_value(d) * 10 + (n % 10));
        vstd::arithmetic::div_mod::lemma_fundamental_div_mod(n, 10);
        assert(digits_value(whole) == n);
    }
}

/// Law: values below each power of ten take at most that many digits; a
/// 16-bit value takes at most five.
pub proof fn lemma_decimal_digits_len(n: int)
    requires
        n >= 0,
    ensures
        n < 10 ==> decimal_digits(n).len() == 1,
        n < 100 ==> decimal_digits(n).len() <= 2,
        n < 1000 ==> decimal_digits(n).len() <= 3,
        n < 10000 ==> decimal_digits(n).len() <= 4,
        n < 100000 ==> decimal_digits(n).len() <= 5,
    decreases n,
{
    if n >= 10 {
        lemma_decimal_digits_len(n / 10);
    }
}

/// Append the decimal digit string of `n` to `out`.
pub fn push_decimal(n: u16, out: &mut Vec<u8>)
    ensures
        final(out)@ == old(out)@ + decimal_digits(n as int),
    decreases n,
{
    if n < 10 {
        out.push(48 + n as u8);
        proof {
            assert(old(out)@.push((48 + n) as u8) =~= old(out)@ + decimal_digits(n as int));
        }
    } else {
        push_decimal(n / 10, out);
        out.push(48 + (n % 10) as u8);
        proof {
            assert((old(out)@ + decimal_digits((n / 10) as int)).push((48 + n as int % 10) as u8)
                =~= old(out)@ + decimal_digits(n as int));
        }
    }
}

/// The decimal digit string of `n` as bytes.
pub fn u16_decimal(n: u16) -> (r: Vec<u8>)
    ensures
        r@ == decimal_digits(n as int),
{
    let mut out: Vec<u8> = Vec::new();
    push_decimal(n, &mut out);
    proof {
        assert(Seq::<u8>::empty() + decimal_digits(n as int) =~= decimal_digits(n as int));
    }
    out
}

/// Extract a response's numeric value: body out, then decimal parse.
pub fn parse_numeric_response(response: &str, prefix: &[u8]) -> (r: Option<u16>)
    ensures
        r == numeric_value(response.spec_bytes(), prefix@),
{
    let body = response_body(response, prefix);
    parse_u16(body.as_slice())
}

/// Relies on String::from_utf8: it succeeds exactly on valid UTF-8 input
/// and the resulting string keeps the input bytes.
#[verifier::external_body]
pub(crate) fn bytes_to_text(bytes: Vec<u8>) -> (r: Result<String, DriverError>)
    ensures
        r is Ok == valid_utf8(bytes@),
        r matches Ok(s) ==> vstd::utf8::encode_utf8(s@) == bytes@,
        r matches Err(e) ==> e == DriverError::NonTextResponse,
{
    String::from_utf8(bytes).map_err(|_| DriverError::NonTextResponse)
}

} // verus!
