//! Parsing a speed reading. The source hands back raw text: a decimal ASCII
//! integer, possibly surrounded by whitespace. Anything else — an absent
//! source, an empty reading, stray characters, a sign other than an optional
//! leading plus, a value past `u32::MAX` — degrades silently to speed 0, so
//! a failure never propagates out of a cycle.

use vstd::prelude::*;

verus! {

/// Whether a byte is ASCII whitespace (space, tab, line feed, vertical tab,
/// form feed, carriage return).
pub open spec fn is_ascii_space(b: u8) -> bool {
    b == 32 || (9 <= b && b <= 13)
}

/// Whether a byte is an ASCII decimal digit.
pub open spec fn is_ascii_digit(b: u8) -> bool {
    48 <= b && b <= 57
}

/// Whether every byte of `s` is an ASCII decimal digit.
pub open spec fn all_digits(s: Seq<u8>) -> bool {
    forall|i: int| 0 <= i < s.len() ==> is_ascii_digit(s[i])
}

/// `s` without its leading ASCII whitespace.
pub open spec fn trim_front(s: Seq<u8>) -> Seq<u8>
    decreases s.len(),
{
    if s.len() > 0 && is_ascii_space(s[0]) {
        trim_front(s.subrange(1, s.len() as int))
    } else {
        s
    }
}

/// `s` without its trailing ASCII whitespace.
pub open spec fn trim_back(s: Seq<u8>) -> Seq<u8>
    decreases s.len(),
{
    if s.len() > 0 && is_ascii_space(s[s.len() - 1]) {
        trim_back(s.subrange(0, s.len() - 1))
    } else {
        s
    }
}

/// `s` without surrounding ASCII whitespace.
pub open spec fn spec_trim(s: Seq<u8>) -> Seq<u8> {
    trim_back(trim_front(s))
}

/// `s` without one optional leading plus sign.
pub open spec fn unsigned_part(s: Seq<u8>) -> Seq<u8> {
    if s.len() > 0 && s[0] == 43 {
        s.subrange(1, s.len() as int)
    } else {
        s
    }
}

/// The value of a string of decimal digits, most significant first.
pub open spec fn digits_value(s: Seq<u8>) -> nat
    decreases s.len(),
{
    if s.len() == 0 {
        0
    } else {
        digits_value(s.drop_last()) * 10 + (s.last() - 48) as nat
    }
}

/// Whether `s` is a decimal numeral whose value fits in a `u32`.
pub open spec fn is_u32_numeral(s: Seq<u8>) -> bool {
    s.len() > 0 && all_digits(s) && digits_value(s) <= u32::MAX
}

/// The speed encoded by raw source text: trim surrounding whitespace, allow
/// one leading plus, and read the digits; anything unparsable is 0.
pub open spec fn spec_parse_or_zero(raw: Seq<u8>) -> u32 {
    let numeral = unsigned_part(spec_trim(raw));
    if is_u32_numeral(numeral) {
        digits_value(numeral) as u32
    } else {
        0u32
    }
}

/// Whether a byte is ASCII whitespace.
fn is_space_byte(b: u8) -> (r: bool)
    ensures
        r == is_ascii_space(b),
{
    b == 32 || (9 <= b && b <= 13)
}

/// Dropping a fully-whitespace prefix of length `k` is exactly what
/// `trim_front` does, provided the prefix ends at the first non-space byte.
proof fn lemma_trim_front_skip(s: Seq<u8>, k: int)
    requires
        0 <= k <= s.len(),
        forall|i: int| 0 <= i < k ==> is_ascii_space(s[i]),
        k < s.len() ==> !is_ascii_space(s[k]),
    ensures
        trim_front(s) == s.subrange(k, s.len() as int),
    decreases k,
{
    if k == 0 {
        assert(s.subrange(0, s.len() as int) =~= s);
    } else {
        let rest = s.subrange(1, s.len() as int);
        lemma_trim_front_skip(rest, k - 1);
        assert(rest.subrange(k - 1, rest.len() as int) =~= s.subrange(k, s.len() as int));
    }
}

/// Dropping a fully-whitespace suffix that starts at `k` is exactly what
/// `trim_back` does, provided the suffix starts after the last non-space byte.
proof fn lemma_trim_back_skip(s: Seq<u8>, k: int)
    requires
        0 <= k <= s.len(),
        forall|i: int| k <= i < s.len() ==> is_ascii_space(s[i]),
        k > 0 ==> !is_ascii_space(s[k - 1]),
    ensures
        trim_back(s) == s.subrange(0, k),
    decreases s.len() - k,
{
    if k == s.len() {
        assert(s.subrange(0, k) =~= s);
    } else {
        let rest = s.subrange(0, s.len() - 1);
        lemma_trim_back_skip(rest, k);
        assert(rest.subrange(0, k) =~= s.subrange(0, k));
    }
}

/// The value of a digit string is at least the value of any of its prefixes:
/// appending a digit multiplies the value by ten and adds the digit.
proof fn lemma_digits_prefix_le(s: Seq<u8>, k: int)
    requires
        0 <= k <= s.len(),
        all_digits(s),
    ensures
        digits_value(s.subrange(0, k)) <= digits_value(s),
    decreases s.len() - k,
{
    if k == s.len() {
        assert(s.subrange(0, k) =~= s);
    } else {
        lemma_digits_prefix_le(s, k + 1);
        let longer = s.subrange(0, k + 1);
        assert(longer.drop_last() =~= s.subrange(0, k));
    }
}

/// Parse a speed reading: the decimal value of the whitespace-trimmed text,
/// or 0 when the text is not a `u32` numeral.
pub fn parse_or_zero(text: &[u8]) -> (speed: u32)
    ensures
        speed == spec_parse_or_zero(text@),
{
    let n = text.len();

    let mut lo: usize = 0;
    while lo < n && is_space_byte(text[lo])
        invariant
            0 <= lo <= n,
            n == text@.len(),
            forall|k: int| 0 <= k < lo ==> is_ascii_space(text@[k]),
        decreases n - lo,
    {
        lo += 1;
    }

    let mut hi: usize = n;
    while hi > lo && is_space_byte(text[hi - 1])
        invariant
            lo <= hi <= n,
            n == text@.len(),
            forall|k: int| hi <= k < n ==> is_ascii_space(text@[k]),
        decreases hi,
    {
        hi -= 1;
    }

    proof {
        lemma_trim_front_skip(text@, lo as int);
        let fronted = text@.subrange(lo as int, n as int);
        lemma_trim_back_skip(fronted, hi - lo);
        assert(fronted.subrange(0, hi - lo) =~= text@.subrange(lo as int, hi as int));
    }

    let mut start = lo;
    if start < hi && text[start] == 43 {
        start += 1;
        proof {
            let trimmed = text@.subrange(lo as int, hi as int);
            assert(trimmed.subrange(1, trimmed.len() as int) =~= text@.subrange(
                start as int,
                hi as int,
            ));
        }
    }
    let ghost numeral = text@.subrange(start as int, hi as int);

    if start == hi {
        return 0;
    }

    let mut acc: u64 = 0;
    let mut i = start;
    while i < hi
        invariant
            start <= i <= hi <= n,
            n == text@.len(),
            numeral == text@.subrange(start as int, hi as int),
            numeral == unsigned_part(spec_trim(text@)),
            start < hi,
            all_digits(text@.subrange(start as int, i as int)),
            acc == digits_value(text@.subrange(start as int, i as int)),
            acc <= u32::MAX,
        decreases hi - i,
    {
        let b = text[i];
        if b < 48 || b > 57 {
            // A stray character: the reading is not a numeral.
            assert(!is_ascii_digit(numeral[i - start]));
            return 0;
        }
        let d = (b - 48) as u64;
        let next = acc * 10 + d;
        proof {
            let prefix = text@.subrange(start as int, i + 1);
            assert(prefix.drop_last() =~= text@.subrange(start as int, i as int));
            assert(digits_value(prefix) == next);
        }
        if next > u32::MAX as u64 {
            // The value has already outgrown a u32; growing the digit string
            // further can only increase it, so parsing fails.
            proof {
                if all_digits(numeral) {
                    lemma_digits_prefix_le(numeral, i + 1 - start);
                    assert(numeral.subrange(0, i + 1 - start) =~= text@.subrange(
                        start as int,
                        i + 1,
                    ));
                }
            }
            return 0;
        }
        acc = next;
        i += 1;
    }

    acc as u32
}

/// The speed yielded by a poll of the source: the parsed reading, or 0 when
/// the source could not be opened or read at all.
pub open spec fn spec_speed_from_source(source: Option<Seq<u8>>) -> u32 {
    match source {
        Option::Some(text) => spec_parse_or_zero(text),
        Option::None => 0u32,
    }
}

/// Collapse one poll of the source to a speed: an unavailable or unreadable
/// source degrades to 0 rather than surfacing an error.
pub fn speed_from_source(source: Option<&[u8]>) -> (speed: u32)
    ensures
        speed == (match source {
            Option::Some(text) => spec_speed_from_source(Option::Some(text@)),
            Option::None => spec_speed_from_source(Option::None),
        }),
{
    match source {
        Option::Some(text) => parse_or_zero(text),
        Option::None => 0,
    }
}

} // verus!
