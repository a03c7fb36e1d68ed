//! The version number of the library, and the levels of its log.
use vstd::prelude::*;

use vstd::string::StringSliceAdditionalSpecFns;

use crate::native;

verus! {

// ---------------------------------------------------------------------------------------------
// Version number
// ---------------------------------------------------------------------------------------------

/// The text without its leading `v` characters.
pub open spec fn strip_leading_v(s: Seq<u8>) -> Seq<u8>
    decreases s.len(),
{
    if s.len() > 0 && s[0] == 0x76u8 {
        strip_leading_v(s.drop_first())
    } else {
        s
    }
}

/// The pieces of a text between its separators, as `str::split` gives them: a text without a
/// separator is one piece, and a separator at either end gives an empty piece there.
pub open spec fn split_on(s: Seq<u8>, sep: u8) -> Seq<Seq<u8>>
    decreases s.len(),
{
    if s.len() == 0 {
        seq![Seq::empty()]
    } else {
        let parts = split_on(s.drop_last(), sep);
        if s.last() == sep {
            parts.push(Seq::empty())
        } else {
            parts.update(parts.len() - 1, parts.last().push(s.last()))
        }
    }
}

/// Whether a byte is an ASCII decimal digit.
pub open spec fn is_digit(b: u8) -> bool {
    0x30u8 <= b <= 0x39u8
}

/// The value of a sequence of decimal digits.
pub open spec fn decimal_value(d: Seq<u8>) -> nat
    decreases d.len(),
{
    if d.len() == 0 {
        0
    } else {
        decimal_value(d.drop_last()) * 10 + (d.last() - 0x30u8) as nat
    }
}

/// The digits of a number, after an optional leading `+`.
pub open spec fn number_digits(p: Seq<u8>) -> Seq<u8> {
    if p.len() > 0 && p[0] == 0x2Bu8 {
        p.drop_first()
    } else {
        p
    }
}

/// The number that a piece of text is as an unsigned 32-bit integer, as `u32::from_str` reads
/// it: an optional `+`, then at least one decimal digit and nothing else, with a value that fits.
pub open spec fn parse_u32(p: Seq<u8>) -> Option<u32> {
    let d = number_digits(p);
    if d.len() > 0 && (forall|i: int| 0 <= i < d.len() ==> is_digit(#[trigger] d[i]))
        && decimal_value(d) <= u32::MAX {
        Some(decimal_value(d) as u32)
    } else {
        None
    }
}

/// The value that one piece of a version contributes: its number, or zero where it is none.
pub open spec fn part_value(p: Seq<u8>) -> u32 {
    match parse_u32(p) {
        Some(v) => v,
        None => 0,
    }
}

/// The version number of the first pieces of a version text, at most four: the first piece
/// in the most significant byte, each piece shifted into its byte and added with wrap-around.
pub open spec fn version_of_parts(parts: Seq<Seq<u8>>) -> u32
    decreases parts.len(),
{
    if parts.len() == 0 {
        0
    } else if parts.len() > 4 {
        version_of_parts(parts.subrange(0, 4))
    } else {
        let k = parts.len() - 1;
        vstd::wrapping::u32_specs::wrapping_add(
            version_of_parts(parts.drop_last()),
            part_value(parts.last()) << ((8 * (3 - k)) as u32),
        )
    }
}

/// The version number that a version text stands for: its leading `v`s dropped, its pieces
/// between dots read as numbers, one byte each, most significant first.
pub open spec fn version_number(text: Seq<u8>) -> u32 {
    version_of_parts(version_pieces(text))
}

/// The pieces of a version text: its white space at both ends and then its leading `v`s
/// dropped, split at the dots.
pub open spec fn version_pieces(text: Seq<u8>) -> Seq<Seq<u8>> {
    split_on(strip_leading_v(trim_spaces(text)), 0x2Eu8)
}

/// Whether a byte is the UTF-8 encoding of an ASCII white-space character (tab, line feed,
/// vertical tab, form feed, carriage return, space).
pub open spec fn is_space1(a: u8) -> bool {
    (0x09u8 <= a <= 0x0Du8) || a == 0x20u8
}

/// Whether two bytes are the UTF-8 encoding of a two-byte white-space character (next line,
/// no-break space).
pub open spec fn is_space2(a: u8, b: u8) -> bool {
    a == 0xC2u8 && (b == 0x85u8 || b == 0xA0u8)
}

/// Whether three bytes are the UTF-8 encoding of a three-byte white-space character (ogham
/// space mark, the spaces from en quad to hair space, line separator, paragraph separator,
/// narrow no-break space, medium mathematical space, ideographic space).
pub open spec fn is_space3(a: u8, b: u8, c: u8) -> bool {
    ||| (a == 0xE1u8 && b == 0x9Au8 && c == 0x80u8)
    ||| (a == 0xE2u8 && b == 0x80u8 && ((0x80u8 <= c <= 0x8Au8) || c == 0xA8u8 || c == 0xA9u8 || c == 0xAFu8))
    ||| (a == 0xE2u8 && b == 0x81u8 && c == 0x9Fu8)
    ||| (a == 0xE3u8 && b == 0x80u8 && c == 0x80u8)
}

/// The length of the encoding of the white-space character (the characters of Unicode's
/// White_Space property, which `str::trim` removes) that a text starts with; zero where it
/// starts with none.
pub open spec fn leading_space_len(b: Seq<u8>) -> int {
    if b.len() >= 1 && is_space1(b[0]) {
        1
    } else if b.len() >= 2 && is_space2(b[0], b[1]) {
        2
    } else if b.len() >= 3 && is_space3(b[0], b[1], b[2]) {
        3
    } else {
        0
    }
}

/// The length of the encoding of the white-space character that a text ends with; zero where
/// it ends with none.
pub open spec fn trailing_space_len(b: Seq<u8>) -> int {
    let n = b.len() as int;
    if n >= 1 && is_space1(b[n - 1]) {
        1
    } else if n >= 2 && is_space2(b[n - 2], b[n - 1]) {
        2
    } else if n >= 3 && is_space3(b[n - 3], b[n - 2], b[n - 1]) {
        3
    } else {
        0
    }
}

/// A text without the white space at its start.
pub open spec fn trim_start_spaces(b: Seq<u8>) -> Seq<u8>
    decreases b.len(),
{
    if leading_space_len(b) > 0 {
        trim_start_spaces(b.subrange(leading_space_len(b), b.len() as int))
    } else {
        b
    }
}

/// A text without the white space at its end.
pub open spec fn trim_end_spaces(b: Seq<u8>) -> Seq<u8>
    decreases b.len(),
{
    if trailing_space_len(b) > 0 {
        trim_end_spaces(b.subrange(0, b.len() - trailing_space_len(b)))
    } else {
        b
    }
}

/// A UTF-8 text without the white space at both ends, as `str::trim` gives it.
pub open spec fn trim_spaces(b: Seq<u8>) -> Seq<u8> {
    trim_end_spaces(trim_start_spaces(b))
}

/// Byte `k` of a version number, counted from the most significant one (`k` from 0 to 3).
pub open spec fn version_byte(version: u32, k: int) -> u32 {
    (version >> ((8 * (3 - k)) as u32)) & 0xFFu32
}

/// The number of pieces of a version that count: at most four.
pub open spec fn counted_parts(parts: Seq<Seq<u8>>) -> int {
    if parts.len() > 4 { 4 } else { parts.len() as int }
}

proof fn lemma_zero_bytes()
    ensures
        (0u32 >> 24u32) & 0xFFu32 == 0,
        (0u32 >> 16u32) & 0xFFu32 == 0,
        (0u32 >> 8u32) & 0xFFu32 == 0,
        (0u32 >> 0u32) & 0xFFu32 == 0,
{
    assert((0u32 >> 24u32) & 0xFFu32 == 0) by (bit_vector);
    assert((0u32 >> 16u32) & 0xFFu32 == 0) by (bit_vector);
    assert((0u32 >> 8u32) & 0xFFu32 == 0) by (bit_vector);
    assert((0u32 >> 0u32) & 0xFFu32 == 0) by (bit_vector);
}

proof fn lemma_place_first_byte(v: u32)
    by (bit_vector)
    requires
        v < 256,
    ensures
        ((v << 24u32) >> 24u32) & 0xFFu32 == v,
        ((v << 24u32) >> 16u32) & 0xFFu32 == 0,
        ((v << 24u32) >> 8u32) & 0xFFu32 == 0,
        ((v << 24u32) >> 0u32) & 0xFFu32 == 0,
{
}

proof fn lemma_place_second_byte(p: u32, v: u32)
    by (bit_vector)
    requires
        v < 256,
        (p >> 16u32) & 0xFFu32 == 0,
        (p >> 8u32) & 0xFFu32 == 0,
        (p >> 0u32) & 0xFFu32 == 0,
    ensures
        p + (v << 16u32) <= 0xFFFF_FFFF,
        (((p + (v << 16u32)) as u32) >> 24u32) & 0xFFu32 == (p >> 24u32) & 0xFFu32,
        (((p + (v << 16u32)) as u32) >> 16u32) & 0xFFu32 == v,
        (((p + (v << 16u32)) as u32) >> 8u32) & 0xFFu32 == 0,
        (((p + (v << 16u32)) as u32) >> 0u32) & 0xFFu32 == 0,
{
}

proof fn lemma_place_third_byte(p: u32, v: u32)
    by (bit_vector)
    requires
        v < 256,
        (p >> 8u32) & 0xFFu32 == 0,
        (p >> 0u32) & 0xFFu32 == 0,
    ensures
        p + (v << 8u32) <= 0xFFFF_FFFF,
        (((p + (v << 8u32)) as u32) >> 24u32) & 0xFFu32 == (p >> 24u32) & 0xFFu32,
        (((p + (v << 8u32)) as u32) >> 16u32) & 0xFFu32 == (p >> 16u32) & 0xFFu32,
        (((p + (v << 8u32)) as u32) >> 8u32) & 0xFFu32 == v,
        (((p + (v << 8u32)) as u32) >> 0u32) & 0xFFu32 == 0,
{
}

proof fn lemma_place_fourth_byte(p: u32, v: u32)
    by (bit_vector)
    requires
        v < 256,
        (p >> 0u32) & 0xFFu32 == 0,
    ensures
        p + (v << 0u32) <= 0xFFFF_FFFF,
        (((p + (v << 0u32)) as u32) >> 24u32) & 0xFFu32 == (p >> 24u32) & 0xFFu32,
        (((p + (v << 0u32)) as u32) >> 16u32) & 0xFFu32 == (p >> 16u32) & 0xFFu32,
        (((p + (v << 0u32)) as u32) >> 8u32) & 0xFFu32 == (p >> 8u32) & 0xFFu32,
        (((p + (v << 0u32)) as u32) >> 0u32) & 0xFFu32 == v,
{
}

/// For at most four pieces that are each a number below 256, byte `k` of the version number is
/// piece `k`, and the bytes without a piece are zero.
proof fn lemma_version_bytes(parts: Seq<Seq<u8>>)
    requires
        parts.len() <= 4,
        forall|k: int| 0 <= k < parts.len() ==> part_value(#[trigger] parts[k]) < 256,
    ensures
        forall|k: int| 0 <= k < parts.len() ==> version_byte(version_of_parts(parts), k) == part_value(#[trigger] parts[k]),
        forall|k: int| parts.len() <= k < 4 ==> #[trigger] version_byte(version_of_parts(parts), k) == 0,
    decreases parts.len(),
{
    lemma_zero_bytes();
    if parts.len() > 0 {
        let prev = parts.drop_last();
        assert forall|k: int| 0 <= k < prev.len() implies part_value(#[trigger] prev[k]) < 256 by {
            assert(prev[k] == parts[k]);
        }
        lemma_version_bytes(prev);
        let p = version_of_parts(prev);
        let v = part_value(parts.last());
        let n = parts.len() - 1;
        assert(v < 256) by {
            assert(parts.last() == parts[n]);
        }
        let version = version_of_parts(parts);
        assert(version_byte(p, 0) == (p >> 24u32) & 0xFFu32);
        assert(version_byte(p, 1) == (p >> 16u32) & 0xFFu32);
        assert(version_byte(p, 2) == (p >> 8u32) & 0xFFu32);
        assert(version_byte(p, 3) == (p >> 0u32) & 0xFFu32);
        assert(version_byte(version, 0) == (version >> 24u32) & 0xFFu32);
        assert(version_byte(version, 1) == (version >> 16u32) & 0xFFu32);
        assert(version_byte(version, 2) == (version >> 8u32) & 0xFFu32);
        assert(version_byte(version, 3) == (version >> 0u32) & 0xFFu32);
        if n == 0 {
            assert(p == 0);
            lemma_place_first_byte(v);
            assert(version == v << 24u32);
        } else if n == 1 {
            assert(version_byte(p, 1) == 0 && version_byte(p, 2) == 0 && version_byte(p, 3) == 0);
            lemma_place_second_byte(p, v);
            assert(version == (p + (v << 16u32)) as u32);
        } else if n == 2 {
            assert(version_byte(p, 2) == 0 && version_byte(p, 3) == 0);
            lemma_place_third_byte(p, v);
            assert(version == (p + (v << 8u32)) as u32);
        } else {
            assert(version_byte(p, 3) == 0);
            lemma_place_fourth_byte(p, v);
            assert(version == (p + (v << 0u32)) as u32);
        }
        assert forall|k: int| 0 <= k < parts.len() implies version_byte(version, k) == part_value(#[trigger] parts[k]) by {
            if k < n {
                assert(prev[k] == parts[k]);
                assert(version_byte(p, k) == part_value(prev[k]));
            } else {
                assert(parts[k] == parts.last());
            }
        }
    }
}

/// Each of the first four pieces of a version text that is a number below 256 is one byte of
/// the version number, the first piece the most significant byte; the bytes of the pieces that
/// are missing are zero.
pub proof fn version_pieces_are_its_bytes(text: Seq<u8>)
    requires
        forall|k: int| 0 <= k < counted_parts(version_pieces(text))
            ==> part_value(#[trigger] version_pieces(text)[k]) < 256,
    ensures
        forall|k: int| 0 <= k < counted_parts(version_pieces(text))
            ==> version_byte(version_number(text), k) == part_value(#[trigger] version_pieces(text)[k]),
        forall|k: int| counted_parts(version_pieces(text)) <= k < 4
            ==> #[trigger] version_byte(version_number(text), k) == 0,
{
    let parts = version_pieces(text);
    if parts.len() > 4 {
        let first = parts.subrange(0, 4);
        assert forall|k: int| 0 <= k < first.len() implies part_value(#[trigger] first[k]) < 256 by {
            assert(first[k] == parts[k]);
        }
        lemma_version_bytes(first);
        assert(version_number(text) == version_of_parts(first));
        assert forall|k: int| 0 <= k < 4 implies version_byte(version_number(text), k) == part_value(#[trigger] parts[k]) by {
            assert(first[k] == parts[k]);
        }
    } else {
        lemma_version_bytes(parts);
    }
}

/// Reads a piece of text as an unsigned 32-bit number.
pub fn parse_u32_bytes(p: &[u8]) -> (r: Option<u32>)
    ensures
        r == parse_u32(p@),
{
    let mut start: usize = 0;
    if p.len() > 0 && p[0] == 0x2Bu8 {
        start = 1;
    }
    let ghost d = number_digits(p@);
    assert(d == p@.subrange(start as int, p@.len() as int));
    if start >= p.len() {
        return None;
    }
    let mut value: u64 = 0;
    let mut i: usize = start;
    while i < p.len()
        invariant
            start <= i <= p@.len(),
            start < p@.len(),
            d == number_digits(p@),
            d == p@.subrange(start as int, p@.len() as int),
            forall|k: int| 0 <= k < i - start ==> is_digit(#[trigger] d[k]),
            value == decimal_value(d.subrange(0, i - start)),
            value <= u32::MAX,
        decreases p.len() - i,
    {
        let b = p[i];
        if b < 0x30u8 || b > 0x39u8 {
            assert(d[i - start] == b);
            assert(!is_digit(d[i - start]));
            assert(!(forall|k: int| 0 <= k < d.len() ==> is_digit(#[trigger] d[k])));
            assert(parse_u32(p@) is None);
            return None;
        }
        assert(d.subrange(0, i + 1 - start).drop_last() == d.subrange(0, i - start));
        let next = value * 10 + (b - 0x30u8) as u64;
        if next > 0xFFFF_FFFFu64 {
            proof {
                lemma_decimal_value_grows(d, (i + 1 - start) as int);
            }
            assert(parse_u32(p@) is None);
            return None;
        }
        value = next;
        i = i + 1;
    }
    assert(d.subrange(0, i - start) == d);
    Some(value as u32)
}

/// A longer prefix of digits never has a smaller value.
proof fn lemma_decimal_value_grows(d: Seq<u8>, n: int)
    requires
        0 <= n <= d.len(),
    ensures
        decimal_value(d.subrange(0, n)) <= decimal_value(d),
    decreases d.len() - n,
{
    if n < d.len() {
        lemma_decimal_value_grows(d, n + 1);
        assert(d.subrange(0, n + 1).drop_last() == d.subrange(0, n));
    } else {
        assert(d.subrange(0, n) == d);
    }
}

/// Splits a text at every separator.
pub fn split_bytes(s: &[u8], sep: u8) -> (r: Vec<Vec<u8>>)
    ensures
        r@.map_values(|v: Vec<u8>| v@) == split_on(s@, sep),
{
    let mut done: Vec<Vec<u8>> = Vec::new();
    let mut current: Vec<u8> = Vec::new();
    let mut i: usize = 0;
    while i < s.len()
        invariant
            i <= s@.len(),
            done@.map_values(|v: Vec<u8>| v@).push(current@) == split_on(s@.subrange(0, i as int), sep),
        decreases s.len() - i,
    {
        let ghost before = done@.map_values(|v: Vec<u8>| v@).push(current@);
        assert(s@.subrange(0, i + 1).drop_last() == s@.subrange(0, i as int));
        if s[i] == sep {
            let finished = current;
            current = Vec::new();
            done.push(finished);
            assert(done@.map_values(|v: Vec<u8>| v@) == before);
        } else {
            current.push(s[i]);
            assert(done@.map_values(|v: Vec<u8>| v@).push(current@) == before.update(before.len() - 1, before.last().push(s@[i as int])));
        }
        i = i + 1;
    }
    assert(s@.subrange(0, i as int) == s@);
    let ghost before = done@.map_values(|v: Vec<u8>| v@).push(current@);
    done.push(current);
    assert(done@.map_values(|v: Vec<u8>| v@) =~= before);
    done
}

/// Drops the leading `v` characters of a text.
fn strip_v(s: &[u8]) -> (r: Vec<u8>)
    ensures
        r@ == strip_leading_v(s@),
{
    let mut i: usize = 0;
    assert(s@.subrange(0, s@.len() as int) == s@);
    while i < s.len() && s[i] == 0x76u8
        invariant
            i <= s@.len(),
            strip_leading_v(s@) == strip_leading_v(s@.subrange(i as int, s@.len() as int)),
        decreases s.len() - i,
    {
        assert(s@.subrange(i as int, s@.len() as int).drop_first() == s@.subrange(i + 1, s@.len() as int));
        i = i + 1;
    }
    assert(i == 0 ==> s@.subrange(0, s@.len() as int) == s@);
    let mut r: Vec<u8> = Vec::new();
    let mut j: usize = i;
    while j < s.len()
        invariant
            i <= j <= s@.len(),
            r@ == s@.subrange(i as int, j as int),
        decreases s.len() - j,
    {
        r.push(s[j]);
        j = j + 1;
    }
    r
}

/// The length of the white-space character that `b` starts with at `i`; zero where it starts
/// with none.
fn space_len_at(b: &[u8], i: usize) -> (n: usize)
    requires
        i <= b@.len(),
    ensures
        n == leading_space_len(b@.subrange(i as int, b@.len() as int)),
{
    let ghost t = b@.subrange(i as int, b@.len() as int);
    let len = b.len();
    if i < len && ((0x09u8 <= b[i] && b[i] <= 0x0Du8) || b[i] == 0x20u8) {
        assert(t[0] == b@[i as int]);
        1
    } else if len - i >= 2 && b[i] == 0xC2u8 && (b[i + 1] == 0x85u8 || b[i + 1] == 0xA0u8) {
        assert(t[0] == b@[i as int] && t[1] == b@[i + 1]);
        2
    } else if len - i >= 3 && is_space3_exec(b[i], b[i + 1], b[i + 2]) {
        assert(t[0] == b@[i as int] && t[1] == b@[i + 1] && t[2] == b@[i + 2]);
        3
    } else {
        proof {
            if t.len() >= 1 {
                assert(t[0] == b@[i as int]);
            }
            if t.len() >= 2 {
                assert(t[1] == b@[i + 1]);
            }
            if t.len() >= 3 {
                assert(t[2] == b@[i + 2]);
            }
        }
        0
    }
}

/// The length of the white-space character that the bytes of `b` from `start` to `end` end
/// with; zero where they end with none.
fn space_len_before(b: &[u8], start: usize, end: usize) -> (n: usize)
    requires
        start <= end <= b@.len(),
    ensures
        n == trailing_space_len(b@.subrange(start as int, end as int)),
{
    let ghost t = b@.subrange(start as int, end as int);
    let count = end - start;
    if count >= 1 && ((0x09u8 <= b[end - 1] && b[end - 1] <= 0x0Du8) || b[end - 1] == 0x20u8) {
        assert(t[t.len() - 1] == b@[end - 1]);
        1
    } else if count >= 2 && b[end - 2] == 0xC2u8 && (b[end - 1] == 0x85u8 || b[end - 1] == 0xA0u8) {
        assert(t[t.len() - 1] == b@[end - 1] && t[t.len() - 2] == b@[end - 2]);
        2
    } else if count >= 3 && is_space3_exec(b[end - 3], b[end - 2], b[end - 1]) {
        assert(t[t.len() - 1] == b@[end - 1] && t[t.len() - 2] == b@[end - 2] && t[t.len() - 3] == b@[end - 3]);
        3
    } else {
        proof {
            if t.len() >= 1 {
                assert(t[t.len() - 1] == b@[end - 1]);
            }
            if t.len() >= 2 {
                assert(t[t.len() - 2] == b@[end - 2]);
            }
            if t.len() >= 3 {
                assert(t[t.len() - 3] == b@[end - 3]);
            }
        }
        0
    }
}

/// Whether three bytes encode a three-byte white-space character.
fn is_space3_exec(a: u8, b: u8, c: u8) -> (r: bool)
    ensures
        r == is_space3(a, b, c),
{
    (a == 0xE1u8 && b == 0x9Au8 && c == 0x80u8)
        || (a == 0xE2u8 && b == 0x80u8 && ((0x80u8 <= c && c <= 0x8Au8) || c == 0xA8u8 || c == 0xA9u8 || c == 0xAFu8))
        || (a == 0xE2u8 && b == 0x81u8 && c == 0x9Fu8)
        || (a == 0xE3u8 && b == 0x80u8 && c == 0x80u8)
}

/// A UTF-8 text without the white space at both ends.
fn trim_bytes(b: &[u8]) -> (r: Vec<u8>)
    ensures
        r@ == trim_spaces(b@),
{
    let len = b.len();
    let mut start: usize = 0;
    assert(b@.subrange(0, len as int) == b@);
    loop
        invariant_except_break
            start <= len,
            len == b@.len(),
            trim_start_spaces(b@) == trim_start_spaces(b@.subrange(start as int, len as int)),
        ensures
            start <= len,
            trim_start_spaces(b@) == b@.subrange(start as int, len as int),
        decreases len - start,
    {
        let n = space_len_at(b, start);
        if n == 0 {
            break;
        }
        let ghost t = b@.subrange(start as int, len as int);
        assert(t.subrange(n as int, t.len() as int) == b@.subrange(start + n, len as int));
        start = start + n;
    }
    let mut end: usize = len;
    loop
        invariant_except_break
            start <= end <= len,
            len == b@.len(),
            trim_start_spaces(b@) == b@.subrange(start as int, len as int),
            trim_spaces(b@) == trim_end_spaces(b@.subrange(start as int, end as int)),
        ensures
            start <= end <= len,
            trim_spaces(b@) == b@.subrange(start as int, end as int),
        decreases end - start,
    {
        let n = space_len_before(b, start, end);
        if n == 0 {
            break;
        }
        let ghost t = b@.subrange(start as int, end as int);
        assert(t.subrange(0, t.len() - n) == b@.subrange(start as int, end - n));
        end = end - n;
    }
    let mut r: Vec<u8> = Vec::new();
    let mut j: usize = start;
    while j < end
        invariant
            start <= j <= end <= b@.len(),
            r@ == b@.subrange(start as int, j as int),
        decreases end - j,
    {
        r.push(b[j]);
        j = j + 1;
    }
    r
}

/// The version number of a version text, such as the one the library was built with: white
/// space at both ends and then leading `v`s are dropped, and the pieces between dots fill the
/// bytes of the number from the most significant one; a piece that is no number counts as zero, and pieces after the fourth
/// are ignored. "v4.1" gives 0x04010000 and "5.4.3.2.1" gives 0x05040302.
pub fn parse_version(text: &str) -> (r: u32)
    ensures
        r == version_number(text.spec_bytes()),
{
    let bytes = text.as_bytes();
    let trimmed = trim_bytes(bytes);
    let stripped = strip_v(trimmed.as_slice());
    let parts = split_bytes(stripped.as_slice(), 0x2Eu8);
    let ghost all = parts@.map_values(|v: Vec<u8>| v@);
    let mut version: u32 = 0;
    let mut index: usize = 0;
    while index < parts.len() && index < 4
        invariant
            index <= parts@.len(),
            index <= 4,
            all == parts@.map_values(|v: Vec<u8>| v@),
            version == version_of_parts(all.subrange(0, index as int)),
        decreases parts.len() - index,
    {
        let part_number = match parse_u32_bytes(parts[index].as_slice()) {
            Some(n) => n,
            None => 0,
        };
        let shift: u32 = 8 * (3 - index as u32);
        assert(all.subrange(0, index + 1).drop_last() == all.subrange(0, index as int));
        assert(all.subrange(0, index + 1).last() == parts@[index as int]@);
        version = version.wrapping_add(part_number << shift);
        index = index + 1;
    }
    if parts.len() > 4 {
        assert(all.subrange(0, 4) == all.subrange(0, index as int));
    } else {
        assert(all.subrange(0, index as int) == all);
    }
    version
}

// ---------------------------------------------------------------------------------------------
// Log levels
// ---------------------------------------------------------------------------------------------

/// The most detailed level that the log records.
#[derive(Clone, Copy, Debug, PartialEq, Eq, Structural)]
pub enum LevelFilter {
    Off,
    Error,
    Warn,
    Info,
    Debug,
    Trace,
}

/// The level of one message of the log.
#[derive(Clone, Copy, Debug, PartialEq, Eq, Structural)]
pub enum Level {
    Error,
    Warn,
    Info,
    Debug,
    Trace,
}

/// The C number of each log level filter.
pub open spec fn log_level_code(l: LevelFilter) -> u32 {
    match l {
        LevelFilter::Off => native::WGPULogLevel_Off,
        LevelFilter::Error => native::WGPULogLevel_Error,
        LevelFilter::Warn => native::WGPULogLevel_Warn,
        LevelFilter::Info => native::WGPULogLevel_Info,
        LevelFilter::Debug => native::WGPULogLevel_Debug,
        LevelFilter::Trace => native::WGPULogLevel_Trace,
    }
}

/// The filter that lets messages of a level and every more severe level through.
pub open spec fn filter_of_level(l: Level) -> LevelFilter {
    match l {
        Level::Error => LevelFilter::Error,
        Level::Warn => LevelFilter::Warn,
        Level::Info => LevelFilter::Info,
        Level::Debug => LevelFilter::Debug,
        Level::Trace => LevelFilter::Trace,
    }
}

/// Converts the C number of a log level; a number that names none is handed back as the error.
pub fn map_log_level(value: u32) -> (r: Result<LevelFilter, u32>)
    ensures
        forall|l: LevelFilter| (r == Ok::<LevelFilter, u32>(l)) <==> log_level_code(l) == value,
        r is Err ==> r == Err::<LevelFilter, u32>(value),
{
    match value {
        native::WGPULogLevel_Off => Ok(LevelFilter::Off),
        native::WGPULogLevel_Error => Ok(LevelFilter::Error),
        native::WGPULogLevel_Warn => Ok(LevelFilter::Warn),
        native::WGPULogLevel_Info => Ok(LevelFilter::Info),
        native::WGPULogLevel_Debug => Ok(LevelFilter::Debug),
        native::WGPULogLevel_Trace => Ok(LevelFilter::Trace),
        x => Err(x),
    }
}

/// The C number of the level of a message that is handed to the caller's log callback.
pub fn to_native_log_level(level: Level) -> (r: u32)
    ensures
        r == log_level_code(filter_of_level(level)),
{
    match level {
        Level::Error => native::WGPULogLevel_Error,
        Level::Warn => native::WGPULogLevel_Warn,
        Level::Info => native::WGPULogLevel_Info,
        Level::Debug => native::WGPULogLevel_Debug,
        Level::Trace => native::WGPULogLevel_Trace,
    }
}

/// What registering a log callback has to do beyond storing the callback.
#[derive(Clone, Copy, Debug, PartialEq, Eq, Structural)]
pub struct LoggerSetup {
    /// Install the library's logger, which happens once.
    pub install_logger: bool,
    /// The level to set the log to, where it is to change.
    pub max_level: Option<LevelFilter>,
}

/// Decides what registering a log callback does: the first registration installs the logger
/// and, where the log is off, lets warnings and errors through; later ones only replace the
/// callback.
pub fn logger_setup(initialized: bool, current_max_level: LevelFilter) -> (r: LoggerSetup)
    ensures
        r.install_logger == !initialized,
        r.max_level == if !initialized && current_max_level == LevelFilter::Off {
            Some(LevelFilter::Warn)
        } else {
            None
        },
{
    if initialized {
        LoggerSetup { install_logger: false, max_level: None }
    } else if current_max_level == LevelFilter::Off {
        LoggerSetup { install_logger: true, max_level: Some(LevelFilter::Warn) }
    } else {
        LoggerSetup { install_logger: true, max_level: None }
    }
}

/// A message's level, set as the log's level through the C interface, reads back as that level:
/// the numbers of the levels of messages and of filters agree.
pub proof fn log_level_round_trip(level: Level)
    ensures
        log_level_code(filter_of_level(level)) != native::WGPULogLevel_Off,
        forall|l: LevelFilter| #[trigger] log_level_code(l) == log_level_code(filter_of_level(level)) ==> l == filter_of_level(level),
{
}

/// Each log level filter is numbered by the header constant of the same name.
pub proof fn log_level_numbers_are_the_header_constants()
    ensures
        log_level_code(LevelFilter::Off) == native::WGPULogLevel_Off,
        log_level_code(LevelFilter::Error) == native::WGPULogLevel_Error,
        log_level_code(LevelFilter::Warn) == native::WGPULogLevel_Warn,
        log_level_code(LevelFilter::Info) == native::WGPULogLevel_Info,
        log_level_code(LevelFilter::Debug) == native::WGPULogLevel_Debug,
        log_level_code(LevelFilter::Trace) == native::WGPULogLevel_Trace,
{
}

/// Each level that a message is logged at is passed on to the C callback as the filter of the
/// same name, so under the number of the same name.
pub proof fn message_levels_are_their_header_constants()
    ensures
        log_level_code(filter_of_level(Level::Error)) == native::WGPULogLevel_Error,
        log_level_code(filter_of_level(Level::Warn)) == native::WGPULogLevel_Warn,
        log_level_code(filter_of_level(Level::Info)) == native::WGPULogLevel_Info,
        log_level_code(filter_of_level(Level::Debug)) == native::WGPULogLevel_Debug,
        log_level_code(filter_of_level(Level::Trace)) == native::WGPULogLevel_Trace,
{
}

} // verus!
