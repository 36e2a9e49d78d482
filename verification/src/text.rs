//! Character-level helpers: searching, decimal numbers, trimming, letter case, lines and UTF-8.
//!
//! Strings are modelled as sequences of characters throughout.

use vstd::prelude::*;
use vstd::utf8::{
    decode_utf8, decode_utf8_encode_utf8, encode_scalar, encode_utf8, encode_utf8_decode_utf8,
    encode_utf8_first_scalar, encode_utf8_valid_utf8, is_char_boundary,
    is_char_boundary_iff_not_is_continuation_byte, is_continuation_byte, length_of_first_scalar,
    pop_first_scalar, valid_first_scalar, valid_utf8, valid_utf8_split,
};

use crate::record::views;

verus! {

/// `String::push` appends the character to the end of the string.
pub assume_specification[ String::push ](s: &mut String, c: char)
    ensures
        final(s)@ == old(s)@.push(c),
;

/// The characters of a string, in order.
pub(crate) fn chars_of(s: &str) -> (chars: Vec<char>)
    ensures
        chars@ == s@,
{
    let mut chars: Vec<char> = Vec::new();
    for c in it: s.chars()
        invariant
            it.seq() == s@,
            chars@ == s@.take(it.index() as int),
    {
        proof {
            assert(s@.take(it.index() + 1) =~= s@.take(it.index() as int).push(c));
        }
        chars.push(c);
    }
    assert(s@.take(s@.len() as int) =~= s@);
    chars
}

/// Whether two strings hold the same characters.
pub(crate) fn same_text(a: &str, b: &str) -> (same: bool)
    ensures
        same == (a@ == b@),
{
    let x = chars_of(a);
    let y = chars_of(b);
    if x.len() != y.len() {
        return false;
    }
    let mut i: usize = 0;
    while i < x.len()
        invariant
            i <= x.len(),
            x@ == a@,
            y@ == b@,
            x.len() == y.len(),
            forall|j: int| 0 <= j < i ==> x@[j] == y@[j],
        decreases x.len() - i,
    {
        if x[i] != y[i] {
            return false;
        }
        i += 1;
    }
    assert(x@ =~= y@);
    true
}

/// The string that the characters make up.
pub(crate) fn string_of(chars: &Vec<char>) -> (s: String)
    ensures
        s@ == chars@,
{
    let mut s = String::new();
    let mut i: usize = 0;
    while i < chars.len()
        invariant
            i <= chars.len(),
            s@ == chars@.take(i as int),
        decreases chars.len() - i,
    {
        proof {
            assert(chars@.take(i + 1) =~= chars@.take(i as int).push(chars@[i as int]));
        }
        s.push(chars[i]);
        i += 1;
    }
    assert(chars@.take(i as int) =~= chars@);
    s
}

// ---------------------------------------------------------------------------
// Searching
// ---------------------------------------------------------------------------

/// The pattern stands in the text at position `i`.
pub open spec fn occurs_at(text: Seq<char>, pattern: Seq<char>, i: int) -> bool {
    &&& 0 <= i
    &&& i + pattern.len() <= text.len()
    &&& text.subrange(i, i + pattern.len()) == pattern
}

/// Position `i` is the first at which the pattern stands in the text.
pub open spec fn first_at(text: Seq<char>, pattern: Seq<char>, i: int) -> bool {
    &&& occurs_at(text, pattern, i)
    &&& forall|j: int| 0 <= j < i ==> !occurs_at(text, pattern, j)
}

/// Where the pattern first stands in the text, if it does.
pub open spec fn find(text: Seq<char>, pattern: Seq<char>) -> Option<int> {
    if exists|i: int| first_at(text, pattern, i) {
        Some(choose|i: int| first_at(text, pattern, i))
    } else {
        None
    }
}

/// There is at most one first position.
pub proof fn lemma_find(text: Seq<char>, pattern: Seq<char>, i: int)
    requires
        first_at(text, pattern, i),
    ensures
        find(text, pattern) == Some(i),
{
    let k = choose|k: int| first_at(text, pattern, k);
    if k < i {
        assert(!occurs_at(text, pattern, k));
    } else if i < k {
        assert(!occurs_at(text, pattern, i));
    }
}

/// Where the pattern stands at all, it first stands somewhere.
pub proof fn lemma_find_some(text: Seq<char>, pattern: Seq<char>, i: int)
    requires
        occurs_at(text, pattern, i),
    ensures
        find(text, pattern) matches Some(k) && 0 <= k <= i && first_at(text, pattern, k),
    decreases i,
{
    if exists|j: int| 0 <= j < i && occurs_at(text, pattern, j) {
        let j = choose|j: int| 0 <= j < i && occurs_at(text, pattern, j);
        lemma_find_some(text, pattern, j);
    } else {
        lemma_find(text, pattern, i);
    }
}

/// Whether the pattern stands in the text at position `i`.
pub(crate) fn stands_at(text: &Vec<char>, pattern: &Vec<char>, i: usize) -> (stands: bool)
    requires
        i <= text.len(),
    ensures
        stands == occurs_at(text@, pattern@, i as int),
{
    if text.len() - i < pattern.len() {
        return false;
    }
    let mut k: usize = 0;
    while k < pattern.len()
        invariant
            k <= pattern.len(),
            i + pattern.len() <= text.len(),
            forall|j: int| 0 <= j < k ==> text@[i + j] == pattern@[j],
        decreases pattern.len() - k,
    {
        if text[i + k] != pattern[k] {
            assert(text@.subrange(i as int, i + pattern.len())[k as int] != pattern@[k as int]);
            return false;
        }
        k += 1;
    }
    assert(text@.subrange(i as int, i + pattern.len()) =~= pattern@);
    true
}

/// Where the pattern first stands in the text, if it does.
pub(crate) fn find_in(text: &Vec<char>, pattern: &str) -> (at: Option<usize>)
    ensures
        find(text@, pattern@) == (match at {
            Some(i) => Some(i as int),
            None => None,
        }),
        at matches Some(i) ==> first_at(text@, pattern@, i as int),
{
    let wanted = chars_of(pattern);
    let mut i: usize = 0;
    while i < text.len()
        invariant
            i <= text.len(),
            wanted@ == pattern@,
            forall|j: int| 0 <= j < i ==> !occurs_at(text@, pattern@, j),
        decreases text.len() - i,
    {
        if stands_at(text, &wanted, i) {
            proof {
                lemma_find(text@, pattern@, i as int);
            }
            return Some(i);
        }
        i += 1;
    }
    if stands_at(text, &wanted, i) {
        proof {
            lemma_find(text@, pattern@, i as int);
        }
        return Some(i);
    }
    None
}

// ---------------------------------------------------------------------------
// Decimal numbers
// ---------------------------------------------------------------------------

/// The decimal digit of a number below ten.
pub open spec fn digit(d: nat) -> char {
    (48 + d) as char
}

/// A natural number in decimal, without leading zeros.
pub open spec fn u64_text(n: nat) -> Seq<char>
    decreases n,
{
    if n < 10 {
        seq![digit(n)]
    } else {
        u64_text(n / 10).push(digit(n % 10))
    }
}

/// An integer in decimal, with a minus sign if it is negative.
pub open spec fn i64_text(i: int) -> Seq<char> {
    if i < 0 {
        seq!['-'] + u64_text((-i) as nat)
    } else {
        u64_text(i as nat)
    }
}

fn digit_char(d: u64) -> (c: char)
    requires
        d < 10,
    ensures
        c == digit(d as nat),
{
    let b: u8 = 48 + d as u8;
    b as char
}

/// Appends `n` in decimal.
pub(crate) fn push_u64(out: &mut String, n: u64)
    ensures
        final(out)@ == old(out)@ + u64_text(n as nat),
    decreases n,
{
    if n >= 10 {
        push_u64(out, n / 10);
    }
    out.push(digit_char(n % 10));
    proof {
        if n >= 10 {
            assert(old(out)@ + u64_text((n / 10) as nat).push(digit((n % 10) as nat)) =~= (old(out)@
                + u64_text((n / 10) as nat)).push(digit((n % 10) as nat)));
        } else {
            assert(old(out)@ + seq![digit(n as nat)] =~= old(out)@.push(digit(n as nat)));
        }
    }
}

/// Appends `i` in decimal.
pub(crate) fn push_i64(out: &mut String, i: i64)
    ensures
        final(out)@ == old(out)@ + i64_text(i as int),
{
    if i < 0 {
        out.push('-');
        let magnitude: u64 = (-(i as i128)) as u64;
        push_u64(out, magnitude);
        proof {
            let digits = u64_text((-i) as nat);
            assert(old(out)@.push('-') + digits =~= old(out)@ + (seq!['-'] + digits));
        }
    } else {
        push_u64(out, i as u64);
    }
}

// ---------------------------------------------------------------------------
// Trimming
// ---------------------------------------------------------------------------

/// The character is white space, as Unicode has it.
#[verifier::opaque]
pub open spec fn blank(c: char) -> bool {
    ||| '\u{9}' <= c <= '\u{d}'
    ||| c == ' '
    ||| c == '\u{85}'
    ||| c == '\u{a0}'
    ||| c == '\u{1680}'
    ||| '\u{2000}' <= c <= '\u{200a}'
    ||| c == '\u{2028}'
    ||| c == '\u{2029}'
    ||| c == '\u{202f}'
    ||| c == '\u{205f}'
    ||| c == '\u{3000}'
}

fn is_blank(c: char) -> (is: bool)
    ensures
        is == blank(c),
{
    reveal(blank);
    ('\u{9}' <= c && c <= '\u{d}') || c == ' ' || c == '\u{85}' || c == '\u{a0}' || c
        == '\u{1680}' || ('\u{2000}' <= c && c <= '\u{200a}') || c == '\u{2028}' || c == '\u{2029}'
        || c == '\u{202f}' || c == '\u{205f}' || c == '\u{3000}'
}

/// The text without white space at its ends.
pub open spec fn trimmed(text: Seq<char>) -> Seq<char>
    decreases text.len(),
{
    if text.len() == 0 {
        text
    } else if blank(text.first()) {
        trimmed(text.drop_first())
    } else if blank(text.last()) {
        trimmed(text.drop_last())
    } else {
        text
    }
}

/// Takes the white space off the ends of a text.
pub(crate) fn trim(text: &str) -> (rest: &str)
    ensures
        rest@ == trimmed(text@),
{
    let chars = chars_of(text);
    let mut from: usize = 0;
    let mut to: usize = chars.len();
    assert(text@.subrange(0, to as int) =~= text@);
    while from < to && is_blank(chars[from])
        invariant
            from <= to == chars.len(),
            chars@ == text@,
            trimmed(text@) == trimmed(text@.subrange(from as int, to as int)),
        decreases to - from,
    {
        assert(text@.subrange(from as int, to as int).drop_first() =~= text@.subrange(
            from + 1,
            to as int,
        ));
        from += 1;
    }
    while from < to && is_blank(chars[to - 1])
        invariant
            from <= to <= chars.len(),
            chars@ == text@,
            from < to ==> !blank(chars@[from as int]),
            trimmed(text@) == trimmed(text@.subrange(from as int, to as int)),
        decreases to - from,
    {
        assert(text@.subrange(from as int, to as int).drop_last() =~= text@.subrange(
            from as int,
            to - 1,
        ));
        to -= 1;
    }
    assert(trimmed(text@.subrange(from as int, to as int)) == text@.subrange(
        from as int,
        to as int,
    ));
    text.substring_char(from, to)
}

// ---------------------------------------------------------------------------
// Letter case
// ---------------------------------------------------------------------------

/// The small letter of an ASCII capital, and any other character itself.
pub open spec fn lower(c: char) -> char {
    if 'A' <= c <= 'Z' {
        (c as u8 + 32) as char
    } else {
        c
    }
}

/// The text with small letters for ASCII capitals.
pub open spec fn lowered(text: Seq<char>) -> Seq<char> {
    text.map_values(|c: char| lower(c))
}

/// The characters of a text, with small letters for ASCII capitals.
pub(crate) fn lower_chars(text: &str) -> (chars: Vec<char>)
    ensures
        chars@ == lowered(text@),
{
    let mut chars: Vec<char> = Vec::new();
    for c in it: text.chars()
        invariant
            it.seq() == text@,
            chars@ == lowered(text@.take(it.index() as int)),
    {
        proof {
            assert(lowered(text@.take(it.index() + 1)) =~= lowered(
                text@.take(it.index() as int),
            ).push(lower(c)));
        }
        if 'A' <= c && c <= 'Z' {
            chars.push((c as u8 + 32) as char);
        } else {
            chars.push(c);
        }
    }
    assert(text@.take(text@.len() as int) =~= text@);
    chars
}

// ---------------------------------------------------------------------------
// Lines
// ---------------------------------------------------------------------------

/// A line without the carriage return that belonged to its line feed.
pub open spec fn without_return(line: Seq<char>) -> Seq<char> {
    if line.len() > 0 && line.last() == '\r' {
        line.drop_last()
    } else {
        line
    }
}

/// The lines of a text. A line ends with a line feed, or a carriage return and a line feed; the
/// last one need not.
pub open spec fn lines(text: Seq<char>) -> Seq<Seq<char>>
    decreases text.len(),
{
    if text.len() == 0 {
        Seq::empty()
    } else {
        proof {
            text.index_of_first_ensures('\n');
        }
        match text.index_of_first('\n') {
            Some(end) => seq![without_return(text.take(end))] + lines(text.skip(end + 1)),
            None => seq![text],
        }
    }
}

/// The lines of a text.
pub(crate) fn lines_of(text: &str) -> (found: Vec<String>)
    ensures
        views(found@) == lines(text@),
{
    let chars = chars_of(text);
    let mut found: Vec<String> = Vec::new();
    let mut from: usize = 0;
    assert(views(found@) + lines(text@.skip(0)) =~= lines(text@)) by {
        assert(text@.skip(0) =~= text@);
    }
    while from < chars.len()
        invariant
            from <= chars.len(),
            chars@ == text@,
            views(found@) + lines(text@.skip(from as int)) == lines(text@),
        decreases chars.len() - from,
    {
        let ghost rest = text@.skip(from as int);
        let mut end: usize = from;
        while end < chars.len() && chars[end] != '\n'
            invariant
                from <= end <= chars.len(),
                chars@ == text@,
                forall|j: int| from <= j < end ==> chars@[j] != '\n',
            decreases chars.len() - end,
        {
            end += 1;
        }
        proof {
            rest.index_of_first_ensures('\n');
        }
        if end < chars.len() {
            proof {
                assert(rest[end - from] == '\n');
                assert(rest.index_of_first('\n') == Some(end - from));
                assert(rest.take(end - from) =~= text@.subrange(from as int, end as int));
                assert(rest.skip(end - from + 1) =~= text@.skip(end + 1));
            }
            let stop: usize = if end > from && chars[end - 1] == '\r' {
                end - 1
            } else {
                end
            };
            let line = text.substring_char(from, stop).to_owned();
            assert(line@ =~= without_return(rest.take(end - from)));
            assert(views(found@.push(line)) =~= views(found@).push(line@));
            assert(views(found@).push(line@) + lines(text@.skip(end + 1)) =~= views(found@) + (
            seq![line@] + lines(text@.skip(end + 1))));
            found.push(line);
            from = end + 1;
        } else {
            proof {
                assert(!rest.contains('\n'));
                assert(text@.subrange(from as int, end as int) =~= rest);
                assert(text@.skip(end as int) =~= Seq::empty());
            }
            let line = text.substring_char(from, end).to_owned();
            assert(views(found@.push(line)) =~= views(found@).push(line@));
            assert(views(found@).push(line@) =~= views(found@) + seq![line@]);
            found.push(line);
            from = end;
        }
    }
    assert(text@.skip(from as int) =~= Seq::empty());
    found
}

// ---------------------------------------------------------------------------
// Bytes
// ---------------------------------------------------------------------------

/// How many bytes the UTF-8 form of a text takes.
pub open spec fn byte_len(text: Seq<char>) -> nat {
    encode_utf8(text).len()
}

/// The UTF-8 form of two texts in a row is that of the one and that of the other.
pub proof fn lemma_encode_concat(a: Seq<char>, b: Seq<char>)
    ensures
        encode_utf8(a + b) == encode_utf8(a) + encode_utf8(b),
    decreases a.len(),
{
    if a.len() == 0 {
        assert(a + b =~= b);
    } else {
        lemma_encode_concat(a.drop_first(), b);
        assert((a + b).drop_first() =~= a.drop_first() + b);
        assert(encode_utf8(a + b) =~= encode_utf8(a) + encode_utf8(b));
    }
}

/// A text can be cut where one of its parts ends.
proof fn lemma_part_is_boundary(a: Seq<char>, b: Seq<char>)
    ensures
        is_char_boundary(encode_utf8(a + b), byte_len(a) as int),
    decreases a.len(),
{
    let bytes = encode_utf8(a + b);
    encode_utf8_valid_utf8(a + b);
    if a.len() > 0 {
        encode_utf8_first_scalar(a + b);
        assert((a + b).drop_first() =~= a.drop_first() + b);
        assert(pop_first_scalar(bytes) =~= encode_utf8(a.drop_first() + b));
        lemma_part_is_boundary(a.drop_first(), b);
        lemma_encode_concat(a, b);
        assert(byte_len(a) == length_of_first_scalar(bytes) + byte_len(a.drop_first()));
    }
}

/// Cutting a text at a character is cutting its UTF-8 form at that character's offset.
pub proof fn lemma_cut(text: Seq<char>, i: int)
    requires
        0 <= i <= text.len(),
    ensures
        is_char_boundary(encode_utf8(text), byte_len(text.take(i)) as int),
        byte_len(text.take(i)) <= byte_len(text),
        encode_utf8(text).subrange(0, byte_len(text.take(i)) as int) == encode_utf8(text.take(i)),
        encode_utf8(text).subrange(byte_len(text.take(i)) as int, byte_len(text) as int)
            == encode_utf8(text.skip(i)),
{
    assert(text.take(i) + text.skip(i) =~= text);
    lemma_part_is_boundary(text.take(i), text.skip(i));
    lemma_encode_concat(text.take(i), text.skip(i));
    assert(encode_utf8(text).subrange(0, byte_len(text.take(i)) as int) =~= encode_utf8(
        text.take(i),
    ));
    assert(encode_utf8(text).subrange(byte_len(text.take(i)) as int, byte_len(text) as int)
        =~= encode_utf8(text.skip(i)));
}

/// Bytes that are the UTF-8 form of two texts in a row say the one and then the other.
pub proof fn lemma_decode_concat(a: Seq<u8>, b: Seq<u8>)
    requires
        valid_utf8(a),
        valid_utf8(b),
    ensures
        valid_utf8(a + b),
        decode_utf8(a + b) == decode_utf8(a) + decode_utf8(b),
{
    decode_utf8_encode_utf8(a);
    decode_utf8_encode_utf8(b);
    lemma_encode_concat(decode_utf8(a), decode_utf8(b));
    encode_utf8_valid_utf8(decode_utf8(a) + decode_utf8(b));
    encode_utf8_decode_utf8(decode_utf8(a) + decode_utf8(b));
}

/// How many bytes the UTF-8 form of a character takes.
fn utf8_width(c: char) -> (width: usize)
    ensures
        width == encode_scalar(c as u32).len(),
{
    let code: u32 = c as u32;
    if code < 0x80 {
        1
    } else if code < 0x800 {
        2
    } else if code < 0x10000 {
        3
    } else {
        4
    }
}

/// The offset, in bytes, of a character.
pub(crate) fn offset_of(text: &str, chars: &Vec<char>, i: usize) -> (offset: usize)
    requires
        chars@ == text@,
        i <= chars.len(),
    ensures
        offset == byte_len(text@.take(i as int)),
{
    let bound: usize = text.as_bytes().len();
    let mut offset: usize = 0;
    let mut k: usize = 0;
    while k < i
        invariant
            k <= i <= chars.len(),
            chars@ == text@,
            bound == byte_len(text@),
            offset == byte_len(text@.take(k as int)),
        decreases i - k,
    {
        proof {
            let c = chars@[k as int];
            lemma_cut(text@, k + 1);
            assert(text@.take(k + 1) =~= text@.take(k as int) + seq![c]);
            lemma_encode_concat(text@.take(k as int), seq![c]);
            reveal_with_fuel(encode_utf8, 2);
            assert(encode_utf8(seq![c]) =~= encode_scalar(c as u32));
        }
        offset += utf8_width(chars[k]);
        k += 1;
    }
    offset
}

/// Cuts a text at a character that is given by its offset in bytes.
pub(crate) fn cut(text: &str, offset: usize, Ghost(i): Ghost<int>) -> (parts: (&str, &str))
    requires
        0 <= i <= text@.len(),
        offset == byte_len(text@.take(i)),
    ensures
        parts.0@ == text@.take(i),
        parts.1@ == text@.skip(i),
{
    proof {
        lemma_cut(text@, i);
    }
    let parts = text.split_at(offset);
    proof {
        encode_utf8_decode_utf8(parts.0@);
        encode_utf8_decode_utf8(parts.1@);
        encode_utf8_decode_utf8(text@.take(i));
        encode_utf8_decode_utf8(text@.skip(i));
    }
    parts
}

// ---------------------------------------------------------------------------
// Characters that are cut
// ---------------------------------------------------------------------------

/// How many bytes at the end are the beginning of a character of which more is to come.
pub open spec fn unfinished(bytes: Seq<u8>) -> nat {
    let n = bytes.len() as int;
    if n >= 1 && 0xc0 <= bytes[n - 1] <= 0xf7 {
        1
    } else if n >= 2 && 0xe0 <= bytes[n - 2] <= 0xf7 && is_continuation_byte(bytes[n - 1]) {
        2
    } else if n >= 3 && 0xf0 <= bytes[n - 3] <= 0xf7 && is_continuation_byte(bytes[n - 2])
        && is_continuation_byte(bytes[n - 1]) {
        3
    } else {
        0
    }
}

fn is_continuation(byte: u8) -> (is: bool)
    ensures
        is == is_continuation_byte(byte),
{
    0x80 <= byte && byte <= 0xbf
}

/// How many bytes at the end are the beginning of a character of which more is to come.
pub(crate) fn unfinished_len(bytes: &Vec<u8>) -> (len: usize)
    ensures
        len == unfinished(bytes@),
{
    let n: usize = bytes.len();
    if n >= 1 && 0xc0 <= bytes[n - 1] && bytes[n - 1] <= 0xf7 {
        1
    } else if n >= 2 && 0xe0 <= bytes[n - 2] && bytes[n - 2] <= 0xf7 && is_continuation(
        bytes[n - 1],
    ) {
        2
    } else if n >= 3 && 0xf0 <= bytes[n - 3] && bytes[n - 3] <= 0xf7 && is_continuation(
        bytes[n - 2],
    ) && is_continuation(bytes[n - 1]) {
        3
    } else {
        0
    }
}

/// A cut inside a character leaves the beginning of that character unfinished.
proof fn lemma_cut_inside(bytes: Seq<u8>, k: int)
    requires
        valid_utf8(bytes),
        0 <= k <= bytes.len(),
        !is_char_boundary(bytes, k),
    ensures
        unfinished(bytes.take(k)) > 0,
    decreases bytes.len(),
{
    if k < length_of_first_scalar(bytes) {
        assert(valid_first_scalar(bytes));
    } else {
        let rest = pop_first_scalar(bytes);
        let first = length_of_first_scalar(bytes);
        lemma_cut_inside(rest, k - first);
        let part = rest.take(k - first);
        assert(forall|i: int| 0 <= i < part.len() ==> part[i] == bytes.take(k)[first + i]);
    }
}

/// Without the beginning of a character that is cut, a part of UTF-8 text is UTF-8 text, and so is
/// that beginning with the rest of the text.
pub proof fn lemma_unfinished(bytes: Seq<u8>, k: int)
    requires
        valid_utf8(bytes),
        0 <= k <= bytes.len(),
    ensures
        unfinished(bytes.take(k)) <= k,
        valid_utf8(bytes.take(k - unfinished(bytes.take(k)))),
        valid_utf8(bytes.skip(k - unfinished(bytes.take(k)))),
{
    let cut = k - unfinished(bytes.take(k));
    if unfinished(bytes.take(k)) > 0 {
        is_char_boundary_iff_not_is_continuation_byte(bytes, cut);
    } else if !is_char_boundary(bytes, k) {
        lemma_cut_inside(bytes, k);
    }
    valid_utf8_split(bytes, cut);
    assert(bytes.subrange(0, cut) =~= bytes.take(cut));
    assert(bytes.subrange(cut, bytes.len() as int) =~= bytes.skip(cut));
}

/// The beginning of a character is all that is unfinished of it.
pub proof fn lemma_unfinished_alone(bytes: Seq<u8>)
    ensures
        unfinished(bytes) <= bytes.len(),
        unfinished(bytes.skip(bytes.len() - unfinished(bytes))) == unfinished(bytes),
{
}

/// The beginning of a character is no text.
pub proof fn lemma_beginning_is_no_text(bytes: Seq<u8>)
    requires
        valid_utf8(bytes),
        unfinished(bytes) == bytes.len(),
    ensures
        bytes.len() == 0,
{
    if bytes.len() > 0 {
        assert(valid_first_scalar(bytes));
    }
}

// ---------------------------------------------------------------------------
// Laws
// ---------------------------------------------------------------------------

/// A pattern is found where it first stands, and not found exactly if it stands nowhere.
pub proof fn law_find_gives_the_first_place(text: Seq<char>, pattern: Seq<char>, i: int)
    ensures
        find(text, pattern) == Some(i) <==> {
            &&& 0 <= i
            &&& i + pattern.len() <= text.len()
            &&& text.subrange(i, i + pattern.len()) == pattern
            &&& forall|j: int|
                0 <= j < i ==> #[trigger] text.subrange(j, j + pattern.len()) != pattern
        },
        find(text, pattern) is None ==> !(0 <= i && i + pattern.len() <= text.len()
            && text.subrange(i, i + pattern.len()) == pattern),
{
    if first_at(text, pattern, i) {
        lemma_find(text, pattern, i);
    }
    if find(text, pattern) is Some {
        let k = find(text, pattern)->0;
        assert(first_at(text, pattern, k));
        assert forall|j: int| 0 <= j < k implies #[trigger] text.subrange(j, j + pattern.len())
            != pattern by {
            assert(!occurs_at(text, pattern, j));
        }
    }
    if occurs_at(text, pattern, i) {
        lemma_find_some(text, pattern, i);
        let k = find(text, pattern)->0;
        if k < i {
            assert(text.subrange(k, k + pattern.len()) == pattern);
        }
    }
}

/// The number that decimal digits denote.
pub open spec fn decimal_value(digits: Seq<char>) -> int
    decreases digits.len(),
{
    if digits.len() == 0 {
        0
    } else {
        10 * decimal_value(digits.drop_last()) + (digits.last() as int - '0' as int)
    }
}

/// A number is written in decimal digits that denote it, without a zero in front.
pub proof fn law_number_is_written_in_decimal(n: nat)
    ensures
        u64_text(n).len() > 0,
        forall|i: int| 0 <= i < u64_text(n).len() ==> '0' <= #[trigger] u64_text(n)[i] <= '9',
        decimal_value(u64_text(n)) == n,
        n > 0 ==> u64_text(n)[0] != '0',
        n == 0 ==> u64_text(n) == seq!['0'],
    decreases n,
{
    reveal_with_fuel(decimal_value, 2);
    if n < 10 {
        assert(u64_text(n).drop_last() =~= Seq::empty());
    } else {
        law_number_is_written_in_decimal(n / 10);
        assert(u64_text(n).drop_last() =~= u64_text(n / 10));
    }
}

/// A negative number is written as its amount behind a minus sign.
pub proof fn law_sign_is_written_in_front(i: int)
    ensures
        i >= 0 ==> i64_text(i) == u64_text(i as nat),
        i < 0 ==> i64_text(i) == seq!['-'] + u64_text((-i) as nat),
{
}

/// White space is what Unicode says it is.
pub proof fn law_white_space_is_that_of_unicode(c: char)
    ensures
        blank(c) <==> ({
            let code = c as u32;
            ||| 0x9 <= code <= 0xd
            ||| code == 0x20
            ||| code == 0x85
            ||| code == 0xa0
            ||| code == 0x1680
            ||| 0x2000 <= code <= 0x200a
            ||| code == 0x2028
            ||| code == 0x2029
            ||| code == 0x202f
            ||| code == 0x205f
            ||| code == 0x3000
        }),
{
    reveal(blank);
}

/// Trimming takes white space off both ends, all of it and nothing else.
pub proof fn law_trimming_takes_white_space_off_the_ends(
    before: Seq<char>,
    text: Seq<char>,
    behind: Seq<char>,
)
    requires
        forall|i: int| 0 <= i < before.len() ==> blank(#[trigger] before[i]),
        forall|i: int| 0 <= i < behind.len() ==> blank(#[trigger] behind[i]),
        text.len() > 0 ==> !blank(text.first()) && !blank(text.last()),
    ensures
        trimmed(before + text + behind) == text,
    decreases before.len() + behind.len(),
{
    let whole = before + text + behind;
    if before.len() > 0 {
        assert(whole.first() == before[0]);
        assert(whole.drop_first() =~= before.drop_first() + text + behind);
        law_trimming_takes_white_space_off_the_ends(before.drop_first(), text, behind);
    } else if text.len() == 0 {
        if behind.len() > 0 {
            assert(whole =~= behind);
            assert(whole.drop_first() =~= before + text + behind.drop_first());
            law_trimming_takes_white_space_off_the_ends(before, text, behind.drop_first());
        } else {
            assert(whole =~= text);
        }
    } else if behind.len() > 0 {
        assert(whole.first() == text.first());
        assert(whole.last() == behind.last());
        assert(whole.drop_last() =~= before + text + behind.drop_last());
        law_trimming_takes_white_space_off_the_ends(before, text, behind.drop_last());
    } else {
        assert(whole =~= text);
    }
}

/// Lowering changes ASCII capitals alone, each to its small letter.
pub proof fn law_lowering_changes_capitals_alone(text: Seq<char>, i: int)
    requires
        0 <= i < text.len(),
    ensures
        lowered(text).len() == text.len(),
        'A' <= text[i] <= 'Z' ==> lowered(text)[i] as int == text[i] as int + 32,
        !('A' <= text[i] <= 'Z') ==> lowered(text)[i] == text[i],
        lower(text[i]) == lowered(text)[i],
{
}

/// A text ends its first line with its first line feed, and a carriage return before that belongs
/// to the end of the line. What follows are the further lines.
pub proof fn law_line_ends_with_its_line_feed(line: Seq<char>, rest: Seq<char>)
    requires
        !line.contains('\n'),
    ensures
        line.len() == 0 || line.last() != '\r' ==> lines(line + seq!['\n'] + rest) == seq![line]
            + lines(rest),
        lines(line + seq!['\r', '\n'] + rest) == seq![line] + lines(rest),
{
    lemma_first_line(line, rest);
    let returned = line.push('\r');
    assert(!returned.contains('\n')) by {
        if returned.contains('\n') {
            let i = choose|i: int| 0 <= i < returned.len() && returned[i] == '\n';
            assert(line[i] == '\n');
        }
    }
    lemma_first_line(returned, rest);
    assert(returned + seq!['\n'] + rest =~= line + seq!['\r', '\n'] + rest);
    assert(returned.drop_last() =~= line);
}

proof fn lemma_first_line(line: Seq<char>, rest: Seq<char>)
    requires
        !line.contains('\n'),
    ensures
        lines(line + seq!['\n'] + rest) == seq![without_return(line)] + lines(rest),
{
    let text = line + seq!['\n'] + rest;
    let end = line.len() as int;
    text.index_of_first_ensures('\n');
    assert(text[end] == '\n');
    let found = text.index_of_first('\n')->0;
    if found < end {
        assert(line[found] == '\n');
    }
    assert(found == end);
    assert(text.take(end) =~= line);
    assert(text.skip(end + 1) =~= rest);
}

/// A text without a line feed is one line, all of it, and an empty text has none.
pub proof fn law_last_line_needs_no_line_feed(line: Seq<char>)
    requires
        !line.contains('\n'),
    ensures
        line.len() > 0 ==> lines(line) == seq![line],
        line.len() == 0 ==> lines(line).len() == 0,
{
    line.index_of_first_ensures('\n');
}

/// The bytes of a text are counted in its UTF-8 form.
pub proof fn law_bytes_are_those_of_utf8(text: Seq<char>)
    ensures
        byte_len(text) == encode_utf8(text).len(),
{
}

} // verus!
