//! Small text utilities shared by the route, query and request builders.
//!
//! Everything here works on the character view of a string (`Seq<char>`), so
//! that the contracts of the callers can be stated over plain sequences.

use vstd::prelude::*;
use vstd::utf8::*;

verus! {

/// The decimal digit that stands for `d`, for `d` below ten.
pub open spec fn digit(d: nat) -> char {
    if d == 0 {
        '0'
    } else if d == 1 {
        '1'
    } else if d == 2 {
        '2'
    } else if d == 3 {
        '3'
    } else if d == 4 {
        '4'
    } else if d == 5 {
        '5'
    } else if d == 6 {
        '6'
    } else if d == 7 {
        '7'
    } else if d == 8 {
        '8'
    } else {
        '9'
    }
}

/// The decimal rendering of `n`, most significant digit first, without
/// leading zeros (`0` renders as `"0"`).
pub open spec fn decimal(n: nat) -> Seq<char>
    decreases n,
{
    if n < 10 {
        seq![digit(n)]
    } else {
        decimal(n / 10).push(digit(n % 10))
    }
}

/// `"true"` or `"false"`.
pub open spec fn bool_text(b: bool) -> Seq<char> {
    if b {
        "true"@
    } else {
        "false"@
    }
}

/// The strings of `words` in order, with `sep` between each two neighbours.
pub open spec fn joined(words: Seq<Seq<char>>, sep: Seq<char>) -> Seq<char>
    decreases words.len(),
{
    if words.len() == 0 {
        Seq::empty()
    } else if words.len() == 1 {
        words[0]
    } else {
        joined(words.drop_last(), sep) + sep + words.last()
    }
}

/// The character views of a vector of strings.
pub open spec fn views(words: Seq<String>) -> Seq<Seq<char>> {
    words.map_values(|w: String| w@)
}

/// `std::string::String::push`: the string grows by exactly the one
/// character, at its end.
#[verifier::external_body]
pub(crate) fn push_char(s: &mut String, c: char)
    ensures
        final(s)@ == old(s)@.push(c),
{
    s.push(c)
}

/// The decimal digit that stands for `d`.
fn digit_char(d: u32) -> (c: char)
    requires
        d < 10,
    ensures
        c == digit(d as nat),
{
    if d == 0 {
        '0'
    } else if d == 1 {
        '1'
    } else if d == 2 {
        '2'
    } else if d == 3 {
        '3'
    } else if d == 4 {
        '4'
    } else if d == 5 {
        '5'
    } else if d == 6 {
        '6'
    } else if d == 7 {
        '7'
    } else if d == 8 {
        '8'
    } else {
        '9'
    }
}

/// Renders an unsigned number in decimal.
pub fn decimal_string(n: u32) -> (s: String)
    ensures
        s@ == decimal(n as nat),
    decreases n,
{
    if n < 10 {
        let mut s = String::new();
        push_char(&mut s, digit_char(n));
        s
    } else {
        let mut s = decimal_string(n / 10);
        push_char(&mut s, digit_char(n % 10));
        s
    }
}

/// Renders a flag as `"true"` or `"false"`.
pub fn bool_string(b: bool) -> (s: String)
    ensures
        s@ == bool_text(b),
{
    if b {
        String::from_str("true")
    } else {
        String::from_str("false")
    }
}

/// Joins `words` with `sep` between neighbours; no separator leads or trails.
pub fn join(words: &Vec<String>, sep: &str) -> (s: String)
    ensures
        s@ == joined(views(words@), sep@),
{
    let mut out = String::new();
    let mut i: usize = 0;
    while i < words.len()
        invariant
            i <= words.len(),
            out@ == joined(views(words@).take(i as int), sep@),
        decreases words.len() - i,
    {
        proof {
            let all = views(words@);
            assert(all.take(i + 1).drop_last() == all.take(i as int));
        }
        if i > 0 {
            out.append(sep);
        }
        out.append(words[i].as_str());
        i = i + 1;
    }
    proof {
        assert(views(words@).take(words.len() as int) == views(words@));
    }
    out
}


/// Whether a byte stands for itself in a path segment: an ASCII letter or
/// digit, or one of `-`, `.`, `_`, `~`.
pub open spec fn unreserved(b: u8) -> bool {
    ||| 0x30 <= b <= 0x39
    ||| 0x41 <= b <= 0x5a
    ||| 0x61 <= b <= 0x7a
    ||| b == 0x2d
    ||| b == 0x2e
    ||| b == 0x5f
    ||| b == 0x7e
}

/// The upper-case hexadecimal digit that stands for `d`, for `d` below
/// sixteen.
pub open spec fn hex_digit(d: nat) -> char {
    if d < 10 {
        digit(d)
    } else if d == 10 {
        'A'
    } else if d == 11 {
        'B'
    } else if d == 12 {
        'C'
    } else if d == 13 {
        'D'
    } else if d == 14 {
        'E'
    } else {
        'F'
    }
}

/// What one byte becomes in a path segment: itself where it is unreserved,
/// else `%` and its two upper-case hexadecimal digits.
pub open spec fn escaped_byte(b: u8) -> Seq<char> {
    if unreserved(b) {
        seq![b as char]
    } else {
        seq!['%', hex_digit((b / 16) as nat), hex_digit((b % 16) as nat)]
    }
}

/// The bytes of `bytes`, each escaped, in order.
pub open spec fn escaped_bytes(bytes: Seq<u8>) -> Seq<char>
    decreases bytes.len(),
{
    if bytes.len() == 0 {
        Seq::empty()
    } else {
        escaped_bytes(bytes.drop_last()) + escaped_byte(bytes.last())
    }
}

/// A dynamic path segment, percent-encoded: the UTF-8 bytes of `segment`,
/// each escaped. The result holds unreserved characters and `%` only, so it
/// can neither end its segment nor begin a query or a fragment.
pub open spec fn encoded_segment(segment: Seq<char>) -> Seq<char> {
    escaped_bytes(encode_utf8(segment))
}

/// Whether every character of `s` is an unreserved ASCII character.
pub open spec fn plain_segment(s: Seq<char>) -> bool {
    forall|i: int| 0 <= i < s.len() ==> plain_char(#[trigger] s[i])
}

/// Whether `c` is an unreserved ASCII character.
pub open spec fn plain_char(c: char) -> bool {
    c <= '\u{7f}' && unreserved(c as u8)
}

/// Whether `c` may occur in an encoded segment.
pub open spec fn segment_char(c: char) -> bool {
    c == '%' || plain_char(c)
}

/// The upper-case hexadecimal digit that stands for `d`.
fn hex_char(d: u8) -> (c: char)
    requires
        d < 16,
    ensures
        c == hex_digit(d as nat),
{
    if d < 10 {
        digit_char(d as u32)
    } else if d == 10 {
        'A'
    } else if d == 11 {
        'B'
    } else if d == 12 {
        'C'
    } else if d == 13 {
        'D'
    } else if d == 14 {
        'E'
    } else {
        'F'
    }
}

/// Whether a byte stands for itself in a path segment.
fn is_unreserved(b: u8) -> (r: bool)
    ensures
        r == unreserved(b),
{
    (0x30 <= b && b <= 0x39) || (0x41 <= b && b <= 0x5a) || (0x61 <= b && b <= 0x7a) || b == 0x2d
        || b == 0x2e || b == 0x5f || b == 0x7e
}

/// Percent-encodes one dynamic path segment.
pub fn encode_segment(segment: &str) -> (out: String)
    ensures
        out@ == encoded_segment(segment@),
{
    let bytes = segment.as_bytes();
    let mut out = String::new();
    let mut i: usize = 0;
    while i < bytes.len()
        invariant
            i <= bytes.len(),
            bytes@ == encode_utf8(segment@),
            out@ == escaped_bytes(bytes@.take(i as int)),
        decreases bytes.len() - i,
    {
        let b = bytes[i];
        proof {
            assert(bytes@.take(i + 1).drop_last() == bytes@.take(i as int));
        }
        if is_unreserved(b) {
            push_char(&mut out, b as char);
        } else {
            push_char(&mut out, '%');
            push_char(&mut out, hex_char(b / 16));
            push_char(&mut out, hex_char(b % 16));
        }
        i = i + 1;
    }
    proof {
        assert(bytes@.take(bytes.len() as int) == bytes@);
    }
    out
}

/// An encoded segment holds nothing but unreserved characters and `%`: no
/// `/`, `?` or `#` comes out of a dynamic segment, whatever went in.
pub proof fn lemma_encoded_segment_chars(segment: Seq<char>)
    ensures
        forall|i: int|
            0 <= i < encoded_segment(segment).len() ==> segment_char(
                #[trigger] encoded_segment(segment)[i],
            ),
        !encoded_segment(segment).contains('/'),
        !encoded_segment(segment).contains('?'),
        !encoded_segment(segment).contains('#'),
{
    lemma_escaped_bytes_chars(encode_utf8(segment));
    let encoded = encoded_segment(segment);
    assert forall|i: int| 0 <= i < encoded.len() implies encoded[i] != '/' && encoded[i] != '?'
        && encoded[i] != '#' by {}
}

proof fn lemma_escaped_bytes_chars(bytes: Seq<u8>)
    ensures
        forall|i: int|
            0 <= i < escaped_bytes(bytes).len() ==> segment_char(#[trigger] escaped_bytes(bytes)[i]),
    decreases bytes.len(),
{
    if bytes.len() > 0 {
        lemma_escaped_bytes_chars(bytes.drop_last());
        let b = bytes.last();
        let head = escaped_bytes(bytes.drop_last());
        let tail = escaped_byte(b);
        assert forall|i: int| 0 <= i < tail.len() implies segment_char(#[trigger] tail[i]) by {
            if !unreserved(b) {
                lemma_hex_digit_is_segment_char((b / 16) as nat);
                lemma_hex_digit_is_segment_char((b % 16) as nat);
            }
        }
    }
}

proof fn lemma_hex_digit_is_segment_char(d: nat)
    requires
        d < 16,
    ensures
        segment_char(hex_digit(d)),
{
}

/// A segment of unreserved ASCII characters is its own encoding.
pub proof fn lemma_plain_segment_unchanged(segment: Seq<char>)
    requires
        plain_segment(segment),
    ensures
        encoded_segment(segment) == segment,
{
    assert(is_ascii_chars(segment)) by {
        assert forall|i: int| 0 <= i < segment.len() implies '\0' <= #[trigger] segment[i]
            <= '\u{7f}' by {
            char_is_scalar(segment[i]);
            char_u32_cast(segment[i], segment[i] as u32);
        }
    }
    is_ascii_chars_encode_utf8(segment);
    lemma_plain_bytes_unchanged(segment, encode_utf8(segment));
}

proof fn lemma_plain_bytes_unchanged(chars: Seq<char>, bytes: Seq<u8>)
    requires
        plain_segment(chars),
        bytes.len() == chars.len(),
        forall|i: int| 0 <= i < chars.len() ==> (#[trigger] chars[i]) as u8 == bytes[i],
    ensures
        escaped_bytes(bytes) == chars,
    decreases chars.len(),
{
    if chars.len() > 0 {
        lemma_plain_bytes_unchanged(chars.drop_last(), bytes.drop_last());
        let c = chars.last();
        let b = bytes.last();
        assert(b as char == c) by {
            char_u32_cast(c, c as u32);
        }
    }
}


/// Whether two strings hold the same characters.
pub fn same_text(a: &str, b: &str) -> (same: bool)
    ensures
        same == (a@ == b@),
{
    let x = a.as_bytes();
    let y = b.as_bytes();
    proof {
        encode_utf8_decode_utf8(a@);
        encode_utf8_decode_utf8(b@);
    }
    if x.len() != y.len() {
        return false;
    }
    let mut i: usize = 0;
    while i < x.len()
        invariant
            i <= x.len(),
            x.len() == y.len(),
            x@.take(i as int) == y@.take(i as int),
            x@ == encode_utf8(a@),
            y@ == encode_utf8(b@),
            decode_utf8(encode_utf8(a@)) == a@,
            decode_utf8(encode_utf8(b@)) == b@,
        decreases x.len() - i,
    {
        if x[i] != y[i] {
            return false;
        }
        i = i + 1;
    }
    proof {
        assert(x@.take(x.len() as int) == x@);
        assert(y@.take(y.len() as int) == y@);
    }
    true
}


/// Whether `wanted` occurs in `s`.
pub fn has_char(s: &str, wanted: char) -> (found: bool)
    ensures
        found == s@.contains(wanted),
{
    let mut found = false;
    for c in it: s.chars()
        invariant
            it.seq() == s@,
            found == s@.take(it.index() as int).contains(wanted),
    {
        proof {
            let before = s@.take(it.index() as int);
            let after = s@.take(it.index() + 1);
            assert(after == before.push(c));
            if c == wanted {
                assert(after[it.index() as int] == wanted);
            }
        }
        if c == wanted {
            found = true;
        }
    }
    proof {
        assert(s@.take(s@.len() as int) == s@);
    }
    found
}

/// The lower-case form of an ASCII capital letter; every other character
/// stands for itself.
pub open spec fn ascii_lower(c: char) -> char {
    if 'A' <= c <= 'Z' {
        ((c as u8) + 32) as char
    } else {
        c
    }
}

/// `s` with each ASCII capital letter in lower case.
pub open spec fn ascii_lowered(s: Seq<char>) -> Seq<char> {
    s.map_values(|c: char| ascii_lower(c))
}

/// Puts the ASCII capital letters of `s` in lower case.
pub fn ascii_lowercase(s: &str) -> (lowered: String)
    ensures
        lowered@ == ascii_lowered(s@),
{
    let mut lowered = String::new();
    for c in it: s.chars()
        invariant
            it.seq() == s@,
            lowered@ == ascii_lowered(s@.take(it.index() as int)),
    {
        proof {
            assert(ascii_lowered(s@.take(it.index() + 1)) == ascii_lowered(
                s@.take(it.index() as int),
            ).push(ascii_lower(c)));
        }
        if 'A' <= c && c <= 'Z' {
            push_char(&mut lowered, ((c as u8) + 32) as char);
        } else {
            push_char(&mut lowered, c);
        }
    }
    lowered
}

} // verus!
