//! Text encodings at the operating-system boundary: UTF-16 (what wide
//! Win32 calls and credential blobs use), lossy decoding of both UTF-16
//! and UTF-8, and trimming.

use vstd::prelude::*;

use crate::text::{is_ws, push_char};

verus! {

/// The UTF-16 code units of `c`.
pub open spec fn utf16_units(c: char) -> Seq<u16> {
    let v = c as u32;
    if v < 0x10000 {
        seq![v as u16]
    } else {
        seq![(0xD800 + (v - 0x10000) / 1024) as u16, (0xDC00 + (v - 0x10000) % 1024) as u16]
    }
}

/// UTF-16 encoding of a text.
pub open spec fn utf16_encode(s: Seq<char>) -> Seq<u16>
    decreases s.len(),
{
    if s.len() == 0 {
        Seq::empty()
    } else {
        utf16_encode(s.drop_last()) + utf16_units(s.last())
    }
}

/// The UTF-16 code units of `s` (`str::encode_utf16`).
pub fn utf16_of(s: &str) -> (w: Vec<u16>)
    ensures
        w@ == utf16_encode(s@),
{
    let c = crate::text::chars_of(s);
    let mut w: Vec<u16> = Vec::new();
    let mut i: usize = 0;
    while i < c.len()
        invariant
            0 <= i <= c@.len(),
            w@ == utf16_encode(c@.take(i as int)),
        decreases c@.len() - i,
    {
        let ch = c[i];
        let v = ch as u32;
        proof {
            vstd::utf8::char_is_scalar(ch);
        }
        assert(c@.take(i + 1).drop_last() == c@.take(i as int));
        if v < 0x10000 {
            w.push(v as u16);
        } else {
            assert(v <= 0x10FFFF);
            let off = v - 0x10000;
            w.push((0xD800 + off / 1024) as u16);
            w.push((0xDC00 + off % 1024) as u16);
        }
        assert(w@ == utf16_encode(c@.take(i as int)) + utf16_units(c@[i as int]));
        i += 1;
    }
    assert(c@.take(c@.len() as int) == c@);
    w
}

pub open spec fn is_high_surrogate(u: u16) -> bool {
    0xD800 <= u && u <= 0xDBFF
}

pub open spec fn is_low_surrogate(u: u16) -> bool {
    0xDC00 <= u && u <= 0xDFFF
}

/// The character a surrogate pair stands for.
pub open spec fn pair_value(hi: u16, lo: u16) -> u32 {
    (0x10000 + (hi - 0xD800) * 0x400 + (lo - 0xDC00)) as u32
}

/// Lossy UTF-16 decoding (`String::from_utf16_lossy`): a surrogate pair
/// becomes the character it encodes, a surrogate without its partner
/// becomes U+FFFD, any other unit is its own character.
pub open spec fn utf16_lossy(u: Seq<u16>) -> Seq<char>
    decreases u.len(),
{
    if u.len() == 0 {
        Seq::empty()
    } else if u.len() >= 2 && is_high_surrogate(u[0]) && is_low_surrogate(u[1]) {
        seq![pair_value(u[0], u[1]) as char] + utf16_lossy(u.subrange(2, u.len() as int))
    } else if is_high_surrogate(u[0]) || is_low_surrogate(u[0]) {
        seq!['\u{FFFD}'] + utf16_lossy(u.drop_first())
    } else {
        seq![(u[0] as u32) as char] + utf16_lossy(u.drop_first())
    }
}

/// A Unicode scalar value: not a surrogate, at most U+10FFFF.
pub open spec fn is_scalar(v: u32) -> bool {
    v < 0xD800 || (0xE000 <= v && v <= 0x10FFFF)
}

/// `char::from_u32`: the character with this value, or `None` for a
/// surrogate or a value above U+10FFFF.
#[verifier::external_body]
fn char_from_u32(v: u32) -> (c: Option<char>)
    ensures
        c == (if is_scalar(v) { Some(v as char) } else { None::<char> }),
{
    char::from_u32(v)
}

/// Decodes UTF-16, replacing what is not valid with U+FFFD.
pub fn decode_utf16_lossy(u: &[u16]) -> (s: String)
    ensures
        s@ == utf16_lossy(u@),
{
    let n = u.len();
    let mut s = String::new();
    let mut i: usize = 0;
    assert(u@.subrange(0, n as int) == u@);
    while i < n
        invariant
            0 <= i <= n == u@.len(),
            s@ + utf16_lossy(u@.subrange(i as int, n as int)) == utf16_lossy(u@),
        decreases n - i,
    {
        let rest = Ghost(u@.subrange(i as int, n as int));
        let a = u[i];
        assert(rest@[0] == a);
        if i + 1 < n && 0xD800 <= a && a <= 0xDBFF && 0xDC00 <= u[i + 1] && u[i + 1] <= 0xDFFF {
            let b = u[i + 1];
            assert(rest@[1] == b);
            assert(rest@.subrange(2, rest@.len() as int) == u@.subrange(i + 2, n as int));
            let v: u32 = 0x10000 + (a as u32 - 0xD800) * 0x400 + (b as u32 - 0xDC00);
            assert(v == pair_value(a, b));
            match char_from_u32(v) {
                Some(c) => push_char(&mut s, c),
                None => {},
            }
            i += 2;
        } else {
            assert(rest@.drop_first() == u@.subrange(i + 1, n as int));
            if 0xD800 <= a && a <= 0xDFFF {
                push_char(&mut s, '\u{FFFD}');
            } else {
                match char_from_u32(a as u32) {
                    Some(c) => push_char(&mut s, c),
                    None => {},
                }
            }
            i += 1;
        }
    }
    assert(u@.subrange(n as int, n as int) == Seq::<u16>::empty());
    s
}

/// UTF-16 of a concatenation is the concatenation of the encodings.
pub proof fn lemma_utf16_encode_concat(a: Seq<char>, b: Seq<char>)
    ensures
        utf16_encode(a + b) == utf16_encode(a) + utf16_encode(b),
    decreases b.len(),
{
    if b.len() == 0 {
        assert(a + b == a);
    } else {
        lemma_utf16_encode_concat(a, b.drop_last());
        assert((a + b).drop_last() == a + b.drop_last());
        assert((a + b).last() == b.last());
    }
}

/// Decoding one character's units, followed by more, gives that
/// character first.
proof fn lemma_lossy_units(c: char, rest: Seq<u16>)
    ensures
        utf16_lossy(utf16_units(c) + rest) == seq![c] + utf16_lossy(rest),
{
    vstd::utf8::char_is_scalar(c);
    let v = c as u32;
    let w = utf16_units(c) + rest;
    if v < 0x10000 {
        assert(w[0] == v as u16);
        assert(w.drop_first() == rest);
        assert(((w[0] as u32) as char) == c);
    } else {
        let off = v - 0x10000;
        assert(w[0] == (0xD800 + off / 1024) as u16);
        assert(w[1] == (0xDC00 + off % 1024) as u16);
        assert(w.subrange(2, w.len() as int) == rest);
        assert(pair_value(w[0], w[1]) == v);
    }
}

/// Encoding a text as UTF-16 and decoding it again gives the text back.
pub proof fn lemma_utf16_round_trip(s: Seq<char>)
    ensures
        utf16_lossy(utf16_encode(s)) == s,
    decreases s.len(),
{
    if s.len() > 0 {
        let first = seq![s[0]];
        let tail = s.drop_first();
        assert(s == first + tail);
        lemma_utf16_encode_concat(first, tail);
        assert(first.drop_last() == Seq::<char>::empty());
        assert(first.last() == s[0]);
        assert(utf16_encode(Seq::<char>::empty()) == Seq::<u16>::empty());
        assert(Seq::<u16>::empty() + utf16_units(s[0]) == utf16_units(s[0]));
        assert(utf16_encode(first) == utf16_units(s[0]));
        lemma_lossy_units(s[0], utf16_encode(tail));
        lemma_utf16_round_trip(tail);
    }
}

/// `String::from_utf8_lossy` of these bytes: valid UTF-8 decoded,
/// invalid sequences replaced with U+FFFD.
pub uninterp spec fn utf8_lossy(bytes: Seq<u8>) -> Seq<char>;

/// Bytes that are all ASCII.
pub open spec fn all_ascii(bytes: Seq<u8>) -> bool {
    forall|i: int| 0 <= i < bytes.len() ==> bytes[i] < 0x80
}

/// `String::from_utf8_lossy`. Its result is named rather than spelled
/// out; the one fact stated is the documented one that ASCII bytes, being
/// valid UTF-8 on their own, decode to the same characters one for one.
#[verifier::external_body]
pub(crate) fn decode_utf8_lossy(bytes: &[u8]) -> (s: String)
    ensures
        s@ == utf8_lossy(bytes@),
        all_ascii(bytes@) ==> s@ == bytes@.map_values(|b: u8| (b as u32) as char),
{
    String::from_utf8_lossy(bytes).into_owned()
}

/// Characters trimmed: NUL, or whitespace.
pub open spec fn trimmed(c: char, ws: bool) -> bool {
    if ws { is_ws(c) } else { c == '\0' }
}

/// `s` without its leading trimmed characters.
pub open spec fn strip_front(s: Seq<char>, ws: bool) -> Seq<char>
    decreases s.len(),
{
    if s.len() > 0 && trimmed(s[0], ws) { strip_front(s.drop_first(), ws) } else { s }
}

/// `s` without its trailing trimmed characters.
pub open spec fn strip_back(s: Seq<char>, ws: bool) -> Seq<char>
    decreases s.len(),
{
    if s.len() > 0 && trimmed(s.last(), ws) { strip_back(s.drop_last(), ws) } else { s }
}

/// `s` trimmed at both ends: `trim_matches('\0')`, or `trim()` for
/// whitespace.
pub open spec fn strip(s: Seq<char>, ws: bool) -> Seq<char> {
    strip_back(strip_front(s, ws), ws)
}

fn is_trimmed(c: char, ws: bool) -> (b: bool)
    ensures
        b == trimmed(c, ws),
{
    if ws {
        crate::text::is_whitespace(c)
    } else {
        c == '\0'
    }
}

/// The bounds of `v[lo..hi]` trimmed at both ends.
pub fn strip_range(v: &Vec<char>, lo: usize, hi: usize, ws: bool) -> (r: (usize, usize))
    requires
        lo <= hi <= v@.len(),
    ensures
        lo <= r.0 <= r.1 <= hi,
        v@.subrange(r.0 as int, r.1 as int) == strip(v@.subrange(lo as int, hi as int), ws),
{
    let mut a = lo;
    while a < hi && is_trimmed(v[a], ws)
        invariant
            lo <= a <= hi <= v@.len(),
            strip_front(v@.subrange(lo as int, hi as int), ws) == strip_front(v@.subrange(a as int, hi as int), ws),
        decreases hi - a,
    {
        assert(v@.subrange(a as int, hi as int).drop_first() == v@.subrange(a + 1, hi as int));
        a += 1;
    }
    assert(strip_front(v@.subrange(a as int, hi as int), ws) == v@.subrange(a as int, hi as int));
    let mut b = hi;
    while b > a && is_trimmed(v[b - 1], ws)
        invariant
            lo <= a <= b <= hi <= v@.len(),
            strip_back(v@.subrange(a as int, hi as int), ws) == strip_back(v@.subrange(a as int, b as int), ws),
        decreases b - a,
    {
        assert(v@.subrange(a as int, b as int).drop_last() == v@.subrange(a as int, b - 1));
        b -= 1;
    }
    assert(strip_back(v@.subrange(a as int, b as int), ws) == v@.subrange(a as int, b as int));
    (a, b)
}

} // verus!
