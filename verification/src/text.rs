//! UTF-16 text as the window system exchanges it: encoding of strings into
//! null-terminated wide strings, lossy decoding of window titles, and the
//! test for titles that hold nothing but white space.
use vstd::prelude::*;

verus! {

/// The code point that stands in for an undecodable unit.
pub const REPLACEMENT_CHARACTER: u32 = 0xFFFD;

/// Whether `u` is a UTF-16 surrogate unit.
pub open spec fn is_surrogate(u: int) -> bool {
    0xD800 <= u <= 0xDFFF
}

/// Whether `u` is a leading (high) surrogate.
pub open spec fn is_high_surrogate(u: int) -> bool {
    0xD800 <= u <= 0xDBFF
}

/// Whether `u` is a trailing (low) surrogate.
pub open spec fn is_low_surrogate(u: int) -> bool {
    0xDC00 <= u <= 0xDFFF
}

/// The code point a surrogate pair stands for.
pub open spec fn pair_scalar(hi: int, lo: int) -> int {
    0x10000 + (hi - 0xD800) * 0x400 + (lo - 0xDC00)
}

/// The UTF-16 units of one character: itself when it fits in 16 bits, a
/// surrogate pair otherwise.
pub open spec fn utf16_units(c: char) -> Seq<u16> {
    let v = c as u32;
    if v < 0x10000 {
        seq![v as u16]
    } else {
        seq![(0xD800 + (v - 0x10000) / 0x400) as u16, (0xDC00 + (v - 0x10000) % 0x400) as u16]
    }
}

/// The UTF-16 encoding of a character sequence.
pub open spec fn encode_utf16(s: Seq<char>) -> Seq<u16>
    decreases s.len(),
{
    if s.len() == 0 {
        seq![]
    } else {
        utf16_units(s[0]) + encode_utf16(s.drop_first())
    }
}

/// Lossy UTF-16 decoding: every well-formed unit or surrogate pair gives its
/// character, and every unpaired surrogate gives U+FFFD (the unit after an
/// unpaired leading surrogate is decoded on its own).
pub open spec fn decode_utf16_lossy(u: Seq<u16>) -> Seq<char>
    decreases u.len(),
{
    if u.len() == 0 {
        seq![]
    } else if !is_surrogate(u[0] as int) {
        seq![u[0] as char] + decode_utf16_lossy(u.drop_first())
    } else if is_high_surrogate(u[0] as int) && u.len() >= 2 && is_low_surrogate(u[1] as int) {
        seq![pair_scalar(u[0] as int, u[1] as int) as char] + decode_utf16_lossy(u.subrange(2, u.len() as int))
    } else {
        seq![REPLACEMENT_CHARACTER as char] + decode_utf16_lossy(u.drop_first())
    }
}

/// Whether a character has the Unicode `White_Space` property.
pub open spec fn is_white_space(c: char) -> bool {
    let v = c as u32;
    (0x09 <= v <= 0x0D) || v == 0x20 || v == 0x85 || v == 0xA0 || v == 0x1680 || (0x2000 <= v
        <= 0x200A) || v == 0x2028 || v == 0x2029 || v == 0x202F || v == 0x205F || v == 0x3000
}

/// Whether a text is empty once white space is trimmed from both ends, that
/// is, whether every character of it is white space.
pub open spec fn is_blank_text(s: Seq<char>) -> bool {
    forall|i: int| 0 <= i < s.len() ==> is_white_space(#[trigger] s[i])
}

/// `char::from_u32`: the character whose code point is `v`, which exists
/// exactly when `v` is at most 0x10FFFF and not a surrogate.
#[verifier::external_body]
fn char_from_u32(v: u32) -> (r: Option<char>)
    ensures
        r == (if v <= 0x10FFFF && !is_surrogate(v as int) {
            Some(v as char)
        } else {
            None::<char>
        }),
{
    char::from_u32(v)
}

/// `String::push`: appends one character to the end of the string.
#[verifier::external_body]
fn push_char(s: &mut String, c: char)
    ensures
        final(s)@ == old(s)@.push(c),
{
    s.push(c)
}

/// The character of a code point that is known to be valid.
fn scalar_to_char(v: u32) -> (c: char)
    requires
        v <= 0x10FFFF,
        !is_surrogate(v as int),
    ensures
        c == v as char,
{
    match char_from_u32(v) {
        Some(c) => c,
        None => {
            assert(false);
            ' '
        },
    }
}

/// Whether a character has the `White_Space` property (`char::is_whitespace`).
pub fn is_whitespace_char(c: char) -> (r: bool)
    ensures
        r == is_white_space(c),
{
    let v = c as u32;
    (0x09 <= v && v <= 0x0D) || v == 0x20 || v == 0x85 || v == 0xA0 || v == 0x1680 || (0x2000 <= v
        && v <= 0x200A) || v == 0x2028 || v == 0x2029 || v == 0x202F || v == 0x205F || v == 0x3000
}

/// Whether a title holds nothing but white space (`s.trim().is_empty()`).
pub fn is_blank(s: &str) -> (r: bool)
    ensures
        r == is_blank_text(s@),
{
    let ghost mut idx: int = 0;
    for c in it: s.chars()
        invariant
            it.seq() == s@,
            idx == it.index(),
            forall|i: int| 0 <= i < it.index() ==> is_white_space(#[trigger] s@[i]),
    {
        if !is_whitespace_char(c) {
            assert(s@[idx] == c);
            return false;
        }
        proof {
            idx = idx + 1;
        }
    }
    true
}

/// Encoding a sequence that grew by one character appends that character's
/// units to the encoding.
proof fn lemma_encode_push(t: Seq<char>, c: char)
    ensures
        encode_utf16(t.push(c)) == encode_utf16(t) + utf16_units(c),
    decreases t.len(),
{
    if t.len() == 0 {
        assert(t.push(c).drop_first() =~= Seq::<char>::empty());
        assert(encode_utf16(Seq::<char>::empty()) =~= Seq::<u16>::empty());
        assert(encode_utf16(t.push(c)) =~= utf16_units(c));
    } else {
        lemma_encode_push(t.drop_first(), c);
        assert(t.push(c).drop_first() =~= t.drop_first().push(c));
        assert(t.push(c)[0] == t[0]);
        assert(encode_utf16(t.push(c)) =~= utf16_units(t[0]) + (encode_utf16(t.drop_first())
            + utf16_units(c)));
    }
}

/// Append the UTF-16 units of one character.
fn push_units(out: &mut Vec<u16>, c: char)
    ensures
        final(out)@ == old(out)@ + utf16_units(c),
{
    let v: u32 = c as u32;
    if v < 0x10000 {
        out.push(v as u16);
        assert(final(out)@ =~= old(out)@ + utf16_units(c));
    } else {
        let w: u32 = v - 0x10000;
        assert(w / 0x400 < 0x400) by (nonlinear_arith)
            requires
                w <= 0xFFFFF,
        ;
        out.push((0xD800 + w / 0x400) as u16);
        out.push((0xDC00 + w % 0x400) as u16);
        assert(final(out)@ =~= old(out)@ + utf16_units(c));
    }
}

/// Encode a string as a null-terminated UTF-16 string, as the wide-character
/// window functions take it.
pub fn wide_string(s: &str) -> (r: Vec<u16>)
    ensures
        r@ == encode_utf16(s@).push(0),
{
    let mut out: Vec<u16> = Vec::new();
    let ghost mut idx: int = 0;
    for c in it: s.chars()
        invariant
            it.seq() == s@,
            idx == it.index(),
            0 <= idx <= s@.len(),
            out@ == encode_utf16(s@.take(idx)),
    {
        assert(s@[idx] == c);
        proof {
            lemma_encode_push(s@.take(idx), c);
            assert(s@.take(idx + 1) =~= s@.take(idx).push(c));
        }
        push_units(&mut out, c);
        proof {
            idx = idx + 1;
        }
    }
    assert(s@.take(s@.len() as int) =~= s@);
    out.push(0);
    out
}

/// Decode the first `len` units of a buffer, replacing every unpaired
/// surrogate by U+FFFD (`String::from_utf16_lossy`).
pub fn decode_utf16_lossy_prefix(units: &[u16], len: usize) -> (r: String)
    requires
        len <= units@.len(),
    ensures
        r@ == decode_utf16_lossy(units@.take(len as int)),
{
    let ghost whole = units@.take(len as int);
    let mut out = String::new();
    let mut i: usize = 0;
    assert(whole.subrange(0, len as int) =~= whole);
    assert(out@ + decode_utf16_lossy(whole) =~= decode_utf16_lossy(whole));
    while i < len
        invariant
            len <= units@.len(),
            whole == units@.take(len as int),
            i <= len,
            out@ + decode_utf16_lossy(whole.subrange(i as int, len as int)) == decode_utf16_lossy(
                whole,
            ),
        decreases len - i,
    {
        let ghost rest = whole.subrange(i as int, len as int);
        let u: u16 = units[i];
        assert(rest[0] == u);
        if u < 0xD800 || u > 0xDFFF {
            let c = scalar_to_char(u as u32);
            assert(rest.drop_first() =~= whole.subrange(i + 1, len as int));
            assert(out@.push(c) + decode_utf16_lossy(rest.drop_first()) =~= out@ + (seq![c]
                + decode_utf16_lossy(rest.drop_first())));
            push_char(&mut out, c);
            i = i + 1;
        } else if u <= 0xDBFF && i + 1 < len && 0xDC00 <= units[i + 1] && units[i + 1] <= 0xDFFF {
            let lo: u16 = units[i + 1];
            assert(rest[1] == lo);
            let v: u32 = 0x10000 + (u as u32 - 0xD800) * 0x400 + (lo as u32 - 0xDC00);
            let c = scalar_to_char(v);
            assert(rest.subrange(2, rest.len() as int) =~= whole.subrange(i + 2, len as int));
            assert(out@.push(c) + decode_utf16_lossy(rest.subrange(2, rest.len() as int)) =~= out@
                + (seq![c] + decode_utf16_lossy(rest.subrange(2, rest.len() as int))));
            push_char(&mut out, c);
            i = i + 2;
        } else {
            let c = scalar_to_char(REPLACEMENT_CHARACTER);
            assert(rest.drop_first() =~= whole.subrange(i + 1, len as int));
            assert(out@.push(c) + decode_utf16_lossy(rest.drop_first()) =~= out@ + (seq![c]
                + decode_utf16_lossy(rest.drop_first())));
            push_char(&mut out, c);
            i = i + 1;
        }
    }
    assert(whole.subrange(len as int, len as int) =~= Seq::<u16>::empty());
    assert(decode_utf16_lossy(Seq::<u16>::empty()) =~= Seq::<char>::empty());
    assert(out@ + Seq::<char>::empty() =~= out@);
    out
}

/// The encoding of a text without NUL characters holds no zero unit, so the
/// terminator that `wide_string` appends is the only one and the window
/// system reads the whole text.
pub proof fn lemma_encode_has_no_nul(s: Seq<char>)
    requires
        forall|i: int| 0 <= i < s.len() ==> (#[trigger] s[i]) as u32 != 0,
    ensures
        forall|j: int| 0 <= j < encode_utf16(s).len() ==> #[trigger] encode_utf16(s)[j] != 0,
    decreases s.len(),
{
    if s.len() > 0 {
        let rest = s.drop_first();
        assert forall|i: int| 0 <= i < rest.len() implies (#[trigger] rest[i]) as u32 != 0 by {
            assert(rest[i] == s[i + 1]);
        }
        lemma_encode_has_no_nul(rest);
        let head = utf16_units(s[0]);
        let v = s[0] as u32;
        vstd::utf8::char_is_scalar(s[0]);
        assert(v != 0);
        if v >= 0x10000 {
            assert(0 <= (v - 0x10000) / 0x400 < 0x400) by (nonlinear_arith)
                requires
                    0x10000 <= v <= 0x10FFFF,
            ;
            vstd::arithmetic::div_mod::lemma_mod_bound(v - 0x10000, 0x400);
            assert(head[0] != 0);
            assert(head[1] != 0);
        } else {
            assert(head[0] != 0);
        }
        assert forall|j: int| 0 <= j < encode_utf16(s).len() implies #[trigger] encode_utf16(s)[j]
            != 0 by {
            if j < head.len() {
                assert(encode_utf16(s)[j] == head[j]);
            } else {
                assert(encode_utf16(s)[j] == encode_utf16(rest)[j - head.len()]);
            }
        }
    }
}

/// Decoding the UTF-16 encoding of any text gives the text back: window
/// titles survive the round trip through wide strings unchanged.
pub proof fn lemma_decode_encode(s: Seq<char>)
    ensures
        decode_utf16_lossy(encode_utf16(s)) == s,
    decreases s.len(),
{
    if s.len() == 0 {
        assert(encode_utf16(s) =~= Seq::<u16>::empty());
    } else {
        let c = s[0];
        let rest = s.drop_first();
        lemma_decode_encode(rest);
        let e = encode_utf16(s);
        let v = c as u32;
        vstd::utf8::char_is_scalar(c);
        vstd::utf8::char_u32_cast(c, v);
        assert(e == utf16_units(c) + encode_utf16(rest));
        if v < 0x10000 {
            assert(e.drop_first() =~= encode_utf16(rest));
            assert(e[0] == v as u16);
            assert((v as u16) as char == c);
        } else {
            let w = v - 0x10000;
            vstd::arithmetic::div_mod::lemma_fundamental_div_mod(w, 0x400);
            assert(0 <= w / 0x400 < 0x400) by (nonlinear_arith)
                requires
                    0 <= w <= 0xFFFFF,
            ;
            vstd::arithmetic::div_mod::lemma_mod_bound(w, 0x400);
            assert(e.subrange(2, e.len() as int) =~= encode_utf16(rest));
            assert(pair_scalar(e[0] as int, e[1] as int) == v);
            assert((pair_scalar(e[0] as int, e[1] as int)) as char == c);
        }
        assert(decode_utf16_lossy(e) =~= seq![c] + rest);
    }
}

} // verus!
