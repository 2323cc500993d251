//! UTF-8 / UTF-16 conversion helpers for wide-character interfaces.

use vstd::prelude::*;

verus! {

/// The UTF-16 code units of one character.
pub open spec fn utf16_of_char(c: char) -> Seq<u16> {
    let v = c as u32;
    if v < 0x10000 {
        seq![v as u16]
    } else {
        seq![(0xD800 + (v - 0x10000) / 0x400) as u16, (0xDC00 + (v - 0x10000) % 0x400) as u16]
    }
}

/// UTF-16 encoding of a character sequence.
pub open spec fn utf16_encode(s: Seq<char>) -> Seq<u16>
    decreases s.len(),
{
    if s.len() == 0 {
        Seq::empty()
    } else {
        utf16_of_char(s[0]) + utf16_encode(s.drop_first())
    }
}

/// Encoding distributes over concatenation.
pub proof fn lemma_utf16_encode_append(a: Seq<char>, b: Seq<char>)
    ensures
        utf16_encode(a + b) == utf16_encode(a) + utf16_encode(b),
    decreases a.len(),
{
    if a.len() == 0 {
        assert(a + b =~= b);
    } else {
        lemma_utf16_encode_append(a.drop_first(), b);
        assert((a + b).drop_first() =~= a.drop_first() + b);
    }
}

/// Encoding one more character appends its code units.
proof fn lemma_utf16_encode_snoc(s: Seq<char>, i: int)
    requires
        0 <= i < s.len(),
    ensures
        utf16_encode(s.take(i + 1)) == utf16_encode(s.take(i)) + utf16_of_char(s[i]),
{
    assert(s.take(i + 1) =~= s.take(i) + seq![s[i]]);
    lemma_utf16_encode_append(s.take(i), seq![s[i]]);
    let one = seq![s[i]];
    assert(one.drop_first() =~= Seq::<char>::empty());
    assert(utf16_encode(one.drop_first()) =~= Seq::<u16>::empty());
    assert(utf16_encode(one) =~= utf16_of_char(s[i]));
}

/// Converts a string into NUL-terminated UTF-16.
pub fn wide(s: &str) -> (w: Vec<u16>)
    ensures
        w@ == utf16_encode(s@).push(0),
{
    let mut out: Vec<u16> = Vec::new();
    let n = s.unicode_len();
    let mut i: usize = 0;
    while i < n
        invariant
            n == s@.len(),
            i <= n,
            out@ == utf16_encode(s@.take(i as int)),
        decreases n - i,
    {
        let c = s.get_char(i);
        proof {
            lemma_utf16_encode_snoc(s@, i as int);
        }
        let v = c as u32;
        if v < 0x10000 {
            out.push(v as u16);
        } else {
            let u = v - 0x10000;
            out.push((0xD800 + u / 0x400) as u16);
            out.push((0xDC00 + u % 0x400) as u16);
        }
        i += 1;
    }
    assert(s@.take(n as int) =~= s@);
    out.push(0);
    out
}

/// A leading (high) surrogate code unit.
pub open spec fn is_high_surrogate(u: u16) -> bool {
    0xD800 <= u <= 0xDBFF
}

/// A trailing (low) surrogate code unit.
pub open spec fn is_low_surrogate(u: u16) -> bool {
    0xDC00 <= u <= 0xDFFF
}

/// The scalar value that a surrogate pair encodes.
pub open spec fn surrogate_pair_value(hi: u16, lo: u16) -> u32 {
    (0x10000 + (hi - 0xD800) * 0x400 + (lo - 0xDC00)) as u32
}

/// The character that stands in for an ill-formed code unit.
pub const REPLACEMENT_CHARACTER: char = '\u{FFFD}';

/// Lossy UTF-16 decoding: well-formed units and pairs give their characters,
/// every unpaired surrogate gives U+FFFD.
pub open spec fn utf16_decode_lossy(s: Seq<u16>) -> Seq<char>
    decreases s.len(),
{
    if s.len() == 0 {
        Seq::empty()
    } else if is_high_surrogate(s[0]) && s.len() >= 2 && is_low_surrogate(s[1]) {
        seq![surrogate_pair_value(s[0], s[1]) as char] + utf16_decode_lossy(s.skip(2))
    } else if is_high_surrogate(s[0]) || is_low_surrogate(s[0]) {
        seq![REPLACEMENT_CHARACTER] + utf16_decode_lossy(s.skip(1))
    } else {
        seq![s[0] as char] + utf16_decode_lossy(s.skip(1))
    }
}

/// Number of code units before the first NUL (all of them when there is none).
pub open spec fn text_len(s: Seq<u16>) -> nat
    decreases s.len(),
{
    if s.len() == 0 || s[0] == 0 {
        0
    } else {
        1 + text_len(s.drop_first())
    }
}

/// A Unicode scalar value (a code point that is not a surrogate).
pub open spec fn is_scalar_value(v: u32) -> bool {
    v <= 0xD7FF || (0xE000 <= v <= 0x10FFFF)
}

/// `char::from_u32`: the character with scalar value `v`, if `v` is one.
#[verifier::external_body]
fn char_from_u32(v: u32) -> (c: Option<char>)
    ensures
        c == (if is_scalar_value(v) { Some(v as char) } else { None }),
{
    char::from_u32(v)
}

/// `String::push`: appends one character.
#[verifier::external_body]
pub(crate) fn string_push(s: &mut String, c: char)
    ensures
        final(s)@ == old(s)@.push(c),
{
    s.push(c)
}

proof fn lemma_text_len(s: Seq<u16>, k: int)
    requires
        0 <= k <= s.len(),
        forall|j: int| 0 <= j < k ==> s[j] != 0,
        k == s.len() || s[k] == 0,
    ensures
        text_len(s) == k,
    decreases k,
{
    if k > 0 {
        lemma_text_len(s.drop_first(), k - 1);
    }
}

/// Converts a UTF-16 buffer into a string, stopping at the first NUL and
/// replacing ill-formed code units with U+FFFD.
pub fn wide_to_string(buf: &[u16]) -> (s: String)
    ensures
        s@ == utf16_decode_lossy(buf@.take(text_len(buf@) as int)),
{
    let n = buf.len();
    let mut len: usize = 0;
    while len < n && buf[len] != 0
        invariant
            n == buf@.len(),
            len <= n,
            forall|j: int| 0 <= j < len ==> buf@[j] != 0,
        decreases n - len,
    {
        len += 1;
    }
    proof {
        lemma_text_len(buf@, len as int);
    }
    let ghost units = buf@.take(len as int);
    let mut out = String::new();
    let mut i: usize = 0;
    assert(units.skip(0) =~= units);
    assert(out@ + utf16_decode_lossy(units) =~= utf16_decode_lossy(units));
    while i < len
        invariant
            len <= n,
            n == buf@.len(),
            units == buf@.take(len as int),
            i <= len,
            utf16_decode_lossy(units) == out@ + utf16_decode_lossy(units.skip(i as int)),
        decreases len - i,
    {
        let u = buf[i];
        let ghost rest = units.skip(i as int);
        if 0xD800 <= u && u <= 0xDBFF && i + 1 < len && 0xDC00 <= buf[i + 1] && buf[i + 1] <= 0xDFFF {
            let lo = buf[i + 1];
            let v: u32 = 0x10000 + (u as u32 - 0xD800) * 0x400 + (lo as u32 - 0xDC00);
            match char_from_u32(v) {
                Some(c) => string_push(&mut out, c),
                None => string_push(&mut out, REPLACEMENT_CHARACTER),
            }
            assert(rest.skip(2) =~= units.skip(i + 2));
            i += 2;
        } else if 0xD800 <= u && u <= 0xDFFF {
            string_push(&mut out, REPLACEMENT_CHARACTER);
            assert(rest.skip(1) =~= units.skip(i + 1));
            i += 1;
        } else {
            match char_from_u32(u as u32) {
                Some(c) => string_push(&mut out, c),
                None => string_push(&mut out, REPLACEMENT_CHARACTER),
            }
            assert(rest.skip(1) =~= units.skip(i + 1));
            i += 1;
        }
    }
    assert(units.skip(len as int) =~= Seq::<u16>::empty());
    out
}

/// Decoding the encoding of a character sequence gives the sequence back.
pub proof fn lemma_utf16_decode_encode(s: Seq<char>)
    ensures
        utf16_decode_lossy(utf16_encode(s)) == s,
    decreases s.len(),
{
    if s.len() > 0 {
        let c = s[0];
        let rest = s.drop_first();
        let tail = utf16_encode(rest);
        let units = utf16_encode(s);
        lemma_utf16_decode_encode(rest);
        assert(units == utf16_of_char(c) + tail);
        let v = c as u32;
        vstd::utf8::char_is_scalar(c);
        vstd::utf8::char_u32_cast(c, v);
        assert(is_scalar_value(v));
        assert(v as char == c);
        if v < 0x10000 {
            let u = v as u16;
            assert(u as u32 == v);
            assert(!is_high_surrogate(u) && !is_low_surrogate(u));
            assert(u as char == c);
            assert(units[0] == u);
            assert(units.skip(1) =~= tail);
        } else {
            let hi = (0xD800 + (v - 0x10000) / 0x400) as u16;
            let lo = (0xDC00 + (v - 0x10000) % 0x400) as u16;
            assert(is_high_surrogate(hi));
            assert(is_low_surrogate(lo));
            assert(surrogate_pair_value(hi, lo) == v);
            assert(units[0] == hi && units[1] == lo);
            assert(units.skip(2) =~= tail);
        }
        assert(seq![c] + rest =~= s);
    }
}

/// No code unit of the encoding of NUL-free text is zero.
proof fn lemma_utf16_encode_no_nul(s: Seq<char>)
    requires
        forall|i: int| 0 <= i < s.len() ==> s[i] != '\0',
    ensures
        forall|j: int| 0 <= j < utf16_encode(s).len() ==> utf16_encode(s)[j] != 0,
    decreases s.len(),
{
    if s.len() > 0 {
        let rest = s.drop_first();
        lemma_utf16_encode_no_nul(rest);
        let head = utf16_of_char(s[0]);
        assert forall|j: int| 0 <= j < utf16_encode(s).len() implies utf16_encode(s)[j] != 0 by {
            if j < head.len() {
                let v = s[0] as u32;
                vstd::utf8::char_u32_cast(s[0], v);
                assert(v != 0);
                assert(utf16_encode(s)[j] == head[j]);
            } else {
                assert(utf16_encode(s)[j] == utf16_encode(rest)[j - head.len()]);
            }
        }
    }
}

/// Text without NUL characters survives the trip through NUL-terminated
/// UTF-16 (`wide`) and back (`wide_to_string`) unchanged; so does its
/// encoding without the terminator.
pub proof fn law_wide_roundtrip(s: Seq<char>)
    requires
        forall|i: int| 0 <= i < s.len() ==> s[i] != '\0',
    ensures
        ({
            let w = utf16_encode(s).push(0);
            utf16_decode_lossy(w.take(text_len(w) as int)) == s
        }),
        ({
            let e = utf16_encode(s);
            utf16_decode_lossy(e.take(text_len(e) as int)) == s
        }),
{
    let e = utf16_encode(s);
    let w = e.push(0);
    lemma_utf16_encode_no_nul(s);
    lemma_text_len(w, e.len() as int);
    lemma_text_len(e, e.len() as int);
    assert(w.take(e.len() as int) =~= e);
    assert(e.take(e.len() as int) =~= e);
    lemma_utf16_decode_encode(s);
}

/// Unicode `White_Space` (what `char::is_whitespace` accepts).
pub open spec fn is_white_space(c: char) -> bool {
    let v = c as u32;
    (0x09 <= v <= 0x0D) || v == 0x20 || v == 0x85 || v == 0xA0 || v == 0x1680 || (0x2000 <= v
        <= 0x200A) || v == 0x2028 || v == 0x2029 || v == 0x202F || v == 0x205F || v == 0x3000
}

/// `s` without its leading white space.
pub open spec fn trim_start(s: Seq<char>) -> Seq<char>
    decreases s.len(),
{
    if s.len() > 0 && is_white_space(s[0]) {
        trim_start(s.drop_first())
    } else {
        s
    }
}

/// `s` without its trailing white space.
pub open spec fn trim_end(s: Seq<char>) -> Seq<char>
    decreases s.len(),
{
    if s.len() > 0 && is_white_space(s.last()) {
        trim_end(s.drop_last())
    } else {
        s
    }
}

/// `s` without leading and trailing white space (`str::trim`).
pub open spec fn trim(s: Seq<char>) -> Seq<char> {
    trim_end(trim_start(s))
}

/// ASCII upper-case letters made lower-case, every other character kept.
pub open spec fn ascii_lower(c: char) -> char {
    if 'A' <= c <= 'Z' {
        ((c as u32) + 32) as char
    } else {
        c
    }
}

/// `str::to_ascii_lowercase` on a character sequence.
pub open spec fn ascii_lowercase(s: Seq<char>) -> Seq<char> {
    s.map_values(|c: char| ascii_lower(c))
}

fn is_white_space_exec(c: char) -> (b: bool)
    ensures
        b == is_white_space(c),
{
    let v = c as u32;
    (0x09 <= v && v <= 0x0D) || v == 0x20 || v == 0x85 || v == 0xA0 || v == 0x1680 || (0x2000 <= v
        && v <= 0x200A) || v == 0x2028 || v == 0x2029 || v == 0x202F || v == 0x205F || v == 0x3000
}

proof fn lemma_trim_start(s: Seq<char>, k: int)
    requires
        0 <= k <= s.len(),
        forall|j: int| 0 <= j < k ==> is_white_space(#[trigger] s[j]),
        k == s.len() || !is_white_space(s[k]),
    ensures
        trim_start(s) == s.skip(k),
    decreases k,
{
    if k == 0 {
        assert(s.skip(0) =~= s);
    } else {
        lemma_trim_start(s.drop_first(), k - 1);
        assert(s.drop_first().skip(k - 1) =~= s.skip(k));
    }
}

proof fn lemma_trim_end(s: Seq<char>, e: int)
    requires
        0 <= e <= s.len(),
        forall|j: int| e <= j < s.len() ==> is_white_space(#[trigger] s[j]),
        e == 0 || !is_white_space(s[e - 1]),
    ensures
        trim_end(s) == s.take(e),
    decreases s.len() - e,
{
    if e == s.len() {
        assert(s.take(e) =~= s);
    } else {
        lemma_trim_end(s.drop_last(), e);
        assert(s.drop_last().take(e) =~= s.take(e));
    }
}

/// Where the text of `s` without surrounding white space begins and ends
/// (in characters).
pub fn trim_bounds(s: &str) -> (r: (usize, usize))
    ensures
        r.0 <= r.1 <= s@.len(),
        s@.subrange(r.0 as int, r.1 as int) == trim(s@),
{
    let n = s.unicode_len();
    let mut start: usize = 0;
    while start < n && is_white_space_exec(s.get_char(start))
        invariant
            n == s@.len(),
            start <= n,
            forall|j: int| 0 <= j < start ==> is_white_space(#[trigger] s@[j]),
        decreases n - start,
    {
        start += 1;
    }
    proof {
        lemma_trim_start(s@, start as int);
    }
    let ghost t = s@.skip(start as int);
    let mut end: usize = n;
    while end > start && is_white_space_exec(s.get_char(end - 1))
        invariant
            n == s@.len(),
            start <= end <= n,
            t == s@.skip(start as int),
            forall|j: int| end <= j < n ==> is_white_space(#[trigger] s@[j]),
        decreases end - start,
    {
        end -= 1;
    }
    proof {
        assert forall|j: int| (end - start) <= j < t.len() implies is_white_space(#[trigger] t[j]) by {
            assert(t[j] == s@[j + start]);
        }
        if end > start {
            assert(t[end - start - 1] == s@[end - 1]);
        }
        lemma_trim_end(t, (end - start) as int);
        assert(t.take((end - start) as int) =~= s@.subrange(start as int, end as int));
    }
    (start, end)
}

/// The text of a string with surrounding white space removed and ASCII
/// letters in lower case (`s.trim().to_ascii_lowercase()`).
pub fn trimmed_ascii_lowercase(s: &str) -> (r: String)
    ensures
        r@ == ascii_lowercase(trim(s@)),
{
    let (start, end) = trim_bounds(s);
    let ghost n = s@.len();
    let ghost core = s@.subrange(start as int, end as int);
    let mut out = String::new();
    let mut i: usize = start;
    while i < end
        invariant
            n == s@.len(),
            start <= i <= end <= n,
            core == s@.subrange(start as int, end as int),
            core == trim(s@),
            out@ == ascii_lowercase(core.take(i - start)),
        decreases end - i,
    {
        let c = s.get_char(i);
        let l = if 'A' <= c && c <= 'Z' {
            char_from_u32(c as u32 + 32).unwrap_or(c)
        } else {
            c
        };
        proof {
            if 'A' <= c && c <= 'Z' {
                vstd::utf8::char_u32_cast(c, c as u32);
            }
        }
        string_push(&mut out, l);
        assert(core.take(i + 1 - start) =~= core.take(i - start).push(c));
        assert(out@ =~= ascii_lowercase(core.take(i + 1 - start)));
        i += 1;
    }
    assert(core.take(end - start) =~= core);
    out
}

} // verus!
