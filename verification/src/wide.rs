//! Wide (UTF-16) strings as the Windows API takes and gives them: the
//! NUL-terminated encoding written to window-class names and the clipboard,
//! and the lossy decoding of clipboard text read back.

use vstd::prelude::*;

use crate::text::{chars_of, push_char};

verus! {

/// The UTF-16 code units of one char: one unit inside the Basic
/// Multilingual Plane, a surrogate pair above it.
pub open spec fn utf16_units(c: char) -> Seq<u16> {
    let u = c as int;
    if u < 0x10000 {
        seq![u as u16]
    } else {
        let v = u - 0x10000;
        seq![(0xD800 + v / 1024) as u16, (0xDC00 + v % 1024) as u16]
    }
}

/// `str::encode_utf16`.
pub open spec fn encode_utf16(s: Seq<char>) -> Seq<u16>
    decreases s.len(),
{
    if s.len() == 0 {
        Seq::empty()
    } else {
        utf16_units(s[0]) + encode_utf16(s.drop_first())
    }
}

pub open spec fn is_high_surrogate(u: u16) -> bool {
    0xD800 <= u <= 0xDBFF
}

pub open spec fn is_low_surrogate(u: u16) -> bool {
    0xDC00 <= u <= 0xDFFF
}

/// The char a surrogate pair stands for.
pub open spec fn pair_char(high: u16, low: u16) -> char {
    (0x10000 + (high - 0xD800) * 1024 + (low - 0xDC00)) as u32 as char
}

/// `String::from_utf16_lossy`: pairs decode to their char, an unpaired
/// surrogate to U+FFFD, every other unit to the char of that value.
pub open spec fn decode_utf16_lossy(w: Seq<u16>) -> Seq<char>
    decreases w.len(),
{
    if w.len() == 0 {
        Seq::empty()
    } else if w.len() >= 2 && is_high_surrogate(w[0]) && is_low_surrogate(w[1]) {
        seq![pair_char(w[0], w[1])] + decode_utf16_lossy(w.subrange(2, w.len() as int))
    } else if is_high_surrogate(w[0]) || is_low_surrogate(w[0]) {
        seq!['\u{FFFD}'] + decode_utf16_lossy(w.drop_first())
    } else {
        seq![w[0] as u32 as char] + decode_utf16_lossy(w.drop_first())
    }
}

proof fn lemma_encode_append(a: Seq<char>, b: Seq<char>)
    ensures
        encode_utf16(a + b) == encode_utf16(a) + encode_utf16(b),
    decreases a.len(),
{
    if a.len() == 0 {
        assert(a + b =~= b);
        assert(Seq::<u16>::empty() + encode_utf16(b) =~= encode_utf16(b));
    } else {
        lemma_encode_append(a.drop_first(), b);
        assert((a + b).drop_first() =~= a.drop_first() + b);
        assert((a + b)[0] == a[0]);
        assert(utf16_units(a[0]) + (encode_utf16(a.drop_first()) + encode_utf16(b))
            =~= (utf16_units(a[0]) + encode_utf16(a.drop_first())) + encode_utf16(b));
    }
}

proof fn lemma_encode_single(c: char)
    ensures
        encode_utf16(seq![c]) == utf16_units(c),
{
    assert(seq![c].drop_first() =~= Seq::<char>::empty());
    assert(encode_utf16(Seq::<char>::empty()) =~= Seq::<u16>::empty());
    assert(utf16_units(c) + Seq::<u16>::empty() =~= utf16_units(c));
}

/// Appends the UTF-16 units of `c` to `out`.
fn push_units(out: &mut Vec<u16>, c: char)
    ensures
        final(out)@ == old(out)@ + utf16_units(c),
{
    let u = c as u32;
    if u < 0x10000 {
        out.push(u as u16);
        assert(final(out)@ =~= old(out)@ + utf16_units(c));
    } else {
        let v = u - 0x10000;
        assert(v < 0x100000);
        out.push((0xD800 + v / 1024) as u16);
        out.push((0xDC00 + v % 1024) as u16);
        assert(final(out)@ =~= old(out)@ + utf16_units(c));
    }
}

/// The UTF-16 encoding of `s` followed by a terminating NUL, as the Windows
/// API takes strings.
pub fn to_wide(s: &str) -> (w: Vec<u16>)
    ensures
        w@ == encode_utf16(s@).push(0),
{
    let v = chars_of(s);
    let mut out: Vec<u16> = Vec::new();
    let mut i: usize = 0;
    while i < v.len()
        invariant
            i <= v.len(),
            out@ == encode_utf16(v@.take(i as int)),
        decreases v.len() - i,
    {
        proof {
            assert(v@.take(i + 1) =~= v@.take(i as int) + seq![v@[i as int]]);
            lemma_encode_append(v@.take(i as int), seq![v@[i as int]]);
            lemma_encode_single(v@[i as int]);
        }
        push_units(&mut out, v[i]);
        i = i + 1;
    }
    assert(v@.take(v.len() as int) =~= v@);
    out.push(0);
    out
}

/// `char::from_u32`: the char with code point `u`, or `None` for a surrogate
/// or a value above U+10FFFF.
#[verifier::external_body]
fn char_from_code(u: u32) -> (r: Option<char>)
    ensures
        (u <= 0xD7FF || (0xE000 <= u <= 0x10FFFF)) ==> r == Some(u as char),
        !(u <= 0xD7FF || (0xE000 <= u <= 0x10FFFF)) ==> r is None,
{
    char::from_u32(u)
}

proof fn lemma_decode_skip(w: Seq<u16>, i: int, n: int)
    requires
        0 <= i,
        i + n <= w.len(),
        n == 1 || n == 2,
    ensures
        w.subrange(i, w.len() as int).subrange(n, w.len() - i) =~= w.subrange(
            i + n,
            w.len() as int,
        ),
        n == 1 ==> w.subrange(i, w.len() as int).drop_first() =~= w.subrange(
            i + 1,
            w.len() as int,
        ),
{
}

/// Decodes UTF-16 as `String::from_utf16_lossy` does.
pub fn from_wide_lossy(w: &[u16]) -> (s: String)
    ensures
        s@ == decode_utf16_lossy(w@),
{
    let mut s = String::new();
    let mut i: usize = 0;
    let n = w.len();
    assert(w@.subrange(0, n as int) =~= w@);
    assert(s@ + decode_utf16_lossy(w@) =~= decode_utf16_lossy(w@));
    while i < n
        invariant
            n == w@.len(),
            i <= n,
            s@ + decode_utf16_lossy(w@.subrange(i as int, n as int)) == decode_utf16_lossy(w@),
        decreases n - i,
    {
        let ghost rest = w@.subrange(i as int, n as int);
        let ghost before = s@;
        let u = w[i];
        assert(rest[0] == u);
        if 0xD800 <= u && u <= 0xDBFF && i + 1 < n && 0xDC00 <= w[i + 1] && w[i + 1] <= 0xDFFF {
            let hi = u as u32;
            let lo = w[i + 1] as u32;
            let code = 0x10000 + (hi - 0xD800) * 1024 + (lo - 0xDC00);
            assert(rest[1] == w@[i + 1]);
            assert(code <= 0x10FFFF);
            match char_from_code(code) {
                Some(c) => {
                    push_char(&mut s, c);
                    assert(c == pair_char(u, w@[i + 1]));
                },
                None => {
                    assert(false);
                },
            }
            proof {
                lemma_decode_skip(w@, i as int, 2);
                assert(seq![pair_char(u, w@[i + 1])] + decode_utf16_lossy(
                    w@.subrange(i + 2, n as int),
                ) == decode_utf16_lossy(rest));
                assert(before + decode_utf16_lossy(rest) == decode_utf16_lossy(w@));
                assert(s@ + decode_utf16_lossy(w@.subrange(i + 2, n as int)) =~= before + (seq![
                    pair_char(u, w@[i + 1])
                ] + decode_utf16_lossy(w@.subrange(i + 2, n as int))));
            }
            i = i + 2;
        } else if 0xD800 <= u && u <= 0xDFFF {
            push_char(&mut s, '\u{FFFD}');
            proof {
                lemma_decode_skip(w@, i as int, 1);
                assert(s@ + decode_utf16_lossy(w@.subrange(i + 1, n as int)) =~= before + (seq![
                    '\u{FFFD}'
                ] + decode_utf16_lossy(w@.subrange(i + 1, n as int))));
            }
            i = i + 1;
        } else {
            match char_from_code(u as u32) {
                Some(c) => {
                    push_char(&mut s, c);
                    assert(c == u as u32 as char);
                },
                None => {
                    assert(false);
                },
            }
            proof {
                lemma_decode_skip(w@, i as int, 1);
                assert(s@ + decode_utf16_lossy(w@.subrange(i + 1, n as int)) =~= before + (seq![
                    u as u32 as char
                ] + decode_utf16_lossy(w@.subrange(i + 1, n as int))));
            }
            i = i + 1;
        }
    }
    assert(w@.subrange(n as int, n as int) =~= Seq::<u16>::empty());
    assert(s@ + Seq::<char>::empty() =~= s@);
    s
}

// ---------------------------------------------------------------------------
// Laws
// ---------------------------------------------------------------------------

proof fn lemma_char_range(c: char)
    ensures
        0 <= c as int <= 0x10FFFF,
        !(0xD800 <= c as int <= 0xDFFF),
{
}

proof fn lemma_decode_units(c: char, rest: Seq<u16>)
    ensures
        decode_utf16_lossy(utf16_units(c) + rest) == seq![c] + decode_utf16_lossy(rest),
{
    let u = c as int;
    let w = utf16_units(c) + rest;
    if u < 0x10000 {
        assert(w[0] == u as u16);
        assert(!is_high_surrogate(w[0]) && !is_low_surrogate(w[0]));
        assert(w.drop_first() =~= rest);
        assert(w[0] as u32 as char == c);
    } else {
        let v = u - 0x10000;
        let hi = (0xD800 + v / 1024) as u16;
        let lo = (0xDC00 + v % 1024) as u16;
        assert(w[0] == hi && w[1] == lo);
        assert(0 <= v < 0x100000);
        assert(is_high_surrogate(hi) && is_low_surrogate(lo));
        assert(w.subrange(2, w.len() as int) =~= rest);
        assert(0x10000 + (hi - 0xD800) * 1024 + (lo - 0xDC00) == u) by {
            assert(hi - 0xD800 == v / 1024);
            assert(lo - 0xDC00 == v % 1024);
            assert((v / 1024) * 1024 + v % 1024 == v) by (nonlinear_arith);
        }
        assert(pair_char(hi, lo) == c);
    }
}

/// Decoding what was encoded gives the text back: every char survives the
/// trip through UTF-16.
pub proof fn lemma_utf16_round_trip(s: Seq<char>)
    ensures
        decode_utf16_lossy(encode_utf16(s)) == s,
    decreases s.len(),
{
    if s.len() == 0 {
        assert(decode_utf16_lossy(Seq::<u16>::empty()) =~= s);
    } else {
        lemma_utf16_round_trip(s.drop_first());
        lemma_decode_units(s[0], encode_utf16(s.drop_first()));
        assert(seq![s[0]] + s.drop_first() =~= s);
    }
}

/// A text without NUL encodes to units without NUL, so a reader that stops
/// at the terminating NUL of `to_wide` sees exactly the encoded text.
pub proof fn lemma_no_nul_in_encoding(s: Seq<char>)
    requires
        forall|i: int| 0 <= i < s.len() ==> s[i] != '\0',
    ensures
        forall|k: int| 0 <= k < encode_utf16(s).len() ==> encode_utf16(s)[k] != 0,
    decreases s.len(),
{
    if s.len() > 0 {
        let t = s.drop_first();
        assert forall|i: int| 0 <= i < t.len() implies t[i] != '\0' by {
            assert(t[i] == s[i + 1]);
        }
        lemma_no_nul_in_encoding(t);
        let e = encode_utf16(s);
        let head = utf16_units(s[0]);
        assert(e == head + encode_utf16(t));
        assert forall|k: int| 0 <= k < e.len() implies e[k] != 0 by {
            if k < head.len() {
                assert(e[k] == head[k]);
                assert(s[0] != '\0');
                assert(('\0' as int) == 0);
                assert((s[0] as int) != 0);
                let u = s[0] as int;
                lemma_char_range(s[0]);
                if u < 0x10000 {
                    assert(0 < u < 0x10000);
                    assert((u as u16) == u);
                    assert(head[0] == u as u16);
                    assert(k == 0);
                    assert(head[k] != 0);
                } else {
                    let v = u - 0x10000;
                    assert(0 <= v < 0x100000);
                    assert(((0xD800 + v / 1024) as u16) == 0xD800 + v / 1024);
                    assert(((0xDC00 + v % 1024) as u16) == 0xDC00 + v % 1024);
                    assert(head[k] != 0);
                }
            } else {
                assert(e[k] == encode_utf16(t)[k - head.len()]);
            }
        }
    }
}

/// What the clipboard writer stores, the clipboard reader reads back: the
/// units of `to_wide(s)` before its first NUL decode to `s`, for any `s`
/// without a NUL char.
pub proof fn lemma_wide_text_round_trip(s: Seq<char>)
    requires
        forall|i: int| 0 <= i < s.len() ==> s[i] != '\0',
    ensures
        ({
            let w = encode_utf16(s).push(0);
            let n = encode_utf16(s).len() as int;
            &&& w[n] == 0
            &&& forall|k: int| 0 <= k < n ==> w[k] != 0
            &&& decode_utf16_lossy(w.take(n)) == s
        }),
{
    lemma_no_nul_in_encoding(s);
    lemma_utf16_round_trip(s);
    let e = encode_utf16(s);
    assert(e.push(0).take(e.len() as int) =~= e);
    assert forall|k: int| 0 <= k < e.len() implies e.push(0)[k] != 0 by {
        assert(e.push(0)[k] == e[k]);
    }
}

/// What the clipboard reader gets back of any text: the units of
/// `to_wide(s)` before its first NUL decode to the part of `s` before its
/// first `'\0'` (all of `s` when it holds none). `p` is the position of that
/// first `'\0'`, or the length of `s`.
pub proof fn lemma_wide_text_prefix(s: Seq<char>, p: int)
    requires
        0 <= p <= s.len(),
        forall|i: int| 0 <= i < p ==> s[i] != '\0',
        p == s.len() || s[p] == '\0',
    ensures
        ({
            let w = encode_utf16(s).push(0);
            let n = encode_utf16(s.take(p)).len() as int;
            &&& n < w.len()
            &&& w[n] == 0
            &&& forall|k: int| 0 <= k < n ==> w[k] != 0
            &&& decode_utf16_lossy(w.take(n)) == s.take(p)
        }),
{
    let head = s.take(p);
    let tail = s.skip(p);
    assert(head + tail =~= s);
    lemma_encode_append(head, tail);
    assert forall|i: int| 0 <= i < head.len() implies head[i] != '\0' by {
        assert(head[i] == s[i]);
    }
    lemma_no_nul_in_encoding(head);
    lemma_utf16_round_trip(head);
    let eh = encode_utf16(head);
    let w = encode_utf16(s).push(0);
    let n = eh.len() as int;
    assert(encode_utf16(s) == eh + encode_utf16(tail));
    if p < s.len() {
        assert(tail[0] == '\0');
        assert(('\0' as int) == 0);
        assert(utf16_units(tail[0]) =~= seq![0u16]);
        assert(encode_utf16(tail) == utf16_units(tail[0]) + encode_utf16(tail.drop_first()));
        assert(encode_utf16(tail)[0] == 0);
        assert(w[n] == encode_utf16(tail)[0]);
    } else {
        assert(tail =~= Seq::<char>::empty());
        assert(encode_utf16(tail) =~= Seq::<u16>::empty());
        assert(encode_utf16(s) =~= eh);
        assert(w[n] == 0);
    }
    assert forall|k: int| 0 <= k < n implies w[k] != 0 by {
        assert(w[k] == eh[k]);
    }
    assert(w.take(n) =~= eh);
}

} // verus!
