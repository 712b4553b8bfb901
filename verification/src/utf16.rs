//! UTF-16 as the Windows clipboard and registry take it: encoding with a
//! terminating NUL, and decoding the units read back.
use vstd::prelude::*;
use crate::text::{concat3, text_result};

verus! {

pub open spec fn is_surrogate(u: int) -> bool {
    0xD800 <= u && u <= 0xDFFF
}

/// The UTF-16 code units of one character.
pub open spec fn char_units(c: char) -> Seq<u16> {
    let u = c as u32;
    if u < 0x10000 {
        seq![u as u16]
    } else {
        let v = u - 0x10000;
        seq![(0xD800 + v / 0x400) as u16, (0xDC00 + v % 0x400) as u16]
    }
}

/// `str::encode_utf16`.
pub open spec fn utf16_encode(s: Seq<char>) -> Seq<u16>
    decreases s.len(),
{
    if s.len() == 0 {
        Seq::empty()
    } else {
        char_units(s[0]) + utf16_encode(s.drop_first())
    }
}

/// `String::from_utf16`: `None` when a surrogate is not part of a pair.
pub open spec fn utf16_decode(units: Seq<u16>) -> Option<Seq<char>>
    decreases units.len(),
{
    if units.len() == 0 {
        Some(Seq::empty())
    } else {
        let u = units[0] as int;
        if 0xD800 <= u && u <= 0xDBFF && units.len() >= 2 && 0xDC00 <= units[1] && units[1] <= 0xDFFF {
            let c = ((0x10000 + (u - 0xD800) * 0x400 + (units[1] - 0xDC00)) as u32) as char;
            match utf16_decode(units.skip(2)) {
                Some(r) => Some(seq![c] + r),
                None => None,
            }
        } else if is_surrogate(u) {
            None
        } else {
            match utf16_decode(units.drop_first()) {
                Some(r) => Some(seq![(u as u32) as char] + r),
                None => None,
            }
        }
    }
}

/// The number of units before the first NUL, or all of them.
pub open spec fn nul_end(units: Seq<u16>) -> int
    decreases units.len(),
{
    if units.len() == 0 || units[0] == 0 {
        0
    } else {
        1 + nul_end(units.drop_first())
    }
}

/// The text held in a clipboard buffer: the units up to the first NUL,
/// decoded.
pub open spec fn clipboard_text_spec(units: Seq<u16>) -> Result<Seq<char>, Seq<char>> {
    match utf16_decode(units.take(nul_end(units))) {
        Some(s) => Ok(s),
        None => Err("invalid utf-16: lone surrogate found"@),
    }
}

pub proof fn lemma_encode_append(a: Seq<char>, b: Seq<char>)
    ensures
        utf16_encode(a + b) == utf16_encode(a) + utf16_encode(b),
    decreases a.len(),
{
    if a.len() == 0 {
        assert(a + b =~= b);
    } else {
        lemma_encode_append(a.drop_first(), b);
        assert((a + b).drop_first() =~= a.drop_first() + b);
        assert((a + b)[0] == a[0]);
    }
}

proof fn lemma_nul_end_at(units: Seq<u16>, i: int)
    requires
        0 <= i <= units.len(),
        forall|j: int| 0 <= j < i ==> #[trigger] units[j] != 0,
        i == units.len() || units[i] == 0,
    ensures
        nul_end(units) == i,
    decreases i,
{
    if i > 0 {
        let t = units.drop_first();
        assert forall|j: int| 0 <= j < i - 1 implies #[trigger] t[j] != 0 by {
            assert(t[j] == units[j + 1]);
        }
        lemma_nul_end_at(t, i - 1);
    }
}

/// The UTF-16 encoding of `value` followed by a NUL unit.
pub fn wide_null(value: &str) -> (r: Vec<u16>)
    ensures
        r@ == utf16_encode(value@).push(0),
{
    let n = value.unicode_len();
    let mut r: Vec<u16> = Vec::new();
    let mut i: usize = 0;
    while i < n
        invariant
            n == value@.len(),
            0 <= i <= n,
            r@ == utf16_encode(value@.take(i as int)),
        decreases n - i,
    {
        let c = value.get_char(i);
        let u = c as u32;
        proof {
            let t = value@.take(i as int);
            lemma_encode_append(t, seq![c]);
            assert(value@.take(i + 1) =~= t + seq![c]);
            assert(seq![c].drop_first() =~= Seq::<char>::empty());
            assert(utf16_encode(Seq::<char>::empty()) == Seq::<u16>::empty());
            assert(char_units(c) + Seq::<u16>::empty() =~= char_units(c));
            assert(utf16_encode(seq![c]) =~= char_units(c));
        }
        if u < 0x10000 {
            r.push(u as u16);
        } else {
            let v = u - 0x10000;
            r.push((0xD800 + v / 0x400) as u16);
            r.push((0xDC00 + v % 0x400) as u16);
        }
        i = i + 1;
        assert(r@ =~= utf16_encode(value@.take(i as int)));
    }
    assert(value@.take(n as int) =~= value@);
    r.push(0);
    r
}

/// `char::from_u32`. The claim, from its documentation: a `char` exactly
/// when the value is at most `0x10FFFF` and not a surrogate.
#[verifier::external_body]
fn char_from_u32(u: u32) -> (r: Option<char>)
    ensures
        r == (if u <= 0x10FFFF && !is_surrogate(u as int) {
            Some(u as char)
        } else {
            None
        }),
{
    char::from_u32(u)
}

/// `String::from_iter` over the characters of a vector. The claim: the
/// string holds those characters, in order.
#[verifier::external_body]
fn string_from_chars(chars: &Vec<char>) -> (r: String)
    ensures
        r@ == chars@,
{
    chars.iter().collect()
}

/// The text of a clipboard buffer of UTF-16 units: everything before the
/// first NUL, decoded, or the error `String::from_utf16` reports.
pub fn clipboard_text(units: &[u16]) -> (r: Result<String, String>)
    ensures
        text_result(r) == clipboard_text_spec(units@),
{
    let len = units.len();
    let mut n: usize = 0;
    while n < len && units[n] != 0
        invariant
            len == units@.len(),
            0 <= n <= len,
            forall|j: int| 0 <= j < n ==> #[trigger] units@[j] != 0,
        decreases len - n,
    {
        n = n + 1;
    }
    proof {
        lemma_nul_end_at(units@, n as int);
    }
    let ghost w = units@.take(n as int);
    let mut out: Vec<char> = Vec::new();
    let mut i: usize = 0;
    assert(w.skip(0) =~= w);
    while i < n
        invariant
            w == units@.take(n as int),
            nul_end(units@) == n,
            n <= len,
            len == units@.len(),
            0 <= i <= n,
            w.len() == n,
            match utf16_decode(w.skip(i as int)) {
                Some(rest) => utf16_decode(w) == Some(out@ + rest),
                None => utf16_decode(w) is None,
            },
        decreases n - i,
    {
        let ghost tail = w.skip(i as int);
        assert(tail[0] == units@[i as int]);
        let u = units[i] as u32;
        if 0xD800 <= u && u <= 0xDBFF && i + 1 < n && 0xDC00 <= units[i + 1] && units[i + 1] <= 0xDFFF {
            let lo = units[i + 1] as u32;
            assert(tail[1] == units@[i + 1]);
            assert(tail.skip(2) =~= w.skip(i + 2));
            let code = 0x10000 + (u - 0xD800) * 0x400 + (lo - 0xDC00);
            let c = char_from_u32(code);
            match c {
                Some(c) => {
                    out.push(c);
                },
                None => {
                    return Err("invalid utf-16: lone surrogate found".to_owned());
                },
            }
            proof {
                let ghost prev = out@.drop_last();
                match utf16_decode(w.skip(i + 2)) {
                    Some(rest) => {
                        assert(prev + (seq![out@.last()] + rest) =~= out@ + rest);
                    },
                    None => {},
                }
            }
            i = i + 2;
        } else if 0xD800 <= u && u <= 0xDFFF {
            assert(i + 1 < n ==> tail[1] == units@[i + 1]);
            assert(tail.len() == n - i);
            assert(is_surrogate(tail[0] as int));
            assert(!(0xD800 <= tail[0] && tail[0] <= 0xDBFF && tail.len() >= 2 && 0xDC00 <= tail[1] && tail[1] <= 0xDFFF));
            assert(utf16_decode(tail) is None);
            return Err("invalid utf-16: lone surrogate found".to_owned());
        } else {
            assert(i + 1 < n ==> tail[1] == units@[i + 1]);
            assert(tail.drop_first() =~= w.skip(i + 1));
            let c = char_from_u32(u);
            match c {
                Some(c) => {
                    out.push(c);
                },
                None => {
                    return Err("invalid utf-16: lone surrogate found".to_owned());
                },
            }
            proof {
                let ghost prev = out@.drop_last();
                match utf16_decode(w.skip(i + 1)) {
                    Some(rest) => {
                        assert(prev + (seq![out@.last()] + rest) =~= out@ + rest);
                    },
                    None => {},
                }
            }
            i = i + 1;
        }
    }
    assert(w.skip(n as int) =~= Seq::<u16>::empty());
    assert(out@ + Seq::<char>::empty() =~= out@);
    Ok(string_from_chars(&out))
}

/// The command line that starts the program at login: its path in quotes.
pub fn startup_command(exe_path: &str) -> (r: String)
    ensures
        r@ == "\""@ + exe_path@ + "\""@,
{
    concat3("\"", exe_path, "\"")
}

proof fn lemma_decode_encode(s: Seq<char>)
    ensures
        utf16_decode(utf16_encode(s)) == Some(s),
    decreases s.len(),
{
    if s.len() == 0 {
        assert(utf16_encode(s) =~= Seq::<u16>::empty());
    } else {
        let c = s[0];
        let rest = s.drop_first();
        let e = utf16_encode(s);
        let tail = utf16_encode(rest);
        lemma_decode_encode(rest);
        let u = c as u32;
        vstd::utf8::char_is_scalar(c);
        vstd::utf8::char_u32_cast(c, u);
        assert(u <= 0x10FFFF && !is_surrogate(u as int));
        if u < 0x10000 {
            assert(e =~= seq![u as u16] + tail);
            assert(e[0] as int == u as int);
            assert(e.drop_first() =~= tail);
            assert(((e[0] as int) as u32) as char == c);
            assert(seq![c] + rest =~= s);
        } else {
            let v = u - 0x10000;
            let hi = (0xD800 + v / 0x400) as u16;
            let lo = (0xDC00 + v % 0x400) as u16;
            assert(e =~= seq![hi, lo] + tail);
            assert(e[0] == hi && e[1] == lo);
            assert(e.skip(2) =~= tail);
            vstd::arithmetic::div_mod::lemma_fundamental_div_mod(v as int, 0x400);
            assert(0x10000 + (hi as int - 0xD800) * 0x400 + (lo as int - 0xDC00) == u as int);
            assert(((0x10000 + (hi as int - 0xD800) * 0x400 + (lo as int - 0xDC00)) as u32) as char == c);
            assert(seq![c] + rest =~= s);
        }
    }
}

proof fn lemma_encode_has_no_nul(s: Seq<char>)
    requires
        forall|i: int| 0 <= i < s.len() ==> #[trigger] s[i] != '\0',
    ensures
        forall|j: int| 0 <= j < utf16_encode(s).len() ==> #[trigger] utf16_encode(s)[j] != 0,
    decreases s.len(),
{
    if s.len() > 0 {
        let rest = s.drop_first();
        assert forall|i: int| 0 <= i < rest.len() implies #[trigger] rest[i] != '\0' by {
            assert(rest[i] == s[i + 1]);
        }
        lemma_encode_has_no_nul(rest);
        let c = s[0];
        assert(c != '\0');
        let units = char_units(c);
        assert forall|j: int| 0 <= j < units.len() implies #[trigger] units[j] != 0 by {
            vstd::utf8::char_u32_cast(c, c as u32);
            vstd::utf8::char_is_scalar(c);
            assert((c as u32) != 0);
        }
        let e = utf16_encode(s);
        assert(e =~= units + utf16_encode(rest));
        assert forall|j: int| 0 <= j < e.len() implies #[trigger] e[j] != 0 by {
            if j < units.len() {
                assert(e[j] == units[j]);
            } else {
                assert(e[j] == utf16_encode(rest)[j - units.len()]);
            }
        }
    }
}

/// Text written to the clipboard as `wide_null` encodes it reads back, as
/// `clipboard_text` decodes it, unchanged, as long as it holds no NUL
/// character (the first NUL ends the text read back).
pub proof fn lemma_clipboard_round_trip(s: Seq<char>)
    requires
        forall|i: int| 0 <= i < s.len() ==> #[trigger] s[i] != '\0',
    ensures
        clipboard_text_spec(utf16_encode(s).push(0)) == Ok::<Seq<char>, Seq<char>>(s),
{
    let e = utf16_encode(s);
    let units = e.push(0);
    lemma_encode_has_no_nul(s);
    assert forall|j: int| 0 <= j < e.len() implies #[trigger] units[j] != 0 by {
        assert(units[j] == e[j]);
    }
    lemma_nul_end_at(units, e.len() as int);
    assert(units.take(e.len() as int) =~= e);
    lemma_decode_encode(s);
}

} // verus!
