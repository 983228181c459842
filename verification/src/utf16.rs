//! A verified UTF-16 codec for the protocol's string values.
//!
//! PTP strings travel as UTF-16 code units. The spec-level encoding and
//! decoding here are proved to be inverses, which is what the value codec's
//! round-trip guarantee for strings rests on.

use vstd::arithmetic::div_mod::lemma_fundamental_div_mod;
use vstd::prelude::*;

verus! {

broadcast use vstd::utf8::char_is_scalar, vstd::utf8::char_u32_cast;

/// The UTF-16 code units of one character: one unit for the basic plane,
/// a surrogate pair for the rest.
pub open spec fn spec_utf16_units_of_char(c: char) -> Seq<u16> {
    let v = c as u32;
    if v < 0x10000 {
        seq![v as u16]
    } else {
        let w = v - 0x10000;
        seq![(0xD800 + w / 0x400) as u16, (0xDC00 + w % 0x400) as u16]
    }
}

/// The UTF-16 code units of a character sequence.
pub open spec fn spec_utf16_encode(s: Seq<char>) -> Seq<u16>
    decreases s.len(),
{
    if s.len() == 0 {
        Seq::empty()
    } else {
        spec_utf16_units_of_char(s[0]) + spec_utf16_encode(s.drop_first())
    }
}

/// The characters a UTF-16 code unit sequence decodes to, or `None` if it
/// holds an unpaired surrogate.
pub open spec fn spec_utf16_decode(u: Seq<u16>) -> Option<Seq<char>>
    decreases u.len(),
{
    if u.len() == 0 {
        Some(Seq::empty())
    } else {
        let u0 = u[0];
        if u0 < 0xD800 || u0 >= 0xE000 {
            match spec_utf16_decode(u.drop_first()) {
                Some(rest) => Some(seq![(u0 as u32) as char] + rest),
                None => None,
            }
        } else if u0 < 0xDC00 && u.len() >= 2 && 0xDC00 <= u[1] && u[1] < 0xE000 {
            let v: u32 = (0x10000 + (u0 - 0xD800) * 0x400 + (u[1] - 0xDC00)) as u32;
            match spec_utf16_decode(u.skip(2)) {
                Some(rest) => Some(seq![v as char] + rest),
                None => None,
            }
        } else {
            None
        }
    }
}

/// Law: decoding the encoding of any character sequence gives it back.
pub proof fn lemma_utf16_decode_encode(s: Seq<char>)
    ensures
        spec_utf16_decode(spec_utf16_encode(s)) == Some(s),
    decreases s.len(),
{
    if s.len() == 0 {
        assert(spec_utf16_encode(s) =~= Seq::<u16>::empty());
        assert(s =~= Seq::<char>::empty());
    } else {
        let c = s[0];
        let v = c as u32;
        let tail = spec_utf16_encode(s.drop_first());
        let all = spec_utf16_encode(s);
        lemma_utf16_decode_encode(s.drop_first());
        if v < 0x10000 {
            let u0 = v as u16;
            vstd::utf8::char_is_scalar(c);
            assert(u0 == v);
            assert(all[0] == u0);
            assert(u0 < 0xD800 || u0 >= 0xE000);
            assert(all.drop_first() =~= tail);
            assert((u0 as u32) == v);
            vstd::utf8::char_u32_cast(c, u0 as u32);
            assert(((u0 as u32) as char) == c);
            assert(seq![c] + s.drop_first() =~= s);
        } else {
            let w = v - 0x10000;
            vstd::utf8::char_is_scalar(c);
            assert(w <= 0xFFFFF);
            lemma_fundamental_div_mod(w as int, 0x400);
            assert(0 <= w / 0x400 <= 0x3FF && 0 <= w % 0x400 <= 0x3FF);
            let hi = (0xD800 + w / 0x400) as u16;
            let lo = (0xDC00 + w % 0x400) as u16;
            assert(all[0] == hi && all[1] == lo);
            assert(0xD800 <= hi < 0xDC00 && 0xDC00 <= lo < 0xE000);
            assert(all.skip(2) =~= tail);
            let v2: u32 = (0x10000 + (hi - 0xD800) * 0x400 + (lo - 0xDC00)) as u32;
            vstd::utf8::char_is_scalar(c);
            assert(v2 == v);
            vstd::utf8::char_u32_cast(c, v2);
            assert((v2 as char) == c);
            assert(seq![c] + s.drop_first() =~= s);
        }
    }
}

/// Appending one character extends the encoding by that character's units.
pub proof fn lemma_utf16_encode_push(s: Seq<char>, c: char)
    ensures
        spec_utf16_encode(s.push(c)) == spec_utf16_encode(s) + spec_utf16_units_of_char(c),
    decreases s.len(),
{
    if s.len() == 0 {
        assert(s.push(c)[0] == c);
        assert(s.push(c).drop_first() =~= Seq::<char>::empty());
        assert(spec_utf16_encode(Seq::<char>::empty()) =~= Seq::<u16>::empty());
        assert(spec_utf16_encode(s.push(c)) =~= spec_utf16_units_of_char(c));
        assert(spec_utf16_encode(s) + spec_utf16_units_of_char(c) =~= spec_utf16_units_of_char(
            c,
        ));
    } else {
        lemma_utf16_encode_push(s.drop_first(), c);
        assert(s.push(c).drop_first() =~= s.drop_first().push(c));
        assert(s.push(c)[0] == s[0]);
        assert(spec_utf16_units_of_char(s[0]) + (spec_utf16_encode(s.drop_first())
            + spec_utf16_units_of_char(c)) =~= (spec_utf16_units_of_char(s[0])
            + spec_utf16_encode(s.drop_first())) + spec_utf16_units_of_char(c));
    }
}

/// Relies on char::from_u32: `Some` exactly for unicode scalar values
/// (everything up to 0x10FFFF except the surrogate range), carrying the
/// given value.
#[verifier::external_body]
fn char_from_u32(v: u32) -> (r: Option<char>)
    ensures
        r is Some <==> (v < 0xD800 || (0xE000 <= v && v <= 0x10FFFF)),
        r matches Some(c) ==> c as u32 == v,
{
    char::from_u32(v)
}

/// Relies on String::push: appends one character at the end of the string.
#[verifier::external_body]
fn push_char(s: &mut String, c: char)
    ensures
        final(s)@ == old(s)@.push(c),
{
    s.push(c)
}

/// Encode a string's characters as UTF-16 code units.
pub fn utf16_encode_units(s: &str) -> (r: Vec<u16>)
    ensures
        r@ == spec_utf16_encode(s@),
{
    let n = s.unicode_len();
    let mut out: Vec<u16> = Vec::new();
    let mut i: usize = 0;
    while i < n
        invariant
            i <= n,
            n == s@.len(),
            out@ == spec_utf16_encode(s@.take(i as int)),
        decreases n - i,
    {
        let c = s.get_char(i);
        let v = c as u32;
        if v < 0x10000 {
            out.push(v as u16);
        } else {
            let w = v - 0x10000;
            out.push((0xD800 + w / 0x400) as u16);
            out.push((0xDC00 + w % 0x400) as u16);
        }
        proof {
            lemma_utf16_encode_push(s@.take(i as int), s@[i as int]);
            assert(s@.take(i + 1) =~= s@.take(i as int).push(s@[i as int]));
            assert(out@ =~= spec_utf16_encode(s@.take(i + 1)));
        }
        i = i + 1;
    }
    proof {
        assert(s@.take(n as int) =~= s@);
    }
    out
}

/// Decode UTF-16 code units into a string; `None` on an unpaired surrogate.
pub fn utf16_decode_string(units: &Vec<u16>) -> (r: Option<String>)
    ensures
        match spec_utf16_decode(units@) {
            Some(cs) => r matches Some(st) && st@ == cs,
            None => r is None,
        },
{
    let n = units.len();
    let mut out = String::new();
    let mut i: usize = 0;
    proof {
        assert(units@.skip(0) =~= units@);
        match spec_utf16_decode(units@) {
            Some(rest) => {
                assert(out@ + rest =~= rest);
            },
            None => {},
        }
    }
    while i < n
        invariant
            i <= n,
            n == units@.len(),
            spec_utf16_decode(units@) == match spec_utf16_decode(units@.skip(i as int)) {
                Some(rest) => Some(out@ + rest),
                None => None::<Seq<char>>,
            },
        decreases n - i,
    {
        let ghost suffix = units@.skip(i as int);
        let ghost prev = out@;
        let u0 = units[i];
        proof {
            assert(suffix.len() == n - i);
            assert(suffix[0] == u0);
        }
        if u0 < 0xD800 || u0 >= 0xE000 {
            let c = match char_from_u32(u0 as u32) {
                Some(c) => c,
                None => {
                    proof {
                        assert(false);
                    }
                    return None;
                },
            };
            push_char(&mut out, c);
            proof {
                assert(suffix.drop_first() =~= units@.skip(i + 1));
                vstd::utf8::char_u32_cast(c, u0 as u32);
                assert(c == ((u0 as u32) as char));
                match spec_utf16_decode(units@.skip(i + 1)) {
                    Some(rest) => {
                        assert(prev + (seq![c] + rest) =~= prev.push(c) + rest);
                    },
                    None => {},
                }
            }
            i = i + 1;
        } else if u0 < 0xDC00 && i + 1 < n && 0xDC00 <= units[i + 1] && units[i + 1] < 0xE000 {
            let u1 = units[i + 1];
            proof {
                assert(suffix.len() >= 2);
                assert(suffix[1] == u1);
            }
            let v: u32 = 0x10000 + ((u0 - 0xD800) as u32) * 0x400 + ((u1 - 0xDC00) as u32);
            let c = match char_from_u32(v) {
                Some(c) => c,
                None => {
                    proof {
                        assert(false);
                    }
                    return None;
                },
            };
            push_char(&mut out, c);
            proof {
                assert(suffix.skip(2) =~= units@.skip(i + 2));
                vstd::utf8::char_u32_cast(c, v);
                assert(c == (v as char));
                match spec_utf16_decode(units@.skip(i + 2)) {
                    Some(rest) => {
                        assert(prev + (seq![c] + rest) =~= prev.push(c) + rest);
                    },
                    None => {},
                }
            }
            i = i + 2;
        } else {
            proof {
                if u0 < 0xDC00 && suffix.len() >= 2 {
                    assert(suffix[1] == units@[i + 1]);
                }
                assert(spec_utf16_decode(suffix) is None);
            }
            return None;
        }
    }
    proof {
        assert(units@.skip(n as int) =~= Seq::<u16>::empty());
        match spec_utf16_decode(units@) {
            Some(cs) => {
                assert(out@ + Seq::<char>::empty() =~= out@);
            },
            None => {},
        }
    }
    Some(out)
}

} // verus!
