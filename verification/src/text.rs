//! Decoding of host text buffers.
//!
//! The host hands draw calls a null-terminated buffer of UTF-16 code units.
//! Decoding never fails: a buffer with no terminator, or whose payload is
//! not valid UTF-16, decodes to a fixed, visible placeholder string.

use vstd::prelude::*;
use vstd::slice::slice_index_get;
use vstd::string::StringExecFns;

verus! {

/// The fixed placeholder shown when a text buffer cannot be decoded.
pub open spec fn placeholder_chars() -> Seq<char> {
    "?EncodingError?"@
}

/// A UTF-16 high (leading) surrogate code unit.
pub open spec fn is_high_surrogate(u: u16) -> bool {
    0xD800 <= u < 0xDC00
}

/// A UTF-16 low (trailing) surrogate code unit.
pub open spec fn is_low_surrogate(u: u16) -> bool {
    0xDC00 <= u < 0xE000
}

/// The code point encoded by a surrogate pair.
pub open spec fn combined_surrogate(hi: u16, lo: u16) -> int
    recommends
        is_high_surrogate(hi),
        is_low_surrogate(lo),
{
    0x10000 + (hi - 0xD800) * 0x400 + (lo - 0xDC00)
}

/// The code units before the first zero unit, or `None` when the buffer
/// holds no terminator.
pub open spec fn payload_of(units: Seq<u16>) -> Option<Seq<u16>>
    decreases units.len(),
{
    if units.len() == 0 {
        None
    } else if units[0] == 0 {
        Some(Seq::empty())
    } else {
        match payload_of(units.drop_first()) {
            Some(p) => Some(seq![units[0]] + p),
            None => None,
        }
    }
}

/// UTF-16 decoding of a payload: `None` when a surrogate is unpaired.
pub open spec fn utf16_chars(units: Seq<u16>) -> Option<Seq<char>>
    decreases units.len(),
{
    if units.len() == 0 {
        Some(Seq::empty())
    } else {
        let u0 = units[0];
        if !is_high_surrogate(u0) && !is_low_surrogate(u0) {
            match utf16_chars(units.drop_first()) {
                Some(cs) => Some(seq![u0 as char] + cs),
                None => None,
            }
        } else if is_high_surrogate(u0) {
            if units.len() >= 2 && is_low_surrogate(units[1]) {
                match utf16_chars(units.skip(2)) {
                    Some(cs) => Some(seq![combined_surrogate(u0, units[1]) as char] + cs),
                    None => None,
                }
            } else {
                None
            }
        } else {
            None
        }
    }
}

/// What a null-terminated wide-character buffer decodes to: the payload
/// before the first zero decoded as UTF-16, and the placeholder when no
/// terminator is present or the payload is malformed.
pub open spec fn decoded_text(units: Seq<u16>) -> Seq<char> {
    match payload_of(units) {
        Some(p) => match utf16_chars(p) {
            Some(cs) => cs,
            None => placeholder_chars(),
        },
        None => placeholder_chars(),
    }
}

/// Concatenation of an already-decoded prefix with a maybe-failed suffix.
pub open spec fn opt_concat(pre: Seq<char>, rest: Option<Seq<char>>) -> Option<Seq<char>> {
    match rest {
        Some(cs) => Some(pre + cs),
        None => None,
    }
}

/// A buffer whose first zero stands at `t` has exactly the units before `t`
/// as its payload.
proof fn lemma_payload_prefix(units: Seq<u16>, t: int)
    requires
        0 <= t < units.len(),
        units[t] == 0,
        forall|k: int| 0 <= k < t ==> units[k] != 0,
    ensures
        payload_of(units) == Some(units.subrange(0, t)),
    decreases t,
{
    if t == 0 {
        assert(units.subrange(0, 0) =~= Seq::<u16>::empty());
    } else {
        lemma_payload_prefix(units.drop_first(), t - 1);
        assert(seq![units[0]] + units.drop_first().subrange(0, t - 1) =~= units.subrange(0, t));
    }
}

/// A buffer without a zero unit has no payload.
proof fn lemma_payload_missing(units: Seq<u16>)
    requires
        forall|k: int| 0 <= k < units.len() ==> units[k] != 0,
    ensures
        payload_of(units) is None,
    decreases units.len(),
{
    if units.len() > 0 {
        lemma_payload_missing(units.drop_first());
    }
}

/// Relies on `char::from_u32`: a Unicode scalar value converts to the
/// character with that code point.
#[verifier::external_body]
fn char_from_code(u: u32) -> (r: char)
    requires
        u < 0xD800 || (0xE000 <= u && u <= 0x10FFFF),
    ensures
        r == u as char,
{
    char::from_u32(u).unwrap_or('\u{FFFD}')
}

/// Relies on `String::push`: appends exactly one character.
#[verifier::external_body]
fn push_char(s: &mut String, c: char)
    ensures
        final(s)@ == old(s)@.push(c),
{
    s.push(c);
}

/// The fixed placeholder as an owned string.
pub fn placeholder_string() -> (r: String)
    ensures
        r@ == placeholder_chars(),
{
    String::from_str("?EncodingError?")
}

/// Decodes a null-terminated UTF-16 buffer, substituting the placeholder
/// for a missing terminator or an unpaired surrogate.
pub fn decode_wide(units: &[u16]) -> (r: String)
    ensures
        r@ == decoded_text(units@),
{
    let n = units.len();
    let mut t: usize = 0;
    while t < n && *slice_index_get(units, t) != 0
        invariant
            0 <= t <= n,
            n == units@.len(),
            forall|k: int| 0 <= k < t ==> units@[k] != 0,
        decreases n - t,
    {
        t = t + 1;
    }
    if t == n {
        proof {
            lemma_payload_missing(units@);
        }
        return placeholder_string();
    }
    proof {
        lemma_payload_prefix(units@, t as int);
    }
    let ghost p = units@.subrange(0, t as int);
    let mut out = String::new();
    let mut j: usize = 0;
    proof {
        assert(p.skip(0) =~= p);
    }
    while j < t
        invariant
            0 <= j <= t <= n,
            n == units@.len(),
            t < n,
            p == units@.subrange(0, t as int),
            payload_of(units@) == Some(p),
            utf16_chars(p) == opt_concat(out@, utf16_chars(p.skip(j as int))),
        decreases t - j,
    {
        let ghost suffix = p.skip(j as int);
        let u0 = *slice_index_get(units, j);
        assert(suffix[0] == u0);
        if u0 < 0xD800 || u0 >= 0xE000 {
            let c = char_from_code(u0 as u32);
            push_char(&mut out, c);
            j = j + 1;
            proof {
                assert(suffix.drop_first() =~= p.skip(j as int));
                assert(utf16_chars(suffix) == opt_concat(
                    seq![u0 as char],
                    utf16_chars(p.skip(j as int)),
                ));
                lemma_opt_concat_shift(out@, u0 as char, utf16_chars(p.skip(j as int)));
            }
        } else if u0 < 0xDC00 {
            if j + 1 < t {
                let u1 = *slice_index_get(units, j + 1);
                assert(suffix[1] == u1);
                if 0xDC00 <= u1 && u1 < 0xE000 {
                    let code: u32 = 0x10000 + (u0 as u32 - 0xD800) * 0x400 + (u1 as u32 - 0xDC00);
                    let c = char_from_code(code);
                    push_char(&mut out, c);
                    j = j + 2;
                    proof {
                        assert(suffix.skip(2) =~= p.skip(j as int));
                        assert(utf16_chars(suffix) == opt_concat(
                            seq![code as char],
                            utf16_chars(p.skip(j as int)),
                        ));
                        lemma_opt_concat_shift(out@, code as char, utf16_chars(p.skip(j as int)));
                    }
                } else {
                    proof {
                        assert(utf16_chars(suffix) is None);
                    }
                    return placeholder_string();
                }
            } else {
                proof {
                    assert(suffix.len() == 1);
                    assert(utf16_chars(suffix) is None);
                }
                return placeholder_string();
            }
        } else {
            proof {
                assert(utf16_chars(suffix) is None);
            }
            return placeholder_string();
        }
    }
    proof {
        assert(p.skip(t as int) =~= Seq::<u16>::empty());
        assert(utf16_chars(p) == Some(out@ + Seq::<char>::empty()));
        assert(out@ + Seq::<char>::empty() =~= out@);
    }
    out
}

/// Rewrites "prefix, then one character, then the rest" as "extended prefix,
/// then the rest": the step a decoding loop takes.
proof fn lemma_opt_concat_shift(pre: Seq<char>, c: char, rest: Option<Seq<char>>)
    ensures
        opt_concat(pre, opt_concat(seq![c], rest)) == opt_concat(pre.push(c), rest),
{
    match rest {
        Some(cs) => {
            assert(pre + (seq![c] + cs) =~= pre.push(c) + cs);
        },
        None => {},
    }
}

} // verus!
