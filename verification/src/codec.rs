//! The wide-string codec: converts text to and from the platform's native
//! UTF-16, null-terminated representation.
//!
//! Native text buffers end at the first zero unit, so a zero unit embedded
//! in the text would silently truncate it. The codec therefore sanitizes
//! the terminator character out of the text, substituting a visible
//! placeholder (a space), before encoding.

use vstd::prelude::*;
use vstd::arithmetic::div_mod::lemma_fundamental_div_mod;
use vstd::utf8::char_is_scalar;
use vstd::utf8::char_u32_cast;

verus! {

/// The character decoded in place of an ill-formed surrogate unit.
pub const WIDE_REPLACEMENT: char = '\u{FFFD}';

/// The placeholder substituted for an embedded terminator character.
pub open spec fn sanitize_char(c: char) -> char {
    if c == '\0' {
        ' '
    } else {
        c
    }
}

/// The text with every embedded terminator replaced by the placeholder.
pub open spec fn sanitized(s: Seq<char>) -> Seq<char> {
    s.map_values(|c: char| sanitize_char(c))
}

/// The leading UTF-16 unit of a scalar value above the basic plane.
pub open spec fn high_surrogate(v: u32) -> u16 {
    (0xD800 + ((v - 0x10000) / 0x400)) as u16
}

/// The trailing UTF-16 unit of a scalar value above the basic plane.
pub open spec fn low_surrogate(v: u32) -> u16 {
    (0xDC00 + ((v - 0x10000) % 0x400)) as u16
}

/// The UTF-16 units encoding one character: one unit inside the basic
/// plane, a surrogate pair above it.
pub open spec fn wide_units(c: char) -> Seq<u16> {
    if (c as u32) < 0x10000 {
        seq![(c as u32) as u16]
    } else {
        seq![high_surrogate(c as u32), low_surrogate(c as u32)]
    }
}

/// The UTF-16 units encoding a sanitized text, without the terminator.
pub open spec fn encode_units(s: Seq<char>) -> Seq<u16>
    decreases s.len(),
{
    if s.len() == 0 {
        Seq::empty()
    } else {
        wide_units(sanitize_char(s[0])) + encode_units(s.drop_first())
    }
}

/// The full native buffer for a text: its sanitized UTF-16 units followed
/// by the terminator.
pub open spec fn encoded(s: Seq<char>) -> Seq<u16> {
    encode_units(s) + seq![0u16]
}

pub open spec fn is_high_surrogate(u: u16) -> bool {
    0xD800 <= u && u < 0xDC00
}

pub open spec fn is_low_surrogate(u: u16) -> bool {
    0xDC00 <= u && u < 0xE000
}

/// The scalar value a surrogate pair stands for.
pub open spec fn combined_scalar(h: u16, l: u16) -> u32 {
    (0x10000 + (h - 0xD800) * 0x400 + (l - 0xDC00)) as u32
}

/// The text a native buffer holds: units up to the first terminator,
/// surrogate pairs combined, ill-formed surrogates replaced.
pub open spec fn decoded(u: Seq<u16>) -> Seq<char>
    decreases u.len(),
{
    if u.len() == 0 || u[0] == 0 {
        Seq::empty()
    } else if is_high_surrogate(u[0]) {
        if u.len() >= 2 && is_low_surrogate(u[1]) {
            seq![(combined_scalar(u[0], u[1]) as char)] + decoded(u.skip(2))
        } else {
            seq![WIDE_REPLACEMENT] + decoded(u.skip(1))
        }
    } else if is_low_surrogate(u[0]) {
        seq![WIDE_REPLACEMENT] + decoded(u.skip(1))
    } else {
        seq![((u[0] as u32) as char)] + decoded(u.skip(1))
    }
}

/// Relies on `char::from_u32`: per its documentation it returns the
/// character with the given scalar value exactly when the value is a
/// Unicode scalar value (below the surrogate range, or above it and at
/// most 0x10FFFF), and `None` otherwise.
pub assume_specification[ char::from_u32 ](v: u32) -> (r: Option<char>)
    ensures
        r is Some <==> (v < 0xD800 || (0xE000 <= v && v <= 0x10FFFF)),
        r matches Some(c) ==> c as u32 == v,
;

proof fn lemma_encode_units_snoc(s: Seq<char>, c: char)
    ensures
        encode_units(s.push(c)) == encode_units(s) + wide_units(sanitize_char(c)),
    decreases s.len(),
{
    if s.len() == 0 {
        assert(s.push(c)[0] == c);
        assert(s.push(c).drop_first() =~= Seq::<char>::empty());
        assert(encode_units(s.push(c)) == wide_units(sanitize_char(c)) + encode_units(
            Seq::<char>::empty(),
        ));
        assert(encode_units(s.push(c)) =~= encode_units(s) + wide_units(sanitize_char(c)));
    } else {
        assert(s.push(c)[0] == s[0]);
        assert(s.push(c).drop_first() =~= s.drop_first().push(c));
        lemma_encode_units_snoc(s.drop_first(), c);
        assert(encode_units(s.push(c)) == wide_units(sanitize_char(s[0])) + (encode_units(
            s.drop_first(),
        ) + wide_units(sanitize_char(c))));
        assert(encode_units(s.push(c)) =~= encode_units(s) + wide_units(sanitize_char(c)));
    }
}

/// Encodes a text into the platform's native representation: its UTF-16
/// units, embedded terminators sanitized to spaces, a terminator appended.
pub fn encode_wide(text: &Vec<char>) -> (r: Vec<u16>)
    ensures
        r@ == encoded(text@),
{
    let mut out: Vec<u16> = Vec::new();
    let mut i: usize = 0;
    while i < text.len()
        invariant
            i <= text@.len(),
            out@ == encode_units(text@.take(i as int)),
        decreases text@.len() - i,
    {
        let c0: char = text[i];
        let c: char = if c0 == '\0' {
            ' '
        } else {
            c0
        };
        proof {
            char_is_scalar(c);
        }
        let v: u32 = c as u32;
        if v < 0x10000 {
            out.push(v as u16);
        } else {
            let h: u32 = 0xD800 + ((v - 0x10000) / 0x400);
            let l: u32 = 0xDC00 + ((v - 0x10000) % 0x400);
            out.push(h as u16);
            out.push(l as u16);
        }
        proof {
            lemma_encode_units_snoc(text@.take(i as int), text@[i as int]);
            assert(text@.take(i as int).push(text@[i as int]) =~= text@.take(i + 1));
        }
        i = i + 1;
    }
    proof {
        assert(text@.take(text@.len() as int) =~= text@);
    }
    out.push(0u16);
    out
}

/// Decodes a native buffer back into text, reading up to the first
/// terminator. Well-formed surrogate pairs are combined; an ill-formed
/// surrogate unit decodes to [`WIDE_REPLACEMENT`].
pub fn decode_wide(units: &Vec<u16>) -> (r: Vec<char>)
    ensures
        r@ == decoded(units@),
{
    let mut out: Vec<char> = Vec::new();
    let mut i: usize = 0;
    proof {
        assert(units@.skip(0) =~= units@);
        assert(Seq::<char>::empty() + decoded(units@) =~= decoded(units@));
    }
    while i < units.len() && units[i] != 0
        invariant
            i <= units@.len(),
            decoded(units@) == out@ + decoded(units@.skip(i as int)),
        decreases units@.len() - i,
    {
        let ghost i0: int = i as int;
        let u: u16 = units[i];
        if u >= 0xD800 && u < 0xDC00 {
            let pair_ok: bool = i + 1 < units.len() && units[i + 1] >= 0xDC00 && units[i + 1]
                < 0xE000;
            if pair_ok {
                let l: u16 = units[i + 1];
                let scalar: u32 = 0x10000 + ((u as u32) - 0xD800) * 0x400 + ((l as u32) - 0xDC00);
                let c: char = match char::from_u32(scalar) {
                    Some(c) => c,
                    None => {
                        proof {
                            assert(false);
                        }
                        ' '
                    },
                };
                proof {
                    char_u32_cast(c, scalar);
                    assert(units@.skip(i0).skip(2) =~= units@.skip(i0 + 2));
                    assert(decoded(units@.skip(i0)) == seq![
                        (combined_scalar(units@[i0], units@[i0 + 1]) as char),
                    ] + decoded(units@.skip(i0 + 2)));
                    assert((combined_scalar(units@[i0], units@[i0 + 1]) as char) == c);
                }
                out.push(c);
                i = i + 2;
                proof {
                    assert(decoded(units@) =~= out@ + decoded(units@.skip(i as int)));
                }
            } else {
                proof {
                    assert(units@.skip(i0).skip(1) =~= units@.skip(i0 + 1));
                    assert(decoded(units@.skip(i0)) == seq![WIDE_REPLACEMENT] + decoded(
                        units@.skip(i0 + 1),
                    ));
                }
                out.push(WIDE_REPLACEMENT);
                i = i + 1;
                proof {
                    assert(decoded(units@) =~= out@ + decoded(units@.skip(i as int)));
                }
            }
        } else if u >= 0xDC00 && u < 0xE000 {
            proof {
                assert(units@.skip(i0).skip(1) =~= units@.skip(i0 + 1));
                assert(decoded(units@.skip(i0)) == seq![WIDE_REPLACEMENT] + decoded(
                    units@.skip(i0 + 1),
                ));
            }
            out.push(WIDE_REPLACEMENT);
            i = i + 1;
            proof {
                assert(decoded(units@) =~= out@ + decoded(units@.skip(i as int)));
            }
        } else {
            let c: char = match char::from_u32(u as u32) {
                Some(c) => c,
                None => {
                    proof {
                        assert(false);
                    }
                    ' '
                },
            };
            proof {
                char_u32_cast(c, u as u32);
                assert(units@.skip(i0).skip(1) =~= units@.skip(i0 + 1));
                assert(decoded(units@.skip(i0)) == seq![((units@[i0] as u32) as char)] + decoded(
                    units@.skip(i0 + 1),
                ));
                assert(((units@[i0] as u32) as char) == c);
            }
            out.push(c);
            i = i + 1;
            proof {
                assert(decoded(units@) =~= out@ + decoded(units@.skip(i as int)));
            }
        }
    }
    proof {
        if i < units@.len() {
            assert(units@.skip(i as int)[0] == 0);
        }
        assert(decoded(units@.skip(i as int)) =~= Seq::<char>::empty());
        assert(out@ + decoded(units@.skip(i as int)) =~= out@);
    }
    out
}

proof fn lemma_decoded_of_encoded_units(s: Seq<char>)
    ensures
        decoded(encode_units(s) + seq![0u16]) == sanitized(s),
    decreases s.len(),
{
    if s.len() == 0 {
        assert(encode_units(s) + seq![0u16] =~= seq![0u16]);
        assert(decoded(seq![0u16]) =~= Seq::<char>::empty());
        assert(sanitized(s) =~= Seq::<char>::empty());
    } else {
        let c = sanitize_char(s[0]);
        let rest = s.drop_first();
        let w = encode_units(s) + seq![0u16];
        char_is_scalar(c);
        let v = c as u32;
        lemma_decoded_of_encoded_units(rest);
        assert(sanitized(s) =~= seq![c] + sanitized(rest));
        if v < 0x10000 {
            assert(w[0] == (v as u16));
            assert(c != '\0');
            assert(w[0] != 0) by {
                if v == 0 {
                    char_u32_cast(c, 0);
                    char_u32_cast('\0', 0);
                }
            }
            assert(!is_high_surrogate(w[0]) && !is_low_surrogate(w[0]));
            char_u32_cast(c, v);
            assert(w.skip(1) =~= encode_units(rest) + seq![0u16]);
            assert(decoded(w) =~= seq![c] + sanitized(rest));
        } else {
            lemma_fundamental_div_mod((v - 0x10000) as int, 0x400);
            let h = high_surrogate(v);
            let l = low_surrogate(v);
            assert(w[0] == h && w[1] == l);
            assert(is_high_surrogate(h));
            assert(is_low_surrogate(l));
            assert(combined_scalar(h, l) == v);
            char_u32_cast(c, v);
            assert(w.skip(2) =~= encode_units(rest) + seq![0u16]);
            assert(decoded(w) =~= seq![c] + sanitized(rest));
        }
    }
}

/// Law: decoding an encoded text yields the sanitized text — the original
/// text itself whenever it had no embedded terminator, and otherwise the
/// text with each terminator replaced by the placeholder.
pub proof fn lemma_decode_encode(s: Seq<char>)
    ensures
        decoded(encoded(s)) == sanitized(s),
{
    lemma_decoded_of_encoded_units(s);
}

/// Law: a text without embedded terminator characters round-trips exactly
/// through the codec.
pub proof fn lemma_round_trip_clean(s: Seq<char>)
    requires
        forall|i: int| 0 <= i < s.len() ==> s[i] != '\0',
    ensures
        decoded(encoded(s)) == s,
{
    lemma_decode_encode(s);
    assert(sanitized(s) =~= s);
}

/// Law: sanitization is idempotent, so a decoded text round-trips
/// unchanged under a second encode-decode pass.
pub proof fn lemma_round_trip_idempotent(s: Seq<char>)
    ensures
        sanitized(sanitized(s)) == sanitized(s),
        decoded(encoded(decoded(encoded(s)))) == decoded(encoded(s)),
{
    assert(sanitized(sanitized(s)) =~= sanitized(s));
    lemma_decode_encode(s);
    lemma_decode_encode(sanitized(s));
}

} // verus!
