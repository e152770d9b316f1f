//! Lossy UTF-8 decoding of the driver's fixed-size text buffers: the
//! bytes up to the first NUL decode as UTF-8, every maximal invalid
//! subpart replaced by U+FFFD — decoding is total, never fatal. On valid
//! UTF-8 input the decoding is exactly UTF-8 decoding, proved against
//! the standard library's UTF-8 specification in `vstd::utf8`.

use vstd::prelude::*;

use vstd::utf8::char_u32_cast;
use vstd::utf8::codepoint_width_1;
use vstd::utf8::codepoint_width_2;
use vstd::utf8::codepoint_width_3;
use vstd::utf8::codepoint_width_4;
use vstd::utf8::decode_first_codepoint;
use vstd::utf8::decode_first_scalar;
use vstd::utf8::decode_utf8;
use vstd::utf8::is_continuation_byte;
use vstd::utf8::is_scalar;
use vstd::utf8::length_of_first_scalar;
use vstd::utf8::pop_first_scalar;
use vstd::utf8::valid_first_scalar;
use vstd::utf8::valid_utf8;

verus! {

/// The bytes of a fixed-size driver text buffer up to its first NUL (or
/// the buffer's end).
pub open spec fn nul_prefix(bytes: Seq<u8>) -> Seq<u8>
    decreases bytes.len(),
{
    if bytes.len() == 0 || bytes[0] == 0 {
        Seq::empty()
    } else {
        seq![bytes[0]] + nul_prefix(bytes.skip(1))
    }
}

/// Whether a second byte may follow a three-byte lead: the plain
/// continuation range, narrowed after 0xE0 (smaller values would be
/// overlong encodings) and after 0xED (larger values would be
/// surrogates).
pub open spec fn fits_after_width_3_lead(b0: u8, b1: u8) -> bool {
    if b0 == 0xE0 {
        0xA0 <= b1 <= 0xBF
    } else if b0 == 0xED {
        0x80 <= b1 <= 0x9F
    } else {
        is_continuation_byte(b1)
    }
}

/// Whether a second byte may follow a four-byte lead: the plain
/// continuation range, narrowed after 0xF0 (smaller values would be
/// overlong encodings) and after 0xF4 (larger values would pass the
/// last Unicode scalar).
pub open spec fn fits_after_width_4_lead(b0: u8, b1: u8) -> bool {
    if b0 == 0xF0 {
        0x90 <= b1 <= 0xBF
    } else if b0 == 0xF4 {
        0x80 <= b1 <= 0x8F
    } else {
        is_continuation_byte(b1)
    }
}

/// Whether a complete well-formed scalar encoding starts the sequence,
/// phrased over the byte ranges a decoder tests; equal to
/// `valid_first_scalar` by [`lemma_lossy_step`].
pub open spec fn lossy_step_ok(s: Seq<u8>) -> bool
    recommends
        s.len() > 0,
{
    let b0 = s[0];
    ||| b0 < 0x80
    ||| (0xC2 <= b0 && b0 <= 0xDF && s.len() >= 2 && is_continuation_byte(s[1]))
    ||| (0xE0 <= b0 && b0 <= 0xEF && s.len() >= 3 && fits_after_width_3_lead(b0, s[1])
        && is_continuation_byte(s[2]))
    ||| (0xF0 <= b0 && b0 <= 0xF4 && s.len() >= 4 && fits_after_width_4_lead(b0, s[1])
        && is_continuation_byte(s[2]) && is_continuation_byte(s[3]))
}

/// How many bytes one decoding step consumes: the whole encoding when a
/// well-formed scalar starts here, otherwise the maximal subpart of one
/// — the lead and however many following bytes still fit — and at least
/// one byte, so that decoding always advances.
pub open spec fn lossy_prefix_len(s: Seq<u8>) -> int
    recommends
        s.len() > 0,
{
    let b0 = s[0];
    if b0 < 0x80 {
        1
    } else if 0xC2 <= b0 && b0 <= 0xDF {
        if s.len() >= 2 && is_continuation_byte(s[1]) {
            2
        } else {
            1
        }
    } else if 0xE0 <= b0 && b0 <= 0xEF {
        if s.len() >= 2 && fits_after_width_3_lead(b0, s[1]) {
            if s.len() >= 3 && is_continuation_byte(s[2]) {
                3
            } else {
                2
            }
        } else {
            1
        }
    } else if 0xF0 <= b0 && b0 <= 0xF4 {
        if s.len() >= 2 && fits_after_width_4_lead(b0, s[1]) {
            if s.len() >= 3 && is_continuation_byte(s[2]) {
                if s.len() >= 4 && is_continuation_byte(s[3]) {
                    4
                } else {
                    3
                }
            } else {
                2
            }
        } else {
            1
        }
    } else {
        1
    }
}

/// The codepoint of the complete encoding that starts the sequence.
pub open spec fn lossy_code(s: Seq<u8>) -> u32
    recommends
        s.len() > 0,
        lossy_step_ok(s),
{
    let b0 = s[0];
    if b0 < 0x80 {
        codepoint_width_1(b0)
    } else if b0 <= 0xDF {
        codepoint_width_2(b0, s[1])
    } else if b0 <= 0xEF {
        codepoint_width_3(b0, s[1], s[2])
    } else {
        codepoint_width_4(b0, s[1], s[2], s[3])
    }
}

/// The characters a byte sequence decodes to under UTF-8 with
/// replacement: each well-formed scalar encoding yields its character,
/// each maximal invalid subpart yields U+FFFD; decoding never fails.
pub open spec fn utf8_lossy(s: Seq<u8>) -> Seq<char>
    decreases s.len(),
{
    if s.len() == 0 {
        Seq::empty()
    } else {
        let c = if valid_first_scalar(s) {
            decode_first_scalar(s) as char
        } else {
            '\u{FFFD}'
        };
        seq![c] + utf8_lossy(s.skip(lossy_prefix_len(s)))
    }
}

/// The text a fixed-size driver buffer decodes to: the bytes up to its
/// first NUL, decoded as UTF-8 with every maximal invalid subpart
/// replaced — never fatal.
pub open spec fn decode_text(bytes: Seq<u8>) -> Seq<char> {
    utf8_lossy(nul_prefix(bytes))
}

/// One decoding step, characterized against `vstd::utf8`: the step is
/// within bounds; a step is complete exactly when a well-formed scalar
/// encoding starts the sequence; and a complete step consumes that
/// encoding and reads its scalar.
proof fn lemma_lossy_step(s: Seq<u8>)
    requires
        s.len() > 0,
    ensures
        1 <= lossy_prefix_len(s) <= s.len(),
        lossy_step_ok(s) == valid_first_scalar(s),
        lossy_step_ok(s) ==> lossy_prefix_len(s) == length_of_first_scalar(s),
        lossy_step_ok(s) ==> decode_first_scalar(s) == lossy_code(s),
        lossy_step_ok(s) ==> is_scalar(lossy_code(s)),
{
    let b0 = s[0];
    if b0 < 0x80 {
        let v = codepoint_width_1(b0);
        assert(v == b0 as u32 && v <= 0x7f) by (bit_vector)
            requires
                v == (b0 & 0x7f) as u32,
                b0 < 0x80,
        ;
        assert(valid_first_scalar(s));
    } else if b0 < 0xC2 {
        assert(!lossy_step_ok(s));
        if 0xC0 <= b0 && s.len() >= 2 && is_continuation_byte(s[1]) {
            let b1 = s[1];
            let v = codepoint_width_2(b0, s[1]);
            assert(v < 0x80) by (bit_vector)
                requires
                    v == (((b0 & 0x1f) as u32) << 6) | ((b1 & 0x3f) as u32),
                    0xc0 <= b0 <= 0xc1,
                    0x80 <= b1 <= 0xbf,
            ;
        }
        assert(!valid_first_scalar(s));
    } else if b0 <= 0xDF {
        if s.len() >= 2 && is_continuation_byte(s[1]) {
            let b1 = s[1];
            let v = codepoint_width_2(b0, s[1]);
            assert(0x80 <= v && v <= 0x7ff) by (bit_vector)
                requires
                    v == (((b0 & 0x1f) as u32) << 6) | ((b1 & 0x3f) as u32),
                    0xc2 <= b0 <= 0xdf,
                    0x80 <= b1 <= 0xbf,
            ;
            assert(valid_first_scalar(s));
        } else {
            assert(!valid_first_scalar(s));
        }
    } else if b0 <= 0xEF {
        if s.len() >= 3 && is_continuation_byte(s[1]) && is_continuation_byte(s[2]) {
            let b1 = s[1];
            let b2 = s[2];
            let v = codepoint_width_3(b0, s[1], s[2]);
            let narrow = (b0 == 0xe0 && 0xa0 <= b1) || (b0 != 0xe0 && b0 != 0xed) || (b0 == 0xed
                && b1 <= 0x9f);
            assert(v <= 0xffff && narrow == (0x800 <= v && !(0xd800 <= v && v <= 0xdfff)))
                by (bit_vector)
                requires
                    narrow == ((b0 == 0xe0 && 0xa0 <= b1) || (b0 != 0xe0 && b0 != 0xed) || (b0
                        == 0xed && b1 <= 0x9f)),
                    v == (((b0 & 0x0f) as u32) << 12) | (((b1 & 0x3f) as u32) << 6) | ((b2
                        & 0x3f) as u32),
                    0xe0 <= b0 <= 0xef,
                    0x80 <= b1 <= 0xbf,
                    0x80 <= b2 <= 0xbf,
            ;
            assert(fits_after_width_3_lead(b0, b1) == narrow);
            assert(decode_first_codepoint(s) == v);
            assert(lossy_step_ok(s) == valid_first_scalar(s));
        } else {
            assert(!lossy_step_ok(s));
            assert(!valid_first_scalar(s));
        }
    } else if b0 <= 0xF4 {
        if s.len() >= 4 && is_continuation_byte(s[1]) && is_continuation_byte(s[2])
            && is_continuation_byte(s[3]) {
            let b1 = s[1];
            let b2 = s[2];
            let b3 = s[3];
            let v = codepoint_width_4(b0, s[1], s[2], s[3]);
            let narrow = (b0 == 0xf0 && 0x90 <= b1) || (b0 != 0xf0 && b0 != 0xf4) || (b0 == 0xf4
                && b1 <= 0x8f);
            assert(narrow == (0x10000 <= v && v <= 0x10ffff)) by (bit_vector)
                requires
                    narrow == ((b0 == 0xf0 && 0x90 <= b1) || (b0 != 0xf0 && b0 != 0xf4) || (b0
                        == 0xf4 && b1 <= 0x8f)),
                    v == (((b0 & 0x07) as u32) << 18) | (((b1 & 0x3f) as u32) << 12) | (((b2
                        & 0x3f) as u32) << 6) | ((b3 & 0x3f) as u32),
                    0xf0 <= b0 <= 0xf4,
                    0x80 <= b1 <= 0xbf,
                    0x80 <= b2 <= 0xbf,
                    0x80 <= b3 <= 0xbf,
            ;
            assert(fits_after_width_4_lead(b0, b1) == narrow);
            assert(decode_first_codepoint(s) == v);
            assert(lossy_step_ok(s) == valid_first_scalar(s));
        } else {
            assert(!lossy_step_ok(s));
            assert(!valid_first_scalar(s));
        }
    } else {
        assert(!lossy_step_ok(s));
        if b0 <= 0xF7 && s.len() >= 4 && is_continuation_byte(s[1]) && is_continuation_byte(s[2])
            && is_continuation_byte(s[3]) {
            let b1 = s[1];
            let b2 = s[2];
            let b3 = s[3];
            let v = codepoint_width_4(b0, s[1], s[2], s[3]);
            assert(v > 0x10ffff) by (bit_vector)
                requires
                    v == (((b0 & 0x07) as u32) << 18) | (((b1 & 0x3f) as u32) << 12) | (((b2
                        & 0x3f) as u32) << 6) | ((b3 & 0x3f) as u32),
                    0xf5 <= b0 <= 0xf7,
                    0x80 <= b1 <= 0xbf,
                    0x80 <= b2 <= 0xbf,
                    0x80 <= b3 <= 0xbf,
            ;
        }
        assert(!valid_first_scalar(s));
    }
}

/// On fully valid UTF-8 input the decoding with replacement is exactly
/// UTF-8 decoding: every well-formed encoding survives and nothing is
/// replaced.
pub proof fn lemma_utf8_lossy_decodes_valid(s: Seq<u8>)
    requires
        valid_utf8(s),
    ensures
        utf8_lossy(s) == decode_utf8(s),
    decreases s.len(),
{
    if s.len() > 0 {
        lemma_lossy_step(s);
        assert(s.skip(lossy_prefix_len(s)) =~= pop_first_scalar(s));
        lemma_utf8_lossy_decodes_valid(pop_first_scalar(s));
    }
}

/// Relies on char::from_u32: converts exactly the Unicode scalar values,
/// each to the character with that value.
pub assume_specification[ char::from_u32 ](i: u32) -> (r: Option<char>)
    ensures
        (r is Some) == is_scalar(i),
        r matches Some(c) ==> c as u32 == i,
;

/// Relies on String::push: appends exactly one character.
#[verifier::external_body]
fn string_push(s: &mut String, c: char)
    ensures
        final(s)@ == old(s)@.push(c),
{
    s.push(c)
}

/// A run of non-NUL bytes ending at the buffer's end or at a NUL is the
/// NUL prefix.
proof fn lemma_nul_prefix_take(bytes: Seq<u8>, end: int)
    requires
        0 <= end <= bytes.len(),
        forall|j: int| 0 <= j < end ==> bytes[j] != 0,
        end == bytes.len() || bytes[end] == 0,
    ensures
        nul_prefix(bytes) == bytes.take(end),
    decreases end,
{
    if end == 0 {
        assert(nul_prefix(bytes) =~= bytes.take(0));
    } else {
        lemma_nul_prefix_take(bytes.skip(1), end - 1);
        assert(bytes.take(end) =~= seq![bytes[0]] + bytes.skip(1).take(end - 1));
    }
}

/// One decoding step out of a byte slice: how many bytes it consumed and
/// the character it produced, exactly as the replacement decoding says.
fn lossy_step(bytes: &[u8], i: usize, end: usize) -> (r: (usize, char))
    requires
        i < end <= bytes@.len(),
    ensures
        1 <= r.0 && i + r.0 <= end,
        ({
            let tail = bytes@.take(end as int).skip(i as int);
            utf8_lossy(tail) == seq![r.1] + utf8_lossy(tail.skip(r.0 as int))
        }),
{
    let ghost tail = bytes@.take(end as int).skip(i as int);
    proof {
        lemma_lossy_step(tail);
    }
    let b0 = bytes[i];
    let (n, complete): (usize, bool) = if b0 < 0x80 {
        (1, true)
    } else if 0xC2 <= b0 && b0 <= 0xDF {
        if i + 1 < end && 0x80 <= bytes[i + 1] && bytes[i + 1] <= 0xBF {
            (2, true)
        } else {
            (1, false)
        }
    } else if 0xE0 <= b0 && b0 <= 0xEF {
        let lo: u8 = if b0 == 0xE0 {
            0xA0
        } else {
            0x80
        };
        let hi: u8 = if b0 == 0xED {
            0x9F
        } else {
            0xBF
        };
        if i + 1 < end && lo <= bytes[i + 1] && bytes[i + 1] <= hi {
            if i + 2 < end && 0x80 <= bytes[i + 2] && bytes[i + 2] <= 0xBF {
                (3, true)
            } else {
                (2, false)
            }
        } else {
            (1, false)
        }
    } else if 0xF0 <= b0 && b0 <= 0xF4 {
        let lo: u8 = if b0 == 0xF0 {
            0x90
        } else {
            0x80
        };
        let hi: u8 = if b0 == 0xF4 {
            0x8F
        } else {
            0xBF
        };
        if i + 1 < end && lo <= bytes[i + 1] && bytes[i + 1] <= hi {
            if i + 2 < end && 0x80 <= bytes[i + 2] && bytes[i + 2] <= 0xBF {
                if i + 3 < end && 0x80 <= bytes[i + 3] && bytes[i + 3] <= 0xBF {
                    (4, true)
                } else {
                    (3, false)
                }
            } else {
                (2, false)
            }
        } else {
            (1, false)
        }
    } else {
        (1, false)
    };
    proof {
        assert(n as int == lossy_prefix_len(tail));
        assert(complete == lossy_step_ok(tail));
    }
    if !complete {
        proof {
            assert(utf8_lossy(tail) == seq!['\u{FFFD}'] + utf8_lossy(tail.skip(n as int)));
        }
        return (n, '\u{FFFD}');
    }
    let v: u32 = if n == 1 {
        (b0 & 0x7f) as u32
    } else if n == 2 {
        (((b0 & 0x1f) as u32) << 6u32) | ((bytes[i + 1] & 0x3f) as u32)
    } else if n == 3 {
        (((b0 & 0x0f) as u32) << 12u32) | (((bytes[i + 1] & 0x3f) as u32) << 6u32) | ((bytes[i + 2]
            & 0x3f) as u32)
    } else {
        (((b0 & 0x07) as u32) << 18u32) | (((bytes[i + 1] & 0x3f) as u32) << 12u32) | (((bytes[i
            + 2] & 0x3f) as u32) << 6u32) | ((bytes[i + 3] & 0x3f) as u32)
    };
    proof {
        assert(v == lossy_code(tail));
        assert(is_scalar(v));
    }
    let c = match char::from_u32(v) {
        Some(c) => c,
        None => '\u{FFFD}',
    };
    proof {
        char_u32_cast(c, v);
        assert(c == decode_first_scalar(tail) as char);
        assert(utf8_lossy(tail) == seq![c] + utf8_lossy(tail.skip(n as int)));
    }
    (n, c)
}

/// Decodes a fixed-size driver text buffer: the bytes up to its first
/// NUL, as UTF-8 with every maximal invalid subpart replaced by U+FFFD.
pub fn decode_text_buffer(bytes: &[u8]) -> (r: String)
    ensures
        r@ == decode_text(bytes@),
{
    let mut end: usize = 0;
    while end < bytes.len() && bytes[end] != 0
        invariant
            end <= bytes@.len(),
            forall|j: int| 0 <= j < end ==> bytes@[j] != 0,
        decreases bytes@.len() - end,
    {
        end = end + 1;
    }
    proof {
        lemma_nul_prefix_take(bytes@, end as int);
    }
    let ghost nb = bytes@.take(end as int);
    let mut s = String::new();
    let mut i: usize = 0;
    proof {
        assert(nb.skip(0) =~= nb);
        assert(s@ + utf8_lossy(nb) =~= utf8_lossy(nb));
    }
    while i < end
        invariant
            i <= end <= bytes@.len(),
            nb == bytes@.take(end as int),
            s@ + utf8_lossy(nb.skip(i as int)) == utf8_lossy(nb),
        decreases end - i,
    {
        let ghost s0 = s@;
        let ghost ii = i as int;
        let (n, c) = lossy_step(bytes, i, end);
        string_push(&mut s, c);
        i = i + n;
        proof {
            assert(nb.skip(ii).skip(n as int) =~= nb.skip(ii + n));
            assert(s@ + utf8_lossy(nb.skip(ii + n)) =~= s0 + utf8_lossy(nb.skip(ii)));
        }
    }
    proof {
        assert(utf8_lossy(nb.skip(i as int)) =~= Seq::<char>::empty());
        assert(s@ + utf8_lossy(nb.skip(i as int)) =~= s@);
    }
    s
}

} // verus!
