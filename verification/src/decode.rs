//! Lossy UTF-8 decoding of the process's output bytes.
//!
//! The relay hands each chunk read from the PTY to [`lossy_decode`], which
//! turns it into text without ever failing: every position that does not
//! begin a well-formed UTF-8 encoding of a Unicode scalar contributes one
//! replacement character and the decoder moves on by one byte. On
//! well-formed input the result is exactly the UTF-8 decoding
//! ([`lemma_lossy_agrees_on_valid`]).

use vstd::prelude::*;
use vstd::utf8::{
    decode_first_codepoint, decode_first_scalar, decode_utf8, is_continuation_byte, is_scalar,
    length_of_first_codepoint, length_of_first_scalar, pop_first_scalar, valid_first_scalar,
    valid_leading_and_continuation_bytes_first_codepoint, valid_utf8,
};

verus! {

/// The character standing in for bytes that are not valid UTF-8.
pub const REPLACEMENT_CHAR: char = '\u{FFFD}';

/// The text that a chunk of raw output bytes decodes to: scalars are taken
/// off the front as long as they are well formed; a byte at which no
/// well-formed encoding begins becomes one replacement character.
pub open spec fn lossy_decode_spec(bytes: Seq<u8>) -> Seq<char>
    decreases bytes.len(),
{
    if bytes.len() == 0 {
        Seq::empty()
    } else if valid_first_scalar(bytes) {
        seq![decode_first_scalar(bytes) as char] + lossy_decode_spec(pop_first_scalar(bytes))
    } else {
        seq![REPLACEMENT_CHAR] + lossy_decode_spec(bytes.skip(1))
    }
}

/// Relies on `char::from_u32`: every Unicode scalar value converts to the
/// character with exactly that value, and `from_u32` returns `Some` on it.
#[verifier::external_body]
fn char_of_u32(v: u32) -> (r: char)
    requires
        is_scalar(v),
    ensures
        r == v as char,
{
    char::from_u32(v).unwrap()
}

/// Relies on `String::push`: appends the given character to the end of the
/// string.
#[verifier::external_body]
fn push_char(s: &mut String, c: char)
    ensures
        final(s)@ == old(s)@.push(c),
{
    s.push(c);
}

/// Whether the byte has the continuation form `10xxxxxx`.
fn is_cont(b: u8) -> (r: bool)
    ensures
        r == is_continuation_byte(b),
{
    0x80 <= b && b <= 0xbf
}

/// Decode the scalar whose encoding begins at position `i`, returning the
/// character and how many bytes it took; where no well-formed encoding
/// begins at `i`, return one replacement character spanning one byte.
fn decode_one(bytes: &[u8], i: usize) -> (r: (char, usize))
    requires
        i < bytes@.len(),
    ensures
        ({
            let s = bytes@.skip(i as int);
            &&& valid_first_scalar(s) ==> r.0 == decode_first_scalar(s) as char && r.1
                == length_of_first_scalar(s)
            &&& !valid_first_scalar(s) ==> r.0 == REPLACEMENT_CHAR && r.1 == 1
        }),
{
    let ghost s = bytes@.skip(i as int);
    let n = bytes.len();
    let remaining = n - i;
    let b0 = bytes[i];
    proof {
        assert(s.len() == n - i);
        assert(s[0] == b0);
    }
    if b0 < 0x80 {
        let cp: u32 = (b0 & 0x7f) as u32;
        proof {
            assert(b0 & 0x7f == b0) by (bit_vector)
                requires
                    b0 < 0x80,
            ;
            assert(valid_first_scalar(s));
            assert(decode_first_scalar(s) == cp);
            assert(length_of_first_scalar(s) == 1);
        }
        (char_of_u32(cp), 1)
    } else if b0 < 0xc0 {
        // a continuation byte in leading position: no encoding begins here
        proof {
            assert(!valid_leading_and_continuation_bytes_first_codepoint(s));
        }
        (REPLACEMENT_CHAR, 1)
    } else if b0 < 0xe0 {
        if remaining >= 2 && is_cont(bytes[i + 1]) {
            let b1 = bytes[i + 1];
            let cp: u32 = (((b0 & 0x1f) as u32) << 6) | ((b1 & 0x3f) as u32);
            proof {
                assert(s[1] == b1);
                assert(cp <= 0x7ff) by (bit_vector)
                    requires
                        cp == (((b0 & 0x1f) as u32) << 6) | ((b1 & 0x3f) as u32),
                ;
                assert(decode_first_codepoint(s) == cp);
                assert(length_of_first_codepoint(s) == 2);
            }
            if cp >= 0x80 {
                proof {
                    assert(valid_first_scalar(s));
                }
                (char_of_u32(cp), 2)
            } else {
                // overlong: two bytes spent on a value that fits in one
                proof {
                    assert(!valid_first_scalar(s));
                }
                (REPLACEMENT_CHAR, 1)
            }
        } else {
            proof {
                assert(!valid_leading_and_continuation_bytes_first_codepoint(s));
            }
            (REPLACEMENT_CHAR, 1)
        }
    } else if b0 < 0xf0 {
        if remaining >= 3 && is_cont(bytes[i + 1]) && is_cont(bytes[i + 2]) {
            let b1 = bytes[i + 1];
            let b2 = bytes[i + 2];
            let cp: u32 = (((b0 & 0x0f) as u32) << 12) | (((b1 & 0x3f) as u32) << 6) | ((b2
                & 0x3f) as u32);
            proof {
                assert(s[1] == b1);
                assert(s[2] == b2);
                assert(cp <= 0xffff) by (bit_vector)
                    requires
                        cp == (((b0 & 0x0f) as u32) << 12) | (((b1 & 0x3f) as u32) << 6) | ((b2
                            & 0x3f) as u32),
                ;
                assert(decode_first_codepoint(s) == cp);
                assert(length_of_first_codepoint(s) == 3);
            }
            if cp >= 0x800 && !(0xd800 <= cp && cp <= 0xdfff) {
                proof {
                    assert(valid_first_scalar(s));
                }
                (char_of_u32(cp), 3)
            } else {
                // overlong encoding or surrogate value
                proof {
                    assert(!valid_first_scalar(s));
                }
                (REPLACEMENT_CHAR, 1)
            }
        } else {
            proof {
                assert(!valid_leading_and_continuation_bytes_first_codepoint(s));
            }
            (REPLACEMENT_CHAR, 1)
        }
    } else if b0 < 0xf8 {
        if remaining >= 4 && is_cont(bytes[i + 1]) && is_cont(bytes[i + 2]) && is_cont(
            bytes[i + 3],
        ) {
            let b1 = bytes[i + 1];
            let b2 = bytes[i + 2];
            let b3 = bytes[i + 3];
            let cp: u32 = (((b0 & 0x07) as u32) << 18) | (((b1 & 0x3f) as u32) << 12) | (((b2
                & 0x3f) as u32) << 6) | ((b3 & 0x3f) as u32);
            proof {
                assert(s[1] == b1);
                assert(s[2] == b2);
                assert(s[3] == b3);
                assert(decode_first_codepoint(s) == cp);
                assert(length_of_first_codepoint(s) == 4);
            }
            if 0x10000 <= cp && cp <= 0x10ffff {
                proof {
                    assert(valid_first_scalar(s));
                }
                (char_of_u32(cp), 4)
            } else {
                // overlong encoding or a value beyond the Unicode range
                proof {
                    assert(!valid_first_scalar(s));
                }
                (REPLACEMENT_CHAR, 1)
            }
        } else {
            proof {
                assert(!valid_leading_and_continuation_bytes_first_codepoint(s));
            }
            (REPLACEMENT_CHAR, 1)
        }
    } else {
        // 0xf8 and above never lead a well-formed encoding
        proof {
            assert(!valid_leading_and_continuation_bytes_first_codepoint(s));
        }
        (REPLACEMENT_CHAR, 1)
    }
}

/// Decode one chunk of output bytes to text, never failing: invalid byte
/// sequences become replacement characters, valid ones their scalars, in
/// input order.
pub fn lossy_decode(bytes: &[u8]) -> (r: String)
    ensures
        r@ == lossy_decode_spec(bytes@),
{
    let mut out = String::new();
    let mut i: usize = 0;
    proof {
        assert(bytes@.skip(0) =~= bytes@);
        assert(out@ + lossy_decode_spec(bytes@) =~= lossy_decode_spec(bytes@));
    }
    while i < bytes.len()
        invariant
            i <= bytes@.len(),
            lossy_decode_spec(bytes@) == out@ + lossy_decode_spec(bytes@.skip(i as int)),
        decreases bytes@.len() - i,
    {
        let (c, w) = decode_one(bytes, i);
        proof {
            let s = bytes@.skip(i as int);
            if valid_first_scalar(s) {
                assert(1 <= length_of_first_scalar(s) <= s.len());
                assert(pop_first_scalar(s) =~= bytes@.skip(i + w));
            } else {
                assert(s.skip(1) =~= bytes@.skip(i + 1));
            }
            assert(lossy_decode_spec(s) == seq![c] + lossy_decode_spec(bytes@.skip(i + w)));
            assert(out@ + lossy_decode_spec(s) =~= out@.push(c) + lossy_decode_spec(
                bytes@.skip(i + w),
            ));
        }
        push_char(&mut out, c);
        i = i + w;
    }
    proof {
        assert(lossy_decode_spec(bytes@.skip(bytes@.len() as int)) =~= Seq::<char>::empty());
        assert(out@ + Seq::<char>::empty() =~= out@);
    }
    out
}

/// Law: no chunk is ever dropped or shortened to nothing. A non-empty chunk
/// decodes to non-empty text, and where the chunk does not begin with a
/// well-formed encoding, the text begins with the replacement character
/// rather than omitting the bad bytes.
pub proof fn lemma_chunk_never_dropped(bytes: Seq<u8>)
    requires
        bytes.len() > 0,
    ensures
        lossy_decode_spec(bytes).len() > 0,
        !valid_first_scalar(bytes) ==> lossy_decode_spec(bytes)[0] == REPLACEMENT_CHAR,
{
}

/// Law: lossy decoding is faithful where nothing is lost. On bytes that form
/// a valid UTF-8 encoding it returns exactly the UTF-8 decoding, replacement
/// characters appearing only for input that was never valid.
pub proof fn lemma_lossy_agrees_on_valid(bytes: Seq<u8>)
    requires
        valid_utf8(bytes),
    ensures
        lossy_decode_spec(bytes) == decode_utf8(bytes),
    decreases bytes.len(),
{
    if bytes.len() > 0 {
        assert(1 <= length_of_first_scalar(bytes) <= bytes.len());
        lemma_lossy_agrees_on_valid(pop_first_scalar(bytes));
    }
}

} // verus!
