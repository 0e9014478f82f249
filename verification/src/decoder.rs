//! Lossy decoding of fetched bytes into text.
//!
//! Pages are often served with bytes that are not well-formed UTF-8. Decoding
//! never rejects them: every well-formed scalar is kept, and every byte at which
//! no well-formed scalar begins becomes one U+FFFD REPLACEMENT CHARACTER.

use vstd::prelude::*;
use vstd::utf8::*;

verus! {

/// The character that stands for a byte that could not be decoded.
pub open spec fn replacement() -> char {
    '\u{FFFD}'
}

/// The text that `bytes` decodes to: scalar by scalar where the bytes are
/// well-formed UTF-8, and one replacement character for each byte at which no
/// well-formed scalar begins.
pub open spec fn lossy_decode(bytes: Seq<u8>) -> Seq<char>
    decreases bytes.len(),
{
    if bytes.len() == 0 {
        Seq::empty()
    } else if valid_first_scalar(bytes) {
        seq![decode_first_scalar(bytes) as char] + lossy_decode(pop_first_scalar(bytes))
    } else {
        seq![replacement()] + lossy_decode(bytes.drop_first())
    }
}

/// Whether `byte` has the form of a continuation byte, `10xxxxxx`.
fn is_continuation(byte: u8) -> (yes: bool)
    ensures
        yes == is_continuation_byte(byte),
{
    0x80 <= byte && byte <= 0xbf
}

/// The width in bytes of the scalar that begins at `bytes[at]`, or 0 where no
/// well-formed scalar begins there: the bytes end too early, a continuation
/// byte is missing, or the value is overlong, a surrogate or beyond U+10FFFF.
fn scalar_width(bytes: &[u8], at: usize) -> (width: usize)
    requires
        at < bytes@.len(),
    ensures
        valid_first_scalar(bytes@.skip(at as int)) ==> width == length_of_first_scalar(
            bytes@.skip(at as int),
        ),
        !valid_first_scalar(bytes@.skip(at as int)) ==> width == 0,
{
    let ghost tail = bytes@.skip(at as int);
    let left: usize = bytes.len() - at;
    let b0: u8 = bytes[at];
    assert(tail[0] == b0);
    if b0 <= 0x7f {
        1
    } else if 0xc0 <= b0 && b0 <= 0xdf {
        if left < 2 {
            return 0;
        }
        let b1: u8 = bytes[at + 1];
        assert(tail[1] == b1);
        if !is_continuation(b1) {
            return 0;
        }
        let point: u32 = (((b0 & 0x1F) as u32) << 6) | ((b1 & 0x3f) as u32);
        assert((((b0 & 0x1F) as u32) << 6) | ((b1 & 0x3f) as u32) <= 0x7ff) by (bit_vector);
        if 0x80 <= point {
            2
        } else {
            0
        }
    } else if 0xe0 <= b0 && b0 <= 0xef {
        if left < 3 {
            return 0;
        }
        let b1: u8 = bytes[at + 1];
        let b2: u8 = bytes[at + 2];
        assert(tail[1] == b1 && tail[2] == b2);
        if !is_continuation(b1) || !is_continuation(b2) {
            return 0;
        }
        let point: u32 = (((b0 & 0x0F) as u32) << 12) | (((b1 & 0x3f) as u32) << 6) | ((b2
            & 0x3f) as u32);
        if 0x800 <= point && !(0xD800 <= point && point <= 0xDFFF) {
            3
        } else {
            0
        }
    } else if 0xf0 <= b0 && b0 <= 0xf7 {
        if left < 4 {
            return 0;
        }
        let b1: u8 = bytes[at + 1];
        let b2: u8 = bytes[at + 2];
        let b3: u8 = bytes[at + 3];
        assert(tail[1] == b1 && tail[2] == b2 && tail[3] == b3);
        if !is_continuation(b1) || !is_continuation(b2) || !is_continuation(b3) {
            return 0;
        }
        let point: u32 = (((b0 & 0x07) as u32) << 18) | (((b1 & 0x3f) as u32) << 12) | (((b2
            & 0x3f) as u32) << 6) | ((b3 & 0x3f) as u32);
        if 0x10000 <= point && point <= 0x10ffff {
            4
        } else {
            0
        }
    } else {
        0
    }
}

/// `std::string::FromUtf8Error`, the error of `String::from_utf8`, as an opaque
/// type.
#[verifier::external_type_specification]
#[verifier::external_body]
pub struct ExFromUtf8Error(std::string::FromUtf8Error);

/// `String::from_utf8` succeeds exactly on well-formed UTF-8, and the string it
/// then returns is the decoding of the bytes it was given.
pub assume_specification[ String::from_utf8 ](vec: Vec<u8>) -> (text: Result<
    String,
    std::string::FromUtf8Error,
>)
    ensures
        text is Ok <==> valid_utf8(vec@),
        text matches Ok(s) ==> s@ == decode_utf8(vec@),
;

/// Decoding distributes over the concatenation of well-formed byte sequences.
proof fn lemma_decode_concat(a: Seq<u8>, b: Seq<u8>)
    requires
        valid_utf8(a),
        valid_utf8(b),
    ensures
        valid_utf8(a + b),
        decode_utf8(a + b) == decode_utf8(a) + decode_utf8(b),
    decreases a.len(),
{
    valid_utf8_concat(a, b);
    if a.len() == 0 {
        assert(a + b =~= b);
        assert(decode_utf8(a) + decode_utf8(b) =~= decode_utf8(b));
    } else {
        let rest = pop_first_scalar(a);
        lemma_decode_concat(rest, b);
        assert(pop_first_scalar(a + b) =~= rest + b);
        assert(decode_first_scalar(a + b) == decode_first_scalar(a));
        assert(decode_utf8(a + b) =~= decode_utf8(a) + decode_utf8(b));
    }
}

/// The bytes of one well-formed scalar decode to that scalar alone.
proof fn lemma_decode_scalar(bytes: Seq<u8>)
    requires
        valid_first_scalar(bytes),
    ensures
        valid_utf8(take_first_scalar(bytes)),
        decode_utf8(take_first_scalar(bytes)) == seq![decode_first_scalar(bytes) as char],
{
    let piece = take_first_scalar(bytes);
    assert(valid_first_scalar(piece));
    assert(pop_first_scalar(piece) =~= Seq::<u8>::empty());
    assert(decode_first_scalar(piece) == decode_first_scalar(bytes));
    reveal_with_fuel(valid_utf8, 2);
    reveal_with_fuel(decode_utf8, 2);
    assert(decode_utf8(piece) =~= seq![decode_first_scalar(bytes) as char]);
}

/// The three bytes `EF BF BD` are the encoding of the replacement character.
proof fn lemma_decode_replacement()
    ensures
        valid_utf8(seq![0xEFu8, 0xBFu8, 0xBDu8]),
        decode_utf8(seq![0xEFu8, 0xBFu8, 0xBDu8]) == seq![replacement()],
{
    let piece = seq![0xEFu8, 0xBFu8, 0xBDu8];
    assert(codepoint_width_3(0xEFu8, 0xBFu8, 0xBDu8) == 0xFFFDu32) by (bit_vector);
    assert(valid_first_scalar(piece));
    assert(take_first_scalar(piece) =~= piece);
    lemma_decode_scalar(piece);
    assert(0xFFFDu32 as char == replacement());
}

/// Well-formed UTF-8 is decoded as it stands: nothing is replaced.
pub proof fn law_well_formed_is_kept(bytes: Seq<u8>)
    requires
        valid_utf8(bytes),
    ensures
        lossy_decode(bytes) == decode_utf8(bytes),
    decreases bytes.len(),
{
    if bytes.len() > 0 {
        law_well_formed_is_kept(pop_first_scalar(bytes));
    }
}

/// Encoded text decodes to itself.
pub proof fn law_round_trip(text: Seq<char>)
    ensures
        lossy_decode(encode_utf8(text)) == text,
{
    encode_utf8_valid_utf8(text);
    encode_utf8_decode_utf8(text);
    law_well_formed_is_kept(encode_utf8(text));
}

/// Decoding yields at least one character for every four bytes and at most one
/// for every byte, so nothing is dropped without a trace.
pub proof fn law_nothing_vanishes(bytes: Seq<u8>)
    ensures
        lossy_decode(bytes).len() <= bytes.len() <= 4 * lossy_decode(bytes).len(),
    decreases bytes.len(),
{
    if bytes.len() > 0 {
        if valid_first_scalar(bytes) {
            law_nothing_vanishes(pop_first_scalar(bytes));
        } else {
            law_nothing_vanishes(bytes.drop_first());
        }
    }
}

/// Decodes `bytes` into text. Every input decodes: a byte at which no
/// well-formed scalar begins is replaced, never refused.
pub fn decode(bytes: &[u8]) -> (text: String)
    ensures
        text@ == lossy_decode(bytes@),
{
    let mut out: Vec<u8> = Vec::new();
    let mut at: usize = 0;
    proof {
        assert(bytes@.skip(0) =~= bytes@);
        assert(decode_utf8(out@) + lossy_decode(bytes@) =~= lossy_decode(bytes@));
    }
    while at < bytes.len()
        invariant
            at <= bytes@.len(),
            valid_utf8(out@),
            decode_utf8(out@) + lossy_decode(bytes@.skip(at as int)) == lossy_decode(bytes@),
        decreases bytes@.len() - at,
    {
        let ghost before = out@;
        let ghost tail = bytes@.skip(at as int);
        let width = scalar_width(bytes, at);
        if width == 0 {
            out.push(0xEF);
            out.push(0xBF);
            out.push(0xBD);
            proof {
                let piece = seq![0xEFu8, 0xBFu8, 0xBDu8];
                assert(out@ =~= before + piece);
                lemma_decode_replacement();
                lemma_decode_concat(before, piece);
                assert(tail.drop_first() =~= bytes@.skip(at + 1));
                assert(decode_utf8(out@) + lossy_decode(bytes@.skip(at + 1)) =~= decode_utf8(
                    before,
                ) + lossy_decode(tail));
            }
            at = at + 1;
        } else {
            let end: usize = at + width;
            let mut next: usize = at;
            while next < end
                invariant
                    at <= next <= end <= bytes@.len(),
                    out@ == before + bytes@.subrange(at as int, next as int),
                decreases end - next,
            {
                out.push(bytes[next]);
                next = next + 1;
                proof {
                    assert(out@ =~= before + bytes@.subrange(at as int, next as int));
                }
            }
            proof {
                let piece = take_first_scalar(tail);
                assert(piece =~= bytes@.subrange(at as int, end as int));
                lemma_decode_scalar(tail);
                lemma_decode_concat(before, piece);
                assert(pop_first_scalar(tail) =~= bytes@.skip(end as int));
                assert(decode_utf8(out@) + lossy_decode(bytes@.skip(end as int)) =~= decode_utf8(
                    before,
                ) + lossy_decode(tail));
            }
            at = end;
        }
    }
    proof {
        assert(bytes@.skip(at as int) =~= Seq::<u8>::empty());
        assert(decode_utf8(out@) + lossy_decode(bytes@.skip(at as int)) =~= decode_utf8(out@));
    }
    match String::from_utf8(out) {
        Ok(text) => text,
        // never taken: `out` is well-formed
        Err(_) => String::new(),
    }
}

} // verus!
