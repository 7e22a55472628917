//! Payload codec: text to bytes and back.
//!
//! Hexadecimal text is decoded by the `hex` crate after ASCII spaces have been
//! taken out of its UTF-8 bytes; literal text is its own UTF-8 bytes.

use crate::types::PayloadType;
use vstd::prelude::*;
use vstd::utf8::*;

verus! {

/// Why a payload's text could not be turned into bytes.
#[derive(Clone, Copy, PartialEq, Eq, Debug, Structural)]
pub enum DecodeError {
    /// The text, spaces aside, has odd length or holds a character that is no
    /// hexadecimal digit.
    InvalidHex,
}

/// The value of the hexadecimal digit written as the ASCII byte `b`, in either case.
pub open spec fn hex_digit_value(b: u8) -> Option<u8> {
    if 0x30 <= b <= 0x39 {
        Some((b - 0x30) as u8)
    } else if 0x61 <= b <= 0x66 {
        Some((b - 0x61 + 10) as u8)
    } else if 0x41 <= b <= 0x46 {
        Some((b - 0x41 + 10) as u8)
    } else {
        None
    }
}

/// Whether `text` is an even number of hexadecimal digits.
pub open spec fn is_hex_text(text: Seq<u8>) -> bool {
    &&& text.len() % 2 == 0
    &&& forall|i: int| 0 <= i < text.len() ==> (#[trigger] hex_digit_value(text[i])) is Some
}

/// The byte that the two digits `hi` and `lo` stand for.
pub open spec fn hex_pair_value(hi: u8, lo: u8) -> u8 {
    (16 * hex_digit_value(hi).unwrap() + hex_digit_value(lo).unwrap()) as u8
}

/// The bytes that the digits of `text` stand for, two digits to a byte.
pub open spec fn hex_bytes(text: Seq<u8>) -> Seq<u8> {
    Seq::new(text.len() / 2, |i: int| hex_pair_value(text[2 * i], text[2 * i + 1]))
}

/// The lower-case hexadecimal digit for `n`, which is below 16.
pub open spec fn hex_digit(n: int) -> char {
    if n < 10 {
        (0x30 + n) as char
    } else {
        (0x61 + n - 10) as char
    }
}

/// The lower-case hexadecimal text of `bytes`: two digits to a byte, high digit first.
pub open spec fn hex_text(bytes: Seq<u8>) -> Seq<char> {
    Seq::new(
        2 * bytes.len(),
        |i: int|
            if i % 2 == 0 {
                hex_digit(bytes[i / 2] as int / 16)
            } else {
                hex_digit(bytes[i / 2] as int % 16)
            },
    )
}

/// `bytes` with every ASCII space taken out.
pub open spec fn without_spaces(bytes: Seq<u8>) -> Seq<u8> {
    bytes.filter(|b: u8| b != 0x20u8)
}

/// The bytes of hexadecimal `text`, if it is an even number of digits.
pub open spec fn decode_hex(text: Seq<u8>) -> Option<Seq<u8>> {
    if is_hex_text(text) {
        Some(hex_bytes(text))
    } else {
        None
    }
}

/// The bytes that `text` stands for when read as `kind`; `None` where
/// hexadecimal text is malformed.
pub open spec fn decode_text(text: Seq<char>, kind: PayloadType) -> Option<Seq<u8>> {
    match kind {
        PayloadType::Hex => decode_hex(without_spaces(encode_utf8(text))),
        PayloadType::Ascii => Some(encode_utf8(text)),
    }
}

/// The text that `String::from_utf8_lossy` makes of `bytes`.
pub uninterp spec fn utf8_lossy_text(bytes: Seq<u8>) -> Seq<char>;

/// How `bytes` are shown as `kind`.
pub open spec fn encode_bytes(bytes: Seq<u8>, kind: PayloadType) -> Seq<char> {
    match kind {
        PayloadType::Hex => hex_text(bytes),
        PayloadType::Ascii => utf8_lossy_text(bytes),
    }
}

/// The error of `hex::decode`. Nothing is read from it: whatever it says, the
/// payload is reported as [`DecodeError::InvalidHex`].
#[verifier::external_type_specification]
#[verifier::external_body]
pub struct ExFromHexError(hex::FromHexError);

/// `hex::decode` on raw bytes. It succeeds exactly on an even number of
/// hexadecimal digits of either case, and then yields one byte for each pair,
/// the first digit of a pair being the high half.
#[verifier::external_body]
fn hex_decode(text: &[u8]) -> (r: Result<Vec<u8>, hex::FromHexError>)
    ensures
        r is Ok <==> is_hex_text(text@),
        r matches Ok(bytes) ==> bytes@ == hex_bytes(text@),
{
    hex::decode(text)
}

/// `hex::encode`: two lower-case digits for each byte, high half first.
#[verifier::external_body]
fn hex_encode(bytes: &[u8]) -> (r: String)
    ensures
        r@ == hex_text(bytes@),
{
    hex::encode(bytes)
}

/// `String::from_utf8_lossy`, copied into an owned string. Valid UTF-8 comes
/// back as the text it encodes; what becomes of anything else is left to
/// [`utf8_lossy_text`].
#[verifier::external_body]
fn utf8_lossy(bytes: &[u8]) -> (r: String)
    ensures
        r@ == utf8_lossy_text(bytes@),
        valid_utf8(bytes@) ==> r@ == decode_utf8(bytes@),
{
    String::from_utf8_lossy(bytes).into_owned()
}

/// Copies `bytes` without its ASCII spaces.
pub fn strip_spaces(bytes: &[u8]) -> (r: Vec<u8>)
    ensures
        r@ == without_spaces(bytes@),
{
    let mut out: Vec<u8> = Vec::new();
    let mut i: usize = 0;
    while i < bytes.len()
        invariant
            i <= bytes.len(),
            out@ == without_spaces(bytes@.take(i as int)),
        decreases bytes.len() - i,
    {
        proof {
            let next = bytes@.take(i as int + 1);
            assert(next.drop_last() =~= bytes@.take(i as int));
            assert(next.last() == bytes@[i as int]);
            reveal(Seq::filter);
        }
        if bytes[i] != 0x20u8 {
            out.push(bytes[i]);
        }
        i += 1;
    }
    proof {
        assert(bytes@.take(bytes@.len() as int) =~= bytes@);
    }
    out
}

/// Turns the text of a payload into bytes.
///
/// Literal text always decodes, to its UTF-8 bytes. Hexadecimal text decodes
/// when, spaces aside, it is an even number of hexadecimal digits.
pub fn decode(text: &str, kind: PayloadType) -> (r: Result<Vec<u8>, DecodeError>)
    ensures
        r is Ok <==> decode_text(text@, kind) is Some,
        r matches Ok(bytes) ==> Some(bytes@) == decode_text(text@, kind),
        r matches Err(e) ==> e == DecodeError::InvalidHex,
        kind == PayloadType::Ascii ==> (r matches Ok(bytes) && bytes@ == encode_utf8(text@)),
{
    match kind {
        PayloadType::Hex => {
            let digits = strip_spaces(text.as_bytes());
            match hex_decode(digits.as_slice()) {
                Ok(bytes) => Ok(bytes),
                Err(_) => Err(DecodeError::InvalidHex),
            }
        },
        PayloadType::Ascii => Ok(text.as_bytes_vec()),
    }
}

/// Renders bytes for a log line: lower-case hexadecimal, or the text they
/// encode with whatever is not UTF-8 replaced.
pub fn encode(bytes: &[u8], kind: PayloadType) -> (r: String)
    ensures
        r@ == encode_bytes(bytes@, kind),
        kind == PayloadType::Ascii && valid_utf8(bytes@) ==> r@ == decode_utf8(bytes@),
{
    match kind {
        PayloadType::Hex => hex_encode(bytes),
        PayloadType::Ascii => utf8_lossy(bytes),
    }
}

/// Literal text always decodes, to its UTF-8 bytes; the empty text decodes to
/// no bytes.
pub proof fn lemma_ascii_always_decodes(text: Seq<char>)
    ensures
        decode_text(text, PayloadType::Ascii) == Some(encode_utf8(text)),
        text.len() == 0 ==> decode_text(text, PayloadType::Ascii) == Some(Seq::<u8>::empty()),
{
}

/// Hexadecimal text is turned down exactly if, spaces aside, its length is odd
/// or one of its characters is no hexadecimal digit.
pub proof fn lemma_hex_is_turned_down(text: Seq<char>)
    ensures
        ({
            let digits = without_spaces(encode_utf8(text));
            decode_text(text, PayloadType::Hex) is None <==> digits.len() % 2 == 1 || exists|
                i: int,
            |
                0 <= i < digits.len() && (#[trigger] hex_digit_value(digits[i])) is None
        }),
{
}

/// Bytes that hold no ASCII space lose nothing when spaces are taken out.
pub proof fn lemma_without_spaces_of_spaceless(bytes: Seq<u8>)
    requires
        forall|i: int| 0 <= i < bytes.len() ==> bytes[i] != 0x20u8,
    ensures
        without_spaces(bytes) == bytes,
    decreases bytes.len(),
{
    reveal(Seq::filter);
    if bytes.len() > 0 {
        lemma_without_spaces_of_spaceless(bytes.drop_last());
        assert(bytes.drop_last().push(bytes.last()) =~= bytes);
    }
}

/// The UTF-8 bytes of hexadecimal text made by [`hex_text`] are its digits,
/// one byte each.
pub proof fn lemma_hex_text_bytes(bytes: Seq<u8>)
    ensures
        is_ascii_chars(hex_text(bytes)),
        encode_utf8(hex_text(bytes)).len() == 2 * bytes.len(),
        forall|i: int|
            0 <= i < 2 * bytes.len() ==> #[trigger] encode_utf8(hex_text(bytes))[i] == hex_text(
                bytes,
            )[i] as u8,
{
    let text = hex_text(bytes);
    assert forall|i: int| 0 <= i < text.len() implies '\0' <= #[trigger] text[i] <= '\u{7f}' by {
        let b = bytes[i / 2] as int;
        assert(0 <= b / 16 < 16 && 0 <= b % 16 < 16);
    }
    is_ascii_chars_encode_utf8(text);
}

/// Round trip of the hexadecimal codec: the text that stands for any bytes
/// decodes to those bytes.
pub proof fn lemma_hex_round_trip(bytes: Seq<u8>)
    ensures
        decode_text(hex_text(bytes), PayloadType::Hex) == Some(bytes),
{
    let text = hex_text(bytes);
    let raw = encode_utf8(text);
    lemma_hex_text_bytes(bytes);
    assert forall|i: int| 0 <= i < raw.len() implies raw[i] != 0x20u8 && (
    #[trigger] hex_digit_value(raw[i])) is Some by {
        let b = bytes[i / 2] as int;
        assert(0 <= b / 16 < 16 && 0 <= b % 16 < 16);
        assert(raw[i] == text[i] as u8);
    }
    lemma_without_spaces_of_spaceless(raw);
    assert(is_hex_text(raw));
    assert forall|k: int| 0 <= k < bytes.len() implies hex_bytes(raw)[k] == bytes[k] by {
        let b = bytes[k] as int;
        assert(0 <= b / 16 < 16 && 0 <= b % 16 < 16);
        assert((2 * k) / 2 == k && (2 * k + 1) / 2 == k);
        assert((2 * k) % 2 == 0 && (2 * k + 1) % 2 == 1);
        assert(raw[2 * k] == text[2 * k] as u8);
        assert(raw[2 * k + 1] == text[2 * k + 1] as u8);
        assert(16 * (b / 16) + b % 16 == b);
    }
    assert(hex_bytes(raw) =~= bytes);
}

} // verus!
