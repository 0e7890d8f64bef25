//! Hexadecimal text for byte strings, computed by the `hex` crate.

use vstd::prelude::*;
use vstd::string::StringSliceAdditionalSpecFns;
use vstd::utf8::{encode_utf8, is_ascii_chars, is_ascii_chars_encode_utf8};

verus! {

/// Why a text is not the hexadecimal form of a byte string.
#[derive(Debug, Clone, Copy, PartialEq, Eq)]
pub enum HexFault {
    /// The byte at `index` of the text is no hexadecimal digit; `c` is that byte as a character.
    InvalidCharacter { c: char, index: usize },
    /// The text has an odd number of bytes.
    OddLength,
    /// The text does not have the length of the container that it is decoded into.
    InvalidLength,
}

/// Whether a byte is one of `0..=9`, `a..=f` or `A..=F`.
pub open spec fn is_hex_digit(b: u8) -> bool {
    (0x30 <= b && b <= 0x39) || (0x41 <= b && b <= 0x46) || (0x61 <= b && b <= 0x66)
}

/// The value of a hexadecimal digit; zero for any other byte.
pub open spec fn nibble(b: u8) -> nat {
    if 0x30 <= b && b <= 0x39 {
        (b - 0x30) as nat
    } else if 0x41 <= b && b <= 0x46 {
        (b - 0x41 + 10) as nat
    } else if 0x61 <= b && b <= 0x66 {
        (b - 0x61 + 10) as nat
    } else {
        0
    }
}

/// The index of the first byte that is no hexadecimal digit, or the length where every byte is one.
pub open spec fn first_invalid(text: Seq<u8>) -> int
    decreases text.len(),
{
    if text.len() == 0 || !is_hex_digit(text[0]) {
        0
    } else {
        1 + first_invalid(text.drop_first())
    }
}

/// The bytes that a text of hexadecimal digits writes, two digits to the byte.
pub open spec fn hex_bytes(text: Seq<u8>) -> Seq<u8> {
    Seq::new(text.len() / 2, |i: int| (nibble(text[2 * i]) * 16 + nibble(text[2 * i + 1])) as u8)
}

/// What decoding a text gives: its bytes, or the first fault met. An odd length is
/// reported before any invalid digit, and the earliest invalid digit before a later one.
pub open spec fn hex_decoded(text: Seq<u8>) -> Result<Seq<u8>, HexFault> {
    if text.len() % 2 != 0 {
        Err(HexFault::OddLength)
    } else if first_invalid(text) < text.len() {
        Err(
            HexFault::InvalidCharacter {
                c: text[first_invalid(text)] as char,
                index: first_invalid(text) as usize,
            },
        )
    } else {
        Ok(hex_bytes(text))
    }
}

/// The lower-case hexadecimal digit of a value below sixteen.
pub open spec fn hex_digit(n: nat) -> char
    recommends
        n < 16,
{
    if n < 10 {
        ((0x30 + n) as u8) as char
    } else {
        ((0x61 + n - 10) as u8) as char
    }
}

/// The lower-case hexadecimal text of a byte string, two digits to the byte, high digit first.
pub open spec fn hex_text(bytes: Seq<u8>) -> Seq<char> {
    Seq::new(
        2 * bytes.len(),
        |i: int|
            if i % 2 == 0 {
                hex_digit((bytes[i / 2] / 16) as nat)
            } else {
                hex_digit((bytes[i / 2] % 16) as nat)
            },
    )
}

/// The message that the `hex` crate gives for a fault.
pub uninterp spec fn hex_fault_text(fault: HexFault) -> Seq<char>;

/// `hex::decode` on the UTF-8 bytes of `data`. It refuses an odd number of bytes
/// first; then it reads the bytes in order, two to the byte, and stops at the
/// first that is no hexadecimal digit, which it reports with its index.
#[verifier::external_body]
pub(crate) fn hex_decode(data: &str) -> (r: Result<Vec<u8>, HexFault>)
    ensures
        match hex_decoded(data.spec_bytes()) {
            Ok(bytes) => r matches Ok(v) && v@ == bytes,
            Err(fault) => r matches Err(e) && e == fault,
        },
{
    match hex::decode(data) {
        Ok(bytes) => Ok(bytes),
        Err(hex::FromHexError::InvalidHexCharacter { c, index }) => {
            Err(HexFault::InvalidCharacter { c, index })
        },
        Err(hex::FromHexError::OddLength) => Err(HexFault::OddLength),
        Err(hex::FromHexError::InvalidStringLength) => Err(HexFault::InvalidLength),
    }
}

/// The `Display` text of `hex::FromHexError`. It is a function of the fault
/// alone; for an odd length it is a fixed sentence.
#[verifier::external_body]
pub(crate) fn hex_fault_message(fault: HexFault) -> (r: String)
    ensures
        r@ == hex_fault_text(fault),
        fault is OddLength ==> r@ == "Odd number of digits"@,
{
    let outside = match fault {
        HexFault::InvalidCharacter { c, index } => hex::FromHexError::InvalidHexCharacter { c, index },
        HexFault::OddLength => hex::FromHexError::OddLength,
        HexFault::InvalidLength => hex::FromHexError::InvalidStringLength,
    };
    outside.to_string()
}

/// `hex::encode`: each byte becomes two lower-case hexadecimal digits, high digit first.
#[verifier::external_body]
pub(crate) fn hex_encode(bytes: &[u8]) -> (r: String)
    ensures
        r@ == hex_text(bytes@),
{
    hex::encode(bytes)
}

/// The hexadecimal text of a digest, as it is shown and as it keys a space lookup.
pub fn digest_hex(digest: &[u8]) -> (r: String)
    ensures
        r@ == hex_text(digest@),
        r@.len() == 2 * digest@.len(),
        forall|i: int| 0 <= i < r@.len() ==> is_hex_digit(#[trigger] r@[i] as u8),
{
    let text = hex_encode(digest);
    proof {
        lemma_hex_text_digits(digest@);
    }
    text
}

/// Where every byte of a text is a hexadecimal digit, no byte is the first invalid one.
pub proof fn lemma_all_valid(text: Seq<u8>)
    requires
        forall|i: int| 0 <= i < text.len() ==> is_hex_digit(#[trigger] text[i]),
    ensures
        first_invalid(text) == text.len(),
    decreases text.len(),
{
    if text.len() > 0 {
        let rest = text.drop_first();
        assert forall|i: int| 0 <= i < rest.len() implies is_hex_digit(#[trigger] rest[i]) by {
            assert(rest[i] == text[i + 1]);
        }
        lemma_all_valid(rest);
    }
}

/// Decoding undoes encoding: the hexadecimal text of a byte string, read as
/// the bytes of its UTF-8 form, decodes to that byte string.
pub proof fn law_decode_undoes_encode(bytes: Seq<u8>)
    ensures
        hex_decoded(encode_utf8(hex_text(bytes))) == Ok::<Seq<u8>, HexFault>(bytes),
{
    let text = hex_text(bytes);
    lemma_hex_text_digits(bytes);
    assert(is_ascii_chars(text));
    is_ascii_chars_encode_utf8(text);
    let raw = encode_utf8(text);
    assert forall|i: int| 0 <= i < raw.len() implies is_hex_digit(#[trigger] raw[i]) by {
        assert(raw[i] == text[i] as u8);
    }
    lemma_all_valid(raw);
    assert forall|k: int| 0 <= k < bytes.len() implies #[trigger] hex_bytes(raw)[k] == bytes[k] by {
        let b = bytes[k];
        assert(raw[2 * k] == text[2 * k] as u8);
        assert(raw[2 * k + 1] == text[2 * k + 1] as u8);
        assert(text[2 * k] == hex_digit((b / 16) as nat));
        assert(text[2 * k + 1] == hex_digit((b % 16) as nat));
        assert(nibble(raw[2 * k]) == b / 16);
        assert(nibble(raw[2 * k + 1]) == b % 16);
    }
    assert(hex_bytes(raw) =~= bytes);
}

/// Every character of a hexadecimal text is a hexadecimal digit.
pub proof fn lemma_hex_text_digits(bytes: Seq<u8>)
    ensures
        forall|i: int| 0 <= i < hex_text(bytes).len() ==> is_hex_digit(#[trigger] hex_text(bytes)[i] as u8),
{
    assert forall|i: int| 0 <= i < hex_text(bytes).len() implies is_hex_digit(
        #[trigger] hex_text(bytes)[i] as u8,
    ) by {
        let b = bytes[i / 2];
        assert(b / 16 < 16 && b % 16 < 16);
    }
}

} // verus!
