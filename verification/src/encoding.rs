//! Hexadecimal text: what it means, and the calls that produce and read it.

use vstd::prelude::*;

verus! {

/// The value of a hexadecimal digit, in either case; `None` for any other character.
pub open spec fn hex_value(c: char) -> Option<int> {
    if c == '0' {
        Some(0)
    } else if c == '1' {
        Some(1)
    } else if c == '2' {
        Some(2)
    } else if c == '3' {
        Some(3)
    } else if c == '4' {
        Some(4)
    } else if c == '5' {
        Some(5)
    } else if c == '6' {
        Some(6)
    } else if c == '7' {
        Some(7)
    } else if c == '8' {
        Some(8)
    } else if c == '9' {
        Some(9)
    } else if c == 'a' || c == 'A' {
        Some(10)
    } else if c == 'b' || c == 'B' {
        Some(11)
    } else if c == 'c' || c == 'C' {
        Some(12)
    } else if c == 'd' || c == 'D' {
        Some(13)
    } else if c == 'e' || c == 'E' {
        Some(14)
    } else if c == 'f' || c == 'F' {
        Some(15)
    } else {
        None
    }
}

/// The lowercase digit that stands for `n`, for `0 <= n < 16`.
pub open spec fn hex_digit(n: int) -> char {
    if n == 0 {
        '0'
    } else if n == 1 {
        '1'
    } else if n == 2 {
        '2'
    } else if n == 3 {
        '3'
    } else if n == 4 {
        '4'
    } else if n == 5 {
        '5'
    } else if n == 6 {
        '6'
    } else if n == 7 {
        '7'
    } else if n == 8 {
        '8'
    } else if n == 9 {
        '9'
    } else if n == 10 {
        'a'
    } else if n == 11 {
        'b'
    } else if n == 12 {
        'c'
    } else if n == 13 {
        'd'
    } else if n == 14 {
        'e'
    } else {
        'f'
    }
}

/// One of `0..9` and `a..f`.
pub open spec fn is_lower_hex_digit(c: char) -> bool {
    exists|n: int| 0 <= n < 16 && c == #[trigger] hex_digit(n)
}

/// Text that decodes: an even number of hexadecimal digits.
pub open spec fn is_hex(text: Seq<char>) -> bool {
    &&& text.len() % 2 == 0
    &&& forall|i: int| 0 <= i < text.len() ==> (#[trigger] hex_value(text[i])) is Some
}

/// Text made of lowercase hexadecimal digits only.
pub open spec fn is_lower_hex(text: Seq<char>) -> bool {
    forall|i: int| 0 <= i < text.len() ==> is_lower_hex_digit(#[trigger] text[i])
}

/// The bytes that hexadecimal text stands for, two digits to the byte, high digit first.
pub open spec fn hex_decoded(text: Seq<char>) -> Seq<u8> {
    Seq::new(
        text.len() / 2,
        |i: int| (hex_value(text[2 * i]).unwrap() * 16 + hex_value(text[2 * i + 1]).unwrap()) as u8,
    )
}

/// The lowercase hexadecimal text of `bytes`, two digits to the byte, high digit first.
pub open spec fn hex_encoded(bytes: Seq<u8>) -> Seq<char> {
    Seq::new(
        2 * bytes.len(),
        |i: int|
            if i % 2 == 0 {
                hex_digit(bytes[i / 2] as int / 16)
            } else {
                hex_digit(bytes[i / 2] as int % 16)
            },
    )
}

/// Encoded text is twice as long as the bytes and holds lowercase digits only,
/// so it decodes.
pub proof fn lemma_encoded_is_hex(bytes: Seq<u8>)
    ensures
        hex_encoded(bytes).len() == 2 * bytes.len(),
        is_lower_hex(hex_encoded(bytes)),
        is_hex(hex_encoded(bytes)),
{
    let text = hex_encoded(bytes);
    assert forall|i: int| 0 <= i < text.len() implies is_lower_hex_digit(#[trigger] text[i]) by {
        let b = bytes[i / 2] as int;
        if i % 2 == 0 {
            assert(text[i] == hex_digit(b / 16));
        } else {
            assert(text[i] == hex_digit(b % 16));
        }
    }
    assert forall|i: int| 0 <= i < text.len() implies (#[trigger] hex_value(text[i])) is Some by {
        let b = bytes[i / 2] as int;
        if i % 2 == 0 {
            lemma_digit_value(b / 16);
        } else {
            lemma_digit_value(b % 16);
        }
    }
}

/// A digit stands for the number it was made from.
pub proof fn lemma_digit_value(n: int)
    requires
        0 <= n < 16,
    ensures
        hex_value(hex_digit(n)) == Some(n),
{
}

/// Decoding undoes encoding.
pub proof fn lemma_decode_encoded(bytes: Seq<u8>)
    ensures
        hex_decoded(hex_encoded(bytes)) == bytes,
{
    let text = hex_encoded(bytes);
    let back = hex_decoded(text);
    assert(back.len() == bytes.len());
    assert forall|i: int| 0 <= i < bytes.len() implies back[i] == bytes[i] by {
        let b = bytes[i] as int;
        assert(text[2 * i] == hex_digit(b / 16));
        assert(text[2 * i + 1] == hex_digit(b % 16));
        lemma_digit_value(b / 16);
        lemma_digit_value(b % 16);
    }
    assert(back =~= bytes);
}

/// `hex::FromHexError`, the reason why text did not decode. Nothing is read
/// from it.
#[verifier::external_type_specification]
#[verifier::external_body]
pub struct ExFromHexError(::hex::FromHexError);

/// `hex::decode` on a string slice. It succeeds exactly on an even number of
/// hexadecimal digits of either case, and then gives one byte for each pair,
/// the first digit of a pair being the high half.
#[verifier::external_body]
pub(crate) fn hex_decode(text: &str) -> (r: Result<Vec<u8>, ::hex::FromHexError>)
    ensures
        r is Ok <==> is_hex(text@),
        r matches Ok(bytes) ==> bytes@ == hex_decoded(text@),
{
    ::hex::decode(text)
}

/// `hex::encode` on a byte slice. It gives two lowercase digits for each byte,
/// the high half first.
#[verifier::external_body]
fn hex_encode(bytes: &[u8]) -> (r: String)
    ensures
        r@ == hex_encoded(bytes@),
{
    ::hex::encode(bytes)
}

/// Writes bytes as lowercase hexadecimal text, which decodes to the same
/// bytes again.
pub fn hex_text(bytes: &[u8]) -> (text: String)
    ensures
        text@ == hex_encoded(bytes@),
        text@.len() == 2 * bytes@.len(),
        is_lower_hex(text@),
        is_hex(text@),
        hex_decoded(text@) == bytes@,
{
    proof {
        lemma_encoded_is_hex(bytes@);
        lemma_decode_encoded(bytes@);
    }
    hex_encode(bytes)
}

} // verus!
