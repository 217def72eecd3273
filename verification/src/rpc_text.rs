//! Byte strings as the JSON-RPC of the nodes writes them: `0x` followed by hexadecimal digits.

use vstd::prelude::*;

verus! {

/// Number of bytes that UTF-8 takes for `c`.
pub open spec fn utf8_len(c: char) -> nat {
    if (c as u32) < 0x80 {
        1
    } else if (c as u32) < 0x800 {
        2
    } else if (c as u32) < 0x1_0000 {
        3
    } else {
        4
    }
}

/// The byte offset 2 of `text` falls between two characters, or `text` is shorter than that.
pub open spec fn prefix_is_cut_at_char(text: Seq<char>) -> bool {
    ||| text.len() == 0
    ||| utf8_len(text[0]) == 2
    ||| (utf8_len(text[0]) == 1 && (text.len() == 1 || utf8_len(text[1]) == 1))
}

/// White space that the hexadecimal decoder skips.
pub open spec fn is_hex_space(c: char) -> bool {
    c == ' ' || c == '\r' || c == '\n' || c == '\t'
}

/// Value of a hexadecimal digit, of either case.
pub open spec fn hex_digit(c: char) -> Option<u8> {
    if '0' <= c && c <= '9' {
        Some(((c as u32) - ('0' as u32)) as u8)
    } else if 'a' <= c && c <= 'f' {
        Some(((c as u32) - ('a' as u32) + 10) as u8)
    } else if 'A' <= c && c <= 'F' {
        Some(((c as u32) - ('A' as u32) + 10) as u8)
    } else {
        None
    }
}

/// Lower-case hexadecimal digit of a value below 16.
pub open spec fn lower_hex_digit(value: u8) -> char {
    if value < 10 {
        (('0' as u32) + value) as char
    } else {
        (('a' as u32) + value - 10) as char
    }
}

/// The bytes that `text` writes: `0x`, then an even number of hexadecimal digits, white
/// space between them skipped, every two digits one byte, the high half first. `None` when
/// `text` is not of that form.
pub open spec fn answer_bytes(text: Seq<char>) -> Option<Seq<u8>> {
    if text.len() >= 2 && text[0] == '0' && text[1] == 'x' {
        let digits = text.subrange(2, text.len() as int).filter(|c: char| !is_hex_space(c));
        if digits.len() % 2 == 0 && forall|i: int|
            0 <= i < digits.len() ==> (#[trigger] hex_digit(digits[i])) is Some {
            Some(
                Seq::new(
                    digits.len() / 2,
                    |i: int|
                        (hex_digit(digits[2 * i])->0 * 16 + hex_digit(digits[2 * i + 1])->0) as u8,
                ),
            )
        } else {
            None
        }
    } else {
        None
    }
}

/// `bytes` written as `0x` followed by two lower-case hexadecimal digits per byte, the high
/// half first.
pub open spec fn hex_text(bytes: Seq<u8>) -> Seq<char> {
    seq!['0', 'x'] + Seq::new(
        2 * bytes.len(),
        |i: int|
            if i % 2 == 0 {
                lower_hex_digit(bytes[i / 2] / 16)
            } else {
                lower_hex_digit(bytes[i / 2] % 16)
            },
    )
}

/// Decodes the bytes of an RPC answer.
///
/// Calls `serde_json::from_value` for `web3::types::Bytes` on the string `text`: web3 takes it
/// when it starts with `0x` and hands the rest to `rustc_hex::FromHex`, which skips space,
/// tab, carriage return and line feed, reads digits of either case two by two, and fails on
/// any other character or an odd number of digits. web3 slices the first two bytes of the
/// text, which panics when they end inside a character.
#[verifier::external_body]
pub(crate) fn decode_answer_bytes(text: &str) -> (r: Option<Vec<u8>>)
    requires
        prefix_is_cut_at_char(text@),
    ensures
        r is Some <==> answer_bytes(text@) is Some,
        r is Some ==> r->0@ == answer_bytes(text@)->0,
{
    serde_json::from_value::<web3::types::Bytes>(serde_json::Value::String(text.to_string())).ok().map(
        |bytes| bytes.0,
    )
}

/// Writes bytes for an RPC request.
///
/// Calls `serde_json::to_value` for `web3::types::Bytes`, which serializes as the string `0x`
/// followed by `rustc_hex::ToHex` of the bytes: two lower-case digits per byte, the high half
/// first. That serialization always gives a JSON string, so the other arm is never taken.
#[verifier::external_body]
pub(crate) fn encode_hex_text(bytes: &[u8]) -> (r: String)
    ensures
        r@ == hex_text(bytes@),
{
    match serde_json::to_value(web3::types::Bytes(bytes.to_vec())) {
        Ok(serde_json::Value::String(text)) => text,
        _ => String::new(),
    }
}

} // verus!
