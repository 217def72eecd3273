//! SCALE encoding of the values that the runtime API exchanges with the relay.

use vstd::prelude::*;

verus! {

/// Error of `parity_scale_codec` when decoding fails; it is only carried, never read.
#[verifier::external_type_specification]
#[verifier::external_body]
pub struct ExCodecError(parity_scale_codec::Error);

/// Number that the little-endian bytes `bytes` stand for.
pub open spec fn le_u64(bytes: Seq<u8>) -> int
    recommends
        bytes.len() == 8,
{
    bytes[0] + bytes[1] * 0x100 + bytes[2] * 0x1_0000 + bytes[3] * 0x100_0000 + bytes[4]
        * 0x1_0000_0000 + bytes[5] * 0x100_0000_0000 + bytes[6] * 0x1_0000_0000_0000 + bytes[7]
        * 0x100_0000_0000_0000
}

/// SCALE-decodes a number and a 32-byte hash from the front of `encoded`.
///
/// Calls `parity_scale_codec::Decode::decode` for `(u64, [u8; 32])`, which reads the number as
/// 8 little-endian bytes and then the 32 bytes of the hash, fails when fewer than 40 bytes
/// are there, and leaves any further byte unread.
#[verifier::external_body]
pub(crate) fn scale_decode_number_and_hash(encoded: &[u8]) -> (r: Result<
    (u64, [u8; 32]),
    parity_scale_codec::Error,
>)
    ensures
        r is Ok <==> encoded@.len() >= 40,
        r is Ok ==> r->Ok_0.0 == le_u64(encoded@.subrange(0, 8)),
        r is Ok ==> r->Ok_0.1@ == encoded@.subrange(8, 40),
{
    parity_scale_codec::Decode::decode(&mut &encoded[..])
}

/// SCALE-decodes a boolean from the front of `encoded`.
///
/// Calls `parity_scale_codec::Decode::decode` for `bool`, which reads one byte, 0 for false and
/// 1 for true, and fails on any other byte or when there is none.
#[verifier::external_body]
pub(crate) fn scale_decode_bool(encoded: &[u8]) -> (r: Result<bool, parity_scale_codec::Error>)
    ensures
        r is Ok <==> (encoded@.len() >= 1 && encoded@[0] <= 1),
        r is Ok ==> r->Ok_0 == (encoded@[0] == 1),
{
    parity_scale_codec::Decode::decode(&mut &encoded[..])
}

/// SCALE-decodes a 32-byte hash from the front of `encoded`.
///
/// Calls `parity_scale_codec::Decode::decode` for `[u8; 32]`, which reads 32 bytes and fails
/// when fewer are there.
#[verifier::external_body]
pub(crate) fn scale_decode_hash(encoded: &[u8]) -> (r: Result<[u8; 32], parity_scale_codec::Error>)
    ensures
        r is Ok <==> encoded@.len() >= 32,
        r is Ok ==> r->Ok_0@ == encoded@.subrange(0, 32),
{
    parity_scale_codec::Decode::decode(&mut &encoded[..])
}

/// SCALE-encodes a 32-byte hash.
///
/// Calls `parity_scale_codec::Encode::encode` for `[u8; 32]`, which writes the 32 bytes as
/// they are.
#[verifier::external_body]
pub(crate) fn scale_encode_hash(hash: &[u8; 32]) -> (r: Vec<u8>)
    ensures
        r@ == hash@,
{
    parity_scale_codec::Encode::encode(hash)
}

/// The `count` least significant bytes of `value`, least significant first.
pub open spec fn le_bytes(value: nat, count: nat) -> Seq<u8>
    decreases count,
{
    if count == 0 {
        Seq::empty()
    } else {
        seq![(value % 256) as u8] + le_bytes(value / 256, (count - 1) as nat)
    }
}

/// SCALE compact encoding of a length (at most `u32::MAX`): one byte below 2^6, two bytes
/// below 2^14 and four bytes below 2^30, the length shifted left by two with the mode in the
/// low bits; above that the byte 3 followed by the four bytes of the length.
pub open spec fn compact_length(length: nat) -> Seq<u8> {
    if length < 0x40 {
        le_bytes(length * 4, 1)
    } else if length < 0x4000 {
        le_bytes(length * 4 + 1, 2)
    } else if length < 0x4000_0000 {
        le_bytes(length * 4 + 2, 4)
    } else {
        seq![3u8] + le_bytes(length, 4)
    }
}

/// SCALE encoding of a byte string: its compact length, then its bytes.
pub open spec fn bytes_encoding(bytes: Seq<u8>) -> Seq<u8> {
    compact_length(bytes.len()) + bytes
}

/// SCALE encoding of four 64-bit limbs: each as 8 little-endian bytes, in order.
pub open spec fn limbs_encoding(limbs: [u64; 4]) -> Seq<u8> {
    le_bytes(limbs[0] as nat, 8) + le_bytes(limbs[1] as nat, 8) + le_bytes(limbs[2] as nat, 8)
        + le_bytes(limbs[3] as nat, 8)
}

/// SCALE-encodes a 64-bit number.
///
/// Calls `parity_scale_codec::Encode::encode` for `u64`, which writes its 8 little-endian
/// bytes.
#[verifier::external_body]
pub(crate) fn scale_encode_u64(value: u64) -> (r: Vec<u8>)
    ensures
        r@ == le_bytes(value as nat, 8),
{
    parity_scale_codec::Encode::encode(&value)
}

/// SCALE-encodes a length in compact form.
///
/// Calls `parity_scale_codec::Encode::encode` for `Compact<u32>`, which writes the encoding
/// that [`compact_length`] states.
#[verifier::external_body]
pub(crate) fn scale_encode_length(length: usize) -> (r: Vec<u8>)
    requires
        length <= u32::MAX,
    ensures
        r@ == compact_length(length as nat),
{
    parity_scale_codec::Encode::encode(&parity_scale_codec::Compact(length as u32))
}

/// SCALE-encodes a byte string.
///
/// Calls `parity_scale_codec::Encode::encode` for `[u8]`, which writes the compact length and
/// then the bytes as they are; it panics above `u32::MAX` bytes.
#[verifier::external_body]
pub(crate) fn scale_encode_bytes(bytes: &[u8]) -> (r: Vec<u8>)
    requires
        bytes@.len() <= u32::MAX,
    ensures
        r@ == bytes_encoding(bytes@),
{
    parity_scale_codec::Encode::encode(bytes)
}

/// SCALE-encodes a 20-byte address.
///
/// Calls `parity_scale_codec::Encode::encode` for `[u8; 20]`, which writes the bytes as they
/// are.
#[verifier::external_body]
pub(crate) fn scale_encode_address(address: &[u8; 20]) -> (r: Vec<u8>)
    ensures
        r@ == address@,
{
    parity_scale_codec::Encode::encode(address)
}

/// SCALE-encodes a 256-byte bloom filter.
///
/// Calls `parity_scale_codec::Encode::encode` for `[u8; 256]`, which writes the bytes as they
/// are.
#[verifier::external_body]
pub(crate) fn scale_encode_bloom(bloom: &[u8; 256]) -> (r: Vec<u8>)
    ensures
        r@ == bloom@,
{
    parity_scale_codec::Encode::encode(bloom)
}

/// SCALE-encodes four 64-bit limbs.
///
/// Calls `parity_scale_codec::Encode::encode` for `[u64; 4]`, which writes every limb as 8
/// little-endian bytes, in order.
#[verifier::external_body]
pub(crate) fn scale_encode_limbs(limbs: &[u64; 4]) -> (r: Vec<u8>)
    ensures
        r@ == limbs_encoding(*limbs),
{
    parity_scale_codec::Encode::encode(limbs)
}

} // verus!
