//! Borsh encoding of the unsigned 64-bit integers that instruction
//! arguments and account states are made of.

use vstd::prelude::*;

verus! {

/// The value of eight bytes read as a little-endian unsigned integer.
pub open spec fn u64_from_le(b: Seq<u8>) -> u64
    recommends
        b.len() == 8,
{
    (b[0] as u64) | ((b[1] as u64) << 8u64) | ((b[2] as u64) << 16u64) | ((b[3] as u64) << 24u64)
        | ((b[4] as u64) << 32u64) | ((b[5] as u64) << 40u64) | ((b[6] as u64) << 48u64)
        | ((b[7] as u64) << 56u64)
}

/// The eight little-endian bytes of `v`.
pub open spec fn u64_le_bytes(v: u64) -> Seq<u8> {
    seq![
        (v & 0xffu64) as u8,
        ((v >> 8u64) & 0xffu64) as u8,
        ((v >> 16u64) & 0xffu64) as u8,
        ((v >> 24u64) & 0xffu64) as u8,
        ((v >> 32u64) & 0xffu64) as u8,
        ((v >> 40u64) & 0xffu64) as u8,
        ((v >> 48u64) & 0xffu64) as u8,
        ((v >> 56u64) & 0xffu64) as u8,
    ]
}

/// What reading a `u64` from the whole of `data` in Borsh gives: the
/// little-endian value of exactly eight bytes, or the message of the error
/// for input that is too short or has bytes left over.
pub open spec fn borsh_u64(data: Seq<u8>) -> Result<u64, Seq<char>> {
    if data.len() == 8 {
        Ok(u64_from_le(data))
    } else if data.len() < 8 {
        Err("Unexpected length of input"@)
    } else {
        Err("Not all bytes read"@)
    }
}

/// Reads a `u64` from the whole of `data` with
/// `<u64 as borsh::BorshDeserialize>::try_from_slice`, and renders an error
/// as its message. Claimed of the call: eight bytes give their
/// little-endian value; fewer fail with "Unexpected length of input"; more
/// fail with "Not all bytes read".
#[verifier::external_body]
pub(crate) fn borsh_u64_from_slice(data: &[u8]) -> (r: Result<u64, String>)
    ensures
        match r {
            Ok(v) => borsh_u64(data@) == Ok::<u64, Seq<char>>(v),
            Err(m) => borsh_u64(data@) == Err::<u64, Seq<char>>(m@),
        },
{
    match <u64 as borsh::BorshDeserialize>::try_from_slice(data) {
        Ok(v) => Ok(v),
        Err(e) => Err(e.to_string()),
    }
}

/// Writes `v` in Borsh with `borsh::to_vec`. Claimed of the call: it
/// succeeds and gives the eight little-endian bytes of `v`.
#[verifier::external_body]
pub(crate) fn borsh_u64_to_vec(v: u64) -> (bytes: Vec<u8>)
    ensures
        bytes@ == u64_le_bytes(v),
{
    borsh::to_vec(&v).unwrap()
}

/// Reading back the bytes of a value gives the value.
pub proof fn lemma_u64_value_roundtrip(v: u64)
    ensures
        u64_le_bytes(v).len() == 8,
        u64_from_le(u64_le_bytes(v)) == v,
{
    assert(v == (((v & 0xffu64) as u8) as u64) | (((((v >> 8u64) & 0xffu64) as u8) as u64) << 8u64)
        | (((((v >> 16u64) & 0xffu64) as u8) as u64) << 16u64) | (((((v >> 24u64) & 0xffu64) as u8) as u64) << 24u64)
        | (((((v >> 32u64) & 0xffu64) as u8) as u64) << 32u64) | (((((v >> 40u64) & 0xffu64) as u8) as u64) << 40u64)
        | (((((v >> 48u64) & 0xffu64) as u8) as u64) << 48u64) | (((((v >> 56u64) & 0xffu64) as u8) as u64) << 56u64))
        by (bit_vector);
}

/// Writing the value of eight bytes gives back the same bytes.
pub proof fn lemma_u64_bytes_roundtrip(b: Seq<u8>)
    requires
        b.len() == 8,
    ensures
        u64_le_bytes(u64_from_le(b)) == b,
{
    let (b0, b1, b2, b3, b4, b5, b6, b7) = (b[0], b[1], b[2], b[3], b[4], b[5], b[6], b[7]);
    let x = u64_from_le(b);
    assert(x == (b0 as u64) | ((b1 as u64) << 8u64) | ((b2 as u64) << 16u64) | ((b3 as u64) << 24u64)
        | ((b4 as u64) << 32u64) | ((b5 as u64) << 40u64) | ((b6 as u64) << 48u64)
        | ((b7 as u64) << 56u64));
    assert(
        (x & 0xffu64) as u8 == b0 && ((x >> 8u64) & 0xffu64) as u8 == b1
        && ((x >> 16u64) & 0xffu64) as u8 == b2 && ((x >> 24u64) & 0xffu64) as u8 == b3
        && ((x >> 32u64) & 0xffu64) as u8 == b4 && ((x >> 40u64) & 0xffu64) as u8 == b5
        && ((x >> 48u64) & 0xffu64) as u8 == b6 && ((x >> 56u64) & 0xffu64) as u8 == b7
    ) by (bit_vector)
        requires
            x == (b0 as u64) | ((b1 as u64) << 8u64) | ((b2 as u64) << 16u64) | ((b3 as u64) << 24u64)
                | ((b4 as u64) << 32u64) | ((b5 as u64) << 40u64) | ((b6 as u64) << 48u64)
                | ((b7 as u64) << 56u64);
    assert(u64_le_bytes(x) =~= b);
}

/// Decoding the Borsh bytes of a value gives the value back.
pub proof fn lemma_borsh_u64_roundtrip(v: u64)
    ensures
        borsh_u64(u64_le_bytes(v)) == Ok::<u64, Seq<char>>(v),
{
    lemma_u64_value_roundtrip(v);
}

/// Borsh decoding accepts only the canonical bytes of a value: bytes that
/// decode are the encoding of what they decode to.
pub proof fn lemma_borsh_u64_canonical(b: Seq<u8>)
    requires
        borsh_u64(b) is Ok,
    ensures
        u64_le_bytes(borsh_u64(b)->Ok_0) == b,
{
    lemma_u64_bytes_roundtrip(b);
}

} // verus!
