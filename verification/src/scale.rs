//! SCALE encodings of the values that a state proof signs.
use vstd::prelude::*;
use crate::types::AccountId;

verus! {

/// The little-endian bytes of a `u32`, lowest byte first.
pub open spec fn le_bytes_u32(x: u32) -> Seq<u8> {
    seq![
        (x % 256) as u8,
        ((x / 256) % 256) as u8,
        ((x / 65536) % 256) as u8,
        ((x / 16777216) % 256) as u8,
    ]
}

/// `parity_scale_codec::Encode::encode` on a `u32`: its four
/// little-endian bytes (the codec writes `to_le_bytes`).
#[verifier::external_body]
pub(crate) fn encode_u32(x: u32) -> (r: Vec<u8>)
    ensures
        r@ == le_bytes_u32(x),
{
    parity_scale_codec::Encode::encode(&x)
}

/// `parity_scale_codec::Encode::encode` on a `u8`: the byte itself.
#[verifier::external_body]
pub(crate) fn encode_u8(x: u8) -> (r: Vec<u8>)
    ensures
        r@ == seq![x],
{
    parity_scale_codec::Encode::encode(&x)
}

/// `parity_scale_codec::Encode::encode` on an `sp_core::crypto::AccountId32`
/// holding the account's bytes: a fixed-size byte array is written as its
/// 32 bytes, with no length prefix.
#[verifier::external_body]
pub(crate) fn encode_account(a: &AccountId) -> (r: Vec<u8>)
    ensures
        r@ == a.0@,
{
    parity_scale_codec::Encode::encode(&sp_core::crypto::AccountId32::new(a.0))
}

} // verus!
