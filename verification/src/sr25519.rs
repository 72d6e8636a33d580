//! Verification of sr25519 signatures.
use vstd::prelude::*;
use crate::types::{AccountId, Signature};

verus! {

/// Whether `signature` is a valid sr25519 signature of `message` by the
/// public key `signer` (all three taken as bytes).
pub uninterp spec fn sr25519_verifies(signature: Seq<u8>, message: Seq<u8>, signer: Seq<u8>) -> bool;

/// `<sp_core::sr25519::Signature as sp_runtime::traits::Verify>::verify`:
/// its answer is a function of the signature's bytes, the message and the
/// signer's bytes alone, named `sr25519_verifies`; what that function is
/// (schnorrkel's verification) is not stated.
#[verifier::external_body]
pub(crate) fn verify_signature(signature: &Signature, message: &[u8], signer: &AccountId) -> (r: bool)
    ensures
        r == sr25519_verifies(signature.0@, message@, signer.0@),
{
    <sp_core::sr25519::Signature as sp_runtime::traits::Verify>::verify(
        &sp_core::sr25519::Signature::from_raw(signature.0),
        message,
        &sp_core::sr25519::Public::from_raw(signer.0),
    )
}

} // verus!
