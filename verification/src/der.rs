//! Reading a DER-encoded ECDSA signature, which is left to the `p256` crate.

use vstd::prelude::*;

verus! {

/// The error of `p256`'s signature functions. It carries no detail.
#[verifier::external_type_specification]
#[verifier::external_body]
pub struct ExSignatureError(p256::ecdsa::Error);

/// Length in bytes of a P-256 scalar as `p256` writes it.
pub const SCALAR_LENGTH: usize = 32;

/// What `p256::ecdsa::Signature::from_der` makes of `der`: the big-endian
/// bytes of the scalars `r` and `s` where it accepts the input as an
/// `ECDSA-Sig-Value` with both integers in the range of the curve's order,
/// `None` where it rejects it.
pub uninterp spec fn der_scalars(der: Seq<u8>) -> Option<(Seq<u8>, Seq<u8>)>;

/// Calls `p256::ecdsa::Signature::from_der` and hands out the two scalars as
/// the bytes that `to_bytes` gives for each.
///
/// Not proved: that the outcome is `der_scalars` of the input, which holds
/// because the parser looks at nothing but the input; that each scalar comes
/// as 32 bytes, the size of a P-256 field element.
#[verifier::external_body]
pub(crate) fn read_der_signature(
    der: &[u8],
) -> (res: Result<(Vec<u8>, Vec<u8>), p256::ecdsa::Error>)
    ensures
        match res {
            Ok((r, s)) => {
                &&& der_scalars(der@) == Some((r@, s@))
                &&& r@.len() == SCALAR_LENGTH
                &&& s@.len() == SCALAR_LENGTH
            },
            Err(_) => der_scalars(der@) is None,
        },
{
    let signature = p256::ecdsa::Signature::from_der(der)?;
    let r = signature.r().as_ref().to_bytes().to_vec();
    let s = signature.s().as_ref().to_bytes().to_vec();
    Ok((r, s))
}

} // verus!
