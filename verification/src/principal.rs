//! Self-authenticating principals: the identifiers that the ledger derives
//! from a public key.

use p256::pkcs8::EncodePublicKey;
use vstd::prelude::*;

verus! {

/// The greatest length in bytes of a principal.
pub const MAX_PRINCIPAL_LENGTH: usize = 29;

/// The last byte of every self-authenticating principal.
pub const SELF_AUTHENTICATING_TAG: u8 = 2;

/// The bytes of the self-authenticating principal of a public key, as
/// `Principal::self_authenticating` of `ic-agent` computes them: a SHA-224
/// digest of the key followed by the tag.
pub uninterp spec fn self_authenticating_id(public_key: Seq<u8>) -> Seq<u8>;

/// The subject-public-key-info document that `p256` writes for a P-256
/// public key given in SEC1 form, or `None` where the bytes are no such key.
pub uninterp spec fn subject_public_key_info(sec1: Seq<u8>) -> Option<Seq<u8>>;

/// Calls `Principal::self_authenticating` and copies the principal's bytes.
///
/// Not proved: that the outcome is `self_authenticating_id` of the key, a
/// function of the key alone; that it is 29 bytes long, 28 of digest and one
/// of tag; that the last byte is the tag.
#[verifier::external_body]
pub(crate) fn self_authenticating_bytes(public_key: &[u8]) -> (bytes: Vec<u8>)
    ensures
        bytes@ == self_authenticating_id(public_key@),
        bytes@.len() == MAX_PRINCIPAL_LENGTH,
        bytes@[MAX_PRINCIPAL_LENGTH - 1] == SELF_AUTHENTICATING_TAG,
{
    ic_agent::export::Principal::self_authenticating(public_key).as_slice().to_vec()
}

/// Calls `p256::PublicKey::from_sec1_bytes` and then `to_public_key_der` on
/// the key, and copies the document's bytes. Either failure gives `None`.
///
/// Not proved: that the outcome is `subject_public_key_info` of the input,
/// which holds because both steps look at nothing but their argument.
#[verifier::external_body]
pub(crate) fn encode_subject_public_key_info(sec1: &[u8]) -> (document: Option<Vec<u8>>)
    ensures
        match document {
            Some(der) => subject_public_key_info(sec1@) == Some(der@),
            None => subject_public_key_info(sec1@) is None,
        },
{
    let key = p256::PublicKey::from_sec1_bytes(sec1).ok()?;
    let document = key.to_public_key_der().ok()?;
    Some(document.as_bytes().to_vec())
}

/// A principal: at most 29 bytes.
#[derive(Debug, PartialEq, Eq)]
pub struct PrincipalId {
    bytes: Vec<u8>,
}

impl View for PrincipalId {
    type V = Seq<u8>;

    closed spec fn view(&self) -> Seq<u8> {
        self.bytes@
    }
}

impl Clone for PrincipalId {
    fn clone(&self) -> (copy: Self)
        ensures
            copy@ == self@,
    {
        proof {
            use_type_invariant(self);
        }
        PrincipalId { bytes: self.bytes.clone() }
    }
}

impl PrincipalId {
    #[verifier::type_invariant]
    spec fn well_formed(self) -> bool {
        self.bytes@.len() <= MAX_PRINCIPAL_LENGTH
    }

    /// Whether these are the bytes of a self-authenticating principal: full
    /// length, with the tag at the end.
    pub open spec fn is_self_authenticating(bytes: Seq<u8>) -> bool {
        bytes.len() == MAX_PRINCIPAL_LENGTH && bytes[MAX_PRINCIPAL_LENGTH - 1]
            == SELF_AUTHENTICATING_TAG
    }

    /// The self-authenticating principal of a public key.
    pub fn self_authenticating(public_key: &[u8]) -> (id: PrincipalId)
        ensures
            id@ == self_authenticating_id(public_key@),
            Self::is_self_authenticating(id@),
    {
        PrincipalId { bytes: self_authenticating_bytes(public_key) }
    }

    /// The bytes of the principal.
    pub fn as_slice(&self) -> (bytes: &[u8])
        ensures
            bytes@ == self@,
            bytes@.len() <= MAX_PRINCIPAL_LENGTH,
    {
        proof {
            use_type_invariant(self);
        }
        self.bytes.as_slice()
    }
}

} // verus!
