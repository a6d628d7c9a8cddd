//! Failures of the identity operations.

use vstd::prelude::*;

verus! {

/// The four ways an identity operation can fail.
#[derive(Clone, Copy, Debug, PartialEq, Eq, Structural)]
pub enum ErrorKind {
    /// The public key could not be obtained from the service.
    KeyLookup,
    /// The service rejected or failed a signing request.
    Signing,
    /// The service returned a signature that cannot be put in raw form.
    MalformedSignature,
    /// The public key cannot be encoded for principal derivation.
    Encoding,
}

/// A failure, carrying the service's diagnostic text where there is one.
#[derive(Debug, PartialEq, Eq)]
pub enum IdentityError {
    /// The lookup of the public key failed; the text is the service's.
    KeyLookup(String),
    /// A signing request failed; the text is the service's.
    Signing(String),
    /// The returned signature is not DER, or an integer is too wide.
    MalformedSignature,
    /// The public key is not one the chosen derivation can encode.
    Encoding,
}

/// Text reported for a signature that cannot be converted.
pub open spec fn malformed_signature_text() -> Seq<char> {
    "Cannot create secp256k1 signature: malformed signature."@
}

/// Text reported for a public key that cannot be encoded.
pub open spec fn encoding_text() -> Seq<char> {
    "Cannot encode the public key for principal derivation."@
}

impl Clone for IdentityError {
    fn clone(&self) -> (copy: Self)
        ensures
            copy == *self,
    {
        match self {
            IdentityError::KeyLookup(detail) => IdentityError::KeyLookup(detail.clone()),
            IdentityError::Signing(detail) => IdentityError::Signing(detail.clone()),
            IdentityError::MalformedSignature => IdentityError::MalformedSignature,
            IdentityError::Encoding => IdentityError::Encoding,
        }
    }
}

impl IdentityError {
    /// Which of the four failures this is.
    pub open spec fn spec_kind(&self) -> ErrorKind {
        match self {
            IdentityError::KeyLookup(_) => ErrorKind::KeyLookup,
            IdentityError::Signing(_) => ErrorKind::Signing,
            IdentityError::MalformedSignature => ErrorKind::MalformedSignature,
            IdentityError::Encoding => ErrorKind::Encoding,
        }
    }

    /// The diagnostic text of the failure.
    pub open spec fn text(&self) -> Seq<char> {
        match self {
            IdentityError::KeyLookup(detail) => detail@,
            IdentityError::Signing(detail) => detail@,
            IdentityError::MalformedSignature => malformed_signature_text(),
            IdentityError::Encoding => encoding_text(),
        }
    }

    /// Which of the four failures this is.
    #[verifier::when_used_as_spec(spec_kind)]
    pub fn kind(&self) -> (kind: ErrorKind)
        ensures
            kind == self.spec_kind(),
    {
        match self {
            IdentityError::KeyLookup(_) => ErrorKind::KeyLookup,
            IdentityError::Signing(_) => ErrorKind::Signing,
            IdentityError::MalformedSignature => ErrorKind::MalformedSignature,
            IdentityError::Encoding => ErrorKind::Encoding,
        }
    }

    /// The diagnostic text: the service's own words for a lookup or signing
    /// failure, a fixed sentence for the other two.
    pub fn message(&self) -> (message: String)
        ensures
            message@ == self.text(),
    {
        match self {
            IdentityError::KeyLookup(detail) => detail.clone(),
            IdentityError::Signing(detail) => detail.clone(),
            IdentityError::MalformedSignature => {
                "Cannot create secp256k1 signature: malformed signature.".to_owned()
            },
            IdentityError::Encoding => {
                "Cannot encode the public key for principal derivation.".to_owned()
            },
        }
    }
}

} // verus!
