//! The identity handle of one remote key.
//!
//! The handle is made from the outcome of one public-key lookup and never
//! changes. To sign, it says what to ask of the service and turns the answer
//! into the signature record of the request envelope; the round trip in
//! between is the caller's.

use ic_agent::agent::EnvelopeContent;
use vstd::prelude::*;
use vstd::slice::slice_to_vec;
use crate::codec::{der_to_raw, raw_of_der, FIELD_WIDTH, RAW_LENGTH};
use crate::der::der_scalars;
use crate::digest::{sha256, sha256_of};
use crate::error::{ErrorKind, IdentityError};
use crate::principal::{
    encode_subject_public_key_info, self_authenticating_id, subject_public_key_info, PrincipalId,
};
use crate::request::{request_id_of, signable, signable_form, REQUEST_ID_LENGTH};

verus! {

/// Who hashes the message: the caller of the service or the service.
#[derive(Clone, Copy, Debug, PartialEq, Eq, Structural)]
pub enum SigningMode {
    /// The message is hashed with SHA-256 here and the digest is sent.
    Digest,
    /// The message is sent as it is and the service hashes it.
    Message,
}

/// From which bytes the principal is derived.
#[derive(Clone, Copy, Debug, PartialEq, Eq, Structural)]
pub enum PrincipalDerivation {
    /// From the public key as the service returned it.
    RawKey,
    /// From the subject-public-key-info document of the public key, which is
    /// read as a P-256 key in SEC1 form.
    SubjectPublicKeyInfo,
}

/// How a key was provisioned. Both choices belong to the deployment.
#[derive(Clone, Copy, Debug, PartialEq, Eq, Structural)]
pub struct KeyConfig {
    pub signing_mode: SigningMode,
    pub derivation: PrincipalDerivation,
}

/// What the bytes of a signing request are.
#[derive(Clone, Copy, Debug, PartialEq, Eq, Structural)]
pub enum MessageType {
    /// The message itself.
    Raw,
    /// A digest of the message.
    Digest,
}

/// The signing algorithm asked of the service.
#[derive(Clone, Copy, Debug, PartialEq, Eq, Structural)]
pub enum SigningAlgorithm {
    /// ECDSA over a SHA-256 digest.
    EcdsaSha256,
}

/// A signing request to the service.
#[derive(Debug, PartialEq, Eq)]
pub struct SignRequest {
    pub key_id: String,
    pub signing_algorithm: SigningAlgorithm,
    pub message_type: MessageType,
    pub message: Vec<u8>,
}

/// One link of a delegation chain.
#[derive(Debug, PartialEq, Eq)]
pub struct SignedDelegation {
    pub public_key: Vec<u8>,
    pub expiration: u64,
    pub targets: Option<Vec<PrincipalId>>,
    pub signature: Vec<u8>,
}

/// The signature record of a request envelope.
#[derive(Debug, PartialEq, Eq)]
pub struct EnvelopeSignature {
    pub delegations: Option<Vec<SignedDelegation>>,
    pub public_key: Option<Vec<u8>>,
    pub signature: Option<Vec<u8>>,
}

/// The handle of one remote key: its identifier, its public key as the
/// service reported it once, and how it was provisioned.
#[derive(Debug, PartialEq, Eq)]
pub struct KmsIdentity {
    key_id: String,
    public_key: Vec<u8>,
    config: KeyConfig,
}

/// What a handle holds.
pub struct IdentityView {
    pub key_id: Seq<char>,
    pub public_key: Seq<u8>,
    pub config: KeyConfig,
}

impl View for KmsIdentity {
    type V = IdentityView;

    closed spec fn view(&self) -> IdentityView {
        IdentityView { key_id: self.key_id@, public_key: self.public_key@, config: self.config }
    }
}

/// Text of the lookup failure for an answer without a public key.
pub open spec fn missing_public_key_text() -> Seq<char> {
    "The key service returned no public key."@
}

/// Text of the signing failure for an answer without a signature.
pub open spec fn missing_signature_text() -> Seq<char> {
    "The key service returned no signature."@
}

/// The bytes of the principal of a public key under a derivation, or `None`
/// where the key cannot be encoded.
pub open spec fn principal_of(
    public_key: Seq<u8>,
    derivation: PrincipalDerivation,
) -> Option<Seq<u8>> {
    match derivation {
        PrincipalDerivation::RawKey => Some(self_authenticating_id(public_key)),
        PrincipalDerivation::SubjectPublicKeyInfo => match subject_public_key_info(public_key) {
            Some(document) => Some(self_authenticating_id(document)),
            None => None,
        },
    }
}

/// The bytes sent to the service for a message.
pub open spec fn payload(message: Seq<u8>, mode: SigningMode) -> Seq<u8> {
    match mode {
        SigningMode::Digest => sha256(message),
        SigningMode::Message => message,
    }
}

/// What the bytes sent under a signing mode are.
pub open spec fn message_type_of(mode: SigningMode) -> MessageType {
    match mode {
        SigningMode::Digest => MessageType::Digest,
        SigningMode::Message => MessageType::Raw,
    }
}

/// Whether `request` is the signing request of `identity` for `message`.
pub open spec fn is_request_for(
    request: SignRequest,
    identity: IdentityView,
    message: Seq<u8>,
) -> bool {
    &&& request.key_id@ == identity.key_id
    &&& request.signing_algorithm == SigningAlgorithm::EcdsaSha256
    &&& request.message_type == message_type_of(identity.config.signing_mode)
    &&& request.message@ == payload(message, identity.config.signing_mode)
}

/// Whether `signature` is the record that holds `public_key` and the raw
/// signature `raw`, and no delegation.
pub open spec fn is_envelope_of(
    signature: EnvelopeSignature,
    public_key: Seq<u8>,
    raw: Seq<u8>,
) -> bool {
    &&& signature.delegations is None
    &&& signature.public_key matches Some(key) && key@ == public_key
    &&& signature.signature matches Some(bytes) && bytes@ == raw
}

impl Clone for KmsIdentity {
    fn clone(&self) -> (copy: Self)
        ensures
            copy@ == self@,
    {
        KmsIdentity {
            key_id: self.key_id.clone(),
            public_key: self.public_key.clone(),
            config: self.config,
        }
    }
}

impl KmsIdentity {
    /// Makes the handle of the key `key_id` from the outcome of the lookup of
    /// its public key.
    ///
    /// Fails with `KeyLookup` where the lookup failed, with the service's
    /// text, and where its answer holds no public key.
    pub fn new(
        key_id: String,
        config: KeyConfig,
        lookup: Result<Option<Vec<u8>>, String>,
    ) -> (res: Result<KmsIdentity, IdentityError>)
        ensures
            match lookup {
                Ok(Some(public_key)) => res matches Ok(identity) && identity@ == (IdentityView {
                    key_id: key_id@,
                    public_key: public_key@,
                    config,
                }),
                Ok(None) => res matches Err(error) && error.kind() == ErrorKind::KeyLookup
                    && error.text() == missing_public_key_text(),
                Err(detail) => res matches Err(error) && error.kind() == ErrorKind::KeyLookup
                    && error.text() == detail@,
            },
    {
        match lookup {
            Ok(Some(public_key)) => Ok(KmsIdentity { key_id, public_key, config }),
            Ok(None) => Err(
                IdentityError::KeyLookup("The key service returned no public key.".to_owned()),
            ),
            Err(detail) => Err(IdentityError::KeyLookup(detail)),
        }
    }

    /// The identifier of the key.
    pub fn key_id(&self) -> (key_id: &String)
        ensures
            key_id@ == self@.key_id,
    {
        &self.key_id
    }

    /// How the key was provisioned.
    pub fn config(&self) -> (config: KeyConfig)
        ensures
            config == self@.config,
    {
        self.config
    }

    /// The public key that the lookup returned. It is always there.
    pub fn public_key(&self) -> (key: Option<Vec<u8>>)
        ensures
            key matches Some(bytes) && bytes@ == self@.public_key,
    {
        Some(self.public_key.clone())
    }

    /// The principal of the key: derived from the public key as it is, or
    /// from its subject-public-key-info document, as the handle was told.
    ///
    /// Fails with `Encoding` exactly when the document is asked for and the
    /// public key is no P-256 key in SEC1 form.
    pub fn sender(&self) -> (res: Result<PrincipalId, IdentityError>)
        ensures
            match res {
                Ok(id) => principal_of(self@.public_key, self@.config.derivation) == Some(id@)
                    && PrincipalId::is_self_authenticating(id@),
                Err(error) => error == IdentityError::Encoding && principal_of(
                    self@.public_key,
                    self@.config.derivation,
                ) is None,
            },
    {
        match self.config.derivation {
            PrincipalDerivation::RawKey => Ok(
                PrincipalId::self_authenticating(self.public_key.as_slice()),
            ),
            PrincipalDerivation::SubjectPublicKeyInfo => {
                match encode_subject_public_key_info(self.public_key.as_slice()) {
                    Some(document) => Ok(PrincipalId::self_authenticating(document.as_slice())),
                    None => Err(IdentityError::Encoding),
                }
            },
        }
    }

    /// What to ask of the service to have `message` signed: the key, the
    /// algorithm, and the message itself or its SHA-256 digest, as the key
    /// was provisioned.
    pub fn sign_request_for_message(&self, message: &[u8]) -> (request: SignRequest)
        ensures
            is_request_for(request, self@, message@),
    {
        match self.config.signing_mode {
            SigningMode::Digest => SignRequest {
                key_id: self.key_id.clone(),
                signing_algorithm: SigningAlgorithm::EcdsaSha256,
                message_type: MessageType::Digest,
                message: sha256_of(message),
            },
            SigningMode::Message => SignRequest {
                key_id: self.key_id.clone(),
                signing_algorithm: SigningAlgorithm::EcdsaSha256,
                message_type: MessageType::Raw,
                message: slice_to_vec(message),
            },
        }
    }

    /// What to ask of the service to have the request with the id
    /// `request_id` signed: the signing request for the id behind the domain
    /// separator.
    pub fn sign_request_for_id(&self, request_id: &[u8; 32]) -> (request: SignRequest)
        ensures
            is_request_for(request, self@, signable(request_id@)),
    {
        let message = signable_form(request_id);
        self.sign_request_for_message(message.as_slice())
    }

    /// What to ask of the service to have a request signed: the signing
    /// request for the request id of `content`.
    pub fn sign_request(&self, content: &EnvelopeContent) -> (request: SignRequest)
        ensures
            exists|request_id: Seq<u8>|
                request_id.len() == REQUEST_ID_LENGTH && #[trigger] is_request_for(
                    request,
                    self@,
                    signable(request_id),
                ),
    {
        let request_id = request_id_of(content);
        let request = self.sign_request_for_id(&request_id);
        assert(is_request_for(request, self@, signable(request_id@)));
        request
    }

    /// The signature record for a raw signature: no delegation, the public
    /// key of the handle, the 64 bytes.
    pub fn envelope(&self, raw: &[u8; 64]) -> (signature: EnvelopeSignature)
        ensures
            is_envelope_of(signature, self@.public_key, raw@),
            signature.signature matches Some(bytes) && bytes@.len() == RAW_LENGTH,
    {
        EnvelopeSignature {
            delegations: None,
            public_key: Some(self.public_key.clone()),
            signature: Some(slice_to_vec(raw.as_slice())),
        }
    }

    /// Turns the service's answer to a signing request into the signature
    /// record of the envelope.
    ///
    /// Fails with `Signing` where the service failed, with its text, and
    /// where its answer holds no signature; with `MalformedSignature` where
    /// the signature it returned does not convert to raw form. The handle is
    /// the same afterwards either way.
    pub fn complete_sign(
        &self,
        response: Result<Option<Vec<u8>>, String>,
    ) -> (res: Result<EnvelopeSignature, IdentityError>)
        ensures
            match response {
                Ok(Some(der)) => {
                    &&& res is Ok <==> der_scalars(der@) is Some
                    &&& match raw_of_der(der@, FIELD_WIDTH as nat) {
                        Some(raw) => res matches Ok(signature) && is_envelope_of(
                            signature,
                            self@.public_key,
                            raw,
                        ) && raw.len() == RAW_LENGTH,
                        None => res matches Err(error) && error
                            == IdentityError::MalformedSignature,
                    }
                },
                Ok(None) => res matches Err(error) && error.kind() == ErrorKind::Signing
                    && error.text() == missing_signature_text(),
                Err(detail) => res matches Err(error) && error.kind() == ErrorKind::Signing
                    && error.text() == detail@,
            },
    {
        match response {
            Ok(Some(der)) => match der_to_raw(der.as_slice()) {
                Ok(raw) => Ok(self.envelope(&raw)),
                Err(error) => Err(error),
            },
            Ok(None) => Err(
                IdentityError::Signing("The key service returned no signature.".to_owned()),
            ),
            Err(detail) => Err(IdentityError::Signing(detail)),
        }
    }
}

/// Handles of one public key under one derivation have one principal,
/// whatever their key identifiers and signing modes are.
pub proof fn same_key_same_principal(first: KmsIdentity, second: KmsIdentity)
    requires
        first@.public_key == second@.public_key,
        first@.config.derivation == second@.config.derivation,
    ensures
        principal_of(first@.public_key, first@.config.derivation) == principal_of(
            second@.public_key,
            second@.config.derivation,
        ),
{
}

} // verus!
