use ic_agent::agent::EnvelopeContent;
use ic_agent::export::Principal;
use kms_identity::error::{ErrorKind, IdentityError};
use kms_identity::identity::{
    EnvelopeSignature, KeyConfig, KmsIdentity, MessageType, PrincipalDerivation, SignRequest,
    SigningAlgorithm, SigningMode,
};
use kms_identity::principal::{PrincipalId, MAX_PRINCIPAL_LENGTH, SELF_AUTHENTICATING_TAG};
use sha2::{Digest, Sha256};

/// The subject-public-key-info document of the base point of P-256.
const DOCUMENT: [u8; 91] = [
    0x30, 0x59, 0x30, 0x13, 0x06, 0x07, 0x2a, 0x86, 0x48, 0xce, 0x3d, 0x02, 0x01, 0x06, 0x08, 0x2a,
    0x86, 0x48, 0xce, 0x3d, 0x03, 0x01, 0x07, 0x03, 0x42, 0x00, 0x04, 0x6b, 0x17, 0xd1, 0xf2, 0xe1,
    0x2c, 0x42, 0x47, 0xf8, 0xbc, 0xe6, 0xe5, 0x63, 0xa4, 0x40, 0xf2, 0x77, 0x03, 0x7d, 0x81, 0x2d,
    0xeb, 0x33, 0xa0, 0xf4, 0xa1, 0x39, 0x45, 0xd8, 0x98, 0xc2, 0x96, 0x4f, 0xe3, 0x42, 0xe2, 0xfe,
    0x1a, 0x7f, 0x9b, 0x8e, 0xe7, 0xeb, 0x4a, 0x7c, 0x0f, 0x9e, 0x16, 0x2b, 0xce, 0x33, 0x57, 0x6b,
    0x31, 0x5e, 0xce, 0xcb, 0xb6, 0x40, 0x68, 0x37, 0xbf, 0x51, 0xf5,
];

/// SHA-224 of `DOCUMENT`, and the tag.
const DOCUMENT_PRINCIPAL: [u8; 29] = [
    0x09, 0x32, 0xed, 0xee, 0x9c, 0x25, 0xbf, 0x97, 0x01, 0x4d, 0xcd, 0x62, 0x11, 0x84, 0x68, 0xef,
    0x8b, 0xf0, 0x66, 0x02, 0x20, 0x4b, 0xa9, 0x46, 0x67, 0x8c, 0xb9, 0xb6, 0x02,
];

/// SHA-224 of the 65 bytes of the point in `DOCUMENT`, and the tag.
const POINT_PRINCIPAL: [u8; 29] = [
    0xd9, 0x49, 0xc1, 0xcc, 0xc1, 0xf6, 0x54, 0x64, 0x9c, 0x6a, 0x0b, 0x39, 0x6b, 0x81, 0x77, 0x77,
    0x64, 0x02, 0x7c, 0xb0, 0x72, 0x8b, 0xc6, 0xb8, 0x2e, 0xa3, 0xc1, 0x21, 0x02,
];

/// SHA-224 of nothing, and the tag.
const EMPTY_PRINCIPAL: [u8; 29] = [
    0xd1, 0x4a, 0x02, 0x8c, 0x2a, 0x3a, 0x2b, 0xc9, 0x47, 0x61, 0x02, 0xbb, 0x28, 0x82, 0x34, 0xc4,
    0x15, 0xa2, 0xb0, 0x1f, 0x82, 0x8e, 0xa6, 0x2a, 0xc5, 0xb3, 0xe4, 0x2f, 0x02,
];

/// SHA-256 of `"abc"`.
const ABC_DIGEST: [u8; 32] = [
    0xba, 0x78, 0x16, 0xbf, 0x8f, 0x01, 0xcf, 0xea, 0x41, 0x41, 0x40, 0xde, 0x5d, 0xae, 0x22, 0x23,
    0xb0, 0x03, 0x61, 0xa3, 0x96, 0x17, 0x7a, 0x9c, 0xb4, 0x10, 0xff, 0x61, 0xf2, 0x00, 0x15, 0xad,
];

const DIGEST_RAW: KeyConfig =
    KeyConfig { signing_mode: SigningMode::Digest, derivation: PrincipalDerivation::RawKey };

const MESSAGE_RAW: KeyConfig =
    KeyConfig { signing_mode: SigningMode::Message, derivation: PrincipalDerivation::RawKey };

const DIGEST_DOCUMENT: KeyConfig = KeyConfig {
    signing_mode: SigningMode::Digest,
    derivation: PrincipalDerivation::SubjectPublicKeyInfo,
};

fn point() -> Vec<u8> {
    DOCUMENT[26..].to_vec()
}

fn compressed_point() -> Vec<u8> {
    let mut out = vec![0x03];
    out.extend_from_slice(&DOCUMENT[27..59]);
    out
}

fn handle(key_id: &str, config: KeyConfig, public_key: &[u8]) -> KmsIdentity {
    KmsIdentity::new(key_id.to_string(), config, Ok(Some(public_key.to_vec()))).unwrap()
}

/// A DER signature with `r` of 32 bytes and `s` of 31.
fn service_signature() -> Vec<u8> {
    let mut der = vec![0x30, 0x43, 0x02, 0x20];
    der.extend_from_slice(&[0x42; 32]);
    der.extend_from_slice(&[0x02, 0x1f]);
    der.extend_from_slice(&[0x17; 31]);
    der
}

fn call_content() -> EnvelopeContent {
    EnvelopeContent::Call {
        nonce: None,
        ingress_expiry: 1,
        sender: Principal::anonymous(),
        canister_id: Principal::anonymous(),
        method_name: "test".to_string(),
        arg: vec![],
        sender_info: None,
    }
}

#[test]
fn test_new() {
    KmsIdentity::new("alias/tt".to_string(), DIGEST_RAW, Ok(Some(DOCUMENT.to_vec()))).unwrap();
}

#[test]
fn test_kms_identity() {
    let identity = handle("alias/tt", DIGEST_RAW, &DOCUMENT);
    let pub_key = identity.public_key().unwrap();
    assert_eq!(pub_key, DOCUMENT.to_vec());
}

#[test]
fn test_sender() {
    let identity = handle("alias/tt", DIGEST_RAW, &DOCUMENT);
    let sender = identity.sender().unwrap();
    assert_eq!(sender.as_slice(), &DOCUMENT_PRINCIPAL[..]);
    assert_eq!(sender.as_slice(), Principal::self_authenticating(DOCUMENT).as_slice());
}

#[test]
fn test_sign() {
    let identity = handle("alias/hideyoshi", DIGEST_RAW, &DOCUMENT);
    let msg = call_content();
    let request = identity.sign_request(&msg);
    assert_eq!(request.key_id, "alias/hideyoshi");
    let signature = identity.complete_sign(Ok(Some(service_signature()))).unwrap();
    assert_eq!(signature.public_key, Some(DOCUMENT.to_vec()));
    assert_eq!(signature.signature.as_ref().unwrap().len(), 64);
    assert!(signature.delegations.is_none());
}

#[test]
fn new_keeps_what_it_was_given() {
    let identity = handle("alias/tt", MESSAGE_RAW, &[1, 2, 3]);
    assert_eq!(identity.key_id(), "alias/tt");
    assert_eq!(identity.config(), MESSAGE_RAW);
    assert_eq!(identity.public_key(), Some(vec![1, 2, 3]));
}

#[test]
fn new_fails_when_the_lookup_failed() {
    let lookup = Err("AccessDeniedException: not authorized".to_string());
    let error = KmsIdentity::new("alias/tt".to_string(), DIGEST_RAW, lookup).unwrap_err();
    assert_eq!(error, IdentityError::KeyLookup("AccessDeniedException: not authorized".to_string()));
    assert_eq!(error.kind(), ErrorKind::KeyLookup);
    assert_eq!(error.message(), "AccessDeniedException: not authorized");
}

#[test]
fn new_fails_without_a_public_key() {
    let error = KmsIdentity::new("alias/tt".to_string(), DIGEST_RAW, Ok(None)).unwrap_err();
    assert_eq!(error.kind(), ErrorKind::KeyLookup);
    assert_eq!(error.message(), "The key service returned no public key.");
}

#[test]
fn public_key_is_the_same_at_every_call() {
    let identity = handle("alias/tt", DIGEST_RAW, &DOCUMENT);
    let first = identity.public_key();
    let second = identity.public_key();
    assert_eq!(first, second);
    assert_eq!(first, Some(DOCUMENT.to_vec()));
}

#[test]
fn sender_is_the_same_at_every_call() {
    let identity = handle("alias/tt", DIGEST_RAW, &DOCUMENT);
    assert_eq!(identity.sender().unwrap(), identity.sender().unwrap());
}

#[test]
fn sender_goes_by_the_public_key_alone() {
    let first = handle("alias/one", DIGEST_RAW, &DOCUMENT);
    let second = handle("alias/two", MESSAGE_RAW, &DOCUMENT);
    assert_eq!(first.sender().unwrap(), second.sender().unwrap());
}

#[test]
fn sender_differs_for_different_keys() {
    let first = handle("alias/tt", DIGEST_RAW, &DOCUMENT);
    let second = handle("alias/tt", DIGEST_RAW, &point());
    assert_ne!(first.sender().unwrap(), second.sender().unwrap());
    assert_eq!(second.sender().unwrap().as_slice(), &POINT_PRINCIPAL[..]);
}

#[test]
fn sender_of_an_empty_key() {
    let identity = handle("alias/tt", DIGEST_RAW, &[]);
    assert_eq!(identity.sender().unwrap().as_slice(), &EMPTY_PRINCIPAL[..]);
}

#[test]
fn sender_is_self_authenticating() {
    let sender = handle("alias/tt", DIGEST_RAW, &[9, 9, 9]).sender().unwrap();
    assert_eq!(sender.as_slice().len(), MAX_PRINCIPAL_LENGTH);
    assert_eq!(sender.as_slice()[28], SELF_AUTHENTICATING_TAG);
}

#[test]
fn sender_from_the_document_of_a_point() {
    let identity = handle("alias/tt", DIGEST_DOCUMENT, &point());
    assert_eq!(identity.sender().unwrap().as_slice(), &DOCUMENT_PRINCIPAL[..]);
}

#[test]
fn sender_from_the_document_of_a_compressed_point() {
    let identity = handle("alias/tt", DIGEST_DOCUMENT, &compressed_point());
    assert_eq!(identity.sender().unwrap().as_slice(), &DOCUMENT_PRINCIPAL[..]);
}

#[test]
fn sender_fails_when_the_key_cannot_be_encoded() {
    let identity = handle("alias/tt", DIGEST_DOCUMENT, &[1, 2, 3]);
    assert_eq!(identity.sender(), Err(IdentityError::Encoding));
    let document = handle("alias/tt", DIGEST_DOCUMENT, &DOCUMENT);
    assert_eq!(document.sender().unwrap_err().kind(), ErrorKind::Encoding);
}

#[test]
fn principal_of_a_key() {
    let id = PrincipalId::self_authenticating(&DOCUMENT);
    assert_eq!(id.as_slice(), &DOCUMENT_PRINCIPAL[..]);
    assert_eq!(id.clone(), id);
}

#[test]
fn sign_request_for_message_sends_the_digest() {
    let identity = handle("alias/tt", DIGEST_RAW, &DOCUMENT);
    let request = identity.sign_request_for_message(b"abc");
    assert_eq!(
        request,
        SignRequest {
            key_id: "alias/tt".to_string(),
            signing_algorithm: SigningAlgorithm::EcdsaSha256,
            message_type: MessageType::Digest,
            message: ABC_DIGEST.to_vec(),
        }
    );
}

#[test]
fn sign_request_for_message_sends_the_message() {
    let identity = handle("alias/tt", MESSAGE_RAW, &DOCUMENT);
    let request = identity.sign_request_for_message(b"abc");
    assert_eq!(
        request,
        SignRequest {
            key_id: "alias/tt".to_string(),
            signing_algorithm: SigningAlgorithm::EcdsaSha256,
            message_type: MessageType::Raw,
            message: b"abc".to_vec(),
        }
    );
}

#[test]
fn sign_request_hashes_the_signable_request_id() {
    let identity = handle("alias/tt", DIGEST_RAW, &DOCUMENT);
    let content = call_content();
    let request = identity.sign_request(&content);
    let signable = content.to_request_id().signable();
    assert_eq!(request.message, Sha256::digest(&signable).to_vec());
    assert_eq!(request.message_type, MessageType::Digest);
    assert_eq!(request.signing_algorithm, SigningAlgorithm::EcdsaSha256);
}

#[test]
fn sign_request_sends_the_signable_request_id() {
    let identity = handle("alias/tt", MESSAGE_RAW, &DOCUMENT);
    let content = call_content();
    let request = identity.sign_request(&content);
    assert_eq!(request.message.len(), 43);
    assert_eq!(&request.message[..11], b"\x0Aic-request");
    assert_eq!(&request.message[11..], &content.to_request_id()[..]);
    assert_eq!(request.message_type, MessageType::Raw);
}

#[test]
fn sign_request_for_id_puts_the_separator_first() {
    let identity = handle("alias/tt", MESSAGE_RAW, &DOCUMENT);
    let request = identity.sign_request_for_id(&[0x5a; 32]);
    let mut expected = vec![0x0a, b'i', b'c', b'-', b'r', b'e', b'q', b'u', b'e', b's', b't'];
    expected.extend_from_slice(&[0x5a; 32]);
    assert_eq!(request.message, expected);
    assert_eq!(request.key_id, "alias/tt");
    let hashed = handle("alias/tt", DIGEST_RAW, &DOCUMENT).sign_request_for_id(&[0x5a; 32]);
    assert_eq!(hashed.message, Sha256::digest(&expected).to_vec());
}

#[test]
fn sign_request_goes_by_the_request_id() {
    let identity = handle("alias/tt", DIGEST_RAW, &DOCUMENT);
    let content = call_content();
    let id: [u8; 32] = *content.to_request_id();
    assert_eq!(identity.sign_request(&content), identity.sign_request_for_id(&id));
}

#[test]
fn sign_request_is_the_same_for_the_same_content() {
    let identity = handle("alias/tt", DIGEST_RAW, &DOCUMENT);
    assert_eq!(identity.sign_request(&call_content()), identity.sign_request(&call_content()));
}

#[test]
fn complete_sign_builds_the_envelope() {
    let identity = handle("alias/tt", DIGEST_RAW, &DOCUMENT);
    let signature = identity.complete_sign(Ok(Some(service_signature()))).unwrap();
    let mut raw = vec![0x42; 32];
    raw.push(0);
    raw.extend_from_slice(&[0x17; 31]);
    assert_eq!(
        signature,
        EnvelopeSignature {
            delegations: None,
            public_key: Some(DOCUMENT.to_vec()),
            signature: Some(raw),
        }
    );
}

#[test]
fn complete_sign_fails_when_the_service_failed() {
    let identity = handle("alias/tt", DIGEST_RAW, &DOCUMENT);
    let error = identity.complete_sign(Err("service error: key disabled".to_string())).unwrap_err();
    assert_eq!(error, IdentityError::Signing("service error: key disabled".to_string()));
    assert_eq!(error.message(), "service error: key disabled");
    let signature = identity.complete_sign(Ok(Some(service_signature()))).unwrap();
    assert_eq!(signature.public_key, Some(DOCUMENT.to_vec()));
    assert_eq!(identity.public_key(), Some(DOCUMENT.to_vec()));
}

#[test]
fn complete_sign_fails_without_a_signature() {
    let identity = handle("alias/tt", DIGEST_RAW, &DOCUMENT);
    let error = identity.complete_sign(Ok(None)).unwrap_err();
    assert_eq!(error.kind(), ErrorKind::Signing);
    assert_eq!(error.message(), "The key service returned no signature.");
}

#[test]
fn complete_sign_fails_on_a_malformed_signature() {
    let identity = handle("alias/tt", DIGEST_RAW, &DOCUMENT);
    let mut der = service_signature();
    der.truncate(40);
    assert_eq!(identity.complete_sign(Ok(Some(der))), Err(IdentityError::MalformedSignature));
    let mut wide = vec![0x30, 0x45, 0x02, 0x21];
    wide.extend_from_slice(&[0x42; 33]);
    wide.extend_from_slice(&[0x02, 0x20]);
    wide.extend_from_slice(&[0x17; 32]);
    assert_eq!(identity.complete_sign(Ok(Some(wide))), Err(IdentityError::MalformedSignature));
}

#[test]
fn envelope_holds_the_key_and_the_raw_signature() {
    let identity = handle("alias/tt", DIGEST_RAW, &[4, 5, 6]);
    let raw = [0xabu8; 64];
    let signature = identity.envelope(&raw);
    assert!(signature.delegations.is_none());
    assert_eq!(signature.public_key, Some(vec![4, 5, 6]));
    assert_eq!(signature.signature, Some(raw.to_vec()));
}

#[test]
fn a_clone_is_the_same_handle() {
    let identity = handle("alias/tt", DIGEST_DOCUMENT, &point());
    let copy = identity.clone();
    assert_eq!(copy, identity);
    assert_eq!(copy.sender().unwrap(), identity.sender().unwrap());
}
