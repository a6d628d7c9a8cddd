use kms_identity::error::{ErrorKind, IdentityError};

#[test]
fn every_error_has_its_kind() {
    assert_eq!(IdentityError::KeyLookup("a".to_string()).kind(), ErrorKind::KeyLookup);
    assert_eq!(IdentityError::Signing("b".to_string()).kind(), ErrorKind::Signing);
    assert_eq!(IdentityError::MalformedSignature.kind(), ErrorKind::MalformedSignature);
    assert_eq!(IdentityError::Encoding.kind(), ErrorKind::Encoding);
}

#[test]
fn service_errors_keep_the_text_of_the_service() {
    let lookup = IdentityError::KeyLookup("AccessDeniedException: not allowed".to_string());
    assert_eq!(lookup.message(), "AccessDeniedException: not allowed");
    let signing = IdentityError::Signing("KMSInvalidStateException".to_string());
    assert_eq!(signing.message(), "KMSInvalidStateException");
}

#[test]
fn local_errors_have_fixed_text() {
    assert_eq!(
        IdentityError::MalformedSignature.message(),
        "Cannot create secp256k1 signature: malformed signature."
    );
    assert_eq!(
        IdentityError::Encoding.message(),
        "Cannot encode the public key for principal derivation."
    );
}

#[test]
fn errors_clone_to_themselves() {
    let error = IdentityError::Signing("throttled".to_string());
    assert_eq!(error.clone(), error);
    assert_eq!(IdentityError::Encoding.clone(), IdentityError::Encoding);
}
