use publish_gateway::auth::{authorize, same_bytes, same_text, CredentialVerifier, StaticCredential};
use publish_gateway::error::GatewayError;

fn gate(token: &str) -> StaticCredential {
    StaticCredential::new(Some(token.to_string()))
}

#[test]
fn same_bytes_compares_every_position() {
    assert!(same_bytes(b"", b""));
    assert!(same_bytes(b"abc", b"abc"));
    assert!(!same_bytes(b"abc", b"abd"));
    assert!(!same_bytes(b"abc", b"xbc"));
    assert!(!same_bytes(b"abc", b"ab"));
    assert!(!same_bytes(b"ab", b"abc"));
    assert!(!same_bytes(b"", b"a"));
}

#[test]
fn same_text_is_exact() {
    assert!(same_text("", ""));
    assert!(same_text("Bearer s3cr3t", "Bearer s3cr3t"));
    assert!(!same_text("Bearer s3cr3t", "bearer s3cr3t"));
    assert!(!same_text("secret", "secret "));
    assert!(!same_text("secret", " secret"));
    assert!(same_text("sch\u{00fc}ssel", "sch\u{00fc}ssel"));
    assert!(!same_text("sch\u{00fc}ssel", "schussel"));
}

#[test]
fn matching_credential_is_admitted() {
    assert_eq!(authorize(&gate("s3cr3t"), Some("s3cr3t")), Ok(()));
    assert!(gate("s3cr3t").verify("s3cr3t"));
}

#[test]
fn missing_header_is_unauthorized() {
    assert_eq!(authorize(&gate("s3cr3t"), None), Err(GatewayError::Unauthorized));
}

#[test]
fn different_credential_is_unauthorized() {
    assert_eq!(authorize(&gate("s3cr3t"), Some("s3cr3T")), Err(GatewayError::Unauthorized));
    assert_eq!(authorize(&gate("s3cr3t"), Some("")), Err(GatewayError::Unauthorized));
    assert_eq!(authorize(&gate("s3cr3t"), Some("s3cr3t2")), Err(GatewayError::Unauthorized));
    assert_eq!(authorize(&gate("s3cr3t"), Some("s3cr3")), Err(GatewayError::Unauthorized));
    assert!(!gate("s3cr3t").verify("other"));
}

#[test]
fn nothing_is_admitted_without_configured_credential() {
    let open = StaticCredential::new(None);
    assert_eq!(authorize(&open, Some("s3cr3t")), Err(GatewayError::Unauthorized));
    assert_eq!(authorize(&open, Some("")), Err(GatewayError::Unauthorized));
    assert_eq!(authorize(&open, None), Err(GatewayError::Unauthorized));
    assert!(!open.verify(""));
}

#[test]
fn empty_configured_credential_admits_only_the_empty_one() {
    assert_eq!(authorize(&gate(""), Some("")), Ok(()));
    assert_eq!(authorize(&gate(""), Some("x")), Err(GatewayError::Unauthorized));
    assert_eq!(authorize(&gate(""), None), Err(GatewayError::Unauthorized));
}

#[test]
fn client_errors_are_told_from_delivery_errors() {
    assert!(GatewayError::Unauthorized.is_client_error());
    assert!(GatewayError::MalformedPayload.is_client_error());
    assert!(!GatewayError::DeliveryFailure.is_client_error());
}
