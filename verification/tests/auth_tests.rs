use base64::Engine as _;
use hft_executor::auth::AuthManager;
use hft_executor::errors::ExecError;

const SECRET: &[u8] = b"test-secret-key!";

fn signer() -> AuthManager {
    let secret_b64 = base64::engine::general_purpose::STANDARD.encode(SECRET);
    AuthManager::new("api-key".to_string(), secret_b64, "passphrase".to_string()).unwrap()
}

#[test]
fn renders_the_signing_timestamp_in_iso8601() {
    let headers = signer().signed_headers_at(947_638_923_004, "GET", "/api/v5/account/balance", "");
    assert_eq!(headers.timestamp, "2000-01-12T01:02:03.004Z");
    assert_eq!(headers.access_key, "api-key");
    assert_eq!(headers.passphrase, "passphrase");
    assert_eq!(headers.content_type, "application/json");
}

#[test]
fn signature_matches_hmac_over_the_concatenated_message() {
    let headers = signer().signed_headers_at(947_638_923_004, "POST", "/api/v5/trade/order", "{}");
    let message = format!("{}{}{}{}", headers.timestamp, "POST", "/api/v5/trade/order", "{}");
    let key = ring::hmac::Key::new(ring::hmac::HMAC_SHA256, SECRET);
    let tag = ring::hmac::sign(&key, message.as_bytes());
    let expected = base64::engine::general_purpose::STANDARD.encode(tag.as_ref());
    assert_eq!(headers.signature, expected);
    assert_eq!(headers.signature.len(), 44);
}

#[test]
fn same_inputs_yield_identical_signatures() {
    let a = signer().signed_headers_at(947_638_923_004, "POST", "/p", "body");
    let b = signer().signed_headers_at(947_638_923_004, "POST", "/p", "body");
    assert_eq!(a.signature, b.signature);
    assert_eq!(a.timestamp, b.timestamp);
}

#[test]
fn different_inputs_yield_different_signatures() {
    let a = signer().signed_headers_at(947_638_923_004, "POST", "/p", "body");
    let b = signer().signed_headers_at(947_638_923_004, "POST", "/p", "другое");
    let c = signer().signed_headers_at(947_638_923_005, "POST", "/p", "body");
    assert_ne!(a.signature, b.signature);
    assert_ne!(a.signature, c.signature);
}

#[test]
fn clock_signed_headers_are_well_formed() {
    let headers = signer().create_signed_headers("GET", "/api/v5/account/balance", "");
    assert_eq!(headers.signature.len(), 44);
    assert!(headers.timestamp.ends_with('Z'));
    assert!(headers.timestamp.contains('T'));
}

#[test]
fn empty_credentials_are_a_config_error() {
    let secret_b64 = base64::engine::general_purpose::STANDARD.encode(SECRET);
    let r = AuthManager::new(String::new(), secret_b64.clone(), "p".to_string());
    assert!(matches!(r, Err(ExecError::ConfigError)));
    let r2 = AuthManager::new("k".to_string(), String::new(), "p".to_string());
    assert!(matches!(r2, Err(ExecError::ConfigError)));
    let r3 = AuthManager::new("k".to_string(), secret_b64, String::new());
    assert!(matches!(r3, Err(ExecError::ConfigError)));
}

#[test]
fn undecodable_secret_is_a_config_error() {
    let r = AuthManager::new("k".to_string(), "!!not-base64!!".to_string(), "p".to_string());
    assert!(matches!(r, Err(ExecError::ConfigError)));
}

#[test]
fn configured_signer_reports_configured() {
    assert!(signer().is_configured());
}
