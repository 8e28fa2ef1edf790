use arpc_proxy::keys::{register_device, validate_registration, KeyStore, RegisterError, RegisterRequest};
use arpc_proxy::settings::AuthConfig;
use arpc_proxy::signature::verify_signature;

use hmac::{Hmac, KeyInit, Mac};
use sha2::Sha256;

const NOW: i64 = 1_700_000_000;
const SECRET: &str = "SECRET-REDACTED";

fn sign(device_id: &str, timestamp: i64, secret: &str) -> String {
    let message = format!("{}{}", device_id, timestamp);
    let mut mac = <Hmac<Sha256>>::new_from_slice(secret.as_bytes()).unwrap();
    mac.update(message.as_bytes());
    hex::encode(mac.finalize().into_bytes())
}

fn gated_auth() -> AuthConfig {
    AuthConfig {
        enabled: true,
        client_secret: Some(SECRET.to_string()),
        timestamp_tolerance_secs: 300,
        key_expiration_days: None,
    }
}

#[test]
fn valid_signature_is_accepted() {
    let sig = sign("device-9", NOW, SECRET);
    assert!(verify_signature("device-9", NOW, &sig, SECRET));
}

#[test]
fn tampered_device_id_is_rejected() {
    let sig = sign("device-9", NOW, SECRET);
    assert!(!verify_signature("device-8", NOW, &sig, SECRET));
}

#[test]
fn tampered_timestamp_is_rejected() {
    let sig = sign("device-9", NOW, SECRET);
    assert!(!verify_signature("device-9", NOW + 1, &sig, SECRET));
}

#[test]
fn wrong_secret_is_rejected() {
    let sig = sign("device-9", NOW, "other-secret");
    assert!(!verify_signature("device-9", NOW, &sig, SECRET));
}

#[test]
fn malformed_hex_is_rejected() {
    assert!(!verify_signature("device-9", NOW, "zz-not-hex", SECRET));
    assert!(!verify_signature("device-9", NOW, "abc", SECRET)); // odd length
    assert!(!verify_signature("device-9", NOW, "", SECRET)); // wrong length
}

#[test]
fn uppercase_hex_signature_is_accepted() {
    let sig = sign("device-9", NOW, SECRET).to_uppercase();
    assert!(verify_signature("device-9", NOW, &sig, SECRET));
}

#[test]
fn registration_with_valid_signature_issues_key() {
    let mut store = KeyStore::new();
    let req = RegisterRequest {
        device_id: "device-9".to_string(),
        timestamp: Some(NOW - 30),
        signature: Some(sign("device-9", NOW - 30, SECRET)),
    };
    let resp = register_device(&mut store, &req, &gated_auth(), NOW).unwrap();
    assert!(resp.api_key.starts_with("sk-"));
}

#[test]
fn stale_timestamp_rejected_even_with_valid_signature() {
    let ts = NOW - 301; // one second beyond tolerance
    let req = RegisterRequest {
        device_id: "device-9".to_string(),
        timestamp: Some(ts),
        signature: Some(sign("device-9", ts, SECRET)),
    };
    let e = validate_registration(&req, &gated_auth(), NOW).unwrap_err();
    assert_eq!(e, RegisterError::TimestampExpired);
    assert_eq!(e.error_code(), -32003);
    assert_eq!(e.status_code(), 401);
    assert_eq!(e.message(), "Request timestamp expired");

    // a future timestamp beyond tolerance is equally stale
    let ts2 = NOW + 400;
    let req2 = RegisterRequest {
        device_id: "device-9".to_string(),
        timestamp: Some(ts2),
        signature: Some(sign("device-9", ts2, SECRET)),
    };
    assert_eq!(
        validate_registration(&req2, &gated_auth(), NOW),
        Err(RegisterError::TimestampExpired)
    );
}

#[test]
fn timestamp_at_tolerance_edge_is_accepted() {
    let ts = NOW - 300;
    let req = RegisterRequest {
        device_id: "device-9".to_string(),
        timestamp: Some(ts),
        signature: Some(sign("device-9", ts, SECRET)),
    };
    assert_eq!(validate_registration(&req, &gated_auth(), NOW), Ok(()));
}

#[test]
fn missing_timestamp_or_signature_is_rejected() {
    let auth = gated_auth();
    let no_ts = RegisterRequest {
        device_id: "device-9".to_string(),
        timestamp: None,
        signature: Some(sign("device-9", NOW, SECRET)),
    };
    let e = validate_registration(&no_ts, &auth, NOW).unwrap_err();
    assert_eq!(e, RegisterError::MissingTimestamp);
    assert_eq!(e.message(), "timestamp is required");

    let no_sig = RegisterRequest {
        device_id: "device-9".to_string(),
        timestamp: Some(NOW),
        signature: None,
    };
    let e2 = validate_registration(&no_sig, &auth, NOW).unwrap_err();
    assert_eq!(e2, RegisterError::MissingSignature);
    assert_eq!(e2.error_code(), -32005);
}

#[test]
fn tampered_request_does_not_issue_a_key() {
    let mut store = KeyStore::new();
    let req = RegisterRequest {
        device_id: "device-9".to_string(),
        timestamp: Some(NOW),
        signature: Some(sign("intruder", NOW, SECRET)),
    };
    let e = register_device(&mut store, &req, &gated_auth(), NOW).unwrap_err();
    assert_eq!(e, RegisterError::InvalidSignature);
    assert_eq!(e.message(), "Invalid signature");
    // nothing was persisted: the device still has no key
    assert!(store.find_by_device_id(&"device-9".to_string()).is_none());
}

#[test]
fn negative_timestamp_signs_and_verifies() {
    // the decimal rendering of a negative timestamp carries its sign
    let ts = -42;
    let sig = sign("device-9", ts, SECRET);
    assert!(verify_signature("device-9", ts, &sig, SECRET));
    assert!(!verify_signature("device-9", 42, &sig, SECRET));
}
