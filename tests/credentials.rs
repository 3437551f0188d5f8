use onxpoint::credentials::{get_hash, hash_status, hash_str, verdict_outcome, verify_secret};
use onxpoint::error::{AuthError, HashError};

const KNOWN_HASH: &str = "$2b$04$EGdrhbKUv8Oc9vGiXX0HQOxSg445d458Muh7DAHskb6QbtCvdxcie";

#[test]
fn hashed_secret_verifies() {
    let secret = String::from("s3cret");
    let h = hash_str(&secret).unwrap();
    assert_eq!(h.len(), 60);
    assert!(h.starts_with("$2b$12$"));
    assert_ne!(h, secret);
    assert_eq!(verify_secret("s3cret", &h), Ok(true));
    assert_eq!(verify_secret("s3cret!", &h), Ok(false));
}

#[test]
fn hashing_twice_gives_distinct_hashes() {
    let secret = String::from("same");
    let a = hash_str(&secret).unwrap();
    let b = hash_str(&secret).unwrap();
    assert_ne!(a, b);
}

#[test]
fn known_hash_verifies() {
    assert_eq!(verify_secret("correctbatteryhorsestapler", KNOWN_HASH), Ok(true));
    assert_eq!(verify_secret("wrong", KNOWN_HASH), Ok(false));
}

#[test]
fn malformed_hash_is_an_error() {
    assert_eq!(verify_secret("x", "not a hash"), Err(HashError::Failed));
    assert_eq!(verify_secret("x", "$2a$04$tjARW6ZON3PhrAIRW2LG/u9a."), Err(HashError::Failed));
}

#[test]
fn verdicts_map_to_login_outcomes() {
    assert_eq!(verdict_outcome(Ok(true)), Ok(()));
    assert_eq!(verdict_outcome(Ok(false)), Err(AuthError::InvalidCredentials));
    assert_eq!(verdict_outcome(Err(HashError::Failed)), Err(AuthError::Hashing));
}

#[test]
fn hash_endpoint_outcomes() {
    assert_eq!(get_hash(None), "Empty");
    let p = String::from("abc");
    assert_eq!(get_hash(Some(&p)), "OK");
}

#[test]
fn hash_status_texts() {
    assert_eq!(hash_status(None), "Empty");
    assert_eq!(hash_status(Some(Ok("h".to_string()))), "OK");
    assert_eq!(hash_status(Some(Err(HashError::Failed))), "Not OK");
}
