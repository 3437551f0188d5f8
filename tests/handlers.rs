use onxpoint::credentials::hash_str;
use onxpoint::error::{AuthError, RequestError, TokenError};
use onxpoint::handler::{
    authenticate, new_review, redirect_short, shorten_url, store_checked_link, store_checked_review,
};
use onxpoint::model::{CreateReview, CreateSession, ShortenRequest};
use onxpoint::redict::{login_result, try_auth};
use onxpoint::store::{KeyValueStore, MemoryStore, StoreError};
use onxpoint::token::TokenService;
use onxpoint::toot::create_toot;

const KNOWN_HASH: &str = "$2b$04$EGdrhbKUv8Oc9vGiXX0HQOxSg445d458Muh7DAHskb6QbtCvdxcie";

fn service() -> TokenService {
    TokenService::new(Some(b"0123456789abcdef0123456789abcdef".to_vec()))
}

fn session(u: &str, p: &str) -> CreateSession {
    CreateSession { username: u.to_string(), password: p.to_string() }
}

fn store_with_known_user() -> MemoryStore {
    let mut m = MemoryStore::new();
    m.set(&"auth/alice".to_string(), &KNOWN_HASH.to_string()).unwrap();
    m
}

#[test]
fn alice_scenario() {
    let mut m = MemoryStore::new();
    let h = hash_str(&"s3cret".to_string()).unwrap();
    m.set(&"auth/alice".to_string(), &h).unwrap();
    let s = service();
    let ok = authenticate(&mut m, &s, &session("alice", "s3cret")).unwrap();
    assert_eq!(ok.status, "OK");
    assert_eq!(s.verify_token(&ok.token), Ok(()));
    assert!(matches!(
        authenticate(&mut m, &s, &session("alice", "wrong")),
        Err(AuthError::InvalidCredentials)
    ));
    assert!(matches!(
        authenticate(&mut m, &s, &session("bob", "x")),
        Err(AuthError::InvalidCredentials)
    ));
}

#[test]
fn unknown_user_and_wrong_password_look_alike() {
    let mut m = store_with_known_user();
    let a = try_auth(&mut m, &session("alice", "wrong"));
    let b = try_auth(&mut m, &session("nobody", "correctbatteryhorsestapler"));
    assert_eq!(a, Err(AuthError::InvalidCredentials));
    assert_eq!(a, b);
    assert_eq!(try_auth(&mut m, &session("alice", "correctbatteryhorsestapler")), Ok(()));
}

#[test]
fn login_errors_by_cause() {
    let mut m = store_with_known_user();
    m.set(&"auth/eve".to_string(), &"garbage".to_string()).unwrap();
    assert!(matches!(authenticate(&mut m, &service(), &session("eve", "x")), Err(AuthError::Hashing)));
    let no_key = TokenService::new(None);
    assert!(matches!(
        authenticate(&mut m, &no_key, &session("alice", "correctbatteryhorsestapler")),
        Err(AuthError::Token(TokenError::MissingKey))
    ));
    m.set_failures(true, false, false);
    assert!(matches!(
        authenticate(&mut m, &service(), &session("alice", "correctbatteryhorsestapler")),
        Err(AuthError::Store(StoreError::Unavailable))
    ));
}

fn submission() -> CreateReview {
    CreateReview {
        url: "https://open.spotify.com/t".to_string(),
        review: "nice".to_string(),
        schedule: "2030-01-01T00:00:00Z".to_string(),
    }
}

#[test]
fn review_submission_is_gated_and_stored() {
    let s = service();
    let t = format!("Bearer {}", s.get_token().unwrap());
    let mut m = MemoryStore::new();
    let r = new_review(&mut m, &s, Some(t.as_bytes()), 5, submission()).unwrap();
    assert_eq!(r.id, 5);
    assert_eq!(r.review, "nice");
    assert_eq!(r.post_url, "");
    let key = "reviews/00000000-0000-0000-0000-000000000005".to_string();
    assert_eq!(m.get(&key), Ok(Some(r.to_json())));
    assert!(m.is_member(&"reviews".to_string(), &key));
}

#[test]
fn review_without_header_is_refused() {
    let mut m = MemoryStore::new();
    let r = new_review(&mut m, &service(), None, 5, submission());
    assert!(matches!(r, Err(RequestError::MissingHeader)));
    let key = "reviews/00000000-0000-0000-0000-000000000005".to_string();
    assert_eq!(m.get(&key), Ok(None));
}

#[test]
fn shorten_and_redirect() {
    let s = service();
    let t = format!("Bearer {}", s.get_token().unwrap());
    let mut m = MemoryStore::new();
    let req = ShortenRequest { url: "https://example.com/x".to_string(), short: "abc123".to_string() };
    let u = shorten_url(&mut m, &s, Some(t.as_bytes()), &req, Some("https://oxp.io")).unwrap();
    assert_eq!(u, "https://oxp.io/s/abc123");
    assert_eq!(redirect_short(&mut m, &"abc123".to_string()), Ok(Some("https://example.com/x".to_string())));
    assert_eq!(redirect_short(&mut m, &"missing".to_string()), Ok(None));
}

#[test]
fn shorten_errors() {
    let s = service();
    let t = format!("Bearer {}", s.get_token().unwrap());
    let mut m = MemoryStore::new();
    let req = ShortenRequest { url: "https://example.com/x".to_string(), short: "q".to_string() };
    assert_eq!(shorten_url(&mut m, &s, None, &req, Some("b")), Err(RequestError::MissingHeader));
    assert!(matches!(
        shorten_url(&mut m, &s, Some(b"Bearer bad"), &req, Some("b")),
        Err(RequestError::Unauthorized(_))
    ));
    assert_eq!(m.get(&"url/q".to_string()), Ok(None));
    assert_eq!(shorten_url(&mut m, &s, Some(t.as_bytes()), &req, None), Err(RequestError::MissingBaseUrl));
    assert_eq!(m.get(&"url/q".to_string()), Ok(Some("https://example.com/x".to_string())));
    m.set_failures(false, true, false);
    assert_eq!(
        shorten_url(&mut m, &s, Some(t.as_bytes()), &req, Some("b")),
        Err(RequestError::Store(StoreError::Unavailable))
    );
}

#[test]
fn toot_payload() {
    let r = onxpoint::model::Review::new(1, submission());
    let t = create_toot(&r, &"1".to_string(), "https://m.social", "tok");
    assert_eq!(t.endpoint, "https://m.social/api/v1/statuses");
    assert_eq!(t.authorization, "Bearer tok");
    assert_eq!(t.status, "nice\nSpotify: https://open.spotify.com/t");
    assert_eq!(t.visibility, Some("private".to_string()));
    assert_eq!(t.scheduled_at, Some("2030-01-01T00:00:00Z".to_string()));
    let mut r2 = onxpoint::model::Review::new(2, submission());
    r2.schedule = String::new();
    let t2 = create_toot(&r2, &"0".to_string(), "h", "k");
    assert_eq!(t2.visibility, None);
    assert_eq!(t2.scheduled_at, None);
}

#[test]
fn login_result_decides_after_read() {
    assert_eq!(login_result(None, "x"), Err(AuthError::InvalidCredentials));
    assert_eq!(login_result(Some(KNOWN_HASH.to_string()), "wrong"), Err(AuthError::InvalidCredentials));
    assert_eq!(login_result(Some(KNOWN_HASH.to_string()), "correctbatteryhorsestapler"), Ok(()));
    assert_eq!(login_result(Some("garbage".to_string()), "x"), Err(AuthError::Hashing));
}

#[test]
fn gated_handlers_refuse_non_text_headers() {
    let s = service();
    let mut m = MemoryStore::new();
    let req = ShortenRequest { url: "u".to_string(), short: "c".to_string() };
    assert_eq!(
        shorten_url(&mut m, &s, Some(b"Bearer \x01"), &req, Some("b")),
        Err(RequestError::Unauthorized(TokenError::Malformed))
    );
    assert!(matches!(
        new_review(&mut m, &s, Some(b"\xfe"), 1, submission()),
        Err(RequestError::Unauthorized(TokenError::Malformed))
    ));
    let no_key = TokenService::new(None);
    assert!(matches!(
        new_review(&mut m, &no_key, Some(b"Bearer x"), 1, submission()),
        Err(RequestError::Unauthorized(TokenError::MissingKey))
    ));
    assert_eq!(m.get(&"url/c".to_string()), Ok(None));
}

#[test]
fn failed_index_insert_in_review_submission() {
    let s = service();
    let t = format!("Bearer {}", s.get_token().unwrap());
    let mut m = MemoryStore::new();
    m.set_failures(false, false, true);
    let r = new_review(&mut m, &s, Some(t.as_bytes()), 11, submission());
    assert!(matches!(r, Err(RequestError::Store(StoreError::Unavailable))));
    m.set_failures(false, false, false);
    let key = "reviews/00000000-0000-0000-0000-00000000000b".to_string();
    assert!(m.get(&key).unwrap().is_some());
    assert!(!m.is_member(&"reviews".to_string(), &key));
}

#[test]
fn checked_review_follows_the_gate() {
    let mut m = MemoryStore::new();
    let refused = Err(RequestError::Unauthorized(TokenError::AuthenticationFailed));
    let r = store_checked_review(&mut m, refused, onxpoint::model::Review::new(4, submission()));
    assert!(matches!(r, Err(RequestError::Unauthorized(TokenError::AuthenticationFailed))));
    let key = "reviews/00000000-0000-0000-0000-000000000004".to_string();
    assert_eq!(m.get(&key), Ok(None));
    let ok = store_checked_review(&mut m, Ok(()), onxpoint::model::Review::new(4, submission())).unwrap();
    assert_eq!(m.get(&key), Ok(Some(ok.to_json())));
    assert!(m.is_member(&"reviews".to_string(), &key));
    m.set_failures(false, true, false);
    let failed = store_checked_review(&mut m, Ok(()), onxpoint::model::Review::new(6, submission()));
    assert!(matches!(failed, Err(RequestError::Store(StoreError::Unavailable))));
}

#[test]
fn checked_link_follows_the_gate() {
    let mut m = MemoryStore::new();
    let req = ShortenRequest { url: "https://example.com/x".to_string(), short: "k".to_string() };
    assert_eq!(
        store_checked_link(&mut m, Err(RequestError::MissingHeader), &req, Some("b")),
        Err(RequestError::MissingHeader)
    );
    assert_eq!(m.get(&"url/k".to_string()), Ok(None));
    assert_eq!(store_checked_link(&mut m, Ok(()), &req, Some("https://b.io")), Ok("https://b.io/s/k".to_string()));
    assert_eq!(store_checked_link(&mut m, Ok(()), &req, None), Err(RequestError::MissingBaseUrl));
    assert_eq!(m.get(&"url/k".to_string()), Ok(Some("https://example.com/x".to_string())));
    m.set_failures(false, true, false);
    assert_eq!(
        store_checked_link(&mut m, Ok(()), &req, Some("b")),
        Err(RequestError::Store(StoreError::Unavailable))
    );
}
