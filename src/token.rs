use vstd::prelude::*;
use vstd::string::StringSliceAdditionalSpecFns;
use rusty_paseto::prelude::{
    GenericParserError, Key, Local, PasetoBuilder, PasetoError, PasetoParser, PasetoSymmetricKey,
    V4,
};
use crate::error::TokenError;

verus! {

#[verifier::external_type_specification]
#[verifier::external_body]
pub struct ExV4(V4);

#[verifier::external_type_specification]
#[verifier::external_body]
pub struct ExLocal(Local);

#[verifier::external_type_specification]
#[verifier::external_body]
#[verifier::reject_recursive_types(Version)]
#[verifier::reject_recursive_types(Purpose)]
pub struct ExPasetoSymmetricKey<Version, Purpose>(PasetoSymmetricKey<Version, Purpose>);

/// Length of the symmetric key in bytes.
pub const KEY_LEN: usize = 32;

/// Text of a version 4, local-purpose token starts with this header.
pub open spec fn has_token_header(t: Seq<char>) -> bool {
    t.len() >= 9 && t.subrange(0, 9) == "v4.local."@
}

/// Largest token text, in bytes, that the parser looks into.
pub const MAX_TOKEN_BYTES: usize = 65536;

/// Number of `.` separators in `t`.
pub open spec fn dot_count(t: Seq<char>) -> nat
    decreases t.len(),
{
    if t.len() == 0 {
        0
    } else {
        dot_count(t.drop_last()) + if t.last() == '.' {
            1nat
        } else {
            0nat
        }
    }
}

/// Text within the parser's size limit that is not shaped like a local token:
/// it does not have three or four dot-separated parts, or it has three and
/// does not start with the `v4.local.` header.
pub open spec fn misshapen_token(t: &str) -> bool {
    t.spec_bytes().len() <= MAX_TOKEN_BYTES && ((dot_count(t@) != 2 && dot_count(t@) != 3) || (
    dot_count(t@) == 2 && !has_token_header(t@)))
}

/// Relies on `Key::<32>::try_from(&[u8])`, which fails exactly when the slice is not
/// 32 bytes long; `PasetoSymmetricKey::from` then wraps the key.
#[verifier::external_body]
fn symmetric_key(bytes: &[u8]) -> (r: Option<PasetoSymmetricKey<V4, Local>>)
    ensures
        r is Some <==> bytes@.len() == KEY_LEN,
{
    match Key::<32>::try_from(bytes) {
        Ok(k) => Some(PasetoSymmetricKey::from(k)),
        Err(_) => None,
    }
}

/// Relies on `PasetoBuilder::<V4, Local>::default().build`: a token under the
/// `v4.local.` header, encrypted with a fresh random nonce, holding the default
/// issue, not-before and one-hour expiry claims.
#[verifier::external_body]
fn build_token(key: &PasetoSymmetricKey<V4, Local>) -> (r: Option<String>)
    ensures
        r matches Some(t) ==> has_token_header(t@),
{
    PasetoBuilder::<V4, Local>::default().build(key).ok()
}

/// Relies on `PasetoParser::<V4, Local>::default().parse`: it accepts only a token under
/// the `v4.local.` header that this key decrypts and authenticates and whose time
/// claims hold now. Up to 64 KiB, text with other than three or four
/// dot-separated parts fails with `IncorrectSize`, and text of three parts under
/// another header with `WrongHeader`, before any decryption.
#[verifier::external_body]
#[allow(deprecated)]
fn parse_token(token: &str, key: &PasetoSymmetricKey<V4, Local>) -> (r: Result<(), TokenError>)
    ensures
        r is Ok ==> has_token_header(token@),
        misshapen_token(token) ==> r is Err && r->Err_0 == TokenError::Malformed,
        r matches Err(e) ==> (e == TokenError::Malformed || e == TokenError::AuthenticationFailed),
{
    match PasetoParser::<V4, Local>::default().parse(token, key) {
        Ok(_) => Ok(()),
        Err(GenericParserError::CipherError { source: PasetoError::IncorrectSize }) => Err(TokenError::Malformed),
        Err(GenericParserError::CipherError { source: PasetoError::WrongHeader }) => Err(TokenError::Malformed),
        Err(_) => Err(TokenError::AuthenticationFailed),
    }
}

/// Issues and checks session tokens under one symmetric key, given at
/// construction. Without a usable key it refuses both.
pub struct TokenService {
    pub key: Option<Vec<u8>>,
}

/// The key error, if any, for the configured key material.
pub open spec fn key_error(key: Option<Vec<u8>>) -> Option<TokenError> {
    match key {
        None => Some(TokenError::MissingKey),
        Some(k) => if k@.len() != KEY_LEN {
            Some(TokenError::InvalidKey)
        } else {
            None
        },
    }
}

impl TokenService {
    pub fn new(key: Option<Vec<u8>>) -> (r: TokenService)
        ensures
            r.key == key,
    {
        TokenService { key }
    }

    fn load_key(&self) -> (r: Result<PasetoSymmetricKey<V4, Local>, TokenError>)
        ensures
            key_error(self.key) matches Some(e) ==> (r matches Err(e2) && e2 == e),
            key_error(self.key) is None ==> r is Ok,
    {
        match &self.key {
            None => Err(TokenError::MissingKey),
            Some(k) => match symmetric_key(k.as_slice()) {
                Some(key) => Ok(key),
                None => Err(TokenError::InvalidKey),
            },
        }
    }

    /// Issues a new session token; each one is encrypted under a fresh random nonce.
    pub fn get_token(&self) -> (r: Result<String, TokenError>)
        ensures
            key_error(self.key) matches Some(e) ==> (r matches Err(e2) && e2 == e),
            key_error(self.key) is None ==> (r matches Ok(t) ==> has_token_header(t@)),
            key_error(self.key) is None ==> (r matches Err(e) ==> e == TokenError::IssueFailed),
    {
        let key = match self.load_key() {
            Ok(k) => k,
            Err(e) => {
                return Err(e);
            },
        };
        match build_token(&key) {
            Some(t) => Ok(t),
            None => Err(TokenError::IssueFailed),
        }
    }

    /// Checks a token against the service's key.
    pub fn verify_token(&self, token: &str) -> (r: Result<(), TokenError>)
        ensures
            key_error(self.key) matches Some(e) ==> (r matches Err(e2) && e2 == e),
            key_error(self.key) is None && !has_token_header(token@) ==> r is Err,
            key_error(self.key) is None && misshapen_token(token) ==> (r matches Err(e) && e
                == TokenError::Malformed),
            key_error(self.key) is None ==> (r matches Err(e) ==> (e == TokenError::Malformed || e
                == TokenError::AuthenticationFailed)),
    {
        let key = match self.load_key() {
            Ok(k) => k,
            Err(e) => {
                return Err(e);
            },
        };
        parse_token(token, &key)
    }
}

} // verus!
