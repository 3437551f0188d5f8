use vstd::prelude::*;
use vstd::string::StringExecFns;
use crate::error::{AuthError, RequestError, TokenError};
use crate::header::{ascii_chars, bearer_token_spec, gate_error, header_view, verify_header};
use crate::keys::{auth_key_spec, link_key_spec, review_index_spec, short_url, short_url_spec};
use crate::model::{review_json_spec, CreateReview, CreateSession, Review, SessionResponse, ShortenRequest};
use crate::redict::{
    get_link, login_outcome, review_record_key, save_review, shorten_link, try_auth,
};
use crate::store::{same_availability, lookup, opt_view, KeyValueStore, StoreError};
use crate::token::{has_token_header, key_error, TokenService};

verus! {

/// The outcome of a login against the stored strings.
pub open spec fn login_against(strings: Map<Seq<char>, Seq<char>>, input: CreateSession) -> Result<(), AuthError> {
    login_outcome(lookup(strings, auth_key_spec(input.username@)), input.password@)
}

/// Logs a user in: checks the password against the stored hash and, on success,
/// issues a session token. Reads the store once and writes nothing.
pub fn authenticate<S: KeyValueStore>(
    conn: &mut S,
    tokens: &TokenService,
    input: &CreateSession,
) -> (r: Result<SessionResponse, AuthError>)
    ensures
        same_availability(*old(conn), *final(conn)),
        final(conn).strings() == old(conn).strings(),
        final(conn).members() == old(conn).members(),
        r matches Ok(s) ==> (s.status@ == "OK"@ && has_token_header(s.token@)),
        r is Ok ==> old(conn).read_ok() && login_against(old(conn).strings(), *input) is Ok,
        r is Ok ==> key_error(tokens.key) is None,
        !old(conn).read_ok() ==> (r matches Err(e) && e is Store),
        old(conn).read_ok() && login_against(old(conn).strings(), *input) is Err ==> r is Err
            && r->Err_0 == login_against(old(conn).strings(), *input)->Err_0,
        old(conn).read_ok() && login_against(old(conn).strings(), *input) is Ok && key_error(
            tokens.key,
        ) is Some ==> r is Err && r->Err_0 == AuthError::Token(key_error(tokens.key)->Some_0),
        old(conn).read_ok() && login_against(old(conn).strings(), *input) is Ok && key_error(
            tokens.key,
        ) is None && r is Err ==> r->Err_0 == AuthError::Token(TokenError::IssueFailed),
{
    try_auth(conn, input)?;
    let token = match tokens.get_token() {
        Ok(t) => t,
        Err(e) => {
            return Err(AuthError::Token(e));
        },
    };
    proof {
        reveal_strlit("OK");
    }
    Ok(SessionResponse { status: String::from_str("OK"), token })
}

/// Stores a review once the bearer-token check has given its outcome `gate`: a
/// failed check is handed back with nothing written; after a passed check the
/// review is saved and indexed, and a failed write is a store error.
pub fn store_checked_review<S: KeyValueStore>(
    conn: &mut S,
    gate: Result<(), RequestError>,
    review: Review,
) -> (r: Result<Review, RequestError>)
    ensures
        same_availability(*old(conn), *final(conn)),
        gate is Err ==> r is Err && r->Err_0 == gate->Err_0,
        gate is Err ==> final(conn).strings() == old(conn).strings(),
        gate is Err ==> final(conn).members() == old(conn).members(),
        gate is Ok ==> (r is Ok <==> old(conn).write_ok() && old(conn).add_ok()),
        gate is Ok && r is Err ==> r->Err_0 == RequestError::Store(StoreError::Unavailable),
        r matches Ok(rev) ==> rev == review,
        gate is Ok && old(conn).write_ok() ==> final(conn).strings() == old(conn).strings().insert(
            review_record_key(review),
            review_json_spec(review),
        ),
        gate is Ok && !old(conn).write_ok() ==> final(conn).strings() == old(conn).strings(),
        r is Ok ==> final(conn).members() == old(conn).members().insert(
            (review_index_spec(), review_record_key(review)),
        ),
        r is Err ==> final(conn).members() == old(conn).members(),
{
    if let Err(e) = gate {
        return Err(e);
    }
    match save_review(conn, &review) {
        Ok(()) => Ok(review),
        Err(e) => Err(RequestError::Store(e)),
    }
}

/// Takes a review submission: checks the bearer token, then stores the review
/// under the given id and indexes it. The stored review is handed back for
/// publishing.
pub fn new_review<S: KeyValueStore>(
    conn: &mut S,
    tokens: &TokenService,
    header: Option<&[u8]>,
    id: u128,
    input: CreateReview,
) -> (r: Result<Review, RequestError>)
    ensures
        same_availability(*old(conn), *final(conn)),
        r matches Ok(rev) ==> rev.id == id && rev.url@ == input.url@ && rev.review@ == input.review@
            && rev.schedule@ == input.schedule@ && rev.post_url@.len() == 0,
        r matches Ok(rev) ==> final(conn).strings() == old(conn).strings().insert(
            review_record_key(rev),
            review_json_spec(rev),
        ),
        r matches Ok(rev) ==> final(conn).members() == old(conn).members().insert(
            (review_index_spec(), review_record_key(rev)),
        ),
        r is Ok ==> old(conn).write_ok() && old(conn).add_ok(),
        r is Ok ==> (header matches Some(h) && gate_error(tokens.key, header_view(header)) is None
            && has_token_header(ascii_chars(bearer_token_spec(h@)))),
        gate_error(tokens.key, header_view(header)) matches Some(e) ==> (r matches Err(e2) && e2
            == e),
        r matches Err(e) ==> (e is MissingHeader ==> header is None),
        r matches Err(e) ==> (e is MissingHeader || e is Unauthorized || e is Store),
        r matches Err(e) && !(e is Store) ==> final(conn).strings() == old(conn).strings()
            && final(conn).members() == old(conn).members(),
        r matches Err(e) ==> (e is Store ==> e == RequestError::Store(StoreError::Unavailable)
            && !(old(conn).write_ok() && old(conn).add_ok())),
        old(conn).write_ok() && old(conn).add_ok() ==> (r matches Err(e) ==> (e is MissingHeader
            || e is Unauthorized)),
{
    let review = Review::new(id, input);
    let gate = verify_header(tokens, header);
    store_checked_review(conn, gate, review)
}

/// Writes a short link once the bearer-token check has given its outcome
/// `gate`: a failed check is handed back with nothing written; after a passed
/// check the link is written and its public address `<base_url>/s/<short>`
/// returned, or `MissingBaseUrl` where no base URL is configured (the link stays
/// written).
pub fn store_checked_link<S: KeyValueStore>(
    conn: &mut S,
    gate: Result<(), RequestError>,
    request: &ShortenRequest,
    base_url: Option<&str>,
) -> (r: Result<String, RequestError>)
    ensures
        same_availability(*old(conn), *final(conn)),
        final(conn).members() == old(conn).members(),
        gate is Err ==> r is Err && r->Err_0 == gate->Err_0,
        gate is Err ==> final(conn).strings() == old(conn).strings(),
        gate is Ok && !old(conn).write_ok() ==> r is Err && r->Err_0 == RequestError::Store(
            StoreError::Unavailable,
        ) && final(conn).strings() == old(conn).strings(),
        gate is Ok && old(conn).write_ok() ==> final(conn).strings() == old(conn).strings().insert(
            link_key_spec(request.short@),
            request.url@,
        ),
        gate is Ok && old(conn).write_ok() && base_url is Some ==> r is Ok && r->Ok_0@
            == short_url_spec(base_url->Some_0@, request.short@),
        gate is Ok && old(conn).write_ok() && base_url is None ==> r is Err && r->Err_0
            == RequestError::MissingBaseUrl,
{
    if let Err(e) = gate {
        return Err(e);
    }
    if let Err(e) = shorten_link(conn, request) {
        return Err(RequestError::Store(e));
    }
    match base_url {
        Some(b) => Ok(short_url(b, request.short.as_str())),
        None => Err(RequestError::MissingBaseUrl),
    }
}

/// Creates a short link for a caller with a valid bearer token and returns its
/// public address, `<base_url>/s/<short>`.
pub fn shorten_url<S: KeyValueStore>(
    conn: &mut S,
    tokens: &TokenService,
    header: Option<&[u8]>,
    request: &ShortenRequest,
    base_url: Option<&str>,
) -> (r: Result<String, RequestError>)
    ensures
        same_availability(*old(conn), *final(conn)),
        final(conn).members() == old(conn).members(),
        r matches Ok(u) ==> (base_url matches Some(b) && u@ == short_url_spec(b@, request.short@)),
        r is Ok ==> final(conn).strings() == old(conn).strings().insert(
            link_key_spec(request.short@),
            request.url@,
        ),
        r is Ok ==> old(conn).write_ok(),
        r is Ok ==> (header matches Some(h) && gate_error(tokens.key, header_view(header)) is None
            && has_token_header(ascii_chars(bearer_token_spec(h@)))),
        gate_error(tokens.key, header_view(header)) matches Some(e) ==> (r matches Err(e2) && e2
            == e),
        r matches Err(e) ==> (e is MissingHeader ==> header is None),
        r matches Err(e) && (e is MissingHeader || e is Unauthorized) ==> final(conn).strings() == old(
            conn).strings(),
        r matches Err(e) ==> (e is Store ==> e == RequestError::Store(StoreError::Unavailable)
            && !old(conn).write_ok() && final(conn).strings() == old(conn).strings()),
        r matches Err(e) ==> (e is MissingBaseUrl ==> base_url is None && final(conn).strings()
            == old(conn).strings().insert(link_key_spec(request.short@), request.url@)),
        old(conn).write_ok() ==> (r matches Err(e) ==> (e is MissingHeader || e is Unauthorized
            || e is MissingBaseUrl)),
        base_url is None ==> r is Err,
{
    let gate = verify_header(tokens, header);
    store_checked_link(conn, gate, request, base_url)
}

/// The redirect target of a short code: the stored long URL, or `None` when the
/// code is unknown.
pub fn redirect_short<S: KeyValueStore>(conn: &mut S, short: &String) -> (r: Result<
    Option<String>,
    StoreError,
>)
    ensures
        same_availability(*old(conn), *final(conn)),
        final(conn).strings() == old(conn).strings(),
        final(conn).members() == old(conn).members(),
        r is Ok <==> old(conn).read_ok(),
        r matches Ok(v) ==> opt_view(v) == lookup(old(conn).strings(), link_key_spec(short@)),
{
    get_link(conn, short)
}

} // verus!
