use vstd::prelude::*;
use crate::credentials::{verdict_outcome, verdict_outcome_spec, verify_result, verify_secret};
use crate::error::AuthError;
use crate::keys::{
    auth_key, auth_key_spec, link_key, link_key_spec, review_index, review_index_spec, review_key,
    review_key_spec,
};
use crate::model::{review_json_spec, uuid_text_spec, CreateSession, Review, ShortenRequest};
use crate::store::{same_availability, lookup, opt_view, KeyValueStore, StoreError};

verus! {

/// The outcome of a login, given the hash stored for the user, if any.
pub open spec fn login_outcome(stored: Option<Seq<char>>, password: Seq<char>) -> Result<(), AuthError> {
    match stored {
        None => Err(AuthError::InvalidCredentials),
        Some(h) => verdict_outcome_spec(verify_result(password, h)),
    }
}

/// The storage key of a review record.
pub open spec fn review_record_key(review: Review) -> Seq<char> {
    review_key_spec(uuid_text_spec(review.id))
}

/// Stores a review under `reviews/<id>`, then adds that key to the `reviews` index.
/// The two writes are not atomic: when the second fails the record stays, unindexed.
pub fn save_review<S: KeyValueStore>(conn: &mut S, review: &Review) -> (r: Result<(), StoreError>)
    ensures
        same_availability(*old(conn), *final(conn)),
        r is Ok <==> old(conn).write_ok() && old(conn).add_ok(),
        r is Err ==> r == Err::<(), StoreError>(StoreError::Unavailable),
        r is Ok ==> final(conn).strings() == old(conn).strings().insert(
            review_record_key(*review),
            review_json_spec(*review),
        ) && final(conn).members() == old(conn).members().insert(
            (review_index_spec(), review_record_key(*review)),
        ),
        !old(conn).write_ok() ==> final(conn).strings() == old(conn).strings(),
        !old(conn).write_ok() ==> final(conn).members() == old(conn).members(),
        old(conn).write_ok() ==> final(conn).strings() == old(conn).strings().insert(
            review_record_key(*review),
            review_json_spec(*review),
        ),
        !old(conn).add_ok() ==> final(conn).members() == old(conn).members(),
{
    let id = review.id_text();
    let key = review_key(id.as_str());
    let record = review.to_json();
    conn.set(&key, &record)?;
    let index = review_index();
    conn.add_to_set(&index, &key)?;
    Ok(())
}

/// Decides a login once the stored hash has been read: no hash means invalid
/// credentials; otherwise the password is checked against it.
pub fn login_result(stored: Option<String>, password: &str) -> (r: Result<(), AuthError>)
    ensures
        r == login_outcome(opt_view(stored), password@),
{
    match stored {
        None => Err(AuthError::InvalidCredentials),
        Some(h) => verdict_outcome(verify_secret(password, h.as_str())),
    }
}

/// Checks a login against the hash stored under `auth/<username>`. An unknown user
/// and a wrong password give the same error; a failed read is a store error.
pub fn try_auth<S: KeyValueStore>(conn: &mut S, auth: &CreateSession) -> (r: Result<(), AuthError>)
    ensures
        same_availability(*old(conn), *final(conn)),
        final(conn).strings() == old(conn).strings(),
        final(conn).members() == old(conn).members(),
        old(conn).read_ok() ==> r == login_outcome(
            lookup(old(conn).strings(), auth_key_spec(auth.username@)),
            auth.password@,
        ),
        !old(conn).read_ok() ==> r == Err::<(), AuthError>(AuthError::Store(StoreError::Unavailable)),
{
    let key = auth_key(auth.username.as_str());
    match conn.get(&key) {
        Ok(stored) => login_result(stored, auth.password.as_str()),
        Err(e) => Err(AuthError::Store(e)),
    }
}

/// Maps the short code to the long URL, replacing any earlier mapping.
pub fn shorten_link<S: KeyValueStore>(conn: &mut S, request: &ShortenRequest) -> (r: Result<(), StoreError>)
    ensures
        same_availability(*old(conn), *final(conn)),
        final(conn).members() == old(conn).members(),
        r is Ok <==> old(conn).write_ok(),
        r is Err ==> r == Err::<(), StoreError>(StoreError::Unavailable),
        r is Ok ==> final(conn).strings() == old(conn).strings().insert(
            link_key_spec(request.short@),
            request.url@,
        ),
        r is Err ==> final(conn).strings() == old(conn).strings(),
{
    let key = link_key(request.short.as_str());
    conn.set(&key, &request.url)
}

/// The long URL behind a short code; `None` when no mapping exists.
pub fn get_link<S: KeyValueStore>(conn: &mut S, short: &String) -> (r: Result<Option<String>, StoreError>)
    ensures
        same_availability(*old(conn), *final(conn)),
        final(conn).strings() == old(conn).strings(),
        final(conn).members() == old(conn).members(),
        r is Ok <==> old(conn).read_ok(),
        r is Err ==> r == Err::<Option<String>, StoreError>(StoreError::Unavailable),
        r matches Ok(v) ==> opt_view(v) == lookup(old(conn).strings(), link_key_spec(short@)),
{
    let key = link_key(short.as_str());
    conn.get(&key)
}

/// Resolving a short code right after mapping it gives the mapped URL, whatever
/// the store held before; a later mapping of the same code replaces it.
pub proof fn lemma_resolve_after_create(
    strings: Map<Seq<char>, Seq<char>>,
    short: Seq<char>,
    url: Seq<char>,
    newer_url: Seq<char>,
)
    ensures
        lookup(strings.insert(link_key_spec(short), url), link_key_spec(short)) == Some(url),
        lookup(
            strings.insert(link_key_spec(short), url).insert(link_key_spec(short), newer_url),
            link_key_spec(short),
        ) == Some(newer_url),
{
}

/// Mapping one short code leaves the resolution of every other code as it was.
pub proof fn lemma_create_keeps_other_links(
    strings: Map<Seq<char>, Seq<char>>,
    short: Seq<char>,
    url: Seq<char>,
    other: Seq<char>,
)
    requires
        other != short,
    ensures
        lookup(strings.insert(link_key_spec(short), url), link_key_spec(other)) == lookup(
            strings,
            link_key_spec(other),
        ),
{
    crate::keys::lemma_link_key_injective(short, other);
}

/// A login succeeds exactly when a hash is stored for the user and the password
/// verifies against it; an unknown user and a wrong password fail alike.
pub proof fn lemma_login_outcome(stored: Option<Seq<char>>, password: Seq<char>)
    ensures
        login_outcome(stored, password) is Ok <==> (stored matches Some(h)
            && crate::credentials::hashes_secret(password, h)),
        stored is None ==> login_outcome(stored, password) == Err::<(), AuthError>(
            AuthError::InvalidCredentials,
        ),
        (stored matches Some(h) && crate::credentials::bcrypt_verdict(password, h) == Some(false))
            ==> login_outcome(stored, password) == Err::<(), AuthError>(AuthError::InvalidCredentials),
{
}

/// A review whose record was written but whose index insert failed can be read
/// back by its key, yet its key is not in the index, unless it already was.
pub proof fn lemma_unindexed_record_visible(
    strings: Map<Seq<char>, Seq<char>>,
    members: Set<(Seq<char>, Seq<char>)>,
    review: Review,
)
    requires
        !members.contains((review_index_spec(), review_record_key(review))),
    ensures
        lookup(
            strings.insert(review_record_key(review), review_json_spec(review)),
            review_record_key(review),
        ) == Some(review_json_spec(review)),
        !members.contains((review_index_spec(), review_record_key(review))),
{
}

} // verus!
