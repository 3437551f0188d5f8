use vstd::prelude::*;
use vstd::string::StringExecFns;

verus! {

/// Key of the stored credential hash of `username`: `auth/<username>`.
pub open spec fn auth_key_spec(username: Seq<char>) -> Seq<char> {
    "auth/"@ + username
}

/// Key of a review record: `reviews/<id>`.
pub open spec fn review_key_spec(id_text: Seq<char>) -> Seq<char> {
    "reviews/"@ + id_text
}

/// Key of the set that indexes all review keys.
pub open spec fn review_index_spec() -> Seq<char> {
    "reviews"@
}

/// Key of the long URL behind a short code: `url/<short>`.
pub open spec fn link_key_spec(short: Seq<char>) -> Seq<char> {
    "url/"@ + short
}

/// Public address of a short link: `<base>/s/<short>`.
pub open spec fn short_url_spec(base: Seq<char>, short: Seq<char>) -> Seq<char> {
    base + "/s/"@ + short
}

pub fn auth_key(username: &str) -> (r: String)
    ensures
        r@ == auth_key_spec(username@),
{
    proof {
        reveal_strlit("auth/");
    }
    String::from_str("auth/").concat(username)
}

pub fn review_key(id_text: &str) -> (r: String)
    ensures
        r@ == review_key_spec(id_text@),
{
    proof {
        reveal_strlit("reviews/");
    }
    String::from_str("reviews/").concat(id_text)
}

pub fn review_index() -> (r: String)
    ensures
        r@ == review_index_spec(),
{
    proof {
        reveal_strlit("reviews");
    }
    String::from_str("reviews")
}

pub fn link_key(short: &str) -> (r: String)
    ensures
        r@ == link_key_spec(short@),
{
    proof {
        reveal_strlit("url/");
    }
    String::from_str("url/").concat(short)
}

pub fn short_url(base: &str, short: &str) -> (r: String)
    ensures
        r@ == short_url_spec(base@, short@),
{
    proof {
        reveal_strlit("/s/");
    }
    String::from_str(base).concat("/s/").concat(short)
}

/// Distinct short codes never share a storage key.
pub proof fn lemma_link_key_injective(a: Seq<char>, b: Seq<char>)
    ensures
        link_key_spec(a) == link_key_spec(b) ==> a == b,
{
    if link_key_spec(a) == link_key_spec(b) {
        let n = "url/"@.len();
        assert(a =~= link_key_spec(a).subrange(n as int, link_key_spec(a).len() as int));
        assert(b =~= link_key_spec(b).subrange(n as int, link_key_spec(b).len() as int));
    }
}

} // verus!
