use vstd::prelude::*;
use vstd::string::StringExecFns;
use crate::model::Review;

verus! {

/// A status post for the publishing service, ready to be sent as a JSON object
/// with `status` and, where set, `visibility` and `scheduled_at`.
pub struct TootRequest {
    pub endpoint: String,
    pub authorization: String,
    pub status: String,
    pub visibility: Option<String>,
    pub scheduled_at: Option<String>,
}

/// Text of the post announcing a review.
pub open spec fn toot_status_spec(review: Seq<char>, url: Seq<char>) -> Seq<char> {
    review + "\nSpotify: "@ + url
}

/// Builds the post that publishes a review. In debug mode (`"1"`) the post is
/// private; a non-empty schedule becomes the post's scheduled time.
pub fn create_toot(review: &Review, debug_mode: &String, host: &str, access_token: &str) -> (r:
    TootRequest)
    ensures
        r.endpoint@ == host@ + "/api/v1/statuses"@,
        r.authorization@ == "Bearer "@ + access_token@,
        r.status@ == toot_status_spec(review.review@, review.url@),
        debug_mode@ == "1"@ ==> (r.visibility matches Some(v) && v@ == "private"@),
        debug_mode@ != "1"@ ==> r.visibility is None,
        review.schedule@.len() == 0 ==> r.scheduled_at is None,
        review.schedule@.len() != 0 ==> (r.scheduled_at matches Some(s) && s@ == review.schedule@),
{
    proof {
        reveal_strlit("/api/v1/statuses");
        reveal_strlit("Bearer ");
        reveal_strlit("\nSpotify: ");
        reveal_strlit("1");
        reveal_strlit("private");
    }
    let endpoint = String::from_str(host).concat("/api/v1/statuses");
    let authorization = String::from_str("Bearer ").concat(access_token);
    let status = review.review.clone().concat("\nSpotify: ").concat(review.url.as_str());
    let debug_on = String::from_str("1");
    let visibility = if *debug_mode == debug_on {
        Some(String::from_str("private"))
    } else {
        None
    };
    let scheduled_at = if review.schedule.as_str().is_empty() {
        None
    } else {
        Some(review.schedule.clone())
    };
    TootRequest { endpoint, authorization, status, visibility, scheduled_at }
}

} // verus!
