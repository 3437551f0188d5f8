use vstd::prelude::*;
use vstd::string::StringExecFns;
use uuid::Uuid;

verus! {

/// A review as submitted, before it gets an id.
pub struct CreateReview {
    pub url: String,
    pub review: String,
    pub schedule: String,
}

/// A stored review; `id` is the 128-bit value of its UUID.
pub struct Review {
    pub id: u128,
    pub url: String,
    pub review: String,
    pub schedule: String,
    pub post_url: String,
}

/// A login attempt.
pub struct CreateSession {
    pub username: String,
    pub password: String,
}

/// The answer to a successful login.
pub struct SessionResponse {
    pub status: String,
    pub token: String,
}

/// A request to map the short code `short` to `url`.
pub struct ShortenRequest {
    pub url: String,
    pub short: String,
}

/// Lower-case hexadecimal digit of `d` (below 16).
pub open spec fn hex_char(d: nat) -> char {
    seq!['0', '1', '2', '3', '4', '5', '6', '7', '8', '9', 'a', 'b', 'c', 'd', 'e', 'f'][d as int]
}

/// The last `n` hexadecimal digits of `v`, most significant first.
pub open spec fn hex_digits(v: nat, n: nat) -> Seq<char>
    decreases n,
{
    if n == 0 {
        seq![]
    } else {
        hex_digits(v / 16, (n - 1) as nat).push(hex_char(v % 16))
    }
}

/// The hyphenated lower-case text of a UUID: 8-4-4-4-12 hexadecimal digits.
pub open spec fn uuid_text_spec(id: u128) -> Seq<char> {
    let v = id as nat;
    hex_digits(v / 0x1_0000_0000_0000_0000_0000_0000, 8) + seq!['-'] + hex_digits(
        v / 0x1_0000_0000_0000_0000_0000,
        4,
    ) + seq!['-'] + hex_digits(v / 0x1_0000_0000_0000_0000, 4) + seq!['-'] + hex_digits(
        v / 0x1_0000_0000_0000,
        4,
    ) + seq!['-'] + hex_digits(v, 12)
}

/// How one character is written inside a JSON string: `"` and `\` and the
/// control characters below 0x20 are escaped (short forms for backspace, tab,
/// line feed, form feed and carriage return, `\u00XX` with lower-case digits
/// for the rest); every other character stands for itself.
pub open spec fn json_escape(c: char) -> Seq<char> {
    if c == '"' {
        seq!['\\', '"']
    } else if c == '\\' {
        seq!['\\', '\\']
    } else if c == '\u{8}' {
        seq!['\\', 'b']
    } else if c == '\t' {
        seq!['\\', 't']
    } else if c == '\n' {
        seq!['\\', 'n']
    } else if c == '\u{c}' {
        seq!['\\', 'f']
    } else if c == '\r' {
        seq!['\\', 'r']
    } else if (c as u32) < 0x20 {
        seq!['\\', 'u', '0', '0', hex_char((c as u32 / 16) as nat), hex_char((c as u32 % 16) as nat)]
    } else {
        seq![c]
    }
}

/// The characters of `s`, each written as inside a JSON string.
pub open spec fn json_escaped(s: Seq<char>) -> Seq<char>
    decreases s.len(),
{
    if s.len() == 0 {
        seq![]
    } else {
        json_escaped(s.drop_last()) + json_escape(s.last())
    }
}

/// The JSON text of a string value: the escaped characters between quotes.
pub open spec fn json_string(s: Seq<char>) -> Seq<char> {
    seq!['"'] + json_escaped(s) + seq!['"']
}

/// Relies on `Uuid::from_u128` and its hyphenated text, which writes the 32 lower-case
/// hexadecimal digits of the value, most significant first, in groups of 8-4-4-4-12.
#[verifier::external_body]
fn uuid_text(id: u128) -> (r: String)
    ensures
        r@ == uuid_text_spec(id),
{
    Uuid::from_u128(id).hyphenated().to_string()
}

/// Relies on `serde_json::Value::String` and its compact `Display`, which writes the
/// string between quotes with the escapes of `json_escape` (serde_json's `ESCAPE`
/// table and `CharEscape`).
#[verifier::external_body]
fn quote_json(s: &str) -> (r: String)
    ensures
        r@ == json_string(s@),
{
    serde_json::Value::String(s.to_string()).to_string()
}

/// The JSON object of a review, its members in key order.
pub open spec fn review_json_spec(r: Review) -> Seq<char> {
    "{\"id\":"@ + json_string(uuid_text_spec(r.id)) + ",\"post_url\":"@ + json_string(r.post_url@)
        + ",\"review\":"@ + json_string(r.review@) + ",\"schedule\":"@ + json_string(r.schedule@)
        + ",\"url\":"@ + json_string(r.url@) + "}"@
}

impl Review {
    /// A new review from a submission, under the given id, not yet published.
    pub fn new(id: u128, input: CreateReview) -> (r: Review)
        ensures
            r.id == id,
            r.url@ == input.url@,
            r.review@ == input.review@,
            r.schedule@ == input.schedule@,
            r.post_url@.len() == 0,
    {
        Review {
            id,
            url: input.url,
            review: input.review,
            schedule: input.schedule,
            post_url: String::new(),
        }
    }

    /// The text of the review's UUID.
    pub fn id_text(&self) -> (r: String)
        ensures
            r@ == uuid_text_spec(self.id),
    {
        uuid_text(self.id)
    }

    /// The review as a JSON object.
    pub fn to_json(&self) -> (r: String)
        ensures
            r@ == review_json_spec(*self),
    {
        proof {
            reveal_strlit("{\"id\":");
            reveal_strlit(",\"post_url\":");
            reveal_strlit(",\"review\":");
            reveal_strlit(",\"schedule\":");
            reveal_strlit(",\"url\":");
            reveal_strlit("}");
        }
        let id = uuid_text(self.id);
        let r = String::from_str("{\"id\":").concat(quote_json(id.as_str()).as_str()).concat(
            ",\"post_url\":",
        ).concat(quote_json(self.post_url.as_str()).as_str()).concat(",\"review\":").concat(
            quote_json(self.review.as_str()).as_str(),
        ).concat(",\"schedule\":").concat(quote_json(self.schedule.as_str()).as_str()).concat(
            ",\"url\":",
        ).concat(quote_json(self.url.as_str()).as_str()).concat("}");
        r
    }
}

} // verus!
