use vstd::prelude::*;
use crate::error::{RequestError, TokenError};
use crate::token::{has_token_header, key_error, TokenService};

verus! {

/// A byte that may stand in a textual header value: tab or visible ASCII.
pub open spec fn is_header_char(b: u8) -> bool {
    b == 9 || (32 <= b && b < 127)
}

/// Every byte of `b` may stand in a textual header value.
pub open spec fn is_header_text(b: Seq<u8>) -> bool {
    forall|i: int| 0 <= i < b.len() ==> is_header_char(#[trigger] b[i])
}

/// The scheme that precedes a bearer token.
pub open spec fn bearer_prefix() -> Seq<u8> {
    seq![66u8, 101u8, 97u8, 114u8, 101u8, 114u8, 32u8]
}

/// The token in a header value: what follows `Bearer ` where the value starts with
/// it, else the whole value.
pub open spec fn bearer_token_spec(h: Seq<u8>) -> Seq<u8> {
    let p = bearer_prefix();
    if h.len() >= p.len() && h.subrange(0, p.len() as int) == p {
        h.subrange(p.len() as int, h.len() as int)
    } else {
        h
    }
}

/// ASCII bytes read as characters.
pub open spec fn ascii_chars(b: Seq<u8>) -> Seq<char> {
    b.map_values(|x: u8| x as char)
}

/// Relies on `String::from_utf8_lossy`, which hands back the text unchanged when the
/// bytes are valid UTF-8, as ASCII bytes are, one character per byte.
#[verifier::external_body]
fn ascii_text(b: &[u8]) -> (r: String)
    requires
        forall|i: int| 0 <= i < b@.len() ==> b@[i] < 128,
    ensures
        r@ == ascii_chars(b@),
{
    String::from_utf8_lossy(b).into_owned()
}

/// Strips the `Bearer ` scheme from a header value, where it is there.
pub fn bearer_token(header: &[u8]) -> (r: Vec<u8>)
    ensures
        r@ == bearer_token_spec(header@),
{
    let p: [u8; 7] = [66u8, 101u8, 97u8, 114u8, 101u8, 114u8, 32u8];
    assert(p@ == bearer_prefix());
    let mut start: usize = 0;
    if header.len() >= 7 {
        let mut same = true;
        let mut i: usize = 0;
        while i < 7
            invariant
                header@.len() >= 7,
                p@ == bearer_prefix(),
                i <= 7,
                same <==> forall|j: int| 0 <= j < i ==> header@[j] == p@[j],
            decreases 7 - i,
        {
            if header[i] != p[i] {
                same = false;
            }
            i = i + 1;
        }
        if same {
            assert(header@.subrange(0, 7) =~= bearer_prefix());
            start = 7;
        } else {
            assert(header@.subrange(0, 7) != bearer_prefix()) by {
                let j = choose|j: int| 0 <= j < 7 && header@[j] != p@[j];
                assert(header@.subrange(0, 7)[j] != bearer_prefix()[j]);
            }
        }
    }
    let mut out: Vec<u8> = Vec::new();
    let mut k: usize = start;
    while k < header.len()
        invariant
            start <= k <= header@.len(),
            out@ =~= header@.subrange(start as int, k as int),
        decreases header@.len() - k,
    {
        out.push(header[k]);
        k = k + 1;
    }
    assert(header@.subrange(0, header@.len() as int) =~= header@);
    out
}

/// The view of an optional header value.
pub open spec fn header_view(header: Option<&[u8]>) -> Option<Seq<u8>> {
    match header {
        Some(h) => Some(h@),
        None => None,
    }
}

/// The answer of the bearer-token gate where it does not depend on the token's
/// cryptographic check: a missing header, a header that is not text, and a key
/// that cannot be used. `None` where the token itself decides.
pub open spec fn gate_error(key: Option<Vec<u8>>, header: Option<Seq<u8>>) -> Option<RequestError> {
    match header {
        None => Some(RequestError::MissingHeader),
        Some(h) => if !is_header_text(h) {
            Some(RequestError::Unauthorized(TokenError::Malformed))
        } else {
            match key_error(key) {
                Some(e) => Some(RequestError::Unauthorized(e)),
                None => None,
            }
        },
    }
}

/// Checks the authorization header of a request: present, textual, and holding a
/// token (after an optional `Bearer ` scheme) that the service accepts.
pub fn verify_header(service: &TokenService, header: Option<&[u8]>) -> (r: Result<(), RequestError>)
    ensures
        gate_error(service.key, header_view(header)) matches Some(e) ==> (r matches Err(e2) && e2
            == e),
        gate_error(service.key, header_view(header)) is None ==> (r matches Err(e) ==> (e
            == RequestError::Unauthorized(TokenError::Malformed) || e == RequestError::Unauthorized(
            TokenError::AuthenticationFailed,
        ))),
        r matches Err(e) ==> (e is MissingHeader ==> header is None),
        r is Ok ==> (header matches Some(h) && gate_error(service.key, header_view(header)) is None
            && has_token_header(ascii_chars(bearer_token_spec(h@)))),
{
    let h = match header {
        None => {
            return Err(RequestError::MissingHeader);
        },
        Some(h) => h,
    };
    let mut i: usize = 0;
    while i < h.len()
        invariant
            i <= h@.len(),
            header == Some(h),
            forall|j: int| 0 <= j < i ==> is_header_char(#[trigger] h@[j]),
        decreases h@.len() - i,
    {
        let b = h[i];
        if !(b == 9 || (32 <= b && b < 127)) {
            return Err(RequestError::Unauthorized(TokenError::Malformed));
        }
        i = i + 1;
    }
    let token_bytes = bearer_token(h);
    proof {
        let p = bearer_prefix();
        assert forall|j: int| 0 <= j < token_bytes@.len() implies token_bytes@[j] < 128 by {
            if h@.len() >= p.len() && h@.subrange(0, p.len() as int) == p {
                assert(token_bytes@[j] == h@[j + 7]);
                assert(is_header_char(h@[j + 7]));
            } else {
                assert(is_header_char(h@[j]));
            }
        }
    }
    let token = ascii_text(token_bytes.as_slice());
    match service.verify_token(token.as_str()) {
        Ok(()) => Ok(()),
        Err(e) => Err(RequestError::Unauthorized(e)),
    }
}

} // verus!
