//! The server's connection token: the token endpoint's answer and the JWT expiry.
use vstd::prelude::*;
use crate::json::{json_lookup, json_lookup_bytes, json_node_at, json_node_at_bytes, JsonNode, JsonNodeView};
use crate::oauth::callback::{pieces_of, split_bounds, split_char, sub_vec};
use crate::text::push_str;
use crate::base64url::{base64url_decode, base64url_encode, lemma_encode_injective};
use base64::Engine;

verus! {

/// Errors of the connection token flow.
#[derive(Debug)]
pub enum TokenError {
    FetchFailed(String),
    InvalidJwt(String),
    Http(String),
}

impl TokenError {
    pub open spec fn spec_message(&self) -> Seq<char> {
        match self {
            TokenError::FetchFailed(m) => "Token fetch failed: "@ + m@,
            TokenError::InvalidJwt(m) => "Invalid JWT: "@ + m@,
            TokenError::Http(m) => "HTTP error: "@ + m@,
        }
    }

    /// Renders the error as text.
    pub fn message(&self) -> (r: String)
        ensures
            r@ == self.spec_message(),
    {
        let mut out = String::new();
        match self {
            TokenError::FetchFailed(m) => {
                push_str(&mut out, "Token fetch failed: ");
                push_str(&mut out, m.as_str());
            },
            TokenError::InvalidJwt(m) => {
                push_str(&mut out, "Invalid JWT: ");
                push_str(&mut out, m.as_str());
            },
            TokenError::Http(m) => {
                push_str(&mut out, "HTTP error: ");
                push_str(&mut out, m.as_str());
            },
        }
        out
    }
}

/// The answer of the server's token endpoint.
#[derive(Debug)]
pub struct ConnectionToken {
    pub token: String,
    pub channel: String,
    pub websocket_url: String,
}

/// `s` without its trailing `c` characters (`str::trim_end_matches`).
pub open spec fn trim_end_char(s: Seq<char>, c: char) -> Seq<char>
    decreases s.len(),
{
    if s.len() > 0 && s.last() == c {
        trim_end_char(s.drop_last(), c)
    } else {
        s
    }
}

fn trim_end_len(cs: &Vec<char>, lo: usize, hi: usize, c: char) -> (r: usize)
    requires
        lo <= hi <= cs@.len(),
    ensures
        lo <= r <= hi,
        cs@.subrange(lo as int, r as int) == trim_end_char(cs@.subrange(lo as int, hi as int), c),
{
    let mut end = hi;
    while end > lo && cs[end - 1] == c
        invariant
            lo <= end <= hi <= cs@.len(),
            trim_end_char(cs@.subrange(lo as int, end as int), c) == trim_end_char(cs@.subrange(lo as int, hi as int), c),
        decreases end - lo,
    {
        assert(cs@.subrange(lo as int, end as int).drop_last() =~= cs@.subrange(lo as int, end - 1));
        end = end - 1;
    }
    end
}

/// The token endpoint of the server (trailing slashes of the server URL dropped).
pub open spec fn token_url(server_url: Seq<char>) -> Seq<char> {
    trim_end_char(server_url, '/') + "/api/connector/token"@
}

/// `{server_url}/api/connector/token`, fetched with the API key as bearer token.
pub fn token_endpoint(server_url: &str) -> (r: String)
    ensures
        r@ == token_url(server_url@),
{
    let cs = crate::text::chars_of(server_url);
    let end = trim_end_len(&cs, 0, cs.len(), '/');
    assert(cs@.subrange(0, cs@.len() as int) =~= server_url@);
    let mut u = crate::text::string_of(&cs, 0, end);
    push_str(&mut u, "/api/connector/token");
    u
}

/// The connection parameters in the token endpoint's answer (`status`, its display text
/// and the body): a failure status is `FetchFailed("HTTP {status} - {body}")`, a body
/// that is not JSON an `Http` decoding error, and each of `token`, `channel` and
/// `websocket_url` must be a string.
pub open spec fn connection_token_is(status: u16, status_text: Seq<char>, body: Seq<char>, r: Result<ConnectionToken, TokenError>) -> bool {
    if !(200 <= status <= 299) {
        r matches Err(TokenError::FetchFailed(m)) && m@ == "HTTP "@ + status_text + " - "@ + body
    } else {
        match (json_node_at(body, "/token"@), json_node_at(body, "/channel"@), json_node_at(body, "/websocket_url"@)) {
            (JsonNodeView::Invalid, _, _) => r matches Err(TokenError::Http(m)) && m@ == "error decoding response body"@,
            (JsonNodeView::Str(t), JsonNodeView::Str(c), JsonNodeView::Str(w)) => r matches Ok(ct)
                && ct.token@ == t && ct.channel@ == c && ct.websocket_url@ == w,
            (JsonNodeView::Str(_), JsonNodeView::Str(_), _) => r matches Err(TokenError::FetchFailed(m))
                && m@ == "Missing websocket_url in response"@,
            (JsonNodeView::Str(_), _, _) => r matches Err(TokenError::FetchFailed(m))
                && m@ == "Missing channel in response"@,
            _ => r matches Err(TokenError::FetchFailed(m)) && m@ == "Missing token in response"@,
        }
    }
}

/// Reads the token endpoint's answer.
pub fn connection_token_from_response(status: u16, status_text: &str, body: &str) -> (r: Result<ConnectionToken, TokenError>)
    ensures
        connection_token_is(status, status_text@, body@, r),
{
    if !(200 <= status && status <= 299) {
        let mut m = String::new();
        push_str(&mut m, "HTTP ");
        push_str(&mut m, status_text);
        push_str(&mut m, " - ");
        push_str(&mut m, body);
        return Err(TokenError::FetchFailed(m));
    }
    let token = match json_lookup(body, "/token") {
        JsonNode::Invalid => {
            return Err(TokenError::Http("error decoding response body".to_owned()));
        },
        JsonNode::Str(t) => t,
        _ => {
            return Err(TokenError::FetchFailed("Missing token in response".to_owned()));
        },
    };
    let channel = match json_lookup(body, "/channel") {
        JsonNode::Str(c) => c,
        _ => {
            return Err(TokenError::FetchFailed("Missing channel in response".to_owned()));
        },
    };
    let websocket_url = match json_lookup(body, "/websocket_url") {
        JsonNode::Str(w) => w,
        _ => {
            return Err(TokenError::FetchFailed("Missing websocket_url in response".to_owned()));
        },
    };
    Ok(ConnectionToken { token, channel, websocket_url })
}

/// All connection parameters as `(websocket_url, token, channel)`.
pub fn connection_params(ct: ConnectionToken) -> (r: (String, String, String))
    ensures
        r.0 == ct.websocket_url,
        r.1 == ct.token,
        r.2 == ct.channel,
{
    (ct.websocket_url, ct.token, ct.channel)
}

/// `URL_SAFE_NO_PAD.decode` of the `base64` crate. It accepts exactly the unpadded
/// base64url encodings (no `=`, no stray symbol, unused low bits zero) and gives back
/// the encoded bytes.
#[verifier::external_body]
fn base64url_decoded(text: &str) -> (r: Option<Vec<u8>>)
    ensures
        match r {
            Some(b) => base64url_encode(b@) == text@,
            None => forall|b: Seq<u8>| #[trigger] base64url_encode(b) != text@,
        },
{
    base64::engine::general_purpose::URL_SAFE_NO_PAD.decode(text).ok()
}

/// The claims segment of a JWT: the middle one of exactly three `.`-separated parts,
/// without trailing `=`, base64url-decoded.
pub open spec fn jwt_claims(token: Seq<char>) -> Option<Seq<u8>> {
    let parts = split_char(token, '.');
    if parts.len() != 3 {
        None
    } else {
        base64url_decode(trim_end_char(parts[1], '='))
    }
}

/// The `exp` claim of a JWT (seconds since the UNIX epoch), without checking the
/// signature: none when the token is malformed or the claim is missing.
pub open spec fn jwt_expiry(token: Seq<char>) -> Option<u64> {
    match jwt_claims(token) {
        None => None,
        Some(bytes) => match json_node_at_bytes(bytes, "/exp"@) {
            JsonNodeView::Number(Some(n)) => Some(n),
            _ => None,
        },
    }
}

/// Decodes the claims segment of a JWT.
pub fn decode_jwt_claims(token: &str) -> (r: Option<Vec<u8>>)
    ensures
        match r {
            Some(b) => jwt_claims(token@) == Some(b@),
            None => jwt_claims(token@) is None,
        },
{
    let cs = crate::text::chars_of(token);
    let parts = split_bounds(&cs, '.');
    if parts.len() != 3 {
        return None;
    }
    let (lo, hi) = parts[1];
    assert(pieces_of(cs@, parts@)[1] == cs@.subrange(lo as int, hi as int));
    let end = trim_end_len(&cs, lo, hi, '=');
    let raw = crate::text::string_of(&cs, lo, end);
    let r = base64url_decoded(raw.as_str());
    proof {
        if r is Some {
            let c = choose|x: Seq<u8>| base64url_encode(x) == raw@;
            lemma_encode_injective(c, r->0@);
        }
    }
    r
}

/// Extract the `exp` claim from a JWT, returning seconds since the UNIX epoch.
pub fn token_expiry(token: &str) -> (r: Option<u64>)
    ensures
        r == jwt_expiry(token@),
{
    match decode_jwt_claims(token) {
        None => None,
        Some(bytes) => match json_lookup_bytes(bytes.as_slice(), "/exp") {
            JsonNode::Number(Some(n)) => Some(n),
            _ => None,
        },
    }
}

} // verus!
