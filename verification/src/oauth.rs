//! Spotify OAuth (PKCE) helpers: authorization URL, callback request handling,
//! token endpoint responses.
use vstd::prelude::*;
use crate::text::{chars_of, decimal, is_ws, push_char, push_decimal, push_str, str_eq, string_of};
use crate::oauth::urlencoding::{encode, spec_encode};
use crate::json::{json_lookup, json_node_at, JsonNode, JsonNodeView};
use crate::base64url::{base64url_encode, lemma_encode_len};
use vstd::string::StringSliceAdditionalSpecFns;
use vstd::utf8::encode_utf8;
use base64::Engine;
use rand::Rng;
use sha2::Digest;

pub mod callback;
pub mod urlencoding;

verus! {

/// Errors of the OAuth flow.
#[derive(Debug)]
pub enum OAuthError {
    AuthorizationFailed(String),
    TokenExchangeFailed(String),
    TokenRefreshFailed(String),
    InvalidGrant,
    CallbackError(String),
    CallbackTimeout,
    StateMismatch,
    Http(String),
    Io(String),
}

impl OAuthError {
    /// The display text of the error.
    pub open spec fn spec_message(&self) -> Seq<char> {
        match self {
            OAuthError::AuthorizationFailed(m) => "Authorization failed: "@ + m@,
            OAuthError::TokenExchangeFailed(m) => "Token exchange failed: "@ + m@,
            OAuthError::TokenRefreshFailed(m) => "Token refresh failed: "@ + m@,
            OAuthError::InvalidGrant => "Spotify authorization is required"@,
            OAuthError::CallbackError(m) => "Callback listener error: "@ + m@,
            OAuthError::CallbackTimeout => "Callback timed out (user did not complete authorization)"@,
            OAuthError::StateMismatch => "State mismatch (possible CSRF)"@,
            OAuthError::Http(m) => "HTTP error: "@ + m@,
            OAuthError::Io(m) => "IO error: "@ + m@,
        }
    }

    /// Renders the error as text.
    pub fn message(&self) -> (r: String)
        ensures
            r@ == self.spec_message(),
    {
        let mut out = String::new();
        match self {
            OAuthError::AuthorizationFailed(m) => {
                push_str(&mut out, "Authorization failed: ");
                push_str(&mut out, m.as_str());
            },
            OAuthError::TokenExchangeFailed(m) => {
                push_str(&mut out, "Token exchange failed: ");
                push_str(&mut out, m.as_str());
            },
            OAuthError::TokenRefreshFailed(m) => {
                push_str(&mut out, "Token refresh failed: ");
                push_str(&mut out, m.as_str());
            },
            OAuthError::InvalidGrant => push_str(&mut out, "Spotify authorization is required"),
            OAuthError::CallbackError(m) => {
                push_str(&mut out, "Callback listener error: ");
                push_str(&mut out, m.as_str());
            },
            OAuthError::CallbackTimeout => {
                push_str(&mut out, "Callback timed out (user did not complete authorization)")
            },
            OAuthError::StateMismatch => push_str(&mut out, "State mismatch (possible CSRF)"),
            OAuthError::Http(m) => {
                push_str(&mut out, "HTTP error: ");
                push_str(&mut out, m.as_str());
            },
            OAuthError::Io(m) => {
                push_str(&mut out, "IO error: ");
                push_str(&mut out, m.as_str());
            },
        }
        out
    }

    /// True for the structured "refresh token revoked or expired" error.
    pub fn is_invalid_grant(&self) -> (r: bool)
        ensures
            r == (self is InvalidGrant),
    {
        match self {
            OAuthError::InvalidGrant => true,
            _ => false,
        }
    }
}

/// Spotify tokens with the absolute expiry time (seconds since the UNIX epoch).
#[derive(Debug)]
pub struct OAuthTokens {
    pub access_token: String,
    pub refresh_token: String,
    pub expires_at: u64,
}


/// The authorization scopes the relay asks for.
pub open spec fn scopes() -> Seq<char> {
    "user-read-currently-playing user-read-playback-state user-modify-playback-state playlist-read-private playlist-read-collaborative playlist-modify-public playlist-modify-private"@
}

/// The Spotify authorization URL with all PKCE parameters.
pub open spec fn auth_url(client_id: Seq<char>, redirect_uri: Seq<char>, challenge: Seq<char>, state: Seq<char>) -> Seq<char> {
    "https://accounts.spotify.com/authorize?client_id="@ + client_id + "&response_type=code&redirect_uri="@
        + spec_encode(encode_utf8(redirect_uri)) + "&scope="@ + spec_encode(encode_utf8(scopes()))
        + "&code_challenge_method=S256&code_challenge="@ + challenge + "&state="@ + state
}

/// Builds the authorization URL (redirect URI and scopes percent-encoded).
pub fn build_auth_url(client_id: &str, redirect_uri: &str, challenge: &str, state: &str) -> (r: String)
    ensures
        r@ == auth_url(client_id@, redirect_uri@, challenge@, state@),
{
    let scopes = "user-read-currently-playing user-read-playback-state user-modify-playback-state playlist-read-private playlist-read-collaborative playlist-modify-public playlist-modify-private";
    let mut u = String::new();
    push_str(&mut u, "https://accounts.spotify.com/authorize?client_id=");
    push_str(&mut u, client_id);
    push_str(&mut u, "&response_type=code&redirect_uri=");
    push_str(&mut u, encode(redirect_uri).as_str());
    push_str(&mut u, "&scope=");
    push_str(&mut u, encode(scopes).as_str());
    push_str(&mut u, "&code_challenge_method=S256&code_challenge=");
    push_str(&mut u, challenge);
    push_str(&mut u, "&state=");
    push_str(&mut u, state);
    assert(u@ =~= auth_url(client_id@, redirect_uri@, challenge@, state@));
    u
}

/// `rand::thread_rng().gen_range(0..n)`: a uniformly drawn index below `n`.
#[verifier::external_body]
fn random_index(n: usize) -> (r: usize)
    requires
        n > 0,
    ensures
        r < n,
{
    rand::thread_rng().gen_range(0..n)
}

/// The SHA-256 digest of `data` (the `sha2` crate).
pub uninterp spec fn sha256_digest(data: Seq<u8>) -> Seq<u8>;

/// `sha2::Sha256::digest`: the 32-byte SHA-256 digest.
#[verifier::external_body]
fn sha256(data: &[u8]) -> (r: Vec<u8>)
    ensures
        r@ == sha256_digest(data@),
        r@.len() == 32,
{
    sha2::Sha256::digest(data).to_vec()
}

/// `URL_SAFE_NO_PAD.encode` of the `base64` crate: the unpadded base64url encoding.
#[verifier::external_body]
fn base64url(data: &[u8]) -> (r: String)
    requires
        data@.len() <= usize::MAX / 4,
    ensures
        r@ == base64url_encode(data@),
{
    base64::engine::general_purpose::URL_SAFE_NO_PAD.encode(data)
}

/// Characters of a PKCE code verifier: ASCII letters, digits and `-._~`.
pub open spec fn is_verifier_char(c: char) -> bool {
    ('A' <= c <= 'Z') || ('a' <= c <= 'z') || ('0' <= c <= '9') || c == '-' || c == '.' || c == '_' || c == '~'
}

/// Characters of the OAuth `state`: ASCII letters and digits.
pub open spec fn is_state_char(c: char) -> bool {
    ('A' <= c <= 'Z') || ('a' <= c <= 'z') || ('0' <= c <= '9')
}

/// Symbol `i` of the alphabet `A..Z a..z 0..9 - . _ ~` (66 symbols; the first 62
/// are the letters and digits).
pub open spec fn alphabet_symbol(i: int) -> char {
    if i < 26 {
        (65 + i) as char
    } else if i < 52 {
        (97 + (i - 26)) as char
    } else if i < 62 {
        (48 + (i - 52)) as char
    } else if i == 62 {
        '-'
    } else if i == 63 {
        '.'
    } else if i == 64 {
        '_'
    } else {
        '~'
    }
}

/// The 66 characters a code verifier is drawn from: `A..Z a..z 0..9 - . _ ~`.
pub open spec fn verifier_alphabet() -> Seq<char> {
    Seq::new(66, |i: int| alphabet_symbol(i))
}

proof fn lemma_alphabet_symbol(i: int)
    requires
        0 <= i < 66,
    ensures
        is_verifier_char(verifier_alphabet()[i]),
        i < 62 ==> is_state_char(verifier_alphabet()[i]),
{
}

/// Entry `i` of [`verifier_alphabet`].
fn alphabet_char(i: usize) -> (c: char)
    requires
        i < 66,
    ensures
        c == verifier_alphabet()[i as int],
{
    if i < 26 {
        (65 + i as u8) as char
    } else if i < 52 {
        (97 + (i - 26) as u8) as char
    } else if i < 62 {
        (48 + (i - 52) as u8) as char
    } else if i == 62 {
        '-'
    } else if i == 63 {
        '.'
    } else if i == 64 {
        '_'
    } else {
        '~'
    }
}

/// The string whose characters are the alphabet entries at the indices `idx`, the
/// indices drawn from the first `size` entries.
pub fn chars_from_indices(idx: &Vec<usize>, size: usize) -> (r: String)
    requires
        size == 62 || size == 66,
        forall|k: int| 0 <= k < idx@.len() ==> idx@[k] < size,
    ensures
        r@ == idx@.map_values(|i: usize| verifier_alphabet()[i as int]),
        forall|k: int| 0 <= k < r@.len() ==> is_verifier_char(#[trigger] r@[k]),
        size == 62 ==> forall|k: int| 0 <= k < r@.len() ==> is_state_char(#[trigger] r@[k]),
{
    let mut r = String::new();
    let mut k: usize = 0;
    while k < idx.len()
        invariant
            k <= idx@.len(),
            size == 62 || size == 66,
            forall|j: int| 0 <= j < idx@.len() ==> idx@[j] < size,
            r@ == idx@.take(k as int).map_values(|i: usize| verifier_alphabet()[i as int]),
        decreases idx@.len() - k,
    {
        let c = alphabet_char(idx[k]);
        push_char(&mut r, c);
        assert(idx@.take(k + 1).map_values(|i: usize| verifier_alphabet()[i as int])
            =~= idx@.take(k as int).map_values(|i: usize| verifier_alphabet()[i as int]).push(c));
        k = k + 1;
    }
    assert(idx@.take(idx@.len() as int) =~= idx@);
    assert forall|j: int| 0 <= j < r@.len() implies is_verifier_char(#[trigger] r@[j])
        && (size == 62 ==> is_state_char(r@[j])) by {
        lemma_alphabet_symbol(idx@[j] as int);
    }
    r
}

/// `n` characters drawn at random from the first `size` entries of the alphabet.
fn random_string(n: usize, size: usize) -> (r: String)
    requires
        size == 62 || size == 66,
    ensures
        r@.len() == n,
        forall|i: int| 0 <= i < n ==> is_verifier_char(#[trigger] r@[i]),
        size == 62 ==> forall|i: int| 0 <= i < n ==> is_state_char(#[trigger] r@[i]),
{
    let mut idx: Vec<usize> = Vec::new();
    let mut k: usize = 0;
    while k < n
        invariant
            k <= n,
            size == 62 || size == 66,
            idx@.len() == k,
            forall|j: int| 0 <= j < k ==> idx@[j] < size,
        decreases n - k,
    {
        idx.push(random_index(size));
        k = k + 1;
    }
    chars_from_indices(&idx, size)
}

/// A PKCE pair: a random 128-character code verifier and its S256 challenge,
/// the base64url (unpadded) SHA-256 digest of the verifier's bytes.
pub fn generate_pkce() -> (r: (String, String))
    ensures
        r.0@.len() == 128,
        forall|i: int| 0 <= i < 128 ==> is_verifier_char(#[trigger] r.0@[i]),
        r.1@ == base64url_encode(sha256_digest(encode_utf8(r.0@))),
        r.1@.len() == 43,
{
    let verifier = random_string(128, 66);
    let digest = sha256(verifier.as_str().as_bytes());
    let challenge = base64url(digest.as_slice());
    proof {
        lemma_encode_len(digest@);
    }
    (verifier, challenge)
}

/// A random 32-character alphanumeric OAuth `state`.
pub fn generate_state() -> (r: String)
    ensures
        r@.len() == 32,
        forall|i: int| 0 <= i < 32 ==> is_state_char(#[trigger] r@[i]),
{
    random_string(32, 62)
}


/// What the token endpoint granted: tokens and their lifetime in seconds.
#[derive(Debug)]
pub struct TokenGrant {
    pub access_token: String,
    pub refresh_token: String,
    pub expires_in: u64,
}

/// The `error` code of a Spotify error body, when it is JSON with a string `error`.
pub open spec fn spec_error_code(body: Seq<char>) -> Option<Seq<char>> {
    match json_node_at(body, "/error"@) {
        JsonNodeView::Str(s) => Some(s),
        _ => None,
    }
}

/// Reads the `error` code of a Spotify error body.
pub fn spotify_error_code(body: &str) -> (r: Option<String>)
    ensures
        match r {
            Some(c) => spec_error_code(body@) == Some(c@),
            None => spec_error_code(body@) is None,
        },
{
    match json_lookup(body, "/error") {
        JsonNode::Str(s) => Some(s),
        _ => None,
    }
}

/// The token lifetime in a token answer (3600 when absent or not an unsigned integer).
pub open spec fn spec_expires_in(body: Seq<char>) -> u64 {
    match json_node_at(body, "/expires_in"@) {
        JsonNodeView::Number(Some(n)) => n,
        _ => 3600,
    }
}

fn expires_in_of(body: &str) -> (r: u64)
    ensures
        r == spec_expires_in(body@),
{
    match json_lookup(body, "/expires_in") {
        JsonNode::Number(Some(n)) => n,
        _ => 3600,
    }
}

/// `HTTP {status} - {body}`, the text of a failed token request.
pub open spec fn http_failure_text(status_text: Seq<char>, body: Seq<char>) -> Seq<char> {
    "HTTP "@ + status_text + " - "@ + body
}

fn http_failure(status_text: &str, body: &str) -> (r: String)
    ensures
        r@ == http_failure_text(status_text@, body@),
{
    let mut m = String::new();
    push_str(&mut m, "HTTP ");
    push_str(&mut m, status_text);
    push_str(&mut m, " - ");
    push_str(&mut m, body);
    m
}

/// Whether an HTTP status is a success (2xx).
pub open spec fn is_success(status: u16) -> bool {
    200 <= status <= 299
}

/// The outcome of the authorization-code exchange, from the token endpoint's answer
/// (`status`, its display text such as `400 Bad Request`, and the body): a failure
/// status is a `TokenExchangeFailed`; a body that is not JSON an `Http` decoding
/// error; the access and refresh tokens are required strings.
pub fn exchange_grant(status: u16, status_text: &str, body: &str) -> (r: Result<TokenGrant, OAuthError>)
    ensures
        !is_success(status) ==> (r matches Err(OAuthError::TokenExchangeFailed(m))
            && m@ == http_failure_text(status_text@, body@)),
        is_success(status) ==> match (json_node_at(body@, "/access_token"@), json_node_at(body@, "/refresh_token"@)) {
            (JsonNodeView::Invalid, _) => r matches Err(OAuthError::Http(m)) && m@ == "error decoding response body"@,
            (JsonNodeView::Str(a), JsonNodeView::Str(rt)) => r matches Ok(g) && g.access_token@ == a
                && g.refresh_token@ == rt && g.expires_in == spec_expires_in(body@),
            (JsonNodeView::Str(_), _) => r matches Err(OAuthError::TokenExchangeFailed(m))
                && m@ == "Missing refresh_token"@,
            _ => r matches Err(OAuthError::TokenExchangeFailed(m)) && m@ == "Missing access_token"@,
        },
{
    if !(200 <= status && status <= 299) {
        return Err(OAuthError::TokenExchangeFailed(http_failure(status_text, body)));
    }
    let access = match json_lookup(body, "/access_token") {
        JsonNode::Invalid => {
            return Err(OAuthError::Http("error decoding response body".to_owned()));
        },
        JsonNode::Str(a) => a,
        _ => {
            return Err(OAuthError::TokenExchangeFailed("Missing access_token".to_owned()));
        },
    };
    let refresh = match json_lookup(body, "/refresh_token") {
        JsonNode::Str(t) => t,
        _ => {
            return Err(OAuthError::TokenExchangeFailed("Missing refresh_token".to_owned()));
        },
    };
    Ok(TokenGrant { access_token: access, refresh_token: refresh, expires_in: expires_in_of(body) })
}

/// The outcome of a token refresh, from the token endpoint's answer: a failure status
/// whose body carries the code `invalid_grant` is `InvalidGrant`, any other failure a
/// `TokenRefreshFailed`; on success the access token is required and the refresh token
/// is the returned one, or else the one that was used.
pub fn refresh_grant(status: u16, status_text: &str, body: &str, used_refresh_token: &str) -> (r: Result<TokenGrant, OAuthError>)
    ensures
        !is_success(status) && spec_error_code(body@) == Some("invalid_grant"@) ==> r matches Err(OAuthError::InvalidGrant),
        !is_success(status) && spec_error_code(body@) != Some("invalid_grant"@) ==> (r matches Err(OAuthError::TokenRefreshFailed(m))
            && m@ == http_failure_text(status_text@, body@)),
        is_success(status) ==> match json_node_at(body@, "/access_token"@) {
            JsonNodeView::Invalid => r matches Err(OAuthError::Http(m)) && m@ == "error decoding response body"@,
            JsonNodeView::Str(a) => r matches Ok(g) && g.access_token@ == a
                && g.refresh_token@ == (match json_node_at(body@, "/refresh_token"@) {
                    JsonNodeView::Str(t) => t,
                    _ => used_refresh_token@,
                })
                && g.expires_in == spec_expires_in(body@),
            _ => r matches Err(OAuthError::TokenRefreshFailed(m)) && m@ == "Missing access_token"@,
        },
{
    if !(200 <= status && status <= 299) {
        let invalid = match spotify_error_code(body) {
            Some(c) => str_eq(c.as_str(), "invalid_grant"),
            None => false,
        };
        if invalid {
            return Err(OAuthError::InvalidGrant);
        }
        return Err(OAuthError::TokenRefreshFailed(http_failure(status_text, body)));
    }
    let access = match json_lookup(body, "/access_token") {
        JsonNode::Invalid => {
            return Err(OAuthError::Http("error decoding response body".to_owned()));
        },
        JsonNode::Str(a) => a,
        _ => {
            return Err(OAuthError::TokenRefreshFailed("Missing access_token".to_owned()));
        },
    };
    let refresh = match json_lookup(body, "/refresh_token") {
        JsonNode::Str(t) => t,
        _ => used_refresh_token.to_owned(),
    };
    Ok(TokenGrant { access_token: access, refresh_token: refresh, expires_in: expires_in_of(body) })
}

impl TokenGrant {
    /// The tokens of this grant, received at time `now` (seconds since the UNIX epoch).
    pub fn tokens_at(self, now: u64) -> (r: OAuthTokens)
        requires
            now + self.expires_in <= u64::MAX,
        ensures
            r.access_token == self.access_token,
            r.refresh_token == self.refresh_token,
            r.expires_at == now + self.expires_in,
    {
        OAuthTokens { access_token: self.access_token, refresh_token: self.refresh_token, expires_at: now + self.expires_in }
    }
}

/// The form fields of the authorization-code exchange.
pub fn exchange_form(client_id: &str, code: &str, redirect_uri: &str, code_verifier: &str) -> (r: Vec<(&'static str, String)>)
    ensures
        r@.len() == 5,
        r@[0].0@ == "grant_type"@ && r@[0].1@ == "authorization_code"@,
        r@[1].0@ == "code"@ && r@[1].1@ == code@,
        r@[2].0@ == "redirect_uri"@ && r@[2].1@ == redirect_uri@,
        r@[3].0@ == "client_id"@ && r@[3].1@ == client_id@,
        r@[4].0@ == "code_verifier"@ && r@[4].1@ == code_verifier@,
{
    let mut v: Vec<(&'static str, String)> = Vec::new();
    v.push(("grant_type", "authorization_code".to_owned()));
    v.push(("code", code.to_owned()));
    v.push(("redirect_uri", redirect_uri.to_owned()));
    v.push(("client_id", client_id.to_owned()));
    v.push(("code_verifier", code_verifier.to_owned()));
    v
}

/// The form fields of a token refresh.
pub fn refresh_form(client_id: &str, refresh_token: &str) -> (r: Vec<(&'static str, String)>)
    ensures
        r@.len() == 3,
        r@[0].0@ == "grant_type"@ && r@[0].1@ == "refresh_token"@,
        r@[1].0@ == "refresh_token"@ && r@[1].1@ == refresh_token@,
        r@[2].0@ == "client_id"@ && r@[2].1@ == client_id@,
{
    let mut v: Vec<(&'static str, String)> = Vec::new();
    v.push(("grant_type", "refresh_token".to_owned()));
    v.push(("refresh_token", refresh_token.to_owned()));
    v.push(("client_id", client_id.to_owned()));
    v
}

} // verus!
