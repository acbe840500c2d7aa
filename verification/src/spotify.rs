//! Spotify Web API: response data, errors, token state and request planning.
//! The HTTP exchange itself is performed by the caller.
use vstd::prelude::*;
use crate::oauth::{OAuthError, OAuthTokens};
use crate::text::{decimal, push_decimal, push_decimal_u128, push_str, push_char};
use crate::oauth::urlencoding::{encode, spec_encode};
use crate::json::{json_array_of, json_quote, json_string, json_string_array, strings_view, json_lookup, JsonNode, json_node_at, JsonNodeView};
use vstd::string::StringSliceAdditionalSpecFns;

verus! {

#[derive(Debug)]
pub struct Artist {
    pub id: String,
    pub name: String,
}

#[derive(Debug)]
pub struct Image {
    pub url: String,
    pub height: Option<u32>,
    pub width: Option<u32>,
}

#[derive(Debug)]
pub struct Album {
    pub id: String,
    pub name: String,
    pub images: Vec<Image>,
}

#[derive(Debug)]
pub struct Track {
    pub id: String,
    pub name: String,
    pub uri: String,
    pub duration_ms: u64,
    pub artists: Vec<Artist>,
    pub album: Album,
    pub popularity: u32,
}

#[derive(Debug)]
pub struct NowPlaying {
    pub is_playing: bool,
    pub progress_ms: Option<u64>,
    pub item: Option<Track>,
}

#[derive(Debug)]
pub struct QueueResponse {
    pub currently_playing: Option<Track>,
    pub queue: Vec<Track>,
}

#[derive(Debug)]
pub struct SearchTracks {
    pub items: Vec<Track>,
    pub total: u32,
}

#[derive(Debug)]
pub struct SearchResponse {
    pub tracks: SearchTracks,
}

#[derive(Debug)]
pub struct PlaybackContext {
    pub context_type: String,
    pub uri: String,
}

#[derive(Debug)]
pub struct Device {
    pub id: Option<String>,
    pub name: String,
    pub is_active: bool,
    pub volume_percent: Option<u32>,
}

#[derive(Debug)]
pub struct PlaybackState {
    pub is_playing: bool,
    pub progress_ms: Option<u64>,
    pub item: Option<Track>,
    pub context: Option<PlaybackContext>,
    pub shuffle_state: Option<bool>,
    pub device: Option<Device>,
}

#[derive(Debug)]
pub struct PlaylistItem {
    pub track: Option<Track>,
}

#[derive(Debug)]
pub struct PlaylistTracksResponse {
    pub items: Vec<PlaylistItem>,
    pub total: u32,
}

#[derive(Debug)]
pub struct ExternalUrls {
    pub spotify: String,
}

#[derive(Debug)]
pub struct CreatePlaylistResponse {
    pub id: String,
    pub external_urls: ExternalUrls,
}

#[derive(Debug)]
pub struct UserProfile {
    pub id: String,
    pub display_name: Option<String>,
}

#[derive(Debug)]
pub struct ArtistDetail {
    pub id: String,
    pub name: String,
    pub genres: Vec<String>,
    pub popularity: u32,
}

#[derive(Debug)]
pub struct GetArtistsResponse {
    pub artists: Vec<Option<ArtistDetail>>,
}

#[derive(Debug)]
pub struct PlaylistOwner {
    pub id: String,
    pub display_name: Option<String>,
}

#[derive(Debug)]
pub struct PlaylistTracksTotal {
    pub total: u32,
}

#[derive(Debug)]
pub struct PlaylistDetails {
    pub id: String,
    pub name: String,
    pub owner: PlaylistOwner,
    pub tracks: PlaylistTracksTotal,
    pub external_urls: ExternalUrls,
}

/// Errors of Spotify API calls.
#[derive(Debug)]
pub enum SpotifyError {
    NotAuthenticated,
    Api { status: u16, message: String },
    RefreshFailed(String),
    Http(String),
}

impl SpotifyError {
    /// The display text of the error.
    pub open spec fn spec_message(&self) -> Seq<char> {
        match self {
            SpotifyError::NotAuthenticated => "Not authenticated"@,
            SpotifyError::Api { status, message } =>
                "Spotify API error: "@ + decimal(*status as nat) + " "@ + message@,
            SpotifyError::RefreshFailed(m) => "Token refresh failed: "@ + m@,
            SpotifyError::Http(m) => "HTTP error: "@ + m@,
        }
    }

    /// Renders the error as text.
    pub fn message(&self) -> (r: String)
        ensures
            r@ == self.spec_message(),
    {
        let mut out = String::new();
        match self {
            SpotifyError::NotAuthenticated => push_str(&mut out, "Not authenticated"),
            SpotifyError::Api { status, message } => {
                push_str(&mut out, "Spotify API error: ");
                push_decimal(&mut out, *status as u64);
                push_str(&mut out, " ");
                push_str(&mut out, message.as_str());
            },
            SpotifyError::RefreshFailed(m) => {
                push_str(&mut out, "Token refresh failed: ");
                push_str(&mut out, m.as_str());
            },
            SpotifyError::Http(m) => {
                push_str(&mut out, "HTTP error: ");
                push_str(&mut out, m.as_str());
            },
        }
        out
    }
}

/// The token is treated as expired 60 seconds before `expires_at`.
pub open spec fn token_expired(expires_at: u64, now: u64) -> bool {
    now >= (if expires_at >= 60 { expires_at - 60 } else { 0 })
}

/// What to do before sending an API request.
#[derive(Debug)]
pub enum TokenAction {
    /// Send with this access token.
    Use(String),
    /// Refresh first, with this refresh token.
    Refresh(String),
    /// The call cannot be made.
    Fail(SpotifyError),
}

/// Token state of the Spotify client, plus the cached user profile.
#[derive(Debug)]
pub struct SpotifyClient {
    pub client_id: String,
    pub access_token: Option<String>,
    pub refresh_token: Option<String>,
    pub expires_at: u64,
    /// Set when a token refresh occurs, cleared by `take_refreshed_token`.
    pub pending_refresh_token: Option<String>,
    pub cached_user: Option<UserProfile>,
}

impl SpotifyClient {
    pub fn new(client_id: String) -> (r: Self)
        ensures
            r.client_id == client_id,
            r.access_token is None,
            r.refresh_token is None,
            r.expires_at == 0,
            r.pending_refresh_token is None,
            r.cached_user is None,
    {
        SpotifyClient {
            client_id,
            access_token: None,
            refresh_token: None,
            expires_at: 0,
            pending_refresh_token: None,
            cached_user: None,
        }
    }

    /// Installs freshly obtained tokens.
    pub fn set_tokens(&mut self, tokens: &OAuthTokens)
        ensures
            final(self).access_token == Some(tokens.access_token),
            final(self).refresh_token == Some(tokens.refresh_token),
            final(self).expires_at == tokens.expires_at,
            final(self).client_id == old(self).client_id,
            final(self).pending_refresh_token == old(self).pending_refresh_token,
            final(self).cached_user == old(self).cached_user,
    {
        self.access_token = Some(tokens.access_token.clone());
        self.refresh_token = Some(tokens.refresh_token.clone());
        self.expires_at = tokens.expires_at;
    }

    /// Whether an access token is held.
    pub fn has_tokens(&self) -> (r: bool)
        ensures
            r == self.access_token is Some,
    {
        self.access_token.is_some()
    }

    /// Whether a token expiring at `expires_at` must be refreshed at time `now`.
    pub fn is_expired(expires_at: u64, now: u64) -> (r: bool)
        ensures
            r == token_expired(expires_at, now),
    {
        now >= expires_at.saturating_sub(60)
    }

    /// Decides how to obtain a valid access token at time `now`.
    pub fn token_action(&self, now: u64) -> (r: TokenAction)
        ensures
            !token_expired(self.expires_at, now) ==> match self.access_token {
                Some(a) => r matches TokenAction::Use(t) && t == a,
                None => r matches TokenAction::Fail(SpotifyError::NotAuthenticated),
            },
            token_expired(self.expires_at, now) ==> match self.refresh_token {
                Some(rt) => r matches TokenAction::Refresh(t) && t == rt,
                None => r matches TokenAction::Fail(SpotifyError::NotAuthenticated),
            },
    {
        if !Self::is_expired(self.expires_at, now) {
            match &self.access_token {
                Some(a) => TokenAction::Use(a.clone()),
                None => TokenAction::Fail(SpotifyError::NotAuthenticated),
            }
        } else {
            match &self.refresh_token {
                Some(rt) => TokenAction::Refresh(rt.clone()),
                None => TokenAction::Fail(SpotifyError::NotAuthenticated),
            }
        }
    }

    /// Records the outcome of a token refresh and returns the access token to use.
    pub fn finish_refresh(&mut self, outcome: Result<OAuthTokens, OAuthError>) -> (r: Result<String, SpotifyError>)
        ensures
            match outcome {
                Ok(t) => {
                    &&& r matches Ok(a) && a == t.access_token
                    &&& final(self).access_token == Some(t.access_token)
                    &&& final(self).refresh_token == Some(t.refresh_token)
                    &&& final(self).expires_at == t.expires_at
                    &&& final(self).pending_refresh_token == Some(t.refresh_token)
                },
                Err(e) => {
                    &&& r matches Err(SpotifyError::RefreshFailed(m)) && m@ == e.spec_message()
                    &&& final(self).access_token == old(self).access_token
                    &&& final(self).refresh_token == old(self).refresh_token
                    &&& final(self).expires_at == old(self).expires_at
                    &&& final(self).pending_refresh_token == old(self).pending_refresh_token
                },
            },
            final(self).client_id == old(self).client_id,
            final(self).cached_user == old(self).cached_user,
    {
        match outcome {
            Ok(t) => {
                let access = t.access_token.clone();
                self.access_token = Some(t.access_token);
                self.refresh_token = Some(t.refresh_token.clone());
                self.expires_at = t.expires_at;
                self.pending_refresh_token = Some(t.refresh_token);
                Ok(access)
            },
            Err(e) => Err(SpotifyError::RefreshFailed(e.message())),
        }
    }

    /// Forces a refresh on the next `token_action` call (used after a 401).
    pub fn invalidate_token(&mut self)
        ensures
            final(self).expires_at == 0,
            final(self).access_token == old(self).access_token,
            final(self).refresh_token == old(self).refresh_token,
            final(self).pending_refresh_token == old(self).pending_refresh_token,
            final(self).client_id == old(self).client_id,
            final(self).cached_user == old(self).cached_user,
    {
        self.expires_at = 0;
    }

    /// Returns the refresh token from the most recent token refresh, if any, and clears
    /// it so that the caller persists it exactly once.
    pub fn take_refreshed_token(&mut self) -> (r: Option<String>)
        ensures
            r == old(self).pending_refresh_token,
            final(self).pending_refresh_token is None,
            final(self).access_token == old(self).access_token,
            final(self).refresh_token == old(self).refresh_token,
            final(self).expires_at == old(self).expires_at,
            final(self).client_id == old(self).client_id,
            final(self).cached_user == old(self).cached_user,
    {
        self.pending_refresh_token.take()
    }

    /// After a response with `status`: whether to retry once with a refreshed token.
    /// The first 401 answer invalidates the token and asks for the retry.
    pub fn retry_after_status(&mut self, status: u16, already_retried: bool) -> (r: bool)
        ensures
            r == (status == 401 && !already_retried),
            r ==> final(self).expires_at == 0,
            !r ==> final(self).expires_at == old(self).expires_at,
            final(self).access_token == old(self).access_token,
            final(self).refresh_token == old(self).refresh_token,
            final(self).pending_refresh_token == old(self).pending_refresh_token,
            final(self).client_id == old(self).client_id,
            final(self).cached_user == old(self).cached_user,
    {
        if status == 401 && !already_retried {
            self.invalidate_token();
            true
        } else {
            false
        }
    }

    /// The cached profile of the current user, if one was fetched this session; a
    /// command then answers from it without a request.
    pub fn cached_profile(&self) -> (r: Option<UserProfile>)
        ensures
            r == self.cached_user,
    {
        match &self.cached_user {
            Some(p) => Some(UserProfile {
                id: p.id.clone(),
                display_name: match &p.display_name {
                    Some(d) => Some(d.clone()),
                    None => None,
                },
            }),
            None => None,
        }
    }

    /// Caches the current user's profile for the rest of the session.
    pub fn cache_user(&mut self, profile: UserProfile)
        ensures
            final(self).cached_user == Some(profile),
            final(self).access_token == old(self).access_token,
            final(self).refresh_token == old(self).refresh_token,
            final(self).expires_at == old(self).expires_at,
            final(self).pending_refresh_token == old(self).pending_refresh_token,
            final(self).client_id == old(self).client_id,
    {
        self.cached_user = Some(profile);
    }
}

/// Success statuses: 2xx (204 included).
pub open spec fn status_ok(status: u16) -> bool {
    200 <= status <= 299
}

/// Maps an HTTP status and body to the outcome of an API call.
pub fn check_response(status: u16, body: String) -> (r: Result<(), SpotifyError>)
    ensures
        status_ok(status) ==> r is Ok,
        !status_ok(status) ==> (r matches Err(SpotifyError::Api { status: s, message: m })
            && s == status && m == body),
{
    if (200 <= status && status <= 299) || status == 204 {
        Ok(())
    } else {
        Err(SpotifyError::Api { status, message: body })
    }
}


/// HTTP methods used against the Spotify API.
#[derive(Debug)]
pub enum HttpMethod {
    Get,
    Post,
    Put,
    Delete,
}

/// The body of an API request.
#[derive(Debug)]
pub enum RequestBody {
    /// No body at all (GET).
    NoBody,
    /// An empty body sent with `Content-Length: 0`.
    Empty,
    /// A JSON body.
    Json(String),
}

/// A planned Spotify API request; the caller adds the bearer token and sends it.
#[derive(Debug)]
pub struct ApiRequest {
    pub method: HttpMethod,
    pub url: String,
    pub body: RequestBody,
}

/// The Spotify Web API base URL followed by `path`.
pub open spec fn api_url(path: Seq<char>) -> Seq<char> {
    "https://api.spotify.com/v1"@ + path
}

fn api(path: &str) -> (r: String)
    ensures
        r@ == api_url(path@),
{
    let mut u = String::new();
    push_str(&mut u, "https://api.spotify.com/v1");
    push_str(&mut u, path);
    u
}

fn get(url: String) -> (r: ApiRequest)
    ensures
        r.method is Get,
        r.url == url,
        r.body is NoBody,
{
    ApiRequest { method: HttpMethod::Get, url, body: RequestBody::NoBody }
}

/// The smaller of `a` and `b`.
pub open spec fn min_u32(a: u32, b: u32) -> u32 {
    if a < b { a } else { b }
}

/// `GET /me/player/currently-playing`.
pub fn now_playing_request() -> (r: ApiRequest)
    ensures
        r.method is Get,
        r.url@ == api_url("/me/player/currently-playing"@),
        r.body is NoBody,
{
    get(api("/me/player/currently-playing"))
}

/// `GET /me/player/queue`.
pub fn queue_request() -> (r: ApiRequest)
    ensures
        r.method is Get,
        r.url@ == api_url("/me/player/queue"@),
        r.body is NoBody,
{
    get(api("/me/player/queue"))
}

/// `GET /me/player`.
pub fn playback_state_request() -> (r: ApiRequest)
    ensures
        r.method is Get,
        r.url@ == api_url("/me/player"@),
        r.body is NoBody,
{
    get(api("/me/player"))
}

/// `GET /me`.
pub fn current_user_request() -> (r: ApiRequest)
    ensures
        r.method is Get,
        r.url@ == api_url("/me"@),
        r.body is NoBody,
{
    get(api("/me"))
}

/// The search URL: the query percent-encoded, tracks only, at most 50 results.
pub open spec fn search_url(query: Seq<u8>, limit: u32) -> Seq<char> {
    api_url("/search?q="@ + spec_encode(query) + "&type=track&limit="@ + decimal(min_u32(limit, 50) as nat))
}

/// `GET /search?q=..&type=track&limit=..`.
pub fn search_request(query: &str, limit: u32) -> (r: ApiRequest)
    ensures
        r.method is Get,
        r.url@ == search_url(query.spec_bytes(), limit),
        r.body is NoBody,
{
    let mut path = String::new();
    push_str(&mut path, "/search?q=");
    push_str(&mut path, encode(query).as_str());
    push_str(&mut path, "&type=track&limit=");
    push_decimal(&mut path, (if limit < 50 { limit } else { 50 }) as u64);
    let r = get(api(path.as_str()));
    assert(r.url@ =~= search_url(query.spec_bytes(), limit));
    r
}

/// `POST /me/player/queue?uri=..` with an empty body.
pub fn add_to_queue_request(track_uri: &str) -> (r: ApiRequest)
    ensures
        r.method is Post,
        r.url@ == api_url("/me/player/queue?uri="@ + spec_encode(track_uri.spec_bytes())),
        r.body is Empty,
{
    let mut path = String::new();
    push_str(&mut path, "/me/player/queue?uri=");
    push_str(&mut path, encode(track_uri).as_str());
    ApiRequest { method: HttpMethod::Post, url: api(path.as_str()), body: RequestBody::Empty }
}

/// The URL of a playlist page, with the `fields` filter of the track listing.
pub open spec fn playlist_tracks_url(playlist_id: Seq<char>, offset: u32, limit: u32) -> Seq<char> {
    api_url("/playlists/"@ + playlist_id + "/tracks?offset="@ + decimal(offset as nat) + "&limit="@
        + decimal(min_u32(limit, 100) as nat)
        + "&fields=items(track(id,name,uri,duration_ms,artists(id,name),album(id,name,images))),total"@)
}

/// `GET /playlists/{id}/tracks?offset=..&limit=..&fields=..` (limit at most 100).
pub fn playlist_tracks_request(playlist_id: &str, offset: u32, limit: u32) -> (r: ApiRequest)
    ensures
        r.method is Get,
        r.url@ == playlist_tracks_url(playlist_id@, offset, limit),
        r.body is NoBody,
{
    let mut path = String::new();
    push_str(&mut path, "/playlists/");
    push_str(&mut path, playlist_id);
    push_str(&mut path, "/tracks?offset=");
    push_decimal(&mut path, offset as u64);
    push_str(&mut path, "&limit=");
    push_decimal(&mut path, (if limit < 100 { limit } else { 100 }) as u64);
    push_str(&mut path, "&fields=items(track(id,name,uri,duration_ms,artists(id,name),album(id,name,images))),total");
    let r = get(api(path.as_str()));
    assert(r.url@ =~= playlist_tracks_url(playlist_id@, offset, limit));
    r
}

/// The URL of the tracks of a playlist.
pub open spec fn tracks_url(playlist_id: Seq<char>) -> Seq<char> {
    api_url("/playlists/"@ + playlist_id + "/tracks"@)
}

fn tracks_endpoint(playlist_id: &str) -> (r: String)
    ensures
        r@ == tracks_url(playlist_id@),
{
    let mut path = String::new();
    push_str(&mut path, "/playlists/");
    push_str(&mut path, playlist_id);
    push_str(&mut path, "/tracks");
    let r = api(path.as_str());
    assert(r@ =~= tracks_url(playlist_id@));
    r
}

/// The number of batches of at most 100 items needed for `n` items.
pub open spec fn num_batches(n: int) -> int {
    n / 100 + if n % 100 != 0 { 1int } else { 0int }
}

/// The end of batch `j` of `n` items (batch `j` starts at `100 * j`).
pub open spec fn batch_end(j: int, n: int) -> int {
    if n - 100 * j > 100 { 100 * j + 100 } else { n }
}

/// Batch `j` of `items`.
pub open spec fn batch<A>(items: Seq<A>, j: int) -> Seq<A> {
    items.subrange(100 * j, batch_end(j, items.len() as int))
}

/// The body `{"position":..,"uris":[..]}` (position omitted when absent).
pub open spec fn uris_body(uris: Seq<Seq<char>>, position: Option<nat>) -> Seq<char> {
    match position {
        Some(p) => "{\"position\":"@ + decimal(p as nat) + ",\"uris\":"@ + json_string_array(uris) + "}"@,
        None => "{\"uris\":"@ + json_string_array(uris) + "}"@,
    }
}

/// The insert position of batch `j` when the whole list goes in at `position`: each
/// batch lands right after the one before it, so the tracks keep their order.
pub open spec fn batch_position(position: Option<u32>, j: int) -> Option<nat> {
    match position {
        Some(p) => Some((p + 100 * j) as nat),
        None => None,
    }
}

pub proof fn lemma_batch_bounds(j: int, n: int)
    requires
        0 <= j < num_batches(n),
        0 <= n,
    ensures
        0 <= 100 * j < n,
        100 * j < batch_end(j, n) <= n,
        batch_end(j, n) - 100 * j <= 100,
        j + 1 < num_batches(n) <==> batch_end(j, n) < n,
        j + 1 < num_batches(n) ==> batch_end(j, n) == 100 * (j + 1),
{
    assert(0 <= 100 * j < n) by (nonlinear_arith)
        requires
            0 <= j < n / 100 + if n % 100 != 0 { 1int } else { 0int },
            0 <= n,
    {
        assert(n == 100 * (n / 100) + n % 100);
    }
    assert(j + 1 < num_batches(n) <==> n - 100 * j > 100) by (nonlinear_arith)
        requires
            0 <= j < n / 100 + if n % 100 != 0 { 1int } else { 0int },
            0 <= n,
    {
        assert(n == 100 * (n / 100) + n % 100);
    }
}

fn uris_json_body(uris: &Vec<String>, lo: usize, hi: usize, position: Option<u128>) -> (r: String)
    requires
        lo <= hi <= uris@.len(),
    ensures
        r@ == uris_body(
            strings_view(uris@.subrange(lo as int, hi as int)),
            match position { Some(p) => Some(p as nat), None => None },
        ),
{
    let mut b = String::new();
    match position {
        Some(p) => {
            push_str(&mut b, "{\"position\":");
            push_decimal_u128(&mut b, p);
            push_str(&mut b, ",\"uris\":");
        },
        None => push_str(&mut b, "{\"uris\":"),
    }
    push_str(&mut b, json_array_of(uris.as_slice(), lo, hi).as_str());
    push_str(&mut b, "}");
    b
}

fn batch_count(n: usize) -> (r: usize)
    ensures
        r == num_batches(n as int),
{
    n / 100 + if n % 100 != 0 { 1 } else { 0 }
}

/// One `POST /playlists/{id}/tracks` request per batch of 100 URIs. With an insert
/// position `p`, batch `j` goes in at `p + 100 * j`, so the URIs end up at `p` in order.
pub fn add_to_playlist_requests(playlist_id: &str, uris: &Vec<String>, position: Option<u32>) -> (r: Vec<ApiRequest>)
    ensures
        r@.len() == num_batches(uris@.len() as int),
        forall|j: int| 0 <= j < r@.len() ==> {
            &&& (#[trigger] r@[j]).method is Post
            &&& r@[j].url@ == tracks_url(playlist_id@)
            &&& r@[j].body matches RequestBody::Json(b)
                && b@ == uris_body(strings_view(batch(uris@, j)), batch_position(position, j))
        },
{
    let n = uris.len();
    let nb = batch_count(n);
    let mut out: Vec<ApiRequest> = Vec::new();
    let mut j: usize = 0;
    while j < nb
        invariant
            n == uris@.len(),
            nb == num_batches(n as int),
            j <= nb,
            out@.len() == j,
            forall|k: int| 0 <= k < j ==> {
                &&& (#[trigger] out@[k]).method is Post
                &&& out@[k].url@ == tracks_url(playlist_id@)
                &&& out@[k].body matches RequestBody::Json(b)
                    && b@ == uris_body(strings_view(batch(uris@, k)), batch_position(position, k))
            },
        decreases nb - j,
    {
        proof { lemma_batch_bounds(j as int, n as int); }
        let start = 100 * j;
        let end = if n - start > 100 { start + 100 } else { n };
        let at: Option<u128> = match position {
            Some(p) => Some(p as u128 + start as u128),
            None => None,
        };
        let body = uris_json_body(uris, start, end, at);
        out.push(ApiRequest { method: HttpMethod::Post, url: tracks_endpoint(playlist_id), body: RequestBody::Json(body) });
        j = j + 1;
    }
    out
}

/// The comma-separated objects `{"uri":..}` of `uris`.
pub open spec fn uri_objects(uris: Seq<Seq<char>>) -> Seq<char>
    decreases uris.len(),
{
    if uris.len() == 0 {
        Seq::empty()
    } else if uris.len() == 1 {
        "{\"uri\":"@ + json_string(uris[0]) + "}"@
    } else {
        uri_objects(uris.drop_last()) + ","@ + "{\"uri\":"@ + json_string(uris.last()) + "}"@
    }
}

/// The body `{"tracks":[{"uri":..},..]}` of a removal.
pub open spec fn remove_body(uris: Seq<Seq<char>>) -> Seq<char> {
    "{\"tracks\":["@ + uri_objects(uris) + "]}"@
}

fn remove_json_body(uris: &Vec<String>, lo: usize, hi: usize) -> (r: String)
    requires
        lo <= hi <= uris@.len(),
    ensures
        r@ == remove_body(strings_view(uris@.subrange(lo as int, hi as int))),
{
    let mut b = String::new();
    push_str(&mut b, "{\"tracks\":[");
    let ghost start = b@;
    let mut i = lo;
    while i < hi
        invariant
            lo <= i <= hi <= uris@.len(),
            start == "{\"tracks\":["@,
            b@ == start + uri_objects(strings_view(uris@.subrange(lo as int, i as int))),
        decreases hi - i,
    {
        let ghost before = strings_view(uris@.subrange(lo as int, i as int));
        let ghost after = strings_view(uris@.subrange(lo as int, i + 1));
        assert(after.drop_last() =~= before);
        assert(after.last() == uris@[i as int]@);
        if i > lo {
            push_str(&mut b, ",");
        }
        push_str(&mut b, "{\"uri\":");
        push_str(&mut b, json_quote(uris[i].as_str()).as_str());
        push_str(&mut b, "}");
        i = i + 1;
    }
    push_str(&mut b, "]}");
    b
}

/// One `DELETE /playlists/{id}/tracks` request per batch of 100 URIs.
pub fn remove_from_playlist_requests(playlist_id: &str, uris: &Vec<String>) -> (r: Vec<ApiRequest>)
    ensures
        r@.len() == num_batches(uris@.len() as int),
        forall|j: int| 0 <= j < r@.len() ==> {
            &&& (#[trigger] r@[j]).method is Delete
            &&& r@[j].url@ == tracks_url(playlist_id@)
            &&& r@[j].body matches RequestBody::Json(b) && b@ == remove_body(strings_view(batch(uris@, j)))
        },
{
    let n = uris.len();
    let nb = batch_count(n);
    let mut out: Vec<ApiRequest> = Vec::new();
    let mut j: usize = 0;
    while j < nb
        invariant
            n == uris@.len(),
            nb == num_batches(n as int),
            j <= nb,
            out@.len() == j,
            forall|k: int| 0 <= k < j ==> {
                &&& (#[trigger] out@[k]).method is Delete
                &&& out@[k].url@ == tracks_url(playlist_id@)
                &&& out@[k].body matches RequestBody::Json(b) && b@ == remove_body(strings_view(batch(uris@, k)))
            },
        decreases nb - j,
    {
        proof { lemma_batch_bounds(j as int, n as int); }
        let start = 100 * j;
        let end = if n - start > 100 { start + 100 } else { n };
        let body = remove_json_body(uris, start, end);
        out.push(ApiRequest { method: HttpMethod::Delete, url: tracks_endpoint(playlist_id), body: RequestBody::Json(body) });
        j = j + 1;
    }
    out
}

/// Replacing a playlist: a `PUT` with the first 100 URIs (possibly none), then one
/// `POST` per further batch of 100.
pub fn replace_playlist_requests(playlist_id: &str, uris: &Vec<String>) -> (r: Vec<ApiRequest>)
    ensures
        r@.len() == if uris@.len() == 0 { 1 } else { num_batches(uris@.len() as int) },
        r@[0].method is Put,
        r@[0].url@ == tracks_url(playlist_id@),
        r@[0].body matches RequestBody::Json(b) && b@ == uris_body(strings_view(batch(uris@, 0)), None),
        forall|j: int| 1 <= j < r@.len() ==> {
            &&& (#[trigger] r@[j]).method is Post
            &&& r@[j].url@ == tracks_url(playlist_id@)
            &&& r@[j].body matches RequestBody::Json(b) && b@ == uris_body(strings_view(batch(uris@, j)), None)
        },
{
    let n = uris.len();
    let nb = batch_count(n);
    let first_end = if n > 100 { 100 } else { n };
    let mut out: Vec<ApiRequest> = Vec::new();
    out.push(ApiRequest {
        method: HttpMethod::Put,
        url: tracks_endpoint(playlist_id),
        body: RequestBody::Json(uris_json_body(uris, 0, first_end, None)),
    });
    let mut j: usize = 1;
    while j < nb
        invariant
            n == uris@.len(),
            nb == num_batches(n as int),
            1 <= j,
            j <= nb || (n == 0 && j == 1),
            out@.len() == j,
            out@[0].method is Put,
            out@[0].url@ == tracks_url(playlist_id@),
            out@[0].body matches RequestBody::Json(b) && b@ == uris_body(strings_view(batch(uris@, 0)), None),
            forall|k: int| 1 <= k < j ==> {
                &&& (#[trigger] out@[k]).method is Post
                &&& out@[k].url@ == tracks_url(playlist_id@)
                &&& out@[k].body matches RequestBody::Json(b) && b@ == uris_body(strings_view(batch(uris@, k)), None)
            },
        decreases nb - j,
    {
        proof { lemma_batch_bounds(j as int, n as int); }
        let start = 100 * j;
        let end = if n - start > 100 { start + 100 } else { n };
        let body = uris_json_body(uris, start, end, None);
        out.push(ApiRequest { method: HttpMethod::Post, url: tracks_endpoint(playlist_id), body: RequestBody::Json(body) });
        j = j + 1;
    }
    out
}

/// The ids joined with commas.
pub open spec fn comma_join(ids: Seq<Seq<char>>) -> Seq<char>
    decreases ids.len(),
{
    if ids.len() == 0 {
        Seq::empty()
    } else if ids.len() == 1 {
        ids[0]
    } else {
        comma_join(ids.drop_last()) + ","@ + ids.last()
    }
}

/// `GET /artists?ids=a,b,..` (the ids are not encoded).
pub fn artists_request(artist_ids: &Vec<String>) -> (r: ApiRequest)
    ensures
        r.method is Get,
        r.url@ == api_url("/artists?ids="@ + comma_join(strings_view(artist_ids@))),
        r.body is NoBody,
{
    let mut path = String::new();
    push_str(&mut path, "/artists?ids=");
    let ghost start = path@;
    let mut i: usize = 0;
    while i < artist_ids.len()
        invariant
            i <= artist_ids@.len(),
            start == "/artists?ids="@,
            path@ == start + comma_join(strings_view(artist_ids@.subrange(0, i as int))),
        decreases artist_ids@.len() - i,
    {
        let ghost before = strings_view(artist_ids@.subrange(0, i as int));
        let ghost after = strings_view(artist_ids@.subrange(0, i + 1));
        assert(after.drop_last() =~= before);
        assert(after.last() == artist_ids@[i as int]@);
        if i > 0 {
            push_str(&mut path, ",");
        }
        push_str(&mut path, artist_ids[i].as_str());
        i = i + 1;
    }
    assert(artist_ids@.subrange(0, artist_ids@.len() as int) =~= artist_ids@);
    get(api(path.as_str()))
}

/// `GET /playlists/{id}?fields=id,name,owner(id,display_name),tracks(total),external_urls`.
pub fn playlist_details_request(playlist_id: &str) -> (r: ApiRequest)
    ensures
        r.method is Get,
        r.url@ == api_url("/playlists/"@ + playlist_id@
            + "?fields=id,name,owner(id,display_name),tracks(total),external_urls"@),
        r.body is NoBody,
{
    let mut path = String::new();
    push_str(&mut path, "/playlists/");
    push_str(&mut path, playlist_id);
    push_str(&mut path, "?fields=id,name,owner(id,display_name),tracks(total),external_urls");
    let r = get(api(path.as_str()));
    assert(r.url@ =~= api_url("/playlists/"@ + playlist_id@
        + "?fields=id,name,owner(id,display_name),tracks(total),external_urls"@));
    r
}

/// The body of a playlist creation, members in sorted order.
pub open spec fn create_playlist_body(name: Seq<char>, description: Option<Seq<char>>, public: bool) -> Seq<char> {
    let d = match description {
        Some(d) => "\"description\":"@ + json_string(d) + ","@,
        None => Seq::empty(),
    };
    "{"@ + d + "\"name\":"@ + json_string(name) + ",\"public\":"@ + (if public { "true"@ } else { "false"@ }) + "}"@
}

/// `POST /users/{user_id}/playlists` creating a playlist.
pub fn create_playlist_request(user_id: &str, name: &str, description: Option<&str>, public: bool) -> (r: ApiRequest)
    ensures
        r.method is Post,
        r.url@ == api_url("/users/"@ + user_id@ + "/playlists"@),
        r.body matches RequestBody::Json(b) && b@ == create_playlist_body(
            name@,
            match description { Some(d) => Some(d@), None => None },
            public,
        ),
{
    let mut path = String::new();
    push_str(&mut path, "/users/");
    push_str(&mut path, user_id);
    push_str(&mut path, "/playlists");
    let url = api(path.as_str());
    assert(url@ =~= api_url("/users/"@ + user_id@ + "/playlists"@));
    let mut b = String::new();
    push_str(&mut b, "{");
    match description {
        Some(d) => {
            push_str(&mut b, "\"description\":");
            push_str(&mut b, json_quote(d).as_str());
            push_str(&mut b, ",");
        },
        None => {},
    }
    push_str(&mut b, "\"name\":");
    push_str(&mut b, json_quote(name).as_str());
    push_str(&mut b, ",\"public\":");
    if public {
        push_str(&mut b, "true");
    } else {
        push_str(&mut b, "false");
    }
    push_str(&mut b, "}");
    proof {
        let dv = match description { Some(d) => Some(d@), None => None };
        let d = match dv {
            Some(d) => "\"description\":"@ + json_string(d) + ","@,
            None => Seq::<char>::empty(),
        };
        assert(b@ =~= "{"@ + d + "\"name\":"@ + json_string(name@) + ",\"public\":"@
            + (if public { "true"@ } else { "false"@ }) + "}"@);
    }
    ApiRequest { method: HttpMethod::Post, url, body: RequestBody::Json(b) }
}

/// `PUT /me/player/pause` with an empty body.
pub fn pause_request() -> (r: ApiRequest)
    ensures
        r.method is Put,
        r.url@ == api_url("/me/player/pause"@),
        r.body is Empty,
{
    ApiRequest { method: HttpMethod::Put, url: api("/me/player/pause"), body: RequestBody::Empty }
}

/// `PUT /me/player/play` with an empty body.
pub fn resume_request() -> (r: ApiRequest)
    ensures
        r.method is Put,
        r.url@ == api_url("/me/player/play"@),
        r.body is Empty,
{
    ApiRequest { method: HttpMethod::Put, url: api("/me/player/play"), body: RequestBody::Empty }
}

/// `POST /me/player/next` with an empty body.
pub fn skip_next_request() -> (r: ApiRequest)
    ensures
        r.method is Post,
        r.url@ == api_url("/me/player/next"@),
        r.body is Empty,
{
    ApiRequest { method: HttpMethod::Post, url: api("/me/player/next"), body: RequestBody::Empty }
}

/// `POST /me/player/previous` with an empty body.
pub fn skip_previous_request() -> (r: ApiRequest)
    ensures
        r.method is Post,
        r.url@ == api_url("/me/player/previous"@),
        r.body is Empty,
{
    ApiRequest { method: HttpMethod::Post, url: api("/me/player/previous"), body: RequestBody::Empty }
}

/// `PUT /me/player/volume?volume_percent=..` (clamped to 100), empty body.
pub fn set_volume_request(volume_percent: u32) -> (r: ApiRequest)
    ensures
        r.method is Put,
        r.url@ == api_url("/me/player/volume?volume_percent="@ + decimal(min_u32(volume_percent, 100) as nat)),
        r.body is Empty,
{
    let mut path = String::new();
    push_str(&mut path, "/me/player/volume?volume_percent=");
    push_decimal(&mut path, (if volume_percent < 100 { volume_percent } else { 100 }) as u64);
    let url = api(path.as_str());
    assert(url@ =~= api_url("/me/player/volume?volume_percent="@ + decimal(min_u32(volume_percent, 100) as nat)));
    ApiRequest { method: HttpMethod::Put, url, body: RequestBody::Empty }
}

/// The text of the error reported when a response body is not valid JSON.
pub open spec fn undecodable_body_text() -> Seq<char> {
    "error decoding response body"@
}

/// The `snapshot_id` a playlist edit answered with: the string member `snapshot_id`
/// (empty when absent or not a string); an error when the body is not JSON.
pub fn snapshot_from_body(body: &str) -> (r: Result<String, SpotifyError>)
    ensures
        match json_node_at(body@, "/snapshot_id"@) {
            JsonNodeView::Invalid => r matches Err(SpotifyError::Http(m)) && m@ == undecodable_body_text(),
            JsonNodeView::Str(s) => r matches Ok(t) && t@ == s,
            _ => r matches Ok(t) && t@ == Seq::<char>::empty(),
        },
{
    match json_lookup(body, "/snapshot_id") {
        JsonNode::Invalid => Err(SpotifyError::Http("error decoding response body".to_owned())),
        JsonNode::Str(s) => Ok(s),
        _ => Ok(String::new()),
    }
}

} // verus!
