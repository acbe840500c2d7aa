//! Relay orchestration decisions: retries, reconnection, proactive token refresh,
//! command deduplication, command execution plans, fades and now-playing broadcasts.
//! The caller performs the I/O each decision asks for.
use vstd::prelude::*;
use crate::centrifugo::{
    backoff_delay, spec_backoff, CommandError, CommandResponse, CommandView, ServerCommand,
};
use crate::config::RelayConfig;
use crate::json::{json_quote, json_string};
use crate::oauth::OAuthError;
use crate::spotify::{
    add_to_playlist_requests, add_to_queue_request, api_url, artists_request, batch, comma_join,
    current_user_request, num_batches, pause_request, playback_state_request, playlist_details_request,
    playlist_tracks_request, playlist_tracks_url, queue_request, remove_body, remove_from_playlist_requests,
    replace_playlist_requests, resume_request, search_request, search_url, set_volume_request,
    skip_next_request, skip_previous_request, now_playing_request, tracks_url, uris_body, min_u32,
    batch_position,
    ApiRequest, Artist, HttpMethod, NowPlaying, PlaybackState, RequestBody, SpotifyError, Track,
};
use crate::json::strings_view;
use crate::spotify::lemma_batch_bounds;
use vstd::string::StringSliceAdditionalSpecFns;
use vstd::utf8::encode_utf8;
use crate::oauth::urlencoding::spec_encode;
use crate::state::{AppState, ConnectionStatus, NowPlayingInfo};
use crate::centrifugo::opt_view;
use crate::text::{contains_seq, decimal, push_str, str_contains};

verus! {

/// Relay attempts before giving up.
pub const MAX_RELAY_RETRIES: u32 = 5;

/// The wire name of a command.
pub open spec fn spec_command_name(c: CommandView) -> Seq<char> {
    match c {
        CommandView::GetNowPlaying { .. } => "get_now_playing"@,
        CommandView::GetQueue { .. } => "get_queue"@,
        CommandView::Search { .. } => "search"@,
        CommandView::AddToQueue { .. } => "add_to_queue"@,
        CommandView::GetPlaybackState { .. } => "get_playback_state"@,
        CommandView::GetPlaylistTracks { .. } => "get_playlist_tracks"@,
        CommandView::AddToPlaylist { .. } => "add_to_playlist"@,
        CommandView::RemoveFromPlaylist { .. } => "remove_from_playlist"@,
        CommandView::ReplacePlaylist { .. } => "replace_playlist"@,
        CommandView::CreatePlaylist { .. } => "create_playlist"@,
        CommandView::GetArtists { .. } => "get_artists"@,
        CommandView::GetPlaylistDetails { .. } => "get_playlist_details"@,
        CommandView::GetCurrentUser { .. } => "get_current_user"@,
        CommandView::Pause { .. } => "pause"@,
        CommandView::Resume { .. } => "resume"@,
        CommandView::SkipNext { .. } => "skip_next"@,
        CommandView::SkipPrevious { .. } => "skip_previous"@,
        CommandView::SetVolume { .. } => "set_volume"@,
        CommandView::FadeSkip { .. } => "fade_skip"@,
        CommandView::FadePause { .. } => "fade_pause"@,
    }
}

/// The wire name of a command (used in logs).
pub fn command_name(cmd: &ServerCommand) -> (r: &'static str)
    ensures
        r@ == spec_command_name(cmd@),
{
    match cmd {
        ServerCommand::GetNowPlaying { .. } => "get_now_playing",
        ServerCommand::GetQueue { .. } => "get_queue",
        ServerCommand::Search { .. } => "search",
        ServerCommand::AddToQueue { .. } => "add_to_queue",
        ServerCommand::GetPlaybackState { .. } => "get_playback_state",
        ServerCommand::GetPlaylistTracks { .. } => "get_playlist_tracks",
        ServerCommand::AddToPlaylist { .. } => "add_to_playlist",
        ServerCommand::RemoveFromPlaylist { .. } => "remove_from_playlist",
        ServerCommand::ReplacePlaylist { .. } => "replace_playlist",
        ServerCommand::CreatePlaylist { .. } => "create_playlist",
        ServerCommand::GetArtists { .. } => "get_artists",
        ServerCommand::GetPlaylistDetails { .. } => "get_playlist_details",
        ServerCommand::GetCurrentUser { .. } => "get_current_user",
        ServerCommand::Pause { .. } => "pause",
        ServerCommand::Resume { .. } => "resume",
        ServerCommand::SkipNext { .. } => "skip_next",
        ServerCommand::SkipPrevious { .. } => "skip_previous",
        ServerCommand::SetVolume { .. } => "set_volume",
        ServerCommand::FadeSkip { .. } => "fade_skip",
        ServerCommand::FadePause { .. } => "fade_pause",
    }
}

/// Categorized relay errors, controlling retry behavior.
#[derive(Debug)]
pub enum RelayError {
    /// Transient failure (network, server error). Safe to retry.
    Transient(String),
    /// Requires user action (revoked token, OAuth failure). Do not retry.
    NeedsAuth(String),
}

impl RelayError {
    pub open spec fn spec_message(&self) -> Seq<char> {
        match self {
            RelayError::Transient(m) => m@,
            RelayError::NeedsAuth(m) => m@,
        }
    }

    /// The message carried by the error.
    pub fn message(&self) -> (r: &str)
        ensures
            r@ == self.spec_message(),
    {
        match self {
            RelayError::Transient(m) => m.as_str(),
            RelayError::NeedsAuth(m) => m.as_str(),
        }
    }
}

/// The message shown when the stored Spotify session was revoked.
pub open spec fn session_expired_text() -> Seq<char> {
    "Spotify session expired. Click Reconnect to sign in again."@
}

/// A refresh failure is permanent when Spotify reported `invalid_grant` (the structured
/// error, or its code in the error text); anything else is transient.
pub open spec fn refresh_is_revoked(e: OAuthError) -> bool {
    e is InvalidGrant || contains_seq(e.spec_message(), "invalid_grant"@)
}

/// Classifies the failure of the silent token refresh at startup.
pub fn classify_refresh_failure(e: &OAuthError) -> (r: RelayError)
    ensures
        refresh_is_revoked(*e) ==> (r matches RelayError::NeedsAuth(m) && m@ == session_expired_text()),
        !refresh_is_revoked(*e) ==> (r matches RelayError::Transient(m)
            && m@ == "Token refresh failed: "@ + e.spec_message()),
{
    let msg = e.message();
    if e.is_invalid_grant() || str_contains(msg.as_str(), "invalid_grant") {
        RelayError::NeedsAuth("Spotify session expired. Click Reconnect to sign in again.".to_owned())
    } else {
        let mut m = String::new();
        push_str(&mut m, "Token refresh failed: ");
        push_str(&mut m, msg.as_str());
        RelayError::Transient(m)
    }
}

/// Classifies the failure of the interactive OAuth flow: it is never retried.
pub fn classify_sign_in_failure(e: &OAuthError) -> (r: RelayError)
    ensures
        r matches RelayError::NeedsAuth(m) && m@ == "Spotify sign-in was not completed: "@ + e.spec_message(),
{
    let mut m = String::new();
    push_str(&mut m, "Spotify sign-in was not completed: ");
    push_str(&mut m, e.message().as_str());
    RelayError::NeedsAuth(m)
}

/// What the relay supervisor does after one run of the relay.
#[derive(Debug)]
pub enum RelayStep {
    /// The relay ended normally (shutdown): stop.
    Finish,
    /// Authorization is needed: clear the stored refresh token, notify, stop.
    StopNeedsAuth,
    /// Too many consecutive failures: clear the stored refresh token, notify, stop.
    GiveUp,
    /// Wait this many seconds (or until shutdown), then run again.
    RetryAfter(u64),
}

/// The notification for a lost Spotify authorization.
pub open spec fn auth_lost_title() -> Seq<char> {
    "Music Relay -- Spotify Authorization Lost"@
}

pub open spec fn auth_lost_body() -> Seq<char> {
    "Spotify song requests are no longer being relayed. Open Music Relay to sign in again."@
}

/// The notification for a relay that gave up.
pub open spec fn gave_up_title() -> Seq<char> {
    "Music Relay -- Connection Failed"@
}

pub open spec fn gave_up_body() -> Seq<char> {
    "Spotify song requests are no longer being relayed. Open Music Relay to reconnect."@
}

/// Title and body of the notification for a relay step that stops on failure.
pub fn notification(step: &RelayStep) -> (r: Option<(&'static str, &'static str)>)
    ensures
        match step {
            RelayStep::StopNeedsAuth => r matches Some((t, b)) && t@ == auth_lost_title() && b@ == auth_lost_body(),
            RelayStep::GiveUp => r matches Some((t, b)) && t@ == gave_up_title() && b@ == gave_up_body(),
            _ => r is None,
        },
{
    match step {
        RelayStep::StopNeedsAuth => Some((
            "Music Relay -- Spotify Authorization Lost",
            "Spotify song requests are no longer being relayed. Open Music Relay to sign in again.",
        )),
        RelayStep::GiveUp => Some((
            "Music Relay -- Connection Failed",
            "Spotify song requests are no longer being relayed. Open Music Relay to reconnect.",
        )),
        _ => None,
    }
}

/// After a transient failure with counter `attempt` (reset first when the run had got
/// past startup): the new counter and the step. The fifth consecutive failure gives up;
/// earlier ones retry after 2, 4, 8 and 16 seconds.
pub open spec fn transient_step(attempt: u32, was_connected: bool) -> (u32, RelayStep) {
    let earlier = if was_connected { 0 } else { attempt };
    if earlier + 1 >= MAX_RELAY_RETRIES {
        (0, RelayStep::GiveUp)
    } else {
        ((earlier + 1) as u32, RelayStep::RetryAfter(spec_backoff(earlier)))
    }
}

/// The consecutive-failure counter of the relay supervisor.
#[derive(Debug)]
pub struct RetryState {
    pub attempt: u32,
}

impl RetryState {
    /// The counter stays below the retry limit between runs.
    pub open spec fn wf(&self) -> bool {
        self.attempt < MAX_RELAY_RETRIES
    }

    pub fn new() -> (r: Self)
        ensures
            r.attempt == 0,
            r.wf(),
    {
        RetryState { attempt: 0 }
    }

    /// Decides what follows a relay run that ended with `result`; `was_connected` tells
    /// whether that run had got past startup. Failures record the message and mark both
    /// connections disconnected.
    pub fn on_run_end(&mut self, result: Result<(), RelayError>, was_connected: bool, state: &mut AppState) -> (r: RelayStep)
        requires
            old(self).wf(),
        ensures
            final(self).wf(),
            match result {
                Ok(()) => r is Finish && final(self).attempt == old(self).attempt && *final(state) == *old(state),
                Err(RelayError::NeedsAuth(m)) => {
                    &&& r is StopNeedsAuth
                    &&& final(self).attempt == old(self).attempt
                    &&& final(state).last_error == Some(m)
                    &&& final(state).spotify_status == ConnectionStatus::Disconnected
                    &&& final(state).websocket_status == ConnectionStatus::Disconnected
                    &&& final(state).now_playing == old(state).now_playing
                },
                Err(RelayError::Transient(m)) => {
                    &&& final(state).last_error == Some(m)
                    &&& final(state).spotify_status == ConnectionStatus::Disconnected
                    &&& final(state).websocket_status == ConnectionStatus::Disconnected
                    &&& final(state).now_playing == old(state).now_playing
                    &&& (final(self).attempt, r) == transient_step(old(self).attempt, was_connected)
                },
            },
    {
        match result {
            Ok(()) => RelayStep::Finish,
            Err(RelayError::NeedsAuth(m)) => {
                state.last_error = Some(m);
                state.spotify_status = ConnectionStatus::Disconnected;
                state.websocket_status = ConnectionStatus::Disconnected;
                RelayStep::StopNeedsAuth
            },
            Err(RelayError::Transient(m)) => {
                if was_connected {
                    self.attempt = 0;
                }
                let earlier = self.attempt;
                state.last_error = Some(m);
                state.spotify_status = ConnectionStatus::Disconnected;
                state.websocket_status = ConnectionStatus::Disconnected;
                if earlier + 1 >= MAX_RELAY_RETRIES {
                    self.attempt = 0;
                    RelayStep::GiveUp
                } else {
                    self.attempt = earlier + 1;
                    RelayStep::RetryAfter(backoff_delay(earlier))
                }
            },
        }
    }
}


/// Marks the start of Spotify authentication.
pub fn on_auth_start(state: &mut AppState)
    ensures
        final(state).spotify_status == ConnectionStatus::Connecting,
        final(state).last_error is None,
        final(state).websocket_status == old(state).websocket_status,
        final(state).now_playing == old(state).now_playing,
{
    state.spotify_status = ConnectionStatus::Connecting;
    state.last_error = None;
}

/// Marks Spotify as authenticated.
pub fn on_auth_ok(state: &mut AppState)
    ensures
        final(state).spotify_status == ConnectionStatus::Connected,
        final(state).last_error == old(state).last_error,
        final(state).websocket_status == old(state).websocket_status,
        final(state).now_playing == old(state).now_playing,
{
    state.spotify_status = ConnectionStatus::Connected;
}

/// Marks both connections down after a shutdown request.
pub fn on_shutdown(state: &mut AppState, had_server: bool)
    ensures
        final(state).spotify_status == ConnectionStatus::Disconnected,
        final(state).websocket_status == if had_server {
            ConnectionStatus::Disconnected
        } else {
            old(state).websocket_status
        },
        final(state).last_error == old(state).last_error,
        final(state).now_playing == old(state).now_playing,
{
    state.spotify_status = ConnectionStatus::Disconnected;
    if had_server {
        state.websocket_status = ConnectionStatus::Disconnected;
    }
}

/// The reconnection counter of the WebSocket loop.
#[derive(Debug)]
pub struct ReconnectState {
    pub attempt: u32,
}

/// The counter after one more failed attempt (it saturates).
pub open spec fn bumped(n: u32) -> u32 {
    if n == u32::MAX { n } else { (n + 1) as u32 }
}

impl ReconnectState {
    pub fn new() -> (r: Self)
        ensures
            r.attempt == 0,
    {
        ReconnectState { attempt: 0 }
    }

    /// A connection attempt starts.
    pub fn on_connecting(&self, state: &mut AppState)
        ensures
            final(state).websocket_status == ConnectionStatus::Connecting,
            final(state).spotify_status == old(state).spotify_status,
            final(state).last_error == old(state).last_error,
            final(state).now_playing == old(state).now_playing,
    {
        state.websocket_status = ConnectionStatus::Connecting;
    }

    fn fail(&mut self, prefix: &str, err: &str, state: &mut AppState) -> (delay: u64)
        ensures
            delay == spec_backoff(old(self).attempt),
            final(self).attempt == bumped(old(self).attempt),
            final(state).websocket_status == ConnectionStatus::Disconnected,
            final(state).last_error matches Some(m) && m@ == prefix@ + err@,
            final(state).spotify_status == old(state).spotify_status,
            final(state).now_playing == old(state).now_playing,
    {
        let mut m = String::new();
        push_str(&mut m, prefix);
        push_str(&mut m, err);
        state.websocket_status = ConnectionStatus::Disconnected;
        state.last_error = Some(m);
        let delay = backoff_delay(self.attempt);
        self.attempt = self.attempt.saturating_add(1);
        delay
    }

    /// Fetching the connection token failed with `err`; returns the delay before retrying.
    pub fn on_token_failed(&mut self, err: &str, state: &mut AppState) -> (delay: u64)
        ensures
            delay == spec_backoff(old(self).attempt),
            final(self).attempt == bumped(old(self).attempt),
            final(state).websocket_status == ConnectionStatus::Disconnected,
            final(state).last_error matches Some(m) && m@ == "Token: "@ + err@,
            final(state).spotify_status == old(state).spotify_status,
            final(state).now_playing == old(state).now_playing,
    {
        self.fail("Token: ", err, state)
    }

    /// The WebSocket connection failed with `err`; returns the delay before retrying.
    pub fn on_connect_failed(&mut self, err: &str, state: &mut AppState) -> (delay: u64)
        ensures
            delay == spec_backoff(old(self).attempt),
            final(self).attempt == bumped(old(self).attempt),
            final(state).websocket_status == ConnectionStatus::Disconnected,
            final(state).last_error matches Some(m) && m@ == "WebSocket: "@ + err@,
            final(state).spotify_status == old(state).spotify_status,
            final(state).now_playing == old(state).now_playing,
    {
        self.fail("WebSocket: ", err, state)
    }

    /// The connection is up: the backoff resets.
    pub fn on_connected(&mut self, state: &mut AppState)
        ensures
            final(self).attempt == 0,
            final(state).websocket_status == ConnectionStatus::Connected,
            final(state).last_error is None,
            final(state).spotify_status == old(state).spotify_status,
            final(state).now_playing == old(state).now_playing,
    {
        self.attempt = 0;
        state.websocket_status = ConnectionStatus::Connected;
        state.last_error = None;
    }

    /// An established session ended (disconnect or proactive refresh); returns the delay
    /// before reconnecting.
    pub fn on_session_end(&mut self, state: &mut AppState) -> (delay: u64)
        ensures
            delay == spec_backoff(old(self).attempt),
            final(self).attempt == bumped(old(self).attempt),
            final(state).websocket_status == ConnectionStatus::Disconnected,
            final(state).last_error == old(state).last_error,
            final(state).spotify_status == old(state).spotify_status,
            final(state).now_playing == old(state).now_playing,
    {
        state.websocket_status = ConnectionStatus::Disconnected;
        let delay = backoff_delay(self.attempt);
        self.attempt = self.attempt.saturating_add(1);
        delay
    }
}

/// Seconds until the proactive reconnect, one hour before the token expiry `exp`;
/// none when the expiry is unknown or already inside that hour.
pub open spec fn spec_refresh_delay(exp: Option<u64>, now: u64) -> Option<u64> {
    match exp {
        Some(e) => {
            let refresh_at = if e >= 3600 { e - 3600 } else { 0 };
            if refresh_at > now { Some((refresh_at - now) as u64) } else { None }
        },
        None => None,
    }
}

/// Schedules the proactive reconnect for a token expiring at `exp` (seconds since the
/// UNIX epoch), at time `now`.
pub fn refresh_delay(exp: Option<u64>, now: u64) -> (r: Option<u64>)
    ensures
        r == spec_refresh_delay(exp, now),
{
    match exp {
        Some(e) => {
            let refresh_at = e.saturating_sub(3600);
            if refresh_at > now { Some(refresh_at - now) } else { None }
        },
        None => None,
    }
}

/// The nonce to claim before executing `cmd`: only mutating commands that carry one.
pub fn claim_nonce(cmd: &ServerCommand) -> (r: Option<&str>)
    ensures
        match r {
            Some(n) => cmd@.is_mutating() && cmd@.nonce() == Some(n@),
            None => !cmd@.is_mutating() || cmd@.nonce() is None,
        },
{
    if cmd.is_mutating() { cmd.nonce() } else { None }
}

/// The answer of the claim endpoint.
#[derive(Debug)]
pub enum ClaimOutcome {
    /// The endpoint answered with this HTTP status.
    Status(u16),
    /// The request failed (network error, timeout).
    Failed,
}

/// Whether this relay executes a claimed command: a 409 means another relay took it;
/// every other answer, and any failure, lets it run (fail-open).
pub open spec fn spec_claim_allows(o: ClaimOutcome) -> bool {
    match o {
        ClaimOutcome::Status(s) => !(s == 409),
        ClaimOutcome::Failed => true,
    }
}

pub fn claim_allows(o: &ClaimOutcome) -> (r: bool)
    ensures
        r == spec_claim_allows(*o),
{
    match o {
        ClaimOutcome::Status(s) => {
            if 200 <= *s && *s <= 299 {
                true
            } else if *s == 409 {
                false
            } else {
                true
            }
        },
        ClaimOutcome::Failed => true,
    }
}

/// Whether a command runs: a mutating command carrying a nonce runs unless its claim
/// was refused (no claim outcome counts as a failed claim); every other command runs.
pub open spec fn spec_should_execute(cmd: CommandView, claim: Option<ClaimOutcome>) -> bool {
    if cmd.is_mutating() && cmd.nonce() is Some {
        match claim {
            Some(o) => spec_claim_allows(o),
            None => true,
        }
    } else {
        true
    }
}

/// Decides whether to execute `cmd` given the outcome of its claim, if one was made.
pub fn should_execute(cmd: &ServerCommand, claim: &Option<ClaimOutcome>) -> (r: bool)
    ensures
        r == spec_should_execute(cmd@, *claim),
{
    match claim_nonce(cmd) {
        None => true,
        Some(_) => match claim {
            Some(o) => claim_allows(o),
            None => true,
        },
    }
}

/// The claim endpoint of the server.
pub open spec fn claim_url(server_url: Seq<char>) -> Seq<char> {
    server_url + "/api/connector/claim-command"@
}

/// The claim request: its URL and JSON body `{"nonce":..}` (sent with the API key as
/// bearer token and a 3 second timeout).
pub fn claim_request(config: &RelayConfig, nonce: &str) -> (r: (String, String))
    ensures
        r.0@ == claim_url(config.server_url@),
        r.1@ == "{\"nonce\":"@ + json_string(nonce@) + "}"@,
{
    let mut url = String::new();
    push_str(&mut url, config.server_url.as_str());
    push_str(&mut url, "/api/connector/claim-command");
    let mut body = String::new();
    push_str(&mut body, "{\"nonce\":");
    push_str(&mut body, json_quote(nonce).as_str());
    push_str(&mut body, "}");
    (url, body)
}

/// A success response carrying the JSON text `result`.
pub fn success_response(id: String, result: String) -> (r: CommandResponse)
    ensures
        r.id == id,
        r.result == Some(result),
        r.error is None,
{
    CommandResponse { id, result: Some(result), error: None }
}

/// The response sent for a command another relay claimed: an empty success.
pub fn skipped_response(cmd: &ServerCommand) -> (r: CommandResponse)
    ensures
        r.id@ == cmd@.id(),
        r.result matches Some(t) && t@ == "{}"@,
        r.error is None,
{
    CommandResponse { id: cmd.id().to_owned(), result: Some("{}".to_owned()), error: None }
}

/// An error response.
pub fn error_response(id: String, code: &str, message: &str) -> (r: CommandResponse)
    ensures
        r.id == id,
        r.result is None,
        r.error matches Some(e) && e.code@ == code@ && e.message@ == message@,
{
    CommandResponse {
        id,
        result: None,
        error: Some(CommandError { code: code.to_owned(), message: message.to_owned() }),
    }
}

/// The error code and message reported for a failed playback command: 403 is
/// `forbidden`, 404 `no_device`, 429 `rate_limited`, anything else `spotify_error`.
pub open spec fn playback_error(e: SpotifyError) -> (Seq<char>, Seq<char>) {
    match e {
        SpotifyError::Api { status, message } => {
            if status == 403 {
                ("forbidden"@, message@)
            } else if status == 404 {
                ("no_device"@, "No active Spotify device"@)
            } else if status == 429 {
                ("rate_limited"@, message@)
            } else {
                ("spotify_error"@, e.spec_message())
            }
        },
        _ => ("spotify_error"@, e.spec_message()),
    }
}

/// The error response of a playback command.
pub fn playback_error_response(id: String, e: &SpotifyError) -> (r: CommandResponse)
    ensures
        r.id == id,
        r.result is None,
        r.error matches Some(x) && (x.code@, x.message@) == playback_error(*e),
{
    match e {
        SpotifyError::Api { status, message } => {
            if *status == 403 {
                return error_response(id, "forbidden", message.as_str());
            } else if *status == 404 {
                return error_response(id, "no_device", "No active Spotify device");
            } else if *status == 429 {
                return error_response(id, "rate_limited", message.as_str());
            }
        },
        _ => {},
    }
    let m = e.message();
    error_response(id, "spotify_error", m.as_str())
}

/// The error response of a non-playback command: always `spotify_error`.
pub fn spotify_error_response(id: String, e: &SpotifyError) -> (r: CommandResponse)
    ensures
        r.id == id,
        r.result is None,
        r.error matches Some(x) && x.code@ == "spotify_error"@ && x.message@ == e.spec_message(),
{
    let m = e.message();
    error_response(id, "spotify_error", m.as_str())
}

/// The artist names joined with `, `.
pub open spec fn join_names(artists: Seq<Artist>) -> Seq<char>
    decreases artists.len(),
{
    if artists.len() == 0 {
        Seq::empty()
    } else if artists.len() == 1 {
        artists[0].name@
    } else {
        join_names(artists.drop_last()) + ", "@ + artists.last().name@
    }
}

fn artist_names(artists: &Vec<Artist>) -> (r: String)
    ensures
        r@ == join_names(artists@),
{
    let mut out = String::new();
    let mut i: usize = 0;
    while i < artists.len()
        invariant
            i <= artists@.len(),
            out@ == join_names(artists@.subrange(0, i as int)),
        decreases artists@.len() - i,
    {
        assert(artists@.subrange(0, i + 1).drop_last() =~= artists@.subrange(0, i as int));
        if i > 0 {
            push_str(&mut out, ", ");
        }
        push_str(&mut out, artists[i].name.as_str());
        i = i + 1;
    }
    assert(artists@.subrange(0, artists@.len() as int) =~= artists@);
    out
}

/// `info` summarizes `track`: its name, artists joined by `, `, album, first album image,
/// duration and URI, with the given playback flags.
pub open spec fn summarizes(info: NowPlayingInfo, track: Track, is_playing: bool, progress_ms: Option<u64>) -> bool {
    &&& info.track_name@ == track.name@
    &&& info.artist_name@ == join_names(track.artists@)
    &&& info.album_name@ == track.album.name@
    &&& info.album_art_url == (if track.album.images@.len() > 0 { Some(track.album.images@[0].url) } else { None })
    &&& info.is_playing == is_playing
    &&& info.progress_ms == progress_ms
    &&& info.duration_ms == track.duration_ms
    &&& info.track_uri@ == track.uri@
}

/// The summary of what is playing (none when nothing is).
pub fn now_playing_info(np: &NowPlaying) -> (r: Option<NowPlayingInfo>)
    ensures
        match np.item {
            Some(t) => r matches Some(i) && summarizes(i, t, np.is_playing, np.progress_ms),
            None => r is None,
        },
{
    match &np.item {
        Some(track) => {
            let art = if track.album.images.len() > 0 {
                Some(track.album.images[0].url.clone())
            } else {
                None
            };
            Some(NowPlayingInfo {
                track_name: track.name.clone(),
                artist_name: artist_names(&track.artists),
                album_name: track.album.name.clone(),
                album_art_url: art,
                is_playing: np.is_playing,
                progress_ms: np.progress_ms,
                duration_ms: track.duration_ms,
                track_uri: track.uri.clone(),
            })
        },
        None => None,
    }
}

/// The broadcast sent when playback stops: empty strings, not playing.
pub open spec fn is_stopped_info(i: NowPlayingInfo) -> bool {
    &&& i.track_name@ == Seq::<char>::empty()
    &&& i.artist_name@ == Seq::<char>::empty()
    &&& i.album_name@ == Seq::<char>::empty()
    &&& i.album_art_url is None
    &&& !i.is_playing
    &&& i.progress_ms is None
    &&& i.duration_ms == 0
    &&& i.track_uri@ == Seq::<char>::empty()
}

fn stopped_info() -> (r: NowPlayingInfo)
    ensures
        is_stopped_info(r),
{
    NowPlayingInfo {
        track_name: String::new(),
        artist_name: String::new(),
        album_name: String::new(),
        album_art_url: None,
        is_playing: false,
        progress_ms: None,
        duration_ms: 0,
        track_uri: String::new(),
    }
}

fn opt_string_eq(a: &Option<String>, b: &Option<String>) -> (r: bool)
    ensures
        r == (opt_view(*a) == opt_view(*b)),
{
    match (a, b) {
        (Some(x), Some(y)) => x.as_str().unicode_len() == y.as_str().unicode_len()
            && crate::text::str_eq(x.as_str(), y.as_str()),
        (None, None) => true,
        _ => false,
    }
}

/// The URI of the track of a poll result, if any.
pub open spec fn polled_uri(np: NowPlaying) -> Option<Seq<char>> {
    match np.item {
        Some(t) => Some(t.uri@),
        None => None,
    }
}

/// Applies one now-playing poll to the state and returns what to broadcast: the new
/// summary when the track URI changed to another track, the "stopped" summary when it
/// changed to no track (nothing is playing, or the answer holds no item), nothing
/// otherwise. A failed poll only records the error.
pub fn poll_update(
    outcome: Result<Option<NowPlaying>, SpotifyError>,
    last_track_uri: &mut Option<String>,
    state: &mut AppState,
) -> (r: Option<NowPlayingInfo>)
    ensures
        final(state).spotify_status == old(state).spotify_status,
        final(state).websocket_status == old(state).websocket_status,
        match outcome {
            Ok(Some(np)) => {
                &&& opt_view(*final(last_track_uri)) == polled_uri(np)
                &&& final(state).last_error == old(state).last_error
                &&& match np.item {
                    Some(t) => final(state).now_playing matches Some(i) && summarizes(i, t, np.is_playing, np.progress_ms),
                    None => final(state).now_playing is None,
                }
                &&& (polled_uri(np) != opt_view(*old(last_track_uri))) ==> match np.item {
                    Some(t) => r == final(state).now_playing,
                    None => r matches Some(i) && is_stopped_info(i),
                }
                &&& (polled_uri(np) == opt_view(*old(last_track_uri))) ==> r is None
            },
            Ok(None) => {
                &&& *final(last_track_uri) is None
                &&& final(state).now_playing is None
                &&& final(state).last_error == old(state).last_error
                &&& *old(last_track_uri) is Some ==> (r matches Some(i) && is_stopped_info(i))
                &&& *old(last_track_uri) is None ==> r is None
            },
            Err(e) => {
                &&& r is None
                &&& *final(last_track_uri) == *old(last_track_uri)
                &&& final(state).now_playing == old(state).now_playing
                &&& final(state).last_error matches Some(m) && m@ == "Spotify: "@ + e.spec_message()
            },
        },
{
    match outcome {
        Ok(Some(np)) => {
            let info = now_playing_info(&np);
            let current_uri = match &np.item {
                Some(t) => Some(t.uri.clone()),
                None => None,
            };
            let changed = !opt_string_eq(&current_uri, last_track_uri);
            *last_track_uri = current_uri;
            let shown = match &info {
                Some(i) => Some(i.copy()),
                None => None,
            };
            state.now_playing = shown;
            if changed {
                match info {
                    Some(i) => Some(i),
                    None => Some(stopped_info()),
                }
            } else {
                None
            }
        },
        Ok(None) => {
            let changed = last_track_uri.is_some();
            *last_track_uri = None;
            state.now_playing = None;
            if changed { Some(stopped_info()) } else { None }
        },
        Err(e) => {
            let mut m = String::new();
            push_str(&mut m, "Spotify: ");
            push_str(&mut m, e.message().as_str());
            state.last_error = Some(m);
            None
        },
    }
}

/// The now-playing broadcast: id empty, result `{"data":<summary>,"type":"now_playing"}`.
pub fn broadcast_response(info: &NowPlayingInfo) -> (r: CommandResponse)
    ensures
        r.id@ == Seq::<char>::empty(),
        r.result matches Some(t) && t@ == "{\"data\":"@ + info.spec_json() + ",\"type\":\"now_playing\"}"@,
        r.error is None,
{
    let mut t = String::new();
    push_str(&mut t, "{\"data\":");
    push_str(&mut t, info.to_json().as_str());
    push_str(&mut t, ",\"type\":\"now_playing\"}");
    CommandResponse { id: String::new(), result: Some(t), error: None }
}


/// The Spotify data a fetched body is decoded as.
#[derive(Debug)]
pub enum Payload {
    /// `NowPlaying`, or `null` for an empty (204) answer.
    NowPlaying,
    Queue,
    Search,
    /// `PlaybackState`, or `null` for an empty (204) answer.
    PlaybackState,
    PlaylistTracks,
    Artists,
    PlaylistDetails,
}

impl Payload {
    /// Whether an empty (204) answer stands for "nothing" (`null`).
    pub open spec fn spec_allows_empty(self) -> bool {
        self is NowPlaying || self is PlaybackState
    }

    pub fn allows_empty(&self) -> (r: bool)
        ensures
            r == self.spec_allows_empty(),
    {
        match self {
            Payload::NowPlaying | Payload::PlaybackState => true,
            _ => false,
        }
    }
}

/// How a command is carried out against Spotify.
#[derive(Debug)]
pub enum CommandPlan {
    /// Send `request`; answer with the body decoded as `payload`.
    Fetch { request: ApiRequest, payload: Payload },
    /// Send `request`; on success answer with the JSON text `result`. Failures of
    /// playback commands are reported with [`playback_error`] codes.
    Act { request: ApiRequest, result: String, playback: bool },
    /// Send `requests` in order, stopping at the first failure; answer with the
    /// `snapshot_id` of the last answer.
    Edit { requests: Vec<ApiRequest> },
    /// Answer with the current user's profile (cached for the session, else `GET /me`).
    CurrentUser,
    /// Obtain the current user's profile as above, then create the playlist.
    CreatePlaylist { name: String, description: Option<String>, public: bool },
    /// Fade out and skip (`pause == false`) or pause; see [`Fade`].
    Fade { pause: bool },
}

/// A request with the given method, URL and no body.
pub open spec fn is_get(r: ApiRequest, url: Seq<char>) -> bool {
    r.method is Get && r.url@ == url && r.body is NoBody
}

/// A request with the given method, URL and an empty body.
pub open spec fn is_empty_body(r: ApiRequest, post: bool, url: Seq<char>) -> bool {
    (if post { r.method is Post } else { r.method is Put }) && r.url@ == url && r.body is Empty
}

/// The requests of a playlist edit, batch by batch.
pub open spec fn is_add_batches(rs: Seq<ApiRequest>, playlist_id: Seq<char>, uris: Seq<Seq<char>>, position: Option<u32>) -> bool {
    &&& rs.len() == num_batches(uris.len() as int)
    &&& forall|j: int| 0 <= j < rs.len() ==> {
        &&& (#[trigger] rs[j]).method is Post
        &&& rs[j].url@ == tracks_url(playlist_id)
        &&& rs[j].body matches RequestBody::Json(b) && b@ == uris_body(batch(uris, j), batch_position(position, j))
    }
}

pub open spec fn is_remove_batches(rs: Seq<ApiRequest>, playlist_id: Seq<char>, uris: Seq<Seq<char>>) -> bool {
    &&& rs.len() == num_batches(uris.len() as int)
    &&& forall|j: int| 0 <= j < rs.len() ==> {
        &&& (#[trigger] rs[j]).method is Delete
        &&& rs[j].url@ == tracks_url(playlist_id)
        &&& rs[j].body matches RequestBody::Json(b) && b@ == remove_body(batch(uris, j))
    }
}

pub open spec fn is_replace_batches(rs: Seq<ApiRequest>, playlist_id: Seq<char>, uris: Seq<Seq<char>>) -> bool {
    &&& rs.len() == if uris.len() == 0 { 1 } else { num_batches(uris.len() as int) }
    &&& rs[0].method is Put
    &&& rs[0].url@ == tracks_url(playlist_id)
    &&& rs[0].body matches RequestBody::Json(b) && b@ == uris_body(batch(uris, 0), None)
    &&& forall|j: int| 1 <= j < rs.len() ==> {
        &&& (#[trigger] rs[j]).method is Post
        &&& rs[j].url@ == tracks_url(playlist_id)
        &&& rs[j].body matches RequestBody::Json(b) && b@ == uris_body(batch(uris, j), None)
    }
}

proof fn lemma_batch_view(uris: Seq<String>, j: int)
    requires
        j == 0 || 0 <= j < num_batches(uris.len() as int),
    ensures
        strings_view(batch(uris, j)) == batch(strings_view(uris), j),
{
    if j != 0 {
        lemma_batch_bounds(j, uris.len() as int);
    }
    assert(strings_view(batch(uris, j)) =~= batch(strings_view(uris), j));
}

/// The plan for `cmd` (see [`CommandPlan`]): the request each command sends, with the
/// protocol's defaults (search returns 20 results; a playlist page starts at offset 0
/// and holds 100 tracks; new playlists are private).
pub open spec fn plan_for(cmd: CommandView, plan: CommandPlan) -> bool {
    match cmd {
        CommandView::GetNowPlaying { .. } => plan matches CommandPlan::Fetch { request, payload }
            && is_get(request, api_url("/me/player/currently-playing"@)) && payload is NowPlaying,
        CommandView::GetQueue { .. } => plan matches CommandPlan::Fetch { request, payload }
            && is_get(request, api_url("/me/player/queue"@)) && payload is Queue,
        CommandView::Search { query, .. } => plan matches CommandPlan::Fetch { request, payload }
            && is_get(request, search_url(encode_utf8(query), 20)) && payload is Search,
        CommandView::AddToQueue { track_uri, .. } => plan matches CommandPlan::Act { request, result, playback }
            && is_empty_body(request, true, api_url("/me/player/queue?uri="@ + spec_encode(encode_utf8(track_uri))))
            && result@ == "{\"success\":true}"@ && !playback,
        CommandView::GetPlaybackState { .. } => plan matches CommandPlan::Fetch { request, payload }
            && is_get(request, api_url("/me/player"@)) && payload is PlaybackState,
        CommandView::GetPlaylistTracks { playlist_id, offset, limit, .. } =>
            plan matches CommandPlan::Fetch { request, payload }
            && is_get(request, playlist_tracks_url(
                playlist_id,
                match offset { Some(o) => o, None => 0 },
                match limit { Some(l) => l, None => 100 },
            )) && payload is PlaylistTracks,
        CommandView::AddToPlaylist { playlist_id, uris, position, .. } =>
            plan matches CommandPlan::Edit { requests } && is_add_batches(requests@, playlist_id, uris, position),
        CommandView::RemoveFromPlaylist { playlist_id, uris, .. } =>
            plan matches CommandPlan::Edit { requests } && is_remove_batches(requests@, playlist_id, uris),
        CommandView::ReplacePlaylist { playlist_id, uris, .. } =>
            plan matches CommandPlan::Edit { requests } && is_replace_batches(requests@, playlist_id, uris),
        CommandView::CreatePlaylist { name, description, public, .. } =>
            plan matches CommandPlan::CreatePlaylist { name: n, description: d, public: p }
            && n@ == name && opt_view(d) == description && p == match public { Some(b) => b, None => false },
        CommandView::GetArtists { artist_ids, .. } => plan matches CommandPlan::Fetch { request, payload }
            && is_get(request, api_url("/artists?ids="@ + comma_join(artist_ids))) && payload is Artists,
        CommandView::GetPlaylistDetails { playlist_id, .. } => plan matches CommandPlan::Fetch { request, payload }
            && is_get(request, api_url("/playlists/"@ + playlist_id
                + "?fields=id,name,owner(id,display_name),tracks(total),external_urls"@))
            && payload is PlaylistDetails,
        CommandView::GetCurrentUser { .. } => plan is CurrentUser,
        CommandView::Pause { .. } => plan matches CommandPlan::Act { request, result, playback }
            && is_empty_body(request, false, api_url("/me/player/pause"@)) && result@ == "{}"@ && playback,
        CommandView::Resume { .. } => plan matches CommandPlan::Act { request, result, playback }
            && is_empty_body(request, false, api_url("/me/player/play"@)) && result@ == "{}"@ && playback,
        CommandView::SkipNext { .. } => plan matches CommandPlan::Act { request, result, playback }
            && is_empty_body(request, true, api_url("/me/player/next"@)) && result@ == "{}"@ && playback,
        CommandView::SkipPrevious { .. } => plan matches CommandPlan::Act { request, result, playback }
            && is_empty_body(request, true, api_url("/me/player/previous"@)) && result@ == "{}"@ && playback,
        CommandView::SetVolume { volume_percent, .. } => plan matches CommandPlan::Act { request, result, playback }
            && is_empty_body(request, false, api_url("/me/player/volume?volume_percent="@
                + decimal(min_u32(volume_percent, 100) as nat))) && result@ == "{}"@ && playback,
        CommandView::FadeSkip { .. } => plan matches CommandPlan::Fade { pause } && !pause,
        CommandView::FadePause { .. } => plan matches CommandPlan::Fade { pause } && pause,
    }
}

/// Splits a command into its id and its execution plan.
#[verifier::rlimit(50)]
pub fn plan_command(cmd: ServerCommand) -> (r: (String, CommandPlan))
    ensures
        r.0@ == cmd@.id(),
        plan_for(cmd@, r.1),
{
    match cmd {
        ServerCommand::GetNowPlaying { id, .. } =>
            (id, CommandPlan::Fetch { request: now_playing_request(), payload: Payload::NowPlaying }),
        ServerCommand::GetQueue { id, .. } =>
            (id, CommandPlan::Fetch { request: queue_request(), payload: Payload::Queue }),
        ServerCommand::Search { id, query, .. } =>
            (id, CommandPlan::Fetch { request: search_request(query.as_str(), 20), payload: Payload::Search }),
        ServerCommand::AddToQueue { id, track_uri, .. } => (id, CommandPlan::Act {
            request: add_to_queue_request(track_uri.as_str()),
            result: "{\"success\":true}".to_owned(),
            playback: false,
        }),
        ServerCommand::GetPlaybackState { id, .. } =>
            (id, CommandPlan::Fetch { request: playback_state_request(), payload: Payload::PlaybackState }),
        ServerCommand::GetPlaylistTracks { id, playlist_id, offset, limit, .. } => {
            let o = match offset {
                Some(o) => o,
                None => 0,
            };
            let l = match limit {
                Some(l) => l,
                None => 100,
            };
            (id, CommandPlan::Fetch {
                request: playlist_tracks_request(playlist_id.as_str(), o, l),
                payload: Payload::PlaylistTracks,
            })
        },
        ServerCommand::AddToPlaylist { id, playlist_id, uris, position, .. } => {
            let requests = add_to_playlist_requests(playlist_id.as_str(), &uris, position);
            proof {
                assert forall|j: int| 0 <= j < requests@.len() implies strings_view(batch(uris@, j))
                    == batch(strings_view(uris@), j) by {
                    lemma_batch_view(uris@, j);
                }
            }
            (id, CommandPlan::Edit { requests })
        },
        ServerCommand::RemoveFromPlaylist { id, playlist_id, uris, .. } => {
            let requests = remove_from_playlist_requests(playlist_id.as_str(), &uris);
            proof {
                assert forall|j: int| 0 <= j < requests@.len() implies strings_view(batch(uris@, j))
                    == batch(strings_view(uris@), j) by {
                    lemma_batch_view(uris@, j);
                }
            }
            (id, CommandPlan::Edit { requests })
        },
        ServerCommand::ReplacePlaylist { id, playlist_id, uris, .. } => {
            let requests = replace_playlist_requests(playlist_id.as_str(), &uris);
            proof {
                lemma_batch_view(uris@, 0);
                assert forall|j: int| 1 <= j < requests@.len() implies strings_view(batch(uris@, j))
                    == batch(strings_view(uris@), j) by {
                    lemma_batch_view(uris@, j);
                }
            }
            (id, CommandPlan::Edit { requests })
        },
        ServerCommand::CreatePlaylist { id, name, description, public, .. } => {
            let p = match public {
                Some(b) => b,
                None => false,
            };
            (id, CommandPlan::CreatePlaylist { name, description, public: p })
        },
        ServerCommand::GetArtists { id, artist_ids, .. } =>
            (id, CommandPlan::Fetch { request: artists_request(&artist_ids), payload: Payload::Artists }),
        ServerCommand::GetPlaylistDetails { id, playlist_id, .. } => (id, CommandPlan::Fetch {
            request: playlist_details_request(playlist_id.as_str()),
            payload: Payload::PlaylistDetails,
        }),
        ServerCommand::GetCurrentUser { id, .. } => (id, CommandPlan::CurrentUser),
        ServerCommand::Pause { id, .. } =>
            (id, CommandPlan::Act { request: pause_request(), result: "{}".to_owned(), playback: true }),
        ServerCommand::Resume { id, .. } =>
            (id, CommandPlan::Act { request: resume_request(), result: "{}".to_owned(), playback: true }),
        ServerCommand::SkipNext { id, .. } =>
            (id, CommandPlan::Act { request: skip_next_request(), result: "{}".to_owned(), playback: true }),
        ServerCommand::SkipPrevious { id, .. } =>
            (id, CommandPlan::Act { request: skip_previous_request(), result: "{}".to_owned(), playback: true }),
        ServerCommand::SetVolume { id, volume_percent, .. } => (id, CommandPlan::Act {
            request: set_volume_request(volume_percent),
            result: "{}".to_owned(),
            playback: true,
        }),
        ServerCommand::FadeSkip { id, .. } => (id, CommandPlan::Fade { pause: false }),
        ServerCommand::FadePause { id, .. } => (id, CommandPlan::Fade { pause: true }),
    }
}


/// The response to a fetched result (`result` is the JSON text of the decoded data).
pub fn fetch_response(id: String, outcome: Result<String, SpotifyError>) -> (r: CommandResponse)
    ensures
        r.id == id,
        match outcome {
            Ok(t) => r.result == Some(t) && r.error is None,
            Err(e) => r.result is None && (r.error matches Some(x) && x.code@ == "spotify_error"@
                && x.message@ == e.spec_message()),
        },
{
    match outcome {
        Ok(t) => success_response(id, t),
        Err(e) => spotify_error_response(id, &e),
    }
}

/// The response to an action: its fixed result, or the error (with playback codes for
/// playback commands).
pub fn act_response(id: String, result: String, playback: bool, outcome: Result<(), SpotifyError>) -> (r: CommandResponse)
    ensures
        r.id == id,
        match outcome {
            Ok(()) => r.result == Some(result) && r.error is None,
            Err(e) => r.result is None && (r.error matches Some(x) && (x.code@, x.message@) == if playback {
                playback_error(e)
            } else {
                ("spotify_error"@, e.spec_message())
            }),
        },
{
    match outcome {
        Ok(()) => success_response(id, result),
        Err(e) => if playback {
            playback_error_response(id, &e)
        } else {
            spotify_error_response(id, &e)
        },
    }
}

/// The response to a playlist edit: `{"snapshot_id":..}` or the error.
pub fn edit_response(id: String, outcome: Result<String, SpotifyError>) -> (r: CommandResponse)
    ensures
        r.id == id,
        match outcome {
            Ok(snap) => r.error is None && (r.result matches Some(t)
                && t@ == "{\"snapshot_id\":"@ + json_string(snap@) + "}"@),
            Err(e) => r.result is None && (r.error matches Some(x) && x.code@ == "spotify_error"@
                && x.message@ == e.spec_message()),
        },
{
    match outcome {
        Ok(snap) => {
            let mut t = String::new();
            push_str(&mut t, "{\"snapshot_id\":");
            push_str(&mut t, json_quote(snap.as_str()).as_str());
            push_str(&mut t, "}");
            success_response(id, t)
        },
        Err(e) => spotify_error_response(id, &e),
    }
}

/// The current volume reported by a playback state query: the active device's
/// volume, when there is a device that reports one.
pub open spec fn spec_volume_of(outcome: Result<Option<PlaybackState>, SpotifyError>) -> Option<u32> {
    match outcome {
        Ok(Some(st)) => match st.device {
            Some(d) => d.volume_percent,
            None => None,
        },
        _ => None,
    }
}

pub fn volume_of(outcome: &Result<Option<PlaybackState>, SpotifyError>) -> (r: Option<u32>)
    ensures
        r == spec_volume_of(*outcome),
{
    match outcome {
        Ok(Some(st)) => match &st.device {
            Some(d) => d.volume_percent,
            None => None,
        },
        _ => None,
    }
}

/// Number of volume steps of a fade.
pub const FADE_STEPS: u32 = 5;

/// The volume set at fade step `i` (1..=5) from the original volume `v`.
pub open spec fn fade_volume(v: u32, i: u32) -> u32 {
    ((v * (5 - i)) / 5) as u32
}

/// Largest original volume a fade handles (its first step multiplies it by four).
pub open spec fn max_fade_volume() -> u32 {
    u32::MAX / 4
}

/// What the caller does next for a fade.
#[derive(Debug)]
pub enum FadeAction {
    /// Query the playback state and report [`FadeEvent::Volume`] with [`volume_of`].
    ReadVolume,
    /// Set the volume (ignoring failures), wait 200 ms, report [`FadeEvent::Stepped`].
    StepVolume(u32),
    /// Skip to the next track (or pause), report [`FadeEvent::Acted`].
    Act,
    /// Wait `delay_ms`, set the volume back, report [`FadeEvent::Restored`].
    Restore { volume: u32, delay_ms: u64 },
    /// Set the volume back (ignoring failures) and answer with the response.
    RestoreAndRespond { volume: u32, response: CommandResponse },
    /// Answer with the response; the fade is over.
    Respond(CommandResponse),
}

/// What happened since the last action.
#[derive(Debug)]
pub enum FadeEvent {
    Volume(Option<u32>),
    Stepped,
    Acted(Result<(), SpotifyError>),
    /// Whether restoring the volume succeeded.
    Restored(bool),
}

/// Where a fade stands.
#[derive(Debug)]
pub enum FadePhase {
    Start,
    Reading,
    /// Fading from `original`, step `step` (1..=5) was just requested.
    Fading { original: u32, step: u32 },
    /// The skip/pause was requested; `restore` is the volume to restore, if known.
    Acting { restore: Option<u32> },
    Restoring,
    Done,
}

/// A fade-out followed by a skip (`pause == false`) or a pause, restoring the volume.
#[derive(Debug)]
pub struct Fade {
    pub id: String,
    pub pause: bool,
    pub phase: FadePhase,
}

/// The success result of a fade whose volume could not be read.
pub open spec fn unread_volume_result() -> Seq<char> {
    "{\"warning\":\"Could not read volume\"}"@
}

/// The success result of a fade whose volume could not be restored.
pub open spec fn unrestored_volume_result() -> Seq<char> {
    "{\"warning\":\"Could not restore volume\"}"@
}

impl Fade {
    pub fn new(id: String, pause: bool) -> (r: Self)
        ensures
            r.id == id,
            r.pause == pause,
            r.phase is Start,
    {
        Fade { id, pause, phase: FadePhase::Start }
    }

    /// Whether `ev` is the report the fade waits for in its current phase.
    pub open spec fn accepts(&self, ev: FadeEvent) -> bool {
        match self.phase {
            FadePhase::Reading => ev matches FadeEvent::Volume(v) && (v matches Some(x) ==> x <= max_fade_volume()),
            FadePhase::Fading { original, step } => ev is Stepped && 1 <= step <= 5 && original <= max_fade_volume(),
            FadePhase::Acting { .. } => ev is Acted,
            FadePhase::Restoring => ev is Restored,
            _ => false,
        }
    }

    /// Starts the fade: the current volume is read first.
    pub fn start(&mut self) -> (a: FadeAction)
        requires
            old(self).phase is Start,
        ensures
            a is ReadVolume,
            final(self).phase is Reading,
            final(self).id == old(self).id,
            final(self).pause == old(self).pause,
    {
        self.phase = FadePhase::Reading;
        FadeAction::ReadVolume
    }

    /// One step of a fade: from `old`, on the report `ev`, the fade becomes `new` and
    /// asks for `a`. With an unknown volume the skip/pause happens at once and the answer
    /// carries a warning; otherwise the volume goes down in five steps to zero, the
    /// skip/pause happens, and the original volume is restored (after 500 ms for a skip).
    pub open spec fn transition(old: Fade, ev: FadeEvent, new: Fade, a: FadeAction) -> bool {
        &&& new.id == old.id
        &&& new.pause == old.pause
        &&& match (old.phase, ev) {
            (FadePhase::Reading, FadeEvent::Volume(None)) =>
                a is Act && new.phase == FadePhase::Acting { restore: None },
            (FadePhase::Reading, FadeEvent::Volume(Some(v))) =>
                a == FadeAction::StepVolume(fade_volume(v, 1))
                && new.phase == FadePhase::Fading { original: v, step: 1 },
            (FadePhase::Fading { original, step }, _) => if step < 5 {
                a == FadeAction::StepVolume(fade_volume(original, (step + 1) as u32))
                    && new.phase == FadePhase::Fading { original, step: (step + 1) as u32 }
            } else {
                a is Act && new.phase == FadePhase::Acting { restore: Some(original) }
            },
            (FadePhase::Acting { restore: None }, FadeEvent::Acted(Ok(()))) => new.phase is Done
                && (a matches FadeAction::Respond(r) && r.id == old.id && r.error is None
                    && (r.result matches Some(t) && t@ == unread_volume_result())),
            (FadePhase::Acting { restore: None }, FadeEvent::Acted(Err(e))) => new.phase is Done
                && (a matches FadeAction::Respond(r) && r.id == old.id && r.result is None
                    && (r.error matches Some(x) && (x.code@, x.message@) == playback_error(e))),
            (FadePhase::Acting { restore: Some(v) }, FadeEvent::Acted(Ok(()))) => new.phase is Restoring
                && a == FadeAction::Restore { volume: v, delay_ms: if old.pause { 0 } else { 500 } },
            (FadePhase::Acting { restore: Some(v) }, FadeEvent::Acted(Err(e))) => new.phase is Done
                && (a matches FadeAction::RestoreAndRespond { volume, response: r } && volume == v
                    && r.id == old.id && r.result is None
                    && (r.error matches Some(x) && (x.code@, x.message@) == playback_error(e))),
            (FadePhase::Restoring, FadeEvent::Restored(ok)) => new.phase is Done
                && (a matches FadeAction::Respond(r) && r.id == old.id && r.error is None
                    && (r.result matches Some(t) && t@ == if ok { "{}"@ } else { unrestored_volume_result() })),
            _ => false,
        }
    }

    /// Advances the fade on the report `ev` (see [`Fade::transition`]).
    pub fn on_event(&mut self, ev: FadeEvent) -> (a: FadeAction)
        requires
            old(self).accepts(ev),
        ensures
            Fade::transition(*old(self), ev, *final(self), a),
    {
        let id = self.id.clone();
        match ev {
            FadeEvent::Volume(v) => match v {
                None => {
                    self.phase = FadePhase::Acting { restore: None };
                    FadeAction::Act
                },
                Some(v) => {
                    self.phase = FadePhase::Fading { original: v, step: 1 };
                    FadeAction::StepVolume(v * 4 / 5)
                },
            },
            FadeEvent::Stepped => {
                match self.phase {
                    FadePhase::Fading { original, step } => {
                        if step < 5 {
                            let next = step + 1;
                            assert(original * (5 - next) <= u32::MAX) by (nonlinear_arith)
                                requires
                                    original <= u32::MAX / 4,
                                    2 <= next <= 5,
                            ;
                            self.phase = FadePhase::Fading { original, step: next };
                            FadeAction::StepVolume(original * (5 - next) / 5)
                        } else {
                            self.phase = FadePhase::Acting { restore: Some(original) };
                            FadeAction::Act
                        }
                    },
                    _ => FadeAction::Act,
                }
            },
            FadeEvent::Acted(outcome) => {
                let original = match self.phase {
                    FadePhase::Acting { restore } => restore,
                    _ => None,
                };
                match (original, outcome) {
                    (None, Ok(())) => {
                        self.phase = FadePhase::Done;
                        FadeAction::Respond(success_response(
                            id,
                            "{\"warning\":\"Could not read volume\"}".to_owned(),
                        ))
                    },
                    (None, Err(e)) => {
                        self.phase = FadePhase::Done;
                        FadeAction::Respond(playback_error_response(id, &e))
                    },
                    (Some(v), Ok(())) => {
                        self.phase = FadePhase::Restoring;
                        FadeAction::Restore { volume: v, delay_ms: if self.pause { 0 } else { 500 } }
                    },
                    (Some(v), Err(e)) => {
                        self.phase = FadePhase::Done;
                        FadeAction::RestoreAndRespond { volume: v, response: playback_error_response(id, &e) }
                    },
                }
            },
            FadeEvent::Restored(ok) => {
                self.phase = FadePhase::Done;
                let t = if ok { "{}".to_owned() } else { "{\"warning\":\"Could not restore volume\"}".to_owned() };
                FadeAction::Respond(success_response(id, t))
            },
        }
    }
}

} // verus!
