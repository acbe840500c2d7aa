//! Relay status: connection states, the now-playing summary and the last error.
use vstd::prelude::*;
use crate::json::{json_quote, json_string};
use crate::text::{decimal, push_decimal, push_str};

verus! {

/// State of one connection (Spotify or the WebSocket).
#[derive(Debug, PartialEq, Eq, Structural, Clone, Copy)]
pub enum ConnectionStatus {
    Disconnected,
    Connecting,
    Connected,
}

impl Default for ConnectionStatus {
    fn default() -> (r: Self)
        ensures
            r == ConnectionStatus::Disconnected,
    {
        ConnectionStatus::Disconnected
    }
}

impl ConnectionStatus {
    /// The lower-case display text (`disconnected`, `connecting`, `connected`).
    pub open spec fn spec_text(self) -> Seq<char> {
        match self {
            ConnectionStatus::Disconnected => "disconnected"@,
            ConnectionStatus::Connecting => "connecting"@,
            ConnectionStatus::Connected => "connected"@,
        }
    }

    /// The name used in status payloads (`Disconnected`, `Connecting`, `Connected`).
    pub open spec fn spec_name(self) -> Seq<char> {
        match self {
            ConnectionStatus::Disconnected => "Disconnected"@,
            ConnectionStatus::Connecting => "Connecting"@,
            ConnectionStatus::Connected => "Connected"@,
        }
    }

    /// The display text of the status.
    pub fn text(&self) -> (r: &'static str)
        ensures
            r@ == self.spec_text(),
    {
        match self {
            ConnectionStatus::Disconnected => "disconnected",
            ConnectionStatus::Connecting => "connecting",
            ConnectionStatus::Connected => "connected",
        }
    }

    /// The variant name of the status.
    pub fn name(&self) -> (r: &'static str)
        ensures
            r@ == self.spec_name(),
    {
        match self {
            ConnectionStatus::Disconnected => "Disconnected",
            ConnectionStatus::Connecting => "Connecting",
            ConnectionStatus::Connected => "Connected",
        }
    }
}

/// A summary of the current track, as shown and broadcast.
#[derive(Debug)]
pub struct NowPlayingInfo {
    pub track_name: String,
    pub artist_name: String,
    pub album_name: String,
    pub album_art_url: Option<String>,
    pub is_playing: bool,
    pub progress_ms: Option<u64>,
    pub duration_ms: u64,
    pub track_uri: String,
}

/// JSON for an optional string (`null` when absent).
pub open spec fn opt_string_json(o: Option<String>) -> Seq<char> {
    match o {
        Some(s) => json_string(s@),
        None => "null"@,
    }
}

/// JSON for an optional number (`null` when absent).
pub open spec fn opt_u64_json(o: Option<u64>) -> Seq<char> {
    match o {
        Some(n) => decimal(n as nat),
        None => "null"@,
    }
}

/// JSON for a boolean.
pub open spec fn bool_json(b: bool) -> Seq<char> {
    if b { "true"@ } else { "false"@ }
}

fn push_opt_string(out: &mut String, o: &Option<String>)
    ensures
        final(out)@ == old(out)@ + opt_string_json(*o),
{
    match o {
        Some(s) => push_str(out, json_quote(s.as_str()).as_str()),
        None => push_str(out, "null"),
    }
}

fn push_bool(out: &mut String, b: bool)
    ensures
        final(out)@ == old(out)@ + bool_json(b),
{
    if b {
        push_str(out, "true")
    } else {
        push_str(out, "false")
    }
}

impl NowPlayingInfo {
    /// The JSON object of the summary, members in sorted order.
    pub open spec fn spec_json(&self) -> Seq<char> {
        "{\"album_art_url\":"@ + opt_string_json(self.album_art_url) + ",\"album_name\":"@
            + json_string(self.album_name@) + ",\"artist_name\":"@ + json_string(self.artist_name@)
            + ",\"duration_ms\":"@ + decimal(self.duration_ms as nat) + ",\"is_playing\":"@
            + bool_json(self.is_playing) + ",\"progress_ms\":"@ + opt_u64_json(self.progress_ms)
            + ",\"track_name\":"@ + json_string(self.track_name@) + ",\"track_uri\":"@
            + json_string(self.track_uri@) + "}"@
    }

    /// Serializes the summary.
    pub fn to_json(&self) -> (r: String)
        ensures
            r@ == self.spec_json(),
    {
        let mut out = String::new();
        push_str(&mut out, "{\"album_art_url\":");
        push_opt_string(&mut out, &self.album_art_url);
        push_str(&mut out, ",\"album_name\":");
        push_str(&mut out, json_quote(self.album_name.as_str()).as_str());
        push_str(&mut out, ",\"artist_name\":");
        push_str(&mut out, json_quote(self.artist_name.as_str()).as_str());
        push_str(&mut out, ",\"duration_ms\":");
        push_decimal(&mut out, self.duration_ms);
        push_str(&mut out, ",\"is_playing\":");
        push_bool(&mut out, self.is_playing);
        push_str(&mut out, ",\"progress_ms\":");
        match self.progress_ms {
            Some(p) => push_decimal(&mut out, p),
            None => push_str(&mut out, "null"),
        }
        push_str(&mut out, ",\"track_name\":");
        push_str(&mut out, json_quote(self.track_name.as_str()).as_str());
        push_str(&mut out, ",\"track_uri\":");
        push_str(&mut out, json_quote(self.track_uri.as_str()).as_str());
        push_str(&mut out, "}");
        assert(out@ =~= self.spec_json());
        out
    }

    /// A field-by-field copy.
    pub fn copy(&self) -> (r: Self)
        ensures
            r == *self,
    {
        NowPlayingInfo {
            track_name: self.track_name.clone(),
            artist_name: self.artist_name.clone(),
            album_name: self.album_name.clone(),
            album_art_url: match &self.album_art_url {
                Some(u) => Some(u.clone()),
                None => None,
            },
            is_playing: self.is_playing,
            progress_ms: self.progress_ms,
            duration_ms: self.duration_ms,
            track_uri: self.track_uri.clone(),
        }
    }
}

/// The state shown to the user: connection statuses, current track, last error.
#[derive(Debug)]
pub struct AppState {
    pub spotify_status: ConnectionStatus,
    pub websocket_status: ConnectionStatus,
    pub now_playing: Option<NowPlayingInfo>,
    pub last_error: Option<String>,
}

impl Default for AppState {
    fn default() -> (r: Self)
        ensures
            r.spotify_status == ConnectionStatus::Disconnected,
            r.websocket_status == ConnectionStatus::Disconnected,
            r.now_playing is None,
            r.last_error is None,
    {
        AppState {
            spotify_status: ConnectionStatus::Disconnected,
            websocket_status: ConnectionStatus::Disconnected,
            now_playing: None,
            last_error: None,
        }
    }
}

/// A status line and whether it is logged as a warning.
#[derive(Debug)]
pub struct StatusReport {
    pub warn: bool,
    pub text: String,
}

impl AppState {
    /// The status line of the headless relay: `[spotify|ws] Now playing: artist - track`
    /// while a named track plays; otherwise `[spotify|ws] Error: ..` (a warning) when an
    /// error is recorded; otherwise `[spotify|ws]`.
    pub open spec fn spec_report(&self) -> (bool, Seq<char>) {
        let prefix = "["@ + self.spotify_status.spec_text() + "|"@ + self.websocket_status.spec_text() + "]"@;
        let playing = match self.now_playing {
            Some(np) => np.is_playing && np.track_name@.len() > 0,
            None => false,
        };
        if playing {
            let np = self.now_playing->Some_0;
            (false, prefix + " Now playing: "@ + np.artist_name@ + " - "@ + np.track_name@)
        } else {
            match self.last_error {
                Some(e) => (true, prefix + " Error: "@ + e@),
                None => (false, prefix),
            }
        }
    }

    /// Builds the status line (see [`AppState::spec_report`]).
    pub fn status_report(&self) -> (r: StatusReport)
        ensures
            (r.warn, r.text@) == self.spec_report(),
    {
        let mut t = String::new();
        push_str(&mut t, "[");
        push_str(&mut t, self.spotify_status.text());
        push_str(&mut t, "|");
        push_str(&mut t, self.websocket_status.text());
        push_str(&mut t, "]");
        match &self.now_playing {
            Some(np) => {
                if np.is_playing && np.track_name.as_str().unicode_len() > 0 {
                    push_str(&mut t, " Now playing: ");
                    push_str(&mut t, np.artist_name.as_str());
                    push_str(&mut t, " - ");
                    push_str(&mut t, np.track_name.as_str());
                    return StatusReport { warn: false, text: t };
                }
            },
            None => {},
        }
        match &self.last_error {
            Some(e) => {
                push_str(&mut t, " Error: ");
                push_str(&mut t, e.as_str());
                StatusReport { warn: true, text: t }
            },
            None => StatusReport { warn: false, text: t },
        }
    }

    /// The status payload `{"last_error":..,"now_playing":..,"spotify":..,"websocket":..}`.
    pub open spec fn spec_status_json(&self) -> Seq<char> {
        "{\"last_error\":"@ + opt_string_json(self.last_error) + ",\"now_playing\":"@
            + match self.now_playing {
                Some(np) => np.spec_json(),
                None => "null"@,
            } + ",\"spotify\":"@ + json_string(self.spotify_status.spec_name()) + ",\"websocket\":"@
            + json_string(self.websocket_status.spec_name()) + "}"@
    }

    /// Serializes the status payload sent to the user interface.
    pub fn status_json(&self) -> (r: String)
        ensures
            r@ == self.spec_status_json(),
    {
        let mut out = String::new();
        push_str(&mut out, "{\"last_error\":");
        push_opt_string(&mut out, &self.last_error);
        push_str(&mut out, ",\"now_playing\":");
        match &self.now_playing {
            Some(np) => push_str(&mut out, np.to_json().as_str()),
            None => push_str(&mut out, "null"),
        }
        push_str(&mut out, ",\"spotify\":");
        push_str(&mut out, json_quote(self.spotify_status.name()).as_str());
        push_str(&mut out, ",\"websocket\":");
        push_str(&mut out, json_quote(self.websocket_status.name()).as_str());
        push_str(&mut out, "}");
        assert(out@ =~= self.spec_status_json());
        out
    }
}

} // verus!
