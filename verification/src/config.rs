//! Relay configuration: the shared settings, the headless JSON config and the
//! desktop store-backed config.
use vstd::prelude::*;
use crate::text::{chars_of, is_ws, trim, trim_bounds};

verus! {

/// The OAuth redirect URI of the local callback listener.
pub open spec fn default_redirect_uri() -> Seq<char> {
    "http://127.0.0.1:18974/callback"@
}

/// Settings the relay runs with.
#[derive(Debug)]
pub struct RelayConfig {
    pub server_url: String,
    pub api_key: String,
    pub spotify_client_id: String,
    pub redirect_uri: String,
    pub poll_interval_secs: u64,
}

impl RelayConfig {
    /// All of server URL, API key and client id are non-empty.
    pub open spec fn spec_is_configured(&self) -> bool {
        self.server_url@.len() > 0 && self.api_key@.len() > 0 && self.spotify_client_id@.len() > 0
    }

    pub fn is_configured(&self) -> (r: bool)
        ensures
            r == self.spec_is_configured(),
    {
        !self.server_url.as_str().is_empty() && !self.api_key.as_str().is_empty()
            && !self.spotify_client_id.as_str().is_empty()
    }

    /// Full mode (with the server connection) needs a server URL and an API key;
    /// otherwise the relay only polls Spotify.
    pub fn has_server(&self) -> (r: bool)
        ensures
            r == (self.server_url@.len() > 0 && self.api_key@.len() > 0),
    {
        !self.server_url.as_str().is_empty() && !self.api_key.as_str().is_empty()
    }

    /// The poll period in seconds (at least one second).
    pub fn poll_period_secs(&self) -> (r: u64)
        ensures
            r == if self.poll_interval_secs >= 1 { self.poll_interval_secs } else { 1 },
    {
        if self.poll_interval_secs >= 1 { self.poll_interval_secs } else { 1 }
    }
}

impl Default for RelayConfig {
    fn default() -> (r: Self)
        ensures
            r.server_url@.len() == 0,
            r.api_key@.len() == 0,
            r.spotify_client_id@.len() == 0,
            r.redirect_uri@ == default_redirect_uri(),
            r.poll_interval_secs == 5,
    {
        RelayConfig {
            server_url: String::new(),
            api_key: String::new(),
            spotify_client_id: String::new(),
            redirect_uri: "http://127.0.0.1:18974/callback".to_owned(),
            poll_interval_secs: 5,
        }
    }
}

/// The headless relay's JSON config file.
#[derive(Debug)]
pub struct HeadlessConfig {
    pub server_url: String,
    pub api_key: String,
    pub spotify_client_id: String,
    pub poll_interval_secs: u64,
    pub refresh_token: Option<String>,
}

/// The poll interval used when the config file has none.
pub fn default_poll_interval() -> (r: u64)
    ensures
        r == 5,
{
    5
}

/// The value of a string of ASCII digits.
pub open spec fn digits_value(s: Seq<char>) -> nat
    decreases s.len(),
{
    if s.len() == 0 {
        0
    } else {
        10 * digits_value(s.drop_last()) + ((s.last() as nat) - 48) as nat
    }
}

pub open spec fn is_digit(c: char) -> bool {
    '0' <= c <= '9'
}

/// Every character is an ASCII digit.
pub open spec fn all_digits(d: Seq<char>) -> bool {
    forall|i: int| 0 <= i < d.len() ==> is_digit(#[trigger] d[i])
}

/// The digits of an unsigned number literal: without its optional leading `+`.
pub open spec fn unsigned_digits(s: Seq<char>) -> Seq<char> {
    if s.len() > 0 && s[0] == '+' { s.drop_first() } else { s }
}

/// `str::parse::<u64>`: an optional `+`, then at least one ASCII digit, with a value
/// that fits in `u64`.
pub open spec fn spec_parse_u64(s: Seq<char>) -> Option<u64> {
    let d = unsigned_digits(s);
    if d.len() > 0 && all_digits(d) && digits_value(d) <= u64::MAX {
        Some(digits_value(d) as u64)
    } else {
        None
    }
}

proof fn lemma_digits_monotone(d: Seq<char>, k: int)
    requires
        0 <= k <= d.len(),
        all_digits(d),
    ensures
        digits_value(d.take(k)) <= digits_value(d),
    decreases d.len() - k,
{
    if k < d.len() {
        lemma_digits_monotone(d, k + 1);
        assert(d.take(k + 1).drop_last() =~= d.take(k));
    } else {
        assert(d.take(k) =~= d);
    }
}

/// Parses a decimal `u64` as `str::parse` does.
pub fn parse_u64(s: &str) -> (r: Option<u64>)
    ensures
        r == spec_parse_u64(s@),
{
    let cs = chars_of(s);
    let n = cs.len();
    let start: usize = if n > 0 && cs[0] == '+' { 1 } else { 0 };
    let ghost d = unsigned_digits(s@);
    assert(d =~= cs@.subrange(start as int, n as int));
    if start == n {
        return None;
    }
    let mut v: u64 = 0;
    let mut i = start;
    while i < n
        invariant
            start <= i <= n,
            n == cs@.len(),
            d == cs@.subrange(start as int, n as int),
            d == unsigned_digits(s@),
            forall|k: int| start <= k < i ==> is_digit(#[trigger] cs@[k]),
            v as nat == digits_value(cs@.subrange(start as int, i as int)),
        decreases n - i,
    {
        let c = cs[i];
        assert(cs@.subrange(start as int, i + 1).drop_last() =~= cs@.subrange(start as int, i as int));
        if !('0' <= c && c <= '9') {
            assert(d[i - start] == cs@[i as int]);
            assert(!is_digit(d[i - start]));
            return None;
        }
        let digit = (c as u32 - 48) as u64;
        let next = match v.checked_mul(10) {
            Some(m) => m.checked_add(digit),
            None => None,
        };
        match next {
            Some(w) => {
                v = w;
            },
            None => {
                proof {
                    assert(digits_value(cs@.subrange(start as int, i + 1)) == 10 * v + digit);
                    if all_digits(d) {
                        lemma_digits_monotone(d, i + 1 - start);
                        assert(d.take(i + 1 - start) =~= cs@.subrange(start as int, i + 1));
                    }
                }
                return None;
            },
        }
        i = i + 1;
    }
    assert(cs@.subrange(start as int, n as int) =~= d);
    Some(v)
}

/// The poll interval typed at first-run setup: 5 when empty or not a number,
/// otherwise the number clamped to 1..=60.
pub open spec fn spec_poll_interval_input(line: Seq<char>) -> u64 {
    if line.len() == 0 {
        5
    } else {
        let v = match spec_parse_u64(line) {
            Some(v) => v,
            None => 5,
        };
        if v < 1 { 1 } else if v > 60 { 60 } else { v }
    }
}

impl HeadlessConfig {
    pub open spec fn spec_is_configured(&self) -> bool {
        self.server_url@.len() > 0 && self.api_key@.len() > 0 && self.spotify_client_id@.len() > 0
    }

    pub fn is_configured(&self) -> (r: bool)
        ensures
            r == self.spec_is_configured(),
    {
        !self.server_url.as_str().is_empty() && !self.api_key.as_str().is_empty()
            && !self.spotify_client_id.as_str().is_empty()
    }

    /// The relay settings of this config (fixed local redirect URI).
    pub fn to_relay_config(&self) -> (r: RelayConfig)
        ensures
            r.server_url == self.server_url,
            r.api_key == self.api_key,
            r.spotify_client_id == self.spotify_client_id,
            r.redirect_uri@ == default_redirect_uri(),
            r.poll_interval_secs == self.poll_interval_secs,
    {
        RelayConfig {
            server_url: self.server_url.clone(),
            api_key: self.api_key.clone(),
            spotify_client_id: self.spotify_client_id.clone(),
            redirect_uri: "http://127.0.0.1:18974/callback".to_owned(),
            poll_interval_secs: self.poll_interval_secs,
        }
    }

    /// Interprets the (already trimmed) poll interval answer of the first-run setup.
    pub fn poll_interval_from_input(line: &str) -> (r: u64)
        ensures
            r == spec_poll_interval_input(line@),
    {
        if line.is_empty() {
            return 5;
        }
        let v = match parse_u64(line) {
            Some(v) => v,
            None => 5,
        };
        if v < 1 { 1 } else if v > 60 { 60 } else { v }
    }

    /// The config assembled from the first-run answers (lines as typed, trimmed here).
    pub fn from_answers(server_url: &str, api_key: &str, spotify_client_id: &str, poll: &str) -> (r: Self)
        ensures
            r.server_url@ == trim(server_url@),
            r.api_key@ == trim(api_key@),
            r.spotify_client_id@ == trim(spotify_client_id@),
            r.poll_interval_secs == spec_poll_interval_input(trim(poll@)),
            r.refresh_token is None,
    {
        let p = trimmed(poll);
        let poll_interval_secs = Self::poll_interval_from_input(p.as_str());
        HeadlessConfig {
            server_url: trimmed(server_url),
            api_key: trimmed(api_key),
            spotify_client_id: trimmed(spotify_client_id),
            poll_interval_secs,
            refresh_token: None,
        }
    }
}

/// `str::trim` as an owned string.
pub fn trimmed(s: &str) -> (r: String)
    ensures
        r@ == trim(s@),
{
    let cs = chars_of(s);
    let (lo, hi) = trim_bounds(&cs, 0, cs.len());
    assert(cs@.subrange(0, cs@.len() as int) =~= s@);
    crate::text::string_of(&cs, lo, hi)
}

impl Default for HeadlessConfig {
    fn default() -> (r: Self)
        ensures
            r.server_url@.len() == 0,
            r.api_key@.len() == 0,
            r.spotify_client_id@.len() == 0,
            r.poll_interval_secs == 5,
            r.refresh_token is None,
    {
        HeadlessConfig {
            server_url: String::new(),
            api_key: String::new(),
            spotify_client_id: String::new(),
            poll_interval_secs: 5,
            refresh_token: None,
        }
    }
}

/// The desktop configuration kept in the application store.
#[derive(Debug)]
pub struct AppConfig {
    pub websocket_url: String,
    pub websocket_token: String,
    pub websocket_channel: String,
    pub spotify_client_id: String,
    pub redirect_uri: String,
    pub poll_interval_secs: u64,
    pub close_to_tray: bool,
}

impl Default for AppConfig {
    fn default() -> (r: Self)
        ensures
            r.websocket_url@.len() == 0,
            r.websocket_token@.len() == 0,
            r.websocket_channel@.len() == 0,
            r.spotify_client_id@.len() == 0,
            r.redirect_uri@ == default_redirect_uri(),
            r.poll_interval_secs == 5,
            r.close_to_tray,
    {
        AppConfig {
            websocket_url: String::new(),
            websocket_token: String::new(),
            websocket_channel: String::new(),
            spotify_client_id: String::new(),
            redirect_uri: "http://127.0.0.1:18974/callback".to_owned(),
            poll_interval_secs: 5,
            close_to_tray: true,
        }
    }
}

/// A string store entry, or empty.
pub open spec fn or_empty(o: Option<String>) -> Seq<char> {
    match o {
        Some(s) => s@,
        None => Seq::empty(),
    }
}

fn string_or_empty(o: Option<String>) -> (r: String)
    ensures
        r@ == or_empty(o),
{
    match o {
        Some(s) => s,
        None => String::new(),
    }
}

impl AppConfig {
    /// The config built from the store entries that hold values of the right type:
    /// missing strings are empty, the poll interval defaults to 5 and close-to-tray to true.
    pub fn from_entries(
        websocket_url: Option<String>,
        websocket_token: Option<String>,
        websocket_channel: Option<String>,
        spotify_client_id: Option<String>,
        poll_interval_secs: Option<u64>,
        close_to_tray: Option<bool>,
    ) -> (r: Self)
        ensures
            r.websocket_url@ == or_empty(websocket_url),
            r.websocket_token@ == or_empty(websocket_token),
            r.websocket_channel@ == or_empty(websocket_channel),
            r.spotify_client_id@ == or_empty(spotify_client_id),
            r.redirect_uri@ == default_redirect_uri(),
            r.poll_interval_secs == match poll_interval_secs { Some(p) => p, None => 5 },
            r.close_to_tray == match close_to_tray { Some(b) => b, None => true },
    {
        AppConfig {
            websocket_url: string_or_empty(websocket_url),
            websocket_token: string_or_empty(websocket_token),
            websocket_channel: string_or_empty(websocket_channel),
            spotify_client_id: string_or_empty(spotify_client_id),
            redirect_uri: "http://127.0.0.1:18974/callback".to_owned(),
            poll_interval_secs: match poll_interval_secs {
                Some(p) => p,
                None => 5,
            },
            close_to_tray: match close_to_tray {
                Some(b) => b,
                None => true,
            },
        }
    }

    /// Configured when the WebSocket URL and the client id are set.
    pub fn is_configured(&self) -> (r: bool)
        ensures
            r == (self.websocket_url@.len() > 0 && self.spotify_client_id@.len() > 0),
    {
        !self.websocket_url.as_str().is_empty() && !self.spotify_client_id.as_str().is_empty()
    }
}

} // verus!
