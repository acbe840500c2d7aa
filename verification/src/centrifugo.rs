//! Centrifugo JSON protocol: server commands, command responses, wire frames,
//! reply handling and reconnection backoff.
use vstd::prelude::*;
use crate::json::{
    child, child_pointer, index_pointer, json_lookup, json_node_at, opt_bool, opt_string, opt_u32, req_string,
    req_strings, req_u32, spec_opt_bool, spec_opt_string, spec_opt_u32, spec_req_string,
    spec_req_strings, spec_req_u32, strings_view, JsonNode, JsonNodeView,
};
use crate::text::{chars_of, push_char, push_decimal, push_str, slice_eq, str_eq, string_of, trim, trim_bounds, decimal};
use crate::json::{json_quote, json_string};


verus! {

/// Upper bound of the reconnection backoff, in seconds.
pub const MAX_BACKOFF_SECS: u64 = 30;

/// A command published by the server on the relay channel.
#[derive(Debug)]
pub enum ServerCommand {
    GetNowPlaying { id: String, nonce: Option<String> },
    GetQueue { id: String, nonce: Option<String> },
    Search { id: String, query: String, nonce: Option<String> },
    AddToQueue { id: String, track_uri: String, nonce: Option<String> },
    GetPlaybackState { id: String, nonce: Option<String> },
    GetPlaylistTracks {
        id: String,
        playlist_id: String,
        offset: Option<u32>,
        limit: Option<u32>,
        nonce: Option<String>,
    },
    AddToPlaylist {
        id: String,
        playlist_id: String,
        uris: Vec<String>,
        position: Option<u32>,
        nonce: Option<String>,
    },
    RemoveFromPlaylist { id: String, playlist_id: String, uris: Vec<String>, nonce: Option<String> },
    ReplacePlaylist { id: String, playlist_id: String, uris: Vec<String>, nonce: Option<String> },
    CreatePlaylist {
        id: String,
        name: String,
        description: Option<String>,
        public: Option<bool>,
        nonce: Option<String>,
    },
    GetArtists { id: String, artist_ids: Vec<String>, nonce: Option<String> },
    GetPlaylistDetails { id: String, playlist_id: String, nonce: Option<String> },
    GetCurrentUser { id: String, nonce: Option<String> },
    Pause { id: String, nonce: Option<String> },
    Resume { id: String, nonce: Option<String> },
    SkipNext { id: String, nonce: Option<String> },
    SkipPrevious { id: String, nonce: Option<String> },
    SetVolume { id: String, volume_percent: u32, nonce: Option<String> },
    FadeSkip { id: String, nonce: Option<String> },
    FadePause { id: String, nonce: Option<String> },
}

/// The mathematical value of a [`ServerCommand`].
pub enum CommandView {
    GetNowPlaying { id: Seq<char>, nonce: Option<Seq<char>> },
    GetQueue { id: Seq<char>, nonce: Option<Seq<char>> },
    Search { id: Seq<char>, query: Seq<char>, nonce: Option<Seq<char>> },
    AddToQueue { id: Seq<char>, track_uri: Seq<char>, nonce: Option<Seq<char>> },
    GetPlaybackState { id: Seq<char>, nonce: Option<Seq<char>> },
    GetPlaylistTracks {
        id: Seq<char>,
        playlist_id: Seq<char>,
        offset: Option<u32>,
        limit: Option<u32>,
        nonce: Option<Seq<char>>,
    },
    AddToPlaylist {
        id: Seq<char>,
        playlist_id: Seq<char>,
        uris: Seq<Seq<char>>,
        position: Option<u32>,
        nonce: Option<Seq<char>>,
    },
    RemoveFromPlaylist { id: Seq<char>, playlist_id: Seq<char>, uris: Seq<Seq<char>>, nonce: Option<Seq<char>> },
    ReplacePlaylist { id: Seq<char>, playlist_id: Seq<char>, uris: Seq<Seq<char>>, nonce: Option<Seq<char>> },
    CreatePlaylist {
        id: Seq<char>,
        name: Seq<char>,
        description: Option<Seq<char>>,
        public: Option<bool>,
        nonce: Option<Seq<char>>,
    },
    GetArtists { id: Seq<char>, artist_ids: Seq<Seq<char>>, nonce: Option<Seq<char>> },
    GetPlaylistDetails { id: Seq<char>, playlist_id: Seq<char>, nonce: Option<Seq<char>> },
    GetCurrentUser { id: Seq<char>, nonce: Option<Seq<char>> },
    Pause { id: Seq<char>, nonce: Option<Seq<char>> },
    Resume { id: Seq<char>, nonce: Option<Seq<char>> },
    SkipNext { id: Seq<char>, nonce: Option<Seq<char>> },
    SkipPrevious { id: Seq<char>, nonce: Option<Seq<char>> },
    SetVolume { id: Seq<char>, volume_percent: u32, nonce: Option<Seq<char>> },
    FadeSkip { id: Seq<char>, nonce: Option<Seq<char>> },
    FadePause { id: Seq<char>, nonce: Option<Seq<char>> },
}

/// The view of an optional string.
pub open spec fn opt_view(o: Option<String>) -> Option<Seq<char>> {
    match o {
        Some(s) => Some(s@),
        None => None,
    }
}

impl View for ServerCommand {
    type V = CommandView;

    open spec fn view(&self) -> CommandView {
        match self {
            ServerCommand::GetNowPlaying { id, nonce } =>
                CommandView::GetNowPlaying { id: id@, nonce: opt_view(*nonce) },
            ServerCommand::GetQueue { id, nonce } =>
                CommandView::GetQueue { id: id@, nonce: opt_view(*nonce) },
            ServerCommand::Search { id, query, nonce } =>
                CommandView::Search { id: id@, query: query@, nonce: opt_view(*nonce) },
            ServerCommand::AddToQueue { id, track_uri, nonce } =>
                CommandView::AddToQueue { id: id@, track_uri: track_uri@, nonce: opt_view(*nonce) },
            ServerCommand::GetPlaybackState { id, nonce } =>
                CommandView::GetPlaybackState { id: id@, nonce: opt_view(*nonce) },
            ServerCommand::GetPlaylistTracks { id, playlist_id, offset, limit, nonce } =>
                CommandView::GetPlaylistTracks {
                    id: id@,
                    playlist_id: playlist_id@,
                    offset: *offset,
                    limit: *limit,
                    nonce: opt_view(*nonce),
                },
            ServerCommand::AddToPlaylist { id, playlist_id, uris, position, nonce } =>
                CommandView::AddToPlaylist {
                    id: id@,
                    playlist_id: playlist_id@,
                    uris: strings_view(uris@),
                    position: *position,
                    nonce: opt_view(*nonce),
                },
            ServerCommand::RemoveFromPlaylist { id, playlist_id, uris, nonce } =>
                CommandView::RemoveFromPlaylist {
                    id: id@,
                    playlist_id: playlist_id@,
                    uris: strings_view(uris@),
                    nonce: opt_view(*nonce),
                },
            ServerCommand::ReplacePlaylist { id, playlist_id, uris, nonce } =>
                CommandView::ReplacePlaylist {
                    id: id@,
                    playlist_id: playlist_id@,
                    uris: strings_view(uris@),
                    nonce: opt_view(*nonce),
                },
            ServerCommand::CreatePlaylist { id, name, description, public, nonce } =>
                CommandView::CreatePlaylist {
                    id: id@,
                    name: name@,
                    description: opt_view(*description),
                    public: *public,
                    nonce: opt_view(*nonce),
                },
            ServerCommand::GetArtists { id, artist_ids, nonce } =>
                CommandView::GetArtists {
                    id: id@,
                    artist_ids: strings_view(artist_ids@),
                    nonce: opt_view(*nonce),
                },
            ServerCommand::GetPlaylistDetails { id, playlist_id, nonce } =>
                CommandView::GetPlaylistDetails {
                    id: id@,
                    playlist_id: playlist_id@,
                    nonce: opt_view(*nonce),
                },
            ServerCommand::GetCurrentUser { id, nonce } =>
                CommandView::GetCurrentUser { id: id@, nonce: opt_view(*nonce) },
            ServerCommand::Pause { id, nonce } => CommandView::Pause { id: id@, nonce: opt_view(*nonce) },
            ServerCommand::Resume { id, nonce } => CommandView::Resume { id: id@, nonce: opt_view(*nonce) },
            ServerCommand::SkipNext { id, nonce } =>
                CommandView::SkipNext { id: id@, nonce: opt_view(*nonce) },
            ServerCommand::SkipPrevious { id, nonce } =>
                CommandView::SkipPrevious { id: id@, nonce: opt_view(*nonce) },
            ServerCommand::SetVolume { id, volume_percent, nonce } =>
                CommandView::SetVolume {
                    id: id@,
                    volume_percent: *volume_percent,
                    nonce: opt_view(*nonce),
                },
            ServerCommand::FadeSkip { id, nonce } =>
                CommandView::FadeSkip { id: id@, nonce: opt_view(*nonce) },
            ServerCommand::FadePause { id, nonce } =>
                CommandView::FadePause { id: id@, nonce: opt_view(*nonce) },
        }
    }
}

impl CommandView {
    /// The correlation id of the command.
    pub open spec fn id(self) -> Seq<char> {
        match self {
            CommandView::GetNowPlaying { id, .. } => id,
            CommandView::GetQueue { id, .. } => id,
            CommandView::Search { id, .. } => id,
            CommandView::AddToQueue { id, .. } => id,
            CommandView::GetPlaybackState { id, .. } => id,
            CommandView::GetPlaylistTracks { id, .. } => id,
            CommandView::AddToPlaylist { id, .. } => id,
            CommandView::RemoveFromPlaylist { id, .. } => id,
            CommandView::ReplacePlaylist { id, .. } => id,
            CommandView::CreatePlaylist { id, .. } => id,
            CommandView::GetArtists { id, .. } => id,
            CommandView::GetPlaylistDetails { id, .. } => id,
            CommandView::GetCurrentUser { id, .. } => id,
            CommandView::Pause { id, .. } => id,
            CommandView::Resume { id, .. } => id,
            CommandView::SkipNext { id, .. } => id,
            CommandView::SkipPrevious { id, .. } => id,
            CommandView::SetVolume { id, .. } => id,
            CommandView::FadeSkip { id, .. } => id,
            CommandView::FadePause { id, .. } => id,
        }
    }

    /// The deduplication nonce, if any.
    pub open spec fn nonce(self) -> Option<Seq<char>> {
        match self {
            CommandView::GetNowPlaying { nonce, .. } => nonce,
            CommandView::GetQueue { nonce, .. } => nonce,
            CommandView::Search { nonce, .. } => nonce,
            CommandView::AddToQueue { nonce, .. } => nonce,
            CommandView::GetPlaybackState { nonce, .. } => nonce,
            CommandView::GetPlaylistTracks { nonce, .. } => nonce,
            CommandView::AddToPlaylist { nonce, .. } => nonce,
            CommandView::RemoveFromPlaylist { nonce, .. } => nonce,
            CommandView::ReplacePlaylist { nonce, .. } => nonce,
            CommandView::CreatePlaylist { nonce, .. } => nonce,
            CommandView::GetArtists { nonce, .. } => nonce,
            CommandView::GetPlaylistDetails { nonce, .. } => nonce,
            CommandView::GetCurrentUser { nonce, .. } => nonce,
            CommandView::Pause { nonce, .. } => nonce,
            CommandView::Resume { nonce, .. } => nonce,
            CommandView::SkipNext { nonce, .. } => nonce,
            CommandView::SkipPrevious { nonce, .. } => nonce,
            CommandView::SetVolume { nonce, .. } => nonce,
            CommandView::FadeSkip { nonce, .. } => nonce,
            CommandView::FadePause { nonce, .. } => nonce,
        }
    }

    /// Commands that change playback, the queue or playlists.
    pub open spec fn is_mutating(self) -> bool {
        match self {
            CommandView::AddToQueue { .. } | CommandView::AddToPlaylist { .. }
            | CommandView::RemoveFromPlaylist { .. } | CommandView::ReplacePlaylist { .. }
            | CommandView::CreatePlaylist { .. } | CommandView::Pause { .. }
            | CommandView::Resume { .. } | CommandView::SkipNext { .. }
            | CommandView::SkipPrevious { .. } | CommandView::SetVolume { .. }
            | CommandView::FadeSkip { .. } | CommandView::FadePause { .. } => true,
            _ => false,
        }
    }
}

impl ServerCommand {
    /// Returns the command id.
    pub fn id(&self) -> (r: &str)
        ensures
            r@ == self@.id(),
    {
        match self {
            ServerCommand::GetNowPlaying { id, .. } => id.as_str(),
            ServerCommand::GetQueue { id, .. } => id.as_str(),
            ServerCommand::Search { id, .. } => id.as_str(),
            ServerCommand::AddToQueue { id, .. } => id.as_str(),
            ServerCommand::GetPlaybackState { id, .. } => id.as_str(),
            ServerCommand::GetPlaylistTracks { id, .. } => id.as_str(),
            ServerCommand::AddToPlaylist { id, .. } => id.as_str(),
            ServerCommand::RemoveFromPlaylist { id, .. } => id.as_str(),
            ServerCommand::ReplacePlaylist { id, .. } => id.as_str(),
            ServerCommand::CreatePlaylist { id, .. } => id.as_str(),
            ServerCommand::GetArtists { id, .. } => id.as_str(),
            ServerCommand::GetPlaylistDetails { id, .. } => id.as_str(),
            ServerCommand::GetCurrentUser { id, .. } => id.as_str(),
            ServerCommand::Pause { id, .. } => id.as_str(),
            ServerCommand::Resume { id, .. } => id.as_str(),
            ServerCommand::SkipNext { id, .. } => id.as_str(),
            ServerCommand::SkipPrevious { id, .. } => id.as_str(),
            ServerCommand::SetVolume { id, .. } => id.as_str(),
            ServerCommand::FadeSkip { id, .. } => id.as_str(),
            ServerCommand::FadePause { id, .. } => id.as_str(),
        }
    }

    /// Returns the nonce if present.
    pub fn nonce(&self) -> (r: Option<&str>)
        ensures
            match r {
                Some(n) => self@.nonce() == Some(n@),
                None => self@.nonce() is None,
            },
    {
        let n = match self {
            ServerCommand::GetNowPlaying { nonce, .. } => nonce,
            ServerCommand::GetQueue { nonce, .. } => nonce,
            ServerCommand::Search { nonce, .. } => nonce,
            ServerCommand::AddToQueue { nonce, .. } => nonce,
            ServerCommand::GetPlaybackState { nonce, .. } => nonce,
            ServerCommand::GetPlaylistTracks { nonce, .. } => nonce,
            ServerCommand::AddToPlaylist { nonce, .. } => nonce,
            ServerCommand::RemoveFromPlaylist { nonce, .. } => nonce,
            ServerCommand::ReplacePlaylist { nonce, .. } => nonce,
            ServerCommand::CreatePlaylist { nonce, .. } => nonce,
            ServerCommand::GetArtists { nonce, .. } => nonce,
            ServerCommand::GetPlaylistDetails { nonce, .. } => nonce,
            ServerCommand::GetCurrentUser { nonce, .. } => nonce,
            ServerCommand::Pause { nonce, .. } => nonce,
            ServerCommand::Resume { nonce, .. } => nonce,
            ServerCommand::SkipNext { nonce, .. } => nonce,
            ServerCommand::SkipPrevious { nonce, .. } => nonce,
            ServerCommand::SetVolume { nonce, .. } => nonce,
            ServerCommand::FadeSkip { nonce, .. } => nonce,
            ServerCommand::FadePause { nonce, .. } => nonce,
        };
        match n {
            Some(s) => Some(s.as_str()),
            None => None,
        }
    }

    /// Returns true for commands that mutate Spotify state (playback, queue, playlists).
    pub fn is_mutating(&self) -> (r: bool)
        ensures
            r == self@.is_mutating(),
    {
        match self {
            ServerCommand::AddToQueue { .. } | ServerCommand::AddToPlaylist { .. }
            | ServerCommand::RemoveFromPlaylist { .. } | ServerCommand::ReplacePlaylist { .. }
            | ServerCommand::CreatePlaylist { .. } | ServerCommand::Pause { .. }
            | ServerCommand::Resume { .. } | ServerCommand::SkipNext { .. }
            | ServerCommand::SkipPrevious { .. } | ServerCommand::SetVolume { .. }
            | ServerCommand::FadeSkip { .. } | ServerCommand::FadePause { .. } => true,
            _ => false,
        }
    }
}

/// Reconnection delay in whole seconds after `attempt` earlier consecutive failures:
/// `2^(attempt + 1)` capped at [`MAX_BACKOFF_SECS`], i.e. 2, 4, 8, 16, then 30.
pub open spec fn spec_backoff(attempt: u32) -> u64 {
    if attempt == 0 { 2 } else if attempt == 1 { 4 } else if attempt == 2 { 8 }
    else if attempt == 3 { 16 } else { 30 }
}

/// The exponential backoff delay (in seconds) before the next connection attempt,
/// given the number of consecutive failed attempts so far.
pub fn backoff_delay(attempt: u32) -> (secs: u64)
    ensures
        secs == spec_backoff(attempt),
        secs <= MAX_BACKOFF_SECS,
{
    let e = if attempt < 4 { attempt + 1 } else { 5 };
    let mut p: u64 = 1;
    let mut i: u32 = 0;
    while i < e
        invariant
            1 <= e <= 5,
            e == if attempt < 4 { attempt + 1 } else { 5 },
            i <= e,
            p == if i == 0 { 1u64 } else if i == 1 { 2 } else if i == 2 { 4 } else if i == 3 { 8 }
                else if i == 4 { 16 } else { 32 },
        decreases e - i,
    {
        p = p * 2;
        i = i + 1;
    }
    if p < MAX_BACKOFF_SECS { p } else { MAX_BACKOFF_SECS }
}


/// Where a member of a command stands: in a JSON object, under its name; in the
/// array form `[tag, member1, member2, ...]`, at its position `pos` (the tag is at 0).
pub open spec fn member(base: Seq<char>, array_form: bool, key: Seq<char>, pos: nat) -> Seq<char> {
    if array_form { child(base, decimal(pos)) } else { child(base, key) }
}

/// The number of members of the command named `tag`, its tag not counted (0 for an
/// unknown tag).
pub open spec fn member_count(tag: Seq<char>) -> nat {
    if tag == "search"@ || tag == "add_to_queue"@ || tag == "get_artists"@
        || tag == "get_playlist_details"@ || tag == "set_volume"@ {
        3
    } else if tag == "remove_from_playlist"@ || tag == "replace_playlist"@ {
        4
    } else if tag == "get_playlist_tracks"@ || tag == "add_to_playlist"@ || tag == "create_playlist"@ {
        5
    } else if tag == "get_now_playing"@ || tag == "get_queue"@ || tag == "get_playback_state"@
        || tag == "get_current_user"@ || tag == "pause"@ || tag == "resume"@ || tag == "skip_next"@
        || tag == "skip_previous"@ || tag == "fade_skip"@ || tag == "fade_pause"@ {
        2
    } else {
        0
    }
}

/// An `Option<u32>` member without a default: in the array form it must be present
/// (it may be `null`).
pub open spec fn spec_pos_opt_u32(doc: Seq<char>, p: Seq<char>, array_form: bool) -> Option<Option<u32>> {
    if array_form && json_node_at(doc, p) is Missing { None } else { spec_opt_u32(doc, p) }
}

/// An `Option<String>` member without a default (see [`spec_pos_opt_u32`]).
pub open spec fn spec_pos_opt_string(doc: Seq<char>, p: Seq<char>, array_form: bool) -> Option<Option<Seq<char>>> {
    if array_form && json_node_at(doc, p) is Missing { None } else { spec_opt_string(doc, p) }
}

/// An `Option<bool>` member without a default (see [`spec_pos_opt_u32`]).
pub open spec fn spec_pos_opt_bool(doc: Seq<char>, p: Seq<char>, array_form: bool) -> Option<Option<bool>> {
    if array_form && json_node_at(doc, p) is Missing { None } else { spec_opt_bool(doc, p) }
}

/// Decoding of the members that follow `id`, for tag `tag`.
pub open spec fn spec_decode_variant(
    doc: Seq<char>,
    base: Seq<char>,
    af: bool,
    tag: Seq<char>,
    id: Seq<char>,
    nonce: Option<Seq<char>>,
) -> Option<CommandView> {
    let f = |k: Seq<char>, pos: nat| member(base, af, k, pos);
    if tag == "get_now_playing"@ {
        Some(CommandView::GetNowPlaying { id, nonce })
    } else if tag == "get_queue"@ {
        Some(CommandView::GetQueue { id, nonce })
    } else if tag == "search"@ {
        match spec_req_string(doc, f("query"@, 2)) {
            Some(query) => Some(CommandView::Search { id, query, nonce }),
            None => None,
        }
    } else if tag == "add_to_queue"@ {
        match spec_req_string(doc, f("track_uri"@, 2)) {
            Some(track_uri) => Some(CommandView::AddToQueue { id, track_uri, nonce }),
            None => None,
        }
    } else if tag == "get_playback_state"@ {
        Some(CommandView::GetPlaybackState { id, nonce })
    } else if tag == "get_playlist_tracks"@ {
        match (
            spec_req_string(doc, f("playlist_id"@, 2)),
            spec_pos_opt_u32(doc, f("offset"@, 3), af),
            spec_pos_opt_u32(doc, f("limit"@, 4), af),
        ) {
            (Some(playlist_id), Some(offset), Some(limit)) => Some(
                CommandView::GetPlaylistTracks { id, playlist_id, offset, limit, nonce },
            ),
            _ => None,
        }
    } else if tag == "add_to_playlist"@ {
        match (
            spec_req_string(doc, f("playlist_id"@, 2)),
            spec_req_strings(doc, f("uris"@, 3)),
            spec_pos_opt_u32(doc, f("position"@, 4), af),
        ) {
            (Some(playlist_id), Some(uris), Some(position)) => Some(
                CommandView::AddToPlaylist { id, playlist_id, uris, position, nonce },
            ),
            _ => None,
        }
    } else if tag == "remove_from_playlist"@ {
        match (spec_req_string(doc, f("playlist_id"@, 2)), spec_req_strings(doc, f("uris"@, 3))) {
            (Some(playlist_id), Some(uris)) => Some(
                CommandView::RemoveFromPlaylist { id, playlist_id, uris, nonce },
            ),
            _ => None,
        }
    } else if tag == "replace_playlist"@ {
        match (spec_req_string(doc, f("playlist_id"@, 2)), spec_req_strings(doc, f("uris"@, 3))) {
            (Some(playlist_id), Some(uris)) => Some(
                CommandView::ReplacePlaylist { id, playlist_id, uris, nonce },
            ),
            _ => None,
        }
    } else if tag == "create_playlist"@ {
        match (
            spec_req_string(doc, f("name"@, 2)),
            spec_pos_opt_string(doc, f("description"@, 3), af),
            spec_pos_opt_bool(doc, f("public"@, 4), af),
        ) {
            (Some(name), Some(description), Some(public)) => Some(
                CommandView::CreatePlaylist { id, name, description, public, nonce },
            ),
            _ => None,
        }
    } else if tag == "get_artists"@ {
        match spec_req_strings(doc, f("artist_ids"@, 2)) {
            Some(artist_ids) => Some(CommandView::GetArtists { id, artist_ids, nonce }),
            None => None,
        }
    } else if tag == "get_playlist_details"@ {
        match spec_req_string(doc, f("playlist_id"@, 2)) {
            Some(playlist_id) => Some(CommandView::GetPlaylistDetails { id, playlist_id, nonce }),
            None => None,
        }
    } else if tag == "get_current_user"@ {
        Some(CommandView::GetCurrentUser { id, nonce })
    } else if tag == "pause"@ {
        Some(CommandView::Pause { id, nonce })
    } else if tag == "resume"@ {
        Some(CommandView::Resume { id, nonce })
    } else if tag == "skip_next"@ {
        Some(CommandView::SkipNext { id, nonce })
    } else if tag == "skip_previous"@ {
        Some(CommandView::SkipPrevious { id, nonce })
    } else if tag == "set_volume"@ {
        match spec_req_u32(doc, f("volume_percent"@, 2)) {
            Some(volume_percent) => Some(CommandView::SetVolume { id, volume_percent, nonce }),
            None => None,
        }
    } else if tag == "fade_skip"@ {
        Some(CommandView::FadeSkip { id, nonce })
    } else if tag == "fade_pause"@ {
        Some(CommandView::FadePause { id, nonce })
    } else {
        None
    }
}

/// Whether the command at `base` is in the array form.
pub open spec fn is_array_form(doc: Seq<char>, base: Seq<char>) -> bool {
    json_node_at(doc, base) is Array
}

/// Where the tag of the command at `base` stands.
pub open spec fn tag_pointer(doc: Seq<char>, base: Seq<char>) -> Seq<char> {
    if is_array_form(doc, base) { child(base, decimal(0)) } else { child(base, "command"@) }
}

/// The command encoded at pointer `base` of `doc`, read as serde reads an internally
/// tagged enum from a JSON value: either an object whose string member `command` names
/// the variant, with the other members by name (unknown ones ignored), or an array
/// `[tag, id, ..., nonce]` with the members by position (an `Option` member without a
/// default must be present there, `nonce` may be left out, and no element may follow
/// the last member). `id` is a required string, `nonce` an optional string; `None` when
/// anything is absent or mistyped, or the tag is unknown.
pub open spec fn spec_decode_command(doc: Seq<char>, base: Seq<char>) -> Option<CommandView> {
    let af = is_array_form(doc, base);
    if !(json_node_at(doc, base) is Object || af) {
        None
    } else {
        match spec_req_string(doc, tag_pointer(doc, base)) {
            None => None,
            Some(tag) => {
                let count = member_count(tag);
                if count == 0 || (af && json_node_at(doc, base)->Array_0 > count + 1) {
                    None
                } else {
                    match (
                        spec_req_string(doc, member(base, af, "id"@, 1)),
                        spec_opt_string(doc, member(base, af, "nonce"@, count)),
                    ) {
                        (Some(id), Some(nonce)) => spec_decode_variant(doc, base, af, tag, id, nonce),
                        _ => None,
                    }
                }
            },
        }
    }
}

fn member_ptr(base: &str, af: bool, key: &str, pos: usize) -> (r: String)
    ensures
        r@ == member(base@, af, key@, pos as nat),
{
    if af { index_pointer(base, pos) } else { child_pointer(base, key) }
}

fn member_count_of(tag: &str) -> (r: usize)
    ensures
        r == member_count(tag@),
{
    if str_eq(tag, "search") || str_eq(tag, "add_to_queue") || str_eq(tag, "get_artists")
        || str_eq(tag, "get_playlist_details") || str_eq(tag, "set_volume") {
        3
    } else if str_eq(tag, "remove_from_playlist") || str_eq(tag, "replace_playlist") {
        4
    } else if str_eq(tag, "get_playlist_tracks") || str_eq(tag, "add_to_playlist")
        || str_eq(tag, "create_playlist") {
        5
    } else if str_eq(tag, "get_now_playing") || str_eq(tag, "get_queue") || str_eq(tag, "get_playback_state")
        || str_eq(tag, "get_current_user") || str_eq(tag, "pause") || str_eq(tag, "resume")
        || str_eq(tag, "skip_next") || str_eq(tag, "skip_previous") || str_eq(tag, "fade_skip")
        || str_eq(tag, "fade_pause") {
        2
    } else {
        0
    }
}

fn pos_opt_u32(doc: &str, p: &str, af: bool) -> (r: Option<Option<u32>>)
    ensures
        r == spec_pos_opt_u32(doc@, p@, af),
{
    if af {
        match json_lookup(doc, p) {
            JsonNode::Missing => {
                return None;
            },
            _ => {},
        }
    }
    opt_u32(doc, p)
}

fn pos_opt_bool(doc: &str, p: &str, af: bool) -> (r: Option<Option<bool>>)
    ensures
        r == spec_pos_opt_bool(doc@, p@, af),
{
    if af {
        match json_lookup(doc, p) {
            JsonNode::Missing => {
                return None;
            },
            _ => {},
        }
    }
    opt_bool(doc, p)
}

fn pos_opt_string(doc: &str, p: &str, af: bool) -> (r: Result<Option<String>, ()>)
    ensures
        match r {
            Ok(Some(s)) => spec_pos_opt_string(doc@, p@, af) == Some(Some(s@)),
            Ok(None) => spec_pos_opt_string(doc@, p@, af) == Some(None::<Seq<char>>),
            Err(_) => spec_pos_opt_string(doc@, p@, af) is None,
        },
{
    if af {
        match json_lookup(doc, p) {
            JsonNode::Missing => {
                return Err(());
            },
            _ => {},
        }
    }
    opt_string(doc, p)
}

#[verifier::rlimit(60)]
fn decode_variant(doc: &str, base: &str, af: bool, tag: &str, id: String, nonce: Option<String>) -> (r: Option<ServerCommand>)
    ensures
        match r {
            Some(c) => spec_decode_variant(doc@, base@, af, tag@, id@, opt_view(nonce)) == Some(c@),
            None => spec_decode_variant(doc@, base@, af, tag@, id@, opt_view(nonce)) is None,
        },
{
    if str_eq(tag, "get_now_playing") {
        Some(ServerCommand::GetNowPlaying { id, nonce })
    } else if str_eq(tag, "get_queue") {
        Some(ServerCommand::GetQueue { id, nonce })
    } else if str_eq(tag, "search") {
        match req_string(doc, member_ptr(base, af, "query", 2).as_str()) {
            Some(query) => Some(ServerCommand::Search { id, query, nonce }),
            None => None,
        }
    } else if str_eq(tag, "add_to_queue") {
        match req_string(doc, member_ptr(base, af, "track_uri", 2).as_str()) {
            Some(track_uri) => Some(ServerCommand::AddToQueue { id, track_uri, nonce }),
            None => None,
        }
    } else if str_eq(tag, "get_playback_state") {
        Some(ServerCommand::GetPlaybackState { id, nonce })
    } else if str_eq(tag, "get_playlist_tracks") {
        let p = req_string(doc, member_ptr(base, af, "playlist_id", 2).as_str());
        let o = pos_opt_u32(doc, member_ptr(base, af, "offset", 3).as_str(), af);
        let l = pos_opt_u32(doc, member_ptr(base, af, "limit", 4).as_str(), af);
        match (p, o, l) {
            (Some(playlist_id), Some(offset), Some(limit)) => Some(
                ServerCommand::GetPlaylistTracks { id, playlist_id, offset, limit, nonce },
            ),
            _ => None,
        }
    } else if str_eq(tag, "add_to_playlist") {
        let p = req_string(doc, member_ptr(base, af, "playlist_id", 2).as_str());
        let u = req_strings(doc, member_ptr(base, af, "uris", 3).as_str());
        let q = pos_opt_u32(doc, member_ptr(base, af, "position", 4).as_str(), af);
        match (p, u, q) {
            (Some(playlist_id), Some(uris), Some(position)) => Some(
                ServerCommand::AddToPlaylist { id, playlist_id, uris, position, nonce },
            ),
            _ => None,
        }
    } else if str_eq(tag, "remove_from_playlist") {
        let p = req_string(doc, member_ptr(base, af, "playlist_id", 2).as_str());
        let u = req_strings(doc, member_ptr(base, af, "uris", 3).as_str());
        match (p, u) {
            (Some(playlist_id), Some(uris)) => Some(
                ServerCommand::RemoveFromPlaylist { id, playlist_id, uris, nonce },
            ),
            _ => None,
        }
    } else if str_eq(tag, "replace_playlist") {
        let p = req_string(doc, member_ptr(base, af, "playlist_id", 2).as_str());
        let u = req_strings(doc, member_ptr(base, af, "uris", 3).as_str());
        match (p, u) {
            (Some(playlist_id), Some(uris)) => Some(
                ServerCommand::ReplacePlaylist { id, playlist_id, uris, nonce },
            ),
            _ => None,
        }
    } else if str_eq(tag, "create_playlist") {
        let n = req_string(doc, member_ptr(base, af, "name", 2).as_str());
        let d = pos_opt_string(doc, member_ptr(base, af, "description", 3).as_str(), af);
        let b = pos_opt_bool(doc, member_ptr(base, af, "public", 4).as_str(), af);
        match (n, d, b) {
            (Some(name), Ok(description), Some(public)) => Some(
                ServerCommand::CreatePlaylist { id, name, description, public, nonce },
            ),
            _ => None,
        }
    } else if str_eq(tag, "get_artists") {
        match req_strings(doc, member_ptr(base, af, "artist_ids", 2).as_str()) {
            Some(artist_ids) => Some(ServerCommand::GetArtists { id, artist_ids, nonce }),
            None => None,
        }
    } else if str_eq(tag, "get_playlist_details") {
        match req_string(doc, member_ptr(base, af, "playlist_id", 2).as_str()) {
            Some(playlist_id) => Some(ServerCommand::GetPlaylistDetails { id, playlist_id, nonce }),
            None => None,
        }
    } else if str_eq(tag, "get_current_user") {
        Some(ServerCommand::GetCurrentUser { id, nonce })
    } else if str_eq(tag, "pause") {
        Some(ServerCommand::Pause { id, nonce })
    } else if str_eq(tag, "resume") {
        Some(ServerCommand::Resume { id, nonce })
    } else if str_eq(tag, "skip_next") {
        Some(ServerCommand::SkipNext { id, nonce })
    } else if str_eq(tag, "skip_previous") {
        Some(ServerCommand::SkipPrevious { id, nonce })
    } else if str_eq(tag, "set_volume") {
        match req_u32(doc, member_ptr(base, af, "volume_percent", 2).as_str()) {
            Some(volume_percent) => Some(ServerCommand::SetVolume { id, volume_percent, nonce }),
            None => None,
        }
    } else if str_eq(tag, "fade_skip") {
        Some(ServerCommand::FadeSkip { id, nonce })
    } else if str_eq(tag, "fade_pause") {
        Some(ServerCommand::FadePause { id, nonce })
    } else {
        None
    }
}

/// Decodes the server command stored at pointer `base` of `doc` (the empty pointer
/// addresses the whole document); see [`spec_decode_command`].
pub fn decode_command(doc: &str, base: &str) -> (r: Option<ServerCommand>)
    ensures
        match r {
            Some(c) => spec_decode_command(doc@, base@) == Some(c@),
            None => spec_decode_command(doc@, base@) is None,
        },
{
    let (af, len) = match json_lookup(doc, base) {
        JsonNode::Object => (false, 0usize),
        JsonNode::Array(n) => (true, n),
        _ => {
            return None;
        },
    };
    let tag_ptr = if af { index_pointer(base, 0) } else { child_pointer(base, "command") };
    let tag = match req_string(doc, tag_ptr.as_str()) {
        Some(t) => t,
        None => {
            return None;
        },
    };
    let count = member_count_of(tag.as_str());
    if count == 0 || (af && len > count + 1) {
        return None;
    }
    let id = req_string(doc, member_ptr(base, af, "id", 1).as_str());
    let nonce = opt_string(doc, member_ptr(base, af, "nonce", count).as_str());
    match (id, nonce) {
        (Some(id), Ok(nonce)) => decode_variant(doc, base, af, tag.as_str(), id, nonce),
        _ => None,
    }
}


/// An error returned to the server for a command.
#[derive(Debug)]
pub struct CommandError {
    pub code: String,
    pub message: String,
}

/// The reply to a command (or an unsolicited broadcast when `id` is empty).
/// `result` holds the JSON text of the result value.
#[derive(Debug)]
pub struct CommandResponse {
    pub id: String,
    pub result: Option<String>,
    pub error: Option<CommandError>,
}

/// The JSON object `{"code":..,"message":..}`.
pub open spec fn error_json(code: Seq<char>, message: Seq<char>) -> Seq<char> {
    "{\"code\":"@ + json_string(code) + ",\"message\":"@ + json_string(message) + "}"@
}

/// The JSON text of a response. Members appear in sorted order, absent ones are
/// omitted: `{"error":{..},"id":"..","result":..}`.
pub open spec fn response_json(
    id: Seq<char>,
    result: Option<Seq<char>>,
    error: Option<(Seq<char>, Seq<char>)>,
) -> Seq<char> {
    let e = match error {
        Some((c, m)) => "\"error\":"@ + error_json(c, m) + ","@,
        None => Seq::empty(),
    };
    let r = match result {
        Some(t) => ",\"result\":"@ + t,
        None => Seq::empty(),
    };
    "{"@ + e + "\"id\":"@ + json_string(id) + r + "}"@
}

impl CommandResponse {
    /// The view of the error part as `(code, message)`.
    pub open spec fn error_view(&self) -> Option<(Seq<char>, Seq<char>)> {
        match self.error {
            Some(e) => Some((e.code@, e.message@)),
            None => None,
        }
    }

    /// The JSON text of this response.
    pub open spec fn spec_json(&self) -> Seq<char> {
        response_json(self.id@, opt_view(self.result), self.error_view())
    }

    /// Serializes the response (what `serde_json::to_value` followed by `to_string` gives).
    pub fn to_json(&self) -> (r: String)
        ensures
            r@ == self.spec_json(),
    {
        let mut out = String::new();
        push_str(&mut out, "{");
        match &self.error {
            Some(e) => {
                push_str(&mut out, "\"error\":");
                push_str(&mut out, "{\"code\":");
                push_str(&mut out, json_quote(e.code.as_str()).as_str());
                push_str(&mut out, ",\"message\":");
                push_str(&mut out, json_quote(e.message.as_str()).as_str());
                push_str(&mut out, "}");
                push_str(&mut out, ",");
            },
            None => {},
        }
        push_str(&mut out, "\"id\":");
        push_str(&mut out, json_quote(self.id.as_str()).as_str());
        match &self.result {
            Some(t) => {
                push_str(&mut out, ",\"result\":");
                push_str(&mut out, t.as_str());
            },
            None => {},
        }
        push_str(&mut out, "}");
        proof {
            let e = match self.error_view() {
                Some((c, m)) => "\"error\":"@ + error_json(c, m) + ","@,
                None => Seq::<char>::empty(),
            };
            let r = match opt_view(self.result) {
                Some(t) => ",\"result\":"@ + t,
                None => Seq::<char>::empty(),
            };
            assert(out@ =~= "{"@ + e + "\"id\":"@ + json_string(self.id@) + r + "}"@);
        }
        out
    }
}

/// Errors of the Centrifugo connection.
#[derive(Debug)]
pub enum CentrifugoError {
    ConnectionFailed(String),
    WebSocket(String),
    Serde(String),
    ConnectRejected(String),
    SubscribeRejected(String),
    Closed,
}

impl CentrifugoError {
    /// The display text of the error.
    pub open spec fn spec_message(&self) -> Seq<char> {
        match self {
            CentrifugoError::ConnectionFailed(m) => "Connection failed: "@ + m@,
            CentrifugoError::WebSocket(m) => "WebSocket error: "@ + m@,
            CentrifugoError::Serde(m) => "Serialization error: "@ + m@,
            CentrifugoError::ConnectRejected(m) => "Connect rejected: "@ + m@,
            CentrifugoError::SubscribeRejected(m) => "Subscribe rejected: "@ + m@,
            CentrifugoError::Closed => "Connection closed"@,
        }
    }

    /// Renders the error as text.
    pub fn message(&self) -> (r: String)
        ensures
            r@ == self.spec_message(),
    {
        let mut out = String::new();
        match self {
            CentrifugoError::ConnectionFailed(m) => {
                push_str(&mut out, "Connection failed: ");
                push_str(&mut out, m.as_str());
            },
            CentrifugoError::WebSocket(m) => {
                push_str(&mut out, "WebSocket error: ");
                push_str(&mut out, m.as_str());
            },
            CentrifugoError::Serde(m) => {
                push_str(&mut out, "Serialization error: ");
                push_str(&mut out, m.as_str());
            },
            CentrifugoError::ConnectRejected(m) => {
                push_str(&mut out, "Connect rejected: ");
                push_str(&mut out, m.as_str());
            },
            CentrifugoError::SubscribeRejected(m) => {
                push_str(&mut out, "Subscribe rejected: ");
                push_str(&mut out, m.as_str());
            },
            CentrifugoError::Closed => {
                push_str(&mut out, "Connection closed");
            },
        }
        out
    }
}

/// Connection parameters and the id counter of a Centrifugo client.
#[derive(Debug)]
pub struct CentrifugoClient {
    pub url: String,
    pub token: String,
    pub channel: String,
    pub next_id: u32,
}

/// The wire `connect` command.
pub open spec fn connect_json(id: u32, token: Seq<char>, name: Seq<char>, version: Seq<char>) -> Seq<char> {
    "{\"id\":"@ + decimal(id as nat) + ",\"connect\":{\"token\":"@ + json_string(token) + ",\"name\":"@
        + json_string(name) + ",\"version\":"@ + json_string(version) + "}}"@
}

/// The wire `subscribe` command.
pub open spec fn subscribe_json(id: u32, channel: Seq<char>) -> Seq<char> {
    "{\"id\":"@ + decimal(id as nat) + ",\"subscribe\":{\"channel\":"@ + json_string(channel) + "}}"@
}

/// The wire `publish` command carrying the JSON text `data`.
pub open spec fn publish_json(id: u32, channel: Seq<char>, data: Seq<char>) -> Seq<char> {
    "{\"id\":"@ + decimal(id as nat) + ",\"publish\":{\"channel\":"@ + json_string(channel)
        + ",\"data\":"@ + data + "}}"@
}

/// The counter value after one id was taken (it wraps around like `fetch_add`).
pub open spec fn next_counter(n: u32) -> u32 {
    if n == u32::MAX { 0 } else { (n + 1) as u32 }
}

impl CentrifugoClient {
    pub fn new(url: String, token: String, channel: String) -> (r: Self)
        ensures
            r.url == url,
            r.token == token,
            r.channel == channel,
            r.next_id == 1,
    {
        CentrifugoClient { url, token, channel, next_id: 1 }
    }

    /// Takes the next command id.
    pub fn next_id(&mut self) -> (r: u32)
        ensures
            r == old(self).next_id,
            final(self).next_id == next_counter(old(self).next_id),
            final(self).url == old(self).url,
            final(self).token == old(self).token,
            final(self).channel == old(self).channel,
    {
        let r = self.next_id;
        self.next_id = r.wrapping_add(1);
        r
    }

    /// The `connect` command (client name `music-relay`), using the next id.
    pub fn connect_command(&mut self, version: &str) -> (r: String)
        ensures
            r@ == connect_json(old(self).next_id, old(self).token@, "music-relay"@, version@),
            final(self).next_id == next_counter(old(self).next_id),
            final(self).url == old(self).url,
            final(self).token == old(self).token,
            final(self).channel == old(self).channel,
    {
        let id = self.next_id();
        let mut out = String::new();
        push_str(&mut out, "{\"id\":");
        push_decimal(&mut out, id as u64);
        push_str(&mut out, ",\"connect\":{\"token\":");
        push_str(&mut out, json_quote(self.token.as_str()).as_str());
        push_str(&mut out, ",\"name\":");
        push_str(&mut out, json_quote("music-relay").as_str());
        push_str(&mut out, ",\"version\":");
        push_str(&mut out, json_quote(version).as_str());
        push_str(&mut out, "}}");
        assert(out@ =~= connect_json(id, self.token@, "music-relay"@, version@));
        out
    }

    /// The `subscribe` command for the client's channel, using the next id.
    pub fn subscribe_command(&mut self) -> (r: String)
        ensures
            r@ == subscribe_json(old(self).next_id, old(self).channel@),
            final(self).next_id == next_counter(old(self).next_id),
            final(self).url == old(self).url,
            final(self).token == old(self).token,
            final(self).channel == old(self).channel,
    {
        let id = self.next_id();
        let mut out = String::new();
        push_str(&mut out, "{\"id\":");
        push_decimal(&mut out, id as u64);
        push_str(&mut out, ",\"subscribe\":{\"channel\":");
        push_str(&mut out, json_quote(self.channel.as_str()).as_str());
        push_str(&mut out, "}}");
        assert(out@ =~= subscribe_json(id, self.channel@));
        out
    }

    /// The `publish` command carrying `resp` on the client's channel, using the next id.
    pub fn publish_command(&mut self, resp: &CommandResponse) -> (r: String)
        ensures
            r@ == publish_json(old(self).next_id, old(self).channel@, resp.spec_json()),
            final(self).next_id == next_counter(old(self).next_id),
            final(self).url == old(self).url,
            final(self).token == old(self).token,
            final(self).channel == old(self).channel,
    {
        let id = self.next_id();
        let data = resp.to_json();
        let mut out = String::new();
        push_str(&mut out, "{\"id\":");
        push_decimal(&mut out, id as u64);
        push_str(&mut out, ",\"publish\":{\"channel\":");
        push_str(&mut out, json_quote(self.channel.as_str()).as_str());
        push_str(&mut out, ",\"data\":");
        push_str(&mut out, data.as_str());
        push_str(&mut out, "}}");
        assert(out@ =~= publish_json(id, self.channel@, resp.spec_json()));
        out
    }
}


/// The `connect` result of a reply.
#[derive(Debug)]
pub struct ConnectResult {
    pub client: String,
    pub ping: Option<u32>,
    pub pong: Option<bool>,
}

/// The `error` of a reply.
#[derive(Debug)]
pub struct ProtoError {
    pub code: u32,
    pub message: String,
}

/// A publication; `data` is the JSON text of its data value.
#[derive(Debug)]
pub struct Publication {
    pub data: String,
}

/// The `push` of a reply (`publication` is the `pub` member).
#[derive(Debug)]
pub struct Push {
    pub channel: Option<String>,
    pub publication: Option<Publication>,
}

/// A Centrifugo reply, as the server sends it. `subscribe` and `publish` hold the JSON
/// text of those results. The caller reads a reply from its JSON text (every member
/// may be absent), and hands the text of the parse error over when it does not parse.
#[derive(Debug)]
pub struct Reply {
    pub id: u32,
    pub connect: Option<ConnectResult>,
    pub subscribe: Option<String>,
    pub publish: Option<String>,
    pub error: Option<ProtoError>,
    pub push: Option<Push>,
}

/// The rejection text `code {code}: {message}` of a reply error.
pub open spec fn rejection_text(e: ProtoError) -> Seq<char> {
    "code "@ + decimal(e.code as nat) + ": "@ + e.message@
}

/// The ping interval the server announced in its connect reply (25 when absent).
pub open spec fn reply_ping(r: Reply) -> u32 {
    match r.connect {
        Some(c) => match c.ping {
            Some(p) => p,
            None => 25,
        },
        None => 25,
    }
}

/// Whether the server asked for pongs (false when absent).
pub open spec fn reply_pong(r: Reply) -> bool {
    match r.connect {
        Some(c) => match c.pong {
            Some(b) => b,
            None => false,
        },
        None => false,
    }
}

fn rejection(e: &ProtoError) -> (r: String)
    ensures
        r@ == rejection_text(*e),
{
    let mut out = String::new();
    push_str(&mut out, "code ");
    push_decimal(&mut out, e.code as u64);
    push_str(&mut out, ": ");
    push_str(&mut out, e.message.as_str());
    out
}

/// What the client keeps from a successful connect reply.
#[derive(Debug)]
pub struct ConnectParams {
    /// Seconds between server pings.
    pub ping_interval: u32,
    /// Whether to answer pings with an empty `{}` frame.
    pub send_pong: bool,
}

/// Handles the reply to the `connect` command: `reply` is the parsed reply, or the
/// text of the error that parsing it gave.
pub fn handle_connect_reply(reply: Result<Reply, String>) -> (r: Result<ConnectParams, CentrifugoError>)
    ensures
        match reply {
            Err(m) => r matches Err(CentrifugoError::Serde(x)) && x == m,
            Ok(rep) => match rep.error {
                Some(e) => r matches Err(CentrifugoError::ConnectRejected(x)) && x@ == rejection_text(e),
                None => r matches Ok(p) && p.ping_interval == reply_ping(rep) && p.send_pong == reply_pong(rep),
            },
        },
{
    let rep = match reply {
        Err(m) => {
            return Err(CentrifugoError::Serde(m));
        },
        Ok(rep) => rep,
    };
    match &rep.error {
        Some(e) => {
            return Err(CentrifugoError::ConnectRejected(rejection(e)));
        },
        None => {},
    }
    let (ping_interval, send_pong) = match &rep.connect {
        Some(c) => (
            match c.ping {
                Some(p) => p,
                None => 25,
            },
            match c.pong {
                Some(b) => b,
                None => false,
            },
        ),
        None => (25, false),
    };
    Ok(ConnectParams { ping_interval, send_pong })
}

/// Handles the reply to the `subscribe` command (parsed, or the parse error's text).
pub fn handle_subscribe_reply(reply: Result<Reply, String>) -> (r: Result<(), CentrifugoError>)
    ensures
        match reply {
            Err(m) => r matches Err(CentrifugoError::Serde(x)) && x == m,
            Ok(rep) => match rep.error {
                Some(e) => r matches Err(CentrifugoError::SubscribeRejected(x)) && x@ == rejection_text(e),
                None => r is Ok,
            },
        },
{
    match reply {
        Err(m) => Err(CentrifugoError::Serde(m)),
        Ok(rep) => match &rep.error {
            Some(e) => Err(CentrifugoError::SubscribeRejected(rejection(e))),
            None => Ok(()),
        },
    }
}

/// The ping timeout: twice the announced ping interval, in seconds.
pub fn ping_timeout_secs(ping_interval: u32) -> (r: u64)
    ensures
        r == 2 * ping_interval,
{
    (ping_interval as u64) * 2
}

/// What to do with a text frame received while connected.
#[derive(Debug)]
pub enum FrameAction {
    /// The frame was a ping and the server wants a `{}` pong back.
    SendPong,
    /// Nothing to do (a ping without pong).
    Ignore,
    /// Read this (trimmed) text as a reply and hand it to [`on_reply`].
    ParseReply(String),
}

/// The action for the text frame `text`: pings are the frames that are `{}` once
/// trimmed; any other frame is read, trimmed, as a reply.
pub open spec fn frame_action_is(text: Seq<char>, send_pong: bool, a: FrameAction) -> bool {
    let t = trim(text);
    if t == "{}"@ {
        if send_pong { a is SendPong } else { a is Ignore }
    } else {
        a matches FrameAction::ParseReply(x) && x@ == t
    }
}

/// Classifies a text frame received in the message loop.
pub fn on_text_frame(text: &str, send_pong: bool) -> (r: FrameAction)
    ensures
        frame_action_is(text@, send_pong, r),
{
    let cs = chars_of(text);
    let (lo, hi) = trim_bounds(&cs, 0, cs.len());
    assert(cs@.subrange(0, cs@.len() as int) =~= text@);
    if slice_eq(&cs, lo, hi, "{}") {
        return if send_pong { FrameAction::SendPong } else { FrameAction::Ignore };
    }
    FrameAction::ParseReply(string_of(&cs, lo, hi))
}

/// What a reply received while connected brings.
#[derive(Debug)]
pub enum PushAction {
    /// Nothing (the text is not a reply, or the reply carries no publication).
    Ignore,
    /// A server command arrived.
    Command(ServerCommand),
    /// A publication arrived whose data is not a server command.
    Unparsed,
}

/// Handles a reply received while connected (parsed, or the parse error's text): a
/// publication carries a server command as its data.
pub fn on_reply(reply: Result<Reply, String>) -> (r: PushAction)
    ensures
        match reply {
            Ok(Reply { push: Some(Push { publication: Some(p), .. }), .. }) =>
                match spec_decode_command(p.data@, ""@) {
                    Some(c) => r matches PushAction::Command(x) && x@ == c,
                    None => r is Unparsed,
                },
            _ => r is Ignore,
        },
{
    match reply {
        Ok(Reply { push: Some(Push { publication: Some(p), .. }), .. }) => match decode_command(p.data.as_str(), "") {
            Some(c) => PushAction::Command(c),
            None => PushAction::Unparsed,
        },
        _ => PushAction::Ignore,
    }
}


/// A message read from the WebSocket.
#[derive(Debug)]
pub enum WsMessage {
    Text(String),
    Ping(Vec<u8>),
    Close,
    /// Binary, pong and raw frames.
    Other,
    /// The read failed with this error text.
    Failed(String),
    /// The stream ended.
    Ended,
}

/// What the handshake does with one read while it waits for a reply.
#[derive(Debug)]
pub enum HandshakeStep {
    /// The reply text arrived.
    Reply(String),
    /// Keep reading.
    Continue,
    /// The connection is over.
    Stop(CentrifugoError),
}

/// While waiting for the reply to `connect` or `subscribe`: a text frame is the reply,
/// pings and other frames are skipped, a close or the end of the stream ends the
/// connection as closed, a read failure as a WebSocket error.
pub fn on_handshake_message(msg: WsMessage) -> (r: HandshakeStep)
    ensures
        match msg {
            WsMessage::Text(t) => r matches HandshakeStep::Reply(x) && x == t,
            WsMessage::Ping(_) | WsMessage::Other => r is Continue,
            WsMessage::Close | WsMessage::Ended => r matches HandshakeStep::Stop(CentrifugoError::Closed),
            WsMessage::Failed(m) => r matches HandshakeStep::Stop(CentrifugoError::WebSocket(e)) && e == m,
        },
{
    match msg {
        WsMessage::Text(t) => HandshakeStep::Reply(t),
        WsMessage::Ping(_) | WsMessage::Other => HandshakeStep::Continue,
        WsMessage::Close | WsMessage::Ended => HandshakeStep::Stop(CentrifugoError::Closed),
        WsMessage::Failed(m) => HandshakeStep::Stop(CentrifugoError::WebSocket(m)),
    }
}

/// What the message loop does with one read. `Frame` and `Pong` count as signs of
/// life: the caller pushes the ping deadline back for them.
#[derive(Debug)]
pub enum LoopStep {
    /// A text frame, classified.
    Frame(FrameAction),
    /// Answer a WebSocket ping with a pong carrying the same payload.
    Pong(Vec<u8>),
    /// Nothing to do.
    Continue,
    /// The connection is over.
    Stop(CentrifugoError),
}

/// Handles one read of the message loop (see [`on_text_frame`] for text frames).
pub fn on_message(msg: WsMessage, send_pong: bool) -> (r: LoopStep)
    ensures
        match msg {
            WsMessage::Text(t) => r matches LoopStep::Frame(a) && frame_action_is(t@, send_pong, a),
            WsMessage::Ping(d) => r matches LoopStep::Pong(p) && p@ == d@,
            WsMessage::Other => r is Continue,
            WsMessage::Close | WsMessage::Ended => r matches LoopStep::Stop(CentrifugoError::Closed),
            WsMessage::Failed(m) => r matches LoopStep::Stop(CentrifugoError::WebSocket(e)) && e == m,
        },
{
    match msg {
        WsMessage::Text(t) => LoopStep::Frame(on_text_frame(t.as_str(), send_pong)),
        WsMessage::Ping(d) => LoopStep::Pong(d),
        WsMessage::Other => LoopStep::Continue,
        WsMessage::Close | WsMessage::Ended => LoopStep::Stop(CentrifugoError::Closed),
        WsMessage::Failed(m) => LoopStep::Stop(CentrifugoError::WebSocket(m)),
    }
}

} // verus!
