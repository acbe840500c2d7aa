//! Verified core of the Music Relay: Centrifugo wire handling, Spotify request
//! planning, OAuth PKCE helpers, relay retry/reconnect decisions and status state.
pub mod text;
pub mod base64url;
pub mod centrifugo;
pub mod config;
pub mod json;
pub mod laws;
pub mod oauth;
pub mod relay;
pub mod spotify;
pub mod state;
pub mod token;
