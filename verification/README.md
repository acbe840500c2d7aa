# relay_core

The core of Music Relay, a service that executes Spotify Web API commands received
over a Centrifugo WebSocket channel and publishes the results back, verified with Verus.

## Layout

- `src/` — the verified library.
  - `centrifugo.rs`: server commands and their JSON decoding, command responses,
    the `connect`/`subscribe`/`publish` wire commands, reply handling, frame
    classification and the reconnection backoff.
  - `relay.rs`: the relay's decisions — retry and reconnect counters, proactive
    token refresh, command deduplication, the request plan of every command, the
    responses, the fade state machine and now-playing polling.
  - `spotify.rs`: Spotify data, the client's token decisions and every API request.
  - `oauth.rs`, `oauth/`: PKCE, the authorization URL, token endpoint answers, the
    OAuth callback request and URL encoding.
  - `token.rs`: the server's token endpoint and JWT expiry.
  - `config.rs`, `state.rs`: configuration and the status shown to the user.
  - `json.rs`, `text.rs`: JSON reading (through `serde_json`) and text building.
  - `laws.rs`: properties that span several functions.
- `tests/` — tests of the library on concrete values.
- `app/` — the headless binary: configuration file, HTTP, WebSocket and OAuth I/O,
  and the async tasks that carry out what the library decides.
