//! Properties of the relay that span several calls or all inputs.
use vstd::prelude::*;
use crate::centrifugo::{
    CommandResponse,
    is_array_form, member, member_count, spec_backoff, spec_decode_command, tag_pointer, CommandView,
    MAX_BACKOFF_SECS,
};
use crate::json::{
    child, json_node_at, json_string, json_string_list, spec_opt_bool, spec_opt_string, spec_opt_u32, spec_req_string,
    spec_req_strings, spec_req_u32,
};
use crate::base64url::{base64url_decode, base64url_encode, lemma_decode_encode, lemma_encode_symbols};
use crate::oauth::callback::split_char;
use crate::token::{jwt_claims, jwt_expiry, trim_end_char};
use crate::oauth::scopes;
use crate::oauth::urlencoding::{lemma_percent_decode_encode, lemma_encode_shape, spec_decode, spec_encode};
use crate::relay::{
    Fade, FadeAction, FadeEvent,
    join_names, spec_command_name, fade_volume, max_fade_volume, spec_refresh_delay, spec_should_execute,
    transient_step, ClaimOutcome, RelayStep,
};
use crate::text::decimal;
use crate::spotify::{batch, batch_end, num_batches, token_expired, lemma_batch_bounds, comma_join, uri_objects, Artist};

verus! {

/// Reconnection backoff: after 0, 1, 2, 3 consecutive failures the wait is 2, 4, 8,
/// 16 seconds, and 30 seconds after four or more; it never decreases and never exceeds
/// 30 seconds. The WebSocket loop counts its failures and resets the count on a
/// successful connection, so the next wait is 2 seconds again.
pub proof fn law_backoff_schedule(a: u32, b: u32)
    ensures
        spec_backoff(0) == 2 && spec_backoff(1) == 4 && spec_backoff(2) == 8 && spec_backoff(3) == 16,
        a >= 4 ==> spec_backoff(a) == 30,
        a <= b ==> spec_backoff(a) <= spec_backoff(b),
        spec_backoff(a) <= MAX_BACKOFF_SECS,
{
}

/// Relay supervision: starting afresh, the first four consecutive transient failures
/// retry after 2, 4, 8 and 16 seconds and the fifth gives up; a failure of a run that
/// had got past startup counts as the first of a new series.
pub proof fn law_relay_retries(attempt: u32)
    ensures
        transient_step(0, false) == (1u32, RelayStep::RetryAfter(2)),
        transient_step(1, false) == (2u32, RelayStep::RetryAfter(4)),
        transient_step(2, false) == (3u32, RelayStep::RetryAfter(8)),
        transient_step(3, false) == (4u32, RelayStep::RetryAfter(16)),
        transient_step(4, false).1 == RelayStep::GiveUp,
        transient_step(attempt, true) == transient_step(0, false),
{
}

/// Batching of playlist edits: the batches of 100 are non-empty, hold at most 100
/// items each, and together give back the items in order.
pub proof fn law_batches_cover<A>(items: Seq<A>)
    ensures
        forall|j: int| 0 <= j < num_batches(items.len() as int) ==> 0 < (#[trigger] batch(items, j)).len() <= 100,
        Seq::new(num_batches(items.len() as int) as nat, |j: int| batch(items, j)).flatten() == items,
    decreases items.len(),
{
    let n = items.len() as int;
    assert forall|j: int| 0 <= j < num_batches(n) implies 0 < (#[trigger] batch(items, j)).len() <= 100 by {
        lemma_batch_bounds(j, n);
    }
    if n <= 100 {
        let bs = Seq::new(num_batches(n) as nat, |j: int| batch(items, j));
        if n == 0 {
            assert(bs =~= Seq::<Seq<A>>::empty());
            assert(bs.flatten() =~= items);
        } else {
            assert(num_batches(n) == 1);
            assert(batch(items, 0) =~= items);
            assert(bs =~= seq![items]);
            assert(bs.drop_first() =~= Seq::<Seq<A>>::empty());
            assert(bs.drop_first().flatten() =~= Seq::<A>::empty());
            assert(bs.flatten() == bs.first() + bs.drop_first().flatten());
            assert(bs.flatten() =~= items);
        }
    } else {
        let rest = items.skip(100);
        law_batches_cover(rest);
        let bs = Seq::new(num_batches(n) as nat, |j: int| batch(items, j));
        let rs = Seq::new(num_batches(rest.len() as int) as nat, |j: int| batch(rest, j));
        assert(num_batches(n) == num_batches(rest.len() as int) + 1) by (nonlinear_arith)
            requires
                n > 100,
                rest.len() == n - 100,
        {
        }
        assert forall|j: int| 0 <= j < rs.len() implies bs[j + 1] == rs[j] by {
            lemma_batch_bounds(j + 1, n);
            assert(batch_end(j + 1, n) == 100 + batch_end(j, n - 100));
            assert(batch(items, j + 1) =~= batch(rest, j));
        }
        assert(bs.drop_first() =~= rs);
        assert(bs[0] =~= items.take(100));
        assert(bs.flatten() == bs[0] + bs.drop_first().flatten());
        assert(items =~= items.take(100) + rest);
    }
}

/// Command deduplication: commands that only read always run (their nonce is ignored);
/// a mutating command with a nonce runs unless the server answered the claim with 409
/// (a failed claim request lets it run).
pub proof fn law_claim_gates_mutations(cmd: CommandView, o: ClaimOutcome)
    ensures
        !cmd.is_mutating() ==> spec_should_execute(cmd, Some(o)) && spec_should_execute(cmd, None),
        cmd.is_mutating() && cmd.nonce() is Some ==> (spec_should_execute(cmd, Some(o)) <==> !(o == ClaimOutcome::Status(409))),
        cmd.nonce() is None ==> spec_should_execute(cmd, Some(o)),
{
}

/// Proactive refresh: a reconnect is scheduled exactly one hour before the token
/// expires, and none when that moment has passed or the expiry is unknown.
pub proof fn law_refresh_one_hour_early(exp: u64, now: u64)
    ensures
        spec_refresh_delay(Some(exp), now) matches Some(d) ==> now + d + 3600 == exp,
        exp <= now + 3600 ==> spec_refresh_delay(Some(exp), now) is None,
        exp > now + 3600 ==> spec_refresh_delay(Some(exp), now) is Some,
        spec_refresh_delay(None, now) is None,
{
}

/// After a 401 answer the token is invalidated (expiry zero), and an invalidated token
/// is always refreshed before the next call, whatever the time.
pub proof fn law_invalidated_token_is_refreshed(now: u64)
    ensures
        token_expired(0, now),
{
}

/// A fade lowers the volume step by step: every step is at most the original volume,
/// no step is louder than the one before, and the last step is silence.
pub proof fn law_fade_descends(v: u32, i: u32, j: u32)
    requires
        v <= max_fade_volume(),
        1 <= i <= j <= 5,
    ensures
        fade_volume(v, j) <= fade_volume(v, i) <= v,
        fade_volume(v, 5) == 0,
{
    assert((v * (5 - j)) / 5 <= (v * (5 - i)) / 5 <= v) by (nonlinear_arith)
        requires
            1 <= i <= j <= 5,
    {
        assert(v * (5 - j) <= v * (5 - i));
        assert(v * (5 - i) <= v * 5);
    }
    assert(v * (5 - 5) == 0);
}

/// Decoding keeps what routes and correlates a command: the decoded command's wire
/// name is the tag it was sent with, and its `id` and `nonce` are the ones sent (by
/// name in the object form, by position in the array form).
pub proof fn law_decoded_command_keeps_tag_id_nonce(doc: Seq<char>, base: Seq<char>)
    ensures
        spec_decode_command(doc, base) matches Some(c) ==> {
            let af = is_array_form(doc, base);
            &&& spec_req_string(doc, tag_pointer(doc, base)) == Some(spec_command_name(c))
            &&& spec_req_string(doc, member(base, af, "id"@, 1)) == Some(c.id())
            &&& spec_opt_string(doc, member(base, af, "nonce"@, member_count(spec_command_name(c))))
                == Some(c.nonce())
        },
{
}

/// A stored access token is used only while more than 60 seconds of its lifetime
/// remain; from 60 seconds before its expiry on, it is refreshed first.
pub proof fn law_token_refreshed_one_minute_early(expires_at: u64, now: u64)
    ensures
        !token_expired(expires_at, now) ==> now + 60 < expires_at,
        now + 60 >= expires_at ==> token_expired(expires_at, now),
{
}

/// Base64url decoding gives back exactly what was encoded.
pub proof fn law_base64url_round_trip(data: Seq<u8>)
    ensures
        base64url_decode(base64url_encode(data)) == Some(data),
{
    lemma_decode_encode(data);
}

proof fn lemma_split_plain(a: Seq<char>, s: Seq<char>, sep: char)
    requires
        forall|i: int| 0 <= i < s.len() ==> s[i] != sep,
    ensures
        split_char(a + s, sep) == split_char(a, sep).update(
            split_char(a, sep).len() - 1,
            split_char(a, sep).last() + s,
        ),
        split_char(a + s, sep).len() == split_char(a, sep).len(),
    decreases s.len(),
{
    crate::oauth::callback::lemma_split_nonempty(a, sep);
    if s.len() == 0 {
        assert(a + s =~= a);
        assert(split_char(a, sep).last() + s =~= split_char(a, sep).last());
        assert(split_char(a, sep).update(split_char(a, sep).len() - 1, split_char(a, sep).last())
            =~= split_char(a, sep));
    } else {
        let s1 = s.drop_last();
        lemma_split_plain(a, s1, sep);
        assert((a + s).drop_last() =~= a + s1);
        assert((a + s).last() == s.last());
        assert(split_char(a, sep).last() + s =~= (split_char(a, sep).last() + s1).push(s.last()));
        assert(split_char(a + s, sep) =~= split_char(a, sep).update(
            split_char(a, sep).len() - 1,
            split_char(a, sep).last() + s,
        ));
    }
}

proof fn lemma_split_at_sep(a: Seq<char>, sep: char)
    ensures
        split_char(a.push(sep), sep) == split_char(a, sep).push(Seq::empty()),
{
    assert(a.push(sep).drop_last() =~= a);
}

/// A JWT gives back the claims it was built from: when neither the header nor the
/// signature holds a `.`, the claims of `header.claims.signature`, with the claims
/// base64url-encoded, are those claims.
pub proof fn law_jwt_claims_round_trip(header: Seq<char>, claims: Seq<u8>, signature: Seq<char>)
    requires
        forall|i: int| 0 <= i < header.len() ==> header[i] != '.',
        forall|i: int| 0 <= i < signature.len() ==> signature[i] != '.',
    ensures
        jwt_claims(header + seq!['.'] + base64url_encode(claims) + seq!['.'] + signature) == Some(claims),
{
    let e = base64url_encode(claims);
    lemma_encode_symbols(claims);
    assert forall|i: int| 0 <= i < e.len() implies e[i] != '.' by {
        assert(crate::base64url::is_b64_symbol(e[i]));
    }
    lemma_split_three(header, e, signature);
    if e.len() > 0 {
        assert(crate::base64url::is_b64_symbol(e[e.len() - 1]));
    }
    assert(trim_end_char(e, '=') == e);
    lemma_decode_encode(claims);
}

proof fn lemma_no_dot(s: Seq<char>)
    requires
        forall|i: int| 0 <= i < s.len() ==> s[i] != '.',
    ensures
        split_char(s, '.') == seq![s],
{
    let empty = Seq::<char>::empty();
    lemma_split_plain(empty, s, '.');
    assert(empty + s =~= s);
    assert(split_char(s, '.') =~= seq![s]);
}

/// `h.p.s` splits at `.` into exactly `h`, `p` and `s` when none of them holds a `.`.
proof fn lemma_split_three(h: Seq<char>, p: Seq<char>, s: Seq<char>)
    requires
        forall|i: int| 0 <= i < h.len() ==> h[i] != '.',
        forall|i: int| 0 <= i < p.len() ==> p[i] != '.',
        forall|i: int| 0 <= i < s.len() ==> s[i] != '.',
    ensures
        split_char(h + seq!['.'] + p + seq!['.'] + s, '.') == seq![h, p, s],
{
    lemma_no_dot(h);
    let p1 = h.push('.');
    lemma_split_at_sep(h, '.');
    lemma_split_plain(p1, p, '.');
    let p2 = (p1 + p).push('.');
    lemma_split_at_sep(p1 + p, '.');
    lemma_split_plain(p2, s, '.');
    let token = h + seq!['.'] + p + seq!['.'] + s;
    assert(token =~= p2 + s);
    assert(split_char(token, '.') =~= seq![h, p, s]);
}

/// The JWT expiry is read from the payload alone: the header and the signature (which
/// is not verified) make no difference, as long as none of the three parts holds a `.`.
pub proof fn law_jwt_expiry_reads_only_payload(
    h1: Seq<char>,
    h2: Seq<char>,
    payload: Seq<char>,
    s1: Seq<char>,
    s2: Seq<char>,
)
    requires
        forall|i: int| 0 <= i < h1.len() ==> h1[i] != '.',
        forall|i: int| 0 <= i < h2.len() ==> h2[i] != '.',
        forall|i: int| 0 <= i < payload.len() ==> payload[i] != '.',
        forall|i: int| 0 <= i < s1.len() ==> s1[i] != '.',
        forall|i: int| 0 <= i < s2.len() ==> s2[i] != '.',
    ensures
        jwt_expiry(h1 + seq!['.'] + payload + seq!['.'] + s1)
            == jwt_expiry(h2 + seq!['.'] + payload + seq!['.'] + s2),
{
    lemma_split_three(h1, payload, s1);
    lemma_split_three(h2, payload, s2);
}

/// The authorization requests all seven scopes the relay uses, separated by spaces.
pub proof fn law_all_scopes_requested()
    ensures
        scopes() == "user-read-currently-playing"@ + " "@ + "user-read-playback-state"@ + " "@
            + "user-modify-playback-state"@ + " "@ + "playlist-read-private"@ + " "@
            + "playlist-read-collaborative"@ + " "@ + "playlist-modify-public"@ + " "@
            + "playlist-modify-private"@,
{
    reveal_strlit("user-read-currently-playing user-read-playback-state user-modify-playback-state playlist-read-private playlist-read-collaborative playlist-modify-public playlist-modify-private");
    reveal_strlit("user-read-currently-playing");
    reveal_strlit("user-read-playback-state");
    reveal_strlit("user-modify-playback-state");
    reveal_strlit("playlist-read-private");
    reveal_strlit("playlist-read-collaborative");
    reveal_strlit("playlist-modify-public");
    reveal_strlit("playlist-modify-private");
    reveal_strlit(" ");
    assert(scopes() =~= "user-read-currently-playing"@ + " "@ + "user-read-playback-state"@ + " "@
        + "user-modify-playback-state"@ + " "@ + "playlist-read-private"@ + " "@
        + "playlist-read-collaborative"@ + " "@ + "playlist-modify-public"@ + " "@
        + "playlist-modify-private"@);
}

/// Percent-encoding can be undone: decoding the encoding gives the bytes back, and
/// the encoding is at most three characters per byte.
pub proof fn law_percent_encoding_round_trip(bytes: Seq<u8>)
    ensures
        spec_decode(spec_encode(bytes)) == bytes,
        spec_encode(bytes).len() <= 3 * bytes.len(),
{
    lemma_percent_decode_encode(bytes);
    lemma_encode_shape(bytes);
}

/// The reply a fade step gives, if any.
pub open spec fn fade_reply(a: FadeAction) -> Option<CommandResponse> {
    match a {
        FadeAction::Respond(r) => Some(r),
        FadeAction::RestoreAndRespond { response, .. } => Some(response),
        _ => None,
    }
}

/// A reply to the command `id`: it carries that id and exactly one of a result and an
/// error.
pub open spec fn answers(r: CommandResponse, id: String) -> bool {
    r.id == id && (r.result is Some) != (r.error is Some)
}

proof fn lemma_fade_keeps_id(states: Seq<Fade>, events: Seq<FadeEvent>, actions: Seq<FadeAction>, k: int)
    requires
        states.len() == events.len() + 1,
        actions.len() == events.len(),
        forall|j: int| 0 <= j < events.len() ==> #[trigger] Fade::transition(states[j], events[j], states[j + 1], actions[j]),
        0 <= k < states.len(),
    ensures
        states[k].id == states[0].id,
    decreases k,
{
    if k > 0 {
        let j = k - 1;
        lemma_fade_keeps_id(states, events, actions, j);
        assert(Fade::transition(states[j], events[j], states[j + 1], actions[j]));
        assert(j + 1 == k);
    }
}

/// Over any run of a fade (each step one accepted report), every reply it gives carries
/// the id of the command the fade was made for and exactly one of a result and an error.
pub proof fn law_fade_replies_answer_the_command(
    states: Seq<Fade>,
    events: Seq<FadeEvent>,
    actions: Seq<FadeAction>,
)
    requires
        states.len() == events.len() + 1,
        actions.len() == events.len(),
        forall|j: int| 0 <= j < events.len() ==> #[trigger] Fade::transition(states[j], events[j], states[j + 1], actions[j]),
    ensures
        forall|k: int| 0 <= k < actions.len() ==> (#[trigger] fade_reply(actions[k]) matches Some(r) ==> answers(r, states[0].id)),
{
    assert forall|k: int| 0 <= k < actions.len() implies (#[trigger] fade_reply(actions[k]) matches Some(r) ==> answers(r, states[0].id)) by {
        lemma_fade_keeps_id(states, events, actions, k);
        assert(Fade::transition(states[k], events[k], states[k + 1], actions[k]));
    }
}

/// The artist summary names every artist, in order, separated by `", "`: one artist
/// gives its name, and one more artist adds `", "` and its name at the end.
pub proof fn law_artist_summary_lists_every_artist(artists: Seq<Artist>, a: Artist)
    ensures
        join_names(Seq::empty()) == Seq::<char>::empty(),
        join_names(seq![a]) == a.name@,
        artists.len() > 0 ==> join_names(artists.push(a)) == join_names(artists) + ", "@ + a.name@,
{
    assert(artists.push(a).drop_last() =~= artists);
    assert(seq![a][0] == a);
}

/// A removal body names every URI of its batch, in order: one URI gives one
/// `{"uri":..}` object, and one more URI adds `,` and its object at the end.
pub proof fn law_removal_names_every_uri(uris: Seq<Seq<char>>, u: Seq<char>)
    ensures
        uri_objects(Seq::empty()) == Seq::<char>::empty(),
        uri_objects(seq![u]) == "{\"uri\":"@ + json_string(u) + "}"@,
        uris.len() > 0 ==> uri_objects(uris.push(u)) == uri_objects(uris) + ","@ + "{\"uri\":"@ + json_string(u) + "}"@,
{
    assert(uris.push(u).drop_last() =~= uris);
    assert(seq![u][0] == u);
}

/// A JSON array of strings lists every string, in order, separated by `,`.
pub proof fn law_string_array_lists_every_item(items: Seq<Seq<char>>, x: Seq<char>)
    ensures
        json_string_list(Seq::empty()) == Seq::<char>::empty(),
        json_string_list(seq![x]) == json_string(x),
        items.len() > 0 ==> json_string_list(items.push(x)) == json_string_list(items) + seq![','] + json_string(x),
{
    assert(items.push(x).drop_last() =~= items);
    assert(seq![x][0] == x);
}

/// The ids of an artists request are every id, in order, separated by `,`.
pub proof fn law_artist_ids_join_every_id(ids: Seq<Seq<char>>, x: Seq<char>)
    ensures
        comma_join(Seq::empty()) == Seq::<char>::empty(),
        comma_join(seq![x]) == x,
        ids.len() > 0 ==> comma_join(ids.push(x)) == comma_join(ids) + ","@ + x,
{
    assert(ids.push(x).drop_last() =~= ids);
    assert(seq![x][0] == x);
}

/// The characters a query component keeps as they are: ASCII letters, digits and `-_.~`.
pub open spec fn url_unreserved(c: char) -> bool {
    ('A' <= c <= 'Z') || ('a' <= c <= 'z') || ('0' <= c <= '9') || c == '-' || c == '_' || c == '.' || c == '~'
}

/// The upper-case hexadecimal digit of `d < 16`.
pub open spec fn upper_hex_digit(d: int) -> char {
    if d < 10 { ('0' as int + d) as char } else { ('A' as int + (d - 10)) as char }
}

/// Percent-encoding of one byte: an unreserved ASCII character stays as it is, every
/// other byte becomes `%` and its two upper-case hexadecimal digits.
pub proof fn law_percent_encode_byte(b: u8)
    ensures
        spec_encode(seq![b]) == if url_unreserved(b as char) {
            seq![b as char]
        } else {
            seq!['%', upper_hex_digit(b as int / 16), upper_hex_digit(b as int % 16)]
        },
{
    assert(seq![b].drop_last() =~= Seq::<u8>::empty());
    assert(seq![b].last() == b);
    assert(url_unreserved(b as char) == crate::oauth::urlencoding::is_unreserved(b));
    let hi: u8 = b / 16;
    let lo: u8 = b % 16;
    assert(hi as int == b as int / 16 && lo as int == b as int % 16);
    assert(crate::oauth::urlencoding::hex_upper(hi) == upper_hex_digit(hi as int));
    assert(crate::oauth::urlencoding::hex_upper(lo) == upper_hex_digit(lo as int));
    let e = crate::oauth::urlencoding::encode_byte(b);
    assert(Seq::<char>::empty() + e =~= e);
    assert(spec_encode(seq![b]) == spec_encode(Seq::<u8>::empty()) + e);
    assert(spec_encode(seq![b]) == e);
}

/// Percent-encoding works byte by byte: the encoding of two pieces one after the other
/// is the encoding of the first followed by that of the second.
pub proof fn law_percent_encode_concat(a: Seq<u8>, b: Seq<u8>)
    ensures
        spec_encode(a + b) == spec_encode(a) + spec_encode(b),
    decreases b.len(),
{
    if b.len() == 0 {
        assert(a + b =~= a);
        assert(spec_encode(a) + spec_encode(b) =~= spec_encode(a));
    } else {
        let b1 = b.drop_last();
        law_percent_encode_concat(a, b1);
        assert((a + b).drop_last() =~= a + b1);
        assert((a + b).last() == b.last());
        assert(spec_encode(a + b) =~= spec_encode(a) + spec_encode(b));
    }
}

/// No byte outside the unreserved set appears unescaped: every character of an
/// encoding is an unreserved character, a `%`, or an upper-case hexadecimal digit of an
/// escape.
pub proof fn law_percent_encoding_charset(bytes: Seq<u8>)
    ensures
        forall|i: int| 0 <= i < spec_encode(bytes).len() ==> {
            let c = #[trigger] spec_encode(bytes)[i];
            url_unreserved(c) || c == '%'
        },
    decreases bytes.len(),
{
    if bytes.len() > 0 {
        let p = bytes.drop_last();
        let b = bytes.last();
        law_percent_encoding_charset(p);
        law_percent_encode_byte(b);
        law_percent_encode_concat(p, seq![b]);
        assert(p + seq![b] =~= bytes);
        let e = spec_encode(bytes);
        let ep = spec_encode(p);
        assert forall|i: int| 0 <= i < e.len() implies {
            let c = #[trigger] e[i];
            url_unreserved(c) || c == '%'
        } by {
            if i < ep.len() {
                assert(e[i] == ep[i]);
            } else {
                let d0 = b as int / 16;
                let d1 = b as int % 16;
                assert(0 <= d0 < 16 && 0 <= d1 < 16);
            }
        }
    }
}

/// The wire tags of the commands that change playback, the queue or playlists.
pub open spec fn mutating_tag(t: Seq<char>) -> bool {
    t == "add_to_queue"@ || t == "add_to_playlist"@ || t == "remove_from_playlist"@
        || t == "replace_playlist"@ || t == "create_playlist"@ || t == "pause"@ || t == "resume"@
        || t == "skip_next"@ || t == "skip_previous"@ || t == "set_volume"@ || t == "fade_skip"@
        || t == "fade_pause"@
}

proof fn lemma_mutating_by_name(c: CommandView)
    ensures
        c.is_mutating() <==> mutating_tag(spec_command_name(c)),
{
    reveal_strlit("add_to_queue");
    reveal_strlit("add_to_playlist");
    reveal_strlit("remove_from_playlist");
    reveal_strlit("replace_playlist");
    reveal_strlit("create_playlist");
    reveal_strlit("pause");
    reveal_strlit("resume");
    reveal_strlit("skip_next");
    reveal_strlit("skip_previous");
    reveal_strlit("set_volume");
    reveal_strlit("fade_skip");
    reveal_strlit("fade_pause");
    let t = spec_command_name(c);
    match c {
        CommandView::GetNowPlaying { .. } => {
            reveal_strlit("get_now_playing");
            assert(t[0] == 'g');
            assert(!mutating_tag(t));
        },
        CommandView::GetQueue { .. } => {
            reveal_strlit("get_queue");
            assert(t[0] == 'g');
            assert(!mutating_tag(t));
        },
        CommandView::Search { .. } => {
            reveal_strlit("search");
            assert(t[0] == 's');
            assert("resume"@[0] == 'r');
            assert(t.len() == 6);
            assert(!mutating_tag(t));
        },
        CommandView::GetPlaybackState { .. } => {
            reveal_strlit("get_playback_state");
            assert(t[0] == 'g');
            assert(!mutating_tag(t));
        },
        CommandView::GetPlaylistTracks { .. } => {
            reveal_strlit("get_playlist_tracks");
            assert(t[0] == 'g');
            assert(!mutating_tag(t));
        },
        CommandView::GetArtists { .. } => {
            reveal_strlit("get_artists");
            assert(t[0] == 'g');
            assert(!mutating_tag(t));
        },
        CommandView::GetPlaylistDetails { .. } => {
            reveal_strlit("get_playlist_details");
            assert(t[0] == 'g');
            assert(!mutating_tag(t));
        },
        CommandView::GetCurrentUser { .. } => {
            reveal_strlit("get_current_user");
            assert(t[0] == 'g');
            assert(!mutating_tag(t));
        },
        _ => {
            assert(c.is_mutating());
            assert(mutating_tag(t));
        },
    }
}

/// A decoded command is mutating (and so claimed before it runs) exactly when its wire
/// tag is one of the twelve mutating ones.
pub proof fn law_mutating_commands_by_tag(doc: Seq<char>, base: Seq<char>)
    ensures
        spec_decode_command(doc, base) matches Some(c) ==> (c.is_mutating() <==> (
            spec_req_string(doc, tag_pointer(doc, base)) matches Some(t) && mutating_tag(t))),
{
    law_decoded_command_keeps_tag_id_nonce(doc, base);
    if let Some(c) = spec_decode_command(doc, base) {
        lemma_mutating_by_name(c);
    }
}

/// The members of a command sent as a JSON object are read under their wire names:
/// `query`, `track_uri`, `playlist_id`, `offset`, `limit`, `uris`, `position`, `name`,
/// `description`, `public`, `artist_ids` and `volume_percent`, each with its JSON type.
pub proof fn law_object_command_members_by_name(doc: Seq<char>, base: Seq<char>)
    requires
        json_node_at(doc, base) is Object,
    ensures
        spec_decode_command(doc, base) matches Some(c) ==> (match c {
            CommandView::Search { query, .. } => spec_req_string(doc, child(base, "query"@)) == Some(query),
            CommandView::AddToQueue { track_uri, .. } =>
                spec_req_string(doc, child(base, "track_uri"@)) == Some(track_uri),
            CommandView::GetPlaylistTracks { playlist_id, offset, limit, .. } =>
                spec_req_string(doc, child(base, "playlist_id"@)) == Some(playlist_id)
                && spec_opt_u32(doc, child(base, "offset"@)) == Some(offset)
                && spec_opt_u32(doc, child(base, "limit"@)) == Some(limit),
            CommandView::AddToPlaylist { playlist_id, uris, position, .. } =>
                spec_req_string(doc, child(base, "playlist_id"@)) == Some(playlist_id)
                && spec_req_strings(doc, child(base, "uris"@)) == Some(uris)
                && spec_opt_u32(doc, child(base, "position"@)) == Some(position),
            CommandView::RemoveFromPlaylist { playlist_id, uris, .. } =>
                spec_req_string(doc, child(base, "playlist_id"@)) == Some(playlist_id)
                && spec_req_strings(doc, child(base, "uris"@)) == Some(uris),
            CommandView::ReplacePlaylist { playlist_id, uris, .. } =>
                spec_req_string(doc, child(base, "playlist_id"@)) == Some(playlist_id)
                && spec_req_strings(doc, child(base, "uris"@)) == Some(uris),
            CommandView::CreatePlaylist { name, description, public, .. } =>
                spec_req_string(doc, child(base, "name"@)) == Some(name)
                && spec_opt_string(doc, child(base, "description"@)) == Some(description)
                && spec_opt_bool(doc, child(base, "public"@)) == Some(public),
            CommandView::GetArtists { artist_ids, .. } =>
                spec_req_strings(doc, child(base, "artist_ids"@)) == Some(artist_ids),
            CommandView::GetPlaylistDetails { playlist_id, .. } =>
                spec_req_string(doc, child(base, "playlist_id"@)) == Some(playlist_id),
            CommandView::SetVolume { volume_percent, .. } =>
                spec_req_u32(doc, child(base, "volume_percent"@)) == Some(volume_percent),
            _ => true,
        }),
{
}

/// The members of a command sent as a JSON array `[tag, id, ...]` are read by position,
/// in the order of the protocol: the first member after `id` at index 2, the next at 3
/// and the third at 4.
pub proof fn law_array_command_members_by_position(doc: Seq<char>, base: Seq<char>)
    requires
        json_node_at(doc, base) is Array,
    ensures
        spec_decode_command(doc, base) matches Some(c) ==> (match c {
            CommandView::Search { query, .. } => spec_req_string(doc, child(base, decimal(2))) == Some(query),
            CommandView::AddToQueue { track_uri, .. } =>
                spec_req_string(doc, child(base, decimal(2))) == Some(track_uri),
            CommandView::GetPlaylistTracks { playlist_id, offset, limit, .. } =>
                spec_req_string(doc, child(base, decimal(2))) == Some(playlist_id)
                && spec_opt_u32(doc, child(base, decimal(3))) == Some(offset)
                && spec_opt_u32(doc, child(base, decimal(4))) == Some(limit),
            CommandView::AddToPlaylist { playlist_id, uris, position, .. } =>
                spec_req_string(doc, child(base, decimal(2))) == Some(playlist_id)
                && spec_req_strings(doc, child(base, decimal(3))) == Some(uris)
                && spec_opt_u32(doc, child(base, decimal(4))) == Some(position),
            CommandView::RemoveFromPlaylist { playlist_id, uris, .. } =>
                spec_req_string(doc, child(base, decimal(2))) == Some(playlist_id)
                && spec_req_strings(doc, child(base, decimal(3))) == Some(uris),
            CommandView::ReplacePlaylist { playlist_id, uris, .. } =>
                spec_req_string(doc, child(base, decimal(2))) == Some(playlist_id)
                && spec_req_strings(doc, child(base, decimal(3))) == Some(uris),
            CommandView::CreatePlaylist { name, description, public, .. } =>
                spec_req_string(doc, child(base, decimal(2))) == Some(name)
                && spec_opt_string(doc, child(base, decimal(3))) == Some(description)
                && spec_opt_bool(doc, child(base, decimal(4))) == Some(public),
            CommandView::GetArtists { artist_ids, .. } =>
                spec_req_strings(doc, child(base, decimal(2))) == Some(artist_ids),
            CommandView::GetPlaylistDetails { playlist_id, .. } =>
                spec_req_string(doc, child(base, decimal(2))) == Some(playlist_id),
            CommandView::SetVolume { volume_percent, .. } =>
                spec_req_u32(doc, child(base, decimal(2))) == Some(volume_percent),
            _ => true,
        }),
{
}

/// The command tags of the wire protocol that carry no member besides `id` and `nonce`.
pub open spec fn memberless_tag(t: Seq<char>) -> bool {
    t == "get_now_playing"@ || t == "get_queue"@ || t == "get_playback_state"@ || t == "get_current_user"@
        || t == "pause"@ || t == "resume"@ || t == "skip_next"@ || t == "skip_previous"@ || t == "fade_skip"@
        || t == "fade_pause"@
}

/// The tags that carry members of their own.
pub open spec fn tag_with_members(t: Seq<char>) -> bool {
    t == "search"@ || t == "add_to_queue"@ || t == "get_playlist_tracks"@ || t == "add_to_playlist"@
        || t == "remove_from_playlist"@ || t == "replace_playlist"@ || t == "create_playlist"@
        || t == "get_artists"@ || t == "get_playlist_details"@ || t == "set_volume"@
}

/// When a command sent as a JSON object decodes: its `command` member names one of the
/// twenty commands, `id` is a string and `nonce` a string or absent or `null`, and the
/// members of that command (by their wire names) have their JSON types. An unknown tag
/// never decodes.
#[verifier::rlimit(50)]
pub proof fn law_object_command_decodes(doc: Seq<char>, base: Seq<char>, t: Seq<char>)
    requires
        json_node_at(doc, base) is Object,
        spec_req_string(doc, child(base, "command"@)) == Some(t),
    ensures
        spec_decode_command(doc, base) is Some ==> (memberless_tag(t) || tag_with_members(t))
            && spec_req_string(doc, child(base, "id"@)) is Some
            && spec_opt_string(doc, child(base, "nonce"@)) is Some,
        spec_req_string(doc, child(base, "id"@)) is Some && spec_opt_string(doc, child(base, "nonce"@)) is Some
            ==> {
            &&& memberless_tag(t) ==> spec_decode_command(doc, base) is Some
            &&& t == "search"@ ==> (spec_decode_command(doc, base) is Some
                <==> spec_req_string(doc, child(base, "query"@)) is Some)
            &&& t == "add_to_queue"@ ==> (spec_decode_command(doc, base) is Some
                <==> spec_req_string(doc, child(base, "track_uri"@)) is Some)
            &&& t == "get_playlist_tracks"@ ==> (spec_decode_command(doc, base) is Some
                <==> spec_req_string(doc, child(base, "playlist_id"@)) is Some
                && spec_opt_u32(doc, child(base, "offset"@)) is Some
                && spec_opt_u32(doc, child(base, "limit"@)) is Some)
            &&& t == "add_to_playlist"@ ==> (spec_decode_command(doc, base) is Some
                <==> spec_req_string(doc, child(base, "playlist_id"@)) is Some
                && spec_req_strings(doc, child(base, "uris"@)) is Some
                && spec_opt_u32(doc, child(base, "position"@)) is Some)
            &&& t == "remove_from_playlist"@ ==> (spec_decode_command(doc, base) is Some
                <==> spec_req_string(doc, child(base, "playlist_id"@)) is Some
                && spec_req_strings(doc, child(base, "uris"@)) is Some)
            &&& t == "replace_playlist"@ ==> (spec_decode_command(doc, base) is Some
                <==> spec_req_string(doc, child(base, "playlist_id"@)) is Some
                && spec_req_strings(doc, child(base, "uris"@)) is Some)
            &&& t == "create_playlist"@ ==> (spec_decode_command(doc, base) is Some
                <==> spec_req_string(doc, child(base, "name"@)) is Some
                && spec_opt_string(doc, child(base, "description"@)) is Some
                && spec_opt_bool(doc, child(base, "public"@)) is Some)
            &&& t == "get_artists"@ ==> (spec_decode_command(doc, base) is Some
                <==> spec_req_strings(doc, child(base, "artist_ids"@)) is Some)
            &&& t == "get_playlist_details"@ ==> (spec_decode_command(doc, base) is Some
                <==> spec_req_string(doc, child(base, "playlist_id"@)) is Some)
            &&& t == "set_volume"@ ==> (spec_decode_command(doc, base) is Some
                <==> spec_req_u32(doc, child(base, "volume_percent"@)) is Some)
        },
{
    reveal_strlit("get_now_playing");
    reveal_strlit("get_queue");
    reveal_strlit("search");
    reveal_strlit("add_to_queue");
    reveal_strlit("get_playback_state");
    reveal_strlit("get_playlist_tracks");
    reveal_strlit("add_to_playlist");
    reveal_strlit("remove_from_playlist");
    reveal_strlit("replace_playlist");
    reveal_strlit("create_playlist");
    reveal_strlit("get_artists");
    reveal_strlit("get_playlist_details");
    reveal_strlit("get_current_user");
    reveal_strlit("pause");
    reveal_strlit("resume");
    reveal_strlit("skip_next");
    reveal_strlit("skip_previous");
    reveal_strlit("set_volume");
    reveal_strlit("fade_skip");
    reveal_strlit("fade_pause");
    assert("get_now_playing"@.len() == 15 && "get_now_playing"@[0] == 'g');
    assert("get_queue"@.len() == 9 && "get_queue"@[0] == 'g');
    assert("search"@.len() == 6 && "search"@[0] == 's');
    assert("add_to_queue"@.len() == 12 && "add_to_queue"@[0] == 'a');
    assert("get_playback_state"@.len() == 18 && "get_playback_state"@[0] == 'g');
    assert("get_playlist_tracks"@.len() == 19 && "get_playlist_tracks"@[0] == 'g');
    assert("add_to_playlist"@.len() == 15 && "add_to_playlist"@[0] == 'a');
    assert("remove_from_playlist"@.len() == 20 && "remove_from_playlist"@[0] == 'r');
    assert("replace_playlist"@.len() == 16 && "replace_playlist"@[0] == 'r');
    assert("create_playlist"@.len() == 15 && "create_playlist"@[0] == 'c');
    assert("get_artists"@.len() == 11 && "get_artists"@[0] == 'g');
    assert("get_playlist_details"@.len() == 20 && "get_playlist_details"@[0] == 'g');
    assert("get_current_user"@.len() == 16 && "get_current_user"@[0] == 'g');
    assert("pause"@.len() == 5 && "pause"@[0] == 'p');
    assert("resume"@.len() == 6 && "resume"@[0] == 'r');
    assert("skip_next"@.len() == 9 && "skip_next"@[0] == 's');
    assert("skip_previous"@.len() == 13 && "skip_previous"@[0] == 's');
    assert("set_volume"@.len() == 10 && "set_volume"@[0] == 's');
    assert("fade_skip"@.len() == 9 && "fade_skip"@[0] == 'f');
    assert("fade_pause"@.len() == 10 && "fade_pause"@[0] == 'f');
}

} // verus!
