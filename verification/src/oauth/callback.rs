//! The OAuth redirect: reading the callback request line and answering the browser.
use vstd::prelude::*;
use crate::oauth::OAuthError;
use crate::text::{is_ws, push_decimal, push_str, decimal};
use vstd::string::StringSliceAdditionalSpecFns;
use vstd::utf8::encode_utf8;

verus! {

/// Index of the first `c` in `s` (the length when absent).
pub open spec fn find_char(s: Seq<char>, c: char) -> int
    decreases s.len(),
{
    if s.len() == 0 {
        0
    } else if s[0] == c {
        0
    } else {
        1 + find_char(s.drop_first(), c)
    }
}

/// `str::lines().next()`: the text before the first `\n` (without a `\r` just before
/// it), the whole text when there is no `\n`, and nothing for an empty text.
pub open spec fn first_line(s: Seq<char>) -> Option<Seq<char>> {
    if s.len() == 0 {
        None
    } else {
        let k = find_char(s, '\n');
        if k < s.len() {
            let l = s.take(k);
            Some(if l.len() > 0 && l.last() == '\r' { l.drop_last() } else { l })
        } else {
            Some(s)
        }
    }
}

/// `str::split_whitespace()`: the maximal runs of non-whitespace characters.
pub open spec fn ws_tokens(s: Seq<char>) -> Seq<Seq<char>>
    decreases s.len(),
{
    if s.len() == 0 {
        Seq::empty()
    } else {
        let t = ws_tokens(s.drop_last());
        let c = s.last();
        if is_ws(c) {
            t
        } else if s.len() >= 2 && !is_ws(s[s.len() - 2]) {
            t.update(t.len() - 1, t.last().push(c))
        } else {
            t.push(seq![c])
        }
    }
}

/// `str::split(sep)`: the pieces between separators (at least one, possibly empty).
pub open spec fn split_char(s: Seq<char>, sep: char) -> Seq<Seq<char>>
    decreases s.len(),
{
    if s.len() == 0 {
        seq![Seq::empty()]
    } else {
        let t = split_char(s.drop_last(), sep);
        if s.last() == sep {
            t.push(Seq::empty())
        } else {
            t.update(t.len() - 1, t.last().push(s.last()))
        }
    }
}

/// The value of query parameter `key` among the `&`-separated `pieces`: pieces without
/// `=` are ignored, a key is what precedes the first `=`, and the last occurrence wins.
pub open spec fn param_of(pieces: Seq<Seq<char>>, key: Seq<char>) -> Option<Seq<char>>
    decreases pieces.len(),
{
    if pieces.len() == 0 {
        None
    } else {
        let p = pieces.last();
        let k = find_char(p, '=');
        if k < p.len() && p.take(k) == key {
            Some(p.skip(k + 1))
        } else {
            param_of(pieces.drop_last(), key)
        }
    }
}

/// The query string of a callback request: the text after the first `?` (up to a
/// further `?`) of the second whitespace-separated word of the first line.
pub open spec fn callback_query(request: Seq<char>) -> Option<Seq<char>> {
    match first_line(request) {
        None => None,
        Some(line) => {
            let words = ws_tokens(line);
            if words.len() < 2 {
                None
            } else {
                let parts = split_char(words[1], '?');
                if parts.len() < 2 { None } else { Some(parts[1]) }
            }
        },
    }
}

pub proof fn lemma_split_nonempty(s: Seq<char>, sep: char)
    ensures
        split_char(s, sep).len() >= 1,
    decreases s.len(),
{
    if s.len() > 0 {
        lemma_split_nonempty(s.drop_last(), sep);
    }
}

proof fn lemma_find_char(s: Seq<char>, c: char)
    ensures
        0 <= find_char(s, c) <= s.len(),
        forall|i: int| 0 <= i < find_char(s, c) ==> s[i] != c,
        find_char(s, c) < s.len() ==> s[find_char(s, c)] == c,
    decreases s.len(),
{
    if s.len() > 0 && s[0] != c {
        lemma_find_char(s.drop_first(), c);
        assert forall|i: int| 0 <= i < find_char(s, c) implies s[i] != c by {
            if i > 0 {
                assert(s[i] == s.drop_first()[i - 1]);
            }
        }
    }
}

proof fn lemma_find_char_unique(s: Seq<char>, c: char, k: int)
    requires
        0 <= k <= s.len(),
        forall|i: int| 0 <= i < k ==> s[i] != c,
        k < s.len() ==> s[k] == c,
    ensures
        find_char(s, c) == k,
{
    lemma_find_char(s, c);
    let f = find_char(s, c);
    if f < k {
        assert(s[f] == c);
    } else if f > k {
        assert(s[k] != c);
    }
}

/// The bounds of the pieces of `cs` split at `sep`.
pub open spec fn pieces_of(cs: Seq<char>, b: Seq<(usize, usize)>) -> Seq<Seq<char>> {
    Seq::new(b.len(), |j: int| cs.subrange(b[j].0 as int, b[j].1 as int))
}

/// Splits `cs` at every `sep`, returning the bounds of the pieces.
pub fn split_bounds(cs: &Vec<char>, sep: char) -> (r: Vec<(usize, usize)>)
    ensures
        pieces_of(cs@, r@) == split_char(cs@, sep),
        forall|j: int| 0 <= j < r@.len() ==> (#[trigger] r@[j]).0 <= r@[j].1 <= cs@.len(),
{
    let mut r: Vec<(usize, usize)> = Vec::new();
    r.push((0, 0));
    let mut i: usize = 0;
    assert(cs@.take(0).len() == 0);
    assert(split_char(cs@.take(0), sep) == seq![Seq::<char>::empty()]);
    assert(cs@.subrange(0, 0) =~= Seq::<char>::empty());
    assert(pieces_of(cs@, r@) =~= split_char(cs@.take(0), sep));
    while i < cs.len()
        invariant
            i <= cs@.len(),
            r@.len() >= 1,
            r@[r@.len() - 1].1 == i,
            forall|j: int| 0 <= j < r@.len() ==> (#[trigger] r@[j]).0 <= r@[j].1 <= i,
            pieces_of(cs@, r@) == split_char(cs@.take(i as int), sep),
        decreases cs@.len() - i,
    {
        let ghost before = r@;
        assert(cs@.take(i + 1).drop_last() =~= cs@.take(i as int));
        assert(cs@.take(i + 1).last() == cs@[i as int]);
        if cs[i] == sep {
            r.push((i + 1, i + 1));
            assert(cs@.subrange(i + 1, i + 1) =~= Seq::<char>::empty());
            assert(pieces_of(cs@, r@) =~= pieces_of(cs@, before).push(Seq::empty()));
        } else {
            let last = r.len() - 1;
            let (lo, _) = r[last];
            r.set(last, (lo, i + 1));
            assert(cs@.subrange(lo as int, i + 1) =~= cs@.subrange(lo as int, i as int).push(cs@[i as int]));
            assert(pieces_of(cs@, r@) =~= pieces_of(cs@, before).update(
                before.len() - 1,
                pieces_of(cs@, before).last().push(cs@[i as int]),
            ));
        }
        i = i + 1;
    }
    assert(cs@.take(cs@.len() as int) =~= cs@);
    r
}

/// Splits `cs` into its whitespace-separated words, returning their bounds.
pub fn word_bounds(cs: &Vec<char>) -> (r: Vec<(usize, usize)>)
    ensures
        pieces_of(cs@, r@) == ws_tokens(cs@),
        forall|j: int| 0 <= j < r@.len() ==> (#[trigger] r@[j]).0 <= r@[j].1 <= cs@.len(),
{
    let mut r: Vec<(usize, usize)> = Vec::new();
    let mut i: usize = 0;
    assert(pieces_of(cs@, r@) =~= ws_tokens(cs@.take(0)));
    while i < cs.len()
        invariant
            i <= cs@.len(),
            forall|j: int| 0 <= j < r@.len() ==> (#[trigger] r@[j]).0 <= r@[j].1 <= i,
            pieces_of(cs@, r@) == ws_tokens(cs@.take(i as int)),
            i > 0 && !is_ws(cs@[i - 1]) ==> r@.len() > 0 && r@[r@.len() - 1].1 == i,
        decreases cs@.len() - i,
    {
        let ghost before = r@;
        let ghost s = cs@.take(i + 1);
        assert(s.drop_last() =~= cs@.take(i as int));
        assert(s.last() == cs@[i as int]);
        if i > 0 {
            assert(s[s.len() - 2] == cs@[i - 1]);
        }
        let c = cs[i];
        if crate::text::char_is_ws(c) {
        } else if i > 0 && !crate::text::char_is_ws(cs[i - 1]) {
            let last = r.len() - 1;
            let (lo, _) = r[last];
            r.set(last, (lo, i + 1));
            assert(cs@.subrange(lo as int, i + 1) =~= cs@.subrange(lo as int, i as int).push(c));
            assert(pieces_of(cs@, r@) =~= pieces_of(cs@, before).update(
                before.len() - 1,
                pieces_of(cs@, before).last().push(c),
            ));
        } else {
            r.push((i, i + 1));
            assert(cs@.subrange(i as int, i + 1) =~= seq![c]);
            assert(pieces_of(cs@, r@) =~= pieces_of(cs@, before).push(seq![c]));
        }
        i = i + 1;
    }
    assert(cs@.take(cs@.len() as int) =~= cs@);
    r
}

/// The characters `cs[lo..hi]` as a vector.
pub fn sub_vec(cs: &Vec<char>, lo: usize, hi: usize) -> (r: Vec<char>)
    requires
        lo <= hi <= cs@.len(),
    ensures
        r@ == cs@.subrange(lo as int, hi as int),
{
    let mut r: Vec<char> = Vec::new();
    let mut i = lo;
    while i < hi
        invariant
            lo <= i <= hi <= cs@.len(),
            r@ == cs@.subrange(lo as int, i as int),
        decreases hi - i,
    {
        r.push(cs[i]);
        assert(cs@.subrange(lo as int, i + 1) =~= cs@.subrange(lo as int, i as int).push(cs@[i as int]));
        i = i + 1;
    }
    r
}

/// The first line of `cs`, as in [`first_line`].
pub fn first_line_of(cs: &Vec<char>) -> (r: Option<Vec<char>>)
    ensures
        match r {
            Some(l) => first_line(cs@) == Some(l@),
            None => first_line(cs@) is None,
        },
{
    let n = cs.len();
    if n == 0 {
        return None;
    }
    let mut k: usize = 0;
    while k < n && cs[k] != '\n'
        invariant
            k <= n == cs@.len(),
            forall|i: int| 0 <= i < k ==> cs@[i] != '\n',
        decreases n - k,
    {
        k = k + 1;
    }
    proof { lemma_find_char_unique(cs@, '\n', k as int); }
    if k < n {
        let end = if k > 0 && cs[k - 1] == '\r' { k - 1 } else { k };
        let l = sub_vec(cs, 0, end);
        proof {
            let t = cs@.take(k as int);
            if k > 0 && cs@[k - 1] == '\r' {
                assert(t.drop_last() =~= l@);
            } else {
                assert(t =~= l@);
            }
        }
        Some(l)
    } else {
        let l = sub_vec(cs, 0, n);
        assert(l@ =~= cs@);
        Some(l)
    }
}

/// The query string of a callback request, as in [`callback_query`].
pub fn query_of(request: &Vec<char>) -> (r: Option<Vec<char>>)
    ensures
        match r {
            Some(q) => callback_query(request@) == Some(q@),
            None => callback_query(request@) is None,
        },
{
    let line = match first_line_of(request) {
        Some(l) => l,
        None => {
            return None;
        },
    };
    let words = word_bounds(&line);
    if words.len() < 2 {
        return None;
    }
    let (wlo, whi) = words[1];
    let path = sub_vec(&line, wlo, whi);
    assert(path@ == ws_tokens(line@)[1]);
    let parts = split_bounds(&path, '?');
    if parts.len() < 2 {
        return None;
    }
    let (qlo, qhi) = parts[1];
    Some(sub_vec(&path, qlo, qhi))
}

/// Looks up query parameter `key` in `query`, as in [`param_of`].
pub fn param(query: &Vec<char>, key: &str) -> (r: Option<String>)
    ensures
        match r {
            Some(v) => param_of(split_char(query@, '&'), key@) == Some(v@),
            None => param_of(split_char(query@, '&'), key@) is None,
        },
{
    let pieces = split_bounds(query, '&');
    let ghost ps = split_char(query@, '&');
    let mut j = pieces.len();
    assert(ps.take(j as int) =~= ps);
    while j > 0
        invariant
            j <= pieces@.len(),
            pieces_of(query@, pieces@) == ps,
            ps == split_char(query@, '&'),
            forall|t: int| 0 <= t < pieces@.len() ==> (#[trigger] pieces@[t]).0 <= pieces@[t].1 <= query@.len(),
            param_of(ps, key@) == param_of(ps.take(j as int), key@),
        decreases j,
    {
        let (lo, hi) = pieces[j - 1];
        let p = sub_vec(query, lo, hi);
        assert(p@ == ps[j - 1]);
        let ghost pt = ps.take(j as int);
        assert(pt.last() == p@);
        assert(pt.drop_last() =~= ps.take(j - 1));
        let mut k: usize = 0;
        while k < p.len() && p[k] != '='
            invariant
                k <= p@.len(),
                forall|i: int| 0 <= i < k ==> p@[i] != '=',
            decreases p@.len() - k,
        {
            k = k + 1;
        }
        proof { lemma_find_char_unique(p@, '=', k as int); }
        if k < p.len() {
            let name = crate::text::string_of(&p, 0, k);
            assert(name@ =~= p@.take(k as int));
            if str_eq_vec(&name, key) {
                let v = crate::text::string_of(&p, k + 1, p.len());
                assert(v@ =~= p@.skip(k + 1));
                assert(param_of(pt, key@) == Some(p@.skip(k + 1)));
                assert(param_of(ps, key@) == param_of(pt, key@));
                return Some(v);
            }
        }
        assert(param_of(pt, key@) == param_of(pt.drop_last(), key@));
        j = j - 1;
    }
    assert(ps.take(0) =~= Seq::<Seq<char>>::empty());
    None
}

fn str_eq_vec(a: &String, b: &str) -> (r: bool)
    ensures
        r == (a@ == b@),
{
    crate::text::str_eq(a.as_str(), b)
}

/// The HTTP answer carrying `html`: status 200, HTML content, byte length, close.
pub open spec fn http_page(html: Seq<char>) -> Seq<char> {
    "HTTP/1.1 200 OK\r\nContent-Type: text/html\r\nContent-Length: "@ + decimal((encode_utf8(html).len() as usize) as nat)
        + "\r\nConnection: close\r\n\r\n"@ + html
}

fn page(html: &str) -> (r: String)
    ensures
        r@ == http_page(html@),
{
    let mut out = String::new();
    push_str(&mut out, "HTTP/1.1 200 OK\r\nContent-Type: text/html\r\nContent-Length: ");
    push_decimal(&mut out, html.len() as u64);
    push_str(&mut out, "\r\nConnection: close\r\n\r\n");
    push_str(&mut out, html);
    out
}

/// The page shown when Spotify reports an authorization error.
pub open spec fn denied_html(error: Seq<char>) -> Seq<char> {
    "<html><body><h3>Authorization denied.</h3><p>"@ + error
        + "</p><p>You may close this window.</p></body></html>"@
}

/// The page shown when the `state` does not match.
pub open spec fn mismatch_html() -> Seq<char> {
    "<html><body><h3>Authentication failed.</h3><p>State mismatch. Please try again.</p></body></html>"@
}

/// The page shown after a successful authorization.
pub open spec fn success_html() -> Seq<char> {
    "<html><body><h3>Authentication complete.</h3><p>You may close this window and return to Music Relay.</p></body></html>"@
}

/// How a callback request is answered.
#[derive(Debug)]
pub struct CallbackOutcome {
    /// The HTTP answer to write back to the browser, if any.
    pub reply: Option<String>,
    /// The authorization code, or why there is none.
    pub result: Result<String, OAuthError>,
}

/// The answer to the callback request `request` when the flow expects `expected_state`:
/// a request without a first line, path or query string is a `CallbackError` (no reply);
/// an `error` parameter is an `AuthorizationFailed` with the denial page; a missing
/// `code` is a `CallbackError`; a `state` (empty when absent) other than the expected
/// one is a `StateMismatch` with its page; otherwise the code, with the success page.
pub open spec fn callback_outcome_is(request: Seq<char>, expected_state: Seq<char>, o: CallbackOutcome) -> bool {
    match first_line(request) {
        None => o.reply is None && (o.result matches Err(OAuthError::CallbackError(m)) && m@ == "Empty request"@),
        Some(line) => if ws_tokens(line).len() < 2 {
            o.reply is None && (o.result matches Err(OAuthError::CallbackError(m)) && m@ == "No path in request"@)
        } else {
            match callback_query(request) {
                None => o.reply is None && (o.result matches Err(OAuthError::CallbackError(m))
                    && m@ == "No query string in callback"@),
                Some(q) => {
                    let ps = split_char(q, '&');
                    match param_of(ps, "error"@) {
                        Some(e) => (o.reply matches Some(r) && r@ == http_page(denied_html(e)))
                            && (o.result matches Err(OAuthError::AuthorizationFailed(m)) && m@ == e),
                        None => match param_of(ps, "code"@) {
                            None => o.reply is None && (o.result matches Err(OAuthError::CallbackError(m))
                                && m@ == "No code parameter"@),
                            Some(code) => {
                                let state = match param_of(ps, "state"@) {
                                    Some(s) => s,
                                    None => Seq::empty(),
                                };
                                if state != expected_state {
                                    (o.reply matches Some(r) && r@ == http_page(mismatch_html()))
                                        && o.result matches Err(OAuthError::StateMismatch)
                                } else {
                                    (o.reply matches Some(r) && r@ == http_page(success_html()))
                                        && (o.result matches Ok(c) && c@ == code)
                                }
                            },
                        },
                    }
                },
            }
        },
    }
}

/// Reads the callback request (decoded text) and decides the answer.
pub fn handle_callback_request(request: &str, expected_state: &str) -> (r: CallbackOutcome)
    ensures
        callback_outcome_is(request@, expected_state@, r),
{
    let cs = crate::text::chars_of(request);
    let line = match first_line_of(&cs) {
        Some(l) => l,
        None => {
            return CallbackOutcome { reply: None, result: Err(OAuthError::CallbackError("Empty request".to_owned())) };
        },
    };
    let words = word_bounds(&line);
    if words.len() < 2 {
        return CallbackOutcome {
            reply: None,
            result: Err(OAuthError::CallbackError("No path in request".to_owned())),
        };
    }
    let query = match query_of(&cs) {
        Some(q) => q,
        None => {
            return CallbackOutcome {
                reply: None,
                result: Err(OAuthError::CallbackError("No query string in callback".to_owned())),
            };
        },
    };
    match param(&query, "error") {
        Some(e) => {
            let mut html = String::new();
            push_str(&mut html, "<html><body><h3>Authorization denied.</h3><p>");
            push_str(&mut html, e.as_str());
            push_str(&mut html, "</p><p>You may close this window.</p></body></html>");
            assert(html@ =~= denied_html(e@));
            let reply = page(html.as_str());
            return CallbackOutcome { reply: Some(reply), result: Err(OAuthError::AuthorizationFailed(e)) };
        },
        None => {},
    }
    let code = match param(&query, "code") {
        Some(c) => c,
        None => {
            return CallbackOutcome {
                reply: None,
                result: Err(OAuthError::CallbackError("No code parameter".to_owned())),
            };
        },
    };
    let state = match param(&query, "state") {
        Some(s) => s,
        None => String::new(),
    };
    if !crate::text::str_eq(state.as_str(), expected_state) {
        let reply = page("<html><body><h3>Authentication failed.</h3><p>State mismatch. Please try again.</p></body></html>");
        return CallbackOutcome { reply: Some(reply), result: Err(OAuthError::StateMismatch) };
    }
    let reply = page("<html><body><h3>Authentication complete.</h3><p>You may close this window and return to Music Relay.</p></body></html>");
    CallbackOutcome { reply: Some(reply), result: Ok(code) }
}

} // verus!
