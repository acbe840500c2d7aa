//! Read access to JSON documents (through `serde_json`) and JSON text building.
use vstd::prelude::*;
use crate::text::{push_char, push_str, push_decimal, decimal};

verus! {

/// What a JSON pointer addresses in a document, as plain values.
#[derive(Debug)]
pub enum JsonNode {
    /// The document is not valid JSON.
    Invalid,
    /// The document parses, but nothing is at the pointer.
    Missing,
    Null,
    Bool(bool),
    /// A number; `Some` exactly when it is a non-negative integer that fits in `u64`.
    Number(Option<u64>),
    Str(String),
    /// An array, with its length.
    Array(usize),
    Object,
}

/// The view of a [`JsonNode`].
pub enum JsonNodeView {
    Invalid,
    Missing,
    Null,
    Bool(bool),
    Number(Option<u64>),
    Str(Seq<char>),
    Array(nat),
    Object,
}

impl View for JsonNode {
    type V = JsonNodeView;

    open spec fn view(&self) -> JsonNodeView {
        match self {
            JsonNode::Invalid => JsonNodeView::Invalid,
            JsonNode::Missing => JsonNodeView::Missing,
            JsonNode::Null => JsonNodeView::Null,
            JsonNode::Bool(b) => JsonNodeView::Bool(*b),
            JsonNode::Number(n) => JsonNodeView::Number(*n),
            JsonNode::Str(s) => JsonNodeView::Str(s@),
            JsonNode::Array(n) => JsonNodeView::Array(*n as nat),
            JsonNode::Object => JsonNodeView::Object,
        }
    }
}

/// What `serde_json` finds in the text document `doc` at the JSON pointer `pointer`
/// (parsing with `serde_json::from_str` into a `Value`, then `Value::pointer`).
pub uninterp spec fn json_node_at(doc: Seq<char>, pointer: Seq<char>) -> JsonNodeView;

/// As [`json_node_at`], for a document given as bytes (`serde_json::from_slice`).
pub uninterp spec fn json_node_at_bytes(doc: Seq<u8>, pointer: Seq<char>) -> JsonNodeView;

/// Parses `doc` with `serde_json::from_str::<serde_json::Value>` and looks up `pointer`
/// with `Value::pointer`, reporting the kind of value found. The contract only ties the
/// result to the name [`json_node_at`].
#[verifier::external_body]
pub(crate) fn json_lookup(doc: &str, pointer: &str) -> (r: JsonNode)
    ensures
        r@ == json_node_at(doc@, pointer@),
{
    match serde_json::from_str::<serde_json::Value>(doc) {
        Err(_) => JsonNode::Invalid,
        Ok(v) => match v.pointer(pointer) {
            None => JsonNode::Missing,
            Some(serde_json::Value::Null) => JsonNode::Null,
            Some(serde_json::Value::Bool(b)) => JsonNode::Bool(*b),
            Some(serde_json::Value::Number(n)) => JsonNode::Number(n.as_u64()),
            Some(serde_json::Value::String(s)) => JsonNode::Str(s.clone()),
            Some(serde_json::Value::Array(a)) => JsonNode::Array(a.len()),
            Some(serde_json::Value::Object(_)) => JsonNode::Object,
        },
    }
}

/// As [`json_lookup`], parsing bytes with `serde_json::from_slice::<serde_json::Value>`.
#[verifier::external_body]
pub(crate) fn json_lookup_bytes(doc: &[u8], pointer: &str) -> (r: JsonNode)
    ensures
        r@ == json_node_at_bytes(doc@, pointer@),
{
    match serde_json::from_slice::<serde_json::Value>(doc) {
        Err(_) => JsonNode::Invalid,
        Ok(v) => match v.pointer(pointer) {
            None => JsonNode::Missing,
            Some(serde_json::Value::Null) => JsonNode::Null,
            Some(serde_json::Value::Bool(b)) => JsonNode::Bool(*b),
            Some(serde_json::Value::Number(n)) => JsonNode::Number(n.as_u64()),
            Some(serde_json::Value::String(s)) => JsonNode::Str(s.clone()),
            Some(serde_json::Value::Array(a)) => JsonNode::Array(a.len()),
            Some(serde_json::Value::Object(_)) => JsonNode::Object,
        },
    }
}

/// Lower-case hexadecimal digit for `n < 16`.
pub open spec fn hex_lower(n: nat) -> char {
    if n < 10 { (48 + n) as char } else { (87 + n) as char }
}

/// How `serde_json` writes one character inside a JSON string.
pub open spec fn json_escape_char(c: char) -> Seq<char> {
    if c == '"' {
        seq!['\\', '"']
    } else if c == '\\' {
        seq!['\\', '\\']
    } else if c == '\u{8}' {
        seq!['\\', 'b']
    } else if c == '\t' {
        seq!['\\', 't']
    } else if c == '\n' {
        seq!['\\', 'n']
    } else if c == '\u{c}' {
        seq!['\\', 'f']
    } else if c == '\r' {
        seq!['\\', 'r']
    } else if (c as nat) < 32 {
        seq!['\\', 'u', '0', '0', hex_lower((c as nat) / 16), hex_lower((c as nat) % 16)]
    } else {
        seq![c]
    }
}

/// The escaped characters of `s` (without the surrounding quotes).
pub open spec fn json_escape(s: Seq<char>) -> Seq<char>
    decreases s.len(),
{
    if s.len() == 0 {
        Seq::empty()
    } else {
        json_escape(s.drop_last()) + json_escape_char(s.last())
    }
}

/// The JSON string literal for `s`.
pub open spec fn json_string(s: Seq<char>) -> Seq<char> {
    seq!['"'] + json_escape(s) + seq!['"']
}

/// `serde_json::to_string(s)` for a string: the quoted, escaped JSON string literal.
/// Serializing a `str` cannot fail.
#[verifier::external_body]
pub(crate) fn json_quote(s: &str) -> (r: String)
    ensures
        r@ == json_string(s@),
{
    serde_json::to_string(s).unwrap_or_default()
}

/// A JSON array of string literals, `["a","b",...]`.
pub open spec fn json_string_array(items: Seq<Seq<char>>) -> Seq<char> {
    seq!['['] + json_string_list(items) + seq![']']
}

/// The comma-separated string literals of `items`.
pub open spec fn json_string_list(items: Seq<Seq<char>>) -> Seq<char>
    decreases items.len(),
{
    if items.len() == 0 {
        Seq::empty()
    } else if items.len() == 1 {
        json_string(items[0])
    } else {
        json_string_list(items.drop_last()) + seq![','] + json_string(items.last())
    }
}

/// The views of a slice of strings.
pub open spec fn strings_view(v: Seq<String>) -> Seq<Seq<char>> {
    v.map_values(|s: String| s@)
}

/// Writes `items[lo..hi]` as a JSON array of strings.
pub fn json_array_of(items: &[String], lo: usize, hi: usize) -> (r: String)
    requires
        lo <= hi <= items@.len(),
    ensures
        r@ == json_string_array(strings_view(items@.subrange(lo as int, hi as int))),
{
    let mut out = String::new();
    push_char(&mut out, '[');
    let mut i = lo;
    while i < hi
        invariant
            lo <= i <= hi,
            hi <= items@.len(),
            out@ == seq!['['] + json_string_list(strings_view(items@.subrange(lo as int, i as int))),
        decreases hi - i,
    {
        let ghost before = strings_view(items@.subrange(lo as int, i as int));
        let ghost after = strings_view(items@.subrange(lo as int, i + 1));
        assert(after.drop_last() =~= before);
        assert(after.last() == items@[i as int]@);
        if i > lo {
            push_char(&mut out, ',');
        }
        let q = json_quote(items[i].as_str());
        push_str(&mut out, q.as_str());
        i = i + 1;
    }
    push_char(&mut out, ']');
    out
}

/// A JSON pointer to the child `key` of `base`.
pub open spec fn child(base: Seq<char>, key: Seq<char>) -> Seq<char> {
    base + seq!['/'] + key
}

/// Builds the pointer to member `key` under `base`.
pub fn child_pointer(base: &str, key: &str) -> (r: String)
    ensures
        r@ == child(base@, key@),
{
    let mut r = String::new();
    push_str(&mut r, base);
    push_char(&mut r, '/');
    push_str(&mut r, key);
    r
}

/// Builds the pointer to element `i` of the array at `base`.
pub fn index_pointer(base: &str, i: usize) -> (r: String)
    ensures
        r@ == child(base@, decimal(i as nat)),
{
    let mut r = String::new();
    push_str(&mut r, base);
    push_char(&mut r, '/');
    push_decimal(&mut r, i as u64);
    r
}

/// A required string member (serde `String`).
pub open spec fn spec_req_string(doc: Seq<char>, p: Seq<char>) -> Option<Seq<char>> {
    match json_node_at(doc, p) {
        JsonNodeView::Str(s) => Some(s),
        _ => None,
    }
}

/// An optional string member (serde `Option<String>`): `Some(None)` when missing or null,
/// `None` when present with another type.
pub open spec fn spec_opt_string(doc: Seq<char>, p: Seq<char>) -> Option<Option<Seq<char>>> {
    match json_node_at(doc, p) {
        JsonNodeView::Missing => Some(None),
        JsonNodeView::Null => Some(None),
        JsonNodeView::Str(s) => Some(Some(s)),
        _ => None,
    }
}

/// A required `u32` member.
pub open spec fn spec_req_u32(doc: Seq<char>, p: Seq<char>) -> Option<u32> {
    match json_node_at(doc, p) {
        JsonNodeView::Number(Some(n)) => if n <= u32::MAX { Some(n as u32) } else { None },
        _ => None,
    }
}

/// An optional `u32` member.
pub open spec fn spec_opt_u32(doc: Seq<char>, p: Seq<char>) -> Option<Option<u32>> {
    match json_node_at(doc, p) {
        JsonNodeView::Missing => Some(None),
        JsonNodeView::Null => Some(None),
        JsonNodeView::Number(Some(n)) => if n <= u32::MAX { Some(Some(n as u32)) } else { None },
        _ => None,
    }
}

/// An optional `bool` member.
pub open spec fn spec_opt_bool(doc: Seq<char>, p: Seq<char>) -> Option<Option<bool>> {
    match json_node_at(doc, p) {
        JsonNodeView::Missing => Some(None),
        JsonNodeView::Null => Some(None),
        JsonNodeView::Bool(b) => Some(Some(b)),
        _ => None,
    }
}

/// A required array of strings (serde `Vec<String>`).
pub open spec fn spec_req_strings(doc: Seq<char>, p: Seq<char>) -> Option<Seq<Seq<char>>> {
    match json_node_at(doc, p) {
        JsonNodeView::Array(n) => {
            if forall|i: nat| i < n ==> (#[trigger] json_node_at(doc, child(p, decimal(i)))) is Str {
                Some(Seq::new(n, |i: int| json_node_at(doc, child(p, decimal(i as nat)))->Str_0))
            } else {
                None
            }
        },
        _ => None,
    }
}

pub fn req_string(doc: &str, p: &str) -> (r: Option<String>)
    ensures
        match r {
            Some(s) => spec_req_string(doc@, p@) == Some(s@),
            None => spec_req_string(doc@, p@) is None,
        },
{
    match json_lookup(doc, p) {
        JsonNode::Str(s) => Some(s),
        _ => None,
    }
}

pub fn opt_string(doc: &str, p: &str) -> (r: Result<Option<String>, ()>)
    ensures
        match r {
            Ok(Some(s)) => spec_opt_string(doc@, p@) == Some(Some(s@)),
            Ok(None) => spec_opt_string(doc@, p@) == Some(None::<Seq<char>>),
            Err(_) => spec_opt_string(doc@, p@) is None,
        },
{
    match json_lookup(doc, p) {
        JsonNode::Missing => Ok(None),
        JsonNode::Null => Ok(None),
        JsonNode::Str(s) => Ok(Some(s)),
        _ => Err(()),
    }
}

pub fn req_u32(doc: &str, p: &str) -> (r: Option<u32>)
    ensures
        r == spec_req_u32(doc@, p@),
{
    match json_lookup(doc, p) {
        JsonNode::Number(Some(n)) => if n <= 0xffff_ffff { Some(n as u32) } else { None },
        _ => None,
    }
}

pub fn opt_u32(doc: &str, p: &str) -> (r: Option<Option<u32>>)
    ensures
        r == spec_opt_u32(doc@, p@),
{
    match json_lookup(doc, p) {
        JsonNode::Missing => Some(None),
        JsonNode::Null => Some(None),
        JsonNode::Number(Some(n)) => if n <= 0xffff_ffff { Some(Some(n as u32)) } else { None },
        _ => None,
    }
}

pub fn opt_bool(doc: &str, p: &str) -> (r: Option<Option<bool>>)
    ensures
        r == spec_opt_bool(doc@, p@),
{
    match json_lookup(doc, p) {
        JsonNode::Missing => Some(None),
        JsonNode::Null => Some(None),
        JsonNode::Bool(b) => Some(Some(b)),
        _ => None,
    }
}

pub fn req_strings(doc: &str, p: &str) -> (r: Option<Vec<String>>)
    ensures
        match r {
            Some(v) => spec_req_strings(doc@, p@) == Some(strings_view(v@)),
            None => spec_req_strings(doc@, p@) is None,
        },
{
    match json_lookup(doc, p) {
        JsonNode::Array(n) => {
            let mut out: Vec<String> = Vec::new();
            let mut i: usize = 0;
            while i < n
                invariant
                    json_node_at(doc@, p@) == JsonNodeView::Array(n as nat),
                    i <= n,
                    out@.len() == i,
                    forall|k: int| 0 <= k < i ==> json_node_at(doc@, child(p@, decimal(k as nat)))
                        == JsonNodeView::Str(#[trigger] out@[k]@),
                decreases n - i,
            {
                let ptr = index_pointer(p, i);
                match json_lookup(doc, ptr.as_str()) {
                    JsonNode::Str(s) => {
                        out.push(s);
                    },
                    _ => {
                        assert(!(json_node_at(doc@, child(p@, decimal(i as nat))) is Str));
                        return None;
                    },
                }
                i = i + 1;
            }
            assert(forall|k: nat| k < n ==> (#[trigger] json_node_at(doc@, child(p@, decimal(k)))) is Str) by {
                assert forall|k: nat| k < n implies (#[trigger] json_node_at(doc@, child(p@, decimal(k)))) is Str by {
                    assert(json_node_at(doc@, child(p@, decimal(k as int as nat))) == JsonNodeView::Str(out@[k as int]@));
                }
            }
            assert(Seq::new(n as nat, |i: int| json_node_at(doc@, child(p@, decimal(i as nat)))->Str_0)
                =~= strings_view(out@));
            Some(out)
        },
        _ => None,
    }
}

} // verus!
