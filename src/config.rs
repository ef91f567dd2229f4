//! The chat-config resolver: from a routing token and the client configuration to the
//! presence server's host and domain.
use vstd::prelude::*;
use crate::codec::{
    b64_standard, b64_standard_no_pad, b64_url_no_pad, decode_standard, decode_standard_no_pad,
    decode_url_no_pad,
};
use crate::error::{Field, XmppError};
use crate::json::{json_as_str, json_get, json_parsed, json_str, member, parse_json};
use crate::text::{chars_of, find_chars, find_from, slice_text};

verus! {

/// Unicode `White_Space`, the whitespace that `str::trim` removes.
pub open spec fn is_white(c: char) -> bool {
    ('\u{9}' <= c <= '\u{d}') || c == ' ' || c == '\u{85}' || c == '\u{a0}' || c == '\u{1680}'
        || ('\u{2000}' <= c <= '\u{200a}') || c == '\u{2028}' || c == '\u{2029}' || c
        == '\u{202f}' || c == '\u{205f}' || c == '\u{3000}'
}

/// `s` without leading whitespace.
pub open spec fn trim_start(s: Seq<char>) -> Seq<char>
    decreases s.len(),
{
    if s.len() > 0 && is_white(s[0]) {
        trim_start(s.drop_first())
    } else {
        s
    }
}

/// `s` without trailing whitespace.
pub open spec fn trim_end(s: Seq<char>) -> Seq<char>
    decreases s.len(),
{
    if s.len() > 0 && is_white(s.last()) {
        trim_end(s.drop_last())
    } else {
        s
    }
}

/// `s` without leading or trailing whitespace.
pub open spec fn trimmed(s: Seq<char>) -> Seq<char> {
    trim_end(trim_start(s))
}

/// Whether `c` is Unicode whitespace.
fn white(c: char) -> (r: bool)
    ensures
        r == is_white(c),
{
    ('\u{9}' <= c && c <= '\u{d}') || c == ' ' || c == '\u{85}' || c == '\u{a0}' || c
        == '\u{1680}' || ('\u{2000}' <= c && c <= '\u{200a}') || c == '\u{2028}' || c
        == '\u{2029}' || c == '\u{202f}' || c == '\u{205f}' || c == '\u{3000}'
}

/// `s` without leading or trailing whitespace.
pub fn trim_text(s: &str) -> (r: String)
    ensures
        r@ == trimmed(s@),
{
    let cs = chars_of(s);
    let mut i: usize = 0;
    assert(s@.subrange(0, s@.len() as int) =~= s@);
    while i < cs.len() && white(cs[i])
        invariant
            cs@ == s@,
            i <= cs.len(),
            trim_start(s@) == trim_start(s@.subrange(i as int, s@.len() as int)),
        decreases cs.len() - i,
    {
        assert(s@.subrange(i as int, s@.len() as int).drop_first() =~= s@.subrange(
            i + 1,
            s@.len() as int,
        ));
        i += 1;
    }
    let ghost st = s@.subrange(i as int, s@.len() as int);
    assert(trim_start(st) == st);
    let mut j: usize = cs.len();
    while j > i && white(cs[j - 1])
        invariant
            cs@ == s@,
            i <= j <= cs.len(),
            st == s@.subrange(i as int, s@.len() as int),
            trim_end(st) == trim_end(s@.subrange(i as int, j as int)),
        decreases j,
    {
        assert(s@.subrange(i as int, j as int).drop_last() =~= s@.subrange(i as int, j - 1));
        j -= 1;
    }
    slice_text(s, i, j)
}

/// The payload segment of a routing token: the text between its first and second `.` (or
/// its end), after trimming.
pub open spec fn token_payload(tok: Seq<char>) -> Option<Seq<char>> {
    let t = trimmed(tok);
    match find_from(t, "."@, 0) {
        Some(d) => match find_from(t, "."@, d + 1) {
            Some(e) => Some(t.subrange(d + 1, e)),
            None => Some(t.subrange(d + 1, t.len() as int)),
        },
        None => None,
    }
}

/// The bytes of a base64 segment, decoded as URL-safe unpadded, else standard unpadded, else
/// standard padded.
pub open spec fn segment_bytes(seg: Seq<char>) -> Option<Seq<u8>> {
    match b64_url_no_pad(seg) {
        Some(b) => Some(b),
        None => match b64_standard_no_pad(seg) {
            Some(b) => Some(b),
            None => b64_standard(seg),
        },
    }
}

/// The affinity named by a routing token, or why there is none.
pub open spec fn affinity_of(tok: Seq<char>) -> Result<Seq<char>, XmppError> {
    match token_payload(tok) {
        None => Err(XmppError::BadToken),
        Some(seg) => match segment_bytes(seg) {
            None => Err(XmppError::BadEncoding),
            Some(b) => match json_parsed(b) {
                None => Err(XmppError::BadJson),
                Some(v) => match member(v, "affinity"@) {
                    Some(a) => match json_str(a) {
                        Some(s) => Ok(s),
                        None => Err(XmppError::MissingField(Field::Affinity)),
                    },
                    None => Err(XmppError::MissingField(Field::Affinity)),
                },
            },
        },
    }
}

/// The payload segment of a routing token.
fn payload_segment(tok: &str) -> (r: Option<String>)
    ensures
        match r {
            Some(s) => token_payload(tok@) == Some(s@),
            None => token_payload(tok@) is None,
        },
{
    let t = trim_text(tok);
    let cs = chars_of(t.as_str());
    let dot = chars_of(".");
    proof {
        reveal_strlit(".");
    }
    match find_chars(&cs, &dot, 0) {
        Some(d) => match find_chars(&cs, &dot, d + 1) {
            Some(e) => Some(slice_text(t.as_str(), d + 1, e)),
            None => Some(slice_text(t.as_str(), d + 1, cs.len())),
        },
        None => None,
    }
}

/// The affinity that a routing token names: `affinity` of the JSON in its payload segment.
pub fn decode_affinity(pas_token: &str) -> (r: Result<String, XmppError>)
    ensures
        match r {
            Ok(s) => affinity_of(pas_token@) == Ok::<Seq<char>, XmppError>(s@),
            Err(e) => affinity_of(pas_token@) == Err::<Seq<char>, XmppError>(e),
        },
{
    let seg = match payload_segment(pas_token) {
        Some(s) => s,
        None => return Err(XmppError::BadToken),
    };
    let bytes = match decode_url_no_pad(seg.as_str()) {
        Some(b) => b,
        None => match decode_standard_no_pad(seg.as_str()) {
            Some(b) => b,
            None => match decode_standard(seg.as_str()) {
                Some(b) => b,
                None => return Err(XmppError::BadEncoding),
            },
        },
    };
    let v = match parse_json(bytes.as_slice()) {
        Some(v) => v,
        None => return Err(XmppError::BadJson),
    };
    match json_get(&v, "affinity") {
        Some(a) => match json_as_str(a) {
            Some(s) => Ok(s),
            None => Err(XmppError::MissingField(Field::Affinity)),
        },
        None => Err(XmppError::MissingField(Field::Affinity)),
    }
}

/// `config[table][key]` as text, when present.
pub open spec fn config_entry(config: serde_json::Value, table: Seq<char>, key: Seq<char>) -> Option<
    Seq<char>,
> {
    match member(config, table) {
        Some(t) => match member(t, key) {
            Some(v) => json_str(v),
            None => None,
        },
        None => None,
    }
}

/// The presence server's host and domain for `affinity`, from the client configuration text.
pub open spec fn chat_endpoint(raw: Seq<char>, affinity: Seq<char>) -> Result<
    (Seq<char>, Seq<char>),
    XmppError,
> {
    match json_parsed(crate::text::utf8_of(raw)) {
        None => Err(XmppError::BadJson),
        Some(c) => match config_entry(c, "chat.affinities"@, affinity) {
            None => Err(XmppError::MissingField(Field::ChatHost)),
            Some(h) => match config_entry(c, "chat.affinity_domains"@, affinity) {
                None => Err(XmppError::MissingField(Field::ChatDomain)),
                Some(d) => Ok((h, d)),
            },
        },
    }
}

/// `config[table][key]` as text, when present.
fn entry(config: &serde_json::Value, table: &str, key: &str) -> (r: Option<String>)
    ensures
        match r {
            Some(s) => config_entry(*config, table@, key@) == Some(s@),
            None => config_entry(*config, table@, key@) is None,
        },
{
    match json_get(config, table) {
        Some(t) => match json_get(t, key) {
            Some(v) => json_as_str(v),
            None => None,
        },
        None => None,
    }
}

/// Looks up the presence server's host and domain for `affinity` in the client
/// configuration document.
pub fn fetch_chat_config(raw: &str, affinity: &str) -> (r: Result<(String, String), XmppError>)
    ensures
        match r {
            Ok((h, d)) => chat_endpoint(raw@, affinity@) == Ok::<(Seq<char>, Seq<char>), XmppError>(
                (h@, d@),
            ),
            Err(e) => chat_endpoint(raw@, affinity@) == Err::<(Seq<char>, Seq<char>), XmppError>(e),
        },
{
    let config = match parse_json(raw.as_bytes()) {
        Some(c) => c,
        None => return Err(XmppError::BadJson),
    };
    let host = match entry(&config, "chat.affinities", affinity) {
        Some(h) => h,
        None => return Err(XmppError::MissingField(Field::ChatHost)),
    };
    let domain = match entry(&config, "chat.affinity_domains", affinity) {
        Some(d) => d,
        None => return Err(XmppError::MissingField(Field::ChatDomain)),
    };
    Ok((host, domain))
}

} // verus!
