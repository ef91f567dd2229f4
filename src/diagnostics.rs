//! Diagnostics over the local client's API: its chat-related endpoints, and the presences it
//! reports with their private blobs decoded.
use vstd::prelude::*;
use crate::codec::{b64_standard, decode_standard};
use crate::json::{
    json_as_array, json_as_str, json_compact, json_get, json_object_pairs, json_pairs,
    json_parsed, json_str, json_text, member, parse_json, text_or_empty,
};
use crate::text::{chars_of, contains, contains_chars, utf8_of};

verus! {

/// An endpoint name that concerns chat, presence or the roster.
pub open spec fn is_chat_endpoint(key: Seq<char>) -> bool {
    contains(key, "chat"@) || contains(key, "presence"@) || contains(key, "roster"@)
}

/// The `key: description` lines of the chat-related endpoints, in key order.
pub open spec fn chat_lines(ps: Seq<(Seq<char>, serde_json::Value)>) -> Seq<Seq<char>>
    decreases ps.len(),
{
    if ps.len() == 0 {
        Seq::empty()
    } else {
        let rest = chat_lines(ps.drop_last());
        let (k, v) = ps.last();
        if is_chat_endpoint(k) {
            rest.push(k + ": "@ + json_text(v))
        } else {
            rest
        }
    }
}

/// The chat-related endpoints listed in the local API's help, and how many endpoints it
/// lists; `None` when the help is not a JSON document.
pub fn chat_endpoints(help_raw: &str) -> (r: Option<(Vec<String>, usize)>)
    ensures
        match r {
            Some((lines, total)) => json_parsed(utf8_of(help_raw@)) matches Some(v) && match json_pairs(v) {
                Some(ps) => lines@.map_values(|l: String| l@) == chat_lines(ps) && total == ps.len(),
                None => lines@.len() == 0 && total == 0,
            },
            None => json_parsed(utf8_of(help_raw@)) is None,
        },
{
    let v = match parse_json(help_raw.as_bytes()) {
        Some(v) => v,
        None => return None,
    };
    let ps = match json_object_pairs(&v) {
        Some(ps) => ps,
        None => return Some((Vec::new(), 0)),
    };
    let ghost pv = ps@.map_values(|p: (String, serde_json::Value)| (p.0@, p.1));
    let chat = chars_of("chat");
    let presence = chars_of("presence");
    let roster = chars_of("roster");
    let mut lines: Vec<String> = Vec::new();
    let mut i: usize = 0;
    while i < ps.len()
        invariant
            i <= ps.len(),
            pv == ps@.map_values(|p: (String, serde_json::Value)| (p.0@, p.1)),
            chat@ == "chat"@,
            presence@ == "presence"@,
            roster@ == "roster"@,
            lines@.map_values(|l: String| l@) == chat_lines(pv.take(i as int)),
        decreases ps.len() - i,
    {
        assert(pv.take(i + 1).drop_last() =~= pv.take(i as int));
        assert(pv.take(i + 1).last() == pv[i as int]);
        let (k, x) = &ps[i];
        let kc = chars_of(k.as_str());
        if contains_chars(&kc, &chat) || contains_chars(&kc, &presence) || contains_chars(&kc, &roster) {
            let ghost before = lines@;
            let line = k.clone().concat(": ").concat(json_compact(x).as_str());
            lines.push(line);
            assert(lines@.map_values(|l: String| l@) =~= before.map_values(|l: String| l@).push(
                line@,
            ));
        }
        i += 1;
    }
    assert(pv.take(ps.len() as int) =~= pv);
    Some((lines, ps.len()))
}

/// The private blob of a presence, decoded from base64 and parsed, when it is readable.
pub open spec fn private_decoded(p: serde_json::Value) -> Option<serde_json::Value> {
    let blob = text_or_empty(p, "private"@);
    if blob.len() == 0 {
        None
    } else {
        match b64_standard(blob) {
            Some(b) => json_parsed(b),
            None => None,
        }
    }
}

/// One presence the local client reports, with its private blob decoded.
pub struct LocalPresence {
    pub entry: serde_json::Value,
    pub private_decoded: Option<serde_json::Value>,
    pub is_own: bool,
}

/// A row holds presence entry `e`, its decoded private blob, and whether it is `me`'s.
pub open spec fn local_row_fits(row: LocalPresence, e: serde_json::Value, me: Seq<char>) -> bool {
    &&& row.entry == e
    &&& row.private_decoded == private_decoded(e)
    &&& row.is_own == (member(e, "puuid"@) matches Some(x) && json_str(x) == Some(me))
}

/// Reads the local client's presences: each entry kept, its private blob decoded, and whether
/// it is the user's own (its `puuid` is `my_puuid`). Fails when there is no `presences` array.
pub fn local_presences(raw: &str, my_puuid: &str) -> (r: Result<Vec<LocalPresence>, String>)
    ensures
        match r {
            Ok(rows) => json_parsed(utf8_of(raw@)) matches Some(v) && member(v, "presences"@)
                matches Some(a) && crate::json::json_items(a) matches Some(es) && rows.len()
                == es.len() && forall|i: int|
                0 <= i < rows.len() ==> local_row_fits(#[trigger] rows[i], es[i], my_puuid@),
            Err(_) => !(json_parsed(utf8_of(raw@)) matches Some(v) && member(v, "presences"@)
                matches Some(a) && crate::json::json_items(a) is Some),
        },
{
    let v = match parse_json(raw.as_bytes()) {
        Some(v) => v,
        None => return Err("parse presences: invalid JSON".to_string()),
    };
    let es = match json_get(&v, "presences") {
        Some(a) => match json_as_array(a) {
            Some(es) => es,
            None => return Err("No presences array".to_string()),
        },
        None => return Err("No presences array".to_string()),
    };
    let me = my_puuid.to_string();
    let mut rows: Vec<LocalPresence> = Vec::new();
    let mut i: usize = 0;
    while i < es.len()
        invariant
            i <= es.len(),
            me@ == my_puuid@,
            rows.len() == i,
            forall|j: int|
                0 <= j < i ==> local_row_fits(#[trigger] rows[j], es@[j], my_puuid@),
        decreases es.len() - i,
    {
        let p = &es[i];
        let blob = match json_get(p, "private") {
            Some(x) => match json_as_str(x) {
                Some(t) => t,
                None => String::new(),
            },
            None => String::new(),
        };
        let decoded = if blob.unicode_len() == 0 {
            None
        } else {
            match decode_standard(blob.as_str()) {
                Some(b) => parse_json(b.as_slice()),
                None => None,
            }
        };
        let own = match json_get(p, "puuid") {
            Some(x) => match json_as_str(x) {
                Some(t) => t == me,
                None => false,
            },
            None => false,
        };
        rows.push(LocalPresence { entry: p.clone(), private_decoded: decoded, is_own: own });
        i += 1;
    }
    Ok(rows)
}

} // verus!
