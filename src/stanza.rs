//! Pure scanning of raw protocol text: stanza boundaries and the fields read out of a stanza.
//!
//! The scan is by exact marker strings, never by parsing the markup, so that it matches what
//! the server sends byte for byte.
use vstd::prelude::*;
use crate::codec::{b64_standard, decode_standard, parse_u64, parsed_u64};
use crate::json::{json_parsed, parse_json};
use crate::text::{
    chars_of, contains, contains_chars, find_chars, find_from, lemma_find_from,
    lemma_find_from_is, lemma_find_from_none, lemma_occurs_concat, occurs_at, rfind_chars,
    rfind_upto, slice_text,
};

verus! {

/// The text between the first `open` marker and the first `close` marker after it.
pub open spec fn between(s: Seq<char>, open: Seq<char>, close: Seq<char>) -> Option<Seq<char>> {
    match find_from(s, open, 0) {
        Some(a) => match find_from(s, close, a + open.len()) {
            Some(e) => Some(s.subrange(a + open.len(), e)),
            None => None,
        },
        None => None,
    }
}

/// The bound full address in a bind response: the text of its `<jid>` element, or empty.
pub open spec fn bound_identity(s: Seq<char>) -> Seq<char> {
    match between(s, "<jid>"@, "</jid>"@) {
        Some(t) => t,
        None => Seq::empty(),
    }
}

/// The sender id of a stanza: from its `from="` attribute up to the first `@`, or empty.
pub open spec fn sender_id(s: Seq<char>) -> Seq<char> {
    match between(s, "from=\""@, "@"@) {
        Some(t) => t,
        None => Seq::empty(),
    }
}

/// The status token of a presence stanza.
pub open spec fn show_of(s: Seq<char>) -> Seq<char> {
    if contains(s, "type=\"unavailable\""@) {
        "offline"@
    } else {
        match between(s, "<show>"@, "</show>"@) {
            Some(t) => t,
            None => "online"@,
        }
    }
}

/// The base64 text of the rich-presence payload: the first `<p>` element after `<valorant>`.
pub open spec fn payload_text(s: Seq<char>) -> Option<Seq<char>> {
    match find_from(s, "<valorant>"@, 0) {
        Some(v) => match find_from(s, "<p>"@, v) {
            Some(p) => match find_from(s, "</p>"@, p + 3) {
                Some(e) => Some(s.subrange(p + 3, e)),
                None => None,
            },
            None => None,
        },
        None => None,
    }
}

/// The rich-presence payload of a stanza: its base64 text, decoded and parsed as JSON.
pub open spec fn payload_of(s: Seq<char>) -> Option<serde_json::Value> {
    match payload_text(s) {
        Some(t) => match b64_standard(t) {
            Some(b) => json_parsed(b),
            None => None,
        },
        None => None,
    }
}

/// The keystone timestamp of a stanza: the first `<s.t>` element after `<keystone>`, or 0.
pub open spec fn keystone_ts(s: Seq<char>) -> u64 {
    match find_from(s, "<keystone>"@, 0) {
        Some(k) => match find_from(s, "<s.t>"@, k) {
            Some(t) => match find_from(s, "</s.t>"@, t + 5) {
                Some(e) => match parsed_u64(s.subrange(t + 5, e)) {
                    Some(n) => n,
                    None => 0,
                },
                None => 0,
            },
            None => 0,
        },
        None => 0,
    }
}

/// The presence stanzas of `s` at or after `from`, in order: each runs from a `<presence`
/// start marker to the first `</presence>` after it. An unmatched start marker ends the scan.
pub open spec fn stanzas_from(s: Seq<char>, from: int) -> Seq<Seq<char>>
    decreases s.len() + 1 - from,
{
    match find_from(s, "<presence"@, from) {
        Some(a) => match find_from(s, "</presence>"@, a) {
            Some(e) => {
                let end = e + "</presence>"@.len();
                if from < end <= s.len() {
                    seq![s.subrange(a, end)] + stanzas_from(s, end)
                } else {
                    Seq::empty()
                }
            },
            None => Seq::empty(),
        },
        None => Seq::empty(),
    }
}

/// The presence stanzas of the whole buffer `s`.
pub open spec fn stanzas(s: Seq<char>) -> Seq<Seq<char>> {
    stanzas_from(s, 0)
}

/// The text between the first `open` marker of `s` and the first `close` marker after it.
fn text_between(s: &str, open: &str, close: &str) -> (r: Option<String>)
    ensures
        match r {
            Some(t) => between(s@, open@, close@) == Some(t@),
            None => between(s@, open@, close@) is None,
        },
{
    let cs = chars_of(s);
    let o = chars_of(open);
    let c = chars_of(close);
    match find_chars(&cs, &o, 0) {
        Some(a) => {
            match find_chars(&cs, &c, a + o.len()) {
                Some(e) => {
                    proof {
                        lemma_find_from(cs@, c@, a + o@.len());
                    }
                    Some(slice_text(s, a + o.len(), e))
                },
                None => None,
            }
        },
        None => None,
    }
}

/// The bound full address in a bind response: the text of its `<jid>` element, or empty.
pub fn extract_jid(xml: &str) -> (r: String)
    ensures
        r@ == bound_identity(xml@),
{
    match text_between(xml, "<jid>", "</jid>") {
        Some(t) => t,
        None => String::new(),
    }
}

/// The sender id of a stanza: from its `from="` attribute up to the first `@`, or empty.
pub fn extract_puuid_from_presence(stanza: &str) -> (r: String)
    ensures
        r@ == sender_id(stanza@),
{
    match text_between(stanza, "from=\"", "@") {
        Some(t) => t,
        None => String::new(),
    }
}

/// The status token of a presence stanza: `offline` when it declares itself unavailable, else
/// the text of its `<show>` element, else `online`.
pub fn extract_show(stanza: &str) -> (r: String)
    ensures
        r@ == show_of(stanza@),
{
    let cs = chars_of(stanza);
    let unavailable = chars_of("type=\"unavailable\"");
    if contains_chars(&cs, &unavailable) {
        return "offline".to_string();
    }
    match text_between(stanza, "<show>", "</show>") {
        Some(t) => t,
        None => "online".to_string(),
    }
}

/// The base64 text of the rich-presence payload of a stanza.
fn payload_b64(stanza: &str) -> (r: Option<String>)
    ensures
        match r {
            Some(t) => payload_text(stanza@) == Some(t@),
            None => payload_text(stanza@) is None,
        },
{
    let cs = chars_of(stanza);
    let v = chars_of("<valorant>");
    let p = chars_of("<p>");
    let pe = chars_of("</p>");
    let vs = match find_chars(&cs, &v, 0) {
        Some(i) => i,
        None => return None,
    };
    let ps = match find_chars(&cs, &p, vs) {
        Some(i) => i,
        None => return None,
    };
    proof {
        reveal_strlit("<p>");
    }
    let e = match find_chars(&cs, &pe, ps + 3) {
        Some(i) => i,
        None => return None,
    };
    proof {
        lemma_find_from(cs@, pe@, ps + 3);
    }
    Some(slice_text(stanza, ps + 3, e))
}

/// The rich-presence payload of a stanza, base64-decoded and parsed; `None` if any step fails.
pub fn extract_valorant_b64(stanza: &str) -> (r: Option<serde_json::Value>)
    ensures
        r == payload_of(stanza@),
{
    let t = match payload_b64(stanza) {
        Some(t) => t,
        None => return None,
    };
    match decode_standard(t.as_str()) {
        Some(b) => parse_json(b.as_slice()),
        None => None,
    }
}

/// The keystone timestamp of a stanza, or 0 when it has none or it is not a number.
pub fn extract_keystone_ts(stanza: &str) -> (r: u64)
    ensures
        r == keystone_ts(stanza@),
{
    let cs = chars_of(stanza);
    let k = chars_of("<keystone>");
    let t = chars_of("<s.t>");
    let te = chars_of("</s.t>");
    let ks = match find_chars(&cs, &k, 0) {
        Some(i) => i,
        None => return 0,
    };
    let ts = match find_chars(&cs, &t, ks) {
        Some(i) => i,
        None => return 0,
    };
    proof {
        reveal_strlit("<s.t>");
    }
    let e = match find_chars(&cs, &te, ts + 5) {
        Some(i) => i,
        None => return 0,
    };
    proof {
        lemma_find_from(cs@, te@, ts + 5);
    }
    let digits = slice_text(stanza, ts + 5, e);
    match parse_u64(digits.as_str()) {
        Some(n) => n,
        None => 0,
    }
}

/// Splits a buffer into its presence stanzas, in order, each scanned after the previous one.
pub fn iterate_stanzas(data: &str) -> (r: Vec<String>)
    ensures
        r.len() == stanzas(data@).len(),
        forall|i: int| 0 <= i < r.len() ==> #[trigger] r[i]@ == stanzas(data@)[i],
{
    let cs = chars_of(data);
    let open = chars_of("<presence");
    let close = chars_of("</presence>");
    proof {
        reveal_strlit("</presence>");
    }
    let mut out: Vec<String> = Vec::new();
    let mut from: usize = 0;
    loop
        invariant
            cs@ == data@,
            open@ == "<presence"@,
            close@ == "</presence>"@,
            close@.len() == 11,
            from <= cs.len(),
            stanzas(data@) == out@.map_values(|t: String| t@) + stanzas_from(data@, from as int),
        ensures
            stanzas_from(data@, from as int) =~= Seq::<Seq<char>>::empty(),
        decreases cs.len() - from,
    {
        let a = match find_chars(&cs, &open, from) {
            Some(i) => i,
            None => {
                assert(stanzas_from(data@, from as int) =~= Seq::<Seq<char>>::empty());
                break;
            },
        };
        let e = match find_chars(&cs, &close, a) {
            Some(i) => i,
            None => {
                assert(stanzas_from(data@, from as int) =~= Seq::<Seq<char>>::empty());
                break;
            },
        };
        let end = e + close.len();
        let ghost rest = stanzas_from(data@, end as int);
        assert(stanzas_from(data@, from as int) == seq![data@.subrange(a as int, end as int)]
            + rest);
        let st = slice_text(data, a, end);
        let ghost before = out@;
        out.push(st);
        assert(out@.map_values(|t: String| t@) =~= before.map_values(|t: String| t@).push(st@));
        assert(stanzas(data@) =~= out@.map_values(|t: String| t@) + rest);
        from = end;
    }
    assert(out@.map_values(|t: String| t@) + Seq::<Seq<char>>::empty() =~= out@.map_values(
        |t: String| t@,
    ));
    out
}

/// The self-presence template in `data`, trying each occurrence of `marker` at or after `from`:
/// the enclosing presence stanza (the last `<presence ` before the marker, up to the first
/// `</presence>` after that) must hold the whole marker before its end tag, carry both a
/// keystone and a rich-presence element, and have a payload that decodes. Otherwise the next
/// occurrence is tried; the search ends when a start tag has no end tag after it.
pub open spec fn capture_from(data: Seq<char>, marker: Seq<char>, from: int) -> Option<
    (serde_json::Value, u64),
>
    decreases data.len() + 1 - from,
{
    match find_from(data, marker, from) {
        Some(at) => if from <= at <= data.len() {
            match rfind_upto(data, "<presence "@, at - "<presence "@.len()) {
                Some(ps) => match find_from(data, "</presence>"@, ps) {
                    Some(pe) => {
                        let st = data.subrange(ps, pe + "</presence>"@.len());
                        if at + marker.len() <= pe && contains(st, "<valorant>"@) && contains(
                            st,
                            "<keystone>"@,
                        ) && payload_of(st) is Some {
                            Some((payload_of(st)->0, keystone_ts(st)))
                        } else {
                            capture_from(data, marker, at + 1)
                        }
                    },
                    None => None,
                },
                None => capture_from(data, marker, at + 1),
            }
        } else {
            None
        },
        None => None,
    }
}

/// The user's own captured presence payload and keystone timestamp in a buffer, found through
/// the user's id followed by `@`.
pub open spec fn self_presence(data: Seq<char>, self_id: Seq<char>) -> Option<
    (serde_json::Value, u64),
> {
    if self_id.len() == 0 {
        None
    } else {
        capture_from(data, self_id.push('@'), 0)
    }
}

/// Finds the user's own presence stanza carrying a keystone and a payload, and returns the
/// decoded payload with the keystone timestamp.
pub fn extract_real_valorant_payload(data: &str, puuid: &str) -> (r: Option<(serde_json::Value, u64)>)
    ensures
        r == self_presence(data@, puuid@),
{
    let cs = chars_of(data);
    let id = chars_of(puuid);
    if id.len() == 0 {
        return None;
    }
    let mut marker = id;
    marker.push('@');
    let open = chars_of("<presence ");
    let close = chars_of("</presence>");
    let val = chars_of("<valorant>");
    let ks = chars_of("<keystone>");
    proof {
        reveal_strlit("</presence>");
    }
    let mut from: usize = 0;
    loop
        invariant
            cs@ == data@,
            marker@ == puuid@.push('@'),
            open@ == "<presence "@,
            close@ == "</presence>"@,
            close@.len() == 11,
            val@ == "<valorant>"@,
            ks@ == "<keystone>"@,
            from <= cs.len() + 1,
            self_presence(data@, puuid@) == capture_from(data@, marker@, from as int),
        decreases cs.len() + 1 - from,
    {
        let at = match find_chars(&cs, &marker, from) {
            Some(i) => i,
            None => return None,
        };
        let ps = match rfind_chars(&cs, &open, at) {
            Some(i) => i,
            None => {
                from = at + 1;
                continue;
            },
        };
        let pe = match find_chars(&cs, &close, ps) {
            Some(i) => i,
            None => return None,
        };
        let end = pe + close.len();
        let st = slice_text(data, ps, end);
        let sc = chars_of(st.as_str());
        if at + marker.len() <= pe && contains_chars(&sc, &val) && contains_chars(&sc, &ks) {
            match extract_valorant_b64(st.as_str()) {
                Some(v) => {
                    let t = extract_keystone_ts(st.as_str());
                    return Some((v, t));
                },
                None => {},
            }
        }
        from = at + 1;
    }
}

/// A stanza that declares itself unavailable reads as offline, whatever `<show>` it holds.
pub proof fn lemma_unavailable_is_offline(st: Seq<char>)
    requires
        contains(st, "type=\"unavailable\""@),
    ensures
        show_of(st) == "offline"@,
{
}

/// A complete presence stanza: it opens with `<presence`, and its only `</presence>` ends it.
pub open spec fn well_formed_stanza(b: Seq<char>) -> bool {
    &&& occurs_at(b, "<presence"@, 0)
    &&& occurs_at(b, "</presence>"@, b.len() - "</presence>"@.len())
    &&& forall|j: int|
        0 <= j < b.len() - "</presence>"@.len() ==> !occurs_at(b, "</presence>"@, j)
}

/// In `a + b`, the first occurrence of `pat` at or after `a.len() + from` is found in `b`.
proof fn lemma_find_in_tail(a: Seq<char>, b: Seq<char>, pat: Seq<char>, from: int)
    requires
        0 <= from,
    ensures
        find_from(a + b, pat, a.len() + from) == match find_from(b, pat, from) {
            Some(i) => Some(a.len() + i),
            None => None,
        },
{
    lemma_find_from(b, pat, from);
    assert forall|j: int| a.len() <= j implies occurs_at(a + b, pat, j) == occurs_at(
        b,
        pat,
        j - a.len(),
    ) by {
        lemma_occurs_concat(a, b, pat, j);
    };
    match find_from(b, pat, from) {
        Some(i) => {
            assert(occurs_at(a + b, pat, a.len() + i));
            assert forall|j: int| a.len() + from <= j < a.len() + i implies !occurs_at(
                a + b,
                pat,
                j,
            ) by {
                assert(!occurs_at(b, pat, j - a.len()));
            };
            lemma_find_from_is(a + b, pat, a.len() + from, a.len() + i);
        },
        None => {
            assert forall|j: int| a.len() + from <= j implies !occurs_at(a + b, pat, j) by {
                assert(!occurs_at(b, pat, j - a.len()));
            };
            lemma_find_from_none(a + b, pat, a.len() + from);
        },
    }
}

/// The stanzas of `a + rest`, for a complete stanza `a`: `a` first, then those of `rest`.
proof fn lemma_stanzas_prefix(a: Seq<char>, rest: Seq<char>)
    requires
        well_formed_stanza(a),
    ensures
        stanzas(a + rest) == seq![a] + stanzas_from(a + rest, a.len() as int),
        find_from(a + rest, "<presence"@, 0) == Some(0int),
        find_from(a + rest, "</presence>"@, 0) == Some(a.len() - "</presence>"@.len()),
{
    let s = a + rest;
    let open = "<presence"@;
    let close = "</presence>"@;
    reveal_strlit("<presence");
    reveal_strlit("</presence>");
    lemma_occurs_concat(a, rest, open, 0);
    lemma_find_from_is(s, open, 0, 0);
    let e = a.len() - close.len();
    lemma_occurs_concat(a, rest, close, e);
    assert forall|j: int| 0 <= j < e implies !occurs_at(s, close, j) by {
        lemma_occurs_concat(a, rest, close, j);
    };
    lemma_find_from_is(s, close, 0, e);
    assert(s.subrange(0, a.len() as int) =~= a);
}

/// Two complete presence stanzas back to back are read as exactly those two, in order.
pub proof fn lemma_two_stanzas(a: Seq<char>, b: Seq<char>)
    requires
        well_formed_stanza(a),
        well_formed_stanza(b),
    ensures
        stanzas(a + b) == seq![a, b],
{
    let s = a + b;
    lemma_stanzas_prefix(a, b);
    lemma_stanzas_prefix(b, Seq::empty());
    assert(b + Seq::<char>::empty() =~= b);
    let close = "</presence>"@;
    let open = "<presence"@;
    reveal_strlit("<presence");
    reveal_strlit("</presence>");
    lemma_find_in_tail(a, b, open, 0);
    lemma_find_in_tail(a, b, close, 0);
    lemma_find_from_is(b, open, 0, 0);
    assert forall|j: int| 0 <= j < b.len() - close.len() implies !occurs_at(b, close, j) by {};
    lemma_find_from_is(b, close, 0, b.len() - close.len());
    assert(s.subrange(a.len() as int, s.len() as int) =~= b);
    assert(stanzas_from(s, s.len() as int) == Seq::<Seq<char>>::empty());
    assert(stanzas_from(s, a.len() as int) == seq![b] + stanzas_from(s, s.len() as int));
    assert(stanzas(s) =~= seq![a, b]);
}

/// A start marker with no `</presence>` after it ends the scan: after a complete stanza, a
/// tail holding no end marker yields nothing more.
pub proof fn lemma_unmatched_tail(a: Seq<char>, t: Seq<char>)
    requires
        well_formed_stanza(a),
        !contains(t, "</presence>"@),
    ensures
        stanzas(a + t) == seq![a],
{
    let s = a + t;
    lemma_stanzas_prefix(a, t);
    let close = "</presence>"@;
    let open = "<presence"@;
    lemma_find_in_tail(a, t, open, 0);
    lemma_find_from(t, close, 0);
    match find_from(t, open, 0) {
        Some(i) => {
            lemma_find_from(t, open, 0);
            lemma_find_in_tail(a, t, close, i);
            assert forall|j: int| i <= j implies !occurs_at(t, close, j) by {};
            lemma_find_from_none(t, close, i);
        },
        None => {},
    }
    assert(stanzas_from(s, a.len() as int) =~= Seq::<Seq<char>>::empty());
    assert(seq![a] + Seq::<Seq<char>>::empty() =~= seq![a]);
}

/// A complete stanza found at `x.len()` is read whole, and the scan goes on after it.
proof fn lemma_stanza_at(x: Seq<char>, a: Seq<char>, rest: Seq<char>)
    requires
        well_formed_stanza(a),
    ensures
        stanzas_from(x + (a + rest), x.len() as int) == seq![a] + stanzas_from(
            x + (a + rest),
            (x.len() + a.len()) as int,
        ),
{
    let y = a + rest;
    let s = x + y;
    reveal_strlit("</presence>");
    lemma_stanzas_prefix(a, rest);
    lemma_find_in_tail(x, y, "<presence"@, 0);
    lemma_find_in_tail(x, y, "</presence>"@, 0);
    assert(s.subrange(x.len() as int, (x.len() + a.len()) as int) =~= a);
}

/// After position `x.len()`, a tail with no end tag yields no stanza.
proof fn lemma_tail_at(x: Seq<char>, t: Seq<char>)
    requires
        !contains(t, "</presence>"@),
    ensures
        stanzas_from(x + t, x.len() as int) == Seq::<Seq<char>>::empty(),
{
    let close = "</presence>"@;
    lemma_find_in_tail(x, t, "<presence"@, 0);
    lemma_find_from(t, close, 0);
    match find_from(t, "<presence"@, 0) {
        Some(i) => {
            lemma_find_from(t, "<presence"@, 0);
            lemma_find_in_tail(x, t, close, i);
            assert forall|j: int| i <= j implies !occurs_at(t, close, j) by {};
            lemma_find_from_none(t, close, i);
        },
        None => {},
    }
}

/// The stanzas `ss` written one after another.
pub open spec fn concat_all(ss: Seq<Seq<char>>) -> Seq<char>
    decreases ss.len(),
{
    if ss.len() == 0 {
        Seq::empty()
    } else {
        ss[0] + concat_all(ss.drop_first())
    }
}

/// Reading from `x.len()` in `x + concat_all(ss) + t` gives back `ss`.
proof fn lemma_concat_from(x: Seq<char>, ss: Seq<Seq<char>>, t: Seq<char>)
    requires
        forall|i: int| 0 <= i < ss.len() ==> well_formed_stanza(#[trigger] ss[i]),
        !contains(t, "</presence>"@),
    ensures
        stanzas_from(x + (concat_all(ss) + t), x.len() as int) == ss,
    decreases ss.len(),
{
    if ss.len() == 0 {
        assert(concat_all(ss) + t =~= t);
        lemma_tail_at(x, t);
        assert(ss =~= Seq::<Seq<char>>::empty());
    } else {
        let a = ss[0];
        let rest_ss = ss.drop_first();
        let rest = concat_all(rest_ss) + t;
        assert(well_formed_stanza(a));
        assert(concat_all(ss) + t =~= a + rest);
        lemma_stanza_at(x, a, rest);
        assert forall|i: int| 0 <= i < rest_ss.len() implies well_formed_stanza(
            #[trigger] rest_ss[i],
        ) by {
            assert(rest_ss[i] == ss[i + 1]);
        };
        lemma_concat_from(x + a, rest_ss, t);
        assert(x + (a + rest) =~= (x + a) + (concat_all(rest_ss) + t));
        assert(seq![a] + rest_ss =~= ss);
    }
}

/// Complete presence stanzas back to back, followed by text holding no end tag (such as an
/// unmatched start tag), are read as exactly those stanzas, in order.
pub proof fn lemma_stanzas_then_tail(ss: Seq<Seq<char>>, t: Seq<char>)
    requires
        forall|i: int| 0 <= i < ss.len() ==> well_formed_stanza(#[trigger] ss[i]),
        !contains(t, "</presence>"@),
    ensures
        stanzas(concat_all(ss) + t) == ss,
{
    lemma_concat_from(Seq::empty(), ss, t);
    assert(Seq::<char>::empty() + (concat_all(ss) + t) =~= concat_all(ss) + t);
}

} // verus!
