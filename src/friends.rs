//! The friends list as shown to the host: each friend with its presence from the local
//! client, online friends first, then by name.
use vstd::prelude::*;
use crate::json::{
    json_as_array, json_as_str, json_get, json_parsed, json_str, member, member_text,
    member_u64, parse_json, text_or_empty, u64_or_zero,
};
use crate::codec::{b64_standard, decode_standard, lower_of, lowercase};
use crate::riot::player_card_url;
use crate::stats::items_of;
use crate::text::{chars_of, contains, contains_chars, utf8_of};

verus! {

/// A friend's presence as the local client reports it.
pub struct PresenceInfo {
    pub state: Seq<char>,
    pub product: Seq<char>,
    pub card_url: Seq<char>,
    pub level: u64,
}

/// The card image and account level in a presence's private blob (base64 JSON), if readable.
pub open spec fn private_info(p: serde_json::Value) -> (Seq<char>, u64) {
    let blob = text_or_empty(p, "private"@);
    if blob.len() == 0 {
        (Seq::empty(), 0)
    } else {
        match b64_standard(blob) {
            Some(bytes) => match json_parsed(bytes) {
                Some(j) => {
                    let card = text_or_empty(j, "playerCardId"@);
                    (
                        if card.len() > 0 {
                            "https://media.valorant-api.com/playercards/"@ + card + "/smallart.png"@
                        } else {
                            Seq::empty()
                        },
                        u64_or_zero(j, "accountLevel"@),
                    )
                },
                None => (Seq::empty(), 0),
            },
            None => (Seq::empty(), 0),
        }
    }
}

/// `v[key]` as text, or `default`.
pub open spec fn text_or(v: serde_json::Value, key: Seq<char>, default: Seq<char>) -> Seq<char> {
    match member(v, key) {
        Some(x) => match json_str(x) {
            Some(t) => t,
            None => default,
        },
        None => default,
    }
}

/// What one presence entry reports.
pub open spec fn info_of(p: serde_json::Value) -> PresenceInfo {
    let (card, level) = private_info(p);
    PresenceInfo {
        state: text_or(p, "state"@, "offline"@),
        product: text_or_empty(p, "product"@),
        card_url: card,
        level,
    }
}

/// The presence of `id`: its latest entry, except that a non-game entry never replaces one
/// already seen.
pub open spec fn presence_of(ps: Seq<serde_json::Value>, id: Seq<char>) -> Option<PresenceInfo>
    decreases ps.len(),
{
    if ps.len() == 0 {
        None
    } else {
        let prev = presence_of(ps.drop_last(), id);
        let p = ps.last();
        if text_or_empty(p, "puuid"@) == id {
            if prev is Some && text_or_empty(p, "product"@) != "valorant"@ {
                prev
            } else {
                Some(info_of(p))
            }
        } else {
            prev
        }
    }
}

/// A friend row.
pub struct FriendRow {
    pub puuid: String,
    pub game_name: String,
    pub game_tag: String,
    pub product: String,
    pub status: String,
    pub player_card_url: String,
    pub account_level: u64,
    pub note: String,
}

/// The row for friend entry `f` against the presences `ps`.
pub open spec fn row_fits(r: FriendRow, f: serde_json::Value, ps: Seq<serde_json::Value>) -> bool {
    let id = text_or_empty(f, "puuid"@);
    let info = match presence_of(ps, id) {
        Some(i) => i,
        None => PresenceInfo { state: "offline"@, product: Seq::empty(), card_url: Seq::empty(), level: 0 },
    };
    let pid = text_or_empty(f, "pid"@);
    let product = if info.product.len() > 0 {
        info.product
    } else if contains(pid, "valorant"@) {
        "valorant"@
    } else if contains(pid, "league"@) {
        "league"@
    } else {
        Seq::empty()
    };
    let online = info.state != "offline"@ && info.state != "mobile"@;
    &&& r.puuid@ == id
    &&& r.game_name@ == text_or_empty(f, "game_name"@)
    &&& r.game_tag@ == text_or_empty(f, "game_tag"@)
    &&& r.product@ == product
    &&& r.status@ == if online { info.state } else { "offline"@ }
    &&& r.player_card_url@ == info.card_url
    &&& r.account_level == info.level
    &&& r.note@ == text_or_empty(f, "note"@)
}

/// The friend entries that have a name, in order.
pub open spec fn named_friends(fs: Seq<serde_json::Value>) -> Seq<serde_json::Value>
    decreases fs.len(),
{
    if fs.len() == 0 {
        Seq::empty()
    } else if text_or_empty(fs.last(), "game_name"@).len() > 0 {
        named_friends(fs.drop_last()).push(fs.last())
    } else {
        named_friends(fs.drop_last())
    }
}

fn read_private(p: &serde_json::Value) -> (r: (String, u64))
    ensures
        (r.0@, r.1) == private_info(*p),
{
    let blob = member_text(p, "private");
    if blob.unicode_len() == 0 {
        return (String::new(), 0);
    }
    let bytes = match decode_standard(blob.as_str()) {
        Some(b) => b,
        None => return (String::new(), 0),
    };
    match parse_json(bytes.as_slice()) {
        Some(j) => {
            let card = member_text(&j, "playerCardId");
            let url = if card.unicode_len() > 0 {
                player_card_url(card.as_str())
            } else {
                String::new()
            };
            (url, member_u64(&j, "accountLevel"))
        },
        None => (String::new(), 0),
    }
}

/// The presence of `id` among the entries.
fn find_presence(ps: &Vec<serde_json::Value>, id: &String) -> (r: Option<(String, String, String, u64)>)
    ensures
        match r {
            Some((state, product, card, level)) => presence_of(ps@, id@) == Some(
                PresenceInfo { state: state@, product: product@, card_url: card@, level },
            ),
            None => presence_of(ps@, id@) is None,
        },
{
    let mut found: Option<(String, String, String, u64)> = None;
    let mut i: usize = 0;
    while i < ps.len()
        invariant
            i <= ps.len(),
            match found {
                Some((state, product, card, level)) => presence_of(ps@.take(i as int), id@) == Some(
                    PresenceInfo { state: state@, product: product@, card_url: card@, level },
                ),
                None => presence_of(ps@.take(i as int), id@) is None,
            },
        decreases ps.len() - i,
    {
        assert(ps@.take(i + 1).drop_last() =~= ps@.take(i as int));
        let p = &ps[i];
        let pid = member_text(p, "puuid");
        if pid == *id {
            let product = member_text(p, "product");
            if !(found.is_some() && !(product == "valorant".to_string())) {
                let state = match json_get(p, "state") {
                    Some(x) => match json_as_str(x) {
                        Some(t) => t,
                        None => "offline".to_string(),
                    },
                    None => "offline".to_string(),
                };
                let (card, level) = read_private(p);
                found = Some((state, product, card, level));
            }
        }
        i += 1;
    }
    assert(ps@.take(ps.len() as int) =~= ps@);
    found
}

/// The row for one friend entry.
fn make_row(f: &serde_json::Value, ps: &Vec<serde_json::Value>) -> (r: FriendRow)
    ensures
        row_fits(r, *f, ps@),
{
    let id = member_text(f, "puuid");
    let (state, pprod, card, level) = match find_presence(ps, &id) {
        Some(t) => t,
        None => ("offline".to_string(), String::new(), String::new(), 0),
    };
    let pid = chars_of(member_text(f, "pid").as_str());
    let product = if pprod.unicode_len() > 0 {
        pprod
    } else if contains_chars(&pid, &chars_of("valorant")) {
        "valorant".to_string()
    } else if contains_chars(&pid, &chars_of("league")) {
        "league".to_string()
    } else {
        String::new()
    };
    let online = !(state == "offline".to_string()) && !(state == "mobile".to_string());
    FriendRow {
        puuid: id,
        game_name: member_text(f, "game_name"),
        game_tag: member_text(f, "game_tag"),
        product,
        status: if online {
            state
        } else {
            "offline".to_string()
        },
        player_card_url: card,
        account_level: level,
        note: member_text(f, "note"),
    }
}

/// The items of `raw[key]`, when `raw` is given and parses; none otherwise.
pub open spec fn listed(raw: Option<Seq<char>>, key: Seq<char>) -> Seq<serde_json::Value> {
    match raw {
        Some(t) => match json_parsed(utf8_of(t)) {
            Some(v) => items_of(v, key),
            None => Seq::empty(),
        },
        None => Seq::empty(),
    }
}

fn list_of(raw: Option<&str>, key: &str) -> (r: Vec<serde_json::Value>)
    ensures
        r@ == listed(
            match raw {
                Some(t) => Some(t@),
                None => None,
            },
            key@,
        ),
{
    match raw {
        Some(t) => match parse_json(t.as_bytes()) {
            Some(v) => match json_get(&v, key) {
                Some(a) => match json_as_array(a) {
                    Some(xs) => xs,
                    None => Vec::new(),
                },
                None => Vec::new(),
            },
            None => Vec::new(),
        },
        None => Vec::new(),
    }
}

/// The rows of the named friends in the friends answer, in its order, each with its
/// presence from the presences answer (when that was fetched).
pub fn friend_rows(friends_raw: &str, presences_raw: Option<&str>) -> (r: Result<Vec<FriendRow>, String>)
    ensures
        match r {
            Ok(rows) => json_parsed(utf8_of(friends_raw@)) matches Some(v) && {
                let fs = named_friends(items_of(v, "friends"@));
                let ps = listed(
                    match presences_raw {
                        Some(t) => Some(t@),
                        None => None,
                    },
                    "presences"@,
                );
                rows.len() == fs.len() && forall|i: int|
                    0 <= i < rows.len() ==> row_fits(#[trigger] rows[i], fs[i], ps)
            },
            Err(_) => json_parsed(utf8_of(friends_raw@)) is None,
        },
{
    let v = match parse_json(friends_raw.as_bytes()) {
        Some(v) => v,
        None => return Err("Parse friends: invalid JSON".to_string()),
    };
    let fs: Vec<serde_json::Value> = match json_get(&v, "friends") {
        Some(a) => match json_as_array(a) {
            Some(xs) => xs,
            None => Vec::new(),
        },
        None => Vec::new(),
    };
    assert(fs@ =~= items_of(v, "friends"@));
    let ps = list_of(presences_raw, "presences");
    let mut rows: Vec<FriendRow> = Vec::new();
    let ghost mut kept: Seq<serde_json::Value> = Seq::empty();
    let mut i: usize = 0;
    while i < fs.len()
        invariant
            i <= fs.len(),
            kept == named_friends(fs@.take(i as int)),
            rows.len() == kept.len(),
            forall|j: int| 0 <= j < rows.len() ==> row_fits(#[trigger] rows[j], kept[j], ps@),
        decreases fs.len() - i,
    {
        assert(fs@.take(i + 1).drop_last() =~= fs@.take(i as int));
        let f = &fs[i];
        let name = member_text(f, "game_name");
        if name.unicode_len() > 0 {
            rows.push(make_row(f, &ps));
            proof {
                kept = kept.push(fs@[i as int]);
            }
        }
        i += 1;
    }
    assert(fs@.take(fs.len() as int) =~= fs@);
    Ok(rows)
}

/// `a` is not after `b`, comparing characters by code point.
pub open spec fn chars_le(a: Seq<char>, b: Seq<char>) -> bool
    decreases a.len(),
{
    if a.len() == 0 {
        true
    } else if b.len() == 0 {
        false
    } else if a[0] != b[0] {
        a[0] < b[0]
    } else {
        chars_le(a.drop_first(), b.drop_first())
    }
}

proof fn lemma_chars_le_total(a: Seq<char>, b: Seq<char>)
    ensures
        chars_le(a, b) || chars_le(b, a),
    decreases a.len(),
{
    if a.len() > 0 && b.len() > 0 && a[0] == b[0] {
        lemma_chars_le_total(a.drop_first(), b.drop_first());
    }
}

proof fn lemma_chars_le_trans(a: Seq<char>, b: Seq<char>, c: Seq<char>)
    requires
        chars_le(a, b),
        chars_le(b, c),
    ensures
        chars_le(a, c),
    decreases a.len(),
{
    if a.len() > 0 && b.len() > 0 && c.len() > 0 && a[0] == b[0] && b[0] == c[0] {
        lemma_chars_le_trans(a.drop_first(), b.drop_first(), c.drop_first());
    }
}

/// The row reads as offline.
pub open spec fn is_offline(r: FriendRow) -> bool {
    r.status@ == "offline"@
}

/// Row `a` may stand before row `b`: online before offline, then by lowercased name.
pub open spec fn row_le(a: FriendRow, b: FriendRow) -> bool {
    (!is_offline(a) && is_offline(b)) || (is_offline(a) == is_offline(b) && chars_le(
        lower_of(a.game_name@),
        lower_of(b.game_name@),
    ))
}

/// Rows in display order.
pub open spec fn sorted_rows(s: Seq<FriendRow>) -> bool {
    forall|i: int, j: int| 0 <= i < j < s.len() ==> row_le(#[trigger] s[i], #[trigger] s[j])
}

proof fn lemma_row_le_total(a: FriendRow, b: FriendRow)
    ensures
        row_le(a, b) || row_le(b, a),
{
    lemma_chars_le_total(lower_of(a.game_name@), lower_of(b.game_name@));
}

proof fn lemma_row_le_trans(a: FriendRow, b: FriendRow, c: FriendRow)
    requires
        row_le(a, b),
        row_le(b, c),
    ensures
        row_le(a, c),
{
    if is_offline(a) == is_offline(b) && is_offline(b) == is_offline(c) {
        lemma_chars_le_trans(lower_of(a.game_name@), lower_of(b.game_name@), lower_of(c.game_name@));
    }
}

fn chars_le_exec(a: &Vec<char>, b: &Vec<char>) -> (r: bool)
    ensures
        r == chars_le(a@, b@),
{
    let mut i: usize = 0;
    assert(a@.skip(0) =~= a@ && b@.skip(0) =~= b@);
    while i < a.len() && i < b.len()
        invariant
            i <= a.len(),
            i <= b.len(),
            chars_le(a@, b@) == chars_le(a@.skip(i as int), b@.skip(i as int)),
        decreases a.len() - i,
    {
        if a[i] != b[i] {
            return a[i] < b[i];
        }
        assert(a@.skip(i as int).drop_first() =~= a@.skip(i + 1));
        assert(b@.skip(i as int).drop_first() =~= b@.skip(i + 1));
        i += 1;
    }
    i == a.len()
}

/// Whether row `a` may stand before row `b`.
fn row_le_exec(a: &FriendRow, b: &FriendRow) -> (r: bool)
    ensures
        r == row_le(*a, *b),
{
    let off = "offline".to_string();
    let ao = a.status == off;
    let bo = b.status == off;
    if !ao && bo {
        return true;
    }
    if ao != bo {
        return false;
    }
    let la = lowercase(a.game_name.as_str());
    let lb = lowercase(b.game_name.as_str());
    chars_le_exec(&chars_of(la.as_str()), &chars_of(lb.as_str()))
}

/// Puts rows in display order: online before offline, then by lowercased name.
pub fn sort_friend_rows(rows: Vec<FriendRow>) -> (r: Vec<FriendRow>)
    ensures
        sorted_rows(r@),
        r@.to_multiset() == rows@.to_multiset(),
{
    broadcast use vstd::seq_lib::group_to_multiset_ensures;

    let mut rest = rows;
    let ghost input = rest@;
    assert(input.len() == rest.len());
    let mut out: Vec<FriendRow> = Vec::new();
    let mut n: usize = 0;
    assert(input.take(0) =~= Seq::<FriendRow>::empty());
    assert(out@ =~= Seq::<FriendRow>::empty());
    while rest.len() > 0
        invariant
            n <= input.len(),
            input.len() <= usize::MAX,
            rest@ == input.skip(n as int),
            sorted_rows(out@),
            out@.to_multiset() == input.take(n as int).to_multiset(),
        decreases rest.len(),
    {
        let x = rest.remove(0);
        assert(input.take(n + 1) =~= input.take(n as int).push(x));
        assert(rest@ =~= input.skip(n + 1));
        let mut pos: usize = 0;
        while pos < out.len() && row_le_exec(&out[pos], &x)
            invariant
                pos <= out.len(),
                forall|k: int| 0 <= k < pos ==> row_le(#[trigger] out@[k], x),
            decreases out.len() - pos,
        {
            pos += 1;
        }
        proof {
            if pos < out.len() {
                assert(!row_le(out@[pos as int], x));
                lemma_row_le_total(out@[pos as int], x);
                assert forall|k: int| pos <= k < out.len() implies row_le(x, #[trigger] out@[k]) by {
                    if k > pos {
                        lemma_row_le_trans(x, out@[pos as int], out@[k]);
                    }
                };
            }
            vstd::seq_lib::to_multiset_insert(out@, pos as int, x);
            vstd::seq_lib::to_multiset_build(input.take(n as int), x);
        }
        let ghost old_out = out@;
        out.insert(pos, x);
        assert(out@ =~= old_out.insert(pos as int, x));
        assert forall|i: int, j: int| 0 <= i < j < out@.len() implies row_le(
            #[trigger] out@[i],
            #[trigger] out@[j],
        ) by {
            if j < pos {
                assert(row_le(old_out[i], old_out[j]));
            } else if j == pos {
                assert(row_le(old_out[i], x));
            } else if i == pos {
                assert(row_le(x, old_out[j - 1]));
            } else if i < pos {
                assert(row_le(old_out[i], old_out[j - 1]));
            } else {
                assert(row_le(old_out[i - 1], old_out[j - 1]));
            }
        };
        n += 1;
    }
    assert(input.take(n as int) =~= input);
    out
}

} // verus!
