//! The presence broadcaster: a captured self-presence payload, overlaid with the fields the
//! caller supplies, re-encoded and wrapped in a presence stanza.
use vstd::prelude::*;
use crate::codec::{b64_encoded, dec_text, encode_standard, u64_text};
use crate::error::XmppError;
use crate::json::{
    json_compact, json_text,
    json_as_str, json_as_u64, json_empty_object, json_get, json_insert, json_is_object,
    json_members, json_number, json_object, json_of_str, json_of_u64, json_parsed, json_pretty,
    json_str, json_string, json_to_pretty, json_u64, member, parse_json,
};
use crate::log::{log_appended, log_view, record};
use crate::session::XmppState;
use crate::tabs::{format_json_tabs, tab_indented};
use crate::text::utf8_of;

verus! {

/// The fields a caller may overlay on the captured payload; `None` leaves a field as captured.
pub struct PresenceOverrides {
    pub show: Option<String>,
    pub competitive_tier: Option<u64>,
    pub account_level: Option<u64>,
    pub leaderboard_position: Option<u64>,
    pub player_card_id: Option<String>,
    pub player_title_id: Option<String>,
    pub session_loop_state: Option<String>,
    pub queue_id: Option<String>,
    pub party_size: Option<u64>,
    pub max_party_size: Option<u64>,
    pub party_owner_match_score_ally_team: Option<u64>,
    pub party_owner_match_score_enemy_team: Option<u64>,
    pub premier_division: Option<u64>,
    pub premier_tag: Option<String>,
    pub roster_name: Option<String>,
}

/// The view of an optional text.
pub open spec fn opt_text(s: Option<String>) -> Option<Seq<char>> {
    match s {
        Some(t) => Some(t@),
        None => None,
    }
}

/// `params[key]` as an unsigned integer.
pub open spec fn param_u64(params: serde_json::Value, key: Seq<char>) -> Option<u64> {
    match member(params, key) {
        Some(v) => json_u64(v),
        None => None,
    }
}

/// `params[key]` as text.
pub open spec fn param_text(params: serde_json::Value, key: Seq<char>) -> Option<Seq<char>> {
    match member(params, key) {
        Some(v) => json_str(v),
        None => None,
    }
}

/// The overrides that a JSON parameter object names, each under its camel-case key.
pub open spec fn overrides_of(o: PresenceOverrides, p: serde_json::Value) -> bool {
    &&& opt_text(o.show) == param_text(p, "show"@)
    &&& o.competitive_tier == param_u64(p, "competitiveTier"@)
    &&& o.account_level == param_u64(p, "accountLevel"@)
    &&& o.leaderboard_position == param_u64(p, "leaderboardPosition"@)
    &&& opt_text(o.player_card_id) == param_text(p, "playerCardId"@)
    &&& opt_text(o.player_title_id) == param_text(p, "playerTitleId"@)
    &&& opt_text(o.session_loop_state) == param_text(p, "sessionLoopState"@)
    &&& opt_text(o.queue_id) == param_text(p, "queueId"@)
    &&& o.party_size == param_u64(p, "partySize"@)
    &&& o.max_party_size == param_u64(p, "maxPartySize"@)
    &&& o.party_owner_match_score_ally_team == param_u64(p, "partyOwnerMatchScoreAllyTeam"@)
    &&& o.party_owner_match_score_enemy_team == param_u64(p, "partyOwnerMatchScoreEnemyTeam"@)
    &&& o.premier_division == param_u64(p, "premierDivision"@)
    &&& opt_text(o.premier_tag) == param_text(p, "premierTag"@)
    &&& opt_text(o.roster_name) == param_text(p, "rosterName"@)
}

fn param_u64_of(p: &serde_json::Value, key: &str) -> (r: Option<u64>)
    ensures
        r == param_u64(*p, key@),
{
    match json_get(p, key) {
        Some(v) => json_as_u64(v),
        None => None,
    }
}

fn param_text_of(p: &serde_json::Value, key: &str) -> (r: Option<String>)
    ensures
        opt_text(r) == param_text(*p, key@),
{
    match json_get(p, key) {
        Some(v) => json_as_str(v),
        None => None,
    }
}

/// Reads the overrides from their JSON parameter text; fails only when it is not JSON.
pub fn overrides_from_json(text: &str) -> (r: Result<PresenceOverrides, XmppError>)
    ensures
        match r {
            Ok(o) => json_parsed(utf8_of(text@)) matches Some(p) && overrides_of(o, p),
            Err(e) => json_parsed(utf8_of(text@)) is None && e == XmppError::BadJson,
        },
{
    let p = match parse_json(text.as_bytes()) {
        Some(p) => p,
        None => return Err(XmppError::BadJson),
    };
    Ok(
        PresenceOverrides {
            show: param_text_of(&p, "show"),
            competitive_tier: param_u64_of(&p, "competitiveTier"),
            account_level: param_u64_of(&p, "accountLevel"),
            leaderboard_position: param_u64_of(&p, "leaderboardPosition"),
            player_card_id: param_text_of(&p, "playerCardId"),
            player_title_id: param_text_of(&p, "playerTitleId"),
            session_loop_state: param_text_of(&p, "sessionLoopState"),
            queue_id: param_text_of(&p, "queueId"),
            party_size: param_u64_of(&p, "partySize"),
            max_party_size: param_u64_of(&p, "maxPartySize"),
            party_owner_match_score_ally_team: param_u64_of(&p, "partyOwnerMatchScoreAllyTeam"),
            party_owner_match_score_enemy_team: param_u64_of(&p, "partyOwnerMatchScoreEnemyTeam"),
            premier_division: param_u64_of(&p, "premierDivision"),
            premier_tag: param_text_of(&p, "premierTag"),
            roster_name: param_text_of(&p, "rosterName"),
        },
    )
}

/// Members `base` with each update of `ups` inserted in turn.
pub open spec fn inserted_all(
    base: Map<Seq<char>, serde_json::Value>,
    ups: Seq<(Seq<char>, serde_json::Value)>,
) -> Map<Seq<char>, serde_json::Value>
    decreases ups.len(),
{
    if ups.len() == 0 {
        base
    } else {
        inserted_all(base, ups.drop_last()).insert(ups.last().0, ups.last().1)
    }
}

/// A number update of `key`, when one is given.
pub open spec fn num_up(key: Seq<char>, x: Option<u64>) -> Seq<(Seq<char>, serde_json::Value)> {
    match x {
        Some(n) => seq![(key, json_number(n))],
        None => Seq::empty(),
    }
}

/// A string update of `key`, when a non-empty one is given.
pub open spec fn text_up(key: Seq<char>, x: Option<String>) -> Seq<(Seq<char>, serde_json::Value)> {
    match x {
        Some(s) => if s@.len() > 0 {
            seq![(key, json_string(s@))]
        } else {
            Seq::empty()
        },
        None => Seq::empty(),
    }
}

/// The provisioning flow that a queue id implies.
pub open spec fn flow_of(queue: Seq<char>) -> Seq<char> {
    if queue == "newmap"@ {
        "Invalid"@
    } else {
        "Matchmaking"@
    }
}

/// Updates of the player-data object: the identity fields.
pub open spec fn player_ups(o: PresenceOverrides) -> Seq<(Seq<char>, serde_json::Value)> {
    num_up("competitiveTier"@, o.competitive_tier) + num_up("accountLevel"@, o.account_level)
        + num_up("leaderboardPosition"@, o.leaderboard_position) + text_up(
        "playerCardId"@,
        o.player_card_id,
    ) + text_up("playerTitleId"@, o.player_title_id)
}

/// Updates of the match-data object: the loop state, and a non-empty queue id with its flow.
pub open spec fn match_ups(o: PresenceOverrides) -> Seq<(Seq<char>, serde_json::Value)> {
    let session = match o.session_loop_state {
        Some(s) => seq![("sessionLoopState"@, json_string(s@))],
        None => Seq::empty(),
    };
    let queue = match o.queue_id {
        Some(q) => if q@.len() > 0 {
            seq![("queueId"@, json_string(q@)), ("provisioningFlow"@, json_string(flow_of(q@)))]
        } else {
            Seq::empty()
        },
        None => Seq::empty(),
    };
    session + queue
}

/// Updates of the party-data object, which the top level mirrors.
pub open spec fn party_ups(o: PresenceOverrides) -> Seq<(Seq<char>, serde_json::Value)> {
    num_up("partySize"@, o.party_size) + num_up("maxPartySize"@, o.max_party_size) + num_up(
        "partyOwnerMatchScoreAllyTeam"@,
        o.party_owner_match_score_ally_team,
    ) + num_up("partyOwnerMatchScoreEnemyTeam"@, o.party_owner_match_score_enemy_team)
}

/// Updates of the top level: a non-empty queue id, and the party fields.
pub open spec fn top_ups(o: PresenceOverrides) -> Seq<(Seq<char>, serde_json::Value)> {
    let queue = match o.queue_id {
        Some(q) => if q@.len() > 0 {
            seq![("queueId"@, json_string(q@))]
        } else {
            Seq::empty()
        },
        None => Seq::empty(),
    };
    queue + party_ups(o)
}

/// Updates of the premier-data object.
pub open spec fn premier_ups(o: PresenceOverrides) -> Seq<(Seq<char>, serde_json::Value)> {
    num_up("division"@, o.premier_division) + text_up("rosterTag"@, o.premier_tag) + text_up(
        "rosterName"@,
        o.roster_name,
    )
}

/// Members `m` with the object member `outer` given the updates `ups`; unchanged when there
/// are none or `outer` is not an object.
pub open spec fn rewrap(
    m: Map<Seq<char>, serde_json::Value>,
    outer: Seq<char>,
    ups: Seq<(Seq<char>, serde_json::Value)>,
) -> Map<Seq<char>, serde_json::Value> {
    if ups.len() > 0 && m.contains_key(outer) && json_members(m[outer]) is Some {
        m.insert(outer, json_object(inserted_all(json_members(m[outer])->0, ups)))
    } else {
        m
    }
}

/// Members with the match-data updates; when a match field is supplied and there is no
/// match-data object, one is created for it.
pub open spec fn with_match(m: Map<Seq<char>, serde_json::Value>, o: PresenceOverrides) -> Map<
    Seq<char>,
    serde_json::Value,
> {
    if m.contains_key("matchPresenceData"@) && json_members(m["matchPresenceData"@]) is Some {
        rewrap(m, "matchPresenceData"@, match_ups(o))
    } else if match_ups(o).len() > 0 {
        m.insert("matchPresenceData"@, json_object(inserted_all(Map::empty(), match_ups(o))))
    } else {
        m
    }
}

/// The members that the object member `outer` of `m` has once given the updates `ups`, when
/// it is an object.
pub open spec fn nested_after(
    m: Map<Seq<char>, serde_json::Value>,
    outer: Seq<char>,
    ups: Seq<(Seq<char>, serde_json::Value)>,
) -> Option<Map<Seq<char>, serde_json::Value>> {
    if m.contains_key(outer) && json_members(m[outer]) is Some {
        Some(inserted_all(json_members(m[outer])->0, ups))
    } else {
        None
    }
}

/// The members of the match-data object after the match updates, when there is one.
pub open spec fn match_after(m: Map<Seq<char>, serde_json::Value>, o: PresenceOverrides) -> Option<
    Map<Seq<char>, serde_json::Value>,
> {
    if m.contains_key("matchPresenceData"@) && json_members(m["matchPresenceData"@]) is Some {
        nested_after(m, "matchPresenceData"@, match_ups(o))
    } else if match_ups(o).len() > 0 {
        Some(inserted_all(Map::empty(), match_ups(o)))
    } else {
        None
    }
}

/// The member `outer` of `r` is an object with members `x`, when `x` is given.
pub open spec fn nested_has(
    r: Map<Seq<char>, serde_json::Value>,
    outer: Seq<char>,
    x: Option<Map<Seq<char>, serde_json::Value>>,
) -> bool {
    match x {
        Some(mm) => r.contains_key(outer) && json_members(r[outer]) == Some(mm),
        None => true,
    }
}

/// What the merge of the overrides `o` into a payload with members `m` gives: the merged
/// members, and the members of each nested object that the overrides reach.
pub open spec fn merge_result(m: Map<Seq<char>, serde_json::Value>, o: PresenceOverrides, r: serde_json::Value) -> bool {
    let mm = merged_members(m, o);
    &&& json_members(r) == Some(mm)
    &&& nested_has(mm, "playerPresenceData"@, nested_after(m, "playerPresenceData"@, player_ups(o)))
    &&& nested_has(mm, "matchPresenceData"@, match_after(m, o))
    &&& nested_has(mm, "partyPresenceData"@, nested_after(m, "partyPresenceData"@, party_ups(o)))
    &&& nested_has(mm, "premierPresenceData"@, nested_after(m, "premierPresenceData"@, premier_ups(o)))
}

/// The member keys that the merge writes are all different.
proof fn lemma_merge_keys_differ()
    ensures
        "playerPresenceData"@ != "matchPresenceData"@,
        "playerPresenceData"@ != "partyPresenceData"@,
        "playerPresenceData"@ != "premierPresenceData"@,
        "matchPresenceData"@ != "partyPresenceData"@,
        "matchPresenceData"@ != "premierPresenceData"@,
        "partyPresenceData"@ != "premierPresenceData"@,
{
    reveal_strlit("playerPresenceData");
    reveal_strlit("matchPresenceData");
    reveal_strlit("partyPresenceData");
    reveal_strlit("premierPresenceData");
    assert("matchPresenceData"@[0] != "partyPresenceData"@[0]);
    assert("playerPresenceData"@[1] != "matchPresenceData"@[1]);
    assert("playerPresenceData"@[1] != "partyPresenceData"@[1]);
}

/// No top-level update writes a nested object's key.
proof fn lemma_top_keys(o: PresenceOverrides)
    ensures
        forall|i: int|
            0 <= i < top_ups(o).len() ==> #[trigger] top_ups(o)[i].0 != "playerPresenceData"@
                && top_ups(o)[i].0 != "matchPresenceData"@ && top_ups(o)[i].0
                != "partyPresenceData"@ && top_ups(o)[i].0 != "premierPresenceData"@,
{
    reveal_strlit("playerPresenceData");
    reveal_strlit("matchPresenceData");
    reveal_strlit("partyPresenceData");
    reveal_strlit("premierPresenceData");
    reveal_strlit("queueId");
    reveal_strlit("partySize");
    reveal_strlit("maxPartySize");
    reveal_strlit("partyOwnerMatchScoreAllyTeam");
    reveal_strlit("partyOwnerMatchScoreEnemyTeam");
    let t = top_ups(o);
    assert forall|i: int| 0 <= i < t.len() implies #[trigger] t[i].0 != "playerPresenceData"@
        && t[i].0 != "matchPresenceData"@ && t[i].0 != "partyPresenceData"@ && t[i].0
        != "premierPresenceData"@ by {
        let k = t[i].0;
        assert(k == "queueId"@ || k == "partySize"@ || k == "maxPartySize"@ || k
            == "partyOwnerMatchScoreAllyTeam"@ || k == "partyOwnerMatchScoreEnemyTeam"@);
    };
}

/// Inserting updates none of which has key `k` leaves member `k` as it was.
proof fn lemma_inserted_other(
    m: Map<Seq<char>, serde_json::Value>,
    ups: Seq<(Seq<char>, serde_json::Value)>,
    k: Seq<char>,
)
    requires
        forall|i: int| 0 <= i < ups.len() ==> #[trigger] ups[i].0 != k,
    ensures
        inserted_all(m, ups).contains_key(k) == m.contains_key(k),
        m.contains_key(k) ==> inserted_all(m, ups)[k] == m[k],
    decreases ups.len(),
{
    if ups.len() > 0 {
        assert forall|i: int| 0 <= i < ups.drop_last().len() implies #[trigger] ups.drop_last()[i].0
            != k by {
            assert(ups.drop_last()[i] == ups[i]);
        };
        lemma_inserted_other(m, ups.drop_last(), k);
        assert(ups[ups.len() - 1].0 != k);
    }
}

/// The members of the captured payload with every supplied override applied.
pub open spec fn merged_members(m: Map<Seq<char>, serde_json::Value>, o: PresenceOverrides) -> Map<
    Seq<char>,
    serde_json::Value,
> {
    let m1 = rewrap(m, "playerPresenceData"@, player_ups(o));
    let m2 = with_match(m1, o);
    let m3 = inserted_all(m2, top_ups(o));
    let m4 = rewrap(m3, "partyPresenceData"@, party_ups(o));
    rewrap(m4, "premierPresenceData"@, premier_ups(o))
}

/// The captured payload with the overrides applied; a payload that is not an object is kept.
pub open spec fn merged_payload(t: serde_json::Value, o: PresenceOverrides) -> serde_json::Value {
    match json_members(t) {
        Some(m) => json_object(merged_members(m, o)),
        None => t,
    }
}

/// Inserts one more update into an object whose members are `base` with `done` applied.
fn put_up(
    c: &mut serde_json::Value,
    key: &str,
    x: serde_json::Value,
    base: Ghost<Map<Seq<char>, serde_json::Value>>,
    done: Ghost<Seq<(Seq<char>, serde_json::Value)>>,
)
    requires
        json_members(*old(c)) == Some(inserted_all(base@, done@)),
    ensures
        json_members(*final(c)) == Some(inserted_all(base@, done@.push((key@, x)))),
        *final(c) == json_object(inserted_all(base@, done@.push((key@, x)))),
        inserted_all(base@, done@.push((key@, x))) == inserted_all(base@, done@).insert(key@, x),
{
    json_insert(c, key, x);
    assert(done@.push((key@, x)).drop_last() =~= done@);
}

/// A copy of the member `outer` of `v`, when it is an object.
fn object_member(v: &serde_json::Value, outer: &str) -> (r: Option<serde_json::Value>)
    ensures
        match r {
            Some(c) => member(*v, outer@) == Some(c) && json_members(c) is Some,
            None => !(member(*v, outer@) matches Some(x) && json_members(x) is Some),
        },
{
    match json_get(v, outer) {
        Some(i) => if json_is_object(i) {
            Some(i.clone())
        } else {
            None
        },
        None => None,
    }
}

/// Applies the identity updates to the player-data object of `v`.
fn apply_player(v: &mut serde_json::Value, o: &PresenceOverrides)
    requires
        json_members(*old(v)) is Some,
    ensures
        json_members(*final(v)) == Some(
            rewrap(json_members(*old(v))->0, "playerPresenceData"@, player_ups(*o)),
        ),
        *final(v) == json_object(json_members(*final(v))->0) || *final(v) == *old(v),
        *final(v) == *old(v) <== player_ups(*o).len() == 0,
        nested_has(
            json_members(*final(v))->0,
            "playerPresenceData"@,
            nested_after(json_members(*old(v))->0, "playerPresenceData"@, player_ups(*o)),
        ),
{
    let outer = "playerPresenceData";
    let mut c = match object_member(v, outer) {
        Some(c) => c,
        None => return,
    };
    let ghost base = json_members(c)->0;
    let ghost mut g: Seq<(Seq<char>, serde_json::Value)> = Seq::empty();
    let mut changed = false;
    assert(inserted_all(base, g) == base);
    if let Some(n) = o.competitive_tier {
        put_up(&mut c, "competitiveTier", json_of_u64(n), Ghost(base), Ghost(g));
        proof { g = g.push(("competitiveTier"@, json_number(n))); }
        changed = true;
    }
    if let Some(n) = o.account_level {
        put_up(&mut c, "accountLevel", json_of_u64(n), Ghost(base), Ghost(g));
        proof { g = g.push(("accountLevel"@, json_number(n))); }
        changed = true;
    }
    if let Some(n) = o.leaderboard_position {
        put_up(&mut c, "leaderboardPosition", json_of_u64(n), Ghost(base), Ghost(g));
        proof { g = g.push(("leaderboardPosition"@, json_number(n))); }
        changed = true;
    }
    if let Some(s) = &o.player_card_id {
        if s.unicode_len() > 0 {
            put_up(&mut c, "playerCardId", json_of_str(s.as_str()), Ghost(base), Ghost(g));
            proof { g = g.push(("playerCardId"@, json_string(s@))); }
            changed = true;
        }
    }
    if let Some(s) = &o.player_title_id {
        if s.unicode_len() > 0 {
            put_up(&mut c, "playerTitleId", json_of_str(s.as_str()), Ghost(base), Ghost(g));
            proof { g = g.push(("playerTitleId"@, json_string(s@))); }
            changed = true;
        }
    }
    assert(g =~= player_ups(*o));
    assert(changed == (g.len() > 0));
    if changed {
        json_insert(v, outer, c);
    }
}

/// Applies the party updates to the party-data object of `v`.
fn apply_party(v: &mut serde_json::Value, o: &PresenceOverrides)
    requires
        json_members(*old(v)) is Some,
        *old(v) == json_object(json_members(*old(v))->0),
    ensures
        json_members(*final(v)) == Some(
            rewrap(json_members(*old(v))->0, "partyPresenceData"@, party_ups(*o)),
        ),
        *final(v) == json_object(json_members(*final(v))->0),
        nested_has(
            json_members(*final(v))->0,
            "partyPresenceData"@,
            nested_after(json_members(*old(v))->0, "partyPresenceData"@, party_ups(*o)),
        ),
{
    let outer = "partyPresenceData";
    let mut c = match object_member(v, outer) {
        Some(c) => c,
        None => return,
    };
    let ghost base = json_members(c)->0;
    let ghost mut g: Seq<(Seq<char>, serde_json::Value)> = Seq::empty();
    let mut changed = false;
    assert(inserted_all(base, g) == base);
    if let Some(n) = o.party_size {
        put_up(&mut c, "partySize", json_of_u64(n), Ghost(base), Ghost(g));
        proof { g = g.push(("partySize"@, json_number(n))); }
        changed = true;
    }
    if let Some(n) = o.max_party_size {
        put_up(&mut c, "maxPartySize", json_of_u64(n), Ghost(base), Ghost(g));
        proof { g = g.push(("maxPartySize"@, json_number(n))); }
        changed = true;
    }
    if let Some(n) = o.party_owner_match_score_ally_team {
        put_up(&mut c, "partyOwnerMatchScoreAllyTeam", json_of_u64(n), Ghost(base), Ghost(g));
        proof { g = g.push(("partyOwnerMatchScoreAllyTeam"@, json_number(n))); }
        changed = true;
    }
    if let Some(n) = o.party_owner_match_score_enemy_team {
        put_up(&mut c, "partyOwnerMatchScoreEnemyTeam", json_of_u64(n), Ghost(base), Ghost(g));
        proof { g = g.push(("partyOwnerMatchScoreEnemyTeam"@, json_number(n))); }
        changed = true;
    }
    assert(g =~= party_ups(*o));
    if changed {
        json_insert(v, outer, c);
    }
}

/// Applies the premier updates to the premier-data object of `v`.
fn apply_premier(v: &mut serde_json::Value, o: &PresenceOverrides)
    requires
        json_members(*old(v)) is Some,
        *old(v) == json_object(json_members(*old(v))->0),
    ensures
        json_members(*final(v)) == Some(
            rewrap(json_members(*old(v))->0, "premierPresenceData"@, premier_ups(*o)),
        ),
        *final(v) == json_object(json_members(*final(v))->0),
        nested_has(
            json_members(*final(v))->0,
            "premierPresenceData"@,
            nested_after(json_members(*old(v))->0, "premierPresenceData"@, premier_ups(*o)),
        ),
{
    let outer = "premierPresenceData";
    let mut c = match object_member(v, outer) {
        Some(c) => c,
        None => return,
    };
    let ghost base = json_members(c)->0;
    let ghost mut g: Seq<(Seq<char>, serde_json::Value)> = Seq::empty();
    let mut changed = false;
    assert(inserted_all(base, g) == base);
    if let Some(n) = o.premier_division {
        put_up(&mut c, "division", json_of_u64(n), Ghost(base), Ghost(g));
        proof { g = g.push(("division"@, json_number(n))); }
        changed = true;
    }
    if let Some(s) = &o.premier_tag {
        if s.unicode_len() > 0 {
            put_up(&mut c, "rosterTag", json_of_str(s.as_str()), Ghost(base), Ghost(g));
            proof { g = g.push(("rosterTag"@, json_string(s@))); }
            changed = true;
        }
    }
    if let Some(s) = &o.roster_name {
        if s.unicode_len() > 0 {
            put_up(&mut c, "rosterName", json_of_str(s.as_str()), Ghost(base), Ghost(g));
            proof { g = g.push(("rosterName"@, json_string(s@))); }
            changed = true;
        }
    }
    assert(g =~= premier_ups(*o));
    if changed {
        json_insert(v, outer, c);
    }
}

/// Applies the match-state updates, creating the match-data object if one is needed.
fn apply_match(v: &mut serde_json::Value, o: &PresenceOverrides)
    requires
        json_members(*old(v)) is Some,
        *old(v) == json_object(json_members(*old(v))->0),
    ensures
        json_members(*final(v)) == Some(with_match(json_members(*old(v))->0, *o)),
        *final(v) == json_object(json_members(*final(v))->0),
        nested_has(
            json_members(*final(v))->0,
            "matchPresenceData"@,
            match_after(json_members(*old(v))->0, *o),
        ),
{
    let outer = "matchPresenceData";
    let existing = object_member(v, outer);
    let created = existing.is_none();
    let mut c = match existing {
        Some(c) => c,
        None => json_empty_object(),
    };
    let ghost base = json_members(c)->0;
    let ghost mut g: Seq<(Seq<char>, serde_json::Value)> = Seq::empty();
    let mut changed = false;
    assert(inserted_all(base, g) == base);
    if let Some(s) = &o.session_loop_state {
        put_up(&mut c, "sessionLoopState", json_of_str(s.as_str()), Ghost(base), Ghost(g));
        proof { g = g.push(("sessionLoopState"@, json_string(s@))); }
        changed = true;
    }
    if let Some(q) = &o.queue_id {
        if q.unicode_len() > 0 {
            put_up(&mut c, "queueId", json_of_str(q.as_str()), Ghost(base), Ghost(g));
            proof { g = g.push(("queueId"@, json_string(q@))); }
            let newmap = "newmap".to_string();
            let flow = if *q == newmap {
                "Invalid"
            } else {
                "Matchmaking"
            };
            proof {
                reveal_strlit("Invalid");
                reveal_strlit("Matchmaking");
            }
            put_up(&mut c, "provisioningFlow", json_of_str(flow), Ghost(base), Ghost(g));
            proof { g = g.push(("provisioningFlow"@, json_string(flow_of(q@)))); }
            changed = true;
        }
    }
    assert(g =~= match_ups(*o));
    if changed {
        json_insert(v, outer, c);
    }
}

/// Overlays the supplied overrides on a copy of the captured payload: identity fields in the
/// player data, match state (with its flow) in the match data, party fields at the top level
/// and mirrored in the party data, premier fields in the premier data; nothing else changes.
#[verifier::rlimit(60)]
pub fn merge_overrides(template: &serde_json::Value, o: &PresenceOverrides) -> (r: serde_json::Value)
    ensures
        r == merged_payload(*template, *o),
        json_members(*template) matches Some(m) ==> merge_result(m, *o, r),
{
    let mut v = template.clone();
    if !json_is_object(&v) {
        return v;
    }
    proof {
        lemma_merge_keys_differ();
        lemma_top_keys(*o);
    }
    let ghost m0 = json_members(v)->0;
    let ghost pd = "playerPresenceData"@;
    let ghost md = "matchPresenceData"@;
    let ghost pp = "partyPresenceData"@;
    let ghost pr = "premierPresenceData"@;
    apply_player(&mut v, o);
    let ghost m1 = json_members(v)->0;
    assert(m1.contains_key(pp) == m0.contains_key(pp) && m1.contains_key(pr) == m0.contains_key(pr));
    assert(m0.contains_key(pp) ==> m1[pp] == m0[pp]);
    assert(m0.contains_key(pr) ==> m1[pr] == m0[pr]);
    apply_match(&mut v, o);
    let ghost m2 = json_members(v)->0;
    assert(nested_has(m2, pd, nested_after(m0, pd, player_ups(*o))));
    let ghost mut g: Seq<(Seq<char>, serde_json::Value)> = Seq::empty();
    assert(inserted_all(m2, g) == m2);
    if let Some(q) = &o.queue_id {
        if q.unicode_len() > 0 {
            put_up(&mut v, "queueId", json_of_str(q.as_str()), Ghost(m2), Ghost(g));
            proof { g = g.push(("queueId"@, json_string(q@))); }
        }
    }
    if let Some(n) = o.party_size {
        put_up(&mut v, "partySize", json_of_u64(n), Ghost(m2), Ghost(g));
        proof { g = g.push(("partySize"@, json_number(n))); }
    }
    if let Some(n) = o.max_party_size {
        put_up(&mut v, "maxPartySize", json_of_u64(n), Ghost(m2), Ghost(g));
        proof { g = g.push(("maxPartySize"@, json_number(n))); }
    }
    if let Some(n) = o.party_owner_match_score_ally_team {
        put_up(&mut v, "partyOwnerMatchScoreAllyTeam", json_of_u64(n), Ghost(m2), Ghost(g));
        proof { g = g.push(("partyOwnerMatchScoreAllyTeam"@, json_number(n))); }
    }
    if let Some(n) = o.party_owner_match_score_enemy_team {
        put_up(&mut v, "partyOwnerMatchScoreEnemyTeam", json_of_u64(n), Ghost(m2), Ghost(g));
        proof { g = g.push(("partyOwnerMatchScoreEnemyTeam"@, json_number(n))); }
    }
    assert(g =~= top_ups(*o));
    let ghost m3 = json_members(v)->0;
    proof {
        lemma_inserted_other(m2, top_ups(*o), pd);
        lemma_inserted_other(m2, top_ups(*o), md);
        lemma_inserted_other(m2, top_ups(*o), pp);
        lemma_inserted_other(m2, top_ups(*o), pr);
    }
    assert(nested_after(m3, pp, party_ups(*o)) == nested_after(m0, pp, party_ups(*o)));
    assert(nested_after(m3, pr, premier_ups(*o)) == nested_after(m0, pr, premier_ups(*o)));
    apply_party(&mut v, o);
    let ghost m4 = json_members(v)->0;
    assert(nested_after(m4, pr, premier_ups(*o)) == nested_after(m0, pr, premier_ups(*o)));
    apply_premier(&mut v, o);
    let ghost m5 = json_members(v)->0;
    assert(nested_has(m5, pd, nested_after(m0, pd, player_ups(*o))));
    assert(nested_has(m5, md, match_after(m0, *o)));
    assert(nested_has(m5, pp, nested_after(m0, pp, party_ups(*o))));
    v
}

/// The crafted presence stanza: a keystone carrying `ks`, and a rich-presence element
/// carrying the status, the base64 payload and the time `ts`.
pub open spec fn presence_stanza(ks: u64, show: Seq<char>, b64: Seq<char>, ts: u64) -> Seq<char> {
    "<presence><games><keystone><st>chat</st><s.t>"@ + dec_text(ks as nat)
        + "</s.t><m/><s.p>keystone</s.p><pty/></keystone><valorant><s.r>PC</s.r><st>"@ + show
        + "</st><p>"@ + b64 + "</p><s.p>valorant</s.p><s.t>"@ + dec_text(ts as nat)
        + "</s.t><pty/></valorant></games><show>"@ + show + "</show><status/></presence>"@
}

/// The wire text of a payload: pretty-printed, re-indented with tabs, base64-encoded.
pub open spec fn payload_wire(v: serde_json::Value) -> Seq<char> {
    b64_encoded(utf8_of(tab_indented(json_pretty(v))))
}

/// The status token to broadcast: the one supplied, else `chat`.
pub open spec fn show_or_chat(o: PresenceOverrides) -> Seq<char> {
    match o.show {
        Some(s) => s@,
        None => "chat"@,
    }
}

/// The keystone timestamp to broadcast: the captured one, else five seconds before `now`.
pub open spec fn keystone_or_recent(captured: Option<u64>, now: u64) -> u64 {
    match captured {
        Some(t) => t,
        None => if now >= 5000 {
            (now - 5000) as u64
        } else {
            0
        },
    }
}

/// Builds the crafted presence stanza.
pub fn build_presence_xml(ks: u64, show: &str, b64: &str, ts: u64) -> (r: String)
    ensures
        r@ == presence_stanza(ks, show@, b64@, ts),
{
    let k = u64_text(ks);
    let t = u64_text(ts);
    "<presence><games><keystone><st>chat</st><s.t>".to_string().concat(k.as_str()).concat(
        "</s.t><m/><s.p>keystone</s.p><pty/></keystone><valorant><s.r>PC</s.r><st>",
    ).concat(show).concat("</st><p>").concat(b64).concat("</p><s.p>valorant</s.p><s.t>").concat(
        t.as_str(),
    ).concat("</s.t><pty/></valorant></games><show>").concat(show).concat(
        "</show><status/></presence>",
    )
}

/// The wire text of a payload.
pub fn encode_payload(v: &serde_json::Value) -> (r: String)
    ensures
        r@ == payload_wire(*v),
{
    let pretty = json_to_pretty(v);
    let tabbed = format_json_tabs(pretty.as_str());
    encode_standard(tabbed.as_str().as_bytes())
}

/// A crafted presence ready to be written, with the summary to log once it is.
pub struct FakePresence {
    pub xml: String,
    pub summary: String,
}

/// The text of the template's competitive tier, as JSON (`null` when absent).
pub open spec fn tier_text(v: serde_json::Value) -> Seq<char> {
    match member(v, "playerPresenceData"@) {
        Some(p) => match member(p, "competitiveTier"@) {
            Some(t) => json_text(t),
            None => "null"@,
        },
        None => "null"@,
    }
}

/// The log summary of a crafted presence.
pub open spec fn fake_summary(show: Seq<char>, tier: Seq<char>, xml_bytes: nat) -> Seq<char> {
    "[FAKE PRESENCE] show="@ + show + " tier="@ + tier + " xml_len="@ + dec_text(xml_bytes)
}

fn tier_of(v: &serde_json::Value) -> (r: String)
    ensures
        r@ == tier_text(*v),
{
    match json_get(v, "playerPresenceData") {
        Some(p) => match json_get(p, "competitiveTier") {
            Some(t) => json_compact(t),
            None => "null".to_string(),
        },
        None => "null".to_string(),
    }
}

impl<S> XmppState<S> {
    /// Crafts a presence stanza from the captured template and the overrides in
    /// `presence_json`, stamped `now`; the session is not changed. Without a session and a
    /// captured template it fails with `NoTemplate`; parameters that are not JSON fail with
    /// `BadJson`.
    pub fn xmpp_send_fake_presence(&self, presence_json: &str, now: u64) -> (r: Result<
        FakePresence,
        XmppError,
    >)
        ensures
            !self.connected || self.real_valorant_data is None ==> r == Err::<
                FakePresence,
                XmppError,
            >(XmppError::NoTemplate),
            self.connected && self.real_valorant_data is Some ==> match r {
                Ok(p) => json_parsed(utf8_of(presence_json@)) matches Some(params) && exists|
                    o: PresenceOverrides,
                |
                    #![trigger overrides_of(o, params)]
                    {
                        let merged = merged_payload(self.real_valorant_data->0, o);
                        &&& overrides_of(o, params)
                        &&& p.xml@ == presence_stanza(
                            keystone_or_recent(self.real_keystone_ts, now),
                            show_or_chat(o),
                            payload_wire(merged),
                            now,
                        )
                        &&& p.summary@ == fake_summary(
                            show_or_chat(o),
                            tier_text(merged),
                            (utf8_of(p.xml@).len() as usize) as nat,
                        )
                    },
                Err(e) => e == XmppError::BadJson && json_parsed(utf8_of(presence_json@)) is None,
            },
    {
        if !self.connected {
            return Err(XmppError::NoTemplate);
        }
        let template = match &self.real_valorant_data {
            Some(t) => t.clone(),
            None => return Err(XmppError::NoTemplate),
        };
        let o = match overrides_from_json(presence_json) {
            Ok(o) => o,
            Err(e) => return Err(e),
        };
        let show = match &o.show {
            Some(s) => s.clone(),
            None => "chat".to_string(),
        };
        let ks = match self.real_keystone_ts {
            Some(t) => t,
            None => if now >= 5000 {
                now - 5000
            } else {
                0
            },
        };
        let merged = merge_overrides(&template, &o);
        let b64 = encode_payload(&merged);
        let xml = build_presence_xml(ks, show.as_str(), b64.as_str(), now);
        let n = u64_text(xml.as_str().len() as u64);
        let tier = tier_of(&merged);
        let summary = "[FAKE PRESENCE] show=".to_string().concat(show.as_str()).concat(" tier=").concat(
            tier.as_str(),
        ).concat(" xml_len=").concat(n.as_str());
        Ok(FakePresence { xml, summary })
    }

    /// Logs a crafted presence once it has been written: its summary, then the whole stanza.
    pub fn record_fake_presence(&mut self, p: &FakePresence, now: u64)
        ensures
            log_view(final(self).logs@) == log_appended(
                log_appended(log_view(old(self).logs@), record("sent"@, p.summary@, now)),
                record("debug"@, p.xml@, now),
            ),
            final(self).connected == old(self).connected,
            final(self).stream == old(self).stream,
            final(self).friends == old(self).friends,
            final(self).puuid == old(self).puuid,
            final(self).jid == old(self).jid,
            final(self).xmpp_region == old(self).xmpp_region,
            final(self).connected_at == old(self).connected_at,
            final(self).real_valorant_data == old(self).real_valorant_data,
            final(self).real_keystone_ts == old(self).real_keystone_ts,
    {
        self.add_log("sent", p.summary.as_str(), now);
        self.add_log("debug", p.xml.as_str(), now);
    }
}

/// The party size overrides land both at the top level and in the party-data object, while
/// every other member of the captured payload stays exactly as captured. With
/// `merge_overrides`'s `merge_result`, the party object of the result has exactly the captured
/// party members plus the two sizes.
pub proof fn lemma_party_size_mirrored(
    m: Map<Seq<char>, serde_json::Value>,
    o: PresenceOverrides,
    size: u64,
    max: u64,
)
    requires
        m.contains_key("partyPresenceData"@),
        json_members(m["partyPresenceData"@]) is Some,
        o.party_size == Some(size),
        o.max_party_size == Some(max),
        o.competitive_tier is None,
        o.account_level is None,
        o.leaderboard_position is None,
        o.player_card_id is None,
        o.player_title_id is None,
        o.session_loop_state is None,
        o.queue_id is None,
        o.party_owner_match_score_ally_team is None,
        o.party_owner_match_score_enemy_team is None,
        o.premier_division is None,
        o.premier_tag is None,
        o.roster_name is None,
    ensures
        ({
            let r = merged_members(m, o);
            let party = json_members(m["partyPresenceData"@])->0;
            let new_party = party.insert("partySize"@, json_number(size)).insert(
                "maxPartySize"@,
                json_number(max),
            );
            &&& r["partySize"@] == json_number(size)
            &&& r["maxPartySize"@] == json_number(max)
            &&& r["partyPresenceData"@] == json_object(new_party)
            &&& nested_after(m, "partyPresenceData"@, party_ups(o)) == Some(new_party)
            &&& r.dom() == m.dom().insert("partySize"@).insert("maxPartySize"@)
            &&& forall|k: Seq<char>|
                #![trigger m[k]]
                m.contains_key(k) && k != "partySize"@ && k != "maxPartySize"@ && k
                    != "partyPresenceData"@ ==> r[k] == m[k]
        }),
{
    let pp = "partyPresenceData"@;
    let party = json_members(m[pp])->0;
    let ps = ("partySize"@, json_number(size));
    let mx = ("maxPartySize"@, json_number(max));
    reveal_strlit("partyPresenceData");
    reveal_strlit("partySize");
    reveal_strlit("maxPartySize");
    assert(player_ups(o) =~= Seq::<(Seq<char>, serde_json::Value)>::empty());
    assert(match_ups(o) =~= Seq::<(Seq<char>, serde_json::Value)>::empty());
    assert(premier_ups(o) =~= Seq::<(Seq<char>, serde_json::Value)>::empty());
    assert(party_ups(o) =~= seq![ps, mx]);
    assert(top_ups(o) =~= seq![ps, mx]);
    assert(seq![ps, mx].drop_last() =~= seq![ps]);
    assert(seq![ps].drop_last() =~= Seq::<(Seq<char>, serde_json::Value)>::empty());
    assert(with_match(m, o) == m);
    let m3 = m.insert("partySize"@, json_number(size)).insert("maxPartySize"@, json_number(max));
    let u = seq![ps, mx];
    assert(inserted_all(m, Seq::empty()) == m);
    assert(inserted_all(m, seq![ps]) == m.insert(ps.0, ps.1));
    assert(inserted_all(m, u) == m3);
    assert(inserted_all(party, Seq::empty()) == party);
    assert(inserted_all(party, seq![ps]) == party.insert(ps.0, ps.1));
    assert(inserted_all(party, u) == party.insert(ps.0, ps.1).insert(mx.0, mx.1));
    assert(inserted_all(m, top_ups(o)) == m3);
    assert(inserted_all(party, party_ups(o)) == party.insert("partySize"@, json_number(size)).insert(
        "maxPartySize"@,
        json_number(max),
    ));
    assert(pp[5] != "partySize"@[5]);
    assert(pp[5] != "maxPartySize"@[5]);
    assert(pp != "partySize"@ && pp != "maxPartySize"@);
    assert(m3[pp] == m[pp]);
    let r = merged_members(m, o);
    assert(r == m3.insert(pp, json_object(inserted_all(party, party_ups(o)))));
    assert(r.dom() =~= m.dom().insert("partySize"@).insert("maxPartySize"@));
}

} // verus!
