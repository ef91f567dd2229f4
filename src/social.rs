//! The party as shown to the host: members with their names, and the party's settings.
use vstd::prelude::*;
use crate::json::{
    bool_or_false, json_as_array, json_as_str, json_get, json_items, json_parsed, json_str,
    member, member_text, parse_json, text_or_empty, u64_or_zero,
};
use crate::riot::player_card_url;
use crate::stats::member2;
use crate::text::utf8_of;

verus! {

/// The display name and tag that the last complete name-service entry for `subject` gives.
pub open spec fn name_for(entries: Seq<serde_json::Value>, subject: Seq<char>) -> Option<(Seq<char>, Seq<char>)>
    decreases entries.len(),
{
    if entries.len() == 0 {
        None
    } else {
        let e = entries.last();
        let complete = (member(e, "Subject"@) matches Some(s) && json_str(s) == Some(subject))
            && (member(e, "GameName"@) matches Some(n) && json_str(n) is Some)
            && (member(e, "TagLine"@) matches Some(t) && json_str(t) is Some);
        if complete {
            Some((text_or_empty(e, "GameName"@), text_or_empty(e, "TagLine"@)))
        } else {
            name_for(entries.drop_last(), subject)
        }
    }
}

/// One member of the party.
pub struct PartyMember {
    pub puuid: String,
    pub game_name: String,
    pub game_tag: String,
    pub player_card_url: String,
    pub account_level: u64,
    pub incognito: bool,
    pub hide_account_level: bool,
    pub competitive_tier: u64,
    pub is_owner: bool,
    pub is_ready: bool,
}

/// What a member entry holds, with names from the name service (`Unknown`/`0000` when none).
pub open spec fn member_fits(p: PartyMember, m: serde_json::Value, names: Seq<serde_json::Value>) -> bool {
    let identity = match member(m, "PlayerIdentity"@) {
        Some(i) => i,
        None => m,
    };
    let has_identity = member(m, "PlayerIdentity"@) is Some;
    let card = if has_identity { text_or_empty(identity, "PlayerCardID"@) } else { Seq::empty() };
    let subject = text_or_empty(m, "Subject"@);
    &&& p.puuid@ == subject
    &&& (p.game_name@, p.game_tag@) == match name_for(names, subject) {
        Some(nt) => nt,
        None => ("Unknown"@, "0000"@),
    }
    &&& p.player_card_url@ == if card.len() > 0 {
        "https://media.valorant-api.com/playercards/"@ + card + "/smallart.png"@
    } else {
        Seq::empty()
    }
    &&& p.account_level == if has_identity { u64_or_zero(identity, "AccountLevel"@) } else { 0 }
    &&& p.incognito == (has_identity && bool_or_false(identity, "Incognito"@))
    &&& p.hide_account_level == (has_identity && bool_or_false(identity, "HideAccountLevel"@))
    &&& p.competitive_tier == u64_or_zero(m, "CompetitiveTier"@)
    &&& p.is_owner == bool_or_false(m, "IsOwner"@)
    &&& p.is_ready == bool_or_false(m, "IsReady"@)
}

fn text_present(v: &serde_json::Value, key: &str) -> (r: Option<String>)
    ensures
        match r {
            Some(t) => member(*v, key@) matches Some(x) && json_str(x) == Some(t@),
            None => !(member(*v, key@) matches Some(x) && json_str(x) is Some),
        },
{
    match json_get(v, key) {
        Some(x) => json_as_str(x),
        None => None,
    }
}

/// The display name and tag of `subject` in name-service entries.
fn lookup_name(names: &Vec<serde_json::Value>, subject: &String) -> (r: Option<(String, String)>)
    ensures
        match r {
            Some((n, t)) => name_for(names@, subject@) == Some((n@, t@)),
            None => name_for(names@, subject@) is None,
        },
{
    let mut i = names.len();
    assert(names@.take(i as int) =~= names@);
    while i > 0
        invariant
            i <= names.len(),
            name_for(names@, subject@) == name_for(names@.take(i as int), subject@),
        decreases i,
    {
        let e = &names[i - 1];
        let ghost pre = names@.take(i as int);
        assert(pre.drop_last() =~= names@.take(i - 1));
        assert(pre.last() == names@[i - 1]);
        let s = text_present(e, "Subject");
        let n = text_present(e, "GameName");
        let t = text_present(e, "TagLine");
        match (s, n, t) {
            (Some(s), Some(n), Some(t)) => {
                if s == *subject {
                    return Some((n, t));
                }
            },
            _ => {},
        }
        i -= 1;
    }
    assert(names@.take(0) =~= Seq::<serde_json::Value>::empty());
    None
}

/// Reads one member entry.
pub fn read_member(m: &serde_json::Value, names: &Vec<serde_json::Value>) -> (r: PartyMember)
    ensures
        member_fits(r, *m, names@),
{
    let subject = member_text(m, "Subject");
    let (game_name, game_tag) = match lookup_name(names, &subject) {
        Some(nt) => nt,
        None => ("Unknown".to_string(), "0000".to_string()),
    };
    let (card, level, incognito, hide) = match json_get(m, "PlayerIdentity") {
        Some(i) => {
            let inc = match json_get(i, "Incognito") {
                Some(x) => crate::json::json_as_bool(x),
                None => None,
            };
            let hide = match json_get(i, "HideAccountLevel") {
                Some(x) => crate::json::json_as_bool(x),
                None => None,
            };
            let level = match json_get(i, "AccountLevel") {
                Some(x) => match crate::json::json_as_u64(x) {
                    Some(n) => n,
                    None => 0,
                },
                None => 0,
            };
            (member_text(i, "PlayerCardID"), level, inc == Some(true), hide == Some(true))
        },
        None => (String::new(), 0, false, false),
    };
    let url = if card.unicode_len() > 0 {
        player_card_url(card.as_str())
    } else {
        String::new()
    };
    let tier = match json_get(m, "CompetitiveTier") {
        Some(x) => match crate::json::json_as_u64(x) {
            Some(n) => n,
            None => 0,
        },
        None => 0,
    };
    let owner = match json_get(m, "IsOwner") {
        Some(x) => crate::json::json_as_bool(x) == Some(true),
        None => false,
    };
    let ready = match json_get(m, "IsReady") {
        Some(x) => crate::json::json_as_bool(x) == Some(true),
        None => false,
    };
    PartyMember {
        puuid: subject,
        game_name,
        game_tag,
        player_card_url: url,
        account_level: level,
        incognito,
        hide_account_level: hide,
        competitive_tier: tier,
        is_owner: owner,
        is_ready: ready,
    }
}

/// The subjects of the party's members, skipping entries without one.
pub open spec fn subjects(members: Seq<serde_json::Value>) -> Seq<Seq<char>>
    decreases members.len(),
{
    if members.len() == 0 {
        Seq::empty()
    } else {
        let rest = subjects(members.drop_last());
        match member(members.last(), "Subject"@) {
            Some(s) => match json_str(s) {
                Some(t) => rest.push(t),
                None => rest,
            },
            None => rest,
        }
    }
}

/// The party's members, or why there are none: the party answer is not JSON, or has no
/// `Members` array.
pub fn party_members(party_raw: &str) -> (r: Result<Vec<serde_json::Value>, String>)
    ensures
        match r {
            Ok(ms) => json_parsed(utf8_of(party_raw@)) matches Some(v) && member(v, "Members"@)
                matches Some(a) && json_items(a) == Some(ms@),
            Err(_) => !(json_parsed(utf8_of(party_raw@)) matches Some(v) && member(v, "Members"@)
                matches Some(a) && json_items(a) is Some),
        },
{
    let v = match parse_json(party_raw.as_bytes()) {
        Some(v) => v,
        None => return Err("Parse party: invalid JSON".to_string()),
    };
    match json_get(&v, "Members") {
        Some(a) => match json_as_array(a) {
            Some(ms) => Ok(ms),
            None => Err("No Members array".to_string()),
        },
        None => Err("No Members array".to_string()),
    }
}

/// The subjects of the party's members, for the name-service request.
pub fn member_subjects(members: &Vec<serde_json::Value>) -> (r: Vec<String>)
    ensures
        r@.map_values(|s: String| s@) == subjects(members@),
{
    let mut out: Vec<String> = Vec::new();
    let mut i: usize = 0;
    while i < members.len()
        invariant
            i <= members.len(),
            out@.map_values(|s: String| s@) == subjects(members@.take(i as int)),
        decreases members.len() - i,
    {
        assert(members@.take(i + 1).drop_last() =~= members@.take(i as int));
        if let Some(t) = text_present(&members[i], "Subject") {
            let ghost before = out@;
            out.push(t);
            assert(out@.map_values(|s: String| s@) =~= before.map_values(|s: String| s@).push(
                out@.last()@,
            ));
        }
        i += 1;
    }
    assert(members@.take(members.len() as int) =~= members@);
    out
}

/// Reads every member entry, with names from the name-service answer (none if it is not a
/// JSON array).
pub fn read_members(members: &Vec<serde_json::Value>, names_raw: Option<&str>) -> (r: Vec<PartyMember>)
    ensures
        r.len() == members.len(),
        forall|i: int| 0 <= i < r.len() ==> member_fits(
            #[trigger] r[i],
            members@[i],
            match names_raw {
                Some(t) => match json_parsed(utf8_of(t@)) {
                    Some(v) => match json_items(v) {
                        Some(es) => es,
                        None => Seq::empty(),
                    },
                    None => Seq::empty(),
                },
                None => Seq::empty(),
            },
        ),
{
    let names: Vec<serde_json::Value> = match names_raw {
        Some(t) => match parse_json(t.as_bytes()) {
            Some(v) => match json_as_array(&v) {
                Some(es) => es,
                None => Vec::new(),
            },
            None => Vec::new(),
        },
        None => Vec::new(),
    };
    let mut out: Vec<PartyMember> = Vec::new();
    let mut i: usize = 0;
    while i < members.len()
        invariant
            i <= members.len(),
            out.len() == i,
            forall|j: int| 0 <= j < i ==> member_fits(#[trigger] out[j], members@[j], names@),
        decreases members.len() - i,
    {
        out.push(read_member(&members[i], &names));
        i += 1;
    }
    assert(names@ =~= match names_raw {
        Some(t) => match json_parsed(utf8_of(t@)) {
            Some(v) => match json_items(v) {
                Some(es) => es,
                None => Seq::<serde_json::Value>::empty(),
            },
            None => Seq::<serde_json::Value>::empty(),
        },
        None => Seq::<serde_json::Value>::empty(),
    });
    out
}

/// The party's state and custom-game settings.
pub struct PartySettings {
    pub state: String,
    pub accessibility: String,
    pub invite_code: String,
    pub queue_id: String,
    pub custom_map: String,
    pub custom_mode: String,
    pub custom_pod: String,
    pub allow_cheats: bool,
    pub play_out_all_rounds: bool,
    pub skip_match_history: bool,
    pub tournament_mode: bool,
    pub overtime_win_by_two: bool,
}

/// `v[key]` as text, or empty, when `v` is present.
pub open spec fn opt_text(v: Option<serde_json::Value>, key: Seq<char>) -> Seq<char> {
    match v {
        Some(x) => text_or_empty(x, key),
        None => Seq::empty(),
    }
}

/// A game rule, written as the text `"true"` or `"false"`; `default` when absent.
pub open spec fn rule(rules: Option<serde_json::Value>, key: Seq<char>, default: bool) -> bool {
    match rules {
        Some(r) => match member(r, key) {
            Some(x) => match json_str(x) {
                Some(t) => t == "true"@,
                None => default,
            },
            None => default,
        },
        None => default,
    }
}

/// The settings object of the party's custom game.
pub open spec fn settings_of(v: serde_json::Value) -> Option<serde_json::Value> {
    member2(v, "CustomGameData"@, "Settings"@)
}

/// The game rules of the party's custom game.
pub open spec fn rules_of(v: serde_json::Value) -> Option<serde_json::Value> {
    match settings_of(v) {
        Some(s) => member(s, "GameRules"@),
        None => None,
    }
}

fn opt_text_of(v: Option<&serde_json::Value>, key: &str) -> (r: String)
    ensures
        r@ == opt_text(
            match v {
                Some(x) => Some(*x),
                None => None,
            },
            key@,
        ),
{
    match v {
        Some(x) => member_text(x, key),
        None => String::new(),
    }
}

fn rule_of(rules: Option<&serde_json::Value>, key: &str, default: bool) -> (r: bool)
    ensures
        r == rule(
            match rules {
                Some(x) => Some(*x),
                None => None,
            },
            key@,
            default,
        ),
{
    match rules {
        Some(rs) => match text_present(rs, key) {
            Some(t) => t == "true".to_string(),
            None => default,
        },
        None => default,
    }
}

/// Reads the party's state and custom-game settings; the rules default to off, but for
/// overtime win-by-two, which defaults to on.
pub fn party_settings(party_raw: &str) -> (r: Result<PartySettings, String>)
    ensures
        match r {
            Ok(p) => json_parsed(utf8_of(party_raw@)) matches Some(v) && {
                &&& p.state@ == text_or_empty(v, "State"@)
                &&& p.accessibility@ == text_or_empty(v, "Accessibility"@)
                &&& p.invite_code@ == text_or_empty(v, "InviteCode"@)
                &&& p.queue_id@ == opt_text(member(v, "MatchmakingData"@), "QueueID"@)
                &&& p.custom_map@ == opt_text(settings_of(v), "Map"@)
                &&& p.custom_mode@ == opt_text(settings_of(v), "Mode"@)
                &&& p.custom_pod@ == opt_text(settings_of(v), "GamePod"@)
                &&& p.allow_cheats == rule(rules_of(v), "AllowGameModifiers"@, false)
                &&& p.play_out_all_rounds == rule(rules_of(v), "PlayOutAllRounds"@, false)
                &&& p.skip_match_history == rule(rules_of(v), "SkipMatchHistory"@, false)
                &&& p.tournament_mode == rule(rules_of(v), "TournamentMode"@, false)
                &&& p.overtime_win_by_two == rule(rules_of(v), "IsOvertimeWinByTwo"@, true)
            },
            Err(_) => json_parsed(utf8_of(party_raw@)) is None,
        },
{
    let v = match parse_json(party_raw.as_bytes()) {
        Some(v) => v,
        None => return Err("Parse party: invalid JSON".to_string()),
    };
    let settings = match json_get(&v, "CustomGameData") {
        Some(c) => json_get(c, "Settings"),
        None => None,
    };
    let rules = match settings {
        Some(s) => json_get(s, "GameRules"),
        None => None,
    };
    Ok(
        PartySettings {
            state: member_text(&v, "State"),
            accessibility: member_text(&v, "Accessibility"),
            invite_code: member_text(&v, "InviteCode"),
            queue_id: opt_text_of(json_get(&v, "MatchmakingData"), "QueueID"),
            custom_map: opt_text_of(settings, "Map"),
            custom_mode: opt_text_of(settings, "Mode"),
            custom_pod: opt_text_of(settings, "GamePod"),
            allow_cheats: rule_of(rules, "AllowGameModifiers", false),
            play_out_all_rounds: rule_of(rules, "PlayOutAllRounds", false),
            skip_match_history: rule_of(rules, "SkipMatchHistory", false),
            tournament_mode: rule_of(rules, "TournamentMode", false),
            overtime_win_by_two: rule_of(rules, "IsOvertimeWinByTwo", true),
        },
    )
}

} // verus!
