//! Game-service helpers: the current party's id, and the asset paths of custom-game maps and
//! modes.
use vstd::prelude::*;
use crate::json::{
    json_as_array, json_as_str, json_get, json_items, json_parsed, json_str, member,
    member_text, parse_json, text_or_empty, u64_or_zero,
};
use crate::codec::{lower_of, lowercase};
use crate::text::{chars_of, find_chars, find_from, matches_at, occurs_at, slice_text, utf8_of};

verus! {

/// The party id in a party-player answer: `CurrentPartyID`, when it is non-empty text.
pub open spec fn party_id_in(raw: Seq<char>) -> Option<Seq<char>> {
    match json_parsed(utf8_of(raw)) {
        Some(v) => match member(v, "CurrentPartyID"@) {
            Some(x) => match json_str(x) {
                Some(t) => if t.len() > 0 {
                    Some(t)
                } else {
                    None
                },
                None => None,
            },
            None => None,
        },
        None => None,
    }
}

/// The id of the party a player is in, from the party-player answer; `missing` is the error
/// when there is none.
pub fn party_id_from(raw: &str, missing: &str) -> (r: Result<String, String>)
    ensures
        match r {
            Ok(id) => party_id_in(raw@) == Some(id@),
            Err(e) => party_id_in(raw@) is None && (json_parsed(utf8_of(raw@)) is Some ==> e@
                == missing@),
        },
{
    let v = match parse_json(raw.as_bytes()) {
        Some(v) => v,
        None => return Err("Parse: invalid JSON".to_string()),
    };
    let id = match json_get(&v, "CurrentPartyID") {
        Some(x) => json_as_str(x),
        None => None,
    };
    match id {
        Some(t) => if t.unicode_len() > 0 {
            Ok(t)
        } else {
            Err(missing.to_string())
        },
        None => Err(missing.to_string()),
    }
}

/// `s` begins with `p`.
pub open spec fn starts_with(s: Seq<char>, p: Seq<char>) -> bool {
    occurs_at(s, p, 0)
}

/// `s` with every occurrence of `pat`, scanned left to right without overlap, removed.
pub open spec fn removed_from(s: Seq<char>, pat: Seq<char>, from: int) -> Seq<char>
    decreases s.len() + 1 - from,
{
    if pat.len() == 0 || from < 0 || from > s.len() {
        s.subrange(from, s.len() as int)
    } else {
        match find_from(s, pat, from) {
            Some(i) => if from <= i && i + pat.len() <= s.len() {
                s.subrange(from, i) + removed_from(s, pat, i + pat.len())
            } else {
                Seq::empty()
            },
            None => s.subrange(from, s.len() as int),
        }
    }
}

/// `s` with every occurrence of a non-empty `pat` removed, as `str::replace(pat, "")` does.
pub open spec fn removed(s: Seq<char>, pat: Seq<char>) -> Seq<char> {
    removed_from(s, pat, 0)
}

/// Removes every occurrence of a non-empty `pat` from `s`.
pub fn remove_all(s: &str, pat: &str) -> (r: String)
    requires
        pat@.len() > 0,
    ensures
        r@ == removed(s@, pat@),
{
    let cs = chars_of(s);
    let ps = chars_of(pat);
    let mut out = String::new();
    let mut from: usize = 0;
    loop
        invariant
            cs@ == s@,
            ps@ == pat@,
            ps@.len() > 0,
            from <= cs.len(),
            removed(s@, pat@) == out@ + removed_from(s@, pat@, from as int),
        decreases cs.len() - from,
    {
        match find_chars(&cs, &ps, from) {
            Some(i) => {
                let piece = slice_text(s, from, i);
                let ghost before = out@;
                out = out.concat(piece.as_str());
                assert(before + (piece@ + removed_from(s@, pat@, i + ps.len())) =~= out@
                    + removed_from(s@, pat@, i + ps.len()));
                from = i + ps.len();
            },
            None => {
                let rest = slice_text(s, from, cs.len());
                return out.concat(rest.as_str());
            },
        }
    }
}

/// The full asset path of a known short map name.
pub open spec fn known_map(name: Seq<char>) -> Option<Seq<char>> {
    if name == "Skirmish_A"@ {
        Some("/Game/Maps/Duel/Duel_1/Skirmish_A"@)
    } else if name == "Skirmish_B"@ {
        Some("/Game/Maps/Duel/Duel_2/Skirmish_B"@)
    } else if name == "Skirmish_C"@ {
        Some("/Game/Maps/Duel/Duel_3/Skirmish_C"@)
    } else if name == "Skirmish_D"@ {
        Some("/Game/Maps/Duel/Duel_4/Skirmish_D"@)
    } else {
        None
    }
}

/// The asset path of a custom-game map: kept if already a path, else looked up, else built
/// from the name (under `HURM/` for names starting `HURM_`).
pub open spec fn map_path(name: Seq<char>) -> Seq<char> {
    if starts_with(name, "/Game/"@) {
        name
    } else {
        match known_map(name) {
            Some(p) => p,
            None => if starts_with(name, "HURM_"@) {
                "/Game/Maps/HURM/"@ + name + "/"@ + name
            } else {
                "/Game/Maps/"@ + name + "/"@ + name
            },
        }
    }
}

/// The full asset path of a known short mode name.
pub open spec fn known_mode(name: Seq<char>) -> Option<Seq<char>> {
    if name == "BombGameMode"@ {
        Some("/Game/GameModes/Bomb/BombGameMode.BombGameMode_C"@)
    } else if name == "DeathmatchGameMode"@ {
        Some("/Game/GameModes/Deathmatch/DeathmatchGameMode.DeathmatchGameMode_C"@)
    } else if name == "GunGameTeamsGameMode"@ {
        Some("/Game/GameModes/GunGame/GunGameTeamsGameMode.GunGameTeamsGameMode_C"@)
    } else if name == "QuickBombGameMode"@ {
        Some("/Game/GameModes/QuickBomb/QuickBombGameMode.QuickBombGameMode_C"@)
    } else if name == "OneForAll_GameMode"@ {
        Some("/Game/GameModes/OneForAll/OneForAll_GameMode.OneForAll_GameMode_C"@)
    } else if name == "SnowballGameMode"@ {
        Some("/Game/GameModes/Snowball/SnowballGameMode.SnowballGameMode_C"@)
    } else if name == "NewMapGameMode"@ {
        Some("/Game/GameModes/NewMap/NewMapGameMode.NewMapGameMode_C"@)
    } else if name == "HURM_GameMode"@ {
        Some("/Game/GameModes/HURM/HURM_GameMode.HURM_GameMode_C"@)
    } else if name == "SkirmishGameMode"@ {
        Some("/Game/GameModes/Skirmish/SkirmishGameMode.SkirmishGameMode_C"@)
    } else if name == "AROS_GameMode"@ {
        Some("/Game/GameModes/AROS/AROS_GameMode.AROS_GameMode_C"@)
    } else if name == "Swiftplay_EoRCredits_GameMode"@ || name == "SwiftPlayGameMode"@ {
        Some(
            "/Game/GameModes/_Development/Swiftplay_EndOfRoundCredits/Swiftplay_EoRCredits_GameMode.Swiftplay_EoRCredits_GameMode_C"@,
        )
    } else {
        None
    }
}

/// The asset path of a custom-game mode: kept if already a path, else looked up, else built
/// from the name, its folder being the name without `_GameMode` and `GameMode`.
pub open spec fn mode_path(name: Seq<char>) -> Seq<char> {
    if starts_with(name, "/Game/"@) {
        name
    } else {
        match known_mode(name) {
            Some(p) => p,
            None => {
                let folder = removed(removed(name, "_GameMode"@), "GameMode"@);
                "/Game/GameModes/"@ + folder + "/"@ + name + "."@ + name + "_C"@
            },
        }
    }
}

fn begins(s: &str, p: &str) -> (r: bool)
    ensures
        r == starts_with(s@, p@),
{
    matches_at(&chars_of(s), &chars_of(p), 0)
}

fn same(a: &String, b: &str) -> (r: bool)
    ensures
        r == (a@ == b@),
{
    *a == b.to_string()
}

fn lookup_map(name: &String) -> (r: Option<String>)
    ensures
        match r {
            Some(p) => known_map(name@) == Some(p@),
            None => known_map(name@) is None,
        },
{
    if same(name, "Skirmish_A") {
        Some("/Game/Maps/Duel/Duel_1/Skirmish_A".to_string())
    } else if same(name, "Skirmish_B") {
        Some("/Game/Maps/Duel/Duel_2/Skirmish_B".to_string())
    } else if same(name, "Skirmish_C") {
        Some("/Game/Maps/Duel/Duel_3/Skirmish_C".to_string())
    } else if same(name, "Skirmish_D") {
        Some("/Game/Maps/Duel/Duel_4/Skirmish_D".to_string())
    } else {
        None
    }
}

/// The asset path of a custom-game map name.
pub fn custom_map_path(name: &str) -> (r: String)
    ensures
        r@ == map_path(name@),
{
    if begins(name, "/Game/") {
        return name.to_string();
    }
    let n = name.to_string();
    if let Some(p) = lookup_map(&n) {
        return p;
    }
    if begins(name, "HURM_") {
        "/Game/Maps/HURM/".to_string().concat(name).concat("/").concat(name)
    } else {
        "/Game/Maps/".to_string().concat(name).concat("/").concat(name)
    }
}

fn lookup_mode(name: &String) -> (r: Option<String>)
    ensures
        match r {
            Some(p) => known_mode(name@) == Some(p@),
            None => known_mode(name@) is None,
        },
{
    if same(name, "BombGameMode") {
        Some("/Game/GameModes/Bomb/BombGameMode.BombGameMode_C".to_string())
    } else if same(name, "DeathmatchGameMode") {
        Some("/Game/GameModes/Deathmatch/DeathmatchGameMode.DeathmatchGameMode_C".to_string())
    } else if same(name, "GunGameTeamsGameMode") {
        Some("/Game/GameModes/GunGame/GunGameTeamsGameMode.GunGameTeamsGameMode_C".to_string())
    } else if same(name, "QuickBombGameMode") {
        Some("/Game/GameModes/QuickBomb/QuickBombGameMode.QuickBombGameMode_C".to_string())
    } else if same(name, "OneForAll_GameMode") {
        Some("/Game/GameModes/OneForAll/OneForAll_GameMode.OneForAll_GameMode_C".to_string())
    } else if same(name, "SnowballGameMode") {
        Some("/Game/GameModes/Snowball/SnowballGameMode.SnowballGameMode_C".to_string())
    } else if same(name, "NewMapGameMode") {
        Some("/Game/GameModes/NewMap/NewMapGameMode.NewMapGameMode_C".to_string())
    } else if same(name, "HURM_GameMode") {
        Some("/Game/GameModes/HURM/HURM_GameMode.HURM_GameMode_C".to_string())
    } else if same(name, "SkirmishGameMode") {
        Some("/Game/GameModes/Skirmish/SkirmishGameMode.SkirmishGameMode_C".to_string())
    } else if same(name, "AROS_GameMode") {
        Some("/Game/GameModes/AROS/AROS_GameMode.AROS_GameMode_C".to_string())
    } else if same(name, "Swiftplay_EoRCredits_GameMode") || same(name, "SwiftPlayGameMode") {
        Some(
            "/Game/GameModes/_Development/Swiftplay_EndOfRoundCredits/Swiftplay_EoRCredits_GameMode.Swiftplay_EoRCredits_GameMode_C".to_string(),
        )
    } else {
        None
    }
}

/// The asset path of a custom-game mode name.
pub fn custom_mode_path(name: &str) -> (r: String)
    ensures
        r@ == mode_path(name@),
{
    if begins(name, "/Game/") {
        return name.to_string();
    }
    let n = name.to_string();
    if let Some(p) = lookup_mode(&n) {
        return p;
    }
    proof {
        reveal_strlit("_GameMode");
        reveal_strlit("GameMode");
    }
    let f1 = remove_all(name, "_GameMode");
    let folder = remove_all(f1.as_str(), "GameMode");
    "/Game/GameModes/".to_string().concat(folder.as_str()).concat("/").concat(name).concat(".").concat(
        name,
    ).concat("_C")
}

/// The non-empty `MatchID` of a game-phase answer: the match the player is in.
pub open spec fn match_id_in(raw: Seq<char>) -> Option<Seq<char>> {
    match json_parsed(utf8_of(raw)) {
        Some(v) => match member(v, "MatchID"@) {
            Some(x) => match json_str(x) {
                Some(t) => if t.len() > 0 {
                    Some(t)
                } else {
                    None
                },
                None => None,
            },
            None => None,
        },
        None => None,
    }
}

/// The match the player is in, from a pregame or in-game player answer.
pub fn current_match_id(raw: &str) -> (r: Option<String>)
    ensures
        match r {
            Some(id) => match_id_in(raw@) == Some(id@),
            None => match_id_in(raw@) is None,
        },
{
    let v = match parse_json(raw.as_bytes()) {
        Some(v) => v,
        None => return None,
    };
    let id = match json_get(&v, "MatchID") {
        Some(x) => json_as_str(x),
        None => None,
    };
    match id {
        Some(t) => if t.unicode_len() > 0 {
            Some(t)
        } else {
            None
        },
        None => None,
    }
}

/// The lowercased item ids of entitlement entries that have one, in order.
pub open spec fn owned_ids(items: Seq<serde_json::Value>) -> Seq<Seq<char>>
    decreases items.len(),
{
    if items.len() == 0 {
        Seq::empty()
    } else {
        let rest = owned_ids(items.drop_last());
        match member(items.last(), "ItemID"@) {
            Some(x) => match json_str(x) {
                Some(t) => rest.push(lower_of(t)),
                None => rest,
            },
            None => rest,
        }
    }
}

/// The agents the player owns: the lowercased item ids of the `Entitlements` array.
pub fn owned_agent_ids(raw: &str) -> (r: Result<Vec<String>, String>)
    ensures
        match r {
            Ok(ids) => json_parsed(utf8_of(raw@)) matches Some(v) && member(v, "Entitlements"@)
                matches Some(a) && json_items(a) matches Some(items) && ids@.map_values(
                |s: String| s@,
            ) == owned_ids(items),
            Err(_) => !(json_parsed(utf8_of(raw@)) matches Some(v) && member(v, "Entitlements"@)
                matches Some(a) && json_items(a) is Some),
        },
{
    let v = match parse_json(raw.as_bytes()) {
        Some(v) => v,
        None => return Err("invalid JSON".to_string()),
    };
    let items = match json_get(&v, "Entitlements") {
        Some(a) => match json_as_array(a) {
            Some(xs) => xs,
            None => return Err("No Entitlements array".to_string()),
        },
        None => return Err("No Entitlements array".to_string()),
    };
    let mut ids: Vec<String> = Vec::new();
    let mut i: usize = 0;
    while i < items.len()
        invariant
            i <= items.len(),
            ids@.map_values(|s: String| s@) == owned_ids(items@.take(i as int)),
        decreases items.len() - i,
    {
        assert(items@.take(i + 1).drop_last() =~= items@.take(i as int));
        let id = match json_get(&items[i], "ItemID") {
            Some(x) => json_as_str(x),
            None => None,
        };
        if let Some(t) = id {
            let ghost before = ids@;
            let l = lowercase(t.as_str());
            ids.push(l);
            assert(ids@.map_values(|s: String| s@) =~= before.map_values(|s: String| s@).push(l@));
        }
        i += 1;
    }
    assert(items@.take(items.len() as int) =~= items@);
    Ok(ids)
}

/// The tier and ranked rating after the latest competitive update of an MMR record.
pub fn player_mmr(raw: &str) -> (r: Result<(u64, u64), String>)
    ensures
        match r {
            Ok((tier, rr)) => json_parsed(utf8_of(raw@)) matches Some(v) && match member(
                v,
                "LatestCompetitiveUpdate"@,
            ) {
                Some(u) => tier == u64_or_zero(u, "TierAfterUpdate"@) && rr == u64_or_zero(
                    u,
                    "RankedRatingAfterUpdate"@,
                ),
                None => tier == 0 && rr == 0,
            },
            Err(_) => json_parsed(utf8_of(raw@)) is None,
        },
{
    let v = match parse_json(raw.as_bytes()) {
        Some(v) => v,
        None => return Err("Parse MMR: invalid JSON".to_string()),
    };
    match json_get(&v, "LatestCompetitiveUpdate") {
        Some(u) => {
            let t = match json_get(u, "TierAfterUpdate") {
                Some(x) => match crate::json::json_as_u64(x) {
                    Some(n) => n,
                    None => 0,
                },
                None => 0,
            };
            let r = match json_get(u, "RankedRatingAfterUpdate") {
                Some(x) => match crate::json::json_as_u64(x) {
                    Some(n) => n,
                    None => 0,
                },
                None => 0,
            };
            Ok((t, r))
        },
        None => Ok((0, 0)),
    }
}

/// One name-service entry: player id, display name and tag, each empty when absent.
pub open spec fn name_row(e: serde_json::Value) -> (Seq<char>, Seq<char>, Seq<char>) {
    (text_or_empty(e, "Subject"@), text_or_empty(e, "GameName"@), text_or_empty(e, "TagLine"@))
}

/// The rows of a name-service answer, which must be a JSON array.
pub fn resolved_names(raw: &str) -> (r: Result<Vec<(String, String, String)>, String>)
    ensures
        match r {
            Ok(rows) => json_parsed(utf8_of(raw@)) matches Some(v) && json_items(v) matches Some(
                es,
            ) && rows.len() == es.len() && forall|i: int|
                0 <= i < rows.len() ==> (#[trigger] rows[i].0@, rows[i].1@, rows[i].2@) == name_row(
                    es[i],
                ),
            Err(_) => !(json_parsed(utf8_of(raw@)) matches Some(v) && json_items(v) is Some),
        },
{
    let v = match parse_json(raw.as_bytes()) {
        Some(v) => v,
        None => return Err("Parse names: invalid JSON".to_string()),
    };
    let es = match json_as_array(&v) {
        Some(es) => es,
        None => return Err("Parse names: not a list".to_string()),
    };
    let mut rows: Vec<(String, String, String)> = Vec::new();
    let mut i: usize = 0;
    while i < es.len()
        invariant
            i <= es.len(),
            rows.len() == i,
            forall|j: int|
                0 <= j < i ==> (#[trigger] rows[j].0@, rows[j].1@, rows[j].2@) == name_row(es@[j]),
        decreases es.len() - i,
    {
        let e = &es[i];
        rows.push((member_text(e, "Subject"), member_text(e, "GameName"), member_text(e, "TagLine")));
        i += 1;
    }
    Ok(rows)
}

} // verus!
