//! Player statistics read from the game services: the home summary and match-history rows.
use vstd::prelude::*;
use crate::json::{
    bool_or_false, json_as_array, json_as_str, json_get, json_items, json_object_values,
    json_parsed, json_str, json_values, member, member_bool, member_text, member_u64,
    parse_json, text_or_empty, u64_or_zero,
};
use crate::codec::{dec_text, u64_text};
use crate::riot::{extract_map_name, map_name};
use crate::text::utf8_of;

verus! {

/// `v[a][b]`, when present.
pub open spec fn member2(v: serde_json::Value, a: Seq<char>, b: Seq<char>) -> Option<serde_json::Value> {
    match member(v, a) {
        Some(x) => member(x, b),
        None => None,
    }
}

/// The highest competitive tier over seasons.
pub open spec fn peak_tier(ss: Seq<serde_json::Value>) -> u64
    decreases ss.len(),
{
    if ss.len() == 0 {
        0
    } else {
        let rest = peak_tier(ss.drop_last());
        let t = u64_or_zero(ss.last(), "CompetitiveTier"@);
        if t > rest {
            t
        } else {
            rest
        }
    }
}

/// The sum of `key` over seasons.
pub open spec fn season_sum(ss: Seq<serde_json::Value>, key: Seq<char>) -> nat
    decreases ss.len(),
{
    if ss.len() == 0 {
        0
    } else {
        season_sum(ss.drop_last(), key) + u64_or_zero(ss.last(), key) as nat
    }
}

/// Competitive totals over seasons.
pub struct SeasonTotals {
    pub peak_tier: u64,
    pub wins: u64,
    pub games: u64,
}

/// Totals over the seasons of a competitive record; `None` if a sum exceeds `u64`.
pub fn season_totals(seasons: &Vec<serde_json::Value>) -> (r: Option<SeasonTotals>)
    ensures
        match r {
            Some(t) => t.peak_tier == peak_tier(seasons@) && t.wins == season_sum(
                seasons@,
                "NumberOfWinsWithPlacements"@,
            ) && t.games == season_sum(seasons@, "NumberOfGames"@),
            None => season_sum(seasons@, "NumberOfWinsWithPlacements"@) > u64::MAX || season_sum(
                seasons@,
                "NumberOfGames"@,
            ) > u64::MAX,
        },
{
    let mut peak: u64 = 0;
    let mut wins: u64 = 0;
    let mut games: u64 = 0;
    let mut i: usize = 0;
    while i < seasons.len()
        invariant
            i <= seasons.len(),
            peak == peak_tier(seasons@.take(i as int)),
            wins == season_sum(seasons@.take(i as int), "NumberOfWinsWithPlacements"@),
            games == season_sum(seasons@.take(i as int), "NumberOfGames"@),
        decreases seasons.len() - i,
    {
        assert(seasons@.take(i + 1).drop_last() =~= seasons@.take(i as int));
        let s = &seasons[i];
        let t = member_u64(s, "CompetitiveTier");
        if t > peak {
            peak = t;
        }
        let w = member_u64(s, "NumberOfWinsWithPlacements");
        let g = member_u64(s, "NumberOfGames");
        if w > u64::MAX - wins || g > u64::MAX - games {
            proof {
                lemma_season_sum_grows(seasons@, i + 1, "NumberOfWinsWithPlacements"@);
                lemma_season_sum_grows(seasons@, i + 1, "NumberOfGames"@);
            }
            return None;
        }
        wins = wins + w;
        games = games + g;
        i += 1;
    }
    assert(seasons@.take(seasons.len() as int) =~= seasons@);
    Some(SeasonTotals { peak_tier: peak, wins, games })
}

/// A sum over a prefix is at most the sum over the whole.
proof fn lemma_season_sum_grows(ss: Seq<serde_json::Value>, n: int, key: Seq<char>)
    requires
        0 <= n <= ss.len(),
    ensures
        season_sum(ss.take(n), key) <= season_sum(ss, key),
    decreases ss.len() - n,
{
    if n < ss.len() {
        assert(ss.take(n + 1).drop_last() =~= ss.take(n));
        lemma_season_sum_grows(ss, n + 1, key);
    } else {
        assert(ss.take(n) =~= ss);
    }
}

/// The competitive seasons of an MMR record, in key order.
pub open spec fn seasons_of(mmr: serde_json::Value) -> Seq<serde_json::Value> {
    match member2(mmr, "QueueSkills"@, "competitive"@) {
        Some(c) => match member(c, "SeasonalInfoBySeasonID"@) {
            Some(s) => match json_values(s) {
                Some(vs) => vs,
                None => Seq::empty(),
            },
            None => Seq::empty(),
        },
        None => Seq::empty(),
    }
}

/// The home summary.
pub struct HomeStats {
    pub level: u64,
    pub card_id: String,
    pub current_tier: u64,
    pub current_rr: u64,
    pub peak_tier: u64,
    pub wins: u64,
    pub losses: u64,
    pub total_games: u64,
}

/// The latest competitive update's `key`, or 0.
pub open spec fn latest_update(mmr: serde_json::Value, key: Seq<char>) -> u64 {
    match member(mmr, "LatestCompetitiveUpdate"@) {
        Some(u) => u64_or_zero(u, key),
        None => 0,
    }
}

/// `raw` parsed, then `outer.key` as an unsigned integer, or 0.
pub open spec fn nested_u64_in(raw: Option<Seq<char>>, outer: Seq<char>, key: Seq<char>) -> u64 {
    match raw {
        Some(t) => match json_parsed(utf8_of(t)) {
            Some(v) => match member(v, outer) {
                Some(o) => u64_or_zero(o, key),
                None => 0,
            },
            None => 0,
        },
        None => 0,
    }
}

/// `raw` parsed, then `outer.key` as text, or empty.
pub open spec fn nested_text_in(raw: Option<Seq<char>>, outer: Seq<char>, key: Seq<char>) -> Seq<char> {
    match raw {
        Some(t) => match json_parsed(utf8_of(t)) {
            Some(v) => match member(v, outer) {
                Some(o) => text_or_empty(o, key),
                None => Seq::empty(),
            },
            None => Seq::empty(),
        },
        None => Seq::empty(),
    }
}

fn nested_u64_of(raw: Option<&str>, outer: &str, key: &str) -> (r: u64)
    ensures
        r == nested_u64_in(
            match raw {
                Some(t) => Some(t@),
                None => None,
            },
            outer@,
            key@,
        ),
{
    match raw {
        Some(t) => match parse_json(t.as_bytes()) {
            Some(v) => match json_get(&v, outer) {
                Some(o) => member_u64(o, key),
                None => 0,
            },
            None => 0,
        },
        None => 0,
    }
}

fn nested_text_of(raw: Option<&str>, outer: &str, key: &str) -> (r: String)
    ensures
        r@ == nested_text_in(
            match raw {
                Some(t) => Some(t@),
                None => None,
            },
            outer@,
            key@,
        ),
{
    match raw {
        Some(t) => match parse_json(t.as_bytes()) {
            Some(v) => match json_get(&v, outer) {
                Some(o) => member_text(o, key),
                None => String::new(),
            },
            None => String::new(),
        },
        None => String::new(),
    }
}

/// The home summary from the MMR record and, when they were fetched, the loadout and the
/// account-progress answers. Losses are games less wins, never below 0.
pub fn home_stats(mmr_raw: &str, loadout_raw: Option<&str>, xp_raw: Option<&str>) -> (r: Result<
    HomeStats,
    String,
>)
    ensures
        match r {
            Ok(h) => json_parsed(utf8_of(mmr_raw@)) matches Some(m) && {
                let ss = seasons_of(m);
                &&& h.current_tier == latest_update(m, "TierAfterUpdate"@)
                &&& h.current_rr == latest_update(m, "RankedRatingAfterUpdate"@)
                &&& h.peak_tier == peak_tier(ss)
                &&& h.wins == season_sum(ss, "NumberOfWinsWithPlacements"@)
                &&& h.total_games == season_sum(ss, "NumberOfGames"@)
                &&& h.losses == if h.total_games >= h.wins {
                    (h.total_games - h.wins) as u64
                } else {
                    0
                }
                &&& h.level == nested_u64_in(
                    match xp_raw {
                        Some(t) => Some(t@),
                        None => None,
                    },
                    "Progress"@,
                    "Level"@,
                )
                &&& h.card_id@ == nested_text_in(
                    match loadout_raw {
                        Some(t) => Some(t@),
                        None => None,
                    },
                    "Identity"@,
                    "PlayerCardID"@,
                )
            },
            Err(_) => json_parsed(utf8_of(mmr_raw@)) matches Some(m) ==> (season_sum(
                seasons_of(m),
                "NumberOfWinsWithPlacements"@,
            ) > u64::MAX || season_sum(seasons_of(m), "NumberOfGames"@) > u64::MAX),
        },
{
    let mmr = match parse_json(mmr_raw.as_bytes()) {
        Some(v) => v,
        None => return Err("parse mmr: invalid JSON".to_string()),
    };
    let (tier, rr) = match json_get(&mmr, "LatestCompetitiveUpdate") {
        Some(u) => (member_u64(u, "TierAfterUpdate"), member_u64(u, "RankedRatingAfterUpdate")),
        None => (0, 0),
    };
    let seasons: Vec<serde_json::Value> = match json_get(&mmr, "QueueSkills") {
        Some(q) => match json_get(q, "competitive") {
            Some(c) => match json_get(c, "SeasonalInfoBySeasonID") {
                Some(s) => match json_object_values(s) {
                    Some(vs) => vs,
                    None => Vec::new(),
                },
                None => Vec::new(),
            },
            None => Vec::new(),
        },
        None => Vec::new(),
    };
    assert(seasons@ =~= seasons_of(mmr));
    let totals = match season_totals(&seasons) {
        Some(t) => t,
        None => return Err("stats: totals out of range".to_string()),
    };
    let losses = if totals.games >= totals.wins {
        totals.games - totals.wins
    } else {
        0
    };
    Ok(
        HomeStats {
            level: nested_u64_of(xp_raw, "Progress", "Level"),
            card_id: nested_text_of(loadout_raw, "Identity", "PlayerCardID"),
            current_tier: tier,
            current_rr: rr,
            peak_tier: totals.peak_tier,
            wins: totals.wins,
            losses,
            total_games: totals.games,
        },
    )
}

/// One row of the match history, from the player's side.
pub struct MatchRow {
    pub map: String,
    pub won: bool,
    pub rounds_won: u64,
    pub rounds_lost: u64,
    pub kills: u64,
    pub deaths: u64,
    pub assists: u64,
    pub agent: String,
}

/// The index of the first player whose `subject` is `puuid`.
pub open spec fn player_index(players: Seq<serde_json::Value>, puuid: Seq<char>) -> Option<int>
    decreases players.len(),
{
    if players.len() == 0 {
        None
    } else {
        match player_index(players.drop_last(), puuid) {
            Some(i) => Some(i),
            None => if member(players.last(), "subject"@) matches Some(s) && json_str(s) == Some(
                puuid,
            ) {
                Some(players.len() - 1)
            } else {
                None
            },
        }
    }
}

/// The outcome read over the teams: the player's team gives `won` and the rounds won, any
/// other team the rounds lost (the last such team counting).
pub open spec fn team_outcome(teams: Seq<serde_json::Value>, team: Seq<char>) -> (bool, u64, u64)
    decreases teams.len(),
{
    if teams.len() == 0 {
        (false, 0, 0)
    } else {
        let (w, rw, rl) = team_outcome(teams.drop_last(), team);
        let t = teams.last();
        if text_or_empty(t, "teamId"@) == team {
            (bool_or_false(t, "won"@), u64_or_zero(t, "roundsWon"@), rl)
        } else {
            (w, rw, u64_or_zero(t, "roundsWon"@))
        }
    }
}

/// The items of `v[key]`, or none.
pub open spec fn items_of(v: serde_json::Value, key: Seq<char>) -> Seq<serde_json::Value> {
    match member(v, key) {
        Some(a) => match json_items(a) {
            Some(xs) => xs,
            None => Seq::empty(),
        },
        None => Seq::empty(),
    }
}

fn items(v: &serde_json::Value, key: &str) -> (r: Vec<serde_json::Value>)
    ensures
        r@ == items_of(*v, key@),
{
    match json_get(v, key) {
        Some(a) => match json_as_array(a) {
            Some(xs) => xs,
            None => Vec::new(),
        },
        None => Vec::new(),
    }
}

/// The match-history row of a match for player `puuid`; none when the player is not in it.
pub open spec fn match_row_of(detail: serde_json::Value, puuid: Seq<char>) -> Option<
    (Seq<char>, bool, u64, u64, u64, u64, u64, Seq<char>),
> {
    let players = items_of(detail, "players"@);
    match player_index(players, puuid) {
        Some(i) => {
            let p = players[i];
            let stats = match member(p, "stats"@) {
                Some(s) => s,
                None => p,
            };
            let has_stats = member(p, "stats"@) is Some;
            let (won, rw, rl) = team_outcome(items_of(detail, "teams"@), text_or_empty(p, "teamId"@));
            let map_id = match member(detail, "matchInfo"@) {
                Some(mi) => text_or_empty(mi, "mapId"@),
                None => Seq::empty(),
            };
            Some(
                (
                    map_name(map_id),
                    won,
                    rw,
                    rl,
                    if has_stats { u64_or_zero(stats, "kills"@) } else { 0 },
                    if has_stats { u64_or_zero(stats, "deaths"@) } else { 0 },
                    if has_stats { u64_or_zero(stats, "assists"@) } else { 0 },
                    text_or_empty(p, "characterId"@),
                ),
            )
        },
        None => None,
    }
}

/// Reads a match's details into a history row for player `puuid`.
pub fn match_row(detail: &serde_json::Value, puuid: &str) -> (r: Option<MatchRow>)
    ensures
        match r {
            Some(m) => match_row_of(*detail, puuid@) == Some(
                (m.map@, m.won, m.rounds_won, m.rounds_lost, m.kills, m.deaths, m.assists, m.agent@),
            ),
            None => match_row_of(*detail, puuid@) is None,
        },
{
    let players = items(detail, "players");
    let mut i: usize = 0;
    while i < players.len()
        invariant
            i <= players.len(),
            player_index(players@.take(i as int), puuid@) is None,
        ensures
            player_index(players@.take(i as int), puuid@) is None,
            i < players.len() ==> (member(players@[i as int], "subject"@) matches Some(s)
                && json_str(s) == Some(puuid@)),
        decreases players.len() - i,
    {
        assert(players@.take(i + 1).drop_last() =~= players@.take(i as int));
        let subject = match json_get(&players[i], "subject") {
            Some(s) => json_as_str(s),
            None => None,
        };
        let hit = match subject {
            Some(s) => s == puuid.to_string(),
            None => false,
        };
        if hit {
            break;
        }
        i += 1;
    }
    if i == players.len() {
        assert(players@.take(i as int) =~= players@);
        return None;
    }
    assert(players@.take(i + 1).drop_last() =~= players@.take(i as int));
    assert(players@.take(i + 1).last() == players@[i as int]);
    assert(player_index(players@.take(i + 1), puuid@) == Some(i as int));
    proof {
        lemma_player_index_prefix(players@, i + 1, puuid@);
    }
    let p = &players[i];
    let team_id = member_text(p, "teamId");
    let (kills, deaths, assists) = match json_get(p, "stats") {
        Some(s) => (member_u64(s, "kills"), member_u64(s, "deaths"), member_u64(s, "assists")),
        None => (0, 0, 0),
    };
    let agent = member_text(p, "characterId");
    let teams = items(detail, "teams");
    let mut won = false;
    let mut rounds_won: u64 = 0;
    let mut rounds_lost: u64 = 0;
    let mut k: usize = 0;
    while k < teams.len()
        invariant
            k <= teams.len(),
            (won, rounds_won, rounds_lost) == team_outcome(teams@.take(k as int), team_id@),
        decreases teams.len() - k,
    {
        assert(teams@.take(k + 1).drop_last() =~= teams@.take(k as int));
        let t = &teams[k];
        let tid = member_text(t, "teamId");
        let rw = member_u64(t, "roundsWon");
        if tid == team_id {
            won = member_bool(t, "won");
            rounds_won = rw;
        } else {
            rounds_lost = rw;
        }
        k += 1;
    }
    assert(teams@.take(teams.len() as int) =~= teams@);
    let map_id = match json_get(detail, "matchInfo") {
        Some(mi) => member_text(mi, "mapId"),
        None => String::new(),
    };
    let map = extract_map_name(map_id.as_str());
    Some(MatchRow { map, won, rounds_won, rounds_lost, kills, deaths, assists, agent })
}

/// A player found in a prefix is the first in the whole list.
proof fn lemma_player_index_prefix(players: Seq<serde_json::Value>, n: int, puuid: Seq<char>)
    requires
        0 <= n <= players.len(),
        player_index(players.take(n), puuid) is Some,
    ensures
        player_index(players, puuid) == player_index(players.take(n), puuid),
    decreases players.len() - n,
{
    if n < players.len() {
        assert(players.take(n + 1).drop_last() =~= players.take(n));
        lemma_player_index_prefix(players, n + 1, puuid);
    } else {
        assert(players.take(n) =~= players);
    }
}

/// The history request for page `page` of `page_size` competitive matches.
pub open spec fn history_path_of(puuid: Seq<char>, start: nat, end: nat) -> Seq<char> {
    "/match-history/v1/history/"@ + puuid + "?startIndex="@ + dec_text(start) + "&endIndex="@
        + dec_text(end) + "&queue=competitive"@
}

/// The match-history request for a page; `None` when its indices exceed `u64`.
pub fn history_path(puuid: &str, page: u64, page_size: u64) -> (r: Option<String>)
    ensures
        match r {
            Some(p) => page * page_size + page_size <= u64::MAX && p@ == history_path_of(
                puuid@,
                (page * page_size) as nat,
                (page * page_size + page_size) as nat,
            ),
            None => page * page_size + page_size > u64::MAX,
        },
{
    let start = match page.checked_mul(page_size) {
        Some(s) => s,
        None => {
            assert(page * page_size + page_size > u64::MAX) by (nonlinear_arith)
                requires
                    page * page_size > u64::MAX,
            ;
            return None;
        },
    };
    let end = match start.checked_add(page_size) {
        Some(e) => e,
        None => return None,
    };
    let a = u64_text(start);
    let b = u64_text(end);
    Some(
        "/match-history/v1/history/".to_string().concat(puuid).concat("?startIndex=").concat(
            a.as_str(),
        ).concat("&endIndex=").concat(b.as_str()).concat("&queue=competitive"),
    )
}

/// The detail paths of the matches in a history answer, in order, skipping entries without
/// a match id.
pub open spec fn detail_paths(entries: Seq<serde_json::Value>) -> Seq<Seq<char>>
    decreases entries.len(),
{
    if entries.len() == 0 {
        Seq::empty()
    } else {
        let rest = detail_paths(entries.drop_last());
        match member(entries.last(), "MatchID"@) {
            Some(x) => match json_str(x) {
                Some(id) => rest.push("/match-details/v1/matches/"@ + id),
                None => rest,
            },
            None => rest,
        }
    }
}

/// The total count and the detail paths of a history answer.
pub fn history_entries(raw: &str) -> (r: Result<(u64, Vec<String>), String>)
    ensures
        match r {
            Ok((total, paths)) => json_parsed(utf8_of(raw@)) matches Some(v) && total
                == u64_or_zero(v, "Total"@) && paths@.map_values(|p: String| p@) == detail_paths(
                items_of(v, "History"@),
            ),
            Err(_) => json_parsed(utf8_of(raw@)) is None,
        },
{
    let v = match parse_json(raw.as_bytes()) {
        Some(v) => v,
        None => return Err("parse history: invalid JSON".to_string()),
    };
    let total = member_u64(&v, "Total");
    let entries = items(&v, "History");
    let mut paths: Vec<String> = Vec::new();
    let mut i: usize = 0;
    while i < entries.len()
        invariant
            i <= entries.len(),
            paths@.map_values(|p: String| p@) == detail_paths(entries@.take(i as int)),
        decreases entries.len() - i,
    {
        assert(entries@.take(i + 1).drop_last() =~= entries@.take(i as int));
        let id = match json_get(&entries[i], "MatchID") {
            Some(x) => json_as_str(x),
            None => None,
        };
        if let Some(id) = id {
            let ghost before = paths@;
            let p = "/match-details/v1/matches/".to_string().concat(id.as_str());
            paths.push(p);
            assert(paths@.map_values(|p: String| p@) =~= before.map_values(|p: String| p@).push(
                p@,
            ));
        }
        i += 1;
    }
    assert(entries@.take(entries.len() as int) =~= entries@);
    Ok((total, paths))
}

} // verus!
