//! The player's region and shard, as the game's own log records them.
use vstd::prelude::*;

verus! {

/// The capture groups (group 0, the whole match, first) of the last match of `pattern` in
/// `text`, a group that did not take part being empty; `None` if the pattern is invalid or
/// never matches.
pub uninterp spec fn regex_last_captures(pattern: Seq<char>, text: Seq<char>) -> Option<Seq<Seq<char>>>;

/// Relies on `regex::Regex::new` and `Regex::captures_iter`: the groups of the last match, as
/// text.
#[verifier::external_body]
fn last_captures(pattern: &str, text: &str) -> (r: Option<Vec<String>>)
    ensures
        match r {
            Some(groups) => regex_last_captures(pattern@, text@) == Some(
                groups@.map_values(|g: String| g@),
            ),
            None => regex_last_captures(pattern@, text@) is None,
        },
{
    let re = regex::Regex::new(pattern).ok()?;
    let caps = re.captures_iter(text).last()?;
    Some(caps.iter().map(|g| g.map(|m| m.as_str().to_string()).unwrap_or_default()).collect())
}

/// The game-service address pattern, whose two groups are the region and the shard.
pub open spec fn glz_pattern() -> Seq<char> {
    "https://glz-(.+?)-1\\.(.+?)\\.a\\.pvp\\.net"@
}

/// The region and shard of the last game-service address in the game log.
pub open spec fn region_shard_of(log: Seq<char>) -> Option<(Seq<char>, Seq<char>)> {
    match regex_last_captures(glz_pattern(), log) {
        Some(gs) => if gs.len() >= 3 {
            Some((gs[1], gs[2]))
        } else {
            None
        },
        None => None,
    }
}

/// Reads the region and shard from the game log's text.
pub fn region_shard_from_log(log: &str) -> (r: Result<(String, String), String>)
    ensures
        match r {
            Ok((region, shard)) => region_shard_of(log@) == Some((region@, shard@)),
            Err(_) => region_shard_of(log@) is None,
        },
{
    let pattern = "https://glz-(.+?)-1\\.(.+?)\\.a\\.pvp\\.net";
    let groups = match last_captures(pattern, log) {
        Some(g) => g,
        None => return Err("Could not find region/shard in ShooterGame.log".to_string()),
    };
    if groups.len() < 3 {
        return Err("Could not find region/shard in ShooterGame.log".to_string());
    }
    let ghost gv = groups@.map_values(|g: String| g@);
    assert(gv[1] == groups@[1]@ && gv[2] == groups@[2]@);
    Ok((groups[1].clone(), groups[2].clone()))
}

} // verus!
