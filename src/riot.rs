//! The local account connection: credentials held for the game's web services, the cached
//! player, the requests built from them, and the periodic health check's decisions.
use vstd::prelude::*;
use crate::codec::{b64_encoded, encode_standard};
use crate::config::{trim_text, trimmed};
use crate::json::{json_as_str, json_get, json_parsed, json_str, member, parse_json};
use crate::text::{
    chars_of, contains, contains_chars, rfind_chars, rfind_upto, slice_text, utf8_of,
};

verus! {

/// Credentials and identity of the connected local account. Times are ms since the epoch.
pub struct ConnectionState {
    pub connected: bool,
    pub port: Option<u16>,
    pub local_auth: Option<String>,
    pub access_token: Option<String>,
    pub entitlements: Option<String>,
    pub puuid: Option<String>,
    pub region: Option<String>,
    pub shard: Option<String>,
    pub client_version: Option<String>,
    pub game_name: Option<String>,
    pub game_tag: Option<String>,
    pub player_card_url: Option<String>,
    pub token_fetched_at: Option<u64>,
    pub last_token_check: Option<u64>,
}

/// The connected player as shown to the host.
pub struct PlayerInfo {
    pub puuid: String,
    pub game_name: String,
    pub game_tag: String,
    pub region: String,
    pub shard: String,
    pub client_version: String,
    pub player_card_url: Option<String>,
    pub rso_debug: Option<String>,
    pub loadout_debug: Option<String>,
}

/// The credentials a game-service request carries.
pub struct GlzCreds {
    pub access_token: String,
    pub entitlements: String,
    pub puuid: String,
    pub region: String,
    pub shard: String,
    pub client_version: String,
}

/// A request to a game service: the path, and the credentials to send it with.
pub struct GameRequest {
    pub path: String,
    pub creds: GlzCreds,
}

impl ConnectionState {
    /// An unconnected state holding nothing.
    pub fn new() -> (r: ConnectionState)
        ensures
            !r.connected,
            r.port is None && r.local_auth is None && r.access_token is None,
            r.entitlements is None && r.puuid is None && r.region is None,
            r.shard is None && r.client_version is None && r.game_name is None,
            r.game_tag is None && r.player_card_url is None,
            r.token_fetched_at is None && r.last_token_check is None,
    {
        ConnectionState {
            connected: false,
            port: None,
            local_auth: None,
            access_token: None,
            entitlements: None,
            puuid: None,
            region: None,
            shard: None,
            client_version: None,
            game_name: None,
            game_tag: None,
            player_card_url: None,
            token_fetched_at: None,
            last_token_check: None,
        }
    }
}

impl Default for ConnectionState {
    /// An unconnected state holding nothing.
    fn default() -> (r: ConnectionState)
        ensures
            !r.connected,
            r.port is None && r.local_auth is None && r.access_token is None,
            r.entitlements is None && r.puuid is None && r.region is None,
            r.shard is None && r.client_version is None && r.game_name is None,
            r.game_tag is None && r.player_card_url is None,
            r.token_fetched_at is None && r.last_token_check is None,
    {
        ConnectionState::new()
    }
}

fn clone_opt(s: &Option<String>) -> (r: Option<String>)
    ensures
        r == *s,
{
    match s {
        Some(t) => Some(t.clone()),
        None => None,
    }
}

/// The state with the session credentials dropped; identity fields stay.
pub open spec fn disconnected(s: ConnectionState) -> ConnectionState {
    ConnectionState {
        connected: false,
        port: None,
        local_auth: None,
        access_token: None,
        entitlements: None,
        ..s
    }
}

/// Drops the session credentials; identity fields stay.
pub fn disconnect(state: &mut ConnectionState)
    ensures
        *final(state) == disconnected(*old(state)),
        !final(state).connected,
        final(state).port is None,
        final(state).local_auth is None,
        final(state).access_token is None,
        final(state).entitlements is None,
        final(state).puuid == old(state).puuid,
        final(state).region == old(state).region,
        final(state).shard == old(state).shard,
        final(state).client_version == old(state).client_version,
        final(state).game_name == old(state).game_name,
        final(state).game_tag == old(state).game_tag,
        final(state).player_card_url == old(state).player_card_url,
        final(state).token_fetched_at == old(state).token_fetched_at,
        final(state).last_token_check == old(state).last_token_check,
{
    state.connected = false;
    state.port = None;
    state.local_auth = None;
    state.access_token = None;
    state.entitlements = None;
}

/// `connected` or `disconnected`.
pub fn get_status(state: &ConnectionState) -> (r: String)
    ensures
        r@ == if state.connected {
            "connected"@
        } else {
            "disconnected"@
        },
{
    if state.connected {
        "connected".to_string()
    } else {
        "disconnected".to_string()
    }
}

/// The player is known: connected, with every identity field present.
pub open spec fn has_player(state: ConnectionState) -> bool {
    state.connected && state.puuid is Some && state.game_name is Some && state.game_tag is Some
        && state.region is Some && state.shard is Some && state.client_version is Some
}

/// The cached player, when connected and fully known; no debug bodies.
pub fn get_cached_player(state: &ConnectionState) -> (r: Option<PlayerInfo>)
    ensures
        r is Some == has_player(*state),
        r matches Some(p) ==> {
            &&& Some(p.puuid) == state.puuid
            &&& Some(p.game_name) == state.game_name
            &&& Some(p.game_tag) == state.game_tag
            &&& Some(p.region) == state.region
            &&& Some(p.shard) == state.shard
            &&& Some(p.client_version) == state.client_version
            &&& p.player_card_url == state.player_card_url
            &&& p.rso_debug is None
            &&& p.loadout_debug is None
        },
{
    if !state.connected {
        return None;
    }
    match (&state.puuid, &state.game_name, &state.game_tag, &state.region, &state.shard, &state.client_version) {
        (Some(p), Some(n), Some(t), Some(rg), Some(sh), Some(cv)) => Some(
            PlayerInfo {
                puuid: p.clone(),
                game_name: n.clone(),
                game_tag: t.clone(),
                region: rg.clone(),
                shard: sh.clone(),
                client_version: cv.clone(),
                player_card_url: clone_opt(&state.player_card_url),
                rso_debug: None,
                loadout_debug: None,
            },
        ),
        _ => None,
    }
}

/// Whole seconds since the tokens were fetched, or 0 if they never were.
pub fn get_token_age_secs(state: &ConnectionState, now: u64) -> (r: u64)
    ensures
        r == match state.token_fetched_at {
            Some(t) => if now >= t {
                ((now - t) / 1000) as u64
            } else {
                0
            },
            None => 0,
        },
{
    match state.token_fetched_at {
        Some(t) => if now >= t {
            (now - t) / 1000
        } else {
            0
        },
        None => 0,
    }
}

/// The local client's port and authorization, when connected.
pub fn get_local_creds(state: &ConnectionState) -> (r: Result<(u16, String), String>)
    ensures
        match r {
            Ok((port, auth)) => state.connected && state.port == Some(port) && state.local_auth
                == Some(auth),
            Err(_) => !state.connected || state.port is None || state.local_auth is None,
        },
{
    if !state.connected {
        return Err("Not connected".to_string());
    }
    let port = match state.port {
        Some(p) => p,
        None => return Err("No port".to_string()),
    };
    match &state.local_auth {
        Some(a) => Ok((port, a.clone())),
        None => Err("No local_auth".to_string()),
    }
}

/// Everything a game-service request needs is held.
pub open spec fn has_creds(state: ConnectionState) -> bool {
    state.connected && state.access_token is Some && state.entitlements is Some && state.puuid is Some
        && state.region is Some && state.shard is Some && state.client_version is Some
}

/// The credentials match the state's.
pub open spec fn creds_of(c: GlzCreds, state: ConnectionState) -> bool {
    &&& state.access_token == Some(c.access_token)
    &&& state.entitlements == Some(c.entitlements)
    &&& state.puuid == Some(c.puuid)
    &&& state.region == Some(c.region)
    &&& state.shard == Some(c.shard)
    &&& state.client_version == Some(c.client_version)
}

/// The credentials for game-service requests, when connected and all held.
pub fn get_glz_creds(state: &ConnectionState) -> (r: Result<GlzCreds, String>)
    ensures
        r is Ok == has_creds(*state),
        r matches Ok(c) ==> creds_of(c, *state),
{
    if !state.connected {
        return Err("Not connected".to_string());
    }
    match (&state.access_token, &state.entitlements, &state.puuid, &state.region, &state.shard, &state.client_version) {
        (Some(a), Some(e), Some(p), Some(rg), Some(sh), Some(cv)) => Ok(
            GlzCreds {
                access_token: a.clone(),
                entitlements: e.clone(),
                puuid: p.clone(),
                region: rg.clone(),
                shard: sh.clone(),
                client_version: cv.clone(),
            },
        ),
        (None, _, _, _, _, _) => Err("No access_token".to_string()),
        (_, None, _, _, _, _) => Err("No entitlements".to_string()),
        (_, _, None, _, _, _) => Err("No puuid".to_string()),
        (_, _, _, None, _, _) => Err("No region".to_string()),
        (_, _, _, _, None, _) => Err("No shard".to_string()),
        _ => Err("No client_version".to_string()),
    }
}

/// A request on `path`, when the credentials are held.
pub open spec fn request_for(r: Result<GameRequest, String>, state: ConnectionState, path: Seq<char>) -> bool {
    &&& r is Ok == has_creds(state)
    &&& r matches Ok(q) ==> creds_of(q.creds, state) && q.path@ == path
}

/// Selects an agent during agent select.
pub fn select_agent(state: &ConnectionState, match_id: &str, agent_id: &str) -> (r: Result<GameRequest, String>)
    ensures
        request_for(r, *state, "/pregame/v1/matches/"@ + match_id@ + "/select/"@ + agent_id@),
{
    let creds = get_glz_creds(state)?;
    let path = "/pregame/v1/matches/".to_string().concat(match_id).concat("/select/").concat(agent_id);
    Ok(GameRequest { path, creds })
}

/// Locks in an agent during agent select.
pub fn lock_agent(state: &ConnectionState, match_id: &str, agent_id: &str) -> (r: Result<GameRequest, String>)
    ensures
        request_for(r, *state, "/pregame/v1/matches/"@ + match_id@ + "/lock/"@ + agent_id@),
{
    let creds = get_glz_creds(state)?;
    let path = "/pregame/v1/matches/".to_string().concat(match_id).concat("/lock/").concat(agent_id);
    Ok(GameRequest { path, creds })
}

/// Leaves a match during agent select.
pub fn pregame_quit(state: &ConnectionState, match_id: &str) -> (r: Result<GameRequest, String>)
    ensures
        request_for(r, *state, "/pregame/v1/matches/"@ + match_id@ + "/quit"@),
{
    let creds = get_glz_creds(state)?;
    let path = "/pregame/v1/matches/".to_string().concat(match_id).concat("/quit");
    Ok(GameRequest { path, creds })
}

/// Leaves a match in progress.
pub fn coregame_quit(state: &ConnectionState, match_id: &str) -> (r: Result<GameRequest, String>)
    ensures
        r is Ok == has_creds(*state),
        r matches Ok(q) ==> creds_of(q.creds, *state) && q.path@ == "/core-game/v1/players/"@
            + q.creds.puuid@ + "/disassociate/"@ + match_id@,
{
    let creds = get_glz_creds(state)?;
    let path = "/core-game/v1/players/".to_string().concat(creds.puuid.as_str()).concat(
        "/disassociate/",
    ).concat(match_id);
    Ok(GameRequest { path, creds })
}

/// Joins a party by its invite code.
pub fn join_party_by_code(state: &ConnectionState, code: &str) -> (r: Result<GameRequest, String>)
    ensures
        r is Ok == has_creds(*state),
        r matches Ok(q) ==> creds_of(q.creds, *state) && q.path@ == "/parties/v1/players/"@
            + q.creds.puuid@ + "/joinbycode/"@ + code@,
{
    let creds = get_glz_creds(state)?;
    let path = "/parties/v1/players/".to_string().concat(creds.puuid.as_str()).concat(
        "/joinbycode/",
    ).concat(code);
    Ok(GameRequest { path, creds })
}

/// Reads the player's loadout, to check that the credentials still work.
pub fn check_loadout(state: &ConnectionState) -> (r: Result<GameRequest, String>)
    ensures
        r is Ok == has_creds(*state),
        r matches Ok(q) ==> creds_of(q.creds, *state) && q.path@ == "/personalization/v2/players/"@
            + q.creds.puuid@ + "/playerloadout"@,
{
    let creds = get_glz_creds(state)?;
    let path = "/personalization/v2/players/".to_string().concat(creds.puuid.as_str()).concat(
        "/playerloadout",
    );
    Ok(GameRequest { path, creds })
}

/// The last `/`-separated segment of a map path.
pub open spec fn map_name(url: Seq<char>) -> Seq<char> {
    match rfind_upto(url, "/"@, url.len() - 1) {
        Some(i) => url.subrange(i + 1, url.len() as int),
        None => url,
    }
}

/// The map's name: the last `/`-separated segment of its path.
pub fn extract_map_name(map_url: &str) -> (r: String)
    ensures
        r@ == map_name(map_url@),
{
    let cs = chars_of(map_url);
    let slash = chars_of("/");
    proof {
        reveal_strlit("/");
    }
    match rfind_chars(&cs, &slash, cs.len()) {
        Some(i) => slice_text(map_url, i + 1, cs.len()),
        None => map_url.to_string(),
    }
}

/// Whether a loadout read shows the credentials still valid: a body that reports invalid
/// credentials or a 401 does not, nor an error that names either; other errors (the network)
/// leave the token standing.
pub open spec fn token_ok(resp: Result<Seq<char>, Seq<char>>) -> bool {
    match resp {
        Ok(body) => !contains(body, "CREDENTIALS_INVALID"@) && !contains(body, "\"httpStatus\":401"@),
        Err(e) => !contains(e, "401"@) && !contains(e, "CREDENTIALS_INVALID"@),
    }
}

/// Judges a loadout read made with the current credentials.
pub fn validate_token(resp: &Result<String, String>) -> (r: bool)
    ensures
        r == token_ok(match resp {
            Ok(b) => Ok(b@),
            Err(e) => Err(e@),
        }),
{
    let invalid = chars_of("CREDENTIALS_INVALID");
    match resp {
        Ok(body) => {
            let b = chars_of(body.as_str());
            !contains_chars(&b, &invalid) && !contains_chars(&b, &chars_of("\"httpStatus\":401"))
        },
        Err(e) => {
            let c = chars_of(e.as_str());
            !contains_chars(&c, &chars_of("401")) && !contains_chars(&c, &invalid)
        },
    }
}

/// Tokens are refreshed after ten minutes.
pub const TOKEN_MAX_AGE_MS: u64 = 600_000;

/// Tokens are validated at most once a minute.
pub const TOKEN_CHECK_INTERVAL_MS: u64 = 60_000;

/// More than `limit_ms` have passed since `at`, or it never happened.
pub open spec fn older_than(at: Option<u64>, now: u64, limit_ms: u64) -> bool {
    match at {
        Some(t) => now >= t && (now - t) / 1000 > limit_ms / 1000,
        None => true,
    }
}

fn is_older(at: Option<u64>, now: u64, limit_ms: u64) -> (r: bool)
    ensures
        r == older_than(at, now, limit_ms),
{
    match at {
        Some(t) => now >= t && (now - t) / 1000 > limit_ms / 1000,
        None => true,
    }
}

/// Where the health check stands: what its last action waits for.
#[derive(Clone, Copy, Debug, PartialEq, Eq, Structural)]
pub enum HealthStage {
    /// Nothing done yet.
    Start,
    /// Waiting to learn whether the local client runs.
    CheckingClient,
    /// Waiting for a refresh of expired tokens.
    Refreshing,
    /// Waiting for a validation of the tokens.
    Validating,
    /// Waiting for a refresh after a failed validation.
    Retrying,
    /// Waiting for a validation after that refresh.
    Revalidating,
}

/// What the caller is to do next in a health check.
pub enum HealthAction {
    /// Find out whether the local client is running; report it as the outcome.
    CheckClient,
    /// Refresh the tokens; report whether that worked.
    Refresh,
    /// Validate the tokens (see `validate_token`); report the verdict.
    Validate,
    /// Done: the player if the account stays connected.
    Report(Option<PlayerInfo>),
}

/// The action reports a player exactly when `known`.
pub open spec fn reports(a: HealthAction, known: bool) -> bool {
    match a {
        HealthAction::Report(p) => p is Some == known,
        _ => false,
    }
}

/// After the client and token age checks: validate if due, else report.
fn validate_or_report(state: &mut ConnectionState, now: u64) -> (r: (HealthStage, HealthAction))
    requires
        old(state).connected,
    ensures
        older_than(old(state).last_token_check, now, TOKEN_CHECK_INTERVAL_MS) ==> r.0
            == HealthStage::Validating && r.1 is Validate && *final(state) == (ConnectionState {
            last_token_check: Some(now),
            ..*old(state)
        }),
        !older_than(old(state).last_token_check, now, TOKEN_CHECK_INTERVAL_MS) ==> *final(state)
            == *old(state) && reports(r.1, has_player(*old(state))),
{
    if is_older(state.last_token_check, now, TOKEN_CHECK_INTERVAL_MS) {
        state.last_token_check = Some(now);
        (HealthStage::Validating, HealthAction::Validate)
    } else {
        (HealthStage::Start, HealthAction::Report(get_cached_player(state)))
    }
}

/// One decision of the periodic health check. `outcome` answers the last action: whether
/// the client runs, whether a refresh worked, whether the tokens validated (ignored at
/// `Start`). A dead client, a failed refresh or tokens still invalid after a refresh
/// disconnect; expired tokens are refreshed first; a due validation that fails is retried
/// once after a refresh.
pub fn health_check(state: &mut ConnectionState, stage: HealthStage, outcome: bool, now: u64) -> (r: (
    HealthStage,
    HealthAction,
))
    ensures
        stage == HealthStage::Start && !old(state).connected ==> *final(state) == *old(state)
            && reports(r.1, false),
        stage == HealthStage::Start && old(state).connected ==> *final(state) == *old(state)
            && r.0 == HealthStage::CheckingClient && r.1 is CheckClient,
        stage == HealthStage::CheckingClient && !outcome ==> *final(state) == disconnected(
            *old(state),
        ) && reports(r.1, false),
        stage == HealthStage::CheckingClient && outcome && old(state).connected && older_than(
            old(state).token_fetched_at,
            now,
            TOKEN_MAX_AGE_MS,
        ) ==> *final(state) == *old(state) && r.0 == HealthStage::Refreshing && r.1 is Refresh,
        (stage == HealthStage::Refreshing || stage == HealthStage::Retrying) && !outcome
            ==> *final(state) == disconnected(*old(state)) && reports(r.1, false),
        stage == HealthStage::Retrying && outcome ==> *final(state) == *old(state) && r.0
            == HealthStage::Revalidating && r.1 is Validate,
        stage == HealthStage::Validating && !outcome ==> *final(state) == *old(state) && r.0
            == HealthStage::Retrying && r.1 is Refresh,
        (stage == HealthStage::Validating || stage == HealthStage::Revalidating) && outcome
            ==> *final(state) == *old(state) && reports(r.1, has_player(*old(state))),
        stage == HealthStage::Revalidating && !outcome ==> *final(state) == disconnected(
            *old(state),
        ) && reports(r.1, false),
        ((stage == HealthStage::CheckingClient && outcome && !older_than(
            old(state).token_fetched_at,
            now,
            TOKEN_MAX_AGE_MS,
        )) || (stage == HealthStage::Refreshing && outcome)) && old(state).connected ==> {
            &&& older_than(old(state).last_token_check, now, TOKEN_CHECK_INTERVAL_MS) ==> r.0
                == HealthStage::Validating && r.1 is Validate && final(state).last_token_check
                == Some(now)
            &&& !older_than(old(state).last_token_check, now, TOKEN_CHECK_INTERVAL_MS)
                ==> *final(state) == *old(state) && reports(r.1, has_player(*old(state)))
        },
{
    match stage {
        HealthStage::Start => {
            if !state.connected {
                (HealthStage::Start, HealthAction::Report(None))
            } else {
                (HealthStage::CheckingClient, HealthAction::CheckClient)
            }
        },
        HealthStage::CheckingClient => {
            if !outcome || !state.connected {
                disconnect(state);
                (HealthStage::Start, HealthAction::Report(None))
            } else if is_older(state.token_fetched_at, now, TOKEN_MAX_AGE_MS) {
                (HealthStage::Refreshing, HealthAction::Refresh)
            } else {
                validate_or_report(state, now)
            }
        },
        HealthStage::Refreshing => {
            if !outcome || !state.connected {
                disconnect(state);
                (HealthStage::Start, HealthAction::Report(None))
            } else {
                validate_or_report(state, now)
            }
        },
        HealthStage::Validating => {
            if outcome {
                (HealthStage::Start, HealthAction::Report(get_cached_player(state)))
            } else {
                (HealthStage::Retrying, HealthAction::Refresh)
            }
        },
        HealthStage::Retrying => {
            if outcome {
                (HealthStage::Revalidating, HealthAction::Validate)
            } else {
                disconnect(state);
                (HealthStage::Start, HealthAction::Report(None))
            }
        },
        HealthStage::Revalidating => {
            if outcome {
                (HealthStage::Start, HealthAction::Report(get_cached_player(state)))
            } else {
                disconnect(state);
                (HealthStage::Start, HealthAction::Report(None))
            }
        },
    }
}

/// Records freshly fetched tokens, stamped `now`.
pub fn apply_refreshed_tokens(
    state: &mut ConnectionState,
    port: u16,
    local_auth: String,
    access_token: String,
    entitlements: String,
    now: u64,
)
    ensures
        *final(state) == (ConnectionState {
            port: Some(port),
            local_auth: Some(local_auth),
            access_token: Some(access_token),
            entitlements: Some(entitlements),
            token_fetched_at: Some(now),
            ..*old(state)
        }),
{
    state.port = Some(port);
    state.local_auth = Some(local_auth);
    state.access_token = Some(access_token);
    state.entitlements = Some(entitlements);
    state.token_fetched_at = Some(now);
}

/// The local client's authorization header for the lockfile password.
pub open spec fn local_auth_of(password: Seq<char>) -> Seq<char> {
    "Basic "@ + b64_encoded(utf8_of("riot:"@ + password))
}

/// The basic-auth header that the local client accepts: `riot:<password>` in base64.
pub fn local_auth_header(password: &str) -> (r: String)
    ensures
        r@ == local_auth_of(password@),
{
    let creds = "riot:".to_string().concat(password);
    let encoded = encode_standard(creds.as_str().as_bytes());
    "Basic ".to_string().concat(encoded.as_str())
}

/// The tokens the local client hands out: access token, entitlements token, player id.
pub struct EntitlementTokens {
    pub access_token: String,
    pub entitlements: String,
    pub puuid: String,
}

/// `v[key]` as text, when present.
pub open spec fn text_field(v: serde_json::Value, key: Seq<char>) -> Option<Seq<char>> {
    match member(v, key) {
        Some(x) => json_str(x),
        None => None,
    }
}

fn text_field_of(v: &serde_json::Value, key: &str) -> (r: Option<String>)
    ensures
        match r {
            Some(t) => text_field(*v, key@) == Some(t@),
            None => text_field(*v, key@) is None,
        },
{
    match json_get(v, key) {
        Some(x) => json_as_str(x),
        None => None,
    }
}

/// Reads the local client's token answer: `accessToken`, `token` and `subject`, all required.
pub fn parse_tokens(raw: &str) -> (r: Result<EntitlementTokens, String>)
    ensures
        match r {
            Ok(t) => json_parsed(utf8_of(raw@)) matches Some(v) && text_field(v, "accessToken"@)
                == Some(t.access_token@) && text_field(v, "token"@) == Some(t.entitlements@)
                && text_field(v, "subject"@) == Some(t.puuid@),
            Err(_) => match json_parsed(utf8_of(raw@)) {
                Some(v) => text_field(v, "accessToken"@) is None || text_field(v, "token"@) is None
                    || text_field(v, "subject"@) is None,
                None => true,
            },
        },
{
    let v = match parse_json(raw.as_bytes()) {
        Some(v) => v,
        None => return Err("Parse tokens: invalid JSON".to_string()),
    };
    let access_token = match text_field_of(&v, "accessToken") {
        Some(t) => t,
        None => return Err("No accessToken".to_string()),
    };
    let entitlements = match text_field_of(&v, "token") {
        Some(t) => t,
        None => return Err("No entitlements token".to_string()),
    };
    let puuid = match text_field_of(&v, "subject") {
        Some(t) => t,
        None => return Err("No subject/puuid".to_string()),
    };
    Ok(EntitlementTokens { access_token, entitlements, puuid })
}

/// `v.outer.key` as text, when present.
pub open spec fn nested_text(v: serde_json::Value, outer: Seq<char>, key: Seq<char>) -> Option<Seq<char>> {
    match member(v, outer) {
        Some(o) => text_field(o, key),
        None => None,
    }
}

fn nested_text_of(v: &serde_json::Value, outer: &str, key: &str) -> (r: Option<String>)
    ensures
        match r {
            Some(t) => nested_text(*v, outer@, key@) == Some(t@),
            None => nested_text(*v, outer@, key@) is None,
        },
{
    match json_get(v, outer) {
        Some(o) => text_field_of(o, key),
        None => None,
    }
}

/// A non-empty text, else `fallback`.
pub open spec fn or_default(t: Option<Seq<char>>, fallback: Seq<char>) -> Seq<char> {
    match t {
        Some(s) => if s.len() > 0 {
            s
        } else {
            fallback
        },
        None => fallback,
    }
}

/// The account's name and tag in a user-info answer, `Unknown` and `0000` when absent.
pub open spec fn account_names_of(raw: Seq<char>) -> (Seq<char>, Seq<char>) {
    match json_parsed(utf8_of(raw)) {
        Some(v) => (
            or_default(nested_text(v, "acct"@, "game_name"@), "Unknown"@),
            or_default(nested_text(v, "acct"@, "tag_line"@), "0000"@),
        ),
        None => ("Unknown"@, "0000"@),
    }
}

/// Reads the account's name and tag from a user-info answer.
pub fn account_names(raw: &str) -> (r: (String, String))
    ensures
        (r.0@, r.1@) == account_names_of(raw@),
{
    let v = match parse_json(raw.as_bytes()) {
        Some(v) => v,
        None => return ("Unknown".to_string(), "0000".to_string()),
    };
    let name = match nested_text_of(&v, "acct", "game_name") {
        Some(n) => if n.unicode_len() > 0 {
            n
        } else {
            "Unknown".to_string()
        },
        None => "Unknown".to_string(),
    };
    let tag = match nested_text_of(&v, "acct", "tag_line") {
        Some(t) => if t.unicode_len() > 0 {
            t
        } else {
            "0000".to_string()
        },
        None => "0000".to_string(),
    };
    (name, tag)
}

/// `s` without trailing NUL characters.
pub open spec fn without_trailing_nuls(s: Seq<char>) -> Seq<char>
    decreases s.len(),
{
    if s.len() > 0 && s.last() == '\0' {
        without_trailing_nuls(s.drop_last())
    } else {
        s
    }
}

/// The client version in a version answer (trimmed, trailing NULs dropped), else `unknown`.
pub open spec fn client_version_of(body: Seq<char>) -> Seq<char> {
    match json_parsed(utf8_of(without_trailing_nuls(trimmed(body)))) {
        Some(v) => match nested_text(v, "data"@, "riotClientVersion"@) {
            Some(t) => t,
            None => "unknown"@,
        },
        None => "unknown"@,
    }
}

/// Reads the client version from the version service's answer.
pub fn client_version_from(body: &str) -> (r: String)
    ensures
        r@ == client_version_of(body@),
{
    let t = trim_text(body);
    let cs = chars_of(t.as_str());
    let mut j = cs.len();
    assert(t@.subrange(0, j as int) =~= t@);
    while j > 0 && cs[j - 1] == '\0'
        invariant
            cs@ == t@,
            j <= cs.len(),
            without_trailing_nuls(t@) == without_trailing_nuls(t@.subrange(0, j as int)),
        decreases j,
    {
        assert(t@.subrange(0, j as int).drop_last() =~= t@.subrange(0, j - 1));
        j -= 1;
    }
    let clean = slice_text(t.as_str(), 0, j);
    match parse_json(clean.as_str().as_bytes()) {
        Some(v) => match nested_text_of(&v, "data", "riotClientVersion") {
            Some(s) => s,
            None => "unknown".to_string(),
        },
        None => "unknown".to_string(),
    }
}

/// The card id in a loadout answer: `Identity.PlayerCardID`.
pub fn card_id_from_loadout(raw: &str) -> (r: Option<String>)
    ensures
        match r {
            Some(c) => json_parsed(utf8_of(raw@)) matches Some(v) && nested_text(
                v,
                "Identity"@,
                "PlayerCardID"@,
            ) == Some(c@),
            None => match json_parsed(utf8_of(raw@)) {
                Some(v) => nested_text(v, "Identity"@, "PlayerCardID"@) is None,
                None => true,
            },
        },
{
    match parse_json(raw.as_bytes()) {
        Some(v) => nested_text_of(&v, "Identity", "PlayerCardID"),
        None => None,
    }
}

/// The small-art image address of a player card.
pub fn player_card_url(card_id: &str) -> (r: String)
    ensures
        r@ == "https://media.valorant-api.com/playercards/"@ + card_id@ + "/smallart.png"@,
{
    "https://media.valorant-api.com/playercards/".to_string().concat(card_id).concat("/smallart.png")
}

} // verus!
