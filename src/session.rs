//! The presence session: connection flag, owned transport handle, identity, captured
//! template, presence cache and diagnostic log, with the updates that polling makes.
use vstd::prelude::*;
use crate::json::{
    json_as_array, json_as_str, json_get, json_items, json_parsed, json_str, member,
    member_text, parse_json, text_or_empty,
};
use crate::log::{add_log, log_appended, log_appended_all, log_view, record, LogRecord, XmppLog};
use crate::presence::{
    applied_all, friend_index, friends_view, lacks_id, lemma_applied_all_lacks_self, unique_ids,
    update_friends_from_xml, update_notes, FriendPresence, FriendRecord,
};
use crate::stanza::stanzas;
use crate::error::XmppError;
use crate::text::utf8_of;
use crate::text::{chars_of, contains, contains_chars};

verus! {

/// What one read of the transport gave.
pub enum ReadOutcome {
    /// The bytes that arrived in time, decoded as text; empty if none did.
    Data(String),
    /// The peer closed the connection and nothing was buffered.
    Closed,
    /// Any other transport failure, described.
    Failed(String),
}

/// A snapshot of the session for display.
pub struct XmppStatus {
    pub connected: bool,
    pub jid: String,
    pub region: String,
    pub uptime_secs: u64,
    pub log_count: usize,
    pub real_card_id: String,
    pub real_title_id: String,
    pub premier_data: Option<serde_json::Value>,
}

/// `payload.playerPresenceData[key]` as text, or empty.
pub open spec fn player_field(payload: Option<serde_json::Value>, key: Seq<char>) -> Seq<char> {
    match payload {
        Some(d) => match member(d, "playerPresenceData"@) {
            Some(p) => match member(p, key) {
                Some(v) => match json_str(v) {
                    Some(t) => t,
                    None => Seq::empty(),
                },
                None => Seq::empty(),
            },
            None => Seq::empty(),
        },
        None => Seq::empty(),
    }
}

/// `payload.premierPresenceData`, when present.
pub open spec fn premier_of(payload: Option<serde_json::Value>) -> Option<serde_json::Value> {
    match payload {
        Some(d) => member(d, "premierPresenceData"@),
        None => None,
    }
}

fn player_field_of(payload: &Option<serde_json::Value>, key: &str) -> (r: String)
    ensures
        r@ == player_field(*payload, key@),
{
    match payload {
        Some(d) => match json_get(d, "playerPresenceData") {
            Some(p) => match json_get(p, key) {
                Some(v) => match json_as_str(v) {
                    Some(t) => t,
                    None => String::new(),
                },
                None => String::new(),
            },
            None => String::new(),
        },
        None => String::new(),
    }
}

/// The ids of the peers whose display name is not known yet, in cache order.
pub open spec fn unnamed_ids(fs: Seq<FriendRecord>) -> Seq<Seq<char>>
    decreases fs.len(),
{
    if fs.len() == 0 {
        Seq::empty()
    } else if fs.last().game_name.len() == 0 {
        unnamed_ids(fs.drop_last()).push(fs.last().puuid)
    } else {
        unnamed_ids(fs.drop_last())
    }
}

/// The cache after one name-service entry: the peer it names gets its name and tag.
pub open spec fn named(fs: Seq<FriendRecord>, e: serde_json::Value) -> Seq<FriendRecord> {
    match friend_index(fs, text_or_empty(e, "Subject"@)) {
        Some(i) => fs.update(
            i,
            FriendRecord {
                game_name: text_or_empty(e, "GameName"@),
                game_tag: text_or_empty(e, "TagLine"@),
                ..fs[i]
            },
        ),
        None => fs,
    }
}

/// The cache after each name-service entry in turn.
pub open spec fn named_all(fs: Seq<FriendRecord>, es: Seq<serde_json::Value>) -> Seq<FriendRecord>
    decreases es.len(),
{
    if es.len() == 0 {
        fs
    } else {
        named(named_all(fs, es.drop_last()), es.last())
    }
}

/// The presence session. `S` is the transport handle, owned here and driven by the caller.
pub struct XmppState<S> {
    pub connected: bool,
    pub stream: Option<S>,
    pub logs: Vec<XmppLog>,
    pub jid: String,
    pub puuid: String,
    pub xmpp_region: String,
    /// When the session was established, in ms since the epoch.
    pub connected_at: Option<u64>,
    pub real_valorant_data: Option<serde_json::Value>,
    pub real_keystone_ts: Option<u64>,
    pub friends: Vec<FriendPresence>,
}

/// The log after appending an entry with direction `dir` to each of `lines`.
pub open spec fn notes_logged(
    logs: Seq<LogRecord>,
    dir: Seq<char>,
    lines: Seq<Seq<char>>,
    now: u64,
) -> Seq<LogRecord> {
    log_appended_all(logs, lines.map_values(|l: Seq<char>| record(dir, l, now)))
}

/// The direction tag of received traffic: `own_presence` when it mentions the user's id.
pub open spec fn received_tag(data: Seq<char>, self_id: Seq<char>) -> Seq<char> {
    if self_id.len() > 0 && contains(data, self_id) {
        "own_presence"@
    } else {
        "recv"@
    }
}

impl<S> Default for XmppState<S> {
    /// A fresh, unconnected session with nothing recorded.
    fn default() -> (r: XmppState<S>)
        ensures
            r.wf(),
            !r.connected,
            r.logs@.len() == 0,
            r.friends@.len() == 0,
            r.real_valorant_data is None,
            r.real_keystone_ts is None,
            r.connected_at is None,
    {
        XmppState::new()
    }
}

impl<S> XmppState<S> {
    /// Connected exactly when a transport handle is held; peer ids unique and never the user's.
    pub open spec fn wf(&self) -> bool {
        &&& self.connected == self.stream is Some
        &&& unique_ids(friends_view(self.friends@))
        &&& lacks_id(friends_view(self.friends@), self.puuid@)
    }

    /// A fresh, unconnected session with nothing recorded.
    pub fn new() -> (r: Self)
        ensures
            r.wf(),
            !r.connected,
            r.logs@.len() == 0,
            r.friends@.len() == 0,
            r.real_valorant_data is None,
            r.real_keystone_ts is None,
            r.connected_at is None,
            r.jid@.len() == 0,
            r.puuid@.len() == 0,
            r.xmpp_region@.len() == 0,
    {
        XmppState {
            connected: false,
            stream: None,
            logs: Vec::new(),
            jid: String::new(),
            puuid: String::new(),
            xmpp_region: String::new(),
            connected_at: None,
            real_valorant_data: None,
            real_keystone_ts: None,
            friends: Vec::new(),
        }
    }

    /// Appends a diagnostic entry; nothing else changes.
    pub fn add_log(&mut self, direction: &str, data: &str, now: u64)
        ensures
            log_view(final(self).logs@) == log_appended(
                log_view(old(self).logs@),
                record(direction@, data@, now),
            ),
            final(self).connected == old(self).connected,
            final(self).stream == old(self).stream,
            final(self).friends == old(self).friends,
            final(self).puuid == old(self).puuid,
            final(self).jid == old(self).jid,
            final(self).xmpp_region == old(self).xmpp_region,
            final(self).connected_at == old(self).connected_at,
            final(self).real_valorant_data == old(self).real_valorant_data,
            final(self).real_keystone_ts == old(self).real_keystone_ts,
    {
        add_log(&mut self.logs, direction, data, now);
    }

    /// Appends one entry with direction `dir` for each of `lines`, in order.
    pub fn add_logs(&mut self, dir: &str, lines: &Vec<String>, now: u64)
        ensures
            log_view(final(self).logs@) == notes_logged(
                log_view(old(self).logs@),
                dir@,
                lines@.map_values(|l: String| l@),
                now,
            ),
            final(self).connected == old(self).connected,
            final(self).stream == old(self).stream,
            final(self).friends == old(self).friends,
            final(self).puuid == old(self).puuid,
            final(self).jid == old(self).jid,
            final(self).xmpp_region == old(self).xmpp_region,
            final(self).connected_at == old(self).connected_at,
            final(self).real_valorant_data == old(self).real_valorant_data,
            final(self).real_keystone_ts == old(self).real_keystone_ts,
    {
        let ghost start = log_view(self.logs@);
        let ghost ls = lines@.map_values(|l: String| l@);
        let mut i: usize = 0;
        while i < lines.len()
            invariant
                i <= lines.len(),
                ls == lines@.map_values(|l: String| l@),
                log_view(self.logs@) == notes_logged(start, dir@, ls.take(i as int), now),
                self.connected == old(self).connected,
                self.stream == old(self).stream,
                self.friends == old(self).friends,
                self.puuid == old(self).puuid,
                self.jid == old(self).jid,
                self.xmpp_region == old(self).xmpp_region,
                self.connected_at == old(self).connected_at,
                self.real_valorant_data == old(self).real_valorant_data,
                self.real_keystone_ts == old(self).real_keystone_ts,
            decreases lines.len() - i,
        {
            let ghost es = ls.take(i + 1).map_values(|l: Seq<char>| record(dir@, l, now));
            assert(es.drop_last() =~= ls.take(i as int).map_values(
                |l: Seq<char>| record(dir@, l, now),
            ));
            assert(es.last() == record(dir@, lines[i as int]@, now));
            add_log(&mut self.logs, dir, lines[i].as_str(), now);
            i += 1;
        }
        assert(ls.take(lines.len() as int) =~= ls);
    }

    /// Folds a received buffer into the presence cache and logs its diagnostic lines.
    pub fn absorb_presences(&mut self, data: &str, self_id: &str, now: u64)
        requires
            unique_ids(friends_view(old(self).friends@)),
        ensures
            unique_ids(friends_view(final(self).friends@)),
            friends_view(final(self).friends@) == applied_all(
                friends_view(old(self).friends@),
                stanzas(data@),
                self_id@,
                now,
            ),
            log_view(final(self).logs@) == notes_logged(
                log_view(old(self).logs@),
                "f_debug"@,
                update_notes(stanzas(data@), self_id@, final(self).friends@.len() as nat),
                now,
            ),
            final(self).connected == old(self).connected,
            final(self).stream == old(self).stream,
            final(self).puuid == old(self).puuid,
            final(self).jid == old(self).jid,
            final(self).xmpp_region == old(self).xmpp_region,
            final(self).connected_at == old(self).connected_at,
            final(self).real_valorant_data == old(self).real_valorant_data,
            final(self).real_keystone_ts == old(self).real_keystone_ts,
    {
        let notes = update_friends_from_xml(data, self_id, &mut self.friends, now);
        self.add_logs("f_debug", &notes, now);
    }

    /// Closes the session: the handle is handed back for the caller to close, and the
    /// captured template, cache and log stay for inspection.
    pub fn xmpp_disconnect(&mut self, now: u64) -> (r: Option<S>)
        requires
            old(self).wf(),
        ensures
            final(self).jid == old(self).jid,
            final(self).xmpp_region == old(self).xmpp_region,
            final(self).connected_at == old(self).connected_at,
            final(self).real_keystone_ts == old(self).real_keystone_ts,
            final(self).wf(),
            r == old(self).stream,
            !final(self).connected,
            final(self).stream is None,
            log_view(final(self).logs@) == log_appended(
                log_view(old(self).logs@),
                record("system"@, "Disconnected"@, now),
            ),
            final(self).friends == old(self).friends,
            final(self).puuid == old(self).puuid,
            final(self).real_valorant_data == old(self).real_valorant_data,
            final(self).real_keystone_ts == old(self).real_keystone_ts,
    {
        let s = self.stream.take();
        self.connected = false;
        self.add_log("system", "Disconnected", now);
        s
    }

    /// Starts a new connection attempt: an open session is closed (its handle handed back for
    /// the caller to close), and the cache and log are emptied.
    pub fn begin_connect(&mut self, now: u64) -> (r: Option<S>)
        requires
            old(self).wf(),
        ensures
            final(self).jid == old(self).jid,
            final(self).xmpp_region == old(self).xmpp_region,
            final(self).connected_at == old(self).connected_at,
            final(self).real_keystone_ts == old(self).real_keystone_ts,
            final(self).wf(),
            r == old(self).stream,
            !final(self).connected,
            final(self).stream is None,
            final(self).friends@.len() == 0,
            log_view(final(self).logs@) == seq![record("system"@, "Fetching PAS token..."@, now)],
            final(self).puuid == old(self).puuid,
            final(self).real_valorant_data == old(self).real_valorant_data,
            final(self).real_keystone_ts == old(self).real_keystone_ts,
    {
        let s = self.stream.take();
        self.connected = false;
        self.logs = Vec::new();
        self.friends = Vec::new();
        assert(log_view(self.logs@) =~= Seq::<LogRecord>::empty());
        self.add_log("system", "Fetching PAS token...", now);
        assert(log_view(self.logs@) =~= seq![record("system"@, "Fetching PAS token..."@, now)]);
        s
    }

    /// Hands the established transport to the session, which is now connected.
    pub fn attach(&mut self, stream: S, now: u64)
        requires
            old(self).wf(),
        ensures
            final(self).wf(),
            final(self).connected,
            final(self).stream == Some(stream),
            final(self).connected_at == Some(now),
            final(self).logs == old(self).logs,
            final(self).friends == old(self).friends,
            final(self).puuid == old(self).puuid,
            final(self).jid == old(self).jid,
            final(self).real_valorant_data == old(self).real_valorant_data,
            final(self).real_keystone_ts == old(self).real_keystone_ts,
    {
        self.stream = Some(stream);
        self.connected = true;
        self.connected_at = Some(now);
    }

    /// Succeeds exactly when the session is connected, so that a raw write may be made.
    pub fn require_connected(&self) -> (r: Result<(), XmppError>)
        ensures
            r is Ok == self.connected,
            r matches Err(e) ==> e == XmppError::NotConnected,
    {
        if self.connected {
            Ok(())
        } else {
            Err(XmppError::NotConnected)
        }
    }

    /// The session at `now`: uptime counts only while connected; the card, title and premier
    /// data come from the captured template.
    pub fn xmpp_get_status(&self, now: u64) -> (r: XmppStatus)
        ensures
            r.connected == self.connected,
            r.jid@ == self.jid@,
            r.region@ == self.xmpp_region@,
            r.uptime_secs == match self.connected_at {
                Some(t) => if self.connected && now >= t {
                    ((now - t) / 1000) as u64
                } else {
                    0
                },
                None => 0,
            },
            r.log_count == self.logs@.len(),
            r.real_card_id@ == player_field(self.real_valorant_data, "playerCardId"@),
            r.real_title_id@ == player_field(self.real_valorant_data, "playerTitleId"@),
            r.premier_data == premier_of(self.real_valorant_data),
    {
        let uptime = match self.connected_at {
            Some(t) => if self.connected && now >= t {
                (now - t) / 1000
            } else {
                0
            },
            None => 0,
        };
        let premier = match &self.real_valorant_data {
            Some(d) => match json_get(d, "premierPresenceData") {
                Some(p) => Some(p.clone()),
                None => None,
            },
            None => None,
        };
        XmppStatus {
            connected: self.connected,
            jid: self.jid.clone(),
            region: self.xmpp_region.clone(),
            uptime_secs: uptime,
            log_count: self.logs.len(),
            real_card_id: player_field_of(&self.real_valorant_data, "playerCardId"),
            real_title_id: player_field_of(&self.real_valorant_data, "playerTitleId"),
            premier_data: premier,
        }
    }

    /// The ids of the peers whose display name is not known yet, in cache order.
    pub fn unresolved_friends(&self) -> (r: Vec<String>)
        ensures
            r@.map_values(|s: String| s@) == unnamed_ids(friends_view(self.friends@)),
    {
        let ghost fv = friends_view(self.friends@);
        let mut out: Vec<String> = Vec::new();
        let mut i: usize = 0;
        while i < self.friends.len()
            invariant
                i <= self.friends.len(),
                fv == friends_view(self.friends@),
                out@.map_values(|s: String| s@) == unnamed_ids(fv.take(i as int)),
            decreases self.friends.len() - i,
        {
            assert(fv.take(i + 1).drop_last() =~= fv.take(i as int));
            let ghost before = out@;
            if self.friends[i].game_name.unicode_len() == 0 {
                out.push(self.friends[i].puuid.clone());
                assert(out@.map_values(|s: String| s@) =~= before.map_values(|s: String| s@).push(
                    fv[i as int].puuid,
                ));
            }
            i += 1;
        }
        assert(fv.take(self.friends.len() as int) =~= fv);
        out
    }

    /// Fills in display names from a name-service answer: a JSON array of entries with
    /// `Subject`, `GameName` and `TagLine`. Peers not in the cache are ignored; an answer
    /// that is not a JSON array changes nothing.
    pub fn apply_resolved_names(&mut self, names_json: &str)
        requires
            old(self).wf(),
        ensures
            final(self).wf(),
            friends_view(final(self).friends@) == match json_parsed(utf8_of(names_json@)) {
                Some(v) => match json_items(v) {
                    Some(es) => named_all(friends_view(old(self).friends@), es),
                    None => friends_view(old(self).friends@),
                },
                None => friends_view(old(self).friends@),
            },
            final(self).connected == old(self).connected,
            final(self).stream == old(self).stream,
            final(self).logs == old(self).logs,
            final(self).puuid == old(self).puuid,
            final(self).real_valorant_data == old(self).real_valorant_data,
    {
        let v = match parse_json(names_json.as_bytes()) {
            Some(v) => v,
            None => return,
        };
        let es = match json_as_array(&v) {
            Some(es) => es,
            None => return,
        };
        let ghost start = friends_view(self.friends@);
        let mut k: usize = 0;
        while k < es.len()
            invariant
                k <= es.len(),
                friends_view(self.friends@) == named_all(start, es@.take(k as int)),
                friends_view(self.friends@).len() == start.len(),
                forall|j: int| 0 <= j < start.len() ==> #[trigger] friends_view(self.friends@)[j].puuid == start[j].puuid,
                self.wf(),
                self.connected == old(self).connected,
                self.stream == old(self).stream,
                self.logs == old(self).logs,
                self.puuid == old(self).puuid,
                self.real_valorant_data == old(self).real_valorant_data,
            decreases es.len() - k,
        {
            let e = &es[k];
            assert(es@.take(k + 1).drop_last() =~= es@.take(k as int));
            let id = member_text(e, "Subject");
            let ghost fv = friends_view(self.friends@);
            let mut i: usize = 0;
            while i < self.friends.len()
                invariant
                    fv == friends_view(self.friends@),
                    i <= self.friends.len(),
                    forall|j: int| 0 <= j < i ==> fv[j].puuid != id@,
                ensures
                    i < self.friends.len() ==> fv[i as int].puuid == id@,
                    forall|j: int| 0 <= j < i ==> fv[j].puuid != id@,
                decreases self.friends.len() - i,
            {
                if self.friends[i].puuid == id {
                    break;
                }
                i += 1;
            }
            if i < self.friends.len() {
                let ghost c = choose|c: int| 0 <= c < fv.len() && fv[c].puuid == id@;
                assert(friend_index(fv, id@) == Some(i as int)) by {
                    assert(fv[c].puuid == fv[i as int].puuid);
                };
                let mut f = FriendPresence {
                    puuid: String::new(),
                    game_name: String::new(),
                    game_tag: String::new(),
                    show: String::new(),
                    valorant_data: None,
                    last_updated: 0,
                };
                self.friends.set_and_swap(i, &mut f);
                f.game_name = member_text(e, "GameName");
                f.game_tag = member_text(e, "TagLine");
                self.friends.set(i, f);
                assert(friends_view(self.friends@) =~= named(fv, es@[k as int]));
            } else {
                assert(friend_index(fv, id@) is None);
            }
            k += 1;
        }
        assert(es@.take(es.len() as int) =~= es@);
    }

    /// Takes in what one poll read: data is logged and folded into the cache, a closed
    /// connection ends the session (the handle is handed back), other failures are logged.
    pub fn apply_poll_read(&mut self, read: ReadOutcome, now: u64) -> (r: Option<S>)
        requires
            old(self).wf(),
        ensures
            final(self).jid == old(self).jid,
            final(self).xmpp_region == old(self).xmpp_region,
            final(self).connected_at == old(self).connected_at,
            final(self).real_keystone_ts == old(self).real_keystone_ts,
            final(self).wf(),
            final(self).puuid == old(self).puuid,
            final(self).real_valorant_data == old(self).real_valorant_data,
            match read {
                ReadOutcome::Data(d) => {
                    &&& r is None
                    &&& final(self).connected == old(self).connected
                    &&& final(self).stream == old(self).stream
                    &&& d@.len() == 0 ==> final(self).friends == old(self).friends
                        && final(self).logs == old(self).logs
                    &&& d@.len() > 0 ==> friends_view(final(self).friends@) == applied_all(
                        friends_view(old(self).friends@),
                        stanzas(d@),
                        old(self).puuid@,
                        now,
                    ) && log_view(final(self).logs@) == notes_logged(
                        log_appended(
                            log_view(old(self).logs@),
                            record(received_tag(d@, old(self).puuid@), d@, now),
                        ),
                        "f_debug"@,
                        update_notes(
                            stanzas(d@),
                            old(self).puuid@,
                            final(self).friends@.len() as nat,
                        ),
                        now,
                    )
                },
                ReadOutcome::Closed => {
                    &&& r == old(self).stream
                    &&& !final(self).connected
                    &&& final(self).stream is None
                    &&& final(self).friends == old(self).friends
                    &&& log_view(final(self).logs@) == log_appended(
                        log_view(old(self).logs@),
                        record("error"@, "Connection closed by server"@, now),
                    )
                },
                ReadOutcome::Failed(e) => {
                    &&& r is None
                    &&& final(self).connected == old(self).connected
                    &&& final(self).stream == old(self).stream
                    &&& final(self).friends == old(self).friends
                    &&& log_view(final(self).logs@) == log_appended(
                        log_view(old(self).logs@),
                        record("error"@, e@, now),
                    )
                },
            },
    {
        match read {
            ReadOutcome::Data(d) => {
                if d.unicode_len() > 0 {
                    let own = self.puuid.clone();
                    let mentions = own.unicode_len() > 0 && contains_chars(
                        &chars_of(d.as_str()),
                        &chars_of(own.as_str()),
                    );
                    if mentions {
                        self.add_log("own_presence", d.as_str(), now);
                    } else {
                        self.add_log("recv", d.as_str(), now);
                    }
                    self.absorb_presences(d.as_str(), own.as_str(), now);
                    proof {
                        lemma_applied_all_lacks_self(
                            friends_view(old(self).friends@),
                            stanzas(d@),
                            own@,
                            now,
                        );
                    }
                }
                None
            },
            ReadOutcome::Closed => {
                self.add_log("error", "Connection closed by server", now);
                self.connected = false;
                self.stream.take()
            },
            ReadOutcome::Failed(e) => {
                self.add_log("error", e.as_str(), now);
                None
            },
        }
    }
}

} // verus!
