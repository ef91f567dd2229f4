//! The login handshake as a state machine: each step takes what the last read gave and says
//! what to write and read next. The caller performs the I/O.
use vstd::prelude::*;
use crate::codec::{dec_text, u64_text};
use crate::error::XmppError;
use crate::json::{json_object_pairs, json_pairs};
use crate::log::{lemma_appended_push, log_appended_all, log_view, record, LogRecord};
use crate::presence::{applied_all, friends_view, lacks_id, lemma_applied_all_lacks_self};
use crate::session::{notes_logged, received_tag, ReadOutcome, XmppState};
use crate::stanza::{bound_identity, extract_jid, extract_real_valorant_payload, self_presence, stanzas};
use crate::presence::update_notes;
use crate::text::{chars_of, contains, contains_chars};

verus! {

/// Reads made while draining the initial presence broadcast, at most.
pub const DRAIN_READS: u8 = 8;

/// Where the handshake stands: what the last action waits for.
#[derive(Clone, Copy, Debug, PartialEq, Eq, Structural)]
pub enum Stage {
    /// The stream preamble was sent; waiting for the stream features.
    Opening,
    /// The auth stanza was sent; waiting for the verdict.
    Authenticating,
    /// The preamble was sent again after auth; waiting for the features.
    Restarting,
    /// The bind request was sent; waiting for the bound identity.
    Binding,
    /// The session request was sent; waiting for its answer.
    Establishing,
    /// The entitlements were sent; waiting for a short answer, possibly none.
    Entitling,
    /// The initial presence was sent; this many chunks of the roster dump were read so far.
    Draining(u8),
    /// The session is established.
    Done,
    /// The handshake was aborted.
    Failed,
}

/// What the caller is to do next.
pub enum Action {
    /// Write `data`, then read until the text received holds `marker`, for at most
    /// `timeout_secs` seconds.
    WriteThenReadUntil { data: String, marker: String, timeout_secs: u64 },
    /// Write `data`, then read what arrives within `timeout_ms`.
    WriteThenRead { data: String, timeout_ms: u64 },
    /// Read what arrives within `timeout_ms`.
    Read { timeout_ms: u64 },
    /// The session is established: hand the transport to it.
    Finish,
    /// Give up: drop the transport; the session stays unconnected.
    Abort(XmppError),
}

/// What an `Action` holds.
pub enum ActionView {
    WriteThenReadUntil(Seq<char>, Seq<char>, u64),
    WriteThenRead(Seq<char>, u64),
    Read(u64),
    Finish,
    Abort(XmppError),
}

impl View for Action {
    type V = ActionView;

    open spec fn view(&self) -> ActionView {
        match self {
            Action::WriteThenReadUntil { data, marker, timeout_secs } => ActionView::WriteThenReadUntil(
                data@,
                marker@,
                *timeout_secs,
            ),
            Action::WriteThenRead { data, timeout_ms } => ActionView::WriteThenRead(
                data@,
                *timeout_ms,
            ),
            Action::Read { timeout_ms } => ActionView::Read(*timeout_ms),
            Action::Finish => ActionView::Finish,
            Action::Abort(e) => ActionView::Abort(*e),
        }
    }
}

/// The stream preamble naming the target domain.
pub open spec fn stream_open(domain: Seq<char>) -> Seq<char> {
    "<?xml version=\"1.0\"?><stream:stream to=\""@ + domain
        + ".pvp.net\" version=\"1.0\" xmlns:stream=\"http://etherx.jabber.org/streams\">"@
}

/// The auth stanza carrying the access token and the routing token.
pub open spec fn auth_stanza(access: Seq<char>, pas: Seq<char>) -> Seq<char> {
    "<auth mechanism=\"X-Riot-RSO-PAS\" xmlns=\"urn:ietf:params:xml:ns:xmpp-sasl\"><rso_token>"@
        + access + "</rso_token><pas_token>"@ + pas + "</pas_token></auth>"@
}

/// The resource-bind request.
pub open spec fn bind_stanza(resource: Seq<char>) -> Seq<char> {
    "<iq id=\"_xmpp_bind1\" type=\"set\"><bind xmlns=\"urn:ietf:params:xml:ns:xmpp-bind\"><resource>"@
        + resource + "</resource></bind></iq>"@
}

/// The session-establish request.
pub open spec fn session_stanza() -> Seq<char> {
    "<iq id=\"_xmpp_session1\" type=\"set\"><session xmlns=\"urn:ietf:params:xml:ns:xmpp-session\"/></iq>"@
}

/// The entitlements stanza carrying the entitlements token.
pub open spec fn entitlements_stanza(token: Seq<char>) -> Seq<char> {
    "<iq id=\"xmpp_entitlements_0\" type=\"set\"><entitlements xmlns=\"urn:riotgames:entitlements\"><token xmlns=\"\">"@
        + token + "</token></entitlements></iq>"@
}

/// The resource id generated at time `now`.
pub open spec fn resource_id(now: u64) -> Seq<char> {
    "RC-"@ + dec_text((now % 10_000_000_000) as nat)
}

/// What the log shows of the auth stanza.
pub open spec fn auth_redacted() -> Seq<char> {
    "<auth mechanism=\"X-Riot-RSO-PAS\">[tokens redacted]</auth>"@
}

/// What the log shows of the entitlements stanza.
pub open spec fn entitlements_redacted() -> Seq<char> {
    "<iq id=\"xmpp_entitlements_0\"> [entitlements token]</iq>"@
}

/// The response refuses the credentials.
pub open spec fn is_auth_failure(resp: Seq<char>) -> bool {
    contains(resp, "<failure"@) || contains(resp, "not-authorized"@)
}

/// The login handshake in progress.
pub struct Handshake {
    pub stage: Stage,
    pub stream_open: String,
    pub access_token: String,
    pub pas_token: String,
    pub entitlements: String,
    pub resource: String,
    pub self_id: String,
    /// The initial presence broadcast read so far.
    pub collected: String,
}

/// The log line for a captured template: how many top-level fields it has.
pub open spec fn capture_note(v: serde_json::Value) -> Seq<char> {
    "Captured real valorant data: "@ + dec_text(
        match json_pairs(v) {
            Some(ps) => ps.len(),
            None => 0,
        },
    ) + " fields"@
}

/// The session log grew by `es`; nothing else of the session changed.
pub open spec fn only_logged<S>(a: XmppState<S>, b: XmppState<S>, es: Seq<LogRecord>) -> bool {
    &&& log_view(b.logs@) == log_appended_all(log_view(a.logs@), es)
    &&& b.connected == a.connected
    &&& b.stream == a.stream
    &&& b.friends == a.friends
    &&& b.puuid == a.puuid
    &&& b.jid == a.jid
    &&& b.real_valorant_data == a.real_valorant_data
    &&& b.real_keystone_ts == a.real_keystone_ts
}

/// The session after the handshake's last step: the captured template if the buffer holds
/// one, the cache seeded from the buffer, the user's id recorded, and the closing log lines.
pub open spec fn finished<S>(
    a: XmppState<S>,
    b: XmppState<S>,
    start_log: Seq<LogRecord>,
    collected: Seq<char>,
    self_id: Seq<char>,
    now: u64,
) -> bool {
    let cap = self_presence(collected, self_id);
    let l1 = match cap {
        Some(c) => log_appended_all(
            start_log,
            seq![record("system"@, capture_note(c.0), now)],
        ),
        None => start_log,
    };
    let l2 = notes_logged(
        l1,
        "f_debug"@,
        update_notes(stanzas(collected), self_id, b.friends@.len() as nat),
        now,
    );
    &&& friends_view(b.friends@) == applied_all(
        friends_view(a.friends@),
        stanzas(collected),
        self_id,
        now,
    )
    &&& log_view(b.logs@) == log_appended_all(
        l2,
        seq![
            record(
                "system"@,
                "Captured "@ + dec_text(b.friends@.len() as nat) + " friend presences"@,
                now,
            ),
            record("system"@, "Connected and authenticated!"@, now),
        ],
    )
    &&& b.real_valorant_data == match cap {
        Some(c) => Some(c.0),
        None => a.real_valorant_data,
    }
    &&& b.real_keystone_ts == match cap {
        Some(c) => Some(c.1),
        None => a.real_keystone_ts,
    }
    &&& b.puuid@ == self_id
    &&& b.connected == a.connected
    &&& b.stream == a.stream
    &&& b.jid == a.jid
}

impl Handshake {
    /// The handshake stands for a session that is not connected and whose cache holds no
    /// entry for the user.
    pub open spec fn fits<S>(&self, s: XmppState<S>) -> bool {
        &&& s.wf()
        &&& !s.connected
        &&& lacks_id(friends_view(s.friends@), self.self_id@)
    }

    /// A handshake towards `domain` with these credentials, its resource id generated at `now`.
    pub fn new(
        domain: &str,
        access_token: String,
        pas_token: String,
        entitlements: String,
        self_id: String,
        now: u64,
    ) -> (r: Handshake)
        ensures
            r.stage == Stage::Opening,
            r.stream_open@ == stream_open(domain@),
            r.access_token == access_token,
            r.pas_token == pas_token,
            r.entitlements == entitlements,
            r.resource@ == resource_id(now),
            r.self_id == self_id,
            r.collected@.len() == 0,
    {
        let open = "<?xml version=\"1.0\"?><stream:stream to=\"".to_string().concat(domain).concat(
            ".pvp.net\" version=\"1.0\" xmlns:stream=\"http://etherx.jabber.org/streams\">",
        );
        let n = u64_text(now % 10_000_000_000);
        let resource = "RC-".to_string().concat(n.as_str());
        Handshake {
            stage: Stage::Opening,
            stream_open: open,
            access_token,
            pas_token,
            entitlements,
            resource,
            self_id,
            collected: String::new(),
        }
    }

    /// The first action: send the preamble and wait for the stream features.
    pub fn start<S>(&mut self, session: &mut XmppState<S>, now: u64) -> (r: Action)
        requires
            old(self).stage == Stage::Opening,
        ensures
            *final(self) == *old(self),
            r@ == ActionView::WriteThenReadUntil(
                old(self).stream_open@,
                "</stream:features>"@,
                10,
            ),
            only_logged(*old(session), *final(session), seq![record("sent"@, old(self).stream_open@, now)]),
    {
        session.add_log("sent", self.stream_open.as_str(), now);
        proof {
            lemma_appended_push(log_view(old(session).logs@), Seq::empty(), record("sent"@, self.stream_open@, now));
            assert(Seq::<LogRecord>::empty().push(record("sent"@, self.stream_open@, now)) =~= seq![record("sent"@, self.stream_open@, now)]);
        }
        Action::WriteThenReadUntil {
            data: self.stream_open.clone(),
            marker: "</stream:features>".to_string(),
            timeout_secs: 10,
        }
    }
}

/// Appends one entry to the session log, tracking the entries appended since `base`.
fn log_more<S>(
    session: &mut XmppState<S>,
    dir: &str,
    data: &str,
    now: u64,
    base: Ghost<Seq<LogRecord>>,
    es: Ghost<Seq<LogRecord>>,
)
    requires
        log_view(old(session).logs@) == log_appended_all(base@, es@),
    ensures
        log_view(final(session).logs@) == log_appended_all(base@, es@.push(record(dir@, data@, now))),
        final(session).connected == old(session).connected,
        final(session).stream == old(session).stream,
        final(session).friends == old(session).friends,
        final(session).puuid == old(session).puuid,
        final(session).jid == old(session).jid,
        final(session).real_valorant_data == old(session).real_valorant_data,
        final(session).real_keystone_ts == old(session).real_keystone_ts,
{
    session.add_log(dir, data, now);
    proof {
        lemma_appended_push(base@, es@, record(dir@, data@, now));
    }
}

impl Handshake {
    /// Closes the handshake: captures the self-presence template from the collected
    /// broadcast, seeds the cache from it, and records the user's id.
    fn finish<S>(&mut self, session: &mut XmppState<S>, now: u64)
        requires
            old(self).fits(*old(session)),
        ensures
            final(session).wf(),
            finished(
                *old(session),
                *final(session),
                log_view(old(session).logs@),
                old(self).collected@,
                old(self).self_id@,
                now,
            ),
            final(self).stage == Stage::Done,
            final(self).self_id == old(self).self_id,
    {
        let ghost s0 = *session;
        let ghost l0 = log_view(session.logs@);
        let cap = extract_real_valorant_payload(self.collected.as_str(), self.self_id.as_str());
        match cap {
            Some((v, ts)) => {
                let count = match json_object_pairs(&v) {
                    Some(ps) => ps.len(),
                    None => 0,
                };
                let n = u64_text(count as u64);
                let line = "Captured real valorant data: ".to_string().concat(n.as_str()).concat(
                    " fields",
                );
                assert(line@ == capture_note(v));
                log_more(session, "system", line.as_str(), now, Ghost(l0), Ghost(Seq::empty()));
                assert(Seq::<LogRecord>::empty().push(record("system"@, line@, now))
                    =~= seq![record("system"@, line@, now)]);
                session.real_valorant_data = Some(v);
                session.real_keystone_ts = Some(ts);
            },
            None => {
                assert(log_appended_all(l0, Seq::empty()) == l0);
            },
        }
        session.absorb_presences(self.collected.as_str(), self.self_id.as_str(), now);
        proof {
            lemma_applied_all_lacks_self(
                friends_view(s0.friends@),
                stanzas(self.collected@),
                self.self_id@,
                now,
            );
        }
        let ghost l2 = log_view(session.logs@);
        let n = u64_text(session.friends.len() as u64);
        let line = "Captured ".to_string().concat(n.as_str()).concat(" friend presences");
        assert(log_appended_all(l2, Seq::empty()) == l2);
        log_more(session, "system", line.as_str(), now, Ghost(l2), Ghost(Seq::empty()));
        let ghost es1 = seq![record("system"@, line@, now)];
        log_more(session, "system", "Connected and authenticated!", now, Ghost(l2), Ghost(es1));
        assert(Seq::<LogRecord>::empty().push(record("system"@, line@, now)) =~= seq![record("system"@, line@, now)]);
        assert(seq![record("system"@, line@, now)].push(record("system"@, "Connected and authenticated!"@, now))
            =~= seq![record("system"@, line@, now), record("system"@, "Connected and authenticated!"@, now)]);
        session.puuid = self.self_id.clone();
        self.stage = Stage::Done;
    }

    /// Takes what the last action read and decides the next action. A transport failure
    /// aborts; a refused auth aborts with `AuthFailed`; a bind answer without an identity
    /// aborts with `BindFailed`. The session is left unconnected throughout: on `Finish` the
    /// caller hands it the transport.
    pub fn step<S>(&mut self, session: &mut XmppState<S>, read: ReadOutcome, now: u64) -> (r: Action)
        requires
            old(self).stage != Stage::Done,
            old(self).stage != Stage::Failed,
            old(self).fits(*old(session)),
        ensures
            final(session).wf(),
            !final(session).connected,
            final(session).stream is None,
            final(self).self_id == old(self).self_id,
            final(self).stage != Stage::Done && final(self).stage != Stage::Failed ==> final(self).fits(*final(session)),
            match read {
                ReadOutcome::Closed => final(self).stage == Stage::Failed
                    && r@ == ActionView::Abort(XmppError::ConnectionClosed)
                    && only_logged(*old(session), *final(session), Seq::empty()),
                ReadOutcome::Failed(e) => final(self).stage == Stage::Failed
                    && r@ == ActionView::Abort(XmppError::Io(e))
                    && only_logged(*old(session), *final(session), Seq::empty()),
                ReadOutcome::Data(d) => match old(self).stage {
                    Stage::Opening => final(self).stage == Stage::Authenticating
                        && r@ == ActionView::WriteThenRead(auth_stanza(old(self).access_token@, old(self).pas_token@), 10000)
                        && only_logged(*old(session), *final(session), seq![record("recv"@, d@, now), record("sent"@, auth_redacted(), now)]),
                    Stage::Authenticating => if is_auth_failure(d@) {
                        final(self).stage == Stage::Failed
                            && r@ == ActionView::Abort(XmppError::AuthFailed(d))
                            && only_logged(*old(session), *final(session), seq![record("recv"@, d@, now)])
                    } else {
                        final(self).stage == Stage::Restarting
                            && r@ == ActionView::WriteThenReadUntil(old(self).stream_open@, "</stream:features>"@, 10)
                            && only_logged(*old(session), *final(session), seq![record("recv"@, d@, now), record("sent"@, old(self).stream_open@, now)])
                    },
                    Stage::Restarting => final(self).stage == Stage::Binding
                        && r@ == ActionView::WriteThenReadUntil(bind_stanza(old(self).resource@), "</iq>"@, 10)
                        && only_logged(*old(session), *final(session), seq![record("recv"@, d@, now), record("sent"@, bind_stanza(old(self).resource@), now)]),
                    Stage::Binding => if bound_identity(d@).len() == 0 {
                        final(self).stage == Stage::Failed
                            && r@ == ActionView::Abort(XmppError::BindFailed)
                            && only_logged(*old(session), *final(session), seq![record("recv"@, d@, now)])
                    } else {
                        final(self).stage == Stage::Establishing
                            && r@ == ActionView::WriteThenReadUntil(session_stanza(), "</iq>"@, 10)
                            && final(session).jid@ == bound_identity(d@)
                            && only_logged(*old(session), XmppState { jid: old(session).jid, ..*final(session) }, seq![
                                record("recv"@, d@, now),
                                record("system"@, "Bound JID: "@ + bound_identity(d@), now),
                                record("sent"@, session_stanza(), now),
                            ])
                    },
                    Stage::Establishing => final(self).stage == Stage::Entitling
                        && r@ == ActionView::WriteThenRead(entitlements_stanza(old(self).entitlements@), 2000)
                        && only_logged(*old(session), *final(session), seq![record("recv"@, d@, now), record("sent"@, entitlements_redacted(), now)]),
                    Stage::Entitling => final(self).stage == Stage::Draining(0)
                        && r@ == ActionView::WriteThenRead("<presence/>"@, 1500)
                        && only_logged(*old(session), *final(session),
                            if d@.len() > 0 { seq![record("recv"@, d@, now), record("sent"@, "<presence/>"@, now)] }
                            else { seq![record("sent"@, "<presence/>"@, now)] }),
                    Stage::Draining(k) => if d@.len() == 0 {
                        final(self).stage == Stage::Done && r@ == ActionView::Finish
                            && finished(*old(session), *final(session), log_view(old(session).logs@), old(self).collected@, old(self).self_id@, now)
                    } else if k + 1 >= DRAIN_READS {
                        final(self).stage == Stage::Done && r@ == ActionView::Finish
                            && finished(*old(session), *final(session),
                                log_appended_all(log_view(old(session).logs@), seq![record(received_tag(d@, old(self).self_id@), d@, now)]),
                                old(self).collected@ + d@, old(self).self_id@, now)
                    } else {
                        final(self).stage == Stage::Draining((k + 1) as u8)
                            && final(self).collected@ == old(self).collected@ + d@
                            && r@ == ActionView::Read(1500)
                            && only_logged(*old(session), *final(session), seq![record(received_tag(d@, old(self).self_id@), d@, now)])
                    },
                    _ => false,
                },
            },
    {
        let ghost l0 = log_view(session.logs@);
        let ghost e0 = Seq::<LogRecord>::empty();
        assert(log_appended_all(l0, e0) == l0);
        let d = match read {
            ReadOutcome::Closed => {
                self.stage = Stage::Failed;
                return Action::Abort(XmppError::ConnectionClosed);
            },
            ReadOutcome::Failed(e) => {
                self.stage = Stage::Failed;
                return Action::Abort(XmppError::Io(e));
            },
            ReadOutcome::Data(d) => d,
        };
        let ghost r1 = record("recv"@, d@, now);
        match self.stage {
            Stage::Opening => {
                log_more(session, "recv", d.as_str(), now, Ghost(l0), Ghost(e0));
                log_more(session, "sent", "<auth mechanism=\"X-Riot-RSO-PAS\">[tokens redacted]</auth>", now, Ghost(l0), Ghost(e0.push(r1)));
                assert(e0.push(r1).push(record("sent"@, auth_redacted(), now)) =~= seq![r1, record("sent"@, auth_redacted(), now)]);
                let auth = "<auth mechanism=\"X-Riot-RSO-PAS\" xmlns=\"urn:ietf:params:xml:ns:xmpp-sasl\"><rso_token>".to_string()
                    .concat(self.access_token.as_str()).concat("</rso_token><pas_token>")
                    .concat(self.pas_token.as_str()).concat("</pas_token></auth>");
                self.stage = Stage::Authenticating;
                Action::WriteThenRead { data: auth, timeout_ms: 10000 }
            },
            Stage::Authenticating => {
                log_more(session, "recv", d.as_str(), now, Ghost(l0), Ghost(e0));
                assert(e0.push(r1) =~= seq![r1]);
                let dc = chars_of(d.as_str());
                if contains_chars(&dc, &chars_of("<failure")) || contains_chars(&dc, &chars_of("not-authorized")) {
                    self.stage = Stage::Failed;
                    return Action::Abort(XmppError::AuthFailed(d));
                }
                log_more(session, "sent", self.stream_open.as_str(), now, Ghost(l0), Ghost(e0.push(r1)));
                assert(e0.push(r1).push(record("sent"@, self.stream_open@, now)) =~= seq![r1, record("sent"@, self.stream_open@, now)]);
                self.stage = Stage::Restarting;
                Action::WriteThenReadUntil {
                    data: self.stream_open.clone(),
                    marker: "</stream:features>".to_string(),
                    timeout_secs: 10,
                }
            },
            Stage::Restarting => {
                let bind = "<iq id=\"_xmpp_bind1\" type=\"set\"><bind xmlns=\"urn:ietf:params:xml:ns:xmpp-bind\"><resource>".to_string()
                    .concat(self.resource.as_str()).concat("</resource></bind></iq>");
                log_more(session, "recv", d.as_str(), now, Ghost(l0), Ghost(e0));
                log_more(session, "sent", bind.as_str(), now, Ghost(l0), Ghost(e0.push(r1)));
                assert(e0.push(r1).push(record("sent"@, bind@, now)) =~= seq![r1, record("sent"@, bind@, now)]);
                self.stage = Stage::Binding;
                Action::WriteThenReadUntil { data: bind, marker: "</iq>".to_string(), timeout_secs: 10 }
            },
            Stage::Binding => {
                let jid = extract_jid(d.as_str());
                log_more(session, "recv", d.as_str(), now, Ghost(l0), Ghost(e0));
                assert(e0.push(r1) =~= seq![r1]);
                if jid.unicode_len() == 0 {
                    self.stage = Stage::Failed;
                    return Action::Abort(XmppError::BindFailed);
                }
                let line = "Bound JID: ".to_string().concat(jid.as_str());
                let ghost r2 = record("system"@, line@, now);
                log_more(session, "system", line.as_str(), now, Ghost(l0), Ghost(e0.push(r1)));
                let sess = "<iq id=\"_xmpp_session1\" type=\"set\"><session xmlns=\"urn:ietf:params:xml:ns:xmpp-session\"/></iq>";
                log_more(session, "sent", sess, now, Ghost(l0), Ghost(e0.push(r1).push(r2)));
                assert(e0.push(r1).push(r2).push(record("sent"@, session_stanza(), now)) =~= seq![r1, r2, record("sent"@, session_stanza(), now)]);
                session.jid = jid;
                self.stage = Stage::Establishing;
                Action::WriteThenReadUntil { data: sess.to_string(), marker: "</iq>".to_string(), timeout_secs: 10 }
            },
            Stage::Establishing => {
                log_more(session, "recv", d.as_str(), now, Ghost(l0), Ghost(e0));
                log_more(session, "sent", "<iq id=\"xmpp_entitlements_0\"> [entitlements token]</iq>", now, Ghost(l0), Ghost(e0.push(r1)));
                assert(e0.push(r1).push(record("sent"@, entitlements_redacted(), now)) =~= seq![r1, record("sent"@, entitlements_redacted(), now)]);
                let ent = "<iq id=\"xmpp_entitlements_0\" type=\"set\"><entitlements xmlns=\"urn:riotgames:entitlements\"><token xmlns=\"\">".to_string()
                    .concat(self.entitlements.as_str()).concat("</token></entitlements></iq>");
                self.stage = Stage::Entitling;
                Action::WriteThenRead { data: ent, timeout_ms: 2000 }
            },
            Stage::Entitling => {
                let ghost rs = record("sent"@, "<presence/>"@, now);
                if d.unicode_len() > 0 {
                    log_more(session, "recv", d.as_str(), now, Ghost(l0), Ghost(e0));
                    log_more(session, "sent", "<presence/>", now, Ghost(l0), Ghost(e0.push(r1)));
                    assert(e0.push(r1).push(rs) =~= seq![r1, rs]);
                } else {
                    log_more(session, "sent", "<presence/>", now, Ghost(l0), Ghost(e0));
                    assert(e0.push(rs) =~= seq![rs]);
                }
                self.stage = Stage::Draining(0);
                Action::WriteThenRead { data: "<presence/>".to_string(), timeout_ms: 1500 }
            },
            Stage::Draining(k) => {
                if d.unicode_len() == 0 {
                    self.finish(session, now);
                    return Action::Finish;
                }
                let own = self.self_id.clone();
                let mentions = own.unicode_len() > 0 && contains_chars(&chars_of(d.as_str()), &chars_of(own.as_str()));
                let tag = if mentions { "own_presence" } else { "recv" };
                proof {
                    reveal_strlit("own_presence");
                    reveal_strlit("recv");
                }
                let ghost rt = record(received_tag(d@, own@), d@, now);
                log_more(session, tag, d.as_str(), now, Ghost(l0), Ghost(e0));
                assert(e0.push(rt) =~= seq![rt]);
                self.collected = self.collected.clone().concat(d.as_str());
                if k >= DRAIN_READS - 1 {
                    self.finish(session, now);
                    return Action::Finish;
                }
                self.stage = Stage::Draining(k + 1);
                Action::Read { timeout_ms: 1500 }
            },
            _ => {
                Action::Finish
            },
        }
    }
}

} // verus!
