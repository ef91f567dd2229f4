//! The presence cache: last-known presence of each peer, updated from raw stanza buffers.
use vstd::prelude::*;
use crate::codec::{dec_text, u64_text};
use crate::stanza::{
    concat_all, lemma_stanzas_then_tail, lemma_two_stanzas, well_formed_stanza, extract_puuid_from_presence, extract_show, extract_valorant_b64, iterate_stanzas, payload_of,
    sender_id, show_of, stanzas,
};
use crate::text::{chars_of, slice_text};

verus! {

/// Last-known presence of one peer.
pub struct FriendPresence {
    pub puuid: String,
    pub game_name: String,
    pub game_tag: String,
    pub show: String,
    pub valorant_data: Option<serde_json::Value>,
    pub last_updated: u64,
}

/// What a `FriendPresence` holds.
pub struct FriendRecord {
    pub puuid: Seq<char>,
    pub game_name: Seq<char>,
    pub game_tag: Seq<char>,
    pub show: Seq<char>,
    pub payload: Option<serde_json::Value>,
    pub last_updated: u64,
}

impl View for FriendPresence {
    type V = FriendRecord;

    open spec fn view(&self) -> FriendRecord {
        FriendRecord {
            puuid: self.puuid@,
            game_name: self.game_name@,
            game_tag: self.game_tag@,
            show: self.show@,
            payload: self.valorant_data,
            last_updated: self.last_updated,
        }
    }
}

/// What a sequence of friends holds.
pub open spec fn friends_view(fs: Seq<FriendPresence>) -> Seq<FriendRecord> {
    fs.map_values(|f: FriendPresence| f@)
}

/// No two entries share a peer id.
pub open spec fn unique_ids(fs: Seq<FriendRecord>) -> bool {
    forall|i: int, j: int|
        0 <= i < fs.len() && 0 <= j < fs.len() && #[trigger] fs[i].puuid == #[trigger] fs[j].puuid
            ==> i == j
}

/// The entry for peer `id`, if there is one.
pub open spec fn friend_index(fs: Seq<FriendRecord>, id: Seq<char>) -> Option<int> {
    if exists|i: int| 0 <= i < fs.len() && fs[i].puuid == id {
        Some(choose|i: int| 0 <= i < fs.len() && fs[i].puuid == id)
    } else {
        None
    }
}

/// The cache after a sighting of peer `id` at time `now`: the entry is created if new, its
/// status replaced, its payload replaced only when the sighting carries one.
pub open spec fn upsert(
    fs: Seq<FriendRecord>,
    id: Seq<char>,
    show: Seq<char>,
    payload: Option<serde_json::Value>,
    now: u64,
) -> Seq<FriendRecord> {
    match friend_index(fs, id) {
        Some(i) => fs.update(
            i,
            FriendRecord {
                show,
                payload: if payload is Some {
                    payload
                } else {
                    fs[i].payload
                },
                last_updated: now,
                ..fs[i]
            },
        ),
        None => fs.push(
            FriendRecord {
                puuid: id,
                game_name: Seq::empty(),
                game_tag: Seq::empty(),
                show,
                payload,
                last_updated: now,
            },
        ),
    }
}

/// A stanza speaks of a peer: its sender id is non-empty and not the user's own.
pub open spec fn is_peer_stanza(st: Seq<char>, self_id: Seq<char>) -> bool {
    sender_id(st).len() > 0 && sender_id(st) != self_id
}

/// The cache after one stanza.
pub open spec fn applied(
    fs: Seq<FriendRecord>,
    st: Seq<char>,
    self_id: Seq<char>,
    now: u64,
) -> Seq<FriendRecord> {
    if is_peer_stanza(st, self_id) {
        upsert(fs, sender_id(st), show_of(st), payload_of(st), now)
    } else {
        fs
    }
}

/// The cache after each of `sts` in order.
pub open spec fn applied_all(
    fs: Seq<FriendRecord>,
    sts: Seq<Seq<char>>,
    self_id: Seq<char>,
    now: u64,
) -> Seq<FriendRecord>
    decreases sts.len(),
{
    if sts.len() == 0 {
        fs
    } else {
        applied(applied_all(fs, sts.drop_last(), self_id, now), sts.last(), self_id, now)
    }
}

/// `"true"` or `"false"`.
pub open spec fn bool_text(b: bool) -> Seq<char> {
    if b {
        "true"@
    } else {
        "false"@
    }
}

/// At most the first `n` characters of `s`.
pub open spec fn prefix(s: Seq<char>, n: nat) -> Seq<char> {
    if s.len() <= n {
        s
    } else {
        s.take(n as int)
    }
}

/// The diagnostic line for one peer stanza.
pub open spec fn stanza_note(st: Seq<char>) -> Seq<char> {
    prefix(sender_id(st), 8) + ".. show="@ + show_of(st) + " val_data="@ + bool_text(
        payload_of(st) is Some,
    )
}

/// The diagnostic lines for the peer stanzas among `sts`.
pub open spec fn stanza_notes(sts: Seq<Seq<char>>, self_id: Seq<char>) -> Seq<Seq<char>>
    decreases sts.len(),
{
    if sts.len() == 0 {
        Seq::empty()
    } else {
        let rest = stanza_notes(sts.drop_last(), self_id);
        if is_peer_stanza(sts.last(), self_id) {
            rest.push(stanza_note(sts.last()))
        } else {
            rest
        }
    }
}

/// The closing diagnostic line: how many stanzas were read and how many peers are tracked.
pub open spec fn summary_note(parsed: nat, total: nat) -> Seq<char> {
    "Parsed "@ + dec_text(parsed) + " friend stanzas, total tracked: "@ + dec_text(total)
}

/// The diagnostic lines of one update: one per peer stanza, then a summary if there was any.
pub open spec fn update_notes(sts: Seq<Seq<char>>, self_id: Seq<char>, total: nat) -> Seq<
    Seq<char>,
> {
    let notes = stanza_notes(sts, self_id);
    if notes.len() > 0 {
        notes.push(summary_note(notes.len(), total))
    } else {
        notes
    }
}

/// Records a sighting of peer `id` in the cache.
fn upsert_friend(
    friends: &mut Vec<FriendPresence>,
    id: String,
    show: String,
    payload: Option<serde_json::Value>,
    now: u64,
)
    requires
        unique_ids(friends_view(old(friends)@)),
    ensures
        unique_ids(friends_view(final(friends)@)),
        friends_view(final(friends)@) == upsert(friends_view(old(friends)@), id@, show@, payload, now),
{
    let ghost fv = friends_view(friends@);
    let mut i: usize = 0;
    while i < friends.len()
        invariant
            fv == friends_view(friends@),
            forall|j: int| 0 <= j < i ==> fv[j].puuid != id@,
            i <= friends.len(),
        ensures
            i < friends.len() ==> fv[i as int].puuid == id@,
            forall|j: int| 0 <= j < i ==> fv[j].puuid != id@,
        decreases friends.len() - i,
    {
        if friends[i].puuid == id {
            break;
        }
        i += 1;
    }
    if i < friends.len() {
        assert(fv[i as int].puuid == id@);
        let ghost k = choose|k: int| 0 <= k < fv.len() && fv[k].puuid == id@;
        assert(friend_index(fv, id@) == Some(i as int)) by {
            assert(fv[k].puuid == fv[i as int].puuid);
        };
        let mut f = FriendPresence {
            puuid: String::new(),
            game_name: String::new(),
            game_tag: String::new(),
            show: String::new(),
            valorant_data: None,
            last_updated: 0,
        };
        friends.set_and_swap(i, &mut f);
        f.show = show;
        if payload.is_some() {
            f.valorant_data = payload;
        }
        f.last_updated = now;
        friends.set(i, f);
        assert(friends_view(friends@) =~= upsert(fv, id@, show@, payload, now));
    } else {
        assert(friend_index(fv, id@) is None);
        friends.push(
            FriendPresence {
                puuid: id,
                game_name: String::new(),
                game_tag: String::new(),
                show,
                valorant_data: payload,
                last_updated: now,
            },
        );
        assert(friends_view(friends@) =~= upsert(fv, id@, show@, payload, now));
    }
}

/// `"true"` or `"false"`.
fn bool_string(b: bool) -> (r: String)
    ensures
        r@ == bool_text(b),
{
    if b {
        "true".to_string()
    } else {
        "false".to_string()
    }
}

/// The diagnostic line for a peer stanza with these fields.
fn note_for(id: &str, show: &str, has_payload: bool) -> (r: String)
    ensures
        r@ == prefix(id@, 8) + ".. show="@ + show@ + " val_data="@ + bool_text(has_payload),
{
    let n = chars_of(id).len();
    let cut = if n <= 8 {
        n
    } else {
        8
    };
    let head = slice_text(id, 0, cut);
    assert(head@ == prefix(id@, 8)) by {
        if id@.len() <= 8 {
            assert(id@.subrange(0, id@.len() as int) =~= id@);
        }
    };
    let b = bool_string(has_payload);
    head.concat(".. show=").concat(show).concat(" val_data=").concat(b.as_str())
}

/// The closing diagnostic line of an update.
fn summary_for(parsed: usize, total: usize) -> (r: String)
    ensures
        r@ == summary_note(parsed as nat, total as nat),
{
    let p = u64_text(parsed as u64);
    let t = u64_text(total as u64);
    "Parsed ".to_string().concat(p.as_str()).concat(" friend stanzas, total tracked: ").concat(
        t.as_str(),
    )
}

/// Folds every presence stanza of `data` into the cache, skipping the user's own and those
/// without a sender; returns the diagnostic lines of the update.
pub fn update_friends_from_xml(
    data: &str,
    own_puuid: &str,
    friends: &mut Vec<FriendPresence>,
    now: u64,
) -> (r: Vec<String>)
    requires
        unique_ids(friends_view(old(friends)@)),
    ensures
        unique_ids(friends_view(final(friends)@)),
        friends_view(final(friends)@) == applied_all(
            friends_view(old(friends)@),
            stanzas(data@),
            own_puuid@,
            now,
        ),
        r@.map_values(|s: String| s@) == update_notes(
            stanzas(data@),
            own_puuid@,
            final(friends)@.len() as nat,
        ),
{
    let sts = iterate_stanzas(data);
    let ghost all = stanzas(data@);
    let ghost start = friends_view(friends@);
    let own = own_puuid.to_string();
    let mut notes: Vec<String> = Vec::new();
    let mut i: usize = 0;
    while i < sts.len()
        invariant
            sts.len() == all.len(),
            forall|j: int| 0 <= j < sts.len() ==> #[trigger] sts[j]@ == all[j],
            own@ == own_puuid@,
            i <= sts.len(),
            unique_ids(friends_view(friends@)),
            friends_view(friends@) == applied_all(start, all.take(i as int), own_puuid@, now),
            notes@.map_values(|s: String| s@) == stanza_notes(all.take(i as int), own_puuid@),
            notes.len() <= i,
        decreases sts.len() - i,
    {
        let st = &sts[i];
        assert(all.take(i + 1).drop_last() =~= all.take(i as int));
        assert(all.take(i + 1).last() == st@);
        let id = extract_puuid_from_presence(st.as_str());
        let ghost before = notes@;
        if id.unicode_len() > 0 && !(id == own) {
            let show = extract_show(st.as_str());
            let payload = extract_valorant_b64(st.as_str());
            let note = note_for(id.as_str(), show.as_str(), payload.is_some());
            upsert_friend(friends, id, show, payload, now);
            notes.push(note);
            assert(notes@.map_values(|s: String| s@) =~= before.map_values(|s: String| s@).push(
                note@,
            ));
        }
        i += 1;
    }
    assert(all.take(sts.len() as int) =~= all);
    if notes.len() > 0 {
        let total = friends.len();
        let ghost before = notes@;
        let s = summary_for(notes.len(), total);
        notes.push(s);
        assert(notes@.map_values(|s: String| s@) =~= before.map_values(|s: String| s@).push(
            s@,
        ));
    }
    notes
}

/// A sighting keeps peer ids unique, and afterwards the peer has an entry: the one it had
/// before, or a new one at the end.
pub proof fn lemma_upsert(
    fs: Seq<FriendRecord>,
    id: Seq<char>,
    show: Seq<char>,
    payload: Option<serde_json::Value>,
    now: u64,
)
    requires
        unique_ids(fs),
    ensures
        unique_ids(upsert(fs, id, show, payload, now)),
        friend_index(upsert(fs, id, show, payload, now), id) == match friend_index(fs, id) {
            Some(i) => Some(i),
            None => Some(fs.len() as int),
        },
        friend_index(fs, id) is None ==> upsert(fs, id, show, payload, now).len() == fs.len() + 1,
        friend_index(fs, id) is Some ==> upsert(fs, id, show, payload, now).len() == fs.len(),
{
    let r = upsert(fs, id, show, payload, now);
    let i = match friend_index(fs, id) {
        Some(i) => i,
        None => fs.len() as int,
    };
    assert(r[i].puuid == id);
    assert forall|a: int, b: int|
        0 <= a < r.len() && 0 <= b < r.len() && #[trigger] r[a].puuid == #[trigger] r[b].puuid
            implies a == b by {
        if friend_index(fs, id) is None {
            if a < fs.len() && b < fs.len() {
                assert(fs[a].puuid == fs[b].puuid);
            }
        } else {
            assert(fs[a].puuid == r[a].puuid);
            assert(fs[b].puuid == r[b].puuid);
        }
    };
    let k = choose|k: int| 0 <= k < r.len() && r[k].puuid == id;
    assert(r[k].puuid == r[i].puuid);
}

/// Feeding the same one-stanza buffer twice leaves exactly one entry for its peer, at the
/// same place and with the same number of entries as after the first time, stamped with the
/// second time.
pub proof fn lemma_update_twice(
    fs: Seq<FriendRecord>,
    data: Seq<char>,
    self_id: Seq<char>,
    first: u64,
    second: u64,
)
    requires
        unique_ids(fs),
        stanzas(data).len() == 1,
        is_peer_stanza(stanzas(data)[0], self_id),
    ensures
        ({
            let id = sender_id(stanzas(data)[0]);
            let once = applied_all(fs, stanzas(data), self_id, first);
            let twice = applied_all(once, stanzas(data), self_id, second);
            &&& unique_ids(twice)
            &&& twice.len() == once.len()
            &&& friend_index(twice, id) == friend_index(once, id)
            &&& friend_index(twice, id) matches Some(i) && twice[i].last_updated == second
                && once[i].last_updated == first
        }),
{
    let st = stanzas(data)[0];
    let id = sender_id(st);
    let sts = stanzas(data);
    assert(sts.drop_last() =~= Seq::<Seq<char>>::empty());
    assert(applied_all(fs, sts.drop_last(), self_id, first) == fs);
    let once = applied_all(fs, sts, self_id, first);
    assert(once == upsert(fs, id, show_of(st), payload_of(st), first));
    lemma_upsert(fs, id, show_of(st), payload_of(st), first);
    assert(applied_all(once, sts.drop_last(), self_id, second) == once);
    let twice = applied_all(once, sts, self_id, second);
    assert(twice == upsert(once, id, show_of(st), payload_of(st), second));
    lemma_upsert(once, id, show_of(st), payload_of(st), second);
}

/// A sighting without a payload leaves the stored payload of that peer as it was, while its
/// status is replaced.
pub proof fn lemma_payload_sticky(
    fs: Seq<FriendRecord>,
    st: Seq<char>,
    self_id: Seq<char>,
    now: u64,
)
    requires
        unique_ids(fs),
        is_peer_stanza(st, self_id),
        payload_of(st) is None,
        friend_index(fs, sender_id(st)) is Some,
    ensures
        ({
            let i = friend_index(fs, sender_id(st))->0;
            let after = applied(fs, st, self_id, now);
            &&& after.len() == fs.len()
            &&& after[i].payload == fs[i].payload
            &&& after[i].show == show_of(st)
            &&& after[i].last_updated == now
        }),
{
}

/// No entry has the id `id`.
pub open spec fn lacks_id(fs: Seq<FriendRecord>, id: Seq<char>) -> bool {
    forall|i: int| 0 <= i < fs.len() ==> #[trigger] fs[i].puuid != id
}

/// Updates never create an entry for the user's own id.
pub proof fn lemma_applied_all_lacks_self(
    fs: Seq<FriendRecord>,
    sts: Seq<Seq<char>>,
    self_id: Seq<char>,
    now: u64,
)
    requires
        lacks_id(fs, self_id),
    ensures
        lacks_id(applied_all(fs, sts, self_id, now), self_id),
    decreases sts.len(),
{
    if sts.len() > 0 {
        lemma_applied_all_lacks_self(fs, sts.drop_last(), self_id, now);
        let before = applied_all(fs, sts.drop_last(), self_id, now);
        let st = sts.last();
        if is_peer_stanza(st, self_id) {
            let after = upsert(before, sender_id(st), show_of(st), payload_of(st), now);
            assert forall|i: int| 0 <= i < after.len() implies #[trigger] after[i].puuid
                != self_id by {
                if i < before.len() {
                    assert(after[i].puuid == before[i].puuid);
                }
            };
        }
    }
}

/// The diagnostic line of one stanza, if it speaks of a peer.
pub open spec fn note_if_peer(st: Seq<char>, self_id: Seq<char>) -> Seq<Seq<char>> {
    if is_peer_stanza(st, self_id) {
        seq![stanza_note(st)]
    } else {
        Seq::empty()
    }
}

/// A buffer of two complete presence stanzas updates the cache with the first, then the
/// second, and notes each peer stanza in that order.
pub proof fn lemma_update_two_stanzas(
    fs: Seq<FriendRecord>,
    a: Seq<char>,
    b: Seq<char>,
    self_id: Seq<char>,
    now: u64,
)
    requires
        well_formed_stanza(a),
        well_formed_stanza(b),
    ensures
        applied_all(fs, stanzas(a + b), self_id, now) == applied(
            applied(fs, a, self_id, now),
            b,
            self_id,
            now,
        ),
        stanza_notes(stanzas(a + b), self_id) == note_if_peer(a, self_id) + note_if_peer(
            b,
            self_id,
        ),
{
    lemma_two_stanzas(a, b);
    let sts = seq![a, b];
    assert(sts.drop_last() =~= seq![a]);
    assert(seq![a].drop_last() =~= Seq::<Seq<char>>::empty());
    assert(applied_all(fs, Seq::<Seq<char>>::empty(), self_id, now) == fs);
    assert(stanza_notes(Seq::<Seq<char>>::empty(), self_id) == Seq::<Seq<char>>::empty());
    assert(seq![a].last() == a && sts.last() == b);
    assert(applied_all(fs, seq![a], self_id, now) == applied(fs, a, self_id, now));
    assert(stanza_notes(seq![a], self_id) =~= note_if_peer(a, self_id));
    assert(stanza_notes(sts, self_id) =~= note_if_peer(a, self_id) + note_if_peer(b, self_id));
}

/// A trailing fragment without an end tag (such as an unmatched start tag) after complete
/// stanzas changes neither the cache update nor its notes: both are those of the stanzas alone.
pub proof fn lemma_update_ignores_tail(
    fs: Seq<FriendRecord>,
    ss: Seq<Seq<char>>,
    t: Seq<char>,
    self_id: Seq<char>,
    now: u64,
)
    requires
        forall|i: int| 0 <= i < ss.len() ==> well_formed_stanza(#[trigger] ss[i]),
        !crate::text::contains(t, "</presence>"@),
    ensures
        stanzas(concat_all(ss) + t) == ss,
        applied_all(fs, stanzas(concat_all(ss) + t), self_id, now) == applied_all(
            fs,
            stanzas(concat_all(ss)),
            self_id,
            now,
        ),
        stanza_notes(stanzas(concat_all(ss) + t), self_id) == stanza_notes(
            stanzas(concat_all(ss)),
            self_id,
        ),
{
    lemma_stanzas_then_tail(ss, t);
    let e = Seq::<char>::empty();
    assert(crate::text::find_from(e, "</presence>"@, 0) is None) by {
        reveal_strlit("</presence>");
    };
    lemma_stanzas_then_tail(ss, e);
    assert(concat_all(ss) + e =~= concat_all(ss));
}

} // verus!
