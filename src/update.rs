//! The application's update check: is a release newer than the running version, and which of
//! its assets is the installer.
use vstd::prelude::*;
use crate::json::{
    json_as_array, json_get, json_items, json_parsed, member, member_text, parse_json,
    text_or_empty,
};
use crate::codec::{parse_u64, parsed_u64};
use crate::text::{chars_of, contains, contains_chars, find_chars, find_from, matches_at, occurs_at, slice_text, utf8_of};

verus! {

/// What `u32::from_str` accepts: the `u64` grammar, within range.
pub open spec fn parsed_u32(s: Seq<char>) -> Option<u32> {
    match parsed_u64(s) {
        Some(n) => if n <= u32::MAX {
            Some(n as u32)
        } else {
            None
        },
        None => None,
    }
}

/// The pieces of `s` from `from`, split at each `.`; there is always at least one.
pub open spec fn pieces_from(s: Seq<char>, from: int) -> Seq<Seq<char>>
    decreases s.len() + 1 - from,
{
    match find_from(s, seq!['.'], from) {
        Some(i) => if from <= i < s.len() {
            seq![s.subrange(from, i)] + pieces_from(s, i + 1)
        } else {
            Seq::empty()
        },
        None => seq![s.subrange(from, s.len() as int)],
    }
}

/// The numbers among pieces, those that do not parse skipped.
pub open spec fn numbers_of(ps: Seq<Seq<char>>) -> Seq<u32>
    decreases ps.len(),
{
    if ps.len() == 0 {
        Seq::empty()
    } else {
        match parsed_u32(ps.last()) {
            Some(n) => numbers_of(ps.drop_last()).push(n),
            None => numbers_of(ps.drop_last()),
        }
    }
}

/// The numeric parts of a dotted version.
pub open spec fn version_parts(s: Seq<char>) -> Seq<u32> {
    numbers_of(pieces_from(s, 0))
}

/// `a` comes after `b` in lexicographic order (a longer sequence after its own prefix).
pub open spec fn lex_after(a: Seq<u32>, b: Seq<u32>) -> bool
    decreases a.len(),
{
    if a.len() == 0 {
        false
    } else if b.len() == 0 {
        true
    } else if a[0] != b[0] {
        a[0] > b[0]
    } else {
        lex_after(a.drop_first(), b.drop_first())
    }
}

/// `s` without its leading `v`s.
pub open spec fn without_v(s: Seq<char>) -> Seq<char>
    decreases s.len(),
{
    if s.len() > 0 && s[0] == 'v' {
        without_v(s.drop_first())
    } else {
        s
    }
}

/// The numeric parts of a dotted version, pieces that are not numbers skipped.
pub fn parse_version(s: &str) -> (r: Vec<u32>)
    ensures
        r@ == version_parts(s@),
{
    let cs = chars_of(s);
    let dot = chars_of(".");
    proof {
        reveal_strlit(".");
    }
    let mut out: Vec<u32> = Vec::new();
    let mut from: usize = 0;
    let ghost mut done: Seq<Seq<char>> = Seq::empty();
    loop
        invariant
            cs@ == s@,
            dot@ == seq!['.'],
            from <= cs.len(),
            pieces_from(s@, 0) == done + pieces_from(s@, from as int),
            out@ == numbers_of(done),
        decreases cs.len() - from,
    {
        let (end, last) = match find_chars(&cs, &dot, from) {
            Some(i) => (i, false),
            None => (cs.len(), true),
        };
        let piece = slice_text(s, from, end);
        let ghost next = done.push(piece@);
        assert(next.drop_last() =~= done);
        match parse_u64(piece.as_str()) {
            Some(n) => if n <= 4294967295 {
                out.push(n as u32);
            },
            None => {},
        }
        if last {
            assert(pieces_from(s@, from as int) == seq![piece@]);
            assert(done + seq![piece@] =~= next);
            proof {
                done = next;
            }
            return out;
        }
        assert(pieces_from(s@, from as int) == seq![piece@] + pieces_from(s@, end + 1));
        assert(done + pieces_from(s@, from as int) =~= next + pieces_from(s@, end + 1));
        proof {
            done = next;
        }
        from = end + 1;
    }
}

/// Whether `a` comes after `b` in lexicographic order.
pub fn version_after(a: &Vec<u32>, b: &Vec<u32>) -> (r: bool)
    ensures
        r == lex_after(a@, b@),
{
    let mut i: usize = 0;
    assert(a@.skip(0) =~= a@ && b@.skip(0) =~= b@);
    while i < a.len() && i < b.len()
        invariant
            i <= a.len(),
            i <= b.len(),
            forall|j: int| 0 <= j < i ==> a@[j] == b@[j],
            lex_after(a@, b@) == lex_after(a@.skip(i as int), b@.skip(i as int)),
        decreases a.len() - i,
    {
        if a[i] != b[i] {
            return a[i] > b[i];
        }
        assert(a@.skip(i as int).drop_first() =~= a@.skip(i + 1));
        assert(b@.skip(i as int).drop_first() =~= b@.skip(i + 1));
        i += 1;
    }
    i < a.len()
}

/// A release tag without its leading `v`s.
pub fn release_version(tag: &str) -> (r: String)
    ensures
        r@ == without_v(tag@),
{
    let cs = chars_of(tag);
    let mut i: usize = 0;
    assert(tag@.subrange(0, tag@.len() as int) =~= tag@);
    while i < cs.len() && cs[i] == 'v'
        invariant
            cs@ == tag@,
            i <= cs.len(),
            without_v(tag@) == without_v(tag@.subrange(i as int, tag@.len() as int)),
        decreases cs.len() - i,
    {
        assert(tag@.subrange(i as int, tag@.len() as int).drop_first() =~= tag@.subrange(
            i + 1,
            tag@.len() as int,
        ));
        i += 1;
    }
    slice_text(tag, i, cs.len())
}

/// A release is newer than the running version: its version is non-empty, differs, and
/// compares after it part by part.
pub open spec fn is_newer(latest: Seq<char>, current: Seq<char>) -> bool {
    latest.len() > 0 && latest != current && lex_after(version_parts(latest), version_parts(current))
}

/// Whether the release `latest` is newer than `current`.
pub fn newer_release(latest: &str, current: &str) -> (r: bool)
    ensures
        r == is_newer(latest@, current@),
{
    if latest.unicode_len() == 0 || latest.to_string() == current.to_string() {
        return false;
    }
    version_after(&parse_version(latest), &parse_version(current))
}

/// An asset is an installer: its name ends with `.exe` and mentions `setup`.
pub open spec fn is_installer(name: Seq<char>) -> bool {
    name.len() >= 4 && occurs_at(name, ".exe"@, name.len() - 4) && contains(name, "setup"@)
}

/// The index of the first installer among release assets.
pub open spec fn first_installer(assets: Seq<serde_json::Value>) -> Option<int>
    decreases assets.len(),
{
    if assets.len() == 0 {
        None
    } else {
        match first_installer(assets.drop_last()) {
            Some(i) => Some(i),
            None => if is_installer(text_or_empty(assets.last(), "name"@)) {
                Some(assets.len() - 1)
            } else {
                None
            },
        }
    }
}

/// Whether an asset name is an installer's.
pub fn installer_name(name: &str) -> (r: bool)
    ensures
        r == is_installer(name@),
{
    let cs = chars_of(name);
    proof {
        reveal_strlit(".exe");
    }
    cs.len() >= 4 && matches_at(&cs, &chars_of(".exe"), cs.len() - 4) && contains_chars(
        &cs,
        &chars_of("setup"),
    )
}

/// The first installer among release assets: its name and download address.
pub fn pick_installer(assets: &Vec<serde_json::Value>) -> (r: Option<(String, String)>)
    ensures
        match r {
            Some((name, url)) => first_installer(assets@) matches Some(i) && name@ == text_or_empty(
                assets@[i],
                "name"@,
            ) && url@ == text_or_empty(assets@[i], "browser_download_url"@),
            None => first_installer(assets@) is None,
        },
{
    let mut i: usize = 0;
    while i < assets.len()
        invariant
            i <= assets.len(),
            first_installer(assets@.take(i as int)) is None,
        decreases assets.len() - i,
    {
        assert(assets@.take(i + 1).drop_last() =~= assets@.take(i as int));
        let name = member_text(&assets[i], "name");
        if installer_name(name.as_str()) {
            let url = member_text(&assets[i], "browser_download_url");
            proof {
                lemma_first_installer_prefix(assets@, i + 1);
            }
            return Some((name, url));
        }
        i += 1;
    }
    assert(assets@.take(assets.len() as int) =~= assets@);
    None
}

/// Once an installer is found in a prefix, it is the first of the whole sequence.
proof fn lemma_first_installer_prefix(assets: Seq<serde_json::Value>, n: int)
    requires
        0 <= n <= assets.len(),
        first_installer(assets.take(n)) is Some,
    ensures
        first_installer(assets) == first_installer(assets.take(n)),
    decreases assets.len() - n,
{
    if n < assets.len() {
        assert(assets.take(n + 1).drop_last() =~= assets.take(n));
        lemma_first_installer_prefix(assets, n + 1);
    } else {
        assert(assets.take(n) =~= assets);
    }
}

/// The name and download address of the first installer among a release's assets.
pub open spec fn installer_of(v: serde_json::Value) -> Option<(Seq<char>, Seq<char>)> {
    match member(v, "assets"@) {
        Some(a) => match json_items(a) {
            Some(items) => match first_installer(items) {
                Some(i) => Some(
                    (
                        text_or_empty(items[i], "name"@),
                        text_or_empty(items[i], "browser_download_url"@),
                    ),
                ),
                None => None,
            },
            None => None,
        },
        None => None,
    }
}

/// What a release check found.
pub struct UpdateInfo {
    pub update: bool,
    pub latest: String,
    pub download_url: String,
    pub asset_name: String,
    pub release_url: String,
}

/// Reads the latest-release answer against the running version `current`.
pub fn check_release(body: &str, current: &str) -> (r: Result<UpdateInfo, String>)
    ensures
        match r {
            Ok(u) => json_parsed(utf8_of(body@)) matches Some(v) && {
                let latest = without_v(text_or_empty(v, "tag_name"@));
                &&& u.latest@ == latest
                &&& u.update == is_newer(latest, current@)
                &&& u.release_url@ == text_or_empty(v, "html_url"@)
                &&& (u.asset_name@, u.download_url@) == if u.update {
                    match installer_of(v) {
                        Some(p) => p,
                        None => (Seq::<char>::empty(), Seq::<char>::empty()),
                    }
                } else {
                    (Seq::<char>::empty(), Seq::<char>::empty())
                }
            },
            Err(_) => json_parsed(utf8_of(body@)) is None,
        },
{
    let v = match parse_json(body.as_bytes()) {
        Some(v) => v,
        None => return Err("parse: invalid JSON".to_string()),
    };
    let tag = member_text(&v, "tag_name");
    let latest = release_version(tag.as_str());
    let update = newer_release(latest.as_str(), current);
    let release_url = member_text(&v, "html_url");
    let mut download_url = String::new();
    let mut asset_name = String::new();
    if update {
        if let Some(a) = json_get(&v, "assets") {
            if let Some(items) = json_as_array(a) {
                if let Some((name, url)) = pick_installer(&items) {
                    asset_name = name;
                    download_url = url;
                }
            }
        }
    }
    Ok(UpdateInfo { update, latest, download_url, asset_name, release_url })
}

} // verus!
