//! Re-indentation of pretty-printed JSON into the tab-indented, CRLF-separated form that the
//! presence server expects.
use vstd::prelude::*;
use crate::config::{is_white, trim_start};
use crate::text::{chars_of, find_chars, find_from, slice_text};

verus! {

/// The number of bytes of `c` in UTF-8.
pub open spec fn utf8_len(c: char) -> nat {
    if (c as u32) < 0x80 {
        1
    } else if (c as u32) < 0x800 {
        2
    } else if (c as u32) < 0x10000 {
        3
    } else {
        4
    }
}

/// The number of bytes, in UTF-8, of the leading whitespace of `line`.
pub open spec fn lead_bytes(line: Seq<char>) -> nat
    decreases line.len(),
{
    if line.len() > 0 && is_white(line[0]) {
        utf8_len(line[0]) + lead_bytes(line.drop_first())
    } else {
        0
    }
}

/// One tab per started group of four indentation bytes.
pub open spec fn tab_count(spaces: nat) -> nat {
    spaces / 4 + if spaces % 4 > 0 {
        1nat
    } else {
        0nat
    }
}

/// `n` tab characters.
pub open spec fn tabs(n: nat) -> Seq<char> {
    Seq::new(n, |i: int| '\t')
}

/// A line with its leading whitespace replaced by tabs.
pub open spec fn tab_line(line: Seq<char>) -> Seq<char> {
    tabs(tab_count(lead_bytes(line))) + trim_start(line)
}

/// `l` without one trailing carriage return.
pub open spec fn strip_cr(l: Seq<char>) -> Seq<char> {
    if l.len() > 0 && l.last() == '\r' {
        l.drop_last()
    } else {
        l
    }
}

/// The lines of `s` from position `pos`, as `str::lines` gives them: split at `\n`, a `\r`
/// before it dropped, and no empty line after a final `\n`.
pub open spec fn lines_from(s: Seq<char>, pos: int) -> Seq<Seq<char>>
    decreases s.len() - pos,
{
    if pos < 0 || pos >= s.len() {
        Seq::empty()
    } else {
        match find_from(s, seq!['\n'], pos) {
            Some(i) => if pos <= i < s.len() {
                seq![strip_cr(s.subrange(pos, i))] + lines_from(s, i + 1)
            } else {
                Seq::empty()
            },
            None => seq![s.subrange(pos, s.len() as int)],
        }
    }
}

/// The lines of `s`.
pub open spec fn lines_of(s: Seq<char>) -> Seq<Seq<char>> {
    lines_from(s, 0)
}

/// `ls` joined with `\r\n` between them.
pub open spec fn joined(ls: Seq<Seq<char>>) -> Seq<char>
    decreases ls.len(),
{
    if ls.len() == 0 {
        Seq::empty()
    } else if ls.len() == 1 {
        ls[0]
    } else {
        joined(ls.drop_last()) + seq!['\r', '\n'] + ls.last()
    }
}

/// Pretty-printed text re-indented with tabs, its lines joined with `\r\n`.
pub open spec fn tab_indented(s: Seq<char>) -> Seq<char> {
    joined(lines_of(s).map_values(|l: Seq<char>| tab_line(l)))
}

/// Whether `c` is Unicode whitespace, and its UTF-8 length.
fn white_len(c: char) -> (r: (bool, usize))
    ensures
        r.0 == is_white(c),
        r.1 == utf8_len(c),
{
    let w = ('\u{9}' <= c && c <= '\u{d}') || c == ' ' || c == '\u{85}' || c == '\u{a0}' || c
        == '\u{1680}' || ('\u{2000}' <= c && c <= '\u{200a}') || c == '\u{2028}' || c
        == '\u{2029}' || c == '\u{202f}' || c == '\u{205f}' || c == '\u{3000}';
    let n = c as u32;
    let len: usize = if n < 0x80 {
        1
    } else if n < 0x800 {
        2
    } else if n < 0x10000 {
        3
    } else {
        4
    };
    (w, len)
}

/// The characters `from..to` of `s`, re-indented with tabs.
fn tab_line_of(s: &str, cs: &Vec<char>, from: usize, to: usize) -> (r: String)
    requires
        cs@ == s@,
        from <= to <= cs.len(),
    ensures
        r@ == tab_line(s@.subrange(from as int, to as int)),
{
    let ghost line = s@.subrange(from as int, to as int);
    let mut k = from;
    let mut q: usize = 0;
    let mut rem: usize = 0;
    assert(line =~= s@.subrange(from as int, to as int));
    loop
        invariant
            cs@ == s@,
            from <= k <= to <= cs.len(),
            rem < 4,
            q <= k - from,
            q * 4 + rem <= (k - from) * 4,
            line == s@.subrange(from as int, to as int),
            lead_bytes(line) == q * 4 + rem + lead_bytes(s@.subrange(k as int, to as int)),
            trim_start(line) == trim_start(s@.subrange(k as int, to as int)),
        ensures
            k == to || !is_white(s@[k as int]),
        decreases to - k,
    {
        if k == to {
            break;
        }
        let (w, n) = white_len(cs[k]);
        if !w {
            break;
        }
        let ghost sub = s@.subrange(k as int, to as int);
        assert(sub.drop_first() =~= s@.subrange(k + 1, to as int));
        let t = rem + n;
        assert(q * 4 + rem <= (k - from) * 4);
        q = q + t / 4;
        rem = t % 4;
        k += 1;
    }
    let ghost sub = s@.subrange(k as int, to as int);
    assert(lead_bytes(sub) == 0);
    assert(trim_start(sub) == sub);
    let count = if rem > 0 {
        assert(q < k - from) by (nonlinear_arith)
            requires
                q * 4 + rem <= (k - from) * 4,
                rem > 0,
        ;
        q + 1
    } else {
        q
    };
    assert(tab_count(lead_bytes(line)) == count) by (nonlinear_arith)
        requires
            lead_bytes(line) == q * 4 + rem,
            rem < 4,
            count == q + if rem > 0 {
                1nat
            } else {
                0nat
            },
    ;
    let mut out = String::new();
    let mut i: usize = 0;
    while i < count
        invariant
            i <= count,
            out@ == tabs(i as nat),
        decreases count - i,
    {
        proof {
            reveal_strlit("\t");
        }
        out = out.concat("\t");
        assert(out@ =~= tabs((i + 1) as nat));
        i += 1;
    }
    let rest = slice_text(s, k, to);
    out.concat(rest.as_str())
}

/// Re-indents pretty-printed text: each line's leading whitespace becomes one tab per started
/// group of four bytes, and lines are joined with `\r\n`.
pub fn format_json_tabs(pretty: &str) -> (r: String)
    ensures
        r@ == tab_indented(pretty@),
{
    let cs = chars_of(pretty);
    let nl = chars_of("\n");
    proof {
        reveal_strlit("\n");
        assert(nl@ =~= seq!['\n']);
    }
    let ghost all = pretty@;
    let mut out = String::new();
    let mut pos: usize = 0;
    let ghost mut done: Seq<Seq<char>> = Seq::empty();
    proof {
        reveal_strlit("\r\n");
    }
    loop
        invariant
            cs@ == pretty@,
            all == pretty@,
            nl@ == seq!['\n'],
            "\r\n"@ == seq!['\r', '\n'],
            pos <= cs.len(),
            lines_of(all) == done + lines_from(all, pos as int),
            out@ == joined(done.map_values(|l: Seq<char>| tab_line(l))),
            (pos == 0) == (done.len() == 0),
        ensures
            lines_from(all, pos as int) == Seq::<Seq<char>>::empty(),
        decreases cs.len() - pos,
    {
        if pos == cs.len() {
            break;
        }
        let found = find_chars(&cs, &nl, pos);
        let (line_end, next) = match found {
            Some(i) => (i, i + 1),
            None => (cs.len(), cs.len()),
        };
        let mut e = line_end;
        if found.is_some() && e > pos && cs[e - 1] == '\r' {
            e -= 1;
        }
        let ghost line = all.subrange(pos as int, e as int);
        proof {
            if found.is_some() {
                let whole = all.subrange(pos as int, line_end as int);
                if line_end > pos && all[line_end - 1] == '\r' {
                    assert(whole.drop_last() =~= line);
                } else {
                    assert(whole =~= line);
                }
                assert(strip_cr(whole) == line);
                assert(lines_from(all, pos as int) == seq![line] + lines_from(all, next as int));
            } else {
                assert(lines_from(all, next as int) == Seq::<Seq<char>>::empty());
                assert(lines_from(all, pos as int) == seq![line] + lines_from(all, next as int));
            }
        }
        let tl = tab_line_of(pretty, &cs, pos, e);
        let ghost mapped = done.map_values(|l: Seq<char>| tab_line(l));
        let ghost done2 = done.push(line);
        assert(done2.map_values(|l: Seq<char>| tab_line(l)) =~= mapped.push(tl@));
        assert(done2.map_values(|l: Seq<char>| tab_line(l)).drop_last() =~= mapped);
        if pos == 0 {
            out = tl;
        } else {
            out = out.concat("\r\n").concat(tl.as_str());
        }
        assert(done + lines_from(all, pos as int) =~= done2 + lines_from(all, next as int));
        proof {
            done = done2;
        }
        pos = next;
    }
    assert(done + Seq::<Seq<char>>::empty() =~= done);
    out
}

} // verus!
