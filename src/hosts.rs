use vstd::prelude::*;
use vstd::string::*;

verus! {

/// The line that opens the block this library writes into a hosts file.
pub const HOSTS_START: &'static str = "# focus-timer-block-start";

/// The line that closes that block.
pub const HOSTS_END: &'static str = "# focus-timer-block-end";

/// The address every blocked domain is redirected to, with its separator.
pub const SINK_PREFIX: &'static str = "0.0.0.0 ";

/// `p` occurs in `s`.
pub open spec fn has_sub(s: Seq<char>, p: Seq<char>) -> bool {
    exists|i: int| 0 <= i && i + p.len() <= s.len() && #[trigger] s.subrange(i, i + p.len()) == p
}

/// The characters that Unicode gives the White_Space property.
pub open spec fn is_white(c: char) -> bool {
    ('\u{9}' <= c && c <= '\u{d}') || c == ' ' || c == '\u{85}' || c == '\u{a0}' || c
        == '\u{1680}' || ('\u{2000}' <= c && c <= '\u{200a}') || c == '\u{2028}' || c
        == '\u{2029}' || c == '\u{202f}' || c == '\u{205f}' || c == '\u{3000}'
}

/// `s` without its trailing white space.
pub open spec fn trim_end_of(s: Seq<char>) -> Seq<char>
    decreases s.len(),
{
    if s.len() > 0 && is_white(s.last()) {
        trim_end_of(s.drop_last())
    } else {
        s
    }
}

/// The pieces of `s` between `'\n'` characters (one more than there are
/// newlines).
pub open spec fn split_nl(s: Seq<char>) -> Seq<Seq<char>>
    decreases s.len(),
{
    if s.len() == 0 {
        seq![Seq::<char>::empty()]
    } else {
        let rest = split_nl(s.drop_last());
        if s.last() == '\n' {
            rest.push(Seq::<char>::empty())
        } else {
            rest.update(rest.len() - 1, rest.last().push(s.last()))
        }
    }
}

/// `line` without one trailing carriage return.
pub open spec fn drop_cr(line: Seq<char>) -> Seq<char> {
    if line.len() > 0 && line.last() == '\r' {
        line.drop_last()
    } else {
        line
    }
}

/// The lines of `s`: each ends at `"\n"` or `"\r\n"`, which are not part of
/// it; a final line ending is optional, and an empty text has no lines.
pub open spec fn lines_of(s: Seq<char>) -> Seq<Seq<char>> {
    let pieces = split_nl(s);
    let n = pieces.len() as int;
    let ended = pieces.subrange(0, n - 1).map_values(|l: Seq<char>| drop_cr(l));
    if pieces.last().len() == 0 {
        ended
    } else {
        ended.push(pieces.last())
    }
}

/// The line ending a text uses: CRLF if it holds one anywhere, else LF.
pub open spec fn newline_of(s: Seq<char>) -> Seq<char> {
    if has_sub(s, seq!['\r', '\n']) {
        seq!['\r', '\n']
    } else {
        seq!['\n']
    }
}

/// The text kept from `lines` when dropping every block that a start marker
/// opens and an end marker closes; each kept line ends in `nl`.
pub open spec fn kept_text(lines: Seq<Seq<char>>, skipping: bool, nl: Seq<char>) -> Seq<char>
    decreases lines.len(),
{
    if lines.len() == 0 {
        Seq::empty()
    } else {
        let l = lines[0];
        let t = trim_end_of(l);
        let rest = lines.drop_first();
        if t == HOSTS_START@ {
            kept_text(rest, true, nl)
        } else if skipping {
            kept_text(rest, t != HOSTS_END@, nl)
        } else {
            l + nl + kept_text(rest, false, nl)
        }
    }
}

/// A hosts text with this library's block removed; a text without a start
/// marker is left as it is.
pub open spec fn stripped(s: Seq<char>) -> Seq<char> {
    if !has_sub(s, HOSTS_START@) {
        s
    } else {
        kept_text(lines_of(s), false, newline_of(s))
    }
}

/// The domains redirected while focus mode is on.
pub open spec fn blocked_domain_list() -> Seq<Seq<char>> {
    seq![
        "facebook.com"@,
        "www.facebook.com"@,
        "m.facebook.com"@,
        "messenger.com"@,
        "www.messenger.com"@,
        "youtube.com"@,
        "www.youtube.com"@,
        "m.youtube.com"@,
        "youtu.be"@,
        "twitter.com"@,
        "www.twitter.com"@,
        "x.com"@,
        "www.x.com"@,
        "instagram.com"@,
        "www.instagram.com"@,
        "reddit.com"@,
        "www.reddit.com"@,
        "old.reddit.com"@,
    ]
}

/// One redirect line for each domain of `ds`.
pub open spec fn redirect_lines(ds: Seq<Seq<char>>, nl: Seq<char>) -> Seq<char>
    decreases ds.len(),
{
    if ds.len() == 0 {
        Seq::empty()
    } else {
        redirect_lines(ds.drop_last(), nl) + SINK_PREFIX@ + ds.last() + nl
    }
}

/// A hosts text with a fresh block appended after any earlier one is removed.
pub open spec fn with_block(s: Seq<char>) -> Seq<char> {
    let c = stripped(s);
    let nl = newline_of(s);
    let base = if c.len() > 0 && c.last() != '\n' {
        c + nl
    } else {
        c
    };
    base + HOSTS_START@ + nl + redirect_lines(blocked_domain_list(), nl) + HOSTS_END@ + nl
}

/// Relies on str::contains with a string pattern: true iff `p` occurs in `s`.
#[verifier::external_body]
fn str_contains(s: &str, p: &str) -> (r: bool)
    ensures
        r == has_sub(s@, p@),
{
    s.contains(p)
}

/// Relies on str::lines: the text's lines, line endings removed.
#[verifier::external_body]
fn split_lines(s: &str) -> (r: Vec<String>)
    ensures
        r@.map_values(|l: String| l@) == lines_of(s@),
{
    s.lines().map(|l| l.to_string()).collect()
}

/// Relies on str::trim_end: the text without trailing white space.
#[verifier::external_body]
fn trim_end_str(s: &str) -> (r: &str)
    ensures
        r@ == trim_end_of(s@),
{
    s.trim_end()
}

/// Whether the last character of `s` is `c`.
fn ends_with_char(s: &str, c: char) -> (r: bool)
    ensures
        r == (s@.len() > 0 && s@.last() == c),
{
    let n = s.unicode_len();
    n > 0 && s.get_char(n - 1) == c
}

/// The domains redirected while focus mode is on.
pub fn blocked_domains() -> (r: Vec<&'static str>)
    ensures
        r@.map_values(|d: &str| d@) == blocked_domain_list(),
{
    let r = vec![
        "facebook.com",
        "www.facebook.com",
        "m.facebook.com",
        "messenger.com",
        "www.messenger.com",
        "youtube.com",
        "www.youtube.com",
        "m.youtube.com",
        "youtu.be",
        "twitter.com",
        "www.twitter.com",
        "x.com",
        "www.x.com",
        "instagram.com",
        "www.instagram.com",
        "reddit.com",
        "www.reddit.com",
        "old.reddit.com",
    ];
    assert(r@.map_values(|d: &str| d@) =~= blocked_domain_list());
    r
}

/// The line ending that `text` uses.
pub fn detect_newline(text: &str) -> (r: &'static str)
    ensures
        r@ == newline_of(text@),
{
    proof {
        reveal_strlit("\r\n");
        reveal_strlit("\n");
        assert("\r\n"@ =~= seq!['\r', '\n']);
        assert("\n"@ =~= seq!['\n']);
    }
    if str_contains(text, "\r\n") {
        "\r\n"
    } else {
        "\n"
    }
}

/// Whether `text` holds the start marker of this library's block.
pub fn has_block_marker(text: &str) -> (r: bool)
    ensures
        r == has_sub(text@, HOSTS_START@),
{
    str_contains(text, HOSTS_START)
}

/// Removes this library's block from a hosts text.
pub fn strip_hosts_block(existing: &str) -> (r: String)
    ensures
        r@ == stripped(existing@),
{
    if !str_contains(existing, HOSTS_START) {
        return String::from_str(existing);
    }
    let newline = detect_newline(existing);
    let lines = split_lines(existing);
    let ghost all = lines@.map_values(|l: String| l@);
    let start = String::from_str(HOSTS_START);
    let end = String::from_str(HOSTS_END);
    let mut out = String::new();
    let mut skipping = false;
    let mut i: usize = 0;
    assert(all.subrange(0, all.len() as int) =~= all);
    assert(out@ + kept_text(all, false, newline@) =~= kept_text(all, false, newline@));
    while i < lines.len()
        invariant
            i <= lines@.len(),
            all == lines@.map_values(|l: String| l@),
            all == lines_of(existing@),
            start@ == HOSTS_START@,
            end@ == HOSTS_END@,
            newline@ == newline_of(existing@),
            out@ + kept_text(all.subrange(i as int, all.len() as int), skipping, newline@)
                == kept_text(all, false, newline@),
        decreases lines.len() - i,
    {
        let ghost rest = all.subrange(i as int, all.len() as int);
        assert(rest.drop_first() =~= all.subrange(i + 1, all.len() as int));
        assert(rest[0] == lines@[i as int]@);
        let line = lines[i].as_str();
        let trimmed = String::from_str(trim_end_str(line));
        if trimmed == start {
            skipping = true;
        } else if skipping {
            if trimmed == end {
                skipping = false;
            }
        } else {
            let ghost before = out@;
            out.append(line);
            out.append(newline);
            assert(out@ + kept_text(all.subrange(i + 1, all.len() as int), skipping, newline@)
                =~= before + kept_text(rest, false, newline@));
        }
        i = i + 1;
    }
    assert(all.subrange(i as int, all.len() as int) =~= Seq::<Seq<char>>::empty());
    assert(out@ =~= out@ + Seq::<char>::empty());
    out
}

/// Adds a fresh block of redirects for the blocked domains, replacing any
/// earlier one.
pub fn append_hosts_block(existing: &str) -> (r: String)
    ensures
        r@ == with_block(existing@),
{
    let cleaned = strip_hosts_block(existing);
    let newline = detect_newline(existing);
    let mut out = cleaned;
    if !ends_with_char(out.as_str(), '\n') && out.as_str().unicode_len() != 0 {
        out.append(newline);
    }
    let ghost base = out@;
    out.append(HOSTS_START);
    out.append(newline);
    let ghost head = out@;
    let domains = blocked_domains();
    let ghost ds = domains@.map_values(|d: &str| d@);
    let mut i: usize = 0;
    while i < domains.len()
        invariant
            i <= domains@.len(),
            ds == domains@.map_values(|d: &str| d@),
            ds == blocked_domain_list(),
            newline@ == newline_of(existing@),
            out@ == head + redirect_lines(ds.subrange(0, i as int), newline@),
        decreases domains.len() - i,
    {
        assert(ds.subrange(0, i + 1).drop_last() =~= ds.subrange(0, i as int));
        out.append(SINK_PREFIX);
        out.append(domains[i]);
        out.append(newline);
        assert(out@ =~= head + redirect_lines(ds.subrange(0, i + 1), newline@));
        i = i + 1;
    }
    assert(ds.subrange(0, i as int) =~= ds);
    out.append(HOSTS_END);
    out.append(newline);
    assert(out@ =~= with_block(existing@));
    out
}

/// `s` holds no `c`.
pub open spec fn free_of(s: Seq<char>, c: char) -> bool {
    forall|i: int| 0 <= i < s.len() ==> s[i] != c
}

/// The lines `kept_text` keeps.
pub open spec fn kept_lines(lines: Seq<Seq<char>>, skipping: bool) -> Seq<Seq<char>>
    decreases lines.len(),
{
    if lines.len() == 0 {
        Seq::empty()
    } else {
        let t = trim_end_of(lines[0]);
        let rest = lines.drop_first();
        if t == HOSTS_START@ {
            kept_lines(rest, true)
        } else if skipping {
            kept_lines(rest, t != HOSTS_END@)
        } else {
            seq![lines[0]] + kept_lines(rest, false)
        }
    }
}

/// Each line of `ls` followed by `nl`, front to back.
pub open spec fn join_front(ls: Seq<Seq<char>>, nl: Seq<char>) -> Seq<char>
    decreases ls.len(),
{
    if ls.len() == 0 {
        Seq::empty()
    } else {
        ls[0] + nl + join_front(ls.drop_first(), nl)
    }
}

/// The same text, built back to front.
pub open spec fn join_back(ls: Seq<Seq<char>>, nl: Seq<char>) -> Seq<char>
    decreases ls.len(),
{
    if ls.len() == 0 {
        Seq::empty()
    } else {
        join_back(ls.drop_last(), nl) + ls.last() + nl
    }
}

proof fn lemma_kept_text_joins(lines: Seq<Seq<char>>, skipping: bool, nl: Seq<char>)
    ensures
        kept_text(lines, skipping, nl) == join_front(kept_lines(lines, skipping), nl),
        forall|k: int|
            0 <= k < kept_lines(lines, skipping).len() ==> trim_end_of(
                #[trigger] kept_lines(lines, skipping)[k],
            ) != HOSTS_START@ && exists|j: int|
                0 <= j < lines.len() && lines[j] == kept_lines(lines, skipping)[k],
    decreases lines.len(),
{
    if lines.len() > 0 {
        let rest = lines.drop_first();
        lemma_kept_text_joins(rest, true, nl);
        lemma_kept_text_joins(rest, false, nl);
        lemma_kept_text_joins(rest, trim_end_of(lines[0]) != HOSTS_END@, nl);
        let t = trim_end_of(lines[0]);
        if t != HOSTS_START@ && !skipping {
            let ks = kept_lines(lines, skipping);
            let kr = kept_lines(rest, false);
            assert(ks.drop_first() =~= kr);
            assert forall|k: int| 0 <= k < ks.len() implies trim_end_of(#[trigger] ks[k])
                != HOSTS_START@ && exists|j: int| 0 <= j < lines.len() && lines[j] == ks[k] by {
                if k == 0 {
                    assert(lines[0] == ks[0]);
                } else {
                    assert(ks[k] == kr[k - 1]);
                    let j0 = choose|j: int| 0 <= j < rest.len() && rest[j] == kr[k - 1];
                    assert(lines[j0 + 1] == ks[k]);
                }
            }
        } else {
            let ks = kept_lines(lines, skipping);
            assert forall|k: int| 0 <= k < ks.len() implies trim_end_of(#[trigger] ks[k])
                != HOSTS_START@ && exists|j: int| 0 <= j < lines.len() && lines[j] == ks[k] by {
                let j0 = choose|j: int| 0 <= j < rest.len() && rest[j] == ks[k];
                assert(lines[j0 + 1] == ks[k]);
            }
        }
    }
}

proof fn lemma_join_front_back(ls: Seq<Seq<char>>, nl: Seq<char>)
    ensures
        join_front(ls, nl) == join_back(ls, nl),
    decreases ls.len(),
{
    if ls.len() > 0 {
        lemma_join_front_back(ls.drop_first(), nl);
        if ls.len() > 1 {
            lemma_join_front_back(ls.drop_last(), nl);
            lemma_join_front_back(ls.drop_first().drop_last(), nl);
            let df = ls.drop_first();
            let dl = ls.drop_last();
            assert(df.drop_last() =~= dl.drop_first());
            assert(df.last() == ls.last());
            assert(dl[0] == ls[0]);
            let a = ls[0] + nl;
            let m = join_back(dl.drop_first(), nl);
            let l = ls.last() + nl;
            assert(join_front(ls, nl) == a + join_front(df, nl));
            assert(join_back(df, nl) == join_back(df.drop_last(), nl) + df.last() + nl);
            assert(join_back(df, nl) =~= m + l);
            assert(join_front(dl, nl) == a + join_front(dl.drop_first(), nl));
            assert(join_back(dl, nl) =~= a + m);
            assert(join_back(ls, nl) =~= (a + m) + l);
            assert(join_front(ls, nl) =~= a + (m + l));
            assert((a + m) + l =~= a + (m + l));
            assert(join_front(ls, nl) =~= join_back(ls, nl));
        } else {
            assert(ls.drop_first().len() == 0);
            assert(ls.drop_last().len() == 0);
            assert(join_front(ls.drop_first(), nl) == Seq::<char>::empty());
            assert(join_back(ls.drop_last(), nl) == Seq::<char>::empty());
            assert(ls.last() == ls[0]);
            assert(join_front(ls, nl) =~= join_back(ls, nl));
        }
    }
}

proof fn lemma_split_append_plain(s: Seq<char>, u: Seq<char>)
    requires
        free_of(u, '\n'),
    ensures
        split_nl(s + u) == split_nl(s).update(
            split_nl(s).len() - 1,
            split_nl(s).last() + u,
        ),
        split_nl(s).len() >= 1,
    decreases u.len(),
{
    lemma_split_len(s);
    if u.len() == 0 {
        assert(s + u =~= s);
        assert(split_nl(s).last() + u =~= split_nl(s).last());
        assert(split_nl(s).update(split_nl(s).len() - 1, split_nl(s).last()) =~= split_nl(s));
    } else {
        let u0 = u.drop_last();
        assert(free_of(u0, '\n')) by {
            assert forall|i: int| 0 <= i < u0.len() implies u0[i] != '\n' by {
                assert(u0[i] == u[i]);
            }
        }
        assert(u.last() == u[u.len() - 1]);
        lemma_split_append_plain(s, u0);
        assert((s + u).drop_last() =~= s + u0);
        assert((s + u).last() == u.last());
        lemma_split_len(s + u0);
        let p = split_nl(s);
        let rest = split_nl(s + u0);
        assert(rest.len() == p.len());
        assert(rest.last() == p.last() + u0);
        assert(split_nl(s + u) == rest.update(rest.len() - 1, rest.last().push(u.last())));
        assert((p.last() + u0).push(u.last()) =~= p.last() + u);
        assert(split_nl(s + u) =~= p.update(p.len() - 1, p.last() + u));
    }
}

proof fn lemma_split_len(s: Seq<char>)
    ensures
        split_nl(s).len() >= 1,
    decreases s.len(),
{
    if s.len() > 0 {
        lemma_split_len(s.drop_last());
    }
}

proof fn lemma_split_join(ls: Seq<Seq<char>>)
    requires
        forall|k: int| 0 <= k < ls.len() ==> free_of(#[trigger] ls[k], '\n'),
    ensures
        split_nl(join_back(ls, seq!['\n'])) == ls.push(Seq::<char>::empty()),
    decreases ls.len(),
{
    let nl = seq!['\n'];
    if ls.len() == 0 {
        assert(split_nl(Seq::<char>::empty()) =~= ls.push(Seq::<char>::empty()));
    } else {
        let front = ls.drop_last();
        lemma_split_join(front);
        let x = join_back(front, nl);
        lemma_split_append_plain(x, ls.last());
        let y = x + ls.last();
        assert(join_back(ls, nl) =~= y.push('\n'));
        assert(y.push('\n').drop_last() =~= y);
        assert(Seq::<char>::empty() + ls.last() =~= ls.last());
        assert(split_nl(y) =~= ls);
        assert(split_nl(join_back(ls, nl)) =~= ls.push(Seq::<char>::empty()));
    }
}

proof fn lemma_lines_of_join(ls: Seq<Seq<char>>)
    requires
        forall|k: int| 0 <= k < ls.len() ==> free_of(#[trigger] ls[k], '\n'),
        forall|k: int| 0 <= k < ls.len() ==> free_of(#[trigger] ls[k], '\r'),
    ensures
        lines_of(join_back(ls, seq!['\n'])) == ls,
{
    lemma_split_join(ls);
    let pieces = ls.push(Seq::<char>::empty());
    assert(pieces.subrange(0, pieces.len() - 1) =~= ls);
    assert forall|k: int| 0 <= k < ls.len() implies drop_cr(#[trigger] ls[k]) == ls[k] by {
        if ls[k].len() > 0 {
            assert(ls[k].last() == ls[k][ls[k].len() - 1]);
        }
    }
    assert(ls.map_values(|l: Seq<char>| drop_cr(l)) =~= ls);
}

proof fn lemma_split_free(s: Seq<char>)
    ensures
        forall|k: int| 0 <= k < split_nl(s).len() ==> free_of(#[trigger] split_nl(s)[k], '\n'),
        free_of(s, '\r') ==> forall|k: int|
            0 <= k < split_nl(s).len() ==> free_of(#[trigger] split_nl(s)[k], '\r'),
    decreases s.len(),
{
    if s.len() > 0 {
        lemma_split_free(s.drop_last());
        lemma_split_len(s.drop_last());
        if free_of(s, '\r') {
            assert(free_of(s.drop_last(), '\r')) by {
                assert forall|i: int| 0 <= i < s.drop_last().len() implies s.drop_last()[i]
                    != '\r' by {
                    assert(s.drop_last()[i] == s[i]);
                }
            }
            assert(s.last() == s[s.len() - 1]);
        }
        let rest = split_nl(s.drop_last());
        if s.last() != '\n' {
            let l = rest.last().push(s.last());
            assert(free_of(l, '\n')) by {
                assert forall|i: int| 0 <= i < l.len() implies l[i] != '\n' by {
                    if i < l.len() - 1 {
                        assert(l[i] == rest[rest.len() - 1][i]);
                    }
                }
            }
            if free_of(s, '\r') {
                assert(free_of(l, '\r')) by {
                    assert forall|i: int| 0 <= i < l.len() implies l[i] != '\r' by {
                        if i < l.len() - 1 {
                            assert(l[i] == rest[rest.len() - 1][i]);
                        }
                    }
                }
            }
        }
    }
}

proof fn lemma_lines_free(s: Seq<char>)
    requires
        free_of(s, '\r'),
    ensures
        forall|k: int| 0 <= k < lines_of(s).len() ==> free_of(#[trigger] lines_of(s)[k], '\n'),
        forall|k: int| 0 <= k < lines_of(s).len() ==> free_of(#[trigger] lines_of(s)[k], '\r'),
{
    lemma_split_free(s);
    lemma_split_len(s);
    let pieces = split_nl(s);
    let n = pieces.len() as int;
    let ended = pieces.subrange(0, n - 1).map_values(|l: Seq<char>| drop_cr(l));
    assert forall|k: int| 0 <= k < ended.len() implies free_of(#[trigger] ended[k], '\n')
        && free_of(ended[k], '\r') by {
        let p = pieces[k];
        assert(ended[k] == drop_cr(p));
        if p.len() > 0 && p.last() == '\r' {
            assert(p.last() == p[p.len() - 1]);
        }
        assert forall|i: int| 0 <= i < ended[k].len() implies ended[k][i] != '\n' && ended[k][i]
            != '\r' by {
            assert(ended[k][i] == p[i]);
        }
    }
    let ls = lines_of(s);
    assert forall|k: int| 0 <= k < ls.len() implies free_of(#[trigger] ls[k], '\n') && free_of(
        ls[k],
        '\r',
    ) by {
        if k < ended.len() {
            assert(ls[k] == ended[k]);
        } else {
            assert(ls[k] == pieces[n - 1]);
        }
    }
}

proof fn lemma_join_free(ls: Seq<Seq<char>>)
    requires
        forall|k: int| 0 <= k < ls.len() ==> free_of(#[trigger] ls[k], '\r'),
    ensures
        free_of(join_back(ls, seq!['\n']), '\r'),
    decreases ls.len(),
{
    if ls.len() > 0 {
        let front = ls.drop_last();
        assert forall|k: int| 0 <= k < front.len() implies free_of(#[trigger] front[k], '\r') by {
            assert(front[k] == ls[k]);
        }
        lemma_join_free(front);
        let x = join_back(front, seq!['\n']);
        let l = ls.last();
        assert(l == ls[ls.len() - 1]);
        let j = join_back(ls, seq!['\n']);
        assert forall|i: int| 0 <= i < j.len() implies j[i] != '\r' by {
            if i < x.len() {
                assert(j[i] == x[i]);
            } else if i < x.len() + l.len() {
                assert(j[i] == l[i - x.len()]);
            } else {
                assert(j[i] == '\n');
            }
        }
    }
}

proof fn lemma_no_crlf(s: Seq<char>)
    requires
        free_of(s, '\r'),
    ensures
        newline_of(s) == seq!['\n'],
{
    if has_sub(s, seq!['\r', '\n']) {
        let i = choose|i: int|
            0 <= i && i + 2 <= s.len() && #[trigger] s.subrange(i, i + 2) == seq!['\r', '\n'];
        assert(s.subrange(i, i + 2)[0] == s[i]);
    }
}

proof fn lemma_keep_all(ls: Seq<Seq<char>>, nl: Seq<char>)
    requires
        forall|k: int| 0 <= k < ls.len() ==> trim_end_of(#[trigger] ls[k]) != HOSTS_START@,
    ensures
        kept_text(ls, false, nl) == join_front(ls, nl),
    decreases ls.len(),
{
    if ls.len() > 0 {
        let rest = ls.drop_first();
        assert forall|k: int| 0 <= k < rest.len() implies trim_end_of(#[trigger] rest[k])
            != HOSTS_START@ by {
            assert(rest[k] == ls[k + 1]);
        }
        assert(trim_end_of(ls[0]) != HOSTS_START@);
        lemma_keep_all(rest, nl);
    }
}

/// Removing the block twice removes no more than once, for hosts text
/// without carriage returns.
pub proof fn lemma_strip_idempotent(t: Seq<char>)
    requires
        free_of(t, '\r'),
    ensures
        stripped(stripped(t)) == stripped(t),
{
    if has_sub(t, HOSTS_START@) {
        let nl = seq!['\n'];
        lemma_no_crlf(t);
        let lines = lines_of(t);
        lemma_lines_free(t);
        lemma_kept_text_joins(lines, false, nl);
        let ks = kept_lines(lines, false);
        assert forall|k: int| 0 <= k < ks.len() implies free_of(#[trigger] ks[k], '\n')
            && free_of(ks[k], '\r') by {
            let j = choose|j: int| 0 <= j < lines.len() && lines[j] == ks[k];
            assert(free_of(lines[j], '\n'));
        }
        lemma_join_front_back(ks, nl);
        let c = stripped(t);
        assert(c == join_back(ks, nl));
        if has_sub(c, HOSTS_START@) {
            lemma_join_free(ks);
            lemma_no_crlf(c);
            lemma_lines_of_join(ks);
            lemma_keep_all(ks, nl);
        }
    }
}

} // verus!
