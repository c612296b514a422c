//! Rewriting the `version = "…"` line of a configuration file.
//!
//! The text is read as lines split on `\n`. The first line of the form
//! `[ \t]*version[ \t]*=[ \t]*"…"` followed by blanks and an optional `#`
//! comment has its quoted value replaced; the comment and every other line
//! are kept. The result ends each line with `\n`.
use vstd::prelude::*;
use vstd::string::*;
use crate::version::Version;

verus! {

pub open spec fn is_blank(c: char) -> bool {
    c == ' ' || c == '\t'
}

/// The first index at or after `i` that does not hold a blank.
pub open spec fn skip_blanks(s: Seq<char>, i: int) -> int
    decreases s.len() - i,
{
    if 0 <= i < s.len() && is_blank(s[i]) {
        skip_blanks(s, i + 1)
    } else {
        i
    }
}

/// From `i` on, `s` holds blanks, then either nothing or a `#` comment.
pub open spec fn comment_at(s: Seq<char>, i: int) -> bool {
    let b = skip_blanks(s, i);
    b >= s.len() || s[b] == '#'
}

/// The last quote in `(lo, j]` that a comment (or nothing) follows.
pub open spec fn closing_quote(s: Seq<char>, lo: int, j: int) -> Option<int>
    decreases j - lo,
{
    if j <= lo {
        None
    } else if s[j] == '"' && comment_at(s, j + 1) {
        Some(j)
    } else {
        closing_quote(s, lo, j - 1)
    }
}

pub open spec fn version_word() -> Seq<char> {
    seq!['v', 'e', 'r', 's', 'i', 'o', 'n']
}

/// Where the trailing comment of a version line starts, or `None` when
/// `line` is no version line. The quoted value runs from after the opening
/// quote to the last quote that only blanks and a comment follow.
pub open spec fn version_comment(line: Seq<char>) -> Option<int> {
    let k0 = skip_blanks(line, 0);
    if k0 + 7 <= line.len() && line.subrange(k0, k0 + 7) == version_word() {
        let k1 = skip_blanks(line, k0 + 7);
        if k1 < line.len() && line[k1] == '=' {
            let k2 = skip_blanks(line, k1 + 1);
            if k2 < line.len() && line[k2] == '"' {
                match closing_quote(line, k2, line.len() - 1) {
                    Some(q) => Some(q + 1),
                    None => None,
                }
            } else {
                None
            }
        } else {
            None
        }
    } else {
        None
    }
}

pub open spec fn is_version_line(line: Seq<char>) -> bool {
    version_comment(line) is Some
}

/// `version = "`
pub open spec fn canonical_head() -> Seq<char> {
    seq!['v', 'e', 'r', 's', 'i', 'o', 'n', ' ', '=', ' ', '"']
}

/// `line` with its version value set to `v`, in the canonical spelling,
/// keeping its comment; other lines as they are.
pub open spec fn rewrite_line(line: Seq<char>, v: Seq<char>) -> Seq<char> {
    match version_comment(line) {
        Some(c) => canonical_head() + v + seq!['"'] + line.subrange(c, line.len() as int),
        None => line,
    }
}

/// The lines with the first version line rewritten to `v`.
pub open spec fn rewrite_lines(ls: Seq<Seq<char>>, v: Seq<char>) -> Seq<Seq<char>>
    decreases ls.len(),
{
    if ls.len() == 0 {
        ls
    } else if is_version_line(ls[0]) {
        seq![rewrite_line(ls[0], v)] + ls.drop_first()
    } else {
        seq![ls[0]] + rewrite_lines(ls.drop_first(), v)
    }
}

/// The lines of `t` from index `start` on, without their `\n`, scanning
/// from `p` (nothing between `start` and `p` is a `\n`). A last line
/// without `\n` counts; nothing after a final `\n` does.
pub open spec fn lines_from(t: Seq<char>, start: int, p: int) -> Seq<Seq<char>>
    decreases t.len() - p,
{
    if p >= t.len() {
        if start < t.len() {
            seq![t.subrange(start, t.len() as int)]
        } else {
            Seq::empty()
        }
    } else if t[p] == '\n' {
        seq![t.subrange(start, p)] + lines_from(t, p + 1, p + 1)
    } else {
        lines_from(t, start, p + 1)
    }
}

pub open spec fn lines(t: Seq<char>) -> Seq<Seq<char>> {
    lines_from(t, 0, 0)
}

/// Each line followed by `\n`.
pub open spec fn join_lines(ls: Seq<Seq<char>>) -> Seq<char>
    decreases ls.len(),
{
    if ls.len() == 0 {
        Seq::empty()
    } else {
        ls[0] + seq!['\n'] + join_lines(ls.drop_first())
    }
}

/// The file text after setting its version to `v`.
pub open spec fn rewrite_config(t: Seq<char>, v: Seq<char>) -> Seq<char> {
    join_lines(rewrite_lines(lines(t), v))
}

fn skip_blanks_exec(s: &str, i: usize) -> (r: usize)
    requires
        i <= s@.len(),
    ensures
        r as int == skip_blanks(s@, i as int),
        i <= r <= s@.len(),
{
    let n = s.unicode_len();
    let mut j = i;
    while j < n && (s.get_char(j) == ' ' || s.get_char(j) == '\t')
        invariant
            n == s@.len(),
            i <= j <= n,
            skip_blanks(s@, i as int) == skip_blanks(s@, j as int),
        decreases n - j,
    {
        j = j + 1;
    }
    j
}

fn comment_at_exec(s: &str, i: usize) -> (r: bool)
    requires
        i <= s@.len(),
    ensures
        r == comment_at(s@, i as int),
{
    let b = skip_blanks_exec(s, i);
    b >= s.unicode_len() || s.get_char(b) == '#'
}

/// A closing quote found by `closing_quote` is a quote in range that a
/// comment follows.
pub proof fn lemma_closing_quote(s: Seq<char>, lo: int, j: int)
    requires
        closing_quote(s, lo, j) is Some,
    ensures
        lo < closing_quote(s, lo, j)->0 <= j,
        s[closing_quote(s, lo, j)->0] == '"',
        comment_at(s, closing_quote(s, lo, j)->0 + 1),
    decreases j - lo,
{
    if j > lo && !(s[j] == '"' && comment_at(s, j + 1)) {
        lemma_closing_quote(s, lo, j - 1);
    }
}

/// Where the comment of a version line starts, as `version_comment` gives it.
pub fn version_comment_start(line: &str) -> (r: Option<usize>)
    ensures
        r is Some <==> version_comment(line@) is Some,
        r is Some ==> r->0 == version_comment(line@)->0 && r->0 <= line@.len(),
{
    let n = line.unicode_len();
    let k0 = skip_blanks_exec(line, 0);
    if n - k0 < 7 {
        return None;
    }
    let mut m: usize = 0;
    while m < 7
        invariant
            n == line@.len(),
            k0 + 7 <= n,
            k0 as int == skip_blanks(line@, 0),
            m <= 7,
            forall|x: int| 0 <= x < m ==> line@[k0 + x] == version_word()[x],
        decreases 7 - m,
    {
        let c = line.get_char(k0 + m);
        let want = if m == 0 {
            'v'
        } else if m == 1 {
            'e'
        } else if m == 2 {
            'r'
        } else if m == 3 {
            's'
        } else if m == 4 {
            'i'
        } else if m == 5 {
            'o'
        } else {
            'n'
        };
        assert(want == version_word()[m as int]);
        if c != want {
            assert(line@.subrange(k0 as int, k0 + 7)[m as int] != version_word()[m as int]);
            assert(line@.subrange(k0 as int, k0 + 7) != version_word());
            return None;
        }
        m = m + 1;
    }
    assert(line@.subrange(k0 as int, k0 + 7) =~= version_word());
    let k1 = skip_blanks_exec(line, k0 + 7);
    if k1 >= n || line.get_char(k1) != '=' {
        return None;
    }
    let k2 = skip_blanks_exec(line, k1 + 1);
    if k2 >= n || line.get_char(k2) != '"' {
        return None;
    }
    let mut j = n - 1;
    assert(version_comment(line@) == match closing_quote(line@, k2 as int, j as int) {
        Some(q) => Some(q + 1),
        None => None,
    });
    while j > k2
        invariant
            n == line@.len(),
            k2 < n,
            k2 <= j < n,
            version_comment(line@) == match closing_quote(line@, k2 as int, j as int) {
                Some(q) => Some(q + 1),
                None => None,
            },
        decreases j,
    {
        if line.get_char(j) == '"' && comment_at_exec(line, j + 1) {
            assert(closing_quote(line@, k2 as int, j as int) == Some(j as int));
            return Some(j + 1);
        }
        j = j - 1;
    }
    None
}

/// The text of a configuration file after setting its version to `version`:
/// the first version line gets `version = "<version>"` and keeps its comment;
/// every line, the others unchanged, is ended by `\n`.
pub fn update_config_version(contents: &str, version: &Version) -> (r: String)
    ensures
        r@ == rewrite_config(contents@, version.text()),
{
    let v = version.to_text();
    let n = contents.unicode_len();
    let mut out = String::new();
    let mut pos: usize = 0;
    let mut done = false;
    let ghost t = contents@;
    let ghost target = rewrite_config(t, v@);
    proof {
        reveal_strlit("\n");
        reveal_strlit("\"");
        reveal_strlit("version = \"");
        assert("version = \""@ =~= canonical_head());
    }
    while pos < n
        invariant
            t == contents@,
            n == t.len(),
            pos <= n,
            v@ == version.text(),
            target == rewrite_config(t, v@),
            "version = \""@ == canonical_head(),
            "\n"@ == seq!['\n'],
            "\""@ == seq!['"'],
            done ==> out@ + join_lines(lines_from(t, pos as int, pos as int)) == target,
            !done ==> out@ + join_lines(rewrite_lines(lines_from(t, pos as int, pos as int), v@)) == target,
        decreases n - pos,
    {
        let mut e = pos;
        while e < n && contents.get_char(e) != '\n'
            invariant
                t == contents@,
                n == t.len(),
                pos <= e <= n,
                forall|j: int| pos <= j < e ==> t[j] != '\n',
                lines_from(t, pos as int, pos as int) == lines_from(t, pos as int, e as int),
            decreases n - e,
        {
            e = e + 1;
        }
        let line = contents.substring_char(pos, e);
        let ghost ls = lines_from(t, pos as int, pos as int);
        let ghost rest = if e < n {
            lines_from(t, e + 1, e + 1)
        } else {
            Seq::empty()
        };
        assert(ls =~= seq![line@] + rest);
        assert(ls.drop_first() =~= rest);
        let ghost before = out@;
        if !done {
            match version_comment_start(line) {
                Some(c) => {
                    out.append("version = \"");
                    out.append(v.as_str());
                    out.append("\"");
                    let comment = line.substring_char(c, line.unicode_len());
                    out.append(comment);
                    done = true;
                    assert(out@ =~= before + rewrite_line(line@, v@));
                },
                None => {
                    out.append(line);
                },
            }
        } else {
            out.append(line);
        }
        out.append("\n");
        proof {
            assert(join_lines(seq![line@] + rest) == line@ + seq!['\n'] + join_lines(rest));
            if is_version_line(line@) {
                let w = rewrite_line(line@, v@);
                assert((seq![w] + rest).drop_first() =~= rest);
                assert(join_lines(seq![w] + rest) == w + seq!['\n'] + join_lines(rest));
            } else {
                let rr = rewrite_lines(rest, v@);
                assert((seq![line@] + rr).drop_first() =~= rr);
                assert(join_lines(seq![line@] + rr) == line@ + seq!['\n'] + join_lines(rr));
            }
        }
        pos = if e < n {
            e + 1
        } else {
            n
        };
    }
    out
}

/// Rewriting a list of lines changes only its first version line.
pub proof fn lemma_rewrite_lines_at(
    pre: Seq<Seq<char>>,
    line: Seq<char>,
    post: Seq<Seq<char>>,
    v: Seq<char>,
)
    requires
        forall|i: int| 0 <= i < pre.len() ==> !is_version_line(#[trigger] pre[i]),
        is_version_line(line),
    ensures
        rewrite_lines(pre + seq![line] + post, v) == pre + seq![rewrite_line(line, v)] + post,
    decreases pre.len(),
{
    let ls = pre + seq![line] + post;
    if pre.len() == 0 {
        assert(ls =~= seq![line] + post);
        assert(ls.drop_first() =~= post);
        assert(pre + seq![rewrite_line(line, v)] + post =~= seq![rewrite_line(line, v)] + post);
    } else {
        let rest = pre.drop_first();
        assert(ls.drop_first() =~= rest + seq![line] + post);
        assert(!is_version_line(pre[0]));
        lemma_rewrite_lines_at(rest, line, post, v);
        assert(pre + seq![rewrite_line(line, v)] + post =~= seq![pre[0]] + (rest + seq![
            rewrite_line(line, v),
        ] + post));
    }
}

/// In a line that starts `version = "`, the value opens at index 10.
proof fn lemma_canonical_open(line: Seq<char>)
    requires
        11 <= line.len(),
        line.subrange(0, 11) == canonical_head(),
    ensures
        skip_blanks(line, 0) == 0,
        line.subrange(0, 7) == version_word(),
        skip_blanks(line, 7) == 8,
        line[8] == '=',
        skip_blanks(line, 9) == 10,
        line[10] == '"',
{
    assert(line[0] == line.subrange(0, 11)[0]);
    assert(line[7] == line.subrange(0, 11)[7]);
    assert(line[8] == line.subrange(0, 11)[8]);
    assert(line[9] == line.subrange(0, 11)[9]);
    assert(line[10] == line.subrange(0, 11)[10]);
    assert(line.subrange(0, 7) =~= line.subrange(0, 11).subrange(0, 7));
    assert(skip_blanks(line, 8) == 8);
    assert(skip_blanks(line, 10) == 10);
}

/// Setting a file's version to the value that its first version line already
/// holds gives back the file, with each line ended by `\n`, where that line is
/// spelled `version = "…"` from its first character.
pub proof fn lemma_rewrite_same_version(
    t: Seq<char>,
    pre: Seq<Seq<char>>,
    line: Seq<char>,
    post: Seq<Seq<char>>,
    v: Version,
)
    requires
        lines(t) == pre + seq![line] + post,
        forall|i: int| 0 <= i < pre.len() ==> !is_version_line(#[trigger] pre[i]),
        is_version_line(line),
        11 <= line.len(),
        line.subrange(0, 11) == canonical_head(),
        v.text() == line.subrange(11, version_comment(line)->0 - 1),
    ensures
        rewrite_config(t, v.text()) == join_lines(lines(t)),
{
    lemma_canonical_open(line);
    let q = closing_quote(line, 10, line.len() - 1)->0;
    lemma_closing_quote(line, 10, line.len() - 1);
    assert(version_comment(line) == Some(q + 1));
    assert(rewrite_line(line, v.text()) =~= line);
    lemma_rewrite_lines_at(pre, line, post, v.text());
}

/// Past the last quote of a line, `closing_quote` finds that quote when a
/// comment follows it.
proof fn lemma_closing_quote_last(s: Seq<char>, lo: int, q: int, j: int)
    requires
        lo < q <= j < s.len(),
        s[q] == '"',
        comment_at(s, q + 1),
        forall|k: int| q < k <= j ==> s[k] != '"',
    ensures
        closing_quote(s, lo, j) == Some(q),
    decreases j - q,
{
    if j > q {
        lemma_closing_quote_last(s, lo, q, j - 1);
    }
}

/// `" # `
pub open spec fn comment_head() -> Seq<char> {
    seq!['"', ' ', '#', ' ']
}

/// A file whose first version line reads `version = "<old>" # <note>`, the
/// note holding no quote, has that line read `version = "<v>" # <note>`
/// after setting its version to `v`; every other line stays as it was.
pub proof fn lemma_rewrite_keeps_comment(
    t: Seq<char>,
    pre: Seq<Seq<char>>,
    old: Seq<char>,
    note: Seq<char>,
    post: Seq<Seq<char>>,
    v: Version,
)
    requires
        lines(t) == pre + seq![canonical_head() + old + comment_head() + note] + post,
        forall|i: int| 0 <= i < pre.len() ==> !is_version_line(#[trigger] pre[i]),
        forall|k: int| 0 <= k < note.len() ==> note[k] != '"',
    ensures
        rewrite_config(t, v.text()) == join_lines(
            pre + seq![canonical_head() + v.text() + comment_head() + note] + post,
        ),
{
    let line = canonical_head() + old + comment_head() + note;
    let q: int = 11 + old.len() as int;
    assert(line.subrange(0, 11) =~= canonical_head());
    lemma_canonical_open(line);
    assert(line[q] == '"');
    assert(line[q + 1] == ' ');
    assert(line[q + 2] == '#');
    assert(skip_blanks(line, q + 2) == q + 2);
    assert(comment_at(line, q + 1));
    assert forall|k: int| q < k <= line.len() - 1 implies line[k] != '"' by {
        if k >= q + 4 {
            assert(line[k] == note[k - q - 4]);
        }
    }
    lemma_closing_quote_last(line, 10, q, line.len() - 1);
    assert(version_comment(line) == Some(q + 1));
    assert(rewrite_line(line, v.text()) =~= canonical_head() + v.text() + comment_head() + note);
    lemma_rewrite_lines_at(pre, line, post, v.text());
}

} // verus!
