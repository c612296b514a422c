//! Reading the answer to a yes/no question.
use vstd::prelude::*;
use vstd::string::*;

verus! {

/// `c` is `w` after lowering ASCII capitals.
pub open spec fn lowers_to(c: char, w: char) -> bool {
    c == w || ('A' <= c <= 'Z' && c as u32 + 32 == w as u32)
}

/// `s` spells `word` in any mix of ASCII case.
pub open spec fn spells(s: Seq<char>, word: Seq<char>) -> bool {
    s.len() == word.len() && forall|i: int| 0 <= i < s.len() ==> lowers_to(s[i], word[i])
}

/// The line without its terminator: a final `\r\n`, else a final `\n`.
pub open spec fn without_terminator(s: Seq<char>) -> Seq<char> {
    if s.len() >= 2 && s[s.len() - 2] == '\r' && s[s.len() - 1] == '\n' {
        s.subrange(0, s.len() - 2)
    } else if s.len() >= 1 && s[s.len() - 1] == '\n' {
        s.subrange(0, s.len() - 1)
    } else {
        s
    }
}

/// The answer that a line gives: yes for `y` or `yes`, no for `n` or `no`,
/// in any case; none for anything else.
pub open spec fn answer(line: Seq<char>) -> Option<bool> {
    let s = without_terminator(line);
    if spells(s, seq!['y']) || spells(s, seq!['y', 'e', 's']) {
        Some(true)
    } else if spells(s, seq!['n']) || spells(s, seq!['n', 'o']) {
        Some(false)
    } else {
        None
    }
}

fn lowers_to_exec(c: char, w: char) -> (r: bool)
    ensures
        r == lowers_to(c, w),
{
    c == w || ('A' <= c && c <= 'Z' && (c as u32) + 32 == (w as u32))
}

fn spells_from(s: &str, end: usize, word: &Vec<char>) -> (r: bool)
    requires
        end <= s@.len(),
    ensures
        r == spells(s@.subrange(0, end as int), word@),
{
    if end != word.len() {
        return false;
    }
    let mut i: usize = 0;
    while i < end
        invariant
            end <= s@.len(),
            end == word@.len(),
            i <= end,
            forall|k: int| 0 <= k < i ==> lowers_to(s@[k], word@[k]),
        decreases end - i,
    {
        if !lowers_to_exec(s.get_char(i), word[i]) {
            assert(!lowers_to(s@.subrange(0, end as int)[i as int], word@[i as int]));
            return false;
        }
        i = i + 1;
    }
    true
}

/// The answer that a line read from the terminal gives, as `answer` says;
/// `None` asks for the question to be put again.
pub fn parse_answer(line: &str) -> (r: Option<bool>)
    ensures
        r == answer(line@),
{
    let n = line.unicode_len();
    let end = if n >= 2 && line.get_char(n - 2) == '\r' && line.get_char(n - 1) == '\n' {
        n - 2
    } else if n >= 1 && line.get_char(n - 1) == '\n' {
        n - 1
    } else {
        n
    };
    assert(line@.subrange(0, end as int) =~= without_terminator(line@));
    let y = vec!['y'];
    let yes = vec!['y', 'e', 's'];
    let no_short = vec!['n'];
    let no = vec!['n', 'o'];
    assert(y@ =~= seq!['y']);
    assert(yes@ =~= seq!['y', 'e', 's']);
    assert(no_short@ =~= seq!['n']);
    assert(no@ =~= seq!['n', 'o']);
    if spells_from(line, end, &y) || spells_from(line, end, &yes) {
        Some(true)
    } else if spells_from(line, end, &no_short) || spells_from(line, end, &no) {
        Some(false)
    } else {
        None
    }
}

} // verus!
