//! The per-user `PATH` value: directories separated by `;`.
//!
//! Adding a directory appends it unless a segment already equals it;
//! removing one drops every segment equal to it. Each returns the new value,
//! or `None` when nothing is to be written.
use vstd::prelude::*;
use vstd::string::*;

verus! {

/// The segments of `s` from index `start` on, scanning from `p` (nothing
/// between `start` and `p` is a `;`). An empty value has one empty segment.
pub open spec fn segments_from(s: Seq<char>, start: int, p: int) -> Seq<Seq<char>>
    decreases s.len() - p,
{
    if p >= s.len() {
        seq![s.subrange(start, s.len() as int)]
    } else if s[p] == ';' {
        seq![s.subrange(start, p)] + segments_from(s, p + 1, p + 1)
    } else {
        segments_from(s, start, p + 1)
    }
}

/// `s` split on `;`.
pub open spec fn segments(s: Seq<char>) -> Seq<Seq<char>> {
    segments_from(s, 0, 0)
}

/// The segments joined with `;` between them.
pub open spec fn join_segments(ls: Seq<Seq<char>>) -> Seq<char>
    decreases ls.len(),
{
    if ls.len() == 0 {
        Seq::empty()
    } else if ls.len() == 1 {
        ls[0]
    } else {
        join_segments(ls.drop_last()) + seq![';'] + ls.last()
    }
}

/// The segments that differ from `d`, in their order.
pub open spec fn kept_segments(ls: Seq<Seq<char>>, d: Seq<char>) -> Seq<Seq<char>>
    decreases ls.len(),
{
    if ls.len() == 0 {
        ls
    } else if ls.last() == d {
        kept_segments(ls.drop_last(), d)
    } else {
        kept_segments(ls.drop_last(), d).push(ls.last())
    }
}

/// The value after adding `d`: `None` when a segment already equals `d`;
/// else `d` appended, behind a `;` unless the value is empty or ends in one.
pub open spec fn path_with(s: Seq<char>, d: Seq<char>) -> Option<Seq<char>> {
    if segments(s).contains(d) {
        None
    } else if s.len() == 0 {
        Some(d)
    } else if s.last() == ';' {
        Some(s + d)
    } else {
        Some(s + seq![';'] + d)
    }
}

/// The value after removing `d`: the other segments joined again, or `None`
/// when that is as long as the value was.
pub open spec fn path_without(s: Seq<char>, d: Seq<char>) -> Option<Seq<char>> {
    let r = join_segments(kept_segments(segments(s), d));
    if r.len() == s.len() {
        None
    } else {
        Some(r)
    }
}

/// The value that stands after an update: the new one, or the old one when
/// nothing was written.
pub open spec fn updated(s: Seq<char>, r: Option<Seq<char>>) -> Seq<char> {
    match r {
        Some(x) => x,
        None => s,
    }
}

fn same_text(a: &str, b: &str) -> (r: bool)
    ensures
        r == (a@ == b@),
{
    let n = a.unicode_len();
    if n != b.unicode_len() {
        return false;
    }
    let mut i: usize = 0;
    while i < n
        invariant
            n == a@.len(),
            n == b@.len(),
            i <= n,
            forall|k: int| 0 <= k < i ==> a@[k] == b@[k],
        decreases n - i,
    {
        if a.get_char(i) != b.get_char(i) {
            return false;
        }
        i = i + 1;
    }
    assert(a@ =~= b@);
    true
}

/// The views of a list of string slices.
pub open spec fn views(v: Seq<&str>) -> Seq<Seq<char>> {
    v.map_values(|x: &str| x@)
}

fn split_segments(s: &str) -> (r: Vec<&str>)
    ensures
        views(r@) == segments(s@),
{
    let n = s.unicode_len();
    let mut parts: Vec<&str> = Vec::new();
    let mut start: usize = 0;
    let mut done = false;
    while !done
        invariant
            n == s@.len(),
            start <= n,
            !done ==> segments(s@) == views(parts@) + segments_from(
                s@,
                start as int,
                start as int,
            ),
            done ==> segments(s@) == views(parts@),
        decreases n - start + if done {
            0int
        } else {
            1int
        },
    {
        let mut e = start;
        while e < n && s.get_char(e) != ';'
            invariant
                n == s@.len(),
                start <= e <= n,
                segments_from(s@, start as int, start as int) == segments_from(
                    s@,
                    start as int,
                    e as int,
                ),
            decreases n - e,
        {
            e = e + 1;
        }
        let part = s.substring_char(start, e);
        let ghost before = views(parts@);
        parts.push(part);
        assert(views(parts@) =~= before.push(part@));
        if e < n {
            assert(segments_from(s@, start as int, e as int) == seq![part@] + segments_from(
                s@,
                e + 1,
                e + 1,
            ));
            assert(before + (seq![part@] + segments_from(s@, e + 1, e + 1)) =~= before.push(part@)
                + segments_from(s@, e + 1, e + 1));
            start = e + 1;
        } else {
            assert(before + seq![part@] =~= before.push(part@));
            done = true;
        }
    }
    parts
}

/// The new `PATH` value after adding `dir`, or `None` when a segment of
/// `current` already equals `dir` and nothing is to be written.
pub fn add_to_path(current: &str, dir: &str) -> (r: Option<String>)
    ensures
        r is Some <==> path_with(current@, dir@) is Some,
        r is Some ==> r->0@ == path_with(current@, dir@)->0,
{
    let parts = split_segments(current);
    let ghost segs = segments(current@);
    let mut i: usize = 0;
    while i < parts.len()
        invariant
            views(parts@) == segs,
            segs == segments(current@),
            i <= parts.len(),
            forall|k: int| 0 <= k < i ==> segs[k] != dir@,
        decreases parts.len() - i,
    {
        if same_text(parts[i], dir) {
            assert(segs[i as int] == dir@);
            assert(segs.contains(dir@));
            return None;
        }
        i = i + 1;
    }
    assert(!segs.contains(dir@));
    let n = current.unicode_len();
    let mut out = String::from_str(current);
    if n > 0 && current.get_char(n - 1) != ';' {
        proof {
            reveal_strlit(";");
        }
        out.append(";");
    }
    out.append(dir);
    Some(out)
}

/// The new `PATH` value after removing every segment equal to `dir`, or
/// `None` when the rejoined value is as long as `current` and nothing is to
/// be written.
pub fn remove_from_path(current: &str, dir: &str) -> (r: Option<String>)
    ensures
        r is Some <==> path_without(current@, dir@) is Some,
        r is Some ==> r->0@ == path_without(current@, dir@)->0,
{
    let parts = split_segments(current);
    let ghost segs = segments(current@);
    let mut out = String::new();
    let mut kept: usize = 0;
    let mut i: usize = 0;
    proof {
        reveal_strlit(";");
    }
    while i < parts.len()
        invariant
            views(parts@) == segs,
            segs == segments(current@),
            i <= parts.len(),
            kept <= i,
            kept as int == kept_segments(segs.take(i as int), dir@).len(),
            out@ == join_segments(kept_segments(segs.take(i as int), dir@)),
            ";"@ == seq![';'],
        decreases parts.len() - i,
    {
        let ghost prev = segs.take(i as int);
        assert(segs.take(i + 1).drop_last() =~= prev);
        assert(segs.take(i + 1).last() == segs[i as int]);
        if !same_text(parts[i], dir) {
            if kept > 0 {
                out.append(";");
            }
            out.append(parts[i]);
            kept = kept + 1;
            let ghost ks = kept_segments(segs.take(i + 1), dir@);
            assert(ks.drop_last() =~= kept_segments(prev, dir@));
        }
        i = i + 1;
    }
    assert(segs.take(i as int) =~= segs);
    if out.as_str().unicode_len() == current.unicode_len() {
        None
    } else {
        Some(out)
    }
}

pub open spec fn has_no_separator(x: Seq<char>) -> bool {
    forall|k: int| 0 <= k < x.len() ==> x[k] != ';'
}

/// Without a `;` from `p` on, what is left is one segment.
proof fn lemma_one_segment(t: Seq<char>, start: int, p: int)
    requires
        0 <= start <= p <= t.len(),
        forall|k: int| p <= k < t.len() ==> t[k] != ';',
    ensures
        segments_from(t, start, p) == seq![t.subrange(start, t.len() as int)],
    decreases t.len() - p,
{
    if p < t.len() {
        lemma_one_segment(t, start, p + 1);
    }
}

/// There is always at least one segment.
proof fn lemma_segments_nonempty(t: Seq<char>, start: int, p: int)
    requires
        0 <= start <= p <= t.len(),
    ensures
        segments_from(t, start, p).len() >= 1,
    decreases t.len() - p,
{
    if p < t.len() {
        if t[p] == ';' {
            lemma_segments_nonempty(t, p + 1, p + 1);
        } else {
            lemma_segments_nonempty(t, start, p + 1);
        }
    }
}

/// A `;` and a last piece `b` without one add `b` as the last segment.
proof fn lemma_segments_append(a: Seq<char>, b: Seq<char>, start: int, p: int)
    requires
        0 <= start <= p <= a.len(),
        has_no_separator(b),
    ensures
        segments_from(a + seq![';'] + b, start, p) == segments_from(a, start, p).push(b),
    decreases a.len() - p,
{
    let t = a + seq![';'] + b;
    if p == a.len() {
        assert(t[p] == ';');
        lemma_one_segment(t, p + 1, p + 1);
        assert(t.subrange(p + 1, t.len() as int) =~= b);
        assert(t.subrange(start, p) =~= a.subrange(start, a.len() as int));
        assert(seq![a.subrange(start, a.len() as int)] + seq![b] =~= seq![
            a.subrange(start, a.len() as int),
        ].push(b));
    } else {
        assert(t[p] == a[p]);
        if a[p] == ';' {
            lemma_segments_append(a, b, p + 1, p + 1);
            assert(t.subrange(start, p) =~= a.subrange(start, p));
            assert(seq![a.subrange(start, p)] + segments_from(a, p + 1, p + 1).push(b) =~= (seq![
                a.subrange(start, p),
            ] + segments_from(a, p + 1, p + 1)).push(b));
        } else {
            lemma_segments_append(a, b, start, p + 1);
        }
    }
}

/// The segments of a value of the form `a;b`, `b` without `;`.
proof fn lemma_segments_split(a: Seq<char>, b: Seq<char>)
    requires
        has_no_separator(b),
    ensures
        segments(a + seq![';'] + b) == segments(a).push(b),
{
    lemma_segments_append(a, b, 0, 0);
}

/// Adding a directory without `;` makes it a segment.
proof fn lemma_added_is_segment(s: Seq<char>, d: Seq<char>)
    requires
        has_no_separator(d),
        path_with(s, d) is Some,
    ensures
        segments(path_with(s, d)->0).contains(d),
{
    let r = path_with(s, d)->0;
    if s.len() == 0 {
        lemma_one_segment(d, 0, 0);
        assert(d.subrange(0, d.len() as int) =~= d);
        assert(segments(r)[0] == d);
    } else {
        let a = if s.last() == ';' {
            s.drop_last()
        } else {
            s
        };
        assert(r =~= a + seq![';'] + d);
        lemma_segments_split(a, d);
        let segs = segments(r);
        assert(segs[segs.len() - 1] == d);
    }
}

/// Adding a directory twice writes nothing the second time: the value is
/// the one that a single add gives. (A directory holding `;` becomes two
/// segments and is added again.)
pub proof fn lemma_add_twice(s: Seq<char>, d: Seq<char>)
    requires
        has_no_separator(d),
    ensures
        path_with(updated(s, path_with(s, d)), d) is None,
        updated(updated(s, path_with(s, d)), path_with(updated(s, path_with(s, d)), d))
            == updated(s, path_with(s, d)),
{
    if path_with(s, d) is Some {
        lemma_added_is_segment(s, d);
    }
}

/// Every segment is free of `;`.
proof fn lemma_segments_have_no_separator(t: Seq<char>, start: int, p: int)
    requires
        0 <= start <= p <= t.len(),
        forall|k: int| start <= k < p ==> t[k] != ';',
    ensures
        forall|i: int|
            0 <= i < segments_from(t, start, p).len() ==> has_no_separator(
                #[trigger] segments_from(t, start, p)[i],
            ),
    decreases t.len() - p,
{
    if p < t.len() {
        if t[p] == ';' {
            lemma_segments_have_no_separator(t, p + 1, p + 1);
            let rest = segments_from(t, p + 1, p + 1);
            let all = seq![t.subrange(start, p)] + rest;
            assert(segments_from(t, start, p) == all);
            assert forall|i: int| 0 <= i < all.len() implies has_no_separator(
                #[trigger] all[i],
            ) by {
                if i > 0 {
                    assert(all[i] == rest[i - 1]);
                } else {
                    let x = t.subrange(start, p);
                    assert forall|k: int| 0 <= k < x.len() implies x[k] != ';' by {
                        assert(x[k] == t[start + k]);
                    }
                }
            }
        } else {
            lemma_segments_have_no_separator(t, start, p + 1);
            assert(segments_from(t, start, p) == segments_from(t, start, p + 1));
        }
    } else {
        let x = t.subrange(start, t.len() as int);
        assert forall|k: int| 0 <= k < x.len() implies x[k] != ';' by {
            assert(x[k] == t[start + k]);
        }
        assert(segments_from(t, start, p) == seq![x]);
        assert(seq![x][0] == x);
    }
}

/// What is kept comes from the list and differs from `d`.
proof fn lemma_kept_from(ls: Seq<Seq<char>>, d: Seq<char>)
    ensures
        forall|i: int|
            0 <= i < kept_segments(ls, d).len() ==> #[trigger] kept_segments(ls, d)[i] != d
                && ls.contains(kept_segments(ls, d)[i]),
    decreases ls.len(),
{
    if ls.len() > 0 {
        let init = ls.drop_last();
        lemma_kept_from(init, d);
        let k = kept_segments(ls, d);
        assert forall|i: int| 0 <= i < k.len() implies #[trigger] k[i] != d && ls.contains(
            k[i],
        ) by {
            if i < kept_segments(init, d).len() {
                let x = k[i];
                assert(x == kept_segments(init, d)[i]);
                assert(init.contains(x));
                let j = choose|j: int| 0 <= j < init.len() && init[j] == x;
                assert(ls[j] == x);
            } else {
                assert(ls[ls.len() - 1] == k[i]);
            }
        }
    }
}

/// Joined segments split back into the same segments.
proof fn lemma_split_join(ls: Seq<Seq<char>>)
    requires
        ls.len() >= 1,
        forall|i: int| 0 <= i < ls.len() ==> has_no_separator(#[trigger] ls[i]),
    ensures
        segments(join_segments(ls)) == ls,
    decreases ls.len(),
{
    if ls.len() == 1 {
        lemma_one_segment(ls[0], 0, 0);
        assert(ls[0].subrange(0, ls[0].len() as int) =~= ls[0]);
        assert(seq![ls[0]] =~= ls);
    } else {
        let init = ls.drop_last();
        assert forall|i: int| 0 <= i < init.len() implies has_no_separator(#[trigger] init[i]) by {
            assert(init[i] == ls[i]);
        }
        lemma_split_join(init);
        assert(has_no_separator(ls[ls.len() - 1]));
        lemma_segments_split(join_segments(init), ls.last());
        assert(init.push(ls.last()) =~= ls);
    }
}

/// The length of joined segments.
proof fn lemma_join_len(ls: Seq<Seq<char>>)
    requires
        ls.len() >= 2,
    ensures
        join_segments(ls).len() == join_segments(ls.drop_last()).len() + 1 + ls.last().len(),
{
}

/// Dropping segments never makes the joined value longer.
proof fn lemma_kept_not_longer(ls: Seq<Seq<char>>, d: Seq<char>)
    ensures
        join_segments(kept_segments(ls, d)).len() <= join_segments(ls).len(),
    decreases ls.len(),
{
    if ls.len() > 0 {
        let init = ls.drop_last();
        lemma_kept_not_longer(init, d);
        lemma_kept_from(init, d);
        let ki = kept_segments(init, d);
        if ls.len() >= 2 {
            lemma_join_len(ls);
        }
        if ls.last() != d && ki.len() >= 1 {
            assert(ki.len() >= 1 ==> init.contains(ki[0]));
            lemma_join_len(ki.push(ls.last()));
            assert(ki.push(ls.last()).drop_last() =~= ki);
        }
    }
}

/// Dropping a non-empty segment makes the joined value shorter.
proof fn lemma_kept_shorter(ls: Seq<Seq<char>>, d: Seq<char>)
    requires
        d.len() > 0,
        ls.contains(d),
    ensures
        join_segments(kept_segments(ls, d)).len() < join_segments(ls).len(),
    decreases ls.len(),
{
    let init = ls.drop_last();
    let ki = kept_segments(init, d);
    lemma_kept_from(init, d);
    if ls.len() >= 2 {
        lemma_join_len(ls);
    }
    if ls.last() == d {
        lemma_kept_not_longer(init, d);
    } else {
        let j = choose|j: int| 0 <= j < ls.len() && ls[j] == d;
        assert(init[j] == d);
        lemma_kept_shorter(init, d);
        if ki.len() >= 1 {
            lemma_join_len(ki.push(ls.last()));
            assert(ki.push(ls.last()).drop_last() =~= ki);
        }
    }
}

/// The index of the last `;` of `s`, or -1.
spec fn last_separator(s: Seq<char>) -> int
    decreases s.len(),
{
    if s.len() == 0 {
        -1
    } else if s.last() == ';' {
        s.len() - 1
    } else {
        last_separator(s.drop_last())
    }
}

proof fn lemma_last_separator(s: Seq<char>)
    ensures
        -1 <= last_separator(s) < s.len(),
        last_separator(s) >= 0 ==> s[last_separator(s)] == ';',
        forall|k: int| last_separator(s) < k < s.len() ==> s[k] != ';',
    decreases s.len(),
{
    if s.len() > 0 && s.last() != ';' {
        lemma_last_separator(s.drop_last());
        assert forall|k: int| last_separator(s) < k < s.len() implies s[k] != ';' by {
            if k < s.len() - 1 {
                assert(s[k] == s.drop_last()[k]);
            }
        }
    }
}

/// Splitting a value and joining it again gives the value back.
proof fn lemma_join_split(s: Seq<char>)
    ensures
        join_segments(segments(s)) == s,
    decreases s.len(),
{
    lemma_last_separator(s);
    let k = last_separator(s);
    if k < 0 {
        lemma_one_segment(s, 0, 0);
        assert(s.subrange(0, s.len() as int) =~= s);
    } else {
        let a = s.subrange(0, k);
        let b = s.subrange(k + 1, s.len() as int);
        assert(s =~= a + seq![';'] + b);
        lemma_segments_split(a, b);
        lemma_join_split(a);
        lemma_segments_nonempty(a, 0, 0);
        assert(segments(a).push(b).drop_last() =~= segments(a));
    }
}

/// After removing a non-empty directory, no segment of the value equals it.
/// (An empty directory fails this: removing it from an empty value writes
/// nothing, and the empty value's one segment is empty.)
pub proof fn lemma_remove_leaves_none(s: Seq<char>, d: Seq<char>)
    requires
        d.len() > 0,
    ensures
        !segments(updated(s, path_without(s, d))).contains(d),
{
    let segs = segments(s);
    let kept = kept_segments(segs, d);
    lemma_kept_from(segs, d);
    lemma_segments_have_no_separator(s, 0, 0);
    match path_without(s, d) {
        Some(r) => {
            if kept.len() == 0 {
                assert(r.len() == 0);
                assert(r.subrange(0, 0) =~= Seq::<char>::empty());
                assert(segments(r) == seq![Seq::<char>::empty()]);
                assert(segments(r)[0] != d);
            } else {
                assert forall|i: int| 0 <= i < kept.len() implies has_no_separator(
                    #[trigger] kept[i],
                ) by {
                    assert(segs.contains(kept[i]));
                }
                lemma_split_join(kept);
                if segments(r).contains(d) {
                    let j = choose|j: int| 0 <= j < kept.len() && kept[j] == d;
                    assert(kept[j] != d);
                }
            }
        },
        None => {
            if segs.contains(d) {
                lemma_kept_shorter(segs, d);
                lemma_join_split(s);
            }
        },
    }
}

} // verus!
