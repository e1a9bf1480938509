use vstd::prelude::*;

use crate::config::path_view;

verus! {

/// Whether two strings hold the same characters (`==` on `str`).
#[verifier::external_body]
pub(crate) fn str_eq(a: &str, b: &str) -> (r: bool)
    ensures
        r == (a@ == b@),
{
    a == b
}

/// What `str::to_uppercase` returns for `s`.
pub uninterp spec fn uppercase_of(s: Seq<char>) -> Seq<char>;

/// Calls `str::to_uppercase`; its result is named by [`uppercase_of`].
#[verifier::external_body]
pub(crate) fn to_uppercase(s: &str) -> (r: String)
    ensures
        r@ == uppercase_of(s@),
{
    s.to_uppercase()
}

/// The parts put one after the other with `sep` between each two.
pub open spec fn joined(parts: Seq<Seq<char>>, sep: char) -> Seq<char>
    decreases parts.len(),
{
    if parts.len() == 0 {
        Seq::empty()
    } else if parts.len() == 1 {
        parts[0]
    } else {
        joined(parts.drop_last(), sep) + seq![sep] + parts.last()
    }
}

/// Extending the last part by a character extends the joined text by it.
proof fn lemma_joined_extend_last(parts: Seq<Seq<char>>, last: Seq<char>, c: char, sep: char)
    ensures
        joined(parts.push(last.push(c)), sep) == joined(parts.push(last), sep).push(c),
{
    assert(parts.push(last.push(c)).drop_last() =~= parts);
    assert(parts.push(last).drop_last() =~= parts);
    if parts.len() == 0 {
        assert(joined(parts.push(last.push(c)), sep) =~= last.push(c));
    } else {
        assert(joined(parts.push(last.push(c)), sep) =~= joined(parts, sep) + seq![sep] + last.push(c));
        assert(joined(parts.push(last), sep) =~= joined(parts, sep) + seq![sep] + last);
        assert(joined(parts.push(last.push(c)), sep) =~= joined(parts.push(last), sep).push(c));
    }
}

/// Whether no part holds `sep`.
pub open spec fn parts_without(parts: Seq<Seq<char>>, sep: char) -> bool {
    forall|i: int, j: int| 0 <= i < parts.len() && 0 <= j < parts[i].len() ==> #[trigger] parts[i][j] != sep
}

/// Splits a dotted field path such as `sub.field` into its segments: the segments joined by
/// `.` give back `s`, and none holds a `.` (so `""` gives one empty segment).
pub fn split_path(s: &str) -> (r: Vec<&str>)
    ensures
        r@.len() >= 1,
        joined(path_view(r@), '.') == s@,
        parts_without(path_view(r@), '.'),
{
    let n = s.unicode_len();
    let mut r: Vec<&str> = Vec::new();
    let mut start: usize = 0;
    let mut i: usize = 0;
    while i < n
        invariant
            n == s@.len(),
            start <= i <= n,
            joined(path_view(r@).push(s@.subrange(start as int, i as int)), '.') == s@.subrange(0, i as int),
            parts_without(path_view(r@), '.'),
            forall|j: int| start <= j < i ==> s@[j] != '.',
        decreases n - i,
    {
        let c = s.get_char(i);
        let ghost parts = path_view(r@);
        let ghost segment = s@.subrange(start as int, i as int);
        if c == '.' {
            let piece = s.substring_char(start, i);
            r.push(piece);
            assert(path_view(r@) =~= parts.push(segment));
            let ghost next = parts.push(segment).push(s@.subrange(i + 1, i + 1));
            assert(next.drop_last() =~= parts.push(segment));
            assert(s@.subrange(i + 1, i + 1) =~= Seq::<char>::empty());
            assert(joined(next, '.') =~= s@.subrange(0, i + 1));
            start = i + 1;
        } else {
            proof {
                lemma_joined_extend_last(parts, segment, c, '.');
                assert(segment.push(c) =~= s@.subrange(start as int, i + 1));
                assert(s@.subrange(0, i as int).push(c) =~= s@.subrange(0, i + 1));
            }
        }
        i += 1;
    }
    let ghost parts = path_view(r@);
    let piece = s.substring_char(start, n);
    r.push(piece);
    assert(path_view(r@) =~= parts.push(s@.subrange(start as int, n as int)));
    assert(s@.subrange(0, n as int) =~= s@);
    assert forall|a: int, b: int| 0 <= a < path_view(r@).len() && 0 <= b < path_view(r@)[a].len() implies #[trigger] path_view(r@)[a][b] != '.' by {
        if a < parts.len() {
            assert(path_view(r@)[a] == parts[a]);
        } else {
            assert(path_view(r@)[a][b] == s@[start + b]);
        }
    }
    r
}

/// Joins the segments of a field path with `.`.
pub fn join_path(parts: &Vec<&str>) -> (r: String)
    ensures
        r@ == joined(path_view(parts@), '.'),
{
    let mut r = String::new();
    let mut i: usize = 0;
    while i < parts.len()
        invariant
            i <= parts@.len(),
            r@ == joined(path_view(parts@.take(i as int)), '.'),
        decreases parts@.len() - i,
    {
        let ghost before = path_view(parts@.take(i as int));
        assert(path_view(parts@.take(i + 1)).drop_last() =~= before);
        if i > 0 {
            r.append(".");
        }
        r.append(parts[i]);
        proof {
            reveal_strlit(".");
        }
        assert(r@ =~= joined(path_view(parts@.take(i + 1)), '.'));
        i += 1;
    }
    assert(parts@.take(parts@.len() as int) =~= parts@);
    r
}

/// The parts of `s` between its dots, taken character by character.
pub open spec fn split_parts(s: Seq<char>) -> Seq<Seq<char>>
    decreases s.len(),
{
    if s.len() == 0 {
        seq![Seq::empty()]
    } else if s.last() == '.' {
        split_parts(s.drop_last()).push(Seq::empty())
    } else {
        let prev = split_parts(s.drop_last());
        prev.update(prev.len() - 1, prev.last().push(s.last()))
    }
}

/// `split_parts` gives at least one part.
proof fn lemma_split_parts_len(s: Seq<char>)
    ensures
        split_parts(s).len() >= 1,
    decreases s.len(),
{
    if s.len() > 0 {
        lemma_split_parts_len(s.drop_last());
    }
}

/// Any cut of `s` into parts without `.` that join to `s` is `split_parts(s)`.
pub proof fn lemma_split_is_canonical(p: Seq<Seq<char>>, s: Seq<char>)
    requires
        p.len() >= 1,
        joined(p, '.') == s,
        parts_without(p, '.'),
    ensures
        p == split_parts(s),
    decreases s.len(),
{
    if p.len() == 1 {
        assert(joined(p, '.') == p[0]);
        lemma_no_dot_split(p[0]);
        assert(p =~= seq![p[0]]);
    } else {
        let init = p.drop_last();
        let last = p.last();
        assert(init.push(last) =~= p);
        assert(joined(p, '.') == joined(init, '.') + seq!['.'] + last);
        assert(parts_without(init, '.')) by {
            assert forall|i: int, j: int| 0 <= i < init.len() && 0 <= j < init[i].len() implies #[trigger] init[i][j] != '.' by {
                assert(init[i] == p[i]);
            }
        }
        if last.len() == 0 {
            assert(s.last() == '.');
            assert(s.drop_last() =~= joined(init, '.'));
            lemma_split_is_canonical(init, s.drop_last());
            assert(last =~= Seq::<char>::empty());
            assert(p =~= init.push(Seq::empty()));
        } else {
            assert(last[last.len() - 1] != '.') by {
                assert(p[p.len() - 1] == last);
            }
            assert(s.last() == last.last());
            let shorter = init.push(last.drop_last());
            proof_joined_drop_last_char(init, last);
            assert(parts_without(shorter, '.')) by {
                assert forall|i: int, j: int| 0 <= i < shorter.len() && 0 <= j < shorter[i].len() implies #[trigger] shorter[i][j] != '.' by {
                    if i < init.len() {
                        assert(shorter[i] == p[i]);
                    } else {
                        assert(shorter[i][j] == p[p.len() - 1][j]);
                    }
                }
            }
            assert(s.drop_last() =~= joined(shorter, '.'));
            lemma_split_is_canonical(shorter, s.drop_last());
            assert(last.drop_last().push(last.last()) =~= last);
            assert(shorter.last() == last.drop_last());
            assert(p =~= shorter.update(shorter.len() - 1, shorter.last().push(s.last())));
            assert(s.last() != '.');
        }
    }
}

/// A text without `.` is cut into itself alone.
proof fn lemma_no_dot_split(s: Seq<char>)
    requires
        forall|j: int| 0 <= j < s.len() ==> s[j] != '.',
    ensures
        split_parts(s) == seq![s],
    decreases s.len(),
{
    if s.len() > 0 {
        lemma_no_dot_split(s.drop_last());
        assert(s[s.len() - 1] != '.');
        let prev = split_parts(s.drop_last());
        assert(prev == seq![s.drop_last()]);
        assert(s.drop_last().push(s.last()) =~= s);
        assert(split_parts(s) == prev.update(0, prev[0].push(s.last())));
        assert(split_parts(s) =~= seq![s]);
    } else {
        assert(s =~= Seq::<char>::empty());
        assert(split_parts(s) =~= seq![s]);
    }
}

/// Joining with the last part shortened by its last character drops the last character.
proof fn proof_joined_drop_last_char(init: Seq<Seq<char>>, last: Seq<char>)
    requires
        last.len() > 0,
    ensures
        joined(init.push(last), '.') == joined(init.push(last.drop_last()), '.').push(last.last()),
{
    lemma_joined_extend_last(init, last.drop_last(), last.last(), '.');
    assert(last.drop_last().push(last.last()) =~= last);
}

} // verus!
