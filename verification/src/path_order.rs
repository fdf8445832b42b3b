//! The order of paths: component by component, which is byte order with the
//! separator `/` ranked below every other character; and sorting with
//! duplicates removed under that order.

use vstd::prelude::*;
use crate::text::to_chars;

verus! {

/// Rank of a character in the path order: `/` first, then by code point.
pub open spec fn char_rank(c: char) -> int {
    if c == '/' {
        0
    } else {
        (c as u32) as int + 1
    }
}

/// Whether path `a` comes strictly before path `b`.
pub open spec fn path_less(a: Seq<char>, b: Seq<char>) -> bool
    decreases a.len(),
{
    if a.len() == 0 {
        b.len() > 0
    } else if b.len() == 0 {
        false
    } else if char_rank(a[0]) < char_rank(b[0]) {
        true
    } else if char_rank(a[0]) > char_rank(b[0]) {
        false
    } else {
        path_less(a.drop_first(), b.drop_first())
    }
}

/// The string views of a sequence of strings.
pub open spec fn views(v: Seq<String>) -> Seq<Seq<char>> {
    v.map_values(|s: String| s@)
}

/// Every element comes strictly before the next ones.
pub open spec fn strictly_sorted(s: Seq<Seq<char>>) -> bool {
    forall|i: int, j: int| 0 <= i < j < s.len() ==> path_less(#[trigger] s[i], #[trigger] s[j])
}

/// Whether `x` is one of the elements of `s`.
pub open spec fn holds(s: Seq<Seq<char>>, x: Seq<char>) -> bool {
    exists|i: int| 0 <= i < s.len() && #[trigger] s[i] == x
}

/// `out` is `input` sorted in path order with duplicates removed.
pub open spec fn is_sorted_dedup_of(out: Seq<Seq<char>>, input: Seq<Seq<char>>) -> bool {
    &&& strictly_sorted(out)
    &&& forall|x: Seq<char>| holds(out, x) <==> holds(input, x)
}

proof fn lemma_rank_injective(a: char, b: char)
    requires
        char_rank(a) == char_rank(b),
    ensures
        a == b,
{
    if a != '/' && b != '/' {
        assert((a as u32) == (b as u32));
    }
}

/// No path comes before itself.
pub proof fn lemma_path_less_irreflexive(a: Seq<char>)
    ensures
        !path_less(a, a),
    decreases a.len(),
{
    if a.len() > 0 {
        lemma_path_less_irreflexive(a.drop_first());
    }
}

/// The path order is transitive.
pub proof fn lemma_path_less_transitive(a: Seq<char>, b: Seq<char>, c: Seq<char>)
    requires
        path_less(a, b),
        path_less(b, c),
    ensures
        path_less(a, c),
    decreases a.len(),
{
    if a.len() > 0 && b.len() > 0 && c.len() > 0 {
        if char_rank(a[0]) == char_rank(b[0]) && char_rank(b[0]) == char_rank(c[0]) {
            lemma_path_less_transitive(a.drop_first(), b.drop_first(), c.drop_first());
        }
    }
}

/// Any two different paths are ordered one way or the other.
pub proof fn lemma_path_less_total(a: Seq<char>, b: Seq<char>)
    requires
        a != b,
    ensures
        path_less(a, b) || path_less(b, a),
    decreases a.len(),
{
    if a.len() > 0 && b.len() > 0 && char_rank(a[0]) == char_rank(b[0]) {
        lemma_rank_injective(a[0], b[0]);
        if a.drop_first() == b.drop_first() {
            assert(a =~= seq![a[0]] + a.drop_first());
            assert(b =~= seq![b[0]] + b.drop_first());
        }
        lemma_path_less_total(a.drop_first(), b.drop_first());
    } else if a.len() == 0 && b.len() == 0 {
        assert(a =~= b);
    }
}

proof fn lemma_same_sorted(a: Seq<Seq<char>>, b: Seq<Seq<char>>)
    requires
        strictly_sorted(a),
        strictly_sorted(b),
        forall|x: Seq<char>| holds(a, x) <==> holds(b, x),
    ensures
        a == b,
    decreases a.len(),
{
    if a.len() == 0 {
        if b.len() > 0 {
            assert(holds(b, b[0]));
        }
        assert(a =~= b);
    } else if b.len() == 0 {
        assert(holds(a, a[0]));
    } else {
        assert(holds(a, a[0]));
        assert(holds(b, b[0]));
        if a[0] != b[0] {
            let k = choose|k: int| 0 <= k < b.len() && b[k] == a[0];
            let m = choose|m: int| 0 <= m < a.len() && a[m] == b[0];
            assert(path_less(b[0], b[k]));
            assert(path_less(a[0], a[m]));
            lemma_path_less_transitive(a[0], b[0], a[0]);
            lemma_path_less_irreflexive(a[0]);
        }
        let a2 = a.drop_first();
        let b2 = b.drop_first();
        assert forall|i: int, j: int| 0 <= i < j < a2.len() implies path_less(#[trigger] a2[i], #[trigger] a2[j]) by {
            assert(a2[i] == a[i + 1] && a2[j] == a[j + 1]);
        }
        assert forall|i: int, j: int| 0 <= i < j < b2.len() implies path_less(#[trigger] b2[i], #[trigger] b2[j]) by {
            assert(b2[i] == b[i + 1] && b2[j] == b[j + 1]);
        }
        assert forall|x: Seq<char>| holds(a2, x) <==> holds(b2, x) by {
            if holds(a2, x) {
                let m = choose|m: int| 0 <= m < a2.len() && a2[m] == x;
                assert(a[m + 1] == x);
                assert(path_less(a[0], a[m + 1]));
                lemma_path_less_irreflexive(x);
                assert(holds(a, x));
                let k = choose|k: int| 0 <= k < b.len() && b[k] == x;
                assert(k != 0);
                assert(b2[k - 1] == x);
            }
            if holds(b2, x) {
                let m = choose|m: int| 0 <= m < b2.len() && b2[m] == x;
                assert(b[m + 1] == x);
                assert(path_less(b[0], b[m + 1]));
                lemma_path_less_irreflexive(x);
                assert(holds(b, x));
                let k = choose|k: int| 0 <= k < a.len() && a[k] == x;
                assert(k != 0);
                assert(a2[k - 1] == x);
            }
        }
        lemma_same_sorted(a2, b2);
        assert(a =~= b) by {
            assert forall|i: int| 0 <= i < a.len() implies a[i] == b[i] by {
                if i > 0 {
                    assert(a[i] == a2[i - 1]);
                    assert(b[i] == b2[i - 1]);
                }
            }
        }
    }
}

/// Sorting without repetitions has one outcome: two sorted, repetition-free
/// versions of the same sequence are equal.
pub proof fn lemma_sorted_dedup_unique(a: Seq<Seq<char>>, b: Seq<Seq<char>>, s: Seq<Seq<char>>)
    requires
        is_sorted_dedup_of(a, s),
        is_sorted_dedup_of(b, s),
    ensures
        a == b,
{
    assert forall|x: Seq<char>| holds(a, x) <==> holds(b, x) by {
        assert(holds(a, x) <==> holds(s, x));
        assert(holds(b, x) <==> holds(s, x));
    }
    lemma_same_sorted(a, b);
}

fn rank_exec(c: char) -> (r: u64)
    ensures
        r as int == char_rank(c),
{
    if c == '/' {
        0
    } else {
        (c as u32) as u64 + 1
    }
}

fn less_chars(a: &Vec<char>, b: &Vec<char>) -> (r: bool)
    ensures
        r == path_less(a@, b@),
{
    let mut i: usize = 0;
    assert(a@.subrange(0, a@.len() as int) =~= a@);
    assert(b@.subrange(0, b@.len() as int) =~= b@);
    while i < a.len() && i < b.len() && rank_exec(a[i]) == rank_exec(b[i])
        invariant
            i <= a@.len(),
            i <= b@.len(),
            path_less(a@, b@) == path_less(a@.subrange(i as int, a@.len() as int), b@.subrange(i as int, b@.len() as int)),
        decreases a@.len() - i,
    {
        proof {
            let sa = a@.subrange(i as int, a@.len() as int);
            let sb = b@.subrange(i as int, b@.len() as int);
            assert(sa.drop_first() =~= a@.subrange(i + 1, a@.len() as int));
            assert(sb.drop_first() =~= b@.subrange(i + 1, b@.len() as int));
            assert(sa[0] == a@[i as int] && sb[0] == b@[i as int]);
        }
        i = i + 1;
    }
    proof {
        let sa = a@.subrange(i as int, a@.len() as int);
        let sb = b@.subrange(i as int, b@.len() as int);
        if i < a@.len() {
            assert(sa[0] == a@[i as int]);
        }
        if i < b@.len() {
            assert(sb[0] == b@[i as int]);
        }
    }
    if i == a.len() {
        i < b.len()
    } else if i == b.len() {
        false
    } else {
        rank_exec(a[i]) < rank_exec(b[i])
    }
}

/// Whether path `a` comes strictly before path `b`.
pub fn path_lt(a: &str, b: &str) -> (r: bool)
    ensures
        r == path_less(a@, b@),
{
    let av = to_chars(a);
    let bv = to_chars(b);
    less_chars(&av, &bv)
}

proof fn lemma_views_push(v: Seq<String>, s: String)
    ensures
        views(v.push(s)) == views(v).push(s@),
{
    assert(views(v.push(s)) =~= views(v).push(s@));
}

proof fn lemma_views_insert(v: Seq<String>, p: int, s: String)
    requires
        0 <= p <= v.len(),
    ensures
        views(v.insert(p, s)) == views(v).insert(p, s@),
{
    assert(views(v.insert(p, s)) =~= views(v).insert(p, s@));
}

/// `input` sorted in path order with duplicates removed.
pub fn sort_dedup(input: &Vec<String>) -> (out: Vec<String>)
    ensures
        is_sorted_dedup_of(views(out@), views(input@)),
{
    let mut out: Vec<String> = Vec::new();
    let mut i: usize = 0;
    while i < input.len()
        invariant
            i <= input@.len(),
            strictly_sorted(views(out@)),
            forall|x: Seq<char>| holds(views(out@), x) <==> holds(views(input@.subrange(0, i as int)), x),
        decreases input@.len() - i,
    {
        let x = &input[i];
        let ghost xs = x@;
        let ghost before = views(out@);
        // first position whose element does not come before x
        let mut p: usize = 0;
        while p < out.len() && path_lt(out[p].as_str(), x.as_str())
            invariant
                p <= out@.len(),
                views(out@) == before,
                xs == x@,
                forall|k: int| 0 <= k < p ==> path_less(#[trigger] before[k], xs),
            decreases out@.len() - p,
        {
            assert(before[p as int] == out@[p as int]@);
            p = p + 1;
        }
        let duplicate = p < out.len() && out[p] == *x;
        let ghost old_out = out@;
        if !duplicate {
            out.insert(p, x.clone());
            proof {
                lemma_views_insert(old_out, p as int, *x);
                let now = views(out@);
                assert forall|a: int, b: int| 0 <= a < b < now.len() implies path_less(#[trigger] now[a], #[trigger] now[b]) by {
                    if p < before.len() {
                        assert(!path_less(before[p as int], xs));
                        assert(before[p as int] != xs);
                        lemma_path_less_total(before[p as int], xs);
                    }
                    if a < p && b == p {
                    } else if a < p && b > p {
                        assert(now[b] == before[b - 1]);
                        if b - 1 > p {
                            assert(path_less(before[p as int], before[b - 1]));
                            lemma_path_less_transitive(xs, before[p as int], before[b - 1]);
                        }
                        lemma_path_less_transitive(now[a], xs, now[b]);
                    } else if a == p && b > p {
                        assert(now[b] == before[b - 1]);
                        if b - 1 > p {
                            assert(path_less(before[p as int], before[b - 1]));
                            lemma_path_less_transitive(xs, before[p as int], before[b - 1]);
                        }
                    } else if a > p {
                        assert(now[a] == before[a - 1] && now[b] == before[b - 1]);
                    } else {
                        assert(now[a] == before[a] && now[b] == before[b]);
                    }
                }
            }
        }
        proof {
            let now = views(out@);
            let pre = views(input@.subrange(0, i as int));
            let post = views(input@.subrange(0, i + 1));
            assert(post =~= pre.push(xs));
            assert forall|y: Seq<char>| holds(now, y) <==> holds(post, y) by {
                if holds(post, y) {
                    let k = choose|k: int| 0 <= k < post.len() && post[k] == y;
                    if k < pre.len() {
                        assert(pre[k] == y);
                        assert(holds(before, y));
                        let m = choose|m: int| 0 <= m < before.len() && before[m] == y;
                        if duplicate {
                            assert(now[m] == y);
                        } else if m < p {
                            assert(now[m] == y);
                        } else {
                            assert(now[m + 1] == y);
                        }
                    } else {
                        if duplicate {
                            assert(now[p as int] == y);
                        } else {
                            assert(now[p as int] == y);
                        }
                    }
                }
                if holds(now, y) {
                    let m = choose|m: int| 0 <= m < now.len() && now[m] == y;
                    if duplicate {
                        assert(before[m] == y);
                        assert(holds(before, y));
                        assert(holds(pre, y));
                        let k = choose|k: int| 0 <= k < pre.len() && pre[k] == y;
                        assert(post[k] == y);
                    } else if m == p {
                        assert(post[pre.len() as int] == y);
                    } else {
                        let m2 = if m < p { m } else { m - 1 };
                        assert(before[m2] == y);
                        assert(holds(before, y));
                        assert(holds(pre, y));
                        let k = choose|k: int| 0 <= k < pre.len() && pre[k] == y;
                        assert(post[k] == y);
                    }
                }
            }
        }
        i = i + 1;
    }
    assert(input@.subrange(0, input@.len() as int) =~= input@);
    out
}

} // verus!
