//! Paths as `/`-separated strings.
//!
//! The functions here follow `std::path` on paths without `.` segments,
//! repeated separators or a trailing separator (other than the root `/`),
//! which is how the tool builds every path it handles.

use vstd::prelude::*;
use vstd::string::*;
use crate::text::{to_chars, string_from_range, push_char, occurs_at_exec};

verus! {

/// Position of the last `/` in `s`, or `-1` when there is none.
pub open spec fn last_sep(s: Seq<char>) -> int
    decreases s.len(),
{
    if s.len() == 0 {
        -1
    } else if s.last() == '/' {
        s.len() - 1
    } else {
        last_sep(s.drop_last())
    }
}

/// Position of the last `.` in `s`, or `-1` when there is none.
pub open spec fn last_dot(s: Seq<char>) -> int
    decreases s.len(),
{
    if s.len() == 0 {
        -1
    } else if s.last() == '.' {
        s.len() - 1
    } else {
        last_dot(s.drop_last())
    }
}

pub open spec fn is_absolute_seq(p: Seq<char>) -> bool {
    p.len() > 0 && p[0] == '/'
}

/// `base.join(rel)`.
pub open spec fn join_seq(base: Seq<char>, rel: Seq<char>) -> Seq<char> {
    if is_absolute_seq(rel) || base.len() == 0 {
        rel
    } else if base.last() == '/' {
        base + rel
    } else {
        base + seq!['/'] + rel
    }
}

/// The last segment of `p`.
pub open spec fn last_segment(p: Seq<char>) -> Seq<char> {
    p.subrange(last_sep(p) + 1, p.len() as int)
}

/// `p.file_name()`: the last segment unless it is empty, `.` or `..`.
pub open spec fn file_name_seq(p: Seq<char>) -> Option<Seq<char>> {
    let seg = last_segment(p);
    if seg.len() == 0 || seg == seq!['.'] || seg == seq!['.', '.'] {
        None
    } else {
        Some(seg)
    }
}

/// `p.parent()`.
pub open spec fn parent_seq(p: Seq<char>) -> Option<Seq<char>> {
    if p.len() == 0 || p == seq!['/'] {
        None
    } else if last_sep(p) < 0 {
        Some(Seq::<char>::empty())
    } else if last_sep(p) == 0 {
        Some(seq!['/'])
    } else {
        Some(p.subrange(0, last_sep(p)))
    }
}

/// `p.extension()`: what follows the last `.` of the file name, when that
/// `.` is not its first character.
pub open spec fn extension_seq(p: Seq<char>) -> Option<Seq<char>> {
    match file_name_seq(p) {
        Some(name) => if last_dot(name) > 0 {
            Some(name.subrange(last_dot(name) + 1, name.len() as int))
        } else {
            None
        },
        None => None,
    }
}

/// `p.file_stem()`: the file name without its extension.
pub open spec fn file_stem_seq(p: Seq<char>) -> Option<Seq<char>> {
    match file_name_seq(p) {
        Some(name) => if last_dot(name) > 0 {
            Some(name.subrange(0, last_dot(name)))
        } else {
            Some(name)
        },
        None => None,
    }
}

/// `p.with_extension(ext)` for a non-empty `ext`: the path with the
/// extension of its file name replaced (or added); a path without a file
/// name is returned unchanged.
pub open spec fn with_extension_seq(p: Seq<char>, ext: Seq<char>) -> Seq<char> {
    match file_name_seq(p) {
        None => p,
        Some(name) => {
            let keep = if last_dot(name) > 0 { last_sep(p) + 1 + last_dot(name) } else { p.len() as int };
            p.subrange(0, keep) + seq!['.'] + ext
        },
    }
}

/// `p.strip_prefix(base)`, component by component.
pub open spec fn strip_prefix_seq(p: Seq<char>, base: Seq<char>) -> Option<Seq<char>> {
    if base.len() == 0 {
        Some(p)
    } else if p == base {
        Some(Seq::<char>::empty())
    } else if base.last() == '/' {
        if base.len() <= p.len() && p.subrange(0, base.len() as int) == base {
            Some(p.subrange(base.len() as int, p.len() as int))
        } else {
            None
        }
    } else if base.len() + 1 <= p.len() && p.subrange(0, base.len() as int) == base
        && p[base.len() as int] == '/' {
        Some(p.subrange(base.len() as int + 1, p.len() as int))
    } else {
        None
    }
}

/// `p.starts_with(base)`, component by component.
pub open spec fn starts_with_seq(p: Seq<char>, base: Seq<char>) -> bool {
    strip_prefix_seq(p, base) is Some
}

/// Number of `/`-free non-empty runs in `s`.
pub open spec fn segment_count(s: Seq<char>) -> nat
    decreases s.len(),
{
    if s.len() == 0 {
        0
    } else if s.last() != '/' && (s.len() == 1 || s[s.len() - 2] == '/') {
        segment_count(s.drop_last()) + 1
    } else {
        segment_count(s.drop_last())
    }
}

/// `p.components().count()`: the segments, plus the root for an absolute path.
pub open spec fn component_count_seq(p: Seq<char>) -> nat {
    if is_absolute_seq(p) {
        segment_count(p) + 1
    } else {
        segment_count(p)
    }
}

/// ASCII lower-case of one character.
pub open spec fn ascii_lower(c: char) -> char {
    if 'A' <= c && c <= 'Z' {
        ((c as u32) + 32) as char
    } else {
        c
    }
}

/// `a.eq_ignore_ascii_case(b)`.
pub open spec fn eq_ignore_ascii_case_seq(a: Seq<char>, b: Seq<char>) -> bool {
    a.len() == b.len() && forall|i: int| 0 <= i < a.len() ==> ascii_lower(#[trigger] a[i])
        == ascii_lower(b[i])
}

pub fn ascii_lower_char(c: char) -> (r: char)
    ensures
        r == ascii_lower(c),
{
    if 'A' <= c && c <= 'Z' {
        let b = (c as u8) + 32;
        b as char
    } else {
        c
    }
}

fn last_index_of(v: &Vec<char>, c: char) -> (r: Option<usize>)
    ensures
        c == '/' ==> (match r {
            Some(i) => last_sep(v@) == i as int,
            None => last_sep(v@) == -1,
        }),
        c == '.' ==> (match r {
            Some(i) => last_dot(v@) == i as int,
            None => last_dot(v@) == -1,
        }),
        r matches Some(i) ==> i < v.len(),
{
    let mut j = v.len();
    assert(v@.subrange(0, j as int) =~= v@);
    while j > 0 && v[j - 1] != c
        invariant
            j <= v@.len(),
            c == '/' ==> last_sep(v@) == last_sep(v@.subrange(0, j as int)),
            c == '.' ==> last_dot(v@) == last_dot(v@.subrange(0, j as int)),
        decreases j,
    {
        assert(v@.subrange(0, j as int).drop_last() =~= v@.subrange(0, j - 1));
        j = j - 1;
    }
    proof {
        assert(v@.subrange(0, v@.len() as int) =~= v@);
    }
    if j == 0 {
        None
    } else {
        Some(j - 1)
    }
}

proof fn lemma_last_sep_prefix(s: Seq<char>, j: int)
    requires
        0 <= j <= s.len(),
        forall|k: int| j <= k < s.len() ==> s[k] != '/',
    ensures
        last_sep(s) == last_sep(s.subrange(0, j)),
    decreases s.len() - j,
{
    if j < s.len() {
        assert(s.drop_last() =~= s.drop_last().subrange(0, s.len() - 1));
        lemma_last_sep_prefix(s.drop_last(), j);
        assert(s.drop_last().subrange(0, j) =~= s.subrange(0, j));
    } else {
        assert(s.subrange(0, j) =~= s);
    }
}

/// Whether `p` is absolute (starts with `/`).
pub fn is_absolute(p: &str) -> (b: bool)
    ensures
        b == is_absolute_seq(p@),
{
    let n = p.unicode_len();
    n > 0 && p.get_char(0) == '/'
}

/// `base.join(rel)`.
pub fn join(base: &str, rel: &str) -> (r: String)
    ensures
        r@ == join_seq(base@, rel@),
{
    proof {
        reveal_strlit("/");
    }
    let n = base.unicode_len();
    if is_absolute(rel) || n == 0 {
        String::from_str(rel)
    } else if base.get_char(n - 1) == '/' {
        String::from_str(base).concat(rel)
    } else {
        String::from_str(base).concat("/").concat(rel)
    }
}

fn segment_bounds(v: &Vec<char>) -> (r: usize)
    ensures
        r as int == last_sep(v@) + 1,
        r <= v@.len(),
{
    match last_index_of(v, '/') {
        Some(i) => i + 1,
        None => 0,
    }
}

/// `p.file_name()`.
pub fn file_name(p: &str) -> (r: Option<String>)
    ensures
        r matches Some(s) ==> file_name_seq(p@) == Some(s@),
        r is None ==> file_name_seq(p@) is None,
{
    let v = to_chars(p);
    let start = segment_bounds(&v);
    let n = v.len();
    let seg_len = n - start;
    let is_dot = seg_len == 1 && v[start] == '.';
    let is_dotdot = seg_len == 2 && v[start] == '.' && v[start + 1] == '.';
    proof {
        let seg = v@.subrange(start as int, n as int);
        if seg_len >= 1 {
            assert(seg[0] == v@[start as int]);
        }
        if seg_len >= 2 {
            assert(seg[1] == v@[start + 1]);
        }
        if seg_len == 1 {
            assert(is_dot <==> seg =~= seq!['.']);
        } else {
            assert(seg.len() != seq!['.'].len());
        }
        if seg_len == 2 {
            assert(is_dotdot <==> seg =~= seq!['.', '.']);
        } else {
            assert(seg.len() != seq!['.', '.'].len());
        }
    }
    if seg_len == 0 || is_dot || is_dotdot {
        None
    } else {
        Some(string_from_range(&v, start, n))
    }
}

/// `p.parent()`.
pub fn parent(p: &str) -> (r: Option<String>)
    ensures
        r matches Some(s) ==> parent_seq(p@) == Some(s@),
        r is None ==> parent_seq(p@) is None,
{
    let v = to_chars(p);
    let n = v.len();
    if n == 0 {
        return None;
    }
    if n == 1 && v[0] == '/' {
        assert(v@ =~= seq!['/']);
        return None;
    }
    assert(v@ != seq!['/']);
    match last_index_of(&v, '/') {
        None => Some(String::new()),
        Some(i) => {
            if i == 0 {
                let mut s = String::new();
                push_char(&mut s, '/');
                assert(s@ =~= seq!['/']);
                Some(s)
            } else {
                Some(string_from_range(&v, 0, i))
            }
        },
    }
}

/// `p.extension()`.
pub fn extension(p: &str) -> (r: Option<String>)
    ensures
        r matches Some(s) ==> extension_seq(p@) == Some(s@),
        r is None ==> extension_seq(p@) is None,
{
    match file_name(p) {
        None => None,
        Some(name) => {
            let v = to_chars(name.as_str());
            match last_index_of(&v, '.') {
                Some(i) => {
                    if i > 0 {
                        Some(string_from_range(&v, i + 1, v.len()))
                    } else {
                        None
                    }
                },
                None => None,
            }
        },
    }
}

/// `p.with_extension(ext)` for a non-empty `ext`.
pub fn with_extension(p: &str, ext: &str) -> (r: String)
    ensures
        r@ == with_extension_seq(p@, ext@),
{
    let v = to_chars(p);
    let name = match file_name(p) {
        None => {
            return String::from_str(p);
        },
        Some(n) => n,
    };
    let start = segment_bounds(&v);
    let nv = to_chars(name.as_str());
    proof {
        assert(v@.subrange(start as int, v@.len() as int) == name@);
        assert(nv@.len() == v@.len() - start);
    }
    let keep = match last_index_of(&nv, '.') {
        Some(i) => {
            assert(i < nv.len());
            assert(start + nv.len() == v.len());
            if i > 0 { start + i } else { v.len() }
        },
        None => v.len(),
    };
    let mut r = string_from_range(&v, 0, keep);
    push_char(&mut r, '.');
    r.concat(ext)
}

/// `p.file_stem()`.
pub fn file_stem(p: &str) -> (r: Option<String>)
    ensures
        r matches Some(s) ==> file_stem_seq(p@) == Some(s@),
        r is None ==> file_stem_seq(p@) is None,
{
    match file_name(p) {
        None => None,
        Some(name) => {
            let v = to_chars(name.as_str());
            match last_index_of(&v, '.') {
                Some(i) => {
                    if i > 0 {
                        Some(string_from_range(&v, 0, i))
                    } else {
                        Some(name)
                    }
                },
                None => Some(name),
            }
        },
    }
}

fn is_prefix_exec(p: &Vec<char>, base: &Vec<char>) -> (b: bool)
    ensures
        b == (base@.len() <= p@.len() && p@.subrange(0, base@.len() as int) == base@),
{
    if base.len() > p.len() {
        return false;
    }
    let r = occurs_at_exec(p, base, 0);
    proof {
        if r {
            assert(p@.subrange(0, base@.len() as int) == base@);
        }
    }
    r
}

/// `p.strip_prefix(base)`.
pub fn strip_prefix(p: &str, base: &str) -> (r: Option<String>)
    ensures
        r matches Some(s) ==> strip_prefix_seq(p@, base@) == Some(s@),
        r is None ==> strip_prefix_seq(p@, base@) is None,
{
    let pv = to_chars(p);
    let bv = to_chars(base);
    let n = pv.len();
    let m = bv.len();
    if m == 0 {
        return Some(String::from_str(p));
    }
    let same = m == n && is_prefix_exec(&pv, &bv);
    proof {
        if m == n && is_prefix_exec_spec(pv@, bv@) {
            assert(pv@.subrange(0, m as int) =~= pv@);
        }
        if same {
            assert(pv@ =~= bv@);
        }
        if pv@ == bv@ {
            assert(pv@.subrange(0, m as int) =~= pv@);
        }
    }
    if same {
        return Some(String::new());
    }
    if bv[m - 1] == '/' {
        if is_prefix_exec(&pv, &bv) {
            Some(string_from_range(&pv, m, n))
        } else {
            None
        }
    } else if m < n && is_prefix_exec(&pv, &bv) && pv[m] == '/' {
        Some(string_from_range(&pv, m + 1, n))
    } else {
        None
    }
}

spec fn is_prefix_exec_spec(p: Seq<char>, base: Seq<char>) -> bool {
    base.len() <= p.len() && p.subrange(0, base.len() as int) == base
}

/// `p.starts_with(base)`.
pub fn starts_with(p: &str, base: &str) -> (b: bool)
    ensures
        b == starts_with_seq(p@, base@),
{
    strip_prefix(p, base).is_some()
}

/// `p.components().count()`.
pub fn component_count(p: &str) -> (n: usize)
    ensures
        n as nat == component_count_seq(p@),
{
    let v = to_chars(p);
    let mut count: usize = 0;
    let mut i: usize = 0;
    while i < v.len()
        invariant
            i <= v@.len(),
            count as nat == segment_count(v@.subrange(0, i as int)),
            count <= i,
            i > 0 && v@[0] == '/' ==> count < i,
        decreases v@.len() - i,
    {
        let starts = v[i] != '/' && (i == 0 || v[i - 1] == '/');
        proof {
            let s = v@.subrange(0, i + 1);
            assert(s.drop_last() =~= v@.subrange(0, i as int));
            assert(s.last() == v@[i as int]);
            if i > 0 {
                assert(s[s.len() - 2] == v@[i - 1]);
            }
        }
        if starts {
            count = count + 1;
        }
        i = i + 1;
    }
    assert(v@.subrange(0, v@.len() as int) =~= v@);
    if is_absolute(p) {
        count + 1
    } else {
        count
    }
}

/// `a.eq_ignore_ascii_case(b)`.
pub fn eq_ignore_ascii_case(a: &str, b: &str) -> (r: bool)
    ensures
        r == eq_ignore_ascii_case_seq(a@, b@),
{
    let av = to_chars(a);
    let bv = to_chars(b);
    if av.len() != bv.len() {
        return false;
    }
    let mut i: usize = 0;
    while i < av.len()
        invariant
            av@ == a@,
            bv@ == b@,
            av@.len() == bv@.len(),
            i <= av@.len(),
            forall|k: int| 0 <= k < i ==> ascii_lower(#[trigger] av@[k]) == ascii_lower(bv@[k]),
        decreases av@.len() - i,
    {
        if ascii_lower_char(av[i]) != ascii_lower_char(bv[i]) {
            assert(ascii_lower(av@[i as int]) != ascii_lower(bv@[i as int]));
            return false;
        }
        i = i + 1;
    }
    true
}


proof fn lemma_last_sep_bounds(s: Seq<char>)
    ensures
        -1 <= last_sep(s) < s.len(),
    decreases s.len(),
{
    if s.len() > 0 && s.last() != '/' {
        lemma_last_sep_bounds(s.drop_last());
    }
}

proof fn lemma_last_dot_is_last(s: Seq<char>)
    ensures
        -1 <= last_dot(s) < s.len(),
        last_dot(s) >= 0 ==> s[last_dot(s)] == '.',
        forall|i: int| last_dot(s) < i < s.len() ==> s[i] != '.',
    decreases s.len(),
{
    if s.len() > 0 && s.last() != '.' {
        lemma_last_dot_is_last(s.drop_last());
        assert forall|i: int| last_dot(s) < i < s.len() implies s[i] != '.' by {
            if i < s.len() - 1 {
                assert(s[i] == s.drop_last()[i]);
            }
        }
    }
}

/// Giving a path that has a file name an extension that contains a `.`
/// always yields another path: the old extension holds no `.`.
pub proof fn lemma_with_extension_moves(p: Seq<char>, ext: Seq<char>)
    requires
        file_name_seq(p) is Some,
        ext.contains('.'),
    ensures
        with_extension_seq(p, ext) != p,
{
    let name = file_name_seq(p)->0;
    let sep = last_sep(p);
    lemma_last_sep_bounds(p);
    lemma_last_dot_is_last(name);
    let d = last_dot(name);
    let r = with_extension_seq(p, ext);
    if d > 0 {
        let keep = sep + 1 + d;
        if r == p {
            let j = choose|j: int| 0 <= j < ext.len() && ext[j] == '.';
            assert(r[keep + 1 + j] == ext[j]);
            assert(name[d + 1 + j] == p[sep + 1 + d + 1 + j]);
            assert(false);
        }
    } else {
        assert(r.len() > p.len());
    }
}

} // verus!
