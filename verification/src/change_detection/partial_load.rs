//! Partial-load planning: which files to hand to a partial load, or whether
//! the whole source-set must be loaded.
//!
//! The decisions consult the filesystem only through [`PathFacts`]:
//! [`paths_to_probe`] names every path that they look at.

use vstd::prelude::*;
use crate::change_detection::analyzer::{ChangeKind, FileChange};
use crate::path::{
    file_name, file_stem, parent, extension, strip_prefix, starts_with, join, component_count,
    eq_ignore_ascii_case, file_name_seq, file_stem_seq, parent_seq, extension_seq,
    strip_prefix_seq, starts_with_seq, join_seq, component_count_seq, eq_ignore_ascii_case_seq,
};
use crate::path_order::{sort_dedup, views, is_sorted_dedup_of};
use crate::probe::{PathFacts, probed_exists, probed_canonical, exists_in, canonical_in};
use crate::text::str_eq;

verus! {

/// Default maximum number of changed files before forcing a full load.
pub const DEFAULT_PARTIAL_LOAD_THRESHOLD: usize = 20;

/// Decision made by [`decide`].
#[derive(Debug, Clone, PartialEq, Eq)]
pub enum LoadDecision {
    /// Load only the listed files.
    Partial(Vec<String>),
    /// Load the entire source-set directory.
    Full,
}

/// Why a partial list cannot be written.
#[derive(Debug, Clone, PartialEq, Eq)]
pub enum ListFileError {
    /// The source root does not exist or cannot be canonicalized.
    NotFound(String),
    /// A path cannot be represented relative to the source root.
    InvalidInput(String),
}

/// The name of the root configuration descriptor.
pub open spec fn configuration_xml_name() -> Seq<char> {
    "Configuration.xml"@
}

/// Whether `p` names the root configuration descriptor.
pub open spec fn is_configuration_xml_seq(p: Seq<char>) -> bool {
    file_name_seq(p) == Some(configuration_xml_name())
}

/// Whether `p` is a `.bsl` module (extension compared without ASCII case).
pub open spec fn is_bsl_seq(p: Seq<char>) -> bool {
    match extension_seq(p) {
        Some(e) => eq_ignore_ascii_case_seq(e, "bsl"@),
        None => false,
    }
}

/// The XML descriptor next to a `.bsl` file: same directory, same stem, `.xml`.
pub open spec fn sibling_xml_seq(bsl: Seq<char>) -> Option<Seq<char>> {
    match parent_seq(bsl) {
        Some(dir) => match file_stem_seq(bsl) {
            Some(stem) => Some(join_seq(dir, stem + ".xml"@)),
            None => None,
        },
        None => None,
    }
}

/// Whether `bsl` is a `Module.bsl` at least four components below the root
/// (a form or command module nested inside its object directory).
pub open spec fn is_nested_module_seq(bsl: Seq<char>, root: Seq<char>) -> bool {
    &&& match file_name_seq(bsl) {
        Some(n) => eq_ignore_ascii_case_seq(n, "Module.bsl"@),
        None => false,
    }
    &&& match strip_prefix_seq(bsl, root) {
        Some(rel) => component_count_seq(rel) >= 4,
        None => false,
    }
}

/// The object directory that owns a `.bsl` module: its directory, or for a
/// nested module the directory two levels above that.
pub open spec fn object_dir_seq(bsl: Seq<char>, root: Seq<char>) -> Option<Seq<char>> {
    match parent_seq(bsl) {
        Some(dir) => if is_nested_module_seq(bsl, root) {
            match parent_seq(dir) {
                Some(up) => parent_seq(up),
                None => None,
            }
        } else {
            Some(dir)
        },
        None => None,
    }
}

/// `path` relative to the source root, when its canonical form lies under
/// the canonical root `root_real`.
pub open spec fn safe_relative_path_seq(
    path: Seq<char>,
    root: Seq<char>,
    root_real: Seq<char>,
    facts: Seq<PathFacts>,
) -> Option<Seq<char>> {
    match probed_canonical(facts, path) {
        Some(cand) => if !starts_with_seq(cand, root_real) {
            None
        } else {
            match strip_prefix_seq(path, root) {
                Some(rel) => Some(rel),
                None => strip_prefix_seq(cand, root_real),
            }
        },
        None => None,
    }
}

/// Adds `candidate`, re-rooted under the source root, or fails when it is not safe.
pub open spec fn push_safe(
    acc: Option<Seq<Seq<char>>>,
    candidate: Seq<char>,
    root: Seq<char>,
    root_real: Seq<char>,
    facts: Seq<PathFacts>,
) -> Option<Seq<Seq<char>>> {
    match acc {
        Some(a) => match safe_relative_path_seq(candidate, root, root_real, facts) {
            Some(rel) => Some(a.push(join_seq(root, rel))),
            None => None,
        },
        None => None,
    }
}

/// As [`push_safe`], for a candidate that is skipped when it does not exist.
pub open spec fn push_safe_if_exists(
    acc: Option<Seq<Seq<char>>>,
    candidate: Seq<char>,
    root: Seq<char>,
    root_real: Seq<char>,
    facts: Seq<PathFacts>,
) -> Option<Seq<Seq<char>>> {
    if !probed_exists(facts, candidate) {
        acc
    } else {
        push_safe(acc, candidate, root, root_real, facts)
    }
}

/// The files that one changed path brings into the load: itself and, for a
/// module, its descriptor and its object directory (those two when they exist).
pub open spec fn expand_one(
    acc: Option<Seq<Seq<char>>>,
    p: Seq<char>,
    root: Seq<char>,
    root_real: Seq<char>,
    facts: Seq<PathFacts>,
) -> Option<Seq<Seq<char>>> {
    let a1 = push_safe(acc, p, root, root_real, facts);
    if is_bsl_seq(p) {
        let a2 = match sibling_xml_seq(p) {
            Some(x) => push_safe_if_exists(a1, x, root, root_real, facts),
            None => a1,
        };
        match object_dir_seq(p, root) {
            Some(d) => push_safe_if_exists(a2, d, root, root_real, facts),
            None => a2,
        }
    } else {
        a1
    }
}

/// The files brought in by all changes, in order, with repetitions; none
/// when some file cannot be represented safely under the root.
pub open spec fn expand_raw(
    changes: Seq<FileChange>,
    root: Seq<char>,
    root_real: Seq<char>,
    facts: Seq<PathFacts>,
) -> Option<Seq<Seq<char>>>
    decreases changes.len(),
{
    if changes.len() == 0 {
        Some(Seq::<Seq<char>>::empty())
    } else {
        expand_one(expand_raw(changes.drop_last(), root, root_real, facts), changes.last().path@, root, root_real, facts)
    }
}

/// [`expand_raw`] against the canonical root; none when the root cannot be canonicalized.
pub open spec fn expansion(changes: Seq<FileChange>, root: Seq<char>, facts: Seq<PathFacts>) -> Option<Seq<Seq<char>>> {
    match probed_canonical(facts, root) {
        Some(root_real) => expand_raw(changes, root, root_real, facts),
        None => None,
    }
}

/// Whether some change touches the root configuration descriptor.
pub open spec fn touches_configuration_xml(changes: Seq<FileChange>) -> bool {
    exists|i: int| 0 <= i < changes.len() && is_configuration_xml_seq(#[trigger] changes[i].path@)
}

/// Whether some change deletes a file.
pub open spec fn deletes_file(changes: Seq<FileChange>) -> bool {
    exists|i: int| 0 <= i < changes.len() && (#[trigger] changes[i]).kind == ChangeKind::Deleted
}

/// A full load is forced by the changes themselves, before any expansion.
pub open spec fn full_forced(changes: Seq<FileChange>, threshold: usize) -> bool {
    threshold == 0 || touches_configuration_xml(changes) || deletes_file(changes)
}

/// The list of a partial load is empty or over the threshold.
pub open spec fn list_unusable(list: Seq<Seq<char>>, threshold: usize) -> bool {
    list.len() == 0 || list.len() > threshold
}

/// Whether `p` is a `.bsl` module.
pub fn is_bsl(p: &str) -> (b: bool)
    ensures
        b == is_bsl_seq(p@),
{
    match extension(p) {
        Some(e) => eq_ignore_ascii_case(e.as_str(), "bsl"),
        None => false,
    }
}

/// Whether `p` names the root configuration descriptor.
pub fn is_configuration_xml(p: &str) -> (b: bool)
    ensures
        b == is_configuration_xml_seq(p@),
{
    match file_name(p) {
        Some(n) => str_eq(n.as_str(), "Configuration.xml"),
        None => false,
    }
}

/// The XML descriptor alongside a `.bsl` file (same name, `.xml` extension).
pub fn sibling_xml(bsl: &str) -> (r: Option<String>)
    ensures
        match r {
            Some(x) => sibling_xml_seq(bsl@) == Some(x@),
            None => sibling_xml_seq(bsl@) is None,
        },
{
    let dir = match parent(bsl) {
        Some(d) => d,
        None => return None,
    };
    let stem = match file_stem(bsl) {
        Some(s) => s,
        None => return None,
    };
    let name = stem.concat(".xml");
    Some(join(dir.as_str(), name.as_str()))
}

/// The object directory that owns a `.bsl` module.
pub fn object_dir(bsl: &str, source_root: &str) -> (r: Option<String>)
    ensures
        match r {
            Some(d) => object_dir_seq(bsl@, source_root@) == Some(d@),
            None => object_dir_seq(bsl@, source_root@) is None,
        },
        !named_module_bsl(bsl@) || !four_below(bsl@, source_root@) ==> match r {
            Some(d) => parent_seq(bsl@) == Some(d@),
            None => parent_seq(bsl@) is None,
        },
{
    proof { lemma_object_dir_owner(bsl@, source_root@); }
    let dir = match parent(bsl) {
        Some(d) => d,
        None => return None,
    };
    let named_module = match file_name(bsl) {
        Some(n) => eq_ignore_ascii_case(n.as_str(), "Module.bsl"),
        None => false,
    };
    let deep = match strip_prefix(bsl, source_root) {
        Some(rel) => component_count(rel.as_str()) >= 4,
        None => false,
    };
    if named_module && deep {
        match parent(dir.as_str()) {
            Some(up) => parent(up.as_str()),
            None => None,
        }
    } else {
        Some(dir)
    }
}

fn safe_relative_path(path: &str, source_root: &str, root_real: &str, facts: &Vec<PathFacts>) -> (r: Option<String>)
    ensures
        match r {
            Some(rel) => safe_relative_path_seq(path@, source_root@, root_real@, facts@) == Some(rel@),
            None => safe_relative_path_seq(path@, source_root@, root_real@, facts@) is None,
        },
{
    let cand = match canonical_in(facts, path) {
        Some(c) => c,
        None => return None,
    };
    if !starts_with(cand.as_str(), root_real) {
        return None;
    }
    match strip_prefix(path, source_root) {
        Some(rel) => Some(rel),
        None => strip_prefix(cand.as_str(), root_real),
    }
}

fn push_if_safe(
    paths: &mut Vec<String>,
    candidate: &str,
    source_root: &str,
    root_real: &str,
    facts: &Vec<PathFacts>,
) -> (r: Option<()>)
    ensures
        match push_safe(Some(views(old(paths)@)), candidate@, source_root@, root_real@, facts@) {
            Some(a) => r is Some && views(final(paths)@) == a,
            None => r is None,
        },
{
    let rel = match safe_relative_path(candidate, source_root, root_real, facts) {
        Some(rel) => rel,
        None => return None,
    };
    let joined = join(source_root, rel.as_str());
    paths.push(joined);
    proof {
        assert(views(paths@) =~= views(old(paths)@).push(joined@));
    }
    Some(())
}

fn push_if_safe_if_exists(
    paths: &mut Vec<String>,
    candidate: &str,
    source_root: &str,
    root_real: &str,
    facts: &Vec<PathFacts>,
) -> (r: Option<()>)
    ensures
        match push_safe_if_exists(Some(views(old(paths)@)), candidate@, source_root@, root_real@, facts@) {
            Some(a) => r is Some && views(final(paths)@) == a,
            None => r is None,
        },
{
    if !exists_in(facts, candidate) {
        return Some(());
    }
    push_if_safe(paths, candidate, source_root, root_real, facts)
}

/// The files that the changes bring into a partial load, sorted in path
/// order without repetitions; none when the root cannot be canonicalized or
/// some file does not lie safely under it.
pub fn expand_files(changes: &[FileChange], source_root: &str, facts: &Vec<PathFacts>) -> (r: Option<Vec<String>>)
    ensures
        match r {
            Some(v) => expansion(changes@, source_root@, facts@) is Some
                && is_sorted_dedup_of(views(v@), expansion(changes@, source_root@, facts@)->0),
            None => expansion(changes@, source_root@, facts@) is None,
        },
{
    let root_real = match canonical_in(facts, source_root) {
        Some(r) => r,
        None => return None,
    };
    let mut paths: Vec<String> = Vec::new();
    let mut i: usize = 0;
    assert(views(paths@) =~= Seq::<Seq<char>>::empty());
    while i < changes.len()
        invariant
            i <= changes@.len(),
            probed_canonical(facts@, source_root@) == Some(root_real@),
            expand_raw(changes@.subrange(0, i as int), source_root@, root_real@, facts@) == Some(views(paths@)),
        decreases changes@.len() - i,
    {
        let ghost acc = views(paths@);
        let p = changes[i].path.as_str();
        proof {
            let pre = changes@.subrange(0, i + 1);
            assert(pre.drop_last() =~= changes@.subrange(0, i as int));
            assert(pre.last() == changes@[i as int]);
        }
        if push_if_safe(&mut paths, p, source_root, root_real.as_str(), facts).is_none() {
            proof { lemma_expand_raw_none_prefix(changes@, i as int + 1, source_root@, root_real@, facts@); }
            return None;
        }
        if is_bsl(p) {
            if let Some(xml) = sibling_xml(p) {
                if push_if_safe_if_exists(&mut paths, xml.as_str(), source_root, root_real.as_str(), facts).is_none() {
                    proof { lemma_expand_raw_none_prefix(changes@, i as int + 1, source_root@, root_real@, facts@); }
                    return None;
                }
            }
            if let Some(dir) = object_dir(p, source_root) {
                if push_if_safe_if_exists(&mut paths, dir.as_str(), source_root, root_real.as_str(), facts).is_none() {
                    proof { lemma_expand_raw_none_prefix(changes@, i as int + 1, source_root@, root_real@, facts@); }
                    return None;
                }
            }
        }
        i = i + 1;
    }
    assert(changes@.subrange(0, changes@.len() as int) =~= changes@);
    Some(sort_dedup(&paths))
}

proof fn lemma_expand_one_none(p: Seq<char>, root: Seq<char>, root_real: Seq<char>, facts: Seq<PathFacts>)
    ensures
        expand_one(None, p, root, root_real, facts) is None,
{
}

/// Once the expansion of a prefix fails, so does that of every longer prefix.
proof fn lemma_expand_raw_none_prefix(changes: Seq<FileChange>, k: int, root: Seq<char>, root_real: Seq<char>, facts: Seq<PathFacts>)
    requires
        0 <= k <= changes.len(),
        expand_raw(changes.subrange(0, k), root, root_real, facts) is None,
    ensures
        expand_raw(changes, root, root_real, facts) is None,
    decreases changes.len() - k,
{
    if k < changes.len() {
        let pre = changes.subrange(0, k + 1);
        assert(pre.drop_last() =~= changes.subrange(0, k));
        lemma_expand_one_none(pre.last().path@, root, root_real, facts);
        lemma_expand_raw_none_prefix(changes, k + 1, root, root_real, facts);
    } else {
        assert(changes.subrange(0, k) =~= changes);
    }
}

fn touches_configuration_xml_exec(changes: &[FileChange]) -> (b: bool)
    ensures
        b == touches_configuration_xml(changes@),
{
    let mut i: usize = 0;
    while i < changes.len()
        invariant
            i <= changes@.len(),
            forall|k: int| 0 <= k < i ==> !is_configuration_xml_seq(#[trigger] changes@[k].path@),
        decreases changes@.len() - i,
    {
        if is_configuration_xml(changes[i].path.as_str()) {
            return true;
        }
        i = i + 1;
    }
    false
}

fn deletes_file_exec(changes: &[FileChange]) -> (b: bool)
    ensures
        b == deletes_file(changes@),
{
    let mut i: usize = 0;
    while i < changes.len()
        invariant
            i <= changes@.len(),
            forall|k: int| 0 <= k < i ==> (#[trigger] changes@[k]).kind != ChangeKind::Deleted,
        decreases changes@.len() - i,
    {
        if changes[i].kind == ChangeKind::Deleted {
            return true;
        }
        i = i + 1;
    }
    false
}

/// What [`decide`] returns for these changes: a partial list only when no
/// rule forces a full load, as the sorted expansion without repetitions.
pub open spec fn decision_holds(r: LoadDecision, changes: Seq<FileChange>, source_root: Seq<char>, threshold: usize, facts: Seq<PathFacts>) -> bool {
    match r {
        LoadDecision::Partial(v) => {
            &&& !full_forced(changes, threshold)
            &&& expansion(changes, source_root, facts) is Some
            &&& is_sorted_dedup_of(views(v@), expansion(changes, source_root, facts)->0)
            &&& !list_unusable(views(v@), threshold)
        },
        LoadDecision::Full => {
            ||| full_forced(changes, threshold)
            ||| expansion(changes, source_root, facts) is None
            ||| forall|out: Seq<Seq<char>>| is_sorted_dedup_of(out, expansion(changes, source_root, facts)->0)
                    ==> list_unusable(out, threshold)
        },
    }
}

/// Decides whether a partial or full load is appropriate for `changes`.
///
/// A full load is chosen when the threshold is zero, when the root
/// configuration descriptor changed, when a file was deleted, when some file
/// cannot be represented safely under the source root, or when the expanded
/// list is empty or longer than the threshold. Otherwise the partial list is
/// the expansion sorted in path order without repetitions.
pub fn decide(changes: &[FileChange], source_root: &str, threshold: usize, facts: &Vec<PathFacts>) -> (r: LoadDecision)
    ensures
        decision_holds(r, changes@, source_root@, threshold, facts@),
{
    if threshold == 0 {
        return LoadDecision::Full;
    }
    if touches_configuration_xml_exec(changes) {
        return LoadDecision::Full;
    }
    if deletes_file_exec(changes) {
        return LoadDecision::Full;
    }
    let expanded = match expand_files(changes, source_root, facts) {
        Some(v) => v,
        None => return LoadDecision::Full,
    };
    if expanded.len() == 0 || expanded.len() > threshold {
        proof {
            assert forall|out: Seq<Seq<char>>| is_sorted_dedup_of(out, expansion(changes@, source_root@, facts@)->0)
                implies list_unusable(out, threshold) by {
                crate::path_order::lemma_sorted_dedup_unique(out, views(expanded@), expansion(changes@, source_root@, facts@)->0);
            }
        }
        LoadDecision::Full
    } else {
        LoadDecision::Partial(expanded)
    }
}

/// The relative paths of a partial list, in order, skipping empty ones;
/// or the first path that cannot be represented safely.
pub open spec fn relative_list(
    paths: Seq<String>,
    root: Seq<char>,
    root_real: Seq<char>,
    facts: Seq<PathFacts>,
) -> Result<Seq<Seq<char>>, Seq<char>>
    decreases paths.len(),
{
    if paths.len() == 0 {
        Ok(Seq::<Seq<char>>::empty())
    } else {
        match relative_list(paths.drop_last(), root, root_real, facts) {
            Err(bad) => Err(bad),
            Ok(list) => match safe_relative_path_seq(paths.last()@, root, root_real, facts) {
                Some(rel) => Ok(if rel.len() == 0 { list } else { list.push(rel) }),
                None => Err(paths.last()@),
            },
        }
    }
}

/// The text of the error that `relative_paths` reports for a missing root.
pub open spec fn missing_root_text(root: Seq<char>) -> Seq<char> {
    "source root does not exist or is not canonicalizable: "@ + root
}

/// The text of the error that `relative_paths` reports for an unsafe path.
pub open spec fn unsafe_path_text(path: Seq<char>) -> Seq<char> {
    "path cannot be safely represented in partial list: "@ + path
}

/// [`ListFileError`] as a kind and its text.
pub open spec fn list_file_error_view(e: ListFileError) -> (bool, Seq<char>) {
    match e {
        ListFileError::NotFound(m) => (true, m@),
        ListFileError::InvalidInput(m) => (false, m@),
    }
}

proof fn lemma_relative_list_err_prefix(paths: Seq<String>, k: int, root: Seq<char>, root_real: Seq<char>, facts: Seq<PathFacts>, bad: Seq<char>)
    requires
        0 <= k <= paths.len(),
        relative_list(paths.subrange(0, k), root, root_real, facts) == Err::<Seq<Seq<char>>, Seq<char>>(bad),
    ensures
        relative_list(paths, root, root_real, facts) == Err::<Seq<Seq<char>>, Seq<char>>(bad),
    decreases paths.len() - k,
{
    if k < paths.len() {
        let pre = paths.subrange(0, k + 1);
        assert(pre.drop_last() =~= paths.subrange(0, k));
        lemma_relative_list_err_prefix(paths, k + 1, root, root_real, facts, bad);
    } else {
        assert(paths.subrange(0, k) =~= paths);
    }
}

/// Converts safe absolute paths into paths relative to `source_root`,
/// skipping the root itself (an empty relative path).
pub fn relative_paths(paths: &[String], source_root: &str, facts: &Vec<PathFacts>) -> (r: Result<Vec<String>, ListFileError>)
    ensures
        match probed_canonical(facts@, source_root@) {
            None => r is Err && list_file_error_view(r->Err_0) == (true, missing_root_text(source_root@)),
            Some(root_real) => match relative_list(paths@, source_root@, root_real, facts@) {
                Ok(list) => r is Ok && views(r->Ok_0@) == list,
                Err(bad) => r is Err && list_file_error_view(r->Err_0) == (false, unsafe_path_text(bad)),
            },
        },
{
    let root_real = match canonical_in(facts, source_root) {
        Some(r) => r,
        None => {
            let m = String::from_str("source root does not exist or is not canonicalizable: ").concat(source_root);
            return Err(ListFileError::NotFound(m));
        },
    };
    let mut rel_paths: Vec<String> = Vec::new();
    let mut i: usize = 0;
    assert(views(rel_paths@) =~= Seq::<Seq<char>>::empty());
    while i < paths.len()
        invariant
            i <= paths@.len(),
            probed_canonical(facts@, source_root@) == Some(root_real@),
            relative_list(paths@.subrange(0, i as int), source_root@, root_real@, facts@) == Ok::<Seq<Seq<char>>, Seq<char>>(views(rel_paths@)),
        decreases paths@.len() - i,
    {
        proof {
            let pre = paths@.subrange(0, i + 1);
            assert(pre.drop_last() =~= paths@.subrange(0, i as int));
            assert(pre.last() == paths@[i as int]);
        }
        let rel = match safe_relative_path(paths[i].as_str(), source_root, root_real.as_str(), facts) {
            Some(rel) => rel,
            None => {
                proof {
                    lemma_relative_list_err_prefix(paths@, i + 1, source_root@, root_real@, facts@, paths@[i as int]@);
                }
                let m = String::from_str("path cannot be safely represented in partial list: ").concat(paths[i].as_str());
                return Err(ListFileError::InvalidInput(m));
            },
        };
        if rel.as_str().unicode_len() != 0 {
            let ghost before = rel_paths@;
            rel_paths.push(rel);
            proof {
                assert(views(rel_paths@) =~= views(before).push(rel@));
            }
        }
        i = i + 1;
    }
    assert(paths@.subrange(0, paths@.len() as int) =~= paths@);
    Ok(rel_paths)
}

/// Lines joined by a separator.
pub open spec fn join_lines(lines: Seq<Seq<char>>, sep: Seq<char>) -> Seq<char>
    decreases lines.len(),
{
    if lines.len() == 0 {
        Seq::<char>::empty()
    } else if lines.len() == 1 {
        lines[0]
    } else {
        join_lines(lines.drop_last(), sep) + sep + lines.last()
    }
}

/// The contents of a partial list file: one path per line, lines separated
/// by CRLF, no trailing separator.
pub fn list_file_contents(rel_paths: &[String]) -> (s: String)
    ensures
        s@ == join_lines(views(rel_paths@), "\r\n"@),
{
    let mut s = String::new();
    let mut i: usize = 0;
    while i < rel_paths.len()
        invariant
            i <= rel_paths@.len(),
            s@ == join_lines(views(rel_paths@.subrange(0, i as int)), "\r\n"@),
        decreases rel_paths@.len() - i,
    {
        proof {
            let pre = views(rel_paths@.subrange(0, i + 1));
            assert(views(rel_paths@.subrange(0, i + 1)).drop_last() =~= views(rel_paths@.subrange(0, i as int)));
            assert(pre.last() == rel_paths@[i as int]@);
            if i == 0 {
                assert(pre.len() == 1);
            }
        }
        if i > 0 {
            s.append("\r\n");
        }
        s.append(rel_paths[i].as_str());
        i = i + 1;
    }
    proof {
        assert(rel_paths@.subrange(0, rel_paths@.len() as int) =~= rel_paths@);
        if rel_paths@.len() == 0 {
        }
    }
    s
}

/// Every path whose facts [`decide`] and [`expand_files`] consult: the root,
/// each changed path and, for modules, their descriptor and object directory.
pub fn paths_to_probe(changes: &[FileChange], source_root: &str) -> (r: Vec<String>)
    ensures
        r@.len() >= 1,
        r@[0]@ == source_root@,
        forall|i: int| 0 <= i < changes@.len() ==> exists|k: int| 0 <= k < r@.len() && (#[trigger] r@[k])@ == (#[trigger] changes@[i]).path@,
{
    let mut r: Vec<String> = Vec::new();
    r.push(String::from_str(source_root));
    let mut i: usize = 0;
    while i < changes.len()
        invariant
            i <= changes@.len(),
            r@.len() >= 1,
            r@[0]@ == source_root@,
            forall|j: int| 0 <= j < i ==> exists|k: int| 0 <= k < r@.len() && (#[trigger] r@[k])@ == (#[trigger] changes@[j]).path@,
        decreases changes@.len() - i,
    {
        let ghost before = r@;
        let p = changes[i].path.as_str();
        r.push(changes[i].path.clone());
        assert(r@[before.len() as int]@ == changes@[i as int].path@);
        if is_bsl(p) {
            if let Some(xml) = sibling_xml(p) {
                r.push(xml);
            }
            if let Some(dir) = object_dir(p, source_root) {
                r.push(dir);
            }
        }
        proof {
            assert forall|j: int| 0 <= j < i + 1 implies exists|k: int| 0 <= k < r@.len() && (#[trigger] r@[k])@ == (#[trigger] changes@[j]).path@ by {
                if j < i {
                    let k = choose|k: int| 0 <= k < before.len() && before[k]@ == changes@[j].path@;
                    assert(r@[k] == before[k]);
                } else {
                    assert(r@[before.len() as int]@ == changes@[j].path@);
                }
            }
        }
        i = i + 1;
    }
    r
}


/// Whether `bsl`'s file name is `Module.bsl`, ignoring ASCII case.
pub open spec fn named_module_bsl(bsl: Seq<char>) -> bool {
    file_name_seq(bsl) matches Some(n) && eq_ignore_ascii_case_seq(n, "Module.bsl"@)
}

/// Whether `bsl` lies at least four components below `root`.
pub open spec fn four_below(bsl: Seq<char>, root: Seq<char>) -> bool {
    strip_prefix_seq(bsl, root) matches Some(rel) && component_count_seq(rel) >= 4
}

/// Which directory owns a module: a module file not named `Module.bsl`
/// (ignoring ASCII case), or one fewer than four components below the
/// root, belongs to its own directory, whatever its depth; a `Module.bsl`
/// four or more components below the root belongs to the directory two
/// levels above its own.
pub proof fn lemma_object_dir_owner(bsl: Seq<char>, root: Seq<char>)
    ensures
        !named_module_bsl(bsl) ==> object_dir_seq(bsl, root) == parent_seq(bsl),
        !four_below(bsl, root) ==> object_dir_seq(bsl, root) == parent_seq(bsl),
        named_module_bsl(bsl) && four_below(bsl, root) ==> object_dir_seq(bsl, root) == (match parent_seq(bsl) {
            Some(dir) => match parent_seq(dir) {
                Some(up) => parent_seq(up),
                None => None,
            },
            None => None,
        }),
{
}

} // verus!
