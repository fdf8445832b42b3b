//! What was found on disk for a set of paths: the facts that the decisions
//! of this library take instead of reading the filesystem themselves.

use vstd::prelude::*;
use crate::text::str_eq;

verus! {

/// What was found on disk for one path.
#[derive(Debug, Clone)]
pub struct PathFacts {
    /// The path that was probed.
    pub path: String,
    /// Whether something exists there (`Path::exists`).
    pub exists: bool,
    /// Its canonical form (`fs::canonicalize`), when that succeeded. Only a
    /// path that exists has one: a canonical form recorded for a path marked
    /// as missing is not taken into account.
    pub canonical: Option<String>,
}

/// The facts recorded for `p`: the first entry that names it.
pub open spec fn facts_for(paths: Seq<PathFacts>, p: Seq<char>) -> Option<PathFacts>
    decreases paths.len(),
{
    if paths.len() == 0 {
        None
    } else if paths[0].path@ == p {
        Some(paths[0])
    } else {
        facts_for(paths.drop_first(), p)
    }
}

/// Whether `p` exists, per the facts (a path without facts does not).
pub open spec fn probed_exists(paths: Seq<PathFacts>, p: Seq<char>) -> bool {
    match facts_for(paths, p) {
        Some(f) => f.exists,
        None => false,
    }
}

/// The canonical form of `p`, per the facts: none for a path without facts
/// or one that does not exist, as `fs::canonicalize` fails there.
pub open spec fn probed_canonical(paths: Seq<PathFacts>, p: Seq<char>) -> Option<Seq<char>> {
    match facts_for(paths, p) {
        Some(f) => if f.exists {
            match f.canonical {
                Some(c) => Some(c@),
                None => None,
            }
        } else {
            None
        },
        None => None,
    }
}

/// A path with a canonical form exists.
pub proof fn lemma_canonical_implies_exists(paths: Seq<PathFacts>, p: Seq<char>)
    ensures
        probed_canonical(paths, p) is Some ==> probed_exists(paths, p),
{
}

/// The facts recorded for `p`.
pub fn lookup_facts<'a>(paths: &'a Vec<PathFacts>, p: &str) -> (r: Option<&'a PathFacts>)
    ensures
        match r {
            Some(f) => facts_for(paths@, p@) == Some(*f),
            None => facts_for(paths@, p@) is None,
        },
{
    let mut i: usize = 0;
    assert(paths@.subrange(0, paths@.len() as int) =~= paths@);
    while i < paths.len()
        invariant
            i <= paths@.len(),
            facts_for(paths@, p@) == facts_for(paths@.subrange(i as int, paths@.len() as int), p@),
        decreases paths@.len() - i,
    {
        proof {
            assert(paths@.subrange(i as int, paths@.len() as int).drop_first() =~= paths@.subrange(i + 1, paths@.len() as int));
        }
        if str_eq(paths[i].path.as_str(), p) {
            return Some(&paths[i]);
        }
        i = i + 1;
    }
    None
}

/// Whether `p` exists, per the facts.
pub fn exists_in(paths: &Vec<PathFacts>, p: &str) -> (b: bool)
    ensures
        b == probed_exists(paths@, p@),
{
    match lookup_facts(paths, p) {
        Some(f) => f.exists,
        None => false,
    }
}

/// The canonical form of `p`, per the facts.
pub fn canonical_in(paths: &Vec<PathFacts>, p: &str) -> (r: Option<String>)
    ensures
        match r {
            Some(c) => probed_canonical(paths@, p@) == Some(c@),
            None => probed_canonical(paths@, p@) is None,
        },
{
    match lookup_facts(paths, p) {
        Some(f) => {
            if !f.exists {
                return None;
            }
            match &f.canonical {
                Some(c) => Some(c.clone()),
                None => None,
            }
        },
        None => None,
    }
}

} // verus!
