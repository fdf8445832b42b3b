//! Runtime context of one logical source-set.

use vstd::prelude::*;
use crate::path::{join, join_seq};

verus! {

/// Runtime context for one logical source-set.
#[derive(Debug, Clone, PartialEq, Eq)]
pub struct SourceSetContext {
    /// Logical name (matches the configured source-set name).
    pub name: String,
    /// Absolute root directory of the sources.
    pub path: String,
    /// Names the hash-storage file (`workPath/hash-storages/<key>.redb`).
    pub storage_key: String,
}

/// Where the hash storage of a context with `key` lives below `work_path`.
pub open spec fn storage_path_of(work_path: Seq<char>, key: Seq<char>) -> Seq<char> {
    join_seq(join_seq(work_path, "hash-storages"@), key + ".redb"@)
}

impl SourceSetContext {
    pub fn new(name: &str, path: String, storage_key: String) -> (c: Self)
        ensures
            c.name@ == name@,
            c.path == path,
            c.storage_key == storage_key,
    {
        SourceSetContext { name: String::from_str(name), path, storage_key }
    }

    /// The hash-storage file of this context.
    pub fn storage_path(&self, work_path: &str) -> (r: String)
        ensures
            r@ == storage_path_of(work_path@, self.storage_key@),
    {
        let dir = join(work_path, "hash-storages");
        let file = self.storage_key.clone().concat(".redb");
        join(dir.as_str(), file.as_str())
    }
}

} // verus!
