//! The hash storage of one source-set: per-file modification times and
//! content hashes, a scan watermark and an optimistic-lock generation.
//!
//! The storage lives in three key-value tables of an embedded database
//! (`files_mtime`, `files_hash` and `meta`). The caller reads and writes the
//! tables; this module decides what a read yields and what a commit writes.

use vstd::prelude::*;
use crate::text::decimal;
use crate::text::u64_to_decimal;
use crate::path::{with_extension, with_extension_seq, file_name_seq, lemma_with_extension_moves};

verus! {

/// Name of the table of per-file modification times.
pub const FILES_MTIME: &'static str = "files_mtime";
/// Name of the table of per-file content hashes.
pub const FILES_HASH: &'static str = "files_hash";
/// Name of the metadata table.
pub const META: &'static str = "meta";
/// Metadata key of the latest scan watermark.
pub const META_KEY_WATERMARK: &'static str = "watermark";
/// Metadata key of the optimistic-lock generation.
pub const META_KEY_GENERATION: &'static str = "generation";

/// Stored state of one file.
#[derive(Debug, Clone, PartialEq, Eq)]
pub struct StoredFileState {
    pub mtime_ns: u64,
    pub hash: String,
}

/// A snapshot of the storage: one entry per file, keyed by relative path, in
/// the order the modification-time table lists them.
#[derive(Debug, Clone, PartialEq, Eq)]
pub struct StorageSnapshot {
    pub entries: Vec<(String, StoredFileState)>,
    pub watermark: Option<u64>,
    pub generation: u64,
}

/// Failures of the storage, split into those the caller may recover from by
/// rebuilding the storage and those it may not.
#[derive(Debug, Clone, PartialEq, Eq)]
pub enum StorageError {
    Recoverable { path: String, reason: String },
    Hard { path: String, reason: String },
    ConcurrentStateModified { path: String, expected: u64, actual: u64 },
}

/// The displayed text of a storage error.
pub open spec fn storage_error_text(e: StorageError) -> Seq<char> {
    match e {
        StorageError::Recoverable { path, reason } => "recoverable storage problem for '"@ + path@ + "': "@ + reason@,
        StorageError::Hard { path, reason } => "hard storage problem for '"@ + path@ + "': "@ + reason@,
        StorageError::ConcurrentStateModified { path, expected, actual } =>
            "storage state changed concurrently for '"@ + path@ + "': expected generation "@ + decimal(expected as nat)
                + ", found "@ + decimal(actual as nat),
    }
}

impl StorageError {
    /// Whether the caller may ignore the storage state and rebuild it from disk.
    pub fn is_recoverable(&self) -> (b: bool)
        ensures
            b <==> self is Recoverable,
    {
        match self {
            StorageError::Recoverable { .. } => true,
            _ => false,
        }
    }

    /// Returns the displayed text of the error.
    pub fn message(&self) -> (s: String)
        ensures
            s@ == storage_error_text(*self),
    {
        match self {
            StorageError::Recoverable { path, reason } => String::from_str("recoverable storage problem for '")
                .concat(path.as_str()).concat("': ").concat(reason.as_str()),
            StorageError::Hard { path, reason } => String::from_str("hard storage problem for '")
                .concat(path.as_str()).concat("': ").concat(reason.as_str()),
            StorageError::ConcurrentStateModified { path, expected, actual } => String::from_str("storage state changed concurrently for '")
                .concat(path.as_str()).concat("': expected generation ").concat(u64_to_decimal(*expected).as_str())
                .concat(", found ").concat(u64_to_decimal(*actual).as_str()),
        }
    }
}

/// What the metadata table holds.
#[derive(Debug, Clone, PartialEq, Eq)]
pub struct StoredMeta {
    pub watermark: Option<u64>,
    pub generation: Option<u64>,
}

/// The tables as read from a storage file; a table that does not exist is
/// absent. Rows come in the order the table lists them.
#[derive(Debug, Clone, PartialEq, Eq)]
pub struct StoredTables {
    pub mtime: Option<Vec<(String, u64)>>,
    pub hash: Option<Vec<(String, String)>>,
    pub meta: Option<StoredMeta>,
}

/// Rows of the modification-time table, by their characters.
pub open spec fn mtime_rows(v: Seq<(String, u64)>) -> Seq<(Seq<char>, u64)> {
    v.map_values(|r: (String, u64)| (r.0@, r.1))
}

/// Rows of the hash table, by their characters.
pub open spec fn hash_rows(v: Seq<(String, String)>) -> Seq<(Seq<char>, Seq<char>)> {
    v.map_values(|r: (String, String)| (r.0@, r.1@))
}

/// Entries of a snapshot, by their characters: path, modification time, hash.
pub open spec fn entry_rows(v: Seq<(String, StoredFileState)>) -> Seq<(Seq<char>, u64, Seq<char>)> {
    v.map_values(|e: (String, StoredFileState)| (e.0@, e.1.mtime_ns, e.1.hash@))
}

/// The position of the first hash row of `key` at or after `from`.
pub open spec fn hash_index(h: Seq<(Seq<char>, Seq<char>)>, key: Seq<char>, from: int) -> Option<int>
    decreases h.len() - from,
{
    if from < 0 || from >= h.len() {
        None
    } else if h[from].0 == key {
        Some(from)
    } else {
        hash_index(h, key, from + 1)
    }
}

/// The hash stored for `key`, if the hash table has a row for it.
pub open spec fn hash_of(h: Seq<(Seq<char>, Seq<char>)>, key: Seq<char>) -> Option<Seq<char>> {
    match hash_index(h, key, 0) {
        Some(j) => Some(h[j].1),
        None => None,
    }
}

/// Whether the modification-time table has a row for `key`.
pub open spec fn has_mtime(m: Seq<(Seq<char>, u64)>, key: Seq<char>) -> bool {
    exists|i: int| 0 <= i < m.len() && (#[trigger] m[i]).0 == key
}

/// The first modification-time row, at or after `from`, without a hash row.
pub open spec fn first_without_hash(m: Seq<(Seq<char>, u64)>, h: Seq<(Seq<char>, Seq<char>)>, from: int) -> Option<int>
    decreases m.len() - from,
{
    if from < 0 || from >= m.len() {
        None
    } else if hash_of(h, m[from].0) is None {
        Some(from)
    } else {
        first_without_hash(m, h, from + 1)
    }
}

/// The first hash row, at or after `from`, without a modification-time row.
pub open spec fn first_without_mtime(m: Seq<(Seq<char>, u64)>, h: Seq<(Seq<char>, Seq<char>)>, from: int) -> Option<int>
    decreases h.len() - from,
{
    if from < 0 || from >= h.len() {
        None
    } else if !has_mtime(m, h[from].0) {
        Some(from)
    } else {
        first_without_mtime(m, h, from + 1)
    }
}

/// The entries read from consistent tables: each modification-time row with
/// the hash of its key.
pub open spec fn joined_entries(m: Seq<(Seq<char>, u64)>, h: Seq<(Seq<char>, Seq<char>)>) -> Seq<(Seq<char>, u64, Seq<char>)> {
    m.map_values(|r: (Seq<char>, u64)| (r.0, r.1, hash_of(h, r.0)->0))
}

/// A read snapshot, by its characters.
pub struct SnapshotView {
    pub entries: Seq<(Seq<char>, u64, Seq<char>)>,
    pub watermark: Option<u64>,
    pub generation: u64,
}

/// A snapshot by its characters.
pub open spec fn snapshot_view(s: StorageSnapshot) -> SnapshotView {
    SnapshotView { entries: entry_rows(s.entries@), watermark: s.watermark, generation: s.generation }
}

/// The watermark recorded in the metadata, if any.
pub open spec fn meta_watermark(meta: Option<StoredMeta>) -> Option<u64> {
    match meta {
        Some(m) => m.watermark,
        None => None,
    }
}

/// The generation recorded in the metadata; zero when none is.
pub open spec fn meta_generation(meta: Option<StoredMeta>) -> u64 {
    match meta {
        Some(m) => match m.generation {
            Some(g) => g,
            None => 0,
        },
        None => 0,
    }
}

/// A recoverable error of the storage at `path`.
pub open spec fn recoverable(path: Seq<char>, reason: Seq<char>) -> Result<SnapshotView, (Seq<char>, Seq<char>)> {
    Err((path, reason))
}

/// What reading the storage at `path` yields, from the tables it holds
/// (`None` when the storage file does not exist). An error is recoverable,
/// given by the storage path and its reason.
pub open spec fn load_result(path: Seq<char>, stored: Option<StoredTables>) -> Result<SnapshotView, (Seq<char>, Seq<char>)> {
    match stored {
        None => Ok(SnapshotView { entries: Seq::empty(), watermark: None, generation: 0 }),
        Some(t) => match (t.mtime, t.hash) {
            (None, None) => Ok(SnapshotView { entries: Seq::empty(), watermark: meta_watermark(t.meta), generation: meta_generation(t.meta) }),
            (Some(m), Some(h)) => {
                let m = mtime_rows(m@);
                let h = hash_rows(h@);
                match first_without_hash(m, h, 0) {
                    Some(i) => recoverable(path, "missing hash for key '"@ + m[i].0 + "'"@),
                    None => match first_without_mtime(m, h, 0) {
                        Some(j) => recoverable(path, "missing mtime for key '"@ + h[j].0 + "'"@),
                        None => Ok(SnapshotView {
                            entries: joined_entries(m, h),
                            watermark: meta_watermark(t.meta),
                            generation: meta_generation(t.meta),
                        }),
                    },
                }
            },
            _ => recoverable(path, "mtime/hash tables are inconsistent"@),
        },
    }
}

/// A read result by its characters: the snapshot, or the recoverable error's
/// path and reason (reading never yields another error).
pub open spec fn loaded_view(r: Result<StorageSnapshot, StorageError>) -> Result<SnapshotView, (Seq<char>, Seq<char>)> {
    match r {
        Ok(s) => Ok(snapshot_view(s)),
        Err(StorageError::Recoverable { path, reason }) => Err((path@, reason@)),
        Err(_) => Err((Seq::empty(), Seq::empty())),
    }
}

/// The hash storage of one source-set, at a file path.
#[derive(Debug, Clone, PartialEq, Eq)]
pub struct HashStorage {
    path: String,
}

impl HashStorage {
    /// The storage file path.
    pub closed spec fn spec_path(&self) -> Seq<char> {
        self.path@
    }

    /// Creates a storage handle for the given file path.
    pub fn new(path: String) -> (s: Self)
        ensures
            s.spec_path() == path@,
    {
        HashStorage { path }
    }

    /// Returns the storage file path.
    pub fn path(&self) -> (p: &str)
        ensures
            p@ == self.spec_path(),
    {
        self.path.as_str()
    }

    fn recoverable_error(&self, reason: String) -> (e: StorageError)
        ensures
            e == (StorageError::Recoverable { path: self.path, reason }),
    {
        StorageError::Recoverable { path: self.path.clone(), reason }
    }

    /// Reads a snapshot from the tables of the storage file (`None` when the
    /// file does not exist: the empty snapshot). Both file tables must be
    /// present or both absent, every file must have both a modification time
    /// and a hash; otherwise the storage is recoverably broken.
    pub fn load_snapshot(&self, stored: Option<StoredTables>) -> (r: Result<StorageSnapshot, StorageError>)
        ensures
            loaded_view(r) == load_result(self.spec_path(), stored),
            r matches Err(e) ==> e is Recoverable,
    {
        let t = match stored {
            None => {
                let empty = StorageSnapshot { entries: Vec::new(), watermark: None, generation: 0 };
                proof { assert(entry_rows(empty.entries@) =~= Seq::empty()); }
                return Ok(empty);
            },
            Some(t) => t,
        };
        let ghost tg = t;
        let watermark = match &t.meta {
            Some(m) => m.watermark,
            None => None,
        };
        let generation = match &t.meta {
            Some(m) => match m.generation {
                Some(g) => g,
                None => 0,
            },
            None => 0,
        };
        let (mtime, hash) = match (t.mtime, t.hash) {
            (None, None) => {
                let empty = StorageSnapshot { entries: Vec::new(), watermark, generation };
                proof { assert(entry_rows(empty.entries@) =~= Seq::empty()); }
                return Ok(empty);
            },
            (Some(m), Some(h)) => (m, h),
            _ => {
                return Err(self.recoverable_error(String::from_str("mtime/hash tables are inconsistent")));
            },
        };
        let ghost m = mtime_rows(mtime@);
        let ghost h = hash_rows(hash@);
        assert(tg.mtime == Some(mtime) && tg.hash == Some(hash));
        let mut entries: Vec<(String, StoredFileState)> = Vec::new();
        let mut i: usize = 0;
        while i < mtime.len()
            invariant
                stored == Some(tg),
                tg.mtime == Some(mtime),
                tg.hash == Some(hash),
                watermark == meta_watermark(tg.meta),
                generation == meta_generation(tg.meta),
                m == mtime_rows(mtime@),
                h == hash_rows(hash@),
                i <= mtime.len(),
                first_without_hash(m, h, 0) == first_without_hash(m, h, i as int),
                entry_rows(entries@) == joined_entries(m, h).take(i as int),
            decreases mtime.len() - i,
        {
            let key = &mtime[i].0;
            match find_hash(&hash, key) {
                None => {
                    proof { lemma_first_without_hash_here(m, h, i as int); }
                    return Err(self.recoverable_error(String::from_str("missing hash for key '").concat(key.as_str()).concat("'")));
                },
                Some(j) => {
                    let h_j = hash[j].1.clone();
                    let k = key.clone();
                    assert(h_j@ == h[j as int].1);
                    assert(k@ == m[i as int].0);
                    let state = StoredFileState { mtime_ns: mtime[i].1, hash: h_j };
                    let ghost before = entries@;
                    entries.push((k, state));
                    proof {
                        assert(entry_rows(entries@) =~= entry_rows(before).push((m[i as int].0, m[i as int].1, h[j as int].1)));
                        lemma_first_without_hash_step(m, h, i as int);
                        assert(entry_rows(entries@) =~= joined_entries(m, h).take(i as int + 1));
                    }
                },
            }
            i = i + 1;
        }
        proof {
            lemma_first_without_hash_end(m, h, i as int);
            assert(joined_entries(m, h).take(m.len() as int) =~= joined_entries(m, h));
        }
        let mut j: usize = 0;
        while j < hash.len()
            invariant
                stored == Some(tg),
                tg.mtime == Some(mtime),
                tg.hash == Some(hash),
                watermark == meta_watermark(tg.meta),
                generation == meta_generation(tg.meta),
                first_without_hash(m, h, 0) is None,
                entry_rows(entries@) == joined_entries(m, h),
                m == mtime_rows(mtime@),
                h == hash_rows(hash@),
                j <= hash.len(),
                first_without_mtime(m, h, 0) == first_without_mtime(m, h, j as int),
            decreases hash.len() - j,
        {
            let key = &hash[j].0;
            if !has_mtime_row(&mtime, key) {
                proof { lemma_first_without_mtime_here(m, h, j as int); }
                return Err(self.recoverable_error(String::from_str("missing mtime for key '").concat(key.as_str()).concat("'")));
            }
            proof { lemma_first_without_mtime_step(m, h, j as int); }
            j = j + 1;
        }
        proof { lemma_first_without_mtime_end(m, h, j as int); }
        Ok(StorageSnapshot { entries, watermark, generation })
    }
}

/// Finds the first hash row of a key.
fn find_hash(hash: &Vec<(String, String)>, key: &String) -> (r: Option<usize>)
    ensures
        match r {
            Some(j) => hash_index(hash_rows(hash@), key@, 0) == Some(j as int) && j < hash.len(),
            None => hash_index(hash_rows(hash@), key@, 0) is None,
        },
{
    let ghost h = hash_rows(hash@);
    let mut j: usize = 0;
    while j < hash.len()
        invariant
            h == hash_rows(hash@),
            j <= hash.len(),
            hash_index(h, key@, 0) == hash_index(h, key@, j as int),
        decreases hash.len() - j,
    {
        if crate::text::str_eq(hash[j].0.as_str(), key.as_str()) {
            return Some(j);
        }
        proof { lemma_hash_index_step(h, key@, j as int); }
        j = j + 1;
    }
    None
}

/// Whether the modification-time table has a row of a key.
fn has_mtime_row(mtime: &Vec<(String, u64)>, key: &String) -> (b: bool)
    ensures
        b == has_mtime(mtime_rows(mtime@), key@),
{
    let ghost m = mtime_rows(mtime@);
    let mut i: usize = 0;
    while i < mtime.len()
        invariant
            m == mtime_rows(mtime@),
            i <= mtime.len(),
            forall|k: int| 0 <= k < i ==> (#[trigger] m[k]).0 != key@,
        decreases mtime.len() - i,
    {
        if crate::text::str_eq(mtime[i].0.as_str(), key.as_str()) {
            proof { assert(m[i as int].0 == key@); }
            return true;
        }
        i = i + 1;
    }
    false
}

proof fn lemma_hash_index_step(h: Seq<(Seq<char>, Seq<char>)>, key: Seq<char>, j: int)
    requires
        0 <= j < h.len(),
        h[j].0 != key,
    ensures
        hash_index(h, key, j) == hash_index(h, key, j + 1),
{
}

proof fn lemma_first_without_hash_here(m: Seq<(Seq<char>, u64)>, h: Seq<(Seq<char>, Seq<char>)>, i: int)
    requires
        0 <= i < m.len(),
        hash_of(h, m[i].0) is None,
    ensures
        first_without_hash(m, h, i) == Some(i),
{
}

proof fn lemma_first_without_hash_step(m: Seq<(Seq<char>, u64)>, h: Seq<(Seq<char>, Seq<char>)>, i: int)
    requires
        0 <= i < m.len(),
        hash_of(h, m[i].0) is Some,
    ensures
        first_without_hash(m, h, i) == first_without_hash(m, h, i + 1),
{
}

proof fn lemma_first_without_hash_end(m: Seq<(Seq<char>, u64)>, h: Seq<(Seq<char>, Seq<char>)>, i: int)
    requires
        i == m.len(),
    ensures
        first_without_hash(m, h, i) is None,
{
}

proof fn lemma_first_without_mtime_here(m: Seq<(Seq<char>, u64)>, h: Seq<(Seq<char>, Seq<char>)>, j: int)
    requires
        0 <= j < h.len(),
        !has_mtime(m, h[j].0),
    ensures
        first_without_mtime(m, h, j) == Some(j),
{
}

proof fn lemma_first_without_mtime_step(m: Seq<(Seq<char>, u64)>, h: Seq<(Seq<char>, Seq<char>)>, j: int)
    requires
        0 <= j < h.len(),
        has_mtime(m, h[j].0),
    ensures
        first_without_mtime(m, h, j) == first_without_mtime(m, h, j + 1),
{
}

proof fn lemma_first_without_mtime_end(m: Seq<(Seq<char>, u64)>, h: Seq<(Seq<char>, Seq<char>)>, j: int)
    requires
        j == h.len(),
    ensures
        first_without_mtime(m, h, j) is None,
{
}

/// A commit of a snapshot: the file keys to remove from both file tables,
/// and the metadata to write. Every snapshot entry is then written to both
/// file tables.
#[derive(Debug, Clone, PartialEq, Eq)]
pub struct CommitPlan {
    pub stale_keys: Vec<String>,
    pub watermark: u64,
    pub generation: u64,
}

/// The keys of a snapshot's entries, by their characters.
pub open spec fn snapshot_keys(s: Seq<(String, StoredFileState)>) -> Seq<Seq<char>> {
    s.map_values(|e: (String, StoredFileState)| e.0@)
}

/// The strings of a list, by their characters.
pub open spec fn key_views(v: Seq<String>) -> Seq<Seq<char>> {
    v.map_values(|k: String| k@)
}

/// The stored keys that the snapshot no longer holds, in stored order.
pub open spec fn stale_keys_of(existing: Seq<Seq<char>>, keys: Seq<Seq<char>>) -> Seq<Seq<char>> {
    existing.filter(|k: Seq<char>| !keys.contains(k))
}

fn contains_key(keys: &Vec<(String, StoredFileState)>, key: &String) -> (b: bool)
    ensures
        b == snapshot_keys(keys@).contains(key@),
{
    let ghost ks = snapshot_keys(keys@);
    let mut i: usize = 0;
    while i < keys.len()
        invariant
            ks == snapshot_keys(keys@),
            i <= keys.len(),
            forall|k: int| 0 <= k < i ==> ks[k] != key@,
        decreases keys.len() - i,
    {
        if crate::text::str_eq(keys[i].0.as_str(), key.as_str()) {
            proof { assert(ks[i as int] == key@); }
            return true;
        }
        i = i + 1;
    }
    false
}

impl HashStorage {
    /// Plans the commit of a snapshot, provided the storage is still at the
    /// generation the caller read (`stored_generation` is the generation the
    /// metadata holds, none meaning zero). The keys stored but missing from
    /// the snapshot go, and the generation advances by one.
    pub fn plan_commit(
        &self,
        stored_generation: Option<u64>,
        expected_generation: u64,
        existing_keys: &Vec<String>,
        snapshot: &Vec<(String, StoredFileState)>,
        watermark: u64,
    ) -> (r: Result<CommitPlan, StorageError>)
        requires
            stored_generation.unwrap_or(0) == expected_generation ==> expected_generation < u64::MAX,
        ensures
            stored_generation.unwrap_or(0) != expected_generation <==> r is Err,
            r matches Err(e) ==> (e matches StorageError::ConcurrentStateModified { path, expected, actual }
                && path@ == self.spec_path() && expected == expected_generation && actual == stored_generation.unwrap_or(0)),
            r matches Ok(p) ==> {
                &&& key_views(p.stale_keys@) == stale_keys_of(key_views(existing_keys@), snapshot_keys(snapshot@))
                &&& p.watermark == watermark
                &&& p.generation == expected_generation + 1
            },
    {
        let current = match stored_generation {
            Some(g) => g,
            None => 0,
        };
        if current != expected_generation {
            return Err(StorageError::ConcurrentStateModified {
                path: self.path.clone(),
                expected: expected_generation,
                actual: current,
            });
        }
        let ghost existing = key_views(existing_keys@);
        let ghost keys = snapshot_keys(snapshot@);
        let mut stale: Vec<String> = Vec::new();
        let mut i: usize = 0;
        while i < existing_keys.len()
            invariant
                existing == key_views(existing_keys@),
                keys == snapshot_keys(snapshot@),
                i <= existing_keys.len(),
                key_views(stale@) == stale_keys_of(existing.take(i as int), keys),
            decreases existing_keys.len() - i,
        {
            let k = &existing_keys[i];
            proof {
                assert(existing.take(i as int + 1) =~= existing.take(i as int).push(existing[i as int]));
                existing.take(i as int).lemma_filter_push(existing[i as int], |x: Seq<char>| !keys.contains(x));
            }
            if !contains_key(snapshot, k) {
                let ghost before = stale@;
                stale.push(k.clone());
                proof { assert(key_views(stale@) =~= key_views(before).push(existing[i as int])); }
            }
            i = i + 1;
        }
        proof { assert(existing.take(existing.len() as int) =~= existing); }
        Ok(CommitPlan { stale_keys: stale, watermark, generation: expected_generation + 1 })
    }
}

impl HashStorage {
    /// The generation a read of the storage yields.
    pub fn current_generation(&self, stored: Option<StoredTables>) -> (r: Result<u64, StorageError>)
        ensures
            match load_result(self.spec_path(), stored) {
                Ok(v) => r == Ok::<u64, StorageError>(v.generation),
                Err((path, reason)) => r matches Err(StorageError::Recoverable { path: p, reason: q }) && p@ == path && q@ == reason,
            },
    {
        match self.load_snapshot(stored) {
            Ok(snapshot) => Ok(snapshot.generation),
            Err(e) => Err(e),
        }
    }

    /// Where a corrupt storage file is moved before it is rebuilt: its
    /// extension replaced by `corrupt.<timestamp>.redb`.
    pub fn backup_path(&self, timestamp_secs: u64) -> (r: String)
        ensures
            r@ == backup_path_of(self.spec_path(), timestamp_secs),
    {
        let ext = String::from_str("corrupt.").concat(u64_to_decimal(timestamp_secs).as_str()).concat(".redb");
        with_extension(self.path.as_str(), ext.as_str())
    }

    /// Where recovery moves the storage file before rebuilding it: nowhere
    /// when no file exists, else its backup path for the given time.
    pub fn recovery_backup(&self, file_exists: bool, timestamp_secs: u64) -> (r: Option<String>)
        ensures
            file_exists <==> r is Some,
            r matches Some(b) ==> b@ == backup_path_of(self.spec_path(), timestamp_secs),
    {
        if file_exists {
            Some(self.backup_path(timestamp_secs))
        } else {
            None
        }
    }

    /// The error of a recovery whose move of the old file failed.
    pub fn rename_failure(&self, backup: &str, cause: &str) -> (e: StorageError)
        ensures
            e matches StorageError::Hard { path, reason } && path@ == self.spec_path()
                && reason@ == "failed to rename corrupt db to '"@ + backup@ + "': "@ + cause@,
    {
        StorageError::Hard {
            path: self.path.clone(),
            reason: String::from_str("failed to rename corrupt db to '").concat(backup).concat("': ").concat(cause),
        }
    }
}

/// The backup path of the storage file at `path` for a timestamp.
pub open spec fn backup_path_of(path: Seq<char>, timestamp_secs: u64) -> Seq<char> {
    with_extension_seq(path, "corrupt."@ + decimal(timestamp_secs as nat) + ".redb"@)
}

/// No two rows share a key.
pub open spec fn distinct_keys<V>(rows: Seq<(Seq<char>, V)>) -> bool {
    forall|i: int, j: int| 0 <= i < j < rows.len() ==> (#[trigger] rows[i]).0 != (#[trigger] rows[j]).0
}

/// The rows list exactly the contents of a table: each key once, with its value.
pub open spec fn lists<V>(rows: Seq<(Seq<char>, V)>, t: Map<Seq<char>, V>) -> bool {
    &&& distinct_keys(rows)
    &&& forall|i: int| 0 <= i < rows.len() ==> t.contains_key((#[trigger] rows[i]).0) && t[rows[i].0] == rows[i].1
    &&& forall|k: Seq<char>| #[trigger] t.contains_key(k) ==> exists|i: int| 0 <= i < rows.len() && (#[trigger] rows[i]).0 == k
}

/// A table with keys removed, one after another.
pub open spec fn remove_keys<V>(t: Map<Seq<char>, V>, keys: Seq<Seq<char>>) -> Map<Seq<char>, V>
    decreases keys.len(),
{
    if keys.len() == 0 {
        t
    } else {
        remove_keys(t, keys.drop_last()).remove(keys.last())
    }
}

/// A table with rows written, one after another.
pub open spec fn write_rows<V>(t: Map<Seq<char>, V>, rows: Seq<(Seq<char>, V)>) -> Map<Seq<char>, V>
    decreases rows.len(),
{
    if rows.len() == 0 {
        t
    } else {
        write_rows(t, rows.drop_last()).insert(rows.last().0, rows.last().1)
    }
}

/// A table after a commit: the stale keys removed, then the rows written.
pub open spec fn after_commit<V>(t: Map<Seq<char>, V>, stale: Seq<Seq<char>>, rows: Seq<(Seq<char>, V)>) -> Map<Seq<char>, V> {
    write_rows(remove_keys(t, stale), rows)
}

/// The modification-time rows of a snapshot.
pub open spec fn snapshot_mtimes(s: Seq<(String, StoredFileState)>) -> Seq<(Seq<char>, u64)> {
    s.map_values(|e: (String, StoredFileState)| (e.0@, e.1.mtime_ns))
}

/// The hash rows of a snapshot.
pub open spec fn snapshot_hashes(s: Seq<(String, StoredFileState)>) -> Seq<(Seq<char>, Seq<char>)> {
    s.map_values(|e: (String, StoredFileState)| (e.0@, e.1.hash@))
}

/// Two lists hold the same entries, whatever their order.
pub open spec fn same_entries(a: Seq<(Seq<char>, u64, Seq<char>)>, b: Seq<(Seq<char>, u64, Seq<char>)>) -> bool {
    forall|e: (Seq<char>, u64, Seq<char>)| a.contains(e) <==> b.contains(e)
}

proof fn lemma_remove_keys<V>(t: Map<Seq<char>, V>, keys: Seq<Seq<char>>)
    ensures
        forall|k: Seq<char>| #[trigger] remove_keys(t, keys).contains_key(k) <==> t.contains_key(k) && !keys.contains(k),
        forall|k: Seq<char>| #[trigger] remove_keys(t, keys).contains_key(k) ==> remove_keys(t, keys)[k] == t[k],
    decreases keys.len(),
{
    if keys.len() == 0 {
        assert(remove_keys(t, keys) == t);
        assert forall|k: Seq<char>| !keys.contains(k) by {}
    } else {
        let init = keys.drop_last();
        let last = keys.last();
        lemma_remove_keys(t, init);
        let prev = remove_keys(t, init);
        assert(remove_keys(t, keys) == prev.remove(last));
        assert forall|k: Seq<char>| keys.contains(k) <==> init.contains(k) || k == last by {
            if keys.contains(k) {
                let i = choose|i: int| 0 <= i < keys.len() && keys[i] == k;
                if i < keys.len() - 1 {
                    assert(init[i] == k);
                }
            }
            if init.contains(k) {
                let i = choose|i: int| 0 <= i < init.len() && init[i] == k;
                assert(keys[i] == k);
            }
            if k == last {
                assert(keys[keys.len() - 1] == k);
            }
        }
        assert forall|k: Seq<char>| #[trigger] remove_keys(t, keys).contains_key(k) <==> t.contains_key(k) && !keys.contains(k) by {
            assert(prev.remove(last).contains_key(k) <==> prev.contains_key(k) && k != last);
        }
        assert forall|k: Seq<char>| #[trigger] remove_keys(t, keys).contains_key(k) implies remove_keys(t, keys)[k] == t[k] by {
            assert(prev.contains_key(k));
            assert(prev.remove(last)[k] == prev[k]);
        }
    }
}

proof fn lemma_write_rows<V>(t: Map<Seq<char>, V>, rows: Seq<(Seq<char>, V)>)
    requires
        distinct_keys(rows),
    ensures
        forall|i: int| 0 <= i < rows.len() ==> write_rows(t, rows).contains_key((#[trigger] rows[i]).0)
            && write_rows(t, rows)[rows[i].0] == rows[i].1,
        forall|k: Seq<char>| (forall|i: int| 0 <= i < rows.len() ==> (#[trigger] rows[i]).0 != k) ==>
            (#[trigger] write_rows(t, rows).contains_key(k) <==> t.contains_key(k))
            && (t.contains_key(k) ==> write_rows(t, rows)[k] == t[k]),
    decreases rows.len(),
{
    if rows.len() == 0 {
        assert(write_rows(t, rows) == t);
    } else {
        let init = rows.drop_last();
        let last = rows.last();
        assert(distinct_keys(init)) by {
            assert forall|i: int, j: int| 0 <= i < j < init.len() implies (#[trigger] init[i]).0 != (#[trigger] init[j]).0 by {
                assert(init[i] == rows[i] && init[j] == rows[j]);
            }
        }
        lemma_write_rows(t, init);
        let prev = write_rows(t, init);
        assert(write_rows(t, rows) == prev.insert(last.0, last.1));
        assert forall|i: int| 0 <= i < rows.len() implies write_rows(t, rows).contains_key((#[trigger] rows[i]).0)
            && write_rows(t, rows)[rows[i].0] == rows[i].1 by {
            if i < rows.len() - 1 {
                assert(init[i] == rows[i]);
                assert(rows[i].0 != rows[rows.len() - 1].0);
            }
        }
        assert forall|k: Seq<char>| (forall|i: int| 0 <= i < rows.len() ==> (#[trigger] rows[i]).0 != k) implies
            (#[trigger] write_rows(t, rows).contains_key(k) <==> t.contains_key(k))
            && (t.contains_key(k) ==> write_rows(t, rows)[k] == t[k]) by {
            assert(rows[rows.len() - 1].0 != k);
            assert(last.0 != k);
            assert forall|i: int| 0 <= i < init.len() implies (#[trigger] init[i]).0 != k by {
                assert(init[i] == rows[i]);
            }
            assert(prev.contains_key(k) <==> t.contains_key(k));
            assert(prev.insert(last.0, last.1).contains_key(k) <==> prev.contains_key(k));
        }
    }
}

/// After a commit whose stale keys are the listed keys missing from the
/// snapshot, a table holds exactly the snapshot's rows, provided the table's
/// keys were all among the listed ones.
proof fn lemma_after_commit<V>(t: Map<Seq<char>, V>, existing: Seq<Seq<char>>, rows: Seq<(Seq<char>, V)>, keys: Seq<Seq<char>>)
    requires
        forall|k: Seq<char>| #[trigger] t.contains_key(k) ==> existing.contains(k),
        distinct_keys(rows),
        keys == rows.map_values(|r: (Seq<char>, V)| r.0),
    ensures
        lists(rows, after_commit(t, stale_keys_of(existing, keys), rows)),
{
    let stale = stale_keys_of(existing, keys);
    let removed = remove_keys(t, stale);
    let after = write_rows(removed, rows);
    lemma_remove_keys(t, stale);
    lemma_write_rows(removed, rows);
    assert forall|k: Seq<char>| #[trigger] after.contains_key(k) implies exists|i: int| 0 <= i < rows.len() && (#[trigger] rows[i]).0 == k by {
        if forall|i: int| 0 <= i < rows.len() ==> (#[trigger] rows[i]).0 != k {
            assert(removed.contains_key(k));
            assert(t.contains_key(k) && !stale.contains(k));
            assert(existing.contains(k));
            let j = choose|j: int| 0 <= j < existing.len() && existing[j] == k;
            existing.lemma_filter_contains(|x: Seq<char>| !keys.contains(x), j);
            if !keys.contains(k) {
                existing.lemma_filter_contains_rev(|x: Seq<char>| !keys.contains(x), k);
                assert(false);
            }
            let i = choose|i: int| 0 <= i < keys.len() && keys[i] == k;
            assert(rows[i].0 == k);
            assert(false);
        }
    }
}

proof fn lemma_hash_of_listed(h: Seq<(Seq<char>, Seq<char>)>, t: Map<Seq<char>, Seq<char>>, k: Seq<char>)
    requires
        lists(h, t),
        t.contains_key(k),
    ensures
        hash_of(h, k) == Some(t[k]),
{
    let j = choose|j: int| 0 <= j < h.len() && (#[trigger] h[j]).0 == k;
    lemma_hash_index_reaches(h, k, 0, j);
}

proof fn lemma_hash_index_reaches(h: Seq<(Seq<char>, Seq<char>)>, k: Seq<char>, from: int, j: int)
    requires
        distinct_keys(h),
        0 <= from <= j < h.len(),
        h[j].0 == k,
    ensures
        hash_index(h, k, from) == Some(j),
    decreases j - from,
{
    if from < j {
        assert(h[from].0 != h[j].0);
        lemma_hash_index_reaches(h, k, from + 1, j);
    }
}

proof fn lemma_no_missing_hash(m: Seq<(Seq<char>, u64)>, h: Seq<(Seq<char>, Seq<char>)>, from: int)
    requires
        0 <= from,
        forall|i: int| from <= i < m.len() ==> (#[trigger] hash_of(h, m[i].0)) is Some,
    ensures
        first_without_hash(m, h, from) is None,
    decreases m.len() - from,
{
    if from < m.len() {
        assert(hash_of(h, m[from].0) is Some);
        lemma_no_missing_hash(m, h, from + 1);
    }
}

proof fn lemma_no_missing_mtime(m: Seq<(Seq<char>, u64)>, h: Seq<(Seq<char>, Seq<char>)>, from: int)
    requires
        0 <= from,
        forall|j: int| from <= j < h.len() ==> #[trigger] has_mtime(m, h[j].0),
    ensures
        first_without_mtime(m, h, from) is None,
    decreases h.len() - from,
{
    if from < h.len() {
        assert(has_mtime(m, h[from].0));
        lemma_no_missing_mtime(m, h, from + 1);
    }
}

/// No two entries share a key.
pub open spec fn entry_keys_distinct(e: Seq<(Seq<char>, u64, Seq<char>)>) -> bool {
    forall|i: int, j: int| 0 <= i < j < e.len() ==> (#[trigger] e[i]).0 != (#[trigger] e[j]).0
}

/// Reading a storage right after a commit gives back what the commit wrote:
/// the snapshot's entries (in whatever order the tables list them), the
/// watermark and the new generation. This holds when every key of the hash
/// table also had a modification time before the commit, and the stale keys
/// were computed from the keys the modification-time table listed.
pub proof fn lemma_commit_then_load(
    path: Seq<char>,
    mtimes_before: Map<Seq<char>, u64>,
    hashes_before: Map<Seq<char>, Seq<char>>,
    existing: Seq<Seq<char>>,
    snapshot: Seq<(String, StoredFileState)>,
    watermark: u64,
    generation: u64,
    stored: StoredTables,
)
    requires
        forall|k: Seq<char>| #[trigger] mtimes_before.contains_key(k) ==> existing.contains(k),
        forall|k: Seq<char>| #[trigger] hashes_before.contains_key(k) ==> mtimes_before.contains_key(k),
        distinct_keys(snapshot_mtimes(snapshot)),
        stored.mtime matches Some(m) && lists(mtime_rows(m@), after_commit(mtimes_before,
            stale_keys_of(existing, snapshot_keys(snapshot)), snapshot_mtimes(snapshot))),
        stored.hash matches Some(h) && lists(hash_rows(h@), after_commit(hashes_before,
            stale_keys_of(existing, snapshot_keys(snapshot)), snapshot_hashes(snapshot))),
        stored.meta == Some(StoredMeta { watermark: Some(watermark), generation: Some(generation) }),
    ensures
        load_result(path, Some(stored)) matches Ok(v) && {
            &&& same_entries(v.entries, entry_rows(snapshot))
            &&& entry_keys_distinct(v.entries)
            &&& v.watermark == Some(watermark)
            &&& v.generation == generation
        },
{
    let keys = snapshot_keys(snapshot);
    let stale = stale_keys_of(existing, keys);
    let sm = snapshot_mtimes(snapshot);
    let sh = snapshot_hashes(snapshot);
    let m = mtime_rows(stored.mtime->0@);
    let h = hash_rows(stored.hash->0@);
    let tm = after_commit(mtimes_before, stale, sm);
    let th = after_commit(hashes_before, stale, sh);
    assert(keys =~= sm.map_values(|r: (Seq<char>, u64)| r.0));
    assert(keys =~= sh.map_values(|r: (Seq<char>, Seq<char>)| r.0));
    assert(distinct_keys(sh)) by {
        assert forall|i: int, j: int| 0 <= i < j < sh.len() implies (#[trigger] sh[i]).0 != (#[trigger] sh[j]).0 by {
            assert(sm[i].0 == sh[i].0 && sm[j].0 == sh[j].0);
        }
    }
    lemma_after_commit(mtimes_before, existing, sm, keys);
    assert forall|k: Seq<char>| #[trigger] hashes_before.contains_key(k) implies existing.contains(k) by {
        assert(mtimes_before.contains_key(k));
    }
    lemma_after_commit(hashes_before, existing, sh, keys);
    // Both tables now hold exactly the snapshot's keys.
    assert forall|k: Seq<char>| tm.contains_key(k) <==> th.contains_key(k) by {
        if tm.contains_key(k) {
            let i = choose|i: int| 0 <= i < sm.len() && (#[trigger] sm[i]).0 == k;
            assert(sh[i].0 == k);
        }
        if th.contains_key(k) {
            let i = choose|i: int| 0 <= i < sh.len() && (#[trigger] sh[i]).0 == k;
            assert(sm[i].0 == k);
        }
    }
    assert forall|i: int| 0 <= i < m.len() implies (#[trigger] hash_of(h, m[i].0)) == Some(th[m[i].0]) by {
        assert(tm.contains_key(m[i].0));
        lemma_hash_of_listed(h, th, m[i].0);
    }
    lemma_no_missing_hash(m, h, 0);
    assert forall|j: int| 0 <= j < h.len() implies #[trigger] has_mtime(m, h[j].0) by {
        assert(th.contains_key(h[j].0));
        assert(tm.contains_key(h[j].0));
        let i = choose|i: int| 0 <= i < m.len() && (#[trigger] m[i]).0 == h[j].0;
        assert(m[i].0 == h[j].0);
    }
    lemma_no_missing_mtime(m, h, 0);
    let entries = joined_entries(m, h);
    let expected = entry_rows(snapshot);
    assert forall|e: (Seq<char>, u64, Seq<char>)| entries.contains(e) <==> expected.contains(e) by {
        if entries.contains(e) {
            let i = choose|i: int| 0 <= i < entries.len() && entries[i] == e;
            let k = m[i].0;
            assert(tm.contains_key(k));
            let j = choose|j: int| 0 <= j < sm.len() && (#[trigger] sm[j]).0 == k;
            assert(tm[k] == sm[j].1);
            assert(th[sh[j].0] == sh[j].1);
            assert(sh[j].0 == k);
            assert(hash_of(h, m[i].0) == Some(th[k]));
            assert(expected[j] == e);
        }
        if expected.contains(e) {
            let j = choose|j: int| 0 <= j < expected.len() && expected[j] == e;
            let k = sm[j].0;
            assert(tm.contains_key(k) && tm[k] == sm[j].1);
            assert(th[sh[j].0] == sh[j].1);
            let i = choose|i: int| 0 <= i < m.len() && (#[trigger] m[i]).0 == k;
            assert(m[i].1 == tm[k]);
            assert(hash_of(h, m[i].0) == Some(th[k]));
            assert(entries[i] == e);
        }
    }
    assert forall|i: int, j: int| 0 <= i < j < entries.len() implies (#[trigger] entries[i]).0 != (#[trigger] entries[j]).0 by {
        assert(m[i].0 != m[j].0);
    }
}


/// Recovering a storage and then reading it gives back the new snapshot at
/// generation one. The old file, if any, is moved to its backup path, which
/// is another path whenever the storage path names a file, so nothing is
/// overwritten or deleted. With the file moved aside the storage reads as
/// empty at generation zero, so the commit that expects generation zero is
/// not refused and has no stale keys; reading the tables it writes yields
/// the snapshot's entries, the watermark and generation one.
pub proof fn lemma_recover_then_load(
    path: Seq<char>,
    timestamp_secs: u64,
    snapshot: Seq<(String, StoredFileState)>,
    watermark: u64,
    stored: StoredTables,
)
    requires
        distinct_keys(snapshot_mtimes(snapshot)),
        stored.mtime matches Some(m) && lists(mtime_rows(m@), after_commit(Map::empty(),
            stale_keys_of(Seq::empty(), snapshot_keys(snapshot)), snapshot_mtimes(snapshot))),
        stored.hash matches Some(h) && lists(hash_rows(h@), after_commit(Map::empty(),
            stale_keys_of(Seq::empty(), snapshot_keys(snapshot)), snapshot_hashes(snapshot))),
        stored.meta == Some(StoredMeta { watermark: Some(watermark), generation: Some(1) }),
    ensures
        file_name_seq(path) is Some ==> backup_path_of(path, timestamp_secs) != path,
        load_result(path, None) == Ok::<SnapshotView, (Seq<char>, Seq<char>)>(
            SnapshotView { entries: Seq::empty(), watermark: None, generation: 0 }),
        stale_keys_of(Seq::empty(), snapshot_keys(snapshot)) == Seq::<Seq<char>>::empty(),
        load_result(path, Some(stored)) matches Ok(v) && {
            &&& same_entries(v.entries, entry_rows(snapshot))
            &&& entry_keys_distinct(v.entries)
            &&& v.watermark == Some(watermark)
            &&& v.generation == 1
        },
{
    if file_name_seq(path) is Some {
        reveal_strlit("corrupt.");
        let ext = "corrupt."@ + decimal(timestamp_secs as nat) + ".redb"@;
        assert(("corrupt."@).len() == 8 && ("corrupt."@)[7] == '.');
        assert(ext[7] == '.');
        lemma_with_extension_moves(path, ext);
    }
    assert(stale_keys_of(Seq::empty(), snapshot_keys(snapshot)) =~= Seq::<Seq<char>>::empty());
    lemma_commit_then_load(path, Map::empty(), Map::empty(), Seq::empty(), snapshot, watermark, 1, stored);
}


/// The keys of some table rows.
pub open spec fn row_keys<V>(rows: Seq<(Seq<char>, V)>) -> Seq<Seq<char>> {
    rows.map_values(|r: (Seq<char>, V)| r.0)
}

/// The table some rows list: each listed key, with the value of a row of it.
pub open spec fn rows_table<V>(rows: Seq<(Seq<char>, V)>) -> Map<Seq<char>, V> {
    Map::new(|k: Seq<char>| row_keys(rows).contains(k), |k: Seq<char>| (choose|r: (Seq<char>, V)| rows.contains(r) && r.0 == k).1)
}

/// The hash rows a commit leaves alone: those of keys that neither had a
/// modification time nor are in the snapshot.
pub open spec fn orphan_hashes(hashes: Seq<(Seq<char>, Seq<char>)>, mtime_keys: Seq<Seq<char>>, keys: Seq<Seq<char>>) -> Seq<(Seq<char>, Seq<char>)> {
    hashes.filter(|r: (Seq<char>, Seq<char>)| !mtime_keys.contains(r.0) && !keys.contains(r.0))
}

fn snapshot_has_key(snapshot: &Vec<(String, StoredFileState)>, key: &String) -> (b: bool)
    ensures
        b == snapshot_keys(snapshot@).contains(key@),
{
    contains_key(snapshot, key)
}

fn mtime_has_key(rows: &Vec<(String, u64)>, key: &String) -> (b: bool)
    ensures
        b == row_keys(mtime_rows(rows@)).contains(key@),
{
    let ghost ks = row_keys(mtime_rows(rows@));
    let mut i: usize = 0;
    while i < rows.len()
        invariant
            ks == row_keys(mtime_rows(rows@)),
            i <= rows.len(),
            forall|k: int| 0 <= k < i ==> ks[k] != key@,
        decreases rows.len() - i,
    {
        if crate::text::str_eq(rows[i].0.as_str(), key.as_str()) {
            proof { assert(ks[i as int] == key@); }
            return true;
        }
        i = i + 1;
    }
    false
}

impl HashStorage {
    /// The tables a commit leaves, given the tables as they stand (the
    /// stored generation, the modification-time rows and the hash rows):
    /// refused, as `plan_commit` refuses, when the generation moved;
    /// otherwise the stale keys go from both tables, the snapshot is written
    /// to both, and the metadata holds the watermark and the next
    /// generation. A hash row whose key had no modification time and is not
    /// in the snapshot stays. Read back, the tables give the snapshot at the
    /// next generation whenever the hash table had no such row.
    pub fn commit_tables(
        &self,
        stored_generation: Option<u64>,
        expected_generation: u64,
        mtimes: &Vec<(String, u64)>,
        hashes: &Vec<(String, String)>,
        snapshot: &Vec<(String, StoredFileState)>,
        watermark: u64,
    ) -> (r: Result<StoredTables, StorageError>)
        requires
            stored_generation.unwrap_or(0) == expected_generation ==> expected_generation < u64::MAX,
            distinct_keys(snapshot_mtimes(snapshot@)),
        ensures
            stored_generation.unwrap_or(0) != expected_generation <==> r is Err,
            r matches Err(e) ==> (e matches StorageError::ConcurrentStateModified { path, expected, actual }
                && path@ == self.spec_path() && expected == expected_generation && actual == stored_generation.unwrap_or(0)),
            r matches Ok(t) ==> {
                &&& t.mtime matches Some(m) && mtime_rows(m@) == snapshot_mtimes(snapshot@)
                &&& t.hash matches Some(h) && hash_rows(h@) == orphan_hashes(hash_rows(hashes@),
                    row_keys(mtime_rows(mtimes@)), snapshot_keys(snapshot@)) + snapshot_hashes(snapshot@)
                &&& t.meta == Some(StoredMeta { watermark: Some(watermark), generation: Some((expected_generation + 1) as u64) })
            },
            r matches Ok(t) ==> ((forall|i: int| 0 <= i < hashes@.len() ==>
                #[trigger] row_keys(mtime_rows(mtimes@)).contains(hashes@[i].0@)) ==>
                (load_result(self.spec_path(), Some(t)) matches Ok(v) && {
                    &&& same_entries(v.entries, entry_rows(snapshot@))
                    &&& entry_keys_distinct(v.entries)
                    &&& v.watermark == Some(watermark)
                    &&& v.generation == expected_generation + 1
                })),
    {
        let ghost mk = row_keys(mtime_rows(mtimes@));
        let ghost keys = snapshot_keys(snapshot@);
        let mut existing: Vec<String> = Vec::new();
        let mut i: usize = 0;
        while i < mtimes.len()
            invariant
                i <= mtimes.len(),
                mk == row_keys(mtime_rows(mtimes@)),
                key_views(existing@) == mk.take(i as int),
            decreases mtimes.len() - i,
        {
            let ghost before = existing@;
            existing.push(mtimes[i].0.clone());
            proof {
                assert(mk[i as int] == mtimes@[i as int].0@);
                assert(key_views(existing@) =~= key_views(before).push(mk[i as int]));
                assert(mk.take(i + 1) =~= mk.take(i as int).push(mk[i as int]));
            }
            i = i + 1;
        }
        proof { assert(mk.take(mtimes@.len() as int) =~= mk); }
        let plan = match self.plan_commit(stored_generation, expected_generation, &existing, snapshot, watermark) {
            Ok(p) => p,
            Err(e) => return Err(e),
        };
        let mut new_mtime: Vec<(String, u64)> = Vec::new();
        let mut new_hash: Vec<(String, String)> = Vec::new();
        let ghost hv = hash_rows(hashes@);
        let ghost keep = |r: (Seq<char>, Seq<char>)| !mk.contains(r.0) && !keys.contains(r.0);
        let mut j: usize = 0;
        while j < hashes.len()
            invariant
                j <= hashes.len(),
                hv == hash_rows(hashes@),
                mk == row_keys(mtime_rows(mtimes@)),
                keys == snapshot_keys(snapshot@),
                keep == (|r: (Seq<char>, Seq<char>)| !mk.contains(r.0) && !keys.contains(r.0)),
                hash_rows(new_hash@) == hv.take(j as int).filter(keep),
            decreases hashes.len() - j,
        {
            proof {
                assert(hv.take(j + 1) =~= hv.take(j as int).push(hv[j as int]));
                hv.take(j as int).lemma_filter_push(hv[j as int], keep);
            }
            let key = &hashes[j].0;
            if !mtime_has_key(mtimes, key) && !snapshot_has_key(snapshot, key) {
                let ghost before = new_hash@;
                new_hash.push((key.clone(), hashes[j].1.clone()));
                proof { assert(hash_rows(new_hash@) =~= hash_rows(before).push(hv[j as int])); }
            }
            j = j + 1;
        }
        proof { assert(hv.take(hashes@.len() as int) =~= hv); }
        let ghost orphans = hash_rows(new_hash@);
        let mut k: usize = 0;
        while k < snapshot.len()
            invariant
                k <= snapshot.len(),
                mtime_rows(new_mtime@) == snapshot_mtimes(snapshot@).take(k as int),
                hash_rows(new_hash@) == orphans + snapshot_hashes(snapshot@).take(k as int),
            decreases snapshot.len() - k,
        {
            let ghost bm = new_mtime@;
            let ghost bh = new_hash@;
            new_mtime.push((snapshot[k].0.clone(), snapshot[k].1.mtime_ns));
            new_hash.push((snapshot[k].0.clone(), snapshot[k].1.hash.clone()));
            proof {
                assert(mtime_rows(new_mtime@) =~= mtime_rows(bm).push(snapshot_mtimes(snapshot@)[k as int]));
                assert(snapshot_mtimes(snapshot@).take(k + 1) =~= snapshot_mtimes(snapshot@).take(k as int).push(snapshot_mtimes(snapshot@)[k as int]));
                assert(hash_rows(new_hash@) =~= hash_rows(bh).push(snapshot_hashes(snapshot@)[k as int]));
                assert(snapshot_hashes(snapshot@).take(k + 1) =~= snapshot_hashes(snapshot@).take(k as int).push(snapshot_hashes(snapshot@)[k as int]));
            }
            k = k + 1;
        }
        proof {
            assert(snapshot_mtimes(snapshot@).take(snapshot@.len() as int) =~= snapshot_mtimes(snapshot@));
            assert(snapshot_hashes(snapshot@).take(snapshot@.len() as int) =~= snapshot_hashes(snapshot@));
        }
        let t = StoredTables {
            mtime: Some(new_mtime),
            hash: Some(new_hash),
            meta: Some(StoredMeta { watermark: Some(plan.watermark), generation: Some(plan.generation) }),
        };
        proof {
            if forall|i: int| 0 <= i < hashes@.len() ==> #[trigger] mk.contains(hashes@[i].0@) {
                lemma_commit_tables_load(self.spec_path(), mtimes@, hashes@, snapshot@, watermark, plan.generation, t);
            }
        }
        Ok(t)
    }
}

proof fn lemma_commit_tables_load(
    path: Seq<char>,
    mtimes: Seq<(String, u64)>,
    hashes: Seq<(String, String)>,
    snapshot: Seq<(String, StoredFileState)>,
    watermark: u64,
    generation: u64,
    t: StoredTables,
)
    requires
        distinct_keys(snapshot_mtimes(snapshot)),
        forall|i: int| 0 <= i < hashes.len() ==> #[trigger] row_keys(mtime_rows(mtimes)).contains(hashes[i].0@),
        t.mtime matches Some(m) && mtime_rows(m@) == snapshot_mtimes(snapshot),
        t.hash matches Some(h) && hash_rows(h@) == orphan_hashes(hash_rows(hashes), row_keys(mtime_rows(mtimes)),
            snapshot_keys(snapshot)) + snapshot_hashes(snapshot),
        t.meta == Some(StoredMeta { watermark: Some(watermark), generation: Some(generation) }),
    ensures
        load_result(path, Some(t)) matches Ok(v) && {
            &&& same_entries(v.entries, entry_rows(snapshot))
            &&& entry_keys_distinct(v.entries)
            &&& v.watermark == Some(watermark)
            &&& v.generation == generation
        },
{
    let mk = row_keys(mtime_rows(mtimes));
    let keys = snapshot_keys(snapshot);
    let hv = hash_rows(hashes);
    let keep = |r: (Seq<char>, Seq<char>)| !mk.contains(r.0) && !keys.contains(r.0);
    assert(hv.filter(keep) =~= Seq::<(Seq<char>, Seq<char>)>::empty()) by {
        if hv.filter(keep).len() > 0 {
            let r = hv.filter(keep)[0];
            hv.lemma_filter_contains_rev(keep, r);
            let i = choose|i: int| 0 <= i < hv.len() && hv[i] == r;
            assert(hv[i].0 == hashes[i].0@);
            assert(mk.contains(hashes[i].0@));
            assert(false);
        }
    }
    let sm = snapshot_mtimes(snapshot);
    let sh = snapshot_hashes(snapshot);
    let tm = rows_table(mtime_rows(mtimes));
    let th = rows_table(hv);
    assert(keys =~= sm.map_values(|r: (Seq<char>, u64)| r.0));
    assert(keys =~= sh.map_values(|r: (Seq<char>, Seq<char>)| r.0));
    assert(distinct_keys(sh)) by {
        assert forall|i: int, j: int| 0 <= i < j < sh.len() implies (#[trigger] sh[i]).0 != (#[trigger] sh[j]).0 by {
            assert(sm[i].0 == sh[i].0 && sm[j].0 == sh[j].0);
        }
    }
    assert forall|k: Seq<char>| #[trigger] tm.contains_key(k) implies mk.contains(k) by {}
    assert forall|k: Seq<char>| #[trigger] th.contains_key(k) implies tm.contains_key(k) by {
        let i = choose|i: int| 0 <= i < row_keys(hv).len() && row_keys(hv)[i] == k;
        assert(hv[i].0 == hashes[i].0@);
        assert(mk.contains(hashes[i].0@));
    }
    lemma_after_commit(tm, mk, sm, keys);
    assert forall|k: Seq<char>| #[trigger] th.contains_key(k) implies mk.contains(k) by {
        assert(tm.contains_key(k));
    }
    lemma_after_commit(th, mk, sh, keys);
    assert(hash_rows(t.hash->0@) =~= sh);
    lemma_commit_then_load(path, tm, th, mk, snapshot, watermark, generation, t);
}

} // verus!
