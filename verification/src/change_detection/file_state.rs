//! Recorded state of one file at scan time.

use vstd::prelude::*;
use std::time::{Duration, SystemTime};

verus! {

/// A point in time, as the operating system reports it.
#[verifier::external_type_specification]
#[verifier::external_body]
pub struct ExSystemTime(SystemTime);

/// How long after the UNIX epoch a time lies; none for a time before it.
pub uninterp spec fn epoch_offset(t: SystemTime) -> Option<Duration>;

/// The whole number of nanoseconds in a duration.
pub uninterp spec fn nanos_of(d: Duration) -> u128;

/// Calls `SystemTime::duration_since(UNIX_EPOCH)`: the time elapsed since the
/// UNIX epoch, or none when `t` lies before it.
#[verifier::external_body]
fn since_unix_epoch(t: SystemTime) -> (r: Option<Duration>)
    ensures
        r == epoch_offset(t),
{
    match t.duration_since(SystemTime::UNIX_EPOCH) {
        Ok(d) => Some(d),
        Err(_) => None,
    }
}

/// Calls `Duration::as_nanos`: the total number of whole nanoseconds.
#[verifier::external_body]
fn duration_as_nanos(d: Duration) -> (n: u128)
    ensures
        n == nanos_of(d),
{
    d.as_nanos()
}

/// Why a modification time could not be recorded.
#[derive(Debug, Clone, PartialEq, Eq)]
pub struct MtimeError {
    pub path: String,
    pub reason: &'static str,
}

impl MtimeError {
    /// The displayed text of the error.
    pub fn message(&self) -> (s: String)
        ensures
            s@ == "cannot convert mtime to nanoseconds for '"@ + self.path@ + "': "@ + self.reason@,
    {
        String::from_str("cannot convert mtime to nanoseconds for '").concat(self.path.as_str()).concat("': ").concat(self.reason)
    }
}

/// Recorded state of a single file at scan time.
#[derive(Debug, Clone, PartialEq, Eq)]
pub struct FileState {
    /// Absolute path to the file.
    pub path: String,
    /// Last-modified timestamp as nanoseconds since the UNIX epoch.
    pub mtime_ns: u64,
    /// SHA-256 lowercase hex digest of the file contents.
    pub hash: String,
}

impl FileState {
    /// A captured file state from absolute path, mtime and content hash.
    pub fn new(path: String, mtime_ns: u64, hash: String) -> (s: Self)
        ensures
            s == (FileState { path, mtime_ns, hash }),
    {
        FileState { path, mtime_ns, hash }
    }
}

/// Records a time given as nanoseconds since the UNIX epoch (none for a time
/// before it): a time before the epoch, or one too far after it for `u64`,
/// cannot be recorded.
pub fn epoch_nanos(since_epoch: Option<u128>, path: &str) -> (r: Result<u64, MtimeError>)
    ensures
        match since_epoch {
            None => r matches Err(e) && e.path@ == path@ && e.reason@ == "pre-epoch mtime"@,
            Some(n) => if n > u64::MAX {
                r matches Err(e) && e.path@ == path@ && e.reason@ == "mtime nanoseconds overflow u64"@
            } else {
                r == Ok::<u64, MtimeError>(n as u64)
            },
        },
{
    match since_epoch {
        None => Err(MtimeError { path: String::from_str(path), reason: "pre-epoch mtime" }),
        Some(n) => {
            if n > u64::MAX as u128 {
                Err(MtimeError { path: String::from_str(path), reason: "mtime nanoseconds overflow u64" })
            } else {
                Ok(n as u64)
            }
        },
    }
}

/// Converts a modification time to nanoseconds since the UNIX epoch.
pub fn mtime_nanos(t: SystemTime, path: &str) -> (r: Result<u64, MtimeError>)
    ensures
        match epoch_offset(t) {
            None => r matches Err(e) && e.path@ == path@ && e.reason@ == "pre-epoch mtime"@,
            Some(d) => if nanos_of(d) > u64::MAX {
                r matches Err(e) && e.path@ == path@ && e.reason@ == "mtime nanoseconds overflow u64"@
            } else {
                r == Ok::<u64, MtimeError>(nanos_of(d) as u64)
            },
        },
{
    let since = match since_unix_epoch(t) {
        None => None,
        Some(d) => Some(duration_as_nanos(d)),
    };
    epoch_nanos(since, path)
}

} // verus!
