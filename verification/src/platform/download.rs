//! Decisions of downloading a URL with `curl`: its arguments, and what to do
//! at each poll of the running process.
//!
//! The caller spawns `curl`, polls it, sleeps and reads its captured output;
//! these functions decide from what each poll found.

use vstd::prelude::*;
use crate::text::{decimal, signed_decimal, i32_to_decimal, u64_to_decimal};

verus! {

/// How long to wait between polls of the running `curl`, in milliseconds.
pub const POLL_INTERVAL_MS: u64 = 25;

/// Why a download failed.
#[derive(Debug, Clone, PartialEq, Eq)]
pub enum DownloadError {
    /// `curl` could not be started; the I/O error's text.
    Spawn(String),
    /// `curl` exited unsuccessfully.
    Failed { code: i32, stderr: String },
    /// The time limit passed first.
    TimedOut { timeout_ms: u64 },
    /// The download was cancelled.
    Cancelled,
    /// Waiting for `curl` failed; the I/O error's text.
    Wait(String),
    /// A capture file could not be created; the I/O error's text.
    CaptureFile(String),
    /// A capture file could not be read; the I/O error's text.
    CaptureRead(String),
    /// The response is not UTF-8; the decoding error's text.
    InvalidUtf8(String),
}

/// The displayed text of a download error.
pub open spec fn download_error_text(e: DownloadError) -> Seq<char> {
    match e {
        DownloadError::Spawn(m) => "failed to spawn curl: "@ + m@,
        DownloadError::Failed { code, stderr } => "curl exited with "@ + signed_decimal(code as int) + "; stderr: "@ + stderr@,
        DownloadError::TimedOut { timeout_ms } => "curl timed out after "@ + decimal(timeout_ms as nat) + "ms"@,
        DownloadError::Cancelled => "curl was cancelled"@,
        DownloadError::Wait(m) => "failed to wait for curl: "@ + m@,
        DownloadError::CaptureFile(m) => "failed to create curl capture file: "@ + m@,
        DownloadError::CaptureRead(m) => "failed to read curl capture file: "@ + m@,
        DownloadError::InvalidUtf8(m) => "response is not UTF-8: "@ + m@,
    }
}

impl DownloadError {
    /// Returns the displayed text of the error.
    pub fn message(&self) -> (s: String)
        ensures
            s@ == download_error_text(*self),
    {
        match self {
            DownloadError::Spawn(m) => String::from_str("failed to spawn curl: ").concat(m.as_str()),
            DownloadError::Failed { code, stderr } => String::from_str("curl exited with ")
                .concat(i32_to_decimal(*code).as_str()).concat("; stderr: ").concat(stderr.as_str()),
            DownloadError::TimedOut { timeout_ms } => String::from_str("curl timed out after ")
                .concat(u64_to_decimal(*timeout_ms).as_str()).concat("ms"),
            DownloadError::Cancelled => String::from_str("curl was cancelled"),
            DownloadError::Wait(m) => String::from_str("failed to wait for curl: ").concat(m.as_str()),
            DownloadError::CaptureFile(m) => String::from_str("failed to create curl capture file: ").concat(m.as_str()),
            DownloadError::CaptureRead(m) => String::from_str("failed to read curl capture file: ").concat(m.as_str()),
            DownloadError::InvalidUtf8(m) => String::from_str("response is not UTF-8: ").concat(m.as_str()),
        }
    }
}

/// The arguments `curl` runs with: fail on HTTP errors, silent but showing
/// errors, following redirects, asking for GitHub JSON as `v8-runner`.
pub fn curl_args(url: &str) -> (r: Vec<String>)
    ensures
        r@.len() == 6,
        r@[0]@ == "-fsSL"@,
        r@[1]@ == "-H"@,
        r@[2]@ == "Accept: application/vnd.github+json"@,
        r@[3]@ == "-H"@,
        r@[4]@ == "User-Agent: v8-runner"@,
        r@[5]@ == url@,
{
    let mut r: Vec<String> = Vec::new();
    r.push(String::from_str("-fsSL"));
    r.push(String::from_str("-H"));
    r.push(String::from_str("Accept: application/vnd.github+json"));
    r.push(String::from_str("-H"));
    r.push(String::from_str("User-Agent: v8-runner"));
    r.push(String::from_str(url));
    r
}

/// A zero time limit fails the download before `curl` starts.
pub fn download_preflight(timeout_ms: Option<u64>) -> (r: Option<DownloadError>)
    ensures
        timeout_ms == Some(0u64) <==> r is Some,
        r is Some ==> r == Some(DownloadError::TimedOut { timeout_ms: 0 }),
{
    match timeout_ms {
        Some(0) => Some(DownloadError::TimedOut { timeout_ms: 0 }),
        _ => None,
    }
}

/// What one poll of `curl` found.
#[derive(Debug, Clone, Copy, PartialEq, Eq)]
pub enum DownloadPoll {
    /// `curl` exited; `code` is its exit code when it has one.
    Exited { success: bool, code: Option<i32> },
    /// `curl` still runs; whether cancellation was requested, and the time
    /// elapsed since it started.
    Running { cancelled: bool, elapsed_ms: u64 },
}

/// What to do after a poll.
#[derive(Debug, Clone, Copy, PartialEq, Eq)]
pub enum DownloadAction {
    /// Read the captured output: the download succeeded.
    ReadOutput,
    /// Read the captured standard error and fail with this exit code.
    Fail { code: i32 },
    /// Kill `curl` and fail as cancelled.
    Cancel,
    /// Kill `curl` and fail as timed out.
    TimeOut { timeout_ms: u64 },
    /// Sleep this long, then poll again.
    Sleep { ms: u64 },
}

/// The action after a poll: an exited `curl` is read or failed (with exit
/// code -1 when killed by a signal); a running one is cancelled on request,
/// timed out once the limit has passed, and otherwise polled again after at
/// most the poll interval, no later than the limit.
pub open spec fn next_action(timeout_ms: Option<u64>, poll: DownloadPoll) -> DownloadAction {
    match poll {
        DownloadPoll::Exited { success, code } => if success {
            DownloadAction::ReadOutput
        } else {
            DownloadAction::Fail { code: match code { Some(c) => c, None => -1i32 } }
        },
        DownloadPoll::Running { cancelled, elapsed_ms } => if cancelled {
            DownloadAction::Cancel
        } else {
            match timeout_ms {
                Some(limit) => if elapsed_ms >= limit {
                    DownloadAction::TimeOut { timeout_ms: limit }
                } else {
                    DownloadAction::Sleep { ms: if POLL_INTERVAL_MS < (limit - elapsed_ms) { POLL_INTERVAL_MS } else { (limit - elapsed_ms) as u64 } }
                },
                None => DownloadAction::Sleep { ms: POLL_INTERVAL_MS },
            }
        },
    }
}

/// Decides what to do after a poll of `curl`.
pub fn download_next(timeout_ms: Option<u64>, poll: DownloadPoll) -> (a: DownloadAction)
    ensures
        a == next_action(timeout_ms, poll),
{
    match poll {
        DownloadPoll::Exited { success, code } => {
            if success {
                DownloadAction::ReadOutput
            } else {
                DownloadAction::Fail { code: match code { Some(c) => c, None => -1 } }
            }
        },
        DownloadPoll::Running { cancelled, elapsed_ms } => {
            if cancelled {
                return DownloadAction::Cancel;
            }
            match timeout_ms {
                Some(limit) => {
                    if elapsed_ms >= limit {
                        DownloadAction::TimeOut { timeout_ms: limit }
                    } else {
                        let left = limit - elapsed_ms;
                        DownloadAction::Sleep { ms: if POLL_INTERVAL_MS < left { POLL_INTERVAL_MS } else { left } }
                    }
                },
                None => DownloadAction::Sleep { ms: POLL_INTERVAL_MS },
            }
        },
    }
}

/// A running download never sleeps past its time limit, and never longer
/// than the poll interval.
pub proof fn lemma_sleep_bounded(timeout_ms: Option<u64>, cancelled: bool, elapsed_ms: u64)
    ensures
        next_action(timeout_ms, DownloadPoll::Running { cancelled, elapsed_ms }) matches DownloadAction::Sleep { ms } ==> {
            &&& ms <= POLL_INTERVAL_MS
            &&& (timeout_ms matches Some(limit) ==> elapsed_ms + ms <= limit && ms > 0)
        },
{
}

} // verus!
