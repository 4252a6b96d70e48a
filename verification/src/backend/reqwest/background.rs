//! Decisions of the resumable background downloads of the reqwest
//! backend: the session and state-file names, the state records, the
//! `Range` request that resumes a partial file, how the response status is
//! judged, and the retry policy. The transfers, the files and the clock
//! stay with the caller.

use vstd::prelude::*;
use vstd::string::*;
use crate::error::Error;
use crate::text::{decimal, spec_decimal};

verus! {

/// The canonical reason phrase of a status code
/// (`StatusCode::canonical_reason`), if it has one.
pub uninterp spec fn canonical_reason_of(code: u16) -> Option<Seq<char>>;

/// `http::StatusCode::canonical_reason` of a valid status code.
#[verifier::external_body]
fn canonical_reason(code: u16) -> (r: Option<String>)
    requires
        100 <= code <= 999,
    ensures
        match r {
            Some(t) => canonical_reason_of(code) == Some(t@),
            None => canonical_reason_of(code) is None,
        },
{
    http::StatusCode::from_u16(code).ok().and_then(|s| s.canonical_reason()).map(|r| r.to_string())
}

/// How a status is displayed: its number, a space and its reason phrase
/// (or "<unknown status code>").
pub open spec fn spec_status_display(code: u16) -> Seq<char> {
    spec_decimal(code as nat) + seq![' '] + match canonical_reason_of(code) {
        Some(r) => r,
        None => "<unknown status code>"@,
    }
}

/// How a status is displayed (see `spec_status_display`).
pub fn status_display(code: u16) -> (s: String)
    requires
        100 <= code <= 999,
    ensures
        s@ == spec_status_display(code),
{
    let mut s = decimal(code as u128);
    s.push(' ');
    match canonical_reason(code) {
        Some(r) => s.append(r.as_str()),
        None => s.append("<unknown status code>"),
    }
    s
}

/// A session identifier: `frakt-<prefix>-<process id>-<seconds since the
/// epoch>`.
pub open spec fn spec_session_id(prefix: Seq<char>, pid: u32, secs: u64) -> Seq<char> {
    "frakt-"@ + prefix + seq!['-'] + spec_decimal(pid as nat) + seq!['-'] + spec_decimal(secs as nat)
}

/// A session identifier (see `spec_session_id`).
pub fn session_id(prefix: &str, pid: u32, secs: u64) -> (s: String)
    ensures
        s@ == spec_session_id(prefix@, pid, secs),
{
    let mut s = String::from_str("frakt-");
    s.append(prefix);
    s.push('-');
    let p = decimal(pid as u128);
    s.append(p.as_str());
    s.push('-');
    let t = decimal(secs as u128);
    s.append(t.as_str());
    s
}

/// The name of a session's state file: the identifier and `.state`.
pub fn state_file_name(session_id: &str) -> (s: String)
    ensures
        s@ == session_id@ + ".state"@,
{
    let mut s = String::from_str(session_id);
    s.append(".state");
    s
}

/// A state record: `status:<status>`, `bytes_downloaded:<bytes>` and
/// `last_update:<seconds>`, one per line.
pub open spec fn spec_state_record(status: Seq<char>, bytes: u64, last_update: u64) -> Seq<char> {
    "status:"@ + status + "\nbytes_downloaded:"@ + spec_decimal(bytes as nat) + "\nlast_update:"@ + spec_decimal(
        last_update as nat,
    ) + seq!['\n']
}

/// A state record (see `spec_state_record`).
pub fn state_record(status: &str, bytes: u64, last_update: u64) -> (s: String)
    ensures
        s@ == spec_state_record(status@, bytes, last_update),
{
    let mut s = String::from_str("status:");
    s.append(status);
    s.append("\nbytes_downloaded:");
    let b = decimal(bytes as u128);
    s.append(b.as_str());
    s.append("\nlast_update:");
    let t = decimal(last_update as u128);
    s.append(t.as_str());
    s.push('\n');
    s
}

/// The record of a failed download: `status:failed`, `error:<message>`
/// and `last_update:<seconds>`, one per line.
pub fn failed_record(error: &str, last_update: u64) -> (s: String)
    ensures
        s@ == "status:failed\nerror:"@ + error@ + "\nlast_update:"@ + spec_decimal(last_update as nat) + seq!['\n'],
{
    let mut s = String::from_str("status:failed\nerror:");
    s.append(error);
    s.append("\nlast_update:");
    let t = decimal(last_update as u128);
    s.append(t.as_str());
    s.push('\n');
    s
}

/// The `Range` value that resumes a file of `start` bytes: none for an
/// empty file, else `bytes=<start>-`.
pub fn range_header(start: u64) -> (r: Option<String>)
    ensures
        start == 0 ==> r is None,
        start > 0 ==> (r matches Some(v) && v@ == "bytes="@ + spec_decimal(start as nat) + seq!['-']),
{
    if start == 0 {
        None
    } else {
        let mut v = String::from_str("bytes=");
        let n = decimal(start as u128);
        v.append(n.as_str());
        v.push('-');
        Some(v)
    }
}

/// How a download goes on after the response status.
pub enum ResumeStatus {
    /// Read the body
    Proceed,
    /// Nothing left to fetch: the file already holds this many bytes
    AlreadyComplete(u64),
    /// The download failed
    Failed(Error),
}

/// Judges the status of a (possibly resumed) download of a file that
/// holds `start` bytes: success statuses and 206 proceed; 416 on a resumed
/// download means the file is complete; anything else fails with "HTTP
/// error: " and the status.
pub fn resume_status(status: u16, start: u64) -> (r: ResumeStatus)
    requires
        100 <= status <= 999,
    ensures
        (200 <= status < 300 || status == 206) ==> r is Proceed,
        !(200 <= status < 300 || status == 206) && status == 416 && start > 0 ==> r == ResumeStatus::AlreadyComplete(start),
        !(200 <= status < 300 || status == 206) && !(status == 416 && start > 0) ==> (r matches ResumeStatus::Failed(
            Error::Internal(m),
        ) && m@ == "HTTP error: "@ + spec_status_display(status)),
{
    if (200 <= status && status < 300) || status == 206 {
        ResumeStatus::Proceed
    } else if status == 416 && start > 0 {
        ResumeStatus::AlreadyComplete(start)
    } else {
        let mut m = String::from_str("HTTP error: ");
        let d = status_display(status);
        m.append(d.as_str());
        ResumeStatus::Failed(Error::Internal(m))
    }
}

/// The total size of a resumed download: what the response announces
/// plus what the file already holds.
pub fn resumed_total(content_length: Option<u64>, start: u64) -> (t: Option<u64>)
    requires
        content_length matches Some(n) ==> n + start <= u64::MAX,
    ensures
        t == match content_length {
            Some(n) => Some((n + start) as u64),
            None => None,
        },
{
    match content_length {
        Some(n) => Some(n + start),
        None => None,
    }
}

/// How many attempts a download gets.
pub const MAX_ATTEMPTS: u32 = 5;

/// The wait before the retry that follows the `n`th failure, in seconds:
/// two seconds, doubled after each failure.
pub open spec fn spec_backoff_secs(n: nat) -> nat
    decreases n,
{
    if n <= 1 { 2 } else { 2 * spec_backoff_secs((n - 1) as nat) }
}

/// The retry policy: failures so far.
pub struct RetryPolicy {
    /// Failures so far
    pub failures: u32,
}

impl RetryPolicy {
    /// No failure yet.
    pub fn new() -> (p: Self)
        ensures
            p.failures == 0,
    {
        RetryPolicy { failures: 0 }
    }

    /// Counts a failure: gives up (`None`) at the fifth, else says how many
    /// seconds to wait before the next attempt.
    pub fn on_failure(&mut self) -> (wait: Option<u64>)
        requires
            old(self).failures < MAX_ATTEMPTS,
        ensures
            final(self).failures == old(self).failures + 1,
            final(self).failures >= MAX_ATTEMPTS ==> wait is None,
            final(self).failures < MAX_ATTEMPTS ==> wait == Some(spec_backoff_secs(final(self).failures as nat) as u64),
    {
        self.failures = self.failures + 1;
        if self.failures >= MAX_ATTEMPTS {
            return None;
        }
        let mut secs: u64 = 2;
        let mut k: u32 = 1;
        while k < self.failures
            invariant
                1 <= k <= self.failures,
                self.failures < MAX_ATTEMPTS,
                secs == spec_backoff_secs(k as nat),
                secs <= 16,
            decreases self.failures - k,
        {
            secs = secs * 2;
            k = k + 1;
            assert(spec_backoff_secs(k as nat) == 2 * spec_backoff_secs((k - 1) as nat));
            assert(secs <= 16) by {
                assert(k <= 4);
                reveal_with_fuel(spec_backoff_secs, 5);
            }
        }
        Some(secs)
    }
}

/// Each wait doubles the one before, starting at two seconds.
pub proof fn law_backoff_doubles(n: nat)
    requires
        n >= 1,
    ensures
        spec_backoff_secs(1) == 2,
        spec_backoff_secs(n + 1) == 2 * spec_backoff_secs(n),
{
}

} // verus!
