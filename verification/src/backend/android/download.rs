//! Reading the rows of Android's `DownloadManager` and deciding when the
//! monitoring of a download ends.

use vstd::prelude::*;

verus! {

/// Status of an Android download.
#[derive(Clone, Copy, PartialEq, Eq, Structural, Debug)]
pub enum DownloadStatus {
    /// 1: waiting to start
    Pending,
    /// 2: running
    Running,
    /// 4: paused
    Paused,
    /// 8: finished
    Successful,
    /// 16, or any other number: failed
    Failed,
}

/// The status a `DownloadManager` status number stands for.
pub open spec fn spec_download_status(v: i32) -> DownloadStatus {
    if v == 1 {
        DownloadStatus::Pending
    } else if v == 2 {
        DownloadStatus::Running
    } else if v == 4 {
        DownloadStatus::Paused
    } else if v == 8 {
        DownloadStatus::Successful
    } else {
        DownloadStatus::Failed
    }
}

impl DownloadStatus {
    /// The status a `DownloadManager` status number stands for.
    pub fn from_i32(status: i32) -> (s: Self)
        ensures
            s == spec_download_status(status),
    {
        match status {
            1 => DownloadStatus::Pending,
            2 => DownloadStatus::Running,
            4 => DownloadStatus::Paused,
            8 => DownloadStatus::Successful,
            16 => DownloadStatus::Failed,
            _ => DownloadStatus::Failed,
        }
    }
}

/// The progress a `DownloadManager` row reports: its status, the bytes so
/// far (the column's 64 bits read as unsigned) and the total, known only
/// when positive.
pub fn row_progress(status: i32, bytes_so_far: i64, total_size: i64) -> (p: (DownloadStatus, u64, Option<u64>))
    ensures
        p.0 == spec_download_status(status),
        p.1 == bytes_so_far as u64,
        p.2 == (if total_size as u64 > 0 { Some(total_size as u64) } else { None }),
{
    let total = total_size as u64;
    (DownloadStatus::from_i32(status), bytes_so_far as u64, if total > 0 { Some(total) } else { None })
}

/// What the monitor does after reading a row: a successful download
/// reports its final progress and stops; a failed one stops; others go
/// on.
pub fn monitor_step(status: DownloadStatus) -> (step: (bool, bool))
    ensures
        step.0 == (status == DownloadStatus::Successful),
        step.1 == (status == DownloadStatus::Successful || status == DownloadStatus::Failed),
{
    match status {
        DownloadStatus::Successful => (true, true),
        DownloadStatus::Failed => (false, true),
        _ => (false, false),
    }
}

/// The progress last reported while a download is monitored; nothing is
/// reported at first, which counts as 0 bytes of an unknown total.
#[derive(Clone, Copy, PartialEq, Eq, Structural, Debug)]
pub struct ProgressReporter {
    /// Bytes last reported
    pub last_downloaded: u64,
    /// Total last reported
    pub last_total: Option<u64>,
}

impl ProgressReporter {
    /// Nothing reported yet.
    pub fn new() -> (r: Self)
        ensures
            r.last_downloaded == 0 && r.last_total is None,
    {
        ProgressReporter { last_downloaded: 0, last_total: None }
    }

    /// Whether a reading is reported: when it differs from the last one
    /// reported. The reading is then the last one reported.
    pub fn observe(&mut self, downloaded: u64, total: Option<u64>) -> (report: bool)
        ensures
            report == (downloaded != old(self).last_downloaded || total != old(self).last_total),
            final(self).last_downloaded == downloaded,
            final(self).last_total == total,
    {
        let changed = downloaded != self.last_downloaded || match (total, self.last_total) {
            (Some(a), Some(b)) => a != b,
            (None, None) => false,
            _ => true,
        };
        self.last_downloaded = downloaded;
        self.last_total = total;
        changed
    }
}

} // verus!
