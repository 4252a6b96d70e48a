//! What a session task's delegate shares with the request that waits for
//! it: completion, the response and error the session reported, the body
//! received so far under a size limit, and the download's progress.
//!
//! The response and error are the platform's own objects; they are held
//! here as type parameters and carried through unread. Waking the waiting
//! request and calling the progress callback are left to the caller: the
//! methods say when to do so.

use vstd::prelude::*;
use vstd::string::*;
use crate::cookies::opt_view;
use crate::error::Error;

verus! {

/// Download-specific context: where the file should go, where the
/// session left it and where it ended up.
pub struct DownloadContext {
    /// Destination file path
    pub destination_path: Option<String>,
    /// Temporary download location the session reported
    pub download_location: Option<String>,
    /// Final location after the file was moved
    pub final_location: Option<String>,
}

impl DownloadContext {
    /// A download to `destination_path`; no location known yet.
    pub fn new(destination_path: Option<String>) -> (c: Self)
        ensures
            opt_view(c.destination_path) == opt_view(destination_path),
            c.download_location is None,
            c.final_location is None,
    {
        DownloadContext { destination_path, download_location: None, final_location: None }
    }

    /// Records the temporary download location.
    pub fn set_download_location(&mut self, location: String)
        ensures
            opt_view(final(self).download_location) == Some(location@),
            opt_view(final(self).destination_path) == opt_view(old(self).destination_path),
            opt_view(final(self).final_location) == opt_view(old(self).final_location),
    {
        self.download_location = Some(location);
    }

    /// Records the final file location.
    pub fn set_final_location(&mut self, path: String)
        ensures
            opt_view(final(self).final_location) == Some(path@),
            opt_view(final(self).destination_path) == opt_view(old(self).destination_path),
            opt_view(final(self).download_location) == opt_view(old(self).download_location),
    {
        self.final_location = Some(path);
    }
}

/// The state a task's delegate shares with the waiting request. `R` is
/// the platform's response object, `E` its error object.
pub struct TaskSharedContext<R, E> {
    /// The response, once the session reported it
    pub response: Option<R>,
    /// Whether the task is completed
    pub completed: bool,
    /// The error the task failed with, if any
    pub error: Option<E>,
    /// The body received so far
    pub response_buffer: Vec<u8>,
    /// Largest body accepted
    pub max_response_buffer_size: u64,
    /// Bytes received so far
    pub bytes_downloaded: u64,
    /// Bytes expected in all (0 when unknown)
    pub total_bytes_expected: u64,
    /// Whether progress is reported to a callback
    pub has_progress_callback: bool,
    /// Download-specific context, for download tasks
    pub download_context: Option<DownloadContext>,
}

/// The total of a progress report: known only when positive.
pub open spec fn known_total(total: u64) -> Option<u64> {
    if total > 0 {
        Some(total)
    } else {
        None
    }
}

/// `a + b` as a 64-bit atomic counter adds: modulo 2^64.
pub open spec fn wrapping_sum(a: u64, b: u64) -> u64 {
    if a + b > u64::MAX {
        (a + b - u64::MAX - 1) as u64
    } else {
        (a + b) as u64
    }
}

impl<R, E> TaskSharedContext<R, E> {
    /// The progress: bytes so far and the total, when known.
    pub open spec fn progress(&self) -> (u64, Option<u64>) {
        (self.bytes_downloaded, known_total(self.total_bytes_expected))
    }

    /// Whether the context is fresh: nothing received or reported, no
    /// limit on the body.
    pub open spec fn is_fresh(&self) -> bool {
        &&& self.response is None
        &&& !self.completed
        &&& self.error is None
        &&& self.response_buffer@.len() == 0
        &&& self.max_response_buffer_size == u64::MAX
        &&& self.bytes_downloaded == 0
        &&& self.total_bytes_expected == 0
    }

    /// A fresh context without a progress callback.
    pub fn new() -> (c: Self)
        ensures
            c.is_fresh(),
            !c.has_progress_callback,
            c.download_context is None,
    {
        TaskSharedContext {
            response: None,
            completed: false,
            error: None,
            response_buffer: Vec::new(),
            max_response_buffer_size: u64::MAX,
            bytes_downloaded: 0,
            total_bytes_expected: 0,
            has_progress_callback: false,
            download_context: None,
        }
    }

    /// A fresh context that reports progress.
    pub fn with_progress_callback() -> (c: Self)
        ensures
            c.is_fresh(),
            c.has_progress_callback,
            c.download_context is None,
    {
        let mut c = Self::new();
        c.has_progress_callback = true;
        c
    }

    /// A fresh context for a download to `destination_path`.
    pub fn with_download(destination_path: Option<String>, has_progress_callback: bool) -> (c: Self)
        ensures
            c.is_fresh(),
            c.has_progress_callback == has_progress_callback,
            c.download_context matches Some(d) && opt_view(d.destination_path) == opt_view(destination_path)
                && d.download_location is None && d.final_location is None,
    {
        let mut c = Self::new();
        c.has_progress_callback = has_progress_callback;
        c.download_context = Some(DownloadContext::new(destination_path));
        c
    }

    /// Whether the task is completed.
    pub fn is_completed(&self) -> (b: bool)
        ensures
            b == self.completed,
    {
        self.completed
    }

    /// Marks the task completed; the waiting request is then to be woken.
    pub fn mark_completed(&mut self)
        ensures
            *final(self) == (TaskSharedContext { completed: true, ..*old(self) }),
    {
        self.completed = true;
    }

    /// Records the error the task failed with and marks it completed.
    pub fn set_error(&mut self, error: E)
        ensures
            *final(self) == (TaskSharedContext { completed: true, error: Some(error), ..*old(self) }),
    {
        self.error = Some(error);
        self.completed = true;
    }

    /// Takes the body received so far, leaving it empty.
    pub fn take_response_buffer(&mut self) -> (res: Result<Vec<u8>, Error>)
        ensures
            res matches Ok(b) && b@ == old(self).response_buffer@,
            final(self).response_buffer@.len() == 0,
            *final(self) == (TaskSharedContext { response_buffer: final(self).response_buffer, ..*old(self) }),
    {
        let mut b: Vec<u8> = Vec::new();
        std::mem::swap(&mut b, &mut self.response_buffer);
        Ok(b)
    }

    /// Appends data to the body, unless the body would then be longer than
    /// the limit: then `ResponseTooLarge`, and the body is unchanged.
    pub fn append_data(&mut self, data: &[u8]) -> (res: Result<(), Error>)
        ensures
            old(self).response_buffer@.len() + data@.len() > old(self).max_response_buffer_size ==> (res
                matches Err(Error::ResponseTooLarge) && final(self).response_buffer@ == old(self).response_buffer@),
            old(self).response_buffer@.len() + data@.len() <= old(self).max_response_buffer_size ==> res is Ok
                && final(self).response_buffer@ == old(self).response_buffer@ + data@,
            final(self).response_buffer@.len() <= old(self).max_response_buffer_size
                || final(self).response_buffer@ == old(self).response_buffer@,
            *final(self) == (TaskSharedContext { response_buffer: final(self).response_buffer, ..*old(self) }),
    {
        let len = self.response_buffer.len() as u128;
        if len + (data.len() as u128) > self.max_response_buffer_size as u128 {
            return Err(Error::ResponseTooLarge);
        }
        let mut i: usize = 0;
        let ghost start = self.response_buffer@;
        while i < data.len()
            invariant
                i <= data@.len(),
                self.response_buffer@ == start + data@.take(i as int),
                *self == (TaskSharedContext { response_buffer: self.response_buffer, ..*old(self) }),
                start == old(self).response_buffer@,
            decreases data.len() - i,
        {
            self.response_buffer.push(data[i]);
            assert(data@.take(i + 1) =~= data@.take(i as int).push(data@[i as int]));
            i += 1;
        }
        assert(data@.take(data@.len() as int) =~= data@);
        Ok(())
    }

    /// Sets the largest body accepted.
    pub fn set_max_response_buffer_size(&mut self, size: u64)
        ensures
            *final(self) == (TaskSharedContext { max_response_buffer_size: size, ..*old(self) }),
    {
        self.max_response_buffer_size = size;
    }

    /// Sets the bytes expected in all.
    pub fn set_total_bytes_expected(&mut self, total: u64)
        ensures
            *final(self) == (TaskSharedContext { total_bytes_expected: total, ..*old(self) }),
    {
        self.total_bytes_expected = total;
    }

    /// Counts `additional` more bytes (modulo 2^64, as the atomic counter
    /// adds). With a progress callback, gives the progress to report to it:
    /// the new count and the total, when known.
    pub fn update_progress(&mut self, additional: u64) -> (report: Option<(u64, Option<u64>)>)
        ensures
            *final(self) == (TaskSharedContext {
                bytes_downloaded: wrapping_sum(old(self).bytes_downloaded, additional),
                ..*old(self)
            }),
            report == (if old(self).has_progress_callback {
                Some(final(self).progress())
            } else {
                None
            }),
    {
        let now = self.bytes_downloaded.wrapping_add(additional);
        self.bytes_downloaded = now;
        if self.has_progress_callback {
            Some(self.get_progress())
        } else {
            None
        }
    }

    /// The progress: bytes so far and the total, when known.
    pub fn get_progress(&self) -> (p: (u64, Option<u64>))
        ensures
            p == self.progress(),
    {
        let total = if self.total_bytes_expected > 0 {
            Some(self.total_bytes_expected)
        } else {
            None
        };
        (self.bytes_downloaded, total)
    }

    /// The session reported the response: it is kept, and a positive
    /// expected length becomes the total.
    pub fn on_response(&mut self, response: R, expected_length: i64)
        ensures
            final(self).response == Some(response),
            final(self).total_bytes_expected == (if expected_length > 0 {
                expected_length as u64
            } else {
                old(self).total_bytes_expected
            }),
            final(self).bytes_downloaded == old(self).bytes_downloaded,
            final(self).response_buffer@ == old(self).response_buffer@,
    {
        self.response = Some(response);
        if expected_length > 0 {
            self.set_total_bytes_expected(expected_length as u64);
        }
    }

    /// A data task received data: it is appended when the body stays
    /// within the limit, and then counted; data that does not fit is
    /// dropped. Gives the progress to report, if any.
    pub fn on_data_received(&mut self, data: &[u8]) -> (report: Option<(u64, Option<u64>)>)
        ensures
            old(self).response_buffer@.len() + data@.len() <= old(self).max_response_buffer_size ==> {
                &&& final(self).response_buffer@ == old(self).response_buffer@ + data@
                &&& final(self).bytes_downloaded == wrapping_sum(old(self).bytes_downloaded, data@.len() as u64)
                &&& report == (if old(self).has_progress_callback {
                    Some(final(self).progress())
                } else {
                    None
                })
            },
            old(self).response_buffer@.len() + data@.len() > old(self).max_response_buffer_size ==> {
                &&& final(self).response_buffer@ == old(self).response_buffer@
                &&& final(self).bytes_downloaded == old(self).bytes_downloaded
                &&& report is None
            },
            final(self).total_bytes_expected == old(self).total_bytes_expected,
            final(self).max_response_buffer_size == old(self).max_response_buffer_size,
    {
        match self.append_data(data) {
            Ok(()) => self.update_progress(data.len() as u64),
            Err(_) => None,
        }
    }

    /// A download task wrote data: a positive expected total becomes the
    /// total, and the bytes written beyond those counted (none when fewer)
    /// are counted. Gives the progress to report when there were such
    /// bytes.
    pub fn on_download_progress(&mut self, total_bytes_written: i64, total_bytes_expected: i64) -> (report: Option<(u64, Option<u64>)>)
        ensures
            final(self).total_bytes_expected == (if total_bytes_expected > 0 {
                total_bytes_expected as u64
            } else {
                old(self).total_bytes_expected
            }),
            total_bytes_written as u64 > old(self).bytes_downloaded ==> {
                &&& final(self).bytes_downloaded == total_bytes_written as u64
                &&& report == (if old(self).has_progress_callback {
                    Some(final(self).progress())
                } else {
                    None
                })
            },
            total_bytes_written as u64 <= old(self).bytes_downloaded ==> final(self).bytes_downloaded
                == old(self).bytes_downloaded && report is None,
            final(self).response_buffer@ == old(self).response_buffer@,
    {
        if total_bytes_expected > 0 {
            self.set_total_bytes_expected(total_bytes_expected as u64);
        }
        let written = total_bytes_written as u64;
        let additional = written.saturating_sub(self.bytes_downloaded);
        if additional > 0 {
            self.update_progress(additional)
        } else {
            None
        }
    }

    /// The task completed: with an error it failed, else it succeeded.
    pub fn on_complete(&mut self, error: Option<E>)
        ensures
            final(self).completed,
            final(self).error == (match error {
                Some(e) => Some(e),
                None => old(self).error,
            }),
            final(self).response_buffer@ == old(self).response_buffer@,
            final(self).progress() == old(self).progress(),
    {
        match error {
            Some(e) => self.set_error(e),
            None => self.mark_completed(),
        }
    }
}

} // verus!
