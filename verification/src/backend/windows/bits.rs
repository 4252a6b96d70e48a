//! Reading the state of a BITS transfer job.

use vstd::prelude::*;
use vstd::string::*;
use crate::error::Error;

verus! {

/// What a poll of a BITS job decides.
pub enum BitsStep {
    /// Complete the job and read the bytes transferred (state 4,
    /// transferred)
    Complete,
    /// Done, nothing transferred to report (state 5, acknowledged)
    Done,
    /// The job failed with this error (6, cancelled; 7, error)
    Fail(Error),
    /// Poll again later (any other state)
    Wait,
}

/// What a poll decides for the job state number.
pub fn bits_step(state: i32) -> (step: BitsStep)
    ensures
        state == 4 ==> step is Complete,
        state == 5 ==> step is Done,
        state == 6 ==> (step matches BitsStep::Fail(Error::Internal(m)) && m@ == "BITS job was cancelled"@),
        state == 7 ==> (step matches BitsStep::Fail(Error::Internal(m)) && m@ == "BITS job failed: BITS job failed with error"@),
        !(4 <= state <= 7) ==> step is Wait,
{
    match state {
        4 => BitsStep::Complete,
        5 => BitsStep::Done,
        6 => BitsStep::Fail(Error::Internal(String::from_str("BITS job was cancelled"))),
        7 => BitsStep::Fail(Error::Internal(String::from_str("BITS job failed: BITS job failed with error"))),
        _ => BitsStep::Wait,
    }
}

/// Whether progress monitoring stops: once the job is transferred or
/// beyond (state 4 and up).
pub fn monitor_stops(state: i32) -> (stop: bool)
    ensures
        stop == (state >= 4),
{
    state >= 4
}

/// The total of a job's progress: unknown when BITS reports the largest
/// 64-bit value.
pub fn progress_total(bytes_total: u64) -> (total: Option<u64>)
    ensures
        total == (if bytes_total == u64::MAX { None } else { Some(bytes_total) }),
{
    if bytes_total == u64::MAX {
        None
    } else {
        Some(bytes_total)
    }
}

} // verus!
