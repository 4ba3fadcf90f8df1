pub mod config;
pub mod metrics;
pub mod poller;
pub mod util;

use vstd::prelude::*;
use vstd::string::StringExecFns;

verus! {

/// Lifecycle status of a torrent on a transmission instance.
///
/// Only a torrent in the `Seeding` state is ever eligible for deletion.
#[derive(Clone, Copy, Debug, PartialEq, Eq, Structural)]
pub enum TorrentStatus {
    Stopped,
    QueuedToVerify,
    Verifying,
    QueuedToDownload,
    Downloading,
    QueuedToSeed,
    Seeding,
}

/// Error state reported by the instance for one torrent.
#[derive(Clone, Copy, Debug, PartialEq, Eq, Structural)]
pub enum ErrorType {
    NoError,
    TrackerWarning,
    TrackerError,
    LocalError,
}

/// A representation of a torrent on a transmission instance: one tick's
/// immutable snapshot of the attributes that the deletion policies read.
///
/// Ratios are held in thousandths of the real ratio (a ratio of 1.5 is
/// stored as 1500), so that the matching rules are exact integer
/// comparisons. Timestamps are seconds since the Unix epoch; a completion
/// timestamp of `Some(0)` is the instance's well-known sentinel for
/// "never completed", distinct from `None` (field absent).
#[derive(Clone, Debug, PartialEq)]
pub struct Torrent {
    pub id: i64,
    pub hash: String,
    pub name: String,
    /// Completion timestamp in seconds since the epoch, if reported.
    pub done_date: Option<i64>,
    pub error: ErrorType,
    pub error_string: String,
    /// Upload ratio as reported by the instance, in thousandths.
    /// Negative values are anomalous reports.
    pub upload_ratio: i64,
    /// Upload ratio recomputed from bytes uploaded over total size,
    /// in thousandths; the fallback when the reported ratio is negative.
    pub computed_upload_ratio: i64,
    pub status: TorrentStatus,
    pub num_files: usize,
    pub total_size: usize,
    /// Announce URLs of the torrent's trackers.
    pub trackers: Vec<String>,
}

impl Torrent {
    /// Returns true if the torrent has no error status.
    pub fn is_ok(&self) -> (r: bool)
        ensures
            r == (self.error is NoError),
    {
        self.error == ErrorType::NoError
    }
}

/// The upload ratio `uploaded / total_size`, in thousandths, rounded
/// towards zero and saturated at `i64::MAX`. A total size of zero yields
/// zero for an idle torrent and the saturated maximum otherwise, so that
/// an empty torrent that uploaded data still counts as fully ratioed.
pub open spec fn spec_ratio_thousandths(uploaded: int, total_size: int) -> int {
    if total_size == 0 {
        if uploaded == 0 {
            0
        } else {
            i64::MAX as int
        }
    } else if uploaded * 1000 / total_size > i64::MAX as int {
        i64::MAX as int
    } else {
        uploaded * 1000 / total_size
    }
}

/// Computes the upload ratio of `uploaded` bytes against a torrent of
/// `total_size` bytes, in thousandths.
pub fn ratio_thousandths(uploaded: u64, total_size: u64) -> (r: i64)
    ensures
        r == spec_ratio_thousandths(uploaded as int, total_size as int),
{
    if total_size == 0 {
        if uploaded == 0 {
            0
        } else {
            i64::MAX
        }
    } else {
        let q: u128 = (uploaded as u128) * 1000 / (total_size as u128);
        if q > i64::MAX as u128 {
            i64::MAX
        } else {
            q as i64
        }
    }
}

/// Unwraps one optional attribute of a fetched torrent, reporting the
/// attribute's name when the instance did not send it.
pub fn ensure_field<T>(field: Option<T>, name: &str) -> (r: Result<T, String>)
    ensures
        field matches Some(v) ==> r == Result::<T, String>::Ok(v),
        field is None ==> (r matches Err(m) && m@ == "torrent has no field \""@ + name@ + "\""@),
{
    match field {
        Some(v) => Ok(v),
        None => Err("torrent has no field \"".to_owned().concat(name).concat("\"")),
    }
}

} // verus!
