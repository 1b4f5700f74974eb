//! The snapshots that the checking functions hand to a user interface.

use vstd::prelude::*;

use crate::domain::common::Timestamp;

verus! {

/// The recent-files folder and whether tracking is off.
#[derive(Debug, Clone)]
pub struct RecentStatus {
    pub path: String,
    pub is_disabled: bool,
    pub files_count: usize,
    pub oldest_time: Option<Timestamp>,
    pub newest_time: Option<Timestamp>,
}

/// The mathematical value of a [`RecentStatus`].
pub struct RecentStatusView {
    pub path: Seq<char>,
    pub is_disabled: bool,
    pub files_count: usize,
    pub oldest_time: Option<Timestamp>,
    pub newest_time: Option<Timestamp>,
}

impl View for RecentStatus {
    type V = RecentStatusView;

    open spec fn view(&self) -> RecentStatusView {
        RecentStatusView {
            path: self.path@,
            is_disabled: self.is_disabled,
            files_count: self.files_count,
            oldest_time: self.oldest_time,
            newest_time: self.newest_time,
        }
    }
}

/// The SysMain service and the Prefetch folder.
#[derive(Debug, Clone)]
pub struct SysMainStatus {
    pub is_running: bool,
    pub is_auto: bool,
    /// The startup mode, in words.
    pub startup_type: String,
    pub prefetch_path: String,
    pub prefetch_count: usize,
    pub oldest_time: Option<Timestamp>,
    pub newest_time: Option<Timestamp>,
    /// Why the folder could not be read.
    pub prefetch_error: Option<String>,
}

/// The mathematical value of a [`SysMainStatus`].
pub struct SysMainStatusView {
    pub is_running: bool,
    pub is_auto: bool,
    pub startup_type: Seq<char>,
    pub prefetch_path: Seq<char>,
    pub prefetch_count: usize,
    pub oldest_time: Option<Timestamp>,
    pub newest_time: Option<Timestamp>,
    pub prefetch_error: Option<Seq<char>>,
}

impl View for SysMainStatus {
    type V = SysMainStatusView;

    open spec fn view(&self) -> SysMainStatusView {
        SysMainStatusView {
            is_running: self.is_running,
            is_auto: self.is_auto,
            startup_type: self.startup_type@,
            prefetch_path: self.prefetch_path@,
            prefetch_count: self.prefetch_count,
            oldest_time: self.oldest_time,
            newest_time: self.newest_time,
            prefetch_error: match self.prefetch_error {
                Some(e) => Some(e@),
                None => None,
            },
        }
    }
}

/// Whether System Restore is on.
#[derive(Debug, Clone, Copy, PartialEq, Eq, Structural)]
pub struct SystemRestoreStatus {
    pub is_enabled: bool,
}

/// The time as whole seconds since the epoch, as it is written out; a time
/// before the epoch, for which there is no `Timestamp`, is written as 0.
pub open spec fn seconds_of(time: Option<Timestamp>) -> u64 {
    match time {
        Some(t) => t.secs,
        None => 0,
    }
}

pub fn system_time_to_timestamp(time: Option<Timestamp>) -> (secs: u64)
    ensures
        secs == seconds_of(time),
{
    match time {
        Some(t) => t.as_secs(),
        None => 0,
    }
}

} // verus!
