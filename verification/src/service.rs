//! The short form of the three checks and fixes: one snapshot per feature,
//! and for each fix its first decision.
//!
//! Here recent-files tracking counts as off as soon as one of three user
//! settings is off.

use vstd::prelude::*;
use vstd::string::*;

use crate::domain::common::{OperationResult, OperationResultView};
use crate::domain::prefetch::{ServiceState, StartupMode};
use crate::domain::system_restore::SystemRestoreMethod;
use crate::error::{RecentEnablerError, RecentEnablerErrorView};
use crate::registry::{Hive, RegistryWrite, RegistryWriteView};
use crate::domain::common::FileStats;
use crate::domain::error::{AppError, AppErrorView};
use crate::scanner::outcome_of;
use crate::service_control::{
    get_service_state, get_startup_mode, startup_of_query, state_of_query, ServiceQuery,
};
use crate::services::prefetch;
use crate::services::prefetch::{EnableAction, EnableEvent, EnableEventView, EnablePhase};
use crate::services::recent::{EXPLORER_KEY, TRACK_DOCS_KEY};
use crate::services::system_restore;
use crate::services::system_restore::{
    EnableOptions, RestoreAction, RestoreEvent, RestoreEventView, RestorePhase,
};
use crate::status::{
    RecentStatus, RecentStatusView, SysMainStatus, SysMainStatusView, SystemRestoreStatus,
};

verus! {

/// The extension of the shortcut files in the recent-files folder.
pub const SHORTCUT_EXTENSION: &'static str = "lnk";

/// The three user settings, as read from the current user's hive.
#[derive(Debug, Clone, Copy, PartialEq, Eq, Structural)]
pub struct RecentSettings {
    /// `Start_TrackDocs`.
    pub track_docs: Option<u32>,
    /// `ShowRecent`.
    pub show_recent: Option<u32>,
    /// `ShowFrequent`.
    pub show_frequent: Option<u32>,
}

/// Whether tracking counts as off: the tracking switch is 0 or absent, or
/// one of the two display switches is 0. An absent display switch is on.
pub open spec fn recent_disabled(settings: RecentSettings) -> bool {
    ||| settings.track_docs is None
    ||| settings.track_docs == Some(0u32)
    ||| settings.show_recent == Some(0u32)
    ||| settings.show_frequent == Some(0u32)
}

#[verifier::when_used_as_spec(recent_disabled)]
pub fn is_recent_disabled(settings: RecentSettings) -> (disabled: bool)
    ensures
        disabled == recent_disabled(settings),
{
    let track_docs = match settings.track_docs {
        Some(value) => value == 0,
        None => true,
    };
    let show_recent = match settings.show_recent {
        Some(value) => value == 0,
        None => false,
    };
    let show_frequent = match settings.show_frequent {
        Some(value) => value == 0,
        None => false,
    };
    track_docs || show_recent || show_frequent
}

/// The snapshot of recent-files tracking at `path`, or the error where
/// the folder exists and could not be scanned.
pub open spec fn recent_snapshot(
    path: Seq<char>,
    settings: RecentSettings,
    scan: Result<FileStats, AppErrorView>,
) -> Result<RecentStatusView, RecentEnablerErrorView> {
    match scan {
        Ok(stats) => Ok(
            RecentStatusView {
                path,
                is_disabled: recent_disabled(settings),
                files_count: stats.count,
                oldest_time: stats.oldest,
                newest_time: stats.newest,
            },
        ),
        Err(e) => Err(RecentEnablerErrorView::RecentInfoFailed(e.text())),
    }
}

/// The mathematical value of a check's outcome.
pub open spec fn recent_outcome(result: Result<RecentStatus, RecentEnablerError>) -> Result<
    RecentStatusView,
    RecentEnablerErrorView,
> {
    match result {
        Ok(status) => Ok(status@),
        Err(e) => Err(e@),
    }
}

/// Checks recent-files tracking: the folder at `path`, the scan of its
/// shortcut files, and the three user settings.
pub fn check_recent(
    path: &str,
    settings: RecentSettings,
    scan: Result<FileStats, AppError>,
) -> (result: Result<RecentStatus, RecentEnablerError>)
    ensures
        recent_outcome(result) == recent_snapshot(path@, settings, outcome_of(scan)),
{
    match scan {
        Ok(stats) => Ok(
            RecentStatus {
                path: String::from_str(path),
                is_disabled: is_recent_disabled(settings),
                files_count: stats.count,
                oldest_time: stats.oldest,
                newest_time: stats.newest,
            },
        ),
        Err(e) => Err(RecentEnablerError::RecentInfoFailed(e.to_user_string())),
    }
}

pub open spec fn prefetch_denied_text() -> Seq<char> {
    "Нет доступа к папке Prefetch. Запустите программу с правами администратора."@
}

/// What the snapshot says of a scan that failed: that administrator rights
/// are wanted where the folder may not be read, and else the error's text.
pub open spec fn prefetch_error_of(scan: Result<FileStats, AppErrorView>) -> Option<Seq<char>> {
    match scan {
        Ok(_) => None,
        Err(AppErrorView::PermissionDenied(_)) => Some(prefetch_denied_text()),
        Err(e) => Some(RecentEnablerErrorView::PrefetchInfoFailed(e.text()).russian()),
    }
}

/// The snapshot of the SysMain service and of the Prefetch folder at `path`.
/// A folder that cannot be scanned does not fail the check: the snapshot
/// counts no files and says why.
pub open spec fn sysmain_snapshot(
    state: ServiceQuery,
    startup: ServiceQuery,
    path: Seq<char>,
    scan: Result<FileStats, AppErrorView>,
) -> SysMainStatusView {
    let mode = startup_of_query(startup, false);
    let stats = match scan {
        Ok(stats) => stats,
        Err(_) => FileStats { count: 0, oldest: None, newest: None },
    };
    SysMainStatusView {
        is_running: state_of_query(state) == ServiceState::Running,
        is_auto: mode.auto(),
        startup_type: mode.label(),
        prefetch_path: path,
        prefetch_count: stats.count,
        oldest_time: stats.oldest,
        newest_time: stats.newest,
        prefetch_error: prefetch_error_of(scan),
    }
}

/// Checks the SysMain service and the Prefetch folder.
pub fn check_sysmain(
    state: ServiceQuery,
    startup: ServiceQuery,
    path: &str,
    scan: Result<FileStats, AppError>,
) -> (status: SysMainStatus)
    ensures
        status@ == sysmain_snapshot(state, startup, path@, outcome_of(scan)),
{
    let mode = get_startup_mode(startup, false);
    let (stats, prefetch_error) = match scan {
        Ok(stats) => (stats, None),
        Err(AppError::PermissionDenied(_)) => (
            FileStats::empty(),
            Some(
                String::from_str(
                    "Нет доступа к папке Prefetch. Запустите программу с правами администратора.",
                ),
            ),
        ),
        Err(e) => (
            FileStats::empty(),
            Some(RecentEnablerError::PrefetchInfoFailed(e.to_user_string()).to_russian()),
        ),
    };
    SysMainStatus {
        is_running: matches!(get_service_state(state), ServiceState::Running),
        is_auto: mode.is_auto(),
        startup_type: String::from_str(mode.as_str()),
        prefetch_path: String::from_str(path),
        prefetch_count: stats.count,
        oldest_time: stats.oldest,
        newest_time: stats.newest,
        prefetch_error,
    }
}

/// Whether System Restore is on, by the session interval alone: on exactly
/// when it is 1. A key or value that cannot be read counts as off.
pub open spec fn restore_enabled(session_interval: Option<u32>) -> bool {
    session_interval == Some(1u32)
}

#[verifier::when_used_as_spec(restore_enabled)]
pub fn get_system_restore_info(session_interval: Option<u32>) -> (enabled: bool)
    ensures
        enabled == restore_enabled(session_interval),
{
    match session_interval {
        Some(value) => value == 1,
        None => false,
    }
}

/// Checks System Restore.
pub fn check_system_restore(session_interval: Option<u32>) -> (status: SystemRestoreStatus)
    ensures
        status.is_enabled == restore_enabled(session_interval),
{
    SystemRestoreStatus { is_enabled: get_system_restore_info(session_interval) }
}

/// The three writes that switch tracking on, all in the current user's
/// hive: the tracking switch, then the two display switches.
pub open spec fn recent_writes() -> Seq<RegistryWriteView> {
    seq![
        RegistryWriteView {
            hive: Hive::CurrentUser,
            key: TRACK_DOCS_KEY@,
            value: "Start_TrackDocs"@,
            data: 1,
        },
        RegistryWriteView {
            hive: Hive::CurrentUser,
            key: EXPLORER_KEY@,
            value: "ShowRecent"@,
            data: 1,
        },
        RegistryWriteView {
            hive: Hive::CurrentUser,
            key: EXPLORER_KEY@,
            value: "ShowFrequent"@,
            data: 1,
        },
    ]
}

fn user_write(key: &str, value: &str) -> (write: RegistryWrite)
    ensures
        write@ == (RegistryWriteView {
            hive: Hive::CurrentUser,
            key: key@,
            value: value@,
            data: 1,
        }),
{
    RegistryWrite {
        hive: Hive::CurrentUser,
        key: String::from_str(key),
        value: String::from_str(value),
        data: 1,
    }
}

/// What is to be done to switch tracking on.
#[derive(Debug, Clone)]
pub enum RecentFix {
    /// Nothing: tracking is on already, which is a success.
    NothingToDo(OperationResult),
    /// These writes, in this order.
    Write(Vec<RegistryWrite>),
}

/// The mathematical value of a [`RecentFix`].
pub enum RecentFixView {
    NothingToDo(OperationResultView),
    Write(Seq<RegistryWriteView>),
}

impl View for RecentFix {
    type V = RecentFixView;

    open spec fn view(&self) -> RecentFixView {
        match self {
            RecentFix::NothingToDo(result) => RecentFixView::NothingToDo(result@),
            RecentFix::Write(writes) => RecentFixView::Write(writes.deep_view()),
        }
    }
}

/// The fix for recent-files tracking: the three writes where tracking
/// counts as off, and otherwise a success that leaves everything as it is.
pub open spec fn recent_fix(settings: RecentSettings) -> RecentFixView {
    if recent_disabled(settings) {
        RecentFixView::Write(recent_writes())
    } else {
        RecentFixView::NothingToDo(
            OperationResultView::succeeded(RecentEnablerErrorView::RecentAlreadyEnabled.english()),
        )
    }
}

/// Decides the fix for recent-files tracking.
pub fn enable_recent(settings: RecentSettings) -> (fix: RecentFix)
    ensures
        fix@ == recent_fix(settings),
{
    if !is_recent_disabled(settings) {
        let message = RecentEnablerError::RecentAlreadyEnabled.message();
        return RecentFix::NothingToDo(OperationResult::success(message.as_str()));
    }
    let mut writes: Vec<RegistryWrite> = Vec::new();
    writes.push(user_write(TRACK_DOCS_KEY, "Start_TrackDocs"));
    writes.push(user_write(EXPLORER_KEY, "ShowRecent"));
    writes.push(user_write(EXPLORER_KEY, "ShowFrequent"));
    assert(writes.deep_view() =~= recent_writes());
    RecentFix::Write(writes)
}

/// Begins enabling the SysMain service, with the rights of the process and
/// the state of the service as last read: the first step of the sequence in
/// [`crate::services::prefetch`].
pub fn enable_sysmain(is_admin: bool, state: ServiceState, startup: StartupMode) -> (next: (
    EnablePhase,
    EnableAction,
))
    ensures
        (next.0, next.1@) == prefetch::transition(
            EnablePhase::Idle,
            EnableEventView::Requested { is_admin, state, startup },
        ),
{
    prefetch::enable(EnablePhase::Idle, EnableEvent::Requested { is_admin, state, startup })
}

/// Begins switching System Restore on for `drive`, with the rights of the
/// process, the methods that can be used and what is to follow: the first
/// step of the sequence in [`crate::services::system_restore`].
pub fn enable_system_restore(
    is_admin: bool,
    drive: &str,
    methods: Vec<SystemRestoreMethod>,
    options: EnableOptions,
) -> (next: (RestorePhase, RestoreAction))
    ensures
        (next.0, next.1@) == system_restore::transition(
            RestorePhase::Idle,
            RestoreEventView::Requested { is_admin, drive: drive@, methods: methods@, options },
        ),
{
    system_restore::enable(
        RestorePhase::Idle,
        RestoreEvent::Requested { is_admin, drive: String::from_str(drive), methods, options },
    )
}

/// Without administrator rights neither the service nor System Restore is
/// touched, whatever their state: each request ends at once in a failure
/// that asks for the rights.
pub proof fn lemma_fixes_need_admin(
    state: ServiceState,
    startup: StartupMode,
    drive: Seq<char>,
    methods: Seq<SystemRestoreMethod>,
    options: EnableOptions,
)
    ensures
        ({
            let next = prefetch::transition(
                EnablePhase::Idle,
                EnableEventView::Requested { is_admin: false, state, startup },
            );
            &&& next.0 == EnablePhase::Done
            &&& next.1 is Finish
            &&& !next.1->Finish_0.success
            &&& next.1->Finish_0.requires_admin
        }),
        ({
            let next = system_restore::transition(
                RestorePhase::Idle,
                RestoreEventView::Requested { is_admin: false, drive, methods, options },
            );
            &&& next.0 == RestorePhase::Done
            &&& next.1 is Finish
            &&& !next.1->Finish_0.success
            &&& next.1->Finish_0.requires_admin
        }),
{
}

} // verus!
