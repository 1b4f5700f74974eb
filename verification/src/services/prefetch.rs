//! The SysMain checker: the combined state of the service, the prefetcher
//! settings and the Prefetch folder, and the steps that enable the service.

use vstd::prelude::*;
use vstd::string::*;

use crate::domain::common::{FileStats, OperationResult, OperationResultView};
use crate::domain::error::{AppError, AppErrorView};
use crate::domain::prefetch::{
    PrefetchInfo, PrefetchInfoView, PrefetcherMode, ServiceState, StartupMode, SysMainInfo,
    SysMainInfoView,
};
use crate::scanner::outcome_of;
use crate::service_control::{
    get_service_state, get_startup_mode, start_accepted, start_succeeded, startup_of_query,
    state_of_query, ServiceQuery,
};
use crate::text::{decimal, decimal_string};

verus! {

/// The extension of the prefetcher's trace files.
pub const TRACE_EXTENSION: &'static str = "pf";

/// The key that holds the prefetcher settings, below the machine-wide hive.
pub const PREFETCH_PARAMETERS_KEY: &'static str =
    "SYSTEM\\CurrentControlSet\\Control\\Session Manager\\Memory Management\\PrefetchParameters";

/// The prefetcher mode that a registry reading stands for; an absent value
/// counts as disabled.
pub open spec fn mode_of(reading: Option<u32>) -> PrefetcherMode {
    match reading {
        Some(value) => PrefetcherMode::of_value(value),
        None => PrefetcherMode::Disabled,
    }
}

pub fn prefetcher_mode(reading: Option<u32>) -> (mode: PrefetcherMode)
    ensures
        mode == mode_of(reading),
{
    match reading {
        Some(value) => PrefetcherMode::from_registry_value(value),
        None => PrefetcherMode::Disabled,
    }
}

/// What is reported of the folder at `path` after a scan. A folder that may
/// not be read is told apart from an empty one: it is not accessible, asks
/// for administrator rights, and carries the system's message. Any other
/// failure carries the error's text.
pub open spec fn folder_of(
    path: Seq<char>,
    scan: Result<FileStats, AppErrorView>,
) -> PrefetchInfoView {
    match scan {
        Ok(files) => PrefetchInfoView {
            path,
            files,
            accessible: true,
            requires_admin: false,
            error: None,
        },
        Err(AppErrorView::PermissionDenied(message)) => PrefetchInfoView {
            path,
            files: FileStats { count: 0, oldest: None, newest: None },
            accessible: false,
            requires_admin: true,
            error: Some(message),
        },
        Err(e) => PrefetchInfoView {
            path,
            files: FileStats { count: 0, oldest: None, newest: None },
            accessible: false,
            requires_admin: false,
            error: Some(e.text()),
        },
    }
}

/// Reports the Prefetch folder at `path` from the scan of its trace files.
pub fn folder_info(path: &str, scan: Result<FileStats, AppError>) -> (info: PrefetchInfo)
    ensures
        info@ == folder_of(path@, outcome_of(scan)),
{
    match scan {
        Ok(files) => PrefetchInfo {
            path: String::from_str(path),
            files,
            accessible: true,
            requires_admin: false,
            error: None,
        },
        Err(AppError::PermissionDenied(message)) => PrefetchInfo {
            path: String::from_str(path),
            files: FileStats::empty(),
            accessible: false,
            requires_admin: true,
            error: Some(message),
        },
        Err(e) => PrefetchInfo {
            path: String::from_str(path),
            files: FileStats::empty(),
            accessible: false,
            requires_admin: false,
            error: Some(e.to_user_string()),
        },
    }
}

/// What the checker learned from the system, before it is interpreted.
#[derive(Debug)]
pub struct SysMainReadings {
    /// The query of the service's run state.
    pub state: ServiceQuery,
    /// The query of the service's start type.
    pub startup: ServiceQuery,
    /// The service's delayed-start flag.
    pub delayed_start: bool,
    /// The `EnablePrefetcher` value.
    pub prefetcher: Option<u32>,
    /// The `EnableSuperfetch` value.
    pub superfetch: Option<u32>,
    /// The scan of the Prefetch folder for trace files.
    pub scan: Result<FileStats, AppError>,
}

/// Puts together the state of the service, the prefetcher settings and the
/// Prefetch folder at `path`.
pub fn get_info(path: &str, readings: SysMainReadings) -> (info: SysMainInfo)
    ensures
        info@ == (SysMainInfoView {
            service_state: state_of_query(readings.state),
            startup_mode: startup_of_query(readings.startup, readings.delayed_start),
            prefetcher_mode: mode_of(readings.prefetcher),
            superfetch_mode: mode_of(readings.superfetch),
            prefetch_info: folder_of(path@, outcome_of(readings.scan)),
        }),
{
    SysMainInfo {
        service_state: get_service_state(readings.state),
        startup_mode: get_startup_mode(readings.startup, readings.delayed_start),
        prefetcher_mode: prefetcher_mode(readings.prefetcher),
        superfetch_mode: prefetcher_mode(readings.superfetch),
        prefetch_info: folder_info(path, readings.scan),
    }
}

/// Where enabling the service stands.
#[derive(Debug, Clone, Copy, PartialEq, Eq, Structural)]
pub enum EnablePhase {
    /// Nothing has been asked yet.
    Idle,
    /// The change to automatic start has been asked for.
    Configuring,
    /// The start of the service has been asked for.
    Starting,
    /// A result has been given.
    Done,
}

/// What the caller reports back.
#[derive(Debug, Clone)]
pub enum EnableEvent {
    /// Enabling is asked for, with the rights of the process and the state
    /// of the service as last read.
    Requested { is_admin: bool, state: ServiceState, startup: StartupMode },
    /// The change to automatic start was tried; the error's message if it
    /// failed.
    Configured { error: Option<String> },
    /// The start was tried; the system's error code if it
    /// failed.
    StartAttempted { code: Option<u32> },
}

/// The mathematical value of an [`EnableEvent`].
pub enum EnableEventView {
    Requested { is_admin: bool, state: ServiceState, startup: StartupMode },
    Configured { error: Option<Seq<char>> },
    StartAttempted { code: Option<u32> },
}

impl View for EnableEvent {
    type V = EnableEventView;

    open spec fn view(&self) -> EnableEventView {
        match self {
            EnableEvent::Requested { is_admin, state, startup } => EnableEventView::Requested {
                is_admin: *is_admin,
                state: *state,
                startup: *startup,
            },
            EnableEvent::Configured { error } => EnableEventView::Configured {
                error: match error {
                    Some(e) => Some(e@),
                    None => None,
                },
            },
            EnableEvent::StartAttempted { code } => EnableEventView::StartAttempted {
                code: *code,
            },
        }
    }
}

/// What the caller is to do next.
#[derive(Debug, Clone)]
pub enum EnableAction {
    /// Set the service's start type to automatic, leaving the rest of its
    /// configuration as it is.
    SetAutoStart,
    /// Start the service.
    StartService,
    /// Stop and show this result.
    Finish(OperationResult),
}

/// The mathematical value of an [`EnableAction`].
pub enum EnableActionView {
    SetAutoStart,
    StartService,
    Finish(OperationResultView),
}

impl View for EnableAction {
    type V = EnableActionView;

    open spec fn view(&self) -> EnableActionView {
        match self {
            EnableAction::SetAutoStart => EnableActionView::SetAutoStart,
            EnableAction::StartService => EnableActionView::StartService,
            EnableAction::Finish(result) => EnableActionView::Finish(result@),
        }
    }
}

pub open spec fn admin_required_text() -> Seq<char> {
    "Administrator privileges required to enable SysMain service"@
}

pub open spec fn already_enabled_text() -> Seq<char> {
    "SysMain service is already running and set to automatic"@
}

pub open spec fn enabled_text() -> Seq<char> {
    "Service enabled and started"@
}

pub open spec fn config_failed_text(error: Seq<char>) -> Seq<char> {
    "Failed to enable SysMain service: "@ + error
}

pub open spec fn start_failed_text(code: u32) -> Seq<char> {
    "Failed to start SysMain service: error "@ + decimal(code as nat)
}

pub open spec fn out_of_turn_text() -> Seq<char> {
    "Unexpected step while enabling SysMain service"@
}

/// The rule of the enable sequence: the next phase and the action that
/// follow from a phase and an event.
///
/// A request is refused without administrator rights, before anything else
/// is looked at. A service that runs and starts by itself is left alone.
/// Otherwise the start type is changed, and only after that succeeded is
/// the service started; a start refused because the service runs already
/// counts as done. An event that does not belong to the phase ends the
/// sequence with a failure.
pub open spec fn transition(phase: EnablePhase, event: EnableEventView) -> (
    EnablePhase,
    EnableActionView,
) {
    match (phase, event) {
        (EnablePhase::Idle, EnableEventView::Requested { is_admin, state, startup }) => {
            if !is_admin {
                (
                    EnablePhase::Done,
                    EnableActionView::Finish(
                        OperationResultView::needs_admin(admin_required_text()),
                    ),
                )
            } else if state.running() && startup.auto() {
                (
                    EnablePhase::Done,
                    EnableActionView::Finish(
                        OperationResultView::succeeded(already_enabled_text()),
                    ),
                )
            } else {
                (EnablePhase::Configuring, EnableActionView::SetAutoStart)
            }
        },
        (EnablePhase::Configuring, EnableEventView::Configured { error }) => match error {
            None => (EnablePhase::Starting, EnableActionView::StartService),
            Some(e) => (
                EnablePhase::Done,
                EnableActionView::Finish(OperationResultView::failed(config_failed_text(e))),
            ),
        },
        (EnablePhase::Starting, EnableEventView::StartAttempted { code }) => {
            if start_accepted(code) {
                (
                    EnablePhase::Done,
                    EnableActionView::Finish(OperationResultView::succeeded(enabled_text())),
                )
            } else {
                (
                    EnablePhase::Done,
                    EnableActionView::Finish(
                        OperationResultView::failed(start_failed_text(code->0)),
                    ),
                )
            }
        },
        _ => (
            EnablePhase::Done,
            EnableActionView::Finish(OperationResultView::failed(out_of_turn_text())),
        ),
    }
}

/// One step of enabling the service: takes the phase and what the caller
/// reports, and gives the next phase and what the caller is to do.
pub fn enable(phase: EnablePhase, event: EnableEvent) -> (next: (EnablePhase, EnableAction))
    ensures
        (next.0, next.1@) == transition(phase, event@),
{
    match (phase, event) {
        (EnablePhase::Idle, EnableEvent::Requested { is_admin, state, startup }) => {
            if !is_admin {
                (
                    EnablePhase::Done,
                    EnableAction::Finish(
                        OperationResult::failure(
                            "Administrator privileges required to enable SysMain service",
                        ).requires_admin(),
                    ),
                )
            } else if state.is_running() && startup.is_auto() {
                (
                    EnablePhase::Done,
                    EnableAction::Finish(
                        OperationResult::success(
                            "SysMain service is already running and set to automatic",
                        ),
                    ),
                )
            } else {
                (EnablePhase::Configuring, EnableAction::SetAutoStart)
            }
        },
        (EnablePhase::Configuring, EnableEvent::Configured { error }) => match error {
            None => (EnablePhase::Starting, EnableAction::StartService),
            Some(e) => {
                let message = String::from_str("Failed to enable SysMain service: ").concat(
                    e.as_str(),
                );
                (
                    EnablePhase::Done,
                    EnableAction::Finish(OperationResult::failure(message.as_str())),
                )
            },
        },
        (EnablePhase::Starting, EnableEvent::StartAttempted { code }) => {
            match code {
                Some(number) if !start_succeeded(code) => {
                    let message = String::from_str("Failed to start SysMain service: error ").concat(
                        decimal_string(number as u64).as_str(),
                    );
                    (
                        EnablePhase::Done,
                        EnableAction::Finish(OperationResult::failure(message.as_str())),
                    )
                },
                _ => (
                    EnablePhase::Done,
                    EnableAction::Finish(OperationResult::success("Service enabled and started")),
                ),
            }
        },
        _ => (
            EnablePhase::Done,
            EnableAction::Finish(
                OperationResult::failure("Unexpected step while enabling SysMain service"),
            ),
        ),
    }
}

/// Without administrator rights a request always ends at once, with a
/// failure that asks for them; neither the configuration change nor the
/// start is asked for.
pub proof fn lemma_enable_requires_admin(state: ServiceState, startup: StartupMode)
    ensures
        ({
            let next = transition(
                EnablePhase::Idle,
                EnableEventView::Requested { is_admin: false, state, startup },
            );
            &&& next.0 == EnablePhase::Done
            &&& next.1 is Finish
            &&& !next.1->Finish_0.success
            &&& next.1->Finish_0.requires_admin
        }),
{
}

/// Enabling a service that runs and starts by itself changes nothing: the
/// request ends at once with a success, and neither the configuration change
/// nor the start is asked for.
pub proof fn lemma_enable_is_idempotent(state: ServiceState, startup: StartupMode)
    requires
        state.running(),
        startup.auto(),
    ensures
        transition(
            EnablePhase::Idle,
            EnableEventView::Requested { is_admin: true, state, startup },
        ) == (
            EnablePhase::Done,
            EnableActionView::Finish(OperationResultView::succeeded(already_enabled_text())),
        ),
{
}

/// The service is touched only in turn: the start type is changed only on
/// an administrator's request for a service that needs it, and the service
/// is started only after that change succeeded.
pub proof fn lemma_enable_order(phase: EnablePhase, event: EnableEventView)
    ensures
        transition(phase, event).1 is SetAutoStart ==> {
            &&& phase == EnablePhase::Idle
            &&& event is Requested
            &&& event->is_admin
            &&& !(event->state.running() && event->startup.auto())
        },
        transition(phase, event).1 is StartService ==> {
            &&& phase == EnablePhase::Configuring
            &&& event == (EnableEventView::Configured { error: None })
        },
        transition(phase, event).1 is Finish <==> transition(phase, event).0 == EnablePhase::Done,
{
}

/// A start that the system refuses because the service runs already ends
/// the sequence with a success.
pub proof fn lemma_already_running_is_success()
    ensures
        transition(
            EnablePhase::Starting,
            EnableEventView::StartAttempted {
                code: Some(crate::service_control::ERROR_SERVICE_ALREADY_RUNNING),
            },
        ) == (
            EnablePhase::Done,
            EnableActionView::Finish(OperationResultView::succeeded(enabled_text())),
        ),
{
}

} // verus!
