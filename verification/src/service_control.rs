//! The service controller's rules: what the service manager's numbers mean,
//! and which failures count as none.
//!
//! The caller opens the service manager and the service, makes the calls,
//! and hands in what came back.

use vstd::prelude::*;

use crate::domain::prefetch::{ServiceState, StartupMode};

verus! {

/// The name of the service behind the prefetcher.
pub const SERVICE_NAME: &'static str = "SysMain";

/// The service manager's code for a stopped service.
pub const SERVICE_STOPPED: u32 = 1;

/// The service manager's code for a service that is starting.
pub const SERVICE_START_PENDING: u32 = 2;

/// The service manager's code for a service that is stopping.
pub const SERVICE_STOP_PENDING: u32 = 3;

/// The service manager's code for a running service.
pub const SERVICE_RUNNING: u32 = 4;

/// The service manager's code for a paused service.
pub const SERVICE_PAUSED: u32 = 7;

/// The start type of a service that the system starts by itself.
pub const SERVICE_AUTO_START: u32 = 2;

/// The start type of a service that starts on demand.
pub const SERVICE_DEMAND_START: u32 = 3;

/// The start type of a disabled service.
pub const SERVICE_DISABLED: u32 = 4;

/// The error with which the service manager refuses to start a service that
/// runs already.
pub const ERROR_SERVICE_ALREADY_RUNNING: u32 = 1056;

/// How far a query of the service got.
#[derive(Debug, Clone, Copy, PartialEq, Eq, Structural)]
pub enum ServiceQuery {
    /// The service manager could not be opened.
    ManagerUnavailable,
    /// The service could not be opened: not installed, or access denied.
    ServiceUnavailable,
    /// The service was opened and the query failed.
    QueryFailed,
    /// The number that the query gave.
    Value(u32),
}

/// The run state that a native state code stands for; a code not listed
/// here is `Unknown`.
pub open spec fn state_of_code(code: u32) -> ServiceState {
    if code == SERVICE_RUNNING {
        ServiceState::Running
    } else if code == SERVICE_STOPPED {
        ServiceState::Stopped
    } else if code == SERVICE_PAUSED {
        ServiceState::Paused
    } else if code == SERVICE_START_PENDING {
        ServiceState::StartPending
    } else if code == SERVICE_STOP_PENDING {
        ServiceState::StopPending
    } else {
        ServiceState::Unknown
    }
}

pub fn state_from_native(code: u32) -> (state: ServiceState)
    ensures
        state == state_of_code(code),
{
    if code == SERVICE_RUNNING {
        ServiceState::Running
    } else if code == SERVICE_STOPPED {
        ServiceState::Stopped
    } else if code == SERVICE_PAUSED {
        ServiceState::Paused
    } else if code == SERVICE_START_PENDING {
        ServiceState::StartPending
    } else if code == SERVICE_STOP_PENDING {
        ServiceState::StopPending
    } else {
        ServiceState::Unknown
    }
}

/// The startup mode that a native start type stands for; `delayed` is the
/// service's delayed-start flag, which counts for automatic start only.
pub open spec fn startup_of_code(code: u32, delayed: bool) -> StartupMode {
    if code == SERVICE_AUTO_START {
        if delayed {
            StartupMode::AutomaticDelayed
        } else {
            StartupMode::Automatic
        }
    } else if code == SERVICE_DEMAND_START {
        StartupMode::Manual
    } else if code == SERVICE_DISABLED {
        StartupMode::Disabled
    } else {
        StartupMode::Unknown
    }
}

pub fn startup_from_native(code: u32, delayed: bool) -> (mode: StartupMode)
    ensures
        mode == startup_of_code(code, delayed),
{
    if code == SERVICE_AUTO_START {
        if delayed {
            StartupMode::AutomaticDelayed
        } else {
            StartupMode::Automatic
        }
    } else if code == SERVICE_DEMAND_START {
        StartupMode::Manual
    } else if code == SERVICE_DISABLED {
        StartupMode::Disabled
    } else {
        StartupMode::Unknown
    }
}

/// The run state that a status query stands for. A service that cannot be
/// opened is absent, which is a state and no error.
pub open spec fn state_of_query(query: ServiceQuery) -> ServiceState {
    match query {
        ServiceQuery::ManagerUnavailable => ServiceState::NotFound,
        ServiceQuery::ServiceUnavailable => ServiceState::NotFound,
        ServiceQuery::QueryFailed => ServiceState::Unknown,
        ServiceQuery::Value(code) => state_of_code(code),
    }
}

pub fn get_service_state(query: ServiceQuery) -> (state: ServiceState)
    ensures
        state == state_of_query(query),
{
    match query {
        ServiceQuery::ManagerUnavailable => ServiceState::NotFound,
        ServiceQuery::ServiceUnavailable => ServiceState::NotFound,
        ServiceQuery::QueryFailed => ServiceState::Unknown,
        ServiceQuery::Value(code) => state_from_native(code),
    }
}

/// The startup mode that a configuration query stands for; any failure
/// leaves it unknown.
pub open spec fn startup_of_query(query: ServiceQuery, delayed: bool) -> StartupMode {
    match query {
        ServiceQuery::Value(code) => startup_of_code(code, delayed),
        _ => StartupMode::Unknown,
    }
}

pub fn get_startup_mode(query: ServiceQuery, delayed: bool) -> (mode: StartupMode)
    ensures
        mode == startup_of_query(query, delayed),
{
    match query {
        ServiceQuery::Value(code) => startup_from_native(code, delayed),
        _ => StartupMode::Unknown,
    }
}

/// Whether a start request did its work: it returned no error, or the error
/// says that the service runs already.
pub open spec fn start_accepted(error: Option<u32>) -> bool {
    error is None || error == Some(ERROR_SERVICE_ALREADY_RUNNING)
}

#[verifier::when_used_as_spec(start_accepted)]
pub fn start_succeeded(error: Option<u32>) -> (b: bool)
    ensures
        b == start_accepted(error),
{
    match error {
        None => true,
        Some(code) => code == ERROR_SERVICE_ALREADY_RUNNING,
    }
}

/// Only the code for a running service stands for `Running`.
pub proof fn lemma_running_code(code: u32)
    ensures
        state_of_code(code) is Running <==> code == SERVICE_RUNNING,
        state_of_query(ServiceQuery::Value(code)) is Running <==> code == SERVICE_RUNNING,
{
}

} // verus!
