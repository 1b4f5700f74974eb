//! The values that the checkers produce and consume.

pub mod common;
pub mod error;
pub mod prefetch;
pub mod recent;
pub mod system_restore;

pub use common::{FeatureAction, FileStats, OperationResult, OperationResultView, Timestamp};
pub use error::{AppError, AppErrorView};
pub use prefetch::{
    PrefetchInfo, PrefetchInfoView, PrefetcherMode, ServiceState, ServiceStatus, StartupMode,
    StartupType, SysMainInfo, SysMainInfoView,
};
pub use recent::{
    CheckSeverity, RecentCheck, RecentCheckResult, RecentCheckResultView, RecentInfo,
    RecentStatus, RecentStatusView, RegistryCheck, RegistryCheckView, RegistryLocation,
};
pub use system_restore::{
    RestoreEventType, RestorePointType, SystemRestoreDriveStatus, SystemRestoreDriveStatusView,
    SystemRestoreInfo, SystemRestoreInfoView, SystemRestoreMethod,
};
