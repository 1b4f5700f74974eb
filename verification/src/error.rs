//! The errors of the checking and enabling functions, with their texts in
//! English and in Russian.

use vstd::prelude::*;
use vstd::string::*;

verus! {

/// What can go wrong while a feature is checked or enabled. Where the system
/// gave a reason, the variant carries it.
#[derive(Debug, Clone)]
pub enum RecentEnablerError {
    /// The recent-files folder could not be located.
    RecentFolderNotFound(String),
    /// The recent-files folder could not be scanned.
    RecentInfoFailed(String),
    /// The recent-files settings could not be read.
    RecentRegistryReadFailed(String),
    /// Recent-files tracking could not be switched on.
    RecentEnableFailed(String),
    /// Recent-files tracking is on already.
    RecentAlreadyEnabled,
    /// The Prefetch folder could not be located.
    PrefetchFolderNotFound(String),
    /// The Prefetch folder could not be scanned.
    PrefetchInfoFailed(String),
    /// The service manager could not be opened.
    ServiceManagerOpenFailed(String),
    /// The SysMain service could not be opened.
    SysMainServiceNotFound(String),
    /// The run state of the service could not be read.
    SysMainStatusQueryFailed(String),
    /// The configuration of the service could not be read.
    SysMainConfigQueryFailed(String),
    /// The service could not be configured or started.
    SysMainEnableFailed(String),
    /// The service runs and starts by itself already.
    SysMainAlreadyEnabled,
    /// Enabling the service takes administrator rights.
    SysMainRequiresAdmin,
    /// The state of System Restore could not be read.
    SystemRestoreCheckFailed(String),
    /// System Restore could not be switched on.
    SystemRestoreEnableFailed(String),
    /// Enabling System Restore takes administrator rights.
    SystemRestoreRequiresAdmin,
    /// System Restore is on already.
    SystemRestoreAlreadyEnabled,
    /// The Windows folder could not be located.
    WindowsPathNotFound(String),
    /// A folder could not be listed.
    DirectoryReadFailed(String),
    /// A registry value could not be read.
    RegistryReadFailed(String),
    /// A registry value could not be written.
    RegistryWriteFailed(String),
}

/// The mathematical value of a [`RecentEnablerError`].
pub enum RecentEnablerErrorView {
    RecentFolderNotFound(Seq<char>),
    RecentInfoFailed(Seq<char>),
    RecentRegistryReadFailed(Seq<char>),
    RecentEnableFailed(Seq<char>),
    RecentAlreadyEnabled,
    PrefetchFolderNotFound(Seq<char>),
    PrefetchInfoFailed(Seq<char>),
    ServiceManagerOpenFailed(Seq<char>),
    SysMainServiceNotFound(Seq<char>),
    SysMainStatusQueryFailed(Seq<char>),
    SysMainConfigQueryFailed(Seq<char>),
    SysMainEnableFailed(Seq<char>),
    SysMainAlreadyEnabled,
    SysMainRequiresAdmin,
    SystemRestoreCheckFailed(Seq<char>),
    SystemRestoreEnableFailed(Seq<char>),
    SystemRestoreRequiresAdmin,
    SystemRestoreAlreadyEnabled,
    WindowsPathNotFound(Seq<char>),
    DirectoryReadFailed(Seq<char>),
    RegistryReadFailed(Seq<char>),
    RegistryWriteFailed(Seq<char>),
}

impl View for RecentEnablerError {
    type V = RecentEnablerErrorView;

    open spec fn view(&self) -> RecentEnablerErrorView {
        match self {
            RecentEnablerError::RecentFolderNotFound(e) => {
                RecentEnablerErrorView::RecentFolderNotFound(e@)
            },
            RecentEnablerError::RecentInfoFailed(e) => RecentEnablerErrorView::RecentInfoFailed(e@),
            RecentEnablerError::RecentRegistryReadFailed(e) => {
                RecentEnablerErrorView::RecentRegistryReadFailed(e@)
            },
            RecentEnablerError::RecentEnableFailed(e) => {
                RecentEnablerErrorView::RecentEnableFailed(e@)
            },
            RecentEnablerError::RecentAlreadyEnabled => {
                RecentEnablerErrorView::RecentAlreadyEnabled
            },
            RecentEnablerError::PrefetchFolderNotFound(e) => {
                RecentEnablerErrorView::PrefetchFolderNotFound(e@)
            },
            RecentEnablerError::PrefetchInfoFailed(e) => {
                RecentEnablerErrorView::PrefetchInfoFailed(e@)
            },
            RecentEnablerError::ServiceManagerOpenFailed(e) => {
                RecentEnablerErrorView::ServiceManagerOpenFailed(e@)
            },
            RecentEnablerError::SysMainServiceNotFound(e) => {
                RecentEnablerErrorView::SysMainServiceNotFound(e@)
            },
            RecentEnablerError::SysMainStatusQueryFailed(e) => {
                RecentEnablerErrorView::SysMainStatusQueryFailed(e@)
            },
            RecentEnablerError::SysMainConfigQueryFailed(e) => {
                RecentEnablerErrorView::SysMainConfigQueryFailed(e@)
            },
            RecentEnablerError::SysMainEnableFailed(e) => {
                RecentEnablerErrorView::SysMainEnableFailed(e@)
            },
            RecentEnablerError::SysMainAlreadyEnabled => {
                RecentEnablerErrorView::SysMainAlreadyEnabled
            },
            RecentEnablerError::SysMainRequiresAdmin => {
                RecentEnablerErrorView::SysMainRequiresAdmin
            },
            RecentEnablerError::SystemRestoreCheckFailed(e) => {
                RecentEnablerErrorView::SystemRestoreCheckFailed(e@)
            },
            RecentEnablerError::SystemRestoreEnableFailed(e) => {
                RecentEnablerErrorView::SystemRestoreEnableFailed(e@)
            },
            RecentEnablerError::SystemRestoreRequiresAdmin => {
                RecentEnablerErrorView::SystemRestoreRequiresAdmin
            },
            RecentEnablerError::SystemRestoreAlreadyEnabled => {
                RecentEnablerErrorView::SystemRestoreAlreadyEnabled
            },
            RecentEnablerError::WindowsPathNotFound(e) => {
                RecentEnablerErrorView::WindowsPathNotFound(e@)
            },
            RecentEnablerError::DirectoryReadFailed(e) => {
                RecentEnablerErrorView::DirectoryReadFailed(e@)
            },
            RecentEnablerError::RegistryReadFailed(e) => {
                RecentEnablerErrorView::RegistryReadFailed(e@)
            },
            RecentEnablerError::RegistryWriteFailed(e) => {
                RecentEnablerErrorView::RegistryWriteFailed(e@)
            },
        }
    }
}

impl RecentEnablerErrorView {
    /// The error in English: what failed, and the reason where one is
    /// carried.
    pub open spec fn english(&self) -> Seq<char> {
        match self {
            RecentEnablerErrorView::RecentFolderNotFound(e) => {
                "Failed to get Recent folder path: "@ + *e
            },
            RecentEnablerErrorView::RecentInfoFailed(e) => {
                "Failed to read Recent folder statistics: "@ + *e
            },
            RecentEnablerErrorView::RecentRegistryReadFailed(e) => {
                "Failed to check Recent registry settings: "@ + *e
            },
            RecentEnablerErrorView::RecentEnableFailed(e) => "Failed to enable Recent: "@ + *e,
            RecentEnablerErrorView::RecentAlreadyEnabled => "Recent is already enabled"@,
            RecentEnablerErrorView::PrefetchFolderNotFound(e) => {
                "Failed to get Prefetch folder path: "@ + *e
            },
            RecentEnablerErrorView::PrefetchInfoFailed(e) => {
                "Failed to read Prefetch folder statistics: "@ + *e
            },
            RecentEnablerErrorView::ServiceManagerOpenFailed(e) => {
                "Failed to open Service Control Manager: "@ + *e
            },
            RecentEnablerErrorView::SysMainServiceNotFound(e) => {
                "Failed to open SysMain service: "@ + *e
            },
            RecentEnablerErrorView::SysMainStatusQueryFailed(e) => {
                "Failed to query SysMain service status: "@ + *e
            },
            RecentEnablerErrorView::SysMainConfigQueryFailed(e) => {
                "Failed to query SysMain service configuration: "@ + *e
            },
            RecentEnablerErrorView::SysMainEnableFailed(e) => {
                "Failed to enable SysMain service: "@ + *e
            },
            RecentEnablerErrorView::SysMainAlreadyEnabled => {
                "SysMain service is already running and set to automatic"@
            },
            RecentEnablerErrorView::SysMainRequiresAdmin => {
                "Administrator privileges required to enable SysMain service"@
            },
            RecentEnablerErrorView::SystemRestoreCheckFailed(e) => {
                "Failed to check System Restore status: "@ + *e
            },
            RecentEnablerErrorView::SystemRestoreEnableFailed(e) => {
                "Failed to enable System Restore: "@ + *e
            },
            RecentEnablerErrorView::SystemRestoreRequiresAdmin => {
                "Administrator privileges required to enable System Restore"@
            },
            RecentEnablerErrorView::SystemRestoreAlreadyEnabled => {
                "System Restore is already enabled"@
            },
            RecentEnablerErrorView::WindowsPathNotFound(e) => {
                "Failed to get Windows system path: "@ + *e
            },
            RecentEnablerErrorView::DirectoryReadFailed(e) => "Failed to read directory: "@ + *e,
            RecentEnablerErrorView::RegistryReadFailed(e) => {
                "Failed to read registry value: "@ + *e
            },
            RecentEnablerErrorView::RegistryWriteFailed(e) => {
                "Failed to write registry value: "@ + *e
            },
        }
    }

    /// The error in Russian: what failed, and the reason where one is
    /// carried.
    pub open spec fn russian(&self) -> Seq<char> {
        match self {
            RecentEnablerErrorView::RecentFolderNotFound(e) => {
                "Не удалось найти папку Recent: "@ + *e
            },
            RecentEnablerErrorView::RecentInfoFailed(e) => {
                "Не удалось прочитать статистику Recent: "@ + *e
            },
            RecentEnablerErrorView::RecentRegistryReadFailed(e) => {
                "Не удалось прочитать настройки реестра Recent: "@ + *e
            },
            RecentEnablerErrorView::RecentEnableFailed(e) => "Не удалось включить Recent: "@ + *e,
            RecentEnablerErrorView::RecentAlreadyEnabled => "Запись в Recent уже включена"@,
            RecentEnablerErrorView::PrefetchFolderNotFound(e) => {
                "Не удалось найти папку Prefetch: "@ + *e
            },
            RecentEnablerErrorView::PrefetchInfoFailed(e) => {
                "Не удалось прочитать статистику Prefetch: "@ + *e
            },
            RecentEnablerErrorView::ServiceManagerOpenFailed(e) => {
                "Не удалось открыть Service Control Manager: "@ + *e
            },
            RecentEnablerErrorView::SysMainServiceNotFound(e) => {
                "Не удалось открыть службу SysMain: "@ + *e
            },
            RecentEnablerErrorView::SysMainStatusQueryFailed(e) => {
                "Не удалось получить статус службы SysMain: "@ + *e
            },
            RecentEnablerErrorView::SysMainConfigQueryFailed(e) => {
                "Не удалось получить конфигурацию службы SysMain: "@ + *e
            },
            RecentEnablerErrorView::SysMainEnableFailed(e) => {
                "Не удалось включить службу SysMain: "@ + *e
            },
            RecentEnablerErrorView::SysMainAlreadyEnabled => {
                "Служба Prefetch уже включена и запущена"@
            },
            RecentEnablerErrorView::SysMainRequiresAdmin => {
                "Требуются права администратора для включения службы Prefetch"@
            },
            RecentEnablerErrorView::SystemRestoreCheckFailed(e) => {
                "Не удалось проверить статус System Restore: "@ + *e
            },
            RecentEnablerErrorView::SystemRestoreEnableFailed(e) => {
                "Не удалось включить System Restore: "@ + *e
            },
            RecentEnablerErrorView::SystemRestoreRequiresAdmin => {
                "Требуются права администратора для включения System Restore"@
            },
            RecentEnablerErrorView::SystemRestoreAlreadyEnabled => {
                "System Restore уже включена на диске C:"@
            },
            RecentEnablerErrorView::WindowsPathNotFound(e) => {
                "Не удалось получить путь к Windows: "@ + *e
            },
            RecentEnablerErrorView::DirectoryReadFailed(e) => {
                "Не удалось прочитать директорию: "@ + *e
            },
            RecentEnablerErrorView::RegistryReadFailed(e) => {
                "Не удалось прочитать значение реестра: "@ + *e
            },
            RecentEnablerErrorView::RegistryWriteFailed(e) => {
                "Не удалось записать значение реестра: "@ + *e
            },
        }
    }
}

fn with_reason(prefix: &str, reason: &String) -> (text: String)
    ensures
        text@ == prefix@ + reason@,
{
    String::from_str(prefix).concat(reason.as_str())
}

impl RecentEnablerError {
    /// The error's text in English.
    pub fn message(&self) -> (text: String)
        ensures
            text@ == self@.english(),
    {
        match self {
            Self::RecentFolderNotFound(e) => with_reason("Failed to get Recent folder path: ", e),
            Self::RecentInfoFailed(e) => {
                with_reason("Failed to read Recent folder statistics: ", e)
            },
            Self::RecentRegistryReadFailed(e) => {
                with_reason("Failed to check Recent registry settings: ", e)
            },
            Self::RecentEnableFailed(e) => with_reason("Failed to enable Recent: ", e),
            Self::RecentAlreadyEnabled => String::from_str("Recent is already enabled"),
            Self::PrefetchFolderNotFound(e) => {
                with_reason("Failed to get Prefetch folder path: ", e)
            },
            Self::PrefetchInfoFailed(e) => {
                with_reason("Failed to read Prefetch folder statistics: ", e)
            },
            Self::ServiceManagerOpenFailed(e) => {
                with_reason("Failed to open Service Control Manager: ", e)
            },
            Self::SysMainServiceNotFound(e) => with_reason("Failed to open SysMain service: ", e),
            Self::SysMainStatusQueryFailed(e) => {
                with_reason("Failed to query SysMain service status: ", e)
            },
            Self::SysMainConfigQueryFailed(e) => {
                with_reason("Failed to query SysMain service configuration: ", e)
            },
            Self::SysMainEnableFailed(e) => with_reason("Failed to enable SysMain service: ", e),
            Self::SysMainAlreadyEnabled => {
                String::from_str("SysMain service is already running and set to automatic")
            },
            Self::SysMainRequiresAdmin => {
                String::from_str("Administrator privileges required to enable SysMain service")
            },
            Self::SystemRestoreCheckFailed(e) => {
                with_reason("Failed to check System Restore status: ", e)
            },
            Self::SystemRestoreEnableFailed(e) => {
                with_reason("Failed to enable System Restore: ", e)
            },
            Self::SystemRestoreRequiresAdmin => {
                String::from_str("Administrator privileges required to enable System Restore")
            },
            Self::SystemRestoreAlreadyEnabled => {
                String::from_str("System Restore is already enabled")
            },
            Self::WindowsPathNotFound(e) => with_reason("Failed to get Windows system path: ", e),
            Self::DirectoryReadFailed(e) => with_reason("Failed to read directory: ", e),
            Self::RegistryReadFailed(e) => with_reason("Failed to read registry value: ", e),
            Self::RegistryWriteFailed(e) => with_reason("Failed to write registry value: ", e),
        }
    }

    /// The error's text in Russian, for display.
    pub fn to_russian(&self) -> (text: String)
        ensures
            text@ == self@.russian(),
    {
        match self {
            Self::RecentFolderNotFound(e) => with_reason("Не удалось найти папку Recent: ", e),
            Self::RecentInfoFailed(e) => with_reason("Не удалось прочитать статистику Recent: ", e),
            Self::RecentRegistryReadFailed(e) => {
                with_reason("Не удалось прочитать настройки реестра Recent: ", e)
            },
            Self::RecentEnableFailed(e) => with_reason("Не удалось включить Recent: ", e),
            Self::RecentAlreadyEnabled => String::from_str("Запись в Recent уже включена"),
            Self::PrefetchFolderNotFound(e) => with_reason("Не удалось найти папку Prefetch: ", e),
            Self::PrefetchInfoFailed(e) => {
                with_reason("Не удалось прочитать статистику Prefetch: ", e)
            },
            Self::ServiceManagerOpenFailed(e) => {
                with_reason("Не удалось открыть Service Control Manager: ", e)
            },
            Self::SysMainServiceNotFound(e) => {
                with_reason("Не удалось открыть службу SysMain: ", e)
            },
            Self::SysMainStatusQueryFailed(e) => {
                with_reason("Не удалось получить статус службы SysMain: ", e)
            },
            Self::SysMainConfigQueryFailed(e) => {
                with_reason("Не удалось получить конфигурацию службы SysMain: ", e)
            },
            Self::SysMainEnableFailed(e) => with_reason("Не удалось включить службу SysMain: ", e),
            Self::SysMainAlreadyEnabled => {
                String::from_str("Служба Prefetch уже включена и запущена")
            },
            Self::SysMainRequiresAdmin => {
                String::from_str("Требуются права администратора для включения службы Prefetch")
            },
            Self::SystemRestoreCheckFailed(e) => {
                with_reason("Не удалось проверить статус System Restore: ", e)
            },
            Self::SystemRestoreEnableFailed(e) => {
                with_reason("Не удалось включить System Restore: ", e)
            },
            Self::SystemRestoreRequiresAdmin => {
                String::from_str("Требуются права администратора для включения System Restore")
            },
            Self::SystemRestoreAlreadyEnabled => {
                String::from_str("System Restore уже включена на диске C:")
            },
            Self::WindowsPathNotFound(e) => with_reason("Не удалось получить путь к Windows: ", e),
            Self::DirectoryReadFailed(e) => with_reason("Не удалось прочитать директорию: ", e),
            Self::RegistryReadFailed(e) => {
                with_reason("Не удалось прочитать значение реестра: ", e)
            },
            Self::RegistryWriteFailed(e) => {
                with_reason("Не удалось записать значение реестра: ", e)
            },
        }
    }
}

} // verus!
