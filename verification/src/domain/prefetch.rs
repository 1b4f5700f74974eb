//! The model of the SysMain service and the Prefetch folder.

use vstd::prelude::*;
use vstd::string::*;

use crate::domain::common::FileStats;

verus! {

/// The run state of a service. `NotFound` stands for a service, or a service
/// manager, that could not be opened.
#[derive(Debug, Clone, Copy, PartialEq, Eq, Structural)]
pub enum ServiceState {
    Running,
    Stopped,
    Paused,
    StartPending,
    StopPending,
    Unknown,
    NotFound,
}

/// The run state of a service, under its other name.
pub type ServiceStatus = ServiceState;

impl ServiceState {
    pub open spec fn label(&self) -> Seq<char> {
        match self {
            ServiceState::Running => "Запущена"@,
            ServiceState::Stopped => "Остановлена"@,
            ServiceState::Paused => "Приостановлена"@,
            ServiceState::StartPending => "Запускается"@,
            ServiceState::StopPending => "Останавливается"@,
            ServiceState::Unknown => "Неизвестно"@,
            ServiceState::NotFound => "Не найдена"@,
        }
    }

    pub fn as_str(&self) -> (s: &'static str)
        ensures
            s@ == self.label(),
    {
        match self {
            ServiceState::Running => "Запущена",
            ServiceState::Stopped => "Остановлена",
            ServiceState::Paused => "Приостановлена",
            ServiceState::StartPending => "Запускается",
            ServiceState::StopPending => "Останавливается",
            ServiceState::Unknown => "Неизвестно",
            ServiceState::NotFound => "Не найдена",
        }
    }

    pub open spec fn running(&self) -> bool {
        *self is Running
    }

    #[verifier::when_used_as_spec(running)]
    pub fn is_running(&self) -> (b: bool)
        ensures
            b == self.running(),
    {
        matches!(self, ServiceState::Running)
    }
}

/// How a service is started.
#[derive(Debug, Clone, Copy, PartialEq, Eq, Structural)]
pub enum StartupMode {
    Automatic,
    AutomaticDelayed,
    Manual,
    Disabled,
    Unknown,
}

/// How a service is started, under its other name.
pub type StartupType = StartupMode;

impl StartupMode {
    pub open spec fn label(&self) -> Seq<char> {
        match self {
            StartupMode::Automatic => "Автоматически"@,
            StartupMode::AutomaticDelayed => "Автоматически (отложенный)"@,
            StartupMode::Manual => "Вручную"@,
            StartupMode::Disabled => "Отключена"@,
            StartupMode::Unknown => "Неизвестно"@,
        }
    }

    pub fn as_str(&self) -> (s: &'static str)
        ensures
            s@ == self.label(),
    {
        match self {
            StartupMode::Automatic => "Автоматически",
            StartupMode::AutomaticDelayed => "Автоматически (отложенный)",
            StartupMode::Manual => "Вручную",
            StartupMode::Disabled => "Отключена",
            StartupMode::Unknown => "Неизвестно",
        }
    }

    /// Started by the system itself, at once or delayed.
    pub open spec fn auto(&self) -> bool {
        *self is Automatic || *self is AutomaticDelayed
    }

    #[verifier::when_used_as_spec(auto)]
    pub fn is_auto(&self) -> (b: bool)
        ensures
            b == self.auto(),
    {
        matches!(self, StartupMode::Automatic | StartupMode::AutomaticDelayed)
    }
}

/// What the `EnablePrefetcher` and `EnableSuperfetch` registry values mean.
#[derive(Debug, Clone, Copy, PartialEq, Eq, Structural)]
pub enum PrefetcherMode {
    /// Value 0.
    Disabled,
    /// Value 1: boot files only.
    BootOnly,
    /// Value 2: application files only.
    ApplicationsOnly,
    /// Value 3: boot and application files.
    FullyEnabled,
    /// Any other value, kept as read.
    Unknown(u32),
}

impl PrefetcherMode {
    /// The mode that a registry value stands for.
    pub open spec fn of_value(value: u32) -> PrefetcherMode {
        if value == 0 {
            PrefetcherMode::Disabled
        } else if value == 1 {
            PrefetcherMode::BootOnly
        } else if value == 2 {
            PrefetcherMode::ApplicationsOnly
        } else if value == 3 {
            PrefetcherMode::FullyEnabled
        } else {
            PrefetcherMode::Unknown(value)
        }
    }

    pub fn from_registry_value(value: u32) -> (mode: PrefetcherMode)
        ensures
            mode == Self::of_value(value),
    {
        match value {
            0 => PrefetcherMode::Disabled,
            1 => PrefetcherMode::BootOnly,
            2 => PrefetcherMode::ApplicationsOnly,
            3 => PrefetcherMode::FullyEnabled,
            v => PrefetcherMode::Unknown(v),
        }
    }

    pub open spec fn label(&self) -> Seq<char> {
        match self {
            PrefetcherMode::Disabled => "Отключен"@,
            PrefetcherMode::BootOnly => "Только загрузка"@,
            PrefetcherMode::ApplicationsOnly => "Только приложения"@,
            PrefetcherMode::FullyEnabled => "Полностью включен"@,
            PrefetcherMode::Unknown(_) => "Неизвестно"@,
        }
    }

    pub fn as_str(&self) -> (s: &'static str)
        ensures
            s@ == self.label(),
    {
        match self {
            PrefetcherMode::Disabled => "Отключен",
            PrefetcherMode::BootOnly => "Только загрузка",
            PrefetcherMode::ApplicationsOnly => "Только приложения",
            PrefetcherMode::FullyEnabled => "Полностью включен",
            PrefetcherMode::Unknown(_) => "Неизвестно",
        }
    }

    /// Every mode but `Disabled` counts as enabled.
    pub open spec fn enabled(&self) -> bool {
        !(*self is Disabled)
    }

    #[verifier::when_used_as_spec(enabled)]
    pub fn is_enabled(&self) -> (b: bool)
        ensures
            b == self.enabled(),
    {
        !matches!(self, PrefetcherMode::Disabled)
    }
}

/// What a scan of the Prefetch folder gave.
#[derive(Debug, Clone)]
pub struct PrefetchInfo {
    /// The path of the folder.
    pub path: String,
    /// The trace files found there.
    pub files: FileStats,
    /// Whether the folder could be read. An empty folder is accessible.
    pub accessible: bool,
    /// Whether reading it takes administrator rights.
    pub requires_admin: bool,
    /// Why the folder could not be read.
    pub error: Option<String>,
}

/// The mathematical value of a [`PrefetchInfo`].
pub struct PrefetchInfoView {
    pub path: Seq<char>,
    pub files: FileStats,
    pub accessible: bool,
    pub requires_admin: bool,
    pub error: Option<Seq<char>>,
}

impl View for PrefetchInfo {
    type V = PrefetchInfoView;

    open spec fn view(&self) -> PrefetchInfoView {
        PrefetchInfoView {
            path: self.path@,
            files: self.files,
            accessible: self.accessible,
            requires_admin: self.requires_admin,
            error: match self.error {
                Some(e) => Some(e@),
                None => None,
            },
        }
    }
}

/// The SysMain service, the prefetcher settings and the Prefetch folder
/// together.
#[derive(Debug, Clone)]
pub struct SysMainInfo {
    pub service_state: ServiceState,
    pub startup_mode: StartupMode,
    /// The `EnablePrefetcher` setting.
    pub prefetcher_mode: PrefetcherMode,
    /// The `EnableSuperfetch` setting.
    pub superfetch_mode: PrefetcherMode,
    pub prefetch_info: PrefetchInfo,
}

/// The mathematical value of a [`SysMainInfo`].
pub struct SysMainInfoView {
    pub service_state: ServiceState,
    pub startup_mode: StartupMode,
    pub prefetcher_mode: PrefetcherMode,
    pub superfetch_mode: PrefetcherMode,
    pub prefetch_info: PrefetchInfoView,
}

impl View for SysMainInfo {
    type V = SysMainInfoView;

    open spec fn view(&self) -> SysMainInfoView {
        SysMainInfoView {
            service_state: self.service_state,
            startup_mode: self.startup_mode,
            prefetcher_mode: self.prefetcher_mode,
            superfetch_mode: self.superfetch_mode,
            prefetch_info: self.prefetch_info@,
        }
    }
}

impl SysMainInfoView {
    /// The service runs, starts by itself, and the prefetcher is on.
    pub open spec fn fully_enabled(&self) -> bool {
        self.service_state.running() && self.startup_mode.auto() && self.prefetcher_mode.enabled()
    }

    /// The service runs and starts by itself.
    pub open spec fn service_ready(&self) -> bool {
        self.service_state.running() && self.startup_mode.auto()
    }

    /// The line about the service, if it does not run.
    pub open spec fn service_issue(&self) -> Seq<Seq<char>> {
        if self.service_state.running() {
            seq![]
        } else {
            seq!["Служба SysMain: "@ + self.service_state.label()]
        }
    }

    /// The line about the startup mode, if the service does not start by
    /// itself.
    pub open spec fn startup_issue(&self) -> Seq<Seq<char>> {
        if self.startup_mode.auto() {
            seq![]
        } else {
            seq!["Тип запуска: "@ + self.startup_mode.label()]
        }
    }

    /// The line about the prefetcher, if it is off.
    pub open spec fn prefetcher_issue(&self) -> Seq<Seq<char>> {
        if self.prefetcher_mode.enabled() {
            seq![]
        } else {
            seq!["Prefetcher: "@ + self.prefetcher_mode.label()]
        }
    }

    /// The line about the folder, if it could not be read and a reason is
    /// known.
    pub open spec fn folder_issue(&self) -> Seq<Seq<char>> {
        if self.prefetch_info.accessible {
            seq![]
        } else if self.prefetch_info.requires_admin {
            seq!["Требуются права администратора для доступа к папке"@]
        } else {
            match self.prefetch_info.error {
                Some(e) => seq!["Ошибка доступа к папке: "@ + e],
                None => seq![],
            }
        }
    }

    /// One line for each condition that fails, in the order service, startup,
    /// prefetcher, folder.
    pub open spec fn issues(&self) -> Seq<Seq<char>> {
        self.service_issue() + self.startup_issue() + self.prefetcher_issue()
            + self.folder_issue()
    }
}

impl SysMainInfo {
    /// True exactly when the service runs, starts by itself, and the
    /// prefetcher is on.
    pub fn is_fully_enabled(&self) -> (b: bool)
        ensures
            b == self@.fully_enabled(),
            b == (self.service_state.running() && self.startup_mode.auto()
                && self.prefetcher_mode.enabled()),
    {
        self.service_state.is_running() && self.startup_mode.is_auto()
            && self.prefetcher_mode.is_enabled()
    }

    /// True exactly when the service runs and starts by itself.
    pub fn is_ok(&self) -> (b: bool)
        ensures
            b == self@.service_ready(),
    {
        self.service_state.is_running() && self.startup_mode.is_auto()
    }

    /// The conditions that fail, one line each.
    pub fn get_issues(&self) -> (issues: Vec<String>)
        ensures
            issues.deep_view() == self@.issues(),
    {
        let mut issues: Vec<String> = Vec::new();
        assert(issues.deep_view() =~= Seq::<Seq<char>>::empty());
        if !self.service_state.is_running() {
            let line = String::from_str("Служба SysMain: ").concat(self.service_state.as_str());
            issues.push(line);
        }
        assert(issues.deep_view() =~= self@.service_issue());
        if !self.startup_mode.is_auto() {
            let line = String::from_str("Тип запуска: ").concat(self.startup_mode.as_str());
            issues.push(line);
        }
        assert(issues.deep_view() =~= self@.service_issue() + self@.startup_issue());
        if !self.prefetcher_mode.is_enabled() {
            let line = String::from_str("Prefetcher: ").concat(self.prefetcher_mode.as_str());
            issues.push(line);
        }
        assert(issues.deep_view() =~= self@.service_issue() + self@.startup_issue()
            + self@.prefetcher_issue());
        if !self.prefetch_info.accessible {
            if self.prefetch_info.requires_admin {
                issues.push(String::from_str("Требуются права администратора для доступа к папке"));
            } else {
                match &self.prefetch_info.error {
                    Some(e) => {
                        let line = String::from_str("Ошибка доступа к папке: ").concat(e.as_str());
                        issues.push(line);
                    },
                    None => {},
                }
            }
        }
        assert(issues.deep_view() =~= self@.issues());
        issues
    }
}

/// The aggregate is true exactly when each of its three conditions is; with
/// any one of them false it is false.
pub proof fn lemma_fully_enabled(info: SysMainInfoView)
    ensures
        info.fully_enabled() <==> info.service_state == ServiceState::Running && (
        info.startup_mode == StartupMode::Automatic || info.startup_mode
            == StartupMode::AutomaticDelayed) && info.prefetcher_mode != PrefetcherMode::Disabled,
        !info.service_state.running() ==> !info.fully_enabled(),
        !info.startup_mode.auto() ==> !info.fully_enabled(),
        !info.prefetcher_mode.enabled() ==> !info.fully_enabled(),
        info.fully_enabled() ==> info.service_issue() + info.startup_issue()
            + info.prefetcher_issue() =~= Seq::<Seq<char>>::empty(),
{
}

} // verus!
