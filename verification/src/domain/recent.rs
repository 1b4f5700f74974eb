//! The model of the recent-files checks.

use vstd::prelude::*;

use crate::domain::common::FileStats;

verus! {

/// The registry hive, or hives, that a check reads.
#[derive(Debug, Clone, Copy, PartialEq, Eq, Structural)]
pub enum RegistryLocation {
    /// The current user's hive.
    HKCU,
    /// The machine-wide hive.
    HKLM,
    /// Both hives; the machine-wide one is looked at first.
    Both,
}

impl RegistryLocation {
    pub open spec fn label(&self) -> Seq<char> {
        match self {
            RegistryLocation::HKCU => "HKCU"@,
            RegistryLocation::HKLM => "HKLM"@,
            RegistryLocation::Both => "HKCU/HKLM"@,
        }
    }

    pub fn as_str(&self) -> (s: &'static str)
        ensures
            s@ == self.label(),
    {
        match self {
            RegistryLocation::HKCU => "HKCU",
            RegistryLocation::HKLM => "HKLM",
            RegistryLocation::Both => "HKCU/HKLM",
        }
    }
}

/// How much of the feature a failing check takes away.
#[derive(Debug, Clone, Copy, PartialEq, Eq, Structural, PartialOrd, Ord)]
pub enum CheckSeverity {
    /// Only what Explorer shows is affected.
    Minor,
    /// Recording itself is affected.
    Important,
    /// The feature is blocked outright.
    Critical,
}

impl CheckSeverity {
    pub open spec fn label(&self) -> Seq<char> {
        match self {
            CheckSeverity::Minor => "Незначительный"@,
            CheckSeverity::Important => "Важный"@,
            CheckSeverity::Critical => "Критический"@,
        }
    }

    pub fn as_str(&self) -> (s: &'static str)
        ensures
            s@ == self.label(),
    {
        match self {
            CheckSeverity::Minor => "Незначительный",
            CheckSeverity::Important => "Важный",
            CheckSeverity::Critical => "Критический",
        }
    }

    pub open spec fn description_text(&self) -> Seq<char> {
        match self {
            CheckSeverity::Minor => "Влияет только на отображение в UI"@,
            CheckSeverity::Important => "Влияет на основные функции записи"@,
            CheckSeverity::Critical => "Полностью блокирует функциональность"@,
        }
    }

    pub fn description(&self) -> (s: &'static str)
        ensures
            s@ == self.description_text(),
    {
        match self {
            CheckSeverity::Minor => "Влияет только на отображение в UI",
            CheckSeverity::Important => "Влияет на основные функции записи",
            CheckSeverity::Critical => "Полностью блокирует функциональность",
        }
    }

    /// The severities in rising order: 0, 1, 2.
    pub open spec fn rank(&self) -> nat {
        match self {
            CheckSeverity::Minor => 0,
            CheckSeverity::Important => 1,
            CheckSeverity::Critical => 2,
        }
    }
}

/// One registry value that the feature depends on, with the value it must
/// have and the value that was last read.
#[derive(Debug, Clone)]
pub struct RegistryCheck {
    /// What the check stands for, for display.
    pub name: String,
    /// The hive, or hives, it is read from.
    pub location: RegistryLocation,
    /// The key path below the hive.
    pub key: String,
    /// The value's name.
    pub value: String,
    /// The value the feature needs.
    pub expected: u32,
    /// The value last read; `None` before any read, and where the value is
    /// absent and the check names no default.
    pub actual: Option<u32>,
    pub severity: CheckSeverity,
    /// A group-policy value, which a user setting cannot override.
    pub is_policy: bool,
    /// What the system does when the value is absent, where that is known.
    pub absent_default: Option<u32>,
}

/// A check of the recent-files catalog.
pub type RecentCheck = RegistryCheck;

/// The mathematical value of a [`RegistryCheck`].
pub struct RegistryCheckView {
    pub name: Seq<char>,
    pub location: RegistryLocation,
    pub key: Seq<char>,
    pub value: Seq<char>,
    pub expected: u32,
    pub actual: Option<u32>,
    pub severity: CheckSeverity,
    pub is_policy: bool,
    pub absent_default: Option<u32>,
}

impl RegistryCheckView {
    /// The check passes: the value read is the value expected. A check
    /// without a value never passes.
    pub open spec fn ok(&self) -> bool {
        self.actual == Some(self.expected)
    }

    /// A failing policy value.
    pub open spec fn policy_block(&self) -> bool {
        self.is_policy && !self.ok()
    }

    /// A policy value in the machine-wide hive, which only an administrator
    /// or the policy's owner can change.
    pub open spec fn machine_policy(&self) -> bool {
        self.is_policy && self.location == RegistryLocation::HKLM
    }
}

impl View for RegistryCheck {
    type V = RegistryCheckView;

    open spec fn view(&self) -> RegistryCheckView {
        RegistryCheckView {
            name: self.name@,
            location: self.location,
            key: self.key@,
            value: self.value@,
            expected: self.expected,
            actual: self.actual,
            severity: self.severity,
            is_policy: self.is_policy,
            absent_default: self.absent_default,
        }
    }
}

impl DeepView for RegistryCheck {
    type V = RegistryCheckView;

    open spec fn deep_view(&self) -> RegistryCheckView {
        self@
    }
}

impl RegistryCheck {
    /// True exactly when the value read equals the expected value; never
    /// for a check without a value, whatever its severity.
    pub fn is_ok(&self) -> (b: bool)
        ensures
            b == (self.actual == Some(self.expected)),
            b == self@.ok(),
            self.actual is None ==> !b,
    {
        match self.actual {
            Some(v) => v == self.expected,
            None => false,
        }
    }

    /// True exactly when the value read equals the expected value.
    pub fn is_enabled(&self) -> (b: bool)
        ensures
            b == self@.ok(),
    {
        self.is_ok()
    }

    /// True exactly when the check fails.
    pub fn is_blocking(&self) -> (b: bool)
        ensures
            b == !self@.ok(),
    {
        !self.is_ok()
    }

    /// True exactly when the check is a policy value and fails.
    pub fn is_policy_block(&self) -> (b: bool)
        ensures
            b == self@.policy_block(),
    {
        self.is_policy && self.is_blocking()
    }
}

/// A check together with what can be done about it.
#[derive(Debug, Clone)]
pub struct RecentCheckResult {
    pub check: RegistryCheck,
    /// Whether a write by the current user can make the check pass.
    pub can_fix: bool,
    pub fix_description: Option<String>,
}

/// The mathematical value of a [`RecentCheckResult`].
pub struct RecentCheckResultView {
    pub check: RegistryCheckView,
    pub can_fix: bool,
    pub fix_description: Option<Seq<char>>,
}

impl View for RecentCheckResult {
    type V = RecentCheckResultView;

    open spec fn view(&self) -> RecentCheckResultView {
        RecentCheckResultView {
            check: self.check@,
            can_fix: self.can_fix,
            fix_description: match self.fix_description {
                Some(d) => Some(d@),
                None => None,
            },
        }
    }
}

impl DeepView for RecentCheckResult {
    type V = RecentCheckResultView;

    open spec fn deep_view(&self) -> RecentCheckResultView {
        self@
    }
}

/// The state of recent-files tracking as a whole.
#[derive(Debug, Clone)]
pub enum RecentStatus {
    /// Every check passes.
    FullyEnabled,
    /// No policy blocks, and every check of severity `Important` fails.
    FullyDisabled,
    /// Some checks pass and some fail; the names of both, in catalog order.
    PartiallyEnabled { enabled_features: Vec<String>, disabled_features: Vec<String> },
    /// A policy value blocks the feature; the names of the failing policy
    /// checks, in catalog order.
    DisabledByPolicy { policy_sources: Vec<String> },
}

/// The mathematical value of a [`RecentStatus`].
pub enum RecentStatusView {
    FullyEnabled,
    FullyDisabled,
    PartiallyEnabled { enabled_features: Seq<Seq<char>>, disabled_features: Seq<Seq<char>> },
    DisabledByPolicy { policy_sources: Seq<Seq<char>> },
}

impl View for RecentStatus {
    type V = RecentStatusView;

    open spec fn view(&self) -> RecentStatusView {
        match self {
            RecentStatus::FullyEnabled => RecentStatusView::FullyEnabled,
            RecentStatus::FullyDisabled => RecentStatusView::FullyDisabled,
            RecentStatus::PartiallyEnabled { enabled_features, disabled_features } => {
                RecentStatusView::PartiallyEnabled {
                    enabled_features: enabled_features.deep_view(),
                    disabled_features: disabled_features.deep_view(),
                }
            },
            RecentStatus::DisabledByPolicy { policy_sources } => {
                RecentStatusView::DisabledByPolicy { policy_sources: policy_sources.deep_view() }
            },
        }
    }
}

impl RecentStatus {
    pub open spec fn label(&self) -> Seq<char> {
        match self {
            RecentStatus::FullyEnabled => "Полностью включена"@,
            RecentStatus::FullyDisabled => "Полностью отключена"@,
            RecentStatus::PartiallyEnabled { .. } => "Частично включена"@,
            RecentStatus::DisabledByPolicy { .. } => "Заблокирована политикой"@,
        }
    }

    pub fn as_str(&self) -> (s: &'static str)
        ensures
            s@ == self.label(),
    {
        match self {
            RecentStatus::FullyEnabled => "Полностью включена",
            RecentStatus::FullyDisabled => "Полностью отключена",
            RecentStatus::PartiallyEnabled { .. } => "Частично включена",
            RecentStatus::DisabledByPolicy { .. } => "Заблокирована политикой",
        }
    }

    pub fn is_enabled(&self) -> (b: bool)
        ensures
            b == (self@ is FullyEnabled),
    {
        matches!(self, RecentStatus::FullyEnabled)
    }

    pub fn is_partially_enabled(&self) -> (b: bool)
        ensures
            b == (self@ is PartiallyEnabled),
    {
        matches!(self, RecentStatus::PartiallyEnabled { .. })
    }

    pub fn is_policy_blocked(&self) -> (b: bool)
        ensures
            b == (self@ is DisabledByPolicy),
    {
        matches!(self, RecentStatus::DisabledByPolicy { .. })
    }
}

/// The recent-files folder and the state of the feature.
#[derive(Debug, Clone)]
pub struct RecentInfo {
    /// The path of the folder that was scanned.
    pub path: String,
    /// The shortcut files found there.
    pub files: FileStats,
    pub status: RecentStatus,
    /// Every check with what was read for it, in catalog order.
    pub checks: Vec<RecentCheckResult>,
}

} // verus!
