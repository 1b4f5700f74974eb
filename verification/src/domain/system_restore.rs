//! The model of System Restore.

use vstd::prelude::*;
use vstd::string::*;

use crate::text::{to_uppercase, trim_end, trim_end_matches, uppercase_of};

verus! {

/// A way to reach System Restore.
#[derive(Debug, Clone, Copy, PartialEq, Eq, Structural)]
pub enum SystemRestoreMethod {
    /// The `SystemRestore` class of Windows Management Instrumentation.
    Wmi,
    /// The system's restore client library.
    Native,
    /// The PowerShell cmdlets.
    PowerShell,
    /// The registry alone, which shows the state and cannot change it.
    RegistryOnly,
}

impl SystemRestoreMethod {
    pub open spec fn label(&self) -> Seq<char> {
        match self {
            SystemRestoreMethod::Wmi => "WMI"@,
            SystemRestoreMethod::Native => "Native DLL"@,
            SystemRestoreMethod::PowerShell => "PowerShell"@,
            SystemRestoreMethod::RegistryOnly => "Registry"@,
        }
    }

    pub fn as_str(&self) -> (s: &'static str)
        ensures
            s@ == self.label(),
    {
        match self {
            SystemRestoreMethod::Wmi => "WMI",
            SystemRestoreMethod::Native => "Native DLL",
            SystemRestoreMethod::PowerShell => "PowerShell",
            SystemRestoreMethod::RegistryOnly => "Registry",
        }
    }

    /// Every method but the registry can switch protection on and off.
    pub open spec fn mutating(&self) -> bool {
        !(*self is RegistryOnly)
    }

    #[verifier::when_used_as_spec(mutating)]
    pub fn can_mutate(&self) -> (b: bool)
        ensures
            b == self.mutating(),
    {
        !matches!(self, SystemRestoreMethod::RegistryOnly)
    }
}

/// The state of System Restore on one drive.
#[derive(Debug, Clone)]
pub struct SystemRestoreDriveStatus {
    /// The drive, such as `C:`.
    pub drive: String,
    pub is_enabled: bool,
    /// The method that the state was found with.
    pub detection_method: SystemRestoreMethod,
    /// Why the state could not be found.
    pub error_message: Option<String>,
}

/// The mathematical value of a [`SystemRestoreDriveStatus`].
pub struct SystemRestoreDriveStatusView {
    pub drive: Seq<char>,
    pub is_enabled: bool,
    pub detection_method: SystemRestoreMethod,
    pub error_message: Option<Seq<char>>,
}

impl View for SystemRestoreDriveStatus {
    type V = SystemRestoreDriveStatusView;

    open spec fn view(&self) -> SystemRestoreDriveStatusView {
        SystemRestoreDriveStatusView {
            drive: self.drive@,
            is_enabled: self.is_enabled,
            detection_method: self.detection_method,
            error_message: match self.error_message {
                Some(e) => Some(e@),
                None => None,
            },
        }
    }
}

impl DeepView for SystemRestoreDriveStatus {
    type V = SystemRestoreDriveStatusView;

    open spec fn deep_view(&self) -> SystemRestoreDriveStatusView {
        self@
    }
}

/// The state of System Restore as a whole.
#[derive(Debug, Clone)]
pub struct SystemRestoreInfo {
    /// Whether the feature is on for the machine.
    pub global_enabled: bool,
    pub drive_statuses: Vec<SystemRestoreDriveStatus>,
    /// The methods that can be used here, best first.
    pub available_methods: Vec<SystemRestoreMethod>,
    /// The method to use.
    pub preferred_method: Option<SystemRestoreMethod>,
}

/// The mathematical value of a [`SystemRestoreInfo`].
pub struct SystemRestoreInfoView {
    pub global_enabled: bool,
    pub drive_statuses: Seq<SystemRestoreDriveStatusView>,
    pub available_methods: Seq<SystemRestoreMethod>,
    pub preferred_method: Option<SystemRestoreMethod>,
}

impl View for SystemRestoreInfo {
    type V = SystemRestoreInfoView;

    open spec fn view(&self) -> SystemRestoreInfoView {
        SystemRestoreInfoView {
            global_enabled: self.global_enabled,
            drive_statuses: self.drive_statuses.deep_view(),
            available_methods: self.available_methods@,
            preferred_method: self.preferred_method,
        }
    }
}

/// What two spellings of a drive are compared by: the drive without
/// backslashes at its end, in capitals.
pub open spec fn drive_key(drive: Seq<char>) -> Seq<char> {
    uppercase_of(trim_end(drive, '\\'))
}

impl SystemRestoreInfoView {
    /// The position of the first status for `drive`, or the number of
    /// statuses where there is none.
    pub open spec fn position_of(&self, drive: Seq<char>) -> int
        decreases self.drive_statuses.len(),
    {
        if self.drive_statuses.len() == 0 {
            0
        } else if drive_key(self.drive_statuses[0].drive) == drive_key(drive) {
            0
        } else {
            1 + (SystemRestoreInfoView {
                drive_statuses: self.drive_statuses.drop_first(),
                ..*self
            }).position_of(drive)
        }
    }

    /// The first status for `drive`.
    pub open spec fn status_of(&self, drive: Seq<char>) -> Option<SystemRestoreDriveStatusView> {
        if self.position_of(drive) < self.drive_statuses.len() {
            Some(self.drive_statuses[self.position_of(drive)])
        } else {
            None
        }
    }

    /// Whether System Restore is on for the drive `C:`.
    pub open spec fn c_drive_enabled(&self) -> bool {
        match self.status_of("C:"@) {
            Some(status) => status.is_enabled,
            None => false,
        }
    }
}

fn normalized(drive: &str) -> (key: String)
    ensures
        key@ == drive_key(drive@),
{
    let trimmed = trim_end_matches(drive, '\\');
    to_uppercase(trimmed.as_str())
}

/// The position found is the first at which the drive matches.
pub proof fn lemma_position_of(info: SystemRestoreInfoView, drive: Seq<char>)
    ensures
        0 <= info.position_of(drive) <= info.drive_statuses.len(),
        info.position_of(drive) < info.drive_statuses.len() ==> drive_key(
            info.drive_statuses[info.position_of(drive)].drive,
        ) == drive_key(drive),
        forall|j: int|
            0 <= j < info.position_of(drive) ==> drive_key(
                (#[trigger] info.drive_statuses[j]).drive,
            ) != drive_key(drive),
    decreases info.drive_statuses.len(),
{
    if info.drive_statuses.len() > 0 && drive_key(info.drive_statuses[0].drive) != drive_key(
        drive,
    ) {
        let rest = SystemRestoreInfoView {
            drive_statuses: info.drive_statuses.drop_first(),
            ..info
        };
        lemma_position_of(rest, drive);
        assert forall|j: int| 0 <= j < info.position_of(drive) implies drive_key(
            (#[trigger] info.drive_statuses[j]).drive,
        ) != drive_key(drive) by {
            if j > 0 {
                assert(info.drive_statuses[j] == rest.drive_statuses[j - 1]);
            }
        }
    }
}

/// A position below which no drive matches, and which matches itself or is
/// the end, is the position found.
pub proof fn lemma_position_is(info: SystemRestoreInfoView, drive: Seq<char>, i: int)
    requires
        0 <= i <= info.drive_statuses.len(),
        forall|j: int|
            0 <= j < i ==> drive_key((#[trigger] info.drive_statuses[j]).drive) != drive_key(
                drive,
            ),
        i < info.drive_statuses.len() ==> drive_key(info.drive_statuses[i].drive) == drive_key(
            drive,
        ),
    ensures
        info.position_of(drive) == i,
{
    lemma_position_of(info, drive);
    let p = info.position_of(drive);
    if p < i {
        assert(drive_key(info.drive_statuses[p].drive) != drive_key(drive));
    } else if i < p {
        assert(drive_key(info.drive_statuses[i].drive) != drive_key(drive));
    }
}

impl SystemRestoreInfo {
    /// The status of `drive`: the first whose drive is spelled like it, but
    /// for case and backslashes at the end.
    pub fn get_drive_status(&self, drive: &str) -> (status: Option<&SystemRestoreDriveStatus>)
        ensures
            match self@.status_of(drive@) {
                Some(found) => status is Some && status->0@ == found,
                None => status is None,
            },
    {
        let wanted = normalized(drive);
        let mut i: usize = 0;
        while i < self.drive_statuses.len()
            invariant
                i <= self.drive_statuses.len(),
                wanted@ == drive_key(drive@),
                forall|j: int|
                    0 <= j < i ==> drive_key((#[trigger] self@.drive_statuses[j]).drive)
                        != drive_key(drive@),
            decreases self.drive_statuses.len() - i,
        {
            let status = &self.drive_statuses[i];
            assert(status@ == self@.drive_statuses[i as int]);
            let key = normalized(status.drive.as_str());
            if key == wanted {
                proof {
                    lemma_position_is(self@, drive@, i as int);
                }
                return Some(status);
            }
            i += 1;
        }
        proof {
            lemma_position_is(self@, drive@, i as int);
        }
        None
    }

    /// Whether System Restore is on for the drive `C:`; `false` where the
    /// drive has no status.
    pub fn is_c_drive_enabled(&self) -> (b: bool)
        ensures
            b == self@.c_drive_enabled(),
    {
        match self.get_drive_status("C:") {
            Some(status) => status.is_enabled,
            None => false,
        }
    }
}

/// The kind of event that a restore point records.
#[derive(Debug, Clone, Copy, PartialEq, Eq, Structural)]
pub enum RestoreEventType {
    BeginSystemChange,
    EndSystemChange,
}

impl RestoreEventType {
    /// The number that the system knows the event type by.
    pub open spec fn number(&self) -> u32 {
        match self {
            RestoreEventType::BeginSystemChange => 100,
            RestoreEventType::EndSystemChange => 101,
        }
    }

    #[verifier::when_used_as_spec(number)]
    pub fn code(&self) -> (n: u32)
        ensures
            n == self.number(),
    {
        match self {
            RestoreEventType::BeginSystemChange => 100,
            RestoreEventType::EndSystemChange => 101,
        }
    }
}

/// The reason for a restore point.
#[derive(Debug, Clone, Copy, PartialEq, Eq, Structural)]
pub enum RestorePointType {
    ApplicationInstall,
    ApplicationUninstall,
    DeviceDriverInstall,
    ModifySettings,
    CancelledOperation,
}

impl RestorePointType {
    /// The number that the system knows the restore point type by.
    pub open spec fn number(&self) -> u32 {
        match self {
            RestorePointType::ApplicationInstall => 0,
            RestorePointType::ApplicationUninstall => 1,
            RestorePointType::DeviceDriverInstall => 10,
            RestorePointType::ModifySettings => 12,
            RestorePointType::CancelledOperation => 13,
        }
    }

    #[verifier::when_used_as_spec(number)]
    pub fn code(&self) -> (n: u32)
        ensures
            n == self.number(),
    {
        match self {
            RestorePointType::ApplicationInstall => 0,
            RestorePointType::ApplicationUninstall => 1,
            RestorePointType::DeviceDriverInstall => 10,
            RestorePointType::ModifySettings => 12,
            RestorePointType::CancelledOperation => 13,
        }
    }
}

} // verus!
