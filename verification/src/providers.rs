//! The three System Restore providers, as far as they decide anything: what
//! each is asked, and what its answer means.
//!
//! The registry provider only detects. The PowerShell provider runs the
//! restore cmdlets; the WMI provider calls the static methods of the
//! `SystemRestore` class. The caller runs the command or makes the call.

use vstd::prelude::*;
use vstd::string::*;

use crate::domain::error::{AppError, AppErrorView};
use crate::domain::system_restore::SystemRestoreMethod;
use crate::text::{
    decimal, decimal_string, ends_with, ends_with_char, first_essential, first_essential_line,
    trim_end, trim_end_matches,
};

verus! {

/// The key of System Restore, below the machine-wide hive.
pub const SR_KEY: &'static str = "SOFTWARE\\Microsoft\\Windows NT\\CurrentVersion\\SystemRestore";

/// The value that holds 1 while System Restore is on.
pub const SESSION_INTERVAL_VALUE: &'static str = "RPSessionInterval";

/// The value that switches System Restore off when it is not 0.
pub const DISABLE_VALUE: &'static str = "DisableSR";

/// The value that holds the least time between two restore points, in
/// minutes.
pub const FREQUENCY_VALUE: &'static str = "SystemRestorePointCreationFrequency";

/// The WMI namespace of the `SystemRestore` class.
pub const WMI_NAMESPACE: &'static str = "root\\default";

/// The name of the WMI class.
pub const WMI_CLASS: &'static str = "SystemRestore";

/// A line of PowerShell's error output with this word in it says nothing
/// about the failure.
pub const NOISE_WORD: &'static str = "ProgressPreference";

/// The drive as WMI wants it: with one backslash at its end, as in `C:\`.
pub open spec fn drive_root(drive: Seq<char>) -> Seq<char> {
    if ends_with(drive, '\\') {
        drive
    } else {
        drive.push('\\')
    }
}

pub fn normalize_drive(drive: &str) -> (root: String)
    ensures
        root@ == drive_root(drive@),
{
    if ends_with_char(drive, '\\') {
        String::from_str(drive)
    } else {
        proof {
            reveal_strlit("\\");
        }
        let root = String::from_str(drive).concat("\\");
        assert(root@ =~= drive@.push('\\'));
        root
    }
}

/// The drive's letter: the drive without backslashes and then without
/// colons at its end.
pub open spec fn drive_letter(drive: Seq<char>) -> Seq<char> {
    trim_end(trim_end(drive, '\\'), ':')
}

/// The key that holds the drive's own System Restore settings.
pub open spec fn config_key_of(drive: Seq<char>) -> Seq<char> {
    SR_KEY@ + "\\Cfg\\"@ + drive_letter(drive)
}

pub fn drive_config_key(drive: &str) -> (key: String)
    ensures
        key@ == config_key_of(drive@),
{
    let without_slash = trim_end_matches(drive, '\\');
    let letter = trim_end_matches(without_slash.as_str(), ':');
    let mut key = String::from_str(SR_KEY);
    key.append("\\Cfg\\");
    key.append(letter.as_str());
    key
}

/// What the registry shows of one drive.
#[derive(Debug, Clone, Copy, PartialEq, Eq, Structural)]
pub struct DriveRegistry {
    /// Whether the drive's own settings key exists.
    pub config_present: bool,
    /// Whether the System Restore key could be opened.
    pub key_present: bool,
    /// The session interval read from that key.
    pub session_interval: Option<u32>,
}

/// Whether protection is on for a drive, as far as the registry shows: it is
/// where the drive has settings of its own; otherwise the session interval
/// decides, and without the System Restore key nothing can be said.
pub open spec fn protection_of(registry: DriveRegistry) -> Option<bool> {
    if registry.config_present {
        Some(true)
    } else if !registry.key_present {
        None
    } else {
        Some(registry.session_interval == Some(1u32))
    }
}

pub open spec fn key_missing_text() -> Seq<char> {
    "SystemRestore registry key not found"@
}

pub fn is_protection_enabled(registry: DriveRegistry) -> (result: Result<bool, AppError>)
    ensures
        match protection_of(registry) {
            Some(enabled) => result == Ok::<bool, AppError>(enabled),
            None => result is Err && result->Err_0@ == AppErrorView::Registry(key_missing_text()),
        },
{
    if registry.config_present {
        Ok(true)
    } else if !registry.key_present {
        Err(AppError::Registry(String::from_str("SystemRestore registry key not found")))
    } else {
        match registry.session_interval {
            Some(interval) => Ok(interval == 1),
            None => Ok(false),
        }
    }
}

/// The PowerShell command that switches protection on for `drive`.
pub open spec fn enable_command_of(drive: Seq<char>) -> Seq<char> {
    "Enable-ComputerRestore -Drive '"@ + drive_root(drive) + "'"@
}

pub fn enable_command(drive: &str) -> (command: String)
    ensures
        command@ == enable_command_of(drive@),
{
    let mut command = String::from_str("Enable-ComputerRestore -Drive '");
    command.append(normalize_drive(drive).as_str());
    command.append("'");
    command
}

/// The PowerShell command that switches protection off for `drive`.
pub open spec fn disable_command_of(drive: Seq<char>) -> Seq<char> {
    "Disable-ComputerRestore -Drive '"@ + drive_root(drive) + "'"@
}

pub fn disable_command(drive: &str) -> (command: String)
    ensures
        command@ == disable_command_of(drive@),
{
    let mut command = String::from_str("Disable-ComputerRestore -Drive '");
    command.append(normalize_drive(drive).as_str());
    command.append("'");
    command
}

/// What counts of PowerShell's error output: its first line that is not
/// blank and does not hold the noise word; or all of it where no line is
/// such.
pub open spec fn essential_of(stderr: Seq<char>) -> Seq<char> {
    match first_essential(stderr, 0, NOISE_WORD@) {
        Some(line) => line,
        None => stderr,
    }
}

pub fn essential_message(stderr: &str) -> (message: String)
    ensures
        message@ == essential_of(stderr@),
{
    match first_essential_line(stderr, NOISE_WORD) {
        Some(line) => line,
        None => String::from_str(stderr),
    }
}

/// What a run of a PowerShell command means: success where it exited with
/// success, and otherwise an error with what counts of its error output.
pub open spec fn command_outcome(succeeded: bool, stderr: Seq<char>) -> Result<(), AppErrorView> {
    if succeeded {
        Ok(())
    } else {
        Err(AppErrorView::PowerShell(essential_of(stderr)))
    }
}

pub fn command_result(succeeded: bool, stderr: &str) -> (result: Result<(), AppError>)
    ensures
        match command_outcome(succeeded, stderr@) {
            Ok(_) => result is Ok,
            Err(e) => result is Err && result->Err_0@ == e,
        },
{
    if succeeded {
        Ok(())
    } else {
        Err(AppError::PowerShell(essential_message(stderr)))
    }
}

/// A method of the WMI class.
#[derive(Debug, Clone, Copy, PartialEq, Eq, Structural)]
pub enum WmiMethod {
    Enable,
    Disable,
    CreateRestorePoint,
}

impl WmiMethod {
    pub open spec fn label(&self) -> Seq<char> {
        match self {
            WmiMethod::Enable => "Enable"@,
            WmiMethod::Disable => "Disable"@,
            WmiMethod::CreateRestorePoint => "CreateRestorePoint"@,
        }
    }

    /// The method's name in the class.
    pub fn as_str(&self) -> (s: &'static str)
        ensures
            s@ == self.label(),
    {
        match self {
            WmiMethod::Enable => "Enable",
            WmiMethod::Disable => "Disable",
            WmiMethod::CreateRestorePoint => "CreateRestorePoint",
        }
    }
}

pub open spec fn return_code_text(method: WmiMethod, code: u32) -> Seq<char> {
    "WMI "@ + method.label() + " returned error code: "@ + decimal(code as nat)
}

/// What the return value of a WMI method means: 0 is success, and any other
/// number an error that names the method and the number.
pub open spec fn wmi_outcome(method: WmiMethod, code: u32) -> Result<(), AppErrorView> {
    if code == 0 {
        Ok(())
    } else {
        Err(AppErrorView::Other(return_code_text(method, code)))
    }
}

pub fn wmi_result(method: WmiMethod, code: u32) -> (result: Result<(), AppError>)
    ensures
        match wmi_outcome(method, code) {
            Ok(_) => result is Ok,
            Err(e) => result is Err && result->Err_0@ == e,
        },
{
    if code == 0 {
        Ok(())
    } else {
        let mut message = String::from_str("WMI ");
        message.append(method.as_str());
        message.append(" returned error code: ");
        message.append(decimal_string(code as u64).as_str());
        Err(AppError::Other(message))
    }
}

/// The PowerShell command that calls a method of the WMI class with a drive,
/// for where the class cannot be reached directly.
pub open spec fn invoke_command_of(method: WmiMethod, drive: Seq<char>) -> Seq<char> {
    "Invoke-WmiMethod -Namespace '"@ + WMI_NAMESPACE@ + "' -Class "@ + WMI_CLASS@ + " -Name "@
        + method.label() + " -ArgumentList '"@ + drive_root(drive) + "'"@
}

pub fn invoke_command(method: WmiMethod, drive: &str) -> (command: String)
    ensures
        command@ == invoke_command_of(method, drive@),
{
    let mut command = String::from_str("Invoke-WmiMethod -Namespace '");
    command.append(WMI_NAMESPACE);
    command.append("' -Class ");
    command.append(WMI_CLASS);
    command.append(" -Name ");
    command.append(method.as_str());
    command.append(" -ArgumentList '");
    command.append(normalize_drive(drive).as_str());
    command.append("'");
    command
}

/// One of the three providers.
#[derive(Debug, Clone, Copy, PartialEq, Eq, Structural)]
pub enum SystemRestoreProvider {
    /// Reads the registry; detects and changes nothing.
    Registry,
    /// Runs the restore cmdlets.
    PowerShell,
    /// Calls the `SystemRestore` class.
    Wmi,
}

/// What a provider is asked to do, ready for the caller to carry out.
#[derive(Debug, Clone)]
pub enum ProviderCall {
    /// Run this PowerShell command.
    RunCommand { command: String },
    /// Call this method of the WMI class with this drive.
    CallMethod { method: WmiMethod, root: String },
}

/// The mathematical value of a [`ProviderCall`].
pub enum ProviderCallView {
    RunCommand { command: Seq<char> },
    CallMethod { method: WmiMethod, root: Seq<char> },
}

impl View for ProviderCall {
    type V = ProviderCallView;

    open spec fn view(&self) -> ProviderCallView {
        match self {
            ProviderCall::RunCommand { command } => ProviderCallView::RunCommand {
                command: command@,
            },
            ProviderCall::CallMethod { method, root } => ProviderCallView::CallMethod {
                method: *method,
                root: root@,
            },
        }
    }
}

pub open spec fn read_only_text() -> Seq<char> {
    "The registry provider cannot change System Restore"@
}

/// The mathematical value of a request's outcome.
pub open spec fn request_of(result: Result<ProviderCall, AppError>) -> Result<
    ProviderCallView,
    AppErrorView,
> {
    match result {
        Ok(call) => Ok(call@),
        Err(e) => Err(e@),
    }
}

impl SystemRestoreProvider {
    /// The method that the provider works by.
    pub open spec fn method_of(&self) -> SystemRestoreMethod {
        match self {
            SystemRestoreProvider::Registry => SystemRestoreMethod::RegistryOnly,
            SystemRestoreProvider::PowerShell => SystemRestoreMethod::PowerShell,
            SystemRestoreProvider::Wmi => SystemRestoreMethod::Wmi,
        }
    }

    #[verifier::when_used_as_spec(method_of)]
    pub fn method(&self) -> (method: SystemRestoreMethod)
        ensures
            method == self.method_of(),
    {
        match self {
            SystemRestoreProvider::Registry => SystemRestoreMethod::RegistryOnly,
            SystemRestoreProvider::PowerShell => SystemRestoreMethod::PowerShell,
            SystemRestoreProvider::Wmi => SystemRestoreMethod::Wmi,
        }
    }

    /// The provider for a method; the native client has none.
    pub open spec fn for_method(method: SystemRestoreMethod) -> Option<SystemRestoreProvider> {
        match method {
            SystemRestoreMethod::RegistryOnly => Some(SystemRestoreProvider::Registry),
            SystemRestoreMethod::PowerShell => Some(SystemRestoreProvider::PowerShell),
            SystemRestoreMethod::Wmi => Some(SystemRestoreProvider::Wmi),
            SystemRestoreMethod::Native => None,
        }
    }

    #[verifier::when_used_as_spec(for_method)]
    pub fn of_method(method: SystemRestoreMethod) -> (provider: Option<SystemRestoreProvider>)
        ensures
            provider == Self::for_method(method),
    {
        match method {
            SystemRestoreMethod::RegistryOnly => Some(SystemRestoreProvider::Registry),
            SystemRestoreMethod::PowerShell => Some(SystemRestoreProvider::PowerShell),
            SystemRestoreMethod::Wmi => Some(SystemRestoreProvider::Wmi),
            SystemRestoreMethod::Native => None,
        }
    }

    /// Whether the provider can be used, given whether the WMI class can be
    /// reached and whether PowerShell can be run. The registry always can.
    pub open spec fn available(&self, wmi: bool, powershell: bool) -> bool {
        match self {
            SystemRestoreProvider::Registry => true,
            SystemRestoreProvider::PowerShell => powershell,
            SystemRestoreProvider::Wmi => wmi,
        }
    }

    #[verifier::when_used_as_spec(available)]
    pub fn is_available(&self, wmi: bool, powershell: bool) -> (b: bool)
        ensures
            b == self.available(wmi, powershell),
    {
        match self {
            SystemRestoreProvider::Registry => true,
            SystemRestoreProvider::PowerShell => powershell,
            SystemRestoreProvider::Wmi => wmi,
        }
    }

    /// What switching protection on for `drive` takes with this provider.
    /// The registry provider always fails.
    pub open spec fn enable_request(&self, drive: Seq<char>) -> Result<
        ProviderCallView,
        AppErrorView,
    > {
        match self {
            SystemRestoreProvider::Registry => Err(AppErrorView::Other(read_only_text())),
            SystemRestoreProvider::PowerShell => Ok(
                ProviderCallView::RunCommand { command: enable_command_of(drive) },
            ),
            SystemRestoreProvider::Wmi => Ok(
                ProviderCallView::CallMethod { method: WmiMethod::Enable, root: drive_root(drive) },
            ),
        }
    }

    pub fn enable(&self, drive: &str) -> (result: Result<ProviderCall, AppError>)
        ensures
            request_of(result) == self.enable_request(drive@),
    {
        match self {
            SystemRestoreProvider::Registry => Err(
                AppError::Other(
                    String::from_str("The registry provider cannot change System Restore"),
                ),
            ),
            SystemRestoreProvider::PowerShell => Ok(
                ProviderCall::RunCommand { command: enable_command(drive) },
            ),
            SystemRestoreProvider::Wmi => Ok(
                ProviderCall::CallMethod {
                    method: WmiMethod::Enable,
                    root: normalize_drive(drive),
                },
            ),
        }
    }

    /// What switching protection off for `drive` takes with this provider.
    /// The registry provider always fails.
    pub open spec fn disable_request(&self, drive: Seq<char>) -> Result<
        ProviderCallView,
        AppErrorView,
    > {
        match self {
            SystemRestoreProvider::Registry => Err(AppErrorView::Other(read_only_text())),
            SystemRestoreProvider::PowerShell => Ok(
                ProviderCallView::RunCommand { command: disable_command_of(drive) },
            ),
            SystemRestoreProvider::Wmi => Ok(
                ProviderCallView::CallMethod {
                    method: WmiMethod::Disable,
                    root: drive_root(drive),
                },
            ),
        }
    }

    pub fn disable(&self, drive: &str) -> (result: Result<ProviderCall, AppError>)
        ensures
            request_of(result) == self.disable_request(drive@),
    {
        match self {
            SystemRestoreProvider::Registry => Err(
                AppError::Other(
                    String::from_str("The registry provider cannot change System Restore"),
                ),
            ),
            SystemRestoreProvider::PowerShell => Ok(
                ProviderCall::RunCommand { command: disable_command(drive) },
            ),
            SystemRestoreProvider::Wmi => Ok(
                ProviderCall::CallMethod {
                    method: WmiMethod::Disable,
                    root: normalize_drive(drive),
                },
            ),
        }
    }
}

/// The registry provider never changes anything: both of its requests fail,
/// for every drive. The other two providers always have a request to make.
pub proof fn lemma_registry_is_read_only(provider: SystemRestoreProvider, drive: Seq<char>)
    ensures
        provider.enable_request(drive) is Err <==> provider == SystemRestoreProvider::Registry,
        provider.disable_request(drive) is Err <==> provider == SystemRestoreProvider::Registry,
        provider.enable_request(drive) is Ok <==> provider.method_of().mutating(),
{
}

} // verus!
