//! The System Restore checker: the state that the registry shows, the choice
//! of a provider, and the steps that switch protection on.

use vstd::prelude::*;
use vstd::string::*;

use crate::domain::common::{OperationResult, OperationResultView};
use crate::domain::system_restore::{
    RestoreEventType, RestorePointType, SystemRestoreDriveStatus, SystemRestoreDriveStatusView,
    SystemRestoreInfo, SystemRestoreInfoView, SystemRestoreMethod,
};
use crate::providers::{
    drive_root, is_protection_enabled, key_missing_text, normalize_drive, protection_of,
    DriveRegistry,
};

verus! {

/// The least time between two restore points that is written where none is
/// set: a day, in minutes.
pub const DEFAULT_FREQUENCY_MINUTES: u32 = 1440;

/// The description of the restore point made after protection is switched
/// on.
pub const INITIAL_POINT_DESCRIPTION: &'static str = "System Restore enabled";

/// Whether System Restore is on for the machine: the kill switch is absent
/// or 0, and the session interval is 1.
pub open spec fn globally_enabled(disable_sr: Option<u32>, session_interval: Option<u32>) -> bool {
    (disable_sr is None || disable_sr == Some(0u32)) && session_interval == Some(1u32)
}

#[verifier::when_used_as_spec(globally_enabled)]
pub fn check_registry(disable_sr: Option<u32>, session_interval: Option<u32>) -> (enabled: bool)
    ensures
        enabled == globally_enabled(disable_sr, session_interval),
{
    let switched_off = match disable_sr {
        Some(value) => value != 0,
        None => false,
    };
    let interval_on = match session_interval {
        Some(value) => value == 1,
        None => false,
    };
    !switched_off && interval_on
}

/// The methods that can be used, best first: WMI before PowerShell, and the
/// registry, which is always there, last.
pub open spec fn methods_of(wmi: bool, powershell: bool) -> Seq<SystemRestoreMethod> {
    (if wmi {
        seq![SystemRestoreMethod::Wmi]
    } else {
        seq![]
    }) + (if powershell {
        seq![SystemRestoreMethod::PowerShell]
    } else {
        seq![]
    }) + seq![SystemRestoreMethod::RegistryOnly]
}

pub fn available_methods(wmi: bool, powershell: bool) -> (methods: Vec<SystemRestoreMethod>)
    ensures
        methods@ == methods_of(wmi, powershell),
{
    let mut methods: Vec<SystemRestoreMethod> = Vec::new();
    if wmi {
        methods.push(SystemRestoreMethod::Wmi);
    }
    if powershell {
        methods.push(SystemRestoreMethod::PowerShell);
    }
    methods.push(SystemRestoreMethod::RegistryOnly);
    assert(methods@ =~= methods_of(wmi, powershell));
    methods
}

/// The position of the first method in `methods` that can switch protection
/// on, or the length of `methods` where none can.
pub open spec fn first_mutating(methods: Seq<SystemRestoreMethod>) -> int
    decreases methods.len(),
{
    if methods.len() == 0 {
        0
    } else if methods[0].mutating() {
        0
    } else {
        1 + first_mutating(methods.drop_first())
    }
}

/// The method to change protection with: the first in `methods` that can.
pub open spec fn mutating_choice(methods: Seq<SystemRestoreMethod>) -> Option<
    SystemRestoreMethod,
> {
    if first_mutating(methods) < methods.len() {
        Some(methods[first_mutating(methods)])
    } else {
        None
    }
}

/// The method to prefer: the first that can change protection; where none
/// can, the first of all.
pub open spec fn preferred_of(methods: Seq<SystemRestoreMethod>) -> Option<SystemRestoreMethod> {
    match mutating_choice(methods) {
        Some(method) => Some(method),
        None => if methods.len() > 0 {
            Some(methods[0])
        } else {
            None
        },
    }
}

/// The position found is the first at which a method can change
/// protection.
pub proof fn lemma_first_mutating(methods: Seq<SystemRestoreMethod>)
    ensures
        0 <= first_mutating(methods) <= methods.len(),
        first_mutating(methods) < methods.len() ==> methods[first_mutating(methods)].mutating(),
        forall|j: int| 0 <= j < first_mutating(methods) ==> !(#[trigger] methods[j]).mutating(),
    decreases methods.len(),
{
    if methods.len() > 0 && !methods[0].mutating() {
        let rest = methods.drop_first();
        lemma_first_mutating(rest);
        assert forall|j: int| 0 <= j < first_mutating(methods) implies !(
        #[trigger] methods[j]).mutating() by {
            if j > 0 {
                assert(methods[j] == rest[j - 1]);
            }
        }
    }
}

proof fn lemma_first_mutating_is(methods: Seq<SystemRestoreMethod>, i: int)
    requires
        0 <= i <= methods.len(),
        forall|j: int| 0 <= j < i ==> !(#[trigger] methods[j]).mutating(),
        i < methods.len() ==> methods[i].mutating(),
    ensures
        first_mutating(methods) == i,
{
    lemma_first_mutating(methods);
    let p = first_mutating(methods);
    if p < i {
        assert(!methods[p].mutating());
    } else if i < p {
        assert(!methods[i].mutating());
    }
}

/// Picks the method to change protection with.
pub fn mutating_method(methods: &Vec<SystemRestoreMethod>) -> (choice: Option<SystemRestoreMethod>)
    ensures
        choice == mutating_choice(methods@),
{
    let mut i: usize = 0;
    while i < methods.len()
        invariant
            i <= methods.len(),
            forall|j: int| 0 <= j < i ==> !(#[trigger] methods[j]).mutating(),
        decreases methods.len() - i,
    {
        if methods[i].can_mutate() {
            proof {
                lemma_first_mutating_is(methods@, i as int);
            }
            return Some(methods[i]);
        }
        i += 1;
    }
    proof {
        lemma_first_mutating_is(methods@, i as int);
    }
    None
}

/// Picks the method to prefer.
pub fn preferred_method(methods: &Vec<SystemRestoreMethod>) -> (choice: Option<
    SystemRestoreMethod,
>)
    ensures
        choice == preferred_of(methods@),
{
    match mutating_method(methods) {
        Some(method) => Some(method),
        None => if methods.len() > 0 {
            Some(methods[0])
        } else {
            None
        },
    }
}

/// What was read for one drive.
#[derive(Debug, Clone)]
pub struct DriveReading {
    /// The drive, such as `C:`.
    pub drive: String,
    /// Whether the drive's own settings key exists.
    pub config_present: bool,
}

/// The mathematical value of a [`DriveReading`].
pub struct DriveReadingView {
    pub drive: Seq<char>,
    pub config_present: bool,
}

impl View for DriveReading {
    type V = DriveReadingView;

    open spec fn view(&self) -> DriveReadingView {
        DriveReadingView { drive: self.drive@, config_present: self.config_present }
    }
}

impl DeepView for DriveReading {
    type V = DriveReadingView;

    open spec fn deep_view(&self) -> DriveReadingView {
        self@
    }
}

/// What the checker learned from the system, before it is interpreted.
#[derive(Debug, Clone)]
pub struct RestoreReadings {
    /// Whether the System Restore key could be opened.
    pub key_present: bool,
    /// The kill switch.
    pub disable_sr: Option<u32>,
    /// The session interval.
    pub session_interval: Option<u32>,
    /// The drives that were looked at.
    pub drives: Vec<DriveReading>,
    /// Whether the WMI class can be reached.
    pub wmi_available: bool,
    /// Whether PowerShell can be run.
    pub powershell_available: bool,
}

/// The mathematical value of a [`RestoreReadings`].
pub struct RestoreReadingsView {
    pub key_present: bool,
    pub disable_sr: Option<u32>,
    pub session_interval: Option<u32>,
    pub drives: Seq<DriveReadingView>,
    pub wmi_available: bool,
    pub powershell_available: bool,
}

impl View for RestoreReadings {
    type V = RestoreReadingsView;

    open spec fn view(&self) -> RestoreReadingsView {
        RestoreReadingsView {
            key_present: self.key_present,
            disable_sr: self.disable_sr,
            session_interval: self.session_interval,
            drives: self.drives.deep_view(),
            wmi_available: self.wmi_available,
            powershell_available: self.powershell_available,
        }
    }
}

/// The status of one drive as the registry shows it. Where the registry
/// shows nothing, the drive counts as unprotected and the status says why.
pub open spec fn drive_status_of(
    readings: RestoreReadingsView,
    drive: DriveReadingView,
) -> SystemRestoreDriveStatusView {
    let shown = protection_of(
        DriveRegistry {
            config_present: drive.config_present,
            key_present: readings.key_present,
            session_interval: readings.session_interval,
        },
    );
    SystemRestoreDriveStatusView {
        drive: drive.drive,
        is_enabled: shown == Some(true),
        detection_method: SystemRestoreMethod::RegistryOnly,
        error_message: if shown is None {
            Some("Registry error: "@ + key_missing_text())
        } else {
            None
        },
    }
}

/// The state of System Restore that follows from the readings. Detection
/// goes by the registry alone; the methods listed are those for changes.
pub open spec fn info_of(readings: RestoreReadingsView) -> SystemRestoreInfoView {
    let methods = methods_of(readings.wmi_available, readings.powershell_available);
    SystemRestoreInfoView {
        global_enabled: globally_enabled(readings.disable_sr, readings.session_interval),
        drive_statuses: readings.drives.map_values(
            |d: DriveReadingView| drive_status_of(readings, d),
        ),
        available_methods: methods,
        preferred_method: preferred_of(methods),
    }
}

fn drive_status(readings: &RestoreReadings, drive: &DriveReading) -> (status:
    SystemRestoreDriveStatus)
    ensures
        status@ == drive_status_of(readings@, drive@),
{
    let shown = is_protection_enabled(
        DriveRegistry {
            config_present: drive.config_present,
            key_present: readings.key_present,
            session_interval: readings.session_interval,
        },
    );
    match shown {
        Ok(enabled) => SystemRestoreDriveStatus {
            drive: drive.drive.clone(),
            is_enabled: enabled,
            detection_method: SystemRestoreMethod::RegistryOnly,
            error_message: None,
        },
        Err(e) => SystemRestoreDriveStatus {
            drive: drive.drive.clone(),
            is_enabled: false,
            detection_method: SystemRestoreMethod::RegistryOnly,
            error_message: Some(e.to_user_string()),
        },
    }
}

/// Puts together the state of System Restore.
pub fn get_info(readings: &RestoreReadings) -> (info: SystemRestoreInfo)
    ensures
        info@ == info_of(readings@),
{
    let mut drive_statuses: Vec<SystemRestoreDriveStatus> = Vec::new();
    let mut i: usize = 0;
    while i < readings.drives.len()
        invariant
            i <= readings.drives.len(),
            drive_statuses.len() == i,
            forall|j: int|
                0 <= j < i ==> (#[trigger] drive_statuses[j])@ == drive_status_of(
                    readings@,
                    readings.drives[j]@,
                ),
        decreases readings.drives.len() - i,
    {
        drive_statuses.push(drive_status(readings, &readings.drives[i]));
        i += 1;
    }
    let methods = available_methods(readings.wmi_available, readings.powershell_available);
    let preferred = preferred_method(&methods);
    let info = SystemRestoreInfo {
        global_enabled: check_registry(readings.disable_sr, readings.session_interval),
        drive_statuses,
        available_methods: methods,
        preferred_method: preferred,
    };
    assert(info@.drive_statuses =~= info_of(readings@).drive_statuses);
    info
}

/// With a session interval of 0 and no kill switch, System Restore is
/// reported as off for the machine.
pub proof fn lemma_interval_zero_is_disabled(readings: RestoreReadingsView)
    requires
        readings.session_interval == Some(0u32),
        readings.disable_sr is None,
    ensures
        !info_of(readings).global_enabled,
{
}

/// System Restore is reported as on for the machine exactly when the
/// session interval is 1 and the kill switch is not set.
pub proof fn lemma_global_flag(readings: RestoreReadingsView)
    ensures
        info_of(readings).global_enabled <==> readings.session_interval == Some(1u32) && (
        readings.disable_sr is None || readings.disable_sr == Some(0u32)),
{
}

/// What is to follow once protection is on.
#[derive(Debug, Clone, Copy, PartialEq, Eq, Structural)]
pub struct EnableOptions {
    /// Make sure that a restore point frequency is set.
    pub ensure_frequency: bool,
    /// Make a first restore point.
    pub create_restore_point: bool,
}

/// What an enable sequence has settled on.
#[derive(Debug, Clone, Copy, PartialEq, Eq, Structural)]
pub struct EnablePlan {
    pub method: SystemRestoreMethod,
    pub options: EnableOptions,
}

/// Where switching protection on stands.
#[derive(Debug, Clone, Copy, PartialEq, Eq, Structural)]
pub enum RestorePhase {
    /// Nothing has been asked yet.
    Idle,
    /// The provider has been asked to switch protection on.
    Enabling(EnablePlan),
    /// Protection is on; the frequency value has been asked for.
    ReadingFrequency(EnablePlan),
    /// Protection is on; the default frequency is being written.
    WritingFrequency(EnablePlan),
    /// Protection is on; the first restore point is being made.
    CreatingPoint(EnablePlan),
    /// A result has been given.
    Done,
}

/// What the caller reports back.
#[derive(Debug, Clone)]
pub enum RestoreEvent {
    /// Switching protection on for `drive` is asked for, with the rights of
    /// the process and the methods that can be used, best first.
    Requested {
        is_admin: bool,
        drive: String,
        methods: Vec<SystemRestoreMethod>,
        options: EnableOptions,
    },
    /// The provider was asked; the error's message if it failed.
    ProviderFinished { error: Option<String> },
    /// The frequency value was read.
    FrequencyRead { value: Option<u32> },
    /// The frequency value was written, or the write failed.
    FrequencyWritten,
    /// The restore point was asked for; the error's message if it failed.
    PointCreated { failure: Option<String> },
}

/// The mathematical value of a [`RestoreEvent`].
pub enum RestoreEventView {
    Requested {
        is_admin: bool,
        drive: Seq<char>,
        methods: Seq<SystemRestoreMethod>,
        options: EnableOptions,
    },
    ProviderFinished { error: Option<Seq<char>> },
    FrequencyRead { value: Option<u32> },
    FrequencyWritten,
    PointCreated { failure: Option<Seq<char>> },
}

impl View for RestoreEvent {
    type V = RestoreEventView;

    open spec fn view(&self) -> RestoreEventView {
        match self {
            RestoreEvent::Requested { is_admin, drive, methods, options } => {
                RestoreEventView::Requested {
                    is_admin: *is_admin,
                    drive: drive@,
                    methods: methods@,
                    options: *options,
                }
            },
            RestoreEvent::ProviderFinished { error } => RestoreEventView::ProviderFinished {
                error: match error {
                    Some(e) => Some(e@),
                    None => None,
                },
            },
            RestoreEvent::FrequencyRead { value } => RestoreEventView::FrequencyRead {
                value: *value,
            },
            RestoreEvent::FrequencyWritten => RestoreEventView::FrequencyWritten,
            RestoreEvent::PointCreated { failure } => RestoreEventView::PointCreated {
                failure: match failure {
                    Some(e) => Some(e@),
                    None => None,
                },
            },
        }
    }
}

/// What the caller is to do next.
#[derive(Debug, Clone)]
pub enum RestoreAction {
    /// Switch protection on for the drive, by the method named.
    EnableProtection { method: SystemRestoreMethod, root: String },
    /// Read the restore point frequency from the registry.
    ReadFrequency,
    /// Write the restore point frequency to the registry.
    WriteFrequency { minutes: u32 },
    /// Make a restore point.
    CreateRestorePoint {
        description: String,
        event_type: RestoreEventType,
        point_type: RestorePointType,
    },
    /// Stop and show this result.
    Finish(OperationResult),
}

/// The mathematical value of a [`RestoreAction`].
pub enum RestoreActionView {
    EnableProtection { method: SystemRestoreMethod, root: Seq<char> },
    ReadFrequency,
    WriteFrequency { minutes: u32 },
    CreateRestorePoint {
        description: Seq<char>,
        event_type: RestoreEventType,
        point_type: RestorePointType,
    },
    Finish(OperationResultView),
}

impl View for RestoreAction {
    type V = RestoreActionView;

    open spec fn view(&self) -> RestoreActionView {
        match self {
            RestoreAction::EnableProtection { method, root } => {
                RestoreActionView::EnableProtection { method: *method, root: root@ }
            },
            RestoreAction::ReadFrequency => RestoreActionView::ReadFrequency,
            RestoreAction::WriteFrequency { minutes } => RestoreActionView::WriteFrequency {
                minutes: *minutes,
            },
            RestoreAction::CreateRestorePoint { description, event_type, point_type } => {
                RestoreActionView::CreateRestorePoint {
                    description: description@,
                    event_type: *event_type,
                    point_type: *point_type,
                }
            },
            RestoreAction::Finish(result) => RestoreActionView::Finish(result@),
        }
    }
}

pub open spec fn admin_required_text() -> Seq<char> {
    "Administrator privileges required to enable System Restore"@
}

pub open spec fn no_method_text() -> Seq<char> {
    "No available method can enable System Restore"@
}

pub open spec fn enable_failed_text(error: Seq<char>) -> Seq<char> {
    "Failed to enable System Restore: "@ + error
}

pub open spec fn enabled_text(method: SystemRestoreMethod) -> Seq<char> {
    "System Restore enabled via "@ + method.label()
}

pub open spec fn point_failed_text(method: SystemRestoreMethod, error: Seq<char>) -> Seq<char> {
    enabled_text(method) + ", but the restore point could not be created: "@ + error
}

pub open spec fn out_of_turn_text() -> Seq<char> {
    "Unexpected step while enabling System Restore"@
}

/// The plain success at the end of a sequence.
pub open spec fn finished(plan: EnablePlan) -> (RestorePhase, RestoreActionView) {
    (
        RestorePhase::Done,
        RestoreActionView::Finish(OperationResultView::succeeded(enabled_text(plan.method))),
    )
}

/// What follows once the frequency is settled: the first restore point, if
/// one is wanted.
pub open spec fn after_frequency(plan: EnablePlan) -> (RestorePhase, RestoreActionView) {
    if plan.options.create_restore_point {
        (
            RestorePhase::CreatingPoint(plan),
            RestoreActionView::CreateRestorePoint {
                description: INITIAL_POINT_DESCRIPTION@,
                event_type: RestoreEventType::BeginSystemChange,
                point_type: RestorePointType::ModifySettings,
            },
        )
    } else {
        finished(plan)
    }
}

/// What follows once protection is on: a look at the frequency, if that is
/// wanted.
pub open spec fn after_enable(plan: EnablePlan) -> (RestorePhase, RestoreActionView) {
    if plan.options.ensure_frequency {
        (RestorePhase::ReadingFrequency(plan), RestoreActionView::ReadFrequency)
    } else {
        after_frequency(plan)
    }
}

/// The rule of the enable sequence: the next phase and the action that
/// follow from a phase and an event.
///
/// A request is refused without administrator rights, before anything else
/// is looked at, and fails where no method can change protection. Otherwise
/// the first such method is asked. Once it reports success the sequence can
/// no longer fail: a frequency is written only where none is set, and a
/// restore point that cannot be made is told in the message of a success.
pub open spec fn transition(phase: RestorePhase, event: RestoreEventView) -> (
    RestorePhase,
    RestoreActionView,
) {
    match (phase, event) {
        (RestorePhase::Idle, RestoreEventView::Requested { is_admin, drive, methods, options }) => {
            if !is_admin {
                (
                    RestorePhase::Done,
                    RestoreActionView::Finish(
                        OperationResultView::needs_admin(admin_required_text()),
                    ),
                )
            } else {
                match mutating_choice(methods) {
                    Some(method) => (
                        RestorePhase::Enabling(EnablePlan { method, options }),
                        RestoreActionView::EnableProtection { method, root: drive_root(drive) },
                    ),
                    None => (
                        RestorePhase::Done,
                        RestoreActionView::Finish(OperationResultView::failed(no_method_text())),
                    ),
                }
            }
        },
        (RestorePhase::Enabling(plan), RestoreEventView::ProviderFinished { error }) => {
            match error {
                Some(e) => (
                    RestorePhase::Done,
                    RestoreActionView::Finish(OperationResultView::failed(enable_failed_text(e))),
                ),
                None => after_enable(plan),
            }
        },
        (RestorePhase::ReadingFrequency(plan), RestoreEventView::FrequencyRead { value }) => {
            match value {
                Some(_) => after_frequency(plan),
                None => (
                    RestorePhase::WritingFrequency(plan),
                    RestoreActionView::WriteFrequency { minutes: DEFAULT_FREQUENCY_MINUTES },
                ),
            }
        },
        (RestorePhase::WritingFrequency(plan), RestoreEventView::FrequencyWritten) => {
            after_frequency(plan)
        },
        (RestorePhase::CreatingPoint(plan), RestoreEventView::PointCreated { failure }) => {
            match failure {
                Some(e) => (
                    RestorePhase::Done,
                    RestoreActionView::Finish(
                        OperationResultView::succeeded(point_failed_text(plan.method, e)),
                    ),
                ),
                None => finished(plan),
            }
        },
        _ => (
            RestorePhase::Done,
            RestoreActionView::Finish(OperationResultView::failed(out_of_turn_text())),
        ),
    }
}

fn enabled_message(method: SystemRestoreMethod) -> (message: String)
    ensures
        message@ == enabled_text(method),
{
    String::from_str("System Restore enabled via ").concat(method.as_str())
}

fn finish(plan: EnablePlan) -> (next: (RestorePhase, RestoreAction))
    ensures
        (next.0, next.1@) == finished(plan),
{
    let message = enabled_message(plan.method);
    (RestorePhase::Done, RestoreAction::Finish(OperationResult::success(message.as_str())))
}

fn continue_after_frequency(plan: EnablePlan) -> (next: (RestorePhase, RestoreAction))
    ensures
        (next.0, next.1@) == after_frequency(plan),
{
    if plan.options.create_restore_point {
        (
            RestorePhase::CreatingPoint(plan),
            RestoreAction::CreateRestorePoint {
                description: String::from_str(INITIAL_POINT_DESCRIPTION),
                event_type: RestoreEventType::BeginSystemChange,
                point_type: RestorePointType::ModifySettings,
            },
        )
    } else {
        finish(plan)
    }
}

fn continue_after_enable(plan: EnablePlan) -> (next: (RestorePhase, RestoreAction))
    ensures
        (next.0, next.1@) == after_enable(plan),
{
    if plan.options.ensure_frequency {
        (RestorePhase::ReadingFrequency(plan), RestoreAction::ReadFrequency)
    } else {
        continue_after_frequency(plan)
    }
}

fn out_of_turn() -> (next: (RestorePhase, RestoreAction))
    ensures
        next.0 == RestorePhase::Done,
        next.1@ == RestoreActionView::Finish(OperationResultView::failed(out_of_turn_text())),
{
    (
        RestorePhase::Done,
        RestoreAction::Finish(
            OperationResult::failure("Unexpected step while enabling System Restore"),
        ),
    )
}

/// One step of switching protection on: takes the phase and what the caller
/// reports, and gives the next phase and what the caller is to do.
pub fn enable(phase: RestorePhase, event: RestoreEvent) -> (next: (RestorePhase, RestoreAction))
    ensures
        (next.0, next.1@) == transition(phase, event@),
{
    match event {
        RestoreEvent::Requested { is_admin, drive, methods, options } => {
            if !matches!(phase, RestorePhase::Idle) {
                return out_of_turn();
            }
            if !is_admin {
                return (
                    RestorePhase::Done,
                    RestoreAction::Finish(
                        OperationResult::failure(
                            "Administrator privileges required to enable System Restore",
                        ).requires_admin(),
                    ),
                );
            }
            match mutating_method(&methods) {
                Some(method) => (
                    RestorePhase::Enabling(EnablePlan { method, options }),
                    RestoreAction::EnableProtection {
                        method,
                        root: normalize_drive(drive.as_str()),
                    },
                ),
                None => (
                    RestorePhase::Done,
                    RestoreAction::Finish(
                        OperationResult::failure("No available method can enable System Restore"),
                    ),
                ),
            }
        },
        RestoreEvent::ProviderFinished { error } => {
            match phase {
                RestorePhase::Enabling(plan) => match error {
                    Some(e) => {
                        let message = String::from_str("Failed to enable System Restore: ").concat(
                            e.as_str(),
                        );
                        (
                            RestorePhase::Done,
                            RestoreAction::Finish(OperationResult::failure(message.as_str())),
                        )
                    },
                    None => continue_after_enable(plan),
                },
                _ => out_of_turn(),
            }
        },
        RestoreEvent::FrequencyRead { value } => {
            match phase {
                RestorePhase::ReadingFrequency(plan) => match value {
                    Some(_) => continue_after_frequency(plan),
                    None => (
                        RestorePhase::WritingFrequency(plan),
                        RestoreAction::WriteFrequency { minutes: DEFAULT_FREQUENCY_MINUTES },
                    ),
                },
                _ => out_of_turn(),
            }
        },
        RestoreEvent::FrequencyWritten => {
            match phase {
                RestorePhase::WritingFrequency(plan) => continue_after_frequency(plan),
                _ => out_of_turn(),
            }
        },
        RestoreEvent::PointCreated { failure } => {
            match phase {
                RestorePhase::CreatingPoint(plan) => match failure {
                    Some(e) => {
                        let mut message = enabled_message(plan.method);
                        message.append(", but the restore point could not be created: ");
                        message.append(e.as_str());
                        (
                            RestorePhase::Done,
                            RestoreAction::Finish(OperationResult::success(message.as_str())),
                        )
                    },
                    None => finish(plan),
                },
                _ => out_of_turn(),
            }
        },
    }
}

/// Without administrator rights a request always ends at once, with a
/// failure that asks for them; no provider is asked.
pub proof fn lemma_enable_requires_admin(
    drive: Seq<char>,
    methods: Seq<SystemRestoreMethod>,
    options: EnableOptions,
)
    ensures
        ({
            let next = transition(
                RestorePhase::Idle,
                RestoreEventView::Requested { is_admin: false, drive, methods, options },
            );
            &&& next.0 == RestorePhase::Done
            &&& next.1 is Finish
            &&& !next.1->Finish_0.success
            &&& next.1->Finish_0.requires_admin
        }),
{
}

/// A provider is asked only on an administrator's request, and only one
/// that can change protection: never the registry.
pub proof fn lemma_provider_is_mutating(phase: RestorePhase, event: RestoreEventView)
    requires
        transition(phase, event).1 is EnableProtection,
    ensures
        phase == RestorePhase::Idle,
        event is Requested,
        event->is_admin,
        transition(phase, event).1->method.mutating(),
        Some(transition(phase, event).1->method) == mutating_choice(event->methods),
{
    lemma_first_mutating(event->methods);
}

/// The frequency is written only after it was read and found absent, and
/// then with the default.
pub proof fn lemma_frequency_written_only_if_absent(phase: RestorePhase, event: RestoreEventView)
    requires
        transition(phase, event).1 is WriteFrequency,
    ensures
        phase is ReadingFrequency,
        event == (RestoreEventView::FrequencyRead { value: None }),
        transition(phase, event).1->minutes == DEFAULT_FREQUENCY_MINUTES,
{
}

/// Once the provider has switched protection on, whatever follows in turn
/// ends in a success: a restore point that cannot be made does not undo it.
pub proof fn lemma_point_failure_is_no_failure(plan: EnablePlan, failure: Option<Seq<char>>)
    ensures
        ({
            let next = transition(
                RestorePhase::CreatingPoint(plan),
                RestoreEventView::PointCreated { failure },
            );
            &&& next.0 == RestorePhase::Done
            &&& next.1 is Finish
            &&& next.1->Finish_0.success
        }),
{
}

} // verus!
