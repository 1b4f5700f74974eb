use recent_enabler::domain::error::AppError;
use recent_enabler::domain::system_restore::{
    RestoreEventType, RestorePointType, SystemRestoreDriveStatus, SystemRestoreInfo,
    SystemRestoreMethod,
};
use recent_enabler::providers::{
    command_result, disable_command, drive_config_key, enable_command, essential_message,
    invoke_command, is_protection_enabled, normalize_drive, wmi_result, DriveRegistry, ProviderCall,
    SystemRestoreProvider, WmiMethod, SR_KEY,
};
use recent_enabler::services::system_restore::{
    available_methods, check_registry, enable, get_info, mutating_method, preferred_method,
    DriveReading, EnableOptions, EnablePlan, RestoreAction, RestoreEvent, RestorePhase,
    RestoreReadings, DEFAULT_FREQUENCY_MINUTES,
};

fn drive(name: &str, is_enabled: bool) -> SystemRestoreDriveStatus {
    SystemRestoreDriveStatus {
        drive: name.to_string(),
        is_enabled,
        detection_method: SystemRestoreMethod::RegistryOnly,
        error_message: None,
    }
}

fn info_with(drives: Vec<SystemRestoreDriveStatus>) -> SystemRestoreInfo {
    SystemRestoreInfo {
        global_enabled: true,
        drive_statuses: drives,
        available_methods: vec![SystemRestoreMethod::RegistryOnly],
        preferred_method: Some(SystemRestoreMethod::RegistryOnly),
    }
}

fn readings(interval: Option<u32>, disable_sr: Option<u32>) -> RestoreReadings {
    RestoreReadings {
        key_present: true,
        disable_sr,
        session_interval: interval,
        drives: vec![DriveReading { drive: "C:".to_string(), config_present: false }],
        wmi_available: false,
        powershell_available: false,
    }
}

fn options(ensure_frequency: bool, create_restore_point: bool) -> EnableOptions {
    EnableOptions { ensure_frequency, create_restore_point }
}

fn plan(method: SystemRestoreMethod, ensure_frequency: bool, create_restore_point: bool) -> EnablePlan {
    EnablePlan { method, options: options(ensure_frequency, create_restore_point) }
}

fn request(is_admin: bool, methods: Vec<SystemRestoreMethod>, opts: EnableOptions) -> RestoreEvent {
    RestoreEvent::Requested { is_admin, drive: "C:".to_string(), methods, options: opts }
}

fn finished(action: RestoreAction) -> recent_enabler::domain::common::OperationResult {
    match action {
        RestoreAction::Finish(result) => result,
        other => panic!("unexpected action: {:?}", other),
    }
}

#[test]
fn session_interval_zero_means_globally_disabled() {
    let info = get_info(&readings(Some(0), None));
    assert!(!info.global_enabled);
    assert_eq!(info.drive_statuses.len(), 1);
    assert!(!info.drive_statuses[0].is_enabled);
    assert!(!info.is_c_drive_enabled());
}

#[test]
fn global_flag_follows_interval_and_kill_switch() {
    assert!(check_registry(None, Some(1)));
    assert!(check_registry(Some(0), Some(1)));
    assert!(!check_registry(Some(1), Some(1)));
    assert!(!check_registry(Some(2), Some(1)));
    assert!(!check_registry(None, Some(0)));
    assert!(!check_registry(None, Some(2)));
    assert!(!check_registry(None, None));
    assert!(!check_registry(Some(1), None));
}

#[test]
fn info_reports_drives_by_the_registry() {
    let mut r = readings(Some(1), None);
    r.drives = vec![
        DriveReading { drive: "C:".to_string(), config_present: false },
        DriveReading { drive: "D:".to_string(), config_present: true },
    ];
    r.wmi_available = true;
    r.powershell_available = true;
    let info = get_info(&r);
    assert!(info.global_enabled);
    assert_eq!(info.drive_statuses.len(), 2);
    assert_eq!(info.drive_statuses[0].drive, "C:");
    assert!(info.drive_statuses[0].is_enabled);
    assert_eq!(info.drive_statuses[0].detection_method, SystemRestoreMethod::RegistryOnly);
    assert_eq!(info.drive_statuses[0].error_message, None);
    assert!(info.drive_statuses[1].is_enabled);
    assert_eq!(
        info.available_methods,
        vec![SystemRestoreMethod::Wmi, SystemRestoreMethod::PowerShell, SystemRestoreMethod::RegistryOnly]
    );
    assert_eq!(info.preferred_method, Some(SystemRestoreMethod::Wmi));
    assert!(info.is_c_drive_enabled());

    let mut no_key = readings(None, None);
    no_key.key_present = false;
    let info = get_info(&no_key);
    assert!(!info.global_enabled);
    assert!(!info.drive_statuses[0].is_enabled);
    assert_eq!(
        info.drive_statuses[0].error_message,
        Some("Registry error: SystemRestore registry key not found".to_string())
    );
    assert_eq!(info.available_methods, vec![SystemRestoreMethod::RegistryOnly]);
    assert_eq!(info.preferred_method, Some(SystemRestoreMethod::RegistryOnly));
}

#[test]
fn registry_shows_protection_per_drive() {
    let shown = |config_present, key_present, session_interval| {
        is_protection_enabled(DriveRegistry { config_present, key_present, session_interval })
    };
    assert_eq!(shown(true, false, None).ok(), Some(true));
    assert_eq!(shown(true, true, Some(0)).ok(), Some(true));
    assert_eq!(shown(false, true, Some(1)).ok(), Some(true));
    assert_eq!(shown(false, true, Some(0)).ok(), Some(false));
    assert_eq!(shown(false, true, Some(2)).ok(), Some(false));
    assert_eq!(shown(false, true, None).ok(), Some(false));
    match shown(false, false, Some(1)) {
        Err(AppError::Registry(message)) => assert_eq!(message, "SystemRestore registry key not found"),
        other => panic!("unexpected result: {:?}", other),
    }
}

#[test]
fn methods_are_listed_best_first() {
    assert_eq!(
        available_methods(true, true),
        vec![SystemRestoreMethod::Wmi, SystemRestoreMethod::PowerShell, SystemRestoreMethod::RegistryOnly]
    );
    assert_eq!(available_methods(false, true), vec![SystemRestoreMethod::PowerShell, SystemRestoreMethod::RegistryOnly]);
    assert_eq!(available_methods(true, false), vec![SystemRestoreMethod::Wmi, SystemRestoreMethod::RegistryOnly]);
    assert_eq!(available_methods(false, false), vec![SystemRestoreMethod::RegistryOnly]);
    assert_eq!(preferred_method(&available_methods(false, true)), Some(SystemRestoreMethod::PowerShell));
    assert_eq!(preferred_method(&available_methods(false, false)), Some(SystemRestoreMethod::RegistryOnly));
    assert_eq!(preferred_method(&Vec::new()), None);
    assert_eq!(mutating_method(&available_methods(false, false)), None);
    assert_eq!(mutating_method(&available_methods(true, true)), Some(SystemRestoreMethod::Wmi));
    assert_eq!(
        mutating_method(&vec![SystemRestoreMethod::RegistryOnly, SystemRestoreMethod::Native, SystemRestoreMethod::Wmi]),
        Some(SystemRestoreMethod::Native)
    );
    assert_eq!(
        preferred_method(&vec![SystemRestoreMethod::RegistryOnly, SystemRestoreMethod::PowerShell]),
        Some(SystemRestoreMethod::PowerShell)
    );
    assert!(SystemRestoreMethod::Wmi.can_mutate());
    assert!(SystemRestoreMethod::Native.can_mutate());
    assert!(SystemRestoreMethod::PowerShell.can_mutate());
    assert!(!SystemRestoreMethod::RegistryOnly.can_mutate());
    assert_eq!(SystemRestoreMethod::Wmi.as_str(), "WMI");
    assert_eq!(SystemRestoreMethod::Native.as_str(), "Native DLL");
    assert_eq!(SystemRestoreMethod::PowerShell.as_str(), "PowerShell");
    assert_eq!(SystemRestoreMethod::RegistryOnly.as_str(), "Registry");
}

#[test]
fn drive_status_is_found_whatever_the_spelling() {
    let info = info_with(vec![drive("D:", false), drive("c:\\", true), drive("C:", false)]);
    let found = info.get_drive_status("C:");
    assert_eq!(found.map(|s| s.drive.as_str()), Some("c:\\"));
    assert_eq!(info.get_drive_status("c:").map(|s| s.is_enabled), Some(true));
    assert_eq!(info.get_drive_status("C:\\\\").map(|s| s.is_enabled), Some(true));
    assert_eq!(info.get_drive_status("d:\\").map(|s| s.drive.as_str()), Some("D:"));
    assert!(info.get_drive_status("E:").is_none());
    assert!(info.get_drive_status("C").is_none());
    assert!(info.is_c_drive_enabled());
    assert!(!info_with(vec![drive("D:", true)]).is_c_drive_enabled());
    assert!(!info_with(vec![drive("C:", false), drive("c:", true)]).is_c_drive_enabled());
    assert!(!info_with(Vec::new()).is_c_drive_enabled());
}

#[test]
fn drives_are_normalized_for_the_providers() {
    assert_eq!(normalize_drive("C:"), "C:\\");
    assert_eq!(normalize_drive("C:\\"), "C:\\");
    assert_eq!(normalize_drive(""), "\\");
    assert_eq!(
        drive_config_key("C:\\"),
        "SOFTWARE\\Microsoft\\Windows NT\\CurrentVersion\\SystemRestore\\Cfg\\C"
    );
    assert_eq!(drive_config_key("D:"), format!("{}\\Cfg\\D", SR_KEY));
    assert_eq!(drive_config_key("E"), format!("{}\\Cfg\\E", SR_KEY));
    assert_eq!(drive_config_key("F::\\\\"), format!("{}\\Cfg\\F", SR_KEY));
    assert_eq!(enable_command("C:"), "Enable-ComputerRestore -Drive 'C:\\'");
    assert_eq!(enable_command("D:\\"), "Enable-ComputerRestore -Drive 'D:\\'");
    assert_eq!(disable_command("C:"), "Disable-ComputerRestore -Drive 'C:\\'");
}

#[test]
fn essential_message_is_the_first_line_that_says_something() {
    assert_eq!(essential_message("Access denied\nmore"), "Access denied");
    assert_eq!(essential_message("\n  \n\t\r\nEnable-ComputerRestore : Access denied\r\nAt line:1"), "Enable-ComputerRestore : Access denied");
    assert_eq!(
        essential_message("#< CLIXML\n$ProgressPreference = 'x'\nreal error\n"),
        "#< CLIXML"
    );
    assert_eq!(essential_message("$ProgressPreference\nreal error\n"), "real error");
    assert_eq!(essential_message("set ProgressPreference now\r\n\r\n  failure  \r\n"), "  failure  ");
    assert_eq!(essential_message(""), "");
    assert_eq!(essential_message("\n\n"), "\n\n");
    assert_eq!(essential_message("  \nProgressPreference"), "  \nProgressPreference");
    assert_eq!(essential_message("last line\r"), "last line\r");
    assert_eq!(essential_message("\u{a0}\u{3000}\nОшибка доступа\n"), "Ошибка доступа");
    assert_eq!(essential_message("ProgressPreferenc\n"), "ProgressPreferenc");
}

#[test]
fn command_result_carries_the_essential_message() {
    assert!(command_result(true, "ignored").is_ok());
    match command_result(false, "\nAccess denied\nAt line:1") {
        Err(AppError::PowerShell(message)) => assert_eq!(message, "Access denied"),
        other => panic!("unexpected result: {:?}", other),
    }
}

#[test]
fn wmi_return_value_zero_is_success() {
    assert!(wmi_result(WmiMethod::Enable, 0).is_ok());
    match wmi_result(WmiMethod::Enable, 5) {
        Err(AppError::Other(message)) => assert_eq!(message, "WMI Enable returned error code: 5"),
        other => panic!("unexpected result: {:?}", other),
    }
    match wmi_result(WmiMethod::Disable, 1058) {
        Err(AppError::Other(message)) => assert_eq!(message, "WMI Disable returned error code: 1058"),
        other => panic!("unexpected result: {:?}", other),
    }
    match wmi_result(WmiMethod::CreateRestorePoint, u32::MAX) {
        Err(AppError::Other(message)) => {
            assert_eq!(message, "WMI CreateRestorePoint returned error code: 4294967295")
        }
        other => panic!("unexpected result: {:?}", other),
    }
    assert_eq!(WmiMethod::Enable.as_str(), "Enable");
    assert_eq!(WmiMethod::Disable.as_str(), "Disable");
    assert_eq!(WmiMethod::CreateRestorePoint.as_str(), "CreateRestorePoint");
}

#[test]
fn restore_point_numbers() {
    assert_eq!(RestoreEventType::BeginSystemChange.code(), 100);
    assert_eq!(RestoreEventType::EndSystemChange.code(), 101);
    assert_eq!(RestorePointType::ApplicationInstall.code(), 0);
    assert_eq!(RestorePointType::ApplicationUninstall.code(), 1);
    assert_eq!(RestorePointType::DeviceDriverInstall.code(), 10);
    assert_eq!(RestorePointType::ModifySettings.code(), 12);
    assert_eq!(RestorePointType::CancelledOperation.code(), 13);
}

#[test]
fn enabling_restore_without_admin_rights_is_refused_at_once() {
    for methods in [available_methods(true, true), available_methods(false, false), Vec::new()] {
        let (phase, action) = enable(RestorePhase::Idle, request(false, methods, options(true, true)));
        assert_eq!(phase, RestorePhase::Done);
        let result = finished(action);
        assert!(!result.success);
        assert!(result.requires_admin);
        assert_eq!(result.message, "Administrator privileges required to enable System Restore");
    }
}

#[test]
fn enabling_restore_needs_a_method_that_can_change_it() {
    let (phase, action) = enable(RestorePhase::Idle, request(true, available_methods(false, false), options(true, true)));
    assert_eq!(phase, RestorePhase::Done);
    let result = finished(action);
    assert!(!result.success);
    assert!(!result.requires_admin);
    assert_eq!(result.message, "No available method can enable System Restore");
}

#[test]
fn enabling_restore_runs_through_all_steps() {
    let (phase, action) = enable(RestorePhase::Idle, request(true, available_methods(true, true), options(true, true)));
    let wmi = plan(SystemRestoreMethod::Wmi, true, true);
    assert_eq!(phase, RestorePhase::Enabling(wmi));
    match action {
        RestoreAction::EnableProtection { method, root } => {
            assert_eq!(method, SystemRestoreMethod::Wmi);
            assert_eq!(root, "C:\\");
        }
        other => panic!("unexpected action: {:?}", other),
    }
    let (phase, action) = enable(phase, RestoreEvent::ProviderFinished { error: None });
    assert_eq!(phase, RestorePhase::ReadingFrequency(wmi));
    assert!(matches!(action, RestoreAction::ReadFrequency));
    let (phase, action) = enable(phase, RestoreEvent::FrequencyRead { value: None });
    assert_eq!(phase, RestorePhase::WritingFrequency(wmi));
    match action {
        RestoreAction::WriteFrequency { minutes } => {
            assert_eq!(minutes, 1440);
            assert_eq!(minutes, DEFAULT_FREQUENCY_MINUTES);
        }
        other => panic!("unexpected action: {:?}", other),
    }
    let (phase, action) = enable(phase, RestoreEvent::FrequencyWritten);
    assert_eq!(phase, RestorePhase::CreatingPoint(wmi));
    match action {
        RestoreAction::CreateRestorePoint { description, event_type, point_type } => {
            assert_eq!(description, "System Restore enabled");
            assert_eq!(event_type, RestoreEventType::BeginSystemChange);
            assert_eq!(point_type, RestorePointType::ModifySettings);
        }
        other => panic!("unexpected action: {:?}", other),
    }
    let (phase, action) = enable(phase, RestoreEvent::PointCreated { failure: None });
    assert_eq!(phase, RestorePhase::Done);
    let result = finished(action);
    assert!(result.success);
    assert_eq!(result.message, "System Restore enabled via WMI");
}

#[test]
fn frequency_that_is_set_is_never_overwritten() {
    let ps = plan(SystemRestoreMethod::PowerShell, true, false);
    for value in [0, 1, 1440, u32::MAX] {
        let (phase, action) = enable(RestorePhase::ReadingFrequency(ps), RestoreEvent::FrequencyRead { value: Some(value) });
        assert_eq!(phase, RestorePhase::Done);
        let result = finished(action);
        assert!(result.success);
        assert_eq!(result.message, "System Restore enabled via PowerShell");
    }
}

#[test]
fn restore_point_failure_is_told_in_a_success() {
    let ps = plan(SystemRestoreMethod::PowerShell, false, true);
    let (phase, action) = enable(
        RestorePhase::CreatingPoint(ps),
        RestoreEvent::PointCreated { failure: Some("WMI CreateRestorePoint returned error code: 1".to_string()) },
    );
    assert_eq!(phase, RestorePhase::Done);
    let result = finished(action);
    assert!(result.success);
    assert!(!result.requires_admin);
    assert_eq!(
        result.message,
        "System Restore enabled via PowerShell, but the restore point could not be created: WMI CreateRestorePoint returned error code: 1"
    );
}

#[test]
fn provider_failure_fails_the_sequence() {
    let ps = plan(SystemRestoreMethod::PowerShell, true, true);
    let (phase, action) = enable(
        RestorePhase::Enabling(ps),
        RestoreEvent::ProviderFinished { error: Some("Access denied".to_string()) },
    );
    assert_eq!(phase, RestorePhase::Done);
    let result = finished(action);
    assert!(!result.success);
    assert_eq!(result.message, "Failed to enable System Restore: Access denied");
}

#[test]
fn options_shorten_the_sequence() {
    let bare = plan(SystemRestoreMethod::PowerShell, false, false);
    let (phase, action) = enable(RestorePhase::Enabling(bare), RestoreEvent::ProviderFinished { error: None });
    assert_eq!(phase, RestorePhase::Done);
    assert!(finished(action).success);
    let point_only = plan(SystemRestoreMethod::Wmi, false, true);
    let (phase, action) = enable(RestorePhase::Enabling(point_only), RestoreEvent::ProviderFinished { error: None });
    assert_eq!(phase, RestorePhase::CreatingPoint(point_only));
    assert!(matches!(action, RestoreAction::CreateRestorePoint { .. }));
    let (phase, action) = enable(RestorePhase::Idle, request(true, available_methods(false, true), options(false, false)));
    assert_eq!(phase, RestorePhase::Enabling(bare));
    assert!(matches!(action, RestoreAction::EnableProtection { method: SystemRestoreMethod::PowerShell, .. }));
}

#[test]
fn restore_events_out_of_turn_end_the_sequence() {
    let p = plan(SystemRestoreMethod::Wmi, true, true);
    let cases = vec![
        (RestorePhase::Idle, RestoreEvent::ProviderFinished { error: None }),
        (RestorePhase::Idle, RestoreEvent::FrequencyWritten),
        (RestorePhase::Enabling(p), RestoreEvent::FrequencyRead { value: None }),
        (RestorePhase::ReadingFrequency(p), RestoreEvent::FrequencyWritten),
        (RestorePhase::WritingFrequency(p), RestoreEvent::PointCreated { failure: None }),
        (RestorePhase::CreatingPoint(p), RestoreEvent::ProviderFinished { error: None }),
        (RestorePhase::Done, RestoreEvent::FrequencyRead { value: None }),
        (RestorePhase::Enabling(p), request(true, available_methods(true, true), options(true, true))),
    ];
    for (phase, event) in cases {
        let (next, action) = enable(phase, event);
        assert_eq!(next, RestorePhase::Done);
        let result = finished(action);
        assert!(!result.success);
        assert_eq!(result.message, "Unexpected step while enabling System Restore");
    }
}

#[test]
fn registry_provider_changes_nothing() {
    for drive in ["C:", "D:\\", ""] {
        match SystemRestoreProvider::Registry.enable(drive) {
            Err(AppError::Other(message)) => {
                assert_eq!(message, "The registry provider cannot change System Restore")
            }
            other => panic!("unexpected result: {:?}", other),
        }
        assert!(matches!(SystemRestoreProvider::Registry.disable(drive), Err(AppError::Other(_))));
    }
}

#[test]
fn providers_say_what_to_run() {
    match SystemRestoreProvider::PowerShell.enable("C:") {
        Ok(ProviderCall::RunCommand { command }) => {
            assert_eq!(command, "Enable-ComputerRestore -Drive 'C:\\'")
        }
        other => panic!("unexpected result: {:?}", other),
    }
    match SystemRestoreProvider::PowerShell.disable("C:\\") {
        Ok(ProviderCall::RunCommand { command }) => {
            assert_eq!(command, "Disable-ComputerRestore -Drive 'C:\\'")
        }
        other => panic!("unexpected result: {:?}", other),
    }
    match SystemRestoreProvider::Wmi.enable("D:") {
        Ok(ProviderCall::CallMethod { method, root }) => {
            assert_eq!(method, WmiMethod::Enable);
            assert_eq!(root, "D:\\");
        }
        other => panic!("unexpected result: {:?}", other),
    }
    match SystemRestoreProvider::Wmi.disable("D:\\") {
        Ok(ProviderCall::CallMethod { method, root }) => {
            assert_eq!(method, WmiMethod::Disable);
            assert_eq!(root, "D:\\");
        }
        other => panic!("unexpected result: {:?}", other),
    }
}

#[test]
fn providers_and_their_methods() {
    assert_eq!(SystemRestoreProvider::Registry.method(), SystemRestoreMethod::RegistryOnly);
    assert_eq!(SystemRestoreProvider::PowerShell.method(), SystemRestoreMethod::PowerShell);
    assert_eq!(SystemRestoreProvider::Wmi.method(), SystemRestoreMethod::Wmi);
    assert_eq!(SystemRestoreProvider::of_method(SystemRestoreMethod::Wmi), Some(SystemRestoreProvider::Wmi));
    assert_eq!(
        SystemRestoreProvider::of_method(SystemRestoreMethod::PowerShell),
        Some(SystemRestoreProvider::PowerShell)
    );
    assert_eq!(
        SystemRestoreProvider::of_method(SystemRestoreMethod::RegistryOnly),
        Some(SystemRestoreProvider::Registry)
    );
    assert_eq!(SystemRestoreProvider::of_method(SystemRestoreMethod::Native), None);
    for wmi in [false, true] {
        for powershell in [false, true] {
            assert!(SystemRestoreProvider::Registry.is_available(wmi, powershell));
            assert_eq!(SystemRestoreProvider::Wmi.is_available(wmi, powershell), wmi);
            assert_eq!(SystemRestoreProvider::PowerShell.is_available(wmi, powershell), powershell);
        }
    }
}

#[test]
fn wmi_methods_can_be_called_through_powershell() {
    assert_eq!(
        invoke_command(WmiMethod::Enable, "C:"),
        "Invoke-WmiMethod -Namespace 'root\\default' -Class SystemRestore -Name Enable -ArgumentList 'C:\\'"
    );
    assert_eq!(
        invoke_command(WmiMethod::Disable, "D:\\"),
        "Invoke-WmiMethod -Namespace 'root\\default' -Class SystemRestore -Name Disable -ArgumentList 'D:\\'"
    );
}
