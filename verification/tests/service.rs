use recent_enabler::domain::common::Timestamp;
use recent_enabler::domain::prefetch::{ServiceState, StartupMode};
use recent_enabler::error::RecentEnablerError;
use recent_enabler::folders::{get_prefetch_folder, get_recent_folder, join};
use recent_enabler::registry::Hive;
use recent_enabler::domain::error::AppError;
use recent_enabler::scanner::{scan_folder, DirEntryInfo, Listing};
use recent_enabler::domain::system_restore::SystemRestoreMethod;
use recent_enabler::service::{
    check_recent, check_sysmain, check_system_restore, enable_recent, enable_sysmain,
    enable_system_restore, get_system_restore_info, is_recent_disabled, RecentFix,
    RecentSettings,
};
use recent_enabler::services::prefetch::{EnableAction, EnablePhase};
use recent_enabler::services::system_restore::{
    available_methods, EnableOptions, EnablePlan, RestoreAction, RestorePhase,
};
use recent_enabler::service_control::ServiceQuery;
use recent_enabler::status::system_time_to_timestamp;

fn settings(track_docs: Option<u32>, show_recent: Option<u32>, show_frequent: Option<u32>) -> RecentSettings {
    RecentSettings { track_docs, show_recent, show_frequent }
}

fn file(name: &str, secs: u64) -> DirEntryInfo {
    DirEntryInfo { file_name: name.to_string(), modified: Some(Timestamp { secs, nanos: 0 }) }
}

#[test]
fn test_get_recent_folder() {
    let path = get_recent_folder(Some("C:\\Users\\u\\AppData\\Roaming")).unwrap();
    assert!(path.contains("Recent"));
    assert_eq!(path, "C:\\Users\\u\\AppData\\Roaming\\Microsoft\\Windows\\Recent");
}

#[test]
fn test_get_prefetch_folder() {
    let path = get_prefetch_folder(Some("C:\\Windows"), None).unwrap();
    assert!(path.contains("Prefetch"));
    assert_eq!(path, "C:\\Windows\\Prefetch");
}

#[test]
fn folders_need_their_variables() {
    match get_recent_folder(None) {
        Err(RecentEnablerError::RecentFolderNotFound(reason)) => assert_eq!(reason, "APPDATA is not set"),
        other => panic!("unexpected result: {:?}", other),
    }
    match get_prefetch_folder(None, None) {
        Err(RecentEnablerError::WindowsPathNotFound(reason)) => {
            assert_eq!(reason, "neither SystemRoot nor windir is set")
        }
        other => panic!("unexpected result: {:?}", other),
    }
    assert_eq!(get_prefetch_folder(None, Some("D:\\WINNT")).unwrap(), "D:\\WINNT\\Prefetch");
    assert_eq!(get_prefetch_folder(Some("C:\\Windows"), Some("D:\\WINNT")).unwrap(), "C:\\Windows\\Prefetch");
    assert_eq!(join("C:\\Windows\\", "Prefetch"), "C:\\Windows\\Prefetch");
    assert_eq!(join("C:/Windows/", "Prefetch"), "C:/Windows/Prefetch");
    assert_eq!(join("", "Prefetch"), "Prefetch");
    assert_eq!(join("C:\\Windows", ""), "C:\\Windows\\");
}

#[test]
fn tracking_counts_as_off_when_a_switch_is_off() {
    assert!(!is_recent_disabled(settings(Some(1), Some(1), Some(1))));
    assert!(!is_recent_disabled(settings(Some(1), None, None)));
    assert!(!is_recent_disabled(settings(Some(2), Some(2), Some(2))));
    assert!(is_recent_disabled(settings(None, Some(1), Some(1))));
    assert!(is_recent_disabled(settings(Some(0), Some(1), Some(1))));
    assert!(is_recent_disabled(settings(Some(1), Some(0), Some(1))));
    assert!(is_recent_disabled(settings(Some(1), Some(1), Some(0))));
    assert!(is_recent_disabled(settings(None, None, None)));
}

#[test]
fn recent_snapshot_counts_shortcuts() {
    let listing = Listing::Entries(vec![file("a.lnk", 30), file("b.LNK", 10), file("c.txt", 1)]);
    let status = check_recent("R", settings(Some(0), Some(1), Some(1)), scan_folder(&listing, "lnk")).unwrap();
    assert_eq!(status.path, "R");
    assert!(status.is_disabled);
    assert_eq!(status.files_count, 2);
    assert_eq!(status.oldest_time, Some(Timestamp { secs: 10, nanos: 0 }));
    assert_eq!(status.newest_time, Some(Timestamp { secs: 30, nanos: 0 }));
    let missing = check_recent("R", settings(Some(1), None, None), scan_folder(&Listing::Missing, "lnk")).unwrap();
    assert!(!missing.is_disabled);
    assert_eq!(missing.files_count, 0);
    assert_eq!(missing.oldest_time, None);
    assert_eq!(missing.newest_time, None);
    match check_recent("R", settings(Some(1), None, None), Err(AppError::PermissionDenied("denied".to_string()))) {
        Err(RecentEnablerError::RecentInfoFailed(reason)) => assert_eq!(reason, "Permission denied: denied"),
        other => panic!("unexpected result: {:?}", other),
    }
    match check_recent("R", settings(Some(1), None, None), Err(AppError::FileSystem("broken".to_string()))) {
        Err(RecentEnablerError::RecentInfoFailed(reason)) => assert_eq!(reason, "File system error: broken"),
        other => panic!("unexpected result: {:?}", other),
    }
}

#[test]
fn sysmain_snapshot_survives_an_unreadable_folder() {
    let listing = Listing::Entries(vec![file("A.pf", 5), file("B.pf", 7)]);
    let status = check_sysmain(ServiceQuery::Value(4), ServiceQuery::Value(2), "P", scan_folder(&listing, "pf"));
    assert!(status.is_running);
    assert!(status.is_auto);
    assert_eq!(status.startup_type, "Автоматически");
    assert_eq!(status.prefetch_path, "P");
    assert_eq!(status.prefetch_count, 2);
    assert_eq!(status.oldest_time, Some(Timestamp { secs: 5, nanos: 0 }));
    assert_eq!(status.newest_time, Some(Timestamp { secs: 7, nanos: 0 }));
    assert_eq!(status.prefetch_error, None);

    let denied = check_sysmain(
        ServiceQuery::ServiceUnavailable,
        ServiceQuery::Value(4),
        "P",
        scan_folder(&Listing::Denied("os".to_string()), "pf"),
    );
    assert!(!denied.is_running);
    assert!(!denied.is_auto);
    assert_eq!(denied.startup_type, "Отключена");
    assert_eq!(denied.prefetch_count, 0);
    assert_eq!(denied.oldest_time, None);
    assert_eq!(
        denied.prefetch_error,
        Some("Нет доступа к папке Prefetch. Запустите программу с правами администратора.".to_string())
    );
    let failed = check_sysmain(
        ServiceQuery::Value(1),
        ServiceQuery::QueryFailed,
        "P",
        scan_folder(&Listing::Failed("сбой".to_string()), "pf"),
    );
    assert_eq!(failed.startup_type, "Неизвестно");
    assert_eq!(
        failed.prefetch_error,
        Some("Не удалось прочитать статистику Prefetch: File system error: сбой".to_string())
    );
    let missing = check_sysmain(ServiceQuery::Value(4), ServiceQuery::Value(3), "P", scan_folder(&Listing::Missing, "pf"));
    assert!(missing.is_running);
    assert!(!missing.is_auto);
    assert_eq!(missing.startup_type, "Вручную");
    assert_eq!(missing.prefetch_error, None);
}

#[test]
fn restore_snapshot_follows_the_session_interval() {
    assert!(check_system_restore(Some(1)).is_enabled);
    assert!(!check_system_restore(Some(0)).is_enabled);
    assert!(!check_system_restore(Some(2)).is_enabled);
    assert!(!check_system_restore(None).is_enabled);
    assert!(get_system_restore_info(Some(1)));
    assert!(!get_system_restore_info(None));
}

#[test]
fn recent_fix_writes_three_user_settings() {
    let writes = match enable_recent(settings(Some(0), Some(1), Some(1))) {
        RecentFix::Write(writes) => writes,
        other => panic!("unexpected fix: {:?}", other),
    };
    assert_eq!(writes.len(), 3);
    assert!(writes.iter().all(|w| w.hive == Hive::CurrentUser && w.data == 1));
    assert_eq!(writes[0].key, "Software\\Microsoft\\Windows\\CurrentVersion\\Explorer\\Advanced");
    assert_eq!(writes[0].value, "Start_TrackDocs");
    assert_eq!(writes[1].key, "Software\\Microsoft\\Windows\\CurrentVersion\\Explorer");
    assert_eq!(writes[1].value, "ShowRecent");
    assert_eq!(writes[2].key, "Software\\Microsoft\\Windows\\CurrentVersion\\Explorer");
    assert_eq!(writes[2].value, "ShowFrequent");
    match enable_recent(settings(Some(1), Some(1), Some(1))) {
        RecentFix::NothingToDo(result) => {
            assert!(result.success);
            assert!(!result.requires_admin);
            assert_eq!(result.message, "Recent is already enabled");
        }
        other => panic!("unexpected fix: {:?}", other),
    }
}

#[test]
fn sysmain_fix_needs_admin_rights_first() {
    for state in [ServiceState::Running, ServiceState::Stopped, ServiceState::NotFound] {
        for startup in [StartupMode::Automatic, StartupMode::Manual] {
            let (phase, action) = enable_sysmain(false, state, startup);
            assert_eq!(phase, EnablePhase::Done);
            match action {
                EnableAction::Finish(result) => {
                    assert!(!result.success);
                    assert!(result.requires_admin);
                }
                other => panic!("unexpected action: {:?}", other),
            }
        }
    }
    let (phase, action) = enable_sysmain(true, ServiceState::Running, StartupMode::Automatic);
    assert_eq!(phase, EnablePhase::Done);
    match action {
        EnableAction::Finish(result) => assert!(result.success),
        other => panic!("unexpected action: {:?}", other),
    }
    let (phase, action) = enable_sysmain(true, ServiceState::Stopped, StartupMode::Automatic);
    assert_eq!(phase, EnablePhase::Configuring);
    assert!(matches!(action, EnableAction::SetAutoStart));
}

#[test]
fn restore_fix_needs_admin_rights_first() {
    let options = EnableOptions { ensure_frequency: true, create_restore_point: true };
    let (phase, action) = enable_system_restore(false, "C:", available_methods(true, true), options);
    assert_eq!(phase, RestorePhase::Done);
    match action {
        RestoreAction::Finish(result) => {
            assert!(!result.success);
            assert!(result.requires_admin);
        }
        other => panic!("unexpected action: {:?}", other),
    }
    let (phase, action) = enable_system_restore(true, "C:", available_methods(false, true), options);
    assert_eq!(
        phase,
        RestorePhase::Enabling(EnablePlan { method: SystemRestoreMethod::PowerShell, options })
    );
    match action {
        RestoreAction::EnableProtection { method, root } => {
            assert_eq!(method, SystemRestoreMethod::PowerShell);
            assert_eq!(root, "C:\\");
        }
        other => panic!("unexpected action: {:?}", other),
    }
}

#[test]
fn timestamps_are_written_as_seconds() {
    assert_eq!(system_time_to_timestamp(Some(Timestamp { secs: 1_700_000_000, nanos: 999 })), 1_700_000_000);
    assert_eq!(system_time_to_timestamp(Some(Timestamp { secs: 0, nanos: 0 })), 0);
    assert_eq!(system_time_to_timestamp(None), 0);
}
