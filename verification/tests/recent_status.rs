use recent_enabler::domain::recent::{
    CheckSeverity, RecentStatus, RegistryCheck, RegistryLocation,
};
use recent_enabler::registry::{reads_hive, resolve, write_hive, Hive, Reading};
use recent_enabler::services::recent::{
    apply_readings, build_checks, check_result, check_status, enable, get_info, observe,
    plan_fixes, EXPLORER_KEY, POLICY_KEY, TRACK_DOCS_KEY,
};
use recent_enabler::domain::common::{FileStats, Timestamp};
use recent_enabler::domain::error::AppError;

fn absent() -> Reading {
    Reading { hkcu: None, hklm: None }
}

fn user(value: u32) -> Reading {
    Reading { hkcu: Some(value), hklm: None }
}

fn machine(value: u32) -> Reading {
    Reading { hkcu: None, hklm: Some(value) }
}

fn all_on() -> Vec<Reading> {
    vec![user(1), user(1), user(1), user(1), user(0), user(0), machine(0), machine(0)]
}

fn check(name: &str, expected: u32, actual: Option<u32>, severity: CheckSeverity, is_policy: bool) -> RegistryCheck {
    RegistryCheck {
        name: name.to_string(),
        location: RegistryLocation::HKCU,
        key: "Key".to_string(),
        value: "Value".to_string(),
        expected,
        actual,
        severity,
        is_policy,
        absent_default: None,
    }
}

#[test]
fn catalog_lists_eight_checks_in_order() {
    let checks = build_checks();
    let values: Vec<&str> = checks.iter().map(|c| c.value.as_str()).collect();
    assert_eq!(
        values,
        vec![
            "Start_TrackDocs",
            "Start_TrackProgs",
            "ShowRecent",
            "ShowFrequent",
            "NoRecentDocsHistory",
            "NoRecentDocsMenu",
            "NoRecentDocsHistory",
            "NoRecentDocsMenu",
        ]
    );
    assert!(checks.iter().all(|c| c.actual.is_none()));
    assert_eq!(checks[0].key, TRACK_DOCS_KEY);
    assert_eq!(checks[2].key, EXPLORER_KEY);
    assert_eq!(checks[4].key, POLICY_KEY);
    assert_eq!(checks[0].name, "Отслеживание открытых документов");
    assert_eq!(checks[0].expected, 1);
    assert_eq!(checks[0].severity, CheckSeverity::Important);
    assert_eq!(checks[0].absent_default, None);
    assert_eq!(checks[1].absent_default, Some(1));
    assert_eq!(checks[3].severity, CheckSeverity::Minor);
    assert_eq!(checks[4].expected, 0);
    assert_eq!(checks[4].severity, CheckSeverity::Critical);
    assert!(checks[4].is_policy && checks[5].is_policy && checks[6].is_policy && checks[7].is_policy);
    assert_eq!(checks[5].location, RegistryLocation::HKCU);
    assert_eq!(checks[6].location, RegistryLocation::HKLM);
    assert_eq!(checks[7].location, RegistryLocation::HKLM);
    assert_eq!(checks.iter().filter(|c| c.is_policy).count(), 4);
}

#[test]
fn is_ok_holds_only_for_the_expected_value() {
    let mut c = check("c", 1, None, CheckSeverity::Important, false);
    assert!(!c.is_ok());
    assert!(c.is_blocking());
    c.actual = Some(1);
    assert!(c.is_ok());
    assert!(!c.is_blocking());
    c.actual = Some(0);
    assert!(!c.is_ok());
    c.actual = Some(2);
    assert!(!c.is_ok());
    let mut critical = check("p", 0, None, CheckSeverity::Critical, true);
    assert!(!critical.is_ok());
    assert!(critical.is_policy_block());
    critical.actual = Some(0);
    assert!(critical.is_ok());
    assert!(!critical.is_policy_block());
    critical.actual = Some(1);
    assert!(critical.is_policy_block());
    let failing_user = check("u", 1, Some(0), CheckSeverity::Minor, false);
    assert!(!failing_user.is_policy_block());
}

#[test]
fn fresh_profile_with_tracking_off_is_partially_enabled() {
    let checks = build_checks();
    let readings = vec![user(0), absent(), user(1), user(1), absent(), absent(), absent(), absent()];
    let seen = apply_readings(&checks, &readings);
    match check_status(&seen) {
        RecentStatus::PartiallyEnabled { enabled_features, disabled_features } => {
            assert_eq!(disabled_features, vec!["Отслеживание открытых документов".to_string()]);
            assert_eq!(
                enabled_features,
                vec![
                    "Отслеживание запущенных программ".to_string(),
                    "Показ недавних файлов".to_string(),
                    "Показ часто используемых папок".to_string(),
                    "Политика пользователя: история документов".to_string(),
                    "Политика пользователя: меню документов".to_string(),
                    "Политика компьютера: история документов".to_string(),
                    "Политика компьютера: меню документов".to_string(),
                ]
            );
        }
        other => panic!("unexpected status: {:?}", other),
    }
}

#[test]
fn failing_policy_check_decides_whatever_else_holds() {
    let checks = build_checks();
    let mut readings = all_on();
    readings[6] = machine(1);
    let seen = apply_readings(&checks, &readings);
    match check_status(&seen) {
        RecentStatus::DisabledByPolicy { policy_sources } => {
            assert_eq!(policy_sources, vec!["Политика компьютера: история документов".to_string()]);
        }
        other => panic!("unexpected status: {:?}", other),
    }
    let mut everything_off = vec![user(0), user(0), user(0), user(0), user(1), user(0), machine(0), machine(1)];
    let seen = apply_readings(&checks, &everything_off);
    let status = check_status(&seen);
    assert!(status.is_policy_blocked());
    assert!(!status.is_enabled());
    assert!(!status.is_partially_enabled());
    assert_eq!(status.as_str(), "Заблокирована политикой");
    match status {
        RecentStatus::DisabledByPolicy { policy_sources } => {
            assert_eq!(
                policy_sources,
                vec![
                    "Политика пользователя: история документов".to_string(),
                    "Политика компьютера: меню документов".to_string(),
                ]
            );
        }
        other => panic!("unexpected status: {:?}", other),
    }
    everything_off[4] = user(0);
    everything_off[7] = machine(0);
    let seen = apply_readings(&checks, &everything_off);
    assert!(matches!(check_status(&seen), RecentStatus::FullyDisabled));
}

#[test]
fn all_checks_passing_is_fully_enabled() {
    let seen = apply_readings(&build_checks(), &all_on());
    let status = check_status(&seen);
    assert!(status.is_enabled());
    assert_eq!(status.as_str(), "Полностью включена");
}

#[test]
fn all_important_checks_failing_is_fully_disabled() {
    let mut readings = all_on();
    readings[0] = user(0);
    readings[1] = user(0);
    let seen = apply_readings(&build_checks(), &readings);
    let status = check_status(&seen);
    assert!(matches!(status, RecentStatus::FullyDisabled));
    assert_eq!(status.as_str(), "Полностью отключена");
}

#[test]
fn one_important_check_passing_is_partially_enabled() {
    let mut readings = all_on();
    readings[1] = user(0);
    readings[2] = user(0);
    let seen = apply_readings(&build_checks(), &readings);
    match check_status(&seen) {
        RecentStatus::PartiallyEnabled { enabled_features, disabled_features } => {
            assert_eq!(
                disabled_features,
                vec!["Отслеживание запущенных программ".to_string(), "Показ недавних файлов".to_string()]
            );
            assert_eq!(enabled_features.len(), 6);
            assert_eq!(enabled_features[0], "Отслеживание открытых документов");
        }
        other => panic!("unexpected status: {:?}", other),
    }
}

#[test]
fn status_of_no_checks_is_fully_disabled() {
    let none: Vec<RegistryCheck> = Vec::new();
    assert!(matches!(check_status(&none), RecentStatus::FullyDisabled));
}

#[test]
fn status_without_important_checks() {
    let only_minor = vec![check("m", 1, Some(1), CheckSeverity::Minor, false)];
    assert!(matches!(check_status(&only_minor), RecentStatus::FullyDisabled));
}

#[test]
fn absent_values_take_the_default_of_their_check() {
    let checks = build_checks();
    let seen = apply_readings(&checks, &Vec::new());
    assert_eq!(seen.len(), 8);
    assert_eq!(seen[0].actual, None);
    assert_eq!(seen[1].actual, Some(1));
    assert_eq!(seen[2].actual, Some(1));
    assert_eq!(seen[3].actual, Some(1));
    assert_eq!(seen[4].actual, Some(0));
    assert_eq!(seen[7].actual, Some(0));
    assert!(!seen[0].is_ok());
    assert!(seen[1].is_ok());
    let short = apply_readings(&checks, &vec![user(1)]);
    assert_eq!(short[0].actual, Some(1));
    assert_eq!(short[1].actual, Some(1));
}

#[test]
fn a_check_reads_only_its_own_hive() {
    let checks = build_checks();
    let wrong_hive = observe(&checks[0], machine(1));
    assert_eq!(wrong_hive.actual, None);
    let policy = observe(&checks[6], Reading { hkcu: Some(1), hklm: Some(0) });
    assert_eq!(policy.actual, Some(0));
    assert_eq!(policy.name, checks[6].name);
    assert_eq!(policy.key, checks[6].key);
    assert_eq!(policy.value, checks[6].value);
    assert!(reads_hive(RegistryLocation::HKCU, Hive::CurrentUser));
    assert!(!reads_hive(RegistryLocation::HKCU, Hive::LocalMachine));
    assert!(reads_hive(RegistryLocation::HKLM, Hive::LocalMachine));
    assert!(!reads_hive(RegistryLocation::HKLM, Hive::CurrentUser));
    assert!(reads_hive(RegistryLocation::Both, Hive::CurrentUser));
    assert!(reads_hive(RegistryLocation::Both, Hive::LocalMachine));
}

#[test]
fn with_both_hives_the_machine_value_comes_first() {
    let both = RegistryLocation::Both;
    assert_eq!(resolve(both, 0, Reading { hkcu: Some(0), hklm: Some(1) }), Some(1));
    assert_eq!(resolve(both, 0, Reading { hkcu: Some(1), hklm: Some(0) }), Some(1));
    assert_eq!(resolve(both, 0, Reading { hkcu: Some(2), hklm: Some(1) }), Some(1));
    assert_eq!(resolve(both, 0, Reading { hkcu: None, hklm: Some(0) }), Some(0));
    assert_eq!(resolve(both, 0, Reading { hkcu: Some(0), hklm: None }), Some(0));
    assert_eq!(resolve(both, 0, Reading { hkcu: Some(0), hklm: Some(0) }), Some(0));
    assert_eq!(resolve(both, 0, Reading { hkcu: None, hklm: None }), None);
    assert_eq!(resolve(RegistryLocation::HKCU, 0, Reading { hkcu: Some(5), hklm: Some(1) }), Some(5));
    assert_eq!(resolve(RegistryLocation::HKLM, 0, Reading { hkcu: Some(5), hklm: Some(1) }), Some(1));
    assert_eq!(write_hive(RegistryLocation::HKCU), Hive::CurrentUser);
    assert_eq!(write_hive(RegistryLocation::Both), Hive::CurrentUser);
    assert_eq!(write_hive(RegistryLocation::HKLM), Hive::LocalMachine);
}

#[test]
fn fixes_are_planned_for_failing_checks_but_not_for_machine_policy() {
    let readings = vec![user(0), user(1), user(0), user(1), user(1), user(0), machine(1), machine(0)];
    let seen = apply_readings(&build_checks(), &readings);
    let plan = plan_fixes(&seen);
    assert_eq!(plan.len(), 3);
    assert_eq!(plan[0].hive, Hive::CurrentUser);
    assert_eq!(plan[0].key, TRACK_DOCS_KEY);
    assert_eq!(plan[0].value, "Start_TrackDocs");
    assert_eq!(plan[0].data, 1);
    assert_eq!(plan[1].key, EXPLORER_KEY);
    assert_eq!(plan[1].value, "ShowRecent");
    assert_eq!(plan[1].data, 1);
    assert_eq!(plan[2].hive, Hive::CurrentUser);
    assert_eq!(plan[2].key, POLICY_KEY);
    assert_eq!(plan[2].value, "NoRecentDocsHistory");
    assert_eq!(plan[2].data, 0);
}

#[test]
fn fix_report_keeps_three_counters_apart() {
    let readings = vec![user(0), user(1), user(0), user(1), user(1), user(0), machine(1), machine(0)];
    let seen = apply_readings(&build_checks(), &readings);
    let result = enable(&seen, &vec![true, false, true]);
    assert_eq!(result.message, "Enabled 2 settings, 1 blocked by policy, 1 write failures");
    assert!(!result.success);
    assert!(result.requires_admin);
    assert!(!result.requires_restart);
    assert_eq!(result.details, None);
    let clean = enable(&seen, &vec![true, true, true]);
    assert_eq!(clean.message, "Enabled 3 settings, 1 blocked by policy, 0 write failures");
    assert!(clean.success);
    assert!(clean.requires_admin);
}

#[test]
fn enabling_when_all_checks_pass_writes_nothing() {
    let seen = apply_readings(&build_checks(), &all_on());
    let plan = plan_fixes(&seen);
    assert!(plan.is_empty());
    let result = enable(&seen, &Vec::new());
    assert!(result.success);
    assert!(!result.requires_admin);
    assert_eq!(result.message, "Enabled 0 settings, 0 blocked by policy, 0 write failures");
}

#[test]
fn fix_report_counts_more_than_nine() {
    let seen = apply_readings(&build_checks(), &all_on());
    let outcomes = vec![true; 12];
    let result = enable(&seen, &outcomes);
    assert_eq!(result.message, "Enabled 12 settings, 0 blocked by policy, 0 write failures");
}

#[test]
fn check_result_says_what_to_set() {
    let checks = build_checks();
    let failing = check_result(observe(&checks[0], user(0)));
    assert!(failing.can_fix);
    assert_eq!(failing.fix_description, Some("Start_TrackDocs = 1".to_string()));
    assert_eq!(failing.check.actual, Some(0));
    let passing = check_result(observe(&checks[0], user(1)));
    assert!(!passing.can_fix);
    assert_eq!(passing.fix_description, None);
    let machine_policy = check_result(observe(&checks[6], machine(1)));
    assert!(!machine_policy.can_fix);
    assert_eq!(machine_policy.fix_description, None);
    let user_policy = check_result(observe(&checks[4], user(1)));
    assert!(user_policy.can_fix);
    assert_eq!(user_policy.fix_description, Some("NoRecentDocsHistory = 0".to_string()));
}

#[test]
fn info_puts_folder_and_checks_together() {
    let stats = FileStats {
        count: 3,
        oldest: Some(Timestamp { secs: 10, nanos: 0 }),
        newest: Some(Timestamp { secs: 20, nanos: 5 }),
    };
    let info = get_info("C:\\Users\\u\\Recent", Ok(stats), &all_on());
    assert_eq!(info.path, "C:\\Users\\u\\Recent");
    assert_eq!(info.files, stats);
    assert!(info.status.is_enabled());
    assert_eq!(info.checks.len(), 8);
    assert!(info.checks.iter().all(|c| !c.can_fix));
    let failed = get_info("p", Err(AppError::FileSystem("no".to_string())), &Vec::new());
    assert_eq!(failed.files, FileStats::empty());
    assert!(failed.status.is_partially_enabled());
    assert_eq!(failed.checks[0].fix_description, Some("Start_TrackDocs = 1".to_string()));
}

#[test]
fn labels_of_locations_and_severities() {
    assert_eq!(RegistryLocation::HKCU.as_str(), "HKCU");
    assert_eq!(RegistryLocation::HKLM.as_str(), "HKLM");
    assert_eq!(RegistryLocation::Both.as_str(), "HKCU/HKLM");
    assert_eq!(CheckSeverity::Minor.as_str(), "Незначительный");
    assert_eq!(CheckSeverity::Important.as_str(), "Важный");
    assert_eq!(CheckSeverity::Critical.as_str(), "Критический");
    assert_eq!(CheckSeverity::Minor.description(), "Влияет только на отображение в UI");
    assert_eq!(CheckSeverity::Important.description(), "Влияет на основные функции записи");
    assert_eq!(CheckSeverity::Critical.description(), "Полностью блокирует функциональность");
    assert!(CheckSeverity::Minor < CheckSeverity::Important);
    assert!(CheckSeverity::Important < CheckSeverity::Critical);
    let partial = RecentStatus::PartiallyEnabled { enabled_features: vec![], disabled_features: vec![] };
    assert_eq!(partial.as_str(), "Частично включена");
    assert!(partial.is_partially_enabled());
}
