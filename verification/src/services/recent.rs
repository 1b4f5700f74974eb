//! Recent-files tracking: the catalog of registry checks, the status that
//! follows from what was read, and the fixes.

use vstd::prelude::*;
use vstd::string::*;

use crate::domain::common::{FileStats, OperationResult, OperationResultView};
use crate::domain::error::AppError;
use crate::domain::recent::{
    CheckSeverity, RecentCheckResult, RecentCheckResultView, RecentInfo, RecentStatus,
    RecentStatusView, RegistryCheck, RegistryCheckView, RegistryLocation,
};
use crate::registry::{
    effective_value, resolve, write_hive, write_target, Reading, RegistryWrite, RegistryWriteView,
};
use crate::seq_facts::{lemma_filter_empty, lemma_filter_step};
use crate::text::{decimal, decimal_string};

verus! {

/// The key of the two tracking switches.
pub const TRACK_DOCS_KEY: &'static str =
    "Software\\Microsoft\\Windows\\CurrentVersion\\Explorer\\Advanced";

/// The key of the two display switches.
pub const EXPLORER_KEY: &'static str = "Software\\Microsoft\\Windows\\CurrentVersion\\Explorer";

/// The key of the policy values, in either hive.
pub const POLICY_KEY: &'static str =
    "Software\\Microsoft\\Windows\\CurrentVersion\\Policies\\Explorer";

/// A catalog entry: a check that has not been read yet.
pub open spec fn entry(
    name: Seq<char>,
    location: RegistryLocation,
    key: Seq<char>,
    value: Seq<char>,
    expected: u32,
    severity: CheckSeverity,
    is_policy: bool,
    absent_default: Option<u32>,
) -> RegistryCheckView {
    RegistryCheckView {
        name,
        location,
        key,
        value,
        expected,
        actual: None,
        severity,
        is_policy,
        absent_default,
    }
}

/// The checks that decide whether recent-files tracking works, in the order
/// in which they are read and reported.
///
/// Four user settings come first: the two tracking switches, on which
/// recording depends, and the two display switches. Then the two policy
/// values that forbid the history and its menu, first as the user's policy
/// and then as the machine's. A tracking switch for documents that is absent
/// counts as off; the other user settings default to on, and an absent policy
/// value forbids nothing.
pub open spec fn catalog() -> Seq<RegistryCheckView> {
    seq![
        entry(
            "Отслеживание открытых документов"@,
            RegistryLocation::HKCU,
            TRACK_DOCS_KEY@,
            "Start_TrackDocs"@,
            1,
            CheckSeverity::Important,
            false,
            None,
        ),
        entry(
            "Отслеживание запущенных программ"@,
            RegistryLocation::HKCU,
            TRACK_DOCS_KEY@,
            "Start_TrackProgs"@,
            1,
            CheckSeverity::Important,
            false,
            Some(1u32),
        ),
        entry(
            "Показ недавних файлов"@,
            RegistryLocation::HKCU,
            EXPLORER_KEY@,
            "ShowRecent"@,
            1,
            CheckSeverity::Minor,
            false,
            Some(1u32),
        ),
        entry(
            "Показ часто используемых папок"@,
            RegistryLocation::HKCU,
            EXPLORER_KEY@,
            "ShowFrequent"@,
            1,
            CheckSeverity::Minor,
            false,
            Some(1u32),
        ),
        entry(
            "Политика пользователя: история документов"@,
            RegistryLocation::HKCU,
            POLICY_KEY@,
            "NoRecentDocsHistory"@,
            0,
            CheckSeverity::Critical,
            true,
            Some(0u32),
        ),
        entry(
            "Политика пользователя: меню документов"@,
            RegistryLocation::HKCU,
            POLICY_KEY@,
            "NoRecentDocsMenu"@,
            0,
            CheckSeverity::Critical,
            true,
            Some(0u32),
        ),
        entry(
            "Политика компьютера: история документов"@,
            RegistryLocation::HKLM,
            POLICY_KEY@,
            "NoRecentDocsHistory"@,
            0,
            CheckSeverity::Critical,
            true,
            Some(0u32),
        ),
        entry(
            "Политика компьютера: меню документов"@,
            RegistryLocation::HKLM,
            POLICY_KEY@,
            "NoRecentDocsMenu"@,
            0,
            CheckSeverity::Critical,
            true,
            Some(0u32),
        ),
    ]
}

fn make_check(
    name: &str,
    location: RegistryLocation,
    key: &str,
    value: &str,
    expected: u32,
    severity: CheckSeverity,
    is_policy: bool,
    absent_default: Option<u32>,
) -> (check: RegistryCheck)
    ensures
        check@ == entry(
            name@,
            location,
            key@,
            value@,
            expected,
            severity,
            is_policy,
            absent_default,
        ),
{
    RegistryCheck {
        name: String::from_str(name),
        location,
        key: String::from_str(key),
        value: String::from_str(value),
        expected,
        actual: None,
        severity,
        is_policy,
        absent_default,
    }
}

/// A fresh copy of the catalog, with no value read yet.
pub fn build_checks() -> (checks: Vec<RegistryCheck>)
    ensures
        checks.deep_view() == catalog(),
{
    let mut checks: Vec<RegistryCheck> = Vec::new();
    checks.push(
        make_check(
            "Отслеживание открытых документов",
            RegistryLocation::HKCU,
            TRACK_DOCS_KEY,
            "Start_TrackDocs",
            1,
            CheckSeverity::Important,
            false,
            None,
        ),
    );
    checks.push(
        make_check(
            "Отслеживание запущенных программ",
            RegistryLocation::HKCU,
            TRACK_DOCS_KEY,
            "Start_TrackProgs",
            1,
            CheckSeverity::Important,
            false,
            Some(1),
        ),
    );
    checks.push(
        make_check(
            "Показ недавних файлов",
            RegistryLocation::HKCU,
            EXPLORER_KEY,
            "ShowRecent",
            1,
            CheckSeverity::Minor,
            false,
            Some(1),
        ),
    );
    checks.push(
        make_check(
            "Показ часто используемых папок",
            RegistryLocation::HKCU,
            EXPLORER_KEY,
            "ShowFrequent",
            1,
            CheckSeverity::Minor,
            false,
            Some(1),
        ),
    );
    checks.push(
        make_check(
            "Политика пользователя: история документов",
            RegistryLocation::HKCU,
            POLICY_KEY,
            "NoRecentDocsHistory",
            0,
            CheckSeverity::Critical,
            true,
            Some(0),
        ),
    );
    checks.push(
        make_check(
            "Политика пользователя: меню документов",
            RegistryLocation::HKCU,
            POLICY_KEY,
            "NoRecentDocsMenu",
            0,
            CheckSeverity::Critical,
            true,
            Some(0),
        ),
    );
    checks.push(
        make_check(
            "Политика компьютера: история документов",
            RegistryLocation::HKLM,
            POLICY_KEY,
            "NoRecentDocsHistory",
            0,
            CheckSeverity::Critical,
            true,
            Some(0),
        ),
    );
    checks.push(
        make_check(
            "Политика компьютера: меню документов",
            RegistryLocation::HKLM,
            POLICY_KEY,
            "NoRecentDocsMenu",
            0,
            CheckSeverity::Critical,
            true,
            Some(0),
        ),
    );
    assert(checks.deep_view() =~= catalog());
    checks
}

/// The check after a read: the value that counts, or the check's default
/// where no hive holds one.
pub open spec fn observed(check: RegistryCheckView, reading: Reading) -> RegistryCheckView {
    RegistryCheckView {
        actual: match effective_value(check.location, check.expected, reading) {
            Some(v) => Some(v),
            None => check.absent_default,
        },
        ..check
    }
}

/// The reading for the check at `i`; a check without a reading counts as
/// absent in both hives.
pub open spec fn reading_at(readings: Seq<Reading>, i: int) -> Reading {
    if 0 <= i < readings.len() {
        readings[i]
    } else {
        Reading { hkcu: None, hklm: None }
    }
}

/// Every check after its read.
pub open spec fn observed_all(
    checks: Seq<RegistryCheckView>,
    readings: Seq<Reading>,
) -> Seq<RegistryCheckView> {
    Seq::new(checks.len(), |i: int| observed(checks[i], reading_at(readings, i)))
}

fn copy_check(check: &RegistryCheck) -> (copy: RegistryCheck)
    ensures
        copy@ == check@,
{
    RegistryCheck {
        name: check.name.clone(),
        location: check.location,
        key: check.key.clone(),
        value: check.value.clone(),
        expected: check.expected,
        actual: check.actual,
        severity: check.severity,
        is_policy: check.is_policy,
        absent_default: check.absent_default,
    }
}

/// Records what was read for one check.
pub fn observe(check: &RegistryCheck, reading: Reading) -> (seen: RegistryCheck)
    ensures
        seen@ == observed(check@, reading),
{
    let actual = match resolve(check.location, check.expected, reading) {
        Some(v) => Some(v),
        None => check.absent_default,
    };
    RegistryCheck {
        name: check.name.clone(),
        location: check.location,
        key: check.key.clone(),
        value: check.value.clone(),
        expected: check.expected,
        actual,
        severity: check.severity,
        is_policy: check.is_policy,
        absent_default: check.absent_default,
    }
}

/// A value that no hive holds passes only by the check's own default: a
/// check that names none, or another value, fails.
pub proof fn lemma_absent_value(check: RegistryCheckView)
    ensures
        observed(check, Reading { hkcu: None, hklm: None }).ok() <==> check.absent_default
            == Some(check.expected),
        check.absent_default is None ==> !observed(check, Reading { hkcu: None, hklm: None }).ok(),
{
}

/// A value that a hive holds counts as it is: the default plays no part.
pub proof fn lemma_present_value(check: RegistryCheckView, reading: Reading)
    requires
        effective_value(check.location, check.expected, reading) is Some,
    ensures
        observed(check, reading).actual == effective_value(
            check.location,
            check.expected,
            reading,
        ),
{
}

/// Records what was read for every check; `readings` runs parallel to
/// `checks`.
pub fn apply_readings(checks: &Vec<RegistryCheck>, readings: &Vec<Reading>) -> (seen: Vec<
    RegistryCheck,
>)
    ensures
        seen.deep_view() == observed_all(checks.deep_view(), readings@),
{
    let mut seen: Vec<RegistryCheck> = Vec::new();
    let mut i: usize = 0;
    while i < checks.len()
        invariant
            i <= checks.len(),
            seen.len() == i,
            forall|j: int|
                0 <= j < i ==> (#[trigger] seen[j])@ == observed(
                    checks[j]@,
                    reading_at(readings@, j),
                ),
        decreases checks.len() - i,
    {
        let reading = if i < readings.len() {
            readings[i]
        } else {
            Reading { hkcu: None, hklm: None }
        };
        seen.push(observe(&checks[i], reading));
        i += 1;
    }
    assert(seen.deep_view() =~= observed_all(checks.deep_view(), readings@));
    seen
}

/// The checks that pass.
pub open spec fn is_passing() -> spec_fn(RegistryCheckView) -> bool {
    |c: RegistryCheckView| c.ok()
}

/// The checks that fail.
pub open spec fn is_failing() -> spec_fn(RegistryCheckView) -> bool {
    |c: RegistryCheckView| !c.ok()
}

/// The policy checks that fail.
pub open spec fn is_policy_block() -> spec_fn(RegistryCheckView) -> bool {
    |c: RegistryCheckView| c.policy_block()
}

/// The names of `checks`, in order.
pub open spec fn names_of(checks: Seq<RegistryCheckView>) -> Seq<Seq<char>> {
    checks.map_values(|c: RegistryCheckView| c.name)
}

/// Some policy check fails.
pub open spec fn any_policy_block(checks: Seq<RegistryCheckView>) -> bool {
    exists|i: int| 0 <= i < checks.len() && (#[trigger] checks[i]).policy_block()
}

/// Every check of severity `Important` fails.
pub open spec fn all_important_fail(checks: Seq<RegistryCheckView>) -> bool {
    forall|i: int|
        0 <= i < checks.len() && (#[trigger] checks[i]).severity == CheckSeverity::Important
            ==> !checks[i].ok()
}

/// Some check fails.
pub open spec fn any_failure(checks: Seq<RegistryCheckView>) -> bool {
    exists|i: int| 0 <= i < checks.len() && !(#[trigger] checks[i]).ok()
}

/// The status that follows from the checks. A failing policy check decides
/// alone; then the important checks; then any failure.
pub open spec fn classify(checks: Seq<RegistryCheckView>) -> RecentStatusView {
    if any_policy_block(checks) {
        RecentStatusView::DisabledByPolicy {
            policy_sources: names_of(checks.filter(is_policy_block())),
        }
    } else if all_important_fail(checks) {
        RecentStatusView::FullyDisabled
    } else if any_failure(checks) {
        RecentStatusView::PartiallyEnabled {
            enabled_features: names_of(checks.filter(is_passing())),
            disabled_features: names_of(checks.filter(is_failing())),
        }
    } else {
        RecentStatusView::FullyEnabled
    }
}

proof fn lemma_names_step(
    checks: Seq<RegistryCheckView>,
    pred: spec_fn(RegistryCheckView) -> bool,
    i: int,
)
    requires
        0 <= i < checks.len(),
    ensures
        names_of(checks.take(i + 1).filter(pred)) == if pred(checks[i]) {
            names_of(checks.take(i).filter(pred)).push(checks[i].name)
        } else {
            names_of(checks.take(i).filter(pred))
        },
{
    lemma_filter_step(checks, pred, i);
    if pred(checks[i]) {
        assert(names_of(checks.take(i).filter(pred).push(checks[i])) =~= names_of(
            checks.take(i).filter(pred),
        ).push(checks[i].name));
    }
}

/// Derives the status from checks that have been read.
pub fn check_status(checks: &Vec<RegistryCheck>) -> (status: RecentStatus)
    ensures
        status@ == classify(checks.deep_view()),
{
    let ghost cs = checks.deep_view();
    let mut policy_sources: Vec<String> = Vec::new();
    let mut enabled: Vec<String> = Vec::new();
    let mut disabled: Vec<String> = Vec::new();
    let mut important_passes = false;
    let mut i: usize = 0;
    assert(cs.take(0) =~= Seq::<RegistryCheckView>::empty());
    proof {
        reveal(Seq::filter);
    }
    while i < checks.len()
        invariant
            i <= checks.len(),
            cs == checks.deep_view(),
            cs.len() == checks.len(),
            policy_sources.deep_view() == names_of(cs.take(i as int).filter(is_policy_block())),
            enabled.deep_view() == names_of(cs.take(i as int).filter(is_passing())),
            disabled.deep_view() == names_of(cs.take(i as int).filter(is_failing())),
            important_passes <==> exists|j: int|
                0 <= j < i && (#[trigger] cs[j]).severity == CheckSeverity::Important
                    && cs[j].ok(),
        decreases checks.len() - i,
    {
        let check = &checks[i];
        assert(check@ == cs[i as int]);
        proof {
            lemma_names_step(cs, is_policy_block(), i as int);
            lemma_names_step(cs, is_passing(), i as int);
            lemma_names_step(cs, is_failing(), i as int);
        }
        let ghost old_policy = policy_sources.deep_view();
        let ghost old_enabled = enabled.deep_view();
        let ghost old_disabled = disabled.deep_view();
        if check.is_ok() {
            enabled.push(check.name.clone());
            assert(enabled.deep_view() =~= old_enabled.push(check.name@));
            if matches!(check.severity, CheckSeverity::Important) {
                important_passes = true;
            }
        } else {
            disabled.push(check.name.clone());
            assert(disabled.deep_view() =~= old_disabled.push(check.name@));
            if check.is_policy {
                policy_sources.push(check.name.clone());
                assert(policy_sources.deep_view() =~= old_policy.push(check.name@));
            }
        }
        i += 1;
    }
    assert(cs.take(i as int) =~= cs);
    proof {
        lemma_filter_empty(cs, is_policy_block());
        lemma_filter_empty(cs, is_failing());
        assert(names_of(cs.filter(is_policy_block())).len() == cs.filter(is_policy_block()).len());
        assert(names_of(cs.filter(is_failing())).len() == cs.filter(is_failing()).len());
    }
    if policy_sources.len() > 0 {
        RecentStatus::DisabledByPolicy { policy_sources }
    } else if !important_passes {
        RecentStatus::FullyDisabled
    } else if disabled.len() > 0 {
        RecentStatus::PartiallyEnabled { enabled_features: enabled, disabled_features: disabled }
    } else {
        RecentStatus::FullyEnabled
    }
}

/// A failing policy check decides the status, whatever the other checks
/// hold.
pub proof fn lemma_policy_block_takes_precedence(checks: Seq<RegistryCheckView>, i: int)
    requires
        0 <= i < checks.len(),
        checks[i].is_policy,
        !checks[i].ok(),
    ensures
        classify(checks) is DisabledByPolicy,
{
    assert(checks[i].policy_block());
}

/// The status is `DisabledByPolicy` exactly when some policy check fails.
pub proof fn lemma_policy_status(checks: Seq<RegistryCheckView>)
    ensures
        classify(checks) is DisabledByPolicy <==> any_policy_block(checks),
        classify(checks) is FullyEnabled <==> !any_failure(checks) && !all_important_fail(
            checks,
        ),
{
    if any_policy_block(checks) {
        let i = choose|i: int| 0 <= i < checks.len() && (#[trigger] checks[i]).policy_block();
        assert(!checks[i].ok());
    }
}

/// The failing checks that a write can mend: all but the machine's policy
/// values.
pub open spec fn is_fixable() -> spec_fn(RegistryCheckView) -> bool {
    |c: RegistryCheckView| !c.ok() && !c.machine_policy()
}

/// The failing checks that are left alone: the machine's policy values.
pub open spec fn is_blocked() -> spec_fn(RegistryCheckView) -> bool {
    |c: RegistryCheckView| !c.ok() && c.machine_policy()
}

/// The write that mends a check: the expected value, under the check's key
/// and name.
pub open spec fn write_for(check: RegistryCheckView) -> RegistryWriteView {
    RegistryWriteView {
        hive: write_target(check.location),
        key: check.key,
        value: check.value,
        data: check.expected,
    }
}

/// The writes that `plan_fixes` asks for.
pub open spec fn planned_writes(checks: Seq<RegistryCheckView>) -> Seq<RegistryWriteView> {
    checks.filter(is_fixable()).map_values(|c: RegistryCheckView| write_for(c))
}

/// The writes that mend the failing checks, in catalog order. Passing checks
/// need none, and the machine's policy values are not touched.
pub fn plan_fixes(checks: &Vec<RegistryCheck>) -> (plan: Vec<RegistryWrite>)
    ensures
        plan.deep_view() == planned_writes(checks.deep_view()),
{
    let ghost cs = checks.deep_view();
    let mut plan: Vec<RegistryWrite> = Vec::new();
    let mut i: usize = 0;
    assert(cs.take(0) =~= Seq::<RegistryCheckView>::empty());
    proof {
        reveal(Seq::filter);
    }
    assert(plan.deep_view() =~= planned_writes(cs.take(0)));
    while i < checks.len()
        invariant
            i <= checks.len(),
            cs == checks.deep_view(),
            cs.len() == checks.len(),
            plan.deep_view() == planned_writes(cs.take(i as int)),
        decreases checks.len() - i,
    {
        let check = &checks[i];
        assert(check@ == cs[i as int]);
        proof {
            lemma_filter_step(cs, is_fixable(), i as int);
        }
        let ghost before = plan.deep_view();
        let machine_policy = check.is_policy && matches!(check.location, RegistryLocation::HKLM);
        if !check.is_ok() && !machine_policy {
            plan.push(
                RegistryWrite {
                    hive: write_hive(check.location),
                    key: check.key.clone(),
                    value: check.value.clone(),
                    data: check.expected,
                },
            );
            assert(plan.deep_view() =~= before.push(write_for(cs[i as int])));
            assert(planned_writes(cs.take(i + 1)) =~= planned_writes(cs.take(i as int)).push(
                write_for(cs[i as int]),
            ));
        }
        i += 1;
    }
    assert(cs.take(i as int) =~= cs);
    plan
}

/// The outcomes that equal `wanted`.
pub open spec fn is_outcome(wanted: bool) -> spec_fn(bool) -> bool {
    |b: bool| b == wanted
}

/// How many of `outcomes` equal `wanted`.
pub open spec fn count_of(outcomes: Seq<bool>, wanted: bool) -> nat {
    outcomes.filter(is_outcome(wanted)).len()
}

/// The report of a fix run: how many settings were written, how many
/// failing checks were left to the machine's policy, how many writes failed.
pub open spec fn fix_message(fixed: nat, blocked: nat, failed: nat) -> Seq<char> {
    "Enabled "@ + decimal(fixed) + " settings, "@ + decimal(blocked) + " blocked by policy, "@
        + decimal(failed) + " write failures"@
}

/// The result of a fix run over `checks` in which the planned writes ended as
/// `outcomes` says. It succeeds when no write failed, and asks for
/// administrator rights when a machine policy stands in the way.
pub open spec fn fix_result(
    checks: Seq<RegistryCheckView>,
    outcomes: Seq<bool>,
) -> OperationResultView {
    let fixed = count_of(outcomes, true);
    let failed = count_of(outcomes, false);
    let blocked = checks.filter(is_blocked()).len();
    OperationResultView {
        success: failed == 0,
        message: fix_message(fixed, blocked, failed),
        details: None,
        requires_restart: false,
        requires_admin: blocked > 0,
    }
}

fn count_outcomes(outcomes: &Vec<bool>, wanted: bool) -> (n: usize)
    ensures
        n == count_of(outcomes@, wanted),
{
    let ghost pred = is_outcome(wanted);
    let mut n: usize = 0;
    let mut i: usize = 0;
    assert(outcomes@.take(0) =~= Seq::<bool>::empty());
    proof {
        reveal(Seq::filter);
    }
    while i < outcomes.len()
        invariant
            i <= outcomes.len(),
            n <= i,
            pred == is_outcome(wanted),
            n == outcomes@.take(i as int).filter(pred).len(),
        decreases outcomes.len() - i,
    {
        proof {
            lemma_filter_step(outcomes@, pred, i as int);
        }
        if outcomes[i] == wanted {
            n += 1;
        }
        i += 1;
    }
    assert(outcomes@.take(i as int) =~= outcomes@);
    n
}

fn count_blocked(checks: &Vec<RegistryCheck>) -> (n: usize)
    ensures
        n == checks.deep_view().filter(is_blocked()).len(),
{
    let ghost cs = checks.deep_view();
    let mut n: usize = 0;
    let mut i: usize = 0;
    assert(cs.take(0) =~= Seq::<RegistryCheckView>::empty());
    proof {
        reveal(Seq::filter);
    }
    while i < checks.len()
        invariant
            i <= checks.len(),
            n <= i,
            cs == checks.deep_view(),
            cs.len() == checks.len(),
            n == cs.take(i as int).filter(is_blocked()).len(),
        decreases checks.len() - i,
    {
        let check = &checks[i];
        assert(check@ == cs[i as int]);
        proof {
            lemma_filter_step(cs, is_blocked(), i as int);
        }
        if !check.is_ok() && check.is_policy && matches!(check.location, RegistryLocation::HKLM) {
            n += 1;
        }
        i += 1;
    }
    assert(cs.take(i as int) =~= cs);
    n
}

/// Reports a fix run: `checks` as they were read before it, `outcomes` with
/// one entry per planned write, `true` where the write succeeded.
pub fn enable(checks: &Vec<RegistryCheck>, outcomes: &Vec<bool>) -> (result: OperationResult)
    ensures
        result@ == fix_result(checks.deep_view(), outcomes@),
{
    let fixed = count_outcomes(outcomes, true);
    let failed = count_outcomes(outcomes, false);
    let blocked = count_blocked(checks);
    let mut message = String::from_str("Enabled ");
    message.append(decimal_string(fixed as u64).as_str());
    message.append(" settings, ");
    message.append(decimal_string(blocked as u64).as_str());
    message.append(" blocked by policy, ");
    message.append(decimal_string(failed as u64).as_str());
    message.append(" write failures");
    OperationResult {
        success: failed == 0,
        message,
        details: None,
        requires_restart: false,
        requires_admin: blocked > 0,
    }
}

/// Where every check passes there is nothing to write, and the run is
/// reported as a success with no setting touched.
pub proof fn lemma_enable_when_all_pass(checks: Seq<RegistryCheckView>)
    requires
        !any_failure(checks),
    ensures
        planned_writes(checks).len() == 0,
        fix_result(checks, planned_writes(checks).map_values(|w: RegistryWriteView| true))
            == OperationResultView::succeeded(fix_message(0, 0, 0)),
{
    lemma_filter_empty(checks, is_fixable());
    lemma_filter_empty(checks, is_blocked());
    let outcomes = planned_writes(checks).map_values(|w: RegistryWriteView| true);
    assert(outcomes =~= Seq::<bool>::empty());
    reveal(Seq::filter);
}

/// What can be done about a check: a failing check that a write can mend
/// names the value to set; any other check names nothing.
pub open spec fn result_for(check: RegistryCheckView) -> RecentCheckResultView {
    RecentCheckResultView {
        check,
        can_fix: is_fixable()(check),
        fix_description: if is_fixable()(check) {
            Some(check.value + " = "@ + decimal(check.expected as nat))
        } else {
            None
        },
    }
}

/// Says what can be done about a check that has been read.
pub fn check_result(check: RegistryCheck) -> (result: RecentCheckResult)
    ensures
        result@ == result_for(check@),
{
    let can_fix = !check.is_ok() && !(check.is_policy && matches!(
        check.location,
        RegistryLocation::HKLM
    ));
    let fix_description = if can_fix {
        let mut text = check.value.clone();
        text.append(" = ");
        text.append(decimal_string(check.expected as u64).as_str());
        Some(text)
    } else {
        None
    };
    RecentCheckResult { check, can_fix, fix_description }
}

/// The files that count after a scan: what the scan found, or nothing where
/// the folder could not be read.
pub open spec fn files_or_empty(scan: Result<FileStats, AppError>) -> FileStats {
    match scan {
        Ok(files) => files,
        Err(_) => FileStats { count: 0, oldest: None, newest: None },
    }
}

/// Puts together the state of the feature from the folder at `path`, the
/// scan of its shortcut files and the registry readings, which run parallel
/// to the catalog.
pub fn get_info(path: &str, scan: Result<FileStats, AppError>, readings: &Vec<Reading>) -> (info:
    RecentInfo)
    ensures
        info.path@ == path@,
        info.files == files_or_empty(scan),
        info.status@ == classify(observed_all(catalog(), readings@)),
        info.checks.deep_view() == observed_all(catalog(), readings@).map_values(
            |c: RegistryCheckView| result_for(c),
        ),
{
    let files = match scan {
        Ok(files) => files,
        Err(_) => FileStats::empty(),
    };
    let catalog = build_checks();
    let seen = apply_readings(&catalog, readings);
    let status = check_status(&seen);
    let ghost cs = seen.deep_view();
    let mut checks: Vec<RecentCheckResult> = Vec::new();
    let mut i: usize = 0;
    while i < seen.len()
        invariant
            i <= seen.len(),
            cs == seen.deep_view(),
            checks.len() == i,
            forall|j: int| 0 <= j < i ==> (#[trigger] checks[j])@ == result_for(cs[j]),
        decreases seen.len() - i,
    {
        assert(seen[i as int]@ == cs[i as int]);
        checks.push(check_result(copy_check(&seen[i])));
        i += 1;
    }
    assert(checks.deep_view() =~= cs.map_values(|c: RegistryCheckView| result_for(c)));
    RecentInfo { path: String::from_str(path), files, status, checks }
}

} // verus!
