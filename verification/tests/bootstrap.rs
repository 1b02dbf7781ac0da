use sidecar_bootstrap::diag::log_line;
use sidecar_bootstrap::launch::{
    begin_startup, outcome_of_spawn, plan_startup, Bootstrap, DeployMode, LaunchAction,
    LaunchOutcome,
};
use sidecar_bootstrap::locator::locate_sidecar;

#[test]
fn locator_typical_path() {
    let exe = Some(String::from("/opt/app/shell"));
    let r = locate_sidecar(&exe);
    assert_eq!(r, Some(String::from("/opt/app/file-organizer-backend")));
}

#[test]
fn locator_root_level_path() {
    let exe = Some(String::from("/shell"));
    let r = locate_sidecar(&exe);
    assert_eq!(r, Some(String::from("/file-organizer-backend")));
}

#[test]
fn locator_trailing_separator() {
    let exe = Some(String::from("a/b/"));
    let r = locate_sidecar(&exe);
    assert_eq!(r, Some(String::from("a/b/file-organizer-backend")));
}

#[test]
fn locator_no_parent_is_absent() {
    let exe = Some(String::from("shell"));
    assert_eq!(locate_sidecar(&exe), None);
}

#[test]
fn locator_unknown_exe_is_absent() {
    assert_eq!(locate_sidecar(&None), None);
}

#[test]
fn locator_empty_path_is_absent() {
    let exe = Some(String::new());
    assert_eq!(locate_sidecar(&exe), None);
}

#[test]
fn plan_production_spawns_located_path() {
    let action = plan_startup(
        &DeployMode::Production,
        Some(String::from("/opt/app/file-organizer-backend")),
    );
    assert!(
        matches!(action, LaunchAction::SpawnSidecar(p) if p == "/opt/app/file-organizer-backend")
    );
}

#[test]
fn plan_production_without_path_reports() {
    let action = plan_startup(&DeployMode::Production, None);
    assert!(matches!(action, LaunchAction::ReportUnresolved));
}

#[test]
fn plan_development_never_launches() {
    let action = plan_startup(
        &DeployMode::Development,
        Some(String::from("/opt/app/file-organizer-backend")),
    );
    assert!(matches!(action, LaunchAction::VerboseLogging));
    let action = plan_startup(&DeployMode::Development, None);
    assert!(matches!(action, LaunchAction::VerboseLogging));
}

#[test]
fn development_build_skips_launcher_entirely() {
    let exe = Some(String::from("/opt/app/shell"));
    let (_, action) = begin_startup(&DeployMode::Development, &exe);
    assert!(matches!(action, LaunchAction::VerboseLogging));
}

#[test]
fn accepted_spawn_is_launched() {
    let outcome = outcome_of_spawn(Ok(()));
    assert!(matches!(outcome, LaunchOutcome::Launched));
}

#[test]
fn refused_spawn_keeps_cause() {
    let outcome = outcome_of_spawn(Err(String::from("No such file or directory")));
    assert!(matches!(outcome, LaunchOutcome::SpawnFailed(m) if m == "No such file or directory"));
}

#[test]
fn log_line_success() {
    let path = Some(String::from("/opt/app/file-organizer-backend"));
    let line = log_line(&path, &LaunchOutcome::Launched);
    assert_eq!(
        line,
        "sidecar spawn: path=/opt/app/file-organizer-backend result=ok"
    );
}

#[test]
fn log_line_spawn_failure() {
    let path = Some(String::from("/opt/app/file-organizer-backend"));
    let line = log_line(
        &path,
        &LaunchOutcome::SpawnFailed(String::from("permission denied")),
    );
    assert_eq!(
        line,
        "sidecar spawn: path=/opt/app/file-organizer-backend result=spawn error: permission denied"
    );
}

#[test]
fn log_line_unresolved_dir() {
    let line = log_line(&None, &LaunchOutcome::DirUnresolved);
    assert_eq!(
        line,
        "sidecar spawn: path=absent result=failed to resolve executable dir"
    );
}

#[test]
fn successful_run_records_once_and_logs_once() {
    let exe = Some(String::from("/opt/app/shell"));
    let (sidecar, action) = begin_startup(&DeployMode::Production, &exe);
    assert!(matches!(&action, LaunchAction::SpawnSidecar(p) if p == "/opt/app/file-organizer-backend"));
    let mut boot = Bootstrap::new();
    // the operating system accepted the spawn request
    boot.record(outcome_of_spawn(Ok(())));
    let line = boot.log_entry(&sidecar);
    assert_eq!(
        line,
        "sidecar spawn: path=/opt/app/file-organizer-backend result=ok"
    );
    assert!(matches!(boot.reported(), Some(LaunchOutcome::Launched)));
}

#[test]
fn missing_binary_run_reports_distinguishable_cause() {
    let exe = Some(String::from("/nowhere/shell"));
    let (sidecar, action) = begin_startup(&DeployMode::Production, &exe);
    assert!(matches!(&action, LaunchAction::SpawnSidecar(p) if p == "/nowhere/file-organizer-backend"));
    let mut boot = Bootstrap::new();
    // the operating system refused the spawn: the binary does not exist
    boot.record(outcome_of_spawn(Err(String::from(
        "No such file or directory",
    ))));
    let line = boot.log_entry(&sidecar);
    assert_eq!(
        line,
        "sidecar spawn: path=/nowhere/file-organizer-backend result=spawn error: No such file or directory"
    );
    assert!(matches!(boot.reported(), Some(LaunchOutcome::SpawnFailed(_))));
}

#[test]
fn unresolved_dir_run_spawns_nothing() {
    let (sidecar, action) = begin_startup(&DeployMode::Production, &None);
    assert_eq!(sidecar, None);
    assert!(matches!(action, LaunchAction::ReportUnresolved));
    let mut boot = Bootstrap::new();
    boot.record(LaunchOutcome::DirUnresolved);
    let line = boot.log_entry(&sidecar);
    assert_eq!(
        line,
        "sidecar spawn: path=absent result=failed to resolve executable dir"
    );
    assert!(matches!(boot.reported(), Some(LaunchOutcome::DirUnresolved)));
}

#[test]
fn outcome_survives_failed_log_write() {
    let sidecar = Some(String::from("/opt/app/file-organizer-backend"));
    let mut boot = Bootstrap::new();
    boot.record(outcome_of_spawn(Ok(())));
    // the log directory cannot be written: the line is produced but the
    // append fails, and that failure is absorbed without touching the outcome
    let line = boot.log_entry(&sidecar);
    drop(line);
    assert!(matches!(boot.reported(), Some(LaunchOutcome::Launched)));
}
