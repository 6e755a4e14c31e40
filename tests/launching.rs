use workspace_launcher::error::AppError;
use workspace_launcher::launch::{
    launch_command, launch_error, open_with_system, spawn_with_command, spawn_with_program, HostOs,
    ProcStatus, ProcessRegistry,
};
use workspace_launcher::models::{ActivityPoint, OpenConfig, ProjectInput, ProjectRow};
use workspace_launcher::project::{
    activity_points, count_on, parse_timestamp, row_to_project, sanitize_project_input,
    total_launches, validate_open_config, validate_project_input,
};

fn project_input(name: &str, path: &str, config: OpenConfig) -> ProjectInput {
    ProjectInput { id: None, name: name.to_string(), path: path.to_string(), description: None, open_config: config }
}

#[test]
fn second_launch_while_running_keeps_one_entry() {
    let mut reg: ProcessRegistry<&str> = ProcessRegistry::new();
    // first launch: nothing kept, so a process is started and recorded
    let polled = reg.check_out(1).map(|h| (h, ProcStatus::Running));
    assert!(reg.settle_launch(1, polled));
    reg.record_spawn(1, "first");
    // second launch while it runs: it is kept, nothing is started
    let polled = reg.check_out(1).map(|h| (h, ProcStatus::Running));
    assert!(!reg.settle_launch(1, polled));
    assert_eq!(reg.len(), 1);
    assert!(reg.has_handle(1));
    // stop, then list
    let stopped = reg.check_out(1).map(|h| (h, Ok(())));
    assert!(reg.finish_stop(1, stopped).is_ok());
    let polled: Vec<(u128, &str, ProcStatus)> =
        reg.check_out_all().into_iter().map(|(id, h)| (id, h, ProcStatus::Running)).collect();
    assert!(reg.readmit(polled).is_empty());
    assert!(!reg.has_handle(1));
}

#[test]
fn exited_process_is_replaced() {
    let mut reg: ProcessRegistry<&str> = ProcessRegistry::new();
    reg.record_spawn(4, "old");
    let polled = reg.check_out(4).map(|h| (h, ProcStatus::Exited));
    assert!(reg.settle_launch(4, polled));
    assert!(!reg.has_handle(4));
    reg.record_spawn(4, "new");
    let unknown = reg.check_out(4).map(|h| (h, ProcStatus::Unknown));
    assert!(reg.settle_launch(4, unknown));
    assert_eq!(reg.len(), 0);
}

#[test]
fn stop_without_entry_is_a_no_op() {
    let mut reg: ProcessRegistry<&str> = ProcessRegistry::new();
    reg.record_spawn(2, "other");
    let stopped = reg.check_out(9).map(|h| (h, Ok(())));
    assert!(reg.finish_stop(9, stopped).is_ok());
    assert_eq!(reg.len(), 1);
    assert!(reg.has_handle(2));
}

#[test]
fn failed_kill_keeps_the_entry() {
    let mut reg: ProcessRegistry<&str> = ProcessRegistry::new();
    reg.record_spawn(3, "stuck");
    let stopped = reg.check_out(3).map(|h| (h, Err(String::from("denied"))));
    match reg.finish_stop(3, stopped) {
        Err(AppError::Launch(m)) => assert_eq!(m, "failed to kill process: denied"),
        other => panic!("unexpected {other:?}"),
    }
    assert!(reg.has_handle(3));
}

#[test]
fn sweep_drops_exited_and_unknown() {
    let mut reg: ProcessRegistry<&str> = ProcessRegistry::new();
    reg.record_spawn(1, "a");
    reg.record_spawn(2, "b");
    reg.record_spawn(3, "c");
    let mut taken = reg.check_out_all();
    assert_eq!(reg.len(), 0);
    taken.sort_by_key(|e| e.0);
    let statuses = [ProcStatus::Running, ProcStatus::Exited, ProcStatus::Unknown];
    let polled: Vec<(u128, &str, ProcStatus)> =
        taken.into_iter().zip(statuses).map(|((id, h), s)| (id, h, s)).collect();
    assert_eq!(reg.readmit(polled), vec![1]);
    assert!(reg.has_handle(1));
    assert!(!reg.has_handle(2));
    assert!(!reg.has_handle(3));
}

#[test]
fn system_open_per_platform() {
    let c = open_with_system("/p", HostOs::Linux).unwrap();
    assert_eq!(c.program, "xdg-open");
    assert_eq!(c.args, vec![String::from("/p")]);
    assert!(!c.kept);
    assert_eq!(open_with_system("/p", HostOs::Windows).unwrap().program, "explorer");
    assert_eq!(open_with_system("/p", HostOs::MacOs).unwrap().program, "open");
    match open_with_system("/p", HostOs::Other) {
        Err(AppError::Launch(m)) => assert_eq!(m, "system open is not supported on this platform"),
        other => panic!("unexpected {other:?}"),
    }
}

#[test]
fn program_gets_project_path_last() {
    let c = spawn_with_program("/usr/bin/code", &vec![String::from("-n")], "/p");
    assert_eq!(c.program, "/usr/bin/code");
    assert_eq!(c.args, vec![String::from("-n"), String::from("/p")]);
    assert_eq!(c.current_dir, None);
    assert!(c.kept);
    assert_eq!(c.label, "program /usr/bin/code");
}

#[test]
fn command_runs_in_project_dir() {
    let c = spawn_with_command("npm", &vec![String::from("run"), String::from("dev")], "/p");
    assert_eq!(c.program, "npm");
    assert_eq!(c.args, vec![String::from("run"), String::from("dev")]);
    assert_eq!(c.current_dir.as_deref(), Some("/p"));
    assert!(c.kept);
}

#[test]
fn launch_command_follows_open_config() {
    let c = launch_command(&OpenConfig::SystemDefault, "/p", HostOs::Linux).unwrap();
    assert!(!c.kept);
    let app = OpenConfig::CustomApp { executable: String::from("/bin/app"), args: Vec::new() };
    assert_eq!(launch_command(&app, "/p", HostOs::Other).unwrap().args, vec![String::from("/p")]);
    assert!(launch_command(&OpenConfig::SystemDefault, "/p", HostOs::Other).is_err());
}

#[test]
fn spawn_error_text() {
    match launch_error("npm", "not found") {
        AppError::Launch(m) => assert_eq!(m, "npm: not found"),
        other => panic!("unexpected {other:?}"),
    }
}

#[test]
fn open_config_validation() {
    assert!(validate_open_config(&OpenConfig::SystemDefault, false).is_ok());
    let empty = OpenConfig::CustomApp { executable: String::new(), args: Vec::new() };
    assert!(matches!(validate_open_config(&empty, true), Err(AppError::Validation(_))));
    let missing = OpenConfig::CustomApp { executable: String::from("/nope"), args: Vec::new() };
    match validate_open_config(&missing, false) {
        Err(AppError::Validation(m)) => assert_eq!(m, "startup program not found: /nope"),
        other => panic!("unexpected {other:?}"),
    }
    assert!(validate_open_config(&missing, true).is_ok());
    let blank = OpenConfig::CustomCommand { command: String::from(" \t"), args: Vec::new() };
    assert!(matches!(validate_open_config(&blank, true), Err(AppError::Validation(_))));
    let cmd = OpenConfig::CustomCommand { command: String::from("make"), args: Vec::new() };
    assert!(validate_open_config(&cmd, false).is_ok());
}

#[test]
fn project_input_is_sanitized_then_checked() {
    let raw = project_input(
        "Demo",
        "\u{202a}/home/me/demo\u{202c}",
        OpenConfig::CustomApp { executable: String::from(" \u{202a}/bin/app "), args: Vec::new() },
    );
    let clean = sanitize_project_input(raw);
    assert_eq!(clean.path, "/home/me/demo");
    match &clean.open_config {
        OpenConfig::CustomApp { executable, .. } => assert_eq!(executable, "/bin/app"),
        other => panic!("unexpected {other:?}"),
    }
    assert!(validate_project_input(&clean, true, true).is_ok());
    match validate_project_input(&clean, false, true) {
        Err(AppError::Validation(m)) => assert_eq!(m, "project path does not exist: /home/me/demo"),
        other => panic!("unexpected {other:?}"),
    }
    assert!(matches!(validate_project_input(&clean, true, false), Err(AppError::Validation(_))));
    let unnamed = project_input("  ", "/p", OpenConfig::SystemDefault);
    assert!(matches!(validate_project_input(&unnamed, true, true), Err(AppError::Validation(_))));
}

#[test]
fn demo_project_with_system_default_launches_untracked() {
    let demo = sanitize_project_input(project_input("Demo", "/tmp", OpenConfig::SystemDefault));
    assert!(validate_project_input(&demo, true, false).is_ok());
    let c = launch_command(&demo.open_config, &demo.path, HostOs::Linux).unwrap();
    assert_eq!(c.args, vec![String::from("/tmp")]);
    assert!(!c.kept);
}

#[test]
fn timestamps_are_read_as_micros() {
    assert_eq!(parse_timestamp("2024-01-02T03:04:05Z").unwrap(), 1_704_164_645_000_000);
    assert_eq!(parse_timestamp("1970-01-01T00:00:01.5+00:00").unwrap(), 1_500_000);
    assert!(matches!(parse_timestamp("yesterday"), Err(AppError::Validation(_))));
}

fn row(id: &str, created: &str) -> ProjectRow {
    ProjectRow {
        id: id.to_string(),
        name: String::from("Demo"),
        path: String::from("/tmp"),
        description: None,
        open_config: String::from("{\"mode\":\"system_default\"}"),
        created_at: created.to_string(),
        updated_at: String::from("2024-01-02T03:04:05Z"),
    }
}

#[test]
fn rows_become_projects() {
    let p = row_to_project(
        row("550e8400-e29b-41d4-a716-446655440000", "2024-01-02T03:04:05Z"),
        Ok(OpenConfig::SystemDefault),
    )
    .unwrap();
    assert_eq!(p.id, 0x550e8400e29b41d4a716446655440000);
    assert_eq!(p.name, "Demo");
    assert_eq!(p.created_at, 1_704_164_645_000_000);
    assert!(matches!(
        row_to_project(row("not-an-id", "2024-01-02T03:04:05Z"), Ok(OpenConfig::SystemDefault)),
        Err(AppError::Validation(_))
    ));
    assert!(matches!(
        row_to_project(row("550e8400-e29b-41d4-a716-446655440000", "bad"), Ok(OpenConfig::SystemDefault)),
        Err(AppError::Validation(_))
    ));
    assert!(matches!(
        row_to_project(
            row("550e8400-e29b-41d4-a716-446655440000", "2024-01-02T03:04:05Z"),
            Err(AppError::Serialization(String::from("bad json")))
        ),
        Err(AppError::Serialization(_))
    ));
}

#[test]
fn activity_counts_per_day() {
    let counts = vec![(String::from("2024-01-01"), 2), (String::from("2024-01-03"), 5)];
    assert_eq!(count_on(&String::from("2024-01-03"), &counts), 5);
    assert_eq!(count_on(&String::from("2024-01-02"), &counts), 0);
    let days = vec![String::from("2024-01-01"), String::from("2024-01-02"), String::from("2024-01-03")];
    let points = activity_points(&days, &counts);
    let got: Vec<(String, u32)> = points.iter().map(|p| (p.date.clone(), p.count)).collect();
    assert_eq!(
        got,
        vec![(String::from("2024-01-01"), 2), (String::from("2024-01-02"), 0), (String::from("2024-01-03"), 5)]
    );
    assert_eq!(total_launches(&points), 7);
    let many = vec![ActivityPoint { date: String::new(), count: u32::MAX }; 3];
    assert_eq!(total_launches(&many), 3 * u32::MAX as u128);
}

#[test]
fn error_messages() {
    assert_eq!(AppError::ProjectNotFound(String::from("x")).message(), "project not found: x");
    assert_eq!(AppError::Validation(String::from("bad")).message(), "validation error: bad");
}
