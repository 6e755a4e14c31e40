use workspace_launcher::config::AppConfig;
use workspace_launcher::error::AppError;
use workspace_launcher::models::{
    AppSettings, AppSettingsUpdate, LaunchPreset, LaunchPresetInput, OpenConfig, ThemePreference,
    WorkspaceInput, WorkspaceRecord,
};
use workspace_launcher::state::{AppStateInner, WorkspacePlan};
use workspace_launcher::launch::{launch_command, HostOs};
use workspace_launcher::models::ProjectInput;
use workspace_launcher::project::{sanitize_project_input, validate_project_input};

fn record(id: u128, name: &str) -> WorkspaceRecord {
    WorkspaceRecord {
        id,
        name: name.to_string(),
        description: None,
        database_path: format!("/data/{id}.sqlite"),
        created_at: 1,
        updated_at: 1,
    }
}

fn empty_state() -> AppStateInner<u32, ()> {
    let config = AppConfig {
        workspaces: Vec::new(),
        active_workspace_id: None,
        settings: AppSettings::default(),
    };
    AppStateInner::new(String::from("/data"), config)
}

fn input(name: &str) -> WorkspaceInput {
    WorkspaceInput { name: name.to_string(), description: None, database_path: None }
}

fn plan(id: u128) -> WorkspacePlan {
    WorkspacePlan { id, database_path: format!("/data/{id}.sqlite"), created_at: 42 }
}

fn update(font_size: u8, presets: Vec<LaunchPresetInput>) -> AppSettingsUpdate {
    AppSettingsUpdate {
        theme: ThemePreference::Dark,
        accent_color: String::from("#ff0000"),
        zoom_level: 110,
        font_family: Some(String::from("  Inter  ")),
        font_size,
        launch_presets: presets,
    }
}

#[test]
fn bootstrap_has_one_active_default_workspace() {
    let c = AppConfig::bootstrap("/data");
    assert_eq!(c.workspaces.len(), 1);
    let w = &c.workspaces[0];
    assert_eq!(w.name, "Default Workspace");
    assert_eq!(w.description.as_deref(), Some("Initial workspace"));
    assert_eq!(c.active_workspace_id, Some(w.id));
    assert_eq!(w.database_path, workspace_launcher::config::default_workspace_db_path("/data", w.id));
    assert!(w.database_path.starts_with("/data/workspaces/"));
    assert_eq!(c.settings.font_size, 16);
    assert_eq!(c.settings.accent_color, "#3b82f6");
    assert_eq!(c.settings.zoom_level, 100);
}

#[test]
fn missing_active_id_becomes_first_workspace() {
    let c = AppConfig {
        workspaces: vec![record(7, "A"), record(9, "B")],
        active_workspace_id: None,
        settings: AppSettings::default(),
    };
    let (c, changed) = c.ensure_active_id();
    assert!(changed);
    assert_eq!(c.active_workspace_id, Some(7));
    let (c, changed) = c.ensure_active_id();
    assert!(!changed);
    assert_eq!(c.active_workspace_id, Some(7));
}

#[test]
fn empty_registry_keeps_no_active_id() {
    let c = AppConfig { workspaces: Vec::new(), active_workspace_id: None, settings: AppSettings::default() };
    let (c, changed) = c.ensure_active_id();
    assert!(!changed);
    assert_eq!(c.active_workspace_id, None);
}

#[test]
fn load_repair_resets_font_size_and_trims() {
    let mut c = AppConfig {
        workspaces: vec![record(1, "A")],
        active_workspace_id: Some(1),
        settings: AppSettings::default(),
    };
    c.settings.font_size = 5;
    c.settings.font_family = Some(String::from("  Fira "));
    c.settings.launch_presets.push(LaunchPreset {
        id: 3,
        name: String::from(" Editor "),
        description: Some(String::from("   ")),
        config: OpenConfig::SystemDefault,
    });
    assert!(c.ensure_settings(false));
    assert_eq!(c.settings.font_size, 16);
    assert_eq!(c.settings.font_family.as_deref(), Some("Fira"));
    assert_eq!(c.settings.launch_presets[0].name, "Editor");
    assert_eq!(c.settings.launch_presets[0].description, None);
    assert_eq!(c.settings.launch_presets[0].id, 3);
    assert!(!c.ensure_settings(false));
    assert!(c.ensure_settings(true));
}

#[test]
fn load_repair_of_a_large_font_size() {
    let mut c = AppConfig { workspaces: Vec::new(), active_workspace_id: None, settings: AppSettings::default() };
    c.settings.font_size = 40;
    assert!(c.ensure_settings(false));
    assert_eq!(c.settings.font_size, 16);
}

#[test]
fn repair_reports_either_change() {
    let c = AppConfig {
        workspaces: vec![record(1, "A")],
        active_workspace_id: None,
        settings: AppSettings::default(),
    };
    let (c, changed) = c.repair(false);
    assert!(changed);
    assert_eq!(c.active_workspace_id, Some(1));
    let (_, changed) = c.repair(false);
    assert!(!changed);
}

#[test]
fn first_workspace_becomes_active() {
    let mut s = empty_state();
    let w = s.create_workspace(input("Work"), plan(10), 1).unwrap();
    assert_eq!(w.id, 10);
    assert_eq!(w.name, "Work");
    assert_eq!(w.created_at, 42);
    assert_eq!(w.updated_at, 42);
    assert_eq!(s.config.active_workspace_id, Some(10));
    let w2 = s.create_workspace(input("Home"), plan(11), 2).unwrap();
    assert_eq!(w2.id, 11);
    assert_eq!(s.config.active_workspace_id, Some(10));
    assert_eq!(s.list_workspaces().len(), 2);
    assert_eq!(s.get_active_workspace().unwrap().name, "Work");
}

#[test]
fn duplicate_name_is_refused_ignoring_case() {
    let mut s = empty_state();
    s.create_workspace(input("Work"), plan(10), 1).unwrap();
    let err = s.create_workspace(input("wORK"), plan(11), 2).unwrap_err();
    assert!(matches!(err, AppError::Validation(_)));
    assert_eq!(s.config.workspaces.len(), 1);
    assert!(s.workspace_handle(Some(11)).is_err());
    assert!(matches!(s.prepare_workspace(&input("WORK")), Err(AppError::Validation(_))));
}

#[test]
fn blank_name_is_refused() {
    let mut s = empty_state();
    assert!(matches!(s.create_workspace(input("   "), plan(10), 1), Err(AppError::Validation(_))));
    assert!(matches!(s.prepare_workspace(&input("")), Err(AppError::Validation(_))));
    assert!(s.config.workspaces.is_empty());
    assert_eq!(s.config.active_workspace_id, None);
}

#[test]
fn id_in_use_is_refused() {
    let mut s = empty_state();
    s.create_workspace(input("Work"), plan(10), 1).unwrap();
    assert!(matches!(s.create_workspace(input("Other"), plan(10), 2), Err(AppError::Validation(_))));
    assert_eq!(s.config.workspaces.len(), 1);
}

#[test]
fn prepared_workspace_gets_default_store_path() {
    let s = empty_state();
    let p = s.prepare_workspace(&input("Work")).unwrap();
    assert_eq!(p.database_path, s.default_workspace_db_path(p.id));
    let mut custom = input("Work");
    custom.database_path = Some(String::from("/elsewhere/db.sqlite"));
    assert_eq!(s.prepare_workspace(&custom).unwrap().database_path, "/elsewhere/db.sqlite");
}

#[test]
fn set_active_workspace_checks_the_id() {
    let mut s = empty_state();
    s.create_workspace(input("Work"), plan(10), 1).unwrap();
    s.create_workspace(input("Home"), plan(11), 2).unwrap();
    assert_eq!(s.set_active_workspace(11).unwrap().name, "Home");
    assert_eq!(s.config.active_workspace_id, Some(11));
    match s.set_active_workspace(12) {
        Err(AppError::WorkspaceNotFound(m)) => assert_eq!(m, "00000000-0000-0000-0000-00000000000c"),
        other => panic!("unexpected {other:?}"),
    }
    assert_eq!(s.config.active_workspace_id, Some(11));
}

#[test]
fn workspace_handle_resolution() {
    let mut s = empty_state();
    assert!(matches!(s.workspace_handle(None), Err(AppError::Validation(_))));
    s.create_workspace(input("Work"), plan(10), 77).unwrap();
    let h = s.workspace_handle(None).unwrap();
    assert_eq!(h.meta.id, 10);
    assert_eq!(h.pool, 77);
    assert!(matches!(s.workspace_handle(Some(5)), Err(AppError::WorkspaceNotFound(_))));
}

#[test]
fn update_clamps_font_size_high() {
    let mut s = empty_state();
    let r = s.update_settings(update(35, Vec::new()), &Vec::new()).unwrap();
    assert_eq!(r.font_size, 28);
    assert_eq!(s.get_settings().font_size, 28);
    assert_eq!(r.theme, ThemePreference::Dark);
    assert_eq!(r.font_family.as_deref(), Some("Inter"));
    assert_eq!(r.zoom_level, 110);
}

#[test]
fn update_clamps_font_size_low() {
    let mut s = empty_state();
    assert_eq!(s.update_settings(update(5, Vec::new()), &Vec::new()).unwrap().font_size, 10);
    assert_eq!(s.update_settings(update(20, Vec::new()), &Vec::new()).unwrap().font_size, 20);
}

#[test]
fn update_builds_presets() {
    let mut s = empty_state();
    let presets = vec![
        LaunchPresetInput {
            id: Some(5),
            name: String::from("  Code "),
            description: Some(String::from(" editor ")),
            config: OpenConfig::CustomApp { executable: String::from("\u{202a}/usr/bin/code\u{202c}"), args: vec![String::from("-n")] },
        },
        LaunchPresetInput {
            id: None,
            name: String::from("Shell"),
            description: Some(String::from("  ")),
            config: OpenConfig::CustomCommand { command: String::from("bash"), args: Vec::new() },
        },
    ];
    let r = s.update_settings(update(16, presets), &vec![true, false]).unwrap();
    assert_eq!(r.launch_presets.len(), 2);
    assert_eq!(r.launch_presets[0].id, 5);
    assert_eq!(r.launch_presets[0].name, "Code");
    assert_eq!(r.launch_presets[0].description.as_deref(), Some("editor"));
    match &r.launch_presets[0].config {
        OpenConfig::CustomApp { executable, args } => {
            assert_eq!(executable, "/usr/bin/code");
            assert_eq!(args, &vec![String::from("-n")]);
        }
        other => panic!("unexpected {other:?}"),
    }
    assert_eq!(r.launch_presets[1].description, None);
    assert_eq!(s.get_settings().launch_presets.len(), 2);
}

#[test]
fn update_refuses_bad_presets() {
    let mut s = empty_state();
    let blank_name = vec![LaunchPresetInput {
        id: None,
        name: String::from("  "),
        description: None,
        config: OpenConfig::SystemDefault,
    }];
    assert!(matches!(s.update_settings(update(35, blank_name), &vec![false]), Err(AppError::Validation(_))));
    assert_eq!(s.get_settings().font_size, 16);
    let missing_program = vec![LaunchPresetInput {
        id: None,
        name: String::from("App"),
        description: None,
        config: OpenConfig::CustomApp { executable: String::from("/nope"), args: Vec::new() },
    }];
    assert!(matches!(s.update_settings(update(16, missing_program), &vec![false]), Err(AppError::Validation(_))));
    let blank_command = vec![LaunchPresetInput {
        id: None,
        name: String::from("Cmd"),
        description: None,
        config: OpenConfig::CustomCommand { command: String::from("  "), args: Vec::new() },
    }];
    assert!(matches!(s.update_settings(update(16, blank_command), &vec![true]), Err(AppError::Validation(_))));
    assert_eq!(s.get_settings().theme, ThemePreference::Light);
}

#[test]
fn work_workspace_then_demo_project() {
    let mut s = empty_state();
    let w = s.create_workspace(input("Work"), plan(21), 5).unwrap();
    assert_eq!(s.get_active_workspace().unwrap().id, w.id);
    let handle = s.workspace_handle(None).unwrap();
    assert_eq!(handle.meta.name, "Work");
    assert_eq!(handle.pool, 5);

    let demo = sanitize_project_input(ProjectInput {
        id: None,
        name: String::from("Demo"),
        path: String::from("/tmp"),
        description: None,
        open_config: OpenConfig::SystemDefault,
    });
    assert!(validate_project_input(&demo, true, false).is_ok());
    let command = launch_command(&demo.open_config, &demo.path, HostOs::Linux).unwrap();
    assert_eq!(command.program, "xdg-open");
    assert_eq!(command.args, vec![String::from("/tmp")]);
    assert!(!command.kept);
}

#[test]
fn dangling_active_id_becomes_first_workspace() {
    let c = AppConfig {
        workspaces: vec![record(7, "A"), record(9, "B")],
        active_workspace_id: Some(99),
        settings: AppSettings::default(),
    };
    let (c, changed) = c.repair(false);
    assert!(changed);
    assert_eq!(c.active_workspace_id, Some(7));
    let c = AppConfig { active_workspace_id: Some(9), ..c };
    let (c, changed) = c.ensure_active_id();
    assert!(!changed);
    assert_eq!(c.active_workspace_id, Some(9));
}

#[test]
fn handle_without_active_workspace_names_the_problem() {
    let s = empty_state();
    match s.workspace_handle(None) {
        Err(AppError::Validation(m)) => assert_eq!(m, "no active workspace selected"),
        other => panic!("unexpected {other:?}"),
    }
}

#[test]
fn workspace_name_errors_carry_their_text() {
    let mut s = empty_state();
    match s.create_workspace(input(" "), plan(1), 1) {
        Err(AppError::Validation(m)) => assert_eq!(m, "workspace name cannot be empty"),
        other => panic!("unexpected {other:?}"),
    }
    s.create_workspace(input("Work"), plan(1), 1).unwrap();
    match s.prepare_workspace(&input("WORK")) {
        Err(AppError::Validation(m)) => assert_eq!(m, "workspace name 'WORK' already exists"),
        other => panic!("unexpected {other:?}"),
    }
}
