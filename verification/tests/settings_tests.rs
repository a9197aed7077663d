use query_core::settings::{
    ProjectContext, Settings, get_app_dir, get_auto_connect_enabled_internal,
    get_current_project_path_internal, get_last_connection_internal,
    load_project_settings_internal, set_auto_connect_enabled_internal,
    set_last_connection_internal, set_project_path_internal,
};

#[test]
fn fresh_context_has_no_project_path() {
    let ctx = ProjectContext::new();
    assert_eq!(get_current_project_path_internal(&ctx), None);
}

#[test]
fn app_dir_defaults_to_dot_query_under_home() {
    let ctx = ProjectContext::new();
    assert_eq!(get_app_dir(&ctx, "/home/alice"), "/home/alice/.query");
}

#[test]
fn app_dir_prefers_the_project_path() {
    let mut ctx = ProjectContext::new();
    let mut settings = Settings::empty();
    set_project_path_internal(&mut ctx, &mut settings, "/data/proj".to_string());
    assert_eq!(get_app_dir(&ctx, "/home/alice"), "/data/proj");
}

#[test]
fn set_project_path_updates_context_and_settings() {
    let mut ctx = ProjectContext::new();
    let mut settings = Settings::empty();
    set_last_connection_internal(&mut settings, "local".to_string());
    set_project_path_internal(&mut ctx, &mut settings, "/data/proj".to_string());
    assert_eq!(get_current_project_path_internal(&ctx), Some("/data/proj".to_string()));
    assert_eq!(settings.project_path, Some("/data/proj".to_string()));
    // Nothing else changed.
    assert_eq!(settings.last_connection, Some("local".to_string()));
    assert_eq!(settings.auto_connect_enabled, None);
}

#[test]
fn load_project_settings_takes_the_stored_path() {
    let mut ctx = ProjectContext::new();
    let settings = Settings {
        project_path: Some("/data/proj".to_string()),
        last_connection: None,
        auto_connect_enabled: None,
    };
    load_project_settings_internal(&mut ctx, &settings);
    assert_eq!(get_current_project_path_internal(&ctx), Some("/data/proj".to_string()));
}

#[test]
fn load_project_settings_keeps_context_when_unset() {
    let mut ctx = ProjectContext { project_path: Some("/kept".to_string()) };
    let settings = Settings::empty();
    load_project_settings_internal(&mut ctx, &settings);
    assert_eq!(get_current_project_path_internal(&ctx), Some("/kept".to_string()));
}

#[test]
fn last_connection_round_trip() {
    let mut settings = Settings::empty();
    assert_eq!(get_last_connection_internal(&settings), None);
    set_last_connection_internal(&mut settings, "prod".to_string());
    assert_eq!(get_last_connection_internal(&settings), Some("prod".to_string()));
}

#[test]
fn auto_connect_defaults_to_off() {
    let settings = Settings::empty();
    assert!(!get_auto_connect_enabled_internal(&settings));
}

#[test]
fn auto_connect_round_trip() {
    let mut settings = Settings::empty();
    set_auto_connect_enabled_internal(&mut settings, true);
    assert!(get_auto_connect_enabled_internal(&settings));
    set_auto_connect_enabled_internal(&mut settings, false);
    assert!(!get_auto_connect_enabled_internal(&settings));
}
