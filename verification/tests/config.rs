use sleep_log::config::Config;

fn fresh() -> Config {
    Config::with_db_file("/home/alice/.local/share/slog/slog.db".to_string())
}

#[test]
fn a_fresh_installation_has_the_usual_defaults() {
    let config = fresh();
    assert_eq!(config.start_time_default, "21:30");
    assert_eq!(config.end_time_default, "05:30");
    assert_eq!(config.db_file_path, "/home/alice/.local/share/slog/slog.db");
    assert_eq!(config.google_sheets_id, None);
    assert_eq!(config.google_credentials_path, None);
}

#[test]
fn the_defaults_for_the_current_user_are_the_usual_ones() {
    if let Some(config) = Config::for_current_user() {
        assert_eq!(config.start_time_default, "21:30");
        assert_eq!(config.end_time_default, "05:30");
        assert_eq!(config.google_sheets_id, None);
        assert_eq!(config.google_credentials_path, None);
        assert!(config.db_file_path.ends_with("slog.db"));
        assert!(config.db_file_path.contains("slog"));
    }
}

#[test]
fn valid_times_are_accepted() {
    assert_eq!(Config::validate_time_format("21:30"), Ok(()));
    assert_eq!(Config::validate_time_format("00:00"), Ok(()));
    assert_eq!(Config::validate_time_format("23:59"), Ok(()));
}

#[test]
fn invalid_times_are_refused_with_a_message() {
    assert_eq!(
        Config::validate_time_format("2130"),
        Err("Time must be in HH:MM format".to_string())
    );
    assert_eq!(
        Config::validate_time_format("1:2:3"),
        Err("Time must be in HH:MM format".to_string())
    );
    assert_eq!(
        Config::validate_time_format("7:05"),
        Err("Time must be in HH:MM format".to_string())
    );
    assert_eq!(
        Config::validate_time_format("+7:+30"),
        Err("Hours must be a valid number".to_string())
    );
    assert_eq!(
        Config::validate_time_format("007:0005"),
        Err("Time must be in HH:MM format".to_string())
    );
    assert_eq!(
        Config::validate_time_format("aa:30"),
        Err("Hours must be a valid number".to_string())
    );
    assert_eq!(
        Config::validate_time_format("21:bb"),
        Err("Minutes must be a valid number".to_string())
    );
    assert_eq!(
        Config::validate_time_format("24:00"),
        Err("Hours must be between 0 and 23".to_string())
    );
    assert_eq!(
        Config::validate_time_format("23:60"),
        Err("Minutes must be between 0 and 59".to_string())
    );
}

#[test]
fn the_start_time_default_takes_a_time() {
    let mut config = fresh();
    assert_eq!(config.update_field("start_time_default", "22:15".to_string()), Ok(()));
    assert_eq!(config.start_time_default, "22:15");
    assert_eq!(config.end_time_default, "05:30");
}

#[test]
fn the_end_time_default_takes_a_time() {
    let mut config = fresh();
    assert_eq!(config.update_field("end_time_default", "06:45".to_string()), Ok(()));
    assert_eq!(config.end_time_default, "06:45");
    assert_eq!(config.start_time_default, "21:30");
}

#[test]
fn a_default_time_that_is_no_time_changes_nothing() {
    let mut config = fresh();
    assert_eq!(
        config.update_field("start_time_default", "25:00".to_string()),
        Err("Hours must be between 0 and 23".to_string())
    );
    assert_eq!(
        config.update_field("end_time_default", "noon".to_string()),
        Err("Time must be in HH:MM format".to_string())
    );
    assert_eq!(
        config.update_field("end_time_default", "6:45".to_string()),
        Err("Time must be in HH:MM format".to_string())
    );
    assert_eq!(
        config.update_field("start_time_default", "+9:30".to_string()),
        Err("Hours must be a valid number".to_string())
    );
    assert_eq!(config.start_time_default, "21:30");
    assert_eq!(config.end_time_default, "05:30");
}

#[test]
fn the_other_settings_take_any_text() {
    let mut config = fresh();
    assert_eq!(config.update_field("db_file_path", "/tmp/other.db".to_string()), Ok(()));
    assert_eq!(config.update_field("google_sheets_id", "sheet-1".to_string()), Ok(()));
    assert_eq!(
        config.update_field("google_credentials_path", "/tmp/key.json".to_string()),
        Ok(())
    );
    assert_eq!(config.db_file_path, "/tmp/other.db");
    assert_eq!(config.google_sheets_id, Some("sheet-1".to_string()));
    assert_eq!(config.google_credentials_path, Some("/tmp/key.json".to_string()));
    assert_eq!(config.start_time_default, "21:30");
    assert_eq!(config.end_time_default, "05:30");
}

#[test]
fn an_unknown_setting_is_refused_by_name() {
    let mut config = fresh();
    assert_eq!(
        config.update_field("colour", "blue".to_string()),
        Err("Unknown field: colour".to_string())
    );
    assert_eq!(
        config.update_field("", "blue".to_string()),
        Err("Unknown field: ".to_string())
    );
    assert_eq!(
        config.update_field("Start_Time_Default", "22:00".to_string()),
        Err("Unknown field: Start_Time_Default".to_string())
    );
    assert_eq!(config.start_time_default, "21:30");
    assert_eq!(config.db_file_path, "/home/alice/.local/share/slog/slog.db");
}

#[test]
fn the_store_address_is_the_path_behind_sqlite() {
    let mut config = fresh();
    assert_eq!(config.get_db_url(), "sqlite:/home/alice/.local/share/slog/slog.db");
    config.db_file_path = String::new();
    assert_eq!(config.get_db_url(), "sqlite:");
}

#[test]
fn the_settings_are_shown_line_by_line() {
    let mut config = fresh();
    assert_eq!(
        config.report_lines("/home/alice/.config/slog/config.yml"),
        vec![
            "Current configuration:",
            "  Config file: /home/alice/.config/slog/config.yml",
            "  start_time_default: 21:30",
            "  end_time_default: 05:30",
            "  db_file_path: /home/alice/.local/share/slog/slog.db",
            "  google_sheets_id: Not set",
            "  google_credentials_path: Not set",
        ]
    );
    config.google_sheets_id = Some("sheet-1".to_string());
    config.google_credentials_path = Some("/tmp/key.json".to_string());
    let lines = config.report_lines("c.yml");
    assert_eq!(lines[5], "  google_sheets_id: sheet-1");
    assert_eq!(lines[6], "  google_credentials_path: /tmp/key.json");
}

#[test]
fn no_home_directory_gives_no_settings() {
    assert!(Config::for_home(None).is_none());
}

#[test]
fn the_store_of_a_fresh_installation_lies_under_the_home_directory() {
    let config = Config::for_home(Some("/home/alice".to_string())).unwrap();
    let expected = std::path::Path::new("/home/alice")
        .join(".local")
        .join("share")
        .join("slog")
        .join("slog.db")
        .to_string_lossy()
        .to_string();
    assert_eq!(config.db_file_path, expected);
    assert_ne!(config.db_file_path, "/home/alice");
    assert_eq!(config.start_time_default, "21:30");
    assert_eq!(config.end_time_default, "05:30");
    assert_eq!(config.google_sheets_id, None);
    assert_eq!(config.google_credentials_path, None);
}
