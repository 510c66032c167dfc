use shroud::autostart::{join_path, Autostart, AutostartChange, AutostartError, DESKTOP_ENTRY};

#[test]
fn desktop_file_under_config_dir() {
    assert_eq!(
        Autostart::desktop_file_in(Some("/home/alice/.config".to_string())),
        Some("/home/alice/.config/autostart/shroud.desktop".to_string())
    );
    assert_eq!(
        Autostart::desktop_file_in(Some("/home/alice/.config/".to_string())),
        Some("/home/alice/.config/autostart/shroud.desktop".to_string())
    );
    assert_eq!(Autostart::desktop_file_in(None), None);
}

#[test]
fn join_like_path_join() {
    assert_eq!(join_path("", "a/b"), "a/b");
    assert_eq!(join_path("/x", "a"), "/x/a");
    assert_eq!(join_path("/", "a"), "/a");
}

#[test]
fn desktop_file_path_ends_with_entry_name() {
    if let Some(p) = Autostart::desktop_file_path() {
        assert!(p.ends_with("autostart/shroud.desktop"));
    }
}

#[test]
fn enabled_only_when_entry_exists() {
    assert!(Autostart::enabled_from(Some(true)));
    assert!(!Autostart::enabled_from(Some(false)));
    assert!(!Autostart::enabled_from(None));
}

#[test]
fn is_enabled_agrees_with_file() {
    let expected = match Autostart::desktop_file_path() {
        Some(p) => std::path::Path::new(&p).exists(),
        None => false,
    };
    assert_eq!(Autostart::is_enabled(), expected);
}

#[test]
fn toggle_flips() {
    assert_eq!(Autostart::toggle(true), AutostartChange::Disable);
    assert_eq!(Autostart::toggle(false), AutostartChange::Enable);
    assert_eq!(Autostart::toggle_result(AutostartChange::Enable, Ok(())), Ok(true));
    assert_eq!(Autostart::toggle_result(AutostartChange::Disable, Ok(())), Ok(false));
    assert_eq!(
        Autostart::toggle_result(AutostartChange::Enable, Err(AutostartError::Write("disk full".into()))),
        Err("Failed to write desktop file: disk full".to_string())
    );
}

#[test]
fn autostart_error_messages() {
    assert_eq!(AutostartError::NoConfigDir.message(), "Could not determine config directory");
    assert_eq!(
        AutostartError::CreateDir("denied".into()).message(),
        "Failed to create autostart directory: denied"
    );
    assert_eq!(
        AutostartError::Remove("busy".into()).message(),
        "Failed to remove desktop file: busy"
    );
}

#[test]
fn desktop_entry_content() {
    assert!(DESKTOP_ENTRY.starts_with("[Desktop Entry]\n"));
    assert!(DESKTOP_ENTRY.contains("Exec=shroud\n"));
    assert!(DESKTOP_ENTRY.ends_with("X-GNOME-Autostart-enabled=true\n"));
}
