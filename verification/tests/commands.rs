use read_master_desktop::commands::{
    check_for_updates, get_app_version, get_platform, get_store_value, greet,
    notification_request, open_file_dialog, open_file_request, read_file, save_file_dialog,
    save_file_request, set_store_value, show_notification, store_name, write_file,
    FileDialogResult, Picked, SaveDialogResult, StoreWrite, UpdateCheck,
};
use read_master_desktop::platform::Platform;

#[test]
fn greet_wraps_the_name() {
    assert_eq!(greet("Ada"), "Hello, Ada! Welcome to Read Master.");
    assert_eq!(greet(""), "Hello, ! Welcome to Read Master.");
}

#[test]
fn app_version_is_a_semantic_version() {
    let version = get_app_version();
    assert_eq!(version, "0.1.0");
    let parts: Vec<&str> = version.split('.').collect();
    assert_eq!(parts.len(), 3);
    for part in parts {
        assert!(!part.is_empty());
        assert!(part.chars().all(|c| c.is_ascii_digit()));
    }
}

#[test]
fn platform_names_are_the_four_defined() {
    assert_eq!(get_platform(Platform::MacOs), "macos");
    assert_eq!(get_platform(Platform::Windows), "windows");
    assert_eq!(get_platform(Platform::Linux), "linux");
    assert_eq!(get_platform(Platform::Unknown), "unknown");
}

#[test]
fn open_request_defaults_to_a_single_file() {
    let request = open_file_request(None, None);
    assert_eq!(request.title, None);
    assert!(!request.multiple);
    assert!(!open_file_request(None, Some(false)).multiple);
    assert!(open_file_request(None, Some(true)).multiple);
    let titled = open_file_request(Some("Pick a book".to_string()), Some(true));
    assert_eq!(titled.title, Some("Pick a book".to_string()));
}

#[test]
fn open_request_offers_the_book_filters() {
    let request = open_file_request(None, None);
    let got: Vec<(&str, Vec<&str>)> =
        request.filters.iter().map(|f| (f.name, f.extensions.clone())).collect();
    assert_eq!(
        got,
        vec![
            ("Books", vec!["epub", "pdf"]),
            ("EPUB", vec!["epub"]),
            ("PDF", vec!["pdf"]),
            ("All Files", vec!["*"]),
        ]
    );
}

#[test]
fn canceled_open_dialog_is_a_success() {
    assert_eq!(
        open_file_dialog(Ok(Picked::Canceled)),
        Ok(FileDialogResult { canceled: true, paths: vec![] })
    );
}

#[test]
fn open_dialog_reports_the_chosen_paths() {
    assert_eq!(
        open_file_dialog(Ok(Picked::One("/books/a.epub".to_string()))),
        Ok(FileDialogResult { canceled: false, paths: vec!["/books/a.epub".to_string()] })
    );
    assert_eq!(
        open_file_dialog(Ok(Picked::Many(vec!["/a.pdf".to_string(), "/b.epub".to_string()]))),
        Ok(FileDialogResult {
            canceled: false,
            paths: vec!["/a.pdf".to_string(), "/b.epub".to_string()],
        })
    );
    assert_eq!(
        open_file_dialog(Ok(Picked::Many(vec![]))),
        Ok(FileDialogResult { canceled: false, paths: vec![] })
    );
}

#[test]
fn save_request_keeps_title_and_name() {
    let request = save_file_request(Some("Export".to_string()), Some("notes.md".to_string()));
    assert_eq!(request.title, Some("Export".to_string()));
    assert_eq!(request.default_name, Some("notes.md".to_string()));
    let bare = save_file_request(None, None);
    assert_eq!(bare.title, None);
    assert_eq!(bare.default_name, None);
}

#[test]
fn canceled_save_dialog_is_a_success() {
    assert_eq!(save_file_dialog(Ok(None)), Ok(SaveDialogResult { canceled: true, path: None }));
}

#[test]
fn save_dialog_reports_the_chosen_path() {
    assert_eq!(
        save_file_dialog(Ok(Some("/out/notes.md".to_string()))),
        Ok(SaveDialogResult { canceled: false, path: Some("/out/notes.md".to_string()) })
    );
}

#[test]
fn read_file_passes_bytes_and_describes_failure() {
    assert_eq!(read_file(Ok(vec![0, 255, 7])), Ok(vec![0, 255, 7]));
    assert_eq!(read_file(Ok(vec![])), Ok(vec![]));
    assert_eq!(
        read_file(Err("No such file or directory (os error 2)".to_string())),
        Err("Failed to read file: No such file or directory (os error 2)".to_string())
    );
}

#[test]
fn write_file_describes_failure() {
    assert_eq!(write_file(Ok(())), Ok(()));
    assert_eq!(
        write_file(Err("Permission denied (os error 13)".to_string())),
        Err("Failed to write file: Permission denied (os error 13)".to_string())
    );
}

#[test]
fn notification_request_keeps_title_and_body() {
    let request = notification_request("Done".to_string(), Some("Book imported".to_string()));
    assert_eq!(request.title, "Done");
    assert_eq!(request.body, Some("Book imported".to_string()));
    assert_eq!(notification_request("Done".to_string(), None).body, None);
}

#[test]
fn show_notification_describes_failure() {
    assert_eq!(show_notification(Ok(())), Ok(()));
    assert_eq!(
        show_notification(Err("no daemon".to_string())),
        Err("Failed to show notification: no daemon".to_string())
    );
}

#[test]
fn store_is_the_settings_file() {
    assert_eq!(store_name(), "settings.json");
}

#[test]
fn store_value_comes_back_as_given() {
    let mut object = serde_json::Map::new();
    object.insert("theme".to_string(), serde_json::Value::String("dark".to_string()));
    object.insert(
        "sizes".to_string(),
        serde_json::Value::Array(vec![serde_json::Value::from(12), serde_json::Value::Null]),
    );
    let nested = serde_json::Value::Object(object);
    assert_eq!(get_store_value(Ok(Some(nested.clone()))), Ok(Some(nested)));
    assert_eq!(
        get_store_value(Ok(Some(serde_json::Value::Null))),
        Ok(Some(serde_json::Value::Null))
    );
    assert_eq!(
        get_store_value(Ok(Some(serde_json::Value::Bool(true)))),
        Ok(Some(serde_json::Value::Bool(true)))
    );
}

#[test]
fn unset_store_key_is_absent_not_an_error() {
    assert_eq!(get_store_value(Ok(None)), Ok(None));
}

#[test]
fn store_read_describes_failure() {
    assert_eq!(
        get_store_value(Err("locked".to_string())),
        Err("Failed to open store: locked".to_string())
    );
}

#[test]
fn store_write_names_the_step_that_failed() {
    assert_eq!(set_store_value(StoreWrite::Saved), Ok(()));
    assert_eq!(
        set_store_value(StoreWrite::OpenFailed("locked".to_string())),
        Err("Failed to open store: locked".to_string())
    );
    assert_eq!(
        set_store_value(StoreWrite::SaveFailed("disk full".to_string())),
        Err("Failed to save store: disk full".to_string())
    );
}

#[test]
fn update_check_reports_availability() {
    assert_eq!(check_for_updates(UpdateCheck::Available), Ok(true));
    assert_eq!(check_for_updates(UpdateCheck::UpToDate), Ok(false));
    assert_eq!(
        check_for_updates(UpdateCheck::Unavailable("no endpoint".to_string())),
        Err("Updater not available: no endpoint".to_string())
    );
    assert_eq!(
        check_for_updates(UpdateCheck::Failed("timed out".to_string())),
        Err("Failed to check for updates: timed out".to_string())
    );
}

#[test]
fn target_systems_map_to_platforms() {
    assert_eq!(Platform::from_target_os("macos"), Platform::MacOs);
    assert_eq!(Platform::from_target_os("windows"), Platform::Windows);
    assert_eq!(Platform::from_target_os("linux"), Platform::Linux);
    assert_eq!(Platform::from_target_os("freebsd"), Platform::Unknown);
    assert_eq!(Platform::from_target_os(""), Platform::Unknown);
    assert_eq!(Platform::from_target_os("unknown"), Platform::Unknown);
    assert_eq!(get_platform(Platform::from_target_os("ios")), "unknown");
    assert!(Platform::MacOs.is_macos());
    assert!(!Platform::Linux.is_macos());
}

#[test]
fn a_missing_dialog_is_an_error_message() {
    assert_eq!(
        open_file_dialog(Err("plugin not registered".to_string())),
        Err("Dialog not available: plugin not registered".to_string())
    );
    assert_eq!(
        save_file_dialog(Err("plugin not registered".to_string())),
        Err("Dialog not available: plugin not registered".to_string())
    );
}
