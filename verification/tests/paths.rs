use recordflow::files::{file_name_only, get_default_save_location, RecordingInfo};
use recordflow::manager::RecordingManager;
use recordflow::paths::{get_app_data_dir, get_config_path, get_history_path};

#[test]
fn config_path_shape() {
    match get_config_path() {
        Ok(p) => assert!(p.ends_with("\\RecordFlow\\config.json")),
        Err(e) => assert_eq!(e.code, "FILE_ERROR"),
    }
}

#[test]
fn history_path_shape() {
    match get_history_path() {
        Ok(p) => assert!(p.ends_with("\\RecordFlow\\history.json")),
        Err(e) => assert_eq!(e.code, "FILE_ERROR"),
    }
}

#[test]
fn app_data_dir_shape() {
    match get_app_data_dir() {
        Ok(p) => assert!(p.ends_with("\\RecordFlow")),
        Err(e) => assert_eq!(e.code, "FILE_ERROR"),
    }
}

#[test]
fn save_location_shape() {
    match get_default_save_location() {
        Ok(p) => assert!(p.ends_with("\\RecordFlow\\Recordings")),
        Err(e) => assert_eq!(e.code, "FILE_ERROR"),
    }
}

#[test]
fn file_name_strips_directories() {
    assert_eq!(file_name_only("C:\\videos\\clip.mp4"), "clip.mp4");
    assert_eq!(file_name_only("a/b/c.txt"), "c.txt");
    assert_eq!(file_name_only("mixed\\path/last.bin"), "last.bin");
}

#[test]
fn file_name_of_bare_name_is_itself() {
    assert_eq!(file_name_only("clip.mp4"), "clip.mp4");
    assert_eq!(file_name_only(""), "");
    assert_eq!(file_name_only("dir\\"), "");
}

#[test]
fn output_paths_are_timestamped_mp4() {
    let p = RecordingManager::build_output_path("D:\\rec");
    assert!(p.starts_with("D:\\rec\\recording_"));
    assert!(p.ends_with(".mp4"));
    // Directory, separator and prefix, a timestamp of at least 15
    // characters, and the extension.
    assert!(p.len() >= "D:\\rec".len() + 11 + 15 + 4);
}

#[test]
fn recording_info_carries_file_facts() {
    let info = RecordingInfo {
        file_path: "C:\\v\\r.mp4".to_string(),
        file_name: file_name_only("C:\\v\\r.mp4"),
        file_size: 1024,
        duration: 0,
        created_at: "2024-01-01T00:00:00+00:00".to_string(),
    };
    assert_eq!(info.file_name, "r.mp4");
    assert_eq!(info.file_size, 1024);
}
