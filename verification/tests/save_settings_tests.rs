use screen_grabber::image_coding::ImageFormat;
use screen_grabber::itc::SettingsEvent;
use screen_grabber::save_settings::{
    output_path_plan, DefaultDir, DefaultName, DefaultNameMode, OutputPathPlan, SaveSettings,
};
use screen_grabber::text::decimal_string;
use std::path::PathBuf;

fn create_ss() -> SaveSettings {
    let mut ss = SaveSettings::new();
    ss.default_dir = DefaultDir { path: ".".to_string(), enabled: true };
    ss.default_name = DefaultName {
        enabled: true,
        name: "dn".to_string(),
        mode: DefaultNameMode::OnlyName,
    };
    ss
}

#[test]
fn get_default_name_test() {
    let mut ss = create_ss();
    ss.default_name.mode = DefaultNameMode::Counter(0);
    assert!(ss.get_default_name().unwrap() == "dn0");
    assert!(ss.get_default_name().unwrap() == "dn1");
    assert!(ss.get_default_name().unwrap() == "dn2");
}

#[test]
fn compose_output_file_path_test() {
    let mut ss = create_ss();
    let plan = ss.compose_output_file_path(ImageFormat::Gif);
    match plan {
        OutputPathPlan::Direct { dir, name, extension } => {
            let mut path = PathBuf::from(dir);
            path.push("temp");
            path.set_file_name(name);
            path.set_extension(extension);
            assert!(path.extension().unwrap().to_str().unwrap() == "Gif");
            assert!(path.file_name().unwrap().to_str().unwrap() == "dn.Gif");
            assert!(path.starts_with("."));
        }
        _ => panic!("a direct path was expected"),
    }
}

#[test]
fn new_settings() {
    let ss = SaveSettings::new();
    assert!(!ss.default_dir.enabled);
    assert!(!ss.default_name.enabled);
    assert!(matches!(ss.default_name.mode, DefaultNameMode::Timestamp));
    assert!(ss.copy_on_clipboard);
    assert_eq!(ss.get_default_dir(), None);
}

#[test]
fn default_dir_rules() {
    let mut ss = create_ss();
    assert_eq!(ss.get_default_dir(), Some(".".to_string()));
    assert_eq!(ss.default_dir_given(false), None);
    ss.default_dir.path = "surely/not/a/directory/here".to_string();
    assert_eq!(ss.get_default_dir(), None);
    assert_eq!(ss.default_dir_given(true), Some("surely/not/a/directory/here".to_string()));
    ss.default_dir.path = String::new();
    assert_eq!(ss.default_dir_given(true), None);
    ss.default_dir.enabled = false;
    ss.default_dir.path = ".".to_string();
    assert_eq!(ss.get_default_dir(), None);
}

#[test]
fn names_in_each_mode() {
    let mut ss = create_ss();
    assert_eq!(ss.next_default_name("2024-01-02_03-04-05"), Some("dn".to_string()));
    ss.default_name.mode = DefaultNameMode::Timestamp;
    assert_eq!(ss.next_default_name("2024-01-02_03-04-05"), Some("dn2024-01-02_03-04-05".to_string()));
    ss.default_name.mode = DefaultNameMode::Counter(41);
    assert_eq!(ss.next_default_name("x"), Some("dn41".to_string()));
    assert!(matches!(ss.default_name.mode, DefaultNameMode::Counter(42)));
    ss.default_name.enabled = false;
    assert_eq!(ss.next_default_name("x"), None);
    assert!(matches!(ss.default_name.mode, DefaultNameMode::Counter(42)));
}

#[test]
fn timestamp_name_has_the_documented_shape() {
    let mut ss = create_ss();
    ss.default_name.mode = DefaultNameMode::Timestamp;
    let name = ss.get_default_name().unwrap();
    let stamp: Vec<char> = name.chars().skip(2).collect();
    assert_eq!(stamp.len(), 19);
    for (i, c) in stamp.iter().enumerate() {
        match i {
            4 | 7 | 13 | 16 => assert_eq!(*c, '-'),
            10 => assert_eq!(*c, '_'),
            _ => assert!(c.is_ascii_digit()),
        }
    }
}

#[test]
fn editing_the_name_restarts_the_counter() {
    let mut ss = create_ss();
    ss.default_name.mode = DefaultNameMode::Counter(7);
    ss.default_name_edited(&"dn".to_string());
    assert!(matches!(ss.default_name.mode, DefaultNameMode::Counter(7)));
    ss.default_name_edited(&"other".to_string());
    assert!(matches!(ss.default_name.mode, DefaultNameMode::Counter(0)));
    ss.default_name.mode = DefaultNameMode::Timestamp;
    ss.default_name_edited(&"other".to_string());
    assert!(matches!(ss.default_name.mode, DefaultNameMode::Timestamp));
}

#[test]
fn mode_comparison_and_labels() {
    assert!(DefaultNameMode::Counter(1) == DefaultNameMode::Counter(5));
    assert!(DefaultNameMode::Timestamp == DefaultNameMode::Timestamp);
    assert!(DefaultNameMode::OnlyName != DefaultNameMode::OnlyName);
    assert_eq!(DefaultNameMode::OnlyName.label(), "Default name");
    assert_eq!(DefaultNameMode::Counter(3).label(), "Default name + incremental number");
    assert_eq!(DefaultNameMode::Timestamp.label(), "Default name + timestamp");
}

#[test]
fn set_default_directory_only_when_enabled() {
    let mut ss = create_ss();
    ss.set_default_directory("/tmp".to_string());
    assert_eq!(ss.default_dir.path, "/tmp");
    ss.default_dir.enabled = false;
    ss.set_default_directory("/elsewhere".to_string());
    assert_eq!(ss.default_dir.path, "/tmp");
}

#[test]
fn checks_before_saving() {
    let mut ss = create_ss();
    assert_eq!(ss.check_before_saving(true), Ok(()));
    assert_eq!(ss.check_before_saving(false), Err("Invalid default directory path."));
    ss.default_dir.path = String::new();
    assert_eq!(ss.check_before_saving(true), Err("Invalid default directory path."));
    ss.default_dir.enabled = false;
    ss.default_name.name = String::new();
    assert_eq!(ss.check_before_saving(false), Ok(()));
}

#[test]
fn settings_buttons() {
    let ss = create_ss();
    assert_eq!(ss.buttons_outcome(false, false, false, true), (SettingsEvent::Nil, None));
    assert_eq!(
        ss.buttons_outcome(true, false, false, true),
        (SettingsEvent::OpenDirectoryDialog, None)
    );
    assert_eq!(ss.buttons_outcome(false, true, false, true), (SettingsEvent::Saved, None));
    assert_eq!(
        ss.buttons_outcome(false, true, false, false),
        (SettingsEvent::Nil, Some("Invalid default directory path."))
    );
    assert_eq!(
        ss.buttons_outcome(false, true, true, false),
        (SettingsEvent::Aborted, Some("Invalid default directory path."))
    );
    assert_eq!(ss.update(false, true, false), (SettingsEvent::Saved, None));
    let mut missing = create_ss();
    missing.default_dir.path = "surely/not/a/directory/here".to_string();
    assert_eq!(
        missing.update(false, true, false),
        (SettingsEvent::Nil, Some("Invalid default directory path."))
    );
}

#[test]
fn output_path_plans() {
    assert_eq!(
        output_path_plan(Some("d".to_string()), Some("n".to_string()), ImageFormat::Png),
        OutputPathPlan::Direct { dir: "d".to_string(), name: "n".to_string(), extension: "Png" }
    );
    assert_eq!(
        output_path_plan(None, Some("n".to_string()), ImageFormat::Jpeg),
        OutputPathPlan::PickDirectory { name: "n".to_string(), extension: "Jpeg" }
    );
    assert_eq!(
        output_path_plan(Some("d".to_string()), None, ImageFormat::Gif),
        OutputPathPlan::SaveDialog { start_dir: Some("d".to_string()), extension: "Gif" }
    );
    assert_eq!(
        output_path_plan(None, None, ImageFormat::Png),
        OutputPathPlan::SaveDialog { start_dir: None, extension: "Png" }
    );
}

#[test]
fn decimal_strings() {
    assert_eq!(decimal_string(0), "0");
    assert_eq!(decimal_string(7), "7");
    assert_eq!(decimal_string(10), "10");
    assert_eq!(decimal_string(1234567890), "1234567890");
    assert_eq!(decimal_string(u64::MAX), u64::MAX.to_string());
}
