use ism_chat::settings::{
    load_settings, save_settings, starts_visible, AppSettings, SaveEvent, SaveStep, SettingsFile,
    SETTINGS_FILE,
};

fn assert_defaults(settings: &AppSettings) {
    assert_eq!(settings.theme, "red");
    assert_eq!(settings.custom_theme, "#e74c3c");
    assert_eq!(settings.background, "dark");
    assert_eq!(settings.custom_background, "#1a1a2e");
    assert_eq!(f64::from_bits(settings.notification_height_bits), 80.0);
    assert!(!settings.autostart);
    assert!(!settings.start_minimized);
    assert_eq!(f32::from_bits(settings.sound_volume_bits), 0.5);
    assert!(settings.sound_enabled);
    assert!(!settings.use_native_notifications);
}

#[test]
fn defaults_are_known() {
    assert_defaults(&AppSettings::default());
    assert_eq!(SETTINGS_FILE, "settings.json");
}

#[test]
fn without_a_good_file_the_defaults_hold() {
    assert_defaults(&load_settings(SettingsFile::Unreadable));
    assert_defaults(&load_settings(SettingsFile::Malformed));
}

#[test]
fn settings_of_the_file_are_used() {
    let mut settings = AppSettings::default();
    settings.theme = "blue".to_string();
    settings.start_minimized = true;
    settings.sound_volume_bits = 0.25f32.to_bits();
    let loaded = load_settings(SettingsFile::Holds { settings });
    assert_eq!(loaded.theme, "blue");
    assert_eq!(f32::from_bits(loaded.sound_volume_bits), 0.25);
    assert!(!starts_visible(&loaded));
    assert!(starts_visible(&AppSettings::default()));
}

#[test]
fn saving_writes_and_then_switches() {
    for autostart in [false, true] {
        let mut settings = AppSettings::default();
        settings.autostart = autostart;
        match save_settings(&settings, SaveEvent::Serialized(Ok("{}".to_string()))) {
            SaveStep::Write { data } => assert_eq!(data, "{}"),
            other => panic!("{:?}", other),
        }
        match save_settings(&settings, SaveEvent::Written(Ok(()))) {
            SaveStep::SwitchAutostart { enable } => assert_eq!(enable, autostart),
            other => panic!("{:?}", other),
        }
        match save_settings(&settings, SaveEvent::AutostartSwitched(Ok(()))) {
            SaveStep::Finish { answer } => assert_eq!(answer, Ok(())),
            other => panic!("{:?}", other),
        }
    }
}

#[test]
fn saving_stops_at_a_failure() {
    let settings = AppSettings::default();
    for event in [
        SaveEvent::Serialized(Err("why".to_string())),
        SaveEvent::Written(Err("why".to_string())),
        SaveEvent::AutostartSwitched(Err("why".to_string())),
    ] {
        match save_settings(&settings, event) {
            SaveStep::Finish { answer } => assert_eq!(answer, Err("why".to_string())),
            other => panic!("{:?}", other),
        }
    }
}
