use ism_chat::notifications::{
    create_notification_window, is_notification_window, native_answer, on_wayland,
    play_notification_sound, player_volume_bits, popup_frame, popup_height_bits, popup_monitor,
    popup_place, popup_place_wrapping, popup_step, popup_steps, popup_window, urlencode,
    DesktopSession, MonitorArea, MonitorSource, Notification, PopupExtent, PopupNumbers, PopupStep,
    POPUP_MARGIN_X, POPUP_MARGIN_Y, POPUP_MAX_HEIGHT_BITS, POPUP_MIN_HEIGHT_BITS, POPUP_SETTLE_MS, POPUP_WIDTH,
    SOUND_GAIN, SOUND_GAIN_BITS,
};
use ism_chat::settings::AppSettings;
use ism_chat::windows::{forced_backend, MAIN_WINDOW, SETTINGS_WINDOW};

fn session(linux: bool, wayland_display: bool, gdk_backend: Option<&str>) -> DesktopSession {
    DesktopSession {
        linux,
        wayland_display,
        gdk_backend: gdk_backend.map(|b| b.to_string()),
    }
}

#[test]
fn hash_and_blank_are_encoded() {
    assert_eq!(urlencode("#e74c3c"), "%23e74c3c");
    assert_eq!(urlencode("a b#c "), "a%20b%23c%20");
    assert_eq!(urlencode(""), "");
    assert_eq!(urlencode("rgb(1,2,3)&x=ż%"), "rgb(1,2,3)&x=ż%");
}

#[test]
fn encoding_is_steady() {
    let text = "a #b";
    assert_eq!(urlencode(&urlencode(text)), urlencode(text));
    assert_eq!(urlencode("a #b"), urlencode("a ") + &urlencode("#b"));
    assert_eq!(urlencode(text).replace("%23", "#").replace("%20", " "), text);
    assert_eq!(urlencode("%23"), urlencode("#"));
}

#[test]
fn wayland_is_told_from_x11() {
    assert!(!on_wayland(&session(true, false, None)));
    assert!(on_wayland(&session(true, true, None)));
    assert!(on_wayland(&session(true, true, Some("wayland"))));
    assert!(on_wayland(&session(true, true, Some(""))));
    assert!(on_wayland(&session(true, true, Some("x1"))));
    assert!(!on_wayland(&session(true, true, Some("x11"))));
    assert!(!on_wayland(&session(true, true, Some("wayland,x11"))));
    assert!(!on_wayland(&session(true, true, Some("x11,wayland"))));
}

#[test]
fn forced_backend_brings_popups() {
    let backend = forced_backend(true, false);
    assert!(!on_wayland(&session(true, true, backend.as_deref())));
}

#[test]
fn desktop_shows_it_when_asked_or_under_wayland() {
    let mut settings = AppSettings::default();
    for (native, linux, wayland, expected) in [
        (false, true, false, false),
        (true, true, false, true),
        (false, true, true, true),
        (true, false, true, false),
        (false, false, false, false),
    ] {
        settings.use_native_notifications = native;
        let shown = create_notification_window(
            &settings,
            &session(linux, wayland, None),
            "Tytuł".to_string(),
            "Treść".to_string(),
        );
        match shown {
            Notification::Native { notice } => {
                assert!(expected);
                assert_eq!(notice.summary, "Tytuł");
                assert_eq!(notice.body, "Treść");
                assert_eq!(notice.appname, "Google Chat by ism");
                assert_eq!(notice.icon, "mail-message-new");
                assert_eq!(notice.timeout_ms, 8000);
            }
            Notification::Popup { title } => {
                assert!(!expected);
                assert_eq!(title, "Tytuł");
            }
        }
    }
}

#[test]
fn desktop_failure_is_reported() {
    assert_eq!(native_answer(Ok(())), Ok(()));
    assert_eq!(native_answer(Err("no bus".to_string())), Err("Błąd D-Bus: no bus".to_string()));
}

#[test]
fn popup_has_label_page_and_title() {
    let popup = popup_window(&AppSettings::default(), 0, "Nowa wiadomość".to_string());
    assert_eq!(popup.label, "notif_0");
    assert_eq!(popup.url, "notification.html?theme=red&bg=dark&ct=%23e74c3c&cb=%231a1a2e");
    assert_eq!(popup.title, "Nowa wiadomość");
    assert!(!popup.url.contains('#'));
    assert_eq!(popup_window(&AppSettings::default(), 1234567890, String::new()).label, "notif_1234567890");
    assert_eq!(
        popup_window(&AppSettings::default(), usize::MAX, String::new()).label,
        format!("notif_{}", usize::MAX)
    );
}

#[test]
fn popups_are_told_from_other_windows() {
    let settings = AppSettings::default();
    for id in [0, 1, 9, 10, 99, 100] {
        assert!(is_notification_window(&popup_window(&settings, id, String::new()).label));
    }
    assert!(is_notification_window("notif_"));
    assert!(!is_notification_window("notif"));
    assert!(!is_notification_window("my_notif_1"));
    assert!(!is_notification_window(MAIN_WINDOW));
    assert!(!is_notification_window(SETTINGS_WINDOW));
    assert!(!is_notification_window(""));
}

#[test]
fn labels_of_popups_differ() {
    let settings = AppSettings::default();
    let label = |id| popup_window(&settings, id, String::new()).label;
    assert_ne!(label(1), label(11));
    assert_ne!(label(10), label(1));
    assert_ne!(label(0), label(10));
}

#[test]
fn popup_stands_at_the_lower_right() {
    let monitor = MonitorArea { x: 1920, y: -200, width: 2560, height: 1440 };
    let popup = PopupExtent { width: 540, height: 120, margin_x: 18, margin_y: 75 };
    let place = popup_place(&monitor, &popup).unwrap();
    assert_eq!(place.x, 1920 + 2560 - 540 - 18);
    assert_eq!(place.y, -200 + 1440 - 120 - 75);
}

#[test]
fn place_out_of_range_is_none() {
    let popup = PopupExtent { width: 1, height: 1, margin_x: 0, margin_y: 0 };
    let wide = MonitorArea { x: i32::MAX, y: 0, width: 1, height: 1 };
    assert!(popup_place(&wide, &popup).is_none());
    let high = MonitorArea { x: 0, y: i32::MIN, width: 1, height: 0 };
    assert!(popup_place(&high, &popup).is_none());
    let turned = MonitorArea { x: 0, y: 0, width: u32::MAX, height: 1 };
    assert_eq!(popup_place(&turned, &popup).unwrap().x, -2);
}

#[test]
fn popup_is_placed_then_shown() {
    assert_eq!(popup_steps(false), vec![PopupStep::Place, PopupStep::Show]);
    assert_eq!(
        popup_steps(true),
        vec![PopupStep::Place, PopupStep::Show, PopupStep::PlaceAgain]
    );
}

#[test]
fn monitor_of_the_main_window_comes_first() {
    assert_eq!(popup_monitor(true), MonitorSource::MainWindow);
    assert_eq!(popup_monitor(false), MonitorSource::Primary);
}

#[test]
fn sound_follows_the_settings() {
    let mut settings = AppSettings::default();
    assert_eq!(play_notification_sound(&settings).map(f32::from_bits), Some(0.5));
    settings.sound_enabled = false;
    assert_eq!(play_notification_sound(&settings), None);
}

#[test]
fn measures_of_popups_and_sounds() {
    assert_eq!(POPUP_WIDTH, 360);
    assert_eq!(f64::from_bits(POPUP_MIN_HEIGHT_BITS), 60.0);
    assert_eq!(f64::from_bits(POPUP_MAX_HEIGHT_BITS), 150.0);
    assert_eq!((POPUP_MARGIN_X, POPUP_MARGIN_Y, POPUP_SETTLE_MS), (12, 50, 150));
    assert_eq!(SOUND_GAIN, 5);
    assert_eq!(f32::from_bits(SOUND_GAIN_BITS), 5.0);
}

#[test]
fn popup_height_is_kept_in_range() {
    let mut settings = AppSettings::default();
    for height in [
        80.0, 60.0, 150.0, 59.999, 150.001, 0.0, -0.0, -1.0, -80.0, 1e300, -1e300, 1e-310, -1e-310,
        f64::INFINITY, f64::NEG_INFINITY, f64::MAX, f64::MIN, f64::MIN_POSITIVE, 149.5,
    ] {
        settings.notification_height_bits = f64::to_bits(height);
        let kept = f64::from_bits(popup_height_bits(&settings));
        assert_eq!(kept.to_bits(), height.clamp(60.0, 150.0).to_bits(), "{}", height);
    }
    for nan in [f64::NAN, -f64::NAN] {
        settings.notification_height_bits = nan.to_bits();
        assert_eq!(popup_height_bits(&settings), nan.to_bits());
    }
}

#[test]
fn volume_is_kept_in_range() {
    for volume in [
        0.0f32, -0.0, 0.5, 1.0, 1.1, 2.0, -0.1, 100.0, -100.0, 1e-40, -1e-40, f32::INFINITY,
        f32::NEG_INFINITY, f32::MAX, f32::MIN, 0.999_999_94,
    ] {
        let scaled = volume * 5.0;
        let kept = player_volume_bits(scaled.to_bits());
        assert_eq!(kept, scaled.clamp(0.0, 5.0).to_bits(), "{}", volume);
    }
    for nan in [f32::NAN, -f32::NAN] {
        assert_eq!(player_volume_bits(nan.to_bits()), nan.to_bits());
    }
}

#[test]
fn popup_window_is_built_bare_and_hidden() {
    let mut settings = AppSettings::default();
    settings.notification_height_bits = 1000.0f64.to_bits();
    let frame = popup_frame(&settings);
    assert_eq!(frame.inner.width, 360);
    assert_eq!(f64::from_bits(frame.inner.height_bits), 150.0);
    assert_eq!(frame.least, frame.inner);
    assert_eq!(frame.greatest, frame.inner);
    assert!(!frame.decorations);
    assert!(frame.always_on_top);
    assert!(frame.skip_taskbar);
    assert!(!frame.resizable);
    assert!(!frame.visible);
    let usual = popup_frame(&AppSettings::default());
    assert_eq!(f64::from_bits(usual.inner.height_bits), 80.0);
}

#[test]
fn failed_popup_is_reported_and_not_shown() {
    for linux in [false, true] {
        let next = popup_step(linux, Err("no window".to_string()));
        assert!(next.steps.is_empty());
        assert_eq!(next.answer, Err("no window".to_string()));
    }
}

#[test]
fn built_popup_is_placed_and_shown() {
    for linux in [false, true] {
        let next = popup_step(linux, Ok(()));
        assert_eq!(next.steps, popup_steps(linux));
        assert_eq!(next.answer, Ok(()));
    }
}

#[test]
fn popups_of_a_run_are_numbered() {
    let settings = AppSettings::default();
    let mut numbers = PopupNumbers::new();
    let labels: Vec<String> = (0..12)
        .map(|_| popup_window(&settings, numbers.take(), String::new()).label)
        .collect();
    assert_eq!(labels[0], "notif_0");
    assert_eq!(labels[11], "notif_11");
    for i in 0..labels.len() {
        assert!(is_notification_window(&labels[i]));
        for j in 0..i {
            assert_ne!(labels[i], labels[j]);
        }
    }
}

#[test]
fn wrapping_place_is_that_of_wrapping_sums() {
    let popup = PopupExtent { width: 3_000_000_000, height: 7, margin_x: 5, margin_y: i32::MIN };
    for (x, y, width, height) in [
        (0, 0, 1920, 1080),
        (i32::MAX, i32::MIN, u32::MAX, 0),
        (i32::MIN, i32::MAX, 0, 1 << 31),
        (-1920, 200, 1 << 31, i32::MAX as u32),
    ] {
        let monitor = MonitorArea { x, y, width, height };
        let place = popup_place_wrapping(&monitor, &popup);
        assert_eq!(
            place.x,
            x.wrapping_add(width as i32).wrapping_sub(popup.width as i32).wrapping_sub(5)
        );
        assert_eq!(
            place.y,
            y.wrapping_add(height as i32).wrapping_sub(7).wrapping_sub(i32::MIN)
        );
    }
    let small = PopupExtent { width: 360, height: 80, margin_x: 12, margin_y: 50 };
    let monitor = MonitorArea { x: 10, y: 20, width: 1920, height: 1080 };
    let kept = popup_place(&monitor, &small).unwrap();
    let cut = popup_place_wrapping(&monitor, &small);
    assert_eq!((kept.x, kept.y), (cut.x, cut.y));
}
