use ism_chat::windows::{
    forced_backend, hides_on_close, menu_action, open_settings_window, present_main_window,
    MenuAction, SettingsView, WindowStep, CHAT_ADDRESS,
};

#[test]
fn main_window_is_shown_restored_and_focused() {
    assert_eq!(
        present_main_window(true),
        vec![WindowStep::Show, WindowStep::Unminimize, WindowStep::Focus]
    );
    assert_eq!(present_main_window(false), vec![]);
}

#[test]
fn settings_have_one_window() {
    assert!(matches!(open_settings_window(true), SettingsView::Focus));
    match open_settings_window(false) {
        SettingsView::Open { plan } => {
            assert_eq!(plan.label, "settings");
            assert_eq!(plan.page, "settings.html");
            assert_eq!(plan.title, "Ustawienia — Google Chat by ism");
            assert_eq!((plan.width, plan.height), (480, 700));
            assert!(!plan.resizable);
            assert!(plan.centered);
        }
        SettingsView::Focus => panic!("no window to focus"),
    }
}

#[test]
fn only_the_main_window_hides() {
    assert!(hides_on_close("main"));
    assert!(!hides_on_close("settings"));
    assert!(!hides_on_close("notif_0"));
    assert!(!hides_on_close("main2"));
}

#[test]
fn menu_entries_have_their_meaning() {
    assert_eq!(menu_action("quit"), MenuAction::Quit);
    assert_eq!(menu_action("show"), MenuAction::ShowMain);
    assert_eq!(menu_action("settings"), MenuAction::OpenSettings);
    assert_eq!(menu_action("other"), MenuAction::Nothing);
    assert_eq!(menu_action(""), MenuAction::Nothing);
}

#[test]
fn backend_is_forced_on_linux_unless_wayland_is_wanted() {
    assert_eq!(forced_backend(true, false).as_deref(), Some("x11"));
    assert_eq!(forced_backend(true, true), None);
    assert_eq!(forced_backend(false, false), None);
}

#[test]
fn address_of_the_chat_is_a_google_host() {
    let chat = url::Url::parse(CHAT_ADDRESS).unwrap();
    assert_eq!(chat.host_str(), Some("chat.google.com"));
}
