//! The windows of the application and the tray menu: what opens, shows, hides and closes.

use vstd::prelude::*;

use crate::notifications::{is_on_wayland, on_wayland, DesktopSession};
use crate::text::{holds_text, occurs_at, same_text};

verus! {

/// The label of the window that shows the chat.
pub const MAIN_WINDOW: &'static str = "main";

/// The label of the window that shows the settings.
pub const SETTINGS_WINDOW: &'static str = "settings";

/// The address of the chat.
pub const CHAT_ADDRESS: &'static str = "https://chat.google.com";

/// Something to do with a window.
#[derive(Debug, Clone, Copy, PartialEq, Eq, Structural)]
pub enum WindowStep {
    Show,
    Unminimize,
    Focus,
}

/// What brings a window back, in order.
pub open spec fn presenting() -> Seq<WindowStep> {
    seq![WindowStep::Show, WindowStep::Unminimize, WindowStep::Focus]
}

/// Brings the main window back from the tray: what to do with it, in order. There is nothing to
/// do where there is no such window.
///
/// The order matters: to restore a window that is still hidden leaves some toolkits halfway, so
/// it is shown first.
pub fn present_main_window(is_open: bool) -> (steps: Vec<WindowStep>)
    ensures
        steps@ == if is_open {
            presenting()
        } else {
            Seq::empty()
        },
{
    let mut steps: Vec<WindowStep> = Vec::new();
    if is_open {
        steps.push(WindowStep::Show);
        steps.push(WindowStep::Unminimize);
        steps.push(WindowStep::Focus);
    }
    assert(is_open ==> steps@ == presenting());
    steps
}

/// A window to open.
#[derive(Debug)]
pub struct WindowPlan {
    pub label: String,
    pub page: String,
    pub title: String,
    /// Width and height in logical pixels.
    pub width: u32,
    pub height: u32,
    pub resizable: bool,
    pub centered: bool,
}

/// How the settings come to be seen.
#[derive(Debug)]
pub enum SettingsView {
    /// Their window is open and gets the focus.
    Focus,
    /// Their window is opened.
    Open { plan: WindowPlan },
}

/// Decides how the settings come to be seen. There is never more than one window for them.
pub fn open_settings_window(is_open: bool) -> (view: SettingsView)
    ensures
        is_open <==> view is Focus,
        view matches SettingsView::Open { plan } ==> {
            &&& plan.label@ == SETTINGS_WINDOW@
            &&& plan.page@ == "settings.html"@
            &&& plan.title@ == "Ustawienia — Google Chat by ism"@
            &&& plan.width == 480
            &&& plan.height == 700
            &&& !plan.resizable
            &&& plan.centered
        },
{
    if is_open {
        SettingsView::Focus
    } else {
        SettingsView::Open {
            plan: WindowPlan {
                label: SETTINGS_WINDOW.to_owned(),
                page: "settings.html".to_owned(),
                title: "Ustawienia — Google Chat by ism".to_owned(),
                width: 480,
                height: 700,
                resizable: false,
                centered: true,
            },
        }
    }
}

/// Whether a window that is asked to close is hidden in the tray in place of that. Only the main
/// window is.
pub fn hides_on_close(label: &str) -> (hides: bool)
    ensures
        hides == (label@ == MAIN_WINDOW@),
{
    same_text(label, MAIN_WINDOW)
}

/// What the tray menu can ask for.
#[derive(Debug, Clone, Copy, PartialEq, Eq, Structural)]
pub enum MenuAction {
    Quit,
    ShowMain,
    OpenSettings,
    Nothing,
}

/// What an entry of the tray menu stands for.
pub open spec fn menu_meaning(id: Seq<char>) -> MenuAction {
    if id == "quit"@ {
        MenuAction::Quit
    } else if id == "show"@ {
        MenuAction::ShowMain
    } else if id == "settings"@ {
        MenuAction::OpenSettings
    } else {
        MenuAction::Nothing
    }
}

/// What to do for an entry of the tray menu.
pub fn menu_action(id: &str) -> (action: MenuAction)
    ensures
        action == menu_meaning(id@),
{
    if same_text(id, "quit") {
        MenuAction::Quit
    } else if same_text(id, "show") {
        MenuAction::ShowMain
    } else if same_text(id, "settings") {
        MenuAction::OpenSettings
    } else {
        MenuAction::Nothing
    }
}

/// The value that `GDK_BACKEND` gets before anything is drawn.
///
/// On Linux windows go through X11: under Wayland a window that was hidden comes back with dead
/// buttons, and a popup cannot choose its place. Whoever wants Wayland all the same asks for it.
pub fn forced_backend(linux: bool, wayland_wanted: bool) -> (backend: Option<String>)
    ensures
        linux && !wayland_wanted <==> backend is Some,
        backend matches Some(name) ==> name@ == "x11"@,
{
    if linux && !wayland_wanted {
        Some("x11".to_owned())
    } else {
        None
    }
}

/// A window is shown before it is restored, and gets the focus last.
pub proof fn windows_are_shown_before_they_are_restored(shown: int, restored: int, focused: int)
    requires
        0 <= shown < presenting().len(),
        0 <= restored < presenting().len(),
        0 <= focused < presenting().len(),
        presenting()[shown] == WindowStep::Show,
        presenting()[restored] == WindowStep::Unminimize,
        presenting()[focused] == WindowStep::Focus,
    ensures
        shown < restored < focused,
{
}

/// Where the backend was forced, no session counts as Wayland.
pub proof fn forced_backend_is_never_wayland(session: DesktopSession)
    requires
        session.gdk_backend matches Some(backend) && backend@ == "x11"@,
    ensures
        !is_on_wayland(session),
{
    assert("x11"@.subrange(0, "x11"@.len() as int) == "x11"@);
    assert(occurs_at("x11"@, "x11"@, 0));
    assert(holds_text("x11"@, "x11"@));
}

/// Each entry of the tray menu does its own thing, and what is no entry does nothing.
pub proof fn menu_entries_have_their_meaning(id: &str, action: MenuAction)
    requires
        call_ensures(menu_action, (id,), action),
    ensures
        action == MenuAction::Quit <==> id@ == "quit"@,
        action == MenuAction::ShowMain <==> id@ == "show"@,
        action == MenuAction::OpenSettings <==> id@ == "settings"@,
{
    reveal_strlit("quit");
    reveal_strlit("show");
    reveal_strlit("settings");
    assert("quit"@[0] == 'q');
    assert("show"@[1] == 'h');
    assert("settings"@[1] == 'e');
}

/// The main window goes to the tray when it is closed, and no other window does.
pub proof fn only_the_main_window_goes_to_the_tray(label: &str, hides: bool)
    requires
        call_ensures(hides_on_close, (label,), hides),
    ensures
        hides <==> label@ == "main"@,
{
}

/// The main window comes back shown first, then restored, then with the focus; where there is none,
/// nothing is done.
pub proof fn main_windows_come_back_in_order(is_open: bool, steps: Vec<WindowStep>)
    requires
        call_ensures(present_main_window, (is_open,), steps),
    ensures
        is_open ==> steps@.len() == 3 && steps@[0] == WindowStep::Show && steps@[1]
            == WindowStep::Unminimize && steps@[2] == WindowStep::Focus,
        !is_open ==> steps@.len() == 0,
{
}

/// A window for the settings is opened only where none is open, so that there is never a second.
pub proof fn settings_have_one_window(is_open: bool, view: SettingsView)
    requires
        call_ensures(open_settings_window, (is_open,), view),
    ensures
        is_open <==> view is Focus,
        view matches SettingsView::Open { plan } ==> plan.label@ == "settings"@ && plan.page@
            == "settings.html"@ && plan.title@ == "Ustawienia — Google Chat by ism"@ && plan.width
            == 480 && plan.height == 700 && !plan.resizable && plan.centered,
{
}

/// A session started with the backend that is forced is never one of Wayland, so that popups work
/// there; the backend is forced on Linux unless Wayland is asked for.
pub proof fn forced_sessions_are_not_wayland(
    linux: bool,
    wayland_wanted: bool,
    backend: Option<String>,
    session: &DesktopSession,
    wayland: bool,
)
    requires
        call_ensures(forced_backend, (linux, wayland_wanted), backend),
        backend is Some ==> session.gdk_backend == backend,
        call_ensures(on_wayland, (session,), wayland),
    ensures
        backend is Some <==> linux && !wayland_wanted,
        linux && !wayland_wanted ==> !wayland,
{
    if backend is Some {
        forced_backend_is_never_wayland(*session);
    }
}

} // verus!
