//! How a new message is announced: by the desktop, by a popup of our own, and by a sound.

use vstd::prelude::*;

use crate::settings::AppSettings;
use crate::text::{
    begins_with, beginnings_are_fronts, decimal, decimal_text, decimal_text_is_injective,
    decimal_text_spells_the_number, decimal_value, endings_are_backs, finishes_with, holds_text,
    is_free_of, joined, parts_stand_inside, pieces_end_at_separators, split_at, text_begins_with, text_holds,
};

verus! {

/// The name under which the desktop shows our notifications.
pub const APP_NAME: &'static str = "Google Chat by ism";

/// How the label of every popup begins.
pub const POPUP_LABEL: &'static str = "notif_";

/// The width of a popup in logical pixels.
pub const POPUP_WIDTH: u32 = 360;

/// The least height of a popup in logical pixels: the bits of 60 in binary64.
pub const POPUP_MIN_HEIGHT_BITS: u64 = 0x404E_0000_0000_0000;

/// The greatest height of a popup in logical pixels: the bits of 150 in binary64.
pub const POPUP_MAX_HEIGHT_BITS: u64 = 0x4062_C000_0000_0000;

/// The room between a popup and the right edge of the monitor, in logical pixels.
pub const POPUP_MARGIN_X: u32 = 12;

/// The room between a popup and the lower edge of the monitor, in logical pixels.
pub const POPUP_MARGIN_Y: u32 = 50;

/// After how many milliseconds a popup is put in its place again, for window managers that
/// moved it.
pub const POPUP_SETTLE_MS: u64 = 150;

/// The volume of a player at which the slider is at its end; one is the volume of the file.
pub const SOUND_GAIN: u32 = 5;

/// The bits of the gain in binary32.
pub const SOUND_GAIN_BITS: u32 = 0x40A0_0000;

/// A character as it stands in the query of a popup's page.
pub open spec fn encoded_char(c: char) -> Seq<char> {
    if c == '#' {
        "%23"@
    } else if c == ' ' {
        "%20"@
    } else {
        seq![c]
    }
}

/// A text as it stands in the query of a popup's page.
pub open spec fn url_encoded(text: Seq<char>) -> Seq<char>
    decreases text.len(),
{
    if text.len() == 0 {
        Seq::empty()
    } else {
        url_encoded(text.drop_last()) + encoded_char(text.last())
    }
}

/// Writes `#` and the blank as percent codes and keeps every other character.
pub fn urlencode(s: &str) -> (encoded: String)
    ensures
        encoded@ == url_encoded(s@),
{
    let mut out = String::new();
    for c in it: s.chars()
        invariant
            it.seq() == s@,
            out@ == url_encoded(s@.take(it.index())),
    {
        let ghost before = out@;
        if c == '#' {
            out.append("%23");
        } else if c == ' ' {
            out.append("%20");
        } else {
            out.push(c);
        }
        assert(out@ == before + encoded_char(c));
        assert(s@.take(it.index() + 1).drop_last() == s@.take(it.index()));
    }
    assert(s@.take(s@.len() as int) == s@);
    out
}

/// What the environment says of the desktop.
#[derive(Debug)]
pub struct DesktopSession {
    /// The system is Linux.
    pub linux: bool,
    /// `WAYLAND_DISPLAY` is set.
    pub wayland_display: bool,
    /// The value of `GDK_BACKEND`, if it is set.
    pub gdk_backend: Option<String>,
}

/// Windows are drawn by Wayland itself, and not through X11.
pub open spec fn is_on_wayland(session: DesktopSession) -> bool {
    session.wayland_display && match session.gdk_backend {
        Some(backend) => !holds_text(backend@, "x11"@),
        None => true,
    }
}

/// Notifications go to the desktop, and not to a popup.
pub open spec fn is_native(settings: AppSettings, session: DesktopSession) -> bool {
    session.linux && (settings.use_native_notifications || is_on_wayland(session))
}

/// Whether windows are drawn by Wayland itself.
pub fn on_wayland(session: &DesktopSession) -> (wayland: bool)
    ensures
        wayland == is_on_wayland(*session),
{
    session.wayland_display && match &session.gdk_backend {
        Some(backend) => !text_holds(backend.as_str(), "x11"),
        None => true,
    }
}

/// A notification for the desktop to show.
#[derive(Debug)]
pub struct NativeNotice {
    pub summary: String,
    pub body: String,
    pub appname: String,
    pub icon: String,
    pub timeout_ms: u32,
}

/// How a notification is shown.
#[derive(Debug)]
pub enum Notification {
    /// The desktop shows it.
    Native { notice: NativeNotice },
    /// A popup of our own shows it, which has a title and no text.
    Popup { title: String },
}

/// Decides how a notification is shown.
///
/// On Linux the desktop can do it. Under Wayland it has to: a window may not choose its own place
/// there, and a popup would come up in the middle of the screen.
pub fn create_notification_window(
    settings: &AppSettings,
    session: &DesktopSession,
    title: String,
    body: String,
) -> (notification: Notification)
    ensures
        match notification {
            Notification::Native { notice } => {
                &&& is_native(*settings, *session)
                &&& notice.summary == title
                &&& notice.body == body
                &&& notice.appname@ == APP_NAME@
                &&& notice.icon@ == "mail-message-new"@
                &&& notice.timeout_ms == 8000
            },
            Notification::Popup { title: shown } => !is_native(*settings, *session) && shown
                == title,
        },
{
    if session.linux && (settings.use_native_notifications || on_wayland(session)) {
        Notification::Native {
            notice: NativeNotice {
                summary: title,
                body,
                appname: APP_NAME.to_owned(),
                icon: "mail-message-new".to_owned(),
                timeout_ms: 8000,
            },
        }
    } else {
        Notification::Popup { title }
    }
}

/// The answer once the desktop was asked to show a notification.
pub fn native_answer(shown: Result<(), String>) -> (answer: Result<(), String>)
    ensures
        match shown {
            Ok(_) => answer is Ok,
            Err(reason) => answer matches Err(message) && message@ == "Błąd D-Bus: "@ + reason@,
        },
{
    match shown {
        Ok(()) => Ok(()),
        Err(reason) => Err(joined("Błąd D-Bus: ", reason.as_str())),
    }
}

/// A popup to open.
#[derive(Debug)]
pub struct PopupWindow {
    pub label: String,
    pub url: String,
    pub title: String,
}

/// The label of the popup with a number.
pub open spec fn popup_label(id: nat) -> Seq<char> {
    POPUP_LABEL@ + decimal_text(id)
}

/// The page of a popup, with the colours of the settings in its query.
pub open spec fn popup_url(settings: AppSettings) -> Seq<char> {
    "notification.html?theme="@ + settings.theme@ + "&bg="@ + settings.background@ + "&ct="@
        + url_encoded(settings.custom_theme@) + "&cb="@ + url_encoded(settings.custom_background@)
}

/// The popup with a number and a title.
pub fn popup_window(settings: &AppSettings, id: usize, title: String) -> (popup: PopupWindow)
    ensures
        popup.label@ == popup_label(id as nat),
        popup.url@ == popup_url(*settings),
        popup.title == title,
{
    let mut url = joined("notification.html?theme=", settings.theme.as_str());
    url.append("&bg=");
    url.append(settings.background.as_str());
    url.append("&ct=");
    url.append(urlencode(settings.custom_theme.as_str()).as_str());
    url.append("&cb=");
    url.append(urlencode(settings.custom_background.as_str()).as_str());
    PopupWindow { label: joined(POPUP_LABEL, decimal(id as u64).as_str()), url, title }
}

/// A size in logical pixels.
#[derive(Debug, Clone, Copy, PartialEq, Eq, Structural)]
pub struct PopupSize {
    pub width: u32,
    /// The bits of a binary64 number.
    pub height_bits: u64,
}

/// How the window of a popup is built.
#[derive(Debug, Clone, Copy, PartialEq, Eq, Structural)]
pub struct PopupFrame {
    pub inner: PopupSize,
    pub least: PopupSize,
    pub greatest: PopupSize,
    pub decorations: bool,
    pub always_on_top: bool,
    pub skip_taskbar: bool,
    pub resizable: bool,
    pub visible: bool,
}

/// The height of a popup for a height in the settings, both as bits of binary64 numbers.
pub open spec fn popup_height(notification_height_bits: u64) -> int {
    bits_clamped(
        notification_height_bits as int,
        0x404E_0000_0000_0000,
        0x4062_C000_0000_0000,
        0x8000_0000_0000_0000,
        0x7FF0_0000_0000_0000,
    )
}

/// How the window of a popup is built: of one size that cannot be changed, without decorations,
/// above all other windows, off the taskbar, and hidden until it has its place.
pub fn popup_frame(settings: &AppSettings) -> (frame: PopupFrame)
    ensures
        frame.inner.width == 360,
        frame.inner.height_bits == popup_height(settings.notification_height_bits),
        frame.least == frame.inner,
        frame.greatest == frame.inner,
        !frame.decorations,
        frame.always_on_top,
        frame.skip_taskbar,
        !frame.resizable,
        !frame.visible,
{
    let size = PopupSize { width: POPUP_WIDTH, height_bits: popup_height_bits(settings) };
    PopupFrame {
        inner: size,
        least: size,
        greatest: size,
        decorations: false,
        always_on_top: true,
        skip_taskbar: true,
        resizable: false,
        visible: false,
    }
}

/// The numbers that popups get, one after the other.
#[derive(Debug)]
pub struct PopupNumbers {
    next: usize,
}

impl View for PopupNumbers {
    type V = nat;

    /// The number of the next popup.
    closed spec fn view(&self) -> nat {
        self.next as nat
    }
}

/// The number that follows a number; after the last comes zero again.
pub open spec fn number_after(number: nat) -> nat {
    if number == usize::MAX {
        0
    } else {
        number + 1
    }
}

/// The number of a popup before which so many others came.
pub open spec fn number_of_popup(others: nat) -> nat
    decreases others,
{
    if others == 0 {
        0
    } else {
        number_after(number_of_popup((others - 1) as nat))
    }
}

impl PopupNumbers {
    /// The numbers before any popup came.
    pub fn new() -> (numbers: Self)
        ensures
            numbers@ == number_of_popup(0),
            numbers@ == 0,
    {
        PopupNumbers { next: 0 }
    }

    /// Gives the next number away.
    pub fn take(&mut self) -> (number: usize)
        ensures
            number == old(self)@,
            final(self)@ == number_after(old(self)@),
            number < usize::MAX ==> final(self)@ == number + 1,
            number == usize::MAX ==> final(self)@ == 0,
    {
        let number: usize = self.next;
        self.next = if number == usize::MAX {
            0
        } else {
            number + 1
        };
        number
    }
}

/// Whether a window is a popup, going by its label. All popups are closed together.
pub fn is_notification_window(label: &str) -> (popup: bool)
    ensures
        popup == begins_with(label@, POPUP_LABEL@),
{
    text_begins_with(label, POPUP_LABEL)
}

/// Something to do with a popup that has been opened, still hidden.
#[derive(Debug, Clone, Copy, PartialEq, Eq, Structural)]
pub enum PopupStep {
    /// Give it its size and its place.
    Place,
    /// Let it be seen.
    Show,
    /// Give it its size and its place once more, after a short while.
    PlaceAgain,
}

/// What is done with a popup, in order.
pub open spec fn popup_sequence(linux: bool) -> Seq<PopupStep> {
    if linux {
        seq![PopupStep::Place, PopupStep::Show, PopupStep::PlaceAgain]
    } else {
        seq![PopupStep::Place, PopupStep::Show]
    }
}

/// What to do with a popup, in order. It is placed before it is seen, and on Linux once more
/// after that, because some window managers move it when it comes up.
pub fn popup_steps(linux: bool) -> (steps: Vec<PopupStep>)
    ensures
        steps@ == popup_sequence(linux),
{
    let mut steps: Vec<PopupStep> = Vec::new();
    steps.push(PopupStep::Place);
    steps.push(PopupStep::Show);
    if linux {
        steps.push(PopupStep::PlaceAgain);
    }
    assert(steps@ == popup_sequence(linux));
    steps
}

/// What follows once the window of a popup was to be built.
#[derive(Debug)]
pub struct PopupNext {
    /// What to do with the popup, in order.
    pub steps: Vec<PopupStep>,
    /// The answer after that.
    pub answer: Result<(), String>,
}

/// What follows once the window of a popup was built, or could not be. A popup that could not be
/// built is neither placed nor shown, and the reason is the answer.
pub fn popup_step(linux: bool, built: Result<(), String>) -> (next: PopupNext)
    ensures
        match built {
            Ok(_) => next.steps@ == popup_sequence(linux) && next.answer is Ok,
            Err(reason) => next.steps@.len() == 0 && next.answer == Err::<(), String>(reason),
        },
{
    match built {
        Ok(()) => PopupNext { steps: popup_steps(linux), answer: Ok(()) },
        Err(reason) => PopupNext { steps: Vec::new(), answer: Err(reason) },
    }
}

/// Where to ask for the monitor of a popup.
#[derive(Debug, Clone, Copy, PartialEq, Eq, Structural)]
pub enum MonitorSource {
    /// The main window has told its monitor, which is taken.
    MainWindow,
    /// The popup is asked for the primary monitor.
    Primary,
}

/// Where the monitor on which a popup comes up is taken from: the main window, or else the
/// primary monitor, which is not asked for where the main window has one.
pub fn popup_monitor(main_window_has_one: bool) -> (source: MonitorSource)
    ensures
        source == if main_window_has_one {
            MonitorSource::MainWindow
        } else {
            MonitorSource::Primary
        },
{
    if main_window_has_one {
        MonitorSource::MainWindow
    } else {
        MonitorSource::Primary
    }
}

/// The monitor on which a popup comes up, in physical pixels.
#[derive(Debug)]
pub struct MonitorArea {
    pub x: i32,
    pub y: i32,
    pub width: u32,
    pub height: u32,
}

/// The size of a popup and the room it keeps from the edges, in physical pixels.
#[derive(Debug)]
pub struct PopupExtent {
    pub width: u32,
    pub height: u32,
    pub margin_x: i32,
    pub margin_y: i32,
}

/// A place on the desktop, in physical pixels.
#[derive(Debug)]
pub struct PopupPlace {
    pub x: i32,
    pub y: i32,
}

/// The number that 32 bits spell when the highest is taken for a sign.
pub open spec fn as_signed(n: u32) -> int {
    if n <= i32::MAX {
        n as int
    } else {
        n - 0x1_0000_0000
    }
}

/// The number is one of 32 bits.
pub open spec fn in_range(n: int) -> bool {
    i32::MIN <= n <= i32::MAX
}

/// Where a popup begins on one axis of the monitor. There is no such place where a number on the
/// way to it has more than 32 bits.
pub open spec fn popup_start(start: i32, length: u32, extent: u32, margin: i32) -> Option<int> {
    let end = start + as_signed(length);
    let front = end - as_signed(extent);
    let place = front - margin;
    if in_range(end) && in_range(front) && in_range(place) {
        Some(place)
    } else {
        None
    }
}

/// 32 bits with the highest taken for a sign.
fn signed(n: u32) -> (s: i64)
    ensures
        s == as_signed(n),
{
    if n <= 0x7FFF_FFFF {
        n as i64
    } else {
        n as i64 - 0x1_0000_0000
    }
}

/// Where a popup begins on one axis of the monitor.
fn start_on_axis(start: i32, length: u32, extent: u32, margin: i32) -> (place: Option<i32>)
    ensures
        match place {
            Some(p) => popup_start(start, length, extent, margin) == Some(p as int),
            None => popup_start(start, length, extent, margin) is None,
        },
{
    let low: i64 = i32::MIN as i64;
    let high: i64 = i32::MAX as i64;
    let end: i64 = start as i64 + signed(length);
    let front: i64 = end - signed(extent);
    let place: i64 = front - margin as i64;
    if low <= end && end <= high && low <= front && front <= high && low <= place && place <= high {
        Some(place as i32)
    } else {
        None
    }
}

/// The place of a popup: at the lower right of the monitor, with the margins kept. There is none
/// where the sums that lead to it do not fit in 32 bits.
pub fn popup_place(monitor: &MonitorArea, popup: &PopupExtent) -> (place: Option<PopupPlace>)
    ensures
        match (
            popup_start(monitor.x, monitor.width, popup.width, popup.margin_x),
            popup_start(monitor.y, monitor.height, popup.height, popup.margin_y),
        ) {
            (Some(x), Some(y)) => place matches Some(p) && p.x == x && p.y == y,
            _ => place is None,
        },
{
    match start_on_axis(monitor.x, monitor.width, popup.width, popup.margin_x) {
        Some(x) => match start_on_axis(monitor.y, monitor.height, popup.height, popup.margin_y) {
            Some(y) => Some(PopupPlace { x, y }),
            None => None,
        },
        None => None,
    }
}

/// A number cut down to 32 bits, of which the highest is the sign.
pub open spec fn cut_to_range(n: int) -> int {
    (n + 0x8000_0000) % 0x1_0000_0000 - 0x8000_0000
}

/// The sum that leads to the place of a popup on one axis.
pub open spec fn popup_sum(start: i32, length: u32, extent: u32, margin: i32) -> int {
    start + as_signed(length) - as_signed(extent) - margin
}

/// Where a popup begins on one axis of the monitor, with sums cut down to 32 bits.
fn cut_start_on_axis(start: i32, length: u32, extent: u32, margin: i32) -> (place: i32)
    ensures
        place == cut_to_range(popup_sum(start, length, extent, margin)),
{
    let sum: i64 = start as i64 + signed(length) - signed(extent) - margin as i64;
    let shifted: i64 = sum + 0x8000_0000 + 0x4_0000_0000;
    let place: i64 = shifted % 0x1_0000_0000 - 0x8000_0000;
    assert((sum + 0x8000_0000 + 4 * 0x1_0000_0000) % 0x1_0000_0000 == (sum + 0x8000_0000)
        % 0x1_0000_0000);
    place as i32
}

/// The place of a popup where sums wrap round at 32 bits, as they do in builds that do not watch
/// for overflow.
pub fn popup_place_wrapping(monitor: &MonitorArea, popup: &PopupExtent) -> (place: PopupPlace)
    ensures
        place.x == cut_to_range(
            popup_sum(monitor.x, monitor.width, popup.width, popup.margin_x),
        ),
        place.y == cut_to_range(
            popup_sum(monitor.y, monitor.height, popup.height, popup.margin_y),
        ),
{
    PopupPlace {
        x: cut_start_on_axis(monitor.x, monitor.width, popup.width, popup.margin_x),
        y: cut_start_on_axis(monitor.y, monitor.height, popup.height, popup.margin_y),
    }
}

/// The volume to announce a message with, as the settings hold it; none where sounds are off.
pub fn play_notification_sound(settings: &AppSettings) -> (volume_bits: Option<u32>)
    ensures
        volume_bits == if settings.sound_enabled {
            Some(settings.sound_volume_bits)
        } else {
            None
        },
{
    if settings.sound_enabled {
        Some(settings.sound_volume_bits)
    } else {
        None
    }
}

/// The bits of a number in binary64 or binary32 as an integer, where `sign` is the value of the
/// sign bit: zero is zero, and a greater number has a greater integer.
pub open spec fn bits_order(bits: int, sign: int) -> int {
    if bits < sign {
        bits
    } else {
        sign - bits
    }
}

/// The bits are those of no number: the exponent is full and something follows it. `infinity` is
/// a full exponent alone.
pub open spec fn bits_are_nan(bits: int, sign: int, infinity: int) -> bool {
    bits % sign > infinity
}

/// A number moved into a range, given by bits. What is no number stays as it is.
pub open spec fn bits_clamped(bits: int, low: int, high: int, sign: int, infinity: int) -> int {
    if bits_are_nan(bits, sign, infinity) {
        bits
    } else if bits_order(bits, sign) < bits_order(low, sign) {
        low
    } else if bits_order(bits, sign) > bits_order(high, sign) {
        high
    } else {
        bits
    }
}

/// The height of a popup, as the bits of a binary64 number: that of the settings, but at least 60
/// and at most 150.
pub fn popup_height_bits(settings: &AppSettings) -> (bits: u64)
    ensures
        bits == popup_height(settings.notification_height_bits),
{
    let bits: u64 = settings.notification_height_bits;
    if bits % 0x8000_0000_0000_0000 > 0x7FF0_0000_0000_0000 {
        bits
    } else if bits >= 0x8000_0000_0000_0000 || bits < POPUP_MIN_HEIGHT_BITS {
        POPUP_MIN_HEIGHT_BITS
    } else if bits > POPUP_MAX_HEIGHT_BITS {
        POPUP_MAX_HEIGHT_BITS
    } else {
        bits
    }
}

/// The volume for the player, as the bits of a binary32 number: the volume of the settings times
/// the gain, but at least 0 and at most the gain.
pub fn player_volume_bits(scaled_bits: u32) -> (bits: u32)
    ensures
        bits == bits_clamped(scaled_bits as int, 0, 0x40A0_0000, 0x8000_0000, 0x7F80_0000),
{
    if scaled_bits % 0x8000_0000 > 0x7F80_0000 {
        scaled_bits
    } else if scaled_bits > 0x8000_0000 {
        0
    } else if scaled_bits < 0x8000_0000 && scaled_bits > SOUND_GAIN_BITS {
        SOUND_GAIN_BITS
    } else {
        scaled_bits
    }
}

/// What is moved into a range lies in it, if it is a number and the range is one of numbers.
pub proof fn clamped_bits_lie_in_the_range(bits: int, low: int, high: int, sign: int, infinity: int)
    requires
        !bits_are_nan(bits, sign, infinity),
        bits_order(low, sign) <= bits_order(high, sign),
    ensures
        bits_order(low, sign) <= bits_order(
            bits_clamped(bits, low, high, sign, infinity),
            sign,
        ) <= bits_order(high, sign),
{
}

/// The percent codes, character by character.
proof fn lemma_codes()
    ensures
        "%23"@ == seq!['%', '2', '3'],
        "%20"@ == seq!['%', '2', '0'],
{
    reveal_strlit("%23");
    reveal_strlit("%20");
    assert("%23"@ == seq!['%', '2', '3']);
    assert("%20"@ == seq!['%', '2', '0']);
}

/// What the length of each percent code is, and which characters it has.
proof fn lemma_encoded_char(c: char)
    ensures
        0 < encoded_char(c).len() <= 3,
        forall|i: int|
            0 <= i < encoded_char(c).len() ==> #[trigger] encoded_char(c)[i] != '#'
                && encoded_char(c)[i] != ' ',
        c != '#' && c != ' ' ==> encoded_char(c) == seq![c],
        c == '#' ==> encoded_char(c) == seq!['%', '2', '3'],
        c == ' ' ==> encoded_char(c) == seq!['%', '2', '0'],
{
    lemma_codes();
}

/// An encoded text holds no `#` and no blank.
pub proof fn encoded_text_is_clean(text: Seq<char>)
    ensures
        forall|i: int|
            0 <= i < url_encoded(text).len() ==> #[trigger] url_encoded(text)[i] != '#'
                && url_encoded(text)[i] != ' ',
    decreases text.len(),
{
    if text.len() > 0 {
        encoded_text_is_clean(text.drop_last());
        lemma_encoded_char(text.last());
        let front = url_encoded(text.drop_last());
        let back = encoded_char(text.last());
        assert forall|i: int| 0 <= i < url_encoded(text).len() implies #[trigger] url_encoded(
            text,
        )[i] != '#' && url_encoded(text)[i] != ' ' by {
            if i >= front.len() {
                assert(url_encoded(text)[i] == back[i - front.len()]);
            }
        }
    }
}

/// A text without `#` and blanks is kept as it is.
pub proof fn clean_text_is_kept(text: Seq<char>)
    requires
        forall|i: int| 0 <= i < text.len() ==> #[trigger] text[i] != '#' && text[i] != ' ',
    ensures
        url_encoded(text) == text,
    decreases text.len(),
{
    if text.len() > 0 {
        clean_text_is_kept(text.drop_last());
        lemma_encoded_char(text.last());
        assert(text.drop_last() + seq![text.last()] == text);
    }
}

/// Encoding what is encoded changes nothing more.
pub proof fn encoding_twice_is_encoding_once(text: Seq<char>)
    ensures
        url_encoded(url_encoded(text)) == url_encoded(text),
{
    encoded_text_is_clean(text);
    clean_text_is_kept(url_encoded(text));
}

/// A text is encoded piece by piece.
pub proof fn encoding_goes_by_pieces(front: Seq<char>, back: Seq<char>)
    ensures
        url_encoded(front + back) == url_encoded(front) + url_encoded(back),
    decreases back.len(),
{
    if back.len() == 0 {
        assert(front + back == front);
        assert(url_encoded(front) + url_encoded(back) == url_encoded(front));
    } else {
        encoding_goes_by_pieces(front, back.drop_last());
        assert((front + back).drop_last() == front + back.drop_last());
    }
}

/// A text whose percent codes for `#` and the blank are read back.
pub open spec fn url_decoded(text: Seq<char>) -> Seq<char>
    decreases text.len(),
{
    if text.len() == 0 {
        Seq::empty()
    } else if text.len() >= 3 && text.take(3) == "%23"@ {
        seq!['#'] + url_decoded(text.skip(3))
    } else if text.len() >= 3 && text.take(3) == "%20"@ {
        seq![' '] + url_decoded(text.skip(3))
    } else {
        seq![text[0]] + url_decoded(text.skip(1))
    }
}

/// Reading back the codes of an encoded text gives the text, if it had no `%` of its own.
pub proof fn encoding_can_be_read_back(text: Seq<char>)
    requires
        forall|i: int| 0 <= i < text.len() ==> #[trigger] text[i] != '%',
    ensures
        url_decoded(url_encoded(text)) == text,
    decreases text.len(),
{
    if text.len() > 0 {
        let c = text[0];
        let rest = text.skip(1);
        let code = encoded_char(c);
        let whole = url_encoded(text);
        assert(text == seq![c] + rest);
        encoding_goes_by_pieces(seq![c], rest);
        assert(seq![c].drop_last() == Seq::<char>::empty());
        reveal_with_fuel(url_encoded, 2);
        assert(url_encoded(seq![c]) == Seq::<char>::empty() + code);
        assert(Seq::<char>::empty() + code == code);
        encoding_can_be_read_back(rest);
        lemma_encoded_char(c);
        lemma_codes();
        assert(whole.skip(code.len() as int) == url_encoded(rest));
        if c == '#' {
            assert(whole.take(3) == "%23"@);
        } else if c == ' ' {
            assert(whole.take(3) == "%20"@);
            assert(whole.take(3)[2] == '0');
        } else {
            if whole.len() >= 3 {
                assert(whole.take(3)[0] == c);
            }
        }
        assert(url_decoded(whole) == seq![c] + url_decoded(url_encoded(rest)));
    }
}

/// The page of a popup has no fragment and no blank, whatever the custom colours are, if theme
/// and background have none.
pub proof fn popup_url_is_clean(settings: AppSettings, i: int)
    requires
        forall|k: int|
            0 <= k < settings.theme@.len() ==> #[trigger] settings.theme@[k] != '#'
                && settings.theme@[k] != ' ',
        forall|k: int|
            0 <= k < settings.background@.len() ==> #[trigger] settings.background@[k] != '#'
                && settings.background@[k] != ' ',
        0 <= i < popup_url(settings).len(),
    ensures
        popup_url(settings)[i] != '#',
        popup_url(settings)[i] != ' ',
{
    reveal_strlit("notification.html?theme=");
    reveal_strlit("&bg=");
    reveal_strlit("&ct=");
    reveal_strlit("&cb=");
    let url = popup_url(settings);
    let theme = settings.theme@;
    let background = settings.background@;
    let ct = url_encoded(settings.custom_theme@);
    let cb = url_encoded(settings.custom_background@);
    encoded_text_is_clean(settings.custom_theme@);
    encoded_text_is_clean(settings.custom_background@);
    let p1 = 24 + theme.len();
    let p2 = p1 + 4 + background.len();
    let p3 = p2 + 4 + ct.len();
    if i < 24 {
        assert(url[i] == "notification.html?theme="@[i]);
    } else if i < p1 {
        assert(url[i] == theme[i - 24]);
    } else if i < p1 + 4 {
        assert(url[i] == "&bg="@[i - p1]);
    } else if i < p2 {
        assert(url[i] == background[i - p1 - 4]);
    } else if i < p2 + 4 {
        assert(url[i] == "&ct="@[i - p2]);
    } else if i < p3 {
        assert(url[i] == ct[i - p2 - 4]);
    } else if i < p3 + 4 {
        assert(url[i] == "&cb="@[i - p3]);
    } else {
        assert(url[i] == cb[i - p3 - 4]);
    }
}

/// Under Wayland on Linux every notification goes to the desktop, whatever the settings say.
pub proof fn wayland_notifications_are_native(settings: AppSettings, session: DesktopSession)
    requires
        session.linux,
        is_on_wayland(session),
    ensures
        is_native(settings, session),
{
}

/// Elsewhere than on Linux every notification is a popup.
pub proof fn other_systems_use_popups(settings: AppSettings, session: DesktopSession)
    requires
        !session.linux,
    ensures
        !is_native(settings, session),
{
}

/// Every popup is known for one by its label, so that it is closed with the others.
pub proof fn popups_are_known_by_their_label(id: nat)
    ensures
        begins_with(popup_label(id), POPUP_LABEL@),
{
    assert(popup_label(id).subrange(0, POPUP_LABEL@.len() as int) == POPUP_LABEL@);
}

/// A popup is never seen before it was placed.
pub proof fn popups_are_placed_before_they_are_shown(linux: bool, shown: int)
    requires
        0 <= shown < popup_sequence(linux).len(),
        popup_sequence(linux)[shown] == PopupStep::Show,
    ensures
        exists|placed: int|
            0 <= placed < shown && #[trigger] popup_sequence(linux)[placed] == PopupStep::Place,
{
    assert(popup_sequence(linux)[0] == PopupStep::Place);
}

/// Popups with different numbers have different labels.
pub proof fn popup_labels_are_distinct(a: nat, b: nat)
    requires
        popup_label(a) == popup_label(b),
    ensures
        a == b,
{
    let n = POPUP_LABEL@.len() as int;
    assert(popup_label(a).skip(n) == decimal_text(a));
    assert(popup_label(b).skip(n) == decimal_text(b));
    decimal_text_is_injective(a, b);
}

/// Two popups of one run have different numbers, the later the greater, and different labels by
/// which both are known, as long as the numbers have not gone round. The first is `notif_0`.
pub proof fn popups_of_a_run_are_told_apart(earlier: nat, later: nat)
    requires
        earlier < later <= usize::MAX,
    ensures
        number_of_popup(earlier) < number_of_popup(later),
        popup_label(number_of_popup(earlier)) != popup_label(number_of_popup(later)),
        begins_with(popup_label(number_of_popup(earlier)), POPUP_LABEL@),
        begins_with(popup_label(number_of_popup(later)), POPUP_LABEL@),
        popup_label(number_of_popup(0)) == "notif_0"@,
{
    lemma_number_of_popup(earlier);
    lemma_number_of_popup(later);
    if popup_label(earlier) == popup_label(later) {
        popup_labels_are_distinct(earlier, later);
    }
    popups_are_known_by_their_label(earlier);
    popups_are_known_by_their_label(later);
    reveal_strlit("notif_");
    reveal_strlit("notif_0");
    assert(popup_label(0) == "notif_0"@);
}

/// Until the numbers go round, a popup's number is how many came before it.
proof fn lemma_number_of_popup(others: nat)
    requires
        others <= usize::MAX,
    ensures
        number_of_popup(others) == others,
    decreases others,
{
    if others > 0 {
        lemma_number_of_popup((others - 1) as nat);
    }
}

/// Where the sums fit in 32 bits, cutting them changes nothing.
pub proof fn cutting_keeps_places_in_range(start: i32, length: u32, extent: u32, margin: i32)
    ensures
        popup_start(start, length, extent, margin) matches Some(place) ==> cut_to_range(
            popup_sum(start, length, extent, margin),
        ) == place,
{
}

/// A popup that goes with its margin into the monitor lies inside it on each axis, and ends
/// exactly the margin before the monitor does.
pub proof fn popups_lie_inside_the_monitor(start: i32, length: u32, extent: u32, margin: i32)
    requires
        length <= i32::MAX,
        margin >= 0,
        extent + margin <= length,
        start + length <= i32::MAX,
    ensures
        popup_start(start, length, extent, margin) matches Some(place) && start <= place && place
            + extent + margin == start + length,
{
}

/// Whoever wants notifications of the desktop gets them on Linux, whatever the session is, with the
/// title and the text of the message.
pub proof fn wish_for_native_notifications_is_granted(
    settings: &AppSettings,
    session: &DesktopSession,
    title: String,
    body: String,
    notification: Notification,
)
    requires
        session.linux,
        settings.use_native_notifications,
        call_ensures(create_notification_window, (settings, session, title, body), notification),
    ensures
        notification matches Notification::Native { notice } && notice.summary@ == title@
            && notice.body@ == body@,
{
}

/// On Linux under Wayland the desktop shows every message, whatever the settings say: where
/// `WAYLAND_DISPLAY` is set and `GDK_BACKEND` either is not or does not name `x11`.
pub proof fn wayland_has_no_popups(
    settings: &AppSettings,
    session: &DesktopSession,
    title: String,
    body: String,
    notification: Notification,
)
    requires
        session.linux,
        session.wayland_display,
        session.gdk_backend matches Some(backend) ==> forall|front: Seq<char>, back: Seq<char>|
            backend@ != #[trigger] (front + "x11"@ + back),
        call_ensures(create_notification_window, (settings, session, title, body), notification),
    ensures
        notification matches Notification::Native { notice } && notice.summary@ == title@
            && notice.body@ == body@,
{
    if let Some(backend) = session.gdk_backend {
        parts_stand_inside(backend@, "x11"@);
    }
}

/// A popup with the title of the message comes up elsewhere than on Linux, and on Linux where the
/// settings do not ask for the desktop and windows are not drawn by Wayland: `WAYLAND_DISPLAY` is
/// not set, or `GDK_BACKEND` names `x11` somewhere.
pub proof fn popups_come_up_elsewhere(
    settings: &AppSettings,
    session: &DesktopSession,
    title: String,
    body: String,
    front: Seq<char>,
    back: Seq<char>,
    notification: Notification,
)
    requires
        !session.linux || (!settings.use_native_notifications && (!session.wayland_display || (
        session.gdk_backend matches Some(backend) && backend@ == front + "x11"@ + back))),
        call_ensures(create_notification_window, (settings, session, title, body), notification),
    ensures
        notification matches Notification::Popup { title: shown } && shown@ == title@,
{
    if let Some(backend) = session.gdk_backend {
        parts_stand_inside(backend@, "x11"@);
    }
}

/// How a message is shown does not depend on what it says, nor on any other setting than the wish
/// for notifications of the desktop.
pub proof fn messages_are_shown_alike(
    settings: &AppSettings,
    others: &AppSettings,
    session: &DesktopSession,
    title: String,
    body: String,
    other_title: String,
    other_body: String,
    one: Notification,
    other: Notification,
)
    requires
        settings.use_native_notifications == others.use_native_notifications,
        call_ensures(create_notification_window, (settings, session, title, body), one),
        call_ensures(create_notification_window, (others, session, other_title, other_body), other),
    ensures
        one is Native <==> other is Native,
{
}

/// A notification of the desktop says whose it is, has the picture of a new message and goes away
/// after eight seconds.
pub proof fn native_notices_are_signed(
    settings: &AppSettings,
    session: &DesktopSession,
    title: String,
    body: String,
    notice: NativeNotice,
)
    requires
        call_ensures(
            create_notification_window,
            (settings, session, title, body),
            Notification::Native { notice },
        ),
    ensures
        notice.appname@ == "Google Chat by ism"@,
        notice.icon@ == "mail-message-new"@,
        notice.timeout_ms == 8000,
{
}

/// Windows are drawn by Wayland exactly where `WAYLAND_DISPLAY` is set and `GDK_BACKEND`, if it is
/// set, does not name `x11` anywhere.
pub proof fn wayland_is_known_by_the_session(session: &DesktopSession, wayland: bool)
    requires
        call_ensures(on_wayland, (session,), wayland),
    ensures
        wayland <==> session.wayland_display && (session.gdk_backend matches Some(backend)
            ==> forall|front: Seq<char>, back: Seq<char>|
            backend@ != #[trigger] (front + "x11"@ + back)),
{
    if let Some(backend) = session.gdk_backend {
        parts_stand_inside(backend@, "x11"@);
    }
}

/// A failure of the desktop is passed on behind a word on where it comes from, and nothing else is
/// a failure.
pub proof fn failures_of_the_desktop_are_passed_on(
    shown: Result<(), String>,
    answer: Result<(), String>,
)
    requires
        call_ensures(native_answer, (shown,), answer),
    ensures
        shown is Ok <==> answer is Ok,
        shown matches Err(reason) ==> answer matches Err(message) && message@ == "Błąd D-Bus: "@
            + reason@,
{
}

/// Text is encoded character by character: what stands between two others is encoded as if it stood
/// alone.
pub proof fn texts_are_encoded_piece_by_piece(
    front: &str,
    back: &str,
    whole: &str,
    encoded_front: String,
    encoded_back: String,
    encoded_whole: String,
)
    requires
        whole@ == front@ + back@,
        call_ensures(urlencode, (front,), encoded_front),
        call_ensures(urlencode, (back,), encoded_back),
        call_ensures(urlencode, (whole,), encoded_whole),
    ensures
        encoded_whole@ == encoded_front@ + encoded_back@,
{
    encoding_goes_by_pieces(front@, back@);
}

/// A single character is kept, but for `#`, which becomes `%23`, and the blank, which becomes
/// `%20`.
pub proof fn single_characters_are_encoded(text: &str, c: char, encoded: String)
    requires
        text@ == seq![c],
        call_ensures(urlencode, (text,), encoded),
    ensures
        c == '#' ==> encoded@ == "%23"@,
        c == ' ' ==> encoded@ == "%20"@,
        c != '#' && c != ' ' ==> encoded@ == seq![c],
{
    let none = Seq::<char>::empty();
    assert(text@.drop_last() == none);
    assert(url_encoded(none) == none);
    assert(encoded@ == none + encoded_char(c));
    assert(none + encoded_char(c) == encoded_char(c));
}

/// What is encoded goes without a character that the text goes without, if that is not one of the
/// codes.
proof fn lemma_encoding_adds_codes_alone(text: Seq<char>, c: char)
    requires
        is_free_of(text, c),
        c != '%' && c != '2' && c != '3' && c != '0',
    ensures
        is_free_of(url_encoded(text), c),
    decreases text.len(),
{
    if text.len() > 0 {
        lemma_encoding_adds_codes_alone(text.drop_last(), c);
        lemma_encoded_char(text.last());
        let front = url_encoded(text.drop_last());
        assert forall|i: int| 0 <= i < url_encoded(text).len() implies #[trigger] url_encoded(
            text,
        )[i] != c by {
            if i >= front.len() {
                assert(url_encoded(text)[i] == encoded_char(text.last())[i - front.len()]);
            } else {
                assert(url_encoded(text)[i] == front[i]);
            }
        }
    }
}

/// The page of a popup tells the settings: reading its query back, at each `&`, gives the theme, the
/// background and the two custom colours as they are encoded, in this order and nothing more. They
/// may be anything that holds no `&`.
pub proof fn popup_page_tells_the_settings(
    settings: &AppSettings,
    id: usize,
    title: String,
    theme: &str,
    background: &str,
    custom_theme: String,
    custom_background: String,
    popup: PopupWindow,
)
    requires
        is_free_of(settings.theme@, '&'),
        is_free_of(settings.background@, '&'),
        is_free_of(settings.custom_theme@, '&'),
        is_free_of(settings.custom_background@, '&'),
        call_ensures(popup_window, (settings, id, title), popup),
        theme@ == settings.custom_theme@,
        background@ == settings.custom_background@,
        call_ensures(urlencode, (theme,), custom_theme),
        call_ensures(urlencode, (background,), custom_background),
    ensures
        begins_with(popup.url@, "notification.html?"@),
        split_at(popup.url@.skip(18), '&') == seq![
            "theme="@ + settings.theme@,
            "bg="@ + settings.background@,
            "ct="@ + custom_theme@,
            "cb="@ + custom_background@,
        ],
{
    let ct = url_encoded(settings.custom_theme@);
    let cb = url_encoded(settings.custom_background@);
    assert(custom_theme@ == ct);
    assert(custom_background@ == cb);
    lemma_encoding_adds_codes_alone(settings.custom_theme@, '&');
    lemma_encoding_adds_codes_alone(settings.custom_background@, '&');
    reveal_strlit("notification.html?theme=");
    reveal_strlit("notification.html?");
    reveal_strlit("theme=");
    reveal_strlit("&bg=");
    reveal_strlit("bg=");
    reveal_strlit("&ct=");
    reveal_strlit("ct=");
    reveal_strlit("&cb=");
    reveal_strlit("cb=");
    let p1 = "theme="@ + settings.theme@;
    let p2 = "bg="@ + settings.background@;
    let p3 = "ct="@ + ct;
    let p4 = "cb="@ + cb;
    let query = p1.push('&') + p2;
    let longer = query.push('&') + p3;
    let whole = longer.push('&') + p4;
    assert("notification.html?theme="@ == "notification.html?"@ + "theme="@);
    assert("&bg="@ == seq!['&'] + "bg="@);
    assert("&ct="@ == seq!['&'] + "ct="@);
    assert("&cb="@ == seq!['&'] + "cb="@);
    assert(popup.url@ == "notification.html?"@ + whole);
    assert(popup.url@.subrange(0, 18) == "notification.html?"@);
    assert(popup.url@.skip(18) == whole);
    pieces_end_at_separators(Seq::empty(), p1, '&');
    pieces_end_at_separators(p1, p2, '&');
    pieces_end_at_separators(query, p3, '&');
    pieces_end_at_separators(longer, p4, '&');
    assert(split_at(whole, '&') == seq![p1, p2, p3, p4]);
}

/// Whatever the settings hold, `&` or not, the page of a popup is that of its theme and background
/// up to the custom colours, and ends with these as they are encoded.
pub proof fn popup_page_begins_with_the_theme(
    settings: &AppSettings,
    id: usize,
    title: String,
    theme: &str,
    background: &str,
    custom_theme: String,
    custom_background: String,
    popup: PopupWindow,
)
    requires
        theme@ == settings.custom_theme@,
        background@ == settings.custom_background@,
        call_ensures(urlencode, (theme,), custom_theme),
        call_ensures(urlencode, (background,), custom_background),
        call_ensures(popup_window, (settings, id, title), popup),
    ensures
        begins_with(
            popup.url@,
            "notification.html?theme="@ + settings.theme@ + "&bg="@ + settings.background@,
        ),
        finishes_with(popup.url@, "&ct="@ + custom_theme@ + "&cb="@ + custom_background@),
        popup.url@.len() == 36 + settings.theme@.len() + settings.background@.len()
            + custom_theme@.len() + custom_background@.len(),
{
    reveal_strlit("notification.html?theme=");
    reveal_strlit("&bg=");
    reveal_strlit("&ct=");
    reveal_strlit("&cb=");
    let front = "notification.html?theme="@ + settings.theme@ + "&bg="@ + settings.background@;
    let back = "&ct="@ + custom_theme@ + "&cb="@ + custom_background@;
    assert(popup.url@ == front + back);
    beginnings_are_fronts(popup.url@, front);
    endings_are_backs(popup.url@, back);
}

/// Settings that differ in a colour have different pages: those who share the other three and have
/// the same page share it too.
pub proof fn pages_tell_colours_apart(
    settings: &AppSettings,
    others: &AppSettings,
    id: usize,
    other_id: usize,
    title: String,
    other_title: String,
    popup: PopupWindow,
    other: PopupWindow,
)
    requires
        call_ensures(popup_window, (settings, id, title), popup),
        call_ensures(popup_window, (others, other_id, other_title), other),
        popup.url@ == other.url@,
        settings.custom_theme@ == others.custom_theme@,
        settings.custom_background@ == others.custom_background@,
        settings.theme@ == others.theme@ || settings.background@ == others.background@,
    ensures
        settings.theme@ == others.theme@,
        settings.background@ == others.background@,
{
    reveal_strlit("notification.html?theme=");
    reveal_strlit("&bg=");
    reveal_strlit("&ct=");
    reveal_strlit("&cb=");
    let n = settings.theme@.len() as int;
    let m = settings.background@.len() as int;
    let tail = url_encoded(settings.custom_theme@).len() + url_encoded(
        settings.custom_background@,
    ).len();
    assert(popup.url@.len() == 36 + n + m + tail);
    assert(other.url@.len() == 36 + others.theme@.len() + others.background@.len() + tail);
    assert(n == others.theme@.len() && m == others.background@.len());
    assert(settings.theme@ == popup.url@.subrange(24, 24 + n));
    assert(others.theme@ == other.url@.subrange(24, 24 + n));
    assert(settings.background@ == popup.url@.subrange(28 + n, 28 + n + m));
    assert(others.background@ == other.url@.subrange(28 + n, 28 + n + m));
}

/// A popup has the title of its message, and a label from which its number can be read: `notif_` and
/// the number in decimal, without zeros before it.
pub proof fn popups_carry_title_and_number(
    settings: &AppSettings,
    id: usize,
    title: String,
    popup: PopupWindow,
)
    requires
        call_ensures(popup_window, (settings, id, title), popup),
    ensures
        popup.title@ == title@,
        begins_with(popup.label@, "notif_"@),
        decimal_value(popup.label@.skip(6)) == id,
        popup.label@.len() > 6,
        forall|i: int| 6 <= i < popup.label@.len() ==> '0' <= #[trigger] popup.label@[i] <= '9',
        popup.label@.len() > 7 ==> popup.label@[6] != '0',
{
    reveal_strlit("notif_");
    let digits = decimal_text(id as nat);
    decimal_text_spells_the_number(id as nat);
    assert(popup.label@.skip(6) == digits);
    assert(popup.label@.subrange(0, 6) == "notif_"@);
    assert forall|i: int| 6 <= i < popup.label@.len() implies '0' <= #[trigger] popup.label@[i]
        <= '9' by {
        assert(popup.label@[i] == digits[i - 6]);
    }
}

/// A window counts as a popup exactly where its label is `notif_` and something more or nothing.
pub proof fn popups_are_windows_with_their_label(label: &str, found: bool)
    requires
        call_ensures(is_notification_window, (label,), found),
    ensures
        found <==> exists|rest: Seq<char>| label@ == "notif_"@ + rest,
{
    beginnings_are_fronts(label@, "notif_"@);
}

/// Every popup that is opened is closed with the others.
pub proof fn opened_popups_are_closed(
    settings: &AppSettings,
    id: usize,
    title: String,
    popup: PopupWindow,
    label: &str,
    found: bool,
)
    requires
        call_ensures(popup_window, (settings, id, title), popup),
        label@ == popup.label@,
        call_ensures(is_notification_window, (label,), found),
    ensures
        found,
{
    popups_are_known_by_their_label(id as nat);
}

/// Popups get the numbers 0, 1, 2 and so on; the one after the last begins anew.
pub proof fn popups_are_counted(others: nat)
    ensures
        others <= usize::MAX ==> number_of_popup(others) == others,
        number_of_popup((usize::MAX + 1) as nat) == 0,
        number_after(others) == if others == usize::MAX {
            0
        } else {
            (others + 1) as nat
        },
{
    if others <= usize::MAX {
        lemma_number_of_popup(others);
    }
    lemma_number_of_popup(usize::MAX as nat);
}

/// The height of a popup is that of the settings from 60 to 150. Less than 60, or below zero, it is
/// 60; more than 150, it is 150; and what is no number stays. All are bits of binary64, in which
/// numbers from zero on are ordered as their bits, and those below zero have the highest bit set.
pub proof fn heights_are_kept_from_60_to_150(settings: &AppSettings, bits: u64)
    requires
        call_ensures(popup_height_bits, (settings,), bits),
    ensures
        0x404E_0000_0000_0000 <= settings.notification_height_bits <= 0x4062_C000_0000_0000 ==> bits
            == settings.notification_height_bits,
        settings.notification_height_bits < 0x404E_0000_0000_0000 ==> bits == 0x404E_0000_0000_0000,
        0x4062_C000_0000_0000 < settings.notification_height_bits <= 0x7FF0_0000_0000_0000 ==> bits
            == 0x4062_C000_0000_0000,
        0x7FF0_0000_0000_0000 < settings.notification_height_bits < 0x8000_0000_0000_0000 ==> bits
            == settings.notification_height_bits,
        0x8000_0000_0000_0000 <= settings.notification_height_bits <= 0xFFF0_0000_0000_0000 ==> bits
            == 0x404E_0000_0000_0000,
        0xFFF0_0000_0000_0000 < settings.notification_height_bits ==> bits
            == settings.notification_height_bits,
{
}

/// A higher popup in the settings is never a lower one on the screen.
pub proof fn higher_settings_give_higher_popups(
    settings: &AppSettings,
    others: &AppSettings,
    bits: u64,
    other_bits: u64,
)
    requires
        settings.notification_height_bits <= others.notification_height_bits
            <= 0x7FF0_0000_0000_0000,
        call_ensures(popup_height_bits, (settings,), bits),
        call_ensures(popup_height_bits, (others,), other_bits),
    ensures
        bits <= other_bits,
{
}

/// The window of a popup is 360 wide and as high as the settings say, cannot be made larger or
/// smaller, has no decorations, stays above others and off the taskbar, and is hidden at first.
pub proof fn popups_are_built_bare_and_hidden(
    settings: &AppSettings,
    height_bits: u64,
    frame: PopupFrame,
)
    requires
        call_ensures(popup_frame, (settings,), frame),
        call_ensures(popup_height_bits, (settings,), height_bits),
    ensures
        frame.inner.width == 360,
        frame.inner.height_bits == height_bits,
        frame.least == frame.inner,
        frame.greatest == frame.inner,
        !frame.decorations && !frame.resizable && !frame.visible,
        frame.always_on_top && frame.skip_taskbar,
{
}

/// The volume of the player is what was scaled from 0 to 5. Below zero it is 0; more than 5, it is
/// 5; and what is no number stays, as do both zeros. All are bits of binary32.
pub proof fn volumes_are_kept_from_0_to_5(scaled_bits: u32, bits: u32)
    requires
        call_ensures(player_volume_bits, (scaled_bits,), bits),
    ensures
        scaled_bits <= 0x40A0_0000 ==> bits == scaled_bits,
        0x40A0_0000 < scaled_bits <= 0x7F80_0000 ==> bits == 0x40A0_0000,
        0x7F80_0000 < scaled_bits <= 0x8000_0000 ==> bits == scaled_bits,
        0x8000_0000 < scaled_bits <= 0xFF80_0000 ==> bits == 0,
        0xFF80_0000 < scaled_bits ==> bits == scaled_bits,
{
}

/// A sound is played exactly where sounds are on, at the volume of the settings and whatever else
/// they say.
pub proof fn sounds_are_played_as_wished(settings: &AppSettings, volume_bits: Option<u32>)
    requires
        call_ensures(play_notification_sound, (settings,), volume_bits),
    ensures
        volume_bits is Some <==> settings.sound_enabled,
        volume_bits matches Some(bits) ==> bits == settings.sound_volume_bits,
{
}

/// A popup that has a place touches its margins: on each axis the place, the popup and the margin
/// together end where the monitor does.
pub proof fn popups_end_a_margin_before_the_monitor(
    monitor: &MonitorArea,
    popup: &PopupExtent,
    place: PopupPlace,
)
    requires
        monitor.width <= i32::MAX,
        monitor.height <= i32::MAX,
        popup.width <= i32::MAX,
        popup.height <= i32::MAX,
        call_ensures(popup_place, (monitor, popup), Some(place)),
    ensures
        place.x + popup.width + popup.margin_x == monitor.x + monitor.width,
        place.y + popup.height + popup.margin_y == monitor.y + monitor.height,
{
}

/// A popup has a place wherever monitor, popup and margins are such that no sum leaves 32 bits; a
/// size past that range counts as what its bits spell with a sign.
pub proof fn popups_have_a_place(
    monitor: &MonitorArea,
    popup: &PopupExtent,
    place: Option<PopupPlace>,
    width: int,
    height: int,
    popup_width: int,
    popup_height: int,
)
    requires
        is_signed_form(monitor.width, width),
        is_signed_form(monitor.height, height),
        is_signed_form(popup.width, popup_width),
        is_signed_form(popup.height, popup_height),
        call_ensures(popup_place, (monitor, popup), place),
    ensures
        place is Some <==> {
            &&& i32::MIN <= monitor.x + width <= i32::MAX
            &&& i32::MIN <= monitor.x + width - popup_width <= i32::MAX
            &&& i32::MIN <= monitor.x + width - popup_width - popup.margin_x <= i32::MAX
            &&& i32::MIN <= monitor.y + height <= i32::MAX
            &&& i32::MIN <= monitor.y + height - popup_height <= i32::MAX
            &&& i32::MIN <= monitor.y + height - popup_height - popup.margin_y <= i32::MAX
        },
        place matches Some(p) ==> p.x + popup_width + popup.margin_x == monitor.x + width && p.y
            + popup_height + popup.margin_y == monitor.y + height,
{
}

/// The number has 32 bits with a sign, and the same bits.
pub open spec fn is_signed_form(n: u32, signed: int) -> bool {
    i32::MIN <= signed <= i32::MAX && (signed == n || signed + 0x1_0000_0000 == n)
}

/// Where sums wrap round, the place differs from the true sum by a multiple of 2 to the 32nd, on
/// each axis, and where there is a place without wrapping it is the same.
pub proof fn wrapped_places_agree(
    monitor: &MonitorArea,
    popup: &PopupExtent,
    place: Option<PopupPlace>,
    wrapped: PopupPlace,
)
    requires
        call_ensures(popup_place, (monitor, popup), place),
        call_ensures(popup_place_wrapping, (monitor, popup), wrapped),
    ensures
        (monitor.x + monitor.width - popup.width - popup.margin_x - wrapped.x) % 0x1_0000_0000 == 0,
        (monitor.y + monitor.height - popup.height - popup.margin_y - wrapped.y) % 0x1_0000_0000
            == 0,
        place matches Some(p) ==> p.x == wrapped.x && p.y == wrapped.y,
{
    lemma_wrapped_start(monitor.x, monitor.width, popup.width, popup.margin_x, wrapped.x as int);
    lemma_wrapped_start(monitor.y, monitor.height, popup.height, popup.margin_y, wrapped.y as int);
}

/// Cutting a sum to 32 bits takes a multiple of 2 to the 32nd away from it.
proof fn lemma_wrapped_start(start: i32, length: u32, extent: u32, margin: i32, place: int)
    requires
        place == cut_to_range(popup_sum(start, length, extent, margin)),
    ensures
        (start + length - extent - margin - place) % 0x1_0000_0000 == 0,
{
    let sum = popup_sum(start, length, extent, margin);
    let turns = (sum + 0x8000_0000) / 0x1_0000_0000;
    assert(sum - place == turns * 0x1_0000_0000);
    let true_sum = start + length - extent - margin;
    let more = (true_sum - sum) / 0x1_0000_0000;
    assert(true_sum - sum == more * 0x1_0000_0000);
    assert(true_sum - place == (turns + more) * 0x1_0000_0000);
}

/// A popup that could not be built is neither placed nor shown, and the reason is the answer; one
/// that was built is placed, then shown, on Linux placed again after that, and the answer is a
/// success.
pub proof fn built_popups_are_shown(linux: bool, built: Result<(), String>, next: PopupNext)
    requires
        call_ensures(popup_step, (linux, built), next),
    ensures
        built matches Err(reason) ==> next.steps@.len() == 0 && (next.answer matches Err(message)
            && message@ == reason@),
        built is Ok ==> {
            &&& next.answer is Ok
            &&& next.steps@.len() == if linux {
                3int
            } else {
                2int
            }
            &&& next.steps@[0] == PopupStep::Place
            &&& next.steps@[1] == PopupStep::Show
            &&& linux ==> next.steps@[2] == PopupStep::PlaceAgain
        },
{
}

/// A popup comes up on the monitor of the main window wherever that has one, and on the primary
/// monitor only where it has none.
pub proof fn popups_stay_with_the_main_window(main_window_has_one: bool, source: MonitorSource)
    requires
        call_ensures(popup_monitor, (main_window_has_one,), source),
    ensures
        source == MonitorSource::MainWindow <==> main_window_has_one,
{
}

} // verus!
