//! The settings of the application: their defaults, how they are loaded and how they are saved.

use vstd::prelude::*;

verus! {

/// The name of the settings file in the configuration directory.
pub const SETTINGS_FILE: &'static str = "settings.json";

/// What the user can set.
#[derive(Debug)]
pub struct AppSettings {
    pub theme: String,
    pub custom_theme: String,
    pub background: String,
    pub custom_background: String,
    /// The height of a popup in logical pixels, as the bits of an IEEE 754 binary64 number.
    pub notification_height_bits: u64,
    pub autostart: bool,
    pub start_minimized: bool,
    /// The volume from nothing to full, as the bits of an IEEE 754 binary32 number.
    pub sound_volume_bits: u32,
    pub sound_enabled: bool,
    pub use_native_notifications: bool,
}

/// The height 80 in binary64: 1.25 times 2 to the 6th.
pub const DEFAULT_HEIGHT_BITS: u64 = 0x4054_0000_0000_0000;

/// The volume one half in binary32: 1.0 times 2 to the -1st.
pub const DEFAULT_VOLUME_BITS: u32 = 0x3F00_0000;

/// The settings of someone who has set nothing.
pub open spec fn are_defaults(settings: AppSettings) -> bool {
    &&& settings.theme@ == "red"@
    &&& settings.custom_theme@ == "#e74c3c"@
    &&& settings.background@ == "dark"@
    &&& settings.custom_background@ == "#1a1a2e"@
    &&& settings.notification_height_bits == 0x4054_0000_0000_0000
    &&& !settings.autostart
    &&& !settings.start_minimized
    &&& settings.sound_volume_bits == 0x3F00_0000
    &&& settings.sound_enabled
    &&& !settings.use_native_notifications
}

impl Default for AppSettings {
    fn default() -> (settings: Self)
        ensures
            are_defaults(settings),
    {
        AppSettings {
            theme: "red".to_owned(),
            custom_theme: "#e74c3c".to_owned(),
            background: "dark".to_owned(),
            custom_background: "#1a1a2e".to_owned(),
            notification_height_bits: DEFAULT_HEIGHT_BITS,
            autostart: false,
            start_minimized: false,
            sound_volume_bits: DEFAULT_VOLUME_BITS,
            sound_enabled: true,
            use_native_notifications: false,
        }
    }
}

/// What reading the settings file came to.
#[derive(Debug)]
pub enum SettingsFile {
    /// There is no file, or it cannot be read.
    Unreadable,
    /// The file does not hold settings.
    Malformed,
    /// The file holds these settings.
    Holds { settings: AppSettings },
}

/// These are the settings to work with for a file.
pub open spec fn loads_as(file: SettingsFile, settings: AppSettings) -> bool {
    match file {
        SettingsFile::Holds { settings: held } => settings == held,
        _ => are_defaults(settings),
    }
}

/// The settings to work with: those of the file, or the defaults where it holds none.
pub fn load_settings(file: SettingsFile) -> (settings: AppSettings)
    ensures
        loads_as(file, settings),
{
    match file {
        SettingsFile::Holds { settings } => settings,
        SettingsFile::Malformed => AppSettings::default(),
        SettingsFile::Unreadable => AppSettings::default(),
    }
}

/// Whether the main window is seen when the application starts.
pub fn starts_visible(settings: &AppSettings) -> (visible: bool)
    ensures
        visible == !settings.start_minimized,
{
    !settings.start_minimized
}

/// What has just been done to save the settings, and how it went.
#[derive(Debug)]
pub enum SaveEvent {
    /// The settings were turned into the text of a file.
    Serialized(Result<String, String>),
    /// The file was written.
    Written(Result<(), String>),
    /// Starting with the system was switched on or off.
    AutostartSwitched(Result<(), String>),
}

/// What is to be done next to save the settings.
#[derive(Debug)]
pub enum SaveStep {
    /// Write this text to the settings file.
    Write { data: String },
    /// Switch starting with the system on or off.
    SwitchAutostart { enable: bool },
    /// All is done: this is the answer.
    Finish { answer: Result<(), String> },
}

/// The step that follows an event, for settings with this wish to start with the system.
pub open spec fn save_step_after(autostart: bool, event: SaveEvent) -> SaveStep {
    match event {
        SaveEvent::Serialized(Ok(data)) => SaveStep::Write { data },
        SaveEvent::Serialized(Err(reason)) => SaveStep::Finish { answer: Err(reason) },
        SaveEvent::Written(Ok(())) => SaveStep::SwitchAutostart { enable: autostart },
        SaveEvent::Written(Err(reason)) => SaveStep::Finish { answer: Err(reason) },
        SaveEvent::AutostartSwitched(outcome) => SaveStep::Finish { answer: outcome },
    }
}

/// Saves the settings step by step: first the file, then starting with the system. The first
/// failure ends it and is the answer.
pub fn save_settings(settings: &AppSettings, event: SaveEvent) -> (step: SaveStep)
    ensures
        step == save_step_after(settings.autostart, event),
{
    match event {
        SaveEvent::Serialized(outcome) => match outcome {
            Ok(data) => SaveStep::Write { data },
            Err(reason) => SaveStep::Finish { answer: Err(reason) },
        },
        SaveEvent::Written(outcome) => match outcome {
            Ok(()) => SaveStep::SwitchAutostart { enable: settings.autostart },
            Err(reason) => SaveStep::Finish { answer: Err(reason) },
        },
        SaveEvent::AutostartSwitched(outcome) => SaveStep::Finish { answer: outcome },
    }
}

/// An event answers a step: it reports on the very thing that the step asks for.
pub open spec fn event_answers(step: SaveStep, event: SaveEvent) -> bool {
    match step {
        SaveStep::Write { .. } => event is Written,
        SaveStep::SwitchAutostart { .. } => event is AutostartSwitched,
        SaveStep::Finish { .. } => false,
    }
}

/// The failure that an event reports.
pub open spec fn failure_of(event: SaveEvent) -> Option<String> {
    match event {
        SaveEvent::Serialized(Err(reason)) => Some(reason),
        SaveEvent::Written(Err(reason)) => Some(reason),
        SaveEvent::AutostartSwitched(Err(reason)) => Some(reason),
        _ => None,
    }
}

/// A failure ends the saving at once, and is the answer.
pub proof fn saving_ends_at_the_first_failure(autostart: bool, event: SaveEvent)
    ensures
        failure_of(event) matches Some(reason) ==> save_step_after(autostart, event)
            == (SaveStep::Finish { answer: Err(reason) }),
        failure_of(event) is None ==> !(save_step_after(autostart, event) matches SaveStep::Finish {
            answer: Err(_),
        }),
{
}

/// Starting with the system is touched only right after the file was written, and then as the
/// settings say.
pub proof fn autostart_follows_the_file(autostart: bool, event: SaveEvent)
    ensures
        save_step_after(autostart, event) matches SaveStep::SwitchAutostart { enable } ==> enable
            == autostart && event matches SaveEvent::Written(Ok(_)),
{
}

/// Where nothing fails, the text of the settings is written first, then starting with the system is
/// switched, and the answer is a success.
pub proof fn saving_without_failure(
    autostart: bool,
    serialized: SaveEvent,
    written: SaveEvent,
    switched: SaveEvent,
)
    requires
        serialized is Serialized,
        event_answers(save_step_after(autostart, serialized), written),
        event_answers(save_step_after(autostart, written), switched),
        failure_of(switched) is None,
    ensures
        serialized matches SaveEvent::Serialized(Ok(data)) && save_step_after(autostart, serialized)
            == (SaveStep::Write { data }),
        save_step_after(autostart, written) == (SaveStep::SwitchAutostart { enable: autostart }),
        save_step_after(autostart, switched) matches SaveStep::Finish { answer: Ok(_) },
{
}

/// Settings that were saved are the ones to work with later, if the format of the file, which
/// turns settings into `text` and a text into what `read` says, reads what it wrote.
pub proof fn saved_settings_are_loaded(
    saved: AppSettings,
    text: String,
    read: spec_fn(String) -> SettingsFile,
    loaded: AppSettings,
)
    requires
        read(text) == (SettingsFile::Holds { settings: saved }),
        save_step_after(saved.autostart, SaveEvent::Serialized(Ok(text))) matches SaveStep::Write {
            data,
        } && loads_as(read(data), loaded),
    ensures
        loaded == saved,
{
}

/// What was turned into text is written, and no other text, whatever it is.
pub proof fn text_of_settings_is_written(settings: &AppSettings, text: String, step: SaveStep)
    requires
        call_ensures(save_settings, (settings, SaveEvent::Serialized(Ok(text))), step),
    ensures
        step matches SaveStep::Write { data } && data@ == text@,
{
}

/// Once the file is written, starting with the system is switched as these settings wish it.
pub proof fn written_settings_switch_autostart(settings: &AppSettings, step: SaveStep)
    requires
        call_ensures(save_settings, (settings, SaveEvent::Written(Ok(()))), step),
    ensures
        step matches SaveStep::SwitchAutostart { enable } && enable == settings.autostart,
{
}

/// A success is answered exactly once starting with the system was switched, which is the last
/// step, and never before.
pub proof fn success_comes_last(settings: &AppSettings, event: SaveEvent, step: SaveStep)
    requires
        call_ensures(save_settings, (settings, event), step),
    ensures
        (step matches SaveStep::Finish { answer: Ok(_) }) <==> (
        event matches SaveEvent::AutostartSwitched(Ok(_))),
{
}

/// A failure is answered exactly where the last thing done failed, and in its own words.
pub proof fn failures_are_answered(settings: &AppSettings, event: SaveEvent, step: SaveStep)
    requires
        call_ensures(save_settings, (settings, event), step),
    ensures
        event matches SaveEvent::Serialized(Err(reason)) ==> step matches SaveStep::Finish {
            answer: Err(message),
        } && message@ == reason@,
        event matches SaveEvent::Written(Err(reason)) ==> step matches SaveStep::Finish {
            answer: Err(message),
        } && message@ == reason@,
        event matches SaveEvent::AutostartSwitched(Err(reason)) ==> step matches SaveStep::Finish {
            answer: Err(message),
        } && message@ == reason@,
        step matches SaveStep::Finish { answer: Err(_) } ==> (event matches SaveEvent::Serialized(
            Err(_),
        )) || (event matches SaveEvent::Written(Err(_))) || (
        event matches SaveEvent::AutostartSwitched(Err(_))),
{
}

/// A saving in which nothing fails takes three steps: the text is written, starting with the system
/// is switched as the settings wish it, and the answer is a success.
pub proof fn saving_takes_three_steps(
    settings: &AppSettings,
    text: String,
    first: SaveStep,
    second: SaveStep,
    third: SaveStep,
)
    requires
        call_ensures(save_settings, (settings, SaveEvent::Serialized(Ok(text))), first),
        call_ensures(save_settings, (settings, SaveEvent::Written(Ok(()))), second),
        call_ensures(save_settings, (settings, SaveEvent::AutostartSwitched(Ok(()))), third),
    ensures
        first matches SaveStep::Write { data } && data@ == text@,
        second matches SaveStep::SwitchAutostart { enable } && enable == settings.autostart,
        third matches SaveStep::Finish { answer: Ok(_) },
{
}

/// How a saving goes on depends on nothing but the wish to start with the system: neither the
/// colours nor any other setting has a say.
pub proof fn only_autostart_steers_the_saving(
    settings: &AppSettings,
    others: &AppSettings,
    event: SaveEvent,
    step: SaveStep,
    same: SaveStep,
)
    requires
        settings.autostart == others.autostart,
        call_ensures(save_settings, (settings, event), step),
        call_ensures(save_settings, (others, event), same),
    ensures
        step == same,
{
}

/// Settings in the file are taken as they stand there, every one of them.
pub proof fn settings_of_the_file_are_taken(held: AppSettings, settings: AppSettings)
    requires
        call_ensures(load_settings, (SettingsFile::Holds { settings: held },), settings),
    ensures
        settings.theme@ == held.theme@,
        settings.custom_theme@ == held.custom_theme@,
        settings.background@ == held.background@,
        settings.custom_background@ == held.custom_background@,
        settings.notification_height_bits == held.notification_height_bits,
        settings.autostart == held.autostart,
        settings.start_minimized == held.start_minimized,
        settings.sound_volume_bits == held.sound_volume_bits,
        settings.sound_enabled == held.sound_enabled,
        settings.use_native_notifications == held.use_native_notifications,
{
}

/// A file that is not there and one that cannot be made out give the same settings: red on dark,
/// popups of height 80, half the volume with sounds on, and everything else off.
pub proof fn missing_settings_are_the_defaults(file: SettingsFile, settings: AppSettings)
    requires
        file is Unreadable || file is Malformed,
        call_ensures(load_settings, (file,), settings),
    ensures
        settings.theme@ == "red"@,
        settings.custom_theme@ == "#e74c3c"@,
        settings.background@ == "dark"@,
        settings.custom_background@ == "#1a1a2e"@,
        settings.notification_height_bits == 0x4054_0000_0000_0000,
        !settings.autostart,
        !settings.start_minimized,
        settings.sound_volume_bits == 0x3F00_0000,
        settings.sound_enabled,
        !settings.use_native_notifications,
{
}

/// What was written by a saving is what a later start works with, if the format of the file reads
/// what it wrote: `read` says what it makes of a text.
pub proof fn written_settings_come_back(
    saved: AppSettings,
    text: String,
    step: SaveStep,
    read: spec_fn(Seq<char>) -> SettingsFile,
    loaded: AppSettings,
)
    requires
        read(text@) == (SettingsFile::Holds { settings: saved }),
        call_ensures(save_settings, (&saved, SaveEvent::Serialized(Ok(text))), step),
        step matches SaveStep::Write { data } ==> call_ensures(
            load_settings,
            (read(data@),),
            loaded,
        ),
    ensures
        step is Write,
        loaded == saved,
{
}

/// The main window is seen at the start exactly where the settings do not ask to start hidden,
/// whatever else they say.
pub proof fn windows_start_as_wished(settings: &AppSettings, visible: bool)
    requires
        call_ensures(starts_visible, (settings,), visible),
    ensures
        visible <==> !settings.start_minimized,
{
}

} // verus!
