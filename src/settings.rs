use vstd::prelude::*;

verus! {

/// The timer settings: the length in seconds of a work session, of a short
/// break and of a long break, how many work sessions come before a long
/// break, and three toggles.
#[derive(Clone, Copy, Debug, PartialEq, Eq, Structural)]
pub struct Settings {
    work_duration: u32,
    short_break: u32,
    long_break: u32,
    sessions_until_long_break: u32,
    auto_start_breaks: bool,
    auto_start_pomodoros: bool,
    notifications_enabled: bool,
}

/// The seven fields of the settings, as plain values.
pub struct SettingsModel {
    pub work_duration: u32,
    pub short_break: u32,
    pub long_break: u32,
    pub sessions_until_long_break: u32,
    pub auto_start_breaks: bool,
    pub auto_start_pomodoros: bool,
    pub notifications_enabled: bool,
}

/// The flat field record that the settings are written to and read back
/// from, in declaration order.
pub type SettingsFields = (u32, u32, u32, u32, bool, bool, bool);

/// The model of a flat field record.
pub open spec fn settings_fields_model(f: SettingsFields) -> SettingsModel {
    SettingsModel {
        work_duration: f.0,
        short_break: f.1,
        long_break: f.2,
        sessions_until_long_break: f.3,
        auto_start_breaks: f.4,
        auto_start_pomodoros: f.5,
        notifications_enabled: f.6,
    }
}

impl View for Settings {
    type V = SettingsModel;

    closed spec fn view(&self) -> SettingsModel {
        SettingsModel {
            work_duration: self.work_duration,
            short_break: self.short_break,
            long_break: self.long_break,
            sessions_until_long_break: self.sessions_until_long_break,
            auto_start_breaks: self.auto_start_breaks,
            auto_start_pomodoros: self.auto_start_pomodoros,
            notifications_enabled: self.notifications_enabled,
        }
    }
}

impl Settings {
    /// Settings with the given fields, taken as they are.
    pub fn new(
        work_duration: u32,
        short_break: u32,
        long_break: u32,
        sessions_until_long_break: u32,
        auto_start_breaks: bool,
        auto_start_pomodoros: bool,
        notifications_enabled: bool,
    ) -> (r: Settings)
        ensures
            r@ == settings_fields_model(
                (
                    work_duration,
                    short_break,
                    long_break,
                    sessions_until_long_break,
                    auto_start_breaks,
                    auto_start_pomodoros,
                    notifications_enabled,
                ),
            ),
    {
        Settings {
            work_duration,
            short_break,
            long_break,
            sessions_until_long_break,
            auto_start_breaks,
            auto_start_pomodoros,
            notifications_enabled,
        }
    }

    /// Reads settings back from their flat field record.
    pub fn from_fields(f: SettingsFields) -> (r: Settings)
        ensures
            r@ == settings_fields_model(f),
    {
        Settings::new(f.0, f.1, f.2, f.3, f.4, f.5, f.6)
    }

    /// Writes the settings out as their flat field record.
    pub fn to_fields(&self) -> (r: SettingsFields)
        ensures
            settings_fields_model(r) == self@,
    {
        (
            self.work_duration,
            self.short_break,
            self.long_break,
            self.sessions_until_long_break,
            self.auto_start_breaks,
            self.auto_start_pomodoros,
            self.notifications_enabled,
        )
    }

    pub fn work_duration(&self) -> (r: u32)
        ensures
            r == self@.work_duration,
    {
        self.work_duration
    }

    pub fn short_break(&self) -> (r: u32)
        ensures
            r == self@.short_break,
    {
        self.short_break
    }

    pub fn long_break(&self) -> (r: u32)
        ensures
            r == self@.long_break,
    {
        self.long_break
    }

    pub fn sessions_until_long_break(&self) -> (r: u32)
        ensures
            r == self@.sessions_until_long_break,
    {
        self.sessions_until_long_break
    }

    pub fn auto_start_breaks(&self) -> (r: bool)
        ensures
            r == self@.auto_start_breaks,
    {
        self.auto_start_breaks
    }

    pub fn auto_start_pomodoros(&self) -> (r: bool)
        ensures
            r == self@.auto_start_pomodoros,
    {
        self.auto_start_pomodoros
    }

    pub fn notifications_enabled(&self) -> (r: bool)
        ensures
            r == self@.notifications_enabled,
    {
        self.notifications_enabled
    }
}

/// Writing the settings out and reading them back loses no field: the field
/// record holds each of the seven fields, the three toggles included, and the
/// settings read back from it equal those written.
pub proof fn lemma_settings_round_trip(s: SettingsModel, f: SettingsFields)
    requires
        settings_fields_model(f) == s,
    ensures
        f == (
            s.work_duration,
            s.short_break,
            s.long_break,
            s.sessions_until_long_break,
            s.auto_start_breaks,
            s.auto_start_pomodoros,
            s.notifications_enabled,
        ),
{
}

} // verus!
