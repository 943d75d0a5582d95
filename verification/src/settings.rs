//! The user's settings: what they are before anything is stored, how they are read back at
//! start-up, and how a change reaches both the storage and the value in memory.
//!
//! A change takes two steps. [`Setting::write`] says what to write to the storage. Once the
//! storage has answered, the setter of that setting is told whether the value was written, and
//! takes it over only then.
use vstd::prelude::*;

use crate::storage;
use crate::storage::{StorageWrite, StoredValue};

verus! {

pub const SETTINGS_NAMESPACE_KEY: &'static str = "settings";

pub const DISPLAY_BRIGHTNESS_SETTINGS_KEY: &'static str = "dis-bri";

pub const DISPLAY_BRIGHTNESS_DEFAULT: u8 = 127;

pub const DISPLAY_TIMEOUT_SETTINGS_KEY: &'static str = "dis-tim";

pub const DISPLAY_TIMEOUT_DEFAULT: u8 = 5;

pub const TIMEZONE_OFFSET_SETTINGS_KEY: &'static str = "tz-offset";

pub const TIMEZONE_OFFSET_DEFAULT: i32 = 0;

pub const TIMESTAMP_SETTINGS_KEY: &'static str = "timest";

pub const TIMESTAMP_DEFAULT: i64 = 0;

pub const TIMESTAMP_OFFSET_SETTINGS_KEY: &'static str = "timest-off";

pub const TIMESTAMP_OFFSET_DEFAULT: u64 = 0;

pub const SMART_GLASSES_SCAN_DURATION_SETTINGS_KEY: &'static str = "smrt-dur";

pub const SMART_GLASSES_SCAN_DURATION_DEFAULT: u8 = 10;

pub const REMOTE_ID_SCAN_DURATION_SETTINGS_KEY: &'static str = "rmtid-dur";

pub const REMOTE_ID_SCAN_DURATION_DEFAULT: u8 = 10;

/// One setting with the value that it is to have.
#[derive(Clone, Copy, PartialEq, Eq, Structural, Debug)]
pub enum Setting {
    /// How bright the display is.
    DisplayBrightness(u8),
    /// Seconds without a touch after which the display is switched off, or 0 for never.
    DisplayTimeout(u8),
    /// Hours that the local clock is ahead of UTC.
    TimezoneOffset(i32),
    /// Microseconds since January 1, 1970, UTC, when the clock was last set.
    Timestamp(i64),
    /// Microseconds since start-up when the clock was last set.
    TimestampOffset(u64),
    /// Seconds that a scan for smart glasses lasts.
    SmartGlassesScanDuration(u8),
    /// Seconds that a scan for Remote Id lasts.
    RemoteIdScanDuration(u8),
}

/// The values of all settings.
pub struct SettingsState {
    pub display_brightness: u8,
    pub display_timeout: u8,
    pub timezone_offset: i32,
    pub timestamp: i64,
    pub timestamp_offset: u64,
    pub smart_glasses_scan_duration: u8,
    pub remote_id_scan_duration: u8,
}

/// The settings before anything was stored.
pub open spec fn default_state() -> SettingsState {
    SettingsState {
        display_brightness: DISPLAY_BRIGHTNESS_DEFAULT,
        display_timeout: DISPLAY_TIMEOUT_DEFAULT,
        timezone_offset: TIMEZONE_OFFSET_DEFAULT,
        timestamp: TIMESTAMP_DEFAULT,
        timestamp_offset: TIMESTAMP_OFFSET_DEFAULT,
        smart_glasses_scan_duration: SMART_GLASSES_SCAN_DURATION_DEFAULT,
        remote_id_scan_duration: REMOTE_ID_SCAN_DURATION_DEFAULT,
    }
}

impl Setting {
    /// The key under which the setting is stored.
    pub open spec fn key(self) -> Seq<char> {
        match self {
            Setting::DisplayBrightness(_) => DISPLAY_BRIGHTNESS_SETTINGS_KEY@,
            Setting::DisplayTimeout(_) => DISPLAY_TIMEOUT_SETTINGS_KEY@,
            Setting::TimezoneOffset(_) => TIMEZONE_OFFSET_SETTINGS_KEY@,
            Setting::Timestamp(_) => TIMESTAMP_SETTINGS_KEY@,
            Setting::TimestampOffset(_) => TIMESTAMP_OFFSET_SETTINGS_KEY@,
            Setting::SmartGlassesScanDuration(_) => SMART_GLASSES_SCAN_DURATION_SETTINGS_KEY@,
            Setting::RemoteIdScanDuration(_) => REMOTE_ID_SCAN_DURATION_SETTINGS_KEY@,
        }
    }

    /// The value that is stored.
    pub open spec fn value(self) -> StoredValue {
        match self {
            Setting::DisplayBrightness(value) => StoredValue::U8(value),
            Setting::DisplayTimeout(value) => StoredValue::U8(value),
            Setting::TimezoneOffset(value) => StoredValue::I32(value),
            Setting::Timestamp(value) => StoredValue::I64(value),
            Setting::TimestampOffset(value) => StoredValue::U64(value),
            Setting::SmartGlassesScanDuration(value) => StoredValue::U8(value),
            Setting::RemoteIdScanDuration(value) => StoredValue::U8(value),
        }
    }

    /// The settings with this one changed and the others as they were.
    pub open spec fn applied(self, state: SettingsState) -> SettingsState {
        match self {
            Setting::DisplayBrightness(value) => SettingsState {
                display_brightness: value,
                ..state
            },
            Setting::DisplayTimeout(value) => SettingsState { display_timeout: value, ..state },
            Setting::TimezoneOffset(value) => SettingsState { timezone_offset: value, ..state },
            Setting::Timestamp(value) => SettingsState { timestamp: value, ..state },
            Setting::TimestampOffset(value) => SettingsState { timestamp_offset: value, ..state },
            Setting::SmartGlassesScanDuration(value) => SettingsState {
                smart_glasses_scan_duration: value,
                ..state
            },
            Setting::RemoteIdScanDuration(value) => SettingsState {
                remote_id_scan_duration: value,
                ..state
            },
        }
    }

    /// Whether the settings hold this value.
    pub open spec fn holds_in(self, state: SettingsState) -> bool {
        match self {
            Setting::DisplayBrightness(value) => state.display_brightness == value,
            Setting::DisplayTimeout(value) => state.display_timeout == value,
            Setting::TimezoneOffset(value) => state.timezone_offset == value,
            Setting::Timestamp(value) => state.timestamp == value,
            Setting::TimestampOffset(value) => state.timestamp_offset == value,
            Setting::SmartGlassesScanDuration(value) => state.smart_glasses_scan_duration == value,
            Setting::RemoteIdScanDuration(value) => state.remote_id_scan_duration == value,
        }
    }

    /// Whether the other is a value of the same setting.
    pub open spec fn same_setting(self, other: Setting) -> bool {
        match (self, other) {
            (Setting::DisplayBrightness(_), Setting::DisplayBrightness(_)) => true,
            (Setting::DisplayTimeout(_), Setting::DisplayTimeout(_)) => true,
            (Setting::TimezoneOffset(_), Setting::TimezoneOffset(_)) => true,
            (Setting::Timestamp(_), Setting::Timestamp(_)) => true,
            (Setting::TimestampOffset(_), Setting::TimestampOffset(_)) => true,
            (Setting::SmartGlassesScanDuration(_), Setting::SmartGlassesScanDuration(_)) => true,
            (Setting::RemoteIdScanDuration(_), Setting::RemoteIdScanDuration(_)) => true,
            _ => false,
        }
    }

    /// Whether the setting is read back from the storage at start-up.
    pub open spec fn restored(self) -> bool {
        match self {
            Setting::DisplayBrightness(_) => true,
            Setting::DisplayTimeout(_) => true,
            Setting::TimezoneOffset(_) => true,
            Setting::Timestamp(_) => true,
            Setting::TimestampOffset(_) => false,
            Setting::SmartGlassesScanDuration(_) => false,
            Setting::RemoteIdScanDuration(_) => false,
        }
    }

    /// What to write to the storage to make the setting last.
    pub fn write(self) -> (write: StorageWrite)
        ensures
            write.namespace@ == SETTINGS_NAMESPACE_KEY@,
            write.key@ == self.key(),
            write.value == self.value(),
    {
        let (key, value) = match self {
            Setting::DisplayBrightness(value) => (
                DISPLAY_BRIGHTNESS_SETTINGS_KEY,
                StoredValue::U8(value),
            ),
            Setting::DisplayTimeout(value) => (
                DISPLAY_TIMEOUT_SETTINGS_KEY,
                StoredValue::U8(value),
            ),
            Setting::TimezoneOffset(value) => (
                TIMEZONE_OFFSET_SETTINGS_KEY,
                StoredValue::I32(value),
            ),
            Setting::Timestamp(value) => (TIMESTAMP_SETTINGS_KEY, StoredValue::I64(value)),
            Setting::TimestampOffset(value) => (
                TIMESTAMP_OFFSET_SETTINGS_KEY,
                StoredValue::U64(value),
            ),
            Setting::SmartGlassesScanDuration(value) => (
                SMART_GLASSES_SCAN_DURATION_SETTINGS_KEY,
                StoredValue::U8(value),
            ),
            Setting::RemoteIdScanDuration(value) => (
                REMOTE_ID_SCAN_DURATION_SETTINGS_KEY,
                StoredValue::U8(value),
            ),
        };
        StorageWrite { namespace: SETTINGS_NAMESPACE_KEY, key, value }
    }
}

/// What the storage gave for the settings that are read back at start-up. `None` stands for a key
/// that could not be read.
#[derive(Clone, Copy, PartialEq, Eq, Structural, Debug)]
pub struct StoredSettings {
    /// Read under [`DISPLAY_BRIGHTNESS_SETTINGS_KEY`].
    pub display_brightness: Option<u8>,
    /// Read under [`DISPLAY_TIMEOUT_SETTINGS_KEY`].
    pub display_timeout: Option<u8>,
    /// Read under [`TIMEZONE_OFFSET_SETTINGS_KEY`].
    pub timezone_offset: Option<i32>,
    /// Read under [`TIMESTAMP_SETTINGS_KEY`].
    pub timestamp: Option<i64>,
}

/// A value read from the storage, or its default where there is none.
pub open spec fn value_or<T>(value: Option<T>, default: T) -> T {
    match value {
        Some(value) => value,
        None => default,
    }
}

impl StoredSettings {
    /// The settings after start-up: those that were read, with their defaults where they could not
    /// be; the time of the last setting of the clock forgotten; the others as they were.
    pub open spec fn restore(self, state: SettingsState) -> SettingsState {
        SettingsState {
            display_brightness: value_or(self.display_brightness, DISPLAY_BRIGHTNESS_DEFAULT),
            display_timeout: value_or(self.display_timeout, DISPLAY_TIMEOUT_DEFAULT),
            timezone_offset: value_or(self.timezone_offset, TIMEZONE_OFFSET_DEFAULT),
            timestamp: value_or(self.timestamp, TIMESTAMP_DEFAULT),
            timestamp_offset: TIMESTAMP_OFFSET_DEFAULT,
            ..state
        }
    }
}

/// What reading the namespace of the settings gives.
pub open spec fn read_back(contents: storage::Contents) -> StoredSettings {
    StoredSettings {
        display_brightness: storage::stored_u8(contents, DISPLAY_BRIGHTNESS_SETTINGS_KEY@),
        display_timeout: storage::stored_u8(contents, DISPLAY_TIMEOUT_SETTINGS_KEY@),
        timezone_offset: storage::stored_i32(contents, TIMEZONE_OFFSET_SETTINGS_KEY@),
        timestamp: storage::stored_i64(contents, TIMESTAMP_SETTINGS_KEY@),
    }
}

/// The settings in memory, and a handle to the storage that they are kept in.
pub struct Settings<S: 'static> {
    storage: &'static S,
    display_brightness: u8,
    display_timeout: u8,
    timezone_offset: i32,
    timestamp: i64,
    timestamp_offset: u64,
    smart_glasses_scan_duration: u8,
    remote_id_scan_duration: u8,
}

impl<S: 'static> View for Settings<S> {
    type V = SettingsState;

    closed spec fn view(&self) -> SettingsState {
        SettingsState {
            display_brightness: self.display_brightness,
            display_timeout: self.display_timeout,
            timezone_offset: self.timezone_offset,
            timestamp: self.timestamp,
            timestamp_offset: self.timestamp_offset,
            smart_glasses_scan_duration: self.smart_glasses_scan_duration,
            remote_id_scan_duration: self.remote_id_scan_duration,
        }
    }
}

impl<S: 'static> Settings<S> {
    /// The storage that the settings were made with.
    pub closed spec fn storage_handle(self) -> S {
        *self.storage
    }

    /// Settings with their default values.
    pub fn new(storage: &'static S) -> (settings: Self)
        ensures
            settings@ == default_state(),
            settings.storage_handle() == *storage,
    {
        Settings {
            storage,
            display_brightness: DISPLAY_BRIGHTNESS_DEFAULT,
            display_timeout: DISPLAY_TIMEOUT_DEFAULT,
            timezone_offset: TIMEZONE_OFFSET_DEFAULT,
            timestamp: TIMESTAMP_DEFAULT,
            timestamp_offset: TIMESTAMP_OFFSET_DEFAULT,
            smart_glasses_scan_duration: SMART_GLASSES_SCAN_DURATION_DEFAULT,
            remote_id_scan_duration: REMOTE_ID_SCAN_DURATION_DEFAULT,
        }
    }

    /// The settings as they are after start-up, given what the storage holds.
    pub fn init(self, stored: StoredSettings) -> (settings: Self)
        ensures
            settings@ == stored.restore(self@),
            stored.display_brightness matches Some(value) ==> settings@.display_brightness == value,
            stored.display_brightness is None ==> settings@.display_brightness
                == DISPLAY_BRIGHTNESS_DEFAULT,
            stored.display_timeout matches Some(value) ==> settings@.display_timeout == value,
            stored.display_timeout is None ==> settings@.display_timeout == DISPLAY_TIMEOUT_DEFAULT,
            stored.timezone_offset matches Some(value) ==> settings@.timezone_offset == value,
            stored.timezone_offset is None ==> settings@.timezone_offset == TIMEZONE_OFFSET_DEFAULT,
            stored.timestamp matches Some(value) ==> settings@.timestamp == value,
            stored.timestamp is None ==> settings@.timestamp == TIMESTAMP_DEFAULT,
            settings@.timestamp_offset == 0,
            settings@.smart_glasses_scan_duration == self@.smart_glasses_scan_duration,
            settings@.remote_id_scan_duration == self@.remote_id_scan_duration,
            settings.storage_handle() == self.storage_handle(),
    {
        let mut settings = self;
        settings.display_brightness = stored.display_brightness.unwrap_or(
            DISPLAY_BRIGHTNESS_DEFAULT,
        );
        settings.display_timeout = stored.display_timeout.unwrap_or(DISPLAY_TIMEOUT_DEFAULT);
        settings.timezone_offset = stored.timezone_offset.unwrap_or(TIMEZONE_OFFSET_DEFAULT);
        settings.timestamp = stored.timestamp.unwrap_or(TIMESTAMP_DEFAULT);
        settings.timestamp_offset = TIMESTAMP_OFFSET_DEFAULT;
        settings
    }

    /// The storage that the settings were made with.
    pub fn storage(&self) -> (storage: &'static S)
        ensures
            *storage == self.storage_handle(),
    {
        self.storage
    }

    pub fn get_display_brightness(&self) -> (brightness: u8)
        ensures
            brightness == self@.display_brightness,
    {
        self.display_brightness
    }

    /// Takes over the brightness if it was stored.
    pub fn set_display_brightness(&mut self, brightness: u8, stored: bool)
        ensures
            final(self)@ == (if stored {
                Setting::DisplayBrightness(brightness).applied(old(self)@)
            } else {
                old(self)@
            }),
            stored ==> final(self)@ == (SettingsState {
                display_brightness: brightness,
                ..old(self)@
            }),
            final(self).storage_handle() == old(self).storage_handle(),
    {
        if stored {
            self.display_brightness = brightness;
        }
    }

    pub fn get_display_timeout(&self) -> (timeout: u8)
        ensures
            timeout == self@.display_timeout,
    {
        self.display_timeout
    }

    /// Takes over the display time-out if it was stored.
    pub fn set_display_timeout(&mut self, timeout: u8, stored: bool)
        ensures
            final(self)@ == (if stored {
                Setting::DisplayTimeout(timeout).applied(old(self)@)
            } else {
                old(self)@
            }),
            stored ==> final(self)@ == (SettingsState { display_timeout: timeout, ..old(self)@ }),
            final(self).storage_handle() == old(self).storage_handle(),
    {
        if stored {
            self.display_timeout = timeout;
        }
    }

    pub fn get_timezone_offset(&self) -> (offset: i32)
        ensures
            offset == self@.timezone_offset,
    {
        self.timezone_offset
    }

    /// Takes over the offset of the time zone if it was stored.
    pub fn set_timezone_offset(&mut self, offset: i32, stored: bool)
        ensures
            final(self)@ == (if stored {
                Setting::TimezoneOffset(offset).applied(old(self)@)
            } else {
                old(self)@
            }),
            stored ==> final(self)@ == (SettingsState { timezone_offset: offset, ..old(self)@ }),
            final(self).storage_handle() == old(self).storage_handle(),
    {
        if stored {
            self.timezone_offset = offset;
        }
    }

    pub fn get_timestamp(&self) -> (timestamp: i64)
        ensures
            timestamp == self@.timestamp,
    {
        self.timestamp
    }

    /// Takes over the timestamp if it was stored.
    pub fn set_timestamp(&mut self, timestamp: i64, stored: bool)
        ensures
            final(self)@ == (if stored {
                Setting::Timestamp(timestamp).applied(old(self)@)
            } else {
                old(self)@
            }),
            stored ==> final(self)@ == (SettingsState { timestamp, ..old(self)@ }),
            final(self).storage_handle() == old(self).storage_handle(),
    {
        if stored {
            self.timestamp = timestamp;
        }
    }

    /// Takes over the time at which the timestamp was set, if it was stored.
    pub fn set_timestamp_offset(&mut self, timestamp_offset: u64, stored: bool)
        ensures
            final(self)@ == (if stored {
                Setting::TimestampOffset(timestamp_offset).applied(old(self)@)
            } else {
                old(self)@
            }),
            stored ==> final(self)@ == (SettingsState { timestamp_offset, ..old(self)@ }),
            final(self).storage_handle() == old(self).storage_handle(),
    {
        if stored {
            self.timestamp_offset = timestamp_offset;
        }
    }

    pub fn get_timestamp_offset(&self) -> (timestamp_offset: u64)
        ensures
            timestamp_offset == self@.timestamp_offset,
    {
        self.timestamp_offset
    }

    /// Takes over the duration of a scan for smart glasses if it was stored.
    pub fn set_smart_glasses_scan_duration(&mut self, scan_duration: u8, stored: bool)
        ensures
            final(self)@ == (if stored {
                Setting::SmartGlassesScanDuration(scan_duration).applied(old(self)@)
            } else {
                old(self)@
            }),
            stored ==> final(self)@ == (SettingsState {
                smart_glasses_scan_duration: scan_duration,
                ..old(self)@
            }),
            final(self).storage_handle() == old(self).storage_handle(),
    {
        if stored {
            self.smart_glasses_scan_duration = scan_duration;
        }
    }

    pub fn get_smart_glasses_scan_duration(&self) -> (scan_duration: u8)
        ensures
            scan_duration == self@.smart_glasses_scan_duration,
    {
        self.smart_glasses_scan_duration
    }

    /// Takes over the duration of a scan for Remote Id if it was stored.
    pub fn set_remote_id_scan_duration(&mut self, scan_duration: u8, stored: bool)
        ensures
            final(self)@ == (if stored {
                Setting::RemoteIdScanDuration(scan_duration).applied(old(self)@)
            } else {
                old(self)@
            }),
            stored ==> final(self)@ == (SettingsState {
                remote_id_scan_duration: scan_duration,
                ..old(self)@
            }),
            final(self).storage_handle() == old(self).storage_handle(),
    {
        if stored {
            self.remote_id_scan_duration = scan_duration;
        }
    }

    pub fn get_remote_id_scan_duration(&self) -> (scan_duration: u8)
        ensures
            scan_duration == self@.remote_id_scan_duration,
    {
        self.remote_id_scan_duration
    }

    /// Takes over a setting if it was stored.
    pub fn set(&mut self, setting: Setting, stored: bool)
        ensures
            final(self)@ == (if stored {
                setting.applied(old(self)@)
            } else {
                old(self)@
            }),
            final(self).storage_handle() == old(self).storage_handle(),
    {
        match setting {
            Setting::DisplayBrightness(value) => self.set_display_brightness(value, stored),
            Setting::DisplayTimeout(value) => self.set_display_timeout(value, stored),
            Setting::TimezoneOffset(value) => self.set_timezone_offset(value, stored),
            Setting::Timestamp(value) => self.set_timestamp(value, stored),
            Setting::TimestampOffset(value) => self.set_timestamp_offset(value, stored),
            Setting::SmartGlassesScanDuration(value) => self.set_smart_glasses_scan_duration(
                value,
                stored,
            ),
            Setting::RemoteIdScanDuration(value) => self.set_remote_id_scan_duration(
                value,
                stored,
            ),
        }
    }
}

/// The namespace and the keys are names that the storage takes.
pub proof fn names_fit_storage(setting: Setting)
    ensures
        storage::valid_name(SETTINGS_NAMESPACE_KEY@),
        storage::valid_name(setting.key()),
{
    reveal_strlit("settings");
    reveal_strlit("dis-bri");
    reveal_strlit("dis-tim");
    reveal_strlit("tz-offset");
    reveal_strlit("timest");
    reveal_strlit("timest-off");
    reveal_strlit("smrt-dur");
    reveal_strlit("rmtid-dur");
}

/// Two values share a key exactly when they are values of the same setting, so that what is stored
/// for one setting never replaces what is stored for another.
pub proof fn keys_tell_settings_apart(setting: Setting, other: Setting)
    ensures
        setting.key() == other.key() <==> setting.same_setting(other),
{
    reveal_strlit("dis-bri");
    reveal_strlit("dis-tim");
    reveal_strlit("tz-offset");
    reveal_strlit("timest");
    reveal_strlit("timest-off");
    reveal_strlit("smrt-dur");
    reveal_strlit("rmtid-dur");
    assert(DISPLAY_BRIGHTNESS_SETTINGS_KEY@[4] == 'b' && DISPLAY_TIMEOUT_SETTINGS_KEY@[4] == 't');
    assert(TIMEZONE_OFFSET_SETTINGS_KEY@[0] == 't' && REMOTE_ID_SCAN_DURATION_SETTINGS_KEY@[0]
        == 'r');
    assert(DISPLAY_BRIGHTNESS_SETTINGS_KEY@.len() == 7 && DISPLAY_TIMEOUT_SETTINGS_KEY@.len() == 7);
    assert(TIMEZONE_OFFSET_SETTINGS_KEY@.len() == 9 && REMOTE_ID_SCAN_DURATION_SETTINGS_KEY@.len()
        == 9);
    assert(TIMESTAMP_SETTINGS_KEY@.len() == 6 && TIMESTAMP_OFFSET_SETTINGS_KEY@.len() == 10);
    assert(SMART_GLASSES_SCAN_DURATION_SETTINGS_KEY@.len() == 8);
}

/// A setting that was stored is the one that is read afterwards, and no other setting changes.
pub proof fn set_then_get(state: SettingsState, setting: Setting, other: Setting)
    ensures
        setting.holds_in(setting.applied(state)),
        !setting.same_setting(other) ==> other.holds_in(setting.applied(state)) == other.holds_in(
            state,
        ),
{
}

/// A setting that was stored, and that is read back at start-up, has its value after a restart.
pub proof fn stored_setting_survives_restart(contents: storage::Contents, setting: Setting)
    requires
        setting.restored(),
    ensures
        setting.holds_in(
            read_back(contents.insert(setting.key(), setting.value())).restore(default_state()),
        ),
{
}

/// Storing a setting changes no other setting that a restart brings back.
pub proof fn storing_keeps_other_settings(
    contents: storage::Contents,
    setting: Setting,
    other: Setting,
)
    requires
        !setting.same_setting(other),
    ensures
        other.holds_in(
            read_back(contents.insert(setting.key(), setting.value())).restore(default_state()),
        ) == other.holds_in(read_back(contents).restore(default_state())),
{
    keys_tell_settings_apart(setting, Setting::DisplayBrightness(0));
    keys_tell_settings_apart(setting, Setting::DisplayTimeout(0));
    keys_tell_settings_apart(setting, Setting::TimezoneOffset(0));
    keys_tell_settings_apart(setting, Setting::Timestamp(0));
}

/// Whether the settings in memory are those that a restart would bring back, as far as a restart
/// brings any back.
pub open spec fn mirrored(state: SettingsState, contents: storage::Contents) -> bool {
    let restarted = read_back(contents).restore(default_state());
    &&& state.display_brightness == restarted.display_brightness
    &&& state.display_timeout == restarted.display_timeout
    &&& state.timezone_offset == restarted.timezone_offset
    &&& state.timestamp == restarted.timestamp
}

/// After start-up the settings in memory are those of the storage.
pub proof fn init_mirrors_storage(state: SettingsState, contents: storage::Contents)
    ensures
        mirrored(read_back(contents).restore(state), contents),
{
}

/// A change keeps the settings in memory those of the storage, whether or not the storage took it.
pub proof fn set_mirrors_storage(
    state: SettingsState,
    contents: storage::Contents,
    setting: Setting,
    stored: bool,
)
    requires
        mirrored(state, contents),
    ensures
        mirrored(
            if stored {
                setting.applied(state)
            } else {
                state
            },
            if stored {
                contents.insert(setting.key(), setting.value())
            } else {
                contents
            },
        ),
{
    keys_tell_settings_apart(setting, Setting::DisplayBrightness(0));
    keys_tell_settings_apart(setting, Setting::DisplayTimeout(0));
    keys_tell_settings_apart(setting, Setting::TimezoneOffset(0));
    keys_tell_settings_apart(setting, Setting::Timestamp(0));
}

/// Each setting changes the value of its own name, to the value that it was given, and no other.
pub proof fn setting_changes_its_value(state: SettingsState, byte: u8, hours: i32, at: i64, now: u64)
    ensures
        Setting::DisplayBrightness(byte).applied(state) == (SettingsState {
            display_brightness: byte,
            ..state
        }),
        Setting::DisplayTimeout(byte).applied(state) == (SettingsState {
            display_timeout: byte,
            ..state
        }),
        Setting::TimezoneOffset(hours).applied(state) == (SettingsState {
            timezone_offset: hours,
            ..state
        }),
        Setting::Timestamp(at).applied(state) == (SettingsState { timestamp: at, ..state }),
        Setting::TimestampOffset(now).applied(state) == (SettingsState {
            timestamp_offset: now,
            ..state
        }),
        Setting::SmartGlassesScanDuration(byte).applied(state) == (SettingsState {
            smart_glasses_scan_duration: byte,
            ..state
        }),
        Setting::RemoteIdScanDuration(byte).applied(state) == (SettingsState {
            remote_id_scan_duration: byte,
            ..state
        }),
{
}

/// Each setting is stored under a key of its own, with its value unchanged.
pub proof fn setting_is_stored_unchanged(byte: u8, hours: i32, at: i64, now: u64)
    ensures
        Setting::DisplayBrightness(byte).key() == "dis-bri"@,
        Setting::DisplayBrightness(byte).value() == StoredValue::U8(byte),
        Setting::DisplayTimeout(byte).key() == "dis-tim"@,
        Setting::DisplayTimeout(byte).value() == StoredValue::U8(byte),
        Setting::TimezoneOffset(hours).key() == "tz-offset"@,
        Setting::TimezoneOffset(hours).value() == StoredValue::I32(hours),
        Setting::Timestamp(at).key() == "timest"@,
        Setting::Timestamp(at).value() == StoredValue::I64(at),
        Setting::TimestampOffset(now).key() == "timest-off"@,
        Setting::TimestampOffset(now).value() == StoredValue::U64(now),
        Setting::SmartGlassesScanDuration(byte).key() == "smrt-dur"@,
        Setting::SmartGlassesScanDuration(byte).value() == StoredValue::U8(byte),
        Setting::RemoteIdScanDuration(byte).key() == "rmtid-dur"@,
        Setting::RemoteIdScanDuration(byte).value() == StoredValue::U8(byte),
{
}

} // verus!
