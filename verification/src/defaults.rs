//! The defaults of the watch: their keys, their values before anything is stored, and what is
//! written when one of them changes.
use vstd::prelude::*;

use crate::clock;
use crate::clock::DateTime;
use crate::settings;
use crate::storage;
use crate::storage::{StorageWrite, StoredValue};
use crate::timekeeping;

verus! {

pub const DEFAULTS_NAMESPACE_KEY: &'static str = "defaults";

pub const DISPLAY_BRIGHTNESS_DEFAULT_KEY: &'static str = "dis-bri";

pub const DISPLAY_BRIGHTNESS_DEFAULT: u8 = 127;

pub const DISPLAY_TIMEOUT_DEFAULT_KEY: &'static str = "dis-tim";

pub const DISPLAY_TIMEOUT_DEFAULT: u8 = 5;

pub const TIMEZONE_OFFSET_DEFAULT_KEY: &'static str = "tz-offset";

pub const TIMEZONE_OFFSET_DEFAULT: i32 = 0;

pub const TIMESTAMP_DEFAULT_KEY: &'static str = "timest";

pub const TIMESTAMP_DEFAULT: i64 = 0;

/// The brightness for the display, and what to write.
pub fn set_display_brightness(brightness: u8) -> (change: (u8, StorageWrite))
    ensures
        change.0 == brightness,
        change.1.namespace@ == DEFAULTS_NAMESPACE_KEY@,
        change.1.key@ == DISPLAY_BRIGHTNESS_DEFAULT_KEY@,
        change.1.value == StoredValue::U8(brightness),
{
    (
        brightness,
        StorageWrite {
            namespace: DEFAULTS_NAMESPACE_KEY,
            key: DISPLAY_BRIGHTNESS_DEFAULT_KEY,
            value: StoredValue::U8(brightness),
        },
    )
}

/// The brightness, from what is read under [`DISPLAY_BRIGHTNESS_DEFAULT_KEY`].
pub fn get_display_brightness(stored: Option<u8>) -> (brightness: u8)
    ensures
        brightness == settings::value_or(stored, DISPLAY_BRIGHTNESS_DEFAULT),
        stored matches Some(value) ==> brightness == value,
        stored is None ==> brightness == DISPLAY_BRIGHTNESS_DEFAULT,
{
    stored.unwrap_or(DISPLAY_BRIGHTNESS_DEFAULT)
}

/// What to write for a new display time-out.
pub fn set_display_timeout(timeout: u8) -> (write: StorageWrite)
    ensures
        write.namespace@ == DEFAULTS_NAMESPACE_KEY@,
        write.key@ == DISPLAY_TIMEOUT_DEFAULT_KEY@,
        write.value == StoredValue::U8(timeout),
{
    StorageWrite {
        namespace: DEFAULTS_NAMESPACE_KEY,
        key: DISPLAY_TIMEOUT_DEFAULT_KEY,
        value: StoredValue::U8(timeout),
    }
}

/// The display time-out, from what is read under [`DISPLAY_TIMEOUT_DEFAULT_KEY`].
pub fn get_display_timeout(stored: Option<u8>) -> (timeout: u8)
    ensures
        timeout == settings::value_or(stored, DISPLAY_TIMEOUT_DEFAULT),
        stored matches Some(value) ==> timeout == value,
        stored is None ==> timeout == DISPLAY_TIMEOUT_DEFAULT,
{
    stored.unwrap_or(DISPLAY_TIMEOUT_DEFAULT)
}

/// What to write for a new time zone.
pub fn set_timezone_offset(offset: i32) -> (write: StorageWrite)
    ensures
        write.namespace@ == DEFAULTS_NAMESPACE_KEY@,
        write.key@ == TIMEZONE_OFFSET_DEFAULT_KEY@,
        write.value == StoredValue::I32(offset),
{
    StorageWrite {
        namespace: DEFAULTS_NAMESPACE_KEY,
        key: TIMEZONE_OFFSET_DEFAULT_KEY,
        value: StoredValue::I32(offset),
    }
}

/// The offset of the time zone, from what is read under [`TIMEZONE_OFFSET_DEFAULT_KEY`].
pub fn get_timezone_offset(stored: Option<i32>) -> (offset: i32)
    ensures
        offset == settings::value_or(stored, TIMEZONE_OFFSET_DEFAULT),
        stored matches Some(value) ==> offset == value,
        stored is None ==> offset == TIMEZONE_OFFSET_DEFAULT,
{
    stored.unwrap_or(TIMEZONE_OFFSET_DEFAULT)
}

/// What to write for a new time.
pub fn set_time(timestamp: i64) -> (write: StorageWrite)
    ensures
        write.namespace@ == DEFAULTS_NAMESPACE_KEY@,
        write.key@ == TIMESTAMP_DEFAULT_KEY@,
        write.value == StoredValue::I64(timestamp),
{
    StorageWrite {
        namespace: DEFAULTS_NAMESPACE_KEY,
        key: TIMESTAMP_DEFAULT_KEY,
        value: StoredValue::I64(timestamp),
    }
}

/// The timestamp, from what is read under [`TIMESTAMP_DEFAULT_KEY`].
pub fn get_timestamp(stored: Option<i64>) -> (timestamp: i64)
    ensures
        timestamp == settings::value_or(stored, TIMESTAMP_DEFAULT),
        stored matches Some(value) ==> timestamp == value,
        stored is None ==> timestamp == TIMESTAMP_DEFAULT,
{
    stored.unwrap_or(TIMESTAMP_DEFAULT)
}

/// The instant that is shown `now` microseconds after start-up.
pub open spec fn clock_reading(stored_timestamp: Option<i64>, now: u64) -> int {
    settings::value_or(stored_timestamp, TIMESTAMP_DEFAULT) + timekeeping::as_signed(now)
}

/// The localized date and time: the stored timestamp plus the time since start-up.
pub fn get_date_time(
    stored_timestamp: Option<i64>,
    stored_timezone_offset: Option<i32>,
    now: u64,
) -> (at: DateTime)
    requires
        clock::timestamp_in_range(clock_reading(stored_timestamp, now)),
        -24 < settings::value_or(stored_timezone_offset, TIMEZONE_OFFSET_DEFAULT) < 24,
    ensures
        at.wf(),
        at.timestamp_micros == clock_reading(stored_timestamp, now),
        at.offset_seconds == 3600 * settings::value_or(
            stored_timezone_offset,
            TIMEZONE_OFFSET_DEFAULT,
        ),
        stored_timestamp is Some && now <= i64::MAX ==> at.timestamp_micros == stored_timestamp->0
            + now,
        stored_timestamp is None && now <= i64::MAX ==> at.timestamp_micros == TIMESTAMP_DEFAULT
            + now,
        stored_timezone_offset matches Some(hours) ==> at.offset_seconds == 3600 * hours,
        stored_timezone_offset is None ==> at.offset_seconds == 3600 * TIMEZONE_OFFSET_DEFAULT,
{
    let timestamp: i64 = get_timestamp(stored_timestamp);
    let timezone_offset: i32 = get_timezone_offset(stored_timezone_offset);
    timekeeping::localized(timestamp, now, timezone_offset).unwrap()
}

/// The namespace and the keys are names that the storage takes, and the namespace is not the one
/// of the settings.
pub proof fn names_fit_storage()
    ensures
        storage::valid_name(DEFAULTS_NAMESPACE_KEY@),
        storage::valid_name(DISPLAY_BRIGHTNESS_DEFAULT_KEY@),
        storage::valid_name(DISPLAY_TIMEOUT_DEFAULT_KEY@),
        storage::valid_name(TIMEZONE_OFFSET_DEFAULT_KEY@),
        storage::valid_name(TIMESTAMP_DEFAULT_KEY@),
        DEFAULTS_NAMESPACE_KEY@ != settings::SETTINGS_NAMESPACE_KEY@,
{
    reveal_strlit("defaults");
    reveal_strlit("settings");
    reveal_strlit("dis-bri");
    reveal_strlit("dis-tim");
    reveal_strlit("tz-offset");
    reveal_strlit("timest");
    assert(DEFAULTS_NAMESPACE_KEY@[0] == 'd' && settings::SETTINGS_NAMESPACE_KEY@[0] == 's');
}

/// Each default that was stored is the one that is read afterwards, whatever the others are.
pub proof fn stored_defaults_are_read(
    contents: storage::Contents,
    brightness: u8,
    timeout: u8,
    offset: i32,
    timestamp: i64,
)
    ensures
        ({
            let after = contents.insert(
                DISPLAY_BRIGHTNESS_DEFAULT_KEY@,
                StoredValue::U8(brightness),
            ).insert(DISPLAY_TIMEOUT_DEFAULT_KEY@, StoredValue::U8(timeout)).insert(
                TIMEZONE_OFFSET_DEFAULT_KEY@,
                StoredValue::I32(offset),
            ).insert(TIMESTAMP_DEFAULT_KEY@, StoredValue::I64(timestamp));
            &&& storage::stored_u8(after, DISPLAY_BRIGHTNESS_DEFAULT_KEY@) == Some(brightness)
            &&& storage::stored_u8(after, DISPLAY_TIMEOUT_DEFAULT_KEY@) == Some(timeout)
            &&& storage::stored_i32(after, TIMEZONE_OFFSET_DEFAULT_KEY@) == Some(offset)
            &&& storage::stored_i64(after, TIMESTAMP_DEFAULT_KEY@) == Some(timestamp)
        }),
{
    reveal_strlit("dis-bri");
    reveal_strlit("dis-tim");
    reveal_strlit("tz-offset");
    reveal_strlit("timest");
    assert(DISPLAY_BRIGHTNESS_DEFAULT_KEY@[4] == 'b' && DISPLAY_TIMEOUT_DEFAULT_KEY@[4] == 't');
    assert(DISPLAY_BRIGHTNESS_DEFAULT_KEY@.len() == 7 && DISPLAY_TIMEOUT_DEFAULT_KEY@.len() == 7);
    assert(TIMEZONE_OFFSET_DEFAULT_KEY@.len() == 9 && TIMESTAMP_DEFAULT_KEY@.len() == 6);
}

} // verus!
