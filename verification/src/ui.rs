//! What the user changes on the settings pages, as the settings that are to be stored.
//!
//! The user interface counts in 32-bit numbers. What is kept as a byte takes the lowest eight bits.
use vstd::prelude::*;

use crate::settings::Setting;

verus! {

/// The lowest eight bits of a number.
fn low_byte(value: i32) -> (byte: u8)
    ensures
        byte == value as int % 256,
{
    proof {
        assert((value as u8) == value % 256i32) by (bit_vector);
    }
    #[verifier::truncate]
    (value as u8)
}

/// The setting for a new brightness of the screen, and the brightness that the display takes on
/// right away.
pub fn set_screen_brightness(brightness: i32) -> (change: (Setting, u8))
    ensures
        change.0 == Setting::DisplayBrightness(change.1),
        change.1 == brightness as int % 256,
{
    let brightness: u8 = low_byte(brightness);
    (Setting::DisplayBrightness(brightness), brightness)
}

/// The setting for a new time-out of the screen.
pub fn set_screen_timeout(timeout: i32) -> (setting: Setting)
    ensures
        setting == Setting::DisplayTimeout((timeout as int % 256) as u8),
{
    Setting::DisplayTimeout(low_byte(timeout))
}

/// The setting for a new duration of the scan for smart glasses.
pub fn set_smart_glasses_scan_duration(duration: i32) -> (setting: Setting)
    ensures
        setting == Setting::SmartGlassesScanDuration((duration as int % 256) as u8),
{
    Setting::SmartGlassesScanDuration(low_byte(duration))
}

/// The setting for a new duration of the scan for Remote Id.
pub fn set_remote_id_scan_duration(duration: i32) -> (setting: Setting)
    ensures
        setting == Setting::RemoteIdScanDuration((duration as int % 256) as u8),
{
    Setting::RemoteIdScanDuration(low_byte(duration))
}

/// The setting for a new time zone.
pub fn set_timezone_offset(offset: i32) -> (setting: Setting)
    ensures
        setting == Setting::TimezoneOffset(offset),
{
    Setting::TimezoneOffset(offset)
}

} // verus!
