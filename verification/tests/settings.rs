use watch_core::defaults;
use watch_core::settings::{Setting, Settings, StoredSettings};
use watch_core::storage::StoredValue;

fn settings() -> Settings<u32> {
    Settings::new(&7)
}

const NOTHING_STORED: StoredSettings = StoredSettings {
    display_brightness: None,
    display_timeout: None,
    timezone_offset: None,
    timestamp: None,
};

fn values(settings: &Settings<u32>) -> (u8, u8, i32, i64, u64, u8, u8) {
    (
        settings.get_display_brightness(),
        settings.get_display_timeout(),
        settings.get_timezone_offset(),
        settings.get_timestamp(),
        settings.get_timestamp_offset(),
        settings.get_smart_glasses_scan_duration(),
        settings.get_remote_id_scan_duration(),
    )
}

#[test]
fn new_settings_have_their_defaults() {
    assert_eq!(values(&settings()), (127, 5, 0, 0, 0, 10, 10));
    assert_eq!(*settings().storage(), 7);
}

#[test]
fn init_takes_what_is_stored() {
    let stored = StoredSettings {
        display_brightness: Some(200),
        display_timeout: Some(0),
        timezone_offset: Some(-8),
        timestamp: Some(-5),
    };
    assert_eq!(values(&settings().init(stored)), (200, 0, -8, -5, 0, 10, 10));
}

#[test]
fn init_falls_back_to_defaults() {
    let mut changed = settings();
    changed.set_display_brightness(1, true);
    changed.set_timestamp(2, true);
    changed.set_timestamp_offset(3, true);
    changed.set_smart_glasses_scan_duration(4, true);
    changed.set_remote_id_scan_duration(5, true);
    // What is not read back stays, the time of the last setting of the clock is forgotten.
    assert_eq!(values(&changed.init(NOTHING_STORED)), (127, 5, 0, 0, 0, 4, 5));
    let partly = StoredSettings { display_timeout: Some(30), ..NOTHING_STORED };
    assert_eq!(values(&settings().init(partly)), (127, 30, 0, 0, 0, 10, 10));
}

#[test]
fn setters_take_what_was_stored() {
    let mut s = settings();
    s.set_display_brightness(1, true);
    assert_eq!(values(&s), (1, 5, 0, 0, 0, 10, 10));
    s.set_display_timeout(2, true);
    assert_eq!(values(&s), (1, 2, 0, 0, 0, 10, 10));
    s.set_timezone_offset(-3, true);
    assert_eq!(values(&s), (1, 2, -3, 0, 0, 10, 10));
    s.set_timestamp(4, true);
    assert_eq!(values(&s), (1, 2, -3, 4, 0, 10, 10));
    s.set_timestamp_offset(5, true);
    assert_eq!(values(&s), (1, 2, -3, 4, 5, 10, 10));
    s.set_smart_glasses_scan_duration(6, true);
    assert_eq!(values(&s), (1, 2, -3, 4, 5, 6, 10));
    s.set_remote_id_scan_duration(7, true);
    assert_eq!(values(&s), (1, 2, -3, 4, 5, 6, 7));
    assert_eq!(*s.storage(), 7);
}

#[test]
fn setters_ignore_what_was_not_stored() {
    let mut s = settings();
    s.set_display_brightness(1, false);
    s.set_display_timeout(2, false);
    s.set_timezone_offset(-3, false);
    s.set_timestamp(4, false);
    s.set_timestamp_offset(5, false);
    s.set_smart_glasses_scan_duration(6, false);
    s.set_remote_id_scan_duration(7, false);
    assert_eq!(values(&s), (127, 5, 0, 0, 0, 10, 10));
}

#[test]
fn writes_name_the_key_and_the_value() {
    let expected = [
        (Setting::DisplayBrightness(1), "dis-bri", StoredValue::U8(1)),
        (Setting::DisplayTimeout(2), "dis-tim", StoredValue::U8(2)),
        (Setting::TimezoneOffset(-3), "tz-offset", StoredValue::I32(-3)),
        (Setting::Timestamp(-4), "timest", StoredValue::I64(-4)),
        (Setting::TimestampOffset(5), "timest-off", StoredValue::U64(5)),
        (Setting::SmartGlassesScanDuration(6), "smrt-dur", StoredValue::U8(6)),
        (Setting::RemoteIdScanDuration(7), "rmtid-dur", StoredValue::U8(7)),
    ];
    let mut s = settings();
    for (setting, key, value) in expected {
        let write = setting.write();
        assert_eq!(write.namespace, "settings");
        assert_eq!(write.key, key);
        assert_eq!(write.value, value);
        s.set(setting, false);
    }
    assert_eq!(values(&s), (127, 5, 0, 0, 0, 10, 10));
    for (setting, _, _) in expected {
        s.set(setting, true);
    }
    assert_eq!(values(&s), (1, 2, -3, -4, 5, 6, 7));
}

#[test]
fn names_are_accepted_by_the_storage() {
    let settings = [
        Setting::DisplayBrightness(0),
        Setting::DisplayTimeout(0),
        Setting::TimezoneOffset(0),
        Setting::Timestamp(0),
        Setting::TimestampOffset(0),
        Setting::SmartGlassesScanDuration(0),
        Setting::RemoteIdScanDuration(0),
    ];
    for setting in settings {
        let write = setting.write();
        assert_eq!(esp_nvs::Key::from_str(write.namespace).as_str(), "settings");
        assert_eq!(esp_nvs::Key::from_str(write.key).as_str(), write.key);
    }
}

fn nvs_set(
    nvs: &mut esp_nvs::Nvs<esp_nvs::mem_flash::MemFlash>,
    setting: Setting,
) -> bool {
    let write = setting.write();
    let namespace = esp_nvs::Key::from_str(write.namespace);
    let key = esp_nvs::Key::from_str(write.key);
    match write.value {
        StoredValue::U8(value) => nvs.set(&namespace, &key, value).is_ok(),
        StoredValue::I32(value) => nvs.set(&namespace, &key, value).is_ok(),
        StoredValue::I64(value) => nvs.set(&namespace, &key, value).is_ok(),
        StoredValue::U64(value) => nvs.set(&namespace, &key, value).is_ok(),
    }
}

#[test]
fn stored_settings_survive_a_restart() {
    let flash = esp_nvs::mem_flash::MemFlash::new(4);
    let mut nvs = esp_nvs::Nvs::new(0, 4 * 4096, flash).unwrap();
    let mut before = settings();
    for setting in [
        Setting::DisplayBrightness(33),
        Setting::DisplayTimeout(44),
        Setting::TimezoneOffset(-7),
        Setting::Timestamp(1_709_212_455_000_016),
        Setting::TimestampOffset(99),
        Setting::SmartGlassesScanDuration(20),
        Setting::RemoteIdScanDuration(30),
    ] {
        let stored = nvs_set(&mut nvs, setting);
        assert!(stored);
        before.set(setting, stored);
    }
    let namespace = esp_nvs::Key::from_str(watch_core::settings::SETTINGS_NAMESPACE_KEY);
    let stored = StoredSettings {
        display_brightness: nvs.get(&namespace, &esp_nvs::Key::from_str("dis-bri")).ok(),
        display_timeout: nvs.get(&namespace, &esp_nvs::Key::from_str("dis-tim")).ok(),
        timezone_offset: nvs.get(&namespace, &esp_nvs::Key::from_str("tz-offset")).ok(),
        timestamp: nvs.get(&namespace, &esp_nvs::Key::from_str("timest")).ok(),
    };
    let after = settings().init(stored);
    assert_eq!(values(&before), (33, 44, -7, 1_709_212_455_000_016, 99, 20, 30));
    assert_eq!(values(&after), (33, 44, -7, 1_709_212_455_000_016, 0, 10, 10));
}

#[test]
fn defaults_without_anything_stored() {
    assert_eq!(defaults::get_display_brightness(None), 127);
    assert_eq!(defaults::get_display_timeout(None), 5);
    assert_eq!(defaults::get_timezone_offset(None), 0);
    assert_eq!(defaults::get_timestamp(None), 0);
}

#[test]
fn defaults_that_are_stored() {
    assert_eq!(defaults::get_display_brightness(Some(3)), 3);
    assert_eq!(defaults::get_display_timeout(Some(4)), 4);
    assert_eq!(defaults::get_timezone_offset(Some(-11)), -11);
    assert_eq!(defaults::get_timestamp(Some(-6)), -6);
}

#[test]
fn changed_defaults_are_written() {
    let (display, write) = defaults::set_display_brightness(9);
    assert_eq!(display, 9);
    assert_eq!((write.namespace, write.key, write.value), ("defaults", "dis-bri", StoredValue::U8(9)));
    let write = defaults::set_display_timeout(8);
    assert_eq!((write.namespace, write.key, write.value), ("defaults", "dis-tim", StoredValue::U8(8)));
    let write = defaults::set_timezone_offset(-7);
    assert_eq!(
        (write.namespace, write.key, write.value),
        ("defaults", "tz-offset", StoredValue::I32(-7))
    );
    let write = defaults::set_time(-6);
    assert_eq!((write.namespace, write.key, write.value), ("defaults", "timest", StoredValue::I64(-6)));
}

#[test]
fn default_date_time_adds_the_time_since_start() {
    let at = defaults::get_date_time(Some(1_709_212_455_000_000), Some(11), 16);
    assert_eq!(at.timestamp_micros, 1_709_212_455_000_016);
    assert_eq!(at.get_date(), vec![1, 3, 2024]);
    assert_eq!(at.get_time(), vec![0, 14, 15]);
    let at = defaults::get_date_time(None, None, 61_000_000);
    assert_eq!(at.get_time(), vec![0, 1, 1]);
    assert_eq!(at.offset_seconds, 0);
}

#[test]
fn stored_defaults_are_read_back() {
    let flash = esp_nvs::mem_flash::MemFlash::new(4);
    let mut nvs = esp_nvs::Nvs::new(0, 4 * 4096, flash).unwrap();
    // A setting under the same key is kept apart by its namespace.
    assert!(nvs_set(&mut nvs, Setting::DisplayBrightness(77)));
    let writes = [
        defaults::set_display_brightness(9).1,
        defaults::set_display_timeout(8),
        defaults::set_timezone_offset(-7),
        defaults::set_time(-6),
    ];
    let namespace = esp_nvs::Key::from_str(defaults::DEFAULTS_NAMESPACE_KEY);
    for write in writes {
        assert_eq!(write.namespace, defaults::DEFAULTS_NAMESPACE_KEY);
        let key = esp_nvs::Key::from_str(write.key);
        match write.value {
            StoredValue::U8(value) => nvs.set(&namespace, &key, value).unwrap(),
            StoredValue::I32(value) => nvs.set(&namespace, &key, value).unwrap(),
            StoredValue::I64(value) => nvs.set(&namespace, &key, value).unwrap(),
            StoredValue::U64(value) => nvs.set(&namespace, &key, value).unwrap(),
        }
    }
    let stored = nvs.get(&namespace, &esp_nvs::Key::from_str("dis-bri")).ok();
    assert_eq!(defaults::get_display_brightness(stored), 9);
    let stored = nvs.get(&namespace, &esp_nvs::Key::from_str("dis-tim")).ok();
    assert_eq!(defaults::get_display_timeout(stored), 8);
    let stored = nvs.get(&namespace, &esp_nvs::Key::from_str("tz-offset")).ok();
    assert_eq!(defaults::get_timezone_offset(stored), -7);
    let stored = nvs.get(&namespace, &esp_nvs::Key::from_str("timest")).ok();
    assert_eq!(defaults::get_timestamp(stored), -6);
    let settings_namespace = esp_nvs::Key::from_str("settings");
    let stored: Option<u8> =
        nvs.get(&settings_namespace, &esp_nvs::Key::from_str("dis-bri")).ok();
    assert_eq!(stored, Some(77));
}
