use watch_core::alert::{
    AlertAction, AlertEvent, AlertTask, HapticEffect, ALERT_REPEAT_MILLIS,
};
use watch_core::battery::{
    battery_status, sleep_after_wakeup, BatteryAction, BatteryEvent, BatteryStatus, BatteryTask,
};
use watch_core::display::{set_flashlight_on, DisplayAction, DisplayTimeoutTask};
use watch_core::scan::{
    RemoteIdScanAction, RemoteIdScanEvent, RemoteIdScanTask, ScanCommand, ScanState,
    SmartGlassesScanAction, SmartGlassesScanEvent, SmartGlassesScanTask,
};
use watch_core::settings::Setting;
use watch_core::touch::{PointerEvent, TouchPoint, TouchReaction, TouchTask};
use watch_core::ui;

#[test]
fn smart_glasses_scan_runs_until_it_ends() {
    let ends = [
        SmartGlassesScanEvent::Command(ScanCommand::Stop),
        SmartGlassesScanEvent::DurationElapsed,
        SmartGlassesScanEvent::RadioFinished,
    ];
    for end in ends {
        let mut task = SmartGlassesScanTask::new();
        assert_eq!(task.state, ScanState::Stopped);
        let start = SmartGlassesScanEvent::Command(ScanCommand::Start);
        assert_eq!(
            task.handle(start, 10),
            SmartGlassesScanAction::StartScan { duration_seconds: 10 }
        );
        assert_eq!(task.state, ScanState::Running);
        assert_eq!(task.handle(start, 20), SmartGlassesScanAction::Nothing);
        assert_eq!(task.state, ScanState::Running);
        assert_eq!(task.handle(end, 10), SmartGlassesScanAction::StopScan);
        assert_eq!(task.state, ScanState::Stopped);
        assert_eq!(task.handle(end, 10), SmartGlassesScanAction::Nothing);
        assert_eq!(task.state, ScanState::Stopped);
    }
}

#[test]
fn remote_id_scan_runs_until_it_ends() {
    for end in
        [RemoteIdScanEvent::Command(ScanCommand::Stop), RemoteIdScanEvent::DurationElapsed]
    {
        let mut task = RemoteIdScanTask::new();
        let start = RemoteIdScanEvent::Command(ScanCommand::Start);
        assert_eq!(task.handle(RemoteIdScanEvent::HopElapsed, 9), RemoteIdScanAction::Nothing);
        assert_eq!(
            task.handle(start, 255),
            RemoteIdScanAction::StartScan { duration_seconds: 255, channel: 1 }
        );
        assert_eq!(task.state, ScanState::Running);
        assert_eq!(task.handle(start, 9), RemoteIdScanAction::Nothing);
        assert_eq!(task.handle(end, 9), RemoteIdScanAction::StopScan);
        assert_eq!(task.state, ScanState::Stopped);
        assert_eq!(task.handle(end, 9), RemoteIdScanAction::Nothing);
    }
}

#[test]
fn remote_id_scan_hops_over_all_channels() {
    let mut task = RemoteIdScanTask::new();
    let start = RemoteIdScanEvent::Command(ScanCommand::Start);
    task.handle(start, 10);
    let mut channels = vec![task.channel];
    for _ in 0..15 {
        let action = task.handle(RemoteIdScanEvent::HopElapsed, 10);
        assert_eq!(action, RemoteIdScanAction::SetChannel { channel: task.channel });
        channels.push(task.channel);
    }
    assert_eq!(channels, vec![1, 2, 3, 4, 5, 6, 7, 8, 9, 10, 11, 12, 13, 14, 1, 2]);
    // The next scan begins at the first channel again.
    task.handle(RemoteIdScanEvent::DurationElapsed, 10);
    assert_eq!(
        task.handle(start, 3),
        RemoteIdScanAction::StartScan { duration_seconds: 3, channel: 1 }
    );
}

const EFFECT: HapticEffect = HapticEffect::LongDoubleSharpClickStrongTwo80;

#[test]
fn alert_is_raised_and_cleared() {
    let raise = AlertAction::Raise { effect: EFFECT, duration_seconds: 7 };
    let mut task = AlertTask::new();
    assert_eq!(task.handle(AlertEvent::AlertElapsed, 7), AlertAction::Nothing);
    assert_eq!(task.handle(AlertEvent::RepeatElapsed, 7), AlertAction::Nothing);
    assert_eq!(task.handle(AlertEvent::ScanIs(ScanState::Stopped), 7), AlertAction::Nothing);
    assert_eq!(task.handle(AlertEvent::Detected, 7), raise);
    assert!(task.alert);
    assert_eq!(task.handle(AlertEvent::Detected, 7), AlertAction::Nothing);
    assert_eq!(task.handle(AlertEvent::ScanIs(ScanState::Running), 7), AlertAction::Nothing);
    assert!(task.alert);
    assert_eq!(task.handle(AlertEvent::AlertElapsed, 7), AlertAction::Clear);
    assert!(!task.alert);
    assert_eq!(task.handle(AlertEvent::Detected, 7), raise);
    assert_eq!(task.handle(AlertEvent::ScanIs(ScanState::Stopped), 7), AlertAction::Clear);
    assert!(!task.alert);
}

#[test]
fn alert_repeats_its_effect() {
    assert_eq!(ALERT_REPEAT_MILLIS, 250);
    let mut task = AlertTask::new();
    task.handle(AlertEvent::Detected, 1);
    for _ in 0..3 {
        let repeat = AlertAction::Repeat { effect: EFFECT };
        assert_eq!(task.handle(AlertEvent::RepeatElapsed, 1), repeat);
        assert!(task.alert);
    }
    assert_eq!(task.handle(AlertEvent::AlertElapsed, 1), AlertAction::Clear);
    assert_eq!(task.handle(AlertEvent::RepeatElapsed, 1), AlertAction::Nothing);
}

#[test]
fn finger_presses_moves_and_releases() {
    let a = TouchPoint { x: 1, y: 2 };
    let b = TouchPoint { x: 3, y: 4 };
    let mut task = TouchTask::new();
    let nothing = TouchReaction { touched: false, event: None, effect: None };
    assert_eq!(task.handle(&[None, None]), nothing);
    assert_eq!(
        task.handle(&[Some(a), None]),
        TouchReaction {
            touched: true,
            event: Some(PointerEvent::Pressed { position: a }),
            effect: Some(HapticEffect::StrongClick100),
        }
    );
    assert_eq!(
        task.handle(&[Some(b)]),
        TouchReaction {
            touched: true,
            event: Some(PointerEvent::Moved { position: b }),
            effect: None
        }
    );
    assert_eq!(
        task.handle(&[None, Some(a)]),
        TouchReaction {
            touched: false,
            event: Some(PointerEvent::Released { position: b }),
            effect: None
        }
    );
    assert_eq!(task.handle(&[]), nothing);
    assert_eq!(task.last_touch_point, None);
}

const SECOND: u64 = 1_000_000;

#[test]
fn display_goes_off_after_the_timeout() {
    let mut task = DisplayTimeoutTask::new(10 * SECOND);
    assert_eq!(task.step(None, false, 5, 10 * SECOND), DisplayAction::Nothing);
    assert_eq!(task.step(None, false, 5, 15 * SECOND - 1), DisplayAction::Nothing);
    assert!(task.display_on);
    assert_eq!(task.step(None, false, 5, 15 * SECOND), DisplayAction::TurnOff);
    assert!(!task.display_on);
    assert_eq!(task.step(None, false, 5, 16 * SECOND), DisplayAction::Nothing);
    assert!(!task.display_on);
}

#[test]
fn display_goes_on_when_touched() {
    let mut task = DisplayTimeoutTask::new(0);
    assert_eq!(task.step(Some(3 * SECOND), false, 5, 3 * SECOND), DisplayAction::Nothing);
    assert_eq!(task.step(None, false, 5, 7 * SECOND), DisplayAction::Nothing);
    assert_eq!(task.step(None, false, 5, 8 * SECOND), DisplayAction::TurnOff);
    assert_eq!(task.step(Some(9 * SECOND), false, 5, 9 * SECOND), DisplayAction::TurnOn);
    assert!(task.display_on);
    assert_eq!(task.last_touch, 9 * SECOND);
}

#[test]
fn flashlight_keeps_the_display_on() {
    let mut task = DisplayTimeoutTask::new(0);
    assert_eq!(task.step(None, true, 5, 100 * SECOND), DisplayAction::Nothing);
    assert!(task.display_on);
    assert_eq!(task.step(None, false, 5, 100 * SECOND), DisplayAction::TurnOff);
    // It does not switch the display on either.
    assert_eq!(task.step(None, true, 5, 100 * SECOND), DisplayAction::Nothing);
    assert!(!task.display_on);
}

#[test]
fn display_without_timeout_stays_on() {
    let mut task = DisplayTimeoutTask::new(7);
    assert_eq!(task.step(None, false, 0, 7), DisplayAction::Nothing);
    assert_eq!(task.step(None, false, 0, 1_000 * SECOND), DisplayAction::Nothing);
    assert!(task.display_on);
    // A time-out that is set later counts from the last touch.
    assert_eq!(task.step(None, false, 1, 1_000 * SECOND), DisplayAction::TurnOff);
    // Without one, a display that is off stays off until it is touched.
    assert_eq!(task.step(None, false, 0, 1_001 * SECOND), DisplayAction::Nothing);
    assert!(!task.display_on);
    assert_eq!(task.step(Some(1_002 * SECOND), false, 0, 1_002 * SECOND), DisplayAction::TurnOn);
}

#[test]
fn flashlight_brightness() {
    assert_eq!(set_flashlight_on(true, 40), 255);
    assert_eq!(set_flashlight_on(false, 40), 40);
}

#[test]
fn battery_status_from_readings() {
    let status = |percent, charging| BatteryStatus { percent, charging };
    assert_eq!(battery_status(Some(80), Some(true), Some(4149)), status(80, true));
    assert_eq!(battery_status(Some(80), Some(true), Some(4150)), status(80, false));
    assert_eq!(battery_status(Some(80), Some(false), Some(3700)), status(80, false));
    assert_eq!(battery_status(None, None, None), status(0, false));
    assert_eq!(battery_status(Some(9), None, Some(3700)), status(9, false));
    assert_eq!(battery_status(Some(9), Some(true), None), status(9, true));
}

#[test]
fn watch_sleeps_on_after_the_timer() {
    assert!(sleep_after_wakeup(true, Some(5)));
    assert!(!sleep_after_wakeup(true, Some(6)));
    assert!(sleep_after_wakeup(true, None));
    assert!(!sleep_after_wakeup(false, Some(1)));
    assert!(!sleep_after_wakeup(false, None));
}

#[test]
fn battery_shows_changes() {
    let status = BatteryStatus { percent: 50, charging: false };
    let charging = BatteryStatus { percent: 50, charging: true };
    let mut task = BatteryTask::new();
    assert_eq!(task.handle(BatteryEvent::Status(status)), BatteryAction::Show(status));
    assert_eq!(task.handle(BatteryEvent::Status(status)), BatteryAction::Nothing);
    assert_eq!(task.handle(BatteryEvent::Status(charging)), BatteryAction::Show(charging));
    assert_eq!(
        task.handle(BatteryEvent::SmartGlassesScan(ScanState::Stopped)),
        BatteryAction::Nothing
    );
}

#[test]
fn low_battery_stops_the_scans_and_sleeps() {
    let low = BatteryEvent::Status(BatteryStatus { percent: 5, charging: true });
    let mut task = BatteryTask::new();
    assert_eq!(task.handle(low), BatteryAction::StopScans);
    assert_eq!(task.handle(low), BatteryAction::Nothing);
    let glasses = BatteryEvent::SmartGlassesScan;
    let remote_id = BatteryEvent::RemoteIdScan;
    assert_eq!(task.handle(glasses(ScanState::Running)), BatteryAction::Nothing);
    assert_eq!(task.handle(remote_id(ScanState::Stopped)), BatteryAction::Nothing);
    // A scan that was seen stopped stays so.
    assert_eq!(task.handle(remote_id(ScanState::Running)), BatteryAction::Nothing);
    assert_eq!(task.handle(glasses(ScanState::Stopped)), BatteryAction::Sleep);
    // Afterwards the battery is watched again.
    assert_eq!(task.handle(low), BatteryAction::StopScans);
    assert_eq!(task.handle(glasses(ScanState::Stopped)), BatteryAction::Nothing);
    assert_eq!(task.handle(remote_id(ScanState::Stopped)), BatteryAction::Sleep);
}

#[test]
fn settings_pages_keep_the_lowest_byte() {
    assert_eq!(ui::set_screen_brightness(200), (Setting::DisplayBrightness(200), 200));
    assert_eq!(ui::set_screen_brightness(256), (Setting::DisplayBrightness(0), 0));
    assert_eq!(ui::set_screen_brightness(-1), (Setting::DisplayBrightness(255), 255));
    assert_eq!(ui::set_screen_timeout(30), Setting::DisplayTimeout(30));
    assert_eq!(ui::set_screen_timeout(300), Setting::DisplayTimeout(44));
    assert_eq!(
        ui::set_smart_glasses_scan_duration(10),
        Setting::SmartGlassesScanDuration(10)
    );
    assert_eq!(ui::set_remote_id_scan_duration(-256), Setting::RemoteIdScanDuration(0));
    assert_eq!(ui::set_timezone_offset(-11), Setting::TimezoneOffset(-11));
}
