//! The battery: what is shown of it, and the way to sleep when it is nearly empty.
use vstd::prelude::*;

use crate::scan::ScanState;

verus! {

/// The charge, in percent, at which the watch goes to sleep.
pub const SLEEP_BATTERY_PERCENTAGE: u8 = 5;

/// Seconds that the watch sleeps before it looks at the battery again.
pub const SLEEP_SECONDS_FOR_CHARGING: u64 = 10;

/// The voltage, in millivolts, from which a battery counts as charged.
pub const CHARGED_MILLIVOLTS: u16 = 4150;

/// The charge of the battery, and whether it is being charged.
#[derive(Clone, Copy, PartialEq, Eq, Structural, Debug)]
pub struct BatteryStatus {
    pub percent: u8,
    pub charging: bool,
}

/// The status, from what the power management gave. `None` stands for what could not be read. The
/// battery is being charged when there is external power and it is not charged already.
pub fn battery_status(
    percent: Option<u8>,
    vbus_in: Option<bool>,
    millivolts: Option<u16>,
) -> (status: BatteryStatus)
    ensures
        status.percent == (match percent {
            Some(percent) => percent,
            None => 0u8,
        }),
        status.charging <==> vbus_in == Some(true) && (millivolts matches Some(millivolts)
            ==> millivolts < CHARGED_MILLIVOLTS),
{
    BatteryStatus {
        percent: percent.unwrap_or(0),
        charging: vbus_in.unwrap_or(false) && millivolts.unwrap_or(0) < CHARGED_MILLIVOLTS,
    }
}

/// Whether the watch goes back to sleep right after start-up: it was woken by the timer, and the
/// battery is still nearly empty.
pub fn sleep_after_wakeup(woken_by_timer: bool, percent: Option<u8>) -> (sleep: bool)
    ensures
        sleep <==> woken_by_timer && (percent matches Some(percent) ==> percent
            <= SLEEP_BATTERY_PERCENTAGE),
{
    woken_by_timer && percent.unwrap_or(0) <= SLEEP_BATTERY_PERCENTAGE
}

/// What the battery task is told.
#[derive(Clone, Copy, PartialEq, Eq, Structural, Debug)]
pub enum BatteryEvent {
    /// The status of the battery.
    Status(BatteryStatus),
    /// The state of the scan for smart glasses.
    SmartGlassesScan(ScanState),
    /// The state of the scan for Remote Id.
    RemoteIdScan(ScanState),
}

/// What the battery task has the watch do.
#[derive(Clone, Copy, PartialEq, Eq, Structural, Debug)]
pub enum BatteryAction {
    Nothing,
    /// Show the status.
    Show(BatteryStatus),
    /// Stop both scans, and report their states.
    StopScans,
    /// Set the real-time clock to the time of day, and sleep.
    Sleep,
}

/// How far the way to sleep has been gone.
#[derive(Clone, Copy, PartialEq, Eq, Structural, Debug)]
pub enum BatteryPhase {
    /// The battery is being watched.
    Watching,
    /// The scans were told to stop. Each flag says whether that scan was seen stopped since.
    Stopping { smart_glasses_stopped: bool, remote_id_stopped: bool },
}

/// The task that watches the battery.
#[derive(Clone, Copy, PartialEq, Eq, Structural, Debug)]
pub struct BatteryTask {
    /// The status that is shown.
    pub last_battery_status: BatteryStatus,
    pub phase: BatteryPhase,
}

impl BatteryTask {
    /// The task after a status of the battery: a status that is nearly empty stops the scans, any
    /// other is shown if it differs from the one that is shown.
    pub open spec fn after_status(self, status: BatteryStatus) -> (BatteryTask, BatteryAction) {
        if self.phase != BatteryPhase::Watching {
            (self, BatteryAction::Nothing)
        } else if status.percent <= SLEEP_BATTERY_PERCENTAGE {
            (
                BatteryTask {
                    phase: BatteryPhase::Stopping {
                        smart_glasses_stopped: false,
                        remote_id_stopped: false,
                    },
                    ..self
                },
                BatteryAction::StopScans,
            )
        } else if status != self.last_battery_status {
            (BatteryTask { last_battery_status: status, ..self }, BatteryAction::Show(status))
        } else {
            (self, BatteryAction::Nothing)
        }
    }

    /// The task once it is known which scans were seen stopped: when both were, it goes to sleep,
    /// and watches the battery again afterwards.
    pub open spec fn after_scans(
        self,
        smart_glasses_stopped: bool,
        remote_id_stopped: bool,
    ) -> (BatteryTask, BatteryAction) {
        if smart_glasses_stopped && remote_id_stopped {
            (BatteryTask { phase: BatteryPhase::Watching, ..self }, BatteryAction::Sleep)
        } else {
            (
                BatteryTask {
                    phase: BatteryPhase::Stopping { smart_glasses_stopped, remote_id_stopped },
                    ..self
                },
                BatteryAction::Nothing,
            )
        }
    }

    /// The task after an event, and what the watch does.
    pub open spec fn next(self, event: BatteryEvent) -> (BatteryTask, BatteryAction) {
        match (event, self.phase) {
            (BatteryEvent::Status(status), _) => self.after_status(status),
            (_, BatteryPhase::Watching) => (self, BatteryAction::Nothing),
            (
                BatteryEvent::SmartGlassesScan(state),
                BatteryPhase::Stopping { smart_glasses_stopped, remote_id_stopped },
            ) => self.after_scans(
                smart_glasses_stopped || state == ScanState::Stopped,
                remote_id_stopped,
            ),
            (
                BatteryEvent::RemoteIdScan(state),
                BatteryPhase::Stopping { smart_glasses_stopped, remote_id_stopped },
            ) => self.after_scans(
                smart_glasses_stopped,
                remote_id_stopped || state == ScanState::Stopped,
            ),
        }
    }

    /// A task that watches a battery of which nothing is known yet.
    pub fn new() -> (task: Self)
        ensures
            task.last_battery_status == (BatteryStatus { percent: 0, charging: false }),
            task.phase == BatteryPhase::Watching,
    {
        BatteryTask {
            last_battery_status: BatteryStatus { percent: 0, charging: false },
            phase: BatteryPhase::Watching,
        }
    }

    fn scans_seen(&mut self, smart_glasses_stopped: bool, remote_id_stopped: bool) -> (action:
        BatteryAction)
        ensures
            (*final(self), action) == old(self).after_scans(
                smart_glasses_stopped,
                remote_id_stopped,
            ),
    {
        if smart_glasses_stopped && remote_id_stopped {
            self.phase = BatteryPhase::Watching;
            BatteryAction::Sleep
        } else {
            self.phase = BatteryPhase::Stopping { smart_glasses_stopped, remote_id_stopped };
            BatteryAction::Nothing
        }
    }

    /// Takes an event.
    pub fn handle(&mut self, event: BatteryEvent) -> (action: BatteryAction)
        ensures
            (*final(self), action) == old(self).next(event),
            old(self).phase == BatteryPhase::Watching ==> (event matches BatteryEvent::Status(
                status,
            ) ==> (if status.percent <= SLEEP_BATTERY_PERCENTAGE {
                action == BatteryAction::StopScans
            } else if status.percent != old(self).last_battery_status.percent || status.charging
                != old(self).last_battery_status.charging {
                action == BatteryAction::Show(status)
            } else {
                action == BatteryAction::Nothing
            })),
            old(self).phase == BatteryPhase::Watching && !(event is Status) ==> action
                == BatteryAction::Nothing && *final(self) == *old(self),
            action == BatteryAction::Sleep ==> old(self).phase is Stopping && final(self).phase
                == BatteryPhase::Watching,
    {
        match (event, self.phase) {
            (BatteryEvent::Status(status), BatteryPhase::Watching) => {
                if status.percent <= SLEEP_BATTERY_PERCENTAGE {
                    self.phase = BatteryPhase::Stopping {
                        smart_glasses_stopped: false,
                        remote_id_stopped: false,
                    };
                    BatteryAction::StopScans
                } else if status != self.last_battery_status {
                    self.last_battery_status = status;
                    BatteryAction::Show(status)
                } else {
                    BatteryAction::Nothing
                }
            },
            (
                BatteryEvent::SmartGlassesScan(state),
                BatteryPhase::Stopping { smart_glasses_stopped, remote_id_stopped },
            ) => self.scans_seen(
                smart_glasses_stopped || state == ScanState::Stopped,
                remote_id_stopped,
            ),
            (
                BatteryEvent::RemoteIdScan(state),
                BatteryPhase::Stopping { smart_glasses_stopped, remote_id_stopped },
            ) => self.scans_seen(
                smart_glasses_stopped,
                remote_id_stopped || state == ScanState::Stopped,
            ),
            _ => BatteryAction::Nothing,
        }
    }
}

/// The task after a sequence of events.
pub open spec fn battery_run(events: Seq<BatteryEvent>) -> BatteryTask
    decreases events.len(),
{
    if events.len() == 0 {
        BatteryTask {
            last_battery_status: BatteryStatus { percent: 0, charging: false },
            phase: BatteryPhase::Watching,
        }
    } else {
        battery_run(events.drop_last()).next(events.last()).0
    }
}

/// Whether a status was nearly empty, at or after which both scans, as far as asked for, were seen
/// stopped.
pub open spec fn stopped_since_low(
    events: Seq<BatteryEvent>,
    low: int,
    smart_glasses: bool,
    remote_id: bool,
) -> bool {
    &&& 0 <= low < events.len()
    &&& events[low] matches BatteryEvent::Status(status)
    &&& status.percent <= SLEEP_BATTERY_PERCENTAGE
    &&& smart_glasses ==> exists|j: int|
        low < j < events.len() && #[trigger] events[j] == BatteryEvent::SmartGlassesScan(
            ScanState::Stopped,
        )
    &&& remote_id ==> exists|j: int|
        low < j < events.len() && #[trigger] events[j] == BatteryEvent::RemoteIdScan(
            ScanState::Stopped,
        )
}

/// Whether the task was on its way to sleep after each event from `low` up to `end`.
pub open spec fn stopping_throughout(events: Seq<BatteryEvent>, low: int, end: int) -> bool {
    forall|k: int|
        low <= k < end ==> (#[trigger] battery_run(events.take(k + 1))).phase is Stopping
}

proof fn lemma_stopping_throughout_extends(
    events: Seq<BatteryEvent>,
    event: BatteryEvent,
    low: int,
)
    requires
        0 <= low,
        stopping_throughout(events, low, events.len() as int),
    ensures
        stopping_throughout(events.push(event), low, events.len() as int),
{
    assert forall|k: int| low <= k < events.len() implies (#[trigger] battery_run(
        events.push(event).take(k + 1),
    )).phase is Stopping by {
        assert(events.push(event).take(k + 1) =~= events.take(k + 1));
    }
}

proof fn lemma_stopped_since_low_extends(
    events: Seq<BatteryEvent>,
    event: BatteryEvent,
    low: int,
    smart_glasses: bool,
    remote_id: bool,
)
    requires
        stopped_since_low(events, low, smart_glasses, remote_id),
    ensures
        stopped_since_low(
            events.push(event),
            low,
            smart_glasses || event == BatteryEvent::SmartGlassesScan(ScanState::Stopped),
            remote_id || event == BatteryEvent::RemoteIdScan(ScanState::Stopped),
        ),
{
    let all = events.push(event);
    assert(all[low] == events[low]);
    assert(all[events.len() as int] == event);
    if smart_glasses {
        let j = choose|j: int|
            low < j < events.len() && #[trigger] events[j] == BatteryEvent::SmartGlassesScan(
                ScanState::Stopped,
            );
        assert(all[j] == BatteryEvent::SmartGlassesScan(ScanState::Stopped));
    }
    if remote_id {
        let j = choose|j: int|
            low < j < events.len() && #[trigger] events[j] == BatteryEvent::RemoteIdScan(
                ScanState::Stopped,
            );
        assert(all[j] == BatteryEvent::RemoteIdScan(ScanState::Stopped));
    }
}

/// While the scans are being stopped, there was a nearly empty battery, the task is on its way to
/// sleep since, and each scan that counts as stopped was seen stopped since.
proof fn lemma_stopping_since_low(events: Seq<BatteryEvent>)
    ensures
        battery_run(events).phase matches BatteryPhase::Stopping {
            smart_glasses_stopped,
            remote_id_stopped,
        } ==> exists|low: int|
            #[trigger] stopped_since_low(events, low, smart_glasses_stopped, remote_id_stopped)
                && stopping_throughout(events, low, events.len() as int),
    decreases events.len(),
{
    if events.len() > 0 {
        let before = events.drop_last();
        let event = events.last();
        lemma_stopping_since_low(before);
        assert(before.push(event) =~= events);
        let after = battery_run(before).next(event).0.phase;
        assert(battery_run(events).phase == after);
        match battery_run(before).phase {
            BatteryPhase::Watching => {
                if let BatteryPhase::Stopping { smart_glasses_stopped, remote_id_stopped } = after {
                    assert(!smart_glasses_stopped && !remote_id_stopped);
                    assert(events.take(events.len() as int) =~= events);
                    assert(stopping_throughout(events, events.len() - 1, events.len() as int));
                    assert(stopped_since_low(
                        events,
                        events.len() - 1,
                        smart_glasses_stopped,
                        remote_id_stopped,
                    ));
                }
            },
            BatteryPhase::Stopping { smart_glasses_stopped, remote_id_stopped } => {
                let low = choose|low: int|
                    #[trigger] stopped_since_low(
                        before,
                        low,
                        smart_glasses_stopped,
                        remote_id_stopped,
                    ) && stopping_throughout(before, low, before.len() as int);
                lemma_stopping_throughout_extends(before, event, low);
                lemma_stopped_since_low_extends(
                    before,
                    event,
                    low,
                    smart_glasses_stopped,
                    remote_id_stopped,
                );
                if let BatteryPhase::Stopping {
                    smart_glasses_stopped: smart_glasses,
                    remote_id_stopped: remote_id,
                } = after {
                    assert(events.take(events.len() as int) =~= events);
                    assert(stopping_throughout(events, low, events.len() as int));
                    assert(stopped_since_low(events, low, smart_glasses, remote_id));
                }
            },
        }
    }
}

/// The watch goes to sleep only after the battery was nearly empty and both scans were seen stopped
/// since, and on that same way to sleep: no earlier sleep lies in between.
pub proof fn sleep_waits_for_scans(events: Seq<BatteryEvent>, event: BatteryEvent)
    requires
        battery_run(events).next(event).1 == BatteryAction::Sleep,
    ensures
        exists|low: int|
            #[trigger] stopped_since_low(events.push(event), low, true, true)
                && stopping_throughout(events.push(event), low, events.len() as int),
{
    lemma_stopping_since_low(events);
    match battery_run(events).phase {
        BatteryPhase::Watching => {},
        BatteryPhase::Stopping { smart_glasses_stopped, remote_id_stopped } => {
            let low = choose|low: int|
                #[trigger] stopped_since_low(
                    events,
                    low,
                    smart_glasses_stopped,
                    remote_id_stopped,
                ) && stopping_throughout(events, low, events.len() as int);
            lemma_stopping_throughout_extends(events, event, low);
            lemma_stopped_since_low_extends(
                events,
                event,
                low,
                smart_glasses_stopped,
                remote_id_stopped,
            );
        },
    }
}

/// Once the battery is nearly empty and both scans are stopped, the watch sleeps.
pub proof fn low_battery_leads_to_sleep(task: BatteryTask, status: BatteryStatus)
    requires
        task.phase == BatteryPhase::Watching,
        status.percent <= SLEEP_BATTERY_PERCENTAGE,
    ensures
        task.next(BatteryEvent::Status(status)).1 == BatteryAction::StopScans,
        task.next(BatteryEvent::Status(status)).0.next(
            BatteryEvent::SmartGlassesScan(ScanState::Stopped),
        ).0.next(BatteryEvent::RemoteIdScan(ScanState::Stopped)).1 == BatteryAction::Sleep,
        task.next(BatteryEvent::Status(status)).0.next(
            BatteryEvent::RemoteIdScan(ScanState::Stopped),
        ).0.next(BatteryEvent::SmartGlassesScan(ScanState::Stopped)).1 == BatteryAction::Sleep,
{
}

/// A status is shown only if it is not nearly empty and differs from the one that is shown, and it
/// is the one that is shown then.
pub proof fn only_changes_are_shown(task: BatteryTask, event: BatteryEvent, status: BatteryStatus)
    requires
        task.next(event).1 == BatteryAction::Show(status),
    ensures
        status.percent > SLEEP_BATTERY_PERCENTAGE,
        status != task.last_battery_status,
        task.next(event).0.last_battery_status == status,
{
}

/// While the battery is watched, every status above the charge for sleep that differs from the one
/// that is shown, in percent or in charging, is shown, and one that does not differ is not shown
/// again. Either way it is the latest status that is shown.
pub proof fn every_change_is_shown(task: BatteryTask, status: BatteryStatus)
    requires
        task.phase == BatteryPhase::Watching,
        status.percent > SLEEP_BATTERY_PERCENTAGE,
    ensures
        status.percent != task.last_battery_status.percent || status.charging
            != task.last_battery_status.charging ==> task.next(BatteryEvent::Status(status)).1
            == BatteryAction::Show(status),
        status.percent == task.last_battery_status.percent && status.charging
            == task.last_battery_status.charging ==> task.next(BatteryEvent::Status(status)).1
            == BatteryAction::Nothing,
        task.next(BatteryEvent::Status(status)).0.last_battery_status.percent == status.percent,
        task.next(BatteryEvent::Status(status)).0.last_battery_status.charging == status.charging,
        task.next(BatteryEvent::Status(status)).0.phase == BatteryPhase::Watching,
{
}

/// A nearly empty battery stops the scans, whatever is shown, and neither scan counts as stopped
/// yet. What is shown stays.
pub proof fn low_battery_stops_scans(task: BatteryTask, status: BatteryStatus)
    requires
        task.phase == BatteryPhase::Watching,
        status.percent <= SLEEP_BATTERY_PERCENTAGE,
    ensures
        task.next(BatteryEvent::Status(status)).1 == BatteryAction::StopScans,
        task.next(BatteryEvent::Status(status)).0.phase == (BatteryPhase::Stopping {
            smart_glasses_stopped: false,
            remote_id_stopped: false,
        }),
        task.next(BatteryEvent::Status(status)).0.last_battery_status == task.last_battery_status,
{
}

/// On the way to sleep, the watch sleeps at the very event at which both scans have been seen
/// stopped, and watches the battery again then. A scan that was seen stopped stays so, and the
/// status of the battery changes nothing.
pub proof fn sleep_once_both_stopped(
    task: BatteryTask,
    smart_glasses_stopped: bool,
    remote_id_stopped: bool,
    event: BatteryEvent,
)
    requires
        task.phase == (BatteryPhase::Stopping { smart_glasses_stopped, remote_id_stopped }),
        !(smart_glasses_stopped && remote_id_stopped),
    ensures
        ({
            let smart_glasses = smart_glasses_stopped || event == BatteryEvent::SmartGlassesScan(
                ScanState::Stopped,
            );
            let remote_id = remote_id_stopped || event == BatteryEvent::RemoteIdScan(
                ScanState::Stopped,
            );
            &&& task.next(event).1 == BatteryAction::Sleep <==> smart_glasses && remote_id
            &&& task.next(event).1 != BatteryAction::Sleep ==> task.next(event).1
                == BatteryAction::Nothing
            &&& smart_glasses && remote_id ==> task.next(event).0.phase == BatteryPhase::Watching
            &&& !(smart_glasses && remote_id) ==> task.next(event).0.phase
                == (BatteryPhase::Stopping {
                smart_glasses_stopped: smart_glasses,
                remote_id_stopped: remote_id,
            })
            &&& task.next(event).0.last_battery_status == task.last_battery_status
        }),
{
}

} // verus!
