//! The alert that the watch gives when a scan has found something.
use vstd::prelude::*;

use crate::latch;
use crate::scan::ScanState;

verus! {

/// What the haptic motor plays.
#[derive(Clone, Copy, PartialEq, Eq, Structural, Debug)]
pub enum HapticEffect {
    /// A strong click.
    StrongClick100,
    /// A long, sharp double click.
    LongDoubleSharpClickStrongTwo80,
}

/// Milliseconds after which the effect of an alert is played again.
pub const ALERT_REPEAT_MILLIS: u64 = 250;

/// What an alert task is told.
#[derive(Clone, Copy, PartialEq, Eq, Structural, Debug)]
pub enum AlertEvent {
    /// The scan has found something.
    Detected,
    /// It is time to play the effect again.
    RepeatElapsed,
    /// The time of the alert is over.
    AlertElapsed,
    /// The state that the scan has now.
    ScanIs(ScanState),
}

/// What an alert task has the watch do.
#[derive(Clone, Copy, PartialEq, Eq, Structural, Debug)]
pub enum AlertAction {
    Nothing,
    /// Show the alert for so many seconds, and play the effect.
    Raise { effect: HapticEffect, duration_seconds: u64 },
    /// Play the effect again.
    Repeat { effect: HapticEffect },
    /// Show the alert no longer.
    Clear,
}

impl AlertEvent {
    /// Whether the event ends an alert.
    pub open spec fn ends(self) -> bool {
        match self {
            AlertEvent::Detected => false,
            AlertEvent::RepeatElapsed => false,
            AlertEvent::AlertElapsed => true,
            AlertEvent::ScanIs(state) => state == ScanState::Stopped,
        }
    }
}

/// Whether an alert is shown after an event.
pub open spec fn alert_next(alert: bool, event: AlertEvent) -> bool {
    event == AlertEvent::Detected || (alert && !event.ends())
}

/// What the watch does on an event: the effect is played when the alert begins, and again whenever
/// it is time while the alert is shown.
pub open spec fn alert_action(
    alert: bool,
    event: AlertEvent,
    scan_alert_duration: u64,
) -> AlertAction {
    if !alert && alert_next(alert, event) {
        AlertAction::Raise {
            effect: HapticEffect::LongDoubleSharpClickStrongTwo80,
            duration_seconds: scan_alert_duration,
        }
    } else if alert && !alert_next(alert, event) {
        AlertAction::Clear
    } else if alert && event == AlertEvent::RepeatElapsed {
        AlertAction::Repeat { effect: HapticEffect::LongDoubleSharpClickStrongTwo80 }
    } else {
        AlertAction::Nothing
    }
}

/// The task that raises and clears the alert of one scan.
#[derive(Clone, Copy, PartialEq, Eq, Structural, Debug)]
pub struct AlertTask {
    /// Whether the alert is shown.
    pub alert: bool,
}

impl AlertTask {
    /// A task that shows no alert.
    pub fn new() -> (task: Self)
        ensures
            !task.alert,
    {
        AlertTask { alert: false }
    }

    /// Takes an event. An alert lasts until `scan_alert_duration` seconds are over or the scan is
    /// stopped, whichever comes first, and its effect is repeated until then. What is detected
    /// during an alert changes nothing.
    pub fn handle(&mut self, event: AlertEvent, scan_alert_duration: u64) -> (action: AlertAction)
        ensures
            final(self).alert == alert_next(old(self).alert, event),
            action == alert_action(old(self).alert, event, scan_alert_duration),
            !old(self).alert ==> (if event == AlertEvent::Detected {
                action == (AlertAction::Raise {
                    effect: HapticEffect::LongDoubleSharpClickStrongTwo80,
                    duration_seconds: scan_alert_duration,
                }) && final(self).alert
            } else {
                action == AlertAction::Nothing && !final(self).alert
            }),
            old(self).alert ==> (if event == AlertEvent::AlertElapsed || event
                == AlertEvent::ScanIs(ScanState::Stopped) {
                action == AlertAction::Clear && !final(self).alert
            } else if event == AlertEvent::RepeatElapsed {
                action == (AlertAction::Repeat {
                    effect: HapticEffect::LongDoubleSharpClickStrongTwo80,
                }) && final(self).alert
            } else {
                action == AlertAction::Nothing && final(self).alert
            }),
    {
        match (self.alert, event) {
            (false, AlertEvent::Detected) => {
                self.alert = true;
                AlertAction::Raise {
                    effect: HapticEffect::LongDoubleSharpClickStrongTwo80,
                    duration_seconds: scan_alert_duration,
                }
            },
            (true, AlertEvent::RepeatElapsed) => AlertAction::Repeat {
                effect: HapticEffect::LongDoubleSharpClickStrongTwo80,
            },
            (true, AlertEvent::AlertElapsed) => {
                self.alert = false;
                AlertAction::Clear
            },
            (true, AlertEvent::ScanIs(ScanState::Stopped)) => {
                self.alert = false;
                AlertAction::Clear
            },
            _ => AlertAction::Nothing,
        }
    }
}

/// Whether an alert is shown after a sequence of events.
pub open spec fn alert_run(events: Seq<AlertEvent>) -> bool
    decreases events.len(),
{
    events.len() > 0 && alert_next(alert_run(events.drop_last()), events.last())
}

/// How often the effect was played over a sequence of events.
pub open spec fn effects_played(events: Seq<AlertEvent>, scan_alert_duration: u64) -> nat
    decreases events.len(),
{
    if events.len() == 0 {
        0
    } else {
        let action = alert_action(
            alert_run(events.drop_last()),
            events.last(),
            scan_alert_duration,
        );
        effects_played(events.drop_last(), scan_alert_duration) + if action is Raise
            || action is Repeat {
            1nat
        } else {
            0nat
        }
    }
}

proof fn lemma_alert_run_is_latched(events: Seq<AlertEvent>)
    ensures
        alert_run(events) == latch::latched(
            events,
            |event: AlertEvent| event == AlertEvent::Detected,
            |event: AlertEvent|
                event == AlertEvent::AlertElapsed || event == AlertEvent::ScanIs(
                    ScanState::Stopped,
                ),
        ),
    decreases events.len(),
{
    if events.len() > 0 {
        lemma_alert_run_is_latched(events.drop_last());
    }
}

/// An alert is shown exactly when something was detected, and since then neither the time of the
/// alert was over nor the scan was stopped.
pub proof fn alert_run_iff_detected(events: Seq<AlertEvent>)
    ensures
        alert_run(events) <==> latch::on_since_some(
            events,
            |event: AlertEvent| event == AlertEvent::Detected,
            |event: AlertEvent|
                event == AlertEvent::AlertElapsed || event == AlertEvent::ScanIs(
                    ScanState::Stopped,
                ),
        ),
{
    lemma_alert_run_is_latched(events);
    latch::latched_iff_on_since_some(
        events,
        |event: AlertEvent| event == AlertEvent::Detected,
        |event: AlertEvent|
                event == AlertEvent::AlertElapsed || event == AlertEvent::ScanIs(
                    ScanState::Stopped,
                ),
    );
}

/// The effect is played once when something is detected, and once more each time that the repeat
/// comes round, as long as nothing ends the alert.
pub proof fn effect_is_repeated(
    events: Seq<AlertEvent>,
    repeats: nat,
    scan_alert_duration: u64,
)
    requires
        !alert_run(events),
    ensures
        ({
            let all = events + (seq![AlertEvent::Detected] + Seq::new(
                repeats,
                |i: int| AlertEvent::RepeatElapsed,
            ));
            &&& alert_run(all)
            &&& effects_played(all, scan_alert_duration) == effects_played(
                events,
                scan_alert_duration,
            ) + 1 + repeats
        }),
    decreases repeats,
{
    let detected = seq![AlertEvent::Detected];
    let all = events + (detected + Seq::new(repeats, |i: int| AlertEvent::RepeatElapsed));
    if repeats == 0 {
        assert(all.drop_last() =~= events);
    } else {
        let fewer = Seq::new((repeats - 1) as nat, |i: int| AlertEvent::RepeatElapsed);
        effect_is_repeated(events, (repeats - 1) as nat, scan_alert_duration);
        assert(all.drop_last() =~= events + (detected + fewer));
        assert(all.last() == AlertEvent::RepeatElapsed);
    }
}

/// The alert is raised for the given duration, by the event that begins to show it, and cleared by
/// the event that ends it: its time, or the stop of the scan.
pub proof fn alert_lasts_until_ended(
    events: Seq<AlertEvent>,
    event: AlertEvent,
    scan_alert_duration: u64,
)
    ensures
        !alert_run(events) && alert_run(events.push(event)) <==> alert_action(
            alert_run(events),
            event,
            scan_alert_duration,
        ) == (AlertAction::Raise {
            effect: HapticEffect::LongDoubleSharpClickStrongTwo80,
            duration_seconds: scan_alert_duration,
        }),
        alert_run(events) && !alert_run(events.push(event)) <==> alert_action(
            alert_run(events),
            event,
            scan_alert_duration,
        ) == AlertAction::Clear,
        alert_run(events) ==> (!alert_run(events.push(event)) <==> event
            == AlertEvent::AlertElapsed || event == AlertEvent::ScanIs(ScanState::Stopped)),
{
    assert(events.push(event).drop_last() =~= events);
}

/// While an alert is shown, each time that the repeat comes round plays the effect again, and
/// nothing else does. While none is shown, only a detection plays it.
pub proof fn effect_is_played_iff(alert: bool, event: AlertEvent, scan_alert_duration: u64)
    ensures
        alert_action(alert, event, scan_alert_duration) is Repeat <==> alert && event
            == AlertEvent::RepeatElapsed,
        alert_action(alert, event, scan_alert_duration) is Raise <==> !alert && event
            == AlertEvent::Detected,
        alert_action(alert, event, scan_alert_duration) is Clear <==> alert && (event
            == AlertEvent::AlertElapsed || event == AlertEvent::ScanIs(ScanState::Stopped)),
{
}

} // verus!
