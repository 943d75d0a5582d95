//! The two scans of the watch: for smart glasses over Bluetooth and for Remote Id over Wi-Fi.
//!
//! Each scan is a task that is told of commands and of the end of its time, and that says what to
//! do with the radio.
use vstd::prelude::*;

use crate::latch;

verus! {

/// What the user asks of a scan.
#[derive(Clone, Copy, PartialEq, Eq, Structural, Debug)]
pub enum ScanCommand {
    Start,
    Stop,
}

/// Whether a scan is under way.
#[derive(Clone, Copy, PartialEq, Eq, Structural, Debug)]
pub enum ScanState {
    Running,
    Stopped,
}

/// What a scan for smart glasses is told.
#[derive(Clone, Copy, PartialEq, Eq, Structural, Debug)]
pub enum SmartGlassesScanEvent {
    /// The user gave a command.
    Command(ScanCommand),
    /// The duration of the scan is over.
    DurationElapsed,
    /// The Bluetooth host and its scanner came to an end by themselves.
    RadioFinished,
}

/// What to do with the Bluetooth radio.
#[derive(Clone, Copy, PartialEq, Eq, Structural, Debug)]
pub enum SmartGlassesScanAction {
    Nothing,
    /// Start scanning, for so many seconds.
    StartScan { duration_seconds: u64 },
    /// Stop scanning and give the radio back.
    StopScan,
}

impl SmartGlassesScanEvent {
    /// Whether the event starts a scan where none is running.
    pub open spec fn starts(self) -> bool {
        self == SmartGlassesScanEvent::Command(ScanCommand::Start)
    }

    /// Whether the event ends a running scan.
    pub open spec fn ends(self) -> bool {
        match self {
            SmartGlassesScanEvent::Command(command) => command == ScanCommand::Stop,
            SmartGlassesScanEvent::DurationElapsed => true,
            SmartGlassesScanEvent::RadioFinished => true,
        }
    }
}

/// The state of a scan for smart glasses after an event.
pub open spec fn smart_glasses_next(state: ScanState, event: SmartGlassesScanEvent) -> ScanState {
    if event.starts() {
        ScanState::Running
    } else if event.ends() {
        ScanState::Stopped
    } else {
        state
    }
}

/// The task that scans for smart glasses.
#[derive(Clone, Copy, PartialEq, Eq, Structural, Debug)]
pub struct SmartGlassesScanTask {
    pub state: ScanState,
}

impl SmartGlassesScanTask {
    /// A task whose scan is stopped.
    pub fn new() -> (task: Self)
        ensures
            task.state == ScanState::Stopped,
    {
        SmartGlassesScanTask { state: ScanState::Stopped }
    }

    /// Takes an event. A scan that starts lasts for the duration that the settings have then. A
    /// start while a scan is running and anything else while none is running change nothing.
    pub fn handle(
        &mut self,
        event: SmartGlassesScanEvent,
        scan_duration: u8,
    ) -> (action: SmartGlassesScanAction)
        ensures
            final(self).state == smart_glasses_next(old(self).state, event),
            action == (if old(self).state == ScanState::Stopped && event.starts() {
                SmartGlassesScanAction::StartScan { duration_seconds: scan_duration as u64 }
            } else if old(self).state == ScanState::Running && event.ends() {
                SmartGlassesScanAction::StopScan
            } else {
                SmartGlassesScanAction::Nothing
            }),
            old(self).state == ScanState::Stopped ==> (if event == SmartGlassesScanEvent::Command(
                ScanCommand::Start,
            ) {
                action == (SmartGlassesScanAction::StartScan {
                    duration_seconds: scan_duration as u64,
                }) && final(self).state == ScanState::Running
            } else {
                action == SmartGlassesScanAction::Nothing && final(self).state
                    == ScanState::Stopped
            }),
            old(self).state == ScanState::Running ==> (if event == SmartGlassesScanEvent::Command(
                ScanCommand::Start,
            ) {
                action == SmartGlassesScanAction::Nothing && final(self).state
                    == ScanState::Running
            } else {
                action == SmartGlassesScanAction::StopScan && final(self).state
                    == ScanState::Stopped
            }),
    {
        match (self.state, event) {
            (ScanState::Stopped, SmartGlassesScanEvent::Command(ScanCommand::Start)) => {
                self.state = ScanState::Running;
                SmartGlassesScanAction::StartScan { duration_seconds: scan_duration as u64 }
            },
            (ScanState::Stopped, _) => SmartGlassesScanAction::Nothing,
            (ScanState::Running, SmartGlassesScanEvent::Command(ScanCommand::Start)) => {
                SmartGlassesScanAction::Nothing
            },
            (ScanState::Running, _) => {
                self.state = ScanState::Stopped;
                SmartGlassesScanAction::StopScan
            },
        }
    }
}

/// The first Wi-Fi channel that is listened to.
pub const FIRST_WIFI_CHANNEL: u8 = 1;

/// The last Wi-Fi channel that is listened to.
pub const LAST_WIFI_CHANNEL: u8 = 14;

/// Seconds that a Wi-Fi channel is listened to.
pub const CHANNEL_HOP_SECONDS: u64 = 1;

/// What a scan for Remote Id is told.
#[derive(Clone, Copy, PartialEq, Eq, Structural, Debug)]
pub enum RemoteIdScanEvent {
    /// The user gave a command.
    Command(ScanCommand),
    /// The duration of the scan is over.
    DurationElapsed,
    /// The time for the present channel is over.
    HopElapsed,
}

/// What to do with the Wi-Fi radio.
#[derive(Clone, Copy, PartialEq, Eq, Structural, Debug)]
pub enum RemoteIdScanAction {
    Nothing,
    /// Start listening on a channel, for so many seconds in all.
    StartScan { duration_seconds: u64, channel: u8 },
    /// Go on listening on another channel.
    SetChannel { channel: u8 },
    /// Stop listening and give the radio back.
    StopScan,
}

impl RemoteIdScanEvent {
    /// Whether the event starts a scan where none is running.
    pub open spec fn starts(self) -> bool {
        self == RemoteIdScanEvent::Command(ScanCommand::Start)
    }

    /// Whether the event ends a running scan.
    pub open spec fn ends(self) -> bool {
        match self {
            RemoteIdScanEvent::Command(command) => command == ScanCommand::Stop,
            RemoteIdScanEvent::DurationElapsed => true,
            RemoteIdScanEvent::HopElapsed => false,
        }
    }
}

/// The channel that follows another.
pub open spec fn channel_after(channel: u8) -> u8 {
    if channel == LAST_WIFI_CHANNEL {
        FIRST_WIFI_CHANNEL
    } else {
        (channel + 1) as u8
    }
}

/// The channel that a scan listens to after so many hops.
pub open spec fn channel_at(hops: nat) -> u8
    decreases hops,
{
    if hops == 0 {
        FIRST_WIFI_CHANNEL
    } else {
        channel_after(channel_at((hops - 1) as nat))
    }
}

/// The task that listens for Remote Id.
#[derive(Clone, Copy, PartialEq, Eq, Structural, Debug)]
pub struct RemoteIdScanTask {
    pub state: ScanState,
    /// The channel that is listened to, or was last.
    pub channel: u8,
}

impl RemoteIdScanTask {
    /// The channel is one that is listened to.
    pub open spec fn wf(self) -> bool {
        FIRST_WIFI_CHANNEL <= self.channel <= LAST_WIFI_CHANNEL
    }

    /// The task after an event.
    pub open spec fn next(self, event: RemoteIdScanEvent) -> RemoteIdScanTask {
        if self.state == ScanState::Stopped {
            if event.starts() {
                RemoteIdScanTask { state: ScanState::Running, channel: FIRST_WIFI_CHANNEL }
            } else {
                self
            }
        } else if event.ends() {
            RemoteIdScanTask { state: ScanState::Stopped, ..self }
        } else if event == RemoteIdScanEvent::HopElapsed {
            RemoteIdScanTask { channel: channel_after(self.channel), ..self }
        } else {
            self
        }
    }

    /// A task whose scan is stopped.
    pub fn new() -> (task: Self)
        ensures
            task.wf(),
            task.state == ScanState::Stopped,
            task.channel == FIRST_WIFI_CHANNEL,
    {
        RemoteIdScanTask { state: ScanState::Stopped, channel: FIRST_WIFI_CHANNEL }
    }

    /// Takes an event. A scan that starts lasts for the duration that the settings have then, and
    /// begins at the first channel. A start while a scan is running and anything else while none is
    /// running change nothing.
    pub fn handle(&mut self, event: RemoteIdScanEvent, scan_duration: u8) -> (action:
        RemoteIdScanAction)
        requires
            old(self).wf(),
        ensures
            final(self).wf(),
            *final(self) == old(self).next(event),
            action == (if old(self).state == ScanState::Stopped && event.starts() {
                RemoteIdScanAction::StartScan {
                    duration_seconds: scan_duration as u64,
                    channel: FIRST_WIFI_CHANNEL,
                }
            } else if old(self).state == ScanState::Running && event.ends() {
                RemoteIdScanAction::StopScan
            } else if old(self).state == ScanState::Running && event
                == RemoteIdScanEvent::HopElapsed {
                RemoteIdScanAction::SetChannel { channel: channel_after(old(self).channel) }
            } else {
                RemoteIdScanAction::Nothing
            }),
            old(self).state == ScanState::Stopped ==> (if event == RemoteIdScanEvent::Command(
                ScanCommand::Start,
            ) {
                action == (RemoteIdScanAction::StartScan {
                    duration_seconds: scan_duration as u64,
                    channel: 1,
                }) && final(self).state == ScanState::Running && final(self).channel == 1
            } else {
                action == RemoteIdScanAction::Nothing && *final(self) == *old(self)
            }),
            old(self).state == ScanState::Running ==> (match event {
                RemoteIdScanEvent::Command(ScanCommand::Start) => action
                    == RemoteIdScanAction::Nothing && *final(self) == *old(self),
                RemoteIdScanEvent::HopElapsed => action == (RemoteIdScanAction::SetChannel {
                    channel: final(self).channel,
                }) && final(self).state == ScanState::Running && final(self).channel == old(self).channel % 14 + 1,
                _ => action == RemoteIdScanAction::StopScan && final(self).state
                    == ScanState::Stopped,
            }),
    {
        match (self.state, event) {
            (ScanState::Stopped, RemoteIdScanEvent::Command(ScanCommand::Start)) => {
                self.state = ScanState::Running;
                self.channel = FIRST_WIFI_CHANNEL;
                RemoteIdScanAction::StartScan {
                    duration_seconds: scan_duration as u64,
                    channel: self.channel,
                }
            },
            (ScanState::Stopped, _) => RemoteIdScanAction::Nothing,
            (ScanState::Running, RemoteIdScanEvent::Command(ScanCommand::Start)) => {
                RemoteIdScanAction::Nothing
            },
            (ScanState::Running, RemoteIdScanEvent::HopElapsed) => {
                if self.channel == LAST_WIFI_CHANNEL {
                    self.channel = FIRST_WIFI_CHANNEL;
                } else {
                    self.channel = self.channel + 1;
                }
                RemoteIdScanAction::SetChannel { channel: self.channel }
            },
            (ScanState::Running, _) => {
                self.state = ScanState::Stopped;
                RemoteIdScanAction::StopScan
            },
        }
    }
}

/// The state of a scan for smart glasses after a sequence of events.
pub open spec fn smart_glasses_run(events: Seq<SmartGlassesScanEvent>) -> ScanState
    decreases events.len(),
{
    if events.len() == 0 {
        ScanState::Stopped
    } else {
        smart_glasses_next(smart_glasses_run(events.drop_last()), events.last())
    }
}

proof fn lemma_smart_glasses_run_is_latched(events: Seq<SmartGlassesScanEvent>)
    ensures
        smart_glasses_run(events) == ScanState::Running <==> latch::latched(
            events,
            |event: SmartGlassesScanEvent|
                event == SmartGlassesScanEvent::Command(ScanCommand::Start),
            |event: SmartGlassesScanEvent|
                event != SmartGlassesScanEvent::Command(ScanCommand::Start),
        ),
    decreases events.len(),
{
    if events.len() > 0 {
        lemma_smart_glasses_run_is_latched(events.drop_last());
    }
}

/// A scan for smart glasses is running exactly when it was started, and since then it was neither
/// told to stop nor came to the end of its duration or of the radio's work.
pub proof fn smart_glasses_run_iff_started(events: Seq<SmartGlassesScanEvent>)
    ensures
        smart_glasses_run(events) == ScanState::Running <==> latch::on_since_some(
            events,
            |event: SmartGlassesScanEvent|
                event == SmartGlassesScanEvent::Command(ScanCommand::Start),
            |event: SmartGlassesScanEvent|
                event != SmartGlassesScanEvent::Command(ScanCommand::Start),
        ),
{
    lemma_smart_glasses_run_is_latched(events);
    latch::latched_iff_on_since_some(
        events,
        |event: SmartGlassesScanEvent|
                event == SmartGlassesScanEvent::Command(ScanCommand::Start),
        |event: SmartGlassesScanEvent|
                event != SmartGlassesScanEvent::Command(ScanCommand::Start),
    );
}

/// The task that listens for Remote Id after a sequence of events.
pub open spec fn remote_id_run(events: Seq<RemoteIdScanEvent>) -> RemoteIdScanTask
    decreases events.len(),
{
    if events.len() == 0 {
        RemoteIdScanTask { state: ScanState::Stopped, channel: FIRST_WIFI_CHANNEL }
    } else {
        remote_id_run(events.drop_last()).next(events.last())
    }
}

proof fn lemma_remote_id_run_is_latched(events: Seq<RemoteIdScanEvent>)
    ensures
        remote_id_run(events).state == ScanState::Running <==> latch::latched(
            events,
            |event: RemoteIdScanEvent| event == RemoteIdScanEvent::Command(ScanCommand::Start),
            |event: RemoteIdScanEvent|
                event == RemoteIdScanEvent::Command(ScanCommand::Stop) || event
                    == RemoteIdScanEvent::DurationElapsed,
        ),
    decreases events.len(),
{
    if events.len() > 0 {
        lemma_remote_id_run_is_latched(events.drop_last());
    }
}

/// A scan for Remote Id is running exactly when it was started, and since then it was neither told
/// to stop nor came to the end of its duration.
pub proof fn remote_id_run_iff_started(events: Seq<RemoteIdScanEvent>)
    ensures
        remote_id_run(events).state == ScanState::Running <==> latch::on_since_some(
            events,
            |event: RemoteIdScanEvent| event == RemoteIdScanEvent::Command(ScanCommand::Start),
            |event: RemoteIdScanEvent|
                event == RemoteIdScanEvent::Command(ScanCommand::Stop) || event
                    == RemoteIdScanEvent::DurationElapsed,
        ),
{
    lemma_remote_id_run_is_latched(events);
    latch::latched_iff_on_since_some(
        events,
        |event: RemoteIdScanEvent| event == RemoteIdScanEvent::Command(ScanCommand::Start),
        |event: RemoteIdScanEvent|
                event == RemoteIdScanEvent::Command(ScanCommand::Stop) || event
                    == RemoteIdScanEvent::DurationElapsed,
    );
}

/// Whatever happens, the channel stays one that is listened to.
pub proof fn channel_stays_in_range(events: Seq<RemoteIdScanEvent>)
    ensures
        remote_id_run(events).wf(),
    decreases events.len(),
{
    if events.len() > 0 {
        channel_stays_in_range(events.drop_last());
    }
}

/// The channels come round: after so many hops the scan is on the channel that is the remainder,
/// counted from the first.
pub proof fn channels_come_round(hops: nat)
    ensures
        channel_at(hops) == hops % 14 + 1,
    decreases hops,
{
    if hops > 0 {
        channels_come_round((hops - 1) as nat);
    }
}

/// Within any fourteen hops in a row every channel is listened to.
pub proof fn every_channel_is_visited(from: nat, channel: u8) -> (hops: nat)
    requires
        FIRST_WIFI_CHANNEL <= channel <= LAST_WIFI_CHANNEL,
    ensures
        from <= hops < from + 14,
        channel_at(hops) == channel,
{
    let hops = (from + (channel - 1 - from % 14) % 14) as nat;
    channels_come_round(hops);
    hops
}

/// A scan that is started and then hops is on the channel that the number of hops gives.
pub proof fn hops_advance_channel(events: Seq<RemoteIdScanEvent>, hops: nat)
    requires
        remote_id_run(events).state == ScanState::Stopped,
    ensures
        remote_id_run(
            events + (seq![RemoteIdScanEvent::Command(ScanCommand::Start)] + Seq::new(
                hops,
                |i: int| RemoteIdScanEvent::HopElapsed,
            )),
        ) == (RemoteIdScanTask { state: ScanState::Running, channel: channel_at(hops) }),
    decreases hops,
{
    let start = seq![RemoteIdScanEvent::Command(ScanCommand::Start)];
    let hop = Seq::new(hops, |i: int| RemoteIdScanEvent::HopElapsed);
    let all = events + (start + hop);
    if hops == 0 {
        assert(all.drop_last() =~= events);
    } else {
        let fewer = Seq::new((hops - 1) as nat, |i: int| RemoteIdScanEvent::HopElapsed);
        hops_advance_channel(events, (hops - 1) as nat);
        assert(all.drop_last() =~= events + (start + fewer));
        assert(all.last() == RemoteIdScanEvent::HopElapsed);
    }
}

} // verus!
