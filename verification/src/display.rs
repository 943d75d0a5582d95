//! When the display is on, and how bright it is.
use vstd::prelude::*;

verus! {

/// Ticks of the clock since start-up in a second.
pub const TICKS_PER_SECOND: u64 = 1_000_000;

/// The brightness of the display while it serves as flashlight.
pub const FLASHLIGHT_BRIGHTNESS: u8 = 255;

/// `as_secs` of `embassy_time`'s `Instant::duration_since`: the whole seconds between two instants,
/// each in ticks since start-up.
#[verifier::external_body]
fn seconds_since(now: u64, earlier: u64) -> (seconds: u64)
    requires
        earlier <= now,
    ensures
        seconds == (now - earlier) / TICKS_PER_SECOND as int,
{
    let now = embassy_time::Instant::from_ticks(now);
    now.duration_since(embassy_time::Instant::from_ticks(earlier)).as_secs()
}

/// What to do with the display.
#[derive(Clone, Copy, PartialEq, Eq, Structural, Debug)]
pub enum DisplayAction {
    Nothing,
    TurnOn,
    TurnOff,
}

/// The task that switches the display off when it was not touched for the time-out, if there is
/// one, and on again when it is touched.
#[derive(Clone, Copy, PartialEq, Eq, Structural, Debug)]
pub struct DisplayTimeoutTask {
    /// When the display was last touched, in ticks since start-up.
    pub last_touch: u64,
    /// Whether the display is on.
    pub display_on: bool,
}

impl DisplayTimeoutTask {
    /// Whether the time-out is over. A time-out of 0 never is.
    pub open spec fn timed_out(self, timeout: u8, now: u64) -> bool {
        timeout > 0 && now >= self.last_touch + timeout * TICKS_PER_SECOND
    }

    /// The task after a step: a touch keeps the display on, or switches it on; without one, it goes
    /// off when the time-out is over, unless the flashlight is on.
    pub open spec fn next(
        self,
        touch: Option<u64>,
        flashlight_on: bool,
        timeout: u8,
        now: u64,
    ) -> DisplayTimeoutTask {
        match touch {
            Some(touch) => DisplayTimeoutTask { last_touch: touch, display_on: true },
            None => DisplayTimeoutTask {
                display_on: self.display_on && (flashlight_on || !self.timed_out(timeout, now)),
                ..self
            },
        }
    }

    /// A task that starts `now`, with the display on.
    pub fn new(now: u64) -> (task: Self)
        ensures
            task.last_touch == now,
            task.display_on,
    {
        DisplayTimeoutTask { last_touch: now, display_on: true }
    }

    /// Takes a step `now`, given when the display was touched since the last step, if it was.
    pub fn step(&mut self, touch: Option<u64>, flashlight_on: bool, timeout: u8, now: u64) -> (action:
        DisplayAction)
        requires
            touch is None && !flashlight_on && timeout > 0 ==> old(self).last_touch <= now,
        ensures
            *final(self) == old(self).next(touch, flashlight_on, timeout, now),
            final(self).last_touch == (match touch {
                Some(touch) => touch,
                None => old(self).last_touch,
            }),
            final(self).display_on <==> touch is Some || (old(self).display_on && (flashlight_on
                || timeout == 0 || now < old(self).last_touch + timeout * 1_000_000)),
            action == (if !old(self).display_on && final(self).display_on {
                DisplayAction::TurnOn
            } else if old(self).display_on && !final(self).display_on {
                DisplayAction::TurnOff
            } else {
                DisplayAction::Nothing
            }),
    {
        if let Some(touch) = touch {
            self.last_touch = touch;
            if !self.display_on {
                self.display_on = true;
                return DisplayAction::TurnOn;
            }
        } else if !flashlight_on && timeout > 0 {
            if seconds_since(now, self.last_touch) >= timeout as u64 && self.display_on {
                self.display_on = false;
                return DisplayAction::TurnOff;
            }
        }
        DisplayAction::Nothing
    }
}

/// The brightness of the display when the flashlight was switched on or off: all of it, or what
/// the user has set.
pub fn set_flashlight_on(on: bool, display_brightness: u8) -> (brightness: u8)
    ensures
        brightness == (if on {
            FLASHLIGHT_BRIGHTNESS
        } else {
            display_brightness
        }),
{
    if on {
        FLASHLIGHT_BRIGHTNESS
    } else {
        display_brightness
    }
}

/// A touch leaves the display on, and it stays on until the time-out is over.
pub proof fn display_stays_on_until_timeout(
    task: DisplayTimeoutTask,
    touch: u64,
    flashlight_on: bool,
    timeout: u8,
    now: u64,
    later: u64,
)
    ensures
        task.next(Some(touch), flashlight_on, timeout, now).display_on,
        timeout == 0 || later < touch + timeout * TICKS_PER_SECOND ==> task.next(
            Some(touch),
            flashlight_on,
            timeout,
            now,
        ).next(None, flashlight_on, timeout, later).display_on,
{
}

/// Without a touch and without the flashlight, the display is off once as many seconds as the
/// time-out has are over since the last touch, and stays off.
pub proof fn display_goes_off_after_timeout(
    task: DisplayTimeoutTask,
    timeout: u8,
    now: u64,
    later: u64,
)
    requires
        timeout > 0,
        now >= task.last_touch + timeout * TICKS_PER_SECOND,
        now <= later,
    ensures
        !task.next(None, false, timeout, now).display_on,
        task.next(None, false, timeout, now).next(None, false, timeout, later) == task.next(
            None,
            false,
            timeout,
            now,
        ),
{
}

/// Without a time-out the display stays as it is until it is touched.
pub proof fn display_stays_without_timeout(
    task: DisplayTimeoutTask,
    flashlight_on: bool,
    now: u64,
)
    ensures
        task.next(None, flashlight_on, 0, now) == task,
{
}

/// While the flashlight is on, only a touch changes anything.
pub proof fn flashlight_holds_display(task: DisplayTimeoutTask, timeout: u8, now: u64)
    ensures
        task.next(None, true, timeout, now) == task,
{
}

/// A display that is on, and is not touched, is on after a step exactly if the flashlight is on, or
/// there is no time-out, or the seconds of the time-out are not over since the last touch. One that
/// is off stays off.
pub proof fn untouched_display_on_iff(
    task: DisplayTimeoutTask,
    flashlight_on: bool,
    timeout: u8,
    now: u64,
)
    ensures
        task.display_on ==> (task.next(None, flashlight_on, timeout, now).display_on <==> (
        flashlight_on || timeout == 0 || now - task.last_touch < timeout * TICKS_PER_SECOND)),
        !task.display_on ==> !task.next(None, flashlight_on, timeout, now).display_on,
        task.next(None, flashlight_on, timeout, now).last_touch == task.last_touch,
{
}

/// A touch switches the display on, whatever else is the case, and the time-out counts from it.
pub proof fn touch_switches_display_on(
    task: DisplayTimeoutTask,
    touch: u64,
    flashlight_on: bool,
    timeout: u8,
    now: u64,
)
    ensures
        task.next(Some(touch), flashlight_on, timeout, now).display_on,
        task.next(Some(touch), flashlight_on, timeout, now).last_touch == touch,
{
}

} // verus!
