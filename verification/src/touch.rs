//! Touches of the display: from what the touch panel reports to what the user interface is told.
use vstd::prelude::*;

use crate::alert::HapticEffect;

verus! {

/// Where the display is touched, in pixels.
#[derive(Clone, Copy, PartialEq, Eq, Structural, Debug)]
pub struct TouchPoint {
    pub x: u16,
    pub y: u16,
}

/// What the user interface is told.
#[derive(Clone, Copy, PartialEq, Eq, Structural, Debug)]
pub enum PointerEvent {
    /// The left button went down.
    Pressed { position: TouchPoint },
    /// The pointer moved.
    Moved { position: TouchPoint },
    /// The left button went up.
    Released { position: TouchPoint },
}

/// What follows from one reading of the touch panel.
#[derive(Clone, Copy, PartialEq, Eq, Structural, Debug)]
pub struct TouchReaction {
    /// Whether the display is being touched.
    pub touched: bool,
    /// What to tell the user interface.
    pub event: Option<PointerEvent>,
    /// What the haptic motor is to play.
    pub effect: Option<HapticEffect>,
}

/// The touch of the first finger. Only touches with one finger matter.
pub open spec fn first_finger(touches: Seq<Option<TouchPoint>>) -> Option<TouchPoint> {
    if touches.len() > 0 {
        touches[0]
    } else {
        None
    }
}

/// What follows from a reading, given the reading before it: a first touch presses, a further one
/// moves, and the end of a touch releases where it was last.
pub open spec fn reaction(before: Option<TouchPoint>, now: Option<TouchPoint>) -> TouchReaction {
    match (before, now) {
        (None, Some(point)) => TouchReaction {
            touched: true,
            event: Some(PointerEvent::Pressed { position: point }),
            effect: Some(HapticEffect::StrongClick100),
        },
        (Some(_), Some(point)) => TouchReaction {
            touched: true,
            event: Some(PointerEvent::Moved { position: point }),
            effect: None,
        },
        (Some(point), None) => TouchReaction {
            touched: false,
            event: Some(PointerEvent::Released { position: point }),
            effect: None,
        },
        (None, None) => TouchReaction { touched: false, event: None, effect: None },
    }
}

/// The task that follows the finger on the display.
#[derive(Clone, Copy, PartialEq, Eq, Structural, Debug)]
pub struct TouchTask {
    /// Where the display was touched at the last reading.
    pub last_touch_point: Option<TouchPoint>,
}

impl TouchTask {
    /// A task that has seen no touch.
    pub fn new() -> (task: Self)
        ensures
            task.last_touch_point is None,
    {
        TouchTask { last_touch_point: None }
    }

    /// Takes a reading of the touch panel: the touch of each finger.
    pub fn handle(&mut self, touches: &[Option<TouchPoint>]) -> (reaction: TouchReaction)
        ensures
            final(self).last_touch_point == first_finger(touches@),
            reaction == self::reaction(old(self).last_touch_point, first_finger(touches@)),
            final(self).last_touch_point == (if touches@.len() > 0 {
                touches@[0]
            } else {
                None
            }),
            reaction.touched <==> final(self).last_touch_point is Some,
            reaction.event == (match (old(self).last_touch_point, final(self).last_touch_point) {
                (None, Some(point)) => Some(PointerEvent::Pressed { position: point }),
                (Some(_), Some(point)) => Some(PointerEvent::Moved { position: point }),
                (Some(point), None) => Some(PointerEvent::Released { position: point }),
                (None, None) => None,
            }),
            reaction.effect == (if old(self).last_touch_point is None && final(self).last_touch_point is Some {
                Some(HapticEffect::StrongClick100)
            } else {
                None
            }),
    {
        let touch_point = if touches.len() > 0 {
            touches[0]
        } else {
            None
        };
        if let Some(point) = touch_point {
            let reaction = if self.last_touch_point.is_some() {
                TouchReaction {
                    touched: true,
                    event: Some(PointerEvent::Moved { position: point }),
                    effect: None,
                }
            } else {
                TouchReaction {
                    touched: true,
                    event: Some(PointerEvent::Pressed { position: point }),
                    effect: Some(HapticEffect::StrongClick100),
                }
            };
            self.last_touch_point = Some(point);
            reaction
        } else if let Some(point) = self.last_touch_point {
            self.last_touch_point = None;
            TouchReaction {
                touched: false,
                event: Some(PointerEvent::Released { position: point }),
                effect: None,
            }
        } else {
            TouchReaction { touched: false, event: None, effect: None }
        }
    }
}

/// The reading before the `i`th of a sequence of readings. Before the first there was no touch.
pub open spec fn reading_before(readings: Seq<Option<TouchPoint>>, i: int) -> Option<TouchPoint> {
    if i == 0 {
        None
    } else {
        readings[i - 1]
    }
}

/// What the user interface is told over a sequence of readings.
pub open spec fn pointer_events(readings: Seq<Option<TouchPoint>>) -> Seq<PointerEvent>
    decreases readings.len(),
{
    if readings.len() == 0 {
        Seq::empty()
    } else {
        let i = readings.len() - 1;
        let earlier = pointer_events(readings.drop_last());
        match reaction(reading_before(readings, i), readings[i]).event {
            Some(event) => earlier.push(event),
            None => earlier,
        }
    }
}

/// Whether the button is down after the given events.
pub open spec fn button_down(events: Seq<PointerEvent>) -> bool {
    events.len() > 0 && !(events.last() is Released)
}

/// Where the pointer is at an event.
pub open spec fn position_of(event: PointerEvent) -> TouchPoint {
    match event {
        PointerEvent::Pressed { position } => position,
        PointerEvent::Moved { position } => position,
        PointerEvent::Released { position } => position,
    }
}

/// Whether the button goes up where the event just before it left the pointer.
pub open spec fn releases_in_place(events: Seq<PointerEvent>) -> bool {
    forall|i: int|
        0 <= i < events.len() && (#[trigger] events[i]) is Released ==> i > 0 && position_of(
            events[i],
        ) == position_of(events[i - 1])
}

/// Whether each event of a sequence fits those before it: the button goes down only when it is up,
/// and moves and goes up only when it is down.
pub open spec fn well_formed_gestures(events: Seq<PointerEvent>) -> bool {
    forall|i: int|
        0 <= i < events.len() ==> ((#[trigger] events[i]) is Pressed) == !button_down(
            events.take(i),
        )
}

/// Whatever the touch panel reports, the user interface is told of whole gestures: a press, moves,
/// and a release where the finger was last. The button is down exactly while the display is touched,
/// and the pointer is where it is touched.
pub proof fn gestures_are_well_formed(readings: Seq<Option<TouchPoint>>)
    ensures
        well_formed_gestures(pointer_events(readings)),
        releases_in_place(pointer_events(readings)),
        button_down(pointer_events(readings)) == (readings.len() > 0 && readings.last() is Some),
        readings.len() > 0 && readings.last() is Some ==> position_of(
            pointer_events(readings).last(),
        ) == readings.last()->0,
    decreases readings.len(),
{
    if readings.len() > 0 {
        let before = readings.drop_last();
        let i = readings.len() - 1;
        gestures_are_well_formed(before);
        let earlier = pointer_events(before);
        let events = pointer_events(readings);
        assert(reading_before(readings, i) is Some == button_down(earlier));
        if let Some(event) = reaction(reading_before(readings, i), readings[i]).event {
            assert forall|k: int| 0 <= k < events.len() implies ((#[trigger] events[k]) is Pressed)
                == !button_down(events.take(k)) by {
                assert(events.take(k) =~= earlier.take(k));
                if k < earlier.len() {
                    assert(events[k] == earlier[k]);
                } else {
                    assert(earlier.take(k) =~= earlier);
                }
            }
            assert forall|k: int|
                0 <= k < events.len() && (#[trigger] events[k]) is Released implies k > 0
                && position_of(events[k]) == position_of(events[k - 1]) by {
                if k < earlier.len() {
                    assert(events[k] == earlier[k]);
                }
            }
        }
    }
}

/// The user interface is told of every reading with a touch, at the place of the touch, and of the
/// first one without, at the place of the last touch. Only a press is felt.
pub proof fn every_touch_is_told(before: Option<TouchPoint>, now: Option<TouchPoint>)
    ensures
        reaction(before, now).touched <==> now is Some,
        reaction(before, now).event is None <==> before is None && now is None,
        now is Some ==> position_of(reaction(before, now).event->0) == now->0,
        now is None && before is Some ==> position_of(reaction(before, now).event->0)
            == before->0,
        now is None && before is Some <==> (reaction(before, now).event matches Some(event)
            && event is Released),
        now is Some && before is None <==> (reaction(before, now).event matches Some(event)
            && event is Pressed),
        reaction(before, now).effect == (if now is Some && before is None {
            Some(HapticEffect::StrongClick100)
        } else {
            None
        }),
{
}

} // verus!
