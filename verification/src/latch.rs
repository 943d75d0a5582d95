//! Something that some events switch on and others switch off: whether it is on after all of them.
use vstd::prelude::*;

verus! {

/// Whether it is on after a sequence of events. It is off before the first.
pub open spec fn latched<E>(
    events: Seq<E>,
    starts: spec_fn(E) -> bool,
    ends: spec_fn(E) -> bool,
) -> bool
    decreases events.len(),
{
    events.len() > 0 && (starts(events.last()) || (!ends(events.last()) && latched(
        events.drop_last(),
        starts,
        ends,
    )))
}

/// Whether the event at `start` switched it on, and none since switched it off.
pub open spec fn on_since<E>(
    events: Seq<E>,
    starts: spec_fn(E) -> bool,
    ends: spec_fn(E) -> bool,
    start: int,
) -> bool {
    &&& 0 <= start < events.len()
    &&& starts(events[start])
    &&& forall|j: int| start < j < events.len() ==> !ends(#[trigger] events[j])
}

/// Whether some event switched it on, and none since switched it off.
pub open spec fn on_since_some<E>(
    events: Seq<E>,
    starts: spec_fn(E) -> bool,
    ends: spec_fn(E) -> bool,
) -> bool {
    exists|start: int| on_since(events, starts, ends, start)
}

/// It is on exactly when an event switched it on and none since switched it off.
pub proof fn latched_iff_on_since_some<E>(
    events: Seq<E>,
    starts: spec_fn(E) -> bool,
    ends: spec_fn(E) -> bool,
)
    ensures
        latched(events, starts, ends) == on_since_some(events, starts, ends),
    decreases events.len(),
{
    if events.len() > 0 {
        let before = events.drop_last();
        let last = events.len() - 1;
        latched_iff_on_since_some(before, starts, ends);
        if latched(events, starts, ends) {
            if starts(events.last()) {
                assert(on_since(events, starts, ends, last));
            } else {
                let start = choose|start: int| on_since(before, starts, ends, start);
                assert forall|j: int| start < j < events.len() implies !ends(
                    #[trigger] events[j],
                ) by {
                    if j < last {
                        assert(before[j] == events[j]);
                    }
                }
                assert(on_since(events, starts, ends, start));
            }
        }
        if on_since_some(events, starts, ends) {
            let start = choose|start: int| on_since(events, starts, ends, start);
            if start < last {
                assert forall|j: int| start < j < before.len() implies !ends(
                    #[trigger] before[j],
                ) by {
                    assert(before[j] == events[j]);
                }
                assert(on_since(before, starts, ends, start));
                assert(!ends(events[last]));
            }
        }
    }
}

} // verus!
