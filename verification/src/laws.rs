//! Laws that hold over whole runs of events, not just one step.

use vstd::prelude::*;

use crate::input::InputEvent;
use crate::reader::MIN_SPEED;
use crate::reader::Reader;
use crate::reader::spec_event_step;

verus! {

/// The state after a whole run of window events, applied first to last.
pub open spec fn spec_apply_events(s: Reader, events: Seq<InputEvent>) -> Reader
    decreases events.len(),
{
    if events.len() == 0 {
        s
    } else {
        spec_apply_events(spec_event_step(s, events[0]), events.drop_first())
    }
}

/// A run of events is one shorter run followed by its last event.
pub proof fn lemma_apply_events_last(s: Reader, events: Seq<InputEvent>)
    requires
        events.len() > 0,
    ensures
        spec_apply_events(s, events) == spec_event_step(
            spec_apply_events(s, events.drop_last()),
            events.last(),
        ),
    decreases events.len(),
{
    if events.len() == 1 {
        assert(events.drop_last() =~= Seq::<InputEvent>::empty());
        assert(events.drop_first() =~= Seq::<InputEvent>::empty());
        assert(spec_apply_events(s, events) == spec_apply_events(
            spec_event_step(s, events[0]),
            events.drop_first(),
        ));
        assert(events[0] == events.last());
    } else {
        let stepped = spec_event_step(s, events[0]);
        let rest = events.drop_first();
        lemma_apply_events_last(stepped, rest);
        assert(rest.drop_last() =~= events.drop_last().drop_first());
        assert(rest.last() == events.last());
        assert(events.drop_last()[0] == events[0]);
        assert(spec_apply_events(s, events.drop_last()) == spec_apply_events(
            stepped,
            events.drop_last().drop_first(),
        ));
        assert(spec_apply_events(s, events) == spec_apply_events(stepped, rest));
    }
}

/// The speed never leaves the floor behind: starting at or above
/// `MIN_SPEED`, it is still at or above it after any run of events,
/// wheel ticks included.
pub proof fn lemma_speed_floor(s: Reader, events: Seq<InputEvent>)
    requires
        s.speed >= MIN_SPEED,
    ensures
        spec_apply_events(s, events).speed >= MIN_SPEED,
    decreases events.len(),
{
    if events.len() > 0 {
        lemma_speed_floor(spec_event_step(s, events[0]), events.drop_first());
    }
}

/// The drag counter is a count, never negative, and it returns to exactly
/// zero after every drop or drag-leave, however many drag-enters came
/// before.
pub proof fn lemma_drag_counter_resets(s: Reader, events: Seq<InputEvent>)
    requires
        events.len() > 0,
        events.last() is DragLeave || events.last() is FileDrop,
    ensures
        spec_apply_events(s, events).dragging == 0,
{
    lemma_apply_events_last(s, events);
}

} // verus!
