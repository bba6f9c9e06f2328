//! What holds of the translator's state machine on every input.

use vstd::prelude::*;
use crate::decimal::{decimal, lemma_decimal_digits, signed_decimal};
use crate::event::{EventKind, PointerEvent, KEY_PRESSED, KEY_RELEASED, TRIGGER_BUTTON_CODE};
use crate::model::State;
use crate::protocol::{
    ACTIVE_TRACKING_ID, NO_TRACKING_ID, TAG_ABS_X, TAG_ABS_Y, TAG_MT_X, TAG_MT_Y, TAG_SLOT,
    TAG_SYNC, TAG_TOOL, TAG_TOUCH, TAG_TRACKING_ID, LINE_FEED, line, resync_sequence,
};

verus! {

/// The state after a run of horizontal motions, one after the other.
pub open spec fn after_moves_x(s: State, deltas: Seq<int>) -> State
    decreases deltas.len(),
{
    if deltas.len() == 0 {
        s
    } else {
        after_moves_x(s, deltas.drop_last()).move_x(deltas.last())
    }
}

/// The state after a run of vertical motions, one after the other.
pub open spec fn after_moves_y(s: State, deltas: Seq<int>) -> State
    decreases deltas.len(),
{
    if deltas.len() == 0 {
        s
    } else {
        after_moves_y(s, deltas.drop_last()).move_y(deltas.last())
    }
}

/// An event that asks nothing of the translator: neither motion along one of
/// the two axes nor a press or release of the trigger button.
pub open spec fn inert(event: PointerEvent) -> bool {
    &&& !event.is_motion_x()
    &&& !event.is_motion_y()
    &&& !event.is_press()
    &&& !event.is_release()
}

/// A command is exactly one line: it ends in a line feed and holds no other.
pub proof fn lemma_line_is_one_line(tag: u8, value: int)
    requires
        tag != LINE_FEED,
    ensures
        line(tag, value).len() >= 4,
        line(tag, value).last() == LINE_FEED,
        forall|i: int|
            0 <= i < line(tag, value).len() - 1 ==> #[trigger] line(tag, value)[i] != LINE_FEED,
{
    let text = signed_decimal(value);
    if value < 0 {
        lemma_decimal_digits((-value) as nat);
    } else {
        lemma_decimal_digits(value as nat);
    }
    assert(text.len() >= 1);
    assert forall|j: int| 0 <= j < text.len() implies #[trigger] text[j] != LINE_FEED by {
        if value < 0 {
            if j > 0 {
                assert(text[j] == decimal((-value) as nat)[j - 1]);
            }
        }
    }
    assert forall|i: int| 0 <= i < line(tag, value).len() - 1 implies #[trigger] line(
        tag,
        value,
    )[i] != LINE_FEED by {
        if i >= 2 {
            assert(line(tag, value)[i] == text[i - 2]);
        }
    }
}

/// Whatever horizontal motions are applied, in whatever number, the position
/// stays between 0 and its bound, and nothing else changes.
pub proof fn lemma_moves_x_stay_within_bounds(s: State, deltas: Seq<int>)
    requires
        s.inv(),
    ensures
        0 <= after_moves_x(s, deltas).x <= s.max_x,
        after_moves_x(s, deltas) == (State { x: after_moves_x(s, deltas).x, ..s }),
    decreases deltas.len(),
{
    if deltas.len() > 0 {
        lemma_moves_x_stay_within_bounds(s, deltas.drop_last());
    }
}

/// Whatever vertical motions are applied, in whatever number, the position
/// stays between 0 and its bound, and nothing else changes.
pub proof fn lemma_moves_y_stay_within_bounds(s: State, deltas: Seq<int>)
    requires
        s.inv(),
    ensures
        0 <= after_moves_y(s, deltas).y <= s.max_y,
        after_moves_y(s, deltas) == (State { y: after_moves_y(s, deltas).y, ..s }),
    decreases deltas.len(),
{
    if deltas.len() > 0 {
        lemma_moves_y_stay_within_bounds(s, deltas.drop_last());
    }
}

/// One motion that overshoots a bound lands on it: far enough to the right
/// gives the bound, far enough to the left gives 0.
pub proof fn lemma_move_saturates(s: State, delta: int)
    requires
        s.inv(),
    ensures
        s.x + delta >= s.max_x ==> s.move_x(delta).x == s.max_x,
        s.x + delta <= 0 ==> s.move_x(delta).x == 0,
        s.y + delta >= s.max_y ==> s.move_y(delta).y == s.max_y,
        s.y + delta <= 0 ==> s.move_y(delta).y == 0,
{
}

/// No event moves the position out of its bounds, changes the bounds, or
/// leaves the contact with a tracking id other than the two that stand for
/// "down" and "none".
pub proof fn lemma_step_preserves_inv(s: State, event: PointerEvent)
    requires
        s.inv(),
    ensures
        s.step(event).inv(),
        s.step(event).max_x == s.max_x,
        s.step(event).max_y == s.max_y,
        s.step(event).contact.tracking_id() == ACTIVE_TRACKING_ID || s.step(
            event,
        ).contact.tracking_id() == NO_TRACKING_ID,
{
}

/// The position stays within its bounds over every run of events and over
/// the refresh that ends a batch.
pub proof fn lemma_batch_preserves_inv(s: State, events: Seq<PointerEvent>)
    requires
        s.inv(),
    ensures
        s.run(events).inv(),
        s.run(events).max_x == s.max_x,
        s.run(events).max_y == s.max_y,
        s.batch(events).inv(),
    decreases events.len(),
{
    if events.len() > 0 {
        lemma_batch_preserves_inv(s, events.drop_last());
        lemma_step_preserves_inv(s.run(events.drop_last()), events.last());
    }
}

/// A press of the trigger button with no contact brings the contact down and
/// sends exactly nine commands, in this order: slot, tracking id, multi-touch
/// x and y, touch down, tool active, single-touch x and y, frame sync. The
/// position sent is the one held at that moment, and it does not change.
pub proof fn lemma_press_when_idle(s: State, event: PointerEvent)
    requires
        !s.tracking(),
        event.is_press(),
    ensures
        s.step(event).tracking(),
        s.step(event).x == s.x,
        s.step(event).y == s.y,
        s.step(event).max_x == s.max_x,
        s.step(event).max_y == s.max_y,
        s.step(event).pending == s.pending + (line(TAG_SLOT, 0) + line(TAG_TRACKING_ID, 64) + line(
            TAG_MT_X,
            s.x,
        ) + line(TAG_MT_Y, s.y) + line(TAG_TOUCH, 1) + line(TAG_TOOL, 1) + line(TAG_ABS_X, s.x)
            + line(TAG_ABS_Y, s.y) + line(TAG_SYNC, 0)),
{
    assert(s.step(event).pending =~= s.pending + (line(TAG_SLOT, 0) + line(TAG_TRACKING_ID, 64)
        + line(TAG_MT_X, s.x) + line(TAG_MT_Y, s.y) + line(TAG_TOUCH, 1) + line(TAG_TOOL, 1)
        + line(TAG_ABS_X, s.x) + line(TAG_ABS_Y, s.y) + line(TAG_SYNC, 0)));
}

/// A release of the trigger button with the contact down brings it up and
/// sends exactly four commands, in this order: tracking id cleared, touch up,
/// tool inactive, frame sync.
pub proof fn lemma_release_when_tracking(s: State, event: PointerEvent)
    requires
        s.tracking(),
        event.is_release(),
    ensures
        !s.step(event).tracking(),
        s.step(event).x == s.x,
        s.step(event).y == s.y,
        s.step(event).max_x == s.max_x,
        s.step(event).max_y == s.max_y,
        s.step(event).pending == s.pending + (line(TAG_TRACKING_ID, -1) + line(TAG_TOUCH, 0)
            + line(TAG_TOOL, 0) + line(TAG_SYNC, 0)),
{
    assert(s.step(event).pending =~= s.pending + (line(TAG_TRACKING_ID, -1) + line(TAG_TOUCH, 0)
        + line(TAG_TOOL, 0) + line(TAG_SYNC, 0)));
}

/// A release of the trigger button with no contact changes nothing and sends
/// nothing.
pub proof fn lemma_release_when_idle(s: State, event: PointerEvent)
    requires
        !s.tracking(),
        event.is_release(),
    ensures
        s.step(event) == s,
{
}

/// A key event for another key than the trigger button, or for the trigger
/// button with a value that is neither press nor release, changes nothing:
/// not the position, not the contact, not what was sent.
pub proof fn lemma_ignored_key(s: State, event: PointerEvent)
    requires
        event.kind == EventKind::Key,
        event.code != TRIGGER_BUTTON_CODE || (event.value != KEY_PRESSED && event.value
            != KEY_RELEASED),
    ensures
        s.step(event) == s,
{
}

/// Motion never changes the contact and never sends anything.
pub proof fn lemma_motion_is_silent(s: State, event: PointerEvent)
    requires
        event.kind == EventKind::Relative,
    ensures
        s.step(event).contact == s.contact,
        s.step(event).pending == s.pending,
        s.step(event).max_x == s.max_x,
        s.step(event).max_y == s.max_y,
{
}

/// A run of inert events changes nothing.
pub proof fn lemma_inert_run(s: State, events: Seq<PointerEvent>)
    requires
        forall|i: int| 0 <= i < events.len() ==> inert(#[trigger] events[i]),
    ensures
        s.run(events) == s,
    decreases events.len(),
{
    if events.len() > 0 {
        let front = events.drop_last();
        assert forall|i: int| 0 <= i < front.len() implies inert(#[trigger] front[i]) by {
            assert(front[i] == events[i]);
        }
        lemma_inert_run(s, front);
        assert(inert(events[events.len() - 1]));
    }
}

/// While the contact is down, two batches in a row that bring no motion and no
/// change of the trigger button send the same refresh twice: the same five
/// commands, with the same values, in the same order, and the state is
/// otherwise as it was.
pub proof fn lemma_resync_repeats(s: State, first: Seq<PointerEvent>, second: Seq<PointerEvent>)
    requires
        s.tracking(),
        forall|i: int| 0 <= i < first.len() ==> inert(#[trigger] first[i]),
        forall|i: int| 0 <= i < second.len() ==> inert(#[trigger] second[i]),
    ensures
        s.batch(first) == s.emit(resync_sequence(s.x, s.y)),
        s.batch(first).batch(second) == s.batch(first).emit(resync_sequence(s.x, s.y)),
        resync_sequence(s.x, s.y) == line(TAG_MT_X, s.x) + line(TAG_MT_Y, s.y) + line(
            TAG_ABS_X,
            s.x,
        ) + line(TAG_ABS_Y, s.y) + line(TAG_SYNC, 0),
{
    lemma_inert_run(s, first);
    lemma_inert_run(s.batch(first), second);
    assert(resync_sequence(s.x, s.y) =~= line(TAG_MT_X, s.x) + line(TAG_MT_Y, s.y) + line(
        TAG_ABS_X,
        s.x,
    ) + line(TAG_ABS_Y, s.y) + line(TAG_SYNC, 0));
}

/// With no contact, a batch without a press sends nothing at its end.
pub proof fn lemma_no_resync_when_idle(s: State)
    requires
        !s.tracking(),
    ensures
        s.resync() == s,
{
}

/// What an event does never depends on what was sent before: the bytes sent
/// earlier stay as they are, in front, and the rest of the new state is the
/// one reached from a state with nothing sent.
pub proof fn lemma_step_ignores_pending(s: State, event: PointerEvent)
    ensures
        s.step(event).pending == s.pending + s.drained().step(event).pending,
        s.step(event).drained() == s.drained().step(event).drained(),
{
    assert(s.step(event).pending =~= s.pending + s.drained().step(event).pending);
}

/// What a batch does never depends on what was sent before: the bytes sent
/// earlier stay as they are, in front, and the rest of the new state is the
/// one reached from a state with nothing sent.
pub proof fn lemma_batch_ignores_pending(s: State, events: Seq<PointerEvent>)
    ensures
        s.run(events).pending == s.pending + s.drained().run(events).pending,
        s.run(events).drained() == s.drained().run(events).drained(),
        s.batch(events).pending == s.pending + s.drained().batch(events).pending,
        s.batch(events).drained() == s.drained().batch(events).drained(),
    decreases events.len(),
{
    if events.len() > 0 {
        let front = events.drop_last();
        lemma_batch_ignores_pending(s, front);
        let a = s.run(front);
        let b = s.drained().run(front);
        lemma_step_ignores_pending(a, events.last());
        lemma_step_ignores_pending(b, events.last());
        assert(a.drained() == b.drained());
    }
    assert(s.run(events).pending =~= s.pending + s.drained().run(events).pending);
    let a = s.run(events);
    let b = s.drained().run(events);
    assert(a.x == b.x && a.y == b.y && a.contact == b.contact) by {
        assert(a.drained() == b.drained());
    }
    assert(s.batch(events).pending =~= s.pending + s.drained().batch(events).pending);
}

} // verus!
