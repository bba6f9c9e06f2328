//! The translator itself: it accumulates relative motion into a clamped
//! absolute position, follows the trigger button, and queues the protocol
//! bytes for the sink in the order in which they are to be written.

use vstd::prelude::*;
use crate::event::{
    AXIS_X, AXIS_Y, EventKind, PointerEvent, KEY_PRESSED, KEY_RELEASED, TRIGGER_BUTTON_CODE,
};
use crate::accumulator::CoordinateAccumulator;
use crate::decimal::push_decimal;
use crate::device::{plain_event, read_event};
use crate::model::{COLON, Contact, LOWER_X, LOWER_Y, State};
use crate::protocol::{
    ACTIVE_TRACKING_ID, CONTACT_SLOT, NO_TRACKING_ID, SPACE, TAG_ABS_X, TAG_ABS_Y, TAG_MT_X,
    TAG_MT_Y, TAG_SLOT, TAG_SYNC, TAG_TOOL, TAG_TOUCH, TAG_TRACKING_ID, abs_position_lines,
    begin_sequence,
    end_sequence, end_tracking_line, mt_position_lines, push_line, resync_sequence, sync_line,
    touch_lines, tracking_lines,
};

verus! {

/// Turns relative pointer events into the commands of a single-finger touch.
///
/// Commands are queued in the order in which they are sent; `take_output`
/// hands the queue to whoever writes to the sink.
pub struct TransformInput {
    pending: Vec<u8>,
    position: CoordinateAccumulator,
    contact: Contact,
}

impl View for TransformInput {
    type V = State;

    closed spec fn view(&self) -> State {
        State {
            x: self.position.spec_x(),
            y: self.position.spec_y(),
            max_x: self.position.spec_max_x(),
            max_y: self.position.spec_max_y(),
            contact: self.contact,
            pending: self.pending@,
        }
    }
}

impl TransformInput {
    /// A translator at the origin, with no contact and nothing queued.
    pub fn new(max_x: u32, max_y: u32) -> (translator: TransformInput)
        ensures
            translator@ == State::initial(max_x as int, max_y as int),
            translator@.inv(),
    {
        TransformInput {
            pending: Vec::new(),
            position: CoordinateAccumulator::new(max_x, max_y),
            contact: Contact::Idle,
        }
    }

    /// The horizontal position.
    pub fn x(&self) -> (x: u32)
        ensures
            x == self@.x,
            x <= self@.max_x,
    {
        self.position.x()
    }

    /// The vertical position.
    pub fn y(&self) -> (y: u32)
        ensures
            y == self@.y,
            y <= self@.max_y,
    {
        self.position.y()
    }

    /// The largest horizontal position.
    pub fn max_x(&self) -> (max_x: u32)
        ensures
            max_x == self@.max_x,
    {
        self.position.max_x()
    }

    /// The largest vertical position.
    pub fn max_y(&self) -> (max_y: u32)
        ensures
            max_y == self@.max_y,
    {
        self.position.max_y()
    }

    /// Whether the contact is down.
    pub fn is_tracking(&self) -> (tracking: bool)
        ensures
            tracking == self@.tracking(),
    {
        match self.contact {
            Contact::Idle => false,
            Contact::Tracking => true,
        }
    }

    /// The tracking id of the contact: 64 while it is down, -1 otherwise.
    pub fn tracking_id(&self) -> (id: i8)
        ensures
            id == self@.contact.tracking_id(),
    {
        match self.contact {
            Contact::Idle => NO_TRACKING_ID,
            Contact::Tracking => ACTIVE_TRACKING_ID,
        }
    }

    /// The bytes queued for the sink, in order.
    pub fn pending(&self) -> (bytes: &Vec<u8>)
        ensures
            bytes@ == self@.pending,
    {
        &self.pending
    }

    /// Hands out the queued bytes and leaves the queue empty.
    pub fn take_output(&mut self) -> (bytes: Vec<u8>)
        ensures
            bytes@ == old(self)@.pending,
            final(self)@ == old(self)@.drained(),
            final(self)@.inv(),
    {
        proof {
            use_type_invariant(&self.position);
        }
        let mut bytes: Vec<u8> = Vec::new();
        core::mem::swap(&mut self.pending, &mut bytes);
        bytes
    }

    /// Moves the position by `relx` along the horizontal axis and holds it
    /// within the bounds.
    pub fn add_x(&mut self, relx: i32)
        ensures
            final(self)@ == old(self)@.move_x(relx as int),
            final(self)@.inv(),
    {
        self.position.add_x(relx);
    }

    /// Moves the position by `rely` along the vertical axis and holds it
    /// within the bounds.
    pub fn add_y(&mut self, rely: i32)
        ensures
            final(self)@ == old(self)@.move_y(rely as int),
            final(self)@.inv(),
    {
        self.position.add_y(rely);
    }

    /// Queues the bytes of `cmd` behind what is queued already.
    pub fn write(&mut self, cmd: String)
        ensures
            final(self)@ == old(self)@.emit(vstd::utf8::encode_utf8(cmd@)),
            final(self)@.inv(),
    {
        proof {
            use_type_invariant(&self.position);
        }
        let bytes: &[u8] = cmd.as_str().as_bytes();
        self.pending.extend_from_slice(bytes);
        assert(final(self)@.pending =~= old(self)@.pending + vstd::utf8::encode_utf8(cmd@));
    }

    /// Marks the contact as down.
    pub fn new_tracking_id(&mut self)
        ensures
            final(self)@ == old(self)@.with_contact(Contact::Tracking),
            final(self)@.inv(),
    {
        proof {
            use_type_invariant(&self.position);
        }
        self.contact = Contact::Tracking;
    }

    /// Marks the contact as up.
    pub fn release_tracking_id(&mut self)
        ensures
            final(self)@ == old(self)@.with_contact(Contact::Idle),
            final(self)@.inv(),
    {
        proof {
            use_type_invariant(&self.position);
        }
        self.contact = Contact::Idle;
    }

    /// Queues the slot selection and the tracking id as it is now.
    pub fn start_tracking(&mut self)
        ensures
            final(self)@ == old(self)@.emit(tracking_lines(old(self)@.contact.tracking_id())),
            final(self)@.inv(),
    {
        proof {
            use_type_invariant(&self.position);
        }
        let id: i8 = self.tracking_id();
        push_line(&mut self.pending, TAG_SLOT, CONTACT_SLOT);
        push_line(&mut self.pending, TAG_TRACKING_ID, id as i64);
        assert(final(self)@.pending =~= old(self)@.pending + tracking_lines(
            old(self)@.contact.tracking_id(),
        ));
    }

    /// Queues the command that ends tracking.
    pub fn stop_tracking(&mut self)
        ensures
            final(self)@ == old(self)@.emit(end_tracking_line()),
            final(self)@.inv(),
    {
        proof {
            use_type_invariant(&self.position);
        }
        push_line(&mut self.pending, TAG_TRACKING_ID, NO_TRACKING_ID as i64);
    }

    /// Queues touch down and tool active.
    pub fn start_touch(&mut self)
        ensures
            final(self)@ == old(self)@.emit(touch_lines(true)),
            final(self)@.inv(),
    {
        proof {
            use_type_invariant(&self.position);
        }
        push_line(&mut self.pending, TAG_TOUCH, 1);
        push_line(&mut self.pending, TAG_TOOL, 1);
        assert(final(self)@.pending =~= old(self)@.pending + touch_lines(true));
    }

    /// Queues touch up and tool inactive.
    pub fn stop_touch(&mut self)
        ensures
            final(self)@ == old(self)@.emit(touch_lines(false)),
            final(self)@.inv(),
    {
        proof {
            use_type_invariant(&self.position);
        }
        push_line(&mut self.pending, TAG_TOUCH, 0);
        push_line(&mut self.pending, TAG_TOOL, 0);
        assert(final(self)@.pending =~= old(self)@.pending + touch_lines(false));
    }

    /// Queues the position in its multi-touch flavour.
    pub fn send_abs_mt_position(&mut self)
        ensures
            final(self)@ == old(self)@.emit(mt_position_lines(old(self)@.x, old(self)@.y)),
            final(self)@.inv(),
    {
        proof {
            use_type_invariant(&self.position);
        }
        let x: u32 = self.position.x();
        let y: u32 = self.position.y();
        push_line(&mut self.pending, TAG_MT_X, x as i64);
        push_line(&mut self.pending, TAG_MT_Y, y as i64);
        assert(final(self)@.pending =~= old(self)@.pending + mt_position_lines(
            old(self)@.x,
            old(self)@.y,
        ));
    }

    /// Queues the position in its single-touch flavour.
    pub fn send_abs(&mut self)
        ensures
            final(self)@ == old(self)@.emit(abs_position_lines(old(self)@.x, old(self)@.y)),
            final(self)@.inv(),
    {
        proof {
            use_type_invariant(&self.position);
        }
        let x: u32 = self.position.x();
        let y: u32 = self.position.y();
        push_line(&mut self.pending, TAG_ABS_X, x as i64);
        push_line(&mut self.pending, TAG_ABS_Y, y as i64);
        assert(final(self)@.pending =~= old(self)@.pending + abs_position_lines(
            old(self)@.x,
            old(self)@.y,
        ));
    }

    /// Queues a frame sync.
    pub fn sync(&mut self)
        ensures
            final(self)@ == old(self)@.emit(sync_line()),
            final(self)@.inv(),
    {
        proof {
            use_type_invariant(&self.position);
        }
        push_line(&mut self.pending, TAG_SYNC, 0);
    }

    /// Begins the contact: marks it as down and queues, in this order, the
    /// tracking id, the multi-touch position, touch down, the single-touch
    /// position and a frame sync.
    pub fn begin_contact(&mut self)
        ensures
            final(self)@ == old(self)@.press(),
            final(self)@.inv(),
    {
        self.new_tracking_id();
        self.start_tracking();
        self.send_abs_mt_position();
        self.start_touch();
        self.send_abs();
        self.sync();
        assert(final(self)@.pending =~= old(self)@.pending + begin_sequence(
            old(self)@.x,
            old(self)@.y,
        ));
    }

    /// Ends the contact if it is down: queues, in this order, the cleared
    /// tracking id, touch up and a frame sync, and marks the contact as up.
    /// With no contact it does nothing.
    pub fn end_contact(&mut self)
        ensures
            final(self)@ == old(self)@.release(),
            final(self)@.inv(),
    {
        proof {
            use_type_invariant(&self.position);
        }
        if self.is_tracking() {
            self.release_tracking_id();
            self.stop_tracking();
            self.stop_touch();
            self.sync();
            assert(final(self)@.pending =~= old(self)@.pending + end_sequence());
        }
    }

    /// Takes one event: motion moves the position, the trigger button begins
    /// or ends the contact, and everything else is ignored.
    pub fn handle(&mut self, event: PointerEvent)
        ensures
            final(self)@ == old(self)@.step(event),
            final(self)@.inv(),
    {
        proof {
            use_type_invariant(&self.position);
        }
        match event.kind {
            EventKind::Relative => {
                if event.code == AXIS_X {
                    self.add_x(event.value);
                } else if event.code == AXIS_Y {
                    self.add_y(event.value);
                }
            },
            EventKind::Key => {
                if event.code == TRIGGER_BUTTON_CODE {
                    if event.value == KEY_PRESSED {
                        self.begin_contact();
                    } else if event.value == KEY_RELEASED {
                        self.end_contact();
                    }
                }
            },
            EventKind::Other => {},
        }
    }

    /// Takes an event as the source device hands it out: what it does is what
    /// `handle` does with the event's type, code and value.
    pub fn handle_device_event(&mut self, event: &evdev::InputEvent)
        ensures
            final(self)@ == old(self)@.step(plain_event(*event)),
            final(self)@.inv(),
    {
        let plain: PointerEvent = read_event(event);
        self.handle(plain);
    }

    /// The periodic refresh: while the contact is down, queues the position in
    /// both flavours and a frame sync; with no contact it queues nothing.
    pub fn resync(&mut self)
        ensures
            final(self)@ == old(self)@.resync(),
            final(self)@.inv(),
    {
        proof {
            use_type_invariant(&self.position);
        }
        if self.is_tracking() {
            self.send_abs_mt_position();
            self.send_abs();
            self.sync();
            assert(final(self)@.pending =~= old(self)@.pending + resync_sequence(
                old(self)@.x,
                old(self)@.y,
            ));
        }
    }

    /// One cycle of the event loop: takes the events of a batch in order, then
    /// refreshes once.
    pub fn handle_batch(&mut self, events: &[PointerEvent])
        ensures
            final(self)@ == old(self)@.batch(events@),
            final(self)@.inv(),
    {
        let mut i: usize = 0;
        while i < events.len()
            invariant
                i <= events.len(),
                self@ == old(self)@.run(events@.take(i as int)),
            decreases events.len() - i,
        {
            self.handle(events[i]);
            proof {
                assert(events@.take(i + 1).drop_last() =~= events@.take(i as int));
            }
            i += 1;
        }
        proof {
            assert(events@.take(i as int) =~= events@);
        }
        self.resync();
    }

    /// The position as text: `x:<x> y:<y>`.
    pub fn status_text(&self) -> (text: Vec<u8>)
        ensures
            text@ == self@.status_text(),
    {
        let mut text: Vec<u8> = Vec::new();
        text.push(LOWER_X);
        text.push(COLON);
        push_decimal(&mut text, self.position.x() as u64);
        text.push(SPACE);
        text.push(LOWER_Y);
        text.push(COLON);
        push_decimal(&mut text, self.position.y() as u64);
        assert(text@ =~= self@.status_text());
        text
    }
}

} // verus!
