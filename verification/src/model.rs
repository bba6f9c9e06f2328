//! The translator as a mathematical state machine: what each event and each
//! refresh does to the position, to the contact, and to the bytes sent.

use vstd::prelude::*;
use crate::event::PointerEvent;
use crate::decimal::decimal;
use crate::protocol::{
    ACTIVE_TRACKING_ID, NO_TRACKING_ID, SPACE, begin_sequence, end_sequence, resync_sequence,
};

verus! {

/// ASCII `x`, in the status text.
pub const LOWER_X: u8 = 120;

/// ASCII `y`, in the status text.
pub const LOWER_Y: u8 = 121;

/// ASCII colon, in the status text.
pub const COLON: u8 = 58;

/// The lifecycle of the single touch contact.
#[derive(Clone, Copy, Debug, PartialEq, Eq, Structural)]
pub enum Contact {
    /// No contact.
    Idle,
    /// The contact is down.
    Tracking,
}

impl Contact {
    /// The tracking id that stands for this state on the wire.
    pub open spec fn tracking_id(self) -> int {
        match self {
            Contact::Idle => NO_TRACKING_ID as int,
            Contact::Tracking => ACTIVE_TRACKING_ID as int,
        }
    }
}

/// `v` held to the range from 0 to `max`.
pub open spec fn clamp(v: int, max: int) -> int {
    if v < 0 {
        0
    } else if v > max {
        max
    } else {
        v
    }
}

/// The translator's state: the position, its bounds, the contact, and every
/// byte sent so far that has not been taken out.
pub struct State {
    pub x: int,
    pub y: int,
    pub max_x: int,
    pub max_y: int,
    pub contact: Contact,
    pub pending: Seq<u8>,
}

impl State {
    /// The state at startup: at the origin, no contact, nothing sent.
    pub open spec fn initial(max_x: int, max_y: int) -> State {
        State { x: 0, y: 0, max_x, max_y, contact: Contact::Idle, pending: Seq::empty() }
    }

    /// The position lies within the bounds.
    pub open spec fn inv(self) -> bool {
        &&& 0 <= self.x <= self.max_x
        &&& 0 <= self.y <= self.max_y
    }

    /// Whether the contact is down.
    pub open spec fn tracking(self) -> bool {
        self.contact == Contact::Tracking
    }

    /// The same state with `bytes` sent after what was sent before.
    pub open spec fn emit(self, bytes: Seq<u8>) -> State {
        State { pending: self.pending + bytes, ..self }
    }

    /// The same state with another contact state.
    pub open spec fn with_contact(self, contact: Contact) -> State {
        State { contact, ..self }
    }

    /// The same state with nothing pending.
    pub open spec fn drained(self) -> State {
        State { pending: Seq::empty(), ..self }
    }

    /// Motion of `delta` along the horizontal axis, clamped.
    pub open spec fn move_x(self, delta: int) -> State {
        State { x: clamp(self.x + delta, self.max_x), ..self }
    }

    /// Motion of `delta` along the vertical axis, clamped.
    pub open spec fn move_y(self, delta: int) -> State {
        State { y: clamp(self.y + delta, self.max_y), ..self }
    }

    /// A press of the trigger button: the contact is down, and the begin
    /// sequence is sent with the position as it is now.
    pub open spec fn press(self) -> State {
        self.with_contact(Contact::Tracking).emit(begin_sequence(self.x, self.y))
    }

    /// A release of the trigger button: with the contact down, the end sequence
    /// is sent and the contact is up; with no contact, nothing happens.
    pub open spec fn release(self) -> State {
        if self.tracking() {
            self.with_contact(Contact::Idle).emit(end_sequence())
        } else {
            self
        }
    }

    /// What one event does.
    pub open spec fn step(self, event: PointerEvent) -> State {
        if event.is_motion_x() {
            self.move_x(event.value as int)
        } else if event.is_motion_y() {
            self.move_y(event.value as int)
        } else if event.is_press() {
            self.press()
        } else if event.is_release() {
            self.release()
        } else {
            self
        }
    }

    /// What a run of events does, one after the other.
    pub open spec fn run(self, events: Seq<PointerEvent>) -> State
        decreases events.len(),
    {
        if events.len() == 0 {
            self
        } else {
            self.run(events.drop_last()).step(events.last())
        }
    }

    /// The periodic refresh: with the contact down, the position is sent again
    /// in both flavours, then a frame sync; with no contact, nothing is sent.
    pub open spec fn resync(self) -> State {
        if self.tracking() {
            self.emit(resync_sequence(self.x, self.y))
        } else {
            self
        }
    }

    /// The position as text: `x:<x> y:<y>`.
    pub open spec fn status_text(self) -> Seq<u8> {
        seq![LOWER_X, COLON] + decimal(self.x as nat) + seq![SPACE, LOWER_Y, COLON] + decimal(
            self.y as nat,
        )
    }

    /// One cycle of the event loop: the batch's events, then one refresh.
    pub open spec fn batch(self, events: Seq<PointerEvent>) -> State {
        self.run(events).resync()
    }
}

} // verus!
