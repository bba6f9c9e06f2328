//! Input events as plain values.

use vstd::prelude::*;

verus! {

/// Raw event type of a key or button event.
pub const EVENT_TYPE_KEY: u16 = 1;

/// Raw event type of a relative-motion event.
pub const EVENT_TYPE_RELATIVE: u16 = 2;

/// Code of the horizontal axis in a relative-motion event.
pub const AXIS_X: u16 = 0;

/// Code of the vertical axis in a relative-motion event.
pub const AXIS_Y: u16 = 1;

/// Key code of the button that starts and ends the contact.
pub const TRIGGER_BUTTON_CODE: u16 = 276;

/// Value of a key event for a press.
pub const KEY_PRESSED: i32 = 1;

/// Value of a key event for a release.
pub const KEY_RELEASED: i32 = 0;

/// What sort of event it is, as far as the translator tells events apart.
#[derive(Clone, Copy, Debug, PartialEq, Eq, Structural)]
pub enum EventKind {
    /// Motion along a relative axis.
    Relative,
    /// A key or button changed.
    Key,
    /// Anything else.
    Other,
}

/// One event of the source device: its kind, its code and its value.
#[derive(Clone, Copy, Debug, PartialEq, Eq, Structural)]
pub struct PointerEvent {
    pub kind: EventKind,
    pub code: u16,
    pub value: i32,
}

/// The kind that a raw event type stands for.
pub open spec fn kind_of_raw(event_type: u16) -> EventKind {
    if event_type == EVENT_TYPE_RELATIVE {
        EventKind::Relative
    } else if event_type == EVENT_TYPE_KEY {
        EventKind::Key
    } else {
        EventKind::Other
    }
}

impl EventKind {
    /// Classifies a raw event type.
    pub fn from_raw(event_type: u16) -> (kind: EventKind)
        ensures
            kind == kind_of_raw(event_type),
    {
        if event_type == EVENT_TYPE_RELATIVE {
            EventKind::Relative
        } else if event_type == EVENT_TYPE_KEY {
            EventKind::Key
        } else {
            EventKind::Other
        }
    }
}

impl PointerEvent {
    /// An event from the three raw fields of a device event.
    pub fn from_raw(event_type: u16, code: u16, value: i32) -> (event: PointerEvent)
        ensures
            event == (PointerEvent { kind: kind_of_raw(event_type), code, value }),
    {
        PointerEvent { kind: EventKind::from_raw(event_type), code, value }
    }

    /// Motion of `delta` along the horizontal axis.
    pub fn motion_x(delta: i32) -> (event: PointerEvent)
        ensures
            event == (PointerEvent { kind: EventKind::Relative, code: AXIS_X, value: delta }),
    {
        PointerEvent { kind: EventKind::Relative, code: AXIS_X, value: delta }
    }

    /// Motion of `delta` along the vertical axis.
    pub fn motion_y(delta: i32) -> (event: PointerEvent)
        ensures
            event == (PointerEvent { kind: EventKind::Relative, code: AXIS_Y, value: delta }),
    {
        PointerEvent { kind: EventKind::Relative, code: AXIS_Y, value: delta }
    }

    /// A key event with the given code and value.
    pub fn key(code: u16, value: i32) -> (event: PointerEvent)
        ensures
            event == (PointerEvent { kind: EventKind::Key, code, value }),
    {
        PointerEvent { kind: EventKind::Key, code, value }
    }

    /// Whether this is a press of the trigger button.
    pub open spec fn is_press(self) -> bool {
        self.kind == EventKind::Key && self.code == TRIGGER_BUTTON_CODE && self.value
            == KEY_PRESSED
    }

    /// Whether this is a release of the trigger button.
    pub open spec fn is_release(self) -> bool {
        self.kind == EventKind::Key && self.code == TRIGGER_BUTTON_CODE && self.value
            == KEY_RELEASED
    }

    /// Whether this is motion along the horizontal axis.
    pub open spec fn is_motion_x(self) -> bool {
        self.kind == EventKind::Relative && self.code == AXIS_X
    }

    /// Whether this is motion along the vertical axis.
    pub open spec fn is_motion_y(self) -> bool {
        self.kind == EventKind::Relative && self.code == AXIS_Y
    }
}

} // verus!
