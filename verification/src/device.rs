//! Reading the fields of an event as the source device hands it out.

use vstd::prelude::*;
use crate::event::{PointerEvent, kind_of_raw};

verus! {

/// An event of the source device, as `evdev` holds it.
#[verifier::external_type_specification]
#[verifier::external_body]
pub struct ExDeviceEvent(evdev::InputEvent);

/// The raw type that `evdev::InputEvent::event_type` reads from an event.
pub uninterp spec fn raw_type_of(event: evdev::InputEvent) -> u16;

/// The code that `evdev::InputEvent::code` reads from an event.
pub uninterp spec fn raw_code_of(event: evdev::InputEvent) -> u16;

/// The value that `evdev::InputEvent::value` reads from an event.
pub uninterp spec fn raw_value_of(event: evdev::InputEvent) -> i32;

/// The event as plain values: its kind from the raw type, its code and its
/// value. An event that is neither motion nor a key is of kind `Other`.
pub open spec fn plain_event(event: evdev::InputEvent) -> PointerEvent {
    PointerEvent {
        kind: kind_of_raw(raw_type_of(event)),
        code: raw_code_of(event),
        value: raw_value_of(event),
    }
}

/// Calls `evdev::InputEvent::event_type` and hands out the number it wraps.
/// The call reads a field of the event, so the result depends on the event
/// alone; that is all the contract claims.
#[verifier::external_body]
fn raw_event_type(event: &evdev::InputEvent) -> (event_type: u16)
    ensures
        event_type == raw_type_of(*event),
{
    event.event_type().0
}

/// Calls `evdev::InputEvent::code`. The call reads a field of the event, so
/// the result depends on the event alone; that is all the contract claims.
#[verifier::external_body]
fn raw_code(event: &evdev::InputEvent) -> (code: u16)
    ensures
        code == raw_code_of(*event),
{
    event.code()
}

/// Calls `evdev::InputEvent::value`. The call reads a field of the event, so
/// the result depends on the event alone; that is all the contract claims.
#[verifier::external_body]
fn raw_value(event: &evdev::InputEvent) -> (value: i32)
    ensures
        value == raw_value_of(*event),
{
    event.value()
}

/// Reads the three fields of a device event into plain values.
pub(crate) fn read_event(event: &evdev::InputEvent) -> (plain: PointerEvent)
    ensures
        plain == plain_event(*event),
{
    PointerEvent::from_raw(raw_event_type(event), raw_code(event), raw_value(event))
}

} // verus!
