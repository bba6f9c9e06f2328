//! The line protocol of the virtual touchscreen: one command per line, made of
//! a tag byte, a space, a decimal value and a line feed.

use vstd::prelude::*;
use crate::decimal::{signed_decimal, push_signed_decimal};

verus! {

/// Tracking id sent when a contact begins.
pub const ACTIVE_TRACKING_ID: i8 = 64;

/// Tracking id that stands for "no contact".
pub const NO_TRACKING_ID: i8 = -1;

/// The only contact slot in use.
pub const CONTACT_SLOT: i64 = 0;

/// `s`: selects the contact slot.
pub const TAG_SLOT: u8 = 115;

/// `T`: sets the tracking id of the selected slot.
pub const TAG_TRACKING_ID: u8 = 84;

/// `X`: multi-touch absolute position, horizontal.
pub const TAG_MT_X: u8 = 88;

/// `Y`: multi-touch absolute position, vertical.
pub const TAG_MT_Y: u8 = 89;

/// `d`: touch contact down (1) or up (0).
pub const TAG_TOUCH: u8 = 100;

/// `a`: tool active (1) or inactive (0).
pub const TAG_TOOL: u8 = 97;

/// `x`: single-touch absolute position, horizontal.
pub const TAG_ABS_X: u8 = 120;

/// `y`: single-touch absolute position, vertical.
pub const TAG_ABS_Y: u8 = 121;

/// `S`: frame sync.
pub const TAG_SYNC: u8 = 83;

/// ASCII space, between a tag and its value.
pub const SPACE: u8 = 32;

/// ASCII line feed, at the end of every command.
pub const LINE_FEED: u8 = 10;

/// One command: the tag, a space, the value in decimal, a line feed.
pub open spec fn line(tag: u8, value: int) -> Seq<u8> {
    seq![tag, SPACE] + signed_decimal(value) + seq![LINE_FEED]
}

/// Slot selection followed by the tracking id: `s 0`, `T <id>`.
pub open spec fn tracking_lines(id: int) -> Seq<u8> {
    line(TAG_SLOT, CONTACT_SLOT as int) + line(TAG_TRACKING_ID, id)
}

/// The end of tracking: `T -1`.
pub open spec fn end_tracking_line() -> Seq<u8> {
    line(TAG_TRACKING_ID, NO_TRACKING_ID as int)
}

/// The position in its multi-touch flavour: `X <x>`, `Y <y>`.
pub open spec fn mt_position_lines(x: int, y: int) -> Seq<u8> {
    line(TAG_MT_X, x) + line(TAG_MT_Y, y)
}

/// The position in its single-touch flavour: `x <x>`, `y <y>`.
pub open spec fn abs_position_lines(x: int, y: int) -> Seq<u8> {
    line(TAG_ABS_X, x) + line(TAG_ABS_Y, y)
}

/// Touch contact and tool flag, both up or both down: `d <0|1>`, `a <0|1>`.
pub open spec fn touch_lines(down: bool) -> Seq<u8> {
    let flag: int = if down { 1 } else { 0 };
    line(TAG_TOUCH, flag) + line(TAG_TOOL, flag)
}

/// The frame sync: `S 0`.
pub open spec fn sync_line() -> Seq<u8> {
    line(TAG_SYNC, 0)
}

/// What a contact's begin sends, in order: tracking id, multi-touch position,
/// touch down, single-touch position, frame sync.
pub open spec fn begin_sequence(x: int, y: int) -> Seq<u8> {
    tracking_lines(ACTIVE_TRACKING_ID as int) + mt_position_lines(x, y) + touch_lines(true)
        + abs_position_lines(x, y) + sync_line()
}

/// What a contact's end sends, in order: tracking id cleared, touch up, frame sync.
pub open spec fn end_sequence() -> Seq<u8> {
    end_tracking_line() + touch_lines(false) + sync_line()
}

/// What the periodic refresh sends, in order: the position in both flavours,
/// then a frame sync.
pub open spec fn resync_sequence(x: int, y: int) -> Seq<u8> {
    mt_position_lines(x, y) + abs_position_lines(x, y) + sync_line()
}

/// Appends one command to `out`.
pub fn push_line(out: &mut Vec<u8>, tag: u8, value: i64)
    ensures
        final(out)@ == old(out)@ + line(tag, value as int),
{
    out.push(tag);
    out.push(SPACE);
    push_signed_decimal(out, value);
    out.push(LINE_FEED);
    assert(final(out)@ =~= old(out)@ + line(tag, value as int));
}

} // verus!
