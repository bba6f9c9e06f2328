use touchscreen_transform::accumulator::CoordinateAccumulator;
use touchscreen_transform::decimal::{push_decimal, push_signed_decimal};
use touchscreen_transform::event::{
    EventKind, PointerEvent, AXIS_X, AXIS_Y, EVENT_TYPE_KEY, EVENT_TYPE_RELATIVE,
    TRIGGER_BUTTON_CODE,
};
use touchscreen_transform::protocol::push_line;

fn decimal_of(n: u64) -> String {
    let mut out = Vec::new();
    push_decimal(&mut out, n);
    String::from_utf8(out).unwrap()
}

fn signed_of(v: i64) -> String {
    let mut out = Vec::new();
    push_signed_decimal(&mut out, v);
    String::from_utf8(out).unwrap()
}

#[test]
fn decimal_of_small_and_large_numbers() {
    assert_eq!(decimal_of(0), "0");
    assert_eq!(decimal_of(7), "7");
    assert_eq!(decimal_of(9), "9");
    assert_eq!(decimal_of(10), "10");
    assert_eq!(decimal_of(64), "64");
    assert_eq!(decimal_of(1000), "1000");
    assert_eq!(decimal_of(4294967295), "4294967295");
    assert_eq!(decimal_of(u64::MAX), "18446744073709551615");
}

#[test]
fn decimal_agrees_with_the_standard_formatter() {
    let samples: [u64; 9] = [0, 1, 9, 10, 11, 99, 100, 101, 909090];
    for n in samples {
        assert_eq!(decimal_of(n), format!("{}", n));
    }
}

#[test]
fn signed_decimal_puts_a_minus_before_negatives() {
    assert_eq!(signed_of(0), "0");
    assert_eq!(signed_of(-1), "-1");
    assert_eq!(signed_of(64), "64");
    assert_eq!(signed_of(-128), "-128");
    assert_eq!(signed_of(i64::MAX), "9223372036854775807");
    assert_eq!(signed_of(i64::MIN), "-9223372036854775808");
}

#[test]
fn push_decimal_appends_behind_what_is_there() {
    let mut out = b"x:".to_vec();
    push_decimal(&mut out, 42);
    assert_eq!(out, b"x:42".to_vec());
}

#[test]
fn push_line_writes_tag_space_value_line_feed() {
    let mut out = Vec::new();
    push_line(&mut out, b'T', -1);
    push_line(&mut out, b'X', 1756);
    assert_eq!(out, b"T -1\nX 1756\n".to_vec());
}

#[test]
fn raw_event_types_are_classified() {
    assert_eq!(EventKind::from_raw(EVENT_TYPE_KEY), EventKind::Key);
    assert_eq!(EventKind::from_raw(EVENT_TYPE_RELATIVE), EventKind::Relative);
    assert_eq!(EventKind::from_raw(1), EventKind::Key);
    assert_eq!(EventKind::from_raw(2), EventKind::Relative);
    assert_eq!(EventKind::from_raw(0), EventKind::Other);
    assert_eq!(EventKind::from_raw(3), EventKind::Other);
    assert_eq!(EventKind::from_raw(u16::MAX), EventKind::Other);
}

#[test]
fn events_are_built_from_plain_values() {
    assert_eq!(
        PointerEvent::from_raw(2, 1, -4),
        PointerEvent { kind: EventKind::Relative, code: 1, value: -4 }
    );
    assert_eq!(PointerEvent::motion_x(3), PointerEvent::from_raw(2, AXIS_X, 3));
    assert_eq!(PointerEvent::motion_y(3), PointerEvent::from_raw(2, AXIS_Y, 3));
    assert_eq!(PointerEvent::key(276, 1), PointerEvent::from_raw(1, TRIGGER_BUTTON_CODE, 1));
    assert_eq!(
        PointerEvent::from_raw(4, 276, 1),
        PointerEvent { kind: EventKind::Other, code: 276, value: 1 }
    );
}

#[test]
fn accumulator_clamps_each_axis_on_its_own() {
    let mut acc = CoordinateAccumulator::new(1000, 50);
    assert_eq!((acc.x(), acc.y(), acc.max_x(), acc.max_y()), (0, 0, 1000, 50));
    acc.add_x(5000);
    assert_eq!((acc.x(), acc.y()), (1000, 0));
    acc.add_y(49);
    acc.add_y(2);
    assert_eq!((acc.x(), acc.y()), (1000, 50));
    acc.add_x(-5000);
    acc.add_y(-51);
    assert_eq!((acc.x(), acc.y()), (0, 0));
    acc.add_x(-1);
    acc.add_x(999);
    acc.add_x(1);
    assert_eq!(acc.x(), 1000);
}
