use sensehat_stick::decode::decode_batch;
use sensehat_stick::decode::decode_record;
use sensehat_stick::decode::next_key_event;
use sensehat_stick::locator::is_joystick_name;
use sensehat_stick::locator::joystick_device_name;
use sensehat_stick::locator::locate;
use sensehat_stick::Action;
use sensehat_stick::Direction;
use sensehat_stick::Error;
use sensehat_stick::JoyStickEvent;
use sensehat_stick::RawRecord;
use sensehat_stick::Timestamp;

fn key_record(code: u16, value: i32) -> RawRecord {
    RawRecord { event_type: 1, code, value, tv_sec: 42, tv_usec: 500 }
}

fn sync_record() -> RawRecord {
    RawRecord { event_type: 0, code: 0, value: 0, tv_sec: 42, tv_usec: 500 }
}

#[test]
fn direction_codes_decode() {
    assert_eq!(Direction::from_code(28), Some(Direction::Enter));
    assert_eq!(Direction::from_code(103), Some(Direction::Up));
    assert_eq!(Direction::from_code(108), Some(Direction::Down));
    assert_eq!(Direction::from_code(105), Some(Direction::Left));
    assert_eq!(Direction::from_code(106), Some(Direction::Right));
}

#[test]
fn direction_code_roundtrip() {
    for d in [
        Direction::Enter,
        Direction::Up,
        Direction::Down,
        Direction::Left,
        Direction::Right,
    ] {
        assert_eq!(Direction::from_code(d.code()), Some(d));
    }
}

#[test]
fn invalid_direction_codes_rejected() {
    for code in [0u16, 1, 27, 29, 102, 104, 107, 109, 1000, u16::MAX] {
        assert_eq!(Direction::from_code(code), None);
    }
}

#[test]
fn action_codes_decode() {
    assert_eq!(Action::from_code(0), Some(Action::Release));
    assert_eq!(Action::from_code(1), Some(Action::Press));
    assert_eq!(Action::from_code(2), Some(Action::Hold));
}

#[test]
fn action_code_roundtrip() {
    for a in [Action::Release, Action::Press, Action::Hold] {
        assert_eq!(Action::from_code(a.code()), Some(a));
    }
}

#[test]
fn invalid_action_codes_rejected() {
    for value in [-1, 3, 4, 28, i32::MIN, i32::MAX] {
        assert_eq!(Action::from_code(value), None);
    }
}

#[test]
fn joystick_event_new_keeps_fields() {
    let e = JoyStickEvent::new(
        Timestamp { secs: 7, micros: 123 },
        Direction::Left,
        Action::Hold,
    );
    assert_eq!(e.timestamp, Timestamp { secs: 7, micros: 123 });
    assert_eq!(e.direction, Direction::Left);
    assert_eq!(e.action, Action::Hold);
}

#[test]
fn non_key_records_filtered() {
    for event_type in [0u16, 2, 3, 4, 255] {
        let r = RawRecord { event_type, code: 999, value: -7, tv_sec: -10, tv_usec: 0 };
        assert_eq!(decode_record(&r), None);
    }
}

#[test]
fn key_record_decodes() {
    let r = RawRecord { event_type: 1, code: 28, value: 1, tv_sec: 5, tv_usec: 10 };
    assert_eq!(
        decode_record(&r),
        Some(Ok(JoyStickEvent {
            timestamp: Timestamp { secs: 5, micros: 10 },
            direction: Direction::Enter,
            action: Action::Press,
        }))
    );
}

#[test]
fn invalid_direction_code_faults() {
    let r = key_record(99, 1);
    assert_eq!(decode_record(&r), Some(Err(Error::InvalidDirection { code: 99 })));
}

#[test]
fn invalid_action_value_faults() {
    let r = key_record(28, 7);
    assert_eq!(decode_record(&r), Some(Err(Error::InvalidAction { value: 7 })));
}

#[test]
fn timestamp_before_epoch_faults() {
    let r = RawRecord { event_type: 1, code: 28, value: 1, tv_sec: -1, tv_usec: 0 };
    assert_eq!(decode_record(&r), Some(Err(Error::TimestampUnderflow)));
    let r = RawRecord { event_type: 1, code: 28, value: 1, tv_sec: 0, tv_usec: -3 };
    assert_eq!(decode_record(&r), Some(Err(Error::TimestampUnderflow)));
    let r = RawRecord { event_type: 1, code: 28, value: 1, tv_sec: 0, tv_usec: 1_000_000 };
    assert_eq!(decode_record(&r), Some(Err(Error::TimestampUnderflow)));
}

#[test]
fn batch_round_trip_keeps_key_events_in_order() {
    let records = vec![
        sync_record(),
        key_record(28, 1),
        sync_record(),
        key_record(103, 0),
        key_record(106, 2),
        sync_record(),
    ];
    let events = decode_batch(&records).unwrap();
    assert_eq!(events.len(), 3);
    assert_eq!(events[0].direction, Direction::Enter);
    assert_eq!(events[0].action, Action::Press);
    assert_eq!(events[1].direction, Direction::Up);
    assert_eq!(events[1].action, Action::Release);
    assert_eq!(events[2].direction, Direction::Right);
    assert_eq!(events[2].action, Action::Hold);
    for e in &events {
        assert_eq!(e.timestamp, Timestamp { secs: 42, micros: 500 });
    }
}

#[test]
fn batch_of_nothing_decodes_to_nothing() {
    assert_eq!(decode_batch(&vec![]), Ok(vec![]));
    assert_eq!(decode_batch(&vec![sync_record(), sync_record()]), Ok(vec![]));
}

#[test]
fn batch_fails_with_first_fault() {
    let records = vec![
        key_record(28, 1),
        key_record(99, 1),
        key_record(103, 7),
    ];
    assert_eq!(decode_batch(&records), Err(Error::InvalidDirection { code: 99 }));
}

#[test]
fn locate_picks_first_match() {
    let names = vec![
        String::from("Mouse"),
        String::from("Raspberry Pi Sense HAT Joystick"),
        String::from("Keyboard"),
    ];
    assert_eq!(locate(&names), Ok(1));
}

#[test]
fn locate_picks_first_of_two_matches() {
    let names = vec![
        String::from("Keyboard"),
        String::from("Raspberry Pi Sense HAT Joystick"),
        String::from("Raspberry Pi Sense HAT Joystick"),
    ];
    assert_eq!(locate(&names), Ok(1));
}

#[test]
fn locate_without_match_reports_not_found() {
    let names = vec![String::from("Mouse"), String::from("Keyboard")];
    let err = locate(&names).unwrap_err();
    assert_eq!(err, Error::NotFound);
    assert_eq!(err.message(), "No Joystick found");
}

#[test]
fn locate_on_empty_host_reports_not_found() {
    assert_eq!(locate(&vec![]), Err(Error::NotFound));
}

#[test]
fn name_match_is_exact() {
    assert!(is_joystick_name(&String::from("Raspberry Pi Sense HAT Joystick")));
    assert!(!is_joystick_name(&String::from("Raspberry Pi Sense HAT Joystick ")));
    assert!(!is_joystick_name(&String::from("Raspberry Pi Sense HAT")));
    assert!(!is_joystick_name(&String::from("raspberry pi sense hat joystick")));
    assert!(!is_joystick_name(&String::from("")));
    assert_eq!(joystick_device_name(), "Raspberry Pi Sense HAT Joystick");
    assert_eq!(joystick_device_name().len(), 31);
}

#[test]
fn poll_skips_filtered_record_then_yields_one_event() {
    let records = vec![sync_record(), key_record(108, 1)];
    let (consumed, out) = next_key_event(&records, 0);
    assert_eq!(consumed, 2);
    assert_eq!(
        out,
        Some(Ok(JoyStickEvent {
            timestamp: Timestamp { secs: 42, micros: 500 },
            direction: Direction::Down,
            action: Action::Press,
        }))
    );
    let (consumed, out) = next_key_event(&records, consumed);
    assert_eq!(consumed, 2);
    assert_eq!(out, None);
}

#[test]
fn poll_with_only_filtered_records_suspends() {
    let records = vec![sync_record(), sync_record()];
    assert_eq!(next_key_event(&records, 0), (2, None));
}

#[test]
fn poll_yields_fault_for_bad_key_record() {
    let records = vec![sync_record(), key_record(28, 9)];
    assert_eq!(next_key_event(&records, 0), (2, Some(Err(Error::InvalidAction { value: 9 }))));
}

#[test]
fn error_messages_describe_each_fault() {
    assert_eq!(Error::NotFound.message(), "No Joystick found");
    assert_eq!(
        Error::InvalidDirection { code: 5 }.message(),
        "key code denotes no joystick direction"
    );
    assert_eq!(Error::InvalidAction { value: 5 }.message(), "value denotes no joystick action");
    assert_eq!(
        Error::TimestampUnderflow.message(),
        "event timestamp predates the UNIX epoch"
    );
}
