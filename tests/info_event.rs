use libgpiod::uapi::FLAG_USED;
use libgpiod::{Chip, Error, Event, Operation, ValueKind};

fn chip_record(lines: u32) -> Vec<u8> {
    let mut r = vec![0u8; 68];
    r[64..68].copy_from_slice(&lines.to_le_bytes());
    r
}

fn event_record(offset: u32, consumer: &[u8], flags: u64, timestamp: u64, kind: u32) -> Vec<u8> {
    let mut r = vec![0u8; 288];
    r[32..32 + consumer.len()].copy_from_slice(consumer);
    r[64..68].copy_from_slice(&offset.to_le_bytes());
    r[72..80].copy_from_slice(&flags.to_le_bytes());
    r[256..264].copy_from_slice(&timestamp.to_le_bytes());
    r[264..268].copy_from_slice(&kind.to_le_bytes());
    r
}

#[test]
fn info_event_verify() {
    let chip = Chip::open("/dev/gpiochip0", &chip_record(8)).unwrap();
    let event = chip.read_info_event(&event_record(7, b"foo", FLAG_USED, 1234, 1)).unwrap();
    assert_eq!(event.get_event_type().unwrap(), Event::LineRequested);
    assert_eq!(event.get_timestamp(), 1234);
    let info = event.line_info().unwrap();
    assert_eq!(info.get_offset(), 7);
    assert_eq!(info.is_used(), true);
    assert_eq!(info.get_consumer().unwrap(), "foo");
}

#[test]
fn info_event_types() {
    let chip = Chip::open("/dev/gpiochip0", &chip_record(8)).unwrap();
    let kinds = [(2, Event::LineReleased), (3, Event::LineConfigChanged)];
    for (raw, kind) in kinds {
        let event = chip.read_info_event(&event_record(0, b"", 0, 0, raw)).unwrap();
        assert_eq!(event.get_event_type().unwrap(), kind);
    }
    let event = chip.read_info_event(&event_record(0, b"", 0, 0, 4)).unwrap();
    assert_eq!(event.get_event_type().unwrap_err(), Error::InvalidValue(ValueKind::InfoEvent, 4));
}

#[test]
fn short_info_event_record() {
    let chip = Chip::open("/dev/gpiochip0", &chip_record(8)).unwrap();
    assert_eq!(
        chip.read_info_event(&[0u8; 100]).unwrap_err(),
        Error::OperationFailed(Operation::ChipReadInfoEvent, libc::EIO)
    );
}

#[test]
fn watched_line_lifecycle_in_order() {
    let chip = Chip::open("/dev/gpiochip0", &chip_record(8)).unwrap();
    let records = [
        event_record(3, b"other", FLAG_USED, 100, 1),
        event_record(3, b"other", FLAG_USED, 200, 3),
        event_record(3, b"", 0, 300, 2),
    ];
    let events: Vec<_> = records.iter().map(|r| chip.read_info_event(r).unwrap()).collect();
    let kinds: Vec<Event> = events.iter().map(|e| e.get_event_type().unwrap()).collect();
    assert_eq!(kinds, vec![Event::LineRequested, Event::LineConfigChanged, Event::LineReleased]);
    assert!(events[0].get_timestamp() < events[1].get_timestamp());
    assert!(events[1].get_timestamp() < events[2].get_timestamp());
    assert_eq!(events[2].line_info().unwrap().is_used(), false);
}

#[test]
fn failure() {
    const NGPIO: u32 = 8;
    let chip = Chip::open("/dev/gpiochip0", &chip_record(NGPIO)).unwrap();
    assert_eq!(
        chip.watch_line_info(NGPIO, &event_record(NGPIO, b"", 0, 0, 0)[..256]).unwrap_err(),
        Error::OperationFailed(Operation::LineInfo, libc::EINVAL)
    );
    chip.watch_line_info(3, &event_record(3, b"", 0, 0, 0)[..256]).unwrap();
    // No events available
    assert_eq!(chip.wait_info_event(Ok(false)).unwrap_err(), Error::OperationTimedOut);
}
