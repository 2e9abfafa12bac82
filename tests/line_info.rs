use libgpiod::uapi::{
    ATTR_ID_DEBOUNCE, FLAG_ACTIVE_LOW, FLAG_BIAS_PULL_DOWN, FLAG_BIAS_PULL_UP, FLAG_EDGE_FALLING,
    FLAG_EDGE_RISING, FLAG_EVENT_CLOCK_REALTIME, FLAG_INPUT, FLAG_OPEN_DRAIN, FLAG_OUTPUT,
    FLAG_USED,
};
use libgpiod::{Bias, Chip, Direction, Drive, Edge, Error, EventClock, Missing, Operation};

fn chip_record(lines: u32) -> Vec<u8> {
    let mut r = vec![0u8; 68];
    r[..9].copy_from_slice(b"gpiochip0");
    r[64..68].copy_from_slice(&lines.to_le_bytes());
    r
}

fn info_record(name: &[u8], consumer: &[u8], offset: u32, flags: u64, debounce: Option<u32>) -> Vec<u8> {
    let mut r = vec![0u8; 256];
    r[..name.len()].copy_from_slice(name);
    r[32..32 + consumer.len()].copy_from_slice(consumer);
    r[64..68].copy_from_slice(&offset.to_le_bytes());
    r[72..80].copy_from_slice(&flags.to_le_bytes());
    if let Some(period) = debounce {
        r[68..72].copy_from_slice(&2u32.to_le_bytes());
        // The first attribute is of an unrelated kind.
        r[80..84].copy_from_slice(&1u32.to_le_bytes());
        r[96..100].copy_from_slice(&ATTR_ID_DEBOUNCE.to_le_bytes());
        r[104..108].copy_from_slice(&period.to_le_bytes());
    }
    r
}

#[test]
fn line_info_verify() {
    let chip = Chip::open("/dev/gpiochip0", &chip_record(8)).unwrap();

    let info = chip.line_info(0, &info_record(b"foobar", b"", 0, FLAG_INPUT, None)).unwrap();
    assert_eq!(info.get_name().unwrap(), "foobar");
    assert_eq!(info.get_consumer().unwrap_err(), Error::NameNotFound(Missing::LineConsumer));
    assert_eq!(info.get_offset(), 0);
    assert_eq!(info.is_used(), false);
    assert_eq!(info.get_direction().unwrap(), Direction::Input);
    assert_eq!(info.is_active_low(), false);
    assert_eq!(info.get_bias().unwrap(), Bias::Unknown);
    assert_eq!(info.get_drive().unwrap(), Drive::PushPull);
    assert_eq!(info.get_edge_detection().unwrap(), Edge::Disabled);
    assert_eq!(info.get_event_clock().unwrap(), EventClock::Monotonic);
    assert_eq!(info.is_debounced(), false);
    assert_eq!(info.get_debounce_period(), 0);

    let flags = FLAG_USED
        | FLAG_OUTPUT
        | FLAG_ACTIVE_LOW
        | FLAG_BIAS_PULL_DOWN
        | FLAG_OPEN_DRAIN
        | FLAG_EDGE_RISING
        | FLAG_EDGE_FALLING
        | FLAG_EVENT_CLOCK_REALTIME;
    let info = chip.line_info(4, &info_record(b"", b"hog", 4, flags, Some(1000))).unwrap();
    assert_eq!(info.get_name().unwrap_err(), Error::NameNotFound(Missing::LineName));
    assert_eq!(info.get_consumer().unwrap(), "hog");
    assert_eq!(info.get_offset(), 4);
    assert_eq!(info.is_used(), true);
    assert_eq!(info.get_direction().unwrap(), Direction::Output);
    assert_eq!(info.is_active_low(), true);
    assert_eq!(info.get_bias().unwrap(), Bias::PullDown);
    assert_eq!(info.get_drive().unwrap(), Drive::OpenDrain);
    assert_eq!(info.get_edge_detection().unwrap(), Edge::Both);
    assert_eq!(info.get_event_clock().unwrap(), EventClock::Realtime);
    assert_eq!(info.is_debounced(), true);
    assert_eq!(info.get_debounce_period(), 1000);

    let info = chip
        .watch_line_info(5, &info_record(b"five", b"", 5, FLAG_BIAS_PULL_UP | FLAG_EDGE_RISING, None))
        .unwrap();
    assert_eq!(info.get_bias().unwrap(), Bias::PullUp);
    assert_eq!(info.get_edge_detection().unwrap(), Edge::Rising);
}

#[test]
fn line_info_offset_beyond_chip() {
    let chip = Chip::open("/dev/gpiochip0", &chip_record(8)).unwrap();
    assert_eq!(
        chip.line_info(8, &info_record(b"", b"", 8, 0, None)).unwrap_err(),
        Error::OperationFailed(Operation::LineInfo, libc::EINVAL)
    );
    assert_eq!(
        chip.line_info(1, &[0u8; 12]).unwrap_err(),
        Error::OperationFailed(Operation::LineInfo, libc::EIO)
    );
}

#[test]
fn name_field_stops_at_nul_and_must_be_text() {
    let chip = Chip::open("/dev/gpiochip0", &chip_record(8)).unwrap();
    let mut rec = info_record(b"ab\0cd", b"", 1, 0, None);
    let info = chip.line_info(1, &rec).unwrap();
    assert_eq!(info.get_name().unwrap(), "ab");
    rec[0] = 0xff;
    let info = chip.line_info(1, &rec).unwrap();
    assert_eq!(info.get_name().unwrap_err(), Error::InvalidString);
}
