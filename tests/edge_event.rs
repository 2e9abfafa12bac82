use libgpiod::line_request::LineRequest;
use libgpiod::{
    Chip, EdgeEventBuffer, Error, LineConfig, LineEdgeEvent, Operation, RequestConfig, ValueKind,
};

fn edge_record(timestamp: u64, id: u32, offset: u32, seqno: u32, line_seqno: u32) -> Vec<u8> {
    let mut r = Vec::new();
    r.extend_from_slice(&timestamp.to_le_bytes());
    r.extend_from_slice(&id.to_le_bytes());
    r.extend_from_slice(&offset.to_le_bytes());
    r.extend_from_slice(&seqno.to_le_bytes());
    r.extend_from_slice(&line_seqno.to_le_bytes());
    r.extend_from_slice(&[0u8; 24]);
    r
}

fn chip_record(lines: u32) -> Vec<u8> {
    let mut r = vec![0u8; 68];
    r[..9].copy_from_slice(b"gpiochip0");
    r[32..36].copy_from_slice(b"test");
    r[64..68].copy_from_slice(&lines.to_le_bytes());
    r
}

fn request(offsets: &[u32]) -> LineRequest {
    let chip = Chip::open("/dev/gpiochip0", &chip_record(8)).unwrap();
    let mut rconfig = RequestConfig::new().unwrap();
    rconfig.set_offsets(offsets);
    let lconfig = LineConfig::new().unwrap();
    chip.request_lines(&rconfig, &lconfig).unwrap()
}

#[test]
fn default_capacity() {
    assert_eq!(EdgeEventBuffer::new(0).unwrap().get_capacity(), 64);
}

#[test]
fn user_defined_capacity() {
    assert_eq!(EdgeEventBuffer::new(123).unwrap().get_capacity(), 123);
}

#[test]
fn max_capacity() {
    assert_eq!(EdgeEventBuffer::new(1024 * 2).unwrap().get_capacity(), 1024);
}

#[test]
fn events_decode_in_order() {
    let req = request(&[2, 5]);
    let mut records = edge_record(1000, 1, 2, 1, 1);
    records.extend(edge_record(2000, 2, 5, 2, 1));
    records.extend(edge_record(3000, 2, 2, 3, 2));
    let mut buffer = EdgeEventBuffer::new(0).unwrap();

    assert_eq!(req.read_edge_event(&mut buffer, 10, &records).unwrap(), 3);
    assert_eq!(buffer.get_num_events(), 3);

    let first = buffer.get_event(0).unwrap();
    assert_eq!(first.get_event_type().unwrap(), LineEdgeEvent::Rising);
    assert_eq!(first.get_timestamp(), 1000);
    assert_eq!(first.get_line_offset(), 2);
    assert_eq!(first.get_global_seqno(), 1);
    assert_eq!(first.get_line_seqno(), 1);

    let third = buffer.get_event_copy(2).unwrap();
    assert_eq!(third.get_event_type().unwrap(), LineEdgeEvent::Falling);
    assert_eq!(third.get_timestamp(), 3000);
    assert_eq!(third.get_global_seqno(), 3);
    assert_eq!(third.get_line_seqno(), 2);

    assert_eq!(
        buffer.get_event(3).unwrap_err(),
        Error::OperationFailed(Operation::BufferGetEvent, libc::EINVAL)
    );
}

#[test]
fn copy_outlives_the_buffer_contents() {
    let req = request(&[1]);
    let mut buffer = EdgeEventBuffer::new(4).unwrap();
    req.read_edge_event(&mut buffer, 4, &edge_record(7, 1, 1, 1, 1)).unwrap();
    let copy = buffer.get_event_copy(0).unwrap();
    req.read_edge_event(&mut buffer, 4, &edge_record(9, 2, 1, 2, 2)).unwrap();
    assert_eq!(copy.get_timestamp(), 7);
    assert_eq!(buffer.get_event(0).unwrap().get_timestamp(), 9);
}

#[test]
fn over_capacity_reads_at_most_capacity() {
    let req = request(&[0]);
    let mut records = Vec::new();
    for i in 0..5u32 {
        records.extend(edge_record(i as u64, 1, 0, i + 1, i + 1));
    }
    let mut buffer = EdgeEventBuffer::new(2).unwrap();
    assert_eq!(buffer.records_to_read(10), 2);
    assert_eq!(req.read_edge_event(&mut buffer, 10, &records).unwrap(), 2);
    assert_eq!(buffer.get_event(1).unwrap().get_global_seqno(), 2);
    assert_eq!(req.read_edge_event(&mut buffer, 1, &records[96..]).unwrap(), 1);
    assert_eq!(buffer.get_event(0).unwrap().get_global_seqno(), 3);
}

#[test]
fn short_read_is_an_io_error() {
    let req = request(&[0]);
    let mut buffer = EdgeEventBuffer::new(1).unwrap();
    assert_eq!(
        req.read_edge_event(&mut buffer, 1, &[0u8; 20]).unwrap_err(),
        Error::OperationFailed(Operation::ReadEdgeEvent, libc::EIO)
    );
}

#[test]
fn unknown_event_type_is_invalid() {
    let req = request(&[0]);
    let mut buffer = EdgeEventBuffer::new(1).unwrap();
    req.read_edge_event(&mut buffer, 1, &edge_record(0, 9, 0, 1, 1)).unwrap();
    assert_eq!(
        buffer.get_event(0).unwrap().get_event_type().unwrap_err(),
        Error::InvalidValue(ValueKind::EdgeEvent, 9)
    );
}

#[test]
fn wait_outcomes() {
    let req = request(&[0]);
    assert_eq!(req.wait_edge_event(Ok(true)), Ok(()));
    assert_eq!(req.wait_edge_event(Ok(false)), Err(Error::OperationTimedOut));
    assert_eq!(
        req.wait_edge_event(Err(4)),
        Err(Error::OperationFailed(Operation::WaitEdgeEvent, 4))
    );
}

#[test]
fn over_capacity() {
    const GPIO: u32 = 2;
    let mut buf = EdgeEventBuffer::new(2).unwrap();
    let req = request(&[GPIO]);
    let mut records = Vec::new();
    for i in 0..3u32 {
        records.extend(edge_record(100 * i as u64, 1 + i % 2, GPIO, i + 1, i + 1));
    }
    let capacity = buf.get_capacity();
    assert_eq!(req.read_edge_event(&mut buf, capacity, &records).unwrap(), 2);
    assert_eq!(buf.get_num_events(), 2);
}
