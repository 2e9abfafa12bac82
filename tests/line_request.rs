use libgpiod::kernel_config::LineAttribute;
use libgpiod::uapi::{
    ATTR_ID_DEBOUNCE, ATTR_ID_FLAGS, ATTR_ID_OUTPUT_VALUES, FLAG_ACTIVE_LOW, FLAG_EDGE_FALLING,
    FLAG_EDGE_RISING, FLAG_INPUT, FLAG_OUTPUT,
};
use libgpiod::{Chip, Direction, Edge, Error, LineConfig, LineRequest, Operation, RequestConfig};

const NGPIO: u32 = 8;

fn chip_record(lines: u32) -> Vec<u8> {
    let mut r = vec![0u8; 68];
    r[..9].copy_from_slice(b"gpiochip0");
    r[32..36].copy_from_slice(b"test");
    r[64..68].copy_from_slice(&lines.to_le_bytes());
    r
}

fn chip() -> Chip {
    Chip::open("/dev/gpiochip0", &chip_record(NGPIO)).unwrap()
}

fn request_with(offsets: Option<&[u32]>, lconfig: &LineConfig) -> Result<LineRequest, Error> {
    let mut rconfig = RequestConfig::new().unwrap();
    if let Some(offsets) = offsets {
        rconfig.set_offsets(offsets);
    }
    chip().request_lines(&rconfig, lconfig)
}

fn attrs_with(attrs: &[LineAttribute], id: u32) -> Vec<LineAttribute> {
    attrs.iter().copied().filter(|a| a.id == id).collect()
}

#[test]
fn no_offsets() {
    let lconfig = LineConfig::new().unwrap();
    assert_eq!(
        request_with(None, &lconfig).unwrap_err(),
        Error::OperationFailed(Operation::RequestLines, libc::EINVAL)
    );
}

#[test]
fn duplicate_offsets() {
    let lconfig = LineConfig::new().unwrap();
    assert_eq!(
        request_with(Some(&[2, 0, 0, 4]), &lconfig).unwrap_err(),
        Error::OperationFailed(Operation::RequestLines, libc::EBUSY)
    );
}

#[test]
fn out_of_bound_offsets() {
    let lconfig = LineConfig::new().unwrap();
    assert_eq!(
        request_with(Some(&[2, 0, 8, 4]), &lconfig).unwrap_err(),
        Error::OperationFailed(Operation::RequestLines, libc::EINVAL)
    );
}

#[test]
fn first_offending_offset_decides() {
    let lconfig = LineConfig::new().unwrap();
    assert_eq!(
        request_with(Some(&[1, 1, 9]), &lconfig).unwrap_err(),
        Error::OperationFailed(Operation::RequestLines, libc::EBUSY)
    );
    assert_eq!(
        request_with(Some(&[1, 9, 1]), &lconfig).unwrap_err(),
        Error::OperationFailed(Operation::RequestLines, libc::EINVAL)
    );
}

#[test]
fn read_values() {
    let offsets = [7, 1, 0, 6, 2];
    // Lines 7, 1 and 6 read high; 0 and 2 low (request order).
    let bits: u64 = 0b01011;
    let mut lconfig = LineConfig::new().unwrap();
    lconfig.set_direction_default(Direction::Input);
    let request = request_with(Some(&offsets), &lconfig).unwrap();

    // Buffer is smaller
    let mut values: Vec<i32> = vec![0; 4];
    assert_eq!(request.get_values(&mut values, bits).unwrap_err(), Error::ArgumentMismatch);

    // Buffer is larger
    let mut values: Vec<i32> = vec![0; 6];
    assert_eq!(request.get_values(&mut values, bits).unwrap_err(), Error::ArgumentMismatch);

    // Single values read properly
    assert_eq!(request.get_value(7, bits).unwrap(), 1);

    // Values read properly
    let mut values: Vec<i32> = vec![0; 5];
    request.get_values(&mut values, bits).unwrap();
    assert_eq!(values, vec![1, 1, 0, 1, 0]);

    // Subset of values read properly
    let mut values: Vec<i32> = vec![0; 3];
    request.get_values_subset(&[2, 0, 6], &mut values, bits).unwrap();
    assert_eq!(values[0], 0);
    assert_eq!(values[1], 0);
    assert_eq!(values[2], 1);

    // Subset buffer of the wrong length, and a line not requested
    let mut values: Vec<i32> = vec![0; 2];
    assert_eq!(
        request.get_values_subset(&[2, 0, 6], &mut values, bits).unwrap_err(),
        Error::ArgumentMismatch
    );
    let mut values: Vec<i32> = vec![0; 2];
    assert_eq!(
        request.get_values_subset(&[2, 3], &mut values, bits).unwrap_err(),
        Error::OperationFailed(Operation::GetValuesSubset, libc::EINVAL)
    );
    assert_eq!(
        request.get_value(3, bits).unwrap_err(),
        Error::OperationFailed(Operation::GetValue, libc::EINVAL)
    );

    // Reconfiguring to active-low changes the flags of every line
    let mut lconfig = LineConfig::new().unwrap();
    lconfig.set_active_low_default(true);
    let config = request.reconfigure_lines(&lconfig).unwrap();
    assert_eq!(config.flags, FLAG_ACTIVE_LOW);
    assert!(config.attrs.is_empty());
}

#[test]
fn set_output_values() {
    let offsets = [0, 1, 3, 4];
    let mut lconfig = LineConfig::new().unwrap();
    lconfig.set_direction_default(Direction::Output);
    lconfig.set_output_value_default(1);
    lconfig.set_output_value_override(0, 4);
    let request = request_with(Some(&offsets), &lconfig).unwrap();

    let config = request.get_config();
    assert_eq!(config.flags, FLAG_OUTPUT);
    let outputs = attrs_with(&config.attrs, ATTR_ID_OUTPUT_VALUES);
    assert_eq!(outputs.len(), 1);
    assert_eq!(outputs[0].mask, 0b1111);
    // Line 4 (the fourth requested) overridden to inactive.
    assert_eq!(outputs[0].value, 0b0111);
}

#[test]
fn set_values_masks() {
    let request = request_with(Some(&[3, 5, 6]), &LineConfig::new().unwrap()).unwrap();
    let v = request.set_value(5, 7).unwrap();
    assert_eq!((v.mask, v.bits), (0b010, 0b010));
    let v = request.set_value(6, 0).unwrap();
    assert_eq!((v.mask, v.bits), (0b100, 0));
    assert_eq!(
        request.set_value(4, 1).unwrap_err(),
        Error::OperationFailed(Operation::SetValue, libc::EINVAL)
    );

    let v = request.set_values(&[1, 0, 1]).unwrap();
    assert_eq!((v.mask, v.bits), (0b111, 0b101));
    assert_eq!(request.set_values(&[1, 0]).unwrap_err(), Error::ArgumentMismatch);

    let v = request.set_values_subset(&[6, 3, 6], &[1, 1, 0]).unwrap();
    assert_eq!((v.mask, v.bits), (0b101, 0b001));
    assert_eq!(request.set_values_subset(&[6], &[1, 0]).unwrap_err(), Error::ArgumentMismatch);
    assert_eq!(
        request.set_values_subset(&[6, 0], &[1, 0]).unwrap_err(),
        Error::OperationFailed(Operation::SetValuesSubset, libc::EINVAL)
    );
}

#[test]
fn overrides_become_attributes() {
    let mut lconfig = LineConfig::new().unwrap();
    lconfig.set_direction_default(Direction::Input);
    lconfig.set_edge_detection_override(Edge::Both, 2);
    lconfig.set_edge_detection_override(Edge::Both, 4);
    lconfig.set_debounce_period_override(500, 4);
    // Ignored: line 7 is not requested.
    lconfig.set_active_low_override(true, 7);
    let request = request_with(Some(&[1, 2, 4]), &lconfig).unwrap();
    let config = request.get_config();

    assert_eq!(config.flags, FLAG_INPUT);
    let flags = attrs_with(&config.attrs, ATTR_ID_FLAGS);
    assert_eq!(flags.len(), 1);
    assert_eq!(flags[0].value, FLAG_INPUT | FLAG_EDGE_RISING | FLAG_EDGE_FALLING);
    assert_eq!(flags[0].mask, 0b110);
    let debounce = attrs_with(&config.attrs, ATTR_ID_DEBOUNCE);
    assert_eq!(debounce.len(), 1);
    assert_eq!((debounce[0].value, debounce[0].mask), (500, 0b100));
    assert_eq!(config.attrs.len(), 2);
}

#[test]
fn dir_out_edge_flags() {
    let mut lconfig = LineConfig::new().unwrap();
    lconfig.set_direction_default(Direction::Output);
    lconfig.set_edge_detection_default(Edge::Both);
    let request = request_with(Some(&[0]), &lconfig).unwrap();
    // Both directions are asked for: the kernel refuses such a request.
    let flags = request.get_config().flags;
    assert_eq!(flags & (FLAG_INPUT | FLAG_OUTPUT), FLAG_INPUT | FLAG_OUTPUT);
}

#[test]
fn too_many_attributes() {
    let mut lconfig = LineConfig::new().unwrap();
    let offsets: Vec<u32> = (0..8).collect();
    for o in 0..8u32 {
        lconfig.set_debounce_period_override(100 + o as u64, o);
    }
    for o in 1..5u32 {
        lconfig.set_active_low_override(o % 2 == 0, o);
        lconfig.set_bias_override(libgpiod::Bias::PullUp, o);
    }
    lconfig.set_direction_override(Direction::Output, 7);
    // Five debounce periods and two sets of flags.
    let request = request_with(Some(&offsets[..5]), &lconfig).unwrap();
    assert_eq!(request.get_config().attrs.len(), 7);
    // Eight debounce periods, three sets of flags and the output values.
    assert_eq!(
        request_with(Some(&offsets), &lconfig).unwrap_err(),
        Error::OperationFailed(Operation::RequestLines, libc::E2BIG)
    );
    assert_eq!(
        request.reconfigure_lines(&lconfig).map(|c| c.attrs.len()),
        Ok(7)
    );
}

#[test]
fn offsets_and_count() {
    let request = request_with(Some(&[5, 1]), &LineConfig::new().unwrap()).unwrap();
    assert_eq!(request.get_num_lines(), 2);
    assert_eq!(request.get_offsets(), vec![5, 1]);
}

#[test]
fn output_line_then_active_low() {
    let mut lconfig = LineConfig::new().unwrap();
    lconfig.set_direction_default(Direction::Output);
    lconfig.set_output_value_default(1);
    let request = request_with(Some(&[3]), &lconfig).unwrap();

    // The line is driven active.
    let config = request.get_config();
    assert_eq!(config.flags, FLAG_OUTPUT);
    let outputs = attrs_with(&config.attrs, ATTR_ID_OUTPUT_VALUES);
    assert_eq!((outputs[0].mask, outputs[0].value), (1, 1));

    // Active-low inverts the physical level of the same request's line.
    lconfig.set_active_low_default(true);
    let config = request.reconfigure_lines(&lconfig).unwrap();
    assert_eq!(config.flags, FLAG_OUTPUT | FLAG_ACTIVE_LOW);
    let outputs = attrs_with(&config.attrs, ATTR_ID_OUTPUT_VALUES);
    assert_eq!((outputs[0].mask, outputs[0].value), (1, 1));
    assert_eq!(request.get_offsets(), vec![3]);
}

#[test]
fn request_record_layout() {
    let mut rconfig = RequestConfig::new().unwrap();
    rconfig.set_offsets(&[4, 2]);
    rconfig.set_consumer("foobar");
    rconfig.set_event_buffer_size(32);
    let mut lconfig = LineConfig::new().unwrap();
    lconfig.set_direction_override(Direction::Input, 2);
    let request = chip().request_lines(&rconfig, &lconfig).unwrap();
    let record = request.request_record(&rconfig);

    assert_eq!(record.len(), 592);
    assert_eq!(&record[0..8], &[4, 0, 0, 0, 2, 0, 0, 0]);
    assert_eq!(&record[256..263], b"foobar\0");
    // Base flags 0, one flags attribute selecting the second line.
    assert_eq!(&record[288..296], &[0u8; 8]);
    assert_eq!(&record[296..300], &[1, 0, 0, 0]);
    assert_eq!(&record[320..324], &ATTR_ID_FLAGS.to_le_bytes());
    assert_eq!(&record[328..336], &FLAG_INPUT.to_le_bytes());
    assert_eq!(&record[336..344], &2u64.to_le_bytes());
    assert_eq!(&record[560..564], &2u32.to_le_bytes());
    assert_eq!(&record[564..568], &32u32.to_le_bytes());
}
