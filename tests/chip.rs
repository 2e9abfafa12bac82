use libgpiod::{Chip, Error, Missing, Operation};

const NGPIO: u32 = 16;

fn chip_record(name: &[u8], label: &[u8], lines: u32) -> Vec<u8> {
    let mut r = vec![0u8; 68];
    r[..name.len()].copy_from_slice(name);
    r[32..32 + label.len()].copy_from_slice(label);
    r[64..68].copy_from_slice(&lines.to_le_bytes());
    r
}

#[test]
fn chip_verify() {
    let chip = Chip::open("/dev/gpiochip3", &chip_record(b"gpiochip3", b"foobar", NGPIO)).unwrap();

    assert_eq!(chip.get_label().unwrap(), "foobar");
    assert_eq!(chip.get_name().unwrap(), "gpiochip3");
    assert_eq!(chip.get_path().unwrap(), "/dev/gpiochip3");
    assert_eq!(chip.get_num_lines(), NGPIO);
    let info = chip.info().unwrap();
    assert_eq!(info.num_lines(), NGPIO);
    assert_eq!(info.name().unwrap(), "gpiochip3");
}

#[test]
fn short_chip_info_record() {
    assert_eq!(
        Chip::open("/dev/gpiochip0", &[0u8; 10]).unwrap_err(),
        Error::OperationFailed(Operation::ChipInfo, libc::EIO)
    );
}

#[test]
fn line_lookup() {
    let chip = Chip::open("/dev/gpiochip0", &chip_record(b"gpiochip0", b"sim", NGPIO)).unwrap();
    let mut names: Vec<Vec<u8>> = vec![Vec::new(); NGPIO as usize];
    names[0] = b"zero".to_vec();
    names[2] = b"two".to_vec();
    names[3] = b"three".to_vec();
    names[5] = b"five".to_vec();
    names[10] = b"ten".to_vec();
    names[11] = b"ten".to_vec();

    // Success case
    assert_eq!(chip.find_line("zero", &names).unwrap(), 0);
    assert_eq!(chip.find_line("two", &names).unwrap(), 2);
    assert_eq!(chip.find_line("three", &names).unwrap(), 3);
    assert_eq!(chip.find_line("five", &names).unwrap(), 5);

    // Success with duplicate names, should return first entry
    assert_eq!(chip.find_line("ten", &names).unwrap(), 10);

    // Failure
    assert_eq!(
        chip.find_line("nonexistent", &names).unwrap_err(),
        Error::NameNotFound(Missing::Line)
    );
}

#[test]
fn line_lookup_stays_within_the_chip() {
    let chip = Chip::open("/dev/gpiochip0", &chip_record(b"gpiochip0", b"sim", 2)).unwrap();
    let names = vec![b"a".to_vec(), b"b".to_vec(), b"c".to_vec()];
    assert_eq!(chip.find_line("b", &names).unwrap(), 1);
    assert_eq!(chip.find_line("c", &names).unwrap_err(), Error::NameNotFound(Missing::Line));
}

#[test]
fn info_event_wait_outcomes() {
    let chip = Chip::open("/dev/gpiochip0", &chip_record(b"gpiochip0", b"sim", 4)).unwrap();
    assert_eq!(chip.wait_info_event(Ok(true)), Ok(()));
    assert_eq!(chip.wait_info_event(Ok(false)), Err(Error::OperationTimedOut));
    assert_eq!(
        chip.wait_info_event(Err(libc::EINTR)),
        Err(Error::OperationFailed(Operation::ChipWaitInfoEvent, libc::EINTR))
    );
}
