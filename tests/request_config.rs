use libgpiod::{Error, RequestConfig};

#[test]
fn default() {
    let rconfig = RequestConfig::new().unwrap();

    assert_eq!(rconfig.get_offsets().len(), 0);
    assert_eq!(rconfig.get_event_buffer_size(), 0);
    assert_eq!(rconfig.get_consumer().unwrap_err(), Error::NotSet);
}

#[test]
fn initialized() {
    let offsets = [0, 1, 2, 3];
    const CONSUMER: &str = "foobar";
    let mut rconfig = RequestConfig::new().unwrap();
    rconfig.set_consumer(CONSUMER);
    rconfig.set_offsets(&offsets);
    rconfig.set_event_buffer_size(64);

    assert_eq!(rconfig.get_offsets(), offsets);
    assert_eq!(rconfig.get_event_buffer_size(), 64);
    assert_eq!(rconfig.get_consumer().unwrap(), CONSUMER);
}

#[test]
fn offsets_above_the_limit_are_dropped() {
    let offsets: Vec<u32> = (0..70).collect();
    let mut rconfig = RequestConfig::new().unwrap();
    rconfig.set_offsets(&offsets);
    assert_eq!(rconfig.get_offsets(), offsets[..64].to_vec());
}

#[test]
fn long_consumer_is_truncated() {
    let mut rconfig = RequestConfig::new().unwrap();
    rconfig.set_consumer("abcdefghijklmnopqrstuvwxyz0123456789");
    assert_eq!(rconfig.get_consumer().unwrap(), "abcdefghijklmnopqrstuvwxyz01234");
}

#[test]
fn consumer_cut_inside_a_character_is_invalid() {
    let mut rconfig = RequestConfig::new().unwrap();
    // 30 ASCII bytes, then a two-byte character that the limit cuts in two.
    rconfig.set_consumer("aaaaaaaaaaaaaaaaaaaaaaaaaaaaaa\u{e9}");
    assert_eq!(rconfig.get_consumer().unwrap_err(), Error::InvalidString);
}
