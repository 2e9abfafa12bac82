use libgpiod::{Bias, Config, Direction, Drive, Edge, Error, EventClock, LineConfig};

#[test]
fn line_config_verify() {
    let lconfig = LineConfig::new().unwrap();

    assert_eq!(lconfig.get_direction_default().unwrap(), Direction::AsIs);
    assert_eq!(lconfig.get_edge_detection_default().unwrap(), Edge::Disabled);
    assert_eq!(lconfig.get_bias_default().unwrap(), Bias::AsIs);
    assert_eq!(lconfig.get_drive_default().unwrap(), Drive::PushPull);
    assert_eq!(lconfig.get_active_low_default(), false);
    assert_eq!(lconfig.get_debounce_period_default().unwrap(), 0);
    assert_eq!(lconfig.get_event_clock_default().unwrap(), EventClock::Monotonic);
    assert_eq!(lconfig.get_output_value_default().unwrap(), 0);
    assert_eq!(lconfig.get_overrides().unwrap().len(), 0);
}

#[test]
fn direction() {
    const GPIO: u32 = 0;
    let mut lconfig = LineConfig::new().unwrap();

    lconfig.set_direction_default(Direction::AsIs);
    lconfig.set_direction_override(Direction::Input, GPIO);

    assert_eq!(lconfig.direction_is_overridden(GPIO), true);
    assert_eq!(lconfig.get_direction_offset(GPIO).unwrap(), Direction::Input);

    lconfig.clear_direction_override(GPIO);
    assert_eq!(lconfig.direction_is_overridden(GPIO), false);
    assert_eq!(lconfig.get_direction_offset(GPIO).unwrap(), Direction::AsIs);
}

#[test]
fn edge_detection() {
    const GPIO: u32 = 1;
    let mut lconfig = LineConfig::new().unwrap();

    lconfig.set_edge_detection_default(Edge::Disabled);
    lconfig.set_edge_detection_override(Edge::Both, GPIO);

    assert_eq!(lconfig.edge_detection_is_overridden(GPIO), true);
    assert_eq!(lconfig.get_edge_detection_offset(GPIO).unwrap(), Edge::Both);

    lconfig.clear_edge_detection_override(GPIO);
    assert_eq!(lconfig.edge_detection_is_overridden(GPIO), false);
    assert_eq!(lconfig.get_edge_detection_offset(GPIO).unwrap(), Edge::Disabled);
}

#[test]
fn bias() {
    const GPIO: u32 = 2;
    let mut lconfig = LineConfig::new().unwrap();

    lconfig.set_bias_default(Bias::AsIs);
    lconfig.set_bias_override(Bias::PullDown, GPIO);

    assert_eq!(lconfig.bias_is_overridden(GPIO), true);
    assert_eq!(lconfig.get_bias_offset(GPIO).unwrap(), Bias::PullDown);

    lconfig.clear_bias_override(GPIO);
    assert_eq!(lconfig.bias_is_overridden(GPIO), false);
    assert_eq!(lconfig.get_bias_offset(GPIO).unwrap(), Bias::AsIs);
}

#[test]
fn drive() {
    const GPIO: u32 = 3;
    let mut lconfig = LineConfig::new().unwrap();

    lconfig.set_drive_default(Drive::PushPull);
    lconfig.set_drive_override(Drive::OpenDrain, GPIO);

    assert_eq!(lconfig.drive_is_overridden(GPIO), true);
    assert_eq!(lconfig.get_drive_offset(GPIO).unwrap(), Drive::OpenDrain);

    lconfig.clear_drive_override(GPIO);
    assert_eq!(lconfig.drive_is_overridden(GPIO), false);
    assert_eq!(lconfig.get_drive_offset(GPIO).unwrap(), Drive::PushPull);
}

#[test]
fn active_low() {
    const GPIO: u32 = 4;
    let mut lconfig = LineConfig::new().unwrap();

    lconfig.set_active_low_default(false);
    lconfig.set_active_low_override(true, GPIO);

    assert_eq!(lconfig.active_low_is_overridden(GPIO), true);
    assert_eq!(lconfig.get_active_low_offset(GPIO), true);

    lconfig.clear_active_low_override(GPIO);
    assert_eq!(lconfig.active_low_is_overridden(GPIO), false);
    assert_eq!(lconfig.get_active_low_offset(GPIO), false);
}

#[test]
fn debounce_period() {
    const GPIO: u32 = 5;
    let mut lconfig = LineConfig::new().unwrap();

    // 5 ms and 3 ms, in microseconds.
    lconfig.set_debounce_period_default(5000);
    lconfig.set_debounce_period_override(3000, GPIO);

    assert_eq!(lconfig.debounce_period_is_overridden(GPIO), true);
    assert_eq!(lconfig.get_debounce_period_offset(GPIO).unwrap(), 3000);

    lconfig.clear_debounce_period_override(GPIO);
    assert_eq!(lconfig.debounce_period_is_overridden(GPIO), false);
    assert_eq!(lconfig.get_debounce_period_offset(GPIO).unwrap(), 5000);
}

#[test]
fn event_clock() {
    const GPIO: u32 = 6;
    let mut lconfig = LineConfig::new().unwrap();

    lconfig.set_event_clock_default(EventClock::Monotonic);
    lconfig.set_event_clock_override(EventClock::Realtime, GPIO);

    assert_eq!(lconfig.event_clock_is_overridden(GPIO), true);
    assert_eq!(lconfig.get_event_clock_offset(GPIO).unwrap(), EventClock::Realtime);

    lconfig.clear_event_clock_override(GPIO);
    assert_eq!(lconfig.event_clock_is_overridden(GPIO), false);
    assert_eq!(lconfig.get_event_clock_offset(GPIO).unwrap(), EventClock::Monotonic);
}

#[test]
fn output_value() {
    const GPIO: u32 = 0;
    let mut lconfig = LineConfig::new().unwrap();

    lconfig.set_output_value_default(0);
    lconfig.set_output_value_override(1, GPIO);
    lconfig.set_output_values(&[1, 2, 8], &[1, 1, 1]).unwrap();

    for line in [0, 1, 2, 8] {
        assert_eq!(lconfig.output_value_is_overridden(line), true);
        assert_eq!(lconfig.get_output_value_offset(line).unwrap(), 1);

        lconfig.clear_output_value_override(line);
        assert_eq!(lconfig.output_value_is_overridden(line), false);
        assert_eq!(lconfig.get_output_value_offset(line).unwrap(), 0);
    }
}

#[test]
fn not_overridden_offsets_follow_defaults() {
    let mut lconfig = LineConfig::new().unwrap();
    lconfig.set_bias_override(Bias::PullUp, 3);
    lconfig.set_bias_default(Bias::Disabled);
    lconfig.set_drive_default(Drive::OpenSource);

    for offset in [0, 1, 2, 4, 63, 1000] {
        assert_eq!(lconfig.get_bias_offset(offset).unwrap(), Bias::Disabled);
        assert_eq!(lconfig.get_drive_offset(offset).unwrap(), Drive::OpenSource);
    }
    assert_eq!(lconfig.get_bias_offset(3).unwrap(), Bias::PullUp);
    assert_eq!(lconfig.get_drive_offset(3).unwrap(), Drive::OpenSource);
}

#[test]
fn cleared_override_takes_the_current_default() {
    let mut lconfig = LineConfig::new().unwrap();
    lconfig.set_direction_override(Direction::Output, 7);
    lconfig.set_direction_default(Direction::Input);
    assert_eq!(lconfig.get_direction_offset(7).unwrap(), Direction::Output);
    lconfig.clear_direction_override(7);
    assert_eq!(lconfig.get_direction_offset(7).unwrap(), Direction::Input);
}

#[test]
fn overrides_are_listed_once_each() {
    let mut lconfig = LineConfig::new().unwrap();
    lconfig.set_direction_override(Direction::Output, 1);
    lconfig.set_direction_override(Direction::Input, 1);
    lconfig.set_bias_override(Bias::PullUp, 1);
    lconfig.set_edge_detection_override(Edge::Rising, 2);
    lconfig.set_output_value_override(1, 2);
    lconfig.set_edge_detection_override(Edge::Falling, 2);

    let overrides = lconfig.get_overrides().unwrap();
    assert_eq!(overrides.len(), 4);
    assert!(overrides.contains(&(1, Config::Direction)));
    assert!(overrides.contains(&(1, Config::Bias)));
    assert!(overrides.contains(&(2, Config::EdgeDetection)));
    assert!(overrides.contains(&(2, Config::OutputValue)));

    lconfig.clear_bias_override(1);
    lconfig.clear_bias_override(1);
    assert_eq!(lconfig.get_overrides().unwrap().len(), 3);
}

#[test]
fn reset_drops_overrides_and_defaults() {
    let mut lconfig = LineConfig::new().unwrap();
    lconfig.set_active_low_default(true);
    lconfig.set_event_clock_override(EventClock::Realtime, 4);
    lconfig.reset();
    assert_eq!(lconfig.get_active_low_default(), false);
    assert_eq!(lconfig.event_clock_is_overridden(4), false);
    assert_eq!(lconfig.get_overrides().unwrap().len(), 0);
}

#[test]
fn nonzero_output_values_count_as_active() {
    let mut lconfig = LineConfig::new().unwrap();
    lconfig.set_output_value_default(5);
    assert_eq!(lconfig.get_output_value_default().unwrap(), 1);
    lconfig.set_output_values(&[3, 3], &[-2, 0]).unwrap();
    assert_eq!(lconfig.get_output_value_offset(3).unwrap(), 0);
    lconfig.set_output_value_override(9, 4);
    assert_eq!(lconfig.get_output_value_offset(4).unwrap(), 1);
}

#[test]
fn output_values_length_mismatch() {
    let mut lconfig = LineConfig::new().unwrap();
    assert_eq!(lconfig.set_output_values(&[1, 2], &[1]).unwrap_err(), Error::ArgumentMismatch);
    assert_eq!(lconfig.output_value_is_overridden(1), false);
}

#[test]
fn merged_settings_per_offset() {
    let mut lconfig = LineConfig::new().unwrap();
    lconfig.set_direction_default(Direction::Input);
    lconfig.set_direction_override(Direction::Output, 2);
    lconfig.set_debounce_period_override(10, 9);

    let settings = lconfig.settings_for(&[2, 5]);
    assert_eq!(settings.len(), 2);
    assert_eq!(settings[0].direction, Direction::Output);
    assert_eq!(settings[1].direction, Direction::Input);
    assert_eq!(settings[0].debounce_period_us, 0);
    assert_eq!(settings[1].debounce_period_us, 0);
}
