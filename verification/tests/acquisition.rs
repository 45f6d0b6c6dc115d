use pmd_usb::acquisition::fast_poll_step;
use pmd_usb::acquisition::pacing_sleep_micros;
use pmd_usb::acquisition::select_speed_level;
use pmd_usb::acquisition::slow_poll_step;
use pmd_usb::acquisition::SpeedLevel;
use pmd_usb::codec::u16_to_le;
use pmd_usb::codec::u32_to_le;
use pmd_usb::session::welcome_response;
use pmd_usb::session::PmdUsb;
use pmd_usb::session::SessionState;
use pmd_usb::PmdError;

/// Drives the initialization sequence against simulated replies.
fn init_session(firmware: u8) -> PmdUsb {
    let mut session = PmdUsb::new();
    session.disable_cont_tx();
    session.read_device_id(&vec![0xEE, 0x0A, firmware]).unwrap();
    let config_len = if firmware < 6 { 23 } else { 34 };
    session.read_config(&vec![0u8; config_len]).unwrap();
    let mut sensors = Vec::new();
    for _ in 0..4 {
        sensors.extend_from_slice(b"RAIL0\0");
        sensors.extend_from_slice(&[0u8; 6]);
    }
    session.read_sensors(&sensors).unwrap();
    session.welcome(&welcome_response()).unwrap();
    session
}

/// A polled sensor-value frame whose first voltage code is given.
fn sensor_frame(first_voltage: u16) -> Vec<u8> {
    let mut bytes = Vec::new();
    let (lo, hi) = u16_to_le(first_voltage);
    bytes.push(lo);
    bytes.push(hi);
    while bytes.len() < 16 {
        bytes.push(0);
    }
    bytes
}

/// A streamed frame with the given device tick count.
fn timed_frame(ticks: u32) -> Vec<u8> {
    let mut bytes = u32_to_le(ticks).to_vec();
    bytes.extend_from_slice(&[0u8; 16]);
    bytes
}

#[test]
fn speed_levels_map_to_strategies() {
    assert_eq!(select_speed_level(0), Ok(SpeedLevel::OneShot));
    assert_eq!(select_speed_level(1), Ok(SpeedLevel::Slow));
    assert_eq!(select_speed_level(2), Ok(SpeedLevel::Fast));
    assert_eq!(select_speed_level(3), Ok(SpeedLevel::Fastest));
}

#[test]
fn speed_level_out_of_range_is_configuration_error() {
    assert_eq!(select_speed_level(4), Err(PmdError::ConfigurationError));
    assert_eq!(select_speed_level(255), Err(PmdError::ConfigurationError));
}

#[test]
fn strategy_flags() {
    assert!(!SpeedLevel::OneShot.uses_streaming());
    assert!(!SpeedLevel::Slow.uses_streaming());
    assert!(SpeedLevel::Fast.uses_streaming());
    assert!(SpeedLevel::Fastest.uses_streaming());
    assert!(!SpeedLevel::Fast.uses_bumped_baud());
    assert!(SpeedLevel::Fastest.uses_bumped_baud());
}

#[test]
fn overrun_sleeps_exactly_zero() {
    // Processing longer than the interval never inverts the sleep.
    assert_eq!(pacing_sleep_micros(1_000_000, 1_000_001), 0);
    assert_eq!(pacing_sleep_micros(1_000_000, u64::MAX), 0);
    assert_eq!(pacing_sleep_micros(1_000_000, 1_000_000), 0);
    assert_eq!(pacing_sleep_micros(0, 0), 0);
}

#[test]
fn fast_exchange_sleeps_the_remainder() {
    assert_eq!(pacing_sleep_micros(1_000_000, 0), 1_000_000);
    assert_eq!(pacing_sleep_micros(1_000_000, 250), 999_750);
}

#[test]
fn slow_mode_three_samples_in_order() {
    // Speed level 1, interval 1000 ms, zero per-call latency; the
    // cancellation flag falls after exactly three produced samples:
    // exactly three rows reach the sink, in production order, each
    // with a strictly increasing host timestamp.
    let mut session = init_session(6);
    session.begin_polling();
    let interval_micros = 1_000_000u64;
    let mut sink = Vec::new();
    let mut host_clock: u128 = 1_700_000_000_000_000;
    for k in 0..3u16 {
        let reply = Some(sensor_frame(100 + k));
        let (sample, sleep) =
            slow_poll_step(&session, &reply, host_clock, interval_micros, 0).unwrap();
        assert_eq!(sleep, interval_micros);
        sink.push(sample);
        host_clock += interval_micros as u128;
    }
    session.end_polling();
    assert_eq!(sink.len(), 3);
    for k in 0..3 {
        assert_eq!(sink[k].values[0], (100 + k as i64) * 10_000);
    }
    for k in 1..3 {
        assert!(sink[k].timestamp.micros > sink[k - 1].timestamp.micros);
    }
}

#[test]
fn streaming_timestamps_follow_the_device_clock() {
    // Five streamed frames with ticks 0, 300, ..., 1200 convert to
    // host-visible timestamps 0, 100, 200, 300, 400 microseconds.
    let mut session = init_session(6);
    session.enable_cont_tx();
    assert_eq!(session.state, SessionState::Streaming);
    let ticks = [0u32, 300, 600, 900, 1200];
    let mut stamps = Vec::new();
    for t in ticks {
        let reply = Some(timed_frame(t));
        let sample = fast_poll_step(&session, &reply).unwrap();
        stamps.push(sample.timestamp.micros);
    }
    assert_eq!(stamps, vec![0, 100, 200, 300, 400]);
    session.disable_cont_tx();
}

#[test]
fn slow_mode_timeout_on_second_call_is_fatal() {
    // The first poll succeeds and yields one row; the second read
    // times out, which is a fatal transport error: the sink holds
    // exactly one row, never a partial one.
    let mut session = init_session(6);
    session.begin_polling();
    let mut sink = Vec::new();
    let first = Some(sensor_frame(42));
    let (sample, _) = slow_poll_step(&session, &first, 1_000, 1_000_000, 0).unwrap();
    sink.push(sample);
    let second: Option<Vec<u8>> = None;
    let outcome = slow_poll_step(&session, &second, 2_000, 1_000_000, 0);
    assert_eq!(outcome, Err(PmdError::TransportError));
    assert_eq!(sink.len(), 1);
    assert_eq!(sink[0].values[0], 420_000);
}

#[test]
fn short_poll_reply_is_layout_error() {
    let mut session = init_session(6);
    session.begin_polling();
    let reply = Some(vec![0u8; 15]);
    assert_eq!(
        slow_poll_step(&session, &reply, 0, 1_000_000, 0),
        Err(PmdError::LayoutError)
    );
}

#[test]
fn short_stream_frame_is_layout_error() {
    let mut session = init_session(6);
    session.enable_cont_tx();
    let reply = Some(vec![0u8; 19]);
    assert_eq!(fast_poll_step(&session, &reply), Err(PmdError::LayoutError));
}

#[test]
fn streamed_values_use_calibration_offsets() {
    let mut session = PmdUsb::new();
    session.read_device_id(&vec![0xEE, 0x0A, 6]).unwrap();
    let mut config = vec![0u8; 34];
    config[4] = 5; // channel 0 offset
    session.read_config(&config).unwrap();
    let mut sensors = Vec::new();
    for _ in 0..4 {
        sensors.extend_from_slice(b"RAIL0\0");
        sensors.extend_from_slice(&[0u8; 6]);
    }
    session.read_sensors(&sensors).unwrap();
    session.welcome(&welcome_response()).unwrap();
    session.enable_cont_tx();
    let mut frame = u32_to_le(3).to_vec();
    let (lo, hi) = u16_to_le(100u16 << 4);
    frame.push(lo);
    frame.push(hi);
    frame.extend_from_slice(&[0u8; 14]);
    let sample = fast_poll_step(&session, &Some(frame)).unwrap();
    assert_eq!(sample.timestamp.micros, 1);
    assert_eq!(sample.values[0], 105 * 7_568);
    assert_eq!(sample.values[1], 0);
}
