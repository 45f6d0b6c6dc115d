use pmd_usb::convert::adjust_device_timestamp;
use pmd_usb::convert::convert_adc_frame;
use pmd_usb::convert::convert_reading_micro;
use pmd_usb::convert::convert_sensor_frame;

#[test]
fn sensor_conversion_exact_values() {
    // Even channels are voltages at 10_000 microvolts per bit, odd
    // channels currents at 100_000 microamps per bit.
    let frame = [500u16, 30, 0, 1, 2, 3, 65535, 65535];
    let values = convert_sensor_frame(&frame);
    assert_eq!(values[0], 5_000_000); // 5.00 V
    assert_eq!(values[1], 3_000_000); // 3.0 A
    assert_eq!(values[2], 0);
    assert_eq!(values[3], 100_000);
    assert_eq!(values[4], 20_000);
    assert_eq!(values[5], 300_000);
    assert_eq!(values[6], 655_350_000);
    assert_eq!(values[7], 6_553_500_000);
}

#[test]
fn sensor_conversion_is_linear_and_scale_only() {
    let single = [100u16, 100, 100, 100, 100, 100, 100, 100];
    let double = [200u16, 200, 200, 200, 200, 200, 200, 200];
    let zero = [0u16; 8];
    let single_values = convert_sensor_frame(&single);
    let double_values = convert_sensor_frame(&double);
    let zero_values = convert_sensor_frame(&zero);
    for i in 0..8 {
        assert_eq!(double_values[i], 2 * single_values[i]);
        assert_eq!(zero_values[i], 0);
    }
}

#[test]
fn adc_conversion_zero_offset_is_scaled_sign_extend() {
    // Reading 100 embedded at bit 4; zero offsets: the result is the
    // sign-extended reading times the fixed per-channel scale.
    let frame = [100u16 << 4; 8];
    let values = convert_adc_frame(&frame, &[0i8; 8]);
    for i in 0..8 {
        if i % 2 == 0 {
            assert_eq!(values[i], 100 * 7_568);
        } else {
            assert_eq!(values[i], 100 * 48_800);
        }
    }
}

#[test]
fn adc_conversion_applies_offset_before_scaling() {
    let frame = [100u16 << 4; 8];
    let offsets = [3i8, -3, 3, -3, 3, -3, 3, -3];
    let values = convert_adc_frame(&frame, &offsets);
    // (reading + offset) * scale, not reading * scale + offset.
    assert_eq!(values[0], 103 * 7_568);
    assert_eq!(values[1], 97 * 48_800);
    assert_ne!(values[0], 100 * 7_568 + 3);
}

#[test]
fn adc_conversion_negative_reading() {
    // 0xFFF0 embeds the reading -1.
    let frame = [0xFFF0u16; 8];
    let values = convert_adc_frame(&frame, &[0i8; 8]);
    assert_eq!(values[0], -7_568);
    assert_eq!(values[1], -48_800);
}

#[test]
fn reading_conversion_exact_values() {
    let (volts, amps, watts) = convert_reading_micro(500, 30, 2);
    assert_eq!(volts, 5_000_000); // 5.00 V
    assert_eq!(amps, 3_000_000); // 3.0 A
    assert_eq!(watts, 2_000_000); // 2 W
}

#[test]
fn device_timestamp_scales_ticks_to_micros() {
    // The device clock runs at three megahertz; conversion truncates
    // toward zero.
    assert_eq!(adjust_device_timestamp(0), 0);
    assert_eq!(adjust_device_timestamp(1), 0);
    assert_eq!(adjust_device_timestamp(2), 0);
    assert_eq!(adjust_device_timestamp(3), 1);
    assert_eq!(adjust_device_timestamp(301), 100);
    assert_eq!(adjust_device_timestamp(u32::MAX), (u32::MAX / 3) as u128);
}
