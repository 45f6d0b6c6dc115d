use pmd_usb::codec::decode_config;
use pmd_usb::codec::decode_device_id;
use pmd_usb::codec::decode_sensors;
use pmd_usb::codec::decode_timed_adc;
use pmd_usb::codec::decode_u16_frame;
use pmd_usb::codec::encode_config;
use pmd_usb::codec::encode_cont_tx;
use pmd_usb::codec::encode_uart_config;
use pmd_usb::codec::i16_from_adc;
use pmd_usb::codec::u16_from_le;
use pmd_usb::codec::u16_to_le;
use pmd_usb::codec::u32_from_le;
use pmd_usb::codec::u32_to_le;
use pmd_usb::codec::ConfigSnapshot;
use pmd_usb::codec::ConfigStruct;
use pmd_usb::codec::ContTxStruct;
use pmd_usb::codec::LegacyConfigStruct;
use pmd_usb::codec::UartConfigStruct;
use pmd_usb::PmdError;

fn sample_gain_config() -> ConfigStruct {
    ConfigStruct {
        version: 6,
        pad1: 0xAA,
        crc: 0xBEEF,
        adc_offset: [1, -2, 3, -4, 5, -6, 7, -8],
        oled_disable: 1,
        pad2: 0xBB,
        timeout_count: 0x1234,
        timeout_action: 2,
        oled_speed: 3,
        restart_adc_flag: 4,
        cal_flag: 5,
        update_config_flag: 6,
        oled_rotation: 7,
        averaging: 8,
        adc_gain_offset: [-1, 2, -3, 4, -5, 6, -7, 8],
        rsvd: [9, 10, 11],
    }
}

fn sample_legacy_config() -> LegacyConfigStruct {
    LegacyConfigStruct {
        version: 5,
        pad1: 0,
        crc: 0x0102,
        adc_offset: [-128, 127, 0, 1, -1, 64, -64, 33],
        oled_disable: 0,
        pad2: 0,
        timeout_count: 500,
        timeout_action: 1,
        oled_speed: 9,
        restart_adc_flag: 0,
        cal_flag: 1,
        update_config_flag: 0,
        oled_rotation: 1,
        averaging: 2,
    }
}

#[test]
fn u16_le_round_trips() {
    for x in [0u16, 1, 0x00FF, 0x0100, 0xABCD, u16::MAX] {
        let (lo, hi) = u16_to_le(x);
        assert_eq!(u16_from_le(lo, hi), x);
    }
    assert_eq!(u16_from_le(0x34, 0x12), 0x1234);
}

#[test]
fn u32_le_round_trips() {
    for x in [0u32, 1, 460_800, 0xDEADBEEF, u32::MAX] {
        let b = u32_to_le(x);
        assert_eq!(u32_from_le(b[0], b[1], b[2], b[3]), x);
    }
    assert_eq!(u32_from_le(0x78, 0x56, 0x34, 0x12), 0x12345678);
}

#[test]
fn adc_transform_sign_extends() {
    // A 12-bit reading sits four bits up; bit 11 is the sign.
    assert_eq!(i16_from_adc(0x0010), 1);
    assert_eq!(i16_from_adc(0x7FF0), 2047);
    assert_eq!(i16_from_adc(0x8000), -2048);
    assert_eq!(i16_from_adc(0xFFF0), -1);
    assert_eq!(i16_from_adc(0x0000), 0);
    // The low nibble is ignored.
    assert_eq!(i16_from_adc(0x001F), 1);
}

#[test]
fn adc_transform_round_trips_through_embedding() {
    // Re-embedding the decoded reading and re-decoding yields the
    // original reading, for every 12-bit code pattern.
    for code in 0u16..4096 {
        let embedded = code << 4;
        let reading = i16_from_adc(embedded);
        let re_embedded = (reading as u16) << 4;
        assert_eq!(re_embedded, embedded);
        assert_eq!(i16_from_adc(re_embedded), reading);
    }
}

#[test]
fn device_id_decodes() {
    let id = decode_device_id(&vec![0xEE, 0x0A, 6]).unwrap();
    assert_eq!(id.vendor, 0xEE);
    assert_eq!(id.product, 0x0A);
    assert_eq!(id.firmware, 6);
}

#[test]
fn device_id_wrong_size_is_layout_error() {
    assert_eq!(decode_device_id(&vec![0xEE, 0x0A]), Err(PmdError::LayoutError));
    assert_eq!(decode_device_id(&vec![0xEE, 0x0A, 6, 0]), Err(PmdError::LayoutError));
}

#[test]
fn gain_config_round_trips() {
    let config = sample_gain_config();
    let bytes = encode_config(&ConfigSnapshot::Gain(config));
    assert_eq!(bytes.len(), 34);
    let decoded = decode_config(&bytes, 6).unwrap();
    assert_eq!(decoded, ConfigSnapshot::Gain(config));
    match decoded {
        ConfigSnapshot::Gain(c) => {
            assert_eq!(c.adc_gain_offset.len(), 8);
            assert_eq!(c.adc_gain_offset, config.adc_gain_offset);
        }
        ConfigSnapshot::Legacy(_) => panic!("firmware 6 must decode the gain shape"),
    }
}

#[test]
fn legacy_config_round_trips() {
    let config = sample_legacy_config();
    let bytes = encode_config(&ConfigSnapshot::Legacy(config));
    assert_eq!(bytes.len(), 23);
    let decoded = decode_config(&bytes, 5).unwrap();
    assert_eq!(decoded, ConfigSnapshot::Legacy(config));
    match decoded {
        ConfigSnapshot::Legacy(c) => assert_eq!(c.adc_offset, config.adc_offset),
        ConfigSnapshot::Gain(_) => panic!("firmware 5 must decode the legacy shape"),
    }
}

#[test]
fn config_shape_mismatch_is_layout_error() {
    let legacy_bytes = encode_config(&ConfigSnapshot::Legacy(sample_legacy_config()));
    assert_eq!(decode_config(&legacy_bytes, 6), Err(PmdError::LayoutError));
    let gain_bytes = encode_config(&ConfigSnapshot::Gain(sample_gain_config()));
    assert_eq!(decode_config(&gain_bytes, 5), Err(PmdError::LayoutError));
}

#[test]
fn u16_frame_decodes_little_endian() {
    let mut bytes = Vec::new();
    for i in 0u16..8 {
        let (lo, hi) = u16_to_le(i * 1000);
        bytes.push(lo);
        bytes.push(hi);
    }
    let frame = decode_u16_frame(&bytes).unwrap();
    for i in 0..8 {
        assert_eq!(frame[i], (i as u16) * 1000);
    }
}

#[test]
fn u16_frame_wrong_size_is_layout_error() {
    assert_eq!(decode_u16_frame(&vec![0; 15]), Err(PmdError::LayoutError));
    assert_eq!(decode_u16_frame(&vec![0; 17]), Err(PmdError::LayoutError));
}

#[test]
fn timed_adc_frame_decodes() {
    let mut bytes = Vec::new();
    let stamp = u32_to_le(1_200_000);
    bytes.extend_from_slice(&stamp);
    for i in 0u16..8 {
        let (lo, hi) = u16_to_le(0x0100 + i);
        bytes.push(lo);
        bytes.push(hi);
    }
    let frame = decode_timed_adc(&bytes).unwrap();
    assert_eq!(frame.timestamp, 1_200_000);
    for i in 0..8 {
        assert_eq!(frame.buffer[i], 0x0100 + i as u16);
    }
}

#[test]
fn timed_adc_wrong_size_is_layout_error() {
    assert_eq!(decode_timed_adc(&vec![0; 16]), Err(PmdError::LayoutError));
}

#[test]
fn sensor_snapshot_decodes() {
    let mut bytes = Vec::new();
    let names: [&[u8; 6]; 4] = [b"PCIE1\0", b"PCIE2\0", b"EPS1\0\0", b"EPS2\0\0"];
    for (k, name) in names.iter().enumerate() {
        bytes.extend_from_slice(*name);
        let (lo, hi) = u16_to_le(500 + k as u16);
        bytes.push(lo);
        bytes.push(hi);
        let (lo, hi) = u16_to_le(30 + k as u16);
        bytes.push(lo);
        bytes.push(hi);
        let (lo, hi) = u16_to_le(2 + k as u16);
        bytes.push(lo);
        bytes.push(hi);
    }
    let sensors = decode_sensors(&bytes).unwrap();
    assert_eq!(&sensors.sensor[0].name, b"PCIE1\0");
    assert_eq!(sensors.sensor[0].voltage, 500);
    assert_eq!(sensors.sensor[0].current, 30);
    assert_eq!(sensors.sensor[0].power, 2);
    assert_eq!(&sensors.sensor[3].name, b"EPS2\0\0");
    assert_eq!(sensors.sensor[3].voltage, 503);
}

#[test]
fn sensor_snapshot_wrong_size_is_layout_error() {
    assert_eq!(decode_sensors(&vec![0; 47]), Err(PmdError::LayoutError));
}

#[test]
fn cont_tx_payload_bytes() {
    let config = ContTxStruct { enable: 1, timestamp_bytes: 4, adc_channels: 0xFF };
    assert_eq!(encode_cont_tx(&config), vec![1, 4, 0xFF]);
}

#[test]
fn uart_config_payload_bytes() {
    let config = UartConfigStruct {
        baud_rate: 460_800,
        parity: 2,
        data_width: 0,
        stop_bits: 0,
    };
    let payload = encode_uart_config(&config);
    // 460800 = 0x00070800, little-endian words in field order.
    assert_eq!(
        payload,
        vec![0x00, 0x08, 0x07, 0x00, 2, 0, 0, 0, 0, 0, 0, 0, 0, 0, 0, 0]
    );
}
