//! Wire codec for the fixed binary layouts the device speaks.
//!
//! All multi-byte integers on the wire are little-endian, and every
//! structure is packed with no padding bytes beyond the ones the layout
//! itself names. Each decoder checks the buffer length and fails with a
//! layout error on a mismatch instead of reinterpreting memory.

use vstd::prelude::*;

use crate::AdcBuffer;
use crate::PmdError;

verus! {

// ---------------------------------------------------------------------
// Little-endian primitives
// ---------------------------------------------------------------------

/// The 16-bit value stored as the little-endian byte pair `(lo, hi)`.
pub open spec fn spec_u16_le(lo: u8, hi: u8) -> u16 {
    (lo as u16) | ((hi as u16) << 8)
}

/// Low byte of a 16-bit value.
pub open spec fn spec_u16_lo(x: u16) -> u8 {
    (x & 0xff) as u8
}

/// High byte of a 16-bit value.
pub open spec fn spec_u16_hi(x: u16) -> u8 {
    (x >> 8) as u8
}

/// Splitting a 16-bit value into its little-endian bytes and
/// reassembling them yields the value back.
pub proof fn lemma_u16_le_round_trip(x: u16)
    by (bit_vector)
    ensures
        spec_u16_le(spec_u16_lo(x), spec_u16_hi(x)) == x,
{
}

/// Reads the 16-bit value stored little-endian in `(lo, hi)`.
pub fn u16_from_le(lo: u8, hi: u8) -> (r: u16)
    ensures
        r == spec_u16_le(lo, hi),
{
    (lo as u16) | ((hi as u16) << 8u16)
}

/// Splits a 16-bit value into its little-endian bytes.
pub fn u16_to_le(x: u16) -> (r: (u8, u8))
    ensures
        r.0 == spec_u16_lo(x),
        r.1 == spec_u16_hi(x),
{
    proof {
        assert(x & 0xff < 256 && x >> 8 < 256) by (bit_vector);
    }
    ((x & 0xff) as u8, (x >> 8u16) as u8)
}

/// The byte that stores a signed 8-bit value on the wire
/// (two's complement).
pub open spec fn spec_i8_to_byte(x: i8) -> u8 {
    x as u8
}

/// The signed 8-bit value a wire byte stands for (two's complement).
pub open spec fn spec_byte_to_i8(b: u8) -> i8 {
    b as i8
}

/// Two's-complement encoding of a signed byte is invertible.
pub proof fn lemma_i8_byte_round_trip(x: i8, b: u8)
    by (bit_vector)
    ensures
        spec_byte_to_i8(spec_i8_to_byte(x)) == x,
        spec_i8_to_byte(spec_byte_to_i8(b)) == b,
{
}

// ---------------------------------------------------------------------
// The signed 12-bit ADC code transform
// ---------------------------------------------------------------------

/// The signed reading embedded in a raw 16-bit ADC code: the device
/// stores a two's-complement 12-bit value shifted left by four bits.
/// Right-shift by four, mask to twelve bits, and sign-extend bit 11.
pub open spec fn spec_i16_from_adc(value: u16) -> i16 {
    if ((value >> 4) & 0x800) != 0 {
        (((value >> 4) & 0x0fff) | 0xf000) as i16
    } else {
        ((value >> 4) & 0x0fff) as i16
    }
}

/// The raw 16-bit code that embeds a 12-bit reading: the low twelve
/// bits of the reading shifted left by four.
pub open spec fn spec_adc_embed(reading: i16) -> u16 {
    (reading as u16) << 4
}

/// The decoded reading always lies in the signed 12-bit range.
pub proof fn lemma_adc_reading_range(value: u16)
    by (bit_vector)
    ensures
        -2048 <= spec_i16_from_adc(value) <= 2047,
{
}

/// The branch-by-branch shape of the transform, as executable code
/// computes it on the masked intermediate value.
proof fn lemma_i16_from_adc_branches(value: u16)
    by (bit_vector)
    ensures
        ((value >> 4) & 0x0fff) & 0x0800 != 0 ==> spec_i16_from_adc(value) == (((value >> 4)
            & 0x0fff) | 0xf000) as i16,
        ((value >> 4) & 0x0fff) & 0x0800 == 0 ==> spec_i16_from_adc(value) == ((value >> 4)
            & 0x0fff) as i16,
{
}

/// Convert signed 12-bit integers from the ADC to i16: shift the raw
/// code right by four bits, mask to twelve bits, sign-extend bit 11.
pub fn i16_from_adc(value: u16) -> (r: i16)
    ensures
        r == spec_i16_from_adc(value),
        -2048 <= r <= 2047,
{
    proof {
        lemma_adc_reading_range(value);
        lemma_i16_from_adc_branches(value);
    }
    let shifted = value >> 4u16;
    let masked = shifted & 0x0fff;
    if (masked & 0x0800) != 0 {
        (masked | 0xf000) as i16
    } else {
        masked as i16
    }
}

/// For every 12-bit code pattern, re-embedding the decoded reading
/// reproduces the original embedding exactly, so decoding again yields
/// the same reading: the sign-extend transform inverts the embedding.
pub proof fn lemma_adc_transform_round_trip(code: u16)
    by (bit_vector)
    requires
        code < 4096,
    ensures
        spec_adc_embed(spec_i16_from_adc((code as u16) << 4)) == code << 4,
        spec_i16_from_adc(spec_adc_embed(spec_i16_from_adc(code << 4)))
            == spec_i16_from_adc(code << 4),
{
}

// ---------------------------------------------------------------------
// Device configuration: two on-wire shapes keyed by firmware version
// ---------------------------------------------------------------------

/// First firmware major version whose configuration carries the
/// per-channel gain-offset array.
pub const PMD_CONFIG_GAIN_FIRMWARE: u8 = 6;

/// Wire size of the configuration shape without gain offsets.
pub const PMD_LEGACY_CONFIG_BYTE_NUM: usize = 23;

/// Wire size of the configuration shape with gain offsets.
pub const PMD_CONFIG_BYTE_NUM: usize = 34;

/// Device configuration as held by firmware below version 6: one
/// signed calibration offset per ADC channel plus behavior flags.
#[derive(Debug, Clone, Copy, PartialEq, Eq)]
pub struct LegacyConfigStruct {
    pub version: u8,
    pub pad1: u8,
    pub crc: u16,
    pub adc_offset: [i8; 8],
    pub oled_disable: u8,
    pub pad2: u8,
    pub timeout_count: u16,
    pub timeout_action: u8,
    pub oled_speed: u8,
    pub restart_adc_flag: u8,
    pub cal_flag: u8,
    pub update_config_flag: u8,
    pub oled_rotation: u8,
    pub averaging: u8,
}

/// Device configuration as held by firmware version 6 and above: the
/// legacy fields followed by a per-channel gain-offset array and three
/// reserved bytes.
#[derive(Debug, Clone, Copy, PartialEq, Eq)]
pub struct ConfigStruct {
    pub version: u8,
    pub pad1: u8,
    pub crc: u16,
    pub adc_offset: [i8; 8],
    pub oled_disable: u8,
    pub pad2: u8,
    pub timeout_count: u16,
    pub timeout_action: u8,
    pub oled_speed: u8,
    pub restart_adc_flag: u8,
    pub cal_flag: u8,
    pub update_config_flag: u8,
    pub oled_rotation: u8,
    pub averaging: u8,
    pub adc_gain_offset: [i8; 8],
    pub rsvd: [u8; 3],
}

/// Mathematical image of [`LegacyConfigStruct`].
pub struct LegacyConfigView {
    pub version: u8,
    pub pad1: u8,
    pub crc: u16,
    pub adc_offset: Seq<i8>,
    pub oled_disable: u8,
    pub pad2: u8,
    pub timeout_count: u16,
    pub timeout_action: u8,
    pub oled_speed: u8,
    pub restart_adc_flag: u8,
    pub cal_flag: u8,
    pub update_config_flag: u8,
    pub oled_rotation: u8,
    pub averaging: u8,
}

/// Mathematical image of [`ConfigStruct`].
pub struct ConfigView {
    pub version: u8,
    pub pad1: u8,
    pub crc: u16,
    pub adc_offset: Seq<i8>,
    pub oled_disable: u8,
    pub pad2: u8,
    pub timeout_count: u16,
    pub timeout_action: u8,
    pub oled_speed: u8,
    pub restart_adc_flag: u8,
    pub cal_flag: u8,
    pub update_config_flag: u8,
    pub oled_rotation: u8,
    pub averaging: u8,
    pub adc_gain_offset: Seq<i8>,
    pub rsvd: Seq<u8>,
}

impl LegacyConfigView {
    /// The array fields have the lengths the wire layout fixes.
    pub open spec fn wf(self) -> bool {
        self.adc_offset.len() == 8
    }
}

impl ConfigView {
    /// The array fields have the lengths the wire layout fixes.
    pub open spec fn wf(self) -> bool {
        &&& self.adc_offset.len() == 8
        &&& self.adc_gain_offset.len() == 8
        &&& self.rsvd.len() == 3
    }
}

impl View for LegacyConfigStruct {
    type V = LegacyConfigView;

    open spec fn view(&self) -> LegacyConfigView {
        LegacyConfigView {
            version: self.version,
            pad1: self.pad1,
            crc: self.crc,
            adc_offset: self.adc_offset@,
            oled_disable: self.oled_disable,
            pad2: self.pad2,
            timeout_count: self.timeout_count,
            timeout_action: self.timeout_action,
            oled_speed: self.oled_speed,
            restart_adc_flag: self.restart_adc_flag,
            cal_flag: self.cal_flag,
            update_config_flag: self.update_config_flag,
            oled_rotation: self.oled_rotation,
            averaging: self.averaging,
        }
    }
}

impl View for ConfigStruct {
    type V = ConfigView;

    open spec fn view(&self) -> ConfigView {
        ConfigView {
            version: self.version,
            pad1: self.pad1,
            crc: self.crc,
            adc_offset: self.adc_offset@,
            oled_disable: self.oled_disable,
            pad2: self.pad2,
            timeout_count: self.timeout_count,
            timeout_action: self.timeout_action,
            oled_speed: self.oled_speed,
            restart_adc_flag: self.restart_adc_flag,
            cal_flag: self.cal_flag,
            update_config_flag: self.update_config_flag,
            oled_rotation: self.oled_rotation,
            averaging: self.averaging,
            adc_gain_offset: self.adc_gain_offset@,
            rsvd: self.rsvd@,
        }
    }
}

/// Byte `i` of the legacy configuration's wire encoding.
pub open spec fn legacy_config_byte_at(v: LegacyConfigView, i: int) -> u8 {
    if i == 0 {
        v.version
    } else if i == 1 {
        v.pad1
    } else if i == 2 {
        spec_u16_lo(v.crc)
    } else if i == 3 {
        spec_u16_hi(v.crc)
    } else if i < 12 {
        spec_i8_to_byte(v.adc_offset[i - 4])
    } else if i == 12 {
        v.oled_disable
    } else if i == 13 {
        v.pad2
    } else if i == 14 {
        spec_u16_lo(v.timeout_count)
    } else if i == 15 {
        spec_u16_hi(v.timeout_count)
    } else if i == 16 {
        v.timeout_action
    } else if i == 17 {
        v.oled_speed
    } else if i == 18 {
        v.restart_adc_flag
    } else if i == 19 {
        v.cal_flag
    } else if i == 20 {
        v.update_config_flag
    } else if i == 21 {
        v.oled_rotation
    } else {
        v.averaging
    }
}

/// Wire encoding of the legacy configuration shape.
pub open spec fn spec_encode_legacy_config(v: LegacyConfigView) -> Seq<u8> {
    Seq::new(23, |i: int| legacy_config_byte_at(v, i))
}

/// Byte `i` of the gain-carrying configuration's wire encoding: the
/// legacy fields first, then the gain offsets, then the reserved tail.
pub open spec fn config_byte_at(v: ConfigView, i: int) -> u8 {
    if i < 23 {
        legacy_config_byte_at(legacy_part(v), i)
    } else if i < 31 {
        spec_i8_to_byte(v.adc_gain_offset[i - 23])
    } else {
        v.rsvd[i - 31]
    }
}

/// The legacy fields of a gain-carrying configuration.
pub open spec fn legacy_part(v: ConfigView) -> LegacyConfigView {
    LegacyConfigView {
        version: v.version,
        pad1: v.pad1,
        crc: v.crc,
        adc_offset: v.adc_offset,
        oled_disable: v.oled_disable,
        pad2: v.pad2,
        timeout_count: v.timeout_count,
        timeout_action: v.timeout_action,
        oled_speed: v.oled_speed,
        restart_adc_flag: v.restart_adc_flag,
        cal_flag: v.cal_flag,
        update_config_flag: v.update_config_flag,
        oled_rotation: v.oled_rotation,
        averaging: v.averaging,
    }
}

/// Wire encoding of the gain-carrying configuration shape.
pub open spec fn spec_encode_config(v: ConfigView) -> Seq<u8> {
    Seq::new(34, |i: int| config_byte_at(v, i))
}

/// Decodes the legacy configuration shape, defined only on buffers of
/// its exact wire size.
pub open spec fn spec_decode_legacy_config(b: Seq<u8>) -> Option<LegacyConfigView> {
    if b.len() == 23 {
        Some(
            LegacyConfigView {
                version: b[0],
                pad1: b[1],
                crc: spec_u16_le(b[2], b[3]),
                adc_offset: Seq::new(8, |i: int| spec_byte_to_i8(b[4 + i])),
                oled_disable: b[12],
                pad2: b[13],
                timeout_count: spec_u16_le(b[14], b[15]),
                timeout_action: b[16],
                oled_speed: b[17],
                restart_adc_flag: b[18],
                cal_flag: b[19],
                update_config_flag: b[20],
                oled_rotation: b[21],
                averaging: b[22],
            },
        )
    } else {
        None
    }
}

/// Decodes the gain-carrying configuration shape, defined only on
/// buffers of its exact wire size.
pub open spec fn spec_decode_config(b: Seq<u8>) -> Option<ConfigView> {
    if b.len() == 34 {
        Some(
            ConfigView {
                version: b[0],
                pad1: b[1],
                crc: spec_u16_le(b[2], b[3]),
                adc_offset: Seq::new(8, |i: int| spec_byte_to_i8(b[4 + i])),
                oled_disable: b[12],
                pad2: b[13],
                timeout_count: spec_u16_le(b[14], b[15]),
                timeout_action: b[16],
                oled_speed: b[17],
                restart_adc_flag: b[18],
                cal_flag: b[19],
                update_config_flag: b[20],
                oled_rotation: b[21],
                averaging: b[22],
                adc_gain_offset: Seq::new(8, |i: int| spec_byte_to_i8(b[23 + i])),
                rsvd: Seq::new(3, |i: int| b[31 + i]),
            },
        )
    } else {
        None
    }
}

/// Round trip for the legacy shape: decoding an encoded configuration
/// yields the configuration back, and it exposes only the base offset
/// array.
pub proof fn lemma_legacy_config_round_trip(v: LegacyConfigView)
    requires
        v.wf(),
    ensures
        spec_decode_legacy_config(spec_encode_legacy_config(v)) == Some(v),
{
    let e = spec_encode_legacy_config(v);
    lemma_u16_le_round_trip(v.crc);
    lemma_u16_le_round_trip(v.timeout_count);
    let d = spec_decode_legacy_config(e)->Some_0;
    assert forall|i: int| 0 <= i < 8 implies d.adc_offset[i] == v.adc_offset[i] by {
        lemma_i8_byte_round_trip(v.adc_offset[i], 0);
    }
    assert(d.adc_offset =~= v.adc_offset);
}

/// Round trip for the gain-carrying shape: decoding an encoded
/// configuration yields the configuration back, with the full
/// eight-entry gain-offset array recovered.
pub proof fn lemma_config_round_trip(v: ConfigView)
    requires
        v.wf(),
    ensures
        spec_decode_config(spec_encode_config(v)) == Some(v),
        spec_decode_config(spec_encode_config(v))->Some_0.adc_gain_offset.len() == 8,
{
    let e = spec_encode_config(v);
    lemma_u16_le_round_trip(v.crc);
    lemma_u16_le_round_trip(v.timeout_count);
    let d = spec_decode_config(e)->Some_0;
    assert forall|i: int| 0 <= i < 8 implies d.adc_offset[i] == v.adc_offset[i] by {
        lemma_i8_byte_round_trip(v.adc_offset[i], 0);
    }
    assert(d.adc_offset =~= v.adc_offset);
    assert forall|i: int| 0 <= i < 8 implies d.adc_gain_offset[i] == v.adc_gain_offset[i] by {
        lemma_i8_byte_round_trip(v.adc_gain_offset[i], 0);
    }
    assert(d.adc_gain_offset =~= v.adc_gain_offset);
    assert(d.rsvd =~= v.rsvd);
}

/// The device-held configuration, in the on-wire shape of the session's
/// firmware: chosen once at initialization and fixed for the session.
#[derive(Debug, Clone, Copy, PartialEq, Eq)]
pub enum ConfigSnapshot {
    /// Firmware below version 6: base offsets only.
    Legacy(LegacyConfigStruct),
    /// Firmware version 6 and above: base offsets and gain offsets.
    Gain(ConfigStruct),
}

/// Mathematical image of [`ConfigSnapshot`].
pub enum ConfigSnapshotView {
    Legacy(LegacyConfigView),
    Gain(ConfigView),
}

impl View for ConfigSnapshot {
    type V = ConfigSnapshotView;

    open spec fn view(&self) -> ConfigSnapshotView {
        match self {
            ConfigSnapshot::Legacy(c) => ConfigSnapshotView::Legacy(c@),
            ConfigSnapshot::Gain(c) => ConfigSnapshotView::Gain(c@),
        }
    }
}

impl ConfigSnapshotView {
    /// The array fields have the lengths the wire layout fixes.
    pub open spec fn wf(self) -> bool {
        match self {
            ConfigSnapshotView::Legacy(v) => v.wf(),
            ConfigSnapshotView::Gain(v) => v.wf(),
        }
    }

    /// The per-channel calibration offsets, present in both shapes.
    pub open spec fn adc_offset(self) -> Seq<i8> {
        match self {
            ConfigSnapshotView::Legacy(v) => v.adc_offset,
            ConfigSnapshotView::Gain(v) => v.adc_offset,
        }
    }
}

/// Wire size of the configuration shape the given firmware holds.
pub open spec fn spec_config_wire_size(firmware: u8) -> int {
    if firmware < 6 {
        23
    } else {
        34
    }
}

/// Decodes the configuration shape the given firmware holds.
pub open spec fn spec_decode_config_snapshot(b: Seq<u8>, firmware: u8) -> Option<
    ConfigSnapshotView,
> {
    if firmware < 6 {
        match spec_decode_legacy_config(b) {
            Some(v) => Some(ConfigSnapshotView::Legacy(v)),
            None => None,
        }
    } else {
        match spec_decode_config(b) {
            Some(v) => Some(ConfigSnapshotView::Gain(v)),
            None => None,
        }
    }
}

/// Wire encoding of a configuration snapshot, in its own shape.
pub open spec fn spec_encode_config_snapshot(v: ConfigSnapshotView) -> Seq<u8> {
    match v {
        ConfigSnapshotView::Legacy(c) => spec_encode_legacy_config(c),
        ConfigSnapshotView::Gain(c) => spec_encode_config(c),
    }
}

/// Round trip for both configuration shapes: a snapshot decoded by a
/// firmware of the shape it was encoded for yields the snapshot back.
/// A gain-shape decoding recovers the full eight-entry gain-offset
/// array; a legacy decoding exposes only the base offset array.
pub proof fn lemma_config_snapshot_round_trip(v: ConfigSnapshotView, firmware: u8)
    requires
        v.wf(),
        (firmware < PMD_CONFIG_GAIN_FIRMWARE) == (v is Legacy),
    ensures
        spec_decode_config_snapshot(spec_encode_config_snapshot(v), firmware) == Some(v),
        v matches ConfigSnapshotView::Gain(c) ==> c.adc_gain_offset.len() == 8,
{
    match v {
        ConfigSnapshotView::Legacy(c) => lemma_legacy_config_round_trip(c),
        ConfigSnapshotView::Gain(c) => lemma_config_round_trip(c),
    }
}

/// Decodes the legacy configuration shape from a reply buffer.
pub fn decode_legacy_config(bytes: &Vec<u8>) -> (r: Result<LegacyConfigStruct, PmdError>)
    ensures
        r is Ok <==> bytes@.len() == 23,
        r matches Ok(c) ==> Some(c@) == spec_decode_legacy_config(bytes@),
        r is Err ==> r == Err::<LegacyConfigStruct, PmdError>(PmdError::LayoutError),
{
    if bytes.len() != 23 {
        return Err(PmdError::LayoutError);
    }
    let mut adc_offset = [0i8; 8];
    let mut i: usize = 0;
    while i < 8
        invariant
            i <= 8,
            bytes@.len() == 23,
            forall|j: int| 0 <= j < i ==> adc_offset@[j] == spec_byte_to_i8(bytes@[4 + j]),
        decreases 8 - i,
    {
        adc_offset[i] = #[verifier::truncate] (bytes[4 + i] as i8);
        i += 1;
    }
    let c = LegacyConfigStruct {
        version: bytes[0],
        pad1: bytes[1],
        crc: u16_from_le(bytes[2], bytes[3]),
        adc_offset,
        oled_disable: bytes[12],
        pad2: bytes[13],
        timeout_count: u16_from_le(bytes[14], bytes[15]),
        timeout_action: bytes[16],
        oled_speed: bytes[17],
        restart_adc_flag: bytes[18],
        cal_flag: bytes[19],
        update_config_flag: bytes[20],
        oled_rotation: bytes[21],
        averaging: bytes[22],
    };
    proof {
        let d = spec_decode_legacy_config(bytes@)->Some_0;
        assert(c@.adc_offset =~= d.adc_offset);
    }
    Ok(c)
}

/// Decodes the gain-carrying configuration shape from a reply buffer.
pub fn decode_gain_config(bytes: &Vec<u8>) -> (r: Result<ConfigStruct, PmdError>)
    ensures
        r is Ok <==> bytes@.len() == 34,
        r matches Ok(c) ==> Some(c@) == spec_decode_config(bytes@),
        r is Err ==> r == Err::<ConfigStruct, PmdError>(PmdError::LayoutError),
{
    if bytes.len() != 34 {
        return Err(PmdError::LayoutError);
    }
    let mut adc_offset = [0i8; 8];
    let mut adc_gain_offset = [0i8; 8];
    let mut rsvd = [0u8; 3];
    let mut i: usize = 0;
    while i < 8
        invariant
            i <= 8,
            bytes@.len() == 34,
            forall|j: int| 0 <= j < i ==> adc_offset@[j] == spec_byte_to_i8(bytes@[4 + j]),
            forall|j: int|
                0 <= j < i ==> adc_gain_offset@[j] == spec_byte_to_i8(bytes@[23 + j]),
        decreases 8 - i,
    {
        adc_offset[i] = #[verifier::truncate] (bytes[4 + i] as i8);
        adc_gain_offset[i] = #[verifier::truncate] (bytes[23 + i] as i8);
        i += 1;
    }
    let mut k: usize = 0;
    while k < 3
        invariant
            k <= 3,
            bytes@.len() == 34,
            forall|j: int| 0 <= j < i ==> adc_offset@[j] == spec_byte_to_i8(bytes@[4 + j]),
            forall|j: int|
                0 <= j < i ==> adc_gain_offset@[j] == spec_byte_to_i8(bytes@[23 + j]),
            i == 8,
            forall|j: int| 0 <= j < k ==> rsvd@[j] == bytes@[31 + j],
        decreases 3 - k,
    {
        rsvd[k] = bytes[31 + k];
        k += 1;
    }
    let c = ConfigStruct {
        version: bytes[0],
        pad1: bytes[1],
        crc: u16_from_le(bytes[2], bytes[3]),
        adc_offset,
        oled_disable: bytes[12],
        pad2: bytes[13],
        timeout_count: u16_from_le(bytes[14], bytes[15]),
        timeout_action: bytes[16],
        oled_speed: bytes[17],
        restart_adc_flag: bytes[18],
        cal_flag: bytes[19],
        update_config_flag: bytes[20],
        oled_rotation: bytes[21],
        averaging: bytes[22],
        adc_gain_offset,
        rsvd,
    };
    proof {
        let d = spec_decode_config(bytes@)->Some_0;
        assert(c@.adc_offset =~= d.adc_offset);
        assert(c@.adc_gain_offset =~= d.adc_gain_offset);
        assert(c@.rsvd =~= d.rsvd);
    }
    Ok(c)
}

/// Decodes the configuration reply in the shape the session's firmware
/// holds: the legacy shape below version 6, the gain-carrying shape
/// from version 6 on.
pub fn decode_config(bytes: &Vec<u8>, firmware: u8) -> (r: Result<ConfigSnapshot, PmdError>)
    ensures
        r is Ok <==> bytes@.len() == spec_config_wire_size(firmware),
        r matches Ok(c) ==> Some(c@) == spec_decode_config_snapshot(bytes@, firmware),
        r matches Ok(c) ==> (c is Legacy <==> firmware < PMD_CONFIG_GAIN_FIRMWARE),
        r is Err ==> r == Err::<ConfigSnapshot, PmdError>(PmdError::LayoutError),
{
    if firmware < PMD_CONFIG_GAIN_FIRMWARE {
        match decode_legacy_config(bytes) {
            Ok(c) => Ok(ConfigSnapshot::Legacy(c)),
            Err(e) => Err(e),
        }
    } else {
        match decode_gain_config(bytes) {
            Ok(c) => Ok(ConfigSnapshot::Gain(c)),
            Err(e) => Err(e),
        }
    }
}

/// Encodes the legacy configuration shape.
pub fn encode_legacy_config(c: &LegacyConfigStruct) -> (r: Vec<u8>)
    ensures
        r@ == spec_encode_legacy_config(c@),
{
    let mut out: Vec<u8> = Vec::new();
    out.push(c.version);
    out.push(c.pad1);
    let crc = u16_to_le(c.crc);
    out.push(crc.0);
    out.push(crc.1);
    let mut i: usize = 0;
    while i < 8
        invariant
            i <= 8,
            out@.len() == 4 + i,
            forall|j: int| 0 <= j < 4 ==> out@[j] == legacy_config_byte_at(c@, j),
            forall|j: int| 0 <= j < i ==> out@[4 + j] == spec_i8_to_byte(c@.adc_offset[j]),
        decreases 8 - i,
    {
        out.push(#[verifier::truncate] (c.adc_offset[i] as u8));
        i += 1;
    }
    out.push(c.oled_disable);
    out.push(c.pad2);
    let tc = u16_to_le(c.timeout_count);
    out.push(tc.0);
    out.push(tc.1);
    out.push(c.timeout_action);
    out.push(c.oled_speed);
    out.push(c.restart_adc_flag);
    out.push(c.cal_flag);
    out.push(c.update_config_flag);
    out.push(c.oled_rotation);
    out.push(c.averaging);
    proof {
        assert(out@ =~= spec_encode_legacy_config(c@));
    }
    out
}

/// Encodes the gain-carrying configuration shape.
pub fn encode_gain_config(c: &ConfigStruct) -> (r: Vec<u8>)
    ensures
        r@ == spec_encode_config(c@),
{
    let mut out: Vec<u8> = Vec::new();
    out.push(c.version);
    out.push(c.pad1);
    let crc = u16_to_le(c.crc);
    out.push(crc.0);
    out.push(crc.1);
    let mut i: usize = 0;
    while i < 8
        invariant
            i <= 8,
            out@.len() == 4 + i,
            forall|j: int| 0 <= j < 4 ==> out@[j] == config_byte_at(c@, j),
            forall|j: int| 0 <= j < i ==> out@[4 + j] == spec_i8_to_byte(c@.adc_offset[j]),
        decreases 8 - i,
    {
        out.push(#[verifier::truncate] (c.adc_offset[i] as u8));
        i += 1;
    }
    out.push(c.oled_disable);
    out.push(c.pad2);
    let tc = u16_to_le(c.timeout_count);
    out.push(tc.0);
    out.push(tc.1);
    out.push(c.timeout_action);
    out.push(c.oled_speed);
    out.push(c.restart_adc_flag);
    out.push(c.cal_flag);
    out.push(c.update_config_flag);
    out.push(c.oled_rotation);
    out.push(c.averaging);
    let mut g: usize = 0;
    while g < 8
        invariant
            g <= 8,
            out@.len() == 23 + g,
            forall|j: int| 0 <= j < 23 ==> out@[j] == config_byte_at(c@, j),
            forall|j: int| 0 <= j < g ==> out@[23 + j] == spec_i8_to_byte(c@.adc_gain_offset[j]),
        decreases 8 - g,
    {
        out.push(#[verifier::truncate] (c.adc_gain_offset[g] as u8));
        g += 1;
    }
    let mut k: usize = 0;
    while k < 3
        invariant
            k <= 3,
            out@.len() == 31 + k,
            forall|j: int| 0 <= j < 31 ==> out@[j] == config_byte_at(c@, j),
            forall|j: int| 0 <= j < k ==> out@[31 + j] == c@.rsvd[j],
        decreases 3 - k,
    {
        out.push(c.rsvd[k]);
        k += 1;
    }
    proof {
        assert(out@ =~= spec_encode_config(c@));
    }
    out
}

/// Encodes a configuration snapshot in its own wire shape.
pub fn encode_config(c: &ConfigSnapshot) -> (r: Vec<u8>)
    ensures
        r@ == spec_encode_config_snapshot(c@),
{
    match c {
        ConfigSnapshot::Legacy(lc) => encode_legacy_config(lc),
        ConfigSnapshot::Gain(gc) => encode_gain_config(gc),
    }
}

// ---------------------------------------------------------------------
// 32-bit little-endian primitives
// ---------------------------------------------------------------------

/// Byte `k` of the little-endian encoding of a 32-bit value.
pub open spec fn spec_u32_byte(x: u32, k: int) -> u8 {
    if k == 0 {
        (x & 0xff) as u8
    } else if k == 1 {
        ((x >> 8) & 0xff) as u8
    } else if k == 2 {
        ((x >> 16) & 0xff) as u8
    } else {
        ((x >> 24) & 0xff) as u8
    }
}

/// The 32-bit value stored as four little-endian bytes.
pub open spec fn spec_u32_le(b0: u8, b1: u8, b2: u8, b3: u8) -> u32 {
    (b0 as u32) | ((b1 as u32) << 8) | ((b2 as u32) << 16) | ((b3 as u32) << 24)
}

/// Reads the 32-bit value stored little-endian in four bytes.
pub fn u32_from_le(b0: u8, b1: u8, b2: u8, b3: u8) -> (r: u32)
    ensures
        r == spec_u32_le(b0, b1, b2, b3),
{
    (b0 as u32) | ((b1 as u32) << 8u32) | ((b2 as u32) << 16u32) | ((b3 as u32) << 24u32)
}

/// Splits a 32-bit value into its four little-endian bytes.
pub fn u32_to_le(x: u32) -> (r: [u8; 4])
    ensures
        forall|k: int| 0 <= k < 4 ==> r@[k] == spec_u32_byte(x, k),
{
    proof {
        assert((x & 0xff) < 256 && ((x >> 8) & 0xff) < 256 && ((x >> 16) & 0xff) < 256 && ((x
            >> 24) & 0xff) < 256) by (bit_vector);
    }
    let mut r = [0u8; 4];
    r[0] = (x & 0xff) as u8;
    r[1] = ((x >> 8u32) & 0xff) as u8;
    r[2] = ((x >> 16u32) & 0xff) as u8;
    r[3] = ((x >> 24u32) & 0xff) as u8;
    r
}

// ---------------------------------------------------------------------
// Device identity
// ---------------------------------------------------------------------

/// Wire size of the identity reply.
pub const PMD_ID_BYTE_NUM: usize = 3;

/// Vendor, product and firmware version of the attached peripheral.
#[derive(Debug, Clone, Copy, PartialEq, Eq)]
pub struct DeviceIdStruct {
    pub vendor: u8,
    pub product: u8,
    pub firmware: u8,
}

/// Decodes the identity reply, defined only on buffers of its exact
/// wire size.
pub open spec fn spec_decode_device_id(b: Seq<u8>) -> Option<DeviceIdStruct> {
    if b.len() == 3 {
        Some(DeviceIdStruct { vendor: b[0], product: b[1], firmware: b[2] })
    } else {
        None
    }
}

/// Decodes the identity reply from a reply buffer.
pub fn decode_device_id(bytes: &Vec<u8>) -> (r: Result<DeviceIdStruct, PmdError>)
    ensures
        r is Ok <==> bytes@.len() == 3,
        r matches Ok(d) ==> Some(d) == spec_decode_device_id(bytes@),
        r is Err ==> r == Err::<DeviceIdStruct, PmdError>(PmdError::LayoutError),
{
    if bytes.len() != 3 {
        return Err(PmdError::LayoutError);
    }
    Ok(DeviceIdStruct { vendor: bytes[0], product: bytes[1], firmware: bytes[2] })
}

// ---------------------------------------------------------------------
// Frames of eight 16-bit codes
// ---------------------------------------------------------------------

/// Wire size of an eight-channel frame of 16-bit codes.
pub const PMD_ADC_BYTE_NUM: usize = 16;

/// The 16-bit words stored little-endian in a byte buffer.
pub open spec fn spec_words_le(b: Seq<u8>) -> Seq<u16> {
    Seq::new(b.len() / 2, |i: int| spec_u16_le(b[2 * i], b[2 * i + 1]))
}

/// Decodes a frame of eight little-endian 16-bit codes from a reply
/// buffer.
pub fn decode_u16_frame(bytes: &Vec<u8>) -> (r: Result<[u16; 8], PmdError>)
    ensures
        r is Ok <==> bytes@.len() == 16,
        r matches Ok(a) ==> a@ == spec_words_le(bytes@),
        r is Err ==> r == Err::<[u16; 8], PmdError>(PmdError::LayoutError),
{
    if bytes.len() != 16 {
        return Err(PmdError::LayoutError);
    }
    let mut a = [0u16; 8];
    let mut i: usize = 0;
    while i < 8
        invariant
            i <= 8,
            bytes@.len() == 16,
            forall|j: int| 0 <= j < i ==> a@[j] == spec_u16_le(bytes@[2 * j], bytes@[2 * j + 1]),
        decreases 8 - i,
    {
        a[i] = u16_from_le(bytes[2 * i], bytes[2 * i + 1]);
        i += 1;
    }
    proof {
        assert(a@ =~= spec_words_le(bytes@));
    }
    Ok(a)
}

// ---------------------------------------------------------------------
// Continuous-streaming frames
// ---------------------------------------------------------------------

/// Wire size of a streamed frame with a full device timestamp.
pub const PMD_TIMED_ADC_BYTE_NUM: usize = 20;

/// One continuous-streaming frame: a device-clock timestamp followed
/// by an eight-channel ADC frame.
#[derive(Debug, Clone, Copy, PartialEq, Eq)]
pub struct TimedAdcBuffer {
    pub timestamp: u32,
    pub buffer: AdcBuffer,
}

/// Mathematical image of [`TimedAdcBuffer`].
pub struct TimedAdcBufferView {
    pub timestamp: u32,
    pub buffer: Seq<u16>,
}

impl View for TimedAdcBuffer {
    type V = TimedAdcBufferView;

    open spec fn view(&self) -> TimedAdcBufferView {
        TimedAdcBufferView { timestamp: self.timestamp, buffer: self.buffer@ }
    }
}

/// Decodes a streamed frame, defined only on buffers of its exact wire
/// size: four timestamp bytes, then eight 16-bit codes.
pub open spec fn spec_decode_timed_adc(b: Seq<u8>) -> Option<TimedAdcBufferView> {
    if b.len() == 20 {
        Some(
            TimedAdcBufferView {
                timestamp: spec_u32_le(b[0], b[1], b[2], b[3]),
                buffer: spec_words_le(b.subrange(4, 20)),
            },
        )
    } else {
        None
    }
}

/// Decodes a streamed frame from a reply buffer.
pub fn decode_timed_adc(bytes: &Vec<u8>) -> (r: Result<TimedAdcBuffer, PmdError>)
    ensures
        r is Ok <==> bytes@.len() == 20,
        r matches Ok(t) ==> Some(t@) == spec_decode_timed_adc(bytes@),
        r is Err ==> r == Err::<TimedAdcBuffer, PmdError>(PmdError::LayoutError),
{
    if bytes.len() != 20 {
        return Err(PmdError::LayoutError);
    }
    let timestamp = u32_from_le(bytes[0], bytes[1], bytes[2], bytes[3]);
    let mut a = [0u16; 8];
    let mut i: usize = 0;
    while i < 8
        invariant
            i <= 8,
            bytes@.len() == 20,
            forall|j: int|
                0 <= j < i ==> a@[j] == spec_u16_le(bytes@[4 + 2 * j], bytes@[4 + 2 * j + 1]),
        decreases 8 - i,
    {
        a[i] = u16_from_le(bytes[4 + 2 * i], bytes[4 + 2 * i + 1]);
        i += 1;
    }
    let t = TimedAdcBuffer { timestamp, buffer: a };
    proof {
        let tail = bytes@.subrange(4, 20);
        assert forall|j: int| 0 <= j < 8 implies a@[j] == spec_words_le(tail)[j] by {
            assert(tail[2 * j] == bytes@[4 + 2 * j]);
            assert(tail[2 * j + 1] == bytes@[4 + 2 * j + 1]);
        }
        assert(a@ =~= spec_words_le(tail));
    }
    Ok(t)
}

// ---------------------------------------------------------------------
// Sensor snapshot
// ---------------------------------------------------------------------

/// Wire size of one sensor rail reading.
pub const PMD_READING_BYTE_NUM: usize = 12;

/// Wire size of the full sensor snapshot reply.
pub const PMD_SENSOR_STRUCT_BYTE_NUM: usize = 48;

/// One onboard sensor rail: a fixed-width padded name and pre-scaled
/// voltage, current and power codes.
#[derive(Debug, Clone, Copy, PartialEq, Eq)]
pub struct ReadingStruct {
    pub name: [u8; 6],
    pub voltage: u16,
    pub current: u16,
    pub power: u16,
}

/// Mathematical image of [`ReadingStruct`].
pub struct ReadingView {
    pub name: Seq<u8>,
    pub voltage: u16,
    pub current: u16,
    pub power: u16,
}

impl View for ReadingStruct {
    type V = ReadingView;

    open spec fn view(&self) -> ReadingView {
        ReadingView {
            name: self.name@,
            voltage: self.voltage,
            current: self.current,
            power: self.power,
        }
    }
}

/// Onboard pre-scaled readings for the four rails.
#[derive(Debug, Clone, Copy, PartialEq, Eq)]
pub struct SensorStruct {
    pub sensor: [ReadingStruct; 4],
}

/// Mathematical image of [`SensorStruct`].
pub struct SensorStructView {
    pub sensor: Seq<ReadingView>,
}

impl View for SensorStruct {
    type V = SensorStructView;

    open spec fn view(&self) -> SensorStructView {
        SensorStructView { sensor: Seq::new(4, |i: int| self.sensor@[i]@) }
    }
}

/// The rail reading stored at byte offset `o`: six name bytes, then
/// the voltage, current and power codes, little-endian.
pub open spec fn spec_decode_reading_at(b: Seq<u8>, o: int) -> ReadingView {
    ReadingView {
        name: b.subrange(o, o + 6),
        voltage: spec_u16_le(b[o + 6], b[o + 7]),
        current: spec_u16_le(b[o + 8], b[o + 9]),
        power: spec_u16_le(b[o + 10], b[o + 11]),
    }
}

/// Decodes the sensor snapshot, defined only on buffers of its exact
/// wire size: four rail readings of twelve bytes each.
pub open spec fn spec_decode_sensors(b: Seq<u8>) -> Option<SensorStructView> {
    if b.len() == 48 {
        Some(SensorStructView { sensor: Seq::new(4, |i: int| spec_decode_reading_at(b, 12 * i)) })
    } else {
        None
    }
}

/// Decodes one rail reading at the given byte offset.
fn decode_reading_at(bytes: &Vec<u8>, off: usize) -> (r: ReadingStruct)
    requires
        off <= 36,
        off + 12 <= bytes@.len(),
    ensures
        r@ == spec_decode_reading_at(bytes@, off as int),
{
    let mut name = [0u8; 6];
    let mut i: usize = 0;
    while i < 6
        invariant
            i <= 6,
            off <= 36,
            off + 12 <= bytes@.len(),
            forall|j: int| 0 <= j < i ==> name@[j] == bytes@[off + j],
        decreases 6 - i,
    {
        name[i] = bytes[off + i];
        i += 1;
    }
    let r = ReadingStruct {
        name,
        voltage: u16_from_le(bytes[off + 6], bytes[off + 7]),
        current: u16_from_le(bytes[off + 8], bytes[off + 9]),
        power: u16_from_le(bytes[off + 10], bytes[off + 11]),
    };
    proof {
        assert(r@.name =~= spec_decode_reading_at(bytes@, off as int).name);
    }
    r
}

/// Decodes the sensor snapshot from a reply buffer.
pub fn decode_sensors(bytes: &Vec<u8>) -> (r: Result<SensorStruct, PmdError>)
    ensures
        r is Ok <==> bytes@.len() == 48,
        r matches Ok(s) ==> Some(s@) == spec_decode_sensors(bytes@),
        r is Err ==> r == Err::<SensorStruct, PmdError>(PmdError::LayoutError),
{
    if bytes.len() != 48 {
        return Err(PmdError::LayoutError);
    }
    let r0 = decode_reading_at(bytes, 0);
    let r1 = decode_reading_at(bytes, 12);
    let r2 = decode_reading_at(bytes, 24);
    let r3 = decode_reading_at(bytes, 36);
    let mut sensor = [r0; 4];
    sensor[1] = r1;
    sensor[2] = r2;
    sensor[3] = r3;
    let s = SensorStruct { sensor };
    proof {
        let d = spec_decode_sensors(bytes@)->Some_0;
        assert forall|i: int| 0 <= i < 4 implies s@.sensor[i] == d.sensor[i] by {
        }
        assert(s@.sensor =~= d.sensor);
    }
    Ok(s)
}

// ---------------------------------------------------------------------
// Host-to-device payloads
// ---------------------------------------------------------------------

/// Wire size of the continuous-streaming toggle payload.
pub const PMD_CONT_TX_BYTE_NUM: usize = 3;

/// On-wire toggle for continuous streaming: an enable flag, a
/// timestamp-size selector, and a channel bitmask.
#[derive(Debug, Clone, Copy, PartialEq, Eq)]
pub struct ContTxStruct {
    pub enable: u8,
    pub timestamp_bytes: u8,
    pub adc_channels: u8,
}

/// Wire encoding of the streaming toggle.
pub open spec fn spec_encode_cont_tx(c: ContTxStruct) -> Seq<u8> {
    seq![c.enable, c.timestamp_bytes, c.adc_channels]
}

/// Encodes the streaming toggle payload.
pub fn encode_cont_tx(c: &ContTxStruct) -> (r: Vec<u8>)
    ensures
        r@ == spec_encode_cont_tx(*c),
{
    let mut out: Vec<u8> = Vec::new();
    out.push(c.enable);
    out.push(c.timestamp_bytes);
    out.push(c.adc_channels);
    proof {
        assert(out@ =~= spec_encode_cont_tx(*c));
    }
    out
}

/// Wire size of the transport renegotiation payload.
pub const PMD_UART_CONFIG_BYTE_NUM: usize = 16;

/// On-wire request to change the transport speed: four 32-bit words
/// for baud rate, parity, data width and stop bits.
#[derive(Debug, Clone, Copy, PartialEq, Eq)]
pub struct UartConfigStruct {
    pub baud_rate: u32,
    pub parity: u32,
    pub data_width: u32,
    pub stop_bits: u32,
}

/// Wire encoding of the renegotiation request: byte `i` belongs to
/// word `i / 4`, little-endian within each word.
pub open spec fn spec_encode_uart_config(c: UartConfigStruct) -> Seq<u8> {
    Seq::new(
        16,
        |i: int|
            if i < 4 {
                spec_u32_byte(c.baud_rate, i)
            } else if i < 8 {
                spec_u32_byte(c.parity, i - 4)
            } else if i < 12 {
                spec_u32_byte(c.data_width, i - 8)
            } else {
                spec_u32_byte(c.stop_bits, i - 12)
            },
    )
}

/// Encodes the renegotiation payload.
pub fn encode_uart_config(c: &UartConfigStruct) -> (r: Vec<u8>)
    ensures
        r@ == spec_encode_uart_config(*c),
{
    let mut out: Vec<u8> = Vec::new();
    let words = [c.baud_rate, c.parity, c.data_width, c.stop_bits];
    let mut w: usize = 0;
    while w < 4
        invariant
            w <= 4,
            out@.len() == 4 * w,
            words@.len() == 4,
            words@[0] == c.baud_rate,
            words@[1] == c.parity,
            words@[2] == c.data_width,
            words@[3] == c.stop_bits,
            forall|j: int|
                0 <= j < 4 * w ==> out@[j] == spec_u32_byte(words@[j / 4], j % 4),
        decreases 4 - w,
    {
        let b = u32_to_le(words[w]);
        out.push(b[0]);
        out.push(b[1]);
        out.push(b[2]);
        out.push(b[3]);
        w += 1;
    }
    proof {
        assert(out@ =~= spec_encode_uart_config(*c));
    }
    out
}

} // verus!
