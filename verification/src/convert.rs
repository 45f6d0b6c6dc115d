//! Value converter: raw sensor and ADC codes to physical units.
//!
//! All conversions are exact in integer micro-units. The device's scale
//! factors are whole numbers of microvolts and microamps per least
//! significant bit, so a converted value is an integer count of
//! microvolts (even channel index) or microamps (odd channel index),
//! with no rounding anywhere. A consumer that wants volts or amps
//! divides by one million at the display edge.
//!
//! Timestamps come in two incomparable kinds, kept as two distinct
//! types: the host wall clock stamps slow-poll samples, while streamed
//! samples carry a device-relative clock that starts with streaming and
//! runs at a fixed three megahertz. Neither is ever converted into the
//! other.

use vstd::prelude::*;

use crate::AdcBuffer;
use crate::SensorBuffer;
use crate::codec::spec_i16_from_adc;
use crate::codec::i16_from_adc;

verus! {

/// Microvolts per least significant bit of a pre-scaled sensor voltage
/// code: one hundredth of a volt.
pub const PMD_SENSOR_VOLTAGE_SCALE_MICRO: i64 = 10_000;

/// Microamps per least significant bit of a pre-scaled sensor current
/// code: one tenth of an amp.
pub const PMD_SENSOR_CURRENT_SCALE_MICRO: i64 = 100_000;

/// Microvolts per least significant bit of a sign-extended ADC voltage
/// reading.
pub const PMD_ADC_VOLTAGE_SCALE_MICRO: i64 = 7_568;

/// Microamps per least significant bit of a sign-extended ADC current
/// reading.
pub const PMD_ADC_CURRENT_SCALE_MICRO: i64 = 48_800;

/// Device clock ticks per microsecond.
pub const PMD_CLOCK_TICKS_PER_MICRO: u32 = 3;

/// One converted eight-channel sample: micro-units, even index =
/// microvolts, odd index = microamps, same parity convention as the
/// raw frames.
pub type SensorValues = [i64; 8];

/// A host wall-clock timestamp in microseconds since the Unix epoch.
/// Stamped onto slow-poll samples; not comparable to the device clock.
#[derive(Debug, Clone, Copy, PartialEq, Eq)]
pub struct HostTimestampMicros {
    pub micros: u128,
}

/// A device-relative timestamp in microseconds since streaming start.
/// Carried by streamed samples; not comparable across sessions nor to
/// the host wall clock.
#[derive(Debug, Clone, Copy, PartialEq, Eq)]
pub struct DeviceTimestampMicros {
    pub micros: u128,
}

/// Micro-unit scale of sensor channel `i`: microvolts per bit on even
/// (voltage) channels, microamps per bit on odd (current) channels.
pub open spec fn spec_sensor_scale_micro(i: int) -> int {
    if i % 2 == 0 {
        10_000
    } else {
        100_000
    }
}

/// Micro-unit scale of ADC channel `i`, with the same parity
/// convention.
pub open spec fn spec_adc_scale_micro(i: int) -> int {
    if i % 2 == 0 {
        7_568
    } else {
        48_800
    }
}

/// The exact converted value of sensor channel `i`: the raw pre-scaled
/// code times the channel's scale, no offset (the onboard sensor path
/// is calibrated in firmware).
pub open spec fn spec_sensor_unit_micro(code: u16, i: int) -> int {
    code * spec_sensor_scale_micro(i)
}

/// The exact converted value of ADC channel `i`: the sign-extended
/// reading, plus the channel's calibration offset, times the channel's
/// scale. The offset is applied before scaling.
pub open spec fn spec_adc_unit_micro(code: u16, offset: i8, i: int) -> int {
    (spec_i16_from_adc(code) + offset) * spec_adc_scale_micro(i)
}

/// Converts a pre-scaled sensor frame to micro-units.
pub fn convert_sensor_frame(frame: &SensorBuffer) -> (r: SensorValues)
    ensures
        forall|i: int| 0 <= i < 8 ==> r@[i] == spec_sensor_unit_micro(frame@[i], i),
{
    let mut r = [0i64; 8];
    let mut i: usize = 0;
    while i < 8
        invariant
            i <= 8,
            forall|j: int| 0 <= j < i ==> r@[j] == spec_sensor_unit_micro(frame@[j], j),
        decreases 8 - i,
    {
        if i % 2 == 0 {
            r[i] = (frame[i] as i64) * PMD_SENSOR_VOLTAGE_SCALE_MICRO;
        } else {
            r[i] = (frame[i] as i64) * PMD_SENSOR_CURRENT_SCALE_MICRO;
        }
        i += 1;
    }
    r
}

/// Converts a raw ADC frame to micro-units with the per-channel
/// calibration offsets of the session's configuration.
pub fn convert_adc_frame(frame: &AdcBuffer, offsets: &[i8; 8]) -> (r: SensorValues)
    ensures
        forall|i: int| 0 <= i < 8 ==> r@[i] == spec_adc_unit_micro(frame@[i], offsets@[i], i),
{
    let mut r = [0i64; 8];
    let mut i: usize = 0;
    while i < 8
        invariant
            i <= 8,
            forall|j: int| 0 <= j < i ==> r@[j] == spec_adc_unit_micro(frame@[j], offsets@[j], j),
        decreases 8 - i,
    {
        let reading = i16_from_adc(frame[i]);
        let adjusted = (reading as i64) + (offsets[i] as i64);
        if i % 2 == 0 {
            r[i] = adjusted * PMD_ADC_VOLTAGE_SCALE_MICRO;
        } else {
            r[i] = adjusted * PMD_ADC_CURRENT_SCALE_MICRO;
        }
        i += 1;
    }
    r
}

/// Scales one onboard sensor rail reading to micro-units: the voltage
/// code in microvolts, the current code in microamps, and the power
/// code in microwatts (the power code is already whole watts).
pub fn convert_reading_micro(voltage: u16, current: u16, power: u16) -> (r: (i64, i64, i64))
    ensures
        r.0 == voltage * 10_000,
        r.1 == current * 100_000,
        r.2 == power * 1_000_000,
{
    (
        (voltage as i64) * PMD_SENSOR_VOLTAGE_SCALE_MICRO,
        (current as i64) * PMD_SENSOR_CURRENT_SCALE_MICRO,
        (power as i64) * 1_000_000,
    )
}

/// Scales a device-clock timestamp (three megahertz) to microseconds
/// relative to streaming start, truncating toward zero.
pub fn adjust_device_timestamp(timestamp: u32) -> (r: u128)
    ensures
        r == timestamp as int / 3,
{
    (timestamp / PMD_CLOCK_TICKS_PER_MICRO) as u128
}

/// The sensor conversion is linear and scale-only: a zero code
/// converts to exactly zero, and doubling a raw code doubles the
/// converted value.
pub proof fn lemma_sensor_conversion_linear(code: u16, i: int)
    requires
        2 * code <= u16::MAX,
    ensures
        spec_sensor_unit_micro(0, i) == 0,
        spec_sensor_unit_micro((2 * code) as u16, i) == 2 * spec_sensor_unit_micro(code, i),
{
}

/// With a calibration offset of zero the ADC conversion is exactly the
/// sign-extend transform scaled by the fixed per-channel factor; a
/// nonzero offset is added to the reading before scaling, so it shifts
/// the result by the offset times the scale.
pub proof fn lemma_adc_conversion_offset(code: u16, offset: i8, i: int)
    ensures
        spec_adc_unit_micro(code, 0, i) == spec_i16_from_adc(code) * spec_adc_scale_micro(i),
        spec_adc_unit_micro(code, offset, i) == spec_adc_unit_micro(code, 0, i) + offset
            * spec_adc_scale_micro(i),
{
    let reading = spec_i16_from_adc(code) as int;
    let scale = spec_adc_scale_micro(i);
    assert((reading + offset) * scale == reading * scale + offset * scale) by (nonlinear_arith);
}

} // verus!
