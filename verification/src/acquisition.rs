//! Acquisition loop decisions: strategy selection, interval pacing,
//! and the per-iteration step that turns a transport outcome into a
//! converted sample.
//!
//! The loop itself lives with the application, which performs the
//! blocking reads, sleeps and clock queries. Everything the loop
//! decides — which strategy a speed level names, how long to sleep to
//! hold the polling interval, what a reply means — is here, as
//! functions from plain values to plain values. A transport outcome is
//! handed in as an `Option`: `None` stands for a failed or timed-out
//! read, which is fatal, since the protocol has no recovery.

use vstd::prelude::*;

use crate::PmdError;
use crate::convert::DeviceTimestampMicros;
use crate::convert::HostTimestampMicros;
use crate::convert::SensorValues;
use crate::convert::convert_adc_frame;
use crate::convert::convert_sensor_frame;
use crate::convert::adjust_device_timestamp;
use crate::convert::spec_adc_unit_micro;
use crate::convert::spec_sensor_unit_micro;
use crate::codec::spec_decode_timed_adc;
use crate::codec::spec_words_le;
use crate::session::PmdUsb;

verus! {

/// Highest speed level the configuration accepts.
pub const SPEED_LEVEL_MAX: u8 = 3;

/// The polling strategy a speed level selects, immutable for the run.
#[derive(Debug, Clone, Copy, PartialEq, Eq, Structural)]
pub enum SpeedLevel {
    /// Level 0: read the sensor snapshot once and stop; no loop.
    OneShot,
    /// Level 1: poll sensor values on a fixed interval, host-stamped.
    Slow,
    /// Level 2: continuous streaming, device-stamped, no sleep.
    Fast,
    /// Level 3: continuous streaming at a raised baud rate.
    Fastest,
}

impl SpeedLevel {
    /// Whether this strategy needs continuous streaming enabled before
    /// the loop and disabled on exit.
    pub fn uses_streaming(&self) -> (r: bool)
        ensures
            r == (*self is Fast || *self is Fastest),
    {
        matches!(self, SpeedLevel::Fast | SpeedLevel::Fastest)
    }

    /// Whether this strategy brackets the run with a baud-rate bump
    /// and restore.
    pub fn uses_bumped_baud(&self) -> (r: bool)
        ensures
            r == (*self is Fastest),
    {
        matches!(self, SpeedLevel::Fastest)
    }
}

/// The strategy a speed level selects, if it names one.
pub open spec fn spec_speed_level(level: u8) -> Option<SpeedLevel> {
    if level == 0 {
        Some(SpeedLevel::OneShot)
    } else if level == 1 {
        Some(SpeedLevel::Slow)
    } else if level == 2 {
        Some(SpeedLevel::Fast)
    } else if level == 3 {
        Some(SpeedLevel::Fastest)
    } else {
        None
    }
}

/// Maps an operator-given speed level to its strategy. Levels above
/// three are a configuration error, reported before any device I/O.
pub fn select_speed_level(level: u8) -> (r: Result<SpeedLevel, PmdError>)
    ensures
        r is Ok <==> level <= SPEED_LEVEL_MAX,
        r matches Ok(s) ==> Some(s) == spec_speed_level(level),
        r is Err ==> r == Err::<SpeedLevel, PmdError>(PmdError::ConfigurationError),
{
    match level {
        0 => Ok(SpeedLevel::OneShot),
        1 => Ok(SpeedLevel::Slow),
        2 => Ok(SpeedLevel::Fast),
        3 => Ok(SpeedLevel::Fastest),
        _ => Err(PmdError::ConfigurationError),
    }
}

/// The sleep that holds the nominal polling interval: the configured
/// interval minus the time the iteration already spent, clamped at
/// zero so an overrun never inverts the sleep.
pub fn pacing_sleep_micros(interval_micros: u64, elapsed_micros: u64) -> (r: u64)
    ensures
        elapsed_micros < interval_micros ==> r == interval_micros - elapsed_micros,
        elapsed_micros >= interval_micros ==> r == 0,
        r <= interval_micros,
{
    if interval_micros > elapsed_micros {
        interval_micros - elapsed_micros
    } else {
        0
    }
}

/// One slow-poll sample: host wall-clock stamp and converted values.
#[derive(Debug, Clone, Copy, PartialEq, Eq)]
pub struct SlowSample {
    pub timestamp: HostTimestampMicros,
    pub values: SensorValues,
}

/// One streamed sample: device-relative stamp and converted values.
#[derive(Debug, Clone, Copy, PartialEq, Eq)]
pub struct StreamSample {
    pub timestamp: DeviceTimestampMicros,
    pub values: SensorValues,
}

/// One slow-mode iteration. The application polled sensor values and
/// hands in the outcome (`None` for a failed or timed-out read), the
/// host clock reading, and how long the exchange took; back come the
/// host-stamped converted sample and the sleep that holds the
/// interval. A failed read is a fatal transport error; a reply of the
/// wrong size is a layout error; nothing else fails.
pub fn slow_poll_step(
    session: &PmdUsb,
    reply: &Option<Vec<u8>>,
    host_micros: u128,
    interval_micros: u64,
    elapsed_micros: u64,
) -> (r: Result<(SlowSample, u64), PmdError>)
    requires
        session.wf(),
        session.state is Ready || session.state is Polling,
    ensures
        r is Ok <==> (reply matches Some(b) && b@.len() == 16),
        reply is None ==> r == Err::<(SlowSample, u64), PmdError>(PmdError::TransportError),
        (reply matches Some(b) && b@.len() != 16) ==> r == Err::<(SlowSample, u64), PmdError>(
            PmdError::LayoutError,
        ),
        r matches Ok(s) ==> {
            &&& s.0.timestamp.micros == host_micros
            &&& forall|i: int|
                0 <= i < 8 ==> s.0.values@[i] == spec_sensor_unit_micro(
                    spec_words_le(reply->Some_0@)[i],
                    i,
                )
            &&& s.1 == if elapsed_micros < interval_micros {
                interval_micros - elapsed_micros
            } else {
                0
            }
        },
{
    let bytes = match reply {
        Some(b) => b,
        None => {
            return Err(PmdError::TransportError);
        },
    };
    let frame = match session.read_sensor_values(bytes) {
        Ok(f) => f,
        Err(e) => {
            return Err(e);
        },
    };
    let values = convert_sensor_frame(&frame);
    let sleep = pacing_sleep_micros(interval_micros, elapsed_micros);
    Ok((SlowSample { timestamp: HostTimestampMicros { micros: host_micros }, values }, sleep))
}

/// One streaming-mode iteration. The application read one pushed frame
/// and hands in the outcome (`None` for a failed or timed-out read);
/// back comes the device-stamped converted sample, calibrated with the
/// session's per-channel offsets. A failed read is a fatal transport
/// error; a frame of the wrong size is a layout error; nothing else
/// fails.
pub fn fast_poll_step(session: &PmdUsb, reply: &Option<Vec<u8>>) -> (r: Result<
    StreamSample,
    PmdError,
>)
    requires
        session.wf(),
        session.state is Streaming,
    ensures
        r is Ok <==> (reply matches Some(b) && b@.len() == 20),
        reply is None ==> r == Err::<StreamSample, PmdError>(PmdError::TransportError),
        (reply matches Some(b) && b@.len() != 20) ==> r == Err::<StreamSample, PmdError>(
            PmdError::LayoutError,
        ),
        r matches Ok(s) ==> {
            let frame = spec_decode_timed_adc(reply->Some_0@)->Some_0;
            &&& s.timestamp.micros == frame.timestamp as int / 3
            &&& forall|i: int|
                0 <= i < 8 ==> s.values@[i] == spec_adc_unit_micro(
                    frame.buffer[i],
                    session.config->Some_0@.adc_offset()[i],
                    i,
                )
        },
{
    let bytes = match reply {
        Some(b) => b,
        None => {
            return Err(PmdError::TransportError);
        },
    };
    let timed = match session.read_cont_tx(bytes) {
        Ok(t) => t,
        Err(e) => {
            return Err(e);
        },
    };
    let offsets = session.adc_offsets();
    let values = convert_adc_frame(&timed.buffer, &offsets);
    let micros = adjust_device_timestamp(timed.timestamp);
    Ok(StreamSample { timestamp: DeviceTimestampMicros { micros }, values })
}

} // verus!
