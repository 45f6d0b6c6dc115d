//! Protocol and conversion library for the ElmorLabs PMD-USB power
//! measurement device.
//!
//! The library holds everything about the device that can be stated and
//! proved without touching a serial port: the wire codec for the fixed
//! binary layouts, the conversion of raw ADC and sensor codes to exact
//! integer micro-units, the session state machine that sequences the
//! command/response protocol, and the acquisition-loop decisions
//! (speed-level selection, interval pacing). An application drives the
//! actual transport and feeds reply bytes back into the session.

use vstd::prelude::*;

pub mod acquisition;
pub mod codec;
pub mod convert;
pub mod session;

verus! {

/// Number of ADC channels on the device.
pub const PMD_ADC_CH_NUM: usize = 8;

/// Number of onboard sensor rails.
pub const PMD_SENSOR_NUM: usize = 4;

/// Number of sensor channels: a voltage and a current code per rail.
pub const PMD_SENSOR_CH_NUM: usize = 8;

/// Length of the fixed-width padded rail name in a sensor reading.
pub const PMD_SENSOR_NAME_LEN: usize = 6;

/// Vendor byte the device must report, or the session is invalid.
pub const PMD_USB_VENDOR_ID: u8 = 0xEE;

/// Product byte the device must report, or the session is invalid.
pub const PMD_USB_PRODUCT_ID: u8 = 0x0A;

/// One raw ADC frame: eight 16-bit codes, even index = voltage,
/// odd index = current.
pub type AdcBuffer = [u16; 8];

/// One polled sensor frame: eight 16-bit codes with the same parity
/// convention as [`AdcBuffer`].
pub type SensorBuffer = [u16; 8];

/// Errors of the protocol and acquisition layer.
///
/// Every transport failure is fatal for the session: the wire protocol
/// has no resynchronization primitive, so nothing here is retried.
#[derive(Debug, Clone, Copy, PartialEq, Eq)]
pub enum PmdError {
    /// A transport write, read or flush failed or timed out.
    TransportError,
    /// The device answered with an unexpected identity or welcome
    /// reply: a firmware or version incompatibility.
    ProtocolMismatch,
    /// A configuration value (speed level, port) was rejected before
    /// any device I/O took place.
    ConfigurationError,
    /// A decoder was handed a buffer whose size does not match the
    /// structure's fixed layout: a programming invariant violation,
    /// never expected at runtime when the protocol matches.
    LayoutError,
}

} // verus!
