//! Device session: the command/response protocol as a state machine.
//!
//! The session owns no transport. It decides what each protocol step
//! sends and how many bytes the reply must have, and it validates and
//! decodes the reply bytes an application hands back after performing
//! the I/O. The session moves along the linear state machine
//! `Uninitialized -> Identified -> ConfigLoaded -> Ready ->
//! {Polling | Streaming} -> Closed`; every method states from which
//! states it may be called and where it leaves the session.
//!
//! Failure semantics: any validation failure is final for the session.
//! The wire protocol has no resynchronization primitive, so a failed
//! step is never retried; the application aborts the run.

use vstd::prelude::*;

use crate::PmdError;
use crate::PMD_USB_PRODUCT_ID;
use crate::PMD_USB_VENDOR_ID;
use crate::SensorBuffer;
use crate::AdcBuffer;
use crate::codec::ConfigSnapshot;
use crate::codec::ContTxStruct;
use crate::codec::DeviceIdStruct;
use crate::codec::SensorStruct;
use crate::codec::TimedAdcBuffer;
use crate::codec::UartConfigStruct;
use crate::codec::decode_config;
use crate::codec::encode_config;
use crate::codec::spec_encode_config_snapshot;
use crate::convert::SensorValues;
use crate::convert::convert_adc_frame;
use crate::convert::convert_sensor_frame;
use crate::convert::spec_adc_unit_micro;
use crate::convert::spec_sensor_unit_micro;
use crate::codec::decode_device_id;
use crate::codec::decode_sensors;
use crate::codec::decode_timed_adc;
use crate::codec::decode_u16_frame;
use crate::codec::encode_cont_tx;
use crate::codec::encode_uart_config;
use crate::codec::spec_config_wire_size;
use crate::codec::spec_decode_config_snapshot;
use crate::codec::spec_decode_device_id;
use crate::codec::spec_decode_sensors;
use crate::codec::spec_decode_timed_adc;
use crate::codec::spec_encode_cont_tx;
use crate::codec::spec_encode_uart_config;
use crate::codec::spec_words_le;
use crate::codec::PMD_CONFIG_GAIN_FIRMWARE;

verus! {

/// Default transport baud rate, used for request/response exchanges.
pub const BAUDRATE_DEFAULT: u32 = 115_200;

/// Raised baud rate for high-throughput streaming.
pub const BAUDRATE_FASTEST: u32 = 460_800;

/// Flag byte meaning "off" in a configuration payload.
pub const CONFIG_NO: u8 = 0x00;

/// Flag byte meaning "on" in a configuration payload.
pub const CONFIG_YES: u8 = 0x01;

/// Channel bitmask selecting no ADC channel.
pub const CONFIG_MASK_NONE: u8 = 0x00;

/// Channel bitmask selecting all eight ADC channels.
pub const CONFIG_MASK_ALL: u8 = 0xff;

/// Timestamp-size selector for frames without a timestamp.
pub const CONFIG_TIMESTAMP_NONE: u8 = 0x00;

/// Timestamp-size selector for frames with the full 32-bit timestamp.
pub const CONFIG_TIMESTAMP_FULL: u8 = 0x04;

/// Parity word of the renegotiation payload: none.
pub const CONFIG_UART_PARITY_NONE: u32 = 0x2;

/// Data-width word of the renegotiation payload: eight bits.
pub const CONFIG_UART_DATA_WIDTH_EIGHT: u32 = 0x0;

/// Stop-bits word of the renegotiation payload: one stop bit.
pub const CONFIG_UART_STOP_BITS_ONE: u32 = 0x0;

/// Wire size of the welcome reply.
pub const PMD_WELCOME_BYTE_NUM: usize = 17;

/// The commands of the wire protocol, one opcode byte each.
#[derive(Debug, Clone, Copy, PartialEq, Eq)]
pub enum UartCommand {
    Welcome,
    ReadId,
    ReadSensors,
    ReadSensorValues,
    ReadConfig,
    WriteConfig,
    ReadAdcBuffer,
    WriteContTx,
    WriteConfigUart,
    ResetDevice,
    EnterBootloader,
    Nop,
}

impl UartCommand {
    /// The opcode byte sent on the wire for this command.
    pub open spec fn spec_opcode(self) -> u8 {
        match self {
            UartCommand::Welcome => 0x00,
            UartCommand::ReadId => 0x01,
            UartCommand::ReadSensors => 0x02,
            UartCommand::ReadSensorValues => 0x03,
            UartCommand::ReadConfig => 0x04,
            UartCommand::WriteConfig => 0x05,
            UartCommand::ReadAdcBuffer => 0x06,
            UartCommand::WriteContTx => 0x07,
            UartCommand::WriteConfigUart => 0x08,
            UartCommand::ResetDevice => 0xF0,
            UartCommand::EnterBootloader => 0xF1,
            UartCommand::Nop => 0xFF,
        }
    }

    /// Returns the opcode byte sent on the wire for this command.
    pub fn opcode(&self) -> (r: u8)
        ensures
            r == self.spec_opcode(),
    {
        match self {
            UartCommand::Welcome => 0x00,
            UartCommand::ReadId => 0x01,
            UartCommand::ReadSensors => 0x02,
            UartCommand::ReadSensorValues => 0x03,
            UartCommand::ReadConfig => 0x04,
            UartCommand::WriteConfig => 0x05,
            UartCommand::ReadAdcBuffer => 0x06,
            UartCommand::WriteContTx => 0x07,
            UartCommand::WriteConfigUart => 0x08,
            UartCommand::ResetDevice => 0xF0,
            UartCommand::EnterBootloader => 0xF1,
            UartCommand::Nop => 0xFF,
        }
    }
}

/// Where the session stands in its linear lifecycle.
#[derive(Debug, Clone, Copy, PartialEq, Eq, Structural)]
pub enum SessionState {
    /// Bound to a transport, nothing negotiated yet.
    Uninitialized,
    /// The identity reply was validated.
    Identified,
    /// The firmware-shaped configuration was decoded and stored.
    ConfigLoaded,
    /// The welcome handshake succeeded; commands may be issued.
    Ready,
    /// Slow timed polling is under way.
    Polling,
    /// Continuous streaming is enabled on the device.
    Streaming,
    /// The session was torn down; nothing may be issued any more.
    Closed,
}

/// The expected welcome reply: the fixed seventeen-byte ASCII string
/// `ElmorLabs PMD-USB`.
pub open spec fn spec_welcome_response() -> Seq<u8> {
    seq![
        0x45u8, 0x6cu8, 0x6du8, 0x6fu8, 0x72u8, 0x4cu8, 0x61u8, 0x62u8, 0x73u8, 0x20u8, 0x50u8,
        0x4du8, 0x44u8, 0x2du8, 0x55u8, 0x53u8, 0x42u8,
    ]
}

/// Builds the expected welcome reply bytes.
pub fn welcome_response() -> (r: Vec<u8>)
    ensures
        r@ == spec_welcome_response(),
{
    let mut out: Vec<u8> = Vec::new();
    out.push(0x45);
    out.push(0x6c);
    out.push(0x6d);
    out.push(0x6f);
    out.push(0x72);
    out.push(0x4c);
    out.push(0x61);
    out.push(0x62);
    out.push(0x73);
    out.push(0x20);
    out.push(0x50);
    out.push(0x4d);
    out.push(0x44);
    out.push(0x2d);
    out.push(0x55);
    out.push(0x53);
    out.push(0x42);
    proof {
        assert(out@ =~= spec_welcome_response());
    }
    out
}

/// A session with the power-measurement device. Identity, calibration
/// and sensor snapshot are read once during initialization and held
/// read-only for the session's life.
pub struct PmdUsb {
    /// Position in the lifecycle.
    pub state: SessionState,
    /// Identity reply, stored once validated.
    pub device_id: Option<DeviceIdStruct>,
    /// Device-held calibration and behavior configuration.
    pub config: Option<ConfigSnapshot>,
    /// Onboard sensor snapshot read during initialization.
    pub sensors: Option<SensorStruct>,
    /// Baud rate the transport must currently run at.
    pub baud_rate: u32,
    /// Whether the baud rate stands raised and must be restored before
    /// the session may close.
    pub baud_bumped: bool,
}

impl PmdUsb {
    /// The firmware version of the validated identity.
    pub open spec fn firmware(self) -> u8 {
        self.device_id->Some_0.firmware
    }

    /// Lifecycle stages at which the identity is known.
    pub open spec fn identity_known(self) -> bool {
        self.state is Identified || self.state is ConfigLoaded || self.state is Ready
            || self.state is Polling || self.state is Streaming
    }

    /// Lifecycle stages at which the configuration is known.
    pub open spec fn config_known(self) -> bool {
        self.state is ConfigLoaded || self.state is Ready || self.state is Polling
            || self.state is Streaming
    }

    /// Lifecycle stages at which the sensor snapshot is known.
    pub open spec fn sensors_known(self) -> bool {
        self.state is Ready || self.state is Polling || self.state is Streaming
    }

    /// Session invariant. The identity, once stored, carries the fixed
    /// expected vendor and product bytes; the configuration has the
    /// shape of the session's firmware; the baud rate is one of the two
    /// the protocol knows, raised exactly when a bump stands
    /// unrestored, and never raised while uninitialized or closed.
    pub open spec fn wf(self) -> bool {
        &&& self.identity_known() ==> (self.device_id matches Some(d) && d.vendor
            == PMD_USB_VENDOR_ID && d.product == PMD_USB_PRODUCT_ID)
        &&& self.config_known() ==> (self.config matches Some(c) && ((c is Legacy)
            <==> self.firmware() < PMD_CONFIG_GAIN_FIRMWARE))
        &&& self.sensors_known() ==> self.sensors is Some
        &&& self.baud_rate == if self.baud_bumped {
            BAUDRATE_FASTEST
        } else {
            BAUDRATE_DEFAULT
        }
        &&& self.baud_bumped ==> (self.state is Ready || self.state is Streaming)
    }

    /// Opens a session in its initial state, bound to the default baud
    /// rate, with nothing negotiated yet.
    pub fn new() -> (s: Self)
        ensures
            s.wf(),
            s.state is Uninitialized,
            s.device_id is None,
            s.config is None,
            s.sensors is None,
            s.baud_rate == BAUDRATE_DEFAULT,
            !s.baud_bumped,
    {
        PmdUsb {
            state: SessionState::Uninitialized,
            device_id: None,
            config: None,
            sensors: None,
            baud_rate: BAUDRATE_DEFAULT,
            baud_bumped: false,
        }
    }

    /// Validates and stores the identity reply. Succeeds exactly on a
    /// three-byte reply carrying the expected vendor and product
    /// bytes; a wrong-sized reply is a layout error, wrong identity
    /// bytes are a protocol mismatch. On success the session is
    /// identified; on failure it is unchanged.
    pub fn read_device_id(&mut self, reply: &Vec<u8>) -> (r: Result<DeviceIdStruct, PmdError>)
        requires
            old(self).wf(),
            old(self).state is Uninitialized,
        ensures
            final(self).wf(),
            r is Ok <==> (reply@.len() == 3 && reply@[0] == PMD_USB_VENDOR_ID && reply@[1]
                == PMD_USB_PRODUCT_ID),
            r matches Ok(d) ==> {
                &&& Some(d) == spec_decode_device_id(reply@)
                &&& final(self).device_id == Some(d)
                &&& final(self).state is Identified
                &&& final(self).config == old(self).config
                &&& final(self).sensors == old(self).sensors
                &&& final(self).baud_rate == old(self).baud_rate
                &&& final(self).baud_bumped == old(self).baud_bumped
            },
            reply@.len() != 3 ==> r == Err::<DeviceIdStruct, PmdError>(PmdError::LayoutError),
            reply@.len() == 3 && !(reply@[0] == PMD_USB_VENDOR_ID && reply@[1]
                == PMD_USB_PRODUCT_ID) ==> r == Err::<DeviceIdStruct, PmdError>(
                PmdError::ProtocolMismatch,
            ),
            r is Err ==> *final(self) == *old(self),
    {
        let device_id = match decode_device_id(reply) {
            Ok(d) => d,
            Err(e) => {
                return Err(e);
            },
        };
        if device_id.vendor != PMD_USB_VENDOR_ID || device_id.product != PMD_USB_PRODUCT_ID {
            return Err(PmdError::ProtocolMismatch);
        }
        self.device_id = Some(device_id);
        self.state = SessionState::Identified;
        Ok(device_id)
    }

    /// The reply size the configuration read must produce for this
    /// session's firmware.
    pub fn config_reply_len(&self) -> (n: usize)
        requires
            self.device_id is Some,
        ensures
            n == spec_config_wire_size(self.firmware()),
    {
        let firmware = match &self.device_id {
            Some(d) => d.firmware,
            None => 0,
        };
        if firmware < PMD_CONFIG_GAIN_FIRMWARE {
            23
        } else {
            34
        }
    }

    /// Decodes and stores the configuration reply in the shape of the
    /// session's firmware. Succeeds exactly on a reply of that shape's
    /// wire size; anything else is a layout error. On success the
    /// configuration is loaded; on failure the session is unchanged.
    pub fn read_config(&mut self, reply: &Vec<u8>) -> (r: Result<ConfigSnapshot, PmdError>)
        requires
            old(self).wf(),
            old(self).state is Identified,
        ensures
            final(self).wf(),
            r is Ok <==> reply@.len() == spec_config_wire_size(old(self).firmware()),
            r matches Ok(c) ==> {
                &&& Some(c@) == spec_decode_config_snapshot(reply@, old(self).firmware())
                &&& final(self).config == Some(c)
                &&& final(self).state is ConfigLoaded
                &&& final(self).device_id == old(self).device_id
                &&& final(self).sensors == old(self).sensors
                &&& final(self).baud_rate == old(self).baud_rate
                &&& final(self).baud_bumped == old(self).baud_bumped
            },
            r is Err ==> r == Err::<ConfigSnapshot, PmdError>(PmdError::LayoutError)
                && *final(self) == *old(self),
    {
        let firmware = match &self.device_id {
            Some(d) => d.firmware,
            None => 0,
        };
        let config = match decode_config(reply, firmware) {
            Ok(c) => c,
            Err(e) => {
                return Err(e);
            },
        };
        self.config = Some(config);
        self.state = SessionState::ConfigLoaded;
        Ok(config)
    }

    /// Decodes and stores the sensor snapshot reply. Succeeds exactly
    /// on a reply of the snapshot's wire size; anything else is a
    /// layout error. Valid while loading the configuration sequence and
    /// again from the ready and polling states, where it refreshes the
    /// snapshot; the lifecycle stage does not move. On failure the
    /// session is unchanged.
    pub fn read_sensors(&mut self, reply: &Vec<u8>) -> (r: Result<SensorStruct, PmdError>)
        requires
            old(self).wf(),
            old(self).state is ConfigLoaded || old(self).state is Ready || old(
                self,
            ).state is Polling,
        ensures
            final(self).wf(),
            r is Ok <==> reply@.len() == 48,
            r matches Ok(s) ==> {
                &&& Some(s@) == spec_decode_sensors(reply@)
                &&& final(self).sensors == Some(s)
                &&& final(self).state == old(self).state
                &&& final(self).device_id == old(self).device_id
                &&& final(self).config == old(self).config
                &&& final(self).baud_rate == old(self).baud_rate
                &&& final(self).baud_bumped == old(self).baud_bumped
            },
            r is Err ==> r == Err::<SensorStruct, PmdError>(PmdError::LayoutError) && *final(self)
                == *old(self),
    {
        let sensors = match decode_sensors(reply) {
            Ok(s) => s,
            Err(e) => {
                return Err(e);
            },
        };
        self.sensors = Some(sensors);
        Ok(sensors)
    }

    /// Validates the welcome handshake reply. Succeeds exactly when
    /// the reply is the fixed seventeen-byte welcome string; anything
    /// else is a protocol mismatch. On success the session is ready;
    /// on failure it is unchanged.
    pub fn welcome(&mut self, reply: &Vec<u8>) -> (r: Result<(), PmdError>)
        requires
            old(self).wf(),
            old(self).state is ConfigLoaded,
            old(self).sensors is Some,
        ensures
            final(self).wf(),
            r is Ok <==> reply@ == spec_welcome_response(),
            r is Ok ==> {
                &&& final(self).state is Ready
                &&& final(self).device_id == old(self).device_id
                &&& final(self).config == old(self).config
                &&& final(self).sensors == old(self).sensors
                &&& final(self).baud_rate == old(self).baud_rate
                &&& final(self).baud_bumped == old(self).baud_bumped
            },
            r is Err ==> r == Err::<(), PmdError>(PmdError::ProtocolMismatch) && *final(self)
                == *old(self),
    {
        let expected = welcome_response();
        if reply.len() != expected.len() {
            proof {
                assert(reply@ != spec_welcome_response());
            }
            return Err(PmdError::ProtocolMismatch);
        }
        let mut i: usize = 0;
        while i < expected.len()
            invariant
                i <= expected@.len(),
                expected@ == spec_welcome_response(),
                reply@.len() == expected@.len(),
                forall|j: int| 0 <= j < i ==> reply@[j] == expected@[j],
                *self == *old(self),
                old(self).wf(),
            decreases expected@.len() - i,
        {
            if reply[i] != expected[i] {
                proof {
                    assert(reply@ != spec_welcome_response());
                }
                return Err(PmdError::ProtocolMismatch);
            }
            i += 1;
        }
        proof {
            assert(reply@ =~= spec_welcome_response());
        }
        self.state = SessionState::Ready;
        Ok(())
    }

    /// Decodes one polled sensor-value frame: eight pre-scaled 16-bit
    /// codes. Succeeds exactly on a reply of the frame's wire size.
    pub fn read_sensor_values(&self, reply: &Vec<u8>) -> (r: Result<SensorBuffer, PmdError>)
        requires
            self.wf(),
            self.state is Ready || self.state is Polling,
        ensures
            r is Ok <==> reply@.len() == 16,
            r matches Ok(a) ==> a@ == spec_words_le(reply@),
            r is Err ==> r == Err::<SensorBuffer, PmdError>(PmdError::LayoutError),
    {
        decode_u16_frame(reply)
    }

    /// Decodes one polled ADC frame: eight raw 16-bit codes. Succeeds
    /// exactly on a reply of the frame's wire size.
    pub fn read_adc_buffer(&self, reply: &Vec<u8>) -> (r: Result<AdcBuffer, PmdError>)
        requires
            self.wf(),
            self.state is Ready || self.state is Polling,
        ensures
            r is Ok <==> reply@.len() == 16,
            r matches Ok(a) ==> a@ == spec_words_le(reply@),
            r is Err ==> r == Err::<AdcBuffer, PmdError>(PmdError::LayoutError),
    {
        decode_u16_frame(reply)
    }

    /// Decodes one streamed frame: the device pushes these on its own
    /// while streaming, no command is sent per frame. Succeeds exactly
    /// on a reply of the timed frame's wire size.
    pub fn read_cont_tx(&self, reply: &Vec<u8>) -> (r: Result<TimedAdcBuffer, PmdError>)
        requires
            self.wf(),
            self.state is Streaming,
        ensures
            r is Ok <==> reply@.len() == 20,
            r matches Ok(t) ==> Some(t@) == spec_decode_timed_adc(reply@),
            r is Err ==> r == Err::<TimedAdcBuffer, PmdError>(PmdError::LayoutError),
    {
        decode_timed_adc(reply)
    }

    /// Encodes a streaming-toggle payload for the application to send
    /// after the write-continuous-transmission opcode. The device
    /// needs a settle interval after this write before its behavior
    /// change takes effect; the application waits it out.
    pub fn write_config_cont_tx(&self, config: &ContTxStruct) -> (payload: Vec<u8>)
        ensures
            payload@ == spec_encode_cont_tx(*config),
    {
        encode_cont_tx(config)
    }

    /// The streaming-toggle value that enables continuous streaming:
    /// full timestamps, all eight channels.
    pub open spec fn spec_cont_tx_enable() -> ContTxStruct {
        ContTxStruct {
            enable: CONFIG_YES,
            timestamp_bytes: CONFIG_TIMESTAMP_FULL,
            adc_channels: CONFIG_MASK_ALL,
        }
    }

    /// The streaming-toggle value that disables continuous streaming.
    pub open spec fn spec_cont_tx_disable() -> ContTxStruct {
        ContTxStruct {
            enable: CONFIG_NO,
            timestamp_bytes: CONFIG_TIMESTAMP_FULL,
            adc_channels: CONFIG_MASK_ALL,
        }
    }

    /// Starts continuous streaming: yields the toggle payload that
    /// enables full-timestamp frames on all channels, and moves the
    /// session to streaming. The application sends the payload and
    /// waits the settle interval before reading the first frame.
    pub fn enable_cont_tx(&mut self) -> (payload: Vec<u8>)
        requires
            old(self).wf(),
            old(self).state is Ready,
        ensures
            final(self).wf(),
            payload@ == spec_encode_cont_tx(Self::spec_cont_tx_enable()),
            final(self).state is Streaming,
            final(self).device_id == old(self).device_id,
            final(self).config == old(self).config,
            final(self).sensors == old(self).sensors,
            final(self).baud_rate == old(self).baud_rate,
            final(self).baud_bumped == old(self).baud_bumped,
    {
        let config = ContTxStruct {
            enable: CONFIG_YES,
            timestamp_bytes: CONFIG_TIMESTAMP_FULL,
            adc_channels: CONFIG_MASK_ALL,
        };
        let payload = self.write_config_cont_tx(&config);
        self.state = SessionState::Streaming;
        payload
    }

    /// Stops continuous streaming, or clears any streaming left
    /// enabled by a prior crashed session: yields the toggle payload
    /// that disables streaming. A streaming session returns to ready;
    /// any other state is unchanged, since the write is only a
    /// precaution there. The application sends the payload, waits the
    /// settle interval, and drains frames still in flight.
    pub fn disable_cont_tx(&mut self) -> (payload: Vec<u8>)
        requires
            old(self).wf(),
            !(old(self).state is Closed),
        ensures
            final(self).wf(),
            payload@ == spec_encode_cont_tx(Self::spec_cont_tx_disable()),
            final(self).state == if old(self).state is Streaming {
                SessionState::Ready
            } else {
                old(self).state
            },
            final(self).device_id == old(self).device_id,
            final(self).config == old(self).config,
            final(self).sensors == old(self).sensors,
            final(self).baud_rate == old(self).baud_rate,
            final(self).baud_bumped == old(self).baud_bumped,
    {
        let config = ContTxStruct {
            enable: CONFIG_NO,
            timestamp_bytes: CONFIG_TIMESTAMP_FULL,
            adc_channels: CONFIG_MASK_ALL,
        };
        let payload = self.write_config_cont_tx(&config);
        if matches!(self.state, SessionState::Streaming) {
            self.state = SessionState::Ready;
        }
        payload
    }

    /// The renegotiation request asking the device to run at the given
    /// baud rate with the protocol's fixed 8-N-1 framing.
    pub open spec fn spec_uart_request(baud_rate: u32) -> UartConfigStruct {
        UartConfigStruct {
            baud_rate,
            parity: CONFIG_UART_PARITY_NONE,
            data_width: CONFIG_UART_DATA_WIDTH_EIGHT,
            stop_bits: CONFIG_UART_STOP_BITS_ONE,
        }
    }

    /// Raises the transport speed for streaming: yields the
    /// renegotiation payload for the fast baud rate and records that
    /// the bump must be paired with a restore before the session may
    /// close. Only valid from ready, never while streaming. The
    /// application sends the payload, waits the settle interval, then
    /// switches its own transport to the session's baud rate and
    /// clears stale bytes.
    pub fn bump_baud_rate(&mut self) -> (payload: Vec<u8>)
        requires
            old(self).wf(),
            old(self).state is Ready,
            !old(self).baud_bumped,
        ensures
            final(self).wf(),
            payload@ == spec_encode_uart_config(Self::spec_uart_request(BAUDRATE_FASTEST)),
            final(self).baud_rate == BAUDRATE_FASTEST,
            final(self).baud_bumped,
            final(self).state == old(self).state,
            final(self).device_id == old(self).device_id,
            final(self).config == old(self).config,
            final(self).sensors == old(self).sensors,
    {
        let request = UartConfigStruct {
            baud_rate: BAUDRATE_FASTEST,
            parity: CONFIG_UART_PARITY_NONE,
            data_width: CONFIG_UART_DATA_WIDTH_EIGHT,
            stop_bits: CONFIG_UART_STOP_BITS_ONE,
        };
        self.baud_rate = BAUDRATE_FASTEST;
        self.baud_bumped = true;
        encode_uart_config(&request)
    }

    /// Restores the default transport speed, pairing an earlier bump:
    /// yields the renegotiation payload for the default baud rate.
    /// Only valid from ready with a bump outstanding. The application
    /// proceeds as for the bump.
    pub fn restore_baud_rate(&mut self) -> (payload: Vec<u8>)
        requires
            old(self).wf(),
            old(self).state is Ready,
            old(self).baud_bumped,
        ensures
            final(self).wf(),
            payload@ == spec_encode_uart_config(Self::spec_uart_request(BAUDRATE_DEFAULT)),
            final(self).baud_rate == BAUDRATE_DEFAULT,
            !final(self).baud_bumped,
            final(self).state == old(self).state,
            final(self).device_id == old(self).device_id,
            final(self).config == old(self).config,
            final(self).sensors == old(self).sensors,
    {
        let request = UartConfigStruct {
            baud_rate: BAUDRATE_DEFAULT,
            parity: CONFIG_UART_PARITY_NONE,
            data_width: CONFIG_UART_DATA_WIDTH_EIGHT,
            stop_bits: CONFIG_UART_STOP_BITS_ONE,
        };
        self.baud_rate = BAUDRATE_DEFAULT;
        self.baud_bumped = false;
        encode_uart_config(&request)
    }

    /// Enters the slow timed-polling stage.
    pub fn begin_polling(&mut self)
        requires
            old(self).wf(),
            old(self).state is Ready,
            !old(self).baud_bumped,
        ensures
            final(self).wf(),
            final(self).state is Polling,
            final(self).device_id == old(self).device_id,
            final(self).config == old(self).config,
            final(self).sensors == old(self).sensors,
            final(self).baud_rate == old(self).baud_rate,
            final(self).baud_bumped == old(self).baud_bumped,
    {
        self.state = SessionState::Polling;
    }

    /// Leaves the slow timed-polling stage.
    pub fn end_polling(&mut self)
        requires
            old(self).wf(),
            old(self).state is Polling,
        ensures
            final(self).wf(),
            final(self).state is Ready,
            final(self).device_id == old(self).device_id,
            final(self).config == old(self).config,
            final(self).sensors == old(self).sensors,
            final(self).baud_rate == old(self).baud_rate,
            final(self).baud_bumped == old(self).baud_bumped,
    {
        self.state = SessionState::Ready;
    }

    /// Closes the session. Streaming must be disabled and any baud
    /// bump restored first, so the device is left at its default baud
    /// rate for the next session.
    pub fn close(&mut self)
        requires
            old(self).wf(),
            old(self).state is Ready || old(self).state is Uninitialized,
            !old(self).baud_bumped,
        ensures
            final(self).wf(),
            final(self).state is Closed,
            final(self).baud_rate == BAUDRATE_DEFAULT,
    {
        self.state = SessionState::Closed;
    }

    /// Converts one polled sensor frame to micro-units. The onboard
    /// sensor path is pre-calibrated in firmware, so no offset is
    /// applied.
    pub fn convert_sensor_values(&self, sensor_values: &SensorBuffer) -> (r: SensorValues)
        ensures
            forall|i: int|
                0 <= i < 8 ==> r@[i] == spec_sensor_unit_micro(sensor_values@[i], i),
    {
        convert_sensor_frame(sensor_values)
    }

    /// Converts one raw ADC frame to micro-units, applying the loaded
    /// configuration's per-channel calibration offsets before scaling.
    pub fn convert_adc_values(&self, adc_values: &AdcBuffer) -> (r: SensorValues)
        requires
            self.wf(),
            self.config is Some,
        ensures
            forall|i: int|
                0 <= i < 8 ==> r@[i] == spec_adc_unit_micro(
                    adc_values@[i],
                    self.config->Some_0@.adc_offset()[i],
                    i,
                ),
    {
        let offsets = self.adc_offsets();
        convert_adc_frame(adc_values, &offsets)
    }

    /// Encodes the loaded configuration as the payload of a
    /// configuration write, in the shape of the session's firmware.
    /// The application sends it after the write-configuration opcode.
    pub fn write_config(&self) -> (payload: Vec<u8>)
        requires
            self.wf(),
            self.config is Some,
        ensures
            payload@ == spec_encode_config_snapshot(self.config->Some_0@),
    {
        match &self.config {
            Some(c) => encode_config(c),
            None => Vec::new(),
        }
    }

    /// The per-channel calibration offsets of the loaded
    /// configuration, present in both firmware shapes.
    pub fn adc_offsets(&self) -> (r: [i8; 8])
        requires
            self.wf(),
            self.config is Some,
        ensures
            r@ == self.config->Some_0@.adc_offset(),
    {
        match &self.config {
            Some(ConfigSnapshot::Legacy(c)) => c.adc_offset,
            Some(ConfigSnapshot::Gain(c)) => c.adc_offset,
            None => [0i8; 8],
        }
    }
}

} // verus!
