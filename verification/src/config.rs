//! The declarative radio configuration and the pipe identities.

use vstd::prelude::*;

use crate::registers::{CRCO, EN_CRC, FEATURE_EN_DPL, DYNPD_ALL, MAX_CHANNEL, MAX_PAYLOAD_SIZE,
    PRIM_RX, PWR_UP};

verus! {

/// One of the three fixed over-the-air data rates.
#[derive(Debug, Clone, Copy, PartialEq, Eq, Structural)]
pub enum DataRate {
    /// 250 kilobits per second.
    R250Kbps,
    /// 1 megabit per second.
    R1Mbps,
    /// 2 megabits per second.
    R2Mbps,
}

impl DataRate {
    /// The rate bits of the RF_SETUP register.
    pub open spec fn spec_bits(self) -> u8 {
        match self {
            DataRate::R250Kbps => 0x20,
            DataRate::R1Mbps => 0x00,
            DataRate::R2Mbps => 0x08,
        }
    }

    /// The rate bits of the RF_SETUP register.
    pub fn bits(self) -> (r: u8)
        ensures
            r == self.spec_bits(),
    {
        match self {
            DataRate::R250Kbps => 0x20,
            DataRate::R1Mbps => 0x00,
            DataRate::R2Mbps => 0x08,
        }
    }
}

/// One of the four transmit power levels.
#[derive(Debug, Clone, Copy, PartialEq, Eq, Structural)]
pub enum PALevel {
    /// -18 dBm.
    Min,
    /// -12 dBm.
    Low,
    /// -6 dBm.
    High,
    /// 0 dBm.
    Max,
}

impl PALevel {
    /// The power bits of the RF_SETUP register.
    pub open spec fn spec_bits(self) -> u8 {
        match self {
            PALevel::Min => 0x00,
            PALevel::Low => 0x02,
            PALevel::High => 0x04,
            PALevel::Max => 0x06,
        }
    }

    /// The power bits of the RF_SETUP register.
    pub fn bits(self) -> (r: u8)
        ensures
            r == self.spec_bits(),
    {
        match self {
            PALevel::Min => 0x00,
            PALevel::Low => 0x02,
            PALevel::High => 0x04,
            PALevel::Max => 0x06,
        }
    }
}

/// The cyclic-redundancy-check scheme, when enabled.
#[derive(Debug, Clone, Copy, PartialEq, Eq, Structural)]
pub enum EncodingScheme {
    /// One CRC byte per packet.
    R1Byte,
    /// Two CRC bytes per packet.
    R2Bytes,
}

/// How payload lengths are communicated: a fixed per-pipe length, or
/// per-packet dynamic lengths.
#[derive(Debug, Clone, Copy, PartialEq, Eq, Structural)]
pub enum PayloadSize {
    /// Every packet carries exactly this many bytes, 1 to 32.
    Fixed(u8),
    /// Each packet announces its own length.
    Dynamic,
}

/// One of the six logical receive addresses.
#[derive(Debug, Clone, Copy, PartialEq, Eq, Structural)]
pub enum DataPipe {
    /// Pipe 0, which also receives the acknowledgement after a transmit.
    DP0,
    /// Pipe 1, whose leading address bytes pipes 2 to 5 share.
    DP1,
    /// Pipe 2.
    DP2,
    /// Pipe 3.
    DP3,
    /// Pipe 4.
    DP4,
    /// Pipe 5.
    DP5,
}

impl DataPipe {
    /// The pipe's slot number, 0 to 5.
    pub open spec fn spec_index(self) -> u8 {
        match self {
            DataPipe::DP0 => 0,
            DataPipe::DP1 => 1,
            DataPipe::DP2 => 2,
            DataPipe::DP3 => 3,
            DataPipe::DP4 => 4,
            DataPipe::DP5 => 5,
        }
    }

    /// The pipe's slot number, 0 to 5.
    pub fn index(self) -> (r: u8)
        ensures
            r == self.spec_index(),
    {
        match self {
            DataPipe::DP0 => 0,
            DataPipe::DP1 => 1,
            DataPipe::DP2 => 2,
            DataPipe::DP3 => 3,
            DataPipe::DP4 => 4,
            DataPipe::DP5 => 5,
        }
    }

    /// The pipe of a slot number.
    pub open spec fn spec_from_index(i: u8) -> DataPipe {
        if i == 0 {
            DataPipe::DP0
        } else if i == 1 {
            DataPipe::DP1
        } else if i == 2 {
            DataPipe::DP2
        } else if i == 3 {
            DataPipe::DP3
        } else if i == 4 {
            DataPipe::DP4
        } else {
            DataPipe::DP5
        }
    }

    /// The pipe of a slot number.
    pub fn from_index(i: u8) -> (r: DataPipe)
        requires
            i <= 5,
        ensures
            r == DataPipe::spec_from_index(i),
    {
        if i == 0 {
            DataPipe::DP0
        } else if i == 1 {
            DataPipe::DP1
        } else if i == 2 {
            DataPipe::DP2
        } else if i == 3 {
            DataPipe::DP3
        } else if i == 4 {
            DataPipe::DP4
        } else {
            DataPipe::DP5
        }
    }
}

/// The CONFIG-register bits of a CRC scheme.
pub open spec fn spec_crc_bits(crc: Option<EncodingScheme>) -> u8 {
    match crc {
        None => 0x00,
        Some(EncodingScheme::R1Byte) => EN_CRC,
        Some(EncodingScheme::R2Bytes) => EN_CRC | CRCO,
    }
}

/// The CONFIG-register bits of a CRC scheme.
pub fn crc_bits(crc: Option<EncodingScheme>) -> (r: u8)
    ensures
        r == spec_crc_bits(crc),
{
    match crc {
        None => 0x00,
        Some(EncodingScheme::R1Byte) => EN_CRC,
        Some(EncodingScheme::R2Bytes) => EN_CRC | CRCO,
    }
}

/// A validated radio configuration, immutable once applied.
#[derive(Debug, Clone, Copy)]
pub struct NrfConfig {
    /// Radio-frequency channel, 0 to 125.
    pub channel: u8,
    /// Address width in bytes, 3 to 5.
    pub addr_width: u8,
    /// Fixed or dynamic payload lengths.
    pub payload_size: PayloadSize,
    /// Over-the-air data rate.
    pub data_rate: DataRate,
    /// Transmit power level.
    pub pa_level: PALevel,
    /// CRC scheme, or none to disable the check.
    pub crc: Option<EncodingScheme>,
}

impl NrfConfig {
    /// A configuration the driver can apply.
    pub open spec fn wf(self) -> bool {
        &&& self.channel <= MAX_CHANNEL
        &&& 3 <= self.addr_width <= 5
        &&& (self.payload_size matches PayloadSize::Fixed(n) ==> 1 <= n <= MAX_PAYLOAD_SIZE)
    }

    /// Whether payload lengths are dynamic.
    pub open spec fn spec_is_dynamic(self) -> bool {
        self.payload_size is Dynamic
    }

    /// Whether payload lengths are dynamic.
    pub fn is_dynamic(&self) -> (r: bool)
        ensures
            r == self.spec_is_dynamic(),
    {
        match self.payload_size {
            PayloadSize::Dynamic => true,
            PayloadSize::Fixed(u) => false,
        }
    }

    /// Set the channel, saturating at the largest valid one.
    pub fn channel(self, ch: u8) -> (r: Self)
        ensures
            r == (Self { channel: if ch > MAX_CHANNEL { MAX_CHANNEL } else { ch }, ..self }),
    {
        Self { channel: if ch > MAX_CHANNEL { MAX_CHANNEL } else { ch }, ..self }
    }

    /// Set the address width, clamped into 3 to 5 bytes.
    pub fn addr_width(self, w: u8) -> (r: Self)
        ensures
            r == (Self { addr_width: if w < 3 { 3 } else if w > 5 { 5 } else { w }, ..self }),
    {
        Self { addr_width: if w < 3 { 3 } else if w > 5 { 5 } else { w }, ..self }
    }

    /// Set the payload mode; a fixed length is clamped into 1 to 32 bytes.
    pub fn payload_size(self, p: PayloadSize) -> (r: Self)
        ensures
            r == (Self {
                payload_size: match p {
                    PayloadSize::Fixed(n) => PayloadSize::Fixed(
                        if n < 1 { 1 } else if n > MAX_PAYLOAD_SIZE { MAX_PAYLOAD_SIZE } else { n },
                    ),
                    PayloadSize::Dynamic => PayloadSize::Dynamic,
                },
                ..self
            }),
    {
        Self {
            payload_size: match p {
                PayloadSize::Fixed(n) => PayloadSize::Fixed(
                    if n < 1 { 1 } else if n > MAX_PAYLOAD_SIZE { MAX_PAYLOAD_SIZE } else { n },
                ),
                PayloadSize::Dynamic => PayloadSize::Dynamic,
            },
            ..self
        }
    }

    /// Set the data rate.
    pub fn data_rate(self, d: DataRate) -> (r: Self)
        ensures
            r == (Self { data_rate: d, ..self }),
    {
        Self { data_rate: d, ..self }
    }

    /// Set the transmit power level.
    pub fn pa_level(self, p: PALevel) -> (r: Self)
        ensures
            r == (Self { pa_level: p, ..self }),
    {
        Self { pa_level: p, ..self }
    }

    /// Set the CRC scheme, or disable the check with `None`.
    pub fn crc_encoding_scheme(self, crc: Option<EncodingScheme>) -> (r: Self)
        ensures
            r == (Self { crc, ..self }),
    {
        Self { crc, ..self }
    }

}

impl Default for NrfConfig {
    /// Channel 76, five-byte addresses, fixed 32-byte payloads, 1 Mbps,
    /// lowest power, one-byte CRC.
    fn default() -> (r: Self)
        ensures
            r == (NrfConfig {
                channel: 76,
                addr_width: 5,
                payload_size: PayloadSize::Fixed(32),
                data_rate: DataRate::R1Mbps,
                pa_level: PALevel::Min,
                crc: Some(EncodingScheme::R1Byte),
            }),
            r.wf(),
    {
        NrfConfig {
            channel: 76,
            addr_width: 5,
            payload_size: PayloadSize::Fixed(32),
            data_rate: DataRate::R1Mbps,
            pa_level: PALevel::Min,
            crc: Some(EncodingScheme::R1Byte),
        }
    }
}

/// The CONFIG-register byte for a configuration and power/mode bits.
pub open spec fn spec_config_byte(c: NrfConfig, power_up: bool, prim_rx: bool) -> u8 {
    spec_crc_bits(c.crc) | (if power_up { PWR_UP } else { 0 }) | (if prim_rx { PRIM_RX } else { 0 })
}

/// The CONFIG-register byte for a configuration and power/mode bits.
pub fn config_byte(c: &NrfConfig, power_up: bool, prim_rx: bool) -> (r: u8)
    ensures
        r == spec_config_byte(*c, power_up, prim_rx),
{
    crc_bits(c.crc) | (if power_up { PWR_UP } else { 0 }) | (if prim_rx { PRIM_RX } else { 0 })
}

/// The FEATURE-register byte for a configuration.
pub open spec fn spec_feature_byte(c: NrfConfig) -> u8 {
    if c.spec_is_dynamic() {
        FEATURE_EN_DPL
    } else {
        0
    }
}

/// The DYNPD-register byte for a configuration.
pub open spec fn spec_dynpd_byte(c: NrfConfig) -> u8 {
    if c.spec_is_dynamic() {
        DYNPD_ALL
    } else {
        0
    }
}

} // verus!
