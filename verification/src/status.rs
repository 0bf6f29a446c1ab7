//! The status byte the chip shifts out during every bus transaction.

use vstd::prelude::*;

use crate::registers::{MAX_RT, RX_DR, RX_P_NO_MASK, TX_DS};

verus! {

/// The data-ready flag of a status byte.
pub open spec fn st_data_ready(s: u8) -> bool {
    s & RX_DR != 0
}

/// The data-sent flag of a status byte.
pub open spec fn st_data_sent(s: u8) -> bool {
    s & TX_DS != 0
}

/// The max-retries-exceeded flag of a status byte.
pub open spec fn st_max_retries(s: u8) -> bool {
    s & MAX_RT != 0
}

/// The three-bit field naming the pipe that holds the next available
/// payload; `PIPE_EMPTY` means the receive FIFO is empty.
pub open spec fn st_pipe(s: u8) -> u8 {
    (s & RX_P_NO_MASK) >> 1
}

/// The pipe a status byte reports data on: the pipe field, provided the
/// data-ready flag is set and the field names one of the six pipes.
pub open spec fn spec_available_pipe(s: u8) -> Option<u8> {
    if st_data_ready(s) && st_pipe(s) <= 5 {
        Some(st_pipe(s))
    } else {
        None
    }
}

/// Bitfield read from every bus transaction header.
#[derive(Debug, Clone, Copy, PartialEq, Eq, Structural)]
pub struct StatusByte {
    /// The raw byte as the chip shifted it out.
    pub raw: u8,
}

impl StatusByte {
    /// Wrap a raw status byte.
    pub fn new(raw: u8) -> (r: StatusByte)
        ensures
            r.raw == raw,
    {
        StatusByte { raw }
    }

    /// Whether a payload is ready in the receive FIFO.
    pub fn data_ready(&self) -> (r: bool)
        ensures
            r == st_data_ready(self.raw),
    {
        self.raw & RX_DR != 0
    }

    /// Whether the last payload was sent (and, with auto-acknowledgement,
    /// acknowledged).
    pub fn data_sent(&self) -> (r: bool)
        ensures
            r == st_data_sent(self.raw),
    {
        self.raw & TX_DS != 0
    }

    /// Whether the hardware auto-retry counter expired.
    pub fn reached_max_retries(&self) -> (r: bool)
        ensures
            r == st_max_retries(self.raw),
    {
        self.raw & MAX_RT != 0
    }

    /// The raw pipe field.
    pub fn data_pipe(&self) -> (r: u8)
        ensures
            r == st_pipe(self.raw),
    {
        (self.raw & RX_P_NO_MASK) >> 1
    }

    /// The pipe this status byte reports data on, if any.
    pub fn available_pipe(&self) -> (r: Option<u8>)
        ensures
            r == spec_available_pipe(self.raw),
    {
        let p = (self.raw & RX_P_NO_MASK) >> 1;
        if self.raw & RX_DR != 0 && p <= 5 {
            Some(p)
        } else {
            None
        }
    }
}

} // verus!
