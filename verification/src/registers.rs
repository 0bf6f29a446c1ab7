//! Register addresses, command opcodes and bit masks of the transceiver's
//! fixed hardware protocol.

use vstd::prelude::*;

verus! {

// Register addresses (5-bit space).
/// Control register: CRC scheme, power-up and receive-mode bits.
pub const CONFIG: u8 = 0x00;
/// Per-pipe auto-acknowledgement enable bits.
pub const EN_AA: u8 = 0x01;
/// Per-pipe receive-address enable bits.
pub const EN_RXADDR: u8 = 0x02;
/// Address width, encoded as width minus two.
pub const SETUP_AW: u8 = 0x03;
/// Auto-retry setup: delay steps in the high nibble, count in the low one.
pub const SETUP_RETR: u8 = 0x04;
/// Radio-frequency channel, 0 to 125.
pub const RF_CH: u8 = 0x05;
/// Data rate and transmit power, packed into one register.
pub const RF_SETUP: u8 = 0x06;
/// Status register; its event flags are clear-on-write.
pub const STATUS: u8 = 0x07;
/// Receive address of pipe 0; pipes 0 and 1 carry a full address, the
/// four registers after pipe 1 carry a single trailing byte each.
pub const RX_ADDR_P0: u8 = 0x0A;
/// Receive address of pipe 1.
pub const RX_ADDR_P1: u8 = 0x0B;
/// Transmit address.
pub const TX_ADDR: u8 = 0x10;
/// Expected fixed payload length of pipe 0; one register per pipe follows.
pub const RX_PW_P0: u8 = 0x11;
/// Transmit/receive FIFO status.
pub const FIFO_STATUS: u8 = 0x17;
/// Per-pipe dynamic-payload enable bits.
pub const DYNPD: u8 = 0x1C;
/// Feature register holding the global dynamic-payload enable bit.
pub const FEATURE: u8 = 0x1D;

// Command opcodes. Register reads and writes encode the target address in
// the low five bits of `R_REGISTER` and `W_REGISTER`.
/// Read a register.
pub const R_REGISTER: u8 = 0x00;
/// Write a register.
pub const W_REGISTER: u8 = 0x20;
/// Read the payload at the head of the receive FIFO.
pub const R_RX_PAYLOAD: u8 = 0x61;
/// Append a payload to the transmit FIFO.
pub const W_TX_PAYLOAD: u8 = 0xA0;
/// Flush the transmit FIFO.
pub const FLUSH_TX: u8 = 0xE1;
/// Flush the receive FIFO.
pub const FLUSH_RX: u8 = 0xE2;
/// Query the width of the payload at the head of the receive FIFO.
pub const R_RX_PL_WID: u8 = 0x60;
/// No operation; returns the status byte only.
pub const NOP: u8 = 0xFF;

// Bits of the CONFIG register.
/// Receive mode when set, transmit mode when clear.
pub const PRIM_RX: u8 = 0x01;
/// Power up out of power-down.
pub const PWR_UP: u8 = 0x02;
/// Two-byte CRC when set together with `EN_CRC`.
pub const CRCO: u8 = 0x04;
/// CRC enable.
pub const EN_CRC: u8 = 0x08;

// Bits of the STATUS register.
/// Data ready in the receive FIFO.
pub const RX_DR: u8 = 0x40;
/// Payload sent and, with auto-acknowledgement, acknowledged.
pub const TX_DS: u8 = 0x20;
/// Hardware auto-retry counter expired without acknowledgement.
pub const MAX_RT: u8 = 0x10;
/// All three clear-on-write event flags.
pub const STATUS_CLEAR: u8 = 0x70;
/// Field naming the pipe that holds the next available payload.
pub const RX_P_NO_MASK: u8 = 0x0E;
/// Value of the pipe field that means the receive FIFO is empty.
pub const PIPE_EMPTY: u8 = 0x07;

/// Global dynamic-payload enable bit of the FEATURE register.
pub const FEATURE_EN_DPL: u8 = 0x04;
/// Dynamic-payload enable bits for all six pipes.
pub const DYNPD_ALL: u8 = 0x3F;
/// Auto-acknowledgement enable bits for all six pipes.
pub const EN_AA_ALL: u8 = 0x3F;

/// Largest payload the hardware can carry in one packet.
pub const MAX_PAYLOAD_SIZE: u8 = 32;
/// Largest valid radio-frequency channel.
pub const MAX_CHANNEL: u8 = 125;
/// Number of registers in the single-byte register space.
pub const REG_SPACE: u8 = 0x20;

} // verus!
