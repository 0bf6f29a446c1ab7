//! Register-level driver for the nRF24L01+ 2.4 GHz packet-radio transceiver.
//!
//! The driver turns a declarative radio configuration and pipe table into
//! command sequences on a byte-oriented, chip-select framed bus, and drives
//! the chip's transmit/receive state machine. The host platform is reached
//! through the [`device::RadioDevice`] trait; every contract is stated over
//! the history of bus transactions, pin edges and delays that a device
//! records. [`sim::SimChip`] is a verified model of the transceiver's
//! register file usable as such a device, and [`chip`] holds the
//! mathematical form of that model together with the laws proved about it.
//! [`notify::NotifySlot`] is the single-slot, coalescing notification cell
//! that bridges the chip's interrupt line to a worker thread.

pub mod chip;
pub mod config;
pub mod device;
pub mod driver;
pub mod notify;
pub mod registers;
pub mod sim;
pub mod status;
