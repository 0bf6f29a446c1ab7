//! The host-platform port: one trait for the bus, the chip-enable pin and
//! the delay service, with a ghost history of everything the driver caused.

use vstd::prelude::*;

verus! {

/// Why a driver operation failed.
#[derive(Debug, Clone, Copy, PartialEq, Eq, Structural)]
pub enum TransferError {
    /// The bus transfer itself failed.
    Bus,
    /// Driving the chip-enable or chip-select pin failed.
    Pin,
    /// Communication mismatch: read-back verification failed, a reported
    /// payload width exceeded the hardware maximum, or the chip never
    /// raised a completion flag.
    Communication,
    /// The hardware auto-retry counter expired without an acknowledgement.
    MaximumRetries,
}

/// One observable interaction between the driver and the host platform.
pub enum BusEvent {
    /// One full bus transaction under chip select: the bytes clocked out
    /// and the bytes clocked in, always of equal length.
    Xfer { sent: Seq<u8>, recv: Seq<u8> },
    /// The chip-enable pin was raised.
    CeHigh,
    /// The chip-enable pin was lowered.
    CeLow,
    /// The driver waited for at least this many microseconds.
    Delay { us: u32 },
}

/// The command side of an event: what the driver caused, with the bytes
/// the chip answered erased.
pub enum Action {
    /// A bus transaction carrying these command bytes.
    Cmd { sent: Seq<u8> },
    /// The chip-enable pin was raised.
    CeHigh,
    /// The chip-enable pin was lowered.
    CeLow,
    /// A wait of at least this many microseconds.
    Delay { us: u32 },
}

/// The bytes a transaction received; empty for pin and delay events.
pub open spec fn ev_recv(e: BusEvent) -> Seq<u8> {
    match e {
        BusEvent::Xfer { recv, .. } => recv,
        _ => seq![],
    }
}

/// The command side of one event.
pub open spec fn action_of(e: BusEvent) -> Action {
    match e {
        BusEvent::Xfer { sent, recv } => Action::Cmd { sent },
        BusEvent::CeHigh => Action::CeHigh,
        BusEvent::CeLow => Action::CeLow,
        BusEvent::Delay { us } => Action::Delay { us },
    }
}

/// The command side of a history.
pub open spec fn actions_of(evs: Seq<BusEvent>) -> Seq<Action> {
    evs.map_values(|e: BusEvent| action_of(e))
}

/// Appending one event appends its action.
pub broadcast proof fn lemma_actions_of_push(evs: Seq<BusEvent>, e: BusEvent)
    ensures
        #[trigger] actions_of(evs.push(e)) == actions_of(evs).push(action_of(e)),
{
    assert(actions_of(evs.push(e)) =~= actions_of(evs).push(action_of(e)));
}

/// The command side of a history has its length.
pub broadcast proof fn lemma_actions_of_len(evs: Seq<BusEvent>)
    ensures
        #[trigger] actions_of(evs).len() == evs.len(),
{
}

/// The port to the host platform: a full-duplex byte-transfer primitive
/// framed by chip select, the chip-enable pin, and a microsecond delay
/// service. `events` is the history of everything the driver caused
/// through this device; each method appends exactly one event. A device
/// promises nothing about the bytes a transaction receives: what the chip
/// answers is the chip's business, and the driver's contracts say how its
/// results follow from whatever came back.
pub trait RadioDevice: Sized {
    /// All interactions so far, oldest first.
    spec fn events(&self) -> Seq<BusEvent>;

    /// One bus transaction under chip select: clock out `sent`, return the
    /// bytes clocked in, exactly as many. A failure is a bus or pin
    /// failure and aborts the transaction.
    fn transact(&mut self, sent: &[u8]) -> (r: Result<Vec<u8>, TransferError>)
        ensures
            match r {
                Ok(recv) => recv@.len() == sent@.len() && final(self).events()
                    == old(self).events().push(BusEvent::Xfer { sent: sent@, recv: recv@ }),
                Err(e) => e == TransferError::Bus || e == TransferError::Pin,
            },
    ;

    /// Raise the chip-enable pin.
    fn ce_high(&mut self) -> (r: Result<(), TransferError>)
        ensures
            match r {
                Ok(u) => final(self).events() == old(self).events().push(BusEvent::CeHigh),
                Err(e) => e == TransferError::Pin,
            },
    ;

    /// Lower the chip-enable pin.
    fn ce_low(&mut self) -> (r: Result<(), TransferError>)
        ensures
            match r {
                Ok(u) => final(self).events() == old(self).events().push(BusEvent::CeLow),
                Err(e) => e == TransferError::Pin,
            },
    ;

    /// Wait for at least `us` microseconds.
    fn delay_us(&mut self, us: u32)
        ensures
            final(self).events() == old(self).events().push(BusEvent::Delay { us }),
    ;
}

} // verus!
