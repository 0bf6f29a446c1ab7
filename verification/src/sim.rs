//! An executable simulation of the transceiver, usable wherever a
//! [`RadioDevice`] is expected. Every step is verified to follow the
//! mathematical model in [`crate::chip`]: the response to each command and
//! the state after it are exactly `chip_resp` and `chip_next`, pin edges
//! follow `chip_ce_high` and `chip_ce_low`, and packets arriving over the
//! air follow `chip_inject`.

use vstd::prelude::*;

use crate::chip::{can_inject, chip_ce_high, chip_ce_low, chip_inject, chip_next, chip_resp,
    first_byte, op_of, resp_byte, resp_byte_at, ChipState, RxPacket};
use crate::device::{BusEvent, RadioDevice, TransferError};
use crate::registers::{CONFIG, EN_RXADDR, FLUSH_RX, FLUSH_TX, MAX_RT, NOP, PIPE_EMPTY, PRIM_RX,
    RX_ADDR_P0, RX_ADDR_P1, RX_DR, R_RX_PAYLOAD, R_RX_PL_WID, STATUS, STATUS_CLEAR, TX_ADDR,
    TX_DS, W_TX_PAYLOAD};

verus! {

/// One simulated packet in the receive FIFO.
pub struct SimPacket {
    /// The pipe it arrived on.
    pub pipe: u8,
    /// Its payload bytes.
    pub data: Vec<u8>,
}

impl View for SimPacket {
    type V = RxPacket;

    open spec fn view(&self) -> RxPacket {
        RxPacket { pipe: self.pipe, data: self.data@ }
    }
}

/// The simulated transceiver: the register file, address registers, both
/// FIFOs, the enable pin, the simulated radio link, and the ghost history
/// of everything a driver caused on it.
pub struct SimChip {
    /// The 32 single-byte registers; the status slot holds the flags.
    pub regs: [u8; 32],
    /// Full receive address of pipe 0.
    pub rx_addr_p0: Vec<u8>,
    /// Full receive address of pipe 1.
    pub rx_addr_p1: Vec<u8>,
    /// Transmit address.
    pub tx_addr: Vec<u8>,
    /// Received packets, oldest first.
    pub rx_fifo: Vec<SimPacket>,
    /// Payloads waiting to be sent, oldest first.
    pub tx_fifo: Vec<Vec<u8>>,
    /// The chip-enable pin.
    pub ce: bool,
    /// Whether a remote receiver acknowledges transmissions.
    pub remote_ack: bool,
    /// A width reported instead of the true head width.
    pub width_override: Option<u8>,
    /// Everything a driver caused on this device.
    pub history: Ghost<Seq<BusEvent>>,
}

impl View for SimChip {
    type V = ChipState;

    open spec fn view(&self) -> ChipState {
        ChipState {
            regs: self.regs@,
            rx_addr_p0: self.rx_addr_p0@,
            rx_addr_p1: self.rx_addr_p1@,
            tx_addr: self.tx_addr@,
            rx_fifo: self.rx_fifo@.map_values(|p: SimPacket| p@),
            tx_fifo: self.tx_fifo@.map_values(|v: Vec<u8>| v@),
            ce: self.ce,
            remote_ack: self.remote_ack,
            width_override: self.width_override,
        }
    }
}

/// The state a simulator starts in: everything zero, pin low, a remote
/// that acknowledges.
pub open spec fn reset_state() -> ChipState {
    ChipState {
        regs: Seq::new(32, |i: int| 0u8),
        rx_addr_p0: seq![],
        rx_addr_p1: seq![],
        tx_addr: seq![],
        rx_fifo: seq![],
        tx_fifo: seq![],
        ce: false,
        remote_ack: true,
        width_override: None,
    }
}

/// Copy a byte slice.
fn copy_bytes(s: &[u8]) -> (v: Vec<u8>)
    ensures
        v@ == s@,
{
    let mut v: Vec<u8> = Vec::new();
    let mut i: usize = 0;
    while i < s.len()
        invariant
            i <= s@.len(),
            v@ == s@.take(i as int),
        decreases s@.len() - i,
    {
        v.push(s[i]);
        assert(s@.take(i + 1) =~= s@.take(i as int).push(s@[i as int]));
        i = i + 1;
    }
    assert(v@ =~= s@);
    v
}

/// Copy everything after the opcode byte.
fn copy_tail(s: &[u8]) -> (v: Vec<u8>)
    requires
        s@.len() >= 1,
    ensures
        v@ == s@.skip(1),
{
    let mut v: Vec<u8> = Vec::new();
    let mut i: usize = 1;
    while i < s.len()
        invariant
            1 <= i <= s@.len(),
            v@ == s@.subrange(1, i as int),
        decreases s@.len() - i,
    {
        v.push(s[i]);
        assert(s@.subrange(1, i + 1) =~= s@.subrange(1, i as int).push(s@[i as int]));
        i = i + 1;
    }
    assert(v@ =~= s@.skip(1));
    v
}

impl SimChip {
    /// A freshly powered simulator.
    pub fn new() -> (s: SimChip)
        ensures
            s@ == reset_state(),
            s.history@ == Seq::<BusEvent>::empty(),
    {
        let s = SimChip {
            regs: [0u8; 32],
            rx_addr_p0: Vec::new(),
            rx_addr_p1: Vec::new(),
            tx_addr: Vec::new(),
            rx_fifo: Vec::new(),
            tx_fifo: Vec::new(),
            ce: false,
            remote_ack: true,
            width_override: None,
            history: Ghost(Seq::empty()),
        };
        proof {
            assert(s@.regs =~= reset_state().regs);
            assert(s@.rx_fifo =~= reset_state().rx_fifo);
            assert(s@.tx_fifo =~= reset_state().tx_fifo);
            assert(s@ =~~= reset_state());
        }
        s
    }

    /// The status byte the chip would shift out now.
    pub fn status_byte(&self) -> (r: u8)
        ensures
            r == self@.status_byte(),
    {
        let flags = self.regs[STATUS as usize];
        let pipe: u8 = if self.rx_fifo.len() == 0 {
            PIPE_EMPTY
        } else {
            self.rx_fifo[0].pipe
        };
        let txf: u8 = if self.tx_fifo.len() >= 3 {
            1
        } else {
            0
        };
        (flags | (pipe << 1u8)) | txf
    }

    /// The `j`-th byte a register read shifts out.
    fn reg_byte(&self, addr: u8, j: usize) -> (r: u8)
        requires
            addr < 32,
        ensures
            r == self@.reg_byte(addr, j as int),
    {
        if addr == RX_ADDR_P0 {
            if j < self.rx_addr_p0.len() {
                self.rx_addr_p0[j]
            } else {
                0
            }
        } else if addr == RX_ADDR_P1 {
            if j < self.rx_addr_p1.len() {
                self.rx_addr_p1[j]
            } else {
                0
            }
        } else if addr == TX_ADDR {
            if j < self.tx_addr.len() {
                self.tx_addr[j]
            } else {
                0
            }
        } else if addr == STATUS {
            if j == 0 {
                self.status_byte()
            } else {
                0
            }
        } else {
            if j == 0 {
                self.regs[addr as usize]
            } else {
                0
            }
        }
    }

    /// The payload width the chip would report.
    fn reported_width_byte(&self) -> (r: u8)
        ensures
            r == self@.reported_width(),
    {
        match self.width_override {
            Some(w) => w,
            None => {
                if self.rx_fifo.len() == 0 {
                    0
                } else {
                    self.rx_fifo[0].data.len() as u8
                }
            },
        }
    }

    /// The `j`-th byte of the receive-FIFO head payload.
    fn rx_head_byte(&self, j: usize) -> (r: u8)
        ensures
            r == self@.rx_head_byte(j as int),
    {
        if self.rx_fifo.len() > 0 && j < self.rx_fifo[0].data.len() {
            self.rx_fifo[0].data[j]
        } else {
            0
        }
    }

    /// One answered byte after the status byte.
    fn resp_byte_exec(&self, op: u8, j: usize) -> (r: u8)
        ensures
            r == resp_byte(self@, op, j as int),
    {
        if op & 0xE0 == 0x00 {
            let addr = op & 0x1F;
            proof {
                assert(op & 0x1F < 0x20) by (bit_vector);
            }
            self.reg_byte(addr, j)
        } else if op == R_RX_PAYLOAD {
            self.rx_head_byte(j)
        } else if op == R_RX_PL_WID {
            if j == 0 {
                self.reported_width_byte()
            } else {
                0
            }
        } else {
            0
        }
    }

    /// Everything the chip answers to a transaction of `len` bytes with
    /// opcode `op`, from the current state.
    fn build_resp(&self, len: usize, op: u8) -> (v: Vec<u8>)
        ensures
            v@.len() == len,
            forall|i: int| 0 <= i < len ==> v@[i] == resp_byte_at(self@, op, i),
    {
        let mut v: Vec<u8> = Vec::new();
        let mut i: usize = 0;
        while i < len
            invariant
                i <= len,
                v@.len() == i,
                forall|k: int| 0 <= k < i ==> v@[k] == resp_byte_at(self@, op, k),
            decreases len - i,
        {
            let b = if i == 0 {
                self.status_byte()
            } else {
                self.resp_byte_exec(op, i - 1)
            };
            v.push(b);
            i = i + 1;
        }
        v
    }

    /// Apply one transaction's effect on the state.
    fn apply_cmd(&mut self, sent: &[u8])
        ensures
            final(self)@ == chip_next(old(self)@, sent@),
            final(self).history == old(self).history,
    {
        let op = if sent.len() == 0 {
            NOP
        } else {
            sent[0]
        };
        if op & 0xE0 == 0x20 {
            let addr = op & 0x1F;
            proof {
                assert(op & 0x1F < 0x20) by (bit_vector);
                assert(0xFFu8 & 0xE0 != 0x20) by (bit_vector);
                assert(sent@.len() >= 1);
            }
            let v = if sent.len() >= 2 {
                sent[1]
            } else {
                0
            };
            proof {
                assert(v == first_byte(sent@.skip(1)));
            }
            if addr == RX_ADDR_P0 {
                self.rx_addr_p0 = copy_tail(sent);
            } else if addr == RX_ADDR_P1 {
                self.rx_addr_p1 = copy_tail(sent);
            } else if addr == TX_ADDR {
                self.tx_addr = copy_tail(sent);
            } else if addr == STATUS {
                self.regs[STATUS as usize] = self.regs[STATUS as usize] & !(v & STATUS_CLEAR);
            } else {
                self.regs[addr as usize] = v;
            }
            proof {
                assert(final(self)@ =~~= chip_next(old(self)@, sent@));
            }
        } else if op == R_RX_PAYLOAD {
            if self.rx_fifo.len() > 0 {
                self.rx_fifo.remove(0);
            }
            self.width_override = None;
            proof {
                assert(self.rx_fifo@.map_values(|p: SimPacket| p@) =~= chip_next(
                    old(self)@,
                    sent@,
                ).rx_fifo);
                assert(final(self)@ =~~= chip_next(old(self)@, sent@));
            }
        } else if op == W_TX_PAYLOAD {
            if self.tx_fifo.len() < 3 {
                self.tx_fifo.push(copy_tail(sent));
            }
            proof {
                assert(self.tx_fifo@.map_values(|v2: Vec<u8>| v2@) =~= chip_next(
                    old(self)@,
                    sent@,
                ).tx_fifo);
                assert(final(self)@ =~~= chip_next(old(self)@, sent@));
            }
        } else if op == FLUSH_TX {
            self.tx_fifo = Vec::new();
            proof {
                assert(self.tx_fifo@.map_values(|v2: Vec<u8>| v2@) =~= Seq::<Seq<u8>>::empty());
                assert(final(self)@ =~~= chip_next(old(self)@, sent@));
            }
        } else if op == FLUSH_RX {
            self.rx_fifo = Vec::new();
            self.width_override = None;
            proof {
                assert(self.rx_fifo@.map_values(|p: SimPacket| p@) =~= Seq::<RxPacket>::empty());
                assert(final(self)@ =~~= chip_next(old(self)@, sent@));
            }
        } else {
            proof {
                assert(final(self)@ =~~= chip_next(old(self)@, sent@));
            }
        }
    }

    /// Raise the enable pin, triggering a send attempt in transmit mode.
    fn do_ce_high(&mut self)
        ensures
            final(self)@ == chip_ce_high(old(self)@),
            final(self).history == old(self).history,
    {
        self.ce = true;
        if self.regs[CONFIG as usize] & PRIM_RX == 0 && self.tx_fifo.len() > 0 {
            if self.remote_ack {
                self.tx_fifo.remove(0);
                self.regs[STATUS as usize] = self.regs[STATUS as usize] | TX_DS;
                proof {
                    assert(self.tx_fifo@.map_values(|v2: Vec<u8>| v2@) =~= chip_ce_high(
                        old(self)@,
                    ).tx_fifo);
                }
            } else {
                self.regs[STATUS as usize] = self.regs[STATUS as usize] | MAX_RT;
            }
        }
        proof {
            assert(final(self)@ =~~= chip_ce_high(old(self)@));
        }
    }

    /// Lower the enable pin.
    fn do_ce_low(&mut self)
        ensures
            final(self)@ == chip_ce_low(old(self)@),
            final(self).history == old(self).history,
    {
        self.ce = false;
        proof {
            assert(final(self)@ =~~= chip_ce_low(old(self)@));
        }
    }

    /// A packet arrives over the air on `pipe`. It is accepted — joins
    /// the receive FIFO and raises the data-ready flag — exactly when the
    /// chip is enabled and listening, the pipe is enabled and the FIFO
    /// has room.
    pub fn inject_payload(&mut self, pipe: u8, data: &[u8]) -> (accepted: bool)
        requires
            pipe <= 5,
            1 <= data@.len() <= 32,
        ensures
            final(self)@ == chip_inject(old(self)@, pipe, data@),
            accepted == can_inject(old(self)@, pipe),
            final(self).history == old(self).history,
    {
        if self.ce && (self.regs[CONFIG as usize] & PRIM_RX != 0) && (self.regs[EN_RXADDR
            as usize] & (1u8 << pipe) != 0) && self.rx_fifo.len() < 3 {
            self.rx_fifo.push(SimPacket { pipe, data: copy_bytes(data) });
            self.regs[STATUS as usize] = self.regs[STATUS as usize] | RX_DR;
            proof {
                assert(self.rx_fifo@.map_values(|p: SimPacket| p@) =~= chip_inject(
                    old(self)@,
                    pipe,
                    data@,
                ).rx_fifo);
                assert(final(self)@ =~~= chip_inject(old(self)@, pipe, data@));
            }
            true
        } else {
            proof {
                assert(final(self)@ =~~= chip_inject(old(self)@, pipe, data@));
            }
            false
        }
    }

    /// Whether the chip holds the interrupt line asserted: it stays
    /// asserted, level-persistent, as long as any of the three event
    /// flags stands, until a clear-on-write to the status register.
    pub fn irq_asserted(&self) -> (r: bool)
        ensures
            r == (self@.regs[STATUS as int] & STATUS_CLEAR != 0),
    {
        self.regs[STATUS as usize] & STATUS_CLEAR != 0
    }

    /// Choose whether the simulated remote acknowledges transmissions.
    pub fn set_remote_ack(&mut self, ack: bool)
        ensures
            final(self)@ == (ChipState { remote_ack: ack, ..old(self)@ }),
            final(self).history == old(self).history,
    {
        self.remote_ack = ack;
        proof {
            assert(final(self)@ =~~= (ChipState { remote_ack: ack, ..old(self)@ }));
        }
    }

    /// Make the chip report `w` as the next payload width, as a corrupt
    /// packet at the FIFO head would.
    pub fn force_reported_width(&mut self, w: u8)
        ensures
            final(self)@ == (ChipState { width_override: Some(w), ..old(self)@ }),
            final(self).history == old(self).history,
    {
        self.width_override = Some(w);
        proof {
            assert(final(self)@ =~~= (ChipState { width_override: Some(w), ..old(self)@ }));
        }
    }

    /// How many payloads wait in the transmit FIFO.
    pub fn tx_backlog(&self) -> (r: usize)
        ensures
            r == self@.tx_fifo.len(),
    {
        self.tx_fifo.len()
    }

    /// How many packets wait in the receive FIFO.
    pub fn rx_backlog(&self) -> (r: usize)
        ensures
            r == self@.rx_fifo.len(),
    {
        self.rx_fifo.len()
    }
}

impl RadioDevice for SimChip {
    open spec fn events(&self) -> Seq<BusEvent> {
        self.history@
    }

    fn transact(&mut self, sent: &[u8]) -> (r: Result<Vec<u8>, TransferError>) {
        let op = if sent.len() == 0 {
            NOP
        } else {
            sent[0]
        };
        let resp = self.build_resp(sent.len(), op);
        proof {
            assert(resp@ =~= chip_resp(self@, sent@));
        }
        self.apply_cmd(sent);
        self.history = Ghost(
            self.history@.push(BusEvent::Xfer { sent: sent@, recv: resp@ }),
        );
        Ok(resp)
    }

    fn ce_high(&mut self) -> (r: Result<(), TransferError>) {
        self.do_ce_high();
        self.history = Ghost(self.history@.push(BusEvent::CeHigh));
        Ok(())
    }

    fn ce_low(&mut self) -> (r: Result<(), TransferError>) {
        self.do_ce_low();
        self.history = Ghost(self.history@.push(BusEvent::CeLow));
        Ok(())
    }

    fn delay_us(&mut self, us: u32) {
        self.history = Ghost(self.history@.push(BusEvent::Delay { us }));
    }
}

} // verus!
