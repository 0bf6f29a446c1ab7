//! A mathematical model of the transceiver's register file, FIFOs and
//! status behaviour, as driven through the bus protocol. The simulator in
//! [`crate::sim`] follows this model step for step; the lemmas at the end
//! are the laws the model guarantees to the driver's command sequences.

use vstd::prelude::*;

use crate::config::NrfConfig;
use crate::device::Action;
use crate::driver::{apply_acts, r_reg_cmd, w_reg_cmd};
use crate::registers::{CONFIG, EN_RXADDR, FLUSH_RX, FLUSH_TX, MAX_RT, NOP, PIPE_EMPTY, PRIM_RX,
    RF_CH, RX_ADDR_P0, RX_ADDR_P1, RX_DR, R_RX_PAYLOAD, R_RX_PL_WID, STATUS, STATUS_CLEAR,
    TX_ADDR, TX_DS, W_TX_PAYLOAD};
use crate::status::{spec_available_pipe, st_data_ready, st_pipe};

verus! {

/// One received packet waiting in the receive FIFO.
#[verifier::ext_equal]
pub struct RxPacket {
    /// The pipe it arrived on.
    pub pipe: u8,
    /// Its payload bytes.
    pub data: Seq<u8>,
}

/// The chip's modelled state. The single-byte register space lives in
/// `regs`; the status register's slot holds only the three event flags,
/// since the pipe field and the FIFO bit are derived on every read. The
/// three multi-byte address registers, the FIFOs and the enable pin are
/// explicit. `remote_ack` stands for the radio link: whether a remote
/// receiver acknowledges transmissions. `width_override` models a corrupt
/// packet at the FIFO head that announces a wrong width.
#[verifier::ext_equal]
pub struct ChipState {
    /// The 32 single-byte registers.
    pub regs: Seq<u8>,
    /// Full receive address of pipe 0.
    pub rx_addr_p0: Seq<u8>,
    /// Full receive address of pipe 1.
    pub rx_addr_p1: Seq<u8>,
    /// Transmit address.
    pub tx_addr: Seq<u8>,
    /// Received packets, oldest first, at most three.
    pub rx_fifo: Seq<RxPacket>,
    /// Payloads waiting to be sent, oldest first, at most three.
    pub tx_fifo: Seq<Seq<u8>>,
    /// The chip-enable pin as the chip sees it.
    pub ce: bool,
    /// Whether a remote receiver acknowledges transmissions.
    pub remote_ack: bool,
    /// A width the chip would report instead of the true head width.
    pub width_override: Option<u8>,
}

impl ChipState {
    /// The pipe field the chip reports: the pipe of the FIFO head, or
    /// `PIPE_EMPTY` when nothing waits.
    pub open spec fn rx_p_no(self) -> u8 {
        if self.rx_fifo.len() == 0 {
            PIPE_EMPTY
        } else {
            self.rx_fifo[0].pipe
        }
    }

    /// The transmit-FIFO-full bit.
    pub open spec fn tx_full_bit(self) -> u8 {
        if self.tx_fifo.len() >= 3 {
            1
        } else {
            0
        }
    }

    /// The status byte shifted out at the start of every transaction.
    pub open spec fn status_byte(self) -> u8 {
        (self.regs[STATUS as int] | (self.rx_p_no() << 1)) | self.tx_full_bit()
    }

    /// The `j`-th byte of a register as a read shifts it out.
    pub open spec fn reg_byte(self, addr: u8, j: int) -> u8 {
        if addr == RX_ADDR_P0 {
            if 0 <= j < self.rx_addr_p0.len() {
                self.rx_addr_p0[j]
            } else {
                0
            }
        } else if addr == RX_ADDR_P1 {
            if 0 <= j < self.rx_addr_p1.len() {
                self.rx_addr_p1[j]
            } else {
                0
            }
        } else if addr == TX_ADDR {
            if 0 <= j < self.tx_addr.len() {
                self.tx_addr[j]
            } else {
                0
            }
        } else if addr == STATUS {
            if j == 0 {
                self.status_byte()
            } else {
                0
            }
        } else {
            if j == 0 {
                self.regs[addr as int]
            } else {
                0
            }
        }
    }

    /// The width the chip reports for the FIFO head.
    pub open spec fn reported_width(self) -> u8 {
        match self.width_override {
            Some(w) => w,
            None => if self.rx_fifo.len() == 0 {
                0
            } else {
                self.rx_fifo[0].data.len() as u8
            },
        }
    }

    /// The `j`-th byte of the FIFO head payload, zero past its end.
    pub open spec fn rx_head_byte(self, j: int) -> u8 {
        if self.rx_fifo.len() > 0 && 0 <= j < self.rx_fifo[0].data.len() {
            self.rx_fifo[0].data[j]
        } else {
            0
        }
    }

    /// A register write: addresses replace their byte sequence, the
    /// status register clears the event flags where ones are written
    /// (clear-on-write), every other register takes the byte.
    pub open spec fn write_reg(self, addr: u8, data: Seq<u8>) -> ChipState {
        if addr == RX_ADDR_P0 {
            ChipState { rx_addr_p0: data, ..self }
        } else if addr == RX_ADDR_P1 {
            ChipState { rx_addr_p1: data, ..self }
        } else if addr == TX_ADDR {
            ChipState { tx_addr: data, ..self }
        } else if addr == STATUS {
            ChipState {
                regs: self.regs.update(
                    STATUS as int,
                    self.regs[STATUS as int] & !(first_byte(data) & STATUS_CLEAR),
                ),
                ..self
            }
        } else {
            ChipState { regs: self.regs.update(addr as int, first_byte(data)), ..self }
        }
    }
}

/// The first byte of a payload, zero when there is none.
pub open spec fn first_byte(data: Seq<u8>) -> u8 {
    if data.len() == 0 {
        0
    } else {
        data[0]
    }
}

/// The opcode of a transaction.
pub open spec fn op_of(sent: Seq<u8>) -> u8 {
    if sent.len() == 0 {
        NOP
    } else {
        sent[0]
    }
}

/// Whether an opcode is a register write.
pub open spec fn is_w_register(op: u8) -> bool {
    op & 0xE0 == 0x20
}

/// Whether an opcode is a register read.
pub open spec fn is_r_register(op: u8) -> bool {
    op & 0xE0 == 0x00
}

/// The register address encoded in a read or write opcode.
pub open spec fn reg_addr(op: u8) -> u8 {
    op & 0x1F
}

/// The byte answered at payload position `j` (after the status byte) of
/// a transaction with opcode `op`, from state `s`.
pub open spec fn resp_byte(s: ChipState, op: u8, j: int) -> u8 {
    if is_r_register(op) {
        s.reg_byte(reg_addr(op), j)
    } else if op == R_RX_PAYLOAD {
        s.rx_head_byte(j)
    } else if op == R_RX_PL_WID {
        if j == 0 {
            s.reported_width()
        } else {
            0
        }
    } else {
        0
    }
}

/// The byte answered at position `i` of a transaction with opcode `op`:
/// the status byte first, then the opcode's payload bytes.
pub open spec fn resp_byte_at(s: ChipState, op: u8, i: int) -> u8 {
    if i == 0 {
        s.status_byte()
    } else {
        resp_byte(s, op, i - 1)
    }
}

/// Everything the chip answers to one transaction, as many bytes as were
/// sent.
pub open spec fn chip_resp(s: ChipState, sent: Seq<u8>) -> Seq<u8> {
    Seq::new(sent.len(), |i: int| resp_byte_at(s, op_of(sent), i))
}

/// The state after one transaction.
pub open spec fn chip_next(s: ChipState, sent: Seq<u8>) -> ChipState {
    let op = op_of(sent);
    if is_w_register(op) {
        s.write_reg(reg_addr(op), sent.skip(1))
    } else if op == R_RX_PAYLOAD {
        ChipState {
            rx_fifo: if s.rx_fifo.len() == 0 {
                s.rx_fifo
            } else {
                s.rx_fifo.remove(0)
            },
            width_override: None,
            ..s
        }
    } else if op == W_TX_PAYLOAD {
        ChipState {
            tx_fifo: if s.tx_fifo.len() < 3 {
                s.tx_fifo.push(sent.skip(1))
            } else {
                s.tx_fifo
            },
            ..s
        }
    } else if op == FLUSH_TX {
        ChipState { tx_fifo: seq![], ..s }
    } else if op == FLUSH_RX {
        ChipState { rx_fifo: seq![], width_override: None, ..s }
    } else {
        s
    }
}

/// The state after the enable pin rises. In transmit mode with a waiting
/// payload this triggers a send: with a remote acknowledgement the
/// payload leaves and the data-sent flag rises, without one the payload
/// stays stuck and the max-retries flag rises.
pub open spec fn chip_ce_high(s: ChipState) -> ChipState {
    let s1 = ChipState { ce: true, ..s };
    if s.regs[CONFIG as int] & PRIM_RX == 0 && s.tx_fifo.len() > 0 {
        if s.remote_ack {
            ChipState {
                tx_fifo: s1.tx_fifo.remove(0),
                regs: s1.regs.update(STATUS as int, s1.regs[STATUS as int] | TX_DS),
                ..s1
            }
        } else {
            ChipState {
                regs: s1.regs.update(STATUS as int, s1.regs[STATUS as int] | MAX_RT),
                ..s1
            }
        }
    } else {
        s1
    }
}

/// The state after the enable pin falls.
pub open spec fn chip_ce_low(s: ChipState) -> ChipState {
    ChipState { ce: false, ..s }
}

/// Whether a packet arriving over the air on `pipe` is accepted: the
/// chip must be enabled, in receive mode, the pipe enabled, and the
/// receive FIFO not full.
pub open spec fn can_inject(s: ChipState, pipe: u8) -> bool {
    &&& s.ce
    &&& s.regs[CONFIG as int] & PRIM_RX != 0
    &&& s.regs[EN_RXADDR as int] & (1u8 << pipe) != 0
    &&& s.rx_fifo.len() < 3
}

/// The state after a packet arrives over the air: accepted packets join
/// the receive FIFO and raise the data-ready flag, others vanish.
pub open spec fn chip_inject(s: ChipState, pipe: u8, data: Seq<u8>) -> ChipState {
    if can_inject(s, pipe) {
        ChipState {
            rx_fifo: s.rx_fifo.push(RxPacket { pipe, data }),
            regs: s.regs.update(STATUS as int, s.regs[STATUS as int] | RX_DR),
            ..s
        }
    } else {
        s
    }
}

/// One driver-side action applied to the chip; a delay changes nothing.
pub open spec fn chip_act(s: ChipState, a: Action) -> ChipState {
    match a {
        Action::Cmd { sent } => chip_next(s, sent),
        Action::CeHigh => chip_ce_high(s),
        Action::CeLow => chip_ce_low(s),
        Action::Delay { us } => s,
    }
}

/// A whole command sequence applied to the chip, left to right.
pub open spec fn chip_run(s: ChipState, acts: Seq<Action>) -> ChipState
    decreases acts.len(),
{
    if acts.len() == 0 {
        s
    } else {
        chip_run(chip_act(s, acts[0]), acts.skip(1))
    }
}

/// Opcode arithmetic for a register address.
proof fn lemma_reg_opcodes(a: u8)
    by (bit_vector)
    requires
        a < 0x20,
    ensures
        (0x20u8 | a) & 0xE0 == 0x20,
        (0x20u8 | a) & 0x1F == a,
        (0x00u8 | a) & 0xE0 == 0x00,
        (0x00u8 | a) & 0x1F == a,
{
}

/// Clearing already-cleared flags changes nothing.
proof fn lemma_clear_twice(x: u8)
    by (bit_vector)
    ensures
        (x & !(0x70u8 & 0x70)) & !(0x70u8 & 0x70) == x & !(0x70u8 & 0x70),
{
}

/// The status-clearing write is idempotent on the chip: after one clear,
/// a second identical clear-mask write leaves the whole state — the
/// pending flags included — exactly as it was.
pub proof fn lemma_reset_status_idempotent(s: ChipState)
    requires
        s.regs.len() == 32,
    ensures
        chip_next(chip_next(s, w_reg_cmd(STATUS, STATUS_CLEAR)), w_reg_cmd(STATUS, STATUS_CLEAR))
            == chip_next(s, w_reg_cmd(STATUS, STATUS_CLEAR)),
{
    let sent = w_reg_cmd(STATUS, STATUS_CLEAR);
    lemma_reg_opcodes(STATUS);
    assert(op_of(sent) == (0x20u8 | STATUS));
    assert(sent.skip(1) =~= seq![STATUS_CLEAR]);
    let s1 = chip_next(s, sent);
    let s2 = chip_next(s1, sent);
    lemma_clear_twice(s.regs[STATUS as int]);
    assert(s2.regs =~= s1.regs);
    assert(s2 =~~= s1);
}

/// Status-byte packing: the flag bits and the pipe field read back
/// exactly as they were packed, provided the stored flags keep to their
/// three bits, the pipe value to three bits and the FIFO bit to one.
proof fn lemma_status_fields(f: u8, p: u8, t: u8)
    by (bit_vector)
    requires
        f & 0x8F == 0,
        p <= 7,
        t <= 1,
    ensures
        (((f | (p << 1)) | t) & 0x40 != 0) == (f & 0x40 != 0),
        (((f | (p << 1)) | t) & 0x20 != 0) == (f & 0x20 != 0),
        (((f | (p << 1)) | t) & 0x10 != 0) == (f & 0x10 != 0),
        (((f | (p << 1)) | t) & 0x0E) >> 1 == p,
{
}

/// What the status byte reports while the data-ready flag stands: the
/// pipe field names exactly the receive-FIFO head, the field reads
/// `PIPE_EMPTY` exactly when the FIFO is empty, and the decoded
/// available pipe is none exactly in that empty case.
pub proof fn lemma_available_pipe_reports_fifo_head(s: ChipState)
    requires
        s.regs[STATUS as int] & !STATUS_CLEAR == 0,
        s.rx_fifo.len() > 0 ==> s.rx_fifo[0].pipe <= 5,
        st_data_ready(s.status_byte()),
    ensures
        (spec_available_pipe(s.status_byte()) is None) <==> (st_pipe(s.status_byte())
            == PIPE_EMPTY),
        s.rx_fifo.len() == 0 ==> spec_available_pipe(s.status_byte()) is None,
        s.rx_fifo.len() > 0 ==> spec_available_pipe(s.status_byte()) == Some(s.rx_fifo[0].pipe),
{
    let f = s.regs[STATUS as int];
    assert(f & 0x8F == 0) by (bit_vector)
        requires
            f & !(0x70u8) == 0,
    ;
    lemma_status_fields(f, s.rx_p_no(), s.tx_full_bit());
}

/// Applying a configuration leaves the channel register holding exactly
/// the configured channel, and the read-back that ends the sequence
/// answers exactly that value: for every valid channel, apply followed
/// by a channel read-back returns the same value.
#[verifier::rlimit(80)]
pub proof fn lemma_apply_roundtrip(s: ChipState, c: NrfConfig)
    requires
        s.regs.len() == 32,
        c.wf(),
    ensures
        chip_run(s, apply_acts(c)).regs[RF_CH as int] == c.channel,
        chip_resp(chip_run(s, apply_acts(c).take(8)), r_reg_cmd(RF_CH))[1] == c.channel,
{
    reveal_with_fuel(chip_run, 12);
    let acts = apply_acts(c);
    lemma_reg_opcodes(crate::registers::EN_AA);
    lemma_reg_opcodes(crate::registers::SETUP_AW);
    lemma_reg_opcodes(crate::registers::RF_SETUP);
    lemma_reg_opcodes(crate::registers::FEATURE);
    lemma_reg_opcodes(crate::registers::DYNPD);
    lemma_reg_opcodes(RF_CH);
    lemma_reg_opcodes(CONFIG);
    let s1 = chip_act(s, acts[0]);
    let s2 = chip_act(s1, acts[1]);
    let s3 = chip_act(s2, acts[2]);
    let s4 = chip_act(s3, acts[3]);
    let s5 = chip_act(s4, acts[4]);
    let s6 = chip_act(s5, acts[5]);
    let s7 = chip_act(s6, acts[6]);
    let s8 = chip_act(s7, acts[7]);
    let s9 = chip_act(s8, acts[8]);
    assert(s6.regs[RF_CH as int] == c.channel);
    assert(s8.regs[RF_CH as int] == c.channel);
    assert(s9.regs[RF_CH as int] == c.channel);
    assert(chip_run(s, acts) == s9) by {
        assert(acts.skip(1)[0] == acts[1]);
        assert(acts.skip(1).skip(1) =~= acts.skip(2));
        assert(acts.skip(2).skip(1) =~= acts.skip(3));
        assert(acts.skip(3).skip(1) =~= acts.skip(4));
        assert(acts.skip(4).skip(1) =~= acts.skip(5));
        assert(acts.skip(5).skip(1) =~= acts.skip(6));
        assert(acts.skip(6).skip(1) =~= acts.skip(7));
        assert(acts.skip(7).skip(1) =~= acts.skip(8));
        assert(acts.skip(8).skip(1) =~= acts.skip(9));
    }
    let t = acts.take(8);
    assert(chip_run(s, t) == s8) by {
        assert(t[0] == acts[0]);
        assert(t.skip(1)[0] == acts[1]);
        assert(t.skip(1).skip(1) =~= t.skip(2));
        assert(t.skip(2).skip(1) =~= t.skip(3));
        assert(t.skip(3).skip(1) =~= t.skip(4));
        assert(t.skip(4).skip(1) =~= t.skip(5));
        assert(t.skip(5).skip(1) =~= t.skip(6));
        assert(t.skip(6).skip(1) =~= t.skip(7));
        assert(t.skip(7).skip(1) =~= t.skip(8));
        assert(t.skip(8).len() == 0);
    }
    assert(chip_resp(s8, r_reg_cmd(RF_CH))[1] == resp_byte(s8, 0x00u8 | RF_CH, 0));
}

} // verus!
