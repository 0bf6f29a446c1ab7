//! The register-level driver: configuration compiler, pipe manager and the
//! transmit/receive state machine.
//!
//! Every operation's contract pins down the exact command bytes, pin edges
//! and delays it causes, as actions appended to the device's history, and
//! says how its result follows from the bytes the chip answered.

use vstd::prelude::*;

use crate::config::{spec_config_byte, spec_dynpd_byte, spec_feature_byte, config_byte, DataPipe,
    NrfConfig, PayloadSize};
use crate::device::{action_of, actions_of, ev_recv, lemma_actions_of_push, Action, BusEvent,
    RadioDevice, TransferError};
use crate::registers::{CONFIG, DYNPD, EN_AA, EN_AA_ALL, EN_RXADDR, FEATURE, FLUSH_RX, FLUSH_TX,
    MAX_PAYLOAD_SIZE, NOP, REG_SPACE, RF_CH, RF_SETUP, RX_ADDR_P0, RX_PW_P0, R_REGISTER,
    R_RX_PAYLOAD, R_RX_PL_WID, SETUP_AW, SETUP_RETR, STATUS, STATUS_CLEAR, TX_ADDR, W_REGISTER,
    W_TX_PAYLOAD};
use crate::status::{spec_available_pipe, st_data_sent, st_max_retries, StatusByte};

verus! {

broadcast use crate::device::lemma_actions_of_push, crate::device::lemma_actions_of_len;

/// Settle time after powering up, before further register access, in
/// microseconds (the chip needs at least 1.5 ms).
pub const POWER_UP_DELAY_US: u32 = 1500;

/// Settle time after raising the enable pin in receive mode, in
/// microseconds (the chip needs at least 130 us).
pub const RX_SETTLE_DELAY_US: u32 = 130;

/// Length of the enable-pin pulse that triggers a send, in microseconds
/// (the chip needs at least 10 us).
pub const TX_PULSE_DELAY_US: u32 = 10;

/// How many times a send polls for completion before giving up on a chip
/// that raises neither completion flag.
pub const MAX_POLLS: u32 = 32768;

/// The action of one bus transaction carrying these bytes.
pub open spec fn cmd(sent: Seq<u8>) -> Action {
    Action::Cmd { sent }
}

/// The command bytes of a single-byte register write.
pub open spec fn w_reg_cmd(addr: u8, value: u8) -> Seq<u8> {
    seq![W_REGISTER | addr, value]
}

/// The command bytes of a single-byte register read.
pub open spec fn r_reg_cmd(addr: u8) -> Seq<u8> {
    seq![R_REGISTER | addr, 0u8]
}

/// The command bytes of a status-only no-operation.
pub open spec fn nop_cmd() -> Seq<u8> {
    seq![NOP]
}

/// The command bytes of a receive-FIFO flush.
pub open spec fn flush_rx_cmd() -> Seq<u8> {
    seq![FLUSH_RX]
}

/// The command bytes of a transmit-FIFO flush.
pub open spec fn flush_tx_cmd() -> Seq<u8> {
    seq![FLUSH_TX]
}

/// The command bytes of a payload-width query.
pub open spec fn width_cmd() -> Seq<u8> {
    seq![R_RX_PL_WID, 0u8]
}

/// `n` zero bytes.
pub open spec fn zero_seq(n: nat) -> Seq<u8> {
    Seq::new(n, |i: int| 0u8)
}

/// The command bytes of a payload read of `n` bytes.
pub open spec fn payload_read_cmd(n: nat) -> Seq<u8> {
    seq![R_RX_PAYLOAD] + zero_seq(n)
}

/// `n` status polls.
pub open spec fn nop_acts(n: nat) -> Seq<Action> {
    Seq::new(n, |i: int| cmd(nop_cmd()))
}

/// The register writes, settle delay and read-back that apply a
/// configuration: auto-acknowledgement on all pipes, address width, data
/// rate and power, the dynamic-payload feature and per-pipe bits, the
/// channel, then the control register with the power-up bit, the settle
/// delay, and finally the channel read-back that verifies the chip
/// answered.
pub open spec fn apply_acts(c: NrfConfig) -> Seq<Action> {
    seq![
        cmd(w_reg_cmd(EN_AA, EN_AA_ALL)),
        cmd(w_reg_cmd(SETUP_AW, (c.addr_width - 2) as u8)),
        cmd(w_reg_cmd(RF_SETUP, c.data_rate.spec_bits() | c.pa_level.spec_bits())),
        cmd(w_reg_cmd(FEATURE, spec_feature_byte(c))),
        cmd(w_reg_cmd(DYNPD, spec_dynpd_byte(c))),
        cmd(w_reg_cmd(RF_CH, c.channel)),
        cmd(w_reg_cmd(CONFIG, spec_config_byte(c, true, false))),
        Action::Delay { us: POWER_UP_DELAY_US },
        cmd(r_reg_cmd(RF_CH)),
    ]
}

/// The address length `open_reading_pipe` demands: the configured width
/// for pipes 0 and 1, one trailing byte for pipes 2 to 5.
pub open spec fn expected_addr_len(c: NrfConfig, p: u8) -> nat {
    if p <= 1 {
        c.addr_width as nat
    } else {
        1
    }
}

/// The commands that open a reading pipe: write its address register,
/// read-modify-write its enable bit (over the enable byte `en` the chip
/// answered), and in fixed payload mode write its expected length.
pub open spec fn open_pipe_acts(c: NrfConfig, p: u8, address: Seq<u8>, en: u8) -> Seq<Action> {
    seq![
        cmd(seq![W_REGISTER | ((RX_ADDR_P0 + p) as u8)] + address),
        cmd(r_reg_cmd(EN_RXADDR)),
        cmd(w_reg_cmd(EN_RXADDR, en | (1u8 << p))),
    ] + match c.payload_size {
        PayloadSize::Fixed(n) => seq![cmd(w_reg_cmd(((RX_PW_P0 + p) as u8), n))],
        PayloadSize::Dynamic => seq![],
    }
}

/// The commands that open the writing pipe: the transmit address, and the
/// same address on pipe 0 so the acknowledgement can be received.
pub open spec fn open_writing_acts(address: Seq<u8>) -> Seq<Action> {
    seq![
        cmd(seq![W_REGISTER | TX_ADDR] + address),
        cmd(seq![W_REGISTER | RX_ADDR_P0] + address),
    ]
}

/// The actions that enter receive mode: set the receive-mode bit, flush
/// the receive FIFO, raise the enable pin, and let the radio settle.
pub open spec fn start_listening_acts(c: NrfConfig) -> Seq<Action> {
    seq![
        cmd(w_reg_cmd(CONFIG, spec_config_byte(c, true, true))),
        cmd(flush_rx_cmd()),
        Action::CeHigh,
        Action::Delay { us: RX_SETTLE_DELAY_US },
    ]
}

/// The actions that leave receive mode: lower the enable pin and clear
/// the receive-mode bit.
pub open spec fn stop_listening_acts(c: NrfConfig) -> Seq<Action> {
    seq![Action::CeLow, cmd(w_reg_cmd(CONFIG, spec_config_byte(c, true, false)))]
}

/// The actions that hand a payload to the chip and trigger the send:
/// lower the enable pin, write the payload into the transmit FIFO, pulse
/// the enable pin high, lower it again.
pub open spec fn tx_pulse_acts(payload: Seq<u8>) -> Seq<Action> {
    seq![
        Action::CeLow,
        cmd(seq![W_TX_PAYLOAD] + payload),
        Action::CeHigh,
        Action::Delay { us: TX_PULSE_DELAY_US },
        Action::CeLow,
    ]
}

/// Driver for one transceiver. It exclusively owns its device — the bus
/// handle, the enable pin and the delay service — for its whole lifetime;
/// no other code may issue transactions on that bus.
pub struct Nrf24l01<D: RadioDevice> {
    /// The host-platform port. Public so that a host can reach the
    /// platform handle behind it (a simulator, for one, is driven from
    /// here); the contracts constrain only the recorded history.
    pub device: D,
    /// The configuration applied last.
    pub config: NrfConfig,
    /// Whether the receive-mode bit is set.
    pub prim_rx: bool,
}

impl<D: RadioDevice> Nrf24l01<D> {
    /// The device's history of everything this driver caused.
    pub open spec fn events(&self) -> Seq<BusEvent> {
        self.device.events()
    }

    /// The driver's own state is well formed.
    pub open spec fn wf(&self) -> bool {
        self.config.wf()
    }

    /// The configuration and mode bit are those of `pre`.
    pub open spec fn same_setup(&self, pre: Self) -> bool {
        self.config == pre.config && self.prim_rx == pre.prim_rx
    }

    /// Apply `config` and power the chip up, then verify the chip is
    /// answering by reading the channel back. Returns the driver on
    /// success.
    pub fn new(device: D, config: NrfConfig) -> (r: Result<Nrf24l01<D>, TransferError>)
        requires
            config.wf(),
        ensures
            !(r matches Err(TransferError::MaximumRetries)),
            r matches Ok(n) ==> ({
                let evs = n.events();
                &&& n.wf()
                &&& n.config == config
                &&& !n.prim_rx
                &&& actions_of(evs) == actions_of(device.events()) + apply_acts(config)
                &&& ev_recv(evs.last()).len() == 2
                &&& ev_recv(evs.last())[1] == config.channel
            }),
    {
        let mut n = Nrf24l01 { device, config, prim_rx: false };
        match n.apply(config) {
            Ok(u) => Ok(n),
            Err(e) => Err(e),
        }
    }

    /// One bus transaction: the opcode followed by `data`, under chip
    /// select. Returns the status byte the chip shifts out first and the
    /// remaining answered bytes, one per data byte.
    pub fn send_command(&mut self, opcode: u8, data: Vec<u8>) -> (r: Result<
        (StatusByte, Vec<u8>),
        TransferError,
    >)
        ensures
            final(self).same_setup(*old(self)),
            match r {
                Ok(p) => ({
                    let evs = final(self).events();
                    let rec = ev_recv(evs.last());
                    &&& evs == old(self).events().push(
                        BusEvent::Xfer { sent: seq![opcode] + data@, recv: rec },
                    )
                    &&& actions_of(evs) == actions_of(old(self).events())
                        + seq![cmd(seq![opcode] + data@)]
                    &&& rec.len() == 1 + data@.len()
                    &&& p.0.raw == rec[0]
                    &&& p.1@ == rec.skip(1)
                }),
                Err(e) => e == TransferError::Bus || e == TransferError::Pin,
            },
    {
        let mut sent: Vec<u8> = Vec::new();
        sent.push(opcode);
        let mut i: usize = 0;
        while i < data.len()
            invariant
                i <= data.len(),
                sent@ == seq![opcode] + data@.take(i as int),
            decreases data.len() - i,
        {
            sent.push(data[i]);
            assert(seq![opcode] + data@.take(i + 1) =~= (seq![opcode] + data@.take(i as int)).push(
                data@[i as int],
            ));
            i = i + 1;
        }
        assert(sent@ =~= seq![opcode] + data@);
        match self.device.transact(sent.as_slice()) {
            Err(e) => Err(e),
            Ok(recv) => {
                proof {
                    assert(actions_of(old(self).events()).push(cmd(sent@)) =~= actions_of(
                        old(self).events(),
                    ) + seq![cmd(sent@)]);
                }
                let st = StatusByte::new(recv[0]);
                let mut out: Vec<u8> = Vec::new();
                let mut j: usize = 1;
                while j < recv.len()
                    invariant
                        1 <= j <= recv.len(),
                        out@ == recv@.subrange(1, j as int),
                    decreases recv.len() - j,
                {
                    out.push(recv[j]);
                    assert(recv@.subrange(1, j + 1) =~= recv@.subrange(1, j as int).push(
                        recv@[j as int],
                    ));
                    j = j + 1;
                }
                assert(out@ =~= recv@.skip(1));
                Ok((st, out))
            },
        }
    }

    /// Write a single-byte register.
    pub fn write_register(&mut self, addr: u8, value: u8) -> (r: Result<StatusByte, TransferError>)
        requires
            addr < REG_SPACE,
        ensures
            final(self).same_setup(*old(self)),
            match r {
                Ok(st) => ({
                    let evs = final(self).events();
                    let rec = ev_recv(evs.last());
                    &&& evs == old(self).events().push(
                        BusEvent::Xfer { sent: w_reg_cmd(addr, value), recv: rec },
                    )
                    &&& actions_of(evs) == actions_of(old(self).events())
                        + seq![cmd(w_reg_cmd(addr, value))]
                    &&& rec.len() == 2
                    &&& st.raw == rec[0]
                }),
                Err(e) => e == TransferError::Bus || e == TransferError::Pin,
            },
    {
        let mut data: Vec<u8> = Vec::new();
        data.push(value);
        assert(seq![W_REGISTER | addr] + data@ =~= w_reg_cmd(addr, value));
        match self.send_command(W_REGISTER | addr, data) {
            Ok(p) => Ok(p.0),
            Err(e) => Err(e),
        }
    }

    /// Write a multi-byte (address) register.
    pub fn write_register_bytes(&mut self, addr: u8, bytes: &[u8]) -> (r: Result<
        StatusByte,
        TransferError,
    >)
        requires
            addr < REG_SPACE,
        ensures
            final(self).same_setup(*old(self)),
            match r {
                Ok(st) => ({
                    let evs = final(self).events();
                    let rec = ev_recv(evs.last());
                    &&& evs == old(self).events().push(
                        BusEvent::Xfer { sent: seq![W_REGISTER | addr] + bytes@, recv: rec },
                    )
                    &&& actions_of(evs) == actions_of(old(self).events())
                        + seq![cmd(seq![W_REGISTER | addr] + bytes@)]
                    &&& rec.len() == 1 + bytes@.len()
                    &&& st.raw == rec[0]
                }),
                Err(e) => e == TransferError::Bus || e == TransferError::Pin,
            },
    {
        let data = slice_to_vec(bytes);
        match self.send_command(W_REGISTER | addr, data) {
            Ok(p) => Ok(p.0),
            Err(e) => Err(e),
        }
    }

    /// Read a single-byte register.
    pub fn read_register(&mut self, addr: u8) -> (r: Result<(StatusByte, u8), TransferError>)
        requires
            addr < REG_SPACE,
        ensures
            final(self).same_setup(*old(self)),
            match r {
                Ok(p) => ({
                    let evs = final(self).events();
                    let rec = ev_recv(evs.last());
                    &&& evs == old(self).events().push(
                        BusEvent::Xfer { sent: r_reg_cmd(addr), recv: rec },
                    )
                    &&& actions_of(evs) == actions_of(old(self).events())
                        + seq![cmd(r_reg_cmd(addr))]
                    &&& rec.len() == 2
                    &&& p.0.raw == rec[0]
                    &&& p.1 == rec[1]
                }),
                Err(e) => e == TransferError::Bus || e == TransferError::Pin,
            },
    {
        let mut data: Vec<u8> = Vec::new();
        data.push(0);
        assert(seq![R_REGISTER | addr] + data@ =~= r_reg_cmd(addr));
        match self.send_command(R_REGISTER | addr, data) {
            Ok(p) => {
                let (st, out) = p;
                Ok((st, out[0]))
            },
            Err(e) => Err(e),
        }
    }

    /// Read the status byte alone, through the no-operation opcode.
    pub fn status(&mut self) -> (r: Result<StatusByte, TransferError>)
        ensures
            final(self).same_setup(*old(self)),
            match r {
                Ok(st) => ({
                    let evs = final(self).events();
                    let rec = ev_recv(evs.last());
                    &&& evs == old(self).events().push(
                        BusEvent::Xfer { sent: nop_cmd(), recv: rec },
                    )
                    &&& actions_of(evs) == actions_of(old(self).events()) + seq![cmd(nop_cmd())]
                    &&& rec.len() == 1
                    &&& st.raw == rec[0]
                }),
                Err(e) => e == TransferError::Bus || e == TransferError::Pin,
            },
    {
        let data: Vec<u8> = Vec::new();
        assert(seq![NOP] + data@ =~= nop_cmd());
        match self.send_command(NOP, data) {
            Ok(p) => Ok(p.0),
            Err(e) => Err(e),
        }
    }

    /// Flush the receive FIFO.
    pub fn flush_rx(&mut self) -> (r: Result<StatusByte, TransferError>)
        ensures
            final(self).same_setup(*old(self)),
            match r {
                Ok(st) => ({
                    let evs = final(self).events();
                    &&& evs == old(self).events().push(
                        BusEvent::Xfer { sent: flush_rx_cmd(), recv: ev_recv(evs.last()) },
                    )
                    &&& actions_of(evs) == actions_of(old(self).events())
                        + seq![cmd(flush_rx_cmd())]
                }),
                Err(e) => e == TransferError::Bus || e == TransferError::Pin,
            },
    {
        let data: Vec<u8> = Vec::new();
        assert(seq![FLUSH_RX] + data@ =~= flush_rx_cmd());
        match self.send_command(FLUSH_RX, data) {
            Ok(p) => Ok(p.0),
            Err(e) => Err(e),
        }
    }

    /// Flush the transmit FIFO.
    pub fn flush_tx(&mut self) -> (r: Result<StatusByte, TransferError>)
        ensures
            final(self).same_setup(*old(self)),
            match r {
                Ok(st) => ({
                    let evs = final(self).events();
                    &&& evs == old(self).events().push(
                        BusEvent::Xfer { sent: flush_tx_cmd(), recv: ev_recv(evs.last()) },
                    )
                    &&& actions_of(evs) == actions_of(old(self).events())
                        + seq![cmd(flush_tx_cmd())]
                }),
                Err(e) => e == TransferError::Bus || e == TransferError::Pin,
            },
    {
        let data: Vec<u8> = Vec::new();
        assert(seq![FLUSH_TX] + data@ =~= flush_tx_cmd());
        match self.send_command(FLUSH_TX, data) {
            Ok(p) => Ok(p.0),
            Err(e) => Err(e),
        }
    }
}

impl<D: RadioDevice> Nrf24l01<D> {
    /// Raise the chip-enable pin.
    fn dev_ce_high(&mut self) -> (r: Result<(), TransferError>)
        ensures
            final(self).same_setup(*old(self)),
            match r {
                Ok(u) => ({
                    let evs = final(self).events();
                    &&& evs == old(self).events().push(BusEvent::CeHigh)
                    &&& actions_of(evs) == actions_of(old(self).events()) + seq![Action::CeHigh]
                }),
                Err(e) => e == TransferError::Pin,
            },
    {
        let r = self.device.ce_high();
        proof {
            if r is Ok {
                lemma_actions_of_push(old(self).events(), BusEvent::CeHigh);
                assert(actions_of(old(self).events()).push(Action::CeHigh) =~= actions_of(
                    old(self).events(),
                ) + seq![Action::CeHigh]);
            }
        }
        r
    }

    /// Lower the chip-enable pin.
    fn dev_ce_low(&mut self) -> (r: Result<(), TransferError>)
        ensures
            final(self).same_setup(*old(self)),
            match r {
                Ok(u) => ({
                    let evs = final(self).events();
                    &&& evs == old(self).events().push(BusEvent::CeLow)
                    &&& actions_of(evs) == actions_of(old(self).events()) + seq![Action::CeLow]
                }),
                Err(e) => e == TransferError::Pin,
            },
    {
        let r = self.device.ce_low();
        proof {
            if r is Ok {
                lemma_actions_of_push(old(self).events(), BusEvent::CeLow);
                assert(actions_of(old(self).events()).push(Action::CeLow) =~= actions_of(
                    old(self).events(),
                ) + seq![Action::CeLow]);
            }
        }
        r
    }

    /// Wait for at least `us` microseconds.
    fn dev_delay_us(&mut self, us: u32)
        ensures
            final(self).same_setup(*old(self)),
            final(self).events() == old(self).events().push(BusEvent::Delay { us }),
            actions_of(final(self).events()) == actions_of(old(self).events())
                + seq![Action::Delay { us }],
    {
        self.device.delay_us(us);
        proof {
            lemma_actions_of_push(old(self).events(), BusEvent::Delay { us });
            assert(actions_of(old(self).events()).push(Action::Delay { us }) =~= actions_of(
                old(self).events(),
            ) + seq![Action::Delay { us }]);
        }
    }

    /// Apply a validated configuration: write every configuration
    /// register, power the chip up out of power-down, wait for the settle
    /// time, then read the channel back and compare. A mismatch is a
    /// communication error — this read-back is also what `is_connected`
    /// builds on.
    #[verifier::rlimit(40)]
    pub fn apply(&mut self, config: NrfConfig) -> (r: Result<(), TransferError>)
        requires
            config.wf(),
        ensures
            final(self).config == config,
            !final(self).prim_rx,
            final(self).wf(),
            !(r matches Err(TransferError::MaximumRetries)),
            ((r is Ok) || (r matches Err(TransferError::Communication))) ==> ({
                let evs = final(self).events();
                &&& actions_of(evs) == actions_of(old(self).events()) + apply_acts(config)
                &&& ev_recv(evs.last()).len() == 2
                &&& ((r is Ok) <==> ev_recv(evs.last())[1] == config.channel)
            }),
    {
        self.config = config;
        self.prim_rx = false;
        let ghost a0 = actions_of(old(self).events());
        match self.write_register(EN_AA, EN_AA_ALL) {
            Ok(s) => s,
            Err(e) => return Err(e),
        };
        proof {
            assert(actions_of(self.events()) =~= a0 + apply_acts(config).take(1));
        }
        match self.write_register(SETUP_AW, config.addr_width - 2) {
            Ok(s) => s,
            Err(e) => return Err(e),
        };
        proof {
            assert(actions_of(self.events()) =~= a0 + apply_acts(config).take(2));
        }
        let rf = self.config.data_rate.bits() | self.config.pa_level.bits();
        match self.write_register(RF_SETUP, rf) {
            Ok(s) => s,
            Err(e) => return Err(e),
        };
        proof {
            assert(actions_of(self.events()) =~= a0 + apply_acts(config).take(3));
        }
        let feature = if self.config.is_dynamic() {
            crate::registers::FEATURE_EN_DPL
        } else {
            0
        };
        match self.write_register(FEATURE, feature) {
            Ok(s) => s,
            Err(e) => return Err(e),
        };
        proof {
            assert(actions_of(self.events()) =~= a0 + apply_acts(config).take(4));
        }
        let dynpd = if self.config.is_dynamic() {
            crate::registers::DYNPD_ALL
        } else {
            0
        };
        match self.write_register(DYNPD, dynpd) {
            Ok(s) => s,
            Err(e) => return Err(e),
        };
        proof {
            assert(actions_of(self.events()) =~= a0 + apply_acts(config).take(5));
        }
        match self.write_register(RF_CH, config.channel) {
            Ok(s) => s,
            Err(e) => return Err(e),
        };
        proof {
            assert(actions_of(self.events()) =~= a0 + apply_acts(config).take(6));
        }
        let cb = config_byte(&self.config, true, false);
        match self.write_register(CONFIG, cb) {
            Ok(s) => s,
            Err(e) => return Err(e),
        };
        proof {
            assert(actions_of(self.events()) =~= a0 + apply_acts(config).take(7));
        }
        self.dev_delay_us(POWER_UP_DELAY_US);
        proof {
            assert(actions_of(self.events()) =~= a0 + apply_acts(config).take(8));
        }
        let p = match self.read_register(RF_CH) {
            Ok(p) => p,
            Err(e) => return Err(e),
        };
        proof {
            assert(actions_of(self.events()) =~= a0 + apply_acts(config));
        }
        if p.1 == config.channel {
            Ok(())
        } else {
            Err(TransferError::Communication)
        }
    }

    /// Whether a chip is answering on the bus: write the configured
    /// channel and declare the chip connected exactly when it reads back.
    pub fn is_connected(&mut self) -> (r: Result<bool, TransferError>)
        ensures
            final(self).same_setup(*old(self)),
            match r {
                Ok(b) => ({
                    let evs = final(self).events();
                    &&& actions_of(evs) == actions_of(old(self).events()) + seq![
                        cmd(w_reg_cmd(RF_CH, old(self).config.channel)),
                        cmd(r_reg_cmd(RF_CH)),
                    ]
                    &&& ev_recv(evs.last()).len() == 2
                    &&& b == (ev_recv(evs.last())[1] == old(self).config.channel)
                }),
                Err(e) => e == TransferError::Bus || e == TransferError::Pin,
            },
    {
        let ch = self.config.channel;
        match self.write_register(RF_CH, ch) {
            Ok(s) => s,
            Err(e) => return Err(e),
        };
        let p = match self.read_register(RF_CH) {
            Ok(p) => p,
            Err(e) => return Err(e),
        };
        proof {
            assert(actions_of(self.events()) =~= actions_of(old(self).events()) + seq![
                cmd(w_reg_cmd(RF_CH, old(self).config.channel)),
                cmd(r_reg_cmd(RF_CH)),
            ]);
        }
        Ok(p.1 == ch)
    }

    /// Configure the hardware auto-retry policy: `delay_steps` steps of
    /// 250 us between retries, and `count` retries, each 0 to 15. Must be
    /// applied before any transmit.
    pub fn set_retries(&mut self, delay_steps: u8, count: u8) -> (r: Result<(), TransferError>)
        requires
            delay_steps <= 15,
            count <= 15,
        ensures
            final(self).same_setup(*old(self)),
            match r {
                Ok(u) => actions_of(final(self).events()) == actions_of(old(self).events())
                    + seq![cmd(w_reg_cmd(SETUP_RETR, (delay_steps * 16 + count) as u8))],
                Err(e) => e == TransferError::Bus || e == TransferError::Pin,
            },
    {
        let v: u8 = delay_steps * 16 + count;
        match self.write_register(SETUP_RETR, v) {
            Ok(s) => Ok(()),
            Err(e) => Err(e),
        }
    }

    /// Clear the data-ready, data-sent and max-retries flags by writing
    /// ones to the clear-on-write status register; this also deasserts
    /// the hardware interrupt line. Call once after each interrupt
    /// service, after all available pipes have been drained. Every call
    /// issues the same clear-mask write, so a repeated call has no
    /// further effect on pending flags (`chip::lemma_reset_status_idempotent`).
    pub fn reset_status(&mut self) -> (r: Result<(), TransferError>)
        ensures
            final(self).same_setup(*old(self)),
            match r {
                Ok(u) => actions_of(final(self).events()) == actions_of(old(self).events())
                    + seq![cmd(w_reg_cmd(STATUS, STATUS_CLEAR))],
                Err(e) => e == TransferError::Bus || e == TransferError::Pin,
            },
    {
        match self.write_register(STATUS, STATUS_CLEAR) {
            Ok(s) => Ok(()),
            Err(e) => Err(e),
        }
    }

    /// Open a reading pipe. Pipes 0 and 1 take a full address of the
    /// configured width; pipes 2 to 5 take exactly their one trailing
    /// byte, inheriting the rest from pipe 1. Any other length is a
    /// communication error, refused before anything reaches the bus.
    pub fn open_reading_pipe(&mut self, pipe: DataPipe, address: &[u8]) -> (r: Result<
        (),
        TransferError,
    >)
        requires
            old(self).wf(),
        ensures
            final(self).same_setup(*old(self)),
            !(r matches Err(TransferError::MaximumRetries)),
            (address@.len() != expected_addr_len(old(self).config, pipe.spec_index())) <==> (
            r matches Err(TransferError::Communication)),
            (r matches Err(TransferError::Communication)) ==> final(self).events() == old(self).events(),
            (r is Ok) ==> ({
                let evs = final(self).events();
                let n = old(self).events().len() as int;
                &&& ev_recv(evs[n + 1]).len() == 2
                &&& actions_of(evs) == actions_of(old(self).events()) + open_pipe_acts(
                    old(self).config,
                    pipe.spec_index(),
                    address@,
                    ev_recv(evs[n + 1])[1],
                )
            }),
    {
        let p = pipe.index();
        assert(p <= 5);
        let expected: usize = if p <= 1 {
            self.config.addr_width as usize
        } else {
            1
        };
        if address.len() != expected {
            return Err(TransferError::Communication);
        }
        match self.write_register_bytes(RX_ADDR_P0 + p, address) {
            Ok(s) => s,
            Err(e) => return Err(e),
        };
        let en = match self.read_register(EN_RXADDR) {
            Ok(q) => q.1,
            Err(e) => return Err(e),
        };
        let ghost evs2 = self.events();
        match self.write_register(EN_RXADDR, en | (1u8 << p)) {
            Ok(s) => s,
            Err(e) => return Err(e),
        };
        let ps = self.config.payload_size;
        match ps {
            PayloadSize::Fixed(sz) => {
                match self.write_register(RX_PW_P0 + p, sz) {
                    Ok(s) => s,
                    Err(e) => return Err(e),
                };
            },
            PayloadSize::Dynamic => {},
        }
        proof {
            let n = old(self).events().len() as int;
            assert(self.events()[n + 1] == evs2.last());
            assert(actions_of(self.events()) =~= actions_of(old(self).events()) + open_pipe_acts(
                old(self).config,
                pipe.spec_index(),
                address@,
                ev_recv(self.events()[n + 1])[1],
            ));
        }
        Ok(())
    }

    /// Open the writing pipe: write the transmit address, and the same
    /// address on reading pipe 0 so the chip can receive the hardware
    /// acknowledgement on the pipe it transmitted from. The address must
    /// have the configured width.
    pub fn open_writing_pipe(&mut self, address: &[u8]) -> (r: Result<(), TransferError>)
        requires
            old(self).wf(),
        ensures
            final(self).same_setup(*old(self)),
            !(r matches Err(TransferError::MaximumRetries)),
            (address@.len() != old(self).config.addr_width as nat) <==> (r matches Err(
                TransferError::Communication,
            )),
            (r matches Err(TransferError::Communication)) ==> final(self).events() == old(self).events(),
            (r is Ok) ==> actions_of(final(self).events()) == actions_of(old(self).events())
                + open_writing_acts(address@),
    {
        if address.len() != self.config.addr_width as usize {
            return Err(TransferError::Communication);
        }
        match self.write_register_bytes(TX_ADDR, address) {
            Ok(s) => s,
            Err(e) => return Err(e),
        };
        match self.write_register_bytes(RX_ADDR_P0, address) {
            Ok(s) => s,
            Err(e) => return Err(e),
        };
        proof {
            assert(actions_of(self.events()) =~= actions_of(old(self).events())
                + open_writing_acts(address@));
        }
        Ok(())
    }

    /// Enter receive mode: set the receive-mode bit, flush the receive
    /// FIFO, raise the enable pin and let the radio settle.
    pub fn start_listening(&mut self) -> (r: Result<(), TransferError>)
        requires
            old(self).wf(),
        ensures
            final(self).config == old(self).config,
            final(self).wf(),
            !(r matches Err(TransferError::MaximumRetries)),
            !(r matches Err(TransferError::Communication)),
            (r is Ok) ==> final(self).prim_rx && actions_of(final(self).events()) == actions_of(
                old(self).events(),
            ) + start_listening_acts(old(self).config),
            !(r is Ok) ==> final(self).prim_rx == old(self).prim_rx,
    {
        let cb = config_byte(&self.config, true, true);
        match self.write_register(CONFIG, cb) {
            Ok(s) => s,
            Err(e) => return Err(e),
        };
        match self.flush_rx() {
            Ok(s) => s,
            Err(e) => return Err(e),
        };
        match self.dev_ce_high() {
            Ok(u) => {},
            Err(e) => return Err(e),
        };
        self.dev_delay_us(RX_SETTLE_DELAY_US);
        self.prim_rx = true;
        proof {
            assert(actions_of(self.events()) =~= actions_of(old(self).events())
                + start_listening_acts(old(self).config));
        }
        Ok(())
    }

    /// Leave receive mode: lower the enable pin and clear the
    /// receive-mode bit.
    pub fn stop_listening(&mut self) -> (r: Result<(), TransferError>)
        requires
            old(self).wf(),
        ensures
            final(self).config == old(self).config,
            final(self).wf(),
            !(r matches Err(TransferError::MaximumRetries)),
            !(r matches Err(TransferError::Communication)),
            (r is Ok) ==> !final(self).prim_rx && actions_of(final(self).events()) == actions_of(
                old(self).events(),
            ) + stop_listening_acts(old(self).config),
            !(r is Ok) ==> final(self).prim_rx == old(self).prim_rx,
    {
        match self.dev_ce_low() {
            Ok(u) => {},
            Err(e) => return Err(e),
        };
        let cb = config_byte(&self.config, true, false);
        match self.write_register(CONFIG, cb) {
            Ok(s) => s,
            Err(e) => return Err(e),
        };
        self.prim_rx = false;
        proof {
            assert(actions_of(self.events()) =~= actions_of(old(self).events())
                + stop_listening_acts(old(self).config));
        }
        Ok(())
    }

    /// Which pipe holds the next available payload, read from the status
    /// byte: the pipe field when the data-ready flag is set and the field
    /// names a pipe, and none when the field reports the FIFO empty. Each
    /// call reflects only the current FIFO head, never a count: call
    /// repeatedly until it returns none.
    pub fn data_available_on_pipe(&mut self) -> (r: Result<Option<DataPipe>, TransferError>)
        ensures
            final(self).same_setup(*old(self)),
            match r {
                Ok(o) => ({
                    let evs = final(self).events();
                    &&& actions_of(evs) == actions_of(old(self).events()) + seq![cmd(nop_cmd())]
                    &&& ev_recv(evs.last()).len() == 1
                    &&& o == spec_available_datapipe(ev_recv(evs.last())[0])
                }),
                Err(e) => e == TransferError::Bus || e == TransferError::Pin,
            },
    {
        let st = match self.status() {
            Ok(s) => s,
            Err(e) => return Err(e),
        };
        match st.available_pipe() {
            Some(p) => Ok(Some(DataPipe::from_index(p))),
            None => Ok(None),
        }
    }

    /// Whether any pipe holds an available payload.
    pub fn data_available(&mut self) -> (r: Result<bool, TransferError>)
        ensures
            final(self).same_setup(*old(self)),
            match r {
                Ok(b) => ({
                    let evs = final(self).events();
                    &&& actions_of(evs) == actions_of(old(self).events()) + seq![cmd(nop_cmd())]
                    &&& ev_recv(evs.last()).len() == 1
                    &&& b == (spec_available_datapipe(ev_recv(evs.last())[0]) is Some)
                }),
                Err(e) => e == TransferError::Bus || e == TransferError::Pin,
            },
    {
        match self.data_available_on_pipe() {
            Ok(o) => Ok(o.is_some()),
            Err(e) => Err(e),
        }
    }

    /// Read the payload at the head of the receive FIFO into `buf`,
    /// replacing its contents, and return its length. In fixed payload
    /// mode the configured length is read. In dynamic mode the chip is
    /// first asked for the width; a reported width over the hardware
    /// maximum is a communication error, and the receive FIFO is flushed
    /// instead of attempting an oversized read.
    pub fn read(&mut self, buf: &mut Vec<u8>) -> (r: Result<u8, TransferError>)
        requires
            old(self).wf(),
        ensures
            final(self).same_setup(*old(self)),
            !(r matches Err(TransferError::MaximumRetries)),
            r matches Ok(n) ==> ({
                let evs = final(self).events();
                let rec = ev_recv(evs.last());
                &&& n <= MAX_PAYLOAD_SIZE
                &&& final(buf)@ == rec.skip(1)
                &&& final(buf)@.len() == n as nat
                &&& match old(self).config.payload_size {
                    PayloadSize::Fixed(sz) => n == sz && actions_of(evs) == actions_of(
                        old(self).events(),
                    ) + seq![cmd(payload_read_cmd(sz as nat))],
                    PayloadSize::Dynamic => actions_of(evs) == actions_of(old(self).events())
                        + seq![cmd(width_cmd()), cmd(payload_read_cmd(n as nat))] && n == ev_recv(
                        evs[old(self).events().len() as int],
                    )[1],
                }
            }),
            (r matches Err(TransferError::Communication)) ==> ({
                let evs = final(self).events();
                let n0 = old(self).events().len() as int;
                &&& old(self).config.payload_size is Dynamic
                &&& actions_of(evs) == actions_of(old(self).events()) + seq![
                    cmd(width_cmd()),
                    cmd(flush_rx_cmd()),
                ]
                &&& ev_recv(evs[n0]).len() == 2
                &&& ev_recv(evs[n0])[1] > MAX_PAYLOAD_SIZE
                &&& *final(buf) == *old(buf)
            }),
    {
        let ps = self.config.payload_size;
        match ps {
            PayloadSize::Fixed(sz) => {
                let zeros = zero_vec(sz as usize);
                match self.send_command(R_RX_PAYLOAD, zeros) {
                    Ok(p) => {
                        proof {
                            assert(seq![R_RX_PAYLOAD] + zero_seq(sz as nat) =~= payload_read_cmd(
                                sz as nat,
                            ));
                        }
                        *buf = p.1;
                        Ok(sz)
                    },
                    Err(e) => Err(e),
                }
            },
            PayloadSize::Dynamic => {
                let mut d: Vec<u8> = Vec::new();
                d.push(0);
                let wp = match self.send_command(R_RX_PL_WID, d) {
                    Ok(p) => p,
                    Err(e) => return Err(e),
                };
                proof {
                    assert(seq![R_RX_PL_WID] + seq![0u8] =~= width_cmd());
                }
                let ghost evs1 = self.events();
                let w = wp.1[0];
                if w > MAX_PAYLOAD_SIZE {
                    match self.flush_rx() {
                        Ok(s) => {
                            proof {
                                let n0 = old(self).events().len() as int;
                                assert(self.events()[n0] == evs1.last());
                                assert(actions_of(self.events()) =~= actions_of(
                                    old(self).events(),
                                ) + seq![cmd(width_cmd()), cmd(flush_rx_cmd())]);
                            }
                            Err(TransferError::Communication)
                        },
                        Err(e) => Err(e),
                    }
                } else {
                    let zeros = zero_vec(w as usize);
                    match self.send_command(R_RX_PAYLOAD, zeros) {
                        Ok(p) => {
                            proof {
                                let n0 = old(self).events().len() as int;
                                assert(seq![R_RX_PAYLOAD] + zero_seq(w as nat)
                                    =~= payload_read_cmd(w as nat));
                                assert(self.events()[n0] == evs1.last());
                                assert(actions_of(self.events()) =~= actions_of(
                                    old(self).events(),
                                ) + seq![cmd(width_cmd()), cmd(payload_read_cmd(w as nat))]);
                            }
                            *buf = p.1;
                            Ok(w)
                        },
                        Err(e) => Err(e),
                    }
                }
            },
        }
    }

    /// Send one payload: hand it to the chip, pulse the enable pin to
    /// trigger the transmit, then poll the status byte until the chip
    /// reports it sent or the auto-retry counter expired. On expiry the
    /// transmit FIFO is flushed — a stuck payload would otherwise block
    /// every later send — and the call fails with retries-exhausted. In
    /// fixed payload mode the payload must have the configured length,
    /// in dynamic mode 1 to 32 bytes. A chip that never raises either
    /// flag is reported as a communication error after a bounded number
    /// of polls.
    pub fn write(&mut self, payload: &[u8]) -> (r: Result<(), TransferError>)
        requires
            old(self).wf(),
            match old(self).config.payload_size {
                PayloadSize::Fixed(sz) => payload@.len() == sz as nat,
                PayloadSize::Dynamic => 1 <= payload@.len() <= MAX_PAYLOAD_SIZE as nat,
            },
        ensures
            final(self).same_setup(*old(self)),
            (r is Ok) ==> ({
                let evs = final(self).events();
                let pre = old(self).events();
                let n = evs.len() - pre.len() - 5;
                &&& pre.len() + 6 <= evs.len() <= pre.len() + 5 + MAX_POLLS
                &&& actions_of(evs) == actions_of(pre) + tx_pulse_acts(payload@) + nop_acts(
                    n as nat,
                )
                &&& st_data_sent(ev_recv(evs.last())[0])
            }),
            (r matches Err(TransferError::MaximumRetries)) ==> ({
                let evs = final(self).events();
                let pre = old(self).events();
                let n = evs.len() - pre.len() - 6;
                &&& pre.len() + 7 <= evs.len() <= pre.len() + 6 + MAX_POLLS
                &&& actions_of(evs) == actions_of(pre) + tx_pulse_acts(payload@) + nop_acts(
                    n as nat,
                ) + seq![cmd(flush_tx_cmd())]
                &&& st_max_retries(ev_recv(evs[evs.len() - 2])[0])
                &&& !st_data_sent(ev_recv(evs[evs.len() - 2])[0])
            }),
            (r matches Err(TransferError::Communication)) ==> actions_of(final(self).events())
                == actions_of(old(self).events()) + tx_pulse_acts(payload@) + nop_acts(
                MAX_POLLS as nat,
            ),
    {
        match self.dev_ce_low() {
            Ok(u) => {},
            Err(e) => return Err(e),
        };
        let data = slice_to_vec(payload);
        match self.send_command(W_TX_PAYLOAD, data) {
            Ok(p) => {},
            Err(e) => return Err(e),
        };
        match self.dev_ce_high() {
            Ok(u) => {},
            Err(e) => return Err(e),
        };
        self.dev_delay_us(TX_PULSE_DELAY_US);
        match self.dev_ce_low() {
            Ok(u) => {},
            Err(e) => return Err(e),
        };
        let ghost pulse_done = self.events();
        proof {
            assert(actions_of(pulse_done) =~= actions_of(old(self).events()) + tx_pulse_acts(
                payload@,
            ));
            assert(nop_acts(0) =~= Seq::<Action>::empty());
            assert(actions_of(pulse_done) + nop_acts(0) =~= actions_of(pulse_done));
        }
        let mut polls: u32 = 0;
        while polls < MAX_POLLS
            invariant
                self.config == old(self).config,
                self.prim_rx == old(self).prim_rx,
                polls <= MAX_POLLS,
                pulse_done.len() == old(self).events().len() + 5,
                actions_of(pulse_done) == actions_of(old(self).events()) + tx_pulse_acts(payload@),
                self.events().len() == pulse_done.len() + polls,
                actions_of(self.events()) == actions_of(pulse_done) + nop_acts(polls as nat),
            decreases MAX_POLLS - polls,
        {
            let st = match self.status() {
                Ok(s) => s,
                Err(e) => return Err(e),
            };
            proof {
                assert((actions_of(pulse_done) + nop_acts(polls as nat)) + seq![cmd(nop_cmd())]
                    =~= actions_of(pulse_done) + nop_acts((polls + 1) as nat));
            }
            if st.data_sent() {
                proof {
                    assert(actions_of(self.events()) =~= actions_of(old(self).events())
                        + tx_pulse_acts(payload@) + nop_acts((polls + 1) as nat));
                }
                return Ok(());
            }
            if st.reached_max_retries() {
                let ghost before_flush = self.events();
                match self.flush_tx() {
                    Ok(s2) => {},
                    Err(e) => return Err(e),
                };
                proof {
                    assert(self.events()[self.events().len() - 2] == before_flush.last());
                    assert(actions_of(self.events()) =~= actions_of(old(self).events())
                        + tx_pulse_acts(payload@) + nop_acts((polls + 1) as nat) + seq![
                        cmd(flush_tx_cmd()),
                    ]);
                }
                return Err(TransferError::MaximumRetries);
            }
            polls = polls + 1;
        }
        Err(TransferError::Communication)
    }
}

/// The pipe a status byte reports data on, as a pipe identity.
pub open spec fn spec_available_datapipe(s: u8) -> Option<DataPipe> {
    match spec_available_pipe(s) {
        Some(p) => Some(DataPipe::spec_from_index(p)),
        None => None,
    }
}

/// Copy a slice into a vector.
fn slice_to_vec(s: &[u8]) -> (v: Vec<u8>)
    ensures
        v@ == s@,
{
    let mut v: Vec<u8> = Vec::new();
    let mut i: usize = 0;
    while i < s.len()
        invariant
            i <= s@.len(),
            v@ == s@.take(i as int),
        decreases s@.len() - i,
    {
        v.push(s[i]);
        assert(s@.take(i + 1) =~= s@.take(i as int).push(s@[i as int]));
        i = i + 1;
    }
    assert(v@ =~= s@);
    v
}

} // verus!

verus! {

/// A vector of `n` zero bytes.
fn zero_vec(n: usize) -> (v: Vec<u8>)
    ensures
        v@ == zero_seq(n as nat),
{
    let mut v: Vec<u8> = Vec::new();
    let mut i: usize = 0;
    while i < n
        invariant
            i <= n,
            v@ == zero_seq(i as nat),
        decreases n - i,
    {
        v.push(0);
        assert(zero_seq(i as nat).push(0u8) =~= zero_seq((i + 1) as nat));
        i = i + 1;
    }
    v
}

} // verus!

verus! {

/// Whether an action is a bus command starting with this opcode.
pub open spec fn is_cmd_op(a: Action, op: u8) -> bool {
    match a {
        Action::Cmd { sent } => sent.len() > 0 && sent[0] == op,
        _ => false,
    }
}

/// How many commands with this opcode a trace holds.
pub open spec fn count_cmd(acts: Seq<Action>, op: u8) -> nat
    decreases acts.len(),
{
    if acts.len() == 0 {
        0
    } else {
        count_cmd(acts.drop_last(), op) + (if is_cmd_op(acts.last(), op) {
            1nat
        } else {
            0nat
        })
    }
}

/// Status polls carry no command of any other opcode.
pub proof fn lemma_count_nop_acts(base: Seq<Action>, n: nat, op: u8)
    requires
        op != NOP,
    ensures
        count_cmd(base + nop_acts(n), op) == count_cmd(base, op),
    decreases n,
{
    if n == 0 {
        assert(base + nop_acts(0) =~= base);
    } else {
        assert((base + nop_acts(n)).drop_last() =~= base + nop_acts((n - 1) as nat));
        assert((base + nop_acts(n)).last() == cmd(nop_cmd()));
        assert(!is_cmd_op(cmd(nop_cmd()), op));
        lemma_count_nop_acts(base, (n - 1) as nat, op);
    }
}

/// A send that ends in retries-exhausted flushes the transmit FIFO
/// exactly once, whatever the payload and however many polls it took;
/// a successful send flushes it not at all. These are the only two
/// trace shapes `write`'s contract allows besides an aborted bus
/// transfer.
pub proof fn lemma_write_flushes_once(payload: Seq<u8>, n: nat)
    ensures
        count_cmd(tx_pulse_acts(payload) + nop_acts(n) + seq![cmd(flush_tx_cmd())], FLUSH_TX) == 1,
        count_cmd(tx_pulse_acts(payload) + nop_acts(n), FLUSH_TX) == 0,
{
    reveal_with_fuel(count_cmd, 8);
    let t = tx_pulse_acts(payload);
    let t4 = seq![
        Action::CeLow,
        cmd(seq![W_TX_PAYLOAD] + payload),
        Action::CeHigh,
        Action::Delay { us: TX_PULSE_DELAY_US },
    ];
    let t3 = seq![Action::CeLow, cmd(seq![W_TX_PAYLOAD] + payload), Action::CeHigh];
    let t2 = seq![Action::CeLow, cmd(seq![W_TX_PAYLOAD] + payload)];
    let t1 = seq![Action::CeLow];
    assert(t.drop_last() =~= t4);
    assert(t4.drop_last() =~= t3);
    assert(t3.drop_last() =~= t2);
    assert(t2.drop_last() =~= t1);
    assert(t1.drop_last() =~= Seq::<Action>::empty());
    assert((seq![W_TX_PAYLOAD] + payload)[0] == W_TX_PAYLOAD);
    assert(count_cmd(t, FLUSH_TX) == 0);
    lemma_count_nop_acts(t, n, FLUSH_TX);
    assert((t + nop_acts(n) + seq![cmd(flush_tx_cmd())]).drop_last() =~= t + nop_acts(n));
    assert(is_cmd_op(cmd(flush_tx_cmd()), FLUSH_TX));
}

} // verus!
