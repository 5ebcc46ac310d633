//! Frame exchange with Type A cards through the ST25R39xx.
//!
//! One exchange goes in three parts. [`Iso14443a::begin`] stops what the
//! chip was doing, which also empties the FIFO and clears the interrupt
//! requests, programs the chip for the frame, puts the frame into the FIFO
//! and starts the transmission. [`Iso14443a::poll`] reads the interrupt
//! requests and says how far the exchange has come; the caller repeats it,
//! giving way to other tasks in between, and gives up with
//! [`Error::Timeout`] when a stage takes longer than it may.
//! [`Iso14443a::finish`] takes the answer out of the FIFO and puts the
//! result together.
use vstd::prelude::*;
use crate::record;
use crate::anticoll;
use crate::anticoll::merge_anticoll;
use crate::traits::iso14443a_ll as ll;
use super::interface::{Interface, Op};
use super::regs;
use super::{Command, Interrupt, St25r39, FIFO_SIZE};

verus! {

/// Why an exchange failed.
#[derive(Debug, Clone, Copy, PartialEq, Eq)]
pub enum Error<T> {
    /// The register bus failed.
    Interface(T),
    /// A stage of the exchange took longer than it may.
    Timeout,
    /// The answer broke the framing rules.
    Framing,
    /// The last byte of the answer came without its parity bit.
    FramingLastByteMissingParity,
    /// The answer failed its CRC check.
    Crc,
    /// Bits of several cards collided in a frame that does not allow it.
    Collision,
    /// A byte of the answer failed its parity check.
    Parity,
    /// The answer is shorter than its CRC.
    ResponseTooShort,
    /// The answer does not fit in the caller's buffer.
    ResponseTooLong,
    /// The FIFO was given more than it holds.
    FifoOverflow,
    /// The FIFO was asked for more than it held.
    FifoUnderflow,
}

impl<T> ll::Error for Error<T> {
    open spec fn kind_of(&self) -> ll::ErrorKind {
        match self {
            Error::Timeout => ll::ErrorKind::Timeout,
            Error::Framing => ll::ErrorKind::Corruption,
            Error::FramingLastByteMissingParity => ll::ErrorKind::Corruption,
            Error::Crc => ll::ErrorKind::Corruption,
            Error::Collision => ll::ErrorKind::Corruption,
            Error::Parity => ll::ErrorKind::Corruption,
            Error::ResponseTooShort => ll::ErrorKind::Corruption,
            _ => ll::ErrorKind::Other,
        }
    }

    fn kind(&self) -> ll::ErrorKind {
        match self {
            Error::Timeout => ll::ErrorKind::Timeout,
            Error::Framing => ll::ErrorKind::Corruption,
            Error::FramingLastByteMissingParity => ll::ErrorKind::Corruption,
            Error::Crc => ll::ErrorKind::Corruption,
            Error::Collision => ll::ErrorKind::Corruption,
            Error::Parity => ll::ErrorKind::Corruption,
            Error::ResponseTooShort => ll::ErrorKind::Corruption,
            _ => ll::ErrorKind::Other,
        }
    }
}

impl<T> From<super::Error<T>> for Error<T> {
    fn from(val: super::Error<T>) -> (res: Self) {
        match val {
            super::Error::Interface(e) => Error::Interface(e),
            super::Error::Timeout => Error::Timeout,
        }
    }
}

impl<T> vstd::std_specs::convert::FromSpecImpl<super::Error<T>> for Error<T> {
    open spec fn obeys_from_spec() -> bool {
        true
    }

    open spec fn from_spec(val: super::Error<T>) -> Self {
        match val {
            super::Error::Interface(e) => Error::Interface(e),
            super::Error::Timeout => Error::Timeout,
        }
    }
}

/// Why the chip could not be set up for Type A cards.
#[derive(Debug, Clone, Copy, PartialEq, Eq)]
pub enum StartError<T> {
    /// The register bus failed.
    Interface(T),
    /// Another device has its field on.
    FieldCollision,
    /// The chip did not raise the awaited interrupt in time.
    Timeout,
}

impl<T> From<super::Error<T>> for StartError<T> {
    fn from(val: super::Error<T>) -> (res: Self) {
        match val {
            super::Error::Interface(e) => StartError::Interface(e),
            super::Error::Timeout => StartError::Timeout,
        }
    }
}

impl<T> vstd::std_specs::convert::FromSpecImpl<super::Error<T>> for StartError<T> {
    open spec fn obeys_from_spec() -> bool {
        true
    }

    open spec fn from_spec(val: super::Error<T>) -> Self {
        match val {
            super::Error::Interface(e) => StartError::Interface(e),
            super::Error::Timeout => StartError::Timeout,
        }
    }
}

/// The time allowed for the answer to a short or an anticollision frame:
/// five milliseconds, in carrier periods.
pub const SHORT_TIMEOUT_1FC: u32 = 67800;

/// The chip with its field on, set up for Type A cards.
pub struct Iso14443a<'d, I: Interface> {
    pub inner: &'d mut St25r39<I>,
}

impl<I: Interface> St25r39<I> {
    /// The chip as a reader of Type A cards. The chip is to be on and its
    /// field too, and cards may be addressed five milliseconds after the
    /// field has come on.
    pub fn start_iso14443a(&mut self) -> (reader: Iso14443a<'_, I>)
        ensures
            *reader.inner == *old(self),
            *final(self) == *final(reader.inner),
    {
        Iso14443a { inner: self }
    }
}

/// The command that sends a frame.
pub open spec fn frame_command(opts: ll::Frame) -> Command {
    match opts {
        ll::Frame::ReqA => Command::TransmitReqa,
        ll::Frame::WupA => Command::TransmitWupa,
        ll::Frame::Anticoll { .. } => Command::TransmitWithoutCrc,
        ll::Frame::Standard { .. } => Command::TransmitWithCrc,
    }
}

/// The bytes that are put into the FIFO for a frame: none for a short
/// frame, which the chip makes itself.
pub open spec fn frame_data(opts: ll::Frame, tx: Seq<u8>) -> Seq<u8> {
    match opts {
        ll::Frame::ReqA => Seq::empty(),
        ll::Frame::WupA => Seq::empty(),
        ll::Frame::Anticoll { bits } => tx.subrange(0, ll::bytes_for(bits as int)),
        ll::Frame::Standard { .. } => tx,
    }
}

/// The number of bits of a frame that are sent.
pub open spec fn frame_bits(opts: ll::Frame, tx: Seq<u8>) -> int {
    match opts {
        ll::Frame::Anticoll { bits } => bits as int,
        ll::Frame::Standard { .. } => tx.len() as int * 8,
        _ => 0,
    }
}

/// The time allowed for the answer to a frame to start, in carrier
/// periods.
pub open spec fn frame_timeout(opts: ll::Frame) -> u32 {
    match opts {
        ll::Frame::Standard { timeout_1fc } => timeout_1fc,
        _ => SHORT_TIMEOUT_1FC,
    }
}

/// Whether the answer comes without a CRC that the chip checks and counts:
/// only the answer to a standard frame has one.
pub open spec fn frame_raw(opts: ll::Frame) -> bool {
    !(opts is Standard)
}

/// The transfers that stop the chip and say how many bits are sent, behind
/// `before`.
pub open spec fn load_ops(before: Seq<Op>, opts: ll::Frame, tx: Seq<u8>) -> Seq<Op> {
    let stopped = before.push(super::sent(Command::Stop)).push(super::sent(Command::ResetRxgain));
    match opts {
        ll::Frame::ReqA => stopped,
        ll::Frame::WupA => stopped,
        _ => stopped.push(
            super::wrote(
                regs::NUM_TX_BYTES2,
                regs::NumTxBytes2((frame_bits(opts, tx) % 256) as u8),
            ),
        ).push(super::wrote(regs::NUM_TX_BYTES1, (frame_bits(opts, tx) / 256) as u8)).push(
            Op::WriteFifo { data: frame_data(opts, tx) },
        ),
    }
}

/// Every exchange starts by stopping the chip, which ends what it was
/// doing, empties the FIFO and clears the interrupt requests; the frame goes
/// into the FIFO only after that.
pub proof fn lemma_load_stops_first(before: Seq<Op>, opts: ll::Frame, tx: Seq<u8>)
    ensures
        ({
            let ops = load_ops(before, opts, tx);
            let at = before.len() as int;
            &&& ops.len() >= at + 2
            &&& ops[at] == super::sent(Command::Stop)
            &&& forall|i: int| at <= i < ops.len() && #[trigger] ops[i] is WriteFifo ==> i == at + 4
        }),
{
}

/// The transfers that set the receiver up for the answer and send the
/// frame, behind `before`. For an anticollision frame the receiver keeps
/// its gain fixed and takes bits that collide as they come.
pub open spec fn launch_ops(before: Seq<Op>, opts: ll::Frame) -> Seq<Op> {
    before.push(
        super::wrote(regs::CORR_CONF1, regs::CorrConf1(0x13).with_corr_s6(!(opts is Anticoll))),
    ).push(
        super::wrote(regs::ISO14443A_NFC, regs::Iso14443aNfc(0).with_antcl(opts is Anticoll)),
    ).push(super::wrote(regs::AUX, regs::Aux(0).with_no_crc_rx(frame_raw(opts)))).push(
        super::wrote(
            regs::RX_CONF2,
            regs::RxConf2(0).with_agc_en(!(opts is Anticoll)).with_agc_m(true).with_agc6_3(
                true,
            ).with_sqm_dyn(true),
        ),
    ).push(super::sent(frame_command(opts)))
}

/// How far an exchange has come.
#[derive(Debug, PartialEq, Eq, Clone, Copy, Structural)]
pub enum Stage {
    /// The frame is being sent.
    Sending,
    /// The frame is out and the answer has not started.
    Waiting,
    /// The answer is coming in.
    Receiving,
    /// The answer is complete.
    Received,
}

/// Where an exchange stands.
#[derive(Debug, PartialEq, Eq, Clone, Copy, Structural)]
pub struct Transfer {
    pub stage: Stage,
    /// The time allowed for the answer to start, in carrier periods.
    pub timeout_1fc: u32,
}

/// What the requests say of an answer that is coming in: a framing error
/// comes first, then parity, then the CRC, then a collision where the frame
/// does not allow one.
pub open spec fn receive_error<T>(irqs: u32, anticoll: bool) -> Option<Error<T>> {
    if super::requested(irqs, Interrupt::Err1) {
        Some(Error::Framing)
    } else if super::requested(irqs, Interrupt::Par) {
        Some(Error::Parity)
    } else if super::requested(irqs, Interrupt::Crc) {
        Some(Error::Crc)
    } else if !anticoll && super::requested(irqs, Interrupt::Col) {
        Some(Error::Collision)
    } else {
        None
    }
}

/// The stage that follows from the requests.
pub open spec fn next_stage(stage: Stage, irqs: u32) -> Stage {
    match stage {
        Stage::Sending => if super::requested(irqs, Interrupt::Txe) {
            Stage::Waiting
        } else {
            Stage::Sending
        },
        Stage::Waiting => if super::requested(irqs, Interrupt::Rxs) {
            Stage::Receiving
        } else {
            Stage::Waiting
        },
        Stage::Receiving => if super::requested(irqs, Interrupt::Rxe) {
            Stage::Received
        } else {
            Stage::Receiving
        },
        Stage::Received => Stage::Received,
    }
}

/// Whether a poll reads the status registers: always while the frame is
/// sent or the answer awaited, and while the answer comes in unless the
/// requests kept already tell an error or the end.
pub open spec fn poll_reads(stage: Stage, irqs: u32, anticoll: bool) -> bool {
    match stage {
        Stage::Sending => true,
        Stage::Waiting => true,
        Stage::Receiving => receive_error::<()>(irqs, anticoll) is None && !super::requested(
            irqs,
            Interrupt::Rxe,
        ),
        Stage::Received => false,
    }
}

/// The number of bytes in the FIFO, from its two status registers.
pub open spec fn fifo_bytes(low: u8, status: regs::FifoStatus2) -> int {
    low + status.fifo_b() * 256
}

/// What the FIFO status says against an answer.
pub open spec fn fifo_error<T>(status: regs::FifoStatus2, standard: bool) -> Option<Error<T>> {
    if status.fifo_ovr() {
        Some(Error::FifoOverflow)
    } else if status.fifo_unf() {
        Some(Error::FifoUnderflow)
    } else if status.np_lb() {
        Some(Error::FramingLastByteMissingParity)
    } else if standard && status.fifo_lb() != 0 {
        Some(Error::Framing)
    } else {
        None
    }
}

/// Reads the FIFO status.
pub fn classify_fifo<T>(status: regs::FifoStatus2, standard: bool) -> (e: Option<Error<T>>)
    ensures
        e == fifo_error::<T>(status, standard),
{
    if status.fifo_ovr() {
        Some(Error::FifoOverflow)
    } else if status.fifo_unf() {
        Some(Error::FifoUnderflow)
    } else if status.np_lb() {
        Some(Error::FramingLastByteMissingParity)
    } else if standard && status.fifo_lb() != 0 {
        Some(Error::Framing)
    } else {
        None
    }
}

/// The number of valid bits after an anticollision frame of `bits` bits to
/// which the card sent `rx_bytes` bytes: with a collision, as many as the
/// chip counted before it; without, every byte in full.
pub open spec fn anticoll_bits(
    bits: int,
    rx_bytes: int,
    collision: Option<regs::CollisionStatus>,
) -> int {
    match collision {
        Some(at) => at.c_byte() * 8 + at.c_bit(),
        None => bits / 8 * 8 + rx_bytes * 8,
    }
}

/// The number of bytes of an answer that are handed to the caller: all
/// that the FIFO holds, but for the two bytes of the CRC of the answer to a
/// standard frame.
pub open spec fn answer_bytes(low: u8, status: regs::FifoStatus2, opts: ll::Frame) -> int {
    fifo_bytes(low, status) - if opts is Standard {
        2int
    } else {
        0int
    }
}

/// Whether a buffer of `len` bytes has no room for an answer of `n` bytes
/// to the frame: after an anticollision frame the bytes of the request go
/// before the answer.
pub open spec fn no_room(opts: ll::Frame, len: int, n: int) -> bool {
    len < n || match opts {
        ll::Frame::Anticoll { bits } => bits / 8 > len - n || ll::bytes_for(bits as int) > len,
        _ => false,
    }
}

/// The transfers that take an answer out of the chip, behind `before`: the
/// status of the FIFO is read; where nothing is wrong, the answer is read
/// from the FIFO; and the place of a collision is read where there was one.
pub open spec fn finish_ops(
    before: Seq<Op>,
    opts: ll::Frame,
    len: int,
    status: regs::FifoStatus2,
    low: u8,
    data: Seq<u8>,
    collision: Option<regs::CollisionStatus>,
) -> Seq<Op> {
    let asked = before.push(super::read(regs::FIFO_STATUS2, status));
    if fifo_error::<()>(status, opts is Standard) is Some {
        asked
    } else if answer_bytes(low, status, opts) < 0 || no_room(
        opts,
        len,
        answer_bytes(low, status, opts),
    ) {
        asked.push(super::read(regs::FIFO_STATUS1, low))
    } else {
        let drained = asked.push(super::read(regs::FIFO_STATUS1, low)).push(
            Op::ReadFifo { data },
        );
        match collision {
            Some(at) => drained.push(super::read(regs::COLLISION_STATUS, at)),
            None => drained,
        }
    }
}

/// What the end of an exchange returns where the bus does not fail.
pub open spec fn finish_outcome<T>(
    opts: ll::Frame,
    len: int,
    status: regs::FifoStatus2,
    low: u8,
    collision: Option<regs::CollisionStatus>,
) -> Result<usize, Error<T>> {
    let n = answer_bytes(low, status, opts);
    if fifo_error::<T>(status, opts is Standard) is Some {
        Err(fifo_error::<T>(status, opts is Standard)->0)
    } else if n < 0 {
        Err(Error::ResponseTooShort)
    } else if no_room(opts, len, n) {
        Err(Error::ResponseTooLong)
    } else {
        match opts {
            ll::Frame::Anticoll { bits } => Ok(anticoll_bits(bits as int, n, collision) as usize),
            _ => Ok((n * 8) as usize),
        }
    }
}

impl<'d, I: Interface> Iso14443a<'d, I> {
    /// Starts an exchange.
    ///
    /// Fails with `FifoOverflow` where the frame is longer than the FIFO,
    /// and with `Interface` where the bus fails.
    pub fn begin(&mut self, tx: &[u8], opts: &ll::Frame) -> (res: Result<Transfer, Error<I::Error>>)
        requires
            opts.wf(),
            opts matches ll::Frame::Anticoll { bits } ==> tx@.len() >= ll::bytes_for(bits as int),
        ensures
            *final(final(self).inner) == *final(old(self).inner),
            final(self).inner.mode == old(self).inner.mode,
            record::extends(final(self).inner.iface.ops(), old(self).inner.iface.ops()),
            res matches Ok(t) ==> {
                &&& t.stage == Stage::Sending
                &&& t.timeout_1fc == frame_timeout(*opts)
                &&& final(self).inner.irqs == 0
                &&& frame_data(*opts, tx@).len() <= FIFO_SIZE
                &&& final(self).inner.iface.ops() == launch_ops(
                    load_ops(old(self).inner.iface.ops(), *opts, tx@),
                    *opts,
                )
            },
            res matches Err(e) ==> e is Interface || (e is FifoOverflow && tx@.len() > FIFO_SIZE),
    {
        proof {
            record::lemma_extends::<Op>();
        }
        match self.load(tx, opts) {
            Ok(()) => {},
            Err(e) => {
                return Err(e);
            },
        }
        let ghost ops1 = self.inner.iface.ops();
        match self.launch(opts) {
            Ok(()) => {},
            Err(e) => {
                return Err(Error::from(e));
            },
        }
        let timeout_1fc = match opts {
            ll::Frame::Standard { timeout_1fc } => *timeout_1fc,
            _ => SHORT_TIMEOUT_1FC,
        };
        Ok(Transfer { stage: Stage::Sending, timeout_1fc })
    }

    fn load(&mut self, tx: &[u8], opts: &ll::Frame) -> (res: Result<(), Error<I::Error>>)
        requires
            opts.wf(),
            opts matches ll::Frame::Anticoll { bits } ==> tx@.len() >= ll::bytes_for(bits as int),
        ensures
            *final(final(self).inner) == *final(old(self).inner),
            final(self).inner.mode == old(self).inner.mode,
            final(self).inner.irqs == old(self).inner.irqs,
            record::extends(final(self).inner.iface.ops(), old(self).inner.iface.ops()),
            res is Ok ==> frame_data(*opts, tx@).len() <= FIFO_SIZE
                && final(self).inner.iface.ops() == load_ops(
                old(self).inner.iface.ops(),
                *opts,
                tx@,
            ),
            res matches Err(e) ==> e is Interface || (e is FifoOverflow && tx@.len() > FIFO_SIZE),
    {
        proof {
            record::lemma_extends::<Op>();
        }
        match self.inner.cmd(Command::Stop) {
            Ok(()) => {},
            Err(e) => {
                return Err(Error::from(e));
            },
        }
        match self.inner.cmd(Command::ResetRxgain) {
            Ok(()) => {},
            Err(e) => {
                return Err(Error::from(e));
            },
        }
        let (bits, data): (usize, &[u8]) = match opts {
            ll::Frame::ReqA => {
                return Ok(());
            },
            ll::Frame::WupA => {
                return Ok(());
            },
            ll::Frame::Anticoll { bits } => (
                *bits,
                vstd::slice::slice_subrange(tx, 0, (*bits + 7) / 8),
            ),
            ll::Frame::Standard { .. } => {
                if tx.len() > FIFO_SIZE {
                    return Err(Error::FifoOverflow);
                }
                assert(tx@.subrange(0, tx@.len() as int) =~= tx@);
                (tx.len() * 8, vstd::slice::slice_subrange(tx, 0, tx.len()))
            },
        };
        match self.inner.regs().num_tx_bytes2().write_value(regs::NumTxBytes2((bits % 256) as u8)) {
            Ok(()) => {},
            Err(e) => {
                return Err(Error::from(e));
            },
        }
        match self.inner.regs().num_tx_bytes1().write_value((bits / 256) as u8) {
            Ok(()) => {},
            Err(e) => {
                return Err(Error::from(e));
            },
        }
        match self.inner.iface.write_fifo(data) {
            Ok(()) => {},
            Err(e) => {
                return Err(Error::Interface(e));
            },
        }
        Ok(())
    }

    fn launch(&mut self, opts: &ll::Frame) -> (res: Result<(), super::Error<I::Error>>)
        ensures
            *final(final(self).inner) == *final(old(self).inner),
            final(self).inner.mode == old(self).inner.mode,
            record::extends(final(self).inner.iface.ops(), old(self).inner.iface.ops()),
            res is Ok ==> final(self).inner.irqs == 0 && final(self).inner.iface.ops()
                == launch_ops(old(self).inner.iface.ops(), *opts),
            res matches Err(e) ==> e is Interface,
    {
        proof {
            record::lemma_extends::<Op>();
        }
        let (anticoll, raw, cmd) = match opts {
            ll::Frame::ReqA => (false, true, Command::TransmitReqa),
            ll::Frame::WupA => (false, true, Command::TransmitWupa),
            ll::Frame::Anticoll { .. } => (true, true, Command::TransmitWithoutCrc),
            ll::Frame::Standard { .. } => (false, false, Command::TransmitWithCrc),
        };
        let mut corr = regs::CorrConf1(0x13);
        corr.set_corr_s6(!anticoll);
        self.inner.regs().corr_conf1().write_value(corr)?;
        let mut nfc = regs::Iso14443aNfc(0);
        nfc.set_antcl(anticoll);
        self.inner.regs().iso14443a_nfc().write_value(nfc)?;
        let mut aux = regs::Aux(0);
        aux.set_no_crc_rx(raw);
        self.inner.regs().aux().write_value(aux)?;
        let mut conf = regs::RxConf2(0);
        conf.set_agc_en(!anticoll);
        conf.set_agc_m(true);
        conf.set_agc6_3(true);
        conf.set_sqm_dyn(true);
        self.inner.regs().rx_conf2().write_value(conf)?;
        // Stopping the chip has cleared its requests.
        self.inner.irqs = 0;
        self.inner.cmd(cmd)?;
        Ok(())
    }

    /// Looks once at the chip and moves the exchange on. Returns the stage
    /// that the exchange is in now.
    ///
    /// While the answer comes in, the requests that were read before are
    /// judged first: the call fails with the error that [`receive_error`]
    /// gives for them, and the answer is complete when its end is among
    /// them. Otherwise the status registers are read, and while the frame is
    /// sent or the answer awaited, the stage follows from the requests as
    /// [`next_stage`] says.
    pub fn poll(&mut self, t: &mut Transfer, opts: &ll::Frame) -> (res: Result<
        Stage,
        Error<I::Error>,
    >)
        ensures
            *final(final(self).inner) == *final(old(self).inner),
            final(self).inner.mode == old(self).inner.mode,
            final(t).timeout_1fc == old(t).timeout_1fc,
            record::extends(final(self).inner.iface.ops(), old(self).inner.iface.ops()),
            res matches Ok(stage) ==> stage == final(t).stage,
            res is Err ==> final(t).stage == old(t).stage,
            poll_reads(old(t).stage, old(self).inner.irqs, *opts is Anticoll) ==> {
                &&& res matches Err(e) ==> e is Interface
                &&& res is Ok ==> exists|status: (u8, u8, u8, u8)|
                    {
                        &&& final(self).inner.iface.ops() == #[trigger] super::irq_read_ops(
                            old(self).inner.iface.ops(),
                            status,
                        )
                        &&& final(self).inner.irqs == super::merged_irqs(
                            old(self).inner.irqs,
                            status,
                        )
                        &&& final(t).stage == match old(t).stage {
                            Stage::Receiving => Stage::Receiving,
                            stage => next_stage(stage, final(self).inner.irqs),
                        }
                    }
            },
            !poll_reads(old(t).stage, old(self).inner.irqs, *opts is Anticoll) ==> {
                &&& final(self).inner.iface.ops() == old(self).inner.iface.ops()
                &&& final(self).inner.irqs == old(self).inner.irqs
                &&& res == match receive_error::<I::Error>(
                    old(self).inner.irqs,
                    *opts is Anticoll,
                ) {
                    Some(e) if old(t).stage == Stage::Receiving => Err::<Stage, Error<I::Error>>(e),
                    _ => Ok(Stage::Received),
                }
            },
    {
        proof {
            record::lemma_extends::<Op>();
        }
        let anticoll = match opts {
            ll::Frame::Anticoll { .. } => true,
            _ => false,
        };
        match t.stage {
            Stage::Sending => {
                match self.inner.irq_update() {
                    Ok(()) => {},
                    Err(e) => {
                        return Err(Error::from(e));
                    },
                }
                if self.inner.irq(Interrupt::Txe) {
                    t.stage = Stage::Waiting;
                }
            },
            Stage::Waiting => {
                match self.inner.irq_update() {
                    Ok(()) => {},
                    Err(e) => {
                        return Err(Error::from(e));
                    },
                }
                if self.inner.irq(Interrupt::Rxs) {
                    t.stage = Stage::Receiving;
                }
            },
            Stage::Receiving => {
                if self.inner.irq(Interrupt::Err1) {
                    return Err(Error::Framing);
                }
                if self.inner.irq(Interrupt::Par) {
                    return Err(Error::Parity);
                }
                if self.inner.irq(Interrupt::Crc) {
                    return Err(Error::Crc);
                }
                if !anticoll && self.inner.irq(Interrupt::Col) {
                    return Err(Error::Collision);
                }
                if self.inner.irq(Interrupt::Rxe) {
                    t.stage = Stage::Received;
                } else {
                    match self.inner.irq_update() {
                        Ok(()) => {},
                        Err(e) => {
                            return Err(Error::from(e));
                        },
                    }
                }
            },
            Stage::Received => {},
        }
        Ok(t.stage)
    }

    /// Ends an exchange whose answer is complete: takes the answer out of
    /// the FIFO and puts the result together. Returns the number of valid
    /// bits in `rx`.
    ///
    /// After a standard frame `rx` holds the answer without its CRC, and
    /// after a short frame the answer as it came, in whole bytes. After an
    /// anticollision frame `rx` holds the bits of the request and behind
    /// them those of the card, as [`anticoll::merged`] says.
    ///
    /// Fails with the error that [`fifo_error`] gives for the status of the
    /// FIFO; with `ResponseTooShort` where the answer to a standard frame
    /// has less than the two bytes of its CRC; with `ResponseTooLong` where
    /// `rx` has no room for the result; and with `Interface` where the bus
    /// fails.
    pub fn finish(&mut self, tx: &[u8], rx: &mut [u8], opts: &ll::Frame) -> (res: Result<
        usize,
        Error<I::Error>,
    >)
        requires
            opts.wf(),
            opts matches ll::Frame::Anticoll { bits } ==> tx@.len() >= ll::bytes_for(bits as int),
        ensures
            *final(final(self).inner) == *final(old(self).inner),
            final(self).inner.mode == old(self).inner.mode,
            final(self).inner.irqs == old(self).inner.irqs,
            final(rx)@.len() == old(rx)@.len(),
            record::extends(final(self).inner.iface.ops(), old(self).inner.iface.ops()),
            !(res matches Err(Error::Interface(_))) ==> exists|
                status: regs::FifoStatus2,
                low: u8,
                data: Seq<u8>,
                collision: Option<regs::CollisionStatus>,
            |
                {
                    &&& final(self).inner.iface.ops() == #[trigger] finish_ops(
                        old(self).inner.iface.ops(),
                        *opts,
                        old(rx)@.len() as int,
                        status,
                        low,
                        data,
                        collision,
                    )
                    &&& res == finish_outcome::<I::Error>(
                        *opts,
                        old(rx)@.len() as int,
                        status,
                        low,
                        collision,
                    )
                    &&& collision is Some == (*opts is Anticoll && super::requested(
                        old(self).inner.irqs,
                        Interrupt::Col,
                    ))
                    &&& res is Ok ==> data.len() == answer_bytes(low, status, *opts) && match *opts {
                        ll::Frame::Anticoll { bits } => {
                            &&& ll::bytes_for(bits as int) <= final(rx)@.len()
                            &&& final(rx)@ == anticoll::merged(
                                data,
                                tx@,
                                bits as int,
                                final(rx)@.len(),
                            )
                            &&& ll::same_bits(final(rx)@, tx@, bits as int)
                        },
                        _ => {
                            &&& res->Ok_0 % 8 == 0
                            &&& res->Ok_0 / 8 <= final(rx)@.len()
                            &&& final(rx)@.subrange(0, res->Ok_0 as int / 8) == data
                        },
                    }
                },
    {
        proof {
            record::lemma_extends::<Op>();
        }
        let ghost ops0 = self.inner.iface.ops();
        let ghost len = rx@.len() as int;
        let ghost none = None::<regs::CollisionStatus>;
        // Where the exchange ends before the place of a collision is asked
        // for, any place will do.
        let ghost unread = if *opts is Anticoll && super::requested(
            self.inner.irqs,
            Interrupt::Col,
        ) {
            Some(regs::CollisionStatus(0))
        } else {
            none
        };
        let (anticoll, standard) = match opts {
            ll::Frame::Anticoll { .. } => (true, false),
            ll::Frame::Standard { .. } => (false, true),
            _ => (false, false),
        };
        let status = match self.inner.regs().fifo_status2().read() {
            Ok(status) => status,
            Err(e) => {
                return Err(Error::from(e));
            },
        };
        match classify_fifo::<I::Error>(status, standard) {
            Some(e) => {
                proof {
                    assert(fifo_error::<()>(status, standard) is Some);
                    assert(self.inner.iface.ops() == finish_ops(
                        ops0,
                        *opts,
                        len,
                        status,
                        0u8,
                        Seq::<u8>::empty(),
                        unread,
                    ));
                }
                return Err(e);
            },
            None => {},
        }
        assert(fifo_error::<()>(status, standard) is None);
        let low = match self.inner.regs().fifo_status1().read() {
            Ok(low) => low,
            Err(e) => {
                return Err(Error::from(e));
            },
        };
        let ghost asked = self.inner.iface.ops();
        let mut rx_bytes = low as usize + (status.fifo_b() as usize) * 256;
        if standard {
            // The CRC stays in the FIFO.
            if rx_bytes < 2 {
                proof {
                    assert(asked == finish_ops(
                        ops0,
                        *opts,
                        len,
                        status,
                        low,
                        Seq::<u8>::empty(),
                        unread,
                    ));
                }
                return Err(Error::ResponseTooShort);
            }
            rx_bytes = rx_bytes - 2;
        }
        assert(rx_bytes == answer_bytes(low, status, *opts));
        if rx.len() < rx_bytes {
            proof {
                assert(asked == finish_ops(
                    ops0,
                    *opts,
                    len,
                    status,
                    low,
                    Seq::<u8>::empty(),
                    unread,
                ));
            }
            return Err(Error::ResponseTooLong);
        }
        if anticoll {
            let bits = match opts {
                ll::Frame::Anticoll { bits } => *bits,
                _ => 16,
            };
            if bits / 8 > rx.len() - rx_bytes || (bits + 7) / 8 > rx.len() {
                proof {
                    assert(asked == finish_ops(
                        ops0,
                        *opts,
                        len,
                        status,
                        low,
                        Seq::<u8>::empty(),
                        unread,
                    ));
                }
                return Err(Error::ResponseTooLong);
            }
        }
        assert(!no_room(*opts, len, rx_bytes as int));
        let (head, tail) = rx.split_at_mut(rx_bytes);
        match self.inner.iface.read_fifo(head) {
            Ok(()) => {},
            Err(e) => {
                return Err(Error::Interface(e));
            },
        }
        let ghost data = head@;
        let ghost ops1 = self.inner.iface.ops();
        assert(rx@.subrange(0, rx_bytes as int) =~= data);
        match opts {
            ll::Frame::Anticoll { bits } => {
                let collided = self.inner.irq(Interrupt::Col);
                let ghost mut collision: Option<regs::CollisionStatus> = None;
                let total = if collided {
                    let at = match self.inner.regs().collision_status().read() {
                        Ok(at) => at,
                        Err(e) => {
                            return Err(Error::from(e));
                        },
                    };
                    proof {
                        collision = Some(at);
                    }
                    at.c_byte() as usize * 8 + at.c_bit() as usize
                } else {
                    bits / 8 * 8 + rx_bytes * 8
                };
                match merge_anticoll(rx, rx_bytes, tx, *bits) {
                    Ok(()) => {},
                    Err(()) => {
                        return Err(Error::ResponseTooLong);
                    },
                }
                proof {
                    anticoll::lemma_merged_keeps_request(data, tx@, *bits as int, rx@.len());
                    assert(total == anticoll_bits(*bits as int, data.len() as int, collision));
                    assert(self.inner.iface.ops() == finish_ops(
                        ops0,
                        *opts,
                        len,
                        status,
                        low,
                        data,
                        collision,
                    ));
                }
                Ok(total)
            },
            _ => {
                proof {
                    assert(ops1 == finish_ops(ops0, *opts, len, status, low, data, none));
                }
                Ok(rx_bytes * 8)
            },
        }
    }
}

} // verus!
