//! Frame exchange with Type A cards through the FM175xx.
//!
//! One exchange goes in three parts. [`Iso14443a::begin`] stops what the
//! chip was doing, programs it for the frame, puts the first bytes into the
//! FIFO and starts the transmission. [`Iso14443a::poll`] looks once at the
//! interrupt requests and moves bytes into or out of the FIFO; the caller
//! repeats it, giving way to other tasks in between, until it says that the
//! answer is complete. [`Iso14443a::finish`] takes the rest of the answer out
//! of the FIFO and puts the result together.
use vstd::prelude::*;
use crate::anticoll;
use crate::bytes;
use crate::record;
use crate::anticoll::merge_anticoll;
use crate::traits::iso14443a_ll as ll;
use super::interface::{Interface, Op};
use super::regs;
use super::{Fm175xx, FIFO_SIZE};

verus! {

/// Why an exchange failed.
#[derive(Debug, PartialEq, Eq, Clone, Copy, Structural)]
pub enum Error {
    /// The chip reported a fault, or a buffer was too small.
    Other,
    /// No answer started before the timer ran out.
    Timeout,
    /// The answer failed its CRC or parity check.
    Crc,
    /// The answer broke the framing rules.
    Protocol,
    /// Bits of several cards collided in a frame that does not allow it.
    Collision,
}

impl ll::Error for Error {
    open spec fn kind_of(&self) -> ll::ErrorKind {
        match self {
            Error::Other => ll::ErrorKind::Other,
            Error::Timeout => ll::ErrorKind::Timeout,
            Error::Protocol => ll::ErrorKind::Corruption,
            Error::Crc => ll::ErrorKind::Corruption,
            Error::Collision => ll::ErrorKind::Corruption,
        }
    }

    fn kind(&self) -> ll::ErrorKind {
        match self {
            Error::Other => ll::ErrorKind::Other,
            Error::Timeout => ll::ErrorKind::Timeout,
            Error::Protocol => ll::ErrorKind::Corruption,
            Error::Crc => ll::ErrorKind::Corruption,
            Error::Collision => ll::ErrorKind::Corruption,
        }
    }
}

/// The time allowed for the answer to a short frame, in carrier periods.
pub const SHORT_TIMEOUT_1FC: u32 = 16384;

/// The time allowed for the answer to an anticollision frame, in carrier
/// periods.
pub const ANTICOLL_TIMEOUT_1FC: u32 = 65536;

/// The bytes that `op` puts into the FIFO.
pub open spec fn given_by(op: Op) -> Seq<u8> {
    match op {
        Op::WriteFifo { data } => data,
        _ => Seq::empty(),
    }
}

/// The bytes that `op` takes out of the FIFO.
pub open spec fn taken_by(op: Op) -> Seq<u8> {
    match op {
        Op::ReadFifo { data } => data,
        _ => Seq::empty(),
    }
}

/// The bytes that the transfers of `ops` from place `from` on have put into
/// the FIFO, in order.
pub open spec fn given(ops: Seq<Op>, from: nat) -> Seq<u8>
    decreases ops.len(),
{
    if ops.len() <= from {
        Seq::empty()
    } else {
        given(ops.drop_last(), from) + given_by(ops.last())
    }
}

/// The bytes that the transfers of `ops` from place `from` on have taken
/// out of the FIFO, in order.
pub open spec fn taken(ops: Seq<Op>, from: nat) -> Seq<u8>
    decreases ops.len(),
{
    if ops.len() <= from {
        Seq::empty()
    } else {
        taken(ops.drop_last(), from) + taken_by(ops.last())
    }
}

/// One more transfer adds to the FIFO's bytes what it carries, and a
/// transfer that does not touch the FIFO adds nothing.
pub proof fn lemma_fifo_push()
    ensures
        forall|ops: Seq<Op>, op: Op, from: nat|
            ops.len() >= from ==> #[trigger] given(ops.push(op), from) == given(ops, from)
                + given_by(op),
        forall|ops: Seq<Op>, op: Op, from: nat|
            ops.len() >= from ==> #[trigger] taken(ops.push(op), from) == taken(ops, from)
                + taken_by(op),
        forall|ops: Seq<Op>, op: Op, from: nat|
            ops.len() >= from && !(op is WriteFifo) ==> #[trigger] given(ops.push(op), from)
                == given(ops, from),
        forall|ops: Seq<Op>, op: Op, from: nat|
            ops.len() >= from && !(op is ReadFifo) ==> #[trigger] taken(ops.push(op), from)
                == taken(ops, from),
        forall|ops: Seq<Op>| #[trigger] given(ops, ops.len()) == Seq::<u8>::empty(),
        forall|ops: Seq<Op>| #[trigger] taken(ops, ops.len()) == Seq::<u8>::empty(),
{
    assert forall|ops: Seq<Op>, op: Op, from: nat| ops.len() >= from implies #[trigger] given(
        ops.push(op),
        from,
    ) == given(ops, from) + given_by(op) && (!(op is WriteFifo) ==> given(ops.push(op), from)
        == given(ops, from)) by {
        assert(ops.push(op).drop_last() =~= ops);
        assert(given(ops, from) + Seq::<u8>::empty() =~= given(ops, from));
    }
    assert forall|ops: Seq<Op>, op: Op, from: nat| ops.len() >= from implies #[trigger] taken(
        ops.push(op),
        from,
    ) == taken(ops, from) + taken_by(op) && (!(op is ReadFifo) ==> taken(ops.push(op), from)
        == taken(ops, from)) by {
        assert(ops.push(op).drop_last() =~= ops);
        assert(taken(ops, from) + Seq::<u8>::empty() =~= taken(ops, from));
    }
}

/// The bytes that go on the air for a frame: the wake-up code of a short
/// frame, the bytes that hold the bits of an anticollision frame, or all of
/// `tx`.
pub open spec fn frame_data(opts: ll::Frame, tx: Seq<u8>) -> Seq<u8> {
    match opts {
        ll::Frame::ReqA => seq![0x26u8],
        ll::Frame::WupA => seq![0x52u8],
        ll::Frame::Anticoll { bits } => tx.subrange(0, ll::bytes_for(bits as int)),
        ll::Frame::Standard { .. } => tx,
    }
}

/// Whether a frame carries a CRC: only a standard frame does.
pub open spec fn frame_crc(opts: ll::Frame) -> bool {
    opts is Standard
}

/// The time allowed for the answer to a frame, in carrier periods.
pub open spec fn frame_timeout(opts: ll::Frame) -> u32 {
    match opts {
        ll::Frame::ReqA => SHORT_TIMEOUT_1FC,
        ll::Frame::WupA => SHORT_TIMEOUT_1FC,
        ll::Frame::Anticoll { .. } => ANTICOLL_TIMEOUT_1FC,
        ll::Frame::Standard { timeout_1fc } => timeout_1fc,
    }
}

/// How many bits of the last byte are sent; 0 means all of them.
pub open spec fn frame_last_bits(opts: ll::Frame) -> u8 {
    match opts {
        ll::Frame::ReqA => 7,
        ll::Frame::WupA => 7,
        ll::Frame::Anticoll { bits } => (bits % 8) as u8,
        ll::Frame::Standard { .. } => 0,
    }
}

/// The bit of the first byte at which the answer is stored: an answer to an
/// anticollision frame continues the byte that the request left unfinished.
pub open spec fn frame_rx_align(opts: ll::Frame) -> u8 {
    match opts {
        ll::Frame::Anticoll { bits } => (bits % 8) as u8,
        _ => 0,
    }
}

/// What the chip is programmed with for one frame.
#[derive(Clone, Copy, Debug, PartialEq, Eq, Structural)]
pub struct Framing {
    pub crc: bool,
    pub timeout_1fc: u32,
    pub last_bits: u8,
    pub rx_align: u8,
    pub tx_len: usize,
}

/// Works out how a frame is sent.
pub fn framing(opts: &ll::Frame, tx: &[u8]) -> (f: Framing)
    requires
        opts.wf(),
        opts matches ll::Frame::Anticoll { bits } ==> tx@.len() >= ll::bytes_for(bits as int),
    ensures
        f.crc == frame_crc(*opts),
        f.timeout_1fc == frame_timeout(*opts),
        f.last_bits == frame_last_bits(*opts),
        f.rx_align == frame_rx_align(*opts),
        f.tx_len == frame_data(*opts, tx@).len(),
        f.last_bits < 8,
        f.rx_align < 8,
{
    match opts {
        ll::Frame::Anticoll { bits } => Framing {
            crc: false,
            timeout_1fc: ANTICOLL_TIMEOUT_1FC,
            last_bits: (*bits % 8) as u8,
            rx_align: (*bits % 8) as u8,
            tx_len: (*bits + 7) / 8,
        },
        ll::Frame::ReqA => Framing {
            crc: false,
            timeout_1fc: SHORT_TIMEOUT_1FC,
            last_bits: 7,
            rx_align: 0,
            tx_len: 1,
        },
        ll::Frame::WupA => Framing {
            crc: false,
            timeout_1fc: SHORT_TIMEOUT_1FC,
            last_bits: 7,
            rx_align: 0,
            tx_len: 1,
        },
        ll::Frame::Standard { timeout_1fc } => Framing {
            crc: true,
            timeout_1fc: *timeout_1fc,
            last_bits: 0,
            rx_align: 0,
            tx_len: tx.len(),
        },
    }
}

/// The chip with its field on, set up for Type A cards.
pub struct Iso14443a<'d, I: Interface> {
    pub inner: &'d mut Fm175xx<I>,
}

/// The transfers that set the chip up for Type A cards at 106 kbit/s and
/// switch the carrier on, behind `before`.
pub open spec fn start_ops(before: Seq<Op>) -> Seq<Op> {
    before.push(
        super::wrote(
            regs::TXMODE,
            regs::Txmode(0).with_framing(regs::Framing::iso14443a()).with_speed(
                regs::Speed::_106kbps(),
            ),
        ),
    ).push(
        super::wrote(
            regs::RXMODE,
            regs::Rxmode(0).with_framing(regs::Framing::iso14443a()).with_speed(
                regs::Speed::_106kbps(),
            ),
        ),
    ).push(super::wrote(regs::MODWIDTH, 0x26u8)).push(
        super::wrote(regs::CONTROL, regs::Control(0).with_initiator(true)),
    ).push(super::wrote(regs::RFCFG, regs::Rfcfg(0).with_rxgain(regs::Rxgain::_33db()))).push(
        super::wrote(regs::RXTRESHOLD, regs::Rxtreshold(0).with_collevel(4).with_minlevel(8)),
    ).push(super::wrote(regs::TXAUTO, regs::Txauto(0).with_force100ask(true))).push(
        super::wrote(regs::TXCONTROL, super::carrier_on()),
    )
}

impl<I: Interface> Fm175xx<I> {
    /// Sets the chip up for Type A cards and switches the field on. The chip
    /// is to be reset before, and cards may be addressed five milliseconds
    /// after.
    pub fn start_iso14443a(&mut self) -> (reader: Iso14443a<'_, I>)
        ensures
            reader.inner.iface.ops() == start_ops(old(self).iface.ops()),
            *final(self) == *final(reader.inner),
    {
        let mut txmode = regs::Txmode(0);
        txmode.set_framing(regs::Framing::iso14443a());
        txmode.set_speed(regs::Speed::_106kbps());
        self.regs().txmode().write_value(txmode);
        let mut rxmode = regs::Rxmode(0);
        rxmode.set_framing(regs::Framing::iso14443a());
        rxmode.set_speed(regs::Speed::_106kbps());
        self.regs().rxmode().write_value(rxmode);
        self.regs().modwidth().write_value(0x26);
        let mut control = regs::Control(0);
        control.set_initiator(true);
        self.regs().control().write_value(control);
        let mut rfcfg = regs::Rfcfg(0);
        rfcfg.set_rxgain(regs::Rxgain::_33db());
        self.regs().rfcfg().write_value(rfcfg);
        let mut rxtreshold = regs::Rxtreshold(0);
        rxtreshold.set_collevel(4);
        rxtreshold.set_minlevel(8);
        self.regs().rxtreshold().write_value(rxtreshold);
        let mut txauto = regs::Txauto(0);
        txauto.set_force100ask(true);
        self.regs().txauto().write_value(txauto);
        self.rf_on();
        Iso14443a { inner: self }
    }
}

/// Where an exchange stands.
pub struct Transfer {
    /// How many bytes the frame has.
    pub tx_len: usize,
    /// How many of them have been put into the FIFO.
    pub tx_pos: usize,
    /// How many bytes of the answer have been taken out of the FIFO.
    pub rx_pos: usize,
    /// Whether the chip has sent the frame.
    pub tx_done: bool,
    /// Whether the chip has seen bits collide.
    pub collision: bool,
    /// How many transfers the bus had seen when the exchange began.
    pub start: Ghost<nat>,
}

impl Transfer {
    /// The exchange of `tx` as `opts` stands like this after the transfers
    /// `ops`, with the answer so far in `rx`: the FIFO was given the first
    /// `tx_pos` bytes of the frame and nothing else, and `rx` starts with
    /// what the FIFO gave back and nothing else.
    pub open spec fn inv(self, ops: Seq<Op>, opts: ll::Frame, tx: Seq<u8>, rx: Seq<u8>) -> bool {
        &&& self.start@ <= ops.len()
        &&& self.tx_len == frame_data(opts, tx).len()
        &&& self.tx_pos <= self.tx_len
        &&& self.rx_pos <= rx.len()
        &&& given(ops, self.start@) == frame_data(opts, tx).subrange(0, self.tx_pos as int)
        &&& taken(ops, self.start@) == rx.subrange(0, self.rx_pos as int)
    }
}

/// How many bytes go into a FIFO that holds `level` bytes when `left` are
/// waiting.
pub open spec fn chunk_size(level: u8, left: int) -> int {
    let free = if level >= FIFO_SIZE {
        0
    } else {
        FIFO_SIZE - level
    };
    if free <= left {
        free
    } else {
        left
    }
}

/// The transfers that stop the chip, program it for a frame and clear what
/// the last exchange left, behind `before`: the CRC is switched in both
/// directions, the timer is set, the running command is ended, the FIFO is
/// emptied, all interrupt requests are cleared, and the chip is told
/// whether to keep the bits behind a collision.
pub open spec fn prepare_ops(
    before: Seq<Op>,
    opts: ll::Frame,
    txmode: regs::Txmode,
    rxmode: regs::Rxmode,
    prescaler: u16,
    reload: u16,
) -> Seq<Op> {
    super::set_timer_ops(
        before.push(super::read(regs::TXMODE, txmode)).push(
            super::wrote(regs::TXMODE, txmode.with_crcen(frame_crc(opts))),
        ).push(super::read(regs::RXMODE, rxmode)).push(
            super::wrote(regs::RXMODE, rxmode.with_crcen(frame_crc(opts))),
        ),
        prescaler,
        reload,
    ).push(super::wrote(regs::COMMAND, super::command_for(regs::CommandVal::idle()))).push(
        super::wrote(regs::FIFOLEVEL, regs::Fifolevel(0).with_flushfifo(true)),
    ).push(super::wrote(regs::DIVIRQ, regs::Divirq(0x7f))).push(
        super::wrote(regs::COMMIRQ, regs::Commirq(0x7f)),
    ).push(
        super::wrote(regs::COLL, regs::Coll(0).with_valuesaftercoll(!(opts is Anticoll))),
    )
}

/// The transfers that start the transmission, behind `before`.
pub open spec fn launch_ops(before: Seq<Op>, opts: ll::Frame) -> Seq<Op> {
    before.push(
        super::wrote(regs::COMMAND, super::command_for(regs::CommandVal::transceive())),
    ).push(
        super::wrote(
            regs::BITFRAMING,
            regs::Bitframing(0).with_startsend(true).with_rxalign(
                frame_rx_align(opts),
            ).with_txlastbits(frame_last_bits(opts)),
        ),
    )
}

/// The transfers that put the next bytes of the frame into the FIFO, behind
/// `before`: the level is read, and as many bytes as fit are written.
/// Nothing is done when no byte is waiting.
pub open spec fn feed_ops(
    before: Seq<Op>,
    data: Seq<u8>,
    pos: int,
    level: regs::Fifolevel,
) -> Seq<Op> {
    if pos >= data.len() {
        before
    } else {
        before.push(super::read(regs::FIFOLEVEL, level)).push(
            Op::WriteFifo {
                data: data.subrange(pos, pos + chunk_size(level.level(), data.len() - pos)),
            },
        )
    }
}

/// What the interrupt requests and the error flags say of an exchange.
#[derive(Debug, PartialEq, Eq, Clone, Copy, Structural)]
pub enum Event {
    /// The exchange has failed.
    Failed(Error),
    /// The answer is complete.
    Received,
    /// The chip is still sending or receiving.
    Busy,
}

/// The error that the error flags stand for, if any. `collision` says
/// whether bits have collided, now or before: parity is not held against a
/// frame in which they have.
pub open spec fn error_of(errs: regs::Error, collision: bool) -> Option<Error> {
    if errs.bufferovfl() {
        Some(Error::Other)
    } else if errs.crcerr() {
        Some(Error::Crc)
    } else if errs.parityerr() && !collision {
        Some(Error::Crc)
    } else if errs.proterr() {
        Some(Error::Protocol)
    } else if errs.rferr() {
        Some(Error::Protocol)
    } else if errs.temperr() {
        Some(Error::Other)
    } else if errs.wrerr() {
        Some(Error::Other)
    } else {
        None
    }
}

/// Whether bits have collided: they had before, or the error flags say so
/// now. The flags are read only where the error interrupt is requested.
pub open spec fn collided(irqs: regs::Commirq, errs: regs::Error, collision: bool) -> bool {
    collision || (irqs.erri() && errs.collerr())
}

/// What one look at the chip says: the timer running out comes first, then
/// an error, then the end of the answer.
pub open spec fn event_of(irqs: regs::Commirq, errs: regs::Error, collision: bool) -> Event {
    if irqs.timeri() {
        Event::Failed(Error::Timeout)
    } else if irqs.erri() && error_of(errs, collided(irqs, errs, collision)) is Some {
        Event::Failed(error_of(errs, collided(irqs, errs, collision))->0)
    } else if irqs.rxi() {
        Event::Received
    } else {
        Event::Busy
    }
}

/// Reads the error flags.
pub fn classify_errors(errs: regs::Error, collision: bool) -> (e: Option<Error>)
    ensures
        e == error_of(errs, collision),
{
    if errs.bufferovfl() {
        Some(Error::Other)
    } else if errs.crcerr() {
        Some(Error::Crc)
    } else if errs.parityerr() && !collision {
        Some(Error::Crc)
    } else if errs.proterr() {
        Some(Error::Protocol)
    } else if errs.rferr() {
        Some(Error::Protocol)
    } else if errs.temperr() {
        Some(Error::Other)
    } else if errs.wrerr() {
        Some(Error::Other)
    } else {
        None
    }
}

impl<'d, I: Interface> Iso14443a<'d, I> {
    /// Puts the next bytes of the frame into the FIFO.
    fn feed(&mut self, t: &mut Transfer, tx: &[u8], opts: &ll::Frame)
        requires
            opts.wf(),
            opts matches ll::Frame::Anticoll { bits } ==> tx@.len() >= ll::bytes_for(bits as int),
            old(t).start@ <= old(self).inner.iface.ops().len(),
            old(t).tx_len == frame_data(*opts, tx@).len(),
            old(t).tx_pos <= old(t).tx_len,
            given(old(self).inner.iface.ops(), old(t).start@) == frame_data(*opts, tx@).subrange(
                0,
                old(t).tx_pos as int,
            ),
        ensures
            *final(final(self).inner) == *final(old(self).inner),
            final(t).tx_len == old(t).tx_len,
            final(t).rx_pos == old(t).rx_pos,
            final(t).tx_done == old(t).tx_done,
            final(t).collision == old(t).collision,
            final(t).start == old(t).start,
            old(t).tx_pos <= final(t).tx_pos <= final(t).tx_len,
            final(t).start@ <= final(self).inner.iface.ops().len(),
            given(final(self).inner.iface.ops(), final(t).start@) == frame_data(
                *opts,
                tx@,
            ).subrange(0, final(t).tx_pos as int),
            taken(final(self).inner.iface.ops(), final(t).start@) == taken(
                old(self).inner.iface.ops(),
                old(t).start@,
            ),
            exists|level: regs::Fifolevel|
                {
                    &&& final(self).inner.iface.ops() == #[trigger] feed_ops(
                        old(self).inner.iface.ops(),
                        frame_data(*opts, tx@),
                        old(t).tx_pos as int,
                        level,
                    )
                    &&& old(t).tx_pos < old(t).tx_len ==> final(t).tx_pos == old(t).tx_pos
                        + chunk_size(level.level(), old(t).tx_len - old(t).tx_pos)
                },
    {
        let ghost data = frame_data(*opts, tx@);
        let ghost ops0 = self.inner.iface.ops();
        if t.tx_pos >= t.tx_len {
            assert(self.inner.iface.ops() == feed_ops(ops0, data, t.tx_pos as int, regs::Fifolevel(0)));
            return ;
        }
        let level = self.inner.regs().fifolevel().read();
        let used = level.level() as usize;
        let free = if used >= FIFO_SIZE {
            0
        } else {
            FIFO_SIZE - used
        };
        let left = t.tx_len - t.tx_pos;
        let n = if free <= left {
            free
        } else {
            left
        };
        let ghost ops1 = self.inner.iface.ops();
        match opts {
            ll::Frame::ReqA => {
                let short = [0x26u8];
                assert(short@ =~= data);
                let chunk = vstd::slice::slice_subrange(short.as_slice(), t.tx_pos, t.tx_pos + n);
                self.inner.iface.write_fifo(chunk);
            },
            ll::Frame::WupA => {
                let short = [0x52u8];
                assert(short@ =~= data);
                let chunk = vstd::slice::slice_subrange(short.as_slice(), t.tx_pos, t.tx_pos + n);
                self.inner.iface.write_fifo(chunk);
            },
            _ => {
                let chunk = vstd::slice::slice_subrange(tx, t.tx_pos, t.tx_pos + n);
                assert(chunk@ =~= data.subrange(t.tx_pos as int, t.tx_pos + n));
                self.inner.iface.write_fifo(chunk);
            },
        }
        proof {
            lemma_fifo_push();
            let chunk = data.subrange(t.tx_pos as int, t.tx_pos + n);
            assert(self.inner.iface.ops() == ops1.push(Op::WriteFifo { data: chunk }));
            assert(ops1 == ops0.push(super::read(regs::FIFOLEVEL, level)));
            assert(given(ops1, t.start@) == given(ops0, t.start@));
            assert(given(self.inner.iface.ops(), t.start@) == given(ops1, t.start@) + chunk);
            assert(data.subrange(0, t.tx_pos as int) + chunk =~= data.subrange(0, t.tx_pos + n));
            assert(self.inner.iface.ops() == feed_ops(ops0, data, t.tx_pos as int, level));
        }
        t.tx_pos = t.tx_pos + n;
    }

    /// Starts an exchange: stops what the chip was doing, programs it for
    /// the frame, clears what the last exchange left in the FIFO and in the
    /// interrupt requests, puts the first bytes of the frame into the FIFO
    /// and starts the transmission.
    pub fn begin(&mut self, tx: &[u8], opts: &ll::Frame) -> (t: Transfer)
        requires
            opts.wf(),
            opts matches ll::Frame::Anticoll { bits } ==> tx@.len() >= ll::bytes_for(bits as int),
        ensures
            *final(final(self).inner) == *final(old(self).inner),
            t.start@ == old(self).inner.iface.ops().len(),
            t.rx_pos == 0,
            !t.tx_done,
            !t.collision,
            forall|rx: Seq<u8>| #[trigger] t.inv(final(self).inner.iface.ops(), *opts, tx@, rx),
            exists|
                txmode: regs::Txmode,
                rxmode: regs::Rxmode,
                prescaler: u16,
                reload: u16,
                level: regs::Fifolevel,
            |
                {
                    &&& super::is_timer_prescaler(
                        super::timer_ticks(frame_timeout(*opts) as int),
                        prescaler as int,
                    )
                    &&& reload == super::timer_reload(
                        super::timer_ticks(frame_timeout(*opts) as int),
                        prescaler as int,
                    )
                    &&& final(self).inner.iface.ops() == #[trigger] launch_ops(
                        feed_ops(
                            prepare_ops(
                                old(self).inner.iface.ops(),
                                *opts,
                                txmode,
                                rxmode,
                                prescaler,
                                reload,
                            ),
                            frame_data(*opts, tx@),
                            0,
                            level,
                        ),
                        *opts,
                    )
                },
    {
        let ghost ops0 = self.inner.iface.ops();
        let f = framing(opts, tx);
        let anticoll = match opts {
            ll::Frame::Anticoll { .. } => true,
            _ => false,
        };
        let mut txmode = self.inner.regs().txmode().read();
        let ghost txmode0 = txmode;
        txmode.set_crcen(f.crc);
        self.inner.regs().txmode().write_value(txmode);
        let mut rxmode = self.inner.regs().rxmode().read();
        let ghost rxmode0 = rxmode;
        rxmode.set_crcen(f.crc);
        self.inner.regs().rxmode().write_value(rxmode);
        let ghost ops1 = self.inner.iface.ops();
        self.inner.set_timer(f.timeout_1fc);
        let ghost (prescaler, reload) = choose|prescaler: u16, reload: u16|
            {
                &&& super::is_timer_prescaler(
                    super::timer_ticks(f.timeout_1fc as int),
                    prescaler as int,
                )
                &&& reload == super::timer_reload(
                    super::timer_ticks(f.timeout_1fc as int),
                    prescaler as int,
                )
                &&& self.inner.iface.ops() == #[trigger] super::set_timer_ops(
                    ops1,
                    prescaler,
                    reload,
                )
            };
        let mut command = regs::Command(0);
        command.set_command(regs::CommandVal::idle());
        self.inner.regs().command().write_value(command);
        self.inner.clear_fifo();
        self.inner.regs().divirq().write_value(regs::Divirq(0x7f));
        self.inner.regs().commirq().write_value(regs::Commirq(0x7f));
        let mut coll = regs::Coll(0);
        coll.set_valuesaftercoll(!anticoll);
        self.inner.regs().coll().write_value(coll);
        let ghost ops2 = self.inner.iface.ops();
        assert(ops2 == prepare_ops(ops0, *opts, txmode0, rxmode0, prescaler, reload));
        proof {
            lemma_fifo_push();
            assert(given(ops2, ops0.len()) == Seq::<u8>::empty());
            assert(taken(ops2, ops0.len()) == Seq::<u8>::empty());
            assert(frame_data(*opts, tx@).subrange(0, 0) =~= Seq::<u8>::empty());
        }
        let mut t = Transfer {
            tx_len: f.tx_len,
            tx_pos: 0,
            rx_pos: 0,
            tx_done: false,
            collision: false,
            start: Ghost(ops0.len()),
        };
        self.feed(&mut t, tx, opts);
        let ghost ops3 = self.inner.iface.ops();
        let ghost level = choose|level: regs::Fifolevel|
            ops3 == #[trigger] feed_ops(ops2, frame_data(*opts, tx@), 0, level);
        let mut command = regs::Command(0);
        command.set_command(regs::CommandVal::transceive());
        self.inner.regs().command().write_value(command);
        let mut bitframing = regs::Bitframing(0);
        bitframing.set_startsend(true);
        bitframing.set_rxalign(f.rx_align);
        bitframing.set_txlastbits(f.last_bits);
        self.inner.regs().bitframing().write_value(bitframing);
        proof {
            lemma_fifo_push();
            assert(self.inner.iface.ops() == launch_ops(ops3, *opts));
            assert forall|rx: Seq<u8>| #[trigger]
                t.inv(self.inner.iface.ops(), *opts, tx@, rx) by {
                assert(rx.subrange(0, 0) =~= Seq::<u8>::empty());
            }
        }
        t
    }
}

/// The transfers that take out of the FIFO what it holds, behind `before`:
/// the level is read, and where the buffer has `room` for as many bytes,
/// they are read.
pub open spec fn drain_ops(before: Seq<Op>, level: regs::Fifolevel, room: int, data: Seq<u8>) -> Seq<
    Op,
> {
    if level.level() <= room {
        before.push(super::read(regs::FIFOLEVEL, level)).push(Op::ReadFifo { data })
    } else {
        before.push(super::read(regs::FIFOLEVEL, level))
    }
}

/// Whether the FIFO could be emptied into a buffer with `room` bytes left.
pub open spec fn drain_outcome(level: regs::Fifolevel, room: int) -> Result<(), Error> {
    if level.level() <= room {
        Ok(())
    } else {
        Err(Error::Other)
    }
}

/// The transfers of one look at the chip, behind `before`: the interrupt
/// requests are read, and the error flags where an error is requested and
/// the timer has not run out.
pub open spec fn look_ops(before: Seq<Op>, irqs: regs::Commirq, errs: regs::Error) -> Seq<Op> {
    if !irqs.timeri() && irqs.erri() {
        before.push(super::read(regs::COMMIRQ, irqs)).push(super::read(regs::ERROR, errs))
    } else {
        before.push(super::read(regs::COMMIRQ, irqs))
    }
}

/// The transfers of one poll, behind `before`. Where the chip is still
/// busy, the requests that were seen are taken back, by writing them with
/// the set bit clear, and bytes are moved: out of the FIFO once the frame is
/// sent, into it before.
pub open spec fn poll_ops(
    before: Seq<Op>,
    irqs: regs::Commirq,
    errs: regs::Error,
    t: Transfer,
    frame: Seq<u8>,
    room: int,
    level: regs::Fifolevel,
    data: Seq<u8>,
) -> Seq<Op> {
    let looked = look_ops(before, irqs, errs);
    if event_of(irqs, errs, t.collision) is Busy {
        let cleared = looked.push(super::wrote(regs::COMMIRQ, irqs.with_set(false)));
        if t.tx_done || irqs.txi() {
            drain_ops(cleared, level, room, data)
        } else {
            feed_ops(cleared, frame, t.tx_pos as int, level)
        }
    } else {
        looked
    }
}

/// What one poll returns: the failure or the end that the chip reports, or
/// that it is busy, unless it has more for the buffer than the buffer has
/// room for.
pub open spec fn poll_outcome(
    irqs: regs::Commirq,
    errs: regs::Error,
    t: Transfer,
    room: int,
    level: regs::Fifolevel,
) -> Result<bool, Error> {
    match event_of(irqs, errs, t.collision) {
        Event::Failed(e) => Err(e),
        Event::Received => Ok(true),
        Event::Busy => if (t.tx_done || irqs.txi()) && level.level() > room {
            Err(Error::Other)
        } else {
            Ok(false)
        },
    }
}

/// The transfers that end an exchange, behind `before`: the FIFO is
/// emptied; then the place of a collision is read after an anticollision
/// frame in which bits collided, and the number of bits in the last byte
/// after a standard frame in which none did. Nothing is done where the
/// frame was not all in the FIFO.
pub open spec fn finish_ops(
    before: Seq<Op>,
    t: Transfer,
    opts: ll::Frame,
    room: int,
    level: regs::Fifolevel,
    data: Seq<u8>,
    coll: regs::Coll,
    control: regs::Control,
) -> Seq<Op> {
    if t.tx_pos != t.tx_len {
        before
    } else if level.level() > room {
        drain_ops(before, level, room, data)
    } else if opts is Anticoll && t.collision {
        drain_ops(before, level, room, data).push(super::read(regs::COLL, coll))
    } else if opts is Standard && !t.collision {
        drain_ops(before, level, room, data).push(super::read(regs::CONTROL, control))
    } else {
        drain_ops(before, level, room, data)
    }
}

/// What the end of an exchange returns, where `len` is the length of the
/// buffer and `got` the number of bytes that the card sent.
pub open spec fn finish_outcome(
    t: Transfer,
    opts: ll::Frame,
    len: int,
    level: regs::Fifolevel,
    coll: regs::Coll,
    control: regs::Control,
) -> Result<usize, Error> {
    let got = t.rx_pos + level.level();
    if t.tx_pos != t.tx_len {
        Err(Error::Other)
    } else if level.level() > len - t.rx_pos {
        Err(Error::Other)
    } else {
        match opts {
            ll::Frame::Anticoll { bits } => if got + bits / 8 > len || ll::bytes_for(bits as int)
                > len {
                Err(Error::Other)
            } else {
                anticoll_bits(bits as int, got, t.collision, coll)
            },
            ll::Frame::Standard { .. } => if t.collision {
                Err(Error::Collision)
            } else if control.rxbits() != 0 {
                Err(Error::Protocol)
            } else {
                Ok((got * 8) as usize)
            },
            _ => if t.collision {
                Err(Error::Collision)
            } else {
                Ok((got * 8) as usize)
            },
        }
    }
}

/// Every exchange starts by ending the running command, emptying the FIFO
/// and clearing the interrupt requests, and touches the FIFO only after
/// that: whatever the last exchange left behind, and however it ended, is
/// gone before the first byte of the next frame goes in.
pub proof fn lemma_prepare_clears_before_feeding(
    before: Seq<Op>,
    opts: ll::Frame,
    txmode: regs::Txmode,
    rxmode: regs::Rxmode,
    prescaler: u16,
    reload: u16,
)
    ensures
        ({
            let ops = prepare_ops(before, opts, txmode, rxmode, prescaler, reload);
            let at = before.len() as int;
            &&& ops.len() == at + 13
            &&& ops[at + 8] == super::wrote(
                regs::COMMAND,
                super::command_for(regs::CommandVal::idle()),
            )
            &&& ops[at + 9] == super::wrote(regs::FIFOLEVEL, regs::Fifolevel(0).with_flushfifo(true))
            &&& ops[at + 10] == super::wrote(regs::DIVIRQ, regs::Divirq(0x7f))
            &&& ops[at + 11] == super::wrote(regs::COMMIRQ, regs::Commirq(0x7f))
            &&& given(ops, before.len()) == Seq::<u8>::empty()
            &&& taken(ops, before.len()) == Seq::<u8>::empty()
        }),
{
    lemma_fifo_push();
}

impl<'d, I: Interface> Iso14443a<'d, I> {
    /// Takes out of the FIFO what it holds and puts it behind the answer so
    /// far. Fails with `Other` where `rx` has no room for it.
    fn drain(&mut self, t: &mut Transfer, rx: &mut [u8]) -> (res: Result<(), Error>)
        requires
            old(t).start@ <= old(self).inner.iface.ops().len(),
            old(t).rx_pos <= old(rx)@.len(),
            taken(old(self).inner.iface.ops(), old(t).start@) == old(rx)@.subrange(
                0,
                old(t).rx_pos as int,
            ),
        ensures
            *final(final(self).inner) == *final(old(self).inner),
            final(rx)@.len() == old(rx)@.len(),
            final(t).tx_len == old(t).tx_len,
            final(t).tx_pos == old(t).tx_pos,
            final(t).tx_done == old(t).tx_done,
            final(t).collision == old(t).collision,
            final(t).start == old(t).start,
            final(t).start@ <= final(self).inner.iface.ops().len(),
            old(t).rx_pos <= final(t).rx_pos <= final(rx)@.len(),
            record::extends(final(self).inner.iface.ops(), old(self).inner.iface.ops()),
            given(final(self).inner.iface.ops(), final(t).start@) == given(
                old(self).inner.iface.ops(),
                old(t).start@,
            ),
            res is Ok ==> taken(final(self).inner.iface.ops(), final(t).start@)
                == final(rx)@.subrange(0, final(t).rx_pos as int),
            exists|level: regs::Fifolevel, data: Seq<u8>|
                {
                    &&& final(self).inner.iface.ops() == #[trigger] drain_ops(
                        old(self).inner.iface.ops(),
                        level,
                        old(rx)@.len() - old(t).rx_pos,
                        data,
                    )
                    &&& data.len() == level.level()
                    &&& res == drain_outcome(level, old(rx)@.len() - old(t).rx_pos)
                    &&& res is Ok ==> final(t).rx_pos == old(t).rx_pos + level.level()
                        && final(rx)@ == bytes::spliced(
                        old(rx)@,
                        old(t).rx_pos as int,
                        data,
                        0,
                        level.level() as int,
                    )
                    &&& res is Err ==> final(t).rx_pos == old(t).rx_pos && final(rx)@ == old(rx)@
                },
    {
        let ghost ops0 = self.inner.iface.ops();
        let ghost room = rx@.len() - t.rx_pos;
        let level = self.inner.regs().fifolevel().read();
        let bytes = level.level() as usize;
        let ghost ops1 = self.inner.iface.ops();
        proof {
            lemma_fifo_push();
            record::lemma_extends::<Op>();
            assert(ops1 == ops0.push(super::read(regs::FIFOLEVEL, level)));
        }
        if bytes > rx.len() - t.rx_pos {
            assert(ops1 == drain_ops(ops0, level, room, Seq::new(bytes as nat, |i: int| 0u8)));
            return Err(Error::Other);
        }
        let (head, tail) = rx.split_at_mut(t.rx_pos);
        let (mid, rest) = tail.split_at_mut(bytes);
        let ghost kept = head@;
        self.inner.iface.read_fifo(mid);
        proof {
            assert(self.inner.iface.ops() == ops1.push(Op::ReadFifo { data: mid@ }));
            assert(taken(self.inner.iface.ops(), t.start@) == taken(ops1, t.start@) + mid@);
            assert(rx@ == kept + (mid@ + rest@));
            assert(rx@.subrange(0, t.rx_pos + bytes) =~= kept + mid@);
            assert(rx@.len() == old(rx)@.len());
            assert(self.inner.iface.ops() == drain_ops(ops0, level, room, mid@));
            assert(rx@ =~= bytes::spliced(old(rx)@, t.rx_pos as int, mid@, 0, bytes as int));
        }
        t.rx_pos = t.rx_pos + bytes;
        Ok(())
    }

    /// Looks once at the chip and moves the exchange on.
    ///
    /// Returns `Ok(true)` when the answer is complete and `Ok(false)` when
    /// the chip is still busy; then the caller gives way to other tasks and
    /// polls again. Fails with the error that [`event_of`] gives for the
    /// interrupt requests and the error flags, and with `Other` where `rx`
    /// has no room for the answer.
    pub fn poll(&mut self, t: &mut Transfer, tx: &[u8], rx: &mut [u8], opts: &ll::Frame) -> (res:
        Result<bool, Error>)
        requires
            opts.wf(),
            opts matches ll::Frame::Anticoll { bits } ==> tx@.len() >= ll::bytes_for(bits as int),
            old(t).inv(old(self).inner.iface.ops(), *opts, tx@, old(rx)@),
        ensures
            *final(final(self).inner) == *final(old(self).inner),
            final(rx)@.len() == old(rx)@.len(),
            final(t).start == old(t).start,
            final(t).tx_len == old(t).tx_len,
            res is Ok ==> final(t).inv(final(self).inner.iface.ops(), *opts, tx@, final(rx)@),
            exists|irqs: regs::Commirq, errs: regs::Error, level: regs::Fifolevel, data: Seq<u8>|
                {
                    &&& final(self).inner.iface.ops() == #[trigger] poll_ops(
                        old(self).inner.iface.ops(),
                        irqs,
                        errs,
                        *old(t),
                        frame_data(*opts, tx@),
                        old(rx)@.len() - old(t).rx_pos,
                        level,
                        data,
                    )
                    &&& res == poll_outcome(
                        irqs,
                        errs,
                        *old(t),
                        old(rx)@.len() - old(t).rx_pos,
                        level,
                    )
                    &&& !irqs.timeri() ==> final(t).collision == collided(
                        irqs,
                        errs,
                        old(t).collision,
                    )
                    &&& event_of(irqs, errs, old(t).collision) is Busy ==> final(t).tx_done
                        == (old(t).tx_done || irqs.txi())
                },
    {
        let ghost ops0 = self.inner.iface.ops();
        let ghost room = rx@.len() - t.rx_pos;
        let ghost frame = frame_data(*opts, tx@);
        let ghost t0 = *t;
        let mut irqs = self.inner.regs().commirq().read();
        let ghost seen = irqs;
        let ghost none = regs::Fifolevel(0);
        proof {
            lemma_fifo_push();
        }
        if irqs.timeri() {
            proof {
                assert(event_of(seen, regs::Error(0), t0.collision) == Event::Failed(Error::Timeout));
                assert(self.inner.iface.ops() == poll_ops(
                    ops0,
                    seen,
                    regs::Error(0),
                    t0,
                    frame,
                    room,
                    none,
                    Seq::<u8>::empty(),
                ));
            }
            return Err(Error::Timeout);
        }
        let ghost mut errs_seen = regs::Error(0);
        if irqs.erri() {
            let errs = self.inner.regs().error().read();
            proof {
                errs_seen = errs;
            }
            if errs.collerr() {
                t.collision = true;
            }
            match classify_errors(errs, t.collision) {
                Some(e) => {
                    proof {
                        assert(event_of(seen, errs_seen, t0.collision) == Event::Failed(e));
                        assert(self.inner.iface.ops() == poll_ops(
                            ops0,
                            seen,
                            errs_seen,
                            t0,
                            frame,
                            room,
                            none,
                            Seq::<u8>::empty(),
                        ));
                    }
                    return Err(e);
                },
                None => {},
            }
        }
        let ghost looked = self.inner.iface.ops();
        assert(looked == look_ops(ops0, seen, errs_seen));
        if irqs.txi() {
            t.tx_done = true;
        }
        if irqs.rxi() {
            proof {
                assert(event_of(seen, errs_seen, t0.collision) == Event::Received);
                assert(looked == poll_ops(
                    ops0,
                    seen,
                    errs_seen,
                    t0,
                    frame,
                    room,
                    none,
                    Seq::<u8>::empty(),
                ));
            }
            return Ok(true);
        }
        assert(event_of(seen, errs_seen, t0.collision) == Event::Busy);
        // Writing the requests back with the set bit clear takes back those
        // that were seen and leaves the others.
        irqs.set_set(false);
        self.inner.regs().commirq().write_value(irqs);
        let ghost cleared = self.inner.iface.ops();
        assert(cleared == looked.push(super::wrote(regs::COMMIRQ, seen.with_set(false))));
        if t.tx_done {
            let drained = self.drain(t, rx);
            proof {
                let (level, data) = choose|level: regs::Fifolevel, data: Seq<u8>|
                    {
                        &&& self.inner.iface.ops() == #[trigger] drain_ops(
                            cleared,
                            level,
                            room,
                            data,
                        )
                        &&& drained == drain_outcome(level, room)
                    };
                assert(self.inner.iface.ops() == poll_ops(
                    ops0,
                    seen,
                    errs_seen,
                    t0,
                    frame,
                    room,
                    level,
                    data,
                ));
            }
            match drained {
                Ok(()) => {},
                Err(e) => {
                    return Err(e);
                },
            }
        } else {
            self.feed(t, tx, opts);
            proof {
                let level = choose|level: regs::Fifolevel|
                    self.inner.iface.ops() == #[trigger] feed_ops(
                        cleared,
                        frame,
                        t0.tx_pos as int,
                        level,
                    );
                assert(self.inner.iface.ops() == poll_ops(
                    ops0,
                    seen,
                    errs_seen,
                    t0,
                    frame,
                    room,
                    level,
                    Seq::<u8>::empty(),
                ));
            }
        }
        Ok(false)
    }
}

/// The number of valid bits after an anticollision frame of `bits` bits to
/// which the card sent `rx_pos` bytes. Without a collision every byte of
/// the card counts in full. With one, the bits up to the collision count;
/// the chip gives the place of the collision counted from one, with 0 for
/// the thirty-second bit, or says that it lies further on, which is not
/// acceptable.
pub open spec fn anticoll_bits(bits: int, rx_pos: int, collision: bool, coll: regs::Coll) -> Result<
    usize,
    Error,
> {
    if collision {
        if coll.collposnotvalid() {
            Err(Error::Protocol)
        } else if coll.collpos() == 0 {
            Ok((bits + 32 - 1) as usize)
        } else {
            Ok((bits + coll.collpos() - 1) as usize)
        }
    } else {
        Ok((bits / 8 * 8 + rx_pos * 8) as usize)
    }
}

/// Counts the valid bits after an anticollision frame.
pub fn count_anticoll_bits(bits: usize, rx_pos: usize, collision: bool, coll: regs::Coll) -> (res:
    Result<usize, Error>)
    requires
        16 <= bits <= 55,
        (rx_pos + bits / 8) * 8 <= usize::MAX,
    ensures
        res == anticoll_bits(bits as int, rx_pos as int, collision, coll),
        res matches Ok(n) ==> n >= bits / 8 * 8,
{
    if collision {
        if coll.collposnotvalid() {
            return Err(Error::Protocol);
        }
        let mut collpos = coll.collpos() as usize;
        if collpos == 0 {
            collpos = 32;
        }
        // The place is counted from one, and the bit there is not valid.
        Ok(bits + collpos - 1)
    } else {
        Ok(bits / 8 * 8 + rx_pos * 8)
    }
}

impl<'d, I: Interface> Iso14443a<'d, I> {
    /// Ends an exchange whose answer is complete: takes the rest of the
    /// answer out of the FIFO and puts the result together. Returns the
    /// number of valid bits in `rx`.
    ///
    /// After a standard or a short frame `rx` holds the answer, in whole
    /// bytes. After an anticollision frame `rx` holds the bits of the
    /// request and behind them those of the card, as [`anticoll::merged`]
    /// says.
    ///
    /// Fails with `Other` where the chip has sent the frame before all of
    /// it was in the FIFO or `rx` has no room for the result; with
    /// `Collision` where bits collided in a standard or a short frame; with
    /// `Protocol` where the last byte of the answer to a standard frame is
    /// not complete or the chip cannot say where bits collided.
    pub fn finish(&mut self, t: Transfer, tx: &[u8], rx: &mut [u8], opts: &ll::Frame) -> (res:
        Result<usize, Error>)
        requires
            opts.wf(),
            opts matches ll::Frame::Anticoll { bits } ==> tx@.len() >= ll::bytes_for(bits as int),
            t.inv(old(self).inner.iface.ops(), *opts, tx@, old(rx)@),
            old(rx)@.len() * 8 <= usize::MAX,
        ensures
            *final(final(self).inner) == *final(old(self).inner),
            final(rx)@.len() == old(rx)@.len(),
            exists|level: regs::Fifolevel, data: Seq<u8>, coll: regs::Coll, control: regs::Control|
                {
                    &&& final(self).inner.iface.ops() == #[trigger] finish_ops(
                        old(self).inner.iface.ops(),
                        t,
                        *opts,
                        old(rx)@.len() - t.rx_pos,
                        level,
                        data,
                        coll,
                        control,
                    )
                    &&& res == finish_outcome(t, *opts, old(rx)@.len() as int, level, coll, control)
                },
            res matches Ok(n) ==> {
                &&& given(final(self).inner.iface.ops(), t.start@) == frame_data(*opts, tx@)
                &&& match *opts {
                    ll::Frame::Anticoll { bits } => {
                        &&& ll::bytes_for(bits as int) <= final(rx)@.len()
                        &&& final(rx)@ == anticoll::merged(
                            taken(final(self).inner.iface.ops(), t.start@),
                            tx@,
                            bits as int,
                            final(rx)@.len(),
                        )
                        &&& ll::same_bits(final(rx)@, tx@, bits as int)
                    },
                    _ => {
                        &&& n % 8 == 0
                        &&& n / 8 <= final(rx)@.len()
                        &&& final(rx)@.subrange(0, n as int / 8) == taken(
                            final(self).inner.iface.ops(),
                            t.start@,
                        )
                    },
                }
            },
    {
        let ghost t0 = t;
        let mut t = t;
        let ghost ops0 = self.inner.iface.ops();
        let ghost room = rx@.len() - t.rx_pos;
        let ghost len = rx@.len() as int;
        let ghost no_level = regs::Fifolevel(0);
        let ghost no_coll = regs::Coll(0);
        let ghost no_control = regs::Control(0);
        proof {
            lemma_fifo_push();
            record::lemma_extends::<Op>();
        }
        if t.tx_pos != t.tx_len {
            // The chip says that the frame is out, but not all of it was in.
            proof {
                assert(ops0 == finish_ops(
                    ops0,
                    t0,
                    *opts,
                    room,
                    no_level,
                    Seq::<u8>::empty(),
                    no_coll,
                    no_control,
                ));
            }
            return Err(Error::Other);
        }
        assert(frame_data(*opts, tx@).subrange(0, t.tx_len as int) =~= frame_data(*opts, tx@));
        let drained = self.drain(&mut t, rx);
        let ghost ops1 = self.inner.iface.ops();
        let ghost (level, data) = choose|level: regs::Fifolevel, data: Seq<u8>|
            {
                &&& ops1 == #[trigger] drain_ops(ops0, level, room, data)
                &&& drained == drain_outcome(level, room)
                &&& drained is Ok ==> t.rx_pos == t0.rx_pos + level.level()
            };
        match drained {
            Ok(()) => {},
            Err(e) => {
                proof {
                    assert(ops1 == finish_ops(ops0, t0, *opts, room, level, data, no_coll, no_control));
                }
                return Err(e);
            },
        }
        let ghost got = taken(ops1, t.start@);
        assert(got.len() == t.rx_pos) by {
            assert(got == rx@.subrange(0, t.rx_pos as int));
        }
        match opts {
            ll::Frame::Anticoll { bits } => {
                let coll = if t.collision {
                    self.inner.regs().coll().read()
                } else {
                    regs::Coll(0)
                };
                proof {
                    assert(self.inner.iface.ops() == finish_ops(
                        ops0,
                        t0,
                        *opts,
                        room,
                        level,
                        data,
                        coll,
                        no_control,
                    ));
                }
                match merge_anticoll(rx, t.rx_pos, tx, *bits) {
                    Ok(()) => {},
                    Err(()) => {
                        return Err(Error::Other);
                    },
                }
                let total = match count_anticoll_bits(*bits, t.rx_pos, t.collision, coll) {
                    Ok(total) => total,
                    Err(e) => {
                        return Err(e);
                    },
                };
                proof {
                    anticoll::lemma_merged_keeps_request(got, tx@, *bits as int, rx@.len());
                    assert(taken(self.inner.iface.ops(), t.start@) == got);
                }
                Ok(total)
            },
            _ => {
                if t.collision {
                    proof {
                        assert(ops1 == finish_ops(
                            ops0,
                            t0,
                            *opts,
                            room,
                            level,
                            data,
                            no_coll,
                            no_control,
                        ));
                    }
                    return Err(Error::Collision);
                }
                let standard = match opts {
                    ll::Frame::Standard { .. } => true,
                    _ => false,
                };
                if standard {
                    let control = self.inner.regs().control().read();
                    proof {
                        assert(self.inner.iface.ops() == finish_ops(
                            ops0,
                            t0,
                            *opts,
                            room,
                            level,
                            data,
                            no_coll,
                            control,
                        ));
                    }
                    if control.rxbits() != 0 {
                        return Err(Error::Protocol);
                    }
                } else {
                    proof {
                        assert(ops1 == finish_ops(
                            ops0,
                            t0,
                            *opts,
                            room,
                            level,
                            data,
                            no_coll,
                            no_control,
                        ));
                    }
                }
                Ok(t.rx_pos * 8)
            },
        }
    }
}

} // verus!
