//! The block protocol of ISO/IEC 14443-4 over a selected Type A card.
//!
//! A session starts with RATS; the card's answer, the ATS, fixes the largest
//! frame the card takes and the time it may take to answer. After that every
//! exchange of the caller is carried by one or more blocks. The card may ask
//! for more time, either side may split its data over several blocks, and a
//! block that is lost is asked for again.
//!
//! The exchange is written as a state machine. [`IsoDepA::frame`] builds the
//! block that the state calls for and [`IsoDepA::handle`] takes what came
//! back and gives the next state, or the end of the exchange. What the
//! machine does for each answer is said by [`next_state`],
//! [`next_block_num`], [`next_outcome`] and [`next_rx`], and the contracts
//! and laws of this module are stated over them. [`IsoDepA::step`] does one
//! round with a card at hand; the caller repeats it until the exchange has
//! ended.
use vstd::prelude::*;
use crate::bytes;
use crate::traits::iso14443a;
use crate::traits::iso14443a::Reader as Iso14443aReader;
use crate::traits::iso14443a_ll::{Error as FrameError, ErrorKind};

verus! {

/// The longest ATS that is read.
pub const ATS_MAX_LEN: usize = 32;

/// The largest frame size that a card can announce.
pub const FSC_MAX: usize = 256;

/// The largest frame without its CRC.
pub const FSC_MAX_WITHOUT_CRC: usize = 254;

/// The longest frame waiting time that a card can announce: FWI 14.
pub const FWT_MAX_1FC: u32 = 67108864;

/// The time allowed for the answer to RATS, in carrier periods.
pub const RATS_TIMEOUT_1FC: u32 = 65536;

/// How often a block is asked for again before the exchange is given up.
pub const MAX_RETRIES: usize = 10;

/// The frame size, in bytes, that the code `fsci` stands for; 0 where the
/// code is not defined.
pub open spec fn fsc_of(fsci: int) -> int {
    if fsci == 0 {
        16
    } else if fsci == 1 {
        24
    } else if fsci == 2 {
        32
    } else if fsci == 3 {
        40
    } else if fsci == 4 {
        48
    } else if fsci == 5 {
        64
    } else if fsci == 6 {
        96
    } else if fsci == 7 {
        128
    } else if fsci == 8 {
        256
    } else {
        0
    }
}

/// The frame sizes that have a code.
pub open spec fn is_fsc(fsc: int) -> bool {
    fsc == 16 || fsc == 24 || fsc == 32 || fsc == 40 || fsc == 48 || fsc == 64 || fsc == 96 || fsc
        == 128 || fsc == 256
}

/// The code of the frame size `fsc`; 9, which is no code, where the size has
/// none.
pub open spec fn fsci_of(fsc: int) -> int {
    if fsc == 16 {
        0
    } else if fsc == 24 {
        1
    } else if fsc == 32 {
        2
    } else if fsc == 40 {
        3
    } else if fsc == 48 {
        4
    } else if fsc == 64 {
        5
    } else if fsc == 96 {
        6
    } else if fsc == 128 {
        7
    } else if fsc == 256 {
        8
    } else {
        9
    }
}

/// A frame size goes to its code and back unchanged.
pub proof fn lemma_fsc_round_trip(fsc: int)
    requires
        is_fsc(fsc),
    ensures
        0 <= fsci_of(fsc) <= 8,
        fsc_of(fsci_of(fsc)) == fsc,
{
}

/// A code goes to its frame size and back unchanged.
pub proof fn lemma_fsci_round_trip(fsci: int)
    requires
        0 <= fsci <= 8,
    ensures
        is_fsc(fsc_of(fsci)),
        fsci_of(fsc_of(fsci)) == fsci,
{
}

/// The frame size for a code, if the code is defined.
pub fn frame_size(fsci: usize) -> (fsc: Option<usize>)
    ensures
        fsc matches Some(n) ==> fsci <= 8 && n == fsc_of(fsci as int),
        fsc is None <==> fsci > 8,
{
    match fsci {
        0 => Some(16),
        1 => Some(24),
        2 => Some(32),
        3 => Some(40),
        4 => Some(48),
        5 => Some(64),
        6 => Some(96),
        7 => Some(128),
        8 => Some(256),
        _ => None,
    }
}

/// The code for a frame size, if the size has one.
pub fn frame_size_code(fsc: usize) -> (fsci: Option<u8>)
    ensures
        fsci matches Some(c) ==> is_fsc(fsc as int) && c == fsci_of(fsc as int),
        fsci is None <==> !is_fsc(fsc as int),
{
    match fsc {
        16 => Some(0),
        24 => Some(1),
        32 => Some(2),
        40 => Some(3),
        48 => Some(4),
        64 => Some(5),
        96 => Some(6),
        128 => Some(7),
        256 => Some(8),
        _ => None,
    }
}

/// The waiting time for the exponent `wi`, in carrier periods:
/// 256 * 16 * 2^wi.
pub open spec fn waiting_time(wi: int) -> int {
    4096 * (vstd::arithmetic::power2::pow2(wi as nat) as int)
}

/// The RATS command that announces the reader's own frame size `fsd` and
/// gives the card the channel number `cid`.
pub open spec fn rats_command(fsd: int, cid: u8) -> Seq<u8> {
    seq![0xE0u8, ((fsci_of(fsd) * 16) as u8) | cid]
}

/// What an ATS says of the session.
#[derive(Clone, Copy, Debug, PartialEq, Eq, Structural)]
pub struct Ats {
    /// The code of the card's frame size.
    pub fsci: u8,
    /// The exponent of the start-up frame guard time.
    pub sfgi: u8,
    /// The exponent of the frame waiting time.
    pub fwi: u8,
}

/// The interface byte TB of an ATS, where it has one. The format byte at
/// place 1 says which interface bytes follow it; TB comes after TA.
pub open spec fn ats_tb(ats: Seq<u8>) -> Option<u8> {
    if ats.len() >= 2 && ats[1] & 0x20 != 0 {
        let at: int = if ats[1] & 0x10 != 0 {
            3
        } else {
            2
        };
        if at < ats.len() {
            Some(ats[at])
        } else {
            None
        }
    } else {
        None
    }
}

/// The parameters that an ATS gives, with the defaults of the standard for
/// what it leaves out: frame size code 2, guard time exponent 0, waiting time
/// exponent 4.
pub open spec fn ats_params(ats: Seq<u8>) -> Ats {
    Ats {
        fsci: if ats.len() >= 2 {
            ats[1] & 0x0F
        } else {
            2
        },
        sfgi: match ats_tb(ats) {
            Some(tb) => tb & 0x0F,
            None => 0,
        },
        fwi: match ats_tb(ats) {
            Some(tb) => tb >> 4,
            None => 4,
        },
    }
}

/// Reads the parameters of an ATS.
pub fn parse_ats(ats: &[u8]) -> (params: Ats)
    ensures
        params == ats_params(ats@),
        params.fsci <= 15,
        params.sfgi <= 15,
        params.fwi <= 15,
{
    let mut fsci: u8 = 2;
    let mut sfgi: u8 = 0;
    let mut fwi: u8 = 4;
    if ats.len() >= 2 {
        let t0 = ats[1];
        fsci = t0 & 0x0F;
        if t0 & 0x20 != 0 {
            let tb_idx: usize = if t0 & 0x10 != 0 {
                3
            } else {
                2
            };
            if tb_idx < ats.len() {
                let tb = ats[tb_idx];
                sfgi = tb & 0x0F;
                fwi = tb >> 4;
            }
        }
    }
    proof {
        assert(forall|b: u8| #[trigger] (b & 0x0F) <= 15) by {
            assert forall|b: u8| #[trigger] (b & 0x0F) <= 15 by {
                assert(b & 0x0F <= 15) by (bit_vector);
            }
        }
        assert(forall|b: u8| #[trigger] (b >> 4) <= 15) by {
            assert forall|b: u8| #[trigger] (b >> 4) <= 15 by {
                assert(b >> 4 <= 15) by (bit_vector);
            }
        }
    }
    Ats { fsci, sfgi, fwi }
}

/// The waiting time for an exponent of at most 15.
pub fn waiting_time_1fc(wi: u8) -> (t: u32)
    requires
        wi <= 15,
    ensures
        t == waiting_time(wi as int),
        wi <= 14 ==> t <= FWT_MAX_1FC,
{
    proof {
        vstd::arithmetic::power2::lemma2_to64();
        assert(4096u32 << 0u32 == 4096u32 && 4096u32 << 1u32 == 8192u32 && 4096u32 << 2u32
            == 16384u32 && 4096u32 << 3u32 == 32768u32 && 4096u32 << 4u32 == 65536u32 && 4096u32
            << 5u32 == 131072u32 && 4096u32 << 6u32 == 262144u32 && 4096u32 << 7u32 == 524288u32
            && 4096u32 << 8u32 == 1048576u32 && 4096u32 << 9u32 == 2097152u32 && 4096u32 << 10u32
            == 4194304u32 && 4096u32 << 11u32 == 8388608u32 && 4096u32 << 12u32 == 16777216u32
            && 4096u32 << 13u32 == 33554432u32 && 4096u32 << 14u32 == 67108864u32 && 4096u32
            << 15u32 == 134217728u32) by (bit_vector);
    }
    4096u32 << (wi as u32)
}

/// What can end an exchange early.
#[derive(Debug, Clone, PartialEq, Eq)]
pub enum Error<E> {
    /// The card below failed in a way that trying again does not cure.
    Iso14443a(E),
    /// The card sent what the protocol does not allow at that point.
    Protocol,
    /// Ten tries in a row were lost or damaged.
    Communication,
    /// The data does not fit in the frame that the card takes.
    TxFrameTooBig,
    /// The card sent more than the caller's buffer holds.
    RxFrameTooBig,
}

/// The block that the reader sends next.
#[derive(Debug, Clone, Copy, PartialEq, Eq, Structural)]
pub enum Send {
    /// The next part of the caller's data, as an I-block.
    Data,
    /// R(ACK): the card is to go on with its chained answer.
    Ack,
    /// R(NAK): the card is to repeat what was lost.
    Nak,
    /// S(WTX): the card is granted the waiting time multiplier it asked for.
    Wtx(u8),
}

/// The state of one exchange of the caller.
#[derive(Debug, Clone, Copy, PartialEq, Eq, Structural)]
pub struct Exchange {
    /// The block to send next.
    pub send: Send,
    /// How many bytes of the caller's data the card has acknowledged.
    pub tx_pos: usize,
    /// How many bytes of the answer have been received.
    pub rx_total: usize,
    /// Whether the card is in the middle of a chained answer.
    pub rx_chaining: bool,
    /// How many tries in a row have failed.
    pub retries: usize,
}

impl Exchange {
    /// The state fits data of `tx_len` bytes and a buffer of `rx_room` bytes.
    pub open spec fn wf(self, tx_len: int, rx_room: int) -> bool {
        &&& self.tx_pos <= tx_len
        &&& self.rx_total <= rx_room
        &&& self.retries < MAX_RETRIES
        &&& self.send matches Send::Wtx(m) ==> m <= 0x3F
    }

    /// The state in which every exchange starts.
    pub open spec fn initial() -> Exchange {
        Exchange { send: Send::Data, tx_pos: 0, rx_total: 0, rx_chaining: false, retries: 0 }
    }
}

/// The most bytes of data that one block carries: the frame without the
/// protocol control byte and the CRC.
pub open spec fn max_inf(fsc: int) -> int {
    fsc - 3
}

/// How many bytes of data the next I-block carries.
pub open spec fn chunk_len(fsc: int, tx_len: int, tx_pos: int) -> int {
    if tx_len - tx_pos <= max_inf(fsc) {
        tx_len - tx_pos
    } else {
        max_inf(fsc)
    }
}

/// The protocol control byte of an I-block.
pub open spec fn i_pcb(block_num: u8, chaining: bool) -> u8 {
    0x02u8 | block_num | if chaining {
        0x10u8
    } else {
        0u8
    }
}

/// The block, without CRC, that the state `ex` calls for.
pub open spec fn block(fsc: int, block_num: u8, ex: Exchange, tx: Seq<u8>) -> Seq<u8> {
    match ex.send {
        Send::Data => {
            let n = chunk_len(fsc, tx.len() as int, ex.tx_pos as int);
            seq![i_pcb(block_num, n != tx.len() - ex.tx_pos)] + tx.subrange(
                ex.tx_pos as int,
                ex.tx_pos + n,
            )
        },
        Send::Wtx(m) => seq![0xF2u8, m],
        Send::Ack => seq![0xA2u8 | block_num],
        Send::Nak => seq![0xB2u8 | block_num],
    }
}

/// The time allowed for the answer to that block: the frame waiting time,
/// times the multiplier where the card was granted one.
pub open spec fn block_timeout(fwt_1fc: int, ex: Exchange) -> int {
    match ex.send {
        Send::Wtx(m) => fwt_1fc * m,
        _ => fwt_1fc,
    }
}

/// Whether a protocol control byte is that of an I-block.
pub open spec fn is_i_block(pcb: u8) -> bool {
    pcb == 0x02 || pcb == 0x03 || pcb == 0x12 || pcb == 0x13
}

/// Whether a protocol control byte is that of an R(ACK).
pub open spec fn is_r_ack(pcb: u8) -> bool {
    pcb == 0xA2 || pcb == 0xA3
}

/// Whether an answer lets the exchange go one acknowledged I-block further:
/// an I-block of the card that the buffer holds, or an R(ACK) with the
/// current block number while the reader has more to send.
pub open spec fn acknowledges<E>(
    fsc: int,
    block_num: u8,
    ex: Exchange,
    tx_len: int,
    rx_room: int,
    reply: Result<Seq<u8>, E>,
) -> bool {
    match reply {
        Ok(frame) => frame.len() > 0 && {
            ||| is_i_block(frame[0]) && frame.len() - 1 <= rx_room - ex.rx_total
            ||| is_r_ack(frame[0]) && frame[0] & 1 == block_num && tx_len - ex.tx_pos > max_inf(
                fsc,
            )
        },
        Err(_) => false,
    }
}

/// The state after an answer.
pub open spec fn next_state<E: FrameError>(
    fsc: int,
    block_num: u8,
    ex: Exchange,
    tx_len: int,
    rx_room: int,
    reply: Result<Seq<u8>, E>,
) -> Exchange {
    match reply {
        Err(e) => if e.kind_of() == ErrorKind::Timeout || e.kind_of() == ErrorKind::Corruption {
            Exchange {
                retries: (ex.retries + 1) as usize,
                send: if ex.retries + 1 >= MAX_RETRIES {
                    ex.send
                } else if ex.rx_chaining {
                    Send::Ack
                } else {
                    Send::Nak
                },
                ..ex
            }
        } else {
            ex
        },
        Ok(frame) => if frame.len() == 0 {
            ex
        } else if is_i_block(frame[0]) {
            if frame.len() - 1 > rx_room - ex.rx_total {
                Exchange { retries: 0, ..ex }
            } else if frame[0] & 0x10 == 0 {
                Exchange { retries: 0, rx_total: (ex.rx_total + frame.len() - 1) as usize, ..ex }
            } else {
                Exchange {
                    retries: 0,
                    rx_total: (ex.rx_total + frame.len() - 1) as usize,
                    rx_chaining: true,
                    send: Send::Ack,
                    ..ex
                }
            }
        } else if is_r_ack(frame[0]) {
            if frame[0] & 1 != block_num {
                Exchange { retries: 0, send: Send::Data, ..ex }
            } else if tx_len - ex.tx_pos <= max_inf(fsc) {
                Exchange { retries: 0, ..ex }
            } else {
                Exchange {
                    retries: 0,
                    send: Send::Data,
                    tx_pos: (ex.tx_pos + max_inf(fsc)) as usize,
                    ..ex
                }
            }
        } else if frame[0] == 0xF2 && frame.len() == 2 {
            Exchange { retries: 0, send: Send::Wtx(frame[1] & 0x3F), ..ex }
        } else {
            Exchange { retries: 0, ..ex }
        },
    }
}

/// The block number after an answer: it changes over exactly when the answer
/// acknowledges an I-block.
pub open spec fn next_block_num<E>(
    fsc: int,
    block_num: u8,
    ex: Exchange,
    tx_len: int,
    rx_room: int,
    reply: Result<Seq<u8>, E>,
) -> u8 {
    if acknowledges(fsc, block_num, ex, tx_len, rx_room, reply) {
        block_num ^ 1
    } else {
        block_num
    }
}

/// How an answer moves the exchange: `Ok(None)` where it goes on,
/// `Ok(Some(n))` where it has ended with an answer of `n` bytes, and the
/// error where it has failed.
pub open spec fn next_outcome<E: FrameError>(
    fsc: int,
    block_num: u8,
    ex: Exchange,
    tx_len: int,
    rx_room: int,
    reply: Result<Seq<u8>, E>,
) -> Result<Option<usize>, Error<E>> {
    match reply {
        Err(e) => if e.kind_of() == ErrorKind::Timeout || e.kind_of() == ErrorKind::Corruption {
            if ex.retries + 1 >= MAX_RETRIES {
                Err(Error::Communication)
            } else {
                Ok(None)
            }
        } else {
            Err(Error::Iso14443a(e))
        },
        Ok(frame) => if frame.len() == 0 {
            Err(Error::Protocol)
        } else if is_i_block(frame[0]) {
            if frame.len() - 1 > rx_room - ex.rx_total {
                Err(Error::RxFrameTooBig)
            } else if frame[0] & 0x10 == 0 {
                Ok(Some((ex.rx_total + frame.len() - 1) as usize))
            } else {
                Ok(None)
            }
        } else if is_r_ack(frame[0]) {
            if frame[0] & 1 == block_num && tx_len - ex.tx_pos <= max_inf(fsc) {
                Err(Error::Protocol)
            } else {
                Ok(None)
            }
        } else if frame[0] == 0xF2 && frame.len() == 2 {
            Ok(None)
        } else {
            Err(Error::Protocol)
        },
    }
}

/// The caller's buffer after an answer: the data of an I-block that fits is
/// put behind what was received before, and nothing else changes.
pub open spec fn next_rx<E>(rx: Seq<u8>, ex: Exchange, reply: Result<Seq<u8>, E>) -> Seq<u8> {
    match reply {
        Ok(frame) => if frame.len() > 0 && is_i_block(frame[0]) && frame.len() - 1 <= rx.len()
            - ex.rx_total {
            rx.subrange(0, ex.rx_total as int) + frame.subrange(1, frame.len() as int)
                + rx.subrange(ex.rx_total + frame.len() - 1, rx.len() as int)
        } else {
            rx
        },
        Err(_) => rx,
    }
}

/// The exchange that starts a session: RATS for the frame size 256 and the
/// channel 0, with its own time for the answer.
pub open spec fn rats_exchange<E>(reply: Result<Seq<u8>, E>) -> iso14443a::Exchange<E> {
    iso14443a::Exchange { tx: rats_command(FSC_MAX as int, 0), timeout_1fc: RATS_TIMEOUT_1FC, reply }
}

/// What the answer to S(DESELECT) means: the card's error, or a protocol
/// error where the card has sent anything but the same block.
pub open spec fn deselect_outcome<E>(reply: Result<Seq<u8>, E>) -> Result<(), Error<E>> {
    match reply {
        Err(e) => Err(Error::Iso14443a(e)),
        Ok(frame) => if frame == seq![0xC2u8] {
            Ok(())
        } else {
            Err(Error::Protocol)
        },
    }
}

/// A session of the block protocol with one card.
pub struct IsoDepA<T: Iso14443aReader> {
    /// The card that the session runs on.
    pub card: T,
    /// The largest frame that the card takes, protocol control byte and CRC
    /// included.
    pub fsc: usize,
    /// The start-up frame guard time, in carrier periods.
    pub sfgt_1fc: u32,
    /// The frame waiting time, in carrier periods.
    pub fwt_1fc: u32,
    /// The number of the block that is exchanged next: 0 or 1.
    pub block_num: u8,
}

/// The RATS command of this reader: frame size 256, channel 0.
pub fn rats() -> (cmd: [u8; 2])
    ensures
        cmd@ == rats_command(FSC_MAX as int, 0),
{
    let cmd = [0xE0u8, 0x80u8];
    proof {
        assert(((8 * 16) as u8) | 0u8 == 0x80u8) by (bit_vector);
        assert(cmd@ =~= rats_command(FSC_MAX as int, 0));
    }
    cmd
}

impl<T: Iso14443aReader> IsoDepA<T> {
    /// The session can carry an exchange: a frame holds at least one byte of
    /// data, the waiting time can be multiplied without overflow, and the
    /// block number is a single bit.
    pub open spec fn wf(&self) -> bool {
        &&& 4 <= self.fsc <= FSC_MAX
        &&& self.fwt_1fc <= FWT_MAX_1FC
        &&& self.block_num <= 1
    }

    /// Whether a session with the parameters of `ats` is this one, at its
    /// start.
    pub open spec fn activated_by(&self, ats: Seq<u8>) -> bool {
        &&& self.fsc == fsc_of(ats_params(ats).fsci as int)
        &&& self.sfgt_1fc == waiting_time(ats_params(ats).sfgi as int)
        &&& self.fwt_1fc == waiting_time(ats_params(ats).fwi as int)
        &&& self.block_num == 0
    }

    /// Starts a session on `card` from the ATS that the card has sent.
    ///
    /// Fails with `Protocol` where the ATS names a frame size code above 8 or
    /// the waiting time exponent 15, which the standard does not define.
    pub fn with_ats(card: T, ats: &[u8]) -> (res: Result<Self, Error<T::Error>>)
        ensures
            res is Ok <==> ats_params(ats@).fsci <= 8 && ats_params(ats@).fwi <= 14,
            res matches Ok(dep) ==> dep.wf() && dep.activated_by(ats@) && dep.card == card,
            res matches Err(e) ==> e is Protocol,
    {
        let params = parse_ats(ats);
        let fsc = match frame_size(params.fsci as usize) {
            Some(fsc) => fsc,
            None => {
                return Err(Error::Protocol);
            },
        };
        if params.fwi > 14 {
            return Err(Error::Protocol);
        }
        let sfgt_1fc = waiting_time_1fc(params.sfgi);
        let fwt_1fc = waiting_time_1fc(params.fwi);
        Ok(Self { card, fsc, sfgt_1fc, fwt_1fc, block_num: 0 })
    }

    /// Sends RATS to `card` and starts a session from the answer.
    ///
    /// Fails with the card's error where the exchange fails, and as
    /// [`Self::with_ats`] does where the answer is not acceptable.
    pub fn new(card: T) -> (res: Result<Self, Error<T::Error>>)
        ensures
            res matches Ok(dep) ==> dep.wf(),
            exists|reply: Result<Seq<u8>, T::Error>|
                match reply {
                    Err(e) => res matches Err(Error::Iso14443a(f)) && f == e,
                    Ok(ats) => {
                        &&& ats.len() <= ATS_MAX_LEN
                        &&& if ats_params(ats).fsci <= 8 && ats_params(ats).fwi <= 14 {
                            res matches Ok(dep) && dep.activated_by(ats) && dep.card.log()
                                == card.log().push(
                                #[trigger] rats_exchange(reply),
                            )
                        } else {
                            res matches Err(Error::Protocol)
                        }
                    },
                },
    {
        let ghost before = card.log();
        let mut card = card;
        let req = rats();
        let mut res = [0u8; ATS_MAX_LEN];
        let got = card.transceive(req.as_slice(), &mut res, RATS_TIMEOUT_1FC);
        let ghost reply = iso14443a::reply_of(got, res@);
        assert(card.log() == before.push(rats_exchange(reply))) by {
            assert(req@ == rats_command(FSC_MAX as int, 0));
        }
        let res_len = match got {
            Ok(len) => len,
            Err(e) => {
                assert(rats_exchange(reply).reply is Err);
                return Err(Error::Iso14443a(e));
            },
        };
        let ats = vstd::slice::slice_subrange(res.as_slice(), 0, res_len);
        let out = Self::with_ats(card, ats);
        assert(rats_exchange(reply).reply == Ok::<Seq<u8>, T::Error>(ats@));
        out
    }

    /// The card that the session runs on.
    pub fn inner(&self) -> (card: &T)
        ensures
            *card == self.card,
    {
        &self.card
    }

    /// The card that the session runs on, for changing it.
    pub fn inner_mut(&mut self) -> (card: &mut T)
        ensures
            *card == old(self).card,
            final(self).card == *final(card),
            final(self).fsc == old(self).fsc,
            final(self).sfgt_1fc == old(self).sfgt_1fc,
            final(self).fwt_1fc == old(self).fwt_1fc,
            final(self).block_num == old(self).block_num,
    {
        &mut self.card
    }

    /// Whether the card's answer to S(DESELECT) is acceptable: the same
    /// block, alone.
    pub fn deselected(rx_len: usize, rx: &[u8]) -> (ok: bool)
        requires
            rx_len <= rx@.len(),
        ensures
            ok <==> rx@.subrange(0, rx_len as int) == seq![0xC2u8],
    {
        let ok = rx_len == 1 && rx[0] == 0xC2;
        proof {
            if ok {
                assert(rx@.subrange(0, rx_len as int) =~= seq![0xC2u8]);
            } else if rx_len == 1 {
                assert(rx@.subrange(0, rx_len as int)[0] == rx@[0]);
            } else {
                assert(rx@.subrange(0, rx_len as int).len() != 1);
            }
        }
        ok
    }

    /// Ends the session: sends S(DESELECT) and expects it back.
    ///
    /// Fails with the card's error where the exchange fails and with
    /// `Protocol` where the card answers anything else.
    pub fn deselect(&mut self) -> (res: Result<(), Error<T::Error>>)
        ensures
            final(self).fsc == old(self).fsc,
            final(self).sfgt_1fc == old(self).sfgt_1fc,
            final(self).fwt_1fc == old(self).fwt_1fc,
            final(self).block_num == old(self).block_num,
            exists|reply: Result<Seq<u8>, T::Error>|
                {
                    &&& final(self).card.log() == old(self).card.log().push(
                        iso14443a::Exchange {
                            tx: seq![0xC2u8],
                            timeout_1fc: old(self).fwt_1fc,
                            reply,
                        },
                    )
                    &&& res == #[trigger] deselect_outcome(reply)
                },
    {
        let tx_buf = [0xC2u8];
        let mut rx_buf = [0u8; 1];
        let got = self.card.transceive(tx_buf.as_slice(), &mut rx_buf, self.fwt_1fc);
        let ghost reply = iso14443a::reply_of(got, rx_buf@);
        assert(tx_buf@ =~= seq![0xC2u8]);
        let rx_len = match got {
            Ok(len) => len,
            Err(e) => {
                let res = Err(Error::Iso14443a(e));
                assert(res == deselect_outcome(reply));
                return res;
            },
        };
        let res = if !Self::deselected(rx_len, rx_buf.as_slice()) {
            Err(Error::Protocol)
        } else {
            Ok(())
        };
        assert(res == deselect_outcome(reply));
        res
    }

    /// The state in which an exchange starts.
    pub fn begin(&self) -> (ex: Exchange)
        ensures
            ex == Exchange::initial(),
    {
        Exchange { send: Send::Data, tx_pos: 0, rx_total: 0, rx_chaining: false, retries: 0 }
    }

    /// Builds in `buf` the block that the state `ex` calls for. Returns the
    /// length of the block and the time allowed for the answer, in carrier
    /// periods.
    pub fn frame(&self, ex: &Exchange, tx: &[u8], buf: &mut [u8]) -> (res: (usize, u32))
        requires
            self.wf(),
            ex.tx_pos <= tx@.len(),
            ex.send matches Send::Wtx(m) ==> m <= 0x3F,
            old(buf)@.len() >= FSC_MAX_WITHOUT_CRC,
        ensures
            final(buf)@.len() == old(buf)@.len(),
            res.0 <= self.fsc - 2,
            final(buf)@.subrange(0, res.0 as int) == block(
                self.fsc as int,
                self.block_num,
                *ex,
                tx@,
            ),
            res.1 == block_timeout(self.fwt_1fc as int, *ex),
    {
        let ghost want = block(self.fsc as int, self.block_num, *ex, tx@);
        match ex.send {
            Send::Data => {
                let max_n = self.fsc - 3;
                let rest = tx.len() - ex.tx_pos;
                let n = if rest <= max_n {
                    rest
                } else {
                    max_n
                };
                let more_blocks = n != rest;
                buf[0] = 0x02u8 | self.block_num | if more_blocks {
                    0x10u8
                } else {
                    0u8
                };
                bytes::copy_into(buf, 1, tx, ex.tx_pos, n);
                assert(buf@.subrange(0, 1 + n) =~= want);
                (1 + n, self.fwt_1fc)
            },
            Send::Wtx(mul) => {
                buf[0] = 0xF2;
                buf[1] = mul;
                assert(buf@.subrange(0, 2) =~= want);
                assert(self.fwt_1fc * mul <= u32::MAX) by (nonlinear_arith)
                    requires
                        self.fwt_1fc <= 67108864,
                        mul <= 63,
                ;
                (2, self.fwt_1fc * (mul as u32))
            },
            Send::Ack => {
                buf[0] = 0xA2u8 | self.block_num;
                assert(buf@.subrange(0, 1) =~= want);
                (1, self.fwt_1fc)
            },
            Send::Nak => {
                buf[0] = 0xB2u8 | self.block_num;
                assert(buf@.subrange(0, 1) =~= want);
                (1, self.fwt_1fc)
            },
        }
    }

    /// Takes what came back for the last block and moves the exchange on.
    ///
    /// `reply` is the result of the exchange with the card and `rx_buf` the
    /// buffer that the answer was received into. The data of an I-block is
    /// put into `rx` behind what was received before. Returns `Ok(None)`
    /// where another block is to be sent, `Ok(Some(n))` where the exchange
    /// has ended with an answer of `n` bytes in `rx`, and the error where it
    /// has failed.
    pub fn handle(
        &mut self,
        ex: &mut Exchange,
        tx_len: usize,
        reply: Result<usize, T::Error>,
        rx_buf: &[u8],
        rx: &mut [u8],
    ) -> (res: Result<Option<usize>, Error<T::Error>>)
        requires
            old(self).wf(),
            old(ex).wf(tx_len as int, old(rx)@.len() as int),
            reply matches Ok(n) ==> n <= rx_buf@.len(),
        ensures
            final(self).wf(),
            final(self).card == old(self).card,
            final(self).fsc == old(self).fsc,
            final(self).sfgt_1fc == old(self).sfgt_1fc,
            final(self).fwt_1fc == old(self).fwt_1fc,
            final(self).block_num == next_block_num(
                old(self).fsc as int,
                old(self).block_num,
                *old(ex),
                tx_len as int,
                old(rx)@.len() as int,
                iso14443a::reply_of(reply, rx_buf@),
            ),
            *final(ex) == next_state(
                old(self).fsc as int,
                old(self).block_num,
                *old(ex),
                tx_len as int,
                old(rx)@.len() as int,
                iso14443a::reply_of(reply, rx_buf@),
            ),
            res == next_outcome(
                old(self).fsc as int,
                old(self).block_num,
                *old(ex),
                tx_len as int,
                old(rx)@.len() as int,
                iso14443a::reply_of(reply, rx_buf@),
            ),
            final(rx)@ == next_rx(old(rx)@, *old(ex), iso14443a::reply_of(reply, rx_buf@)),
            res is Ok ==> final(ex).wf(tx_len as int, old(rx)@.len() as int),
    {
        let ghost frame_in = iso14443a::reply_of(reply, rx_buf@);
        let rx_len = match reply {
            Err(e) => {
                match e.kind() {
                    ErrorKind::Timeout | ErrorKind::Corruption => {
                        ex.retries = ex.retries + 1;
                        if ex.retries >= MAX_RETRIES {
                            return Err(Error::Communication);
                        }
                        ex.send = if ex.rx_chaining {
                            Send::Ack
                        } else {
                            Send::Nak
                        };
                        return Ok(None);
                    },
                    _ => {
                        return Err(Error::Iso14443a(e));
                    },
                }
            },
            Ok(rx_len) => rx_len,
        };
        if rx_len == 0 {
            return Err(Error::Protocol);
        }
        ex.retries = 0;
        let max_n = self.fsc - 3;
        let rx_pcb = rx_buf[0];
        assert(frame_in->Ok_0[0] == rx_pcb);
        assert(frame_in->Ok_0.len() == rx_len);
        proof {
            let b = self.block_num;
            assert(b <= 1 ==> (b ^ 1) <= 1) by (bit_vector);
        }
        if rx_pcb == 0x02 || rx_pcb == 0x03 || rx_pcb == 0x12 || rx_pcb == 0x13 {
            let rx_inf_len = rx_len - 1;
            if rx_inf_len > rx.len() - ex.rx_total {
                return Err(Error::RxFrameTooBig);
            }
            bytes::copy_into(rx, ex.rx_total, rx_buf, 1, rx_inf_len);
            assert(rx@ =~= next_rx(old(rx)@, *old(ex), frame_in));
            ex.rx_total = ex.rx_total + rx_inf_len;
            self.block_num = self.block_num ^ 1;
            if rx_pcb & 0x10 == 0 {
                return Ok(Some(ex.rx_total));
            }
            ex.rx_chaining = true;
            ex.send = Send::Ack;
            Ok(None)
        } else if rx_pcb == 0xA2 || rx_pcb == 0xA3 {
            if rx_pcb & 1 == self.block_num {
                if tx_len - ex.tx_pos <= max_n {
                    return Err(Error::Protocol);
                }
                ex.tx_pos = ex.tx_pos + max_n;
                self.block_num = self.block_num ^ 1;
            }
            ex.send = Send::Data;
            Ok(None)
        } else if rx_pcb == 0xF2 {
            if rx_len != 2 {
                return Err(Error::Protocol);
            }
            let wtxm = rx_buf[1];
            let mul = wtxm & 0x3F;
            assert(mul <= 0x3F) by (bit_vector)
                requires
                    mul == wtxm & 0x3F,
            ;
            ex.send = Send::Wtx(mul);
            Ok(None)
        } else {
            Err(Error::Protocol)
        }
    }

    /// Does one round of an exchange with the card: sends the block that
    /// `ex` calls for and handles what comes back.
    ///
    /// The caller starts with [`Self::begin`] and repeats this until it
    /// returns something else than `Ok(None)`.
    pub fn step(&mut self, ex: &mut Exchange, tx: &[u8], rx: &mut [u8]) -> (res: Result<
        Option<usize>,
        Error<T::Error>,
    >)
        requires
            old(self).wf(),
            old(ex).wf(tx@.len() as int, old(rx)@.len() as int),
        ensures
            final(self).wf(),
            final(self).fsc == old(self).fsc,
            final(self).sfgt_1fc == old(self).sfgt_1fc,
            final(self).fwt_1fc == old(self).fwt_1fc,
            final(rx)@.len() == old(rx)@.len(),
            res is Ok ==> final(ex).wf(tx@.len() as int, old(rx)@.len() as int),
            exists|reply: Result<Seq<u8>, T::Error>|
                {
                    &&& final(self).card.log() == old(self).card.log().push(
                        iso14443a::Exchange {
                            tx: block(old(self).fsc as int, old(self).block_num, *old(ex), tx@),
                            timeout_1fc: block_timeout(old(self).fwt_1fc as int, *old(ex)) as u32,
                            reply,
                        },
                    )
                    &&& final(self).block_num == #[trigger] next_block_num(
                        old(self).fsc as int,
                        old(self).block_num,
                        *old(ex),
                        tx@.len() as int,
                        old(rx)@.len() as int,
                        reply,
                    )
                    &&& *final(ex) == next_state(
                        old(self).fsc as int,
                        old(self).block_num,
                        *old(ex),
                        tx@.len() as int,
                        old(rx)@.len() as int,
                        reply,
                    )
                    &&& res == next_outcome(
                        old(self).fsc as int,
                        old(self).block_num,
                        *old(ex),
                        tx@.len() as int,
                        old(rx)@.len() as int,
                        reply,
                    )
                    &&& final(rx)@ == next_rx(old(rx)@, *old(ex), reply)
                },
    {
        let mut tx_buf = [0u8; FSC_MAX_WITHOUT_CRC];
        let mut rx_buf = [0u8; FSC_MAX_WITHOUT_CRC];
        let (tx_len, fwt) = self.frame(ex, tx, &mut tx_buf);
        let block = vstd::slice::slice_subrange(tx_buf.as_slice(), 0, tx_len);
        let reply = self.card.transceive(block, &mut rx_buf, fwt);
        let ghost seen = iso14443a::reply_of(reply, rx_buf@);
        let res = self.handle(ex, tx.len(), reply, rx_buf.as_slice(), rx);
        assert(self.block_num == next_block_num(
            old(self).fsc as int,
            old(self).block_num,
            *old(ex),
            tx@.len() as int,
            old(rx)@.len() as int,
            seen,
        ));
        res
    }
}

/// The block number and the state after a run of answers, taken one after
/// the other from the block number `block_num` and the state `ex`.
pub open spec fn run<E: FrameError>(
    fsc: int,
    block_num: u8,
    ex: Exchange,
    tx_len: int,
    rx_room: int,
    replies: Seq<Result<Seq<u8>, E>>,
) -> (u8, Exchange)
    decreases replies.len(),
{
    if replies.len() == 0 {
        (block_num, ex)
    } else {
        let before = run(fsc, block_num, ex, tx_len, rx_room, replies.drop_last());
        (
            next_block_num(fsc, before.0, before.1, tx_len, rx_room, replies.last()),
            next_state(fsc, before.0, before.1, tx_len, rx_room, replies.last()),
        )
    }
}

/// How many answers of a run acknowledge an I-block.
pub open spec fn acknowledged<E: FrameError>(
    fsc: int,
    block_num: u8,
    ex: Exchange,
    tx_len: int,
    rx_room: int,
    replies: Seq<Result<Seq<u8>, E>>,
) -> nat
    decreases replies.len(),
{
    if replies.len() == 0 {
        0
    } else {
        let before = run(fsc, block_num, ex, tx_len, rx_room, replies.drop_last());
        acknowledged(fsc, block_num, ex, tx_len, rx_room, replies.drop_last()) + if acknowledges(
            fsc,
            before.0,
            before.1,
            tx_len,
            rx_room,
            replies.last(),
        ) {
            1nat
        } else {
            0nat
        }
    }
}

/// An answer that acknowledges nothing leaves the block number and the
/// reader's place in its data as they were. A lost or damaged answer is one
/// of these: asking again never changes the block number.
pub proof fn lemma_retry_keeps_block_num<E: FrameError>(
    fsc: int,
    block_num: u8,
    ex: Exchange,
    tx_len: int,
    rx_room: int,
    reply: Result<Seq<u8>, E>,
)
    ensures
        reply is Err ==> !acknowledges(fsc, block_num, ex, tx_len, rx_room, reply),
        !acknowledges(fsc, block_num, ex, tx_len, rx_room, reply) ==> {
            &&& next_block_num(fsc, block_num, ex, tx_len, rx_room, reply) == block_num
            &&& next_state(fsc, block_num, ex, tx_len, rx_room, reply).tx_pos == ex.tx_pos
            &&& next_state(fsc, block_num, ex, tx_len, rx_room, reply).rx_total == ex.rx_total
        },
{
}

/// The block number changes over once for every acknowledged I-block: after
/// a run it is the old one where their number is even and the other one
/// where it is odd.
pub proof fn lemma_block_num_parity<E: FrameError>(
    fsc: int,
    block_num: u8,
    ex: Exchange,
    tx_len: int,
    rx_room: int,
    replies: Seq<Result<Seq<u8>, E>>,
)
    requires
        block_num <= 1,
    ensures
        run(fsc, block_num, ex, tx_len, rx_room, replies).0 == if acknowledged(
            fsc,
            block_num,
            ex,
            tx_len,
            rx_room,
            replies,
        ) % 2 == 0 {
            block_num
        } else {
            block_num ^ 1
        },
    decreases replies.len(),
{
    assert(block_num <= 1 ==> (block_num ^ 1) ^ 1 == block_num) by (bit_vector);
    if replies.len() > 0 {
        lemma_block_num_parity(fsc, block_num, ex, tx_len, rx_room, replies.drop_last());
    }
}

/// An exchange in which the data fits in one block and the card answers with
/// one block changes the block number over exactly once, however many
/// answers were lost, damaged or put off on the way.
pub proof fn lemma_plain_exchange_toggles_once<E: FrameError>(
    fsc: int,
    block_num: u8,
    ex: Exchange,
    tx_len: int,
    rx_room: int,
    replies: Seq<Result<Seq<u8>, E>>,
)
    requires
        block_num <= 1,
        replies.len() > 0,
        tx_len - ex.tx_pos <= max_inf(fsc),
        forall|i: int|
            0 <= i < replies.len() - 1 ==> !(#[trigger] replies[i] matches Ok(frame)
                && frame.len() > 0 && is_i_block(frame[0])),
        ({
            let before = run(fsc, block_num, ex, tx_len, rx_room, replies.drop_last());
            next_outcome(fsc, before.0, before.1, tx_len, rx_room, replies.last()) matches Ok(
                Some(_),
            )
        }),
    ensures
        acknowledged(fsc, block_num, ex, tx_len, rx_room, replies) == 1,
        run(fsc, block_num, ex, tx_len, rx_room, replies).0 == block_num ^ 1,
{
    lemma_no_i_block_acknowledges_nothing(
        fsc,
        block_num,
        ex,
        tx_len,
        rx_room,
        replies.drop_last(),
    );
    lemma_block_num_parity(fsc, block_num, ex, tx_len, rx_room, replies);
}

/// While the data that is left fits in one block and the card sends no
/// I-block, nothing is acknowledged.
pub proof fn lemma_no_i_block_acknowledges_nothing<E: FrameError>(
    fsc: int,
    block_num: u8,
    ex: Exchange,
    tx_len: int,
    rx_room: int,
    replies: Seq<Result<Seq<u8>, E>>,
)
    requires
        tx_len - ex.tx_pos <= max_inf(fsc),
        forall|i: int|
            0 <= i < replies.len() ==> !(#[trigger] replies[i] matches Ok(frame) && frame.len() > 0
                && is_i_block(frame[0])),
    ensures
        acknowledged(fsc, block_num, ex, tx_len, rx_room, replies) == 0,
        run(fsc, block_num, ex, tx_len, rx_room, replies).0 == block_num,
        run(fsc, block_num, ex, tx_len, rx_room, replies).1.tx_pos == ex.tx_pos,
        run(fsc, block_num, ex, tx_len, rx_room, replies).1.rx_total == ex.rx_total,
    decreases replies.len(),
{
    if replies.len() > 0 {
        let init = replies.drop_last();
        assert forall|i: int| 0 <= i < init.len() implies !(#[trigger] init[i] matches Ok(frame)
            && frame.len() > 0 && is_i_block(frame[0])) by {
            assert(init[i] == replies[i]);
        }
        lemma_no_i_block_acknowledges_nothing(fsc, block_num, ex, tx_len, rx_room, init);
        assert(replies.last() == replies[replies.len() - 1]);
    }
}

/// The block that is sent again is the block that was sent: when an I-block
/// is lost, the card is asked with R(NAK), and the card answers with the
/// R(ACK) of the block before, the reader is back in the state it was in.
pub proof fn lemma_retransmission_repeats_block<E: FrameError>(
    fsc: int,
    block_num: u8,
    ex: Exchange,
    tx: Seq<u8>,
    rx_room: int,
    lost: E,
)
    requires
        block_num <= 1,
        ex.send == Send::Data,
        !ex.rx_chaining,
        ex.retries + 1 < MAX_RETRIES,
        lost.kind_of() == ErrorKind::Timeout || lost.kind_of() == ErrorKind::Corruption,
    ensures
        ({
            let n = tx.len() as int;
            let lost_reply = Err::<Seq<u8>, E>(lost);
            let ack_reply = Ok::<Seq<u8>, E>(seq![0xA2u8 | (block_num ^ 1)]);
            let asked = next_state(fsc, block_num, ex, n, rx_room, lost_reply);
            let asked_num = next_block_num(fsc, block_num, ex, n, rx_room, lost_reply);
            let again = next_state(fsc, asked_num, asked, n, rx_room, ack_reply);
            let again_num = next_block_num(fsc, asked_num, asked, n, rx_room, ack_reply);
            &&& asked.send == Send::Nak
            &&& block(fsc, again_num, again, tx) == block(fsc, block_num, ex, tx)
        }),
{
    let pcb = 0xA2u8 | (block_num ^ 1);
    assert(block_num <= 1 ==> ((0xA2u8 | (block_num ^ 1)) == 0xA2 || (0xA2u8 | (block_num ^ 1))
        == 0xA3) && (0xA2u8 | (block_num ^ 1)) & 1 != block_num) by (bit_vector);
    assert(seq![pcb][0] == pcb);
    assert(seq![pcb].len() == 1);
}

/// The data that an answer adds to what was received: that of an I-block
/// which the buffer has room for, and nothing else.
pub open spec fn inf_of<E>(ex: Exchange, rx_room: int, reply: Result<Seq<u8>, E>) -> Seq<u8> {
    match reply {
        Ok(frame) => if frame.len() > 0 && is_i_block(frame[0]) && frame.len() - 1 <= rx_room
            - ex.rx_total {
            frame.subrange(1, frame.len() as int)
        } else {
            Seq::empty()
        },
        Err(_) => Seq::empty(),
    }
}

/// The data of all the I-blocks that a run of answers brought, in the order
/// in which they came.
pub open spec fn collected<E: FrameError>(
    fsc: int,
    block_num: u8,
    ex: Exchange,
    tx_len: int,
    rx_room: int,
    replies: Seq<Result<Seq<u8>, E>>,
) -> Seq<u8>
    decreases replies.len(),
{
    if replies.len() == 0 {
        Seq::empty()
    } else {
        let before = run(fsc, block_num, ex, tx_len, rx_room, replies.drop_last());
        collected(fsc, block_num, ex, tx_len, rx_room, replies.drop_last()) + inf_of(
            before.1,
            rx_room,
            replies.last(),
        )
    }
}

/// The caller's buffer after a run of answers.
pub open spec fn run_rx<E: FrameError>(
    fsc: int,
    block_num: u8,
    ex: Exchange,
    tx_len: int,
    rx: Seq<u8>,
    replies: Seq<Result<Seq<u8>, E>>,
) -> Seq<u8>
    decreases replies.len(),
{
    if replies.len() == 0 {
        rx
    } else {
        let before = run(fsc, block_num, ex, tx_len, rx.len() as int, replies.drop_last());
        next_rx(
            run_rx(fsc, block_num, ex, tx_len, rx, replies.drop_last()),
            before.1,
            replies.last(),
        )
    }
}

/// A chained answer is put together in the buffer as it was sent: after
/// any run of answers the buffer holds, behind what it held before, the data
/// of the I-blocks in the order in which they came, without gap and without
/// a byte of anything else, and the rest of the buffer is as it was.
pub proof fn lemma_answer_is_collected<E: FrameError>(
    fsc: int,
    block_num: u8,
    ex: Exchange,
    tx_len: int,
    rx: Seq<u8>,
    replies: Seq<Result<Seq<u8>, E>>,
)
    requires
        ex.rx_total <= rx.len() <= usize::MAX,
    ensures
        ({
            let end = run(fsc, block_num, ex, tx_len, rx.len() as int, replies).1;
            let out = run_rx(fsc, block_num, ex, tx_len, rx, replies);
            let got = collected(fsc, block_num, ex, tx_len, rx.len() as int, replies);
            &&& out.len() == rx.len()
            &&& end.rx_total == ex.rx_total + got.len()
            &&& end.rx_total <= rx.len()
            &&& out.subrange(0, end.rx_total as int) == rx.subrange(0, ex.rx_total as int) + got
            &&& out.subrange(end.rx_total as int, rx.len() as int) == rx.subrange(
                end.rx_total as int,
                rx.len() as int,
            )
        }),
    decreases replies.len(),
{
    let room = rx.len() as int;
    if replies.len() == 0 {
        assert(rx.subrange(0, ex.rx_total as int) + Seq::<u8>::empty() =~= rx.subrange(
            0,
            ex.rx_total as int,
        ));
    } else {
        let init = replies.drop_last();
        let reply = replies.last();
        lemma_answer_is_collected(fsc, block_num, ex, tx_len, rx, init);
        let before = run(fsc, block_num, ex, tx_len, room, init);
        let rx1 = run_rx(fsc, block_num, ex, tx_len, rx, init);
        let got1 = collected(fsc, block_num, ex, tx_len, room, init);
        let inf = inf_of(before.1, room, reply);
        let end = run(fsc, block_num, ex, tx_len, room, replies).1;
        let out = run_rx(fsc, block_num, ex, tx_len, rx, replies);
        let r1 = before.1.rx_total as int;
        assert(end.rx_total == r1 + inf.len());
        assert(out.len() == rx.len());
        assert(out.subrange(0, end.rx_total as int) =~= rx1.subrange(0, r1) + inf);
        assert(rx.subrange(0, ex.rx_total as int) + (got1 + inf) =~= (rx.subrange(
            0,
            ex.rx_total as int,
        ) + got1) + inf);
        assert(out.subrange(end.rx_total as int, room) =~= rx1.subrange(end.rx_total as int, room));
        assert(rx1.subrange(end.rx_total as int, room) =~= rx1.subrange(r1, room).subrange(
            inf.len() as int,
            room - r1,
        ));
        assert(rx.subrange(end.rx_total as int, room) =~= rx.subrange(r1, room).subrange(
            inf.len() as int,
            room - r1,
        ));
    }
}

/// The reader's data goes out in blocks that adjoin: an I-block carries the
/// data from the place that the card has acknowledged on, as much as a
/// frame holds; it says in its chaining bit whether more follows, and in
/// its lowest bit the block number. The R(ACK) with that number moves the
/// reader on to just behind the block, and changes the block number over.
pub proof fn lemma_chained_blocks_adjoin<E: FrameError>(
    fsc: int,
    block_num: u8,
    ex: Exchange,
    tx: Seq<u8>,
    rx_room: int,
)
    requires
        4 <= fsc,
        block_num <= 1,
        ex.send == Send::Data,
        ex.tx_pos <= tx.len() <= usize::MAX,
    ensures
        ({
            let n = chunk_len(fsc, tx.len() as int, ex.tx_pos as int);
            let sent = block(fsc, block_num, ex, tx);
            let ack = Ok::<Seq<u8>, E>(seq![0xA2u8 | block_num]);
            let after = next_state(fsc, block_num, ex, tx.len() as int, rx_room, ack);
            &&& 0 <= n <= max_inf(fsc)
            &&& sent.len() == 1 + n
            &&& sent.subrange(1, 1 + n) == tx.subrange(ex.tx_pos as int, ex.tx_pos + n)
            &&& (sent[0] & 0x10 != 0) == (ex.tx_pos + n < tx.len())
            &&& sent[0] & 1 == block_num
            &&& ex.tx_pos + n < tx.len() ==> {
                &&& after.send == Send::Data
                &&& after.tx_pos == ex.tx_pos + n
                &&& next_block_num(fsc, block_num, ex, tx.len() as int, rx_room, ack)
                    == block_num ^ 1
            }
            &&& ex.tx_pos + n == tx.len() ==> next_outcome(
                fsc,
                block_num,
                ex,
                tx.len() as int,
                rx_room,
                ack,
            ) == Err::<Option<usize>, Error<E>>(Error::Protocol)
        }),
{
    let n = chunk_len(fsc, tx.len() as int, ex.tx_pos as int);
    let sent = block(fsc, block_num, ex, tx);
    let pcb = 0xA2u8 | block_num;
    assert(block_num <= 1 ==> (0x02u8 | block_num | 0x10u8) & 0x10 != 0 && (0x02u8 | block_num
        | 0u8) & 0x10 == 0 && (0x02u8 | block_num | 0x10u8) & 1 == block_num && (0x02u8
        | block_num | 0u8) & 1 == block_num && ((0xA2u8 | block_num) == 0xA2 || (0xA2u8
        | block_num) == 0xA3) && (0xA2u8 | block_num) & 1 == block_num) by (bit_vector);
    assert(sent.subrange(1, 1 + n) =~= tx.subrange(ex.tx_pos as int, ex.tx_pos + n));
    assert(seq![pcb][0] == pcb);
    assert(seq![pcb].len() == 1);
}

} // verus!
