//! The frame level of ISO/IEC 14443-3 Type A: one frame out, one frame in.
use vstd::prelude::*;

verus! {

/// How one frame is sent and how its answer is received.
#[derive(Debug, Clone, Copy)]
pub enum Frame {
    /// Whole bytes with CRC in both directions. `timeout_1fc` is the time
    /// allowed for the answer to start, in carrier periods.
    Standard { timeout_1fc: u32 },
    /// The short frame WUPA: seven bits, no CRC.
    WupA,
    /// The short frame REQA: seven bits, no CRC.
    ReqA,
    /// The first `bits` bits of the buffer, without CRC; the answer continues
    /// at the bit where the request stopped.
    Anticoll { bits: usize },
}

impl Frame {
    /// An anticollision frame carries the two header bytes and at most all
    /// but one bit of the five bytes that follow them.
    pub open spec fn wf(self) -> bool {
        self matches Frame::Anticoll { bits } ==> 16 <= bits <= 55
    }
}

/// What the layers above need to know of a failed exchange.
#[non_exhaustive]
#[derive(Debug, PartialEq, Eq, Clone, Copy, Structural)]
pub enum ErrorKind {
    /// Anything that a second try is not expected to cure.
    Other,
    /// No answer started in the time allowed.
    Timeout,
    /// An answer came but was damaged on the way.
    Corruption,
}

/// An error of the frame level.
pub trait Error {
    /// The kind of this error, for contracts. An implementation that is
    /// verified states here what `kind` returns.
    open spec fn kind_of(&self) -> ErrorKind {
        ErrorKind::Other
    }

    fn kind(&self) -> (kind: ErrorKind)
        ensures
            kind == self.kind_of(),
    ;
}

impl Error for ErrorKind {
    open spec fn kind_of(&self) -> ErrorKind {
        *self
    }

    fn kind(&self) -> ErrorKind {
        *self
    }
}

/// A front-end that cannot fail has an error without values, of which no
/// kind is ever asked.
impl Error for core::convert::Infallible {
    fn kind(&self) -> ErrorKind {
        ErrorKind::Other
    }
}

/// Bit `i` of a bit string that is stored low bit first in bytes.
pub open spec fn bit_at(bytes: Seq<u8>, i: int) -> bool {
    (bytes[i / 8] >> ((i % 8) as u8)) & 1 == 1
}

/// The first `k` bits of `a` and of `b` are the same.
pub open spec fn same_bits(a: Seq<u8>, b: Seq<u8>, k: int) -> bool {
    forall|i: int| 0 <= i < k ==> bit_at(a, i) == bit_at(b, i)
}

/// The number of bytes that hold `bits` bits.
pub open spec fn bytes_for(bits: int) -> int {
    (bits + 7) / 8
}

/// One frame and its answer: how the frame was sent, the caller's data,
/// the buffer after the exchange, and the number of valid bits in it or the
/// error.
pub struct Round<E> {
    pub opts: Frame,
    pub tx: Seq<u8>,
    pub rx: Seq<u8>,
    pub res: Result<usize, E>,
}

/// A front-end that exchanges single frames with the cards in its field.
pub trait Reader {
    type Error: Error;

    /// The exchanges so far, oldest first. An implementation that is
    /// verified states its record here; one that is not has none.
    open spec fn rounds(&self) -> Seq<Round<Self::Error>> {
        Seq::empty()
    }

    /// Sends `tx` as `opts` says and receives the answer into `rx`. Returns
    /// the number of valid bits in `rx`.
    ///
    /// A short frame takes no data from `tx`. After an anticollision frame,
    /// `rx` starts with the bits that were sent, and the card's bits follow
    /// them. After a standard frame `rx` holds the answer alone, in whole
    /// bytes.
    fn transceive(&mut self, tx: &[u8], rx: &mut [u8], opts: Frame) -> (res: Result<
        usize,
        Self::Error,
    >)
        requires
            opts.wf(),
            opts matches Frame::Anticoll { bits } ==> tx@.len() >= bytes_for(bits as int),
            old(rx)@.len() * 8 <= usize::MAX,
        ensures
            final(rx)@.len() == old(rx)@.len(),
            final(self).rounds() == old(self).rounds().push(
                Round { opts, tx: tx@, rx: final(rx)@, res },
            ),
            res matches Ok(n) ==> match opts {
                Frame::Anticoll { bits } => {
                    &&& bytes_for(bits as int) <= final(rx)@.len()
                    &&& same_bits(final(rx)@, tx@, bits as int)
                },
                Frame::Standard { .. } => n % 8 == 0 && n / 8 <= final(rx)@.len(),
                _ => true,
            },
    ;
}

impl<T: Reader> Reader for &mut T {
    type Error = T::Error;

    open spec fn rounds(&self) -> Seq<Round<Self::Error>> {
        (**self).rounds()
    }

    fn transceive(&mut self, tx: &[u8], rx: &mut [u8], opts: Frame) -> (res: Result<
        usize,
        Self::Error,
    >) {
        T::transceive(self, tx, rx, opts)
    }
}

} // verus!
