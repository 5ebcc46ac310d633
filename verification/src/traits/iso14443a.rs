//! A selected card of ISO/IEC 14443-3 Type A.
use vstd::prelude::*;
use super::iso14443a_ll::Error;

verus! {

/// The length of the longest identifier, that of three cascade levels.
pub const UID_MAX_LEN: usize = 10;

/// One exchange with a card: what was sent, how long the card was given to
/// start its answer, and the answer or the error.
pub struct Exchange<E> {
    pub tx: Seq<u8>,
    pub timeout_1fc: u32,
    pub reply: Result<Seq<u8>, E>,
}

/// What came back from a card, as bytes: the first `n` bytes of the buffer
/// where `n` were received, or the error.
pub open spec fn reply_of<E>(res: Result<usize, E>, buf: Seq<u8>) -> Result<Seq<u8>, E> {
    match res {
        Ok(n) => Ok(buf.subrange(0, n as int)),
        Err(e) => Err(e),
    }
}

/// A card that has been selected and takes whole frames.
pub trait Reader {
    type Error: Error;

    /// The exchanges with the card so far, oldest first. An implementation
    /// that is verified states its record here; one that is not has none.
    open spec fn log(&self) -> Seq<Exchange<Self::Error>> {
        Seq::empty()
    }

    /// Sends `tx` with CRC and receives the answer into `rx`, waiting at most
    /// `timeout_1fc` carrier periods for it to start. Returns the number of
    /// bytes received.
    fn transceive(&mut self, tx: &[u8], rx: &mut [u8], timeout_1fc: u32) -> (res: Result<
        usize,
        Self::Error,
    >)
        requires
            old(rx)@.len() * 8 <= usize::MAX,
        ensures
            final(rx)@.len() == old(rx)@.len(),
            res matches Ok(n) ==> n <= final(rx)@.len(),
            final(self).log() == old(self).log().push(
                Exchange { tx: tx@, timeout_1fc, reply: reply_of(res, final(rx)@) },
            ),
    ;

    /// The card's identifier: four, seven or ten bytes.
    fn uid(&self) -> &[u8];

    /// The card's answer to the request that woke it.
    fn atqa(&self) -> [u8; 2];

    /// The card's answer to the last selection.
    fn sak(&self) -> u8;
}

impl<T: Reader> Reader for &mut T {
    type Error = T::Error;

    open spec fn log(&self) -> Seq<Exchange<Self::Error>> {
        (**self).log()
    }

    fn transceive(&mut self, tx: &[u8], rx: &mut [u8], timeout_1fc: u32) -> (res: Result<
        usize,
        Self::Error,
    >) {
        T::transceive(self, tx, rx, timeout_1fc)
    }

    fn uid(&self) -> &[u8] {
        T::uid(self)
    }

    fn atqa(&self) -> [u8; 2] {
        T::atqa(self)
    }

    fn sak(&self) -> u8 {
        T::sak(self)
    }
}

} // verus!
