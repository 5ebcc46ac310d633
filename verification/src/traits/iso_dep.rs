//! A card that speaks the block protocol of ISO/IEC 14443-4.
use vstd::prelude::*;

verus! {

/// A channel for byte strings of any length.
pub trait Reader {
    type Error;

    /// Sends `tx` and receives the answer into `rx`. Returns the number of
    /// bytes received.
    fn transceive(&mut self, tx: &[u8], rx: &mut [u8]) -> Result<usize, Self::Error>;
}

impl<T: Reader> Reader for &mut T {
    type Error = T::Error;

    fn transceive(&mut self, tx: &[u8], rx: &mut [u8]) -> Result<usize, Self::Error> {
        T::transceive(self, tx, rx)
    }
}

} // verus!
