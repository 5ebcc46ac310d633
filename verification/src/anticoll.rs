//! The result of an anticollision frame.
//!
//! The card answers an anticollision frame in the middle of a byte: its
//! first bit follows the last bit of the request. The reader hands both to
//! its caller as one bit string, the bits of the request first.
use vstd::prelude::*;
use crate::traits::iso14443a_ll as ll;

verus! {

/// The mask of the low `k` bits of a byte.
pub open spec fn low_mask(k: u8) -> u8 {
    ((1u8 << k) - 1) as u8
}

/// Byte `i` of the result of an anticollision frame of `bits` bits, where
/// `got` is what the card sent, as the chip stored it: the bytes of the
/// request first; then, in the byte that the request left unfinished, the
/// request's bits below and the card's bits above; then the card's bytes;
/// then zeros.
pub open spec fn merged_byte(got: Seq<u8>, tx: Seq<u8>, bits: int, i: int) -> u8 {
    let whole = bits / 8;
    let mask = low_mask((bits % 8) as u8);
    if i < whole {
        tx[i]
    } else {
        let card = if i - whole < got.len() {
            got[i - whole]
        } else {
            0u8
        };
        if i == whole && bits % 8 != 0 {
            (tx[i] & mask) | (card & !mask)
        } else {
            card
        }
    }
}

/// The result of an anticollision frame in a buffer of `len` bytes.
pub open spec fn merged(got: Seq<u8>, tx: Seq<u8>, bits: int, len: nat) -> Seq<u8> {
    Seq::new(len, |i: int| merged_byte(got, tx, bits, i))
}

/// The result of an anticollision frame starts with the bits that were
/// sent.
pub proof fn lemma_merged_keeps_request(got: Seq<u8>, tx: Seq<u8>, bits: int, len: nat)
    requires
        0 <= bits,
        ll::bytes_for(bits) <= len,
    ensures
        ll::same_bits(merged(got, tx, bits, len), tx, bits),
{
    let out = merged(got, tx, bits, len);
    assert forall|i: int| 0 <= i < bits implies ll::bit_at(out, i) == ll::bit_at(tx, i) by {
        let at = i / 8;
        let whole = bits / 8;
        assert(at < len);
        assert(out[at] == merged_byte(got, tx, bits, at));
        if at < whole {
        } else {
            assert(at == whole);
            let k = (bits % 8) as u8;
            let j = (i % 8) as u8;
            let card = if at - whole < got.len() {
                got[at - whole]
            } else {
                0u8
            };
            let t = tx[at];
            assert(j < k && k < 8 ==> ((((t & (((1u8 << k) - 1) as u8)) | (card & !(((1u8 << k)
                - 1) as u8))) >> j) & 1 == 1) == ((t >> j) & 1 == 1)) by (bit_vector);
        }
    }
}

/// Puts the result of an anticollision frame together in `rx`, which holds
/// in its first `rx_pos` bytes what the card sent. Fails where `rx` has no
/// room for the request and the answer.
pub fn merge_anticoll(rx: &mut [u8], rx_pos: usize, tx: &[u8], bits: usize) -> (res: Result<(), ()>)
    requires
        16 <= bits <= 55,
        tx@.len() >= ll::bytes_for(bits as int),
        rx_pos <= old(rx)@.len(),
    ensures
        final(rx)@.len() == old(rx)@.len(),
        res is Ok <==> rx_pos + bits / 8 <= old(rx)@.len() && ll::bytes_for(bits as int) <= old(
            rx,
        )@.len(),
        res is Ok ==> final(rx)@ == merged(
            old(rx)@.subrange(0, rx_pos as int),
            tx@,
            bits as int,
            old(rx)@.len(),
        ),
        res is Err ==> final(rx)@ == old(rx)@,
{
    let len = rx.len();
    let whole = bits / 8;
    if whole > len - rx_pos || (bits + 7) / 8 > len {
        return Err(());
    }
    let k = (bits % 8) as u8;
    assert((1u8 << k) >= 1) by (bit_vector)
        requires
            k < 8,
    ;
    let mask: u8 = (1u8 << k) - 1;
    let ghost got = rx@.subrange(0, rx_pos as int);
    let ghost want = merged(got, tx@, bits as int, len as nat);
    let mut i = len;
    while i > 0
        invariant
            i <= len,
            len == rx@.len(),
            len == old(rx)@.len(),
            whole == bits / 8,
            k == bits % 8,
            mask == low_mask(k),
            16 <= bits <= 55,
            tx@.len() >= ll::bytes_for(bits as int),
            rx_pos + whole <= len,
            got == old(rx)@.subrange(0, rx_pos as int),
            want == merged(got, tx@, bits as int, len as nat),
            forall|j: int| 0 <= j < i ==> rx@[j] == old(rx)@[j],
            forall|j: int| i <= j < len ==> rx@[j] == want[j],
        decreases i,
    {
        i -= 1;
        let byte = if i < whole {
            tx[i]
        } else {
            let card = if i - whole < rx_pos {
                rx[i - whole]
            } else {
                0u8
            };
            if i == whole && k != 0 {
                (tx[i] & mask) | (card & !mask)
            } else {
                card
            }
        };
        assert(byte == merged_byte(got, tx@, bits as int, i as int));
        rx[i] = byte;
    }
    assert(rx@ =~= want);
    Ok(())
}

} // verus!
