//! Activation of Type A cards: wake-up, anticollision and selection.
//!
//! A card's identifier has four, seven or ten bytes and is read in up to
//! three cascade levels. At each level the reader asks for the four bytes of
//! that level and their check byte. Where several cards answer at once, their
//! bits collide; the reader then fixes the bit at which they differ and asks
//! again with the longer prefix, until one card is left, and selects it. A
//! level whose first byte is the cascade tag carries three bytes of the
//! identifier and is followed by another level.
use vstd::prelude::*;
use crate::traits::iso14443a::{Exchange, Reader, UID_MAX_LEN};
use crate::traits::iso14443a_ll as ll;
use crate::traits::iso14443a_ll::{Frame, Reader as LLReader};

verus! {

/// The first byte of a cascade level that is followed by another one.
pub const CASCADE_TAG: u8 = 0x88;

/// How often a frame is sent before its failure is reported.
pub const TRIES: usize = 4;

/// The time allowed for the answer to SELECT and HLTA: one millisecond, in
/// carrier periods.
pub const SELECT_TIMEOUT_1FC: u32 = 13560;

/// `heapless::Vec`: a vector that lives in place and holds at most `N`
/// items. Nothing of its inside is known here.
#[verifier::external_type_specification]
#[verifier::external_body]
#[verifier::reject_recursive_types(T)]
pub struct ExHeaplessVec<T, const N: usize>(heapless::Vec<T, N>);

/// The bytes that an identifier vector holds, first to last.
pub uninterp spec fn uid_bytes(uid: heapless::Vec<u8, 10>) -> Seq<u8>;

/// `heapless::Vec::new`: a vector that holds nothing.
#[verifier::external_body]
fn uid_new() -> (uid: heapless::Vec<u8, UID_MAX_LEN>)
    ensures
        uid_bytes(uid) == Seq::<u8>::empty(),
{
    heapless::Vec::new()
}

/// `heapless::Vec::extend_from_slice`: where `other` fits in what is left of
/// the ten places, its bytes are put behind those that the vector holds;
/// where it does not, the vector stays as it is and the call fails.
#[verifier::external_body]
fn uid_extend(uid: &mut heapless::Vec<u8, UID_MAX_LEN>, other: &[u8]) -> (res: Result<(), ()>)
    ensures
        res is Ok <==> uid_bytes(*old(uid)).len() + other@.len() <= UID_MAX_LEN,
        res is Ok ==> uid_bytes(*final(uid)) == uid_bytes(*old(uid)) + other@,
        res is Err ==> uid_bytes(*final(uid)) == uid_bytes(*old(uid)),
{
    uid.extend_from_slice(other)
}

/// `heapless::Vec::as_slice`: the bytes that the vector holds.
#[verifier::external_body]
fn uid_as_slice(uid: &heapless::Vec<u8, UID_MAX_LEN>) -> (bytes: &[u8])
    ensures
        bytes@ == uid_bytes(*uid),
{
    uid.as_slice()
}

/// What can go wrong while a card is activated.
#[derive(Debug)]
pub enum Error<T> {
    /// The frame level failed.
    Lower(T),
    /// A card answered what the standard does not allow.
    Protocol,
}

impl<T: ll::Error> Error<T> {
    /// Whether the error only says that the card is gone or did not follow:
    /// no answer, or a protocol error.
    pub open spec fn soft(&self) -> bool {
        match self {
            Error::Lower(l) => l.kind_of() == ll::ErrorKind::Timeout,
            Error::Protocol => true,
        }
    }

    pub fn is_soft(&self) -> (soft: bool)
        ensures
            soft == self.soft(),
    {
        match self {
            Error::Lower(l) => l.kind() == ll::ErrorKind::Timeout,
            Error::Protocol => true,
        }
    }
}

/// The check byte of the four bytes of one cascade level.
pub open spec fn bcc(block: Seq<u8>) -> u8 {
    block[0] ^ block[1] ^ block[2] ^ block[3]
}

/// The command byte of cascade level `cl`: `0x93`, `0x95` or `0x97`.
pub open spec fn sel_command(cl: u8) -> u8 {
    (0x93 + 2 * cl) as u8
}

/// The byte that says how many bits of a frame are valid: whole bytes in
/// the high half, the bits left over in the low half.
pub open spec fn nvb(bits: u8) -> u8 {
    ((bits / 8) << 4) | (bits % 8)
}

/// The anticollision frame of level `cl` that carries the first `uid_bits`
/// bits of `uid` as the known prefix. Of the frame's six bytes the first
/// `16 + uid_bits` bits are sent.
pub open spec fn anticoll_frame(cl: u8, uid: Seq<u8>, uid_bits: int) -> Seq<u8> {
    seq![sel_command(cl), nvb((16 + uid_bits) as u8), uid[0], uid[1], uid[2], uid[3]]
}

/// The SELECT frame of level `cl` for the four bytes `uid`, without CRC.
pub open spec fn select_frame(cl: u8, uid: Seq<u8>) -> Seq<u8> {
    seq![sel_command(cl), 0x70u8, uid[0], uid[1], uid[2], uid[3], bcc(uid)]
}

/// The number of cascade levels of an identifier of `len` bytes; 0 where no
/// identifier has that length.
pub open spec fn cascade_levels(len: int) -> int {
    if len == 4 {
        1
    } else if len == 7 {
        2
    } else if len == 10 {
        3
    } else {
        0
    }
}

/// The four bytes that level `cl` carries of the identifier `uid`: the last
/// level its last four bytes, every level before it the cascade tag and
/// three bytes.
pub open spec fn cascade_block(uid: Seq<u8>, cl: int) -> Seq<u8> {
    if cl == cascade_levels(uid.len() as int) - 1 {
        seq![uid[cl * 3], uid[cl * 3 + 1], uid[cl * 3 + 2], uid[cl * 3 + 3]]
    } else {
        seq![CASCADE_TAG, uid[cl * 3], uid[cl * 3 + 1], uid[cl * 3 + 2]]
    }
}

/// The four bytes of a level that is followed by another one: the cascade
/// tag and the three bytes of the identifier from place `3 * cl` on.
pub open spec fn tagged(uid: Seq<u8>, cl: int) -> Seq<u8> {
    seq![CASCADE_TAG, uid[3 * cl], uid[3 * cl + 1], uid[3 * cl + 2]]
}

/// What a level's four bytes add to the identifier: all of them, or the
/// three behind the cascade tag.
pub open spec fn uid_part(block: Seq<u8>) -> Seq<u8> {
    if block[0] == CASCADE_TAG {
        block.subrange(1, 4)
    } else {
        block
    }
}

/// What the answer to an anticollision frame of `bits` bits says, where
/// `got_bits` bits are valid in `rx` and `rx` starts with the frame's two
/// header bytes.
///
/// `Ok(n)` with `n < 32`: the first `n` bits of the level's four bytes are
/// known and bit `n` collided. `Ok(32)`: all four bytes and a matching check
/// byte were received. `Err`: the answer brought no new bit, stopped
/// between the last byte and the end of the check byte, went on behind the
/// check byte, or its check byte is wrong.
pub open spec fn anticoll_outcome(bits: int, got_bits: int, rx: Seq<u8>) -> Result<usize, ()> {
    if got_bits <= bits {
        Err(())
    } else if got_bits - 16 < 32 {
        Ok((got_bits - 16) as usize)
    } else if got_bits - 16 != 40 {
        Err(())
    } else if bcc(rx.subrange(2, 6)) != rx[6] {
        Err(())
    } else {
        Ok(32)
    }
}

/// Builds the anticollision frame of level `cl`.
pub fn build_anticoll(cl: u8, uid: &[u8; 4], uid_bits: usize) -> (tx: [u8; 6])
    requires
        cl <= 2,
        uid_bits <= 32,
    ensures
        tx@ == anticoll_frame(cl, uid@, uid_bits as int),
{
    let bits: u8 = 16 + uid_bits as u8;
    let tx = [0x93 + cl * 2, ((bits / 8) << 4) | (bits % 8), uid[0], uid[1], uid[2], uid[3]];
    assert(tx@ =~= anticoll_frame(cl, uid@, uid_bits as int));
    tx
}

/// Builds the SELECT frame of level `cl`.
pub fn build_select(cl: u8, uid: &[u8; 4]) -> (tx: [u8; 7])
    requires
        cl <= 2,
    ensures
        tx@ == select_frame(cl, uid@),
        tx@[6] == bcc(tx@.subrange(2, 6)),
{
    let tx = [
        0x93 + cl * 2,
        0x70,
        uid[0],
        uid[1],
        uid[2],
        uid[3],
        uid[0] ^ uid[1] ^ uid[2] ^ uid[3],
    ];
    assert(tx@ =~= select_frame(cl, uid@));
    tx
}

/// Reads the answer to an anticollision frame.
pub fn read_anticoll(bits: usize, got_bits: usize, rx: &[u8; 8]) -> (res: Result<usize, ()>)
    requires
        16 <= bits <= 48,
    ensures
        res == anticoll_outcome(bits as int, got_bits as int, rx@),
        res matches Ok(n) ==> n <= 32 && (n < 32 ==> bits - 16 < n),
        res matches Ok(n) ==> n == 32 ==> rx@[6] == bcc(rx@.subrange(2, 6)),
{
    // An answer without a new bit would be asked for again and again.
    if got_bits <= bits {
        return Err(());
    }
    let new_uid_bits = got_bits - 16;
    if new_uid_bits < 32 {
        return Ok(new_uid_bits);
    }
    // All four bytes are there, so the check byte must be too, and nothing
    // behind it.
    if new_uid_bits != 40 {
        return Err(());
    }
    let check = rx[2] ^ rx[3] ^ rx[4] ^ rx[5];
    if check != rx[6] {
        return Err(());
    }
    Ok(32)
}

/// The four bytes that level `cl` carries of `uid`, an identifier of
/// `cln` levels.
pub fn build_cascade_block(uid: &[u8], cl: usize, cln: usize) -> (block: [u8; 4])
    requires
        cln == cascade_levels(uid@.len() as int),
        cl < cln,
    ensures
        block@ == cascade_block(uid@, cl as int),
{
    let block = if cl == cln - 1 {
        [uid[cl * 3], uid[cl * 3 + 1], uid[cl * 3 + 2], uid[cl * 3 + 3]]
    } else {
        [CASCADE_TAG, uid[cl * 3], uid[cl * 3 + 1], uid[cl * 3 + 2]]
    };
    assert(block@ =~= cascade_block(uid@, cl as int));
    block
}

/// An identifier has one to three levels, and its last level does not start
/// with the cascade tag.
pub open spec fn is_uid(uid: Seq<u8>) -> bool {
    &&& cascade_levels(uid.len() as int) > 0
    &&& uid[3 * (cascade_levels(uid.len() as int) - 1)] != CASCADE_TAG
}

/// The levels of an identifier, put together again, are the identifier.
pub proof fn lemma_cascade_blocks_give_uid(uid: Seq<u8>)
    requires
        is_uid(uid),
    ensures
        uid.len() == 4 ==> uid_part(cascade_block(uid, 0)) == uid,
        uid.len() == 7 ==> uid_part(cascade_block(uid, 0)) + cascade_block(uid, 1) == uid,
        uid.len() == 10 ==> uid_part(cascade_block(uid, 0)) + uid_part(cascade_block(uid, 1))
            + cascade_block(uid, 2) == uid,
        forall|cl: int|
            0 <= cl < cascade_levels(uid.len() as int) - 1 ==> (#[trigger] cascade_block(
                uid,
                cl,
            ))[0] == CASCADE_TAG,
{
    if uid.len() == 4 {
        assert(cascade_block(uid, 0) =~= uid);
    } else if uid.len() == 7 {
        assert(uid_part(cascade_block(uid, 0)) + cascade_block(uid, 1) =~= uid);
    } else {
        assert(uid_part(cascade_block(uid, 0)) + uid_part(cascade_block(uid, 1)) + cascade_block(
            uid,
            2,
        ) =~= uid);
    }
}

/// The check byte that SELECT sends is the one that the answer to the
/// anticollision frame was checked against.
pub proof fn lemma_bcc_of_select(cl: u8, uid: Seq<u8>)
    requires
        uid.len() == 4,
    ensures
        select_frame(cl, uid)[6] == bcc(select_frame(cl, uid).subrange(2, 6)),
        select_frame(cl, uid).subrange(2, 6) == uid,
{
    assert(select_frame(cl, uid).subrange(2, 6) =~= uid);
}

/// `block` with bit `k` set, bits counted from the low bit of the first
/// byte.
pub open spec fn with_bit_set(block: Seq<u8>, k: int) -> Seq<u8> {
    block.update(k / 8, block[k / 8] | (1u8 << ((k % 8) as u8)))
}

/// Setting bit `k` makes it a one and leaves every other bit as it was: the
/// bits before it are the bits that were received.
pub proof fn lemma_with_bit_set(block: Seq<u8>, k: int)
    requires
        block.len() == 4,
        0 <= k < 32,
    ensures
        ll::bit_at(with_bit_set(block, k), k),
        forall|i: int|
            0 <= i < 32 && i != k ==> ll::bit_at(with_bit_set(block, k), i) == ll::bit_at(block, i),
        ll::same_bits(with_bit_set(block, k), block, k),
{
    let s = (k % 8) as u8;
    let b = block[k / 8];
    assert(((b | (1u8 << s)) >> s) & 1 == 1) by (bit_vector)
        requires
            s < 8,
    ;
    assert forall|i: int| 0 <= i < 32 && i != k implies ll::bit_at(with_bit_set(block, k), i)
        == ll::bit_at(block, i) by {
        if i / 8 == k / 8 {
            let t = (i % 8) as u8;
            assert(((b | (1u8 << s)) >> t) & 1 == (b >> t) & 1) by (bit_vector)
                requires
                    s < 8,
                    t < 8,
                    t != s,
            ;
        }
    }
}

/// Sets bit `k` of `block`: of two cards that differ at a bit, the reader
/// follows the one with a one.
pub fn prefer_one(block: &mut [u8; 4], k: usize)
    requires
        k < 32,
    ensures
        final(block)@ == with_bit_set(old(block)@, k as int),
        ll::bit_at(final(block)@, k as int),
{
    let at = k / 8;
    let shift = (k % 8) as u8;
    let byte = block[at];
    block[at] = byte | (1u8 << shift);
    assert(block@ =~= with_bit_set(old(block)@, k as int));
    assert(((byte | (1u8 << shift)) >> shift) & 1 == 1) by (bit_vector)
        requires
            shift < 8,
    ;
}

/// Whether a round sent `tx` as `opts`.
pub open spec fn asks<E>(round: ll::Round<E>, opts: Frame, tx: Seq<u8>) -> bool {
    round.opts == opts && round.tx == tx
}

/// What the answer to WUPA or REQA means: the error of the front-end, a
/// protocol error where anything but two bytes came, or the two bytes.
pub open spec fn wake_outcome<E>(round: ll::Round<E>) -> Result<Seq<u8>, Error<E>> {
    match round.res {
        Err(e) => Err(Error::Lower(e)),
        Ok(bits) => if bits != 16 {
            Err(Error::Protocol)
        } else {
            Ok(round.rx.subrange(0, 2))
        },
    }
}

/// What the answer to SELECT means: the error of the front-end, a protocol
/// error where anything but one byte came, or the SAK.
pub open spec fn select_outcome<E>(round: ll::Round<E>) -> Result<u8, Error<E>> {
    match round.res {
        Err(e) => Err(Error::Lower(e)),
        Ok(bits) => if bits != 8 {
            Err(Error::Protocol)
        } else {
            Ok(round.rx[0])
        },
    }
}

/// What the answer to an anticollision frame of `bits` bits means: the
/// error of the front-end, or what [`anticoll_outcome`] says of it.
pub open spec fn anticoll_round_outcome<E>(round: ll::Round<E>, bits: int) -> Result<
    usize,
    Error<E>,
> {
    match round.res {
        Err(e) => Err(Error::Lower(e)),
        Ok(got_bits) => match anticoll_outcome(bits, got_bits as int, round.rx) {
            Ok(n) => Ok(n),
            Err(()) => Err(Error::Protocol),
        },
    }
}

/// Whether a round selected the four bytes `block` at level `cl` and the
/// card acknowledged with one byte.
pub open spec fn selects<E>(round: ll::Round<E>, cl: int, block: Seq<u8>) -> bool {
    &&& asks(
        round,
        Frame::Standard { timeout_1fc: SELECT_TIMEOUT_1FC },
        select_frame(cl as u8, block),
    )
    &&& round.res == Ok::<usize, E>(8)
}

/// The four bytes `block` were selected at level `cl`, and acknowledged by
/// the card, in a round from place `from` on.
pub open spec fn selected_at<E>(
    rounds: Seq<ll::Round<E>>,
    from: int,
    cl: int,
    block: Seq<u8>,
) -> bool {
    exists|j: int| from <= j < rounds.len() && selects(#[trigger] rounds[j], cl, block)
}

/// Every level of the identifier `uid` was selected, and acknowledged by
/// the card, in a round from place `from` on.
pub open spec fn activated<E>(rounds: Seq<ll::Round<E>>, from: int, uid: Seq<u8>) -> bool {
    forall|cl: int|
        0 <= cl < cascade_levels(uid.len() as int) ==> #[trigger] selected_at(
            rounds,
            from,
            cl,
            cascade_block(uid, cl),
        )
}

/// What was selected stays selected when the record grows, and counts from
/// every earlier place too.
pub proof fn lemma_selected_grows<E>(
    before: Seq<ll::Round<E>>,
    after: Seq<ll::Round<E>>,
    from: int,
    earlier: int,
    cl: int,
    block: Seq<u8>,
)
    requires
        crate::record::extends(after, before),
        selected_at(before, from, cl, block),
        0 <= earlier <= from,
    ensures
        selected_at(after, earlier, cl, block),
{
    let j = choose|j: int| from <= j < before.len() && selects(#[trigger] before[j], cl, block);
    crate::record::lemma_extends_keeps(after, before, j);
    assert(selects(after[j], cl, block));
}

/// What the last round selected was selected.
pub proof fn lemma_selected_last<E>(rounds: Seq<ll::Round<E>>, from: int, cl: int, block: Seq<u8>)
    requires
        0 <= from < rounds.len(),
        selects(rounds.last(), cl, block),
    ensures
        selected_at(rounds, from, cl, block),
{
    assert(selects(rounds[rounds.len() - 1], cl, block));
}

/// What was activated stays activated when the record grows, and counts
/// from every earlier place too.
pub proof fn lemma_activated_grows<E>(
    before: Seq<ll::Round<E>>,
    after: Seq<ll::Round<E>>,
    from: int,
    earlier: int,
    uid: Seq<u8>,
)
    requires
        crate::record::extends(after, before),
        activated(before, from, uid),
        0 <= earlier <= from,
    ensures
        activated(after, earlier, uid),
{
    assert forall|cl: int| 0 <= cl < cascade_levels(uid.len() as int) implies #[trigger] selected_at(
        after,
        earlier,
        cl,
        cascade_block(uid, cl),
    ) by {
        lemma_selected_grows(before, after, from, earlier, cl, cascade_block(uid, cl));
    }
}

/// Whether what a round sent is a frame of the activation, bit for bit: a
/// wake-up, which takes no data; an anticollision frame of one of the three
/// levels with the count of its bits in its second byte; or, with the time
/// that SELECT and HLTA are given, the SELECT of four bytes at one of the
/// three levels or HLTA.
#[verifier::opaque]
pub open spec fn conforms<E>(round: ll::Round<E>) -> bool {
    match round.opts {
        Frame::WupA => round.tx.len() == 0,
        Frame::ReqA => round.tx.len() == 0,
        Frame::Anticoll { bits } => {
            &&& 16 <= bits <= 48
            &&& round.tx.len() == 6
            &&& round.tx[0] == 0x93 || round.tx[0] == 0x95 || round.tx[0] == 0x97
            &&& round.tx[1] == nvb(bits as u8)
        },
        Frame::Standard { timeout_1fc } => {
            &&& timeout_1fc == SELECT_TIMEOUT_1FC
            &&& round.tx == seq![0x50u8, 0x00u8] || is_select(round.tx)
        },
    }
}

/// Whether a frame is the SELECT of four bytes at one of the three levels:
/// the command of the level, the count of seven whole bytes, the four
/// bytes and their check byte.
pub open spec fn is_select(tx: Seq<u8>) -> bool {
    &&& tx.len() == 7
    &&& tx[0] == 0x93 || tx[0] == 0x95 || tx[0] == 0x97
    &&& tx[1] == 0x70
    &&& tx[6] == bcc(tx.subrange(2, 6))
}

/// Every round from place `from` on sent a frame of the activation.
pub open spec fn all_conform<E>(rounds: Seq<ll::Round<E>>, from: int) -> bool {
    forall|j: int| from <= j < rounds.len() ==> conforms(#[trigger] rounds[j])
}

/// Where the rounds conformed before a record grew, and those that were
/// added conform, all do.
pub proof fn lemma_conform_grows<E>(
    before: Seq<ll::Round<E>>,
    after: Seq<ll::Round<E>>,
    from: int,
)
    requires
        crate::record::extends(after, before),
        all_conform(before, from),
        all_conform(after, before.len() as int),
        0 <= from,
    ensures
        all_conform(after, from),
{
    assert forall|j: int| from <= j < after.len() implies conforms(#[trigger] after[j]) by {
        if j < before.len() {
            crate::record::lemma_extends_keeps(after, before, j);
        }
    }
}

/// The frames of the three levels are frames of the activation.
pub proof fn lemma_frames_conform(cl: u8, uid: Seq<u8>, uid_bits: int)
    requires
        cl <= 2,
        uid.len() == 4,
        0 <= uid_bits <= 32,
    ensures
        anticoll_frame(cl, uid, uid_bits).len() == 6,
        anticoll_frame(cl, uid, uid_bits)[0] == 0x93 || anticoll_frame(cl, uid, uid_bits)[0]
            == 0x95 || anticoll_frame(cl, uid, uid_bits)[0] == 0x97,
        anticoll_frame(cl, uid, uid_bits)[1] == nvb((16 + uid_bits) as u8),
        is_select(select_frame(cl, uid)),
{
    assert(select_frame(cl, uid).subrange(2, 6) =~= uid);
}

/// HLTA, which sends the selected card to sleep.
pub open spec fn hlta_frame() -> Seq<u8> {
    seq![0x50u8, 0x00u8]
}

/// How SELECT and HLTA are sent: as a standard frame, with the time that a
/// card is given to acknowledge.
pub open spec fn select_opts() -> Frame {
    Frame::Standard { timeout_1fc: SELECT_TIMEOUT_1FC }
}

/// The four bytes of a level of which nothing is known yet.
pub open spec fn no_prefix() -> Seq<u8> {
    seq![0u8, 0u8, 0u8, 0u8]
}

/// The cascade level that a command byte stands for.
pub open spec fn level_of(command: u8) -> u8 {
    if command == 0x93 {
        0
    } else if command == 0x95 {
        1
    } else {
        2
    }
}

/// Whether a round sent HLTA.
pub open spec fn is_hlta<E>(round: ll::Round<E>) -> bool {
    asks(round, select_opts(), hlta_frame())
}

/// Why a round failed, where it did: a wake-up by [`wake_outcome`], an
/// anticollision frame by [`anticoll_round_outcome`], SELECT by
/// [`select_outcome`]. HLTA does not fail: a card that obeys is silent.
#[verifier::opaque]
pub open spec fn failure<E>(round: ll::Round<E>) -> Option<Error<E>> {
    match round.opts {
        Frame::WupA | Frame::ReqA => match wake_outcome(round) {
            Err(e) => Some(e),
            Ok(_) => None,
        },
        Frame::Anticoll { bits } => match anticoll_round_outcome(round, bits as int) {
            Err(e) => Some(e),
            Ok(_) => None,
        },
        Frame::Standard { .. } => if round.tx == hlta_frame() {
            None
        } else {
            match select_outcome(round) {
                Err(e) => Some(e),
                Ok(_) => None,
            }
        },
    }
}

/// The frame `tx` was sent as `opts` up to [`TRIES`] times behind `before`,
/// until a try did not fail: every try but the last failed, and where the
/// last failed too, it was the fourth.
pub open spec fn tried<E>(
    before: Seq<ll::Round<E>>,
    after: Seq<ll::Round<E>>,
    opts: Frame,
    tx: Seq<u8>,
) -> bool {
    &&& crate::record::extends(after, before)
    &&& before.len() < after.len() <= before.len() + TRIES
    &&& forall|i: int| before.len() <= i < after.len() ==> asks(#[trigger] after[i], opts, tx)
    &&& forall|i: int|
        before.len() <= i < after.len() - 1 ==> failure(#[trigger] after[i]) is Some
    &&& failure(after.last()) is Some ==> after.len() == before.len() + TRIES
}

/// Whether `opts` and `tx` open the cascade level `cl`: an anticollision
/// frame that carries nothing of the identifier yet.
pub open spec fn opens(cl: u8, opts: Frame, tx: Seq<u8>) -> bool {
    opts == (Frame::Anticoll { bits: 16 }) && tx == anticoll_frame(cl, no_prefix(), 0)
}

/// Whether the frame `tx`, sent as `opts`, is the one that comes next after
/// the round `prev`. With `uid` the card is known and selected directly;
/// without, it is found by anticollision.
///
/// After a round that failed, the same frame again. After a wake-up that
/// was answered, the first level is opened, or the first level of `uid`
/// selected. After an anticollision frame that ended in a collision at bit
/// `n`, the frame of the same level that carries the `n` bits received and
/// a one at bit `n`; after one that was answered whole, the SELECT of the
/// four bytes received. After a SELECT that was acknowledged, the next
/// level is opened where the four bytes start with the cascade tag, and
/// HLTA sent where they do not; of `uid`, the next level is selected. After
/// HLTA, REQA.
#[verifier::opaque]
pub open spec fn follows<E>(
    prev: ll::Round<E>,
    opts: Frame,
    tx: Seq<u8>,
    uid: Option<Seq<u8>>,
) -> bool {
    if failure(prev) is Some {
        opts == prev.opts && tx == prev.tx
    } else {
        match prev.opts {
            Frame::WupA | Frame::ReqA => match uid {
                None => opens(0, opts, tx),
                Some(uid) => opts == select_opts() && tx == select_frame(
                    0,
                    cascade_block(uid, 0),
                ),
            },
            Frame::Anticoll { bits } => {
                let cl = level_of(prev.tx[0]);
                let block = prev.rx.subrange(2, 6);
                let known = anticoll_round_outcome(prev, bits as int)->Ok_0 as int;
                if known < 32 {
                    opts == (Frame::Anticoll { bits: (17 + known) as usize }) && tx
                        == anticoll_frame(cl, with_bit_set(block, known), known + 1)
                } else {
                    opts == select_opts() && tx == select_frame(cl, block)
                }
            },
            Frame::Standard { .. } => {
                let cl = level_of(prev.tx[0]);
                if prev.tx == hlta_frame() {
                    opts == Frame::ReqA && tx == Seq::<u8>::empty()
                } else {
                    match uid {
                        None => if prev.tx[2] == CASCADE_TAG {
                            opens((cl + 1) as u8, opts, tx)
                        } else {
                            opts == select_opts() && tx == hlta_frame()
                        },
                        Some(uid) => opts == select_opts() && tx == select_frame(
                            (cl + 1) as u8,
                            cascade_block(uid, cl + 1),
                        ),
                    }
                }
            },
        }
    }
}

/// Whether each round behind place `from` sent the frame that follows the
/// round before it.
pub open spec fn in_step<E>(rounds: Seq<ll::Round<E>>, from: int, uid: Option<Seq<u8>>) -> bool {
    forall|j: int|
        from < j < rounds.len() ==> follows(
            rounds[j - 1],
            (#[trigger] rounds[j]).opts,
            rounds[j].tx,
            uid,
        )
}

/// Whether the round at place `j` and the three before it all failed.
pub open spec fn failed_run<E>(rounds: Seq<ll::Round<E>>, j: int) -> bool {
    &&& failure(rounds[j - 3]) is Some
    &&& failure(rounds[j - 2]) is Some
    &&& failure(rounds[j - 1]) is Some
    &&& failure(rounds[j]) is Some
}

/// Whether the rounds from place `from` on ended with four failures in a
/// row.
pub open spec fn exhausted<E>(rounds: Seq<ll::Round<E>>, from: int) -> bool {
    rounds.len() >= from + 4 && failed_run(rounds, rounds.len() - 1)
}

/// Whether the rounds from place `from` on are an orderly dialogue: each
/// frame follows the round before it, and four failures in a row are the
/// end.
pub open spec fn dialogue<E>(rounds: Seq<ll::Round<E>>, from: int, uid: Option<Seq<u8>>) -> bool {
    &&& in_step(rounds, from, uid)
    &&& forall|j: int| from + 3 <= j < rounds.len() - 1 ==> !#[trigger] failed_run(rounds, j)
}

/// Whether, where a round was made from place `from` on, the last did not
/// fail and the frame `tx`, sent as `opts`, is what follows it.
pub open spec fn awaits<E>(
    rounds: Seq<ll::Round<E>>,
    from: int,
    opts: Frame,
    tx: Seq<u8>,
    uid: Option<Seq<u8>>,
) -> bool {
    rounds.len() > from ==> failure(rounds.last()) is None && follows(rounds.last(), opts, tx, uid)
}

/// A frame that failed is followed by itself.
pub proof fn lemma_retry_follows<E>(prev: ll::Round<E>, uid: Option<Seq<u8>>)
    requires
        failure(prev) is Some,
    ensures
        follows(prev, prev.opts, prev.tx, uid),
{
    reveal(follows);
}

/// What follows a wake-up that was answered.
pub proof fn lemma_after_wake<E>(prev: ll::Round<E>, uid: Seq<u8>)
    requires
        prev.opts is WupA || prev.opts is ReqA,
        failure(prev) is None,
    ensures
        follows(prev, Frame::Anticoll { bits: 16 }, anticoll_frame(0, no_prefix(), 0), None),
        follows(prev, select_opts(), select_frame(0, cascade_block(uid, 0)), Some(uid)),
{
    reveal(follows);
}

/// What follows an anticollision frame of level `cl` whose answer made
/// `known` bits known: the longer prefix with a one at the bit that
/// collided, or the SELECT of the four bytes.
pub proof fn lemma_after_anticoll<E>(prev: ll::Round<E>, cl: u8, bits: usize, known: usize)
    requires
        cl <= 2,
        prev.opts == (Frame::Anticoll { bits }),
        prev.tx[0] == sel_command(cl),
        anticoll_round_outcome(prev, bits as int) == Ok::<usize, Error<E>>(known),
    ensures
        failure(prev) is None,
        known < 32 ==> follows(
            prev,
            Frame::Anticoll { bits: (17 + known) as usize },
            anticoll_frame(cl, with_bit_set(prev.rx.subrange(2, 6), known as int), known + 1),
            None,
        ),
        known >= 32 ==> follows(
            prev,
            select_opts(),
            select_frame(cl, prev.rx.subrange(2, 6)),
            None,
        ),
{
    reveal(follows);
    reveal(failure);
}

/// What follows a SELECT of level `cl` that was acknowledged.
pub proof fn lemma_after_select<E>(prev: ll::Round<E>, cl: u8, block: Seq<u8>, uid: Seq<u8>)
    requires
        cl <= 2,
        asks(prev, select_opts(), select_frame(cl, block)),
        select_outcome(prev) is Ok,
    ensures
        failure(prev) is None,
        !is_hlta(prev),
        block[0] == CASCADE_TAG && cl < 2 ==> follows(
            prev,
            Frame::Anticoll { bits: 16 },
            anticoll_frame((cl + 1) as u8, no_prefix(), 0),
            None,
        ),
        block[0] != CASCADE_TAG ==> follows(prev, select_opts(), hlta_frame(), None),
        follows(
            prev,
            select_opts(),
            select_frame((cl + 1) as u8, cascade_block(uid, cl + 1)),
            Some(uid),
        ),
{
    reveal(follows);
    reveal(failure);
    assert(prev.tx.len() == 7);
    assert(hlta_frame().len() == 2);
}

/// HLTA does not fail, and REQA follows it.
pub proof fn lemma_after_hlta<E>(prev: ll::Round<E>)
    requires
        is_hlta(prev),
    ensures
        failure(prev) is None,
        follows(prev, Frame::ReqA, Seq::empty(), None),
{
    reveal(follows);
    reveal(failure);
}

/// Four bytes whose check byte is not theirs are refused: the round
/// failed with `Protocol`, so what follows it is the same frame again and
/// never a SELECT of those bytes.
pub proof fn lemma_wrong_check_byte_fails<E>(round: ll::Round<E>, opts: Frame, tx: Seq<u8>)
    requires
        round.opts matches Frame::Anticoll { bits } && bits < 56,
        round.res == Ok::<usize, E>(56),
        round.rx[6] != bcc(round.rx.subrange(2, 6)),
        follows(round, opts, tx, None),
    ensures
        failure(round) == Some(Error::<E>::Protocol),
        opts == round.opts,
        tx == round.tx,
{
    reveal(failure);
    reveal(follows);
}

/// Where an orderly dialogue is continued by the tries of the frame that
/// follows its last round, it stays orderly; and where the last try
/// failed, four failed in a row.
pub proof fn lemma_tried_keeps_dialogue<E>(
    so_far: Seq<ll::Round<E>>,
    now: Seq<ll::Round<E>>,
    from: int,
    opts: Frame,
    tx: Seq<u8>,
    uid: Option<Seq<u8>>,
)
    requires
        0 <= from <= so_far.len(),
        dialogue(so_far, from, uid),
        tried(so_far, now, opts, tx),
        awaits(so_far, from, opts, tx, uid),
    ensures
        dialogue(now, from, uid),
        failure(now.last()) is Some ==> exhausted(now, from),
{
    let s = so_far.len() as int;
    assert forall|j: int| from < j < now.len() implies follows(
        now[j - 1],
        (#[trigger] now[j]).opts,
        now[j].tx,
        uid,
    ) by {
        if j < s {
            crate::record::lemma_extends_keeps(now, so_far, j);
            crate::record::lemma_extends_keeps(now, so_far, j - 1);
            assert(follows(so_far[j - 1], so_far[j].opts, so_far[j].tx, uid));
        } else if j == s {
            crate::record::lemma_extends_keeps(now, so_far, s - 1);
            assert(asks(now[j], opts, tx));
        } else {
            assert(asks(now[j], opts, tx));
            assert(asks(now[j - 1], opts, tx));
            assert(failure(now[j - 1]) is Some);
            lemma_retry_follows(now[j - 1], uid);
        }
    }
    assert forall|j: int| from + 3 <= j < now.len() - 1 implies !#[trigger] failed_run(now, j) by {
        if j < s - 1 {
            crate::record::lemma_extends_keeps(now, so_far, j);
            crate::record::lemma_extends_keeps(now, so_far, j - 1);
            crate::record::lemma_extends_keeps(now, so_far, j - 2);
            crate::record::lemma_extends_keeps(now, so_far, j - 3);
            assert(!failed_run(so_far, j));
        } else {
            crate::record::lemma_extends_keeps(now, so_far, s - 1);
            assert(failure(now[s - 1]) is None);
        }
    }
    if failure(now.last()) is Some {
        let n = now.len() as int;
        assert(failure(now[n - 1]) is Some);
        assert(failure(now[n - 2]) is Some);
        assert(failure(now[n - 3]) is Some);
        assert(failure(now[n - 4]) is Some);
    }
}

/// Whether no round from place `from` on sent HLTA.
pub open spec fn unhalted<E>(rounds: Seq<ll::Round<E>>, from: int) -> bool {
    forall|j: int| from <= j < rounds.len() ==> !is_hlta(#[trigger] rounds[j])
}

/// Where no HLTA was sent before a record grew, and none since, none was.
pub proof fn lemma_unhalted_grows<E>(
    before: Seq<ll::Round<E>>,
    after: Seq<ll::Round<E>>,
    from: int,
)
    requires
        crate::record::extends(after, before),
        unhalted(before, from),
        unhalted(after, before.len() as int),
        0 <= from,
    ensures
        unhalted(after, from),
{
    assert forall|j: int| from <= j < after.len() implies !is_hlta(#[trigger] after[j]) by {
        if j < before.len() {
            crate::record::lemma_extends_keeps(after, before, j);
        }
    }
}

/// The number of rounds from place `from` on that sent HLTA.
pub open spec fn halts<E>(rounds: Seq<ll::Round<E>>, from: int) -> nat
    decreases rounds.len(),
{
    if rounds.len() <= from || rounds.len() == 0 {
        0
    } else {
        halts(rounds.drop_last(), from) + if is_hlta(rounds.last()) {
            1nat
        } else {
            0nat
        }
    }
}

/// One more round is one more HLTA where it sent HLTA, and none where it
/// did not.
pub proof fn lemma_halts_push<E>(rounds: Seq<ll::Round<E>>, from: int, round: ll::Round<E>)
    requires
        0 <= from <= rounds.len(),
    ensures
        halts(rounds.push(round), from) == halts(rounds, from) + if is_hlta(round) {
            1nat
        } else {
            0nat
        },
{
    assert(rounds.push(round).drop_last() =~= rounds);
}

/// Rounds that send no HLTA leave the number of HLTA as it was.
pub proof fn lemma_halts_unchanged<E>(
    before: Seq<ll::Round<E>>,
    after: Seq<ll::Round<E>>,
    from: int,
)
    requires
        0 <= from <= before.len(),
        crate::record::extends(after, before),
        unhalted(after, before.len() as int),
    ensures
        halts(after, from) == halts(before, from),
    decreases after.len(),
{
    if after.len() == before.len() {
        assert(after.subrange(0, before.len() as int) =~= after);
    } else {
        let shorter = after.drop_last();
        assert(shorter.subrange(0, before.len() as int) =~= after.subrange(
            0,
            before.len() as int,
        ));
        assert forall|j: int| before.len() <= j < shorter.len() implies !is_hlta(
            #[trigger] shorter[j],
        ) by {
            assert(shorter[j] == after[j]);
        }
        lemma_halts_unchanged(before, shorter, from);
        assert(!is_hlta(after[after.len() - 1]));
    }
}

/// The last level of the identifier `uid` was selected and acknowledged in
/// a round behind place `from`, and the next round sent HLTA.
pub open spec fn halted_after<E>(rounds: Seq<ll::Round<E>>, from: int, uid: Seq<u8>) -> bool {
    exists|j: int|
        from < j < rounds.len() && is_hlta(#[trigger] rounds[j]) && selects(
            rounds[j - 1],
            cascade_levels(uid.len() as int) - 1,
            cascade_block(uid, cascade_levels(uid.len() as int) - 1),
        )
}

/// A card that was halted stays halted when the record grows.
pub proof fn lemma_halted_grows<E>(
    before: Seq<ll::Round<E>>,
    after: Seq<ll::Round<E>>,
    from: int,
    uid: Seq<u8>,
)
    requires
        crate::record::extends(after, before),
        halted_after(before, from, uid),
        0 <= from,
    ensures
        halted_after(after, from, uid),
{
    let last = cascade_levels(uid.len() as int) - 1;
    let j = choose|j: int|
        from < j < before.len() && is_hlta(#[trigger] before[j]) && selects(
            before[j - 1],
            last,
            cascade_block(uid, last),
        );
    crate::record::lemma_extends_keeps(after, before, j);
    crate::record::lemma_extends_keeps(after, before, j - 1);
    assert(is_hlta(after[j]));
}

/// Whether a round is a SELECT that was acknowledged and whose four bytes
/// do not start with the cascade tag: the card is selected.
pub open spec fn ends_selected<E>(round: ll::Round<E>) -> bool {
    &&& round.opts == select_opts()
    &&& is_select(round.tx)
    &&& round.tx[2] != CASCADE_TAG
    &&& failure(round) is None
}

/// Whether a round is a SELECT of the third level that was acknowledged
/// and whose four bytes start with the cascade tag: the card announces a
/// fourth level, which no identifier has.
pub open spec fn ends_too_deep<E>(round: ll::Round<E>) -> bool {
    &&& round.opts == select_opts()
    &&& is_select(round.tx)
    &&& round.tx[0] == 0x97
    &&& round.tx[2] == CASCADE_TAG
    &&& failure(round) is None
}

/// Whether a round is the SELECT of the last level of the identifier `uid`
/// and was acknowledged.
pub open spec fn ends_selected_by_id<E>(round: ll::Round<E>, uid: Seq<u8>) -> bool {
    &&& cascade_levels(uid.len() as int) > 0
    &&& failure(round) is None
    &&& asks(
        round,
        select_opts(),
        select_frame(
            (cascade_levels(uid.len() as int) - 1) as u8,
            cascade_block(uid, cascade_levels(uid.len() as int) - 1),
        ),
    )
}

/// Whether `now` is `before` with the rounds of an activation behind it:
/// at least one round, the first of them the wake-up `first`, every frame
/// one of the activation, and each following the round before it.
pub open spec fn ran<E>(
    before: Seq<ll::Round<E>>,
    now: Seq<ll::Round<E>>,
    first: Frame,
    uid: Option<Seq<u8>>,
) -> bool {
    &&& crate::record::extends(now, before)
    &&& now.len() > before.len()
    &&& asks(now[before.len() as int], first, Seq::empty())
    &&& all_conform(now, before.len() as int)
    &&& dialogue(now, before.len() as int, uid)
}

/// Why an activation that ran from place `from` on ended with the error
/// `e`: its last round failed with `e` as the fourth in a row, or did not
/// fail and `e` is what `refused` says.
pub open spec fn ended_with<E>(
    rounds: Seq<ll::Round<E>>,
    from: int,
    e: Error<E>,
    refused: bool,
) -> bool {
    if failure(rounds.last()) is Some {
        failure(rounds.last()) == Some(e) && exhausted(rounds, from)
    } else {
        e is Protocol && refused
    }
}

/// What the cascade does when the SELECT of a level was acknowledged.
#[derive(Debug, PartialEq, Eq, Clone, Copy)]
pub enum LevelStep {
    /// The identifier is complete: the card is selected.
    Done,
    /// The identifier goes on at the next level.
    Next,
    /// The third level announces a fourth: no identifier is that long.
    TooDeep,
}

/// What follows level `cl` with the four bytes `block`.
pub open spec fn level_step(cl: u8, block: Seq<u8>) -> LevelStep {
    if block[0] != CASCADE_TAG {
        LevelStep::Done
    } else if cl < 2 {
        LevelStep::Next
    } else {
        LevelStep::TooDeep
    }
}

/// Decides what follows level `cl` with the four bytes `block`.
pub fn after_level(cl: u8, block: &[u8; 4]) -> (step: LevelStep)
    ensures
        step == level_step(cl, block@),
{
    if block[0] != CASCADE_TAG {
        LevelStep::Done
    } else if cl < 2 {
        LevelStep::Next
    } else {
        LevelStep::TooDeep
    }
}

/// What the four bytes of a level add to the identifier.
pub fn part_of(block: &[u8; 4]) -> (part: &[u8])
    ensures
        part@ == uid_part(block@),
{
    if block[0] == CASCADE_TAG {
        vstd::slice::slice_subrange(block.as_slice(), 1, 4)
    } else {
        block.as_slice()
    }
}

/// Whether a search for up to `limit` cards goes on after `rounds` rounds
/// with `found` cards found: until the list is full, and for at most four
/// rounds per place in it.
pub fn search_goes_on(rounds: usize, found: usize, limit: usize) -> (more: bool)
    requires
        limit * 4 <= usize::MAX,
    ensures
        more <==> rounds < 4 * limit && found < limit,
{
    rounds < limit * 4 && found < limit
}

/// Whether `found` holds the identifier `uid`.
pub fn holds(found: &Vec<heapless::Vec<u8, UID_MAX_LEN>>, uid: &heapless::Vec<u8, UID_MAX_LEN>) -> (held:
    bool)
    ensures
        held <==> exists|i: int|
            0 <= i < found@.len() && uid_bytes(#[trigger] found@[i]) == uid_bytes(*uid),
{
    let want = uid_as_slice(uid);
    let mut i: usize = 0;
    while i < found.len()
        invariant
            i <= found@.len(),
            want@ == uid_bytes(*uid),
            forall|j: int| 0 <= j < i ==> uid_bytes(#[trigger] found@[j]) != uid_bytes(*uid),
        decreases found@.len() - i,
    {
        let have = uid_as_slice(&found[i]);
        if same_bytes(have, want) {
            return true;
        }
        i += 1;
    }
    false
}

/// Adds the identifier `uid` to `found` unless it is there already.
pub fn note(found: &mut Vec<heapless::Vec<u8, UID_MAX_LEN>>, uid: heapless::Vec<u8, UID_MAX_LEN>)
    ensures
        final(found)@ == if exists|i: int|
            0 <= i < old(found)@.len() && uid_bytes(#[trigger] old(found)@[i]) == uid_bytes(uid) {
            old(found)@
        } else {
            old(found)@.push(uid)
        },
{
    if !holds(found, &uid) {
        found.push(uid);
    }
}


/// Whether the card that the round at place `j` sent to sleep is in
/// `found`: the round before it selected the last level of an identifier
/// of the list, and the card acknowledged.
pub open spec fn noted_at<E>(
    rounds: Seq<ll::Round<E>>,
    j: int,
    found: Seq<heapless::Vec<u8, UID_MAX_LEN>>,
) -> bool {
    exists|i: int|
        0 <= i < found.len() && ends_selected_by_id(rounds[j - 1], uid_bytes(#[trigger] found[i]))
}

/// Whether every card that was sent to sleep behind place `from` is in
/// `found`.
#[verifier::opaque]
pub open spec fn all_noted<E>(
    rounds: Seq<ll::Round<E>>,
    from: int,
    found: Seq<heapless::Vec<u8, UID_MAX_LEN>>,
) -> bool {
    forall|j: int|
        from < j < rounds.len() && is_hlta(#[trigger] rounds[j]) ==> noted_at(rounds, j, found)
}

/// Rounds that send no HLTA leave nothing to note.
pub proof fn lemma_noted_grows<E>(
    before: Seq<ll::Round<E>>,
    after: Seq<ll::Round<E>>,
    from: int,
    found: Seq<heapless::Vec<u8, UID_MAX_LEN>>,
)
    requires
        0 <= from,
        crate::record::extends(after, before),
        all_noted(before, from, found),
        unhalted(after, before.len() as int),
    ensures
        all_noted(after, from, found),
{
    reveal(all_noted);
    assert forall|j: int| from < j < after.len() && is_hlta(#[trigger] after[j]) implies noted_at(
        after,
        j,
        found,
    ) by {
        crate::record::lemma_extends_keeps(after, before, j);
        crate::record::lemma_extends_keeps(after, before, j - 1);
        assert(noted_at(before, j, found));
        let i = choose|i: int|
            0 <= i < found.len() && ends_selected_by_id(
                before[j - 1],
                uid_bytes(#[trigger] found[i]),
            );
        assert(ends_selected_by_id(after[j - 1], uid_bytes(found[i])));
    }
}

/// Where HLTA follows the SELECT of the last level of an identifier, and
/// the identifier is added to the list unless it is there, every card that
/// was sent to sleep is in the list again.
pub proof fn lemma_noted_after_hlta<E>(
    before: Seq<ll::Round<E>>,
    after: Seq<ll::Round<E>>,
    from: int,
    found: Seq<heapless::Vec<u8, UID_MAX_LEN>>,
    noted: Seq<heapless::Vec<u8, UID_MAX_LEN>>,
    uid: heapless::Vec<u8, UID_MAX_LEN>,
)
    requires
        0 <= from < before.len(),
        after == before.push(after.last()),
        all_noted(before, from, found),
        ends_selected_by_id(before.last(), uid_bytes(uid)),
        noted == if exists|i: int|
            0 <= i < found.len() && uid_bytes(#[trigger] found[i]) == uid_bytes(uid) {
            found
        } else {
            found.push(uid)
        },
    ensures
        all_noted(after, from, noted),
{
    reveal(all_noted);
    let last = after.len() - 1;
    assert forall|j: int| from < j < after.len() && is_hlta(#[trigger] after[j]) implies noted_at(
        after,
        j,
        noted,
    ) by {
        if j < last {
            assert(after[j] == before[j]);
            assert(after[j - 1] == before[j - 1]);
            assert(noted_at(before, j, found));
            let i = choose|i: int|
                0 <= i < found.len() && ends_selected_by_id(
                    before[j - 1],
                    uid_bytes(#[trigger] found[i]),
                );
            assert(noted[i] == found[i]);
            assert(ends_selected_by_id(after[j - 1], uid_bytes(noted[i])));
        } else {
            assert(after[j - 1] == before.last());
            if exists|i: int|
                0 <= i < found.len() && uid_bytes(#[trigger] found[i]) == uid_bytes(uid) {
                let i = choose|i: int|
                    0 <= i < found.len() && uid_bytes(#[trigger] found[i]) == uid_bytes(uid);
                assert(ends_selected_by_id(after[j - 1], uid_bytes(noted[i])));
            } else {
                let i = noted.len() - 1;
                assert(noted[i] == uid);
                assert(ends_selected_by_id(after[j - 1], uid_bytes(noted[i])));
            }
        }
    }
}

/// Whether the rounds from place `from` on ended with a frame that failed
/// four times in a row for want of an answer, or with an answer that no
/// card should give: there is nothing more to find.
pub open spec fn stopped_softly<E: ll::Error>(rounds: Seq<ll::Round<E>>, from: int) -> bool {
    &&& failure(rounds.last()) matches Some(e)
    &&& e.soft()
    &&& exhausted(rounds, from)
}


/// Polls for cards through a front-end.
pub struct Poller<T: LLReader> {
    pub reader: T,
}

/// A card that has been selected. While it lives it holds the front-end.
pub struct Card<'d, T: LLReader> {
    pub reader: &'d mut T,
    pub uid: heapless::Vec<u8, UID_MAX_LEN>,
    pub atqa: [u8; 2],
    pub sak: u8,
}

/// Why no card came out of the cascade.
enum CascadeError<T> {
    /// A frame failed.
    Exchange(Error<T>),
    /// The third level announced a fourth.
    TooManyLevels,
}

impl<T: LLReader> Poller<T> {
    pub fn new(reader: T) -> (poller: Self)
        ensures
            poller.reader == reader,
    {
        Self { reader }
    }

    /// Sends WUPA, which also wakes halted cards, or REQA, which halted
    /// cards do not answer.
    fn transceive_wake(&mut self, all: bool) -> (res: Result<[u8; 2], Error<T::Error>>)
        ensures
            final(self).reader.rounds() == old(self).reader.rounds().push(
                final(self).reader.rounds().last(),
            ),
            asks(
                final(self).reader.rounds().last(),
                if all {
                    Frame::WupA
                } else {
                    Frame::ReqA
                },
                Seq::empty(),
            ),
            res matches Ok(atqa) ==> wake_outcome(final(self).reader.rounds().last()) == Ok::<
                Seq<u8>,
                Error<T::Error>,
            >(atqa@),
            res matches Err(e) ==> failure(final(self).reader.rounds().last()) == Some(e),
            res is Ok ==> failure(final(self).reader.rounds().last()) is None,
    {
        let mut rx = [0u8; 2];
        let tx: [u8; 0] = [];
        let opts = if all {
            Frame::WupA
        } else {
            Frame::ReqA
        };
        assert(tx@ =~= Seq::<u8>::empty());
        proof {
            reveal(failure);
        }
        let bits = match self.reader.transceive(&tx, &mut rx, opts) {
            Ok(bits) => bits,
            Err(e) => {
                return Err(Error::Lower(e));
            },
        };
        if bits != 16 {
            return Err(Error::Protocol);
        }
        assert(rx@.subrange(0, 2) =~= rx@);
        Ok(rx)
    }

    /// Sends the anticollision frame of level `cl` with the first `uid_bits`
    /// bits of `uid` as prefix. Where the answer is acceptable, puts the four
    /// bytes received into `uid` and returns what [`read_anticoll`] says of
    /// it; else leaves `uid` as it is.
    fn transceive_anticoll(&mut self, cl: u8, uid: &mut [u8; 4], uid_bits: usize) -> (res: Result<
        usize,
        Error<T::Error>,
    >)
        requires
            cl <= 2,
            uid_bits <= 32,
        ensures
            final(self).reader.rounds() == old(self).reader.rounds().push(
                final(self).reader.rounds().last(),
            ),
            asks(
                final(self).reader.rounds().last(),
                Frame::Anticoll { bits: (16 + uid_bits) as usize },
                anticoll_frame(cl, old(uid)@, uid_bits as int),
            ),
            res == anticoll_round_outcome(final(self).reader.rounds().last(), 16 + uid_bits),
            res matches Err(e) ==> failure(final(self).reader.rounds().last()) == Some(e),
            res is Ok ==> failure(final(self).reader.rounds().last()) is None,
            final(self).reader.rounds().last().rx.len() == 8,
            res matches Ok(n) ==> {
                &&& n <= 32 && (n < 32 ==> uid_bits < n)
                &&& final(uid)@ == final(self).reader.rounds().last().rx.subrange(2, 6)
            },
            res is Err ==> *final(uid) == *old(uid),
    {
        let bits = 16 + uid_bits;
        let tx = build_anticoll(cl, uid, uid_bits);
        let mut rx = [0u8; 8];
        let opts = Frame::Anticoll { bits };
        proof {
            reveal(failure);
        }
        let got_bits = match self.reader.transceive(&tx, &mut rx, opts) {
            Ok(bits) => bits,
            Err(e) => {
                return Err(Error::Lower(e));
            },
        };
        match read_anticoll(bits, got_bits, &rx) {
            Ok(n) => {
                uid[0] = rx[2];
                uid[1] = rx[3];
                uid[2] = rx[4];
                uid[3] = rx[5];
                assert(uid@ =~= rx@.subrange(2, 6));
                Ok(n)
            },
            Err(()) => Err(Error::Protocol),
        }
    }

    /// Sends SELECT of level `cl` for the four bytes `uid`. Succeeds with
    /// the SAK where exactly one byte was received.
    fn transceive_select(&mut self, cl: u8, uid: &[u8; 4]) -> (res: Result<u8, Error<T::Error>>)
        requires
            cl <= 2,
        ensures
            final(self).reader.rounds() == old(self).reader.rounds().push(
                final(self).reader.rounds().last(),
            ),
            asks(final(self).reader.rounds().last(), select_opts(), select_frame(cl, uid@)),
            res == select_outcome(final(self).reader.rounds().last()),
            res matches Err(e) ==> failure(final(self).reader.rounds().last()) == Some(e),
            res is Ok ==> failure(final(self).reader.rounds().last()) is None,
    {
        let tx = build_select(cl, uid);
        let mut rx = [0u8; 1];
        let opts = Frame::Standard { timeout_1fc: SELECT_TIMEOUT_1FC };
        proof {
            reveal(failure);
            assert(tx@.len() == 7);
            assert(hlta_frame().len() == 2);
        }
        let bits = match self.reader.transceive(&tx, &mut rx, opts) {
            Ok(bits) => bits,
            Err(e) => {
                return Err(Error::Lower(e));
            },
        };
        if bits != 8 {
            return Err(Error::Protocol);
        }
        Ok(rx[0])
    }

    /// Sends HLTA. A card that obeys does not answer, so whatever comes
    /// back is left aside.
    fn transceive_hlta(&mut self)
        ensures
            final(self).reader.rounds() == old(self).reader.rounds().push(
                final(self).reader.rounds().last(),
            ),
            is_hlta(final(self).reader.rounds().last()),
            conforms(final(self).reader.rounds().last()),
    {
        let tx = [0x50u8, 0x00u8];
        let mut rx = [0u8; 1];
        let opts = Frame::Standard { timeout_1fc: SELECT_TIMEOUT_1FC };
        assert(tx@ =~= hlta_frame());
        proof {
            reveal(conforms);
        }
        let _ = self.reader.transceive(&tx, &mut rx, opts);
    }

    /// WUPA or REQA, up to [`TRIES`] times; the error of the last try where
    /// all fail.
    fn wake(&mut self, all: bool) -> (res: Result<[u8; 2], Error<T::Error>>)
        ensures
            tried(
                old(self).reader.rounds(),
                final(self).reader.rounds(),
                if all {
                    Frame::WupA
                } else {
                    Frame::ReqA
                },
                Seq::empty(),
            ),
            all_conform(final(self).reader.rounds(), old(self).reader.rounds().len() as int),
            unhalted(final(self).reader.rounds(), old(self).reader.rounds().len() as int),
            res matches Ok(atqa) ==> wake_outcome(final(self).reader.rounds().last()) == Ok::<
                Seq<u8>,
                Error<T::Error>,
            >(atqa@),
            res matches Err(e) ==> failure(final(self).reader.rounds().last()) == Some(e),
            res is Ok ==> failure(final(self).reader.rounds().last()) is None,
    {
        let ghost before = self.reader.rounds();
        let ghost opts = if all {
            Frame::WupA
        } else {
            Frame::ReqA
        };
        proof {
            crate::record::lemma_extends::<ll::Round<T::Error>>();
        }
        let mut tries = TRIES;
        loop
            invariant
                0 < tries <= TRIES,
                before == old(self).reader.rounds(),
                crate::record::extends(self.reader.rounds(), before),
                self.reader.rounds().len() == before.len() + TRIES - tries,
                forall|i: int|
                    before.len() <= i < self.reader.rounds().len() ==> asks(
                        #[trigger] self.reader.rounds()[i],
                        opts,
                        Seq::empty(),
                    ) && failure(self.reader.rounds()[i]) is Some,
                opts == if all {
                    Frame::WupA
                } else {
                    Frame::ReqA
                },
            decreases tries,
        {
            proof {
                crate::record::lemma_extends::<ll::Round<T::Error>>();
            }
            let ghost so_far = self.reader.rounds();
            let r = self.transceive_wake(all);
            tries -= 1;
            proof {
                let now = self.reader.rounds();
                assert forall|i: int| before.len() <= i < now.len() - 1 implies asks(
                    #[trigger] now[i],
                    opts,
                    Seq::empty(),
                ) && failure(now[i]) is Some by {
                    assert(now[i] == so_far[i]);
                }
            }
            if r.is_ok() || tries == 0 {
                proof {
                    reveal(conforms);
                    let now = self.reader.rounds();
                    assert forall|i: int| before.len() <= i < now.len() implies conforms(
                        #[trigger] now[i],
                    ) && !is_hlta(now[i]) by {
                        assert(asks(now[i], opts, Seq::empty()));
                    }
                }
                return r;
            }
        }
    }

    /// One anticollision round, up to [`TRIES`] times.
    fn anticoll(&mut self, cl: u8, uid: &mut [u8; 4], uid_bits: usize) -> (res: Result<
        usize,
        Error<T::Error>,
    >)
        requires
            cl <= 2,
            uid_bits <= 32,
        ensures
            tried(
                old(self).reader.rounds(),
                final(self).reader.rounds(),
                Frame::Anticoll { bits: (16 + uid_bits) as usize },
                anticoll_frame(cl, old(uid)@, uid_bits as int),
            ),
            all_conform(final(self).reader.rounds(), old(self).reader.rounds().len() as int),
            unhalted(final(self).reader.rounds(), old(self).reader.rounds().len() as int),
            res == anticoll_round_outcome(final(self).reader.rounds().last(), 16 + uid_bits),
            res matches Err(e) ==> failure(final(self).reader.rounds().last()) == Some(e),
            res is Ok ==> failure(final(self).reader.rounds().last()) is None,
            final(self).reader.rounds().last().rx.len() == 8,
            res matches Ok(n) ==> {
                &&& n <= 32 && (n < 32 ==> uid_bits < n)
                &&& final(uid)@ == final(self).reader.rounds().last().rx.subrange(2, 6)
            },
            res is Err ==> *final(uid) == *old(uid),
    {
        let ghost before = self.reader.rounds();
        let ghost opts = Frame::Anticoll { bits: (16 + uid_bits) as usize };
        let ghost tx = anticoll_frame(cl, uid@, uid_bits as int);
        proof {
            crate::record::lemma_extends::<ll::Round<T::Error>>();
        }
        let mut tries = TRIES;
        loop
            invariant
                0 < tries <= TRIES,
                cl <= 2,
                uid_bits <= 32,
                *uid == *old(uid),
                before == old(self).reader.rounds(),
                crate::record::extends(self.reader.rounds(), before),
                self.reader.rounds().len() == before.len() + TRIES - tries,
                forall|i: int|
                    before.len() <= i < self.reader.rounds().len() ==> asks(
                        #[trigger] self.reader.rounds()[i],
                        opts,
                        tx,
                    ) && failure(self.reader.rounds()[i]) is Some,
                opts == (Frame::Anticoll { bits: (16 + uid_bits) as usize }),
                tx == anticoll_frame(cl, old(uid)@, uid_bits as int),
            decreases tries,
        {
            proof {
                crate::record::lemma_extends::<ll::Round<T::Error>>();
            }
            let ghost so_far = self.reader.rounds();
            let r = self.transceive_anticoll(cl, uid, uid_bits);
            tries -= 1;
            proof {
                let now = self.reader.rounds();
                assert forall|i: int| before.len() <= i < now.len() - 1 implies asks(
                    #[trigger] now[i],
                    opts,
                    tx,
                ) && failure(now[i]) is Some by {
                    assert(now[i] == so_far[i]);
                }
            }
            if r.is_ok() || tries == 0 {
                proof {
                    reveal(conforms);
                    let now = self.reader.rounds();
                    lemma_frames_conform(cl, old(uid)@, uid_bits as int);
                    assert forall|i: int| before.len() <= i < now.len() implies conforms(
                        #[trigger] now[i],
                    ) && !is_hlta(now[i]) by {
                        assert(asks(now[i], opts, tx));
                    }
                }
                return r;
            }
        }
    }

    /// SELECT, up to [`TRIES`] times.
    fn select(&mut self, cl: u8, uid: &[u8; 4]) -> (res: Result<u8, Error<T::Error>>)
        requires
            cl <= 2,
        ensures
            tried(
                old(self).reader.rounds(),
                final(self).reader.rounds(),
                select_opts(),
                select_frame(cl, uid@),
            ),
            all_conform(final(self).reader.rounds(), old(self).reader.rounds().len() as int),
            unhalted(final(self).reader.rounds(), old(self).reader.rounds().len() as int),
            res == select_outcome(final(self).reader.rounds().last()),
            res matches Err(e) ==> failure(final(self).reader.rounds().last()) == Some(e),
            res is Ok ==> failure(final(self).reader.rounds().last()) is None,
            res is Ok ==> selects(final(self).reader.rounds().last(), cl as int, uid@),
    {
        let ghost before = self.reader.rounds();
        let ghost opts = select_opts();
        let ghost tx = select_frame(cl, uid@);
        proof {
            crate::record::lemma_extends::<ll::Round<T::Error>>();
        }
        let mut tries = TRIES;
        loop
            invariant
                0 < tries <= TRIES,
                cl <= 2,
                before == old(self).reader.rounds(),
                crate::record::extends(self.reader.rounds(), before),
                self.reader.rounds().len() == before.len() + TRIES - tries,
                forall|i: int|
                    before.len() <= i < self.reader.rounds().len() ==> asks(
                        #[trigger] self.reader.rounds()[i],
                        opts,
                        tx,
                    ) && failure(self.reader.rounds()[i]) is Some,
                opts == select_opts(),
                tx == select_frame(cl, uid@),
            decreases tries,
        {
            proof {
                crate::record::lemma_extends::<ll::Round<T::Error>>();
            }
            let ghost so_far = self.reader.rounds();
            let r = self.transceive_select(cl, uid);
            tries -= 1;
            proof {
                let now = self.reader.rounds();
                assert forall|i: int| before.len() <= i < now.len() - 1 implies asks(
                    #[trigger] now[i],
                    opts,
                    tx,
                ) && failure(now[i]) is Some by {
                    assert(now[i] == so_far[i]);
                }
            }
            if r.is_ok() || tries == 0 {
                proof {
                    reveal(conforms);
                    let now = self.reader.rounds();
                    lemma_frames_conform(cl, uid@, 0);
                    assert(tx.len() == 7);
                    assert(hlta_frame().len() == 2);
                    assert forall|i: int| before.len() <= i < now.len() implies conforms(
                        #[trigger] now[i],
                    ) && !is_hlta(now[i]) by {
                        assert(asks(now[i], opts, tx));
                    }
                }
                return r;
            }
        }
    }

    /// Reads the four bytes of level `cl` of one card: asks with a longer
    /// and longer prefix, putting a one at each bit where cards collide,
    /// until an answer comes without collision.
    ///
    /// The four bytes are those of the last answer, which came whole and
    /// with the check byte that belongs to them.
    fn resolve(&mut self, cl: u8, Ghost(from): Ghost<int>) -> (res: Result<
        [u8; 4],
        Error<T::Error>,
    >)
        requires
            cl <= 2,
            0 <= from <= old(self).reader.rounds().len(),
            dialogue(old(self).reader.rounds(), from, None),
            awaits(
                old(self).reader.rounds(),
                from,
                Frame::Anticoll { bits: 16 },
                anticoll_frame(cl, no_prefix(), 0),
                None,
            ),
        ensures
            crate::record::extends(final(self).reader.rounds(), old(self).reader.rounds()),
            final(self).reader.rounds().len() > old(self).reader.rounds().len(),
            all_conform(final(self).reader.rounds(), old(self).reader.rounds().len() as int),
            unhalted(final(self).reader.rounds(), old(self).reader.rounds().len() as int),
            dialogue(final(self).reader.rounds(), from, None),
            res matches Err(e) ==> failure(final(self).reader.rounds().last()) == Some(e)
                && exhausted(final(self).reader.rounds(), from),
            res matches Ok(block) ==> {
                let last = final(self).reader.rounds().last();
                &&& awaits(
                    final(self).reader.rounds(),
                    from,
                    select_opts(),
                    select_frame(cl, block@),
                    None,
                )
                &&& last.opts is Anticoll
                &&& last.tx[0] == sel_command(cl)
                &&& last.res is Ok
                &&& block@ == last.rx.subrange(2, 6)
                &&& last.rx[6] == bcc(block@)
            },
    {
        let ghost before = self.reader.rounds();
        proof {
            crate::record::lemma_extends::<ll::Round<T::Error>>();
        }
        let mut uid_part = [0u8; 4];
        let mut uid_bits: usize = 0;
        assert(uid_part@ =~= no_prefix());
        loop
            invariant
                cl <= 2,
                uid_bits <= 32,
                0 <= from <= before.len(),
                before == old(self).reader.rounds(),
                crate::record::extends(self.reader.rounds(), before),
                all_conform(self.reader.rounds(), before.len() as int),
                unhalted(self.reader.rounds(), before.len() as int),
                dialogue(self.reader.rounds(), from, None),
                awaits(
                    self.reader.rounds(),
                    from,
                    Frame::Anticoll { bits: (16 + uid_bits) as usize },
                    anticoll_frame(cl, uid_part@, uid_bits as int),
                    None,
                ),
                uid_bits == 0 ==> self.reader.rounds() == before,
                uid_bits > 0 ==> self.reader.rounds().len() > before.len(),
            decreases 33 - uid_bits,
        {
            proof {
                crate::record::lemma_extends::<ll::Round<T::Error>>();
            }
            let ghost so_far = self.reader.rounds();
            let ghost prefix = uid_part@;
            let ghost opts = Frame::Anticoll { bits: (16 + uid_bits) as usize };
            let ghost tx = anticoll_frame(cl, prefix, uid_bits as int);
            let asked = self.anticoll(cl, &mut uid_part, uid_bits);
            proof {
                let now = self.reader.rounds();
                lemma_conform_grows(so_far, now, before.len() as int);
                lemma_unhalted_grows(so_far, now, before.len() as int);
                lemma_tried_keeps_dialogue(so_far, now, from, opts, tx, None);
            }
            let known = match asked {
                Ok(known) => known,
                Err(e) => {
                    return Err(e);
                },
            };
            proof {
                let now = self.reader.rounds();
                assert(asks(now[now.len() - 1], opts, tx));
                lemma_frames_conform(cl, prefix, uid_bits as int);
                lemma_after_anticoll(now.last(), cl, (16 + uid_bits) as usize, known);
            }
            if known == 32 {
                proof {
                    let last = self.reader.rounds().last();
                    assert(last.rx.subrange(2, 6) =~= uid_part@);
                }
                return Ok(uid_part);
            }
            prefer_one(&mut uid_part, known);
            uid_bits = known + 1;
        }
    }


    /// Runs the cascade on the cards that are awake: resolves and selects
    /// level after level until one does not start with the cascade tag.
    /// Returns the identifier and the last SAK.
    #[verifier::rlimit(40)]
    fn cascade(&mut self, Ghost(from): Ghost<int>) -> (res: Result<
        (heapless::Vec<u8, UID_MAX_LEN>, u8),
        CascadeError<T::Error>,
    >)
        requires
            0 <= from < old(self).reader.rounds().len(),
            dialogue(old(self).reader.rounds(), from, None),
            awaits(
                old(self).reader.rounds(),
                from,
                Frame::Anticoll { bits: 16 },
                anticoll_frame(0, no_prefix(), 0),
                None,
            ),
        ensures
            crate::record::extends(final(self).reader.rounds(), old(self).reader.rounds()),
            final(self).reader.rounds().len() > old(self).reader.rounds().len(),
            all_conform(final(self).reader.rounds(), old(self).reader.rounds().len() as int),
            unhalted(final(self).reader.rounds(), old(self).reader.rounds().len() as int),
            dialogue(final(self).reader.rounds(), from, None),
            res matches Err(CascadeError::Exchange(e)) ==> failure(
                final(self).reader.rounds().last(),
            ) == Some(e) && exhausted(final(self).reader.rounds(), from),
            res matches Err(CascadeError::TooManyLevels) ==> ends_too_deep(
                final(self).reader.rounds().last(),
            ),
            res matches Ok(found) ==> {
                &&& is_uid(uid_bytes(found.0))
                &&& activated(
                    final(self).reader.rounds(),
                    old(self).reader.rounds().len() as int,
                    uid_bytes(found.0),
                )
                &&& select_outcome(final(self).reader.rounds().last()) == Ok::<
                    u8,
                    Error<T::Error>,
                >(found.1)
                &&& selects(
                    final(self).reader.rounds().last(),
                    cascade_levels(uid_bytes(found.0).len() as int) - 1,
                    cascade_block(
                        uid_bytes(found.0),
                        cascade_levels(uid_bytes(found.0).len() as int) - 1,
                    ),
                )
                &&& ends_selected(final(self).reader.rounds().last())
                &&& awaits(final(self).reader.rounds(), from, select_opts(), hlta_frame(), None)
            },
    {
        let ghost before = self.reader.rounds();
        proof {
            crate::record::lemma_extends::<ll::Round<T::Error>>();
        }
        let mut uid = uid_new();
        let mut cl: u8 = 0;
        while cl < 3
            invariant
                cl < 3,
                0 <= from < before.len(),
                uid_bytes(uid).len() == 3 * cl,
                before == old(self).reader.rounds(),
                crate::record::extends(self.reader.rounds(), before),
                all_conform(self.reader.rounds(), before.len() as int),
                unhalted(self.reader.rounds(), before.len() as int),
                dialogue(self.reader.rounds(), from, None),
                awaits(
                    self.reader.rounds(),
                    from,
                    Frame::Anticoll { bits: 16 },
                    anticoll_frame(cl, no_prefix(), 0),
                    None,
                ),
                forall|l: int|
                    0 <= l < cl ==> #[trigger] selected_at(
                        self.reader.rounds(),
                        before.len() as int,
                        l,
                        tagged(uid_bytes(uid), l),
                    ),
            decreases 3 - cl,
        {
            proof {
                crate::record::lemma_extends::<ll::Round<T::Error>>();
            }
            let ghost rounds0 = self.reader.rounds();
            let ghost uid0 = uid_bytes(uid);
            let resolved = self.resolve(cl, Ghost(from));
            let ghost rounds_mid = self.reader.rounds();
            proof {
                lemma_conform_grows(rounds0, rounds_mid, before.len() as int);
                lemma_unhalted_grows(rounds0, rounds_mid, before.len() as int);
            }
            let block = match resolved {
                Ok(block) => block,
                Err(e) => {
                    return Err(CascadeError::Exchange(e));
                },
            };
            let selected = self.select(cl, &block);
            proof {
                let now = self.reader.rounds();
                lemma_conform_grows(rounds_mid, now, before.len() as int);
                lemma_unhalted_grows(rounds_mid, now, before.len() as int);
                lemma_tried_keeps_dialogue(
                    rounds_mid,
                    now,
                    from,
                    select_opts(),
                    select_frame(cl, block@),
                    None,
                );
            }
            let sak = match selected {
                Ok(sak) => sak,
                Err(e) => {
                    return Err(CascadeError::Exchange(e));
                },
            };
            let ghost rounds1 = self.reader.rounds();
            proof {
                assert(asks(rounds1[rounds1.len() - 1], select_opts(), select_frame(cl, block@)));
                lemma_after_select(rounds1.last(), cl, block@, Seq::empty());
                lemma_frames_conform(cl, block@, 0);
                lemma_selected_last(rounds1, before.len() as int, cl as int, block@);
                assert forall|l: int| 0 <= l < cl implies #[trigger] selected_at(
                    rounds1,
                    before.len() as int,
                    l,
                    tagged(uid0, l),
                ) by {
                    lemma_selected_grows(
                        rounds0,
                        rounds1,
                        before.len() as int,
                        before.len() as int,
                        l,
                        tagged(uid0, l),
                    );
                }
            }
            match after_level(cl, &block) {
                LevelStep::Done => {
                    let fits = uid_extend(&mut uid, part_of(&block));
                    assert(fits is Ok);
                    proof {
                        let now = uid_bytes(uid);
                        let levels = cascade_levels(now.len() as int);
                        assert(levels == cl + 1);
                        assert(now[3 * cl as int] == block@[0]);
                        assert(cascade_block(now, cl as int) =~= block@);
                        assert forall|l: int| 0 <= l < levels implies #[trigger] selected_at(
                            rounds1,
                            before.len() as int,
                            l,
                            cascade_block(now, l),
                        ) by {
                            if l < cl {
                                assert(selected_at(
                                    rounds1,
                                    before.len() as int,
                                    l,
                                    tagged(uid0, l),
                                ));
                                assert(cascade_block(now, l) =~= tagged(uid0, l));
                            }
                        }
                    }
                    return Ok((uid, sak));
                },
                LevelStep::Next => {
                    let fits = uid_extend(&mut uid, part_of(&block));
                    assert(fits is Ok);
                    proof {
                        let now = uid_bytes(uid);
                        assert(block@ =~= tagged(now, cl as int));
                        assert forall|l: int| 0 <= l < cl + 1 implies #[trigger] selected_at(
                            rounds1,
                            before.len() as int,
                            l,
                            tagged(now, l),
                        ) by {
                            if l < cl {
                                assert(selected_at(
                                    rounds1,
                                    before.len() as int,
                                    l,
                                    tagged(uid0, l),
                                ));
                                assert(tagged(now, l) =~= tagged(uid0, l));
                            }
                        }
                    }
                    cl += 1;
                },
                LevelStep::TooDeep => {
                    return Err(CascadeError::TooManyLevels);
                },
            }
        }
        Err(CascadeError::TooManyLevels)
    }

    /// Wakes the cards in the field and selects one of them.
    ///
    /// The first frame is WUPA, and every frame is the one that follows
    /// the round before it: a frame that failed is sent again, up to four
    /// times, and at each collision the prefix grows by the bits received
    /// and a one. No card is sent to sleep.
    ///
    /// It succeeds exactly where the last round is a SELECT that the card
    /// acknowledged and that does not announce another level. Every level
    /// of the identifier returned was selected and acknowledged, the SAK is
    /// the answer to the last SELECT, and the ATQA the answer to WUPA.
    ///
    /// It fails with the failure of the last round where a frame failed
    /// four times in a row: the error of the frame level, or `Protocol`
    /// where the answer has the wrong length or a wrong check byte. It
    /// fails with `Protocol` where the third level announces a fourth.
    pub fn select_any(&mut self) -> (res: Result<Card<'_, T>, Error<T::Error>>)
        ensures
            res matches Ok(card) ==> {
                &&& final(self).reader == *final(card.reader)
                &&& ran(old(self).reader.rounds(), card.reader.rounds(), Frame::WupA, None)
                &&& unhalted(card.reader.rounds(), old(self).reader.rounds().len() as int)
                &&& ends_selected(card.reader.rounds().last())
                &&& is_uid(uid_bytes(card.uid))
                &&& activated(
                    card.reader.rounds(),
                    old(self).reader.rounds().len() as int,
                    uid_bytes(card.uid),
                )
                &&& selects(
                    card.reader.rounds().last(),
                    cascade_levels(uid_bytes(card.uid).len() as int) - 1,
                    cascade_block(
                        uid_bytes(card.uid),
                        cascade_levels(uid_bytes(card.uid).len() as int) - 1,
                    ),
                )
                &&& select_outcome(card.reader.rounds().last()) == Ok::<u8, Error<T::Error>>(
                    card.sak,
                )
                &&& exists|j: int|
                    old(self).reader.rounds().len() <= j < card.reader.rounds().len() && asks(
                        #[trigger] card.reader.rounds()[j],
                        Frame::WupA,
                        Seq::empty(),
                    ) && wake_outcome(card.reader.rounds()[j]) == Ok::<Seq<u8>, Error<T::Error>>(
                        card.atqa@,
                    )
            },
            res matches Err(e) ==> {
                &&& ran(old(self).reader.rounds(), final(self).reader.rounds(), Frame::WupA, None)
                &&& unhalted(final(self).reader.rounds(), old(self).reader.rounds().len() as int)
                &&& !ends_selected(final(self).reader.rounds().last())
                &&& ended_with(
                    final(self).reader.rounds(),
                    old(self).reader.rounds().len() as int,
                    e,
                    ends_too_deep(final(self).reader.rounds().last()),
                )
            },
    {
        let ghost before = self.reader.rounds();
        let ghost from = before.len() as int;
        proof {
            crate::record::lemma_extends::<ll::Round<T::Error>>();
        }
        let woken = self.wake(true);
        proof {
            let now = self.reader.rounds();
            lemma_tried_keeps_dialogue(before, now, from, Frame::WupA, Seq::empty(), None);
            assert(asks(now[from], Frame::WupA, Seq::empty()));
        }
        let atqa = match woken {
            Ok(atqa) => atqa,
            Err(e) => {
                return Err(e);
            },
        };
        let ghost woken = self.reader.rounds();
        let ghost at = woken.len() - 1;
        proof {
            assert(asks(woken[at], Frame::WupA, Seq::empty()));
            lemma_after_wake(woken.last(), Seq::empty());
        }
        let found = self.cascade(Ghost(from));
        proof {
            let now = self.reader.rounds();
            lemma_conform_grows(woken, now, from);
            lemma_unhalted_grows(woken, now, from);
            crate::record::lemma_extends_keeps(now, woken, from);
        }
        match found {
            Ok((uid, sak)) => {
                proof {
                    let now = self.reader.rounds();
                    crate::record::lemma_extends_keeps(now, woken, at);
                    lemma_activated_grows(now, now, woken.len() as int, from, uid_bytes(uid));
                }
                Ok(Card { reader: &mut self.reader, uid, atqa, sak })
            },
            Err(CascadeError::Exchange(e)) => Err(e),
            Err(CascadeError::TooManyLevels) => Err(Error::Protocol),
        }
    }

    /// Wakes the cards in the field and selects the one with the identifier
    /// `uid`, without anticollision.
    ///
    /// The first frame is WUPA. When it is answered, the levels of `uid`
    /// are selected one after the other; a frame that failed is sent
    /// again, up to four times.
    ///
    /// It succeeds exactly where the last round is the SELECT of the last
    /// level of `uid` and the card acknowledged it. The SAK is the answer
    /// to that SELECT, and the ATQA the answer to WUPA.
    ///
    /// It fails with the failure of the last round where a frame failed
    /// four times in a row, and with `Protocol`, after WUPA and without a
    /// SELECT, where `uid` has not four, seven or ten bytes.
    pub fn select_by_id(&mut self, uid: &[u8]) -> (res: Result<Card<'_, T>, Error<T::Error>>)
        ensures
            res matches Ok(card) ==> {
                &&& final(self).reader == *final(card.reader)
                &&& ran(
                    old(self).reader.rounds(),
                    card.reader.rounds(),
                    Frame::WupA,
                    Some(uid@),
                )
                &&& unhalted(card.reader.rounds(), old(self).reader.rounds().len() as int)
                &&& ends_selected_by_id(card.reader.rounds().last(), uid@)
                &&& uid_bytes(card.uid) == uid@
                &&& activated(card.reader.rounds(), old(self).reader.rounds().len() as int, uid@)
                &&& select_outcome(card.reader.rounds().last()) == Ok::<u8, Error<T::Error>>(
                    card.sak,
                )
                &&& exists|j: int|
                    old(self).reader.rounds().len() <= j < card.reader.rounds().len() && asks(
                        #[trigger] card.reader.rounds()[j],
                        Frame::WupA,
                        Seq::empty(),
                    ) && wake_outcome(card.reader.rounds()[j]) == Ok::<Seq<u8>, Error<T::Error>>(
                        card.atqa@,
                    )
            },
            res matches Err(e) ==> {
                &&& ran(
                    old(self).reader.rounds(),
                    final(self).reader.rounds(),
                    Frame::WupA,
                    Some(uid@),
                )
                &&& unhalted(final(self).reader.rounds(), old(self).reader.rounds().len() as int)
                &&& !ends_selected_by_id(final(self).reader.rounds().last(), uid@)
                &&& ended_with(
                    final(self).reader.rounds(),
                    old(self).reader.rounds().len() as int,
                    e,
                    cascade_levels(uid@.len() as int) == 0
                        && final(self).reader.rounds().last().opts is WupA,
                )
            },
            cascade_levels(uid@.len() as int) == 0 ==> res is Err && forall|j: int|
                old(self).reader.rounds().len() <= j < final(self).reader.rounds().len() ==> asks(
                    #[trigger] final(self).reader.rounds()[j],
                    Frame::WupA,
                    Seq::empty(),
                ),
    {
        let ghost before = self.reader.rounds();
        let ghost from = before.len() as int;
        let ghost known = Some(uid@);
        proof {
            crate::record::lemma_extends::<ll::Round<T::Error>>();
        }
        let woken = self.wake(true);
        proof {
            let now = self.reader.rounds();
            lemma_tried_keeps_dialogue(before, now, from, Frame::WupA, Seq::empty(), known);
            assert(asks(now[from], Frame::WupA, Seq::empty()));
        }
        let atqa = match woken {
            Ok(atqa) => atqa,
            Err(e) => {
                return Err(e);
            },
        };
        let ghost woken = self.reader.rounds();
        let ghost at = woken.len() - 1;
        proof {
            assert(asks(woken[at], Frame::WupA, Seq::empty()));
            lemma_after_wake(woken.last(), uid@);
        }
        let mut sak: u8 = 0;
        let cln: usize = match uid.len() {
            4 => 1,
            7 => 2,
            10 => 3,
            _ => {
                return Err(Error::Protocol);
            },
        };
        let mut cl: usize = 0;
        while cl < cln
            invariant
                cl <= cln <= 3,
                cln == cascade_levels(uid@.len() as int),
                before == old(self).reader.rounds(),
                from == before.len(),
                known == Some(uid@),
                at == woken.len() - 1,
                crate::record::extends(woken, before),
                woken.len() > before.len(),
                asks(woken[from], Frame::WupA, Seq::empty()),
                crate::record::extends(self.reader.rounds(), woken),
                all_conform(self.reader.rounds(), from),
                unhalted(self.reader.rounds(), from),
                dialogue(self.reader.rounds(), from, known),
                awaits(
                    self.reader.rounds(),
                    from,
                    select_opts(),
                    select_frame(cl as u8, cascade_block(uid@, cl as int)),
                    known,
                ),
                forall|l: int|
                    0 <= l < cl ==> #[trigger] selected_at(
                        self.reader.rounds(),
                        woken.len() as int,
                        l,
                        cascade_block(uid@, l),
                    ),
                cl > 0 ==> select_outcome(self.reader.rounds().last()) == Ok::<
                    u8,
                    Error<T::Error>,
                >(sak) && selects(
                    self.reader.rounds().last(),
                    cl - 1,
                    cascade_block(uid@, cl - 1),
                ),
            decreases cln - cl,
        {
            proof {
                crate::record::lemma_extends::<ll::Round<T::Error>>();
            }
            let ghost rounds0 = self.reader.rounds();
            let block = build_cascade_block(uid, cl, cln);
            let selected = self.select(cl as u8, &block);
            proof {
                let now = self.reader.rounds();
                lemma_conform_grows(rounds0, now, from);
                lemma_unhalted_grows(rounds0, now, from);
                lemma_tried_keeps_dialogue(
                    rounds0,
                    now,
                    from,
                    select_opts(),
                    select_frame(cl as u8, block@),
                    known,
                );
                crate::record::lemma_extends_keeps(now, woken, from);
            }
            sak = match selected {
                Ok(sak) => sak,
                Err(e) => {
                    return Err(e);
                },
            };
            proof {
                let rounds1 = self.reader.rounds();
                assert(asks(
                    rounds1[rounds1.len() - 1],
                    select_opts(),
                    select_frame(cl as u8, block@),
                ));
                lemma_after_select(rounds1.last(), cl as u8, block@, uid@);
                lemma_selected_last(
                    rounds1,
                    woken.len() as int,
                    cl as int,
                    cascade_block(uid@, cl as int),
                );
                assert forall|l: int| 0 <= l < cl implies #[trigger] selected_at(
                    rounds1,
                    woken.len() as int,
                    l,
                    cascade_block(uid@, l),
                ) by {
                    lemma_selected_grows(
                        rounds0,
                        rounds1,
                        woken.len() as int,
                        woken.len() as int,
                        l,
                        cascade_block(uid@, l),
                    );
                }
            }
            cl += 1;
        }
        let mut found = uid_new();
        let fits = uid_extend(&mut found, uid);
        assert(fits is Ok);
        proof {
            let now = self.reader.rounds();
            crate::record::lemma_extends_keeps(now, woken, at);
            crate::record::lemma_extends_keeps(now, woken, from);
            assert(uid_bytes(found) =~= uid@);
            lemma_activated_grows(now, now, woken.len() as int, from, uid@);
        }
        Ok(Card { reader: &mut self.reader, uid: found, atqa, sak })
    }

    /// Lists the cards in the field: up to `N` identifiers, none twice.
    ///
    /// Each round wakes the cards that are not halted with REQA, selects
    /// one of them as [`Self::select_any`] does, and halts it with HLTA;
    /// its identifier is added to the list unless it is there already.
    /// Every frame is the one that follows the round before it.
    ///
    /// The search ends when the list is full, after `4 * N` rounds, or
    /// when a frame has failed four times in a row; in the first two cases
    /// its last frame is HLTA. Where that last
    /// failure is a missing answer or an answer that no card should give,
    /// the list so far is returned; any other error of the frame level is
    /// returned as it is. A card that announces a fourth cascade level
    /// ends the search with `Protocol`.
    ///
    /// With `N == 0` nothing is sent.
    ///
    /// A card of the list is selected with [`Self::select_by_id`].
    #[verifier::rlimit(40)]
    pub fn search<const N: usize>(&mut self) -> (res: Result<
        Vec<heapless::Vec<u8, UID_MAX_LEN>>,
        Error<T::Error>,
    >)
        requires
            N * 4 <= usize::MAX,
        ensures
            N == 0 ==> res is Ok && final(self).reader.rounds() == old(self).reader.rounds(),
            N > 0 ==> ran(
                old(self).reader.rounds(),
                final(self).reader.rounds(),
                Frame::ReqA,
                None,
            ),
            halts(final(self).reader.rounds(), old(self).reader.rounds().len() as int) <= 4 * N,
            N > 0 && !is_hlta(final(self).reader.rounds().last()) ==> halts(
                final(self).reader.rounds(),
                old(self).reader.rounds().len() as int,
            ) < 4 * N,
            res matches Ok(found) ==> {
                let rounds = final(self).reader.rounds();
                let from = old(self).reader.rounds().len() as int;
                &&& found@.len() <= N
                &&& found@.len() <= halts(rounds, from)
                &&& forall|i: int|
                    0 <= i < found@.len() ==> {
                        &&& is_uid(uid_bytes(#[trigger] found@[i]))
                        &&& activated(rounds, from, uid_bytes(found@[i]))
                        &&& halted_after(rounds, from, uid_bytes(found@[i]))
                    }
                &&& forall|i: int, j: int|
                    0 <= i < j < found@.len() ==> uid_bytes(#[trigger] found@[i]) != uid_bytes(
                        #[trigger] found@[j],
                    )
                &&& all_noted(rounds, from, found@)
                &&& N > 0 ==> is_hlta(rounds.last()) || stopped_softly(rounds, from)
                &&& N > 0 && found@.len() == N ==> is_hlta(rounds.last())
                &&& found@.len() < N ==> stopped_softly(rounds, from) || halts(rounds, from) == 4
                    * N
            },
            res matches Err(e) ==> {
                &&& N > 0
                &&& failure(final(self).reader.rounds().last()) is Some ==> !e.soft()
                &&& ended_with(
                    final(self).reader.rounds(),
                    old(self).reader.rounds().len() as int,
                    e,
                    ends_too_deep(final(self).reader.rounds().last()),
                )
            },
    {
        let ghost before = self.reader.rounds();
        let ghost from = before.len() as int;
        proof {
            crate::record::lemma_extends::<ll::Round<T::Error>>();
        }
        let mut found: Vec<heapless::Vec<u8, UID_MAX_LEN>> = Vec::new();
        let mut round: usize = 0;
        assert(all_noted(before, from, found@)) by {
            reveal(all_noted);
        }
        while search_goes_on(round, found.len(), N)
            invariant
                N * 4 <= usize::MAX,
                found@.len() <= N,
                found@.len() <= round <= 4 * N,
                before == old(self).reader.rounds(),
                from == before.len(),
                crate::record::extends(self.reader.rounds(), before),
                all_conform(self.reader.rounds(), from),
                dialogue(self.reader.rounds(), from, None),
                awaits(self.reader.rounds(), from, Frame::ReqA, Seq::empty(), None),
                halts(self.reader.rounds(), from) == round,
                all_noted(self.reader.rounds(), from, found@),
                round == 0 ==> self.reader.rounds() == before,
                round > 0 ==> {
                    &&& self.reader.rounds().len() > from
                    &&& asks(self.reader.rounds()[from], Frame::ReqA, Seq::empty())
                    &&& is_hlta(self.reader.rounds().last())
                },
                forall|i: int|
                    0 <= i < found@.len() ==> {
                        &&& is_uid(uid_bytes(#[trigger] found@[i]))
                        &&& activated(self.reader.rounds(), from, uid_bytes(found@[i]))
                        &&& halted_after(self.reader.rounds(), from, uid_bytes(found@[i]))
                    },
                forall|i: int, j: int|
                    0 <= i < j < found@.len() ==> uid_bytes(#[trigger] found@[i]) != uid_bytes(
                        #[trigger] found@[j],
                    ),
            decreases N * 4 - round,
        {
            proof {
                crate::record::lemma_extends::<ll::Round<T::Error>>();
            }
            round += 1;
            let ghost rounds0 = self.reader.rounds();
            let woken = self.wake(false);
            let ghost rounds1 = self.reader.rounds();
            proof {
                lemma_conform_grows(rounds0, rounds1, from);
                lemma_tried_keeps_dialogue(rounds0, rounds1, from, Frame::ReqA, Seq::empty(), None);
                lemma_halts_unchanged(rounds0, rounds1, from);
                lemma_noted_grows(rounds0, rounds1, from, found@);
                if rounds0.len() > from {
                    crate::record::lemma_extends_keeps(rounds1, rounds0, from);
                } else {
                    assert(asks(rounds1[from], Frame::ReqA, Seq::empty()));
                }
                assert forall|i: int| 0 <= i < found@.len() implies activated(
                    rounds1,
                    from,
                    uid_bytes(#[trigger] found@[i]),
                ) && halted_after(rounds1, from, uid_bytes(found@[i])) by {
                    lemma_activated_grows(rounds0, rounds1, from, from, uid_bytes(found@[i]));
                    lemma_halted_grows(rounds0, rounds1, from, uid_bytes(found@[i]));
                }
            }
            match woken {
                Ok(_) => {},
                Err(e) => {
                    if e.is_soft() {
                        return Ok(found);
                    }
                    return Err(e);
                },
            }
            proof {
                assert(asks(rounds1[rounds1.len() - 1], Frame::ReqA, Seq::empty()));
                lemma_after_wake(rounds1.last(), Seq::empty());
            }
            let selected = self.cascade(Ghost(from));
            let ghost rounds2 = self.reader.rounds();
            proof {
                lemma_conform_grows(rounds1, rounds2, from);
                lemma_halts_unchanged(rounds1, rounds2, from);
                lemma_noted_grows(rounds1, rounds2, from, found@);
                crate::record::lemma_extends_keeps(rounds2, rounds1, from);
                assert forall|i: int| 0 <= i < found@.len() implies activated(
                    rounds2,
                    from,
                    uid_bytes(#[trigger] found@[i]),
                ) && halted_after(rounds2, from, uid_bytes(found@[i])) by {
                    lemma_activated_grows(rounds1, rounds2, from, from, uid_bytes(found@[i]));
                    lemma_halted_grows(rounds1, rounds2, from, uid_bytes(found@[i]));
                }
            }
            let uid = match selected {
                Ok((uid, _)) => uid,
                Err(CascadeError::TooManyLevels) => {
                    return Err(Error::Protocol);
                },
                Err(CascadeError::Exchange(e)) => {
                    if e.is_soft() {
                        return Ok(found);
                    }
                    return Err(e);
                },
            };
            proof {
                lemma_activated_grows(
                    rounds2,
                    rounds2,
                    rounds1.len() as int,
                    from,
                    uid_bytes(uid),
                );
            }
            self.transceive_hlta();
            proof {
                let now = self.reader.rounds();
                assert(now[now.len() - 1] == now.last());
                assert(all_conform(now, rounds2.len() as int));
                lemma_conform_grows(rounds2, now, from);
                lemma_after_hlta(now.last());
                assert(tried(rounds2, now, select_opts(), hlta_frame()));
                lemma_tried_keeps_dialogue(rounds2, now, from, select_opts(), hlta_frame(), None);
                lemma_halts_push(rounds2, from, now.last());
                crate::record::lemma_extends_keeps(now, rounds2, from);
                crate::record::lemma_extends_keeps(now, rounds2, rounds2.len() - 1);
                assert(halted_after(now, from, uid_bytes(uid)));
                lemma_activated_grows(rounds2, now, from, from, uid_bytes(uid));
                assert forall|i: int| 0 <= i < found@.len() implies activated(
                    now,
                    from,
                    uid_bytes(#[trigger] found@[i]),
                ) && halted_after(now, from, uid_bytes(found@[i])) by {
                    lemma_activated_grows(rounds2, now, from, from, uid_bytes(found@[i]));
                    lemma_halted_grows(rounds2, now, from, uid_bytes(found@[i]));
                }
            }
            let ghost found0 = found@;
            note(&mut found, uid);
            proof {
                lemma_noted_after_hlta(rounds2, self.reader.rounds(), from, found0, found@, uid);
            }
        }
        Ok(found)
    }
}


/// Whether two byte strings are the same.
pub fn same_bytes(a: &[u8], b: &[u8]) -> (same: bool)
    ensures
        same <==> a@ == b@,
{
    if a.len() != b.len() {
        return false;
    }
    let mut i: usize = 0;
    while i < a.len()
        invariant
            i <= a@.len(),
            a@.len() == b@.len(),
            forall|j: int| 0 <= j < i ==> a@[j] == b@[j],
        decreases a@.len() - i,
    {
        if a[i] != b[i] {
            return false;
        }
        i += 1;
    }
    assert(a@ =~= b@);
    true
}

/// What an exchange of the front-end is to the card above it: a standard
/// frame, whose answer is counted in bytes.
pub open spec fn card_exchange<E>(round: ll::Round<E>) -> Exchange<E> {
    Exchange {
        tx: round.tx,
        timeout_1fc: match round.opts {
            Frame::Standard { timeout_1fc } => timeout_1fc,
            _ => 0,
        },
        reply: match round.res {
            Ok(bits) => Ok(round.rx.subrange(0, bits as int / 8)),
            Err(e) => Err(e),
        },
    }
}

impl<'d, T: LLReader> Reader for Card<'d, T> {
    type Error = T::Error;

    /// The exchanges of the front-end, each as the card sees it.
    open spec fn log(&self) -> Seq<Exchange<Self::Error>> {
        self.reader.rounds().map_values(|round: ll::Round<T::Error>| card_exchange(round))
    }

    /// One standard frame through the front-end. The card stays the one
    /// that was selected.
    fn transceive(&mut self, tx: &[u8], rx: &mut [u8], timeout_1fc: u32) -> (res: Result<
        usize,
        Self::Error,
    >)
        ensures
            uid_bytes(final(self).uid) == uid_bytes(old(self).uid),
            final(self).atqa == old(self).atqa,
            final(self).sak == old(self).sak,
            final(self).reader.rounds() == old(self).reader.rounds().push(
                final(self).reader.rounds().last(),
            ),
            asks(final(self).reader.rounds().last(), Frame::Standard { timeout_1fc }, tx@),
            final(self).reader.rounds().last().rx == final(rx)@,
            res == match final(self).reader.rounds().last().res {
                Ok(bits) => Ok::<usize, T::Error>(bits / 8),
                Err(e) => Err(e),
            },
            res matches Ok(n) ==> final(self).reader.rounds().last().res == Ok::<usize, T::Error>(
                (8 * n) as usize,
            ),
    {
        let opts = Frame::Standard { timeout_1fc };
        let bits = self.reader.transceive(tx, rx, opts);
        let res = match bits {
            Ok(bits) => Ok(bits / 8),
            Err(e) => Err(e),
        };
        proof {
            let f = |round: ll::Round<T::Error>| card_exchange(round);
            let round = ll::Round { opts, tx: tx@, rx: rx@, res: bits };
            assert(self.reader.rounds().map_values(f) =~= old(self).reader.rounds().map_values(
                f,
            ).push(f(round)));
        }
        res
    }

    fn uid(&self) -> (bytes: &[u8])
        ensures
            bytes@ == uid_bytes(self.uid),
    {
        uid_as_slice(&self.uid)
    }

    fn atqa(&self) -> (atqa: [u8; 2])
        ensures
            atqa == self.atqa,
    {
        self.atqa
    }

    fn sak(&self) -> (sak: u8)
        ensures
            sak == self.sak,
    {
        self.sak
    }
}

} // verus!
