//! The frames of the ACR122U, a USB reader around a PN53x.
//!
//! A command for the PN53x travels in three wrappings: the PN53x frame
//! itself, a pseudo-APDU of the reader around it, and a CCID message around
//! that. The answer comes back in the same three. This module builds the
//! one and unwraps the other; the USB transfers are the caller's.
use vstd::prelude::*;
use crate::bytes;

verus! {

/// The length of the header of a CCID message.
pub const CCID_HEADER_LEN: usize = 10;

/// The CCID message type for a block sent to the reader.
pub const CCID_XFR_BLOCK: u8 = 0x6f;

/// The CCID message type for a block that the reader sends back.
pub const CCID_DATA_BLOCK: u8 = 0x80;

/// The PN53x command that lists the targets in the field.
pub const IN_LIST_PASSIVE_TARGET: u8 = 0x4a;

/// The PN53x command that exchanges data with a target.
pub const IN_DATA_EXCHANGE: u8 = 0x40;

/// The longest payload of a PN53x command.
pub const MAX_DATA_LEN: usize = 255;

/// Why an answer of the reader is not acceptable.
#[derive(Debug, Clone, Copy, PartialEq, Eq, Structural)]
pub enum Error {
    /// The CCID message is shorter than its header.
    CcidLength(usize),
    /// The CCID message is not a data block.
    CcidType(u8),
    /// The CCID message reports an error.
    CcidStatus(u8),
    /// The CCID message is shorter than it says.
    CcidTooShort { said: usize, got: usize },
    /// The pseudo-APDU is shorter than its status word.
    ApduTooShort(usize),
    /// The status word of the pseudo-APDU is not `90 00`.
    ApduStatus(u8, u8),
    /// The PN53x frame is shorter than its header.
    Pn53xTooShort(usize),
    /// The PN53x frame is not an answer.
    Pn53xType(u8),
    /// The PN53x frame answers another command.
    Pn53xCommand { want: u8, found: u8 },
    /// No target is in the field.
    NoCard,
    /// The list of targets is cut short or names more than one.
    Targets,
    /// The target did not take the data: the status of the exchange.
    Exchange(u8),
    /// The answer does not fit in the caller's buffer.
    TooLong(usize),
}

/// The byte `i` of the little-endian form of `n`.
pub open spec fn le_byte(n: int, i: int) -> u8 {
    if i == 0 {
        (n % 256) as u8
    } else if i == 1 {
        (n / 256 % 256) as u8
    } else if i == 2 {
        (n / 65536 % 256) as u8
    } else {
        (n / 16777216 % 256) as u8
    }
}

/// The message that carries the PN53x command `code` with the payload
/// `data` to the reader: a CCID block of the pseudo-APDU `FF 00 00 00 Lc`
/// around the PN53x frame `D4 code data`.
pub open spec fn command(code: u8, data: Seq<u8>) -> Seq<u8> {
    seq![
        CCID_XFR_BLOCK,
        le_byte(7 + data.len() as int, 0),
        le_byte(7 + data.len() as int, 1),
        le_byte(7 + data.len() as int, 2),
        le_byte(7 + data.len() as int, 3),
        0u8,
        0u8,
        0u8,
        0u8,
        0u8,
        0xFFu8,
        0u8,
        0u8,
        0u8,
        ((2 + data.len()) % 256) as u8,
        0xD4u8,
        code,
    ] + data
}

/// Builds the message for a PN53x command.
pub fn build_command(code: u8, data: &[u8]) -> (msg: Vec<u8>)
    requires
        data@.len() <= MAX_DATA_LEN,
    ensures
        msg@ == command(code, data@),
{
    let n = 7 + data.len();
    let mut msg: Vec<u8> = Vec::new();
    msg.push(CCID_XFR_BLOCK);
    msg.push((n % 256) as u8);
    msg.push((n / 256 % 256) as u8);
    msg.push((n / 65536 % 256) as u8);
    msg.push((n / 16777216 % 256) as u8);
    msg.push(0);
    msg.push(0);
    msg.push(0);
    msg.push(0);
    msg.push(0);
    msg.push(0xFF);
    msg.push(0);
    msg.push(0);
    msg.push(0);
    msg.push(((2 + data.len()) % 256) as u8);
    msg.push(0xD4);
    msg.push(code);
    let ghost head = msg@;
    let mut i: usize = 0;
    while i < data.len()
        invariant
            i <= data@.len(),
            msg@ == head + data@.subrange(0, i as int),
        decreases data@.len() - i,
    {
        msg.push(data[i]);
        i += 1;
        assert(msg@ =~= head + data@.subrange(0, i as int));
    }
    assert(msg@ =~= command(code, data@));
    msg
}

/// The length that a CCID message gives for its data.
pub open spec fn ccid_len(res: Seq<u8>) -> int {
    res[1] + res[2] * 256 + res[3] * 65536 + res[4] * 16777216
}

/// Where in the reader's answer `res` to the command `code` the payload of
/// the PN53x lies, as place of its first byte and place behind its last;
/// or why the answer is not acceptable. The three wrappings are taken off
/// from the outside in, and the first fault found is reported.
pub open spec fn payload(code: u8, res: Seq<u8>) -> Result<(usize, usize), Error> {
    if res.len() < CCID_HEADER_LEN {
        Err(Error::CcidLength(res.len() as usize))
    } else if res[0] != CCID_DATA_BLOCK {
        Err(Error::CcidType(res[0]))
    } else if res[8] != 0x81 {
        Err(Error::CcidStatus(res[8]))
    } else if res.len() < CCID_HEADER_LEN + ccid_len(res) {
        Err(
            Error::CcidTooShort {
                said: ccid_len(res) as usize,
                got: res.len() as usize,
            },
        )
    } else if ccid_len(res) < 2 {
        Err(Error::ApduTooShort(ccid_len(res) as usize))
    } else if res[CCID_HEADER_LEN + ccid_len(res) - 2] != 0x90 || res[CCID_HEADER_LEN + ccid_len(
        res,
    ) - 1] != 0x00 {
        Err(
            Error::ApduStatus(
                res[CCID_HEADER_LEN + ccid_len(res) - 2],
                res[CCID_HEADER_LEN + ccid_len(res) - 1],
            ),
        )
    } else if ccid_len(res) - 2 < 2 {
        Err(Error::Pn53xTooShort((ccid_len(res) - 2) as usize))
    } else if res[CCID_HEADER_LEN as int] != 0xD5 {
        Err(Error::Pn53xType(res[CCID_HEADER_LEN as int]))
    } else if res[CCID_HEADER_LEN + 1] != code + 1 {
        Err(Error::Pn53xCommand { want: (code + 1) as u8, found: res[CCID_HEADER_LEN + 1] })
    } else {
        Ok(((CCID_HEADER_LEN + 2) as usize, (CCID_HEADER_LEN + ccid_len(res) - 2) as usize))
    }
}

/// Finds the payload of the PN53x in the reader's answer.
pub fn parse_response(code: u8, res: &[u8]) -> (at: Result<(usize, usize), Error>)
    requires
        code < 255,
    ensures
        at == payload(code, res@),
        at matches Ok(range) ==> CCID_HEADER_LEN + 2 <= range.0 <= range.1 <= res@.len(),
{
    if res.len() < CCID_HEADER_LEN {
        return Err(Error::CcidLength(res.len()));
    }
    if res[0] != CCID_DATA_BLOCK {
        return Err(Error::CcidType(res[0]));
    }
    if res[8] != 0x81 {
        return Err(Error::CcidStatus(res[8]));
    }
    let len: u64 = res[1] as u64 + res[2] as u64 * 256 + res[3] as u64 * 65536 + res[4] as u64
        * 16777216;
    if (res.len() as u64) < CCID_HEADER_LEN as u64 + len {
        return Err(Error::CcidTooShort { said: len as usize, got: res.len() });
    }
    let len = len as usize;
    if len < 2 {
        return Err(Error::ApduTooShort(len));
    }
    let sw1 = res[CCID_HEADER_LEN + len - 2];
    let sw2 = res[CCID_HEADER_LEN + len - 1];
    if sw1 != 0x90 || sw2 != 0x00 {
        return Err(Error::ApduStatus(sw1, sw2));
    }
    if len - 2 < 2 {
        return Err(Error::Pn53xTooShort(len - 2));
    }
    if res[CCID_HEADER_LEN] != 0xD5 {
        return Err(Error::Pn53xType(res[CCID_HEADER_LEN]));
    }
    if res[CCID_HEADER_LEN + 1] != code + 1 {
        return Err(Error::Pn53xCommand { want: code + 1, found: res[CCID_HEADER_LEN + 1] });
    }
    Ok((CCID_HEADER_LEN + 2, CCID_HEADER_LEN + len - 2))
}

/// A card as the reader lists it: where in the list its parts lie.
#[derive(Debug, Clone, Copy, PartialEq, Eq, Structural)]
pub struct Target {
    /// The two bytes of the ATQA.
    pub atqa0: u8,
    pub atqa1: u8,
    pub sak: u8,
    /// The place of the first byte of the identifier.
    pub uid_at: usize,
    pub uid_len: usize,
    /// The place of the first byte of the ATS, which is its own length.
    pub ats_at: usize,
    pub ats_len: usize,
}

/// The one card in a list of targets, or why the list is not acceptable.
/// The list starts with the number of targets; each target has its number,
/// the ATQA, the SAK, the identifier behind its length and the ATS, whose
/// first byte is its length.
pub open spec fn target(list: Seq<u8>) -> Result<Target, Error> {
    if list.len() < 1 || list[0] != 0x01 {
        Err(Error::NoCard)
    } else if list.len() < 6 || list[1] != 0x01 || list.len() < 6 + list[5] + 1 || list.len() < 6
        + list[5] + list[6 + list[5]] {
        Err(Error::Targets)
    } else {
        Ok(
            Target {
                atqa0: list[2],
                atqa1: list[3],
                sak: list[4],
                uid_at: 6,
                uid_len: list[5] as usize,
                ats_at: (6 + list[5]) as usize,
                ats_len: list[6 + list[5]] as usize,
            },
        )
    }
}

/// Reads the one card out of a list of targets.
pub fn parse_target(list: &[u8]) -> (res: Result<Target, Error>)
    ensures
        res == target(list@),
        res matches Ok(t) ==> t.uid_at + t.uid_len <= list@.len() && t.ats_at + t.ats_len
            <= list@.len(),
{
    if list.len() < 1 || list[0] != 0x01 {
        return Err(Error::NoCard);
    }
    if list.len() < 6 || list[1] != 0x01 {
        return Err(Error::Targets);
    }
    let uid_len = list[5] as usize;
    if list.len() < 6 + uid_len + 1 {
        return Err(Error::Targets);
    }
    let ats_len = list[6 + uid_len] as usize;
    if list.len() < 6 + uid_len + ats_len {
        return Err(Error::Targets);
    }
    Ok(
        Target {
            atqa0: list[2],
            atqa1: list[3],
            sak: list[4],
            uid_at: 6,
            uid_len,
            ats_at: 6 + uid_len,
            ats_len,
        },
    )
}

/// The payload of the command that sends `tx` to the first target.
pub open spec fn exchange(tx: Seq<u8>) -> Seq<u8> {
    seq![0x01u8] + tx
}

/// Builds the payload of a data exchange with the first target.
pub fn build_exchange(tx: &[u8]) -> (data: Vec<u8>)
    ensures
        data@ == exchange(tx@),
{
    let mut data: Vec<u8> = Vec::new();
    data.push(0x01);
    let mut i: usize = 0;
    while i < tx.len()
        invariant
            i <= tx@.len(),
            data@ == seq![0x01u8] + tx@.subrange(0, i as int),
        decreases tx@.len() - i,
    {
        data.push(tx[i]);
        i += 1;
        assert(data@ =~= seq![0x01u8] + tx@.subrange(0, i as int));
    }
    assert(data@ =~= exchange(tx@));
    data
}

/// Takes the target's answer out of the payload `res` of a data exchange
/// and puts it at the start of `rx`. Returns its length.
///
/// Fails with `Exchange` where the payload is empty or its status byte is
/// not zero, and with `TooLong` where `rx` has no room for the answer.
pub fn parse_exchange(res: &[u8], rx: &mut [u8]) -> (n: Result<usize, Error>)
    ensures
        final(rx)@.len() == old(rx)@.len(),
        n matches Ok(len) ==> {
            &&& res@.len() >= 1
            &&& res@[0] == 0
            &&& len == res@.len() - 1
            &&& len <= old(rx)@.len()
            &&& final(rx)@ == bytes::spliced(old(rx)@, 0, res@, 1, len as int)
        },
        n matches Err(e) ==> final(rx)@ == old(rx)@ && match e {
            Error::Exchange(status) => res@.len() == 0 && status == 0xFF || res@.len() > 0
                && res@[0] == status && status != 0,
            Error::TooLong(len) => res@.len() > 0 && res@[0] == 0 && len == res@.len() - 1 && len
                > old(rx)@.len(),
            _ => false,
        },
{
    if res.len() == 0 {
        return Err(Error::Exchange(0xFF));
    }
    if res[0] != 0x00 {
        return Err(Error::Exchange(res[0]));
    }
    let len = res.len() - 1;
    if len > rx.len() {
        return Err(Error::TooLong(len));
    }
    bytes::copy_into(rx, 0, res, 1, len);
    Ok(len)
}

} // verus!
