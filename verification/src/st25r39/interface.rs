//! The register bus of the ST25R39xx.
use vstd::prelude::*;

verus! {

/// One completed transfer on the register bus.
pub enum Op {
    /// The direct command `cmd` was sent.
    Command { cmd: u8 },
    /// Register `reg` was read and gave `val`.
    Read { reg: u8, val: u8 },
    /// `val` was written to register `reg`.
    Write { reg: u8, val: u8 },
    /// The FIFO was read and gave `data`.
    ReadFifo { data: Seq<u8> },
    /// `data` was written to the FIFO.
    WriteFifo { data: Seq<u8> },
}

/// Access to the chip's direct commands, registers and FIFO.
///
/// Registers are named by logical address: `0x00..0x40` is space A,
/// `0x40..0x80` space B and `0x80..0xC0` the test space. A transfer can fail
/// with the bus's own error. An implementation also records, as ghost state,
/// every transfer it has completed; a failed one leaves no trace.
pub trait Interface {
    type Error;

    /// The transfers completed so far, oldest first. An implementation that
    /// is verified states its record here; one that is not has none.
    open spec fn ops(&self) -> Seq<Op> {
        Seq::empty()
    }

    fn do_command(&mut self, cmd: u8) -> (res: Result<(), Self::Error>)
        ensures
            res is Ok ==> final(self).ops() == old(self).ops().push(Op::Command { cmd }),
            res is Err ==> final(self).ops() == old(self).ops(),
    ;

    fn read_reg(&mut self, reg: u8) -> (res: Result<u8, Self::Error>)
        requires
            reg < 0xC0,
        ensures
            res matches Ok(val) ==> final(self).ops() == old(self).ops().push(
                Op::Read { reg, val },
            ),
            res is Err ==> final(self).ops() == old(self).ops(),
    ;

    fn write_reg(&mut self, reg: u8, val: u8) -> (res: Result<(), Self::Error>)
        requires
            reg < 0xC0,
        ensures
            res is Ok ==> final(self).ops() == old(self).ops().push(Op::Write { reg, val }),
            res is Err ==> final(self).ops() == old(self).ops(),
    ;

    fn read_fifo(&mut self, data: &mut [u8]) -> (res: Result<(), Self::Error>)
        ensures
            final(data)@.len() == old(data)@.len(),
            res is Ok ==> final(self).ops() == old(self).ops().push(
                Op::ReadFifo { data: final(data)@ },
            ),
            res is Err ==> final(self).ops() == old(self).ops(),
    ;

    fn write_fifo(&mut self, data: &[u8]) -> (res: Result<(), Self::Error>)
        requires
            data@.len() <= 512,
        ensures
            res is Ok ==> final(self).ops() == old(self).ops().push(
                Op::WriteFifo { data: data@ },
            ),
            res is Err ==> final(self).ops() == old(self).ops(),
    ;
}

/// The opcode that reads the FIFO.
pub const FIFO_READ: u8 = 0x9F;

/// The opcode that loads the FIFO.
pub const FIFO_LOAD: u8 = 0x80;

/// The opcode that precedes an access to register space B.
pub const SPACE_B: u8 = 0xFB;

/// The opcode that precedes an access to the test register space.
pub const SPACE_TEST: u8 = 0xFC;

/// The bytes that go before the data of a register read: a register of
/// space A is named by its address with the read bit, one of another space
/// by the opcode of the space and its offset in the space with the read
/// bit.
pub open spec fn read_prefix(reg: u8) -> Seq<u8> {
    if reg < 0x40 {
        seq![0x40u8 | reg]
    } else if reg < 0x80 {
        seq![SPACE_B, 0x40u8 | ((reg - 0x40) as u8)]
    } else {
        seq![SPACE_TEST, 0x40u8 | ((reg - 0x80) as u8)]
    }
}

/// The bytes that go before the data of a register write.
pub open spec fn write_prefix(reg: u8) -> Seq<u8> {
    if reg < 0x40 {
        seq![reg]
    } else if reg < 0x80 {
        seq![SPACE_B, (reg - 0x40) as u8]
    } else {
        seq![SPACE_TEST, (reg - 0x80) as u8]
    }
}

/// Builds the prefix of a register read: the bytes, and how many of them
/// count.
pub fn read_header(reg: u8) -> (header: ([u8; 2], usize))
    requires
        reg < 0xC0,
    ensures
        1 <= header.1 <= 2,
        header.0@.subrange(0, header.1 as int) == read_prefix(reg),
{
    let header = if reg < 0x40 {
        ([0x40 | reg, 0], 1usize)
    } else if reg < 0x80 {
        ([SPACE_B, 0x40 | (reg - 0x40)], 2usize)
    } else {
        ([SPACE_TEST, 0x40 | (reg - 0x80)], 2usize)
    };
    assert(header.0@.subrange(0, header.1 as int) =~= read_prefix(reg));
    header
}

/// Builds the prefix of a register write: the bytes, and how many of them
/// count.
pub fn write_header(reg: u8) -> (header: ([u8; 2], usize))
    requires
        reg < 0xC0,
    ensures
        1 <= header.1 <= 2,
        header.0@.subrange(0, header.1 as int) == write_prefix(reg),
{
    let header = if reg < 0x40 {
        ([reg, 0], 1usize)
    } else if reg < 0x80 {
        ([SPACE_B, reg - 0x40], 2usize)
    } else {
        ([SPACE_TEST, reg - 0x80], 2usize)
    };
    assert(header.0@.subrange(0, header.1 as int) =~= write_prefix(reg));
    header
}

/// No two registers share a prefix, for reading or for writing, and a read
/// is never taken for a write.
pub proof fn lemma_prefixes_differ(a: u8, b: u8)
    requires
        a < 0xC0,
        b < 0xC0,
        a != b,
    ensures
        read_prefix(a) != read_prefix(b),
        write_prefix(a) != write_prefix(b),
        read_prefix(a) != write_prefix(b),
        read_prefix(a) != write_prefix(a),
{
    let x = if a < 0x40 {
        a
    } else if a < 0x80 {
        (a - 0x40) as u8
    } else {
        (a - 0x80) as u8
    };
    let y = if b < 0x40 {
        b
    } else if b < 0x80 {
        (b - 0x40) as u8
    } else {
        (b - 0x80) as u8
    };
    assert(x < 0x40 && y < 0x40 ==> (0x40u8 | x) >= 0x40 && (0x40u8 | x) < 0x80 && (x != y ==> (
    0x40u8 | x) != (0x40u8 | y))) by (bit_vector);
    let ra = read_prefix(a);
    let rb = read_prefix(b);
    let wa = write_prefix(a);
    let wb = write_prefix(b);
    assert(ra.len() == rb.len() ==> ra[0] != rb[0] || ra[1] != rb[1]);
    assert(wa.len() == wb.len() ==> wa[0] != wb[0] || wa[1] != wb[1]);
    assert(ra.len() == wb.len() ==> ra[0] != wb[0] || ra[1] != wb[1]);
    assert(ra.len() == wa.len() ==> ra[0] != wa[0] || ra[1] != wa[1]);
}

} // verus!
