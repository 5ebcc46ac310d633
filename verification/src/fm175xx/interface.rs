//! The register bus of the FM175xx.
use vstd::prelude::*;

verus! {

/// One completed transfer on the register bus.
pub enum Op {
    /// Register `reg` was read and gave `val`.
    Read { reg: usize, val: u8 },
    /// `val` was written to register `reg`.
    Write { reg: usize, val: u8 },
    /// The FIFO was read and gave `data`.
    ReadFifo { data: Seq<u8> },
    /// `data` was written to the FIFO.
    WriteFifo { data: Seq<u8> },
}

/// Access to the chip's registers and FIFO by logical register address.
///
/// An implementation also records, as ghost state, every transfer it has
/// completed. The driver's contracts are stated over that record.
pub trait Interface {
    /// The transfers completed so far, oldest first. An implementation that
    /// is verified states its record here; one that is not has none.
    open spec fn ops(&self) -> Seq<Op> {
        Seq::empty()
    }

    fn read_reg(&mut self, reg: usize) -> (val: u8)
        ensures
            final(self).ops() == old(self).ops().push(Op::Read { reg, val }),
    ;

    fn write_reg(&mut self, reg: usize, val: u8)
        ensures
            final(self).ops() == old(self).ops().push(Op::Write { reg, val }),
    ;

    fn read_fifo(&mut self, data: &mut [u8])
        ensures
            final(data)@.len() == old(data)@.len(),
            final(self).ops() == old(self).ops().push(Op::ReadFifo { data: final(data)@ }),
    ;

    fn write_fifo(&mut self, data: &[u8])
        ensures
            final(self).ops() == old(self).ops().push(Op::WriteFifo { data: data@ }),
    ;
}

/// The first logical address that stands for an extended register.
pub const EXTENDED_BASE: usize = 0x40;

/// The register through which the extended registers are reached.
pub const EXTENDED_PORT: u8 = 0x0F;

/// Whether a logical address stands for an extended register. The chip has
/// 64 registers that are addressed directly; the extended ones are reached
/// through one of them, in two transfers.
pub open spec fn is_extended(reg: usize) -> bool {
    reg >= EXTENDED_BASE
}

/// The byte that is written to the port to say which extended register is
/// read next: the register's number with the mark for "address, to read".
pub open spec fn read_select(reg: usize) -> u8 {
    ((reg - EXTENDED_BASE) as u8) | 0x80
}

/// The byte that is written to the port to say which extended register is
/// written next: the register's number with the mark for "address, to
/// write".
pub open spec fn write_select(reg: usize) -> u8 {
    ((reg - EXTENDED_BASE) as u8) | 0x40
}

/// The byte that is written to the port to write `val` to the extended
/// register selected: the six bits of the value with the mark for "data".
pub open spec fn write_data(val: u8) -> u8 {
    (val & 0x3F) | 0xC0
}

/// The value of an extended register in the byte read from the port.
pub open spec fn read_data(raw: u8) -> u8 {
    raw & 0x3F
}

/// How a register is reached on the bus.
#[derive(Clone, Copy, Debug, PartialEq, Eq, Structural)]
pub enum Route {
    /// By its own address.
    Direct(u8),
    /// Through the port, after this byte was written there to select it.
    Extended(u8),
}

/// How the register at a logical address is read.
pub fn read_route(reg: usize) -> (route: Route)
    requires
        reg < 0x80,
    ensures
        route == if is_extended(reg) {
            Route::Extended(read_select(reg))
        } else {
            Route::Direct(reg as u8)
        },
{
    if reg < EXTENDED_BASE {
        Route::Direct(reg as u8)
    } else {
        Route::Extended(((reg - EXTENDED_BASE) as u8) | 0x80)
    }
}

/// How the register at a logical address is written.
pub fn write_route(reg: usize) -> (route: Route)
    requires
        reg < 0x80,
    ensures
        route == if is_extended(reg) {
            Route::Extended(write_select(reg))
        } else {
            Route::Direct(reg as u8)
        },
{
    if reg < EXTENDED_BASE {
        Route::Direct(reg as u8)
    } else {
        Route::Extended(((reg - EXTENDED_BASE) as u8) | 0x40)
    }
}

/// The byte that writes `val` to the extended register selected.
pub fn extended_write(val: u8) -> (byte: u8)
    ensures
        byte == write_data(val),
{
    (val & 0x3F) | 0xC0
}

/// The value of an extended register in the byte read from the port.
pub fn extended_read(raw: u8) -> (val: u8)
    ensures
        val == read_data(raw),
        val < 0x40,
{
    let val = raw & 0x3F;
    assert(raw & 0x3F < 0x40) by (bit_vector);
    val
}

/// The first byte of an SPI transfer that reads the register `reg`.
pub open spec fn spi_read_header(reg: u8) -> u8 {
    0x80u8 | (reg << 1)
}

/// The first byte of an SPI transfer that writes the register `reg`.
pub open spec fn spi_write_header(reg: u8) -> u8 {
    reg << 1
}

/// The first byte of an SPI transfer that reads the FIFO, which is also
/// the byte that asks for each further byte of it.
pub const SPI_FIFO_READ: u8 = 0x92;

/// The byte that ends an SPI transfer that reads the FIFO.
pub const SPI_FIFO_READ_END: u8 = 0x80;

/// The first byte of an SPI transfer that writes the FIFO.
pub const SPI_FIFO_WRITE: u8 = 0x12;

/// The address of the FIFO on the I2C bus.
pub const I2C_FIFO: u8 = 0x09;

/// Builds the first byte of an SPI transfer that reads a register.
pub fn spi_read(reg: u8) -> (header: u8)
    requires
        reg < 0x40,
    ensures
        header == spi_read_header(reg),
{
    0x80u8 | (reg << 1)
}

/// Builds the first byte of an SPI transfer that writes a register.
pub fn spi_write(reg: u8) -> (header: u8)
    requires
        reg < 0x40,
    ensures
        header == spi_write_header(reg),
{
    reg << 1
}

/// The marks on the port keep the four kinds of access apart, and a value
/// of six bits comes back as it was written.
pub proof fn lemma_extended_access(reg_a: usize, reg_b: usize, val: u8)
    requires
        EXTENDED_BASE <= reg_a < 0x80,
        EXTENDED_BASE <= reg_b < 0x80,
    ensures
        read_select(reg_a) != write_select(reg_b),
        read_select(reg_a) != write_data(val),
        write_select(reg_a) != write_data(val),
        reg_a != reg_b ==> read_select(reg_a) != read_select(reg_b) && write_select(reg_a)
            != write_select(reg_b),
        read_data(write_data(val)) == val & 0x3F,
{
    let a = (reg_a - EXTENDED_BASE) as u8;
    let b = (reg_b - EXTENDED_BASE) as u8;
    assert(a < 0x40 && b < 0x40 ==> (a | 0x80) != (b | 0x40) && (a | 0x80) != ((val & 0x3F)
        | 0xC0) && (a | 0x40) != ((val & 0x3F) | 0xC0) && (a != b ==> (a | 0x80) != (b | 0x80)
        && (a | 0x40) != (b | 0x40)) && (((val & 0x3F) | 0xC0) & 0x3F) == val & 0x3F)
        by (bit_vector);
}

} // verus!
