//! The register map of the FM175xx.
//!
//! Every register is a byte. [`Regs`] hands out a [`Reg`] for each address,
//! typed by the layout of the byte and by whether the register can be read,
//! written or both. A layout is a tuple struct around the byte with a getter
//! and a setter for each named field; the contracts of both are stated with
//! the spec functions of [`crate::bits`].
use core::marker::PhantomData;
use vstd::prelude::*;
use crate::bits;
use super::interface::{Interface, Op};

verus! {

/// Marks a register that can be read and written.
#[derive(Copy, Clone, PartialEq, Eq)]
pub struct RW;

/// Marks a register that can only be read.
#[derive(Copy, Clone, PartialEq, Eq)]
pub struct R;

/// Marks a register that can only be written.
#[derive(Copy, Clone, PartialEq, Eq)]
pub struct W;

/// How a register can be accessed.
pub trait Access: Copy {
}

impl Access for R {
}

impl Access for W {
}

impl Access for RW {
}

/// A register that can be read.
pub trait Read: Access {
}

impl Read for RW {
}

impl Read for R {
}

/// A register that can be written.
pub trait Write: Access {
}

impl Write for RW {
}

impl Write for W {
}

/// A value that fills one register: the byte itself or a layout over it.
pub trait Value: Copy {
    /// The byte that stands for this value on the bus.
    spec fn bits(self) -> u8;

    /// The value that a byte read from the bus stands for.
    spec fn of_bits(bits: u8) -> Self;

    proof fn lemma_bits_of_bits(bits: u8)
        ensures
            Self::of_bits(bits).bits() == bits,
    ;

    fn to_bits(self) -> (bits: u8)
        ensures
            bits == self.bits(),
    ;

    fn from_bits(bits: u8) -> (val: Self)
        ensures
            val == Self::of_bits(bits),
    ;
}

impl Value for u8 {
    open spec fn bits(self) -> u8 {
        self
    }

    open spec fn of_bits(bits: u8) -> u8 {
        bits
    }

    proof fn lemma_bits_of_bits(bits: u8) {
    }

    fn to_bits(self) -> u8 {
        self
    }

    fn from_bits(bits: u8) -> u8 {
        bits
    }
}

/// One register of the chip: a bus handle and an address.
pub struct Reg<'a, I: Interface, T: Copy, A: Access> {
    pub addr: usize,
    pub iface: &'a mut I,
    pub phantom: PhantomData<(A, &'a mut T)>,
}

impl<'a, I: Interface, T: Value, A: Access> Reg<'a, I, T, A> {
    /// The register at `addr` on the bus `iface`.
    pub fn new(iface: &'a mut I, addr: usize) -> (r: Self)
        ensures
            r.addr == addr,
            *r.iface == *old(iface),
            *final(r.iface) == *final(iface),
    {
        Self { iface, addr, phantom: PhantomData }
    }

    /// Reads the register.
    pub fn read(&mut self) -> (val: T) where A: Read
        ensures
            final(self).addr == old(self).addr,
            *final(final(self).iface) == *final(old(self).iface),
            final(self).iface.ops() == old(self).iface.ops().push(
                Op::Read { reg: old(self).addr, val: val.bits() },
            ),
    {
        let bits = self.iface.read_reg(self.addr);
        proof {
            T::lemma_bits_of_bits(bits);
        }
        T::from_bits(bits)
    }

    /// Writes `val` to the register.
    pub fn write_value(&mut self, val: T) where A: Write
        ensures
            final(self).addr == old(self).addr,
            *final(final(self).iface) == *final(old(self).iface),
            final(self).iface.ops() == old(self).iface.ops().push(
                Op::Write { reg: old(self).addr, val: val.bits() },
            ),
    {
        self.iface.write_reg(self.addr, val.to_bits())
    }

    /// Reads the register, lets `f` change the value, and writes it back.
    pub fn modify<Out, F: FnOnce(&mut T) -> Out>(&mut self, f: F) -> (res: Out) where
        A: Read + Write,

        requires
            forall|w: &mut T| #[trigger] f.requires((w,)),
        ensures
            final(self).addr == old(self).addr,
            *final(final(self).iface) == *final(old(self).iface),
            exists|w: &mut T| #[trigger]
                f.ensures((w,), res) && final(self).iface.ops() == old(self).iface.ops().push(
                    Op::Read { reg: old(self).addr, val: (*w).bits() },
                ).push(Op::Write { reg: old(self).addr, val: (*final(w)).bits() }),
    {
        let mut val = self.read();
        let ghost before = val;
        let res = f(&mut val);
        let ghost w = choose|w: &mut T| #[trigger]
            f.ensures((w,), res) && *w == before && *final(w) == val;
        self.write_value(val);
        assert(f.ensures((w,), res) && self.iface.ops() == old(self).iface.ops().push(
            Op::Read { reg: old(self).addr, val: (*w).bits() },
        ).push(Op::Write { reg: old(self).addr, val: (*final(w)).bits() }));
        res
    }

    /// Starts from the all-zero value, lets `f` change it, and writes it.
    pub fn write<Out, F: FnOnce(&mut T) -> Out>(&mut self, f: F) -> (res: Out) where A: Write
        requires
            forall|w: &mut T| *w == T::of_bits(0) ==> #[trigger] f.requires((w,)),
        ensures
            final(self).addr == old(self).addr,
            *final(final(self).iface) == *final(old(self).iface),
            exists|w: &mut T| #[trigger]
                f.ensures((w,), res) && *w == T::of_bits(0) && final(self).iface.ops() == old(
                    self,
                ).iface.ops().push(Op::Write { reg: old(self).addr, val: (*final(w)).bits() }),
    {
        let mut val = T::from_bits(0);
        let res = f(&mut val);
        let ghost w = choose|w: &mut T| #[trigger]
            f.ensures((w,), res) && *w == T::of_bits(0) && *final(w) == val;
        self.write_value(val);
        assert(f.ensures((w,), res) && *w == T::of_bits(0) && self.iface.ops() == old(
            self,
        ).iface.ops().push(Op::Write { reg: old(self).addr, val: (*final(w)).bits() }));
        res
    }
}

/// The register map, as a view over a bus handle.
pub struct Regs<'a, I> {
    pub iface: &'a mut I,
    pub addr: usize,
}

/// The address of the register `page0`.
pub const PAGE0: usize = 0x00;

/// The address of the register `command`.
pub const COMMAND: usize = 0x01;

/// The address of the register `commien`.
pub const COMMIEN: usize = 0x02;

/// The address of the register `divien`.
pub const DIVIEN: usize = 0x03;

/// The address of the register `commirq`.
pub const COMMIRQ: usize = 0x04;

/// The address of the register `divirq`.
pub const DIVIRQ: usize = 0x05;

/// The address of the register `error`.
pub const ERROR: usize = 0x06;

/// The address of the register `status1`.
pub const STATUS1: usize = 0x07;

/// The address of the register `status2`.
pub const STATUS2: usize = 0x08;

/// The address of the register `fifodata`.
pub const FIFODATA: usize = 0x09;

/// The address of the register `fifolevel`.
pub const FIFOLEVEL: usize = 0x0a;

/// The address of the register `waterlevel`.
pub const WATERLEVEL: usize = 0x0b;

/// The address of the register `control`.
pub const CONTROL: usize = 0x0c;

/// The address of the register `bitframing`.
pub const BITFRAMING: usize = 0x0d;

/// The address of the register `coll`.
pub const COLL: usize = 0x0e;

/// The address of the register `rfu0f`.
pub const RFU0F: usize = 0x0f;

/// The address of the register `page1`.
pub const PAGE1: usize = 0x10;

/// The address of the register `mode`.
pub const MODE: usize = 0x11;

/// The address of the register `txmode`.
pub const TXMODE: usize = 0x12;

/// The address of the register `rxmode`.
pub const RXMODE: usize = 0x13;

/// The address of the register `txcontrol`.
pub const TXCONTROL: usize = 0x14;

/// The address of the register `txauto`.
pub const TXAUTO: usize = 0x15;

/// The address of the register `txsel`.
pub const TXSEL: usize = 0x16;

/// The address of the register `rxsel`.
pub const RXSEL: usize = 0x17;

/// The address of the register `rxtreshold`.
pub const RXTRESHOLD: usize = 0x18;

/// The address of the register `demod`.
pub const DEMOD: usize = 0x19;

/// The address of the register `felicanfc`.
pub const FELICANFC: usize = 0x1a;

/// The address of the register `felicanfc2`.
pub const FELICANFC2: usize = 0x1b;

/// The address of the register `mifare`.
pub const MIFARE: usize = 0x1c;

/// The address of the register `manualrcv`.
pub const MANUALRCV: usize = 0x1d;

/// The address of the register `rfu1e`.
pub const RFU1E: usize = 0x1e;

/// The address of the register `serialspeed`.
pub const SERIALSPEED: usize = 0x1f;

/// The address of the register `page2`.
pub const PAGE2: usize = 0x20;

/// The address of the register `crcresult1`.
pub const CRCRESULT1: usize = 0x21;

/// The address of the register `crcresult2`.
pub const CRCRESULT2: usize = 0x22;

/// The address of the register `gsnloadmod`.
pub const GSNLOADMOD: usize = 0x23;

/// The address of the register `modwidth`.
pub const MODWIDTH: usize = 0x24;

/// The address of the register `txbitphase`.
pub const TXBITPHASE: usize = 0x25;

/// The address of the register `rfcfg`.
pub const RFCFG: usize = 0x26;

/// The address of the register `gsn`.
pub const GSN: usize = 0x27;

/// The address of the register `cwgsp`.
pub const CWGSP: usize = 0x28;

/// The address of the register `modgsp`.
pub const MODGSP: usize = 0x29;

/// The address of the register `tmode`.
pub const TMODE: usize = 0x2a;

/// The address of the register `tprescaler`.
pub const TPRESCALER: usize = 0x2b;

/// The address of the register `treloadhi`.
pub const TRELOADHI: usize = 0x2c;

/// The address of the register `treloadlo`.
pub const TRELOADLO: usize = 0x2d;

/// The address of the register `tcountervalhi`.
pub const TCOUNTERVALHI: usize = 0x2e;

/// The address of the register `tcountervallo`.
pub const TCOUNTERVALLO: usize = 0x2f;

/// The address of the register `page3`.
pub const PAGE3: usize = 0x30;

/// The address of the register `testsel1`.
pub const TESTSEL1: usize = 0x31;

/// The address of the register `testsel2`.
pub const TESTSEL2: usize = 0x32;

/// The address of the register `testpinen`.
pub const TESTPINEN: usize = 0x33;

/// The address of the register `testpinvalue`.
pub const TESTPINVALUE: usize = 0x34;

/// The address of the register `testbus`.
pub const TESTBUS: usize = 0x35;

/// The address of the register `autotest`.
pub const AUTOTEST: usize = 0x36;

/// The address of the register `version`.
pub const VERSION: usize = 0x37;

/// The address of the register `analogtest`.
pub const ANALOGTEST: usize = 0x38;

/// The address of the register `testdac1`.
pub const TESTDAC1: usize = 0x39;

/// The address of the register `testdac2`.
pub const TESTDAC2: usize = 0x3a;

/// The address of the register `testadc`.
pub const TESTADC: usize = 0x3b;

/// The address of the register `analoguetest1`.
pub const ANALOGUETEST1: usize = 0x3c;

/// The address of the register `analoguetest0`.
pub const ANALOGUETEST0: usize = 0x3d;

/// The address of the register `analoguetpd_a`.
pub const ANALOGUETPD_A: usize = 0x3e;

/// The address of the register `analoguetpd_b`.
pub const ANALOGUETPD_B: usize = 0x3f;

/// The address of the register `lpcd_ctrl1`.
pub const LPCD_CTRL1: usize = 0x41;

/// The address of the register `lpcd_ctrl2`.
pub const LPCD_CTRL2: usize = 0x42;

/// The address of the register `lpcd_ctrl3`.
pub const LPCD_CTRL3: usize = 0x43;

/// The address of the register `lpcd_ctrl4`.
pub const LPCD_CTRL4: usize = 0x44;

/// The address of the register `lpcd_bias_current`.
pub const LPCD_BIAS_CURRENT: usize = 0x45;

/// The address of the register `lpcd_adc_referece`.
pub const LPCD_ADC_REFERECE: usize = 0x46;

/// The address of the register `lpcd_t1cfg`.
pub const LPCD_T1CFG: usize = 0x47;

/// The address of the register `lpcd_t2cfg`.
pub const LPCD_T2CFG: usize = 0x48;

/// The address of the register `lpcd_t3cfg`.
pub const LPCD_T3CFG: usize = 0x49;

/// The address of the register `lpcd_vmid_bd_cfg`.
pub const LPCD_VMID_BD_CFG: usize = 0x4a;

/// The address of the register `lpcd_auto_wup_cfg`.
pub const LPCD_AUTO_WUP_CFG: usize = 0x4b;

/// The address of the register `lpcd_adc_result_l`.
pub const LPCD_ADC_RESULT_L: usize = 0x4c;

/// The address of the register `lpcd_adc_result_h`.
pub const LPCD_ADC_RESULT_H: usize = 0x4d;

/// The address of the register `lpcd_threshold_min_l`.
pub const LPCD_THRESHOLD_MIN_L: usize = 0x4e;

/// The address of the register `lpcd_threshold_min_h`.
pub const LPCD_THRESHOLD_MIN_H: usize = 0x4f;

/// The address of the register `lpcd_threshold_max_l`.
pub const LPCD_THRESHOLD_MAX_L: usize = 0x50;

/// The address of the register `lpcd_threshold_max_h`.
pub const LPCD_THRESHOLD_MAX_H: usize = 0x51;

/// The address of the register `lpcd_irq`.
pub const LPCD_IRQ: usize = 0x52;

/// The address of the register `lpcd_rft1`.
pub const LPCD_RFT1: usize = 0x53;

/// The address of the register `lpcd_rft2`.
pub const LPCD_RFT2: usize = 0x54;

/// The address of the register `lpcd_rft3`.
pub const LPCD_RFT3: usize = 0x55;

/// The address of the register `lpcd_rft4`.
pub const LPCD_RFT4: usize = 0x56;

/// The address of the register `lp_clk_cnt1`.
pub const LP_CLK_CNT1: usize = 0x57;

/// The address of the register `lp_clk_cnt2`.
pub const LP_CLK_CNT2: usize = 0x58;

/// The address of the register `versionreg2`.
pub const VERSIONREG2: usize = 0x59;

/// The address of the register `irq_bak`.
pub const IRQ_BAK: usize = 0x5a;

/// The address of the register `lpcd_rft5`.
pub const LPCD_RFT5: usize = 0x5b;

/// The address of the register `lpcd_misc`.
pub const LPCD_MISC: usize = 0x5c;

/// The address of the register `lvd_ctrl`.
pub const LVD_CTRL: usize = 0x5d;

impl<'a, I: Interface> Regs<'a, I> {
    /// Page register in page 0
    pub fn page0(&mut self) -> (r: Reg<'_, I, u8, RW>)
        requires
            old(self).addr + PAGE0 <= usize::MAX,
        ensures
            r.addr == old(self).addr + PAGE0,
            *r.iface == *old(self).iface,
            *final(self).iface == *final(r.iface),
            *final(final(self).iface) == *final(old(self).iface),
            final(self).addr == old(self).addr,
    {
        Reg::new(self.iface, self.addr + PAGE0)
    }

    /// Contains Command bits, PowerDown bit and bit to switch receiver off.
    pub fn command(&mut self) -> (r: Reg<'_, I, Command, RW>)
        requires
            old(self).addr + COMMAND <= usize::MAX,
        ensures
            r.addr == old(self).addr + COMMAND,
            *r.iface == *old(self).iface,
            *final(self).iface == *final(r.iface),
            *final(final(self).iface) == *final(old(self).iface),
            final(self).addr == old(self).addr,
    {
        Reg::new(self.iface, self.addr + COMMAND)
    }

    /// Contains Communication interrupt enable bits andbit for Interrupt inversion.
    pub fn commien(&mut self) -> (r: Reg<'_, I, Commien, RW>)
        requires
            old(self).addr + COMMIEN <= usize::MAX,
        ensures
            r.addr == old(self).addr + COMMIEN,
            *r.iface == *old(self).iface,
            *final(self).iface == *final(r.iface),
            *final(final(self).iface) == *final(old(self).iface),
            final(self).addr == old(self).addr,
    {
        Reg::new(self.iface, self.addr + COMMIEN)
    }

    /// Contains RfOn, RfOff, CRC and Mode Interrupt enable and bit to switch Interrupt pin to
    /// PushPull mode.
    pub fn divien(&mut self) -> (r: Reg<'_, I, Divien, RW>)
        requires
            old(self).addr + DIVIEN <= usize::MAX,
        ensures
            r.addr == old(self).addr + DIVIEN,
            *r.iface == *old(self).iface,
            *final(self).iface == *final(r.iface),
            *final(final(self).iface) == *final(old(self).iface),
            final(self).addr == old(self).addr,
    {
        Reg::new(self.iface, self.addr + DIVIEN)
    }

    /// Contains Communication interrupt request bits.
    pub fn commirq(&mut self) -> (r: Reg<'_, I, Commirq, RW>)
        requires
            old(self).addr + COMMIRQ <= usize::MAX,
        ensures
            r.addr == old(self).addr + COMMIRQ,
            *r.iface == *old(self).iface,
            *final(self).iface == *final(r.iface),
            *final(final(self).iface) == *final(old(self).iface),
            final(self).addr == old(self).addr,
    {
        Reg::new(self.iface, self.addr + COMMIRQ)
    }

    /// Contains RfOn, RfOff, CRC and Mode Interrupt request.
    pub fn divirq(&mut self) -> (r: Reg<'_, I, Divirq, RW>)
        requires
            old(self).addr + DIVIRQ <= usize::MAX,
        ensures
            r.addr == old(self).addr + DIVIRQ,
            *r.iface == *old(self).iface,
            *final(self).iface == *final(r.iface),
            *final(final(self).iface) == *final(old(self).iface),
            final(self).addr == old(self).addr,
    {
        Reg::new(self.iface, self.addr + DIVIRQ)
    }

    /// Contains Protocol, Parity, CRC, Collision, Buffer overflow, Temperature and RF error
    /// flags.
    pub fn error(&mut self) -> (r: Reg<'_, I, Error, RW>)
        requires
            old(self).addr + ERROR <= usize::MAX,
        ensures
            r.addr == old(self).addr + ERROR,
            *r.iface == *old(self).iface,
            *final(self).iface == *final(r.iface),
            *final(final(self).iface) == *final(old(self).iface),
            final(self).addr == old(self).addr,
    {
        Reg::new(self.iface, self.addr + ERROR)
    }

    /// Contains status information about Lo- and HiAlert, RF-field on, Timer, Interrupt request
    /// and CRC status.
    pub fn status1(&mut self) -> (r: Reg<'_, I, Status1, RW>)
        requires
            old(self).addr + STATUS1 <= usize::MAX,
        ensures
            r.addr == old(self).addr + STATUS1,
            *r.iface == *old(self).iface,
            *final(self).iface == *final(r.iface),
            *final(final(self).iface) == *final(old(self).iface),
            final(self).addr == old(self).addr,
    {
        Reg::new(self.iface, self.addr + STATUS1)
    }

    /// Contains information about internal states (Modemstate),Mifare states and possibility to
    /// switch Temperature sensor off.
    pub fn status2(&mut self) -> (r: Reg<'_, I, Status2, RW>)
        requires
            old(self).addr + STATUS2 <= usize::MAX,
        ensures
            r.addr == old(self).addr + STATUS2,
            *r.iface == *old(self).iface,
            *final(self).iface == *final(r.iface),
            *final(final(self).iface) == *final(old(self).iface),
            final(self).addr == old(self).addr,
    {
        Reg::new(self.iface, self.addr + STATUS2)
    }

    /// Gives access to FIFO. Writing to register increments theFIFO level (register 0x0A),
    /// reading decrements it.
    pub fn fifodata(&mut self) -> (r: Reg<'_, I, u8, RW>)
        requires
            old(self).addr + FIFODATA <= usize::MAX,
        ensures
            r.addr == old(self).addr + FIFODATA,
            *r.iface == *old(self).iface,
            *final(self).iface == *final(r.iface),
            *final(final(self).iface) == *final(old(self).iface),
            final(self).addr == old(self).addr,
    {
        Reg::new(self.iface, self.addr + FIFODATA)
    }

    /// Contains the actual level of the FIFO.
    pub fn fifolevel(&mut self) -> (r: Reg<'_, I, Fifolevel, RW>)
        requires
            old(self).addr + FIFOLEVEL <= usize::MAX,
        ensures
            r.addr == old(self).addr + FIFOLEVEL,
            *r.iface == *old(self).iface,
            *final(self).iface == *final(r.iface),
            *final(final(self).iface) == *final(old(self).iface),
            final(self).addr == old(self).addr,
    {
        Reg::new(self.iface, self.addr + FIFOLEVEL)
    }

    /// Contains the Waterlevel value for the FIFO
    pub fn waterlevel(&mut self) -> (r: Reg<'_, I, Waterlevel, RW>)
        requires
            old(self).addr + WATERLEVEL <= usize::MAX,
        ensures
            r.addr == old(self).addr + WATERLEVEL,
            *r.iface == *old(self).iface,
            *final(self).iface == *final(r.iface),
            *final(final(self).iface) == *final(old(self).iface),
            final(self).addr == old(self).addr,
    {
        Reg::new(self.iface, self.addr + WATERLEVEL)
    }

    /// Contains information about last received bits, Initiator mode bit, bit to copy NFCID to
    /// FIFO and to Start and stopthe Timer unit.
    pub fn control(&mut self) -> (r: Reg<'_, I, Control, RW>)
        requires
            old(self).addr + CONTROL <= usize::MAX,
        ensures
            r.addr == old(self).addr + CONTROL,
            *r.iface == *old(self).iface,
            *final(self).iface == *final(r.iface),
            *final(final(self).iface) == *final(old(self).iface),
            final(self).addr == old(self).addr,
    {
        Reg::new(self.iface, self.addr + CONTROL)
    }

    /// Contains information of last bits to send, to align received bits in FIFO and activate
    /// sending in Transceive
    pub fn bitframing(&mut self) -> (r: Reg<'_, I, Bitframing, RW>)
        requires
            old(self).addr + BITFRAMING <= usize::MAX,
        ensures
            r.addr == old(self).addr + BITFRAMING,
            *r.iface == *old(self).iface,
            *final(self).iface == *final(r.iface),
            *final(final(self).iface) == *final(old(self).iface),
            final(self).addr == old(self).addr,
    {
        Reg::new(self.iface, self.addr + BITFRAMING)
    }

    /// Contains all necessary bits for Collission handling
    pub fn coll(&mut self) -> (r: Reg<'_, I, Coll, RW>)
        requires
            old(self).addr + COLL <= usize::MAX,
        ensures
            r.addr == old(self).addr + COLL,
            *r.iface == *old(self).iface,
            *final(self).iface == *final(r.iface),
            *final(final(self).iface) == *final(old(self).iface),
            final(self).addr == old(self).addr,
    {
        Reg::new(self.iface, self.addr + COLL)
    }

    /// Currently not used.
    pub fn rfu0f(&mut self) -> (r: Reg<'_, I, u8, RW>)
        requires
            old(self).addr + RFU0F <= usize::MAX,
        ensures
            r.addr == old(self).addr + RFU0F,
            *r.iface == *old(self).iface,
            *final(self).iface == *final(r.iface),
            *final(final(self).iface) == *final(old(self).iface),
            final(self).addr == old(self).addr,
    {
        Reg::new(self.iface, self.addr + RFU0F)
    }

    /// Page register in page 1
    pub fn page1(&mut self) -> (r: Reg<'_, I, u8, RW>)
        requires
            old(self).addr + PAGE1 <= usize::MAX,
        ensures
            r.addr == old(self).addr + PAGE1,
            *r.iface == *old(self).iface,
            *final(self).iface == *final(r.iface),
            *final(final(self).iface) == *final(old(self).iface),
            final(self).addr == old(self).addr,
    {
        Reg::new(self.iface, self.addr + PAGE1)
    }

    /// Contains bits for auto wait on Rf, to detect SYNC byte in NFC mode and MSB first for CRC
    /// calculation
    pub fn mode(&mut self) -> (r: Reg<'_, I, Mode, RW>)
        requires
            old(self).addr + MODE <= usize::MAX,
        ensures
            r.addr == old(self).addr + MODE,
            *r.iface == *old(self).iface,
            *final(self).iface == *final(r.iface),
            *final(final(self).iface) == *final(old(self).iface),
            final(self).addr == old(self).addr,
    {
        Reg::new(self.iface, self.addr + MODE)
    }

    /// Contains Transmit Framing, Speed, CRC enable, bit for inverse mode and TXMix bit.
    pub fn txmode(&mut self) -> (r: Reg<'_, I, Txmode, RW>)
        requires
            old(self).addr + TXMODE <= usize::MAX,
        ensures
            r.addr == old(self).addr + TXMODE,
            *r.iface == *old(self).iface,
            *final(self).iface == *final(r.iface),
            *final(final(self).iface) == *final(old(self).iface),
            final(self).addr == old(self).addr,
    {
        Reg::new(self.iface, self.addr + TXMODE)
    }

    /// Contains Transmit Framing, Speed, CRC enable, bit for multiple receive and to filter
    /// errors.
    pub fn rxmode(&mut self) -> (r: Reg<'_, I, Rxmode, RW>)
        requires
            old(self).addr + RXMODE <= usize::MAX,
        ensures
            r.addr == old(self).addr + RXMODE,
            *r.iface == *old(self).iface,
            *final(self).iface == *final(r.iface),
            *final(final(self).iface) == *final(old(self).iface),
            final(self).addr == old(self).addr,
    {
        Reg::new(self.iface, self.addr + RXMODE)
    }

    /// Contains bits to activate and configure Tx1 and Tx2 and bit to activate 100% modulation.
    pub fn txcontrol(&mut self) -> (r: Reg<'_, I, Txcontrol, RW>)
        requires
            old(self).addr + TXCONTROL <= usize::MAX,
        ensures
            r.addr == old(self).addr + TXCONTROL,
            *r.iface == *old(self).iface,
            *final(self).iface == *final(r.iface),
            *final(final(self).iface) == *final(old(self).iface),
            final(self).addr == old(self).addr,
    {
        Reg::new(self.iface, self.addr + TXCONTROL)
    }

    /// Contains bits to automatically switch on/off the Rf and to do the collission avoidance
    /// and the initial rf-on.
    pub fn txauto(&mut self) -> (r: Reg<'_, I, Txauto, RW>)
        requires
            old(self).addr + TXAUTO <= usize::MAX,
        ensures
            r.addr == old(self).addr + TXAUTO,
            *r.iface == *old(self).iface,
            *final(self).iface == *final(r.iface),
            *final(final(self).iface) == *final(old(self).iface),
            final(self).addr == old(self).addr,
    {
        Reg::new(self.iface, self.addr + TXAUTO)
    }

    /// Contains SigoutSel, DriverSel and LoadModSel bits.
    pub fn txsel(&mut self) -> (r: Reg<'_, I, Txsel, RW>)
        requires
            old(self).addr + TXSEL <= usize::MAX,
        ensures
            r.addr == old(self).addr + TXSEL,
            *r.iface == *old(self).iface,
            *final(self).iface == *final(r.iface),
            *final(final(self).iface) == *final(old(self).iface),
            final(self).addr == old(self).addr,
    {
        Reg::new(self.iface, self.addr + TXSEL)
    }

    /// Contains UartSel and RxWait bits.
    pub fn rxsel(&mut self) -> (r: Reg<'_, I, Rxsel, RW>)
        requires
            old(self).addr + RXSEL <= usize::MAX,
        ensures
            r.addr == old(self).addr + RXSEL,
            *r.iface == *old(self).iface,
            *final(self).iface == *final(r.iface),
            *final(final(self).iface) == *final(old(self).iface),
            final(self).addr == old(self).addr,
    {
        Reg::new(self.iface, self.addr + RXSEL)
    }

    /// Contains MinLevel and CollLevel for detection.
    pub fn rxtreshold(&mut self) -> (r: Reg<'_, I, Rxtreshold, RW>)
        requires
            old(self).addr + RXTRESHOLD <= usize::MAX,
        ensures
            r.addr == old(self).addr + RXTRESHOLD,
            *r.iface == *old(self).iface,
            *final(self).iface == *final(r.iface),
            *final(final(self).iface) == *final(old(self).iface),
            final(self).addr == old(self).addr,
    {
        Reg::new(self.iface, self.addr + RXTRESHOLD)
    }

    /// Contains bits for time constants, hysteresis and IQ demodulator settings.
    pub fn demod(&mut self) -> (r: Reg<'_, I, Demod, RW>)
        requires
            old(self).addr + DEMOD <= usize::MAX,
        ensures
            r.addr == old(self).addr + DEMOD,
            *r.iface == *old(self).iface,
            *final(self).iface == *final(r.iface),
            *final(final(self).iface) == *final(old(self).iface),
            final(self).addr == old(self).addr,
    {
        Reg::new(self.iface, self.addr + DEMOD)
    }

    /// Contains bits for minimum FeliCa length received and for FeliCa syncronisation length.
    pub fn felicanfc(&mut self) -> (r: Reg<'_, I, Felicanfc, RW>)
        requires
            old(self).addr + FELICANFC <= usize::MAX,
        ensures
            r.addr == old(self).addr + FELICANFC,
            *r.iface == *old(self).iface,
            *final(self).iface == *final(r.iface),
            *final(final(self).iface) == *final(old(self).iface),
            final(self).addr == old(self).addr,
    {
        Reg::new(self.iface, self.addr + FELICANFC)
    }

    /// Contains bits for maximum FeliCa length received.
    pub fn felicanfc2(&mut self) -> (r: Reg<'_, I, Felicanfc2, RW>)
        requires
            old(self).addr + FELICANFC2 <= usize::MAX,
        ensures
            r.addr == old(self).addr + FELICANFC2,
            *r.iface == *old(self).iface,
            *final(self).iface == *final(r.iface),
            *final(final(self).iface) == *final(old(self).iface),
            final(self).addr == old(self).addr,
    {
        Reg::new(self.iface, self.addr + FELICANFC2)
    }

    /// Contains Miller settings, TxWait settings and MIFARE halted mode bit.
    pub fn mifare(&mut self) -> (r: Reg<'_, I, Mifare, RW>)
        requires
            old(self).addr + MIFARE <= usize::MAX,
        ensures
            r.addr == old(self).addr + MIFARE,
            *r.iface == *old(self).iface,
            *final(self).iface == *final(r.iface),
            *final(final(self).iface) == *final(old(self).iface),
            final(self).addr == old(self).addr,
    {
        Reg::new(self.iface, self.addr + MIFARE)
    }

    /// Currently not used.
    pub fn manualrcv(&mut self) -> (r: Reg<'_, I, Manualrcv, RW>)
        requires
            old(self).addr + MANUALRCV <= usize::MAX,
        ensures
            r.addr == old(self).addr + MANUALRCV,
            *r.iface == *old(self).iface,
            *final(self).iface == *final(r.iface),
            *final(final(self).iface) == *final(old(self).iface),
            final(self).addr == old(self).addr,
    {
        Reg::new(self.iface, self.addr + MANUALRCV)
    }

    /// Currently not used.
    pub fn rfu1e(&mut self) -> (r: Reg<'_, I, u8, RW>)
        requires
            old(self).addr + RFU1E <= usize::MAX,
        ensures
            r.addr == old(self).addr + RFU1E,
            *r.iface == *old(self).iface,
            *final(self).iface == *final(r.iface),
            *final(final(self).iface) == *final(old(self).iface),
            final(self).addr == old(self).addr,
    {
        Reg::new(self.iface, self.addr + RFU1E)
    }

    /// Contains speed settings for serila interface.
    pub fn serialspeed(&mut self) -> (r: Reg<'_, I, u8, RW>)
        requires
            old(self).addr + SERIALSPEED <= usize::MAX,
        ensures
            r.addr == old(self).addr + SERIALSPEED,
            *r.iface == *old(self).iface,
            *final(self).iface == *final(r.iface),
            *final(final(self).iface) == *final(old(self).iface),
            final(self).addr == old(self).addr,
    {
        Reg::new(self.iface, self.addr + SERIALSPEED)
    }

    /// Page register in page 2
    pub fn page2(&mut self) -> (r: Reg<'_, I, u8, RW>)
        requires
            old(self).addr + PAGE2 <= usize::MAX,
        ensures
            r.addr == old(self).addr + PAGE2,
            *r.iface == *old(self).iface,
            *final(self).iface == *final(r.iface),
            *final(final(self).iface) == *final(old(self).iface),
            final(self).addr == old(self).addr,
    {
        Reg::new(self.iface, self.addr + PAGE2)
    }

    /// Contains MSByte of CRC Result.
    pub fn crcresult1(&mut self) -> (r: Reg<'_, I, u8, RW>)
        requires
            old(self).addr + CRCRESULT1 <= usize::MAX,
        ensures
            r.addr == old(self).addr + CRCRESULT1,
            *r.iface == *old(self).iface,
            *final(self).iface == *final(r.iface),
            *final(final(self).iface) == *final(old(self).iface),
            final(self).addr == old(self).addr,
    {
        Reg::new(self.iface, self.addr + CRCRESULT1)
    }

    /// Contains LSByte of CRC Result.
    pub fn crcresult2(&mut self) -> (r: Reg<'_, I, u8, RW>)
        requires
            old(self).addr + CRCRESULT2 <= usize::MAX,
        ensures
            r.addr == old(self).addr + CRCRESULT2,
            *r.iface == *old(self).iface,
            *final(self).iface == *final(r.iface),
            *final(final(self).iface) == *final(old(self).iface),
            final(self).addr == old(self).addr,
    {
        Reg::new(self.iface, self.addr + CRCRESULT2)
    }

    /// Contains the conductance and the modulation settings for the N-MOS transistor only for
    /// load modulation (See difference to JREG_GSN!).
    pub fn gsnloadmod(&mut self) -> (r: Reg<'_, I, u8, RW>)
        requires
            old(self).addr + GSNLOADMOD <= usize::MAX,
        ensures
            r.addr == old(self).addr + GSNLOADMOD,
            *r.iface == *old(self).iface,
            *final(self).iface == *final(r.iface),
            *final(final(self).iface) == *final(old(self).iface),
            final(self).addr == old(self).addr,
    {
        Reg::new(self.iface, self.addr + GSNLOADMOD)
    }

    /// Contains modulation width setting.
    pub fn modwidth(&mut self) -> (r: Reg<'_, I, u8, RW>)
        requires
            old(self).addr + MODWIDTH <= usize::MAX,
        ensures
            r.addr == old(self).addr + MODWIDTH,
            *r.iface == *old(self).iface,
            *final(self).iface == *final(r.iface),
            *final(final(self).iface) == *final(old(self).iface),
            final(self).addr == old(self).addr,
    {
        Reg::new(self.iface, self.addr + MODWIDTH)
    }

    /// Contains TxBitphase settings and receive clock change.
    pub fn txbitphase(&mut self) -> (r: Reg<'_, I, Txbitphase, RW>)
        requires
            old(self).addr + TXBITPHASE <= usize::MAX,
        ensures
            r.addr == old(self).addr + TXBITPHASE,
            *r.iface == *old(self).iface,
            *final(self).iface == *final(r.iface),
            *final(final(self).iface) == *final(old(self).iface),
            final(self).addr == old(self).addr,
    {
        Reg::new(self.iface, self.addr + TXBITPHASE)
    }

    /// Contains sensitivity of Rf Level detector, the receiver gain factor and the RfLevelAmp.
    pub fn rfcfg(&mut self) -> (r: Reg<'_, I, Rfcfg, RW>)
        requires
            old(self).addr + RFCFG <= usize::MAX,
        ensures
            r.addr == old(self).addr + RFCFG,
            *r.iface == *old(self).iface,
            *final(self).iface == *final(r.iface),
            *final(final(self).iface) == *final(old(self).iface),
            final(self).addr == old(self).addr,
    {
        Reg::new(self.iface, self.addr + RFCFG)
    }

    /// Contains the conductance and the modulation settings for the N-MOS transistor during
    /// active modulation (no load modulation setting!).
    pub fn gsn(&mut self) -> (r: Reg<'_, I, Gsn, RW>)
        requires
            old(self).addr + GSN <= usize::MAX,
        ensures
            r.addr == old(self).addr + GSN,
            *r.iface == *old(self).iface,
            *final(self).iface == *final(r.iface),
            *final(final(self).iface) == *final(old(self).iface),
            final(self).addr == old(self).addr,
    {
        Reg::new(self.iface, self.addr + GSN)
    }

    /// Contains the conductance for the P-Mos transistor.
    pub fn cwgsp(&mut self) -> (r: Reg<'_, I, Cwgsp, RW>)
        requires
            old(self).addr + CWGSP <= usize::MAX,
        ensures
            r.addr == old(self).addr + CWGSP,
            *r.iface == *old(self).iface,
            *final(self).iface == *final(r.iface),
            *final(final(self).iface) == *final(old(self).iface),
            final(self).addr == old(self).addr,
    {
        Reg::new(self.iface, self.addr + CWGSP)
    }

    /// Contains the modulation index for the PMos transistor.
    pub fn modgsp(&mut self) -> (r: Reg<'_, I, Modgsp, RW>)
        requires
            old(self).addr + MODGSP <= usize::MAX,
        ensures
            r.addr == old(self).addr + MODGSP,
            *r.iface == *old(self).iface,
            *final(self).iface == *final(r.iface),
            *final(final(self).iface) == *final(old(self).iface),
            final(self).addr == old(self).addr,
    {
        Reg::new(self.iface, self.addr + MODGSP)
    }

    /// Contains all settings for the timer and the highest 4 bits of the prescaler.
    pub fn tmode(&mut self) -> (r: Reg<'_, I, Tmode, RW>)
        requires
            old(self).addr + TMODE <= usize::MAX,
        ensures
            r.addr == old(self).addr + TMODE,
            *r.iface == *old(self).iface,
            *final(self).iface == *final(r.iface),
            *final(final(self).iface) == *final(old(self).iface),
            final(self).addr == old(self).addr,
    {
        Reg::new(self.iface, self.addr + TMODE)
    }

    /// Contais the lowest byte of the prescaler.
    pub fn tprescaler(&mut self) -> (r: Reg<'_, I, u8, RW>)
        requires
            old(self).addr + TPRESCALER <= usize::MAX,
        ensures
            r.addr == old(self).addr + TPRESCALER,
            *r.iface == *old(self).iface,
            *final(self).iface == *final(r.iface),
            *final(final(self).iface) == *final(old(self).iface),
            final(self).addr == old(self).addr,
    {
        Reg::new(self.iface, self.addr + TPRESCALER)
    }

    /// Contains the high byte of the reload value.
    pub fn treloadhi(&mut self) -> (r: Reg<'_, I, u8, RW>)
        requires
            old(self).addr + TRELOADHI <= usize::MAX,
        ensures
            r.addr == old(self).addr + TRELOADHI,
            *r.iface == *old(self).iface,
            *final(self).iface == *final(r.iface),
            *final(final(self).iface) == *final(old(self).iface),
            final(self).addr == old(self).addr,
    {
        Reg::new(self.iface, self.addr + TRELOADHI)
    }

    /// Contains the low byte of the reload value.
    pub fn treloadlo(&mut self) -> (r: Reg<'_, I, u8, RW>)
        requires
            old(self).addr + TRELOADLO <= usize::MAX,
        ensures
            r.addr == old(self).addr + TRELOADLO,
            *r.iface == *old(self).iface,
            *final(self).iface == *final(r.iface),
            *final(final(self).iface) == *final(old(self).iface),
            final(self).addr == old(self).addr,
    {
        Reg::new(self.iface, self.addr + TRELOADLO)
    }

    /// Contains the high byte of the counter value.
    pub fn tcountervalhi(&mut self) -> (r: Reg<'_, I, u8, RW>)
        requires
            old(self).addr + TCOUNTERVALHI <= usize::MAX,
        ensures
            r.addr == old(self).addr + TCOUNTERVALHI,
            *r.iface == *old(self).iface,
            *final(self).iface == *final(r.iface),
            *final(final(self).iface) == *final(old(self).iface),
            final(self).addr == old(self).addr,
    {
        Reg::new(self.iface, self.addr + TCOUNTERVALHI)
    }

    /// Contains the low byte of the counter value.
    pub fn tcountervallo(&mut self) -> (r: Reg<'_, I, u8, RW>)
        requires
            old(self).addr + TCOUNTERVALLO <= usize::MAX,
        ensures
            r.addr == old(self).addr + TCOUNTERVALLO,
            *r.iface == *old(self).iface,
            *final(self).iface == *final(r.iface),
            *final(final(self).iface) == *final(old(self).iface),
            final(self).addr == old(self).addr,
    {
        Reg::new(self.iface, self.addr + TCOUNTERVALLO)
    }

    /// Page register in page 3
    pub fn page3(&mut self) -> (r: Reg<'_, I, u8, RW>)
        requires
            old(self).addr + PAGE3 <= usize::MAX,
        ensures
            r.addr == old(self).addr + PAGE3,
            *r.iface == *old(self).iface,
            *final(self).iface == *final(r.iface),
            *final(final(self).iface) == *final(old(self).iface),
            final(self).addr == old(self).addr,
    {
        Reg::new(self.iface, self.addr + PAGE3)
    }

    /// Test register
    pub fn testsel1(&mut self) -> (r: Reg<'_, I, u8, RW>)
        requires
            old(self).addr + TESTSEL1 <= usize::MAX,
        ensures
            r.addr == old(self).addr + TESTSEL1,
            *r.iface == *old(self).iface,
            *final(self).iface == *final(r.iface),
            *final(final(self).iface) == *final(old(self).iface),
            final(self).addr == old(self).addr,
    {
        Reg::new(self.iface, self.addr + TESTSEL1)
    }

    /// Test register
    pub fn testsel2(&mut self) -> (r: Reg<'_, I, u8, RW>)
        requires
            old(self).addr + TESTSEL2 <= usize::MAX,
        ensures
            r.addr == old(self).addr + TESTSEL2,
            *r.iface == *old(self).iface,
            *final(self).iface == *final(r.iface),
            *final(final(self).iface) == *final(old(self).iface),
            final(self).addr == old(self).addr,
    {
        Reg::new(self.iface, self.addr + TESTSEL2)
    }

    /// Test register
    pub fn testpinen(&mut self) -> (r: Reg<'_, I, u8, RW>)
        requires
            old(self).addr + TESTPINEN <= usize::MAX,
        ensures
            r.addr == old(self).addr + TESTPINEN,
            *r.iface == *old(self).iface,
            *final(self).iface == *final(r.iface),
            *final(final(self).iface) == *final(old(self).iface),
            final(self).addr == old(self).addr,
    {
        Reg::new(self.iface, self.addr + TESTPINEN)
    }

    /// Test register
    pub fn testpinvalue(&mut self) -> (r: Reg<'_, I, u8, RW>)
        requires
            old(self).addr + TESTPINVALUE <= usize::MAX,
        ensures
            r.addr == old(self).addr + TESTPINVALUE,
            *r.iface == *old(self).iface,
            *final(self).iface == *final(r.iface),
            *final(final(self).iface) == *final(old(self).iface),
            final(self).addr == old(self).addr,
    {
        Reg::new(self.iface, self.addr + TESTPINVALUE)
    }

    /// Test register
    pub fn testbus(&mut self) -> (r: Reg<'_, I, u8, RW>)
        requires
            old(self).addr + TESTBUS <= usize::MAX,
        ensures
            r.addr == old(self).addr + TESTBUS,
            *r.iface == *old(self).iface,
            *final(self).iface == *final(r.iface),
            *final(final(self).iface) == *final(old(self).iface),
            final(self).addr == old(self).addr,
    {
        Reg::new(self.iface, self.addr + TESTBUS)
    }

    /// Test register
    pub fn autotest(&mut self) -> (r: Reg<'_, I, Autotest, RW>)
        requires
            old(self).addr + AUTOTEST <= usize::MAX,
        ensures
            r.addr == old(self).addr + AUTOTEST,
            *r.iface == *old(self).iface,
            *final(self).iface == *final(r.iface),
            *final(final(self).iface) == *final(old(self).iface),
            final(self).addr == old(self).addr,
    {
        Reg::new(self.iface, self.addr + AUTOTEST)
    }

    /// Contains the product number and the version .
    pub fn version(&mut self) -> (r: Reg<'_, I, u8, RW>)
        requires
            old(self).addr + VERSION <= usize::MAX,
        ensures
            r.addr == old(self).addr + VERSION,
            *r.iface == *old(self).iface,
            *final(self).iface == *final(r.iface),
            *final(final(self).iface) == *final(old(self).iface),
            final(self).addr == old(self).addr,
    {
        Reg::new(self.iface, self.addr + VERSION)
    }

    /// Test register
    pub fn analogtest(&mut self) -> (r: Reg<'_, I, u8, RW>)
        requires
            old(self).addr + ANALOGTEST <= usize::MAX,
        ensures
            r.addr == old(self).addr + ANALOGTEST,
            *r.iface == *old(self).iface,
            *final(self).iface == *final(r.iface),
            *final(final(self).iface) == *final(old(self).iface),
            final(self).addr == old(self).addr,
    {
        Reg::new(self.iface, self.addr + ANALOGTEST)
    }

    /// Test register
    pub fn testdac1(&mut self) -> (r: Reg<'_, I, u8, RW>)
        requires
            old(self).addr + TESTDAC1 <= usize::MAX,
        ensures
            r.addr == old(self).addr + TESTDAC1,
            *r.iface == *old(self).iface,
            *final(self).iface == *final(r.iface),
            *final(final(self).iface) == *final(old(self).iface),
            final(self).addr == old(self).addr,
    {
        Reg::new(self.iface, self.addr + TESTDAC1)
    }

    /// Test register
    pub fn testdac2(&mut self) -> (r: Reg<'_, I, u8, RW>)
        requires
            old(self).addr + TESTDAC2 <= usize::MAX,
        ensures
            r.addr == old(self).addr + TESTDAC2,
            *r.iface == *old(self).iface,
            *final(self).iface == *final(r.iface),
            *final(final(self).iface) == *final(old(self).iface),
            final(self).addr == old(self).addr,
    {
        Reg::new(self.iface, self.addr + TESTDAC2)
    }

    /// Test register
    pub fn testadc(&mut self) -> (r: Reg<'_, I, u8, RW>)
        requires
            old(self).addr + TESTADC <= usize::MAX,
        ensures
            r.addr == old(self).addr + TESTADC,
            *r.iface == *old(self).iface,
            *final(self).iface == *final(r.iface),
            *final(final(self).iface) == *final(old(self).iface),
            final(self).addr == old(self).addr,
    {
        Reg::new(self.iface, self.addr + TESTADC)
    }

    /// Test register
    pub fn analoguetest1(&mut self) -> (r: Reg<'_, I, u8, RW>)
        requires
            old(self).addr + ANALOGUETEST1 <= usize::MAX,
        ensures
            r.addr == old(self).addr + ANALOGUETEST1,
            *r.iface == *old(self).iface,
            *final(self).iface == *final(r.iface),
            *final(final(self).iface) == *final(old(self).iface),
            final(self).addr == old(self).addr,
    {
        Reg::new(self.iface, self.addr + ANALOGUETEST1)
    }

    /// Test register
    pub fn analoguetest0(&mut self) -> (r: Reg<'_, I, u8, RW>)
        requires
            old(self).addr + ANALOGUETEST0 <= usize::MAX,
        ensures
            r.addr == old(self).addr + ANALOGUETEST0,
            *r.iface == *old(self).iface,
            *final(self).iface == *final(r.iface),
            *final(final(self).iface) == *final(old(self).iface),
            final(self).addr == old(self).addr,
    {
        Reg::new(self.iface, self.addr + ANALOGUETEST0)
    }

    /// Test register
    pub fn analoguetpd_a(&mut self) -> (r: Reg<'_, I, u8, RW>)
        requires
            old(self).addr + ANALOGUETPD_A <= usize::MAX,
        ensures
            r.addr == old(self).addr + ANALOGUETPD_A,
            *r.iface == *old(self).iface,
            *final(self).iface == *final(r.iface),
            *final(final(self).iface) == *final(old(self).iface),
            final(self).addr == old(self).addr,
    {
        Reg::new(self.iface, self.addr + ANALOGUETPD_A)
    }

    /// Test register
    pub fn analoguetpd_b(&mut self) -> (r: Reg<'_, I, u8, RW>)
        requires
            old(self).addr + ANALOGUETPD_B <= usize::MAX,
        ensures
            r.addr == old(self).addr + ANALOGUETPD_B,
            *r.iface == *old(self).iface,
            *final(self).iface == *final(r.iface),
            *final(final(self).iface) == *final(old(self).iface),
            final(self).addr == old(self).addr,
    {
        Reg::new(self.iface, self.addr + ANALOGUETPD_B)
    }

    /// Lpcd Ctrl register1
    pub fn lpcd_ctrl1(&mut self) -> (r: Reg<'_, I, LpcdCtrl1, RW>)
        requires
            old(self).addr + LPCD_CTRL1 <= usize::MAX,
        ensures
            r.addr == old(self).addr + LPCD_CTRL1,
            *r.iface == *old(self).iface,
            *final(self).iface == *final(r.iface),
            *final(final(self).iface) == *final(old(self).iface),
            final(self).addr == old(self).addr,
    {
        Reg::new(self.iface, self.addr + LPCD_CTRL1)
    }

    /// Lpcd Ctrl register2
    pub fn lpcd_ctrl2(&mut self) -> (r: Reg<'_, I, LpcdCtrl2, RW>)
        requires
            old(self).addr + LPCD_CTRL2 <= usize::MAX,
        ensures
            r.addr == old(self).addr + LPCD_CTRL2,
            *r.iface == *old(self).iface,
            *final(self).iface == *final(r.iface),
            *final(final(self).iface) == *final(old(self).iface),
            final(self).addr == old(self).addr,
    {
        Reg::new(self.iface, self.addr + LPCD_CTRL2)
    }

    /// Lpcd Ctrl register3
    pub fn lpcd_ctrl3(&mut self) -> (r: Reg<'_, I, LpcdCtrl3, RW>)
        requires
            old(self).addr + LPCD_CTRL3 <= usize::MAX,
        ensures
            r.addr == old(self).addr + LPCD_CTRL3,
            *r.iface == *old(self).iface,
            *final(self).iface == *final(r.iface),
            *final(final(self).iface) == *final(old(self).iface),
            final(self).addr == old(self).addr,
    {
        Reg::new(self.iface, self.addr + LPCD_CTRL3)
    }

    /// Lpcd Ctrl register4
    pub fn lpcd_ctrl4(&mut self) -> (r: Reg<'_, I, LpcdCtrl4, RW>)
        requires
            old(self).addr + LPCD_CTRL4 <= usize::MAX,
        ensures
            r.addr == old(self).addr + LPCD_CTRL4,
            *r.iface == *old(self).iface,
            *final(self).iface == *final(r.iface),
            *final(final(self).iface) == *final(old(self).iface),
            final(self).addr == old(self).addr,
    {
        Reg::new(self.iface, self.addr + LPCD_CTRL4)
    }

    /// Lpcd bias current register
    pub fn lpcd_bias_current(&mut self) -> (r: Reg<'_, I, LpcdBiasCurrent, RW>)
        requires
            old(self).addr + LPCD_BIAS_CURRENT <= usize::MAX,
        ensures
            r.addr == old(self).addr + LPCD_BIAS_CURRENT,
            *r.iface == *old(self).iface,
            *final(self).iface == *final(r.iface),
            *final(final(self).iface) == *final(old(self).iface),
            final(self).addr == old(self).addr,
    {
        Reg::new(self.iface, self.addr + LPCD_BIAS_CURRENT)
    }

    /// Lpcd adc reference register
    pub fn lpcd_adc_referece(&mut self) -> (r: Reg<'_, I, u8, RW>)
        requires
            old(self).addr + LPCD_ADC_REFERECE <= usize::MAX,
        ensures
            r.addr == old(self).addr + LPCD_ADC_REFERECE,
            *r.iface == *old(self).iface,
            *final(self).iface == *final(r.iface),
            *final(final(self).iface) == *final(old(self).iface),
            final(self).addr == old(self).addr,
    {
        Reg::new(self.iface, self.addr + LPCD_ADC_REFERECE)
    }

    /// T1Cfg\\[3:0\\] register
    pub fn lpcd_t1cfg(&mut self) -> (r: Reg<'_, I, LpcdT1cfg, RW>)
        requires
            old(self).addr + LPCD_T1CFG <= usize::MAX,
        ensures
            r.addr == old(self).addr + LPCD_T1CFG,
            *r.iface == *old(self).iface,
            *final(self).iface == *final(r.iface),
            *final(final(self).iface) == *final(old(self).iface),
            final(self).addr == old(self).addr,
    {
        Reg::new(self.iface, self.addr + LPCD_T1CFG)
    }

    /// T2Cfg\\[4:0\\] register
    pub fn lpcd_t2cfg(&mut self) -> (r: Reg<'_, I, LpcdT2cfg, RW>)
        requires
            old(self).addr + LPCD_T2CFG <= usize::MAX,
        ensures
            r.addr == old(self).addr + LPCD_T2CFG,
            *r.iface == *old(self).iface,
            *final(self).iface == *final(r.iface),
            *final(final(self).iface) == *final(old(self).iface),
            final(self).addr == old(self).addr,
    {
        Reg::new(self.iface, self.addr + LPCD_T2CFG)
    }

    /// T2Cfg\\[4:0\\] register
    pub fn lpcd_t3cfg(&mut self) -> (r: Reg<'_, I, LpcdT3cfg, RW>)
        requires
            old(self).addr + LPCD_T3CFG <= usize::MAX,
        ensures
            r.addr == old(self).addr + LPCD_T3CFG,
            *r.iface == *old(self).iface,
            *final(self).iface == *final(r.iface),
            *final(final(self).iface) == *final(old(self).iface),
            final(self).addr == old(self).addr,
    {
        Reg::new(self.iface, self.addr + LPCD_T3CFG)
    }

    /// VmidBdCfg\\[4:0\\] register
    pub fn lpcd_vmid_bd_cfg(&mut self) -> (r: Reg<'_, I, LpcdVmidBdCfg, RW>)
        requires
            old(self).addr + LPCD_VMID_BD_CFG <= usize::MAX,
        ensures
            r.addr == old(self).addr + LPCD_VMID_BD_CFG,
            *r.iface == *old(self).iface,
            *final(self).iface == *final(r.iface),
            *final(final(self).iface) == *final(old(self).iface),
            final(self).addr == old(self).addr,
    {
        Reg::new(self.iface, self.addr + LPCD_VMID_BD_CFG)
    }

    /// Auto_Wup_Cfg register
    pub fn lpcd_auto_wup_cfg(&mut self) -> (r: Reg<'_, I, LpcdAutoWupCfg, RW>)
        requires
            old(self).addr + LPCD_AUTO_WUP_CFG <= usize::MAX,
        ensures
            r.addr == old(self).addr + LPCD_AUTO_WUP_CFG,
            *r.iface == *old(self).iface,
            *final(self).iface == *final(r.iface),
            *final(final(self).iface) == *final(old(self).iface),
            final(self).addr == old(self).addr,
    {
        Reg::new(self.iface, self.addr + LPCD_AUTO_WUP_CFG)
    }

    /// ADCResult\\[5:0\\] Register
    pub fn lpcd_adc_result_l(&mut self) -> (r: Reg<'_, I, u8, RW>)
        requires
            old(self).addr + LPCD_ADC_RESULT_L <= usize::MAX,
        ensures
            r.addr == old(self).addr + LPCD_ADC_RESULT_L,
            *r.iface == *old(self).iface,
            *final(self).iface == *final(r.iface),
            *final(final(self).iface) == *final(old(self).iface),
            final(self).addr == old(self).addr,
    {
        Reg::new(self.iface, self.addr + LPCD_ADC_RESULT_L)
    }

    /// ADCResult\\[7:6\\] Register
    pub fn lpcd_adc_result_h(&mut self) -> (r: Reg<'_, I, u8, RW>)
        requires
            old(self).addr + LPCD_ADC_RESULT_H <= usize::MAX,
        ensures
            r.addr == old(self).addr + LPCD_ADC_RESULT_H,
            *r.iface == *old(self).iface,
            *final(self).iface == *final(r.iface),
            *final(final(self).iface) == *final(old(self).iface),
            final(self).addr == old(self).addr,
    {
        Reg::new(self.iface, self.addr + LPCD_ADC_RESULT_H)
    }

    /// LpcdThreshold_L\\[5:0\\] Register
    pub fn lpcd_threshold_min_l(&mut self) -> (r: Reg<'_, I, u8, RW>)
        requires
            old(self).addr + LPCD_THRESHOLD_MIN_L <= usize::MAX,
        ensures
            r.addr == old(self).addr + LPCD_THRESHOLD_MIN_L,
            *r.iface == *old(self).iface,
            *final(self).iface == *final(r.iface),
            *final(final(self).iface) == *final(old(self).iface),
            final(self).addr == old(self).addr,
    {
        Reg::new(self.iface, self.addr + LPCD_THRESHOLD_MIN_L)
    }

    /// LpcdThreshold_L\\[7:6\\] Register
    pub fn lpcd_threshold_min_h(&mut self) -> (r: Reg<'_, I, u8, RW>)
        requires
            old(self).addr + LPCD_THRESHOLD_MIN_H <= usize::MAX,
        ensures
            r.addr == old(self).addr + LPCD_THRESHOLD_MIN_H,
            *r.iface == *old(self).iface,
            *final(self).iface == *final(r.iface),
            *final(final(self).iface) == *final(old(self).iface),
            final(self).addr == old(self).addr,
    {
        Reg::new(self.iface, self.addr + LPCD_THRESHOLD_MIN_H)
    }

    /// LpcdThreshold_H\\[5:0\\] Register
    pub fn lpcd_threshold_max_l(&mut self) -> (r: Reg<'_, I, u8, RW>)
        requires
            old(self).addr + LPCD_THRESHOLD_MAX_L <= usize::MAX,
        ensures
            r.addr == old(self).addr + LPCD_THRESHOLD_MAX_L,
            *r.iface == *old(self).iface,
            *final(self).iface == *final(r.iface),
            *final(final(self).iface) == *final(old(self).iface),
            final(self).addr == old(self).addr,
    {
        Reg::new(self.iface, self.addr + LPCD_THRESHOLD_MAX_L)
    }

    /// LpcdThreshold_H\\[7:6\\] Register
    pub fn lpcd_threshold_max_h(&mut self) -> (r: Reg<'_, I, u8, RW>)
        requires
            old(self).addr + LPCD_THRESHOLD_MAX_H <= usize::MAX,
        ensures
            r.addr == old(self).addr + LPCD_THRESHOLD_MAX_H,
            *r.iface == *old(self).iface,
            *final(self).iface == *final(r.iface),
            *final(final(self).iface) == *final(old(self).iface),
            final(self).addr == old(self).addr,
    {
        Reg::new(self.iface, self.addr + LPCD_THRESHOLD_MAX_H)
    }

    /// LpcdStatus Register
    pub fn lpcd_irq(&mut self) -> (r: Reg<'_, I, LpcdIrq, RW>)
        requires
            old(self).addr + LPCD_IRQ <= usize::MAX,
        ensures
            r.addr == old(self).addr + LPCD_IRQ,
            *r.iface == *old(self).iface,
            *final(self).iface == *final(r.iface),
            *final(final(self).iface) == *final(old(self).iface),
            final(self).addr == old(self).addr,
    {
        Reg::new(self.iface, self.addr + LPCD_IRQ)
    }

    /// Aux1 select Register
    pub fn lpcd_rft1(&mut self) -> (r: Reg<'_, I, LpcdRft1, RW>)
        requires
            old(self).addr + LPCD_RFT1 <= usize::MAX,
        ensures
            r.addr == old(self).addr + LPCD_RFT1,
            *r.iface == *old(self).iface,
            *final(self).iface == *final(r.iface),
            *final(final(self).iface) == *final(old(self).iface),
            final(self).addr == old(self).addr,
    {
        Reg::new(self.iface, self.addr + LPCD_RFT1)
    }

    /// Aux2 select Register
    pub fn lpcd_rft2(&mut self) -> (r: Reg<'_, I, LpcdRft2, RW>)
        requires
            old(self).addr + LPCD_RFT2 <= usize::MAX,
        ensures
            r.addr == old(self).addr + LPCD_RFT2,
            *r.iface == *old(self).iface,
            *final(self).iface == *final(r.iface),
            *final(final(self).iface) == *final(old(self).iface),
            final(self).addr == old(self).addr,
    {
        Reg::new(self.iface, self.addr + LPCD_RFT2)
    }

    /// LPCD test1 Register
    pub fn lpcd_rft3(&mut self) -> (r: Reg<'_, I, LpcdRft3, RW>)
        requires
            old(self).addr + LPCD_RFT3 <= usize::MAX,
        ensures
            r.addr == old(self).addr + LPCD_RFT3,
            *r.iface == *old(self).iface,
            *final(self).iface == *final(r.iface),
            *final(final(self).iface) == *final(old(self).iface),
            final(self).addr == old(self).addr,
    {
        Reg::new(self.iface, self.addr + LPCD_RFT3)
    }

    /// LPCD test2 Register
    pub fn lpcd_rft4(&mut self) -> (r: Reg<'_, I, LpcdRft4, RW>)
        requires
            old(self).addr + LPCD_RFT4 <= usize::MAX,
        ensures
            r.addr == old(self).addr + LPCD_RFT4,
            *r.iface == *old(self).iface,
            *final(self).iface == *final(r.iface),
            *final(final(self).iface) == *final(old(self).iface),
            final(self).addr == old(self).addr,
    {
        Reg::new(self.iface, self.addr + LPCD_RFT4)
    }

    /// lp_clk_cnt\\[5:0\\] Register
    pub fn lp_clk_cnt1(&mut self) -> (r: Reg<'_, I, u8, RW>)
        requires
            old(self).addr + LP_CLK_CNT1 <= usize::MAX,
        ensures
            r.addr == old(self).addr + LP_CLK_CNT1,
            *r.iface == *old(self).iface,
            *final(self).iface == *final(r.iface),
            *final(final(self).iface) == *final(old(self).iface),
            final(self).addr == old(self).addr,
    {
        Reg::new(self.iface, self.addr + LP_CLK_CNT1)
    }

    /// lp_clk_cnt\\[7:6\\] Register
    pub fn lp_clk_cnt2(&mut self) -> (r: Reg<'_, I, u8, RW>)
        requires
            old(self).addr + LP_CLK_CNT2 <= usize::MAX,
        ensures
            r.addr == old(self).addr + LP_CLK_CNT2,
            *r.iface == *old(self).iface,
            *final(self).iface == *final(r.iface),
            *final(final(self).iface) == *final(old(self).iface),
            final(self).addr == old(self).addr,
    {
        Reg::new(self.iface, self.addr + LP_CLK_CNT2)
    }

    /// VersionReg2\\[1:0\\] Register
    pub fn versionreg2(&mut self) -> (r: Reg<'_, I, u8, RW>)
        requires
            old(self).addr + VERSIONREG2 <= usize::MAX,
        ensures
            r.addr == old(self).addr + VERSIONREG2,
            *r.iface == *old(self).iface,
            *final(self).iface == *final(r.iface),
            *final(final(self).iface) == *final(old(self).iface),
            final(self).addr == old(self).addr,
    {
        Reg::new(self.iface, self.addr + VERSIONREG2)
    }

    /// Irq bak Register
    pub fn irq_bak(&mut self) -> (r: Reg<'_, I, IrqBak, RW>)
        requires
            old(self).addr + IRQ_BAK <= usize::MAX,
        ensures
            r.addr == old(self).addr + IRQ_BAK,
            *r.iface == *old(self).iface,
            *final(self).iface == *final(r.iface),
            *final(final(self).iface) == *final(old(self).iface),
            final(self).addr == old(self).addr,
    {
        Reg::new(self.iface, self.addr + IRQ_BAK)
    }

    /// LPCD TEST3 Register
    pub fn lpcd_rft5(&mut self) -> (r: Reg<'_, I, LpcdRft5, RW>)
        requires
            old(self).addr + LPCD_RFT5 <= usize::MAX,
        ensures
            r.addr == old(self).addr + LPCD_RFT5,
            *r.iface == *old(self).iface,
            *final(self).iface == *final(r.iface),
            *final(final(self).iface) == *final(old(self).iface),
            final(self).addr == old(self).addr,
    {
        Reg::new(self.iface, self.addr + LPCD_RFT5)
    }

    /// LPCD Misc Register
    pub fn lpcd_misc(&mut self) -> (r: Reg<'_, I, LpcdMisc, RW>)
        requires
            old(self).addr + LPCD_MISC <= usize::MAX,
        ensures
            r.addr == old(self).addr + LPCD_MISC,
            *r.iface == *old(self).iface,
            *final(self).iface == *final(r.iface),
            *final(final(self).iface) == *final(old(self).iface),
            final(self).addr == old(self).addr,
    {
        Reg::new(self.iface, self.addr + LPCD_MISC)
    }

    /// Low Votage Detect register
    pub fn lvd_ctrl(&mut self) -> (r: Reg<'_, I, u8, RW>)
        requires
            old(self).addr + LVD_CTRL <= usize::MAX,
        ensures
            r.addr == old(self).addr + LVD_CTRL,
            *r.iface == *old(self).iface,
            *final(self).iface == *final(r.iface),
            *final(final(self).iface) == *final(old(self).iface),
            final(self).addr == old(self).addr,
    {
        Reg::new(self.iface, self.addr + LVD_CTRL)
    }
}

/// The layout of the register `demod`.
#[derive(Copy, Clone, Eq, PartialEq, Structural)]
pub struct Demod(pub u8);

impl Demod {
    #[verifier::allow_in_spec]
    pub fn tausync(&self) -> (val: u8)
        returns
            bits::field(self.0, 0, 0x03),
    {
        (self.0 >> 0usize) & 0x03
    }

    /// This value with `tausync` replaced by the low bits of `val`.
    pub open spec fn with_tausync(self, val: u8) -> Self {
        Demod(bits::with_field(self.0, 0, 0x03, val))
    }

    pub fn set_tausync(&mut self, val: u8)
        ensures
            *final(self) == old(self).with_tausync(val),
    {
        self.0 = (self.0 & !(0x03 << 0usize)) | ((val & 0x03) << 0usize);
    }

    #[verifier::allow_in_spec]
    pub fn taurcv(&self) -> (val: u8)
        returns
            bits::field(self.0, 2, 0x03),
    {
        (self.0 >> 2usize) & 0x03
    }

    /// This value with `taurcv` replaced by the low bits of `val`.
    pub open spec fn with_taurcv(self, val: u8) -> Self {
        Demod(bits::with_field(self.0, 2, 0x03, val))
    }

    pub fn set_taurcv(&mut self, val: u8)
        ensures
            *final(self) == old(self).with_taurcv(val),
    {
        self.0 = (self.0 & !(0x03 << 2usize)) | ((val & 0x03) << 2usize);
    }

    /// If set to 1 and the lower bit of AddIQ is set to 0, the receiving is fixed to I channel.
    /// If set to 1 and the lower bit of AddIQ is set to 1, the receiving is fixed to Q channel.
    #[verifier::allow_in_spec]
    pub fn fixiq(&self) -> (val: bool)
        returns
            bits::flag(self.0, 5),
    {
        (self.0 >> 5usize) & 0x01 != 0
    }

    /// This value with `fixiq` replaced by `val`.
    pub open spec fn with_fixiq(self, val: bool) -> Self {
        Demod(bits::with_flag(self.0, 5, val))
    }

    /// If set to 1 and the lower bit of AddIQ is set to 0, the receiving is fixed to I channel.
    /// If set to 1 and the lower bit of AddIQ is set to 1, the receiving is fixed to Q channel.
    pub fn set_fixiq(&mut self, val: bool)
        ensures
            *final(self) == old(self).with_fixiq(val),
    {
        self.0 = (self.0 & !(0x01 << 5usize)) | (((val as u8) & 0x01) << 5usize);
    }

    #[verifier::allow_in_spec]
    pub fn addiq(&self) -> (val: u8)
        returns
            bits::field(self.0, 6, 0x03),
    {
        (self.0 >> 6usize) & 0x03
    }

    /// This value with `addiq` replaced by the low bits of `val`.
    pub open spec fn with_addiq(self, val: u8) -> Self {
        Demod(bits::with_field(self.0, 6, 0x03, val))
    }

    pub fn set_addiq(&mut self, val: u8)
        ensures
            *final(self) == old(self).with_addiq(val),
    {
        self.0 = (self.0 & !(0x03 << 6usize)) | ((val & 0x03) << 6usize);
    }
}

impl Default for Demod {
    fn default() -> (val: Demod)
        ensures
            val == Demod(0),
    {
        Demod(0)
    }
}

impl Value for Demod {
    open spec fn bits(self) -> u8 {
        self.0
    }

    open spec fn of_bits(bits: u8) -> Demod {
        Demod(bits)
    }

    proof fn lemma_bits_of_bits(bits: u8) {
    }

    fn to_bits(self) -> u8 {
        self.0
    }

    fn from_bits(bits: u8) -> Demod {
        Demod(bits)
    }
}

/// The layout of the register `lpcd_bias_current`.
#[derive(Copy, Clone, Eq, PartialEq, Structural)]
pub struct LpcdBiasCurrent(pub u8);

impl LpcdBiasCurrent {
    /// Bias current
    #[verifier::allow_in_spec]
    pub fn bias_current(&self) -> (val: u8)
        returns
            bits::field(self.0, 0, 0x07),
    {
        (self.0 >> 0usize) & 0x07
    }

    /// This value with `bias_current` replaced by the low bits of `val`.
    pub open spec fn with_bias_current(self, val: u8) -> Self {
        LpcdBiasCurrent(bits::with_field(self.0, 0, 0x07, val))
    }

    /// Bias current
    pub fn set_bias_current(&mut self, val: u8)
        ensures
            *final(self) == old(self).with_bias_current(val),
    {
        self.0 = (self.0 & !(0x07 << 0usize)) | ((val & 0x07) << 0usize);
    }

    /// ADC reference level bit 6
    #[verifier::allow_in_spec]
    pub fn adc_referece_h(&self) -> (val: bool)
        returns
            bits::flag(self.0, 5),
    {
        (self.0 >> 5usize) & 0x01 != 0
    }

    /// This value with `adc_referece_h` replaced by `val`.
    pub open spec fn with_adc_referece_h(self, val: bool) -> Self {
        LpcdBiasCurrent(bits::with_flag(self.0, 5, val))
    }

    /// ADC reference level bit 6
    pub fn set_adc_referece_h(&mut self, val: bool)
        ensures
            *final(self) == old(self).with_adc_referece_h(val),
    {
        self.0 = (self.0 & !(0x01 << 5usize)) | (((val as u8) & 0x01) << 5usize);
    }
}

impl Default for LpcdBiasCurrent {
    fn default() -> (val: LpcdBiasCurrent)
        ensures
            val == LpcdBiasCurrent(0),
    {
        LpcdBiasCurrent(0)
    }
}

impl Value for LpcdBiasCurrent {
    open spec fn bits(self) -> u8 {
        self.0
    }

    open spec fn of_bits(bits: u8) -> LpcdBiasCurrent {
        LpcdBiasCurrent(bits)
    }

    proof fn lemma_bits_of_bits(bits: u8) {
    }

    fn to_bits(self) -> u8 {
        self.0
    }

    fn from_bits(bits: u8) -> LpcdBiasCurrent {
        LpcdBiasCurrent(bits)
    }
}

/// The layout of the register `lpcd_t3cfg`.
#[derive(Copy, Clone, Eq, PartialEq, Structural)]
pub struct LpcdT3cfg(pub u8);

impl LpcdT3cfg {
    /// T3_time = (T3Cfg-1)*4.7us. Valid range 2-0x1F
    #[verifier::allow_in_spec]
    pub fn t3cfg(&self) -> (val: u8)
        returns
            bits::field(self.0, 0, 0x1f),
    {
        (self.0 >> 0usize) & 0x1f
    }

    /// This value with `t3cfg` replaced by the low bits of `val`.
    pub open spec fn with_t3cfg(self, val: u8) -> Self {
        LpcdT3cfg(bits::with_field(self.0, 0, 0x1f, val))
    }

    /// T3_time = (T3Cfg-1)*4.7us. Valid range 2-0x1F
    pub fn set_t3cfg(&mut self, val: u8)
        ensures
            *final(self) == old(self).with_t3cfg(val),
    {
        self.0 = (self.0 & !(0x1f << 0usize)) | ((val & 0x1f) << 0usize);
    }
}

impl Default for LpcdT3cfg {
    fn default() -> (val: LpcdT3cfg)
        ensures
            val == LpcdT3cfg(0),
    {
        LpcdT3cfg(0)
    }
}

impl Value for LpcdT3cfg {
    open spec fn bits(self) -> u8 {
        self.0
    }

    open spec fn of_bits(bits: u8) -> LpcdT3cfg {
        LpcdT3cfg(bits)
    }

    proof fn lemma_bits_of_bits(bits: u8) {
    }

    fn to_bits(self) -> u8 {
        self.0
    }

    fn from_bits(bits: u8) -> LpcdT3cfg {
        LpcdT3cfg(bits)
    }
}

/// The layout of the register `lpcd_ctrl4`.
#[derive(Copy, Clone, Eq, PartialEq, Structural)]
pub struct LpcdCtrl4(pub u8);

impl LpcdCtrl4 {
    /// Attenuation factor
    #[verifier::allow_in_spec]
    pub fn attenuation(&self) -> (val: LpcdAttenuation)
        returns
            LpcdAttenuation(bits::field(self.0, 0, 0x03)),
    {
        LpcdAttenuation((self.0 >> 0usize) & 0x03)
    }

    /// This value with `attenuation` replaced by `val`.
    pub open spec fn with_attenuation(self, val: LpcdAttenuation) -> Self {
        LpcdCtrl4(bits::with_field(self.0, 0, 0x03, val.0))
    }

    /// Attenuation factor
    pub fn set_attenuation(&mut self, val: LpcdAttenuation)
        ensures
            *final(self) == old(self).with_attenuation(val),
    {
        self.0 = (self.0 & !(0x03 << 0usize)) | ((val.0 & 0x03) << 0usize);
    }

    /// Amplifier multiplier
    #[verifier::allow_in_spec]
    pub fn gain(&self) -> (val: LpcdGain)
        returns
            LpcdGain(bits::field(self.0, 2, 0x07)),
    {
        LpcdGain((self.0 >> 2usize) & 0x07)
    }

    /// This value with `gain` replaced by `val`.
    pub open spec fn with_gain(self, val: LpcdGain) -> Self {
        LpcdCtrl4(bits::with_field(self.0, 2, 0x07, val.0))
    }

    /// Amplifier multiplier
    pub fn set_gain(&mut self, val: LpcdGain)
        ensures
            *final(self) == old(self).with_gain(val),
    {
        self.0 = (self.0 & !(0x07 << 2usize)) | ((val.0 & 0x07) << 2usize);
    }
}

impl Default for LpcdCtrl4 {
    fn default() -> (val: LpcdCtrl4)
        ensures
            val == LpcdCtrl4(0),
    {
        LpcdCtrl4(0)
    }
}

impl Value for LpcdCtrl4 {
    open spec fn bits(self) -> u8 {
        self.0
    }

    open spec fn of_bits(bits: u8) -> LpcdCtrl4 {
        LpcdCtrl4(bits)
    }

    proof fn lemma_bits_of_bits(bits: u8) {
    }

    fn to_bits(self) -> u8 {
        self.0
    }

    fn from_bits(bits: u8) -> LpcdCtrl4 {
        LpcdCtrl4(bits)
    }
}

/// The layout of the register `status2`.
#[derive(Copy, Clone, Eq, PartialEq, Structural)]
pub struct Status2(pub u8);

impl Status2 {
    /// reader status Crypto is on.
    #[verifier::allow_in_spec]
    pub fn crypto1on(&self) -> (val: bool)
        returns
            bits::flag(self.0, 3),
    {
        (self.0 >> 3usize) & 0x01 != 0
    }

    /// This value with `crypto1on` replaced by `val`.
    pub open spec fn with_crypto1on(self, val: bool) -> Self {
        Status2(bits::with_flag(self.0, 3, val))
    }

    /// reader status Crypto is on.
    pub fn set_crypto1on(&mut self, val: bool)
        ensures
            *final(self) == old(self).with_crypto1on(val),
    {
        self.0 = (self.0 & !(0x01 << 3usize)) | (((val as u8) & 0x01) << 3usize);
    }

    /// card status Mifare selected.
    #[verifier::allow_in_spec]
    pub fn mfselected(&self) -> (val: bool)
        returns
            bits::flag(self.0, 4),
    {
        (self.0 >> 4usize) & 0x01 != 0
    }

    /// This value with `mfselected` replaced by `val`.
    pub open spec fn with_mfselected(self, val: bool) -> Self {
        Status2(bits::with_flag(self.0, 4, val))
    }

    /// card status Mifare selected.
    pub fn set_mfselected(&mut self, val: bool)
        ensures
            *final(self) == old(self).with_mfselected(val),
    {
        self.0 = (self.0 & !(0x01 << 4usize)) | (((val as u8) & 0x01) << 4usize);
    }

    /// Bit position to forece High speed mode for I2C Interface.
    #[verifier::allow_in_spec]
    pub fn i2cforcehs(&self) -> (val: bool)
        returns
            bits::flag(self.0, 6),
    {
        (self.0 >> 6usize) & 0x01 != 0
    }

    /// This value with `i2cforcehs` replaced by `val`.
    pub open spec fn with_i2cforcehs(self, val: bool) -> Self {
        Status2(bits::with_flag(self.0, 6, val))
    }

    /// Bit position to forece High speed mode for I2C Interface.
    pub fn set_i2cforcehs(&mut self, val: bool)
        ensures
            *final(self) == old(self).with_i2cforcehs(val),
    {
        self.0 = (self.0 & !(0x01 << 6usize)) | (((val as u8) & 0x01) << 6usize);
    }

    /// Bit position to switch Temperture sensors on/off.
    #[verifier::allow_in_spec]
    pub fn tempsensoff(&self) -> (val: bool)
        returns
            bits::flag(self.0, 7),
    {
        (self.0 >> 7usize) & 0x01 != 0
    }

    /// This value with `tempsensoff` replaced by `val`.
    pub open spec fn with_tempsensoff(self, val: bool) -> Self {
        Status2(bits::with_flag(self.0, 7, val))
    }

    /// Bit position to switch Temperture sensors on/off.
    pub fn set_tempsensoff(&mut self, val: bool)
        ensures
            *final(self) == old(self).with_tempsensoff(val),
    {
        self.0 = (self.0 & !(0x01 << 7usize)) | (((val as u8) & 0x01) << 7usize);
    }
}

impl Default for Status2 {
    fn default() -> (val: Status2)
        ensures
            val == Status2(0),
    {
        Status2(0)
    }
}

impl Value for Status2 {
    open spec fn bits(self) -> u8 {
        self.0
    }

    open spec fn of_bits(bits: u8) -> Status2 {
        Status2(bits)
    }

    proof fn lemma_bits_of_bits(bits: u8) {
    }

    fn to_bits(self) -> u8 {
        self.0
    }

    fn from_bits(bits: u8) -> Status2 {
        Status2(bits)
    }
}

/// The layout of the register `waterlevel`.
#[derive(Copy, Clone, Eq, PartialEq, Structural)]
pub struct Waterlevel(pub u8);

impl Waterlevel {
    #[verifier::allow_in_spec]
    pub fn waterlevel(&self) -> (val: u8)
        returns
            bits::field(self.0, 0, 0x3f),
    {
        (self.0 >> 0usize) & 0x3f
    }

    /// This value with `waterlevel` replaced by the low bits of `val`.
    pub open spec fn with_waterlevel(self, val: u8) -> Self {
        Waterlevel(bits::with_field(self.0, 0, 0x3f, val))
    }

    pub fn set_waterlevel(&mut self, val: u8)
        ensures
            *final(self) == old(self).with_waterlevel(val),
    {
        self.0 = (self.0 & !(0x3f << 0usize)) | ((val & 0x3f) << 0usize);
    }
}

impl Default for Waterlevel {
    fn default() -> (val: Waterlevel)
        ensures
            val == Waterlevel(0),
    {
        Waterlevel(0)
    }
}

impl Value for Waterlevel {
    open spec fn bits(self) -> u8 {
        self.0
    }

    open spec fn of_bits(bits: u8) -> Waterlevel {
        Waterlevel(bits)
    }

    proof fn lemma_bits_of_bits(bits: u8) {
    }

    fn to_bits(self) -> u8 {
        self.0
    }

    fn from_bits(bits: u8) -> Waterlevel {
        Waterlevel(bits)
    }
}

/// The layout of the register `lpcd_irq`.
#[derive(Copy, Clone, Eq, PartialEq, Structural)]
pub struct LpcdIrq(pub u8);

impl LpcdIrq {
    /// irq of card in
    #[verifier::allow_in_spec]
    pub fn card_in_irq(&self) -> (val: bool)
        returns
            bits::flag(self.0, 0),
    {
        (self.0 >> 0usize) & 0x01 != 0
    }

    /// This value with `card_in_irq` replaced by `val`.
    pub open spec fn with_card_in_irq(self, val: bool) -> Self {
        LpcdIrq(bits::with_flag(self.0, 0, val))
    }

    /// irq of card in
    pub fn set_card_in_irq(&mut self, val: bool)
        ensures
            *final(self) == old(self).with_card_in_irq(val),
    {
        self.0 = (self.0 & !(0x01 << 0usize)) | (((val as u8) & 0x01) << 0usize);
    }

    /// irq of LPCD 23 end
    #[verifier::allow_in_spec]
    pub fn lpcd23_irq(&self) -> (val: bool)
        returns
            bits::flag(self.0, 1),
    {
        (self.0 >> 1usize) & 0x01 != 0
    }

    /// This value with `lpcd23_irq` replaced by `val`.
    pub open spec fn with_lpcd23_irq(self, val: bool) -> Self {
        LpcdIrq(bits::with_flag(self.0, 1, val))
    }

    /// irq of LPCD 23 end
    pub fn set_lpcd23_irq(&mut self, val: bool)
        ensures
            *final(self) == old(self).with_lpcd23_irq(val),
    {
        self.0 = (self.0 & !(0x01 << 1usize)) | (((val as u8) & 0x01) << 1usize);
    }

    /// irq of calib end
    #[verifier::allow_in_spec]
    pub fn calib_irq(&self) -> (val: bool)
        returns
            bits::flag(self.0, 2),
    {
        (self.0 >> 2usize) & 0x01 != 0
    }

    /// This value with `calib_irq` replaced by `val`.
    pub open spec fn with_calib_irq(self, val: bool) -> Self {
        LpcdIrq(bits::with_flag(self.0, 2, val))
    }

    /// irq of calib end
    pub fn set_calib_irq(&mut self, val: bool)
        ensures
            *final(self) == old(self).with_calib_irq(val),
    {
        self.0 = (self.0 & !(0x01 << 2usize)) | (((val as u8) & 0x01) << 2usize);
    }

    /// irq of lp osc 10K ok
    #[verifier::allow_in_spec]
    pub fn lp10k_testok_irq(&self) -> (val: bool)
        returns
            bits::flag(self.0, 3),
    {
        (self.0 >> 3usize) & 0x01 != 0
    }

    /// This value with `lp10k_testok_irq` replaced by `val`.
    pub open spec fn with_lp10k_testok_irq(self, val: bool) -> Self {
        LpcdIrq(bits::with_flag(self.0, 3, val))
    }

    /// irq of lp osc 10K ok
    pub fn set_lp10k_testok_irq(&mut self, val: bool)
        ensures
            *final(self) == old(self).with_lp10k_testok_irq(val),
    {
        self.0 = (self.0 & !(0x01 << 3usize)) | (((val as u8) & 0x01) << 3usize);
    }

    /// irq of Auto wake up
    #[verifier::allow_in_spec]
    pub fn auto_wup_irq(&self) -> (val: bool)
        returns
            bits::flag(self.0, 4),
    {
        (self.0 >> 4usize) & 0x01 != 0
    }

    /// This value with `auto_wup_irq` replaced by `val`.
    pub open spec fn with_auto_wup_irq(self, val: bool) -> Self {
        LpcdIrq(bits::with_flag(self.0, 4, val))
    }

    /// irq of Auto wake up
    pub fn set_auto_wup_irq(&mut self, val: bool)
        ensures
            *final(self) == old(self).with_auto_wup_irq(val),
    {
        self.0 = (self.0 & !(0x01 << 4usize)) | (((val as u8) & 0x01) << 4usize);
    }
}

impl Default for LpcdIrq {
    fn default() -> (val: LpcdIrq)
        ensures
            val == LpcdIrq(0),
    {
        LpcdIrq(0)
    }
}

impl Value for LpcdIrq {
    open spec fn bits(self) -> u8 {
        self.0
    }

    open spec fn of_bits(bits: u8) -> LpcdIrq {
        LpcdIrq(bits)
    }

    proof fn lemma_bits_of_bits(bits: u8) {
    }

    fn to_bits(self) -> u8 {
        self.0
    }

    fn from_bits(bits: u8) -> LpcdIrq {
        LpcdIrq(bits)
    }
}

/// The layout of the register `gsn`.
#[derive(Copy, Clone, Eq, PartialEq, Structural)]
pub struct Gsn(pub u8);

impl Gsn {
    /// Conductance of theoutput for periods of modulation
    #[verifier::allow_in_spec]
    pub fn modgsn(&self) -> (val: u8)
        returns
            bits::field(self.0, 0, 0x0f),
    {
        (self.0 >> 0usize) & 0x0f
    }

    /// This value with `modgsn` replaced by the low bits of `val`.
    pub open spec fn with_modgsn(self, val: u8) -> Self {
        Gsn(bits::with_field(self.0, 0, 0x0f, val))
    }

    /// Conductance of theoutput for periods of modulation
    pub fn set_modgsn(&mut self, val: u8)
        ensures
            *final(self) == old(self).with_modgsn(val),
    {
        self.0 = (self.0 & !(0x0f << 0usize)) | ((val & 0x0f) << 0usize);
    }

    /// Conductance of theoutput for periods of no modulation
    #[verifier::allow_in_spec]
    pub fn cwgsn(&self) -> (val: u8)
        returns
            bits::field(self.0, 4, 0x0f),
    {
        (self.0 >> 4usize) & 0x0f
    }

    /// This value with `cwgsn` replaced by the low bits of `val`.
    pub open spec fn with_cwgsn(self, val: u8) -> Self {
        Gsn(bits::with_field(self.0, 4, 0x0f, val))
    }

    /// Conductance of theoutput for periods of no modulation
    pub fn set_cwgsn(&mut self, val: u8)
        ensures
            *final(self) == old(self).with_cwgsn(val),
    {
        self.0 = (self.0 & !(0x0f << 4usize)) | ((val & 0x0f) << 4usize);
    }
}

impl Default for Gsn {
    fn default() -> (val: Gsn)
        ensures
            val == Gsn(0),
    {
        Gsn(0)
    }
}

impl Value for Gsn {
    open spec fn bits(self) -> u8 {
        self.0
    }

    open spec fn of_bits(bits: u8) -> Gsn {
        Gsn(bits)
    }

    proof fn lemma_bits_of_bits(bits: u8) {
    }

    fn to_bits(self) -> u8 {
        self.0
    }

    fn from_bits(bits: u8) -> Gsn {
        Gsn(bits)
    }
}

/// The layout of the register `error`.
#[derive(Copy, Clone, Eq, PartialEq, Structural)]
pub struct Error(pub u8);

impl Error {
    /// Protocol Error.
    #[verifier::allow_in_spec]
    pub fn proterr(&self) -> (val: bool)
        returns
            bits::flag(self.0, 0),
    {
        (self.0 >> 0usize) & 0x01 != 0
    }

    /// This value with `proterr` replaced by `val`.
    pub open spec fn with_proterr(self, val: bool) -> Self {
        Error(bits::with_flag(self.0, 0, val))
    }

    /// Protocol Error.
    pub fn set_proterr(&mut self, val: bool)
        ensures
            *final(self) == old(self).with_proterr(val),
    {
        self.0 = (self.0 & !(0x01 << 0usize)) | (((val as u8) & 0x01) << 0usize);
    }

    /// Parity Error.
    #[verifier::allow_in_spec]
    pub fn parityerr(&self) -> (val: bool)
        returns
            bits::flag(self.0, 1),
    {
        (self.0 >> 1usize) & 0x01 != 0
    }

    /// This value with `parityerr` replaced by `val`.
    pub open spec fn with_parityerr(self, val: bool) -> Self {
        Error(bits::with_flag(self.0, 1, val))
    }

    /// Parity Error.
    pub fn set_parityerr(&mut self, val: bool)
        ensures
            *final(self) == old(self).with_parityerr(val),
    {
        self.0 = (self.0 & !(0x01 << 1usize)) | (((val as u8) & 0x01) << 1usize);
    }

    /// CRC Error.
    #[verifier::allow_in_spec]
    pub fn crcerr(&self) -> (val: bool)
        returns
            bits::flag(self.0, 2),
    {
        (self.0 >> 2usize) & 0x01 != 0
    }

    /// This value with `crcerr` replaced by `val`.
    pub open spec fn with_crcerr(self, val: bool) -> Self {
        Error(bits::with_flag(self.0, 2, val))
    }

    /// CRC Error.
    pub fn set_crcerr(&mut self, val: bool)
        ensures
            *final(self) == old(self).with_crcerr(val),
    {
        self.0 = (self.0 & !(0x01 << 2usize)) | (((val as u8) & 0x01) << 2usize);
    }

    /// Collision Error.
    #[verifier::allow_in_spec]
    pub fn collerr(&self) -> (val: bool)
        returns
            bits::flag(self.0, 3),
    {
        (self.0 >> 3usize) & 0x01 != 0
    }

    /// This value with `collerr` replaced by `val`.
    pub open spec fn with_collerr(self, val: bool) -> Self {
        Error(bits::with_flag(self.0, 3, val))
    }

    /// Collision Error.
    pub fn set_collerr(&mut self, val: bool)
        ensures
            *final(self) == old(self).with_collerr(val),
    {
        self.0 = (self.0 & !(0x01 << 3usize)) | (((val as u8) & 0x01) << 3usize);
    }

    /// Buffer Overflow Error.
    #[verifier::allow_in_spec]
    pub fn bufferovfl(&self) -> (val: bool)
        returns
            bits::flag(self.0, 4),
    {
        (self.0 >> 4usize) & 0x01 != 0
    }

    /// This value with `bufferovfl` replaced by `val`.
    pub open spec fn with_bufferovfl(self, val: bool) -> Self {
        Error(bits::with_flag(self.0, 4, val))
    }

    /// Buffer Overflow Error.
    pub fn set_bufferovfl(&mut self, val: bool)
        ensures
            *final(self) == old(self).with_bufferovfl(val),
    {
        self.0 = (self.0 & !(0x01 << 4usize)) | (((val as u8) & 0x01) << 4usize);
    }

    /// RF Error.
    #[verifier::allow_in_spec]
    pub fn rferr(&self) -> (val: bool)
        returns
            bits::flag(self.0, 5),
    {
        (self.0 >> 5usize) & 0x01 != 0
    }

    /// This value with `rferr` replaced by `val`.
    pub open spec fn with_rferr(self, val: bool) -> Self {
        Error(bits::with_flag(self.0, 5, val))
    }

    /// RF Error.
    pub fn set_rferr(&mut self, val: bool)
        ensures
            *final(self) == old(self).with_rferr(val),
    {
        self.0 = (self.0 & !(0x01 << 5usize)) | (((val as u8) & 0x01) << 5usize);
    }

    /// Temerature Error.
    #[verifier::allow_in_spec]
    pub fn temperr(&self) -> (val: bool)
        returns
            bits::flag(self.0, 6),
    {
        (self.0 >> 6usize) & 0x01 != 0
    }

    /// This value with `temperr` replaced by `val`.
    pub open spec fn with_temperr(self, val: bool) -> Self {
        Error(bits::with_flag(self.0, 6, val))
    }

    /// Temerature Error.
    pub fn set_temperr(&mut self, val: bool)
        ensures
            *final(self) == old(self).with_temperr(val),
    {
        self.0 = (self.0 & !(0x01 << 6usize)) | (((val as u8) & 0x01) << 6usize);
    }

    /// Write Access Error.
    #[verifier::allow_in_spec]
    pub fn wrerr(&self) -> (val: bool)
        returns
            bits::flag(self.0, 7),
    {
        (self.0 >> 7usize) & 0x01 != 0
    }

    /// This value with `wrerr` replaced by `val`.
    pub open spec fn with_wrerr(self, val: bool) -> Self {
        Error(bits::with_flag(self.0, 7, val))
    }

    /// Write Access Error.
    pub fn set_wrerr(&mut self, val: bool)
        ensures
            *final(self) == old(self).with_wrerr(val),
    {
        self.0 = (self.0 & !(0x01 << 7usize)) | (((val as u8) & 0x01) << 7usize);
    }
}

impl Default for Error {
    fn default() -> (val: Error)
        ensures
            val == Error(0),
    {
        Error(0)
    }
}

impl Value for Error {
    open spec fn bits(self) -> u8 {
        self.0
    }

    open spec fn of_bits(bits: u8) -> Error {
        Error(bits)
    }

    proof fn lemma_bits_of_bits(bits: u8) {
    }

    fn to_bits(self) -> u8 {
        self.0
    }

    fn from_bits(bits: u8) -> Error {
        Error(bits)
    }
}

/// The layout of the register `felicanfc2`.
#[derive(Copy, Clone, Eq, PartialEq, Structural)]
pub struct Felicanfc2(pub u8);

impl Felicanfc2 {
    #[verifier::allow_in_spec]
    pub fn felicalen(&self) -> (val: u8)
        returns
            bits::field(self.0, 0, 0x3f),
    {
        (self.0 >> 0usize) & 0x3f
    }

    /// This value with `felicalen` replaced by the low bits of `val`.
    pub open spec fn with_felicalen(self, val: u8) -> Self {
        Felicanfc2(bits::with_field(self.0, 0, 0x3f, val))
    }

    pub fn set_felicalen(&mut self, val: u8)
        ensures
            *final(self) == old(self).with_felicalen(val),
    {
        self.0 = (self.0 & !(0x3f << 0usize)) | ((val & 0x3f) << 0usize);
    }

    /// If this bit is set to one, the response time to the polling command is half as normal.
    #[verifier::allow_in_spec]
    pub fn fasttimeslot(&self) -> (val: bool)
        returns
            bits::flag(self.0, 6),
    {
        (self.0 >> 6usize) & 0x01 != 0
    }

    /// This value with `fasttimeslot` replaced by `val`.
    pub open spec fn with_fasttimeslot(self, val: bool) -> Self {
        Felicanfc2(bits::with_flag(self.0, 6, val))
    }

    /// If this bit is set to one, the response time to the polling command is half as normal.
    pub fn set_fasttimeslot(&mut self, val: bool)
        ensures
            *final(self) == old(self).with_fasttimeslot(val),
    {
        self.0 = (self.0 & !(0x01 << 6usize)) | (((val as u8) & 0x01) << 6usize);
    }

    #[verifier::allow_in_spec]
    pub fn felicasynclen(&self) -> (val: u8)
        returns
            bits::field(self.0, 6, 0x03),
    {
        (self.0 >> 6usize) & 0x03
    }

    /// This value with `felicasynclen` replaced by the low bits of `val`.
    pub open spec fn with_felicasynclen(self, val: u8) -> Self {
        Felicanfc2(bits::with_field(self.0, 6, 0x03, val))
    }

    pub fn set_felicasynclen(&mut self, val: u8)
        ensures
            *final(self) == old(self).with_felicasynclen(val),
    {
        self.0 = (self.0 & !(0x03 << 6usize)) | ((val & 0x03) << 6usize);
    }

    /// If this bit is set to one, only passive communication modes are possible. In any other
    /// case the AutoColl Statemachine does not exit.
    #[verifier::allow_in_spec]
    pub fn waitforselected(&self) -> (val: bool)
        returns
            bits::flag(self.0, 7),
    {
        (self.0 >> 7usize) & 0x01 != 0
    }

    /// This value with `waitforselected` replaced by `val`.
    pub open spec fn with_waitforselected(self, val: bool) -> Self {
        Felicanfc2(bits::with_flag(self.0, 7, val))
    }

    /// If this bit is set to one, only passive communication modes are possible. In any other
    /// case the AutoColl Statemachine does not exit.
    pub fn set_waitforselected(&mut self, val: bool)
        ensures
            *final(self) == old(self).with_waitforselected(val),
    {
        self.0 = (self.0 & !(0x01 << 7usize)) | (((val as u8) & 0x01) << 7usize);
    }
}

impl Default for Felicanfc2 {
    fn default() -> (val: Felicanfc2)
        ensures
            val == Felicanfc2(0),
    {
        Felicanfc2(0)
    }
}

impl Value for Felicanfc2 {
    open spec fn bits(self) -> u8 {
        self.0
    }

    open spec fn of_bits(bits: u8) -> Felicanfc2 {
        Felicanfc2(bits)
    }

    proof fn lemma_bits_of_bits(bits: u8) {
    }

    fn to_bits(self) -> u8 {
        self.0
    }

    fn from_bits(bits: u8) -> Felicanfc2 {
        Felicanfc2(bits)
    }
}

/// The layout of the register `lpcd_vmid_bd_cfg`.
#[derive(Copy, Clone, Eq, PartialEq, Structural)]
pub struct LpcdVmidBdCfg(pub u8);

impl LpcdVmidBdCfg {
    /// Configure the Vmid establishment time. Configuration Value = T2Cfg Configuration Value -
    /// Settling time required for Vmid. \\[Note: It is recommended to use the setting of the
    /// reference code, and it is not recommended for the user to modify it\\]
    #[verifier::allow_in_spec]
    pub fn vmid_bd_cfg(&self) -> (val: u8)
        returns
            bits::field(self.0, 0, 0x1f),
    {
        (self.0 >> 0usize) & 0x1f
    }

    /// This value with `vmid_bd_cfg` replaced by the low bits of `val`.
    pub open spec fn with_vmid_bd_cfg(self, val: u8) -> Self {
        LpcdVmidBdCfg(bits::with_field(self.0, 0, 0x1f, val))
    }

    /// Configure the Vmid establishment time. Configuration Value = T2Cfg Configuration Value -
    /// Settling time required for Vmid. \\[Note: It is recommended to use the setting of the
    /// reference code, and it is not recommended for the user to modify it\\]
    pub fn set_vmid_bd_cfg(&mut self, val: u8)
        ensures
            *final(self) == old(self).with_vmid_bd_cfg(val),
    {
        self.0 = (self.0 & !(0x1f << 0usize)) | ((val & 0x1f) << 0usize);
    }
}

impl Default for LpcdVmidBdCfg {
    fn default() -> (val: LpcdVmidBdCfg)
        ensures
            val == LpcdVmidBdCfg(0),
    {
        LpcdVmidBdCfg(0)
    }
}

impl Value for LpcdVmidBdCfg {
    open spec fn bits(self) -> u8 {
        self.0
    }

    open spec fn of_bits(bits: u8) -> LpcdVmidBdCfg {
        LpcdVmidBdCfg(bits)
    }

    proof fn lemma_bits_of_bits(bits: u8) {
    }

    fn to_bits(self) -> u8 {
        self.0
    }

    fn from_bits(bits: u8) -> LpcdVmidBdCfg {
        LpcdVmidBdCfg(bits)
    }
}

/// The layout of the register `control`.
#[derive(Copy, Clone, Eq, PartialEq, Structural)]
pub struct Control(pub u8);

impl Control {
    #[verifier::allow_in_spec]
    pub fn rxbits(&self) -> (val: u8)
        returns
            bits::field(self.0, 0, 0x07),
    {
        (self.0 >> 0usize) & 0x07
    }

    /// This value with `rxbits` replaced by the low bits of `val`.
    pub open spec fn with_rxbits(self, val: u8) -> Self {
        Control(bits::with_field(self.0, 0, 0x07, val))
    }

    pub fn set_rxbits(&mut self, val: u8)
        ensures
            *final(self) == old(self).with_rxbits(val),
    {
        self.0 = (self.0 & !(0x07 << 0usize)) | ((val & 0x07) << 0usize);
    }

    /// Sets Initiator mode.
    #[verifier::allow_in_spec]
    pub fn initiator(&self) -> (val: bool)
        returns
            bits::flag(self.0, 4),
    {
        (self.0 >> 4usize) & 0x01 != 0
    }

    /// This value with `initiator` replaced by `val`.
    pub open spec fn with_initiator(self, val: bool) -> Self {
        Control(bits::with_flag(self.0, 4, val))
    }

    /// Sets Initiator mode.
    pub fn set_initiator(&mut self, val: bool)
        ensures
            *final(self) == old(self).with_initiator(val),
    {
        self.0 = (self.0 & !(0x01 << 4usize)) | (((val as u8) & 0x01) << 4usize);
    }

    /// Copies internal stored NFCID3 to actual position of FIFO.
    #[verifier::allow_in_spec]
    pub fn wrnfcidtofifo(&self) -> (val: bool)
        returns
            bits::flag(self.0, 5),
    {
        (self.0 >> 5usize) & 0x01 != 0
    }

    /// This value with `wrnfcidtofifo` replaced by `val`.
    pub open spec fn with_wrnfcidtofifo(self, val: bool) -> Self {
        Control(bits::with_flag(self.0, 5, val))
    }

    /// Copies internal stored NFCID3 to actual position of FIFO.
    pub fn set_wrnfcidtofifo(&mut self, val: bool)
        ensures
            *final(self) == old(self).with_wrnfcidtofifo(val),
    {
        self.0 = (self.0 & !(0x01 << 5usize)) | (((val as u8) & 0x01) << 5usize);
    }

    /// Starts timer if set to 1.
    #[verifier::allow_in_spec]
    pub fn tstartnow(&self) -> (val: bool)
        returns
            bits::flag(self.0, 6),
    {
        (self.0 >> 6usize) & 0x01 != 0
    }

    /// This value with `tstartnow` replaced by `val`.
    pub open spec fn with_tstartnow(self, val: bool) -> Self {
        Control(bits::with_flag(self.0, 6, val))
    }

    /// Starts timer if set to 1.
    pub fn set_tstartnow(&mut self, val: bool)
        ensures
            *final(self) == old(self).with_tstartnow(val),
    {
        self.0 = (self.0 & !(0x01 << 6usize)) | (((val as u8) & 0x01) << 6usize);
    }

    /// Stops timer if set to 1.
    #[verifier::allow_in_spec]
    pub fn tstopnow(&self) -> (val: bool)
        returns
            bits::flag(self.0, 7),
    {
        (self.0 >> 7usize) & 0x01 != 0
    }

    /// This value with `tstopnow` replaced by `val`.
    pub open spec fn with_tstopnow(self, val: bool) -> Self {
        Control(bits::with_flag(self.0, 7, val))
    }

    /// Stops timer if set to 1.
    pub fn set_tstopnow(&mut self, val: bool)
        ensures
            *final(self) == old(self).with_tstopnow(val),
    {
        self.0 = (self.0 & !(0x01 << 7usize)) | (((val as u8) & 0x01) << 7usize);
    }
}

impl Default for Control {
    fn default() -> (val: Control)
        ensures
            val == Control(0),
    {
        Control(0)
    }
}

impl Value for Control {
    open spec fn bits(self) -> u8 {
        self.0
    }

    open spec fn of_bits(bits: u8) -> Control {
        Control(bits)
    }

    proof fn lemma_bits_of_bits(bits: u8) {
    }

    fn to_bits(self) -> u8 {
        self.0
    }

    fn from_bits(bits: u8) -> Control {
        Control(bits)
    }
}

/// The layout of the register `mode`.
#[derive(Copy, Clone, Eq, PartialEq, Structural)]
pub struct Mode(pub u8);

impl Mode {
    #[verifier::allow_in_spec]
    pub fn crcpreset(&self) -> (val: u8)
        returns
            bits::field(self.0, 0, 0x03),
    {
        (self.0 >> 0usize) & 0x03
    }

    /// This value with `crcpreset` replaced by the low bits of `val`.
    pub open spec fn with_crcpreset(self, val: u8) -> Self {
        Mode(bits::with_field(self.0, 0, 0x03, val))
    }

    pub fn set_crcpreset(&mut self, val: u8)
        ensures
            *final(self) == old(self).with_crcpreset(val),
    {
        self.0 = (self.0 & !(0x03 << 0usize)) | ((val & 0x03) << 0usize);
    }

    /// Deactivates the ModeDetector during AutoAnticoll command. The settings of the register
    /// are valid only.
    #[verifier::allow_in_spec]
    pub fn modedetoff(&self) -> (val: bool)
        returns
            bits::flag(self.0, 2),
    {
        (self.0 >> 2usize) & 0x01 != 0
    }

    /// This value with `modedetoff` replaced by `val`.
    pub open spec fn with_modedetoff(self, val: bool) -> Self {
        Mode(bits::with_flag(self.0, 2, val))
    }

    /// Deactivates the ModeDetector during AutoAnticoll command. The settings of the register
    /// are valid only.
    pub fn set_modedetoff(&mut self, val: bool)
        ensures
            *final(self) == old(self).with_modedetoff(val),
    {
        self.0 = (self.0 & !(0x01 << 2usize)) | (((val as u8) & 0x01) << 2usize);
    }

    /// Inverts polarity of SiginActIrq, if bit is set to 1 IRQ occures when Sigin line is 0.
    #[verifier::allow_in_spec]
    pub fn polsigin(&self) -> (val: bool)
        returns
            bits::flag(self.0, 3),
    {
        (self.0 >> 3usize) & 0x01 != 0
    }

    /// This value with `polsigin` replaced by `val`.
    pub open spec fn with_polsigin(self, val: bool) -> Self {
        Mode(bits::with_flag(self.0, 3, val))
    }

    /// Inverts polarity of SiginActIrq, if bit is set to 1 IRQ occures when Sigin line is 0.
    pub fn set_polsigin(&mut self, val: bool)
        ensures
            *final(self) == old(self).with_polsigin(val),
    {
        self.0 = (self.0 & !(0x01 << 3usize)) | (((val as u8) & 0x01) << 3usize);
    }

    /// Rx waits until Rf is enabled until receive is startet, else receive is started
    /// immideately.
    #[verifier::allow_in_spec]
    pub fn rxwaitrf(&self) -> (val: bool)
        returns
            bits::flag(self.0, 4),
    {
        (self.0 >> 4usize) & 0x01 != 0
    }

    /// This value with `rxwaitrf` replaced by `val`.
    pub open spec fn with_rxwaitrf(self, val: bool) -> Self {
        Mode(bits::with_flag(self.0, 4, val))
    }

    /// Rx waits until Rf is enabled until receive is startet, else receive is started
    /// immideately.
    pub fn set_rxwaitrf(&mut self, val: bool)
        ensures
            *final(self) == old(self).with_rxwaitrf(val),
    {
        self.0 = (self.0 & !(0x01 << 4usize)) | (((val as u8) & 0x01) << 4usize);
    }

    /// Tx waits until Rf is enabled until transmit is startet, else transmit is started
    /// immideately.
    #[verifier::allow_in_spec]
    pub fn txwaitrf(&self) -> (val: bool)
        returns
            bits::flag(self.0, 5),
    {
        (self.0 >> 5usize) & 0x01 != 0
    }

    /// This value with `txwaitrf` replaced by `val`.
    pub open spec fn with_txwaitrf(self, val: bool) -> Self {
        Mode(bits::with_flag(self.0, 5, val))
    }

    /// Tx waits until Rf is enabled until transmit is startet, else transmit is started
    /// immideately.
    pub fn set_txwaitrf(&mut self, val: bool)
        ensures
            *final(self) == old(self).with_txwaitrf(val),
    {
        self.0 = (self.0 & !(0x01 << 5usize)) | (((val as u8) & 0x01) << 5usize);
    }

    /// Activate automatic sync detection for NFC 106kbps.
    #[verifier::allow_in_spec]
    pub fn detectsync(&self) -> (val: bool)
        returns
            bits::flag(self.0, 6),
    {
        (self.0 >> 6usize) & 0x01 != 0
    }

    /// This value with `detectsync` replaced by `val`.
    pub open spec fn with_detectsync(self, val: bool) -> Self {
        Mode(bits::with_flag(self.0, 6, val))
    }

    /// Activate automatic sync detection for NFC 106kbps.
    pub fn set_detectsync(&mut self, val: bool)
        ensures
            *final(self) == old(self).with_detectsync(val),
    {
        self.0 = (self.0 & !(0x01 << 6usize)) | (((val as u8) & 0x01) << 6usize);
    }

    /// Sets CRC coprocessor with MSB first.
    #[verifier::allow_in_spec]
    pub fn msbfirst(&self) -> (val: bool)
        returns
            bits::flag(self.0, 7),
    {
        (self.0 >> 7usize) & 0x01 != 0
    }

    /// This value with `msbfirst` replaced by `val`.
    pub open spec fn with_msbfirst(self, val: bool) -> Self {
        Mode(bits::with_flag(self.0, 7, val))
    }

    /// Sets CRC coprocessor with MSB first.
    pub fn set_msbfirst(&mut self, val: bool)
        ensures
            *final(self) == old(self).with_msbfirst(val),
    {
        self.0 = (self.0 & !(0x01 << 7usize)) | (((val as u8) & 0x01) << 7usize);
    }
}

impl Default for Mode {
    fn default() -> (val: Mode)
        ensures
            val == Mode(0),
    {
        Mode(0)
    }
}

impl Value for Mode {
    open spec fn bits(self) -> u8 {
        self.0
    }

    open spec fn of_bits(bits: u8) -> Mode {
        Mode(bits)
    }

    proof fn lemma_bits_of_bits(bits: u8) {
    }

    fn to_bits(self) -> u8 {
        self.0
    }

    fn from_bits(bits: u8) -> Mode {
        Mode(bits)
    }
}

/// The layout of the register `felicanfc`.
#[derive(Copy, Clone, Eq, PartialEq, Structural)]
pub struct Felicanfc(pub u8);

impl Felicanfc {
    #[verifier::allow_in_spec]
    pub fn felicalen(&self) -> (val: u8)
        returns
            bits::field(self.0, 0, 0x3f),
    {
        (self.0 >> 0usize) & 0x3f
    }

    /// This value with `felicalen` replaced by the low bits of `val`.
    pub open spec fn with_felicalen(self, val: u8) -> Self {
        Felicanfc(bits::with_field(self.0, 0, 0x3f, val))
    }

    pub fn set_felicalen(&mut self, val: u8)
        ensures
            *final(self) == old(self).with_felicalen(val),
    {
        self.0 = (self.0 & !(0x3f << 0usize)) | ((val & 0x3f) << 0usize);
    }

    #[verifier::allow_in_spec]
    pub fn felicasynclen(&self) -> (val: u8)
        returns
            bits::field(self.0, 6, 0x03),
    {
        (self.0 >> 6usize) & 0x03
    }

    /// This value with `felicasynclen` replaced by the low bits of `val`.
    pub open spec fn with_felicasynclen(self, val: u8) -> Self {
        Felicanfc(bits::with_field(self.0, 6, 0x03, val))
    }

    pub fn set_felicasynclen(&mut self, val: u8)
        ensures
            *final(self) == old(self).with_felicasynclen(val),
    {
        self.0 = (self.0 & !(0x03 << 6usize)) | ((val & 0x03) << 6usize);
    }
}

impl Default for Felicanfc {
    fn default() -> (val: Felicanfc)
        ensures
            val == Felicanfc(0),
    {
        Felicanfc(0)
    }
}

impl Value for Felicanfc {
    open spec fn bits(self) -> u8 {
        self.0
    }

    open spec fn of_bits(bits: u8) -> Felicanfc {
        Felicanfc(bits)
    }

    proof fn lemma_bits_of_bits(bits: u8) {
    }

    fn to_bits(self) -> u8 {
        self.0
    }

    fn from_bits(bits: u8) -> Felicanfc {
        Felicanfc(bits)
    }
}

/// The layout of the register `lpcd_t2cfg`.
#[derive(Copy, Clone, Eq, PartialEq, Structural)]
pub struct LpcdT2cfg(pub u8);

impl LpcdT2cfg {
    /// T2_time = (T2Cfg+2)*100us. Valid range 2-0x1F
    #[verifier::allow_in_spec]
    pub fn t2cfg(&self) -> (val: u8)
        returns
            bits::field(self.0, 0, 0x1f),
    {
        (self.0 >> 0usize) & 0x1f
    }

    /// This value with `t2cfg` replaced by the low bits of `val`.
    pub open spec fn with_t2cfg(self, val: u8) -> Self {
        LpcdT2cfg(bits::with_field(self.0, 0, 0x1f, val))
    }

    /// T2_time = (T2Cfg+2)*100us. Valid range 2-0x1F
    pub fn set_t2cfg(&mut self, val: u8)
        ensures
            *final(self) == old(self).with_t2cfg(val),
    {
        self.0 = (self.0 & !(0x1f << 0usize)) | ((val & 0x1f) << 0usize);
    }
}

impl Default for LpcdT2cfg {
    fn default() -> (val: LpcdT2cfg)
        ensures
            val == LpcdT2cfg(0),
    {
        LpcdT2cfg(0)
    }
}

impl Value for LpcdT2cfg {
    open spec fn bits(self) -> u8 {
        self.0
    }

    open spec fn of_bits(bits: u8) -> LpcdT2cfg {
        LpcdT2cfg(bits)
    }

    proof fn lemma_bits_of_bits(bits: u8) {
    }

    fn to_bits(self) -> u8 {
        self.0
    }

    fn from_bits(bits: u8) -> LpcdT2cfg {
        LpcdT2cfg(bits)
    }
}

/// The layout of the register `rxmode`.
#[derive(Copy, Clone, Eq, PartialEq, Structural)]
pub struct Rxmode(pub u8);

impl Rxmode {
    #[verifier::allow_in_spec]
    pub fn framing(&self) -> (val: Framing)
        returns
            Framing(bits::field(self.0, 0, 0x03)),
    {
        Framing((self.0 >> 0usize) & 0x03)
    }

    /// This value with `framing` replaced by `val`.
    pub open spec fn with_framing(self, val: Framing) -> Self {
        Rxmode(bits::with_field(self.0, 0, 0x03, val.0))
    }

    pub fn set_framing(&mut self, val: Framing)
        ensures
            *final(self) == old(self).with_framing(val),
    {
        self.0 = (self.0 & !(0x03 << 0usize)) | ((val.0 & 0x03) << 0usize);
    }

    /// Activates reception mode for multiple responses.
    #[verifier::allow_in_spec]
    pub fn rxmultiple(&self) -> (val: bool)
        returns
            bits::flag(self.0, 2),
    {
        (self.0 >> 2usize) & 0x01 != 0
    }

    /// This value with `rxmultiple` replaced by `val`.
    pub open spec fn with_rxmultiple(self, val: bool) -> Self {
        Rxmode(bits::with_flag(self.0, 2, val))
    }

    /// Activates reception mode for multiple responses.
    pub fn set_rxmultiple(&mut self, val: bool)
        ensures
            *final(self) == old(self).with_rxmultiple(val),
    {
        self.0 = (self.0 & !(0x01 << 2usize)) | (((val as u8) & 0x01) << 2usize);
    }

    /// If 1, receiver does not receive less than 4 bits.
    #[verifier::allow_in_spec]
    pub fn rxnoerr(&self) -> (val: bool)
        returns
            bits::flag(self.0, 3),
    {
        (self.0 >> 3usize) & 0x01 != 0
    }

    /// This value with `rxnoerr` replaced by `val`.
    pub open spec fn with_rxnoerr(self, val: bool) -> Self {
        Rxmode(bits::with_flag(self.0, 3, val))
    }

    /// If 1, receiver does not receive less than 4 bits.
    pub fn set_rxnoerr(&mut self, val: bool)
        ensures
            *final(self) == old(self).with_rxnoerr(val),
    {
        self.0 = (self.0 & !(0x01 << 3usize)) | (((val as u8) & 0x01) << 3usize);
    }

    /// If 1, receiver does not receive less than 4 bits.
    #[verifier::allow_in_spec]
    pub fn speed(&self) -> (val: Speed)
        returns
            Speed(bits::field(self.0, 4, 0x07)),
    {
        Speed((self.0 >> 4usize) & 0x07)
    }

    /// This value with `speed` replaced by `val`.
    pub open spec fn with_speed(self, val: Speed) -> Self {
        Rxmode(bits::with_field(self.0, 4, 0x07, val.0))
    }

    /// If 1, receiver does not receive less than 4 bits.
    pub fn set_speed(&mut self, val: Speed)
        ensures
            *final(self) == old(self).with_speed(val),
    {
        self.0 = (self.0 & !(0x07 << 4usize)) | ((val.0 & 0x07) << 4usize);
    }

    /// Activates transmit or receive CRC.
    #[verifier::allow_in_spec]
    pub fn crcen(&self) -> (val: bool)
        returns
            bits::flag(self.0, 7),
    {
        (self.0 >> 7usize) & 0x01 != 0
    }

    /// This value with `crcen` replaced by `val`.
    pub open spec fn with_crcen(self, val: bool) -> Self {
        Rxmode(bits::with_flag(self.0, 7, val))
    }

    /// Activates transmit or receive CRC.
    pub fn set_crcen(&mut self, val: bool)
        ensures
            *final(self) == old(self).with_crcen(val),
    {
        self.0 = (self.0 & !(0x01 << 7usize)) | (((val as u8) & 0x01) << 7usize);
    }
}

impl Default for Rxmode {
    fn default() -> (val: Rxmode)
        ensures
            val == Rxmode(0),
    {
        Rxmode(0)
    }
}

impl Value for Rxmode {
    open spec fn bits(self) -> u8 {
        self.0
    }

    open spec fn of_bits(bits: u8) -> Rxmode {
        Rxmode(bits)
    }

    proof fn lemma_bits_of_bits(bits: u8) {
    }

    fn to_bits(self) -> u8 {
        self.0
    }

    fn from_bits(bits: u8) -> Rxmode {
        Rxmode(bits)
    }
}

/// The layout of the register `lpcd_ctrl3`.
#[derive(Copy, Clone, Eq, PartialEq, Structural)]
pub struct LpcdCtrl3(pub u8);

impl LpcdCtrl3 {
    /// Low power mode control. Set to 0: When pin NPD=0, and LPCDEn=0 (default value), the chip
    /// enters DPD mode. Set to 1: When pin NPD=0, and LPCDEn=0 (default value), the chip enters
    /// HPD mode. \\[Note: To enable LPCD function, set as: HPDEn=0, LPCDEn=1\\]
    #[verifier::allow_in_spec]
    pub fn hpden(&self) -> (val: bool)
        returns
            bits::flag(self.0, 5),
    {
        (self.0 >> 5usize) & 0x01 != 0
    }

    /// This value with `hpden` replaced by `val`.
    pub open spec fn with_hpden(self, val: bool) -> Self {
        LpcdCtrl3(bits::with_flag(self.0, 5, val))
    }

    /// Low power mode control. Set to 0: When pin NPD=0, and LPCDEn=0 (default value), the chip
    /// enters DPD mode. Set to 1: When pin NPD=0, and LPCDEn=0 (default value), the chip enters
    /// HPD mode. \\[Note: To enable LPCD function, set as: HPDEn=0, LPCDEn=1\\]
    pub fn set_hpden(&mut self, val: bool)
        ensures
            *final(self) == old(self).with_hpden(val),
    {
        self.0 = (self.0 & !(0x01 << 5usize)) | (((val as u8) & 0x01) << 5usize);
    }
}

impl Default for LpcdCtrl3 {
    fn default() -> (val: LpcdCtrl3)
        ensures
            val == LpcdCtrl3(0),
    {
        LpcdCtrl3(0)
    }
}

impl Value for LpcdCtrl3 {
    open spec fn bits(self) -> u8 {
        self.0
    }

    open spec fn of_bits(bits: u8) -> LpcdCtrl3 {
        LpcdCtrl3(bits)
    }

    proof fn lemma_bits_of_bits(bits: u8) {
    }

    fn to_bits(self) -> u8 {
        self.0
    }

    fn from_bits(bits: u8) -> LpcdCtrl3 {
        LpcdCtrl3(bits)
    }
}

/// The layout of the register `lpcd_rft1`.
#[derive(Copy, Clone, Eq, PartialEq, Structural)]
pub struct LpcdRft1(pub u8);

impl LpcdRft1 {
    /// vdem of lpcd
    #[verifier::allow_in_spec]
    pub fn aux1_vdem_lpcd(&self) -> (val: bool)
        returns
            bits::flag(self.0, 0),
    {
        (self.0 >> 0usize) & 0x01 != 0
    }

    /// This value with `aux1_vdem_lpcd` replaced by `val`.
    pub open spec fn with_aux1_vdem_lpcd(self, val: bool) -> Self {
        LpcdRft1(bits::with_flag(self.0, 0, val))
    }

    /// vdem of lpcd
    pub fn set_aux1_vdem_lpcd(&mut self, val: bool)
        ensures
            *final(self) == old(self).with_aux1_vdem_lpcd(val),
    {
        self.0 = (self.0 & !(0x01 << 0usize)) | (((val as u8) & 0x01) << 0usize);
    }

    /// voltage of charecap
    #[verifier::allow_in_spec]
    pub fn aux1_vp_lpcd(&self) -> (val: bool)
        returns
            bits::flag(self.0, 1),
    {
        (self.0 >> 1usize) & 0x01 != 0
    }

    /// This value with `aux1_vp_lpcd` replaced by `val`.
    pub open spec fn with_aux1_vp_lpcd(self, val: bool) -> Self {
        LpcdRft1(bits::with_flag(self.0, 1, val))
    }

    /// voltage of charecap
    pub fn set_aux1_vp_lpcd(&mut self, val: bool)
        ensures
            *final(self) == old(self).with_aux1_vp_lpcd(val),
    {
        self.0 = (self.0 & !(0x01 << 1usize)) | (((val as u8) & 0x01) << 1usize);
    }
}

impl Default for LpcdRft1 {
    fn default() -> (val: LpcdRft1)
        ensures
            val == LpcdRft1(0),
    {
        LpcdRft1(0)
    }
}

impl Value for LpcdRft1 {
    open spec fn bits(self) -> u8 {
        self.0
    }

    open spec fn of_bits(bits: u8) -> LpcdRft1 {
        LpcdRft1(bits)
    }

    proof fn lemma_bits_of_bits(bits: u8) {
    }

    fn to_bits(self) -> u8 {
        self.0
    }

    fn from_bits(bits: u8) -> LpcdRft1 {
        LpcdRft1(bits)
    }
}

/// The layout of the register `lpcd_t1cfg`.
#[derive(Copy, Clone, Eq, PartialEq, Structural)]
pub struct LpcdT1cfg(pub u8);

impl LpcdT1cfg {
    /// T1_time = (T1Cfg+2)*100ms. Valid range 1-0xF
    #[verifier::allow_in_spec]
    pub fn t1cfg(&self) -> (val: u8)
        returns
            bits::field(self.0, 0, 0x0f),
    {
        (self.0 >> 0usize) & 0x0f
    }

    /// This value with `t1cfg` replaced by the low bits of `val`.
    pub open spec fn with_t1cfg(self, val: u8) -> Self {
        LpcdT1cfg(bits::with_field(self.0, 0, 0x0f, val))
    }

    /// T1_time = (T1Cfg+2)*100ms. Valid range 1-0xF
    pub fn set_t1cfg(&mut self, val: u8)
        ensures
            *final(self) == old(self).with_t1cfg(val),
    {
        self.0 = (self.0 & !(0x0f << 0usize)) | ((val & 0x0f) << 0usize);
    }

    /// Frequency division ratio setting of working clock in T3 stage
    #[verifier::allow_in_spec]
    pub fn t3clkdivk(&self) -> (val: LpcdT3clkdivk)
        returns
            LpcdT3clkdivk(bits::field(self.0, 4, 0x03)),
    {
        LpcdT3clkdivk((self.0 >> 4usize) & 0x03)
    }

    /// This value with `t3clkdivk` replaced by `val`.
    pub open spec fn with_t3clkdivk(self, val: LpcdT3clkdivk) -> Self {
        LpcdT1cfg(bits::with_field(self.0, 4, 0x03, val.0))
    }

    /// Frequency division ratio setting of working clock in T3 stage
    pub fn set_t3clkdivk(&mut self, val: LpcdT3clkdivk)
        ensures
            *final(self) == old(self).with_t3clkdivk(val),
    {
        self.0 = (self.0 & !(0x03 << 4usize)) | ((val.0 & 0x03) << 4usize);
    }
}

impl Default for LpcdT1cfg {
    fn default() -> (val: LpcdT1cfg)
        ensures
            val == LpcdT1cfg(0),
    {
        LpcdT1cfg(0)
    }
}

impl Value for LpcdT1cfg {
    open spec fn bits(self) -> u8 {
        self.0
    }

    open spec fn of_bits(bits: u8) -> LpcdT1cfg {
        LpcdT1cfg(bits)
    }

    proof fn lemma_bits_of_bits(bits: u8) {
    }

    fn to_bits(self) -> u8 {
        self.0
    }

    fn from_bits(bits: u8) -> LpcdT1cfg {
        LpcdT1cfg(bits)
    }
}

/// The layout of the register `lpcd_auto_wup_cfg`.
#[derive(Copy, Clone, Eq, PartialEq, Structural)]
pub struct LpcdAutoWupCfg(pub u8);

impl LpcdAutoWupCfg {
    /// To configure automatic wake-up time:
    #[verifier::allow_in_spec]
    pub fn time(&self) -> (val: LpcdAutoWupTime)
        returns
            LpcdAutoWupTime(bits::field(self.0, 0, 0x07)),
    {
        LpcdAutoWupTime((self.0 >> 0usize) & 0x07)
    }

    /// This value with `time` replaced by `val`.
    pub open spec fn with_time(self, val: LpcdAutoWupTime) -> Self {
        LpcdAutoWupCfg(bits::with_field(self.0, 0, 0x07, val.0))
    }

    /// To configure automatic wake-up time:
    pub fn set_time(&mut self, val: LpcdAutoWupTime)
        ensures
            *final(self) == old(self).with_time(val),
    {
        self.0 = (self.0 & !(0x07 << 0usize)) | ((val.0 & 0x07) << 0usize);
    }

    /// Set to 1, the chip automatically exits from LPCD mode according to the set AutoWupCfg
    /// value, At the same time, the interrupt flag is given.
    #[verifier::allow_in_spec]
    pub fn en(&self) -> (val: bool)
        returns
            bits::flag(self.0, 3),
    {
        (self.0 >> 3usize) & 0x01 != 0
    }

    /// This value with `en` replaced by `val`.
    pub open spec fn with_en(self, val: bool) -> Self {
        LpcdAutoWupCfg(bits::with_flag(self.0, 3, val))
    }

    /// Set to 1, the chip automatically exits from LPCD mode according to the set AutoWupCfg
    /// value, At the same time, the interrupt flag is given.
    pub fn set_en(&mut self, val: bool)
        ensures
            *final(self) == old(self).with_en(val),
    {
        self.0 = (self.0 & !(0x01 << 3usize)) | (((val as u8) & 0x01) << 3usize);
    }
}

impl Default for LpcdAutoWupCfg {
    fn default() -> (val: LpcdAutoWupCfg)
        ensures
            val == LpcdAutoWupCfg(0),
    {
        LpcdAutoWupCfg(0)
    }
}

impl Value for LpcdAutoWupCfg {
    open spec fn bits(self) -> u8 {
        self.0
    }

    open spec fn of_bits(bits: u8) -> LpcdAutoWupCfg {
        LpcdAutoWupCfg(bits)
    }

    proof fn lemma_bits_of_bits(bits: u8) {
    }

    fn to_bits(self) -> u8 {
        self.0
    }

    fn from_bits(bits: u8) -> LpcdAutoWupCfg {
        LpcdAutoWupCfg(bits)
    }
}

/// The layout of the register `tmode`.
#[derive(Copy, Clone, Eq, PartialEq, Structural)]
pub struct Tmode(pub u8);

impl Tmode {
    #[verifier::allow_in_spec]
    pub fn tprescaler_hi(&self) -> (val: u8)
        returns
            bits::field(self.0, 0, 0x0f),
    {
        (self.0 >> 0usize) & 0x0f
    }

    /// This value with `tprescaler_hi` replaced by the low bits of `val`.
    pub open spec fn with_tprescaler_hi(self, val: u8) -> Self {
        Tmode(bits::with_field(self.0, 0, 0x0f, val))
    }

    pub fn set_tprescaler_hi(&mut self, val: u8)
        ensures
            *final(self) == old(self).with_tprescaler_hi(val),
    {
        self.0 = (self.0 & !(0x0f << 0usize)) | ((val & 0x0f) << 0usize);
    }

    /// Restarts the timer automatically after finished counting down to 0.
    #[verifier::allow_in_spec]
    pub fn tautorestart(&self) -> (val: bool)
        returns
            bits::flag(self.0, 4),
    {
        (self.0 >> 4usize) & 0x01 != 0
    }

    /// This value with `tautorestart` replaced by `val`.
    pub open spec fn with_tautorestart(self, val: bool) -> Self {
        Tmode(bits::with_flag(self.0, 4, val))
    }

    /// Restarts the timer automatically after finished counting down to 0.
    pub fn set_tautorestart(&mut self, val: bool)
        ensures
            *final(self) == old(self).with_tautorestart(val),
    {
        self.0 = (self.0 & !(0x01 << 4usize)) | (((val as u8) & 0x01) << 4usize);
    }

    #[verifier::allow_in_spec]
    pub fn tgated(&self) -> (val: u8)
        returns
            bits::field(self.0, 5, 0x03),
    {
        (self.0 >> 5usize) & 0x03
    }

    /// This value with `tgated` replaced by the low bits of `val`.
    pub open spec fn with_tgated(self, val: u8) -> Self {
        Tmode(bits::with_field(self.0, 5, 0x03, val))
    }

    pub fn set_tgated(&mut self, val: u8)
        ensures
            *final(self) == old(self).with_tgated(val),
    {
        self.0 = (self.0 & !(0x03 << 5usize)) | ((val & 0x03) << 5usize);
    }

    /// Sets the Timer start/stop conditions to Auto mode.
    #[verifier::allow_in_spec]
    pub fn tauto(&self) -> (val: bool)
        returns
            bits::flag(self.0, 7),
    {
        (self.0 >> 7usize) & 0x01 != 0
    }

    /// This value with `tauto` replaced by `val`.
    pub open spec fn with_tauto(self, val: bool) -> Self {
        Tmode(bits::with_flag(self.0, 7, val))
    }

    /// Sets the Timer start/stop conditions to Auto mode.
    pub fn set_tauto(&mut self, val: bool)
        ensures
            *final(self) == old(self).with_tauto(val),
    {
        self.0 = (self.0 & !(0x01 << 7usize)) | (((val as u8) & 0x01) << 7usize);
    }
}

impl Default for Tmode {
    fn default() -> (val: Tmode)
        ensures
            val == Tmode(0),
    {
        Tmode(0)
    }
}

impl Value for Tmode {
    open spec fn bits(self) -> u8 {
        self.0
    }

    open spec fn of_bits(bits: u8) -> Tmode {
        Tmode(bits)
    }

    proof fn lemma_bits_of_bits(bits: u8) {
    }

    fn to_bits(self) -> u8 {
        self.0
    }

    fn from_bits(bits: u8) -> Tmode {
        Tmode(bits)
    }
}

/// The layout of the register `txsel`.
#[derive(Copy, Clone, Eq, PartialEq, Structural)]
pub struct Txsel(pub u8);

impl Txsel {
    #[verifier::allow_in_spec]
    pub fn sigoutsel(&self) -> (val: u8)
        returns
            bits::field(self.0, 0, 0x0f),
    {
        (self.0 >> 0usize) & 0x0f
    }

    /// This value with `sigoutsel` replaced by the low bits of `val`.
    pub open spec fn with_sigoutsel(self, val: u8) -> Self {
        Txsel(bits::with_field(self.0, 0, 0x0f, val))
    }

    pub fn set_sigoutsel(&mut self, val: u8)
        ensures
            *final(self) == old(self).with_sigoutsel(val),
    {
        self.0 = (self.0 & !(0x0f << 0usize)) | ((val & 0x0f) << 0usize);
    }

    #[verifier::allow_in_spec]
    pub fn driversel(&self) -> (val: u8)
        returns
            bits::field(self.0, 4, 0x03),
    {
        (self.0 >> 4usize) & 0x03
    }

    /// This value with `driversel` replaced by the low bits of `val`.
    pub open spec fn with_driversel(self, val: u8) -> Self {
        Txsel(bits::with_field(self.0, 4, 0x03, val))
    }

    pub fn set_driversel(&mut self, val: u8)
        ensures
            *final(self) == old(self).with_driversel(val),
    {
        self.0 = (self.0 & !(0x03 << 4usize)) | ((val & 0x03) << 4usize);
    }

    #[verifier::allow_in_spec]
    pub fn loadmodsel(&self) -> (val: u8)
        returns
            bits::field(self.0, 6, 0x03),
    {
        (self.0 >> 6usize) & 0x03
    }

    /// This value with `loadmodsel` replaced by the low bits of `val`.
    pub open spec fn with_loadmodsel(self, val: u8) -> Self {
        Txsel(bits::with_field(self.0, 6, 0x03, val))
    }

    pub fn set_loadmodsel(&mut self, val: u8)
        ensures
            *final(self) == old(self).with_loadmodsel(val),
    {
        self.0 = (self.0 & !(0x03 << 6usize)) | ((val & 0x03) << 6usize);
    }
}

impl Default for Txsel {
    fn default() -> (val: Txsel)
        ensures
            val == Txsel(0),
    {
        Txsel(0)
    }
}

impl Value for Txsel {
    open spec fn bits(self) -> u8 {
        self.0
    }

    open spec fn of_bits(bits: u8) -> Txsel {
        Txsel(bits)
    }

    proof fn lemma_bits_of_bits(bits: u8) {
    }

    fn to_bits(self) -> u8 {
        self.0
    }

    fn from_bits(bits: u8) -> Txsel {
        Txsel(bits)
    }
}

/// The layout of the register `txbitphase`.
#[derive(Copy, Clone, Eq, PartialEq, Structural)]
pub struct Txbitphase(pub u8);

impl Txbitphase {
    #[verifier::allow_in_spec]
    pub fn txbitphase(&self) -> (val: u8)
        returns
            bits::field(self.0, 0, 0x7f),
    {
        (self.0 >> 0usize) & 0x7f
    }

    /// This value with `txbitphase` replaced by the low bits of `val`.
    pub open spec fn with_txbitphase(self, val: u8) -> Self {
        Txbitphase(bits::with_field(self.0, 0, 0x7f, val))
    }

    pub fn set_txbitphase(&mut self, val: u8)
        ensures
            *final(self) == old(self).with_txbitphase(val),
    {
        self.0 = (self.0 & !(0x7f << 0usize)) | ((val & 0x7f) << 0usize);
    }

    /// If 1 the receive clock may change between Rf and oscilator.
    #[verifier::allow_in_spec]
    pub fn rcvclkchange(&self) -> (val: bool)
        returns
            bits::flag(self.0, 7),
    {
        (self.0 >> 7usize) & 0x01 != 0
    }

    /// This value with `rcvclkchange` replaced by `val`.
    pub open spec fn with_rcvclkchange(self, val: bool) -> Self {
        Txbitphase(bits::with_flag(self.0, 7, val))
    }

    /// If 1 the receive clock may change between Rf and oscilator.
    pub fn set_rcvclkchange(&mut self, val: bool)
        ensures
            *final(self) == old(self).with_rcvclkchange(val),
    {
        self.0 = (self.0 & !(0x01 << 7usize)) | (((val as u8) & 0x01) << 7usize);
    }
}

impl Default for Txbitphase {
    fn default() -> (val: Txbitphase)
        ensures
            val == Txbitphase(0),
    {
        Txbitphase(0)
    }
}

impl Value for Txbitphase {
    open spec fn bits(self) -> u8 {
        self.0
    }

    open spec fn of_bits(bits: u8) -> Txbitphase {
        Txbitphase(bits)
    }

    proof fn lemma_bits_of_bits(bits: u8) {
    }

    fn to_bits(self) -> u8 {
        self.0
    }

    fn from_bits(bits: u8) -> Txbitphase {
        Txbitphase(bits)
    }
}

/// The layout of the register `irq_bak`.
#[derive(Copy, Clone, Eq, PartialEq, Structural)]
pub struct IrqBak(pub u8);

impl IrqBak {
    /// Irq Inv backup
    #[verifier::allow_in_spec]
    pub fn irq_inv_bak(&self) -> (val: bool)
        returns
            bits::flag(self.0, 0),
    {
        (self.0 >> 0usize) & 0x01 != 0
    }

    /// This value with `irq_inv_bak` replaced by `val`.
    pub open spec fn with_irq_inv_bak(self, val: bool) -> Self {
        IrqBak(bits::with_flag(self.0, 0, val))
    }

    /// Irq Inv backup
    pub fn set_irq_inv_bak(&mut self, val: bool)
        ensures
            *final(self) == old(self).with_irq_inv_bak(val),
    {
        self.0 = (self.0 & !(0x01 << 0usize)) | (((val as u8) & 0x01) << 0usize);
    }

    /// Irq pushpull backup
    #[verifier::allow_in_spec]
    pub fn irq_pushpull_bak(&self) -> (val: bool)
        returns
            bits::flag(self.0, 1),
    {
        (self.0 >> 1usize) & 0x01 != 0
    }

    /// This value with `irq_pushpull_bak` replaced by `val`.
    pub open spec fn with_irq_pushpull_bak(self, val: bool) -> Self {
        IrqBak(bits::with_flag(self.0, 1, val))
    }

    /// Irq pushpull backup
    pub fn set_irq_pushpull_bak(&mut self, val: bool)
        ensures
            *final(self) == old(self).with_irq_pushpull_bak(val),
    {
        self.0 = (self.0 & !(0x01 << 1usize)) | (((val as u8) & 0x01) << 1usize);
    }
}

impl Default for IrqBak {
    fn default() -> (val: IrqBak)
        ensures
            val == IrqBak(0),
    {
        IrqBak(0)
    }
}

impl Value for IrqBak {
    open spec fn bits(self) -> u8 {
        self.0
    }

    open spec fn of_bits(bits: u8) -> IrqBak {
        IrqBak(bits)
    }

    proof fn lemma_bits_of_bits(bits: u8) {
    }

    fn to_bits(self) -> u8 {
        self.0
    }

    fn from_bits(bits: u8) -> IrqBak {
        IrqBak(bits)
    }
}

/// The layout of the register `rxtreshold`.
#[derive(Copy, Clone, Eq, PartialEq, Structural)]
pub struct Rxtreshold(pub u8);

impl Rxtreshold {
    #[verifier::allow_in_spec]
    pub fn collevel(&self) -> (val: u8)
        returns
            bits::field(self.0, 0, 0x07),
    {
        (self.0 >> 0usize) & 0x07
    }

    /// This value with `collevel` replaced by the low bits of `val`.
    pub open spec fn with_collevel(self, val: u8) -> Self {
        Rxtreshold(bits::with_field(self.0, 0, 0x07, val))
    }

    pub fn set_collevel(&mut self, val: u8)
        ensures
            *final(self) == old(self).with_collevel(val),
    {
        self.0 = (self.0 & !(0x07 << 0usize)) | ((val & 0x07) << 0usize);
    }

    #[verifier::allow_in_spec]
    pub fn minlevel(&self) -> (val: u8)
        returns
            bits::field(self.0, 4, 0x0f),
    {
        (self.0 >> 4usize) & 0x0f
    }

    /// This value with `minlevel` replaced by the low bits of `val`.
    pub open spec fn with_minlevel(self, val: u8) -> Self {
        Rxtreshold(bits::with_field(self.0, 4, 0x0f, val))
    }

    pub fn set_minlevel(&mut self, val: u8)
        ensures
            *final(self) == old(self).with_minlevel(val),
    {
        self.0 = (self.0 & !(0x0f << 4usize)) | ((val & 0x0f) << 4usize);
    }
}

impl Default for Rxtreshold {
    fn default() -> (val: Rxtreshold)
        ensures
            val == Rxtreshold(0),
    {
        Rxtreshold(0)
    }
}

impl Value for Rxtreshold {
    open spec fn bits(self) -> u8 {
        self.0
    }

    open spec fn of_bits(bits: u8) -> Rxtreshold {
        Rxtreshold(bits)
    }

    proof fn lemma_bits_of_bits(bits: u8) {
    }

    fn to_bits(self) -> u8 {
        self.0
    }

    fn from_bits(bits: u8) -> Rxtreshold {
        Rxtreshold(bits)
    }
}

/// The layout of the register `commien`.
#[derive(Copy, Clone, Eq, PartialEq, Structural)]
pub struct Commien(pub u8);

impl Commien {
    /// Timer Interrupt Enable/Request.
    #[verifier::allow_in_spec]
    pub fn timeri(&self) -> (val: bool)
        returns
            bits::flag(self.0, 0),
    {
        (self.0 >> 0usize) & 0x01 != 0
    }

    /// This value with `timeri` replaced by `val`.
    pub open spec fn with_timeri(self, val: bool) -> Self {
        Commien(bits::with_flag(self.0, 0, val))
    }

    /// Timer Interrupt Enable/Request.
    pub fn set_timeri(&mut self, val: bool)
        ensures
            *final(self) == old(self).with_timeri(val),
    {
        self.0 = (self.0 & !(0x01 << 0usize)) | (((val as u8) & 0x01) << 0usize);
    }

    /// Error Interrupt Enable/Request.
    #[verifier::allow_in_spec]
    pub fn erri(&self) -> (val: bool)
        returns
            bits::flag(self.0, 1),
    {
        (self.0 >> 1usize) & 0x01 != 0
    }

    /// This value with `erri` replaced by `val`.
    pub open spec fn with_erri(self, val: bool) -> Self {
        Commien(bits::with_flag(self.0, 1, val))
    }

    /// Error Interrupt Enable/Request.
    pub fn set_erri(&mut self, val: bool)
        ensures
            *final(self) == old(self).with_erri(val),
    {
        self.0 = (self.0 & !(0x01 << 1usize)) | (((val as u8) & 0x01) << 1usize);
    }

    /// LoAlert Interrupt Enable/Request.
    #[verifier::allow_in_spec]
    pub fn loalerti(&self) -> (val: bool)
        returns
            bits::flag(self.0, 2),
    {
        (self.0 >> 2usize) & 0x01 != 0
    }

    /// This value with `loalerti` replaced by `val`.
    pub open spec fn with_loalerti(self, val: bool) -> Self {
        Commien(bits::with_flag(self.0, 2, val))
    }

    /// LoAlert Interrupt Enable/Request.
    pub fn set_loalerti(&mut self, val: bool)
        ensures
            *final(self) == old(self).with_loalerti(val),
    {
        self.0 = (self.0 & !(0x01 << 2usize)) | (((val as u8) & 0x01) << 2usize);
    }

    /// HiAlert Interrupt Enable/Request.
    #[verifier::allow_in_spec]
    pub fn hialerti(&self) -> (val: bool)
        returns
            bits::flag(self.0, 3),
    {
        (self.0 >> 3usize) & 0x01 != 0
    }

    /// This value with `hialerti` replaced by `val`.
    pub open spec fn with_hialerti(self, val: bool) -> Self {
        Commien(bits::with_flag(self.0, 3, val))
    }

    /// HiAlert Interrupt Enable/Request.
    pub fn set_hialerti(&mut self, val: bool)
        ensures
            *final(self) == old(self).with_hialerti(val),
    {
        self.0 = (self.0 & !(0x01 << 3usize)) | (((val as u8) & 0x01) << 3usize);
    }

    /// Idle Interrupt Enable/Request.
    #[verifier::allow_in_spec]
    pub fn idlei(&self) -> (val: bool)
        returns
            bits::flag(self.0, 4),
    {
        (self.0 >> 4usize) & 0x01 != 0
    }

    /// This value with `idlei` replaced by `val`.
    pub open spec fn with_idlei(self, val: bool) -> Self {
        Commien(bits::with_flag(self.0, 4, val))
    }

    /// Idle Interrupt Enable/Request.
    pub fn set_idlei(&mut self, val: bool)
        ensures
            *final(self) == old(self).with_idlei(val),
    {
        self.0 = (self.0 & !(0x01 << 4usize)) | (((val as u8) & 0x01) << 4usize);
    }

    /// Receive Interrupt Enable/Request.
    #[verifier::allow_in_spec]
    pub fn rxi(&self) -> (val: bool)
        returns
            bits::flag(self.0, 5),
    {
        (self.0 >> 5usize) & 0x01 != 0
    }

    /// This value with `rxi` replaced by `val`.
    pub open spec fn with_rxi(self, val: bool) -> Self {
        Commien(bits::with_flag(self.0, 5, val))
    }

    /// Receive Interrupt Enable/Request.
    pub fn set_rxi(&mut self, val: bool)
        ensures
            *final(self) == old(self).with_rxi(val),
    {
        self.0 = (self.0 & !(0x01 << 5usize)) | (((val as u8) & 0x01) << 5usize);
    }

    /// Transmit Interrupt Enable/Request.
    #[verifier::allow_in_spec]
    pub fn txi(&self) -> (val: bool)
        returns
            bits::flag(self.0, 6),
    {
        (self.0 >> 6usize) & 0x01 != 0
    }

    /// This value with `txi` replaced by `val`.
    pub open spec fn with_txi(self, val: bool) -> Self {
        Commien(bits::with_flag(self.0, 6, val))
    }

    /// Transmit Interrupt Enable/Request.
    pub fn set_txi(&mut self, val: bool)
        ensures
            *final(self) == old(self).with_txi(val),
    {
        self.0 = (self.0 & !(0x01 << 6usize)) | (((val as u8) & 0x01) << 6usize);
    }

    /// Inverts the output of IRQ Pin.
    #[verifier::allow_in_spec]
    pub fn irqinv(&self) -> (val: bool)
        returns
            bits::flag(self.0, 7),
    {
        (self.0 >> 7usize) & 0x01 != 0
    }

    /// This value with `irqinv` replaced by `val`.
    pub open spec fn with_irqinv(self, val: bool) -> Self {
        Commien(bits::with_flag(self.0, 7, val))
    }

    /// Inverts the output of IRQ Pin.
    pub fn set_irqinv(&mut self, val: bool)
        ensures
            *final(self) == old(self).with_irqinv(val),
    {
        self.0 = (self.0 & !(0x01 << 7usize)) | (((val as u8) & 0x01) << 7usize);
    }
}

impl Default for Commien {
    fn default() -> (val: Commien)
        ensures
            val == Commien(0),
    {
        Commien(0)
    }
}

impl Value for Commien {
    open spec fn bits(self) -> u8 {
        self.0
    }

    open spec fn of_bits(bits: u8) -> Commien {
        Commien(bits)
    }

    proof fn lemma_bits_of_bits(bits: u8) {
    }

    fn to_bits(self) -> u8 {
        self.0
    }

    fn from_bits(bits: u8) -> Commien {
        Commien(bits)
    }
}

/// The layout of the register `modgsp`.
#[derive(Copy, Clone, Eq, PartialEq, Structural)]
pub struct Modgsp(pub u8);

impl Modgsp {
    #[verifier::allow_in_spec]
    pub fn modgsp(&self) -> (val: u8)
        returns
            bits::field(self.0, 0, 0x3f),
    {
        (self.0 >> 0usize) & 0x3f
    }

    /// This value with `modgsp` replaced by the low bits of `val`.
    pub open spec fn with_modgsp(self, val: u8) -> Self {
        Modgsp(bits::with_field(self.0, 0, 0x3f, val))
    }

    pub fn set_modgsp(&mut self, val: u8)
        ensures
            *final(self) == old(self).with_modgsp(val),
    {
        self.0 = (self.0 & !(0x3f << 0usize)) | ((val & 0x3f) << 0usize);
    }
}

impl Default for Modgsp {
    fn default() -> (val: Modgsp)
        ensures
            val == Modgsp(0),
    {
        Modgsp(0)
    }
}

impl Value for Modgsp {
    open spec fn bits(self) -> u8 {
        self.0
    }

    open spec fn of_bits(bits: u8) -> Modgsp {
        Modgsp(bits)
    }

    proof fn lemma_bits_of_bits(bits: u8) {
    }

    fn to_bits(self) -> u8 {
        self.0
    }

    fn from_bits(bits: u8) -> Modgsp {
        Modgsp(bits)
    }
}

/// The layout of the register `rxsel`.
#[derive(Copy, Clone, Eq, PartialEq, Structural)]
pub struct Rxsel(pub u8);

impl Rxsel {
    #[verifier::allow_in_spec]
    pub fn rxwait(&self) -> (val: u8)
        returns
            bits::field(self.0, 0, 0x3f),
    {
        (self.0 >> 0usize) & 0x3f
    }

    /// This value with `rxwait` replaced by the low bits of `val`.
    pub open spec fn with_rxwait(self, val: u8) -> Self {
        Rxsel(bits::with_field(self.0, 0, 0x3f, val))
    }

    pub fn set_rxwait(&mut self, val: u8)
        ensures
            *final(self) == old(self).with_rxwait(val),
    {
        self.0 = (self.0 & !(0x3f << 0usize)) | ((val & 0x3f) << 0usize);
    }

    #[verifier::allow_in_spec]
    pub fn uartsel(&self) -> (val: u8)
        returns
            bits::field(self.0, 6, 0x03),
    {
        (self.0 >> 6usize) & 0x03
    }

    /// This value with `uartsel` replaced by the low bits of `val`.
    pub open spec fn with_uartsel(self, val: u8) -> Self {
        Rxsel(bits::with_field(self.0, 6, 0x03, val))
    }

    pub fn set_uartsel(&mut self, val: u8)
        ensures
            *final(self) == old(self).with_uartsel(val),
    {
        self.0 = (self.0 & !(0x03 << 6usize)) | ((val & 0x03) << 6usize);
    }
}

impl Default for Rxsel {
    fn default() -> (val: Rxsel)
        ensures
            val == Rxsel(0),
    {
        Rxsel(0)
    }
}

impl Value for Rxsel {
    open spec fn bits(self) -> u8 {
        self.0
    }

    open spec fn of_bits(bits: u8) -> Rxsel {
        Rxsel(bits)
    }

    proof fn lemma_bits_of_bits(bits: u8) {
    }

    fn to_bits(self) -> u8 {
        self.0
    }

    fn from_bits(bits: u8) -> Rxsel {
        Rxsel(bits)
    }
}

/// The layout of the register `commirq`.
#[derive(Copy, Clone, Eq, PartialEq, Structural)]
pub struct Commirq(pub u8);

impl Commirq {
    /// Timer Interrupt Enable/Request.
    #[verifier::allow_in_spec]
    pub fn timeri(&self) -> (val: bool)
        returns
            bits::flag(self.0, 0),
    {
        (self.0 >> 0usize) & 0x01 != 0
    }

    /// This value with `timeri` replaced by `val`.
    pub open spec fn with_timeri(self, val: bool) -> Self {
        Commirq(bits::with_flag(self.0, 0, val))
    }

    /// Timer Interrupt Enable/Request.
    pub fn set_timeri(&mut self, val: bool)
        ensures
            *final(self) == old(self).with_timeri(val),
    {
        self.0 = (self.0 & !(0x01 << 0usize)) | (((val as u8) & 0x01) << 0usize);
    }

    /// Error Interrupt Enable/Request.
    #[verifier::allow_in_spec]
    pub fn erri(&self) -> (val: bool)
        returns
            bits::flag(self.0, 1),
    {
        (self.0 >> 1usize) & 0x01 != 0
    }

    /// This value with `erri` replaced by `val`.
    pub open spec fn with_erri(self, val: bool) -> Self {
        Commirq(bits::with_flag(self.0, 1, val))
    }

    /// Error Interrupt Enable/Request.
    pub fn set_erri(&mut self, val: bool)
        ensures
            *final(self) == old(self).with_erri(val),
    {
        self.0 = (self.0 & !(0x01 << 1usize)) | (((val as u8) & 0x01) << 1usize);
    }

    /// LoAlert Interrupt Enable/Request.
    #[verifier::allow_in_spec]
    pub fn loalerti(&self) -> (val: bool)
        returns
            bits::flag(self.0, 2),
    {
        (self.0 >> 2usize) & 0x01 != 0
    }

    /// This value with `loalerti` replaced by `val`.
    pub open spec fn with_loalerti(self, val: bool) -> Self {
        Commirq(bits::with_flag(self.0, 2, val))
    }

    /// LoAlert Interrupt Enable/Request.
    pub fn set_loalerti(&mut self, val: bool)
        ensures
            *final(self) == old(self).with_loalerti(val),
    {
        self.0 = (self.0 & !(0x01 << 2usize)) | (((val as u8) & 0x01) << 2usize);
    }

    /// HiAlert Interrupt Enable/Request.
    #[verifier::allow_in_spec]
    pub fn hialerti(&self) -> (val: bool)
        returns
            bits::flag(self.0, 3),
    {
        (self.0 >> 3usize) & 0x01 != 0
    }

    /// This value with `hialerti` replaced by `val`.
    pub open spec fn with_hialerti(self, val: bool) -> Self {
        Commirq(bits::with_flag(self.0, 3, val))
    }

    /// HiAlert Interrupt Enable/Request.
    pub fn set_hialerti(&mut self, val: bool)
        ensures
            *final(self) == old(self).with_hialerti(val),
    {
        self.0 = (self.0 & !(0x01 << 3usize)) | (((val as u8) & 0x01) << 3usize);
    }

    /// Idle Interrupt Enable/Request.
    #[verifier::allow_in_spec]
    pub fn idlei(&self) -> (val: bool)
        returns
            bits::flag(self.0, 4),
    {
        (self.0 >> 4usize) & 0x01 != 0
    }

    /// This value with `idlei` replaced by `val`.
    pub open spec fn with_idlei(self, val: bool) -> Self {
        Commirq(bits::with_flag(self.0, 4, val))
    }

    /// Idle Interrupt Enable/Request.
    pub fn set_idlei(&mut self, val: bool)
        ensures
            *final(self) == old(self).with_idlei(val),
    {
        self.0 = (self.0 & !(0x01 << 4usize)) | (((val as u8) & 0x01) << 4usize);
    }

    /// Receive Interrupt Enable/Request.
    #[verifier::allow_in_spec]
    pub fn rxi(&self) -> (val: bool)
        returns
            bits::flag(self.0, 5),
    {
        (self.0 >> 5usize) & 0x01 != 0
    }

    /// This value with `rxi` replaced by `val`.
    pub open spec fn with_rxi(self, val: bool) -> Self {
        Commirq(bits::with_flag(self.0, 5, val))
    }

    /// Receive Interrupt Enable/Request.
    pub fn set_rxi(&mut self, val: bool)
        ensures
            *final(self) == old(self).with_rxi(val),
    {
        self.0 = (self.0 & !(0x01 << 5usize)) | (((val as u8) & 0x01) << 5usize);
    }

    /// Transmit Interrupt Enable/Request.
    #[verifier::allow_in_spec]
    pub fn txi(&self) -> (val: bool)
        returns
            bits::flag(self.0, 6),
    {
        (self.0 >> 6usize) & 0x01 != 0
    }

    /// This value with `txi` replaced by `val`.
    pub open spec fn with_txi(self, val: bool) -> Self {
        Commirq(bits::with_flag(self.0, 6, val))
    }

    /// Transmit Interrupt Enable/Request.
    pub fn set_txi(&mut self, val: bool)
        ensures
            *final(self) == old(self).with_txi(val),
    {
        self.0 = (self.0 & !(0x01 << 6usize)) | (((val as u8) & 0x01) << 6usize);
    }

    /// Bit position to set/clear dedicated IRQ bits.
    #[verifier::allow_in_spec]
    pub fn set(&self) -> (val: bool)
        returns
            bits::flag(self.0, 7),
    {
        (self.0 >> 7usize) & 0x01 != 0
    }

    /// This value with `set` replaced by `val`.
    pub open spec fn with_set(self, val: bool) -> Self {
        Commirq(bits::with_flag(self.0, 7, val))
    }

    /// Bit position to set/clear dedicated IRQ bits.
    pub fn set_set(&mut self, val: bool)
        ensures
            *final(self) == old(self).with_set(val),
    {
        self.0 = (self.0 & !(0x01 << 7usize)) | (((val as u8) & 0x01) << 7usize);
    }
}

impl Default for Commirq {
    fn default() -> (val: Commirq)
        ensures
            val == Commirq(0),
    {
        Commirq(0)
    }
}

impl Value for Commirq {
    open spec fn bits(self) -> u8 {
        self.0
    }

    open spec fn of_bits(bits: u8) -> Commirq {
        Commirq(bits)
    }

    proof fn lemma_bits_of_bits(bits: u8) {
    }

    fn to_bits(self) -> u8 {
        self.0
    }

    fn from_bits(bits: u8) -> Commirq {
        Commirq(bits)
    }
}

/// The layout of the register `command`.
#[derive(Copy, Clone, Eq, PartialEq, Structural)]
pub struct Command(pub u8);

impl Command {
    /// Run a command
    #[verifier::allow_in_spec]
    pub fn command(&self) -> (val: CommandVal)
        returns
            CommandVal(bits::field(self.0, 0, 0x0f)),
    {
        CommandVal((self.0 >> 0usize) & 0x0f)
    }

    /// This value with `command` replaced by `val`.
    pub open spec fn with_command(self, val: CommandVal) -> Self {
        Command(bits::with_field(self.0, 0, 0x0f, val.0))
    }

    /// Run a command
    pub fn set_command(&mut self, val: CommandVal)
        ensures
            *final(self) == old(self).with_command(val),
    {
        self.0 = (self.0 & !(0x0f << 0usize)) | ((val.0 & 0x0f) << 0usize);
    }

    /// Switches FM175XX to Power Down mode.
    #[verifier::allow_in_spec]
    pub fn powerdown(&self) -> (val: bool)
        returns
            bits::flag(self.0, 4),
    {
        (self.0 >> 4usize) & 0x01 != 0
    }

    /// This value with `powerdown` replaced by `val`.
    pub open spec fn with_powerdown(self, val: bool) -> Self {
        Command(bits::with_flag(self.0, 4, val))
    }

    /// Switches FM175XX to Power Down mode.
    pub fn set_powerdown(&mut self, val: bool)
        ensures
            *final(self) == old(self).with_powerdown(val),
    {
        self.0 = (self.0 & !(0x01 << 4usize)) | (((val as u8) & 0x01) << 4usize);
    }

    /// Switches the receiver on/off.
    #[verifier::allow_in_spec]
    pub fn rcvoff(&self) -> (val: bool)
        returns
            bits::flag(self.0, 5),
    {
        (self.0 >> 5usize) & 0x01 != 0
    }

    /// This value with `rcvoff` replaced by `val`.
    pub open spec fn with_rcvoff(self, val: bool) -> Self {
        Command(bits::with_flag(self.0, 5, val))
    }

    /// Switches the receiver on/off.
    pub fn set_rcvoff(&mut self, val: bool)
        ensures
            *final(self) == old(self).with_rcvoff(val),
    {
        self.0 = (self.0 & !(0x01 << 5usize)) | (((val as u8) & 0x01) << 5usize);
    }
}

impl Default for Command {
    fn default() -> (val: Command)
        ensures
            val == Command(0),
    {
        Command(0)
    }
}

impl Value for Command {
    open spec fn bits(self) -> u8 {
        self.0
    }

    open spec fn of_bits(bits: u8) -> Command {
        Command(bits)
    }

    proof fn lemma_bits_of_bits(bits: u8) {
    }

    fn to_bits(self) -> u8 {
        self.0
    }

    fn from_bits(bits: u8) -> Command {
        Command(bits)
    }
}

/// The layout of the register `bitframing`.
#[derive(Copy, Clone, Eq, PartialEq, Structural)]
pub struct Bitframing(pub u8);

impl Bitframing {
    /// Used for bitwise frame format transmission. Defines the number of bits that need to be
    /// sent in the last byte. 0 means that all bits of the last byte are to be sent.
    #[verifier::allow_in_spec]
    pub fn txlastbits(&self) -> (val: u8)
        returns
            bits::field(self.0, 0, 0x07),
    {
        (self.0 >> 0usize) & 0x07
    }

    /// This value with `txlastbits` replaced by the low bits of `val`.
    pub open spec fn with_txlastbits(self, val: u8) -> Self {
        Bitframing(bits::with_field(self.0, 0, 0x07, val))
    }

    /// Used for bitwise frame format transmission. Defines the number of bits that need to be
    /// sent in the last byte. 0 means that all bits of the last byte are to be sent.
    pub fn set_txlastbits(&mut self, val: u8)
        ensures
            *final(self) == old(self).with_txlastbits(val),
    {
        self.0 = (self.0 & !(0x07 << 0usize)) | ((val & 0x07) << 0usize);
    }

    /// Used for receiving in bit frame format. RxAlign defines the data that needs to be stored
    /// in the FIFO to receive the first bit of data location. Subsequent received data bits are
    /// stored in the next position. This bit is only used for bitwise anticollision at 106
    /// kbit/s. Set to 0 in other modes.
    #[verifier::allow_in_spec]
    pub fn rxalign(&self) -> (val: u8)
        returns
            bits::field(self.0, 4, 0x07),
    {
        (self.0 >> 4usize) & 0x07
    }

    /// This value with `rxalign` replaced by the low bits of `val`.
    pub open spec fn with_rxalign(self, val: u8) -> Self {
        Bitframing(bits::with_field(self.0, 4, 0x07, val))
    }

    /// Used for receiving in bit frame format. RxAlign defines the data that needs to be stored
    /// in the FIFO to receive the first bit of data location. Subsequent received data bits are
    /// stored in the next position. This bit is only used for bitwise anticollision at 106
    /// kbit/s. Set to 0 in other modes.
    pub fn set_rxalign(&mut self, val: u8)
        ensures
            *final(self) == old(self).with_rxalign(val),
    {
        self.0 = (self.0 & !(0x07 << 4usize)) | ((val & 0x07) << 4usize);
    }

    /// Starts transmission in transceive command if set to 1.
    #[verifier::allow_in_spec]
    pub fn startsend(&self) -> (val: bool)
        returns
            bits::flag(self.0, 7),
    {
        (self.0 >> 7usize) & 0x01 != 0
    }

    /// This value with `startsend` replaced by `val`.
    pub open spec fn with_startsend(self, val: bool) -> Self {
        Bitframing(bits::with_flag(self.0, 7, val))
    }

    /// Starts transmission in transceive command if set to 1.
    pub fn set_startsend(&mut self, val: bool)
        ensures
            *final(self) == old(self).with_startsend(val),
    {
        self.0 = (self.0 & !(0x01 << 7usize)) | (((val as u8) & 0x01) << 7usize);
    }
}

impl Default for Bitframing {
    fn default() -> (val: Bitframing)
        ensures
            val == Bitframing(0),
    {
        Bitframing(0)
    }
}

impl Value for Bitframing {
    open spec fn bits(self) -> u8 {
        self.0
    }

    open spec fn of_bits(bits: u8) -> Bitframing {
        Bitframing(bits)
    }

    proof fn lemma_bits_of_bits(bits: u8) {
    }

    fn to_bits(self) -> u8 {
        self.0
    }

    fn from_bits(bits: u8) -> Bitframing {
        Bitframing(bits)
    }
}

/// The layout of the register `divien`.
#[derive(Copy, Clone, Eq, PartialEq, Structural)]
pub struct Divien(pub u8);

impl Divien {
    /// RF Off Interrupt Enable/Request.
    #[verifier::allow_in_spec]
    pub fn rfoffi(&self) -> (val: bool)
        returns
            bits::flag(self.0, 0),
    {
        (self.0 >> 0usize) & 0x01 != 0
    }

    /// This value with `rfoffi` replaced by `val`.
    pub open spec fn with_rfoffi(self, val: bool) -> Self {
        Divien(bits::with_flag(self.0, 0, val))
    }

    /// RF Off Interrupt Enable/Request.
    pub fn set_rfoffi(&mut self, val: bool)
        ensures
            *final(self) == old(self).with_rfoffi(val),
    {
        self.0 = (self.0 & !(0x01 << 0usize)) | (((val as u8) & 0x01) << 0usize);
    }

    /// RF On Interrupt Enable/Request.
    #[verifier::allow_in_spec]
    pub fn rfoni(&self) -> (val: bool)
        returns
            bits::flag(self.0, 1),
    {
        (self.0 >> 1usize) & 0x01 != 0
    }

    /// This value with `rfoni` replaced by `val`.
    pub open spec fn with_rfoni(self, val: bool) -> Self {
        Divien(bits::with_flag(self.0, 1, val))
    }

    /// RF On Interrupt Enable/Request.
    pub fn set_rfoni(&mut self, val: bool)
        ensures
            *final(self) == old(self).with_rfoni(val),
    {
        self.0 = (self.0 & !(0x01 << 1usize)) | (((val as u8) & 0x01) << 1usize);
    }

    /// CRC Interrupt Enable/Request.
    #[verifier::allow_in_spec]
    pub fn crci(&self) -> (val: bool)
        returns
            bits::flag(self.0, 2),
    {
        (self.0 >> 2usize) & 0x01 != 0
    }

    /// This value with `crci` replaced by `val`.
    pub open spec fn with_crci(self, val: bool) -> Self {
        Divien(bits::with_flag(self.0, 2, val))
    }

    /// CRC Interrupt Enable/Request.
    pub fn set_crci(&mut self, val: bool)
        ensures
            *final(self) == old(self).with_crci(val),
    {
        self.0 = (self.0 & !(0x01 << 2usize)) | (((val as u8) & 0x01) << 2usize);
    }

    /// Mode Interrupt Enable/Request.
    #[verifier::allow_in_spec]
    pub fn modei(&self) -> (val: bool)
        returns
            bits::flag(self.0, 3),
    {
        (self.0 >> 3usize) & 0x01 != 0
    }

    /// This value with `modei` replaced by `val`.
    pub open spec fn with_modei(self, val: bool) -> Self {
        Divien(bits::with_flag(self.0, 3, val))
    }

    /// Mode Interrupt Enable/Request.
    pub fn set_modei(&mut self, val: bool)
        ensures
            *final(self) == old(self).with_modei(val),
    {
        self.0 = (self.0 & !(0x01 << 3usize)) | (((val as u8) & 0x01) << 3usize);
    }

    /// SiginAct Interrupt Enable/Request.
    #[verifier::allow_in_spec]
    pub fn siginact(&self) -> (val: bool)
        returns
            bits::flag(self.0, 4),
    {
        (self.0 >> 4usize) & 0x01 != 0
    }

    /// This value with `siginact` replaced by `val`.
    pub open spec fn with_siginact(self, val: bool) -> Self {
        Divien(bits::with_flag(self.0, 4, val))
    }

    /// SiginAct Interrupt Enable/Request.
    pub fn set_siginact(&mut self, val: bool)
        ensures
            *final(self) == old(self).with_siginact(val),
    {
        self.0 = (self.0 & !(0x01 << 4usize)) | (((val as u8) & 0x01) << 4usize);
    }

    /// Sets the IRQ pin to Push Pull mode.
    #[verifier::allow_in_spec]
    pub fn irqpushpull(&self) -> (val: bool)
        returns
            bits::flag(self.0, 7),
    {
        (self.0 >> 7usize) & 0x01 != 0
    }

    /// This value with `irqpushpull` replaced by `val`.
    pub open spec fn with_irqpushpull(self, val: bool) -> Self {
        Divien(bits::with_flag(self.0, 7, val))
    }

    /// Sets the IRQ pin to Push Pull mode.
    pub fn set_irqpushpull(&mut self, val: bool)
        ensures
            *final(self) == old(self).with_irqpushpull(val),
    {
        self.0 = (self.0 & !(0x01 << 7usize)) | (((val as u8) & 0x01) << 7usize);
    }
}

impl Default for Divien {
    fn default() -> (val: Divien)
        ensures
            val == Divien(0),
    {
        Divien(0)
    }
}

impl Value for Divien {
    open spec fn bits(self) -> u8 {
        self.0
    }

    open spec fn of_bits(bits: u8) -> Divien {
        Divien(bits)
    }

    proof fn lemma_bits_of_bits(bits: u8) {
    }

    fn to_bits(self) -> u8 {
        self.0
    }

    fn from_bits(bits: u8) -> Divien {
        Divien(bits)
    }
}

/// The layout of the register `rfcfg`.
#[derive(Copy, Clone, Eq, PartialEq, Structural)]
pub struct Rfcfg(pub u8);

impl Rfcfg {
    /// Sensitivity of the RF level detector
    #[verifier::allow_in_spec]
    pub fn rflevel(&self) -> (val: u8)
        returns
            bits::field(self.0, 0, 0x0f),
    {
        (self.0 >> 0usize) & 0x0f
    }

    /// This value with `rflevel` replaced by the low bits of `val`.
    pub open spec fn with_rflevel(self, val: u8) -> Self {
        Rfcfg(bits::with_field(self.0, 0, 0x0f, val))
    }

    /// Sensitivity of the RF level detector
    pub fn set_rflevel(&mut self, val: u8)
        ensures
            *final(self) == old(self).with_rflevel(val),
    {
        self.0 = (self.0 & !(0x0f << 0usize)) | ((val & 0x0f) << 0usize);
    }

    /// Receiver gain
    #[verifier::allow_in_spec]
    pub fn rxgain(&self) -> (val: Rxgain)
        returns
            Rxgain(bits::field(self.0, 4, 0x07)),
    {
        Rxgain((self.0 >> 4usize) & 0x07)
    }

    /// This value with `rxgain` replaced by `val`.
    pub open spec fn with_rxgain(self, val: Rxgain) -> Self {
        Rfcfg(bits::with_field(self.0, 4, 0x07, val.0))
    }

    /// Receiver gain
    pub fn set_rxgain(&mut self, val: Rxgain)
        ensures
            *final(self) == old(self).with_rxgain(val),
    {
        self.0 = (self.0 & !(0x07 << 4usize)) | ((val.0 & 0x07) << 4usize);
    }

    /// Activates the RF Level detector amplifier.
    #[verifier::allow_in_spec]
    pub fn rflevelamp(&self) -> (val: bool)
        returns
            bits::flag(self.0, 7),
    {
        (self.0 >> 7usize) & 0x01 != 0
    }

    /// This value with `rflevelamp` replaced by `val`.
    pub open spec fn with_rflevelamp(self, val: bool) -> Self {
        Rfcfg(bits::with_flag(self.0, 7, val))
    }

    /// Activates the RF Level detector amplifier.
    pub fn set_rflevelamp(&mut self, val: bool)
        ensures
            *final(self) == old(self).with_rflevelamp(val),
    {
        self.0 = (self.0 & !(0x01 << 7usize)) | (((val as u8) & 0x01) << 7usize);
    }
}

impl Default for Rfcfg {
    fn default() -> (val: Rfcfg)
        ensures
            val == Rfcfg(0),
    {
        Rfcfg(0)
    }
}

impl Value for Rfcfg {
    open spec fn bits(self) -> u8 {
        self.0
    }

    open spec fn of_bits(bits: u8) -> Rfcfg {
        Rfcfg(bits)
    }

    proof fn lemma_bits_of_bits(bits: u8) {
    }

    fn to_bits(self) -> u8 {
        self.0
    }

    fn from_bits(bits: u8) -> Rfcfg {
        Rfcfg(bits)
    }
}

/// The layout of the register `lpcd_misc`.
#[derive(Copy, Clone, Eq, PartialEq, Structural)]
pub struct LpcdMisc(pub u8);

impl LpcdMisc {
    /// lPCD test mode
    #[verifier::allow_in_spec]
    pub fn calib_vmid_en(&self) -> (val: bool)
        returns
            bits::flag(self.0, 0),
    {
        (self.0 >> 0usize) & 0x01 != 0
    }

    /// This value with `calib_vmid_en` replaced by `val`.
    pub open spec fn with_calib_vmid_en(self, val: bool) -> Self {
        LpcdMisc(bits::with_flag(self.0, 0, val))
    }

    /// lPCD test mode
    pub fn set_calib_vmid_en(&mut self, val: bool)
        ensures
            *final(self) == old(self).with_calib_vmid_en(val),
    {
        self.0 = (self.0 & !(0x01 << 0usize)) | (((val as u8) & 0x01) << 0usize);
    }

    /// LPCD amp en select
    #[verifier::allow_in_spec]
    pub fn amp_en_sel(&self) -> (val: bool)
        returns
            bits::flag(self.0, 2),
    {
        (self.0 >> 2usize) & 0x01 != 0
    }

    /// This value with `amp_en_sel` replaced by `val`.
    pub open spec fn with_amp_en_sel(self, val: bool) -> Self {
        LpcdMisc(bits::with_flag(self.0, 2, val))
    }

    /// LPCD amp en select
    pub fn set_amp_en_sel(&mut self, val: bool)
        ensures
            *final(self) == old(self).with_amp_en_sel(val),
    {
        self.0 = (self.0 & !(0x01 << 2usize)) | (((val as u8) & 0x01) << 2usize);
    }
}

impl Default for LpcdMisc {
    fn default() -> (val: LpcdMisc)
        ensures
            val == LpcdMisc(0),
    {
        LpcdMisc(0)
    }
}

impl Value for LpcdMisc {
    open spec fn bits(self) -> u8 {
        self.0
    }

    open spec fn of_bits(bits: u8) -> LpcdMisc {
        LpcdMisc(bits)
    }

    proof fn lemma_bits_of_bits(bits: u8) {
    }

    fn to_bits(self) -> u8 {
        self.0
    }

    fn from_bits(bits: u8) -> LpcdMisc {
        LpcdMisc(bits)
    }
}

/// The layout of the register `lpcd_rft2`.
#[derive(Copy, Clone, Eq, PartialEq, Structural)]
pub struct LpcdRft2(pub u8);

impl LpcdRft2 {
    /// vdem of lpcd
    #[verifier::allow_in_spec]
    pub fn aux2_vdem_lpcd(&self) -> (val: bool)
        returns
            bits::flag(self.0, 0),
    {
        (self.0 >> 0usize) & 0x01 != 0
    }

    /// This value with `aux2_vdem_lpcd` replaced by `val`.
    pub open spec fn with_aux2_vdem_lpcd(self, val: bool) -> Self {
        LpcdRft2(bits::with_flag(self.0, 0, val))
    }

    /// vdem of lpcd
    pub fn set_aux2_vdem_lpcd(&mut self, val: bool)
        ensures
            *final(self) == old(self).with_aux2_vdem_lpcd(val),
    {
        self.0 = (self.0 & !(0x01 << 0usize)) | (((val as u8) & 0x01) << 0usize);
    }

    /// voltage of charecap
    #[verifier::allow_in_spec]
    pub fn aux2_vp_lpcd(&self) -> (val: bool)
        returns
            bits::flag(self.0, 1),
    {
        (self.0 >> 1usize) & 0x01 != 0
    }

    /// This value with `aux2_vp_lpcd` replaced by `val`.
    pub open spec fn with_aux2_vp_lpcd(self, val: bool) -> Self {
        LpcdRft2(bits::with_flag(self.0, 1, val))
    }

    /// voltage of charecap
    pub fn set_aux2_vp_lpcd(&mut self, val: bool)
        ensures
            *final(self) == old(self).with_aux2_vp_lpcd(val),
    {
        self.0 = (self.0 & !(0x01 << 1usize)) | (((val as u8) & 0x01) << 1usize);
    }
}

impl Default for LpcdRft2 {
    fn default() -> (val: LpcdRft2)
        ensures
            val == LpcdRft2(0),
    {
        LpcdRft2(0)
    }
}

impl Value for LpcdRft2 {
    open spec fn bits(self) -> u8 {
        self.0
    }

    open spec fn of_bits(bits: u8) -> LpcdRft2 {
        LpcdRft2(bits)
    }

    proof fn lemma_bits_of_bits(bits: u8) {
    }

    fn to_bits(self) -> u8 {
        self.0
    }

    fn from_bits(bits: u8) -> LpcdRft2 {
        LpcdRft2(bits)
    }
}

/// The layout of the register `status1`.
#[derive(Copy, Clone, Eq, PartialEq, Structural)]
pub struct Status1(pub u8);

impl Status1 {
    /// status LoAlert.
    #[verifier::allow_in_spec]
    pub fn loalert(&self) -> (val: bool)
        returns
            bits::flag(self.0, 0),
    {
        (self.0 >> 0usize) & 0x01 != 0
    }

    /// This value with `loalert` replaced by `val`.
    pub open spec fn with_loalert(self, val: bool) -> Self {
        Status1(bits::with_flag(self.0, 0, val))
    }

    /// status LoAlert.
    pub fn set_loalert(&mut self, val: bool)
        ensures
            *final(self) == old(self).with_loalert(val),
    {
        self.0 = (self.0 & !(0x01 << 0usize)) | (((val as u8) & 0x01) << 0usize);
    }

    /// status HiAlert.
    #[verifier::allow_in_spec]
    pub fn hialert(&self) -> (val: bool)
        returns
            bits::flag(self.0, 1),
    {
        (self.0 >> 1usize) & 0x01 != 0
    }

    /// This value with `hialert` replaced by `val`.
    pub open spec fn with_hialert(self, val: bool) -> Self {
        Status1(bits::with_flag(self.0, 1, val))
    }

    /// status HiAlert.
    pub fn set_hialert(&mut self, val: bool)
        ensures
            *final(self) == old(self).with_hialert(val),
    {
        self.0 = (self.0 & !(0x01 << 1usize)) | (((val as u8) & 0x01) << 1usize);
    }

    /// status RF is on/off.
    #[verifier::allow_in_spec]
    pub fn rfon(&self) -> (val: bool)
        returns
            bits::flag(self.0, 2),
    {
        (self.0 >> 2usize) & 0x01 != 0
    }

    /// This value with `rfon` replaced by `val`.
    pub open spec fn with_rfon(self, val: bool) -> Self {
        Status1(bits::with_flag(self.0, 2, val))
    }

    /// status RF is on/off.
    pub fn set_rfon(&mut self, val: bool)
        ensures
            *final(self) == old(self).with_rfon(val),
    {
        self.0 = (self.0 & !(0x01 << 2usize)) | (((val as u8) & 0x01) << 2usize);
    }

    /// status Timer is running.
    #[verifier::allow_in_spec]
    pub fn trunnung(&self) -> (val: bool)
        returns
            bits::flag(self.0, 3),
    {
        (self.0 >> 3usize) & 0x01 != 0
    }

    /// This value with `trunnung` replaced by `val`.
    pub open spec fn with_trunnung(self, val: bool) -> Self {
        Status1(bits::with_flag(self.0, 3, val))
    }

    /// status Timer is running.
    pub fn set_trunnung(&mut self, val: bool)
        ensures
            *final(self) == old(self).with_trunnung(val),
    {
        self.0 = (self.0 & !(0x01 << 3usize)) | (((val as u8) & 0x01) << 3usize);
    }

    /// status IRQ is active.
    #[verifier::allow_in_spec]
    pub fn irq(&self) -> (val: bool)
        returns
            bits::flag(self.0, 4),
    {
        (self.0 >> 4usize) & 0x01 != 0
    }

    /// This value with `irq` replaced by `val`.
    pub open spec fn with_irq(self, val: bool) -> Self {
        Status1(bits::with_flag(self.0, 4, val))
    }

    /// status IRQ is active.
    pub fn set_irq(&mut self, val: bool)
        ensures
            *final(self) == old(self).with_irq(val),
    {
        self.0 = (self.0 & !(0x01 << 4usize)) | (((val as u8) & 0x01) << 4usize);
    }

    /// status CRC Ready.
    #[verifier::allow_in_spec]
    pub fn crcready(&self) -> (val: bool)
        returns
            bits::flag(self.0, 5),
    {
        (self.0 >> 5usize) & 0x01 != 0
    }

    /// This value with `crcready` replaced by `val`.
    pub open spec fn with_crcready(self, val: bool) -> Self {
        Status1(bits::with_flag(self.0, 5, val))
    }

    /// status CRC Ready.
    pub fn set_crcready(&mut self, val: bool)
        ensures
            *final(self) == old(self).with_crcready(val),
    {
        self.0 = (self.0 & !(0x01 << 5usize)) | (((val as u8) & 0x01) << 5usize);
    }

    /// status CRC OK.
    #[verifier::allow_in_spec]
    pub fn crcok(&self) -> (val: bool)
        returns
            bits::flag(self.0, 6),
    {
        (self.0 >> 6usize) & 0x01 != 0
    }

    /// This value with `crcok` replaced by `val`.
    pub open spec fn with_crcok(self, val: bool) -> Self {
        Status1(bits::with_flag(self.0, 6, val))
    }

    /// status CRC OK.
    pub fn set_crcok(&mut self, val: bool)
        ensures
            *final(self) == old(self).with_crcok(val),
    {
        self.0 = (self.0 & !(0x01 << 6usize)) | (((val as u8) & 0x01) << 6usize);
    }
}

impl Default for Status1 {
    fn default() -> (val: Status1)
        ensures
            val == Status1(0),
    {
        Status1(0)
    }
}

impl Value for Status1 {
    open spec fn bits(self) -> u8 {
        self.0
    }

    open spec fn of_bits(bits: u8) -> Status1 {
        Status1(bits)
    }

    proof fn lemma_bits_of_bits(bits: u8) {
    }

    fn to_bits(self) -> u8 {
        self.0
    }

    fn from_bits(bits: u8) -> Status1 {
        Status1(bits)
    }
}

/// The layout of the register `lpcd_rft5`.
#[derive(Copy, Clone, Eq, PartialEq, Structural)]
pub struct LpcdRft5(pub u8);

impl LpcdRft5 {
    /// lPCD test mode
    #[verifier::allow_in_spec]
    pub fn testen(&self) -> (val: bool)
        returns
            bits::flag(self.0, 0),
    {
        (self.0 >> 0usize) & 0x01 != 0
    }

    /// This value with `testen` replaced by `val`.
    pub open spec fn with_testen(self, val: bool) -> Self {
        LpcdRft5(bits::with_flag(self.0, 0, val))
    }

    /// lPCD test mode
    pub fn set_testen(&mut self, val: bool)
        ensures
            *final(self) == old(self).with_testen(val),
    {
        self.0 = (self.0 & !(0x01 << 0usize)) | (((val as u8) & 0x01) << 0usize);
    }

    /// Auto wakeup test mode
    #[verifier::allow_in_spec]
    pub fn awup_tsel(&self) -> (val: bool)
        returns
            bits::flag(self.0, 1),
    {
        (self.0 >> 1usize) & 0x01 != 0
    }

    /// This value with `awup_tsel` replaced by `val`.
    pub open spec fn with_awup_tsel(self, val: bool) -> Self {
        LpcdRft5(bits::with_flag(self.0, 1, val))
    }

    /// Auto wakeup test mode
    pub fn set_awup_tsel(&mut self, val: bool)
        ensures
            *final(self) == old(self).with_awup_tsel(val),
    {
        self.0 = (self.0 & !(0x01 << 1usize)) | (((val as u8) & 0x01) << 1usize);
    }

    /// RNG mode sel
    #[verifier::allow_in_spec]
    pub fn rng_mode_sel(&self) -> (val: bool)
        returns
            bits::flag(self.0, 2),
    {
        (self.0 >> 2usize) & 0x01 != 0
    }

    /// This value with `rng_mode_sel` replaced by `val`.
    pub open spec fn with_rng_mode_sel(self, val: bool) -> Self {
        LpcdRft5(bits::with_flag(self.0, 2, val))
    }

    /// RNG mode sel
    pub fn set_rng_mode_sel(&mut self, val: bool)
        ensures
            *final(self) == old(self).with_rng_mode_sel(val),
    {
        self.0 = (self.0 & !(0x01 << 2usize)) | (((val as u8) & 0x01) << 2usize);
    }

    /// use retention mode
    #[verifier::allow_in_spec]
    pub fn use_ret(&self) -> (val: bool)
        returns
            bits::flag(self.0, 3),
    {
        (self.0 >> 3usize) & 0x01 != 0
    }

    /// This value with `use_ret` replaced by `val`.
    pub open spec fn with_use_ret(self, val: bool) -> Self {
        LpcdRft5(bits::with_flag(self.0, 3, val))
    }

    /// use retention mode
    pub fn set_use_ret(&mut self, val: bool)
        ensures
            *final(self) == old(self).with_use_ret(val),
    {
        self.0 = (self.0 & !(0x01 << 3usize)) | (((val as u8) & 0x01) << 3usize);
    }
}

impl Default for LpcdRft5 {
    fn default() -> (val: LpcdRft5)
        ensures
            val == LpcdRft5(0),
    {
        LpcdRft5(0)
    }
}

impl Value for LpcdRft5 {
    open spec fn bits(self) -> u8 {
        self.0
    }

    open spec fn of_bits(bits: u8) -> LpcdRft5 {
        LpcdRft5(bits)
    }

    proof fn lemma_bits_of_bits(bits: u8) {
    }

    fn to_bits(self) -> u8 {
        self.0
    }

    fn from_bits(bits: u8) -> LpcdRft5 {
        LpcdRft5(bits)
    }
}

/// The layout of the register `autotest`.
#[derive(Copy, Clone, Eq, PartialEq, Structural)]
pub struct Autotest(pub u8);

impl Autotest {
    #[verifier::allow_in_spec]
    pub fn amprcv(&self) -> (val: bool)
        returns
            bits::flag(self.0, 6),
    {
        (self.0 >> 6usize) & 0x01 != 0
    }

    /// This value with `amprcv` replaced by `val`.
    pub open spec fn with_amprcv(self, val: bool) -> Self {
        Autotest(bits::with_flag(self.0, 6, val))
    }

    pub fn set_amprcv(&mut self, val: bool)
        ensures
            *final(self) == old(self).with_amprcv(val),
    {
        self.0 = (self.0 & !(0x01 << 6usize)) | (((val as u8) & 0x01) << 6usize);
    }
}

impl Default for Autotest {
    fn default() -> (val: Autotest)
        ensures
            val == Autotest(0),
    {
        Autotest(0)
    }
}

impl Value for Autotest {
    open spec fn bits(self) -> u8 {
        self.0
    }

    open spec fn of_bits(bits: u8) -> Autotest {
        Autotest(bits)
    }

    proof fn lemma_bits_of_bits(bits: u8) {
    }

    fn to_bits(self) -> u8 {
        self.0
    }

    fn from_bits(bits: u8) -> Autotest {
        Autotest(bits)
    }
}

/// The layout of the register `txmode`.
#[derive(Copy, Clone, Eq, PartialEq, Structural)]
pub struct Txmode(pub u8);

impl Txmode {
    #[verifier::allow_in_spec]
    pub fn framing(&self) -> (val: Framing)
        returns
            Framing(bits::field(self.0, 0, 0x03)),
    {
        Framing((self.0 >> 0usize) & 0x03)
    }

    /// This value with `framing` replaced by `val`.
    pub open spec fn with_framing(self, val: Framing) -> Self {
        Txmode(bits::with_field(self.0, 0, 0x03, val.0))
    }

    pub fn set_framing(&mut self, val: Framing)
        ensures
            *final(self) == old(self).with_framing(val),
    {
        self.0 = (self.0 & !(0x03 << 0usize)) | ((val.0 & 0x03) << 0usize);
    }

    /// Activates TXMix functionality.
    #[verifier::allow_in_spec]
    pub fn txmix(&self) -> (val: bool)
        returns
            bits::flag(self.0, 2),
    {
        (self.0 >> 2usize) & 0x01 != 0
    }

    /// This value with `txmix` replaced by `val`.
    pub open spec fn with_txmix(self, val: bool) -> Self {
        Txmode(bits::with_flag(self.0, 2, val))
    }

    /// Activates TXMix functionality.
    pub fn set_txmix(&mut self, val: bool)
        ensures
            *final(self) == old(self).with_txmix(val),
    {
        self.0 = (self.0 & !(0x01 << 2usize)) | (((val as u8) & 0x01) << 2usize);
    }

    /// Activates inverted transmission mode.
    #[verifier::allow_in_spec]
    pub fn invmod(&self) -> (val: bool)
        returns
            bits::flag(self.0, 3),
    {
        (self.0 >> 3usize) & 0x01 != 0
    }

    /// This value with `invmod` replaced by `val`.
    pub open spec fn with_invmod(self, val: bool) -> Self {
        Txmode(bits::with_flag(self.0, 3, val))
    }

    /// Activates inverted transmission mode.
    pub fn set_invmod(&mut self, val: bool)
        ensures
            *final(self) == old(self).with_invmod(val),
    {
        self.0 = (self.0 & !(0x01 << 3usize)) | (((val as u8) & 0x01) << 3usize);
    }

    /// Activates inverted transmission mode.
    #[verifier::allow_in_spec]
    pub fn speed(&self) -> (val: Speed)
        returns
            Speed(bits::field(self.0, 4, 0x07)),
    {
        Speed((self.0 >> 4usize) & 0x07)
    }

    /// This value with `speed` replaced by `val`.
    pub open spec fn with_speed(self, val: Speed) -> Self {
        Txmode(bits::with_field(self.0, 4, 0x07, val.0))
    }

    /// Activates inverted transmission mode.
    pub fn set_speed(&mut self, val: Speed)
        ensures
            *final(self) == old(self).with_speed(val),
    {
        self.0 = (self.0 & !(0x07 << 4usize)) | ((val.0 & 0x07) << 4usize);
    }

    /// Activates transmit or receive CRC.
    #[verifier::allow_in_spec]
    pub fn crcen(&self) -> (val: bool)
        returns
            bits::flag(self.0, 7),
    {
        (self.0 >> 7usize) & 0x01 != 0
    }

    /// This value with `crcen` replaced by `val`.
    pub open spec fn with_crcen(self, val: bool) -> Self {
        Txmode(bits::with_flag(self.0, 7, val))
    }

    /// Activates transmit or receive CRC.
    pub fn set_crcen(&mut self, val: bool)
        ensures
            *final(self) == old(self).with_crcen(val),
    {
        self.0 = (self.0 & !(0x01 << 7usize)) | (((val as u8) & 0x01) << 7usize);
    }
}

impl Default for Txmode {
    fn default() -> (val: Txmode)
        ensures
            val == Txmode(0),
    {
        Txmode(0)
    }
}

impl Value for Txmode {
    open spec fn bits(self) -> u8 {
        self.0
    }

    open spec fn of_bits(bits: u8) -> Txmode {
        Txmode(bits)
    }

    proof fn lemma_bits_of_bits(bits: u8) {
    }

    fn to_bits(self) -> u8 {
        self.0
    }

    fn from_bits(bits: u8) -> Txmode {
        Txmode(bits)
    }
}

/// The layout of the register `manualrcv`.
#[derive(Copy, Clone, Eq, PartialEq, Structural)]
pub struct Manualrcv(pub u8);

impl Manualrcv {
    #[verifier::allow_in_spec]
    pub fn hpcf(&self) -> (val: u8)
        returns
            bits::field(self.0, 0, 0x03),
    {
        (self.0 >> 0usize) & 0x03
    }

    /// This value with `hpcf` replaced by the low bits of `val`.
    pub open spec fn with_hpcf(self, val: u8) -> Self {
        Manualrcv(bits::with_field(self.0, 0, 0x03, val))
    }

    pub fn set_hpcf(&mut self, val: u8)
        ensures
            *final(self) == old(self).with_hpcf(val),
    {
        self.0 = (self.0 & !(0x03 << 0usize)) | ((val & 0x03) << 0usize);
    }

    #[verifier::allow_in_spec]
    pub fn manualhpcf(&self) -> (val: bool)
        returns
            bits::flag(self.0, 2),
    {
        (self.0 >> 2usize) & 0x01 != 0
    }

    /// This value with `manualhpcf` replaced by `val`.
    pub open spec fn with_manualhpcf(self, val: bool) -> Self {
        Manualrcv(bits::with_flag(self.0, 2, val))
    }

    pub fn set_manualhpcf(&mut self, val: bool)
        ensures
            *final(self) == old(self).with_manualhpcf(val),
    {
        self.0 = (self.0 & !(0x01 << 2usize)) | (((val as u8) & 0x01) << 2usize);
    }

    #[verifier::allow_in_spec]
    pub fn largebwpll(&self) -> (val: bool)
        returns
            bits::flag(self.0, 3),
    {
        (self.0 >> 3usize) & 0x01 != 0
    }

    /// This value with `largebwpll` replaced by `val`.
    pub open spec fn with_largebwpll(self, val: bool) -> Self {
        Manualrcv(bits::with_flag(self.0, 3, val))
    }

    pub fn set_largebwpll(&mut self, val: bool)
        ensures
            *final(self) == old(self).with_largebwpll(val),
    {
        self.0 = (self.0 & !(0x01 << 3usize)) | (((val as u8) & 0x01) << 3usize);
    }

    /// Disables the parity generation and sending independent from the mode.
    #[verifier::allow_in_spec]
    pub fn paritydisable(&self) -> (val: bool)
        returns
            bits::flag(self.0, 4),
    {
        (self.0 >> 4usize) & 0x01 != 0
    }

    /// This value with `paritydisable` replaced by `val`.
    pub open spec fn with_paritydisable(self, val: bool) -> Self {
        Manualrcv(bits::with_flag(self.0, 4, val))
    }

    /// Disables the parity generation and sending independent from the mode.
    pub fn set_paritydisable(&mut self, val: bool)
        ensures
            *final(self) == old(self).with_paritydisable(val),
    {
        self.0 = (self.0 & !(0x01 << 4usize)) | (((val as u8) & 0x01) << 4usize);
    }
}

impl Default for Manualrcv {
    fn default() -> (val: Manualrcv)
        ensures
            val == Manualrcv(0),
    {
        Manualrcv(0)
    }
}

impl Value for Manualrcv {
    open spec fn bits(self) -> u8 {
        self.0
    }

    open spec fn of_bits(bits: u8) -> Manualrcv {
        Manualrcv(bits)
    }

    proof fn lemma_bits_of_bits(bits: u8) {
    }

    fn to_bits(self) -> u8 {
        self.0
    }

    fn from_bits(bits: u8) -> Manualrcv {
        Manualrcv(bits)
    }
}

/// The layout of the register `coll`.
#[derive(Copy, Clone, Eq, PartialEq, Structural)]
pub struct Coll(pub u8);

impl Coll {
    /// Set to 1 if no collision is detected or the collision position is outside the range of
    /// CollPos. This bit is only Interpreted in ISO/IEC 14443A reader mode.
    #[verifier::allow_in_spec]
    pub fn collpos(&self) -> (val: u8)
        returns
            bits::field(self.0, 0, 0x1f),
    {
        (self.0 >> 0usize) & 0x1f
    }

    /// This value with `collpos` replaced by the low bits of `val`.
    pub open spec fn with_collpos(self, val: u8) -> Self {
        Coll(bits::with_field(self.0, 0, 0x1f, val))
    }

    /// Set to 1 if no collision is detected or the collision position is outside the range of
    /// CollPos. This bit is only Interpreted in ISO/IEC 14443A reader mode.
    pub fn set_collpos(&mut self, val: u8)
        ensures
            *final(self) == old(self).with_collpos(val),
    {
        self.0 = (self.0 & !(0x1f << 0usize)) | ((val & 0x1f) << 0usize);
    }

    /// Set to 1 if no collision is detected or the collision position is outside the range of
    /// CollPos. This bit is only Interpreted in ISO/IEC 14443A reader mode.
    #[verifier::allow_in_spec]
    pub fn collposnotvalid(&self) -> (val: bool)
        returns
            bits::flag(self.0, 5),
    {
        (self.0 >> 5usize) & 0x01 != 0
    }

    /// This value with `collposnotvalid` replaced by `val`.
    pub open spec fn with_collposnotvalid(self, val: bool) -> Self {
        Coll(bits::with_flag(self.0, 5, val))
    }

    /// Set to 1 if no collision is detected or the collision position is outside the range of
    /// CollPos. This bit is only Interpreted in ISO/IEC 14443A reader mode.
    pub fn set_collposnotvalid(&mut self, val: bool)
        ensures
            *final(self) == old(self).with_collposnotvalid(val),
    {
        self.0 = (self.0 & !(0x01 << 5usize)) | (((val as u8) & 0x01) << 5usize);
    }

    /// Activates mode to keep data after collision.
    #[verifier::allow_in_spec]
    pub fn valuesaftercoll(&self) -> (val: bool)
        returns
            bits::flag(self.0, 7),
    {
        (self.0 >> 7usize) & 0x01 != 0
    }

    /// This value with `valuesaftercoll` replaced by `val`.
    pub open spec fn with_valuesaftercoll(self, val: bool) -> Self {
        Coll(bits::with_flag(self.0, 7, val))
    }

    /// Activates mode to keep data after collision.
    pub fn set_valuesaftercoll(&mut self, val: bool)
        ensures
            *final(self) == old(self).with_valuesaftercoll(val),
    {
        self.0 = (self.0 & !(0x01 << 7usize)) | (((val as u8) & 0x01) << 7usize);
    }
}

impl Default for Coll {
    fn default() -> (val: Coll)
        ensures
            val == Coll(0),
    {
        Coll(0)
    }
}

impl Value for Coll {
    open spec fn bits(self) -> u8 {
        self.0
    }

    open spec fn of_bits(bits: u8) -> Coll {
        Coll(bits)
    }

    proof fn lemma_bits_of_bits(bits: u8) {
    }

    fn to_bits(self) -> u8 {
        self.0
    }

    fn from_bits(bits: u8) -> Coll {
        Coll(bits)
    }
}

/// The layout of the register `divirq`.
#[derive(Copy, Clone, Eq, PartialEq, Structural)]
pub struct Divirq(pub u8);

impl Divirq {
    /// RF Off Interrupt Enable/Request.
    #[verifier::allow_in_spec]
    pub fn rfoffi(&self) -> (val: bool)
        returns
            bits::flag(self.0, 0),
    {
        (self.0 >> 0usize) & 0x01 != 0
    }

    /// This value with `rfoffi` replaced by `val`.
    pub open spec fn with_rfoffi(self, val: bool) -> Self {
        Divirq(bits::with_flag(self.0, 0, val))
    }

    /// RF Off Interrupt Enable/Request.
    pub fn set_rfoffi(&mut self, val: bool)
        ensures
            *final(self) == old(self).with_rfoffi(val),
    {
        self.0 = (self.0 & !(0x01 << 0usize)) | (((val as u8) & 0x01) << 0usize);
    }

    /// RF On Interrupt Enable/Request.
    #[verifier::allow_in_spec]
    pub fn rfoni(&self) -> (val: bool)
        returns
            bits::flag(self.0, 1),
    {
        (self.0 >> 1usize) & 0x01 != 0
    }

    /// This value with `rfoni` replaced by `val`.
    pub open spec fn with_rfoni(self, val: bool) -> Self {
        Divirq(bits::with_flag(self.0, 1, val))
    }

    /// RF On Interrupt Enable/Request.
    pub fn set_rfoni(&mut self, val: bool)
        ensures
            *final(self) == old(self).with_rfoni(val),
    {
        self.0 = (self.0 & !(0x01 << 1usize)) | (((val as u8) & 0x01) << 1usize);
    }

    /// CRC Interrupt Enable/Request.
    #[verifier::allow_in_spec]
    pub fn crci(&self) -> (val: bool)
        returns
            bits::flag(self.0, 2),
    {
        (self.0 >> 2usize) & 0x01 != 0
    }

    /// This value with `crci` replaced by `val`.
    pub open spec fn with_crci(self, val: bool) -> Self {
        Divirq(bits::with_flag(self.0, 2, val))
    }

    /// CRC Interrupt Enable/Request.
    pub fn set_crci(&mut self, val: bool)
        ensures
            *final(self) == old(self).with_crci(val),
    {
        self.0 = (self.0 & !(0x01 << 2usize)) | (((val as u8) & 0x01) << 2usize);
    }

    /// Mode Interrupt Enable/Request.
    #[verifier::allow_in_spec]
    pub fn modei(&self) -> (val: bool)
        returns
            bits::flag(self.0, 3),
    {
        (self.0 >> 3usize) & 0x01 != 0
    }

    /// This value with `modei` replaced by `val`.
    pub open spec fn with_modei(self, val: bool) -> Self {
        Divirq(bits::with_flag(self.0, 3, val))
    }

    /// Mode Interrupt Enable/Request.
    pub fn set_modei(&mut self, val: bool)
        ensures
            *final(self) == old(self).with_modei(val),
    {
        self.0 = (self.0 & !(0x01 << 3usize)) | (((val as u8) & 0x01) << 3usize);
    }

    /// SiginAct Interrupt Enable/Request.
    #[verifier::allow_in_spec]
    pub fn siginact(&self) -> (val: bool)
        returns
            bits::flag(self.0, 4),
    {
        (self.0 >> 4usize) & 0x01 != 0
    }

    /// This value with `siginact` replaced by `val`.
    pub open spec fn with_siginact(self, val: bool) -> Self {
        Divirq(bits::with_flag(self.0, 4, val))
    }

    /// SiginAct Interrupt Enable/Request.
    pub fn set_siginact(&mut self, val: bool)
        ensures
            *final(self) == old(self).with_siginact(val),
    {
        self.0 = (self.0 & !(0x01 << 4usize)) | (((val as u8) & 0x01) << 4usize);
    }

    /// Bit position to set/clear dedicated IRQ bits.
    #[verifier::allow_in_spec]
    pub fn set(&self) -> (val: bool)
        returns
            bits::flag(self.0, 7),
    {
        (self.0 >> 7usize) & 0x01 != 0
    }

    /// This value with `set` replaced by `val`.
    pub open spec fn with_set(self, val: bool) -> Self {
        Divirq(bits::with_flag(self.0, 7, val))
    }

    /// Bit position to set/clear dedicated IRQ bits.
    pub fn set_set(&mut self, val: bool)
        ensures
            *final(self) == old(self).with_set(val),
    {
        self.0 = (self.0 & !(0x01 << 7usize)) | (((val as u8) & 0x01) << 7usize);
    }
}

impl Default for Divirq {
    fn default() -> (val: Divirq)
        ensures
            val == Divirq(0),
    {
        Divirq(0)
    }
}

impl Value for Divirq {
    open spec fn bits(self) -> u8 {
        self.0
    }

    open spec fn of_bits(bits: u8) -> Divirq {
        Divirq(bits)
    }

    proof fn lemma_bits_of_bits(bits: u8) {
    }

    fn to_bits(self) -> u8 {
        self.0
    }

    fn from_bits(bits: u8) -> Divirq {
        Divirq(bits)
    }
}

/// The layout of the register `lpcd_rft3`.
#[derive(Copy, Clone, Eq, PartialEq, Structural)]
pub struct LpcdRft3(pub u8);

impl LpcdRft3 {
    /// enable lp osc10k
    #[verifier::allow_in_spec]
    pub fn lp_osc10k_en(&self) -> (val: bool)
        returns
            bits::flag(self.0, 0),
    {
        (self.0 >> 0usize) & 0x01 != 0
    }

    /// This value with `lp_osc10k_en` replaced by `val`.
    pub open spec fn with_lp_osc10k_en(self, val: bool) -> Self {
        LpcdRft3(bits::with_flag(self.0, 0, val))
    }

    /// enable lp osc10k
    pub fn set_lp_osc10k_en(&mut self, val: bool)
        ensures
            *final(self) == old(self).with_lp_osc10k_en(val),
    {
        self.0 = (self.0 & !(0x01 << 0usize)) | (((val as u8) & 0x01) << 0usize);
    }

    /// enable lp osc10k calibra mode
    #[verifier::allow_in_spec]
    pub fn lp_osc_calibra_en(&self) -> (val: bool)
        returns
            bits::flag(self.0, 1),
    {
        (self.0 >> 1usize) & 0x01 != 0
    }

    /// This value with `lp_osc_calibra_en` replaced by `val`.
    pub open spec fn with_lp_osc_calibra_en(self, val: bool) -> Self {
        LpcdRft3(bits::with_flag(self.0, 1, val))
    }

    /// enable lp osc10k calibra mode
    pub fn set_lp_osc_calibra_en(&mut self, val: bool)
        ensures
            *final(self) == old(self).with_lp_osc_calibra_en(val),
    {
        self.0 = (self.0 & !(0x01 << 1usize)) | (((val as u8) & 0x01) << 1usize);
    }

    /// enable lp t1 current test
    #[verifier::allow_in_spec]
    pub fn lp_curr_test(&self) -> (val: bool)
        returns
            bits::flag(self.0, 2),
    {
        (self.0 >> 2usize) & 0x01 != 0
    }

    /// This value with `lp_curr_test` replaced by `val`.
    pub open spec fn with_lp_curr_test(self, val: bool) -> Self {
        LpcdRft3(bits::with_flag(self.0, 2, val))
    }

    /// enable lp t1 current test
    pub fn set_lp_curr_test(&mut self, val: bool)
        ensures
            *final(self) == old(self).with_lp_curr_test(val),
    {
        self.0 = (self.0 & !(0x01 << 2usize)) | (((val as u8) & 0x01) << 2usize);
    }

    /// lpcd_test2\\[3\\]:LPCD_OUT
    #[verifier::allow_in_spec]
    pub fn test2_lpcd_out(&self) -> (val: bool)
        returns
            bits::flag(self.0, 3),
    {
        (self.0 >> 3usize) & 0x01 != 0
    }

    /// This value with `test2_lpcd_out` replaced by `val`.
    pub open spec fn with_test2_lpcd_out(self, val: bool) -> Self {
        LpcdRft3(bits::with_flag(self.0, 3, val))
    }

    /// lpcd_test2\\[3\\]:LPCD_OUT
    pub fn set_test2_lpcd_out(&mut self, val: bool)
        ensures
            *final(self) == old(self).with_test2_lpcd_out(val),
    {
        self.0 = (self.0 & !(0x01 << 3usize)) | (((val as u8) & 0x01) << 3usize);
    }
}

impl Default for LpcdRft3 {
    fn default() -> (val: LpcdRft3)
        ensures
            val == LpcdRft3(0),
    {
        LpcdRft3(0)
    }
}

impl Value for LpcdRft3 {
    open spec fn bits(self) -> u8 {
        self.0
    }

    open spec fn of_bits(bits: u8) -> LpcdRft3 {
        LpcdRft3(bits)
    }

    proof fn lemma_bits_of_bits(bits: u8) {
    }

    fn to_bits(self) -> u8 {
        self.0
    }

    fn from_bits(bits: u8) -> LpcdRft3 {
        LpcdRft3(bits)
    }
}

/// The layout of the register `lpcd_ctrl2`.
#[derive(Copy, Clone, Eq, PartialEq, Structural)]
pub struct LpcdCtrl2(pub u8);

impl LpcdCtrl2 {
    /// Configure the drive control of the RF field P tube in LPCD mode. From 000 to 111, the
    /// driving capacity increases from small to large.
    #[verifier::allow_in_spec]
    pub fn cwp(&self) -> (val: u8)
        returns
            bits::field(self.0, 0, 0x07),
    {
        (self.0 >> 0usize) & 0x07
    }

    /// This value with `cwp` replaced by the low bits of `val`.
    pub open spec fn with_cwp(self, val: u8) -> Self {
        LpcdCtrl2(bits::with_field(self.0, 0, 0x07, val))
    }

    /// Configure the drive control of the RF field P tube in LPCD mode. From 000 to 111, the
    /// driving capacity increases from small to large.
    pub fn set_cwp(&mut self, val: u8)
        ensures
            *final(self) == old(self).with_cwp(val),
    {
        self.0 = (self.0 & !(0x07 << 0usize)) | ((val & 0x07) << 0usize);
    }

    /// Configure the drive control of the RF field N tube in LPCD mode. 0- Small drive, 1- Big
    /// drive
    #[verifier::allow_in_spec]
    pub fn cwn(&self) -> (val: bool)
        returns
            bits::flag(self.0, 3),
    {
        (self.0 >> 3usize) & 0x01 != 0
    }

    /// This value with `cwn` replaced by `val`.
    pub open spec fn with_cwn(self, val: bool) -> Self {
        LpcdCtrl2(bits::with_flag(self.0, 3, val))
    }

    /// Configure the drive control of the RF field N tube in LPCD mode. 0- Small drive, 1- Big
    /// drive
    pub fn set_cwn(&mut self, val: bool)
        ensures
            *final(self) == old(self).with_cwn(val),
    {
        self.0 = (self.0 & !(0x01 << 3usize)) | (((val as u8) & 0x01) << 3usize);
    }

    /// 1 which means that the TX2 output is enabled, and the output is inverse to TX1.
    #[verifier::allow_in_spec]
    pub fn tx2en(&self) -> (val: bool)
        returns
            bits::flag(self.0, 4),
    {
        (self.0 >> 4usize) & 0x01 != 0
    }

    /// This value with `tx2en` replaced by `val`.
    pub open spec fn with_tx2en(self, val: bool) -> Self {
        LpcdCtrl2(bits::with_flag(self.0, 4, val))
    }

    /// 1 which means that the TX2 output is enabled, and the output is inverse to TX1.
    pub fn set_tx2en(&mut self, val: bool)
        ensures
            *final(self) == old(self).with_tx2en(val),
    {
        self.0 = (self.0 & !(0x01 << 4usize)) | (((val as u8) & 0x01) << 4usize);
    }
}

impl Default for LpcdCtrl2 {
    fn default() -> (val: LpcdCtrl2)
        ensures
            val == LpcdCtrl2(0),
    {
        LpcdCtrl2(0)
    }
}

impl Value for LpcdCtrl2 {
    open spec fn bits(self) -> u8 {
        self.0
    }

    open spec fn of_bits(bits: u8) -> LpcdCtrl2 {
        LpcdCtrl2(bits)
    }

    proof fn lemma_bits_of_bits(bits: u8) {
    }

    fn to_bits(self) -> u8 {
        self.0
    }

    fn from_bits(bits: u8) -> LpcdCtrl2 {
        LpcdCtrl2(bits)
    }
}

/// The layout of the register `lpcd_ctrl1`.
#[derive(Copy, Clone, Eq, PartialEq, Structural)]
pub struct LpcdCtrl1(pub u8);

impl LpcdCtrl1 {
    /// enble LPCD
    #[verifier::allow_in_spec]
    pub fn en(&self) -> (val: bool)
        returns
            bits::flag(self.0, 0),
    {
        (self.0 >> 0usize) & 0x01 != 0
    }

    /// This value with `en` replaced by `val`.
    pub open spec fn with_en(self, val: bool) -> Self {
        LpcdCtrl1(bits::with_flag(self.0, 0, val))
    }

    /// enble LPCD
    pub fn set_en(&mut self, val: bool)
        ensures
            *final(self) == old(self).with_en(val),
    {
        self.0 = (self.0 & !(0x01 << 0usize)) | (((val as u8) & 0x01) << 0usize);
    }

    /// lpcd reset
    #[verifier::allow_in_spec]
    pub fn rstn(&self) -> (val: bool)
        returns
            bits::flag(self.0, 1),
    {
        (self.0 >> 1usize) & 0x01 != 0
    }

    /// This value with `rstn` replaced by `val`.
    pub open spec fn with_rstn(self, val: bool) -> Self {
        LpcdCtrl1(bits::with_flag(self.0, 1, val))
    }

    /// lpcd reset
    pub fn set_rstn(&mut self, val: bool)
        ensures
            *final(self) == old(self).with_rstn(val),
    {
        self.0 = (self.0 & !(0x01 << 1usize)) | (((val as u8) & 0x01) << 1usize);
    }

    /// into lpcd calibra mode
    #[verifier::allow_in_spec]
    pub fn calibra_en(&self) -> (val: bool)
        returns
            bits::flag(self.0, 2),
    {
        (self.0 >> 2usize) & 0x01 != 0
    }

    /// This value with `calibra_en` replaced by `val`.
    pub open spec fn with_calibra_en(self, val: bool) -> Self {
        LpcdCtrl1(bits::with_flag(self.0, 2, val))
    }

    /// into lpcd calibra mode
    pub fn set_calibra_en(&mut self, val: bool)
        ensures
            *final(self) == old(self).with_calibra_en(val),
    {
        self.0 = (self.0 & !(0x01 << 2usize)) | (((val as u8) & 0x01) << 2usize);
    }

    /// Compare times 1 or 3
    #[verifier::allow_in_spec]
    pub fn sense_1(&self) -> (val: bool)
        returns
            bits::flag(self.0, 3),
    {
        (self.0 >> 3usize) & 0x01 != 0
    }

    /// This value with `sense_1` replaced by `val`.
    pub open spec fn with_sense_1(self, val: bool) -> Self {
        LpcdCtrl1(bits::with_flag(self.0, 3, val))
    }

    /// Compare times 1 or 3
    pub fn set_sense_1(&mut self, val: bool)
        ensures
            *final(self) == old(self).with_sense_1(val),
    {
        self.0 = (self.0 & !(0x01 << 3usize)) | (((val as u8) & 0x01) << 3usize);
    }

    /// Enable LPCD IE
    #[verifier::allow_in_spec]
    pub fn ie(&self) -> (val: bool)
        returns
            bits::flag(self.0, 4),
    {
        (self.0 >> 4usize) & 0x01 != 0
    }

    /// This value with `ie` replaced by `val`.
    pub open spec fn with_ie(self, val: bool) -> Self {
        LpcdCtrl1(bits::with_flag(self.0, 4, val))
    }

    /// Enable LPCD IE
    pub fn set_ie(&mut self, val: bool)
        ensures
            *final(self) == old(self).with_ie(val),
    {
        self.0 = (self.0 & !(0x01 << 4usize)) | (((val as u8) & 0x01) << 4usize);
    }

    /// Lpcd register Bit ctrl set bit
    #[verifier::allow_in_spec]
    pub fn bit_ctrl_set(&self) -> (val: bool)
        returns
            bits::flag(self.0, 5),
    {
        (self.0 >> 5usize) & 0x01 != 0
    }

    /// This value with `bit_ctrl_set` replaced by `val`.
    pub open spec fn with_bit_ctrl_set(self, val: bool) -> Self {
        LpcdCtrl1(bits::with_flag(self.0, 5, val))
    }

    /// Lpcd register Bit ctrl set bit
    pub fn set_bit_ctrl_set(&mut self, val: bool)
        ensures
            *final(self) == old(self).with_bit_ctrl_set(val),
    {
        self.0 = (self.0 & !(0x01 << 5usize)) | (((val as u8) & 0x01) << 5usize);
    }
}

impl Default for LpcdCtrl1 {
    fn default() -> (val: LpcdCtrl1)
        ensures
            val == LpcdCtrl1(0),
    {
        LpcdCtrl1(0)
    }
}

impl Value for LpcdCtrl1 {
    open spec fn bits(self) -> u8 {
        self.0
    }

    open spec fn of_bits(bits: u8) -> LpcdCtrl1 {
        LpcdCtrl1(bits)
    }

    proof fn lemma_bits_of_bits(bits: u8) {
    }

    fn to_bits(self) -> u8 {
        self.0
    }

    fn from_bits(bits: u8) -> LpcdCtrl1 {
        LpcdCtrl1(bits)
    }
}

/// The layout of the register `mifare`.
#[derive(Copy, Clone, Eq, PartialEq, Structural)]
pub struct Mifare(pub u8);

impl Mifare {
    #[verifier::allow_in_spec]
    pub fn txwait(&self) -> (val: u8)
        returns
            bits::field(self.0, 0, 0x03),
    {
        (self.0 >> 0usize) & 0x03
    }

    /// This value with `txwait` replaced by the low bits of `val`.
    pub open spec fn with_txwait(self, val: u8) -> Self {
        Mifare(bits::with_field(self.0, 0, 0x03, val))
    }

    pub fn set_txwait(&mut self, val: u8)
        ensures
            *final(self) == old(self).with_txwait(val),
    {
        self.0 = (self.0 & !(0x03 << 0usize)) | ((val & 0x03) << 0usize);
    }

    /// Configures the internal state machine only to answer to Wakeup commands according to ISO
    /// 14443-3.
    #[verifier::allow_in_spec]
    pub fn mfhalted(&self) -> (val: bool)
        returns
            bits::flag(self.0, 2),
    {
        (self.0 >> 2usize) & 0x01 != 0
    }

    /// This value with `mfhalted` replaced by `val`.
    pub open spec fn with_mfhalted(self, val: bool) -> Self {
        Mifare(bits::with_flag(self.0, 2, val))
    }

    /// Configures the internal state machine only to answer to Wakeup commands according to ISO
    /// 14443-3.
    pub fn set_mfhalted(&mut self, val: bool)
        ensures
            *final(self) == old(self).with_mfhalted(val),
    {
        self.0 = (self.0 & !(0x01 << 2usize)) | (((val as u8) & 0x01) << 2usize);
    }

    #[verifier::allow_in_spec]
    pub fn taumiller(&self) -> (val: u8)
        returns
            bits::field(self.0, 3, 0x03),
    {
        (self.0 >> 3usize) & 0x03
    }

    /// This value with `taumiller` replaced by the low bits of `val`.
    pub open spec fn with_taumiller(self, val: u8) -> Self {
        Mifare(bits::with_field(self.0, 3, 0x03, val))
    }

    pub fn set_taumiller(&mut self, val: u8)
        ensures
            *final(self) == old(self).with_taumiller(val),
    {
        self.0 = (self.0 & !(0x03 << 3usize)) | ((val & 0x03) << 3usize);
    }

    #[verifier::allow_in_spec]
    pub fn sensmiller(&self) -> (val: u8)
        returns
            bits::field(self.0, 5, 0x07),
    {
        (self.0 >> 5usize) & 0x07
    }

    /// This value with `sensmiller` replaced by the low bits of `val`.
    pub open spec fn with_sensmiller(self, val: u8) -> Self {
        Mifare(bits::with_field(self.0, 5, 0x07, val))
    }

    pub fn set_sensmiller(&mut self, val: u8)
        ensures
            *final(self) == old(self).with_sensmiller(val),
    {
        self.0 = (self.0 & !(0x07 << 5usize)) | ((val & 0x07) << 5usize);
    }
}

impl Default for Mifare {
    fn default() -> (val: Mifare)
        ensures
            val == Mifare(0),
    {
        Mifare(0)
    }
}

impl Value for Mifare {
    open spec fn bits(self) -> u8 {
        self.0
    }

    open spec fn of_bits(bits: u8) -> Mifare {
        Mifare(bits)
    }

    proof fn lemma_bits_of_bits(bits: u8) {
    }

    fn to_bits(self) -> u8 {
        self.0
    }

    fn from_bits(bits: u8) -> Mifare {
        Mifare(bits)
    }
}

/// The layout of the register `txauto`.
#[derive(Copy, Clone, Eq, PartialEq, Structural)]
pub struct Txauto(pub u8);

impl Txauto {
    /// Switches on the driver one automatically according to the other settings.
    #[verifier::allow_in_spec]
    pub fn tx1rfautoen(&self) -> (val: bool)
        returns
            bits::flag(self.0, 0),
    {
        (self.0 >> 0usize) & 0x01 != 0
    }

    /// This value with `tx1rfautoen` replaced by `val`.
    pub open spec fn with_tx1rfautoen(self, val: bool) -> Self {
        Txauto(bits::with_flag(self.0, 0, val))
    }

    /// Switches on the driver one automatically according to the other settings.
    pub fn set_tx1rfautoen(&mut self, val: bool)
        ensures
            *final(self) == old(self).with_tx1rfautoen(val),
    {
        self.0 = (self.0 & !(0x01 << 0usize)) | (((val as u8) & 0x01) << 0usize);
    }

    /// Switches on the driver two automatically according to the other settings.
    #[verifier::allow_in_spec]
    pub fn tx2rfautoen(&self) -> (val: bool)
        returns
            bits::flag(self.0, 1),
    {
        (self.0 >> 1usize) & 0x01 != 0
    }

    /// This value with `tx2rfautoen` replaced by `val`.
    pub open spec fn with_tx2rfautoen(self, val: bool) -> Self {
        Txauto(bits::with_flag(self.0, 1, val))
    }

    /// Switches on the driver two automatically according to the other settings.
    pub fn set_tx2rfautoen(&mut self, val: bool)
        ensures
            *final(self) == old(self).with_tx2rfautoen(val),
    {
        self.0 = (self.0 & !(0x01 << 1usize)) | (((val as u8) & 0x01) << 1usize);
    }

    /// Activate the initial RF on procedure as defined iun ECMA-340.
    #[verifier::allow_in_spec]
    pub fn initialrfon(&self) -> (val: bool)
        returns
            bits::flag(self.0, 2),
    {
        (self.0 >> 2usize) & 0x01 != 0
    }

    /// This value with `initialrfon` replaced by `val`.
    pub open spec fn with_initialrfon(self, val: bool) -> Self {
        Txauto(bits::with_flag(self.0, 2, val))
    }

    /// Activate the initial RF on procedure as defined iun ECMA-340.
    pub fn set_initialrfon(&mut self, val: bool)
        ensures
            *final(self) == old(self).with_initialrfon(val),
    {
        self.0 = (self.0 & !(0x01 << 2usize)) | (((val as u8) & 0x01) << 2usize);
    }

    /// Activates the automatic time jitter generation by switching on the Rf field as defined
    /// in ECMA-340.
    #[verifier::allow_in_spec]
    pub fn caon(&self) -> (val: bool)
        returns
            bits::flag(self.0, 3),
    {
        (self.0 >> 3usize) & 0x01 != 0
    }

    /// This value with `caon` replaced by `val`.
    pub open spec fn with_caon(self, val: bool) -> Self {
        Txauto(bits::with_flag(self.0, 3, val))
    }

    /// Activates the automatic time jitter generation by switching on the Rf field as defined
    /// in ECMA-340.
    pub fn set_caon(&mut self, val: bool)
        ensures
            *final(self) == old(self).with_caon(val),
    {
        self.0 = (self.0 & !(0x01 << 3usize)) | (((val as u8) & 0x01) << 3usize);
    }

    /// Activates automatic wakeup of the FM175XX if set to 1.
    #[verifier::allow_in_spec]
    pub fn autowakeup(&self) -> (val: bool)
        returns
            bits::flag(self.0, 5),
    {
        (self.0 >> 5usize) & 0x01 != 0
    }

    /// This value with `autowakeup` replaced by `val`.
    pub open spec fn with_autowakeup(self, val: bool) -> Self {
        Txauto(bits::with_flag(self.0, 5, val))
    }

    /// Activates automatic wakeup of the FM175XX if set to 1.
    pub fn set_autowakeup(&mut self, val: bool)
        ensures
            *final(self) == old(self).with_autowakeup(val),
    {
        self.0 = (self.0 & !(0x01 << 5usize)) | (((val as u8) & 0x01) << 5usize);
    }

    /// Activates 100%ASK mode independent of driver settings.
    #[verifier::allow_in_spec]
    pub fn force100ask(&self) -> (val: bool)
        returns
            bits::flag(self.0, 6),
    {
        (self.0 >> 6usize) & 0x01 != 0
    }

    /// This value with `force100ask` replaced by `val`.
    pub open spec fn with_force100ask(self, val: bool) -> Self {
        Txauto(bits::with_flag(self.0, 6, val))
    }

    /// Activates 100%ASK mode independent of driver settings.
    pub fn set_force100ask(&mut self, val: bool)
        ensures
            *final(self) == old(self).with_force100ask(val),
    {
        self.0 = (self.0 & !(0x01 << 6usize)) | (((val as u8) & 0x01) << 6usize);
    }

    /// Switches the RF automatically off after transmission is finished.
    #[verifier::allow_in_spec]
    pub fn autorfoff(&self) -> (val: bool)
        returns
            bits::flag(self.0, 7),
    {
        (self.0 >> 7usize) & 0x01 != 0
    }

    /// This value with `autorfoff` replaced by `val`.
    pub open spec fn with_autorfoff(self, val: bool) -> Self {
        Txauto(bits::with_flag(self.0, 7, val))
    }

    /// Switches the RF automatically off after transmission is finished.
    pub fn set_autorfoff(&mut self, val: bool)
        ensures
            *final(self) == old(self).with_autorfoff(val),
    {
        self.0 = (self.0 & !(0x01 << 7usize)) | (((val as u8) & 0x01) << 7usize);
    }
}

impl Default for Txauto {
    fn default() -> (val: Txauto)
        ensures
            val == Txauto(0),
    {
        Txauto(0)
    }
}

impl Value for Txauto {
    open spec fn bits(self) -> u8 {
        self.0
    }

    open spec fn of_bits(bits: u8) -> Txauto {
        Txauto(bits)
    }

    proof fn lemma_bits_of_bits(bits: u8) {
    }

    fn to_bits(self) -> u8 {
        self.0
    }

    fn from_bits(bits: u8) -> Txauto {
        Txauto(bits)
    }
}

/// The layout of the register `fifolevel`.
#[derive(Copy, Clone, Eq, PartialEq, Structural)]
pub struct Fifolevel(pub u8);

impl Fifolevel {
    /// FIFO level, in bytes. 0..=64
    #[verifier::allow_in_spec]
    pub fn level(&self) -> (val: u8)
        returns
            bits::field(self.0, 0, 0x7f),
    {
        (self.0 >> 0usize) & 0x7f
    }

    /// This value with `level` replaced by the low bits of `val`.
    pub open spec fn with_level(self, val: u8) -> Self {
        Fifolevel(bits::with_field(self.0, 0, 0x7f, val))
    }

    /// FIFO level, in bytes. 0..=64
    pub fn set_level(&mut self, val: u8)
        ensures
            *final(self) == old(self).with_level(val),
    {
        self.0 = (self.0 & !(0x7f << 0usize)) | ((val & 0x7f) << 0usize);
    }

    /// Clears FIFO buffer if set to 1
    #[verifier::allow_in_spec]
    pub fn flushfifo(&self) -> (val: bool)
        returns
            bits::flag(self.0, 7),
    {
        (self.0 >> 7usize) & 0x01 != 0
    }

    /// This value with `flushfifo` replaced by `val`.
    pub open spec fn with_flushfifo(self, val: bool) -> Self {
        Fifolevel(bits::with_flag(self.0, 7, val))
    }

    /// Clears FIFO buffer if set to 1
    pub fn set_flushfifo(&mut self, val: bool)
        ensures
            *final(self) == old(self).with_flushfifo(val),
    {
        self.0 = (self.0 & !(0x01 << 7usize)) | (((val as u8) & 0x01) << 7usize);
    }
}

impl Default for Fifolevel {
    fn default() -> (val: Fifolevel)
        ensures
            val == Fifolevel(0),
    {
        Fifolevel(0)
    }
}

impl Value for Fifolevel {
    open spec fn bits(self) -> u8 {
        self.0
    }

    open spec fn of_bits(bits: u8) -> Fifolevel {
        Fifolevel(bits)
    }

    proof fn lemma_bits_of_bits(bits: u8) {
    }

    fn to_bits(self) -> u8 {
        self.0
    }

    fn from_bits(bits: u8) -> Fifolevel {
        Fifolevel(bits)
    }
}

/// The layout of the register `lpcd_rft4`.
#[derive(Copy, Clone, Eq, PartialEq, Structural)]
pub struct LpcdRft4(pub u8);

impl LpcdRft4 {
    /// D5:T1_OUT
    #[verifier::allow_in_spec]
    pub fn t1_out_en(&self) -> (val: bool)
        returns
            bits::flag(self.0, 0),
    {
        (self.0 >> 0usize) & 0x01 != 0
    }

    /// This value with `t1_out_en` replaced by `val`.
    pub open spec fn with_t1_out_en(self, val: bool) -> Self {
        LpcdRft4(bits::with_flag(self.0, 0, val))
    }

    /// D5:T1_OUT
    pub fn set_t1_out_en(&mut self, val: bool)
        ensures
            *final(self) == old(self).with_t1_out_en(val),
    {
        self.0 = (self.0 & !(0x01 << 0usize)) | (((val as u8) & 0x01) << 0usize);
    }

    /// D4:OSC_CLK_OUT
    #[verifier::allow_in_spec]
    pub fn oscclk_out_en(&self) -> (val: bool)
        returns
            bits::flag(self.0, 1),
    {
        (self.0 >> 1usize) & 0x01 != 0
    }

    /// This value with `oscclk_out_en` replaced by `val`.
    pub open spec fn with_oscclk_out_en(self, val: bool) -> Self {
        LpcdRft4(bits::with_flag(self.0, 1, val))
    }

    /// D4:OSC_CLK_OUT
    pub fn set_oscclk_out_en(&mut self, val: bool)
        ensures
            *final(self) == old(self).with_oscclk_out_en(val),
    {
        self.0 = (self.0 & !(0x01 << 1usize)) | (((val as u8) & 0x01) << 1usize);
    }

    /// D3:OSC_EN
    #[verifier::allow_in_spec]
    pub fn oscen_out_en(&self) -> (val: bool)
        returns
            bits::flag(self.0, 2),
    {
        (self.0 >> 2usize) & 0x01 != 0
    }

    /// This value with `oscen_out_en` replaced by `val`.
    pub open spec fn with_oscen_out_en(self, val: bool) -> Self {
        LpcdRft4(bits::with_flag(self.0, 2, val))
    }

    /// D3:OSC_EN
    pub fn set_oscen_out_en(&mut self, val: bool)
        ensures
            *final(self) == old(self).with_oscen_out_en(val),
    {
        self.0 = (self.0 & !(0x01 << 2usize)) | (((val as u8) & 0x01) << 2usize);
    }

    /// D2:LP_CLK or LPCD_OUT
    #[verifier::allow_in_spec]
    pub fn lp_clk_lpcd_out_en(&self) -> (val: bool)
        returns
            bits::flag(self.0, 3),
    {
        (self.0 >> 3usize) & 0x01 != 0
    }

    /// This value with `lp_clk_lpcd_out_en` replaced by `val`.
    pub open spec fn with_lp_clk_lpcd_out_en(self, val: bool) -> Self {
        LpcdRft4(bits::with_flag(self.0, 3, val))
    }

    /// D2:LP_CLK or LPCD_OUT
    pub fn set_lp_clk_lpcd_out_en(&mut self, val: bool)
        ensures
            *final(self) == old(self).with_lp_clk_lpcd_out_en(val),
    {
        self.0 = (self.0 & !(0x01 << 3usize)) | (((val as u8) & 0x01) << 3usize);
    }

    /// D1:T3_OUT
    #[verifier::allow_in_spec]
    pub fn t3_out_en(&self) -> (val: bool)
        returns
            bits::flag(self.0, 4),
    {
        (self.0 >> 4usize) & 0x01 != 0
    }

    /// This value with `t3_out_en` replaced by `val`.
    pub open spec fn with_t3_out_en(self, val: bool) -> Self {
        LpcdRft4(bits::with_flag(self.0, 4, val))
    }

    /// D1:T3_OUT
    pub fn set_t3_out_en(&mut self, val: bool)
        ensures
            *final(self) == old(self).with_t3_out_en(val),
    {
        self.0 = (self.0 & !(0x01 << 4usize)) | (((val as u8) & 0x01) << 4usize);
    }
}

impl Default for LpcdRft4 {
    fn default() -> (val: LpcdRft4)
        ensures
            val == LpcdRft4(0),
    {
        LpcdRft4(0)
    }
}

impl Value for LpcdRft4 {
    open spec fn bits(self) -> u8 {
        self.0
    }

    open spec fn of_bits(bits: u8) -> LpcdRft4 {
        LpcdRft4(bits)
    }

    proof fn lemma_bits_of_bits(bits: u8) {
    }

    fn to_bits(self) -> u8 {
        self.0
    }

    fn from_bits(bits: u8) -> LpcdRft4 {
        LpcdRft4(bits)
    }
}

/// The layout of the register `cwgsp`.
#[derive(Copy, Clone, Eq, PartialEq, Structural)]
pub struct Cwgsp(pub u8);

impl Cwgsp {
    #[verifier::allow_in_spec]
    pub fn cwgsp(&self) -> (val: u8)
        returns
            bits::field(self.0, 0, 0x3f),
    {
        (self.0 >> 0usize) & 0x3f
    }

    /// This value with `cwgsp` replaced by the low bits of `val`.
    pub open spec fn with_cwgsp(self, val: u8) -> Self {
        Cwgsp(bits::with_field(self.0, 0, 0x3f, val))
    }

    pub fn set_cwgsp(&mut self, val: u8)
        ensures
            *final(self) == old(self).with_cwgsp(val),
    {
        self.0 = (self.0 & !(0x3f << 0usize)) | ((val & 0x3f) << 0usize);
    }
}

impl Default for Cwgsp {
    fn default() -> (val: Cwgsp)
        ensures
            val == Cwgsp(0),
    {
        Cwgsp(0)
    }
}

impl Value for Cwgsp {
    open spec fn bits(self) -> u8 {
        self.0
    }

    open spec fn of_bits(bits: u8) -> Cwgsp {
        Cwgsp(bits)
    }

    proof fn lemma_bits_of_bits(bits: u8) {
    }

    fn to_bits(self) -> u8 {
        self.0
    }

    fn from_bits(bits: u8) -> Cwgsp {
        Cwgsp(bits)
    }
}

/// The layout of the register `txcontrol`.
#[derive(Copy, Clone, Eq, PartialEq, Structural)]
pub struct Txcontrol(pub u8);

impl Txcontrol {
    /// Switches the driver for Tx1 pin on.
    #[verifier::allow_in_spec]
    pub fn tx1rfen(&self) -> (val: bool)
        returns
            bits::flag(self.0, 0),
    {
        (self.0 >> 0usize) & 0x01 != 0
    }

    /// This value with `tx1rfen` replaced by `val`.
    pub open spec fn with_tx1rfen(self, val: bool) -> Self {
        Txcontrol(bits::with_flag(self.0, 0, val))
    }

    /// Switches the driver for Tx1 pin on.
    pub fn set_tx1rfen(&mut self, val: bool)
        ensures
            *final(self) == old(self).with_tx1rfen(val),
    {
        self.0 = (self.0 & !(0x01 << 0usize)) | (((val as u8) & 0x01) << 0usize);
    }

    /// Switches the driver for Tx2 pin on.
    #[verifier::allow_in_spec]
    pub fn tx2rfen(&self) -> (val: bool)
        returns
            bits::flag(self.0, 1),
    {
        (self.0 >> 1usize) & 0x01 != 0
    }

    /// This value with `tx2rfen` replaced by `val`.
    pub open spec fn with_tx2rfen(self, val: bool) -> Self {
        Txcontrol(bits::with_flag(self.0, 1, val))
    }

    /// Switches the driver for Tx2 pin on.
    pub fn set_tx2rfen(&mut self, val: bool)
        ensures
            *final(self) == old(self).with_tx2rfen(val),
    {
        self.0 = (self.0 & !(0x01 << 1usize)) | (((val as u8) & 0x01) << 1usize);
    }

    /// Does not activate the driver if an external RF is detected. Only valid in combination
    /// with JBIT_TX2RFEN and JBIT_TX1RFEN.
    #[verifier::allow_in_spec]
    pub fn checkrf(&self) -> (val: bool)
        returns
            bits::flag(self.0, 2),
    {
        (self.0 >> 2usize) & 0x01 != 0
    }

    /// This value with `checkrf` replaced by `val`.
    pub open spec fn with_checkrf(self, val: bool) -> Self {
        Txcontrol(bits::with_flag(self.0, 2, val))
    }

    /// Does not activate the driver if an external RF is detected. Only valid in combination
    /// with JBIT_TX2RFEN and JBIT_TX1RFEN.
    pub fn set_checkrf(&mut self, val: bool)
        ensures
            *final(self) == old(self).with_checkrf(val),
    {
        self.0 = (self.0 & !(0x01 << 2usize)) | (((val as u8) & 0x01) << 2usize);
    }

    /// Does not modulate the Tx2 output, only constant wave.
    #[verifier::allow_in_spec]
    pub fn tx2cw(&self) -> (val: bool)
        returns
            bits::flag(self.0, 3),
    {
        (self.0 >> 3usize) & 0x01 != 0
    }

    /// This value with `tx2cw` replaced by `val`.
    pub open spec fn with_tx2cw(self, val: bool) -> Self {
        Txcontrol(bits::with_flag(self.0, 3, val))
    }

    /// Does not modulate the Tx2 output, only constant wave.
    pub fn set_tx2cw(&mut self, val: bool)
        ensures
            *final(self) == old(self).with_tx2cw(val),
    {
        self.0 = (self.0 & !(0x01 << 3usize)) | (((val as u8) & 0x01) << 3usize);
    }

    /// Inverts the Tx1 output if drivers are switched off.
    #[verifier::allow_in_spec]
    pub fn invtx1off(&self) -> (val: bool)
        returns
            bits::flag(self.0, 4),
    {
        (self.0 >> 4usize) & 0x01 != 0
    }

    /// This value with `invtx1off` replaced by `val`.
    pub open spec fn with_invtx1off(self, val: bool) -> Self {
        Txcontrol(bits::with_flag(self.0, 4, val))
    }

    /// Inverts the Tx1 output if drivers are switched off.
    pub fn set_invtx1off(&mut self, val: bool)
        ensures
            *final(self) == old(self).with_invtx1off(val),
    {
        self.0 = (self.0 & !(0x01 << 4usize)) | (((val as u8) & 0x01) << 4usize);
    }

    /// Inverts the Tx2 output if drivers are switched off.
    #[verifier::allow_in_spec]
    pub fn invtx2off(&self) -> (val: bool)
        returns
            bits::flag(self.0, 5),
    {
        (self.0 >> 5usize) & 0x01 != 0
    }

    /// This value with `invtx2off` replaced by `val`.
    pub open spec fn with_invtx2off(self, val: bool) -> Self {
        Txcontrol(bits::with_flag(self.0, 5, val))
    }

    /// Inverts the Tx2 output if drivers are switched off.
    pub fn set_invtx2off(&mut self, val: bool)
        ensures
            *final(self) == old(self).with_invtx2off(val),
    {
        self.0 = (self.0 & !(0x01 << 5usize)) | (((val as u8) & 0x01) << 5usize);
    }

    /// Inverts the Tx1 output if drivers are switched on.
    #[verifier::allow_in_spec]
    pub fn invtx1on(&self) -> (val: bool)
        returns
            bits::flag(self.0, 6),
    {
        (self.0 >> 6usize) & 0x01 != 0
    }

    /// This value with `invtx1on` replaced by `val`.
    pub open spec fn with_invtx1on(self, val: bool) -> Self {
        Txcontrol(bits::with_flag(self.0, 6, val))
    }

    /// Inverts the Tx1 output if drivers are switched on.
    pub fn set_invtx1on(&mut self, val: bool)
        ensures
            *final(self) == old(self).with_invtx1on(val),
    {
        self.0 = (self.0 & !(0x01 << 6usize)) | (((val as u8) & 0x01) << 6usize);
    }

    /// Inverts the Tx2 output if drivers are switched on.
    #[verifier::allow_in_spec]
    pub fn invtx2on(&self) -> (val: bool)
        returns
            bits::flag(self.0, 7),
    {
        (self.0 >> 7usize) & 0x01 != 0
    }

    /// This value with `invtx2on` replaced by `val`.
    pub open spec fn with_invtx2on(self, val: bool) -> Self {
        Txcontrol(bits::with_flag(self.0, 7, val))
    }

    /// Inverts the Tx2 output if drivers are switched on.
    pub fn set_invtx2on(&mut self, val: bool)
        ensures
            *final(self) == old(self).with_invtx2on(val),
    {
        self.0 = (self.0 & !(0x01 << 7usize)) | (((val as u8) & 0x01) << 7usize);
    }
}

impl Default for Txcontrol {
    fn default() -> (val: Txcontrol)
        ensures
            val == Txcontrol(0),
    {
        Txcontrol(0)
    }
}

impl Value for Txcontrol {
    open spec fn bits(self) -> u8 {
        self.0
    }

    open spec fn of_bits(bits: u8) -> Txcontrol {
        Txcontrol(bits)
    }

    proof fn lemma_bits_of_bits(bits: u8) {
    }

    fn to_bits(self) -> u8 {
        self.0
    }

    fn from_bits(bits: u8) -> Txcontrol {
        Txcontrol(bits)
    }
}

/// What the field `speed` of [`Rxmode`] and its like can hold.
#[derive(Copy, Clone, Eq, PartialEq, Structural)]
pub struct Speed(pub u8);

impl Speed {
    /// 106kbps
    #[verifier::allow_in_spec]
    pub fn _106kbps() -> (val: Self)
        returns
            Speed(0),
    {
        Speed(0)
    }

    /// 212kbps
    #[verifier::allow_in_spec]
    pub fn _212kbps() -> (val: Self)
        returns
            Speed(1),
    {
        Speed(1)
    }

    /// 424kbps
    #[verifier::allow_in_spec]
    pub fn _424kbps() -> (val: Self)
        returns
            Speed(2),
    {
        Speed(2)
    }

    /// 848kbps
    #[verifier::allow_in_spec]
    pub fn _848kbps() -> (val: Self)
        returns
            Speed(3),
    {
        Speed(3)
    }

    /// 1.6Mbps
    #[verifier::allow_in_spec]
    pub fn _1_6mbps() -> (val: Self)
        returns
            Speed(4),
    {
        Speed(4)
    }

    /// 3.3Mbps
    #[verifier::allow_in_spec]
    pub fn _3_2mbps() -> (val: Self)
        returns
            Speed(5),
    {
        Speed(5)
    }
}

impl Value for Speed {
    open spec fn bits(self) -> u8 {
        self.0
    }

    open spec fn of_bits(bits: u8) -> Speed {
        Speed(bits)
    }

    proof fn lemma_bits_of_bits(bits: u8) {
    }

    fn to_bits(self) -> u8 {
        self.0
    }

    fn from_bits(bits: u8) -> Speed {
        Speed(bits)
    }
}

/// What the field `framing` of [`Rxmode`] and its like can hold.
#[derive(Copy, Clone, Eq, PartialEq, Structural)]
pub struct Framing(pub u8);

impl Framing {
    /// ISO14443A communication mode.
    #[verifier::allow_in_spec]
    pub fn iso14443a() -> (val: Self)
        returns
            Framing(0),
    {
        Framing(0)
    }

    /// NFC/Active communication mode.
    #[verifier::allow_in_spec]
    pub fn nfc() -> (val: Self)
        returns
            Framing(1),
    {
        Framing(1)
    }

    /// FeliCa communication mode.
    #[verifier::allow_in_spec]
    pub fn felica() -> (val: Self)
        returns
            Framing(2),
    {
        Framing(2)
    }

    /// ISO14443B communication mode.
    #[verifier::allow_in_spec]
    pub fn iso14443b() -> (val: Self)
        returns
            Framing(3),
    {
        Framing(3)
    }
}

impl Value for Framing {
    open spec fn bits(self) -> u8 {
        self.0
    }

    open spec fn of_bits(bits: u8) -> Framing {
        Framing(bits)
    }

    proof fn lemma_bits_of_bits(bits: u8) {
    }

    fn to_bits(self) -> u8 {
        self.0
    }

    fn from_bits(bits: u8) -> Framing {
        Framing(bits)
    }
}

/// What the field `command` of [`Command`] can hold.
#[derive(Copy, Clone, Eq, PartialEq, Structural)]
pub struct CommandVal(pub u8);

impl CommandVal {
    /// No action, cancel the current command execution
    #[verifier::allow_in_spec]
    pub fn idle() -> (val: Self)
        returns
            CommandVal(0),
    {
        CommandVal(0)
    }

    /// Configure FM17550 as ISO14443A card analog communication mode
    #[verifier::allow_in_spec]
    pub fn configure() -> (val: Self)
        returns
            CommandVal(1),
    {
        CommandVal(1)
    }

    /// Generate a 10-byte random number
    #[verifier::allow_in_spec]
    pub fn generaterandomid() -> (val: Self)
        returns
            CommandVal(2),
    {
        CommandVal(2)
    }

    /// Activate CRC coprocessor
    #[verifier::allow_in_spec]
    pub fn calccrc() -> (val: Self)
        returns
            CommandVal(3),
    {
        CommandVal(3)
    }

    /// Transmit Data in transmit FIFO buffer
    #[verifier::allow_in_spec]
    pub fn transmit() -> (val: Self)
        returns
            CommandVal(4),
    {
        CommandVal(4)
    }

    /// The instruction does not change and can be used to modify the instruction without
    /// affecting the instruction CommandReg registers, such as the PowerDown bit
    #[verifier::allow_in_spec]
    pub fn nocmdchange() -> (val: Self)
        returns
            CommandVal(7),
    {
        CommandVal(7)
    }

    /// Activate the receiver circuit
    #[verifier::allow_in_spec]
    pub fn receive() -> (val: Self)
        returns
            CommandVal(8),
    {
        CommandVal(8)
    }

    /// Transmit the data in the FIFO buffer to the antenna and automatically activate the
    /// receiver after transmission
    #[verifier::allow_in_spec]
    pub fn transceive() -> (val: Self)
        returns
            CommandVal(0x0c),
    {
        CommandVal(0x0c)
    }

    /// Handle ISO14443A anti-collision process (only supports card emulation mode)
    #[verifier::allow_in_spec]
    pub fn autocoll() -> (val: Self)
        returns
            CommandVal(0x0d),
    {
        CommandVal(0x0d)
    }

    /// Perform M1 security authentication as reader mode
    #[verifier::allow_in_spec]
    pub fn authent() -> (val: Self)
        returns
            CommandVal(0x0e),
    {
        CommandVal(0x0e)
    }

    /// Reset the FM17550
    #[verifier::allow_in_spec]
    pub fn softreset() -> (val: Self)
        returns
            CommandVal(0x0f),
    {
        CommandVal(0x0f)
    }
}

impl Value for CommandVal {
    open spec fn bits(self) -> u8 {
        self.0
    }

    open spec fn of_bits(bits: u8) -> CommandVal {
        CommandVal(bits)
    }

    proof fn lemma_bits_of_bits(bits: u8) {
    }

    fn to_bits(self) -> u8 {
        self.0
    }

    fn from_bits(bits: u8) -> CommandVal {
        CommandVal(bits)
    }
}

/// What the field `gain` of [`LpcdCtrl4`] can hold.
#[derive(Copy, Clone, Eq, PartialEq, Structural)]
pub struct LpcdGain(pub u8);

impl LpcdGain {
    /// 1.0x
    #[verifier::allow_in_spec]
    pub fn x1_0() -> (val: Self)
        returns
            LpcdGain(0),
    {
        LpcdGain(0)
    }

    /// 1.2x
    #[verifier::allow_in_spec]
    pub fn x1_2() -> (val: Self)
        returns
            LpcdGain(1),
    {
        LpcdGain(1)
    }

    /// 1.45x
    #[verifier::allow_in_spec]
    pub fn x1_45() -> (val: Self)
        returns
            LpcdGain(2),
    {
        LpcdGain(2)
    }

    /// 2.0x
    #[verifier::allow_in_spec]
    pub fn x2_0() -> (val: Self)
        returns
            LpcdGain(3),
    {
        LpcdGain(3)
    }

    /// 2.28x
    #[verifier::allow_in_spec]
    pub fn x2_28() -> (val: Self)
        returns
            LpcdGain(4),
    {
        LpcdGain(4)
    }

    /// 2.6x
    #[verifier::allow_in_spec]
    pub fn x2_6() -> (val: Self)
        returns
            LpcdGain(5),
    {
        LpcdGain(5)
    }

    /// 3.2x
    #[verifier::allow_in_spec]
    pub fn x3_2() -> (val: Self)
        returns
            LpcdGain(6),
    {
        LpcdGain(6)
    }

    /// 4.0x
    #[verifier::allow_in_spec]
    pub fn x4_0() -> (val: Self)
        returns
            LpcdGain(7),
    {
        LpcdGain(7)
    }
}

impl Value for LpcdGain {
    open spec fn bits(self) -> u8 {
        self.0
    }

    open spec fn of_bits(bits: u8) -> LpcdGain {
        LpcdGain(bits)
    }

    proof fn lemma_bits_of_bits(bits: u8) {
    }

    fn to_bits(self) -> u8 {
        self.0
    }

    fn from_bits(bits: u8) -> LpcdGain {
        LpcdGain(bits)
    }
}

/// What the field `time` of [`LpcdAutoWupCfg`] can hold.
#[derive(Copy, Clone, Eq, PartialEq, Structural)]
pub struct LpcdAutoWupTime(pub u8);

impl LpcdAutoWupTime {
    /// 6 seconds
    #[verifier::allow_in_spec]
    pub fn _6sec() -> (val: Self)
        returns
            LpcdAutoWupTime(0),
    {
        LpcdAutoWupTime(0)
    }

    /// 12 seconds
    #[verifier::allow_in_spec]
    pub fn _12sec() -> (val: Self)
        returns
            LpcdAutoWupTime(1),
    {
        LpcdAutoWupTime(1)
    }

    /// 15 min
    #[verifier::allow_in_spec]
    pub fn _15min() -> (val: Self)
        returns
            LpcdAutoWupTime(2),
    {
        LpcdAutoWupTime(2)
    }

    /// 30 min
    #[verifier::allow_in_spec]
    pub fn _30min() -> (val: Self)
        returns
            LpcdAutoWupTime(3),
    {
        LpcdAutoWupTime(3)
    }

    /// 1 hour
    #[verifier::allow_in_spec]
    pub fn _1hour() -> (val: Self)
        returns
            LpcdAutoWupTime(4),
    {
        LpcdAutoWupTime(4)
    }

    /// 1.8 hours
    #[verifier::allow_in_spec]
    pub fn _1_8hour() -> (val: Self)
        returns
            LpcdAutoWupTime(5),
    {
        LpcdAutoWupTime(5)
    }

    /// 3.6 hours
    #[verifier::allow_in_spec]
    pub fn _3_6hour() -> (val: Self)
        returns
            LpcdAutoWupTime(6),
    {
        LpcdAutoWupTime(6)
    }

    /// 7.2 hours
    #[verifier::allow_in_spec]
    pub fn _7_2hour() -> (val: Self)
        returns
            LpcdAutoWupTime(7),
    {
        LpcdAutoWupTime(7)
    }
}

impl Value for LpcdAutoWupTime {
    open spec fn bits(self) -> u8 {
        self.0
    }

    open spec fn of_bits(bits: u8) -> LpcdAutoWupTime {
        LpcdAutoWupTime(bits)
    }

    proof fn lemma_bits_of_bits(bits: u8) {
    }

    fn to_bits(self) -> u8 {
        self.0
    }

    fn from_bits(bits: u8) -> LpcdAutoWupTime {
        LpcdAutoWupTime(bits)
    }
}

/// What the field `t3clkdivk` of [`LpcdT1cfg`] can hold.
#[derive(Copy, Clone, Eq, PartialEq, Structural)]
pub struct LpcdT3clkdivk(pub u8);

impl LpcdT3clkdivk {
    #[verifier::allow_in_spec]
    pub fn div4() -> (val: Self)
        returns
            LpcdT3clkdivk(0),
    {
        LpcdT3clkdivk(0)
    }

    #[verifier::allow_in_spec]
    pub fn div8() -> (val: Self)
        returns
            LpcdT3clkdivk(1),
    {
        LpcdT3clkdivk(1)
    }

    #[verifier::allow_in_spec]
    pub fn div16() -> (val: Self)
        returns
            LpcdT3clkdivk(2),
    {
        LpcdT3clkdivk(2)
    }
}

impl Value for LpcdT3clkdivk {
    open spec fn bits(self) -> u8 {
        self.0
    }

    open spec fn of_bits(bits: u8) -> LpcdT3clkdivk {
        LpcdT3clkdivk(bits)
    }

    proof fn lemma_bits_of_bits(bits: u8) {
    }

    fn to_bits(self) -> u8 {
        self.0
    }

    fn from_bits(bits: u8) -> LpcdT3clkdivk {
        LpcdT3clkdivk(bits)
    }
}

/// What the field `rxgain` of [`Rfcfg`] can hold.
#[derive(Copy, Clone, Eq, PartialEq, Structural)]
pub struct Rxgain(pub u8);

impl Rxgain {
    /// 18 dB
    #[verifier::allow_in_spec]
    pub fn _18db() -> (val: Self)
        returns
            Rxgain(0),
    {
        Rxgain(0)
    }

    /// 23 dB
    #[verifier::allow_in_spec]
    pub fn _23db() -> (val: Self)
        returns
            Rxgain(1),
    {
        Rxgain(1)
    }

    /// 18 dB (dupe value)
    #[verifier::allow_in_spec]
    pub fn _18db_dup() -> (val: Self)
        returns
            Rxgain(2),
    {
        Rxgain(2)
    }

    /// 23 dB (dupe value)
    #[verifier::allow_in_spec]
    pub fn _23db_dup() -> (val: Self)
        returns
            Rxgain(3),
    {
        Rxgain(3)
    }

    /// 33 dB
    #[verifier::allow_in_spec]
    pub fn _33db() -> (val: Self)
        returns
            Rxgain(4),
    {
        Rxgain(4)
    }

    /// 38 dB
    #[verifier::allow_in_spec]
    pub fn _38db() -> (val: Self)
        returns
            Rxgain(5),
    {
        Rxgain(5)
    }

    /// 43 dB
    #[verifier::allow_in_spec]
    pub fn _43db() -> (val: Self)
        returns
            Rxgain(6),
    {
        Rxgain(6)
    }

    /// 48 dB
    #[verifier::allow_in_spec]
    pub fn _48db() -> (val: Self)
        returns
            Rxgain(7),
    {
        Rxgain(7)
    }
}

impl Value for Rxgain {
    open spec fn bits(self) -> u8 {
        self.0
    }

    open spec fn of_bits(bits: u8) -> Rxgain {
        Rxgain(bits)
    }

    proof fn lemma_bits_of_bits(bits: u8) {
    }

    fn to_bits(self) -> u8 {
        self.0
    }

    fn from_bits(bits: u8) -> Rxgain {
        Rxgain(bits)
    }
}

/// What the field `attenuation` of [`LpcdCtrl4`] can hold.
#[derive(Copy, Clone, Eq, PartialEq, Structural)]
pub struct LpcdAttenuation(pub u8);

impl LpcdAttenuation {
    /// 2/5x
    #[verifier::allow_in_spec]
    pub fn x2div5() -> (val: Self)
        returns
            LpcdAttenuation(0),
    {
        LpcdAttenuation(0)
    }

    /// 2/3x
    #[verifier::allow_in_spec]
    pub fn x2div3() -> (val: Self)
        returns
            LpcdAttenuation(1),
    {
        LpcdAttenuation(1)
    }

    /// 1/2x
    #[verifier::allow_in_spec]
    pub fn x1div2() -> (val: Self)
        returns
            LpcdAttenuation(2),
    {
        LpcdAttenuation(2)
    }

    /// 1x
    #[verifier::allow_in_spec]
    pub fn x1() -> (val: Self)
        returns
            LpcdAttenuation(3),
    {
        LpcdAttenuation(3)
    }
}

impl Value for LpcdAttenuation {
    open spec fn bits(self) -> u8 {
        self.0
    }

    open spec fn of_bits(bits: u8) -> LpcdAttenuation {
        LpcdAttenuation(bits)
    }

    proof fn lemma_bits_of_bits(bits: u8) {
    }

    fn to_bits(self) -> u8 {
        self.0
    }

    fn from_bits(bits: u8) -> LpcdAttenuation {
        LpcdAttenuation(bits)
    }
}

} // verus!
