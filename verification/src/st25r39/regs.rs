//! The register map of the ST25R39xx.
//!
//! Every register is a byte. [`Regs`] hands out a [`Reg`] for each logical
//! address, typed by the layout of the byte. A layout is a tuple struct
//! around the byte with a getter and a setter for each named field; the
//! contracts of both are stated with the spec functions of [`crate::bits`].
use core::marker::PhantomData;
use vstd::prelude::*;
use crate::bits;
use super::interface::{Interface, Op};
use super::Error;

verus! {

/// A value that fills one register: the byte itself or a layout over it.
pub trait Value: Copy {
    /// The byte that stands for this value on the bus.
    spec fn bits(self) -> u8;

    /// The value that a byte read from the bus stands for.
    spec fn of_bits(bits: u8) -> Self;

    proof fn lemma_bits_of_bits(bits: u8)
        ensures
            Self::of_bits(bits).bits() == bits,
    ;

    fn to_bits(self) -> (bits: u8)
        ensures
            bits == self.bits(),
    ;

    fn from_bits(bits: u8) -> (val: Self)
        ensures
            val == Self::of_bits(bits),
    ;
}

impl Value for u8 {
    open spec fn bits(self) -> u8 {
        self
    }

    open spec fn of_bits(bits: u8) -> u8 {
        bits
    }

    proof fn lemma_bits_of_bits(bits: u8) {
    }

    fn to_bits(self) -> u8 {
        self
    }

    fn from_bits(bits: u8) -> u8 {
        bits
    }
}

/// One register of the chip: a bus handle and a logical address.
pub struct Reg<'a, I: Interface, T: Copy> {
    pub addr: u8,
    pub iface: &'a mut I,
    pub phantom: PhantomData<&'a mut T>,
}

impl<'a, I: Interface, T: Value> Reg<'a, I, T> {
    /// The register at `addr` on the bus `iface`.
    pub fn new(iface: &'a mut I, addr: u8) -> (r: Self)
        ensures
            r.addr == addr,
            *r.iface == *old(iface),
            *final(r.iface) == *final(iface),
    {
        Self { iface, addr, phantom: PhantomData }
    }

    /// Reads the register. Fails only if the bus does, and then with its
    /// error.
    pub fn read(&mut self) -> (res: Result<T, Error<I::Error>>)
        requires
            old(self).addr < 0xC0,
        ensures
            final(self).addr == old(self).addr,
            *final(final(self).iface) == *final(old(self).iface),
            res matches Ok(val) ==> final(self).iface.ops() == old(self).iface.ops().push(
                Op::Read { reg: old(self).addr, val: val.bits() },
            ),
            res matches Err(e) ==> e is Interface && final(self).iface.ops() == old(
                self,
            ).iface.ops(),
    {
        match self.iface.read_reg(self.addr) {
            Ok(bits) => {
                proof {
                    T::lemma_bits_of_bits(bits);
                }
                Ok(T::from_bits(bits))
            },
            Err(e) => Err(Error::Interface(e)),
        }
    }

    /// Writes `val` to the register. Fails only if the bus does, and then
    /// with its error.
    pub fn write_value(&mut self, val: T) -> (res: Result<(), Error<I::Error>>)
        requires
            old(self).addr < 0xC0,
        ensures
            final(self).addr == old(self).addr,
            *final(final(self).iface) == *final(old(self).iface),
            res is Ok ==> final(self).iface.ops() == old(self).iface.ops().push(
                Op::Write { reg: old(self).addr, val: val.bits() },
            ),
            res matches Err(e) ==> e is Interface && final(self).iface.ops() == old(
                self,
            ).iface.ops(),
    {
        match self.iface.write_reg(self.addr, val.to_bits()) {
            Ok(()) => Ok(()),
            Err(e) => Err(Error::Interface(e)),
        }
    }

    /// Reads the register, lets `f` change the value, and writes it back.
    pub fn modify<Out, F: FnOnce(&mut T) -> Out>(&mut self, f: F) -> (res: Result<
        Out,
        Error<I::Error>,
    >)
        requires
            old(self).addr < 0xC0,
            forall|w: &mut T| #[trigger] f.requires((w,)),
        ensures
            final(self).addr == old(self).addr,
            *final(final(self).iface) == *final(old(self).iface),
            res matches Ok(out) ==> exists|w: &mut T| #[trigger]
                f.ensures((w,), out) && final(self).iface.ops() == old(self).iface.ops().push(
                    Op::Read { reg: old(self).addr, val: (*w).bits() },
                ).push(Op::Write { reg: old(self).addr, val: (*final(w)).bits() }),
            res matches Err(e) ==> e is Interface,
    {
        let mut val = match self.read() {
            Ok(val) => val,
            Err(e) => {
                return Err(e);
            },
        };
        let ghost before = val;
        let out = f(&mut val);
        let ghost w = choose|w: &mut T| #[trigger]
            f.ensures((w,), out) && *w == before && *final(w) == val;
        match self.write_value(val) {
            Ok(()) => {},
            Err(e) => {
                return Err(e);
            },
        }
        let res: Result<Out, Error<I::Error>> = Ok(out);
        assert(f.ensures((w,), res->Ok_0) && self.iface.ops() == old(self).iface.ops().push(
            Op::Read { reg: old(self).addr, val: (*w).bits() },
        ).push(Op::Write { reg: old(self).addr, val: (*final(w)).bits() }));
        res
    }

    /// Starts from the all-zero value, lets `f` change it, and writes it.
    pub fn write<Out, F: FnOnce(&mut T) -> Out>(&mut self, f: F) -> (res: Result<
        Out,
        Error<I::Error>,
    >)
        requires
            old(self).addr < 0xC0,
            forall|w: &mut T| *w == T::of_bits(0) ==> #[trigger] f.requires((w,)),
        ensures
            final(self).addr == old(self).addr,
            *final(final(self).iface) == *final(old(self).iface),
            res matches Ok(out) ==> exists|w: &mut T| #[trigger]
                f.ensures((w,), out) && *w == T::of_bits(0) && final(self).iface.ops() == old(
                    self,
                ).iface.ops().push(Op::Write { reg: old(self).addr, val: (*final(w)).bits() }),
            res matches Err(e) ==> e is Interface && final(self).iface.ops() == old(
                self,
            ).iface.ops(),
    {
        let mut val = T::from_bits(0);
        let out = f(&mut val);
        let ghost w = choose|w: &mut T| #[trigger]
            f.ensures((w,), out) && *w == T::of_bits(0) && *final(w) == val;
        match self.write_value(val) {
            Ok(()) => {},
            Err(e) => {
                return Err(e);
            },
        }
        let res: Result<Out, Error<I::Error>> = Ok(out);
        assert(f.ensures((w,), res->Ok_0) && *w == T::of_bits(0) && self.iface.ops() == old(
            self,
        ).iface.ops().push(Op::Write { reg: old(self).addr, val: (*final(w)).bits() }));
        res
    }
}

/// The register map, as a view over a bus handle.
pub struct Regs<'a, I: Interface> {
    pub iface: &'a mut I,
}

impl<'a, I: Interface> Regs<'a, I> {
    /// The register map on the bus `iface`.
    pub fn new(iface: &'a mut I) -> (r: Self)
        ensures
            *r.iface == *old(iface),
            *final(r.iface) == *final(iface),
    {
        Self { iface }
    }

    pub fn io_conf1(&mut self) -> (r: Reg<'_, I, IoConf1>)
        ensures
            r.addr == IO_CONF1,
            *r.iface == *old(self).iface,
            *final(self).iface == *final(r.iface),
            *final(final(self).iface) == *final(old(self).iface),
    {
        Reg::new(self.iface, IO_CONF1)
    }

    pub fn io_conf2(&mut self) -> (r: Reg<'_, I, IoConf2>)
        ensures
            r.addr == IO_CONF2,
            *r.iface == *old(self).iface,
            *final(self).iface == *final(r.iface),
            *final(final(self).iface) == *final(old(self).iface),
    {
        Reg::new(self.iface, IO_CONF2)
    }

    pub fn op_control(&mut self) -> (r: Reg<'_, I, OpControl>)
        ensures
            r.addr == OP_CONTROL,
            *r.iface == *old(self).iface,
            *final(self).iface == *final(r.iface),
            *final(final(self).iface) == *final(old(self).iface),
    {
        Reg::new(self.iface, OP_CONTROL)
    }

    pub fn mode(&mut self) -> (r: Reg<'_, I, Mode>)
        ensures
            r.addr == MODE,
            *r.iface == *old(self).iface,
            *final(self).iface == *final(r.iface),
            *final(final(self).iface) == *final(old(self).iface),
    {
        Reg::new(self.iface, MODE)
    }

    pub fn bit_rate(&mut self) -> (r: Reg<'_, I, BitRate>)
        ensures
            r.addr == BIT_RATE,
            *r.iface == *old(self).iface,
            *final(self).iface == *final(r.iface),
            *final(final(self).iface) == *final(old(self).iface),
    {
        Reg::new(self.iface, BIT_RATE)
    }

    pub fn iso14443a_nfc(&mut self) -> (r: Reg<'_, I, Iso14443aNfc>)
        ensures
            r.addr == ISO14443A_NFC,
            *r.iface == *old(self).iface,
            *final(self).iface == *final(r.iface),
            *final(final(self).iface) == *final(old(self).iface),
    {
        Reg::new(self.iface, ISO14443A_NFC)
    }

    pub fn iso14443b_1(&mut self) -> (r: Reg<'_, I, Iso14443b1>)
        ensures
            r.addr == ISO14443B_1,
            *r.iface == *old(self).iface,
            *final(self).iface == *final(r.iface),
            *final(final(self).iface) == *final(old(self).iface),
    {
        Reg::new(self.iface, ISO14443B_1)
    }

    pub fn iso14443b_2(&mut self) -> (r: Reg<'_, I, Iso14443b2>)
        ensures
            r.addr == ISO14443B_2,
            *r.iface == *old(self).iface,
            *final(self).iface == *final(r.iface),
            *final(final(self).iface) == *final(old(self).iface),
    {
        Reg::new(self.iface, ISO14443B_2)
    }

    pub fn passive_target(&mut self) -> (r: Reg<'_, I, PassiveTarget>)
        ensures
            r.addr == PASSIVE_TARGET,
            *r.iface == *old(self).iface,
            *final(self).iface == *final(r.iface),
            *final(final(self).iface) == *final(old(self).iface),
    {
        Reg::new(self.iface, PASSIVE_TARGET)
    }

    pub fn stream_mode(&mut self) -> (r: Reg<'_, I, StreamMode>)
        ensures
            r.addr == STREAM_MODE,
            *r.iface == *old(self).iface,
            *final(self).iface == *final(r.iface),
            *final(final(self).iface) == *final(old(self).iface),
    {
        Reg::new(self.iface, STREAM_MODE)
    }

    pub fn aux(&mut self) -> (r: Reg<'_, I, Aux>)
        ensures
            r.addr == AUX,
            *r.iface == *old(self).iface,
            *final(self).iface == *final(r.iface),
            *final(final(self).iface) == *final(old(self).iface),
    {
        Reg::new(self.iface, AUX)
    }

    pub fn rx_conf1(&mut self) -> (r: Reg<'_, I, RxConf1>)
        ensures
            r.addr == RX_CONF1,
            *r.iface == *old(self).iface,
            *final(self).iface == *final(r.iface),
            *final(final(self).iface) == *final(old(self).iface),
    {
        Reg::new(self.iface, RX_CONF1)
    }

    pub fn rx_conf2(&mut self) -> (r: Reg<'_, I, RxConf2>)
        ensures
            r.addr == RX_CONF2,
            *r.iface == *old(self).iface,
            *final(self).iface == *final(r.iface),
            *final(final(self).iface) == *final(old(self).iface),
    {
        Reg::new(self.iface, RX_CONF2)
    }

    pub fn rx_conf3(&mut self) -> (r: Reg<'_, I, RxConf3>)
        ensures
            r.addr == RX_CONF3,
            *r.iface == *old(self).iface,
            *final(self).iface == *final(r.iface),
            *final(final(self).iface) == *final(old(self).iface),
    {
        Reg::new(self.iface, RX_CONF3)
    }

    pub fn rx_conf4(&mut self) -> (r: Reg<'_, I, RxConf4>)
        ensures
            r.addr == RX_CONF4,
            *r.iface == *old(self).iface,
            *final(self).iface == *final(r.iface),
            *final(final(self).iface) == *final(old(self).iface),
    {
        Reg::new(self.iface, RX_CONF4)
    }

    pub fn mask_rx_timer(&mut self) -> (r: Reg<'_, I, u8>)
        ensures
            r.addr == MASK_RX_TIMER,
            *r.iface == *old(self).iface,
            *final(self).iface == *final(r.iface),
            *final(final(self).iface) == *final(old(self).iface),
    {
        Reg::new(self.iface, MASK_RX_TIMER)
    }

    pub fn no_response_timer1(&mut self) -> (r: Reg<'_, I, u8>)
        ensures
            r.addr == NO_RESPONSE_TIMER1,
            *r.iface == *old(self).iface,
            *final(self).iface == *final(r.iface),
            *final(final(self).iface) == *final(old(self).iface),
    {
        Reg::new(self.iface, NO_RESPONSE_TIMER1)
    }

    pub fn no_response_timer2(&mut self) -> (r: Reg<'_, I, u8>)
        ensures
            r.addr == NO_RESPONSE_TIMER2,
            *r.iface == *old(self).iface,
            *final(self).iface == *final(r.iface),
            *final(final(self).iface) == *final(old(self).iface),
    {
        Reg::new(self.iface, NO_RESPONSE_TIMER2)
    }

    pub fn timer_emv_control(&mut self) -> (r: Reg<'_, I, TimerEmvControl>)
        ensures
            r.addr == TIMER_EMV_CONTROL,
            *r.iface == *old(self).iface,
            *final(self).iface == *final(r.iface),
            *final(final(self).iface) == *final(old(self).iface),
    {
        Reg::new(self.iface, TIMER_EMV_CONTROL)
    }

    pub fn gpt1(&mut self) -> (r: Reg<'_, I, u8>)
        ensures
            r.addr == GPT1,
            *r.iface == *old(self).iface,
            *final(self).iface == *final(r.iface),
            *final(final(self).iface) == *final(old(self).iface),
    {
        Reg::new(self.iface, GPT1)
    }

    pub fn gpt2(&mut self) -> (r: Reg<'_, I, u8>)
        ensures
            r.addr == GPT2,
            *r.iface == *old(self).iface,
            *final(self).iface == *final(r.iface),
            *final(final(self).iface) == *final(old(self).iface),
    {
        Reg::new(self.iface, GPT2)
    }

    pub fn ppon2(&mut self) -> (r: Reg<'_, I, u8>)
        ensures
            r.addr == PPON2,
            *r.iface == *old(self).iface,
            *final(self).iface == *final(r.iface),
            *final(final(self).iface) == *final(old(self).iface),
    {
        Reg::new(self.iface, PPON2)
    }

    /// Register `n` of the four that start at [`IRQ_MASK`].
    pub fn irq_mask(&mut self, n: u8) -> (r: Reg<'_, I, u8>)
        requires
            n < 4,
        ensures
            r.addr == IRQ_MASK + n,
            *r.iface == *old(self).iface,
            *final(self).iface == *final(r.iface),
            *final(final(self).iface) == *final(old(self).iface),
    {
        Reg::new(self.iface, IRQ_MASK + n)
    }

    /// Register `n` of the four that start at [`IRQ_MAIN`].
    pub fn irq_main(&mut self, n: u8) -> (r: Reg<'_, I, u8>)
        requires
            n < 4,
        ensures
            r.addr == IRQ_MAIN + n,
            *r.iface == *old(self).iface,
            *final(self).iface == *final(r.iface),
            *final(final(self).iface) == *final(old(self).iface),
    {
        Reg::new(self.iface, IRQ_MAIN + n)
    }

    pub fn fifo_status1(&mut self) -> (r: Reg<'_, I, u8>)
        ensures
            r.addr == FIFO_STATUS1,
            *r.iface == *old(self).iface,
            *final(self).iface == *final(r.iface),
            *final(final(self).iface) == *final(old(self).iface),
    {
        Reg::new(self.iface, FIFO_STATUS1)
    }

    pub fn fifo_status2(&mut self) -> (r: Reg<'_, I, FifoStatus2>)
        ensures
            r.addr == FIFO_STATUS2,
            *r.iface == *old(self).iface,
            *final(self).iface == *final(r.iface),
            *final(final(self).iface) == *final(old(self).iface),
    {
        Reg::new(self.iface, FIFO_STATUS2)
    }

    pub fn collision_status(&mut self) -> (r: Reg<'_, I, CollisionStatus>)
        ensures
            r.addr == COLLISION_STATUS,
            *r.iface == *old(self).iface,
            *final(self).iface == *final(r.iface),
            *final(final(self).iface) == *final(old(self).iface),
    {
        Reg::new(self.iface, COLLISION_STATUS)
    }

    pub fn passive_target_status(&mut self) -> (r: Reg<'_, I, PassiveTargetStatus>)
        ensures
            r.addr == PASSIVE_TARGET_STATUS,
            *r.iface == *old(self).iface,
            *final(self).iface == *final(r.iface),
            *final(final(self).iface) == *final(old(self).iface),
    {
        Reg::new(self.iface, PASSIVE_TARGET_STATUS)
    }

    pub fn num_tx_bytes1(&mut self) -> (r: Reg<'_, I, u8>)
        ensures
            r.addr == NUM_TX_BYTES1,
            *r.iface == *old(self).iface,
            *final(self).iface == *final(r.iface),
            *final(final(self).iface) == *final(old(self).iface),
    {
        Reg::new(self.iface, NUM_TX_BYTES1)
    }

    pub fn num_tx_bytes2(&mut self) -> (r: Reg<'_, I, NumTxBytes2>)
        ensures
            r.addr == NUM_TX_BYTES2,
            *r.iface == *old(self).iface,
            *final(self).iface == *final(r.iface),
            *final(final(self).iface) == *final(old(self).iface),
    {
        Reg::new(self.iface, NUM_TX_BYTES2)
    }

    pub fn nfcip1_bit_rate(&mut self) -> (r: Reg<'_, I, Nfcip1BitRate>)
        ensures
            r.addr == NFCIP1_BIT_RATE,
            *r.iface == *old(self).iface,
            *final(self).iface == *final(r.iface),
            *final(final(self).iface) == *final(old(self).iface),
    {
        Reg::new(self.iface, NFCIP1_BIT_RATE)
    }

    pub fn ad_result(&mut self) -> (r: Reg<'_, I, u8>)
        ensures
            r.addr == AD_RESULT,
            *r.iface == *old(self).iface,
            *final(self).iface == *final(r.iface),
            *final(final(self).iface) == *final(old(self).iface),
    {
        Reg::new(self.iface, AD_RESULT)
    }

    pub fn ant_tune_a(&mut self) -> (r: Reg<'_, I, u8>)
        ensures
            r.addr == ANT_TUNE_A,
            *r.iface == *old(self).iface,
            *final(self).iface == *final(r.iface),
            *final(final(self).iface) == *final(old(self).iface),
    {
        Reg::new(self.iface, ANT_TUNE_A)
    }

    pub fn ant_tune_b(&mut self) -> (r: Reg<'_, I, u8>)
        ensures
            r.addr == ANT_TUNE_B,
            *r.iface == *old(self).iface,
            *final(self).iface == *final(r.iface),
            *final(final(self).iface) == *final(old(self).iface),
    {
        Reg::new(self.iface, ANT_TUNE_B)
    }

    pub fn tx_driver(&mut self) -> (r: Reg<'_, I, TxDriver>)
        ensures
            r.addr == TX_DRIVER,
            *r.iface == *old(self).iface,
            *final(self).iface == *final(r.iface),
            *final(final(self).iface) == *final(old(self).iface),
    {
        Reg::new(self.iface, TX_DRIVER)
    }

    pub fn pt_mod(&mut self) -> (r: Reg<'_, I, PtMod>)
        ensures
            r.addr == PT_MOD,
            *r.iface == *old(self).iface,
            *final(self).iface == *final(r.iface),
            *final(final(self).iface) == *final(old(self).iface),
    {
        Reg::new(self.iface, PT_MOD)
    }

    pub fn field_threshold_actv(&mut self) -> (r: Reg<'_, I, FieldThresholdActv>)
        ensures
            r.addr == FIELD_THRESHOLD_ACTV,
            *r.iface == *old(self).iface,
            *final(self).iface == *final(r.iface),
            *final(final(self).iface) == *final(old(self).iface),
    {
        Reg::new(self.iface, FIELD_THRESHOLD_ACTV)
    }

    pub fn field_threshold_deactv(&mut self) -> (r: Reg<'_, I, FieldThresholdDeactv>)
        ensures
            r.addr == FIELD_THRESHOLD_DEACTV,
            *r.iface == *old(self).iface,
            *final(self).iface == *final(r.iface),
            *final(final(self).iface) == *final(old(self).iface),
    {
        Reg::new(self.iface, FIELD_THRESHOLD_DEACTV)
    }

    pub fn regulator_control(&mut self) -> (r: Reg<'_, I, RegulatorControl>)
        ensures
            r.addr == REGULATOR_CONTROL,
            *r.iface == *old(self).iface,
            *final(self).iface == *final(r.iface),
            *final(final(self).iface) == *final(old(self).iface),
    {
        Reg::new(self.iface, REGULATOR_CONTROL)
    }

    pub fn rssi_result(&mut self) -> (r: Reg<'_, I, RssiResult>)
        ensures
            r.addr == RSSI_RESULT,
            *r.iface == *old(self).iface,
            *final(self).iface == *final(r.iface),
            *final(final(self).iface) == *final(old(self).iface),
    {
        Reg::new(self.iface, RSSI_RESULT)
    }

    pub fn gain_red_state(&mut self) -> (r: Reg<'_, I, GainRedState>)
        ensures
            r.addr == GAIN_RED_STATE,
            *r.iface == *old(self).iface,
            *final(self).iface == *final(r.iface),
            *final(final(self).iface) == *final(old(self).iface),
    {
        Reg::new(self.iface, GAIN_RED_STATE)
    }

    pub fn cap_sensor_control(&mut self) -> (r: Reg<'_, I, CapSensorControl>)
        ensures
            r.addr == CAP_SENSOR_CONTROL,
            *r.iface == *old(self).iface,
            *final(self).iface == *final(r.iface),
            *final(final(self).iface) == *final(old(self).iface),
    {
        Reg::new(self.iface, CAP_SENSOR_CONTROL)
    }

    pub fn cap_sensor_result(&mut self) -> (r: Reg<'_, I, CapSensorResult>)
        ensures
            r.addr == CAP_SENSOR_RESULT,
            *r.iface == *old(self).iface,
            *final(self).iface == *final(r.iface),
            *final(final(self).iface) == *final(old(self).iface),
    {
        Reg::new(self.iface, CAP_SENSOR_RESULT)
    }

    pub fn aux_display(&mut self) -> (r: Reg<'_, I, AuxDisplay>)
        ensures
            r.addr == AUX_DISPLAY,
            *r.iface == *old(self).iface,
            *final(self).iface == *final(r.iface),
            *final(final(self).iface) == *final(old(self).iface),
    {
        Reg::new(self.iface, AUX_DISPLAY)
    }

    pub fn wup_timer_control(&mut self) -> (r: Reg<'_, I, WupTimerControl>)
        ensures
            r.addr == WUP_TIMER_CONTROL,
            *r.iface == *old(self).iface,
            *final(self).iface == *final(r.iface),
            *final(final(self).iface) == *final(old(self).iface),
    {
        Reg::new(self.iface, WUP_TIMER_CONTROL)
    }

    pub fn amplitude_measure_conf(&mut self) -> (r: Reg<'_, I, AmplitudeMeasureConf>)
        ensures
            r.addr == AMPLITUDE_MEASURE_CONF,
            *r.iface == *old(self).iface,
            *final(self).iface == *final(r.iface),
            *final(final(self).iface) == *final(old(self).iface),
    {
        Reg::new(self.iface, AMPLITUDE_MEASURE_CONF)
    }

    pub fn amplitude_measure_ref(&mut self) -> (r: Reg<'_, I, u8>)
        ensures
            r.addr == AMPLITUDE_MEASURE_REF,
            *r.iface == *old(self).iface,
            *final(self).iface == *final(r.iface),
            *final(final(self).iface) == *final(old(self).iface),
    {
        Reg::new(self.iface, AMPLITUDE_MEASURE_REF)
    }

    pub fn amplitude_measure_aa_result(&mut self) -> (r: Reg<'_, I, u8>)
        ensures
            r.addr == AMPLITUDE_MEASURE_AA_RESULT,
            *r.iface == *old(self).iface,
            *final(self).iface == *final(r.iface),
            *final(final(self).iface) == *final(old(self).iface),
    {
        Reg::new(self.iface, AMPLITUDE_MEASURE_AA_RESULT)
    }

    pub fn amplitude_measure_result(&mut self) -> (r: Reg<'_, I, u8>)
        ensures
            r.addr == AMPLITUDE_MEASURE_RESULT,
            *r.iface == *old(self).iface,
            *final(self).iface == *final(r.iface),
            *final(final(self).iface) == *final(old(self).iface),
    {
        Reg::new(self.iface, AMPLITUDE_MEASURE_RESULT)
    }

    pub fn phase_measure_conf(&mut self) -> (r: Reg<'_, I, PhaseMeasureConf>)
        ensures
            r.addr == PHASE_MEASURE_CONF,
            *r.iface == *old(self).iface,
            *final(self).iface == *final(r.iface),
            *final(final(self).iface) == *final(old(self).iface),
    {
        Reg::new(self.iface, PHASE_MEASURE_CONF)
    }

    pub fn phase_measure_ref(&mut self) -> (r: Reg<'_, I, u8>)
        ensures
            r.addr == PHASE_MEASURE_REF,
            *r.iface == *old(self).iface,
            *final(self).iface == *final(r.iface),
            *final(final(self).iface) == *final(old(self).iface),
    {
        Reg::new(self.iface, PHASE_MEASURE_REF)
    }

    pub fn phase_measure_aa_result(&mut self) -> (r: Reg<'_, I, u8>)
        ensures
            r.addr == PHASE_MEASURE_AA_RESULT,
            *r.iface == *old(self).iface,
            *final(self).iface == *final(r.iface),
            *final(final(self).iface) == *final(old(self).iface),
    {
        Reg::new(self.iface, PHASE_MEASURE_AA_RESULT)
    }

    pub fn phase_measure_result(&mut self) -> (r: Reg<'_, I, u8>)
        ensures
            r.addr == PHASE_MEASURE_RESULT,
            *r.iface == *old(self).iface,
            *final(self).iface == *final(r.iface),
            *final(final(self).iface) == *final(old(self).iface),
    {
        Reg::new(self.iface, PHASE_MEASURE_RESULT)
    }

    pub fn capacitance_measure_conf(&mut self) -> (r: Reg<'_, I, CapacitanceMeasureConf>)
        ensures
            r.addr == CAPACITANCE_MEASURE_CONF,
            *r.iface == *old(self).iface,
            *final(self).iface == *final(r.iface),
            *final(final(self).iface) == *final(old(self).iface),
    {
        Reg::new(self.iface, CAPACITANCE_MEASURE_CONF)
    }

    pub fn capacitance_measure_ref(&mut self) -> (r: Reg<'_, I, u8>)
        ensures
            r.addr == CAPACITANCE_MEASURE_REF,
            *r.iface == *old(self).iface,
            *final(self).iface == *final(r.iface),
            *final(final(self).iface) == *final(old(self).iface),
    {
        Reg::new(self.iface, CAPACITANCE_MEASURE_REF)
    }

    pub fn capacitance_measure_aa_result(&mut self) -> (r: Reg<'_, I, u8>)
        ensures
            r.addr == CAPACITANCE_MEASURE_AA_RESULT,
            *r.iface == *old(self).iface,
            *final(self).iface == *final(r.iface),
            *final(final(self).iface) == *final(old(self).iface),
    {
        Reg::new(self.iface, CAPACITANCE_MEASURE_AA_RESULT)
    }

    pub fn capacitance_measure_result(&mut self) -> (r: Reg<'_, I, u8>)
        ensures
            r.addr == CAPACITANCE_MEASURE_RESULT,
            *r.iface == *old(self).iface,
            *final(self).iface == *final(r.iface),
            *final(final(self).iface) == *final(old(self).iface),
    {
        Reg::new(self.iface, CAPACITANCE_MEASURE_RESULT)
    }

    pub fn ic_identity(&mut self) -> (r: Reg<'_, I, IcIdentity>)
        ensures
            r.addr == IC_IDENTITY,
            *r.iface == *old(self).iface,
            *final(self).iface == *final(r.iface),
            *final(final(self).iface) == *final(old(self).iface),
    {
        Reg::new(self.iface, IC_IDENTITY)
    }

    pub fn emd_sup_conf(&mut self) -> (r: Reg<'_, I, EmdSupConf>)
        ensures
            r.addr == EMD_SUP_CONF,
            *r.iface == *old(self).iface,
            *final(self).iface == *final(r.iface),
            *final(final(self).iface) == *final(old(self).iface),
    {
        Reg::new(self.iface, EMD_SUP_CONF)
    }

    pub fn subc_start_time(&mut self) -> (r: Reg<'_, I, SubcStartTime>)
        ensures
            r.addr == SUBC_START_TIME,
            *r.iface == *old(self).iface,
            *final(self).iface == *final(r.iface),
            *final(final(self).iface) == *final(old(self).iface),
    {
        Reg::new(self.iface, SUBC_START_TIME)
    }

    pub fn p2p_rx_conf(&mut self) -> (r: Reg<'_, I, P2pRxConf>)
        ensures
            r.addr == P2P_RX_CONF,
            *r.iface == *old(self).iface,
            *final(self).iface == *final(r.iface),
            *final(final(self).iface) == *final(old(self).iface),
    {
        Reg::new(self.iface, P2P_RX_CONF)
    }

    pub fn corr_conf1(&mut self) -> (r: Reg<'_, I, CorrConf1>)
        ensures
            r.addr == CORR_CONF1,
            *r.iface == *old(self).iface,
            *final(self).iface == *final(r.iface),
            *final(final(self).iface) == *final(old(self).iface),
    {
        Reg::new(self.iface, CORR_CONF1)
    }

    pub fn corr_conf2(&mut self) -> (r: Reg<'_, I, CorrConf2>)
        ensures
            r.addr == CORR_CONF2,
            *r.iface == *old(self).iface,
            *final(self).iface == *final(r.iface),
            *final(final(self).iface) == *final(old(self).iface),
    {
        Reg::new(self.iface, CORR_CONF2)
    }

    pub fn squelch_timer(&mut self) -> (r: Reg<'_, I, u8>)
        ensures
            r.addr == SQUELCH_TIMER,
            *r.iface == *old(self).iface,
            *final(self).iface == *final(r.iface),
            *final(final(self).iface) == *final(old(self).iface),
    {
        Reg::new(self.iface, SQUELCH_TIMER)
    }

    pub fn field_on_gt(&mut self) -> (r: Reg<'_, I, u8>)
        ensures
            r.addr == FIELD_ON_GT,
            *r.iface == *old(self).iface,
            *final(self).iface == *final(r.iface),
            *final(final(self).iface) == *final(old(self).iface),
    {
        Reg::new(self.iface, FIELD_ON_GT)
    }

    pub fn aux_mod(&mut self) -> (r: Reg<'_, I, AuxMod>)
        ensures
            r.addr == AUX_MOD,
            *r.iface == *old(self).iface,
            *final(self).iface == *final(r.iface),
            *final(final(self).iface) == *final(old(self).iface),
    {
        Reg::new(self.iface, AUX_MOD)
    }

    pub fn tx_driver_timing(&mut self) -> (r: Reg<'_, I, TxDriverTiming>)
        ensures
            r.addr == TX_DRIVER_TIMING,
            *r.iface == *old(self).iface,
            *final(self).iface == *final(r.iface),
            *final(final(self).iface) == *final(old(self).iface),
    {
        Reg::new(self.iface, TX_DRIVER_TIMING)
    }

    pub fn res_am_mod(&mut self) -> (r: Reg<'_, I, ResAmMod>)
        ensures
            r.addr == RES_AM_MOD,
            *r.iface == *old(self).iface,
            *final(self).iface == *final(r.iface),
            *final(final(self).iface) == *final(old(self).iface),
    {
        Reg::new(self.iface, RES_AM_MOD)
    }

    pub fn tx_driver_status(&mut self) -> (r: Reg<'_, I, TxDriverStatus>)
        ensures
            r.addr == TX_DRIVER_STATUS,
            *r.iface == *old(self).iface,
            *final(self).iface == *final(r.iface),
            *final(final(self).iface) == *final(old(self).iface),
    {
        Reg::new(self.iface, TX_DRIVER_STATUS)
    }

    pub fn regulator_result(&mut self) -> (r: Reg<'_, I, RegulatorResult>)
        ensures
            r.addr == REGULATOR_RESULT,
            *r.iface == *old(self).iface,
            *final(self).iface == *final(r.iface),
            *final(final(self).iface) == *final(old(self).iface),
    {
        Reg::new(self.iface, REGULATOR_RESULT)
    }

    pub fn overshoot_conf1(&mut self) -> (r: Reg<'_, I, OvershootConf1>)
        ensures
            r.addr == OVERSHOOT_CONF1,
            *r.iface == *old(self).iface,
            *final(self).iface == *final(r.iface),
            *final(final(self).iface) == *final(old(self).iface),
    {
        Reg::new(self.iface, OVERSHOOT_CONF1)
    }

    pub fn overshoot_conf2(&mut self) -> (r: Reg<'_, I, OvershootConf2>)
        ensures
            r.addr == OVERSHOOT_CONF2,
            *r.iface == *old(self).iface,
            *final(self).iface == *final(r.iface),
            *final(final(self).iface) == *final(old(self).iface),
    {
        Reg::new(self.iface, OVERSHOOT_CONF2)
    }

    pub fn undershoot_conf1(&mut self) -> (r: Reg<'_, I, UndershootConf1>)
        ensures
            r.addr == UNDERSHOOT_CONF1,
            *r.iface == *old(self).iface,
            *final(self).iface == *final(r.iface),
            *final(final(self).iface) == *final(old(self).iface),
    {
        Reg::new(self.iface, UNDERSHOOT_CONF1)
    }

    pub fn undershoot_conf2(&mut self) -> (r: Reg<'_, I, UndershootConf2>)
        ensures
            r.addr == UNDERSHOOT_CONF2,
            *r.iface == *old(self).iface,
            *final(self).iface == *final(r.iface),
            *final(final(self).iface) == *final(old(self).iface),
    {
        Reg::new(self.iface, UNDERSHOOT_CONF2)
    }

    pub fn test_unk(&mut self) -> (r: Reg<'_, I, TestUnk>)
        ensures
            r.addr == TEST_UNK,
            *r.iface == *old(self).iface,
            *final(self).iface == *final(r.iface),
            *final(final(self).iface) == *final(old(self).iface),
    {
        Reg::new(self.iface, TEST_UNK)
    }
}

/// The address of the register `io_conf1`.
pub const IO_CONF1: u8 = 0x00;

/// The address of the register `io_conf2`.
pub const IO_CONF2: u8 = 0x01;

/// The address of the register `op_control`.
pub const OP_CONTROL: u8 = 0x02;

/// The address of the register `mode`.
pub const MODE: u8 = 0x03;

/// The address of the register `bit_rate`.
pub const BIT_RATE: u8 = 0x04;

/// The address of the register `iso14443a_nfc`.
pub const ISO14443A_NFC: u8 = 0x05;

/// The address of the register `iso14443b_1`.
pub const ISO14443B_1: u8 = 0x06;

/// The address of the register `iso14443b_2`.
pub const ISO14443B_2: u8 = 0x07;

/// The address of the register `passive_target`.
pub const PASSIVE_TARGET: u8 = 0x08;

/// The address of the register `stream_mode`.
pub const STREAM_MODE: u8 = 0x09;

/// The address of the register `aux`.
pub const AUX: u8 = 0x0a;

/// The address of the register `rx_conf1`.
pub const RX_CONF1: u8 = 0x0b;

/// The address of the register `rx_conf2`.
pub const RX_CONF2: u8 = 0x0c;

/// The address of the register `rx_conf3`.
pub const RX_CONF3: u8 = 0x0d;

/// The address of the register `rx_conf4`.
pub const RX_CONF4: u8 = 0x0e;

/// The address of the register `mask_rx_timer`.
pub const MASK_RX_TIMER: u8 = 0x0f;

/// The address of the register `no_response_timer1`.
pub const NO_RESPONSE_TIMER1: u8 = 0x10;

/// The address of the register `no_response_timer2`.
pub const NO_RESPONSE_TIMER2: u8 = 0x11;

/// The address of the register `timer_emv_control`.
pub const TIMER_EMV_CONTROL: u8 = 0x12;

/// The address of the register `gpt1`.
pub const GPT1: u8 = 0x13;

/// The address of the register `gpt2`.
pub const GPT2: u8 = 0x14;

/// The address of the register `ppon2`.
pub const PPON2: u8 = 0x15;

/// The address of the first of the four registers `irq_mask`.
pub const IRQ_MASK: u8 = 0x16;

/// The address of the first of the four registers `irq_main`.
pub const IRQ_MAIN: u8 = 0x1a;

/// The address of the register `fifo_status1`.
pub const FIFO_STATUS1: u8 = 0x1e;

/// The address of the register `fifo_status2`.
pub const FIFO_STATUS2: u8 = 0x1f;

/// The address of the register `collision_status`.
pub const COLLISION_STATUS: u8 = 0x20;

/// The address of the register `passive_target_status`.
pub const PASSIVE_TARGET_STATUS: u8 = 0x21;

/// The address of the register `num_tx_bytes1`.
pub const NUM_TX_BYTES1: u8 = 0x22;

/// The address of the register `num_tx_bytes2`.
pub const NUM_TX_BYTES2: u8 = 0x23;

/// The address of the register `nfcip1_bit_rate`.
pub const NFCIP1_BIT_RATE: u8 = 0x24;

/// The address of the register `ad_result`.
pub const AD_RESULT: u8 = 0x25;

/// The address of the register `ant_tune_a`.
pub const ANT_TUNE_A: u8 = 0x26;

/// The address of the register `ant_tune_b`.
pub const ANT_TUNE_B: u8 = 0x27;

/// The address of the register `tx_driver`.
pub const TX_DRIVER: u8 = 0x28;

/// The address of the register `pt_mod`.
pub const PT_MOD: u8 = 0x29;

/// The address of the register `field_threshold_actv`.
pub const FIELD_THRESHOLD_ACTV: u8 = 0x2a;

/// The address of the register `field_threshold_deactv`.
pub const FIELD_THRESHOLD_DEACTV: u8 = 0x2b;

/// The address of the register `regulator_control`.
pub const REGULATOR_CONTROL: u8 = 0x2c;

/// The address of the register `rssi_result`.
pub const RSSI_RESULT: u8 = 0x2d;

/// The address of the register `gain_red_state`.
pub const GAIN_RED_STATE: u8 = 0x2e;

/// The address of the register `cap_sensor_control`.
pub const CAP_SENSOR_CONTROL: u8 = 0x2f;

/// The address of the register `cap_sensor_result`.
pub const CAP_SENSOR_RESULT: u8 = 0x30;

/// The address of the register `aux_display`.
pub const AUX_DISPLAY: u8 = 0x31;

/// The address of the register `wup_timer_control`.
pub const WUP_TIMER_CONTROL: u8 = 0x32;

/// The address of the register `amplitude_measure_conf`.
pub const AMPLITUDE_MEASURE_CONF: u8 = 0x33;

/// The address of the register `amplitude_measure_ref`.
pub const AMPLITUDE_MEASURE_REF: u8 = 0x34;

/// The address of the register `amplitude_measure_aa_result`.
pub const AMPLITUDE_MEASURE_AA_RESULT: u8 = 0x35;

/// The address of the register `amplitude_measure_result`.
pub const AMPLITUDE_MEASURE_RESULT: u8 = 0x36;

/// The address of the register `phase_measure_conf`.
pub const PHASE_MEASURE_CONF: u8 = 0x37;

/// The address of the register `phase_measure_ref`.
pub const PHASE_MEASURE_REF: u8 = 0x38;

/// The address of the register `phase_measure_aa_result`.
pub const PHASE_MEASURE_AA_RESULT: u8 = 0x39;

/// The address of the register `phase_measure_result`.
pub const PHASE_MEASURE_RESULT: u8 = 0x3a;

/// The address of the register `capacitance_measure_conf`.
pub const CAPACITANCE_MEASURE_CONF: u8 = 0x3b;

/// The address of the register `capacitance_measure_ref`.
pub const CAPACITANCE_MEASURE_REF: u8 = 0x3c;

/// The address of the register `capacitance_measure_aa_result`.
pub const CAPACITANCE_MEASURE_AA_RESULT: u8 = 0x3d;

/// The address of the register `capacitance_measure_result`.
pub const CAPACITANCE_MEASURE_RESULT: u8 = 0x3e;

/// The address of the register `ic_identity`.
pub const IC_IDENTITY: u8 = 0x3f;

/// The address of the register `emd_sup_conf`.
pub const EMD_SUP_CONF: u8 = 0x45;

/// The address of the register `subc_start_time`.
pub const SUBC_START_TIME: u8 = 0x46;

/// The address of the register `p2p_rx_conf`.
pub const P2P_RX_CONF: u8 = 0x4b;

/// The address of the register `corr_conf1`.
pub const CORR_CONF1: u8 = 0x4c;

/// The address of the register `corr_conf2`.
pub const CORR_CONF2: u8 = 0x4d;

/// The address of the register `squelch_timer`.
pub const SQUELCH_TIMER: u8 = 0x4f;

/// The address of the register `field_on_gt`.
pub const FIELD_ON_GT: u8 = 0x55;

/// The address of the register `aux_mod`.
pub const AUX_MOD: u8 = 0x68;

/// The address of the register `tx_driver_timing`.
pub const TX_DRIVER_TIMING: u8 = 0x69;

/// The address of the register `res_am_mod`.
pub const RES_AM_MOD: u8 = 0x6a;

/// The address of the register `tx_driver_status`.
pub const TX_DRIVER_STATUS: u8 = 0x6b;

/// The address of the register `regulator_result`.
pub const REGULATOR_RESULT: u8 = 0x6c;

/// The address of the register `overshoot_conf1`.
pub const OVERSHOOT_CONF1: u8 = 0x70;

/// The address of the register `overshoot_conf2`.
pub const OVERSHOOT_CONF2: u8 = 0x71;

/// The address of the register `undershoot_conf1`.
pub const UNDERSHOOT_CONF1: u8 = 0x72;

/// The address of the register `undershoot_conf2`.
pub const UNDERSHOOT_CONF2: u8 = 0x73;

/// The address of the register `test_unk`.
pub const TEST_UNK: u8 = 0x84;

/// The layout of the register `tx_driver`.
#[derive(Copy, Clone, Eq, PartialEq, Structural)]
pub struct TxDriver(pub u8);

impl TxDriver {
    #[verifier::allow_in_spec]
    pub fn d_res(&self) -> (val: TxDriverDRes)
        returns
            TxDriverDRes(bits::field(self.0, 0, 0x0f)),
    {
        TxDriverDRes((self.0 >> 0usize) & 0x0f)
    }

    /// This value with `d_res` replaced by `val`.
    pub open spec fn with_d_res(self, val: TxDriverDRes) -> Self {
        TxDriver(bits::with_field(self.0, 0, 0x0f, val.0))
    }

    pub fn set_d_res(&mut self, val: TxDriverDRes)
        ensures
            *final(self) == old(self).with_d_res(val),
    {
        self.0 = (self.0 & !(0x0f << 0usize)) | ((val.0 & 0x0f) << 0usize);
    }

    #[verifier::allow_in_spec]
    pub fn am_mod(&self) -> (val: TxDriverAmMod)
        returns
            TxDriverAmMod(bits::field(self.0, 4, 0x0f)),
    {
        TxDriverAmMod((self.0 >> 4usize) & 0x0f)
    }

    /// This value with `am_mod` replaced by `val`.
    pub open spec fn with_am_mod(self, val: TxDriverAmMod) -> Self {
        TxDriver(bits::with_field(self.0, 4, 0x0f, val.0))
    }

    pub fn set_am_mod(&mut self, val: TxDriverAmMod)
        ensures
            *final(self) == old(self).with_am_mod(val),
    {
        self.0 = (self.0 & !(0x0f << 4usize)) | ((val.0 & 0x0f) << 4usize);
    }
}

impl Default for TxDriver {
    fn default() -> (val: TxDriver)
        ensures
            val == TxDriver(0),
    {
        TxDriver(0)
    }
}

impl Value for TxDriver {
    open spec fn bits(self) -> u8 {
        self.0
    }

    open spec fn of_bits(bits: u8) -> TxDriver {
        TxDriver(bits)
    }

    proof fn lemma_bits_of_bits(bits: u8) {
    }

    fn to_bits(self) -> u8 {
        self.0
    }

    fn from_bits(bits: u8) -> TxDriver {
        TxDriver(bits)
    }
}

/// The layout of the register `aux_mod`.
#[derive(Copy, Clone, Eq, PartialEq, Structural)]
pub struct AuxMod(pub u8);

impl AuxMod {
    #[verifier::allow_in_spec]
    pub fn rfu0(&self) -> (val: bool)
        returns
            bits::flag(self.0, 0),
    {
        (self.0 >> 0usize) & 0x01 != 0
    }

    /// This value with `rfu0` replaced by `val`.
    pub open spec fn with_rfu0(self, val: bool) -> Self {
        AuxMod(bits::with_flag(self.0, 0, val))
    }

    pub fn set_rfu0(&mut self, val: bool)
        ensures
            *final(self) == old(self).with_rfu0(val),
    {
        self.0 = (self.0 & !(0x01 << 0usize)) | (((val as u8) & 0x01) << 0usize);
    }

    #[verifier::allow_in_spec]
    pub fn rfu1(&self) -> (val: bool)
        returns
            bits::flag(self.0, 1),
    {
        (self.0 >> 1usize) & 0x01 != 0
    }

    /// This value with `rfu1` replaced by `val`.
    pub open spec fn with_rfu1(self, val: bool) -> Self {
        AuxMod(bits::with_flag(self.0, 1, val))
    }

    pub fn set_rfu1(&mut self, val: bool)
        ensures
            *final(self) == old(self).with_rfu1(val),
    {
        self.0 = (self.0 & !(0x01 << 1usize)) | (((val as u8) & 0x01) << 1usize);
    }

    #[verifier::allow_in_spec]
    pub fn rfu2(&self) -> (val: bool)
        returns
            bits::flag(self.0, 2),
    {
        (self.0 >> 2usize) & 0x01 != 0
    }

    /// This value with `rfu2` replaced by `val`.
    pub open spec fn with_rfu2(self, val: bool) -> Self {
        AuxMod(bits::with_flag(self.0, 2, val))
    }

    pub fn set_rfu2(&mut self, val: bool)
        ensures
            *final(self) == old(self).with_rfu2(val),
    {
        self.0 = (self.0 & !(0x01 << 2usize)) | (((val as u8) & 0x01) << 2usize);
    }

    #[verifier::allow_in_spec]
    pub fn res_am(&self) -> (val: bool)
        returns
            bits::flag(self.0, 3),
    {
        (self.0 >> 3usize) & 0x01 != 0
    }

    /// This value with `res_am` replaced by `val`.
    pub open spec fn with_res_am(self, val: bool) -> Self {
        AuxMod(bits::with_flag(self.0, 3, val))
    }

    pub fn set_res_am(&mut self, val: bool)
        ensures
            *final(self) == old(self).with_res_am(val),
    {
        self.0 = (self.0 & !(0x01 << 3usize)) | (((val as u8) & 0x01) << 3usize);
    }

    #[verifier::allow_in_spec]
    pub fn lm_dri(&self) -> (val: bool)
        returns
            bits::flag(self.0, 4),
    {
        (self.0 >> 4usize) & 0x01 != 0
    }

    /// This value with `lm_dri` replaced by `val`.
    pub open spec fn with_lm_dri(self, val: bool) -> Self {
        AuxMod(bits::with_flag(self.0, 4, val))
    }

    pub fn set_lm_dri(&mut self, val: bool)
        ensures
            *final(self) == old(self).with_lm_dri(val),
    {
        self.0 = (self.0 & !(0x01 << 4usize)) | (((val as u8) & 0x01) << 4usize);
    }

    #[verifier::allow_in_spec]
    pub fn lm_ext(&self) -> (val: bool)
        returns
            bits::flag(self.0, 5),
    {
        (self.0 >> 5usize) & 0x01 != 0
    }

    /// This value with `lm_ext` replaced by `val`.
    pub open spec fn with_lm_ext(self, val: bool) -> Self {
        AuxMod(bits::with_flag(self.0, 5, val))
    }

    pub fn set_lm_ext(&mut self, val: bool)
        ensures
            *final(self) == old(self).with_lm_ext(val),
    {
        self.0 = (self.0 & !(0x01 << 5usize)) | (((val as u8) & 0x01) << 5usize);
    }

    #[verifier::allow_in_spec]
    pub fn lm_ext_pol(&self) -> (val: bool)
        returns
            bits::flag(self.0, 6),
    {
        (self.0 >> 6usize) & 0x01 != 0
    }

    /// This value with `lm_ext_pol` replaced by `val`.
    pub open spec fn with_lm_ext_pol(self, val: bool) -> Self {
        AuxMod(bits::with_flag(self.0, 6, val))
    }

    pub fn set_lm_ext_pol(&mut self, val: bool)
        ensures
            *final(self) == old(self).with_lm_ext_pol(val),
    {
        self.0 = (self.0 & !(0x01 << 6usize)) | (((val as u8) & 0x01) << 6usize);
    }

    #[verifier::allow_in_spec]
    pub fn dis_reg_am(&self) -> (val: bool)
        returns
            bits::flag(self.0, 7),
    {
        (self.0 >> 7usize) & 0x01 != 0
    }

    /// This value with `dis_reg_am` replaced by `val`.
    pub open spec fn with_dis_reg_am(self, val: bool) -> Self {
        AuxMod(bits::with_flag(self.0, 7, val))
    }

    pub fn set_dis_reg_am(&mut self, val: bool)
        ensures
            *final(self) == old(self).with_dis_reg_am(val),
    {
        self.0 = (self.0 & !(0x01 << 7usize)) | (((val as u8) & 0x01) << 7usize);
    }
}

impl Default for AuxMod {
    fn default() -> (val: AuxMod)
        ensures
            val == AuxMod(0),
    {
        AuxMod(0)
    }
}

impl Value for AuxMod {
    open spec fn bits(self) -> u8 {
        self.0
    }

    open spec fn of_bits(bits: u8) -> AuxMod {
        AuxMod(bits)
    }

    proof fn lemma_bits_of_bits(bits: u8) {
    }

    fn to_bits(self) -> u8 {
        self.0
    }

    fn from_bits(bits: u8) -> AuxMod {
        AuxMod(bits)
    }
}

/// The layout of the register `rx_conf2`.
#[derive(Copy, Clone, Eq, PartialEq, Structural)]
pub struct RxConf2(pub u8);

impl RxConf2 {
    #[verifier::allow_in_spec]
    pub fn agc6_3(&self) -> (val: bool)
        returns
            bits::flag(self.0, 0),
    {
        (self.0 >> 0usize) & 0x01 != 0
    }

    /// This value with `agc6_3` replaced by `val`.
    pub open spec fn with_agc6_3(self, val: bool) -> Self {
        RxConf2(bits::with_flag(self.0, 0, val))
    }

    pub fn set_agc6_3(&mut self, val: bool)
        ensures
            *final(self) == old(self).with_agc6_3(val),
    {
        self.0 = (self.0 & !(0x01 << 0usize)) | (((val as u8) & 0x01) << 0usize);
    }

    #[verifier::allow_in_spec]
    pub fn agc_alg(&self) -> (val: bool)
        returns
            bits::flag(self.0, 1),
    {
        (self.0 >> 1usize) & 0x01 != 0
    }

    /// This value with `agc_alg` replaced by `val`.
    pub open spec fn with_agc_alg(self, val: bool) -> Self {
        RxConf2(bits::with_flag(self.0, 1, val))
    }

    pub fn set_agc_alg(&mut self, val: bool)
        ensures
            *final(self) == old(self).with_agc_alg(val),
    {
        self.0 = (self.0 & !(0x01 << 1usize)) | (((val as u8) & 0x01) << 1usize);
    }

    #[verifier::allow_in_spec]
    pub fn agc_m(&self) -> (val: bool)
        returns
            bits::flag(self.0, 2),
    {
        (self.0 >> 2usize) & 0x01 != 0
    }

    /// This value with `agc_m` replaced by `val`.
    pub open spec fn with_agc_m(self, val: bool) -> Self {
        RxConf2(bits::with_flag(self.0, 2, val))
    }

    pub fn set_agc_m(&mut self, val: bool)
        ensures
            *final(self) == old(self).with_agc_m(val),
    {
        self.0 = (self.0 & !(0x01 << 2usize)) | (((val as u8) & 0x01) << 2usize);
    }

    #[verifier::allow_in_spec]
    pub fn agc_en(&self) -> (val: bool)
        returns
            bits::flag(self.0, 3),
    {
        (self.0 >> 3usize) & 0x01 != 0
    }

    /// This value with `agc_en` replaced by `val`.
    pub open spec fn with_agc_en(self, val: bool) -> Self {
        RxConf2(bits::with_flag(self.0, 3, val))
    }

    pub fn set_agc_en(&mut self, val: bool)
        ensures
            *final(self) == old(self).with_agc_en(val),
    {
        self.0 = (self.0 & !(0x01 << 3usize)) | (((val as u8) & 0x01) << 3usize);
    }

    #[verifier::allow_in_spec]
    pub fn pulz_61(&self) -> (val: bool)
        returns
            bits::flag(self.0, 4),
    {
        (self.0 >> 4usize) & 0x01 != 0
    }

    /// This value with `pulz_61` replaced by `val`.
    pub open spec fn with_pulz_61(self, val: bool) -> Self {
        RxConf2(bits::with_flag(self.0, 4, val))
    }

    pub fn set_pulz_61(&mut self, val: bool)
        ensures
            *final(self) == old(self).with_pulz_61(val),
    {
        self.0 = (self.0 & !(0x01 << 4usize)) | (((val as u8) & 0x01) << 4usize);
    }

    #[verifier::allow_in_spec]
    pub fn sqm_dyn(&self) -> (val: bool)
        returns
            bits::flag(self.0, 5),
    {
        (self.0 >> 5usize) & 0x01 != 0
    }

    /// This value with `sqm_dyn` replaced by `val`.
    pub open spec fn with_sqm_dyn(self, val: bool) -> Self {
        RxConf2(bits::with_flag(self.0, 5, val))
    }

    pub fn set_sqm_dyn(&mut self, val: bool)
        ensures
            *final(self) == old(self).with_sqm_dyn(val),
    {
        self.0 = (self.0 & !(0x01 << 5usize)) | (((val as u8) & 0x01) << 5usize);
    }

    #[verifier::allow_in_spec]
    pub fn amd_sel(&self) -> (val: bool)
        returns
            bits::flag(self.0, 6),
    {
        (self.0 >> 6usize) & 0x01 != 0
    }

    /// This value with `amd_sel` replaced by `val`.
    pub open spec fn with_amd_sel(self, val: bool) -> Self {
        RxConf2(bits::with_flag(self.0, 6, val))
    }

    pub fn set_amd_sel(&mut self, val: bool)
        ensures
            *final(self) == old(self).with_amd_sel(val),
    {
        self.0 = (self.0 & !(0x01 << 6usize)) | (((val as u8) & 0x01) << 6usize);
    }

    #[verifier::allow_in_spec]
    pub fn amd_sel_mixer(&self) -> (val: bool)
        returns
            bits::flag(self.0, 6),
    {
        (self.0 >> 6usize) & 0x01 != 0
    }

    /// This value with `amd_sel_mixer` replaced by `val`.
    pub open spec fn with_amd_sel_mixer(self, val: bool) -> Self {
        RxConf2(bits::with_flag(self.0, 6, val))
    }

    pub fn set_amd_sel_mixer(&mut self, val: bool)
        ensures
            *final(self) == old(self).with_amd_sel_mixer(val),
    {
        self.0 = (self.0 & !(0x01 << 6usize)) | (((val as u8) & 0x01) << 6usize);
    }

    #[verifier::allow_in_spec]
    pub fn demod_mode(&self) -> (val: bool)
        returns
            bits::flag(self.0, 7),
    {
        (self.0 >> 7usize) & 0x01 != 0
    }

    /// This value with `demod_mode` replaced by `val`.
    pub open spec fn with_demod_mode(self, val: bool) -> Self {
        RxConf2(bits::with_flag(self.0, 7, val))
    }

    pub fn set_demod_mode(&mut self, val: bool)
        ensures
            *final(self) == old(self).with_demod_mode(val),
    {
        self.0 = (self.0 & !(0x01 << 7usize)) | (((val as u8) & 0x01) << 7usize);
    }
}

impl Default for RxConf2 {
    fn default() -> (val: RxConf2)
        ensures
            val == RxConf2(0),
    {
        RxConf2(0)
    }
}

impl Value for RxConf2 {
    open spec fn bits(self) -> u8 {
        self.0
    }

    open spec fn of_bits(bits: u8) -> RxConf2 {
        RxConf2(bits)
    }

    proof fn lemma_bits_of_bits(bits: u8) {
    }

    fn to_bits(self) -> u8 {
        self.0
    }

    fn from_bits(bits: u8) -> RxConf2 {
        RxConf2(bits)
    }
}

/// The layout of the register `subc_start_time`.
#[derive(Copy, Clone, Eq, PartialEq, Structural)]
pub struct SubcStartTime(pub u8);

impl SubcStartTime {
    #[verifier::allow_in_spec]
    pub fn sst(&self) -> (val: u8)
        returns
            bits::field(self.0, 0, 0x1f),
    {
        (self.0 >> 0usize) & 0x1f
    }

    /// This value with `sst` replaced by the low bits of `val`.
    pub open spec fn with_sst(self, val: u8) -> Self {
        SubcStartTime(bits::with_field(self.0, 0, 0x1f, val))
    }

    pub fn set_sst(&mut self, val: u8)
        ensures
            *final(self) == old(self).with_sst(val),
    {
        self.0 = (self.0 & !(0x1f << 0usize)) | ((val & 0x1f) << 0usize);
    }

    #[verifier::allow_in_spec]
    pub fn rfu0(&self) -> (val: bool)
        returns
            bits::flag(self.0, 5),
    {
        (self.0 >> 5usize) & 0x01 != 0
    }

    /// This value with `rfu0` replaced by `val`.
    pub open spec fn with_rfu0(self, val: bool) -> Self {
        SubcStartTime(bits::with_flag(self.0, 5, val))
    }

    pub fn set_rfu0(&mut self, val: bool)
        ensures
            *final(self) == old(self).with_rfu0(val),
    {
        self.0 = (self.0 & !(0x01 << 5usize)) | (((val as u8) & 0x01) << 5usize);
    }

    #[verifier::allow_in_spec]
    pub fn rfu1(&self) -> (val: bool)
        returns
            bits::flag(self.0, 6),
    {
        (self.0 >> 6usize) & 0x01 != 0
    }

    /// This value with `rfu1` replaced by `val`.
    pub open spec fn with_rfu1(self, val: bool) -> Self {
        SubcStartTime(bits::with_flag(self.0, 6, val))
    }

    pub fn set_rfu1(&mut self, val: bool)
        ensures
            *final(self) == old(self).with_rfu1(val),
    {
        self.0 = (self.0 & !(0x01 << 6usize)) | (((val as u8) & 0x01) << 6usize);
    }

    #[verifier::allow_in_spec]
    pub fn rfu2(&self) -> (val: bool)
        returns
            bits::flag(self.0, 7),
    {
        (self.0 >> 7usize) & 0x01 != 0
    }

    /// This value with `rfu2` replaced by `val`.
    pub open spec fn with_rfu2(self, val: bool) -> Self {
        SubcStartTime(bits::with_flag(self.0, 7, val))
    }

    pub fn set_rfu2(&mut self, val: bool)
        ensures
            *final(self) == old(self).with_rfu2(val),
    {
        self.0 = (self.0 & !(0x01 << 7usize)) | (((val as u8) & 0x01) << 7usize);
    }
}

impl Default for SubcStartTime {
    fn default() -> (val: SubcStartTime)
        ensures
            val == SubcStartTime(0),
    {
        SubcStartTime(0)
    }
}

impl Value for SubcStartTime {
    open spec fn bits(self) -> u8 {
        self.0
    }

    open spec fn of_bits(bits: u8) -> SubcStartTime {
        SubcStartTime(bits)
    }

    proof fn lemma_bits_of_bits(bits: u8) {
    }

    fn to_bits(self) -> u8 {
        self.0
    }

    fn from_bits(bits: u8) -> SubcStartTime {
        SubcStartTime(bits)
    }
}

/// The layout of the register `regulator_control`.
#[derive(Copy, Clone, Eq, PartialEq, Structural)]
pub struct RegulatorControl(pub u8);

impl RegulatorControl {
    #[verifier::allow_in_spec]
    pub fn mpsv(&self) -> (val: RegulatorControlMpsv)
        returns
            RegulatorControlMpsv(bits::field(self.0, 0, 0x07)),
    {
        RegulatorControlMpsv((self.0 >> 0usize) & 0x07)
    }

    /// This value with `mpsv` replaced by `val`.
    pub open spec fn with_mpsv(self, val: RegulatorControlMpsv) -> Self {
        RegulatorControl(bits::with_field(self.0, 0, 0x07, val.0))
    }

    pub fn set_mpsv(&mut self, val: RegulatorControlMpsv)
        ensures
            *final(self) == old(self).with_mpsv(val),
    {
        self.0 = (self.0 & !(0x07 << 0usize)) | ((val.0 & 0x07) << 0usize);
    }

    #[verifier::allow_in_spec]
    pub fn rege(&self) -> (val: u8)
        returns
            bits::field(self.0, 3, 0x0f),
    {
        (self.0 >> 3usize) & 0x0f
    }

    /// This value with `rege` replaced by the low bits of `val`.
    pub open spec fn with_rege(self, val: u8) -> Self {
        RegulatorControl(bits::with_field(self.0, 3, 0x0f, val))
    }

    pub fn set_rege(&mut self, val: u8)
        ensures
            *final(self) == old(self).with_rege(val),
    {
        self.0 = (self.0 & !(0x0f << 3usize)) | ((val & 0x0f) << 3usize);
    }

    #[verifier::allow_in_spec]
    pub fn reg_s(&self) -> (val: bool)
        returns
            bits::flag(self.0, 7),
    {
        (self.0 >> 7usize) & 0x01 != 0
    }

    /// This value with `reg_s` replaced by `val`.
    pub open spec fn with_reg_s(self, val: bool) -> Self {
        RegulatorControl(bits::with_flag(self.0, 7, val))
    }

    pub fn set_reg_s(&mut self, val: bool)
        ensures
            *final(self) == old(self).with_reg_s(val),
    {
        self.0 = (self.0 & !(0x01 << 7usize)) | (((val as u8) & 0x01) << 7usize);
    }
}

impl Default for RegulatorControl {
    fn default() -> (val: RegulatorControl)
        ensures
            val == RegulatorControl(0),
    {
        RegulatorControl(0)
    }
}

impl Value for RegulatorControl {
    open spec fn bits(self) -> u8 {
        self.0
    }

    open spec fn of_bits(bits: u8) -> RegulatorControl {
        RegulatorControl(bits)
    }

    proof fn lemma_bits_of_bits(bits: u8) {
    }

    fn to_bits(self) -> u8 {
        self.0
    }

    fn from_bits(bits: u8) -> RegulatorControl {
        RegulatorControl(bits)
    }
}

/// The layout of the register `emd_sup_conf`.
#[derive(Copy, Clone, Eq, PartialEq, Structural)]
pub struct EmdSupConf(pub u8);

impl EmdSupConf {
    #[verifier::allow_in_spec]
    pub fn emd_thld(&self) -> (val: u8)
        returns
            bits::field(self.0, 0, 0x0f),
    {
        (self.0 >> 0usize) & 0x0f
    }

    /// This value with `emd_thld` replaced by the low bits of `val`.
    pub open spec fn with_emd_thld(self, val: u8) -> Self {
        EmdSupConf(bits::with_field(self.0, 0, 0x0f, val))
    }

    pub fn set_emd_thld(&mut self, val: u8)
        ensures
            *final(self) == old(self).with_emd_thld(val),
    {
        self.0 = (self.0 & !(0x0f << 0usize)) | ((val & 0x0f) << 0usize);
    }

    #[verifier::allow_in_spec]
    pub fn rfu0(&self) -> (val: bool)
        returns
            bits::flag(self.0, 4),
    {
        (self.0 >> 4usize) & 0x01 != 0
    }

    /// This value with `rfu0` replaced by `val`.
    pub open spec fn with_rfu0(self, val: bool) -> Self {
        EmdSupConf(bits::with_flag(self.0, 4, val))
    }

    pub fn set_rfu0(&mut self, val: bool)
        ensures
            *final(self) == old(self).with_rfu0(val),
    {
        self.0 = (self.0 & !(0x01 << 4usize)) | (((val as u8) & 0x01) << 4usize);
    }

    #[verifier::allow_in_spec]
    pub fn rfu1(&self) -> (val: bool)
        returns
            bits::flag(self.0, 5),
    {
        (self.0 >> 5usize) & 0x01 != 0
    }

    /// This value with `rfu1` replaced by `val`.
    pub open spec fn with_rfu1(self, val: bool) -> Self {
        EmdSupConf(bits::with_flag(self.0, 5, val))
    }

    pub fn set_rfu1(&mut self, val: bool)
        ensures
            *final(self) == old(self).with_rfu1(val),
    {
        self.0 = (self.0 & !(0x01 << 5usize)) | (((val as u8) & 0x01) << 5usize);
    }

    #[verifier::allow_in_spec]
    pub fn rx_start_emv(&self) -> (val: bool)
        returns
            bits::flag(self.0, 6),
    {
        (self.0 >> 6usize) & 0x01 != 0
    }

    /// This value with `rx_start_emv` replaced by `val`.
    pub open spec fn with_rx_start_emv(self, val: bool) -> Self {
        EmdSupConf(bits::with_flag(self.0, 6, val))
    }

    pub fn set_rx_start_emv(&mut self, val: bool)
        ensures
            *final(self) == old(self).with_rx_start_emv(val),
    {
        self.0 = (self.0 & !(0x01 << 6usize)) | (((val as u8) & 0x01) << 6usize);
    }

    #[verifier::allow_in_spec]
    pub fn emd_emv(&self) -> (val: bool)
        returns
            bits::flag(self.0, 7),
    {
        (self.0 >> 7usize) & 0x01 != 0
    }

    /// This value with `emd_emv` replaced by `val`.
    pub open spec fn with_emd_emv(self, val: bool) -> Self {
        EmdSupConf(bits::with_flag(self.0, 7, val))
    }

    pub fn set_emd_emv(&mut self, val: bool)
        ensures
            *final(self) == old(self).with_emd_emv(val),
    {
        self.0 = (self.0 & !(0x01 << 7usize)) | (((val as u8) & 0x01) << 7usize);
    }
}

impl Default for EmdSupConf {
    fn default() -> (val: EmdSupConf)
        ensures
            val == EmdSupConf(0),
    {
        EmdSupConf(0)
    }
}

impl Value for EmdSupConf {
    open spec fn bits(self) -> u8 {
        self.0
    }

    open spec fn of_bits(bits: u8) -> EmdSupConf {
        EmdSupConf(bits)
    }

    proof fn lemma_bits_of_bits(bits: u8) {
    }

    fn to_bits(self) -> u8 {
        self.0
    }

    fn from_bits(bits: u8) -> EmdSupConf {
        EmdSupConf(bits)
    }
}

/// The layout of the register `rssi_result`.
#[derive(Copy, Clone, Eq, PartialEq, Structural)]
pub struct RssiResult(pub u8);

impl RssiResult {
    #[verifier::allow_in_spec]
    pub fn rssi_pm(&self) -> (val: u8)
        returns
            bits::field(self.0, 0, 0x0f),
    {
        (self.0 >> 0usize) & 0x0f
    }

    /// This value with `rssi_pm` replaced by the low bits of `val`.
    pub open spec fn with_rssi_pm(self, val: u8) -> Self {
        RssiResult(bits::with_field(self.0, 0, 0x0f, val))
    }

    pub fn set_rssi_pm(&mut self, val: u8)
        ensures
            *final(self) == old(self).with_rssi_pm(val),
    {
        self.0 = (self.0 & !(0x0f << 0usize)) | ((val & 0x0f) << 0usize);
    }

    #[verifier::allow_in_spec]
    pub fn rssi_am(&self) -> (val: u8)
        returns
            bits::field(self.0, 4, 0x0f),
    {
        (self.0 >> 4usize) & 0x0f
    }

    /// This value with `rssi_am` replaced by the low bits of `val`.
    pub open spec fn with_rssi_am(self, val: u8) -> Self {
        RssiResult(bits::with_field(self.0, 4, 0x0f, val))
    }

    pub fn set_rssi_am(&mut self, val: u8)
        ensures
            *final(self) == old(self).with_rssi_am(val),
    {
        self.0 = (self.0 & !(0x0f << 4usize)) | ((val & 0x0f) << 4usize);
    }
}

impl Default for RssiResult {
    fn default() -> (val: RssiResult)
        ensures
            val == RssiResult(0),
    {
        RssiResult(0)
    }
}

impl Value for RssiResult {
    open spec fn bits(self) -> u8 {
        self.0
    }

    open spec fn of_bits(bits: u8) -> RssiResult {
        RssiResult(bits)
    }

    proof fn lemma_bits_of_bits(bits: u8) {
    }

    fn to_bits(self) -> u8 {
        self.0
    }

    fn from_bits(bits: u8) -> RssiResult {
        RssiResult(bits)
    }
}

/// The layout of the register `collision_status`.
#[derive(Copy, Clone, Eq, PartialEq, Structural)]
pub struct CollisionStatus(pub u8);

impl CollisionStatus {
    #[verifier::allow_in_spec]
    pub fn c_pb(&self) -> (val: bool)
        returns
            bits::flag(self.0, 0),
    {
        (self.0 >> 0usize) & 0x01 != 0
    }

    /// This value with `c_pb` replaced by `val`.
    pub open spec fn with_c_pb(self, val: bool) -> Self {
        CollisionStatus(bits::with_flag(self.0, 0, val))
    }

    pub fn set_c_pb(&mut self, val: bool)
        ensures
            *final(self) == old(self).with_c_pb(val),
    {
        self.0 = (self.0 & !(0x01 << 0usize)) | (((val as u8) & 0x01) << 0usize);
    }

    #[verifier::allow_in_spec]
    pub fn c_bit(&self) -> (val: u8)
        returns
            bits::field(self.0, 1, 0x07),
    {
        (self.0 >> 1usize) & 0x07
    }

    /// This value with `c_bit` replaced by the low bits of `val`.
    pub open spec fn with_c_bit(self, val: u8) -> Self {
        CollisionStatus(bits::with_field(self.0, 1, 0x07, val))
    }

    pub fn set_c_bit(&mut self, val: u8)
        ensures
            *final(self) == old(self).with_c_bit(val),
    {
        self.0 = (self.0 & !(0x07 << 1usize)) | ((val & 0x07) << 1usize);
    }

    #[verifier::allow_in_spec]
    pub fn c_byte(&self) -> (val: u8)
        returns
            bits::field(self.0, 4, 0x0f),
    {
        (self.0 >> 4usize) & 0x0f
    }

    /// This value with `c_byte` replaced by the low bits of `val`.
    pub open spec fn with_c_byte(self, val: u8) -> Self {
        CollisionStatus(bits::with_field(self.0, 4, 0x0f, val))
    }

    pub fn set_c_byte(&mut self, val: u8)
        ensures
            *final(self) == old(self).with_c_byte(val),
    {
        self.0 = (self.0 & !(0x0f << 4usize)) | ((val & 0x0f) << 4usize);
    }
}

impl Default for CollisionStatus {
    fn default() -> (val: CollisionStatus)
        ensures
            val == CollisionStatus(0),
    {
        CollisionStatus(0)
    }
}

impl Value for CollisionStatus {
    open spec fn bits(self) -> u8 {
        self.0
    }

    open spec fn of_bits(bits: u8) -> CollisionStatus {
        CollisionStatus(bits)
    }

    proof fn lemma_bits_of_bits(bits: u8) {
    }

    fn to_bits(self) -> u8 {
        self.0
    }

    fn from_bits(bits: u8) -> CollisionStatus {
        CollisionStatus(bits)
    }
}

/// The layout of the register `stream_mode`.
#[derive(Copy, Clone, Eq, PartialEq, Structural)]
pub struct StreamMode(pub u8);

impl StreamMode {
    #[verifier::allow_in_spec]
    pub fn stx(&self) -> (val: StreamModeStx)
        returns
            StreamModeStx(bits::field(self.0, 0, 0x07)),
    {
        StreamModeStx((self.0 >> 0usize) & 0x07)
    }

    /// This value with `stx` replaced by `val`.
    pub open spec fn with_stx(self, val: StreamModeStx) -> Self {
        StreamMode(bits::with_field(self.0, 0, 0x07, val.0))
    }

    pub fn set_stx(&mut self, val: StreamModeStx)
        ensures
            *final(self) == old(self).with_stx(val),
    {
        self.0 = (self.0 & !(0x07 << 0usize)) | ((val.0 & 0x07) << 0usize);
    }

    #[verifier::allow_in_spec]
    pub fn scp(&self) -> (val: StreamModeScp)
        returns
            StreamModeScp(bits::field(self.0, 3, 0x03)),
    {
        StreamModeScp((self.0 >> 3usize) & 0x03)
    }

    /// This value with `scp` replaced by `val`.
    pub open spec fn with_scp(self, val: StreamModeScp) -> Self {
        StreamMode(bits::with_field(self.0, 3, 0x03, val.0))
    }

    pub fn set_scp(&mut self, val: StreamModeScp)
        ensures
            *final(self) == old(self).with_scp(val),
    {
        self.0 = (self.0 & !(0x03 << 3usize)) | ((val.0 & 0x03) << 3usize);
    }

    #[verifier::allow_in_spec]
    pub fn scf(&self) -> (val: StreamModeScf)
        returns
            StreamModeScf(bits::field(self.0, 5, 0x03)),
    {
        StreamModeScf((self.0 >> 5usize) & 0x03)
    }

    /// This value with `scf` replaced by `val`.
    pub open spec fn with_scf(self, val: StreamModeScf) -> Self {
        StreamMode(bits::with_field(self.0, 5, 0x03, val.0))
    }

    pub fn set_scf(&mut self, val: StreamModeScf)
        ensures
            *final(self) == old(self).with_scf(val),
    {
        self.0 = (self.0 & !(0x03 << 5usize)) | ((val.0 & 0x03) << 5usize);
    }

    #[verifier::allow_in_spec]
    pub fn rfu(&self) -> (val: bool)
        returns
            bits::flag(self.0, 7),
    {
        (self.0 >> 7usize) & 0x01 != 0
    }

    /// This value with `rfu` replaced by `val`.
    pub open spec fn with_rfu(self, val: bool) -> Self {
        StreamMode(bits::with_flag(self.0, 7, val))
    }

    pub fn set_rfu(&mut self, val: bool)
        ensures
            *final(self) == old(self).with_rfu(val),
    {
        self.0 = (self.0 & !(0x01 << 7usize)) | (((val as u8) & 0x01) << 7usize);
    }
}

impl Default for StreamMode {
    fn default() -> (val: StreamMode)
        ensures
            val == StreamMode(0),
    {
        StreamMode(0)
    }
}

impl Value for StreamMode {
    open spec fn bits(self) -> u8 {
        self.0
    }

    open spec fn of_bits(bits: u8) -> StreamMode {
        StreamMode(bits)
    }

    proof fn lemma_bits_of_bits(bits: u8) {
    }

    fn to_bits(self) -> u8 {
        self.0
    }

    fn from_bits(bits: u8) -> StreamMode {
        StreamMode(bits)
    }
}

/// The layout of the register `bit_rate`.
#[derive(Copy, Clone, Eq, PartialEq, Structural)]
pub struct BitRate(pub u8);

impl BitRate {
    #[verifier::allow_in_spec]
    pub fn rxrate(&self) -> (val: BitRateE)
        returns
            BitRateE(bits::field(self.0, 0, 0x03)),
    {
        BitRateE((self.0 >> 0usize) & 0x03)
    }

    /// This value with `rxrate` replaced by `val`.
    pub open spec fn with_rxrate(self, val: BitRateE) -> Self {
        BitRate(bits::with_field(self.0, 0, 0x03, val.0))
    }

    pub fn set_rxrate(&mut self, val: BitRateE)
        ensures
            *final(self) == old(self).with_rxrate(val),
    {
        self.0 = (self.0 & !(0x03 << 0usize)) | ((val.0 & 0x03) << 0usize);
    }

    #[verifier::allow_in_spec]
    pub fn txrate(&self) -> (val: BitRateE)
        returns
            BitRateE(bits::field(self.0, 4, 0x03)),
    {
        BitRateE((self.0 >> 4usize) & 0x03)
    }

    /// This value with `txrate` replaced by `val`.
    pub open spec fn with_txrate(self, val: BitRateE) -> Self {
        BitRate(bits::with_field(self.0, 4, 0x03, val.0))
    }

    pub fn set_txrate(&mut self, val: BitRateE)
        ensures
            *final(self) == old(self).with_txrate(val),
    {
        self.0 = (self.0 & !(0x03 << 4usize)) | ((val.0 & 0x03) << 4usize);
    }
}

impl Default for BitRate {
    fn default() -> (val: BitRate)
        ensures
            val == BitRate(0),
    {
        BitRate(0)
    }
}

impl Value for BitRate {
    open spec fn bits(self) -> u8 {
        self.0
    }

    open spec fn of_bits(bits: u8) -> BitRate {
        BitRate(bits)
    }

    proof fn lemma_bits_of_bits(bits: u8) {
    }

    fn to_bits(self) -> u8 {
        self.0
    }

    fn from_bits(bits: u8) -> BitRate {
        BitRate(bits)
    }
}

/// The layout of the register `rx_conf3`.
#[derive(Copy, Clone, Eq, PartialEq, Structural)]
pub struct RxConf3(pub u8);

impl RxConf3 {
    #[verifier::allow_in_spec]
    pub fn lf_op(&self) -> (val: bool)
        returns
            bits::flag(self.0, 0),
    {
        (self.0 >> 0usize) & 0x01 != 0
    }

    /// This value with `lf_op` replaced by `val`.
    pub open spec fn with_lf_op(self, val: bool) -> Self {
        RxConf3(bits::with_flag(self.0, 0, val))
    }

    pub fn set_lf_op(&mut self, val: bool)
        ensures
            *final(self) == old(self).with_lf_op(val),
    {
        self.0 = (self.0 & !(0x01 << 0usize)) | (((val as u8) & 0x01) << 0usize);
    }

    #[verifier::allow_in_spec]
    pub fn lf_en(&self) -> (val: bool)
        returns
            bits::flag(self.0, 1),
    {
        (self.0 >> 1usize) & 0x01 != 0
    }

    /// This value with `lf_en` replaced by `val`.
    pub open spec fn with_lf_en(self, val: bool) -> Self {
        RxConf3(bits::with_flag(self.0, 1, val))
    }

    pub fn set_lf_en(&mut self, val: bool)
        ensures
            *final(self) == old(self).with_lf_en(val),
    {
        self.0 = (self.0 & !(0x01 << 1usize)) | (((val as u8) & 0x01) << 1usize);
    }

    #[verifier::allow_in_spec]
    pub fn rg1_pm(&self) -> (val: u8)
        returns
            bits::field(self.0, 2, 0x07),
    {
        (self.0 >> 2usize) & 0x07
    }

    /// This value with `rg1_pm` replaced by the low bits of `val`.
    pub open spec fn with_rg1_pm(self, val: u8) -> Self {
        RxConf3(bits::with_field(self.0, 2, 0x07, val))
    }

    pub fn set_rg1_pm(&mut self, val: u8)
        ensures
            *final(self) == old(self).with_rg1_pm(val),
    {
        self.0 = (self.0 & !(0x07 << 2usize)) | ((val & 0x07) << 2usize);
    }

    #[verifier::allow_in_spec]
    pub fn rg1_am(&self) -> (val: u8)
        returns
            bits::field(self.0, 5, 0x07),
    {
        (self.0 >> 5usize) & 0x07
    }

    /// This value with `rg1_am` replaced by the low bits of `val`.
    pub open spec fn with_rg1_am(self, val: u8) -> Self {
        RxConf3(bits::with_field(self.0, 5, 0x07, val))
    }

    pub fn set_rg1_am(&mut self, val: u8)
        ensures
            *final(self) == old(self).with_rg1_am(val),
    {
        self.0 = (self.0 & !(0x07 << 5usize)) | ((val & 0x07) << 5usize);
    }
}

impl Default for RxConf3 {
    fn default() -> (val: RxConf3)
        ensures
            val == RxConf3(0),
    {
        RxConf3(0)
    }
}

impl Value for RxConf3 {
    open spec fn bits(self) -> u8 {
        self.0
    }

    open spec fn of_bits(bits: u8) -> RxConf3 {
        RxConf3(bits)
    }

    proof fn lemma_bits_of_bits(bits: u8) {
    }

    fn to_bits(self) -> u8 {
        self.0
    }

    fn from_bits(bits: u8) -> RxConf3 {
        RxConf3(bits)
    }
}

/// The layout of the register `ic_identity`.
#[derive(Copy, Clone, Eq, PartialEq, Structural)]
pub struct IcIdentity(pub u8);

impl IcIdentity {
    #[verifier::allow_in_spec]
    pub fn ic_rev(&self) -> (val: IcIdentityIcRev)
        returns
            IcIdentityIcRev(bits::field(self.0, 0, 0x07)),
    {
        IcIdentityIcRev((self.0 >> 0usize) & 0x07)
    }

    /// This value with `ic_rev` replaced by `val`.
    pub open spec fn with_ic_rev(self, val: IcIdentityIcRev) -> Self {
        IcIdentity(bits::with_field(self.0, 0, 0x07, val.0))
    }

    pub fn set_ic_rev(&mut self, val: IcIdentityIcRev)
        ensures
            *final(self) == old(self).with_ic_rev(val),
    {
        self.0 = (self.0 & !(0x07 << 0usize)) | ((val.0 & 0x07) << 0usize);
    }

    #[verifier::allow_in_spec]
    pub fn ic_type(&self) -> (val: IcIdentityIcType)
        returns
            IcIdentityIcType(bits::field(self.0, 3, 0x1f)),
    {
        IcIdentityIcType((self.0 >> 3usize) & 0x1f)
    }

    /// This value with `ic_type` replaced by `val`.
    pub open spec fn with_ic_type(self, val: IcIdentityIcType) -> Self {
        IcIdentity(bits::with_field(self.0, 3, 0x1f, val.0))
    }

    pub fn set_ic_type(&mut self, val: IcIdentityIcType)
        ensures
            *final(self) == old(self).with_ic_type(val),
    {
        self.0 = (self.0 & !(0x1f << 3usize)) | ((val.0 & 0x1f) << 3usize);
    }
}

impl Default for IcIdentity {
    fn default() -> (val: IcIdentity)
        ensures
            val == IcIdentity(0),
    {
        IcIdentity(0)
    }
}

impl Value for IcIdentity {
    open spec fn bits(self) -> u8 {
        self.0
    }

    open spec fn of_bits(bits: u8) -> IcIdentity {
        IcIdentity(bits)
    }

    proof fn lemma_bits_of_bits(bits: u8) {
    }

    fn to_bits(self) -> u8 {
        self.0
    }

    fn from_bits(bits: u8) -> IcIdentity {
        IcIdentity(bits)
    }
}

/// The layout of the register `pt_mod`.
#[derive(Copy, Clone, Eq, PartialEq, Structural)]
pub struct PtMod(pub u8);

impl PtMod {
    #[verifier::allow_in_spec]
    pub fn pt_res(&self) -> (val: u8)
        returns
            bits::field(self.0, 0, 0x0f),
    {
        (self.0 >> 0usize) & 0x0f
    }

    /// This value with `pt_res` replaced by the low bits of `val`.
    pub open spec fn with_pt_res(self, val: u8) -> Self {
        PtMod(bits::with_field(self.0, 0, 0x0f, val))
    }

    pub fn set_pt_res(&mut self, val: u8)
        ensures
            *final(self) == old(self).with_pt_res(val),
    {
        self.0 = (self.0 & !(0x0f << 0usize)) | ((val & 0x0f) << 0usize);
    }

    #[verifier::allow_in_spec]
    pub fn ptm_res(&self) -> (val: u8)
        returns
            bits::field(self.0, 4, 0x0f),
    {
        (self.0 >> 4usize) & 0x0f
    }

    /// This value with `ptm_res` replaced by the low bits of `val`.
    pub open spec fn with_ptm_res(self, val: u8) -> Self {
        PtMod(bits::with_field(self.0, 4, 0x0f, val))
    }

    pub fn set_ptm_res(&mut self, val: u8)
        ensures
            *final(self) == old(self).with_ptm_res(val),
    {
        self.0 = (self.0 & !(0x0f << 4usize)) | ((val & 0x0f) << 4usize);
    }
}

impl Default for PtMod {
    fn default() -> (val: PtMod)
        ensures
            val == PtMod(0),
    {
        PtMod(0)
    }
}

impl Value for PtMod {
    open spec fn bits(self) -> u8 {
        self.0
    }

    open spec fn of_bits(bits: u8) -> PtMod {
        PtMod(bits)
    }

    proof fn lemma_bits_of_bits(bits: u8) {
    }

    fn to_bits(self) -> u8 {
        self.0
    }

    fn from_bits(bits: u8) -> PtMod {
        PtMod(bits)
    }
}

/// The layout of the register `wup_timer_control`.
#[derive(Copy, Clone, Eq, PartialEq, Structural)]
pub struct WupTimerControl(pub u8);

impl WupTimerControl {
    #[verifier::allow_in_spec]
    pub fn wcap(&self) -> (val: bool)
        returns
            bits::flag(self.0, 0),
    {
        (self.0 >> 0usize) & 0x01 != 0
    }

    /// This value with `wcap` replaced by `val`.
    pub open spec fn with_wcap(self, val: bool) -> Self {
        WupTimerControl(bits::with_flag(self.0, 0, val))
    }

    pub fn set_wcap(&mut self, val: bool)
        ensures
            *final(self) == old(self).with_wcap(val),
    {
        self.0 = (self.0 & !(0x01 << 0usize)) | (((val as u8) & 0x01) << 0usize);
    }

    #[verifier::allow_in_spec]
    pub fn wph(&self) -> (val: bool)
        returns
            bits::flag(self.0, 1),
    {
        (self.0 >> 1usize) & 0x01 != 0
    }

    /// This value with `wph` replaced by `val`.
    pub open spec fn with_wph(self, val: bool) -> Self {
        WupTimerControl(bits::with_flag(self.0, 1, val))
    }

    pub fn set_wph(&mut self, val: bool)
        ensures
            *final(self) == old(self).with_wph(val),
    {
        self.0 = (self.0 & !(0x01 << 1usize)) | (((val as u8) & 0x01) << 1usize);
    }

    #[verifier::allow_in_spec]
    pub fn wam(&self) -> (val: bool)
        returns
            bits::flag(self.0, 2),
    {
        (self.0 >> 2usize) & 0x01 != 0
    }

    /// This value with `wam` replaced by `val`.
    pub open spec fn with_wam(self, val: bool) -> Self {
        WupTimerControl(bits::with_flag(self.0, 2, val))
    }

    pub fn set_wam(&mut self, val: bool)
        ensures
            *final(self) == old(self).with_wam(val),
    {
        self.0 = (self.0 & !(0x01 << 2usize)) | (((val as u8) & 0x01) << 2usize);
    }

    #[verifier::allow_in_spec]
    pub fn wto(&self) -> (val: bool)
        returns
            bits::flag(self.0, 3),
    {
        (self.0 >> 3usize) & 0x01 != 0
    }

    /// This value with `wto` replaced by `val`.
    pub open spec fn with_wto(self, val: bool) -> Self {
        WupTimerControl(bits::with_flag(self.0, 3, val))
    }

    pub fn set_wto(&mut self, val: bool)
        ensures
            *final(self) == old(self).with_wto(val),
    {
        self.0 = (self.0 & !(0x01 << 3usize)) | (((val as u8) & 0x01) << 3usize);
    }

    #[verifier::allow_in_spec]
    pub fn wut(&self) -> (val: u8)
        returns
            bits::field(self.0, 4, 0x07),
    {
        (self.0 >> 4usize) & 0x07
    }

    /// This value with `wut` replaced by the low bits of `val`.
    pub open spec fn with_wut(self, val: u8) -> Self {
        WupTimerControl(bits::with_field(self.0, 4, 0x07, val))
    }

    pub fn set_wut(&mut self, val: u8)
        ensures
            *final(self) == old(self).with_wut(val),
    {
        self.0 = (self.0 & !(0x07 << 4usize)) | ((val & 0x07) << 4usize);
    }

    #[verifier::allow_in_spec]
    pub fn wur(&self) -> (val: bool)
        returns
            bits::flag(self.0, 7),
    {
        (self.0 >> 7usize) & 0x01 != 0
    }

    /// This value with `wur` replaced by `val`.
    pub open spec fn with_wur(self, val: bool) -> Self {
        WupTimerControl(bits::with_flag(self.0, 7, val))
    }

    pub fn set_wur(&mut self, val: bool)
        ensures
            *final(self) == old(self).with_wur(val),
    {
        self.0 = (self.0 & !(0x01 << 7usize)) | (((val as u8) & 0x01) << 7usize);
    }
}

impl Default for WupTimerControl {
    fn default() -> (val: WupTimerControl)
        ensures
            val == WupTimerControl(0),
    {
        WupTimerControl(0)
    }
}

impl Value for WupTimerControl {
    open spec fn bits(self) -> u8 {
        self.0
    }

    open spec fn of_bits(bits: u8) -> WupTimerControl {
        WupTimerControl(bits)
    }

    proof fn lemma_bits_of_bits(bits: u8) {
    }

    fn to_bits(self) -> u8 {
        self.0
    }

    fn from_bits(bits: u8) -> WupTimerControl {
        WupTimerControl(bits)
    }
}

/// The layout of the register `field_threshold_deactv`.
#[derive(Copy, Clone, Eq, PartialEq, Structural)]
pub struct FieldThresholdDeactv(pub u8);

impl FieldThresholdDeactv {
    #[verifier::allow_in_spec]
    pub fn rfe(&self) -> (val: FieldThresholdDeactvRfe)
        returns
            FieldThresholdDeactvRfe(bits::field(self.0, 0, 0x0f)),
    {
        FieldThresholdDeactvRfe((self.0 >> 0usize) & 0x0f)
    }

    /// This value with `rfe` replaced by `val`.
    pub open spec fn with_rfe(self, val: FieldThresholdDeactvRfe) -> Self {
        FieldThresholdDeactv(bits::with_field(self.0, 0, 0x0f, val.0))
    }

    pub fn set_rfe(&mut self, val: FieldThresholdDeactvRfe)
        ensures
            *final(self) == old(self).with_rfe(val),
    {
        self.0 = (self.0 & !(0x0f << 0usize)) | ((val.0 & 0x0f) << 0usize);
    }

    #[verifier::allow_in_spec]
    pub fn trg(&self) -> (val: FieldThresholdDeactvTrg)
        returns
            FieldThresholdDeactvTrg(bits::field(self.0, 4, 0x07)),
    {
        FieldThresholdDeactvTrg((self.0 >> 4usize) & 0x07)
    }

    /// This value with `trg` replaced by `val`.
    pub open spec fn with_trg(self, val: FieldThresholdDeactvTrg) -> Self {
        FieldThresholdDeactv(bits::with_field(self.0, 4, 0x07, val.0))
    }

    pub fn set_trg(&mut self, val: FieldThresholdDeactvTrg)
        ensures
            *final(self) == old(self).with_trg(val),
    {
        self.0 = (self.0 & !(0x07 << 4usize)) | ((val.0 & 0x07) << 4usize);
    }
}

impl Default for FieldThresholdDeactv {
    fn default() -> (val: FieldThresholdDeactv)
        ensures
            val == FieldThresholdDeactv(0),
    {
        FieldThresholdDeactv(0)
    }
}

impl Value for FieldThresholdDeactv {
    open spec fn bits(self) -> u8 {
        self.0
    }

    open spec fn of_bits(bits: u8) -> FieldThresholdDeactv {
        FieldThresholdDeactv(bits)
    }

    proof fn lemma_bits_of_bits(bits: u8) {
    }

    fn to_bits(self) -> u8 {
        self.0
    }

    fn from_bits(bits: u8) -> FieldThresholdDeactv {
        FieldThresholdDeactv(bits)
    }
}

/// The layout of the register `io_conf1`.
#[derive(Copy, Clone, Eq, PartialEq, Structural)]
pub struct IoConf1(pub u8);

impl IoConf1 {
    #[verifier::allow_in_spec]
    pub fn lf_clk_off(&self) -> (val: bool)
        returns
            bits::flag(self.0, 0),
    {
        (self.0 >> 0usize) & 0x01 != 0
    }

    /// This value with `lf_clk_off` replaced by `val`.
    pub open spec fn with_lf_clk_off(self, val: bool) -> Self {
        IoConf1(bits::with_flag(self.0, 0, val))
    }

    pub fn set_lf_clk_off(&mut self, val: bool)
        ensures
            *final(self) == old(self).with_lf_clk_off(val),
    {
        self.0 = (self.0 & !(0x01 << 0usize)) | (((val as u8) & 0x01) << 0usize);
    }

    #[verifier::allow_in_spec]
    pub fn out_cl(&self) -> (val: IoConf1OutCl)
        returns
            IoConf1OutCl(bits::field(self.0, 1, 0x03)),
    {
        IoConf1OutCl((self.0 >> 1usize) & 0x03)
    }

    /// This value with `out_cl` replaced by `val`.
    pub open spec fn with_out_cl(self, val: IoConf1OutCl) -> Self {
        IoConf1(bits::with_field(self.0, 1, 0x03, val.0))
    }

    pub fn set_out_cl(&mut self, val: IoConf1OutCl)
        ensures
            *final(self) == old(self).with_out_cl(val),
    {
        self.0 = (self.0 & !(0x03 << 1usize)) | ((val.0 & 0x03) << 1usize);
    }

    #[verifier::allow_in_spec]
    pub fn rfu(&self) -> (val: bool)
        returns
            bits::flag(self.0, 3),
    {
        (self.0 >> 3usize) & 0x01 != 0
    }

    /// This value with `rfu` replaced by `val`.
    pub open spec fn with_rfu(self, val: bool) -> Self {
        IoConf1(bits::with_flag(self.0, 3, val))
    }

    pub fn set_rfu(&mut self, val: bool)
        ensures
            *final(self) == old(self).with_rfu(val),
    {
        self.0 = (self.0 & !(0x01 << 3usize)) | (((val as u8) & 0x01) << 3usize);
    }

    #[verifier::allow_in_spec]
    pub fn i2c_thd(&self) -> (val: u8)
        returns
            bits::field(self.0, 4, 0x03),
    {
        (self.0 >> 4usize) & 0x03
    }

    /// This value with `i2c_thd` replaced by the low bits of `val`.
    pub open spec fn with_i2c_thd(self, val: u8) -> Self {
        IoConf1(bits::with_field(self.0, 4, 0x03, val))
    }

    pub fn set_i2c_thd(&mut self, val: u8)
        ensures
            *final(self) == old(self).with_i2c_thd(val),
    {
        self.0 = (self.0 & !(0x03 << 4usize)) | ((val & 0x03) << 4usize);
    }

    #[verifier::allow_in_spec]
    pub fn rfo2(&self) -> (val: bool)
        returns
            bits::flag(self.0, 6),
    {
        (self.0 >> 6usize) & 0x01 != 0
    }

    /// This value with `rfo2` replaced by `val`.
    pub open spec fn with_rfo2(self, val: bool) -> Self {
        IoConf1(bits::with_flag(self.0, 6, val))
    }

    pub fn set_rfo2(&mut self, val: bool)
        ensures
            *final(self) == old(self).with_rfo2(val),
    {
        self.0 = (self.0 & !(0x01 << 6usize)) | (((val as u8) & 0x01) << 6usize);
    }

    #[verifier::allow_in_spec]
    pub fn single(&self) -> (val: bool)
        returns
            bits::flag(self.0, 7),
    {
        (self.0 >> 7usize) & 0x01 != 0
    }

    /// This value with `single` replaced by `val`.
    pub open spec fn with_single(self, val: bool) -> Self {
        IoConf1(bits::with_flag(self.0, 7, val))
    }

    pub fn set_single(&mut self, val: bool)
        ensures
            *final(self) == old(self).with_single(val),
    {
        self.0 = (self.0 & !(0x01 << 7usize)) | (((val as u8) & 0x01) << 7usize);
    }
}

impl Default for IoConf1 {
    fn default() -> (val: IoConf1)
        ensures
            val == IoConf1(0),
    {
        IoConf1(0)
    }
}

impl Value for IoConf1 {
    open spec fn bits(self) -> u8 {
        self.0
    }

    open spec fn of_bits(bits: u8) -> IoConf1 {
        IoConf1(bits)
    }

    proof fn lemma_bits_of_bits(bits: u8) {
    }

    fn to_bits(self) -> u8 {
        self.0
    }

    fn from_bits(bits: u8) -> IoConf1 {
        IoConf1(bits)
    }
}

/// The layout of the register `regulator_result`.
#[derive(Copy, Clone, Eq, PartialEq, Structural)]
pub struct RegulatorResult(pub u8);

impl RegulatorResult {
    #[verifier::allow_in_spec]
    pub fn i_lim(&self) -> (val: bool)
        returns
            bits::flag(self.0, 0),
    {
        (self.0 >> 0usize) & 0x01 != 0
    }

    /// This value with `i_lim` replaced by `val`.
    pub open spec fn with_i_lim(self, val: bool) -> Self {
        RegulatorResult(bits::with_flag(self.0, 0, val))
    }

    pub fn set_i_lim(&mut self, val: bool)
        ensures
            *final(self) == old(self).with_i_lim(val),
    {
        self.0 = (self.0 & !(0x01 << 0usize)) | (((val as u8) & 0x01) << 0usize);
    }

    #[verifier::allow_in_spec]
    pub fn reg(&self) -> (val: u8)
        returns
            bits::field(self.0, 4, 0x0f),
    {
        (self.0 >> 4usize) & 0x0f
    }

    /// This value with `reg` replaced by the low bits of `val`.
    pub open spec fn with_reg(self, val: u8) -> Self {
        RegulatorResult(bits::with_field(self.0, 4, 0x0f, val))
    }

    pub fn set_reg(&mut self, val: u8)
        ensures
            *final(self) == old(self).with_reg(val),
    {
        self.0 = (self.0 & !(0x0f << 4usize)) | ((val & 0x0f) << 4usize);
    }
}

impl Default for RegulatorResult {
    fn default() -> (val: RegulatorResult)
        ensures
            val == RegulatorResult(0),
    {
        RegulatorResult(0)
    }
}

impl Value for RegulatorResult {
    open spec fn bits(self) -> u8 {
        self.0
    }

    open spec fn of_bits(bits: u8) -> RegulatorResult {
        RegulatorResult(bits)
    }

    proof fn lemma_bits_of_bits(bits: u8) {
    }

    fn to_bits(self) -> u8 {
        self.0
    }

    fn from_bits(bits: u8) -> RegulatorResult {
        RegulatorResult(bits)
    }
}

/// The layout of the register `iso14443b_2`.
#[derive(Copy, Clone, Eq, PartialEq, Structural)]
pub struct Iso14443b2(pub u8);

impl Iso14443b2 {
    #[verifier::allow_in_spec]
    pub fn f_p(&self) -> (val: Iso14443b2FP)
        returns
            Iso14443b2FP(bits::field(self.0, 0, 0x03)),
    {
        Iso14443b2FP((self.0 >> 0usize) & 0x03)
    }

    /// This value with `f_p` replaced by `val`.
    pub open spec fn with_f_p(self, val: Iso14443b2FP) -> Self {
        Iso14443b2(bits::with_field(self.0, 0, 0x03, val.0))
    }

    pub fn set_f_p(&mut self, val: Iso14443b2FP)
        ensures
            *final(self) == old(self).with_f_p(val),
    {
        self.0 = (self.0 & !(0x03 << 0usize)) | ((val.0 & 0x03) << 0usize);
    }

    #[verifier::allow_in_spec]
    pub fn no_eof(&self) -> (val: bool)
        returns
            bits::flag(self.0, 4),
    {
        (self.0 >> 4usize) & 0x01 != 0
    }

    /// This value with `no_eof` replaced by `val`.
    pub open spec fn with_no_eof(self, val: bool) -> Self {
        Iso14443b2(bits::with_flag(self.0, 4, val))
    }

    pub fn set_no_eof(&mut self, val: bool)
        ensures
            *final(self) == old(self).with_no_eof(val),
    {
        self.0 = (self.0 & !(0x01 << 4usize)) | (((val as u8) & 0x01) << 4usize);
    }

    #[verifier::allow_in_spec]
    pub fn no_sof(&self) -> (val: bool)
        returns
            bits::flag(self.0, 5),
    {
        (self.0 >> 5usize) & 0x01 != 0
    }

    /// This value with `no_sof` replaced by `val`.
    pub open spec fn with_no_sof(self, val: bool) -> Self {
        Iso14443b2(bits::with_flag(self.0, 5, val))
    }

    pub fn set_no_sof(&mut self, val: bool)
        ensures
            *final(self) == old(self).with_no_sof(val),
    {
        self.0 = (self.0 & !(0x01 << 5usize)) | (((val as u8) & 0x01) << 5usize);
    }

    #[verifier::allow_in_spec]
    pub fn tr1(&self) -> (val: Iso14443b2Tr1)
        returns
            Iso14443b2Tr1(bits::field(self.0, 6, 0x03)),
    {
        Iso14443b2Tr1((self.0 >> 6usize) & 0x03)
    }

    /// This value with `tr1` replaced by `val`.
    pub open spec fn with_tr1(self, val: Iso14443b2Tr1) -> Self {
        Iso14443b2(bits::with_field(self.0, 6, 0x03, val.0))
    }

    pub fn set_tr1(&mut self, val: Iso14443b2Tr1)
        ensures
            *final(self) == old(self).with_tr1(val),
    {
        self.0 = (self.0 & !(0x03 << 6usize)) | ((val.0 & 0x03) << 6usize);
    }
}

impl Default for Iso14443b2 {
    fn default() -> (val: Iso14443b2)
        ensures
            val == Iso14443b2(0),
    {
        Iso14443b2(0)
    }
}

impl Value for Iso14443b2 {
    open spec fn bits(self) -> u8 {
        self.0
    }

    open spec fn of_bits(bits: u8) -> Iso14443b2 {
        Iso14443b2(bits)
    }

    proof fn lemma_bits_of_bits(bits: u8) {
    }

    fn to_bits(self) -> u8 {
        self.0
    }

    fn from_bits(bits: u8) -> Iso14443b2 {
        Iso14443b2(bits)
    }
}

/// The layout of the register `fifo_status2`.
#[derive(Copy, Clone, Eq, PartialEq, Structural)]
pub struct FifoStatus2(pub u8);

impl FifoStatus2 {
    #[verifier::allow_in_spec]
    pub fn np_lb(&self) -> (val: bool)
        returns
            bits::flag(self.0, 0),
    {
        (self.0 >> 0usize) & 0x01 != 0
    }

    /// This value with `np_lb` replaced by `val`.
    pub open spec fn with_np_lb(self, val: bool) -> Self {
        FifoStatus2(bits::with_flag(self.0, 0, val))
    }

    pub fn set_np_lb(&mut self, val: bool)
        ensures
            *final(self) == old(self).with_np_lb(val),
    {
        self.0 = (self.0 & !(0x01 << 0usize)) | (((val as u8) & 0x01) << 0usize);
    }

    #[verifier::allow_in_spec]
    pub fn fifo_lb(&self) -> (val: u8)
        returns
            bits::field(self.0, 1, 0x07),
    {
        (self.0 >> 1usize) & 0x07
    }

    /// This value with `fifo_lb` replaced by the low bits of `val`.
    pub open spec fn with_fifo_lb(self, val: u8) -> Self {
        FifoStatus2(bits::with_field(self.0, 1, 0x07, val))
    }

    pub fn set_fifo_lb(&mut self, val: u8)
        ensures
            *final(self) == old(self).with_fifo_lb(val),
    {
        self.0 = (self.0 & !(0x07 << 1usize)) | ((val & 0x07) << 1usize);
    }

    #[verifier::allow_in_spec]
    pub fn fifo_ovr(&self) -> (val: bool)
        returns
            bits::flag(self.0, 4),
    {
        (self.0 >> 4usize) & 0x01 != 0
    }

    /// This value with `fifo_ovr` replaced by `val`.
    pub open spec fn with_fifo_ovr(self, val: bool) -> Self {
        FifoStatus2(bits::with_flag(self.0, 4, val))
    }

    pub fn set_fifo_ovr(&mut self, val: bool)
        ensures
            *final(self) == old(self).with_fifo_ovr(val),
    {
        self.0 = (self.0 & !(0x01 << 4usize)) | (((val as u8) & 0x01) << 4usize);
    }

    #[verifier::allow_in_spec]
    pub fn fifo_unf(&self) -> (val: bool)
        returns
            bits::flag(self.0, 5),
    {
        (self.0 >> 5usize) & 0x01 != 0
    }

    /// This value with `fifo_unf` replaced by `val`.
    pub open spec fn with_fifo_unf(self, val: bool) -> Self {
        FifoStatus2(bits::with_flag(self.0, 5, val))
    }

    pub fn set_fifo_unf(&mut self, val: bool)
        ensures
            *final(self) == old(self).with_fifo_unf(val),
    {
        self.0 = (self.0 & !(0x01 << 5usize)) | (((val as u8) & 0x01) << 5usize);
    }

    #[verifier::allow_in_spec]
    pub fn fifo_b(&self) -> (val: u8)
        returns
            bits::field(self.0, 6, 0x03),
    {
        (self.0 >> 6usize) & 0x03
    }

    /// This value with `fifo_b` replaced by the low bits of `val`.
    pub open spec fn with_fifo_b(self, val: u8) -> Self {
        FifoStatus2(bits::with_field(self.0, 6, 0x03, val))
    }

    pub fn set_fifo_b(&mut self, val: u8)
        ensures
            *final(self) == old(self).with_fifo_b(val),
    {
        self.0 = (self.0 & !(0x03 << 6usize)) | ((val & 0x03) << 6usize);
    }
}

impl Default for FifoStatus2 {
    fn default() -> (val: FifoStatus2)
        ensures
            val == FifoStatus2(0),
    {
        FifoStatus2(0)
    }
}

impl Value for FifoStatus2 {
    open spec fn bits(self) -> u8 {
        self.0
    }

    open spec fn of_bits(bits: u8) -> FifoStatus2 {
        FifoStatus2(bits)
    }

    proof fn lemma_bits_of_bits(bits: u8) {
    }

    fn to_bits(self) -> u8 {
        self.0
    }

    fn from_bits(bits: u8) -> FifoStatus2 {
        FifoStatus2(bits)
    }
}

/// The layout of the register `passive_target_status`.
#[derive(Copy, Clone, Eq, PartialEq, Structural)]
pub struct PassiveTargetStatus(pub u8);

impl PassiveTargetStatus {
    #[verifier::allow_in_spec]
    pub fn pta_state(&self) -> (val: PassiveTargetStatusPtaState)
        returns
            PassiveTargetStatusPtaState(bits::field(self.0, 0, 0x0f)),
    {
        PassiveTargetStatusPtaState((self.0 >> 0usize) & 0x0f)
    }

    /// This value with `pta_state` replaced by `val`.
    pub open spec fn with_pta_state(self, val: PassiveTargetStatusPtaState) -> Self {
        PassiveTargetStatus(bits::with_field(self.0, 0, 0x0f, val.0))
    }

    pub fn set_pta_state(&mut self, val: PassiveTargetStatusPtaState)
        ensures
            *final(self) == old(self).with_pta_state(val),
    {
        self.0 = (self.0 & !(0x0f << 0usize)) | ((val.0 & 0x0f) << 0usize);
    }

    #[verifier::allow_in_spec]
    pub fn rfu3(&self) -> (val: bool)
        returns
            bits::flag(self.0, 4),
    {
        (self.0 >> 4usize) & 0x01 != 0
    }

    /// This value with `rfu3` replaced by `val`.
    pub open spec fn with_rfu3(self, val: bool) -> Self {
        PassiveTargetStatus(bits::with_flag(self.0, 4, val))
    }

    pub fn set_rfu3(&mut self, val: bool)
        ensures
            *final(self) == old(self).with_rfu3(val),
    {
        self.0 = (self.0 & !(0x01 << 4usize)) | (((val as u8) & 0x01) << 4usize);
    }

    #[verifier::allow_in_spec]
    pub fn rfu2(&self) -> (val: bool)
        returns
            bits::flag(self.0, 5),
    {
        (self.0 >> 5usize) & 0x01 != 0
    }

    /// This value with `rfu2` replaced by `val`.
    pub open spec fn with_rfu2(self, val: bool) -> Self {
        PassiveTargetStatus(bits::with_flag(self.0, 5, val))
    }

    pub fn set_rfu2(&mut self, val: bool)
        ensures
            *final(self) == old(self).with_rfu2(val),
    {
        self.0 = (self.0 & !(0x01 << 5usize)) | (((val as u8) & 0x01) << 5usize);
    }

    #[verifier::allow_in_spec]
    pub fn rfu1(&self) -> (val: bool)
        returns
            bits::flag(self.0, 6),
    {
        (self.0 >> 6usize) & 0x01 != 0
    }

    /// This value with `rfu1` replaced by `val`.
    pub open spec fn with_rfu1(self, val: bool) -> Self {
        PassiveTargetStatus(bits::with_flag(self.0, 6, val))
    }

    pub fn set_rfu1(&mut self, val: bool)
        ensures
            *final(self) == old(self).with_rfu1(val),
    {
        self.0 = (self.0 & !(0x01 << 6usize)) | (((val as u8) & 0x01) << 6usize);
    }

    #[verifier::allow_in_spec]
    pub fn rfu(&self) -> (val: bool)
        returns
            bits::flag(self.0, 7),
    {
        (self.0 >> 7usize) & 0x01 != 0
    }

    /// This value with `rfu` replaced by `val`.
    pub open spec fn with_rfu(self, val: bool) -> Self {
        PassiveTargetStatus(bits::with_flag(self.0, 7, val))
    }

    pub fn set_rfu(&mut self, val: bool)
        ensures
            *final(self) == old(self).with_rfu(val),
    {
        self.0 = (self.0 & !(0x01 << 7usize)) | (((val as u8) & 0x01) << 7usize);
    }
}

impl Default for PassiveTargetStatus {
    fn default() -> (val: PassiveTargetStatus)
        ensures
            val == PassiveTargetStatus(0),
    {
        PassiveTargetStatus(0)
    }
}

impl Value for PassiveTargetStatus {
    open spec fn bits(self) -> u8 {
        self.0
    }

    open spec fn of_bits(bits: u8) -> PassiveTargetStatus {
        PassiveTargetStatus(bits)
    }

    proof fn lemma_bits_of_bits(bits: u8) {
    }

    fn to_bits(self) -> u8 {
        self.0
    }

    fn from_bits(bits: u8) -> PassiveTargetStatus {
        PassiveTargetStatus(bits)
    }
}

/// The layout of the register `corr_conf1`.
#[derive(Copy, Clone, Eq, PartialEq, Structural)]
pub struct CorrConf1(pub u8);

impl CorrConf1 {
    #[verifier::allow_in_spec]
    pub fn corr_s0(&self) -> (val: bool)
        returns
            bits::flag(self.0, 0),
    {
        (self.0 >> 0usize) & 0x01 != 0
    }

    /// This value with `corr_s0` replaced by `val`.
    pub open spec fn with_corr_s0(self, val: bool) -> Self {
        CorrConf1(bits::with_flag(self.0, 0, val))
    }

    pub fn set_corr_s0(&mut self, val: bool)
        ensures
            *final(self) == old(self).with_corr_s0(val),
    {
        self.0 = (self.0 & !(0x01 << 0usize)) | (((val as u8) & 0x01) << 0usize);
    }

    #[verifier::allow_in_spec]
    pub fn corr_s1(&self) -> (val: bool)
        returns
            bits::flag(self.0, 1),
    {
        (self.0 >> 1usize) & 0x01 != 0
    }

    /// This value with `corr_s1` replaced by `val`.
    pub open spec fn with_corr_s1(self, val: bool) -> Self {
        CorrConf1(bits::with_flag(self.0, 1, val))
    }

    pub fn set_corr_s1(&mut self, val: bool)
        ensures
            *final(self) == old(self).with_corr_s1(val),
    {
        self.0 = (self.0 & !(0x01 << 1usize)) | (((val as u8) & 0x01) << 1usize);
    }

    #[verifier::allow_in_spec]
    pub fn corr_s2(&self) -> (val: bool)
        returns
            bits::flag(self.0, 2),
    {
        (self.0 >> 2usize) & 0x01 != 0
    }

    /// This value with `corr_s2` replaced by `val`.
    pub open spec fn with_corr_s2(self, val: bool) -> Self {
        CorrConf1(bits::with_flag(self.0, 2, val))
    }

    pub fn set_corr_s2(&mut self, val: bool)
        ensures
            *final(self) == old(self).with_corr_s2(val),
    {
        self.0 = (self.0 & !(0x01 << 2usize)) | (((val as u8) & 0x01) << 2usize);
    }

    #[verifier::allow_in_spec]
    pub fn corr_s3(&self) -> (val: bool)
        returns
            bits::flag(self.0, 3),
    {
        (self.0 >> 3usize) & 0x01 != 0
    }

    /// This value with `corr_s3` replaced by `val`.
    pub open spec fn with_corr_s3(self, val: bool) -> Self {
        CorrConf1(bits::with_flag(self.0, 3, val))
    }

    pub fn set_corr_s3(&mut self, val: bool)
        ensures
            *final(self) == old(self).with_corr_s3(val),
    {
        self.0 = (self.0 & !(0x01 << 3usize)) | (((val as u8) & 0x01) << 3usize);
    }

    #[verifier::allow_in_spec]
    pub fn corr_s4(&self) -> (val: bool)
        returns
            bits::flag(self.0, 4),
    {
        (self.0 >> 4usize) & 0x01 != 0
    }

    /// This value with `corr_s4` replaced by `val`.
    pub open spec fn with_corr_s4(self, val: bool) -> Self {
        CorrConf1(bits::with_flag(self.0, 4, val))
    }

    pub fn set_corr_s4(&mut self, val: bool)
        ensures
            *final(self) == old(self).with_corr_s4(val),
    {
        self.0 = (self.0 & !(0x01 << 4usize)) | (((val as u8) & 0x01) << 4usize);
    }

    #[verifier::allow_in_spec]
    pub fn corr_s5(&self) -> (val: bool)
        returns
            bits::flag(self.0, 5),
    {
        (self.0 >> 5usize) & 0x01 != 0
    }

    /// This value with `corr_s5` replaced by `val`.
    pub open spec fn with_corr_s5(self, val: bool) -> Self {
        CorrConf1(bits::with_flag(self.0, 5, val))
    }

    pub fn set_corr_s5(&mut self, val: bool)
        ensures
            *final(self) == old(self).with_corr_s5(val),
    {
        self.0 = (self.0 & !(0x01 << 5usize)) | (((val as u8) & 0x01) << 5usize);
    }

    #[verifier::allow_in_spec]
    pub fn corr_s6(&self) -> (val: bool)
        returns
            bits::flag(self.0, 6),
    {
        (self.0 >> 6usize) & 0x01 != 0
    }

    /// This value with `corr_s6` replaced by `val`.
    pub open spec fn with_corr_s6(self, val: bool) -> Self {
        CorrConf1(bits::with_flag(self.0, 6, val))
    }

    pub fn set_corr_s6(&mut self, val: bool)
        ensures
            *final(self) == old(self).with_corr_s6(val),
    {
        self.0 = (self.0 & !(0x01 << 6usize)) | (((val as u8) & 0x01) << 6usize);
    }

    #[verifier::allow_in_spec]
    pub fn corr_s7(&self) -> (val: bool)
        returns
            bits::flag(self.0, 7),
    {
        (self.0 >> 7usize) & 0x01 != 0
    }

    /// This value with `corr_s7` replaced by `val`.
    pub open spec fn with_corr_s7(self, val: bool) -> Self {
        CorrConf1(bits::with_flag(self.0, 7, val))
    }

    pub fn set_corr_s7(&mut self, val: bool)
        ensures
            *final(self) == old(self).with_corr_s7(val),
    {
        self.0 = (self.0 & !(0x01 << 7usize)) | (((val as u8) & 0x01) << 7usize);
    }
}

impl Default for CorrConf1 {
    fn default() -> (val: CorrConf1)
        ensures
            val == CorrConf1(0),
    {
        CorrConf1(0)
    }
}

impl Value for CorrConf1 {
    open spec fn bits(self) -> u8 {
        self.0
    }

    open spec fn of_bits(bits: u8) -> CorrConf1 {
        CorrConf1(bits)
    }

    proof fn lemma_bits_of_bits(bits: u8) {
    }

    fn to_bits(self) -> u8 {
        self.0
    }

    fn from_bits(bits: u8) -> CorrConf1 {
        CorrConf1(bits)
    }
}

/// The layout of the register `tx_driver_status`.
#[derive(Copy, Clone, Eq, PartialEq, Structural)]
pub struct TxDriverStatus(pub u8);

impl TxDriverStatus {
    #[verifier::allow_in_spec]
    pub fn d_tim(&self) -> (val: TxDriverStatusDTim)
        returns
            TxDriverStatusDTim(bits::field(self.0, 0, 0x07)),
    {
        TxDriverStatusDTim((self.0 >> 0usize) & 0x07)
    }

    /// This value with `d_tim` replaced by `val`.
    pub open spec fn with_d_tim(self, val: TxDriverStatusDTim) -> Self {
        TxDriverStatus(bits::with_field(self.0, 0, 0x07, val.0))
    }

    pub fn set_d_tim(&mut self, val: TxDriverStatusDTim)
        ensures
            *final(self) == old(self).with_d_tim(val),
    {
        self.0 = (self.0 & !(0x07 << 0usize)) | ((val.0 & 0x07) << 0usize);
    }

    #[verifier::allow_in_spec]
    pub fn rfu(&self) -> (val: bool)
        returns
            bits::flag(self.0, 3),
    {
        (self.0 >> 3usize) & 0x01 != 0
    }

    /// This value with `rfu` replaced by `val`.
    pub open spec fn with_rfu(self, val: bool) -> Self {
        TxDriverStatus(bits::with_flag(self.0, 3, val))
    }

    pub fn set_rfu(&mut self, val: bool)
        ensures
            *final(self) == old(self).with_rfu(val),
    {
        self.0 = (self.0 & !(0x01 << 3usize)) | (((val as u8) & 0x01) << 3usize);
    }

    #[verifier::allow_in_spec]
    pub fn d_rat(&self) -> (val: u8)
        returns
            bits::field(self.0, 4, 0x0f),
    {
        (self.0 >> 4usize) & 0x0f
    }

    /// This value with `d_rat` replaced by the low bits of `val`.
    pub open spec fn with_d_rat(self, val: u8) -> Self {
        TxDriverStatus(bits::with_field(self.0, 4, 0x0f, val))
    }

    pub fn set_d_rat(&mut self, val: u8)
        ensures
            *final(self) == old(self).with_d_rat(val),
    {
        self.0 = (self.0 & !(0x0f << 4usize)) | ((val & 0x0f) << 4usize);
    }
}

impl Default for TxDriverStatus {
    fn default() -> (val: TxDriverStatus)
        ensures
            val == TxDriverStatus(0),
    {
        TxDriverStatus(0)
    }
}

impl Value for TxDriverStatus {
    open spec fn bits(self) -> u8 {
        self.0
    }

    open spec fn of_bits(bits: u8) -> TxDriverStatus {
        TxDriverStatus(bits)
    }

    proof fn lemma_bits_of_bits(bits: u8) {
    }

    fn to_bits(self) -> u8 {
        self.0
    }

    fn from_bits(bits: u8) -> TxDriverStatus {
        TxDriverStatus(bits)
    }
}

/// The layout of the register `phase_measure_conf`.
#[derive(Copy, Clone, Eq, PartialEq, Structural)]
pub struct PhaseMeasureConf(pub u8);

impl PhaseMeasureConf {
    #[verifier::allow_in_spec]
    pub fn pm_ae(&self) -> (val: bool)
        returns
            bits::flag(self.0, 0),
    {
        (self.0 >> 0usize) & 0x01 != 0
    }

    /// This value with `pm_ae` replaced by `val`.
    pub open spec fn with_pm_ae(self, val: bool) -> Self {
        PhaseMeasureConf(bits::with_flag(self.0, 0, val))
    }

    pub fn set_pm_ae(&mut self, val: bool)
        ensures
            *final(self) == old(self).with_pm_ae(val),
    {
        self.0 = (self.0 & !(0x01 << 0usize)) | (((val as u8) & 0x01) << 0usize);
    }

    #[verifier::allow_in_spec]
    pub fn pm_aew(&self) -> (val: u8)
        returns
            bits::field(self.0, 1, 0x03),
    {
        (self.0 >> 1usize) & 0x03
    }

    /// This value with `pm_aew` replaced by the low bits of `val`.
    pub open spec fn with_pm_aew(self, val: u8) -> Self {
        PhaseMeasureConf(bits::with_field(self.0, 1, 0x03, val))
    }

    pub fn set_pm_aew(&mut self, val: u8)
        ensures
            *final(self) == old(self).with_pm_aew(val),
    {
        self.0 = (self.0 & !(0x03 << 1usize)) | ((val & 0x03) << 1usize);
    }

    #[verifier::allow_in_spec]
    pub fn pm_aam(&self) -> (val: bool)
        returns
            bits::flag(self.0, 3),
    {
        (self.0 >> 3usize) & 0x01 != 0
    }

    /// This value with `pm_aam` replaced by `val`.
    pub open spec fn with_pm_aam(self, val: bool) -> Self {
        PhaseMeasureConf(bits::with_flag(self.0, 3, val))
    }

    pub fn set_pm_aam(&mut self, val: bool)
        ensures
            *final(self) == old(self).with_pm_aam(val),
    {
        self.0 = (self.0 & !(0x01 << 3usize)) | (((val as u8) & 0x01) << 3usize);
    }

    #[verifier::allow_in_spec]
    pub fn pm_d(&self) -> (val: u8)
        returns
            bits::field(self.0, 4, 0x0f),
    {
        (self.0 >> 4usize) & 0x0f
    }

    /// This value with `pm_d` replaced by the low bits of `val`.
    pub open spec fn with_pm_d(self, val: u8) -> Self {
        PhaseMeasureConf(bits::with_field(self.0, 4, 0x0f, val))
    }

    pub fn set_pm_d(&mut self, val: u8)
        ensures
            *final(self) == old(self).with_pm_d(val),
    {
        self.0 = (self.0 & !(0x0f << 4usize)) | ((val & 0x0f) << 4usize);
    }
}

impl Default for PhaseMeasureConf {
    fn default() -> (val: PhaseMeasureConf)
        ensures
            val == PhaseMeasureConf(0),
    {
        PhaseMeasureConf(0)
    }
}

impl Value for PhaseMeasureConf {
    open spec fn bits(self) -> u8 {
        self.0
    }

    open spec fn of_bits(bits: u8) -> PhaseMeasureConf {
        PhaseMeasureConf(bits)
    }

    proof fn lemma_bits_of_bits(bits: u8) {
    }

    fn to_bits(self) -> u8 {
        self.0
    }

    fn from_bits(bits: u8) -> PhaseMeasureConf {
        PhaseMeasureConf(bits)
    }
}

/// The layout of the register `overshoot_conf2`.
#[derive(Copy, Clone, Eq, PartialEq, Structural)]
pub struct OvershootConf2(pub u8);

impl OvershootConf2 {
    #[verifier::allow_in_spec]
    pub fn ov_pattern(&self) -> (val: u8)
        returns
            bits::field(self.0, 0, 0xff),
    {
        (self.0 >> 0usize) & 0xff
    }

    /// This value with `ov_pattern` replaced by the low bits of `val`.
    pub open spec fn with_ov_pattern(self, val: u8) -> Self {
        OvershootConf2(bits::with_field(self.0, 0, 0xff, val))
    }

    pub fn set_ov_pattern(&mut self, val: u8)
        ensures
            *final(self) == old(self).with_ov_pattern(val),
    {
        self.0 = (self.0 & !(0xff << 0usize)) | ((val & 0xff) << 0usize);
    }
}

impl Default for OvershootConf2 {
    fn default() -> (val: OvershootConf2)
        ensures
            val == OvershootConf2(0),
    {
        OvershootConf2(0)
    }
}

impl Value for OvershootConf2 {
    open spec fn bits(self) -> u8 {
        self.0
    }

    open spec fn of_bits(bits: u8) -> OvershootConf2 {
        OvershootConf2(bits)
    }

    proof fn lemma_bits_of_bits(bits: u8) {
    }

    fn to_bits(self) -> u8 {
        self.0
    }

    fn from_bits(bits: u8) -> OvershootConf2 {
        OvershootConf2(bits)
    }
}

/// The layout of the register `passive_target`.
#[derive(Copy, Clone, Eq, PartialEq, Structural)]
pub struct PassiveTarget(pub u8);

impl PassiveTarget {
    #[verifier::allow_in_spec]
    pub fn d_106_ac_a(&self) -> (val: bool)
        returns
            bits::flag(self.0, 0),
    {
        (self.0 >> 0usize) & 0x01 != 0
    }

    /// This value with `d_106_ac_a` replaced by `val`.
    pub open spec fn with_d_106_ac_a(self, val: bool) -> Self {
        PassiveTarget(bits::with_flag(self.0, 0, val))
    }

    pub fn set_d_106_ac_a(&mut self, val: bool)
        ensures
            *final(self) == old(self).with_d_106_ac_a(val),
    {
        self.0 = (self.0 & !(0x01 << 0usize)) | (((val as u8) & 0x01) << 0usize);
    }

    #[verifier::allow_in_spec]
    pub fn rfu(&self) -> (val: bool)
        returns
            bits::flag(self.0, 1),
    {
        (self.0 >> 1usize) & 0x01 != 0
    }

    /// This value with `rfu` replaced by `val`.
    pub open spec fn with_rfu(self, val: bool) -> Self {
        PassiveTarget(bits::with_flag(self.0, 1, val))
    }

    pub fn set_rfu(&mut self, val: bool)
        ensures
            *final(self) == old(self).with_rfu(val),
    {
        self.0 = (self.0 & !(0x01 << 1usize)) | (((val as u8) & 0x01) << 1usize);
    }

    #[verifier::allow_in_spec]
    pub fn d_212_424_1r(&self) -> (val: bool)
        returns
            bits::flag(self.0, 2),
    {
        (self.0 >> 2usize) & 0x01 != 0
    }

    /// This value with `d_212_424_1r` replaced by `val`.
    pub open spec fn with_d_212_424_1r(self, val: bool) -> Self {
        PassiveTarget(bits::with_flag(self.0, 2, val))
    }

    pub fn set_d_212_424_1r(&mut self, val: bool)
        ensures
            *final(self) == old(self).with_d_212_424_1r(val),
    {
        self.0 = (self.0 & !(0x01 << 2usize)) | (((val as u8) & 0x01) << 2usize);
    }

    #[verifier::allow_in_spec]
    pub fn d_ac_ap2p(&self) -> (val: bool)
        returns
            bits::flag(self.0, 3),
    {
        (self.0 >> 3usize) & 0x01 != 0
    }

    /// This value with `d_ac_ap2p` replaced by `val`.
    pub open spec fn with_d_ac_ap2p(self, val: bool) -> Self {
        PassiveTarget(bits::with_flag(self.0, 3, val))
    }

    pub fn set_d_ac_ap2p(&mut self, val: bool)
        ensures
            *final(self) == old(self).with_d_ac_ap2p(val),
    {
        self.0 = (self.0 & !(0x01 << 3usize)) | (((val as u8) & 0x01) << 3usize);
    }

    #[verifier::allow_in_spec]
    pub fn fdel(&self) -> (val: u8)
        returns
            bits::field(self.0, 4, 0x0f),
    {
        (self.0 >> 4usize) & 0x0f
    }

    /// This value with `fdel` replaced by the low bits of `val`.
    pub open spec fn with_fdel(self, val: u8) -> Self {
        PassiveTarget(bits::with_field(self.0, 4, 0x0f, val))
    }

    pub fn set_fdel(&mut self, val: u8)
        ensures
            *final(self) == old(self).with_fdel(val),
    {
        self.0 = (self.0 & !(0x0f << 4usize)) | ((val & 0x0f) << 4usize);
    }
}

impl Default for PassiveTarget {
    fn default() -> (val: PassiveTarget)
        ensures
            val == PassiveTarget(0),
    {
        PassiveTarget(0)
    }
}

impl Value for PassiveTarget {
    open spec fn bits(self) -> u8 {
        self.0
    }

    open spec fn of_bits(bits: u8) -> PassiveTarget {
        PassiveTarget(bits)
    }

    proof fn lemma_bits_of_bits(bits: u8) {
    }

    fn to_bits(self) -> u8 {
        self.0
    }

    fn from_bits(bits: u8) -> PassiveTarget {
        PassiveTarget(bits)
    }
}

/// The layout of the register `op_control`.
#[derive(Copy, Clone, Eq, PartialEq, Structural)]
pub struct OpControl(pub u8);

impl OpControl {
    #[verifier::allow_in_spec]
    pub fn en_fd(&self) -> (val: OpControlEnFd)
        returns
            OpControlEnFd(bits::field(self.0, 0, 0x03)),
    {
        OpControlEnFd((self.0 >> 0usize) & 0x03)
    }

    /// This value with `en_fd` replaced by `val`.
    pub open spec fn with_en_fd(self, val: OpControlEnFd) -> Self {
        OpControl(bits::with_field(self.0, 0, 0x03, val.0))
    }

    pub fn set_en_fd(&mut self, val: OpControlEnFd)
        ensures
            *final(self) == old(self).with_en_fd(val),
    {
        self.0 = (self.0 & !(0x03 << 0usize)) | ((val.0 & 0x03) << 0usize);
    }

    #[verifier::allow_in_spec]
    pub fn wu(&self) -> (val: bool)
        returns
            bits::flag(self.0, 2),
    {
        (self.0 >> 2usize) & 0x01 != 0
    }

    /// This value with `wu` replaced by `val`.
    pub open spec fn with_wu(self, val: bool) -> Self {
        OpControl(bits::with_flag(self.0, 2, val))
    }

    pub fn set_wu(&mut self, val: bool)
        ensures
            *final(self) == old(self).with_wu(val),
    {
        self.0 = (self.0 & !(0x01 << 2usize)) | (((val as u8) & 0x01) << 2usize);
    }

    #[verifier::allow_in_spec]
    pub fn tx_en(&self) -> (val: bool)
        returns
            bits::flag(self.0, 3),
    {
        (self.0 >> 3usize) & 0x01 != 0
    }

    /// This value with `tx_en` replaced by `val`.
    pub open spec fn with_tx_en(self, val: bool) -> Self {
        OpControl(bits::with_flag(self.0, 3, val))
    }

    pub fn set_tx_en(&mut self, val: bool)
        ensures
            *final(self) == old(self).with_tx_en(val),
    {
        self.0 = (self.0 & !(0x01 << 3usize)) | (((val as u8) & 0x01) << 3usize);
    }

    #[verifier::allow_in_spec]
    pub fn rx_man(&self) -> (val: bool)
        returns
            bits::flag(self.0, 4),
    {
        (self.0 >> 4usize) & 0x01 != 0
    }

    /// This value with `rx_man` replaced by `val`.
    pub open spec fn with_rx_man(self, val: bool) -> Self {
        OpControl(bits::with_flag(self.0, 4, val))
    }

    pub fn set_rx_man(&mut self, val: bool)
        ensures
            *final(self) == old(self).with_rx_man(val),
    {
        self.0 = (self.0 & !(0x01 << 4usize)) | (((val as u8) & 0x01) << 4usize);
    }

    #[verifier::allow_in_spec]
    pub fn rx_chn(&self) -> (val: bool)
        returns
            bits::flag(self.0, 5),
    {
        (self.0 >> 5usize) & 0x01 != 0
    }

    /// This value with `rx_chn` replaced by `val`.
    pub open spec fn with_rx_chn(self, val: bool) -> Self {
        OpControl(bits::with_flag(self.0, 5, val))
    }

    pub fn set_rx_chn(&mut self, val: bool)
        ensures
            *final(self) == old(self).with_rx_chn(val),
    {
        self.0 = (self.0 & !(0x01 << 5usize)) | (((val as u8) & 0x01) << 5usize);
    }

    #[verifier::allow_in_spec]
    pub fn rx_en(&self) -> (val: bool)
        returns
            bits::flag(self.0, 6),
    {
        (self.0 >> 6usize) & 0x01 != 0
    }

    /// This value with `rx_en` replaced by `val`.
    pub open spec fn with_rx_en(self, val: bool) -> Self {
        OpControl(bits::with_flag(self.0, 6, val))
    }

    pub fn set_rx_en(&mut self, val: bool)
        ensures
            *final(self) == old(self).with_rx_en(val),
    {
        self.0 = (self.0 & !(0x01 << 6usize)) | (((val as u8) & 0x01) << 6usize);
    }

    #[verifier::allow_in_spec]
    pub fn en(&self) -> (val: bool)
        returns
            bits::flag(self.0, 7),
    {
        (self.0 >> 7usize) & 0x01 != 0
    }

    /// This value with `en` replaced by `val`.
    pub open spec fn with_en(self, val: bool) -> Self {
        OpControl(bits::with_flag(self.0, 7, val))
    }

    pub fn set_en(&mut self, val: bool)
        ensures
            *final(self) == old(self).with_en(val),
    {
        self.0 = (self.0 & !(0x01 << 7usize)) | (((val as u8) & 0x01) << 7usize);
    }
}

impl Default for OpControl {
    fn default() -> (val: OpControl)
        ensures
            val == OpControl(0),
    {
        OpControl(0)
    }
}

impl Value for OpControl {
    open spec fn bits(self) -> u8 {
        self.0
    }

    open spec fn of_bits(bits: u8) -> OpControl {
        OpControl(bits)
    }

    proof fn lemma_bits_of_bits(bits: u8) {
    }

    fn to_bits(self) -> u8 {
        self.0
    }

    fn from_bits(bits: u8) -> OpControl {
        OpControl(bits)
    }
}

/// The layout of the register `mode`.
#[derive(Copy, Clone, Eq, PartialEq, Structural)]
pub struct Mode(pub u8);

impl Mode {
    #[verifier::allow_in_spec]
    pub fn nfc_ar(&self) -> (val: ModeNfcAr)
        returns
            ModeNfcAr(bits::field(self.0, 0, 0x03)),
    {
        ModeNfcAr((self.0 >> 0usize) & 0x03)
    }

    /// This value with `nfc_ar` replaced by `val`.
    pub open spec fn with_nfc_ar(self, val: ModeNfcAr) -> Self {
        Mode(bits::with_field(self.0, 0, 0x03, val.0))
    }

    pub fn set_nfc_ar(&mut self, val: ModeNfcAr)
        ensures
            *final(self) == old(self).with_nfc_ar(val),
    {
        self.0 = (self.0 & !(0x03 << 0usize)) | ((val.0 & 0x03) << 0usize);
    }

    #[verifier::allow_in_spec]
    pub fn tr_am(&self) -> (val: bool)
        returns
            bits::flag(self.0, 2),
    {
        (self.0 >> 2usize) & 0x01 != 0
    }

    /// This value with `tr_am` replaced by `val`.
    pub open spec fn with_tr_am(self, val: bool) -> Self {
        Mode(bits::with_flag(self.0, 2, val))
    }

    pub fn set_tr_am(&mut self, val: bool)
        ensures
            *final(self) == old(self).with_tr_am(val),
    {
        self.0 = (self.0 & !(0x01 << 2usize)) | (((val as u8) & 0x01) << 2usize);
    }

    #[verifier::allow_in_spec]
    pub fn om(&self) -> (val: ModeOm)
        returns
            ModeOm(bits::field(self.0, 3, 0x0f)),
    {
        ModeOm((self.0 >> 3usize) & 0x0f)
    }

    /// This value with `om` replaced by `val`.
    pub open spec fn with_om(self, val: ModeOm) -> Self {
        Mode(bits::with_field(self.0, 3, 0x0f, val.0))
    }

    pub fn set_om(&mut self, val: ModeOm)
        ensures
            *final(self) == old(self).with_om(val),
    {
        self.0 = (self.0 & !(0x0f << 3usize)) | ((val.0 & 0x0f) << 3usize);
    }

    #[verifier::allow_in_spec]
    pub fn targ(&self) -> (val: bool)
        returns
            bits::flag(self.0, 7),
    {
        (self.0 >> 7usize) & 0x01 != 0
    }

    /// This value with `targ` replaced by `val`.
    pub open spec fn with_targ(self, val: bool) -> Self {
        Mode(bits::with_flag(self.0, 7, val))
    }

    pub fn set_targ(&mut self, val: bool)
        ensures
            *final(self) == old(self).with_targ(val),
    {
        self.0 = (self.0 & !(0x01 << 7usize)) | (((val as u8) & 0x01) << 7usize);
    }

    #[verifier::allow_in_spec]
    pub fn targ_targ(&self) -> (val: bool)
        returns
            bits::flag(self.0, 7),
    {
        (self.0 >> 7usize) & 0x01 != 0
    }

    /// This value with `targ_targ` replaced by `val`.
    pub open spec fn with_targ_targ(self, val: bool) -> Self {
        Mode(bits::with_flag(self.0, 7, val))
    }

    pub fn set_targ_targ(&mut self, val: bool)
        ensures
            *final(self) == old(self).with_targ_targ(val),
    {
        self.0 = (self.0 & !(0x01 << 7usize)) | (((val as u8) & 0x01) << 7usize);
    }
}

impl Default for Mode {
    fn default() -> (val: Mode)
        ensures
            val == Mode(0),
    {
        Mode(0)
    }
}

impl Value for Mode {
    open spec fn bits(self) -> u8 {
        self.0
    }

    open spec fn of_bits(bits: u8) -> Mode {
        Mode(bits)
    }

    proof fn lemma_bits_of_bits(bits: u8) {
    }

    fn to_bits(self) -> u8 {
        self.0
    }

    fn from_bits(bits: u8) -> Mode {
        Mode(bits)
    }
}

/// The layout of the register `field_threshold_actv`.
#[derive(Copy, Clone, Eq, PartialEq, Structural)]
pub struct FieldThresholdActv(pub u8);

impl FieldThresholdActv {
    #[verifier::allow_in_spec]
    pub fn rfe(&self) -> (val: FieldThresholdActvRfe)
        returns
            FieldThresholdActvRfe(bits::field(self.0, 0, 0x0f)),
    {
        FieldThresholdActvRfe((self.0 >> 0usize) & 0x0f)
    }

    /// This value with `rfe` replaced by `val`.
    pub open spec fn with_rfe(self, val: FieldThresholdActvRfe) -> Self {
        FieldThresholdActv(bits::with_field(self.0, 0, 0x0f, val.0))
    }

    pub fn set_rfe(&mut self, val: FieldThresholdActvRfe)
        ensures
            *final(self) == old(self).with_rfe(val),
    {
        self.0 = (self.0 & !(0x0f << 0usize)) | ((val.0 & 0x0f) << 0usize);
    }

    #[verifier::allow_in_spec]
    pub fn trg(&self) -> (val: FieldThresholdActvTrg)
        returns
            FieldThresholdActvTrg(bits::field(self.0, 4, 0x07)),
    {
        FieldThresholdActvTrg((self.0 >> 4usize) & 0x07)
    }

    /// This value with `trg` replaced by `val`.
    pub open spec fn with_trg(self, val: FieldThresholdActvTrg) -> Self {
        FieldThresholdActv(bits::with_field(self.0, 4, 0x07, val.0))
    }

    pub fn set_trg(&mut self, val: FieldThresholdActvTrg)
        ensures
            *final(self) == old(self).with_trg(val),
    {
        self.0 = (self.0 & !(0x07 << 4usize)) | ((val.0 & 0x07) << 4usize);
    }
}

impl Default for FieldThresholdActv {
    fn default() -> (val: FieldThresholdActv)
        ensures
            val == FieldThresholdActv(0),
    {
        FieldThresholdActv(0)
    }
}

impl Value for FieldThresholdActv {
    open spec fn bits(self) -> u8 {
        self.0
    }

    open spec fn of_bits(bits: u8) -> FieldThresholdActv {
        FieldThresholdActv(bits)
    }

    proof fn lemma_bits_of_bits(bits: u8) {
    }

    fn to_bits(self) -> u8 {
        self.0
    }

    fn from_bits(bits: u8) -> FieldThresholdActv {
        FieldThresholdActv(bits)
    }
}

/// The layout of the register `amplitude_measure_conf`.
#[derive(Copy, Clone, Eq, PartialEq, Structural)]
pub struct AmplitudeMeasureConf(pub u8);

impl AmplitudeMeasureConf {
    #[verifier::allow_in_spec]
    pub fn am_ae(&self) -> (val: bool)
        returns
            bits::flag(self.0, 0),
    {
        (self.0 >> 0usize) & 0x01 != 0
    }

    /// This value with `am_ae` replaced by `val`.
    pub open spec fn with_am_ae(self, val: bool) -> Self {
        AmplitudeMeasureConf(bits::with_flag(self.0, 0, val))
    }

    pub fn set_am_ae(&mut self, val: bool)
        ensures
            *final(self) == old(self).with_am_ae(val),
    {
        self.0 = (self.0 & !(0x01 << 0usize)) | (((val as u8) & 0x01) << 0usize);
    }

    #[verifier::allow_in_spec]
    pub fn am_aew(&self) -> (val: u8)
        returns
            bits::field(self.0, 1, 0x03),
    {
        (self.0 >> 1usize) & 0x03
    }

    /// This value with `am_aew` replaced by the low bits of `val`.
    pub open spec fn with_am_aew(self, val: u8) -> Self {
        AmplitudeMeasureConf(bits::with_field(self.0, 1, 0x03, val))
    }

    pub fn set_am_aew(&mut self, val: u8)
        ensures
            *final(self) == old(self).with_am_aew(val),
    {
        self.0 = (self.0 & !(0x03 << 1usize)) | ((val & 0x03) << 1usize);
    }

    #[verifier::allow_in_spec]
    pub fn am_aam(&self) -> (val: bool)
        returns
            bits::flag(self.0, 3),
    {
        (self.0 >> 3usize) & 0x01 != 0
    }

    /// This value with `am_aam` replaced by `val`.
    pub open spec fn with_am_aam(self, val: bool) -> Self {
        AmplitudeMeasureConf(bits::with_flag(self.0, 3, val))
    }

    pub fn set_am_aam(&mut self, val: bool)
        ensures
            *final(self) == old(self).with_am_aam(val),
    {
        self.0 = (self.0 & !(0x01 << 3usize)) | (((val as u8) & 0x01) << 3usize);
    }

    #[verifier::allow_in_spec]
    pub fn am_d(&self) -> (val: u8)
        returns
            bits::field(self.0, 4, 0x0f),
    {
        (self.0 >> 4usize) & 0x0f
    }

    /// This value with `am_d` replaced by the low bits of `val`.
    pub open spec fn with_am_d(self, val: u8) -> Self {
        AmplitudeMeasureConf(bits::with_field(self.0, 4, 0x0f, val))
    }

    pub fn set_am_d(&mut self, val: u8)
        ensures
            *final(self) == old(self).with_am_d(val),
    {
        self.0 = (self.0 & !(0x0f << 4usize)) | ((val & 0x0f) << 4usize);
    }
}

impl Default for AmplitudeMeasureConf {
    fn default() -> (val: AmplitudeMeasureConf)
        ensures
            val == AmplitudeMeasureConf(0),
    {
        AmplitudeMeasureConf(0)
    }
}

impl Value for AmplitudeMeasureConf {
    open spec fn bits(self) -> u8 {
        self.0
    }

    open spec fn of_bits(bits: u8) -> AmplitudeMeasureConf {
        AmplitudeMeasureConf(bits)
    }

    proof fn lemma_bits_of_bits(bits: u8) {
    }

    fn to_bits(self) -> u8 {
        self.0
    }

    fn from_bits(bits: u8) -> AmplitudeMeasureConf {
        AmplitudeMeasureConf(bits)
    }
}

/// The layout of the register `rx_conf1`.
#[derive(Copy, Clone, Eq, PartialEq, Structural)]
pub struct RxConf1(pub u8);

impl RxConf1 {
    #[verifier::allow_in_spec]
    pub fn hz(&self) -> (val: RxConf1Hz)
        returns
            RxConf1Hz(bits::field(self.0, 0, 0x0f)),
    {
        RxConf1Hz((self.0 >> 0usize) & 0x0f)
    }

    /// This value with `hz` replaced by `val`.
    pub open spec fn with_hz(self, val: RxConf1Hz) -> Self {
        RxConf1(bits::with_field(self.0, 0, 0x0f, val.0))
    }

    pub fn set_hz(&mut self, val: RxConf1Hz)
        ensures
            *final(self) == old(self).with_hz(val),
    {
        self.0 = (self.0 & !(0x0f << 0usize)) | ((val.0 & 0x0f) << 0usize);
    }

    #[verifier::allow_in_spec]
    pub fn z12k(&self) -> (val: bool)
        returns
            bits::flag(self.0, 0),
    {
        (self.0 >> 0usize) & 0x01 != 0
    }

    /// This value with `z12k` replaced by `val`.
    pub open spec fn with_z12k(self, val: bool) -> Self {
        RxConf1(bits::with_flag(self.0, 0, val))
    }

    pub fn set_z12k(&mut self, val: bool)
        ensures
            *final(self) == old(self).with_z12k(val),
    {
        self.0 = (self.0 & !(0x01 << 0usize)) | (((val as u8) & 0x01) << 0usize);
    }

    #[verifier::allow_in_spec]
    pub fn h80(&self) -> (val: bool)
        returns
            bits::flag(self.0, 1),
    {
        (self.0 >> 1usize) & 0x01 != 0
    }

    /// This value with `h80` replaced by `val`.
    pub open spec fn with_h80(self, val: bool) -> Self {
        RxConf1(bits::with_flag(self.0, 1, val))
    }

    pub fn set_h80(&mut self, val: bool)
        ensures
            *final(self) == old(self).with_h80(val),
    {
        self.0 = (self.0 & !(0x01 << 1usize)) | (((val as u8) & 0x01) << 1usize);
    }

    #[verifier::allow_in_spec]
    pub fn h200(&self) -> (val: bool)
        returns
            bits::flag(self.0, 2),
    {
        (self.0 >> 2usize) & 0x01 != 0
    }

    /// This value with `h200` replaced by `val`.
    pub open spec fn with_h200(self, val: bool) -> Self {
        RxConf1(bits::with_flag(self.0, 2, val))
    }

    pub fn set_h200(&mut self, val: bool)
        ensures
            *final(self) == old(self).with_h200(val),
    {
        self.0 = (self.0 & !(0x01 << 2usize)) | (((val as u8) & 0x01) << 2usize);
    }

    #[verifier::allow_in_spec]
    pub fn z600k(&self) -> (val: bool)
        returns
            bits::flag(self.0, 3),
    {
        (self.0 >> 3usize) & 0x01 != 0
    }

    /// This value with `z600k` replaced by `val`.
    pub open spec fn with_z600k(self, val: bool) -> Self {
        RxConf1(bits::with_flag(self.0, 3, val))
    }

    pub fn set_z600k(&mut self, val: bool)
        ensures
            *final(self) == old(self).with_z600k(val),
    {
        self.0 = (self.0 & !(0x01 << 3usize)) | (((val as u8) & 0x01) << 3usize);
    }

    #[verifier::allow_in_spec]
    pub fn lp(&self) -> (val: RxConf1Lp)
        returns
            RxConf1Lp(bits::field(self.0, 4, 0x07)),
    {
        RxConf1Lp((self.0 >> 4usize) & 0x07)
    }

    /// This value with `lp` replaced by `val`.
    pub open spec fn with_lp(self, val: RxConf1Lp) -> Self {
        RxConf1(bits::with_field(self.0, 4, 0x07, val.0))
    }

    pub fn set_lp(&mut self, val: RxConf1Lp)
        ensures
            *final(self) == old(self).with_lp(val),
    {
        self.0 = (self.0 & !(0x07 << 4usize)) | ((val.0 & 0x07) << 4usize);
    }

    #[verifier::allow_in_spec]
    pub fn ch_sel(&self) -> (val: bool)
        returns
            bits::flag(self.0, 7),
    {
        (self.0 >> 7usize) & 0x01 != 0
    }

    /// This value with `ch_sel` replaced by `val`.
    pub open spec fn with_ch_sel(self, val: bool) -> Self {
        RxConf1(bits::with_flag(self.0, 7, val))
    }

    pub fn set_ch_sel(&mut self, val: bool)
        ensures
            *final(self) == old(self).with_ch_sel(val),
    {
        self.0 = (self.0 & !(0x01 << 7usize)) | (((val as u8) & 0x01) << 7usize);
    }
}

impl Default for RxConf1 {
    fn default() -> (val: RxConf1)
        ensures
            val == RxConf1(0),
    {
        RxConf1(0)
    }
}

impl Value for RxConf1 {
    open spec fn bits(self) -> u8 {
        self.0
    }

    open spec fn of_bits(bits: u8) -> RxConf1 {
        RxConf1(bits)
    }

    proof fn lemma_bits_of_bits(bits: u8) {
    }

    fn to_bits(self) -> u8 {
        self.0
    }

    fn from_bits(bits: u8) -> RxConf1 {
        RxConf1(bits)
    }
}

/// The layout of the register `cap_sensor_result`.
#[derive(Copy, Clone, Eq, PartialEq, Structural)]
pub struct CapSensorResult(pub u8);

impl CapSensorResult {
    #[verifier::allow_in_spec]
    pub fn cs_cal_err(&self) -> (val: bool)
        returns
            bits::flag(self.0, 1),
    {
        (self.0 >> 1usize) & 0x01 != 0
    }

    /// This value with `cs_cal_err` replaced by `val`.
    pub open spec fn with_cs_cal_err(self, val: bool) -> Self {
        CapSensorResult(bits::with_flag(self.0, 1, val))
    }

    pub fn set_cs_cal_err(&mut self, val: bool)
        ensures
            *final(self) == old(self).with_cs_cal_err(val),
    {
        self.0 = (self.0 & !(0x01 << 1usize)) | (((val as u8) & 0x01) << 1usize);
    }

    #[verifier::allow_in_spec]
    pub fn cs_cal_end(&self) -> (val: bool)
        returns
            bits::flag(self.0, 2),
    {
        (self.0 >> 2usize) & 0x01 != 0
    }

    /// This value with `cs_cal_end` replaced by `val`.
    pub open spec fn with_cs_cal_end(self, val: bool) -> Self {
        CapSensorResult(bits::with_flag(self.0, 2, val))
    }

    pub fn set_cs_cal_end(&mut self, val: bool)
        ensures
            *final(self) == old(self).with_cs_cal_end(val),
    {
        self.0 = (self.0 & !(0x01 << 2usize)) | (((val as u8) & 0x01) << 2usize);
    }

    #[verifier::allow_in_spec]
    pub fn cs_cal_val(&self) -> (val: u8)
        returns
            bits::field(self.0, 3, 0x1f),
    {
        (self.0 >> 3usize) & 0x1f
    }

    /// This value with `cs_cal_val` replaced by the low bits of `val`.
    pub open spec fn with_cs_cal_val(self, val: u8) -> Self {
        CapSensorResult(bits::with_field(self.0, 3, 0x1f, val))
    }

    pub fn set_cs_cal_val(&mut self, val: u8)
        ensures
            *final(self) == old(self).with_cs_cal_val(val),
    {
        self.0 = (self.0 & !(0x1f << 3usize)) | ((val & 0x1f) << 3usize);
    }
}

impl Default for CapSensorResult {
    fn default() -> (val: CapSensorResult)
        ensures
            val == CapSensorResult(0),
    {
        CapSensorResult(0)
    }
}

impl Value for CapSensorResult {
    open spec fn bits(self) -> u8 {
        self.0
    }

    open spec fn of_bits(bits: u8) -> CapSensorResult {
        CapSensorResult(bits)
    }

    proof fn lemma_bits_of_bits(bits: u8) {
    }

    fn to_bits(self) -> u8 {
        self.0
    }

    fn from_bits(bits: u8) -> CapSensorResult {
        CapSensorResult(bits)
    }
}

/// The layout of the register `corr_conf2`.
#[derive(Copy, Clone, Eq, PartialEq, Structural)]
pub struct CorrConf2(pub u8);

impl CorrConf2 {
    #[verifier::allow_in_spec]
    pub fn corr_s8(&self) -> (val: bool)
        returns
            bits::flag(self.0, 0),
    {
        (self.0 >> 0usize) & 0x01 != 0
    }

    /// This value with `corr_s8` replaced by `val`.
    pub open spec fn with_corr_s8(self, val: bool) -> Self {
        CorrConf2(bits::with_flag(self.0, 0, val))
    }

    pub fn set_corr_s8(&mut self, val: bool)
        ensures
            *final(self) == old(self).with_corr_s8(val),
    {
        self.0 = (self.0 & !(0x01 << 0usize)) | (((val as u8) & 0x01) << 0usize);
    }

    #[verifier::allow_in_spec]
    pub fn corr_s9(&self) -> (val: bool)
        returns
            bits::flag(self.0, 1),
    {
        (self.0 >> 1usize) & 0x01 != 0
    }

    /// This value with `corr_s9` replaced by `val`.
    pub open spec fn with_corr_s9(self, val: bool) -> Self {
        CorrConf2(bits::with_flag(self.0, 1, val))
    }

    pub fn set_corr_s9(&mut self, val: bool)
        ensures
            *final(self) == old(self).with_corr_s9(val),
    {
        self.0 = (self.0 & !(0x01 << 1usize)) | (((val as u8) & 0x01) << 1usize);
    }

    #[verifier::allow_in_spec]
    pub fn rfu0(&self) -> (val: bool)
        returns
            bits::flag(self.0, 2),
    {
        (self.0 >> 2usize) & 0x01 != 0
    }

    /// This value with `rfu0` replaced by `val`.
    pub open spec fn with_rfu0(self, val: bool) -> Self {
        CorrConf2(bits::with_flag(self.0, 2, val))
    }

    pub fn set_rfu0(&mut self, val: bool)
        ensures
            *final(self) == old(self).with_rfu0(val),
    {
        self.0 = (self.0 & !(0x01 << 2usize)) | (((val as u8) & 0x01) << 2usize);
    }

    #[verifier::allow_in_spec]
    pub fn rfu1(&self) -> (val: bool)
        returns
            bits::flag(self.0, 3),
    {
        (self.0 >> 3usize) & 0x01 != 0
    }

    /// This value with `rfu1` replaced by `val`.
    pub open spec fn with_rfu1(self, val: bool) -> Self {
        CorrConf2(bits::with_flag(self.0, 3, val))
    }

    pub fn set_rfu1(&mut self, val: bool)
        ensures
            *final(self) == old(self).with_rfu1(val),
    {
        self.0 = (self.0 & !(0x01 << 3usize)) | (((val as u8) & 0x01) << 3usize);
    }

    #[verifier::allow_in_spec]
    pub fn rfu2(&self) -> (val: bool)
        returns
            bits::flag(self.0, 4),
    {
        (self.0 >> 4usize) & 0x01 != 0
    }

    /// This value with `rfu2` replaced by `val`.
    pub open spec fn with_rfu2(self, val: bool) -> Self {
        CorrConf2(bits::with_flag(self.0, 4, val))
    }

    pub fn set_rfu2(&mut self, val: bool)
        ensures
            *final(self) == old(self).with_rfu2(val),
    {
        self.0 = (self.0 & !(0x01 << 4usize)) | (((val as u8) & 0x01) << 4usize);
    }

    #[verifier::allow_in_spec]
    pub fn rfu3(&self) -> (val: bool)
        returns
            bits::flag(self.0, 5),
    {
        (self.0 >> 5usize) & 0x01 != 0
    }

    /// This value with `rfu3` replaced by `val`.
    pub open spec fn with_rfu3(self, val: bool) -> Self {
        CorrConf2(bits::with_flag(self.0, 5, val))
    }

    pub fn set_rfu3(&mut self, val: bool)
        ensures
            *final(self) == old(self).with_rfu3(val),
    {
        self.0 = (self.0 & !(0x01 << 5usize)) | (((val as u8) & 0x01) << 5usize);
    }

    #[verifier::allow_in_spec]
    pub fn rfu4(&self) -> (val: bool)
        returns
            bits::flag(self.0, 6),
    {
        (self.0 >> 6usize) & 0x01 != 0
    }

    /// This value with `rfu4` replaced by `val`.
    pub open spec fn with_rfu4(self, val: bool) -> Self {
        CorrConf2(bits::with_flag(self.0, 6, val))
    }

    pub fn set_rfu4(&mut self, val: bool)
        ensures
            *final(self) == old(self).with_rfu4(val),
    {
        self.0 = (self.0 & !(0x01 << 6usize)) | (((val as u8) & 0x01) << 6usize);
    }

    #[verifier::allow_in_spec]
    pub fn rfu5(&self) -> (val: bool)
        returns
            bits::flag(self.0, 7),
    {
        (self.0 >> 7usize) & 0x01 != 0
    }

    /// This value with `rfu5` replaced by `val`.
    pub open spec fn with_rfu5(self, val: bool) -> Self {
        CorrConf2(bits::with_flag(self.0, 7, val))
    }

    pub fn set_rfu5(&mut self, val: bool)
        ensures
            *final(self) == old(self).with_rfu5(val),
    {
        self.0 = (self.0 & !(0x01 << 7usize)) | (((val as u8) & 0x01) << 7usize);
    }
}

impl Default for CorrConf2 {
    fn default() -> (val: CorrConf2)
        ensures
            val == CorrConf2(0),
    {
        CorrConf2(0)
    }
}

impl Value for CorrConf2 {
    open spec fn bits(self) -> u8 {
        self.0
    }

    open spec fn of_bits(bits: u8) -> CorrConf2 {
        CorrConf2(bits)
    }

    proof fn lemma_bits_of_bits(bits: u8) {
    }

    fn to_bits(self) -> u8 {
        self.0
    }

    fn from_bits(bits: u8) -> CorrConf2 {
        CorrConf2(bits)
    }
}

/// The layout of the register `undershoot_conf1`.
#[derive(Copy, Clone, Eq, PartialEq, Structural)]
pub struct UndershootConf1(pub u8);

impl UndershootConf1 {
    #[verifier::allow_in_spec]
    pub fn un_pattern(&self) -> (val: u8)
        returns
            bits::field(self.0, 0, 0x3f),
    {
        (self.0 >> 0usize) & 0x3f
    }

    /// This value with `un_pattern` replaced by the low bits of `val`.
    pub open spec fn with_un_pattern(self, val: u8) -> Self {
        UndershootConf1(bits::with_field(self.0, 0, 0x3f, val))
    }

    pub fn set_un_pattern(&mut self, val: u8)
        ensures
            *final(self) == old(self).with_un_pattern(val),
    {
        self.0 = (self.0 & !(0x3f << 0usize)) | ((val & 0x3f) << 0usize);
    }

    #[verifier::allow_in_spec]
    pub fn un_tx_mode0(&self) -> (val: bool)
        returns
            bits::flag(self.0, 6),
    {
        (self.0 >> 6usize) & 0x01 != 0
    }

    /// This value with `un_tx_mode0` replaced by `val`.
    pub open spec fn with_un_tx_mode0(self, val: bool) -> Self {
        UndershootConf1(bits::with_flag(self.0, 6, val))
    }

    pub fn set_un_tx_mode0(&mut self, val: bool)
        ensures
            *final(self) == old(self).with_un_tx_mode0(val),
    {
        self.0 = (self.0 & !(0x01 << 6usize)) | (((val as u8) & 0x01) << 6usize);
    }

    #[verifier::allow_in_spec]
    pub fn un_tx_mode1(&self) -> (val: bool)
        returns
            bits::flag(self.0, 7),
    {
        (self.0 >> 7usize) & 0x01 != 0
    }

    /// This value with `un_tx_mode1` replaced by `val`.
    pub open spec fn with_un_tx_mode1(self, val: bool) -> Self {
        UndershootConf1(bits::with_flag(self.0, 7, val))
    }

    pub fn set_un_tx_mode1(&mut self, val: bool)
        ensures
            *final(self) == old(self).with_un_tx_mode1(val),
    {
        self.0 = (self.0 & !(0x01 << 7usize)) | (((val as u8) & 0x01) << 7usize);
    }
}

impl Default for UndershootConf1 {
    fn default() -> (val: UndershootConf1)
        ensures
            val == UndershootConf1(0),
    {
        UndershootConf1(0)
    }
}

impl Value for UndershootConf1 {
    open spec fn bits(self) -> u8 {
        self.0
    }

    open spec fn of_bits(bits: u8) -> UndershootConf1 {
        UndershootConf1(bits)
    }

    proof fn lemma_bits_of_bits(bits: u8) {
    }

    fn to_bits(self) -> u8 {
        self.0
    }

    fn from_bits(bits: u8) -> UndershootConf1 {
        UndershootConf1(bits)
    }
}

/// The layout of the register `iso14443b_1`.
#[derive(Copy, Clone, Eq, PartialEq, Structural)]
pub struct Iso14443b1(pub u8);

impl Iso14443b1 {
    #[verifier::allow_in_spec]
    pub fn rx_st_om(&self) -> (val: bool)
        returns
            bits::flag(self.0, 0),
    {
        (self.0 >> 0usize) & 0x01 != 0
    }

    /// This value with `rx_st_om` replaced by `val`.
    pub open spec fn with_rx_st_om(self, val: bool) -> Self {
        Iso14443b1(bits::with_flag(self.0, 0, val))
    }

    pub fn set_rx_st_om(&mut self, val: bool)
        ensures
            *final(self) == old(self).with_rx_st_om(val),
    {
        self.0 = (self.0 & !(0x01 << 0usize)) | (((val as u8) & 0x01) << 0usize);
    }

    #[verifier::allow_in_spec]
    pub fn half(&self) -> (val: bool)
        returns
            bits::flag(self.0, 1),
    {
        (self.0 >> 1usize) & 0x01 != 0
    }

    /// This value with `half` replaced by `val`.
    pub open spec fn with_half(self, val: bool) -> Self {
        Iso14443b1(bits::with_flag(self.0, 1, val))
    }

    pub fn set_half(&mut self, val: bool)
        ensures
            *final(self) == old(self).with_half(val),
    {
        self.0 = (self.0 & !(0x01 << 1usize)) | (((val as u8) & 0x01) << 1usize);
    }

    #[verifier::allow_in_spec]
    pub fn eof(&self) -> (val: bool)
        returns
            bits::flag(self.0, 2),
    {
        (self.0 >> 2usize) & 0x01 != 0
    }

    /// This value with `eof` replaced by `val`.
    pub open spec fn with_eof(self, val: bool) -> Self {
        Iso14443b1(bits::with_flag(self.0, 2, val))
    }

    pub fn set_eof(&mut self, val: bool)
        ensures
            *final(self) == old(self).with_eof(val),
    {
        self.0 = (self.0 & !(0x01 << 2usize)) | (((val as u8) & 0x01) << 2usize);
    }

    #[verifier::allow_in_spec]
    pub fn eof_11etu(&self) -> (val: bool)
        returns
            bits::flag(self.0, 2),
    {
        (self.0 >> 2usize) & 0x01 != 0
    }

    /// This value with `eof_11etu` replaced by `val`.
    pub open spec fn with_eof_11etu(self, val: bool) -> Self {
        Iso14443b1(bits::with_flag(self.0, 2, val))
    }

    pub fn set_eof_11etu(&mut self, val: bool)
        ensures
            *final(self) == old(self).with_eof_11etu(val),
    {
        self.0 = (self.0 & !(0x01 << 2usize)) | (((val as u8) & 0x01) << 2usize);
    }

    #[verifier::allow_in_spec]
    pub fn sof_1(&self) -> (val: Iso14443b1Sof1)
        returns
            Iso14443b1Sof1(bits::field(self.0, 3, 0x01)),
    {
        Iso14443b1Sof1((self.0 >> 3usize) & 0x01)
    }

    /// This value with `sof_1` replaced by `val`.
    pub open spec fn with_sof_1(self, val: Iso14443b1Sof1) -> Self {
        Iso14443b1(bits::with_field(self.0, 3, 0x01, val.0))
    }

    pub fn set_sof_1(&mut self, val: Iso14443b1Sof1)
        ensures
            *final(self) == old(self).with_sof_1(val),
    {
        self.0 = (self.0 & !(0x01 << 3usize)) | ((val.0 & 0x01) << 3usize);
    }

    #[verifier::allow_in_spec]
    pub fn sof_0_11etu(&self) -> (val: bool)
        returns
            bits::flag(self.0, 4),
    {
        (self.0 >> 4usize) & 0x01 != 0
    }

    /// This value with `sof_0_11etu` replaced by `val`.
    pub open spec fn with_sof_0_11etu(self, val: bool) -> Self {
        Iso14443b1(bits::with_flag(self.0, 4, val))
    }

    pub fn set_sof_0_11etu(&mut self, val: bool)
        ensures
            *final(self) == old(self).with_sof_0_11etu(val),
    {
        self.0 = (self.0 & !(0x01 << 4usize)) | (((val as u8) & 0x01) << 4usize);
    }

    #[verifier::allow_in_spec]
    pub fn sof_0_mak(&self) -> (val: bool)
        returns
            bits::flag(self.0, 4),
    {
        (self.0 >> 4usize) & 0x01 != 0
    }

    /// This value with `sof_0_mak` replaced by `val`.
    pub open spec fn with_sof_0_mak(self, val: bool) -> Self {
        Iso14443b1(bits::with_flag(self.0, 4, val))
    }

    pub fn set_sof_0_mak(&mut self, val: bool)
        ensures
            *final(self) == old(self).with_sof_0_mak(val),
    {
        self.0 = (self.0 & !(0x01 << 4usize)) | (((val as u8) & 0x01) << 4usize);
    }

    #[verifier::allow_in_spec]
    pub fn egt(&self) -> (val: u8)
        returns
            bits::field(self.0, 5, 0x07),
    {
        (self.0 >> 5usize) & 0x07
    }

    /// This value with `egt` replaced by the low bits of `val`.
    pub open spec fn with_egt(self, val: u8) -> Self {
        Iso14443b1(bits::with_field(self.0, 5, 0x07, val))
    }

    pub fn set_egt(&mut self, val: u8)
        ensures
            *final(self) == old(self).with_egt(val),
    {
        self.0 = (self.0 & !(0x07 << 5usize)) | ((val & 0x07) << 5usize);
    }
}

impl Default for Iso14443b1 {
    fn default() -> (val: Iso14443b1)
        ensures
            val == Iso14443b1(0),
    {
        Iso14443b1(0)
    }
}

impl Value for Iso14443b1 {
    open spec fn bits(self) -> u8 {
        self.0
    }

    open spec fn of_bits(bits: u8) -> Iso14443b1 {
        Iso14443b1(bits)
    }

    proof fn lemma_bits_of_bits(bits: u8) {
    }

    fn to_bits(self) -> u8 {
        self.0
    }

    fn from_bits(bits: u8) -> Iso14443b1 {
        Iso14443b1(bits)
    }
}

/// The layout of the register `io_conf2`.
#[derive(Copy, Clone, Eq, PartialEq, Structural)]
pub struct IoConf2(pub u8);

impl IoConf2 {
    #[verifier::allow_in_spec]
    pub fn slow_up(&self) -> (val: bool)
        returns
            bits::flag(self.0, 0),
    {
        (self.0 >> 0usize) & 0x01 != 0
    }

    /// This value with `slow_up` replaced by `val`.
    pub open spec fn with_slow_up(self, val: bool) -> Self {
        IoConf2(bits::with_flag(self.0, 0, val))
    }

    pub fn set_slow_up(&mut self, val: bool)
        ensures
            *final(self) == old(self).with_slow_up(val),
    {
        self.0 = (self.0 & !(0x01 << 0usize)) | (((val as u8) & 0x01) << 0usize);
    }

    #[verifier::allow_in_spec]
    pub fn am_ref_rf(&self) -> (val: bool)
        returns
            bits::flag(self.0, 1),
    {
        (self.0 >> 1usize) & 0x01 != 0
    }

    /// This value with `am_ref_rf` replaced by `val`.
    pub open spec fn with_am_ref_rf(self, val: bool) -> Self {
        IoConf2(bits::with_flag(self.0, 1, val))
    }

    pub fn set_am_ref_rf(&mut self, val: bool)
        ensures
            *final(self) == old(self).with_am_ref_rf(val),
    {
        self.0 = (self.0 & !(0x01 << 1usize)) | (((val as u8) & 0x01) << 1usize);
    }

    #[verifier::allow_in_spec]
    pub fn io_drv_lvl(&self) -> (val: bool)
        returns
            bits::flag(self.0, 2),
    {
        (self.0 >> 2usize) & 0x01 != 0
    }

    /// This value with `io_drv_lvl` replaced by `val`.
    pub open spec fn with_io_drv_lvl(self, val: bool) -> Self {
        IoConf2(bits::with_flag(self.0, 2, val))
    }

    pub fn set_io_drv_lvl(&mut self, val: bool)
        ensures
            *final(self) == old(self).with_io_drv_lvl(val),
    {
        self.0 = (self.0 & !(0x01 << 2usize)) | (((val as u8) & 0x01) << 2usize);
    }

    #[verifier::allow_in_spec]
    pub fn miso_pd1(&self) -> (val: bool)
        returns
            bits::flag(self.0, 3),
    {
        (self.0 >> 3usize) & 0x01 != 0
    }

    /// This value with `miso_pd1` replaced by `val`.
    pub open spec fn with_miso_pd1(self, val: bool) -> Self {
        IoConf2(bits::with_flag(self.0, 3, val))
    }

    pub fn set_miso_pd1(&mut self, val: bool)
        ensures
            *final(self) == old(self).with_miso_pd1(val),
    {
        self.0 = (self.0 & !(0x01 << 3usize)) | (((val as u8) & 0x01) << 3usize);
    }

    #[verifier::allow_in_spec]
    pub fn miso_pd2(&self) -> (val: bool)
        returns
            bits::flag(self.0, 4),
    {
        (self.0 >> 4usize) & 0x01 != 0
    }

    /// This value with `miso_pd2` replaced by `val`.
    pub open spec fn with_miso_pd2(self, val: bool) -> Self {
        IoConf2(bits::with_flag(self.0, 4, val))
    }

    pub fn set_miso_pd2(&mut self, val: bool)
        ensures
            *final(self) == old(self).with_miso_pd2(val),
    {
        self.0 = (self.0 & !(0x01 << 4usize)) | (((val as u8) & 0x01) << 4usize);
    }

    #[verifier::allow_in_spec]
    pub fn aat_en(&self) -> (val: bool)
        returns
            bits::flag(self.0, 5),
    {
        (self.0 >> 5usize) & 0x01 != 0
    }

    /// This value with `aat_en` replaced by `val`.
    pub open spec fn with_aat_en(self, val: bool) -> Self {
        IoConf2(bits::with_flag(self.0, 5, val))
    }

    pub fn set_aat_en(&mut self, val: bool)
        ensures
            *final(self) == old(self).with_aat_en(val),
    {
        self.0 = (self.0 & !(0x01 << 5usize)) | (((val as u8) & 0x01) << 5usize);
    }

    #[verifier::allow_in_spec]
    pub fn sup_3v(&self) -> (val: bool)
        returns
            bits::flag(self.0, 7),
    {
        (self.0 >> 7usize) & 0x01 != 0
    }

    /// This value with `sup_3v` replaced by `val`.
    pub open spec fn with_sup_3v(self, val: bool) -> Self {
        IoConf2(bits::with_flag(self.0, 7, val))
    }

    pub fn set_sup_3v(&mut self, val: bool)
        ensures
            *final(self) == old(self).with_sup_3v(val),
    {
        self.0 = (self.0 & !(0x01 << 7usize)) | (((val as u8) & 0x01) << 7usize);
    }

    #[verifier::allow_in_spec]
    pub fn vspd_off(&self) -> (val: bool)
        returns
            bits::flag(self.0, 6),
    {
        (self.0 >> 6usize) & 0x01 != 0
    }

    /// This value with `vspd_off` replaced by `val`.
    pub open spec fn with_vspd_off(self, val: bool) -> Self {
        IoConf2(bits::with_flag(self.0, 6, val))
    }

    pub fn set_vspd_off(&mut self, val: bool)
        ensures
            *final(self) == old(self).with_vspd_off(val),
    {
        self.0 = (self.0 & !(0x01 << 6usize)) | (((val as u8) & 0x01) << 6usize);
    }
}

impl Default for IoConf2 {
    fn default() -> (val: IoConf2)
        ensures
            val == IoConf2(0),
    {
        IoConf2(0)
    }
}

impl Value for IoConf2 {
    open spec fn bits(self) -> u8 {
        self.0
    }

    open spec fn of_bits(bits: u8) -> IoConf2 {
        IoConf2(bits)
    }

    proof fn lemma_bits_of_bits(bits: u8) {
    }

    fn to_bits(self) -> u8 {
        self.0
    }

    fn from_bits(bits: u8) -> IoConf2 {
        IoConf2(bits)
    }
}

/// The layout of the register `capacitance_measure_conf`.
#[derive(Copy, Clone, Eq, PartialEq, Structural)]
pub struct CapacitanceMeasureConf(pub u8);

impl CapacitanceMeasureConf {
    #[verifier::allow_in_spec]
    pub fn cm_ae(&self) -> (val: bool)
        returns
            bits::flag(self.0, 0),
    {
        (self.0 >> 0usize) & 0x01 != 0
    }

    /// This value with `cm_ae` replaced by `val`.
    pub open spec fn with_cm_ae(self, val: bool) -> Self {
        CapacitanceMeasureConf(bits::with_flag(self.0, 0, val))
    }

    pub fn set_cm_ae(&mut self, val: bool)
        ensures
            *final(self) == old(self).with_cm_ae(val),
    {
        self.0 = (self.0 & !(0x01 << 0usize)) | (((val as u8) & 0x01) << 0usize);
    }

    #[verifier::allow_in_spec]
    pub fn cm_aew(&self) -> (val: u8)
        returns
            bits::field(self.0, 1, 0x03),
    {
        (self.0 >> 1usize) & 0x03
    }

    /// This value with `cm_aew` replaced by the low bits of `val`.
    pub open spec fn with_cm_aew(self, val: u8) -> Self {
        CapacitanceMeasureConf(bits::with_field(self.0, 1, 0x03, val))
    }

    pub fn set_cm_aew(&mut self, val: u8)
        ensures
            *final(self) == old(self).with_cm_aew(val),
    {
        self.0 = (self.0 & !(0x03 << 1usize)) | ((val & 0x03) << 1usize);
    }

    #[verifier::allow_in_spec]
    pub fn cm_aam(&self) -> (val: bool)
        returns
            bits::flag(self.0, 3),
    {
        (self.0 >> 3usize) & 0x01 != 0
    }

    /// This value with `cm_aam` replaced by `val`.
    pub open spec fn with_cm_aam(self, val: bool) -> Self {
        CapacitanceMeasureConf(bits::with_flag(self.0, 3, val))
    }

    pub fn set_cm_aam(&mut self, val: bool)
        ensures
            *final(self) == old(self).with_cm_aam(val),
    {
        self.0 = (self.0 & !(0x01 << 3usize)) | (((val as u8) & 0x01) << 3usize);
    }

    #[verifier::allow_in_spec]
    pub fn cm_d(&self) -> (val: u8)
        returns
            bits::field(self.0, 4, 0x0f),
    {
        (self.0 >> 4usize) & 0x0f
    }

    /// This value with `cm_d` replaced by the low bits of `val`.
    pub open spec fn with_cm_d(self, val: u8) -> Self {
        CapacitanceMeasureConf(bits::with_field(self.0, 4, 0x0f, val))
    }

    pub fn set_cm_d(&mut self, val: u8)
        ensures
            *final(self) == old(self).with_cm_d(val),
    {
        self.0 = (self.0 & !(0x0f << 4usize)) | ((val & 0x0f) << 4usize);
    }
}

impl Default for CapacitanceMeasureConf {
    fn default() -> (val: CapacitanceMeasureConf)
        ensures
            val == CapacitanceMeasureConf(0),
    {
        CapacitanceMeasureConf(0)
    }
}

impl Value for CapacitanceMeasureConf {
    open spec fn bits(self) -> u8 {
        self.0
    }

    open spec fn of_bits(bits: u8) -> CapacitanceMeasureConf {
        CapacitanceMeasureConf(bits)
    }

    proof fn lemma_bits_of_bits(bits: u8) {
    }

    fn to_bits(self) -> u8 {
        self.0
    }

    fn from_bits(bits: u8) -> CapacitanceMeasureConf {
        CapacitanceMeasureConf(bits)
    }
}

/// The layout of the register `rx_conf4`.
#[derive(Copy, Clone, Eq, PartialEq, Structural)]
pub struct RxConf4(pub u8);

impl RxConf4 {
    #[verifier::allow_in_spec]
    pub fn rg2_pm(&self) -> (val: u8)
        returns
            bits::field(self.0, 0, 0x0f),
    {
        (self.0 >> 0usize) & 0x0f
    }

    /// This value with `rg2_pm` replaced by the low bits of `val`.
    pub open spec fn with_rg2_pm(self, val: u8) -> Self {
        RxConf4(bits::with_field(self.0, 0, 0x0f, val))
    }

    pub fn set_rg2_pm(&mut self, val: u8)
        ensures
            *final(self) == old(self).with_rg2_pm(val),
    {
        self.0 = (self.0 & !(0x0f << 0usize)) | ((val & 0x0f) << 0usize);
    }

    #[verifier::allow_in_spec]
    pub fn rg2_am(&self) -> (val: u8)
        returns
            bits::field(self.0, 4, 0x0f),
    {
        (self.0 >> 4usize) & 0x0f
    }

    /// This value with `rg2_am` replaced by the low bits of `val`.
    pub open spec fn with_rg2_am(self, val: u8) -> Self {
        RxConf4(bits::with_field(self.0, 4, 0x0f, val))
    }

    pub fn set_rg2_am(&mut self, val: u8)
        ensures
            *final(self) == old(self).with_rg2_am(val),
    {
        self.0 = (self.0 & !(0x0f << 4usize)) | ((val & 0x0f) << 4usize);
    }
}

impl Default for RxConf4 {
    fn default() -> (val: RxConf4)
        ensures
            val == RxConf4(0),
    {
        RxConf4(0)
    }
}

impl Value for RxConf4 {
    open spec fn bits(self) -> u8 {
        self.0
    }

    open spec fn of_bits(bits: u8) -> RxConf4 {
        RxConf4(bits)
    }

    proof fn lemma_bits_of_bits(bits: u8) {
    }

    fn to_bits(self) -> u8 {
        self.0
    }

    fn from_bits(bits: u8) -> RxConf4 {
        RxConf4(bits)
    }
}

/// The layout of the register `overshoot_conf1`.
#[derive(Copy, Clone, Eq, PartialEq, Structural)]
pub struct OvershootConf1(pub u8);

impl OvershootConf1 {
    #[verifier::allow_in_spec]
    pub fn ov_pattern(&self) -> (val: u8)
        returns
            bits::field(self.0, 0, 0x3f),
    {
        (self.0 >> 0usize) & 0x3f
    }

    /// This value with `ov_pattern` replaced by the low bits of `val`.
    pub open spec fn with_ov_pattern(self, val: u8) -> Self {
        OvershootConf1(bits::with_field(self.0, 0, 0x3f, val))
    }

    pub fn set_ov_pattern(&mut self, val: u8)
        ensures
            *final(self) == old(self).with_ov_pattern(val),
    {
        self.0 = (self.0 & !(0x3f << 0usize)) | ((val & 0x3f) << 0usize);
    }

    #[verifier::allow_in_spec]
    pub fn ov_tx_mode0(&self) -> (val: bool)
        returns
            bits::flag(self.0, 6),
    {
        (self.0 >> 6usize) & 0x01 != 0
    }

    /// This value with `ov_tx_mode0` replaced by `val`.
    pub open spec fn with_ov_tx_mode0(self, val: bool) -> Self {
        OvershootConf1(bits::with_flag(self.0, 6, val))
    }

    pub fn set_ov_tx_mode0(&mut self, val: bool)
        ensures
            *final(self) == old(self).with_ov_tx_mode0(val),
    {
        self.0 = (self.0 & !(0x01 << 6usize)) | (((val as u8) & 0x01) << 6usize);
    }

    #[verifier::allow_in_spec]
    pub fn ov_tx_mode1(&self) -> (val: bool)
        returns
            bits::flag(self.0, 7),
    {
        (self.0 >> 7usize) & 0x01 != 0
    }

    /// This value with `ov_tx_mode1` replaced by `val`.
    pub open spec fn with_ov_tx_mode1(self, val: bool) -> Self {
        OvershootConf1(bits::with_flag(self.0, 7, val))
    }

    pub fn set_ov_tx_mode1(&mut self, val: bool)
        ensures
            *final(self) == old(self).with_ov_tx_mode1(val),
    {
        self.0 = (self.0 & !(0x01 << 7usize)) | (((val as u8) & 0x01) << 7usize);
    }
}

impl Default for OvershootConf1 {
    fn default() -> (val: OvershootConf1)
        ensures
            val == OvershootConf1(0),
    {
        OvershootConf1(0)
    }
}

impl Value for OvershootConf1 {
    open spec fn bits(self) -> u8 {
        self.0
    }

    open spec fn of_bits(bits: u8) -> OvershootConf1 {
        OvershootConf1(bits)
    }

    proof fn lemma_bits_of_bits(bits: u8) {
    }

    fn to_bits(self) -> u8 {
        self.0
    }

    fn from_bits(bits: u8) -> OvershootConf1 {
        OvershootConf1(bits)
    }
}

/// The layout of the register `tx_driver_timing`.
#[derive(Copy, Clone, Eq, PartialEq, Structural)]
pub struct TxDriverTiming(pub u8);

impl TxDriverTiming {
    #[verifier::allow_in_spec]
    pub fn d_tim_m(&self) -> (val: u8)
        returns
            bits::field(self.0, 0, 0x07),
    {
        (self.0 >> 0usize) & 0x07
    }

    /// This value with `d_tim_m` replaced by the low bits of `val`.
    pub open spec fn with_d_tim_m(self, val: u8) -> Self {
        TxDriverTiming(bits::with_field(self.0, 0, 0x07, val))
    }

    pub fn set_d_tim_m(&mut self, val: u8)
        ensures
            *final(self) == old(self).with_d_tim_m(val),
    {
        self.0 = (self.0 & !(0x07 << 0usize)) | ((val & 0x07) << 0usize);
    }

    #[verifier::allow_in_spec]
    pub fn rfu(&self) -> (val: bool)
        returns
            bits::flag(self.0, 3),
    {
        (self.0 >> 3usize) & 0x01 != 0
    }

    /// This value with `rfu` replaced by `val`.
    pub open spec fn with_rfu(self, val: bool) -> Self {
        TxDriverTiming(bits::with_flag(self.0, 3, val))
    }

    pub fn set_rfu(&mut self, val: bool)
        ensures
            *final(self) == old(self).with_rfu(val),
    {
        self.0 = (self.0 & !(0x01 << 3usize)) | (((val as u8) & 0x01) << 3usize);
    }

    #[verifier::allow_in_spec]
    pub fn d_rat(&self) -> (val: u8)
        returns
            bits::field(self.0, 4, 0x0f),
    {
        (self.0 >> 4usize) & 0x0f
    }

    /// This value with `d_rat` replaced by the low bits of `val`.
    pub open spec fn with_d_rat(self, val: u8) -> Self {
        TxDriverTiming(bits::with_field(self.0, 4, 0x0f, val))
    }

    pub fn set_d_rat(&mut self, val: u8)
        ensures
            *final(self) == old(self).with_d_rat(val),
    {
        self.0 = (self.0 & !(0x0f << 4usize)) | ((val & 0x0f) << 4usize);
    }
}

impl Default for TxDriverTiming {
    fn default() -> (val: TxDriverTiming)
        ensures
            val == TxDriverTiming(0),
    {
        TxDriverTiming(0)
    }
}

impl Value for TxDriverTiming {
    open spec fn bits(self) -> u8 {
        self.0
    }

    open spec fn of_bits(bits: u8) -> TxDriverTiming {
        TxDriverTiming(bits)
    }

    proof fn lemma_bits_of_bits(bits: u8) {
    }

    fn to_bits(self) -> u8 {
        self.0
    }

    fn from_bits(bits: u8) -> TxDriverTiming {
        TxDriverTiming(bits)
    }
}

/// The layout of the register `p2p_rx_conf`.
#[derive(Copy, Clone, Eq, PartialEq, Structural)]
pub struct P2pRxConf(pub u8);

impl P2pRxConf {
    #[verifier::allow_in_spec]
    pub fn ask_thd(&self) -> (val: bool)
        returns
            bits::flag(self.0, 0),
    {
        (self.0 >> 0usize) & 0x01 != 0
    }

    /// This value with `ask_thd` replaced by `val`.
    pub open spec fn with_ask_thd(self, val: bool) -> Self {
        P2pRxConf(bits::with_flag(self.0, 0, val))
    }

    pub fn set_ask_thd(&mut self, val: bool)
        ensures
            *final(self) == old(self).with_ask_thd(val),
    {
        self.0 = (self.0 & !(0x01 << 0usize)) | (((val as u8) & 0x01) << 0usize);
    }

    #[verifier::allow_in_spec]
    pub fn ask_rc0(&self) -> (val: bool)
        returns
            bits::flag(self.0, 1),
    {
        (self.0 >> 1usize) & 0x01 != 0
    }

    /// This value with `ask_rc0` replaced by `val`.
    pub open spec fn with_ask_rc0(self, val: bool) -> Self {
        P2pRxConf(bits::with_flag(self.0, 1, val))
    }

    pub fn set_ask_rc0(&mut self, val: bool)
        ensures
            *final(self) == old(self).with_ask_rc0(val),
    {
        self.0 = (self.0 & !(0x01 << 1usize)) | (((val as u8) & 0x01) << 1usize);
    }

    #[verifier::allow_in_spec]
    pub fn ask_rc1(&self) -> (val: bool)
        returns
            bits::flag(self.0, 2),
    {
        (self.0 >> 2usize) & 0x01 != 0
    }

    /// This value with `ask_rc1` replaced by `val`.
    pub open spec fn with_ask_rc1(self, val: bool) -> Self {
        P2pRxConf(bits::with_flag(self.0, 2, val))
    }

    pub fn set_ask_rc1(&mut self, val: bool)
        ensures
            *final(self) == old(self).with_ask_rc1(val),
    {
        self.0 = (self.0 & !(0x01 << 2usize)) | (((val as u8) & 0x01) << 2usize);
    }

    #[verifier::allow_in_spec]
    pub fn ook_thd0(&self) -> (val: bool)
        returns
            bits::flag(self.0, 3),
    {
        (self.0 >> 3usize) & 0x01 != 0
    }

    /// This value with `ook_thd0` replaced by `val`.
    pub open spec fn with_ook_thd0(self, val: bool) -> Self {
        P2pRxConf(bits::with_flag(self.0, 3, val))
    }

    pub fn set_ook_thd0(&mut self, val: bool)
        ensures
            *final(self) == old(self).with_ook_thd0(val),
    {
        self.0 = (self.0 & !(0x01 << 3usize)) | (((val as u8) & 0x01) << 3usize);
    }

    #[verifier::allow_in_spec]
    pub fn ook_thd1(&self) -> (val: bool)
        returns
            bits::flag(self.0, 4),
    {
        (self.0 >> 4usize) & 0x01 != 0
    }

    /// This value with `ook_thd1` replaced by `val`.
    pub open spec fn with_ook_thd1(self, val: bool) -> Self {
        P2pRxConf(bits::with_flag(self.0, 4, val))
    }

    pub fn set_ook_thd1(&mut self, val: bool)
        ensures
            *final(self) == old(self).with_ook_thd1(val),
    {
        self.0 = (self.0 & !(0x01 << 4usize)) | (((val as u8) & 0x01) << 4usize);
    }

    #[verifier::allow_in_spec]
    pub fn ook_rc0(&self) -> (val: bool)
        returns
            bits::flag(self.0, 5),
    {
        (self.0 >> 5usize) & 0x01 != 0
    }

    /// This value with `ook_rc0` replaced by `val`.
    pub open spec fn with_ook_rc0(self, val: bool) -> Self {
        P2pRxConf(bits::with_flag(self.0, 5, val))
    }

    pub fn set_ook_rc0(&mut self, val: bool)
        ensures
            *final(self) == old(self).with_ook_rc0(val),
    {
        self.0 = (self.0 & !(0x01 << 5usize)) | (((val as u8) & 0x01) << 5usize);
    }

    #[verifier::allow_in_spec]
    pub fn ook_rc1(&self) -> (val: bool)
        returns
            bits::flag(self.0, 6),
    {
        (self.0 >> 6usize) & 0x01 != 0
    }

    /// This value with `ook_rc1` replaced by `val`.
    pub open spec fn with_ook_rc1(self, val: bool) -> Self {
        P2pRxConf(bits::with_flag(self.0, 6, val))
    }

    pub fn set_ook_rc1(&mut self, val: bool)
        ensures
            *final(self) == old(self).with_ook_rc1(val),
    {
        self.0 = (self.0 & !(0x01 << 6usize)) | (((val as u8) & 0x01) << 6usize);
    }

    #[verifier::allow_in_spec]
    pub fn ook_fd(&self) -> (val: bool)
        returns
            bits::flag(self.0, 7),
    {
        (self.0 >> 7usize) & 0x01 != 0
    }

    /// This value with `ook_fd` replaced by `val`.
    pub open spec fn with_ook_fd(self, val: bool) -> Self {
        P2pRxConf(bits::with_flag(self.0, 7, val))
    }

    pub fn set_ook_fd(&mut self, val: bool)
        ensures
            *final(self) == old(self).with_ook_fd(val),
    {
        self.0 = (self.0 & !(0x01 << 7usize)) | (((val as u8) & 0x01) << 7usize);
    }
}

impl Default for P2pRxConf {
    fn default() -> (val: P2pRxConf)
        ensures
            val == P2pRxConf(0),
    {
        P2pRxConf(0)
    }
}

impl Value for P2pRxConf {
    open spec fn bits(self) -> u8 {
        self.0
    }

    open spec fn of_bits(bits: u8) -> P2pRxConf {
        P2pRxConf(bits)
    }

    proof fn lemma_bits_of_bits(bits: u8) {
    }

    fn to_bits(self) -> u8 {
        self.0
    }

    fn from_bits(bits: u8) -> P2pRxConf {
        P2pRxConf(bits)
    }
}

/// The layout of the register `iso14443a_nfc`.
#[derive(Copy, Clone, Eq, PartialEq, Structural)]
pub struct Iso14443aNfc(pub u8);

impl Iso14443aNfc {
    #[verifier::allow_in_spec]
    pub fn antcl(&self) -> (val: bool)
        returns
            bits::flag(self.0, 0),
    {
        (self.0 >> 0usize) & 0x01 != 0
    }

    /// This value with `antcl` replaced by `val`.
    pub open spec fn with_antcl(self, val: bool) -> Self {
        Iso14443aNfc(bits::with_flag(self.0, 0, val))
    }

    pub fn set_antcl(&mut self, val: bool)
        ensures
            *final(self) == old(self).with_antcl(val),
    {
        self.0 = (self.0 & !(0x01 << 0usize)) | (((val as u8) & 0x01) << 0usize);
    }

    #[verifier::allow_in_spec]
    pub fn p_len(&self) -> (val: u8)
        returns
            bits::field(self.0, 1, 0x0f),
    {
        (self.0 >> 1usize) & 0x0f
    }

    /// This value with `p_len` replaced by the low bits of `val`.
    pub open spec fn with_p_len(self, val: u8) -> Self {
        Iso14443aNfc(bits::with_field(self.0, 1, 0x0f, val))
    }

    pub fn set_p_len(&mut self, val: u8)
        ensures
            *final(self) == old(self).with_p_len(val),
    {
        self.0 = (self.0 & !(0x0f << 1usize)) | ((val & 0x0f) << 1usize);
    }

    #[verifier::allow_in_spec]
    pub fn nfc_f0(&self) -> (val: bool)
        returns
            bits::flag(self.0, 5),
    {
        (self.0 >> 5usize) & 0x01 != 0
    }

    /// This value with `nfc_f0` replaced by `val`.
    pub open spec fn with_nfc_f0(self, val: bool) -> Self {
        Iso14443aNfc(bits::with_flag(self.0, 5, val))
    }

    pub fn set_nfc_f0(&mut self, val: bool)
        ensures
            *final(self) == old(self).with_nfc_f0(val),
    {
        self.0 = (self.0 & !(0x01 << 5usize)) | (((val as u8) & 0x01) << 5usize);
    }

    #[verifier::allow_in_spec]
    pub fn no_rx_par(&self) -> (val: bool)
        returns
            bits::flag(self.0, 6),
    {
        (self.0 >> 6usize) & 0x01 != 0
    }

    /// This value with `no_rx_par` replaced by `val`.
    pub open spec fn with_no_rx_par(self, val: bool) -> Self {
        Iso14443aNfc(bits::with_flag(self.0, 6, val))
    }

    pub fn set_no_rx_par(&mut self, val: bool)
        ensures
            *final(self) == old(self).with_no_rx_par(val),
    {
        self.0 = (self.0 & !(0x01 << 6usize)) | (((val as u8) & 0x01) << 6usize);
    }

    #[verifier::allow_in_spec]
    pub fn no_tx_par(&self) -> (val: bool)
        returns
            bits::flag(self.0, 7),
    {
        (self.0 >> 7usize) & 0x01 != 0
    }

    /// This value with `no_tx_par` replaced by `val`.
    pub open spec fn with_no_tx_par(self, val: bool) -> Self {
        Iso14443aNfc(bits::with_flag(self.0, 7, val))
    }

    pub fn set_no_tx_par(&mut self, val: bool)
        ensures
            *final(self) == old(self).with_no_tx_par(val),
    {
        self.0 = (self.0 & !(0x01 << 7usize)) | (((val as u8) & 0x01) << 7usize);
    }
}

impl Default for Iso14443aNfc {
    fn default() -> (val: Iso14443aNfc)
        ensures
            val == Iso14443aNfc(0),
    {
        Iso14443aNfc(0)
    }
}

impl Value for Iso14443aNfc {
    open spec fn bits(self) -> u8 {
        self.0
    }

    open spec fn of_bits(bits: u8) -> Iso14443aNfc {
        Iso14443aNfc(bits)
    }

    proof fn lemma_bits_of_bits(bits: u8) {
    }

    fn to_bits(self) -> u8 {
        self.0
    }

    fn from_bits(bits: u8) -> Iso14443aNfc {
        Iso14443aNfc(bits)
    }
}

/// The layout of the register `undershoot_conf2`.
#[derive(Copy, Clone, Eq, PartialEq, Structural)]
pub struct UndershootConf2(pub u8);

impl UndershootConf2 {
    #[verifier::allow_in_spec]
    pub fn un_pattern(&self) -> (val: u8)
        returns
            bits::field(self.0, 0, 0xff),
    {
        (self.0 >> 0usize) & 0xff
    }

    /// This value with `un_pattern` replaced by the low bits of `val`.
    pub open spec fn with_un_pattern(self, val: u8) -> Self {
        UndershootConf2(bits::with_field(self.0, 0, 0xff, val))
    }

    pub fn set_un_pattern(&mut self, val: u8)
        ensures
            *final(self) == old(self).with_un_pattern(val),
    {
        self.0 = (self.0 & !(0xff << 0usize)) | ((val & 0xff) << 0usize);
    }
}

impl Default for UndershootConf2 {
    fn default() -> (val: UndershootConf2)
        ensures
            val == UndershootConf2(0),
    {
        UndershootConf2(0)
    }
}

impl Value for UndershootConf2 {
    open spec fn bits(self) -> u8 {
        self.0
    }

    open spec fn of_bits(bits: u8) -> UndershootConf2 {
        UndershootConf2(bits)
    }

    proof fn lemma_bits_of_bits(bits: u8) {
    }

    fn to_bits(self) -> u8 {
        self.0
    }

    fn from_bits(bits: u8) -> UndershootConf2 {
        UndershootConf2(bits)
    }
}

/// The layout of the register `cap_sensor_control`.
#[derive(Copy, Clone, Eq, PartialEq, Structural)]
pub struct CapSensorControl(pub u8);

impl CapSensorControl {
    #[verifier::allow_in_spec]
    pub fn cs_g(&self) -> (val: u8)
        returns
            bits::field(self.0, 0, 0x07),
    {
        (self.0 >> 0usize) & 0x07
    }

    /// This value with `cs_g` replaced by the low bits of `val`.
    pub open spec fn with_cs_g(self, val: u8) -> Self {
        CapSensorControl(bits::with_field(self.0, 0, 0x07, val))
    }

    pub fn set_cs_g(&mut self, val: u8)
        ensures
            *final(self) == old(self).with_cs_g(val),
    {
        self.0 = (self.0 & !(0x07 << 0usize)) | ((val & 0x07) << 0usize);
    }

    #[verifier::allow_in_spec]
    pub fn cs_mcal(&self) -> (val: u8)
        returns
            bits::field(self.0, 3, 0x1f),
    {
        (self.0 >> 3usize) & 0x1f
    }

    /// This value with `cs_mcal` replaced by the low bits of `val`.
    pub open spec fn with_cs_mcal(self, val: u8) -> Self {
        CapSensorControl(bits::with_field(self.0, 3, 0x1f, val))
    }

    pub fn set_cs_mcal(&mut self, val: u8)
        ensures
            *final(self) == old(self).with_cs_mcal(val),
    {
        self.0 = (self.0 & !(0x1f << 3usize)) | ((val & 0x1f) << 3usize);
    }
}

impl Default for CapSensorControl {
    fn default() -> (val: CapSensorControl)
        ensures
            val == CapSensorControl(0),
    {
        CapSensorControl(0)
    }
}

impl Value for CapSensorControl {
    open spec fn bits(self) -> u8 {
        self.0
    }

    open spec fn of_bits(bits: u8) -> CapSensorControl {
        CapSensorControl(bits)
    }

    proof fn lemma_bits_of_bits(bits: u8) {
    }

    fn to_bits(self) -> u8 {
        self.0
    }

    fn from_bits(bits: u8) -> CapSensorControl {
        CapSensorControl(bits)
    }
}

/// The layout of the register `test_unk`.
#[derive(Copy, Clone, Eq, PartialEq, Structural)]
pub struct TestUnk(pub u8);

impl TestUnk {
    #[verifier::allow_in_spec]
    pub fn dis_overheat_prot(&self) -> (val: bool)
        returns
            bits::flag(self.0, 4),
    {
        (self.0 >> 4usize) & 0x01 != 0
    }

    /// This value with `dis_overheat_prot` replaced by `val`.
    pub open spec fn with_dis_overheat_prot(self, val: bool) -> Self {
        TestUnk(bits::with_flag(self.0, 4, val))
    }

    pub fn set_dis_overheat_prot(&mut self, val: bool)
        ensures
            *final(self) == old(self).with_dis_overheat_prot(val),
    {
        self.0 = (self.0 & !(0x01 << 4usize)) | (((val as u8) & 0x01) << 4usize);
    }
}

impl Default for TestUnk {
    fn default() -> (val: TestUnk)
        ensures
            val == TestUnk(0),
    {
        TestUnk(0)
    }
}

impl Value for TestUnk {
    open spec fn bits(self) -> u8 {
        self.0
    }

    open spec fn of_bits(bits: u8) -> TestUnk {
        TestUnk(bits)
    }

    proof fn lemma_bits_of_bits(bits: u8) {
    }

    fn to_bits(self) -> u8 {
        self.0
    }

    fn from_bits(bits: u8) -> TestUnk {
        TestUnk(bits)
    }
}

/// The layout of the register `num_tx_bytes2`.
#[derive(Copy, Clone, Eq, PartialEq, Structural)]
pub struct NumTxBytes2(pub u8);

impl NumTxBytes2 {
    #[verifier::allow_in_spec]
    pub fn nbtx(&self) -> (val: u8)
        returns
            bits::field(self.0, 0, 0x07),
    {
        (self.0 >> 0usize) & 0x07
    }

    /// This value with `nbtx` replaced by the low bits of `val`.
    pub open spec fn with_nbtx(self, val: u8) -> Self {
        NumTxBytes2(bits::with_field(self.0, 0, 0x07, val))
    }

    pub fn set_nbtx(&mut self, val: u8)
        ensures
            *final(self) == old(self).with_nbtx(val),
    {
        self.0 = (self.0 & !(0x07 << 0usize)) | ((val & 0x07) << 0usize);
    }

    #[verifier::allow_in_spec]
    pub fn ntx(&self) -> (val: u8)
        returns
            bits::field(self.0, 3, 0x1f),
    {
        (self.0 >> 3usize) & 0x1f
    }

    /// This value with `ntx` replaced by the low bits of `val`.
    pub open spec fn with_ntx(self, val: u8) -> Self {
        NumTxBytes2(bits::with_field(self.0, 3, 0x1f, val))
    }

    pub fn set_ntx(&mut self, val: u8)
        ensures
            *final(self) == old(self).with_ntx(val),
    {
        self.0 = (self.0 & !(0x1f << 3usize)) | ((val & 0x1f) << 3usize);
    }
}

impl Default for NumTxBytes2 {
    fn default() -> (val: NumTxBytes2)
        ensures
            val == NumTxBytes2(0),
    {
        NumTxBytes2(0)
    }
}

impl Value for NumTxBytes2 {
    open spec fn bits(self) -> u8 {
        self.0
    }

    open spec fn of_bits(bits: u8) -> NumTxBytes2 {
        NumTxBytes2(bits)
    }

    proof fn lemma_bits_of_bits(bits: u8) {
    }

    fn to_bits(self) -> u8 {
        self.0
    }

    fn from_bits(bits: u8) -> NumTxBytes2 {
        NumTxBytes2(bits)
    }
}

/// The layout of the register `timer_emv_control`.
#[derive(Copy, Clone, Eq, PartialEq, Structural)]
pub struct TimerEmvControl(pub u8);

impl TimerEmvControl {
    #[verifier::allow_in_spec]
    pub fn nrt_step(&self) -> (val: TimerEmvControlNrtStep)
        returns
            TimerEmvControlNrtStep(bits::field(self.0, 0, 0x01)),
    {
        TimerEmvControlNrtStep((self.0 >> 0usize) & 0x01)
    }

    /// This value with `nrt_step` replaced by `val`.
    pub open spec fn with_nrt_step(self, val: TimerEmvControlNrtStep) -> Self {
        TimerEmvControl(bits::with_field(self.0, 0, 0x01, val.0))
    }

    pub fn set_nrt_step(&mut self, val: TimerEmvControlNrtStep)
        ensures
            *final(self) == old(self).with_nrt_step(val),
    {
        self.0 = (self.0 & !(0x01 << 0usize)) | ((val.0 & 0x01) << 0usize);
    }

    #[verifier::allow_in_spec]
    pub fn nrt_emv(&self) -> (val: bool)
        returns
            bits::flag(self.0, 1),
    {
        (self.0 >> 1usize) & 0x01 != 0
    }

    /// This value with `nrt_emv` replaced by `val`.
    pub open spec fn with_nrt_emv(self, val: bool) -> Self {
        TimerEmvControl(bits::with_flag(self.0, 1, val))
    }

    pub fn set_nrt_emv(&mut self, val: bool)
        ensures
            *final(self) == old(self).with_nrt_emv(val),
    {
        self.0 = (self.0 & !(0x01 << 1usize)) | (((val as u8) & 0x01) << 1usize);
    }

    #[verifier::allow_in_spec]
    pub fn nrt_nfc(&self) -> (val: bool)
        returns
            bits::flag(self.0, 2),
    {
        (self.0 >> 2usize) & 0x01 != 0
    }

    /// This value with `nrt_nfc` replaced by `val`.
    pub open spec fn with_nrt_nfc(self, val: bool) -> Self {
        TimerEmvControl(bits::with_flag(self.0, 2, val))
    }

    pub fn set_nrt_nfc(&mut self, val: bool)
        ensures
            *final(self) == old(self).with_nrt_nfc(val),
    {
        self.0 = (self.0 & !(0x01 << 2usize)) | (((val as u8) & 0x01) << 2usize);
    }

    #[verifier::allow_in_spec]
    pub fn mrt_step(&self) -> (val: TimerEmvControlMrtStep)
        returns
            TimerEmvControlMrtStep(bits::field(self.0, 3, 0x01)),
    {
        TimerEmvControlMrtStep((self.0 >> 3usize) & 0x01)
    }

    /// This value with `mrt_step` replaced by `val`.
    pub open spec fn with_mrt_step(self, val: TimerEmvControlMrtStep) -> Self {
        TimerEmvControl(bits::with_field(self.0, 3, 0x01, val.0))
    }

    pub fn set_mrt_step(&mut self, val: TimerEmvControlMrtStep)
        ensures
            *final(self) == old(self).with_mrt_step(val),
    {
        self.0 = (self.0 & !(0x01 << 3usize)) | ((val.0 & 0x01) << 3usize);
    }

    #[verifier::allow_in_spec]
    pub fn rfu(&self) -> (val: bool)
        returns
            bits::flag(self.0, 4),
    {
        (self.0 >> 4usize) & 0x01 != 0
    }

    /// This value with `rfu` replaced by `val`.
    pub open spec fn with_rfu(self, val: bool) -> Self {
        TimerEmvControl(bits::with_flag(self.0, 4, val))
    }

    pub fn set_rfu(&mut self, val: bool)
        ensures
            *final(self) == old(self).with_rfu(val),
    {
        self.0 = (self.0 & !(0x01 << 4usize)) | (((val as u8) & 0x01) << 4usize);
    }

    #[verifier::allow_in_spec]
    pub fn gptc(&self) -> (val: TimerEmvControlGptc)
        returns
            TimerEmvControlGptc(bits::field(self.0, 5, 0x07)),
    {
        TimerEmvControlGptc((self.0 >> 5usize) & 0x07)
    }

    /// This value with `gptc` replaced by `val`.
    pub open spec fn with_gptc(self, val: TimerEmvControlGptc) -> Self {
        TimerEmvControl(bits::with_field(self.0, 5, 0x07, val.0))
    }

    pub fn set_gptc(&mut self, val: TimerEmvControlGptc)
        ensures
            *final(self) == old(self).with_gptc(val),
    {
        self.0 = (self.0 & !(0x07 << 5usize)) | ((val.0 & 0x07) << 5usize);
    }
}

impl Default for TimerEmvControl {
    fn default() -> (val: TimerEmvControl)
        ensures
            val == TimerEmvControl(0),
    {
        TimerEmvControl(0)
    }
}

impl Value for TimerEmvControl {
    open spec fn bits(self) -> u8 {
        self.0
    }

    open spec fn of_bits(bits: u8) -> TimerEmvControl {
        TimerEmvControl(bits)
    }

    proof fn lemma_bits_of_bits(bits: u8) {
    }

    fn to_bits(self) -> u8 {
        self.0
    }

    fn from_bits(bits: u8) -> TimerEmvControl {
        TimerEmvControl(bits)
    }
}

/// The layout of the register `gain_red_state`.
#[derive(Copy, Clone, Eq, PartialEq, Structural)]
pub struct GainRedState(pub u8);

impl GainRedState {
    #[verifier::allow_in_spec]
    pub fn gs_pm(&self) -> (val: u8)
        returns
            bits::field(self.0, 0, 0x0f),
    {
        (self.0 >> 0usize) & 0x0f
    }

    /// This value with `gs_pm` replaced by the low bits of `val`.
    pub open spec fn with_gs_pm(self, val: u8) -> Self {
        GainRedState(bits::with_field(self.0, 0, 0x0f, val))
    }

    pub fn set_gs_pm(&mut self, val: u8)
        ensures
            *final(self) == old(self).with_gs_pm(val),
    {
        self.0 = (self.0 & !(0x0f << 0usize)) | ((val & 0x0f) << 0usize);
    }

    #[verifier::allow_in_spec]
    pub fn gs_am(&self) -> (val: u8)
        returns
            bits::field(self.0, 4, 0x0f),
    {
        (self.0 >> 4usize) & 0x0f
    }

    /// This value with `gs_am` replaced by the low bits of `val`.
    pub open spec fn with_gs_am(self, val: u8) -> Self {
        GainRedState(bits::with_field(self.0, 4, 0x0f, val))
    }

    pub fn set_gs_am(&mut self, val: u8)
        ensures
            *final(self) == old(self).with_gs_am(val),
    {
        self.0 = (self.0 & !(0x0f << 4usize)) | ((val & 0x0f) << 4usize);
    }
}

impl Default for GainRedState {
    fn default() -> (val: GainRedState)
        ensures
            val == GainRedState(0),
    {
        GainRedState(0)
    }
}

impl Value for GainRedState {
    open spec fn bits(self) -> u8 {
        self.0
    }

    open spec fn of_bits(bits: u8) -> GainRedState {
        GainRedState(bits)
    }

    proof fn lemma_bits_of_bits(bits: u8) {
    }

    fn to_bits(self) -> u8 {
        self.0
    }

    fn from_bits(bits: u8) -> GainRedState {
        GainRedState(bits)
    }
}

/// The layout of the register `aux_display`.
#[derive(Copy, Clone, Eq, PartialEq, Structural)]
pub struct AuxDisplay(pub u8);

impl AuxDisplay {
    #[verifier::allow_in_spec]
    pub fn en_ac(&self) -> (val: bool)
        returns
            bits::flag(self.0, 0),
    {
        (self.0 >> 0usize) & 0x01 != 0
    }

    /// This value with `en_ac` replaced by `val`.
    pub open spec fn with_en_ac(self, val: bool) -> Self {
        AuxDisplay(bits::with_flag(self.0, 0, val))
    }

    pub fn set_en_ac(&mut self, val: bool)
        ensures
            *final(self) == old(self).with_en_ac(val),
    {
        self.0 = (self.0 & !(0x01 << 0usize)) | (((val as u8) & 0x01) << 0usize);
    }

    #[verifier::allow_in_spec]
    pub fn en_peer(&self) -> (val: bool)
        returns
            bits::flag(self.0, 1),
    {
        (self.0 >> 1usize) & 0x01 != 0
    }

    /// This value with `en_peer` replaced by `val`.
    pub open spec fn with_en_peer(self, val: bool) -> Self {
        AuxDisplay(bits::with_flag(self.0, 1, val))
    }

    pub fn set_en_peer(&mut self, val: bool)
        ensures
            *final(self) == old(self).with_en_peer(val),
    {
        self.0 = (self.0 & !(0x01 << 1usize)) | (((val as u8) & 0x01) << 1usize);
    }

    #[verifier::allow_in_spec]
    pub fn rx_act(&self) -> (val: bool)
        returns
            bits::flag(self.0, 2),
    {
        (self.0 >> 2usize) & 0x01 != 0
    }

    /// This value with `rx_act` replaced by `val`.
    pub open spec fn with_rx_act(self, val: bool) -> Self {
        AuxDisplay(bits::with_flag(self.0, 2, val))
    }

    pub fn set_rx_act(&mut self, val: bool)
        ensures
            *final(self) == old(self).with_rx_act(val),
    {
        self.0 = (self.0 & !(0x01 << 2usize)) | (((val as u8) & 0x01) << 2usize);
    }

    #[verifier::allow_in_spec]
    pub fn rx_on(&self) -> (val: bool)
        returns
            bits::flag(self.0, 3),
    {
        (self.0 >> 3usize) & 0x01 != 0
    }

    /// This value with `rx_on` replaced by `val`.
    pub open spec fn with_rx_on(self, val: bool) -> Self {
        AuxDisplay(bits::with_flag(self.0, 3, val))
    }

    pub fn set_rx_on(&mut self, val: bool)
        ensures
            *final(self) == old(self).with_rx_on(val),
    {
        self.0 = (self.0 & !(0x01 << 3usize)) | (((val as u8) & 0x01) << 3usize);
    }

    #[verifier::allow_in_spec]
    pub fn osc_ok(&self) -> (val: bool)
        returns
            bits::flag(self.0, 4),
    {
        (self.0 >> 4usize) & 0x01 != 0
    }

    /// This value with `osc_ok` replaced by `val`.
    pub open spec fn with_osc_ok(self, val: bool) -> Self {
        AuxDisplay(bits::with_flag(self.0, 4, val))
    }

    pub fn set_osc_ok(&mut self, val: bool)
        ensures
            *final(self) == old(self).with_osc_ok(val),
    {
        self.0 = (self.0 & !(0x01 << 4usize)) | (((val as u8) & 0x01) << 4usize);
    }

    #[verifier::allow_in_spec]
    pub fn tx_on(&self) -> (val: bool)
        returns
            bits::flag(self.0, 5),
    {
        (self.0 >> 5usize) & 0x01 != 0
    }

    /// This value with `tx_on` replaced by `val`.
    pub open spec fn with_tx_on(self, val: bool) -> Self {
        AuxDisplay(bits::with_flag(self.0, 5, val))
    }

    pub fn set_tx_on(&mut self, val: bool)
        ensures
            *final(self) == old(self).with_tx_on(val),
    {
        self.0 = (self.0 & !(0x01 << 5usize)) | (((val as u8) & 0x01) << 5usize);
    }

    #[verifier::allow_in_spec]
    pub fn efd_o(&self) -> (val: bool)
        returns
            bits::flag(self.0, 6),
    {
        (self.0 >> 6usize) & 0x01 != 0
    }

    /// This value with `efd_o` replaced by `val`.
    pub open spec fn with_efd_o(self, val: bool) -> Self {
        AuxDisplay(bits::with_flag(self.0, 6, val))
    }

    pub fn set_efd_o(&mut self, val: bool)
        ensures
            *final(self) == old(self).with_efd_o(val),
    {
        self.0 = (self.0 & !(0x01 << 6usize)) | (((val as u8) & 0x01) << 6usize);
    }

    #[verifier::allow_in_spec]
    pub fn a_cha(&self) -> (val: bool)
        returns
            bits::flag(self.0, 7),
    {
        (self.0 >> 7usize) & 0x01 != 0
    }

    /// This value with `a_cha` replaced by `val`.
    pub open spec fn with_a_cha(self, val: bool) -> Self {
        AuxDisplay(bits::with_flag(self.0, 7, val))
    }

    pub fn set_a_cha(&mut self, val: bool)
        ensures
            *final(self) == old(self).with_a_cha(val),
    {
        self.0 = (self.0 & !(0x01 << 7usize)) | (((val as u8) & 0x01) << 7usize);
    }
}

impl Default for AuxDisplay {
    fn default() -> (val: AuxDisplay)
        ensures
            val == AuxDisplay(0),
    {
        AuxDisplay(0)
    }
}

impl Value for AuxDisplay {
    open spec fn bits(self) -> u8 {
        self.0
    }

    open spec fn of_bits(bits: u8) -> AuxDisplay {
        AuxDisplay(bits)
    }

    proof fn lemma_bits_of_bits(bits: u8) {
    }

    fn to_bits(self) -> u8 {
        self.0
    }

    fn from_bits(bits: u8) -> AuxDisplay {
        AuxDisplay(bits)
    }
}

/// The layout of the register `res_am_mod`.
#[derive(Copy, Clone, Eq, PartialEq, Structural)]
pub struct ResAmMod(pub u8);

impl ResAmMod {
    #[verifier::allow_in_spec]
    pub fn md_res(&self) -> (val: u8)
        returns
            bits::field(self.0, 0, 0x7f),
    {
        (self.0 >> 0usize) & 0x7f
    }

    /// This value with `md_res` replaced by the low bits of `val`.
    pub open spec fn with_md_res(self, val: u8) -> Self {
        ResAmMod(bits::with_field(self.0, 0, 0x7f, val))
    }

    pub fn set_md_res(&mut self, val: u8)
        ensures
            *final(self) == old(self).with_md_res(val),
    {
        self.0 = (self.0 & !(0x7f << 0usize)) | ((val & 0x7f) << 0usize);
    }

    #[verifier::allow_in_spec]
    pub fn fa3_f(&self) -> (val: bool)
        returns
            bits::flag(self.0, 7),
    {
        (self.0 >> 7usize) & 0x01 != 0
    }

    /// This value with `fa3_f` replaced by `val`.
    pub open spec fn with_fa3_f(self, val: bool) -> Self {
        ResAmMod(bits::with_flag(self.0, 7, val))
    }

    pub fn set_fa3_f(&mut self, val: bool)
        ensures
            *final(self) == old(self).with_fa3_f(val),
    {
        self.0 = (self.0 & !(0x01 << 7usize)) | (((val as u8) & 0x01) << 7usize);
    }
}

impl Default for ResAmMod {
    fn default() -> (val: ResAmMod)
        ensures
            val == ResAmMod(0),
    {
        ResAmMod(0)
    }
}

impl Value for ResAmMod {
    open spec fn bits(self) -> u8 {
        self.0
    }

    open spec fn of_bits(bits: u8) -> ResAmMod {
        ResAmMod(bits)
    }

    proof fn lemma_bits_of_bits(bits: u8) {
    }

    fn to_bits(self) -> u8 {
        self.0
    }

    fn from_bits(bits: u8) -> ResAmMod {
        ResAmMod(bits)
    }
}

/// The layout of the register `aux`.
#[derive(Copy, Clone, Eq, PartialEq, Structural)]
pub struct Aux(pub u8);

impl Aux {
    #[verifier::allow_in_spec]
    pub fn nfc_n(&self) -> (val: u8)
        returns
            bits::field(self.0, 0, 0x03),
    {
        (self.0 >> 0usize) & 0x03
    }

    /// This value with `nfc_n` replaced by the low bits of `val`.
    pub open spec fn with_nfc_n(self, val: u8) -> Self {
        Aux(bits::with_field(self.0, 0, 0x03, val))
    }

    pub fn set_nfc_n(&mut self, val: u8)
        ensures
            *final(self) == old(self).with_nfc_n(val),
    {
        self.0 = (self.0 & !(0x03 << 0usize)) | ((val & 0x03) << 0usize);
    }

    #[verifier::allow_in_spec]
    pub fn dis_corr(&self) -> (val: bool)
        returns
            bits::flag(self.0, 2),
    {
        (self.0 >> 2usize) & 0x01 != 0
    }

    /// This value with `dis_corr` replaced by `val`.
    pub open spec fn with_dis_corr(self, val: bool) -> Self {
        Aux(bits::with_flag(self.0, 2, val))
    }

    pub fn set_dis_corr(&mut self, val: bool)
        ensures
            *final(self) == old(self).with_dis_corr(val),
    {
        self.0 = (self.0 & !(0x01 << 2usize)) | (((val as u8) & 0x01) << 2usize);
    }

    #[verifier::allow_in_spec]
    pub fn mfaz_cl90(&self) -> (val: bool)
        returns
            bits::flag(self.0, 3),
    {
        (self.0 >> 3usize) & 0x01 != 0
    }

    /// This value with `mfaz_cl90` replaced by `val`.
    pub open spec fn with_mfaz_cl90(self, val: bool) -> Self {
        Aux(bits::with_flag(self.0, 3, val))
    }

    pub fn set_mfaz_cl90(&mut self, val: bool)
        ensures
            *final(self) == old(self).with_mfaz_cl90(val),
    {
        self.0 = (self.0 & !(0x01 << 3usize)) | (((val as u8) & 0x01) << 3usize);
    }

    #[verifier::allow_in_spec]
    pub fn nfc_id(&self) -> (val: AuxNfcId)
        returns
            AuxNfcId(bits::field(self.0, 4, 0x03)),
    {
        AuxNfcId((self.0 >> 4usize) & 0x03)
    }

    /// This value with `nfc_id` replaced by `val`.
    pub open spec fn with_nfc_id(self, val: AuxNfcId) -> Self {
        Aux(bits::with_field(self.0, 4, 0x03, val.0))
    }

    pub fn set_nfc_id(&mut self, val: AuxNfcId)
        ensures
            *final(self) == old(self).with_nfc_id(val),
    {
        self.0 = (self.0 & !(0x03 << 4usize)) | ((val.0 & 0x03) << 4usize);
    }

    #[verifier::allow_in_spec]
    pub fn rfu(&self) -> (val: bool)
        returns
            bits::flag(self.0, 6),
    {
        (self.0 >> 6usize) & 0x01 != 0
    }

    /// This value with `rfu` replaced by `val`.
    pub open spec fn with_rfu(self, val: bool) -> Self {
        Aux(bits::with_flag(self.0, 6, val))
    }

    pub fn set_rfu(&mut self, val: bool)
        ensures
            *final(self) == old(self).with_rfu(val),
    {
        self.0 = (self.0 & !(0x01 << 6usize)) | (((val as u8) & 0x01) << 6usize);
    }

    #[verifier::allow_in_spec]
    pub fn no_crc_rx(&self) -> (val: bool)
        returns
            bits::flag(self.0, 7),
    {
        (self.0 >> 7usize) & 0x01 != 0
    }

    /// This value with `no_crc_rx` replaced by `val`.
    pub open spec fn with_no_crc_rx(self, val: bool) -> Self {
        Aux(bits::with_flag(self.0, 7, val))
    }

    pub fn set_no_crc_rx(&mut self, val: bool)
        ensures
            *final(self) == old(self).with_no_crc_rx(val),
    {
        self.0 = (self.0 & !(0x01 << 7usize)) | (((val as u8) & 0x01) << 7usize);
    }
}

impl Default for Aux {
    fn default() -> (val: Aux)
        ensures
            val == Aux(0),
    {
        Aux(0)
    }
}

impl Value for Aux {
    open spec fn bits(self) -> u8 {
        self.0
    }

    open spec fn of_bits(bits: u8) -> Aux {
        Aux(bits)
    }

    proof fn lemma_bits_of_bits(bits: u8) {
    }

    fn to_bits(self) -> u8 {
        self.0
    }

    fn from_bits(bits: u8) -> Aux {
        Aux(bits)
    }
}

/// The layout of the register `nfcip1_bit_rate`.
#[derive(Copy, Clone, Eq, PartialEq, Structural)]
pub struct Nfcip1BitRate(pub u8);

impl Nfcip1BitRate {
    #[verifier::allow_in_spec]
    pub fn mrt_on(&self) -> (val: bool)
        returns
            bits::flag(self.0, 0),
    {
        (self.0 >> 0usize) & 0x01 != 0
    }

    /// This value with `mrt_on` replaced by `val`.
    pub open spec fn with_mrt_on(self, val: bool) -> Self {
        Nfcip1BitRate(bits::with_flag(self.0, 0, val))
    }

    pub fn set_mrt_on(&mut self, val: bool)
        ensures
            *final(self) == old(self).with_mrt_on(val),
    {
        self.0 = (self.0 & !(0x01 << 0usize)) | (((val as u8) & 0x01) << 0usize);
    }

    #[verifier::allow_in_spec]
    pub fn nrt_on(&self) -> (val: bool)
        returns
            bits::flag(self.0, 1),
    {
        (self.0 >> 1usize) & 0x01 != 0
    }

    /// This value with `nrt_on` replaced by `val`.
    pub open spec fn with_nrt_on(self, val: bool) -> Self {
        Nfcip1BitRate(bits::with_flag(self.0, 1, val))
    }

    pub fn set_nrt_on(&mut self, val: bool)
        ensures
            *final(self) == old(self).with_nrt_on(val),
    {
        self.0 = (self.0 & !(0x01 << 1usize)) | (((val as u8) & 0x01) << 1usize);
    }

    #[verifier::allow_in_spec]
    pub fn gpt_on(&self) -> (val: bool)
        returns
            bits::flag(self.0, 2),
    {
        (self.0 >> 2usize) & 0x01 != 0
    }

    /// This value with `gpt_on` replaced by `val`.
    pub open spec fn with_gpt_on(self, val: bool) -> Self {
        Nfcip1BitRate(bits::with_flag(self.0, 2, val))
    }

    pub fn set_gpt_on(&mut self, val: bool)
        ensures
            *final(self) == old(self).with_gpt_on(val),
    {
        self.0 = (self.0 & !(0x01 << 2usize)) | (((val as u8) & 0x01) << 2usize);
    }

    #[verifier::allow_in_spec]
    pub fn ppt2_on(&self) -> (val: bool)
        returns
            bits::flag(self.0, 3),
    {
        (self.0 >> 3usize) & 0x01 != 0
    }

    /// This value with `ppt2_on` replaced by `val`.
    pub open spec fn with_ppt2_on(self, val: bool) -> Self {
        Nfcip1BitRate(bits::with_flag(self.0, 3, val))
    }

    pub fn set_ppt2_on(&mut self, val: bool)
        ensures
            *final(self) == old(self).with_ppt2_on(val),
    {
        self.0 = (self.0 & !(0x01 << 3usize)) | (((val as u8) & 0x01) << 3usize);
    }

    #[verifier::allow_in_spec]
    pub fn nfc_rate(&self) -> (val: u8)
        returns
            bits::field(self.0, 4, 0x03),
    {
        (self.0 >> 4usize) & 0x03
    }

    /// This value with `nfc_rate` replaced by the low bits of `val`.
    pub open spec fn with_nfc_rate(self, val: u8) -> Self {
        Nfcip1BitRate(bits::with_field(self.0, 4, 0x03, val))
    }

    pub fn set_nfc_rate(&mut self, val: u8)
        ensures
            *final(self) == old(self).with_nfc_rate(val),
    {
        self.0 = (self.0 & !(0x03 << 4usize)) | ((val & 0x03) << 4usize);
    }

    #[verifier::allow_in_spec]
    pub fn nfc_rfu0(&self) -> (val: bool)
        returns
            bits::flag(self.0, 6),
    {
        (self.0 >> 6usize) & 0x01 != 0
    }

    /// This value with `nfc_rfu0` replaced by `val`.
    pub open spec fn with_nfc_rfu0(self, val: bool) -> Self {
        Nfcip1BitRate(bits::with_flag(self.0, 6, val))
    }

    pub fn set_nfc_rfu0(&mut self, val: bool)
        ensures
            *final(self) == old(self).with_nfc_rfu0(val),
    {
        self.0 = (self.0 & !(0x01 << 6usize)) | (((val as u8) & 0x01) << 6usize);
    }

    #[verifier::allow_in_spec]
    pub fn nfc_rfu1(&self) -> (val: bool)
        returns
            bits::flag(self.0, 7),
    {
        (self.0 >> 7usize) & 0x01 != 0
    }

    /// This value with `nfc_rfu1` replaced by `val`.
    pub open spec fn with_nfc_rfu1(self, val: bool) -> Self {
        Nfcip1BitRate(bits::with_flag(self.0, 7, val))
    }

    pub fn set_nfc_rfu1(&mut self, val: bool)
        ensures
            *final(self) == old(self).with_nfc_rfu1(val),
    {
        self.0 = (self.0 & !(0x01 << 7usize)) | (((val as u8) & 0x01) << 7usize);
    }
}

impl Default for Nfcip1BitRate {
    fn default() -> (val: Nfcip1BitRate)
        ensures
            val == Nfcip1BitRate(0),
    {
        Nfcip1BitRate(0)
    }
}

impl Value for Nfcip1BitRate {
    open spec fn bits(self) -> u8 {
        self.0
    }

    open spec fn of_bits(bits: u8) -> Nfcip1BitRate {
        Nfcip1BitRate(bits)
    }

    proof fn lemma_bits_of_bits(bits: u8) {
    }

    fn to_bits(self) -> u8 {
        self.0
    }

    fn from_bits(bits: u8) -> Nfcip1BitRate {
        Nfcip1BitRate(bits)
    }
}

/// What the field `f_p` of [`Iso14443b2`] can hold.
#[derive(Copy, Clone, Eq, PartialEq, Structural)]
pub struct Iso14443b2FP(pub u8);

impl Iso14443b2FP {
    #[verifier::allow_in_spec]
    pub fn _48() -> (val: Self)
        returns
            Iso14443b2FP(0),
    {
        Iso14443b2FP(0)
    }

    #[verifier::allow_in_spec]
    pub fn _64() -> (val: Self)
        returns
            Iso14443b2FP(1),
    {
        Iso14443b2FP(1)
    }

    #[verifier::allow_in_spec]
    pub fn _80() -> (val: Self)
        returns
            Iso14443b2FP(2),
    {
        Iso14443b2FP(2)
    }

    #[verifier::allow_in_spec]
    pub fn _96() -> (val: Self)
        returns
            Iso14443b2FP(3),
    {
        Iso14443b2FP(3)
    }
}

impl Value for Iso14443b2FP {
    open spec fn bits(self) -> u8 {
        self.0
    }

    open spec fn of_bits(bits: u8) -> Iso14443b2FP {
        Iso14443b2FP(bits)
    }

    proof fn lemma_bits_of_bits(bits: u8) {
    }

    fn to_bits(self) -> u8 {
        self.0
    }

    fn from_bits(bits: u8) -> Iso14443b2FP {
        Iso14443b2FP(bits)
    }
}

/// What the field `nrt_step` of [`TimerEmvControl`] can hold.
#[derive(Copy, Clone, Eq, PartialEq, Structural)]
pub struct TimerEmvControlNrtStep(pub u8);

impl TimerEmvControlNrtStep {
    #[verifier::allow_in_spec]
    pub fn _64fc() -> (val: Self)
        returns
            TimerEmvControlNrtStep(0),
    {
        TimerEmvControlNrtStep(0)
    }

    #[verifier::allow_in_spec]
    pub fn _4096_fc() -> (val: Self)
        returns
            TimerEmvControlNrtStep(1),
    {
        TimerEmvControlNrtStep(1)
    }
}

impl Value for TimerEmvControlNrtStep {
    open spec fn bits(self) -> u8 {
        self.0
    }

    open spec fn of_bits(bits: u8) -> TimerEmvControlNrtStep {
        TimerEmvControlNrtStep(bits)
    }

    proof fn lemma_bits_of_bits(bits: u8) {
    }

    fn to_bits(self) -> u8 {
        self.0
    }

    fn from_bits(bits: u8) -> TimerEmvControlNrtStep {
        TimerEmvControlNrtStep(bits)
    }
}

/// What the field `stx` of [`StreamMode`] can hold.
#[derive(Copy, Clone, Eq, PartialEq, Structural)]
pub struct StreamModeStx(pub u8);

impl StreamModeStx {
    #[verifier::allow_in_spec]
    pub fn _106() -> (val: Self)
        returns
            StreamModeStx(0),
    {
        StreamModeStx(0)
    }

    #[verifier::allow_in_spec]
    pub fn _212() -> (val: Self)
        returns
            StreamModeStx(1),
    {
        StreamModeStx(1)
    }

    #[verifier::allow_in_spec]
    pub fn _424() -> (val: Self)
        returns
            StreamModeStx(2),
    {
        StreamModeStx(2)
    }

    #[verifier::allow_in_spec]
    pub fn _848() -> (val: Self)
        returns
            StreamModeStx(3),
    {
        StreamModeStx(3)
    }
}

impl Value for StreamModeStx {
    open spec fn bits(self) -> u8 {
        self.0
    }

    open spec fn of_bits(bits: u8) -> StreamModeStx {
        StreamModeStx(bits)
    }

    proof fn lemma_bits_of_bits(bits: u8) {
    }

    fn to_bits(self) -> u8 {
        self.0
    }

    fn from_bits(bits: u8) -> StreamModeStx {
        StreamModeStx(bits)
    }
}

/// What the field `rfe` of [`FieldThresholdDeactv`] can hold.
#[derive(Copy, Clone, Eq, PartialEq, Structural)]
pub struct FieldThresholdDeactvRfe(pub u8);

impl FieldThresholdDeactvRfe {
    #[verifier::allow_in_spec]
    pub fn _75mv() -> (val: Self)
        returns
            FieldThresholdDeactvRfe(0),
    {
        FieldThresholdDeactvRfe(0)
    }

    #[verifier::allow_in_spec]
    pub fn _105mv() -> (val: Self)
        returns
            FieldThresholdDeactvRfe(1),
    {
        FieldThresholdDeactvRfe(1)
    }

    #[verifier::allow_in_spec]
    pub fn _150mv() -> (val: Self)
        returns
            FieldThresholdDeactvRfe(2),
    {
        FieldThresholdDeactvRfe(2)
    }

    #[verifier::allow_in_spec]
    pub fn _205mv() -> (val: Self)
        returns
            FieldThresholdDeactvRfe(3),
    {
        FieldThresholdDeactvRfe(3)
    }

    #[verifier::allow_in_spec]
    pub fn _290mv() -> (val: Self)
        returns
            FieldThresholdDeactvRfe(4),
    {
        FieldThresholdDeactvRfe(4)
    }

    #[verifier::allow_in_spec]
    pub fn _400mv() -> (val: Self)
        returns
            FieldThresholdDeactvRfe(5),
    {
        FieldThresholdDeactvRfe(5)
    }

    #[verifier::allow_in_spec]
    pub fn _560mv() -> (val: Self)
        returns
            FieldThresholdDeactvRfe(6),
    {
        FieldThresholdDeactvRfe(6)
    }

    #[verifier::allow_in_spec]
    pub fn _800mv() -> (val: Self)
        returns
            FieldThresholdDeactvRfe(7),
    {
        FieldThresholdDeactvRfe(7)
    }

    #[verifier::allow_in_spec]
    pub fn _25mv() -> (val: Self)
        returns
            FieldThresholdDeactvRfe(8),
    {
        FieldThresholdDeactvRfe(8)
    }

    #[verifier::allow_in_spec]
    pub fn _33mv() -> (val: Self)
        returns
            FieldThresholdDeactvRfe(9),
    {
        FieldThresholdDeactvRfe(9)
    }

    #[verifier::allow_in_spec]
    pub fn _47mv() -> (val: Self)
        returns
            FieldThresholdDeactvRfe(0x0a),
    {
        FieldThresholdDeactvRfe(0x0a)
    }

    #[verifier::allow_in_spec]
    pub fn _64mv() -> (val: Self)
        returns
            FieldThresholdDeactvRfe(0x0b),
    {
        FieldThresholdDeactvRfe(0x0b)
    }

    #[verifier::allow_in_spec]
    pub fn _90mv() -> (val: Self)
        returns
            FieldThresholdDeactvRfe(0x0c),
    {
        FieldThresholdDeactvRfe(0x0c)
    }

    #[verifier::allow_in_spec]
    pub fn _125mv() -> (val: Self)
        returns
            FieldThresholdDeactvRfe(0x0d),
    {
        FieldThresholdDeactvRfe(0x0d)
    }

    #[verifier::allow_in_spec]
    pub fn _175mv() -> (val: Self)
        returns
            FieldThresholdDeactvRfe(0x0e),
    {
        FieldThresholdDeactvRfe(0x0e)
    }

    #[verifier::allow_in_spec]
    pub fn _250mv() -> (val: Self)
        returns
            FieldThresholdDeactvRfe(0x0f),
    {
        FieldThresholdDeactvRfe(0x0f)
    }
}

impl Value for FieldThresholdDeactvRfe {
    open spec fn bits(self) -> u8 {
        self.0
    }

    open spec fn of_bits(bits: u8) -> FieldThresholdDeactvRfe {
        FieldThresholdDeactvRfe(bits)
    }

    proof fn lemma_bits_of_bits(bits: u8) {
    }

    fn to_bits(self) -> u8 {
        self.0
    }

    fn from_bits(bits: u8) -> FieldThresholdDeactvRfe {
        FieldThresholdDeactvRfe(bits)
    }
}

/// What the field `ic_type` of [`IcIdentity`] can hold.
#[derive(Copy, Clone, Eq, PartialEq, Structural)]
pub struct IcIdentityIcType(pub u8);

impl IcIdentityIcType {
    #[verifier::allow_in_spec]
    pub fn st25r3916() -> (val: Self)
        returns
            IcIdentityIcType(5),
    {
        IcIdentityIcType(5)
    }
}

impl Value for IcIdentityIcType {
    open spec fn bits(self) -> u8 {
        self.0
    }

    open spec fn of_bits(bits: u8) -> IcIdentityIcType {
        IcIdentityIcType(bits)
    }

    proof fn lemma_bits_of_bits(bits: u8) {
    }

    fn to_bits(self) -> u8 {
        self.0
    }

    fn from_bits(bits: u8) -> IcIdentityIcType {
        IcIdentityIcType(bits)
    }
}

/// What the field `pta_state` of [`PassiveTargetStatus`] can hold.
#[derive(Copy, Clone, Eq, PartialEq, Structural)]
pub struct PassiveTargetStatusPtaState(pub u8);

impl PassiveTargetStatusPtaState {
    #[verifier::allow_in_spec]
    pub fn power_off() -> (val: Self)
        returns
            PassiveTargetStatusPtaState(0),
    {
        PassiveTargetStatusPtaState(0)
    }

    #[verifier::allow_in_spec]
    pub fn idle() -> (val: Self)
        returns
            PassiveTargetStatusPtaState(1),
    {
        PassiveTargetStatusPtaState(1)
    }

    #[verifier::allow_in_spec]
    pub fn ready_l1() -> (val: Self)
        returns
            PassiveTargetStatusPtaState(2),
    {
        PassiveTargetStatusPtaState(2)
    }

    #[verifier::allow_in_spec]
    pub fn ready_l2() -> (val: Self)
        returns
            PassiveTargetStatusPtaState(3),
    {
        PassiveTargetStatusPtaState(3)
    }

    #[verifier::allow_in_spec]
    pub fn rfu4() -> (val: Self)
        returns
            PassiveTargetStatusPtaState(4),
    {
        PassiveTargetStatusPtaState(4)
    }

    #[verifier::allow_in_spec]
    pub fn active() -> (val: Self)
        returns
            PassiveTargetStatusPtaState(5),
    {
        PassiveTargetStatusPtaState(5)
    }

    #[verifier::allow_in_spec]
    pub fn rfu6() -> (val: Self)
        returns
            PassiveTargetStatusPtaState(6),
    {
        PassiveTargetStatusPtaState(6)
    }

    #[verifier::allow_in_spec]
    pub fn rfu7() -> (val: Self)
        returns
            PassiveTargetStatusPtaState(7),
    {
        PassiveTargetStatusPtaState(7)
    }

    #[verifier::allow_in_spec]
    pub fn rfu8() -> (val: Self)
        returns
            PassiveTargetStatusPtaState(8),
    {
        PassiveTargetStatusPtaState(8)
    }

    #[verifier::allow_in_spec]
    pub fn halt() -> (val: Self)
        returns
            PassiveTargetStatusPtaState(9),
    {
        PassiveTargetStatusPtaState(9)
    }

    #[verifier::allow_in_spec]
    pub fn ready_l1_x() -> (val: Self)
        returns
            PassiveTargetStatusPtaState(0x0a),
    {
        PassiveTargetStatusPtaState(0x0a)
    }

    #[verifier::allow_in_spec]
    pub fn ready_l2_x() -> (val: Self)
        returns
            PassiveTargetStatusPtaState(0x0b),
    {
        PassiveTargetStatusPtaState(0x0b)
    }

    #[verifier::allow_in_spec]
    pub fn rfu12() -> (val: Self)
        returns
            PassiveTargetStatusPtaState(0x0c),
    {
        PassiveTargetStatusPtaState(0x0c)
    }

    #[verifier::allow_in_spec]
    pub fn active_x() -> (val: Self)
        returns
            PassiveTargetStatusPtaState(0x0d),
    {
        PassiveTargetStatusPtaState(0x0d)
    }
}

impl Value for PassiveTargetStatusPtaState {
    open spec fn bits(self) -> u8 {
        self.0
    }

    open spec fn of_bits(bits: u8) -> PassiveTargetStatusPtaState {
        PassiveTargetStatusPtaState(bits)
    }

    proof fn lemma_bits_of_bits(bits: u8) {
    }

    fn to_bits(self) -> u8 {
        self.0
    }

    fn from_bits(bits: u8) -> PassiveTargetStatusPtaState {
        PassiveTargetStatusPtaState(bits)
    }
}

/// What the field `rfe` of [`FieldThresholdActv`] can hold.
#[derive(Copy, Clone, Eq, PartialEq, Structural)]
pub struct FieldThresholdActvRfe(pub u8);

impl FieldThresholdActvRfe {
    #[verifier::allow_in_spec]
    pub fn _75mv() -> (val: Self)
        returns
            FieldThresholdActvRfe(0),
    {
        FieldThresholdActvRfe(0)
    }

    #[verifier::allow_in_spec]
    pub fn _105mv() -> (val: Self)
        returns
            FieldThresholdActvRfe(1),
    {
        FieldThresholdActvRfe(1)
    }

    #[verifier::allow_in_spec]
    pub fn _150mv() -> (val: Self)
        returns
            FieldThresholdActvRfe(2),
    {
        FieldThresholdActvRfe(2)
    }

    #[verifier::allow_in_spec]
    pub fn _205mv() -> (val: Self)
        returns
            FieldThresholdActvRfe(3),
    {
        FieldThresholdActvRfe(3)
    }

    #[verifier::allow_in_spec]
    pub fn _290mv() -> (val: Self)
        returns
            FieldThresholdActvRfe(4),
    {
        FieldThresholdActvRfe(4)
    }

    #[verifier::allow_in_spec]
    pub fn _400mv() -> (val: Self)
        returns
            FieldThresholdActvRfe(5),
    {
        FieldThresholdActvRfe(5)
    }

    #[verifier::allow_in_spec]
    pub fn _560mv() -> (val: Self)
        returns
            FieldThresholdActvRfe(6),
    {
        FieldThresholdActvRfe(6)
    }

    #[verifier::allow_in_spec]
    pub fn _800mv() -> (val: Self)
        returns
            FieldThresholdActvRfe(7),
    {
        FieldThresholdActvRfe(7)
    }

    #[verifier::allow_in_spec]
    pub fn _25mv() -> (val: Self)
        returns
            FieldThresholdActvRfe(8),
    {
        FieldThresholdActvRfe(8)
    }

    #[verifier::allow_in_spec]
    pub fn _33mv() -> (val: Self)
        returns
            FieldThresholdActvRfe(9),
    {
        FieldThresholdActvRfe(9)
    }

    #[verifier::allow_in_spec]
    pub fn _47mv() -> (val: Self)
        returns
            FieldThresholdActvRfe(0x0a),
    {
        FieldThresholdActvRfe(0x0a)
    }

    #[verifier::allow_in_spec]
    pub fn _64mv() -> (val: Self)
        returns
            FieldThresholdActvRfe(0x0b),
    {
        FieldThresholdActvRfe(0x0b)
    }

    #[verifier::allow_in_spec]
    pub fn _90mv() -> (val: Self)
        returns
            FieldThresholdActvRfe(0x0c),
    {
        FieldThresholdActvRfe(0x0c)
    }

    #[verifier::allow_in_spec]
    pub fn _125mv() -> (val: Self)
        returns
            FieldThresholdActvRfe(0x0d),
    {
        FieldThresholdActvRfe(0x0d)
    }

    #[verifier::allow_in_spec]
    pub fn _175mv() -> (val: Self)
        returns
            FieldThresholdActvRfe(0x0e),
    {
        FieldThresholdActvRfe(0x0e)
    }

    #[verifier::allow_in_spec]
    pub fn _250mv() -> (val: Self)
        returns
            FieldThresholdActvRfe(0x0f),
    {
        FieldThresholdActvRfe(0x0f)
    }
}

impl Value for FieldThresholdActvRfe {
    open spec fn bits(self) -> u8 {
        self.0
    }

    open spec fn of_bits(bits: u8) -> FieldThresholdActvRfe {
        FieldThresholdActvRfe(bits)
    }

    proof fn lemma_bits_of_bits(bits: u8) {
    }

    fn to_bits(self) -> u8 {
        self.0
    }

    fn from_bits(bits: u8) -> FieldThresholdActvRfe {
        FieldThresholdActvRfe(bits)
    }
}

/// What the field `ic_rev` of [`IcIdentity`] can hold.
#[derive(Copy, Clone, Eq, PartialEq, Structural)]
pub struct IcIdentityIcRev(pub u8);

impl IcIdentityIcRev {
    #[verifier::allow_in_spec]
    pub fn v0() -> (val: Self)
        returns
            IcIdentityIcRev(0),
    {
        IcIdentityIcRev(0)
    }
}

impl Value for IcIdentityIcRev {
    open spec fn bits(self) -> u8 {
        self.0
    }

    open spec fn of_bits(bits: u8) -> IcIdentityIcRev {
        IcIdentityIcRev(bits)
    }

    proof fn lemma_bits_of_bits(bits: u8) {
    }

    fn to_bits(self) -> u8 {
        self.0
    }

    fn from_bits(bits: u8) -> IcIdentityIcRev {
        IcIdentityIcRev(bits)
    }
}

/// What the field `en_fd` of [`OpControl`] can hold.
#[derive(Copy, Clone, Eq, PartialEq, Structural)]
pub struct OpControlEnFd(pub u8);

impl OpControlEnFd {
    #[verifier::allow_in_spec]
    pub fn efd_off() -> (val: Self)
        returns
            OpControlEnFd(0),
    {
        OpControlEnFd(0)
    }

    #[verifier::allow_in_spec]
    pub fn manual_efd_ca() -> (val: Self)
        returns
            OpControlEnFd(1),
    {
        OpControlEnFd(1)
    }

    #[verifier::allow_in_spec]
    pub fn manual_efd_pdt() -> (val: Self)
        returns
            OpControlEnFd(2),
    {
        OpControlEnFd(2)
    }

    #[verifier::allow_in_spec]
    pub fn auto_efd() -> (val: Self)
        returns
            OpControlEnFd(3),
    {
        OpControlEnFd(3)
    }
}

impl Value for OpControlEnFd {
    open spec fn bits(self) -> u8 {
        self.0
    }

    open spec fn of_bits(bits: u8) -> OpControlEnFd {
        OpControlEnFd(bits)
    }

    proof fn lemma_bits_of_bits(bits: u8) {
    }

    fn to_bits(self) -> u8 {
        self.0
    }

    fn from_bits(bits: u8) -> OpControlEnFd {
        OpControlEnFd(bits)
    }
}

/// What the field `out_cl` of [`IoConf1`] can hold.
#[derive(Copy, Clone, Eq, PartialEq, Structural)]
pub struct IoConf1OutCl(pub u8);

impl IoConf1OutCl {
    #[verifier::allow_in_spec]
    pub fn _3_39_mhz() -> (val: Self)
        returns
            IoConf1OutCl(0),
    {
        IoConf1OutCl(0)
    }

    #[verifier::allow_in_spec]
    pub fn _6_78_mhz() -> (val: Self)
        returns
            IoConf1OutCl(1),
    {
        IoConf1OutCl(1)
    }

    #[verifier::allow_in_spec]
    pub fn _13_86_mhz() -> (val: Self)
        returns
            IoConf1OutCl(2),
    {
        IoConf1OutCl(2)
    }

    #[verifier::allow_in_spec]
    pub fn disabled() -> (val: Self)
        returns
            IoConf1OutCl(3),
    {
        IoConf1OutCl(3)
    }
}

impl Value for IoConf1OutCl {
    open spec fn bits(self) -> u8 {
        self.0
    }

    open spec fn of_bits(bits: u8) -> IoConf1OutCl {
        IoConf1OutCl(bits)
    }

    proof fn lemma_bits_of_bits(bits: u8) {
    }

    fn to_bits(self) -> u8 {
        self.0
    }

    fn from_bits(bits: u8) -> IoConf1OutCl {
        IoConf1OutCl(bits)
    }
}

/// What the field `sof_1` of [`Iso14443b1`] can hold.
#[derive(Copy, Clone, Eq, PartialEq, Structural)]
pub struct Iso14443b1Sof1(pub u8);

impl Iso14443b1Sof1 {
    #[verifier::allow_in_spec]
    pub fn _2etu() -> (val: Self)
        returns
            Iso14443b1Sof1(0),
    {
        Iso14443b1Sof1(0)
    }

    #[verifier::allow_in_spec]
    pub fn _3etu() -> (val: Self)
        returns
            Iso14443b1Sof1(1),
    {
        Iso14443b1Sof1(1)
    }
}

impl Value for Iso14443b1Sof1 {
    open spec fn bits(self) -> u8 {
        self.0
    }

    open spec fn of_bits(bits: u8) -> Iso14443b1Sof1 {
        Iso14443b1Sof1(bits)
    }

    proof fn lemma_bits_of_bits(bits: u8) {
    }

    fn to_bits(self) -> u8 {
        self.0
    }

    fn from_bits(bits: u8) -> Iso14443b1Sof1 {
        Iso14443b1Sof1(bits)
    }
}

/// What the field `hz` of [`RxConf1`] can hold.
#[derive(Copy, Clone, Eq, PartialEq, Structural)]
pub struct RxConf1Hz(pub u8);

impl RxConf1Hz {
    #[verifier::allow_in_spec]
    pub fn _60_400khz() -> (val: Self)
        returns
            RxConf1Hz(0),
    {
        RxConf1Hz(0)
    }

    #[verifier::allow_in_spec]
    pub fn _12_200khz() -> (val: Self)
        returns
            RxConf1Hz(1),
    {
        RxConf1Hz(1)
    }

    #[verifier::allow_in_spec]
    pub fn _40_80khz() -> (val: Self)
        returns
            RxConf1Hz(2),
    {
        RxConf1Hz(2)
    }

    #[verifier::allow_in_spec]
    pub fn _12_80khz() -> (val: Self)
        returns
            RxConf1Hz(3),
    {
        RxConf1Hz(3)
    }

    #[verifier::allow_in_spec]
    pub fn _60_200khz() -> (val: Self)
        returns
            RxConf1Hz(4),
    {
        RxConf1Hz(4)
    }

    #[verifier::allow_in_spec]
    pub fn _12_200khz_alt() -> (val: Self)
        returns
            RxConf1Hz(5),
    {
        RxConf1Hz(5)
    }

    #[verifier::allow_in_spec]
    pub fn _600_400khz() -> (val: Self)
        returns
            RxConf1Hz(8),
    {
        RxConf1Hz(8)
    }

    #[verifier::allow_in_spec]
    pub fn _600_200khz() -> (val: Self)
        returns
            RxConf1Hz(0x0c),
    {
        RxConf1Hz(0x0c)
    }
}

impl Value for RxConf1Hz {
    open spec fn bits(self) -> u8 {
        self.0
    }

    open spec fn of_bits(bits: u8) -> RxConf1Hz {
        RxConf1Hz(bits)
    }

    proof fn lemma_bits_of_bits(bits: u8) {
    }

    fn to_bits(self) -> u8 {
        self.0
    }

    fn from_bits(bits: u8) -> RxConf1Hz {
        RxConf1Hz(bits)
    }
}

/// What the field `scp` of [`StreamMode`] can hold.
#[derive(Copy, Clone, Eq, PartialEq, Structural)]
pub struct StreamModeScp(pub u8);

impl StreamModeScp {
    #[verifier::allow_in_spec]
    pub fn _1pulse() -> (val: Self)
        returns
            StreamModeScp(0),
    {
        StreamModeScp(0)
    }

    #[verifier::allow_in_spec]
    pub fn _2pulses() -> (val: Self)
        returns
            StreamModeScp(1),
    {
        StreamModeScp(1)
    }

    #[verifier::allow_in_spec]
    pub fn _4pulses() -> (val: Self)
        returns
            StreamModeScp(2),
    {
        StreamModeScp(2)
    }

    #[verifier::allow_in_spec]
    pub fn _8pulses() -> (val: Self)
        returns
            StreamModeScp(3),
    {
        StreamModeScp(3)
    }
}

impl Value for StreamModeScp {
    open spec fn bits(self) -> u8 {
        self.0
    }

    open spec fn of_bits(bits: u8) -> StreamModeScp {
        StreamModeScp(bits)
    }

    proof fn lemma_bits_of_bits(bits: u8) {
    }

    fn to_bits(self) -> u8 {
        self.0
    }

    fn from_bits(bits: u8) -> StreamModeScp {
        StreamModeScp(bits)
    }
}

/// What the field `nfc_ar` of [`Mode`] can hold.
#[derive(Copy, Clone, Eq, PartialEq, Structural)]
pub struct ModeNfcAr(pub u8);

impl ModeNfcAr {
    #[verifier::allow_in_spec]
    pub fn off() -> (val: Self)
        returns
            ModeNfcAr(0),
    {
        ModeNfcAr(0)
    }

    #[verifier::allow_in_spec]
    pub fn auto_rx() -> (val: Self)
        returns
            ModeNfcAr(1),
    {
        ModeNfcAr(1)
    }

    #[verifier::allow_in_spec]
    pub fn eof() -> (val: Self)
        returns
            ModeNfcAr(2),
    {
        ModeNfcAr(2)
    }

    #[verifier::allow_in_spec]
    pub fn rfu() -> (val: Self)
        returns
            ModeNfcAr(3),
    {
        ModeNfcAr(3)
    }
}

impl Value for ModeNfcAr {
    open spec fn bits(self) -> u8 {
        self.0
    }

    open spec fn of_bits(bits: u8) -> ModeNfcAr {
        ModeNfcAr(bits)
    }

    proof fn lemma_bits_of_bits(bits: u8) {
    }

    fn to_bits(self) -> u8 {
        self.0
    }

    fn from_bits(bits: u8) -> ModeNfcAr {
        ModeNfcAr(bits)
    }
}

/// What the field `gptc` of [`TimerEmvControl`] can hold.
#[derive(Copy, Clone, Eq, PartialEq, Structural)]
pub struct TimerEmvControlGptc(pub u8);

impl TimerEmvControlGptc {
    #[verifier::allow_in_spec]
    pub fn no_trigger() -> (val: Self)
        returns
            TimerEmvControlGptc(0),
    {
        TimerEmvControlGptc(0)
    }

    #[verifier::allow_in_spec]
    pub fn erx() -> (val: Self)
        returns
            TimerEmvControlGptc(1),
    {
        TimerEmvControlGptc(1)
    }

    #[verifier::allow_in_spec]
    pub fn srx() -> (val: Self)
        returns
            TimerEmvControlGptc(2),
    {
        TimerEmvControlGptc(2)
    }

    #[verifier::allow_in_spec]
    pub fn etx_nfc() -> (val: Self)
        returns
            TimerEmvControlGptc(3),
    {
        TimerEmvControlGptc(3)
    }
}

impl Value for TimerEmvControlGptc {
    open spec fn bits(self) -> u8 {
        self.0
    }

    open spec fn of_bits(bits: u8) -> TimerEmvControlGptc {
        TimerEmvControlGptc(bits)
    }

    proof fn lemma_bits_of_bits(bits: u8) {
    }

    fn to_bits(self) -> u8 {
        self.0
    }

    fn from_bits(bits: u8) -> TimerEmvControlGptc {
        TimerEmvControlGptc(bits)
    }
}

/// What the field `rxrate` of [`BitRate`] and its like can hold.
#[derive(Copy, Clone, Eq, PartialEq, Structural)]
pub struct BitRateE(pub u8);

impl BitRateE {
    #[verifier::allow_in_spec]
    pub fn _106() -> (val: Self)
        returns
            BitRateE(0),
    {
        BitRateE(0)
    }

    #[verifier::allow_in_spec]
    pub fn _212() -> (val: Self)
        returns
            BitRateE(1),
    {
        BitRateE(1)
    }

    #[verifier::allow_in_spec]
    pub fn _424() -> (val: Self)
        returns
            BitRateE(2),
    {
        BitRateE(2)
    }

    #[verifier::allow_in_spec]
    pub fn _848() -> (val: Self)
        returns
            BitRateE(3),
    {
        BitRateE(3)
    }
}

impl Value for BitRateE {
    open spec fn bits(self) -> u8 {
        self.0
    }

    open spec fn of_bits(bits: u8) -> BitRateE {
        BitRateE(bits)
    }

    proof fn lemma_bits_of_bits(bits: u8) {
    }

    fn to_bits(self) -> u8 {
        self.0
    }

    fn from_bits(bits: u8) -> BitRateE {
        BitRateE(bits)
    }
}

/// What the field `mpsv` of [`RegulatorControl`] can hold.
#[derive(Copy, Clone, Eq, PartialEq, Structural)]
pub struct RegulatorControlMpsv(pub u8);

impl RegulatorControlMpsv {
    #[verifier::allow_in_spec]
    pub fn vdd() -> (val: Self)
        returns
            RegulatorControlMpsv(0),
    {
        RegulatorControlMpsv(0)
    }

    #[verifier::allow_in_spec]
    pub fn vdd_a() -> (val: Self)
        returns
            RegulatorControlMpsv(1),
    {
        RegulatorControlMpsv(1)
    }

    #[verifier::allow_in_spec]
    pub fn vdd_d() -> (val: Self)
        returns
            RegulatorControlMpsv(2),
    {
        RegulatorControlMpsv(2)
    }

    #[verifier::allow_in_spec]
    pub fn vdd_rf() -> (val: Self)
        returns
            RegulatorControlMpsv(3),
    {
        RegulatorControlMpsv(3)
    }

    #[verifier::allow_in_spec]
    pub fn vdd_am() -> (val: Self)
        returns
            RegulatorControlMpsv(4),
    {
        RegulatorControlMpsv(4)
    }

    #[verifier::allow_in_spec]
    pub fn rfu() -> (val: Self)
        returns
            RegulatorControlMpsv(5),
    {
        RegulatorControlMpsv(5)
    }

    #[verifier::allow_in_spec]
    pub fn rfu1() -> (val: Self)
        returns
            RegulatorControlMpsv(6),
    {
        RegulatorControlMpsv(6)
    }

    #[verifier::allow_in_spec]
    pub fn rfu2() -> (val: Self)
        returns
            RegulatorControlMpsv(7),
    {
        RegulatorControlMpsv(7)
    }
}

impl Value for RegulatorControlMpsv {
    open spec fn bits(self) -> u8 {
        self.0
    }

    open spec fn of_bits(bits: u8) -> RegulatorControlMpsv {
        RegulatorControlMpsv(bits)
    }

    proof fn lemma_bits_of_bits(bits: u8) {
    }

    fn to_bits(self) -> u8 {
        self.0
    }

    fn from_bits(bits: u8) -> RegulatorControlMpsv {
        RegulatorControlMpsv(bits)
    }
}

/// What the field `lp` of [`RxConf1`] can hold.
#[derive(Copy, Clone, Eq, PartialEq, Structural)]
pub struct RxConf1Lp(pub u8);

impl RxConf1Lp {
    #[verifier::allow_in_spec]
    pub fn _1200khz() -> (val: Self)
        returns
            RxConf1Lp(0),
    {
        RxConf1Lp(0)
    }

    #[verifier::allow_in_spec]
    pub fn _600khz() -> (val: Self)
        returns
            RxConf1Lp(1),
    {
        RxConf1Lp(1)
    }

    #[verifier::allow_in_spec]
    pub fn _300khz() -> (val: Self)
        returns
            RxConf1Lp(2),
    {
        RxConf1Lp(2)
    }

    #[verifier::allow_in_spec]
    pub fn _2000khz() -> (val: Self)
        returns
            RxConf1Lp(4),
    {
        RxConf1Lp(4)
    }

    #[verifier::allow_in_spec]
    pub fn _7000khz() -> (val: Self)
        returns
            RxConf1Lp(5),
    {
        RxConf1Lp(5)
    }
}

impl Value for RxConf1Lp {
    open spec fn bits(self) -> u8 {
        self.0
    }

    open spec fn of_bits(bits: u8) -> RxConf1Lp {
        RxConf1Lp(bits)
    }

    proof fn lemma_bits_of_bits(bits: u8) {
    }

    fn to_bits(self) -> u8 {
        self.0
    }

    fn from_bits(bits: u8) -> RxConf1Lp {
        RxConf1Lp(bits)
    }
}

/// What the field `d_res` of [`TxDriver`] can hold.
#[derive(Copy, Clone, Eq, PartialEq, Structural)]
pub struct TxDriverDRes(pub u8);

impl TxDriverDRes {
    #[verifier::allow_in_spec]
    pub fn _1_00() -> (val: Self)
        returns
            TxDriverDRes(0),
    {
        TxDriverDRes(0)
    }

    #[verifier::allow_in_spec]
    pub fn _1_19() -> (val: Self)
        returns
            TxDriverDRes(1),
    {
        TxDriverDRes(1)
    }

    #[verifier::allow_in_spec]
    pub fn _1_40() -> (val: Self)
        returns
            TxDriverDRes(2),
    {
        TxDriverDRes(2)
    }

    #[verifier::allow_in_spec]
    pub fn _1_61() -> (val: Self)
        returns
            TxDriverDRes(3),
    {
        TxDriverDRes(3)
    }

    #[verifier::allow_in_spec]
    pub fn _1_79() -> (val: Self)
        returns
            TxDriverDRes(4),
    {
        TxDriverDRes(4)
    }

    #[verifier::allow_in_spec]
    pub fn _2_02() -> (val: Self)
        returns
            TxDriverDRes(5),
    {
        TxDriverDRes(5)
    }

    #[verifier::allow_in_spec]
    pub fn _2_49() -> (val: Self)
        returns
            TxDriverDRes(6),
    {
        TxDriverDRes(6)
    }

    #[verifier::allow_in_spec]
    pub fn _2_94() -> (val: Self)
        returns
            TxDriverDRes(7),
    {
        TxDriverDRes(7)
    }

    #[verifier::allow_in_spec]
    pub fn _3_41() -> (val: Self)
        returns
            TxDriverDRes(8),
    {
        TxDriverDRes(8)
    }

    #[verifier::allow_in_spec]
    pub fn _4_06() -> (val: Self)
        returns
            TxDriverDRes(9),
    {
        TxDriverDRes(9)
    }

    #[verifier::allow_in_spec]
    pub fn _5_95() -> (val: Self)
        returns
            TxDriverDRes(0x0a),
    {
        TxDriverDRes(0x0a)
    }

    #[verifier::allow_in_spec]
    pub fn _8_26() -> (val: Self)
        returns
            TxDriverDRes(0x0b),
    {
        TxDriverDRes(0x0b)
    }

    #[verifier::allow_in_spec]
    pub fn _17_10() -> (val: Self)
        returns
            TxDriverDRes(0x0c),
    {
        TxDriverDRes(0x0c)
    }

    #[verifier::allow_in_spec]
    pub fn _36_60() -> (val: Self)
        returns
            TxDriverDRes(0x0d),
    {
        TxDriverDRes(0x0d)
    }

    #[verifier::allow_in_spec]
    pub fn _51_20() -> (val: Self)
        returns
            TxDriverDRes(0x0e),
    {
        TxDriverDRes(0x0e)
    }

    #[verifier::allow_in_spec]
    pub fn _high_z() -> (val: Self)
        returns
            TxDriverDRes(0x0f),
    {
        TxDriverDRes(0x0f)
    }
}

impl Value for TxDriverDRes {
    open spec fn bits(self) -> u8 {
        self.0
    }

    open spec fn of_bits(bits: u8) -> TxDriverDRes {
        TxDriverDRes(bits)
    }

    proof fn lemma_bits_of_bits(bits: u8) {
    }

    fn to_bits(self) -> u8 {
        self.0
    }

    fn from_bits(bits: u8) -> TxDriverDRes {
        TxDriverDRes(bits)
    }
}

/// What the field `am_mod` of [`TxDriver`] can hold.
#[derive(Copy, Clone, Eq, PartialEq, Structural)]
pub struct TxDriverAmMod(pub u8);

impl TxDriverAmMod {
    #[verifier::allow_in_spec]
    pub fn _5percent() -> (val: Self)
        returns
            TxDriverAmMod(0),
    {
        TxDriverAmMod(0)
    }

    #[verifier::allow_in_spec]
    pub fn _6percent() -> (val: Self)
        returns
            TxDriverAmMod(1),
    {
        TxDriverAmMod(1)
    }

    #[verifier::allow_in_spec]
    pub fn _7percent() -> (val: Self)
        returns
            TxDriverAmMod(2),
    {
        TxDriverAmMod(2)
    }

    #[verifier::allow_in_spec]
    pub fn _8percent() -> (val: Self)
        returns
            TxDriverAmMod(3),
    {
        TxDriverAmMod(3)
    }

    #[verifier::allow_in_spec]
    pub fn _9percent() -> (val: Self)
        returns
            TxDriverAmMod(4),
    {
        TxDriverAmMod(4)
    }

    #[verifier::allow_in_spec]
    pub fn _10percent() -> (val: Self)
        returns
            TxDriverAmMod(5),
    {
        TxDriverAmMod(5)
    }

    #[verifier::allow_in_spec]
    pub fn _11percent() -> (val: Self)
        returns
            TxDriverAmMod(6),
    {
        TxDriverAmMod(6)
    }

    #[verifier::allow_in_spec]
    pub fn _12percent() -> (val: Self)
        returns
            TxDriverAmMod(7),
    {
        TxDriverAmMod(7)
    }

    #[verifier::allow_in_spec]
    pub fn _13percent() -> (val: Self)
        returns
            TxDriverAmMod(8),
    {
        TxDriverAmMod(8)
    }

    #[verifier::allow_in_spec]
    pub fn _14percent() -> (val: Self)
        returns
            TxDriverAmMod(9),
    {
        TxDriverAmMod(9)
    }

    #[verifier::allow_in_spec]
    pub fn _15percent() -> (val: Self)
        returns
            TxDriverAmMod(0x0a),
    {
        TxDriverAmMod(0x0a)
    }

    #[verifier::allow_in_spec]
    pub fn _17percent() -> (val: Self)
        returns
            TxDriverAmMod(0x0b),
    {
        TxDriverAmMod(0x0b)
    }

    #[verifier::allow_in_spec]
    pub fn _19percent() -> (val: Self)
        returns
            TxDriverAmMod(0x0c),
    {
        TxDriverAmMod(0x0c)
    }

    #[verifier::allow_in_spec]
    pub fn _22percent() -> (val: Self)
        returns
            TxDriverAmMod(0x0d),
    {
        TxDriverAmMod(0x0d)
    }

    #[verifier::allow_in_spec]
    pub fn _26percent() -> (val: Self)
        returns
            TxDriverAmMod(0x0e),
    {
        TxDriverAmMod(0x0e)
    }

    #[verifier::allow_in_spec]
    pub fn _40percent() -> (val: Self)
        returns
            TxDriverAmMod(0x0f),
    {
        TxDriverAmMod(0x0f)
    }
}

impl Value for TxDriverAmMod {
    open spec fn bits(self) -> u8 {
        self.0
    }

    open spec fn of_bits(bits: u8) -> TxDriverAmMod {
        TxDriverAmMod(bits)
    }

    proof fn lemma_bits_of_bits(bits: u8) {
    }

    fn to_bits(self) -> u8 {
        self.0
    }

    fn from_bits(bits: u8) -> TxDriverAmMod {
        TxDriverAmMod(bits)
    }
}

/// What the field `nfc_id` of [`Aux`] can hold.
#[derive(Copy, Clone, Eq, PartialEq, Structural)]
pub struct AuxNfcId(pub u8);

impl AuxNfcId {
    #[verifier::allow_in_spec]
    pub fn _4bytes() -> (val: Self)
        returns
            AuxNfcId(0),
    {
        AuxNfcId(0)
    }

    #[verifier::allow_in_spec]
    pub fn _7bytes() -> (val: Self)
        returns
            AuxNfcId(1),
    {
        AuxNfcId(1)
    }
}

impl Value for AuxNfcId {
    open spec fn bits(self) -> u8 {
        self.0
    }

    open spec fn of_bits(bits: u8) -> AuxNfcId {
        AuxNfcId(bits)
    }

    proof fn lemma_bits_of_bits(bits: u8) {
    }

    fn to_bits(self) -> u8 {
        self.0
    }

    fn from_bits(bits: u8) -> AuxNfcId {
        AuxNfcId(bits)
    }
}

/// What the field `trg` of [`FieldThresholdDeactv`] can hold.
#[derive(Copy, Clone, Eq, PartialEq, Structural)]
pub struct FieldThresholdDeactvTrg(pub u8);

impl FieldThresholdDeactvTrg {
    #[verifier::allow_in_spec]
    pub fn _75mv() -> (val: Self)
        returns
            FieldThresholdDeactvTrg(0),
    {
        FieldThresholdDeactvTrg(0)
    }

    #[verifier::allow_in_spec]
    pub fn _105mv() -> (val: Self)
        returns
            FieldThresholdDeactvTrg(1),
    {
        FieldThresholdDeactvTrg(1)
    }

    #[verifier::allow_in_spec]
    pub fn _150mv() -> (val: Self)
        returns
            FieldThresholdDeactvTrg(2),
    {
        FieldThresholdDeactvTrg(2)
    }

    #[verifier::allow_in_spec]
    pub fn _205mv() -> (val: Self)
        returns
            FieldThresholdDeactvTrg(3),
    {
        FieldThresholdDeactvTrg(3)
    }

    #[verifier::allow_in_spec]
    pub fn _290mv() -> (val: Self)
        returns
            FieldThresholdDeactvTrg(4),
    {
        FieldThresholdDeactvTrg(4)
    }

    #[verifier::allow_in_spec]
    pub fn _400mv() -> (val: Self)
        returns
            FieldThresholdDeactvTrg(5),
    {
        FieldThresholdDeactvTrg(5)
    }

    #[verifier::allow_in_spec]
    pub fn _560mv() -> (val: Self)
        returns
            FieldThresholdDeactvTrg(6),
    {
        FieldThresholdDeactvTrg(6)
    }

    #[verifier::allow_in_spec]
    pub fn _800mv() -> (val: Self)
        returns
            FieldThresholdDeactvTrg(7),
    {
        FieldThresholdDeactvTrg(7)
    }
}

impl Value for FieldThresholdDeactvTrg {
    open spec fn bits(self) -> u8 {
        self.0
    }

    open spec fn of_bits(bits: u8) -> FieldThresholdDeactvTrg {
        FieldThresholdDeactvTrg(bits)
    }

    proof fn lemma_bits_of_bits(bits: u8) {
    }

    fn to_bits(self) -> u8 {
        self.0
    }

    fn from_bits(bits: u8) -> FieldThresholdDeactvTrg {
        FieldThresholdDeactvTrg(bits)
    }
}

/// What the field `scf` of [`StreamMode`] can hold.
#[derive(Copy, Clone, Eq, PartialEq, Structural)]
pub struct StreamModeScf(pub u8);

impl StreamModeScf {
    #[verifier::allow_in_spec]
    pub fn bpsk848() -> (val: Self)
        returns
            StreamModeScf(0),
    {
        StreamModeScf(0)
    }

    #[verifier::allow_in_spec]
    pub fn sc212() -> (val: Self)
        returns
            StreamModeScf(0),
    {
        StreamModeScf(0)
    }

    #[verifier::allow_in_spec]
    pub fn bpsk1695() -> (val: Self)
        returns
            StreamModeScf(1),
    {
        StreamModeScf(1)
    }

    #[verifier::allow_in_spec]
    pub fn sc424() -> (val: Self)
        returns
            StreamModeScf(1),
    {
        StreamModeScf(1)
    }

    #[verifier::allow_in_spec]
    pub fn bpsk3390() -> (val: Self)
        returns
            StreamModeScf(2),
    {
        StreamModeScf(2)
    }

    #[verifier::allow_in_spec]
    pub fn sc848() -> (val: Self)
        returns
            StreamModeScf(2),
    {
        StreamModeScf(2)
    }

    #[verifier::allow_in_spec]
    pub fn bpsk106() -> (val: Self)
        returns
            StreamModeScf(3),
    {
        StreamModeScf(3)
    }

    #[verifier::allow_in_spec]
    pub fn sc1695() -> (val: Self)
        returns
            StreamModeScf(3),
    {
        StreamModeScf(3)
    }
}

impl Value for StreamModeScf {
    open spec fn bits(self) -> u8 {
        self.0
    }

    open spec fn of_bits(bits: u8) -> StreamModeScf {
        StreamModeScf(bits)
    }

    proof fn lemma_bits_of_bits(bits: u8) {
    }

    fn to_bits(self) -> u8 {
        self.0
    }

    fn from_bits(bits: u8) -> StreamModeScf {
        StreamModeScf(bits)
    }
}

/// What the field `om` of [`Mode`] can hold.
#[derive(Copy, Clone, Eq, PartialEq, Structural)]
pub struct ModeOm(pub u8);

impl ModeOm {
    #[verifier::allow_in_spec]
    pub fn ini_nfc() -> (val: Self)
        returns
            ModeOm(0),
    {
        ModeOm(0)
    }

    #[verifier::allow_in_spec]
    pub fn ini_iso14443a() -> (val: Self)
        returns
            ModeOm(1),
    {
        ModeOm(1)
    }

    #[verifier::allow_in_spec]
    pub fn targ_nfca() -> (val: Self)
        returns
            ModeOm(1),
    {
        ModeOm(1)
    }

    #[verifier::allow_in_spec]
    pub fn ini_iso14443b() -> (val: Self)
        returns
            ModeOm(2),
    {
        ModeOm(2)
    }

    #[verifier::allow_in_spec]
    pub fn targ_nfcb() -> (val: Self)
        returns
            ModeOm(2),
    {
        ModeOm(2)
    }

    #[verifier::allow_in_spec]
    pub fn ini_felica() -> (val: Self)
        returns
            ModeOm(3),
    {
        ModeOm(3)
    }

    #[verifier::allow_in_spec]
    pub fn ini_topaz() -> (val: Self)
        returns
            ModeOm(4),
    {
        ModeOm(4)
    }

    #[verifier::allow_in_spec]
    pub fn targ_nfcf() -> (val: Self)
        returns
            ModeOm(4),
    {
        ModeOm(4)
    }

    #[verifier::allow_in_spec]
    pub fn targ_nfcip() -> (val: Self)
        returns
            ModeOm(7),
    {
        ModeOm(7)
    }

    #[verifier::allow_in_spec]
    pub fn ini_subcarrier_stream() -> (val: Self)
        returns
            ModeOm(0x0e),
    {
        ModeOm(0x0e)
    }

    #[verifier::allow_in_spec]
    pub fn ini_bpsk_stream() -> (val: Self)
        returns
            ModeOm(0x0f),
    {
        ModeOm(0x0f)
    }
}

impl Value for ModeOm {
    open spec fn bits(self) -> u8 {
        self.0
    }

    open spec fn of_bits(bits: u8) -> ModeOm {
        ModeOm(bits)
    }

    proof fn lemma_bits_of_bits(bits: u8) {
    }

    fn to_bits(self) -> u8 {
        self.0
    }

    fn from_bits(bits: u8) -> ModeOm {
        ModeOm(bits)
    }
}

/// What the field `trg` of [`FieldThresholdActv`] can hold.
#[derive(Copy, Clone, Eq, PartialEq, Structural)]
pub struct FieldThresholdActvTrg(pub u8);

impl FieldThresholdActvTrg {
    #[verifier::allow_in_spec]
    pub fn _75mv() -> (val: Self)
        returns
            FieldThresholdActvTrg(0),
    {
        FieldThresholdActvTrg(0)
    }

    #[verifier::allow_in_spec]
    pub fn _105mv() -> (val: Self)
        returns
            FieldThresholdActvTrg(1),
    {
        FieldThresholdActvTrg(1)
    }

    #[verifier::allow_in_spec]
    pub fn _150mv() -> (val: Self)
        returns
            FieldThresholdActvTrg(2),
    {
        FieldThresholdActvTrg(2)
    }

    #[verifier::allow_in_spec]
    pub fn _205mv() -> (val: Self)
        returns
            FieldThresholdActvTrg(3),
    {
        FieldThresholdActvTrg(3)
    }

    #[verifier::allow_in_spec]
    pub fn _290mv() -> (val: Self)
        returns
            FieldThresholdActvTrg(4),
    {
        FieldThresholdActvTrg(4)
    }

    #[verifier::allow_in_spec]
    pub fn _400mv() -> (val: Self)
        returns
            FieldThresholdActvTrg(5),
    {
        FieldThresholdActvTrg(5)
    }

    #[verifier::allow_in_spec]
    pub fn _560mv() -> (val: Self)
        returns
            FieldThresholdActvTrg(6),
    {
        FieldThresholdActvTrg(6)
    }

    #[verifier::allow_in_spec]
    pub fn _800mv() -> (val: Self)
        returns
            FieldThresholdActvTrg(7),
    {
        FieldThresholdActvTrg(7)
    }
}

impl Value for FieldThresholdActvTrg {
    open spec fn bits(self) -> u8 {
        self.0
    }

    open spec fn of_bits(bits: u8) -> FieldThresholdActvTrg {
        FieldThresholdActvTrg(bits)
    }

    proof fn lemma_bits_of_bits(bits: u8) {
    }

    fn to_bits(self) -> u8 {
        self.0
    }

    fn from_bits(bits: u8) -> FieldThresholdActvTrg {
        FieldThresholdActvTrg(bits)
    }
}

/// What the field `mrt_step` of [`TimerEmvControl`] can hold.
#[derive(Copy, Clone, Eq, PartialEq, Structural)]
pub struct TimerEmvControlMrtStep(pub u8);

impl TimerEmvControlMrtStep {
    #[verifier::allow_in_spec]
    pub fn _64() -> (val: Self)
        returns
            TimerEmvControlMrtStep(0),
    {
        TimerEmvControlMrtStep(0)
    }

    #[verifier::allow_in_spec]
    pub fn _512() -> (val: Self)
        returns
            TimerEmvControlMrtStep(1),
    {
        TimerEmvControlMrtStep(1)
    }
}

impl Value for TimerEmvControlMrtStep {
    open spec fn bits(self) -> u8 {
        self.0
    }

    open spec fn of_bits(bits: u8) -> TimerEmvControlMrtStep {
        TimerEmvControlMrtStep(bits)
    }

    proof fn lemma_bits_of_bits(bits: u8) {
    }

    fn to_bits(self) -> u8 {
        self.0
    }

    fn from_bits(bits: u8) -> TimerEmvControlMrtStep {
        TimerEmvControlMrtStep(bits)
    }
}

/// What the field `tr1` of [`Iso14443b2`] can hold.
#[derive(Copy, Clone, Eq, PartialEq, Structural)]
pub struct Iso14443b2Tr1(pub u8);

impl Iso14443b2Tr1 {
    #[verifier::allow_in_spec]
    pub fn _80fs80fs() -> (val: Self)
        returns
            Iso14443b2Tr1(0),
    {
        Iso14443b2Tr1(0)
    }

    #[verifier::allow_in_spec]
    pub fn _64fs32fs() -> (val: Self)
        returns
            Iso14443b2Tr1(1),
    {
        Iso14443b2Tr1(1)
    }
}

impl Value for Iso14443b2Tr1 {
    open spec fn bits(self) -> u8 {
        self.0
    }

    open spec fn of_bits(bits: u8) -> Iso14443b2Tr1 {
        Iso14443b2Tr1(bits)
    }

    proof fn lemma_bits_of_bits(bits: u8) {
    }

    fn to_bits(self) -> u8 {
        self.0
    }

    fn from_bits(bits: u8) -> Iso14443b2Tr1 {
        Iso14443b2Tr1(bits)
    }
}

/// What the field `d_tim` of [`TxDriverStatus`] can hold.
#[derive(Copy, Clone, Eq, PartialEq, Structural)]
pub struct TxDriverStatusDTim(pub u8);

impl TxDriverStatusDTim {
    #[verifier::allow_in_spec]
    pub fn slow() -> (val: Self)
        returns
            TxDriverStatusDTim(0),
    {
        TxDriverStatusDTim(0)
    }

    #[verifier::allow_in_spec]
    pub fn medium_slow() -> (val: Self)
        returns
            TxDriverStatusDTim(1),
    {
        TxDriverStatusDTim(1)
    }

    #[verifier::allow_in_spec]
    pub fn nominal() -> (val: Self)
        returns
            TxDriverStatusDTim(2),
    {
        TxDriverStatusDTim(2)
    }

    #[verifier::allow_in_spec]
    pub fn medium_fast() -> (val: Self)
        returns
            TxDriverStatusDTim(3),
    {
        TxDriverStatusDTim(3)
    }

    #[verifier::allow_in_spec]
    pub fn fast() -> (val: Self)
        returns
            TxDriverStatusDTim(4),
    {
        TxDriverStatusDTim(4)
    }
}

impl Value for TxDriverStatusDTim {
    open spec fn bits(self) -> u8 {
        self.0
    }

    open spec fn of_bits(bits: u8) -> TxDriverStatusDTim {
        TxDriverStatusDTim(bits)
    }

    proof fn lemma_bits_of_bits(bits: u8) {
    }

    fn to_bits(self) -> u8 {
        self.0
    }

    fn from_bits(bits: u8) -> TxDriverStatusDTim {
        TxDriverStatusDTim(bits)
    }
}

} // verus!
