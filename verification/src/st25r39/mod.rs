//! Driver for the ST25R39xx family of front-ends.
//!
//! The driver owns the register bus and keeps a copy of the interrupt
//! requests that it has read from the chip. What needs a pin or a clock is
//! left to the caller: where the chip takes time, the driver starts the work
//! and offers a function that says whether it is done, and the caller waits
//! and gives up when it has waited too long.
use vstd::prelude::*;
use crate::record;
use interface::Op;
use regs::{Regs, Value};

pub mod aat;
pub mod interface;
pub mod iso14443a;
pub mod regs;
pub mod wakeup;

pub use aat::AatConfig;
pub use interface::Interface;
pub use wakeup::{WakeupConfig, WakeupMethodConfig, WakeupPeriod, WakeupReference};

verus! {

/// The time after which a wait for the chip is given up, in milliseconds.
pub const DEFAULT_TIMEOUT_MS: u64 = 500;

/// The number of bytes that the FIFO holds.
pub const FIFO_SIZE: usize = 512;

/// What can go wrong when talking to the chip.
#[derive(Debug, Clone, Copy, PartialEq, Eq)]
pub enum Error<T> {
    /// The register bus failed.
    Interface(T),
    /// The chip did not raise the awaited interrupt in time.
    Timeout,
}

/// The direct commands of the chip.
#[derive(Debug, Clone, Copy, PartialEq, Eq, Structural)]
pub enum Command {
    /// Puts the chip in default state (same as after power-up).
    SetDefault,
    /// Stops all activities and clears FIFO.
    Stop,
    /// Transmit with CRC.
    TransmitWithCrc,
    /// Transmit without CRC.
    TransmitWithoutCrc,
    /// Transmit REQA.
    TransmitReqa,
    /// Transmit WUPA.
    TransmitWupa,
    /// NFC transmit with Initial RF Collision Avoidance.
    InitialRfCollision,
    /// NFC transmit with Response RF Collision Avoidance.
    ResponseRfCollisionN,
    /// Passive target logic to Sense/Idle state.
    GotoSense,
    /// Passive target logic to Sleep/Halt state.
    GotoSleep,
    /// Mask receive data.
    MaskReceiveData,
    /// Unmask receive data.
    UnmaskReceiveData,
    /// AM Modulation state change.
    AmModStateChange,
    /// Measure singal amplitude on RFI inputs.
    MeasureAmplitude,
    /// Reset RX Gain.
    ResetRxgain,
    /// Adjust regulators.
    AdjustRegulators,
    /// Starts the sequence to adjust the driver timing.
    CalibrateDriverTiming,
    /// Measure phase between RFO and RFI signal.
    MeasurePhase,
    /// Clear RSSI bits and restart the measurement.
    ClearRssi,
    /// Clears FIFO, Collision and IRQ status.
    ClearFifo,
    /// Transparent mode.
    TransparentMode,
    /// Calibrate the capacitive sensor.
    CalibrateCSensor,
    /// Measure capacitance.
    MeasureCapacitance,
    /// Measure power supply voltage.
    MeasureVdd,
    /// Start the general purpose timer.
    StartGpTimer,
    /// Start the wake-up timer.
    StartWupTimer,
    /// Start the mask-receive timer.
    StartMaskReceiveTimer,
    /// Start the no-response timer.
    StartNoResponseTimer,
    /// Start PPon2 timer.
    StartPpon2Timer,
    /// Stop No Response Timer.
    StopNrt,
    /// Enable R/W access to the test registers.
    SpaceBAccess,
    /// Enable R/W access to the test registers.
    TestAccess,
}

impl Command {
    /// The byte that stands for the command on the bus.
    pub open spec fn code_of(self) -> u8 {
        match self {
            Command::SetDefault => 0xc1,
            Command::Stop => 0xc2,
            Command::TransmitWithCrc => 0xc4,
            Command::TransmitWithoutCrc => 0xc5,
            Command::TransmitReqa => 0xc6,
            Command::TransmitWupa => 0xc7,
            Command::InitialRfCollision => 0xc8,
            Command::ResponseRfCollisionN => 0xc9,
            Command::GotoSense => 0xcd,
            Command::GotoSleep => 0xce,
            Command::MaskReceiveData => 0xd0,
            Command::UnmaskReceiveData => 0xd1,
            Command::AmModStateChange => 0xd2,
            Command::MeasureAmplitude => 0xd3,
            Command::ResetRxgain => 0xd5,
            Command::AdjustRegulators => 0xd6,
            Command::CalibrateDriverTiming => 0xd8,
            Command::MeasurePhase => 0xd9,
            Command::ClearRssi => 0xda,
            Command::ClearFifo => 0xdb,
            Command::TransparentMode => 0xdc,
            Command::CalibrateCSensor => 0xdd,
            Command::MeasureCapacitance => 0xde,
            Command::MeasureVdd => 0xdf,
            Command::StartGpTimer => 0xe0,
            Command::StartWupTimer => 0xe1,
            Command::StartMaskReceiveTimer => 0xe2,
            Command::StartNoResponseTimer => 0xe3,
            Command::StartPpon2Timer => 0xe4,
            Command::StopNrt => 0xe8,
            Command::SpaceBAccess => 0xfb,
            Command::TestAccess => 0xfc,
        }
    }

    pub fn code(self) -> (code: u8)
        ensures
            code == self.code_of(),
            code >= 0xC0,
    {
        match self {
            Command::SetDefault => 0xc1,
            Command::Stop => 0xc2,
            Command::TransmitWithCrc => 0xc4,
            Command::TransmitWithoutCrc => 0xc5,
            Command::TransmitReqa => 0xc6,
            Command::TransmitWupa => 0xc7,
            Command::InitialRfCollision => 0xc8,
            Command::ResponseRfCollisionN => 0xc9,
            Command::GotoSense => 0xcd,
            Command::GotoSleep => 0xce,
            Command::MaskReceiveData => 0xd0,
            Command::UnmaskReceiveData => 0xd1,
            Command::AmModStateChange => 0xd2,
            Command::MeasureAmplitude => 0xd3,
            Command::ResetRxgain => 0xd5,
            Command::AdjustRegulators => 0xd6,
            Command::CalibrateDriverTiming => 0xd8,
            Command::MeasurePhase => 0xd9,
            Command::ClearRssi => 0xda,
            Command::ClearFifo => 0xdb,
            Command::TransparentMode => 0xdc,
            Command::CalibrateCSensor => 0xdd,
            Command::MeasureCapacitance => 0xde,
            Command::MeasureVdd => 0xdf,
            Command::StartGpTimer => 0xe0,
            Command::StartWupTimer => 0xe1,
            Command::StartMaskReceiveTimer => 0xe2,
            Command::StartNoResponseTimer => 0xe3,
            Command::StartPpon2Timer => 0xe4,
            Command::StopNrt => 0xe8,
            Command::SpaceBAccess => 0xfb,
            Command::TestAccess => 0xfc,
        }
    }
}

/// The interrupt requests of the chip, in the order of their bits in the four
/// status registers.
#[derive(Debug, Clone, Copy, PartialEq, Eq, Structural)]
pub enum Interrupt {
    /// RFU interrupt.
    Rfu,
    /// Automatic reception restart interrupt.
    RxRest,
    /// Bit collision interrupt.
    Col,
    /// End of transmission interrupt.
    Txe,
    /// End of receive interrupt.
    Rxe,
    /// Start of receive interrupt.
    Rxs,
    /// FIFO water level interrupt.
    Fwl,
    /// Oscillator stable interrupt.
    Osc,
    /// Initiator bit rate recognised interrupt.
    Nfct,
    /// Minimum guard time expired interrupt.
    Cat,
    /// Collision during RF collision avoidance interrupt.
    Cac,
    /// External field off interrupt.
    Eof,
    /// External field on interrupt.
    Eon,
    /// General purpose timer expired interrupt.
    Gpe,
    /// No-response timer expired interrupt.
    Nre,
    /// Termination of direct command interrupt.
    Dct,
    /// Wake-up due to capacitance measurement.
    Wcap,
    /// Wake-up due to phase interrupt.
    Wph,
    /// Wake-up due to amplitude interrupt.
    Wam,
    /// Wake-up interrupt.
    Wt,
    /// Hard framing error interrupt.
    Err1,
    /// Soft framing error interrupt.
    Err2,
    /// Parity error interrupt.
    Par,
    /// CRC error interrupt.
    Crc,
    /// 106kb/s Passive target state interrupt: Active.
    WuA,
    /// 106kb/s Passive target state interrupt: Active*.
    WuAX,
    /// RFU2 interrupt.
    Rfu2,
    /// 212/424b/s Passive target interrupt: Active.
    WuF,
    /// RXE with an automatic response interrupt.
    RxePta,
    /// Anticollision done and Field On interrupt.
    Apon,
    /// Passive target slot number water level interrupt.
    SlWl,
    /// PPON2 Field on waiting Timer interrupt.
    Ppon2,
}

impl Interrupt {
    /// The place of the request in the 32 bits of the status registers.
    pub open spec fn bit_of(self) -> u8 {
        match self {
            Interrupt::Rfu => 0,
            Interrupt::RxRest => 1,
            Interrupt::Col => 2,
            Interrupt::Txe => 3,
            Interrupt::Rxe => 4,
            Interrupt::Rxs => 5,
            Interrupt::Fwl => 6,
            Interrupt::Osc => 7,
            Interrupt::Nfct => 8,
            Interrupt::Cat => 9,
            Interrupt::Cac => 10,
            Interrupt::Eof => 11,
            Interrupt::Eon => 12,
            Interrupt::Gpe => 13,
            Interrupt::Nre => 14,
            Interrupt::Dct => 15,
            Interrupt::Wcap => 16,
            Interrupt::Wph => 17,
            Interrupt::Wam => 18,
            Interrupt::Wt => 19,
            Interrupt::Err1 => 20,
            Interrupt::Err2 => 21,
            Interrupt::Par => 22,
            Interrupt::Crc => 23,
            Interrupt::WuA => 24,
            Interrupt::WuAX => 25,
            Interrupt::Rfu2 => 26,
            Interrupt::WuF => 27,
            Interrupt::RxePta => 28,
            Interrupt::Apon => 29,
            Interrupt::SlWl => 30,
            Interrupt::Ppon2 => 31,
        }
    }

    pub fn bit(self) -> (bit: u8)
        ensures
            bit == self.bit_of(),
            bit < 32,
    {
        match self {
            Interrupt::Rfu => 0,
            Interrupt::RxRest => 1,
            Interrupt::Col => 2,
            Interrupt::Txe => 3,
            Interrupt::Rxe => 4,
            Interrupt::Rxs => 5,
            Interrupt::Fwl => 6,
            Interrupt::Osc => 7,
            Interrupt::Nfct => 8,
            Interrupt::Cat => 9,
            Interrupt::Cac => 10,
            Interrupt::Eof => 11,
            Interrupt::Eon => 12,
            Interrupt::Gpe => 13,
            Interrupt::Nre => 14,
            Interrupt::Dct => 15,
            Interrupt::Wcap => 16,
            Interrupt::Wph => 17,
            Interrupt::Wam => 18,
            Interrupt::Wt => 19,
            Interrupt::Err1 => 20,
            Interrupt::Err2 => 21,
            Interrupt::Par => 22,
            Interrupt::Crc => 23,
            Interrupt::WuA => 24,
            Interrupt::WuAX => 25,
            Interrupt::Rfu2 => 26,
            Interrupt::WuF => 27,
            Interrupt::RxePta => 28,
            Interrupt::Apon => 29,
            Interrupt::SlWl => 30,
            Interrupt::Ppon2 => 31,
        }
    }
}

/// Why the field could not be switched on.
#[derive(Debug, Clone, Copy, PartialEq, Eq)]
pub enum FieldOnError<T> {
    /// Another device has its field on, so this one must stay off.
    FieldCollision,
    /// The register bus failed.
    Interface(T),
    /// The chip did not raise the awaited interrupt in time.
    Timeout,
}

impl<T> From<Error<T>> for FieldOnError<T> {
    fn from(val: Error<T>) -> (res: Self) {
        match val {
            Error::Interface(e) => FieldOnError::Interface(e),
            Error::Timeout => FieldOnError::Timeout,
        }
    }
}

impl<T> vstd::std_specs::convert::FromSpecImpl<Error<T>> for FieldOnError<T> {
    open spec fn obeys_from_spec() -> bool {
        true
    }

    open spec fn from_spec(val: Error<T>) -> Self {
        match val {
            Error::Interface(e) => FieldOnError::Interface(e),
            Error::Timeout => FieldOnError::Timeout,
        }
    }
}

/// Why the chip could not be set up.
#[derive(Debug, Clone, Copy, PartialEq, Eq)]
pub enum InitError<T> {
    /// The register bus failed.
    Interface(T),
    /// The chip did not raise the awaited interrupt in time.
    Timeout,
    /// The chip answers with the identity of another type of chip: the byte
    /// of its identity register.
    UnknownChip(u8),
}

impl<T> From<Error<T>> for InitError<T> {
    fn from(val: Error<T>) -> (res: Self) {
        match val {
            Error::Interface(e) => InitError::Interface(e),
            Error::Timeout => InitError::Timeout,
        }
    }
}

impl<T> vstd::std_specs::convert::FromSpecImpl<Error<T>> for InitError<T> {
    open spec fn obeys_from_spec() -> bool {
        true
    }

    open spec fn from_spec(val: Error<T>) -> Self {
        match val {
            Error::Interface(e) => InitError::Interface(e),
            Error::Timeout => InitError::Timeout,
        }
    }
}

/// What the chip is set up for.
#[derive(PartialEq, Eq, Clone, Copy, Debug, Structural)]
pub enum Mode {
    /// Everything is switched off.
    Off,
    /// The oscillator runs.
    On,
    /// The chip sleeps and watches for cards.
    Wakeup,
}

/// The transfer that writes `val` to the register at `reg`.
pub open spec fn wrote<T: Value>(reg: u8, val: T) -> Op {
    Op::Write { reg, val: val.bits() }
}

/// The transfer that reads `val` from the register at `reg`.
pub open spec fn read<T: Value>(reg: u8, val: T) -> Op {
    Op::Read { reg, val: val.bits() }
}

/// The transfer that sends the direct command `cmd`.
pub open spec fn sent(cmd: Command) -> Op {
    Op::Command { cmd: cmd.code_of() }
}

/// Whether `irq` is among the requests `irqs`.
pub open spec fn requested(irqs: u32, irq: Interrupt) -> bool {
    irqs & (1u32 << (irq.bit_of() as u32)) != 0
}

/// The requests `irqs` and those that the four status registers hold.
pub open spec fn merged_irqs(irqs: u32, status: (u8, u8, u8, u8)) -> u32 {
    irqs | (status.0 as u32) | ((status.1 as u32) << 8) | ((status.2 as u32) << 16) | ((
    status.3 as u32) << 24)
}

/// Reading the status registers takes no request away.
pub proof fn lemma_merged_irqs_keep(irqs: u32, status: (u8, u8, u8, u8), irq: Interrupt)
    requires
        requested(irqs, irq),
    ensures
        requested(merged_irqs(irqs, status), irq),
{
    let bit = irq.bit_of() as u32;
    let a = status.0 as u32;
    let b = status.1 as u32;
    let c = status.2 as u32;
    let d = status.3 as u32;
    assert(irqs & (1u32 << bit) != 0 ==> (irqs | a | (b << 8) | (c << 16) | (d << 24)) & (1u32
        << bit) != 0) by (bit_vector);
}

/// The transfers that read the four status registers, behind `before`.
/// Reading them clears them in the chip.
pub open spec fn irq_read_ops(before: Seq<Op>, status: (u8, u8, u8, u8)) -> Seq<Op> {
    before.push(read(regs::IRQ_MAIN, status.0)).push(
        read((regs::IRQ_MAIN + 1) as u8, status.1),
    ).push(read((regs::IRQ_MAIN + 2) as u8, status.2)).push(
        read((regs::IRQ_MAIN + 3) as u8, status.3),
    )
}

/// The transfers that write the four mask registers, behind `before`. A
/// request whose bit is set in the mask does not reach the pin.
pub open spec fn irq_mask_ops(before: Seq<Op>, mask: u32) -> Seq<Op> {
    before.push(wrote(regs::IRQ_MASK, (mask & 0xFF) as u8)).push(
        wrote((regs::IRQ_MASK + 1) as u8, ((mask >> 8) & 0xFF) as u8),
    ).push(wrote((regs::IRQ_MASK + 2) as u8, ((mask >> 16) & 0xFF) as u8)).push(
        wrote((regs::IRQ_MASK + 3) as u8, ((mask >> 24) & 0xFF) as u8),
    )
}

/// The supply voltage in millivolts for a reading of the converter, whose
/// step is 23.4 mV, rounded to the nearest.
pub open spec fn vdd_mv(reading: u8) -> int {
    (reading * 234 + 5) / 10
}

/// Below this supply voltage, in millivolts, the chip is run in its 3.3 V
/// mode.
pub const SUPPLY_3V3_BELOW_MV: u32 = 3600;

/// Whether the chip is run in its 3.3 V mode at a supply voltage.
pub open spec fn supply_3v3(vdd_mv: u32) -> bool {
    vdd_mv < SUPPLY_3V3_BELOW_MV
}

/// An ST25R39xx behind its register bus.
pub struct St25r39<I: Interface> {
    pub iface: I,
    /// The interrupt requests read from the chip and not yet cleared.
    pub irqs: u32,
    pub mode: Mode,
}

impl<I: Interface> St25r39<I> {
    /// Takes over the bus of a chip. The chip is set up with
    /// [`Self::init_begin`] and what follows it.
    pub fn new(iface: I) -> (chip: Self)
        ensures
            chip.iface == iface,
            chip.irqs == 0,
            chip.mode == Mode::On,
    {
        Self { iface, irqs: 0, mode: Mode::On }
    }

    /// The register map of the chip.
    pub fn regs(&mut self) -> (r: Regs<'_, I>)
        ensures
            *r.iface == old(self).iface,
            final(self).iface == *final(r.iface),
            final(self).irqs == old(self).irqs,
            final(self).mode == old(self).mode,
    {
        Regs::new(&mut self.iface)
    }

    /// Sends a direct command. Fails only if the bus does.
    pub fn cmd(&mut self, cmd: Command) -> (res: Result<(), Error<I::Error>>)
        ensures
            final(self).irqs == old(self).irqs,
            final(self).mode == old(self).mode,
            res is Ok ==> final(self).iface.ops() == old(self).iface.ops().push(sent(cmd)),
            res matches Err(e) ==> e is Interface && final(self).iface.ops() == old(
                self,
            ).iface.ops(),
    {
        match self.iface.do_command(cmd.code()) {
            Ok(()) => Ok(()),
            Err(e) => Err(Error::Interface(e)),
        }
    }

    /// Whether `irq` has been read from the chip and not been cleared
    /// since.
    pub fn irq(&self, irq: Interrupt) -> (pending: bool)
        ensures
            pending == requested(self.irqs, irq),
    {
        (self.irqs & (1u32 << (irq.bit() as u32))) != 0
    }

    /// Reads the four status registers and adds what they hold to the
    /// requests kept. Fails only if the bus does.
    pub fn irq_update(&mut self) -> (res: Result<(), Error<I::Error>>)
        ensures
            final(self).mode == old(self).mode,
            record::extends(final(self).iface.ops(), old(self).iface.ops()),
            res is Ok ==> exists|status: (u8, u8, u8, u8)|
                {
                    &&& final(self).iface.ops() == #[trigger] irq_read_ops(
                        old(self).iface.ops(),
                        status,
                    )
                    &&& final(self).irqs == merged_irqs(old(self).irqs, status)
                },
            res matches Err(e) ==> e is Interface,
    {
        proof {
            record::lemma_extends::<Op>();
        }
        let a = self.regs().irq_main(0).read()?;
        self.irqs = self.irqs | (a as u32);
        let b = self.regs().irq_main(1).read()?;
        self.irqs = self.irqs | ((b as u32) << 8);
        let c = self.regs().irq_main(2).read()?;
        self.irqs = self.irqs | ((c as u32) << 16);
        let d = self.regs().irq_main(3).read()?;
        self.irqs = self.irqs | ((d as u32) << 24);
        assert(self.iface.ops() == irq_read_ops(old(self).iface.ops(), (a, b, c, d)));
        Ok(())
    }

    /// Reads the status registers, which clears them, and forgets all
    /// requests. Fails only if the bus does.
    pub fn irq_clear(&mut self) -> (res: Result<(), Error<I::Error>>)
        ensures
            final(self).mode == old(self).mode,
            record::extends(final(self).iface.ops(), old(self).iface.ops()),
            res is Ok ==> final(self).irqs == 0 && exists|status: (u8, u8, u8, u8)|
                final(self).iface.ops() == #[trigger] irq_read_ops(old(self).iface.ops(), status),
            res matches Err(e) ==> e is Interface,
    {
        self.irq_update()?;
        self.irqs = 0;
        Ok(())
    }

    /// Reads the status registers and says whether `irq` is requested. The
    /// caller polls this, giving way to other tasks in between, until it is
    /// or the time allowed has passed.
    pub fn irq_poll(&mut self, irq: Interrupt) -> (res: Result<bool, Error<I::Error>>)
        ensures
            final(self).mode == old(self).mode,
            record::extends(final(self).iface.ops(), old(self).iface.ops()),
            res matches Ok(pending) ==> {
                &&& pending == requested(final(self).irqs, irq)
                &&& exists|status: (u8, u8, u8, u8)|
                    {
                        &&& final(self).iface.ops() == #[trigger] irq_read_ops(
                            old(self).iface.ops(),
                            status,
                        )
                        &&& final(self).irqs == merged_irqs(old(self).irqs, status)
                    }
            },
            res matches Err(e) ==> e is Interface,
    {
        self.irq_update()?;
        Ok(self.irq(irq))
    }

    /// Sets which requests do not reach the interrupt pin. Fails only if the
    /// bus does.
    pub fn irq_set_mask(&mut self, mask: u32) -> (res: Result<(), Error<I::Error>>)
        ensures
            final(self).irqs == old(self).irqs,
            final(self).mode == old(self).mode,
            record::extends(final(self).iface.ops(), old(self).iface.ops()),
            res is Ok ==> final(self).iface.ops() == irq_mask_ops(old(self).iface.ops(), mask),
            res matches Err(e) ==> e is Interface,
    {
        proof {
            record::lemma_extends::<Op>();
        }
        self.regs().irq_mask(0).write_value((mask & 0xFF) as u8)?;
        self.regs().irq_mask(1).write_value(((mask >> 8) & 0xFF) as u8)?;
        self.regs().irq_mask(2).write_value(((mask >> 16) & 0xFF) as u8)?;
        self.regs().irq_mask(3).write_value(((mask >> 24) & 0xFF) as u8)?;
        Ok(())
    }

    /// Clears the requests and sends a direct command that the chip takes
    /// time over. The command has ended when [`Self::irq_poll`] finds
    /// [`Interrupt::Dct`].
    pub fn cmd_start(&mut self, cmd: Command) -> (res: Result<(), Error<I::Error>>)
        ensures
            final(self).mode == old(self).mode,
            record::extends(final(self).iface.ops(), old(self).iface.ops()),
            res is Ok ==> final(self).irqs == 0 && exists|status: (u8, u8, u8, u8)|
                final(self).iface.ops() == (#[trigger] irq_read_ops(
                    old(self).iface.ops(),
                    status,
                )).push(sent(cmd)),
            res matches Err(e) ==> e is Interface,
    {
        proof {
            record::lemma_extends::<Op>();
        }
        self.irq_clear()?;
        self.cmd(cmd)?;
        Ok(())
    }

    /// Switches the oscillator on. It is stable when [`Self::osc_ready`]
    /// says so.
    pub fn osc_start(&mut self) -> (res: Result<(), Error<I::Error>>)
        ensures
            final(self).irqs == old(self).irqs,
            final(self).mode == old(self).mode,
            res is Ok ==> final(self).iface.ops() == old(self).iface.ops().push(
                wrote(regs::OP_CONTROL, regs::OpControl(0).with_en(true)),
            ),
            res matches Err(e) ==> e is Interface && final(self).iface.ops() == old(
                self,
            ).iface.ops(),
    {
        let mut w = regs::OpControl(0);
        w.set_en(true);
        self.regs().op_control().write_value(w)
    }

    /// Whether the oscillator is stable.
    pub fn osc_ready(&mut self) -> (res: Result<bool, Error<I::Error>>)
        ensures
            final(self).irqs == old(self).irqs,
            final(self).mode == old(self).mode,
            res matches Ok(ready) ==> exists|display: regs::AuxDisplay|
                {
                    &&& final(self).iface.ops() == old(self).iface.ops().push(
                        #[trigger] read(regs::AUX_DISPLAY, display),
                    )
                    &&& ready == display.osc_ok()
                },
            res matches Err(e) ==> e is Interface && final(self).iface.ops() == old(
                self,
            ).iface.ops(),
    {
        let display = self.regs().aux_display().read()?;
        assert(self.iface.ops() == old(self).iface.ops().push(read(regs::AUX_DISPLAY, display)));
        Ok(display.osc_ok())
    }

    /// Stops the chip and switches everything off.
    pub fn mode_off(&mut self) -> (res: Result<(), Error<I::Error>>)
        ensures
            final(self).irqs == old(self).irqs,
            final(self).mode == Mode::Off,
            record::extends(final(self).iface.ops(), old(self).iface.ops()),
            res is Ok ==> final(self).iface.ops() == old(self).iface.ops().push(
                sent(Command::Stop),
            ).push(wrote(regs::OP_CONTROL, regs::OpControl(0))),
            res matches Err(e) ==> e is Interface,
    {
        proof {
            record::lemma_extends::<Op>();
        }
        self.mode = Mode::Off;
        self.cmd(Command::Stop)?;
        self.regs().op_control().write_value(regs::OpControl(0))?;
        Ok(())
    }

    /// Starts switching the chip on: starts the oscillator. When it is
    /// stable, [`Self::mode_on_finish`] does the rest.
    pub fn mode_on_start(&mut self) -> (res: Result<(), Error<I::Error>>)
        ensures
            final(self).irqs == old(self).irqs,
            final(self).mode == Mode::On,
            res is Ok ==> final(self).iface.ops() == old(self).iface.ops().push(
                wrote(regs::OP_CONTROL, regs::OpControl(0).with_en(true)),
            ),
            res matches Err(e) ==> e is Interface && final(self).iface.ops() == old(
                self,
            ).iface.ops(),
    {
        self.mode = Mode::On;
        self.osc_start()
    }

    /// Ends switching the chip on: lets the chip watch for fields of others
    /// by itself and sets the driver resistance.
    pub fn mode_on_finish(&mut self) -> (res: Result<(), Error<I::Error>>)
        ensures
            final(self).irqs == old(self).irqs,
            final(self).mode == old(self).mode,
            record::extends(final(self).iface.ops(), old(self).iface.ops()),
            res is Ok ==> exists|control: regs::OpControl|
                final(self).iface.ops() == old(self).iface.ops().push(
                    #[trigger] read(regs::OP_CONTROL, control),
                ).push(
                    wrote(
                        regs::OP_CONTROL,
                        control.with_en_fd(regs::OpControlEnFd::auto_efd()),
                    ),
                ).push(
                    wrote(
                        regs::TX_DRIVER,
                        regs::TxDriver(0).with_d_res(regs::TxDriverDRes::_1_61()),
                    ),
                ),
            res matches Err(e) ==> e is Interface,
    {
        proof {
            record::lemma_extends::<Op>();
        }
        let mut control = self.regs().op_control().read()?;
        let ghost was = control;
        control.set_en_fd(regs::OpControlEnFd::auto_efd());
        self.regs().op_control().write_value(control)?;
        let mut driver = regs::TxDriver(0);
        driver.set_d_res(regs::TxDriverDRes::_1_61());
        self.regs().tx_driver().write_value(driver)?;
        assert(self.iface.ops() == old(self).iface.ops().push(read(regs::OP_CONTROL, was)).push(
            wrote(regs::OP_CONTROL, was.with_en_fd(regs::OpControlEnFd::auto_efd())),
        ).push(wrote(regs::TX_DRIVER, regs::TxDriver(0).with_d_res(regs::TxDriverDRes::_1_61()))));
        Ok(())
    }

    /// Reads the result of the last measurement of the converter.
    pub fn measure_read(&mut self) -> (res: Result<u8, Error<I::Error>>)
        ensures
            final(self).irqs == old(self).irqs,
            final(self).mode == old(self).mode,
            res matches Ok(reading) ==> final(self).iface.ops() == old(self).iface.ops().push(
                read(regs::AD_RESULT, reading),
            ),
            res matches Err(e) ==> e is Interface && final(self).iface.ops() == old(
                self,
            ).iface.ops(),
    {
        self.regs().ad_result().read()
    }

    /// Starts a measurement of the supply voltage. When the command has
    /// ended, [`Self::measure_vdd_read`] gives the result.
    pub fn measure_vdd_start(&mut self) -> (res: Result<(), Error<I::Error>>)
        ensures
            final(self).mode == old(self).mode,
            record::extends(final(self).iface.ops(), old(self).iface.ops()),
            res is Ok ==> final(self).irqs == 0 && exists|status: (u8, u8, u8, u8)|
                final(self).iface.ops() == (#[trigger] irq_read_ops(
                    old(self).iface.ops().push(
                        wrote(
                            regs::REGULATOR_CONTROL,
                            regs::RegulatorControl(0).with_mpsv(regs::RegulatorControlMpsv::vdd()),
                        ),
                    ),
                    status,
                )).push(sent(Command::MeasureVdd)),
            res matches Err(e) ==> e is Interface,
    {
        proof {
            record::lemma_extends::<Op>();
        }
        let mut w = regs::RegulatorControl(0);
        w.set_mpsv(regs::RegulatorControlMpsv::vdd());
        self.regs().regulator_control().write_value(w)?;
        assert(record::extends(self.iface.ops(), old(self).iface.ops()));
        self.cmd_start(Command::MeasureVdd)?;
        Ok(())
    }

    /// The supply voltage that was measured, in millivolts.
    pub fn measure_vdd_read(&mut self) -> (res: Result<u32, Error<I::Error>>)
        ensures
            final(self).irqs == old(self).irqs,
            final(self).mode == old(self).mode,
            res matches Ok(mv) ==> exists|reading: u8|
                {
                    &&& final(self).iface.ops() == old(self).iface.ops().push(
                        #[trigger] read(regs::AD_RESULT, reading),
                    )
                    &&& mv == vdd_mv(reading)
                },
            res matches Err(e) ==> e is Interface && final(self).iface.ops() == old(
                self,
            ).iface.ops(),
    {
        let reading = self.regs().ad_result().read()?;
        assert(self.iface.ops() == old(self).iface.ops().push(read(regs::AD_RESULT, reading)));
        Ok((reading as u32 * 234 + 5) / 10)
    }

    /// The chip for use without a protocol.
    pub fn raw(&mut self) -> (raw: Raw<'_, I>)
        ensures
            *raw.inner == *old(self),
            *final(self) == *final(raw.inner),
    {
        Raw { inner: self }
    }
}

/// A chip that is used without a protocol, to switch its field.
pub struct Raw<'a, I: Interface> {
    pub inner: &'a mut St25r39<I>,
}

impl<'a, I: Interface> Raw<'a, I> {
    /// Switches the field off.
    pub fn field_off(&mut self) -> (res: Result<(), Error<I::Error>>)
        ensures
            *final(final(self).inner) == *final(old(self).inner),
            final(self).inner.mode == Mode::Off,
            res is Ok ==> final(self).inner.iface.ops() == old(self).inner.iface.ops().push(
                sent(Command::Stop),
            ).push(wrote(regs::OP_CONTROL, regs::OpControl(0))),
            res matches Err(e) ==> e is Interface,
    {
        self.inner.mode_off()
    }

    /// Switches the field off and leaves the drivers without load.
    pub fn driver_hi_z(&mut self) -> (res: Result<(), Error<I::Error>>)
        ensures
            *final(final(self).inner) == *final(old(self).inner),
            final(self).inner.mode == Mode::Off,
            res is Ok ==> final(self).inner.iface.ops() == old(self).inner.iface.ops().push(
                sent(Command::Stop),
            ).push(wrote(regs::OP_CONTROL, regs::OpControl(0))).push(
                wrote(
                    regs::TX_DRIVER,
                    regs::TxDriver(0).with_d_res(regs::TxDriverDRes::_high_z()),
                ),
            ),
            res matches Err(e) ==> e is Interface,
    {
        self.inner.mode_off()?;
        let mut driver = regs::TxDriver(0);
        driver.set_d_res(regs::TxDriverDRes::_high_z());
        self.inner.regs().tx_driver().write_value(driver)?;
        Ok(())
    }
}

/// What the converter can measure on command.
#[derive(Debug, Clone, Copy, PartialEq, Eq, Structural)]
pub enum Measurement {
    /// The amplitude of the signal at the receiver inputs.
    Amplitude,
    /// The phase between the driver outputs and the receiver inputs.
    Phase,
    /// The capacitance at the sensor pins.
    Capacitance,
}

impl Measurement {
    /// The direct command that takes the measurement.
    pub open spec fn command_of(self) -> Command {
        match self {
            Measurement::Amplitude => Command::MeasureAmplitude,
            Measurement::Phase => Command::MeasurePhase,
            Measurement::Capacitance => Command::MeasureCapacitance,
        }
    }

    pub fn command(self) -> (cmd: Command)
        ensures
            cmd == self.command_of(),
    {
        match self {
            Measurement::Amplitude => Command::MeasureAmplitude,
            Measurement::Phase => Command::MeasurePhase,
            Measurement::Capacitance => Command::MeasureCapacitance,
        }
    }
}

/// How the calibration of the capacitive sensor stands.
#[derive(Debug, Clone, Copy, PartialEq, Eq, Structural)]
pub enum CapCalibration {
    /// The chip is still at it.
    Busy,
    /// It has ended with this value.
    Done(u8),
    /// The chip reports that it failed.
    Failed,
}

/// What the result register of the capacitive sensor says of the
/// calibration: a failure comes before the end.
pub open spec fn cap_calibration_of(result: regs::CapSensorResult) -> CapCalibration {
    if result.cs_cal_err() {
        CapCalibration::Failed
    } else if result.cs_cal_end() {
        CapCalibration::Done(result.cs_cal_val())
    } else {
        CapCalibration::Busy
    }
}

/// Whether an identity is that of the type of chip that this driver is
/// for.
pub open spec fn known_chip(identity: regs::IcIdentity) -> bool {
    identity.ic_type() == regs::IcIdentityIcType::st25r3916()
}

/// The transfers of the first part of the set-up, behind `before`: the chip
/// is put in its default state, its overheat protection is disabled and its
/// identity is read; where that is the identity expected, the oscillator is
/// started.
pub open spec fn init_begin_ops(before: Seq<Op>, identity: regs::IcIdentity) -> Seq<Op> {
    let asked = before.push(sent(Command::SetDefault)).push(
        wrote(regs::TEST_UNK, regs::TestUnk(0).with_dis_overheat_prot(true)),
    ).push(read(regs::IC_IDENTITY, identity));
    if known_chip(identity) {
        asked.push(wrote(regs::OP_CONTROL, regs::OpControl(0).with_en(true)))
    } else {
        asked
    }
}

/// The transfers that set the chip up for its supply and start the
/// adjustment of the regulators, behind `before`: the supply mode is set,
/// the clock output is disabled, the chip is left to watch for fields of
/// others by itself, the regulator setting bit is written as zero and then
/// as one, the requests are cleared and the adjustment is commanded.
pub open spec fn init_supply_ops(
    before: Seq<Op>,
    supply_3v3: bool,
    control: regs::OpControl,
    status: (u8, u8, u8, u8),
) -> Seq<Op> {
    irq_read_ops(
        before.push(wrote(regs::IO_CONF2, regs::IoConf2(0).with_sup_3v(supply_3v3))).push(
            wrote(
                regs::IO_CONF1,
                regs::IoConf1(0).with_out_cl(regs::IoConf1OutCl::disabled()).with_lf_clk_off(true),
            ),
        ).push(read(regs::OP_CONTROL, control)).push(
            wrote(regs::OP_CONTROL, control.with_en_fd(regs::OpControlEnFd::auto_efd())),
        ).push(wrote(regs::REGULATOR_CONTROL, regs::RegulatorControl(0).with_reg_s(false))).push(
            wrote(regs::REGULATOR_CONTROL, regs::RegulatorControl(0).with_reg_s(true)),
        ),
        status,
    ).push(sent(Command::AdjustRegulators))
}

/// The transfers that set the chip up as an initiator for Type A cards and
/// start switching the field on, behind `before`.
pub open spec fn field_on_ops(before: Seq<Op>, status: (u8, u8, u8, u8)) -> Seq<Op> {
    irq_read_ops(
        before.push(
            wrote(
                regs::MODE,
                regs::Mode(0).with_om(regs::ModeOm::ini_iso14443a()).with_tr_am(false),
            ),
        ).push(
            wrote(
                regs::TX_DRIVER,
                regs::TxDriver(0).with_am_mod(regs::TxDriverAmMod::_12percent()),
            ),
        ).push(
            wrote(
                regs::AUX_MOD,
                regs::AuxMod(0).with_lm_dri(true).with_dis_reg_am(false).with_res_am(false),
            ),
        ).push(wrote(regs::OVERSHOOT_CONF1, regs::OvershootConf1(0x40))).push(
            wrote(regs::OVERSHOOT_CONF2, regs::OvershootConf2(0x03)),
        ).push(wrote(regs::UNDERSHOOT_CONF1, regs::UndershootConf1(0x40))).push(
            wrote(regs::UNDERSHOOT_CONF2, regs::UndershootConf2(0x03)),
        ).push(wrote(regs::AUX, regs::Aux(0).with_dis_corr(false).with_nfc_n(0))).push(
            wrote(
                regs::BIT_RATE,
                regs::BitRate(0).with_rxrate(regs::BitRateE::_106()).with_txrate(
                    regs::BitRateE::_106(),
                ),
            ),
        ).push(wrote(regs::ISO14443A_NFC, regs::Iso14443aNfc(0))).push(
            wrote(regs::FIELD_ON_GT, 0u8),
        ),
        status,
    ).push(sent(Command::InitialRfCollision))
}

/// What the requests say of the field being switched on: another field in
/// the way comes first.
pub open spec fn field_on_event(irqs: u32) -> Result<bool, ()> {
    if requested(irqs, Interrupt::Cac) {
        Err(())
    } else {
        Ok(requested(irqs, Interrupt::Apon))
    }
}

impl<I: Interface> St25r39<I> {
    /// The first part of the set-up. Returns the identity of the chip. When
    /// the oscillator is stable, [`Self::measure_vdd_start`] follows.
    ///
    /// Fails with `UnknownChip` where the chip is of another type than this
    /// driver is for, and leaves its oscillator off.
    pub fn init_begin(&mut self) -> (res: Result<regs::IcIdentity, InitError<I::Error>>)
        ensures
            final(self).irqs == old(self).irqs,
            final(self).mode == old(self).mode,
            record::extends(final(self).iface.ops(), old(self).iface.ops()),
            res matches Ok(identity) ==> known_chip(identity) && final(self).iface.ops()
                == init_begin_ops(old(self).iface.ops(), identity),
            res matches Err(InitError::UnknownChip(byte)) ==> !known_chip(regs::IcIdentity(byte))
                && final(self).iface.ops() == init_begin_ops(
                old(self).iface.ops(),
                regs::IcIdentity(byte),
            ),
            res matches Err(e) ==> e is Interface || e is UnknownChip,
    {
        proof {
            record::lemma_extends::<Op>();
        }
        match self.init_identity() {
            Ok(identity) => {
                if identity.ic_type().0 != regs::IcIdentityIcType::st25r3916().0 {
                    return Err(InitError::UnknownChip(identity.0));
                }
                match self.osc_start() {
                    Ok(()) => Ok(identity),
                    Err(e) => Err(InitError::from(e)),
                }
            },
            Err(e) => Err(InitError::from(e)),
        }
    }

    fn init_identity(&mut self) -> (res: Result<regs::IcIdentity, Error<I::Error>>)
        ensures
            final(self).irqs == old(self).irqs,
            final(self).mode == old(self).mode,
            record::extends(final(self).iface.ops(), old(self).iface.ops()),
            res matches Ok(identity) ==> final(self).iface.ops() == old(self).iface.ops().push(
                sent(Command::SetDefault),
            ).push(wrote(regs::TEST_UNK, regs::TestUnk(0).with_dis_overheat_prot(true))).push(
                read(regs::IC_IDENTITY, identity),
            ),
            res matches Err(e) ==> e is Interface,
    {
        proof {
            record::lemma_extends::<Op>();
        }
        self.cmd(Command::SetDefault)?;
        let mut test = regs::TestUnk(0);
        test.set_dis_overheat_prot(true);
        self.regs().test_unk().write_value(test)?;
        let identity = self.regs().ic_identity().read()?;
        Ok(identity)
    }

    /// The part of the set-up that follows the measurement of the supply
    /// voltage `vdd_mv`, in millivolts. When the command has ended,
    /// [`Self::init_end`] follows.
    pub fn init_supply(&mut self, vdd_mv: u32) -> (res: Result<(), Error<I::Error>>)
        ensures
            final(self).mode == old(self).mode,
            record::extends(final(self).iface.ops(), old(self).iface.ops()),
            res is Ok ==> final(self).irqs == 0 && exists|
                control: regs::OpControl,
                status: (u8, u8, u8, u8),
            |
                final(self).iface.ops() == #[trigger] init_supply_ops(
                    old(self).iface.ops(),
                    supply_3v3(vdd_mv),
                    control,
                    status,
                ),
            res matches Err(e) ==> e is Interface,
    {
        proof {
            record::lemma_extends::<Op>();
        }
        let low_supply = vdd_mv < SUPPLY_3V3_BELOW_MV;
        let mut conf2 = regs::IoConf2(0);
        conf2.set_sup_3v(low_supply);
        self.regs().io_conf2().write_value(conf2)?;
        let mut conf1 = regs::IoConf1(0);
        conf1.set_out_cl(regs::IoConf1OutCl::disabled());
        conf1.set_lf_clk_off(true);
        self.regs().io_conf1().write_value(conf1)?;
        let mut control = self.regs().op_control().read()?;
        let ghost was = control;
        control.set_en_fd(regs::OpControlEnFd::auto_efd());
        self.regs().op_control().write_value(control)?;
        let mut regulator = regs::RegulatorControl(0);
        regulator.set_reg_s(false);
        self.regs().regulator_control().write_value(regulator)?;
        let mut regulator = regs::RegulatorControl(0);
        regulator.set_reg_s(true);
        self.regs().regulator_control().write_value(regulator)?;
        let ghost ops1 = self.iface.ops();
        assert(record::extends(ops1, old(self).iface.ops()));
        self.cmd_start(Command::AdjustRegulators)?;
        proof {
            let status = choose|status: (u8, u8, u8, u8)|
                self.iface.ops() == (#[trigger] irq_read_ops(ops1, status)).push(
                    sent(Command::AdjustRegulators),
                );
            assert(self.iface.ops() == init_supply_ops(
                old(self).iface.ops(),
                supply_3v3(vdd_mv),
                was,
                status,
            ));
        }
        Ok(())
    }

    /// The last part of the set-up: reads what the regulators were adjusted
    /// to.
    pub fn init_end(&mut self) -> (res: Result<regs::RegulatorResult, Error<I::Error>>)
        ensures
            final(self).irqs == old(self).irqs,
            final(self).mode == old(self).mode,
            res matches Ok(result) ==> final(self).iface.ops() == old(self).iface.ops().push(
                read(regs::REGULATOR_RESULT, result),
            ),
            res matches Err(e) ==> e is Interface && final(self).iface.ops() == old(
                self,
            ).iface.ops(),
    {
        self.regs().regulator_result().read()
    }

    /// Starts a measurement. When the command has ended,
    /// [`Self::measure_read`] gives the result.
    pub fn measure_start(&mut self, what: Measurement) -> (res: Result<(), Error<I::Error>>)
        ensures
            final(self).mode == old(self).mode,
            record::extends(final(self).iface.ops(), old(self).iface.ops()),
            res is Ok ==> final(self).irqs == 0 && exists|status: (u8, u8, u8, u8)|
                final(self).iface.ops() == (#[trigger] irq_read_ops(
                    old(self).iface.ops(),
                    status,
                )).push(sent(what.command_of())),
            res matches Err(e) ==> e is Interface,
    {
        self.cmd_start(what.command())
    }

    /// Starts the calibration of the capacitive sensor: clears the manual
    /// value, sets the highest gain and commands the calibration. How it
    /// stands is what [`Self::calibrate_capacitance_poll`] says.
    pub fn calibrate_capacitance_start(&mut self) -> (res: Result<(), Error<I::Error>>)
        ensures
            final(self).irqs == old(self).irqs,
            final(self).mode == old(self).mode,
            record::extends(final(self).iface.ops(), old(self).iface.ops()),
            res is Ok ==> final(self).iface.ops() == old(self).iface.ops().push(
                wrote(
                    regs::CAP_SENSOR_CONTROL,
                    regs::CapSensorControl(0).with_cs_mcal(0).with_cs_g(1),
                ),
            ).push(sent(Command::CalibrateCSensor)),
            res matches Err(e) ==> e is Interface,
    {
        proof {
            record::lemma_extends::<Op>();
        }
        let mut w = regs::CapSensorControl(0);
        w.set_cs_mcal(0);
        w.set_cs_g(1);
        self.regs().cap_sensor_control().write_value(w)?;
        // The chip raises no interrupt for this command while its
        // oscillator is off: the result register is asked instead.
        self.cmd(Command::CalibrateCSensor)?;
        Ok(())
    }

    /// How the calibration of the capacitive sensor stands.
    pub fn calibrate_capacitance_poll(&mut self) -> (res: Result<CapCalibration, Error<I::Error>>)
        ensures
            final(self).irqs == old(self).irqs,
            final(self).mode == old(self).mode,
            res matches Ok(state) ==> exists|result: regs::CapSensorResult|
                {
                    &&& final(self).iface.ops() == old(self).iface.ops().push(
                        #[trigger] read(regs::CAP_SENSOR_RESULT, result),
                    )
                    &&& state == cap_calibration_of(result)
                },
            res matches Err(e) ==> e is Interface && final(self).iface.ops() == old(
                self,
            ).iface.ops(),
    {
        let result = self.regs().cap_sensor_result().read()?;
        assert(self.iface.ops() == old(self).iface.ops().push(
            read(regs::CAP_SENSOR_RESULT, result),
        ));
        if result.cs_cal_err() {
            Ok(CapCalibration::Failed)
        } else if result.cs_cal_end() {
            Ok(CapCalibration::Done(result.cs_cal_val()))
        } else {
            Ok(CapCalibration::Busy)
        }
    }

    /// Sets the chip up as an initiator for Type A cards at 106 kbit/s and
    /// starts switching the field on. The chip first listens for the field
    /// of another device; how that ends is what [`Self::field_on_poll`]
    /// says.
    pub fn field_on_start(&mut self) -> (res: Result<(), FieldOnError<I::Error>>)
        ensures
            final(self).mode == old(self).mode,
            record::extends(final(self).iface.ops(), old(self).iface.ops()),
            res is Ok ==> final(self).irqs == 0 && exists|status: (u8, u8, u8, u8)|
                final(self).iface.ops() == #[trigger] field_on_ops(old(self).iface.ops(), status),
            res matches Err(e) ==> e is Interface,
    {
        match self.field_on_setup() {
            Ok(()) => Ok(()),
            Err(e) => Err(FieldOnError::from(e)),
        }
    }

    fn field_on_setup(&mut self) -> (res: Result<(), Error<I::Error>>)
        ensures
            final(self).mode == old(self).mode,
            record::extends(final(self).iface.ops(), old(self).iface.ops()),
            res is Ok ==> final(self).irqs == 0 && exists|status: (u8, u8, u8, u8)|
                final(self).iface.ops() == #[trigger] field_on_ops(old(self).iface.ops(), status),
            res matches Err(e) ==> e is Interface,
    {
        proof {
            record::lemma_extends::<Op>();
        }
        let mut mode = regs::Mode(0);
        mode.set_om(regs::ModeOm::ini_iso14443a());
        mode.set_tr_am(false);
        self.regs().mode().write_value(mode)?;
        let mut driver = regs::TxDriver(0);
        driver.set_am_mod(regs::TxDriverAmMod::_12percent());
        self.regs().tx_driver().write_value(driver)?;
        let mut aux_mod = regs::AuxMod(0);
        aux_mod.set_lm_dri(true);
        aux_mod.set_dis_reg_am(false);
        aux_mod.set_res_am(false);
        self.regs().aux_mod().write_value(aux_mod)?;
        self.regs().overshoot_conf1().write_value(regs::OvershootConf1(0x40))?;
        self.regs().overshoot_conf2().write_value(regs::OvershootConf2(0x03))?;
        self.regs().undershoot_conf1().write_value(regs::UndershootConf1(0x40))?;
        self.regs().undershoot_conf2().write_value(regs::UndershootConf2(0x03))?;
        let mut aux = regs::Aux(0);
        aux.set_dis_corr(false);
        aux.set_nfc_n(0);
        self.regs().aux().write_value(aux)?;
        let mut rate = regs::BitRate(0);
        rate.set_rxrate(regs::BitRateE::_106());
        rate.set_txrate(regs::BitRateE::_106());
        self.regs().bit_rate().write_value(rate)?;
        self.regs().iso14443a_nfc().write_value(regs::Iso14443aNfc(0))?;
        // The guard time is kept by the caller.
        self.regs().field_on_gt().write_value(0)?;
        let ghost ops1 = self.iface.ops();
        assert(record::extends(ops1, old(self).iface.ops()));
        self.cmd_start(Command::InitialRfCollision)?;
        proof {
            let status = choose|status: (u8, u8, u8, u8)|
                self.iface.ops() == (#[trigger] irq_read_ops(ops1, status)).push(
                    sent(Command::InitialRfCollision),
                );
            assert(self.iface.ops() == field_on_ops(old(self).iface.ops(), status));
        }
        Ok(())
    }

    /// Whether the field is on. Looks at the requests kept and, where they
    /// do not decide, reads the status registers for the next call.
    ///
    /// Fails with `FieldCollision` where the chip has found the field of
    /// another device.
    pub fn field_on_poll(&mut self) -> (res: Result<bool, FieldOnError<I::Error>>)
        ensures
            final(self).mode == old(self).mode,
            record::extends(final(self).iface.ops(), old(self).iface.ops()),
            field_on_event(old(self).irqs) is Err ==> res == Err::<bool, FieldOnError<I::Error>>(
                FieldOnError::FieldCollision,
            ),
            field_on_event(old(self).irqs) == Ok::<bool, ()>(true) ==> res == Ok::<
                bool,
                FieldOnError<I::Error>,
            >(true) && *final(self) == *old(self),
            field_on_event(old(self).irqs) == Ok::<bool, ()>(false) ==> {
                &&& res matches Ok(on) ==> !on && exists|status: (u8, u8, u8, u8)|
                    {
                        &&& final(self).iface.ops() == #[trigger] irq_read_ops(
                            old(self).iface.ops(),
                            status,
                        )
                        &&& final(self).irqs == merged_irqs(old(self).irqs, status)
                    }
                &&& res matches Err(e) ==> e is Interface
            },
    {
        proof {
            record::lemma_extends::<Op>();
        }
        if self.irq(Interrupt::Cac) {
            return Err(FieldOnError::FieldCollision);
        }
        if self.irq(Interrupt::Apon) {
            return Ok(true);
        }
        match self.irq_update() {
            Ok(()) => Ok(false),
            Err(e) => Err(FieldOnError::from(e)),
        }
    }

    /// Switches transmitter and receiver on, once the field is on.
    pub fn field_on_finish(&mut self) -> (res: Result<(), FieldOnError<I::Error>>)
        ensures
            final(self).irqs == old(self).irqs,
            final(self).mode == old(self).mode,
            record::extends(final(self).iface.ops(), old(self).iface.ops()),
            res is Ok ==> exists|control: regs::OpControl|
                final(self).iface.ops() == old(self).iface.ops().push(
                    #[trigger] read(regs::OP_CONTROL, control),
                ).push(wrote(regs::OP_CONTROL, control.with_tx_en(true).with_rx_en(true))),
            res matches Err(e) ==> e is Interface,
    {
        proof {
            record::lemma_extends::<Op>();
        }
        let mut control = match self.regs().op_control().read() {
            Ok(control) => control,
            Err(e) => {
                return Err(FieldOnError::from(e));
            },
        };
        let ghost was = control;
        control.set_tx_en(true);
        control.set_rx_en(true);
        match self.regs().op_control().write_value(control) {
            Ok(()) => {},
            Err(e) => {
                return Err(FieldOnError::from(e));
            },
        }
        assert(self.iface.ops() == old(self).iface.ops().push(read(regs::OP_CONTROL, was)).push(
            wrote(regs::OP_CONTROL, was.with_tx_en(true).with_rx_en(true)),
        ));
        Ok(())
    }
}

} // verus!
