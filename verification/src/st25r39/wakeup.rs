//! The wake-up mode of the ST25R39xx.
//!
//! In this mode the chip sleeps, wakes at intervals to measure the amplitude
//! or the phase of its antenna signal or the capacitance at its sensor pins,
//! and raises its interrupt pin when a reading lies further from a reference
//! than allowed.
use vstd::prelude::*;
use crate::record;
use super::interface::{Interface, Op};
use super::regs;
use super::{Command, Error, Interrupt, Measurement, Mode, St25r39};

verus! {

/// How a reading is judged.
#[derive(Debug, Clone, Copy, PartialEq, Eq)]
pub struct WakeupMethodConfig {
    /// How far a reading may lie from the reference.
    pub delta: u8,
    /// Where the reference comes from.
    pub reference: WakeupReference,
}

/// Where the reference of a measurement comes from.
#[derive(Debug, Clone, Copy, PartialEq, Eq)]
pub enum WakeupReference {
    /// The value given.
    Manual(u8),
    /// A reading taken when the mode is entered.
    Automatic,
    /// A reading taken when the mode is entered, and from then on the
    /// running average of the readings, each new one with the weight given.
    AutoAverage { include_irq_measurement: bool, weight: u8 },
}

/// The time between two measurements.
#[derive(Debug, Clone, Copy, PartialEq, Eq, Structural)]
pub enum WakeupPeriod {
    /// 10 ms.
    Ms10,
    /// 20 ms.
    Ms20,
    /// 30 ms.
    Ms30,
    /// 40 ms.
    Ms40,
    /// 50 ms.
    Ms50,
    /// 60 ms.
    Ms60,
    /// 70 ms.
    Ms70,
    /// 80 ms.
    Ms80,
    /// 100 ms.
    Ms100,
    /// 200 ms.
    Ms200,
    /// 300 ms.
    Ms300,
    /// 400 ms.
    Ms400,
    /// 500 ms.
    Ms500,
    /// 600 ms.
    Ms600,
    /// 700 ms.
    Ms700,
    /// 800 ms.
    Ms800,
}

impl WakeupPeriod {
    /// The code of the period: bit 4 says whether the step is 100 ms rather
    /// than 10 ms, and the low bits count the steps less one.
    pub open spec fn code_of(self) -> u8 {
        match self {
            WakeupPeriod::Ms10 => 0x00,
            WakeupPeriod::Ms20 => 0x01,
            WakeupPeriod::Ms30 => 0x02,
            WakeupPeriod::Ms40 => 0x03,
            WakeupPeriod::Ms50 => 0x04,
            WakeupPeriod::Ms60 => 0x05,
            WakeupPeriod::Ms70 => 0x06,
            WakeupPeriod::Ms80 => 0x07,
            WakeupPeriod::Ms100 => 0x10,
            WakeupPeriod::Ms200 => 0x11,
            WakeupPeriod::Ms300 => 0x12,
            WakeupPeriod::Ms400 => 0x13,
            WakeupPeriod::Ms500 => 0x14,
            WakeupPeriod::Ms600 => 0x15,
            WakeupPeriod::Ms700 => 0x16,
            WakeupPeriod::Ms800 => 0x17,
        }
    }

    pub fn code(self) -> (code: u8)
        ensures
            code == self.code_of(),
    {
        match self {
            WakeupPeriod::Ms10 => 0x00,
            WakeupPeriod::Ms20 => 0x01,
            WakeupPeriod::Ms30 => 0x02,
            WakeupPeriod::Ms40 => 0x03,
            WakeupPeriod::Ms50 => 0x04,
            WakeupPeriod::Ms60 => 0x05,
            WakeupPeriod::Ms70 => 0x06,
            WakeupPeriod::Ms80 => 0x07,
            WakeupPeriod::Ms100 => 0x10,
            WakeupPeriod::Ms200 => 0x11,
            WakeupPeriod::Ms300 => 0x12,
            WakeupPeriod::Ms400 => 0x13,
            WakeupPeriod::Ms500 => 0x14,
            WakeupPeriod::Ms600 => 0x15,
            WakeupPeriod::Ms700 => 0x16,
            WakeupPeriod::Ms800 => 0x17,
        }
    }
}

/// How the chip watches for cards.
#[derive(Debug, Clone, Copy, PartialEq, Eq)]
pub struct WakeupConfig {
    pub period: WakeupPeriod,
    /// Watch the amplitude of the antenna signal.
    pub inductive_amplitude: Option<WakeupMethodConfig>,
    /// Watch the phase of the antenna signal.
    pub inductive_phase: Option<WakeupMethodConfig>,
    /// Watch the capacitance at the sensor pins.
    pub capacitive: Option<WakeupMethodConfig>,
}

impl WakeupReference {
    /// Whether the reference is a reading that is taken when the mode is
    /// entered.
    pub open spec fn measured(self) -> bool {
        !(self is Manual)
    }

    pub fn is_measured(&self) -> (measured: bool)
        ensures
            measured == self.measured(),
    {
        match self {
            WakeupReference::Manual(_) => false,
            _ => true,
        }
    }

    /// The reference, where `reading` is what was measured when the mode
    /// was entered.
    pub open spec fn value_of(self, reading: u8) -> u8 {
        match self {
            WakeupReference::Manual(val) => val,
            _ => reading,
        }
    }

    pub fn value(&self, reading: u8) -> (val: u8)
        ensures
            val == self.value_of(reading),
    {
        match self {
            WakeupReference::Manual(val) => *val,
            _ => reading,
        }
    }
}

/// The value of the wake-up timer register for a configuration: the period,
/// and which of the three measurements are taken.
pub open spec fn timer_control_of(config: WakeupConfig) -> regs::WupTimerControl {
    regs::WupTimerControl(0).with_wur(config.period.code_of() & 0x10 == 0).with_wut(
        config.period.code_of() & 0x0F,
    ).with_wam(config.inductive_amplitude is Some).with_wph(
        config.inductive_phase is Some,
    ).with_wcap(config.capacitive is Some)
}

/// Works out the value of the wake-up timer register.
pub fn timer_control(config: &WakeupConfig) -> (wtc: regs::WupTimerControl)
    ensures
        wtc == timer_control_of(*config),
{
    let code = config.period.code();
    let mut wtc = regs::WupTimerControl(0);
    wtc.set_wur(code & 0x10 == 0);
    wtc.set_wut(code & 0x0F);
    wtc.set_wam(config.inductive_amplitude.is_some());
    wtc.set_wph(config.inductive_phase.is_some());
    wtc.set_wcap(config.capacitive.is_some());
    wtc
}

/// The bit of an interrupt request among the 32.
pub open spec fn irq_bit(irq: Interrupt) -> u32 {
    1u32 << (irq.bit_of() as u32)
}

/// The requests that wake the host for a configuration: one for each
/// measurement that is taken.
pub open spec fn wake_irqs_of(config: WakeupConfig) -> u32 {
    (if config.inductive_amplitude is Some {
        irq_bit(Interrupt::Wam)
    } else {
        0u32
    }) | (if config.inductive_phase is Some {
        irq_bit(Interrupt::Wph)
    } else {
        0u32
    }) | (if config.capacitive is Some {
        irq_bit(Interrupt::Wcap)
    } else {
        0u32
    })
}

/// Works out which requests wake the host.
pub fn wake_irqs(config: &WakeupConfig) -> (irqs: u32)
    ensures
        irqs == wake_irqs_of(*config),
{
    let amplitude: u32 = if config.inductive_amplitude.is_some() {
        1u32 << (Interrupt::Wam.bit() as u32)
    } else {
        0
    };
    let phase: u32 = if config.inductive_phase.is_some() {
        1u32 << (Interrupt::Wph.bit() as u32)
    } else {
        0
    };
    let capacitance: u32 = if config.capacitive.is_some() {
        1u32 << (Interrupt::Wcap.bit() as u32)
    } else {
        0
    };
    amplitude | phase | capacitance
}

/// The register that holds the reference of a measurement.
pub open spec fn reference_reg(what: Measurement) -> u8 {
    match what {
        Measurement::Amplitude => regs::AMPLITUDE_MEASURE_REF,
        Measurement::Phase => regs::PHASE_MEASURE_REF,
        Measurement::Capacitance => regs::CAPACITANCE_MEASURE_REF,
    }
}

/// The register that says how a measurement is judged.
pub open spec fn conf_reg(what: Measurement) -> u8 {
    match what {
        Measurement::Amplitude => regs::AMPLITUDE_MEASURE_CONF,
        Measurement::Phase => regs::PHASE_MEASURE_CONF,
        Measurement::Capacitance => regs::CAPACITANCE_MEASURE_CONF,
    }
}

/// The value of the configuration register of the amplitude measurement:
/// the difference allowed, and for a running average that it is kept,
/// whether the reading that woke the host goes into it, and its weight.
pub open spec fn amplitude_conf_of(m: WakeupMethodConfig) -> regs::AmplitudeMeasureConf {
    let conf = regs::AmplitudeMeasureConf(0).with_am_d(m.delta);
    match m.reference {
        WakeupReference::AutoAverage { include_irq_measurement, weight } => conf.with_am_ae(
            true,
        ).with_am_aam(include_irq_measurement).with_am_aew(weight),
        _ => conf,
    }
}

/// The value of the configuration register of the phase measurement.
pub open spec fn phase_conf_of(m: WakeupMethodConfig) -> regs::PhaseMeasureConf {
    let conf = regs::PhaseMeasureConf(0).with_pm_d(m.delta);
    match m.reference {
        WakeupReference::AutoAverage { include_irq_measurement, weight } => conf.with_pm_ae(
            true,
        ).with_pm_aam(include_irq_measurement).with_pm_aew(weight),
        _ => conf,
    }
}

/// The value of the configuration register of the capacitance measurement.
pub open spec fn capacitance_conf_of(m: WakeupMethodConfig) -> regs::CapacitanceMeasureConf {
    let conf = regs::CapacitanceMeasureConf(0).with_cm_d(m.delta);
    match m.reference {
        WakeupReference::AutoAverage { include_irq_measurement, weight } => conf.with_cm_ae(
            true,
        ).with_cm_aam(include_irq_measurement).with_cm_aew(weight),
        _ => conf,
    }
}

/// The byte of the configuration register of a measurement.
pub open spec fn conf_bits_of(what: Measurement, m: WakeupMethodConfig) -> u8 {
    match what {
        Measurement::Amplitude => amplitude_conf_of(m).0,
        Measurement::Phase => phase_conf_of(m).0,
        Measurement::Capacitance => capacitance_conf_of(m).0,
    }
}

/// Works out the byte of the configuration register of a measurement.
pub fn conf_bits(what: Measurement, m: &WakeupMethodConfig) -> (bits: u8)
    ensures
        bits == conf_bits_of(what, *m),
{
    match what {
        Measurement::Amplitude => {
            let mut conf = regs::AmplitudeMeasureConf(0);
            conf.set_am_d(m.delta);
            match m.reference {
                WakeupReference::AutoAverage { include_irq_measurement, weight } => {
                    conf.set_am_ae(true);
                    conf.set_am_aam(include_irq_measurement);
                    conf.set_am_aew(weight);
                },
                _ => {},
            }
            conf.0
        },
        Measurement::Phase => {
            let mut conf = regs::PhaseMeasureConf(0);
            conf.set_pm_d(m.delta);
            match m.reference {
                WakeupReference::AutoAverage { include_irq_measurement, weight } => {
                    conf.set_pm_ae(true);
                    conf.set_pm_aam(include_irq_measurement);
                    conf.set_pm_aew(weight);
                },
                _ => {},
            }
            conf.0
        },
        Measurement::Capacitance => {
            let mut conf = regs::CapacitanceMeasureConf(0);
            conf.set_cm_d(m.delta);
            match m.reference {
                WakeupReference::AutoAverage { include_irq_measurement, weight } => {
                    conf.set_cm_ae(true);
                    conf.set_cm_aam(include_irq_measurement);
                    conf.set_cm_aew(weight);
                },
                _ => {},
            }
            conf.0
        },
    }
}

/// The transfers that send the chip to sleep, behind `before`: the requests
/// are cleared, the wake-up timer is set, the chip is switched to wake-up
/// mode, and all requests but those that wake the host are masked.
pub open spec fn arm_ops(before: Seq<Op>, config: WakeupConfig, status: (u8, u8, u8, u8)) -> Seq<
    Op,
> {
    super::irq_mask_ops(
        super::irq_read_ops(before, status).push(
            super::wrote(regs::WUP_TIMER_CONTROL, timer_control_of(config)),
        ).push(super::wrote(regs::OP_CONTROL, regs::OpControl(0).with_wu(true))),
        !wake_irqs_of(config),
    )
}

impl<I: Interface> St25r39<I> {
    /// Starts entering the wake-up mode, once the chip is on: stops the
    /// chip, switches everything off and sets it up as an initiator for
    /// Type A cards.
    ///
    /// For each measurement of the configuration the caller then takes the
    /// reference, where it is a reading, and sets the measurement up with
    /// [`Self::wakeup_set_method`]; before the capacitance is measured, the
    /// sensor is calibrated. [`Self::wakeup_arm`] ends it.
    pub fn wakeup_begin(&mut self) -> (res: Result<(), Error<I::Error>>)
        ensures
            final(self).irqs == old(self).irqs,
            final(self).mode == Mode::Wakeup,
            record::extends(final(self).iface.ops(), old(self).iface.ops()),
            res is Ok ==> final(self).iface.ops() == old(self).iface.ops().push(
                super::sent(Command::Stop),
            ).push(super::wrote(regs::OP_CONTROL, regs::OpControl(0))).push(
                super::wrote(regs::MODE, regs::Mode(0).with_om(regs::ModeOm::ini_iso14443a())),
            ),
            res matches Err(e) ==> e is Interface,
    {
        proof {
            record::lemma_extends::<Op>();
        }
        self.mode = Mode::Wakeup;
        self.cmd(Command::Stop)?;
        self.regs().op_control().write_value(regs::OpControl(0))?;
        let mut mode = regs::Mode(0);
        mode.set_om(regs::ModeOm::ini_iso14443a());
        self.regs().mode().write_value(mode)?;
        Ok(())
    }

    /// Sets one measurement up: writes its reference, which is the value
    /// given or `reading`, and how it is judged.
    pub fn wakeup_set_method(&mut self, what: Measurement, m: &WakeupMethodConfig, reading: u8) -> (res:
        Result<(), Error<I::Error>>)
        ensures
            final(self).irqs == old(self).irqs,
            final(self).mode == old(self).mode,
            record::extends(final(self).iface.ops(), old(self).iface.ops()),
            res is Ok ==> final(self).iface.ops() == old(self).iface.ops().push(
                super::wrote(reference_reg(what), m.reference.value_of(reading)),
            ).push(super::wrote(conf_reg(what), conf_bits_of(what, *m))),
            res matches Err(e) ==> e is Interface,
    {
        proof {
            record::lemma_extends::<Op>();
        }
        let reference = m.reference.value(reading);
        let bits = conf_bits(what, m);
        match what {
            Measurement::Amplitude => {
                self.regs().amplitude_measure_ref().write_value(reference)?;
                self.regs().amplitude_measure_conf().write_value(regs::AmplitudeMeasureConf(bits))?;
            },
            Measurement::Phase => {
                self.regs().phase_measure_ref().write_value(reference)?;
                self.regs().phase_measure_conf().write_value(regs::PhaseMeasureConf(bits))?;
            },
            Measurement::Capacitance => {
                self.regs().capacitance_measure_ref().write_value(reference)?;
                self.regs().capacitance_measure_conf().write_value(
                    regs::CapacitanceMeasureConf(bits),
                )?;
            },
        }
        Ok(())
    }

    /// Sends the chip to sleep. The interrupt pin rises when a card comes.
    pub fn wakeup_arm(&mut self, config: &WakeupConfig) -> (res: Result<(), Error<I::Error>>)
        ensures
            final(self).mode == old(self).mode,
            record::extends(final(self).iface.ops(), old(self).iface.ops()),
            res is Ok ==> final(self).irqs == 0 && exists|status: (u8, u8, u8, u8)|
                final(self).iface.ops() == #[trigger] arm_ops(
                    old(self).iface.ops(),
                    *config,
                    status,
                ),
            res matches Err(e) ==> e is Interface,
    {
        proof {
            record::lemma_extends::<Op>();
        }
        self.irq_clear()?;
        let ghost ops1 = self.iface.ops();
        let ghost status = choose|status: (u8, u8, u8, u8)|
            ops1 == #[trigger] super::irq_read_ops(old(self).iface.ops(), status);
        self.regs().wup_timer_control().write_value(timer_control(config))?;
        let mut control = regs::OpControl(0);
        control.set_wu(true);
        self.regs().op_control().write_value(control)?;
        assert(record::extends(self.iface.ops(), old(self).iface.ops()));
        self.irq_set_mask(!wake_irqs(config))?;
        assert(self.iface.ops() == arm_ops(old(self).iface.ops(), *config, status));
        Ok(())
    }
}

} // verus!
