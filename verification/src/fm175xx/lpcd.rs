//! Low-power card detection of the FM175xx.
//!
//! In this mode the chip sleeps, wakes at intervals to send a short burst of
//! carrier, measures what comes back, and raises its interrupt pin when the
//! reading leaves a window. A card that comes into the field detunes the
//! antenna and so moves the reading.
//!
//! Before the chip is sent to sleep it is calibrated. The reading falls when
//! the gain rises and when the reference voltage rises. So a binary search
//! finds the lowest gain level at which the reading is below the centre of
//! its range, and a second one finds the lowest reference voltage for which
//! this holds at that gain. The window is then laid around the reading that
//! these settings give.
//!
//! A measurement takes time. The driver starts one, the caller waits until
//! the chip reports it done, and the driver takes the reading and decides on
//! the next step.
use vstd::prelude::*;
use crate::search;
use crate::search::Search;
use super::interface::{Interface, Op};
use super::regs;
use super::Fm175xx;

verus! {

/// The lowest reference voltage of the converter.
pub const ADC_REFERENCE_MIN: u8 = 0;

/// The highest reference voltage of the converter.
pub const ADC_REFERENCE_MAX: u8 = 0x7F;

/// The number of gain levels.
pub const GAIN_LEVELS: usize = 32;

/// After a calibration that failed the next one follows in ten seconds.
pub const RECALIBRATE_SOON_MS: u64 = 10_000;

/// Without a setting of the caller the chip is calibrated again every three
/// hours.
pub const RECALIBRATE_DEFAULT_MS: u64 = 10_800_000;

/// How the chip watches for cards.
#[derive(Clone, Copy, PartialEq, Eq, Debug)]
pub struct WakeupConfig {
    /// The time asleep between two measurements, 1 to 15:
    /// `(sleep_time + 2) * 100` ms.
    pub sleep_time: u8,
    /// The time to get ready for a measurement, 2 to 31:
    /// `(prepare_time + 2) * 100` us.
    pub prepare_time: u8,
    /// The time of a measurement, 2 to 31: `(measure_time - 1) * 4.7` us.
    pub measure_time: u8,
    /// How far a reading may lie from the one at calibration, in 256ths of
    /// the converter's range, before the chip wakes the host.
    pub threshold: u8,
    /// The strength of the N driver of the carrier, 0 or 1.
    pub n_drive: u8,
    /// The strength of the P driver of the carrier, 0 to 7.
    pub p_drive: u8,
    /// The time after which the chip is calibrated again, in milliseconds.
    pub recalibrate_interval_ms: Option<u64>,
}

impl WakeupConfig {
    /// Every setting lies in its range.
    pub open spec fn valid(&self) -> bool {
        &&& 1 <= self.sleep_time <= 15
        &&& 2 <= self.prepare_time <= 31
        &&& 2 <= self.measure_time <= 31
        &&& self.n_drive <= 1
        &&& self.p_drive <= 7
    }

    pub fn is_valid(&self) -> (ok: bool)
        ensures
            ok == self.valid(),
    {
        1 <= self.sleep_time && self.sleep_time <= 15 && 2 <= self.prepare_time
            && self.prepare_time <= 31 && 2 <= self.measure_time && self.measure_time <= 31
            && self.n_drive <= 1 && self.p_drive <= 7
    }
}

/// The range of the converter's readings for a measure time: the converter
/// counts for the whole measure time, at a clock that is divided the less
/// the shorter that time is.
pub open spec fn adc_range(measure_time: u8) -> int {
    (measure_time - 1) * if measure_time >= 16 {
        8int
    } else if measure_time >= 8 {
        16int
    } else {
        32int
    }
}

/// The centre of the converter's range.
pub open spec fn adc_center(measure_time: u8) -> int {
    adc_range(measure_time) / 2
}

/// The clock divider of the converter for a measure time.
pub open spec fn adc_divider(measure_time: u8) -> regs::LpcdT3clkdivk {
    if measure_time >= 16 {
        regs::LpcdT3clkdivk::div16()
    } else if measure_time >= 8 {
        regs::LpcdT3clkdivk::div8()
    } else {
        regs::LpcdT3clkdivk::div4()
    }
}

/// Clock divider and range of the converter for a measure time.
pub fn adc_scale(measure_time: u8) -> (res: (regs::LpcdT3clkdivk, u8))
    requires
        2 <= measure_time <= 31,
    ensures
        res.0 == adc_divider(measure_time),
        res.1 == adc_range(measure_time),
{
    if measure_time >= 16 {
        (regs::LpcdT3clkdivk::div16(), (measure_time - 1) * 8)
    } else if measure_time >= 8 {
        (regs::LpcdT3clkdivk::div8(), (measure_time - 1) * 16)
    } else {
        (regs::LpcdT3clkdivk::div4(), (measure_time - 1) * 32)
    }
}

/// The gain settings of the receiver, from the lowest gain to the highest.
/// Each is a value of the gain control register.
pub open spec fn gain_codes() -> Seq<u8> {
    seq![
        0u8, 4, 2, 8, 6, 1, 10, 5, 12, 16, 9, 3, 14, 20, 18, 7, 24, 22, 13, 11, 17, 26, 28, 21, 15,
        30, 25, 19, 23, 29, 27, 31,
    ]
}

/// The gain setting of a level.
pub fn gain_code(level: usize) -> (code: u8)
    requires
        level < GAIN_LEVELS,
    ensures
        code == gain_codes()[level as int],
        code < 32,
{
    let codes: [u8; 32] = [
        0, 4, 2, 8, 6, 1, 10, 5, 12, 16, 9, 3, 14, 20, 18, 7, 24, 22, 13, 11, 17, 26, 28, 21, 15,
        30, 25, 19, 23, 29, 27, 31,
    ];
    assert(codes@ =~= gain_codes());
    codes[level]
}

/// How far the edges of the window lie from the reading at calibration.
pub open spec fn threshold_offset(range: u8, threshold: u8) -> int {
    range * threshold / 256
}

/// The lower edge of the window around `curr`: not below the lowest
/// reading.
pub open spec fn window_min(curr: u8, offset: int) -> int {
    if curr - offset < 0 {
        0
    } else {
        curr - offset
    }
}

/// The upper edge of the window around `curr`: not above the highest
/// reading.
pub open spec fn window_max(curr: u8, offset: int) -> int {
    if curr + offset > 255 {
        255
    } else {
        curr + offset
    }
}

/// The window around the reading `curr`. The reading lies in it.
pub fn window(curr: u8, range: u8, threshold: u8) -> (res: (u8, u8))
    ensures
        res.0 == window_min(curr, threshold_offset(range, threshold)),
        res.1 == window_max(curr, threshold_offset(range, threshold)),
        res.0 <= curr <= res.1,
{
    assert(range * threshold <= 255 * 255) by (nonlinear_arith)
        requires
            range <= 255,
            threshold <= 255,
    ;
    let product = range as u32 * threshold as u32;
    let offs = (product / 256) as u8;
    let min = if curr < offs {
        0
    } else {
        curr - offs
    };
    let max = if 255 - curr < offs {
        255
    } else {
        curr + offs
    };
    (min, max)
}

/// The low six bits of a reading or an edge, as the chip keeps them in one
/// register.
pub open spec fn low6(val: u8) -> u8 {
    val & 0x3F
}

/// The high two bits of a reading or an edge, as the chip keeps them in a
/// second register.
pub open spec fn high2(val: u8) -> u8 {
    val >> 6
}

/// A reading put together from what its two registers hold.
pub open spec fn joined(high: u8, low: u8) -> u8 {
    ((high & 0x3) << 6) | (low & 0x3F)
}

/// A value that is split over two registers comes back when they are put
/// together.
pub proof fn lemma_split_joins(val: u8)
    ensures
        joined(high2(val), low6(val)) == val,
{
    assert((((val >> 6) & 0x3) << 6) | ((val & 0x3F) & 0x3F) == val) by (bit_vector);
}

/// The part of a calibration that is under way.
#[derive(Clone, Copy, Debug, PartialEq, Eq, Structural)]
pub enum Phase {
    /// The gain level is searched.
    Gain,
    /// The reference voltage is searched.
    Reference,
    /// The reading with the settings found is taken.
    Level,
    /// The window is set and the chip can be sent to sleep.
    Armed,
}

/// The state of a calibration.
#[derive(Clone, Copy, Debug, PartialEq, Eq, Structural)]
pub struct Calibration {
    pub phase: Phase,
    /// The search of the phase.
    pub search: Search,
    /// The gain level found, or the highest where none was.
    pub level: u8,
    /// The reference voltage found, or the highest where none was.
    pub reference: u8,
    /// Whether a search has found nothing.
    pub failed: bool,
    /// The range of the converter.
    pub range: u8,
    /// The wake-up threshold of the configuration.
    pub threshold: u8,
    /// The lower edge of the window.
    pub min: u8,
    /// The upper edge of the window.
    pub max: u8,
}

impl Calibration {
    /// The state is one that a calibration passes through: while a search
    /// is on, a probe is pending and lies in the range searched.
    pub open spec fn wf(self) -> bool {
        &&& self.level < GAIN_LEVELS
        &&& self.reference <= ADC_REFERENCE_MAX
        &&& match self.phase {
            Phase::Gain => {
                &&& self.search.max == GAIN_LEVELS
                &&& -1 <= self.search.lo < self.search.hi <= GAIN_LEVELS
                &&& self.search.pending() is Some
            },
            Phase::Reference => {
                &&& self.search.max == ADC_REFERENCE_MAX
                &&& -1 <= self.search.lo < self.search.hi <= ADC_REFERENCE_MAX
                &&& self.search.pending() is Some
            },
            _ => true,
        }
    }

    /// The state in which a calibration starts.
    pub open spec fn initial(range: u8, threshold: u8) -> Calibration {
        Calibration {
            phase: Phase::Gain,
            search: Search { lo: -1i32, hi: GAIN_LEVELS as i32, max: GAIN_LEVELS as i32 },
            level: 0,
            reference: ADC_REFERENCE_MAX,
            failed: false,
            range,
            threshold,
            min: 0,
            max: 255,
        }
    }

    /// The centre of the converter's range: a reading below it is what the
    /// searches look for.
    pub open spec fn center(self) -> u8 {
        self.range / 2
    }

    /// The state after the reading `reading`.
    ///
    /// While a search is on, the reading decides the pending probe. When
    /// the search ends, what it found is kept; where it found nothing, the
    /// highest setting is kept and the calibration is marked as failed.
    /// The reading of the last phase gives the window.
    pub open spec fn next(self, reading: u8) -> Calibration {
        match self.phase {
            Phase::Gain => {
                let search = self.search.after(reading < self.center());
                if search.pending() is Some {
                    Calibration { search, ..self }
                } else {
                    Calibration {
                        phase: Phase::Reference,
                        search: Search {
                            lo: -1i32,
                            hi: ADC_REFERENCE_MAX as i32,
                            max: ADC_REFERENCE_MAX as i32,
                        },
                        level: match search.outcome() {
                            Some(level) => level as u8,
                            None => (GAIN_LEVELS - 1) as u8,
                        },
                        failed: self.failed || search.outcome() is None,
                        ..self
                    }
                }
            },
            Phase::Reference => {
                let search = self.search.after(reading < self.center());
                if search.pending() is Some {
                    Calibration { search, ..self }
                } else {
                    Calibration {
                        phase: Phase::Level,
                        search,
                        reference: match search.outcome() {
                            Some(reference) => reference as u8,
                            None => ADC_REFERENCE_MAX,
                        },
                        failed: self.failed || search.outcome() is None,
                        ..self
                    }
                }
            },
            Phase::Level => Calibration {
                phase: Phase::Armed,
                min: window_min(reading, threshold_offset(self.range, self.threshold)) as u8,
                max: window_max(reading, threshold_offset(self.range, self.threshold)) as u8,
                ..self
            },
            Phase::Armed => self,
        }
    }

    /// The gain level at which the next measurement is taken.
    pub open spec fn probe_level(self) -> u8 {
        match self.phase {
            Phase::Gain => self.search.pending()->0 as u8,
            _ => self.level,
        }
    }

    /// The reference voltage at which the next measurement is taken.
    pub open spec fn probe_reference(self) -> u8 {
        match self.phase {
            Phase::Gain => ADC_REFERENCE_MAX,
            Phase::Reference => self.search.pending()->0 as u8,
            _ => self.reference,
        }
    }

    /// Takes a reading and moves the calibration on.
    pub fn advance(&mut self, reading: u8)
        requires
            old(self).wf(),
        ensures
            *final(self) == old(self).next(reading),
            final(self).wf(),
    {
        let center = self.range / 2;
        match self.phase {
            Phase::Gain => {
                self.search.advance(reading < center);
                if self.search.probe().is_none() {
                    match self.search.result() {
                        Some(level) => {
                            self.level = level as u8;
                        },
                        None => {
                            self.level = (GAIN_LEVELS - 1) as u8;
                            self.failed = true;
                        },
                    }
                    self.phase = Phase::Reference;
                    self.search = Search::new(ADC_REFERENCE_MIN as i32, ADC_REFERENCE_MAX as i32);
                }
            },
            Phase::Reference => {
                self.search.advance(reading < center);
                if self.search.probe().is_none() {
                    match self.search.result() {
                        Some(reference) => {
                            self.reference = reference as u8;
                        },
                        None => {
                            self.reference = ADC_REFERENCE_MAX;
                            self.failed = true;
                        },
                    }
                    self.phase = Phase::Level;
                }
            },
            Phase::Level => {
                let (min, max) = window(reading, self.range, self.threshold);
                self.min = min;
                self.max = max;
                self.phase = Phase::Armed;
            },
            Phase::Armed => {},
        }
    }
}

/// The time after which the chip is to be calibrated again, in
/// milliseconds: soon after a calibration that failed, else as the
/// configuration says.
pub fn recalibrate_after_ms(failed: bool, config: &WakeupConfig) -> (ms: u64)
    ensures
        ms == if failed {
            RECALIBRATE_SOON_MS
        } else {
            match config.recalibrate_interval_ms {
                Some(ms) => ms,
                None => RECALIBRATE_DEFAULT_MS,
            }
        },
{
    if failed {
        RECALIBRATE_SOON_MS
    } else {
        match config.recalibrate_interval_ms {
            Some(ms) => ms,
            None => RECALIBRATE_DEFAULT_MS,
        }
    }
}

/// The gain search keeps what it knows, and what it ends with is the lowest
/// level.
///
/// `below` says at which gain levels the reading lies below the centre.
/// Where it is monotone, as it is when a higher gain never gives a higher
/// reading, and each reading decides its probe as `below` says, the search
/// ends with the lowest level at which the reading lies below the centre,
/// and fails only where there is no such level.
pub proof fn lemma_gain_search(cal: Calibration, below: spec_fn(int) -> bool, reading: u8)
    requires
        cal.wf(),
        cal.phase == Phase::Gain,
        cal.search.inv(below, 0),
        search::monotone(below, 0, GAIN_LEVELS as int),
        below(cal.search.pending()->0 as int) == (reading < cal.center()),
    ensures
        cal.next(reading).phase == Phase::Gain ==> cal.next(reading).search.inv(below, 0),
        cal.next(reading).phase != Phase::Gain ==> {
            &&& cal.next(reading).phase == Phase::Reference
            &&& match cal.search.after(reading < cal.center()).outcome() {
                Some(level) => {
                    &&& cal.next(reading).level == level
                    &&& cal.next(reading).failed == cal.failed
                    &&& search::least(below, 0, GAIN_LEVELS as int, level as int)
                },
                None => {
                    &&& cal.next(reading).level == GAIN_LEVELS - 1
                    &&& cal.next(reading).failed
                    &&& forall|i: int| 0 <= i < GAIN_LEVELS ==> !#[trigger] below(i)
                },
            }
        },
{
    let after = cal.search.after(reading < cal.center());
    assert(after.inv(below, 0));
    if after.pending() is None {
        match after.outcome() {
            Some(x) => {
                assert(search::turns_true_at(below, 0, GAIN_LEVELS as int, x as int));
                search::lemma_turning_point_is_least(below, 0, GAIN_LEVELS as int, x as int);
            },
            None => {
                search::lemma_false_at_end_is_false_everywhere(below, 0, GAIN_LEVELS as int);
            },
        }
    }
}

/// The reference search keeps what it knows, and what it ends with is the
/// lowest reference voltage, in the same way as [`lemma_gain_search`].
pub proof fn lemma_reference_search(cal: Calibration, below: spec_fn(int) -> bool, reading: u8)
    requires
        cal.wf(),
        cal.phase == Phase::Reference,
        cal.search.inv(below, 0),
        search::monotone(below, 0, ADC_REFERENCE_MAX as int),
        below(cal.search.pending()->0 as int) == (reading < cal.center()),
    ensures
        cal.next(reading).phase == Phase::Reference ==> cal.next(reading).search.inv(below, 0),
        cal.next(reading).phase != Phase::Reference ==> {
            &&& cal.next(reading).phase == Phase::Level
            &&& match cal.search.after(reading < cal.center()).outcome() {
                Some(reference) => {
                    &&& cal.next(reading).reference == reference
                    &&& cal.next(reading).failed == cal.failed
                    &&& search::least(below, 0, ADC_REFERENCE_MAX as int, reference as int)
                },
                None => {
                    &&& cal.next(reading).reference == ADC_REFERENCE_MAX
                    &&& cal.next(reading).failed
                    &&& forall|i: int| 0 <= i < ADC_REFERENCE_MAX ==> !#[trigger] below(i)
                },
            }
        },
{
    let after = cal.search.after(reading < cal.center());
    assert(after.inv(below, 0));
    if after.pending() is None {
        match after.outcome() {
            Some(x) => {
                assert(search::turns_true_at(below, 0, ADC_REFERENCE_MAX as int, x as int));
                search::lemma_turning_point_is_least(below, 0, ADC_REFERENCE_MAX as int, x as int);
            },
            None => {
                search::lemma_false_at_end_is_false_everywhere(
                    below,
                    0,
                    ADC_REFERENCE_MAX as int,
                );
            },
        }
    }
}

/// The transfers that set the reference voltage and the bias current of
/// the converter, behind `before`. The reference has seven bits: six in a
/// register of their own and the seventh beside the bias current.
pub open spec fn adc_config_ops(before: Seq<Op>, reference: u8, bias_current: u8) -> Seq<Op> {
    before.push(super::wrote(regs::LPCD_ADC_REFERECE, low6(reference))).push(
        super::wrote(
            regs::LPCD_BIAS_CURRENT,
            regs::LpcdBiasCurrent(0).with_adc_referece_h(high2(reference) != 0).with_bias_current(
                bias_current,
            ),
        ),
    )
}

/// A value of the detection control register that clears the bits written
/// as one.
pub open spec fn ctrl1_clear() -> regs::LpcdCtrl1 {
    regs::LpcdCtrl1(0).with_bit_ctrl_set(false)
}

/// A value of the detection control register that sets the bits written as
/// one.
pub open spec fn ctrl1_set() -> regs::LpcdCtrl1 {
    regs::LpcdCtrl1(0).with_bit_ctrl_set(true)
}

/// The transfers that start a measurement, behind `before`: the detection
/// logic is reset with the calibration mode off, released, and put in
/// calibration mode.
pub open spec fn adc_start_ops(before: Seq<Op>) -> Seq<Op> {
    before.push(super::wrote(regs::LPCD_CTRL1, ctrl1_clear().with_rstn(true).with_calibra_en(true))).push(
        super::wrote(regs::LPCD_CTRL1, ctrl1_set().with_rstn(true)),
    ).push(super::wrote(regs::LPCD_CTRL1, ctrl1_set().with_calibra_en(true)))
}

/// The transfers that end a measurement and read its result, behind
/// `before`.
pub open spec fn adc_take_ops(before: Seq<Op>, high: u8, low: u8) -> Seq<Op> {
    before.push(super::wrote(regs::LPCD_CTRL1, ctrl1_clear().with_calibra_en(true))).push(
        super::read(regs::LPCD_ADC_RESULT_H, high),
    ).push(super::read(regs::LPCD_ADC_RESULT_L, low))
}

/// The transfers that prepare the chip for a calibration, behind `before`:
/// the interrupt pin is set up, the detection logic is reset and enabled,
/// the carrier drivers and the three timers are set as the configuration
/// says, and the converter is given the highest reference voltage.
pub open spec fn setup_ops(before: Seq<Op>, config: WakeupConfig) -> Seq<Op> {
    adc_config_ops(
        before.push(super::wrote(regs::COMMIEN, regs::Commien(0).with_irqinv(true))).push(
            super::wrote(regs::DIVIEN, regs::Divien(0).with_irqpushpull(true)),
        ).push(
            super::wrote(regs::LPCD_CTRL1, ctrl1_clear().with_rstn(true).with_calibra_en(true)),
        ).push(
            super::wrote(
                regs::LPCD_CTRL1,
                ctrl1_set().with_rstn(true).with_en(true).with_ie(true).with_sense_1(true),
            ),
        ).push(
            super::wrote(
                regs::LPCD_CTRL2,
                regs::LpcdCtrl2(0).with_tx2en(true).with_cwn(config.n_drive == 1).with_cwp(
                    config.p_drive,
                ),
            ),
        ).push(super::wrote(regs::LPCD_CTRL3, regs::LpcdCtrl3(0).with_hpden(false))).push(
            super::wrote(
                regs::LPCD_T1CFG,
                regs::LpcdT1cfg(0).with_t1cfg(config.sleep_time).with_t3clkdivk(
                    adc_divider(config.measure_time),
                ),
            ),
        ).push(super::wrote(regs::LPCD_T2CFG, regs::LpcdT2cfg(0).with_t2cfg(config.prepare_time))).push(
            super::wrote(regs::LPCD_T3CFG, regs::LpcdT3cfg(0).with_t3cfg(config.measure_time)),
        ).push(super::wrote(regs::LPCD_VMID_BD_CFG, regs::LpcdVmidBdCfg(0).with_vmid_bd_cfg(8))).push(
            super::wrote(regs::LPCD_AUTO_WUP_CFG, regs::LpcdAutoWupCfg(0).with_en(false)),
        ).push(super::wrote(regs::LPCD_MISC, regs::LpcdMisc(0).with_calib_vmid_en(true))),
        ADC_REFERENCE_MAX,
        0,
    )
}

/// The transfers that set the converter to the pending probe and start a
/// measurement, behind `before`.
pub open spec fn probe_ops(before: Seq<Op>, cal: Calibration) -> Seq<Op> {
    adc_start_ops(
        match cal.phase {
            Phase::Gain => before.push(
                super::wrote(
                    regs::LPCD_CTRL4,
                    regs::LpcdCtrl4(gain_codes()[cal.search.pending()->0 as int]),
                ),
            ),
            Phase::Reference => adc_config_ops(before, cal.search.pending()->0 as u8, 0),
            _ => before,
        },
    )
}

/// The transfers that write the window and leave the calibration, behind
/// `before`: each edge goes to two registers, the calibration mode is
/// switched off, the chip's own recalibration is disabled, and the
/// detection logic is reset and released.
pub open spec fn arm_ops(before: Seq<Op>, min: u8, max: u8) -> Seq<Op> {
    before.push(super::wrote(regs::LPCD_THRESHOLD_MIN_L, low6(min))).push(
        super::wrote(regs::LPCD_THRESHOLD_MIN_H, high2(min)),
    ).push(super::wrote(regs::LPCD_THRESHOLD_MAX_L, low6(max))).push(
        super::wrote(regs::LPCD_THRESHOLD_MAX_H, high2(max)),
    ).push(super::wrote(regs::LPCD_MISC, regs::LpcdMisc(0).with_calib_vmid_en(false))).push(
        super::wrote(
            regs::LPCD_AUTO_WUP_CFG,
            regs::LpcdAutoWupCfg(0).with_en(false).with_time(regs::LpcdAutoWupTime::_1hour()),
        ),
    ).push(super::wrote(regs::LPCD_CTRL1, ctrl1_clear().with_rstn(true))).push(
        super::wrote(regs::LPCD_CTRL1, ctrl1_set().with_rstn(true)),
    )
}

/// The transfers that follow a reading, behind `before`, where the
/// calibration went from `was` to `now`: the setting that a search ended
/// with is written, and at the end the window.
pub open spec fn advance_ops(before: Seq<Op>, was: Calibration, now: Calibration) -> Seq<Op> {
    if was.phase == Phase::Gain && now.phase == Phase::Reference {
        before.push(super::wrote(regs::LPCD_CTRL4, regs::LpcdCtrl4(gain_codes()[now.level as int])))
    } else if was.phase == Phase::Reference && now.phase == Phase::Level {
        adc_config_ops(before, now.reference, 0)
    } else if was.phase == Phase::Level && now.phase == Phase::Armed {
        arm_ops(before, now.min, now.max)
    } else {
        before
    }
}

impl<I: Interface> Fm175xx<I> {
    /// Sets the reference voltage and the bias current of the converter.
    pub fn lpcd_set_adc_config(&mut self, reference: u8, bias_current: u8)
        ensures
            final(self).iface.ops() == adc_config_ops(
                old(self).iface.ops(),
                reference,
                bias_current,
            ),
    {
        self.regs().lpcd_adc_referece().write_value(reference & 0x3F);
        let mut w = regs::LpcdBiasCurrent(0);
        w.set_adc_referece_h((reference >> 6) != 0);
        w.set_bias_current(bias_current);
        self.regs().lpcd_bias_current().write_value(w);
    }

    /// Starts a measurement. It has ended when [`Self::lpcd_adc_done`] says
    /// so.
    pub fn lpcd_adc_start(&mut self)
        ensures
            final(self).iface.ops() == adc_start_ops(old(self).iface.ops()),
    {
        let mut w = regs::LpcdCtrl1(0);
        w.set_bit_ctrl_set(false);
        w.set_rstn(true);
        w.set_calibra_en(true);
        self.regs().lpcd_ctrl1().write_value(w);
        let mut w = regs::LpcdCtrl1(0);
        w.set_bit_ctrl_set(true);
        w.set_rstn(true);
        self.regs().lpcd_ctrl1().write_value(w);
        let mut w = regs::LpcdCtrl1(0);
        w.set_bit_ctrl_set(true);
        w.set_calibra_en(true);
        self.regs().lpcd_ctrl1().write_value(w);
    }

    /// Whether the measurement has ended.
    pub fn lpcd_adc_done(&mut self) -> (done: bool)
        ensures
            exists|irq: regs::LpcdIrq|
                {
                    &&& final(self).iface.ops() == old(self).iface.ops().push(
                        #[trigger] super::read(regs::LPCD_IRQ, irq),
                    )
                    &&& done == irq.calib_irq()
                },
    {
        let irq = self.regs().lpcd_irq().read();
        assert(self.iface.ops() == old(self).iface.ops().push(super::read(regs::LPCD_IRQ, irq)));
        irq.calib_irq()
    }

    /// Reads the result of the last measurement from its two registers.
    pub fn lpcd_get_adc_value(&mut self) -> (reading: u8)
        ensures
            exists|high: u8, low: u8|
                {
                    &&& final(self).iface.ops() == old(self).iface.ops().push(
                        #[trigger] super::read(regs::LPCD_ADC_RESULT_H, high),
                    ).push(#[trigger] super::read(regs::LPCD_ADC_RESULT_L, low))
                    &&& reading == joined(high, low)
                },
    {
        let h = self.regs().lpcd_adc_result_h().read();
        let l = self.regs().lpcd_adc_result_l().read();
        assert(self.iface.ops() == old(self).iface.ops().push(
            super::read(regs::LPCD_ADC_RESULT_H, h),
        ).push(super::read(regs::LPCD_ADC_RESULT_L, l)));
        ((h & 0x3) << 6) | (l & 0x3f)
    }

    /// Ends a measurement and returns its reading.
    pub fn lpcd_adc_take(&mut self) -> (reading: u8)
        ensures
            exists|high: u8, low: u8|
                {
                    &&& final(self).iface.ops() == #[trigger] adc_take_ops(
                        old(self).iface.ops(),
                        high,
                        low,
                    )
                    &&& reading == joined(high, low)
                },
    {
        let mut w = regs::LpcdCtrl1(0);
        w.set_bit_ctrl_set(false);
        w.set_calibra_en(true);
        self.regs().lpcd_ctrl1().write_value(w);
        let ghost ops1 = self.iface.ops();
        let reading = self.lpcd_get_adc_value();
        let ghost (high, low) = choose|high: u8, low: u8|
            {
                &&& self.iface.ops() == ops1.push(#[trigger] super::read(regs::LPCD_ADC_RESULT_H, high)).push(
                    #[trigger] super::read(regs::LPCD_ADC_RESULT_L, low),
                )
                &&& reading == joined(high, low)
            };
        assert(self.iface.ops() == adc_take_ops(old(self).iface.ops(), high, low));
        reading
    }

    /// Prepares the chip for a calibration. The chip is to be reset before.
    pub fn lpcd_setup(&mut self, config: &WakeupConfig) -> (cal: Calibration)
        requires
            config.valid(),
        ensures
            cal == Calibration::initial(adc_range(config.measure_time) as u8, config.threshold),
            cal.wf(),
            final(self).iface.ops() == setup_ops(old(self).iface.ops(), *config),
    {
        let mut commien = regs::Commien(0);
        commien.set_irqinv(true);
        self.regs().commien().write_value(commien);
        let mut divien = regs::Divien(0);
        divien.set_irqpushpull(true);
        self.regs().divien().write_value(divien);
        let mut w = regs::LpcdCtrl1(0);
        w.set_bit_ctrl_set(false);
        w.set_rstn(true);
        w.set_calibra_en(true);
        self.regs().lpcd_ctrl1().write_value(w);
        let mut w = regs::LpcdCtrl1(0);
        w.set_bit_ctrl_set(true);
        w.set_rstn(true);
        w.set_en(true);
        w.set_ie(true);
        w.set_sense_1(true);
        self.regs().lpcd_ctrl1().write_value(w);
        let mut ctrl2 = regs::LpcdCtrl2(0);
        ctrl2.set_tx2en(true);
        ctrl2.set_cwn(config.n_drive == 1);
        ctrl2.set_cwp(config.p_drive);
        self.regs().lpcd_ctrl2().write_value(ctrl2);
        let mut ctrl3 = regs::LpcdCtrl3(0);
        ctrl3.set_hpden(false);
        self.regs().lpcd_ctrl3().write_value(ctrl3);
        let (divider, range) = adc_scale(config.measure_time);
        let mut t1 = regs::LpcdT1cfg(0);
        t1.set_t1cfg(config.sleep_time);
        t1.set_t3clkdivk(divider);
        self.regs().lpcd_t1cfg().write_value(t1);
        let mut t2 = regs::LpcdT2cfg(0);
        t2.set_t2cfg(config.prepare_time);
        self.regs().lpcd_t2cfg().write_value(t2);
        let mut t3 = regs::LpcdT3cfg(0);
        t3.set_t3cfg(config.measure_time);
        self.regs().lpcd_t3cfg().write_value(t3);
        let mut vmid = regs::LpcdVmidBdCfg(0);
        vmid.set_vmid_bd_cfg(8);
        self.regs().lpcd_vmid_bd_cfg().write_value(vmid);
        let mut wup = regs::LpcdAutoWupCfg(0);
        wup.set_en(false);
        self.regs().lpcd_auto_wup_cfg().write_value(wup);
        let mut misc = regs::LpcdMisc(0);
        misc.set_calib_vmid_en(true);
        self.regs().lpcd_misc().write_value(misc);
        self.lpcd_set_adc_config(ADC_REFERENCE_MAX, 0);
        Calibration {
            phase: Phase::Gain,
            search: Search::new(0, GAIN_LEVELS as i32),
            level: 0,
            reference: ADC_REFERENCE_MAX,
            failed: false,
            range,
            threshold: config.threshold,
            min: 0,
            max: 255,
        }
    }

    /// Sets the converter to the pending probe of the calibration and starts
    /// a measurement.
    pub fn lpcd_probe(&mut self, cal: &Calibration)
        requires
            cal.wf(),
        ensures
            final(self).iface.ops() == probe_ops(old(self).iface.ops(), *cal),
    {
        match cal.phase {
            Phase::Gain => {
                let level = match cal.search.probe() {
                    Some(level) => level,
                    None => 0,
                };
                self.regs().lpcd_ctrl4().write_value(regs::LpcdCtrl4(gain_code(level as usize)));
            },
            Phase::Reference => {
                let reference = match cal.search.probe() {
                    Some(reference) => reference,
                    None => 0,
                };
                self.lpcd_set_adc_config(reference as u8, 0);
            },
            _ => {},
        }
        self.lpcd_adc_start();
    }

    /// Takes a reading into the calibration and writes to the chip what
    /// follows from it. Returns whether the calibration has ended; where it
    /// has not, the next measurement is started with [`Self::lpcd_probe`].
    pub fn lpcd_advance(&mut self, cal: &mut Calibration, reading: u8) -> (armed: bool)
        requires
            old(cal).wf(),
        ensures
            *final(cal) == old(cal).next(reading),
            final(cal).wf(),
            armed == (final(cal).phase == Phase::Armed),
            final(self).iface.ops() == advance_ops(old(self).iface.ops(), *old(cal), *final(cal)),
    {
        let was = cal.phase;
        cal.advance(reading);
        match (was, cal.phase) {
            (Phase::Gain, Phase::Reference) => {
                self.regs().lpcd_ctrl4().write_value(regs::LpcdCtrl4(gain_code(cal.level as usize)));
            },
            (Phase::Reference, Phase::Level) => {
                self.lpcd_set_adc_config(cal.reference, 0);
            },
            (Phase::Level, Phase::Armed) => {
                self.regs().lpcd_threshold_min_l().write_value(cal.min & 0x3F);
                self.regs().lpcd_threshold_min_h().write_value(cal.min >> 6);
                self.regs().lpcd_threshold_max_l().write_value(cal.max & 0x3F);
                self.regs().lpcd_threshold_max_h().write_value(cal.max >> 6);
                let mut misc = regs::LpcdMisc(0);
                misc.set_calib_vmid_en(false);
                self.regs().lpcd_misc().write_value(misc);
                let mut wup = regs::LpcdAutoWupCfg(0);
                wup.set_en(false);
                wup.set_time(regs::LpcdAutoWupTime::_1hour());
                self.regs().lpcd_auto_wup_cfg().write_value(wup);
                let mut w = regs::LpcdCtrl1(0);
                w.set_bit_ctrl_set(false);
                w.set_rstn(true);
                self.regs().lpcd_ctrl1().write_value(w);
                let mut w = regs::LpcdCtrl1(0);
                w.set_bit_ctrl_set(true);
                w.set_rstn(true);
                self.regs().lpcd_ctrl1().write_value(w);
            },
            _ => {},
        }
        match cal.phase {
            Phase::Armed => true,
            _ => false,
        }
    }
}

} // verus!
