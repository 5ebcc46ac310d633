//! Driver for the FM175xx family of front-ends.
//!
//! The driver owns the register bus. What needs a pin or a clock is left to
//! the caller: the driver says in which order the registers are written and
//! what follows from the values that are read, and the caller waits between
//! the steps.
use vstd::prelude::*;
use interface::Op;
use regs::{Regs, Value};

pub mod interface;
pub mod iso14443a;
pub mod lpcd;
pub mod regs;

pub use crate::search::binary_search;
pub use interface::Interface;

verus! {

/// The number of bytes that the FIFO holds.
pub const FIFO_SIZE: usize = 64;

/// The largest prescaler of the timer.
pub const PRESCALER_MAX: u32 = 0xFFF;

/// The timer ticks that `timeout_1fc` carrier periods take.
pub open spec fn timer_ticks(timeout_1fc: int) -> int {
    timeout_1fc * 13560 / 1_000_000
}

/// The reload value for a time of `ticks` and the prescaler `prescaler`:
/// one less than the ticks, and nothing where there is no tick, over the
/// divider of the prescaler.
pub open spec fn timer_reload(ticks: int, prescaler: int) -> int {
    (if ticks >= 1 {
        ticks - 1
    } else {
        0
    }) / (2 * prescaler + 1)
}

/// The least prescaler for which the reload value fits in 16 bits.
pub open spec fn is_timer_prescaler(ticks: int, prescaler: int) -> bool {
    &&& 0 <= prescaler <= PRESCALER_MAX
    &&& timer_reload(ticks, prescaler) <= 0xFFFF
    &&& forall|q: int| 0 <= q < prescaler ==> #[trigger] timer_reload(ticks, q) > 0xFFFF
}

/// Prescaler and reload value of the timer for `timeout_1fc` carrier
/// periods.
pub fn timer_settings(timeout_1fc: u32) -> (res: (u16, u16))
    ensures
        is_timer_prescaler(timer_ticks(timeout_1fc as int), res.0 as int),
        res.1 == timer_reload(timer_ticks(timeout_1fc as int), res.0 as int),
{
    let ticks: u64 = timeout_1fc as u64 * 13560 / 1_000_000;
    let count: u64 = if ticks >= 1 {
        ticks - 1
    } else {
        0
    };
    let mut prescaler: u64 = 0;
    while prescaler < 0xFFF && count / (prescaler * 2 + 1) > 0xFFFF
        invariant
            prescaler <= 0xFFF,
            ticks == timer_ticks(timeout_1fc as int),
            count == if ticks >= 1 {
                ticks - 1
            } else {
                0
            },
            forall|q: int| 0 <= q < prescaler ==> #[trigger] timer_reload(ticks as int, q) > 0xFFFF,
        decreases 0xFFF - prescaler,
    {
        prescaler += 1;
    }
    let reload = count / (prescaler * 2 + 1);
    proof {
        if prescaler == 0xFFF {
            assert(ticks <= 58_240_000) by (nonlinear_arith)
                requires
                    ticks == timeout_1fc as u64 * 13560 / 1_000_000,
                    timeout_1fc <= 0xFFFF_FFFF,
            ;
            assert(reload <= 0xFFFF) by (nonlinear_arith)
                requires
                    reload == count / 8191,
                    count <= 58_240_000,
            ;
        }
    }
    (prescaler as u16, reload as u16)
}

/// The transfer that writes `val` to the register at `reg`.
pub open spec fn wrote<T: Value>(reg: usize, val: T) -> Op {
    Op::Write { reg, val: val.bits() }
}

/// The transfer that reads `val` from the register at `reg`.
pub open spec fn read<T: Value>(reg: usize, val: T) -> Op {
    Op::Read { reg, val: val.bits() }
}

/// The value of the timer mode register for a prescaler: the timer starts
/// by itself when a frame has been sent, and the register holds the high
/// bits of the prescaler.
pub open spec fn tmode_for(prescaler: u16) -> regs::Tmode {
    regs::Tmode(0).with_tauto(true).with_tprescaler_hi((prescaler >> 8) as u8)
}

/// The transfers of [`Fm175xx::set_timer`], behind `before`.
pub open spec fn set_timer_ops(before: Seq<Op>, prescaler: u16, reload: u16) -> Seq<Op> {
    before.push(wrote(regs::TMODE, tmode_for(prescaler))).push(
        wrote(regs::TPRESCALER, (prescaler & 0xFF) as u8),
    ).push(wrote(regs::TRELOADHI, (reload >> 8) as u8)).push(
        wrote(regs::TRELOADLO, (reload & 0xFF) as u8),
    )
}

/// The value of the command register that starts `command` and leaves the
/// chip powered and its receiver on.
pub open spec fn command_for(command: regs::CommandVal) -> regs::Command {
    regs::Command(0).with_command(command)
}

/// The value of the transmitter control register that drives the carrier on
/// both pins, the second one inverted.
pub open spec fn carrier_on() -> regs::Txcontrol {
    regs::Txcontrol(0).with_tx1rfen(true).with_tx2rfen(true).with_invtx2on(true)
}

/// An FM175xx behind its register bus.
pub struct Fm175xx<I: Interface> {
    pub iface: I,
}

impl<I: Interface> Fm175xx<I> {
    /// Takes over the bus of a chip that is held in power-down.
    pub fn new(iface: I) -> (chip: Self)
        ensures
            chip.iface == iface,
    {
        Self { iface }
    }

    /// The register map of the chip.
    pub fn regs(&mut self) -> (r: Regs<'_, I>)
        ensures
            r.addr == 0,
            *r.iface == old(self).iface,
            final(self).iface == *final(r.iface),
    {
        Regs { iface: &mut self.iface, addr: 0 }
    }

    /// Starts the soft reset. The chip is to be out of power-down for a
    /// millisecond before, and the reset has ended when
    /// [`Self::reset_done`] says so.
    pub fn soft_reset(&mut self)
        ensures
            final(self).iface.ops() == old(self).iface.ops().push(
                wrote(regs::COMMAND, command_for(regs::CommandVal::softreset())),
            ),
    {
        let mut w = regs::Command(0);
        w.set_command(regs::CommandVal::softreset());
        self.regs().command().write_value(w);
    }

    /// Whether the chip has come back to idle.
    pub fn reset_done(&mut self) -> (done: bool)
        ensures
            exists|val: regs::Command|
                {
                    &&& final(self).iface.ops() == old(self).iface.ops().push(
                        #[trigger] read(regs::COMMAND, val),
                    )
                    &&& done == (val.command() == regs::CommandVal::idle())
                },
    {
        let val = self.regs().command().read();
        assert(self.iface.ops() == old(self).iface.ops().push(read(regs::COMMAND, val)));
        val.command().0 == regs::CommandVal::idle().0
    }

    /// Empties the FIFO.
    pub fn clear_fifo(&mut self)
        ensures
            final(self).iface.ops() == old(self).iface.ops().push(
                wrote(regs::FIFOLEVEL, regs::Fifolevel(0).with_flushfifo(true)),
            ),
    {
        let mut w = regs::Fifolevel(0);
        w.set_flushfifo(true);
        self.regs().fifolevel().write_value(w);
    }

    /// Programs the timer to run out `timeout_1fc` carrier periods after
    /// the next frame has been sent.
    pub fn set_timer(&mut self, timeout_1fc: u32)
        ensures
            exists|prescaler: u16, reload: u16|
                {
                    &&& is_timer_prescaler(timer_ticks(timeout_1fc as int), prescaler as int)
                    &&& reload == timer_reload(timer_ticks(timeout_1fc as int), prescaler as int)
                    &&& final(self).iface.ops() == #[trigger] set_timer_ops(
                        old(self).iface.ops(),
                        prescaler,
                        reload,
                    )
                },
    {
        let (prescaler, reload) = timer_settings(timeout_1fc);
        let mut w = regs::Tmode(0);
        w.set_tauto(true);
        w.set_tprescaler_hi((prescaler >> 8) as u8);
        self.regs().tmode().write_value(w);
        self.regs().tprescaler().write_value((prescaler & 0xFF) as u8);
        self.regs().treloadhi().write_value((reload >> 8) as u8);
        self.regs().treloadlo().write_value((reload & 0xFF) as u8);
        assert(self.iface.ops() == set_timer_ops(old(self).iface.ops(), prescaler, reload));
    }

    /// Switches the carrier on.
    pub fn rf_on(&mut self)
        ensures
            final(self).iface.ops() == old(self).iface.ops().push(
                wrote(regs::TXCONTROL, carrier_on()),
            ),
    {
        let mut w = regs::Txcontrol(0);
        w.set_tx1rfen(true);
        w.set_tx2rfen(true);
        w.set_invtx2on(true);
        self.regs().txcontrol().write_value(w);
    }

    /// The chip for use without a protocol.
    pub fn raw(&mut self) -> (raw: Raw<'_, I>)
        ensures
            *raw.inner == *old(self),
            *final(self) == *final(raw.inner),
    {
        Raw { inner: self }
    }
}

/// A chip that is used without a protocol, to switch its field.
pub struct Raw<'a, I: Interface> {
    pub inner: &'a mut Fm175xx<I>,
}

impl<'a, I: Interface> Raw<'a, I> {
    /// Switches the field on, once the chip has been reset: wakes the chip
    /// and its receiver and drives the carrier.
    pub fn field_on(&mut self)
        ensures
            *final(final(self).inner) == *final(old(self).inner),
            final(self).inner.iface.ops() == old(self).inner.iface.ops().push(
                wrote(
                    regs::COMMAND,
                    regs::Command(0).with_powerdown(false).with_rcvoff(false),
                ),
            ).push(wrote(regs::TXCONTROL, carrier_on())),
    {
        let mut w = regs::Command(0);
        w.set_powerdown(false);
        w.set_rcvoff(false);
        self.inner.regs().command().write_value(w);
        self.inner.rf_on();
    }
}

} // verus!
