//! Virtual clocks: how many periods of a fixed rate have passed in a span of
//! elapsed time, however the span is cut into pieces.
//!
//! The machine has two clocked activities, instruction cycles and timer
//! ticks, each with a rate of its own. A host measures elapsed time in
//! microseconds and asks a clock how many periods are due; what is left of a
//! period is carried over to the next call, so no time is lost or counted
//! twice when the host's pace varies.
use crate::cpu::Cpu;
use vstd::prelude::*;

verus! {

/// The number of microseconds in one second.
pub const MICROS_PER_SECOND: u64 = 1_000_000;

/// The highest rate that a clock can have, in periods per second: one period
/// per microsecond.
pub const MAX_RATE: u32 = 1_000_000;

/// The rate of the timer clock, in ticks per second.
pub const TIMER_RATE: u32 = 60;

/// The periods of `rate` per second that are due after `elapsed`
/// microseconds, given the `residue` carried over from before. The residue
/// counts millionths of a period.
pub open spec fn due(rate: int, residue: int, elapsed: int) -> int {
    (residue + elapsed * rate) / (MICROS_PER_SECOND as int)
}

/// The residue carried over after `elapsed` microseconds.
pub open spec fn carried(rate: int, residue: int, elapsed: int) -> int {
    (residue + elapsed * rate) % (MICROS_PER_SECOND as int)
}

/// A clock of a fixed rate.
pub struct Clock {
    pub(crate) rate: u32,
    pub(crate) residue: u64,
}

/// The clock of the two timers, and the one thing it drives: it turns
/// elapsed time into ticks at `TIMER_RATE` and applies them to a machine.
pub struct TimerDriver {
    pub(crate) clock: Clock,
}

impl Clock {
    /// The rate, in periods per second.
    pub open(crate) spec fn rate(&self) -> int {
        self.rate as int
    }

    /// The part of a period that has passed but is not yet counted, in
    /// millionths of a period.
    pub open(crate) spec fn residue(&self) -> int {
        self.residue as int
    }

    /// Well-formedness: the rate is at most `MAX_RATE` and the residue is
    /// less than one period.
    pub open(crate) spec fn wf(&self) -> bool {
        self.rate <= MAX_RATE && self.residue < MICROS_PER_SECOND
    }

    /// A clock of `rate` periods per second with nothing carried over;
    /// `None` if `rate` is above `MAX_RATE`.
    pub fn new(rate: u32) -> (clock: Option<Clock>)
        ensures
            rate <= MAX_RATE ==> clock is Some && clock->Some_0.wf() && clock->Some_0.rate() == rate
                && clock->Some_0.residue() == 0,
            rate > MAX_RATE ==> clock is None,
    {
        if rate <= MAX_RATE {
            Some(Clock { rate, residue: 0 })
        } else {
            None
        }
    }

    /// Lets `elapsed_micros` microseconds pass and returns the number of
    /// periods that have become due. What is left of a period is carried
    /// over.
    pub fn advance(&mut self, elapsed_micros: u64) -> (periods: u64)
        requires
            old(self).wf(),
        ensures
            final(self).wf(),
            final(self).rate() == old(self).rate(),
            periods == due(old(self).rate(), old(self).residue(), elapsed_micros as int),
            final(self).residue() == carried(
                old(self).rate(),
                old(self).residue(),
                elapsed_micros as int,
            ),
    {
        assert(elapsed_micros * self.rate <= 0xFFFF_FFFF_FFFF_FFFF * 1_000_000) by (nonlinear_arith)
            requires
                elapsed_micros <= 0xFFFF_FFFF_FFFF_FFFF,
                self.rate <= 1_000_000,
        ;
        let total: u128 = self.residue as u128 + (elapsed_micros as u128) * (self.rate as u128);
        self.residue = (total % (MICROS_PER_SECOND as u128)) as u64;
        (total / (MICROS_PER_SECOND as u128)) as u64
    }
}

impl TimerDriver {
    /// The clock that drives the timers.
    pub open(crate) spec fn clock(&self) -> Clock {
        self.clock
    }

    /// Well-formedness: the clock is well-formed and runs at `TIMER_RATE`.
    pub open(crate) spec fn wf(&self) -> bool {
        self.clock.wf() && self.clock.rate == TIMER_RATE
    }

    /// A timer driver with nothing carried over.
    pub fn new() -> (driver: TimerDriver)
        ensures
            driver.wf(),
            driver.clock().residue() == 0,
    {
        TimerDriver { clock: Clock { rate: TIMER_RATE, residue: 0 } }
    }

    /// Lets `elapsed_micros` microseconds pass: the ticks that have become
    /// due are applied to the timers of `cpu`, whatever its mode, and their
    /// number is returned. Nothing else of the machine changes.
    pub fn advance(&mut self, cpu: &mut Cpu, elapsed_micros: u64) -> (ticks: u64)
        requires
            old(self).wf(),
            old(cpu).wf(),
        ensures
            final(self).wf(),
            final(cpu).wf(),
            ticks == due(TIMER_RATE as int, old(self).clock().residue(), elapsed_micros as int),
            final(self).clock().residue() == carried(
                TIMER_RATE as int,
                old(self).clock().residue(),
                elapsed_micros as int,
            ),
            final(cpu)@ == old(cpu)@.after_ticks(ticks as nat),
    {
        let ticks = self.clock.advance(elapsed_micros);
        cpu.run_timers(ticks);
        ticks
    }
}

/// Time can be cut anywhere: letting `a` and then `b` microseconds pass makes
/// as many periods due, and carries as much over, as letting `a + b` pass at
/// once.
pub proof fn lemma_advance_splits(rate: int, residue: int, a: int, b: int)
    requires
        0 <= rate,
        0 <= residue,
        0 <= a,
        0 <= b,
    ensures
        due(rate, residue, a) + due(rate, carried(rate, residue, a), b) == due(
            rate,
            residue,
            a + b,
        ),
        carried(rate, carried(rate, residue, a), b) == carried(rate, residue, a + b),
{
    assert((a + b) * rate == a * rate + b * rate) by (nonlinear_arith);
}

/// From a fresh clock, a span that holds a whole number of periods makes
/// exactly that many due and carries nothing over: at 60 per second, 50 000
/// microseconds are 3 ticks.
pub proof fn lemma_whole_periods(rate: int, elapsed: int, periods: int)
    requires
        elapsed * rate == periods * MICROS_PER_SECOND,
    ensures
        due(rate, 0, elapsed) == periods,
        carried(rate, 0, elapsed) == 0,
{
}

} // verus!
