//! Advanced-control timer 1.

use vstd::prelude::*;
use crate::chips::registers::Field;

verus! {

/// The registers of the timer that the driver uses.
#[derive(Clone, Copy, Debug, PartialEq, Eq, Structural)]
pub struct Tim1Registers {
    /// Control register 1.
    pub cr1: u32,
    /// Event generation register; holds what was written last.
    pub egr: u32,
    /// Prescaler.
    pub psc: u32,
    /// Auto-reload register.
    pub arr: u32,
}

/// Counter enable bit of control register 1.
pub open spec fn cen() -> Field {
    Field { offset: 0, numbits: 1 }
}

/// Update generation bit of the event generation register.
pub open spec fn ug() -> Field {
    Field { offset: 0, numbits: 1 }
}

/// The timer as a mathematical value.
pub struct Tim1View {
    pub registers: Tim1Registers,
    /// The timer's clock is on.
    pub clock: bool,
}

/// The timer.
pub struct Tim1 {
    registers: Tim1Registers,
    clock: bool,
}

impl View for Tim1 {
    type V = Tim1View;

    closed spec fn view(&self) -> Tim1View {
        Tim1View { registers: self.registers, clock: self.clock }
    }
}

impl Tim1 {
    /// A timer whose registers are all zero and whose clock is off.
    pub fn new() -> (tim: Tim1)
        ensures
            tim@ == (Tim1View {
                registers: Tim1Registers { cr1: 0, egr: 0, psc: 0, arr: 0 },
                clock: false,
            }),
    {
        Tim1 { registers: Tim1Registers { cr1: 0, egr: 0, psc: 0, arr: 0 }, clock: false }
    }

    /// The registers as they stand.
    pub fn registers(&self) -> (r: Tim1Registers)
        ensures
            r == self@.registers,
    {
        self.registers
    }

    /// Takes `registers` as what the timer holds.
    pub fn load(&mut self, registers: Tim1Registers)
        ensures
            final(self)@ == (Tim1View { registers, ..old(self)@ }),
    {
        self.registers = registers;
    }

    pub fn is_enabled_clock(&self) -> (r: bool)
        ensures
            r == self@.clock,
    {
        self.clock
    }

    pub fn enable_clock(&mut self)
        ensures
            final(self)@ == (Tim1View { clock: true, ..old(self)@ }),
    {
        self.clock = true;
    }

    pub fn disable_clock(&mut self)
        ensures
            final(self)@ == (Tim1View { clock: false, ..old(self)@ }),
    {
        self.clock = false;
    }

    /// The timer raises no interrupt that needs handling.
    pub fn handle_interrupt(&self) {
    }

    /// Starts the timer: it counts to the top of its range, at the clock
    /// divided by 499, with the prescaler made active by an update event.
    pub fn start(&mut self)
        ensures
            final(self)@ == (Tim1View {
                registers: Tim1Registers {
                    arr: 0xFFFF_FFFE,
                    psc: 498,
                    egr: ug().spec_val(1),
                    cr1: cen().spec_modify(old(self)@.registers.cr1, 1),
                },
                ..old(self)@
            }),
    {
        self.registers.arr = 0xFFFF_FFFF - 1;
        // the prescaler becomes active with the update event
        self.registers.psc = 499 - 1;
        self.registers.egr = Field { offset: 0, numbits: 1 }.val(1);
        self.registers.cr1 = Field { offset: 0, numbits: 1 }.modify(self.registers.cr1, 1);
    }
}

} // verus!
