//! DCDC converter.

use vstd::prelude::*;
use crate::chips::registers::Field;

verus! {

/// The registers of the converter.
#[derive(Clone, Copy, Debug, PartialEq, Eq, Structural)]
pub struct DcdcRegisters {
    pub reg0: u32,
    pub reg1: u32,
    pub reg2: u32,
    pub reg3: u32,
}

/// Output stable bit of register 0.
pub open spec fn sts_dc_ok() -> Field {
    Field { offset: 31, numbits: 1 }
}

/// Target voltage field of register 3.
pub open spec fn trg() -> Field {
    Field { offset: 0, numbits: 5 }
}

/// The target for a core voltage in millivolts: steps of 25 mV above
/// 800 mV.
pub open spec fn target_for(value: u32) -> u32 {
    ((value - 800) / 25) as u32
}

/// The converter.
pub struct Dcdc {
    registers: DcdcRegisters,
}

impl View for Dcdc {
    type V = DcdcRegisters;

    closed spec fn view(&self) -> DcdcRegisters {
        self.registers
    }
}

impl Dcdc {
    /// A converter whose registers are all zero.
    pub fn new() -> (dcdc: Dcdc)
        ensures
            dcdc@ == (DcdcRegisters { reg0: 0, reg1: 0, reg2: 0, reg3: 0 }),
    {
        Dcdc { registers: DcdcRegisters { reg0: 0, reg1: 0, reg2: 0, reg3: 0 } }
    }

    /// The registers as they stand.
    pub fn registers(&self) -> (r: DcdcRegisters)
        ensures
            r == self@,
    {
        self.registers
    }

    /// Takes `registers` as what the converter holds.
    pub fn load(&mut self, registers: DcdcRegisters)
        ensures
            final(self)@ == registers,
    {
        self.registers = registers;
    }

    /// Sets the core voltage to `value` millivolts, which is at least 800.
    /// The new voltage is in effect once `is_output_ok` holds.
    pub fn modify_vdd_soc(&mut self, value: u32)
        requires
            value >= 800,
        ensures
            final(self)@ == (DcdcRegisters {
                reg3: trg().spec_modify(old(self)@.reg3, target_for(value)),
                ..old(self)@
            }),
    {
        let trg: u32 = (value - 800) / 25;
        self.registers.reg3 = Field { offset: 0, numbits: 5 }.modify(self.registers.reg3, trg);
    }

    /// Whether the output of the converter is stable.
    pub fn is_output_ok(&self) -> (r: bool)
        ensures
            r == (sts_dc_ok().spec_read(self@.reg0) != 0),
    {
        Field { offset: 31, numbits: 1 }.is_set(self.registers.reg0)
    }
}

} // verus!
