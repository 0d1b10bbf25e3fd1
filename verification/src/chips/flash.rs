//! Embedded flash memory controller.
//!
//! The controller is handled through a copy of its registers: each
//! operation says what the registers hold afterwards.

use vstd::prelude::*;
use crate::chips::registers::Field;

verus! {

pub const KEY1: u32 = 0x45670123;

pub const KEY2: u32 = 0xCDEF89AB;

pub const OPTKEY1: u32 = 0x08192A3B;

pub const OPTKEY2: u32 = 0x4C5D6E7F;

/// The registers of the controller.
#[derive(Clone, Copy, Debug, PartialEq, Eq, Structural)]
pub struct FlashRegisters {
    /// Access control register.
    pub acr: u32,
    /// Key register; holds the key written last.
    pub kr: u32,
    /// Option key register; holds the key written last.
    pub okr: u32,
    /// Status register.
    pub sr: u32,
    /// Control register.
    pub cr: u32,
    /// Option control register.
    pub ocr: u32,
}

/// The state and command of the flash.
#[derive(Clone, Copy, Debug, PartialEq, Eq, Structural)]
pub enum FlashState {
    Ready,
    Read,
    Write,
    Erase,
    WriteOption,
}

/// The configured program and erase parallelism.
#[derive(Clone, Copy, Debug, PartialEq, Eq, Structural)]
pub enum Psize {
    Byte,
    HalfWord,
    Word,
    DoubleWord,
}

impl Psize {
    /// The number that stands for the parallelism in the control register.
    pub open spec fn spec_value(self) -> u32 {
        match self {
            Psize::Byte => 0,
            Psize::HalfWord => 1,
            Psize::Word => 2,
            Psize::DoubleWord => 3,
        }
    }
}

/// Latency field of the access control register.
pub open spec fn latency() -> Field {
    Field { offset: 0, numbits: 4 }
}

/// Prefetch enable bit of the access control register.
pub open spec fn prften() -> Field {
    Field { offset: 8, numbits: 1 }
}

/// Instruction cache enable bit of the access control register.
pub open spec fn icen() -> Field {
    Field { offset: 9, numbits: 1 }
}

/// Data cache enable bit of the access control register.
pub open spec fn dcen() -> Field {
    Field { offset: 10, numbits: 1 }
}

/// Program size field of the control register.
pub open spec fn psize() -> Field {
    Field { offset: 8, numbits: 2 }
}

/// End of operation interrupt enable bit of the control register.
pub open spec fn eopie() -> Field {
    Field { offset: 24, numbits: 1 }
}

/// Error interrupt enable bit of the control register.
pub open spec fn errie() -> Field {
    Field { offset: 25, numbits: 1 }
}

/// Lock bit of the control register.
pub open spec fn lock() -> Field {
    Field { offset: 31, numbits: 1 }
}

/// Lock bit of the option control register.
pub open spec fn optlock() -> Field {
    Field { offset: 1, numbits: 1 }
}

/// The flash controller.
pub struct Flash {
    registers: FlashRegisters,
}

impl View for Flash {
    type V = FlashRegisters;

    closed spec fn view(&self) -> FlashRegisters {
        self.registers
    }
}

impl Flash {
    /// A controller whose registers are all zero.
    pub fn new() -> (flash: Flash)
        ensures
            flash@ == (FlashRegisters { acr: 0, kr: 0, okr: 0, sr: 0, cr: 0, ocr: 0 }),
    {
        Flash { registers: FlashRegisters { acr: 0, kr: 0, okr: 0, sr: 0, cr: 0, ocr: 0 } }
    }

    /// The registers as they stand.
    pub fn registers(&self) -> (r: FlashRegisters)
        ensures
            r == self@,
    {
        self.registers
    }

    /// Takes `registers` as what the controller holds.
    pub fn load(&mut self, registers: FlashRegisters)
        ensures
            final(self)@ == registers,
    {
        self.registers = registers;
    }

    /// Enables the interrupts for the end of an operation and for errors.
    pub fn enable(&mut self)
        ensures
            final(self)@ == (FlashRegisters {
                cr: errie().spec_modify(eopie().spec_modify(old(self)@.cr, 1), 1),
                ..old(self)@
            }),
    {
        let cr: u32 = Field { offset: 24, numbits: 1 }.modify(self.registers.cr, 1);
        self.registers.cr = Field { offset: 25, numbits: 1 }.modify(cr, 1);
    }

    /// Whether the control register is locked.
    pub fn is_locked(&self) -> (r: bool)
        ensures
            r == (lock().spec_read(self@.cr) != 0),
    {
        Field { offset: 31, numbits: 1 }.is_set(self.registers.cr)
    }

    /// Unlocks the control register: the two keys are written to the key
    /// register one after the other. They are handed back in the order in
    /// which they are written.
    pub fn unlock(&mut self) -> (keys: (u32, u32))
        ensures
            keys == (KEY1, KEY2),
            final(self)@ == (FlashRegisters { kr: KEY2, ..old(self)@ }),
    {
        self.registers.kr = KEY1;
        self.registers.kr = KEY2;
        (KEY1, KEY2)
    }

    /// Locks the control register.
    pub fn lock(&mut self)
        ensures
            final(self)@ == (FlashRegisters {
                cr: lock().spec_modify(old(self)@.cr, 1),
                ..old(self)@
            }),
    {
        self.registers.cr = Field { offset: 31, numbits: 1 }.modify(self.registers.cr, 1);
    }

    /// Whether the option control register is locked.
    pub fn is_locked_option(&self) -> (r: bool)
        ensures
            r == (optlock().spec_read(self@.ocr) != 0),
    {
        Field { offset: 1, numbits: 1 }.is_set(self.registers.ocr)
    }

    /// Unlocks the option control register: the two option keys are written
    /// to the option key register one after the other. They are handed back
    /// in the order in which they are written.
    pub fn unlock_option(&mut self) -> (keys: (u32, u32))
        ensures
            keys == (OPTKEY1, OPTKEY2),
            final(self)@ == (FlashRegisters { okr: OPTKEY2, ..old(self)@ }),
    {
        self.registers.okr = OPTKEY1;
        self.registers.okr = OPTKEY2;
        (OPTKEY1, OPTKEY2)
    }

    /// Locks the option control register.
    pub fn lock_option(&mut self)
        ensures
            final(self)@ == (FlashRegisters {
                ocr: optlock().spec_modify(old(self)@.ocr, 1),
                ..old(self)@
            }),
    {
        self.registers.ocr = Field { offset: 1, numbits: 1 }.modify(self.registers.ocr, 1);
    }

    /// Sets the number of bytes programmed by each write.
    pub fn set_parallelism(&mut self, parallelism: Psize)
        ensures
            final(self)@ == (FlashRegisters {
                cr: psize().spec_modify(old(self)@.cr, parallelism.spec_value()),
                ..old(self)@
            }),
    {
        let value: u32 = match parallelism {
            Psize::Byte => 0,
            Psize::HalfWord => 1,
            Psize::Word => 2,
            Psize::DoubleWord => 3,
        };
        self.registers.cr = Field { offset: 8, numbits: 2 }.modify(self.registers.cr, value);
    }

    /// The number of bytes programmed by each write.
    pub fn get_parallelism(&self) -> (r: Option<Psize>)
        ensures
            r is Some,
            r->0.spec_value() == psize().spec_read(self@.cr),
    {
        let cr: u32 = self.registers.cr;
        let value: u32 = Field { offset: 8, numbits: 2 }.read(cr);
        assert(value <= 3) by (bit_vector)
            requires
                value == (cr >> 8u32) & (0xFFFF_FFFFu32 >> 30u32),
        ;
        match value {
            0 => Some(Psize::Byte),
            1 => Some(Psize::HalfWord),
            2 => Some(Psize::Word),
            _ => Some(Psize::DoubleWord),
        }
    }

    /// Enables the instruction cache.
    pub fn enable_instruction_cache(&mut self)
        ensures
            final(self)@ == (FlashRegisters {
                acr: icen().spec_modify(old(self)@.acr, 1),
                ..old(self)@
            }),
    {
        self.registers.acr = Field { offset: 9, numbits: 1 }.modify(self.registers.acr, 1);
    }

    /// Enables the data cache.
    pub fn enable_data_cache(&mut self)
        ensures
            final(self)@ == (FlashRegisters {
                acr: dcen().spec_modify(old(self)@.acr, 1),
                ..old(self)@
            }),
    {
        self.registers.acr = Field { offset: 10, numbits: 1 }.modify(self.registers.acr, 1);
    }

    /// Sets the number of wait states: the low four bits of `latency`.
    pub fn set_latency(&mut self, latency: u32)
        ensures
            final(self)@ == (FlashRegisters {
                acr: self::latency().spec_modify(old(self)@.acr, latency),
                ..old(self)@
            }),
    {
        self.registers.acr = Field { offset: 0, numbits: 4 }.modify(self.registers.acr, latency);
    }

    /// Enables the prefetch.
    pub fn enable_prefetch(&mut self)
        ensures
            final(self)@ == (FlashRegisters {
                acr: prften().spec_modify(old(self)@.acr, 1),
                ..old(self)@
            }),
    {
        self.registers.acr = Field { offset: 8, numbits: 1 }.modify(self.registers.acr, 1);
    }
}

} // verus!
