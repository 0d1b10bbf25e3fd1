//! General-purpose timer 4, used to generate PWM signals on its four
//! channels.

use vstd::prelude::*;
use crate::chips::pwm::TimPwmPin;
use crate::chips::registers::Field;
use crate::returncode::ReturnCode;

verus! {

/// Ticks per second of the clock that feeds the timer.
pub const CLOCK_HZ: usize = 8000000;

/// The registers of the timer that the driver uses.
#[derive(Clone, Copy, Debug, PartialEq, Eq, Structural)]
pub struct Tim4Registers {
    /// Control register 1.
    pub cr1: u32,
    /// Event generation register; holds what was written last.
    pub egr: u32,
    /// Capture/compare mode register 1, for channels 1 and 2.
    pub ccmr1_output: u32,
    /// Capture/compare mode register 2, for channels 3 and 4.
    pub ccmr2_output: u32,
    /// Capture/compare enable register.
    pub ccer: u32,
    /// Prescaler.
    pub psc: u32,
    /// Auto-reload register.
    pub arr: u32,
    /// Capture/compare registers of channels 1 to 4.
    pub ccr1: u32,
    pub ccr2: u32,
    pub ccr3: u32,
    pub ccr4: u32,
}

/// The timer as a mathematical value.
pub struct Tim4View {
    pub registers: Tim4Registers,
    /// The timer's clock is on.
    pub clock: bool,
}

/// The sixteen low bits of a register.
pub open spec fn low16() -> Field {
    Field { offset: 0, numbits: 16 }
}

/// Control register 1 set up for edge-aligned PWM: counting up, clock not
/// divided, auto-reload not buffered.
pub open spec fn pwm_cr1(cr1: u32) -> u32 {
    let dir = (Field { offset: 4, numbits: 1 }).spec_modify(cr1, 0);
    let ckd = (Field { offset: 8, numbits: 2 }).spec_modify(dir, 0);
    let arpe = (Field { offset: 7, numbits: 1 }).spec_modify(ckd, 0);
    (Field { offset: 5, numbits: 2 }).spec_modify(arpe, 0)
}

/// A capture/compare mode register with the channel in its lower
/// (`upper` false) or upper half set to PWM mode 1, with preload and clear
/// enabled.
pub open spec fn pwm_ccmr(ccmr: u32, upper: bool) -> u32 {
    let base: u32 = if upper {
        8
    } else {
        0
    };
    let pe = (Field { offset: (base + 3) as u32, numbits: 1 }).spec_modify(ccmr, 1);
    let ce = (Field { offset: (base + 7) as u32, numbits: 1 }).spec_modify(pe, 1);
    (Field { offset: (base + 4) as u32, numbits: 3 }).spec_modify(ce, 6)
}

/// The enable register with the output of `channel` enabled.
pub open spec fn pwm_ccer(ccer: u32, channel: u8) -> u32 {
    (Field { offset: ((channel - 1) * 4) as u32, numbits: 1 }).spec_modify(ccer, 1)
}

/// Ticks of one period of a signal of `frequency`.
pub open spec fn counter_top(frequency: usize) -> int {
    CLOCK_HZ as int / frequency as int
}

/// The compare value for a duty cycle: the ticks of the period less the
/// duty cycle divided by the frequency.
pub open spec fn compare_value(frequency: usize, duty_cycle: usize) -> int {
    counter_top(frequency) - duty_cycle as int / frequency as int
}

/// A signal can be generated: the frequency is not zero, the period does
/// not end on a multiple of 65536 ticks, and the compare value is not
/// negative.
pub open spec fn signal_valid(frequency: usize, duty_cycle: usize) -> bool {
    frequency > 0 && counter_top(frequency) % 65536 != 0 && compare_value(frequency, duty_cycle)
        >= 0
}

impl Tim4Registers {
    /// The registers after `start_pwm` for a valid signal: the timer is set
    /// up for PWM with the period in the auto-reload register; for a
    /// channel from 1 to 4 that channel is set to PWM mode, an update event
    /// is generated, the compare value is written and the output enabled;
    /// and the counter is enabled.
    pub open spec fn start_pwm(self, channel: u8, frequency: usize, duty_cycle: usize) -> Tim4Registers {
        let top = (counter_top(frequency) % 65536 - 1) as u32;
        let compare = (compare_value(frequency, duty_cycle) % 65536) as u32;
        let common = Tim4Registers {
            cr1: pwm_cr1(self.cr1),
            psc: low16().spec_modify(self.psc, 0),
            arr: low16().spec_modify(self.arr, top),
            ..self
        };
        let with_channel = if 1 <= channel <= 4 {
            let on = Tim4Registers {
                egr: (Field { offset: 0, numbits: 1 }).spec_val(1),
                ccer: pwm_ccer(common.ccer, channel),
                ..common
            };
            if channel == 1 {
                Tim4Registers {
                    ccmr1_output: pwm_ccmr(on.ccmr1_output, false),
                    ccr1: low16().spec_modify(on.ccr1, compare),
                    ..on
                }
            } else if channel == 2 {
                Tim4Registers {
                    ccmr1_output: pwm_ccmr(on.ccmr1_output, true),
                    ccr2: low16().spec_modify(on.ccr2, compare),
                    ..on
                }
            } else if channel == 3 {
                Tim4Registers {
                    ccmr2_output: pwm_ccmr(on.ccmr2_output, false),
                    ccr3: low16().spec_modify(on.ccr3, compare),
                    ..on
                }
            } else {
                Tim4Registers {
                    ccmr2_output: pwm_ccmr(on.ccmr2_output, true),
                    ccr4: low16().spec_modify(on.ccr4, compare),
                    ..on
                }
            }
        } else {
            common
        };
        Tim4Registers {
            cr1: (Field { offset: 0, numbits: 1 }).spec_modify(with_channel.cr1, 1),
            ..with_channel
        }
    }
}

/// The timer.
pub struct Tim4 {
    registers: Tim4Registers,
    clock: bool,
}

impl View for Tim4 {
    type V = Tim4View;

    closed spec fn view(&self) -> Tim4View {
        Tim4View { registers: self.registers, clock: self.clock }
    }
}

/// Sets the channel in the lower or upper half of a capture/compare mode
/// register to PWM mode 1, with preload and clear enabled.
fn set_pwm_mode(ccmr: u32, upper: bool) -> (r: u32)
    ensures
        r == pwm_ccmr(ccmr, upper),
{
    let base: u32 = if upper {
        8
    } else {
        0
    };
    let pe: u32 = Field { offset: base + 3, numbits: 1 }.modify(ccmr, 1);
    let ce: u32 = Field { offset: base + 7, numbits: 1 }.modify(pe, 1);
    Field { offset: base + 4, numbits: 3 }.modify(ce, 0b110)
}

impl Tim4 {
    /// A timer whose registers are all zero and whose clock is off.
    pub fn new() -> (tim: Tim4)
        ensures
            tim@.clock == false,
            tim@.registers == (Tim4Registers {
                cr1: 0,
                egr: 0,
                ccmr1_output: 0,
                ccmr2_output: 0,
                ccer: 0,
                psc: 0,
                arr: 0,
                ccr1: 0,
                ccr2: 0,
                ccr3: 0,
                ccr4: 0,
            }),
    {
        Tim4 {
            registers: Tim4Registers {
                cr1: 0,
                egr: 0,
                ccmr1_output: 0,
                ccmr2_output: 0,
                ccer: 0,
                psc: 0,
                arr: 0,
                ccr1: 0,
                ccr2: 0,
                ccr3: 0,
                ccr4: 0,
            },
            clock: false,
        }
    }

    /// The registers as they stand.
    pub fn registers(&self) -> (r: Tim4Registers)
        ensures
            r == self@.registers,
    {
        self.registers
    }

    /// Takes `registers` as what the timer holds.
    pub fn load(&mut self, registers: Tim4Registers)
        ensures
            final(self)@ == (Tim4View { registers, ..old(self)@ }),
    {
        self.registers = registers;
    }

    pub fn is_enabled_clock(&self) -> (r: bool)
        ensures
            r == self@.clock,
    {
        self.clock
    }

    pub fn enable_clock(&mut self)
        ensures
            final(self)@ == (Tim4View { clock: true, ..old(self)@ }),
    {
        self.clock = true;
    }

    pub fn disable_clock(&mut self)
        ensures
            final(self)@ == (Tim4View { clock: false, ..old(self)@ }),
    {
        self.clock = false;
    }

    /// Starts a PWM signal of `frequency` and `duty_cycle` on `channel`.
    ///
    /// A signal that cannot be generated is refused with `EINVAL` and
    /// nothing changes. Otherwise the clock is turned on and the timer set
    /// up and started; the answer is `SUCCESS` for a channel from 1 to 4 and
    /// `ENOSUPPORT` for any other, for which no channel is set up.
    pub fn start_pwm(&mut self, channel: u8, frequency: usize, duty_cycle: usize) -> (r:
        ReturnCode)
        ensures
            r == if !signal_valid(frequency, duty_cycle) {
                ReturnCode::EINVAL
            } else if 1 <= channel <= 4 {
                ReturnCode::SUCCESS
            } else {
                ReturnCode::ENOSUPPORT
            },
            final(self)@ == if signal_valid(frequency, duty_cycle) {
                Tim4View {
                    registers: old(self)@.registers.start_pwm(channel, frequency, duty_cycle),
                    clock: true,
                }
            } else {
                old(self)@
            },
    {
        if frequency == 0 {
            return ReturnCode::EINVAL;
        }
        let counter_top: usize = 8000000 / frequency;
        let duty: usize = duty_cycle / frequency;
        if counter_top % 65536 == 0 || duty > counter_top {
            return ReturnCode::EINVAL;
        }
        let dc_out: usize = counter_top - duty;
        let mut ret = ReturnCode::SUCCESS;
        self.enable_clock();
        let top: u32 = (counter_top % 65536 - 1) as u32;
        let compare: u32 = (dc_out % 65536) as u32;
        let low: Field = Field { offset: 0, numbits: 16 };
        let dir: u32 = Field { offset: 4, numbits: 1 }.modify(self.registers.cr1, 0);
        let ckd: u32 = Field { offset: 8, numbits: 2 }.modify(dir, 0);
        let arpe: u32 = Field { offset: 7, numbits: 1 }.clear(ckd);
        self.registers.cr1 = Field { offset: 5, numbits: 2 }.modify(arpe, 0);
        self.registers.psc = low.modify(self.registers.psc, 0);
        self.registers.arr = low.modify(self.registers.arr, top);
        let update: u32 = Field { offset: 0, numbits: 1 }.val(1);
        if channel == 1 {
            self.registers.ccmr1_output = set_pwm_mode(self.registers.ccmr1_output, false);
            self.registers.egr = update;
            self.registers.ccr1 = low.modify(self.registers.ccr1, compare);
            self.registers.ccer = Field { offset: 0, numbits: 1 }.modify(self.registers.ccer, 1);
        } else if channel == 2 {
            self.registers.ccmr1_output = set_pwm_mode(self.registers.ccmr1_output, true);
            self.registers.egr = update;
            self.registers.ccr2 = low.modify(self.registers.ccr2, compare);
            self.registers.ccer = Field { offset: 4, numbits: 1 }.modify(self.registers.ccer, 1);
        } else if channel == 3 {
            self.registers.ccmr2_output = set_pwm_mode(self.registers.ccmr2_output, false);
            self.registers.egr = update;
            self.registers.ccr3 = low.modify(self.registers.ccr3, compare);
            self.registers.ccer = Field { offset: 8, numbits: 1 }.modify(self.registers.ccer, 1);
        } else if channel == 4 {
            self.registers.ccmr2_output = set_pwm_mode(self.registers.ccmr2_output, true);
            self.registers.egr = update;
            self.registers.ccr4 = low.modify(self.registers.ccr4, compare);
            self.registers.ccer = Field { offset: 12, numbits: 1 }.modify(self.registers.ccer, 1);
        } else {
            ret = ReturnCode::ENOSUPPORT
        }
        self.registers.cr1 = Field { offset: 0, numbits: 1 }.modify(self.registers.cr1, 1);
        ret
    }

    /// Stops the signal on `channel`. The timer keeps running.
    pub fn stop_pwm(&self, channel: u8) -> (r: ReturnCode)
        ensures
            r is SUCCESS,
    {
        ReturnCode::SUCCESS
    }

    /// Starts a PWM signal on the channel of `pin`; see `start_pwm`.
    pub fn start(&mut self, pin: &TimPwmPin, frequency: usize, duty_cycle: usize) -> (r:
        ReturnCode)
        ensures
            r == if !signal_valid(frequency, duty_cycle) {
                ReturnCode::EINVAL
            } else if 1 <= pin.channel <= 4 {
                ReturnCode::SUCCESS
            } else {
                ReturnCode::ENOSUPPORT
            },
            final(self)@ == if signal_valid(frequency, duty_cycle) {
                Tim4View {
                    registers: old(self)@.registers.start_pwm(pin.channel, frequency, duty_cycle),
                    clock: true,
                }
            } else {
                old(self)@
            },
    {
        self.start_pwm(pin.channel, frequency, duty_cycle)
    }

    /// Stops the signal on the channel of `pin`.
    pub fn stop(&self, pin: &TimPwmPin) -> (r: ReturnCode)
        ensures
            r is SUCCESS,
    {
        self.stop_pwm(pin.channel)
    }

    /// The highest frequency that can be asked for.
    pub fn get_maximum_frequency_hz(&self) -> (hz: usize)
        ensures
            hz == CLOCK_HZ,
    {
        8000000
    }

    /// The duty cycle that stands for a signal that is always on.
    pub fn get_maximum_duty_cycle(&self) -> (duty: usize)
        ensures
            duty == CLOCK_HZ,
    {
        8000000
    }
}

} // verus!
