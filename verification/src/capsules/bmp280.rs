//! Driver for the BMP280 temperature and pressure sensor.
//!
//! After the sampling is set the driver reads the twelve calibration words
//! of the sensor, one after the other. A reading takes the raw temperature,
//! turns it into hundredths of a degree with the calibration, and, if the
//! pressure was asked for, takes the raw pressure and turns it into pascals.

use vstd::prelude::*;
use crate::hil::i2c::{Error, I2cTransfer, I2cTransferView};
use crate::process::{as_word, to_word};
use crate::returncode::ReturnCode;

verus! {

/// The address that the sensor answers on.
pub const BASE_ADDR: u8 = 0x77;

/// The value reported to a client when a reading failed.
pub const FAILED: usize = usize::MAX;

/// Registers of the sensor.
#[derive(Clone, Copy, Debug, PartialEq, Eq, Structural)]
pub enum Registers {
    DIGT1,
    DIGT2,
    DIGT3,
    DIGP1,
    DIGP2,
    DIGP3,
    DIGP4,
    DIGP5,
    DIGP6,
    DIGP7,
    DIGP8,
    DIGP9,
    CHIPID,
    VERSION,
    SOFTRESET,
    CAL26,
    STATUS,
    CONTROL,
    CONFIG,
    PRESSUREDATA,
    TEMPDATA,
}

impl Registers {
    /// The address of the register.
    pub open spec fn spec_address(self) -> u8 {
        match self {
            Registers::DIGT1 => 0x88,
            Registers::DIGT2 => 0x8A,
            Registers::DIGT3 => 0x8C,
            Registers::DIGP1 => 0x8E,
            Registers::DIGP2 => 0x90,
            Registers::DIGP3 => 0x92,
            Registers::DIGP4 => 0x94,
            Registers::DIGP5 => 0x96,
            Registers::DIGP6 => 0x98,
            Registers::DIGP7 => 0x9A,
            Registers::DIGP8 => 0x9C,
            Registers::DIGP9 => 0x9E,
            Registers::CHIPID => 0xD0,
            Registers::VERSION => 0xD1,
            Registers::SOFTRESET => 0xE0,
            Registers::CAL26 => 0xE1,
            Registers::STATUS => 0xF3,
            Registers::CONTROL => 0xF4,
            Registers::CONFIG => 0xF5,
            Registers::PRESSUREDATA => 0xF7,
            Registers::TEMPDATA => 0xFA,
        }
    }

    /// The address of the register.
    #[verifier::when_used_as_spec(spec_address)]
    pub fn address(self) -> (a: u8)
        ensures
            a == self.spec_address(),
    {
        match self {
            Registers::DIGT1 => 0x88,
            Registers::DIGT2 => 0x8A,
            Registers::DIGT3 => 0x8C,
            Registers::DIGP1 => 0x8E,
            Registers::DIGP2 => 0x90,
            Registers::DIGP3 => 0x92,
            Registers::DIGP4 => 0x94,
            Registers::DIGP5 => 0x96,
            Registers::DIGP6 => 0x98,
            Registers::DIGP7 => 0x9A,
            Registers::DIGP8 => 0x9C,
            Registers::DIGP9 => 0x9E,
            Registers::CHIPID => 0xD0,
            Registers::VERSION => 0xD1,
            Registers::SOFTRESET => 0xE0,
            Registers::CAL26 => 0xE1,
            Registers::STATUS => 0xF3,
            Registers::CONTROL => 0xF4,
            Registers::CONFIG => 0xF5,
            Registers::PRESSUREDATA => 0xF7,
            Registers::TEMPDATA => 0xFA,
        }
    }
}

/// Oversampling of a measurement.
#[derive(Clone, Copy, Debug, PartialEq, Eq, Structural)]
pub enum SensorSampling {
    /// No over-sampling.
    SAMPLINGNONE,
    /// 1x over-sampling.
    SAMPLINGX1,
    /// 2x over-sampling.
    SAMPLINGX2,
    /// 4x over-sampling.
    SAMPLINGX4,
    /// 8x over-sampling.
    SAMPLINGX8,
    /// 16x over-sampling.
    SAMPLINGX16,
}

impl SensorSampling {
    /// The number that stands for the oversampling in a register.
    pub open spec fn spec_value(self) -> u8 {
        match self {
            SensorSampling::SAMPLINGNONE => 0x00,
            SensorSampling::SAMPLINGX1 => 0x01,
            SensorSampling::SAMPLINGX2 => 0x02,
            SensorSampling::SAMPLINGX4 => 0x03,
            SensorSampling::SAMPLINGX8 => 0x04,
            SensorSampling::SAMPLINGX16 => 0x05,
        }
    }

    /// The number that stands for the oversampling in a register.
    #[verifier::when_used_as_spec(spec_value)]
    pub fn value(self) -> (v: u8)
        ensures
            v == self.spec_value(),
    {
        match self {
            SensorSampling::SAMPLINGNONE => 0x00,
            SensorSampling::SAMPLINGX1 => 0x01,
            SensorSampling::SAMPLINGX2 => 0x02,
            SensorSampling::SAMPLINGX4 => 0x03,
            SensorSampling::SAMPLINGX8 => 0x04,
            SensorSampling::SAMPLINGX16 => 0x05,
        }
    }
}

/// Operating mode of the sensor.
#[derive(Clone, Copy, Debug, PartialEq, Eq, Structural)]
pub enum SensorMode {
    /// Sleep mode.
    SLEEP,
    /// Forced mode.
    FORCED,
    /// Normal mode.
    NORMAL,
    /// Software reset.
    SOFTRESET,
}

impl SensorMode {
    /// The number that stands for the mode in a register.
    pub open spec fn spec_value(self) -> u8 {
        match self {
            SensorMode::SLEEP => 0x00,
            SensorMode::FORCED => 0x01,
            SensorMode::NORMAL => 0x03,
            SensorMode::SOFTRESET => 0xB6,
        }
    }

    /// The number that stands for the mode in a register.
    #[verifier::when_used_as_spec(spec_value)]
    pub fn value(self) -> (v: u8)
        ensures
            v == self.spec_value(),
    {
        match self {
            SensorMode::SLEEP => 0x00,
            SensorMode::FORCED => 0x01,
            SensorMode::NORMAL => 0x03,
            SensorMode::SOFTRESET => 0xB6,
        }
    }
}

/// Filtering of the measurements.
#[derive(Clone, Copy, Debug, PartialEq, Eq, Structural)]
pub enum SensorFilter {
    /// No filtering.
    FILTEROFF,
    /// 2x filtering.
    FILTERX2,
    /// 4x filtering.
    FILTERX4,
    /// 8x filtering.
    FILTERX8,
    /// 16x filtering.
    FILTERX16,
}

impl SensorFilter {
    /// The number that stands for the filter in a register.
    pub open spec fn spec_value(self) -> u8 {
        match self {
            SensorFilter::FILTEROFF => 0x00,
            SensorFilter::FILTERX2 => 0x01,
            SensorFilter::FILTERX4 => 0x02,
            SensorFilter::FILTERX8 => 0x03,
            SensorFilter::FILTERX16 => 0x04,
        }
    }

    /// The number that stands for the filter in a register.
    #[verifier::when_used_as_spec(spec_value)]
    pub fn value(self) -> (v: u8)
        ensures
            v == self.spec_value(),
    {
        match self {
            SensorFilter::FILTEROFF => 0x00,
            SensorFilter::FILTERX2 => 0x01,
            SensorFilter::FILTERX4 => 0x02,
            SensorFilter::FILTERX8 => 0x03,
            SensorFilter::FILTERX16 => 0x04,
        }
    }
}

/// Pause between measurements in normal mode.
#[derive(Clone, Copy, Debug, PartialEq, Eq, Structural)]
pub enum StandbyDuration {
    /// 1 ms standby.
    STANDBY1,
    /// 62.5 ms standby.
    STANDBY63,
    /// 125 ms standby.
    STANDBY125,
    /// 250 ms standby.
    STANDBY250,
    /// 500 ms standby.
    STANDBY500,
    /// 1000 ms standby.
    STANDBY1000,
    /// 2000 ms standby.
    STANDBY2000,
    /// 4000 ms standby.
    STANDBY4000,
}

impl StandbyDuration {
    /// The number that stands for the pause in a register.
    pub open spec fn spec_value(self) -> u8 {
        match self {
            StandbyDuration::STANDBY1 => 0x00,
            StandbyDuration::STANDBY63 => 0x01,
            StandbyDuration::STANDBY125 => 0x02,
            StandbyDuration::STANDBY250 => 0x03,
            StandbyDuration::STANDBY500 => 0x04,
            StandbyDuration::STANDBY1000 => 0x05,
            StandbyDuration::STANDBY2000 => 0x06,
            StandbyDuration::STANDBY4000 => 0x07,
        }
    }

    /// The number that stands for the pause in a register.
    #[verifier::when_used_as_spec(spec_value)]
    pub fn value(self) -> (v: u8)
        ensures
            v == self.spec_value(),
    {
        match self {
            StandbyDuration::STANDBY1 => 0x00,
            StandbyDuration::STANDBY63 => 0x01,
            StandbyDuration::STANDBY125 => 0x02,
            StandbyDuration::STANDBY250 => 0x03,
            StandbyDuration::STANDBY500 => 0x04,
            StandbyDuration::STANDBY1000 => 0x05,
            StandbyDuration::STANDBY2000 => 0x06,
            StandbyDuration::STANDBY4000 => 0x07,
        }
    }
}

/// The request that is outstanding on the sensor.
#[allow(non_camel_case_types)]
#[derive(Clone, Copy, Debug, PartialEq, Eq, Structural)]
pub enum State {
    Init,
    Reset,
    ReadTemperature,
    ReadPressure,
    Idle,
    ReadStatus,
    READDIGT1,
    READDIGT2,
    READDIGT3,
    READDIGP1,
    READDIGP2,
    READDIGP3,
    READDIGP4,
    READDIGP5,
    READDIGP6,
    READDIGP7,
    READDIGP8,
    READDIGP9,
}

/// The calibration words of a sensor.
#[derive(Clone, Copy, Debug, PartialEq, Eq, Structural)]
pub struct Calibration {
    pub dig_t1: u16,
    pub dig_t2: i16,
    pub dig_t3: i16,
    pub dig_p1: u16,
    pub dig_p2: i16,
    pub dig_p3: i16,
    pub dig_p4: i16,
    pub dig_p5: i16,
    pub dig_p6: i16,
    pub dig_p7: i16,
    pub dig_p8: i16,
    pub dig_p9: i16,
}

/// The sixteen-bit word whose low byte is `low` and whose high byte is
/// `high`.
pub open spec fn word(low: u8, high: u8) -> u16 {
    (low + 256 * high) as u16
}

/// A sixteen-bit word read as a number in two's complement.
pub open spec fn signed(word: u16) -> i16 {
    if word < 32768 {
        word as i16
    } else {
        (word - 65536) as i16
    }
}

/// The sixteen-bit word whose low byte is `low` and whose high byte is
/// `high`.
pub fn make_word(low: u8, high: u8) -> (w: u16)
    ensures
        w == word(low, high),
{
    (low as u16) + 256 * (high as u16)
}

/// Reads a sixteen-bit word as a number in two's complement.
pub fn to_signed(word: u16) -> (s: i16)
    ensures
        s == signed(word),
{
    if word < 32768 {
        word as i16
    } else {
        ((word as i32) - 65536) as i16
    }
}

/// The twenty-bit raw measurement in the first three bytes of a reading:
/// the bytes in order, most significant first, without the lowest four
/// bits.
pub open spec fn raw_measurement(b0: u8, b1: u8, b2: u8) -> int {
    (b0 * 65536 + b1 * 256 + b2) / 16
}

/// The twenty-bit raw measurement in three bytes.
pub fn read_raw(b0: u8, b1: u8, b2: u8) -> (adc: i32)
    ensures
        adc == raw_measurement(b0, b1, b2),
        0 <= adc < 1048576,
{
    ((b0 as i32) * 65536 + (b1 as i32) * 256 + (b2 as i32)) / 16
}

/// The fine temperature that the sensor's formula gives for a raw
/// temperature: the sum of a term linear in the distance of the measurement
/// from the first calibration word and a term quadratic in it. Every division
/// rounds down.
pub open spec fn fine_temperature(adc_t: int, dig_t1: u16, dig_t2: i16, dig_t3: i16) -> int {
    let var1 = ((adc_t / 8 - dig_t1 * 2) * dig_t2) / 2048;
    let var2 = (((adc_t / 16 - dig_t1) * (adc_t / 16 - dig_t1)) / 4096 * dig_t3) / 16384;
    var1 + var2
}

/// The temperature in hundredths of a degree for a fine temperature.
pub open spec fn hundredths(t_fine: int) -> int {
    (t_fine * 5 + 128) / 256
}

/// Computes the fine temperature for a raw temperature.
pub fn compute_fine_temperature(adc_t: i32, dig_t1: u16, dig_t2: i16, dig_t3: i16) -> (t_fine:
    i32)
    requires
        0 <= adc_t < 1048576,
    ensures
        t_fine == fine_temperature(adc_t as int, dig_t1, dig_t2, dig_t3),
        -16777216 <= t_fine <= 16777216,
{
    let adc: i64 = adc_t as i64;
    let t1: i64 = dig_t1 as i64;
    let t2: i64 = dig_t2 as i64;
    let t3: i64 = dig_t3 as i64;
    let eighth: i64 = adc >> 3;
    assert(adc >> 3 == adc as int / 8) by (bit_vector);
    let near: i64 = eighth - t1 * 2;
    assert(-4294967296 <= near * t2 <= 4294967296) by (nonlinear_arith)
        requires
            -131072 <= near <= 131072,
            -32768 <= t2 <= 32767,
    ;
    let product: i64 = near * t2;
    let var1: i64 = product >> 11;
    assert(product >> 11 == product as int / 2048) by (bit_vector);
    let sixteenth: i64 = adc >> 4;
    assert(adc >> 4 == adc as int / 16) by (bit_vector);
    let far: i64 = sixteenth - t1;
    assert(0 <= far * far <= 4294967296) by (nonlinear_arith)
        requires
            -65536 <= far <= 65536,
    ;
    let square: i64 = far * far;
    let scaled: i64 = square >> 12;
    assert(square >> 12 == square as int / 4096) by (bit_vector);
    assert(-34359738368 <= scaled * t3 <= 34359738368) by (nonlinear_arith)
        requires
            0 <= scaled <= 1048576,
            -32768 <= t3 <= 32767,
    ;
    let curved: i64 = scaled * t3;
    let var2: i64 = curved >> 14;
    assert(curved >> 14 == curved as int / 16384) by (bit_vector);
    (var1 + var2) as i32
}

/// A number fits in sixty-four bits with a sign.
pub open spec fn fits64(x: int) -> bool {
    -0x8000_0000_0000_0000 <= x <= 0x7FFF_FFFF_FFFF_FFFF
}

/// The quotient of a division that rounds toward zero.
pub open spec fn quotient(x: int, y: int) -> int
    recommends
        y != 0,
{
    if x >= 0 && y > 0 {
        x / y
    } else if x >= 0 {
        -(x / (-y))
    } else if y > 0 {
        -((-x) / y)
    } else {
        (-x) / (-y)
    }
}

/// Divides, rounding toward zero.
pub fn divide(x: i64, y: i64) -> (q: i128)
    requires
        y != 0,
    ensures
        q == quotient(x as int, y as int),
{
    let wide_x: i128 = x as i128;
    let wide_y: i128 = y as i128;
    if x >= 0 && y > 0 {
        wide_x / wide_y
    } else if x >= 0 {
        -(wide_x / (-wide_y))
    } else if y > 0 {
        -((-wide_x) / wide_y)
    } else {
        (-wide_x) / (-wide_y)
    }
}

/// The steps of the sensor's formula for the pressure, in the order in
/// which they are computed; each step that is kept is in the list.
pub struct PressureSteps {
    /// The fine temperature less 128000.
    pub offset: int,
    pub offset_squared: int,
    pub quadratic: int,
    pub linear: int,
    pub linear_scaled: int,
    pub sensitivity_sum: int,
    pub constant_scaled: int,
    /// The second auxiliary value of the formula.
    pub var2: int,
    pub cubic: int,
    pub cubic_scaled: int,
    pub slope: int,
    pub slope_scaled: int,
    /// The first auxiliary value of the formula, by which it divides.
    pub var1: int,
}

/// The steps up to the division.
pub open spec fn pressure_steps(t_fine: int, c: Calibration) -> PressureSteps {
    let offset = t_fine - 128000;
    let offset_squared = offset * offset;
    let quadratic = offset_squared * c.dig_p6;
    let linear = offset * c.dig_p5;
    let linear_scaled = linear * 131072;
    let sensitivity_sum = quadratic + linear_scaled;
    let constant_scaled = c.dig_p4 * 34359738368;
    let var2 = sensitivity_sum + constant_scaled;
    let cubic = offset_squared * c.dig_p3;
    let cubic_scaled = cubic / 256;
    let slope = offset * c.dig_p2;
    let slope_scaled = slope * 4096;
    let var1 = cubic_scaled + slope_scaled;
    PressureSteps {
        offset,
        offset_squared,
        quadratic,
        linear,
        linear_scaled,
        sensitivity_sum,
        constant_scaled,
        var2,
        cubic,
        cubic_scaled,
        slope,
        slope_scaled,
        var1,
    }
}

/// Every step up to the division fits in sixty-four bits.
pub open spec fn steps_fit(s: PressureSteps) -> bool {
    &&& fits64(s.offset_squared)
    &&& fits64(s.quadratic)
    &&& fits64(s.linear_scaled)
    &&& fits64(s.sensitivity_sum)
    &&& fits64(s.var2)
    &&& fits64(s.cubic)
    &&& fits64(s.slope_scaled)
    &&& fits64(s.var1)
}

/// The rest of the formula, from the division on: the steps in order, and
/// at the end the pressure in pascals. `None` when a step does not fit in
/// sixty-four bits.
pub open spec fn pressure_from(adc_p: int, s: PressureSteps, c: Calibration) -> Option<int> {
    let raw = (1048576 - adc_p) * 2147483648;
    let numerator = raw - s.var2;
    let scaled = numerator * 3125;
    if !fits64(numerator) || !fits64(scaled) {
        None
    } else {
        let p = quotient(scaled, s.var1);
        let reduced = p / 8192;
        let reduced_squared = reduced * reduced;
        let curve = c.dig_p9 * reduced_squared;
        let tilt = c.dig_p8 * p;
        let sum = p + curve / 33554432 + tilt / 524288;
        let shifted = sum / 256 + c.dig_p7 * 16;
        let pascals = quotient(shifted, 256) * 100;
        if fits64(p) && fits64(reduced_squared) && fits64(curve) && fits64(tilt) && fits64(sum)
            && fits64(shifted) && fits64(pascals) {
            Some(pascals)
        } else {
            None
        }
    }
}

/// The pressure in pascals that the sensor's formula gives for a raw
/// pressure, a fine temperature and the calibration. `None` when the
/// formula divides by zero or a step of it does not fit in sixty-four bits.
pub open spec fn pressure(adc_p: int, t_fine: int, c: Calibration) -> Option<int> {
    let s = pressure_steps(t_fine, c);
    if !steps_fit(s) || s.var1 == 0 {
        None
    } else {
        pressure_from(adc_p, s, c)
    }
}

/// A product of two sixty-four-bit numbers, if it fits in sixty-four bits.
fn times(x: i64, y: i64) -> (r: Option<i64>)
    ensures
        r == if fits64(x * y) {
            Some((x * y) as i64)
        } else {
            None
        },
{
    assert(-0x8000_0000_0000_0000 * 0x8000_0000_0000_0000 <= x * y <= 0x8000_0000_0000_0000
        * 0x8000_0000_0000_0000) by (nonlinear_arith)
        requires
            -0x8000_0000_0000_0000 <= x < 0x8000_0000_0000_0000,
            -0x8000_0000_0000_0000 <= y < 0x8000_0000_0000_0000,
    ;
    let wide: i128 = (x as i128) * (y as i128);
    narrow(wide)
}

/// A number, if it fits in sixty-four bits.
fn narrow(wide: i128) -> (r: Option<i64>)
    ensures
        r == if fits64(wide as int) {
            Some(wide as i64)
        } else {
            None
        },
{
    if wide >= -0x8000_0000_0000_0000 && wide <= 0x7FFF_FFFF_FFFF_FFFF {
        Some(wide as i64)
    } else {
        None
    }
}

/// A sum of two sixty-four-bit numbers, if it fits in sixty-four bits.
fn plus(x: i64, y: i64) -> (r: Option<i64>)
    ensures
        r == if fits64(x + y) {
            Some((x + y) as i64)
        } else {
            None
        },
{
    narrow((x as i128) + (y as i128))
}

/// Computes the first and the second auxiliary value of the formula for the
/// pressure.
fn compute_pressure_steps(t_fine: i32, c: &Calibration) -> (r: Option<(i64, i64)>)
    ensures
        r == if steps_fit(pressure_steps(t_fine as int, *c)) {
            Some(
                (
                    pressure_steps(t_fine as int, *c).var1 as i64,
                    pressure_steps(t_fine as int, *c).var2 as i64,
                ),
            )
        } else {
            None
        },
{
    let offset: i64 = (t_fine as i64) - 128000;
    let offset_squared: i64 = match times(offset, offset) {
        Some(v) => v,
        None => {
            return None;
        },
    };
    let quadratic: i64 = match times(offset_squared, c.dig_p6 as i64) {
        Some(v) => v,
        None => {
            return None;
        },
    };
    assert(-0x1_0000_0000 * 0x8000 <= offset * (c.dig_p5 as i64) <= 0x1_0000_0000 * 0x8000)
        by (nonlinear_arith)
        requires
            -0x1_0000_0000 <= offset <= 0x1_0000_0000,
            -0x8000 <= c.dig_p5 as i64 <= 0x8000,
    ;
    let linear: i64 = offset * (c.dig_p5 as i64);
    let linear_scaled: i64 = match times(linear, 131072) {
        Some(v) => v,
        None => {
            return None;
        },
    };
    let sensitivity_sum: i64 = match plus(quadratic, linear_scaled) {
        Some(v) => v,
        None => {
            return None;
        },
    };
    let constant_scaled: i64 = (c.dig_p4 as i64) * 34359738368;
    let var2: i64 = match plus(sensitivity_sum, constant_scaled) {
        Some(v) => v,
        None => {
            return None;
        },
    };
    let cubic: i64 = match times(offset_squared, c.dig_p3 as i64) {
        Some(v) => v,
        None => {
            return None;
        },
    };
    let cubic_scaled: i64 = cubic >> 8;
    assert(cubic >> 8 == cubic as int / 256) by (bit_vector);
    assert(-0x1_0000_0000 * 0x8000 <= offset * (c.dig_p2 as i64) <= 0x1_0000_0000 * 0x8000)
        by (nonlinear_arith)
        requires
            -0x1_0000_0000 <= offset <= 0x1_0000_0000,
            -0x8000 <= c.dig_p2 as i64 <= 0x8000,
    ;
    let slope: i64 = offset * (c.dig_p2 as i64);
    let slope_scaled: i64 = match times(slope, 4096) {
        Some(v) => v,
        None => {
            return None;
        },
    };
    let var1: i64 = match plus(cubic_scaled, slope_scaled) {
        Some(v) => v,
        None => {
            return None;
        },
    };
    Some((var1, var2))
}

/// Computes the pressure in pascals for a raw pressure.
pub fn compute_pressure(adc_p: i32, t_fine: i32, c: &Calibration) -> (r: Option<i64>)
    requires
        0 <= adc_p < 1048576,
    ensures
        r is Some == pressure(adc_p as int, t_fine as int, *c) is Some,
        r is Some ==> r->0 == pressure(adc_p as int, t_fine as int, *c)->0,
{
    let (var1, var2): (i64, i64) = match compute_pressure_steps(t_fine, c) {
        Some(steps) => steps,
        None => {
            return None;
        },
    };
    if var1 == 0 {
        return None;
    }
    let raw: i64 = (1048576 - (adc_p as i64)) * 2147483648;
    let numerator: i64 = match narrow((raw as i128) - (var2 as i128)) {
        Some(v) => v,
        None => {
            return None;
        },
    };
    let scaled: i64 = match times(numerator, 3125) {
        Some(v) => v,
        None => {
            return None;
        },
    };
    let p: i64 = match narrow(divide(scaled, var1)) {
        Some(v) => v,
        None => {
            return None;
        },
    };
    let reduced: i64 = p >> 13;
    assert(p >> 13 == p as int / 8192) by (bit_vector);
    let reduced_squared: i64 = match times(reduced, reduced) {
        Some(v) => v,
        None => {
            return None;
        },
    };
    let curve: i64 = match times(c.dig_p9 as i64, reduced_squared) {
        Some(v) => v,
        None => {
            return None;
        },
    };
    let tilt: i64 = match times(c.dig_p8 as i64, p) {
        Some(v) => v,
        None => {
            return None;
        },
    };
    let curve_scaled: i64 = curve >> 25;
    assert(curve >> 25 == curve as int / 33554432) by (bit_vector);
    let tilt_scaled: i64 = tilt >> 19;
    assert(tilt >> 19 == tilt as int / 524288) by (bit_vector);
    let sum: i64 = match narrow((p as i128) + (curve_scaled as i128) + (tilt_scaled as i128)) {
        Some(v) => v,
        None => {
            return None;
        },
    };
    let lowered: i64 = sum >> 8;
    assert(sum >> 8 == sum as int / 256) by (bit_vector);
    let shifted: i64 = match plus(lowered, (c.dig_p7 as i64) * 16) {
        Some(v) => v,
        None => {
            return None;
        },
    };
    let whole: i128 = divide(shifted, 256);
    narrow(whole * 100)
}

/// The measurement control register for a mode and two oversamplings: the
/// mode and the pressure oversampling from bit five up, the temperature
/// oversampling from bit two up, all kept to eight bits.
pub open spec fn measurement_register(
    mode: SensorMode,
    temp_sampling: SensorSampling,
    press_sampling: SensorSampling,
) -> u8 {
    (mode.spec_value() << 5u8) | (temp_sampling.spec_value() << 2u8) | (press_sampling.spec_value()
        << 5u8)
}

/// The configuration register for a filter and a pause: the filter from bit
/// five up, the pause from bit two up.
pub open spec fn configuration_register(filter: SensorFilter, duration: StandbyDuration) -> u8 {
    (filter.spec_value() << 5u8) | (duration.spec_value() << 2u8)
}

/// What one step of the driver asks for.
#[derive(Debug, PartialEq, Eq)]
pub struct Effects {
    /// The sensor's bus is to be disabled.
    pub disable: bool,
    /// A transfer to start, with the bus enabled first.
    pub transfer: Option<I2cTransfer>,
    /// A temperature for the temperature client: the client, then the
    /// value.
    pub temperature: Option<(usize, usize)>,
    /// A pressure for the pressure client: the client, then the value.
    pub pressure: Option<(usize, usize)>,
}

/// The effects of a step as a mathematical value.
pub struct EffectsView {
    pub disable: bool,
    pub transfer: Option<I2cTransferView>,
    pub temperature: Option<(usize, usize)>,
    pub pressure: Option<(usize, usize)>,
}

impl View for Effects {
    type V = EffectsView;

    open spec fn view(&self) -> EffectsView {
        EffectsView {
            disable: self.disable,
            transfer: match self.transfer {
                Some(t) => Some(t@),
                None => None,
            },
            temperature: self.temperature,
            pressure: self.pressure,
        }
    }
}

impl EffectsView {
    /// A step that asks for nothing.
    pub open spec fn none() -> EffectsView {
        EffectsView { disable: false, transfer: None, temperature: None, pressure: None }
    }
}

/// The driver as a mathematical value.
pub struct BMP280View {
    pub pressure_client: Option<usize>,
    pub temperature_client: Option<usize>,
    pub state: State,
    /// The buffer, while the driver holds it.
    pub buffer: Option<Seq<u8>>,
    /// A temperature was asked for and not delivered yet.
    pub read_temp: bool,
    /// A pressure was asked for and not delivered yet.
    pub read_press: bool,
    /// The fine temperature of the reading taken last.
    pub t_fine: i32,
    pub calibration: Calibration,
}

impl BMP280View {
    /// The buffer has room for the four bytes of the longest message.
    pub open spec fn wf(self) -> bool {
        self.buffer is Some ==> self.buffer->0.len() >= 4
    }

    /// Writing the address of `reg` and reading `read_len` bytes back: the
    /// buffer leaves with the transfer and the driver is in `state`.
    pub open spec fn fetch(self, reg: Registers, state: State, read_len: u8) -> (
        BMP280View,
        EffectsView,
    ) {
        (
            BMP280View { state, buffer: None, ..self },
            EffectsView {
                transfer: Some(
                    I2cTransferView::WriteRead {
                        buffer: self.buffer->0.update(0, reg.spec_address()),
                        write_len: 1,
                        read_len,
                    },
                ),
                ..EffectsView::none()
            },
        )
    }

    /// What a request for a reading answers, `wanted` telling whether the
    /// same kind of reading is asked for already: `EBUSY` if it is; else the
    /// request is noted, and an idle driver that holds its buffer starts
    /// with the temperature. An idle driver without its buffer answers
    /// `ENOMEM`.
    pub open spec fn read_code(self, wanted: bool) -> ReturnCode {
        if wanted {
            ReturnCode::EBUSY
        } else if self.state is Idle && self.buffer is None {
            ReturnCode::ENOMEM
        } else {
            ReturnCode::SUCCESS
        }
    }

    /// The driver with a calibration word stored that was read in its
    /// present state.
    pub open spec fn with_word(self, w: u16) -> BMP280View {
        let c = self.calibration;
        BMP280View {
            calibration: match self.state {
                State::READDIGT1 => Calibration { dig_t1: w, ..c },
                State::READDIGT2 => Calibration { dig_t2: signed(w), ..c },
                State::READDIGT3 => Calibration { dig_t3: signed(w), ..c },
                State::READDIGP1 => Calibration { dig_p1: w, ..c },
                State::READDIGP2 => Calibration { dig_p2: signed(w), ..c },
                State::READDIGP3 => Calibration { dig_p3: signed(w), ..c },
                State::READDIGP4 => Calibration { dig_p4: signed(w), ..c },
                State::READDIGP5 => Calibration { dig_p5: signed(w), ..c },
                State::READDIGP6 => Calibration { dig_p6: signed(w), ..c },
                State::READDIGP7 => Calibration { dig_p7: signed(w), ..c },
                State::READDIGP8 => Calibration { dig_p8: signed(w), ..c },
                State::READDIGP9 => Calibration { dig_p9: signed(w), ..c },
                _ => c,
            },
            ..self
        }
    }

    /// The calibration word that is read after the one read in `state`: its
    /// register and the state in which it is read. The word after the
    /// fourth pressure word is read from the fourth word's register again.
    pub open spec fn next_word(state: State) -> Option<(Registers, State)> {
        match state {
            State::Init => Some((Registers::DIGT1, State::READDIGT1)),
            State::READDIGT1 => Some((Registers::DIGT2, State::READDIGT2)),
            State::READDIGT2 => Some((Registers::DIGT3, State::READDIGT3)),
            State::READDIGT3 => Some((Registers::DIGP1, State::READDIGP1)),
            State::READDIGP1 => Some((Registers::DIGP2, State::READDIGP2)),
            State::READDIGP2 => Some((Registers::DIGP3, State::READDIGP3)),
            State::READDIGP3 => Some((Registers::DIGP4, State::READDIGP4)),
            State::READDIGP4 => Some((Registers::DIGP4, State::READDIGP5)),
            State::READDIGP5 => Some((Registers::DIGP6, State::READDIGP6)),
            State::READDIGP6 => Some((Registers::DIGP7, State::READDIGP7)),
            State::READDIGP7 => Some((Registers::DIGP8, State::READDIGP8)),
            State::READDIGP8 => Some((Registers::DIGP9, State::READDIGP9)),
            _ => None,
        }
    }

    /// The driver and what it asks for after the sensor failed: the buffer
    /// is back, the bus is disabled, and whoever waits for a reading is
    /// told that it failed.
    pub open spec fn failed(self, buffer: Seq<u8>) -> (BMP280View, EffectsView) {
        (
            BMP280View { buffer: Some(buffer), read_temp: false, read_press: false, ..self },
            EffectsView {
                disable: true,
                transfer: None,
                temperature: if self.read_temp && self.temperature_client is Some {
                    Some((self.temperature_client->0, FAILED))
                } else {
                    None
                },
                pressure: if self.read_press && self.pressure_client is Some {
                    Some((self.pressure_client->0, FAILED))
                } else {
                    None
                },
            },
        )
    }

    /// The driver and what it asks for after the raw temperature arrived:
    /// the fine temperature is kept; the temperature, in hundredths of a
    /// degree, goes to its client if it was asked for; and the raw pressure
    /// is fetched if the pressure was asked for.
    pub open spec fn temperature_read(self, buffer: Seq<u8>) -> (BMP280View, EffectsView) {
        let c = self.calibration;
        let t_fine = fine_temperature(
            raw_measurement(buffer[0], buffer[1], buffer[2]),
            c.dig_t1,
            c.dig_t2,
            c.dig_t3,
        ) as i32;
        let temperature = if self.read_temp && self.temperature_client is Some {
            Some((self.temperature_client->0, as_word(hundredths(t_fine as int))))
        } else {
            None
        };
        let kept = BMP280View { t_fine, buffer: Some(buffer), read_temp: false, ..self };
        if self.read_press {
            let (after, effects) = kept.fetch(Registers::PRESSUREDATA, State::ReadPressure, 3);
            (after, EffectsView { temperature, ..effects })
        } else {
            (
                BMP280View { state: State::Idle, ..kept },
                EffectsView { temperature, ..EffectsView::none() },
            )
        }
    }

    /// The driver and what it asks for after the raw pressure arrived: the
    /// pressure in pascals, or the mark of a failed reading where the
    /// formula gives none, goes to its client, and the driver is idle.
    pub open spec fn pressure_read(self, buffer: Seq<u8>) -> (BMP280View, EffectsView) {
        let p = pressure(
            raw_measurement(buffer[0], buffer[1], buffer[2]),
            self.t_fine as int,
            self.calibration,
        );
        (
            BMP280View {
                state: State::Idle,
                buffer: Some(buffer),
                read_press: false,
                ..self
            },
            EffectsView {
                pressure: if self.pressure_client is Some {
                    Some(
                        (
                            self.pressure_client->0,
                            if p is Some {
                                as_word(p->0)
                            } else {
                                FAILED
                            },
                        ),
                    )
                } else {
                    None
                },
                ..EffectsView::none()
            },
        )
    }

    /// The driver and what it asks for after the sensor is done and hands
    /// `buffer` back.
    pub open spec fn command_complete(self, buffer: Seq<u8>, error: Error) -> (
        BMP280View,
        EffectsView,
    ) {
        if !(error is CommandComplete) {
            self.failed(buffer)
        } else {
            match self.state {
                State::Init => (BMP280View { buffer: Some(buffer), ..self }).fetch(
                    Registers::DIGT1,
                    State::READDIGT1,
                    2,
                ),
                State::ReadTemperature => self.temperature_read(buffer),
                State::ReadPressure => self.pressure_read(buffer),
                State::ReadStatus | State::Reset => (
                    BMP280View { state: State::Idle, buffer: Some(buffer), ..self },
                    EffectsView::none(),
                ),
                State::Idle => (BMP280View { buffer: Some(buffer), ..self }, EffectsView::none()),
                _ => {
                    let stored = BMP280View {
                        buffer: Some(buffer),
                        ..self.with_word(word(buffer[0], buffer[1]))
                    };
                    match Self::next_word(self.state) {
                        Some((reg, state)) => stored.fetch(reg, state, 2),
                        None => (BMP280View { state: State::Idle, ..stored }, EffectsView::none()),
                    }
                },
            }
        }
    }
}

/// The driver of one sensor.
pub struct BMP280 {
    pressure_client: Option<usize>,
    temperature_client: Option<usize>,
    state: State,
    buffer: Option<Vec<u8>>,
    read_temp: bool,
    read_press: bool,
    t_fine: i32,
    calibration: Calibration,
}

impl View for BMP280 {
    type V = BMP280View;

    closed spec fn view(&self) -> BMP280View {
        BMP280View {
            pressure_client: self.pressure_client,
            temperature_client: self.temperature_client,
            state: self.state,
            buffer: match self.buffer {
                Some(b) => Some(b@),
                None => None,
            },
            read_temp: self.read_temp,
            read_press: self.read_press,
            t_fine: self.t_fine,
            calibration: self.calibration,
        }
    }
}

impl BMP280 {
    /// An idle driver that owns `buffer`, with every calibration word zero.
    /// The driver can work with a buffer of at least four bytes.
    pub fn new(buffer: Vec<u8>) -> (driver: BMP280)
        ensures
            buffer@.len() >= 4 ==> driver@.wf(),
            driver@.state is Idle,
            driver@.buffer == Some(buffer@),
            driver@.pressure_client is None && driver@.temperature_client is None,
            !driver@.read_temp && !driver@.read_press,
            driver@.t_fine == 0,
            driver@.calibration == (Calibration {
                dig_t1: 0,
                dig_t2: 0,
                dig_t3: 0,
                dig_p1: 0,
                dig_p2: 0,
                dig_p3: 0,
                dig_p4: 0,
                dig_p5: 0,
                dig_p6: 0,
                dig_p7: 0,
                dig_p8: 0,
                dig_p9: 0,
            }),
    {
        BMP280 {
            pressure_client: None,
            temperature_client: None,
            state: State::Idle,
            buffer: Some(buffer),
            read_temp: false,
            read_press: false,
            t_fine: 0,
            calibration: Calibration {
                dig_t1: 0,
                dig_t2: 0,
                dig_t3: 0,
                dig_p1: 0,
                dig_p2: 0,
                dig_p3: 0,
                dig_p4: 0,
                dig_p5: 0,
                dig_p6: 0,
                dig_p7: 0,
                dig_p8: 0,
                dig_p9: 0,
            },
        }
    }

    /// Whether the driver can work: the buffer, while the driver holds it, has
    /// room for the four bytes of the longest message.
    pub fn is_well_formed(&self) -> (r: bool)
        ensures
            r == self@.wf(),
    {
        match &self.buffer {
            Some(buffer) => buffer.len() >= 4,
            None => true,
        }
    }

    /// The request outstanding on the sensor.
    pub fn state(&self) -> (s: State)
        ensures
            s == self@.state,
    {
        self.state
    }

    /// The calibration words read so far.
    pub fn calibration(&self) -> (c: Calibration)
        ensures
            c == self@.calibration,
    {
        self.calibration
    }

    /// The fine temperature of the reading taken last.
    pub fn t_fine(&self) -> (t: i32)
        ensures
            t == self@.t_fine,
    {
        self.t_fine
    }

    /// Takes `calibration` as the sensor's calibration words.
    pub fn set_calibration(&mut self, calibration: Calibration)
        ensures
            final(self)@ == (BMP280View { calibration, ..old(self)@ }),
    {
        self.calibration = calibration;
    }

    /// Registers the client that pressures go to.
    pub fn set_pressure_client(&mut self, client: usize)
        ensures
            final(self)@ == (BMP280View { pressure_client: Some(client), ..old(self)@ }),
    {
        self.pressure_client = Some(client);
    }

    /// Registers the client that temperatures go to.
    pub fn set_client(&mut self, client: usize)
        ensures
            final(self)@ == (BMP280View { temperature_client: Some(client), ..old(self)@ }),
    {
        self.temperature_client = Some(client);
    }

    /// Reads the status register. Without the buffer nothing is started.
    pub fn read_status(&mut self) -> (transfer: Option<I2cTransfer>)
        requires
            old(self)@.wf(),
        ensures
            final(self)@.wf(),
            old(self)@.buffer is None ==> transfer is None && final(self)@ == old(self)@,
            old(self)@.buffer is Some ==> transfer is Some && (
                final(self)@,
                EffectsView { transfer: Some(transfer->0@), ..EffectsView::none() },
            ) == old(self)@.fetch(Registers::STATUS, State::ReadStatus, 1),
    {
        match self.buffer.take() {
            Some(mut buffer) => {
                buffer[0] = Registers::STATUS.address();
                self.state = State::ReadStatus;
                Some(I2cTransfer::WriteRead { buffer, write_len: 1, read_len: 1 })
            },
            None => None,
        }
    }

    /// Resets the sensor. Without the buffer nothing is started.
    pub fn reset(&mut self) -> (transfer: Option<I2cTransfer>)
        requires
            old(self)@.wf(),
        ensures
            final(self)@.wf(),
            old(self)@.buffer is None ==> transfer is None && final(self)@ == old(self)@,
            old(self)@.buffer is Some ==> {
                &&& final(self)@ == (BMP280View { state: State::Reset, buffer: None, ..old(self)@ })
                &&& transfer matches Some(I2cTransfer::WriteRead { buffer, write_len, read_len })
                &&& buffer@ == old(self)@.buffer->0.update(0, 0x00).update(
                    1,
                    Registers::SOFTRESET.spec_address(),
                )
                &&& write_len == 2
                &&& read_len == 2
            },
    {
        match self.buffer.take() {
            Some(mut buffer) => {
                // the address of the register as two bytes, high byte first
                buffer[0] = 0x00;
                buffer[1] = Registers::SOFTRESET.address();
                self.state = State::Reset;
                Some(I2cTransfer::WriteRead { buffer, write_len: 2, read_len: 2 })
            },
            None => None,
        }
    }

    /// Sets mode, oversampling, filter and pause, and with that starts to
    /// read the calibration. Refused with `ENOMEM` without the buffer.
    pub fn set_sampling(
        &mut self,
        mode: SensorMode,
        temp_sampling: SensorSampling,
        press_sampling: SensorSampling,
        filter: SensorFilter,
        duration: StandbyDuration,
    ) -> (r: (ReturnCode, Option<I2cTransfer>))
        requires
            old(self)@.wf(),
        ensures
            final(self)@.wf(),
            old(self)@.buffer is None ==> r.0 is ENOMEM && r.1 is None && final(self)@ == old(self)@,
            old(self)@.buffer is Some ==> {
                &&& r.0 is SUCCESS
                &&& final(self)@ == (BMP280View { state: State::Init, buffer: None, ..old(self)@ })
                &&& r.1 matches Some(I2cTransfer::Write { buffer, len })
                &&& buffer@ == old(self)@.buffer->0.update(
                    0,
                    Registers::CONFIG.spec_address(),
                ).update(1, configuration_register(filter, duration)).update(
                    2,
                    Registers::CONTROL.spec_address(),
                ).update(3, measurement_register(mode, temp_sampling, press_sampling))
                &&& len == 4
            },
    {
        let meas_reg: u8 = (mode.value() << 5u8) | (temp_sampling.value() << 2u8) | (
        press_sampling.value() << 5u8);
        let config_reg: u8 = (filter.value() << 5u8) | (duration.value() << 2u8);
        match self.buffer.take() {
            Some(mut buffer) => {
                self.state = State::Init;
                buffer[0] = Registers::CONFIG.address();
                buffer[1] = config_reg;
                buffer[2] = Registers::CONTROL.address();
                buffer[3] = meas_reg;
                (ReturnCode::SUCCESS, Some(I2cTransfer::Write { buffer, len: 4 }))
            },
            None => (ReturnCode::ENOMEM, None),
        }
    }

    /// Writes the address of `reg` and reads `read_len` bytes back.
    fn fetch(&mut self, reg: Registers, state: State, read_len: u8) -> (effects: Effects)
        requires
            old(self)@.wf(),
            old(self)@.buffer is Some,
        ensures
            (final(self)@, effects@) == old(self)@.fetch(reg, state, read_len),
            final(self)@.wf(),
    {
        let mut buffer: Vec<u8> = self.buffer.take().unwrap();
        self.state = state;
        buffer[0] = reg.address();
        Effects {
            disable: false,
            transfer: Some(I2cTransfer::WriteRead { buffer, write_len: 1, read_len }),
            temperature: None,
            pressure: None,
        }
    }

    /// Reads the calibration word in `reg`. Refused with `ENOMEM` without
    /// the buffer.
    pub fn read_dig(&mut self, reg: Registers, state: State) -> (r: (ReturnCode, Effects))
        requires
            old(self)@.wf(),
        ensures
            final(self)@.wf(),
            old(self)@.buffer is None ==> r.0 is ENOMEM && r.1@ == EffectsView::none() && final(self)@ == old(self)@,
            old(self)@.buffer is Some ==> r.0 is SUCCESS && (final(self)@, r.1@) == old(self)@.fetch(reg, state, 2),
    {
        if self.buffer.is_some() {
            (ReturnCode::SUCCESS, self.fetch(reg, state, 2))
        } else {
            (
                ReturnCode::ENOMEM,
                Effects { disable: false, transfer: None, temperature: None, pressure: None },
            )
        }
    }

    /// Reads the three bytes of the measurement in `reg`. Refused with
    /// `ENOMEM` without the buffer.
    pub fn get_sample(&mut self, reg: Registers, state: State) -> (r: (ReturnCode, Effects))
        requires
            old(self)@.wf(),
        ensures
            final(self)@.wf(),
            old(self)@.buffer is None ==> r.0 is ENOMEM && r.1@ == EffectsView::none() && final(self)@ == old(self)@,
            old(self)@.buffer is Some ==> r.0 is SUCCESS && (final(self)@, r.1@) == old(self)@.fetch(reg, state, 3),
    {
        if self.buffer.is_some() {
            (ReturnCode::SUCCESS, self.fetch(reg, state, 3))
        } else {
            (
                ReturnCode::ENOMEM,
                Effects { disable: false, transfer: None, temperature: None, pressure: None },
            )
        }
    }

    /// Asks for the temperature.
    ///
    /// Refused with `EBUSY` if one is asked for already. Otherwise the
    /// request is noted; an idle driver starts the reading, a busy one
    /// delivers the temperature with the reading that is under way.
    pub fn read_temperature(&mut self) -> (r: (ReturnCode, Effects))
        requires
            old(self)@.wf(),
        ensures
            final(self)@.wf(),
            r.0 == old(self)@.read_code(old(self)@.read_temp),
            old(self)@.read_temp ==> final(self)@ == old(self)@ && r.1@ == EffectsView::none(),
            !old(self)@.read_temp ==> {
                let noted = BMP280View { read_temp: true, ..old(self)@ };
                if r.0 is SUCCESS && old(self)@.state is Idle {
                    (final(self)@, r.1@) == noted.fetch(
                        Registers::TEMPDATA,
                        State::ReadTemperature,
                        3,
                    )
                } else {
                    final(self)@ == noted && r.1@ == EffectsView::none()
                }
            },
    {
        if self.read_temp {
            (
                ReturnCode::EBUSY,
                Effects { disable: false, transfer: None, temperature: None, pressure: None },
            )
        } else {
            self.read_temp = true;
            self.start_reading()
        }
    }

    /// Asks for the pressure.
    ///
    /// Refused with `EBUSY` if one is asked for already. Otherwise the
    /// request is noted; an idle driver starts the reading with the
    /// temperature, which the pressure is computed from.
    pub fn read_pressure(&mut self) -> (r: (ReturnCode, Effects))
        requires
            old(self)@.wf(),
        ensures
            final(self)@.wf(),
            r.0 == old(self)@.read_code(old(self)@.read_press),
            old(self)@.read_press ==> final(self)@ == old(self)@ && r.1@ == EffectsView::none(),
            !old(self)@.read_press ==> {
                let noted = BMP280View { read_press: true, ..old(self)@ };
                if r.0 is SUCCESS && old(self)@.state is Idle {
                    (final(self)@, r.1@) == noted.fetch(
                        Registers::TEMPDATA,
                        State::ReadTemperature,
                        3,
                    )
                } else {
                    final(self)@ == noted && r.1@ == EffectsView::none()
                }
            },
    {
        if self.read_press {
            (
                ReturnCode::EBUSY,
                Effects { disable: false, transfer: None, temperature: None, pressure: None },
            )
        } else {
            self.read_press = true;
            self.start_reading()
        }
    }

    /// Starts a reading if the driver is idle.
    fn start_reading(&mut self) -> (r: (ReturnCode, Effects))
        requires
            old(self)@.wf(),
        ensures
            final(self)@.wf(),
            r.0 == old(self)@.read_code(false),
            if r.0 is SUCCESS && old(self)@.state is Idle {
                (final(self)@, r.1@) == old(self)@.fetch(
                    Registers::TEMPDATA,
                    State::ReadTemperature,
                    3,
                )
            } else {
                final(self)@ == old(self)@ && r.1@ == EffectsView::none()
            },
    {
        match self.state {
            State::Idle => self.get_sample(Registers::TEMPDATA, State::ReadTemperature),
            _ => (
                ReturnCode::SUCCESS,
                Effects { disable: false, transfer: None, temperature: None, pressure: None },
            ),
        }
    }

    /// Stores a calibration word that was read in the present state.
    fn store_word(&mut self, w: u16)
        ensures
            final(self)@ == old(self)@.with_word(w),
    {
        let s: i16 = to_signed(w);
        match self.state {
            State::READDIGT1 => {
                self.calibration.dig_t1 = w;
            },
            State::READDIGT2 => {
                self.calibration.dig_t2 = s;
            },
            State::READDIGT3 => {
                self.calibration.dig_t3 = s;
            },
            State::READDIGP1 => {
                self.calibration.dig_p1 = w;
            },
            State::READDIGP2 => {
                self.calibration.dig_p2 = s;
            },
            State::READDIGP3 => {
                self.calibration.dig_p3 = s;
            },
            State::READDIGP4 => {
                self.calibration.dig_p4 = s;
            },
            State::READDIGP5 => {
                self.calibration.dig_p5 = s;
            },
            State::READDIGP6 => {
                self.calibration.dig_p6 = s;
            },
            State::READDIGP7 => {
                self.calibration.dig_p7 = s;
            },
            State::READDIGP8 => {
                self.calibration.dig_p8 = s;
            },
            State::READDIGP9 => {
                self.calibration.dig_p9 = s;
            },
            _ => {},
        }
    }

    /// The register and the state of the calibration word that follows the
    /// one read in `state`.
    fn next_word(state: State) -> (r: Option<(Registers, State)>)
        ensures
            r == BMP280View::next_word(state),
    {
        match state {
            State::Init => Some((Registers::DIGT1, State::READDIGT1)),
            State::READDIGT1 => Some((Registers::DIGT2, State::READDIGT2)),
            State::READDIGT2 => Some((Registers::DIGT3, State::READDIGT3)),
            State::READDIGT3 => Some((Registers::DIGP1, State::READDIGP1)),
            State::READDIGP1 => Some((Registers::DIGP2, State::READDIGP2)),
            State::READDIGP2 => Some((Registers::DIGP3, State::READDIGP3)),
            State::READDIGP3 => Some((Registers::DIGP4, State::READDIGP4)),
            State::READDIGP4 => Some((Registers::DIGP4, State::READDIGP5)),
            State::READDIGP5 => Some((Registers::DIGP6, State::READDIGP6)),
            State::READDIGP6 => Some((Registers::DIGP7, State::READDIGP7)),
            State::READDIGP7 => Some((Registers::DIGP8, State::READDIGP8)),
            State::READDIGP8 => Some((Registers::DIGP9, State::READDIGP9)),
            _ => None,
        }
    }

    /// The sensor is done and hands `buffer` back.
    ///
    /// After the sampling is set and after each calibration word the next
    /// word is fetched, until the twelfth leaves the driver idle. A raw
    /// temperature is turned into the fine temperature and delivered if
    /// asked for; the raw pressure is fetched next if the pressure is asked
    /// for. A raw pressure is turned into pascals and delivered. If the
    /// sensor reports a failure, the bus is disabled and whoever waits for a
    /// reading is told that it failed.
    pub fn command_complete(&mut self, buffer: Vec<u8>, error: Error) -> (effects: Effects)
        requires
            old(self)@.wf(),
            buffer@.len() >= 4,
        ensures
            (final(self)@, effects@) == old(self)@.command_complete(buffer@, error),
            final(self)@.wf(),
    {
        let nothing = Effects { disable: false, transfer: None, temperature: None, pressure: None };
        match error {
            Error::CommandComplete => {
                match self.state {
                    State::Init => {
                        self.buffer = Some(buffer);
                        self.fetch(Registers::DIGT1, State::READDIGT1, 2)
                    },
                    State::ReadTemperature => {
                        let adc_t: i32 = read_raw(buffer[0], buffer[1], buffer[2]);
                        let c: Calibration = self.calibration;
                        self.t_fine = compute_fine_temperature(adc_t, c.dig_t1, c.dig_t2, c.dig_t3);
                        self.buffer = Some(buffer);
                        let mut temperature: Option<(usize, usize)> = None;
                        if self.read_temp {
                            self.read_temp = false;
                            let scaled: i64 = (self.t_fine as i64) * 5 + 128;
                            let stemp: i64 = scaled >> 8;
                            assert(scaled >> 8 == scaled as int / 256) by (bit_vector);
                            match self.temperature_client {
                                Some(client) => {
                                    temperature = Some((client, to_word(stemp)));
                                },
                                None => {},
                            }
                        }
                        if self.read_press {
                            let fetched = self.fetch(
                                Registers::PRESSUREDATA,
                                State::ReadPressure,
                                3,
                            );
                            Effects {
                                disable: false,
                                transfer: fetched.transfer,
                                temperature,
                                pressure: None,
                            }
                        } else {
                            self.state = State::Idle;
                            Effects { disable: false, transfer: None, temperature, pressure: None }
                        }
                    },
                    State::ReadPressure => {
                        let adc_p: i32 = read_raw(buffer[0], buffer[1], buffer[2]);
                        let value: usize = match compute_pressure(
                            adc_p,
                            self.t_fine,
                            &self.calibration,
                        ) {
                            Some(pascals) => to_word(pascals),
                            None => FAILED,
                        };
                        self.read_press = false;
                        self.state = State::Idle;
                        self.buffer = Some(buffer);
                        Effects {
                            disable: false,
                            transfer: None,
                            temperature: None,
                            pressure: match self.pressure_client {
                                Some(client) => Some((client, value)),
                                None => None,
                            },
                        }
                    },
                    State::ReadStatus | State::Reset => {
                        self.buffer = Some(buffer);
                        self.state = State::Idle;
                        nothing
                    },
                    State::Idle => {
                        self.buffer = Some(buffer);
                        nothing
                    },
                    _ => {
                        let w: u16 = make_word(buffer[0], buffer[1]);
                        self.store_word(w);
                        self.buffer = Some(buffer);
                        match Self::next_word(self.state) {
                            Some((reg, state)) => self.fetch(reg, state, 2),
                            None => {
                                self.state = State::Idle;
                                nothing
                            },
                        }
                    },
                }
            },
            _ => {
                self.buffer = Some(buffer);
                let mut temperature: Option<(usize, usize)> = None;
                let mut pressure: Option<(usize, usize)> = None;
                if self.read_temp {
                    self.read_temp = false;
                    match self.temperature_client {
                        Some(client) => {
                            temperature = Some((client, FAILED));
                        },
                        None => {},
                    }
                }
                if self.read_press {
                    self.read_press = false;
                    match self.pressure_client {
                        Some(client) => {
                            pressure = Some((client, FAILED));
                        },
                        None => {},
                    }
                }
                Effects { disable: true, transfer: None, temperature, pressure }
            },
        }
    }
}

} // verus!
