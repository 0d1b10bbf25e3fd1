//! Driver for the LSM303DLHC 3D accelerometer and 3D magnetometer.
//!
//! The sensor answers on two I2C addresses, one for each half. The driver
//! runs one request at a time through a single buffer and reports the
//! outcome through the application's callback.

use vstd::prelude::*;
use crate::buffer::bytes_of;
use crate::hil::i2c::{Error, I2cTransfer};
use crate::process::{AppId, Callback, Upcall};
use crate::returncode::ReturnCode;

verus! {

/// Bytes of the buffer that a board usually provides.
pub const BUFFER_SIZE: usize = 6;

/// Set in a register address to have the sensor step through registers.
pub const REGISTER_AUTO_INCREMENT: u8 = 0x80;

pub const CTRL_REG1: u8 = 0x20;

pub const CTRL_REG4: u8 = 0x23;

pub const OUT_X_L_A: u8 = 0x28;

/// What the magnetometer answers when asked who it is.
pub const WHO_AM_I: u8 = 60;

/// Output data rate of the accelerometer.
#[derive(Clone, Copy, Debug, PartialEq, Eq, Structural)]
pub enum Lsm303dlhcDataRate {
    Off,
    DataRate1Hz,
    DataRate10Hz,
    DataRate25Hz,
    DataRate50Hz,
    DataRate100Hz,
    DataRate200Hz,
    DataRate400Hz,
    LowPower1620Hz,
    Normal1344LowPower5376Hz,
}

impl Lsm303dlhcDataRate {
    /// The number that stands for the rate in the control register.
    pub open spec fn spec_value(self) -> u8 {
        match self {
            Lsm303dlhcDataRate::Off => 0,
            Lsm303dlhcDataRate::DataRate1Hz => 1,
            Lsm303dlhcDataRate::DataRate10Hz => 2,
            Lsm303dlhcDataRate::DataRate25Hz => 3,
            Lsm303dlhcDataRate::DataRate50Hz => 4,
            Lsm303dlhcDataRate::DataRate100Hz => 5,
            Lsm303dlhcDataRate::DataRate200Hz => 6,
            Lsm303dlhcDataRate::DataRate400Hz => 7,
            Lsm303dlhcDataRate::LowPower1620Hz => 8,
            Lsm303dlhcDataRate::Normal1344LowPower5376Hz => 9,
        }
    }

    /// The number that stands for the rate in the control register.
    pub fn value(self) -> (v: u8)
        ensures
            v == self.spec_value(),
            v <= 9,
    {
        match self {
            Lsm303dlhcDataRate::Off => 0,
            Lsm303dlhcDataRate::DataRate1Hz => 1,
            Lsm303dlhcDataRate::DataRate10Hz => 2,
            Lsm303dlhcDataRate::DataRate25Hz => 3,
            Lsm303dlhcDataRate::DataRate50Hz => 4,
            Lsm303dlhcDataRate::DataRate100Hz => 5,
            Lsm303dlhcDataRate::DataRate200Hz => 6,
            Lsm303dlhcDataRate::DataRate400Hz => 7,
            Lsm303dlhcDataRate::LowPower1620Hz => 8,
            Lsm303dlhcDataRate::Normal1344LowPower5376Hz => 9,
        }
    }

    /// The rate that `n` stands for, if any.
    pub fn from_usize(n: usize) -> (rate: Option<Lsm303dlhcDataRate>)
        ensures
            n <= 9 <==> rate is Some,
            rate is Some ==> rate->0.spec_value() == n,
    {
        match n {
            0 => Some(Lsm303dlhcDataRate::Off),
            1 => Some(Lsm303dlhcDataRate::DataRate1Hz),
            2 => Some(Lsm303dlhcDataRate::DataRate10Hz),
            3 => Some(Lsm303dlhcDataRate::DataRate25Hz),
            4 => Some(Lsm303dlhcDataRate::DataRate50Hz),
            5 => Some(Lsm303dlhcDataRate::DataRate100Hz),
            6 => Some(Lsm303dlhcDataRate::DataRate200Hz),
            7 => Some(Lsm303dlhcDataRate::DataRate400Hz),
            8 => Some(Lsm303dlhcDataRate::LowPower1620Hz),
            9 => Some(Lsm303dlhcDataRate::Normal1344LowPower5376Hz),
            _ => None,
        }
    }
}

/// Full scale of the accelerometer.
#[derive(Clone, Copy, Debug, PartialEq, Eq, Structural)]
pub enum Lsm303dlhcScale {
    Scale2G,
    Scale4G,
    Scale8G,
    Scale16G,
}

impl Lsm303dlhcScale {
    /// The number that stands for the scale in the control register.
    pub open spec fn spec_value(self) -> u8 {
        match self {
            Lsm303dlhcScale::Scale2G => 0,
            Lsm303dlhcScale::Scale4G => 1,
            Lsm303dlhcScale::Scale8G => 2,
            Lsm303dlhcScale::Scale16G => 3,
        }
    }

    /// The number that stands for the scale in the control register.
    pub fn value(self) -> (v: u8)
        ensures
            v == self.spec_value(),
            v <= 3,
    {
        match self {
            Lsm303dlhcScale::Scale2G => 0,
            Lsm303dlhcScale::Scale4G => 1,
            Lsm303dlhcScale::Scale8G => 2,
            Lsm303dlhcScale::Scale16G => 3,
        }
    }

    /// The scale that `n` stands for, if any.
    pub fn from_usize(n: usize) -> (scale: Option<Lsm303dlhcScale>)
        ensures
            n <= 3 <==> scale is Some,
            scale is Some ==> scale->0.spec_value() == n,
    {
        match n {
            0 => Some(Lsm303dlhcScale::Scale2G),
            1 => Some(Lsm303dlhcScale::Scale4G),
            2 => Some(Lsm303dlhcScale::Scale8G),
            3 => Some(Lsm303dlhcScale::Scale16G),
            _ => None,
        }
    }
}

/// The request that is outstanding on the sensor.
#[derive(Clone, Copy, Debug, PartialEq, Eq, Structural)]
pub enum State {
    Idle,
    IsPresent,
    SetPowerMode,
    SetScaleAndResolution,
    ReadAccelerationXYZ,
}

/// The half of the sensor that a transfer goes to.
#[derive(Clone, Copy, Debug, PartialEq, Eq, Structural)]
pub enum Device {
    Accelerometer,
    Magnetometer,
}

/// One transfer to one half of the sensor.
#[derive(Debug, PartialEq, Eq)]
pub struct Request {
    pub device: Device,
    pub transfer: I2cTransfer,
}

/// The value of the power mode register for a data rate: the rate in the
/// high four bits, the low power flag in bit three, all three axes enabled.
pub open spec fn power_mode_byte(data_rate: Lsm303dlhcDataRate, low_power: bool) -> u8 {
    (data_rate.spec_value() * 16 + if low_power {
        8int
    } else {
        0int
    } + 7) as u8
}

/// The value of the scale register: the scale from bit four up, the high
/// resolution flag in bit three.
pub open spec fn scale_byte(scale: Lsm303dlhcScale, high_resolution: bool) -> u8 {
    (scale.spec_value() * 16 + if high_resolution {
        8int
    } else {
        0int
    }) as u8
}

/// A sixteen-bit two's complement reading, low byte first, widened to the
/// machine word with its sign.
pub open spec fn reading(low: u8, high: u8) -> usize {
    if high < 128 {
        (low + 256 * high) as usize
    } else {
        (usize::MAX - 65535 + low + 256 * high) as usize
    }
}

/// A sixteen-bit two's complement reading, low byte first, widened to the
/// machine word with its sign.
pub fn read_axis(low: u8, high: u8) -> (r: usize)
    ensures
        r == reading(low, high),
{
    let magnitude: usize = low as usize + 256 * (high as usize);
    if high < 128 {
        magnitude
    } else {
        usize::MAX - 65535 + magnitude
    }
}

/// The driver of one sensor.
pub struct Lsm303dlhc {
    callback: Option<Callback>,
    state: State,
    scale: Lsm303dlhcScale,
    high_resolution: bool,
    buffer: Option<Vec<u8>>,
}

/// The driver as a mathematical value.
pub struct Lsm303dlhcView {
    pub callback: Option<Callback>,
    pub state: State,
    pub scale: Lsm303dlhcScale,
    pub high_resolution: bool,
    /// The buffer, while the driver holds it.
    pub buffer: Option<Seq<u8>>,
}

impl Lsm303dlhcView {
    /// An idle driver holds its buffer, and the buffer has room for the six
    /// bytes of a reading.
    pub open spec fn wf(self) -> bool {
        &&& self.state is Idle ==> self.buffer is Some
        &&& self.buffer is Some ==> self.buffer->0.len() >= 6
    }

    /// The callback with the outcome of the request that `buffer` and
    /// `error` complete: one for success and zero for failure of a request
    /// that sets something or asks for presence, the three axes of a
    /// reading, or three zeros if the reading failed. Nothing if no
    /// callback is registered or no request was outstanding.
    pub open spec fn outcome(self, buffer: Seq<u8>, error: Error) -> Option<Upcall> {
        let ok = error is CommandComplete;
        if self.callback is None {
            None
        } else {
            let callback = self.callback->0;
            match self.state {
                State::IsPresent => Some(
                    Upcall {
                        callback,
                        r0: if ok && buffer[0] == WHO_AM_I {
                            1
                        } else {
                            0
                        },
                        r1: 0,
                        r2: 0,
                    },
                ),
                State::SetPowerMode | State::SetScaleAndResolution => Some(
                    Upcall {
                        callback,
                        r0: if ok {
                            1
                        } else {
                            0
                        },
                        r1: 0,
                        r2: 0,
                    },
                ),
                State::ReadAccelerationXYZ => if ok {
                    Some(
                        Upcall {
                            callback,
                            r0: reading(buffer[0], buffer[1]),
                            r1: reading(buffer[2], buffer[3]),
                            r2: reading(buffer[4], buffer[5]),
                        },
                    )
                } else {
                    Some(Upcall { callback, r0: 0, r1: 0, r2: 0 })
                },
                State::Idle => None,
            }
        }
    }
}

impl View for Lsm303dlhc {
    type V = Lsm303dlhcView;

    closed spec fn view(&self) -> Lsm303dlhcView {
        Lsm303dlhcView {
            callback: self.callback,
            state: self.state,
            scale: self.scale,
            high_resolution: self.high_resolution,
            buffer: bytes_of(self.buffer),
        }
    }
}

impl Lsm303dlhc {
    /// An idle driver that owns `buffer`. The driver can work with a buffer
    /// that has room for the six bytes of a reading.
    pub fn new(buffer: Vec<u8>) -> (driver: Lsm303dlhc)
        ensures
            driver@ == (Lsm303dlhcView {
                callback: None,
                state: State::Idle,
                scale: Lsm303dlhcScale::Scale2G,
                high_resolution: false,
                buffer: Some(buffer@),
            }),
            buffer@.len() >= 6 ==> driver@.wf(),
    {
        Lsm303dlhc {
            callback: None,
            state: State::Idle,
            scale: Lsm303dlhcScale::Scale2G,
            high_resolution: false,
            buffer: Some(buffer),
        }
    }

    /// Whether the driver can work: while idle it holds its buffer, and the
    /// buffer has room for the six bytes of a reading.
    pub fn is_well_formed(&self) -> (r: bool)
        ensures
            r == self@.wf(),
    {
        match &self.buffer {
            Some(buffer) => buffer.len() >= 6,
            None => match self.state {
                State::Idle => false,
                _ => true,
            },
        }
    }

    /// The request outstanding on the sensor.
    pub fn state(&self) -> (s: State)
        ensures
            s == self@.state,
    {
        self.state
    }

    /// Asks the magnetometer who it is.
    pub fn is_present(&mut self) -> (request: Request)
        requires
            old(self)@.wf(),
            old(self)@.state is Idle,
        ensures
            final(self)@ == (Lsm303dlhcView {
                state: State::IsPresent,
                buffer: None,
                ..old(self)@
            }),
            final(self)@.wf(),
            request.device is Magnetometer,
            request.transfer matches I2cTransfer::WriteRead { buffer, write_len, read_len }
                && buffer@ == old(self)@.buffer->0.update(0, 0x0F) && write_len == 1 && read_len
                == 1,
    {
        self.state = State::IsPresent;
        let mut buf: Vec<u8> = self.buffer.take().unwrap();
        buf[0] = 0x0F;
        Request {
            device: Device::Magnetometer,
            transfer: I2cTransfer::WriteRead { buffer: buf, write_len: 1, read_len: 1 },
        }
    }

    /// Sets the data rate and the power mode of the accelerometer. Does
    /// nothing unless the driver is idle.
    pub fn set_power_mode(&mut self, data_rate: Lsm303dlhcDataRate, low_power: bool) -> (request:
        Option<Request>)
        requires
            old(self)@.wf(),
        ensures
            final(self)@.wf(),
            request is Some <==> old(self)@.state is Idle,
            request is None ==> final(self)@ == old(self)@,
            request is Some ==> {
                &&& final(self)@ == (Lsm303dlhcView {
                    state: State::SetPowerMode,
                    buffer: None,
                    ..old(self)@
                })
                &&& request->0.device is Accelerometer
                &&& request->0.transfer matches I2cTransfer::Write { buffer, len }
                &&& buffer@ == old(self)@.buffer->0.update(0, CTRL_REG1).update(
                    1,
                    power_mode_byte(data_rate, low_power),
                )
                &&& len == 2
            },
    {
        if self.state == State::Idle {
            self.state = State::SetPowerMode;
            let mut buf: Vec<u8> = self.buffer.take().unwrap();
            buf[0] = CTRL_REG1;
            buf[1] = data_rate.value() * 16 + if low_power {
                8
            } else {
                0
            } + 7;
            Some(
                Request {
                    device: Device::Accelerometer,
                    transfer: I2cTransfer::Write { buffer: buf, len: 2 },
                },
            )
        } else {
            None
        }
    }

    /// Sets the full scale and the resolution of the accelerometer. Does
    /// nothing unless the driver is idle.
    pub fn set_scale_and_resolution(&mut self, scale: Lsm303dlhcScale, high_resolution: bool) -> (request:
        Option<Request>)
        requires
            old(self)@.wf(),
        ensures
            final(self)@.wf(),
            request is Some <==> old(self)@.state is Idle,
            request is None ==> final(self)@ == old(self)@,
            request is Some ==> {
                &&& final(self)@ == (Lsm303dlhcView {
                    state: State::SetScaleAndResolution,
                    scale,
                    high_resolution,
                    buffer: None,
                    ..old(self)@
                })
                &&& request->0.device is Accelerometer
                &&& request->0.transfer matches I2cTransfer::Write { buffer, len }
                &&& buffer@ == old(self)@.buffer->0.update(0, CTRL_REG4).update(
                    1,
                    scale_byte(scale, high_resolution),
                )
                &&& len == 2
            },
    {
        if self.state == State::Idle {
            self.state = State::SetScaleAndResolution;
            self.scale = scale;
            self.high_resolution = high_resolution;
            let mut buf: Vec<u8> = self.buffer.take().unwrap();
            buf[0] = CTRL_REG4;
            buf[1] = scale.value() * 16 + if high_resolution {
                8
            } else {
                0
            };
            Some(
                Request {
                    device: Device::Accelerometer,
                    transfer: I2cTransfer::Write { buffer: buf, len: 2 },
                },
            )
        } else {
            None
        }
    }

    /// Reads the acceleration on the three axes. Does nothing unless the
    /// driver is idle.
    pub fn read_acceleration_xyz(&mut self) -> (request: Option<Request>)
        requires
            old(self)@.wf(),
        ensures
            final(self)@.wf(),
            request is Some <==> old(self)@.state is Idle,
            request is None ==> final(self)@ == old(self)@,
            request is Some ==> {
                &&& final(self)@ == (Lsm303dlhcView {
                    state: State::ReadAccelerationXYZ,
                    buffer: None,
                    ..old(self)@
                })
                &&& request->0.device is Accelerometer
                &&& request->0.transfer matches I2cTransfer::WriteRead {
                    buffer,
                    write_len,
                    read_len,
                }
                &&& buffer@ == old(self)@.buffer->0.update(0, 0xA8)
                &&& write_len == 1
                &&& read_len == 6
            },
    {
        if self.state == State::Idle {
            self.state = State::ReadAccelerationXYZ;
            let mut buf: Vec<u8> = self.buffer.take().unwrap();
            buf[0] = 0xA8;
            Some(
                Request {
                    device: Device::Accelerometer,
                    transfer: I2cTransfer::WriteRead { buffer: buf, write_len: 1, read_len: 6 },
                },
            )
        } else {
            None
        }
    }

    /// The sensor is done and hands `buffer` back. The outcome goes to the
    /// application's callback, the buffer returns to the driver, and the
    /// driver is idle.
    pub fn command_complete(&mut self, buffer: Vec<u8>, error: Error) -> (upcall: Option<Upcall>)
        requires
            buffer@.len() >= 6,
        ensures
            upcall == old(self)@.outcome(buffer@, error),
            final(self)@ == (Lsm303dlhcView {
                state: State::Idle,
                buffer: Some(buffer@),
                ..old(self)@
            }),
            final(self)@.wf(),
    {
        let ok: bool = match error {
            Error::CommandComplete => true,
            _ => false,
        };
        let upcall: Option<Upcall> = match self.callback {
            None => None,
            Some(callback) => match self.state {
                State::IsPresent => {
                    let present: bool = ok && buffer[0] == WHO_AM_I;
                    Some(
                        callback.schedule(
                            if present {
                                1
                            } else {
                                0
                            },
                            0,
                            0,
                        ),
                    )
                },
                State::SetPowerMode | State::SetScaleAndResolution => Some(
                    callback.schedule(
                        if ok {
                            1
                        } else {
                            0
                        },
                        0,
                        0,
                    ),
                ),
                State::ReadAccelerationXYZ => {
                    if ok {
                        let x: usize = read_axis(buffer[0], buffer[1]);
                        let y: usize = read_axis(buffer[2], buffer[3]);
                        let z: usize = read_axis(buffer[4], buffer[5]);
                        Some(callback.schedule(x, y, z))
                    } else {
                        Some(callback.schedule(0, 0, 0))
                    }
                },
                State::Idle => None,
            },
        };
        self.buffer = Some(buffer);
        self.state = State::Idle;
        upcall
    }

    /// A request from the application: 0 asks whether the driver is there,
    /// 1 whether the sensor is, 2 sets the data rate `data1` and the low
    /// power flag `data2`, 3 sets the scale `data1` and the high resolution
    /// flag `data2`, 6 reads the acceleration.
    ///
    /// A request that needs the sensor is refused with `EBUSY` unless the
    /// driver is idle, and with `EINVAL` if `data1` names no rate or scale.
    /// Any other number is `ENOSUPPORT`.
    pub fn command(&mut self, command_num: usize, data1: usize, data2: usize, appid: AppId) -> (r: (
        ReturnCode,
        Option<Request>,
    ))
        requires
            old(self)@.wf(),
        ensures
            final(self)@.wf(),
            r.0 == if command_num == 0 {
                ReturnCode::SUCCESS
            } else if command_num == 1 || command_num == 2 || command_num == 3 || command_num
                == 6 {
                if !(old(self)@.state is Idle) {
                    ReturnCode::EBUSY
                } else if (command_num == 2 && data1 > 9) || (command_num == 3 && data1 > 3) {
                    ReturnCode::EINVAL
                } else {
                    ReturnCode::SUCCESS
                }
            } else {
                ReturnCode::ENOSUPPORT
            },
            r.1 is Some <==> command_num != 0 && r.0 is SUCCESS,
            r.1 is None ==> final(self)@ == old(self)@,
            r.1 is Some ==> final(self)@.state == match command_num {
                1 => State::IsPresent,
                2 => State::SetPowerMode,
                3 => State::SetScaleAndResolution,
                _ => State::ReadAccelerationXYZ,
            },
    {
        match command_num {
            0 => (ReturnCode::SUCCESS, None),
            // is the sensor connected
            1 => {
                if self.state == State::Idle {
                    (ReturnCode::SUCCESS, Some(self.is_present()))
                } else {
                    (ReturnCode::EBUSY, None)
                }
            },
            // set power mode
            2 => {
                if self.state == State::Idle {
                    match Lsm303dlhcDataRate::from_usize(data1) {
                        Some(data_rate) => (
                            ReturnCode::SUCCESS,
                            self.set_power_mode(data_rate, data2 != 0),
                        ),
                        None => (ReturnCode::EINVAL, None),
                    }
                } else {
                    (ReturnCode::EBUSY, None)
                }
            },
            // set scale and resolution
            3 => {
                if self.state == State::Idle {
                    match Lsm303dlhcScale::from_usize(data1) {
                        Some(scale) => (
                            ReturnCode::SUCCESS,
                            self.set_scale_and_resolution(scale, data2 != 0),
                        ),
                        None => (ReturnCode::EINVAL, None),
                    }
                } else {
                    (ReturnCode::EBUSY, None)
                }
            },
            // read acceleration
            6 => {
                if self.state == State::Idle {
                    (ReturnCode::SUCCESS, self.read_acceleration_xyz())
                } else {
                    (ReturnCode::EBUSY, None)
                }
            },
            _ => (ReturnCode::ENOSUPPORT, None),
        }
    }

    /// Registers, replaces or removes the application's callback. Only
    /// subscription 0 exists.
    pub fn subscribe(&mut self, subscribe_num: usize, callback: Option<Callback>, app_id: AppId) -> (r:
        ReturnCode)
        ensures
            subscribe_num == 0 ==> r is SUCCESS && final(self)@ == (Lsm303dlhcView {
                callback,
                ..old(self)@
            }),
            subscribe_num != 0 ==> r is ENOSUPPORT && final(self)@ == old(self)@,
    {
        match subscribe_num {
            0 => {
                self.callback = callback;
                ReturnCode::SUCCESS
            },
            _ => ReturnCode::ENOSUPPORT,
        }
    }
}

} // verus!
