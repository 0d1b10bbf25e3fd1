use tockmux::capsules::bmp280::{
    compute_fine_temperature, compute_pressure, divide, make_word, read_raw, to_signed, Calibration,
    Effects as BmpEffects, Registers, SensorFilter, SensorMode, SensorSampling, StandbyDuration,
    State as BmpState, BMP280, FAILED,
};
use tockmux::capsules::ft6x06::{
    decode_gesture, decode_touch, Effects as TouchEffects, Ft6x06, Interrupts, MultiTouchReport,
    State as TouchState,
};
use tockmux::capsules::l3gd20::{SenzitivityScale, L3GD20};
use tockmux::capsules::lsm303dlhc::{
    read_axis, Device, Lsm303dlhc, Lsm303dlhcDataRate, Lsm303dlhcScale, Request, State,
};
use tockmux::capsules::temperature_stm::Status;
use tockmux::hil::bus::{BusWidth, Request as BusRequest};
use tockmux::hil::i2c::{Error, I2cTransfer};
use tockmux::hil::spi::{ClockPhase, ClockPolarity, SpiConfiguration, SpiTransfer};
use tockmux::hil::touch::{GestureEvent, Touch, TouchEvent, TouchPoint};
use tockmux::process::{to_word, AppId, Callback, Upcall};
use tockmux::returncode::ReturnCode;

fn app() -> AppId {
    AppId::new(0)
}

fn callback() -> Callback {
    Callback::new(app(), 3)
}

#[test]
fn data_rates_and_scales_by_number() {
    assert_eq!(Lsm303dlhcDataRate::from_usize(0), Some(Lsm303dlhcDataRate::Off));
    assert_eq!(Lsm303dlhcDataRate::from_usize(5), Some(Lsm303dlhcDataRate::DataRate100Hz));
    assert_eq!(
        Lsm303dlhcDataRate::from_usize(9),
        Some(Lsm303dlhcDataRate::Normal1344LowPower5376Hz)
    );
    assert_eq!(Lsm303dlhcDataRate::from_usize(10), None);
    assert_eq!(Lsm303dlhcDataRate::LowPower1620Hz.value(), 8);
    assert_eq!(Lsm303dlhcScale::from_usize(3), Some(Lsm303dlhcScale::Scale16G));
    assert_eq!(Lsm303dlhcScale::from_usize(4), None);
    assert_eq!(Lsm303dlhcScale::Scale8G.value(), 2);
}

#[test]
fn axis_readings_keep_their_sign() {
    assert_eq!(read_axis(0x34, 0x12), 0x1234);
    assert_eq!(read_axis(0xFF, 0x7F), 0x7FFF);
    assert_eq!(read_axis(0xFF, 0xFF), usize::MAX);
    assert_eq!(read_axis(0x00, 0x80), (-32768isize) as usize);
    assert_eq!(read_axis(0, 0), 0);
}

#[test]
fn lsm303dlhc_is_present() {
    let mut d = Lsm303dlhc::new(vec![0; 6]);
    assert_eq!(d.subscribe(0, Some(callback()), app()), ReturnCode::SUCCESS);
    assert_eq!(d.subscribe(1, None, app()), ReturnCode::ENOSUPPORT);
    let (code, request) = d.command(1, 0, 0, app());
    assert_eq!(code, ReturnCode::SUCCESS);
    assert_eq!(
        request,
        Some(Request {
            device: Device::Magnetometer,
            transfer: I2cTransfer::WriteRead {
                buffer: vec![0x0F, 0, 0, 0, 0, 0],
                write_len: 1,
                read_len: 1
            }
        })
    );
    assert_eq!(d.state(), State::IsPresent);
    // busy now
    assert_eq!(d.command(1, 0, 0, app()), (ReturnCode::EBUSY, None));
    assert_eq!(d.command(2, 1, 0, app()), (ReturnCode::EBUSY, None));
    assert_eq!(d.command(3, 1, 0, app()), (ReturnCode::EBUSY, None));
    assert_eq!(d.command(6, 0, 0, app()), (ReturnCode::EBUSY, None));
    assert_eq!(d.set_power_mode(Lsm303dlhcDataRate::Off, false), None);
    assert_eq!(d.set_scale_and_resolution(Lsm303dlhcScale::Scale2G, false), None);
    assert_eq!(d.read_acceleration_xyz(), None);
    assert_eq!(d.state(), State::IsPresent);
    let upcall = d.command_complete(vec![60, 0, 0, 0, 0, 0], Error::CommandComplete);
    assert_eq!(upcall, Some(Upcall { callback: callback(), r0: 1, r1: 0, r2: 0 }));
    assert_eq!(d.state(), State::Idle);
    d.command(1, 0, 0, app());
    let upcall = d.command_complete(vec![61, 0, 0, 0, 0, 0], Error::CommandComplete);
    assert_eq!(upcall, Some(Upcall { callback: callback(), r0: 0, r1: 0, r2: 0 }));
    d.command(1, 0, 0, app());
    let upcall = d.command_complete(vec![60, 0, 0, 0, 0, 0], Error::AddressNak);
    assert_eq!(upcall, Some(Upcall { callback: callback(), r0: 0, r1: 0, r2: 0 }));
}

#[test]
fn lsm303dlhc_settings() {
    let mut d = Lsm303dlhc::new(vec![9; 6]);
    assert_eq!(d.command(0, 0, 0, app()), (ReturnCode::SUCCESS, None));
    assert_eq!(d.command(4, 0, 0, app()), (ReturnCode::ENOSUPPORT, None));
    assert_eq!(d.command(2, 10, 0, app()), (ReturnCode::EINVAL, None));
    assert_eq!(d.command(3, 4, 0, app()), (ReturnCode::EINVAL, None));
    assert_eq!(d.state(), State::Idle);
    // 100 Hz, low power: 5 << 4 | 1 << 3 | 7
    let (code, request) = d.command(2, 5, 1, app());
    assert_eq!(code, ReturnCode::SUCCESS);
    assert_eq!(
        request,
        Some(Request {
            device: Device::Accelerometer,
            transfer: I2cTransfer::Write { buffer: vec![0x20, 0x5F, 9, 9, 9, 9], len: 2 }
        })
    );
    assert_eq!(d.state(), State::SetPowerMode);
    assert_eq!(d.command_complete(vec![0; 6], Error::CommandComplete), None);
    d.subscribe(0, Some(callback()), app());
    // 8 g, high resolution: 2 << 4 | 1 << 3
    let (_, request) = d.command(3, 2, 7, app());
    assert_eq!(
        request.unwrap().transfer,
        I2cTransfer::Write { buffer: vec![0x23, 0x28, 0, 0, 0, 0], len: 2 }
    );
    assert_eq!(d.state(), State::SetScaleAndResolution);
    assert_eq!(
        d.command_complete(vec![0; 6], Error::DataNak),
        Some(Upcall { callback: callback(), r0: 0, r1: 0, r2: 0 })
    );
    let request = d.set_power_mode(Lsm303dlhcDataRate::Normal1344LowPower5376Hz, false);
    assert_eq!(
        request.unwrap().transfer,
        I2cTransfer::Write { buffer: vec![0x20, 0x97, 0, 0, 0, 0], len: 2 }
    );
    assert_eq!(
        d.command_complete(vec![0; 6], Error::CommandComplete),
        Some(Upcall { callback: callback(), r0: 1, r1: 0, r2: 0 })
    );
}

#[test]
fn lsm303dlhc_reads_three_axes() {
    let mut d = Lsm303dlhc::new(vec![0; 6]);
    d.subscribe(0, Some(callback()), app());
    let (code, request) = d.command(6, 0, 0, app());
    assert_eq!(code, ReturnCode::SUCCESS);
    assert_eq!(
        request.unwrap(),
        Request {
            device: Device::Accelerometer,
            transfer: I2cTransfer::WriteRead {
                buffer: vec![0xA8, 0, 0, 0, 0, 0],
                write_len: 1,
                read_len: 6
            }
        }
    );
    assert_eq!(d.state(), State::ReadAccelerationXYZ);
    let upcall = d.command_complete(vec![1, 0, 0xFE, 0xFF, 0x00, 0x40], Error::CommandComplete);
    assert_eq!(
        upcall,
        Some(Upcall { callback: callback(), r0: 1, r1: (-2isize) as usize, r2: 0x4000 })
    );
    d.read_acceleration_xyz();
    let upcall = d.command_complete(vec![1, 2, 3, 4, 5, 6], Error::Overrun);
    assert_eq!(upcall, Some(Upcall { callback: callback(), r0: 0, r1: 0, r2: 0 }));
    // a completion that nothing asked for
    assert_eq!(d.command_complete(vec![1, 2, 3, 4, 5, 6], Error::CommandComplete), None);
    assert_eq!(d.state(), State::Idle);
}

#[test]
fn touch_decoding() {
    let data = vec![0x40, 0x81, 0x23, 0x0F, 0xFF, 7, 9];
    assert_eq!(
        decode_touch(&data, 0),
        TouchPoint {
            id: 0,
            status: TouchEvent::Released,
            x: 0x123,
            y: 0xFFF,
            pressure: Some(7),
            size: Some(9)
        }
    );
    let data = vec![0xAA, 0x3F, 0, 0, 0, 1, 0, 0];
    assert_eq!(decode_touch(&data, 1).status, TouchEvent::Pressed);
    assert_eq!(decode_touch(&data, 1).y, 1);
    assert_eq!(decode_touch(&vec![0x80, 0, 0, 0, 0, 0, 0], 0).status, TouchEvent::Released);
    assert_eq!(decode_gesture(0x10), Some(GestureEvent::SwipeUp));
    assert_eq!(decode_gesture(0x14), Some(GestureEvent::SwipeRight));
    assert_eq!(decode_gesture(0x18), Some(GestureEvent::SwipeDown));
    assert_eq!(decode_gesture(0x1C), Some(GestureEvent::SwipeLeft));
    assert_eq!(decode_gesture(0x48), Some(GestureEvent::ZoomIn));
    assert_eq!(decode_gesture(0x49), Some(GestureEvent::ZoomOut));
    assert_eq!(decode_gesture(0x11), None);
}

fn blank() -> TouchPoint {
    TouchPoint { id: 0, status: TouchEvent::Released, x: 0, y: 0, pressure: None, size: None }
}

#[test]
fn ft6x06_reads_a_report() {
    let (mut d, interrupts) = Ft6x06::new(vec![0; 17], vec![blank(), blank()]);
    assert_eq!(interrupts, Interrupts::EnableFallingEdge);
    d.set_client(1);
    d.set_gesture_client(2);
    d.set_multi_touch_client(3);
    assert_eq!(d.enable(), ReturnCode::SUCCESS);
    assert_eq!(Touch::disable(&mut d), ReturnCode::SUCCESS);
    assert_eq!(d.get_num_touches(), 2);
    let effects = d.fired();
    assert_eq!(
        effects,
        TouchEffects {
            interrupts: Some(Interrupts::Disable),
            bus: Some(BusRequest::SetAddr { addr_width: BusWidth::Bits8, addr: 1 }),
            touch: None,
            gesture: None,
            multi_touch: None,
        }
    );
    assert_eq!(d.state(), TouchState::ReadingTouchesCmd);
    let effects = d.command_complete(None, 0);
    assert_eq!(
        effects.bus,
        Some(BusRequest::Read { data_width: BusWidth::Bits8, buffer: vec![0; 17], len: 15 })
    );
    assert_eq!(d.state(), TouchState::ReadingTouchesData);
    let mut report = vec![0; 17];
    report[0] = 0x18;
    // two touches would be 0x02; 0x18 counts eight, so nothing is reported
    let effects = d.command_complete(Some(report.clone()), 15);
    assert_eq!(
        effects,
        TouchEffects {
            interrupts: Some(Interrupts::EnableFallingEdge),
            bus: None,
            touch: None,
            gesture: None,
            multi_touch: None,
        }
    );
    assert_eq!(d.state(), TouchState::Idle);

    d.fired();
    d.command_complete(None, 0);
    let report = vec![0x01, 0x01, 0x02, 0x03, 0x04, 5, 6, 0, 0, 0, 0, 0, 0, 0, 0, 0, 0];
    let effects = d.command_complete(Some(report), 15);
    let touch = TouchPoint {
        id: 0,
        status: TouchEvent::Pressed,
        x: 0x102,
        y: 0x304,
        pressure: Some(5),
        size: Some(6),
    };
    assert_eq!(effects.touch, Some((1, touch)));
    assert_eq!(effects.gesture, None);
    assert_eq!(effects.multi_touch, Some(MultiTouchReport { client: 3, event: touch, count: 1 }));
    assert_eq!(effects.interrupts, Some(Interrupts::EnableFallingEdge));
    // the touch behind the first byte of the report the driver holds
    assert_eq!(
        d.get_touch(0),
        Some(TouchPoint {
            id: 0,
            status: TouchEvent::Pressed,
            x: 0x203,
            y: 0x405,
            pressure: Some(6),
            size: Some(0)
        })
    );
    assert!(d.get_touch(1).is_some());
    assert_eq!(d.get_touch(2), None);
    assert_eq!(d.command(0, 0, 0, AppId::new(0)), ReturnCode::SUCCESS);
    assert_eq!(d.command(1, 0, 0, AppId::new(0)), ReturnCode::ENOSUPPORT);
}

#[test]
fn ft6x06_gesture_and_no_report() {
    let (mut d, interrupts) = Ft6x06::new(vec![0; 17], vec![blank(), blank()]);
    assert_eq!(interrupts, Interrupts::EnableFallingEdge);
    d.set_gesture_client(2);
    d.fired();
    d.command_complete(None, 0);
    let mut report = vec![0; 17];
    report[0] = 0x10;
    let effects = d.command_complete(Some(report), 15);
    assert_eq!(effects.gesture, Some((2, GestureEvent::SwipeUp)));
    assert_eq!(effects.touch, None);
    // a read that hands no buffer back
    d.fired();
    let effects = d.command_complete(None, 0);
    assert!(effects.bus.is_some());
    let effects = d.command_complete(None, 0);
    assert_eq!(
        effects,
        TouchEffects { interrupts: None, bus: None, touch: None, gesture: None, multi_touch: None }
    );
    assert_eq!(d.state(), TouchState::Idle);
    assert_eq!(d.get_touch(0), None);
}

#[test]
fn l3gd20_asks_who_is_there() {
    let mut d = L3GD20::new(vec![0; 100], vec![7; 100]);
    let (present, transfer) = d.is_present();
    assert!(!present);
    let transfer = transfer.unwrap();
    assert_eq!(&transfer.write_buffer[..3], &[0x8F, 0xFF, 0]);
    assert_eq!(transfer.read_buffer, Some(vec![7; 100]));
    assert_eq!(transfer.len, 2);
    // both buffers are out
    assert_eq!(d.is_present(), (false, None));
    d.read_write_done(transfer.write_buffer, transfer.read_buffer, 2);
    let (_, again) = d.is_present();
    assert_eq!(again.unwrap().read_buffer, Some(vec![7; 100]));
    assert_eq!(
        d.configure(),
        SpiConfiguration {
            cpol: ClockPolarity::IdleHigh,
            cpal: ClockPhase::SampleTrailing,
            rate: 1_000_000
        }
    );
    d.fired();
    assert_ne!(SenzitivityScale::S_250, SenzitivityScale::S_2000);
    let _ = SpiTransfer { write_buffer: vec![], read_buffer: None, len: 0 };
}

#[test]
fn temperature_status() {
    let mut status = Status::Idle;
    assert_eq!(status.read_temperature(), ReturnCode::SUCCESS);
    assert_eq!(status, Status::Read);
    assert_eq!(status.read_temperature(), ReturnCode::EBUSY);
    assert_eq!(status, Status::Read);
    status.sample_ready();
    assert_eq!(status, Status::Idle);
}

#[test]
fn words_and_signs() {
    assert_eq!(make_word(0x34, 0x12), 0x1234);
    assert_eq!(to_signed(0x7FFF), 32767);
    assert_eq!(to_signed(0x8000), -32768);
    assert_eq!(to_signed(0xFFFF), -1);
    assert_eq!(read_raw(0x7E, 0xED, 0x00), 519888);
    assert_eq!(read_raw(0xFF, 0xFF, 0xFF), 1048575);
    assert_eq!(to_word(5), 5);
    assert_eq!(to_word(-1), usize::MAX);
    assert_eq!(to_word(i64::MIN), (i64::MIN as isize) as usize);
    assert_eq!(divide(7, 2), 3);
    assert_eq!(divide(-7, 2), -3);
    assert_eq!(divide(7, -2), -3);
    assert_eq!(divide(-7, -2), 3);
    assert_eq!(divide(i64::MIN, -1), 9223372036854775808);
}

fn datasheet() -> Calibration {
    Calibration {
        dig_t1: 27504,
        dig_t2: 26435,
        dig_t3: -1000,
        dig_p1: 36477,
        dig_p2: -10685,
        dig_p3: 3024,
        dig_p4: 2855,
        dig_p5: 140,
        dig_p6: -7,
        dig_p7: 15500,
        dig_p8: -14600,
        dig_p9: 6000,
    }
}

#[test]
fn temperature_of_the_datasheet() {
    let c = datasheet();
    let t_fine = compute_fine_temperature(519888, c.dig_t1, c.dig_t2, c.dig_t3);
    assert_eq!(t_fine, 128422);
    assert_eq!((t_fine * 5 + 128) >> 8, 2508);
    assert_eq!(compute_fine_temperature(0, 0, 0, 0), 0);
    // every step rounds down
    assert_eq!(compute_fine_temperature(0, 1, 1, 0), -1);
}

fn reference_pressure(adc_p: i64, t_fine: i64, c: &Calibration) -> Option<i64> {
    let mut var1 = t_fine - 128000;
    let mut var2 = var1 * var1 * c.dig_p6 as i64;
    var2 += (var1 * c.dig_p5 as i64) << 17;
    var2 += (c.dig_p4 as i64) << 35;
    var1 = ((var1 * var1 * c.dig_p3 as i64) >> 8) + ((var1 * c.dig_p2 as i64) << 12);
    if var1 == 0 {
        return None;
    }
    let mut p = 1048576 - adc_p;
    p = (((p << 31) - var2) * 3125) / var1;
    var1 = ((c.dig_p9 as i64) * (p >> 13) * (p >> 13)) >> 25;
    var2 = ((c.dig_p8 as i64) * p) >> 19;
    p = ((p + var1 + var2) >> 8) + ((c.dig_p7 as i64) << 4);
    Some(p / 256 * 100)
}

#[test]
fn pressure_follows_the_formula() {
    let c = datasheet();
    for (adc_p, t_fine) in [(415148, 128422), (0, 128422), (1048575, 0), (500000, 200000)] {
        assert_eq!(
            compute_pressure(adc_p, t_fine, &c),
            reference_pressure(adc_p as i64, t_fine as i64, &c)
        );
    }
    assert_eq!(compute_pressure(415148, 128422, &c), Some(-219700));
    // the formula divides by zero at the reference point
    assert_eq!(compute_pressure(415148, 128000, &c), None);
    // a step that leaves sixty-four bits
    let wild = Calibration { dig_p6: 32767, dig_p3: 32767, ..c };
    assert_eq!(compute_pressure(415148, i32::MAX, &wild), None);
}

fn idle_effects() -> BmpEffects {
    BmpEffects { disable: false, transfer: None, temperature: None, pressure: None }
}

#[test]
fn bmp280_reads_its_calibration() {
    let mut d = BMP280::new(vec![0; 4]);
    let (code, transfer) = d.set_sampling(
        SensorMode::NORMAL,
        SensorSampling::SAMPLINGX2,
        SensorSampling::SAMPLINGX16,
        SensorFilter::FILTERX16,
        StandbyDuration::STANDBY500,
    );
    assert_eq!(code, ReturnCode::SUCCESS);
    // config: 4 << 5 | 4 << 2; control: 3 << 5 | 2 << 2 | 5 << 5
    assert_eq!(transfer, Some(I2cTransfer::Write { buffer: vec![0xF5, 0x90, 0xF4, 0xE8], len: 4 }));
    assert_eq!(d.state(), BmpState::Init);
    // the buffer is out
    assert_eq!(
        d.set_sampling(
            SensorMode::SLEEP,
            SensorSampling::SAMPLINGNONE,
            SensorSampling::SAMPLINGNONE,
            SensorFilter::FILTEROFF,
            StandbyDuration::STANDBY1
        ),
        (ReturnCode::ENOMEM, None)
    );
    assert_eq!(d.read_status(), None);
    assert_eq!(d.reset(), None);
    assert_eq!(d.read_dig(Registers::DIGT1, BmpState::READDIGT1), (ReturnCode::ENOMEM, idle_effects()));
    let mut registers = Vec::new();
    let mut effects = d.command_complete(vec![0; 4], Error::CommandComplete);
    let mut word: u16 = 0x8001;
    while let Some(I2cTransfer::WriteRead { buffer, write_len, read_len }) = effects.transfer {
        assert_eq!((write_len, read_len), (1, 2));
        registers.push(buffer[0]);
        let reply = vec![(word & 0xFF) as u8, (word >> 8) as u8, 0, 0];
        word += 1;
        effects = d.command_complete(reply, Error::CommandComplete);
    }
    assert_eq!(
        registers,
        vec![0x88, 0x8A, 0x8C, 0x8E, 0x90, 0x92, 0x94, 0x94, 0x98, 0x9A, 0x9C, 0x9E]
    );
    assert_eq!(effects, idle_effects());
    assert_eq!(d.state(), BmpState::Idle);
    assert_eq!(
        d.calibration(),
        Calibration {
            dig_t1: 0x8001,
            dig_t2: -32766,
            dig_t3: -32765,
            dig_p1: 0x8004,
            dig_p2: -32763,
            dig_p3: -32762,
            dig_p4: -32761,
            dig_p5: -32760,
            dig_p6: -32759,
            dig_p7: -32758,
            dig_p8: -32757,
            dig_p9: -32756,
        }
    );
}

#[test]
fn bmp280_status_and_reset() {
    let mut d = BMP280::new(vec![1, 2, 3, 4]);
    assert_eq!(
        d.read_status(),
        Some(I2cTransfer::WriteRead { buffer: vec![0xF3, 2, 3, 4], write_len: 1, read_len: 1 })
    );
    assert_eq!(d.state(), BmpState::ReadStatus);
    assert_eq!(d.command_complete(vec![0; 4], Error::CommandComplete), idle_effects());
    assert_eq!(d.state(), BmpState::Idle);
    assert_eq!(
        d.reset(),
        Some(I2cTransfer::WriteRead { buffer: vec![0x00, 0xE0, 0, 0], write_len: 2, read_len: 2 })
    );
    assert_eq!(d.state(), BmpState::Reset);
    assert_eq!(d.command_complete(vec![0; 4], Error::CommandComplete), idle_effects());
    assert_eq!(d.state(), BmpState::Idle);
    assert_eq!(Registers::CHIPID.address(), 0xD0);
    assert_eq!(Registers::VERSION.address(), 0xD1);
    assert_eq!(Registers::CAL26.address(), 0xE1);
    assert_eq!(Registers::DIGP5.address(), 0x96);
    assert_eq!(SensorMode::SOFTRESET.value(), 0xB6);
    assert_eq!(SensorMode::FORCED.value(), 1);
    assert_eq!(StandbyDuration::STANDBY4000.value(), 7);
    assert_eq!(SensorSampling::SAMPLINGX8.value(), 4);
    assert_eq!(SensorFilter::FILTERX8.value(), 3);
}

#[test]
fn bmp280_temperature_and_pressure() {
    let mut d = BMP280::new(vec![0; 4]);
    d.set_client(1);
    d.set_pressure_client(2);
    d.set_calibration(datasheet());
    let (code, effects) = d.read_pressure();
    assert_eq!(code, ReturnCode::SUCCESS);
    // the temperature is read first
    assert_eq!(
        effects.transfer,
        Some(I2cTransfer::WriteRead { buffer: vec![0xFA, 0, 0, 0], write_len: 1, read_len: 3 })
    );
    assert_eq!(d.state(), BmpState::ReadTemperature);
    assert_eq!(d.read_pressure(), (ReturnCode::EBUSY, idle_effects()));
    // the temperature joins the reading under way
    assert_eq!(d.read_temperature(), (ReturnCode::SUCCESS, idle_effects()));
    assert_eq!(d.read_temperature(), (ReturnCode::EBUSY, idle_effects()));
    // 519888 << 4
    let effects = d.command_complete(vec![0x7E, 0xED, 0x00, 0], Error::CommandComplete);
    assert_eq!(effects.temperature, Some((1, 2508)));
    assert_eq!(
        effects.transfer,
        Some(I2cTransfer::WriteRead {
            buffer: vec![0xF7, 0xED, 0x00, 0],
            write_len: 1,
            read_len: 3
        })
    );
    assert_eq!(d.t_fine(), 128422);
    assert_eq!(d.state(), BmpState::ReadPressure);
    // 415148 << 4
    let effects = d.command_complete(vec![0x65, 0x5A, 0xC0, 0], Error::CommandComplete);
    assert_eq!(effects.pressure, Some((2, (-219700isize) as usize)));
    assert_eq!(effects.transfer, None);
    assert_eq!(d.state(), BmpState::Idle);
    // a temperature alone
    let (code, effects) = d.read_temperature();
    assert_eq!(code, ReturnCode::SUCCESS);
    assert!(effects.transfer.is_some());
    let effects = d.command_complete(vec![0x7E, 0xED, 0x00, 0], Error::CommandComplete);
    assert_eq!(effects, BmpEffects { temperature: Some((1, 2508)), ..idle_effects() });
    assert_eq!(d.state(), BmpState::Idle);
}

#[test]
fn bmp280_failure_is_told_to_those_who_wait() {
    let mut d = BMP280::new(vec![0; 4]);
    d.set_client(1);
    d.set_pressure_client(2);
    d.read_temperature();
    d.read_pressure();
    let effects = d.command_complete(vec![0; 4], Error::DataNak);
    assert_eq!(
        effects,
        BmpEffects {
            disable: true,
            transfer: None,
            temperature: Some((1, FAILED)),
            pressure: Some((2, FAILED)),
        }
    );
    // nobody waits any more
    let effects = d.command_complete(vec![0; 4], Error::DataNak);
    assert_eq!(effects, BmpEffects { disable: true, ..idle_effects() });
    // a pressure that the formula cannot give
    let mut d = BMP280::new(vec![0; 4]);
    d.set_pressure_client(2);
    d.read_pressure();
    d.command_complete(vec![0; 4], Error::CommandComplete);
    let effects = d.command_complete(vec![0; 4], Error::CommandComplete);
    assert_eq!(effects.pressure, Some((2, FAILED)));
}

#[test]
fn constructors_take_any_buffer() {
    let bmp = BMP280::new(vec![0; 3]);
    assert_eq!(bmp.state(), BmpState::Idle);
    assert_eq!(bmp.t_fine(), 0);
    assert_eq!(bmp.calibration().dig_t1, 0);
    assert_eq!(bmp.calibration().dig_p9, 0);
    assert!(!bmp.is_well_formed());
    assert!(BMP280::new(vec![0; 4]).is_well_formed());
    let lsm = Lsm303dlhc::new(vec![]);
    assert_eq!(lsm.state(), State::Idle);
    assert!(!lsm.is_well_formed());
    assert!(!Lsm303dlhc::new(vec![0; 5]).is_well_formed());
    assert!(Lsm303dlhc::new(vec![0; 6]).is_well_formed());
    let (touch, interrupts) = Ft6x06::new(vec![], vec![blank()]);
    assert_eq!(touch.state(), TouchState::Idle);
    assert_eq!(interrupts, Interrupts::EnableFallingEdge);
    assert_eq!(touch.get_num_touches(), 2);
    assert!(!touch.is_well_formed());
    assert!(Ft6x06::new(vec![], vec![blank(), blank()]).0.is_well_formed());
}

#[test]
fn drivers_stay_well_formed_while_they_work() {
    let mut bmp = BMP280::new(vec![0; 4]);
    bmp.read_temperature();
    // the buffer is out
    assert!(bmp.is_well_formed());
    bmp.command_complete(vec![0; 4], Error::CommandComplete);
    assert!(bmp.is_well_formed());
    let mut lsm = Lsm303dlhc::new(vec![0; 6]);
    lsm.read_acceleration_xyz();
    assert!(lsm.is_well_formed());
    lsm.command_complete(vec![0; 6], Error::CommandComplete);
    assert!(lsm.is_well_formed());
}
