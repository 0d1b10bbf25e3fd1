use tockmux::chips::dcdc::{Dcdc, DcdcRegisters};
use tockmux::chips::flash::{Flash, FlashRegisters, FlashState, Psize, KEY1, KEY2, OPTKEY1, OPTKEY2};
use tockmux::chips::i2c::{I2CStatus, I2C};
use tockmux::chips::pwm::{PinSetup, TimPwmPin};
use tockmux::chips::registers::Field;
use tockmux::chips::tim1::{Tim1, Tim1Registers};
use tockmux::chips::tim4::Tim4;
use tockmux::returncode::ReturnCode;

#[test]
fn fields_read_and_modify() {
    let f = Field::new(8, 2);
    assert_eq!(f.mask(), 3);
    assert_eq!(f.read(0x0000_0200), 2);
    assert_eq!(f.modify(0xFFFF_FFFF, 0), 0xFFFF_FCFF);
    assert_eq!(f.modify(0, 7), 0x0000_0300);
    assert_eq!(f.val(5), 0x0000_0100);
    assert_eq!(f.set(0), 0x0000_0300);
    assert_eq!(f.clear(0xFFFF_FFFF), 0xFFFF_FCFF);
    assert!(f.is_set(0x100));
    assert!(!f.is_set(0x400));
    let whole = Field::new(0, 32);
    assert_eq!(whole.mask(), 0xFFFF_FFFF);
    assert_eq!(whole.modify(5, 0x1234_5678), 0x1234_5678);
    let top = Field::new(31, 1);
    assert_eq!(top.modify(0, 1), 0x8000_0000);
    assert_eq!(top.read(0x8000_0000), 1);
}

#[test]
fn flash_registers() {
    let mut flash = Flash::new();
    assert_eq!(flash.registers(), FlashRegisters { acr: 0, kr: 0, okr: 0, sr: 0, cr: 0, ocr: 0 });
    flash.enable();
    assert_eq!(flash.registers().cr, 0x0300_0000);
    assert!(!flash.is_locked());
    flash.lock();
    assert!(flash.is_locked());
    assert_eq!(flash.registers().cr, 0x8300_0000);
    assert_eq!(flash.unlock(), (KEY1, KEY2));
    assert_eq!(flash.registers().kr, 0xCDEF89AB);
    assert!(!flash.is_locked_option());
    flash.lock_option();
    assert!(flash.is_locked_option());
    assert_eq!(flash.registers().ocr, 2);
    assert_eq!(flash.unlock_option(), (OPTKEY1, OPTKEY2));
    assert_eq!(flash.registers().okr, 0x4C5D6E7F);
    assert_eq!(flash.get_parallelism(), Some(Psize::Byte));
    flash.set_parallelism(Psize::DoubleWord);
    assert_eq!(flash.registers().cr, 0x8300_0300);
    assert_eq!(flash.get_parallelism(), Some(Psize::DoubleWord));
    flash.set_parallelism(Psize::HalfWord);
    assert_eq!(flash.get_parallelism(), Some(Psize::HalfWord));
    flash.set_parallelism(Psize::Word);
    assert_eq!(flash.get_parallelism(), Some(Psize::Word));
    flash.enable_instruction_cache();
    flash.enable_data_cache();
    flash.enable_prefetch();
    flash.set_latency(0x17);
    assert_eq!(flash.registers().acr, 0x0000_0707);
    flash.load(FlashRegisters { acr: 1, kr: 2, okr: 3, sr: 4, cr: 5, ocr: 6 });
    assert_eq!(flash.registers().sr, 4);
    assert_ne!(FlashState::Ready, FlashState::WriteOption);
}

#[test]
fn dcdc_target_voltage() {
    let mut dcdc = Dcdc::new();
    dcdc.load(DcdcRegisters { reg0: 0, reg1: 0, reg2: 0, reg3: 0xFFFF_FFFF });
    // (1250 - 800) / 25 = 18
    dcdc.modify_vdd_soc(1250);
    assert_eq!(dcdc.registers().reg3, 0xFFFF_FFF2);
    dcdc.modify_vdd_soc(800);
    assert_eq!(dcdc.registers().reg3, 0xFFFF_FFE0);
    assert!(!dcdc.is_output_ok());
    dcdc.load(DcdcRegisters { reg0: 0x8000_0000, reg1: 0, reg2: 0, reg3: 0 });
    assert!(dcdc.is_output_ok());
}

#[test]
fn tim1_starts() {
    let mut tim = Tim1::new();
    assert!(!tim.is_enabled_clock());
    tim.enable_clock();
    assert!(tim.is_enabled_clock());
    tim.start();
    assert_eq!(tim.registers(), Tim1Registers { cr1: 1, egr: 1, psc: 498, arr: 0xFFFF_FFFE });
    tim.disable_clock();
    assert!(!tim.is_enabled_clock());
    tim.handle_interrupt();
}

#[test]
fn tim4_generates_pwm() {
    let mut tim = Tim4::new();
    assert_eq!(tim.start_pwm(1, 1000, 4_000_000), ReturnCode::SUCCESS);
    assert!(tim.is_enabled_clock());
    let r = tim.registers();
    // 8000 ticks a period, compare at 8000 - 4000
    assert_eq!(r.arr, 7999);
    assert_eq!(r.ccr1, 4000);
    assert_eq!(r.ccmr1_output, 0x0000_00E8);
    assert_eq!(r.ccer, 0x0001);
    assert_eq!(r.cr1, 1);
    assert_eq!(r.egr, 1);
    assert_eq!(tim.start_pwm(2, 1000, 0), ReturnCode::SUCCESS);
    assert_eq!(tim.registers().ccr2, 8000);
    assert_eq!(tim.registers().ccmr1_output, 0x0000_E8E8);
    assert_eq!(tim.registers().ccer, 0x0011);
    assert_eq!(tim.start(&TimPwmPin { channel: 3 }, 2000, 2000), ReturnCode::SUCCESS);
    assert_eq!(tim.registers().arr, 3999);
    assert_eq!(tim.registers().ccr3, 3999);
    assert_eq!(tim.registers().ccmr2_output, 0x0000_00E8);
    assert_eq!(tim.start_pwm(4, 2000, 2000), ReturnCode::SUCCESS);
    assert_eq!(tim.registers().ccmr2_output, 0x0000_E8E8);
    assert_eq!(tim.registers().ccer, 0x1111);
    assert_eq!(tim.stop_pwm(4), ReturnCode::SUCCESS);
    assert_eq!(tim.stop(&TimPwmPin { channel: 1 }), ReturnCode::SUCCESS);
    assert_eq!(tim.get_maximum_frequency_hz(), 8_000_000);
    assert_eq!(tim.get_maximum_duty_cycle(), 8_000_000);
    tim.disable_clock();
    assert!(!tim.is_enabled_clock());
}

#[test]
fn tim4_refusals() {
    let mut tim = Tim4::new();
    let before = tim.registers();
    assert_eq!(tim.start_pwm(1, 0, 0), ReturnCode::EINVAL);
    // 8000000 / 122 = 65573; 8000000 / 61 = 131147; a period of 65536 ticks
    // does not exist, one of more than 8000000 / frequency neither
    assert_eq!(tim.start_pwm(1, 8_000_001, 0), ReturnCode::EINVAL);
    assert_eq!(tim.start_pwm(1, 1000, 8_001_000), ReturnCode::EINVAL);
    assert_eq!(tim.registers(), before);
    assert!(!tim.is_enabled_clock());
    // a channel that does not exist: the timer is set up and started all the
    // same
    assert_eq!(tim.start_pwm(5, 1000, 0), ReturnCode::ENOSUPPORT);
    assert_eq!(tim.registers().arr, 7999);
    assert_eq!(tim.registers().cr1, 1);
    assert_eq!(tim.registers().ccer, 0);
    assert!(tim.is_enabled_clock());
    assert_eq!(tim.start_pwm(0, 1000, 0), ReturnCode::ENOSUPPORT);
}

#[test]
fn pwm_pin_setup() {
    let (pin, setup) = TimPwmPin::new(3);
    assert_eq!(pin, TimPwmPin { channel: 3 });
    assert_eq!(setup, PinSetup { output: true, alternate_function: 2, high_speed: true });
}

#[test]
fn i2c_controller_write() {
    let mut i2c = I2C::new();
    assert_eq!(i2c.status(), I2CStatus::Idle);
    i2c.enable_clock();
    assert!(i2c.is_enabled_clock());
    i2c.disable_clock();
    assert!(!i2c.is_enabled_clock());
    i2c.set_client(1);
    i2c.enable();
    assert_eq!(i2c.registers().cr1, 1);
    assert_eq!(i2c.write(0x3C, vec![1, 2, 3], 3), None);
    assert_eq!(i2c.status(), I2CStatus::WritingOnly);
    assert_eq!(i2c.registers().cr2, 0x0003_003C);
    assert_eq!(i2c.registers().isr, 1);
    // busy: the buffer comes back and nothing changes
    assert_eq!(i2c.write(0x11, vec![9], 1), Some(vec![9]));
    assert_eq!(i2c.registers().cr2, 0x0003_003C);
    assert_eq!(i2c.read(1, vec![5], 1), vec![5]);
    assert_eq!(i2c.write_read(1, vec![6], 1, 1), vec![6]);
    assert_eq!(i2c.read_write_bytes(4), ReturnCode::SUCCESS);
    i2c.disable();
    assert_eq!(i2c.registers().cr1, 0);
    i2c.handle_event();
    i2c.handle_error();
    i2c.handle_interrupt();
}

#[test]
fn timers_and_controller_take_registers() {
    let mut tim1 = Tim1::new();
    tim1.enable_clock();
    tim1.load(Tim1Registers { cr1: 0x80, egr: 0, psc: 7, arr: 9 });
    assert!(tim1.is_enabled_clock());
    tim1.start();
    assert_eq!(tim1.registers(), Tim1Registers { cr1: 0x81, egr: 1, psc: 498, arr: 0xFFFF_FFFE });
    let mut tim4 = Tim4::new();
    let mut held = tim4.registers();
    held.ccer = 0x1000;
    held.arr = 0xFFFF_0000;
    tim4.load(held);
    assert_eq!(tim4.start_pwm(1, 1000, 0), ReturnCode::SUCCESS);
    assert_eq!(tim4.registers().ccer, 0x1001);
    assert_eq!(tim4.registers().arr, 0xFFFF_0000 | 7999);
    let mut i2c = I2C::new();
    let mut held = i2c.registers();
    held.cr1 = 0x10;
    i2c.load(held);
    i2c.enable();
    assert_eq!(i2c.registers().cr1, 0x11);
    assert_eq!(i2c.status(), I2CStatus::Idle);
}
