use tockmux::capsules::bmp280::{State as BmpState, BASE_ADDR};
use tockmux::capsules::bus::BusStatus;
use tockmux::capsules::esp_serial::{App as EspApp, Link};
use tockmux::capsules::ft6x06::{Interrupts, State as TouchState};
use tockmux::capsules::ls016b8uy::{SendCommand as LsSendCommand, Status as LsStatus};
use tockmux::capsules::lsm303dlhc::State as LsmState;
use tockmux::capsules::pressure::App as PressureApp;
use tockmux::capsules::pwm::App as PwmApp;
use tockmux::capsules::st7789h2::{SendCommand, Status};
use tockmux::capsules::touch::App as TouchApp;
use tockmux::capsules::virtual_adc::AdcUser;
use tockmux::capsules::virtual_pwm::PwmPinUser;
use tockmux::components::adc::{AdcComponent, AdcMuxComponent};
use tockmux::components::bmp280::BMP280Component;
use tockmux::components::bus::{I2CMasterBusComponent, SpiMasterBusComponent};
use tockmux::components::esp_serial_component::ESPSerialComponent;
use tockmux::components::ft6x06::Ft6x06Component;
use tockmux::components::i2c::{I2CComponent, I2CMuxComponent};
use tockmux::components::ls016b8uy::LS016B8UYComponent;
use tockmux::components::lsm303dlhc::Lsm303dlhcI2CComponent;
use tockmux::components::memory_async::SpiMemoryComponent;
use tockmux::components::pressure::PressureComponent;
use tockmux::components::pwm::{PwmComponent, PwmMuxComponent, PwmVirtualComponent};
use tockmux::components::st7789h2::ST7789H2Component;
use tockmux::components::touch::TouchComponent;
use tockmux::hil::bus::{Bus, BusWidth, Completion};
use tockmux::hil::i2c::Error;
use tockmux::hil::memory_async::MemoryCompletion;
use tockmux::process::AppId;
use tockmux::returncode::ReturnCode;

#[test]
fn adc_components_wire_users_to_the_mux() {
    let mut mux = AdcMuxComponent::new().finalize();
    assert_eq!(AdcComponent::new(3).finalize(&mut mux, 10), 0);
    assert_eq!(AdcComponent::new(5).finalize(&mut mux, 11), 1);
    assert_eq!(mux.user(1), Some(AdcUser { channel: 5, operation: None, client: Some(11) }));
    assert_eq!(mux.inflight(), None);
}

#[test]
fn mux_components() {
    let mut i2c = I2CMuxComponent::new().finalize();
    assert_eq!(I2CComponent::new(0x20).finalize(&mut i2c), 0);
    assert_eq!(I2CComponent::new(0x21).finalize(&mut i2c), 1);
    assert_eq!(i2c.len(), 2);
    assert!(i2c.is_free(1));
    let mut pwm = PwmMuxComponent::new().finalize();
    assert_eq!(PwmComponent::new(4).finalize(&mut pwm), 0);
    assert_eq!(pwm.user(0), Some(PwmPinUser { pin: 4, operation: None }));
}

#[test]
fn bus_components_register_the_client() {
    let mut spi = SpiMasterBusComponent::new().finalize(vec![0; 8], 4);
    assert_eq!(spi.status(), BusStatus::Idle);
    let (_, transfer) = spi.set_addr(BusWidth::Bits8, 1);
    let done = spi.read_write_done(transfer.unwrap().write_buffer, None, 1);
    assert_eq!(done, Completion { client: Some(4), buffer: None, len: 0 });
    let (mut i2c, address) = I2CMasterBusComponent::new(0x38).finalize(6);
    assert_eq!(address, 0x38);
    let (code, transfer) = i2c.set_addr(BusWidth::Bits8, 2);
    assert_eq!(code, ReturnCode::SUCCESS);
    let done = i2c.command_complete(transfer.unwrap().into_buffer(), Error::CommandComplete);
    assert_eq!(done.client, Some(6));
    let mut memory = SpiMemoryComponent::new().finalize(8);
    assert_eq!(
        memory.read_write_done(vec![1], None, 1),
        MemoryCompletion { client: Some(8), buffer: vec![1], len: 1 }
    );
}

#[test]
fn sensor_components() {
    let (bmp, address) = BMP280Component::new().finalize();
    assert_eq!(address, BASE_ADDR);
    assert_eq!(address, 0x77);
    assert_eq!(bmp.state(), BmpState::Idle);
    let lsm = Lsm303dlhcI2CComponent::new(0x19, 0x1E).finalize();
    assert_eq!(lsm.state(), LsmState::Idle);
    let (touch, interrupts) = Ft6x06Component::new().finalize();
    assert_eq!(touch.state(), TouchState::Idle);
    assert_eq!(interrupts, Interrupts::EnableFallingEdge);
}

#[test]
fn screen_components() {
    let st = ST7789H2Component::new().finalize();
    assert_eq!(st.status(), Status::Idle);
    assert!(!st.is_powered_on());
    assert_eq!(st.sequence_entry(23), Some(SendCommand::Nop));
    assert_eq!(st.sequence_entry(24), None);
    assert!(st.check_sequence(&[SendCommand::Position(tockmux::capsules::st7789h2::nop(), 20, 4)]));
    assert!(!st.check_sequence(&[SendCommand::Position(tockmux::capsules::st7789h2::nop(), 21, 4)]));
    let ls = LS016B8UYComponent::new().finalize();
    assert_eq!(ls.status(), LsStatus::Idle);
    assert_eq!(ls.sequence_entry(23), Some(LsSendCommand::Nop));
    assert_eq!(ls.sequence_entry(24), None);
}

#[test]
fn driver_components() {
    let pressure = PressureComponent::new().finalize(vec![PressureApp::new(); 2]);
    assert!(!pressure.is_busy());
    assert_eq!(pressure.app(AppId::new(1)), Some(PressureApp::new()));
    let pwm = PwmVirtualComponent::new(3).finalize(vec![PwmApp::new(); 2]);
    assert_eq!(pwm.current_app(), None);
    assert_eq!(pwm.app(AppId::new(2)), None);
    let mut touch = TouchComponent::new().finalize(vec![TouchApp::new(); 2]);
    assert_eq!(touch.subscribe(0, None, AppId::new(1)), ReturnCode::SUCCESS);
    let (esp, first) = ESPSerialComponent::new().finalize(vec![EspApp::new(), EspApp::new()]);
    assert_eq!(first.buffer, vec![0; 128]);
    assert_eq!(first.len, 1);
    assert_eq!(esp.links, (0..5).map(Link::new).collect::<Vec<_>>());
    assert_eq!(esp.tx_buffer, Some(vec![0; 128]));
    assert_eq!(esp.rx_buffer_helper.len(), 128);
    assert_eq!(esp.apps.len(), 2);
}
