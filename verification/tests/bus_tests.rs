use tockmux::capsules::bus::{BusStatus, I2CMasterBus, SpiMasterBus};
use tockmux::hil::bus::{byte_count, Bus, BusWidth, Completion};
use tockmux::hil::i2c::{Error, I2cTransfer};
use tockmux::hil::spi::{ClockPhase, ClockPolarity, SpiConfiguration, SpiTransfer};
use tockmux::returncode::ReturnCode;

#[test]
fn widths_in_bytes() {
    assert_eq!(BusWidth::Bits8.width_in_bytes(), 1);
    assert_eq!(BusWidth::Bits16LE.width_in_bytes(), 2);
    assert_eq!(BusWidth::Bits16BE.width_in_bytes(), 2);
    assert_eq!(BusWidth::Bits32LE.width_in_bytes(), 4);
    assert_eq!(BusWidth::Bits32BE.width_in_bytes(), 4);
    assert_eq!(BusWidth::Bits64LE.width_in_bytes(), 8);
    assert_eq!(BusWidth::Bits64BE.width_in_bytes(), 8);
}

#[test]
fn byte_count_checks_capacity() {
    assert_eq!(byte_count(3, 2, 6), Some(6));
    assert_eq!(byte_count(3, 2, 5), None);
    assert_eq!(byte_count(0, 4, 0), Some(0));
    assert_eq!(byte_count(usize::MAX, 4, 100), None);
    assert_eq!(byte_count(3, 8, 24), Some(24));
    assert_eq!(byte_count(3, 8, 23), None);
    assert_eq!(byte_count(usize::MAX / 8 + 1, 8, usize::MAX), None);
}

#[test]
fn i2c_transaction_walks_the_state_machine() {
    let mut bus = I2CMasterBus::new(vec![0]);
    bus.set_client(7);
    assert_eq!(bus.status(), BusStatus::Idle);

    let (code, transfer) = bus.set_addr(BusWidth::Bits8, 0x51);
    assert_eq!(code, ReturnCode::SUCCESS);
    assert_eq!(transfer, Some(I2cTransfer::Write { buffer: vec![0x51], len: 1 }));
    assert_eq!(bus.status(), BusStatus::SetAddress);
    let done = bus.command_complete(transfer.unwrap().into_buffer(), Error::CommandComplete);
    assert_eq!(done, Completion { client: Some(7), buffer: None, len: 0 });
    assert_eq!(bus.status(), BusStatus::Idle);

    let transfer = bus.write(BusWidth::Bits16LE, vec![1, 2, 3, 4, 5], 2).unwrap();
    assert_eq!(transfer, I2cTransfer::Write { buffer: vec![1, 2, 3, 4, 5], len: 4 });
    assert_eq!(bus.status(), BusStatus::Write);
    let done = bus.command_complete(transfer.into_buffer(), Error::CommandComplete);
    assert_eq!(done, Completion { client: Some(7), buffer: Some(vec![1, 2, 3, 4, 5]), len: 2 });
    assert_eq!(bus.status(), BusStatus::Idle);

    let transfer = bus.read(BusWidth::Bits8, vec![0; 15], 15).unwrap();
    assert_eq!(transfer, I2cTransfer::Read { buffer: vec![0; 15], len: 15 });
    assert_eq!(bus.status(), BusStatus::Read);
    let done = bus.command_complete(vec![9; 15], Error::CommandComplete);
    assert_eq!(done, Completion { client: Some(7), buffer: Some(vec![9; 15]), len: 15 });
    assert_eq!(bus.status(), BusStatus::Idle);

    // the address buffer is back: a second transaction can start
    let (code, _) = bus.set_addr(BusWidth::Bits8, 0x1FF);
    assert_eq!(code, ReturnCode::SUCCESS);
}

#[test]
fn i2c_failure_reports_no_items() {
    let mut bus = I2CMasterBus::new(vec![0]);
    let transfer = bus.write(BusWidth::Bits8, vec![1, 2, 3], 3).unwrap();
    let done = bus.command_complete(transfer.into_buffer(), Error::DataNak);
    assert_eq!(done, Completion { client: None, buffer: Some(vec![1, 2, 3]), len: 0 });
    assert_eq!(bus.status(), BusStatus::Idle);
}

#[test]
fn i2c_set_addr_takes_the_low_byte() {
    let mut bus = I2CMasterBus::new(vec![0, 0xAA]);
    let (_, transfer) = bus.set_addr(BusWidth::Bits8, 0x1234);
    assert_eq!(transfer, Some(I2cTransfer::Write { buffer: vec![0x34, 0xAA], len: 1 }));
}

#[test]
fn set_addr_refuses_wide_addresses() {
    let mut i2c = I2CMasterBus::new(vec![0]);
    let mut spi = SpiMasterBus::new(vec![0]);
    for width in [
        BusWidth::Bits16LE,
        BusWidth::Bits16BE,
        BusWidth::Bits32LE,
        BusWidth::Bits32BE,
        BusWidth::Bits64LE,
        BusWidth::Bits64BE,
    ] {
        assert_eq!(i2c.set_addr(width, 1), (ReturnCode::ENOSUPPORT, None));
        assert_eq!(spi.set_addr(width, 1), (ReturnCode::ENOSUPPORT, None));
        assert_eq!(i2c.status(), BusStatus::Idle);
        assert_eq!(spi.status(), BusStatus::Idle);
    }
}

#[test]
fn set_addr_without_room_for_the_address() {
    let mut i2c = I2CMasterBus::new(vec![]);
    assert_eq!(i2c.set_addr(BusWidth::Bits8, 1), (ReturnCode::ENOMEM, None));
    assert_eq!(i2c.status(), BusStatus::Idle);
    let mut spi = SpiMasterBus::new(vec![]);
    assert_eq!(spi.set_addr(BusWidth::Bits8, 1), (ReturnCode::ENOMEM, None));
    assert_eq!(spi.status(), BusStatus::Idle);
}

#[test]
fn write_hands_a_short_buffer_back() {
    let mut i2c = I2CMasterBus::new(vec![0]);
    assert_eq!(
        i2c.write(BusWidth::Bits16BE, vec![1, 2, 3], 2),
        Err((ReturnCode::ENOMEM, vec![1, 2, 3]))
    );
    assert_eq!(i2c.status(), BusStatus::Idle);
    let mut spi = SpiMasterBus::new(vec![0]);
    assert_eq!(
        spi.write(BusWidth::Bits64LE, vec![1, 2, 3], 1),
        Err((ReturnCode::ENOMEM, vec![1, 2, 3]))
    );
    assert_eq!(spi.status(), BusStatus::Idle);
}

#[test]
fn i2c_write_is_limited_to_254_bytes() {
    let mut bus = I2CMasterBus::new(vec![0]);
    assert_eq!(
        bus.write(BusWidth::Bits8, vec![0; 300], 255),
        Err((ReturnCode::ENOMEM, vec![0; 300]))
    );
    let transfer = bus.write(BusWidth::Bits8, vec![0; 300], 254).unwrap();
    assert_eq!(transfer, I2cTransfer::Write { buffer: vec![0; 300], len: 254 });
}

#[test]
fn i2c_read_is_limited_to_254_bytes() {
    let mut bus = I2CMasterBus::new(vec![0]);
    // 300 one-byte items do not fit the device's length
    assert_eq!(
        bus.read(BusWidth::Bits8, vec![0; 300], 300),
        Err((ReturnCode::ENOMEM, vec![0; 300]))
    );
    assert_eq!(
        bus.read(BusWidth::Bits16LE, vec![0; 600], 130),
        Err((ReturnCode::ENOMEM, vec![0; 600]))
    );
    assert_eq!(
        bus.read(BusWidth::Bits8, vec![0; 300], 255),
        Err((ReturnCode::ENOMEM, vec![0; 300]))
    );
    assert_eq!(bus.read(BusWidth::Bits8, vec![0; 3], 4), Err((ReturnCode::ENOMEM, vec![0; 3])));
    assert_eq!(bus.status(), BusStatus::Idle);
    let transfer = bus.read(BusWidth::Bits16LE, vec![0; 600], 127).unwrap();
    assert_eq!(transfer, I2cTransfer::Read { buffer: vec![0; 600], len: 254 });
    assert_eq!(bus.status(), BusStatus::Read);
    let done = bus.command_complete(transfer.into_buffer(), Error::CommandComplete);
    assert_eq!(done.len, 127);
    let transfer = bus.read(BusWidth::Bits64BE, vec![0; 64], 8).unwrap();
    assert_eq!(transfer, I2cTransfer::Read { buffer: vec![0; 64], len: 64 });
}

#[test]
fn spi_set_addr_echoed_at_once() {
    let mut bus = SpiMasterBus::new(vec![0]);
    bus.set_client(3);
    let (code, transfer) = bus.set_addr(BusWidth::Bits8, 0x2A);
    assert_eq!(code, ReturnCode::SUCCESS);
    let transfer = transfer.unwrap();
    assert_eq!(transfer, SpiTransfer { write_buffer: vec![0x2A], read_buffer: None, len: 1 });
    assert_eq!(bus.status(), BusStatus::SetAddress);
    // the device echoes at once
    let done = bus.read_write_done(transfer.write_buffer, transfer.read_buffer, transfer.len);
    assert_eq!(done, Completion { client: Some(3), buffer: None, len: 0 });
    assert_eq!(bus.status(), BusStatus::Idle);
}

#[test]
fn spi_write_reports_items() {
    let mut bus = SpiMasterBus::new(vec![0]);
    // three items of four bytes do not fit in ten bytes
    assert_eq!(
        bus.write(BusWidth::Bits32LE, vec![7; 10], 3),
        Err((ReturnCode::ENOMEM, vec![7; 10]))
    );
    let transfer = bus.write(BusWidth::Bits32LE, vec![7; 12], 3).unwrap();
    assert_eq!(transfer, SpiTransfer { write_buffer: vec![7; 12], read_buffer: None, len: 12 });
    assert_eq!(bus.status(), BusStatus::Write);
    let done = bus.read_write_done(transfer.write_buffer, None, 12);
    assert_eq!(done, Completion { client: None, buffer: Some(vec![7; 12]), len: 3 });
    assert_eq!(bus.status(), BusStatus::Idle);
    let transfer = bus.write(BusWidth::Bits64BE, vec![7; 16], 2).unwrap();
    assert_eq!(transfer.len, 16);
    let done = bus.read_write_done(transfer.write_buffer, None, 16);
    assert_eq!(done.len, 2);
}

#[test]
fn spi_read_clocks_out_the_filler() {
    let mut bus = SpiMasterBus::new(vec![0]);
    assert_eq!(bus.set_read_write_buffer(vec![0xFF; 8]), None);
    let transfer = bus.read(BusWidth::Bits16BE, vec![0; 6], 3).unwrap();
    assert_eq!(
        transfer,
        SpiTransfer { write_buffer: vec![0xFF; 8], read_buffer: Some(vec![0; 6]), len: 6 }
    );
    assert_eq!(bus.status(), BusStatus::Read);
    let done = bus.read_write_done(transfer.write_buffer, Some(vec![1, 2, 3, 4, 5, 6]), 6);
    assert_eq!(done, Completion { client: None, buffer: Some(vec![1, 2, 3, 4, 5, 6]), len: 3 });
    // the filler is back in the adapter
    assert_eq!(bus.set_read_write_buffer(vec![0; 2]), Some(vec![0xFF; 8]));
}

#[test]
fn spi_read_refusals_keep_the_filler() {
    let mut bus = SpiMasterBus::new(vec![0]);
    bus.set_read_write_buffer(vec![0xFF; 4]);
    // the caller's buffer is too short
    assert_eq!(bus.read(BusWidth::Bits8, vec![0; 2], 3), Err((ReturnCode::ENOMEM, vec![0; 2])));
    // the filler is too short
    assert_eq!(bus.read(BusWidth::Bits8, vec![0; 9], 5), Err((ReturnCode::ENOMEM, vec![0; 9])));
    assert_eq!(bus.status(), BusStatus::Idle);
    assert!(bus.read(BusWidth::Bits8, vec![0; 4], 4).is_ok());
    let mut empty = SpiMasterBus::new(vec![0]);
    empty.set_read_write_buffer(vec![]);
    assert_eq!(empty.read(BusWidth::Bits8, vec![], 0), Err((ReturnCode::ENOMEM, vec![])));
}

#[test]
fn spi_configure_passes_the_settings_on() {
    let bus = SpiMasterBus::new(vec![0]);
    assert_eq!(
        bus.configure(ClockPolarity::IdleHigh, ClockPhase::SampleTrailing, 1_000_000),
        SpiConfiguration {
            cpol: ClockPolarity::IdleHigh,
            cpal: ClockPhase::SampleTrailing,
            rate: 1_000_000
        }
    );
}
