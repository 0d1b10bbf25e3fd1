use tockmux::capsules::memory_async::{bus_width_in_bytes, insert_address, SpiMemory};
use tockmux::hil::memory_async::{BusWidth, Memory, MemoryCompletion};
use tockmux::hil::spi::SpiTransfer;
use tockmux::returncode::ReturnCode;

#[test]
fn memory_widths_in_bytes() {
    assert_eq!(bus_width_in_bytes(BusWidth::Bits8), 1);
    assert_eq!(bus_width_in_bytes(BusWidth::Bits16), 2);
    assert_eq!(bus_width_in_bytes(BusWidth::Bits32), 4);
    assert_eq!(bus_width_in_bytes(BusWidth::Bits64), 8);
}

#[test]
fn insert_address_moves_the_data_up() {
    let mut buffer = vec![1, 2, 3, 4, 5];
    insert_address(&mut buffer, 0x1A0, 3);
    assert_eq!(buffer, vec![0xA0, 1, 2, 3, 5]);
    let mut buffer = vec![1, 2];
    insert_address(&mut buffer, 7, 0);
    assert_eq!(buffer, vec![7, 2]);
}

#[test]
fn memory_write_addr() {
    let mut memory = SpiMemory::new();
    let transfer = memory
        .write_addr(BusWidth::Bits8, 0x2C, BusWidth::Bits8, vec![1, 2, 3, 4], 3)
        .unwrap();
    assert_eq!(
        transfer,
        SpiTransfer { write_buffer: vec![0x2C, 1, 2, 3], read_buffer: None, len: 3 }
    );
    assert_eq!(
        memory.write_addr(BusWidth::Bits8, 1, BusWidth::Bits8, vec![1, 2, 3], 3),
        Err((ReturnCode::ENOMEM, vec![1, 2, 3]))
    );
    assert_eq!(
        memory.write_addr(BusWidth::Bits16, 1, BusWidth::Bits8, vec![1, 2, 3], 1),
        Err((ReturnCode::ENOSUPPORT, vec![1, 2, 3]))
    );
    assert_eq!(
        memory.write_addr(BusWidth::Bits8, 1, BusWidth::Bits32, vec![1, 2, 3], 1),
        Err((ReturnCode::ENOSUPPORT, vec![1, 2, 3]))
    );
}

#[test]
fn memory_write() {
    let mut memory = SpiMemory::new();
    assert_eq!(
        memory.write(BusWidth::Bits8, vec![1, 2], 2),
        Ok(SpiTransfer { write_buffer: vec![1, 2], read_buffer: None, len: 2 })
    );
    assert_eq!(memory.write(BusWidth::Bits8, vec![1, 2], 3), Err((ReturnCode::ENOMEM, vec![1, 2])));
    assert_eq!(
        memory.write(BusWidth::Bits64, vec![1, 2], 1),
        Err((ReturnCode::ENOSUPPORT, vec![1, 2]))
    );
}

#[test]
fn memory_read_and_completion() {
    let mut memory = SpiMemory::new();
    memory.set_client(5);
    assert_eq!(memory.read(BusWidth::Bits8, vec![0; 4], 2), Err((ReturnCode::ENOMEM, vec![0; 4])));
    assert_eq!(memory.set_read_write_buffer(vec![0xEE; 3]), None);
    assert_eq!(memory.read(BusWidth::Bits8, vec![0; 2], 2), Err((ReturnCode::ENOMEM, vec![0; 2])));
    assert_eq!(memory.read(BusWidth::Bits8, vec![0; 9], 4), Err((ReturnCode::ENOMEM, vec![0; 9])));
    assert_eq!(
        memory.read(BusWidth::Bits16, vec![0; 9], 1),
        Err((ReturnCode::ENOSUPPORT, vec![0; 9]))
    );
    let transfer = memory.read(BusWidth::Bits8, vec![0; 4], 3).unwrap();
    assert_eq!(
        transfer,
        SpiTransfer { write_buffer: vec![0xEE; 3], read_buffer: Some(vec![0; 4]), len: 3 }
    );
    let done = memory.read_write_done(transfer.write_buffer, Some(vec![1, 2, 3, 0]), 3);
    assert_eq!(done, MemoryCompletion { client: Some(5), buffer: vec![1, 2, 3, 0], len: 3 });
    // the filler is back
    assert_eq!(memory.set_read_write_buffer(vec![]), Some(vec![0xEE; 3]));
    let done = memory.read_write_done(vec![4, 5], None, 2);
    assert_eq!(done, MemoryCompletion { client: Some(5), buffer: vec![4, 5], len: 2 });
}

#[test]
fn memory_read_addr() {
    let mut memory = SpiMemory::new();
    assert_eq!(
        memory.read_addr(BusWidth::Bits8, 1, BusWidth::Bits8, vec![0; 4], 2),
        Err((ReturnCode::ENOMEM, vec![0; 4]))
    );
    memory.set_read_write_buffer(vec![0; 3]);
    assert_eq!(
        memory.read_addr(BusWidth::Bits8, 1, BusWidth::Bits8, vec![0; 4], 3),
        Err((ReturnCode::ENOMEM, vec![0; 4]))
    );
    assert_eq!(
        memory.read_addr(BusWidth::Bits32, 1, BusWidth::Bits8, vec![0; 4], 2),
        Err((ReturnCode::ENOSUPPORT, vec![0; 4]))
    );
    assert_eq!(
        memory.read_addr(BusWidth::Bits8, 1, BusWidth::Bits16, vec![0; 4], 2),
        Err((ReturnCode::ENOSUPPORT, vec![0; 4]))
    );
    assert_eq!(
        memory.read_addr(BusWidth::Bits8, 0x9F, BusWidth::Bits8, vec![0; 4], 2),
        Ok(SpiTransfer { write_buffer: vec![0x9F, 0, 0], read_buffer: Some(vec![0; 4]), len: 2 })
    );
}
