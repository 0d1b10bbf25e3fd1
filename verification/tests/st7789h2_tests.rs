use tockmux::capsules::st7789h2::{
    caset, color_mode, display_off, display_on, init_sequence, nop, pv_gamma_ctrl, raset,
    sleep_in, sw_reset, write_pixel_sequence, write_ram, Command, SendCommand, Status, ST7789H2,
};
use tockmux::hil::memory_async::{BusWidth, MemoryRequest};
use tockmux::hil::screen::{
    Effects, Notification, ResetLine, ScreenPixelFormat, ScreenRotation,
};
use tockmux::process::{AppId, Callback, Upcall};
use tockmux::returncode::ReturnCode;

fn driver(buffer_len: usize, sequence_len: usize) -> ST7789H2 {
    ST7789H2::new(vec![0; buffer_len], vec![SendCommand::Nop; sequence_len])
}

fn none() -> Effects {
    Effects::none()
}

fn memory(effects: Effects) -> MemoryRequest {
    effects.memory.expect("a transfer")
}

fn buffer_of(request: MemoryRequest) -> Vec<u8> {
    match request {
        MemoryRequest::WriteAddr { buffer, .. } => buffer,
        MemoryRequest::Write { buffer, .. } => buffer,
    }
}

/// Answers every transfer and every alarm until the driver asks for nothing
/// more; returns what was sent: (address?, bytes) for each transfer, the
/// alarms, and the last effects.
fn run(
    driver: &mut ST7789H2,
    first: Effects,
) -> (Vec<(Option<usize>, Vec<u8>)>, Vec<u32>, Effects) {
    let mut sent = Vec::new();
    let mut alarms = Vec::new();
    let mut effects = first;
    for _ in 0..100000 {
        if let Some(ms) = effects.alarm_ms {
            alarms.push(ms);
        }
        let pending_alarm = effects.alarm_ms.is_some();
        match effects.memory {
            Some(MemoryRequest::WriteAddr { addr, buffer, len }) => {
                sent.push((Some(addr), buffer[..len].to_vec()));
                assert!(driver.expects_completion(&buffer));
                effects = driver.command_complete(buffer, len);
            }
            Some(MemoryRequest::Write { data_width, buffer, len }) => {
                let bytes = match data_width {
                    BusWidth::Bits8 => len,
                    _ => len * 2,
                };
                sent.push((None, buffer[..bytes.min(buffer.len())].to_vec()));
                assert!(driver.expects_completion(&buffer));
                effects = driver.command_complete(buffer, len);
            }
            None => {
                if pending_alarm {
                    assert!(driver.expects_alarm());
                    effects = driver.fired();
                } else {
                    return (sent, alarms, effects);
                }
            }
        }
    }
    panic!("the driver does not come to rest");
}

fn powered(buffer_len: usize, sequence_len: usize) -> ST7789H2 {
    let mut d = driver(buffer_len, sequence_len);
    d.set_client(Some(1));
    let (code, effects) = d.init();
    assert_eq!(code, ReturnCode::SUCCESS);
    let (_, _, last) = run(&mut d, effects);
    assert_eq!(last.notification, Some(Notification::ScreenIsReady { client: 1 }));
    assert!(d.is_powered_on());
    assert_eq!(d.status(), Status::Idle);
    d
}

#[test]
fn commands_have_their_opcodes() {
    assert_eq!(nop(), Command { id: 0x00, parameters: None, delay: 0 });
    assert_eq!(sw_reset(), Command { id: 0x01, parameters: None, delay: 200 });
    assert_eq!(caset().id, 0x2A);
    assert_eq!(caset().parameters, Some(&[0x00, 0x00, 0x00, 0xEF][..]));
    assert_eq!(raset().id, 0x2B);
    assert_eq!(write_ram().id, 0x2C);
    assert_eq!(color_mode().parameters, Some(&[0x05][..]));
    assert_eq!(pv_gamma_ctrl().parameters_len(), 14);
    assert_eq!(sleep_in().delay_ms(), 10);
    assert_eq!(Command { id: 1, parameters: None, delay: 255 }.delay_ms(), 500);
    assert_eq!(Command { id: 1, parameters: None, delay: 254 }.delay_ms(), 254);
}

#[test]
fn sequences_have_their_entries() {
    let init = init_sequence();
    assert_eq!(init.len(), 21);
    assert_eq!(init[0], SendCommand::Default(sleep_in()));
    assert_eq!(init[1], SendCommand::Default(sw_reset()));
    assert_eq!(init[18], SendCommand::Default(display_on()));
    assert_eq!(
        write_pixel_sequence(),
        vec![
            SendCommand::Position(caset(), 1, 4),
            SendCommand::Position(raset(), 5, 4),
            SendCommand::Position(write_ram(), 9, 2),
        ]
    );
}

#[test]
fn entries_fit_or_not() {
    assert!(SendCommand::Nop.check_fits(0, false));
    assert!(SendCommand::Default(caset()).check_fits(4, false));
    assert!(!SendCommand::Default(caset()).check_fits(3, false));
    assert!(SendCommand::Position(nop(), 5, 4).check_fits(9, false));
    assert!(!SendCommand::Position(nop(), 5, 4).check_fits(8, false));
    assert!(!SendCommand::Repeat(nop(), usize::MAX, 2, 1).check_fits(24, false));
    assert!(SendCommand::Slice(nop(), 100).check_fits(0, true));
    assert!(!SendCommand::Slice(nop(), 100).check_fits(24, false));
}

#[test]
fn new_driver_is_idle_and_off() {
    let d = driver(24, 24);
    assert_eq!(d.status(), Status::Idle);
    assert!(!d.is_powered_on());
    assert_eq!(d.sequence_len(), 0);
    assert_eq!(d.get_resolution(), (240, 240));
    assert_eq!(d.get_pixel_format(), ScreenPixelFormat::RGB_565);
    assert_eq!(d.get_rotation(), ScreenRotation::Normal);
    assert_eq!(d.get_num_supported_resolutions(), 1);
    assert_eq!(d.get_supported_resolution(0), Some((240, 240)));
    assert_eq!(d.get_supported_resolution(1), None);
    assert_eq!(d.get_num_supported_pixel_formats(), 1);
    assert_eq!(d.get_supported_pixel_format(0), Some(ScreenPixelFormat::RGB_565));
    assert_eq!(d.get_supported_pixel_format(1), None);
    assert!(!d.expects_alarm());
    assert!(!d.expects_completion(&vec![0; 24]));
}

#[test]
fn init_toggles_reset_then_replays_the_sequence() {
    let mut d = driver(24, 24);
    d.set_client(Some(9));
    let (code, effects) = d.init();
    assert_eq!(code, ReturnCode::SUCCESS);
    assert_eq!(effects.reset, Some(ResetLine::Low));
    assert_eq!(effects.alarm_ms, Some(5));
    assert_eq!(
        effects.memory,
        Some(MemoryRequest::WriteAddr { addr: 0, buffer: vec![0; 24], len: 0 })
    );
    assert_eq!(d.status(), Status::Reset2);
    // the empty command completes
    let effects = d.command_complete(vec![0; 24], 0);
    assert_eq!((effects.reset, effects.alarm_ms), (Some(ResetLine::High), Some(10)));
    assert_eq!(d.status(), Status::Reset3);
    let effects = d.fired();
    assert_eq!((effects.reset, effects.alarm_ms), (Some(ResetLine::Low), Some(20)));
    assert_eq!(d.status(), Status::Reset4);
    let effects = d.fired();
    assert_eq!((effects.reset, effects.alarm_ms), (Some(ResetLine::High), Some(10)));
    assert_eq!(d.status(), Status::Init);
    let effects = d.fired();
    // the first command of the initialisation sequence goes out
    assert_eq!(
        effects.memory,
        Some(MemoryRequest::WriteAddr { addr: 0x10, buffer: vec![0; 24], len: 0 })
    );
    assert_eq!(d.sequence_len(), 21);
    let (sent, alarms, last) = run(&mut d, effects);
    let opcodes: Vec<usize> = sent.iter().filter_map(|(addr, _)| *addr).collect();
    assert_eq!(
        opcodes,
        vec![
            0x10, 0x01, 0x11, 0x36, 0x3A, 0x21, 0x2A, 0x2B, 0xB2, 0xB7, 0xBB, 0xC0, 0xC2, 0xC4,
            0xC6, 0xD0, 0xE0, 0xE1, 0x29, 0x11, 0x35
        ]
    );
    assert_eq!(alarms, vec![10, 200, 120, 120, 20, 120]);
    assert_eq!(last.notification, Some(Notification::ScreenIsReady { client: 9 }));
    assert_eq!(last.upcall, None);
    assert_eq!(d.status(), Status::Idle);
    assert!(d.is_powered_on());
}

#[test]
fn init_sends_default_parameters() {
    let mut d = driver(24, 24);
    let (_, effects) = d.init();
    let (sent, _, _) = run(&mut d, effects);
    // the column range: opcode, then its four parameters
    let at = sent.iter().position(|(addr, _)| *addr == Some(0x2A)).unwrap();
    assert_eq!(sent[at + 1], (None, vec![0x00, 0x00, 0x00, 0xEF]));
    let at = sent.iter().position(|(addr, _)| *addr == Some(0xE0)).unwrap();
    assert_eq!(
        sent[at + 1],
        (
            None,
            vec![0xD0, 0x08, 0x11, 0x08, 0x0C, 0x15, 0x39, 0x33, 0x50, 0x36, 0x13, 0x14, 0x29, 0x2D]
        )
    );
}

#[test]
fn init_with_a_short_sequence_buffer_ends_idle() {
    let mut d = driver(24, 20);
    d.set_client(Some(1));
    let (code, effects) = d.init();
    assert_eq!(code, ReturnCode::SUCCESS);
    let (sent, _, last) = run(&mut d, effects);
    assert_eq!(sent.len(), 1);
    assert_eq!(last, none());
    assert_eq!(d.status(), Status::Idle);
    assert!(!d.is_powered_on());
}

#[test]
fn fill_paints_and_repeats() {
    // nine bytes for coordinates and fourteen for colour
    let mut d = powered(24, 24);
    let (code, effects) = d.fill(0xFFFF);
    assert_eq!(code, ReturnCode::SUCCESS);
    assert_eq!(d.sequence_len(), 3);
    let buffer_space = 14;
    let repeat = (240 * 240 * 2 + buffer_space - 1) / buffer_space;
    assert_eq!(repeat, 8229);
    assert_eq!(d.sequence_entry(0), Some(SendCommand::Default(caset())));
    assert_eq!(d.sequence_entry(1), Some(SendCommand::Default(raset())));
    assert_eq!(
        d.sequence_entry(2),
        Some(SendCommand::Repeat(write_ram(), 9, buffer_space, repeat))
    );
    // the buffer travels with the first command: colour behind byte nine
    let buffer = match &effects.memory {
        Some(MemoryRequest::WriteAddr { addr, buffer, len }) => {
            assert_eq!((*addr, *len), (0x2A, 0));
            buffer.clone()
        }
        other => panic!("unexpected {:?}", other),
    };
    assert_eq!(buffer.len(), 24);
    assert_eq!(&buffer[..4], &[0x00, 0x00, 0x00, 0xEF]);
    assert!(buffer[9..23].iter().all(|b| *b == 0xFF));
    assert_eq!(buffer[23], 0);
    let (sent, _, last) = run(&mut d, effects);
    let blocks = sent.iter().filter(|(addr, bytes)| addr.is_none() && bytes.len() == 14).count();
    assert_eq!(blocks, repeat);
    assert_eq!(last.notification, Some(Notification::CommandComplete {
        client: 1,
        code: ReturnCode::SUCCESS
    }));
    assert_eq!(d.status(), Status::Idle);
}

#[test]
fn fill_alternates_high_and_low_byte() {
    let mut d = driver(16, 3);
    let (code, effects) = d.fill(0x12AB34);
    assert_eq!(code, ReturnCode::SUCCESS);
    let buffer = buffer_of(memory(effects));
    assert_eq!(&buffer[9..15], &[0xAB, 0x34, 0xAB, 0x34, 0xAB, 0x34]);
    assert_eq!(buffer[15], 0);
    // six bytes a block: 115200 / 6 with nothing left over
    assert_eq!(d.sequence_entry(2), Some(SendCommand::Repeat(write_ram(), 9, 6, 19200)));
}

#[test]
fn fill_needs_room() {
    let mut d = driver(10, 24);
    assert_eq!(d.fill(1), (ReturnCode::ENOMEM, none()));
    assert_eq!(d.status(), Status::Idle);
    let mut d = driver(24, 2);
    assert_eq!(d.fill(1), (ReturnCode::ENOMEM, none()));
    assert_eq!(d.status(), Status::Idle);
    assert_eq!(d.sequence_len(), 0);
}

#[test]
fn send_sequence_checks_capacity() {
    let mut d = driver(24, 2);
    let sequence = vec![SendCommand::Nop; 3];
    assert_eq!(d.send_sequence(&sequence), (ReturnCode::ENOMEM, none()));
    assert_eq!(d.status(), Status::Idle);
    assert_eq!(d.sequence_len(), 0);
    assert_eq!(d.sequence_entry(0), Some(SendCommand::Nop));
    assert!(!d.check_sequence(&sequence));
    assert!(d.check_sequence(&sequence[..2]));
    // parameters outside the transfer buffer, or a write buffer that is not
    // there
    assert_eq!(
        d.send_sequence(&[SendCommand::Position(caset(), 21, 4)]),
        (ReturnCode::ENOMEM, none())
    );
    assert_eq!(
        d.send_sequence(&[SendCommand::Slice(write_ram(), 4)]),
        (ReturnCode::ENOMEM, none())
    );
    assert_eq!(d.status(), Status::Idle);
}

#[test]
fn send_sequence_skips_empty_entries() {
    let mut d = powered(24, 24);
    let (code, effects) = d.send_sequence(&[
        SendCommand::Nop,
        SendCommand::Nop,
        SendCommand::Position(write_ram(), 2, 0),
        SendCommand::Nop,
    ]);
    assert_eq!(code, ReturnCode::SUCCESS);
    let (sent, alarms, last) = run(&mut d, effects);
    assert_eq!(sent, vec![(Some(0x2C), vec![])]);
    assert!(alarms.is_empty());
    assert_eq!(
        last.notification,
        Some(Notification::CommandComplete { client: 1, code: ReturnCode::SUCCESS })
    );
    // a sequence of nothing completes at once
    let (code, effects) = d.send_sequence(&[SendCommand::Nop]);
    assert_eq!(code, ReturnCode::SUCCESS);
    assert_eq!(
        effects.notification,
        Some(Notification::CommandComplete { client: 1, code: ReturnCode::SUCCESS })
    );
    assert_eq!(d.status(), Status::Idle);
}

#[test]
fn repeat_sends_the_block_again_and_again() {
    let mut d = powered(24, 24);
    let (_, effects) = d.send_sequence(&[SendCommand::Repeat(write_ram(), 0, 3, 4)]);
    let (sent, _, _) = run(&mut d, effects);
    assert_eq!(sent.len(), 5);
    assert_eq!(sent[0].0, Some(0x2C));
    assert!(sent[1..].iter().all(|(addr, bytes)| addr.is_none() && bytes.len() == 3));
}

#[test]
fn busy_driver_refuses_everything() {
    let mut d = driver(24, 24);
    let (_, effects) = d.fill(7);
    assert!(effects.memory.is_some());
    let status = d.status();
    assert_ne!(status, Status::Idle);
    assert_eq!(d.init(), (ReturnCode::EBUSY, none()));
    assert_eq!(d.fill(1), (ReturnCode::EBUSY, none()));
    assert_eq!(d.write_pixel(1, 1, 1), (ReturnCode::EBUSY, none()));
    assert_eq!(d.set_write_frame(0, 0, 10, 10), (ReturnCode::EBUSY, none()));
    assert_eq!(d.write(vec![1, 2], 2), (ReturnCode::EBUSY, none(), Some(vec![1, 2])));
    assert_eq!(d.send_sequence(&[SendCommand::Nop]), (ReturnCode::EBUSY, none()));
    assert_eq!(d.rotation(ScreenRotation::Normal), (ReturnCode::EBUSY, none()));
    assert_eq!(d.set_rotation(ScreenRotation::Rotated90), (ReturnCode::EBUSY, none()));
    assert_eq!(d.display_on(), (ReturnCode::EBUSY, none()));
    assert_eq!(d.display_off(), (ReturnCode::EBUSY, none()));
    assert_eq!(d.set_brightness(3), (ReturnCode::EBUSY, none()));
    assert_eq!(d.set_resolution((240, 240)), (ReturnCode::EBUSY, none()));
    assert_eq!(d.set_pixel_format(ScreenPixelFormat::RGB_565), (ReturnCode::EBUSY, none()));
    assert_eq!(d.set_memory_frame(0, 1, 1, 2, 2), ReturnCode::EBUSY);
    assert_eq!(d.command(1, 0, 0, AppId::new(0)), (ReturnCode::EBUSY, none()));
    assert_eq!(d.command(2, 0, 0, AppId::new(0)), (ReturnCode::EBUSY, none()));
    assert_eq!(d.status(), status);
    assert_eq!(d.sequence_len(), 3);
}

#[test]
fn write_pixel_puts_position_and_colour_in_the_buffer() {
    let mut d = powered(24, 24);
    let (code, effects) = d.write_pixel(3, 200, 0xF81F);
    assert_eq!(code, ReturnCode::SUCCESS);
    let request = memory(effects);
    match &request {
        MemoryRequest::WriteAddr { addr, buffer, .. } => {
            assert_eq!(*addr, 0x2A);
            assert_eq!(&buffer[1..11], &[0, 3, 0, 4, 0, 200, 0, 201, 0xF8, 0x1F]);
        }
        other => panic!("unexpected {:?}", other),
    }
    let first = d.command_complete(buffer_of(request), 0);
    let (sent, _, last) = run(&mut d, first);
    assert_eq!(
        sent,
        vec![
            (None, vec![0, 3, 0, 4]),
            (Some(0x2B), vec![]),
            (None, vec![0, 200, 0, 201]),
            (Some(0x2C), vec![]),
            (None, vec![0xF8, 0x1F]),
        ]
    );
    assert_eq!(
        last.notification,
        Some(Notification::CommandComplete { client: 1, code: ReturnCode::SUCCESS })
    );
}

#[test]
fn write_pixel_refusals() {
    let mut d = driver(24, 24);
    assert_eq!(d.write_pixel(240, 0, 0), (ReturnCode::EINVAL, none()));
    assert_eq!(d.write_pixel(0, 240, 0), (ReturnCode::EINVAL, none()));
    let mut small = driver(10, 24);
    assert_eq!(small.write_pixel(0, 0, 0), (ReturnCode::ENOMEM, none()));
    assert_eq!(small.status(), Status::Idle);
    assert_eq!(d.write_pixel(239, 239, 0).0, ReturnCode::SUCCESS);
}

#[test]
fn set_memory_frame_writes_both_ranges() {
    let mut d = driver(24, 24);
    assert_eq!(d.set_memory_frame(2, 1, 2, 3, 4), ReturnCode::SUCCESS);
    assert_eq!(d.set_memory_frame(17, 1, 2, 3, 4), ReturnCode::ENOMEM);
    assert_eq!(d.set_memory_frame(16, 240, 240, 240, 240), ReturnCode::SUCCESS);
    assert_eq!(d.set_memory_frame(0, 3, 0, 2, 0), ReturnCode::EINVAL);
    assert_eq!(d.set_memory_frame(0, 0, 3, 0, 2), ReturnCode::EINVAL);
    assert_eq!(d.set_memory_frame(0, 0, 0, 241, 0), ReturnCode::EINVAL);
    assert_eq!(d.set_memory_frame(0, 0, 0, 0, 241), ReturnCode::EINVAL);
    let (_, effects) = d.rotation(ScreenRotation::Normal);
    let buffer = buffer_of(memory(effects));
    assert_eq!(&buffer[2..10], &[0, 1, 0, 3, 0, 2, 0, 4]);
    assert_eq!(&buffer[16..24], &[0, 240, 0, 240, 0, 240, 0, 240]);
}

#[test]
fn set_write_frame_sends_the_frame() {
    let mut d = powered(24, 24);
    let (code, effects) = d.set_write_frame(10, 20, 30, 40);
    assert_eq!(code, ReturnCode::SUCCESS);
    assert_eq!(d.sequence_entry(0), Some(SendCommand::Position(caset(), 0, 4)));
    assert_eq!(d.sequence_entry(1), Some(SendCommand::Position(raset(), 4, 4)));
    let (sent, _, last) = run(&mut d, effects);
    assert_eq!(
        sent,
        vec![
            (Some(0x2A), vec![]),
            (None, vec![0, 10, 0, 39]),
            (Some(0x2B), vec![]),
            (None, vec![0, 20, 0, 59]),
        ]
    );
    assert_eq!(
        last.notification,
        Some(Notification::CommandComplete { client: 1, code: ReturnCode::SUCCESS })
    );
}

#[test]
fn set_write_frame_refusals() {
    let mut d = driver(24, 24);
    assert_eq!(d.set_write_frame(0, 0, 0, 10), (ReturnCode::EINVAL, none()));
    assert_eq!(d.set_write_frame(5, 5, 0, 10), (ReturnCode::EINVAL, none()));
    assert_eq!(d.set_write_frame(200, 0, 42, 10), (ReturnCode::EINVAL, none()));
    assert_eq!(d.set_write_frame(0, 0, usize::MAX, 1), (ReturnCode::EINVAL, none()));
    assert_eq!(d.set_write_frame(1, 0, usize::MAX, 1), (ReturnCode::EINVAL, none()));
    assert_eq!(d.status(), Status::Idle);
    let mut small = driver(9, 24);
    assert_eq!(small.set_write_frame(0, 0, 1, 1), (ReturnCode::ENOMEM, none()));
    let mut short = driver(24, 1);
    assert_eq!(short.set_write_frame(0, 0, 1, 1), (ReturnCode::ENOMEM, none()));
    assert_eq!(d.set_write_frame(200, 200, 41, 41).0, ReturnCode::SUCCESS);
}

#[test]
fn write_streams_the_buffer_and_hands_it_back() {
    let mut d = powered(24, 24);
    let data = vec![1, 2, 3, 4, 5, 6];
    let (code, effects, returned) = d.write(data.clone(), 6);
    assert_eq!(code, ReturnCode::SUCCESS);
    assert_eq!(returned, None);
    assert_eq!(d.sequence_entry(0), Some(SendCommand::Slice(write_ram(), 6)));
    let transfer_buffer = match memory(effects) {
        MemoryRequest::WriteAddr { addr: 0x2C, buffer, len: 0 } => buffer,
        other => panic!("unexpected {:?}", other),
    };
    assert_eq!(transfer_buffer.len(), 24);
    assert_eq!(d.status(), Status::SendCommandSlice(6));
    let effects = d.command_complete(transfer_buffer, 0);
    assert_eq!(
        effects.memory,
        Some(MemoryRequest::Write { data_width: BusWidth::Bits16, buffer: data.clone(), len: 3 })
    );
    assert_eq!(d.status(), Status::SendParametersSlice);
    assert!(d.expects_completion(&data));
    let effects = d.command_complete(data.clone(), 3);
    assert_eq!(
        effects.notification,
        Some(Notification::WriteComplete {
            client: Some(1),
            buffer: data,
            code: ReturnCode::SUCCESS
        })
    );
    assert_eq!(d.status(), Status::Idle);
}

#[test]
fn write_refusals_hand_the_buffer_back() {
    let mut d = driver(0, 24);
    assert_eq!(d.write(vec![1], 1), (ReturnCode::ENOMEM, none(), Some(vec![1])));
    let mut d = driver(24, 0);
    assert_eq!(d.write(vec![1], 1), (ReturnCode::ENOMEM, none(), Some(vec![1])));
    assert_eq!(d.status(), Status::Idle);
}

#[test]
fn display_on_needs_power() {
    let mut d = driver(24, 24);
    assert_eq!(d.display_on(), (ReturnCode::EOFF, none()));
    assert_eq!(d.display_off(), (ReturnCode::EOFF, none()));
    assert_eq!(d.set_brightness(0), (ReturnCode::EOFF, none()));
    assert_eq!(d.status(), Status::Idle);
    let mut d = powered(24, 24);
    let (code, effects) = d.display_on();
    assert_eq!(code, ReturnCode::SUCCESS);
    let (sent, alarms, last) = run(&mut d, effects);
    assert_eq!(sent, vec![(Some(0x29), vec![])]);
    assert_eq!(alarms, vec![20]);
    assert_eq!(
        last.notification,
        Some(Notification::CommandComplete { client: 1, code: ReturnCode::SUCCESS })
    );
    let (code, effects) = d.set_brightness(0);
    assert_eq!(code, ReturnCode::SUCCESS);
    let (sent, alarms, _) = run(&mut d, effects);
    assert_eq!(sent, vec![(Some(display_off().id as usize), vec![])]);
    assert!(alarms.is_empty());
}

#[test]
fn rotation_supports_only_normal() {
    let mut d = powered(24, 24);
    let (code, effects) = d.rotation(ScreenRotation::Rotated180);
    assert_eq!(code, ReturnCode::ENOSUPPORT);
    let (sent, _, _) = run(&mut d, effects);
    assert_eq!(sent, vec![(Some(0), vec![])]);
    let (code, effects) = d.set_rotation(ScreenRotation::Normal);
    assert_eq!(code, ReturnCode::SUCCESS);
    run(&mut d, effects);
    assert_eq!(d.status(), Status::Idle);
}

#[test]
fn inversion_is_not_supported() {
    let d = driver(24, 24);
    assert_eq!(d.display_invert_on(), ReturnCode::ENOSUPPORT);
    assert_eq!(d.display_invert_off(), ReturnCode::ENOSUPPORT);
    assert_eq!(d.invert_on(), ReturnCode::ENOSUPPORT);
    assert_eq!(d.invert_off(), ReturnCode::ENOSUPPORT);
}

#[test]
fn setup_requests_tell_the_setup_client() {
    let mut d = driver(24, 24);
    assert_eq!(d.set_resolution((240, 240)), (ReturnCode::SUCCESS, none()));
    d.set_setup_client(Some(4));
    let told = Effects {
        notification: Some(Notification::SetupCommandComplete {
            client: 4,
            code: ReturnCode::SUCCESS,
        }),
        ..Effects::none()
    };
    assert_eq!(d.set_resolution((240, 240)), (ReturnCode::SUCCESS, told));
    assert_eq!(d.set_resolution((240, 241)), (ReturnCode::ENOSUPPORT, none()));
    assert_eq!(d.set_pixel_format(ScreenPixelFormat::RGB_888), (ReturnCode::EINVAL, none()));
    assert_eq!(d.set_pixel_format(ScreenPixelFormat::RGB_565).0, ReturnCode::SUCCESS);
    d.set_setup_client(None);
    assert_eq!(d.set_pixel_format(ScreenPixelFormat::RGB_565), (ReturnCode::SUCCESS, none()));
}

#[test]
fn commands_from_the_application() {
    let app = AppId::new(0);
    let mut d = driver(24, 24);
    assert_eq!(d.command(0, 0, 0, app), (ReturnCode::SUCCESS, none()));
    assert_eq!(d.command(4, 0, 0, app), (ReturnCode::ENOSUPPORT, none()));
    assert_eq!(d.subscribe(1, None, app), ReturnCode::ENOSUPPORT);
    let callback = Callback::new(app, 77);
    assert_eq!(d.subscribe(0, Some(callback), app), ReturnCode::SUCCESS);
    // column 2, row 5
    let (code, effects) = d.command(3, 0x0205, 0x1234, app);
    assert_eq!(code, ReturnCode::SUCCESS);
    let buffer = buffer_of(memory(effects));
    assert_eq!(&buffer[1..11], &[0, 2, 0, 3, 0, 5, 0, 6, 0x12, 0x34]);
    let first = d.command_complete(buffer, 0);
    let (_, _, last) = run(&mut d, first);
    assert_eq!(last.upcall, Some(Upcall { callback, r0: 0, r1: 0, r2: 0 }));
    assert_eq!(last.notification, None);
    assert!(d.is_powered_on());
    let (code, effects) = d.command(2, 0x0F0F, 0, app);
    assert_eq!(code, ReturnCode::SUCCESS);
    assert!(effects.memory.is_some());
    assert_eq!(d.command(1, 0, 0, app).0, ReturnCode::EBUSY);
}
