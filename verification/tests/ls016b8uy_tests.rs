use tockmux::capsules::ls016b8uy::{
    caset, color_mode, display_on, gvdd, idle_off, init_sequence, nop, raset, sleep_out,
    vsync_output, write_ram, Command, SendCommand, Status, LS016B8UY,
};
use tockmux::hil::memory_async::{BusWidth, MemoryRequest};
use tockmux::hil::screen::{Effects, Notification, ResetLine, ScreenRotation};
use tockmux::returncode::ReturnCode;

fn panel(buffer_len: usize, sequence_len: usize) -> LS016B8UY {
    LS016B8UY::new(vec![0; buffer_len], vec![SendCommand::Nop; sequence_len])
}

/// Answers every transfer and every alarm until the driver asks for nothing
/// more; returns each transfer as (address?, length asked for, buffer), the
/// alarms, and the last effects.
fn drive(
    driver: &mut LS016B8UY,
    first: Effects,
) -> (Vec<(Option<usize>, usize, Vec<u8>)>, Vec<u32>, Effects) {
    let mut sent = Vec::new();
    let mut alarms = Vec::new();
    let mut effects = first;
    for _ in 0..100000 {
        if let Some(ms) = effects.alarm_ms {
            alarms.push(ms);
        }
        let pending_alarm = effects.alarm_ms.is_some();
        match effects.memory {
            Some(MemoryRequest::WriteAddr { addr, buffer, len }) => {
                sent.push((Some(addr), len, buffer.clone()));
                assert!(driver.expects_completion(&buffer));
                effects = driver.command_complete(buffer, len);
            }
            Some(MemoryRequest::Write { data_width, buffer, len }) => {
                assert_eq!(data_width, BusWidth::Bits8);
                sent.push((None, len, buffer.clone()));
                assert!(driver.expects_completion(&buffer));
                effects = driver.command_complete(buffer, len);
            }
            None => {
                if pending_alarm {
                    assert!(driver.expects_alarm());
                    effects = driver.fired();
                } else {
                    return (sent, alarms, effects);
                }
            }
        }
    }
    panic!("the driver does not come to rest");
}

fn powered_panel(buffer_len: usize, sequence_len: usize) -> LS016B8UY {
    let mut d = panel(buffer_len, sequence_len);
    d.set_client(Some(2));
    let (code, effects) = d.init();
    assert_eq!(code, ReturnCode::SUCCESS);
    let (_, _, last) = drive(&mut d, effects);
    assert_eq!(last.notification, Some(Notification::ScreenIsReady { client: 2 }));
    d
}

#[test]
fn ls016_commands() {
    assert_eq!(nop(), Command { id: 0x00, parameters: None, delay: 0 });
    assert_eq!(sleep_out(), Command { id: 0x11, parameters: None, delay: 150 });
    assert_eq!(caset().parameters, Some(&[0x00, 0x1E, 0x00, 0xD1][..]));
    assert_eq!(raset().parameters, Some(&[0x00, 0x00, 0x00, 0xB3][..]));
    assert_eq!(color_mode().parameters, Some(&[0x55][..]));
    assert_eq!(gvdd(), Command { id: 0xC0, parameters: Some(&[0x53]), delay: 0 });
    assert_eq!(
        init_sequence(),
        vec![
            SendCommand::Default(vsync_output()),
            SendCommand::Default(color_mode()),
            SendCommand::Default(gvdd()),
            SendCommand::Default(sleep_out()),
            SendCommand::Default(tockmux::capsules::ls016b8uy::normal_display()),
            SendCommand::Default(caset()),
            SendCommand::Default(raset()),
            SendCommand::Default(display_on()),
            SendCommand::Default(idle_off()),
        ]
    );
}

#[test]
fn ls016_init_replays_its_sequence() {
    let mut d = panel(24, 24);
    d.set_client(Some(2));
    let (code, effects) = d.init();
    assert_eq!(code, ReturnCode::SUCCESS);
    assert_eq!((effects.reset, effects.alarm_ms), (Some(ResetLine::Low), Some(5)));
    let (sent, alarms, last) = drive(&mut d, effects);
    let opcodes: Vec<usize> = sent.iter().filter_map(|(addr, _, _)| *addr).collect();
    assert_eq!(opcodes, vec![0x00, 0x35, 0x3A, 0xC0, 0x11, 0x36, 0x2A, 0x2B, 0x29, 0x38]);
    assert_eq!(alarms, vec![5, 10, 20, 10, 150, 20, 20]);
    assert_eq!(last.notification, Some(Notification::ScreenIsReady { client: 2 }));
    assert_eq!(d.status(), Status::Idle);
    assert!(d.is_powered_on());
    // the opcode travels with the length of its parameters
    let at = sent.iter().position(|(addr, _, _)| *addr == Some(0x2A)).unwrap();
    assert_eq!(sent[at].1, 4);
    assert_eq!(&sent[at].2[..4], &[0x00, 0x1E, 0x00, 0xD1]);
    assert_eq!((sent[at + 1].0, sent[at + 1].1), (None, 4));
}

#[test]
fn ls016_fill_covers_the_panel() {
    let mut d = powered_panel(24, 24);
    let (code, effects) = d.fill(0x07E0);
    assert_eq!(code, ReturnCode::SUCCESS);
    assert_eq!(d.sequence_entry(0), Some(SendCommand::Default(caset())));
    assert_eq!(d.sequence_entry(1), Some(SendCommand::Default(raset())));
    // 128 * 160 * 2 bytes in blocks of fourteen
    assert_eq!(d.sequence_entry(2), Some(SendCommand::Repeat(write_ram(), 9, 14, 2926)));
    let (sent, _, last) = drive(&mut d, effects);
    let blocks: Vec<_> = sent.iter().filter(|(addr, len, _)| addr.is_none() && *len == 14).collect();
    assert_eq!(blocks.len(), 2926);
    assert_eq!(&blocks[0].2[..14], &[0x07, 0xE0, 0x07, 0xE0, 0x07, 0xE0, 0x07, 0xE0, 0x07, 0xE0, 0x07, 0xE0, 0x07, 0xE0]);
    assert_eq!(
        last.notification,
        Some(Notification::CommandComplete { client: 2, code: ReturnCode::SUCCESS })
    );
}

#[test]
fn ls016_fill_with_blocks_that_divide_the_panel() {
    let mut d = panel(19, 3);
    // ten bytes a block: 40960 / 10 with nothing left over
    assert_eq!(d.fill(0).0, ReturnCode::SUCCESS);
    assert_eq!(d.sequence_entry(2), Some(SendCommand::Repeat(write_ram(), 9, 10, 4096)));
}

#[test]
fn ls016_write_frame_is_exclusive_of_its_end() {
    let mut d = powered_panel(24, 24);
    let (code, effects) = d.set_write_frame(10, 20, 30, 40);
    assert_eq!(code, ReturnCode::SUCCESS);
    assert_eq!(d.sequence_entry(0), Some(SendCommand::Position(caset(), 1, 4)));
    assert_eq!(d.sequence_entry(1), Some(SendCommand::Position(raset(), 5, 4)));
    let (sent, _, _) = drive(&mut d, effects);
    assert_eq!(sent.len(), 4);
    assert_eq!(&sent[0].2[1..9], &[0, 10, 0, 40, 0, 20, 0, 60]);
    assert_eq!((sent[1].0, sent[1].1), (None, 4));
    assert_eq!(&sent[1].2[..4], &[0, 10, 0, 40]);
    assert_eq!(&sent[3].2[..4], &[0, 20, 0, 60]);
    // an empty frame is in order here, one past the edge is not
    assert_eq!(d.set_write_frame(240, 240, 0, 0).0, ReturnCode::SUCCESS);
    let mut e = panel(24, 24);
    assert_eq!(e.set_write_frame(200, 0, 41, 1), (ReturnCode::EINVAL, Effects::none()));
    assert_eq!(e.set_write_frame(0, 0, usize::MAX, 1).0, ReturnCode::EINVAL);
    assert_eq!(e.set_write_frame(1, 0, usize::MAX, 1).0, ReturnCode::EINVAL);
}

#[test]
fn ls016_write_sends_bytes() {
    let mut d = powered_panel(24, 24);
    let data = vec![9, 8, 7, 6, 5];
    let (code, effects, returned) = d.write(data.clone(), 5);
    assert_eq!((code, returned), (ReturnCode::SUCCESS, None));
    let (sent, _, last) = drive(&mut d, effects);
    assert_eq!(sent.len(), 2);
    assert_eq!((sent[0].0, sent[0].1), (Some(0x2C), 0));
    assert_eq!(sent[1], (None, 5, data.clone()));
    assert_eq!(
        last.notification,
        Some(Notification::WriteComplete {
            client: Some(2),
            buffer: data,
            code: ReturnCode::SUCCESS
        })
    );
}

#[test]
fn ls016_capacity_and_busy() {
    let mut d = panel(24, 2);
    assert_eq!(
        d.send_sequence(&[SendCommand::Nop, SendCommand::Nop, SendCommand::Nop]),
        (ReturnCode::ENOMEM, Effects::none())
    );
    assert_eq!(d.status(), Status::Idle);
    assert_eq!(d.sequence_len(), 0);
    let (code, effects) = d.rotation(ScreenRotation::Normal);
    assert_eq!(code, ReturnCode::SUCCESS);
    assert!(effects.memory.is_some());
    let status = d.status();
    assert_eq!(d.init(), (ReturnCode::EBUSY, Effects::none()));
    assert_eq!(d.fill(0), (ReturnCode::EBUSY, Effects::none()));
    assert_eq!(d.write(vec![1], 1), (ReturnCode::EBUSY, Effects::none(), Some(vec![1])));
    assert_eq!(d.set_write_frame(0, 0, 1, 1), (ReturnCode::EBUSY, Effects::none()));
    assert_eq!(d.write_pixel(0, 0, 0), (ReturnCode::EBUSY, Effects::none()));
    assert_eq!(d.status(), status);
}

#[test]
fn ls016_write_pixel() {
    let mut d = powered_panel(24, 24);
    let (code, effects) = d.write_pixel(7, 8, 0xABCD);
    assert_eq!(code, ReturnCode::SUCCESS);
    let (sent, _, _) = drive(&mut d, effects);
    assert_eq!(sent.len(), 6);
    assert_eq!(&sent[0].2[1..11], &[0, 7, 0, 8, 0, 8, 0, 9, 0xAB, 0xCD]);
    assert_eq!(&sent[5].2[..2], &[0xAB, 0xCD]);
    assert_eq!(sent[5].1, 2);
}
