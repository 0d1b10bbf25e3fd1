use tockmux::capsules::esp_serial::{
    check_ascii, check_space, check_starts_with, copy_into, find_colon, find_terminator, min,
    parse_reply, trim, App, Effects, EspSerial, Link, Reply, UartTransfer, NO_LINK,
};
use tockmux::hil::uart::Error;
use tockmux::process::{AppId, Callback, Upcall};
use tockmux::returncode::ReturnCode;

fn app(i: usize) -> AppId {
    AppId::new(i)
}

fn cb(i: usize) -> Callback {
    Callback::new(app(i), 20 + i)
}

fn line(text: &str) -> Vec<u8> {
    let mut bytes = text.as_bytes().to_vec();
    bytes.push(0);
    bytes.resize(64, 0xEE);
    bytes
}

fn links() -> Vec<Link> {
    (0..5).map(Link::new).collect()
}

fn driver(tx: usize, apps: usize) -> EspSerial {
    let grant = (0..apps).map(|_| App::new()).collect();
    let (d, first) = EspSerial::new(vec![0; tx], vec![0; 8], vec![0; 32], links(), grant);
    assert_eq!(first, UartTransfer { buffer: vec![0; 8], len: 1 });
    d
}

fn nothing() -> Effects {
    Effects { transmit: None, receive: None, abort: false, upcalls: vec![] }
}

#[test]
fn esp_bytes_and_lines() {
    for b in [b' ', b'\t', b'\n', 0x0B, 0x0C, b'\r'] {
        assert!(check_space(b));
    }
    assert!(!check_space(b'a'));
    assert!(!check_space(0));
    assert!(!check_space(0x0E));
    assert_eq!(find_terminator(&vec![1, 2, 0, 3, 0]), 2);
    assert_eq!(find_terminator(&vec![0, 1, 2]), 0);
    assert_eq!(find_terminator(&vec![1, 2, 3]), 0);
    assert_eq!(find_terminator(&vec![]), 0);
    assert_eq!(trim(&b"  OK \r\n".to_vec(), 7), (2, 4));
    assert_eq!(trim(&b"OK".to_vec(), 2), (0, 2));
    assert_eq!(trim(&b"   ".to_vec(), 3), (3, 3));
    assert_eq!(trim(&b" a b ".to_vec(), 4), (1, 4));
    assert!(check_starts_with(&b"xOKAY".to_vec(), 1, 5, b"OK"));
    assert!(!check_starts_with(&b"xOKAY".to_vec(), 1, 2, b"OK"));
    assert!(!check_starts_with(&b"xOKAY".to_vec(), 0, 5, b"OK"));
    assert!(check_starts_with(&b"abc".to_vec(), 1, 1, b""));
    assert_eq!(find_colon(&b"a:b:c".to_vec(), 0, 5), 1);
    assert_eq!(find_colon(&b"a:b:c".to_vec(), 2, 5), 3);
    assert_eq!(find_colon(&b"a:b:c".to_vec(), 4, 5), 5);
    assert!(check_ascii(&vec![1, 127, 200], 2));
    assert!(!check_ascii(&vec![1, 127, 200], 3));
    assert_eq!(min(3, 4), 3);
    assert_eq!(min(4, 3), 3);
    let mut buffer = vec![9; 4];
    copy_into(&mut buffer, &vec![1, 2, 3, 4, 5, 6], 1, 3);
    assert_eq!(buffer, vec![2, 3, 9, 9]);
    copy_into(&mut buffer, &vec![1, 2, 3, 4, 5, 6], 0, 6);
    assert_eq!(buffer, vec![1, 2, 3, 4]);
}

#[test]
fn esp_replies() {
    assert_eq!(parse_reply(&line("OK")), Reply::Done);
    assert_eq!(parse_reply(&line("  OK\r\n")), Reply::Done);
    assert_eq!(parse_reply(&line("OKAY")), Reply::Done);
    assert_eq!(parse_reply(&line("ERROR")), Reply::Failed);
    assert_eq!(parse_reply(&line("ALREADY CONNECTED")), Reply::AlreadyConnected);
    assert_eq!(parse_reply(&line("ALREADY CONNECTE")), Reply::Nothing);
    assert_eq!(parse_reply(&line("")), Reply::Nothing);
    assert_eq!(parse_reply(&line("   ")), Reply::Nothing);
    assert_eq!(parse_reply(&line("O")), Reply::Nothing);
    assert_eq!(parse_reply(&line("ready")), Reply::Nothing);
    assert_eq!(parse_reply(&vec![b'O', b'K']), Reply::Nothing);
    assert_eq!(parse_reply(&vec![b'O', b'K', 0x80, 0]), Reply::Nothing);
    // +IPD,<link>,<len>:<data>
    assert_eq!(
        parse_reply(&line("+IPD,2,5:hello")),
        Reply::Data { link: b'2', start: 9, end: 14 }
    );
    assert_eq!(
        parse_reply(&line(" +IPD,0,0:")),
        Reply::Data { link: b'0', start: 10, end: 10 }
    );
    assert_eq!(parse_reply(&line("+IPD,2,5 hello")), Reply::Nothing);
    assert_eq!(parse_reply(&line("+IPD,")), Reply::Nothing);
    assert_eq!(parse_reply(&line("+IPD:")), Reply::Nothing);
    // +CIFSR:STAIP,"<address>"
    assert_eq!(
        parse_reply(&line("+CIFSR:STAIP,\"10.0.0.7\"")),
        Reply::Address { start: 14, end: 22 }
    );
    assert_eq!(parse_reply(&line("+CIFSR:STAIP,\"\"")), Reply::Address { start: 14, end: 14 });
    assert_eq!(parse_reply(&line("+CIFSR:STAIP,\"")), Reply::Nothing);
}

#[test]
fn esp_links() {
    let mut d = driver(8, 2);
    assert_eq!(Link::new(3), Link { link_id: 3, app: None });
    assert_eq!(d.get_linkid(app(1)), 0);
    assert_eq!(d.get_linkid(app(0)), 1);
    assert_eq!(d.links[0].app, Some(app(1)));
    assert_eq!(d.links[1].app, Some(app(0)));
    for expected in 2..5 {
        assert_eq!(d.get_linkid(app(0)), expected);
    }
    assert_eq!(d.get_linkid(app(0)), NO_LINK);
    assert_eq!(d.command(6, 0, 0, app(0)), (ReturnCode::EBUSY, nothing()));
    d.allow(app(0), 1, Some(vec![1]));
    assert_eq!(d.close_connection(app(0), 1, 3).0, ReturnCode::SUCCESS);
    assert_eq!(d.links[3].app, None);
    assert_eq!(d.command(6, 0, 0, app(1)), (ReturnCode::SuccessWithValue { value: 3 }, nothing()));
    assert_eq!(d.links[3].app, Some(app(1)));
    assert_eq!(d.close_connection(app(0), 1, 5), (ReturnCode::EINVAL, None));
    assert_eq!(d.send_bind(app(0), 1, 9), (ReturnCode::EINVAL, None));
}

#[test]
fn esp_sends_in_pieces() {
    let mut d = driver(4, 2);
    assert_eq!(d.subscribe(1, Some(cb(0)), app(0)), ReturnCode::SUCCESS);
    assert_eq!(d.subscribe(3, None, app(0)), ReturnCode::ENOSUPPORT);
    assert_eq!(d.subscribe(1, None, app(2)), ReturnCode::EINVAL);
    // nothing to send from
    assert_eq!(d.command(2, 3, 0, app(0)), (ReturnCode::EBUSY, nothing()));
    assert_eq!(d.allow(app(0), 1, Some(vec![1, 2, 3, 4, 5, 6])), (ReturnCode::SUCCESS, None));
    assert_eq!(d.allow(app(0), 3, Some(vec![1])), (ReturnCode::ENOSUPPORT, Some(vec![1])));
    assert_eq!(d.allow(app(2), 1, Some(vec![1])), (ReturnCode::EINVAL, Some(vec![1])));
    // ten are asked for, six are there, four fit
    let (code, effects) = d.command(2, 10, 0, app(0));
    assert_eq!(code, ReturnCode::SUCCESS);
    assert_eq!(effects.transmit, Some(UartTransfer { buffer: vec![1, 2, 3, 4], len: 4 }));
    assert_eq!(d.tx_in_progress, Some(app(0)));
    assert_eq!(d.rx_in_progress, Some(app(0)));
    assert_eq!(d.apps[0].write_len, 6);
    assert_eq!(d.apps[0].write_remaining, 2);
    assert_eq!(d.apps[0].write_buffer, Some(vec![1, 2, 3, 4, 5, 6]));
    // the rest goes out from the front of the slice again
    let effects = d.transmitted_buffer(vec![1, 2, 3, 4], 4, ReturnCode::SUCCESS);
    assert_eq!(effects.transmit, Some(UartTransfer { buffer: vec![1, 2, 3, 4], len: 2 }));
    assert_eq!(effects.upcalls, vec![]);
    assert_eq!(d.apps[0].write_remaining, 0);
    let effects = d.transmitted_buffer(vec![1, 2, 3, 4], 2, ReturnCode::SUCCESS);
    assert_eq!(effects.transmit, None);
    assert_eq!(effects.upcalls, vec![Upcall { callback: cb(0), r0: 0, r1: 6, r2: 0 }]);
    assert_eq!(d.tx_in_progress, None);
    assert_eq!(d.tx_buffer, Some(vec![1, 2, 3, 4]));
    assert_eq!(d.apps[0].write_len, 0);
}

#[test]
fn esp_second_sender_waits() {
    let mut d = driver(4, 3);
    d.subscribe(1, Some(cb(1)), app(1));
    d.subscribe(1, Some(cb(2)), app(2));
    d.allow(app(0), 1, Some(vec![7, 7]));
    d.allow(app(1), 1, Some(vec![8, 8, 8]));
    d.allow(app(2), 1, Some(vec![9]));
    assert_eq!(
        d.send_new(app(0), 2),
        (ReturnCode::SUCCESS, Some(UartTransfer { buffer: vec![7, 7, 0, 0], len: 2 }))
    );
    assert_eq!(d.send_bind(app(2), 1, 4), (ReturnCode::SUCCESS, None));
    assert_eq!(d.send_new(app(1), 3), (ReturnCode::SUCCESS, None));
    assert!(d.apps[1].pending_write && d.apps[2].pending_write);
    assert_eq!(d.links[4].app, Some(app(2)));
    // the first in the order of the applications goes on
    let effects = d.transmitted_buffer(vec![7, 7, 0, 0], 2, ReturnCode::SUCCESS);
    assert_eq!(effects.transmit, Some(UartTransfer { buffer: vec![8, 8, 8, 0], len: 3 }));
    assert_eq!(effects.upcalls, vec![]);
    assert_eq!(d.tx_in_progress, Some(app(1)));
    assert!(!d.apps[1].pending_write && d.apps[2].pending_write);
    let effects = d.transmitted_buffer(vec![8, 8, 8, 0], 3, ReturnCode::SUCCESS);
    assert_eq!(effects.upcalls, vec![Upcall { callback: cb(1), r0: 0, r1: 3, r2: 0 }]);
    assert_eq!(effects.transmit, Some(UartTransfer { buffer: vec![9, 8, 8, 0], len: 1 }));
    assert_eq!(d.tx_in_progress, Some(app(2)));
    // an application whose buffer is gone is told so
    let mut d = driver(4, 2);
    d.subscribe(1, Some(cb(1)), app(1));
    d.allow(app(0), 1, Some(vec![7]));
    d.allow(app(1), 1, Some(vec![8]));
    d.send_new(app(0), 1);
    d.send_new(app(1), 1);
    assert_eq!(d.allow(app(1), 1, None), (ReturnCode::SUCCESS, Some(vec![8])));
    let effects = d.transmitted_buffer(vec![7, 0, 0, 0], 1, ReturnCode::SUCCESS);
    assert_eq!(effects.transmit, None);
    assert_eq!(
        effects.upcalls,
        vec![Upcall { callback: cb(1), r0: ReturnCode::ERESERVE.to_usize(), r1: 0, r2: 0 }]
    );
    assert_eq!(d.send_continue(app(1)), (Ok(false), None));
    assert_eq!(d.apps[1].write_remaining, 0);
}

#[test]
fn esp_receive() {
    let mut d = driver(4, 1);
    // the receive buffer is with the port
    assert_eq!(d.command(3, 2, 0, app(0)), (ReturnCode::EBUSY, nothing()));
    d.rx_buffer = Some(vec![0; 8]);
    assert_eq!(d.receive_new(app(0), 2), (ReturnCode::EINVAL, None));
    d.allow(app(0), 2, Some(vec![0; 16]));
    assert_eq!(d.receive_new(app(0), 9), (ReturnCode::EINVAL, None));
    let (code, effects) = d.command(3, 5, 0, app(0));
    assert_eq!(code, ReturnCode::SUCCESS);
    assert_eq!(effects.receive, Some(UartTransfer { buffer: vec![0; 8], len: 5 }));
    assert_eq!(d.apps[0].read_len, 5);
    assert_eq!(d.rx_in_progress, Some(app(0)));
    assert_eq!(d.rx_buffer, None);
    let (code, effects) = d.command(4, 0, 0, app(0));
    assert_eq!(code, ReturnCode::SUCCESS);
    assert!(effects.abort);
    assert_eq!(d.command(0, 0, 0, app(0)), (ReturnCode::SUCCESS, nothing()));
    assert_eq!(d.command(7, 0, 0, app(0)), (ReturnCode::ENOSUPPORT, nothing()));
    assert_eq!(d.command(1, 0, 0, app(3)), (ReturnCode::EINVAL, nothing()));
    assert_eq!(d.command(6, 0, 0, app(3)), (ReturnCode::SuccessWithValue { value: 0 }, nothing()));
}

fn feed(d: &mut EspSerial, text: &str) -> Vec<Upcall> {
    let mut upcalls = Vec::new();
    for b in text.bytes() {
        let effects = d.received_buffer(vec![b], 1, ReturnCode::SUCCESS, Error::NoError);
        assert_eq!(effects.receive, Some(UartTransfer { buffer: vec![b], len: 1 }));
        upcalls.extend(effects.upcalls);
    }
    upcalls
}

#[test]
fn esp_collects_lines_and_answers() {
    let mut d = driver(4, 2);
    d.subscribe(2, Some(cb(0)), app(0));
    d.rx_in_progress = Some(app(0));
    assert_eq!(feed(&mut d, "OK"), vec![]);
    assert_eq!(&d.rx_buffer_helper[..3], &[b'O', b'K', 0]);
    assert_eq!(d.helper_pos, 2);
    assert_eq!(feed(&mut d, "\r"), vec![Upcall { callback: cb(0), r0: 0, r1: 0, r2: 0 }]);
    assert_eq!(d.helper_pos, 0);
    assert_eq!(d.rx_buffer_helper[0], 0);
    assert_eq!(d.rx_in_progress, None);
    // nobody waits for the answer any more
    assert_eq!(feed(&mut d, "\nOK\n"), vec![]);
    d.rx_in_progress = Some(app(0));
    assert_eq!(
        feed(&mut d, "ERROR\n"),
        vec![Upcall { callback: cb(0), r0: ReturnCode::FAIL.to_usize(), r1: 0, r2: 0 }]
    );
    d.rx_in_progress = Some(app(0));
    assert_eq!(
        feed(&mut d, "ALREADY CONNECTED\n"),
        vec![Upcall { callback: cb(0), r0: ReturnCode::EALREADY.to_usize(), r1: 0, r2: 0 }]
    );
    // a backspace takes the last byte away
    d.rx_in_progress = Some(app(0));
    assert_eq!(feed(&mut d, "OX\x08K\n").len(), 1);
    // bytes that are not ASCII, and bytes received with an error, are dropped
    d.rx_in_progress = Some(app(0));
    d.received_buffer(vec![0xC3], 1, ReturnCode::SUCCESS, Error::NoError);
    d.received_buffer(vec![b'X'], 1, ReturnCode::SUCCESS, Error::ParityError);
    d.received_buffer(vec![b'X', b'Y'], 2, ReturnCode::SUCCESS, Error::NoError);
    d.received_buffer(vec![], 1, ReturnCode::SUCCESS, Error::NoError);
    assert_eq!(d.helper_pos, 0);
    assert_eq!(feed(&mut d, "OK\n").len(), 1);
    // a line longer than the buffer keeps what fits
    assert_eq!(feed(&mut d, &"x".repeat(40)), vec![]);
    assert_eq!(d.helper_pos, 31);
    assert_eq!(d.rx_buffer_helper[31], 0);
    assert_eq!(feed(&mut d, "\n"), vec![]);
}

#[test]
fn esp_data_and_address() {
    let mut d = driver(4, 2);
    d.subscribe(2, Some(cb(1)), app(1));
    d.allow(app(1), 2, Some(vec![0; 4]));
    d.links[2].app = Some(app(1));
    d.rx_in_progress = Some(app(0));
    assert_eq!(
        feed(&mut d, "+IPD,2,7:abcdefg\n"),
        vec![Upcall { callback: cb(1), r0: 0, r1: 7, r2: 0 }]
    );
    assert_eq!(d.apps[1].read_buffer, Some(b"abcd".to_vec()));
    // data does not end the wait for an answer
    assert_eq!(d.rx_in_progress, Some(app(0)));
    // a link that nobody holds, and one that does not exist
    assert_eq!(feed(&mut d, "+IPD,3,1:x\n+IPD,7,1:x\n+IPD,/,1:x\n"), vec![]);
    d.rx_in_progress = Some(app(1));
    assert_eq!(
        feed(&mut d, "+CIFSR:STAIP,\"1.2\"\n"),
        vec![Upcall { callback: cb(1), r0: 0, r1: 3, r2: 0 }]
    );
    assert_eq!(d.apps[1].read_buffer, Some(b"1.2d".to_vec()));
    assert_eq!(d.rx_in_progress, None);
    assert_eq!(d.read_command(), None);
}

#[test]
fn esp_takes_any_helper_buffer() {
    let (d, first) = EspSerial::new(vec![], vec![9], vec![], links(), vec![]);
    assert_eq!(first, UartTransfer { buffer: vec![9], len: 1 });
    assert_eq!(d.tx_in_progress, None);
    assert_eq!(d.rx_in_progress, None);
    assert_eq!(d.tx_buffer, Some(vec![]));
    assert_eq!(d.rx_buffer, None);
    assert_eq!(d.helper_pos, 0);
    assert!(!d.is_well_formed());
    assert!(driver(4, 1).is_well_formed());
}
