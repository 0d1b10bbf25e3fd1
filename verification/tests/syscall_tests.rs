use tockmux::capsules::pressure::{App as PressureApp, PressureSensor, SensorRequest};
use tockmux::capsules::pwm::{App as PwmApp, PwmVirtualized};
use tockmux::capsules::virtual_pwm::{Operation, PinRequest};
use tockmux::capsules::timer::{elapsed_time, ErrorCode, TimerData, TimerDriver};
use tockmux::capsules::touch::{App as TouchApp, PanelRequest, Touch};
use tockmux::hil::touch::{GestureEvent, TouchClient, TouchEvent};
use tockmux::process::{no_such_app, Answer, AppId, Callback, Upcall};
use tockmux::returncode::ReturnCode;

fn app(i: usize) -> AppId {
    AppId::new(i)
}

fn cb(i: usize) -> Callback {
    Callback::new(app(i), 10 + i)
}

#[test]
fn handles() {
    assert_eq!(app(3).idx(), 3);
    assert_eq!(cb(1), Callback { app: app(1), id: 11 });
    assert_eq!(cb(1).schedule(1, 2, 3), Upcall { callback: cb(1), r0: 1, r1: 2, r2: 3 });
    assert_eq!(no_such_app(), ReturnCode::EINVAL);
}

#[test]
fn pressure_one_reading_at_a_time() {
    let mut d = PressureSensor::new(vec![PressureApp::new(); 3]);
    assert_eq!(d.command(0, 0, 0, app(0)), Answer::Code(ReturnCode::SUCCESS));
    assert_eq!(d.command(2, 0, 0, app(0)), Answer::Code(ReturnCode::ENOSUPPORT));
    assert_eq!(d.command(1, 0, 0, app(3)), Answer::Code(ReturnCode::EINVAL));
    assert_eq!(d.subscribe(0, Some(cb(1)), app(1)), ReturnCode::SUCCESS);
    assert_eq!(d.subscribe(1, Some(cb(1)), app(1)), ReturnCode::ENOSUPPORT);
    assert_eq!(d.subscribe(0, Some(cb(1)), app(7)), ReturnCode::EINVAL);
    assert_eq!(d.configure_callback(Some(cb(2)), app(2)), ReturnCode::SUCCESS);
    assert!(!d.is_busy());
    assert_eq!(d.command(1, 0, 0, app(1)), Answer::Device(SensorRequest::ReadPressure));
    assert!(d.is_busy());
    assert_eq!(d.app(app(1)), Some(PressureApp { callback: Some(cb(1)), subscribed: true }));
    assert_eq!(d.enqueue_command(app(2)), Answer::Code(ReturnCode::EBUSY));
    assert_eq!(d.app(app(2)), Some(PressureApp { callback: Some(cb(2)), subscribed: false }));
    assert_eq!(d.callback(1013), vec![Upcall { callback: cb(1), r0: 1013, r1: 0, r2: 0 }]);
    assert!(!d.is_busy());
    assert_eq!(d.app(app(1)), Some(PressureApp { callback: Some(cb(1)), subscribed: false }));
    assert_eq!(d.app(app(5)), None);
    // a reading that nobody waits for
    assert_eq!(d.callback(5), vec![]);
    // an application without a callback stops waiting all the same
    assert_eq!(d.enqueue_command(app(0)), Answer::Device(SensorRequest::ReadPressure));
    assert_eq!(d.callback(5), vec![]);
    assert!(!d.is_busy());
}

#[test]
fn touch_events_reach_every_subscriber() {
    let mut d = Touch::new(vec![TouchApp::new(); 3]);
    assert_eq!(d.subscribe(0, Some(cb(0)), app(0)), ReturnCode::SUCCESS);
    assert_eq!(d.subscribe(0, Some(cb(2)), app(2)), ReturnCode::SUCCESS);
    assert_eq!(d.subscribe(0, Some(cb(2)), app(3)), ReturnCode::EINVAL);
    assert_eq!(d.subscribe(2, None, app(0)), ReturnCode::ENOSUPPORT);
    assert_eq!(
        d.touch_event(TouchEvent::Pressed, 10, 20),
        vec![
            Upcall { callback: cb(0), r0: 10, r1: 20, r2: 1 },
            Upcall { callback: cb(2), r0: 10, r1: 20, r2: 1 },
        ]
    );
    assert_eq!(d.subscribe(0, None, app(0)), ReturnCode::SUCCESS);
    assert_eq!(
        d.touch_event(TouchEvent::Released, 1, 2),
        vec![Upcall { callback: cb(2), r0: 1, r1: 2, r2: 0 }]
    );
    d.gesture_event(GestureEvent::ZoomIn);
    assert_eq!(d.command(0, 0, 0, app(0)), Answer::Code(ReturnCode::SUCCESS));
    assert_eq!(d.command(1, 0, 0, app(0)), Answer::Device(PanelRequest::Enable));
    assert_eq!(d.command(2, 0, 0, app(0)), Answer::Device(PanelRequest::Disable));
    assert_eq!(d.command(3, 0, 0, app(0)), Answer::Code(ReturnCode::ENOSUPPORT));
}

#[test]
fn pwm_commands() {
    let simple = Operation::Simple { frequency_hz: 1000, duty_cycle: 50 };
    let mut d = PwmVirtualized::new(2, vec![PwmApp::new(); 2]);
    assert_eq!(d.enqueue_command(simple, 2, app(0)), Answer::Code(ReturnCode::ENODEVICE));
    assert_eq!(d.enqueue_command(simple, 0, app(2)), Answer::Code(ReturnCode::EINVAL));
    assert_eq!(d.current_app(), None);
    assert_eq!(
        d.enqueue_command(simple, 1, app(0)),
        Answer::Device(PinRequest::Start { channel: 1, frequency_hz: 1000, duty_cycle: 50 })
    );
    assert_eq!(d.current_app(), Some(app(0)));
    assert_eq!(d.driver_answered(ReturnCode::SUCCESS), ReturnCode::SUCCESS);
    assert_eq!(d.current_app(), Some(app(0)));
    // the pins are taken: one command can wait
    assert_eq!(d.enqueue_command(Operation::Stop, 0, app(1)), Answer::Code(ReturnCode::SUCCESS));
    assert_eq!(
        d.app(app(1)),
        Some(PwmApp {
            callback: None,
            pending_command: true,
            command: Some(Operation::Stop),
            channel: 0
        })
    );
    assert_eq!(d.enqueue_command(simple, 1, app(1)), Answer::Code(ReturnCode::EBUSY));
    assert_eq!(d.app(app(1)).unwrap().command, Some(Operation::Stop));
    assert_eq!(d.app(app(2)), None);
    assert_eq!(d.call_driver(Operation::Stop, 1), PinRequest::Stop { channel: 1 });
    // a pin that refuses frees the pins
    let mut d = PwmVirtualized::new(1, vec![PwmApp::new()]);
    assert_eq!(
        d.enqueue_command(Operation::Stop, 0, app(0)),
        Answer::Device(PinRequest::Stop { channel: 0 })
    );
    assert_eq!(d.driver_answered(ReturnCode::ENOSUPPORT), ReturnCode::ENOSUPPORT);
    assert_eq!(d.current_app(), None);
}

#[test]
fn timer_reports_time_and_difference() {
    let mut d = TimerDriver::new(vec![TimerData::new(); 2]);
    assert_eq!(d.command(0, 5, app(0)), (Ok(()), None));
    assert_eq!(d.command(3, 5, app(0)), (Err(ErrorCode::NOSUPPORT), None));
    assert_eq!(d.command(1, 5, app(2)), (Err(ErrorCode::INVAL), None));
    assert_eq!(d.command(2, 5, app(2)), (Err(ErrorCode::INVAL), None));
    assert_eq!(d.subscribe(1, Some(cb(0)), app(0)), Err((Some(cb(0)), ErrorCode::NOSUPPORT)));
    assert_eq!(d.subscribe(0, Some(cb(0)), app(9)), Err((Some(cb(0)), ErrorCode::INVAL)));
    assert_eq!(d.subscribe(0, Some(cb(0)), app(0)), Ok(None));
    assert_eq!(d.subscribe(0, Some(cb(1)), app(0)), Ok(Some(cb(0))));
    assert_eq!(
        d.command(1, 0x1_0010, app(0)),
        (Ok(()), Some(Upcall { callback: cb(1), r0: 0, r1: 0x1_0010, r2: 0 }))
    );
    assert_eq!(d.data(app(0)), Some(TimerData { callback: Some(cb(1)), last_value: 0x10 }));
    // 16 ticks later: 16 * 1000000 / 16000
    assert_eq!(
        d.command(2, 0x20, app(0)),
        (Ok(()), Some(Upcall { callback: cb(1), r0: 0, r1: 0x20, r2: 1000 }))
    );
    // through the top of the counter: 65535 - 16 + 5 ticks
    assert_eq!(
        d.command(2, 5, app(0)),
        (Ok(()), Some(Upcall { callback: cb(1), r0: 0, r1: 5, r2: elapsed_time(65524) }))
    );
    // no callback, nothing scheduled
    assert_eq!(d.command(1, 7, app(1)), (Ok(()), None));
    assert_eq!(d.data(app(1)), Some(TimerData { callback: None, last_value: 7 }));
    assert_eq!(d.data(app(2)), None);
}

#[test]
fn timer_elapsed_time_is_kept_to_32_bits() {
    assert_eq!(elapsed_time(0), 0);
    assert_eq!(elapsed_time(16), 1000);
    assert_eq!(elapsed_time(4294), 268375);
    // 4295 * 1000000 = 4295000000 = 2^32 + 32704
    assert_eq!(elapsed_time(4295), 2);
    assert_eq!(elapsed_time(65535), ((65535u64 * 1000000) % (1 << 32) / 16000) as usize);
}
