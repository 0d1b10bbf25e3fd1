use tockmux::capsules::virtual_i2c::{I2cDelivery, I2cRequest, MuxI2C, Power};
use tockmux::capsules::virtual_pwm::{request_for, MuxPwm, Operation, PinRequest, PwmPinUser};
use tockmux::hil::i2c::{Error, I2cTransfer};
use tockmux::returncode::ReturnCode;

fn mux_with(addresses: &[u8]) -> MuxI2C {
    let mut mux = MuxI2C::new();
    for (i, addr) in addresses.iter().enumerate() {
        assert_eq!(mux.add_device(*addr), i);
        mux.set_client(i, 50 + i);
    }
    mux
}

#[test]
fn i2c_mux_dispatches_at_once_when_free() {
    let mut mux = mux_with(&[0x20, 0x77]);
    assert_eq!(mux.len(), 2);
    assert!(mux.is_free(1));
    let (code, dispatch, returned) = mux.write(1, vec![1, 2, 3], 2);
    assert_eq!(code, ReturnCode::SUCCESS);
    assert_eq!(returned, None);
    assert_eq!(
        dispatch,
        Some(I2cRequest {
            addr: 0x77,
            transfer: I2cTransfer::Write { buffer: vec![1, 2, 3], len: 2 }
        })
    );
    assert_eq!(mux.inflight(), Some(1));
    assert!(!mux.is_free(1));
    assert!(mux.is_free(0));
    assert!(!mux.is_free(2));
}

#[test]
fn i2c_mux_serves_waiting_devices_in_registration_order() {
    let mut mux = mux_with(&[0x10, 0x20, 0x30, 0x40]);
    assert!(mux.read(3, vec![0; 4], 4).1.is_some());
    // the controller is taken; the others wait, handed in last to first
    assert_eq!(mux.write_read(2, vec![3; 2], 1, 1), (ReturnCode::SUCCESS, None, None));
    assert_eq!(mux.read(1, vec![2; 2], 2), (ReturnCode::SUCCESS, None, None));
    assert_eq!(mux.write(0, vec![1; 2], 1), (ReturnCode::SUCCESS, None, None));
    let (delivery, dispatch) = mux.command_complete(vec![9; 4], Error::CommandComplete);
    assert_eq!(
        delivery,
        Ok(I2cDelivery { client: Some(53), buffer: vec![9; 4], error: Error::CommandComplete })
    );
    assert_eq!(
        dispatch,
        Some(I2cRequest { addr: 0x10, transfer: I2cTransfer::Write { buffer: vec![1; 2], len: 1 } })
    );
    assert_eq!(mux.inflight(), Some(0));
    let (delivery, dispatch) = mux.command_complete(vec![1; 2], Error::DataNak);
    assert_eq!(
        delivery,
        Ok(I2cDelivery { client: Some(50), buffer: vec![1; 2], error: Error::DataNak })
    );
    assert_eq!(
        dispatch,
        Some(I2cRequest { addr: 0x20, transfer: I2cTransfer::Read { buffer: vec![2; 2], len: 2 } })
    );
    let (_, dispatch) = mux.command_complete(vec![2; 2], Error::CommandComplete);
    assert_eq!(
        dispatch,
        Some(I2cRequest {
            addr: 0x30,
            transfer: I2cTransfer::WriteRead { buffer: vec![3; 2], write_len: 1, read_len: 1 }
        })
    );
    let (delivery, dispatch) = mux.command_complete(vec![3; 2], Error::CommandComplete);
    assert_eq!(delivery.unwrap().client, Some(52));
    assert_eq!(dispatch, None);
    assert_eq!(mux.inflight(), None);
    assert_eq!(mux.do_next_op(), None);
}

#[test]
fn i2c_mux_refusals_hand_the_buffer_back() {
    let mut mux = mux_with(&[0x10, 0x20]);
    assert_eq!(mux.write(2, vec![1], 1), (ReturnCode::ENODEVICE, None, Some(vec![1])));
    mux.write(0, vec![1], 1);
    // under way
    assert_eq!(mux.write(0, vec![2], 1), (ReturnCode::EBUSY, None, Some(vec![2])));
    assert_eq!(mux.read(1, vec![3], 1), (ReturnCode::SUCCESS, None, None));
    // waiting
    assert_eq!(mux.read(1, vec![4], 1), (ReturnCode::EBUSY, None, Some(vec![4])));
    assert_eq!(mux.write_read(1, vec![5], 1, 0), (ReturnCode::EBUSY, None, Some(vec![5])));
    assert_eq!(mux.inflight(), Some(0));
    let (_, dispatch) = mux.command_complete(vec![1], Error::CommandComplete);
    assert_eq!(
        dispatch,
        Some(I2cRequest { addr: 0x20, transfer: I2cTransfer::Read { buffer: vec![3], len: 1 } })
    );
    // device 0 is free again while device 1 is under way
    assert_eq!(mux.write(0, vec![2], 1), (ReturnCode::SUCCESS, None, None));
}

#[test]
fn i2c_mux_stray_completion_and_missing_client() {
    let mut mux = MuxI2C::new();
    let device = mux.add_device(0x42);
    assert_eq!(mux.command_complete(vec![7], Error::Overrun), (Err(vec![7]), None));
    mux.write(device, vec![1], 1);
    let (delivery, _) = mux.command_complete(vec![1], Error::CommandComplete);
    assert_eq!(
        delivery,
        Ok(I2cDelivery { client: None, buffer: vec![1], error: Error::CommandComplete })
    );
    mux.set_client(5, 1);
    assert_eq!(mux.len(), 1);
}

#[test]
fn i2c_mux_power_follows_the_devices() {
    let mut mux = mux_with(&[1, 2]);
    assert_eq!(mux.disable(0), None);
    assert_eq!(mux.enable(0), Some(Power::Enable));
    assert_eq!(mux.enable(0), None);
    assert_eq!(mux.enable(1), None);
    assert_eq!(mux.enable(2), None);
    assert_eq!(mux.disable(0), None);
    assert_eq!(mux.disable(0), None);
    assert_eq!(mux.disable(1), Some(Power::Disable));
    assert_eq!(mux.enable(1), Some(Power::Enable));
}

#[test]
fn pwm_mux_hands_requests_over_at_once() {
    let mut mux = MuxPwm::new();
    assert_eq!(PwmPinUser::new(7).add_to_mux(&mut mux), 0);
    assert_eq!(PwmPinUser::new(9).add_to_mux(&mut mux), 1);
    assert_eq!(mux.len(), 2);
    assert_eq!(
        mux.start(1, 1000, 50),
        (
            ReturnCode::SUCCESS,
            vec![PinRequest::Start { channel: 9, frequency_hz: 1000, duty_cycle: 50 }]
        )
    );
    assert_eq!(mux.user(1), Some(PwmPinUser { pin: 9, operation: None }));
    assert_eq!(mux.stop(0), (ReturnCode::SUCCESS, vec![PinRequest::Stop { channel: 7 }]));
    assert_eq!(mux.start(2, 1, 1), (ReturnCode::ENODEVICE, vec![]));
    assert_eq!(mux.stop(2), (ReturnCode::ENODEVICE, vec![]));
    assert_eq!(mux.do_next_op(), vec![]);
    assert_eq!(mux.user(2), None);
    assert_eq!(request_for(Operation::Stop, 3), PinRequest::Stop { channel: 3 });
}

#[test]
fn pwm_mux_serves_pending_users_in_registration_order() {
    let mut mux = MuxPwm::new();
    // users that registered with a request pending
    PwmPinUser { pin: 1, operation: Some(Operation::Stop) }.add_to_mux(&mut mux);
    PwmPinUser { pin: 2, operation: None }.add_to_mux(&mut mux);
    PwmPinUser {
        pin: 3,
        operation: Some(Operation::Simple { frequency_hz: 10, duty_cycle: 5 }),
    }
    .add_to_mux(&mut mux);
    assert_eq!(
        mux.stop(1).1,
        vec![
            PinRequest::Stop { channel: 1 },
            PinRequest::Stop { channel: 2 },
            PinRequest::Start { channel: 3, frequency_hz: 10, duty_cycle: 5 },
        ]
    );
    assert_eq!(mux.do_next_op(), vec![]);
}

#[test]
fn i2c_mux_counts_the_devices_that_want_it_on() {
    let mut mux = mux_with(&[1, 2, 3]);
    assert_eq!(mux.enabled(), 0);
    mux.enable(2);
    mux.enable(0);
    mux.enable(0);
    mux.enable(7);
    assert_eq!(mux.enabled(), 2);
    // transfers and new devices leave the count alone
    mux.write(1, vec![1], 1);
    mux.add_device(4);
    mux.set_client(1, 9);
    mux.command_complete(vec![1], Error::CommandComplete);
    assert_eq!(mux.enabled(), 2);
    assert_eq!(mux.enable(1), None);
    assert_eq!(mux.enable(3), None);
    assert_eq!(mux.enabled(), 4);
    assert_eq!(mux.disable(2), None);
    assert_eq!(mux.disable(0), None);
    assert_eq!(mux.disable(1), None);
    assert_eq!(mux.disable(1), None);
    assert_eq!(mux.enabled(), 1);
    assert_eq!(mux.disable(3), Some(Power::Disable));
    assert_eq!(mux.enabled(), 0);
}
