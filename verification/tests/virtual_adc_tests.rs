use tockmux::capsules::virtual_adc::{AdcUser, MuxAdc, Operation};
use tockmux::hil::adc::{AdcRequest, SampleReady};
use tockmux::returncode::ReturnCode;

fn mux_with(channels: &[usize]) -> MuxAdc {
    let mut mux = MuxAdc::new();
    for (i, channel) in channels.iter().enumerate() {
        assert!(!mux.has_channel(*channel));
        let index = AdcUser::new(*channel).add_to_mux(&mut mux);
        assert_eq!(index, i);
        mux.set_client(index, 100 + i);
    }
    mux
}

#[test]
fn new_mux_is_empty_and_free() {
    let mux = MuxAdc::new();
    assert_eq!(mux.len(), 0);
    assert_eq!(mux.inflight(), None);
    assert_eq!(mux.user(0), None);
}

#[test]
fn new_user_has_nothing_pending() {
    let user = AdcUser::new(7);
    assert_eq!(user.channel, 7);
    assert_eq!(user.operation, None);
    assert_eq!(user.client, None);
}

#[test]
fn sample_on_free_converter_dispatches_at_once() {
    let mut mux = mux_with(&[4, 9]);
    let (code, dispatch) = mux.sample(1);
    assert_eq!(code, ReturnCode::SUCCESS);
    assert_eq!(dispatch, Some(AdcRequest::Sample { channel: 9 }));
    assert_eq!(mux.inflight(), Some(1));
    assert_eq!(mux.user(1).unwrap().operation, None);
}

#[test]
fn sample_while_busy_stays_pending() {
    let mut mux = mux_with(&[4, 9]);
    mux.sample(1);
    let (code, dispatch) = mux.sample(0);
    assert_eq!(code, ReturnCode::SUCCESS);
    assert_eq!(dispatch, None);
    assert_eq!(mux.inflight(), Some(1));
    assert_eq!(mux.user(0).unwrap().operation, Some(Operation::SingleSample));
}

#[test]
fn at_most_one_operation_is_outstanding() {
    let mut mux = mux_with(&[0, 1, 2]);
    let mut outstanding = 0;
    for user in [2usize, 0, 1, 2, 0] {
        if mux.sample(user).1.is_some() {
            outstanding += 1;
        }
        assert!(outstanding <= 1);
        assert_eq!(outstanding == 1, mux.inflight().is_some());
    }
    for _ in 0..4 {
        if mux.inflight().is_some() {
            outstanding -= 1;
            if mux.sample_ready(1).1.is_some() {
                outstanding += 1;
            }
        }
        assert!(outstanding <= 1);
        assert_eq!(outstanding == 1, mux.inflight().is_some());
    }
    assert_eq!(outstanding, 0);
}

#[test]
fn pending_users_are_served_in_registration_order() {
    // users A, B, C on channels 10, 20, 30, and a fourth that keeps the
    // converter busy while the three submit in reverse order
    let mut mux = mux_with(&[10, 20, 30, 40]);
    assert_eq!(mux.sample(3).1, Some(AdcRequest::Sample { channel: 40 }));
    assert_eq!(mux.sample(2).1, None);
    assert_eq!(mux.sample(1).1, None);
    assert_eq!(mux.sample(0).1, None);
    let mut order = Vec::new();
    for _ in 0..4 {
        if let (_, Some(AdcRequest::Sample { channel })) = mux.sample_ready(0) {
            order.push(channel);
        }
    }
    assert_eq!(order, vec![10, 20, 30]);
    assert_eq!(mux.inflight(), None);
}

#[test]
fn do_next_op_takes_first_pending_user() {
    let mut mux = mux_with(&[10, 20, 30]);
    mux.sample(1);
    mux.sample(2);
    mux.sample(0);
    // user 1 is in flight; 0 and 2 are pending
    assert_eq!(mux.do_next_op(), None);
    assert_eq!(mux.sample_ready(3).1, Some(AdcRequest::Sample { channel: 10 }));
    assert_eq!(mux.do_next_op(), None);
    assert_eq!(mux.sample_ready(3).1, Some(AdcRequest::Sample { channel: 30 }));
    assert_eq!(mux.sample_ready(3), (Some(SampleReady { client: 102, sample: 3 }), None));
    assert_eq!(mux.do_next_op(), None);
}

#[test]
fn two_channels_sampled_in_turn() {
    // channels {0, 1}; sample on channel 1 first, then on channel 0 before
    // channel 1 completes
    let mut mux = mux_with(&[0, 1]);
    assert_eq!(mux.sample(1), (ReturnCode::SUCCESS, Some(AdcRequest::Sample { channel: 1 })));
    assert_eq!(mux.sample(0), (ReturnCode::SUCCESS, None));
    let (delivery, dispatch) = mux.sample_ready(500);
    assert_eq!(delivery, Some(SampleReady { client: 101, sample: 500 }));
    assert_eq!(dispatch, Some(AdcRequest::Sample { channel: 0 }));
    let (delivery, dispatch) = mux.sample_ready(7);
    assert_eq!(delivery, Some(SampleReady { client: 100, sample: 7 }));
    assert_eq!(dispatch, None);
}

#[test]
fn sample_without_client_is_delivered_to_nobody() {
    let mut mux = MuxAdc::new();
    let user = AdcUser::new(3).add_to_mux(&mut mux);
    mux.sample(user);
    assert_eq!(mux.sample_ready(9), (None, None));
    assert_eq!(mux.inflight(), None);
}

#[test]
fn stray_sample_changes_nothing() {
    let mut mux = mux_with(&[0, 1]);
    assert_eq!(mux.sample_ready(9), (None, None));
    assert_eq!(mux.inflight(), None);
}

#[test]
fn stop_sampling_withdraws_a_pending_request() {
    let mut mux = mux_with(&[0, 1]);
    mux.sample(0);
    mux.sample(1);
    assert_eq!(mux.stop_sampling(1), (ReturnCode::SUCCESS, None));
    assert_eq!(mux.user(1).unwrap().operation, None);
    let (delivery, dispatch) = mux.sample_ready(5);
    assert_eq!(delivery, Some(SampleReady { client: 100, sample: 5 }));
    assert_eq!(dispatch, None);
}

#[test]
fn unknown_user_is_refused() {
    let mut mux = mux_with(&[0]);
    assert_eq!(mux.sample(1), (ReturnCode::ENODEVICE, None));
    assert_eq!(mux.stop_sampling(5), (ReturnCode::ENODEVICE, None));
    assert_eq!(mux.inflight(), None);
    mux.set_client(3, 1);
    assert_eq!(mux.len(), 1);
}

#[test]
fn fixed_answers_of_a_channel() {
    let mux = mux_with(&[0]);
    assert_eq!(mux.sample_continuous(0), ReturnCode::ENOSUPPORT);
    assert_eq!(mux.get_resolution_bits(), 12);
    assert_eq!(mux.get_voltage_reference_mv(), Some(3300));
    assert!(mux.has_channel(0));
    assert!(!mux.has_channel(1));
}

#[test]
fn return_codes_as_numbers() {
    assert_eq!(ReturnCode::SUCCESS.to_isize(), 0);
    assert_eq!(ReturnCode::FAIL.to_isize(), -1);
    assert_eq!(ReturnCode::EBUSY.to_isize(), -2);
    assert_eq!(ReturnCode::ENOMEM.to_isize(), -9);
    assert_eq!(ReturnCode::ENOACK.to_isize(), -13);
    assert_eq!(ReturnCode::SuccessWithValue { value: 5 }.to_isize(), 5);
    assert_eq!(ReturnCode::FAIL.to_usize(), usize::MAX);
    assert!(ReturnCode::SUCCESS.is_success());
    assert!(!ReturnCode::EBUSY.is_success());
}

#[test]
fn registration_goes_behind_and_keeps_the_others_first() {
    let mut mux = mux_with(&[10, 20]);
    mux.sample(1);
    mux.sample(0);
    // user 1 is in flight and user 0 pending when a third registers
    let late = AdcUser { channel: 5, operation: Some(Operation::SingleSample), client: Some(7) };
    assert_eq!(late.add_to_mux(&mut mux), 2);
    assert_eq!(mux.len(), 3);
    assert_eq!(mux.inflight(), Some(1));
    assert_eq!(mux.user(0).unwrap().operation, Some(Operation::SingleSample));
    assert_eq!(mux.user(1), Some(AdcUser { channel: 20, operation: None, client: Some(101) }));
    assert_eq!(mux.user(2), Some(late));
    assert_eq!(mux.sample_ready(1).1, Some(AdcRequest::Sample { channel: 10 }));
    assert_eq!(mux.sample_ready(2).1, Some(AdcRequest::Sample { channel: 5 }));
    assert_eq!(mux.sample_ready(3), (Some(SampleReady { client: 7, sample: 3 }), None));
}

#[test]
fn many_pending_users_are_served_in_registration_order() {
    let channels: Vec<usize> = (0..20).map(|i| 100 - i).collect();
    let mut mux = mux_with(&channels);
    mux.sample(19);
    for user in [17usize, 3, 11, 0, 8, 5] {
        assert_eq!(mux.sample(user).1, None);
    }
    let mut served = Vec::new();
    while let (_, Some(AdcRequest::Sample { channel })) = mux.sample_ready(0) {
        served.push(100 - channel);
    }
    assert_eq!(served, vec![0, 3, 5, 8, 11, 17]);
}
