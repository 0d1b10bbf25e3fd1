//! One PWM controller shared by the users of its pins.
//!
//! The controller carries a request out at once, so nothing is ever under
//! way between two calls: a user marks its request as pending, and the
//! scheduling step hands every pending request to the controller, in
//! registration order of the users.

use vstd::prelude::*;
use crate::returncode::ReturnCode;

verus! {

/// What a user asks of its pin.
#[derive(Clone, Copy, Debug, PartialEq, Eq, Structural)]
pub enum Operation {
    /// Generate a signal of this frequency and duty cycle.
    Simple { frequency_hz: usize, duty_cycle: usize },
    /// Stop the signal.
    Stop,
}

/// What a pin is asked to do.
#[derive(Clone, Copy, Debug, PartialEq, Eq, Structural)]
pub enum PinRequest {
    Start { channel: usize, frequency_hz: usize, duty_cycle: usize },
    Stop { channel: usize },
}

/// One user of the controller, bound to a pin.
#[derive(Clone, Copy, Debug, PartialEq, Eq, Structural)]
pub struct PwmPinUser {
    pub pin: usize,
    pub operation: Option<Operation>,
}

/// The request that carries `command` out on pin `channel`.
pub open spec fn spec_request_for(command: Operation, channel: usize) -> PinRequest {
    match command {
        Operation::Simple { frequency_hz, duty_cycle } => PinRequest::Start {
            channel,
            frequency_hz,
            duty_cycle,
        },
        Operation::Stop => PinRequest::Stop { channel },
    }
}

/// The request that carries `command` out on pin `channel`.
#[verifier::when_used_as_spec(spec_request_for)]
pub fn request_for(command: Operation, channel: usize) -> (request: PinRequest)
    ensures
        request == spec_request_for(command, channel),
{
    match command {
        Operation::Simple { frequency_hz, duty_cycle } => PinRequest::Start {
            channel,
            frequency_hz,
            duty_cycle,
        },
        Operation::Stop => PinRequest::Stop { channel },
    }
}

/// The requests of the users from `from` on that have one pending, in
/// registration order.
pub open spec fn requests_from(devices: Seq<PwmPinUser>, from: int) -> Seq<PinRequest>
    decreases devices.len() - from,
{
    if from < 0 || from >= devices.len() {
        Seq::empty()
    } else {
        let rest = requests_from(devices, from + 1);
        match devices[from].operation {
            Some(operation) => seq![spec_request_for(operation, devices[from].pin)] + rest,
            None => rest,
        }
    }
}

/// The users with nothing pending.
pub open spec fn cleared(devices: Seq<PwmPinUser>) -> Seq<PwmPinUser> {
    Seq::new(devices.len(), |i: int| PwmPinUser { operation: None, ..devices[i] })
}

/// With at most one user pending, the scheduling step hands over exactly
/// that user's request.
pub proof fn lemma_single_request(devices: Seq<PwmPinUser>, user: int, from: int)
    requires
        0 <= from <= devices.len(),
        0 <= user < devices.len(),
        devices[user].operation is Some,
        forall|j: int| 0 <= j < devices.len() && j != user ==> devices[j].operation is None,
    ensures
        requests_from(devices, from) == if from <= user {
            seq![spec_request_for(devices[user].operation->0, devices[user].pin)]
        } else {
            Seq::<PinRequest>::empty()
        },
    decreases devices.len() - from,
{
    if from < devices.len() {
        lemma_single_request(devices, user, from + 1);
        if from == user {
            assert(requests_from(devices, from) =~= seq![
                spec_request_for(devices[user].operation->0, devices[user].pin),
            ]);
        } else {
            assert(requests_from(devices, from) =~= requests_from(devices, from + 1));
        }
    }
}

/// The multiplexer: the users in registration order.
pub struct MuxPwm {
    devices: Vec<PwmPinUser>,
}

impl View for MuxPwm {
    type V = Seq<PwmPinUser>;

    closed spec fn view(&self) -> Seq<PwmPinUser> {
        self.devices@
    }
}

impl MuxPwm {
    /// A multiplexer with no users.
    pub fn new() -> (mux: MuxPwm)
        ensures
            mux@.len() == 0,
    {
        MuxPwm { devices: Vec::new() }
    }

    /// The number of registered users.
    pub fn len(&self) -> (n: usize)
        ensures
            n == self@.len(),
    {
        self.devices.len()
    }

    /// The user registered under `user`, if there is one.
    pub fn user(&self, user: usize) -> (r: Option<PwmPinUser>)
        ensures
            r == if user < self@.len() {
                Some(self@[user as int])
            } else {
                None
            },
    {
        if user < self.devices.len() {
            Some(self.devices[user])
        } else {
            None
        }
    }

    /// The scheduling step: every pending request is taken from its user
    /// and handed back for the controller, in registration order.
    pub fn do_next_op(&mut self) -> (requests: Vec<PinRequest>)
        ensures
            requests@ == requests_from(old(self)@, 0),
            final(self)@ == cleared(old(self)@),
    {
        let n: usize = self.devices.len();
        let mut requests: Vec<PinRequest> = Vec::new();
        let mut i: usize = n;
        while i > 0
            invariant
                i <= n,
                n == self.devices@.len(),
                n == old(self)@.len(),
                requests@ == requests_from(old(self)@, i as int),
                forall|j: int| 0 <= j < i ==> self.devices@[j] == old(self)@[j],
                forall|j: int|
                    i <= j < n ==> self.devices@[j] == (PwmPinUser {
                        operation: None,
                        ..old(self)@[j]
                    }),
            decreases i,
        {
            i -= 1;
            let node: PwmPinUser = self.devices[i];
            match node.operation {
                Some(operation) => {
                    self.devices[i] = PwmPinUser { operation: None, ..node };
                    requests.insert(0, request_for(operation, node.pin));
                    assert(requests@ =~= requests_from(old(self)@, i as int));
                },
                None => {},
            }
        }
        assert(self.devices@ =~= cleared(old(self)@));
        requests
    }

    /// User `user` asks for `operation`: it is marked pending and the
    /// scheduling step runs. An unknown user is refused with `ENODEVICE` and
    /// nothing changes.
    fn submit(&mut self, user: usize, operation: Operation) -> (r: (ReturnCode, Vec<PinRequest>))
        ensures
            r.0 == if user < old(self)@.len() {
                ReturnCode::SUCCESS
            } else {
                ReturnCode::ENODEVICE
            },
            user < old(self)@.len() ==> r.1@ == requests_from(
                old(self)@.update(
                    user as int,
                    PwmPinUser { operation: Some(operation), ..old(self)@[user as int] },
                ),
                0,
            ) && final(self)@ == cleared(old(self)@),
            user >= old(self)@.len() ==> r.1@.len() == 0 && final(self)@ == old(self)@,
    {
        if user < self.devices.len() {
            let node: PwmPinUser = self.devices[user];
            self.devices[user] = PwmPinUser { operation: Some(operation), ..node };
            let requests = self.do_next_op();
            proof {
                assert(self.devices@ =~= cleared(old(self)@));
            }
            (ReturnCode::SUCCESS, requests)
        } else {
            (ReturnCode::ENODEVICE, Vec::new())
        }
    }

    /// User `user` starts a signal on its pin.
    pub fn start(&mut self, user: usize, frequency_hz: usize, duty_cycle: usize) -> (r: (
        ReturnCode,
        Vec<PinRequest>,
    ))
        ensures
            r.0 == if user < old(self)@.len() {
                ReturnCode::SUCCESS
            } else {
                ReturnCode::ENODEVICE
            },
            user < old(self)@.len() ==> r.1@ == requests_from(
                old(self)@.update(
                    user as int,
                    PwmPinUser {
                        operation: Some(Operation::Simple { frequency_hz, duty_cycle }),
                        ..old(self)@[user as int]
                    },
                ),
                0,
            ) && final(self)@ == cleared(old(self)@),
            user >= old(self)@.len() ==> r.1@.len() == 0 && final(self)@ == old(self)@,
    {
        self.submit(user, Operation::Simple { frequency_hz, duty_cycle })
    }

    /// User `user` stops the signal on its pin.
    pub fn stop(&mut self, user: usize) -> (r: (ReturnCode, Vec<PinRequest>))
        ensures
            r.0 == if user < old(self)@.len() {
                ReturnCode::SUCCESS
            } else {
                ReturnCode::ENODEVICE
            },
            user < old(self)@.len() ==> r.1@ == requests_from(
                old(self)@.update(
                    user as int,
                    PwmPinUser { operation: Some(Operation::Stop), ..old(self)@[user as int] },
                ),
                0,
            ) && final(self)@ == cleared(old(self)@),
            user >= old(self)@.len() ==> r.1@.len() == 0 && final(self)@ == old(self)@,
    {
        self.submit(user, Operation::Stop)
    }
}

impl PwmPinUser {
    /// A user bound to `pin`, with nothing pending.
    pub fn new(pin: usize) -> (user: PwmPinUser)
        ensures
            user == (PwmPinUser { pin, operation: None }),
    {
        PwmPinUser { pin, operation: None }
    }

    /// Registers the user with `mux`, behind all users registered before,
    /// and returns the index it is known by from now on.
    pub fn add_to_mux(self, mux: &mut MuxPwm) -> (index: usize)
        ensures
            index == old(mux)@.len(),
            final(mux)@ == old(mux)@.push(self),
    {
        let index: usize = mux.devices.len();
        mux.devices.push(self);
        index
    }
}

} // verus!
