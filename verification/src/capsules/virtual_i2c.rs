//! One I2C controller shared by many devices, each at its own address.
//!
//! A device hands its buffer and its transfer to the multiplexer, where they
//! wait in the device's slot. Whenever the controller is free the
//! multiplexer takes the transfer of the first waiting device, in
//! registration order, and dispatches it with the buffer. When the
//! controller is done, the buffer goes back to that device's client and the
//! next waiting device is dispatched.
//!
//! A device has one slot: a transfer handed in while the device has one
//! waiting or under way is refused with `EBUSY`, and its buffer comes back
//! at once. A slot without a transfer never occupies the controller.

use vstd::prelude::*;
use crate::hil::i2c::{Error, I2cTransfer};
use crate::returncode::ReturnCode;

verus! {

/// The transfer that waits in a device's slot.
#[derive(Clone, Copy, Debug, PartialEq, Eq, Structural)]
pub enum Op {
    /// Nothing waits.
    Idle,
    /// Send this many bytes.
    Write(u8),
    /// Receive this many bytes.
    Read(u8),
    /// Send the first number of bytes, then receive the second.
    WriteRead(u8, u8),
}

/// One device on the bus.
#[derive(Debug, PartialEq, Eq)]
pub struct I2CDevice {
    pub addr: u8,
    pub enabled: bool,
    /// The buffer of the transfer that waits.
    pub buffer: Option<Vec<u8>>,
    pub operation: Op,
    pub client: Option<usize>,
}

/// A transfer on its way to the controller, for the device at `addr`.
#[derive(Debug, PartialEq, Eq)]
pub struct I2cRequest {
    pub addr: u8,
    pub transfer: I2cTransfer,
}

/// A buffer on its way back to the client of the device whose transfer it
/// carried, with how the transfer ended.
#[derive(Debug, PartialEq, Eq)]
pub struct I2cDelivery {
    /// The client of the device, if it has one.
    pub client: Option<usize>,
    pub buffer: Vec<u8>,
    pub error: Error,
}

/// What to do with the controller itself.
#[derive(Clone, Copy, Debug, PartialEq, Eq, Structural)]
pub enum Power {
    Enable,
    Disable,
}

/// The multiplexer as a mathematical value: its devices in registration
/// order, how many of them are enabled, and the index of the device whose
/// transfer is with the controller.
pub struct MuxI2CView {
    pub devices: Seq<I2CDevice>,
    pub enabled: usize,
    pub inflight: Option<usize>,
}

/// The device has a transfer waiting, with its buffer.
pub open spec fn waits(device: I2CDevice) -> bool {
    !(device.operation is Idle) && device.buffer is Some
}

/// Index of the first device at or after `from` that has a transfer waiting,
/// or the number of devices if there is none.
pub open spec fn first_waiting_from(devices: Seq<I2CDevice>, from: int) -> int
    decreases devices.len() - from,
{
    if from < 0 || from >= devices.len() {
        devices.len() as int
    } else if waits(devices[from]) {
        from
    } else {
        first_waiting_from(devices, from + 1)
    }
}

/// `first_waiting_from` finds the first waiting device, and returns the
/// number of devices exactly when nobody waits from `from` on.
pub proof fn lemma_first_waiting_from(devices: Seq<I2CDevice>, from: int)
    requires
        0 <= from <= devices.len(),
    ensures
        from <= first_waiting_from(devices, from) <= devices.len(),
        forall|j: int| from <= j < first_waiting_from(devices, from) ==> !waits(devices[j]),
        first_waiting_from(devices, from) < devices.len() ==> waits(
            devices[first_waiting_from(devices, from)],
        ),
    decreases devices.len() - from,
{
    if from < devices.len() && !waits(devices[from]) {
        lemma_first_waiting_from(devices, from + 1);
    }
}

/// The number of devices that want the controller on.
pub open spec fn count_enabled(devices: Seq<I2CDevice>) -> nat
    decreases devices.len(),
{
    if devices.len() == 0 {
        0
    } else {
        count_enabled(devices.drop_last()) + if devices.last().enabled {
            1nat
        } else {
            0nat
        }
    }
}

/// No more devices want the controller on than there are.
pub proof fn lemma_count_bounded(devices: Seq<I2CDevice>)
    ensures
        count_enabled(devices) <= devices.len(),
    decreases devices.len(),
{
    if devices.len() > 0 {
        lemma_count_bounded(devices.drop_last());
    }
}

/// The count changes only with what the devices want: if all but device `i`
/// want the same in `a` and in `b`, the counts differ by what device `i`
/// wants.
pub proof fn lemma_count_changes_at(a: Seq<I2CDevice>, b: Seq<I2CDevice>, i: int)
    requires
        a.len() == b.len(),
        forall|j: int| 0 <= j < a.len() && j != i ==> a[j].enabled == b[j].enabled,
    ensures
        0 <= i < a.len() && !a[i].enabled && b[i].enabled ==> count_enabled(b) == count_enabled(a)
            + 1,
        0 <= i < a.len() && a[i].enabled && !b[i].enabled ==> count_enabled(a) == count_enabled(b)
            + 1,
        !(0 <= i < a.len()) || a[i].enabled == b[i].enabled ==> count_enabled(a) == count_enabled(
            b,
        ),
    decreases a.len(),
{
    if a.len() > 0 {
        lemma_count_changes_at(a.drop_last(), b.drop_last(), i);
    }
}

/// A device that joins without wanting the controller on leaves the count
/// as it was.
pub proof fn lemma_count_push(devices: Seq<I2CDevice>, device: I2CDevice)
    ensures
        count_enabled(devices.push(device)) == count_enabled(devices) + if device.enabled {
            1nat
        } else {
            0nat
        },
{
    assert(devices.push(device).drop_last() =~= devices);
}

/// The transfer that carries `operation` out with `buffer`.
pub open spec fn transfer_for(operation: Op, buffer: Vec<u8>) -> I2cTransfer {
    match operation {
        Op::Write(len) => I2cTransfer::Write { buffer, len },
        Op::Read(len) => I2cTransfer::Read { buffer, len },
        Op::WriteRead(write_len, read_len) => I2cTransfer::WriteRead { buffer, write_len, read_len },
        Op::Idle => I2cTransfer::Write { buffer, len: 0 },
    }
}

impl MuxI2CView {
    /// The in-flight index names a device, the device in flight has an
    /// empty slot, and the counter of enabled devices is the number of
    /// devices that want the controller on.
    pub open spec fn wf(self) -> bool {
        &&& self.inflight is Some ==> self.inflight->0 < self.devices.len()
            && self.devices[self.inflight->0 as int].operation is Idle
            && self.devices[self.inflight->0 as int].buffer is None
        &&& self.enabled == count_enabled(self.devices)
        &&& self.devices.len() <= usize::MAX
    }

    /// Device `i` can take a transfer: it exists, its slot is empty, and
    /// no transfer of it is with the controller.
    pub open spec fn free(self, i: usize) -> bool {
        &&& i < self.devices.len()
        &&& self.devices[i as int].operation is Idle
        &&& self.inflight != Some(i)
    }

    /// The scheduling step: with the controller free, the slot of the first
    /// waiting device is emptied, the device becomes in flight, and its
    /// transfer is dispatched with its buffer; otherwise nothing changes.
    pub open spec fn do_next_op(self) -> (MuxI2CView, Option<I2cRequest>) {
        let i = first_waiting_from(self.devices, 0);
        if self.inflight is None && i < self.devices.len() {
            let node = self.devices[i];
            (
                MuxI2CView {
                    devices: self.devices.update(
                        i,
                        I2CDevice { buffer: None, operation: Op::Idle, ..node },
                    ),
                    inflight: Some(i as usize),
                    ..self
                },
                Some(
                    I2cRequest {
                        addr: node.addr,
                        transfer: transfer_for(node.operation, node.buffer->0),
                    },
                ),
            )
        } else {
            (self, None)
        }
    }

    /// The multiplexer with a transfer and its buffer in the slot of device
    /// `i`.
    pub open spec fn with_transfer(self, i: usize, data: Vec<u8>, operation: Op) -> MuxI2CView {
        MuxI2CView {
            devices: self.devices.update(
                i as int,
                I2CDevice { buffer: Some(data), operation, ..self.devices[i as int] },
            ),
            ..self
        }
    }

    /// The code that a transfer handed in for device `i` is answered with.
    pub open spec fn submit_code(self, i: usize, operation: Op) -> ReturnCode {
        if i >= self.devices.len() {
            ReturnCode::ENODEVICE
        } else if operation is Idle {
            ReturnCode::EINVAL
        } else if !self.free(i) {
            ReturnCode::EBUSY
        } else {
            ReturnCode::SUCCESS
        }
    }

    /// The multiplexer after a transfer is handed in for device `i`, and
    /// what is dispatched: an accepted transfer goes into the slot and the
    /// scheduling step runs; a refused one changes nothing.
    pub open spec fn submit(self, i: usize, data: Vec<u8>, operation: Op) -> (
        MuxI2CView,
        Option<I2cRequest>,
    ) {
        if self.submit_code(i, operation) is SUCCESS {
            self.with_transfer(i, data, operation).do_next_op()
        } else {
            (self, None)
        }
    }

    /// Whom the buffer goes to that the controller hands back: the client
    /// of the device in flight.
    pub open spec fn delivery(self, buffer: Vec<u8>, error: Error) -> Option<I2cDelivery> {
        if self.inflight is Some {
            Some(
                I2cDelivery {
                    client: self.devices[self.inflight->0 as int].client,
                    buffer,
                    error,
                },
            )
        } else {
            None
        }
    }

    /// The controller is done: the device in flight is released and the
    /// scheduling step runs.
    pub open spec fn command_complete(self) -> (MuxI2CView, Option<I2cRequest>) {
        (MuxI2CView { inflight: None, ..self }).do_next_op()
    }

    /// How many transfers the controller has been given and not yet
    /// answered.
    pub open spec fn outstanding(self) -> nat {
        if self.inflight is Some {
            1
        } else {
            0
        }
    }
}

/// The scheduling step keeps the multiplexer well formed, dispatches only
/// when the controller is free, and leaves it busy exactly when it
/// dispatched or was busy before.
pub proof fn lemma_do_next_op(s: MuxI2CView)
    requires
        s.wf(),
    ensures
        s.do_next_op().0.wf(),
        s.do_next_op().1 is Some ==> s.inflight is None && s.do_next_op().0.inflight is Some,
        s.do_next_op().1 is None ==> s.do_next_op().0 == s,
        s.do_next_op().0.devices.len() == s.devices.len(),
        s.do_next_op().0.outstanding() == s.outstanding() + (if s.do_next_op().1 is Some {
            1nat
        } else {
            0nat
        }),
{
    lemma_first_waiting_from(s.devices, 0);
    lemma_count_changes_at(s.devices, s.do_next_op().0.devices, -1);
}

/// Mutual exclusion: a transfer is dispatched only while none is with the
/// controller, whatever is handed in and whenever the controller is done;
/// so at most one is ever outstanding.
pub proof fn lemma_mutual_exclusion(s: MuxI2CView, i: usize, data: Vec<u8>, operation: Op)
    requires
        s.wf(),
    ensures
        s.submit(i, data, operation).0.wf(),
        s.submit(i, data, operation).1 is Some ==> s.inflight is None,
        s.submit(i, data, operation).0.outstanding() <= 1,
        s.command_complete().0.wf(),
        s.command_complete().0.outstanding() <= 1,
        s.inflight is Some && s.submit(i, data, operation).1 is None ==> s.submit(
            i,
            data,
            operation,
        ).0.inflight == s.inflight,
{
    if s.submit_code(i, operation) is SUCCESS {
        lemma_count_changes_at(s.devices, s.with_transfer(i, data, operation).devices, -1);
        lemma_do_next_op(s.with_transfer(i, data, operation));
    }
    lemma_do_next_op(MuxI2CView { inflight: None, ..s });
}

/// Head-order scheduling: when the controller is free, the transfer
/// dispatched is that of the first waiting device in registration order,
/// with the buffer that was handed in with it.
pub proof fn lemma_head_order(s: MuxI2CView, i: int)
    requires
        s.wf(),
        s.inflight is None,
        0 <= i < s.devices.len(),
        waits(s.devices[i]),
        forall|j: int| 0 <= j < i ==> !waits(s.devices[j]),
    ensures
        s.do_next_op().1 == Some(
            I2cRequest {
                addr: s.devices[i].addr,
                transfer: transfer_for(s.devices[i].operation, s.devices[i].buffer->0),
            },
        ),
        s.do_next_op().0.inflight == Some(i as usize),
{
    lemma_first_waiting_from(s.devices, 0);
    let f = first_waiting_from(s.devices, 0);
    if i < f {
        assert(!waits(s.devices[i]));
    } else if f < i {
        assert(!waits(s.devices[f]));
    }
}

/// No buffer is lost or doubled. A refused transfer leaves the multiplexer
/// as it was. An accepted one puts the buffer either into the transfer that
/// is dispatched at once or into the device's slot, where it waits; and the
/// buffer that the controller hands back goes to the client of the device in
/// flight, whose slot was emptied when its transfer was dispatched.
pub proof fn lemma_buffers(s: MuxI2CView, i: usize, data: Vec<u8>, operation: Op, error: Error)
    requires
        s.wf(),
    ensures
        !(s.submit_code(i, operation) is SUCCESS) ==> s.submit(i, data, operation) == (
            s,
            None::<I2cRequest>,
        ),
        s.submit_code(i, operation) is SUCCESS ==> {
            let (after, dispatched) = s.submit(i, data, operation);
            if after.inflight == Some(i) {
                &&& dispatched == Some(
                    I2cRequest { addr: s.devices[i as int].addr, transfer: transfer_for(operation, data) },
                )
                &&& after.devices[i as int].buffer is None
            } else {
                after.devices[i as int].buffer == Some(data)
            }
        },
        s.inflight is Some ==> s.delivery(data, error) == Some(
            I2cDelivery { client: s.devices[s.inflight->0 as int].client, buffer: data, error },
        ) && s.devices[s.inflight->0 as int].buffer is None,
{
    if s.submit_code(i, operation) is SUCCESS {
        let t = s.with_transfer(i, data, operation);
        lemma_first_waiting_from(t.devices, 0);
        let f = first_waiting_from(t.devices, 0);
        assert(waits(t.devices[i as int]));
        assert(f <= i);
    }
}

/// The multiplexer.
pub struct MuxI2C {
    devices: Vec<I2CDevice>,
    enabled: usize,
    inflight: Option<usize>,
}

impl View for MuxI2C {
    type V = MuxI2CView;

    closed spec fn view(&self) -> MuxI2CView {
        MuxI2CView { devices: self.devices@, enabled: self.enabled, inflight: self.inflight }
    }
}

impl MuxI2C {
    /// A multiplexer with no devices and the controller free.
    pub fn new() -> (mux: MuxI2C)
        ensures
            mux@.devices.len() == 0,
            mux@.enabled == 0,
            mux@.inflight is None,
            mux@.wf(),
    {
        MuxI2C { devices: Vec::new(), enabled: 0, inflight: None }
    }

    /// The number of registered devices.
    pub fn len(&self) -> (n: usize)
        ensures
            n == self@.devices.len(),
    {
        self.devices.len()
    }

    /// The index of the device in flight, if any.
    pub fn inflight(&self) -> (r: Option<usize>)
        ensures
            r == self@.inflight,
    {
        self.inflight
    }

    /// Whether device `i` can take a transfer.
    pub fn is_free(&self, i: usize) -> (r: bool)
        ensures
            r == self@.free(i),
    {
        if i >= self.devices.len() {
            return false;
        }
        let idle: bool = match self.devices[i].operation {
            Op::Idle => true,
            _ => false,
        };
        let flying: bool = match self.inflight {
            Some(j) => j == i,
            None => false,
        };
        idle && !flying
    }

    /// Registers a device at `addr`, behind all devices registered before,
    /// and returns the index it is known by from now on.
    pub fn add_device(&mut self, addr: u8) -> (index: usize)
        requires
            old(self)@.wf(),
        ensures
            index == old(self)@.devices.len(),
            final(self)@ == (MuxI2CView {
                devices: old(self)@.devices.push(
                    I2CDevice {
                        addr,
                        enabled: false,
                        buffer: None,
                        operation: Op::Idle,
                        client: None,
                    },
                ),
                ..old(self)@
            }),
            final(self)@.wf(),
    {
        proof {
            lemma_count_push(
                self@.devices,
                I2CDevice { addr, enabled: false, buffer: None, operation: Op::Idle, client: None },
            );
        }
        self.devices.push(
            I2CDevice { addr, enabled: false, buffer: None, operation: Op::Idle, client: None },
        );
        self.devices.len() - 1
    }

    /// Registers the client that buffers of device `i` go back to. An
    /// unknown device changes nothing.
    pub fn set_client(&mut self, i: usize, client: usize)
        requires
            old(self)@.wf(),
        ensures
            final(self)@.wf(),
            final(self)@.devices.len() == old(self)@.devices.len(),
            final(self)@.enabled == old(self)@.enabled,
            final(self)@.inflight == old(self)@.inflight,
            forall|j: int|
                0 <= j < old(self)@.devices.len() && j != i ==> final(self)@.devices[j] == old(self)@
                    .devices[j],
            i < old(self)@.devices.len() ==> {
                let before = old(self)@.devices[i as int];
                let after = final(self)@.devices[i as int];
                &&& after.client == Some(client)
                &&& after.addr == before.addr
                &&& after.enabled == before.enabled
                &&& after.buffer == before.buffer
                &&& after.operation == before.operation
            },
    {
        if i < self.devices.len() {
            self.devices[i].client = Some(client);
        }
        proof {
            lemma_count_changes_at(old(self)@.devices, self@.devices, -1);
        }
    }

    /// Index of the first waiting device, or the number of devices.
    fn find_waiting(&self) -> (i: usize)
        ensures
            i == first_waiting_from(self@.devices, 0),
    {
        let n: usize = self.devices.len();
        let mut i: usize = 0;
        while i < n
            invariant
                n == self.devices@.len(),
                i <= n,
                first_waiting_from(self.devices@, 0) == first_waiting_from(
                    self.devices@,
                    i as int,
                ),
            decreases n - i,
        {
            let idle: bool = match self.devices[i].operation {
                Op::Idle => true,
                _ => false,
            };
            if !idle && self.devices[i].buffer.is_some() {
                return i;
            }
            i += 1;
        }
        i
    }

    /// The scheduling step. With the controller free, the transfer of the
    /// first waiting device in registration order is taken from its slot
    /// and handed back for dispatch; with the controller busy, or nobody
    /// waiting, nothing happens.
    pub fn do_next_op(&mut self) -> (dispatch: Option<I2cRequest>)
        requires
            old(self)@.wf(),
        ensures
            final(self)@ == old(self)@.do_next_op().0,
            dispatch == old(self)@.do_next_op().1,
            final(self)@.wf(),
    {
        proof {
            lemma_do_next_op(self@);
        }
        if self.inflight.is_some() {
            return None;
        }
        let i: usize = self.find_waiting();
        proof {
            lemma_first_waiting_from(self@.devices, 0);
        }
        if i < self.devices.len() {
            let operation: Op = self.devices[i].operation;
            let addr: u8 = self.devices[i].addr;
            let buffer: Vec<u8> = self.devices[i].buffer.take().unwrap();
            self.devices[i].operation = Op::Idle;
            self.inflight = Some(i);
            let transfer = match operation {
                Op::Write(len) => I2cTransfer::Write { buffer, len },
                Op::Read(len) => I2cTransfer::Read { buffer, len },
                Op::WriteRead(write_len, read_len) => I2cTransfer::WriteRead {
                    buffer,
                    write_len,
                    read_len,
                },
                Op::Idle => I2cTransfer::Write { buffer, len: 0 },
            };
            proof {
                assert(self.devices@ =~= old(self)@.devices.update(
                    i as int,
                    I2CDevice {
                        buffer: None,
                        operation: Op::Idle,
                        ..old(self)@.devices[i as int]
                    },
                ));
            }
            Some(I2cRequest { addr, transfer })
        } else {
            None
        }
    }

    /// Hands in a transfer for device `i` with its buffer.
    ///
    /// Refused with `ENODEVICE` for an unknown device, with `EINVAL` for
    /// no transfer at all, and with `EBUSY` while the device has a transfer
    /// waiting or under way; the buffer then comes back at once and nothing
    /// changes. Otherwise the transfer waits in the device's slot and the
    /// scheduling step runs.
    fn submit(&mut self, i: usize, data: Vec<u8>, operation: Op) -> (r: (
        ReturnCode,
        Option<I2cRequest>,
        Option<Vec<u8>>,
    ))
        requires
            old(self)@.wf(),
        ensures
            final(self)@.wf(),
            r.0 == old(self)@.submit_code(i, operation),
            (final(self)@, r.1) == old(self)@.submit(i, data, operation),
            r.2 == if r.0 is SUCCESS {
                None
            } else {
                Some(data)
            },
    {
        if i >= self.devices.len() {
            return (ReturnCode::ENODEVICE, None, Some(data));
        }
        if let Op::Idle = operation {
            return (ReturnCode::EINVAL, None, Some(data));
        }
        if !self.is_free(i) {
            return (ReturnCode::EBUSY, None, Some(data));
        }
        self.devices[i].buffer = Some(data);
        self.devices[i].operation = operation;
        proof {
            assert(self.devices@ =~= old(self)@.with_transfer(i, data, operation).devices);
            assert(self@ == old(self)@.with_transfer(i, data, operation));
            lemma_count_changes_at(old(self)@.devices, self@.devices, -1);
        }
        let dispatch = self.do_next_op();
        (ReturnCode::SUCCESS, dispatch, None)
    }

    /// Sends the first `len` bytes of `data` to device `i`.
    pub fn write(&mut self, i: usize, data: Vec<u8>, len: u8) -> (r: (
        ReturnCode,
        Option<I2cRequest>,
        Option<Vec<u8>>,
    ))
        requires
            old(self)@.wf(),
        ensures
            final(self)@.wf(),
            r.0 == old(self)@.submit_code(i, Op::Write(len)),
            (final(self)@, r.1) == old(self)@.submit(i, data, Op::Write(len)),
            r.2 == if r.0 is SUCCESS {
                None
            } else {
                Some(data)
            },
    {
        self.submit(i, data, Op::Write(len))
    }

    /// Receives `len` bytes from device `i` into `buffer`.
    pub fn read(&mut self, i: usize, buffer: Vec<u8>, len: u8) -> (r: (
        ReturnCode,
        Option<I2cRequest>,
        Option<Vec<u8>>,
    ))
        requires
            old(self)@.wf(),
        ensures
            final(self)@.wf(),
            r.0 == old(self)@.submit_code(i, Op::Read(len)),
            (final(self)@, r.1) == old(self)@.submit(i, buffer, Op::Read(len)),
            r.2 == if r.0 is SUCCESS {
                None
            } else {
                Some(buffer)
            },
    {
        self.submit(i, buffer, Op::Read(len))
    }

    /// Sends the first `write_len` bytes of `data` to device `i`, then
    /// receives `read_len` bytes into the same buffer.
    pub fn write_read(&mut self, i: usize, data: Vec<u8>, write_len: u8, read_len: u8) -> (r: (
        ReturnCode,
        Option<I2cRequest>,
        Option<Vec<u8>>,
    ))
        requires
            old(self)@.wf(),
        ensures
            final(self)@.wf(),
            r.0 == old(self)@.submit_code(i, Op::WriteRead(write_len, read_len)),
            (final(self)@, r.1) == old(self)@.submit(i, data, Op::WriteRead(write_len, read_len)),
            r.2 == if r.0 is SUCCESS {
                None
            } else {
                Some(data)
            },
    {
        self.submit(i, data, Op::WriteRead(write_len, read_len))
    }

    /// The controller is done and hands `buffer` back. The buffer goes to
    /// the client of the device in flight, that device is released, and the
    /// scheduling step runs. A buffer that arrives with nobody in flight has
    /// no client to go to and is handed back as it came.
    pub fn command_complete(&mut self, buffer: Vec<u8>, error: Error) -> (r: (
        Result<I2cDelivery, Vec<u8>>,
        Option<I2cRequest>,
    ))
        requires
            old(self)@.wf(),
        ensures
            final(self)@.wf(),
            final(self)@ == old(self)@.command_complete().0,
            r.1 == old(self)@.command_complete().1,
            match r.0 {
                Ok(delivery) => old(self)@.delivery(buffer, error) == Some(delivery),
                Err(stray) => old(self)@.inflight is None && stray == buffer,
            },
    {
        let delivery = match self.inflight {
            Some(i) => Ok(I2cDelivery { client: self.devices[i].client, buffer, error }),
            None => Err(buffer),
        };
        self.inflight = None;
        let dispatch = self.do_next_op();
        (delivery, dispatch)
    }

    /// The number of devices that want the controller on.
    pub fn enabled(&self) -> (n: usize)
        ensures
            n == self@.enabled,
    {
        self.enabled
    }

    /// Device `i` wants the controller on: the controller is to be enabled
    /// when the first device wants it. A device that wants it already, or
    /// does not exist, changes nothing.
    pub fn enable(&mut self, i: usize) -> (power: Option<Power>)
        requires
            old(self)@.wf(),
        ensures
            final(self)@.wf(),
            final(self)@.devices.len() == old(self)@.devices.len(),
            final(self)@.inflight == old(self)@.inflight,
            forall|j: int|
                0 <= j < old(self)@.devices.len() && j != i ==> final(self)@.devices[j] == old(self)@
                    .devices[j],
            ({
                let changes = i < old(self)@.devices.len() && !old(self)@.devices[i as int].enabled;
                &&& final(self)@.enabled == old(self)@.enabled + if changes {
                    1int
                } else {
                    0int
                }
                &&& power == if changes && old(self)@.enabled == 0 {
                    Some(Power::Enable)
                } else {
                    None
                }
                &&& changes ==> {
                    let before = old(self)@.devices[i as int];
                    let after = final(self)@.devices[i as int];
                    &&& after.enabled
                    &&& after.addr == before.addr
                    &&& after.buffer == before.buffer
                    &&& after.operation == before.operation
                    &&& after.client == before.client
                }
                &&& !changes ==> final(self)@ == old(self)@
            }),
    {
        if i < self.devices.len() && !self.devices[i].enabled {
            proof {
                lemma_count_bounded(self@.devices);
            }
            self.devices[i].enabled = true;
            proof {
                lemma_count_changes_at(old(self)@.devices, self@.devices, i as int);
                lemma_count_bounded(self@.devices);
            }
            self.enabled = self.enabled + 1;
            if self.enabled == 1 {
                Some(Power::Enable)
            } else {
                None
            }
        } else {
            None
        }
    }

    /// Device `i` needs the controller no longer: the controller is to be
    /// disabled when the last device lets go of it. A device that does not
    /// want it, or does not exist, changes nothing.
    pub fn disable(&mut self, i: usize) -> (power: Option<Power>)
        requires
            old(self)@.wf(),
        ensures
            final(self)@.wf(),
            final(self)@.devices.len() == old(self)@.devices.len(),
            final(self)@.inflight == old(self)@.inflight,
            forall|j: int|
                0 <= j < old(self)@.devices.len() && j != i ==> final(self)@.devices[j] == old(self)@
                    .devices[j],
            ({
                let changes = i < old(self)@.devices.len() && old(self)@.devices[i as int].enabled;
                &&& final(self)@.enabled == old(self)@.enabled - if changes {
                    1int
                } else {
                    0int
                }
                &&& power == if changes && old(self)@.enabled == 1 {
                    Some(Power::Disable)
                } else {
                    None
                }
                &&& changes ==> {
                    let before = old(self)@.devices[i as int];
                    let after = final(self)@.devices[i as int];
                    &&& !after.enabled
                    &&& after.addr == before.addr
                    &&& after.buffer == before.buffer
                    &&& after.operation == before.operation
                    &&& after.client == before.client
                }
                &&& !changes ==> final(self)@ == old(self)@
            }),
    {
        if i < self.devices.len() && self.devices[i].enabled {
            self.devices[i].enabled = false;
            proof {
                lemma_count_changes_at(old(self)@.devices, self@.devices, i as int);
            }
            self.enabled = self.enabled - 1;
            if self.enabled == 0 {
                Some(Power::Disable)
            } else {
                None
            }
        } else {
            None
        }
    }
}

} // verus!
