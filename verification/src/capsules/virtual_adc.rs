//! One analog-to-digital converter shared by many channel users.
//!
//! The multiplexer keeps its users in registration order. A user asks for a
//! sample by marking itself pending; whenever the converter is free the
//! multiplexer takes the pending mark of the first such user and dispatches
//! its channel. The sample that comes back goes to that user's client, and
//! the next pending user is dispatched.

use vstd::prelude::*;
use crate::hil::adc::{AdcRequest, SampleReady};
use crate::returncode::ReturnCode;

verus! {

/// The work a user can have pending.
#[derive(Clone, Copy, Debug, PartialEq, Eq, Structural)]
pub enum Operation {
    SingleSample,
}

/// One user of the converter, bound to a channel.
#[derive(Clone, Copy, Debug, PartialEq, Eq, Structural)]
pub struct AdcUser {
    pub channel: usize,
    pub operation: Option<Operation>,
    pub client: Option<usize>,
}

/// The multiplexer as a mathematical value: its users in registration order
/// and the index of the user whose sample the converter is taking.
pub struct MuxAdcView {
    pub devices: Seq<AdcUser>,
    pub inflight: Option<usize>,
}

/// Something that happens to the multiplexer.
pub enum Event {
    /// User `user` asks for a sample.
    Sample { user: usize },
    /// User `user` withdraws its request.
    StopSampling { user: usize },
    /// The converter delivers a sample.
    SampleReady { sample: u16 },
}

/// Index of the first user at or after `from` that has work pending, or the
/// number of users if there is none.
pub open spec fn first_pending_from(devices: Seq<AdcUser>, from: int) -> int
    decreases devices.len() - from,
{
    if from < 0 || from >= devices.len() {
        devices.len() as int
    } else if devices[from].operation is Some {
        from
    } else {
        first_pending_from(devices, from + 1)
    }
}

/// `i` is in range, has work pending, and no user before it has.
pub open spec fn is_first_pending(devices: Seq<AdcUser>, i: int) -> bool {
    &&& 0 <= i < devices.len()
    &&& devices[i].operation is Some
    &&& forall|j: int| 0 <= j < i ==> devices[j].operation is None
}

/// No user has work pending.
pub open spec fn none_pending(devices: Seq<AdcUser>) -> bool {
    forall|j: int| 0 <= j < devices.len() ==> devices[j].operation is None
}

/// `first_pending_from` finds the first pending user, and returns the number
/// of users exactly when nobody is pending from `from` on.
pub proof fn lemma_first_pending_from(devices: Seq<AdcUser>, from: int)
    requires
        0 <= from <= devices.len(),
    ensures
        from <= first_pending_from(devices, from) <= devices.len(),
        forall|j: int|
            from <= j < first_pending_from(devices, from) ==> devices[j].operation is None,
        first_pending_from(devices, from) < devices.len() ==> devices[first_pending_from(
            devices,
            from,
        )].operation is Some,
    decreases devices.len() - from,
{
    if from < devices.len() && devices[from].operation is None {
        lemma_first_pending_from(devices, from + 1);
    }
}

impl MuxAdcView {
    /// The in-flight index names a user, and no two users share a channel.
    pub open spec fn wf(self) -> bool {
        &&& self.inflight is Some ==> self.inflight->0 < self.devices.len()
        &&& forall|i: int, j: int|
            0 <= i < j < self.devices.len() ==> self.devices[i].channel
                != self.devices[j].channel
    }

    /// No user but `i` is bound to the channel of user `i`.
    pub open spec fn sole_user_of_its_channel(self, i: int) -> bool {
        forall|j: int|
            0 <= j < self.devices.len() && (#[trigger] self.devices[j]).channel
                == self.devices[i].channel ==> j == i
    }

    /// How many operations the converter has been given and not yet answered.
    pub open spec fn outstanding(self) -> nat {
        if self.inflight is Some {
            1
        } else {
            0
        }
    }

    /// The scheduling step: with the converter free, the first pending user
    /// loses its pending mark, becomes in flight, and its channel is
    /// dispatched; otherwise nothing changes.
    pub open spec fn do_next_op(self) -> (MuxAdcView, Option<AdcRequest>) {
        let i = first_pending_from(self.devices, 0);
        if self.inflight is None && i < self.devices.len() {
            let node = self.devices[i];
            (
                MuxAdcView {
                    devices: self.devices.update(i, AdcUser { operation: None, ..node }),
                    inflight: Some(i as usize),
                },
                Some(AdcRequest::Sample { channel: node.channel }),
            )
        } else {
            (self, None)
        }
    }

    /// The multiplexer with `operation` in the pending slot of `user`.
    pub open spec fn with_operation(self, user: int, operation: Option<Operation>) -> MuxAdcView {
        MuxAdcView {
            devices: self.devices.update(
                user,
                AdcUser { operation, ..self.devices[user] },
            ),
            ..self
        }
    }

    /// User `user` asks for a sample: it becomes pending, then the scheduling
    /// step runs. An unknown user changes nothing.
    pub open spec fn sample(self, user: usize) -> (MuxAdcView, Option<AdcRequest>) {
        if user < self.devices.len() {
            self.with_operation(user as int, Some(Operation::SingleSample)).do_next_op()
        } else {
            (self, None)
        }
    }

    /// User `user` withdraws its request: its pending slot is cleared, then
    /// the scheduling step runs. An unknown user changes nothing.
    pub open spec fn stop_sampling(self, user: usize) -> (MuxAdcView, Option<AdcRequest>) {
        if user < self.devices.len() {
            self.with_operation(user as int, None).do_next_op()
        } else {
            (self, None)
        }
    }

    /// Whom a sample that arrives now is delivered to: the client of the user
    /// in flight, if it has one.
    pub open spec fn delivery(self, sample: u16) -> Option<SampleReady> {
        if self.inflight is Some && self.devices[self.inflight->0 as int].client is Some {
            Some(SampleReady { client: self.devices[self.inflight->0 as int].client->0, sample })
        } else {
            None
        }
    }

    /// The converter delivers a sample: the user in flight is released and
    /// the scheduling step runs.
    pub open spec fn sample_ready(self) -> (MuxAdcView, Option<AdcRequest>) {
        (MuxAdcView { inflight: None, ..self }).do_next_op()
    }

    /// The multiplexer after one event, and what it dispatched.
    pub open spec fn step(self, event: Event) -> (MuxAdcView, Option<AdcRequest>) {
        match event {
            Event::Sample { user } => self.sample(user),
            Event::StopSampling { user } => self.stop_sampling(user),
            Event::SampleReady { .. } => self.sample_ready(),
        }
    }

    /// An event that can occur now: the converter only answers an operation
    /// that it was given.
    pub open spec fn admits(self, event: Event) -> bool {
        event is SampleReady ==> self.inflight is Some
    }

    /// Every event of the sequence can occur when its turn comes.
    pub open spec fn admits_all(self, events: Seq<Event>) -> bool
        decreases events.len(),
    {
        events.len() > 0 ==> self.admits(events[0]) && self.step(events[0]).0.admits_all(
            events.drop_first(),
        )
    }

    /// The multiplexer after a sequence of events.
    pub open spec fn run(self, events: Seq<Event>) -> MuxAdcView
        decreases events.len(),
    {
        if events.len() == 0 {
            self
        } else {
            self.step(events[0]).0.run(events.drop_first())
        }
    }

    /// Operations outstanding at the converter after a sequence of events,
    /// counted from the outside: `before`, plus one for each dispatch, minus
    /// one for each sample delivered.
    pub open spec fn count_outstanding(self, before: int, events: Seq<Event>) -> int
        decreases events.len(),
    {
        if events.len() == 0 {
            before
        } else {
            let (next, dispatched) = self.step(events[0]);
            let answered: int = if events[0] is SampleReady {
                1
            } else {
                0
            };
            let given: int = if dispatched is Some {
                1
            } else {
                0
            };
            next.count_outstanding(before - answered + given, events.drop_first())
        }
    }
}

/// The scheduling step keeps the multiplexer well formed, dispatches only
/// when the converter is free, and leaves it busy exactly when it dispatched
/// or was busy before.
pub proof fn lemma_do_next_op(s: MuxAdcView)
    requires
        s.wf(),
    ensures
        s.do_next_op().0.wf(),
        s.do_next_op().1 is Some ==> s.inflight is None && s.do_next_op().0.inflight is Some,
        s.do_next_op().1 is None ==> s.do_next_op().0 == s,
        s.do_next_op().0.devices.len() == s.devices.len(),
{
    lemma_first_pending_from(s.devices, 0);
}

/// Head-order scheduling: when the converter is free, the user dispatched is
/// the first pending one in registration order, and nothing is dispatched
/// only if nobody is pending.
pub proof fn lemma_head_order(s: MuxAdcView)
    requires
        s.wf(),
        s.inflight is None,
    ensures
        none_pending(s.devices) <==> s.do_next_op().1 is None,
        forall|i: int| #[trigger]
            is_first_pending(s.devices, i) ==> {
                &&& s.do_next_op().1 == Some(AdcRequest::Sample { channel: s.devices[i].channel })
                &&& s.do_next_op().0.inflight == Some(i as usize)
                &&& s.do_next_op().0.devices == s.devices.update(
                    i,
                    AdcUser { operation: None, ..s.devices[i] },
                )
            },
{
    lemma_first_pending_from(s.devices, 0);
    let f = first_pending_from(s.devices, 0);
    assert forall|i: int| #[trigger] is_first_pending(s.devices, i) implies i == f by {
        if i < f {
            assert(s.devices[i].operation is None);
        } else if f < i {
            assert(s.devices[f].operation is None);
        }
    }
}

/// Head-order scheduling over three users: with the converter free and users
/// `a`, `b`, `c` (registered in that order) the only ones pending, the
/// converter is given the channel of `a`, then on each delivered sample that
/// of `b`, then that of `c`, and then nothing.
pub proof fn lemma_three_in_order(s: MuxAdcView, a: int, b: int, c: int)
    requires
        s.wf(),
        s.inflight is None,
        0 <= a < b < c < s.devices.len(),
        forall|j: int|
            0 <= j < s.devices.len() ==> (s.devices[j].operation is Some <==> (j == a || j == b
                || j == c)),
    ensures
        ({
            let (s1, d1) = s.do_next_op();
            let (s2, d2) = s1.sample_ready();
            let (s3, d3) = s2.sample_ready();
            let (s4, d4) = s3.sample_ready();
            &&& d1 == Some(AdcRequest::Sample { channel: s.devices[a].channel })
            &&& d2 == Some(AdcRequest::Sample { channel: s.devices[b].channel })
            &&& d3 == Some(AdcRequest::Sample { channel: s.devices[c].channel })
            &&& d4 is None
            &&& s4.inflight is None
        }),
{
    let (s1, d1) = s.do_next_op();
    assert(is_first_pending(s.devices, a));
    lemma_head_order(s);
    let r1 = MuxAdcView { inflight: None, ..s1 };
    assert(is_first_pending(r1.devices, b));
    lemma_head_order(r1);
    let (s2, d2) = s1.sample_ready();
    let r2 = MuxAdcView { inflight: None, ..s2 };
    assert(is_first_pending(r2.devices, c));
    lemma_head_order(r2);
    let (s3, d3) = s2.sample_ready();
    let r3 = MuxAdcView { inflight: None, ..s3 };
    assert(none_pending(r3.devices));
    lemma_head_order(r3);
}

/// The first pending user of a list with one user more at its end: the same
/// as without that user if somebody is pending there, else that user if it
/// is pending.
pub proof fn lemma_first_pending_push(devices: Seq<AdcUser>, user: AdcUser, from: int)
    requires
        0 <= from <= devices.len(),
    ensures
        first_pending_from(devices, from) < devices.len() ==> first_pending_from(
            devices.push(user),
            from,
        ) == first_pending_from(devices, from),
        first_pending_from(devices, from) >= devices.len() ==> first_pending_from(
            devices.push(user),
            from,
        ) == devices.len() + if user.operation is Some {
            0int
        } else {
            1int
        },
    decreases devices.len() - from,
{
    let longer = devices.push(user);
    if from < devices.len() {
        assert(longer[from] == devices[from]);
        if devices[from].operation is None {
            lemma_first_pending_push(devices, user, from + 1);
        }
    } else {
        assert(longer[from] == user);
        assert(first_pending_from(longer, from + 1) == longer.len());
    }
}

/// Registration keeps the order. A user that registers goes behind all
/// users registered before; they keep their places and their pending marks,
/// and the user in flight stays in flight. Every earlier user keeps
/// precedence over the new one: while one of them is pending, the scheduling
/// step dispatches exactly what it would have dispatched without the new
/// user, and the new user is first only when none of them is pending.
pub proof fn lemma_registration_order(s: MuxAdcView, user: AdcUser)
    ensures
        ({
            let t = MuxAdcView { devices: s.devices.push(user), ..s };
            let n = s.devices.len() as int;
            &&& t.devices.len() == n + 1
            &&& forall|j: int| 0 <= j < n ==> t.devices[j] == s.devices[j]
            &&& t.devices[n] == user
            &&& t.inflight == s.inflight
            &&& first_pending_from(s.devices, 0) < n ==> first_pending_from(t.devices, 0)
                == first_pending_from(s.devices, 0) && t.do_next_op().1 == s.do_next_op().1
            &&& first_pending_from(s.devices, 0) >= n && user.operation is Some
                ==> first_pending_from(t.devices, 0) == n
            &&& first_pending_from(s.devices, 0) >= n && user.operation is None ==> t.do_next_op().1
                == s.do_next_op().1
        }),
{
    lemma_first_pending_push(s.devices, user, 0);
    lemma_first_pending_from(s.devices, 0);
    let t = MuxAdcView { devices: s.devices.push(user), ..s };
    let f = first_pending_from(s.devices, 0);
    if f < s.devices.len() {
        assert(t.devices[f] == s.devices[f]);
    }
}

/// The first pending user of a list in which the user at `i` lost its
/// pending mark and nobody before `i` is pending: the first pending user
/// behind `i`.
pub proof fn lemma_first_pending_behind(devices: Seq<AdcUser>, i: int, from: int)
    requires
        0 <= from <= i < devices.len(),
        forall|j: int| from <= j < i ==> devices[j].operation is None,
    ensures
        first_pending_from(
            devices.update(i, AdcUser { operation: None, ..devices[i] }),
            from,
        ) == first_pending_from(devices, i + 1),
    decreases devices.len() - from,
{
    let cleared = devices.update(i, AdcUser { operation: None, ..devices[i] });
    if from < i {
        assert(cleared[from] == devices[from]);
        lemma_first_pending_behind(devices, i, from + 1);
    } else {
        lemma_same_behind(devices, cleared, i + 1);
    }
}

/// Two lists that agree from `from` on have the same first pending user
/// from there on.
pub proof fn lemma_same_behind(a: Seq<AdcUser>, b: Seq<AdcUser>, from: int)
    requires
        a.len() == b.len(),
        0 <= from <= a.len(),
        forall|j: int| from <= j < a.len() ==> a[j] == b[j],
    ensures
        first_pending_from(a, from) == first_pending_from(b, from),
    decreases a.len() - from,
{
    if from < a.len() {
        lemma_same_behind(a, b, from + 1);
    }
}

/// Head-order scheduling in general: users are served in registration
/// order. With the converter free and nobody asking in between, the user
/// dispatched first is the first pending one, and when its sample is
/// delivered the user dispatched next is the first pending one behind it;
/// if there is none, the converter stays free. Applied again and again,
/// this serves all pending users in the order in which they registered.
pub proof fn lemma_served_in_registration_order(s: MuxAdcView)
    requires
        s.wf(),
        s.inflight is None,
        first_pending_from(s.devices, 0) < s.devices.len(),
    ensures
        ({
            let i = first_pending_from(s.devices, 0);
            let j = first_pending_from(s.devices, i + 1);
            let (s1, d1) = s.do_next_op();
            let (s2, d2) = s1.sample_ready();
            &&& d1 == Some(AdcRequest::Sample { channel: s.devices[i].channel })
            &&& s1.inflight == Some(i as usize)
            &&& i < j
            &&& j < s.devices.len() ==> d2 == Some(
                AdcRequest::Sample { channel: s.devices[j].channel },
            ) && s2.inflight == Some(j as usize) && s.devices[j].operation is Some
            &&& j >= s.devices.len() ==> d2 is None && s2.inflight is None
            &&& forall|k: int|
                0 <= k < s.devices.len() && k != i && k != j ==> s2.devices[k] == s.devices[k]
        }),
{
    let i = first_pending_from(s.devices, 0);
    lemma_first_pending_from(s.devices, 0);
    lemma_first_pending_from(s.devices, i + 1);
    lemma_first_pending_behind(s.devices, i, 0);
    let (s1, d1) = s.do_next_op();
    let r = MuxAdcView { inflight: None, ..s1 };
    let j = first_pending_from(s.devices, i + 1);
    assert(first_pending_from(r.devices, 0) == j);
    if j < s.devices.len() {
        assert(r.devices[j] == s.devices[j]);
    }
}

/// One event keeps the multiplexer well formed and its set of users and
/// channels unchanged.
pub proof fn lemma_step_wf(s: MuxAdcView, event: Event)
    requires
        s.wf(),
    ensures
        s.step(event).0.wf(),
        s.step(event).0.devices.len() == s.devices.len(),
{
    match event {
        Event::Sample { user } => {
            if user < s.devices.len() {
                lemma_do_next_op(s.with_operation(user as int, Some(Operation::SingleSample)));
            }
        },
        Event::StopSampling { user } => {
            if user < s.devices.len() {
                lemma_do_next_op(s.with_operation(user as int, None));
            }
        },
        Event::SampleReady { .. } => {
            lemma_do_next_op(MuxAdcView { inflight: None, ..s });
        },
    }
}

/// Mutual exclusion: over any sequence of requests and delivered samples in
/// which the converter only answers what it was given, the number of
/// operations outstanding at the converter, counted from the outside, is
/// one while a user is in flight and zero otherwise; so it never exceeds
/// one.
pub proof fn lemma_mutual_exclusion(s: MuxAdcView, events: Seq<Event>)
    requires
        s.wf(),
        s.admits_all(events),
    ensures
        s.run(events).wf(),
        s.count_outstanding(s.outstanding() as int, events) == s.run(events).outstanding(),
        0 <= s.count_outstanding(s.outstanding() as int, events) <= 1,
        s.count_outstanding(s.outstanding() as int, events) == 1 <==> s.run(
            events,
        ).inflight is Some,
    decreases events.len(),
{
    if events.len() > 0 {
        let event = events[0];
        let (next, dispatched) = s.step(event);
        lemma_step_wf(s, event);
        match event {
            Event::Sample { user } => {
                if user < s.devices.len() {
                    lemma_do_next_op(s.with_operation(user as int, Some(Operation::SingleSample)));
                }
            },
            Event::StopSampling { user } => {
                if user < s.devices.len() {
                    lemma_do_next_op(s.with_operation(user as int, None));
                }
            },
            Event::SampleReady { .. } => {
                lemma_do_next_op(MuxAdcView { inflight: None, ..s });
            },
        }
        lemma_mutual_exclusion(next, events.drop_first());
    }
}

/// The multiplexer: the users in registration order, and the one in flight.
pub struct MuxAdc {
    devices: Vec<AdcUser>,
    inflight: Option<usize>,
}

impl View for MuxAdc {
    type V = MuxAdcView;

    closed spec fn view(&self) -> MuxAdcView {
        MuxAdcView { devices: self.devices@, inflight: self.inflight }
    }
}

impl MuxAdc {
    /// A multiplexer with no users and the converter free.
    pub fn new() -> (mux: MuxAdc)
        ensures
            mux@.devices.len() == 0,
            mux@.inflight is None,
            mux@.wf(),
    {
        MuxAdc { devices: Vec::new(), inflight: None }
    }

    /// The number of registered users.
    pub fn len(&self) -> (n: usize)
        ensures
            n == self@.devices.len(),
    {
        self.devices.len()
    }

    /// The index of the user in flight, if any.
    pub fn inflight(&self) -> (r: Option<usize>)
        ensures
            r == self@.inflight,
    {
        self.inflight
    }

    /// The user registered under `user`, if there is one.
    pub fn user(&self, user: usize) -> (r: Option<AdcUser>)
        ensures
            user < self@.devices.len() ==> r == Some(self@.devices[user as int]),
            user >= self@.devices.len() ==> r is None,
    {
        if user < self.devices.len() {
            Some(self.devices[user])
        } else {
            None
        }
    }

    /// Whether some user is bound to `channel`.
    pub fn has_channel(&self, channel: usize) -> (r: bool)
        ensures
            r <==> exists|i: int|
                0 <= i < self@.devices.len() && (#[trigger] self@.devices[i]).channel == channel,
    {
        let n: usize = self.devices.len();
        let mut i: usize = 0;
        while i < n
            invariant
                n == self.devices@.len(),
                i <= n,
                forall|j: int| 0 <= j < i ==> (#[trigger] self.devices@[j]).channel != channel,
            decreases n - i,
        {
            if self.devices[i].channel == channel {
                return true;
            }
            i += 1;
        }
        false
    }

    /// Index of the first pending user, or the number of users.
    fn find_pending(&self) -> (i: usize)
        ensures
            i == first_pending_from(self@.devices, 0),
    {
        let n: usize = self.devices.len();
        let mut i: usize = 0;
        while i < n && self.devices[i].operation.is_none()
            invariant
                n == self.devices@.len(),
                i <= n,
                first_pending_from(self.devices@, 0) == first_pending_from(
                    self.devices@,
                    i as int,
                ),
            decreases n - i,
        {
            i += 1;
        }
        i
    }

    /// The scheduling step. With the converter free, the first pending user
    /// in registration order is taken and its channel handed back for
    /// dispatch; with the converter busy, or nobody pending, nothing happens.
    pub fn do_next_op(&mut self) -> (dispatch: Option<AdcRequest>)
        requires
            old(self)@.wf(),
        ensures
            final(self)@ == old(self)@.do_next_op().0,
            dispatch == old(self)@.do_next_op().1,
            final(self)@.wf(),
    {
        proof {
            lemma_do_next_op(self@);
        }
        if self.inflight.is_some() {
            return None;
        }
        let i: usize = self.find_pending();
        if i < self.devices.len() {
            let node: AdcUser = self.devices[i];
            self.devices[i] = AdcUser { operation: None, ..node };
            self.inflight = Some(i);
            Some(AdcRequest::Sample { channel: node.channel })
        } else {
            None
        }
    }

    /// User `user` asks for a single sample. The request always succeeds for
    /// a registered user: it is marked pending and the scheduling step runs.
    /// An unknown user is refused with `ENODEVICE` and nothing changes.
    pub fn sample(&mut self, user: usize) -> (r: (ReturnCode, Option<AdcRequest>))
        requires
            old(self)@.wf(),
        ensures
            final(self)@ == old(self)@.sample(user).0,
            r.1 == old(self)@.sample(user).1,
            r.0 == if user < old(self)@.devices.len() {
                ReturnCode::SUCCESS
            } else {
                ReturnCode::ENODEVICE
            },
            final(self)@.wf(),
    {
        if user < self.devices.len() {
            let node: AdcUser = self.devices[user];
            self.devices[user] = AdcUser { operation: Some(Operation::SingleSample), ..node };
            let dispatch = self.do_next_op();
            (ReturnCode::SUCCESS, dispatch)
        } else {
            (ReturnCode::ENODEVICE, None)
        }
    }

    /// User `user` withdraws a request that was not dispatched yet, and the
    /// scheduling step runs. An operation already in flight is not recalled.
    pub fn stop_sampling(&mut self, user: usize) -> (r: (ReturnCode, Option<AdcRequest>))
        requires
            old(self)@.wf(),
        ensures
            final(self)@ == old(self)@.stop_sampling(user).0,
            r.1 == old(self)@.stop_sampling(user).1,
            r.0 == if user < old(self)@.devices.len() {
                ReturnCode::SUCCESS
            } else {
                ReturnCode::ENODEVICE
            },
            final(self)@.wf(),
    {
        if user < self.devices.len() {
            let node: AdcUser = self.devices[user];
            self.devices[user] = AdcUser { operation: None, ..node };
            let dispatch = self.do_next_op();
            (ReturnCode::SUCCESS, dispatch)
        } else {
            (ReturnCode::ENODEVICE, None)
        }
    }

    /// Continuous sampling is not offered through the multiplexer.
    pub fn sample_continuous(&self, user: usize) -> (r: ReturnCode)
        ensures
            r is ENOSUPPORT,
    {
        ReturnCode::ENOSUPPORT
    }

    /// Resolution of a sample, in bits.
    pub fn get_resolution_bits(&self) -> (bits: usize)
        ensures
            bits == 12,
    {
        12
    }

    /// Reference voltage of the converter, in millivolts.
    pub fn get_voltage_reference_mv(&self) -> (mv: Option<usize>)
        ensures
            mv == Some(3300usize),
    {
        Some(3300)
    }

    /// Registers the client that samples of `user` are delivered to. An
    /// unknown user changes nothing.
    pub fn set_client(&mut self, user: usize, client: usize)
        requires
            old(self)@.wf(),
        ensures
            user < old(self)@.devices.len() ==> final(self)@ == (MuxAdcView {
                devices: old(self)@.devices.update(
                    user as int,
                    AdcUser { client: Some(client), ..old(self)@.devices[user as int] },
                ),
                ..old(self)@
            }),
            user >= old(self)@.devices.len() ==> final(self)@ == old(self)@,
            final(self)@.wf(),
    {
        if user < self.devices.len() {
            let node: AdcUser = self.devices[user];
            self.devices[user] = AdcUser { client: Some(client), ..node };
        }
    }

    /// The converter delivers a sample. It goes to the client of the user in
    /// flight, which is the only user bound to the dispatched channel; that
    /// user is released and the scheduling step runs. A sample that arrives
    /// with nobody in flight is delivered to nobody.
    pub fn sample_ready(&mut self, sample: u16) -> (r: (Option<SampleReady>, Option<AdcRequest>))
        requires
            old(self)@.wf(),
        ensures
            r.0 == old(self)@.delivery(sample),
            final(self)@ == old(self)@.sample_ready().0,
            r.1 == old(self)@.sample_ready().1,
            final(self)@.wf(),
            old(self)@.inflight is Some ==> old(self)@.sole_user_of_its_channel(
                old(self)@.inflight->0 as int,
            ),
    {
        let delivery = match self.inflight {
            Some(i) => match self.devices[i].client {
                Some(client) => Some(SampleReady { client, sample }),
                None => None,
            },
            None => None,
        };
        self.inflight = None;
        let dispatch = self.do_next_op();
        (delivery, dispatch)
    }
}

impl AdcUser {
    /// A user bound to `channel`, with nothing pending and no client.
    pub fn new(channel: usize) -> (user: AdcUser)
        ensures
            user == (AdcUser { channel, operation: None, client: None }),
    {
        AdcUser { channel, operation: None, client: None }
    }

    /// Registers the user with `mux`, behind all users registered before,
    /// and returns the index it is known by from now on. No other user of
    /// the multiplexer may be bound to the same channel.
    pub fn add_to_mux(self, mux: &mut MuxAdc) -> (index: usize)
        requires
            old(mux)@.wf(),
            forall|i: int|
                0 <= i < old(mux)@.devices.len() ==> (#[trigger] old(mux)@.devices[i]).channel
                    != self.channel,
        ensures
            index == old(mux)@.devices.len(),
            final(mux)@.devices == old(mux)@.devices.push(self),
            final(mux)@.inflight == old(mux)@.inflight,
            final(mux)@.wf(),
    {
        let index: usize = mux.devices.len();
        mux.devices.push(self);
        index
    }
}

} // verus!
