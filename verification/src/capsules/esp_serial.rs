//! Serial link to an ESP WiFi module that speaks AT commands.
//!
//! Applications hand the driver a buffer to send and a buffer to receive
//! into. What they send goes out in pieces of the size of the driver's
//! transmit buffer. What comes back is collected byte by byte into a line;
//! at the end of a line the driver looks at how the line starts and calls
//! the application back that it concerns.

use vstd::prelude::*;
use crate::hil::uart::Error;
use crate::process::{AppId, Callback, Upcall};
use crate::returncode::ReturnCode;

verus! {

/// Bytes of each of the three buffers that a board usually provides.
pub const BUFFER_SIZE: usize = 128;

/// The number of links that the module offers.
pub const LINKS: usize = 5;

/// What `get_linkid` hands back when every link is taken.
pub const NO_LINK: usize = 404;

/// What the driver keeps for one application.
pub struct App {
    pub write_callback: Option<Callback>,
    /// The buffer to send from.
    pub write_buffer: Option<Vec<u8>>,
    pub write_len: usize,
    /// Bytes that did not fit in the transmit buffer and are still to be
    /// sent.
    pub write_remaining: usize,
    pub pending_write: bool,
    pub read_callback: Option<Callback>,
    /// The buffer to receive into.
    pub read_buffer: Option<Vec<u8>>,
    pub read_len: usize,
}

impl App {
    /// An application with no buffers, no callbacks and nothing under way.
    pub fn new() -> (app: App)
        ensures
            app.write_callback is None && app.write_buffer is None && app.write_len == 0
                && app.write_remaining == 0 && !app.pending_write && app.read_callback is None
                && app.read_buffer is None && app.read_len == 0,
    {
        App {
            write_callback: None,
            write_buffer: None,
            write_len: 0,
            write_remaining: 0,
            pending_write: false,
            read_callback: None,
            read_buffer: None,
            read_len: 0,
        }
    }
}

/// One of the module's links, and the application that holds it.
#[derive(Clone, Copy, Debug, PartialEq, Eq, Structural)]
pub struct Link {
    pub link_id: usize,
    pub app: Option<AppId>,
}

impl Link {
    /// Link number `id`, held by nobody.
    pub fn new(id: usize) -> (link: Link)
        ensures
            link == (Link { link_id: id, app: None }),
    {
        Link { link_id: id, app: None }
    }
}

/// A buffer on its way to the serial port, to be sent from or received
/// into, with the number of bytes.
#[derive(Debug, PartialEq, Eq)]
pub struct UartTransfer {
    pub buffer: Vec<u8>,
    pub len: usize,
}

/// Everything one step of the driver asks for.
#[derive(Debug, PartialEq, Eq)]
pub struct Effects {
    pub transmit: Option<UartTransfer>,
    pub receive: Option<UartTransfer>,
    /// The reception under way is to be aborted.
    pub abort: bool,
    /// The callbacks to schedule, in order.
    pub upcalls: Vec<Upcall>,
}

/// A byte that is trimmed from the ends of a line: space, tab, line feed,
/// vertical tab, form feed or carriage return.
pub open spec fn is_space(b: u8) -> bool {
    b == 0x20 || (0x09 <= b <= 0x0D)
}

/// Whether a byte is trimmed from the ends of a line.
pub fn check_space(b: u8) -> (r: bool)
    ensures
        r == is_space(b),
{
    b == 0x20 || (0x09 <= b && b <= 0x0D)
}

/// Index of the first zero byte at or after `from`, or the length if there
/// is none.
pub open spec fn first_zero_from(buffer: Seq<u8>, from: int) -> int
    decreases buffer.len() - from,
{
    if from < 0 || from >= buffer.len() {
        buffer.len() as int
    } else if buffer[from] == 0 {
        from
    } else {
        first_zero_from(buffer, from + 1)
    }
}

/// The length of the line in `buffer`: the index of its first zero byte, or
/// zero if it has none.
pub open spec fn line_len(buffer: Seq<u8>) -> int {
    if first_zero_from(buffer, 0) < buffer.len() {
        first_zero_from(buffer, 0)
    } else {
        0
    }
}

/// The length of the line in `buffer`.
pub fn find_terminator(buffer: &Vec<u8>) -> (terminator: usize)
    ensures
        terminator == line_len(buffer@),
        terminator <= buffer@.len(),
{
    let n: usize = buffer.len();
    let mut i: usize = 0;
    while i < n && buffer[i] != 0
        invariant
            n == buffer@.len(),
            i <= n,
            first_zero_from(buffer@, 0) == first_zero_from(buffer@, i as int),
        decreases n - i,
    {
        i += 1;
    }
    if i < n {
        i
    } else {
        0
    }
}

/// Index of the first byte at or after `from` and before `end` that is not
/// trimmed, or `end`.
pub open spec fn skip_spaces(s: Seq<u8>, from: int, end: int) -> int
    decreases end - from,
{
    if from < end && 0 <= from < s.len() && is_space(s[from]) {
        skip_spaces(s, from + 1, end)
    } else {
        from
    }
}

/// Index behind the last byte before `end` and at or after `start` that is
/// not trimmed, or `start`.
pub open spec fn drop_spaces(s: Seq<u8>, start: int, end: int) -> int
    decreases end - start,
{
    if start < end && 0 < end <= s.len() && is_space(s[end - 1]) {
        drop_spaces(s, start, end - 1)
    } else {
        end
    }
}

/// The bounds of the first `end` bytes of `s` without the bytes trimmed
/// from both ends.
pub open spec fn trim_bounds(s: Seq<u8>, end: int) -> (int, int) {
    let start = skip_spaces(s, 0, end);
    (start, drop_spaces(s, start, end))
}

/// Finds the bounds of a line without the bytes trimmed from both ends.
pub fn trim(s: &Vec<u8>, end: usize) -> (r: (usize, usize))
    requires
        end <= s@.len(),
    ensures
        (r.0 as int, r.1 as int) == trim_bounds(s@, end as int),
        r.0 <= r.1 <= end,
{
    let mut start: usize = 0;
    while start < end && check_space(s[start])
        invariant
            start <= end <= s@.len(),
            skip_spaces(s@, 0, end as int) == skip_spaces(s@, start as int, end as int),
        decreases end - start,
    {
        start += 1;
    }
    let mut finish: usize = end;
    while finish > start && check_space(s[finish - 1])
        invariant
            start <= finish <= end <= s@.len(),
            drop_spaces(s@, start as int, end as int) == drop_spaces(
                s@,
                start as int,
                finish as int,
            ),
        decreases finish - start,
    {
        finish -= 1;
    }
    (start, finish)
}

/// The bytes of `s` from `start` to `end` begin with `prefix`.
pub open spec fn starts_with(s: Seq<u8>, start: int, end: int, prefix: Seq<u8>) -> bool {
    &&& 0 <= start
    &&& start + prefix.len() <= end <= s.len()
    &&& s.subrange(start, start + prefix.len()) == prefix
}

/// Whether the bytes of `s` from `start` to `end` begin with `prefix`.
pub fn check_starts_with(s: &Vec<u8>, start: usize, end: usize, prefix: &[u8]) -> (r: bool)
    requires
        start <= end <= s@.len(),
    ensures
        r == starts_with(s@, start as int, end as int, prefix@),
{
    let n: usize = prefix.len();
    if n > end - start {
        return false;
    }
    let mut i: usize = 0;
    while i < n
        invariant
            n == prefix@.len(),
            i <= n,
            start + n <= end <= s@.len(),
            forall|j: int| 0 <= j < i ==> s@[start + j] == prefix@[j],
        decreases n - i,
    {
        if s[start + i] != prefix[i] {
            assert(s@.subrange(start as int, start + n)[i as int] != prefix@[i as int]);
            return false;
        }
        i += 1;
    }
    assert(s@.subrange(start as int, start + n) =~= prefix@);
    true
}

/// Index of the first colon at or after `from` and before `end`, or `end`.
pub open spec fn first_colon(s: Seq<u8>, from: int, end: int) -> int
    decreases end - from,
{
    if from < end && 0 <= from < s.len() && s[from] != 0x3A {
        first_colon(s, from + 1, end)
    } else if from < end {
        from
    } else {
        end
    }
}

/// Finds the first colon at or after `from` and before `end`.
pub fn find_colon(s: &Vec<u8>, from: usize, end: usize) -> (r: usize)
    requires
        from <= end <= s@.len(),
    ensures
        r == first_colon(s@, from as int, end as int),
        from <= r <= end,
{
    let mut i: usize = from;
    while i < end && s[i] != 0x3A
        invariant
            from <= i <= end <= s@.len(),
            first_colon(s@, from as int, end as int) == first_colon(s@, i as int, end as int),
        decreases end - i,
    {
        i += 1;
    }
    i
}

/// What a line from the module says.
#[derive(Clone, Copy, Debug, PartialEq, Eq, Structural)]
pub enum Reply {
    /// The command was carried out.
    Done,
    /// The command failed.
    Failed,
    /// The connection asked for exists already.
    AlreadyConnected,
    /// Data arrived on a link: the digit that names the link, and the
    /// bounds of the data in the line.
    Data { link: u8, start: usize, end: usize },
    /// The address of the station: its bounds in the line.
    Address { start: usize, end: usize },
    /// Anything else.
    Nothing,
}

/// `"OK"`
pub open spec fn ok_prefix() -> Seq<u8> {
    seq![0x4Fu8, 0x4B]
}

/// `"ERROR"`
pub open spec fn error_prefix() -> Seq<u8> {
    seq![0x45u8, 0x52, 0x52, 0x4F, 0x52]
}

/// `"ALREADY CONNECTED"`
pub open spec fn already_prefix() -> Seq<u8> {
    seq![
        0x41u8,
        0x4C,
        0x52,
        0x45,
        0x41,
        0x44,
        0x59,
        0x20,
        0x43,
        0x4F,
        0x4E,
        0x4E,
        0x45,
        0x43,
        0x54,
        0x45,
        0x44,
    ]
}

/// `"+IPD"`
pub open spec fn data_prefix() -> Seq<u8> {
    seq![0x2Bu8, 0x49, 0x50, 0x44]
}

/// `"+CIFSR:STAIP"`
pub open spec fn address_prefix() -> Seq<u8> {
    seq![0x2Bu8, 0x43, 0x49, 0x46, 0x53, 0x52, 0x3A, 0x53, 0x54, 0x41, 0x49, 0x50]
}

/// Every byte of the line is plain ASCII.
pub open spec fn is_ascii(s: Seq<u8>, end: int) -> bool {
    forall|i: int| 0 <= i < end ==> #[trigger] s[i] < 128
}

/// What the line in `buffer` says.
///
/// The line ends before the first zero byte; an empty line, or one with a
/// byte that is not ASCII, says nothing. The line is trimmed and told apart
/// by how it starts. Data names its link in the sixth byte and lies behind
/// the first colon; the address lies between the fifteenth byte and the
/// last.
pub open spec fn parse(buffer: Seq<u8>) -> Reply {
    let len = line_len(buffer);
    let (start, end) = trim_bounds(buffer, len);
    if len == 0 || !is_ascii(buffer, len) {
        Reply::Nothing
    } else if starts_with(buffer, start, end, ok_prefix()) {
        Reply::Done
    } else if starts_with(buffer, start, end, error_prefix()) {
        Reply::Failed
    } else if starts_with(buffer, start, end, already_prefix()) {
        Reply::AlreadyConnected
    } else if starts_with(buffer, start, end, data_prefix()) {
        let colon = first_colon(buffer, start, end);
        if end - start >= 6 && colon < end {
            Reply::Data {
                link: buffer[start + 5],
                start: (colon + 1) as usize,
                end: end as usize,
            }
        } else {
            Reply::Nothing
        }
    } else if starts_with(buffer, start, end, address_prefix()) {
        if end - start >= 15 {
            Reply::Address { start: (start + 14) as usize, end: (end - 1) as usize }
        } else {
            Reply::Nothing
        }
    } else {
        Reply::Nothing
    }
}

/// Whether every byte before `end` is plain ASCII.
pub fn check_ascii(s: &Vec<u8>, end: usize) -> (r: bool)
    requires
        end <= s@.len(),
    ensures
        r == is_ascii(s@, end as int),
{
    let mut i: usize = 0;
    while i < end
        invariant
            i <= end <= s@.len(),
            forall|j: int| 0 <= j < i ==> #[trigger] s@[j] < 128,
        decreases end - i,
    {
        if s[i] >= 128 {
            return false;
        }
        i += 1;
    }
    true
}

/// Tells what the line in `buffer` says.
pub fn parse_reply(buffer: &Vec<u8>) -> (reply: Reply)
    ensures
        reply == parse(buffer@),
        reply matches Reply::Data { start, end, .. } ==> start <= end <= buffer@.len(),
        reply matches Reply::Address { start, end } ==> start <= end <= buffer@.len(),
{
    let len: usize = find_terminator(buffer);
    if len == 0 || !check_ascii(buffer, len) {
        return Reply::Nothing;
    }
    let (start, end): (usize, usize) = trim(buffer, len);
    let ok: [u8; 2] = [0x4F, 0x4B];
    let error: [u8; 5] = [0x45, 0x52, 0x52, 0x4F, 0x52];
    let already: [u8; 17] = [
        0x41,
        0x4C,
        0x52,
        0x45,
        0x41,
        0x44,
        0x59,
        0x20,
        0x43,
        0x4F,
        0x4E,
        0x4E,
        0x45,
        0x43,
        0x54,
        0x45,
        0x44,
    ];
    let data: [u8; 4] = [0x2B, 0x49, 0x50, 0x44];
    let address: [u8; 12] = [0x2B, 0x43, 0x49, 0x46, 0x53, 0x52, 0x3A, 0x53, 0x54, 0x41, 0x49, 0x50];
    proof {
        assert(ok@ =~= ok_prefix());
        assert(error@ =~= error_prefix());
        assert(already@ =~= already_prefix());
        assert(data@ =~= data_prefix());
        assert(address@ =~= address_prefix());
    }
    if check_starts_with(buffer, start, end, ok.as_slice()) {
        Reply::Done
    } else if check_starts_with(buffer, start, end, error.as_slice()) {
        Reply::Failed
    } else if check_starts_with(buffer, start, end, already.as_slice()) {
        Reply::AlreadyConnected
    } else if check_starts_with(buffer, start, end, data.as_slice()) {
        let colon: usize = find_colon(buffer, start, end);
        if end - start >= 6 && colon < end {
            Reply::Data { link: buffer[start + 5], start: colon + 1, end }
        } else {
            Reply::Nothing
        }
    } else if check_starts_with(buffer, start, end, address.as_slice()) {
        if end - start >= 15 {
            Reply::Address { start: start + 14, end: end - 1 }
        } else {
            Reply::Nothing
        }
    } else {
        Reply::Nothing
    }
}

/// `buffer` with bytes of `source` written over its front: as many as both
/// have, counted from `from` in `source` and up to `to`.
pub open spec fn received_into(buffer: Seq<u8>, source: Seq<u8>, from: int, to: int) -> Seq<u8> {
    let n = if to - from <= buffer.len() {
        to - from
    } else {
        buffer.len() as int
    };
    source.subrange(from, from + n) + buffer.skip(n)
}

/// Writes bytes of `source` over the front of `buffer`: as many as both
/// have, counted from `from` in `source` and up to `to`.
pub fn copy_into(buffer: &mut Vec<u8>, source: &Vec<u8>, from: usize, to: usize)
    requires
        from <= to <= source@.len(),
    ensures
        final(buffer)@ == received_into(old(buffer)@, source@, from as int, to as int),
{
    let capacity: usize = buffer.len();
    let n: usize = if to - from <= capacity {
        to - from
    } else {
        capacity
    };
    let mut i: usize = 0;
    while i < n
        invariant
            i <= n,
            n <= capacity,
            from + n <= to <= source@.len(),
            buffer@.len() == capacity,
            capacity == old(buffer)@.len(),
            forall|j: int| 0 <= j < i ==> buffer@[j] == source@[from + j],
            forall|j: int| i <= j < capacity ==> buffer@[j] == old(buffer)@[j],
        decreases n - i,
    {
        buffer[i] = source[from + i];
        i += 1;
    }
    assert(buffer@ =~= received_into(old(buffer)@, source@, from as int, to as int));
}

/// The smaller of two numbers.
pub open spec fn spec_min(a: usize, b: usize) -> usize {
    if a <= b {
        a
    } else {
        b
    }
}

/// The smaller of two numbers.
#[verifier::when_used_as_spec(spec_min)]
pub fn min(a: usize, b: usize) -> (m: usize)
    ensures
        m == spec_min(a, b),
{
    if a <= b {
        a
    } else {
        b
    }
}

/// The driver.
pub struct EspSerial {
    pub apps: Vec<App>,
    /// The application whose bytes are being sent.
    pub tx_in_progress: Option<AppId>,
    /// The transmit buffer, while the driver holds it.
    pub tx_buffer: Option<Vec<u8>>,
    /// The application that the next answer of the module concerns.
    pub rx_in_progress: Option<AppId>,
    /// The receive buffer, while the driver holds it.
    pub rx_buffer: Option<Vec<u8>>,
    /// The line collected so far, ended by a zero byte.
    pub rx_buffer_helper: Vec<u8>,
    /// The length of the line collected so far.
    pub helper_pos: usize,
    pub tx_in_progress_helper: bool,
    /// The line is complete.
    pub new_line: bool,
    pub links: Vec<Link>,
}

impl EspSerial {
    /// The line has room for its closing zero, and there are five links.
    pub open spec fn wf(&self) -> bool {
        &&& self.helper_pos < self.rx_buffer_helper@.len()
        &&& self.links@.len() == LINKS
    }

    /// Whether the driver can work: the line has room for its closing zero,
    /// and there are five links.
    pub fn is_well_formed(&self) -> (r: bool)
        ensures
            r == self.wf(),
    {
        self.helper_pos < self.rx_buffer_helper.len() && self.links.len() == LINKS
    }

    /// A driver that owns the three buffers and serves the applications in
    /// `grant` over `links`. It starts to receive the first byte at once.
    /// The driver can work with a helper buffer that has room for the zero
    /// that closes a line.
    pub fn new(
        tx_buffer: Vec<u8>,
        rx_buffer: Vec<u8>,
        rx_buffer_helper: Vec<u8>,
        links: Vec<Link>,
        grant: Vec<App>,
    ) -> (r: (EspSerial, UartTransfer))
        requires
            links@.len() == LINKS,
        ensures
            rx_buffer_helper@.len() >= 1 ==> r.0.wf(),
            r.0.apps == grant,
            r.0.links == links,
            r.0.tx_buffer == Some(tx_buffer),
            r.0.rx_buffer is None,
            r.0.rx_buffer_helper == rx_buffer_helper,
            r.0.helper_pos == 0,
            r.0.tx_in_progress is None && r.0.rx_in_progress is None,
            !r.0.tx_in_progress_helper && !r.0.new_line,
            r.1 == (UartTransfer { buffer: rx_buffer, len: 1 }),
    {
        (
            EspSerial {
                apps: grant,
                tx_in_progress: None,
                tx_buffer: Some(tx_buffer),
                rx_in_progress: None,
                rx_buffer: None,
                rx_buffer_helper,
                helper_pos: 0,
                tx_in_progress_helper: false,
                new_line: false,
                links,
            },
            UartTransfer { buffer: rx_buffer, len: 1 },
        )
    }

    /// Index of the first free link at or after `from`, or the number of
    /// links.
    pub open spec fn first_free_link(links: Seq<Link>, from: int) -> int
        decreases links.len() - from,
    {
        if from < 0 || from >= links.len() {
            links.len() as int
        } else if links[from].app is None {
            from
        } else {
            Self::first_free_link(links, from + 1)
        }
    }

    /// Gives `app_id` the first free link and returns its number, or 404 if
    /// every link is taken.
    pub fn get_linkid(&mut self, app_id: AppId) -> (id: usize)
        requires
            old(self).wf(),
        ensures
            final(self).wf(),
            ({
                let free = Self::first_free_link(old(self).links@, 0);
                if free < LINKS {
                    &&& id == free
                    &&& *final(self) == (EspSerial {
                        links: final(self).links,
                        ..*old(self)
                    })
                    &&& final(self).links@ == old(self).links@.update(
                        free,
                        Link { app: Some(app_id), ..old(self).links@[free] },
                    )
                } else {
                    id == NO_LINK && *final(self) == *old(self)
                }
            }),
    {
        let n: usize = self.links.len();
        let mut i: usize = 0;
        while i < n && self.links[i].app.is_some()
            invariant
                n == self.links@.len(),
                i <= n,
                *self == *old(self),
                Self::first_free_link(self.links@, 0) == Self::first_free_link(
                    self.links@,
                    i as int,
                ),
            decreases n - i,
        {
            i += 1;
        }
        if i < n {
            let link: Link = self.links[i];
            self.links[i] = Link { app: Some(app_id), ..link };
            i
        } else {
            NO_LINK
        }
    }

    /// The bytes put into the transmit buffer for an application that has
    /// `remaining` bytes to send from `slice`: the front of the slice, as
    /// far as slice, remainder and buffer reach.
    pub open spec fn staged(buffer: Seq<u8>, slice: Seq<u8>, remaining: usize) -> Seq<u8> {
        received_into(buffer, slice, 0, spec_min(remaining, slice.len() as usize) as int)
    }

    /// What `send` does for an application whose bytes are in `slice`,
    /// told as a relation between the driver before and after and the
    /// transfer that is started.
    ///
    /// With the port taken, the application is marked as waiting and
    /// nothing else changes. With the port free, the application takes the
    /// port and the transmit buffer leaves the driver, filled from the
    /// front of the slice: as many bytes as the application has left, or a
    /// buffer full if it has more, which stay to be sent. The slice goes
    /// back to the application either way, and no other application is
    /// touched.
    pub open spec fn sent(
        before: EspSerial,
        after: EspSerial,
        app_id: AppId,
        slice: Vec<u8>,
        transmit: Option<UartTransfer>,
    ) -> bool {
        let app = before.apps@[app_id.idx as int];
        let app_after = after.apps@[app_id.idx as int];
        &&& after.apps@.len() == before.apps@.len()
        &&& forall|j: int|
            0 <= j < before.apps@.len() && j != app_id.idx ==> after.apps@[j] == before.apps@[j]
        &&& after.links == before.links
        &&& after.rx_buffer == before.rx_buffer
        &&& after.rx_buffer_helper == before.rx_buffer_helper
        &&& after.helper_pos == before.helper_pos
        &&& after.new_line == before.new_line
        &&& after.tx_in_progress_helper == before.tx_in_progress_helper
        &&& app_after.write_buffer == Some(slice)
        &&& app_after.write_callback == app.write_callback
        &&& app_after.write_len == app.write_len
        &&& app_after.read_callback == app.read_callback
        &&& app_after.read_buffer == app.read_buffer
        &&& app_after.read_len == app.read_len
        &&& if before.tx_in_progress is Some {
            &&& transmit is None
            &&& app_after.pending_write
            &&& app_after.write_remaining == app.write_remaining
            &&& after.tx_in_progress == before.tx_in_progress
            &&& after.rx_in_progress == before.rx_in_progress
            &&& after.tx_buffer == before.tx_buffer
        } else {
            &&& after.tx_in_progress == Some(app_id)
            &&& after.rx_in_progress == Some(app_id)
            &&& app_after.pending_write == app.pending_write
            &&& after.tx_buffer is None
            &&& if before.tx_buffer is Some {
                &&& transmit is Some
                &&& transmit->0.buffer@ == Self::staged(
                    before.tx_buffer->0@,
                    slice@,
                    app.write_remaining,
                )
                &&& transmit->0.len == spec_min(
                    app.write_remaining,
                    before.tx_buffer->0@.len() as usize,
                )
                &&& app_after.write_remaining == app.write_remaining - transmit->0.len
            } else {
                transmit is None && app_after.write_remaining == app.write_remaining
            }
        }
    }

    /// Sends for an application that has its bytes in `slice`.
    ///
    /// With the port free, the transmit buffer is filled from the front of
    /// the slice and sent: as many bytes as the application has left, or a
    /// buffer full if it has more, which stay to be sent. With the port
    /// taken the application is marked as waiting. The slice goes back to
    /// the application either way.
    pub fn send(&mut self, app_id: AppId, slice: Vec<u8>) -> (transmit: Option<UartTransfer>)
        requires
            old(self).wf(),
            app_id.idx < old(self).apps@.len(),
        ensures
            final(self).wf(),
            Self::sent(*old(self), *final(self), app_id, slice, transmit),
    {
        let mut transmit: Option<UartTransfer> = None;
        if self.tx_in_progress.is_none() {
            self.tx_in_progress = Some(app_id);
            self.rx_in_progress = Some(app_id);
            match self.tx_buffer.take() {
                Some(mut buffer) => {
                    let remaining: usize = self.apps[app_id.idx].write_remaining;
                    let mut transaction_len: usize = remaining;
                    copy_into(&mut buffer, &slice, 0, min(remaining, slice.len()));
                    // did everything fit in the buffer
                    if remaining > buffer.len() {
                        transaction_len = buffer.len();
                        self.apps[app_id.idx].write_remaining = remaining - buffer.len();
                    } else {
                        self.apps[app_id.idx].write_remaining = 0;
                    }
                    transmit = Some(UartTransfer { buffer, len: transaction_len });
                },
                None => {},
            }
        } else {
            self.apps[app_id.idx].pending_write = true;
        }
        self.apps[app_id.idx].write_buffer = Some(slice);
        transmit
    }

    /// Starts to send `len` bytes, or as many as the application's buffer
    /// holds, for `app_id`. Refused with `EBUSY` if the application has
    /// given no buffer.
    pub fn send_new(&mut self, app_id: AppId, len: usize) -> (r: (ReturnCode, Option<UartTransfer>))
        requires
            old(self).wf(),
            app_id.idx < old(self).apps@.len(),
        ensures
            final(self).wf(),
            final(self).apps@.len() == old(self).apps@.len(),
            final(self).links == old(self).links,
            r.0 == if old(self).apps@[app_id.idx as int].write_buffer is Some {
                ReturnCode::SUCCESS
            } else {
                ReturnCode::EBUSY
            },
            r.0 is EBUSY ==> r.1 is None && *final(self) == *old(self),
            r.0 is SUCCESS ==> {
                let before = old(self).apps@[app_id.idx as int];
                let after = final(self).apps@[app_id.idx as int];
                let wanted = spec_min(len, before.write_buffer->0@.len() as usize);
                &&& after.write_len == wanted
                &&& after.write_buffer == before.write_buffer
                &&& r.1 is Some <==> old(self).tx_in_progress is None && old(self).tx_buffer is Some
                &&& r.1 is Some ==> r.1->0.len == spec_min(
                    wanted,
                    old(self).tx_buffer->0@.len() as usize,
                ) && r.1->0.buffer@ == Self::staged(
                    old(self).tx_buffer->0@,
                    before.write_buffer->0@,
                    wanted,
                ) && after.write_remaining == wanted - r.1->0.len
                &&& r.1 is None ==> after.write_remaining == wanted
                &&& after.pending_write == (before.pending_write || old(self).tx_in_progress is Some)
            },
    {
        if self.apps[app_id.idx].write_buffer.is_none() {
            return (ReturnCode::EBUSY, None);
        }
        let slice: Vec<u8> = self.apps[app_id.idx].write_buffer.take().unwrap();
        let wanted: usize = min(len, slice.len());
        self.apps[app_id.idx].write_len = wanted;
        self.apps[app_id.idx].write_remaining = wanted;
        let transmit = self.send(app_id, slice);
        (ReturnCode::SUCCESS, transmit)
    }

    /// Binds link `link_id` to `app_id` and starts to send for it. A link
    /// that does not exist is refused with `EINVAL`.
    pub fn send_bind(&mut self, app_id: AppId, len: usize, link_id: usize) -> (r: (
        ReturnCode,
        Option<UartTransfer>,
    ))
        requires
            old(self).wf(),
            app_id.idx < old(self).apps@.len(),
        ensures
            final(self).wf(),
            final(self).apps@.len() == old(self).apps@.len(),
            r.0 == if link_id >= LINKS {
                ReturnCode::EINVAL
            } else if old(self).apps@[app_id.idx as int].write_buffer is Some {
                ReturnCode::SUCCESS
            } else {
                ReturnCode::EBUSY
            },
            r.0 is EINVAL ==> r.1 is None && *final(self) == *old(self),
            !(r.0 is EINVAL) ==> final(self).links@ == old(self).links@.update(
                link_id as int,
                Link { app: Some(app_id), ..old(self).links@[link_id as int] },
            ),
            r.1 is Some ==> r.0 is SUCCESS,
    {
        if link_id >= self.links.len() {
            return (ReturnCode::EINVAL, None);
        }
        let link: Link = self.links[link_id];
        self.links[link_id] = Link { app: Some(app_id), ..link };
        self.send_new(app_id, len)
    }

    /// Frees link `link_id` and starts to send for `app_id`. A link that
    /// does not exist is refused with `EINVAL`.
    pub fn close_connection(&mut self, app_id: AppId, len: usize, link_id: usize) -> (r: (
        ReturnCode,
        Option<UartTransfer>,
    ))
        requires
            old(self).wf(),
            app_id.idx < old(self).apps@.len(),
        ensures
            final(self).wf(),
            final(self).apps@.len() == old(self).apps@.len(),
            r.0 == if link_id >= LINKS {
                ReturnCode::EINVAL
            } else if old(self).apps@[app_id.idx as int].write_buffer is Some {
                ReturnCode::SUCCESS
            } else {
                ReturnCode::EBUSY
            },
            r.0 is EINVAL ==> r.1 is None && *final(self) == *old(self),
            !(r.0 is EINVAL) ==> final(self).links@ == old(self).links@.update(
                link_id as int,
                Link { app: None, ..old(self).links@[link_id as int] },
            ),
            r.1 is Some ==> r.0 is SUCCESS,
    {
        if link_id >= self.links.len() {
            return (ReturnCode::EINVAL, None);
        }
        let link: Link = self.links[link_id];
        self.links[link_id] = Link { app: None, ..link };
        self.send_new(app_id, len)
    }

    /// Goes on with what `app_id` has left to send: `Ok(true)` if more was
    /// started or is waiting for the port, `Ok(false)` if nothing is left,
    /// and `ERESERVE` if bytes are left and the application's buffer is
    /// gone.
    pub fn send_continue(&mut self, app_id: AppId) -> (r: (
        Result<bool, ReturnCode>,
        Option<UartTransfer>,
    ))
        requires
            old(self).wf(),
            app_id.idx < old(self).apps@.len(),
        ensures
            final(self).wf(),
            r.0 == if old(self).apps@[app_id.idx as int].write_remaining == 0 {
                Ok::<bool, ReturnCode>(false)
            } else if old(self).apps@[app_id.idx as int].write_buffer is Some {
                Ok(true)
            } else {
                Err(ReturnCode::ERESERVE)
            },
            !(r.0 matches Ok(true)) ==> r.1 is None && *final(self) == *old(self),
            r.0 matches Ok(true) ==> Self::sent(
                *old(self),
                *final(self),
                app_id,
                old(self).apps@[app_id.idx as int].write_buffer->0,
                r.1,
            ),
    {
        if self.apps[app_id.idx].write_remaining > 0 {
            if self.apps[app_id.idx].write_buffer.is_none() {
                return (Err(ReturnCode::ERESERVE), None);
            }
            let slice: Vec<u8> = self.apps[app_id.idx].write_buffer.take().unwrap();
            let transmit = self.send(app_id, slice);
            (Ok(true), transmit)
        } else {
            (Ok(false), None)
        }
    }

    /// Starts to receive `len` bytes, or as many as the application's buffer
    /// holds, for `app_id`.
    ///
    /// Refused with `EBUSY` while the receive buffer is out, and with
    /// `EINVAL` if the application has given no buffer or asks for more
    /// than the receive buffer holds.
    pub fn receive_new(&mut self, app_id: AppId, len: usize) -> (r: (
        ReturnCode,
        Option<UartTransfer>,
    ))
        requires
            old(self).wf(),
            app_id.idx < old(self).apps@.len(),
        ensures
            final(self).wf(),
            final(self).apps@.len() == old(self).apps@.len(),
            ({
                let before = old(self).apps@[app_id.idx as int];
                let wanted = spec_min(len, before.read_buffer->0@.len() as usize);
                &&& r.0 == if old(self).rx_buffer is None {
                    ReturnCode::EBUSY
                } else if before.read_buffer is None || wanted > old(self).rx_buffer->0@.len() {
                    ReturnCode::EINVAL
                } else {
                    ReturnCode::SUCCESS
                }
                &&& !(r.0 is SUCCESS) ==> r.1 is None && *final(self) == *old(self)
                &&& r.0 is SUCCESS ==> {
                    &&& r.1 == Some(UartTransfer { buffer: old(self).rx_buffer->0, len: wanted })
                    &&& final(self).rx_buffer is None
                    &&& final(self).rx_in_progress == Some(app_id)
                    &&& final(self).apps@[app_id.idx as int].read_len == wanted
                    &&& final(self).tx_in_progress == old(self).tx_in_progress
                    &&& final(self).links == old(self).links
                }
            }),
    {
        if self.rx_buffer.is_none() {
            // one receive at a time; others try again
            return (ReturnCode::EBUSY, None);
        }
        let slice_len: usize = match &self.apps[app_id.idx].read_buffer {
            Some(slice) => slice.len(),
            None => {
                // the buffer comes before the receive
                return (ReturnCode::EINVAL, None);
            },
        };
        let read_len: usize = min(len, slice_len);
        let capacity: usize = match &self.rx_buffer {
            Some(buffer) => buffer.len(),
            None => 0,
        };
        if read_len > capacity {
            (ReturnCode::EINVAL, None)
        } else {
            self.apps[app_id.idx].read_len = read_len;
            let buffer: Vec<u8> = self.rx_buffer.take().unwrap();
            self.rx_in_progress = Some(app_id);
            (ReturnCode::SUCCESS, Some(UartTransfer { buffer, len: read_len }))
        }
    }

    /// The callback of the application that the module's answer concerns,
    /// with `code` as its first argument; that application is then no
    /// longer waited for.
    fn answer(&mut self, code: ReturnCode) -> (upcall: Option<Upcall>)
        ensures
            *final(self) == (EspSerial { rx_in_progress: None, ..*old(self) }),
            upcall == if old(self).rx_in_progress is Some && old(self).rx_in_progress->0.idx
                < old(self).apps@.len() && old(self).apps@[old(self).rx_in_progress->0.idx as int].read_callback is Some {
                Some(
                    Upcall {
                        callback: old(self).apps@[old(self).rx_in_progress->0.idx as int].read_callback->0,
                        r0: code.spec_to_isize() as isize as usize,
                        r1: 0,
                        r2: 0,
                    },
                )
            } else {
                None
            },
    {
        match self.rx_in_progress.take() {
            Some(appid) => {
                if appid.idx < self.apps.len() {
                    match self.apps[appid.idx].read_callback {
                        Some(cb) => Some(cb.schedule(code.to_usize(), 0, 0)),
                        None => None,
                    }
                } else {
                    None
                }
            },
            None => None,
        }
    }

    /// Hands the bytes of the line from `start` to `end` to `appid`: they
    /// go to the front of its receive buffer, as far as it reaches, and its
    /// callback is told how many there were.
    fn deliver(&mut self, appid: AppId, start: usize, end: usize) -> (upcall: Option<Upcall>)
        requires
            old(self).wf(),
            start <= end <= old(self).rx_buffer_helper@.len(),
        ensures
            final(self).wf(),
            final(self).apps@.len() == old(self).apps@.len(),
            forall|j: int|
                0 <= j < old(self).apps@.len() && j != appid.idx ==> final(self).apps@[j] == old(self).apps@[j],
            *final(self) == (EspSerial { apps: final(self).apps, ..*old(self) }),
            ({
                let served = appid.idx < old(self).apps@.len() && old(self).apps@[appid.idx as int].read_callback is Some && old(self).apps@[appid.idx as int].read_buffer is Some;
                &&& !served ==> upcall is None && final(self).apps == old(self).apps
                &&& served ==> {
                    let before = old(self).apps@[appid.idx as int];
                    let after = final(self).apps@[appid.idx as int];
                    &&& upcall == Some(
                        Upcall {
                            callback: before.read_callback->0,
                            r0: 0,
                            r1: (end - start) as usize,
                            r2: 0,
                        },
                    )
                    &&& after.read_buffer is Some
                    &&& after.read_buffer->0@ == received_into(
                        before.read_buffer->0@,
                        old(self).rx_buffer_helper@,
                        start as int,
                        end as int,
                    )
                    &&& after.write_buffer == before.write_buffer
                    &&& after.write_callback == before.write_callback
                    &&& after.read_callback == before.read_callback
                    &&& after.write_len == before.write_len
                    &&& after.write_remaining == before.write_remaining
                    &&& after.pending_write == before.pending_write
                    &&& after.read_len == before.read_len
                }
            }),
    {
        if appid.idx >= self.apps.len() {
            return None;
        }
        match self.apps[appid.idx].read_callback {
            Some(cb) => {
                if self.apps[appid.idx].read_buffer.is_none() {
                    return None;
                }
                let mut app_buffer: Vec<u8> = self.apps[appid.idx].read_buffer.take().unwrap();
                copy_into(&mut app_buffer, &self.rx_buffer_helper, start, end);
                self.apps[appid.idx].read_buffer = Some(app_buffer);
                Some(cb.schedule(ReturnCode::SUCCESS.to_usize(), end - start, 0))
            },
            None => None,
        }
    }

    /// Acts on the line collected.
    ///
    /// Done, failed and already connected are told to the application that
    /// waits for the module's answer, which then waits no longer. Data goes
    /// to the application that holds the link named; the address goes to the
    /// application that waits for the answer. Anything else is passed over.
    pub fn read_command(&mut self) -> (upcall: Option<Upcall>)
        requires
            old(self).wf(),
        ensures
            final(self).wf(),
            final(self).apps@.len() == old(self).apps@.len(),
            final(self).links == old(self).links,
            final(self).rx_buffer_helper == old(self).rx_buffer_helper,
            final(self).helper_pos == old(self).helper_pos,
            final(self).tx_in_progress == old(self).tx_in_progress,
            final(self).tx_buffer == old(self).tx_buffer,
            final(self).rx_buffer == old(self).rx_buffer,
            ({
                let waiting = old(self).rx_in_progress;
                let callback_of = |a: Option<AppId>|
                    if a is Some && a->0.idx < old(self).apps@.len() {
                        old(self).apps@[a->0.idx as int].read_callback
                    } else {
                        None::<Callback>
                    };
                match parse(old(self).rx_buffer_helper@) {
                    Reply::Done | Reply::Failed | Reply::AlreadyConnected => {
                        let code = match parse(old(self).rx_buffer_helper@) {
                            Reply::Done => ReturnCode::SUCCESS,
                            Reply::Failed => ReturnCode::FAIL,
                            _ => ReturnCode::EALREADY,
                        };
                        &&& final(self).rx_in_progress is None
                        &&& final(self).apps == old(self).apps
                        &&& upcall == if callback_of(waiting) is Some {
                            Some(
                                Upcall {
                                    callback: callback_of(waiting)->0,
                                    r0: code.spec_to_isize() as isize as usize,
                                    r1: 0,
                                    r2: 0,
                                },
                            )
                        } else {
                            None
                        }
                    },
                    Reply::Data { link, start, end } => {
                        &&& final(self).rx_in_progress == waiting
                        &&& if 48 <= link < 48 + LINKS && old(self).links@[link
                            - 48].app is Some {
                            let holder = old(self).links@[link - 48].app->0;
                            &&& upcall is Some ==> upcall->0.r1 == end - start && callback_of(
                                Some(holder),
                            ) == Some(upcall->0.callback)
                            &&& upcall is Some ==> final(self).apps@[holder.idx as int].read_buffer->0@ == received_into(
                                old(self).apps@[holder.idx as int].read_buffer->0@,
                                old(self).rx_buffer_helper@,
                                start as int,
                                end as int,
                            )
                            &&& upcall is Some <==> callback_of(Some(holder)) is Some && old(self).apps@[holder.idx as int].read_buffer is Some
                        } else {
                            upcall is None && final(self).apps == old(self).apps
                        }
                    },
                    Reply::Address { start, end } => {
                        &&& final(self).rx_in_progress is None
                        &&& upcall is Some ==> upcall->0.r1 == end - start && callback_of(waiting)
                            == Some(upcall->0.callback)
                        &&& upcall is Some ==> final(self).apps@[waiting->0.idx as int].read_buffer->0@ == received_into(
                            old(self).apps@[waiting->0.idx as int].read_buffer->0@,
                            old(self).rx_buffer_helper@,
                            start as int,
                            end as int,
                        )
                        &&& upcall is Some <==> callback_of(waiting) is Some && old(self).apps@[waiting->0.idx as int].read_buffer is Some
                    },
                    Reply::Nothing => upcall is None && *final(self) == *old(self),
                }
            }),
    {
        match parse_reply(&self.rx_buffer_helper) {
            Reply::Done => self.answer(ReturnCode::SUCCESS),
            Reply::Failed => self.answer(ReturnCode::FAIL),
            Reply::AlreadyConnected => self.answer(ReturnCode::EALREADY),
            Reply::Data { link, start, end } => {
                if link >= 48 && ((link - 48) as usize) < self.links.len() {
                    match self.links[(link - 48) as usize].app {
                        Some(appid) => self.deliver(appid, start, end),
                        None => None,
                    }
                } else {
                    None
                }
            },
            Reply::Address { start, end } => {
                match self.rx_in_progress.take() {
                    Some(appid) => self.deliver(appid, start, end),
                    None => None,
                }
            },
            Reply::Nothing => None,
        }
    }

    /// Takes a buffer from an application, or takes its buffer away: 1 is
    /// the buffer to send from, 2 the buffer to receive into. The buffer
    /// that the application had there before comes back; a buffer that is
    /// not taken comes back itself.
    pub fn allow(&mut self, appid: AppId, allow_num: usize, slice: Option<Vec<u8>>) -> (r: (
        ReturnCode,
        Option<Vec<u8>>,
    ))
        requires
            old(self).wf(),
        ensures
            final(self).wf(),
            final(self).apps@.len() == old(self).apps@.len(),
            r.0 == if allow_num != 1 && allow_num != 2 {
                ReturnCode::ENOSUPPORT
            } else if appid.idx >= old(self).apps@.len() {
                ReturnCode::EINVAL
            } else {
                ReturnCode::SUCCESS
            },
            !(r.0 is SUCCESS) ==> r.1 == slice && *final(self) == *old(self),
            r.0 is SUCCESS && allow_num == 1 ==> final(self).apps@[appid.idx as int].write_buffer
                == slice && r.1 == old(self).apps@[appid.idx as int].write_buffer && final(self).apps@[appid.idx as int].read_buffer == old(self).apps@[appid.idx as int].read_buffer,
            r.0 is SUCCESS && allow_num == 2 ==> final(self).apps@[appid.idx as int].read_buffer
                == slice && r.1 == old(self).apps@[appid.idx as int].read_buffer && final(self).apps@[appid.idx as int].write_buffer == old(self).apps@[appid.idx as int].write_buffer,
            forall|j: int|
                0 <= j < old(self).apps@.len() && j != appid.idx ==> final(self).apps@[j] == old(self).apps@[j],
    {
        match allow_num {
            1 => {
                if appid.idx < self.apps.len() {
                    let previous = self.apps[appid.idx].write_buffer.take();
                    self.apps[appid.idx].write_buffer = slice;
                    (ReturnCode::SUCCESS, previous)
                } else {
                    (ReturnCode::EINVAL, slice)
                }
            },
            2 => {
                if appid.idx < self.apps.len() {
                    let previous = self.apps[appid.idx].read_buffer.take();
                    self.apps[appid.idx].read_buffer = slice;
                    (ReturnCode::SUCCESS, previous)
                } else {
                    (ReturnCode::EINVAL, slice)
                }
            },
            _ => (ReturnCode::ENOSUPPORT, slice),
        }
    }

    /// Registers, replaces or removes a callback of `app_id`: 1 is called
    /// when sending is done, 2 when something was received.
    pub fn subscribe(&mut self, subscribe_num: usize, callback: Option<Callback>, app_id: AppId) -> (r:
        ReturnCode)
        requires
            old(self).wf(),
        ensures
            final(self).wf(),
            final(self).apps@.len() == old(self).apps@.len(),
            r == if subscribe_num != 1 && subscribe_num != 2 {
                ReturnCode::ENOSUPPORT
            } else if app_id.idx >= old(self).apps@.len() {
                ReturnCode::EINVAL
            } else {
                ReturnCode::SUCCESS
            },
            !(r is SUCCESS) ==> *final(self) == *old(self),
            r is SUCCESS && subscribe_num == 1 ==> final(self).apps@[app_id.idx as int].write_callback == callback && final(self).apps@[app_id.idx as int].read_callback == old(self).apps@[app_id.idx as int].read_callback,
            r is SUCCESS && subscribe_num == 2 ==> final(self).apps@[app_id.idx as int].read_callback
                == callback && final(self).apps@[app_id.idx as int].write_callback == old(self).apps@[app_id.idx as int].write_callback,
            r is SUCCESS ==> final(self).apps@[app_id.idx as int].write_buffer == old(self).apps@[app_id.idx as int].write_buffer && final(self).apps@[app_id.idx as int].read_buffer == old(self).apps@[app_id.idx as int].read_buffer,
            forall|j: int|
                0 <= j < old(self).apps@.len() && j != app_id.idx ==> final(self).apps@[j] == old(self).apps@[j],
    {
        match subscribe_num {
            1 => {
                if app_id.idx < self.apps.len() {
                    self.apps[app_id.idx].write_callback = callback;
                    ReturnCode::SUCCESS
                } else {
                    ReturnCode::EINVAL
                }
            },
            2 => {
                if app_id.idx < self.apps.len() {
                    self.apps[app_id.idx].read_callback = callback;
                    ReturnCode::SUCCESS
                } else {
                    ReturnCode::EINVAL
                }
            },
            _ => ReturnCode::ENOSUPPORT,
        }
    }

    /// A request from the application.
    ///
    /// 0 asks whether the driver is there. 1 binds link `arg2` and sends
    /// `arg1` bytes. 2 sends `arg1` bytes. 3 receives `arg1` bytes. 4 aborts
    /// the reception under way. 5 frees link `arg2` and sends `arg1` bytes.
    /// 6 asks for a free link and answers with its number, or with `EBUSY`
    /// if there is none. Anything else is `ENOSUPPORT`; an application that
    /// does not exist is `EINVAL`.
    pub fn command(&mut self, cmd_num: usize, arg1: usize, arg2: usize, appid: AppId) -> (r: (
        ReturnCode,
        Effects,
    ))
        requires
            old(self).wf(),
        ensures
            final(self).wf(),
            final(self).apps@.len() == old(self).apps@.len(),
            r.1.upcalls@.len() == 0,
            cmd_num == 0 ==> r.0 is SUCCESS && *final(self) == *old(self),
            cmd_num > 6 ==> r.0 is ENOSUPPORT && *final(self) == *old(self),
            cmd_num == 4 ==> r.0 is SUCCESS && r.1.abort && *final(self) == *old(self),
            cmd_num != 4 ==> !r.1.abort,
            1 <= cmd_num <= 6 && cmd_num != 4 && appid.idx >= old(self).apps@.len() ==> r.0 == (
            if cmd_num == 6 {
                ReturnCode::SuccessWithValue { value: 0 }
            } else {
                ReturnCode::EINVAL
            }) && *final(self) == *old(self),
            (cmd_num == 1 || cmd_num == 5) && appid.idx < old(self).apps@.len() ==> r.0
                == if arg2 >= LINKS {
                ReturnCode::EINVAL
            } else if old(self).apps@[appid.idx as int].write_buffer is Some {
                ReturnCode::SUCCESS
            } else {
                ReturnCode::EBUSY
            },
            cmd_num == 2 && appid.idx < old(self).apps@.len() ==> r.0 == if old(self).apps@[appid.idx as int].write_buffer is Some {
                ReturnCode::SUCCESS
            } else {
                ReturnCode::EBUSY
            },
            cmd_num == 3 && appid.idx < old(self).apps@.len() ==> r.0 == if old(self).rx_buffer is None {
                ReturnCode::EBUSY
            } else if old(self).apps@[appid.idx as int].read_buffer is None || spec_min(
                arg1,
                old(self).apps@[appid.idx as int].read_buffer->0@.len() as usize,
            ) > old(self).rx_buffer->0@.len() {
                ReturnCode::EINVAL
            } else {
                ReturnCode::SUCCESS
            },
            cmd_num == 6 && appid.idx < old(self).apps@.len() ==> r.0 == if Self::first_free_link(
                old(self).links@,
                0,
            ) < LINKS {
                ReturnCode::SuccessWithValue {
                    value: Self::first_free_link(old(self).links@, 0) as usize,
                }
            } else {
                ReturnCode::EBUSY
            },
            cmd_num != 3 ==> r.1.receive is None,
            cmd_num == 0 || cmd_num == 3 || cmd_num == 4 || cmd_num >= 6 ==> r.1.transmit is None,
    {
        let mut effects = Effects { transmit: None, receive: None, abort: false, upcalls: Vec::new() };
        let known: bool = appid.idx < self.apps.len();
        match cmd_num {
            0 => (ReturnCode::SUCCESS, effects),
            1 => {
                if !known {
                    return (ReturnCode::EINVAL, effects);
                }
                self.apps[appid.idx].write_len = arg1;
                let (code, transmit) = self.send_bind(appid, arg1, arg2);
                effects.transmit = transmit;
                (code, effects)
            },
            2 => {
                if !known {
                    return (ReturnCode::EINVAL, effects);
                }
                self.apps[appid.idx].write_len = arg1;
                let (code, transmit) = self.send_new(appid, arg1);
                effects.transmit = transmit;
                (code, effects)
            },
            3 => {
                if !known {
                    return (ReturnCode::EINVAL, effects);
                }
                let (code, receive) = self.receive_new(appid, arg1);
                effects.receive = receive;
                (code, effects)
            },
            4 => {
                effects.abort = true;
                (ReturnCode::SUCCESS, effects)
            },
            5 => {
                if !known {
                    return (ReturnCode::EINVAL, effects);
                }
                let (code, transmit) = self.close_connection(appid, arg1, arg2);
                effects.transmit = transmit;
                (code, effects)
            },
            6 => {
                let val: usize = if known {
                    self.get_linkid(appid)
                } else {
                    0
                };
                if val == NO_LINK {
                    (ReturnCode::EBUSY, effects)
                } else {
                    (ReturnCode::SuccessWithValue { value: val }, effects)
                }
            },
            _ => (ReturnCode::ENOSUPPORT, effects),
        }
    }

    /// The line and its length after byte `b` arrived, and whether the byte
    /// ends the line: a line feed or carriage return ends it; a backspace
    /// takes the last byte away; any other ASCII byte is added if there is
    /// room for it and the closing zero.
    pub open spec fn line_after(line: Seq<u8>, pos: usize, b: u8) -> (Seq<u8>, usize, bool) {
        if b == 0x0A || b == 0x0D {
            (line, pos, true)
        } else if b == 0x08 && pos > 0 {
            (line.update(pos - 1, 0), (pos - 1) as usize, false)
        } else if pos + 1 < line.len() && b < 128 {
            (line.update(pos as int, b).update(pos + 1, 0), (pos + 1) as usize, false)
        } else {
            (line, pos, false)
        }
    }

    /// Adds a byte that arrived to the line.
    fn collect(&mut self, b: u8)
        requires
            old(self).wf(),
        ensures
            final(self).wf(),
            final(self).rx_buffer_helper@ == Self::line_after(
                old(self).rx_buffer_helper@,
                old(self).helper_pos,
                b,
            ).0,
            final(self).helper_pos == Self::line_after(
                old(self).rx_buffer_helper@,
                old(self).helper_pos,
                b,
            ).1,
            final(self).new_line == (old(self).new_line || Self::line_after(
                old(self).rx_buffer_helper@,
                old(self).helper_pos,
                b,
            ).2),
            final(self).apps == old(self).apps,
            final(self).links == old(self).links,
            final(self).tx_in_progress == old(self).tx_in_progress,
            final(self).rx_in_progress == old(self).rx_in_progress,
            final(self).tx_buffer == old(self).tx_buffer,
            final(self).rx_buffer == old(self).rx_buffer,
            final(self).tx_in_progress_helper == old(self).tx_in_progress_helper,
    {
        let index: usize = self.helper_pos;
        if b == 0x0A || b == 0x0D {
            self.new_line = true;
        } else if b == 0x08 && index > 0 {
            // a backspace removes the last byte
            self.rx_buffer_helper[index - 1] = 0;
            self.helper_pos = index - 1;
        } else if index < self.rx_buffer_helper.len() - 1 && b < 128 {
            // store the byte and close the line behind it
            self.rx_buffer_helper[index] = b;
            self.helper_pos = index + 1;
            self.rx_buffer_helper[index + 1] = 0;
        }
    }

    /// The port received `rx_len` bytes into `buffer`.
    ///
    /// A single byte received without error is added to the line. If the
    /// line is complete it is acted on, as `read_command` says, and a new
    /// line begins. The buffer goes back to the port for the next byte.
    pub fn received_buffer(&mut self, buffer: Vec<u8>, rx_len: usize, rcode: ReturnCode, error: Error) -> (effects:
        Effects)
        requires
            old(self).wf(),
        ensures
            final(self).wf(),
            final(self).apps@.len() == old(self).apps@.len(),
            final(self).links == old(self).links,
            final(self).tx_in_progress == old(self).tx_in_progress,
            final(self).tx_buffer == old(self).tx_buffer,
            final(self).rx_buffer == old(self).rx_buffer,
            effects.receive == Some(UartTransfer { buffer, len: 1 }),
            effects.transmit is None,
            !effects.abort,
            effects.upcalls@.len() <= 1,
            ({
                let taken = error is NoError && rx_len == 1 && buffer@.len() >= 1;
                let (line, pos, ended) = if taken {
                    Self::line_after(old(self).rx_buffer_helper@, old(self).helper_pos, buffer@[0])
                } else {
                    (old(self).rx_buffer_helper@, old(self).helper_pos, false)
                };
                if ended || old(self).new_line {
                    &&& final(self).rx_buffer_helper@ == line.update(0, 0)
                    &&& final(self).helper_pos == 0
                    &&& !final(self).new_line
                    &&& match parse(line) {
                        Reply::Nothing => effects.upcalls@.len() == 0 && final(self).apps == old(
                            self,
                        ).apps && final(self).rx_in_progress == old(self).rx_in_progress,
                        Reply::Data { .. } => final(self).rx_in_progress == old(
                            self,
                        ).rx_in_progress,
                        _ => final(self).rx_in_progress is None,
                    }
                } else {
                    &&& final(self).rx_buffer_helper@ == line
                    &&& final(self).helper_pos == pos
                    &&& !final(self).new_line
                    &&& effects.upcalls@.len() == 0
                    &&& final(self).apps == old(self).apps
                    &&& final(self).rx_in_progress == old(self).rx_in_progress
                }
            }),
    {
        let mut upcalls: Vec<Upcall> = Vec::new();
        match error {
            Error::NoError => {
                if rx_len == 1 && buffer.len() >= 1 {
                    self.collect(buffer[0]);
                }
            },
            _ => {},
        }
        if self.new_line {
            match self.read_command() {
                Some(upcall) => {
                    upcalls.push(upcall);
                },
                None => {},
            }
            self.rx_buffer_helper[0] = 0;
            self.helper_pos = 0;
            self.new_line = false;
        }
        Effects { transmit: None, receive: Some(UartTransfer { buffer, len: 1 }), abort: false, upcalls }
    }

    /// Tells an application that its sending failed and forgets what it had
    /// left to send.
    fn give_up(&mut self, app_id: AppId, code: ReturnCode) -> (upcall: Option<Upcall>)
        requires
            old(self).wf(),
            app_id.idx < old(self).apps@.len(),
        ensures
            final(self).wf(),
            final(self).apps@.len() == old(self).apps@.len(),
            *final(self) == (EspSerial { apps: final(self).apps, ..*old(self) }),
            forall|j: int|
                0 <= j < old(self).apps@.len() && j != app_id.idx ==> final(self).apps@[j] == old(
                    self,
                ).apps@[j],
            ({
                let before = old(self).apps@[app_id.idx as int];
                let after = final(self).apps@[app_id.idx as int];
                &&& after.write_len == 0 && after.write_remaining == 0 && !after.pending_write
                &&& after.write_buffer == before.write_buffer
                &&& after.read_buffer == before.read_buffer
                &&& after.write_callback == before.write_callback
                &&& after.read_callback == before.read_callback
                &&& after.read_len == before.read_len
                &&& upcall == if before.write_callback is Some {
                    Some(
                        Upcall {
                            callback: before.write_callback->0,
                            r0: code.spec_to_isize() as isize as usize,
                            r1: 0,
                            r2: 0,
                        },
                    )
                } else {
                    None
                }
            }),
    {
        self.apps[app_id.idx].write_len = 0;
        self.apps[app_id.idx].write_remaining = 0;
        self.apps[app_id.idx].pending_write = false;
        match self.apps[app_id.idx].write_callback {
            Some(cb) => Some(cb.schedule(code.to_usize(), 0, 0)),
            None => None,
        }
    }

    /// The port is done sending and hands `buffer` back.
    ///
    /// The application whose bytes were sent goes on if it has bytes left;
    /// if it has none, it is told how many were sent in all. With the port
    /// free after that, the first application that waits for it, in the
    /// order of the applications, goes on. An application that has bytes
    /// left and no buffer any more is told `ERESERVE`.
    pub fn transmitted_buffer(&mut self, buffer: Vec<u8>, tx_len: usize, rcode: ReturnCode) -> (effects:
        Effects)
        requires
            old(self).wf(),
        ensures
            final(self).wf(),
            final(self).apps@.len() == old(self).apps@.len(),
            final(self).links == old(self).links,
            final(self).rx_buffer == old(self).rx_buffer,
            final(self).rx_buffer_helper == old(self).rx_buffer_helper,
            final(self).helper_pos == old(self).helper_pos,
            final(self).new_line == old(self).new_line,
            !final(self).tx_in_progress_helper,
            effects.receive is None,
            !effects.abort,
            effects.transmit is Some <==> final(self).tx_in_progress is Some,
            effects.transmit is None ==> final(self).tx_buffer == Some(buffer),
            effects.transmit is Some ==> final(self).tx_buffer is None && effects.transmit->0.buffer@.len()
                == buffer@.len() && effects.transmit->0.len <= buffer@.len(),
            forall|j: int|
                0 <= j < final(self).apps@.len() ==> (#[trigger] final(self).apps@[j]).write_callback
                    == old(self).apps@[j].write_callback && final(self).apps@[j].read_callback
                    == old(self).apps@[j].read_callback && final(self).apps@[j].read_buffer == old(
                    self,
                ).apps@[j].read_buffer && final(self).apps@[j].write_buffer == old(
                    self,
                ).apps@[j].write_buffer,
            ({
                let sender = old(self).tx_in_progress;
                sender is Some && sender->0.idx < old(self).apps@.len() ==> {
                    let before = old(self).apps@[sender->0.idx as int];
                    &&& before.write_remaining == 0 ==> effects.upcalls@.len() >= (
                    if before.write_callback is Some {
                        1int
                    } else {
                        0int
                    }) && (before.write_callback is Some ==> effects.upcalls@[0] == (Upcall {
                        callback: before.write_callback->0,
                        r0: 0,
                        r1: before.write_len,
                        r2: 0,
                    }))
                    &&& before.write_remaining > 0 && before.write_buffer is Some ==> {
                        &&& effects.transmit is Some
                        &&& final(self).tx_in_progress == sender
                        &&& effects.transmit->0.buffer@ == Self::staged(
                            buffer@,
                            before.write_buffer->0@,
                            before.write_remaining,
                        )
                        &&& effects.transmit->0.len == spec_min(
                            before.write_remaining,
                            buffer@.len() as usize,
                        )
                        &&& effects.upcalls@.len() == 0
                    }
                }
            }),
    {
        let mut upcalls: Vec<Upcall> = Vec::new();
        let mut transmit: Option<UartTransfer> = None;
        self.tx_in_progress_helper = false;
        self.tx_buffer = Some(buffer);
        let ghost written_to: Seq<App> = self.apps@;
        match self.tx_in_progress.take() {
            Some(appid) => {
                if appid.idx < self.apps.len() {
                    let (outcome, started) = self.send_continue(appid);
                    transmit = started;
                    match outcome {
                        Ok(more_to_send) => {
                            if !more_to_send {
                                // tell the application
                                let written: usize = self.apps[appid.idx].write_len;
                                self.apps[appid.idx].write_len = 0;
                                match self.apps[appid.idx].write_callback {
                                    Some(cb) => {
                                        upcalls.push(
                                            cb.schedule(ReturnCode::SUCCESS.to_usize(), written, 0),
                                        );
                                    },
                                    None => {},
                                }
                            }
                        },
                        Err(return_code) => {
                            match self.give_up(appid, return_code) {
                                Some(upcall) => {
                                    upcalls.push(upcall);
                                },
                                None => {},
                            }
                        },
                    }
                }
            },
            None => {},
        }
        let ghost first: Seq<Upcall> = upcalls@;
        // if nothing more is sent for that application, others may be
        // waiting
        if self.tx_in_progress.is_none() {
            let n: usize = self.apps.len();
            let mut i: usize = 0;
            while i < n
                invariant_except_break
                    transmit is None,
                invariant
                    self.wf(),
                    i <= n,
                    n == self.apps@.len(),
                    n == old(self).apps@.len(),
                    self.links == old(self).links,
                    self.rx_buffer == old(self).rx_buffer,
                    self.rx_buffer_helper == old(self).rx_buffer_helper,
                    self.helper_pos == old(self).helper_pos,
                    self.new_line == old(self).new_line,
                    !self.tx_in_progress_helper,
                    transmit is Some <==> self.tx_in_progress is Some,
                    transmit is None ==> self.tx_buffer == Some(buffer),
                    transmit is Some ==> self.tx_buffer is None && transmit->0.buffer@.len()
                        == buffer@.len() && transmit->0.len <= buffer@.len(),
                    upcalls@.len() >= first.len(),
                    upcalls@.take(first.len() as int) == first,
                    forall|j: int|
                        0 <= j < n ==> (#[trigger] self.apps@[j]).write_callback == old(
                            self,
                        ).apps@[j].write_callback && self.apps@[j].read_callback == old(
                            self,
                        ).apps@[j].read_callback && self.apps@[j].read_buffer == old(
                            self,
                        ).apps@[j].read_buffer && self.apps@[j].write_buffer == old(
                            self,
                        ).apps@[j].write_buffer,
                decreases n - i,
            {
                if self.apps[i].pending_write {
                    self.apps[i].pending_write = false;
                    let (outcome, started) = self.send_continue(AppId { idx: i });
                    match outcome {
                        Ok(_) => {
                            transmit = started;
                        },
                        Err(return_code) => {
                            match self.give_up(AppId { idx: i }, return_code) {
                                Some(upcall) => {
                                    upcalls.push(upcall);
                                },
                                None => {},
                            }
                        },
                    }
                }
                if transmit.is_some() {
                    break;
                }
                i += 1;
            }
        }
        proof {
            if first.len() > 0 {
                assert(upcalls@[0] == upcalls@.take(first.len() as int)[0]);
            }
        }
        Effects { transmit, receive: None, abort: false, upcalls }
    }
}

} // verus!
