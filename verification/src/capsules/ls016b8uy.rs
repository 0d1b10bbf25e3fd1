//! Driver for the LS016B8UY screen.
//!
//! The driver replays sequences of panel commands through one transfer
//! buffer. A sequence is copied into the driver's own sequence buffer and
//! then walked entry by entry: the opcode goes out, then the parameters,
//! then the command's delay is waited for. Each entry point either refuses
//! the request at once or accepts it and hands back what has to be started;
//! the completion of a transfer and the firing of the alarm drive the walk
//! on.

use vstd::prelude::*;
use crate::buffer::bytes_of;
use crate::capsules::frame_buffer::{
    copy_parameters,
    framed,
    high_byte,
    low_byte,
    paint,
    painted,
    shift_parameters,
    shifted,
    with_parameters,
    write_frame,
};
use crate::hil::memory_async::{BusWidth, MemoryRequest, MemoryRequestView};
use crate::hil::screen::{
    Effects,
    EffectsView,
    Notification,
    NotificationView,
    ResetLine,
    ScreenPixelFormat,
    ScreenRotation,
};
use crate::process::{AppId, Callback, Upcall};
use crate::returncode::ReturnCode;

verus! {

/// Bytes of the transfer buffer that a board usually provides.
pub const BUFFER_SIZE: usize = 24;

/// Entries of the sequence buffer that a board usually provides.
pub const SEQUENCE_BUFFER_SIZE: usize = 24;

/// One command of the panel: its opcode, the parameters it is sent with by
/// default, and the time to wait after it, in milliseconds (255 stands for
/// 500 ms).
#[derive(Debug, Clone, Copy, PartialEq)]
pub struct Command {
    pub id: u8,
    pub parameters: Option<&'static [u8]>,
    pub delay: u8,
}

impl Command {
    /// The default parameters, none if the command has none.
    pub open spec fn spec_parameters(self) -> Seq<u8> {
        match self.parameters {
            Some(p) => p@,
            None => Seq::empty(),
        }
    }

    /// The time to wait after the command, in milliseconds.
    pub open spec fn spec_delay_ms(self) -> u32 {
        if self.delay == 255 {
            500
        } else {
            self.delay as u32
        }
    }

    /// The time to wait after the command, in milliseconds.
    pub fn delay_ms(&self) -> (ms: u32)
        ensures
            ms == self.spec_delay_ms(),
    {
        if self.delay == 255 {
            500
        } else {
            self.delay as u32
        }
    }

    /// The number of default parameters.
    pub fn parameters_len(&self) -> (n: usize)
        ensures
            n == self.spec_parameters().len(),
    {
        match self.parameters {
            Some(p) => p.len(),
            None => 0,
        }
    }
}

/// No operation.
#[verifier::allow_in_spec]
pub fn nop() -> Command
    returns
        (Command { id: 0x00, parameters: None, delay: 0 }),
{
    Command { id: 0x00, parameters: None, delay: 0 }
}

/// Enter sleep mode.
#[verifier::allow_in_spec]
pub fn sleep_in() -> Command
    returns
        (Command { id: 0x10, parameters: None, delay: 0 }),
{
    Command { id: 0x10, parameters: None, delay: 0 }
}

/// Leave sleep mode.
#[verifier::allow_in_spec]
pub fn sleep_out() -> Command
    returns
        (Command { id: 0x11, parameters: None, delay: 150 }),
{
    Command { id: 0x11, parameters: None, delay: 150 }
}

/// Turn the display off.
#[verifier::allow_in_spec]
pub fn display_off() -> Command
    returns
        (Command { id: 0x28, parameters: None, delay: 0 }),
{
    Command { id: 0x28, parameters: None, delay: 0 }
}

/// Turn the display on.
#[verifier::allow_in_spec]
pub fn display_on() -> Command
    returns
        (Command { id: 0x29, parameters: None, delay: 20 }),
{
    Command { id: 0x29, parameters: None, delay: 20 }
}

/// Write to the frame memory.
#[verifier::allow_in_spec]
pub fn write_ram() -> Command
    returns
        (Command { id: 0x2C, parameters: None, delay: 0 }),
{
    Command { id: 0x2C, parameters: None, delay: 0 }
}

/// Read from the frame memory.
#[verifier::allow_in_spec]
pub fn read_ram() -> Command
    returns
        (Command { id: 0x2E, parameters: None, delay: 0 }),
{
    Command { id: 0x2E, parameters: None, delay: 0 }
}

/// Set the column range.
#[verifier::allow_in_spec]
pub fn caset() -> Command
    returns
        (Command { id: 0x2A, parameters: Some(&[0x00u8, 0x1E, 0x00, 0xD1]), delay: 0 }),
{
    Command { id: 0x2A, parameters: Some(&[0x00, 0x1E, 0x00, 0xD1]), delay: 0 }
}

/// Set the row range.
#[verifier::allow_in_spec]
pub fn raset() -> Command
    returns
        (Command { id: 0x2B, parameters: Some(&[0x00u8, 0x00, 0x00, 0xB3]), delay: 0 }),
{
    Command { id: 0x2B, parameters: Some(&[0x00, 0x00, 0x00, 0xB3]), delay: 0 }
}

/// Turn the vertical sync output on.
#[verifier::allow_in_spec]
pub fn vsync_output() -> Command
    returns
        (Command { id: 0x35, parameters: Some(&[0x00u8]), delay: 0 }),
{
    Command { id: 0x35, parameters: Some(&[0x00]), delay: 0 }
}

/// Set the scan direction of the frame memory.
#[verifier::allow_in_spec]
pub fn normal_display() -> Command
    returns
        (Command { id: 0x36, parameters: Some(&[0x83u8]), delay: 0 }),
{
    Command { id: 0x36, parameters: Some(&[0x83]), delay: 0 }
}

/// Leave idle mode.
#[verifier::allow_in_spec]
pub fn idle_off() -> Command
    returns
        (Command { id: 0x38, parameters: None, delay: 20 }),
{
    Command { id: 0x38, parameters: None, delay: 20 }
}

/// Enter idle mode.
#[verifier::allow_in_spec]
pub fn idle_on() -> Command
    returns
        (Command { id: 0x39, parameters: None, delay: 0 }),
{
    Command { id: 0x39, parameters: None, delay: 0 }
}

/// Set the pixel format.
#[verifier::allow_in_spec]
pub fn color_mode() -> Command
    returns
        (Command { id: 0x3A, parameters: Some(&[0x55u8]), delay: 0 }),
{
    Command { id: 0x3A, parameters: Some(&[0x55]), delay: 0 }
}

/// First panel setting.
#[verifier::allow_in_spec]
pub fn panel_setting1() -> Command
    returns
        (Command { id: 0xB0, parameters: Some(&[0x01u8, 0xFE]), delay: 0 }),
{
    Command { id: 0xB0, parameters: Some(&[0x01, 0xFE]), delay: 0 }
}

/// Second panel setting.
#[verifier::allow_in_spec]
pub fn panel_setting2() -> Command
    returns
        (Command { id: 0xB1, parameters: Some(&[0xDEu8, 0x21]), delay: 0 }),
{
    Command { id: 0xB1, parameters: Some(&[0xDE, 0x21]), delay: 0 }
}

/// Set the oscillator.
#[verifier::allow_in_spec]
pub fn oscillator() -> Command
    returns
        (Command { id: 0xB3, parameters: Some(&[0x02u8]), delay: 0 }),
{
    Command { id: 0xB3, parameters: Some(&[0x02]), delay: 0 }
}

/// Lock the panel settings.
#[verifier::allow_in_spec]
pub fn panel_setting_lock() -> Command
    returns
        (Command { id: 0xB4, parameters: None, delay: 0 }),
{
    Command { id: 0xB4, parameters: None, delay: 0 }
}

/// Set the vertical porch.
#[verifier::allow_in_spec]
pub fn panel_v_porch() -> Command
    returns
        (Command { id: 0xB7, parameters: Some(&[0x05u8, 0x33]), delay: 0 }),
{
    Command { id: 0xB7, parameters: Some(&[0x05, 0x33]), delay: 0 }
}

/// Set the vertical porch in idle mode.
#[verifier::allow_in_spec]
pub fn panel_idle_v_porch() -> Command
    returns
        (Command { id: 0xB8, parameters: Some(&[0x05u8, 0x33]), delay: 0 }),
{
    Command { id: 0xB8, parameters: Some(&[0x05, 0x33]), delay: 0 }
}

/// Set the GVDD voltage.
#[verifier::allow_in_spec]
pub fn gvdd() -> Command
    returns
        (Command { id: 0xC0, parameters: Some(&[0x53u8]), delay: 0 }),
{
    Command { id: 0xC0, parameters: Some(&[0x53]), delay: 0 }
}

/// Set the operational amplifiers.
#[verifier::allow_in_spec]
pub fn opamp() -> Command
    returns
        (Command { id: 0xC2, parameters: Some(&[0x03u8, 0x12]), delay: 0 }),
{
    Command { id: 0xC2, parameters: Some(&[0x03, 0x12]), delay: 0 }
}

/// Reload the VCOMH voltage.
#[verifier::allow_in_spec]
pub fn reload_mtp_vcomh() -> Command
    returns
        (Command { id: 0xC5, parameters: Some(&[0x00u8, 0x45]), delay: 0 }),
{
    Command { id: 0xC5, parameters: Some(&[0x00, 0x45]), delay: 0 }
}

/// First panel timing.
#[verifier::allow_in_spec]
pub fn panel_timing1() -> Command
    returns
        (Command { id: 0xC8, parameters: Some(&[0x04u8, 0x03]), delay: 0 }),
{
    Command { id: 0xC8, parameters: Some(&[0x04, 0x03]), delay: 0 }
}

/// Second panel timing.
#[verifier::allow_in_spec]
pub fn panel_timing2() -> Command
    returns
        (Command { id: 0xC9, parameters: Some(&[0x5Eu8, 0x08]), delay: 0 }),
{
    Command { id: 0xC9, parameters: Some(&[0x5E, 0x08]), delay: 0 }
}

/// Third panel timing.
#[verifier::allow_in_spec]
pub fn panel_timing3() -> Command
    returns
        (Command { id: 0xCA, parameters: Some(&[0x0Au8, 0x0C, 0x02]), delay: 0 }),
{
    Command { id: 0xCA, parameters: Some(&[0x0A, 0x0C, 0x02]), delay: 0 }
}

/// Fourth panel timing.
#[verifier::allow_in_spec]
pub fn panel_timing4() -> Command
    returns
        (Command { id: 0xCC, parameters: Some(&[0x03u8, 0x04]), delay: 0 }),
{
    Command { id: 0xCC, parameters: Some(&[0x03, 0x04]), delay: 0 }
}

/// Set the panel power.
#[verifier::allow_in_spec]
pub fn panel_power() -> Command
    returns
        (Command { id: 0xD0, parameters: Some(&[0x0Cu8]), delay: 0 }),
{
    Command { id: 0xD0, parameters: Some(&[0x0C]), delay: 0 }
}

/// Turn the tearing effect line on.
#[verifier::allow_in_spec]
pub fn tearing_effect() -> Command
    returns
        (Command { id: 0xDD, parameters: Some(&[0x00u8]), delay: 0 }),
{
    Command { id: 0xDD, parameters: Some(&[0x00]), delay: 0 }
}

/// How one entry of a sequence is sent.
#[derive(Debug, Copy, Clone, PartialEq)]
pub enum SendCommand {
    /// Nothing is sent.
    Nop,
    /// The command with its default parameters.
    Default(Command),
    /// The command with parameters taken from the transfer buffer: position
    /// in the buffer, then length.
    Position(Command, usize, usize),
    /// The command with one block of the transfer buffer sent several
    /// times: position in the buffer, length, number of repeats.
    Repeat(Command, usize, usize, usize),
    /// The command followed by the client's write buffer: length in bytes.
    Slice(Command, usize),
}

impl SendCommand {
    /// The entry can be sent from a transfer buffer of `buffer_len` bytes:
    /// the parameters it names lie inside the buffer, and a write buffer is
    /// there if it needs one.
    pub open spec fn fits(self, buffer_len: usize, has_write_buffer: bool) -> bool {
        match self {
            SendCommand::Nop => true,
            SendCommand::Default(cmd) => cmd.spec_parameters().len() <= buffer_len,
            SendCommand::Position(_, position, len) => position + len <= buffer_len,
            SendCommand::Repeat(_, position, len, _) => position + len <= buffer_len,
            SendCommand::Slice(_, _) => has_write_buffer,
        }
    }

    /// Whether the entry can be sent from a transfer buffer of `buffer_len`
    /// bytes.
    pub fn check_fits(&self, buffer_len: usize, has_write_buffer: bool) -> (r: bool)
        ensures
            r == self.fits(buffer_len, has_write_buffer),
    {
        match self {
            SendCommand::Nop => true,
            SendCommand::Default(cmd) => cmd.parameters_len() <= buffer_len,
            SendCommand::Position(_, position, len) => *position <= buffer_len && *len
                <= buffer_len - *position,
            SendCommand::Repeat(_, position, len, _) => *position <= buffer_len && *len
                <= buffer_len - *position,
            SendCommand::Slice(_, _) => has_write_buffer,
        }
    }
}

/// The commands that bring the panel up after a reset.
pub open spec fn spec_init_sequence() -> Seq<SendCommand> {
    seq![
        SendCommand::Default(vsync_output()),
        SendCommand::Default(color_mode()),
        SendCommand::Default(gvdd()),
        SendCommand::Default(sleep_out()),
        SendCommand::Default(normal_display()),
        SendCommand::Default(caset()),
        SendCommand::Default(raset()),
        SendCommand::Default(display_on()),
        SendCommand::Default(idle_off()),
    ]
}

/// The commands that bring the panel up after a reset.
pub fn init_sequence() -> (sequence: Vec<SendCommand>)
    ensures
        sequence@ == spec_init_sequence(),
{
    let mut sequence: Vec<SendCommand> = Vec::new();
    sequence.push(SendCommand::Default(vsync_output()));
    sequence.push(SendCommand::Default(color_mode()));
    sequence.push(SendCommand::Default(gvdd()));
    sequence.push(SendCommand::Default(sleep_out()));
    sequence.push(SendCommand::Default(normal_display()));
    sequence.push(SendCommand::Default(caset()));
    sequence.push(SendCommand::Default(raset()));
    sequence.push(SendCommand::Default(display_on()));
    sequence.push(SendCommand::Default(idle_off()));
    assert(sequence@ =~= spec_init_sequence());
    sequence
}

/// The commands that write one pixel whose position and colour were put
/// into the transfer buffer.
pub open spec fn spec_write_pixel_sequence() -> Seq<SendCommand> {
    seq![
        SendCommand::Position(caset(), 1, 4),
        SendCommand::Position(raset(), 5, 4),
        SendCommand::Position(write_ram(), 9, 2),
    ]
}

/// The commands that write one pixel whose position and colour were put
/// into the transfer buffer.
pub fn write_pixel_sequence() -> (sequence: Vec<SendCommand>)
    ensures
        sequence@ == spec_write_pixel_sequence(),
{
    let mut sequence: Vec<SendCommand> = Vec::new();
    sequence.push(SendCommand::Position(caset(), 1, 4));
    sequence.push(SendCommand::Position(raset(), 5, 4));
    sequence.push(SendCommand::Position(write_ram(), 9, 2));
    assert(sequence@ =~= spec_write_pixel_sequence());
    sequence
}

/// Where the driver stands in its work.
#[derive(Debug, Copy, Clone, PartialEq, Eq, Structural)]
pub enum Status {
    /// Nothing is going on; requests are accepted.
    Idle,
    /// The reset is over; the initialisation sequence comes next.
    Init,
    Reset1,
    Reset2,
    Reset3,
    Reset4,
    /// A command is being sent: position and length of its parameters in the
    /// transfer buffer, and how many times they are still to be sent.
    SendCommand(usize, usize, usize),
    /// The opcode of a command is being sent whose data is the write buffer,
    /// of this length.
    SendCommandSlice(usize),
    /// The write buffer is being sent.
    SendParametersSlice,
    /// The entry at the current position of the sequence comes next, at once
    /// or when the alarm fires.
    Delay,
}

/// The driver as a mathematical value.
pub struct LS016B8UYView {
    pub status: Status,
    /// The callback of the application, if one subscribed.
    pub callback: Option<Callback>,
    pub width: usize,
    pub height: usize,
    pub client: Option<usize>,
    pub setup_client: Option<usize>,
    /// The sequence in flight is a configuration command.
    pub setup_command: bool,
    pub sequence_buffer: Seq<SendCommand>,
    pub position_in_sequence: usize,
    pub sequence_len: usize,
    /// The command being sent.
    pub command: Command,
    /// The transfer buffer, while the driver holds it.
    pub buffer: Option<Seq<u8>>,
    /// The size of the transfer buffer, in the driver's hands or not.
    pub buffer_len: usize,
    /// A sequence has completed since the driver was made.
    pub power_on: bool,
    /// The client's write buffer, while the driver holds it.
    pub write_buffer: Option<Seq<u8>>,
}

impl LS016B8UYView {
    /// An entry still to come in the sequence sends the write buffer.
    pub open spec fn slice_ahead(self) -> bool {
        exists|i: int|
            self.position_in_sequence <= i < self.sequence_len && (
            #[trigger] self.sequence_buffer[i]) is Slice
    }

    /// The driver is walking a sequence and holds, or waits for, the
    /// transfer buffer.
    pub open spec fn replaying(self) -> bool {
        self.status is Delay || self.status is SendCommand || self.status is SendCommandSlice
    }

    /// What holds of the driver between any two events.
    pub open spec fn wf(self) -> bool {
        &&& self.width <= 255 && self.height <= 255
        &&& self.position_in_sequence <= self.sequence_len <= self.sequence_buffer.len()
        &&& self.buffer is Some ==> self.buffer->0.len() == self.buffer_len
        &&& forall|i: int|
            0 <= i < self.sequence_len ==> (#[trigger] self.sequence_buffer[i]).fits(
                self.buffer_len,
                true,
            )
        &&& (self.status matches Status::SendCommand(position, len, repeat) ==> repeat > 0
            ==> position + len <= self.buffer_len)
        &&& (self.status is Idle || self.status is Delay || self.status is SendParametersSlice)
            ==> self.buffer is Some
        &&& (self.status is SendCommandSlice || (self.replaying() && self.slice_ahead()))
            ==> self.write_buffer is Some
        &&& !self.replaying() && !(self.status is SendParametersSlice)
            ==> self.position_in_sequence == self.sequence_len
    }

    /// The driver can take its next step: it holds the buffers that the
    /// step may need.
    pub open spec fn ready(self) -> bool {
        &&& self.wf()
        &&& !(self.status is Idle)
        &&& (self.status is SendCommand || self.status is SendCommandSlice
            || self.status is Reset1 || self.status is Init) ==> self.buffer is Some
        &&& self.status is SendParametersSlice ==> self.write_buffer is Some
    }

    /// The sequence can be loaded: it is no longer than the sequence buffer
    /// and each entry can be sent.
    pub open spec fn accepts_sequence(self, sequence: Seq<SendCommand>) -> bool {
        &&& sequence.len() <= self.sequence_buffer.len()
        &&& forall|i: int|
            0 <= i < sequence.len() ==> (#[trigger] sequence[i]).fits(
                self.buffer_len,
                self.write_buffer is Some,
            )
    }

    /// The driver with `sequence` at the front of its sequence buffer, about
    /// to send the first entry.
    pub open spec fn load(self, sequence: Seq<SendCommand>) -> LS016B8UYView {
        LS016B8UYView {
            sequence_buffer: sequence + self.sequence_buffer.skip(sequence.len() as int),
            sequence_len: sequence.len() as usize,
            position_in_sequence: 0,
            status: Status::Delay,
            ..self
        }
    }

    /// The driver about to send the first entry of what its sequence buffer
    /// holds.
    pub open spec fn staged(self) -> LS016B8UYView {
        LS016B8UYView { position_in_sequence: 0, status: Status::Delay, ..self }
    }

    /// Sending the opcode of `cmd`: the transfer buffer leaves with it, and
    /// the parameters at `position` wait to be sent `repeat` times.
    pub open spec fn send_command(self, cmd: Command, position: usize, len: usize, repeat: usize) -> (
        LS016B8UYView,
        EffectsView,
    ) {
        (
            LS016B8UYView {
                command: cmd,
                status: Status::SendCommand(position, len, repeat),
                buffer: None,
                ..self
            },
            EffectsView {
                memory: Some(
                    MemoryRequestView::WriteAddr {
                        addr: cmd.id as usize,
                        buffer: self.buffer->0,
                        len: len,
                    },
                ),
                ..EffectsView::none()
            },
        )
    }

    /// Sending `cmd` with its default parameters: they are written to the
    /// front of the transfer buffer, then the opcode is sent.
    pub open spec fn send_command_with_default_parameters(self, cmd: Command) -> (
        LS016B8UYView,
        EffectsView,
    ) {
        (LS016B8UYView {
            buffer: Some(with_parameters(self.buffer->0, cmd.spec_parameters())),
            ..self
        }).send_command(cmd, 0, cmd.spec_parameters().len() as usize, 1)
    }

    /// Sending the opcode of `cmd`, whose data is the write buffer.
    pub open spec fn send_command_slice(self, cmd: Command, len: usize) -> (
        LS016B8UYView,
        EffectsView,
    ) {
        (
            LS016B8UYView {
                command: cmd,
                status: Status::SendCommandSlice(len),
                buffer: None,
                ..self
            },
            EffectsView {
                memory: Some(
                    MemoryRequestView::WriteAddr {
                        addr: cmd.id as usize,
                        buffer: self.buffer->0,
                        len: 0,
                    },
                ),
                ..EffectsView::none()
            },
        )
    }

    /// Sending `len` parameters once more: they are moved to the front of
    /// the transfer buffer, which leaves with them.
    pub open spec fn send_parameters(self, position: usize, len: usize, repeat: usize) -> (
        LS016B8UYView,
        EffectsView,
    ) {
        (
            LS016B8UYView {
                status: Status::SendCommand(0, len, (repeat - 1) as usize),
                buffer: None,
                ..self
            },
            EffectsView {
                memory: Some(
                    MemoryRequestView::Write {
                        data_width: BusWidth::Bits8,
                        buffer: shifted(self.buffer->0, position as int, len as int),
                        len,
                    },
                ),
                ..EffectsView::none()
            },
        )
    }

    /// Sending the write buffer, which leaves the driver.
    pub open spec fn send_parameters_slice(self, len: usize) -> (LS016B8UYView, EffectsView) {
        (
            LS016B8UYView { status: Status::SendParametersSlice, write_buffer: None, ..self },
            EffectsView {
                memory: Some(
                    MemoryRequestView::Write {
                        data_width: BusWidth::Bits8,
                        buffer: self.write_buffer->0,
                        len: len,
                    },
                ),
                ..EffectsView::none()
            },
        )
    }

    /// Waiting `timer` milliseconds before going on in `next_status`.
    pub open spec fn set_delay(self, timer: u32, next_status: Status) -> (LS016B8UYView, EffectsView) {
        (
            LS016B8UYView { status: next_status, ..self },
            EffectsView { alarm_ms: Some(timer), ..EffectsView::none() },
        )
    }

    /// The end of a sequence. The driver is idle again and the application's
    /// callback is scheduled. The first sequence ever to end powers the
    /// driver on and tells the client that the screen is ready; after that,
    /// the end of a configuration command is told to the setup client, the
    /// end of a write hands the write buffer back, and the end of anything
    /// else is told to the client.
    pub open spec fn finish(self) -> (LS016B8UYView, EffectsView) {
        let upcall = match self.callback {
            Some(callback) => Some(Upcall { callback, r0: 0, r1: 0, r2: 0 }),
            None => None,
        };
        let idle = LS016B8UYView { status: Status::Idle, ..self };
        if !self.power_on {
            (
                LS016B8UYView { power_on: true, ..idle },
                EffectsView {
                    upcall,
                    notification: match self.client {
                        Some(client) => Some(NotificationView::ScreenIsReady { client }),
                        None => None,
                    },
                    ..EffectsView::none()
                },
            )
        } else if self.setup_command {
            (
                LS016B8UYView { setup_command: false, ..idle },
                EffectsView {
                    upcall,
                    notification: match self.setup_client {
                        Some(client) => Some(
                            NotificationView::SetupCommandComplete {
                                client,
                                code: ReturnCode::SUCCESS,
                            },
                        ),
                        None => None,
                    },
                    ..EffectsView::none()
                },
            )
        } else if self.write_buffer is Some {
            (
                LS016B8UYView { write_buffer: None, ..idle },
                EffectsView {
                    upcall,
                    notification: Some(
                        NotificationView::WriteComplete {
                            client: self.client,
                            buffer: self.write_buffer->0,
                            code: ReturnCode::SUCCESS,
                        },
                    ),
                    ..EffectsView::none()
                },
            )
        } else {
            (
                idle,
                EffectsView {
                    upcall,
                    notification: match self.client {
                        Some(client) => Some(
                            NotificationView::CommandComplete { client, code: ReturnCode::SUCCESS },
                        ),
                        None => None,
                    },
                    ..EffectsView::none()
                },
            )
        }
    }

    /// The step at hand asks for nothing and is followed by another at once:
    /// an empty entry is skipped, a command without parameters or without
    /// delay is passed over, and the initialisation sequence is loaded.
    pub open spec fn continues(self) -> bool {
        match self.status {
            Status::Delay => self.position_in_sequence < self.sequence_len
                && self.sequence_buffer[self.position_in_sequence as int] is Nop,
            Status::SendCommand(_, len, repeat) => if repeat == 0 {
                self.command.delay == 0
            } else {
                len == 0
            },
            Status::SendParametersSlice => self.command.delay == 0,
            Status::Init => self.accepts_sequence(spec_init_sequence()),
            _ => false,
        }
    }

    /// The driver after a step that asks for nothing.
    pub open spec fn next(self) -> LS016B8UYView {
        match self.status {
            Status::Delay => LS016B8UYView {
                position_in_sequence: (self.position_in_sequence + 1) as usize,
                ..self
            },
            Status::SendCommand(_, len, repeat) => if repeat == 0 {
                LS016B8UYView { status: Status::Delay, ..self }
            } else {
                LS016B8UYView { status: Status::SendCommand(0, len, (repeat - 1) as usize), ..self }
            },
            Status::SendParametersSlice => LS016B8UYView { status: Status::Delay, ..self },
            Status::Init => self.load(spec_init_sequence()),
            _ => self,
        }
    }

    /// The driver after a step that asks for something or ends the walk, and
    /// what it asks for.
    pub open spec fn settle(self) -> (LS016B8UYView, EffectsView) {
        match self.status {
            Status::Delay => if self.position_in_sequence < self.sequence_len {
                let at = LS016B8UYView {
                    position_in_sequence: (self.position_in_sequence + 1) as usize,
                    ..self
                };
                match self.sequence_buffer[self.position_in_sequence as int] {
                    SendCommand::Nop => (at, EffectsView::none()),
                    SendCommand::Default(cmd) => at.send_command_with_default_parameters(cmd),
                    SendCommand::Position(cmd, position, len) => at.send_command(
                        cmd,
                        position,
                        len,
                        1,
                    ),
                    SendCommand::Repeat(cmd, position, len, repeat) => at.send_command(
                        cmd,
                        position,
                        len,
                        repeat,
                    ),
                    SendCommand::Slice(cmd, len) => at.send_command_slice(cmd, len),
                }
            } else {
                self.finish()
            },
            Status::SendCommand(position, len, repeat) => if repeat == 0 {
                self.set_delay(self.command.spec_delay_ms(), Status::Delay)
            } else {
                self.send_parameters(position, len, repeat)
            },
            Status::SendCommandSlice(len) => self.send_parameters_slice(len),
            Status::SendParametersSlice => self.set_delay(
                self.command.spec_delay_ms(),
                Status::Delay,
            ),
            Status::Reset1 => {
                let (sent, effects) = self.send_command_with_default_parameters(nop());
                (
                    LS016B8UYView { status: Status::Reset2, ..sent },
                    EffectsView { reset: Some(ResetLine::Low), alarm_ms: Some(5), ..effects },
                )
            },
            Status::Reset2 => (
                LS016B8UYView { status: Status::Reset3, ..self },
                EffectsView {
                    reset: Some(ResetLine::High),
                    alarm_ms: Some(10),
                    ..EffectsView::none()
                },
            ),
            Status::Reset3 => (
                LS016B8UYView { status: Status::Reset4, ..self },
                EffectsView {
                    reset: Some(ResetLine::Low),
                    alarm_ms: Some(20),
                    ..EffectsView::none()
                },
            ),
            Status::Reset4 => (
                LS016B8UYView { status: Status::Init, ..self },
                EffectsView {
                    reset: Some(ResetLine::High),
                    alarm_ms: Some(10),
                    ..EffectsView::none()
                },
            ),
            Status::Init => (LS016B8UYView { status: Status::Idle, ..self }, EffectsView::none()),
            Status::Idle => (self, EffectsView::none()),
        }
    }

    /// One for the step that loads the initialisation sequence, zero
    /// otherwise.
    pub open spec fn phase(self) -> nat {
        if self.status is Init {
            1
        } else {
            0
        }
    }

    /// Entries of the sequence still to come.
    pub open spec fn remaining(self) -> nat {
        if self.position_in_sequence <= self.sequence_len {
            (self.sequence_len - self.position_in_sequence) as nat
        } else {
            0
        }
    }

    /// Zero between entries, one inside an entry.
    pub open spec fn rank(self) -> nat {
        if self.status is Delay {
            0
        } else {
            1
        }
    }

    /// Times the parameters of the command at hand are still to be sent.
    pub open spec fn repeats(self) -> nat {
        match self.status {
            Status::SendCommand(_, _, repeat) => repeat as nat,
            _ => 0,
        }
    }

    /// The driver's next step, taken to the point where it asks for
    /// something or the walk ends: the driver afterwards, and what it asks
    /// for.
    pub open spec fn do_next_op(self) -> (LS016B8UYView, EffectsView)
        decreases self.phase(), self.remaining(), self.rank(), self.repeats(),
    {
        if self.continues() {
            self.next().do_next_op()
        } else {
            self.settle()
        }
    }

    /// What `send_sequence` answers: `EBUSY` unless idle, `ENOMEM` if the
    /// sequence cannot be loaded, else `SUCCESS` with the sequence loaded and
    /// its first step taken.
    pub open spec fn send_sequence(self, sequence: Seq<SendCommand>) -> (
        LS016B8UYView,
        ReturnCode,
        EffectsView,
    ) {
        if !(self.status is Idle) {
            (self, ReturnCode::EBUSY, EffectsView::none())
        } else if !self.accepts_sequence(sequence) {
            (self, ReturnCode::ENOMEM, EffectsView::none())
        } else {
            let (after, effects) = self.load(sequence).do_next_op();
            (after, ReturnCode::SUCCESS, effects)
        }
    }

    /// What a request answers that sends the single command `cmd` with its
    /// default parameters, once the driver is powered on.
    pub open spec fn send_when_on(self, cmd: Command) -> (LS016B8UYView, ReturnCode, EffectsView) {
        if !(self.status is Idle) {
            (self, ReturnCode::EBUSY, EffectsView::none())
        } else if !self.power_on {
            (self, ReturnCode::EOFF, EffectsView::none())
        } else {
            let (after, effects) = (LS016B8UYView {
                setup_command: false,
                ..self
            }).send_command_with_default_parameters(cmd);
            (after, ReturnCode::SUCCESS, effects)
        }
    }

    /// What `init` answers: `EBUSY` unless idle, else `SUCCESS` with the
    /// first step of the reset taken.
    pub open spec fn init(self) -> (LS016B8UYView, ReturnCode, EffectsView) {
        if !(self.status is Idle) {
            (self, ReturnCode::EBUSY, EffectsView::none())
        } else {
            let (after, effects) = (LS016B8UYView { status: Status::Reset1, ..self }).do_next_op();
            (after, ReturnCode::SUCCESS, effects)
        }
    }

    /// Bytes of the transfer buffer that `fill` paints: what lies behind the
    /// nine bytes kept for coordinates, rounded down to whole pixels.
    pub open spec fn fill_space(self) -> int {
        if self.buffer_len >= 9 {
            (self.buffer_len - 9) / 2 * 2
        } else {
            0
        }
    }

    /// Bytes that `fill` sends to the panel in all.
    pub open spec fn fill_bytes(self) -> int {
        128int * 160 * 2
    }

    /// Times that `fill` sends the painted block: enough to cover all the
    /// bytes.
    pub open spec fn fill_repeat(self) -> int {
        if self.fill_bytes() % self.fill_space() == 0 {
            self.fill_bytes() / self.fill_space()
        } else {
            self.fill_bytes() / self.fill_space() + 1
        }
    }

    /// The sequence that `fill` replays.
    pub open spec fn fill_sequence(self) -> Seq<SendCommand> {
        seq![
            SendCommand::Default(caset()),
            SendCommand::Default(raset()),
            SendCommand::Repeat(
                write_ram(),
                9,
                self.fill_space() as usize,
                self.fill_repeat() as usize,
            ),
        ]
    }

    /// What `fill` answers: `EBUSY` unless idle, `ENOMEM` if there is no
    /// room for a pixel in the transfer buffer or for the sequence in the
    /// sequence buffer, else `SUCCESS` with the buffer painted, the sequence
    /// loaded and its first step taken.
    pub open spec fn fill(self, color: usize) -> (LS016B8UYView, ReturnCode, EffectsView) {
        if !(self.status is Idle) {
            (self, ReturnCode::EBUSY, EffectsView::none())
        } else if self.fill_space() == 0 || self.sequence_buffer.len() < 3 {
            (self, ReturnCode::ENOMEM, EffectsView::none())
        } else {
            let (after, effects) = (LS016B8UYView {
                buffer: Some(painted(self.buffer->0, 9, self.fill_space(), color)),
                ..self
            }).load(self.fill_sequence()).do_next_op();
            (after, ReturnCode::SUCCESS, effects)
        }
    }

    /// What `write_pixel` answers: `EINVAL` for a pixel outside the screen,
    /// `EBUSY` unless idle, `ENOMEM` if the buffers are too small, else
    /// `SUCCESS` with the pixel's position and colour in the transfer buffer
    /// and the first step of the sequence taken.
    pub open spec fn write_pixel(self, x: usize, y: usize, color: usize) -> (
        LS016B8UYView,
        ReturnCode,
        EffectsView,
    ) {
        if !(x < self.width && y < self.height) {
            (self, ReturnCode::EINVAL, EffectsView::none())
        } else if !(self.status is Idle) {
            (self, ReturnCode::EBUSY, EffectsView::none())
        } else if self.buffer_len < 11 || self.sequence_buffer.len() < 3 {
            (self, ReturnCode::ENOMEM, EffectsView::none())
        } else {
            let (after, effects) = (LS016B8UYView {
                buffer: Some(
                    framed(
                        self.buffer->0,
                        1,
                        x as u8,
                        (x + 1) as u8,
                        y as u8,
                        (y + 1) as u8,
                    ).update(9, high_byte(color)).update(10, low_byte(color)),
                ),
                ..self
            }).load(spec_write_pixel_sequence()).do_next_op();
            (after, ReturnCode::SUCCESS, effects)
        }
    }

    /// The frame lies on the screen and is not inside out.
    pub open spec fn frame_valid(self, sx: int, sy: int, ex: int, ey: int) -> bool {
        0 <= sx <= self.width && 0 <= sy <= self.height && ex <= self.width && ey
            <= self.height && sx <= ex && sy <= ey
    }

    /// What `set_memory_frame` answers: `EINVAL` for a frame off the screen,
    /// `EBUSY` unless idle, `ENOMEM` if the frame has no room at `position`,
    /// else `SUCCESS` with the frame written there.
    pub open spec fn set_memory_frame(
        self,
        position: usize,
        sx: usize,
        sy: usize,
        ex: usize,
        ey: usize,
    ) -> (LS016B8UYView, ReturnCode) {
        if !self.frame_valid(sx as int, sy as int, ex as int, ey as int) {
            (self, ReturnCode::EINVAL)
        } else if !(self.status is Idle) {
            (self, ReturnCode::EBUSY)
        } else if position + 8 > self.buffer_len {
            (self, ReturnCode::ENOMEM)
        } else {
            (
                LS016B8UYView {
                    buffer: Some(
                        framed(
                            self.buffer->0,
                            position as int,
                            sx as u8,
                            ex as u8,
                            sy as u8,
                            ey as u8,
                        ),
                    ),
                    ..self
                },
                ReturnCode::SUCCESS,
            )
        }
    }

    /// The sequence that `set_write_frame` replays.
    pub open spec fn write_frame_sequence() -> Seq<SendCommand> {
        seq![
            SendCommand::Position(caset(), 1, 4),
            SendCommand::Position(raset(), 5, 4),
        ]
    }

    /// What `set_write_frame` answers: `EBUSY` unless idle, `ENOMEM` if the
    /// transfer buffer is too small, `EINVAL` for a frame that is off
    /// the screen, `ENOMEM` if the sequence buffer is too small, else
    /// `SUCCESS` with the frame in the transfer buffer and the first step of
    /// the sequence taken.
    pub open spec fn set_write_frame(self, x: usize, y: usize, width: usize, height: usize) -> (
        LS016B8UYView,
        ReturnCode,
        EffectsView,
    ) {
        let ex = x + width;
        let ey = y + height;
        if !(self.status is Idle) {
            (self, ReturnCode::EBUSY, EffectsView::none())
        } else if self.buffer_len < 10 {
            (self, ReturnCode::ENOMEM, EffectsView::none())
        } else if !self.frame_valid(x as int, y as int, ex, ey) {
            (self, ReturnCode::EINVAL, EffectsView::none())
        } else if self.sequence_buffer.len() < 2 {
            (self, ReturnCode::ENOMEM, EffectsView::none())
        } else {
            let (after, effects) = (LS016B8UYView {
                setup_command: false,
                buffer: Some(
                    framed(self.buffer->0, 1, x as u8, ex as u8, y as u8, ey as u8),
                ),
                ..self
            }).load(Self::write_frame_sequence()).do_next_op();
            (after, ReturnCode::SUCCESS, effects)
        }
    }

    /// What `write` answers: `EBUSY` unless idle, `ENOMEM` if the transfer
    /// buffer is empty or the sequence buffer has no room, else `SUCCESS`
    /// with the write buffer taken in and the first step of the sequence
    /// taken.
    pub open spec fn write(self, buffer: Seq<u8>, len: usize) -> (
        LS016B8UYView,
        ReturnCode,
        EffectsView,
    ) {
        if !(self.status is Idle) {
            (self, ReturnCode::EBUSY, EffectsView::none())
        } else if self.buffer_len == 0 || self.sequence_buffer.len() < 1 {
            (self, ReturnCode::ENOMEM, EffectsView::none())
        } else {
            let (after, effects) = (LS016B8UYView {
                setup_command: false,
                write_buffer: Some(buffer),
                ..self
            }).load(seq![SendCommand::Slice(write_ram(), len)]).do_next_op();
            (after, ReturnCode::SUCCESS, effects)
        }
    }

    /// What `rotation` answers: `EBUSY` unless idle; else an empty command
    /// is sent, and the answer is `SUCCESS` for the normal rotation and
    /// `ENOSUPPORT` for any other.
    pub open spec fn rotation(self, rotation: ScreenRotation) -> (
        LS016B8UYView,
        ReturnCode,
        EffectsView,
    ) {
        if !(self.status is Idle) {
            (self, ReturnCode::EBUSY, EffectsView::none())
        } else {
            let (after, effects) = self.send_command_with_default_parameters(nop());
            (
                after,
                if rotation is Normal {
                    ReturnCode::SUCCESS
                } else {
                    ReturnCode::ENOSUPPORT
                },
                effects,
            )
        }
    }

    /// What a setup request answers that needs no command sent: `EBUSY`
    /// unless idle, `refusal` unless the value asked for is the supported
    /// one, else `SUCCESS` and the setup client is told.
    pub open spec fn confirm_setup(self, supported: bool, refusal: ReturnCode) -> (
        ReturnCode,
        EffectsView,
    ) {
        if !(self.status is Idle) {
            (ReturnCode::EBUSY, EffectsView::none())
        } else if !supported {
            (refusal, EffectsView::none())
        } else {
            (
                ReturnCode::SUCCESS,
                EffectsView {
                    notification: match self.setup_client {
                        Some(client) => Some(
                            NotificationView::SetupCommandComplete {
                                client,
                                code: ReturnCode::SUCCESS,
                            },
                        ),
                        None => None,
                    },
                    ..EffectsView::none()
                },
            )
        }
    }

    /// The completion of a transfer can be taken: the driver is not idle,
    /// and the buffer that comes back fills the slot that its transfer
    /// emptied.
    pub open spec fn expects_completion(self, buffer: Seq<u8>) -> bool {
        &&& !(self.status is Idle)
        &&& if self.status is SendParametersSlice {
            self.write_buffer is None
        } else {
            self.buffer is None && buffer.len() == self.buffer_len
        }
    }

    /// The driver with the buffer of a completed transfer back in its slot.
    pub open spec fn with_returned(self, buffer: Seq<u8>) -> LS016B8UYView {
        if self.status is SendParametersSlice {
            LS016B8UYView { write_buffer: Some(buffer), ..self }
        } else {
            LS016B8UYView { buffer: Some(buffer), ..self }
        }
    }

    /// The alarm can fire: the driver waits for it and holds what the next
    /// step needs.
    pub open spec fn expects_alarm(self) -> bool {
        match self.status {
            Status::Delay => true,
            Status::Reset2 | Status::Reset3 | Status::Reset4 => true,
            Status::Init => self.buffer is Some,
            _ => false,
        }
    }
}

/// A step keeps the driver in order. A step that asks for nothing leaves the
/// driver ready for the next one, which is nearer to the end of the walk; a
/// step that settles leaves the driver well formed.
pub proof fn lemma_step(v: LS016B8UYView)
    requires
        v.ready(),
    ensures
        v.continues() ==> v.next().ready(),
        !v.continues() ==> v.settle().0.wf(),
{
    if v.continues() {
        let n = v.next();
        if v.status is Init {
            assert(n.wf());
        } else {
            assert(n.slice_ahead() ==> v.slice_ahead());
            assert(n.wf());
        }
    } else {
        let s = v.settle().0;
        assert(s.slice_ahead() ==> v.slice_ahead());
        match v.status {
            Status::Delay => {
                if v.position_in_sequence < v.sequence_len {
                    let entry = v.sequence_buffer[v.position_in_sequence as int];
                    assert(entry.fits(v.buffer_len, true));
                    assert(entry is Slice ==> v.slice_ahead());
                    assert(s.wf());
                } else {
                    assert(!s.slice_ahead());
                    assert(s.wf());
                }
            },
            _ => {
                assert(s.wf());
            },
        }
    }
}

/// Whatever the driver was doing, its next step leaves it well formed.
pub proof fn lemma_do_next_op(v: LS016B8UYView)
    requires
        v.ready(),
    ensures
        v.do_next_op().0.wf(),
    decreases v.phase(), v.remaining(), v.rank(), v.repeats(),
{
    lemma_step(v);
    if v.continues() {
        lemma_do_next_op(v.next());
    }
}

/// A sequence that the driver accepts leaves it ready to send the first
/// entry.
pub proof fn lemma_load(v: LS016B8UYView, sequence: Seq<SendCommand>)
    requires
        v.wf(),
        v.status is Idle || (v.status is Init && v.buffer is Some),
        v.accepts_sequence(sequence),
    ensures
        v.load(sequence).ready(),
{
    let n = v.load(sequence);
    assert forall|i: int| 0 <= i < n.sequence_len implies (#[trigger] n.sequence_buffer[i]).fits(
        n.buffer_len,
        true,
    ) by {
        assert(n.sequence_buffer[i] == sequence[i]);
        assert(sequence[i].fits(v.buffer_len, v.write_buffer is Some));
    }
    if n.slice_ahead() {
        let i = choose|i: int|
            n.position_in_sequence <= i < n.sequence_len && (
            #[trigger] n.sequence_buffer[i]) is Slice;
        assert(n.sequence_buffer[i] == sequence[i]);
        assert(sequence[i].fits(v.buffer_len, v.write_buffer is Some));
    }
}

/// Capacity enforcement: a sequence longer than the sequence buffer is
/// refused with `ENOMEM`, and the driver is left idle exactly as it was.
pub proof fn lemma_capacity_enforcement(v: LS016B8UYView, sequence: Seq<SendCommand>)
    requires
        v.status is Idle,
        sequence.len() > v.sequence_buffer.len(),
    ensures
        v.send_sequence(sequence) == (v, ReturnCode::ENOMEM, EffectsView::none()),
{
}

/// Busy rejection: while the driver is not idle, every request that would
/// start work is refused with `EBUSY`, asks for nothing, and leaves the
/// driver exactly as it was.
pub proof fn lemma_busy_rejection(
    v: LS016B8UYView,
    sequence: Seq<SendCommand>,
    color: usize,
    x: usize,
    y: usize,
    width: usize,
    height: usize,
    buffer: Seq<u8>,
    len: usize,
    rotation: ScreenRotation,
    cmd: Command,
)
    requires
        !(v.status is Idle),
    ensures
        v.send_sequence(sequence) == (v, ReturnCode::EBUSY, EffectsView::none()),
        v.init() == (v, ReturnCode::EBUSY, EffectsView::none()),
        v.fill(color) == (v, ReturnCode::EBUSY, EffectsView::none()),
        x < v.width && y < v.height ==> v.write_pixel(x, y, color) == (
            v,
            ReturnCode::EBUSY,
            EffectsView::none(),
        ),
        v.set_write_frame(x, y, width, height) == (v, ReturnCode::EBUSY, EffectsView::none()),
        v.write(buffer, len) == (v, ReturnCode::EBUSY, EffectsView::none()),
        v.rotation(rotation) == (v, ReturnCode::EBUSY, EffectsView::none()),
        v.send_when_on(cmd) == (v, ReturnCode::EBUSY, EffectsView::none()),
        v.confirm_setup(true, ReturnCode::ENOSUPPORT) == (ReturnCode::EBUSY, EffectsView::none()),
{
}

/// Filling the screen: an idle driver with room in its buffers loads
/// exactly the column range, the row range and the repeated write of the
/// painted block; the block is sent often enough to cover the screen and
/// not once more; and the transfer buffer that leaves with the first
/// command holds the colour behind byte nine, high byte first.
pub proof fn lemma_fill(v: LS016B8UYView, color: usize)
    requires
        v.wf(),
        v.status is Idle,
        v.fill_space() > 0,
        v.sequence_buffer.len() >= 3,
    ensures
        v.fill(color).1 is SUCCESS,
        v.fill(color).0.sequence_len == 3,
        v.fill(color).0.sequence_buffer.take(3) == v.fill_sequence(),
        v.fill_repeat() * v.fill_space() >= v.fill_bytes(),
        (v.fill_repeat() - 1) * v.fill_space() < v.fill_bytes(),
        v.fill(color).2.memory matches Some(MemoryRequestView::WriteAddr { addr, buffer, len })
            && addr == caset().id && buffer.len() == v.buffer_len && forall|i: int|
            9 <= i < 9 + v.fill_space() ==> #[trigger] buffer[i] == if (i - 9) % 2 == 0 {
                high_byte(color)
            } else {
                low_byte(color)
            },
{
    let space = v.fill_space();
    let bytes = v.fill_bytes();
    assert(v.fill_repeat() * space >= bytes && (v.fill_repeat() - 1) * space < bytes)
        by (nonlinear_arith)
        requires
            space > 0,
            bytes >= 0,
            v.fill_repeat() == if bytes % space == 0 {
                bytes / space
            } else {
                bytes / space + 1
            },
    ;
    let p = LS016B8UYView { buffer: Some(painted(v.buffer->0, 9, space, color)), ..v };
    let l = p.load(v.fill_sequence());
    assert(caset().spec_parameters() =~= seq![0x00u8, 0x1E, 0x00, 0xD1]);
    assert(l.sequence_buffer[0] == SendCommand::Default(caset()));
    assert(!l.continues());
    let s = l.settle().0;
    assert(s.sequence_buffer.take(3) =~= v.fill_sequence());
    let sent = with_parameters(p.buffer->0, caset().spec_parameters());
    assert forall|i: int| 9 <= i < 9 + space implies #[trigger] sent[i] == if (i - 9) % 2 == 0 {
        high_byte(color)
    } else {
        low_byte(color)
    } by {
        assert(sent[i] == p.buffer->0[i]);
    }
}

/// The column or row behind a range of `extent` from `start`, if it can be
/// counted.
fn range_end(start: usize, extent: usize) -> (end: Option<usize>)
    ensures
        end == if start + extent <= usize::MAX {
            Some((start + extent) as usize)
        } else {
            None
        },
{
    start.checked_add(extent)
}

/// The driver of one LS016B8UY panel.
pub struct LS016B8UY {
    status: Status,
    callback: Option<Callback>,
    width: usize,
    height: usize,
    client: Option<usize>,
    setup_client: Option<usize>,
    setup_command: bool,
    sequence_buffer: Vec<SendCommand>,
    position_in_sequence: usize,
    sequence_len: usize,
    command: Command,
    buffer: Option<Vec<u8>>,
    buffer_len: usize,
    power_on: bool,
    write_buffer: Option<Vec<u8>>,
}

impl View for LS016B8UY {
    type V = LS016B8UYView;

    closed spec fn view(&self) -> LS016B8UYView {
        LS016B8UYView {
            status: self.status,
            callback: self.callback,
            width: self.width,
            height: self.height,
            client: self.client,
            setup_client: self.setup_client,
            setup_command: self.setup_command,
            sequence_buffer: self.sequence_buffer@,
            position_in_sequence: self.position_in_sequence,
            sequence_len: self.sequence_len,
            command: self.command,
            buffer: bytes_of(self.buffer),
            buffer_len: self.buffer_len,
            power_on: self.power_on,
            write_buffer: bytes_of(self.write_buffer),
        }
    }
}

impl LS016B8UY {
    /// An idle driver, powered off, that owns the transfer buffer `buffer`
    /// and replays sequences of up to `sequence_buffer.len()` commands.
    pub fn new(buffer: Vec<u8>, sequence_buffer: Vec<SendCommand>) -> (driver: LS016B8UY)
        ensures
            driver@ == (LS016B8UYView {
                status: Status::Idle,
                callback: None,
                width: 240,
                height: 240,
                client: None,
                setup_client: None,
                setup_command: false,
                sequence_buffer: sequence_buffer@,
                position_in_sequence: 0,
                sequence_len: 0,
                command: nop(),
                buffer: Some(buffer@),
                buffer_len: buffer@.len() as usize,
                power_on: false,
                write_buffer: None,
            }),
            driver@.wf(),
    {
        let buffer_len: usize = buffer.len();
        LS016B8UY {
            status: Status::Idle,
            callback: None,
            width: 240,
            height: 240,
            client: None,
            setup_client: None,
            setup_command: false,
            sequence_buffer,
            position_in_sequence: 0,
            sequence_len: 0,
            command: nop(),
            buffer: Some(buffer),
            buffer_len,
            power_on: false,
            write_buffer: None,
        }
    }

    /// Where the driver stands.
    pub fn status(&self) -> (s: Status)
        ensures
            s == self@.status,
    {
        self.status
    }

    /// Whether a sequence has completed since the driver was made.
    pub fn is_powered_on(&self) -> (on: bool)
        ensures
            on == self@.power_on,
    {
        self.power_on
    }

    /// The number of entries of the sequence loaded last.
    pub fn sequence_len(&self) -> (n: usize)
        ensures
            n == self@.sequence_len,
    {
        self.sequence_len
    }

    /// Entry `index` of the sequence buffer, if there is one.
    pub fn sequence_entry(&self, index: usize) -> (entry: Option<SendCommand>)
        ensures
            index < self@.sequence_buffer.len() ==> entry == Some(
                self@.sequence_buffer[index as int],
            ),
            index >= self@.sequence_buffer.len() ==> entry is None,
    {
        if index < self.sequence_buffer.len() {
            Some(self.sequence_buffer[index])
        } else {
            None
        }
    }

    /// Whether the completion of a transfer that hands `buffer` back can be
    /// taken now.
    pub fn expects_completion(&self, buffer: &Vec<u8>) -> (r: bool)
        ensures
            r == self@.expects_completion(buffer@),
    {
        match self.status {
            Status::Idle => false,
            Status::SendParametersSlice => self.write_buffer.is_none(),
            _ => self.buffer.is_none() && buffer.len() == self.buffer_len,
        }
    }

    /// Whether the firing of the alarm can be taken now.
    pub fn expects_alarm(&self) -> (r: bool)
        ensures
            r == self@.expects_alarm(),
    {
        match self.status {
            Status::Delay => true,
            Status::Reset2 | Status::Reset3 | Status::Reset4 => true,
            Status::Init => self.buffer.is_some(),
            _ => false,
        }
    }

    /// Whether `sequence` can be loaded: it is no longer than the sequence
    /// buffer and each entry can be sent.
    pub fn check_sequence(&self, sequence: &[SendCommand]) -> (r: bool)
        ensures
            r == self@.accepts_sequence(sequence@),
    {
        if sequence.len() > self.sequence_buffer.len() {
            return false;
        }
        let has_write_buffer: bool = self.write_buffer.is_some();
        let n: usize = sequence.len();
        let mut i: usize = 0;
        while i < n
            invariant
                n == sequence@.len(),
                i <= n,
                has_write_buffer == (self@.write_buffer is Some),
                forall|j: int|
                    0 <= j < i ==> (#[trigger] sequence@[j]).fits(
                        self@.buffer_len,
                        has_write_buffer,
                    ),
            decreases n - i,
        {
            if !sequence[i].check_fits(self.buffer_len, has_write_buffer) {
                return false;
            }
            i += 1;
        }
        true
    }

    /// Copies `sequence` to the front of the sequence buffer.
    fn copy_sequence(&mut self, sequence: &[SendCommand])
        requires
            sequence@.len() <= old(self)@.sequence_buffer.len(),
        ensures
            final(self)@ == (LS016B8UYView {
                sequence_buffer: sequence@ + old(self)@.sequence_buffer.skip(
                    sequence@.len() as int,
                ),
                sequence_len: sequence@.len() as usize,
                ..old(self)@
            }),
    {
        let n: usize = sequence.len();
        let mut i: usize = 0;
        while i < n
            invariant
                n == sequence@.len(),
                i <= n <= self.sequence_buffer@.len(),
                self.sequence_buffer@.len() == old(self).sequence_buffer@.len(),
                forall|j: int| 0 <= j < i ==> self.sequence_buffer@[j] == sequence@[j],
                forall|j: int|
                    i <= j < self.sequence_buffer@.len() ==> self.sequence_buffer@[j] == old(
                        self,
                    ).sequence_buffer@[j],
                self@ == (LS016B8UYView { sequence_buffer: self.sequence_buffer@, ..old(self)@ }),
            decreases n - i,
        {
            self.sequence_buffer[i] = sequence[i];
            i += 1;
        }
        self.sequence_len = n;
        assert(self.sequence_buffer@ =~= sequence@ + old(self)@.sequence_buffer.skip(
            sequence@.len() as int,
        ));
    }

    /// Sends the opcode of `cmd`; its parameters, `len` bytes at `position`
    /// of the transfer buffer, follow `repeat` times.
    fn send_command(&mut self, cmd: Command, position: usize, len: usize, repeat: usize) -> (effects:
        Effects)
        requires
            old(self)@.buffer is Some,
        ensures
            (final(self)@, effects@) == old(self)@.send_command(cmd, position, len, repeat),
    {
        self.command = cmd;
        self.status = Status::SendCommand(position, len, repeat);
        let buffer: Vec<u8> = self.buffer.take().unwrap();
        Effects {
            memory: Some(
                MemoryRequest::WriteAddr { addr: cmd.id as usize, buffer, len: len },
            ),
            reset: None,
            alarm_ms: None,
            upcall: None,
            notification: None,
        }
    }

    /// Sends `cmd` with its default parameters.
    fn send_command_with_default_parameters(&mut self, cmd: Command) -> (effects: Effects)
        requires
            old(self)@.buffer is Some,
            cmd.spec_parameters().len() <= old(self)@.buffer->0.len(),
        ensures
            (final(self)@, effects@) == old(self)@.send_command_with_default_parameters(cmd),
    {
        let mut buffer: Vec<u8> = self.buffer.take().unwrap();
        let len: usize = match cmd.parameters {
            Some(parameters) => copy_parameters(&mut buffer, parameters),
            None => {
                assert(buffer@ =~= with_parameters(buffer@, cmd.spec_parameters()));
                0
            },
        };
        self.buffer = Some(buffer);
        self.send_command(cmd, 0, len, 1)
    }

    /// Sends the opcode of `cmd`; the write buffer follows.
    fn send_command_slice(&mut self, cmd: Command, len: usize) -> (effects: Effects)
        requires
            old(self)@.buffer is Some,
        ensures
            (final(self)@, effects@) == old(self)@.send_command_slice(cmd, len),
    {
        self.command = cmd;
        self.status = Status::SendCommandSlice(len);
        let buffer: Vec<u8> = self.buffer.take().unwrap();
        Effects {
            memory: Some(MemoryRequest::WriteAddr { addr: cmd.id as usize, buffer, len: 0 }),
            reset: None,
            alarm_ms: None,
            upcall: None,
            notification: None,
        }
    }

    /// Sends the parameters of the command at hand once more.
    fn send_parameters(&mut self, position: usize, len: usize, repeat: usize) -> (effects: Effects)
        requires
            old(self)@.buffer is Some,
            position + len <= old(self)@.buffer->0.len(),
            repeat > 0,
        ensures
            (final(self)@, effects@) == old(self)@.send_parameters(position, len, repeat),
    {
        self.status = Status::SendCommand(0, len, repeat - 1);
        let mut buffer: Vec<u8> = self.buffer.take().unwrap();
        shift_parameters(&mut buffer, position, len);
        Effects {
            memory: Some(MemoryRequest::Write { data_width: BusWidth::Bits8, buffer, len }),
            reset: None,
            alarm_ms: None,
            upcall: None,
            notification: None,
        }
    }

    /// Sends the write buffer.
    fn send_parameters_slice(&mut self, len: usize) -> (effects: Effects)
        requires
            old(self)@.write_buffer is Some,
        ensures
            (final(self)@, effects@) == old(self)@.send_parameters_slice(len),
    {
        let buffer: Vec<u8> = self.write_buffer.take().unwrap();
        self.status = Status::SendParametersSlice;
        Effects {
            memory: Some(
                MemoryRequest::Write { data_width: BusWidth::Bits8, buffer, len: len },
            ),
            reset: None,
            alarm_ms: None,
            upcall: None,
            notification: None,
        }
    }

    /// Asks for an alarm in `timer` milliseconds and notes the status to go
    /// on in when it fires.
    fn set_delay(&mut self, timer: u32, next_status: Status) -> (effects: Effects)
        ensures
            (final(self)@, effects@) == old(self)@.set_delay(timer, next_status),
    {
        self.status = next_status;
        Effects { memory: None, reset: None, alarm_ms: Some(timer), upcall: None, notification: None }
    }

    /// Ends the sequence.
    fn finish(&mut self) -> (effects: Effects)
        ensures
            (final(self)@, effects@) == old(self)@.finish(),
    {
        self.status = Status::Idle;
        let upcall: Option<Upcall> = match self.callback {
            Some(callback) => Some(callback.schedule(0, 0, 0)),
            None => None,
        };
        let notification: Option<Notification> = if !self.power_on {
            self.power_on = true;
            match self.client {
                Some(client) => Some(Notification::ScreenIsReady { client }),
                None => None,
            }
        } else if self.setup_command {
            self.setup_command = false;
            match self.setup_client {
                Some(client) => Some(
                    Notification::SetupCommandComplete { client, code: ReturnCode::SUCCESS },
                ),
                None => None,
            }
        } else {
            match self.write_buffer.take() {
                Some(buffer) => Some(
                    Notification::WriteComplete {
                        client: self.client,
                        buffer,
                        code: ReturnCode::SUCCESS,
                    },
                ),
                None => match self.client {
                    Some(client) => Some(
                        Notification::CommandComplete { client, code: ReturnCode::SUCCESS },
                    ),
                    None => None,
                },
            }
        };
        Effects { memory: None, reset: None, alarm_ms: None, upcall, notification }
    }

    /// Takes one step: `None` if the step asked for nothing and another
    /// follows, else what the step asks for.
    fn advance(&mut self) -> (r: Option<Effects>)
        requires
            old(self)@.ready(),
        ensures
            r is None ==> old(self)@.continues() && final(self)@ == old(self)@.next(),
            r is Some ==> !old(self)@.continues() && (final(self)@, r->0@) == old(
                self,
            )@.settle(),
    {
        match self.status {
            Status::Delay => {
                let position: usize = self.position_in_sequence;
                if position < self.sequence_len {
                    let entry: SendCommand = self.sequence_buffer[position];
                    assert(entry.fits(self@.buffer_len, true));
                    assert(entry is Slice ==> self@.slice_ahead());
                    self.position_in_sequence = position + 1;
                    match entry {
                        SendCommand::Nop => None,
                        SendCommand::Default(cmd) => Some(
                            self.send_command_with_default_parameters(cmd),
                        ),
                        SendCommand::Position(cmd, position, len) => Some(
                            self.send_command(cmd, position, len, 1),
                        ),
                        SendCommand::Repeat(cmd, position, len, repeat) => Some(
                            self.send_command(cmd, position, len, repeat),
                        ),
                        SendCommand::Slice(cmd, len) => Some(self.send_command_slice(cmd, len)),
                    }
                } else {
                    Some(self.finish())
                }
            },
            Status::SendCommand(position, len, repeat) => {
                if repeat == 0 {
                    if self.command.delay > 0 {
                        let ms: u32 = self.command.delay_ms();
                        Some(self.set_delay(ms, Status::Delay))
                    } else {
                        self.status = Status::Delay;
                        None
                    }
                } else if len > 0 {
                    Some(self.send_parameters(position, len, repeat))
                } else {
                    self.status = Status::SendCommand(0, len, repeat - 1);
                    None
                }
            },
            Status::SendCommandSlice(len) => Some(self.send_parameters_slice(len)),
            Status::SendParametersSlice => {
                if self.command.delay > 0 {
                    let ms: u32 = self.command.delay_ms();
                    Some(self.set_delay(ms, Status::Delay))
                } else {
                    self.status = Status::Delay;
                    None
                }
            },
            Status::Reset1 => {
                let sent = self.send_command_with_default_parameters(nop());
                self.status = Status::Reset2;
                Some(
                    Effects {
                        memory: sent.memory,
                        reset: Some(ResetLine::Low),
                        alarm_ms: Some(5),
                        upcall: None,
                        notification: None,
                    },
                )
            },
            Status::Reset2 => {
                self.status = Status::Reset3;
                Some(
                    Effects {
                        memory: None,
                        reset: Some(ResetLine::High),
                        alarm_ms: Some(10),
                        upcall: None,
                        notification: None,
                    },
                )
            },
            Status::Reset3 => {
                self.status = Status::Reset4;
                Some(
                    Effects {
                        memory: None,
                        reset: Some(ResetLine::Low),
                        alarm_ms: Some(20),
                        upcall: None,
                        notification: None,
                    },
                )
            },
            Status::Reset4 => {
                self.status = Status::Init;
                Some(
                    Effects {
                        memory: None,
                        reset: Some(ResetLine::High),
                        alarm_ms: Some(10),
                        upcall: None,
                        notification: None,
                    },
                )
            },
            Status::Init => {
                let sequence: Vec<SendCommand> = init_sequence();
                if self.check_sequence(sequence.as_slice()) {
                    self.copy_sequence(sequence.as_slice());
                    self.position_in_sequence = 0;
                    self.status = Status::Delay;
                    None
                } else {
                    self.status = Status::Idle;
                    Some(Effects::none())
                }
            },
            Status::Idle => Some(Effects::none()),
        }
    }

    /// Takes the driver's next step, up to the point where it asks for
    /// something or the sequence ends.
    pub fn do_next_op(&mut self) -> (effects: Effects)
        requires
            old(self)@.ready(),
        ensures
            (final(self)@, effects@) == old(self)@.do_next_op(),
            final(self)@.wf(),
    {
        proof {
            lemma_do_next_op(self@);
        }
        loop
            invariant
                self@.ready(),
                self@.do_next_op() == old(self)@.do_next_op(),
            decreases self@.phase(), self@.remaining(), self@.rank(), self@.repeats(),
        {
            proof {
                lemma_step(self@);
            }
            match self.advance() {
                Some(effects) => {
                    return effects;
                },
                None => {},
            }
        }
    }

    /// Starts to replay what the sequence buffer holds.
    fn send_sequence_buffer(&mut self) -> (effects: Effects)
        requires
            old(self)@.staged().ready(),
        ensures
            (final(self)@, effects@) == old(self)@.staged().do_next_op(),
            final(self)@.wf(),
    {
        self.position_in_sequence = 0;
        // the next step then sends the first entry of the sequence
        self.status = Status::Delay;
        self.do_next_op()
    }

    /// Loads `sequence` and starts to replay it.
    fn load_and_send(&mut self, sequence: &[SendCommand]) -> (effects: Effects)
        requires
            old(self)@.wf(),
            old(self)@.status is Idle,
            old(self)@.accepts_sequence(sequence@),
        ensures
            (final(self)@, effects@) == old(self)@.load(sequence@).do_next_op(),
            final(self)@.wf(),
    {
        proof {
            lemma_load(self@, sequence@);
        }
        self.copy_sequence(sequence);
        self.send_sequence_buffer()
    }

    /// Replays `sequence`.
    ///
    /// Refused with `EBUSY` unless the driver is idle, and with `ENOMEM` if
    /// the sequence is longer than the sequence buffer or names parameters
    /// or a write buffer that the driver does not have; the driver is then
    /// left as it was. Otherwise the sequence is copied and its first step
    /// taken.
    pub fn send_sequence(&mut self, sequence: &[SendCommand]) -> (r: (ReturnCode, Effects))
        requires
            old(self)@.wf(),
        ensures
            (final(self)@, r.0, r.1@) == old(self)@.send_sequence(sequence@),
            final(self)@.wf(),
    {
        if self.status == Status::Idle {
            if self.check_sequence(sequence) {
                let effects = self.load_and_send(sequence);
                (ReturnCode::SUCCESS, effects)
            } else {
                (ReturnCode::ENOMEM, Effects::none())
            }
        } else {
            (ReturnCode::EBUSY, Effects::none())
        }
    }

    /// Sends the single command `cmd` with its default parameters, provided
    /// the driver is idle and powered on.
    fn send_when_on(&mut self, cmd: Command) -> (r: (ReturnCode, Effects))
        requires
            old(self)@.wf(),
            cmd.spec_parameters().len() == 0,
        ensures
            (final(self)@, r.0, r.1@) == old(self)@.send_when_on(cmd),
            final(self)@.wf(),
    {
        if self.status == Status::Idle {
            if !self.power_on {
                (ReturnCode::EOFF, Effects::none())
            } else {
                self.setup_command = false;
                let effects = self.send_command_with_default_parameters(cmd);
                proof {
                    assert(!final(self)@.slice_ahead());
                }
                (ReturnCode::SUCCESS, effects)
            }
        } else {
            (ReturnCode::EBUSY, Effects::none())
        }
    }

    /// Fills the screen with one colour, given as sixteen bits.
    ///
    /// The transfer buffer keeps its first nine bytes for coordinates; the
    /// rest is painted with the colour and sent as often as it takes to
    /// cover the screen.
    pub fn fill(&mut self, color: usize) -> (r: (ReturnCode, Effects))
        requires
            old(self)@.wf(),
        ensures
            (final(self)@, r.0, r.1@) == old(self)@.fill(color),
            final(self)@.wf(),
    {
        if self.status == Status::Idle {
            if self.buffer_len < 11 || self.sequence_buffer.len() < 3 {
                return (ReturnCode::ENOMEM, Effects::none());
            }
            let bytes: usize = 128 * 160 * 2;
            let buffer_space: usize = (self.buffer_len - 9) / 2 * 2;
            let repeat: usize = if bytes % buffer_space == 0 {
                bytes / buffer_space
            } else {
                bytes / buffer_space + 1
            };
            let mut sequence: Vec<SendCommand> = Vec::new();
            sequence.push(SendCommand::Default(caset()));
            sequence.push(SendCommand::Default(raset()));
            sequence.push(SendCommand::Repeat(write_ram(), 9, buffer_space, repeat));
            let mut buffer: Vec<u8> = self.buffer.take().unwrap();
            paint(&mut buffer, 9, buffer_space, color);
            self.buffer = Some(buffer);
            proof {
                assert(sequence@ =~= old(self)@.fill_sequence());
                assert(caset().spec_parameters() =~= seq![0x00u8, 0x1E, 0x00, 0xD1]);
                assert(raset().spec_parameters() =~= seq![0x00u8, 0x00, 0x00, 0xB3]);
            }
            let effects = self.load_and_send(sequence.as_slice());
            (ReturnCode::SUCCESS, effects)
        } else {
            (ReturnCode::EBUSY, Effects::none())
        }
    }

    /// Turns the picture. Only the normal rotation is supported; the panel
    /// is sent an empty command either way.
    pub fn rotation(&mut self, rotation: ScreenRotation) -> (r: (ReturnCode, Effects))
        requires
            old(self)@.wf(),
        ensures
            (final(self)@, r.0, r.1@) == old(self)@.rotation(rotation),
            final(self)@.wf(),
    {
        if self.status == Status::Idle {
            proof {
                assert(nop().spec_parameters() =~= Seq::<u8>::empty());
            }
            let effects = self.send_command_with_default_parameters(nop());
            proof {
                assert(!final(self)@.slice_ahead());
            }
            match rotation {
                ScreenRotation::Normal => (ReturnCode::SUCCESS, effects),
                _ => (ReturnCode::ENOSUPPORT, effects),
            }
        } else {
            (ReturnCode::EBUSY, Effects::none())
        }
    }

    /// Turns the display on.
    pub fn display_on(&mut self) -> (r: (ReturnCode, Effects))
        requires
            old(self)@.wf(),
        ensures
            (final(self)@, r.0, r.1@) == old(self)@.send_when_on(display_on()),
            final(self)@.wf(),
    {
        proof {
            assert(display_on().spec_parameters() =~= Seq::<u8>::empty());
        }
        self.send_when_on(display_on())
    }

    /// Turns the display off.
    pub fn display_off(&mut self) -> (r: (ReturnCode, Effects))
        requires
            old(self)@.wf(),
        ensures
            (final(self)@, r.0, r.1@) == old(self)@.send_when_on(display_off()),
            final(self)@.wf(),
    {
        proof {
            assert(display_off().spec_parameters() =~= Seq::<u8>::empty());
        }
        self.send_when_on(display_off())
    }

    /// Inverting the colours is not supported.
    pub fn display_invert_on(&self) -> (r: ReturnCode)
        ensures
            r is ENOSUPPORT,
    {
        ReturnCode::ENOSUPPORT
    }

    /// Inverting the colours is not supported.
    pub fn display_invert_off(&self) -> (r: ReturnCode)
        ensures
            r is ENOSUPPORT,
    {
        ReturnCode::ENOSUPPORT
    }

    /// Writes the frame from (`sx`, `sy`) to (`ex`, `ey`) into the transfer
    /// buffer at `position`, as the column range followed by the row range.
    pub fn set_memory_frame(
        &mut self,
        position: usize,
        sx: usize,
        sy: usize,
        ex: usize,
        ey: usize,
    ) -> (r: ReturnCode)
        requires
            old(self)@.wf(),
        ensures
            (final(self)@, r) == old(self)@.set_memory_frame(position, sx, sy, ex, ey),
            final(self)@.wf(),
    {
        if sx <= self.width && sy <= self.height && ex <= self.width && ey <= self.height && sx
            <= ex && sy <= ey {
            if self.status == Status::Idle {
                if position > self.buffer_len || self.buffer_len - position < 8 {
                    return ReturnCode::ENOMEM;
                }
                let mut buffer: Vec<u8> = self.buffer.take().unwrap();
                write_frame(&mut buffer, position, sx as u8, ex as u8, sy as u8, ey as u8);
                self.buffer = Some(buffer);
                ReturnCode::SUCCESS
            } else {
                ReturnCode::EBUSY
            }
        } else {
            ReturnCode::EINVAL
        }
    }

    /// Writes one pixel.
    pub fn write_pixel(&mut self, x: usize, y: usize, color: usize) -> (r: (ReturnCode, Effects))
        requires
            old(self)@.wf(),
        ensures
            (final(self)@, r.0, r.1@) == old(self)@.write_pixel(x, y, color),
            final(self)@.wf(),
    {
        if x < self.width && y < self.height {
            if self.status == Status::Idle {
                if self.buffer_len < 11 || self.sequence_buffer.len() < 3 {
                    return (ReturnCode::ENOMEM, Effects::none());
                }
                let mut buffer: Vec<u8> = self.buffer.take().unwrap();
                // column range and row range
                write_frame(&mut buffer, 1, x as u8, (x + 1) as u8, y as u8, (y + 1) as u8);
                // colour
                buffer[9] = ((color / 256) % 256) as u8;
                buffer[10] = (color % 256) as u8;
                self.buffer = Some(buffer);
                let sequence: Vec<SendCommand> = write_pixel_sequence();
                let effects = self.load_and_send(sequence.as_slice());
                (ReturnCode::SUCCESS, effects)
            } else {
                (ReturnCode::EBUSY, Effects::none())
            }
        } else {
            (ReturnCode::EINVAL, Effects::none())
        }
    }

    /// Resets the panel and brings it up.
    ///
    /// Refused with `EBUSY` unless the driver is idle. Otherwise the reset
    /// line is toggled with the pauses the panel asks for, and then the
    /// initialisation sequence is replayed.
    pub fn init(&mut self) -> (r: (ReturnCode, Effects))
        requires
            old(self)@.wf(),
        ensures
            (final(self)@, r.0, r.1@) == old(self)@.init(),
            final(self)@.wf(),
    {
        if self.status == Status::Idle {
            self.status = Status::Reset1;
            let effects = self.do_next_op();
            (ReturnCode::SUCCESS, effects)
        } else {
            (ReturnCode::EBUSY, Effects::none())
        }
    }

    /// A request from the application: 0 asks whether the driver is there,
    /// 1 resets the panel, 2 fills the screen with the colour `data1`, 3
    /// writes the pixel whose column and row are the two low bytes of
    /// `data1` in the colour `data2`. Anything else is `ENOSUPPORT`.
    pub fn command(&mut self, command_num: usize, data1: usize, data2: usize, appid: AppId) -> (r: (
        ReturnCode,
        Effects,
    ))
        requires
            old(self)@.wf(),
        ensures
            final(self)@.wf(),
            command_num == 0 ==> r.0 is SUCCESS && r.1@ == EffectsView::none() && final(self)@
                == old(self)@,
            command_num == 1 ==> (final(self)@, r.0, r.1@) == old(self)@.init(),
            command_num == 2 ==> (final(self)@, r.0, r.1@) == old(self)@.fill(data1),
            command_num == 3 ==> (final(self)@, r.0, r.1@) == old(self)@.write_pixel(
                ((data1 / 256) % 256) as usize,
                (data1 % 256) as usize,
                data2,
            ),
            command_num > 3 ==> r.0 is ENOSUPPORT && r.1@ == EffectsView::none() && final(self)@
                == old(self)@,
    {
        match command_num {
            0 => (ReturnCode::SUCCESS, Effects::none()),
            // reset
            1 => self.init(),
            // fill with colour
            2 => self.fill(data1),
            // write pixel
            3 => self.write_pixel((data1 / 256) % 256, data1 % 256, data2),
            _ => (ReturnCode::ENOSUPPORT, Effects::none()),
        }
    }

    /// Registers, replaces or removes the application's callback. Only
    /// subscription 0 exists.
    pub fn subscribe(&mut self, subscribe_num: usize, callback: Option<Callback>, app_id: AppId) -> (r:
        ReturnCode)
        ensures
            subscribe_num == 0 ==> r is SUCCESS && final(self)@ == (LS016B8UYView {
                callback,
                ..old(self)@
            }),
            subscribe_num != 0 ==> r is ENOSUPPORT && final(self)@ == old(self)@,
    {
        match subscribe_num {
            0 => {
                self.callback = callback;
                ReturnCode::SUCCESS
            },
            _ => ReturnCode::ENOSUPPORT,
        }
    }

    /// Registers or removes the client told about configuration commands.
    pub fn set_setup_client(&mut self, setup_client: Option<usize>)
        ensures
            final(self)@ == (LS016B8UYView { setup_client, ..old(self)@ }),
    {
        self.setup_client = setup_client;
    }

    /// Sets the resolution. Only the panel's own is supported.
    pub fn set_resolution(&self, resolution: (usize, usize)) -> (r: (ReturnCode, Effects))
        ensures
            (r.0, r.1@) == self@.confirm_setup(
                resolution.0 == self@.width && resolution.1 == self@.height,
                ReturnCode::ENOSUPPORT,
            ),
    {
        if self.status == Status::Idle {
            if resolution.0 == self.width && resolution.1 == self.height {
                (ReturnCode::SUCCESS, self.setup_complete())
            } else {
                (ReturnCode::ENOSUPPORT, Effects::none())
            }
        } else {
            (ReturnCode::EBUSY, Effects::none())
        }
    }

    /// Sets the pixel format. Only sixteen bits per pixel are supported.
    pub fn set_pixel_format(&self, depth: ScreenPixelFormat) -> (r: (ReturnCode, Effects))
        ensures
            (r.0, r.1@) == self@.confirm_setup(depth is RGB_565, ReturnCode::EINVAL),
    {
        if self.status == Status::Idle {
            if depth == ScreenPixelFormat::RGB_565 {
                (ReturnCode::SUCCESS, self.setup_complete())
            } else {
                (ReturnCode::EINVAL, Effects::none())
            }
        } else {
            (ReturnCode::EBUSY, Effects::none())
        }
    }

    /// The word to the setup client that a configuration request is done.
    fn setup_complete(&self) -> (effects: Effects)
        ensures
            effects@ == (EffectsView {
                notification: match self@.setup_client {
                    Some(client) => Some(
                        NotificationView::SetupCommandComplete {
                            client,
                            code: ReturnCode::SUCCESS,
                        },
                    ),
                    None => None,
                },
                ..EffectsView::none()
            }),
    {
        Effects {
            memory: None,
            reset: None,
            alarm_ms: None,
            upcall: None,
            notification: match self.setup_client {
                Some(client) => Some(
                    Notification::SetupCommandComplete { client, code: ReturnCode::SUCCESS },
                ),
                None => None,
            },
        }
    }

    /// Turns the picture; see `rotation`.
    pub fn set_rotation(&mut self, rotation: ScreenRotation) -> (r: (ReturnCode, Effects))
        requires
            old(self)@.wf(),
        ensures
            (final(self)@, r.0, r.1@) == old(self)@.rotation(rotation),
            final(self)@.wf(),
    {
        self.rotation(rotation)
    }

    /// The number of resolutions the panel supports.
    pub fn get_num_supported_resolutions(&self) -> (n: usize)
        ensures
            n == 1,
    {
        1
    }

    /// The supported resolution number `index`.
    pub fn get_supported_resolution(&self, index: usize) -> (r: Option<(usize, usize)>)
        ensures
            r == if index == 0 {
                Some((self@.width, self@.height))
            } else {
                None
            },
    {
        match index {
            0 => Some((self.width, self.height)),
            _ => None,
        }
    }

    /// The number of pixel formats the panel supports.
    pub fn get_num_supported_pixel_formats(&self) -> (n: usize)
        ensures
            n == 1,
    {
        1
    }

    /// The supported pixel format number `index`.
    pub fn get_supported_pixel_format(&self, index: usize) -> (r: Option<ScreenPixelFormat>)
        ensures
            r == if index == 0 {
                Some(ScreenPixelFormat::RGB_565)
            } else {
                None
            },
    {
        match index {
            0 => Some(ScreenPixelFormat::RGB_565),
            _ => None,
        }
    }

    /// The resolution in use: width, then height.
    pub fn get_resolution(&self) -> (r: (usize, usize))
        ensures
            r == (self@.width, self@.height),
    {
        (self.width, self.height)
    }

    /// The pixel format in use.
    pub fn get_pixel_format(&self) -> (r: ScreenPixelFormat)
        ensures
            r is RGB_565,
    {
        ScreenPixelFormat::RGB_565
    }

    /// The rotation in use.
    pub fn get_rotation(&self) -> (r: ScreenRotation)
        ensures
            r is Normal,
    {
        ScreenRotation::Normal
    }

    /// Sets the frame that the next write fills: `width` by `height` pixels
    /// from (`x`, `y`).
    pub fn set_write_frame(&mut self, x: usize, y: usize, width: usize, height: usize) -> (r: (
        ReturnCode,
        Effects,
    ))
        requires
            old(self)@.wf(),
        ensures
            (final(self)@, r.0, r.1@) == old(self)@.set_write_frame(x, y, width, height),
            final(self)@.wf(),
    {
        if self.status == Status::Idle {
            if self.buffer_len < 10 {
                return (ReturnCode::ENOMEM, Effects::none());
            }
            let (ex, ey): (usize, usize) = match (range_end(x, width), range_end(y, height)) {
                (Some(ex), Some(ey)) => (ex, ey),
                _ => {
                    return (ReturnCode::EINVAL, Effects::none());
                },
            };
            if !(x <= self.width && y <= self.height && ex <= self.width && ey <= self.height
                && x <= ex && y <= ey) {
                return (ReturnCode::EINVAL, Effects::none());
            }
            if self.sequence_buffer.len() < 2 {
                return (ReturnCode::ENOMEM, Effects::none());
            }
            let err = self.set_memory_frame(1, x, y, ex, ey);
            match err {
                ReturnCode::SUCCESS => {
                    self.setup_command = false;
                    let mut sequence: Vec<SendCommand> = Vec::new();
                    sequence.push(SendCommand::Position(caset(), 1, 4));
                    sequence.push(SendCommand::Position(raset(), 5, 4));
                    proof {
                        assert(sequence@ =~= LS016B8UYView::write_frame_sequence());
                    }
                    let effects = self.load_and_send(sequence.as_slice());
                    (ReturnCode::SUCCESS, effects)
                },
                _ => (err, Effects::none()),
            }
        } else {
            (ReturnCode::EBUSY, Effects::none())
        }
    }

    /// Writes the first `len` bytes of `buffer` to the frame set before.
    ///
    /// The third part of the answer is a buffer that the driver does not
    /// keep: the caller's own if the request is refused, else a write buffer
    /// that the driver still held from an earlier write, if any.
    pub fn write(&mut self, buffer: Vec<u8>, len: usize) -> (r: (
        ReturnCode,
        Effects,
        Option<Vec<u8>>,
    ))
        requires
            old(self)@.wf(),
        ensures
            (final(self)@, r.0, r.1@) == old(self)@.write(buffer@, len),
            final(self)@.wf(),
            r.0 is SUCCESS ==> bytes_of(r.2) == old(self)@.write_buffer,
            !(r.0 is SUCCESS) ==> r.2 == Some(buffer),
    {
        if self.status == Status::Idle {
            if self.buffer_len == 0 || self.sequence_buffer.len() < 1 {
                return (ReturnCode::ENOMEM, Effects::none(), Some(buffer));
            }
            self.setup_command = false;
            let previous: Option<Vec<u8>> = self.write_buffer.take();
            self.write_buffer = Some(buffer);
            let mut sequence: Vec<SendCommand> = Vec::new();
            sequence.push(SendCommand::Slice(write_ram(), len));
            proof {
                assert(sequence@ =~= seq![SendCommand::Slice(write_ram(), len)]);
            }
            let effects = self.load_and_send(sequence.as_slice());
            (ReturnCode::SUCCESS, effects, previous)
        } else {
            (ReturnCode::EBUSY, Effects::none(), Some(buffer))
        }
    }

    /// Registers or removes the client told about everything else.
    pub fn set_client(&mut self, client: Option<usize>)
        ensures
            final(self)@ == (LS016B8UYView { client, ..old(self)@ }),
    {
        self.client = client;
    }

    /// Sets the brightness: zero turns the display off, anything else turns
    /// it on.
    pub fn set_brightness(&mut self, brightness: usize) -> (r: (ReturnCode, Effects))
        requires
            old(self)@.wf(),
        ensures
            (final(self)@, r.0, r.1@) == old(self)@.send_when_on(
                if brightness > 0 {
                    display_on()
                } else {
                    display_off()
                },
            ),
            final(self)@.wf(),
    {
        if brightness > 0 {
            self.display_on()
        } else {
            self.display_off()
        }
    }

    /// Inverting the colours is not supported.
    pub fn invert_on(&self) -> (r: ReturnCode)
        ensures
            r is ENOSUPPORT,
    {
        self.display_invert_on()
    }

    /// Inverting the colours is not supported.
    pub fn invert_off(&self) -> (r: ReturnCode)
        ensures
            r is ENOSUPPORT,
    {
        self.display_invert_off()
    }

    /// The alarm fired: the driver takes its next step.
    pub fn fired(&mut self) -> (effects: Effects)
        requires
            old(self)@.wf(),
            old(self)@.expects_alarm(),
        ensures
            (final(self)@, effects@) == old(self)@.do_next_op(),
            final(self)@.wf(),
    {
        self.do_next_op()
    }

    /// A transfer is over and `buffer` comes back: it returns to the slot
    /// that the transfer emptied, and the driver takes its next step.
    pub fn command_complete(&mut self, buffer: Vec<u8>, len: usize) -> (effects: Effects)
        requires
            old(self)@.wf(),
            old(self)@.expects_completion(buffer@),
        ensures
            (final(self)@, effects@) == old(self)@.with_returned(buffer@).do_next_op(),
            final(self)@.wf(),
    {
        if self.status == Status::SendParametersSlice {
            self.write_buffer = Some(buffer);
        } else {
            self.buffer = Some(buffer);
        }
        proof {
            assert(self@.slice_ahead() == old(self)@.slice_ahead());
        }
        self.do_next_op()
    }
}

} // verus!
