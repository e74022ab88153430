//! Console initialization: making a terminal interpret color escape codes.
//!
//! Some terminals print escape sequences verbatim until the "virtual terminal
//! processing" flag is set in the mode of the standard output and standard
//! error streams. Setting it takes six console calls, each of which can fail.
//! The calls are the embedding program's work; their order, what is handed to
//! each, and when to give up are decided here. The caller makes the pending
//! [`ConsoleCall`], hands its [`ConsoleReply`] to [`ConsoleInit::advance`], and
//! repeats until nothing is pending.

use vstd::prelude::*;

verus! {

/// Identifies the standard output device in a [`ConsoleCall::GetHandle`].
pub const STD_OUTPUT_HANDLE: u32 = 0xFFFF_FFF5;

/// Identifies the standard error device in a [`ConsoleCall::GetHandle`].
pub const STD_ERROR_HANDLE: u32 = 0xFFFF_FFF4;

/// The mode flag that makes a console interpret escape sequences.
pub const ENABLE_VIRTUAL_TERMINAL_PROCESSING: u32 = 0x0004;

/// The handle value by which the console reports that it has none to give.
pub const INVALID_HANDLE_VALUE: isize = -1;

/// A handle can be used unless it is the invalid handle or null.
pub open spec fn handle_is_usable(handle: isize) -> bool {
    handle != INVALID_HANDLE_VALUE && handle != 0
}

/// `mode` with the virtual terminal flag set and every other flag as it was.
pub open spec fn with_virtual_terminal(mode: u32) -> u32 {
    mode | ENABLE_VIRTUAL_TERMINAL_PROCESSING
}

/// A call for the embedding program to make on the console.
#[derive(Copy, Clone, Debug, PartialEq, Eq, Structural)]
pub enum ConsoleCall {
    /// Ask for the handle of a standard device.
    GetHandle { device: u32 },
    /// Read the mode of the stream behind `handle`.
    GetMode { handle: isize },
    /// Write `mode` as the mode of the stream behind `handle`.
    SetMode { handle: isize, mode: u32 },
}

/// What the console answered to a [`ConsoleCall`].
#[derive(Copy, Clone, Debug, PartialEq, Eq, Structural)]
pub enum ConsoleReply {
    /// The answer to `GetHandle`.
    Handle { handle: isize },
    /// The answer to `GetMode`: a status, zero for failure, and the mode read.
    Mode { status: i32, mode: u32 },
    /// The answer to `SetMode`: a status, zero for failure.
    Status { status: i32 },
}

/// How far an initialization has come, with what it has learned so far.
#[derive(Copy, Clone, Debug, PartialEq, Eq, Structural)]
pub enum ConsoleInit {
    /// Nothing is known yet.
    OutputHandle,
    /// The output handle is known.
    ErrorHandle { output: isize },
    /// Both handles are known.
    OutputMode { output: isize, error: isize },
    /// Both handles and the output mode are known.
    ErrorMode { output: isize, error: isize, output_mode: u32 },
    /// Both modes are known; neither has been written.
    OutputUpdate { output: isize, error: isize, output_mode: u32, error_mode: u32 },
    /// The output mode has been written.
    ErrorUpdate { error: isize, error_mode: u32 },
    /// Final: both streams interpret escape sequences.
    Enabled,
    /// Final: a call failed and the initialization was given up.
    Failed,
}

impl ConsoleInit {
    /// The call to make in this state; `None` once the initialization is over.
    pub open spec fn call(self) -> Option<ConsoleCall> {
        match self {
            ConsoleInit::OutputHandle => Some(ConsoleCall::GetHandle { device: STD_OUTPUT_HANDLE }),
            ConsoleInit::ErrorHandle { .. } => Some(
                ConsoleCall::GetHandle { device: STD_ERROR_HANDLE },
            ),
            ConsoleInit::OutputMode { output, .. } => Some(ConsoleCall::GetMode { handle: output }),
            ConsoleInit::ErrorMode { error, .. } => Some(ConsoleCall::GetMode { handle: error }),
            ConsoleInit::OutputUpdate { output, output_mode, .. } => Some(
                ConsoleCall::SetMode { handle: output, mode: with_virtual_terminal(output_mode) },
            ),
            ConsoleInit::ErrorUpdate { error, error_mode } => Some(
                ConsoleCall::SetMode { handle: error, mode: with_virtual_terminal(error_mode) },
            ),
            ConsoleInit::Enabled => None,
            ConsoleInit::Failed => None,
        }
    }

    /// The state that follows `self` when the console answers `reply`.
    ///
    /// An unusable handle, a zero status, or a reply of another kind than the
    /// pending call asks for gives the whole initialization up. A final state
    /// stays what it is.
    pub open spec fn after(self, reply: ConsoleReply) -> ConsoleInit {
        match (self, reply) {
            (ConsoleInit::OutputHandle, ConsoleReply::Handle { handle }) => {
                if handle_is_usable(handle) {
                    ConsoleInit::ErrorHandle { output: handle }
                } else {
                    ConsoleInit::Failed
                }
            },
            (ConsoleInit::ErrorHandle { output }, ConsoleReply::Handle { handle }) => {
                if handle_is_usable(handle) {
                    ConsoleInit::OutputMode { output, error: handle }
                } else {
                    ConsoleInit::Failed
                }
            },
            (ConsoleInit::OutputMode { output, error }, ConsoleReply::Mode { status, mode }) => {
                if status != 0 {
                    ConsoleInit::ErrorMode { output, error, output_mode: mode }
                } else {
                    ConsoleInit::Failed
                }
            },
            (
                ConsoleInit::ErrorMode { output, error, output_mode },
                ConsoleReply::Mode { status, mode },
            ) => {
                if status != 0 {
                    ConsoleInit::OutputUpdate { output, error, output_mode, error_mode: mode }
                } else {
                    ConsoleInit::Failed
                }
            },
            (
                ConsoleInit::OutputUpdate { error, error_mode, .. },
                ConsoleReply::Status { status },
            ) => {
                if status != 0 {
                    ConsoleInit::ErrorUpdate { error, error_mode }
                } else {
                    ConsoleInit::Failed
                }
            },
            (ConsoleInit::ErrorUpdate { .. }, ConsoleReply::Status { status }) => {
                if status != 0 {
                    ConsoleInit::Enabled
                } else {
                    ConsoleInit::Failed
                }
            },
            (ConsoleInit::Enabled, _) => ConsoleInit::Enabled,
            _ => ConsoleInit::Failed,
        }
    }

    /// The state every initialization begins in.
    pub fn new() -> (state: ConsoleInit)
        ensures
            state == ConsoleInit::OutputHandle,
    {
        ConsoleInit::OutputHandle
    }

    /// The call to make now, or `None` when the initialization is over.
    pub fn pending(&self) -> (call: Option<ConsoleCall>)
        ensures
            call == self.call(),
    {
        match *self {
            ConsoleInit::OutputHandle => Some(ConsoleCall::GetHandle { device: STD_OUTPUT_HANDLE }),
            ConsoleInit::ErrorHandle { .. } => Some(
                ConsoleCall::GetHandle { device: STD_ERROR_HANDLE },
            ),
            ConsoleInit::OutputMode { output, .. } => Some(ConsoleCall::GetMode { handle: output }),
            ConsoleInit::ErrorMode { error, .. } => Some(ConsoleCall::GetMode { handle: error }),
            ConsoleInit::OutputUpdate { output, output_mode, .. } => Some(
                ConsoleCall::SetMode {
                    handle: output,
                    mode: output_mode | ENABLE_VIRTUAL_TERMINAL_PROCESSING,
                },
            ),
            ConsoleInit::ErrorUpdate { error, error_mode } => Some(
                ConsoleCall::SetMode {
                    handle: error,
                    mode: error_mode | ENABLE_VIRTUAL_TERMINAL_PROCESSING,
                },
            ),
            ConsoleInit::Enabled => None,
            ConsoleInit::Failed => None,
        }
    }

    /// Takes the console's answer to the pending call and moves on.
    pub fn advance(self, reply: ConsoleReply) -> (next: ConsoleInit)
        ensures
            next == self.after(reply),
    {
        match self {
            ConsoleInit::OutputHandle => match reply {
                ConsoleReply::Handle { handle } if usable(handle) => ConsoleInit::ErrorHandle {
                    output: handle,
                },
                _ => ConsoleInit::Failed,
            },
            ConsoleInit::ErrorHandle { output } => match reply {
                ConsoleReply::Handle { handle } if usable(handle) => ConsoleInit::OutputMode {
                    output,
                    error: handle,
                },
                _ => ConsoleInit::Failed,
            },
            ConsoleInit::OutputMode { output, error } => match reply {
                ConsoleReply::Mode { status, mode } if status != 0 => ConsoleInit::ErrorMode {
                    output,
                    error,
                    output_mode: mode,
                },
                _ => ConsoleInit::Failed,
            },
            ConsoleInit::ErrorMode { output, error, output_mode } => match reply {
                ConsoleReply::Mode { status, mode } if status != 0 => ConsoleInit::OutputUpdate {
                    output,
                    error,
                    output_mode,
                    error_mode: mode,
                },
                _ => ConsoleInit::Failed,
            },
            ConsoleInit::OutputUpdate { error, error_mode, .. } => match reply {
                ConsoleReply::Status { status } if status != 0 => ConsoleInit::ErrorUpdate {
                    error,
                    error_mode,
                },
                _ => ConsoleInit::Failed,
            },
            ConsoleInit::ErrorUpdate { .. } => match reply {
                ConsoleReply::Status { status } if status != 0 => ConsoleInit::Enabled,
                _ => ConsoleInit::Failed,
            },
            ConsoleInit::Enabled => ConsoleInit::Enabled,
            ConsoleInit::Failed => ConsoleInit::Failed,
        }
    }
}

/// Tells whether a handle that the console gave can be used.
pub fn usable(handle: isize) -> (ok: bool)
    ensures
        ok == handle_is_usable(handle),
{
    handle != INVALID_HANDLE_VALUE && handle != 0
}

/// A console as far as the initialization can tell one from another: the
/// handles it gives out, the mode of each stream it knows, and the writes it
/// would accept. A stream that `modes` does not hold cannot be read or written.
pub struct Console {
    pub output: isize,
    pub error: isize,
    pub modes: Map<isize, u32>,
    pub accepted: Set<(isize, u32)>,
}

impl Console {
    /// What this console answers to `call`.
    pub open spec fn answer(self, call: ConsoleCall) -> ConsoleReply {
        match call {
            ConsoleCall::GetHandle { device } => ConsoleReply::Handle {
                handle: if device == STD_OUTPUT_HANDLE {
                    self.output
                } else if device == STD_ERROR_HANDLE {
                    self.error
                } else {
                    INVALID_HANDLE_VALUE
                },
            },
            ConsoleCall::GetMode { handle } => if self.modes.dom().contains(handle) {
                ConsoleReply::Mode { status: 1, mode: self.modes[handle] }
            } else {
                ConsoleReply::Mode { status: 0, mode: 0 }
            },
            ConsoleCall::SetMode { handle, mode } => ConsoleReply::Status {
                status: if self.takes(handle, mode) {
                    1
                } else {
                    0
                },
            },
        }
    }

    /// Whether writing `mode` to the stream behind `handle` would succeed.
    pub open spec fn takes(self, handle: isize, mode: u32) -> bool {
        self.modes.dom().contains(handle) && self.accepted.contains((handle, mode))
    }

    /// This console once `call` has been made on it: a write that succeeds
    /// changes the mode of its stream, and no other call changes anything.
    pub open spec fn changed_by(self, call: ConsoleCall) -> Console {
        match call {
            ConsoleCall::SetMode { handle, mode } if self.takes(handle, mode) => Console {
                modes: self.modes.insert(handle, mode),
                ..self
            },
            _ => self,
        }
    }
}

/// Where `state` and `console` stand after the caller has followed the
/// initialization for up to `calls` calls.
pub open spec fn run(state: ConsoleInit, console: Console, calls: nat) -> (ConsoleInit, Console)
    decreases calls,
{
    match state.call() {
        Some(call) if calls > 0 => run(
            state.after(console.answer(call)),
            console.changed_by(call),
            (calls - 1) as nat,
        ),
        _ => (state, console),
    }
}

/// The outcome of one whole initialization of `console`, and the console it
/// leaves behind.
pub open spec fn initialized(console: Console) -> (ConsoleInit, Console) {
    run(ConsoleInit::OutputHandle, console, 6)
}

/// Setting the flag twice is setting it once, and no other flag is touched.
pub proof fn virtual_terminal_flag_is_stable(mode: u32)
    ensures
        with_virtual_terminal(with_virtual_terminal(mode)) == with_virtual_terminal(mode),
        with_virtual_terminal(mode) & ENABLE_VIRTUAL_TERMINAL_PROCESSING
            == ENABLE_VIRTUAL_TERMINAL_PROCESSING,
        with_virtual_terminal(mode) & !ENABLE_VIRTUAL_TERMINAL_PROCESSING == mode
            & !ENABLE_VIRTUAL_TERMINAL_PROCESSING,
{
    assert((mode | 4) | 4 == mode | 4) by (bit_vector);
    assert((mode | 4) & 4 == 4) by (bit_vector);
    assert((mode | 4) & !4u32 == mode & !4u32) by (bit_vector);
}

/// Six calls end every initialization. It succeeds exactly when both handles
/// are usable, both modes can be read, and both writes are accepted; then each
/// stream has the mode that was read from it, with the flag set. A stream
/// that was not written keeps its mode.
pub proof fn initialization_outcome(console: Console)
    ensures
        ({
            let (state, left) = initialized(console);
            let output_mode = with_virtual_terminal(console.modes[console.output]);
            let error_mode = with_virtual_terminal(console.modes[console.error]);
            let reached_output = handle_is_usable(console.output) && handle_is_usable(console.error)
                && console.modes.dom().contains(console.output) && console.modes.dom().contains(
                console.error,
            ) && console.accepted.contains((console.output, output_mode));
            let reached_error = reached_output && console.accepted.contains(
                (console.error, error_mode),
            );
            &&& state is Enabled || state is Failed
            &&& state is Enabled <==> reached_error
            &&& left.output == console.output
            &&& left.error == console.error
            &&& left.accepted == console.accepted
            &&& left.modes == if reached_error {
                console.modes.insert(console.output, output_mode).insert(console.error, error_mode)
            } else if reached_output {
                console.modes.insert(console.output, output_mode)
            } else {
                console.modes
            }
        }),
{
    reveal_with_fuel(run, 7);
}

/// Initializing a console a second time ends as the first time did and leaves
/// the console as the first time left it.
pub proof fn initialization_is_idempotent(console: Console)
    ensures
        initialized(initialized(console).1) == initialized(console),
{
    let first = initialized(console);
    let second = initialized(first.1);
    initialization_outcome(console);
    initialization_outcome(first.1);
    virtual_terminal_flag_is_stable(console.modes[console.output]);
    virtual_terminal_flag_is_stable(console.modes[console.error]);
    assert(second.1.modes =~= first.1.modes);
}

} // verus!
