use rscripter::console::{
    usable, ENABLE_VIRTUAL_TERMINAL_PROCESSING, INVALID_HANDLE_VALUE, STD_ERROR_HANDLE,
    STD_OUTPUT_HANDLE,
};
use rscripter::{ConsoleCall, ConsoleInit, ConsoleReply};

/// A console made of plain values, for the initialization to run against.
struct Console {
    output: isize,
    error: isize,
    modes: Vec<(isize, u32)>,
    refused: Vec<isize>,
    calls: Vec<ConsoleCall>,
}

impl Console {
    fn new(output: isize, error: isize, modes: &[(isize, u32)]) -> Console {
        Console { output, error, modes: modes.to_vec(), refused: Vec::new(), calls: Vec::new() }
    }

    fn mode(&self, handle: isize) -> Option<u32> {
        self.modes.iter().find(|entry| entry.0 == handle).map(|entry| entry.1)
    }

    fn answer(&mut self, call: ConsoleCall) -> ConsoleReply {
        self.calls.push(call);
        match call {
            ConsoleCall::GetHandle { device } => ConsoleReply::Handle {
                handle: if device == STD_OUTPUT_HANDLE {
                    self.output
                } else if device == STD_ERROR_HANDLE {
                    self.error
                } else {
                    INVALID_HANDLE_VALUE
                },
            },
            ConsoleCall::GetMode { handle } => match self.mode(handle) {
                Some(mode) => ConsoleReply::Mode { status: 1, mode },
                None => ConsoleReply::Mode { status: 0, mode: 0 },
            },
            ConsoleCall::SetMode { handle, mode } => {
                if self.refused.contains(&handle) || self.mode(handle).is_none() {
                    ConsoleReply::Status { status: 0 }
                } else {
                    for entry in self.modes.iter_mut() {
                        if entry.0 == handle {
                            entry.1 = mode;
                        }
                    }
                    ConsoleReply::Status { status: 1 }
                }
            }
        }
    }

    fn initialize(&mut self) -> ConsoleInit {
        self.calls.clear();
        let mut state = ConsoleInit::new();
        while let Some(call) = state.pending() {
            let reply = self.answer(call);
            state = state.advance(reply);
        }
        state
    }
}

#[test]
fn constants_have_their_values() {
    assert_eq!(STD_OUTPUT_HANDLE, -11i32 as u32);
    assert_eq!(STD_ERROR_HANDLE, -12i32 as u32);
    assert_eq!(ENABLE_VIRTUAL_TERMINAL_PROCESSING, 0x0004);
    assert_eq!(INVALID_HANDLE_VALUE, -1);
}

#[test]
fn usable_handles() {
    assert!(usable(1));
    assert!(usable(0x1234));
    assert!(usable(-2));
    assert!(usable(isize::MAX));
    assert!(usable(isize::MIN));
    assert!(!usable(0));
    assert!(!usable(-1));
}

#[test]
fn initialization_makes_six_calls_in_order() {
    let mut console = Console::new(7, 9, &[(7, 0x3), (9, 0x10)]);
    assert_eq!(console.initialize(), ConsoleInit::Enabled);
    assert_eq!(
        console.calls,
        vec![
            ConsoleCall::GetHandle { device: STD_OUTPUT_HANDLE },
            ConsoleCall::GetHandle { device: STD_ERROR_HANDLE },
            ConsoleCall::GetMode { handle: 7 },
            ConsoleCall::GetMode { handle: 9 },
            ConsoleCall::SetMode { handle: 7, mode: 0x7 },
            ConsoleCall::SetMode { handle: 9, mode: 0x14 },
        ]
    );
    assert_eq!(console.mode(7), Some(0x7));
    assert_eq!(console.mode(9), Some(0x14));
}

#[test]
fn initialization_keeps_the_other_flags() {
    let mut console = Console::new(7, 9, &[(7, 0xFFFF_FFFB), (9, 0)]);
    assert_eq!(console.initialize(), ConsoleInit::Enabled);
    assert_eq!(console.mode(7), Some(0xFFFF_FFFF));
    assert_eq!(console.mode(9), Some(0x4));
}

#[test]
fn initialization_twice_is_initialization_once() {
    let mut console = Console::new(7, 9, &[(7, 0x3), (9, 0x10)]);
    assert_eq!(console.initialize(), ConsoleInit::Enabled);
    let modes = console.modes.clone();
    assert_eq!(console.initialize(), ConsoleInit::Enabled);
    assert_eq!(console.modes, modes);
    assert_eq!(console.calls.len(), 6);
}

#[test]
fn failed_initialization_twice_fails_the_same_way() {
    let mut console = Console::new(7, 9, &[(7, 0x3), (9, 0x10)]);
    console.refused.push(9);
    assert_eq!(console.initialize(), ConsoleInit::Failed);
    let modes = console.modes.clone();
    let calls = console.calls.len();
    assert_eq!(modes, vec![(7, 0x7), (9, 0x10)]);
    assert_eq!(console.initialize(), ConsoleInit::Failed);
    assert_eq!(console.modes, modes);
    assert_eq!(console.calls.len(), calls);
}

#[test]
fn one_stream_behind_both_handles() {
    let mut console = Console::new(7, 7, &[(7, 0x1)]);
    assert_eq!(console.initialize(), ConsoleInit::Enabled);
    assert_eq!(console.mode(7), Some(0x5));
    assert_eq!(console.calls.len(), 6);
}

#[test]
fn invalid_output_handle_stops_at_once() {
    for handle in [INVALID_HANDLE_VALUE, 0] {
        let mut console = Console::new(handle, 9, &[(9, 0)]);
        assert_eq!(console.initialize(), ConsoleInit::Failed);
        assert_eq!(console.calls, vec![ConsoleCall::GetHandle { device: STD_OUTPUT_HANDLE }]);
        assert_eq!(console.mode(9), Some(0));
    }
}

#[test]
fn invalid_error_handle_stops_after_two_calls() {
    for handle in [INVALID_HANDLE_VALUE, 0] {
        let mut console = Console::new(7, handle, &[(7, 0)]);
        assert_eq!(console.initialize(), ConsoleInit::Failed);
        assert_eq!(console.calls.len(), 2);
        assert_eq!(console.mode(7), Some(0));
    }
}

#[test]
fn unreadable_output_mode_stops_after_three_calls() {
    let mut console = Console::new(7, 9, &[(9, 0)]);
    assert_eq!(console.initialize(), ConsoleInit::Failed);
    assert_eq!(console.calls.len(), 3);
    assert_eq!(console.mode(9), Some(0));
}

#[test]
fn unreadable_error_mode_stops_after_four_calls() {
    let mut console = Console::new(7, 9, &[(7, 0)]);
    assert_eq!(console.initialize(), ConsoleInit::Failed);
    assert_eq!(console.calls.len(), 4);
    assert_eq!(console.mode(7), Some(0));
}

#[test]
fn refused_output_write_stops_after_five_calls() {
    let mut console = Console::new(7, 9, &[(7, 0), (9, 0)]);
    console.refused.push(7);
    assert_eq!(console.initialize(), ConsoleInit::Failed);
    assert_eq!(console.calls.len(), 5);
    assert_eq!(console.modes, vec![(7, 0), (9, 0)]);
}

#[test]
fn refused_error_write_leaves_the_output_written() {
    let mut console = Console::new(7, 9, &[(7, 0), (9, 0)]);
    console.refused.push(9);
    assert_eq!(console.initialize(), ConsoleInit::Failed);
    assert_eq!(console.calls.len(), 6);
    assert_eq!(console.modes, vec![(7, 0x4), (9, 0)]);
}

#[test]
fn new_initialization_asks_for_the_output_handle() {
    let state = ConsoleInit::new();
    assert_eq!(state, ConsoleInit::OutputHandle);
    assert_eq!(state.pending(), Some(ConsoleCall::GetHandle { device: STD_OUTPUT_HANDLE }));
}

#[test]
fn final_states_ask_for_nothing_and_stay() {
    let replies = [
        ConsoleReply::Handle { handle: 7 },
        ConsoleReply::Mode { status: 1, mode: 0 },
        ConsoleReply::Status { status: 1 },
        ConsoleReply::Status { status: 0 },
    ];
    for state in [ConsoleInit::Enabled, ConsoleInit::Failed] {
        assert_eq!(state.pending(), None);
        for reply in replies {
            assert_eq!(state.advance(reply), state);
        }
    }
}

#[test]
fn reply_of_another_kind_fails_the_initialization() {
    let handle = ConsoleReply::Handle { handle: 7 };
    let mode = ConsoleReply::Mode { status: 1, mode: 0 };
    let status = ConsoleReply::Status { status: 1 };
    let output_mode = ConsoleInit::OutputMode { output: 7, error: 9 };
    let output_update =
        ConsoleInit::OutputUpdate { output: 7, error: 9, output_mode: 0, error_mode: 0 };
    assert_eq!(ConsoleInit::OutputHandle.advance(mode), ConsoleInit::Failed);
    assert_eq!(ConsoleInit::OutputHandle.advance(status), ConsoleInit::Failed);
    assert_eq!(ConsoleInit::ErrorHandle { output: 7 }.advance(status), ConsoleInit::Failed);
    assert_eq!(output_mode.advance(handle), ConsoleInit::Failed);
    assert_eq!(output_mode.advance(status), ConsoleInit::Failed);
    assert_eq!(output_update.advance(handle), ConsoleInit::Failed);
    assert_eq!(output_update.advance(mode), ConsoleInit::Failed);
    assert_eq!(
        ConsoleInit::ErrorUpdate { error: 9, error_mode: 0 }.advance(mode),
        ConsoleInit::Failed
    );
}

#[test]
fn any_nonzero_status_is_success() {
    let state = ConsoleInit::OutputMode { output: 7, error: 9 };
    assert_eq!(
        state.advance(ConsoleReply::Mode { status: -1, mode: 5 }),
        ConsoleInit::ErrorMode { output: 7, error: 9, output_mode: 5 }
    );
    let state = ConsoleInit::ErrorUpdate { error: 9, error_mode: 0 };
    assert_eq!(state.advance(ConsoleReply::Status { status: 2 }), ConsoleInit::Enabled);
}
