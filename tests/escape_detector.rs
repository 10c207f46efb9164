use serial_console::escape::{escape_state_machine, EscapeAction, EscapeState};

fn feed_all(start: EscapeState, bytes: &[u8]) -> (EscapeState, Vec<EscapeAction>) {
    let mut state = start;
    let mut actions = Vec::new();
    for b in bytes {
        actions.push(escape_state_machine(b, &mut state));
    }
    (state, actions)
}

const ALL_STATES: [EscapeState; 3] = [
    EscapeState::WaitForEnter,
    EscapeState::WaitForEscapeChar,
    EscapeState::ProcessCommand,
];

#[test]
fn enter_arms_detector_and_is_forwarded() {
    for b in [b'\r', b'\n'] {
        let mut state = EscapeState::WaitForEnter;
        assert_eq!(escape_state_machine(&b, &mut state), EscapeAction::Pass);
        assert_eq!(state, EscapeState::WaitForEscapeChar);
    }
}

#[test]
fn ordinary_byte_keeps_waiting_for_enter() {
    let mut state = EscapeState::WaitForEnter;
    assert_eq!(escape_state_machine(&b'~', &mut state), EscapeAction::Pass);
    assert_eq!(state, EscapeState::WaitForEnter);
    assert_eq!(escape_state_machine(&b'.', &mut state), EscapeAction::Pass);
    assert_eq!(state, EscapeState::WaitForEnter);
}

#[test]
fn tilde_after_enter_is_suppressed() {
    let mut state = EscapeState::WaitForEscapeChar;
    assert_eq!(escape_state_machine(&b'~', &mut state), EscapeAction::Suppress);
    assert_eq!(state, EscapeState::ProcessCommand);
}

#[test]
fn repeated_carriage_return_rearms() {
    let mut state = EscapeState::WaitForEscapeChar;
    assert_eq!(escape_state_machine(&b'\r', &mut state), EscapeAction::Pass);
    assert_eq!(state, EscapeState::WaitForEscapeChar);
    let mut state = EscapeState::ProcessCommand;
    assert_eq!(escape_state_machine(&b'\r', &mut state), EscapeAction::Pass);
    assert_eq!(state, EscapeState::WaitForEscapeChar);
}

#[test]
fn line_feed_after_enter_resets() {
    let mut state = EscapeState::WaitForEscapeChar;
    assert_eq!(escape_state_machine(&b'\n', &mut state), EscapeAction::Pass);
    assert_eq!(state, EscapeState::WaitForEnter);
}

#[test]
fn double_tilde_sends_one_tilde() {
    let (state, actions) = feed_all(EscapeState::WaitForEnter, b"\r~~");
    assert_eq!(
        actions,
        vec![EscapeAction::Pass, EscapeAction::Suppress, EscapeAction::Pass]
    );
    assert_eq!(state, EscapeState::WaitForEnter);
}

#[test]
fn no_terminate_without_escape_sequence() {
    let input = b"hello\r.~\n~~x.\r\r~\r.ab~.\n";
    let (_, actions) = feed_all(EscapeState::WaitForEnter, input);
    assert_eq!(actions.len(), input.len());
    assert!(actions.iter().all(|a| *a != EscapeAction::Terminate));
}

#[test]
fn escape_sequence_terminates_from_any_state() {
    for start in ALL_STATES {
        let (_, actions) = feed_all(start, b"\r~.");
        assert_eq!(
            actions,
            vec![EscapeAction::Pass, EscapeAction::Suppress, EscapeAction::Terminate]
        );
    }
}

#[test]
fn escape_sequence_terminates_after_other_input() {
    let (_, actions) = feed_all(EscapeState::WaitForEnter, b"ls -l\r~.");
    assert_eq!(actions.last(), Some(&EscapeAction::Terminate));
    assert_eq!(actions.iter().filter(|a| **a == EscapeAction::Terminate).count(), 1);
}

#[test]
fn other_byte_after_enter_tilde_resets() {
    for start in ALL_STATES {
        for b in [b'a', b'~', b'\n', 0u8, 0xff] {
            let (state, actions) = feed_all(start, &[b'\r', b'~', b]);
            assert_eq!(state, EscapeState::WaitForEnter);
            assert_eq!(
                actions,
                vec![EscapeAction::Pass, EscapeAction::Suppress, EscapeAction::Pass]
            );
        }
    }
}
