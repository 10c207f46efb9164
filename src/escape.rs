//! Recognition of the in-band escape sequence `<Enter> ~ .`.
use vstd::prelude::*;

verus! {

/// Carriage return, sent by the Enter key in raw mode.
pub const CR: u8 = 0x0d;

/// Line feed, also accepted as Enter.
pub const LF: u8 = 0x0a;

/// The escape character, typed right after Enter.
pub const TILDE: u8 = 0x7e;

/// The command that ends the session, typed right after the escape character.
pub const DOT: u8 = 0x2e;

/// Where the detector stands in the escape sequence.
#[derive(Clone, Copy, Debug, PartialEq, Eq, Structural)]
pub enum EscapeState {
    /// No Enter seen yet: waiting for the start of a sequence.
    WaitForEnter,
    /// Enter seen: waiting for the escape character.
    WaitForEscapeChar,
    /// Escape character seen: the next byte is a command.
    ProcessCommand,
}

/// What the caller does with the byte that was fed.
#[derive(Clone, Copy, Debug, PartialEq, Eq, Structural)]
pub enum EscapeAction {
    /// Forward the byte to the device.
    Pass,
    /// Drop the byte: it is part of an escape sequence.
    Suppress,
    /// Drop the byte and end the session.
    Terminate,
}

/// Whether `b` counts as Enter when waiting for the start of a sequence.
pub open spec fn is_enter(b: u8) -> bool {
    b == CR || b == LF
}

/// The transition table of the detector: the state after feeding `b` in
/// state `s`, and what becomes of `b`.
pub open spec fn escape_step(s: EscapeState, b: u8) -> (EscapeState, EscapeAction) {
    match s {
        EscapeState::WaitForEnter => {
            if is_enter(b) {
                (EscapeState::WaitForEscapeChar, EscapeAction::Pass)
            } else {
                (EscapeState::WaitForEnter, EscapeAction::Pass)
            }
        },
        EscapeState::WaitForEscapeChar => {
            if b == TILDE {
                (EscapeState::ProcessCommand, EscapeAction::Suppress)
            } else if b == CR {
                (EscapeState::WaitForEscapeChar, EscapeAction::Pass)
            } else {
                (EscapeState::WaitForEnter, EscapeAction::Pass)
            }
        },
        EscapeState::ProcessCommand => {
            if b == DOT {
                (EscapeState::ProcessCommand, EscapeAction::Terminate)
            } else if b == CR {
                (EscapeState::WaitForEscapeChar, EscapeAction::Pass)
            } else {
                (EscapeState::WaitForEnter, EscapeAction::Pass)
            }
        },
    }
}

/// Feeds the bytes of `bs`, one at a time, to a detector in state `s`: the
/// state at the end, and what became of each byte, in order.
pub open spec fn escape_run(s: EscapeState, bs: Seq<u8>) -> (EscapeState, Seq<EscapeAction>)
    decreases bs.len(),
{
    if bs.len() == 0 {
        (s, Seq::empty())
    } else {
        let (mid, acts) = escape_run(s, bs.drop_last());
        let (end, a) = escape_step(mid, bs.last());
        (end, acts.push(a))
    }
}

/// Whether the byte at `i` completes an escape sequence: Enter, `~`, `.`
/// at `i - 2`, `i - 1` and `i`.
pub open spec fn completes_escape(bs: Seq<u8>, i: int) -> bool {
    &&& 2 <= i < bs.len()
    &&& is_enter(bs[i - 2])
    &&& bs[i - 1] == TILDE
    &&& bs[i] == DOT
}

/// What the detector remembers of the bytes before it, when no escape
/// sequence has been completed.
spec fn state_agrees(s: EscapeState, bs: Seq<u8>) -> bool {
    &&& s == EscapeState::WaitForEscapeChar ==> bs.len() >= 1 && is_enter(bs.last())
    &&& s == EscapeState::ProcessCommand ==> {
        &&& bs.len() >= 2
        &&& is_enter(bs[bs.len() - 2])
        &&& bs.last() == TILDE
    }
}

proof fn lemma_run_without_escape(bs: Seq<u8>)
    requires
        forall|i: int| !completes_escape(bs, i),
    ensures
        escape_run(EscapeState::WaitForEnter, bs).1.len() == bs.len(),
        forall|i: int|
            0 <= i < bs.len() ==> escape_run(EscapeState::WaitForEnter, bs).1[i]
                != EscapeAction::Terminate,
        state_agrees(escape_run(EscapeState::WaitForEnter, bs).0, bs),
    decreases bs.len(),
{
    if bs.len() > 0 {
        let pre = bs.drop_last();
        assert forall|i: int| !completes_escape(pre, i) by {
            if completes_escape(pre, i) {
                assert(completes_escape(bs, i));
            }
        }
        lemma_run_without_escape(pre);
        let n = bs.len() - 1;
        assert(!completes_escape(bs, n));
    }
}

/// An input in which Enter, `~`, `.` never follow one another, fed byte by
/// byte from the initial state, never makes the detector end the session.
pub proof fn lemma_no_terminate_without_escape(bs: Seq<u8>)
    requires
        forall|i: int| !completes_escape(bs, i),
    ensures
        escape_run(EscapeState::WaitForEnter, bs).1.len() == bs.len(),
        forall|i: int|
            0 <= i < bs.len() ==> escape_run(EscapeState::WaitForEnter, bs).1[i]
                != EscapeAction::Terminate,
{
    lemma_run_without_escape(bs);
}

/// From any state, `\r`, `~` forwards the `\r`, suppresses the `~`, and
/// leaves the detector ready for a command.
proof fn lemma_enter_then_tilde(s: EscapeState)
    ensures
        escape_run(s, seq![CR, TILDE]).0 == EscapeState::ProcessCommand,
        escape_run(s, seq![CR, TILDE]).1 == seq![EscapeAction::Pass, EscapeAction::Suppress],
{
    assert(seq![CR].drop_last() == Seq::<u8>::empty());
    assert(escape_run(s, Seq::empty()).1 == Seq::<EscapeAction>::empty());
    assert(escape_run(s, seq![CR]).0 == EscapeState::WaitForEscapeChar);
    assert(escape_run(s, seq![CR]).1 =~= seq![EscapeAction::Pass]);
    assert(seq![CR, TILDE].drop_last() == seq![CR]);
    assert(escape_run(s, seq![CR, TILDE]).1 =~= seq![
        EscapeAction::Pass,
        EscapeAction::Suppress,
    ]);
}

/// From any state, `\r`, `~`, `.` fed byte by byte end the session on the
/// `.`: the `\r` is forwarded, the `~` and the `.` are not.
pub proof fn lemma_escape_terminates(s: EscapeState)
    ensures
        escape_run(s, seq![CR, TILDE, DOT]).1 == seq![
            EscapeAction::Pass,
            EscapeAction::Suppress,
            EscapeAction::Terminate,
        ],
{
    let bs = seq![CR, TILDE, DOT];
    lemma_enter_then_tilde(s);
    assert(bs.drop_last() == seq![CR, TILDE]);
    assert(escape_run(s, bs).1 =~= seq![
        EscapeAction::Pass,
        EscapeAction::Suppress,
        EscapeAction::Terminate,
    ]);
}

/// From any state, a byte other than `.` or `\r` after `\r`, `~` sends the
/// detector back to waiting for Enter, and that byte is forwarded.
pub proof fn lemma_escape_resets(s: EscapeState, b: u8)
    requires
        b != DOT,
        b != CR,
    ensures
        escape_run(s, seq![CR, TILDE, b]).0 == EscapeState::WaitForEnter,
        escape_run(s, seq![CR, TILDE, b]).1 == seq![
            EscapeAction::Pass,
            EscapeAction::Suppress,
            EscapeAction::Pass,
        ],
{
    let bs = seq![CR, TILDE, b];
    lemma_enter_then_tilde(s);
    assert(bs.drop_last() == seq![CR, TILDE]);
    assert(escape_run(s, bs).1 =~= seq![
        EscapeAction::Pass,
        EscapeAction::Suppress,
        EscapeAction::Pass,
    ]);
}

/// Feeds one byte typed on its own to the detector.
///
/// A `~` right after Enter is suppressed rather than forwarded. Only `.`
/// after it ends the session; Enter there re-arms the detector, and any
/// other byte resets it and is forwarded. So `~~` after Enter sends one
/// `~`.
pub fn escape_state_machine(character: &u8, escape_state: &mut EscapeState) -> (action: EscapeAction)
    ensures
        (*final(escape_state), action) == escape_step(*old(escape_state), *character),
{
    match *escape_state {
        EscapeState::WaitForEnter => {
            if *character == CR || *character == LF {
                *escape_state = EscapeState::WaitForEscapeChar;
            }
            EscapeAction::Pass
        },
        EscapeState::WaitForEscapeChar => {
            if *character == TILDE {
                *escape_state = EscapeState::ProcessCommand;
                EscapeAction::Suppress
            } else {
                if *character != CR {
                    *escape_state = EscapeState::WaitForEnter;
                }
                EscapeAction::Pass
            }
        },
        EscapeState::ProcessCommand => {
            if *character == DOT {
                EscapeAction::Terminate
            } else {
                if *character == CR {
                    *escape_state = EscapeState::WaitForEscapeChar;
                } else {
                    *escape_state = EscapeState::WaitForEnter;
                }
                EscapeAction::Pass
            }
        },
    }
}

} // verus!
