//! The relay between the serial device and the terminal: what the session
//! does after each read from the device, each chunk typed at the keyboard,
//! and each write to the device.
use vstd::prelude::*;

use crate::escape::{escape_state_machine, escape_step, EscapeAction, EscapeState, TILDE};

verus! {

/// How many bytes one read, from the device or from the keyboard, may
/// hand over at most.
pub const CHUNK_CAPACITY: usize = 512;

/// The kinds of I/O error, as std reports them.
#[verifier::external_type_specification]
pub struct ExIoErrorKind(std::io::ErrorKind);

/// Why a session ended. Each session ends exactly once.
#[derive(Clone, Debug, PartialEq, Eq)]
pub enum SessionOutcome {
    /// The user typed the escape sequence.
    UserTerminated,
    /// The device went away (broken pipe).
    DeviceDisconnected,
    /// Another I/O error on the device, with its description.
    TransportError(String),
    /// The flow that reads the keyboard stopped.
    PeerThreadLost,
}

/// What one read from the serial device gave.
pub enum DeviceRead {
    /// The bytes that arrived; none when the read timed out without data.
    Received(Vec<u8>),
    /// The read failed, with the error's kind and description.
    Failed(std::io::ErrorKind, String),
}

/// What the serial reader does next.
#[derive(Debug, PartialEq, Eq)]
pub enum ReaderStep {
    /// Write these bytes to the display and flush it.
    Show(Vec<u8>),
    /// Nothing to show: poll again.
    Idle,
    /// End the session.
    Stop(SessionOutcome),
}

/// What one poll of the keyboard flow's channel gave.
pub enum InputPoll {
    /// A chunk of bytes read from the keyboard.
    Chunk(Vec<u8>),
    /// Nothing typed since the last poll.
    Empty,
    /// The keyboard flow has gone: its end of the channel is closed.
    Lost,
}

/// What the input relay does next.
#[derive(Debug, PartialEq, Eq)]
pub enum InputStep {
    /// Write these bytes to the device.
    Send(Vec<u8>),
    /// Nothing to write: go back to polling.
    Idle,
    /// End the session.
    Stop(SessionOutcome),
}

/// What one write to the serial device gave.
pub enum DeviceWrite {
    /// The write went through.
    Written,
    /// The write failed, with the error's kind and description.
    Failed(std::io::ErrorKind, String),
}

/// What becomes of a read from the device: bytes that arrived are shown,
/// an empty read or a timeout is no event, a broken pipe means the device
/// was unplugged, and any other error ends the session as a transport
/// error.
pub open spec fn serial_read_step(read: DeviceRead) -> ReaderStep {
    match read {
        DeviceRead::Received(bytes) => {
            if bytes@.len() > 0 {
                ReaderStep::Show(bytes)
            } else {
                ReaderStep::Idle
            }
        },
        DeviceRead::Failed(kind, detail) => {
            if kind == std::io::ErrorKind::TimedOut {
                ReaderStep::Idle
            } else if kind == std::io::ErrorKind::BrokenPipe {
                ReaderStep::Stop(SessionOutcome::DeviceDisconnected)
            } else {
                ReaderStep::Stop(SessionOutcome::TransportError(detail))
            }
        },
    }
}

/// What becomes of a write to the device: a timeout is ignored, any other
/// error ends the session as a transport error.
pub open spec fn serial_write_step(result: DeviceWrite) -> Option<SessionOutcome> {
    match result {
        DeviceWrite::Written => None,
        DeviceWrite::Failed(kind, detail) => {
            if kind == std::io::ErrorKind::TimedOut {
                None
            } else {
                Some(SessionOutcome::TransportError(detail))
            }
        },
    }
}

/// What becomes of a chunk typed at the keyboard, in escape state `s`: the
/// escape state afterwards and the step. Only a chunk of exactly one byte
/// goes through the escape detector; any other chunk is sent as it is and
/// leaves the state alone.
pub open spec fn input_step(s: EscapeState, poll: InputPoll) -> (EscapeState, InputStep) {
    match poll {
        InputPoll::Chunk(bytes) => {
            if bytes@.len() == 1 {
                let (next, action) = escape_step(s, bytes@[0]);
                match action {
                    EscapeAction::Pass => (next, InputStep::Send(bytes)),
                    EscapeAction::Suppress => (next, InputStep::Idle),
                    EscapeAction::Terminate => (next, InputStep::Stop(SessionOutcome::UserTerminated)),
                }
            } else {
                (s, InputStep::Send(bytes))
            }
        },
        InputPoll::Empty => (s, InputStep::Idle),
        InputPoll::Lost => (s, InputStep::Stop(SessionOutcome::PeerThreadLost)),
    }
}

/// The bytes that a read from the device carries: what arrived, or nothing.
pub open spec fn payload(read: DeviceRead) -> Seq<u8> {
    match read {
        DeviceRead::Received(bytes) => bytes@,
        DeviceRead::Failed(_, _) => Seq::empty(),
    }
}

/// Whether `read` is what a device that is plugged in gives: data, or a
/// timeout.
pub open spec fn is_live_read(read: DeviceRead) -> bool {
    ||| read is Received
    ||| read matches DeviceRead::Failed(kind, _) && kind == std::io::ErrorKind::TimedOut
}

/// The bytes written to the display for the reads in `reads`, in order,
/// until one of them ends the session.
pub open spec fn shown(reads: Seq<DeviceRead>) -> Seq<u8>
    decreases reads.len(),
{
    if reads.len() == 0 {
        Seq::empty()
    } else {
        match serial_read_step(reads[0]) {
            ReaderStep::Show(bytes) => bytes@ + shown(reads.drop_first()),
            ReaderStep::Idle => shown(reads.drop_first()),
            ReaderStep::Stop(_) => Seq::empty(),
        }
    }
}

/// The bytes carried by the reads in `reads`, joined in order.
pub open spec fn received(reads: Seq<DeviceRead>) -> Seq<u8>
    decreases reads.len(),
{
    if reads.len() == 0 {
        Seq::empty()
    } else {
        payload(reads[0]) + received(reads.drop_first())
    }
}

/// While the device is plugged in, every byte read from it is written to
/// the display, in the order it arrived, and nothing else is; no read ends
/// the session.
pub proof fn lemma_device_bytes_shown_in_order(reads: Seq<DeviceRead>)
    requires
        forall|i: int| 0 <= i < reads.len() ==> is_live_read(#[trigger] reads[i]),
    ensures
        shown(reads) == received(reads),
        forall|i: int| 0 <= i < reads.len() ==> !(serial_read_step(#[trigger] reads[i]) is Stop),
    decreases reads.len(),
{
    if reads.len() > 0 {
        let rest = reads.drop_first();
        assert forall|i: int| 0 <= i < rest.len() implies is_live_read(#[trigger] rest[i]) by {
            assert(rest[i] == reads[i + 1]);
        }
        lemma_device_bytes_shown_in_order(rest);
        if let DeviceRead::Received(bytes) = reads[0] {
            if bytes@.len() == 0 {
                assert(bytes@ + received(rest) =~= received(rest));
            }
        } else {
            assert(Seq::<u8>::empty() + received(rest) =~= received(rest));
        }
    }
}

/// Feeds the polls in `polls`, one after another, to the input relay with
/// its escape detector in state `s`: the state at the end, and the step
/// taken for each poll, in order.
pub open spec fn input_run(s: EscapeState, polls: Seq<InputPoll>) -> (EscapeState, Seq<InputStep>)
    decreases polls.len(),
{
    if polls.len() == 0 {
        (s, Seq::empty())
    } else {
        let (mid, steps) = input_run(s, polls.drop_last());
        let (end, step) = input_step(mid, polls.last());
        (end, steps.push(step))
    }
}

/// A chunk of more than one byte is sent to the device as it is, whatever
/// the bytes, and leaves the escape detector where it was.
pub proof fn lemma_long_chunk_sent_verbatim(s: EscapeState, bytes: Vec<u8>)
    requires
        bytes@.len() > 1,
    ensures
        input_step(s, InputPoll::Chunk(bytes)) == (s, InputStep::Send(bytes)),
{
}

/// Typed input in which `~` never comes as a chunk of its own is sent to
/// the device chunk by chunk, each as it was read and in order, and never
/// ends the session, unless the detector already waited for a command.
pub proof fn lemma_input_sent_verbatim(s: EscapeState, chunks: Seq<Vec<u8>>)
    requires
        s != EscapeState::ProcessCommand,
        forall|i: int| 0 <= i < chunks.len() ==> #[trigger] chunks[i]@ != seq![TILDE],
    ensures
        input_run(s, chunks.map_values(|c: Vec<u8>| InputPoll::Chunk(c))).1
            == chunks.map_values(|c: Vec<u8>| InputStep::Send(c)),
{
    lemma_input_never_armed(s, chunks);
}

proof fn lemma_input_never_armed(s: EscapeState, chunks: Seq<Vec<u8>>)
    requires
        s != EscapeState::ProcessCommand,
        forall|i: int| 0 <= i < chunks.len() ==> #[trigger] chunks[i]@ != seq![TILDE],
    ensures
        input_run(s, chunks.map_values(|c: Vec<u8>| InputPoll::Chunk(c))).0
            != EscapeState::ProcessCommand,
        input_run(s, chunks.map_values(|c: Vec<u8>| InputPoll::Chunk(c))).1
            == chunks.map_values(|c: Vec<u8>| InputStep::Send(c)),
    decreases chunks.len(),
{
    let polls = chunks.map_values(|c: Vec<u8>| InputPoll::Chunk(c));
    if chunks.len() > 0 {
        let pre = chunks.drop_last();
        assert forall|i: int| 0 <= i < pre.len() implies #[trigger] pre[i]@ != seq![TILDE] by {
            assert(pre[i] == chunks[i]);
        }
        lemma_input_never_armed(s, pre);
        assert(polls.drop_last() =~= pre.map_values(|c: Vec<u8>| InputPoll::Chunk(c)));
        let last = chunks.last();
        assert(polls.last() == InputPoll::Chunk(last));
        assert(last@ != seq![TILDE]);
        if last@.len() == 1 {
            assert(last@ =~= seq![last@[0]]);
        }
        assert(chunks.map_values(|c: Vec<u8>| InputStep::Send(c)) =~= pre.map_values(
            |c: Vec<u8>| InputStep::Send(c),
        ).push(InputStep::Send(last)));
    } else {
        assert(polls =~= Seq::<InputPoll>::empty());
        assert(chunks.map_values(|c: Vec<u8>| InputStep::Send(c)) =~= Seq::<InputStep>::empty());
    }
}

/// The state of one session: where the escape detector stands.
pub struct Session {
    escape: EscapeState,
}

impl Session {
    /// Where the session's escape detector stands.
    pub closed spec fn escape(&self) -> EscapeState {
        self.escape
    }

    /// A session that has seen no input yet.
    pub fn new() -> (s: Session)
        ensures
            s.escape() == EscapeState::WaitForEnter,
    {
        Session { escape: EscapeState::WaitForEnter }
    }

    /// Where the session's escape detector stands.
    pub fn escape_state(&self) -> (s: EscapeState)
        ensures
            s == self.escape(),
    {
        self.escape
    }

    /// Decides what to do with one read from the serial device.
    pub fn on_serial_read(read: DeviceRead) -> (step: ReaderStep)
        ensures
            step == serial_read_step(read),
    {
        match read {
            DeviceRead::Received(bytes) => {
                if bytes.len() > 0 {
                    ReaderStep::Show(bytes)
                } else {
                    ReaderStep::Idle
                }
            },
            DeviceRead::Failed(kind, detail) => match kind {
                std::io::ErrorKind::TimedOut => ReaderStep::Idle,
                std::io::ErrorKind::BrokenPipe => ReaderStep::Stop(SessionOutcome::DeviceDisconnected),
                _ => ReaderStep::Stop(SessionOutcome::TransportError(detail)),
            },
        }
    }

    /// Decides what to do with one poll of the keyboard flow's channel,
    /// and moves the escape detector on a chunk of one byte.
    pub fn on_input(&mut self, poll: InputPoll) -> (step: InputStep)
        ensures
            (final(self).escape(), step) == input_step(old(self).escape(), poll),
    {
        match poll {
            InputPoll::Chunk(bytes) => {
                if bytes.len() == 1 {
                    let action = escape_state_machine(&bytes[0], &mut self.escape);
                    match action {
                        EscapeAction::Pass => InputStep::Send(bytes),
                        EscapeAction::Suppress => InputStep::Idle,
                        EscapeAction::Terminate => InputStep::Stop(SessionOutcome::UserTerminated),
                    }
                } else {
                    InputStep::Send(bytes)
                }
            },
            InputPoll::Empty => InputStep::Idle,
            InputPoll::Lost => InputStep::Stop(SessionOutcome::PeerThreadLost),
        }
    }

    /// Decides what to do after a write to the serial device: `None` to go
    /// on, or the outcome that ends the session.
    pub fn on_serial_write(result: DeviceWrite) -> (outcome: Option<SessionOutcome>)
        ensures
            outcome == serial_write_step(result),
    {
        match result {
            DeviceWrite::Written => None,
            DeviceWrite::Failed(kind, detail) => match kind {
                std::io::ErrorKind::TimedOut => None,
                _ => Some(SessionOutcome::TransportError(detail)),
            },
        }
    }
}

} // verus!
