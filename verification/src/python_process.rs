//! Supervision of the engine process: how it is launched, the channel that
//! carries its output to the one listener, who may read from it, and what
//! the threads that read its pipes do with each line. The process and its
//! pipes belong to whoever embeds the library; the decisions are made here.

use crate::protocol::{frame_line, framed};
use crate::Message;
use vstd::prelude::*;

verus! {

/// How many lines the channel from the reader to the listener holds before
/// the reader has to wait.
pub const BRIDGE_CAPACITY: usize = 100;

/// The sending end of a `tokio` channel.
#[verifier::external_type_specification]
#[verifier::external_body]
#[verifier::reject_recursive_types(T)]
pub struct ExSender<T>(tokio::sync::mpsc::Sender<T>);

/// The receiving end of a `tokio` channel.
#[verifier::external_type_specification]
#[verifier::external_body]
#[verifier::reject_recursive_types(T)]
pub struct ExReceiver<T>(tokio::sync::mpsc::Receiver<T>);

/// The number of lines that the channel of this sender was made to hold.
pub uninterp spec fn capacity_of(sender: tokio::sync::mpsc::Sender<String>) -> nat;

/// `tokio::sync::mpsc::channel`: a channel that buffers up to `capacity`
/// messages, which the sender reports as its greatest capacity from then
/// on. The call panics on a capacity of 0 or of more than an eighth of
/// `usize::MAX`, so those are not asked for.
#[verifier::external_body]
fn channel(
    capacity: usize,
) -> (ends: (tokio::sync::mpsc::Sender<String>, tokio::sync::mpsc::Receiver<String>))
    requires
        0 < capacity <= usize::MAX / 8,
    ensures
        capacity_of(ends.0) == capacity,
{
    tokio::sync::mpsc::channel(capacity)
}

/// Makes the channel from the reader of the engine's output to the
/// listener: it holds `BRIDGE_CAPACITY` lines, and a reader that finds it
/// full waits. There is one receiving end, which cannot be copied.
pub fn open_bridge() -> (ends: (
    tokio::sync::mpsc::Sender<String>,
    tokio::sync::mpsc::Receiver<String>,
))
    ensures
        capacity_of(ends.0) == BRIDGE_CAPACITY,
{
    channel(BRIDGE_CAPACITY)
}

/// How the engine is started.
#[derive(Debug, Clone, PartialEq, Eq)]
pub struct LaunchPlan {
    pub program: String,
    pub args: Vec<String>,
    pub working_dir: String,
}

/// The engine process as its supervisor holds it: the side that commands
/// are written to, and the end of the channel that its output is read from.
/// The reading end can be taken out once; after that nobody else gets one.
#[derive(Debug)]
pub struct PythonProcess<W, R> {
    writer: W,
    events: Option<R>,
}

impl<W, R> PythonProcess<W, R> {
    /// The side that commands are written to.
    pub closed spec fn writer_end(&self) -> W {
        self.writer
    }

    /// The reading end, while nobody has taken it.
    pub closed spec fn pending_events(&self) -> Option<R> {
        self.events
    }

    /// Takes charge of a launched engine.
    pub fn new(writer: W, events: R) -> (process: Self)
        ensures
            process.writer_end() == writer,
            process.pending_events() == Some(events),
    {
        PythonProcess { writer, events: Some(events) }
    }

    /// The side that commands are written to.
    pub fn writer(&self) -> (writer: &W)
        ensures
            *writer == self.writer_end(),
    {
        &self.writer
    }

    /// What sending `message` comes to: the writer to lock, and the line
    /// to write to it in one piece and flush, which is the message and a
    /// line feed.
    pub fn send(&self, message: &str) -> (order: (&W, String))
        ensures
            *order.0 == self.writer_end(),
            order.1@ == framed(message@),
    {
        (&self.writer, frame_line(message))
    }

    /// Hands the reading end out. The first call gets it; every later call
    /// gets `None`, so that no two listeners ever share the stream.
    pub fn events(&mut self) -> (events: Option<R>)
        ensures
            events == old(self).pending_events(),
            final(self).pending_events() is None,
            final(self).writer_end() == old(self).writer_end(),
    {
        self.events.take()
    }
}

impl PythonProcess<(), ()> {
    /// The plan for launching the engine script `script_path` in
    /// `working_dir`: the Python interpreter, unbuffered, under the GPU
    /// launcher.
    pub fn spawn(script_path: &str, working_dir: &str) -> (plan: LaunchPlan)
        ensures
            plan.program@ == "prime-run"@,
            plan.args@.len() == 3,
            plan.args@[0]@ == "python"@,
            plan.args@[1]@ == "-u"@,
            plan.args@[2]@ == script_path@,
            plan.working_dir@ == working_dir@,
    {
        let mut args: Vec<String> = Vec::new();
        args.push(String::from_str("python"));
        args.push(String::from_str("-u"));
        args.push(String::from_str(script_path));
        LaunchPlan {
            program: String::from_str("prime-run"),
            args,
            working_dir: String::from_str(working_dir),
        }
    }
}

/// Which pipe of the engine a line came from.
#[derive(Debug, Clone, Copy, PartialEq, Eq, Structural)]
pub enum Stream {
    Output,
    Diagnostic,
}

/// What came of an attempt to read a line from a pipe.
#[derive(Debug, Clone, PartialEq, Eq)]
pub enum ReadOutcome {
    Line(String),
    /// The line could not be read as text.
    Unreadable,
    /// The pipe is closed: the engine has exited.
    EndOfStream,
}

/// What the reader thread does next.
#[derive(Debug, Clone, PartialEq, Eq)]
pub enum Relay {
    /// Send this line down the channel, waiting if it is full.
    Forward(String),
    /// Write this line to the log.
    Log(String),
    /// Read the next line.
    Skip,
    /// End the thread.
    Stop,
}

/// A relay as a mathematical value.
pub enum RelayView {
    Forward(Seq<char>),
    Log(Seq<char>),
    Skip,
    Stop,
}

impl View for Relay {
    type V = RelayView;

    open spec fn view(&self) -> RelayView {
        match self {
            Relay::Forward(line) => RelayView::Forward(line@),
            Relay::Log(line) => RelayView::Log(line@),
            Relay::Skip => RelayView::Skip,
            Relay::Stop => RelayView::Stop,
        }
    }
}

/// What a reader does with the outcome of a read: a line of the output
/// goes down the channel unchanged, a line of the diagnostic stream goes to
/// the log under a mark, an unreadable line is passed over, and the end of
/// the stream ends the reader.
pub open spec fn relay_of(stream: Stream, outcome: ReadOutcome) -> RelayView {
    match outcome {
        ReadOutcome::Line(line) => match stream {
            Stream::Output => RelayView::Forward(line@),
            Stream::Diagnostic => RelayView::Log("[PYTHON-ERR] "@ + line@),
        },
        ReadOutcome::Unreadable => RelayView::Skip,
        ReadOutcome::EndOfStream => RelayView::Stop,
    }
}

/// Decides what a reader thread does with the outcome of a read.
pub fn on_read(stream: Stream, outcome: ReadOutcome) -> (relay: Relay)
    ensures
        relay@ == relay_of(stream, outcome),
{
    match outcome {
        ReadOutcome::Line(line) => match stream {
            Stream::Output => Relay::Forward(line),
            Stream::Diagnostic => Relay::Log(
                String::from_str("[PYTHON-ERR] ").concat(line.as_str()),
            ),
        },
        ReadOutcome::Unreadable => Relay::Skip,
        ReadOutcome::EndOfStream => Relay::Stop,
    }
}

/// Nothing read from the diagnostic stream ever goes down the channel.
pub proof fn lemma_diagnostics_never_forwarded(outcome: ReadOutcome)
    ensures
        !(relay_of(Stream::Diagnostic, outcome) is Forward),
{
}

/// Whether the reader goes on after trying to send a line down the channel:
/// it does while the listener is there, and stops once the listener is gone.
pub fn on_forwarded(delivered: bool) -> (keep_reading: bool)
    ensures
        keep_reading == delivered,
{
    delivered
}

/// The lines that go down the channel when the reads of the output pipe end
/// as `outcomes` say and the reader does each time what `on_read` decides,
/// the listener staying: every line forwarded, in order, until the reader
/// stops.
pub open spec fn forwarded(outcomes: Seq<ReadOutcome>) -> Seq<Seq<char>>
    decreases outcomes.len(),
{
    if outcomes.len() == 0 {
        Seq::empty()
    } else {
        match relay_of(Stream::Output, outcomes[0]) {
            RelayView::Forward(line) => seq![line] + forwarded(outcomes.drop_first()),
            RelayView::Stop => Seq::empty(),
            _ => forwarded(outcomes.drop_first()),
        }
    }
}

/// What the reader of the diagnostic stream sends down the channel, doing
/// each time what `on_read` decides.
pub open spec fn diagnostics_forwarded(outcomes: Seq<ReadOutcome>) -> Seq<Seq<char>>
    decreases outcomes.len(),
{
    if outcomes.len() == 0 {
        Seq::empty()
    } else {
        match relay_of(Stream::Diagnostic, outcomes[0]) {
            RelayView::Forward(line) => seq![line] + diagnostics_forwarded(
                outcomes.drop_first(),
            ),
            RelayView::Stop => Seq::empty(),
            _ => diagnostics_forwarded(outcomes.drop_first()),
        }
    }
}

/// Whatever the diagnostic stream holds, none of it reaches the listener.
pub proof fn lemma_diagnostics_stay_out(outcomes: Seq<ReadOutcome>)
    ensures
        diagnostics_forwarded(outcomes) == Seq::<Seq<char>>::empty(),
    decreases outcomes.len(),
{
    if outcomes.len() > 0 {
        lemma_diagnostics_stay_out(outcomes.drop_first());
    }
}

/// The lines of `outcomes`, where every outcome is a line.
pub open spec fn lines_of(outcomes: Seq<ReadOutcome>) -> Seq<Seq<char>> {
    Seq::new(outcomes.len(), |i: int| outcomes[i]->Line_0@)
}

/// Order is kept: where every read gives a line, the lines go down the
/// channel exactly as read, none lost, none added, none moved.
pub proof fn lemma_lines_forwarded_in_order(outcomes: Seq<ReadOutcome>)
    requires
        forall|i: int| 0 <= i < outcomes.len() ==> #[trigger] outcomes[i] is Line,
    ensures
        forwarded(outcomes) == lines_of(outcomes),
    decreases outcomes.len(),
{
    if outcomes.len() > 0 {
        let rest = outcomes.drop_first();
        assert forall|i: int| 0 <= i < rest.len() implies #[trigger] rest[i] is Line by {
            assert(rest[i] == outcomes[i + 1]);
        }
        lemma_lines_forwarded_in_order(rest);
        assert(outcomes[0] is Line);
        assert(forwarded(outcomes) =~= lines_of(outcomes)) by {
            assert forall|i: int| 0 <= i < outcomes.len() implies forwarded(outcomes)[i]
                == lines_of(outcomes)[i] by {
                if i > 0 {
                    assert(lines_of(rest)[i - 1] == lines_of(outcomes)[i]);
                }
            }
        }
    } else {
        assert(forwarded(outcomes) =~= lines_of(outcomes));
    }
}

/// What the listener makes of what it takes from the channel: a line is
/// handed on as the engine's output, and the end of the channel ends the
/// listening.
pub fn python_stream(next: Option<String>) -> (message: Option<Message>)
    ensures
        match next {
            Some(line) => message == Some(Message::PythonOutput(line)),
            None => message is None,
        },
{
    match next {
        Some(line) => Some(Message::PythonOutput(line)),
        None => None,
    }
}

} // verus!
