//! A bare console for an engine process: the last lines of its output, a
//! line of input, and a switch that starts it.

use crate::text::{join, join_spec, texts};
use vstd::prelude::*;

verus! {

/// How many lines of output the console keeps.
pub const MAX_OUTPUT_LINES: usize = 50;

/// What can happen to the console.
#[derive(Debug, Clone, PartialEq, Eq)]
pub enum Message {
    /// The process wrote a line.
    PythonOutput(String),
    /// The operator typed; this is the whole input now.
    InputChanged(String),
    /// The operator sent the input off.
    SendInput,
    /// The operator started the process.
    StartPython,
    /// The process runs and takes input.
    PythonReady,
}

/// The console as a mathematical value.
pub struct ConsoleModel {
    /// The lines of output on show, oldest first.
    pub output: Seq<Seq<char>>,
    pub input_text: Seq<char>,
    /// The process takes input.
    pub ready: bool,
    pub python_started: bool,
}

/// The console before anything happened.
pub open spec fn console_initial() -> ConsoleModel {
    ConsoleModel {
        output: Seq::empty(),
        input_text: Seq::empty(),
        ready: false,
        python_started: false,
    }
}

/// The last `MAX_OUTPUT_LINES` of `lines`, or all of them if they are fewer.
pub open spec fn last_lines(lines: Seq<Seq<char>>) -> Seq<Seq<char>> {
    if lines.len() > MAX_OUTPUT_LINES {
        lines.subrange(lines.len() - MAX_OUTPUT_LINES, lines.len() as int)
    } else {
        lines
    }
}

/// The console after the process wrote `line`: the line is shown last, and
/// the oldest line goes if that makes one too many.
pub open spec fn console_heard(m: ConsoleModel, line: Seq<char>) -> ConsoleModel {
    ConsoleModel { output: last_lines(m.output.push(line)), ..m }
}

/// The console after `message`.
pub open spec fn console_step(m: ConsoleModel, message: Message) -> ConsoleModel {
    match message {
        Message::PythonOutput(line) => console_heard(m, line@),
        Message::InputChanged(value) => ConsoleModel { input_text: value@, ..m },
        Message::SendInput => if m.ready {
            ConsoleModel { input_text: Seq::empty(), ..m }
        } else {
            m
        },
        Message::StartPython => ConsoleModel { python_started: true, ..m },
        Message::PythonReady => ConsoleModel { ready: true, ..m },
    }
}

/// What goes to the process in answer to `message`: the input and a line
/// feed when the operator sends it off and the process takes input.
pub open spec fn console_sends(m: ConsoleModel, message: Message) -> Option<Seq<char>> {
    if message is SendInput && m.ready {
        Some(m.input_text.push('\n'))
    } else {
        None
    }
}

/// The console after the process wrote `lines`, one after another.
pub open spec fn after_output(m: ConsoleModel, lines: Seq<Seq<char>>) -> ConsoleModel
    decreases lines.len(),
{
    if lines.len() == 0 {
        m
    } else {
        console_heard(after_output(m, lines.drop_last()), lines.last())
    }
}

/// The console never shows more than `MAX_OUTPUT_LINES` lines, and what it
/// shows are the last lines that the process wrote, in order.
pub proof fn lemma_console_keeps_last_lines(lines: Seq<Seq<char>>)
    ensures
        after_output(console_initial(), lines).output == last_lines(lines),
        after_output(console_initial(), lines).output.len() <= MAX_OUTPUT_LINES,
    decreases lines.len(),
{
    if lines.len() > 0 {
        let before = lines.drop_last();
        lemma_console_keeps_last_lines(before);
        assert(before.push(lines.last()) =~= lines);
        assert(last_lines(last_lines(before).push(lines.last())) =~= last_lines(lines));
    }
}

/// What the console shows.
#[derive(Debug, Clone, PartialEq, Eq)]
pub struct ConsoleView {
    /// The output, its lines joined by line feeds.
    pub output_text: String,
    pub input_text: String,
    /// The process was started, so the start button is spent.
    pub running: bool,
}

/// The console.
#[derive(Debug)]
pub struct App {
    output: Vec<String>,
    input_text: String,
    ready: bool,
    python_started: bool,
}

impl Default for App {
    fn default() -> (app: Self)
        ensures
            app.wf(),
            app.model() == console_initial(),
    {
        let app = App {
            output: Vec::new(),
            input_text: String::new(),
            ready: false,
            python_started: false,
        };
        assert(texts(app.output@) =~= Seq::<Seq<char>>::empty());
        app
    }
}

impl App {
    /// The console as a mathematical value.
    pub closed spec fn model(&self) -> ConsoleModel {
        ConsoleModel {
            output: texts(self.output@),
            input_text: self.input_text@,
            ready: self.ready,
            python_started: self.python_started,
        }
    }

    /// The console holds no more lines than it keeps.
    pub closed spec fn wf(&self) -> bool {
        self.output@.len() <= MAX_OUTPUT_LINES
    }

    /// Takes one message in. Returns what has to be written to the process,
    /// if anything.
    pub fn update(&mut self, message: Message) -> (sent: Option<String>)
        requires
            old(self).wf(),
        ensures
            final(self).wf(),
            final(self).model() == console_step(old(self).model(), message),
            crate::opt_text(sent) == console_sends(old(self).model(), message),
    {
        match message {
            Message::PythonOutput(line) => {
                let ghost before = texts(self.output@);
                self.output.push(line);
                assert(texts(self.output@) =~= before.push(line@));
                if self.output.len() > MAX_OUTPUT_LINES {
                    let ghost full = self.output@;
                    self.output.remove(0);
                    assert(texts(self.output@) =~= texts(full).subrange(
                        1,
                        texts(full).len() as int,
                    ));
                }
                assert(texts(self.output@) =~= last_lines(before.push(line@)));
                None
            },
            Message::InputChanged(value) => {
                self.input_text = value;
                None
            },
            Message::SendInput => {
                if self.ready {
                    proof {
                        reveal_strlit("\n");
                    }
                    let mut input = String::new();
                    core::mem::swap(&mut input, &mut self.input_text);
                    input.append("\n");
                    assert(input@ =~= old(self).input_text@.push('\n'));
                    Some(input)
                } else {
                    None
                }
            },
            Message::StartPython => {
                self.python_started = true;
                None
            },
            Message::PythonReady => {
                self.ready = true;
                None
            },
        }
    }

    /// Whether the process was started, and so whether its output is to be
    /// listened to.
    pub fn subscription(&self) -> (listening: bool)
        ensures
            listening == self.model().python_started,
    {
        self.python_started
    }

    /// What the console shows.
    pub fn view(&self) -> (shown: ConsoleView)
        ensures
            shown.output_text@ == join_spec(self.model().output, "\n"@),
            shown.input_text@ == self.model().input_text,
            shown.running == self.model().python_started,
    {
        ConsoleView {
            output_text: join(&self.output, "\n"),
            input_text: self.input_text.clone(),
            running: self.python_started,
        }
    }
}

/// What the worker that runs the process comes upon.
#[derive(Debug, Clone, PartialEq, Eq)]
pub enum WorkerEvent {
    /// The process wrote a line to its output.
    OutputLine(String),
    /// The process wrote a line to its diagnostic stream.
    DiagnosticLine(String),
    /// The process could not be started, for this reason.
    LaunchFailed(String),
    /// The input could not be written to the process, for this reason.
    WriteFailed(String),
}

/// What the worker does about it.
#[derive(Debug, Clone, PartialEq, Eq)]
pub enum WorkerAction {
    /// Hand this line to the console as output of the process.
    Deliver(String),
    /// Write this line to the log; the console does not see it.
    Log(String),
    /// Show this failure in the console, once; there is no process to go
    /// on with.
    Report(String),
    /// Show this failure in the console, then stop writing.
    ReportThenStop(String),
}

/// An action as a mathematical value.
pub enum WorkerActionView {
    Deliver(Seq<char>),
    Log(Seq<char>),
    Report(Seq<char>),
    ReportThenStop(Seq<char>),
}

impl View for WorkerAction {
    type V = WorkerActionView;

    open spec fn view(&self) -> WorkerActionView {
        match self {
            WorkerAction::Deliver(line) => WorkerActionView::Deliver(line@),
            WorkerAction::Log(line) => WorkerActionView::Log(line@),
            WorkerAction::Report(line) => WorkerActionView::Report(line@),
            WorkerAction::ReportThenStop(line) => WorkerActionView::ReportThenStop(line@),
        }
    }
}

/// What the worker does about an event: a line of output is delivered as
/// it is; a diagnostic line goes to the log under a mark and never to the
/// console; a failed launch and a failed write are shown as values, and a
/// failed write ends the writing.
pub open spec fn worker_action_of(event: WorkerEvent) -> WorkerActionView {
    match event {
        WorkerEvent::OutputLine(line) => WorkerActionView::Deliver(line@),
        WorkerEvent::DiagnosticLine(line) => WorkerActionView::Log("[ERROR] "@ + line@),
        WorkerEvent::LaunchFailed(reason) => WorkerActionView::Report(
            "Failed to start Python: "@ + reason@,
        ),
        WorkerEvent::WriteFailed(reason) => WorkerActionView::ReportThenStop(
            "Error writing to stdin: "@ + reason@,
        ),
    }
}

/// Decides what the worker does about an event.
pub fn on_worker_event(event: WorkerEvent) -> (action: WorkerAction)
    ensures
        action@ == worker_action_of(event),
{
    match event {
        WorkerEvent::OutputLine(line) => WorkerAction::Deliver(line),
        WorkerEvent::DiagnosticLine(line) => WorkerAction::Log(
            String::from_str("[ERROR] ").concat(line.as_str()),
        ),
        WorkerEvent::LaunchFailed(reason) => WorkerAction::Report(
            String::from_str("Failed to start Python: ").concat(reason.as_str()),
        ),
        WorkerEvent::WriteFailed(reason) => WorkerAction::ReportThenStop(
            String::from_str("Error writing to stdin: ").concat(reason.as_str()),
        ),
    }
}

/// Nothing from the diagnostic stream reaches the console.
pub proof fn lemma_diagnostics_are_logged_only(line: String)
    ensures
        worker_action_of(WorkerEvent::DiagnosticLine(line)) is Log,
{
}

} // verus!
