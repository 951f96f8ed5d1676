//! What a command asks its caller to do, and what the caller answers.
//!
//! The library decides; it never touches the file system, a terminal or
//! another process. Each command is a function from its stage and the reply
//! to the last request to the next stage, the lines to print and the next
//! request.

use vstd::prelude::*;

verus! {

/// How a line is marked when it is printed.
#[derive(Clone, Copy, Debug, PartialEq, Eq, Structural)]
pub enum Tone {
    /// No marker.
    Plain,
    /// The arrow marker in the colour of progress.
    Info,
    /// The arrow marker in the colour of warnings.
    Caution,
}

/// Where a line is printed.
#[derive(Clone, Copy, Debug, PartialEq, Eq, Structural)]
pub enum Stream {
    Stdout,
    Stderr,
}

/// One line of output.
#[derive(Clone, Debug, PartialEq, Eq)]
pub struct Line {
    pub stream: Stream,
    pub tone: Tone,
    pub text: String,
}

/// A line as a value of specifications.
pub struct LineView {
    pub stream: Stream,
    pub tone: Tone,
    pub text: Seq<char>,
}

impl DeepView for Line {
    type V = LineView;

    open spec fn deep_view(&self) -> LineView {
        LineView { stream: self.stream, tone: self.tone, text: self.text@ }
    }
}

/// An unmarked line on the output stream.
pub open spec fn plain(text: Seq<char>) -> LineView {
    LineView { stream: Stream::Stdout, tone: Tone::Plain, text }
}

/// A progress line on the output stream.
pub open spec fn info(text: Seq<char>) -> LineView {
    LineView { stream: Stream::Stdout, tone: Tone::Info, text }
}

/// A warning-coloured line on the output stream.
pub open spec fn notice(text: Seq<char>) -> LineView {
    LineView { stream: Stream::Stdout, tone: Tone::Caution, text }
}

/// A warning on the error stream.
pub open spec fn warning(text: Seq<char>) -> LineView {
    LineView { stream: Stream::Stderr, tone: Tone::Caution, text }
}

impl Line {
    /// An unmarked line on the output stream.
    pub fn plain(text: String) -> (r: Line)
        ensures
            r.deep_view() == plain(text@),
    {
        Line { stream: Stream::Stdout, tone: Tone::Plain, text }
    }

    /// A progress line on the output stream.
    pub fn info(text: String) -> (r: Line)
        ensures
            r.deep_view() == info(text@),
    {
        Line { stream: Stream::Stdout, tone: Tone::Info, text }
    }

    /// A warning-coloured line on the output stream.
    pub fn notice(text: String) -> (r: Line)
        ensures
            r.deep_view() == notice(text@),
    {
        Line { stream: Stream::Stdout, tone: Tone::Caution, text }
    }

    /// A warning on the error stream.
    pub fn warning(text: String) -> (r: Line)
        ensures
            r.deep_view() == warning(text@),
    {
        Line { stream: Stream::Stderr, tone: Tone::Caution, text }
    }
}

/// A program to run with its arguments. What it writes is captured, not
/// shown.
#[derive(Clone, Debug, PartialEq, Eq)]
pub struct Command {
    pub program: String,
    pub args: Vec<String>,
    /// The directory to run it in, as path components; none for the
    /// caller's own.
    pub dir: Vec<String>,
}

/// A command as a value of specifications.
pub struct CommandView {
    pub program: Seq<char>,
    pub args: Seq<Seq<char>>,
    pub dir: Seq<Seq<char>>,
}

impl DeepView for Command {
    type V = CommandView;

    open spec fn deep_view(&self) -> CommandView {
        CommandView {
            program: self.program@,
            args: self.args.deep_view(),
            dir: self.dir.deep_view(),
        }
    }
}

/// One request to the caller. A path is a list of components to join in
/// order.
#[derive(Clone, Debug, PartialEq, Eq)]
pub enum Action {
    /// Answer `Yes` if the path exists, else `No`.
    PathExists { path: Vec<String> },
    /// Create the directory and its parents; answer `Yes` when done.
    CreateDirAll { path: Vec<String> },
    /// Write the file; answer `Yes` when done.
    Write { path: Vec<String>, content: String },
    /// Run the command and wait for it; answer `Yes` if it exits with
    /// success, `No` with what it wrote to its error stream if it does not.
    Run { command: Command },
}

/// A request as a value of specifications.
pub enum ActionView {
    PathExists { path: Seq<Seq<char>> },
    CreateDirAll { path: Seq<Seq<char>> },
    Write { path: Seq<Seq<char>>, content: Seq<char> },
    Run { command: CommandView },
}

impl DeepView for Action {
    type V = ActionView;

    open spec fn deep_view(&self) -> ActionView {
        match self {
            Action::PathExists { path } => ActionView::PathExists { path: path.deep_view() },
            Action::CreateDirAll { path } => ActionView::CreateDirAll { path: path.deep_view() },
            Action::Write { path, content } => ActionView::Write {
                path: path.deep_view(),
                content: content@,
            },
            Action::Run { command } => ActionView::Run { command: command.deep_view() },
        }
    }
}

/// The caller's answer to a request.
#[derive(Clone, Debug, PartialEq, Eq)]
pub enum Reply {
    /// It was carried out and the answer is yes. The text is what came back,
    /// if anything.
    Yes(String),
    /// It was carried out and the answer is no. For a command the text is
    /// what it wrote to its error stream.
    No(String),
    /// It could not be carried out. The text is the system's message.
    Failed(String),
}

impl Reply {
    /// The text that came with the reply.
    pub open spec fn text(&self) -> Seq<char> {
        match self {
            Reply::Yes(text) => text@,
            Reply::No(text) => text@,
            Reply::Failed(text) => text@,
        }
    }

    /// The text that came with the reply.
    pub fn message(&self) -> (r: &str)
        ensures
            r@ == self.text(),
    {
        match self {
            Reply::Yes(text) => text.as_str(),
            Reply::No(text) => text.as_str(),
            Reply::Failed(text) => text.as_str(),
        }
    }
}

/// The kinds of failure a command ends with.
#[derive(Clone, Copy, Debug, PartialEq, Eq, Structural)]
pub enum Kind {
    /// The file system refused a read, a write or a directory.
    Io,
    /// A configuration document is malformed.
    Parse,
    /// Another program could not be started or exited with an error.
    ExternalTool,
    /// The command was called where it must not run.
    Precondition,
}

/// Why a command failed.
#[derive(Clone, Debug, PartialEq, Eq)]
pub struct Failure {
    pub kind: Kind,
    /// What to tell the user.
    pub message: String,
    /// The system's own message, where there is one.
    pub cause: String,
}

/// A failure as a value of specifications.
pub struct FailureView {
    pub kind: Kind,
    pub message: Seq<char>,
    pub cause: Seq<char>,
}

impl DeepView for Failure {
    type V = FailureView;

    open spec fn deep_view(&self) -> FailureView {
        FailureView { kind: self.kind, message: self.message@, cause: self.cause@ }
    }
}

/// What comes after the lines of a step.
#[derive(Clone, Debug, PartialEq, Eq)]
pub enum Next {
    /// Carry this out and come back with the reply.
    Perform(Action),
    /// The command has succeeded.
    Done,
    /// The command has failed.
    Fail(Failure),
}

/// What comes after the lines of a step, as a value of specifications.
pub enum NextView {
    Perform(ActionView),
    Done,
    Fail(FailureView),
}

impl DeepView for Next {
    type V = NextView;

    open spec fn deep_view(&self) -> NextView {
        match self {
            Next::Perform(action) => NextView::Perform(action.deep_view()),
            Next::Done => NextView::Done,
            Next::Fail(failure) => NextView::Fail(failure.deep_view()),
        }
    }
}

/// One step of a command: print the lines, then do what comes next.
#[derive(Clone, Debug, PartialEq, Eq)]
pub struct Step {
    pub lines: Vec<Line>,
    pub next: Next,
}

/// A step as a value of specifications.
pub struct StepView {
    pub lines: Seq<LineView>,
    pub next: NextView,
}

impl DeepView for Step {
    type V = StepView;

    open spec fn deep_view(&self) -> StepView {
        StepView { lines: self.lines.deep_view(), next: self.next.deep_view() }
    }
}

/// The step that prints `lines` and then asks for `action`.
pub open spec fn performing(lines: Seq<LineView>, action: ActionView) -> StepView {
    StepView { lines, next: NextView::Perform(action) }
}

/// The step that prints `lines` and then asks to run `command`.
pub open spec fn running(lines: Seq<LineView>, command: CommandView) -> StepView {
    StepView { lines, next: NextView::Perform(ActionView::Run { command }) }
}

/// The step that prints `lines` and ends the command with success.
pub open spec fn done(lines: Seq<LineView>) -> StepView {
    StepView { lines, next: NextView::Done }
}

/// The step that prints `lines` and ends the command with a failure.
pub open spec fn failing(lines: Seq<LineView>, kind: Kind, message: Seq<char>, cause: Seq<char>) -> StepView {
    StepView { lines, next: NextView::Fail(FailureView { kind, message, cause }) }
}

impl Step {
    /// The step that prints `lines` and then asks for `action`.
    pub fn perform(lines: Vec<Line>, action: Action) -> (r: Step)
        ensures
            r.deep_view() == performing(lines.deep_view(), action.deep_view()),
    {
        Step { lines, next: Next::Perform(action) }
    }

    /// The step that prints `lines` and then asks to run `command`.
    pub fn run(lines: Vec<Line>, command: Command) -> (r: Step)
        ensures
            r.deep_view() == running(lines.deep_view(), command.deep_view()),
    {
        Step { lines, next: Next::Perform(Action::Run { command }) }
    }

    /// The step that prints `lines` and ends the command with success.
    pub fn done(lines: Vec<Line>) -> (r: Step)
        ensures
            r.deep_view() == done(lines.deep_view()),
    {
        Step { lines, next: Next::Done }
    }

    /// The step that prints `lines` and ends the command with a failure.
    pub fn fail(lines: Vec<Line>, kind: Kind, message: String, cause: String) -> (r: Step)
        ensures
            r.deep_view() == failing(lines.deep_view(), kind, message@, cause@),
    {
        Step { lines, next: Next::Fail(Failure { kind, message, cause }) }
    }
}

impl Step {
    /// The same step with `before` printed ahead of its own lines.
    pub fn after(self, before: Vec<Line>) -> (r: Step)
        ensures
            r.deep_view() == (StepView {
                lines: before.deep_view() + self.deep_view().lines,
                next: self.deep_view().next,
            }),
    {
        let Step { lines, next } = self;
        let mut all = before;
        let mut rest = lines;
        let ghost head = all.deep_view();
        let ghost tail = rest.deep_view();
        all.append(&mut rest);
        assert(all.deep_view() =~= head + tail);
        Step { lines: all, next }
    }
}

/// No lines.
pub fn no_lines() -> (r: Vec<Line>)
    ensures
        r.deep_view() == Seq::<LineView>::empty(),
{
    let out: Vec<Line> = Vec::new();
    assert(out.deep_view() =~= Seq::<LineView>::empty());
    out
}

/// Adds a line at the end.
pub fn add_line(lines: &mut Vec<Line>, line: Line)
    ensures
        final(lines).deep_view() == old(lines).deep_view().push(line.deep_view()),
{
    lines.push(line);
    assert(lines.deep_view() =~= old(lines).deep_view().push(line.deep_view()));
}

} // verus!
