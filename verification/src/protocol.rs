//! The vocabulary shared by every operation: what an operation asks its
//! driver to do (a [`Request`]), what the driver reports back (a [`Reply`]),
//! and the log lines that go with it (a [`Notice`]).
//!
//! An operation never touches the outside world itself. It is a transition
//! function: given where it stands and the reply to its last request, it
//! returns where it stands next and a [`Step`], the lines to log and the next
//! thing to do. The driver performs the request and calls again.

use vstd::prelude::*;

verus! {

/// Severity of a log line.
#[derive(Clone, Copy, Debug, PartialEq, Eq, Structural)]
pub enum Level {
    Info,
    Error,
}

/// One line for the log.
#[derive(Clone, Debug, PartialEq, Eq)]
pub struct Notice {
    pub level: Level,
    pub text: String,
}

/// Mathematical form of a [`Notice`].
pub struct NoticeView {
    pub level: Level,
    pub text: Seq<char>,
}

impl View for Notice {
    type V = NoticeView;

    open spec fn view(&self) -> NoticeView {
        NoticeView { level: self.level, text: self.text@ }
    }
}

impl DeepView for Notice {
    type V = NoticeView;

    open spec fn deep_view(&self) -> NoticeView {
        self@
    }
}

impl NoticeView {
    pub open spec fn info(text: Seq<char>) -> NoticeView {
        NoticeView { level: Level::Info, text }
    }

    pub open spec fn error(text: Seq<char>) -> NoticeView {
        NoticeView { level: Level::Error, text }
    }
}

impl Notice {
    /// A line at info severity.
    pub fn info(text: String) -> (notice: Notice)
        ensures
            notice@ == NoticeView::info(text@),
    {
        Notice { level: Level::Info, text }
    }

    /// A line at error severity.
    pub fn error(text: String) -> (notice: Notice)
        ensures
            notice@ == NoticeView::error(text@),
    {
        Notice { level: Level::Error, text }
    }
}

/// A subprocess to start: the program and its arguments, in order.
#[derive(Clone, Debug, PartialEq, Eq)]
pub struct Command {
    pub program: String,
    pub args: Vec<String>,
}

/// Mathematical form of a [`Command`].
pub struct CommandView {
    pub program: Seq<char>,
    pub args: Seq<Seq<char>>,
}

impl View for Command {
    type V = CommandView;

    open spec fn view(&self) -> CommandView {
        CommandView { program: self.program@, args: self.args.deep_view() }
    }
}

impl DeepView for Command {
    type V = CommandView;

    open spec fn deep_view(&self) -> CommandView {
        self@
    }
}

impl CommandView {
    /// The program alone, without arguments.
    pub open spec fn new(program: Seq<char>) -> CommandView {
        CommandView { program, args: Seq::empty() }
    }

    /// The same command with one more argument at the end.
    pub open spec fn arg(self, value: Seq<char>) -> CommandView {
        CommandView { program: self.program, args: self.args.push(value) }
    }

    /// `sh -c script`: the script handed to the shell as one argument.
    pub open spec fn shell(script: Seq<char>) -> CommandView {
        CommandView::new("sh"@).arg("-c"@).arg(script)
    }
}

impl Command {
    /// The program alone, without arguments.
    pub fn new(program: &str) -> (command: Command)
        ensures
            command@ == CommandView::new(program@),
    {
        let command = Command { program: program.to_owned(), args: Vec::new() };
        assert(command.args.deep_view() =~= Seq::<Seq<char>>::empty());
        command
    }

    /// The same command with one more argument at the end.
    pub fn arg(self, value: String) -> (command: Command)
        ensures
            command@ == self@.arg(value@),
    {
        let mut args = self.args;
        let ghost before = args.deep_view();
        args.push(value);
        assert(args.deep_view() =~= before.push(value@));
        Command { program: self.program, args }
    }

    /// `sh -c script`: the script handed to the shell as one argument.
    pub fn shell(script: String) -> (command: Command)
        ensures
            command@ == CommandView::shell(script@),
    {
        Command::new("sh").arg("-c".to_owned()).arg(script)
    }
}

/// How an attempt to run a subprocess ended.
#[derive(Clone, Copy, Debug, PartialEq, Eq, Structural)]
pub enum Outcome {
    /// It ran and exited with status zero.
    Success,
    /// It ran and exited with another status, or was killed.
    Failure,
    /// It could not be started at all.
    SpawnFailed,
}

/// What an operation asks its driver to do next.
#[derive(Clone, Debug, PartialEq, Eq)]
pub enum Request {
    /// Run the command and wait for it. With `capture` its output is
    /// collected and its standard error handed back; without, it shares the
    /// terminal. Answered by [`Reply::Ran`].
    Run { command: Command, capture: bool },
    /// Print the prompt and read one line. Answered by [`Reply::Line`].
    Ask { prompt: String },
    /// Find out whether a file exists. Answered by [`Reply::Exists`].
    Probe { path: String },
    /// Append the text to the file, creating it if need be. Answered by
    /// [`Reply::Written`].
    Append { path: String, text: String },
    /// Nothing: the operation is over.
    Done,
}

/// Mathematical form of a [`Request`].
pub enum RequestView {
    Run { command: CommandView, capture: bool },
    Ask { prompt: Seq<char> },
    Probe { path: Seq<char> },
    Append { path: Seq<char>, text: Seq<char> },
    Done,
}

impl View for Request {
    type V = RequestView;

    open spec fn view(&self) -> RequestView {
        match self {
            Request::Run { command, capture } => RequestView::Run {
                command: command@,
                capture: *capture,
            },
            Request::Ask { prompt } => RequestView::Ask { prompt: prompt@ },
            Request::Probe { path } => RequestView::Probe { path: path@ },
            Request::Append { path, text } => RequestView::Append { path: path@, text: text@ },
            Request::Done => RequestView::Done,
        }
    }
}

impl RequestView {
    /// Run a command that shares the terminal.
    pub open spec fn attached(command: CommandView) -> RequestView {
        RequestView::Run { command, capture: false }
    }

    /// Run a command whose output is collected.
    pub open spec fn captured(command: CommandView) -> RequestView {
        RequestView::Run { command, capture: true }
    }
}

impl Request {
    /// Run a command that shares the terminal.
    pub fn attached(command: Command) -> (request: Request)
        ensures
            request@ == RequestView::attached(command@),
    {
        Request::Run { command, capture: false }
    }

    /// Run a command whose output is collected.
    pub fn captured(command: Command) -> (request: Request)
        ensures
            request@ == RequestView::captured(command@),
    {
        Request::Run { command, capture: true }
    }
}

/// What the driver reports about the request it was last given.
#[derive(Clone, Debug, PartialEq, Eq)]
pub enum Reply {
    /// The command ended this way. `stderr` holds what it wrote to standard
    /// error if that was captured, and is empty otherwise.
    Ran { outcome: Outcome, stderr: String },
    /// The line that was read, as typed.
    Line(String),
    /// Whether the file exists.
    Exists(bool),
    /// The text has been appended.
    Written,
}

/// Mathematical form of a [`Reply`].
pub enum ReplyView {
    Ran { outcome: Outcome, stderr: Seq<char> },
    Line(Seq<char>),
    Exists(bool),
    Written,
}

impl View for Reply {
    type V = ReplyView;

    open spec fn view(&self) -> ReplyView {
        match self {
            Reply::Ran { outcome, stderr } => ReplyView::Ran {
                outcome: *outcome,
                stderr: stderr@,
            },
            Reply::Line(line) => ReplyView::Line(line@),
            Reply::Exists(found) => ReplyView::Exists(*found),
            Reply::Written => ReplyView::Written,
        }
    }
}

/// One turn of an operation: the lines to log, in order, and then the request
/// to perform.
#[derive(Clone, Debug, PartialEq, Eq)]
pub struct Step {
    pub notices: Vec<Notice>,
    pub request: Request,
}

/// Mathematical form of a [`Step`].
pub struct StepView {
    pub notices: Seq<NoticeView>,
    pub request: RequestView,
}

impl View for Step {
    type V = StepView;

    open spec fn view(&self) -> StepView {
        StepView { notices: self.notices.deep_view(), request: self.request@ }
    }
}

impl StepView {
    /// A turn that logs nothing.
    pub open spec fn quiet(request: RequestView) -> StepView {
        StepView { notices: Seq::empty(), request }
    }

    /// The same turn with one more line logged before the request.
    pub open spec fn say(self, notice: NoticeView) -> StepView {
        StepView { notices: self.notices.push(notice), request: self.request }
    }

    /// The same turn with one more line logged before all others.
    pub open spec fn after(self, notice: NoticeView) -> StepView {
        StepView { notices: seq![notice] + self.notices, request: self.request }
    }

    /// The turn of an operation that is over: nothing logged, nothing asked.
    pub open spec fn finished() -> StepView {
        StepView::quiet(RequestView::Done)
    }

    /// The turn taken when the driver's reply does not answer the request
    /// that was pending: the mistake is logged and nothing more is asked.
    pub open spec fn misfit() -> StepView {
        StepView::finished().say(
            NoticeView::error("Stopped: the reply does not answer the request."@),
        )
    }
}

impl Step {
    /// A turn that logs nothing.
    pub fn quiet(request: Request) -> (step: Step)
        ensures
            step@ == StepView::quiet(request@),
    {
        let step = Step { notices: Vec::new(), request };
        assert(step.notices.deep_view() =~= Seq::<NoticeView>::empty());
        step
    }

    /// The same turn with one more line logged before the request.
    pub fn say(self, notice: Notice) -> (step: Step)
        ensures
            step@ == self@.say(notice@),
    {
        let mut notices = self.notices;
        let ghost before = notices.deep_view();
        notices.push(notice);
        assert(notices.deep_view() =~= before.push(notice@));
        Step { notices, request: self.request }
    }

    /// The same turn with one more line logged before all others.
    pub fn after(self, notice: Notice) -> (step: Step)
        ensures
            step@ == self@.after(notice@),
    {
        let mut notices = self.notices;
        let ghost later = notices.deep_view();
        notices.insert(0, notice);
        assert(notices.deep_view() =~= seq![notice@] + later);
        Step { notices, request: self.request }
    }

    /// The turn of an operation that is over: nothing logged, nothing asked.
    pub fn finished() -> (step: Step)
        ensures
            step@ == StepView::finished(),
    {
        Step::quiet(Request::Done)
    }

    /// The turn taken when the driver's reply does not answer the request
    /// that was pending: the mistake is logged and nothing more is asked.
    pub fn misfit() -> (step: Step)
        ensures
            step@ == StepView::misfit(),
    {
        Step::finished().say(
            Notice::error("Stopped: the reply does not answer the request.".to_owned()),
        )
    }
}

/// What a driver performs in the course of a session.
///
/// The session starts with the turn `turn`, the state of the operation and
/// its first step, and `next` gives the turn that follows a reply. The driver
/// performs the request of each turn and answers it with the next of
/// `replies`; it stops at the first turn that asks for nothing, or when the
/// replies run out. The result lists the requests it performed, in order.
pub open spec fn performed<S>(
    next: spec_fn(S, ReplyView) -> (S, StepView),
    turn: (S, StepView),
    replies: Seq<ReplyView>,
) -> Seq<RequestView>
    decreases replies.len(),
{
    if turn.1.request is Done {
        Seq::empty()
    } else if replies.len() == 0 {
        seq![turn.1.request]
    } else {
        seq![turn.1.request] + performed(next, next(turn.0, replies[0]), replies.drop_first())
    }
}

} // verus!
