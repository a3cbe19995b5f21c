use vstd::prelude::*;

verus! {

/// How grave a log message is.
#[derive(Debug, Clone, Copy, PartialEq, Eq, Structural)]
pub enum LogLevel {
    Info,
    Warn,
    Error,
}

/// The place of a step in a run.
#[derive(Debug, Clone, Copy, PartialEq, Eq, Structural)]
pub enum StepKind {
    /// The built-in step that opens every run.
    DefaultsMerge,
    /// A merge unit of the registry.
    Merge,
    /// A script unit of the registry.
    Script,
    /// The built-in step that closes every run.
    TunnelToggle,
}

/// One message that a step left behind.
#[derive(Debug, PartialEq, Eq)]
pub struct LogMessage {
    pub level: LogLevel,
    pub text: String,
}

/// How a step ended.
#[derive(Debug, PartialEq, Eq)]
pub enum Verdict {
    /// The step ran and its result became the document.
    Applied,
    /// The routine raised an error, with this message.
    Raised(String),
    /// The routine ran out of time.
    TimedOut,
    /// The routine returned something that is no valid document.
    InvalidOutput,
}

/// What one step of a run left behind: how it ended, and its messages.
#[derive(Debug, PartialEq, Eq)]
pub struct ChainLog {
    pub name: String,
    pub kind: StepKind,
    pub verdict: Verdict,
    pub messages: Vec<LogMessage>,
}

pub struct MessageModel {
    pub level: LogLevel,
    pub text: Seq<char>,
}

pub enum VerdictModel {
    Applied,
    Raised(Seq<char>),
    TimedOut,
    InvalidOutput,
}

pub struct LogModel {
    pub name: Seq<char>,
    pub kind: StepKind,
    pub verdict: VerdictModel,
    pub messages: Seq<MessageModel>,
}

impl View for LogMessage {
    type V = MessageModel;

    open spec fn view(&self) -> MessageModel {
        MessageModel { level: self.level, text: self.text@ }
    }
}

impl View for Verdict {
    type V = VerdictModel;

    open spec fn view(&self) -> VerdictModel {
        match self {
            Verdict::Applied => VerdictModel::Applied,
            Verdict::Raised(message) => VerdictModel::Raised(message@),
            Verdict::TimedOut => VerdictModel::TimedOut,
            Verdict::InvalidOutput => VerdictModel::InvalidOutput,
        }
    }
}

/// The messages of a list, each as what it stands for.
pub open spec fn messages_view(messages: Seq<LogMessage>) -> Seq<MessageModel> {
    messages.map_values(|m: LogMessage| m@)
}

/// The logs of a list, each as what it stands for.
pub open spec fn logs_view(logs: Seq<ChainLog>) -> Seq<LogModel> {
    logs.map_values(|log: ChainLog| log@)
}

/// The texts of a list of strings.
pub open spec fn names_view(names: Seq<String>) -> Seq<Seq<char>> {
    names.map_values(|name: String| name@)
}

impl View for ChainLog {
    type V = LogModel;

    open spec fn view(&self) -> LogModel {
        LogModel {
            name: self.name@,
            kind: self.kind,
            verdict: self.verdict@,
            messages: messages_view(self.messages@),
        }
    }
}

impl Verdict {
    /// Whether the step succeeded.
    pub fn is_success(&self) -> (b: bool)
        ensures
            b == (self@ is Applied),
    {
        match self {
            Verdict::Applied => true,
            _ => false,
        }
    }
}

} // verus!
