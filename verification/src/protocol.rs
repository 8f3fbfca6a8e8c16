//! What passes between the library and its driver during a run: the facts
//! about the host, the requests the library issues, the replies the driver
//! gives, and the place a run has reached.

use vstd::prelude::*;
use crate::OperatingSystem;
use crate::config::{PairFindings, PairFindingsView, Execution, ExecutionView};
use crate::error::{DotmanError, DotmanErrorView};
use crate::report::{Record, RecordView, opt_record};
use crate::text::texts;

verus! {

/// Facts about the host, gathered once before a run: its system, its name if
/// it has one, the user's home directory if there is one, and the working
/// directory or the reason it could not be had.
#[derive(Debug, PartialEq, Eq)]
pub struct Host {
    pub os: OperatingSystem,
    pub hostname: Option<String>,
    pub home: Option<String>,
    pub cwd: Result<String, String>,
}

/// The mathematical value of a [`Host`]: its texts as sequences of characters.
pub struct HostView {
    pub os: OperatingSystem,
    pub hostname: Option<Seq<char>>,
    pub home: Option<Seq<char>>,
    pub cwd: Result<Seq<char>, Seq<char>>,
}

impl View for Host {
    type V = HostView;

    open spec fn view(&self) -> HostView {
        HostView {
            os: self.os,
            hostname: match self.hostname {
                Some(name) => Some(name@),
                None => None,
            },
            home: match self.home {
                Some(dir) => Some(dir@),
                None => None,
            },
            cwd: crate::utils::cwd_text(self.cwd),
        }
    }
}

/// What the driver found at one path. `exists` and `is_dir` follow symbolic
/// links; `is_symlink` does not. `link` is where a symbolic link points, or
/// nothing if that could not be read.
#[derive(Debug, Clone, PartialEq, Eq)]
pub struct PathFindings {
    pub exists: bool,
    pub is_dir: bool,
    pub is_symlink: bool,
    pub link: Option<String>,
}

/// The mathematical value of a [`PathFindings`]: its texts as sequences of characters.
pub struct PathFindingsView {
    pub exists: bool,
    pub is_dir: bool,
    pub is_symlink: bool,
    pub link: Option<Seq<char>>,
}

impl View for PathFindings {
    type V = PathFindingsView;

    open spec fn view(&self) -> PathFindingsView {
        PathFindingsView {
            exists: self.exists,
            is_dir: self.is_dir,
            is_symlink: self.is_symlink,
            link: match self.link {
                Some(to) => Some(to@),
                None => None,
            },
        }
    }
}

/// What the driver found for one link: for its conditions, at its resolved
/// source and at its resolved target. The conditions are looked at first.
#[derive(Debug, Clone, PartialEq, Eq)]
pub struct LinkFindings {
    pub conditions: PairFindings,
    pub source: PathFindings,
    pub target: PathFindings,
}

/// The mathematical value of a [`LinkFindings`]: its texts as sequences of characters.
pub struct LinkFindingsView {
    pub conditions: PairFindingsView,
    pub source: PathFindingsView,
    pub target: PathFindingsView,
}

impl View for LinkFindings {
    type V = LinkFindingsView;

    open spec fn view(&self) -> LinkFindingsView {
        LinkFindingsView {
            conditions: self.conditions@,
            source: self.source@,
            target: self.target@,
        }
    }
}

/// The primitive a symbolic link is made with.
#[derive(Debug, Clone, Copy, PartialEq, Eq, Structural)]
pub enum SymlinkKind {
    /// The one primitive of a POSIX host.
    Posix,
    /// The primitive of Windows for a link to a directory.
    WindowsDir,
    /// The primitive of Windows for a link to a file.
    WindowsFile,
}

/// What the library asks of the driver. Every path is a resolved path.
#[derive(Debug, Clone, PartialEq, Eq)]
pub enum Request {
    /// Gather the findings for the link at `index`: answer with `Reply::Link`.
    InspectLink { index: usize, source: String, target: String },
    /// Look at the target of the link at `index`: answer with `Reply::Target`.
    InspectTarget { index: usize, target: String },
    /// Gather the findings for the conditions of the action at `index`:
    /// answer with `Reply::Action`.
    InspectAction { index: usize },
    /// Remove the directory at `target` with all it holds.
    RemoveDir { target: String },
    /// Remove the file or symbolic link at `target`.
    RemoveFile { target: String },
    /// Ask the user whether to link `target` to `source`: answer with the
    /// line typed, as `Reply::Answer`.
    Confirm { source: String, target: String },
    /// Make a symbolic link at `target` that points to `source`.
    Symlink { source: String, target: String, kind: SymlinkKind },
    /// Run a command: answer with `Reply::Ran`.
    Run { argv: Vec<String> },
    /// The run is over and succeeded.
    Finished,
    /// The run is over and failed.
    Failed(DotmanError),
}

/// The mathematical value of a [`Request`]: its texts as sequences of characters.
pub enum RequestView {
    InspectLink { index: usize, source: Seq<char>, target: Seq<char> },
    InspectTarget { index: usize, target: Seq<char> },
    InspectAction { index: usize },
    RemoveDir { target: Seq<char> },
    RemoveFile { target: Seq<char> },
    Confirm { source: Seq<char>, target: Seq<char> },
    Symlink { source: Seq<char>, target: Seq<char>, kind: SymlinkKind },
    Run { argv: Seq<Seq<char>> },
    Finished,
    Failed(DotmanErrorView),
}

impl View for Request {
    type V = RequestView;

    open spec fn view(&self) -> RequestView {
        match *self {
            Request::InspectLink { index, source, target } => RequestView::InspectLink {
                index,
                source: source@,
                target: target@,
            },
            Request::InspectTarget { index, target } => RequestView::InspectTarget {
                index,
                target: target@,
            },
            Request::InspectAction { index } => RequestView::InspectAction { index },
            Request::RemoveDir { target } => RequestView::RemoveDir { target: target@ },
            Request::RemoveFile { target } => RequestView::RemoveFile { target: target@ },
            Request::Confirm { source, target } => RequestView::Confirm {
                source: source@,
                target: target@,
            },
            Request::Symlink { source, target, kind } => RequestView::Symlink {
                source: source@,
                target: target@,
                kind,
            },
            Request::Run { argv } => RequestView::Run { argv: texts(argv@) },
            Request::Finished => RequestView::Finished,
            Request::Failed(error) => RequestView::Failed(error@),
        }
    }
}

impl RequestView {
    /// Whether the request changes the filesystem.
    pub open spec fn mutates(self) -> bool {
        self is RemoveDir || self is RemoveFile || self is Symlink
    }

    /// Whether the request ends the run.
    pub open spec fn ends(self) -> bool {
        self is Finished || self is Failed
    }
}

/// What the driver tells the library: how the last request went.
#[derive(Debug, Clone, PartialEq, Eq)]
pub enum Reply {
    /// Nothing was requested yet: the run begins.
    Start,
    /// The findings for a link.
    Link(LinkFindings),
    /// The findings at a target.
    Target(PathFindings),
    /// The findings for the conditions of an action.
    Action(PairFindings),
    /// The removal or the link requested was carried out.
    Performed,
    /// What was requested could not be done; the text is the cause.
    Refused(String),
    /// The line the user typed.
    Answer(String),
    /// What became of the command.
    Ran(Execution),
}

/// The mathematical value of a [`Reply`]: its texts as sequences of characters.
pub enum ReplyView {
    Start,
    Link(LinkFindingsView),
    Target(PathFindingsView),
    Action(PairFindingsView),
    Performed,
    Refused(Seq<char>),
    Answer(Seq<char>),
    Ran(ExecutionView),
}

impl View for Reply {
    type V = ReplyView;

    open spec fn view(&self) -> ReplyView {
        match *self {
            Reply::Start => ReplyView::Start,
            Reply::Link(findings) => ReplyView::Link(findings@),
            Reply::Target(findings) => ReplyView::Target(findings@),
            Reply::Action(findings) => ReplyView::Action(findings@),
            Reply::Performed => ReplyView::Performed,
            Reply::Refused(cause) => ReplyView::Refused(cause@),
            Reply::Answer(line) => ReplyView::Answer(line@),
            Reply::Ran(execution) => ReplyView::Ran(execution@),
        }
    }
}

/// What a run waits for.
#[derive(Debug, Clone, Copy, PartialEq, Eq, Structural)]
pub enum Phase {
    /// Nothing was requested yet.
    Start,
    /// The findings for a link.
    Link,
    /// The findings at a link's target.
    Target,
    /// The removal of a directory at a link's target.
    ClearDir,
    /// The removal of a file at a link's target.
    ClearFile,
    /// The user's answer.
    Confirm,
    /// The making of a link.
    Create,
    /// The findings for an action.
    Action,
    /// The outcome of an action's command.
    Run,
    /// Nothing: the run is over.
    Done,
}

/// The place a run has reached: what it waits for, and for which link or
/// action. `source_is_dir` keeps, while a link is being made, whether its
/// source was found to be a directory.
#[derive(Debug, Clone, Copy, PartialEq, Eq, Structural)]
pub struct Progress {
    pub phase: Phase,
    pub index: usize,
    pub source_is_dir: bool,
}

impl Progress {
    /// The place every run starts from.
    pub open spec fn initial() -> Progress {
        Progress { phase: Phase::Start, index: 0, source_is_dir: false }
    }

    /// The place every run ends at.
    pub open spec fn end() -> Progress {
        Progress { phase: Phase::Done, index: 0, source_is_dir: false }
    }

    /// The place every run starts from. Hand it to the first step together
    /// with `Reply::Start`.
    pub fn start() -> (progress: Progress)
        ensures
            progress == Progress::initial(),
    {
        Progress { phase: Phase::Start, index: 0, source_is_dir: false }
    }

    /// Whether the run is over.
    pub fn is_done(&self) -> (done: bool)
        ensures
            done == (self.phase == Phase::Done),
    {
        self.phase == Phase::Done
    }
}

/// One step of a run: the place reached, what to report, and what to do next.
#[derive(Debug, Clone, PartialEq, Eq)]
pub struct Step {
    pub progress: Progress,
    pub record: Option<Record>,
    pub request: Request,
}

/// The mathematical value of a [`Step`]: its texts as sequences of characters.
pub struct StepView {
    pub progress: Progress,
    pub record: Option<RecordView>,
    pub request: RequestView,
}

impl View for Step {
    type V = StepView;

    open spec fn view(&self) -> StepView {
        StepView {
            progress: self.progress,
            record: opt_record(self.record),
            request: self.request@,
        }
    }
}

impl Step {
    /// The result of a run that is over: success, or the error it failed
    /// with. Nothing while the run goes on.
    pub fn outcome(self) -> (outcome: Option<Result<(), DotmanError>>)
        ensures
            match self@.request {
                RequestView::Finished => outcome == Some(Ok::<(), DotmanError>(())),
                RequestView::Failed(e) => outcome matches Some(Err(x)) && x@ == e,
                _ => outcome is None,
            },
    {
        match self.request {
            Request::Finished => Some(Ok(())),
            Request::Failed(error) => Some(Err(error)),
            _ => None,
        }
    }
}

} // verus!
