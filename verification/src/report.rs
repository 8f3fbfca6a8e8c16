//! What a run reports: one record per event, each with the disposition it is
//! printed under and its text, and the classification a status run gives to
//! each link and action.

use vstd::prelude::*;
use vstd::string::StringExecFns;
use crate::text::owned;

verus! {

/// The state of a link, as a status run classifies it.
#[derive(Debug, Clone, Copy, PartialEq, Eq, Structural)]
pub enum LinkStatus {
    ConditionNotMet,
    SourceMissing,
    NotLinked,
    Linked,
    WrongTarget,
    SymlinkError,
    ExistsButNotSymlink,
}

impl LinkStatus {
    /// The name the classification is shown under.
    pub open spec fn label_text(self) -> Seq<char> {
        match self {
            LinkStatus::ConditionNotMet => "CONDITION NOT MET"@,
            LinkStatus::SourceMissing => "SOURCE MISSING"@,
            LinkStatus::NotLinked => "NOT LINKED"@,
            LinkStatus::Linked => "OK"@,
            LinkStatus::WrongTarget => "WRONG TARGET"@,
            LinkStatus::SymlinkError => "SYMLINK ERROR"@,
            LinkStatus::ExistsButNotSymlink => "EXISTS BUT NOT SYMLINK"@,
        }
    }

    /// The name the classification is shown under.
    pub fn label(&self) -> (label: &'static str)
        ensures
            label@ == self.label_text(),
    {
        match self {
            LinkStatus::ConditionNotMet => "CONDITION NOT MET",
            LinkStatus::SourceMissing => "SOURCE MISSING",
            LinkStatus::NotLinked => "NOT LINKED",
            LinkStatus::Linked => "OK",
            LinkStatus::WrongTarget => "WRONG TARGET",
            LinkStatus::SymlinkError => "SYMLINK ERROR",
            LinkStatus::ExistsButNotSymlink => "EXISTS BUT NOT SYMLINK",
        }
    }
}

/// The state of an action, as a status run classifies it.
#[derive(Debug, Clone, Copy, PartialEq, Eq, Structural)]
pub enum ActionStatus {
    ConditionNotMet,
    ReadyToRun,
}

impl ActionStatus {
    /// The name the classification is shown under.
    pub open spec fn label_text(self) -> Seq<char> {
        match self {
            ActionStatus::ConditionNotMet => "CONDITION NOT MET"@,
            ActionStatus::ReadyToRun => "READY TO RUN"@,
        }
    }

    /// The name the classification is shown under.
    pub fn label(&self) -> (label: &'static str)
        ensures
            label@ == self.label_text(),
    {
        match self {
            ActionStatus::ConditionNotMet => "CONDITION NOT MET",
            ActionStatus::ReadyToRun => "READY TO RUN",
        }
    }
}

/// The prefix a record is printed under.
#[derive(Debug, Clone, Copy, PartialEq, Eq, Structural)]
pub enum Disposition {
    Ignored,
    Warning,
    Skipped,
    Linked,
    Removed,
    Action,
    Success,
    Error,
    Status,
}

impl Disposition {
    /// The prefix as it is printed.
    pub open spec fn prefix_text(self) -> Seq<char> {
        match self {
            Disposition::Ignored => "Ignored:"@,
            Disposition::Warning => "Warning:"@,
            Disposition::Skipped => "Skipped:"@,
            Disposition::Linked => "Linked:"@,
            Disposition::Removed => "Removed:"@,
            Disposition::Action => "Action:"@,
            Disposition::Success => "Success:"@,
            Disposition::Error => "Error:"@,
            Disposition::Status => "Status:"@,
        }
    }

    /// The prefix as it is printed.
    pub fn prefix(&self) -> (prefix: &'static str)
        ensures
            prefix@ == self.prefix_text(),
    {
        match self {
            Disposition::Ignored => "Ignored:",
            Disposition::Warning => "Warning:",
            Disposition::Skipped => "Skipped:",
            Disposition::Linked => "Linked:",
            Disposition::Removed => "Removed:",
            Disposition::Action => "Action:",
            Disposition::Success => "Success:",
            Disposition::Error => "Error:",
            Disposition::Status => "Status:",
        }
    }
}

/// One event of a run. Paths are resolved paths.
#[derive(Debug, Clone, PartialEq, Eq)]
#[allow(inconsistent_fields)]
pub enum Record {
    /// The conditions of a link (named by its source) or of an action (named
    /// by its name) do not hold.
    ConditionFailed(String),
    /// The source of a link does not exist.
    SourceMissing(String),
    /// The target of a link exists and may not be overwritten.
    TargetExists(String),
    /// The user declined the link.
    Declined { source: String, target: String },
    /// The link was made.
    Linked { source: String, target: String },
    /// Before linking, the existing target could not be removed.
    ClearFailed { target: String, directory: bool, cause: String },
    /// There is nothing at the target to remove.
    TargetMissing(String),
    /// What stood at the target was removed.
    Removed(String),
    /// What stood at the target could not be removed.
    RemoveFailed { target: String, directory: bool, cause: String },
    /// An action is about to run.
    Running(String),
    /// An action ran and exited with success; this is what it printed.
    Succeeded(String),
    /// The state of a link.
    LinkState { source: String, target: String, status: LinkStatus },
    /// The state of an action.
    ActionState { name: String, status: ActionStatus },
}

/// The mathematical value of a [`Record`]: its texts as sequences of characters.
#[allow(inconsistent_fields)]
pub enum RecordView {
    ConditionFailed(Seq<char>),
    SourceMissing(Seq<char>),
    TargetExists(Seq<char>),
    Declined { source: Seq<char>, target: Seq<char> },
    Linked { source: Seq<char>, target: Seq<char> },
    ClearFailed { target: Seq<char>, directory: bool, cause: Seq<char> },
    TargetMissing(Seq<char>),
    Removed(Seq<char>),
    RemoveFailed { target: Seq<char>, directory: bool, cause: Seq<char> },
    Running(Seq<char>),
    Succeeded(Seq<char>),
    LinkState { source: Seq<char>, target: Seq<char>, status: LinkStatus },
    ActionState { name: Seq<char>, status: ActionStatus },
}

impl View for Record {
    type V = RecordView;

    open spec fn view(&self) -> RecordView {
        match *self {
            Record::ConditionFailed(subject) => RecordView::ConditionFailed(subject@),
            Record::SourceMissing(source) => RecordView::SourceMissing(source@),
            Record::TargetExists(target) => RecordView::TargetExists(target@),
            Record::Declined { source, target } => RecordView::Declined {
                source: source@,
                target: target@,
            },
            Record::Linked { source, target } => RecordView::Linked {
                source: source@,
                target: target@,
            },
            Record::ClearFailed { target, directory, cause } => RecordView::ClearFailed {
                target: target@,
                directory,
                cause: cause@,
            },
            Record::TargetMissing(target) => RecordView::TargetMissing(target@),
            Record::Removed(target) => RecordView::Removed(target@),
            Record::RemoveFailed { target, directory, cause } => RecordView::RemoveFailed {
                target: target@,
                directory,
                cause: cause@,
            },
            Record::Running(name) => RecordView::Running(name@),
            Record::Succeeded(output) => RecordView::Succeeded(output@),
            Record::LinkState { source, target, status } => RecordView::LinkState {
                source: source@,
                target: target@,
                status,
            },
            Record::ActionState { name, status } => RecordView::ActionState { name: name@, status },
        }
    }
}

/// The view of an optional record.
pub open spec fn opt_record(record: Option<Record>) -> Option<RecordView> {
    match record {
        Some(r) => Some(r@),
        None => None,
    }
}

impl RecordView {
    /// The prefix the record is printed under.
    pub open spec fn disposition(self) -> Disposition {
        match self {
            RecordView::ConditionFailed(_) => Disposition::Ignored,
            RecordView::SourceMissing(_) => Disposition::Ignored,
            RecordView::TargetExists(_) => Disposition::Warning,
            RecordView::Declined { .. } => Disposition::Skipped,
            RecordView::Linked { .. } => Disposition::Linked,
            RecordView::ClearFailed { .. } => Disposition::Error,
            RecordView::TargetMissing(_) => Disposition::Ignored,
            RecordView::Removed(_) => Disposition::Removed,
            RecordView::RemoveFailed { .. } => Disposition::Error,
            RecordView::Running(_) => Disposition::Action,
            RecordView::Succeeded(_) => Disposition::Success,
            RecordView::LinkState { .. } => Disposition::Status,
            RecordView::ActionState { .. } => Disposition::Status,
        }
    }

    /// The text of the record, without its prefix.
    pub open spec fn text(self) -> Seq<char> {
        match self {
            RecordView::ConditionFailed(subject) => subject + " failed condition check, skipping."@,
            RecordView::SourceMissing(source) => source
                + " was not found, and will not be linked. Skipping."@,
            RecordView::TargetExists(target) => target
                + " already exists, skipping. Use --overwrite to force linking."@,
            RecordView::Declined { source, target } => source + " -> "@ + target
                + " declined, skipping."@,
            RecordView::Linked { source, target } => source + " -> "@ + target,
            RecordView::ClearFailed { target, directory, cause } => (if directory {
                "Failed to remove existing target directory "@
            } else {
                "Failed to remove existing target "@
            }) + target + ": "@ + cause,
            RecordView::TargetMissing(target) => target + " does not exist, skipping."@,
            RecordView::Removed(target) => target + " removed."@,
            RecordView::RemoveFailed { target, directory, cause } => (if directory {
                "Failed to remove directory "@
            } else {
                "Failed to remove file "@
            }) + target + ": "@ + cause,
            RecordView::Running(name) => "Running action: "@ + name,
            RecordView::Succeeded(output) => output,
            RecordView::LinkState { source, target, status } => status.label_text() + ": "@
                + source + " -> "@ + target,
            RecordView::ActionState { name, status } => status.label_text() + ": "@ + name,
        }
    }
}

impl Record {
    /// The prefix the record is printed under.
    pub fn disposition(&self) -> (disposition: Disposition)
        ensures
            disposition == self@.disposition(),
    {
        match self {
            Record::ConditionFailed(_) => Disposition::Ignored,
            Record::SourceMissing(_) => Disposition::Ignored,
            Record::TargetExists(_) => Disposition::Warning,
            Record::Declined { .. } => Disposition::Skipped,
            Record::Linked { .. } => Disposition::Linked,
            Record::ClearFailed { .. } => Disposition::Error,
            Record::TargetMissing(_) => Disposition::Ignored,
            Record::Removed(_) => Disposition::Removed,
            Record::RemoveFailed { .. } => Disposition::Error,
            Record::Running(_) => Disposition::Action,
            Record::Succeeded(_) => Disposition::Success,
            Record::LinkState { .. } => Disposition::Status,
            Record::ActionState { .. } => Disposition::Status,
        }
    }

    /// The text of the record, without its prefix.
    pub fn text(&self) -> (text: String)
        ensures
            text@ == self@.text(),
    {
        match self {
            Record::ConditionFailed(subject) => subject.clone().concat(
                " failed condition check, skipping.",
            ),
            Record::SourceMissing(source) => source.clone().concat(
                " was not found, and will not be linked. Skipping.",
            ),
            Record::TargetExists(target) => target.clone().concat(
                " already exists, skipping. Use --overwrite to force linking.",
            ),
            Record::Declined { source, target } => source.clone().concat(" -> ").concat(
                target.as_str(),
            ).concat(" declined, skipping."),
            Record::Linked { source, target } => source.clone().concat(" -> ").concat(
                target.as_str(),
            ),
            Record::ClearFailed { target, directory, cause } => {
                let head = if *directory {
                    owned("Failed to remove existing target directory ")
                } else {
                    owned("Failed to remove existing target ")
                };
                head.concat(target.as_str()).concat(": ").concat(cause.as_str())
            },
            Record::TargetMissing(target) => target.clone().concat(" does not exist, skipping."),
            Record::Removed(target) => target.clone().concat(" removed."),
            Record::RemoveFailed { target, directory, cause } => {
                let head = if *directory {
                    owned("Failed to remove directory ")
                } else {
                    owned("Failed to remove file ")
                };
                head.concat(target.as_str()).concat(": ").concat(cause.as_str())
            },
            Record::Running(name) => owned("Running action: ").concat(name.as_str()),
            Record::Succeeded(output) => output.clone(),
            Record::LinkState { source, target, status } => owned(status.label()).concat(
                ": ",
            ).concat(source.as_str()).concat(" -> ").concat(target.as_str()),
            Record::ActionState { name, status } => owned(status.label()).concat(": ").concat(
                name.as_str(),
            ),
        }
    }

    /// The whole line: the prefix, a space, the text.
    pub fn line(&self) -> (line: String)
        ensures
            line@ == self@.disposition().prefix_text() + " "@ + self@.text(),
    {
        let text = self.text();
        owned(self.disposition().prefix()).concat(" ").concat(text.as_str())
    }
}

} // verus!
