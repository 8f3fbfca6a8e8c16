//! The reconciler: install, remove and status, each as a function from the
//! place a run has reached and the driver's reply to the next place, what to
//! report, and what to do next.
//!
//! A run starts at `Progress::start()` with `Reply::Start`. The driver carries
//! out each request and hands the reply to the same function again, until the
//! request is `Finished` or `Failed`. Entries are taken in declared order, the
//! links before the actions, and the first failure ends the run; nothing
//! already done is undone.

use vstd::prelude::*;
use crate::config::{
    DotmanConfig, DotmanConfigView, Execution, ExecutionView, Link, LinkView,
};
use crate::error::{DotmanError, DotmanErrorView};
use crate::protocol::{
    Host, HostView, LinkFindings, LinkFindingsView, PathFindings, PathFindingsView, Phase,
    Progress, Reply, ReplyView, Request, RequestView, Step, StepView,
};
use crate::report::{ActionStatus, LinkStatus, Record, RecordView};
use crate::text::{owned, trim, trimmed};
use crate::utils::{as_text, resolve, resolved, symlink, symlink_kind};

verus! {

/// The first link at or after `from` that passes the profile filter; the
/// number of links if there is none.
pub open spec fn next_link(config: DotmanConfigView, from: int) -> int
    decreases config.links.len() - from,
{
    if from < 0 || from >= config.links.len() {
        config.links.len() as int
    } else if config.links[from].active(config.selected_profile) {
        from
    } else {
        next_link(config, from + 1)
    }
}

/// The first action at or after `from` that passes the profile filter; the
/// number of actions if there is none.
pub open spec fn next_action(config: DotmanConfigView, from: int) -> int
    decreases config.actions.len() - from,
{
    if from < 0 || from >= config.actions.len() {
        config.actions.len() as int
    } else if config.actions[from].active(config.selected_profile) {
        from
    } else {
        next_action(config, from + 1)
    }
}

/// The resolved source and target of a link. The source is resolved first.
pub open spec fn link_paths(link: LinkView, host: HostView) -> Result<
    (Seq<char>, Seq<char>),
    DotmanErrorView,
> {
    match resolved(link.source, host.home, host.cwd) {
        Err(e) => Err(e),
        Ok(source) => match resolved(link.target, host.home, host.cwd) {
            Err(e) => Err(e),
            Ok(target) => Ok((source, target)),
        },
    }
}

/// Whether the typed line gives consent: `y` or `yes`, in any case, with
/// white space around it ignored.
pub open spec fn consents(line: Seq<char>) -> bool {
    let answer = trimmed(line);
    let y = answer.len() >= 1 && (answer[0] == 'y' || answer[0] == 'Y');
    let es = answer.len() == 3 && (answer[1] == 'e' || answer[1] == 'E') && (answer[2] == 's'
        || answer[2] == 'S');
    y && (answer.len() == 1 || es)
}

/// The classification of a link by a status run. `holds` says whether the
/// link's conditions hold, `wanted` is its resolved source. The rows are
/// tried in this order, so a target that does not exist when links are
/// followed is not linked, whatever stands at its path.
pub open spec fn link_status(
    holds: bool,
    source: PathFindingsView,
    target: PathFindingsView,
    wanted: Seq<char>,
) -> LinkStatus {
    if !holds {
        LinkStatus::ConditionNotMet
    } else if !source.exists {
        LinkStatus::SourceMissing
    } else if !target.exists {
        LinkStatus::NotLinked
    } else if target.is_symlink {
        match target.link {
            Some(to) => if to == wanted {
                LinkStatus::Linked
            } else {
                LinkStatus::WrongTarget
            },
            None => LinkStatus::SymlinkError,
        }
    } else {
        LinkStatus::ExistsButNotSymlink
    }
}

/// The step that ends a run in failure.
pub open spec fn failed(record: Option<RecordView>, error: DotmanErrorView) -> StepView {
    StepView { progress: Progress::end(), record, request: RequestView::Failed(error) }
}

/// The step that ends a run in success.
pub open spec fn finished(record: Option<RecordView>) -> StepView {
    StepView { progress: Progress::end(), record, request: RequestView::Finished }
}

/// The step taken when the reply does not answer what the run waits for, or
/// the place is none that the run could have reached.
pub open spec fn unexpected() -> StepView {
    failed(None, DotmanErrorView::GeneralError("unexpected reply"@))
}

/// The place of a run that waits in `phase` at the entry at `index`.
pub open spec fn standing_at(phase: Phase, index: int, source_is_dir: bool) -> Progress {
    Progress { phase, index: index as usize, source_is_dir }
}

/// Whether the place stands at a link that exists and passes the profile filter.
pub open spec fn on_active_link(config: DotmanConfigView, at: Progress) -> bool {
    at.index < config.links.len() && config.links[at.index as int].active(config.selected_profile)
}

/// Whether the place stands at an action that exists and passes the profile
/// filter.
pub open spec fn on_active_action(config: DotmanConfigView, at: Progress) -> bool {
    at.index < config.actions.len() && config.actions[at.index as int].active(
        config.selected_profile,
    )
}

/// A run turns to the actions at or after `from`, having `record` to report:
/// it asks for the findings of the first that passes the profile filter, or
/// ends if there is none.
pub open spec fn enter_action(
    config: DotmanConfigView,
    from: int,
    record: Option<RecordView>,
) -> StepView {
    let i = next_action(config, from);
    if i >= config.actions.len() {
        finished(record)
    } else {
        StepView {
            progress: standing_at(Phase::Action, i, false),
            record,
            request: RequestView::InspectAction { index: i as usize },
        }
    }
}

/// A run turns to the links at or after `from`, having `record` to report:
/// it asks for the findings of the first that passes the profile filter, or
/// turns to the actions if there is none. A path that does not resolve ends
/// the run.
pub open spec fn enter_link(
    config: DotmanConfigView,
    host: HostView,
    from: int,
    record: Option<RecordView>,
) -> StepView {
    let i = next_link(config, from);
    if i >= config.links.len() {
        enter_action(config, 0, record)
    } else {
        match link_paths(config.links[i], host) {
            Err(e) => failed(record, e),
            Ok((source, target)) => StepView {
                progress: standing_at(Phase::Link, i, false),
                record,
                request: RequestView::InspectLink { index: i as usize, source, target },
            },
        }
    }
}

/// Install makes the link.
pub open spec fn install_create(
    host: HostView,
    at: Progress,
    source: Seq<char>,
    target: Seq<char>,
) -> StepView {
    StepView {
        progress: Progress { phase: Phase::Create, ..at },
        record: None,
        request: RequestView::Symlink {
            source,
            target,
            kind: symlink_kind(host.os, at.source_is_dir),
        },
    }
}

/// Install has a free target: it asks first if the policy says so.
pub open spec fn install_cleared(
    config: DotmanConfigView,
    host: HostView,
    at: Progress,
    source: Seq<char>,
    target: Seq<char>,
) -> StepView {
    if config.ask {
        StepView {
            progress: Progress { phase: Phase::Confirm, ..at },
            record: None,
            request: RequestView::Confirm { source, target },
        }
    } else {
        install_create(host, at, source, target)
    }
}

/// Install has the findings for a link.
pub open spec fn install_inspected(
    config: DotmanConfigView,
    host: HostView,
    at: Progress,
    findings: LinkFindingsView,
    source: Seq<char>,
    target: Seq<char>,
) -> StepView {
    let link = config.links[at.index as int];
    let at = Progress { source_is_dir: findings.source.is_dir, ..at };
    if !link.holds(host.os, host.hostname, host.home, findings.conditions) {
        enter_link(config, host, at.index + 1, Some(RecordView::ConditionFailed(source)))
    } else if !findings.source.exists {
        enter_link(config, host, at.index + 1, Some(RecordView::SourceMissing(source)))
    } else if !findings.target.exists {
        install_cleared(config, host, at, source, target)
    } else if !config.overwrite {
        enter_link(config, host, at.index + 1, Some(RecordView::TargetExists(target)))
    } else if findings.target.is_dir {
        StepView {
            progress: Progress { phase: Phase::ClearDir, ..at },
            record: None,
            request: RequestView::RemoveDir { target },
        }
    } else {
        StepView {
            progress: Progress { phase: Phase::ClearFile, ..at },
            record: None,
            request: RequestView::RemoveFile { target },
        }
    }
}

/// One step of install at a link whose paths are resolved.
pub open spec fn install_link_step(
    config: DotmanConfigView,
    host: HostView,
    at: Progress,
    reply: ReplyView,
    source: Seq<char>,
    target: Seq<char>,
) -> StepView {
    match at.phase {
        Phase::Link => match reply {
            ReplyView::Link(findings) => install_inspected(
                config,
                host,
                at,
                findings,
                source,
                target,
            ),
            _ => unexpected(),
        },
        Phase::ClearDir | Phase::ClearFile => match reply {
            ReplyView::Performed => install_cleared(config, host, at, source, target),
            ReplyView::Refused(cause) => failed(
                Some(
                    RecordView::ClearFailed {
                        target,
                        directory: at.phase == Phase::ClearDir,
                        cause,
                    },
                ),
                DotmanErrorView::IoError(cause),
            ),
            _ => unexpected(),
        },
        Phase::Confirm => match reply {
            ReplyView::Answer(line) => if consents(line) {
                install_create(host, at, source, target)
            } else {
                enter_link(
                    config,
                    host,
                    at.index + 1,
                    Some(RecordView::Declined { source, target }),
                )
            },
            ReplyView::Refused(cause) => failed(None, DotmanErrorView::IoError(cause)),
            _ => unexpected(),
        },
        Phase::Create => match reply {
            ReplyView::Performed => enter_link(
                config,
                host,
                at.index + 1,
                Some(RecordView::Linked { source, target }),
            ),
            ReplyView::Refused(cause) => failed(None, DotmanErrorView::IoError(cause)),
            _ => unexpected(),
        },
        _ => unexpected(),
    }
}

/// One step of install at an action.
pub open spec fn install_action_step(
    config: DotmanConfigView,
    host: HostView,
    at: Progress,
    reply: ReplyView,
) -> StepView {
    let action = config.actions[at.index as int];
    match (at.phase, reply) {
        (Phase::Action, ReplyView::Action(findings)) => if !action.holds(
            host.os,
            host.hostname,
            host.home,
            findings,
        ) {
            enter_action(
                config,
                at.index + 1,
                Some(RecordView::ConditionFailed(action.name)),
            )
        } else {
            StepView {
                progress: Progress { phase: Phase::Run, ..at },
                record: Some(RecordView::Running(action.name)),
                request: RequestView::Run {
                    argv: seq![action.run.shell.name(), "-c"@, action.run.command],
                },
            }
        },
        (Phase::Run, ReplyView::Ran(ExecutionView::Exited { success, stdout, stderr })) => if success {
            enter_action(config, at.index + 1, Some(RecordView::Succeeded(stdout)))
        } else {
            failed(None, DotmanErrorView::CommandError { name: action.name, message: stderr })
        },
        (Phase::Run, ReplyView::Ran(ExecutionView::Failed(cause))) => failed(
            None,
            DotmanErrorView::IoError(cause),
        ),
        _ => unexpected(),
    }
}

/// One step of install.
pub open spec fn install_step(
    config: DotmanConfigView,
    host: HostView,
    at: Progress,
    reply: ReplyView,
) -> StepView {
    match at.phase {
        Phase::Start => if reply is Start {
            enter_link(config, host, 0, None)
        } else {
            unexpected()
        },
        Phase::Link | Phase::ClearDir | Phase::ClearFile | Phase::Confirm | Phase::Create => {
            if !on_active_link(config, at) {
                unexpected()
            } else {
                match link_paths(config.links[at.index as int], host) {
                    Err(e) => failed(None, e),
                    Ok((source, target)) => install_link_step(
                        config,
                        host,
                        at,
                        reply,
                        source,
                        target,
                    ),
                }
            }
        },
        Phase::Action | Phase::Run => if !on_active_action(config, at) {
            unexpected()
        } else {
            install_action_step(config, host, at, reply)
        },
        _ => unexpected(),
    }
}

// Remove

/// Remove turns to the links at or after `from`, having `record` to report.
/// Only the target is resolved.
pub open spec fn remove_enter_link(
    config: DotmanConfigView,
    host: HostView,
    from: int,
    record: Option<RecordView>,
) -> StepView {
    let i = next_link(config, from);
    if i >= config.links.len() {
        finished(record)
    } else {
        match resolved(config.links[i].target, host.home, host.cwd) {
            Err(e) => failed(record, e),
            Ok(target) => StepView {
                progress: standing_at(Phase::Target, i, false),
                record,
                request: RequestView::InspectTarget { index: i as usize, target },
            },
        }
    }
}

/// One step of remove at a link whose target is resolved. No condition is
/// evaluated: what stands at the target of a link that passes the profile
/// filter is removed.
pub open spec fn remove_link_step(
    config: DotmanConfigView,
    host: HostView,
    at: Progress,
    reply: ReplyView,
    target: Seq<char>,
) -> StepView {
    match (at.phase, reply) {
        (Phase::Target, ReplyView::Target(findings)) => if !findings.exists {
            remove_enter_link(config, host, at.index + 1, Some(RecordView::TargetMissing(target)))
        } else if findings.is_dir {
            StepView {
                progress: Progress { phase: Phase::ClearDir, ..at },
                record: None,
                request: RequestView::RemoveDir { target },
            }
        } else {
            StepView {
                progress: Progress { phase: Phase::ClearFile, ..at },
                record: None,
                request: RequestView::RemoveFile { target },
            }
        },
        (Phase::ClearDir, ReplyView::Performed) | (Phase::ClearFile, ReplyView::Performed) => {
            remove_enter_link(config, host, at.index + 1, Some(RecordView::Removed(target)))
        },
        (Phase::ClearDir, ReplyView::Refused(cause)) | (Phase::ClearFile, ReplyView::Refused(cause)) => {
            failed(
                Some(
                    RecordView::RemoveFailed {
                        target,
                        directory: at.phase == Phase::ClearDir,
                        cause,
                    },
                ),
                DotmanErrorView::IoError(cause),
            )
        },
        _ => unexpected(),
    }
}

/// One step of remove.
pub open spec fn remove_step(
    config: DotmanConfigView,
    host: HostView,
    at: Progress,
    reply: ReplyView,
) -> StepView {
    match at.phase {
        Phase::Start => if reply is Start {
            remove_enter_link(config, host, 0, None)
        } else {
            unexpected()
        },
        Phase::Target | Phase::ClearDir | Phase::ClearFile => if !on_active_link(config, at) {
            unexpected()
        } else {
            match resolved(config.links[at.index as int].target, host.home, host.cwd) {
                Err(e) => failed(None, e),
                Ok(target) => remove_link_step(config, host, at, reply, target),
            }
        },
        _ => unexpected(),
    }
}

// Status

/// One step of status. It classifies and moves on: no request of a status
/// run changes the filesystem or runs an action.
pub open spec fn status_step(
    config: DotmanConfigView,
    host: HostView,
    at: Progress,
    reply: ReplyView,
) -> StepView {
    match (at.phase, reply) {
        (Phase::Start, ReplyView::Start) => enter_link(config, host, 0, None),
        (Phase::Link, ReplyView::Link(findings)) => if !on_active_link(config, at) {
            unexpected()
        } else {
            let link = config.links[at.index as int];
            match link_paths(link, host) {
                Err(e) => failed(None, e),
                Ok((source, target)) => enter_link(
                    config,
                    host,
                    at.index + 1,
                    Some(
                        RecordView::LinkState {
                            source,
                            target,
                            status: link_status(
                                link.holds(host.os, host.hostname, host.home, findings.conditions),
                                findings.source,
                                findings.target,
                                source,
                            ),
                        },
                    ),
                ),
            }
        },
        (Phase::Action, ReplyView::Action(findings)) => if !on_active_action(config, at) {
            unexpected()
        } else {
            let action = config.actions[at.index as int];
            enter_action(
                config,
                at.index + 1,
                Some(
                    RecordView::ActionState {
                        name: action.name,
                        status: if action.holds(host.os, host.hostname, host.home, findings) {
                            ActionStatus::ReadyToRun
                        } else {
                            ActionStatus::ConditionNotMet
                        },
                    },
                ),
            )
        },
        _ => unexpected(),
    }
}

// The executable side

/// Whether the typed line gives consent.
pub fn is_consent(line: &str) -> (yes: bool)
    ensures
        yes == consents(line@),
{
    let answer = trim(line);
    let len = answer.unicode_len();
    if len == 1 {
        let y = answer.get_char(0);
        y == 'y' || y == 'Y'
    } else if len == 3 {
        let y = answer.get_char(0);
        let e = answer.get_char(1);
        let s = answer.get_char(2);
        (y == 'y' || y == 'Y') && (e == 'e' || e == 'E') && (s == 's' || s == 'S')
    } else {
        false
    }
}

/// Classifies a link for a status run.
pub fn classify(holds: bool, source: &PathFindings, target: &PathFindings, wanted: &str) -> (status:
    LinkStatus)
    ensures
        status == link_status(holds, source@, target@, wanted@),
{
    if !holds {
        LinkStatus::ConditionNotMet
    } else if !source.exists {
        LinkStatus::SourceMissing
    } else if !target.exists {
        LinkStatus::NotLinked
    } else if target.is_symlink {
        match &target.link {
            Some(to) => if crate::text::same_text(to.as_str(), wanted) {
                LinkStatus::Linked
            } else {
                LinkStatus::WrongTarget
            },
            None => LinkStatus::SymlinkError,
        }
    } else {
        LinkStatus::ExistsButNotSymlink
    }
}

/// Resolves the source and the target of a link.
pub fn resolve_link(link: &Link, host: &Host) -> (out: Result<(String, String), DotmanError>)
    ensures
        match link_paths(link@, host@) {
            Ok((source, target)) => out matches Ok((s, t)) && s@ == source && t@ == target,
            Err(e) => out matches Err(x) && x@ == e,
        },
{
    let home = as_text(&host.home);
    match resolve(link.source.as_str(), home, &host.cwd) {
        Err(e) => Err(e),
        Ok(source) => match resolve(link.target.as_str(), home, &host.cwd) {
            Err(e) => Err(e),
            Ok(target) => Ok((source, target)),
        },
    }
}

fn failed_step(record: Option<Record>, error: DotmanError) -> (step: Step)
    ensures
        step@ == failed(crate::report::opt_record(record), error@),
{
    Step {
        progress: Progress { phase: Phase::Done, index: 0, source_is_dir: false },
        record,
        request: Request::Failed(error),
    }
}

fn finished_step(record: Option<Record>) -> (step: Step)
    ensures
        step@ == finished(crate::report::opt_record(record)),
{
    Step {
        progress: Progress { phase: Phase::Done, index: 0, source_is_dir: false },
        record,
        request: Request::Finished,
    }
}

fn unexpected_step() -> (step: Step)
    ensures
        step@ == unexpected(),
{
    failed_step(None, DotmanError::GeneralError(owned("unexpected reply")))
}

/// The reconciler of one configuration.
#[derive(Debug, PartialEq, Eq)]
pub struct Dotman {
    pub config: DotmanConfig,
}

impl Dotman {
    /// The reconciler of `config`.
    pub fn new(config: DotmanConfig) -> (dotman: Dotman)
        ensures
            dotman.config == config,
    {
        Dotman { config }
    }

    fn next_link(&self, from: usize) -> (i: usize)
        ensures
            i as int == next_link(self.config@, from as int),
            i <= self.config.links.len(),
            i < self.config.links.len() ==> on_active_link(
                self.config@,
                standing_at(Phase::Link, i as int, false),
            ),
    {
        let len = self.config.links.len();
        if from >= len {
            return len;
        }
        let selected = as_text(&self.config.selected_profile);
        let mut i = from;
        while i < len && !self.config.links[i].is_active(selected)
            invariant
                from <= i <= len,
                len == self.config.links.len(),
                crate::utils::opt_text(selected) == self.config@.selected_profile,
                next_link(self.config@, from as int) == next_link(self.config@, i as int),
            decreases len - i,
        {
            assert(self.config@.links[i as int] == self.config.links@[i as int]@);
            i += 1;
        }
        if i < len {
            assert(self.config@.links[i as int] == self.config.links@[i as int]@);
        }
        i
    }

    fn next_action(&self, from: usize) -> (i: usize)
        ensures
            i as int == next_action(self.config@, from as int),
            i <= self.config.actions.len(),
    {
        let len = self.config.actions.len();
        if from >= len {
            return len;
        }
        let selected = as_text(&self.config.selected_profile);
        let mut i = from;
        while i < len && !self.config.actions[i].is_active(selected)
            invariant
                from <= i <= len,
                len == self.config.actions.len(),
                crate::utils::opt_text(selected) == self.config@.selected_profile,
                next_action(self.config@, from as int) == next_action(self.config@, i as int),
            decreases len - i,
        {
            assert(self.config@.actions[i as int] == self.config.actions@[i as int]@);
            i += 1;
        }
        if i < len {
            assert(self.config@.actions[i as int] == self.config.actions@[i as int]@);
        }
        i
    }

    fn on_active_link(&self, at: Progress) -> (yes: bool)
        ensures
            yes == on_active_link(self.config@, at),
            yes ==> at.index < self.config.links.len() && self.config@.links[at.index as int]
                == self.config.links@[at.index as int]@,
    {
        if at.index >= self.config.links.len() {
            return false;
        }
        assert(self.config@.links[at.index as int] == self.config.links@[at.index as int]@);
        self.config.links[at.index].is_active(as_text(&self.config.selected_profile))
    }

    fn on_active_action(&self, at: Progress) -> (yes: bool)
        ensures
            yes == on_active_action(self.config@, at),
            yes ==> at.index < self.config.actions.len() && self.config@.actions[at.index as int]
                == self.config.actions@[at.index as int]@,
    {
        if at.index >= self.config.actions.len() {
            return false;
        }
        assert(self.config@.actions[at.index as int] == self.config.actions@[at.index as int]@);
        self.config.actions[at.index].is_active(as_text(&self.config.selected_profile))
    }

    fn enter_action(&self, from: usize, record: Option<Record>) -> (step: Step)
        ensures
            step@ == enter_action(
                self.config@,
                from as int,
                crate::report::opt_record(record),
            ),
    {
        let i = self.next_action(from);
        if i >= self.config.actions.len() {
            finished_step(record)
        } else {
            Step {
                progress: Progress { phase: Phase::Action, index: i, source_is_dir: false },
                record,
                request: Request::InspectAction { index: i },
            }
        }
    }

    fn enter_link(&self, host: &Host, from: usize, record: Option<Record>) -> (step: Step)
        ensures
            step@ == enter_link(
                self.config@,
                host@,
                from as int,
                crate::report::opt_record(record),
            ),
    {
        let i = self.next_link(from);
        if i >= self.config.links.len() {
            self.enter_action(0, record)
        } else {
            assert(self.config@.links[i as int] == self.config.links@[i as int]@);
            match resolve_link(&self.config.links[i], host) {
                Err(e) => failed_step(record, e),
                Ok((source, target)) => Step {
                    progress: Progress { phase: Phase::Link, index: i, source_is_dir: false },
                    record,
                    request: Request::InspectLink { index: i, source, target },
                },
            }
        }
    }

    fn create(host: &Host, at: Progress, source: String, target: String) -> (step: Step)
        ensures
            step@ == install_create(host@, at, source@, target@),
    {
        Step {
            progress: Progress { phase: Phase::Create, ..at },
            record: None,
            request: Request::Symlink {
                source,
                target,
                kind: symlink(&host.os, at.source_is_dir),
            },
        }
    }

    fn cleared(&self, host: &Host, at: Progress, source: String, target: String) -> (step: Step)
        ensures
            step@ == install_cleared(self.config@, host@, at, source@, target@),
    {
        if self.config.ask {
            Step {
                progress: Progress { phase: Phase::Confirm, ..at },
                record: None,
                request: Request::Confirm { source, target },
            }
        } else {
            Self::create(host, at, source, target)
        }
    }

    fn inspected(
        &self,
        host: &Host,
        at: Progress,
        findings: &LinkFindings,
        source: String,
        target: String,
    ) -> (step: Step)
        requires
            on_active_link(self.config@, at),
            at.index < self.config.links.len(),
        ensures
            step@ == install_inspected(self.config@, host@, at, findings@, source@, target@),
    {
        let link = &self.config.links[at.index];
        assert(self.config@.links[at.index as int] == link@);
        let at = Progress { source_is_dir: findings.source.is_dir, ..at };
        let next = at.index + 1;
        if !link.is_met(
            &host.os,
            as_text(&host.hostname),
            as_text(&host.home),
            &findings.conditions,
        ) {
            self.enter_link(host, next, Some(Record::ConditionFailed(source)))
        } else if !findings.source.exists {
            self.enter_link(host, next, Some(Record::SourceMissing(source)))
        } else if !findings.target.exists {
            self.cleared(host, at, source, target)
        } else if !self.config.overwrite {
            self.enter_link(host, next, Some(Record::TargetExists(target)))
        } else if findings.target.is_dir {
            Step {
                progress: Progress { phase: Phase::ClearDir, ..at },
                record: None,
                request: Request::RemoveDir { target },
            }
        } else {
            Step {
                progress: Progress { phase: Phase::ClearFile, ..at },
                record: None,
                request: Request::RemoveFile { target },
            }
        }
    }

    fn install_link(
        &self,
        host: &Host,
        at: Progress,
        reply: Reply,
        source: String,
        target: String,
    ) -> (step: Step)
        requires
            on_active_link(self.config@, at),
            at.index < self.config.links.len(),
        ensures
            step@ == install_link_step(self.config@, host@, at, reply@, source@, target@),
    {
        let next = at.index + 1;
        match at.phase {
            Phase::Link => match reply {
                Reply::Link(findings) => self.inspected(host, at, &findings, source, target),
                _ => unexpected_step(),
            },
            Phase::ClearDir | Phase::ClearFile => match reply {
                Reply::Performed => self.cleared(host, at, source, target),
                Reply::Refused(cause) => failed_step(
                    Some(
                        Record::ClearFailed {
                            target,
                            directory: at.phase == Phase::ClearDir,
                            cause: cause.clone(),
                        },
                    ),
                    DotmanError::IoError(cause),
                ),
                _ => unexpected_step(),
            },
            Phase::Confirm => match reply {
                Reply::Answer(line) => if is_consent(line.as_str()) {
                    Self::create(host, at, source, target)
                } else {
                    self.enter_link(host, next, Some(Record::Declined { source, target }))
                },
                Reply::Refused(cause) => failed_step(None, DotmanError::IoError(cause)),
                _ => unexpected_step(),
            },
            Phase::Create => match reply {
                Reply::Performed => self.enter_link(
                    host,
                    next,
                    Some(Record::Linked { source, target }),
                ),
                Reply::Refused(cause) => failed_step(None, DotmanError::IoError(cause)),
                _ => unexpected_step(),
            },
            _ => unexpected_step(),
        }
    }

    fn install_action(&self, host: &Host, at: Progress, reply: Reply) -> (step: Step)
        requires
            on_active_action(self.config@, at),
            at.index < self.config.actions.len(),
        ensures
            step@ == install_action_step(self.config@, host@, at, reply@),
    {
        let action = &self.config.actions[at.index];
        assert(self.config@.actions[at.index as int] == action@);
        let next = at.index + 1;
        match at.phase {
            Phase::Action => match reply {
                Reply::Action(findings) => if !action.is_met(
                    &host.os,
                    as_text(&host.hostname),
                    as_text(&host.home),
                    &findings,
                ) {
                    self.enter_action(next, Some(Record::ConditionFailed(owned(action.name()))))
                } else {
                    Step {
                        progress: Progress { phase: Phase::Run, ..at },
                        record: Some(Record::Running(owned(action.name()))),
                        request: Request::Run { argv: action.run().argv() },
                    }
                },
                _ => unexpected_step(),
            },
            Phase::Run => match reply {
                Reply::Ran(Execution::Exited { success, stdout, stderr }) => if success {
                    self.enter_action(next, Some(Record::Succeeded(stdout)))
                } else {
                    failed_step(
                        None,
                        DotmanError::CommandError { name: owned(action.name()), message: stderr },
                    )
                },
                Reply::Ran(Execution::Failed(cause)) => failed_step(
                    None,
                    DotmanError::IoError(cause),
                ),
                _ => unexpected_step(),
            },
            _ => unexpected_step(),
        }
    }

    /// One step of an install.
    ///
    /// For each link that passes the profile filter, in declared order: its
    /// findings are asked for; a link whose conditions fail, whose source is
    /// missing, or whose target exists while overwriting is off is reported
    /// and passed over; otherwise what stands at the target is removed, the
    /// user is asked if the policy says so, and the link is made. Then each
    /// action that passes the filter and whose conditions hold is run. A
    /// refused removal, prompt or link, and an action that exits without
    /// success, end the run with an error.
    pub fn install(&self, host: &Host, at: Progress, reply: Reply) -> (step: Step)
        ensures
            step@ == install_step(self.config@, host@, at, reply@),
    {
        match at.phase {
            Phase::Start => match reply {
                Reply::Start => self.enter_link(host, 0, None),
                _ => unexpected_step(),
            },
            Phase::Link | Phase::ClearDir | Phase::ClearFile | Phase::Confirm | Phase::Create => {
                if !self.on_active_link(at) {
                    unexpected_step()
                } else {
                    match resolve_link(&self.config.links[at.index], host) {
                        Err(e) => failed_step(None, e),
                        Ok((source, target)) => self.install_link(host, at, reply, source, target),
                    }
                }
            },
            Phase::Action | Phase::Run => if !self.on_active_action(at) {
                unexpected_step()
            } else {
                self.install_action(host, at, reply)
            },
            _ => unexpected_step(),
        }
    }

    fn remove_enter_link(&self, host: &Host, from: usize, record: Option<Record>) -> (step: Step)
        ensures
            step@ == remove_enter_link(
                self.config@,
                host@,
                from as int,
                crate::report::opt_record(record),
            ),
    {
        let i = self.next_link(from);
        if i >= self.config.links.len() {
            finished_step(record)
        } else {
            assert(self.config@.links[i as int] == self.config.links@[i as int]@);
            match resolve(self.config.links[i].target.as_str(), as_text(&host.home), &host.cwd) {
                Err(e) => failed_step(record, e),
                Ok(target) => Step {
                    progress: Progress { phase: Phase::Target, index: i, source_is_dir: false },
                    record,
                    request: Request::InspectTarget { index: i, target },
                },
            }
        }
    }

    fn remove_link(&self, host: &Host, at: Progress, reply: Reply, target: String) -> (step: Step)
        requires
            at.index < self.config.links.len(),
        ensures
            step@ == remove_link_step(self.config@, host@, at, reply@, target@),
    {
        let next = at.index + 1;
        match at.phase {
            Phase::Target => match reply {
                Reply::Target(findings) => if !findings.exists {
                    self.remove_enter_link(host, next, Some(Record::TargetMissing(target)))
                } else if findings.is_dir {
                    Step {
                        progress: Progress { phase: Phase::ClearDir, ..at },
                        record: None,
                        request: Request::RemoveDir { target },
                    }
                } else {
                    Step {
                        progress: Progress { phase: Phase::ClearFile, ..at },
                        record: None,
                        request: Request::RemoveFile { target },
                    }
                },
                _ => unexpected_step(),
            },
            Phase::ClearDir | Phase::ClearFile => match reply {
                Reply::Performed => self.remove_enter_link(
                    host,
                    next,
                    Some(Record::Removed(target)),
                ),
                Reply::Refused(cause) => failed_step(
                    Some(
                        Record::RemoveFailed {
                            target,
                            directory: at.phase == Phase::ClearDir,
                            cause: cause.clone(),
                        },
                    ),
                    DotmanError::IoError(cause),
                ),
                _ => unexpected_step(),
            },
            _ => unexpected_step(),
        }
    }

    /// One step of a removal.
    ///
    /// For each link that passes the profile filter, in declared order: its
    /// target is looked at; if nothing is there, that is reported; otherwise
    /// what is there is removed, whatever it is and whatever the link's
    /// conditions say. A refused removal ends the run with an error.
    pub fn remove(&self, host: &Host, at: Progress, reply: Reply) -> (step: Step)
        ensures
            step@ == remove_step(self.config@, host@, at, reply@),
    {
        match at.phase {
            Phase::Start => match reply {
                Reply::Start => self.remove_enter_link(host, 0, None),
                _ => unexpected_step(),
            },
            Phase::Target | Phase::ClearDir | Phase::ClearFile => if !self.on_active_link(at) {
                unexpected_step()
            } else {
                match resolve(
                    self.config.links[at.index].target.as_str(),
                    as_text(&host.home),
                    &host.cwd,
                ) {
                    Err(e) => failed_step(None, e),
                    Ok(target) => self.remove_link(host, at, reply, target),
                }
            },
            _ => unexpected_step(),
        }
    }

    /// One step of a status run.
    ///
    /// Each link that passes the profile filter is classified from its
    /// findings, then each such action. Nothing is changed and no action is
    /// run.
    pub fn status(&self, host: &Host, at: Progress, reply: Reply) -> (step: Step)
        ensures
            step@ == status_step(self.config@, host@, at, reply@),
    {
        match at.phase {
            Phase::Start => match reply {
                Reply::Start => self.enter_link(host, 0, None),
                _ => unexpected_step(),
            },
            Phase::Link => match reply {
                Reply::Link(findings) => if !self.on_active_link(at) {
                    unexpected_step()
                } else {
                    let link = &self.config.links[at.index];
                    match resolve_link(link, host) {
                        Err(e) => failed_step(None, e),
                        Ok((source, target)) => {
                            let holds = link.is_met(
                                &host.os,
                                as_text(&host.hostname),
                                as_text(&host.home),
                                &findings.conditions,
                            );
                            let status = classify(
                                holds,
                                &findings.source,
                                &findings.target,
                                source.as_str(),
                            );
                            self.enter_link(
                                host,
                                at.index + 1,
                                Some(Record::LinkState { source, target, status }),
                            )
                        },
                    }
                },
                _ => unexpected_step(),
            },
            Phase::Action => match reply {
                Reply::Action(findings) => if !self.on_active_action(at) {
                    unexpected_step()
                } else {
                    let action = &self.config.actions[at.index];
                    let status = if action.is_met(
                        &host.os,
                        as_text(&host.hostname),
                        as_text(&host.home),
                        &findings,
                    ) {
                        ActionStatus::ReadyToRun
                    } else {
                        ActionStatus::ConditionNotMet
                    };
                    self.enter_action(
                        at.index + 1,
                        Some(Record::ActionState { name: owned(action.name()), status }),
                    )
                },
                _ => unexpected_step(),
            },
            _ => unexpected_step(),
        }
    }
}

} // verus!
