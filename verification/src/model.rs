//! A model of the part of the filesystem that one link concerns, of a driver
//! that carries out every request without failure, and what install and
//! remove do to that part.
//!
//! The model keeps what a driver can observe: what stands at the target
//! itself, and what following links from the source finds. It takes the
//! source's own state not to change when the target does.

use vstd::prelude::*;
use crate::config::{DotmanConfigView, PairFindingsView};
use crate::protocol::{
    HostView, LinkFindingsView, PathFindingsView, Phase, ReplyView, RequestView, StepView,
};
use crate::reconcile::{standing_at, consents, install_step, link_paths, remove_step};
use crate::report::RecordView;
use crate::safety::{changing, eligible};

verus! {

/// What stands at a path, links not followed. A symbolic link is kept with
/// where it points, whether following it finds anything, and whether that is
/// a directory.
pub enum Entry {
    File,
    Dir,
    LinkTo { to: Seq<char>, alive: bool, dir: bool },
}

/// The part of the filesystem that one link concerns.
pub struct Site {
    /// Whether following links from the source finds anything.
    pub source_exists: bool,
    /// Whether what it finds is a directory.
    pub source_is_dir: bool,
    /// What stands at the target, if anything.
    pub target: Option<Entry>,
}

impl Site {
    /// What a driver finds at the source.
    pub open spec fn source_findings(self) -> PathFindingsView {
        PathFindingsView {
            exists: self.source_exists,
            is_dir: self.source_exists && self.source_is_dir,
            is_symlink: false,
            link: None,
        }
    }

    /// What a driver finds at the target.
    pub open spec fn target_findings(self) -> PathFindingsView {
        match self.target {
            None => PathFindingsView { exists: false, is_dir: false, is_symlink: false, link: None },
            Some(Entry::File) => PathFindingsView {
                exists: true,
                is_dir: false,
                is_symlink: false,
                link: None,
            },
            Some(Entry::Dir) => PathFindingsView {
                exists: true,
                is_dir: true,
                is_symlink: false,
                link: None,
            },
            Some(Entry::LinkTo { to, alive, dir }) => PathFindingsView {
                exists: alive,
                is_dir: alive && dir,
                is_symlink: true,
                link: Some(to),
            },
        }
    }

    /// What a driver finds for the link, given what it found for the link's
    /// conditions.
    pub open spec fn findings(self, conditions: PairFindingsView) -> LinkFindingsView {
        LinkFindingsView {
            conditions,
            source: self.source_findings(),
            target: self.target_findings(),
        }
    }

    /// The symbolic link that linking to `source` leaves at the target.
    pub open spec fn link_to(self, source: Seq<char>) -> Entry {
        Entry::LinkTo {
            to: source,
            alive: self.source_exists,
            dir: self.source_exists && self.source_is_dir,
        }
    }

    /// The site after a driver carried out `request` without failure, and the
    /// reply the driver gives. `answer` is the line the user types when asked.
    pub open spec fn perform(self, request: RequestView, answer: Seq<char>) -> (Site, ReplyView) {
        match request {
            RequestView::RemoveDir { .. } => (Site { target: None, ..self }, ReplyView::Performed),
            RequestView::RemoveFile { .. } => (Site { target: None, ..self }, ReplyView::Performed),
            RequestView::Symlink { source, .. } => (
                Site { target: Some(self.link_to(source)), ..self },
                ReplyView::Performed,
            ),
            RequestView::Confirm { .. } => (self, ReplyView::Answer(answer)),
            _ => (self, ReplyView::Start),
        }
    }
}

/// An install carried on from `step` until it leaves the link it is making,
/// for `fuel` requests at most.
pub open spec fn install_settle(
    config: DotmanConfigView,
    host: HostView,
    step: StepView,
    site: Site,
    answer: Seq<char>,
    fuel: nat,
) -> (StepView, Site)
    decreases fuel,
{
    if fuel == 0 || !changing(step.progress.phase) {
        (step, site)
    } else {
        let (after, reply) = site.perform(step.request, answer);
        install_settle(
            config,
            host,
            install_step(config, host, step.progress, reply),
            after,
            answer,
            (fuel - 1) as nat,
        )
    }
}

/// What an install does for the link at `index`: the step with which it
/// leaves the link, and the site it leaves behind. A link takes three
/// requests at most: a removal, a question, the link.
pub open spec fn install_link(
    config: DotmanConfigView,
    host: HostView,
    index: int,
    site: Site,
    conditions: PairFindingsView,
    answer: Seq<char>,
) -> (StepView, Site) {
    install_settle(
        config,
        host,
        install_step(
            config,
            host,
            standing_at(Phase::Link, index, false),
            ReplyView::Link(site.findings(conditions)),
        ),
        site,
        answer,
        3,
    )
}

/// What a removal does for the link at `index`: the step with which it
/// leaves the link, and the site it leaves behind.
pub open spec fn remove_link(
    config: DotmanConfigView,
    host: HostView,
    index: int,
    site: Site,
) -> (StepView, Site) {
    let first = remove_step(
        config,
        host,
        standing_at(Phase::Target, index, false),
        ReplyView::Target(site.target_findings()),
    );
    if changing(first.progress.phase) {
        let (after, reply) = site.perform(first.request, Seq::empty());
        (remove_step(config, host, first.progress, reply), after)
    } else {
        (first, site)
    }
}

/// The link at `index` can be made on this host under these findings: it
/// passes the profile filter, its conditions hold, its paths resolve, its
/// source exists, and the user, if asked, consents.
pub open spec fn goes_ahead(
    config: DotmanConfigView,
    host: HostView,
    index: int,
    site: Site,
    conditions: PairFindingsView,
    answer: Seq<char>,
) -> bool {
    &&& config.links.len() <= usize::MAX
    &&& config.actions.len() <= usize::MAX
    &&& eligible(config, host, index, conditions)
    &&& link_paths(config.links[index], host) is Ok
    &&& site.source_exists
    &&& config.ask ==> consents(answer)
}

/// An install leaves the site of a link that is not eligible as it was.
pub proof fn lemma_install_leaves_ineligible(
    config: DotmanConfigView,
    host: HostView,
    index: int,
    site: Site,
    conditions: PairFindingsView,
    answer: Seq<char>,
)
    requires
        0 <= index <= usize::MAX,
        !eligible(config, host, index, conditions),
    ensures
        install_link(config, host, index, site, conditions, answer).1 == site,
{
    reveal_with_fuel(install_settle, 4);
}

/// With overwriting on, an install that goes ahead leaves a symbolic link to
/// the resolved source at the target, whatever stood there before, and
/// reports the link as made.
pub proof fn lemma_install_overwrites(
    config: DotmanConfigView,
    host: HostView,
    index: int,
    site: Site,
    conditions: PairFindingsView,
    answer: Seq<char>,
)
    requires
        goes_ahead(config, host, index, site, conditions, answer),
        config.overwrite,
    ensures
        ({
            let (source, target) = link_paths(config.links[index], host)->Ok_0;
            let (step, after) = install_link(config, host, index, site, conditions, answer);
            &&& after == (Site { target: Some(site.link_to(source)), ..site })
            &&& after.target_findings().is_symlink
            &&& after.target_findings().link == Some(source)
            &&& step.record == Some(RecordView::Linked { source, target })
        }),
{
    reveal_with_fuel(install_settle, 4);
}

/// On a free target, an install that goes ahead makes the link; a second
/// install under the same findings leaves the site as the first left it.
/// With overwriting off, the second asks for no change and reports that the
/// target exists.
pub proof fn lemma_install_twice(
    config: DotmanConfigView,
    host: HostView,
    index: int,
    site: Site,
    conditions: PairFindingsView,
    answer: Seq<char>,
)
    requires
        goes_ahead(config, host, index, site, conditions, answer),
        site.target is None,
    ensures
        ({
            let (source, target) = link_paths(config.links[index], host)->Ok_0;
            let (first, once) = install_link(config, host, index, site, conditions, answer);
            let (second, twice) = install_link(config, host, index, once, conditions, answer);
            let again = install_step(
                config,
                host,
                standing_at(Phase::Link, index, false),
                ReplyView::Link(once.findings(conditions)),
            );
            &&& once.target == Some(site.link_to(source))
            &&& first.record == Some(RecordView::Linked { source, target })
            &&& twice == once
            &&& !config.overwrite ==> second == again && !again.request.mutates() && again.record
                == Some(RecordView::TargetExists(target))
        }),
{
    reveal_with_fuel(install_settle, 4);
}

/// On a free target, an install that goes ahead followed by a removal
/// leaves the site as it was at the start.
pub proof fn lemma_install_then_remove(
    config: DotmanConfigView,
    host: HostView,
    index: int,
    site: Site,
    conditions: PairFindingsView,
    answer: Seq<char>,
)
    requires
        goes_ahead(config, host, index, site, conditions, answer),
        site.target is None,
    ensures
        ({
            let target = link_paths(config.links[index], host)->Ok_0.1;
            let installed = install_link(config, host, index, site, conditions, answer).1;
            let (step, removed) = remove_link(config, host, index, installed);
            &&& removed == site
            &&& step.record == Some(RecordView::Removed(target))
        }),
{
    reveal_with_fuel(install_settle, 4);
}

} // verus!
