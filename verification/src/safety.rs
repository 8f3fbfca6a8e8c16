//! What holds of every run: it never stands on an entry that the profile
//! filter leaves out, an install changes nothing for a link that its findings
//! did not admit, a status run changes nothing at all, and every step leads
//! on towards the end.

use vstd::prelude::*;
use crate::config::{DotmanConfigView, PairFindingsView};
use crate::protocol::{HostView, Phase, Progress, ReplyView, RequestView, StepView};
use crate::reconcile::{
    install_step, link_paths, next_action, next_link, on_active_action, on_active_link,
    remove_step, status_step, unexpected,
};
use crate::report::RecordView;
use crate::utils::resolved;

verus! {

/// The phases in which a link is being made or its target removed.
pub open spec fn changing(phase: Phase) -> bool {
    phase is ClearDir || phase is ClearFile || phase is Confirm || phase is Create
}

/// The phases in which a run stands at a link.
pub open spec fn at_a_link(phase: Phase) -> bool {
    phase is Link || phase is Target || changing(phase)
}

/// The phases in which a run stands at an action.
pub open spec fn at_an_action(phase: Phase) -> bool {
    phase is Action || phase is Run
}

/// The path a request changes; meaningful for a request that changes one.
pub open spec fn changed_path(request: RequestView) -> Seq<char> {
    match request {
        RequestView::RemoveDir { target } => target,
        RequestView::RemoveFile { target } => target,
        RequestView::Symlink { target, .. } => target,
        _ => Seq::empty(),
    }
}

/// A link is eligible when it passes the profile filter and its conditions
/// hold.
pub open spec fn eligible(
    config: DotmanConfigView,
    host: HostView,
    index: int,
    findings: PairFindingsView,
) -> bool {
    &&& 0 <= index < config.links.len()
    &&& config.links[index].active(config.selected_profile)
    &&& config.links[index].holds(host.os, host.hostname, host.home, findings)
}

/// Whether a step stands on an entry that the profile filter leaves out.
pub open spec fn stands_on_active(config: DotmanConfigView, step: StepView) -> bool {
    &&& at_a_link(step.progress.phase) ==> on_active_link(config, step.progress)
    &&& at_an_action(step.progress.phase) ==> on_active_action(config, step.progress)
    &&& step.request matches RequestView::InspectLink { index, .. } ==> index
        == step.progress.index && step.progress.phase is Link
    &&& step.request matches RequestView::InspectTarget { index, .. } ==> index
        == step.progress.index && step.progress.phase is Target
    &&& step.request matches RequestView::InspectAction { index } ==> index == step.progress.index
        && step.progress.phase is Action
    &&& step.request.mutates() ==> changing(step.progress.phase)
    &&& step.request is Confirm ==> step.progress.phase is Confirm
    &&& step.request is Run ==> step.progress.phase is Run
    &&& step.request.ends() <==> step.progress.phase is Done
}

/// The search for the next link stops at the first link at or after `from`
/// that passes the profile filter, and passes over all before it.
pub proof fn lemma_next_link(config: DotmanConfigView, from: int)
    requires
        0 <= from <= config.links.len(),
    ensures
        from <= next_link(config, from) <= config.links.len(),
        next_link(config, from) < config.links.len() ==> config.links[next_link(
            config,
            from,
        )].active(config.selected_profile),
        forall|j: int|
            from <= j < next_link(config, from) ==> !(#[trigger] config.links[j]).active(
                config.selected_profile,
            ),
    decreases config.links.len() - from,
{
    if from < config.links.len() && !config.links[from].active(config.selected_profile) {
        lemma_next_link(config, from + 1);
    }
}

/// The search for the next action stops at the first action at or after
/// `from` that passes the profile filter, and passes over all before it.
pub proof fn lemma_next_action(config: DotmanConfigView, from: int)
    requires
        0 <= from <= config.actions.len(),
    ensures
        from <= next_action(config, from) <= config.actions.len(),
        next_action(config, from) < config.actions.len() ==> config.actions[next_action(
            config,
            from,
        )].active(config.selected_profile),
        forall|j: int|
            from <= j < next_action(config, from) ==> !(#[trigger] config.actions[j]).active(
                config.selected_profile,
            ),
    decreases config.actions.len() - from,
{
    if from < config.actions.len() && !config.actions[from].active(config.selected_profile) {
        lemma_next_action(config, from + 1);
    }
}

/// An install never stands on a link or an action that the profile filter
/// leaves out: whatever the place and the reply, the step it takes waits for
/// an entry that passes the filter or ends the run, and a place on an entry
/// that the filter leaves out is answered with an error and nothing else.
pub proof fn lemma_install_passes_over_inactive(
    config: DotmanConfigView,
    host: HostView,
    at: Progress,
    reply: ReplyView,
)
    requires
        config.links.len() <= usize::MAX,
        config.actions.len() <= usize::MAX,
    ensures
        stands_on_active(config, install_step(config, host, at, reply)),
        at_a_link(at.phase) && !on_active_link(config, at) ==> install_step(
            config,
            host,
            at,
            reply,
        ) == unexpected(),
        at_an_action(at.phase) && !on_active_action(config, at) ==> install_step(
            config,
            host,
            at,
            reply,
        ) == unexpected(),
{
    lemma_next_link(config, 0);
    lemma_next_action(config, 0);
    if at.index < config.links.len() {
        lemma_next_link(config, at.index + 1);
    }
    if at.index < config.actions.len() {
        lemma_next_action(config, at.index + 1);
    }
}

/// A removal never stands on a link that the profile filter leaves out, and
/// never on an action.
pub proof fn lemma_remove_passes_over_inactive(
    config: DotmanConfigView,
    host: HostView,
    at: Progress,
    reply: ReplyView,
)
    requires
        config.links.len() <= usize::MAX,
    ensures
        stands_on_active(config, remove_step(config, host, at, reply)),
        !at_an_action(remove_step(config, host, at, reply).progress.phase),
        at_a_link(at.phase) && !on_active_link(config, at) ==> remove_step(config, host, at, reply)
            == unexpected(),
{
    lemma_next_link(config, 0);
    if at.index < config.links.len() {
        lemma_next_link(config, at.index + 1);
    }
}

/// A status run never stands on an entry that the profile filter leaves out,
/// and it asks for nothing but findings: no request of it changes the
/// filesystem, asks the user or runs a command.
pub proof fn lemma_status_only_inspects(
    config: DotmanConfigView,
    host: HostView,
    at: Progress,
    reply: ReplyView,
)
    requires
        config.links.len() <= usize::MAX,
        config.actions.len() <= usize::MAX,
    ensures
        stands_on_active(config, status_step(config, host, at, reply)),
        ({
            let request = status_step(config, host, at, reply).request;
            request is InspectLink || request is InspectAction || request.ends()
        }),
        at_a_link(at.phase) && !on_active_link(config, at) ==> status_step(config, host, at, reply)
            == unexpected(),
        at_an_action(at.phase) && !on_active_action(config, at) ==> status_step(
            config,
            host,
            at,
            reply,
        ) == unexpected(),
{
    lemma_next_link(config, 0);
    lemma_next_action(config, 0);
    if at.index < config.links.len() {
        lemma_next_link(config, at.index + 1);
    }
    if at.index < config.actions.len() {
        lemma_next_action(config, at.index + 1);
    }
}

/// The reply brings findings under which the link at `at` is eligible and
/// its source exists.
pub open spec fn admits(
    config: DotmanConfigView,
    host: HostView,
    at: Progress,
    reply: ReplyView,
) -> bool {
    match reply {
        ReplyView::Link(f) => eligible(config, host, at.index as int, f.conditions)
            && f.source.exists,
        _ => false,
    }
}

/// An install passes over a link whose conditions do not hold: it reports
/// that, asks for no change, and leaves the link.
pub proof fn lemma_install_skips_unmet(
    config: DotmanConfigView,
    host: HostView,
    at: Progress,
    findings: crate::protocol::LinkFindingsView,
)
    requires
        config.links.len() <= usize::MAX,
        config.actions.len() <= usize::MAX,
        at.phase is Link,
        on_active_link(config, at),
        link_paths(config.links[at.index as int], host) is Ok,
        !eligible(config, host, at.index as int, findings.conditions),
    ensures
        ({
            let step = install_step(config, host, at, ReplyView::Link(findings));
            let source = link_paths(config.links[at.index as int], host)->Ok_0.0;
            &&& step.record == Some(RecordView::ConditionFailed(source))
            &&& !step.request.mutates()
            &&& !changing(step.progress.phase)
            &&& at_a_link(step.progress.phase) ==> step.progress.index > at.index
        }),
{
    lemma_next_link(config, at.index + 1);
    lemma_next_action(config, 0);
}

/// Where a step of an install asks for a change, or waits on a link that is
/// being made, it continues a link that is already being made, or it has just
/// been given findings under which the link is eligible and its source
/// exists. The path that changes is the resolved target of that link.
pub proof fn lemma_install_change_origin(
    config: DotmanConfigView,
    host: HostView,
    at: Progress,
    reply: ReplyView,
)
    requires
        config.links.len() <= usize::MAX,
        config.actions.len() <= usize::MAX,
    ensures
        ({
            let step = install_step(config, host, at, reply);
            &&& step.request.mutates() ==> changing(step.progress.phase)
            &&& changing(step.progress.phase) ==> {
                &&& on_active_link(config, at)
                &&& step.progress.index == at.index
                &&& link_paths(config.links[at.index as int], host) is Ok
                &&& step.request.mutates() ==> changed_path(step.request) == link_paths(
                    config.links[at.index as int],
                    host,
                )->Ok_0.1
                &&& changing(at.phase) || (at.phase is Link && admits(config, host, at, reply))
            }
        }),
{
    lemma_install_passes_over_inactive(config, host, at, reply);
    lemma_next_link(config, 0);
    lemma_next_action(config, 0);
    if at.index < config.links.len() {
        lemma_next_link(config, at.index + 1);
    }
    if at.index < config.actions.len() {
        lemma_next_action(config, at.index + 1);
    }
}

/// A removal asks for a change only when it has just been told that
/// something stands at the resolved target of a link that passes the profile
/// filter, and that target is the path that changes. The link's conditions
/// play no part.
pub proof fn lemma_remove_change_origin(
    config: DotmanConfigView,
    host: HostView,
    at: Progress,
    reply: ReplyView,
)
    requires
        config.links.len() <= usize::MAX,
        remove_step(config, host, at, reply).request.mutates(),
    ensures
        on_active_link(config, at),
        at.phase is Target,
        reply matches ReplyView::Target(f) && f.exists,
        resolved(config.links[at.index as int].target, host.home, host.cwd) == Ok::<
            Seq<char>,
            crate::error::DotmanErrorView,
        >(changed_path(remove_step(config, host, at, reply).request)),
{
    lemma_next_link(config, 0);
    if at.index < config.links.len() {
        lemma_next_link(config, at.index + 1);
    }
}

/// The place an install has reached after the driver gave `replies`, in
/// order, the first of them to the start of the run.
pub open spec fn install_place(
    config: DotmanConfigView,
    host: HostView,
    replies: Seq<ReplyView>,
) -> Progress
    decreases replies.len(),
{
    if replies.len() == 0 {
        Progress::initial()
    } else {
        install_step(
            config,
            host,
            install_place(config, host, replies.drop_last()),
            replies.last(),
        ).progress
    }
}

/// The step an install took on the last of `replies`.
pub open spec fn install_last(
    config: DotmanConfigView,
    host: HostView,
    replies: Seq<ReplyView>,
) -> StepView
    recommends
        replies.len() > 0,
{
    install_step(config, host, install_place(config, host, replies.drop_last()), replies.last())
}

/// The `k`-th reply admitted the link the run now stands at: the run waited
/// for the findings of a link, the reply brought findings under which that
/// link is eligible and its source exists, and the run has been making that
/// link ever since.
pub open spec fn admitted_by(
    config: DotmanConfigView,
    host: HostView,
    replies: Seq<ReplyView>,
    k: int,
) -> bool {
    let before = install_place(config, host, replies.take(k));
    &&& 0 <= k < replies.len()
    &&& before.phase is Link
    &&& admits(config, host, before, replies[k])
    &&& forall|j: int|
        k < j <= replies.len() ==> {
            let place = install_place(config, host, #[trigger] replies.take(j));
            changing(place.phase) && place.index == before.index
        }
}

/// Some reply admitted the link the run now stands at.
pub open spec fn admitted(
    config: DotmanConfigView,
    host: HostView,
    replies: Seq<ReplyView>,
) -> bool {
    exists|k: int| admitted_by(config, host, replies, k)
}

/// Whenever an install stands on a link that is being made, the link was
/// admitted: whatever the driver replied, the findings it gave last for that
/// link made the link eligible, with its source in place.
pub proof fn lemma_install_makes_only_admitted(
    config: DotmanConfigView,
    host: HostView,
    replies: Seq<ReplyView>,
)
    requires
        config.links.len() <= usize::MAX,
        config.actions.len() <= usize::MAX,
        changing(install_place(config, host, replies).phase),
    ensures
        admitted(config, host, replies),
    decreases replies.len(),
{
    let len = replies.len() as int;
    assert(len > 0);
    let earlier = replies.drop_last();
    let at = install_place(config, host, earlier);
    let step = install_step(config, host, at, replies.last());
    assert(replies.take(len) =~= replies);
    assert(replies.take(len - 1) =~= earlier);
    lemma_install_change_origin(config, host, at, replies.last());
    if changing(at.phase) {
        lemma_install_makes_only_admitted(config, host, earlier);
        let k = choose|k: int| admitted_by(config, host, earlier, k);
        assert(earlier.take(k) =~= replies.take(k));
        let before = install_place(config, host, replies.take(k));
        assert(earlier.take(len - 1) =~= earlier);
        assert(at.index == before.index);
        assert forall|j: int| k < j <= replies.len() implies ({
            let place = install_place(config, host, #[trigger] replies.take(j));
            changing(place.phase) && place.index == before.index
        }) by {
            if j < len {
                assert(earlier.take(j) =~= replies.take(j));
            }
        }
        assert(admitted_by(config, host, replies, k));
    } else {
        let k = len - 1;
        assert forall|j: int| k < j <= replies.len() implies ({
            let place = install_place(config, host, #[trigger] replies.take(j));
            changing(place.phase) && place.index == at.index
        }) by {
            assert(j == len);
        }
        assert(admitted_by(config, host, replies, k));
    }
}

/// No install changes anything for a link that is not eligible. Whatever the
/// driver replied during a run: if the last step asks for a change, the path
/// that changes is the resolved target of the link the run stands at, and
/// that link was admitted by findings under which it passes the profile
/// filter, its conditions hold and its source exists.
pub proof fn lemma_install_changes_only_eligible(
    config: DotmanConfigView,
    host: HostView,
    replies: Seq<ReplyView>,
)
    requires
        config.links.len() <= usize::MAX,
        config.actions.len() <= usize::MAX,
        replies.len() > 0,
        install_last(config, host, replies).request.mutates(),
    ensures
        admitted(config, host, replies),
        on_active_link(config, install_place(config, host, replies)),
        link_paths(
            config.links[install_place(config, host, replies).index as int],
            host,
        ) matches Ok((_, target)) && target == changed_path(
            install_last(config, host, replies).request,
        ),
{
    let at = install_place(config, host, replies.drop_last());
    lemma_install_change_origin(config, host, at, replies.last());
    lemma_install_makes_only_admitted(config, host, replies);
}

/// How far a place lies along a run: the start comes first, then the links
/// in declared order, each with its stages in turn, then the actions in
/// declared order, then the end.
pub open spec fn distance(config: DotmanConfigView, at: Progress) -> int {
    let links = config.links.len() as int;
    let actions = config.actions.len() as int;
    match at.phase {
        Phase::Start => 0,
        Phase::Link => 1 + 4 * at.index,
        Phase::Target => 1 + 4 * at.index,
        Phase::ClearDir => 2 + 4 * at.index,
        Phase::ClearFile => 2 + 4 * at.index,
        Phase::Confirm => 3 + 4 * at.index,
        Phase::Create => 4 + 4 * at.index,
        Phase::Action => 1 + 4 * links + 2 * at.index,
        Phase::Run => 2 + 4 * links + 2 * at.index,
        Phase::Done => 1 + 4 * links + 2 * actions,
    }
}

/// Whether a step from `at` leads on: it ends the run, or it reaches a place
/// that lies further along, and never one beyond the end.
pub open spec fn leads_on(config: DotmanConfigView, at: Progress, step: StepView) -> bool {
    &&& step.progress.phase is Done || distance(config, at) < distance(config, step.progress)
    &&& distance(config, step.progress) <= distance(config, Progress::end())
}

/// Every step of an install leads on. So the links are taken in declared
/// order, each through its stages in turn, the actions after the links in
/// declared order, and every run ends, after no more steps than four for
/// each link, two for each action, and one.
pub proof fn lemma_install_leads_on(
    config: DotmanConfigView,
    host: HostView,
    at: Progress,
    reply: ReplyView,
)
    requires
        config.links.len() <= usize::MAX,
        config.actions.len() <= usize::MAX,
    ensures
        leads_on(config, at, install_step(config, host, at, reply)),
{
    lemma_install_passes_over_inactive(config, host, at, reply);
    lemma_next_link(config, 0);
    lemma_next_action(config, 0);
    if at.index < config.links.len() {
        lemma_next_link(config, at.index + 1);
    }
    if at.index < config.actions.len() {
        lemma_next_action(config, at.index + 1);
    }
}

/// Every step of a removal leads on: the links are taken in declared order
/// and every run ends.
pub proof fn lemma_remove_leads_on(
    config: DotmanConfigView,
    host: HostView,
    at: Progress,
    reply: ReplyView,
)
    requires
        config.links.len() <= usize::MAX,
    ensures
        leads_on(config, at, remove_step(config, host, at, reply)),
{
    lemma_remove_passes_over_inactive(config, host, at, reply);
    lemma_next_link(config, 0);
    if at.index < config.links.len() {
        lemma_next_link(config, at.index + 1);
    }
}

/// Every step of a status run leads on: the links are taken in declared
/// order, the actions after them, and every run ends.
pub proof fn lemma_status_leads_on(
    config: DotmanConfigView,
    host: HostView,
    at: Progress,
    reply: ReplyView,
)
    requires
        config.links.len() <= usize::MAX,
        config.actions.len() <= usize::MAX,
    ensures
        leads_on(config, at, status_step(config, host, at, reply)),
{
    lemma_status_only_inspects(config, host, at, reply);
    lemma_next_link(config, 0);
    lemma_next_action(config, 0);
    if at.index < config.links.len() {
        lemma_next_link(config, at.index + 1);
    }
    if at.index < config.actions.len() {
        lemma_next_action(config, at.index + 1);
    }
}

} // verus!
