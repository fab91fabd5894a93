use vstd::prelude::*;
use vstd::pervasive::unreached;

use crate::normalize::{normalized_plan, remove_refresh_message};
use crate::project::{is_init_command, is_plan_command, CommandSpec, Project};

verus! {

/// The step of a project's pipeline that went wrong.
#[derive(PartialEq, Eq, Structural, Clone, Copy, Debug)]
pub enum StepFailure {
    CloneFailed,
    PlanToolFailed,
    PlanOutputNotText,
    NormalizeFailed,
    CleanupFailed,
}

/// How one project's pipeline ended.
#[derive(PartialEq, Eq, Structural, Clone, Copy, Debug)]
pub enum ProjectOutcome {
    Succeeded,
    Failed(StepFailure),
}

/// Where one project's pipeline stands: which outside step it is waiting on.
/// In `AwaitingCleanup`, `pending` is the outcome decided by the earlier
/// steps, to be reported once the checkout directory is gone.
#[derive(PartialEq, Eq, Structural, Clone, Copy, Debug)]
pub enum PipelineState {
    AwaitingClone,
    AwaitingInit,
    AwaitingPlan,
    AwaitingNotify,
    AwaitingCleanup { pending: ProjectOutcome },
    Finished { outcome: ProjectOutcome },
}

/// What the plan-generation step handed back.
pub enum PlanOutcome {
    /// The tool ran and its standard output was valid text.
    Text(String),
    /// The tool ran but its standard output was not valid text.
    NotText,
    /// The tool could not be run at all.
    InvocationFailed,
}

/// What the outside world reports back after performing an action.
/// The initialization and notification steps are best-effort: their events
/// carry no status because the pipeline ignores it either way.
pub enum PipelineEvent {
    CloneFinished { ok: bool },
    InitFinished,
    PlanFinished { output: PlanOutcome },
    NotifyFinished,
    CleanupFinished { ok: bool },
}

/// What the caller must do next on behalf of the pipeline.
pub enum PipelineAction {
    CloneRepo { url: String, dest: String },
    RunInit { command: CommandSpec },
    RunPlan { command: CommandSpec },
    SendNotification { target: String, text: String },
    RemoveCheckout { path: String },
    Report { outcome: ProjectOutcome },
}

/// The kind of an action, with the payload stripped.
#[derive(PartialEq, Eq, Structural, Clone, Copy, Debug)]
pub enum ActionKind {
    CloneStep,
    InitStep,
    PlanStep,
    NotifyStep,
    CleanupStep,
    ReportStep,
}

pub open spec fn action_kind(a: PipelineAction) -> ActionKind {
    match a {
        PipelineAction::CloneRepo { .. } => ActionKind::CloneStep,
        PipelineAction::RunInit { .. } => ActionKind::InitStep,
        PipelineAction::RunPlan { .. } => ActionKind::PlanStep,
        PipelineAction::SendNotification { .. } => ActionKind::NotifyStep,
        PipelineAction::RemoveCheckout { .. } => ActionKind::CleanupStep,
        PipelineAction::Report { .. } => ActionKind::ReportStep,
    }
}

/// The kind of action that entering a state demands of the caller.
pub open spec fn kind_for(next: PipelineState) -> ActionKind {
    match next {
        PipelineState::AwaitingClone => ActionKind::CloneStep,
        PipelineState::AwaitingInit => ActionKind::InitStep,
        PipelineState::AwaitingPlan => ActionKind::PlanStep,
        PipelineState::AwaitingNotify => ActionKind::NotifyStep,
        PipelineState::AwaitingCleanup { .. } => ActionKind::CleanupStep,
        PipelineState::Finished { .. } => ActionKind::ReportStep,
    }
}

/// An event answers the step the state is waiting on. A finished pipeline
/// takes no further events.
pub open spec fn event_fits(state: PipelineState, event: PipelineEvent) -> bool {
    match state {
        PipelineState::AwaitingClone => event is CloneFinished,
        PipelineState::AwaitingInit => event is InitFinished,
        PipelineState::AwaitingPlan => event is PlanFinished,
        PipelineState::AwaitingNotify => event is NotifyFinished,
        PipelineState::AwaitingCleanup { .. } => event is CleanupFinished,
        PipelineState::Finished { .. } => false,
    }
}

/// The transition relation of the pipeline, on states alone.
///
/// A failed clone ends the pipeline at once: nothing was checked out, so
/// nothing is cleaned up. Every later failure is held as `pending` while the
/// checkout directory is removed, and reported afterwards; a cleanup failure
/// is reported only when every earlier step succeeded, the first failure
/// winning otherwise. The initialization and notification outcomes are
/// ignored by design.
pub open spec fn next_state(state: PipelineState, event: PipelineEvent) -> PipelineState {
    match (state, event) {
        (PipelineState::AwaitingClone, PipelineEvent::CloneFinished { ok }) => if ok {
            PipelineState::AwaitingInit
        } else {
            PipelineState::Finished { outcome: ProjectOutcome::Failed(StepFailure::CloneFailed) }
        },
        (PipelineState::AwaitingInit, PipelineEvent::InitFinished) => PipelineState::AwaitingPlan,
        (PipelineState::AwaitingPlan, PipelineEvent::PlanFinished { output }) => match output {
            PlanOutcome::Text(t) => if normalized_plan(t@) is Some {
                PipelineState::AwaitingNotify
            } else {
                PipelineState::AwaitingCleanup {
                    pending: ProjectOutcome::Failed(StepFailure::NormalizeFailed),
                }
            },
            PlanOutcome::NotText => PipelineState::AwaitingCleanup {
                pending: ProjectOutcome::Failed(StepFailure::PlanOutputNotText),
            },
            PlanOutcome::InvocationFailed => PipelineState::AwaitingCleanup {
                pending: ProjectOutcome::Failed(StepFailure::PlanToolFailed),
            },
        },
        (PipelineState::AwaitingNotify, PipelineEvent::NotifyFinished) => {
            PipelineState::AwaitingCleanup { pending: ProjectOutcome::Succeeded }
        },
        (PipelineState::AwaitingCleanup { pending }, PipelineEvent::CleanupFinished { ok }) => {
            PipelineState::Finished {
                outcome: if ok {
                    pending
                } else {
                    match pending {
                        ProjectOutcome::Succeeded => ProjectOutcome::Failed(
                            StepFailure::CleanupFailed,
                        ),
                        ProjectOutcome::Failed(f) => ProjectOutcome::Failed(f),
                    }
                },
            }
        },
        _ => state,
    }
}

/// Every event of the sequence answers the step the pipeline is waiting on
/// at that point.
pub open spec fn events_fit(state: PipelineState, events: Seq<PipelineEvent>) -> bool
    decreases events.len(),
{
    events.len() > 0 ==> event_fits(state, events[0]) && events_fit(
        next_state(state, events[0]),
        events.drop_first(),
    )
}

/// The state the pipeline is in after consuming all of `events`.
pub open spec fn state_after(state: PipelineState, events: Seq<PipelineEvent>) -> PipelineState
    decreases events.len(),
{
    if events.len() == 0 {
        state
    } else {
        state_after(next_state(state, events[0]), events.drop_first())
    }
}

/// The kinds of the actions the pipeline asks for while consuming `events`,
/// in order.
pub open spec fn kinds_along(state: PipelineState, events: Seq<PipelineEvent>) -> Seq<ActionKind>
    decreases events.len(),
{
    if events.len() == 0 {
        Seq::empty()
    } else {
        seq![kind_for(next_state(state, events[0]))] + kinds_along(
            next_state(state, events[0]),
            events.drop_first(),
        )
    }
}

/// A state whose cleanup is still ahead of it: the clone has succeeded and
/// the checkout directory has not been removed yet.
pub open spec fn cleanup_owed(state: PipelineState) -> bool {
    match state {
        PipelineState::AwaitingInit => true,
        PipelineState::AwaitingPlan => true,
        PipelineState::AwaitingNotify => true,
        _ => false,
    }
}

/// From a state that owes a cleanup, every fitting run that reaches the end
/// of the pipeline asks for the checkout directory's removal along the way.
pub proof fn lemma_owed_cleanup_runs(state: PipelineState, events: Seq<PipelineEvent>)
    requires
        cleanup_owed(state),
        events_fit(state, events),
        state_after(state, events) is Finished,
    ensures
        kinds_along(state, events).contains(ActionKind::CleanupStep),
    decreases events.len(),
{
    let next = next_state(state, events[0]);
    if next is AwaitingCleanup {
        assert(kinds_along(state, events)[0] == ActionKind::CleanupStep);
    } else {
        lemma_owed_cleanup_runs(next, events.drop_first());
        let k = choose|k: int|
            0 <= k < kinds_along(next, events.drop_first()).len() && kinds_along(
                next,
                events.drop_first(),
            )[k] == ActionKind::CleanupStep;
        assert(kinds_along(state, events)[k + 1] == ActionKind::CleanupStep);
    }
}

/// Cleanup always executes for a project whose clone step succeeded, however
/// the plan, normalize and notify steps fared: every fitting run that begins
/// with a successful clone and reaches the end of the pipeline asks for the
/// checkout directory's removal.
pub proof fn lemma_cleanup_after_clone_success(events: Seq<PipelineEvent>)
    requires
        events.len() > 0,
        events[0] == (PipelineEvent::CloneFinished { ok: true }),
        events_fit(PipelineState::AwaitingClone, events),
        state_after(PipelineState::AwaitingClone, events) is Finished,
    ensures
        kinds_along(PipelineState::AwaitingClone, events).contains(ActionKind::CleanupStep),
{
    lemma_owed_cleanup_runs(PipelineState::AwaitingInit, events.drop_first());
    let rest = kinds_along(PipelineState::AwaitingInit, events.drop_first());
    let k = choose|k: int| 0 <= k < rest.len() && rest[k] == ActionKind::CleanupStep;
    assert(kinds_along(PipelineState::AwaitingClone, events)[k + 1] == ActionKind::CleanupStep);
}

/// Cleanup never executes for a project whose clone step failed: the run
/// ends at once, with the clone failure reported and nothing else asked for.
pub proof fn lemma_no_cleanup_after_clone_failure(events: Seq<PipelineEvent>)
    requires
        events.len() > 0,
        events[0] == (PipelineEvent::CloneFinished { ok: false }),
        events_fit(PipelineState::AwaitingClone, events),
    ensures
        kinds_along(PipelineState::AwaitingClone, events) == seq![ActionKind::ReportStep],
        !kinds_along(PipelineState::AwaitingClone, events).contains(ActionKind::CleanupStep),
        state_after(PipelineState::AwaitingClone, events) == (PipelineState::Finished {
            outcome: ProjectOutcome::Failed(StepFailure::CloneFailed),
        }),
{
    let next = next_state(PipelineState::AwaitingClone, events[0]);
    let rest = events.drop_first();
    assert(events_fit(next, rest));
    if rest.len() > 0 {
        assert(event_fits(next, rest[0]));
        assert(false);
    }
    assert(next == (PipelineState::Finished {
        outcome: ProjectOutcome::Failed(StepFailure::CloneFailed),
    }));
    assert(kinds_along(next, rest) =~= Seq::<ActionKind>::empty());
    assert(state_after(next, rest) == next);
    assert(state_after(PipelineState::AwaitingClone, events) == next);
    assert(kinds_along(PipelineState::AwaitingClone, events) =~= seq![kind_for(next)]
        + kinds_along(next, rest));
    assert(kinds_along(PipelineState::AwaitingClone, events) =~= seq![ActionKind::ReportStep]);
    assert(forall|k: int|
        0 <= k < 1 ==> seq![ActionKind::ReportStep][k] != ActionKind::CleanupStep);
}

/// Begin a project's pipeline: the first thing to do is the clone.
pub fn pipeline_start(p: &Project) -> (r: (PipelineState, PipelineAction))
    ensures
        r.0 == PipelineState::AwaitingClone,
        r.1 matches PipelineAction::CloneRepo { url, dest } && url@ == p.git_repo_url@ && dest@
            == p.tmp_prj_directory@,
{
    (
        PipelineState::AwaitingClone,
        PipelineAction::CloneRepo {
            url: p.git_repo_url.clone(),
            dest: p.tmp_prj_directory.clone(),
        },
    )
}

/// Advance a project's pipeline by one step: take the report of the step
/// just performed, decide the next state, and say what to do next.
pub fn pipeline_step(p: &Project, state: PipelineState, event: PipelineEvent) -> (r: (
    PipelineState,
    PipelineAction,
))
    requires
        event_fits(state, event),
    ensures
        r.0 == next_state(state, event),
        action_kind(r.1) == kind_for(r.0),
        r.1 matches PipelineAction::RunInit { command } ==> is_init_command(command, *p),
        r.1 matches PipelineAction::RunPlan { command } ==> is_plan_command(command, *p),
        r.1 matches PipelineAction::SendNotification { target, text } ==> target@
            == p.slack_webhook_url@ && (event matches PipelineEvent::PlanFinished {
            output: PlanOutcome::Text(t),
        } && normalized_plan(t@) == Some(text@)),
        r.1 matches PipelineAction::RemoveCheckout { path } ==> path@ == p.tmp_prj_directory@,
        r.1 matches PipelineAction::Report { outcome } ==> r.0 == (PipelineState::Finished {
            outcome,
        }),
{
    match (state, event) {
        (PipelineState::AwaitingClone, PipelineEvent::CloneFinished { ok }) => {
            if ok {
                (PipelineState::AwaitingInit, PipelineAction::RunInit { command: p.init_command() })
            } else {
                let outcome = ProjectOutcome::Failed(StepFailure::CloneFailed);
                (PipelineState::Finished { outcome }, PipelineAction::Report { outcome })
            }
        },
        (PipelineState::AwaitingInit, PipelineEvent::InitFinished) => {
            (PipelineState::AwaitingPlan, PipelineAction::RunPlan { command: p.plan_command() })
        },
        (PipelineState::AwaitingPlan, PipelineEvent::PlanFinished { output }) => match output {
            PlanOutcome::Text(t) => match remove_refresh_message(t.as_str()) {
                Some(text) => (
                    PipelineState::AwaitingNotify,
                    PipelineAction::SendNotification {
                        target: p.slack_webhook_url.clone(),
                        text,
                    },
                ),
                None => (
                    PipelineState::AwaitingCleanup {
                        pending: ProjectOutcome::Failed(StepFailure::NormalizeFailed),
                    },
                    PipelineAction::RemoveCheckout { path: p.tmp_prj_directory.clone() },
                ),
            },
            PlanOutcome::NotText => (
                PipelineState::AwaitingCleanup {
                    pending: ProjectOutcome::Failed(StepFailure::PlanOutputNotText),
                },
                PipelineAction::RemoveCheckout { path: p.tmp_prj_directory.clone() },
            ),
            PlanOutcome::InvocationFailed => (
                PipelineState::AwaitingCleanup {
                    pending: ProjectOutcome::Failed(StepFailure::PlanToolFailed),
                },
                PipelineAction::RemoveCheckout { path: p.tmp_prj_directory.clone() },
            ),
        },
        (PipelineState::AwaitingNotify, PipelineEvent::NotifyFinished) => (
            PipelineState::AwaitingCleanup { pending: ProjectOutcome::Succeeded },
            PipelineAction::RemoveCheckout { path: p.tmp_prj_directory.clone() },
        ),
        (PipelineState::AwaitingCleanup { pending }, PipelineEvent::CleanupFinished { ok }) => {
            let outcome = if ok {
                pending
            } else {
                match pending {
                    ProjectOutcome::Succeeded => ProjectOutcome::Failed(StepFailure::CleanupFailed),
                    ProjectOutcome::Failed(f) => ProjectOutcome::Failed(f),
                }
            };
            (PipelineState::Finished { outcome }, PipelineAction::Report { outcome })
        },
        _ => unreached(),
    }
}

} // verus!
