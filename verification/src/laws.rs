//! What holds of every run, whatever the driver reports.

use crate::analysis::{Analysis, Policy};
use crate::confirm::affirmative;
use crate::error::{Outcome, WorkflowError};
use crate::model::{effect, run, CommitRecord, World};
use crate::naming::{merge_message_names_branch, merge_message_text, occurs_in};
use crate::protocol::{CommitId, Event};
use crate::workflow::{accepts, next, pending, starts, Stage, Workflow};
use vstd::prelude::*;

verus! {

/// The merge commit that a run in `state` creates under the identifier
/// `id`: its parents are the feature tip and the integration tip of
/// before, in this order, and its message names the feature branch.
pub open spec fn merge_record(state: Workflow, id: CommitId) -> CommitRecord {
    CommitRecord {
        id,
        message: merge_message_text(state.branch@),
        parents: seq![state.feature_tip, state.integration_tip],
    }
}

/// `start` with HEAD on the integration branch.
pub open spec fn switched(start: World) -> World {
    World { head_on_integration: true, ..start }
}

/// The world once the two histories are joined and the integration branch
/// stands at `tip`: moved forward to the feature tip, or at a new merge
/// commit.
pub open spec fn joined(start: World, state: Workflow, tip: CommitId) -> World {
    if state.analysis == Some(Analysis::FastForwardable) {
        World { integration_tip: state.feature_tip, ..switched(start) }
    } else {
        World {
            integration_tip: tip,
            merging: false,
            commits: start.commits.push(merge_record(state, tip)),
            ..switched(start)
        }
    }
}

/// `world` after one successful push of the integration branch.
pub open spec fn published(world: World) -> World {
    World {
        published_tip: world.integration_tip,
        publish_attempts: world.publish_attempts + 1,
        publishes: world.publishes + 1,
        ..world
    }
}

/// Whether the run has a plan that joins the histories: moving forward, or
/// a merge commit under the permissive policy.
pub open spec fn joins(state: Workflow) -> bool {
    ||| state.analysis == Some(Analysis::FastForwardable)
    ||| state.analysis == Some(Analysis::Divergent) && state.policy == Policy::Permissive
}

/// Whether `world` is the world that a run which is now in `state` has
/// made of the world `start` it began in.
pub open spec fn reached(start: World, state: Workflow, world: World) -> bool {
    match state.stage {
        Stage::Loading => state.analysis is None && world == start,
        Stage::Confirming => state.analysis is None && world == start,
        Stage::Switching => state.analysis is None && world == start,
        Stage::Analyzing => state.analysis is None && world == switched(start),
        Stage::FastForwarding => {
            &&& state.analysis == Some(Analysis::FastForwardable)
            &&& world == switched(start)
        },
        Stage::Merging => {
            &&& state.analysis == Some(Analysis::Divergent)
            &&& state.policy == Policy::Permissive
            &&& world == switched(start)
        },
        Stage::Committing => {
            &&& state.analysis == Some(Analysis::Divergent)
            &&& state.policy == Policy::Permissive
            &&& world == World { merging: true, ..switched(start) }
        },
        Stage::Clearing => {
            &&& state.analysis == Some(Analysis::Divergent)
            &&& state.policy == Policy::Permissive
            &&& world == World { merging: true, ..joined(start, state, world.integration_tip) }
        },
        Stage::Publishing => {
            &&& joins(state)
            &&& world == joined(start, state, world.integration_tip)
        },
        Stage::DeletingRemote => {
            &&& joins(state)
            &&& world == published(joined(start, state, world.integration_tip))
        },
        Stage::DeletingLocal { remote_deleted } => {
            &&& joins(state)
            &&& world == World {
                remote_branch: start.remote_branch && !remote_deleted,
                delete_attempts: start.delete_attempts + 1,
                ..published(joined(start, state, world.integration_tip))
            }
        },
        Stage::Done { outcome } => match outcome {
            Outcome::Declined => state.analysis is None && world == start,
            Outcome::UpToDate => {
                &&& state.analysis == Some(Analysis::UpToDate)
                &&& world == switched(start)
            },
            Outcome::Landed { remote_deleted, local_deleted } => {
                &&& joins(state)
                &&& world == World {
                    remote_branch: start.remote_branch && !remote_deleted,
                    local_branch: start.local_branch && !local_deleted,
                    delete_attempts: start.delete_attempts + 2,
                    ..published(joined(start, state, world.integration_tip))
                }
            },
            Outcome::Stopped(error) => match error {
                WorkflowError::NotARepository => state.analysis is None && world == start,
                WorkflowError::DetachedHead => state.analysis is None && world == start,
                WorkflowError::IntegrationBranchNotFound => state.analysis is None && world
                    == start,
                WorkflowError::NotFastForward => {
                    &&& state.analysis == Some(Analysis::Divergent)
                    &&& state.policy == Policy::FastForwardOnly
                    &&& world == switched(start)
                },
                WorkflowError::MergeConflict => {
                    &&& state.analysis == Some(Analysis::Divergent)
                    &&& state.policy == Policy::Permissive
                    &&& world == World { merging: true, ..switched(start) }
                },
                WorkflowError::AuthenticationFailed | WorkflowError::PushRejected => {
                    &&& joins(state)
                    &&& world == World {
                        publish_attempts: start.publish_attempts + 1,
                        ..joined(start, state, world.integration_tip)
                    }
                },
                WorkflowError::RemoteDeleteFailed => false,
                WorkflowError::LocalDeleteFailed => false,
            },
        },
    }
}

/// Whether the run has joined the histories: the integration branch has
/// been moved forward or the merge commit has been made.
pub open spec fn has_joined(stage: Stage) -> bool {
    match stage {
        Stage::Clearing => true,
        Stage::Publishing => true,
        Stage::DeletingRemote => true,
        Stage::DeletingLocal { .. } => true,
        Stage::Done { outcome } => match outcome {
            Outcome::Landed { .. } => true,
            Outcome::Stopped(error) => error == WorkflowError::AuthenticationFailed || error
                == WorkflowError::PushRejected,
            _ => false,
        },
        _ => false,
    }
}

/// No answer in `events` is the affirmative one.
pub open spec fn never_confirmed(events: Seq<Event>) -> bool {
    forall|i: int|
        0 <= i < events.len() ==> match #[trigger] events[i] {
            Event::Answered { line } => !affirmative(line@),
            _ => true,
        }
}

/// One accepted report takes a world that fits the state to one that fits
/// the next state.
proof fn step_keeps_reached(start: World, state: Workflow, world: World, event: Event)
    requires
        reached(start, state, world),
        accepts(state, event),
    ensures
        reached(start, next(state, event), effect(world, pending(state), event)),
{
}

/// Every run keeps the world in step with its state: at each point the
/// world is what `reached` says of the state, and so a function of the
/// world at the start and of what the driver reported.
pub proof fn run_reaches(policy: Policy, state: Workflow, start: World, events: Seq<Event>)
    requires
        starts(state, policy),
    ensures
        reached(start, run(state, start, events).0, run(state, start, events).1),
        run(state, start, events).0.policy == policy,
    decreases events.len(),
{
    if events.len() > 0 {
        run_reaches(policy, state, start, events.drop_last());
        let (before, world_before) = run(state, start, events.drop_last());
        if accepts(before, events.last()) {
            step_keeps_reached(start, before, world_before, events.last());
        }
    }
}

/// The stages that a run can be in while the user has not confirmed.
pub open spec fn before_confirmation(stage: Stage) -> bool {
    match stage {
        Stage::Loading => true,
        Stage::Confirming => true,
        Stage::Done { outcome } => match outcome {
            Outcome::Declined => true,
            Outcome::Stopped(error) => error == WorkflowError::NotARepository || error
                == WorkflowError::DetachedHead,
            _ => false,
        },
        _ => false,
    }
}

/// Without the affirmative answer nothing is changed: whatever else the
/// driver reports, the world stays as it was, the run gets no further than
/// the question, and an answer other than the affirmative one ends it as
/// declined, which counts as success.
pub proof fn unconfirmed_run_changes_nothing(
    policy: Policy,
    state: Workflow,
    start: World,
    events: Seq<Event>,
)
    requires
        starts(state, policy),
        never_confirmed(events),
    ensures
        run(state, start, events).1 == start,
        before_confirmation(run(state, start, events).0.stage),
        Outcome::Declined.exit_status() == 0,
    decreases events.len(),
{
    if events.len() > 0 {
        let earlier = events.drop_last();
        assert forall|i: int| 0 <= i < earlier.len() implies match #[trigger] earlier[i] {
            Event::Answered { line } => !affirmative(line@),
            _ => true,
        } by {
            assert(earlier[i] == events[i]);
        }
        unconfirmed_run_changes_nothing(policy, state, start, earlier);
        run_reaches(policy, state, start, earlier);
        let last = events[events.len() - 1];
        assert(last == events.last());
    }
}

/// An answer other than the affirmative one ends the run at once as
/// declined, and the question it answers changes nothing.
pub proof fn decline_ends_run(state: Workflow, world: World, line: String)
    requires
        state.stage == Stage::Confirming,
        !affirmative(line@),
    ensures
        accepts(state, Event::Answered { line }),
        next(state, Event::Answered { line }).stage == (Stage::Done { outcome: Outcome::Declined }),
        effect(world, pending(state), Event::Answered { line }) == world,
{
}

/// Where the feature tip descends from the integration tip, the run moves
/// the integration branch to the feature tip and creates no commit: once
/// the histories are joined the branch stands at the feature tip, and
/// until then it stands where it stood.
pub proof fn fast_forward_moves_branch(
    policy: Policy,
    state: Workflow,
    start: World,
    events: Seq<Event>,
)
    requires
        starts(state, policy),
        run(state, start, events).0.analysis == Some(Analysis::FastForwardable),
    ensures
        ({
            let (end, world) = run(state, start, events);
            &&& world.commits == start.commits
            &&& world.merging == start.merging
            &&& end.stage == Stage::FastForwarding || has_joined(end.stage)
            &&& end.stage == Stage::FastForwarding ==> world.integration_tip
                == start.integration_tip
            &&& has_joined(end.stage) ==> world.integration_tip == end.feature_tip
        }),
{
    run_reaches(policy, state, start, events);
}

/// Where the integration branch already contains the feature tip, the run
/// ends as up to date, which counts as success, and has moved no branch,
/// made no commit, pushed nothing and deleted nothing.
pub proof fn up_to_date_run_stops(
    policy: Policy,
    state: Workflow,
    start: World,
    events: Seq<Event>,
)
    requires
        starts(state, policy),
        run(state, start, events).0.analysis == Some(Analysis::UpToDate),
    ensures
        ({
            let (end, world) = run(state, start, events);
            &&& end.stage == (Stage::Done { outcome: Outcome::UpToDate })
            &&& Outcome::UpToDate.exit_status() == 0
            &&& world == switched(start)
        }),
{
    run_reaches(policy, state, start, events);
}

/// Under the fast-forward-only policy a divergent history ends the run as
/// not fast-forward, which counts as success, and has moved no branch,
/// made no commit, pushed nothing and deleted nothing.
pub proof fn fast_forward_only_refuses_divergence(
    state: Workflow,
    start: World,
    events: Seq<Event>,
)
    requires
        starts(state, Policy::FastForwardOnly),
        run(state, start, events).0.analysis == Some(Analysis::Divergent),
    ensures
        ({
            let (end, world) = run(state, start, events);
            let refusal = Outcome::Stopped(WorkflowError::NotFastForward);
            &&& end.stage == (Stage::Done { outcome: refusal })
            &&& refusal.exit_status() == 0
            &&& world == switched(start)
        }),
{
    run_reaches(Policy::FastForwardOnly, state, start, events);
}

/// Under the permissive policy a divergent history that merges cleanly
/// gets exactly one new commit: its parents are the feature tip and the
/// integration tip of before, its message names the feature branch, and
/// the integration branch points to it.
pub proof fn permissive_merge_commits_once(state: Workflow, start: World, events: Seq<Event>)
    requires
        starts(state, Policy::Permissive),
        run(state, start, events).0.analysis == Some(Analysis::Divergent),
        has_joined(run(state, start, events).0.stage),
    ensures
        ({
            let (end, world) = run(state, start, events);
            let commit = world.commits.last();
            &&& world.commits == start.commits.push(commit)
            &&& commit.parents == seq![end.feature_tip, end.integration_tip]
            &&& commit.message == merge_message_text(end.branch@)
            &&& occurs_in(end.branch@, commit.message)
            &&& commit.id == world.integration_tip
        }),
{
    run_reaches(Policy::Permissive, state, start, events);
    merge_message_names_branch(run(state, start, events).0.branch@);
}

/// A merge that leaves a path in conflict ends the run in failure with no
/// commit made, nothing pushed or deleted, and the merge still in
/// progress.
pub proof fn conflict_leaves_merge_in_progress(
    policy: Policy,
    state: Workflow,
    start: World,
    events: Seq<Event>,
)
    requires
        starts(state, policy),
        run(state, start, events).0.stage == (Stage::Done {
            outcome: Outcome::Stopped(WorkflowError::MergeConflict),
        }),
    ensures
        ({
            let (end, world) = run(state, start, events);
            &&& world == World { merging: true, ..switched(start) }
            &&& Outcome::Stopped(WorkflowError::MergeConflict).exit_status() != 0
        }),
{
    run_reaches(policy, state, start, events);
}

/// A conflicted merge stops the run at once: the report of a conflict
/// ends it as a merge conflict, and the report of a clean merge asks for
/// the commit.
pub proof fn conflict_stops_run(state: Workflow, conflicted: bool)
    requires
        state.stage == Stage::Merging,
    ensures
        accepts(state, Event::Merged { conflicted }),
        next(state, Event::Merged { conflicted }).stage == if conflicted {
            Stage::Done { outcome: Outcome::Stopped(WorkflowError::MergeConflict) }
        } else {
            Stage::Committing
        },
{
}

/// Branches are deleted only after the integration branch was published:
/// a run that has attempted a deletion has pushed successfully before,
/// and a run that ended in a failed push has attempted none and has left
/// both copies of the feature branch as they were.
pub proof fn cleanup_follows_publish(
    policy: Policy,
    state: Workflow,
    start: World,
    events: Seq<Event>,
)
    requires
        starts(state, policy),
    ensures
        ({
            let (end, world) = run(state, start, events);
            let failed_push = end.stage == (Stage::Done {
                outcome: Outcome::Stopped(WorkflowError::AuthenticationFailed),
            }) || end.stage == (Stage::Done {
                outcome: Outcome::Stopped(WorkflowError::PushRejected),
            });
            &&& world.delete_attempts >= start.delete_attempts
            &&& world.delete_attempts > start.delete_attempts ==> world.publishes
                == start.publishes + 1
            &&& world.local_branch != start.local_branch || world.remote_branch
                != start.remote_branch ==> world.publishes == start.publishes + 1
            &&& failed_push ==> world.delete_attempts == start.delete_attempts
                && world.local_branch == start.local_branch && world.remote_branch
                == start.remote_branch && world.publishes == start.publishes
        }),
{
    run_reaches(policy, state, start, events);
}

/// A failed deletion on the remote does not keep the run from deleting the
/// local branch: after the remote deletion was attempted the local one is
/// asked for, whatever the report said.
pub proof fn local_cleanup_follows_remote(state: Workflow, event: Event)
    requires
        state.stage == Stage::DeletingRemote,
        accepts(state, event),
    ensures
        next(state, event).stage is DeletingLocal,
        pending(next(state, event)) is DeleteLocalBranch,
{
}

/// How far a run has come: the stages in the order in which a run passes
/// them, the end last.
pub open spec fn rank(stage: Stage) -> nat {
    match stage {
        Stage::Loading => 0,
        Stage::Confirming => 1,
        Stage::Switching => 2,
        Stage::Analyzing => 3,
        Stage::FastForwarding => 4,
        Stage::Merging => 4,
        Stage::Committing => 5,
        Stage::Clearing => 6,
        Stage::Publishing => 7,
        Stage::DeletingRemote => 8,
        Stage::DeletingLocal { .. } => 9,
        Stage::Done { .. } => 10,
    }
}

/// Every accepted report takes the run forward in the one fixed order of
/// its stages, or ends it: no stage is entered twice.
pub proof fn every_report_advances(state: Workflow, event: Event)
    requires
        accepts(state, event),
    ensures
        rank(next(state, event).stage) > rank(state.stage),
        next(state, event).policy == state.policy,
{
}

} // verus!
