//! A model of what the workflow's requests do to the repository and its
//! remote, and of a whole run against it.

use crate::protocol::{push_failure, ActionView, CommitId, Event};
use crate::workflow::{accepts, next, pending, Workflow};
use vstd::prelude::*;

verus! {

/// A commit as the model records it.
pub struct CommitRecord {
    pub id: CommitId,
    pub message: Seq<char>,
    pub parents: Seq<CommitId>,
}

/// The part of the repository and of its remote that a run can change,
/// with a count of what was attempted.
pub struct World {
    /// HEAD points at the integration branch.
    pub head_on_integration: bool,
    /// The commit that the integration branch points to.
    pub integration_tip: CommitId,
    /// A merge is in progress.
    pub merging: bool,
    /// The commits created so far, oldest first.
    pub commits: Seq<CommitRecord>,
    /// The commit that the remote's integration branch points to.
    pub published_tip: CommitId,
    /// The feature branch exists locally.
    pub local_branch: bool,
    /// The feature branch exists on the remote.
    pub remote_branch: bool,
    /// How often a push of the integration branch was attempted.
    pub publish_attempts: nat,
    /// How often such a push succeeded.
    pub publishes: nat,
    /// How often the deletion of a branch was attempted, remote or local.
    pub delete_attempts: nat,
}

/// The world after the driver carried out `action` and reported `reply`.
/// A request that failed has changed nothing but the count of attempts.
pub open spec fn effect(world: World, action: ActionView, reply: Event) -> World {
    match action {
        ActionView::SwitchBranch { .. } => if reply is Switched {
            World { head_on_integration: true, ..world }
        } else {
            world
        },
        ActionView::FastForward { target, .. } => if reply is Done {
            World { integration_tip: target, ..world }
        } else {
            world
        },
        ActionView::Merge { .. } => if reply is Merged {
            World { merging: true, ..world }
        } else {
            world
        },
        ActionView::Commit { message, first_parent, second_parent, .. } => match reply {
            Event::Committed { id } => World {
                integration_tip: id,
                commits: world.commits.push(
                    CommitRecord { id, message, parents: seq![first_parent, second_parent] },
                ),
                ..world
            },
            _ => world,
        },
        ActionView::ClearMergeState => if reply is Done {
            World { merging: false, ..world }
        } else {
            world
        },
        ActionView::Push { .. } => if succeeded(reply) {
            World {
                published_tip: world.integration_tip,
                publish_attempts: world.publish_attempts + 1,
                publishes: world.publishes + 1,
                ..world
            }
        } else {
            World { publish_attempts: world.publish_attempts + 1, ..world }
        },
        ActionView::DeleteRemoteBranch { .. } => World {
            remote_branch: world.remote_branch && !succeeded(reply),
            delete_attempts: world.delete_attempts + 1,
            ..world
        },
        ActionView::DeleteLocalBranch { .. } => World {
            local_branch: world.local_branch && !succeeded(reply),
            delete_attempts: world.delete_attempts + 1,
            ..world
        },
        _ => world,
    }
}

/// Whether `reply` reports that a push or a deletion went through.
pub open spec fn succeeded(reply: Event) -> bool {
    match reply {
        Event::Pushed { report } => push_failure(report) is None,
        Event::Done => true,
        _ => false,
    }
}

/// The state and the world after the driver has delivered `events` in turn,
/// each the report on the request that was pending when it came. A report
/// that the state turns down changes neither.
pub open spec fn run(state: Workflow, world: World, events: Seq<Event>) -> (Workflow, World)
    decreases events.len(),
{
    if events.len() == 0 {
        (state, world)
    } else {
        let (before, world_before) = run(state, world, events.drop_last());
        let event = events.last();
        if accepts(before, event) {
            (next(before, event), effect(world_before, pending(before), event))
        } else {
            (before, world_before)
        }
    }
}

} // verus!
