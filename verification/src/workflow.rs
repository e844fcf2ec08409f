//! The workflow as a state machine: each state waits for the report on one
//! request, and each report decides the next request.

use crate::analysis::{analysis_of, classify, decide, plan_for, Analysis, Plan, Policy};
use crate::confirm::{affirmative, is_affirmative};
use crate::error::{Outcome, WorkflowError};
use crate::naming::{
    delete_refspec, delete_refspec_text, merge_message, merge_message_text, prompt, prompt_text,
    publish_refspec, HEAD_REF, INTEGRATION_BRANCH, INTEGRATION_REF, REMOTE, REPOSITORY_PATH,
};
use crate::protocol::{judge_push, push_failure, Action, ActionView, CommitId, Event};
use vstd::prelude::*;
use vstd::string::*;

verus! {

/// Where a run stands: the request it is waiting on, or how it ended.
#[derive(Clone, Copy, Debug, PartialEq, Eq, Structural)]
pub enum Stage {
    /// Waiting for the repository and its HEAD.
    Loading,
    /// Waiting for the user's answer.
    Confirming,
    /// Waiting for HEAD to move to the integration branch.
    Switching,
    /// Waiting for the analysis of the two tips.
    Analyzing,
    /// Waiting for the integration branch to move forward.
    FastForwarding,
    /// Waiting for the three-way merge.
    Merging,
    /// Waiting for the merge commit.
    Committing,
    /// Waiting for the merge marker to be removed.
    Clearing,
    /// Waiting for the push of the integration branch.
    Publishing,
    /// Waiting for the feature branch to be deleted on the remote.
    DeletingRemote,
    /// Waiting for the local feature branch to be deleted.
    DeletingLocal { remote_deleted: bool },
    /// The run is over.
    Done { outcome: Outcome },
}

/// One run of the workflow.
#[derive(Clone, Debug, PartialEq, Eq)]
pub struct Workflow {
    /// The merge policy of this run.
    pub policy: Policy,
    /// Where the run stands.
    pub stage: Stage,
    /// Short name of the feature branch; empty until HEAD is resolved.
    pub branch: String,
    /// Tip of the feature branch; null until HEAD is resolved.
    pub feature_tip: CommitId,
    /// Tip of the integration branch as it was when HEAD moved there; null
    /// before.
    pub integration_tip: CommitId,
    /// The analysis of the two tips, once it is known.
    pub analysis: Option<Analysis>,
}

/// The state that ends a run with `outcome`.
pub open spec fn finished(state: Workflow, outcome: Outcome) -> Workflow {
    Workflow { stage: Stage::Done { outcome }, ..state }
}

/// The state in which `state` waits for something else.
pub open spec fn moved(state: Workflow, stage: Stage) -> Workflow {
    Workflow { stage, ..state }
}

/// Whether `event` answers the request that `state` is waiting on.
pub open spec fn accepts(state: Workflow, event: Event) -> bool {
    match state.stage {
        Stage::Loading => match event {
            Event::HeadResolved { .. } => true,
            Event::Failed { error } => error == WorkflowError::NotARepository || error
                == WorkflowError::DetachedHead,
            _ => false,
        },
        Stage::Confirming => event is Answered,
        Stage::Switching => match event {
            Event::Switched { .. } => true,
            Event::Failed { error } => error == WorkflowError::IntegrationBranchNotFound,
            _ => false,
        },
        Stage::Analyzing => event is Analyzed,
        Stage::FastForwarding => event is Done,
        Stage::Merging => event is Merged,
        Stage::Committing => event is Committed,
        Stage::Clearing => event is Done,
        Stage::Publishing => event is Pushed,
        Stage::DeletingRemote => event is Pushed,
        Stage::DeletingLocal { .. } => match event {
            Event::Done => true,
            Event::Failed { error } => error == WorkflowError::LocalDeleteFailed,
            _ => false,
        },
        Stage::Done { .. } => false,
    }
}

/// The state after `event`, for an event that `state` accepts.
pub open spec fn next(state: Workflow, event: Event) -> Workflow {
    match state.stage {
        Stage::Loading => match event {
            Event::HeadResolved { name, is_branch, target } => if is_branch {
                Workflow { stage: Stage::Confirming, branch: name, feature_tip: target, ..state }
            } else {
                finished(state, Outcome::Stopped(WorkflowError::DetachedHead))
            },
            Event::Failed { error } => finished(state, Outcome::Stopped(error)),
            _ => state,
        },
        Stage::Confirming => match event {
            Event::Answered { line } => if affirmative(line@) {
                moved(state, Stage::Switching)
            } else {
                finished(state, Outcome::Declined)
            },
            _ => state,
        },
        Stage::Switching => match event {
            Event::Switched { tip } => Workflow {
                stage: Stage::Analyzing,
                integration_tip: tip,
                ..state
            },
            Event::Failed { error } => finished(state, Outcome::Stopped(error)),
            _ => state,
        },
        Stage::Analyzing => match event {
            Event::Analyzed { relation } => {
                let analysis = analysis_of(relation);
                let stage = match plan_for(state.policy, analysis) {
                    Plan::Nothing => Stage::Done { outcome: Outcome::UpToDate },
                    Plan::FastForward => Stage::FastForwarding,
                    Plan::ThreeWayMerge => Stage::Merging,
                    Plan::Refuse => Stage::Done {
                        outcome: Outcome::Stopped(WorkflowError::NotFastForward),
                    },
                };
                Workflow { stage, analysis: Some(analysis), ..state }
            },
            _ => state,
        },
        Stage::FastForwarding => moved(state, Stage::Publishing),
        Stage::Merging => match event {
            Event::Merged { conflicted } => if conflicted {
                finished(state, Outcome::Stopped(WorkflowError::MergeConflict))
            } else {
                moved(state, Stage::Committing)
            },
            _ => state,
        },
        Stage::Committing => moved(state, Stage::Clearing),
        Stage::Clearing => moved(state, Stage::Publishing),
        Stage::Publishing => match event {
            Event::Pushed { report } => match push_failure(report) {
                Some(error) => finished(state, Outcome::Stopped(error)),
                None => moved(state, Stage::DeletingRemote),
            },
            _ => state,
        },
        Stage::DeletingRemote => match event {
            Event::Pushed { report } => moved(
                state,
                Stage::DeletingLocal { remote_deleted: push_failure(report) is None },
            ),
            _ => state,
        },
        Stage::DeletingLocal { remote_deleted } => finished(
            state,
            Outcome::Landed { remote_deleted, local_deleted: event is Done },
        ),
        Stage::Done { .. } => state,
    }
}

/// The state after `event`: an event that does not answer the pending
/// request changes nothing.
pub open spec fn step(state: Workflow, event: Event) -> Workflow {
    if accepts(state, event) {
        next(state, event)
    } else {
        state
    }
}

/// The request that `state` is waiting on.
pub open spec fn pending(state: Workflow) -> ActionView {
    match state.stage {
        Stage::Loading => ActionView::LoadContext { path: REPOSITORY_PATH@ },
        Stage::Confirming => ActionView::Confirm { prompt: prompt_text(state.branch@) },
        Stage::Switching => ActionView::SwitchBranch { branch: INTEGRATION_BRANCH@ },
        Stage::Analyzing => ActionView::Analyze { tip: state.feature_tip },
        Stage::FastForwarding => ActionView::FastForward {
            reference: INTEGRATION_REF@,
            target: state.feature_tip,
        },
        Stage::Merging => ActionView::Merge { tip: state.feature_tip },
        Stage::Committing => ActionView::Commit {
            update_ref: HEAD_REF@,
            message: merge_message_text(state.branch@),
            first_parent: state.feature_tip,
            second_parent: state.integration_tip,
        },
        Stage::Clearing => ActionView::ClearMergeState,
        Stage::Publishing => ActionView::Push { remote: REMOTE@, refspec: INTEGRATION_REF@ },
        Stage::DeletingRemote => ActionView::DeleteRemoteBranch {
            remote: REMOTE@,
            refspec: delete_refspec_text(state.branch@),
        },
        Stage::DeletingLocal { .. } => ActionView::DeleteLocalBranch { branch: state.branch@ },
        Stage::Done { outcome } => ActionView::Finish { outcome },
    }
}

/// Whether `state` is one in which a run under `policy` begins: nothing is
/// known yet and the repository is still to be loaded.
pub open spec fn starts(state: Workflow, policy: Policy) -> bool {
    &&& state.policy == policy
    &&& state.stage == Stage::Loading
    &&& state.branch@ == Seq::<char>::empty()
    &&& state.feature_tip == CommitId::null()
    &&& state.integration_tip == CommitId::null()
    &&& state.analysis is None
}

impl Workflow {
    /// Begins a run under `policy`.
    pub fn new(policy: Policy) -> (state: Workflow)
        ensures
            starts(state, policy),
    {
        Workflow {
            policy,
            stage: Stage::Loading,
            branch: String::new(),
            feature_tip: CommitId::zero(),
            integration_tip: CommitId::zero(),
            analysis: None,
        }
    }

    /// How the run ended, once it has.
    pub fn outcome(&self) -> (outcome: Option<Outcome>)
        ensures
            outcome == match self.stage {
                Stage::Done { outcome } => Some(outcome),
                _ => None,
            },
    {
        match self.stage {
            Stage::Done { outcome } => Some(outcome),
            _ => None,
        }
    }

    /// The request that the run is waiting on. Once the run is over this is
    /// the request to report its outcome.
    pub fn action(&self) -> (action: Action)
        ensures
            action@ == pending(*self),
    {
        match self.stage {
            Stage::Loading => Action::LoadContext { path: String::from_str(REPOSITORY_PATH) },
            Stage::Confirming => Action::Confirm { prompt: prompt(self.branch.as_str()) },
            Stage::Switching => Action::SwitchBranch {
                branch: String::from_str(INTEGRATION_BRANCH),
            },
            Stage::Analyzing => Action::Analyze { tip: self.feature_tip },
            Stage::FastForwarding => Action::FastForward {
                reference: String::from_str(INTEGRATION_REF),
                target: self.feature_tip,
            },
            Stage::Merging => Action::Merge { tip: self.feature_tip },
            Stage::Committing => Action::Commit {
                update_ref: String::from_str(HEAD_REF),
                message: merge_message(self.branch.as_str()),
                first_parent: self.feature_tip,
                second_parent: self.integration_tip,
            },
            Stage::Clearing => Action::ClearMergeState,
            Stage::Publishing => Action::Push {
                remote: String::from_str(REMOTE),
                refspec: publish_refspec(),
            },
            Stage::DeletingRemote => Action::DeleteRemoteBranch {
                remote: String::from_str(REMOTE),
                refspec: delete_refspec(self.branch.as_str()),
            },
            Stage::DeletingLocal { .. } => Action::DeleteLocalBranch {
                branch: self.branch.clone(),
            },
            Stage::Done { outcome } => Action::Finish { outcome },
        }
    }

    /// Takes the driver's report on the pending request and moves to the
    /// next one. A report that does not answer the pending request is
    /// turned down and changes nothing.
    pub fn advance(&mut self, event: Event) -> (accepted: bool)
        ensures
            accepted == accepts(*old(self), event),
            *final(self) == step(*old(self), event),
    {
        match self.stage {
            Stage::Loading => match event {
                Event::HeadResolved { name, is_branch, target } => {
                    if is_branch {
                        self.branch = name;
                        self.feature_tip = target;
                        self.stage = Stage::Confirming;
                    } else {
                        self.stage = Stage::Done {
                            outcome: Outcome::Stopped(WorkflowError::DetachedHead),
                        };
                    }
                    true
                },
                Event::Failed { error } => match error {
                    WorkflowError::NotARepository | WorkflowError::DetachedHead => {
                        self.stage = Stage::Done { outcome: Outcome::Stopped(error) };
                        true
                    },
                    _ => false,
                },
                _ => false,
            },
            Stage::Confirming => match event {
                Event::Answered { line } => {
                    if is_affirmative(line.as_str()) {
                        self.stage = Stage::Switching;
                    } else {
                        self.stage = Stage::Done { outcome: Outcome::Declined };
                    }
                    true
                },
                _ => false,
            },
            Stage::Switching => match event {
                Event::Switched { tip } => {
                    self.integration_tip = tip;
                    self.stage = Stage::Analyzing;
                    true
                },
                Event::Failed { error } => match error {
                    WorkflowError::IntegrationBranchNotFound => {
                        self.stage = Stage::Done { outcome: Outcome::Stopped(error) };
                        true
                    },
                    _ => false,
                },
                _ => false,
            },
            Stage::Analyzing => match event {
                Event::Analyzed { relation } => {
                    let analysis = classify(relation);
                    self.analysis = Some(analysis);
                    self.stage = match decide(self.policy, analysis) {
                        Plan::Nothing => Stage::Done { outcome: Outcome::UpToDate },
                        Plan::FastForward => Stage::FastForwarding,
                        Plan::ThreeWayMerge => Stage::Merging,
                        Plan::Refuse => Stage::Done {
                            outcome: Outcome::Stopped(WorkflowError::NotFastForward),
                        },
                    };
                    true
                },
                _ => false,
            },
            Stage::FastForwarding => match event {
                Event::Done => {
                    self.stage = Stage::Publishing;
                    true
                },
                _ => false,
            },
            Stage::Merging => match event {
                Event::Merged { conflicted } => {
                    if conflicted {
                        self.stage = Stage::Done {
                            outcome: Outcome::Stopped(WorkflowError::MergeConflict),
                        };
                    } else {
                        self.stage = Stage::Committing;
                    }
                    true
                },
                _ => false,
            },
            Stage::Committing => match event {
                Event::Committed { .. } => {
                    self.stage = Stage::Clearing;
                    true
                },
                _ => false,
            },
            Stage::Clearing => match event {
                Event::Done => {
                    self.stage = Stage::Publishing;
                    true
                },
                _ => false,
            },
            Stage::Publishing => match event {
                Event::Pushed { report } => {
                    match judge_push(report) {
                        Some(error) => {
                            self.stage = Stage::Done { outcome: Outcome::Stopped(error) };
                        },
                        None => {
                            self.stage = Stage::DeletingRemote;
                        },
                    }
                    true
                },
                _ => false,
            },
            Stage::DeletingRemote => match event {
                Event::Pushed { report } => {
                    let remote_deleted = judge_push(report).is_none();
                    self.stage = Stage::DeletingLocal { remote_deleted };
                    true
                },
                _ => false,
            },
            Stage::DeletingLocal { remote_deleted } => match event {
                Event::Done => {
                    self.stage = Stage::Done {
                        outcome: Outcome::Landed { remote_deleted, local_deleted: true },
                    };
                    true
                },
                Event::Failed { error } => match error {
                    WorkflowError::LocalDeleteFailed => {
                        self.stage = Stage::Done {
                            outcome: Outcome::Landed { remote_deleted, local_deleted: false },
                        };
                        true
                    },
                    _ => false,
                },
                _ => false,
            },
            Stage::Done { .. } => false,
        }
    }
}

} // verus!
