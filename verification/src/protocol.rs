//! What the workflow asks of its driver and what the driver reports back.

use crate::analysis::TipRelation;
use crate::error::{Outcome, WorkflowError};
use vstd::prelude::*;

verus! {

/// The identifier of a commit: the twenty bytes of its hash.
#[derive(Clone, Copy, Debug, PartialEq, Eq, Hash)]
pub struct CommitId {
    pub bytes: [u8; 20],
}

impl CommitId {
    /// The identifier of no commit: twenty zero bytes.
    pub open spec fn null() -> CommitId {
        CommitId { bytes: vstd::array::spec_array_fill_for_copy_type::<u8, 20>(0u8) }
    }

    /// The identifier of no commit, which stands where a tip is not known
    /// yet.
    pub fn zero() -> (id: CommitId)
        ensures
            id == CommitId::null(),
            forall|i: int| 0 <= i < 20 ==> id.bytes@[i] == 0,
    {
        broadcast use vstd::array::axiom_spec_array_fill_for_copy_type;

        CommitId { bytes: [0u8; 20] }
    }
}

/// What the driver observed of one push.
#[derive(Clone, Copy, Debug, PartialEq, Eq, Structural)]
pub struct PushReport {
    /// The credential source was asked and produced nothing usable.
    pub credential_failed: bool,
    /// The transfer ran to its end without an error.
    pub completed: bool,
    /// The remote refused to update the reference.
    pub refused: bool,
}

/// A request to the driver.
#[derive(Clone, Debug, PartialEq, Eq)]
pub enum Action {
    /// Open the repository at `path` and resolve HEAD.
    LoadContext { path: String },
    /// Show `prompt` and read one line.
    Confirm { prompt: String },
    /// Resolve the branch and point HEAD at it.
    SwitchBranch { branch: String },
    /// Analyse how the commit stands to HEAD.
    Analyze { tip: CommitId },
    /// Move `reference` to `target`.
    FastForward { reference: String, target: CommitId },
    /// Merge the commit into the index and the working tree.
    Merge { tip: CommitId },
    /// Commit the index onto `update_ref` with the two parents.
    Commit { update_ref: String, message: String, first_parent: CommitId, second_parent: CommitId },
    /// Remove the marker of a merge in progress.
    ClearMergeState,
    /// Push `refspec` to `remote`.
    Push { remote: String, refspec: String },
    /// Push the deleting `refspec` to `remote`.
    DeleteRemoteBranch { remote: String, refspec: String },
    /// Delete the local branch.
    DeleteLocalBranch { branch: String },
    /// Report the outcome and exit.
    Finish { outcome: Outcome },
}

/// The mathematical content of an [`Action`].
pub enum ActionView {
    LoadContext { path: Seq<char> },
    Confirm { prompt: Seq<char> },
    SwitchBranch { branch: Seq<char> },
    Analyze { tip: CommitId },
    FastForward { reference: Seq<char>, target: CommitId },
    Merge { tip: CommitId },
    Commit {
        update_ref: Seq<char>,
        message: Seq<char>,
        first_parent: CommitId,
        second_parent: CommitId,
    },
    ClearMergeState,
    Push { remote: Seq<char>, refspec: Seq<char> },
    DeleteRemoteBranch { remote: Seq<char>, refspec: Seq<char> },
    DeleteLocalBranch { branch: Seq<char> },
    Finish { outcome: Outcome },
}

impl View for Action {
    type V = ActionView;

    open spec fn view(&self) -> ActionView {
        match *self {
            Action::LoadContext { path } => ActionView::LoadContext { path: path@ },
            Action::Confirm { prompt } => ActionView::Confirm { prompt: prompt@ },
            Action::SwitchBranch { branch } => ActionView::SwitchBranch { branch: branch@ },
            Action::Analyze { tip } => ActionView::Analyze { tip },
            Action::FastForward { reference, target } => ActionView::FastForward {
                reference: reference@,
                target,
            },
            Action::Merge { tip } => ActionView::Merge { tip },
            Action::Commit { update_ref, message, first_parent, second_parent } => {
                ActionView::Commit {
                    update_ref: update_ref@,
                    message: message@,
                    first_parent,
                    second_parent,
                }
            },
            Action::ClearMergeState => ActionView::ClearMergeState,
            Action::Push { remote, refspec } => ActionView::Push {
                remote: remote@,
                refspec: refspec@,
            },
            Action::DeleteRemoteBranch { remote, refspec } => ActionView::DeleteRemoteBranch {
                remote: remote@,
                refspec: refspec@,
            },
            Action::DeleteLocalBranch { branch } => ActionView::DeleteLocalBranch {
                branch: branch@,
            },
            Action::Finish { outcome } => ActionView::Finish { outcome },
        }
    }
}

/// A report from the driver on the request it carried out.
#[derive(Clone, Debug, PartialEq, Eq)]
pub enum Event {
    /// HEAD was resolved: the short name of what it points to, whether
    /// that is a branch, and the commit it stands at.
    HeadResolved { name: String, is_branch: bool, target: CommitId },
    /// The user answered with this line.
    Answered { line: String },
    /// HEAD now points at the integration branch, which stands at `tip`.
    Switched { tip: CommitId },
    /// The analysis found this relation of the tips.
    Analyzed { relation: TipRelation },
    /// The merge was carried out; `conflicted` tells whether the index
    /// holds a path in conflict.
    Merged { conflicted: bool },
    /// The commit was created under this identifier.
    Committed { id: CommitId },
    /// The push was attempted, with this result.
    Pushed { report: PushReport },
    /// The request was carried out.
    Done,
    /// The request failed.
    Failed { error: WorkflowError },
}

/// The failure that a push ended in when it publishes the integration
/// branch, if any: a credential that could not be had counts before
/// anything the remote said.
pub open spec fn push_failure(report: PushReport) -> Option<WorkflowError> {
    if report.credential_failed {
        Some(WorkflowError::AuthenticationFailed)
    } else if !report.completed || report.refused {
        Some(WorkflowError::PushRejected)
    } else {
        None
    }
}

/// Judges the report of the push that publishes the integration branch.
pub fn judge_push(report: PushReport) -> (failure: Option<WorkflowError>)
    ensures
        failure == push_failure(report),
{
    if report.credential_failed {
        Some(WorkflowError::AuthenticationFailed)
    } else if !report.completed || report.refused {
        Some(WorkflowError::PushRejected)
    } else {
        None
    }
}

} // verus!
