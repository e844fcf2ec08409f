//! The conditions that stop a run, and how a finished run is reported.

use crate::naming::INTEGRATION_BRANCH;
use vstd::prelude::*;
use vstd::string::*;

verus! {

/// Why a run stopped, or what it could not finish.
#[derive(Clone, Copy, Debug, PartialEq, Eq, Structural)]
pub enum WorkflowError {
    /// No repository was found at the path.
    NotARepository,
    /// HEAD does not point to a branch.
    DetachedHead,
    /// The integration branch does not exist.
    IntegrationBranchNotFound,
    /// The histories have diverged and the policy admits no merge commit.
    NotFastForward,
    /// The merge left at least one path in conflict.
    MergeConflict,
    /// No usable credential was produced for the remote.
    AuthenticationFailed,
    /// The remote did not take the integration branch.
    PushRejected,
    /// The feature branch could not be deleted on the remote.
    RemoteDeleteFailed,
    /// The local feature branch could not be deleted.
    LocalDeleteFailed,
}

/// How a run ended.
#[derive(Clone, Copy, Debug, PartialEq, Eq, Structural)]
pub enum Outcome {
    /// The user did not confirm; nothing was touched.
    Declined,
    /// The integration branch already contained the feature branch.
    UpToDate,
    /// The feature branch was merged and published. The two flags say
    /// which copies of the feature branch were then removed.
    Landed { remote_deleted: bool, local_deleted: bool },
    /// The run stopped early for the reason given.
    Stopped(WorkflowError),
}

impl WorkflowError {
    /// A refusal that the user asked for by choosing the policy, as opposed
    /// to a failure.
    pub open spec fn soft(self) -> bool {
        self == WorkflowError::NotFastForward
    }

    /// The text shown to the user for this condition.
    pub open spec fn message_text(self) -> Seq<char> {
        match self {
            WorkflowError::NotARepository => "No git repository found here."@,
            WorkflowError::DetachedHead => "HEAD is detached: check out the branch to merge."@,
            WorkflowError::IntegrationBranchNotFound => "The integration branch does not exist."@,
            WorkflowError::NotFastForward => "Not a fast-forward: nothing was merged."@,
            WorkflowError::MergeConflict =>
                "Merge failed with merge conflicts. The merge is left in progress: resolve the conflicts and commit, or abort the merge by hand."@,
            WorkflowError::AuthenticationFailed => "Authentication failed: no usable credential."@,
            WorkflowError::PushRejected => "The remote rejected the push."@,
            WorkflowError::RemoteDeleteFailed => "Could not delete the remote branch."@,
            WorkflowError::LocalDeleteFailed => "Could not delete the local branch."@,
        }
    }

    /// Whether this condition is a refusal rather than a failure.
    pub fn is_soft(&self) -> (soft: bool)
        ensures
            soft == self.soft(),
    {
        match self {
            WorkflowError::NotFastForward => true,
            _ => false,
        }
    }

    /// Renders the text shown to the user for this condition.
    pub fn message(&self) -> (text: String)
        ensures
            text@ == self.message_text(),
    {
        match self {
            WorkflowError::NotARepository => String::from_str("No git repository found here."),
            WorkflowError::DetachedHead => String::from_str(
                "HEAD is detached: check out the branch to merge.",
            ),
            WorkflowError::IntegrationBranchNotFound => String::from_str(
                "The integration branch does not exist.",
            ),
            WorkflowError::NotFastForward => String::from_str(
                "Not a fast-forward: nothing was merged.",
            ),
            WorkflowError::MergeConflict => String::from_str(
                "Merge failed with merge conflicts. The merge is left in progress: resolve the conflicts and commit, or abort the merge by hand.",
            ),
            WorkflowError::AuthenticationFailed => String::from_str(
                "Authentication failed: no usable credential.",
            ),
            WorkflowError::PushRejected => String::from_str("The remote rejected the push."),
            WorkflowError::RemoteDeleteFailed => String::from_str(
                "Could not delete the remote branch.",
            ),
            WorkflowError::LocalDeleteFailed => String::from_str(
                "Could not delete the local branch.",
            ),
        }
    }
}

impl Outcome {
    /// The conditions to report for this outcome, in the order in which
    /// they arose.
    pub open spec fn failures(self) -> Seq<WorkflowError> {
        match self {
            Outcome::Declined => seq![],
            Outcome::UpToDate => seq![],
            Outcome::Landed { remote_deleted, local_deleted } => {
                let remote = if remote_deleted {
                    seq![]
                } else {
                    seq![WorkflowError::RemoteDeleteFailed]
                };
                if local_deleted {
                    remote
                } else {
                    remote.push(WorkflowError::LocalDeleteFailed)
                }
            },
            Outcome::Stopped(error) => seq![error],
        }
    }

    /// Whether the process is to report success: nothing failed, though the
    /// run may have been declined or refused.
    pub open spec fn successful(self) -> bool {
        match self {
            Outcome::Declined => true,
            Outcome::UpToDate => true,
            Outcome::Landed { remote_deleted, local_deleted } => remote_deleted && local_deleted,
            Outcome::Stopped(error) => error.soft(),
        }
    }

    /// The process exit status for this outcome.
    pub open spec fn exit_status(self) -> int {
        if self.successful() {
            0
        } else {
            1
        }
    }

    /// Lists the conditions to report for this outcome, in the order in
    /// which they arose.
    pub fn errors(&self) -> (list: Vec<WorkflowError>)
        ensures
            list@ == self.failures(),
    {
        let mut list: Vec<WorkflowError> = Vec::new();
        match self {
            Outcome::Declined => {},
            Outcome::UpToDate => {},
            Outcome::Landed { remote_deleted, local_deleted } => {
                if !*remote_deleted {
                    list.push(WorkflowError::RemoteDeleteFailed);
                }
                if !*local_deleted {
                    list.push(WorkflowError::LocalDeleteFailed);
                }
            },
            Outcome::Stopped(error) => {
                list.push(*error);
            },
        }
        assert(list@ =~= self.failures());
        list
    }

    /// Computes the process exit status: zero unless something failed.
    pub fn exit_code(&self) -> (code: i32)
        ensures
            code == self.exit_status(),
    {
        match self {
            Outcome::Declined => 0,
            Outcome::UpToDate => 0,
            Outcome::Landed { remote_deleted, local_deleted } => {
                if *remote_deleted && *local_deleted {
                    0
                } else {
                    1
                }
            },
            Outcome::Stopped(error) => {
                if error.is_soft() {
                    0
                } else {
                    1
                }
            },
        }
    }
}

/// A run reports success exactly when every condition it has to report is
/// a refusal and none a failure.
pub proof fn success_means_no_failure(outcome: Outcome)
    ensures
        outcome.successful() <==> forall|i: int|
            0 <= i < outcome.failures().len() ==> (#[trigger] outcome.failures()[i]).soft(),
{
    match outcome {
        Outcome::Landed { remote_deleted, local_deleted } => {
            if !(remote_deleted && local_deleted) {
                assert(!outcome.failures().last().soft());
            }
        },
        Outcome::Stopped(error) => {
            assert(outcome.failures()[0] == error);
        },
        _ => {},
    }
}

} // verus!
