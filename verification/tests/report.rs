use git_land::error::{Outcome, WorkflowError};
use git_land::protocol::{judge_push, CommitId, PushReport};

const ALL: [WorkflowError; 9] = [
    WorkflowError::NotARepository,
    WorkflowError::DetachedHead,
    WorkflowError::IntegrationBranchNotFound,
    WorkflowError::NotFastForward,
    WorkflowError::MergeConflict,
    WorkflowError::AuthenticationFailed,
    WorkflowError::PushRejected,
    WorkflowError::RemoteDeleteFailed,
    WorkflowError::LocalDeleteFailed,
];

#[test]
fn only_the_refusal_is_soft() {
    for error in ALL {
        assert_eq!(error.is_soft(), error == WorkflowError::NotFastForward);
    }
}

#[test]
fn every_condition_has_its_own_message() {
    for (i, a) in ALL.iter().enumerate() {
        assert!(!a.message().is_empty());
        for b in &ALL[i + 1..] {
            assert_ne!(a.message(), b.message());
        }
    }
    assert_eq!(WorkflowError::NotARepository.message(), "No git repository found here.");
    assert_eq!(WorkflowError::PushRejected.message(), "The remote rejected the push.");
}

#[test]
fn a_conflict_tells_the_user_what_is_left_to_do() {
    let text = WorkflowError::MergeConflict.message();
    assert_eq!(
        text,
        "Merge failed with merge conflicts. The merge is left in progress: resolve the conflicts and commit, or abort the merge by hand."
    );
}

#[test]
fn success_exits_with_zero() {
    assert_eq!(Outcome::Declined.exit_code(), 0);
    assert_eq!(Outcome::UpToDate.exit_code(), 0);
    assert_eq!(Outcome::Stopped(WorkflowError::NotFastForward).exit_code(), 0);
    assert_eq!(Outcome::Landed { remote_deleted: true, local_deleted: true }.exit_code(), 0);
}

#[test]
fn failure_exits_with_one() {
    for error in ALL {
        if error != WorkflowError::NotFastForward {
            assert_eq!(Outcome::Stopped(error).exit_code(), 1);
        }
    }
    assert_eq!(Outcome::Landed { remote_deleted: false, local_deleted: true }.exit_code(), 1);
    assert_eq!(Outcome::Landed { remote_deleted: true, local_deleted: false }.exit_code(), 1);
    assert_eq!(Outcome::Landed { remote_deleted: false, local_deleted: false }.exit_code(), 1);
}

#[test]
fn the_conditions_of_each_outcome() {
    assert_eq!(Outcome::Declined.errors(), vec![]);
    assert_eq!(Outcome::UpToDate.errors(), vec![]);
    assert_eq!(Outcome::Landed { remote_deleted: true, local_deleted: true }.errors(), vec![]);
    assert_eq!(
        Outcome::Landed { remote_deleted: false, local_deleted: true }.errors(),
        vec![WorkflowError::RemoteDeleteFailed]
    );
    assert_eq!(
        Outcome::Landed { remote_deleted: true, local_deleted: false }.errors(),
        vec![WorkflowError::LocalDeleteFailed]
    );
    assert_eq!(
        Outcome::Landed { remote_deleted: false, local_deleted: false }.errors(),
        vec![WorkflowError::RemoteDeleteFailed, WorkflowError::LocalDeleteFailed]
    );
    for error in ALL {
        assert_eq!(Outcome::Stopped(error).errors(), vec![error]);
    }
}

#[test]
fn a_push_is_judged_by_its_report() {
    let fine = PushReport { credential_failed: false, completed: true, refused: false };
    assert_eq!(judge_push(fine), None);
    let refused = PushReport { refused: true, ..fine };
    assert_eq!(judge_push(refused), Some(WorkflowError::PushRejected));
    let broken = PushReport { completed: false, ..fine };
    assert_eq!(judge_push(broken), Some(WorkflowError::PushRejected));
    for completed in [false, true] {
        for refused in [false, true] {
            let report = PushReport { credential_failed: true, completed, refused };
            assert_eq!(judge_push(report), Some(WorkflowError::AuthenticationFailed));
        }
    }
}

#[test]
fn the_null_commit_is_all_zeros() {
    assert_eq!(CommitId::zero(), CommitId { bytes: [0; 20] });
}
