use git_land::analysis::{Policy, TipRelation};
use git_land::error::{Outcome, WorkflowError};
use git_land::protocol::{Action, CommitId, Event, PushReport};
use git_land::workflow::Workflow;

fn commit(byte: u8) -> CommitId {
    CommitId { bytes: [byte; 20] }
}

const FINE: PushReport = PushReport { credential_failed: false, completed: true, refused: false };

/// A repository and a remote that answer the workflow's requests from a
/// script and record what was done to them.
#[derive(Clone, Debug, PartialEq)]
struct Sandbox {
    // the script
    present: bool,
    head: Option<(String, CommitId)>,
    main_exists: bool,
    answer: String,
    relation: TipRelation,
    conflicted: bool,
    new_commit: CommitId,
    push: PushReport,
    remote_delete: PushReport,
    local_delete_works: bool,
    // the state
    head_on_main: bool,
    main: CommitId,
    merging: bool,
    commits: Vec<(CommitId, String, Vec<CommitId>)>,
    remote_main: CommitId,
    local_branches: Vec<String>,
    remote_branches: Vec<String>,
    log: Vec<Action>,
}

fn sandbox(feature: CommitId, main: CommitId, relation: TipRelation) -> Sandbox {
    Sandbox {
        present: true,
        head: Some(("add-feature".to_string(), feature)),
        main_exists: true,
        answer: "y\n".to_string(),
        relation,
        conflicted: false,
        new_commit: commit(0xcc),
        push: FINE,
        remote_delete: FINE,
        local_delete_works: true,
        head_on_main: false,
        main,
        merging: false,
        commits: vec![],
        remote_main: main,
        local_branches: vec!["main".to_string(), "add-feature".to_string()],
        remote_branches: vec!["main".to_string(), "add-feature".to_string()],
        log: vec![],
    }
}

fn went_through(report: PushReport) -> bool {
    !report.credential_failed && report.completed && !report.refused
}

fn perform(world: &mut Sandbox, action: &Action) -> Event {
    world.log.push(action.clone());
    match action {
        Action::LoadContext { path } => {
            assert_eq!(path, ".");
            if !world.present {
                return Event::Failed { error: WorkflowError::NotARepository };
            }
            match &world.head {
                Some((name, tip)) => {
                    Event::HeadResolved { name: name.clone(), is_branch: true, target: *tip }
                }
                None => Event::HeadResolved {
                    name: "HEAD".to_string(),
                    is_branch: false,
                    target: commit(0xdd),
                },
            }
        }
        Action::Confirm { .. } => Event::Answered { line: world.answer.clone() },
        Action::SwitchBranch { branch } => {
            assert_eq!(branch, "main");
            if world.main_exists {
                world.head_on_main = true;
                Event::Switched { tip: world.main }
            } else {
                Event::Failed { error: WorkflowError::IntegrationBranchNotFound }
            }
        }
        Action::Analyze { .. } => Event::Analyzed { relation: world.relation },
        Action::FastForward { reference, target } => {
            assert_eq!(reference, "refs/heads/main");
            world.main = *target;
            Event::Done
        }
        Action::Merge { .. } => {
            world.merging = true;
            Event::Merged { conflicted: world.conflicted }
        }
        Action::Commit { update_ref, message, first_parent, second_parent } => {
            assert_eq!(update_ref, "HEAD");
            assert!(world.head_on_main);
            world.commits.push((
                world.new_commit,
                message.clone(),
                vec![*first_parent, *second_parent],
            ));
            world.main = world.new_commit;
            Event::Committed { id: world.new_commit }
        }
        Action::ClearMergeState => {
            world.merging = false;
            Event::Done
        }
        Action::Push { remote, refspec } => {
            assert_eq!(remote, "origin");
            assert_eq!(refspec, "refs/heads/main");
            if went_through(world.push) {
                world.remote_main = world.main;
            }
            Event::Pushed { report: world.push }
        }
        Action::DeleteRemoteBranch { remote, refspec } => {
            assert_eq!(remote, "origin");
            let name = refspec.strip_prefix(':').unwrap().to_string();
            if went_through(world.remote_delete) {
                world.remote_branches.retain(|b| *b != name);
            }
            Event::Pushed { report: world.remote_delete }
        }
        Action::DeleteLocalBranch { branch } => {
            if world.local_delete_works {
                world.local_branches.retain(|b| b != branch);
                Event::Done
            } else {
                Event::Failed { error: WorkflowError::LocalDeleteFailed }
            }
        }
        Action::Finish { .. } => unreachable!(),
    }
}

fn land(policy: Policy, mut world: Sandbox) -> (Outcome, Sandbox) {
    let mut run = Workflow::new(policy);
    for _ in 0..32 {
        let action = run.action();
        if let Action::Finish { outcome } = action {
            assert_eq!(run.outcome(), Some(outcome));
            return (outcome, world);
        }
        let event = perform(&mut world, &action);
        assert!(run.advance(event));
    }
    panic!("the run did not end");
}

fn kinds(log: &[Action]) -> Vec<&'static str> {
    log.iter()
        .map(|action| match action {
            Action::LoadContext { .. } => "load",
            Action::Confirm { .. } => "confirm",
            Action::SwitchBranch { .. } => "switch",
            Action::Analyze { .. } => "analyze",
            Action::FastForward { .. } => "fast-forward",
            Action::Merge { .. } => "merge",
            Action::Commit { .. } => "commit",
            Action::ClearMergeState => "clear",
            Action::Push { .. } => "push",
            Action::DeleteRemoteBranch { .. } => "delete-remote",
            Action::DeleteLocalBranch { .. } => "delete-local",
            Action::Finish { .. } => "finish",
        })
        .collect()
}

const AHEAD: TipRelation = TipRelation { merged: false, ahead: true };
const DIVERGED: TipRelation = TipRelation { merged: false, ahead: false };
const MERGED: TipRelation = TipRelation { merged: true, ahead: false };

fn branches(names: &[&str]) -> Vec<String> {
    names.iter().map(|n| n.to_string()).collect()
}

#[test]
fn a_branch_one_commit_ahead_is_fast_forwarded_pushed_and_deleted() {
    let before = sandbox(commit(2), commit(1), AHEAD);
    for policy in [Policy::FastForwardOnly, Policy::Permissive] {
        let (outcome, after) = land(policy, before.clone());
        assert_eq!(outcome, Outcome::Landed { remote_deleted: true, local_deleted: true });
        assert_eq!(outcome.exit_code(), 0);
        assert_eq!(
            kinds(&after.log),
            ["load", "confirm", "switch", "analyze", "fast-forward", "push", "delete-remote", "delete-local"]
        );
        assert_eq!(after.main, commit(2));
        assert_eq!(after.remote_main, commit(2));
        assert!(after.commits.is_empty());
        assert!(!after.merging);
        assert_eq!(after.local_branches, branches(&["main"]));
        assert_eq!(after.remote_branches, branches(&["main"]));
    }
}

#[test]
fn independent_work_on_both_branches_is_merged_with_a_merge_commit() {
    let before = sandbox(commit(2), commit(3), DIVERGED);
    let (outcome, after) = land(Policy::Permissive, before);
    assert_eq!(outcome, Outcome::Landed { remote_deleted: true, local_deleted: true });
    assert_eq!(
        kinds(&after.log),
        ["load", "confirm", "switch", "analyze", "merge", "commit", "clear", "push", "delete-remote", "delete-local"]
    );
    assert_eq!(
        after.commits,
        vec![(
            commit(0xcc),
            "Merge add-feature into main".to_string(),
            vec![commit(2), commit(3)]
        )]
    );
    assert_eq!(after.main, commit(0xcc));
    assert_eq!(after.remote_main, commit(0xcc));
    assert!(!after.merging);
    assert_eq!(after.local_branches, branches(&["main"]));
    assert_eq!(after.remote_branches, branches(&["main"]));
}

#[test]
fn conflicting_work_stops_the_run_with_the_merge_in_progress() {
    let mut before = sandbox(commit(2), commit(3), DIVERGED);
    before.conflicted = true;
    let (outcome, after) = land(Policy::Permissive, before);
    assert_eq!(outcome, Outcome::Stopped(WorkflowError::MergeConflict));
    assert_eq!(outcome.exit_code(), 1);
    assert_eq!(kinds(&after.log), ["load", "confirm", "switch", "analyze", "merge"]);
    assert!(after.commits.is_empty());
    assert!(after.merging);
    assert_eq!(after.main, commit(3));
    assert_eq!(after.remote_main, commit(3));
    assert_eq!(after.local_branches, branches(&["main", "add-feature"]));
    assert_eq!(after.remote_branches, branches(&["main", "add-feature"]));
}

#[test]
fn a_decline_leaves_the_repository_as_it_was() {
    for answer in ["", "n", "N", "yes", "y \n", "y\t\n", " y\n", "n\n", "\n"] {
        for relation in [AHEAD, DIVERGED, MERGED] {
            let mut before = sandbox(commit(2), commit(1), relation);
            before.answer = answer.to_string();
            let (outcome, after) = land(Policy::Permissive, before.clone());
            assert_eq!(outcome, Outcome::Declined);
            assert_eq!(outcome.exit_code(), 0);
            assert_eq!(kinds(&after.log), ["load", "confirm"]);
            let untouched = Sandbox { log: vec![], ..after };
            assert_eq!(untouched, before);
        }
    }
}

#[test]
fn an_up_to_date_branch_changes_no_branch() {
    for policy in [Policy::FastForwardOnly, Policy::Permissive] {
        let before = sandbox(commit(1), commit(2), MERGED);
        let (outcome, after) = land(policy, before.clone());
        assert_eq!(outcome, Outcome::UpToDate);
        assert_eq!(outcome.exit_code(), 0);
        assert_eq!(kinds(&after.log), ["load", "confirm", "switch", "analyze"]);
        let expected = Sandbox { head_on_main: true, ..before };
        assert_eq!(Sandbox { log: vec![], ..after }, expected);
    }
}

#[test]
fn equal_tips_are_up_to_date() {
    let before = sandbox(commit(5), commit(5), MERGED);
    let (outcome, after) = land(Policy::Permissive, before);
    assert_eq!(outcome, Outcome::UpToDate);
    assert_eq!(after.main, commit(5));
    assert_eq!(after.local_branches, branches(&["main", "add-feature"]));
}

#[test]
fn divergence_under_the_fast_forward_only_policy_changes_no_branch() {
    let before = sandbox(commit(2), commit(3), DIVERGED);
    let (outcome, after) = land(Policy::FastForwardOnly, before.clone());
    assert_eq!(outcome, Outcome::Stopped(WorkflowError::NotFastForward));
    assert_eq!(outcome.exit_code(), 0);
    assert_eq!(kinds(&after.log), ["load", "confirm", "switch", "analyze"]);
    let expected = Sandbox { head_on_main: true, ..before };
    assert_eq!(Sandbox { log: vec![], ..after }, expected);
}

#[test]
fn a_failed_push_deletes_nothing() {
    let reports = [
        (PushReport { credential_failed: true, ..FINE }, WorkflowError::AuthenticationFailed),
        (PushReport { refused: true, ..FINE }, WorkflowError::PushRejected),
        (PushReport { completed: false, ..FINE }, WorkflowError::PushRejected),
    ];
    for (report, error) in reports {
        for relation in [AHEAD, DIVERGED] {
            let mut before = sandbox(commit(2), commit(1), relation);
            before.push = report;
            let (outcome, after) = land(Policy::Permissive, before);
            assert_eq!(outcome, Outcome::Stopped(error));
            assert_eq!(outcome.exit_code(), 1);
            assert_eq!(kinds(&after.log).last(), Some(&"push"));
            assert!(!kinds(&after.log).contains(&"delete-remote"));
            assert!(!kinds(&after.log).contains(&"delete-local"));
            assert_eq!(after.remote_main, commit(1));
            assert_eq!(after.local_branches, branches(&["main", "add-feature"]));
            assert_eq!(after.remote_branches, branches(&["main", "add-feature"]));
        }
    }
}

#[test]
fn deletions_come_only_after_the_push() {
    for policy in [Policy::FastForwardOnly, Policy::Permissive] {
        for relation in [AHEAD, DIVERGED, MERGED] {
            for conflicted in [false, true] {
                for push in [FINE, PushReport { refused: true, ..FINE }] {
                    let mut before = sandbox(commit(2), commit(1), relation);
                    before.conflicted = conflicted;
                    before.push = push;
                    let (_, after) = land(policy, before);
                    let log = kinds(&after.log);
                    let pushed = log.iter().position(|k| *k == "push");
                    for (i, kind) in log.iter().enumerate() {
                        if kind.starts_with("delete") {
                            assert!(went_through(push));
                            assert!(pushed.unwrap() < i);
                        }
                    }
                }
            }
        }
    }
}

#[test]
fn a_failed_remote_deletion_keeps_the_merge_and_deletes_locally() {
    let mut before = sandbox(commit(2), commit(1), AHEAD);
    before.remote_delete = PushReport { refused: true, ..FINE };
    let (outcome, after) = land(Policy::Permissive, before);
    assert_eq!(outcome, Outcome::Landed { remote_deleted: false, local_deleted: true });
    assert_eq!(outcome.errors(), vec![WorkflowError::RemoteDeleteFailed]);
    assert_eq!(outcome.exit_code(), 1);
    assert_eq!(after.main, commit(2));
    assert_eq!(after.remote_main, commit(2));
    assert_eq!(after.remote_branches, branches(&["main", "add-feature"]));
    assert_eq!(after.local_branches, branches(&["main"]));
}

#[test]
fn a_failed_local_deletion_keeps_the_merge() {
    let mut before = sandbox(commit(2), commit(1), AHEAD);
    before.local_delete_works = false;
    let (outcome, after) = land(Policy::Permissive, before);
    assert_eq!(outcome, Outcome::Landed { remote_deleted: true, local_deleted: false });
    assert_eq!(outcome.errors(), vec![WorkflowError::LocalDeleteFailed]);
    assert_eq!(after.main, commit(2));
    assert_eq!(after.remote_branches, branches(&["main"]));
    assert_eq!(after.local_branches, branches(&["main", "add-feature"]));
}

#[test]
fn both_deletions_can_fail() {
    let mut before = sandbox(commit(2), commit(1), AHEAD);
    before.remote_delete = PushReport { credential_failed: true, ..FINE };
    before.local_delete_works = false;
    let (outcome, _) = land(Policy::Permissive, before);
    assert_eq!(outcome, Outcome::Landed { remote_deleted: false, local_deleted: false });
    assert_eq!(
        outcome.errors(),
        vec![WorkflowError::RemoteDeleteFailed, WorkflowError::LocalDeleteFailed]
    );
}

#[test]
fn no_repository_means_no_question() {
    let mut before = sandbox(commit(2), commit(1), AHEAD);
    before.present = false;
    let (outcome, after) = land(Policy::Permissive, before);
    assert_eq!(outcome, Outcome::Stopped(WorkflowError::NotARepository));
    assert_eq!(kinds(&after.log), ["load"]);
}

#[test]
fn a_detached_head_means_no_question() {
    let mut before = sandbox(commit(2), commit(1), AHEAD);
    before.head = None;
    let (outcome, after) = land(Policy::Permissive, before);
    assert_eq!(outcome, Outcome::Stopped(WorkflowError::DetachedHead));
    assert_eq!(kinds(&after.log), ["load"]);
}

#[test]
fn a_missing_integration_branch_changes_nothing() {
    let mut before = sandbox(commit(2), commit(1), AHEAD);
    before.main_exists = false;
    let (outcome, after) = land(Policy::Permissive, before.clone());
    assert_eq!(outcome, Outcome::Stopped(WorkflowError::IntegrationBranchNotFound));
    assert_eq!(kinds(&after.log), ["load", "confirm", "switch"]);
    assert_eq!(Sandbox { log: vec![], ..after }, before);
}
