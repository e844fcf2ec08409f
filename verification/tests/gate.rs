use git_land::confirm::is_affirmative;
use git_land::naming::{
    delete_refspec, merge_message, prompt, publish_refspec, HEAD_REF, INTEGRATION_BRANCH,
    INTEGRATION_REF, REMOTE, REPOSITORY_PATH,
};

#[test]
fn the_affirmative_token_is_accepted() {
    assert!(is_affirmative("y"));
    assert!(is_affirmative("y\n"));
}

#[test]
fn every_other_answer_is_a_decline() {
    for line in [
        "", "\n", "n", "n\n", "N", "N\n", "Y", "Y\n", "yes", "yes\n", "y ", "y \n", " y", " y\n",
        "y\t\n", "y\r\n", "y\n\n", "\ny", "yy", "ok", "y\u{0301}",
    ] {
        assert!(!is_affirmative(line), "accepted {:?}", line);
    }
}

#[test]
fn the_prompt_names_the_branch() {
    assert_eq!(prompt("add-feature"), "Do you want to merge add-feature? (y/n) ");
    assert_eq!(prompt(""), "Do you want to merge ? (y/n) ");
}

#[test]
fn the_merge_message_names_both_branches() {
    assert_eq!(merge_message("add-feature"), "Merge add-feature into main");
    assert_eq!(merge_message("fix/№7"), "Merge fix/№7 into main");
    assert!(merge_message("topic").contains("topic"));
}

#[test]
fn the_deletion_refspec_has_an_empty_source() {
    assert_eq!(delete_refspec("add-feature"), ":add-feature");
    assert_eq!(delete_refspec(""), ":");
}

#[test]
fn the_published_refspec_is_the_integration_branch() {
    assert_eq!(publish_refspec(), "refs/heads/main");
}

#[test]
fn the_fixed_names() {
    assert_eq!(INTEGRATION_BRANCH, "main");
    assert_eq!(INTEGRATION_REF, "refs/heads/main");
    assert_eq!(REMOTE, "origin");
    assert_eq!(HEAD_REF, "HEAD");
    assert_eq!(REPOSITORY_PATH, ".");
}
