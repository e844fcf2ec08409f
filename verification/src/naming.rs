//! The fixed names of the workflow and the texts that are built from the
//! feature branch's name.

use vstd::prelude::*;
use vstd::string::*;

verus! {

/// Short name of the branch that feature branches are merged into.
pub const INTEGRATION_BRANCH: &'static str = "main";

/// Full reference name of the integration branch.
pub const INTEGRATION_REF: &'static str = "refs/heads/main";

/// Name of the remote that the result is published to.
pub const REMOTE: &'static str = "origin";

/// The reference that a merge commit is written to.
pub const HEAD_REF: &'static str = "HEAD";

/// Path of the repository the workflow runs in.
pub const REPOSITORY_PATH: &'static str = ".";

/// The question put to the user before anything is changed.
pub open spec fn prompt_text(branch: Seq<char>) -> Seq<char> {
    "Do you want to merge "@ + branch + "? (y/n) "@
}

/// The message of the merge commit for `branch`.
pub open spec fn merge_message_text(branch: Seq<char>) -> Seq<char> {
    "Merge "@ + branch + " into "@ + INTEGRATION_BRANCH@
}

/// The refspec that deletes `branch` on the remote: an empty source pushed
/// onto the branch.
pub open spec fn delete_refspec_text(branch: Seq<char>) -> Seq<char> {
    ":"@ + branch
}

/// Whether `part` occurs in `text` as a contiguous run of characters.
pub open spec fn occurs_in(part: Seq<char>, text: Seq<char>) -> bool {
    exists|i: int|
        0 <= i && i + part.len() <= text.len() && #[trigger] text.subrange(
            i,
            i + part.len() as int,
        ) == part
}

/// Renders the yes/no question that names the branch to be merged.
pub fn prompt(branch: &str) -> (text: String)
    ensures
        text@ == prompt_text(branch@),
{
    let mut text = String::from_str("Do you want to merge ");
    text.append(branch);
    text.append("? (y/n) ");
    text
}

/// Builds the message of the merge commit that joins `branch` to the
/// integration branch.
pub fn merge_message(branch: &str) -> (message: String)
    ensures
        message@ == merge_message_text(branch@),
{
    let mut message = String::from_str("Merge ");
    message.append(branch);
    message.append(" into ");
    message.append(INTEGRATION_BRANCH);
    message
}

/// Builds the refspec whose push removes `branch` from the remote.
pub fn delete_refspec(branch: &str) -> (refspec: String)
    ensures
        refspec@ == delete_refspec_text(branch@),
{
    let mut refspec = String::from_str(":");
    refspec.append(branch);
    refspec
}

/// The refspec whose push publishes the integration branch.
pub fn publish_refspec() -> (refspec: String)
    ensures
        refspec@ == INTEGRATION_REF@,
{
    String::from_str(INTEGRATION_REF)
}

/// The merge message names the branch it merges, whatever the name is.
pub proof fn merge_message_names_branch(branch: Seq<char>)
    ensures
        occurs_in(branch, merge_message_text(branch)),
{
    reveal_strlit("Merge ");
    let text = merge_message_text(branch);
    let n = branch.len() as int;
    assert(text.subrange(6, 6 + n) =~= branch);
}

/// The question put to the user names the branch to be merged.
pub proof fn prompt_names_branch(branch: Seq<char>)
    ensures
        occurs_in(branch, prompt_text(branch)),
{
    reveal_strlit("Do you want to merge ");
    let text = prompt_text(branch);
    let n = branch.len() as int;
    assert(text.subrange(21, 21 + n) =~= branch);
}

/// The deletion refspec has an empty source and names the branch as its
/// destination.
pub proof fn delete_refspec_shape(branch: Seq<char>)
    ensures
        delete_refspec_text(branch).len() == branch.len() + 1,
        delete_refspec_text(branch)[0] == ':',
        delete_refspec_text(branch).subrange(1, branch.len() as int + 1) == branch,
{
    reveal_strlit(":");
    assert(delete_refspec_text(branch).subrange(1, branch.len() as int + 1) =~= branch);
}

} // verus!
