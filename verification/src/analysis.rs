//! How the feature branch stands to the integration branch, and what the
//! merge policy makes of it.

use vstd::prelude::*;
use vstd::string::*;

verus! {

/// A flag in the result of the repository library's merge analysis.
pub enum AnalysisFlag {
    /// Every commit of the analysed branch is reachable from HEAD.
    UpToDate,
    /// HEAD can be moved forward to the analysed branch.
    FastForward,
}

/// `git2::MergeAnalysis`, the result of libgit2's merge analysis: a set of
/// bit flags, of which nothing but its type is declared here.
#[verifier::external_type_specification]
#[verifier::external_body]
pub struct ExMergeAnalysis(git2::MergeAnalysis);

/// The flags that a result of libgit2's merge analysis holds.
pub uninterp spec fn held_flags(result: git2::MergeAnalysis) -> Set<AnalysisFlag>;

/// `git2::MergeAnalysis::is_up_to_date` answers whether the result holds
/// the up-to-date flag.
pub assume_specification[ git2::MergeAnalysis::is_up_to_date ](
    result: &git2::MergeAnalysis,
) -> (held: bool)
    ensures
        held == held_flags(*result).contains(AnalysisFlag::UpToDate),
;

/// `git2::MergeAnalysis::is_fast_forward` answers whether the result holds
/// the fast-forward flag.
pub assume_specification[ git2::MergeAnalysis::is_fast_forward ](
    result: &git2::MergeAnalysis,
) -> (held: bool)
    ensures
        held == held_flags(*result).contains(AnalysisFlag::FastForward),
;

/// What is known of the two branch tips' ancestry.
#[derive(Clone, Copy, Debug, PartialEq, Eq, Structural)]
pub struct TipRelation {
    /// The feature tip is the integration tip or one of its ancestors.
    pub merged: bool,
    /// The integration tip is an ancestor of the feature tip and differs
    /// from it.
    pub ahead: bool,
}

/// The three ways the feature branch can stand to the integration branch.
#[derive(Clone, Copy, Debug, PartialEq, Eq, Structural)]
pub enum Analysis {
    /// The integration branch already contains the feature branch.
    UpToDate,
    /// The integration branch can be moved forward to the feature tip.
    FastForwardable,
    /// Each branch has commits that the other lacks.
    Divergent,
}

/// Which histories the workflow is willing to join.
#[derive(Clone, Copy, Debug, PartialEq, Eq, Structural)]
pub enum Policy {
    /// Only move the integration branch forward; refuse divergent histories.
    FastForwardOnly,
    /// Move forward where possible, otherwise merge with a merge commit.
    Permissive,
}

/// What the workflow does once the analysis is known.
#[derive(Clone, Copy, Debug, PartialEq, Eq, Structural)]
pub enum Plan {
    /// Nothing to merge: stop and report success.
    Nothing,
    /// Move the integration branch to the feature tip.
    FastForward,
    /// Merge the two histories and commit the result.
    ThreeWayMerge,
    /// Refuse: the policy admits no merge commit.
    Refuse,
}

/// The name by which the fast-forward-only policy is configured.
pub const FAST_FORWARD_ONLY_NAME: &'static str = "fast-forward-only";

/// The name by which the permissive policy is configured.
pub const PERMISSIVE_NAME: &'static str = "permissive";

/// The policy that goes by `name`, if there is one.
pub open spec fn policy_named(name: Seq<char>) -> Option<Policy> {
    if name == FAST_FORWARD_ONLY_NAME@ {
        Some(Policy::FastForwardOnly)
    } else if name == PERMISSIVE_NAME@ {
        Some(Policy::Permissive)
    } else {
        None
    }
}

/// The analysis that a relation of the tips amounts to. A branch that is
/// already contained needs nothing, whatever else is reported; one that is
/// ahead can be fast-forwarded; every other pair of tips is divergent.
pub open spec fn analysis_of(relation: TipRelation) -> Analysis {
    if relation.merged {
        Analysis::UpToDate
    } else if relation.ahead {
        Analysis::FastForwardable
    } else {
        Analysis::Divergent
    }
}

/// The plan that `policy` prescribes for `analysis`.
pub open spec fn plan_for(policy: Policy, analysis: Analysis) -> Plan {
    match analysis {
        Analysis::UpToDate => Plan::Nothing,
        Analysis::FastForwardable => Plan::FastForward,
        Analysis::Divergent => match policy {
            Policy::FastForwardOnly => Plan::Refuse,
            Policy::Permissive => Plan::ThreeWayMerge,
        },
    }
}

/// Reads the relation of the tips off the repository library's analysis of
/// the feature branch against HEAD, taken while HEAD is on the integration
/// branch.
pub fn relation_of(analysis: &git2::MergeAnalysis) -> (relation: TipRelation)
    ensures
        relation.merged == held_flags(*analysis).contains(AnalysisFlag::UpToDate),
        relation.ahead == held_flags(*analysis).contains(AnalysisFlag::FastForward),
{
    TipRelation { merged: analysis.is_up_to_date(), ahead: analysis.is_fast_forward() }
}

impl Policy {
    /// Reads a policy from the name it is configured by. Names are matched
    /// to the letter.
    pub fn from_name(name: &str) -> (policy: Option<Policy>)
        ensures
            policy == policy_named(name@),
    {
        let given = String::from_str(name);
        if given == String::from_str(FAST_FORWARD_ONLY_NAME) {
            Some(Policy::FastForwardOnly)
        } else if given == String::from_str(PERMISSIVE_NAME) {
            Some(Policy::Permissive)
        } else {
            None
        }
    }
}

/// Classifies the relation of the two tips.
pub fn classify(relation: TipRelation) -> (analysis: Analysis)
    ensures
        analysis == analysis_of(relation),
{
    if relation.merged {
        Analysis::UpToDate
    } else if relation.ahead {
        Analysis::FastForwardable
    } else {
        Analysis::Divergent
    }
}

/// Selects what to do with an analysed branch under a policy.
pub fn decide(policy: Policy, analysis: Analysis) -> (plan: Plan)
    ensures
        plan == plan_for(policy, analysis),
{
    match analysis {
        Analysis::UpToDate => Plan::Nothing,
        Analysis::FastForwardable => Plan::FastForward,
        Analysis::Divergent => match policy {
            Policy::FastForwardOnly => Plan::Refuse,
            Policy::Permissive => Plan::ThreeWayMerge,
        },
    }
}

/// No policy changes anything for a branch that is already contained, and
/// none makes a merge commit where moving forward is enough.
pub proof fn plan_ignores_policy_without_divergence(policy: Policy, relation: TipRelation)
    ensures
        relation.merged ==> plan_for(policy, analysis_of(relation)) == Plan::Nothing,
        !relation.merged && relation.ahead ==> plan_for(policy, analysis_of(relation))
            == Plan::FastForward,
{
}

/// A merge commit is planned only for a divergent history under the
/// permissive policy, and a refusal only for one under the other policy.
pub proof fn plan_for_divergence(policy: Policy, analysis: Analysis)
    ensures
        plan_for(policy, analysis) == Plan::ThreeWayMerge <==> analysis == Analysis::Divergent
            && policy == Policy::Permissive,
        plan_for(policy, analysis) == Plan::Refuse <==> analysis == Analysis::Divergent
            && policy == Policy::FastForwardOnly,
{
}

} // verus!
