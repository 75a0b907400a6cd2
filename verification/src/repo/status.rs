//! The aggregated status of one repository and the issue decision.

use vstd::prelude::*;

use crate::git::status::{GitStatus, GitStatusView};
use crate::github::pr::{PullRequestInfo, PullRequestInfoView};
use crate::repo::filters::{filters_at_most, RepoFilters};
use crate::text::str_eq;

verus! {

/// Everything the scan found out about one repository: the local findings,
/// the branch warning if any, and the open pull requests that count.
pub struct RepoStatus {
    pub untracked_files: bool,
    pub unstaged_changes: bool,
    pub ahead_of_remote: bool,
    pub missing_remote: bool,
    pub non_default_branch: Option<String>,
    pub open_prs: Vec<PullRequestInfo>,
}

/// The mathematical value of a [`RepoStatus`].
#[verifier::ext_equal]
pub struct RepoStatusView {
    pub untracked_files: bool,
    pub unstaged_changes: bool,
    pub ahead_of_remote: bool,
    pub missing_remote: bool,
    pub non_default_branch: Option<Seq<char>>,
    pub open_prs: Seq<PullRequestInfoView>,
}

impl View for RepoStatus {
    type V = RepoStatusView;

    open spec fn view(&self) -> RepoStatusView {
        RepoStatusView {
            untracked_files: self.untracked_files,
            unstaged_changes: self.unstaged_changes,
            ahead_of_remote: self.ahead_of_remote,
            missing_remote: self.missing_remote,
            non_default_branch: match self.non_default_branch {
                Some(b) => Some(b@),
                None => None,
            },
            open_prs: self.open_prs.deep_view(),
        }
    }
}

impl DeepView for RepoStatus {
    type V = RepoStatusView;

    open spec fn deep_view(&self) -> RepoStatusView {
        self.view()
    }
}

/// The branch name stands in the protected set.
pub open spec fn spec_contains_branch(protected: Seq<Seq<char>>, branch: Seq<char>) -> bool {
    exists|i: int| 0 <= i < protected.len() && protected[i] == branch
}

/// The branch warning: the branch name, exactly where the repository is off
/// its default branch *and* that branch is not protected. Protection
/// suppresses the warning entirely.
pub open spec fn spec_non_default_branch(
    is_default: bool,
    branch: Seq<char>,
    protected: Seq<Seq<char>>,
) -> Option<Seq<char>> {
    if !is_default && !spec_contains_branch(protected, branch) {
        Some(branch)
    } else {
        None
    }
}

/// The aggregation of one repository's findings: the four local booleans are
/// copied verbatim, the branch warning follows [`spec_non_default_branch`],
/// and the pull requests are attached as given.
pub open spec fn spec_aggregate(
    git_status: GitStatusView,
    prs: Seq<PullRequestInfoView>,
    protected: Seq<Seq<char>>,
) -> RepoStatusView {
    RepoStatusView {
        untracked_files: git_status.untracked_files,
        unstaged_changes: git_status.unstaged_changes,
        ahead_of_remote: git_status.ahead_of_remote,
        missing_remote: git_status.missing_remote,
        non_default_branch: spec_non_default_branch(
            git_status.is_default_branch,
            git_status.current_branch,
            protected,
        ),
        open_prs: prs,
    }
}

/// A status counts as having issues when some *active* check found one; what
/// an inactive check's field holds is ignored for the decision.
pub open spec fn spec_has_issues(s: RepoStatusView, filters: RepoFilters) -> bool {
    ||| filters.check_untracked && s.untracked_files
    ||| filters.check_unstaged && s.unstaged_changes
    ||| filters.check_ahead && s.ahead_of_remote
    ||| filters.check_no_remotes && s.missing_remote
    ||| filters.check_branch && s.non_default_branch is Some
    ||| filters.check_prs && s.open_prs.len() > 0
}

/// Whether `branch` stands in the protected list.
fn branch_is_protected(protected: &Vec<String>, branch: &str) -> (b: bool)
    ensures
        b == spec_contains_branch(protected.deep_view(), branch@),
{
    let ghost dv = protected.deep_view();
    let n = protected.len();
    let mut i: usize = 0;
    while i < n
        invariant
            n == protected@.len(),
            dv == protected.deep_view(),
            0 <= i <= n,
            forall|j: int| 0 <= j < i ==> dv[j] != branch@,
        decreases n - i,
    {
        if str_eq(protected[i].as_str(), branch) {
            assert(dv[i as int] == branch@);
            return true;
        }
        i += 1;
    }
    false
}

impl RepoStatus {
    /// Aggregates one repository's findings, as [`spec_aggregate`] describes:
    /// the local booleans verbatim, the branch warning suppressed for default
    /// and for protected branches, the pull requests attached as given.
    pub fn new(git_status: GitStatus, prs: Vec<PullRequestInfo>, protected_branches: &Vec<
        String,
    >) -> (r: RepoStatus)
        ensures
            r@ == spec_aggregate(git_status@, prs.deep_view(), protected_branches.deep_view()),
    {
        let non_default_branch = if !git_status.is_default_branch && !branch_is_protected(
            protected_branches,
            git_status.current_branch.as_str(),
        ) {
            Some(git_status.current_branch.clone())
        } else {
            None
        };
        let r = RepoStatus {
            untracked_files: git_status.untracked_files,
            unstaged_changes: git_status.unstaged_changes,
            ahead_of_remote: git_status.ahead_of_remote,
            missing_remote: git_status.missing_remote,
            non_default_branch,
            open_prs: prs,
        };
        assert(r@ =~= spec_aggregate(git_status@, r.open_prs.deep_view(),
            protected_branches.deep_view()));
        r
    }

    /// Whether some active check found an issue, as [`spec_has_issues`]
    /// describes.
    pub fn has_issues(&self, filters: &RepoFilters) -> (b: bool)
        ensures
            b == spec_has_issues(self@, *filters),
    {
        (filters.check_untracked && self.untracked_files) || (filters.check_unstaged
            && self.unstaged_changes) || (filters.check_ahead && self.ahead_of_remote)
            || (filters.check_no_remotes && self.missing_remote) || (filters.check_branch
            && self.non_default_branch.is_some()) || (filters.check_prs && self.open_prs.len()
            > 0)
    }
}

/// With every check disabled, no status whatsoever counts as having issues:
/// the issue decision reads only fields of active checks.
pub proof fn lemma_all_checks_disabled_no_issues(s: RepoStatusView, filters: RepoFilters)
    requires
        !filters.check_untracked,
        !filters.check_unstaged,
        !filters.check_ahead,
        !filters.check_no_remotes,
        !filters.check_branch,
        !filters.check_prs,
    ensures
        !spec_has_issues(s, filters),
{
}

/// On one and the same status, enabling more checks can only turn the issue
/// decision from no to yes, never from yes to no.
pub proof fn lemma_has_issues_monotonic(s: RepoStatusView, f1: RepoFilters, f2: RepoFilters)
    requires
        filters_at_most(f1, f2),
        spec_has_issues(s, f1),
    ensures
        spec_has_issues(s, f2),
{
}

/// Branch protection is exclusionary: a protected branch never raises the
/// branch warning, whatever its name and whether or not it is a default one.
pub proof fn lemma_protected_branch_suppressed(
    is_default: bool,
    branch: Seq<char>,
    protected: Seq<Seq<char>>,
)
    requires
        spec_contains_branch(protected, branch),
    ensures
        spec_non_default_branch(is_default, branch, protected) is None,
{
}

} // verus!
