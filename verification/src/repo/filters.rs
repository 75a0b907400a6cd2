//! The filter configuration: which checks are active for a scan.

use vstd::prelude::*;

verus! {

/// Selects which checks run against each repository. Immutable once built and
/// shared read-only by every unit of work in a scan.
///
/// `include_draft_prs` only matters while `check_prs` is active: it decides
/// whether draft pull requests count among the open ones.
#[derive(Debug, Clone, Copy)]
pub struct RepoFilters {
    pub check_untracked: bool,
    pub check_unstaged: bool,
    pub check_ahead: bool,
    pub check_no_remotes: bool,
    pub check_branch: bool,
    pub check_prs: bool,
    pub include_draft_prs: bool,
}

/// `f2` enables every check that `f1` enables, and includes drafts wherever
/// `f1` does; it may enable more.
pub open spec fn filters_at_most(f1: RepoFilters, f2: RepoFilters) -> bool {
    &&& f1.check_untracked ==> f2.check_untracked
    &&& f1.check_unstaged ==> f2.check_unstaged
    &&& f1.check_ahead ==> f2.check_ahead
    &&& f1.check_no_remotes ==> f2.check_no_remotes
    &&& f1.check_branch ==> f2.check_branch
    &&& f1.check_prs ==> f2.check_prs
    &&& f1.include_draft_prs ==> f2.include_draft_prs
}

} // verus!
