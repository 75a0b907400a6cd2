//! The scan's decision core: which directory entries count as repositories,
//! what one repository's observations amount to, and which repositories the
//! report carries.
//!
//! The caller owns the machinery around this: it lists the root directory,
//! runs the subprocesses and the network call (one unit of work per
//! repository, concurrently if it likes), and appends to the shared result
//! under mutual exclusion. Everything it gathers for one entry is handed in
//! here as a [`RepoObservation`], and the functions here decide, per
//! repository, the status and whether it is reported. The result's order
//! carries no meaning: a concurrent caller appends in whatever order its
//! units finish.

use vstd::prelude::*;

use crate::git::status::{git_status_from_outputs, opt_text, spec_git_status};
use crate::github::pr::{
    filter_pull_requests, lemma_keep_prs_all, lemma_keep_prs_len, pr_infos_from_records,
    spec_keep_prs, spec_pr_infos, PullRequestInfoView, PullRequestRecord, PullRequestRecordView,
};
use crate::repo::filters::{filters_at_most, RepoFilters};
use crate::repo::status::{spec_aggregate, spec_has_issues, RepoStatus, RepoStatusView};

verus! {

/// Everything the caller gathered about one directory entry under the root:
/// what the entry is, the output of each local probe it ran (`None` where the
/// probe was skipped or failed), and the pull-request records the remote
/// probe returned (empty where it was skipped or failed).
pub struct RepoObservation {
    pub path: String,
    pub is_dir: bool,
    pub has_git_dir: bool,
    pub status_output: Option<String>,
    pub remote_output: Option<String>,
    pub branch_output: Option<String>,
    pub pull_requests: Vec<PullRequestRecord>,
}

/// The mathematical value of a [`RepoObservation`].
#[verifier::ext_equal]
pub struct RepoObservationView {
    pub path: Seq<char>,
    pub is_dir: bool,
    pub has_git_dir: bool,
    pub status_output: Option<Seq<char>>,
    pub remote_output: Option<Seq<char>>,
    pub branch_output: Option<Seq<char>>,
    pub pull_requests: Seq<PullRequestRecordView>,
}

impl View for RepoObservation {
    type V = RepoObservationView;

    open spec fn view(&self) -> RepoObservationView {
        RepoObservationView {
            path: self.path@,
            is_dir: self.is_dir,
            has_git_dir: self.has_git_dir,
            status_output: match self.status_output {
                Some(s) => Some(s@),
                None => None,
            },
            remote_output: match self.remote_output {
                Some(s) => Some(s@),
                None => None,
            },
            branch_output: match self.branch_output {
                Some(s) => Some(s@),
                None => None,
            },
            pull_requests: self.pull_requests.deep_view(),
        }
    }
}

impl DeepView for RepoObservation {
    type V = RepoObservationView;

    open spec fn deep_view(&self) -> RepoObservationView {
        self.view()
    }
}

/// An entry qualifies as a repository exactly when it is a directory holding
/// a direct child directory named `.git`.
pub open spec fn spec_is_repo(o: RepoObservationView) -> bool {
    o.is_dir && o.has_git_dir
}

/// The pull requests the report carries for one repository: the records
/// normalized and put through the draft policy while the pull-request check
/// is active, and nothing otherwise.
pub open spec fn spec_scan_prs(o: RepoObservationView, filters: RepoFilters) -> Seq<
    PullRequestInfoView,
> {
    if filters.check_prs {
        spec_keep_prs(spec_pr_infos(o.pull_requests), filters.include_draft_prs)
    } else {
        Seq::empty()
    }
}

/// The status one repository's observations amount to under the active
/// filters: the local findings, the branch warning, and the pull requests
/// that count.
pub open spec fn spec_repo_status(
    o: RepoObservationView,
    filters: RepoFilters,
    protected: Seq<Seq<char>>,
) -> RepoStatusView {
    spec_aggregate(
        spec_git_status(filters, o.status_output, o.remote_output, o.branch_output),
        spec_scan_prs(o, filters),
        protected,
    )
}

/// The report of a whole scan, in observation order: the qualifying entries,
/// each with its status, kept when `show_all` is set or some active check
/// found an issue.
pub open spec fn spec_scan(
    obs: Seq<RepoObservationView>,
    filters: RepoFilters,
    protected: Seq<Seq<char>>,
    show_all: bool,
) -> Seq<(Seq<char>, RepoStatusView)>
    decreases obs.len(),
{
    if obs.len() == 0 {
        Seq::empty()
    } else {
        let rest = spec_scan(obs.drop_last(), filters, protected, show_all);
        let o = obs.last();
        let status = spec_repo_status(o, filters, protected);
        if spec_is_repo(o) && (show_all || spec_has_issues(status, filters)) {
            rest.push((o.path, status))
        } else {
            rest
        }
    }
}

/// Whether an entry with the given stat results qualifies as a repository.
pub fn is_repo_entry(is_dir: bool, has_git_dir: bool) -> (b: bool)
    ensures
        b == (is_dir && has_git_dir),
{
    is_dir && has_git_dir
}

/// The status of one repository under the active filters, as
/// [`spec_repo_status`] describes: one unit of work, between the probes and
/// the append decision.
pub fn evaluate_repo(obs: &RepoObservation, filters: &RepoFilters, protected: &Vec<String>) -> (r:
    RepoStatus)
    ensures
        r@ == spec_repo_status(obs@, *filters, protected.deep_view()),
{
    let status_out = match &obs.status_output {
        Some(s) => Some(s.as_str()),
        None => None,
    };
    let remote_out = match &obs.remote_output {
        Some(s) => Some(s.as_str()),
        None => None,
    };
    let branch_out = match &obs.branch_output {
        Some(s) => Some(s.as_str()),
        None => None,
    };
    let git_status = git_status_from_outputs(filters, status_out, remote_out, branch_out);
    assert(opt_text(status_out) == obs@.status_output);
    assert(opt_text(remote_out) == obs@.remote_output);
    assert(opt_text(branch_out) == obs@.branch_output);
    let prs = if filters.check_prs {
        let infos = pr_infos_from_records(&obs.pull_requests);
        filter_pull_requests(&infos, filters.include_draft_prs)
    } else {
        Vec::new()
    };
    assert(prs.deep_view() =~= spec_scan_prs(obs@, *filters));
    RepoStatus::new(git_status, prs, protected)
}

/// Whether one repository's entry belongs in the report: always under
/// `show_all`, otherwise exactly when some active check found an issue.
pub fn should_report(status: &RepoStatus, filters: &RepoFilters, show_all: bool) -> (b: bool)
    ensures
        b == (show_all || spec_has_issues(status@, *filters)),
{
    show_all || status.has_issues(filters)
}

/// Runs the append decision over a whole sequence of observations, in order,
/// as [`spec_scan`] describes. A sequential rendering of the scan: a
/// concurrent caller makes the same per-repository decisions through
/// [`evaluate_repo`] and [`should_report`] and merges them in whatever order
/// its units finish.
pub fn scan_observations(
    observations: &Vec<RepoObservation>,
    filters: &RepoFilters,
    protected: &Vec<String>,
    show_all: bool,
) -> (r: Vec<(String, RepoStatus)>)
    ensures
        r.deep_view() == spec_scan(
            observations.deep_view(),
            *filters,
            protected.deep_view(),
            show_all,
        ),
{
    let ghost dv = observations.deep_view();
    let ghost prot = protected.deep_view();
    let n = observations.len();
    let mut r: Vec<(String, RepoStatus)> = Vec::new();
    proof {
        assert(dv.take(0) =~= Seq::<RepoObservationView>::empty());
        assert(r.deep_view() =~= spec_scan(dv.take(0), *filters, prot, show_all));
    }
    let mut i: usize = 0;
    while i < n
        invariant
            n == observations@.len(),
            dv == observations.deep_view(),
            prot == protected.deep_view(),
            0 <= i <= n,
            r.deep_view() == spec_scan(dv.take(i as int), *filters, prot, show_all),
        decreases n - i,
    {
        let ghost prev = r.deep_view();
        let obs = &observations[i];
        if is_repo_entry(obs.is_dir, obs.has_git_dir) {
            let status = evaluate_repo(obs, filters, protected);
            if should_report(&status, filters, show_all) {
                let path = obs.path.clone();
                r.push((path, status));
                assert(r.deep_view() =~= prev.push(
                    (dv[i as int].path, spec_repo_status(dv[i as int], *filters, prot)),
                ));
            }
        }
        proof {
            assert(dv.take(i + 1).drop_last() =~= dv.take(i as int));
            assert(dv.take(i + 1).last() == dv[i as int]);
        }
        i += 1;
    }
    assert(dv.take(n as int) =~= dv);
    r
}

/// With every check disabled, one repository's status is entirely at its
/// defaults: no finding, no branch warning, no pull requests.
pub proof fn lemma_all_checks_disabled_default_status(
    o: RepoObservationView,
    filters: RepoFilters,
    protected: Seq<Seq<char>>,
)
    requires
        !filters.check_untracked,
        !filters.check_unstaged,
        !filters.check_ahead,
        !filters.check_no_remotes,
        !filters.check_branch,
        !filters.check_prs,
    ensures
        spec_repo_status(o, filters, protected) == (RepoStatusView {
            untracked_files: false,
            unstaged_changes: false,
            ahead_of_remote: false,
            missing_remote: false,
            non_default_branch: None,
            open_prs: Seq::empty(),
        }),
{
    assert(spec_repo_status(o, filters, protected) =~= RepoStatusView {
        untracked_files: false,
        unstaged_changes: false,
        ahead_of_remote: false,
        missing_remote: false,
        non_default_branch: None,
        open_prs: Seq::empty(),
    });
}

/// With every check disabled and `show_all` off, the report is empty: no
/// repository is ever reported.
pub proof fn lemma_all_checks_disabled_scan_empty(
    obs: Seq<RepoObservationView>,
    filters: RepoFilters,
    protected: Seq<Seq<char>>,
)
    requires
        !filters.check_untracked,
        !filters.check_unstaged,
        !filters.check_ahead,
        !filters.check_no_remotes,
        !filters.check_branch,
        !filters.check_prs,
    ensures
        spec_scan(obs, filters, protected, false) == Seq::<(Seq<char>, RepoStatusView)>::empty(),
    decreases obs.len(),
{
    if obs.len() > 0 {
        lemma_all_checks_disabled_scan_empty(obs.drop_last(), filters, protected);
    }
}

/// Enabling more checks can only turn one repository's issue decision from no
/// to yes: an active check's finding does not go away when another check is
/// switched on, and including drafts only lengthens the pull-request list.
pub proof fn lemma_repo_status_monotonic(
    o: RepoObservationView,
    f1: RepoFilters,
    f2: RepoFilters,
    protected: Seq<Seq<char>>,
)
    requires
        filters_at_most(f1, f2),
        spec_has_issues(spec_repo_status(o, f1, protected), f1),
    ensures
        spec_has_issues(spec_repo_status(o, f2, protected), f2),
{
    let s1 = spec_repo_status(o, f1, protected);
    let s2 = spec_repo_status(o, f2, protected);
    if f1.check_prs && s1.open_prs.len() > 0 {
        let infos = spec_pr_infos(o.pull_requests);
        if !f1.include_draft_prs && f2.include_draft_prs {
            lemma_keep_prs_len(infos, f1.include_draft_prs);
            lemma_keep_prs_all(infos);
        }
        assert(s2.open_prs.len() > 0);
        assert(spec_has_issues(s2, f2));
    }
}

/// Which paths a report names.
pub open spec fn spec_reported(report: Seq<(Seq<char>, RepoStatusView)>, path: Seq<char>) -> bool {
    exists|i: int| 0 <= i < report.len() && report[i].0 == path
}

/// Enabling more checks can only add repositories to the report, never remove
/// one: every path the report names under the smaller filters it also names
/// under the larger ones, over the same observations.
pub proof fn lemma_scan_monotonic(
    obs: Seq<RepoObservationView>,
    f1: RepoFilters,
    f2: RepoFilters,
    protected: Seq<Seq<char>>,
    show_all: bool,
)
    requires
        filters_at_most(f1, f2),
    ensures
        forall|path: Seq<char>|
            spec_reported(spec_scan(obs, f1, protected, show_all), path)
                ==> spec_reported(spec_scan(obs, f2, protected, show_all), path),
    decreases obs.len(),
{
    if obs.len() > 0 {
        lemma_scan_monotonic(obs.drop_last(), f1, f2, protected, show_all);
        let r1 = spec_scan(obs, f1, protected, show_all);
        let r2 = spec_scan(obs, f2, protected, show_all);
        let p1 = spec_scan(obs.drop_last(), f1, protected, show_all);
        let p2 = spec_scan(obs.drop_last(), f2, protected, show_all);
        let o = obs.last();
        assert forall|path: Seq<char>| spec_reported(r1, path) implies spec_reported(
            r2,
            path,
        ) by {
            let i = choose|i: int| 0 <= i < r1.len() && r1[i].0 == path;
            if i < p1.len() && r1[i] == p1[i] {
                assert(spec_reported(p1, path));
                let j = choose|j: int| 0 <= j < p2.len() && p2[j].0 == path;
                assert(r2[j].0 == path);
            } else {
                assert(o.path == path);
                assert(spec_is_repo(o));
                if !show_all {
                    lemma_repo_status_monotonic(o, f1, f2, protected);
                }
                assert(r2[r2.len() - 1].0 == path);
            }
        }
    }
}

/// The scan is a pure function of what was observed: against an unchanged
/// directory tree and unchanged repository states — the same observations —
/// a second run yields the same report, order included.
pub proof fn lemma_scan_repeatable(
    obs1: Seq<RepoObservationView>,
    obs2: Seq<RepoObservationView>,
    filters: RepoFilters,
    protected: Seq<Seq<char>>,
    show_all: bool,
)
    requires
        obs1 == obs2,
    ensures
        spec_scan(obs1, filters, protected, show_all) == spec_scan(
            obs2,
            filters,
            protected,
            show_all,
        ),
{
}

} // verus!
