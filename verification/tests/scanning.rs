//! Tests of the pull-request policy, the aggregation, the configuration
//! defaults, and whole-scan scenarios.

use gitgud::config::{parse_protected_branches, Config, GitHubConfig};
use gitgud::git::status::GitStatus;
use gitgud::github::pr::{filter_pull_requests, pr_infos_from_records, PullRequestInfo, PullRequestRecord};
use gitgud::repo::filters::RepoFilters;
use gitgud::repo::status::RepoStatus;
use gitgud::scan::{evaluate_repo, scan_observations, should_report, RepoObservation};

fn default_filters() -> RepoFilters {
    RepoFilters {
        check_untracked: true,
        check_unstaged: true,
        check_ahead: true,
        check_no_remotes: true,
        check_branch: true,
        check_prs: false,
        include_draft_prs: true,
    }
}

fn no_filters() -> RepoFilters {
    RepoFilters {
        check_untracked: false,
        check_unstaged: false,
        check_ahead: false,
        check_no_remotes: false,
        check_branch: false,
        check_prs: false,
        include_draft_prs: false,
    }
}

fn pr(number: u64, is_draft: bool) -> PullRequestInfo {
    PullRequestInfo {
        number,
        title: format!("pr {}", number),
        branch: "topic".to_string(),
        is_draft,
    }
}

fn clean_repo(path: &str) -> RepoObservation {
    RepoObservation {
        path: path.to_string(),
        is_dir: true,
        has_git_dir: true,
        status_output: Some("## main...origin/main\n".to_string()),
        remote_output: Some("origin\n".to_string()),
        branch_output: Some("main\n".to_string()),
        pull_requests: Vec::new(),
    }
}

#[test]
fn missing_title_degrades_to_empty_string() {
    let records = vec![
        PullRequestRecord {
            number: 7,
            title: None,
            branch: "topic".to_string(),
            is_draft: None,
        },
        PullRequestRecord {
            number: 8,
            title: Some("real title".to_string()),
            branch: "other".to_string(),
            is_draft: Some(true),
        },
    ];
    let infos = pr_infos_from_records(&records);
    assert_eq!(infos.len(), 2);
    assert_eq!(infos[0].number, 7);
    assert_eq!(infos[0].title, "");
    assert!(!infos[0].is_draft);
    assert_eq!(infos[1].title, "real title");
    assert!(infos[1].is_draft);
}

#[test]
fn draft_filter_keeps_only_non_drafts() {
    let prs = vec![pr(1, false), pr(2, true)];
    let kept = filter_pull_requests(&prs, false);
    assert_eq!(kept.len(), 1);
    assert_eq!(kept[0].number, 1);
    assert!(!kept[0].is_draft);
}

#[test]
fn draft_filter_keeps_everything_when_drafts_included() {
    let prs = vec![pr(1, false), pr(2, true)];
    let kept = filter_pull_requests(&prs, true);
    assert_eq!(kept.len(), 2);
    assert_eq!(kept[0].number, 1);
    assert_eq!(kept[1].number, 2);
}

#[test]
fn protected_branch_raises_no_warning() {
    let mut status = GitStatus::new();
    status.current_branch = "release".to_string();
    status.is_default_branch = false;
    let protected = vec!["release".to_string()];
    let repo = RepoStatus::new(status, Vec::new(), &protected);
    assert_eq!(repo.non_default_branch, None);
}

#[test]
fn unprotected_non_default_branch_raises_warning() {
    let mut status = GitStatus::new();
    status.current_branch = "feature/x".to_string();
    status.is_default_branch = false;
    let repo = RepoStatus::new(status, Vec::new(), &Vec::new());
    assert_eq!(repo.non_default_branch, Some("feature/x".to_string()));
}

#[test]
fn protection_also_covers_default_branch_names() {
    let mut status = GitStatus::new();
    status.current_branch = "master".to_string();
    status.is_default_branch = false;
    let protected = vec!["master".to_string()];
    let repo = RepoStatus::new(status, Vec::new(), &protected);
    assert_eq!(repo.non_default_branch, None);
}

#[test]
fn empty_protected_set_suppresses_nothing() {
    let mut status = GitStatus::new();
    status.current_branch = "topic".to_string();
    status.is_default_branch = false;
    let repo = RepoStatus::new(status, Vec::new(), &Vec::new());
    assert_eq!(repo.non_default_branch, Some("topic".to_string()));
}

#[test]
fn default_branch_raises_no_warning() {
    let mut status = GitStatus::new();
    status.current_branch = "main".to_string();
    status.is_default_branch = true;
    let repo = RepoStatus::new(status, Vec::new(), &Vec::new());
    assert_eq!(repo.non_default_branch, None);
}

#[test]
fn inactive_checks_are_ignored_by_the_decision() {
    let mut status = GitStatus::new();
    status.untracked_files = true;
    status.missing_remote = true;
    let repo = RepoStatus::new(status, vec![pr(1, false)], &Vec::new());
    assert!(repo.has_issues(&default_filters()));
    assert!(!repo.has_issues(&no_filters()));
}

#[test]
fn open_prs_count_only_under_their_check() {
    let repo = RepoStatus::new(GitStatus::new(), vec![pr(1, false)], &Vec::new());
    let mut filters = no_filters();
    assert!(!repo.has_issues(&filters));
    filters.check_prs = true;
    assert!(repo.has_issues(&filters));
}

#[test]
fn clean_repo_and_non_repo_are_not_reported() {
    let notarepo = RepoObservation {
        path: "root/notarepo".to_string(),
        is_dir: true,
        has_git_dir: false,
        status_output: None,
        remote_output: None,
        branch_output: None,
        pull_requests: Vec::new(),
    };
    let observations = vec![clean_repo("root/repoA"), notarepo];
    let filters = default_filters();

    let report = scan_observations(&observations, &filters, &Vec::new(), false);
    assert!(report.is_empty());

    let all = scan_observations(&observations, &filters, &Vec::new(), true);
    assert_eq!(all.len(), 1);
    assert_eq!(all[0].0, "root/repoA");
    assert!(!all[0].1.untracked_files);
    assert!(!all[0].1.unstaged_changes);
    assert!(!all[0].1.ahead_of_remote);
    assert!(!all[0].1.missing_remote);
    assert_eq!(all[0].1.non_default_branch, None);
    assert!(all[0].1.open_prs.is_empty());
}

#[test]
fn untracked_file_on_feature_branch_is_reported() {
    let repo_b = RepoObservation {
        path: "root/repoB".to_string(),
        is_dir: true,
        has_git_dir: true,
        status_output: Some("## feature/x\n?? scratch.txt\n".to_string()),
        remote_output: Some("origin\n".to_string()),
        branch_output: Some("feature/x\n".to_string()),
        pull_requests: Vec::new(),
    };
    let observations = vec![repo_b];
    let report = scan_observations(&observations, &default_filters(), &Vec::new(), false);
    assert_eq!(report.len(), 1);
    assert_eq!(report[0].0, "root/repoB");
    assert!(report[0].1.untracked_files);
    assert_eq!(report[0].1.non_default_branch, Some("feature/x".to_string()));
}

#[test]
fn scan_twice_gives_equal_reports() {
    let observations = vec![
        clean_repo("root/repoA"),
        RepoObservation {
            path: "root/repoB".to_string(),
            is_dir: true,
            has_git_dir: true,
            status_output: Some("?? scratch.txt\n".to_string()),
            remote_output: Some("".to_string()),
            branch_output: Some("main\n".to_string()),
            pull_requests: Vec::new(),
        },
    ];
    let filters = default_filters();
    let first = scan_observations(&observations, &filters, &Vec::new(), false);
    let second = scan_observations(&observations, &filters, &Vec::new(), false);
    assert_eq!(first.len(), second.len());
    for (a, b) in first.iter().zip(second.iter()) {
        assert_eq!(a.0, b.0);
        assert_eq!(a.1.untracked_files, b.1.untracked_files);
        assert_eq!(a.1.unstaged_changes, b.1.unstaged_changes);
        assert_eq!(a.1.ahead_of_remote, b.1.ahead_of_remote);
        assert_eq!(a.1.missing_remote, b.1.missing_remote);
        assert_eq!(a.1.non_default_branch, b.1.non_default_branch);
        assert_eq!(a.1.open_prs.len(), b.1.open_prs.len());
    }
}

#[test]
fn enabling_a_check_only_adds_reports() {
    let repo_b = RepoObservation {
        path: "root/repoB".to_string(),
        is_dir: true,
        has_git_dir: true,
        status_output: Some("?? scratch.txt\n".to_string()),
        remote_output: Some("origin\n".to_string()),
        branch_output: Some("main\n".to_string()),
        pull_requests: Vec::new(),
    };
    let observations = vec![repo_b];
    let mut fewer = no_filters();
    fewer.check_unstaged = true;
    let mut more = fewer;
    more.check_untracked = true;

    let small = scan_observations(&observations, &fewer, &Vec::new(), false);
    let large = scan_observations(&observations, &more, &Vec::new(), false);
    assert!(small.is_empty());
    assert_eq!(large.len(), 1);
}

#[test]
fn every_check_disabled_reports_nothing_and_only_defaults() {
    let repo_b = RepoObservation {
        path: "root/repoB".to_string(),
        is_dir: true,
        has_git_dir: true,
        status_output: Some("?? scratch.txt\nM lib.rs\n".to_string()),
        remote_output: Some("".to_string()),
        branch_output: Some("feature/x\n".to_string()),
        pull_requests: Vec::new(),
    };
    let filters = no_filters();
    let report = scan_observations(&vec![repo_b], &filters, &Vec::new(), false);
    assert!(report.is_empty());

    let repo_b_again = RepoObservation {
        path: "root/repoB".to_string(),
        is_dir: true,
        has_git_dir: true,
        status_output: Some("?? scratch.txt\nM lib.rs\n".to_string()),
        remote_output: Some("".to_string()),
        branch_output: Some("feature/x\n".to_string()),
        pull_requests: Vec::new(),
    };
    let all = scan_observations(&vec![repo_b_again], &filters, &Vec::new(), true);
    assert_eq!(all.len(), 1);
    assert!(!all[0].1.untracked_files);
    assert!(!all[0].1.unstaged_changes);
    assert!(!all[0].1.ahead_of_remote);
    assert!(!all[0].1.missing_remote);
    assert_eq!(all[0].1.non_default_branch, None);
    assert!(all[0].1.open_prs.is_empty());
}

#[test]
fn unit_of_work_matches_the_scan() {
    let obs = RepoObservation {
        path: "root/repoB".to_string(),
        is_dir: true,
        has_git_dir: true,
        status_output: Some("?? scratch.txt\n".to_string()),
        remote_output: Some("origin\n".to_string()),
        branch_output: Some("main\n".to_string()),
        pull_requests: Vec::new(),
    };
    let filters = default_filters();
    let status = evaluate_repo(&obs, &filters, &Vec::new());
    assert!(status.untracked_files);
    assert!(should_report(&status, &filters, false));
    assert!(should_report(&RepoStatus::new(GitStatus::new(), Vec::new(), &Vec::new()), &filters, true));
}

#[test]
fn failed_probes_still_report_the_rest() {
    let obs = RepoObservation {
        path: "root/repoC".to_string(),
        is_dir: true,
        has_git_dir: true,
        status_output: None,
        remote_output: Some("".to_string()),
        branch_output: None,
        pull_requests: Vec::new(),
    };
    let filters = default_filters();
    let status = evaluate_repo(&obs, &filters, &Vec::new());
    assert!(!status.untracked_files);
    assert!(status.missing_remote);
    assert_eq!(status.non_default_branch, None);
    assert!(should_report(&status, &filters, false));
}

#[test]
fn drafts_are_dropped_from_the_report_when_excluded() {
    let records = vec![
        PullRequestRecord {
            number: 1,
            title: Some("ready".to_string()),
            branch: "topic".to_string(),
            is_draft: Some(false),
        },
        PullRequestRecord {
            number: 2,
            title: Some("draft".to_string()),
            branch: "wip".to_string(),
            is_draft: Some(true),
        },
    ];
    let mut obs = clean_repo("root/repoA");
    obs.pull_requests = records;
    let mut filters = default_filters();
    filters.check_prs = true;
    filters.include_draft_prs = false;
    let status = evaluate_repo(&obs, &filters, &Vec::new());
    assert_eq!(status.open_prs.len(), 1);
    assert_eq!(status.open_prs[0].number, 1);
    assert!(status.has_issues(&filters));
}

#[test]
fn config_defaults_match_the_documented_values() {
    let config = Config::default();
    assert_eq!(config.threads, None);
    assert!(config.check_untracked);
    assert!(config.check_unstaged);
    assert!(config.check_ahead);
    assert!(config.check_no_remotes);
    assert!(config.check_branch);
    assert!(!config.check_prs);
    assert!(config.include_draft_prs);
    assert_eq!(config.github.token, None);
    assert!(config.github.protected_branches.is_empty());

    let github = GitHubConfig::default();
    assert_eq!(github.token, None);
    assert!(github.protected_branches.is_empty());
}

#[test]
fn protected_branch_listing_skips_blanks_and_comments() {
    let content = "# comment\n\n  release  \nhotfix\n   # indented comment\n";
    let branches = parse_protected_branches(content);
    assert_eq!(branches, vec!["release".to_string(), "hotfix".to_string()]);
}
