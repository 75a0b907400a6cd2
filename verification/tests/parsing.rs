//! Tests of the text primitives and of the parsing of subcommand outputs and
//! remote URLs.

use gitgud::git::remote::{parse_remote_branches, remote_url_from_output};
use gitgud::git::status::{
    git_status_from_outputs, status_has_ahead, status_has_unstaged, status_has_untracked,
};
use gitgud::github::api::{parse_github_url, UrlParseError};
use gitgud::repo::filters::RepoFilters;
use gitgud::text::{ends_with, has_substring, split_lines, starts_with, str_eq, trim};

fn all_filters() -> RepoFilters {
    RepoFilters {
        check_untracked: true,
        check_unstaged: true,
        check_ahead: true,
        check_no_remotes: true,
        check_branch: true,
        check_prs: true,
        include_draft_prs: true,
    }
}

#[test]
fn split_lines_empty_text_has_no_lines() {
    let lines = split_lines("");
    assert!(lines.is_empty());
}

#[test]
fn split_lines_final_newline_opens_no_line() {
    let lines = split_lines("a\nb\n");
    assert_eq!(lines, vec!["a".to_string(), "b".to_string()]);
}

#[test]
fn split_lines_strips_one_carriage_return() {
    let lines = split_lines("a\r\nb\r");
    assert_eq!(lines, vec!["a".to_string(), "b".to_string()]);
}

#[test]
fn split_lines_keeps_empty_middle_lines() {
    let lines = split_lines("a\n\nb");
    assert_eq!(lines, vec!["a".to_string(), "".to_string(), "b".to_string()]);
}

#[test]
fn trim_removes_both_ends() {
    assert_eq!(trim("  \thello \r\n"), "hello");
    assert_eq!(trim(""), "");
    assert_eq!(trim(" \t "), "");
    assert_eq!(trim("inner space kept"), "inner space kept");
}

#[test]
fn substring_prefix_suffix_tests() {
    assert!(starts_with("?? file", "??"));
    assert!(!starts_with("?", "??"));
    assert!(ends_with("repo.git", ".git"));
    assert!(!ends_with("it", ".git"));
    assert!(has_substring("## main [ahead 2]", "[ahead "));
    assert!(!has_substring("## main [behind 2]", "[ahead "));
    assert!(str_eq("main", "main"));
    assert!(!str_eq("main", "master"));
}

#[test]
fn untracked_line_sets_only_untracked() {
    let out = "?? newfile.txt\n";
    assert!(status_has_untracked(out));
    assert!(!status_has_unstaged(out));
    assert!(!status_has_ahead(out));
}

#[test]
fn modified_and_deleted_lines_set_unstaged() {
    assert!(status_has_unstaged(" M lib.rs\n"));
    assert!(status_has_unstaged("D gone.rs\n"));
    assert!(!status_has_unstaged("A added.rs\n"));
}

#[test]
fn unstaged_is_a_prefix_test_on_the_first_letter() {
    // Two-letter codes count by their first trimmed character alone.
    assert!(status_has_unstaged("MM both.rs\n"));
    assert!(status_has_untracked("   ?? indented.txt\n"));
    assert!(!status_has_untracked("?x not-untracked\n"));
}

#[test]
fn ahead_needs_header_and_marker() {
    assert!(status_has_ahead("## main...origin/main [ahead 3]\n"));
    assert!(!status_has_ahead("## main...origin/main [behind 1]\n"));
    assert!(!status_has_ahead("?? [ahead 3]\n"));
}

#[test]
fn status_round_trip_single_untracked_line() {
    let filters = all_filters();
    let status = git_status_from_outputs(&filters, Some("?? newfile.txt\n"), None, None);
    assert!(status.untracked_files);
    assert!(!status.unstaged_changes);
    assert!(!status.ahead_of_remote);
    assert!(!status.missing_remote);
    assert!(status.is_default_branch);
    assert_eq!(status.current_branch, "");
}

#[test]
fn branch_output_decides_default() {
    let filters = all_filters();
    let on_main = git_status_from_outputs(&filters, None, None, Some("main\n"));
    assert!(on_main.is_default_branch);
    assert_eq!(on_main.current_branch, "main");

    let on_master = git_status_from_outputs(&filters, None, None, Some("master\n"));
    assert!(on_master.is_default_branch);

    let on_develop = git_status_from_outputs(&filters, None, None, Some("develop\n"));
    assert!(!on_develop.is_default_branch);
    assert_eq!(on_develop.current_branch, "develop");
}

#[test]
fn empty_remote_listing_means_missing_remote() {
    let filters = all_filters();
    let status = git_status_from_outputs(&filters, None, Some(" \n"), None);
    assert!(status.missing_remote);
    let with_remote = git_status_from_outputs(&filters, None, Some("origin\n"), None);
    assert!(!with_remote.missing_remote);
}

#[test]
fn skipped_probes_keep_defaults() {
    let filters = RepoFilters { check_untracked: false, ..all_filters() };
    let status = git_status_from_outputs(&filters, Some("?? newfile.txt\n"), None, None);
    assert!(!status.untracked_files);
    let none_at_all = git_status_from_outputs(&all_filters(), None, None, None);
    assert!(!none_at_all.untracked_files);
    assert!(!none_at_all.missing_remote);
    assert!(none_at_all.is_default_branch);
}

#[test]
fn remote_url_requires_success_and_content() {
    assert_eq!(
        remote_url_from_output(true, "git@github.com:acme/widgets.git\n"),
        Some("git@github.com:acme/widgets.git".to_string())
    );
    assert_eq!(remote_url_from_output(true, " \n"), None);
    assert_eq!(remote_url_from_output(false, "git@github.com:acme/widgets.git\n"), None);
}

#[test]
fn remote_branches_are_trimmed_and_stripped() {
    let out = "  origin/main\n  origin/feature/x\n\n  upstream/dev\n";
    let branches = parse_remote_branches(out);
    assert_eq!(
        branches,
        vec!["main".to_string(), "feature/x".to_string(), "upstream/dev".to_string()]
    );
}

#[test]
fn github_ssh_url_parses() {
    let (owner, repo) = parse_github_url("git@github.com:acme/widgets.git").unwrap();
    assert_eq!(owner, "acme");
    assert_eq!(repo, "widgets");
}

#[test]
fn github_https_and_daemon_urls_parse() {
    let (owner, repo) = parse_github_url("https://github.com/acme/widgets").unwrap();
    assert_eq!(owner, "acme");
    assert_eq!(repo, "widgets");
    let (owner, repo) = parse_github_url(" git://github.com/acme/widgets.git \n").unwrap();
    assert_eq!(owner, "acme");
    assert_eq!(repo, "widgets");
    let (owner, repo) = parse_github_url("https://github.com/acme/widgets/pull/7").unwrap();
    assert_eq!(owner, "acme");
    assert_eq!(repo, "widgets");
}

#[test]
fn unrecognized_urls_are_errors() {
    assert_eq!(parse_github_url("https://gitlab.com/acme/widgets"), Err(UrlParseError));
    assert_eq!(parse_github_url("https://github.com/acmeonly"), Err(UrlParseError));
    assert_eq!(parse_github_url(""), Err(UrlParseError));
}
