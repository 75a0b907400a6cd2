//! Scans a directory of Git working copies and reports, per repository, a set
//! of hygiene findings: untracked files, unstaged changes, commits not pushed,
//! missing remotes, a checked-out non-default branch, and (optionally) open
//! pull requests on GitHub.
//!
//! This crate is the decision core: it parses the textual output of the Git
//! subcommands, resolves owner and repository name from a remote URL, applies
//! the filter policy, and decides which repositories are reported. Process
//! invocation, network calls, configuration files and terminal output are the
//! caller's concern; the caller hands the core plain values and renders the
//! `(path, RepoStatus)` pairs it gets back.

pub mod config;
pub mod git;
pub mod github;
pub mod repo;
pub mod scan;
pub mod text;
