//! The local status record of one repository, and the parsing of the Git
//! subcommand outputs it is computed from.
//!
//! The caller runs up to three subcommands against a working copy — a
//! porcelain status listing with a branch header, a remote listing, and the
//! symbolic name of `HEAD` — and hands their standard output here as plain
//! text. A command it skipped, or one that failed, is handed in as `None`,
//! and the fields that command would have filled keep their defaults.

use vstd::prelude::*;

use crate::repo::filters::RepoFilters;
use crate::text::{
    has_substring, spec_contains, spec_split_lines, spec_starts_with, spec_trim, split_lines,
    starts_with, str_eq, trim,
};

verus! {

/// What the local probes saw of one repository. Fields that were not probed
/// keep their defaults: `false`, an empty branch name, and `is_default_branch`
/// true.
#[derive(Debug, Clone)]
pub struct GitStatus {
    pub untracked_files: bool,
    pub unstaged_changes: bool,
    pub ahead_of_remote: bool,
    pub missing_remote: bool,
    pub current_branch: String,
    pub is_default_branch: bool,
}

/// The mathematical value of a [`GitStatus`].
#[verifier::ext_equal]
pub struct GitStatusView {
    pub untracked_files: bool,
    pub unstaged_changes: bool,
    pub ahead_of_remote: bool,
    pub missing_remote: bool,
    pub current_branch: Seq<char>,
    pub is_default_branch: bool,
}

impl View for GitStatus {
    type V = GitStatusView;

    open spec fn view(&self) -> GitStatusView {
        GitStatusView {
            untracked_files: self.untracked_files,
            unstaged_changes: self.unstaged_changes,
            ahead_of_remote: self.ahead_of_remote,
            missing_remote: self.missing_remote,
            current_branch: self.current_branch@,
            is_default_branch: self.is_default_branch,
        }
    }
}

impl GitStatus {
    /// The record before any probe has run: no findings, no branch name.
    pub fn new() -> (s: GitStatus)
        ensures
            !s.untracked_files,
            !s.unstaged_changes,
            !s.ahead_of_remote,
            !s.missing_remote,
            s.current_branch@ == Seq::<char>::empty(),
            s.is_default_branch,
    {
        GitStatus {
            untracked_files: false,
            unstaged_changes: false,
            ahead_of_remote: false,
            missing_remote: false,
            current_branch: String::new(),
            is_default_branch: true,
        }
    }
}

/// A porcelain status line that reports an untracked file: it begins, once
/// trimmed, with `??`.
pub open spec fn line_flags_untracked(l: Seq<char>) -> bool {
    spec_starts_with(spec_trim(l), "??"@)
}

/// A porcelain status line that reports an unstaged change: it begins, once
/// trimmed, with `M` or `D`. This is a plain prefix test on the first
/// character, not a full reading of the two-letter status codes.
pub open spec fn line_flags_unstaged(l: Seq<char>) -> bool {
    spec_starts_with(spec_trim(l), "M"@) || spec_starts_with(spec_trim(l), "D"@)
}

/// A branch header line that reports commits not yet pushed: it begins, once
/// trimmed, with `##` and carries an `[ahead ` marker somewhere in it.
pub open spec fn line_flags_ahead(l: Seq<char>) -> bool {
    spec_starts_with(spec_trim(l), "##"@) && spec_contains(l, "[ahead "@)
}

/// Some line of the porcelain status output reports an untracked file.
pub open spec fn spec_has_untracked(out: Seq<char>) -> bool {
    exists|i: int|
        0 <= i < spec_split_lines(out).len() && line_flags_untracked(spec_split_lines(out)[i])
}

/// Some line of the porcelain status output reports an unstaged change.
pub open spec fn spec_has_unstaged(out: Seq<char>) -> bool {
    exists|i: int|
        0 <= i < spec_split_lines(out).len() && line_flags_unstaged(spec_split_lines(out)[i])
}

/// Some line of the porcelain status output reports commits ahead of the
/// remote.
pub open spec fn spec_has_ahead(out: Seq<char>) -> bool {
    exists|i: int|
        0 <= i < spec_split_lines(out).len() && line_flags_ahead(spec_split_lines(out)[i])
}

/// The remote listing names no remote at all: trimmed, it is empty.
pub open spec fn spec_no_remotes(out: Seq<char>) -> bool {
    spec_trim(out).len() == 0
}

/// Exactly the literal names `main` and `master` are default branches.
pub open spec fn spec_is_default_branch(branch: Seq<char>) -> bool {
    branch == "main"@ || branch == "master"@
}

/// The status record the local probes yield, given the output of each
/// subcommand (`None` where it was skipped or failed) and the active filters:
/// a finding is reported exactly where its check is active, its probe's
/// output is there, and the output carries the finding; everything else keeps
/// its default.
pub open spec fn spec_git_status(
    filters: RepoFilters,
    status_out: Option<Seq<char>>,
    remote_out: Option<Seq<char>>,
    branch_out: Option<Seq<char>>,
) -> GitStatusView {
    GitStatusView {
        untracked_files: filters.check_untracked && status_out is Some && spec_has_untracked(
            status_out.unwrap(),
        ),
        unstaged_changes: filters.check_unstaged && status_out is Some && spec_has_unstaged(
            status_out.unwrap(),
        ),
        ahead_of_remote: filters.check_ahead && status_out is Some && spec_has_ahead(
            status_out.unwrap(),
        ),
        missing_remote: filters.check_no_remotes && remote_out is Some && spec_no_remotes(
            remote_out.unwrap(),
        ),
        current_branch: if filters.check_branch && branch_out is Some {
            spec_trim(branch_out.unwrap())
        } else {
            Seq::empty()
        },
        is_default_branch: if filters.check_branch && branch_out is Some {
            spec_is_default_branch(spec_trim(branch_out.unwrap()))
        } else {
            true
        },
    }
}

/// The view of an optional borrowed text.
pub open spec fn opt_text(o: Option<&str>) -> Option<Seq<char>> {
    match o {
        Some(s) => Some(s@),
        None => None,
    }
}

/// Whether some line of the porcelain status output `out` reports an
/// untracked file.
pub fn status_has_untracked(out: &str) -> (b: bool)
    ensures
        b == spec_has_untracked(out@),
{
    let lines = split_lines(out);
    let n = lines.len();
    let mut i: usize = 0;
    while i < n
        invariant
            n == lines@.len(),
            lines.deep_view() == spec_split_lines(out@),
            0 <= i <= n,
            forall|j: int| 0 <= j < i ==> !line_flags_untracked(spec_split_lines(out@)[j]),
        decreases n - i,
    {
        let t = trim(lines[i].as_str());
        if starts_with(t, "??") {
            assert(line_flags_untracked(spec_split_lines(out@)[i as int]));
            return true;
        }
        i += 1;
    }
    false
}

/// Whether some line of the porcelain status output `out` reports an
/// unstaged change.
pub fn status_has_unstaged(out: &str) -> (b: bool)
    ensures
        b == spec_has_unstaged(out@),
{
    let lines = split_lines(out);
    let n = lines.len();
    let mut i: usize = 0;
    while i < n
        invariant
            n == lines@.len(),
            lines.deep_view() == spec_split_lines(out@),
            0 <= i <= n,
            forall|j: int| 0 <= j < i ==> !line_flags_unstaged(spec_split_lines(out@)[j]),
        decreases n - i,
    {
        let t = trim(lines[i].as_str());
        if starts_with(t, "M") || starts_with(t, "D") {
            assert(line_flags_unstaged(spec_split_lines(out@)[i as int]));
            return true;
        }
        i += 1;
    }
    false
}

/// Whether some line of the porcelain status output `out` reports commits
/// ahead of the remote.
pub fn status_has_ahead(out: &str) -> (b: bool)
    ensures
        b == spec_has_ahead(out@),
{
    let lines = split_lines(out);
    let n = lines.len();
    let mut i: usize = 0;
    while i < n
        invariant
            n == lines@.len(),
            lines.deep_view() == spec_split_lines(out@),
            0 <= i <= n,
            forall|j: int| 0 <= j < i ==> !line_flags_ahead(spec_split_lines(out@)[j]),
        decreases n - i,
    {
        let line = lines[i].as_str();
        let t = trim(line);
        if starts_with(t, "##") && has_substring(line, "[ahead ") {
            assert(line_flags_ahead(spec_split_lines(out@)[i as int]));
            return true;
        }
        i += 1;
    }
    false
}

/// Builds the status record from the outputs of the local probes, restricted
/// to the active filters.
///
/// Each `Option` holds the standard output of one subcommand, or `None` where
/// the command was skipped or failed; a `None` leaves the fields it would
/// have filled at their defaults, so one failed probe degrades only its own
/// findings.
pub fn git_status_from_outputs(
    filters: &RepoFilters,
    status_out: Option<&str>,
    remote_out: Option<&str>,
    branch_out: Option<&str>,
) -> (s: GitStatus)
    ensures
        s@ == spec_git_status(*filters, opt_text(status_out), opt_text(remote_out), opt_text(
            branch_out,
        )),
{
    let mut status = GitStatus::new();
    if let Some(out) = status_out {
        if filters.check_untracked {
            status.untracked_files = status_has_untracked(out);
        }
        if filters.check_unstaged {
            status.unstaged_changes = status_has_unstaged(out);
        }
        if filters.check_ahead {
            status.ahead_of_remote = status_has_ahead(out);
        }
    }
    if let Some(out) = remote_out {
        if filters.check_no_remotes {
            let t = trim(out);
            status.missing_remote = t.unicode_len() == 0;
        }
    }
    if let Some(out) = branch_out {
        if filters.check_branch {
            let branch = trim(out);
            status.is_default_branch = str_eq(branch, "main") || str_eq(branch, "master");
            status.current_branch = branch.to_owned();
        }
    }
    assert(status@ =~= spec_git_status(*filters, opt_text(status_out), opt_text(remote_out),
        opt_text(branch_out)));
    status
}

/// A porcelain status output whose single line reports an untracked file
/// reports nothing else: no unstaged change and no ahead marker.
pub proof fn lemma_single_untracked_line(out: Seq<char>)
    requires
        spec_split_lines(out).len() == 1,
        line_flags_untracked(spec_split_lines(out)[0]),
    ensures
        spec_has_untracked(out),
        !spec_has_unstaged(out),
        !spec_has_ahead(out),
{
    let l = spec_split_lines(out)[0];
    let t = spec_trim(l);
    reveal_strlit("??");
    reveal_strlit("M");
    reveal_strlit("D");
    reveal_strlit("##");
    assert(t.subrange(0, "??"@.len() as int)[0] == t[0]);
    assert(t[0] == '?');
    if spec_starts_with(t, "M"@) {
        assert(t.subrange(0, "M"@.len() as int)[0] == t[0]);
        assert(false);
    }
    if spec_starts_with(t, "D"@) {
        assert(t.subrange(0, "D"@.len() as int)[0] == t[0]);
        assert(false);
    }
    if spec_starts_with(t, "##"@) {
        assert(t.subrange(0, "##"@.len() as int)[0] == t[0]);
        assert(false);
    }
    assert(!line_flags_unstaged(l));
    assert(!line_flags_ahead(l));
}

} // verus!
