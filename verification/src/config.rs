//! The resolved configuration values the scan runs under, their defaults, and
//! the reading of a protected-branch listing.
//!
//! Discovering and reading the configuration file itself is the caller's
//! concern; the caller hands the values here resolved, with the command line
//! taking precedence over the file and the file over these defaults.

use vstd::prelude::*;

use crate::text::{spec_split_lines, spec_trim, split_lines, trim};

verus! {

/// The GitHub-specific configuration: an API token, and branch names exempt
/// from the non-default-branch warning.
#[derive(Debug, Clone)]
pub struct GitHubConfig {
    pub token: Option<String>,
    pub protected_branches: Vec<String>,
}

impl Default for GitHubConfig {
    /// No token, no protected branches.
    fn default() -> (c: GitHubConfig)
        ensures
            c.token is None,
            c.protected_branches@.len() == 0,
    {
        GitHubConfig { token: None, protected_branches: Vec::new() }
    }
}

/// The scan configuration: worker count, one toggle per check, and the GitHub
/// section.
#[derive(Debug, Clone)]
pub struct Config {
    pub threads: Option<usize>,
    pub check_untracked: bool,
    pub check_unstaged: bool,
    pub check_ahead: bool,
    pub check_no_remotes: bool,
    pub check_branch: bool,
    pub check_prs: bool,
    pub include_draft_prs: bool,
    pub github: GitHubConfig,
}

impl Default for Config {
    /// Every local check on, the pull-request check off, drafts included
    /// where that check is turned on, and no worker-count cap.
    fn default() -> (c: Config)
        ensures
            c.threads is None,
            c.check_untracked,
            c.check_unstaged,
            c.check_ahead,
            c.check_no_remotes,
            c.check_branch,
            !c.check_prs,
            c.include_draft_prs,
            c.github.token is None,
            c.github.protected_branches@.len() == 0,
    {
        Config {
            threads: None,
            check_untracked: true,
            check_unstaged: true,
            check_ahead: true,
            check_no_remotes: true,
            check_branch: true,
            check_prs: false,
            include_draft_prs: true,
            github: GitHubConfig::default(),
        }
    }
}

/// The branch names a protected-branch listing keeps: each line trimmed,
/// empty lines and `#` comment lines dropped.
pub open spec fn spec_protected_lines(lines: Seq<Seq<char>>) -> Seq<Seq<char>>
    decreases lines.len(),
{
    if lines.len() == 0 {
        Seq::empty()
    } else {
        let rest = spec_protected_lines(lines.drop_last());
        let t = spec_trim(lines.last());
        if t.len() > 0 && t[0] != '#' {
            rest.push(t)
        } else {
            rest
        }
    }
}

/// The protected branch names in the listing text `content`, as
/// [`spec_protected_lines`] describes them over its lines.
pub fn parse_protected_branches(content: &str) -> (r: Vec<String>)
    ensures
        r.deep_view() == spec_protected_lines(spec_split_lines(content@)),
{
    let lines = split_lines(content);
    let ghost dv = lines.deep_view();
    let n = lines.len();
    let mut r: Vec<String> = Vec::new();
    proof {
        assert(dv.take(0) =~= Seq::<Seq<char>>::empty());
        assert(r.deep_view() =~= spec_protected_lines(dv.take(0)));
    }
    let mut i: usize = 0;
    while i < n
        invariant
            n == lines@.len(),
            dv == lines.deep_view(),
            0 <= i <= n,
            r.deep_view() == spec_protected_lines(dv.take(i as int)),
        decreases n - i,
    {
        let ghost prev = r.deep_view();
        let t = trim(lines[i].as_str());
        if t.unicode_len() > 0 && t.get_char(0) != '#' {
            r.push(t.to_owned());
            assert(r.deep_view() =~= prev.push(spec_trim(dv[i as int])));
        }
        proof {
            assert(dv.take(i + 1).drop_last() =~= dv.take(i as int));
            assert(dv.take(i + 1).last() == dv[i as int]);
        }
        i += 1;
    }
    assert(dv.take(n as int) =~= dv);
    r
}

} // verus!
