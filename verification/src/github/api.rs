//! Resolving a repository's remote URL to a GitHub owner and repository name.

use vstd::prelude::*;

use crate::text::{
    ends_with, find_ch, find_char, lemma_find_ch_bounds, spec_ends_with, spec_starts_with,
    spec_trim, starts_with, trim,
};

verus! {

/// The remote URL matches none of the recognized GitHub shapes.
#[derive(Debug, Clone, Copy, PartialEq, Eq, Structural)]
pub struct UrlParseError;

/// A path with one trailing `.git` removed; any other path is kept whole.
pub open spec fn spec_strip_git(s: Seq<char>) -> Seq<char> {
    if spec_ends_with(s, ".git"@) {
        s.take(s.len() - ".git"@.len())
    } else {
        s
    }
}

/// The first two `/`-separated segments of `path`: everything before the
/// first `/` and the segment after it. `None` where `path` has no `/` at all.
pub open spec fn spec_owner_repo(path: Seq<char>) -> Option<(Seq<char>, Seq<char>)> {
    let i = find_ch(path, '/');
    if i == path.len() {
        None
    } else {
        let rest = path.skip(i + 1);
        Some((path.take(i), rest.take(find_ch(rest, '/'))))
    }
}

/// The owner and repository name of a GitHub remote URL, or `None` where the
/// URL has none of the recognized shapes.
///
/// The URL is trimmed; the shapes tried are `https://github.com/<owner>/<repo>`,
/// `git@github.com:<owner>/<repo>` and `git://github.com/<owner>/<repo>`, each
/// with an optional trailing `.git`.
pub open spec fn spec_parse_github_url(url: Seq<char>) -> Option<(Seq<char>, Seq<char>)> {
    let u = spec_trim(url);
    if spec_starts_with(u, "https://github.com/"@) {
        spec_owner_repo(spec_strip_git(u.skip("https://github.com/"@.len() as int)))
    } else if spec_starts_with(u, "git@github.com:"@) {
        spec_owner_repo(spec_strip_git(u.skip("git@github.com:"@.len() as int)))
    } else if spec_starts_with(u, "git://github.com/"@) {
        spec_owner_repo(spec_strip_git(u.skip("git://github.com/"@.len() as int)))
    } else {
        None
    }
}

/// `s` with one trailing `.git` removed, as [`spec_strip_git`] describes.
fn strip_git_suffix<'a>(s: &'a str) -> (r: &'a str)
    ensures
        r@ == spec_strip_git(s@),
{
    let tag = ".git";
    if ends_with(s, tag) {
        let n = s.unicode_len();
        let m = tag.unicode_len();
        let r = s.substring_char(0, n - m);
        assert(r@ =~= s@.take(s@.len() - ".git"@.len()));
        r
    } else {
        s
    }
}

/// The first two `/`-separated segments of `path`, as [`spec_owner_repo`]
/// describes them.
fn owner_repo_of(path: &str) -> (r: Option<(String, String)>)
    ensures
        (r is Some) == (spec_owner_repo(path@) is Some),
        r is Some ==> spec_owner_repo(path@) == Some((r.unwrap().0@, r.unwrap().1@)),
{
    let n = path.unicode_len();
    let i = find_char(path, '/');
    if i == n {
        return None;
    }
    let owner = path.substring_char(0, i);
    let rest = path.substring_char(i + 1, n);
    assert(rest@ =~= path@.skip(i + 1));
    let j = find_char(rest, '/');
    let repo = rest.substring_char(0, j);
    proof {
        lemma_find_ch_bounds(rest@, '/');
        assert(owner@ =~= path@.take(i as int));
        assert(repo@ =~= rest@.take(find_ch(rest@, '/')));
    }
    Some((owner.to_owned(), repo.to_owned()))
}

/// Resolves a remote URL to its GitHub owner and repository name, as
/// [`spec_parse_github_url`] describes; a URL of an unrecognized shape — a
/// different host, or no two path segments — is an error.
pub fn parse_github_url(url: &str) -> (r: Result<(String, String), UrlParseError>)
    ensures
        (r is Ok) == (spec_parse_github_url(url@) is Some),
        r matches Ok(p) ==> spec_parse_github_url(url@) == Some((p.0@, p.1@)),
{
    let u = trim(url);
    let n = u.unicode_len();
    let https = "https://github.com/";
    let ssh = "git@github.com:";
    let daemon = "git://github.com/";
    if starts_with(u, https) {
        let tail = u.substring_char(https.unicode_len(), n);
        assert(tail@ =~= u@.skip("https://github.com/"@.len() as int));
        match owner_repo_of(strip_git_suffix(tail)) {
            Some(pair) => Ok(pair),
            None => Err(UrlParseError),
        }
    } else if starts_with(u, ssh) {
        let tail = u.substring_char(ssh.unicode_len(), n);
        assert(tail@ =~= u@.skip("git@github.com:"@.len() as int));
        match owner_repo_of(strip_git_suffix(tail)) {
            Some(pair) => Ok(pair),
            None => Err(UrlParseError),
        }
    } else if starts_with(u, daemon) {
        let tail = u.substring_char(daemon.unicode_len(), n);
        assert(tail@ =~= u@.skip("git://github.com/"@.len() as int));
        match owner_repo_of(strip_git_suffix(tail)) {
            Some(pair) => Ok(pair),
            None => Err(UrlParseError),
        }
    } else {
        Err(UrlParseError)
    }
}

} // verus!
