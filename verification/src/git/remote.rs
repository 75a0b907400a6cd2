//! Reading the remote-listing outputs of a repository: the URL of its primary
//! remote and the names of its remote-tracking branches.
//!
//! The caller runs the subcommands and hands their standard output here as
//! plain text, together with whether the command exited successfully.

use vstd::prelude::*;

use crate::text::{spec_split_lines, spec_starts_with, spec_trim, split_lines, starts_with, trim};

verus! {

/// A remote-tracking branch name with a leading `origin/` removed; any other
/// name is kept whole.
pub open spec fn spec_strip_origin(t: Seq<char>) -> Seq<char> {
    if spec_starts_with(t, "origin/"@) {
        t.skip("origin/"@.len() as int)
    } else {
        t
    }
}

/// The branch names among the given lines: each line trimmed, empty ones
/// dropped, a leading `origin/` removed.
pub open spec fn spec_remote_branches(lines: Seq<Seq<char>>) -> Seq<Seq<char>>
    decreases lines.len(),
{
    if lines.len() == 0 {
        Seq::empty()
    } else {
        let rest = spec_remote_branches(lines.drop_last());
        let t = spec_trim(lines.last());
        if t.len() == 0 {
            rest
        } else {
            rest.push(spec_strip_origin(t))
        }
    }
}

/// The primary remote URL read from the output of the configuration query:
/// the trimmed output, provided the query succeeded and left something.
/// `None` says the repository has no identifiable upstream, which is not an
/// error.
pub fn remote_url_from_output(success: bool, out: &str) -> (r: Option<String>)
    ensures
        (r is Some) == (success && spec_trim(out@).len() > 0),
        r is Some ==> r.unwrap()@ == spec_trim(out@),
{
    if !success {
        return None;
    }
    let url = trim(out);
    if url.unicode_len() > 0 {
        Some(url.to_owned())
    } else {
        None
    }
}

/// The remote-tracking branch names in the listing output `out`, as
/// [`spec_remote_branches`] describes them over its lines.
pub fn parse_remote_branches(out: &str) -> (r: Vec<String>)
    ensures
        r.deep_view() == spec_remote_branches(spec_split_lines(out@)),
{
    let lines = split_lines(out);
    let ghost dv = lines.deep_view();
    let n = lines.len();
    let mut r: Vec<String> = Vec::new();
    proof {
        assert(dv.take(0) =~= Seq::<Seq<char>>::empty());
        assert(r.deep_view() =~= spec_remote_branches(dv.take(0)));
    }
    let mut i: usize = 0;
    while i < n
        invariant
            n == lines@.len(),
            dv == lines.deep_view(),
            0 <= i <= n,
            r.deep_view() == spec_remote_branches(dv.take(i as int)),
        decreases n - i,
    {
        let ghost prev = r.deep_view();
        let t = trim(lines[i].as_str());
        if t.unicode_len() > 0 {
            if starts_with(t, "origin/") {
                proof {
                    reveal_strlit("origin/");
                }
                let stripped = t.substring_char(7, t.unicode_len());
                assert(stripped@ =~= spec_strip_origin(t@));
                r.push(stripped.to_owned());
            } else {
                assert(t@ == spec_strip_origin(t@));
                r.push(t.to_owned());
            }
            assert(r.deep_view() =~= prev.push(spec_strip_origin(spec_trim(dv[i as int]))));
        }
        proof {
            assert(dv.take(i + 1).drop_last() =~= dv.take(i as int));
            assert(dv.take(i + 1).last() == dv[i as int]);
        }
        i += 1;
    }
    assert(dv.take(n as int) =~= dv);
    r
}

} // verus!
