//! Open pull requests: the record the remote API hands back, the normalized
//! value the report carries, and the draft-filter policy.

use vstd::prelude::*;

verus! {

/// One open pull request as the report carries it.
#[derive(Debug, Clone)]
pub struct PullRequestInfo {
    pub number: u64,
    pub title: String,
    pub branch: String,
    pub is_draft: bool,
}

/// The mathematical value of a [`PullRequestInfo`].
#[verifier::ext_equal]
pub struct PullRequestInfoView {
    pub number: u64,
    pub title: Seq<char>,
    pub branch: Seq<char>,
    pub is_draft: bool,
}

impl View for PullRequestInfo {
    type V = PullRequestInfoView;

    open spec fn view(&self) -> PullRequestInfoView {
        PullRequestInfoView {
            number: self.number,
            title: self.title@,
            branch: self.branch@,
            is_draft: self.is_draft,
        }
    }
}

impl DeepView for PullRequestInfo {
    type V = PullRequestInfoView;

    open spec fn deep_view(&self) -> PullRequestInfoView {
        self.view()
    }
}

/// One open pull request as the remote API reports it: the title may be
/// absent, and so may the draft marker.
#[derive(Debug, Clone)]
pub struct PullRequestRecord {
    pub number: u64,
    pub title: Option<String>,
    pub branch: String,
    pub is_draft: Option<bool>,
}

/// The mathematical value of a [`PullRequestRecord`].
#[verifier::ext_equal]
pub struct PullRequestRecordView {
    pub number: u64,
    pub title: Option<Seq<char>>,
    pub branch: Seq<char>,
    pub is_draft: Option<bool>,
}

impl View for PullRequestRecord {
    type V = PullRequestRecordView;

    open spec fn view(&self) -> PullRequestRecordView {
        PullRequestRecordView {
            number: self.number,
            title: match self.title {
                Some(t) => Some(t@),
                None => None,
            },
            branch: self.branch@,
            is_draft: self.is_draft,
        }
    }
}

impl DeepView for PullRequestRecord {
    type V = PullRequestRecordView;

    open spec fn deep_view(&self) -> PullRequestRecordView {
        self.view()
    }
}

/// Normalizes one record: an absent title becomes the empty title, an absent
/// draft marker means the pull request is not a draft.
pub open spec fn spec_pr_info(rec: PullRequestRecordView) -> PullRequestInfoView {
    PullRequestInfoView {
        number: rec.number,
        title: match rec.title {
            Some(t) => t,
            None => Seq::empty(),
        },
        branch: rec.branch,
        is_draft: match rec.is_draft {
            Some(d) => d,
            None => false,
        },
    }
}

/// Normalizes each record in order.
pub open spec fn spec_pr_infos(recs: Seq<PullRequestRecordView>) -> Seq<PullRequestInfoView> {
    recs.map_values(|rec: PullRequestRecordView| spec_pr_info(rec))
}

/// The pull requests that count: all of them when drafts are included,
/// otherwise only the ones that are not drafts, in order.
pub open spec fn spec_keep_prs(prs: Seq<PullRequestInfoView>, include_drafts: bool) -> Seq<
    PullRequestInfoView,
>
    decreases prs.len(),
{
    if prs.len() == 0 {
        Seq::empty()
    } else {
        let rest = spec_keep_prs(prs.drop_last(), include_drafts);
        if include_drafts || !prs.last().is_draft {
            rest.push(prs.last())
        } else {
            rest
        }
    }
}

/// With drafts included the policy keeps everything, in order.
pub proof fn lemma_keep_prs_all(prs: Seq<PullRequestInfoView>)
    ensures
        spec_keep_prs(prs, true) == prs,
    decreases prs.len(),
{
    if prs.len() > 0 {
        lemma_keep_prs_all(prs.drop_last());
        assert(spec_keep_prs(prs, true) =~= prs);
    }
}

/// The policy never lengthens the list.
pub proof fn lemma_keep_prs_len(prs: Seq<PullRequestInfoView>, include_drafts: bool)
    ensures
        spec_keep_prs(prs, include_drafts).len() <= prs.len(),
    decreases prs.len(),
{
    if prs.len() > 0 {
        lemma_keep_prs_len(prs.drop_last(), include_drafts);
    }
}

/// An owned copy of a pull request, equal to the original.
fn duplicate_info(p: &PullRequestInfo) -> (r: PullRequestInfo)
    ensures
        r == *p,
{
    PullRequestInfo {
        number: p.number,
        title: p.title.clone(),
        branch: p.branch.clone(),
        is_draft: p.is_draft,
    }
}

/// Normalizes the records the remote API handed back, as [`spec_pr_info`]
/// describes: a missing title degrades to the empty string rather than
/// failing the repository, and a missing draft marker counts as not a draft.
pub fn pr_infos_from_records(records: &Vec<PullRequestRecord>) -> (r: Vec<PullRequestInfo>)
    ensures
        r.deep_view() == spec_pr_infos(records.deep_view()),
{
    let ghost dv = records.deep_view();
    let n = records.len();
    let mut r: Vec<PullRequestInfo> = Vec::new();
    proof {
        assert(r.deep_view() =~= spec_pr_infos(dv.take(0)));
    }
    let mut i: usize = 0;
    while i < n
        invariant
            n == records@.len(),
            dv == records.deep_view(),
            0 <= i <= n,
            r.deep_view() == spec_pr_infos(dv.take(i as int)),
        decreases n - i,
    {
        let ghost prev = r.deep_view();
        let rec = &records[i];
        let title = match &rec.title {
            Some(t) => t.clone(),
            None => String::new(),
        };
        let info = PullRequestInfo {
            number: rec.number,
            title,
            branch: rec.branch.clone(),
            is_draft: match rec.is_draft {
                Some(d) => d,
                None => false,
            },
        };
        assert(info@ =~= spec_pr_info(dv[i as int]));
        r.push(info);
        proof {
            assert(r.deep_view() =~= prev.push(spec_pr_info(dv[i as int])));
            assert(spec_pr_infos(dv.take(i + 1)) =~~= prev.push(spec_pr_info(dv[i as int])));
        }
        i += 1;
    }
    assert(dv.take(n as int) =~= dv);
    r
}

/// Keeps the pull requests that count under the draft policy, as
/// [`spec_keep_prs`] describes: with `include_drafts` false the drafts are
/// dropped, with it true everything stays, in order either way.
pub fn filter_pull_requests(prs: &Vec<PullRequestInfo>, include_drafts: bool) -> (r: Vec<
    PullRequestInfo,
>)
    ensures
        r.deep_view() == spec_keep_prs(prs.deep_view(), include_drafts),
{
    let ghost dv = prs.deep_view();
    let n = prs.len();
    let mut r: Vec<PullRequestInfo> = Vec::new();
    proof {
        assert(dv.take(0) =~= Seq::<PullRequestInfoView>::empty());
        assert(r.deep_view() =~= spec_keep_prs(dv.take(0), include_drafts));
    }
    let mut i: usize = 0;
    while i < n
        invariant
            n == prs@.len(),
            dv == prs.deep_view(),
            0 <= i <= n,
            r.deep_view() == spec_keep_prs(dv.take(i as int), include_drafts),
        decreases n - i,
    {
        let ghost prev = r.deep_view();
        if include_drafts || !prs[i].is_draft {
            let copy = duplicate_info(&prs[i]);
            r.push(copy);
            assert(r.deep_view() =~= prev.push(dv[i as int]));
        }
        proof {
            assert(dv.take(i + 1).drop_last() =~= dv.take(i as int));
            assert(dv.take(i + 1).last() == dv[i as int]);
        }
        i += 1;
    }
    assert(dv.take(n as int) =~= dv);
    r
}

} // verus!
