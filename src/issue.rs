//! Issues as fetched from the tracker, and the canonical records kept of them.
use vstd::prelude::*;

verus! {

/// An instant as seconds and nanoseconds since the Unix epoch, in UTC.
#[derive(Clone, Copy, Debug, PartialEq, Eq, Structural)]
pub struct Timestamp {
    pub seconds: i64,
    pub nanos: u32,
}

/// One item of a page listed by the tracker's issues endpoint, which also
/// lists pull requests; `is_pull_request` says whether the item carries the
/// pull-request marker.
pub struct FetchedIssue {
    pub number: u64,
    pub title: String,
    pub html_url: String,
    pub created_at: Timestamp,
    pub updated_at: Timestamp,
    pub user_login: String,
    pub labels: Vec<String>,
    pub is_pull_request: bool,
}

/// The canonical record of an issue.
pub struct KudosIssue {
    pub number: i64,
    pub title: String,
    pub html_url: String,
    pub issue_created_at: Timestamp,
    pub issue_updated_at: Timestamp,
    pub user: String,
    pub labels: Vec<String>,
}

/// The canonical record of a fetched item, field by field.
pub open spec fn canonical(f: FetchedIssue, k: KudosIssue) -> bool {
    &&& k.number == #[verifier::truncate] (f.number as i64)
    &&& k.title@ == f.title@
    &&& k.html_url@ == f.html_url@
    &&& k.issue_created_at == f.created_at
    &&& k.issue_updated_at == f.updated_at
    &&& k.user@ == f.user_login@
    &&& k.labels@ == f.labels@
}

/// The items of a page that carry no pull-request marker, in page order.
pub open spec fn plain_issues(items: Seq<FetchedIssue>) -> Seq<FetchedIssue> {
    items.filter(|f: FetchedIssue| !f.is_pull_request)
}

impl vstd::std_specs::convert::FromSpecImpl<FetchedIssue> for KudosIssue {
    open spec fn obeys_from_spec() -> bool {
        true
    }

    open spec fn from_spec(v: FetchedIssue) -> KudosIssue {
        KudosIssue {
            number: #[verifier::truncate] (v.number as i64),
            title: v.title,
            html_url: v.html_url,
            issue_created_at: v.created_at,
            issue_updated_at: v.updated_at,
            user: v.user_login,
            labels: v.labels,
        }
    }
}

impl From<FetchedIssue> for KudosIssue {
    fn from(value: FetchedIssue) -> (r: KudosIssue)
        ensures
            canonical(value, r),
    {
        KudosIssue {
            number: #[verifier::truncate] (value.number as i64),
            title: value.title,
            html_url: value.html_url,
            issue_created_at: value.created_at,
            issue_updated_at: value.updated_at,
            user: value.user_login,
            labels: value.labels,
        }
    }
}

/// Drops every item that carries the pull-request marker and turns each other
/// item into its canonical record, keeping the page's order.
pub fn classify(items: Vec<FetchedIssue>) -> (r: Vec<KudosIssue>)
    ensures
        r.len() == plain_issues(items@).len(),
        forall|i: int| 0 <= i < r.len() ==> canonical(#[trigger] plain_issues(items@)[i], r[i]),
{
    let ghost all = items@;
    let mut rest = items;
    let mut out: Vec<KudosIssue> = Vec::new();
    let mut taken: usize = 0;
    let n = rest.len();
    while rest.len() > 0
        invariant
            n == all.len(),
            taken <= n,
            rest@ == all.subrange(taken as int, n as int),
            out.len() == plain_issues(all.subrange(0, taken as int)).len(),
            forall|i: int|
                0 <= i < out.len() ==> canonical(
                    #[trigger] plain_issues(all.subrange(0, taken as int))[i],
                    out[i],
                ),
        decreases rest.len(),
    {
        let item = rest.remove(0);
        let ghost before = all.subrange(0, taken as int);
        let ghost after = all.subrange(0, taken + 1);
        assert(after.drop_last() =~= before);
        assert(after.last() == item);
        proof {
            reveal(Seq::filter);
        }
        if !item.is_pull_request {
            assert(plain_issues(after) == plain_issues(before).push(item));
            out.push(KudosIssue::from(item));
        } else {
            assert(plain_issues(after) == plain_issues(before));
        }
        taken = taken + 1;
        assert(rest@ =~= all.subrange(taken as int, n as int));
    }
    assert(all.subrange(0, n as int) =~= all);
    out
}

} // verus!
