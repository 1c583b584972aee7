//! Resolving a repository's owner and name from its URL.
use vstd::prelude::*;
use vstd::string::*;

verus! {

/// The non-empty `/`-separated segments of the first `end` characters of
/// `s`, in order: each is a maximal run of characters other than `/`.
pub open spec fn segments_upto(s: Seq<char>, end: int) -> Seq<Seq<char>>
    decreases end,
{
    if end <= 0 {
        Seq::empty()
    } else {
        let prev = segments_upto(s, end - 1);
        let c = s[end - 1];
        if c == '/' {
            prev
        } else if end >= 2 && s[end - 2] != '/' {
            prev.update(prev.len() - 1, prev.last().push(c))
        } else {
            prev.push(seq![c])
        }
    }
}

/// The non-empty `/`-separated segments of `s`, in order.
pub open spec fn segments(s: Seq<char>) -> Seq<Seq<char>> {
    segments_upto(s, s.len() as int)
}

/// The last two non-empty segments of the URL, as (owner, name); `None` when
/// it has fewer than two.
pub open spec fn resolved(url: Seq<char>) -> Option<(Seq<char>, Seq<char>)> {
    let segs = segments(url);
    if segs.len() < 2 {
        None
    } else {
        Some((segs[segs.len() - 2], segs[segs.len() - 1]))
    }
}

/// Owner and name of a repository, taken from its URL.
pub struct RepoInfo {
    pub owner: String,
    pub name: String,
}

proof fn lemma_segments_plain(s: Seq<char>, end: int)
    requires
        0 <= end <= s.len(),
    ensures
        end > 0 && s[end - 1] != '/' ==> segments_upto(s, end).len() > 0,
        forall|k: int|
            0 <= k < segments_upto(s, end).len() ==> (#[trigger] segments_upto(s, end)[k]).len()
                > 0,
        forall|k: int, j: int|
            0 <= k < segments_upto(s, end).len() && 0 <= j < segments_upto(s, end)[k].len()
                ==> #[trigger] segments_upto(s, end)[k][j] != '/',
    decreases end,
{
    if end > 0 {
        lemma_segments_plain(s, end - 1);
        let prev = segments_upto(s, end - 1);
        let segs = segments_upto(s, end);
        let c = s[end - 1];
        if c != '/' && end >= 2 && s[end - 2] != '/' {
            assert forall|k: int, j: int| 0 <= k < segs.len() && 0 <= j < segs[k].len() implies
                #[trigger] segs[k][j] != '/' by {
                if k == prev.len() - 1 && j == prev.last().len() {
                } else if k == prev.len() - 1 {
                    assert(segs[k][j] == prev[k][j]);
                } else {
                    assert(segs[k] == prev[k]);
                }
            }
        } else if c != '/' {
            assert forall|k: int, j: int| 0 <= k < segs.len() && 0 <= j < segs[k].len() implies
                #[trigger] segs[k][j] != '/' by {
                if k < prev.len() {
                    assert(segs[k] == prev[k]);
                }
            }
        }
    }
}

/// Every segment is non-empty and holds no `/`.
pub proof fn lemma_segments_are_plain(url: Seq<char>)
    ensures
        forall|k: int| 0 <= k < segments(url).len() ==> (#[trigger] segments(url)[k]).len() > 0,
        forall|k: int, j: int|
            0 <= k < segments(url).len() && 0 <= j < segments(url)[k].len()
                ==> #[trigger] segments(url)[k][j] != '/',
{
    lemma_segments_plain(url, url.len() as int);
}

proof fn lemma_segments_agree(s: Seq<char>, t: Seq<char>, end: int)
    requires
        0 <= end <= s.len(),
        end <= t.len(),
        s.subrange(0, end) == t.subrange(0, end),
    ensures
        segments_upto(s, end) == segments_upto(t, end),
    decreases end,
{
    if end > 0 {
        assert(s[end - 1] == s.subrange(0, end)[end - 1]);
        assert(t[end - 1] == t.subrange(0, end)[end - 1]);
        if end >= 2 {
            assert(s[end - 2] == s.subrange(0, end)[end - 2]);
            assert(t[end - 2] == t.subrange(0, end)[end - 2]);
        }
        assert(s.subrange(0, end - 1) =~= s.subrange(0, end).subrange(0, end - 1));
        assert(t.subrange(0, end - 1) =~= t.subrange(0, end).subrange(0, end - 1));
        lemma_segments_agree(s, t, end - 1);
    }
}

proof fn lemma_segments_after_slash(a: Seq<char>, b: Seq<char>, k: int)
    requires
        0 <= k <= b.len(),
    ensures
        segments_upto(a + seq!['/'] + b, a.len() + 1 + k) == segments(a) + segments_upto(b, k),
    decreases k,
{
    let s = a + seq!['/'] + b;
    let m = a.len() as int;
    if k == 0 {
        assert(s.subrange(0, m) =~= a.subrange(0, m));
        lemma_segments_agree(s, a, m);
        assert(s[m] == '/');
        assert(segments(a) + segments_upto(b, 0) =~= segments(a));
    } else {
        lemma_segments_after_slash(a, b, k - 1);
        lemma_segments_plain(b, k - 1);
        let prev = segments_upto(b, k - 1);
        let c = b[k - 1];
        assert(s[m + k] == c);
        if k >= 2 {
            assert(s[m + k - 1] == b[k - 2]);
        } else {
            assert(s[m] == '/');
        }
        if c != '/' && k >= 2 && b[k - 2] != '/' {
            assert((segments(a) + prev).update(
                segments(a).len() + prev.len() - 1,
                prev.last().push(c),
            ) =~= segments(a) + prev.update(prev.len() - 1, prev.last().push(c)));
        } else if c != '/' {
            assert((segments(a) + prev).push(seq![c]) =~= segments(a) + prev.push(seq![c]));
        }
    }
}

/// What comes before a `/` does not change the segments after it: a URL
/// with at least two non-empty segments resolves the same under any prefix.
pub proof fn lemma_prefix_ignored(prefix: Seq<char>, url: Seq<char>)
    requires
        segments(url).len() >= 2,
    ensures
        resolved(prefix + seq!['/'] + url) == resolved(url),
{
    lemma_segments_after_slash(prefix, url, url.len() as int);
    let all = segments(prefix + seq!['/'] + url);
    assert(all == segments(prefix) + segments(url));
    assert(all[all.len() - 1] == segments(url)[segments(url).len() - 1]);
    assert(all[all.len() - 2] == segments(url)[segments(url).len() - 2]);
}

/// A URL with at least two non-empty segments resolves to exactly the last
/// two, in (owner, name) order; both are non-empty and hold no `/`.
pub proof fn lemma_resolves_last_two_segments(url: Seq<char>)
    requires
        segments(url).len() >= 2,
    ensures
        resolved(url) == Some(
            (segments(url)[segments(url).len() - 2], segments(url)[segments(url).len() - 1]),
        ),
        resolved(url).unwrap().0.len() > 0,
        resolved(url).unwrap().1.len() > 0,
        forall|j: int|
            0 <= j < resolved(url).unwrap().0.len() ==> #[trigger] resolved(url).unwrap().0[j]
                != '/',
        forall|j: int|
            0 <= j < resolved(url).unwrap().1.len() ==> #[trigger] resolved(url).unwrap().1[j]
                != '/',
{
    lemma_segments_are_plain(url);
    let n = segments(url).len() as int;
    assert forall|j: int| 0 <= j < resolved(url).unwrap().0.len() implies #[trigger] resolved(
        url,
    ).unwrap().0[j] != '/' by {
        assert(segments(url)[n - 2][j] != '/');
    }
    assert forall|j: int| 0 <= j < resolved(url).unwrap().1.len() implies #[trigger] resolved(
        url,
    ).unwrap().1[j] != '/' by {
        assert(segments(url)[n - 1][j] != '/');
    }
}

/// A URL with fewer than two non-empty segments never resolves.
pub proof fn lemma_too_few_segments_fail(url: Seq<char>)
    requires
        segments(url).len() < 2,
    ensures
        resolved(url).is_none(),
{
}

impl RepoInfo {
    /// The last two non-empty segments of the URL, as [`resolved`] says;
    /// `None` when it has fewer than two.
    pub fn from_url(url: &str) -> (r: Option<RepoInfo>)
        ensures
            r.is_some() == resolved(url@).is_some(),
            r.is_some() ==> r.unwrap().owner@ == resolved(url@).unwrap().0
                && r.unwrap().name@ == resolved(url@).unwrap().1,
    {
        let n = url.unicode_len();
        let ghost s = url@;
        // The last segment is s[last_b..last_e], the one before it
        // s[prev_b..prev_e]; `found` counts segments, up to two.
        let mut found: usize = 0;
        let mut prev_b: usize = 0;
        let mut prev_e: usize = 0;
        let mut last_b: usize = 0;
        let mut last_e: usize = 0;
        let mut i: usize = 0;
        while i < n
            invariant
                n == s.len(),
                s == url@,
                i <= n,
                found <= 2,
                found == 2 ==> segments_upto(s, i as int).len() >= 2,
                found < 2 ==> segments_upto(s, i as int).len() == found,
                found >= 1 ==> last_b < last_e <= i && segments_upto(s, i as int).last()
                    == s.subrange(last_b as int, last_e as int),
                found >= 2 ==> prev_b <= prev_e <= i && segments_upto(s, i as int)[segments_upto(
                    s,
                    i as int,
                ).len() - 2] == s.subrange(prev_b as int, prev_e as int),
                i > 0 && s[i - 1] != '/' ==> found >= 1 && last_e == i,
                found >= 1 ==> s[last_e - 1] != '/',
                found == 0 ==> last_e == 0,
            decreases n - i,
        {
            proof {
                lemma_segments_plain(s, i as int);
            }
            let ghost prev = segments_upto(s, i as int);
            let c = url.get_char(i);
            assert(s[i as int] == c);
            let ghost j = i as int;
            if c != '/' {
                if i > 0 && last_e == i {
                    proof {
                        assert(s.subrange(last_b as int, j + 1) =~= s.subrange(
                            last_b as int,
                            j,
                        ).push(c));
                        let segs = segments_upto(s, j + 1);
                        assert(segs.len() == prev.len());
                        assert(segs.last() == prev.last().push(c));
                        if found >= 2 {
                            assert(segs[segs.len() - 2] == prev[prev.len() - 2]);
                        }
                    }
                    last_e = i + 1;
                } else {
                    proof {
                        let segs = segments_upto(s, j + 1);
                        assert(segs == prev.push(seq![c]));
                        assert(s.subrange(j, j + 1) =~= seq![c]);
                    }
                    prev_b = last_b;
                    prev_e = last_e;
                    last_b = i;
                    last_e = i + 1;
                    if found < 2 {
                        found = found + 1;
                    }
                }
            }
            i = i + 1;
        }
        assert(s.len() == n);
        if found < 2 {
            None
        } else {
            let owner = String::from_str(url.substring_char(prev_b, prev_e));
            let name = String::from_str(url.substring_char(last_b, last_e));
            Some(RepoInfo { owner, name })
        }
    }
}

} // verus!
