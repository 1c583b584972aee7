//! The single multi-row statement that stores a repository's issues.
use vstd::prelude::*;
use vstd::string::*;
use crate::issue::{KudosIssue, Timestamp};

verus! {

/// The parameter group of one issue row: number, title, labels, repository
/// id and creation time, in the order of the statement's columns.
pub struct IssueRow {
    pub number: i64,
    pub title: String,
    pub labels: Vec<String>,
    pub repository_id: i32,
    pub issue_created_at: Timestamp,
}

/// One statement with one parameter group per row.
pub struct IssueBatch {
    pub statement: String,
    pub rows: Vec<IssueRow>,
}

pub open spec fn digit_char(d: nat) -> char {
    if d == 0 { '0' }
    else if d == 1 { '1' }
    else if d == 2 { '2' }
    else if d == 3 { '3' }
    else if d == 4 { '4' }
    else if d == 5 { '5' }
    else if d == 6 { '6' }
    else if d == 7 { '7' }
    else if d == 8 { '8' }
    else { '9' }
}

/// The decimal digits of `n`, without leading zeros.
pub open spec fn decimal(n: nat) -> Seq<char>
    decreases n,
{
    if n < 10 {
        seq![digit_char(n)]
    } else {
        decimal(n / 10).push(digit_char(n % 10))
    }
}

/// The placeholder `$p`.
pub open spec fn placeholder(p: nat) -> Seq<char> {
    seq!['$'] + decimal(p)
}

/// The parameter group of the row at index `i`: five consecutive placeholders.
pub open spec fn group_text(i: nat) -> Seq<char> {
    seq!['('] + placeholder(5 * i + 1) + ", "@ + placeholder(5 * i + 2) + ", "@ + placeholder(
        5 * i + 3,
    ) + ", "@ + placeholder(5 * i + 4) + ", "@ + placeholder(5 * i + 5) + seq![')']
}

/// The groups of the first `n` rows, separated by `, `.
pub open spec fn groups_text(n: nat) -> Seq<char>
    decreases n,
{
    if n == 0 {
        Seq::empty()
    } else if n == 1 {
        group_text(0)
    } else {
        groups_text((n - 1) as nat) + ", "@ + group_text((n - 1) as nat)
    }
}

pub open spec fn issue_insert_prefix() -> Seq<char> {
    "INSERT INTO issues (number, title, labels, repository_id, issue_created_at) VALUES "@
}

/// The statement that inserts `n` issue rows at once.
pub open spec fn issue_insert_text(n: nat) -> Seq<char> {
    issue_insert_prefix() + groups_text(n)
}

/// The parameter group that stores `k` under the repository `repository_id`.
pub open spec fn row_of(k: KudosIssue, repository_id: i32) -> IssueRow {
    IssueRow {
        number: k.number,
        title: k.title,
        labels: k.labels,
        repository_id,
        issue_created_at: k.issue_created_at,
    }
}

fn digit_str(d: u128) -> (r: &'static str)
    requires
        d < 10,
    ensures
        r@ == seq![digit_char(d as nat)],
{
    proof {
        reveal_strlit("0");
        reveal_strlit("1");
        reveal_strlit("2");
        reveal_strlit("3");
        reveal_strlit("4");
        reveal_strlit("5");
        reveal_strlit("6");
        reveal_strlit("7");
        reveal_strlit("8");
        reveal_strlit("9");
    }
    let r = if d == 0 { "0" }
    else if d == 1 { "1" }
    else if d == 2 { "2" }
    else if d == 3 { "3" }
    else if d == 4 { "4" }
    else if d == 5 { "5" }
    else if d == 6 { "6" }
    else if d == 7 { "7" }
    else if d == 8 { "8" }
    else { "9" };
    assert(r@ =~= seq![digit_char(d as nat)]);
    r
}

fn push_decimal(out: &mut String, n: u128)
    ensures
        final(out)@ == old(out)@ + decimal(n as nat),
    decreases n,
{
    if n >= 10 {
        push_decimal(out, n / 10);
        out.append(digit_str(n % 10));
        assert(final(out)@ =~= old(out)@ + decimal(n as nat));
    } else {
        out.append(digit_str(n));
    }
}

fn push_placeholder(out: &mut String, p: u128)
    ensures
        final(out)@ == old(out)@ + placeholder(p as nat),
{
    proof {
        reveal_strlit("$");
    }
    out.append("$");
    push_decimal(out, p);
    assert(final(out)@ =~= old(out)@ + placeholder(p as nat));
}

fn push_group(out: &mut String, i: usize)
    ensures
        final(out)@ == old(out)@ + group_text(i as nat),
{
    proof {
        reveal_strlit("(");
        reveal_strlit(", ");
        reveal_strlit(")");
    }
    let base: u128 = 5 * (i as u128);
    out.append("(");
    push_placeholder(out, base + 1);
    out.append(", ");
    push_placeholder(out, base + 2);
    out.append(", ");
    push_placeholder(out, base + 3);
    out.append(", ");
    push_placeholder(out, base + 4);
    out.append(", ");
    push_placeholder(out, base + 5);
    out.append(")");
    assert(final(out)@ =~= old(out)@ + group_text(i as nat));
}

/// The statement and parameter groups that store `issues` under the
/// repository `repository_id`: `None` for no issues, since no statement may
/// be built then; otherwise one statement with one group per issue, in order.
pub fn build_issue_batch(issues: Vec<KudosIssue>, repository_id: i32) -> (r: Option<IssueBatch>)
    ensures
        r.is_none() <==> issues.len() == 0,
        r.is_some() ==> r.unwrap().statement@ == issue_insert_text(issues.len() as nat),
        r.is_some() ==> r.unwrap().rows@ == issues@.map_values(
            |k: KudosIssue| row_of(k, repository_id),
        ),
{
    if issues.len() == 0 {
        return None;
    }
    let ghost all = issues@;
    let n = issues.len();
    let mut statement = String::from_str(
        "INSERT INTO issues (number, title, labels, repository_id, issue_created_at) VALUES ",
    );
    let mut rest = issues;
    let mut rows: Vec<IssueRow> = Vec::new();
    let mut i: usize = 0;
    proof {
        reveal_strlit(", ");
    }
    while rest.len() > 0
        invariant
            n == all.len(),
            n > 0,
            i <= n,
            rest@ == all.subrange(i as int, n as int),
            statement@ == issue_insert_text(i as nat),
            rows@ == all.subrange(0, i as int).map_values(|k: KudosIssue| row_of(k, repository_id)),
        decreases rest.len(),
    {
        let k = rest.remove(0);
        if i > 0 {
            statement.append(", ");
        }
        push_group(&mut statement, i);
        assert(statement@ =~= issue_insert_text((i + 1) as nat));
        rows.push(
            IssueRow {
                number: k.number,
                title: k.title,
                labels: k.labels,
                repository_id,
                issue_created_at: k.issue_created_at,
            },
        );
        assert(rows@ =~= all.subrange(0, i + 1).map_values(|k: KudosIssue| row_of(k, repository_id)));
        i = i + 1;
        assert(rest@ =~= all.subrange(i as int, n as int));
    }
    assert(all.subrange(0, n as int) =~= all);
    Some(IssueBatch { statement, rows })
}

} // verus!
