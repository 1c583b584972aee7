//! The per-request coordinator. It decides, from each outcome of outside
//! work (a stored row, a fetched page, a written batch, a failure), the next
//! piece of outside work to do, and keeps the running total of stored issues.
use vstd::prelude::*;
use crate::batch::{build_issue_batch, issue_insert_text, IssueBatch, IssueRow};
use crate::issue::{classify, plain_issues, FetchedIssue};
use crate::project::Repository;
use crate::resolve::{resolved, RepoInfo};

verus! {

/// The number of issues fetched per page; only the first page is read.
pub const PAGE_SIZE: u8 = 100;

/// Why an import stopped.
#[derive(Clone, Copy, Debug, PartialEq, Eq, Structural)]
pub enum ImportError {
    /// A repository URL has fewer than two path segments.
    IdentityResolution,
    /// The issue tracker could not be reached, refused the token, or answered
    /// with a failure.
    UpstreamApi,
    /// The store refused a connection or an insert.
    StoreWrite,
}

/// Where an import stands: what outcome it waits for, or how it ended.
#[derive(Clone, Copy, Debug, PartialEq, Eq, Structural)]
pub enum Phase {
    AwaitingProject,
    AwaitingRepository,
    AwaitingIssues,
    AwaitingWrite,
    Finished,
    Aborted,
}

/// The next piece of work, or the end of the import.
pub enum Action {
    /// Store a repository row with this label under this project id.
    CreateRepository { label: String, project_id: i32 },
    /// Fetch the first page of open issues of `owner/name`.
    FetchIssues { owner: String, name: String, per_page: u8 },
    /// Execute this statement with its parameter groups.
    WriteIssues { batch: IssueBatch },
    /// Every repository was imported; `total` issue rows were stored.
    Finished { total: u128 },
    /// The import stopped on this error; no further work is done.
    Aborted { error: ImportError },
}

/// The sum of the counts.
pub open spec fn sum(s: Seq<u64>) -> int
    decreases s.len(),
{
    if s.len() == 0 {
        0
    } else {
        sum(s.drop_last()) + s.last()
    }
}

/// `r` stores the plain issue `f` under the repository `repository_id`.
pub open spec fn stored_row(f: FetchedIssue, r: IssueRow, repository_id: i32) -> bool {
    &&& r.number == #[verifier::truncate] (f.number as i64)
    &&& r.title@ == f.title@
    &&& r.labels@ == f.labels@
    &&& r.repository_id == repository_id
    &&& r.issue_created_at == f.created_at
}

/// The import runs the repositories in order, one at a time.
pub struct Importer {
    repositories: Vec<Repository>,
    project_id: i32,
    repository_id: i32,
    current: usize,
    info: Option<RepoInfo>,
    phase: Phase,
    total: u128,
    counts: Ghost<Seq<u64>>,
}

impl Importer {
    pub closed spec fn repositories(&self) -> Seq<Repository> {
        self.repositories@
    }

    pub closed spec fn project_id(&self) -> i32 {
        self.project_id
    }

    pub closed spec fn repository_id(&self) -> i32 {
        self.repository_id
    }

    /// The index of the repository being imported.
    pub closed spec fn current(&self) -> int {
        self.current as int
    }

    pub closed spec fn phase_spec(&self) -> Phase {
        self.phase
    }

    /// The row count the store reported for each repository done so far, in
    /// order; zero for one that had no plain issue to store.
    pub closed spec fn reported(&self) -> Seq<u64> {
        self.counts@
    }

    pub closed spec fn total_spec(&self) -> int {
        self.total as int
    }

    pub closed spec fn wf(&self) -> bool {
        &&& self.total == sum(self.counts@)
        &&& self.current <= self.repositories.len()
        &&& self.counts@.len() <= self.current
        &&& (self.phase == Phase::AwaitingProject) ==> self.current == 0 && self.counts@.len() == 0
        &&& (self.phase == Phase::AwaitingRepository || self.phase == Phase::AwaitingIssues
            || self.phase == Phase::AwaitingWrite) ==> {
            &&& self.current < self.repositories.len()
            &&& self.counts@.len() == self.current
        }
        &&& (self.phase == Phase::AwaitingRepository || self.phase == Phase::AwaitingIssues) ==> {
            let r = resolved(self.repositories@[self.current as int].url@);
            &&& self.info.is_some()
            &&& r.is_some()
            &&& self.info.unwrap().owner@ == r.unwrap().0
            &&& self.info.unwrap().name@ == r.unwrap().1
        }
        &&& (self.phase == Phase::Finished) ==> self.counts@.len() == self.repositories.len()
    }

    /// The phase after the import moved on to the repository at `current()`,
    /// and the action it returned then.
    pub open spec fn entered(&self, a: Action) -> bool {
        let i = self.current();
        let repos = self.repositories();
        &&& self.reported().len() == i
        &&& match a {
            Action::Finished { total } => {
                &&& i == repos.len()
                &&& total == sum(self.reported())
                &&& self.phase_spec() == Phase::Finished
            },
            Action::Aborted { error } => {
                &&& i < repos.len()
                &&& resolved(repos[i].url@).is_none()
                &&& error == ImportError::IdentityResolution
                &&& self.phase_spec() == Phase::Aborted
            },
            Action::CreateRepository { label, project_id } => {
                &&& i < repos.len()
                &&& resolved(repos[i].url@).is_some()
                &&& label@ == repos[i].label@
                &&& project_id == self.project_id()
                &&& self.phase_spec() == Phase::AwaitingRepository
            },
            _ => false,
        }
    }

    /// A new import of these repositories, waiting for the project row.
    pub fn new(repositories: Vec<Repository>) -> (r: Importer)
        ensures
            r.wf(),
            r.repositories() == repositories@,
            r.phase_spec() == Phase::AwaitingProject,
            r.reported().len() == 0,
            r.total_spec() == 0,
    {
        Importer {
            repositories,
            project_id: 0,
            repository_id: 0,
            current: 0,
            info: None,
            phase: Phase::AwaitingProject,
            total: 0,
            counts: Ghost(Seq::empty()),
        }
    }

    /// The repository whose row is to be stored next.
    pub fn current_repository(&self) -> (r: &Repository)
        requires
            self.wf(),
            self.phase_spec() == Phase::AwaitingRepository,
        ensures
            *r == self.repositories()[self.current()],
    {
        &self.repositories[self.current]
    }

    pub fn phase(&self) -> (r: Phase)
        ensures
            r == self.phase_spec(),
    {
        self.phase
    }

    /// The number of issue rows stored so far.
    pub fn total(&self) -> (r: u128)
        requires
            self.wf(),
        ensures
            r == self.total_spec(),
            r == sum(self.reported()),
    {
        self.total
    }

    /// Moves on to the repository at `self.current`.
    fn enter(&mut self) -> (a: Action)
        requires
            old(self).total == sum(old(self).counts@),
            old(self).current <= old(self).repositories.len(),
            old(self).counts@.len() == old(self).current,
        ensures
            final(self).wf(),
            final(self).entered(a),
            final(self).repositories() == old(self).repositories(),
            final(self).project_id() == old(self).project_id(),
            final(self).repository_id() == old(self).repository_id(),
            final(self).current() == old(self).current(),
            final(self).reported() == old(self).reported(),
    {
        if self.current == self.repositories.len() {
            self.phase = Phase::Finished;
            return Action::Finished { total: self.total };
        }
        let i = self.current;
        match RepoInfo::from_url(self.repositories[i].url.as_str()) {
            None => {
                self.phase = Phase::Aborted;
                Action::Aborted { error: ImportError::IdentityResolution }
            },
            Some(info) => {
                self.info = Some(info);
                self.phase = Phase::AwaitingRepository;
                Action::CreateRepository {
                    label: self.repositories[i].label.clone(),
                    project_id: self.project_id,
                }
            },
        }
    }

    /// The project row was stored under `project_id`: the first repository
    /// comes next.
    pub fn on_project_created(&mut self, project_id: i32) -> (a: Action)
        requires
            old(self).wf(),
            old(self).phase_spec() == Phase::AwaitingProject,
        ensures
            final(self).wf(),
            final(self).repositories() == old(self).repositories(),
            final(self).project_id() == project_id,
            final(self).current() == 0,
            final(self).entered(a),
    {
        self.project_id = project_id;
        self.enter()
    }

    /// The current repository's row was stored under `repository_id`: its
    /// first page of open issues is fetched next.
    pub fn on_repository_created(&mut self, repository_id: i32) -> (a: Action)
        requires
            old(self).wf(),
            old(self).phase_spec() == Phase::AwaitingRepository,
        ensures
            final(self).wf(),
            final(self).repositories() == old(self).repositories(),
            final(self).project_id() == old(self).project_id(),
            final(self).repository_id() == repository_id,
            final(self).current() == old(self).current(),
            final(self).reported() == old(self).reported(),
            final(self).phase_spec() == Phase::AwaitingIssues,
            match a {
                Action::FetchIssues { owner, name, per_page } => {
                    let r = resolved(old(self).repositories()[old(self).current()].url@);
                    &&& r.is_some()
                    &&& owner@ == r.unwrap().0
                    &&& name@ == r.unwrap().1
                    &&& per_page == PAGE_SIZE
                },
                _ => false,
            },
    {
        self.repository_id = repository_id;
        self.phase = Phase::AwaitingIssues;
        match &self.info {
            Some(info) => Action::FetchIssues {
                owner: info.owner.clone(),
                name: info.name.clone(),
                per_page: PAGE_SIZE,
            },
            None => Action::Aborted { error: ImportError::IdentityResolution },
        }
    }

    /// The current repository's page was fetched. Its plain issues are
    /// written in one batch; where there is none, nothing is written, zero is
    /// reported for the repository, and the next repository comes.
    pub fn on_issues_fetched(&mut self, items: Vec<FetchedIssue>) -> (a: Action)
        requires
            old(self).wf(),
            old(self).phase_spec() == Phase::AwaitingIssues,
        ensures
            final(self).wf(),
            final(self).repositories() == old(self).repositories(),
            final(self).project_id() == old(self).project_id(),
            final(self).repository_id() == old(self).repository_id(),
            plain_issues(items@).len() == 0 ==> {
                &&& final(self).current() == old(self).current() + 1
                &&& final(self).reported() == old(self).reported().push(0)
                &&& final(self).entered(a)
            },
            plain_issues(items@).len() > 0 ==> {
                &&& final(self).current() == old(self).current()
                &&& final(self).reported() == old(self).reported()
                &&& final(self).phase_spec() == Phase::AwaitingWrite
                &&& match a {
                    Action::WriteIssues { batch } => {
                        &&& batch.statement@ == issue_insert_text(plain_issues(items@).len())
                        &&& batch.rows.len() == plain_issues(items@).len()
                        &&& forall|i: int|
                            0 <= i < batch.rows.len() ==> stored_row(
                                #[trigger] plain_issues(items@)[i],
                                batch.rows[i],
                                old(self).repository_id(),
                            )
                    },
                    _ => false,
                }
            },
    {
        let issues = classify(items);
        match build_issue_batch(issues, self.repository_id) {
            None => {
                self.counts = Ghost(self.counts@.push(0));
                self.current = self.current + 1;
                assert(self.counts@.drop_last() =~= old(self).counts@);
                self.enter()
            },
            Some(batch) => {
                self.phase = Phase::AwaitingWrite;
                Action::WriteIssues { batch }
            },
        }
    }

    /// The store reported `count` rows written for the current repository:
    /// the count is added to the total and the next repository comes.
    pub fn on_issues_written(&mut self, count: u64) -> (a: Action)
        requires
            old(self).wf(),
            old(self).phase_spec() == Phase::AwaitingWrite,
        ensures
            final(self).wf(),
            final(self).repositories() == old(self).repositories(),
            final(self).project_id() == old(self).project_id(),
            final(self).current() == old(self).current() + 1,
            final(self).reported() == old(self).reported().push(count),
            final(self).total_spec() == old(self).total_spec() + count,
            final(self).entered(a),
    {
        proof {
            lemma_sum_bound(self.counts@);
            let n = self.counts@.len() as int;
            assert(n + 1 <= 0x1_0000_0000_0000_0000);
            assert((n + 1) * 0xFFFF_FFFF_FFFF_FFFF <= 0x1_0000_0000_0000_0000
                * 0xFFFF_FFFF_FFFF_FFFF) by (nonlinear_arith)
                requires
                    n + 1 <= 0x1_0000_0000_0000_0000,
            ;
        }
        self.total = self.total + count as u128;
        self.counts = Ghost(self.counts@.push(count));
        self.current = self.current + 1;
        assert(self.counts@.drop_last() =~= old(self).counts@);
        self.enter()
    }

    /// A step of outside work failed: the import stops here, and no further
    /// repository is attempted.
    pub fn on_failure(&mut self, error: ImportError) -> (a: Action)
        requires
            old(self).wf(),
            old(self).phase_spec() != Phase::Finished,
            old(self).phase_spec() != Phase::Aborted,
        ensures
            final(self).wf(),
            final(self).repositories() == old(self).repositories(),
            final(self).current() == old(self).current(),
            final(self).reported() == old(self).reported(),
            final(self).phase_spec() == Phase::Aborted,
            a == (Action::Aborted { error }),
    {
        self.phase = Phase::Aborted;
        Action::Aborted { error }
    }
}

proof fn lemma_sum_bound(s: Seq<u64>)
    ensures
        0 <= sum(s) <= s.len() * 0xFFFF_FFFF_FFFF_FFFF,
    decreases s.len(),
{
    if s.len() > 0 {
        lemma_sum_bound(s.drop_last());
    }
}

/// The total an import holds, and so the total it finishes with, is the sum
/// of the row counts reported for the repositories it reached.
pub proof fn lemma_total_is_sum_of_reported(imp: &Importer)
    requires
        imp.wf(),
    ensures
        imp.total_spec() == sum(imp.reported()),
{
}

} // verus!
