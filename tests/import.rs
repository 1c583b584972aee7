use kudos_import::batch::build_issue_batch;
use kudos_import::import::{Action, ImportError, Importer, Phase, PAGE_SIZE};
use kudos_import::issue::{classify, FetchedIssue, KudosIssue, Timestamp};
use kudos_import::project::{Project, ProjectAttributes, ProjectLinks, Repository};
use kudos_import::resolve::RepoInfo;

fn ts(seconds: i64) -> Timestamp {
    Timestamp { seconds, nanos: 0 }
}

fn item(number: u64, is_pull_request: bool) -> FetchedIssue {
    FetchedIssue {
        number,
        title: format!("issue {}", number),
        html_url: format!("https://github.com/acme/widgets/issues/{}", number),
        created_at: ts(1_700_000_000 + number as i64),
        updated_at: ts(1_700_100_000 + number as i64),
        user_login: "octo".to_string(),
        labels: vec!["bug".to_string(), "good first issue".to_string()],
        is_pull_request,
    }
}

fn repo(label: &str, url: &str) -> Repository {
    Repository { label: label.to_string(), url: url.to_string() }
}

fn resolve(url: &str) -> Option<(String, String)> {
    RepoInfo::from_url(url).map(|r| (r.owner, r.name))
}

const ONE_GROUP: &str =
    "INSERT INTO issues (number, title, labels, repository_id, issue_created_at) VALUES ($1, $2, $3, $4, $5)";

#[test]
fn resolves_owner_and_name_with_trailing_slash() {
    assert_eq!(
        resolve("https://github.com/acme/widgets/"),
        Some(("acme".to_string(), "widgets".to_string()))
    );
}

#[test]
fn resolves_owner_and_name_without_trailing_slash() {
    assert_eq!(
        resolve("https://github.com/acme/widgets"),
        Some(("acme".to_string(), "widgets".to_string()))
    );
}

#[test]
fn resolves_through_several_trailing_slashes() {
    assert_eq!(resolve("https://github.com/a/b///"), Some(("a".to_string(), "b".to_string())));
}

#[test]
fn resolves_two_bare_segments() {
    assert_eq!(resolve("acme/widgets"), Some(("acme".to_string(), "widgets".to_string())));
}

#[test]
fn resolution_of_single_segment_fails() {
    assert_eq!(resolve("widgets"), None);
    assert_eq!(resolve("widgets/"), None);
    assert_eq!(resolve(""), None);
}

#[test]
fn resolution_skips_empty_interior_segments() {
    assert_eq!(resolve("a//b"), Some(("a".to_string(), "b".to_string())));
    assert_eq!(
        resolve("https://github.com/acme//widgets"),
        Some(("acme".to_string(), "widgets".to_string()))
    );
}

#[test]
fn resolution_of_one_non_empty_segment_fails() {
    assert_eq!(resolve("/widgets"), None);
    assert_eq!(resolve("//widgets"), None);
    assert_eq!(resolve("/"), None);
    assert_eq!(resolve("///"), None);
}

#[test]
fn resolution_ignores_what_precedes_the_last_two() {
    assert_eq!(resolve("x/y/z/acme/widgets"), resolve("acme/widgets"));
    assert_eq!(resolve("https:/acme/widgets"), Some(("acme".to_string(), "widgets".to_string())));
}

#[test]
fn resolution_takes_segments_verbatim() {
    assert_eq!(resolve("x/a b/c.d"), Some(("a b".to_string(), "c.d".to_string())));
}

#[test]
fn resolution_keeps_non_ascii_segments() {
    assert_eq!(resolve("x/ünï/cødé"), Some(("ünï".to_string(), "cødé".to_string())));
}

#[test]
fn classifier_drops_pull_requests_in_order() {
    let page = vec![item(1, false), item(2, true), item(3, false), item(4, true), item(5, false)];
    let kept = classify(page);
    let numbers: Vec<i64> = kept.iter().map(|k| k.number).collect();
    assert_eq!(numbers, vec![1, 3, 5]);
    assert_eq!(kept[1].title, "issue 3");
    assert_eq!(kept[1].html_url, "https://github.com/acme/widgets/issues/3");
    assert_eq!(kept[1].issue_created_at, ts(1_700_000_003));
    assert_eq!(kept[1].issue_updated_at, ts(1_700_100_003));
    assert_eq!(kept[1].user, "octo");
    assert_eq!(kept[1].labels, vec!["bug".to_string(), "good first issue".to_string()]);
}

#[test]
fn classifier_of_empty_page_is_empty() {
    assert!(classify(Vec::new()).is_empty());
}

#[test]
fn canonical_record_keeps_fields() {
    let k = KudosIssue::from(item(42, false));
    assert_eq!(k.number, 42);
    assert_eq!(k.title, "issue 42");
    assert_eq!(k.user, "octo");
}

#[test]
fn empty_batch_builds_no_statement() {
    assert!(build_issue_batch(Vec::new(), 7).is_none());
}

#[test]
fn one_issue_gives_one_group() {
    let b = build_issue_batch(classify(vec![item(9, false)]), 7).unwrap();
    assert_eq!(b.statement, ONE_GROUP);
    assert_eq!(b.rows.len(), 1);
    assert_eq!(b.rows[0].number, 9);
    assert_eq!(b.rows[0].title, "issue 9");
    assert_eq!(b.rows[0].repository_id, 7);
    assert_eq!(b.rows[0].issue_created_at, ts(1_700_000_009));
}

#[test]
fn three_issues_give_three_groups() {
    let b = build_issue_batch(classify(vec![item(1, false), item(2, false), item(3, false)]), 4)
        .unwrap();
    assert_eq!(
        b.statement,
        format!("{}, ($6, $7, $8, $9, $10), ($11, $12, $13, $14, $15)", ONE_GROUP)
    );
    let numbers: Vec<i64> = b.rows.iter().map(|r| r.number).collect();
    assert_eq!(numbers, vec![1, 2, 3]);
    assert!(b.rows.iter().all(|r| r.repository_id == 4));
}

#[test]
fn statement_for_a_full_page_ends_with_last_group() {
    let page: Vec<FetchedIssue> = (1..=100).map(|n| item(n, false)).collect();
    let b = build_issue_batch(classify(page), 1).unwrap();
    assert_eq!(b.rows.len(), 100);
    assert!(b.statement.ends_with(", ($496, $497, $498, $499, $500)"));
    assert_eq!(b.statement.matches('(').count(), 101);
}

#[test]
fn project_and_repository_statements() {
    let p = Project {
        name: "Kudos".to_string(),
        slug: "kudos".to_string(),
        attributes: ProjectAttributes {
            purposes: vec![],
            stack_levels: vec![],
            technologies: vec![],
            types: vec![],
        },
        links: ProjectLinks { repository: vec![] },
    };
    assert_eq!(
        p.new_project_query(),
        "INSERT INTO projects (name, slug, categories, purposes, stack_levels, technologies) VALUES ($1, $2, $3, $4, $5, $6) RETURNING id;"
    );
    assert_eq!(
        repo("w", "a/b").insert_respository_query(),
        "INSERT INTO repositories (slug, project_id) VALUES ($1, $2) RETURNING id;"
    );
}

fn expect_create(a: Action, label: &str, project_id: i32) {
    match a {
        Action::CreateRepository { label: l, project_id: p } => {
            assert_eq!(l, label);
            assert_eq!(p, project_id);
        }
        _ => panic!("expected a repository row"),
    }
}

fn expect_fetch(a: Action, owner: &str, name: &str) {
    match a {
        Action::FetchIssues { owner: o, name: n, per_page } => {
            assert_eq!(o, owner);
            assert_eq!(n, name);
            assert_eq!(per_page, 100);
            assert_eq!(per_page, PAGE_SIZE);
        }
        _ => panic!("expected a fetch"),
    }
}

fn expect_write(a: Action) -> usize {
    match a {
        Action::WriteIssues { batch } => batch.rows.len(),
        _ => panic!("expected a write"),
    }
}

#[test]
fn two_repositories_second_without_issues() {
    let mut imp = Importer::new(vec![
        repo("first", "https://github.com/acme/widgets"),
        repo("second", "https://github.com/acme/gadgets/"),
    ]);
    assert_eq!(imp.phase(), Phase::AwaitingProject);
    expect_create(imp.on_project_created(11), "first", 11);
    expect_fetch(imp.on_repository_created(21), "acme", "widgets");
    let a = imp.on_issues_fetched(vec![item(1, false), item(2, false), item(3, false)]);
    assert_eq!(expect_write(a), 3);
    expect_create(imp.on_issues_written(3), "second", 11);
    expect_fetch(imp.on_repository_created(22), "acme", "gadgets");
    match imp.on_issues_fetched(Vec::new()) {
        Action::Finished { total } => assert_eq!(total, 3),
        _ => panic!("expected the end, with no write for the empty repository"),
    }
    assert_eq!(imp.phase(), Phase::Finished);
    assert_eq!(imp.total(), 3);
}

#[test]
fn pull_requests_are_not_written() {
    let mut imp = Importer::new(vec![repo("only", "acme/widgets")]);
    expect_create(imp.on_project_created(1), "only", 1);
    expect_fetch(imp.on_repository_created(5), "acme", "widgets");
    let page = vec![item(1, true), item(2, false), item(3, false), item(4, true), item(5, false)];
    match imp.on_issues_fetched(page) {
        Action::WriteIssues { batch } => {
            let numbers: Vec<i64> = batch.rows.iter().map(|r| r.number).collect();
            assert_eq!(numbers, vec![2, 3, 5]);
            assert!(batch.rows.iter().all(|r| r.repository_id == 5));
        }
        _ => panic!("expected a write"),
    }
    match imp.on_issues_written(3) {
        Action::Finished { total } => assert_eq!(total, 3),
        _ => panic!("expected the end"),
    }
}

#[test]
fn failed_write_stops_the_import() {
    let mut imp = Importer::new(vec![
        repo("one", "a/one"),
        repo("two", "a/two"),
        repo("three", "a/three"),
    ]);
    expect_create(imp.on_project_created(1), "one", 1);
    expect_fetch(imp.on_repository_created(10), "a", "one");
    assert_eq!(expect_write(imp.on_issues_fetched(vec![item(1, false)])), 1);
    expect_create(imp.on_issues_written(1), "two", 1);
    expect_fetch(imp.on_repository_created(20), "a", "two");
    assert_eq!(expect_write(imp.on_issues_fetched(vec![item(2, false)])), 1);
    match imp.on_failure(ImportError::StoreWrite) {
        Action::Aborted { error } => assert_eq!(error, ImportError::StoreWrite),
        _ => panic!("expected the import to stop"),
    }
    assert_eq!(imp.phase(), Phase::Aborted);
    assert_eq!(imp.total(), 1);
}

#[test]
fn bad_url_stops_the_import() {
    let mut imp = Importer::new(vec![repo("good", "a/b"), repo("bad", "widgets")]);
    expect_create(imp.on_project_created(1), "good", 1);
    expect_fetch(imp.on_repository_created(2), "a", "b");
    match imp.on_issues_fetched(vec![item(1, true)]) {
        Action::Aborted { error } => assert_eq!(error, ImportError::IdentityResolution),
        _ => panic!("expected the import to stop"),
    }
    assert_eq!(imp.phase(), Phase::Aborted);
    assert_eq!(imp.total(), 0);
}

#[test]
fn failed_fetch_stops_the_import() {
    let mut imp = Importer::new(vec![repo("r", "a/b")]);
    expect_create(imp.on_project_created(1), "r", 1);
    expect_fetch(imp.on_repository_created(2), "a", "b");
    match imp.on_failure(ImportError::UpstreamApi) {
        Action::Aborted { error } => assert_eq!(error, ImportError::UpstreamApi),
        _ => panic!("expected the import to stop"),
    }
}

#[test]
fn no_repositories_finish_at_once() {
    let mut imp = Importer::new(Vec::new());
    match imp.on_project_created(3) {
        Action::Finished { total } => assert_eq!(total, 0),
        _ => panic!("expected the end"),
    }
}

#[test]
fn reported_counts_are_summed_not_lengths() {
    let mut imp = Importer::new(vec![repo("x", "a/x"), repo("y", "a/y")]);
    imp.on_project_created(1);
    imp.on_repository_created(2);
    imp.on_issues_fetched(vec![item(1, false), item(2, false)]);
    imp.on_issues_written(1);
    imp.on_repository_created(3);
    imp.on_issues_fetched(vec![item(3, false)]);
    match imp.on_issues_written(u64::MAX) {
        Action::Finished { total } => assert_eq!(total, 1 + u64::MAX as u128),
        _ => panic!("expected the end"),
    }
}
