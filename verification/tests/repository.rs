use depscan::funding::FundingYMLContent;
use depscan::repository::{
    issue_closing_times, total_minutes, GithubInfo, RepositoryError, RepositoryFacts, Timestamp,
};

fn facts() -> RepositoryFacts {
    RepositoryFacts {
        html_url: Some("https://github.com/org/repo".to_string()),
        description: Some("does things".to_string()),
        license_key: Some("mit".to_string()),
        open_issues_count: Some(7),
    }
}

fn issue(opened: &str, closed: &str) -> (Option<String>, Option<String>) {
    (Some(opened.to_string()), Some(closed.to_string()))
}

#[test]
fn closing_times_are_whole_minutes() {
    let issues = vec![
        issue("2024-01-01T00:00:00Z", "2024-01-01T01:30:00Z"),
        issue("2024-01-01T00:00:00Z", "2024-01-01T00:00:59Z"),
        issue("2024-01-01T00:00:00+02:00", "2024-01-01T00:00:00Z"),
        issue("2024-01-02T00:00:00Z", "2024-01-01T23:58:30Z"),
        issue("2024-02-28T12:00:00.500Z", "2024-03-01T12:00:00.250Z"),
    ];
    assert_eq!(
        issue_closing_times(&issues),
        vec![Some(90), Some(0), Some(120), Some(-1), Some(2879)]
    );
}

#[test]
fn closing_time_is_missing_for_unreadable_instants() {
    let issues = vec![
        issue("yesterday", "2024-01-01T00:00:00Z"),
        issue("2024-01-01T00:00:00Z", ""),
        issue("2024-01-01 00:00:00", "2024-01-01T00:00:00Z"),
        (None, Some("2024-01-01T00:00:00Z".to_string())),
        (Some("2024-01-01T00:00:00Z".to_string()), None),
        issue("2024-13-01T00:00:00Z", "2024-01-01T00:00:00Z"),
    ];
    assert_eq!(issue_closing_times(&issues), vec![None, None, None, None, None, None]);
    assert_eq!(issue_closing_times(&Vec::new()), Vec::<Option<i64>>::new());
}

#[test]
fn total_minutes_sums_or_gives_up() {
    assert_eq!(total_minutes(&vec![Some(90), Some(-30), Some(0)]), Some(60));
    assert_eq!(total_minutes(&Vec::new()), Some(0));
    assert_eq!(total_minutes(&vec![Some(1), None, Some(2)]), None);
    assert_eq!(total_minutes(&vec![None]), None);
    assert_eq!(
        total_minutes(&vec![Some(i64::MAX), Some(i64::MAX), Some(1)]),
        Some(2 * (i64::MAX as i128) + 1)
    );
    assert_eq!(total_minutes(&vec![Some(i64::MIN), Some(i64::MIN)]), Some(2 * (i64::MIN as i128)));
}

#[test]
fn record_is_assembled_from_the_answers() {
    let mut funding = FundingYMLContent::empty();
    funding.patreon = Some("org".to_string());
    let issues = vec![
        issue("2024-01-01T00:00:00Z", "2024-01-01T01:00:00Z"),
        issue("2024-01-01T00:00:00Z", "2024-01-01T03:00:00Z"),
    ];
    let info = GithubInfo::assemble(
        facts(),
        Some(4),
        Some(issues),
        Some("2023-11-14T22:13:20+00:00".to_string()),
        Some(funding),
    )
    .unwrap();
    assert_eq!(info.repo_url, "https://github.com/org/repo");
    assert_eq!(info.repo_desc, "does things");
    assert_eq!(info.license_key, Some("mit".to_string()));
    assert_eq!(info.no_of_contributors, 4);
    assert_eq!(info.total_issues, 2);
    assert_eq!(info.open_issues, 7);
    assert_eq!(info.issue_closing_time_mins, 240);
    assert_eq!(info.last_commit_at, Timestamp { seconds: 1_700_000_000, nanoseconds: 0 });
    assert_eq!(info.funding.unwrap().patreon, Some("org".to_string()));
}

#[test]
fn last_commit_instant_is_taken_in_utc() {
    let info = GithubInfo::assemble(
        facts(),
        Some(0),
        Some(Vec::new()),
        Some("1970-01-01T01:00:01.5+01:00".to_string()),
        None,
    )
    .unwrap();
    assert_eq!(info.last_commit_at, Timestamp { seconds: 1, nanoseconds: 500_000_000 });
    assert_eq!(info.total_issues, 0);
    assert_eq!(info.issue_closing_time_mins, 0);
    assert!(info.funding.is_none());
}

#[test]
fn missing_description_reads_as_empty() {
    let mut f = facts();
    f.description = None;
    f.license_key = None;
    let info =
        GithubInfo::from_parts(f, Some(1), &vec![Some(5)], Some((10, 20)), None).unwrap();
    assert_eq!(info.repo_desc, "");
    assert_eq!(info.license_key, None);
    assert_eq!(info.total_issues, 1);
    assert_eq!(info.issue_closing_time_mins, 5);
    assert_eq!(info.last_commit_at, Timestamp { seconds: 10, nanoseconds: 20 });
}

#[test]
fn malformed_answers_fail_the_lookup() {
    let date = || Some("2024-01-01T00:00:00Z".to_string());
    let ok_issues = vec![issue("2024-01-01T00:00:00Z", "2024-01-01T01:00:00Z")];

    let mut no_url = facts();
    no_url.html_url = None;
    assert_eq!(
        GithubInfo::assemble(no_url, Some(1), Some(ok_issues.clone()), date(), None).err(),
        Some(RepositoryError::Upstream)
    );
    let mut no_count = facts();
    no_count.open_issues_count = None;
    assert_eq!(
        GithubInfo::assemble(no_count, Some(1), Some(ok_issues.clone()), date(), None).err(),
        Some(RepositoryError::Upstream)
    );
    assert_eq!(
        GithubInfo::assemble(facts(), None, Some(ok_issues.clone()), date(), None).err(),
        Some(RepositoryError::Upstream)
    );
    assert_eq!(
        GithubInfo::assemble(facts(), Some(1), Some(vec![issue("?", "?")]), date(), None).err(),
        Some(RepositoryError::Upstream)
    );
    assert_eq!(
        GithubInfo::assemble(facts(), Some(1), Some(ok_issues.clone()), None, None).err(),
        Some(RepositoryError::Upstream)
    );
    assert_eq!(
        GithubInfo::assemble(facts(), Some(1), Some(ok_issues.clone()), Some("not a date".to_string()), None)
            .err(),
        Some(RepositoryError::Upstream)
    );
    assert_eq!(
        GithubInfo::assemble(facts(), Some(1), None, date(), None).err(),
        Some(RepositoryError::Upstream)
    );
    assert!(GithubInfo::assemble(facts(), Some(1), Some(ok_issues.clone()), date(), None).is_ok());
}
