use depscan::endpoints::{
    bearer_header, closed_issues_url, commits_url, contributors_url, first_declaration,
    funding_file_urls, overview_url, package_info_url, reader_url, repository_url, token_header,
};
use depscan::funding::FundingYMLContent;
use depscan::report::{package_label, package_labels};
use depscan::repository::get_github_repo_from_package_url;
use depscan::text::{
    clone_strings, joined, ends_with, equal, has_at, prefix_all, starts_with, trim_end_matches,
    trim_start_matches,
};

#[test]
fn prefix_and_suffix_tests() {
    assert!(starts_with("github.com/a", "github.com/"));
    assert!(!starts_with("github.co", "github.com/"));
    assert!(starts_with("abc", ""));
    assert!(starts_with("", ""));
    assert!(!starts_with("", "a"));
    assert!(ends_with("repo.git", ".git"));
    assert!(!ends_with("git", ".git"));
    assert!(ends_with("abc", ""));
    assert!(has_at("hello", "ll", 2));
    assert!(!has_at("hello", "ll", 3));
    assert!(!has_at("hello", "lo", 4));
    assert!(has_at("hello", "", 5));
    assert!(!has_at("hello", "", 6));
}

#[test]
fn comparison_counts_characters_not_bytes() {
    assert!(equal("héllo", "héllo"));
    assert!(!equal("héllo", "hello"));
    assert!(!equal("abc", "abcd"));
    assert!(equal("", ""));
    assert!(starts_with("ünïcode", "ün"));
    assert_eq!(trim_start_matches("ééa", "é"), "a");
    assert_eq!(trim_end_matches("aéé", "é"), "a");
}

#[test]
fn trimming_removes_every_repetition() {
    assert_eq!(trim_start_matches("https://https://x", "https://"), "x");
    assert_eq!(trim_start_matches("abab", "ab"), "");
    assert_eq!(trim_start_matches("xab", "ab"), "xab");
    assert_eq!(trim_start_matches("abc", ""), "abc");
    assert_eq!(trim_end_matches("a.git.git", ".git"), "a");
    assert_eq!(trim_end_matches(".git", ".git"), "");
    assert_eq!(trim_end_matches("a.gitx", ".git"), "a.gitx");
    assert_eq!(trim_end_matches("abc", ""), "abc");
    assert_eq!(trim_start_matches("aaa", "aa"), "a");
    assert_eq!(trim_end_matches("aaa", "aa"), "a");
}

#[test]
fn concatenation_helpers() {
    assert_eq!(joined("ab", "cd"), "abcd");
    assert_eq!(joined("", ""), "");
    let names = vec!["x".to_string(), "y".to_string()];
    assert_eq!(prefix_all("p/", &names), vec!["p/x".to_string(), "p/y".to_string()]);
    assert_eq!(prefix_all("p/", &Vec::new()), Vec::<String>::new());
    assert_eq!(clone_strings(&names), names);
}

#[test]
fn repository_identifier_of_a_git_https_pointer() {
    assert_eq!(
        get_github_repo_from_package_url("git+https://github.com/org/left-pad.git"),
        Some("org/left-pad".to_string())
    );
}

#[test]
fn repository_identifier_strips_each_protocol() {
    assert_eq!(get_github_repo_from_package_url("https://github.com/a/b"), Some("a/b".to_string()));
    assert_eq!(get_github_repo_from_package_url("http://github.com/a/b"), Some("a/b".to_string()));
    assert_eq!(get_github_repo_from_package_url("github.com/a/b.git"), Some("a/b".to_string()));
    assert_eq!(
        get_github_repo_from_package_url("git+https://https://http://github.com/a/b"),
        Some("a/b".to_string())
    );
    assert_eq!(
        get_github_repo_from_package_url("https://github.com/github.com/a/b.git.git"),
        Some("a/b".to_string())
    );
}

#[test]
fn repository_identifier_rejects_other_hosts_and_empty_names() {
    assert_eq!(get_github_repo_from_package_url("https://gitlab.com/a/b.git"), None);
    assert_eq!(get_github_repo_from_package_url("git+ssh://git@github.com/a/b.git"), None);
    assert_eq!(get_github_repo_from_package_url("git://github.com/a/b.git"), None);
    assert_eq!(get_github_repo_from_package_url("https://github.com/"), None);
    assert_eq!(get_github_repo_from_package_url("https://github.com/.git"), None);
    assert_eq!(get_github_repo_from_package_url("https://github.com"), None);
    assert_eq!(get_github_repo_from_package_url(""), None);
    assert_eq!(get_github_repo_from_package_url("http://https://github.com/a/b"), None);
}

#[test]
fn service_addresses() {
    assert_eq!(package_info_url("left-pad"), "https://registry.npmjs.org/left-pad/latest/");
    assert_eq!(repository_url("org/repo"), "https://api.github.com/repos/org/repo");
    assert_eq!(
        closed_issues_url("org/repo"),
        "https://api.github.com/repos/org/repo/issues?state=closed"
    );
    assert_eq!(commits_url("org/repo"), "https://api.github.com/repos/org/repo/commits");
    assert_eq!(overview_url("org/repo"), "https://ungh.cc/repos/org/repo");
    assert_eq!(contributors_url("org/repo"), "https://ungh.cc/repos/org/repo/contributors");
    assert_eq!(reader_url("https://ko-fi.com/x"), "https://r.jina.ai/https://ko-fi.com/x");
    assert_eq!(bearer_header("k"), "Bearer k");
    assert_eq!(token_header("t"), "token t");
}

#[test]
fn funding_file_is_sought_on_the_default_branch() {
    assert_eq!(
        funding_file_urls("org/repo", Some("main")),
        vec![
            "https://ungh.cc/repos/org/repo/files/main/FUNDING.yml".to_string(),
            "https://ungh.cc/repos/org/repo/files/main/.github/FUNDING.yml".to_string(),
        ]
    );
}

#[test]
fn funding_file_falls_back_to_master() {
    assert_eq!(
        funding_file_urls("org/repo", None),
        vec![
            "https://ungh.cc/repos/org/repo/files/master/FUNDING.yml".to_string(),
            "https://ungh.cc/repos/org/repo/files/master/.github/FUNDING.yml".to_string(),
        ]
    );
}

#[test]
fn first_declaration_found_wins() {
    let mut a = FundingYMLContent::empty();
    a.patreon = Some("first".to_string());
    let mut b = FundingYMLContent::empty();
    b.patreon = Some("second".to_string());
    let picked = first_declaration(vec![None, Some(a), Some(b)]).unwrap();
    assert_eq!(picked.patreon, Some("first".to_string()));
    assert!(first_declaration(vec![None, None]).is_none());
    assert!(first_declaration(Vec::new()).is_none());
}

#[test]
fn labels_join_name_and_version() {
    assert_eq!(package_label("left-pad", "1.0.0"), "left-pad@1.0.0");
    assert_eq!(package_label("a", ""), "a@");
    assert_eq!(
        package_labels(&vec![
            ("a".to_string(), "^1".to_string()),
            ("b".to_string(), "2".to_string())
        ]),
        vec!["a@^1".to_string(), "b@2".to_string()]
    );
    assert_eq!(package_labels(&Vec::new()), Vec::<String>::new());
}
