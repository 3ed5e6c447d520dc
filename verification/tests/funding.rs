use depscan::extractor::{funding_page_urls, pages_of};
use depscan::funding::{strip_code_fences, FundingYMLContent, ParsedFundingInfo};
use depscan::repository::{GithubInfo, Timestamp};
use depscan::table::Table;

fn strings(items: &[&str]) -> Vec<String> {
    items.iter().map(|s| s.to_string()).collect()
}

fn info_with(funding: Option<FundingYMLContent>) -> GithubInfo {
    GithubInfo {
        repo_url: "https://github.com/org/repo".to_string(),
        repo_desc: String::new(),
        license_key: None,
        no_of_contributors: 0,
        total_issues: 0,
        open_issues: 0,
        issue_closing_time_mins: 0,
        last_commit_at: Timestamp { seconds: 0, nanoseconds: 0 },
        funding,
    }
}

#[test]
fn two_github_sponsors_give_two_urls_in_input_order() {
    let mut f = FundingYMLContent::empty();
    f.github = strings(&["alice", "bob"]);
    let map = f.to_url_map();
    assert_eq!(map.len(), 1);
    assert_eq!(
        map.get(&"github".to_string()),
        Some(&strings(&["https://github.com/sponsors/alice", "https://github.com/sponsors/bob"]))
    );
}

#[test]
fn declaration_without_fields_gives_an_empty_map() {
    let map = FundingYMLContent::empty().to_url_map();
    assert_eq!(map.len(), 0);
    assert!(map.entries().is_empty());
    assert!(!map.contains_key(&"github".to_string()));
}

#[test]
fn every_platform_has_its_address() {
    let f = FundingYMLContent {
        github: strings(&["gh"]),
        patreon: Some("pa".to_string()),
        open_collective: Some("oc".to_string()),
        ko_fi: Some("kf".to_string()),
        tidelift: Some("npm/pkg".to_string()),
        community_bridge: Some("cb".to_string()),
        liberapay: Some("lp".to_string()),
        issuehunt: Some("ih".to_string()),
        otechie: Some("ot".to_string()),
        custom: strings(&["https://example.org/donate", "https://example.org/other"]),
    };
    let map = f.to_url_map();
    let expected: Vec<(String, Vec<String>)> = vec![
        ("github".to_string(), strings(&["https://github.com/sponsors/gh"])),
        ("patreon".to_string(), strings(&["https://www.patreon.com/pa"])),
        ("open_collective".to_string(), strings(&["https://opencollective.com/oc"])),
        ("ko_fi".to_string(), strings(&["https://ko-fi.com/kf"])),
        ("tidelift".to_string(), strings(&["https://tidelift.com/funding/github/npm/pkg"])),
        (
            "community_bridge".to_string(),
            strings(&["https://funding.communitybridge.org/projects/cb"]),
        ),
        ("liberapay".to_string(), strings(&["https://liberapay.com/lp"])),
        ("issuehunt".to_string(), strings(&["https://issuehunt.io/r/ih"])),
        ("otechie".to_string(), strings(&["https://otechie.com/ot"])),
        (
            "custom".to_string(),
            strings(&["https://example.org/donate", "https://example.org/other"]),
        ),
    ];
    assert_eq!(map.entries(), &expected);
}

#[test]
fn platforms_without_account_have_no_entry() {
    let mut f = FundingYMLContent::empty();
    f.ko_fi = Some("kf".to_string());
    f.custom = strings(&["https://example.org"]);
    let map = f.to_url_map();
    assert_eq!(map.len(), 2);
    assert_eq!(map.get(&"ko_fi".to_string()), Some(&strings(&["https://ko-fi.com/kf"])));
    assert_eq!(map.get(&"custom".to_string()), Some(&strings(&["https://example.org"])));
    assert_eq!(map.get(&"github".to_string()), None);
    assert_eq!(map.get(&"patreon".to_string()), None);
}

#[test]
fn url_map_is_the_same_on_every_call() {
    let mut f = FundingYMLContent::empty();
    f.github = strings(&["a", "b", "c"]);
    f.liberapay = Some("x".to_string());
    assert_eq!(f.to_url_map().entries(), f.to_url_map().entries());
}

#[test]
fn fenced_json_reads_like_bare_json() {
    let bare = "{\"monthly_raised_amount\": null, \"is_funding\": true}";
    let fenced = format!("```{}```", bare);
    assert_eq!(strip_code_fences(&fenced), bare);
    assert_eq!(strip_code_fences(bare), bare);
    assert_eq!(strip_code_fences(&fenced), strip_code_fences(bare));
}

#[test]
fn fences_are_stripped_repeatedly_and_only_at_the_ends() {
    assert_eq!(strip_code_fences("``````{}```"), "{}");
    assert_eq!(strip_code_fences("```{}"), "{}");
    assert_eq!(strip_code_fences("{}```"), "{}");
    assert_eq!(strip_code_fences("{\"a\": \"```\"}"), "{\"a\": \"```\"}");
    assert_eq!(strip_code_fences("```json\n{}\n```"), "json\n{}\n");
    assert_eq!(strip_code_fences("``{}``"), "``{}``");
    assert_eq!(strip_code_fences("```"), "");
    assert_eq!(strip_code_fences(""), "");
    assert_eq!(strip_code_fences("````"), "`");
}

#[test]
fn parsed_funding_info_clone_keeps_the_fields() {
    let stats = ParsedFundingInfo {
        monthly_raised_amount: Some("$30".to_string()),
        target_monthly_raised_amount: Some("$1000".to_string()),
        total_raised_amount: None,
        target_raised_amount: None,
        is_funding: true,
    };
    let copy = stats.clone();
    assert_eq!(copy.monthly_raised_amount, Some("$30".to_string()));
    assert_eq!(copy.target_monthly_raised_amount, Some("$1000".to_string()));
    assert_eq!(copy.total_raised_amount, None);
    assert_eq!(copy.target_raised_amount, None);
    assert!(copy.is_funding);
}

#[test]
fn pages_of_a_declaration_follow_the_platform_order() {
    let mut f = FundingYMLContent::empty();
    f.custom = strings(&["https://example.org"]);
    f.github = strings(&["alice", "bob"]);
    f.patreon = Some("carol".to_string());
    assert_eq!(
        pages_of(&f),
        strings(&[
            "https://github.com/sponsors/alice",
            "https://github.com/sponsors/bob",
            "https://www.patreon.com/carol",
            "https://example.org",
        ])
    );
    assert_eq!(pages_of(&FundingYMLContent::empty()), Vec::<String>::new());
}

#[test]
fn candidate_pages_keep_duplicates_across_packages() {
    let mut f1 = FundingYMLContent::empty();
    f1.github = strings(&["alice"]);
    let mut f2 = FundingYMLContent::empty();
    f2.github = strings(&["alice"]);
    f2.ko_fi = Some("bob".to_string());
    let mut records: Table<(String, String), GithubInfo> = Table::new();
    records.put(("a".to_string(), "1".to_string()), info_with(Some(f1)));
    records.put(("b".to_string(), "1".to_string()), info_with(None));
    records.put(("c".to_string(), "1".to_string()), info_with(Some(f2)));
    assert_eq!(
        funding_page_urls(&records),
        strings(&[
            "https://github.com/sponsors/alice",
            "https://github.com/sponsors/alice",
            "https://ko-fi.com/bob",
        ])
    );
    assert_eq!(funding_page_urls(&Table::new()), Vec::<String>::new());
}
