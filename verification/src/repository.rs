//! Repositories: the identifier that a package's repository pointer leads
//! to, and the record of health signals kept for a repository.

use crate::funding::{FundingView, FundingYMLContent};
use crate::text::{
    starts_with, trim_end_matches, trim_start_matches, without_leading, without_trailing,
};
use vstd::prelude::*;

verus! {

/// `url` without the protocols that a repository pointer may begin with.
pub open spec fn without_protocol(url: Seq<char>) -> Seq<char> {
    without_leading(
        without_leading(without_leading(url, "git+https://"@), "https://"@),
        "http://"@,
    )
}

/// The identifier (owner and name) of the GitHub repository that `url`
/// points to: what follows the host, without a trailing ".git". A pointer
/// to another host, or to no repository, has none.
pub open spec fn github_repo_of(url: Seq<char>) -> Option<Seq<char>> {
    let cleaned = without_protocol(url);
    if !"github.com/"@.is_prefix_of(cleaned) {
        None
    } else {
        let name = without_trailing(without_leading(cleaned, "github.com/"@), ".git"@);
        if name.len() == 0 {
            None
        } else {
            Some(name)
        }
    }
}

/// Derives the repository identifier from the URL of a package's
/// repository pointer.
pub fn get_github_repo_from_package_url(url: &str) -> (r: Option<String>)
    ensures
        r.deep_view() == github_repo_of(url@),
{
    let cleaned = trim_start_matches(
        trim_start_matches(trim_start_matches(url, "git+https://"), "https://"),
        "http://",
    );
    if !starts_with(cleaned, "github.com/") {
        return None;
    }
    let name = trim_end_matches(trim_start_matches(cleaned, "github.com/"), ".git");
    if name.unicode_len() == 0 {
        None
    } else {
        Some(String::from_str(name))
    }
}

/// The whole minutes from the instant that `start` names to the instant
/// that `end` names, or none where either text names no instant.
pub uninterp spec fn rfc3339_minutes_between(start: Seq<char>, end: Seq<char>) -> Option<i64>;

/// The instant that `text` names, as seconds since the Unix epoch and the
/// nanoseconds since the last full second, or none where it names no instant.
pub uninterp spec fn rfc3339_timestamp(text: Seq<char>) -> Option<(i64, u32)>;

/// Calls chrono: `DateTime::parse_from_rfc3339` on both texts, subtracts the
/// first instant from the second, and takes `TimeDelta::num_minutes` of the
/// difference; a text that chrono rejects gives `None`. The contract names
/// the result and states nothing else of it.
#[verifier::external_body]
fn minutes_between(start: &str, end: &str) -> (r: Option<i64>)
    ensures
        r == rfc3339_minutes_between(start@, end@),
{
    let from = chrono::DateTime::parse_from_rfc3339(start).ok()?;
    let to = chrono::DateTime::parse_from_rfc3339(end).ok()?;
    Some((to - from).num_minutes())
}

/// Calls chrono: `DateTime::parse_from_rfc3339`, then `timestamp` and
/// `timestamp_subsec_nanos` of the instant read; a text that chrono rejects
/// gives `None`. The contract names the result and states nothing else of it.
#[verifier::external_body]
fn timestamp_of(text: &str) -> (r: Option<(i64, u32)>)
    ensures
        r == rfc3339_timestamp(text@),
{
    let instant = chrono::DateTime::parse_from_rfc3339(text).ok()?;
    Some((instant.timestamp(), instant.timestamp_subsec_nanos()))
}

/// The sum of `minutes`, or none where one of them is missing.
pub open spec fn sum_if_all(minutes: Seq<Option<i64>>) -> Option<int>
    decreases minutes.len(),
{
    if minutes.len() == 0 {
        Some(0)
    } else {
        match (sum_if_all(minutes.drop_last()), minutes.last()) {
            (Some(sum), Some(m)) => Some(sum + m),
            _ => None,
        }
    }
}

/// Adds up the closing times of issues. One missing closing time makes the
/// total unknown.
pub fn total_minutes(minutes: &Vec<Option<i64>>) -> (r: Option<i128>)
    ensures
        match r {
            Some(total) => sum_if_all(minutes@) == Some(total as int),
            None => sum_if_all(minutes@) is None,
        },
{
    let mut total: i128 = 0;
    let mut i: usize = 0;
    while i < minutes.len()
        invariant
            i <= minutes.len(),
            sum_if_all(minutes@.take(i as int)) == Some(total as int),
            -(i as int) * 0x8000_0000_0000_0000 <= total <= (i as int) * 0x8000_0000_0000_0000,
        decreases minutes.len() - i,
    {
        assert(minutes@.take(i + 1).drop_last() =~= minutes@.take(i as int));
        match minutes[i] {
            Some(m) => {
                total = total + m as i128;
            },
            None => {
                proof {
                    missing_minute_voids_sum(minutes@, i as int);
                }
                return None;
            },
        }
        i += 1;
    }
    assert(minutes@.take(i as int) =~= minutes@);
    Some(total)
}

/// A missing entry makes the sum of every longer list unknown.
pub proof fn missing_minute_voids_sum(minutes: Seq<Option<i64>>, at: int)
    requires
        0 <= at < minutes.len(),
        minutes[at] is None,
    ensures
        sum_if_all(minutes) is None,
    decreases minutes.len(),
{
    if at < minutes.len() - 1 {
        missing_minute_voids_sum(minutes.drop_last(), at);
    }
}

/// The closing time of each issue in minutes, from the texts of the instants
/// at which it was opened and closed; missing where a text is missing or
/// names no instant.
pub open spec fn closing_times(issues: Seq<(Option<Seq<char>>, Option<Seq<char>>)>) -> Seq<
    Option<i64>,
> {
    issues.map_values(
        |issue: (Option<Seq<char>>, Option<Seq<char>>)|
            match issue {
                (Some(opened), Some(closed)) => rfc3339_minutes_between(opened, closed),
                _ => None,
            },
    )
}

/// Computes the closing time of each issue.
pub fn issue_closing_times(issues: &Vec<(Option<String>, Option<String>)>) -> (r: Vec<Option<i64>>)
    ensures
        r@ == closing_times(issues.deep_view()),
{
    let mut out: Vec<Option<i64>> = Vec::new();
    let mut i: usize = 0;
    while i < issues.len()
        invariant
            i <= issues.len(),
            out.len() == i,
            forall|k: int| 0 <= k < i ==> (#[trigger] out[k]) == closing_times(issues.deep_view())[k],
        decreases issues.len() - i,
    {
        assert(issues.deep_view()[i as int] == issues[i as int].deep_view());
        let minutes = match (&issues[i].0, &issues[i].1) {
            (Some(opened), Some(closed)) => minutes_between(opened.as_str(), closed.as_str()),
            _ => None,
        };
        out.push(minutes);
        i += 1;
    }
    assert(out@ =~= closing_times(issues.deep_view()));
    out
}

/// An instant: seconds since the Unix epoch and the nanoseconds since the
/// last full second.
#[derive(Clone, Copy, Debug, PartialEq, Eq, Structural)]
pub struct Timestamp {
    pub seconds: i64,
    pub nanoseconds: u32,
}

/// Why no record could be had for a repository.
#[derive(Clone, Copy, Debug, PartialEq, Eq, Structural)]
pub enum RepositoryError {
    /// The host knows no such repository.
    NotFound,
    /// The host did not answer, or answered with data of another shape.
    Upstream,
}

/// The health signals of one repository. The closing times of its closed
/// issues are kept as their total in minutes; their mean is that total
/// over `total_issues`.
#[derive(Debug)]
pub struct GithubInfo {
    pub repo_url: String,
    pub repo_desc: String,
    pub license_key: Option<String>,
    pub no_of_contributors: usize,
    pub total_issues: usize,
    pub open_issues: usize,
    pub issue_closing_time_mins: i128,
    pub last_commit_at: Timestamp,
    pub funding: Option<FundingYMLContent>,
}

pub struct GithubInfoView {
    pub repo_url: Seq<char>,
    pub repo_desc: Seq<char>,
    pub license_key: Option<Seq<char>>,
    pub no_of_contributors: nat,
    pub total_issues: nat,
    pub open_issues: nat,
    pub issue_closing_time_mins: int,
    pub last_commit_at: Timestamp,
    pub funding: Option<FundingView>,
}

impl View for GithubInfo {
    type V = GithubInfoView;

    open spec fn view(&self) -> GithubInfoView {
        GithubInfoView {
            repo_url: self.repo_url@,
            repo_desc: self.repo_desc@,
            license_key: self.license_key.deep_view(),
            no_of_contributors: self.no_of_contributors as nat,
            total_issues: self.total_issues as nat,
            open_issues: self.open_issues as nat,
            issue_closing_time_mins: self.issue_closing_time_mins as int,
            last_commit_at: self.last_commit_at,
            funding: self.funding.deep_view(),
        }
    }
}

impl DeepView for GithubInfo {
    type V = GithubInfoView;

    open spec fn deep_view(&self) -> GithubInfoView {
        self@
    }
}

/// What the host's description of a repository states, as far as it was
/// present in the answer.
#[derive(Debug)]
pub struct RepositoryFacts {
    pub html_url: Option<String>,
    pub description: Option<String>,
    pub license_key: Option<String>,
    pub open_issues_count: Option<u64>,
}

pub struct RepositoryFactsView {
    pub html_url: Option<Seq<char>>,
    pub description: Option<Seq<char>>,
    pub license_key: Option<Seq<char>>,
    pub open_issues_count: Option<u64>,
}

impl View for RepositoryFacts {
    type V = RepositoryFactsView;

    open spec fn view(&self) -> RepositoryFactsView {
        RepositoryFactsView {
            html_url: self.html_url.deep_view(),
            description: self.description.deep_view(),
            license_key: self.license_key.deep_view(),
            open_issues_count: self.open_issues_count,
        }
    }
}

/// The instant made of seconds and nanoseconds.
pub open spec fn instant_of(t: (i64, u32)) -> Timestamp {
    let (seconds, nanoseconds) = t;
    Timestamp { seconds, nanoseconds }
}

/// The record that the parts of the host's answers make up. The address of
/// the repository, the count of its open issues, the count of its
/// contributors, the closing time of every closed issue and the instant of
/// the last commit are needed; a missing description reads as empty.
pub open spec fn record_of(
    facts: RepositoryFactsView,
    contributors: Option<usize>,
    closing: Seq<Option<i64>>,
    last_commit: Option<(i64, u32)>,
    funding: Option<FundingView>,
) -> Result<GithubInfoView, RepositoryError> {
    if facts.html_url is Some && facts.open_issues_count is Some && facts.open_issues_count->0
        <= usize::MAX && contributors is Some && sum_if_all(closing) is Some && last_commit is Some {
        Ok(
            GithubInfoView {
                repo_url: facts.html_url->0,
                repo_desc: match facts.description {
                    Some(d) => d,
                    None => Seq::empty(),
                },
                license_key: facts.license_key,
                no_of_contributors: contributors->0 as nat,
                total_issues: closing.len(),
                open_issues: facts.open_issues_count->0 as nat,
                issue_closing_time_mins: sum_if_all(closing)->0,
                last_commit_at: instant_of(last_commit->0),
                funding,
            },
        )
    } else {
        Err(RepositoryError::Upstream)
    }
}

impl GithubInfo {
    /// Puts a record together from the parts of the host's answers: the
    /// repository's description, the count of its contributors, the closing
    /// time of each closed issue, the instant of the last commit, and the
    /// funding declaration if one was found.
    pub fn from_parts(
        facts: RepositoryFacts,
        contributors: Option<usize>,
        closing: &Vec<Option<i64>>,
        last_commit: Option<(i64, u32)>,
        funding: Option<FundingYMLContent>,
    ) -> (r: Result<GithubInfo, RepositoryError>)
        ensures
            match r {
                Ok(info) => record_of(facts@, contributors, closing@, last_commit, funding.deep_view())
                    == Ok::<GithubInfoView, RepositoryError>(info@),
                Err(e) => record_of(facts@, contributors, closing@, last_commit, funding.deep_view())
                    == Err::<GithubInfoView, RepositoryError>(e),
            },
    {
        let RepositoryFacts { html_url, description, license_key, open_issues_count } = facts;
        let repo_url = match html_url {
            Some(url) => url,
            None => { return Err(RepositoryError::Upstream); },
        };
        let open_issues: usize = match open_issues_count {
            Some(count) => {
                if count > usize::MAX as u64 {
                    return Err(RepositoryError::Upstream);
                }
                count as usize
            },
            None => { return Err(RepositoryError::Upstream); },
        };
        let no_of_contributors: usize = match contributors {
            Some(count) => count,
            None => { return Err(RepositoryError::Upstream); },
        };
        let issue_closing_time_mins: i128 = match total_minutes(closing) {
            Some(total) => total,
            None => { return Err(RepositoryError::Upstream); },
        };
        let last_commit_at = match last_commit {
            Some(t) => Timestamp { seconds: t.0, nanoseconds: t.1 },
            None => { return Err(RepositoryError::Upstream); },
        };
        let repo_desc = match description {
            Some(d) => d,
            None => String::new(),
        };
        Ok(
            GithubInfo {
                repo_url,
                repo_desc,
                license_key,
                no_of_contributors,
                total_issues: closing.len(),
                open_issues,
                issue_closing_time_mins,
                last_commit_at,
                funding,
            },
        )
    }

    /// Puts a record together from the host's answers as they were read: the
    /// instants of each closed issue and of the last commit are still texts,
    /// and the list of closed issues is missing where the answer was no list.
    pub fn assemble(
        facts: RepositoryFacts,
        contributors: Option<usize>,
        closed_issues: Option<Vec<(Option<String>, Option<String>)>>,
        last_commit_date: Option<String>,
        funding: Option<FundingYMLContent>,
    ) -> (r: Result<GithubInfo, RepositoryError>)
        ensures
            match r {
                Ok(info) => record_of_answers(
                    facts@,
                    contributors,
                    closed_issues.deep_view(),
                    last_commit_date.deep_view(),
                    funding.deep_view(),
                ) == Ok::<GithubInfoView, RepositoryError>(info@),
                Err(e) => record_of_answers(
                    facts@,
                    contributors,
                    closed_issues.deep_view(),
                    last_commit_date.deep_view(),
                    funding.deep_view(),
                ) == Err::<GithubInfoView, RepositoryError>(e),
            },
    {
        let closing = match &closed_issues {
            Some(issues) => issue_closing_times(issues),
            None => { return Err(RepositoryError::Upstream); },
        };
        let last_commit = match &last_commit_date {
            Some(text) => timestamp_of(text.as_str()),
            None => None,
        };
        GithubInfo::from_parts(facts, contributors, &closing, last_commit, funding)
    }
}

/// The record that the host's answers make up, as they were read.
pub open spec fn record_of_answers(
    facts: RepositoryFactsView,
    contributors: Option<usize>,
    closed_issues: Option<Seq<(Option<Seq<char>>, Option<Seq<char>>)>>,
    last_commit_date: Option<Seq<char>>,
    funding: Option<FundingView>,
) -> Result<GithubInfoView, RepositoryError> {
    match closed_issues {
        Some(issues) => record_of(
            facts,
            contributors,
            closing_times(issues),
            commit_instant(last_commit_date),
            funding,
        ),
        None => Err(RepositoryError::Upstream),
    }
}

/// The instant of the last commit, read from the text that states it.
pub open spec fn commit_instant(date: Option<Seq<char>>) -> Option<(i64, u32)> {
    match date {
        Some(text) => rfc3339_timestamp(text),
        None => None,
    }
}

} // verus!
