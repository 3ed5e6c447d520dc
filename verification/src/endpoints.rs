//! The addresses and headers of the services that a job's driver calls.

use crate::funding::{FundingView, FundingYMLContent};
use crate::text::joined;
use vstd::prelude::*;

verus! {

/// The branch that holds a repository's funding file where the host names
/// no default branch.
pub const FALLBACK_BRANCH: &'static str = "master";

/// The address of the completion service.
pub const COMPLETIONS_URL: &'static str = "https://api.together.xyz/chat/completions";

/// The model that extracts the funding figures.
pub const COMPLETION_MODEL: &'static str = "meta-llama/Meta-Llama-3.1-70B-Instruct-Turbo";

/// The instruction that asks the completion service for the five funding
/// fields of a donation page, as one JSON object and nothing else.
pub const PROMPT_GET_FUNDING_STATS: &'static str = r#"
You are to help get funding information for an open source project. You will be given the page contents from a funding website (like Github Sponsors or Open Collective etc.) you are to provide back a JSON with the given structure:

1. `monthly_raised_amount`: A string showing how much amount was raised for the monthly project make sure to specify what currency it is, if no info is found about this, let this value be null. Try to calculate from percentages if that data is given, for example, Github Sponsors might say something like "3% raised in $1000 goal", if that is the case, try calculating the 3% of $1000 and that will be the raised amount.
2. `target_monthly_raised_amount`: A string showing how much amount the funding target is set to (a feature available in Github Sponsors and Open Collective etc.). Make sure to specify what currency it is and if no info is found about the target, let the value be null.
3. `total_raised_amount`: A string showing how much amount was raised for project in total make sure to specify what currency it is, if no info is found about this, let this value be null. Try to calculate from percentages if that data is given, for example, Github Sponsors might say something like "3% raised in $1000 goal", if that is the case, try calculating the 3% of $1000 and that will be the raised amount.
4. `target_raised_amount`: A string showing how much amount the funding target is set to (a feature available in Github Sponsors and Open Collective etc.). Make sure to specify what currency it is and if no info is found about the target, let the value be null.
5. `is_funding`: A boolean value indicating whether the given summary says the project can be donated to or not. Some funding options like Tidelift is not a funding platform but a subscription service.

Only return the JSON, do not return the markdown formatting or any other data out. The response you give is sent directly to a JSON parser.
"#;

/// The most tokens that a completion may take.
pub const COMPLETION_MAX_TOKENS: u32 = 8000;

/// The registry's address for the latest release of a package. The
/// registry is asked for the latest release whatever version was specified.
pub fn package_info_url(package_name: &str) -> (r: String)
    ensures
        r@ == "https://registry.npmjs.org/"@ + package_name@ + "/latest/"@,
{
    let mut r = joined("https://registry.npmjs.org/", package_name);
    r.append("/latest/");
    r
}

/// The host's address for the description of a repository.
pub fn repository_url(repo: &str) -> (r: String)
    ensures
        r@ == "https://api.github.com/repos/"@ + repo@,
{
    joined("https://api.github.com/repos/", repo)
}

/// The host's address for the closed issues of a repository.
pub fn closed_issues_url(repo: &str) -> (r: String)
    ensures
        r@ == "https://api.github.com/repos/"@ + repo@ + "/issues?state=closed"@,
{
    let mut r = repository_url(repo);
    r.append("/issues?state=closed");
    r
}

/// The host's address for the commits of a repository.
pub fn commits_url(repo: &str) -> (r: String)
    ensures
        r@ == "https://api.github.com/repos/"@ + repo@ + "/commits"@,
{
    let mut r = repository_url(repo);
    r.append("/commits");
    r
}

/// The mirror's address for the overview of a repository.
pub fn overview_url(repo: &str) -> (r: String)
    ensures
        r@ == "https://ungh.cc/repos/"@ + repo@,
{
    joined("https://ungh.cc/repos/", repo)
}

/// The mirror's address for the contributors of a repository.
pub fn contributors_url(repo: &str) -> (r: String)
    ensures
        r@ == "https://ungh.cc/repos/"@ + repo@ + "/contributors"@,
{
    let mut r = overview_url(repo);
    r.append("/contributors");
    r
}

/// The branch to read a repository's funding file from.
pub open spec fn funding_branch(default_branch: Option<Seq<char>>) -> Seq<char> {
    match default_branch {
        Some(branch) => branch,
        None => FALLBACK_BRANCH@,
    }
}

/// The places where a repository may keep its funding file, in the order
/// in which they count.
pub open spec fn funding_files(repo: Seq<char>, default_branch: Option<Seq<char>>) -> Seq<
    Seq<char>,
> {
    let base = "https://ungh.cc/repos/"@ + repo + "/files/"@ + funding_branch(default_branch);
    seq![base + "/FUNDING.yml"@, base + "/.github/FUNDING.yml"@]
}

/// The mirror's addresses for the funding file of a repository, on the
/// default branch that the mirror names, or else on the fallback branch.
pub fn funding_file_urls(repo: &str, default_branch: Option<&str>) -> (r: Vec<String>)
    ensures
        r.deep_view() == funding_files(
            repo@,
            match default_branch {
                Some(b) => Some(b@),
                None => None,
            },
        ),
{
    let branch: &str = match default_branch {
        Some(b) => b,
        None => FALLBACK_BRANCH,
    };
    let mut base = overview_url(repo);
    base.append("/files/");
    base.append(branch);
    let mut urls: Vec<String> = Vec::new();
    urls.push(joined(base.as_str(), "/FUNDING.yml"));
    urls.push(joined(base.as_str(), "/.github/FUNDING.yml"));
    assert(urls.deep_view() =~= funding_files(
        repo@,
        match default_branch {
            Some(b) => Some(b@),
            None => None,
        },
    ));
    urls
}

/// The first declaration that was found, in the order of the places asked.
pub open spec fn first_found(found: Seq<Option<FundingView>>) -> Option<FundingView>
    decreases found.len(),
{
    if found.len() == 0 {
        None
    } else if found[0] is Some {
        found[0]
    } else {
        first_found(found.skip(1))
    }
}

/// Picks the funding declaration of a repository from what each place gave.
pub fn first_declaration(found: Vec<Option<FundingYMLContent>>) -> (r: Option<FundingYMLContent>)
    ensures
        r.deep_view() == first_found(found.deep_view()),
{
    let mut rest = found;
    let ghost all = rest.deep_view();
    while rest.len() > 0
        invariant
            all == found.deep_view(),
            first_found(rest.deep_view()) == first_found(all),
        decreases rest.len(),
    {
        let ghost before = rest.deep_view();
        assert(before.len() > 0 && before[0] == rest[0].deep_view());
        let head = rest.remove(0);
        assert(rest.deep_view() =~= before.skip(1));
        if head.is_some() {
            return head;
        }
    }
    None
}

/// The reader's address for the summary of the page at `url`.
pub fn reader_url(url: &str) -> (r: String)
    ensures
        r@ == "https://r.jina.ai/"@ + url@,
{
    joined("https://r.jina.ai/", url)
}

/// The authorization header that carries a bearer key.
pub fn bearer_header(key: &str) -> (r: String)
    ensures
        r@ == "Bearer "@ + key@,
{
    joined("Bearer ", key)
}

/// The authorization header that carries a host token.
pub fn token_header(token: &str) -> (r: String)
    ensures
        r@ == "token "@ + token@,
{
    joined("token ", token)
}

} // verus!
