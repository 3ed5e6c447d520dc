//! Funding declarations of repositories, the donation pages they lead to,
//! and the figures extracted from such a page.

use crate::table::{distinct_keys, has_key, lookup, Table};
use crate::text::{
    clone_strings, joined, prefix_all, prefixed, trim_end_matches, trim_start_matches,
    without_leading, without_trailing,
};
use vstd::prelude::*;

verus! {

/// The accounts that a repository declares for its funding platforms.
#[derive(Debug)]
pub struct FundingYMLContent {
    pub github: Vec<String>,
    pub patreon: Option<String>,
    pub open_collective: Option<String>,
    pub ko_fi: Option<String>,
    pub tidelift: Option<String>,
    pub community_bridge: Option<String>,
    pub liberapay: Option<String>,
    pub issuehunt: Option<String>,
    pub otechie: Option<String>,
    pub custom: Vec<String>,
}

pub struct FundingView {
    pub github: Seq<Seq<char>>,
    pub patreon: Option<Seq<char>>,
    pub open_collective: Option<Seq<char>>,
    pub ko_fi: Option<Seq<char>>,
    pub tidelift: Option<Seq<char>>,
    pub community_bridge: Option<Seq<char>>,
    pub liberapay: Option<Seq<char>>,
    pub issuehunt: Option<Seq<char>>,
    pub otechie: Option<Seq<char>>,
    pub custom: Seq<Seq<char>>,
}

impl View for FundingYMLContent {
    type V = FundingView;

    open spec fn view(&self) -> FundingView {
        FundingView {
            github: self.github.deep_view(),
            patreon: self.patreon.deep_view(),
            open_collective: self.open_collective.deep_view(),
            ko_fi: self.ko_fi.deep_view(),
            tidelift: self.tidelift.deep_view(),
            community_bridge: self.community_bridge.deep_view(),
            liberapay: self.liberapay.deep_view(),
            issuehunt: self.issuehunt.deep_view(),
            otechie: self.otechie.deep_view(),
            custom: self.custom.deep_view(),
        }
    }
}

impl DeepView for FundingYMLContent {
    type V = FundingView;

    open spec fn deep_view(&self) -> FundingView {
        self@
    }
}

/// How many funding platforms a declaration can name.
pub open spec fn platform_count() -> int {
    10
}

/// The name of the platform at position `k`.
pub open spec fn platform_name(k: int) -> Seq<char> {
    if k == 0 {
        "github"@
    } else if k == 1 {
        "patreon"@
    } else if k == 2 {
        "open_collective"@
    } else if k == 3 {
        "ko_fi"@
    } else if k == 4 {
        "tidelift"@
    } else if k == 5 {
        "community_bridge"@
    } else if k == 6 {
        "liberapay"@
    } else if k == 7 {
        "issuehunt"@
    } else if k == 8 {
        "otechie"@
    } else {
        "custom"@
    }
}

/// The donation page of one account: the platform's address before the
/// account; none where no account is declared.
pub open spec fn account_page(address: Seq<char>, account: Option<Seq<char>>) -> Seq<Seq<char>> {
    match account {
        Some(a) => seq![address + a],
        None => Seq::empty(),
    }
}

/// The donation pages that `f` declares for the platform at position `k`,
/// in the order of the declaration. Custom pages are taken as they stand.
pub open spec fn platform_urls(f: FundingView, k: int) -> Seq<Seq<char>> {
    if k == 0 {
        prefixed("https://github.com/sponsors/"@, f.github)
    } else if k == 1 {
        account_page("https://www.patreon.com/"@, f.patreon)
    } else if k == 2 {
        account_page("https://opencollective.com/"@, f.open_collective)
    } else if k == 3 {
        account_page("https://ko-fi.com/"@, f.ko_fi)
    } else if k == 4 {
        account_page("https://tidelift.com/funding/github/"@, f.tidelift)
    } else if k == 5 {
        account_page("https://funding.communitybridge.org/projects/"@, f.community_bridge)
    } else if k == 6 {
        account_page("https://liberapay.com/"@, f.liberapay)
    } else if k == 7 {
        account_page("https://issuehunt.io/r/"@, f.issuehunt)
    } else if k == 8 {
        account_page("https://otechie.com/"@, f.otechie)
    } else {
        f.custom
    }
}

/// The entries of the first `n` platforms: one for each platform for which
/// `f` declares a page, under the platform's name.
pub open spec fn url_map_upto(f: FundingView, n: int) -> Seq<(Seq<char>, Seq<Seq<char>>)>
    decreases n,
{
    if n <= 0 {
        Seq::empty()
    } else if platform_urls(f, n - 1).len() > 0 {
        url_map_upto(f, n - 1).push((platform_name(n - 1), platform_urls(f, n - 1)))
    } else {
        url_map_upto(f, n - 1)
    }
}

/// The donation pages of `f` by platform.
pub open spec fn url_map(f: FundingView) -> Seq<(Seq<char>, Seq<Seq<char>>)> {
    url_map_upto(f, platform_count())
}

/// Two platforms at different positions have different names.
pub proof fn platform_names_differ(a: int, b: int)
    requires
        0 <= a < b < platform_count(),
    ensures
        platform_name(a) != platform_name(b),
{
    reveal_strlit("github");
    reveal_strlit("patreon");
    reveal_strlit("open_collective");
    reveal_strlit("ko_fi");
    reveal_strlit("tidelift");
    reveal_strlit("community_bridge");
    reveal_strlit("liberapay");
    reveal_strlit("issuehunt");
    reveal_strlit("otechie");
    reveal_strlit("custom");
    if platform_name(a).len() == platform_name(b).len() {
        assert(platform_name(a)[0] != platform_name(b)[0]);
    }
}

/// Every entry of the first `n` platforms stands under the name of one of
/// them, and no name occurs twice.
pub proof fn url_map_keys(f: FundingView, n: int)
    requires
        0 <= n <= platform_count(),
    ensures
        distinct_keys(url_map_upto(f, n)),
        forall|i: int|
            0 <= i < url_map_upto(f, n).len() ==> exists|k: int|
                0 <= k < n && (#[trigger] url_map_upto(f, n)[i]).0 == platform_name(k),
        forall|k: int| n <= k < platform_count() ==> !has_key(url_map_upto(f, n), platform_name(k)),
    decreases n,
{
    if n > 0 {
        url_map_keys(f, n - 1);
        let before = url_map_upto(f, n - 1);
        let after = url_map_upto(f, n);
        assert forall|i: int| 0 <= i < after.len() implies exists|k: int|
            0 <= k < n && (#[trigger] after[i]).0 == platform_name(k) by {
            if i < before.len() {
                assert(after[i] == before[i]);
                let k = choose|k: int| 0 <= k < n - 1 && before[i].0 == platform_name(k);
                assert(0 <= k < n && after[i].0 == platform_name(k));
            } else {
                assert(after[i].0 == platform_name(n - 1));
            }
        }
        assert forall|k: int| n <= k < platform_count() implies !has_key(after, platform_name(k)) by {
            if has_key(after, platform_name(k)) {
                let i = choose|i: int| 0 <= i < after.len() && (#[trigger] after[i]).0 == platform_name(k);
                let j = choose|j: int| 0 <= j < n && after[i].0 == platform_name(j);
                platform_names_differ(j, k);
            }
        }
        assert forall|i: int, j: int| 0 <= i < j < after.len() implies (#[trigger] after[i]).0 != (
        #[trigger] after[j]).0 by {
            if j < before.len() {
                assert(after[i] == before[i]);
                assert(after[j] == before[j]);
            } else {
                assert(after[i] == before[i]);
                assert(!has_key(before, platform_name(n - 1)));
            }
        }
    }
}

/// Adds the entry of the platform at position `k`, if `f` declares a page
/// for it.
fn add_platform(
    table: &mut Table<String, Vec<String>>,
    name: &str,
    urls: Vec<String>,
    Ghost(f): Ghost<FundingView>,
    Ghost(k): Ghost<int>,
)
    requires
        0 <= k < platform_count(),
        old(table).wf(),
        old(table)@ == url_map_upto(f, k),
        name@ == platform_name(k),
        urls.deep_view() == platform_urls(f, k),
    ensures
        final(table).wf(),
        final(table)@ == url_map_upto(f, k + 1),
{
    if urls.len() > 0 {
        proof {
            url_map_keys(f, k);
        }
        table.put(String::from_str(name), urls);
    }
}

/// The page of one account as a list.
fn page_of(address: &str, account: &Option<String>) -> (r: Vec<String>)
    ensures
        r.deep_view() == account_page(address@, account.deep_view()),
{
    let mut out: Vec<String> = Vec::new();
    match account {
        Some(a) => {
            out.push(joined(address, a.as_str()));
            assert(out.deep_view() =~= account_page(address@, account.deep_view()));
        },
        None => {
            assert(out.deep_view() =~= account_page(address@, account.deep_view()));
        },
    }
    out
}

impl FundingYMLContent {
    /// A declaration that names no account.
    pub fn empty() -> (f: FundingYMLContent)
        ensures
            f@.github.len() == 0,
            f@.custom.len() == 0,
            f@.patreon is None,
            f@.open_collective is None,
            f@.ko_fi is None,
            f@.tidelift is None,
            f@.community_bridge is None,
            f@.liberapay is None,
            f@.issuehunt is None,
            f@.otechie is None,
    {
        FundingYMLContent {
            github: Vec::new(),
            patreon: None,
            open_collective: None,
            ko_fi: None,
            tidelift: None,
            community_bridge: None,
            liberapay: None,
            issuehunt: None,
            otechie: None,
            custom: Vec::new(),
        }
    }

    /// The donation pages by platform: for each platform with a declared
    /// account its name with the addresses of its pages, in the order of
    /// the declaration. A platform without an account has no entry.
    pub fn to_url_map(&self) -> (map: Table<String, Vec<String>>)
        ensures
            map@ == url_map(self@),
            map.wf(),
    {
        let ghost f = self@;
        let mut map: Table<String, Vec<String>> = Table::new();
        add_platform(
            &mut map,
            "github",
            prefix_all("https://github.com/sponsors/", &self.github),
            Ghost(f),
            Ghost(0),
        );
        add_platform(
            &mut map,
            "patreon",
            page_of("https://www.patreon.com/", &self.patreon),
            Ghost(f),
            Ghost(1),
        );
        add_platform(
            &mut map,
            "open_collective",
            page_of("https://opencollective.com/", &self.open_collective),
            Ghost(f),
            Ghost(2),
        );
        add_platform(&mut map, "ko_fi", page_of("https://ko-fi.com/", &self.ko_fi), Ghost(f), Ghost(3));
        add_platform(
            &mut map,
            "tidelift",
            page_of("https://tidelift.com/funding/github/", &self.tidelift),
            Ghost(f),
            Ghost(4),
        );
        add_platform(
            &mut map,
            "community_bridge",
            page_of("https://funding.communitybridge.org/projects/", &self.community_bridge),
            Ghost(f),
            Ghost(5),
        );
        add_platform(
            &mut map,
            "liberapay",
            page_of("https://liberapay.com/", &self.liberapay),
            Ghost(f),
            Ghost(6),
        );
        add_platform(
            &mut map,
            "issuehunt",
            page_of("https://issuehunt.io/r/", &self.issuehunt),
            Ghost(f),
            Ghost(7),
        );
        add_platform(
            &mut map,
            "otechie",
            page_of("https://otechie.com/", &self.otechie),
            Ghost(f),
            Ghost(8),
        );
        add_platform(&mut map, "custom", clone_strings(&self.custom), Ghost(f), Ghost(9));
        map
    }
}

/// Whether `f` names no account at all.
pub open spec fn declares_nothing(f: FundingView) -> bool {
    &&& f.github.len() == 0
    &&& f.patreon is None
    &&& f.open_collective is None
    &&& f.ko_fi is None
    &&& f.tidelift is None
    &&& f.community_bridge is None
    &&& f.liberapay is None
    &&& f.issuehunt is None
    &&& f.otechie is None
    &&& f.custom.len() == 0
}

/// A declaration that names no account has no donation pages.
pub proof fn nothing_declared_nothing_mapped(f: FundingView)
    requires
        declares_nothing(f),
    ensures
        url_map(f) == Seq::<(Seq<char>, Seq<Seq<char>>)>::empty(),
{
    reveal_with_fuel(url_map_upto, 11);
}

/// The sponsors declared for GitHub stand under the name "github", each as
/// the address of its sponsor page, as many as were declared and in the
/// order of the declaration.
pub proof fn github_sponsors_keep_their_order(f: FundingView)
    requires
        f.github.len() > 0,
    ensures
        lookup(url_map(f), "github"@) == Some(prefixed("https://github.com/sponsors/"@, f.github)),
        url_map(f)[0] == ("github"@, prefixed("https://github.com/sponsors/"@, f.github)),
{
    url_map_first_entry(f, platform_count());
    url_map_keys(f, platform_count());
    crate::table::key_position_is_unique(url_map(f), 0);
}

/// With a GitHub sponsor declared, the first entry is that of GitHub.
proof fn url_map_first_entry(f: FundingView, n: int)
    requires
        f.github.len() > 0,
        1 <= n <= platform_count(),
    ensures
        url_map_upto(f, n).len() > 0,
        url_map_upto(f, n)[0] == ("github"@, prefixed("https://github.com/sponsors/"@, f.github)),
    decreases n,
{
    if n > 1 {
        url_map_first_entry(f, n - 1);
    } else {
        reveal_with_fuel(url_map_upto, 2);
    }
}

/// The figures that a donation page states, as its text gives them.
#[derive(Debug)]
pub struct ParsedFundingInfo {
    pub monthly_raised_amount: Option<String>,
    pub target_monthly_raised_amount: Option<String>,
    pub total_raised_amount: Option<String>,
    pub target_raised_amount: Option<String>,
    pub is_funding: bool,
}

pub struct FundingStatsView {
    pub monthly_raised_amount: Option<Seq<char>>,
    pub target_monthly_raised_amount: Option<Seq<char>>,
    pub total_raised_amount: Option<Seq<char>>,
    pub target_raised_amount: Option<Seq<char>>,
    pub is_funding: bool,
}

impl View for ParsedFundingInfo {
    type V = FundingStatsView;

    open spec fn view(&self) -> FundingStatsView {
        FundingStatsView {
            monthly_raised_amount: self.monthly_raised_amount.deep_view(),
            target_monthly_raised_amount: self.target_monthly_raised_amount.deep_view(),
            total_raised_amount: self.total_raised_amount.deep_view(),
            target_raised_amount: self.target_raised_amount.deep_view(),
            is_funding: self.is_funding,
        }
    }
}

impl DeepView for ParsedFundingInfo {
    type V = FundingStatsView;

    open spec fn deep_view(&self) -> FundingStatsView {
        self@
    }
}

impl Clone for ParsedFundingInfo {
    fn clone(&self) -> (r: Self)
        ensures
            r@ == self@,
    {
        ParsedFundingInfo {
            monthly_raised_amount: crate::package::clone_optional_string(
                &self.monthly_raised_amount,
            ),
            target_monthly_raised_amount: crate::package::clone_optional_string(
                &self.target_monthly_raised_amount,
            ),
            total_raised_amount: crate::package::clone_optional_string(&self.total_raised_amount),
            target_raised_amount: crate::package::clone_optional_string(&self.target_raised_amount),
            is_funding: self.is_funding,
        }
    }
}

/// The marker that opens and closes a block of code in a completion.
pub open spec fn code_fence() -> Seq<char> {
    "```"@
}

/// `text` without the code fences around it.
pub open spec fn unfenced(text: Seq<char>) -> Seq<char> {
    without_trailing(without_leading(text, code_fence()), code_fence())
}

/// Removes the code fences that a completion may put around its answer:
/// every fence at the start, then every fence at the end.
pub fn strip_code_fences(content: &str) -> (r: &str)
    ensures
        r@ == unfenced(content@),
{
    trim_end_matches(trim_start_matches(content, "```"), "```")
}

/// A text that neither begins nor ends with a code fence, as every JSON
/// document does, is read the same with fences around it and without:
/// in both cases what is left is the text itself.
pub proof fn fenced_text_reads_as_unfenced(text: Seq<char>)
    requires
        !code_fence().is_prefix_of(text),
        !code_fence().is_suffix_of(text),
    ensures
        unfenced(code_fence() + text + code_fence()) == text,
        unfenced(text) == text,
{
    reveal_strlit("```");
    let fence = code_fence();
    let fenced = fence + text + fence;
    let tail = text + fence;
    assert(fence.len() == 3 && fence[0] == '`' && fence[1] == '`' && fence[2] == '`');
    assert(fenced.subrange(0, 3) =~= fence);
    assert(fenced.skip(3) =~= tail);
    assert(without_leading(fenced, fence) == without_leading(tail, fence));
    assert(tail.subrange(tail.len() - 3, tail.len() as int) =~= fence);
    assert(tail.take(tail.len() - 3) =~= text);
    if fence.is_prefix_of(tail) {
        assert(tail.subrange(0, 3) == fence);
        if text.len() >= 3 {
            assert(text.subrange(0, 3) =~= tail.subrange(0, 3));
        }
        assert forall|i: int| 0 <= i < text.len() implies text[i] == '`' by {
            assert(tail.subrange(0, 3)[i] == fence[i]);
        }
        assert(tail.skip(3) =~= text);
        assert(without_leading(tail, fence) == without_leading(text, fence));
        assert(without_leading(text, fence) == text);
        assert(without_trailing(text, fence) == text);
    } else {
        assert(without_leading(tail, fence) == tail);
        assert(without_trailing(tail, fence) == without_trailing(text, fence));
        assert(without_trailing(text, fence) == text);
    }
}

} // verus!
