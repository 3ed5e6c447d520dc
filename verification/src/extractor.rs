//! The third stage: the funding figures of every donation page that the
//! repositories declare.
//!
//! For each page the driver first fetches a summary and then, if there is
//! one, asks for the figures to be extracted from it. The extractor hands
//! out the pages, at most `CONCURRENCY_LIMIT` at a time, says after each
//! summary what is to be done next, and keeps what came back by page.

use crate::executor::{
    finish_preserves_wf, replace_preserves_wf, start_preserves_wf, Executor, ExecutorView,
    CONCURRENCY_LIMIT,
};
use crate::funding::{url_map, FundingStatsView, FundingView, FundingYMLContent, ParsedFundingInfo};
use crate::package::NameVersion;
use crate::repository::{GithubInfo, GithubInfoView};
use crate::table::{distinct_keys, put, put_is_map_insert, Table};
use vstd::prelude::*;

verus! {

/// The lists of `lists` one after the other.
pub open spec fn concat_all(lists: Seq<Seq<Seq<char>>>) -> Seq<Seq<char>>
    decreases lists.len(),
{
    if lists.len() == 0 {
        Seq::empty()
    } else {
        concat_all(lists.drop_last()) + lists.last()
    }
}

/// The donation pages that `f` declares, platform by platform.
pub open spec fn declared_pages(f: FundingView) -> Seq<Seq<char>> {
    concat_all(url_map(f).map_values(|e: (Seq<char>, Seq<Seq<char>>)| e.1))
}

/// The donation pages of one repository: those of its funding declaration,
/// if it has one.
pub open spec fn record_pages(info: GithubInfoView) -> Seq<Seq<char>> {
    match info.funding {
        Some(f) => declared_pages(f),
        None => Seq::empty(),
    }
}

/// The donation pages of all repositories, in the order of the records. A
/// page that two repositories declare occurs twice.
pub open spec fn candidate_pages(records: Seq<(NameVersion, GithubInfoView)>) -> Seq<Seq<char>> {
    concat_all(records.map_values(|r: (NameVersion, GithubInfoView)| record_pages(r.1)))
}

/// Appends copies of `items` to `out`.
fn append_strings(out: &mut Vec<String>, items: &Vec<String>)
    ensures
        final(out).deep_view() == old(out).deep_view() + items.deep_view(),
{
    let mut i: usize = 0;
    assert(out.deep_view() =~= old(out).deep_view() + items.deep_view().take(0));
    while i < items.len()
        invariant
            i <= items.len(),
            out.deep_view() == old(out).deep_view() + items.deep_view().take(i as int),
        decreases items.len() - i,
    {
        let ghost before = out.deep_view();
        out.push(items[i].clone());
        assert(out.deep_view() =~= before.push(items[i as int]@));
        assert(items.deep_view().take(i + 1) =~= items.deep_view().take(i as int).push(
            items[i as int]@,
        ));
        assert(out.deep_view() =~= old(out).deep_view() + items.deep_view().take(i + 1));
        i += 1;
    }
    assert(items.deep_view().take(i as int) =~= items.deep_view());
}

/// The donation pages that a funding declaration leads to.
pub fn pages_of(f: &FundingYMLContent) -> (r: Vec<String>)
    ensures
        r.deep_view() == declared_pages(f@),
{
    let map = f.to_url_map();
    let entries = map.entries();
    let ghost lists = url_map(f@).map_values(|e: (Seq<char>, Seq<Seq<char>>)| e.1);
    let mut out: Vec<String> = Vec::new();
    let mut i: usize = 0;
    assert(out.deep_view() =~= concat_all(lists.take(0)));
    while i < entries.len()
        invariant
            i <= entries.len(),
            entries.deep_view() == url_map(f@),
            lists == url_map(f@).map_values(|e: (Seq<char>, Seq<Seq<char>>)| e.1),
            out.deep_view() == concat_all(lists.take(i as int)),
        decreases entries.len() - i,
    {
        assert(entries.deep_view()[i as int] == entries[i as int].deep_view());
        assert(lists.take(i + 1).drop_last() =~= lists.take(i as int));
        append_strings(&mut out, &entries[i].1);
        i += 1;
    }
    assert(lists.take(i as int) =~= lists);
    out
}

/// Collects the donation pages to visit from the repository records.
pub fn funding_page_urls(records: &Table<(String, String), GithubInfo>) -> (r: Vec<String>)
    ensures
        r.deep_view() == candidate_pages(records@),
{
    let entries = records.entries();
    let ghost lists = records@.map_values(|r: (NameVersion, GithubInfoView)| record_pages(r.1));
    let mut out: Vec<String> = Vec::new();
    let mut i: usize = 0;
    assert(out.deep_view() =~= concat_all(lists.take(0)));
    while i < entries.len()
        invariant
            i <= entries.len(),
            entries.deep_view() == records@,
            lists == records@.map_values(|r: (NameVersion, GithubInfoView)| record_pages(r.1)),
            out.deep_view() == concat_all(lists.take(i as int)),
        decreases entries.len() - i,
    {
        assert(entries.deep_view()[i as int] == entries[i as int].deep_view());
        assert(lists.take(i + 1).drop_last() =~= lists.take(i as int));
        match &entries[i].1.funding {
            Some(f) => {
                let pages = pages_of(f);
                append_strings(&mut out, &pages);
            },
            None => {
                assert(out.deep_view() + Seq::<Seq<char>>::empty() =~= out.deep_view());
            },
        }
        i += 1;
    }
    assert(lists.take(i as int) =~= lists);
    out
}

/// A page in flight: its address, and whether its summary has arrived.
pub type PageView = (Seq<char>, bool);

/// The extractor as a mathematical value: the pages that wait or are in
/// flight, and for each page that is done the figures found on it, if any.
pub struct ExtractorView {
    pub work: ExecutorView<PageView>,
    pub results: Seq<(Seq<char>, Option<FundingStatsView>)>,
}

/// What is to be done after a summary was reported.
#[derive(Clone, Copy, Debug, PartialEq, Eq, Structural)]
pub enum PageStep {
    /// No page in flight waits for a summary under the ticket.
    Ignored,
    /// The page has no summary; it is done, without figures.
    Done,
    /// The figures are to be extracted from the summary.
    Extract,
}

impl ExtractorView {
    /// The state before any page was visited: all pages wait.
    pub open spec fn init(pages: Seq<Seq<char>>) -> ExtractorView {
        ExtractorView {
            work: ExecutorView {
                limit: CONCURRENCY_LIMIT as nat,
                waiting: pages.map_values(|url: Seq<char>| (url, false)),
                running: Seq::empty(),
                next_ticket: 0,
            },
            results: Seq::empty(),
        }
    }

    /// The executor is in order and bounded by `CONCURRENCY_LIMIT`, and
    /// no page has two entries.
    pub open spec fn wf(self) -> bool {
        &&& self.work.wf()
        &&& self.work.limit == CONCURRENCY_LIMIT
        &&& distinct_keys(self.results)
    }

    /// The state after the next page was handed out, if the limit allowed
    /// that and one waited.
    pub open spec fn dispatch(self) -> ExtractorView {
        if self.work.can_start() {
            ExtractorView { work: self.work.start(), ..self }
        } else {
            self
        }
    }

    /// Whether a page in flight under `ticket` waits for its summary.
    pub open spec fn awaits_summary(self, ticket: u64) -> bool {
        self.work.holds(ticket) && !self.work.unit(ticket).1
    }

    /// Whether a page in flight under `ticket` waits for its figures.
    pub open spec fn awaits_stats(self, ticket: u64) -> bool {
        self.work.holds(ticket) && self.work.unit(ticket).1
    }

    /// What a report of a summary under `ticket` leads to.
    pub open spec fn summary_step(self, ticket: u64, found: bool) -> PageStep {
        if !self.awaits_summary(ticket) {
            PageStep::Ignored
        } else if found {
            PageStep::Extract
        } else {
            PageStep::Done
        }
    }

    /// The state after the summary of the page under `ticket` was reported:
    /// a page without summary is done and has no figures; one with a summary
    /// now waits for its figures.
    pub open spec fn summary(self, ticket: u64, found: bool) -> ExtractorView {
        if !self.awaits_summary(ticket) {
            self
        } else if found {
            ExtractorView {
                work: self.work.replace(ticket, (self.work.unit(ticket).0, true)),
                ..self
            }
        } else {
            ExtractorView {
                work: self.work.finish(ticket),
                results: put(self.results, self.work.unit(ticket).0, None),
            }
        }
    }

    /// The state after the extraction for the page under `ticket` ended:
    /// the page is done, with the figures if the extraction gave any.
    pub open spec fn stats(self, ticket: u64, figures: Option<FundingStatsView>) -> ExtractorView {
        if !self.awaits_stats(ticket) {
            self
        } else {
            ExtractorView {
                work: self.work.finish(ticket),
                results: put(self.results, self.work.unit(ticket).0, figures),
            }
        }
    }

    /// Nothing waits and nothing is in flight.
    pub open spec fn finished(self) -> bool {
        self.work.idle()
    }
}

/// Every step keeps the extractor well formed, so that no more than
/// `CONCURRENCY_LIMIT` pages are ever in flight.
pub proof fn extractor_steps_preserve_wf(
    s: ExtractorView,
    ticket: u64,
    found: bool,
    figures: Option<FundingStatsView>,
)
    requires
        s.wf(),
    ensures
        s.dispatch().wf(),
        s.summary(ticket, found).wf(),
        s.stats(ticket, figures).wf(),
        s.dispatch().work.running.len() <= CONCURRENCY_LIMIT,
        s.summary(ticket, found).work.running.len() <= CONCURRENCY_LIMIT,
        s.stats(ticket, figures).work.running.len() <= CONCURRENCY_LIMIT,
{
    if s.work.can_start() {
        start_preserves_wf(s.work);
    }
    if s.work.holds(ticket) {
        let url = s.work.unit(ticket).0;
        finish_preserves_wf(s.work, ticket);
        replace_preserves_wf(s.work, ticket, (url, true));
        put_is_map_insert(s.results, url, None::<FundingStatsView>);
        put_is_map_insert(s.results, url, figures);
    }
}

/// A page handed out for a visit, with the ticket to answer it under.
#[derive(Debug)]
pub struct PageDispatch {
    pub ticket: u64,
    pub url: String,
}

/// The state of the third stage.
#[derive(Debug)]
pub struct Extractor {
    work: Executor<(String, bool)>,
    results: Table<String, Option<ParsedFundingInfo>>,
}

impl View for Extractor {
    type V = ExtractorView;

    closed spec fn view(&self) -> ExtractorView {
        ExtractorView { work: self.work@, results: self.results@ }
    }
}

impl Extractor {
    /// The stage for the donation pages of `records`, of which none was
    /// visited yet.
    pub fn new(records: &Table<(String, String), GithubInfo>) -> (e: Extractor)
        ensures
            e@ == ExtractorView::init(candidate_pages(records@)),
            e@.wf(),
    {
        let pages = funding_page_urls(records);
        let ghost wanted = pages.deep_view().map_values(|url: Seq<char>| (url, false));
        let mut work: Executor<(String, bool)> = Executor::new(CONCURRENCY_LIMIT);
        let mut i: usize = 0;
        assert(wanted.take(0) =~= Seq::<PageView>::empty());
        while i < pages.len()
            invariant
                i <= pages.len(),
                wanted == pages.deep_view().map_values(|url: Seq<char>| (url, false)),
                work@.wf(),
                work@ == (ExecutorView::<PageView> {
                    limit: CONCURRENCY_LIMIT as nat,
                    waiting: wanted.take(i as int),
                    running: Seq::empty(),
                    next_ticket: 0,
                }),
            decreases pages.len() - i,
        {
            let page = (pages[i].clone(), false);
            assert(pages.deep_view()[i as int] == pages[i as int]@);
            assert(wanted.take(i + 1) =~= wanted.take(i as int).push(page.deep_view()));
            work.submit(page);
            i += 1;
        }
        assert(wanted.take(i as int) =~= wanted);
        Extractor { work, results: Table::new() }
    }

    /// Hands out the next page to visit, or `None` while the limit is
    /// reached and when none waits.
    pub fn next_page(&mut self) -> (r: Option<PageDispatch>)
        requires
            old(self)@.wf(),
        ensures
            final(self)@.wf(),
            final(self)@ == old(self)@.dispatch(),
            match r {
                Some(d) => {
                    &&& old(self)@.work.can_start()
                    &&& d.ticket == old(self)@.work.next_ticket
                    &&& d.url@ == old(self)@.work.waiting[0].0
                },
                None => !old(self)@.work.can_start(),
            },
    {
        proof {
            if self@.work.can_start() {
                start_preserves_wf(self@.work);
            }
        }
        match self.work.start() {
            None => None,
            Some(ticket) => match self.work.unit(ticket) {
                Some(page) => Some(PageDispatch { ticket, url: page.0.clone() }),
                None => None,
            },
        }
    }

    /// Reports whether a summary was found for the page under `ticket`, and
    /// says what is to be done next.
    pub fn summary_arrived(&mut self, ticket: u64, found: bool) -> (step: PageStep)
        requires
            old(self)@.wf(),
        ensures
            final(self)@.wf(),
            final(self)@ == old(self)@.summary(ticket, found),
            step == old(self)@.summary_step(ticket, found),
    {
        proof {
            extractor_steps_preserve_wf(self@, ticket, found, None);
        }
        let url = match self.work.unit(ticket) {
            Some(page) => {
                if page.1 {
                    return PageStep::Ignored;
                }
                page.0.clone()
            },
            None => { return PageStep::Ignored; },
        };
        if found {
            self.work.replace(ticket, (url, true));
            PageStep::Extract
        } else {
            self.work.finish(ticket);
            self.results.put(url, None);
            PageStep::Done
        }
    }

    /// Reports the end of the extraction for the page under `ticket`: the
    /// figures, or `None` where the extraction failed. Returns whether a
    /// page in flight waited for its figures under the ticket.
    pub fn stats_arrived(&mut self, ticket: u64, figures: Option<ParsedFundingInfo>) -> (accepted:
        bool)
        requires
            old(self)@.wf(),
        ensures
            final(self)@.wf(),
            final(self)@ == old(self)@.stats(ticket, figures.deep_view()),
            accepted == old(self)@.awaits_stats(ticket),
    {
        proof {
            extractor_steps_preserve_wf(self@, ticket, true, figures.deep_view());
        }
        match self.work.unit(ticket) {
            Some(page) => {
                if !page.1 {
                    return false;
                }
            },
            None => { return false; },
        }
        match self.work.finish(ticket) {
            Some(page) => {
                self.results.put(page.0, figures);
                true
            },
            None => false,
        }
    }

    /// Whether nothing waits and nothing is in flight.
    pub fn is_finished(&self) -> (r: bool)
        ensures
            r == self@.finished(),
    {
        self.work.is_idle()
    }

    /// How many pages are in flight.
    pub fn in_flight(&self) -> (n: usize)
        ensures
            n == self@.work.running.len(),
    {
        self.work.in_flight()
    }

    /// What is known of the pages that are done.
    pub fn results(&self) -> (r: &Table<String, Option<ParsedFundingInfo>>)
        ensures
            r@ == self@.results,
    {
        &self.results
    }

    /// Ends the stage and gives out what is known of each page.
    pub fn into_results(self) -> (r: Table<String, Option<ParsedFundingInfo>>)
        ensures
            r@ == self@.results,
            self@.wf() ==> r.wf(),
    {
        self.results
    }
}

} // verus!
