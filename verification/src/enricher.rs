//! The second stage: a repository record for every resolved package whose
//! repository pointer leads to a known host.
//!
//! The enricher hands out the repositories to fetch, at most
//! `CONCURRENCY_LIMIT` at a time, and keeps the records that came back. A
//! repository whose record could not be had is left out.

use crate::executor::{
    finish_preserves_wf, start_preserves_wf, Executor, ExecutorView, CONCURRENCY_LIMIT,
};
use crate::graph::{DependencyGraph, NodeView};
use crate::package::NameVersion;
use crate::repository::{
    get_github_repo_from_package_url, github_repo_of, GithubInfo, GithubInfoView, RepositoryError,
};
use crate::table::{distinct_keys, put, put_is_map_insert, Table};
use crate::text::equal;
use vstd::prelude::*;

verus! {

/// A package with the identifier of its repository.
pub type TargetView = (NameVersion, Seq<char>);

/// The identifier of the repository of a resolved package: that of its
/// repository pointer, if the pointer is of kind "git" and leads to a known
/// host.
pub open spec fn target_of(node: NodeView) -> Option<Seq<char>> {
    match node.info.repository {
        Some(repo) => if repo.repo_type == "git"@ {
            github_repo_of(repo.url)
        } else {
            None
        },
        None => None,
    }
}

/// The targets among the first `n` nodes, in the order of the nodes.
pub open spec fn targets_upto(nodes: Seq<NodeView>, n: int) -> Seq<TargetView>
    decreases n,
{
    if n <= 0 {
        Seq::empty()
    } else {
        match target_of(nodes[n - 1]) {
            Some(repo) => targets_upto(nodes, n - 1).push((nodes[n - 1].key, repo)),
            None => targets_upto(nodes, n - 1),
        }
    }
}

/// The packages of a graph that have a usable repository identifier, each
/// with that identifier.
pub open spec fn targets(nodes: Seq<NodeView>) -> Seq<TargetView> {
    targets_upto(nodes, nodes.len() as int)
}

/// Derives the repositories to look up from the resolved packages. A
/// package without a usable identifier has no part in this stage.
pub fn repository_targets(graph: &DependencyGraph) -> (r: Vec<((String, String), String)>)
    ensures
        r.deep_view() == targets(graph@.nodes),
{
    let nodes = graph.nodes();
    let ghost all = graph@.nodes;
    let mut out: Vec<((String, String), String)> = Vec::new();
    let mut i: usize = 0;
    assert(out.deep_view() =~= targets_upto(all, 0));
    while i < nodes.len()
        invariant
            i <= nodes.len(),
            nodes.deep_view() == all,
            out.deep_view() == targets_upto(all, i as int),
        decreases nodes.len() - i,
    {
        let node = &nodes[i];
        assert(all[i as int] == node@);
        let repo = match &node.info().repository {
            Some(pointer) => if equal(pointer.repo_type.as_str(), "git") {
                get_github_repo_from_package_url(pointer.url.as_str())
            } else {
                None
            },
            None => None,
        };
        match repo {
            Some(id) => {
                let key = (node.key().0.clone(), node.key().1.clone());
                let ghost before = out.deep_view();
                out.push((key, id));
                assert(out.deep_view() =~= before.push((all[i as int].key, id@)));
            },
            None => {},
        }
        i += 1;
    }
    out
}

/// The enricher as a mathematical value: the repositories that wait or are
/// in flight, and the records kept so far by package.
pub struct EnricherView {
    pub work: ExecutorView<TargetView>,
    pub records: Seq<(NameVersion, GithubInfoView)>,
}

impl EnricherView {
    /// The state before anything was fetched: all targets wait.
    pub open spec fn init(all: Seq<TargetView>) -> EnricherView {
        EnricherView {
            work: ExecutorView {
                limit: CONCURRENCY_LIMIT as nat,
                waiting: all,
                running: Seq::empty(),
                next_ticket: 0,
            },
            records: Seq::empty(),
        }
    }

    /// The executor is in order and bounded by `CONCURRENCY_LIMIT`, and
    /// no package has two records.
    pub open spec fn wf(self) -> bool {
        &&& self.work.wf()
        &&& self.work.limit == CONCURRENCY_LIMIT
        &&& distinct_keys(self.records)
    }

    /// The state after the next repository was handed out, if the limit
    /// allowed that and one waited.
    pub open spec fn dispatch(self) -> EnricherView {
        if self.work.can_start() {
            EnricherView { work: self.work.start(), ..self }
        } else {
            self
        }
    }

    /// The state after the answer to the lookup under `ticket` arrived: a
    /// record is kept under its package, a failure only ends the lookup. A
    /// ticket that no lookup in flight holds changes nothing.
    pub open spec fn record(
        self,
        ticket: u64,
        outcome: Result<GithubInfoView, RepositoryError>,
    ) -> EnricherView {
        if !self.work.holds(ticket) {
            self
        } else {
            match outcome {
                Ok(info) => EnricherView {
                    work: self.work.finish(ticket),
                    records: put(self.records, self.work.unit(ticket).0, info),
                },
                Err(_) => EnricherView { work: self.work.finish(ticket), ..self },
            }
        }
    }

    /// Nothing waits and nothing is in flight.
    pub open spec fn finished(self) -> bool {
        self.work.idle()
    }
}

/// Every step keeps the enricher well formed, so that no more than
/// `CONCURRENCY_LIMIT` lookups are ever in flight; a failed lookup leaves
/// the records as they were.
pub proof fn enricher_steps_preserve_wf(
    s: EnricherView,
    ticket: u64,
    outcome: Result<GithubInfoView, RepositoryError>,
)
    requires
        s.wf(),
    ensures
        s.dispatch().wf(),
        s.record(ticket, outcome).wf(),
        s.dispatch().work.running.len() <= CONCURRENCY_LIMIT,
        s.record(ticket, outcome).work.running.len() <= CONCURRENCY_LIMIT,
        outcome is Err ==> s.record(ticket, outcome).records == s.records,
        s.dispatch().records == s.records,
{
    if s.work.can_start() {
        start_preserves_wf(s.work);
    }
    if s.work.holds(ticket) {
        finish_preserves_wf(s.work, ticket);
        if let Ok(info) = outcome {
            put_is_map_insert(s.records, s.work.unit(ticket).0, info);
        }
    }
}

/// A repository handed out for a lookup, with the ticket to answer it under.
#[derive(Debug)]
pub struct RepositoryDispatch {
    pub ticket: u64,
    pub repo: String,
}

/// The state of the second stage.
#[derive(Debug)]
pub struct Enricher {
    work: Executor<((String, String), String)>,
    records: Table<(String, String), GithubInfo>,
}

impl View for Enricher {
    type V = EnricherView;

    closed spec fn view(&self) -> EnricherView {
        EnricherView { work: self.work@, records: self.records@ }
    }
}

impl Enricher {
    /// The stage for the packages of `graph`, of which nothing was looked up
    /// yet.
    pub fn new(graph: &DependencyGraph) -> (e: Enricher)
        ensures
            e@ == EnricherView::init(targets(graph@.nodes)),
            e@.wf(),
    {
        let all = repository_targets(graph);
        let ghost wanted = all.deep_view();
        let mut work: Executor<((String, String), String)> = Executor::new(CONCURRENCY_LIMIT);
        let mut i: usize = 0;
        assert(wanted.take(0) =~= Seq::<TargetView>::empty());
        while i < all.len()
            invariant
                i <= all.len(),
                all.deep_view() == wanted,
                work@.wf(),
                work@ == (ExecutorView::<TargetView> {
                    limit: CONCURRENCY_LIMIT as nat,
                    waiting: wanted.take(i as int),
                    running: Seq::empty(),
                    next_ticket: 0,
                }),
            decreases all.len() - i,
        {
            let target = ((all[i].0.0.clone(), all[i].0.1.clone()), all[i].1.clone());
            assert(wanted[i as int] == all[i as int].deep_view());
            assert(wanted.take(i + 1) =~= wanted.take(i as int).push(target.deep_view()));
            work.submit(target);
            i += 1;
        }
        assert(wanted.take(i as int) =~= wanted);
        Enricher { work, records: Table::new() }
    }

    /// Hands out the next repository to look up, or `None` while the limit
    /// is reached and when none waits.
    pub fn next_target(&mut self) -> (r: Option<RepositoryDispatch>)
        requires
            old(self)@.wf(),
        ensures
            final(self)@.wf(),
            final(self)@ == old(self)@.dispatch(),
            match r {
                Some(d) => {
                    &&& old(self)@.work.can_start()
                    &&& d.ticket == old(self)@.work.next_ticket
                    &&& d.repo@ == old(self)@.work.waiting[0].1
                },
                None => !old(self)@.work.can_start(),
            },
    {
        proof {
            if self@.work.can_start() {
                start_preserves_wf(self@.work);
            }
        }
        match self.work.start() {
            None => None,
            Some(ticket) => match self.work.unit(ticket) {
                Some(target) => Some(RepositoryDispatch { ticket, repo: target.1.clone() }),
                None => None,
            },
        }
    }

    /// Records the answer to the lookup under `ticket`. Returns whether a
    /// lookup in flight held the ticket; if none did, nothing changes.
    pub fn record(&mut self, ticket: u64, outcome: Result<GithubInfo, RepositoryError>) -> (accepted:
        bool)
        requires
            old(self)@.wf(),
        ensures
            final(self)@.wf(),
            final(self)@ == old(self)@.record(ticket, outcome_view(outcome)),
            accepted == old(self)@.work.holds(ticket),
    {
        proof {
            enricher_steps_preserve_wf(self@, ticket, outcome_view(outcome));
        }
        match self.work.finish(ticket) {
            None => false,
            Some(target) => {
                match outcome {
                    Ok(info) => {
                        self.records.put(target.0, info);
                    },
                    Err(_) => {},
                }
                true
            },
        }
    }

    /// Whether nothing waits and nothing is in flight.
    pub fn is_finished(&self) -> (r: bool)
        ensures
            r == self@.finished(),
    {
        self.work.is_idle()
    }

    /// How many lookups are in flight.
    pub fn in_flight(&self) -> (n: usize)
        ensures
            n == self@.work.running.len(),
    {
        self.work.in_flight()
    }

    /// The records kept so far.
    pub fn records(&self) -> (r: &Table<(String, String), GithubInfo>)
        ensures
            r@ == self@.records,
    {
        &self.records
    }

    /// Ends the stage and gives the records out.
    pub fn into_records(self) -> (r: Table<(String, String), GithubInfo>)
        ensures
            r@ == self@.records,
            self@.wf() ==> r.wf(),
    {
        self.records
    }
}

/// The answer to a lookup as a mathematical value.
pub open spec fn outcome_view(outcome: Result<GithubInfo, RepositoryError>) -> Result<
    GithubInfoView,
    RepositoryError,
> {
    match outcome {
        Ok(info) => Ok(info@),
        Err(e) => Err(e),
    }
}

} // verus!
