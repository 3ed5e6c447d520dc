//! The three stages of one job in sequence: resolve the dependency graph,
//! look up the repositories, visit the donation pages. A stage starts when
//! the one before it has ended, and the results are given out only when all
//! three are done.

use crate::enricher::{
    enricher_steps_preserve_wf, outcome_view, targets, Enricher, EnricherView, RepositoryDispatch,
};
use crate::executor::CONCURRENCY_LIMIT;
use crate::extractor::{
    candidate_pages, extractor_steps_preserve_wf, Extractor, ExtractorView, PageDispatch, PageStep,
};
use crate::funding::{FundingStatsView, ParsedFundingInfo};
use crate::graph::{DependencyGraph, GraphView};
use crate::package::{Manifest, NameVersion, PackageInfo, PackageInfoView};
use crate::repository::{GithubInfo, GithubInfoView, RepositoryError};
use crate::resolver::{
    dispatch_preserves_wf, record_preserves_wf, Dispatch, Resolver, ResolverView,
};
use crate::table::{distinct_keys, Table};
use vstd::prelude::*;

verus! {

/// What the three stages have produced.
pub struct ArtifactsView {
    pub graph: GraphView,
    pub repositories: Seq<(NameVersion, GithubInfoView)>,
    pub funding: Seq<(Seq<char>, Option<FundingStatsView>)>,
}

/// A pipeline as a mathematical value: the stage it is in, with what the
/// stages before have produced.
pub enum PipelineView {
    Resolving { resolver: ResolverView },
    Enriching { graph: GraphView, enricher: EnricherView },
    Extracting {
        graph: GraphView,
        repositories: Seq<(NameVersion, GithubInfoView)>,
        extractor: ExtractorView,
    },
    Finished { artifacts: ArtifactsView },
}

/// What the driver is to do next.
pub enum ActionView {
    FetchPackage { ticket: u64, name: Seq<char>, version: Seq<char> },
    FetchRepository { ticket: u64, repo: Seq<char> },
    VisitPage { ticket: u64, url: Seq<char> },
    /// Nothing can start before an answer has arrived.
    Wait,
    /// A stage has ended and the next has begun.
    Advanced,
    /// All stages have ended.
    Finished,
}

impl PipelineView {
    /// The first state: the resolution of `deps` begins.
    pub open spec fn init(deps: Seq<NameVersion>) -> PipelineView {
        PipelineView::Resolving { resolver: ResolverView::init(deps) }
    }

    /// The stage that runs is in order, and so is what the stages before
    /// it have produced.
    pub open spec fn wf(self) -> bool {
        match self {
            PipelineView::Resolving { resolver } => resolver.wf(),
            PipelineView::Enriching { graph, enricher } => graph.wf() && enricher.wf(),
            PipelineView::Extracting { graph, repositories, extractor } => {
                &&& graph.wf()
                &&& distinct_keys(repositories)
                &&& extractor.wf()
            },
            PipelineView::Finished { artifacts } => {
                &&& artifacts.graph.wf()
                &&& distinct_keys(artifacts.repositories)
                &&& distinct_keys(artifacts.funding)
            },
        }
    }

    /// What the driver is told when it asks for the next thing to do.
    pub open spec fn action(self) -> ActionView {
        match self {
            PipelineView::Resolving { resolver } => match resolver.dispatched() {
                Some((ticket, key)) => ActionView::FetchPackage {
                    ticket,
                    name: key.0,
                    version: key.1,
                },
                None => if resolver.dispatch().finished() {
                    ActionView::Advanced
                } else {
                    ActionView::Wait
                },
            },
            PipelineView::Enriching { graph, enricher } => if enricher.work.can_start() {
                ActionView::FetchRepository {
                    ticket: enricher.work.next_ticket as u64,
                    repo: enricher.work.waiting[0].1,
                }
            } else if enricher.finished() {
                ActionView::Advanced
            } else {
                ActionView::Wait
            },
            PipelineView::Extracting { graph, repositories, extractor } => if extractor.work.can_start() {
                ActionView::VisitPage {
                    ticket: extractor.work.next_ticket as u64,
                    url: extractor.work.waiting[0].0,
                }
            } else if extractor.finished() {
                ActionView::Advanced
            } else {
                ActionView::Wait
            },
            PipelineView::Finished { artifacts } => ActionView::Finished,
        }
    }

    /// The state after the driver asked for the next thing to do: a unit of
    /// the current stage starts if one can, and a stage in which nothing
    /// waits and nothing is in flight gives way to the next, which works on
    /// all that the stage has produced.
    pub open spec fn advance(self) -> PipelineView {
        match self {
            PipelineView::Resolving { resolver } => {
                let next = resolver.dispatch();
                if resolver.dispatched() is None && next.finished() {
                    PipelineView::Enriching {
                        graph: next.graph,
                        enricher: EnricherView::init(targets(next.graph.nodes)),
                    }
                } else {
                    PipelineView::Resolving { resolver: next }
                }
            },
            PipelineView::Enriching { graph, enricher } => {
                if !enricher.work.can_start() && enricher.finished() {
                    PipelineView::Extracting {
                        graph,
                        repositories: enricher.records,
                        extractor: ExtractorView::init(candidate_pages(enricher.records)),
                    }
                } else {
                    PipelineView::Enriching { graph, enricher: enricher.dispatch() }
                }
            },
            PipelineView::Extracting { graph, repositories, extractor } => {
                if !extractor.work.can_start() && extractor.finished() {
                    PipelineView::Finished {
                        artifacts: ArtifactsView { graph, repositories, funding: extractor.results },
                    }
                } else {
                    PipelineView::Extracting { graph, repositories, extractor: extractor.dispatch() }
                }
            },
            PipelineView::Finished { artifacts } => self,
        }
    }

    /// The state after a registry's answer arrived; it counts only while the
    /// graph is being resolved.
    pub open spec fn package_arrived(self, ticket: u64, outcome: Option<PackageInfoView>) -> PipelineView {
        match self {
            PipelineView::Resolving { resolver } => PipelineView::Resolving {
                resolver: resolver.record(ticket, outcome),
            },
            _ => self,
        }
    }

    /// The state after the answer to a repository lookup arrived; it counts
    /// only while repositories are being looked up.
    pub open spec fn repository_arrived(
        self,
        ticket: u64,
        outcome: Result<GithubInfoView, RepositoryError>,
    ) -> PipelineView {
        match self {
            PipelineView::Enriching { graph, enricher } => PipelineView::Enriching {
                graph,
                enricher: enricher.record(ticket, outcome),
            },
            _ => self,
        }
    }

    /// The state after the summary of a page was reported; it counts only
    /// while pages are being visited.
    pub open spec fn summary_arrived(self, ticket: u64, found: bool) -> PipelineView {
        match self {
            PipelineView::Extracting { graph, repositories, extractor } => PipelineView::Extracting {
                graph,
                repositories,
                extractor: extractor.summary(ticket, found),
            },
            _ => self,
        }
    }

    /// The state after the extraction for a page ended; it counts only
    /// while pages are being visited.
    pub open spec fn stats_arrived(self, ticket: u64, figures: Option<FundingStatsView>) -> PipelineView {
        match self {
            PipelineView::Extracting { graph, repositories, extractor } => PipelineView::Extracting {
                graph,
                repositories,
                extractor: extractor.stats(ticket, figures),
            },
            _ => self,
        }
    }
}

/// Every step keeps the pipeline well formed: the stages keep their bounds,
/// and what a stage has produced stays as it is once the stage has ended.
pub proof fn advance_preserves_wf(s: PipelineView)
    requires
        s.wf(),
    ensures
        s.advance().wf(),
{
    match s {
        PipelineView::Resolving { resolver } => {
            dispatch_preserves_wf(resolver);
        },
        PipelineView::Enriching { graph, enricher } => {
            enricher_steps_preserve_wf(enricher, 0, Err(RepositoryError::Upstream));
        },
        PipelineView::Extracting { graph, repositories, extractor } => {
            extractor_steps_preserve_wf(extractor, 0, false, None);
        },
        PipelineView::Finished { artifacts } => {},
    }
}

impl PipelineView {
    /// How many calls to a service are outstanding.
    pub open spec fn in_flight(self) -> nat {
        match self {
            PipelineView::Resolving { resolver } => resolver.work.running.len(),
            PipelineView::Enriching { graph, enricher } => enricher.work.running.len(),
            PipelineView::Extracting { graph, repositories, extractor } => extractor.work.running.len(),
            PipelineView::Finished { artifacts } => 0,
        }
    }
}

/// Whatever answer arrives, and whatever stage the pipeline is in, it stays
/// well formed; and in a well-formed pipeline at most `CONCURRENCY_LIMIT`
/// calls are outstanding.
pub proof fn answers_preserve_wf(
    s: PipelineView,
    ticket: u64,
    package: Option<PackageInfoView>,
    repository: Result<GithubInfoView, RepositoryError>,
    found: bool,
    figures: Option<FundingStatsView>,
)
    requires
        s.wf(),
    ensures
        s.in_flight() <= CONCURRENCY_LIMIT,
        s.package_arrived(ticket, package).wf(),
        s.repository_arrived(ticket, repository).wf(),
        s.summary_arrived(ticket, found).wf(),
        s.stats_arrived(ticket, figures).wf(),
{
    match s {
        PipelineView::Resolving { resolver } => {
            record_preserves_wf(resolver, ticket, package);
        },
        PipelineView::Enriching { graph, enricher } => {
            enricher_steps_preserve_wf(enricher, ticket, repository);
        },
        PipelineView::Extracting { graph, repositories, extractor } => {
            extractor_steps_preserve_wf(extractor, ticket, found, figures);
        },
        PipelineView::Finished { artifacts } => {},
    }
}

/// The results of a job: the dependency graph, the repository records by
/// package, and the funding figures by donation page.
#[derive(Debug)]
pub struct Artifacts {
    pub graph: DependencyGraph,
    pub repositories: Table<(String, String), GithubInfo>,
    pub funding: Table<String, Option<ParsedFundingInfo>>,
}

impl View for Artifacts {
    type V = ArtifactsView;

    open spec fn view(&self) -> ArtifactsView {
        ArtifactsView {
            graph: self.graph@,
            repositories: self.repositories@,
            funding: self.funding@,
        }
    }
}

impl DeepView for Artifacts {
    type V = ArtifactsView;

    open spec fn deep_view(&self) -> ArtifactsView {
        self@
    }
}

/// What the driver is to do next.
#[derive(Debug)]
pub enum Action {
    FetchPackage(Dispatch),
    FetchRepository(RepositoryDispatch),
    VisitPage(PageDispatch),
    Wait,
    Advanced,
    Finished,
}

impl View for Action {
    type V = ActionView;

    open spec fn view(&self) -> ActionView {
        match self {
            Action::FetchPackage(d) => ActionView::FetchPackage {
                ticket: d.ticket,
                name: d.name@,
                version: d.version@,
            },
            Action::FetchRepository(d) => ActionView::FetchRepository { ticket: d.ticket, repo: d.repo@ },
            Action::VisitPage(d) => ActionView::VisitPage { ticket: d.ticket, url: d.url@ },
            Action::Wait => ActionView::Wait,
            Action::Advanced => ActionView::Advanced,
            Action::Finished => ActionView::Finished,
        }
    }
}

#[derive(Debug)]
enum Stage {
    Resolving(Resolver),
    Enriching(DependencyGraph, Enricher),
    Extracting(DependencyGraph, Table<(String, String), GithubInfo>, Extractor),
    Finished(Artifacts),
}

/// The state of one job's three stages.
#[derive(Debug)]
pub struct Pipeline {
    stage: Stage,
}

impl View for Pipeline {
    type V = PipelineView;

    closed spec fn view(&self) -> PipelineView {
        match self.stage {
            Stage::Resolving(resolver) => PipelineView::Resolving { resolver: resolver@ },
            Stage::Enriching(graph, enricher) => PipelineView::Enriching {
                graph: graph@,
                enricher: enricher@,
            },
            Stage::Extracting(graph, repositories, extractor) => PipelineView::Extracting {
                graph: graph@,
                repositories: repositories@,
                extractor: extractor@,
            },
            Stage::Finished(artifacts) => PipelineView::Finished { artifacts: artifacts@ },
        }
    }
}

impl Pipeline {
    /// The pipeline for `manifest`, of which nothing was fetched yet.
    pub fn new(manifest: &Manifest) -> (p: Pipeline)
        ensures
            p@ == PipelineView::init(manifest@.dependencies),
            p@.wf(),
    {
        Pipeline { stage: Stage::Resolving(Resolver::new(manifest)) }
    }

    /// Says what the driver is to do next, and moves on accordingly.
    pub fn advance(self) -> (r: (Pipeline, Action))
        requires
            self@.wf(),
        ensures
            r.0@ == self@.advance(),
            r.0@.wf(),
            r.1@ == self@.action(),
    {
        proof {
            advance_preserves_wf(self@);
        }
        match self.stage {
            Stage::Resolving(resolver) => {
                let mut resolver = resolver;
                match resolver.next_request() {
                    Some(d) => (Pipeline { stage: Stage::Resolving(resolver) }, Action::FetchPackage(d)),
                    None => {
                        if resolver.is_finished() {
                            let graph = resolver.into_graph();
                            let enricher = Enricher::new(&graph);
                            (Pipeline { stage: Stage::Enriching(graph, enricher) }, Action::Advanced)
                        } else {
                            (Pipeline { stage: Stage::Resolving(resolver) }, Action::Wait)
                        }
                    },
                }
            },
            Stage::Enriching(graph, enricher) => {
                let mut enricher = enricher;
                match enricher.next_target() {
                    Some(d) => (
                        Pipeline { stage: Stage::Enriching(graph, enricher) },
                        Action::FetchRepository(d),
                    ),
                    None => {
                        if enricher.is_finished() {
                            let repositories = enricher.into_records();
                            let extractor = Extractor::new(&repositories);
                            (
                                Pipeline { stage: Stage::Extracting(graph, repositories, extractor) },
                                Action::Advanced,
                            )
                        } else {
                            (Pipeline { stage: Stage::Enriching(graph, enricher) }, Action::Wait)
                        }
                    },
                }
            },
            Stage::Extracting(graph, repositories, extractor) => {
                let mut extractor = extractor;
                match extractor.next_page() {
                    Some(d) => (
                        Pipeline { stage: Stage::Extracting(graph, repositories, extractor) },
                        Action::VisitPage(d),
                    ),
                    None => {
                        if extractor.is_finished() {
                            let funding = extractor.into_results();
                            (
                                Pipeline {
                                    stage: Stage::Finished(Artifacts { graph, repositories, funding }),
                                },
                                Action::Advanced,
                            )
                        } else {
                            (
                                Pipeline { stage: Stage::Extracting(graph, repositories, extractor) },
                                Action::Wait,
                            )
                        }
                    },
                }
            },
            Stage::Finished(artifacts) => (Pipeline { stage: Stage::Finished(artifacts) }, Action::Finished),
        }
    }

    /// Reports a registry's answer: the package, or `None` where it is
    /// absent or the fetch failed. Returns whether a request in flight held
    /// the ticket.
    pub fn package_arrived(&mut self, ticket: u64, outcome: Option<PackageInfo>) -> (accepted: bool)
        requires
            old(self)@.wf(),
        ensures
            final(self)@.wf(),
            final(self)@ == old(self)@.package_arrived(ticket, outcome.deep_view()),
            accepted == (old(self)@ matches PipelineView::Resolving { resolver }
                && resolver.work.holds(ticket)),
    {
        match &mut self.stage {
            Stage::Resolving(resolver) => resolver.record(ticket, outcome),
            _ => false,
        }
    }

    /// Reports the answer to a repository lookup. A failure leaves the
    /// repository out of the results and ends nothing else. Returns whether
    /// a lookup in flight held the ticket.
    pub fn repository_arrived(
        &mut self,
        ticket: u64,
        outcome: Result<GithubInfo, RepositoryError>,
    ) -> (accepted: bool)
        requires
            old(self)@.wf(),
        ensures
            final(self)@.wf(),
            final(self)@ == old(self)@.repository_arrived(ticket, outcome_view(outcome)),
            accepted == (old(self)@ matches PipelineView::Enriching { enricher, .. }
                && enricher.work.holds(ticket)),
    {
        match &mut self.stage {
            Stage::Enriching(_, enricher) => enricher.record(ticket, outcome),
            _ => false,
        }
    }

    /// Reports whether a summary was found for a page, and says what is to
    /// be done with the page next.
    pub fn summary_arrived(&mut self, ticket: u64, found: bool) -> (step: PageStep)
        requires
            old(self)@.wf(),
        ensures
            final(self)@.wf(),
            final(self)@ == old(self)@.summary_arrived(ticket, found),
            step == (match old(self)@ {
                PipelineView::Extracting { extractor, .. } => extractor.summary_step(ticket, found),
                _ => PageStep::Ignored,
            }),
    {
        match &mut self.stage {
            Stage::Extracting(_, _, extractor) => extractor.summary_arrived(ticket, found),
            _ => PageStep::Ignored,
        }
    }

    /// Reports the end of the extraction for a page: the figures, or `None`
    /// where the extraction failed. Returns whether a page in flight waited
    /// for its figures under the ticket.
    pub fn stats_arrived(&mut self, ticket: u64, figures: Option<ParsedFundingInfo>) -> (accepted:
        bool)
        requires
            old(self)@.wf(),
        ensures
            final(self)@.wf(),
            final(self)@ == old(self)@.stats_arrived(ticket, figures.deep_view()),
            accepted == (old(self)@ matches PipelineView::Extracting { extractor, .. }
                && extractor.awaits_stats(ticket)),
    {
        match &mut self.stage {
            Stage::Extracting(_, _, extractor) => extractor.stats_arrived(ticket, figures),
            _ => false,
        }
    }

    /// Whether all three stages have ended.
    pub fn is_finished(&self) -> (r: bool)
        ensures
            r == (self@ is Finished),
    {
        match &self.stage {
            Stage::Finished(_) => true,
            _ => false,
        }
    }

    /// Gives the results out once all stages have ended; before that, the
    /// pipeline comes back as it is.
    pub fn into_artifacts(self) -> (r: Result<Artifacts, Pipeline>)
        ensures
            match r {
                Ok(artifacts) => self@ == (PipelineView::Finished { artifacts: artifacts@ }),
                Err(p) => !(self@ is Finished) && p@ == self@,
            },
    {
        match self.stage {
            Stage::Finished(artifacts) => Ok(artifacts),
            stage => Err(Pipeline { stage }),
        }
    }
}

} // verus!
