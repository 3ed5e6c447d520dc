//! Breadth-first resolution of a manifest's transitive dependencies.
//!
//! The resolver decides; it fetches nothing. Whoever drives it asks for the
//! next request, fetches the package from the registry, and reports what came
//! back under the request's ticket. No key is requested twice, and at most
//! `CONCURRENCY_LIMIT` requests are in flight at any time.

use crate::executor::{
    finish_preserves_wf, start_preserves_wf, Executor, ExecutorView, CONCURRENCY_LIMIT,
};
use crate::graph::{insert_preserves_wf, link_preserves_wf, DependencyGraph, GraphView};
use crate::package::{clone_pairs, Manifest, NameVersion, PackageInfo, PackageInfoView};
use vstd::prelude::*;

verus! {

/// A package to fetch, and the node that asked for it; no parent means the
/// manifest root.
pub struct RequestView {
    pub name: Seq<char>,
    pub version: Seq<char>,
    pub parent: Option<NameVersion>,
}

impl RequestView {
    /// The key under which the package becomes a node if it is found.
    pub open spec fn key(self) -> NameVersion {
        (self.name, self.version)
    }
}

/// The requests that the manifest root makes.
pub open spec fn root_requests(deps: Seq<NameVersion>) -> Seq<RequestView> {
    deps.map_values(|d: NameVersion| RequestView { name: d.0, version: d.1, parent: None })
}

/// The requests that the node `parent` makes for its declared dependencies.
pub open spec fn child_requests(parent: NameVersion, deps: Seq<NameVersion>) -> Seq<RequestView> {
    deps.map_values(|d: NameVersion| RequestView { name: d.0, version: d.1, parent: Some(parent) })
}

/// The resolver as a mathematical value. `fetched` lists, in order, the key
/// of every request that was handed out.
pub struct ResolverView {
    pub graph: GraphView,
    pub work: ExecutorView<RequestView>,
    pub fetched: Seq<NameVersion>,
}

impl ResolverView {
    /// The state before anything was fetched: the root's requests wait.
    pub open spec fn init(deps: Seq<NameVersion>) -> ResolverView {
        ResolverView {
            graph: GraphView::empty(),
            work: ExecutorView {
                limit: CONCURRENCY_LIMIT as nat,
                waiting: root_requests(deps),
                running: Seq::empty(),
                next_ticket: 0,
            },
            fetched: Seq::empty(),
        }
    }

    /// Whether the parent of `r`, if it has one, is a node.
    pub open spec fn parent_known(self, r: RequestView) -> bool {
        r.parent matches Some(p) ==> self.graph.has(p)
    }

    /// What holds of every state of a resolution: the graph and the
    /// executor are in order; no key was handed out twice; every node and
    /// every request in flight was handed out; a request in flight is no
    /// node yet and shares its key with no other in flight; and whoever
    /// asked for a request that waits or is in flight is a node.
    pub open spec fn wf(self) -> bool {
        &&& self.graph.wf()
        &&& self.work.wf()
        &&& self.work.limit == CONCURRENCY_LIMIT
        &&& self.fetched.no_duplicates()
        &&& forall|i: int|
            0 <= i < self.graph.nodes.len() ==> self.fetched.contains(
                (#[trigger] self.graph.nodes[i]).key,
            )
        &&& forall|i: int|
            0 <= i < self.work.running.len() ==> self.fetched.contains(
                (#[trigger] self.work.running[i]).1.key(),
            )
        &&& forall|i: int|
            0 <= i < self.work.running.len() ==> !self.graph.has(
                (#[trigger] self.work.running[i]).1.key(),
            )
        &&& forall|i: int, j: int|
            0 <= i < j < self.work.running.len() ==> (#[trigger] self.work.running[i]).1.key() != (
            #[trigger] self.work.running[j]).1.key()
        &&& forall|i: int|
            0 <= i < self.work.waiting.len() ==> self.parent_known(#[trigger] self.work.waiting[i])
        &&& forall|i: int|
            0 <= i < self.work.running.len() ==> self.parent_known(
                (#[trigger] self.work.running[i]).1,
            )
    }

    /// The state after every request at the head of the queue whose key was
    /// fetched before has been dropped.
    pub open spec fn settle(self) -> ResolverView
        decreases self.work.waiting.len(),
    {
        if self.work.waiting.len() > 0 && self.fetched.contains(self.work.waiting[0].key()) {
            ResolverView { work: self.work.withdraw(), ..self }.settle()
        } else {
            self
        }
    }

    /// The ticket and the key of the request that the next dispatch hands
    /// out, if it hands one out.
    pub open spec fn dispatched(self) -> Option<(u64, NameVersion)> {
        let s = self.settle();
        if s.work.can_start() {
            Some((s.work.next_ticket as u64, s.work.waiting[0].key()))
        } else {
            None
        }
    }

    /// The state after a dispatch: known requests at the head of the queue
    /// are dropped, and the first new one starts if the limit allows it.
    pub open spec fn dispatch(self) -> ResolverView {
        let s = self.settle();
        if s.work.can_start() {
            ResolverView {
                work: s.work.start(),
                fetched: s.fetched.push(s.work.waiting[0].key()),
                ..s
            }
        } else {
            s
        }
    }

    /// The state after the registry's answer to the request under `ticket`
    /// arrived. A package that is absent leaves the graph as it is. One that
    /// was found becomes a node whose children are its declared
    /// dependencies, each of which joins the queue, and a child of the node
    /// that asked for it. A ticket that no request in flight holds changes
    /// nothing.
    pub open spec fn record(self, ticket: u64, outcome: Option<PackageInfoView>) -> ResolverView {
        if !self.work.holds(ticket) {
            self
        } else {
            let request = self.work.unit(ticket);
            let rest = self.work.finish(ticket);
            match outcome {
                None => ResolverView { work: rest, ..self },
                Some(info) => ResolverView {
                    graph: self.graph.insert(request.key(), info).link(
                        request.parent,
                        request.key(),
                    ),
                    work: ExecutorView {
                        waiting: rest.waiting + child_requests(request.key(), info.dependencies),
                        ..rest
                    },
                    ..self
                },
            }
        }
    }

    /// Nothing waits and nothing is in flight.
    pub open spec fn finished(self) -> bool {
        self.work.idle()
    }
}

/// The first state is well formed.
pub proof fn init_is_wf(deps: Seq<NameVersion>)
    ensures
        ResolverView::init(deps).wf(),
{
    let s = ResolverView::init(deps);
    assert forall|i: int| 0 <= i < s.work.waiting.len() implies s.parent_known(
        #[trigger] s.work.waiting[i],
    ) by {}
}

/// Dropping known requests changes only the queue, of which a suffix stays,
/// and leaves no known request at its head.
pub proof fn settle_properties(s: ResolverView)
    requires
        s.wf(),
    ensures
        s.settle().wf(),
        s.settle().graph == s.graph,
        s.settle().fetched == s.fetched,
        s.settle().work.running == s.work.running,
        s.settle().work.next_ticket == s.work.next_ticket,
        s.settle().work.limit == s.work.limit,
        s.settle().work.waiting.len() > 0 ==> !s.fetched.contains(s.settle().work.waiting[0].key()),
    decreases s.work.waiting.len(),
{
    if s.work.waiting.len() > 0 && s.fetched.contains(s.work.waiting[0].key()) {
        let t = ResolverView { work: s.work.withdraw(), ..s };
        assert forall|i: int| 0 <= i < t.work.waiting.len() implies t.parent_known(
            #[trigger] t.work.waiting[i],
        ) by {
            assert(t.work.waiting[i] == s.work.waiting[i + 1]);
            assert(s.parent_known(s.work.waiting[i + 1]));
        }
        assert(t.wf());
        settle_properties(t);
    }
}

/// A dispatch keeps the state well formed. The key it hands out was never
/// fetched before.
pub proof fn dispatch_preserves_wf(s: ResolverView)
    requires
        s.wf(),
    ensures
        s.dispatch().wf(),
        s.dispatch().graph == s.graph,
        match s.dispatched() {
            Some((ticket, key)) => {
                &&& !s.fetched.contains(key)
                &&& s.dispatch().fetched == s.fetched.push(key)
                &&& s.dispatch().work.holds(ticket)
                &&& s.dispatch().work.unit(ticket).key() == key
            },
            None => s.dispatch().fetched == s.fetched,
        },
{
    settle_properties(s);
    let t = s.settle();
    if t.work.can_start() {
        let d = s.dispatch();
        let head = t.work.waiting[0];
        let n = t.work.running.len() as int;
        start_preserves_wf(t.work);
        assert(!t.fetched.contains(head.key()));
        assert(d.work.running[n] == (t.work.next_ticket as u64, head));
        assert forall|i: int| 0 <= i < d.work.running.len() implies d.fetched.contains(
            (#[trigger] d.work.running[i]).1.key(),
        ) && !d.graph.has(d.work.running[i].1.key()) && d.parent_known(d.work.running[i].1) by {
            if i < n {
                assert(d.work.running[i] == t.work.running[i]);
                let k = t.fetched.index_of(t.work.running[i].1.key());
                assert(d.fetched[k] == t.work.running[i].1.key());
            } else {
                assert(d.fetched[t.fetched.len() as int] == head.key());
                assert(t.parent_known(t.work.waiting[0]));
                if d.graph.has(head.key()) {
                    let k = d.graph.index_of(head.key());
                    assert(t.fetched.contains(t.graph.nodes[k].key));
                }
            }
        }
        assert forall|i: int, j: int| 0 <= i < j < d.work.running.len() implies (
        #[trigger] d.work.running[i]).1.key() != (#[trigger] d.work.running[j]).1.key() by {
            assert(d.work.running[i] == t.work.running[i]);
            if j < n {
                assert(d.work.running[j] == t.work.running[j]);
            } else {
                assert(t.fetched.contains(t.work.running[i].1.key()));
            }
        }
        assert forall|i: int| 0 <= i < d.graph.nodes.len() implies d.fetched.contains(
            (#[trigger] d.graph.nodes[i]).key,
        ) by {
            let k = t.fetched.index_of(t.graph.nodes[i].key);
            assert(d.fetched[k] == t.graph.nodes[i].key);
        }
        assert forall|i: int| 0 <= i < d.work.waiting.len() implies d.parent_known(
            #[trigger] d.work.waiting[i],
        ) by {
            assert(d.work.waiting[i] == t.work.waiting[i + 1]);
            assert(t.parent_known(t.work.waiting[i + 1]));
        }
        assert(d.fetched.no_duplicates()) by {
            assert forall|i: int, j: int|
                0 <= i < d.fetched.len() && 0 <= j < d.fetched.len() && i != j implies d.fetched[i]
                != d.fetched[j] by {
                if i < t.fetched.len() && j < t.fetched.len() {
                    assert(t.fetched[i] != t.fetched[j]);
                } else if i < t.fetched.len() {
                    assert(t.fetched.contains(t.fetched[i]));
                } else {
                    assert(t.fetched.contains(t.fetched[j]));
                }
            }
        }
    }
}

/// Recording an answer keeps the state well formed, fetches nothing, and
/// frees the place of the request that was answered.
pub proof fn record_preserves_wf(s: ResolverView, ticket: u64, outcome: Option<PackageInfoView>)
    requires
        s.wf(),
    ensures
        s.record(ticket, outcome).wf(),
        s.record(ticket, outcome).fetched == s.fetched,
        s.work.holds(ticket) ==> s.record(ticket, outcome).work.running.len() + 1
            == s.work.running.len(),
        outcome is None ==> s.record(ticket, outcome).graph == s.graph,
{
    if s.work.holds(ticket) {
        let r = s.record(ticket, outcome);
        let k = s.work.slot(ticket);
        let request = s.work.unit(ticket);
        let rest = s.work.finish(ticket);
        finish_preserves_wf(s.work, ticket);
        assert(s.work.running[k].1 == request);
        assert forall|i: int| 0 <= i < rest.running.len() implies (#[trigger] rest.running[i])
            == s.work.running[if i < k { i } else { i + 1 }] by {}
        assert(!s.graph.has(request.key()));
        assert(s.parent_known(request));
        match outcome {
            None => {
                assert forall|i: int| 0 <= i < r.work.running.len() implies r.fetched.contains(
                    (#[trigger] r.work.running[i]).1.key(),
                ) && !r.graph.has(r.work.running[i].1.key()) && r.parent_known(
                    r.work.running[i].1,
                ) by {
                    let j = if i < k { i } else { i + 1 };
                    assert(r.work.running[i] == s.work.running[j]);
                    assert(s.parent_known(s.work.running[j].1));
                }
                assert forall|i: int, j: int| 0 <= i < j < r.work.running.len() implies (
                #[trigger] r.work.running[i]).1.key() != (#[trigger] r.work.running[j]).1.key() by {
                    let a = if i < k { i } else { i + 1 };
                    let b = if j < k { j } else { j + 1 };
                    assert(r.work.running[i] == s.work.running[a]);
                    assert(r.work.running[j] == s.work.running[b]);
                }
                assert forall|i: int| 0 <= i < r.work.waiting.len() implies r.parent_known(
                    #[trigger] r.work.waiting[i],
                ) by {
                    assert(s.parent_known(s.work.waiting[i]));
                }
            },
            Some(info) => {
                let g1 = s.graph.insert(request.key(), info);
                insert_preserves_wf(s.graph, request.key(), info);
                link_preserves_wf(g1, request.parent, request.key());
                let g2 = g1.link(request.parent, request.key());
                assert(r.graph == g2);
                assert forall|key: NameVersion| g2.has(key) <==> (s.graph.has(key) || key
                    == request.key()) by {
                    if g1.has(key) && key != request.key() {
                        let i = g1.index_of(key);
                        assert(g1.nodes[i] == s.graph.nodes[i]);
                    }
                }
                assert forall|i: int| 0 <= i < r.graph.nodes.len() implies r.fetched.contains(
                    (#[trigger] r.graph.nodes[i]).key,
                ) by {
                    assert(g2.nodes[i].key == g1.nodes[i].key);
                    if i < s.graph.nodes.len() {
                        assert(g1.nodes[i] == s.graph.nodes[i]);
                    } else {
                        assert(s.fetched.contains(s.work.running[k].1.key()));
                    }
                }
                assert forall|i: int| 0 <= i < r.work.running.len() implies r.fetched.contains(
                    (#[trigger] r.work.running[i]).1.key(),
                ) && !r.graph.has(r.work.running[i].1.key()) && r.parent_known(
                    r.work.running[i].1,
                ) by {
                    let j = if i < k { i } else { i + 1 };
                    assert(r.work.running[i] == s.work.running[j]);
                    assert(s.parent_known(s.work.running[j].1));
                    if j < k {
                        assert(s.work.running[j].1.key() != s.work.running[k].1.key());
                    } else {
                        assert(s.work.running[k].1.key() != s.work.running[j].1.key());
                    }
                }
                assert forall|i: int, j: int| 0 <= i < j < r.work.running.len() implies (
                #[trigger] r.work.running[i]).1.key() != (#[trigger] r.work.running[j]).1.key() by {
                    let a = if i < k { i } else { i + 1 };
                    let b = if j < k { j } else { j + 1 };
                    assert(r.work.running[i] == s.work.running[a]);
                    assert(r.work.running[j] == s.work.running[b]);
                }
                assert forall|i: int| 0 <= i < r.work.waiting.len() implies r.parent_known(
                    #[trigger] r.work.waiting[i],
                ) by {
                    if i < s.work.waiting.len() {
                        assert(r.work.waiting[i] == s.work.waiting[i]);
                        assert(s.parent_known(s.work.waiting[i]));
                    } else {
                        assert(r.work.waiting[i].parent == Some(request.key()));
                    }
                }
            },
        }
    }
}

/// One step of a resolution, as its driver takes it: asking for the next
/// request, or reporting the registry's answer under a ticket.
pub enum Step {
    Dispatch,
    Record { ticket: u64, outcome: Option<PackageInfoView> },
}

/// The state after one step.
pub open spec fn step(s: ResolverView, st: Step) -> ResolverView {
    match st {
        Step::Dispatch => s.dispatch(),
        Step::Record { ticket, outcome } => s.record(ticket, outcome),
    }
}

/// The state that a resolution of `deps` is in after `steps`.
pub open spec fn run(deps: Seq<NameVersion>, steps: Seq<Step>) -> ResolverView
    decreases steps.len(),
{
    if steps.len() == 0 {
        ResolverView::init(deps)
    } else {
        step(run(deps, steps.drop_last()), steps.last())
    }
}

/// The keys of the requests that were handed out during `steps`, in order.
pub open spec fn handed_out(deps: Seq<NameVersion>, steps: Seq<Step>) -> Seq<NameVersion>
    decreases steps.len(),
{
    if steps.len() == 0 {
        Seq::empty()
    } else {
        let earlier = handed_out(deps, steps.drop_last());
        match (steps.last(), run(deps, steps.drop_last()).dispatched()) {
            (Step::Dispatch, Some((_, key))) => earlier.push(key),
            _ => earlier,
        }
    }
}

/// Whatever steps a driver takes, the state stays well formed, and
/// `fetched` is the list of the keys that were handed out.
pub proof fn run_is_wf(deps: Seq<NameVersion>, steps: Seq<Step>)
    ensures
        run(deps, steps).wf(),
        run(deps, steps).fetched == handed_out(deps, steps),
    decreases steps.len(),
{
    if steps.len() == 0 {
        init_is_wf(deps);
    } else {
        let before = run(deps, steps.drop_last());
        run_is_wf(deps, steps.drop_last());
        match steps.last() {
            Step::Dispatch => {
                dispatch_preserves_wf(before);
            },
            Step::Record { ticket, outcome } => {
                record_preserves_wf(before, ticket, outcome);
            },
        }
    }
}

/// No key stands for two nodes, and no key is handed out for fetching
/// twice: in every state that a resolution can reach, the keys of the node
/// table are distinct, each of them was handed out, and the list of the keys
/// handed out so far holds no key twice.
pub proof fn each_key_is_fetched_once(deps: Seq<NameVersion>, steps: Seq<Step>)
    ensures
        run(deps, steps).graph.distinct_keys(),
        handed_out(deps, steps).no_duplicates(),
        forall|i: int|
            0 <= i < run(deps, steps).graph.nodes.len() ==> handed_out(deps, steps).contains(
                (#[trigger] run(deps, steps).graph.nodes[i]).key,
            ),
{
    run_is_wf(deps, steps);
}

/// A package is a child of every resolved package that declares it,
/// whichever of them reached it first: the children of a node begin with
/// the dependencies that its record declares, in the order of the
/// declaration.
pub proof fn declared_dependencies_are_children(
    deps: Seq<NameVersion>,
    steps: Seq<Step>,
    node: int,
    at: int,
)
    requires
        0 <= node < run(deps, steps).graph.nodes.len(),
        0 <= at < run(deps, steps).graph.nodes[node].info.dependencies.len(),
    ensures
        at < run(deps, steps).graph.nodes[node].children.len(),
        run(deps, steps).graph.nodes[node].children[at]
            == run(deps, steps).graph.nodes[node].info.dependencies[at],
{
    run_is_wf(deps, steps);
    let n = run(deps, steps).graph.nodes[node];
    assert(n.info.dependencies.is_prefix_of(n.children));
    assert(n.children.subrange(0, n.info.dependencies.len() as int)[at] == n.children[at]);
}

/// At most `CONCURRENCY_LIMIT` requests are in flight in every state that a
/// resolution can reach, however many requests wait.
pub proof fn in_flight_stays_within_limit(deps: Seq<NameVersion>, steps: Seq<Step>)
    ensures
        run(deps, steps).work.running.len() <= CONCURRENCY_LIMIT,
{
    run_is_wf(deps, steps);
}

/// A registry that answers every request with an absent package leaves the
/// node table and the root's children empty, whatever the manifest asks for.
pub proof fn absent_packages_leave_graph_empty(deps: Seq<NameVersion>, steps: Seq<Step>)
    requires
        forall|i: int|
            0 <= i < steps.len() ==> (#[trigger] steps[i] matches Step::Record { outcome, .. }
                ==> outcome is None),
    ensures
        run(deps, steps).graph == GraphView::empty(),
    decreases steps.len(),
{
    if steps.len() > 0 {
        let earlier = steps.drop_last();
        assert forall|i: int| 0 <= i < earlier.len() implies (#[trigger] earlier[i] matches Step::Record {
            outcome,
            ..
        } ==> outcome is None) by {
            assert(earlier[i] == steps[i]);
        }
        absent_packages_leave_graph_empty(deps, earlier);
        run_is_wf(deps, earlier);
        let before = run(deps, earlier);
        match steps.last() {
            Step::Dispatch => {
                dispatch_preserves_wf(before);
            },
            Step::Record { ticket, outcome } => {
                assert(steps[steps.len() - 1] == steps.last());
                record_preserves_wf(before, ticket, outcome);
            },
        }
    }
}

/// A package to fetch, and the node that asked for it.
#[derive(Debug)]
pub struct Request {
    pub name: String,
    pub version: String,
    pub parent: Option<(String, String)>,
}

impl View for Request {
    type V = RequestView;

    open spec fn view(&self) -> RequestView {
        RequestView { name: self.name@, version: self.version@, parent: self.parent.deep_view() }
    }
}

impl DeepView for Request {
    type V = RequestView;

    open spec fn deep_view(&self) -> RequestView {
        self@
    }
}

/// A request handed out for fetching, with the ticket to answer it under.
#[derive(Debug)]
pub struct Dispatch {
    pub ticket: u64,
    pub name: String,
    pub version: String,
}

/// Whether `keys` lists the pair of `name` and `version`.
pub fn lists_key(keys: &Vec<(String, String)>, name: &String, version: &String) -> (r: bool)
    ensures
        r == keys.deep_view().contains((name@, version@)),
{
    let mut i: usize = 0;
    while i < keys.len()
        invariant
            i <= keys.len(),
            forall|k: int| 0 <= k < i ==> (#[trigger] keys.deep_view()[k]) != (name@, version@),
        decreases keys.len() - i,
    {
        assert(keys.deep_view()[i as int] == keys[i as int].deep_view());
        if crate::graph::key_is(&keys[i], name, version) {
            return true;
        }
        i += 1;
    }
    false
}

/// The state of one resolution.
#[derive(Debug)]
pub struct Resolver {
    graph: DependencyGraph,
    work: Executor<Request>,
    fetched: Vec<(String, String)>,
}

impl View for Resolver {
    type V = ResolverView;

    closed spec fn view(&self) -> ResolverView {
        ResolverView { graph: self.graph@, work: self.work@, fetched: self.fetched.deep_view() }
    }
}

impl Resolver {
    /// A resolution of `manifest` of which nothing was fetched yet.
    pub fn new(manifest: &Manifest) -> (r: Resolver)
        ensures
            r@ == ResolverView::init(manifest@.dependencies),
            r@.wf(),
    {
        let ghost deps = manifest@.dependencies;
        let mut work: Executor<Request> = Executor::new(CONCURRENCY_LIMIT);
        let mut i: usize = 0;
        assert(root_requests(deps.take(0)) =~= Seq::<RequestView>::empty());
        while i < manifest.dependencies.len()
            invariant
                i <= manifest.dependencies.len(),
                deps == manifest.dependencies.deep_view(),
                work@.wf(),
                work@ == (ExecutorView::<RequestView> {
                    limit: CONCURRENCY_LIMIT as nat,
                    waiting: root_requests(deps.take(i as int)),
                    running: Seq::empty(),
                    next_ticket: 0,
                }),
            decreases manifest.dependencies.len() - i,
        {
            let request = Request {
                name: manifest.dependencies[i].0.clone(),
                version: manifest.dependencies[i].1.clone(),
                parent: None,
            };
            assert(deps[i as int] == manifest.dependencies[i as int].deep_view());
            assert(root_requests(deps.take(i + 1)) =~= root_requests(deps.take(i as int)).push(
                request@,
            ));
            work.submit(request);
            i += 1;
        }
        assert(deps.take(i as int) =~= deps);
        let fetched: Vec<(String, String)> = Vec::new();
        assert(fetched.deep_view() =~= Seq::<NameVersion>::empty());
        proof {
            init_is_wf(deps);
        }
        Resolver { graph: DependencyGraph::new(), work, fetched }
    }

    /// Hands out the next request to fetch. Requests whose key was handed
    /// out before are dropped on the way. Returns `None` while the limit is
    /// reached, and when no new request waits.
    pub fn next_request(&mut self) -> (r: Option<Dispatch>)
        requires
            old(self)@.wf(),
        ensures
            final(self)@.wf(),
            final(self)@ == old(self)@.dispatch(),
            match r {
                Some(d) => old(self)@.dispatched() == Some((d.ticket, (d.name@, d.version@))),
                None => old(self)@.dispatched() is None,
            },
    {
        proof {
            settle_properties(self@);
            dispatch_preserves_wf(self@);
        }
        loop
            invariant
                self@.wf(),
                self@.settle() == old(self)@.settle(),
            ensures
                self@ == old(self)@.settle(),
            decreases self@.work.waiting.len(),
        {
            let known = match self.work.next_waiting() {
                Some(head) => lists_key(&self.fetched, &head.name, &head.version),
                None => false,
            };
            if !known {
                break ;
            }
            proof {
                settle_properties(self@);
                let t = ResolverView { work: self@.work.withdraw(), ..self@ };
                assert forall|i: int| 0 <= i < t.work.waiting.len() implies t.parent_known(
                    #[trigger] t.work.waiting[i],
                ) by {
                    assert(t.work.waiting[i] == self@.work.waiting[i + 1]);
                    assert(self@.parent_known(self@.work.waiting[i + 1]));
                }
            }
            self.work.withdraw();
        }
        let (name, version) = match self.work.next_waiting() {
            Some(head) => (head.name.clone(), head.version.clone()),
            None => { return None; },
        };
        match self.work.start() {
            None => None,
            Some(ticket) => {
                self.fetched.push((name.clone(), version.clone()));
                assert(self.fetched.deep_view() =~= old(self).fetched.deep_view().push(
                    (name@, version@),
                ));
                Some(Dispatch { ticket, name, version })
            },
        }
    }

    /// Records the registry's answer to the request under `ticket`: `None`
    /// where the package is absent or the fetch failed. Returns whether a
    /// request in flight held the ticket; if none did, nothing changes.
    pub fn record(&mut self, ticket: u64, outcome: Option<PackageInfo>) -> (accepted: bool)
        requires
            old(self)@.wf(),
        ensures
            final(self)@.wf(),
            final(self)@ == old(self)@.record(ticket, outcome.deep_view()),
            accepted == old(self)@.work.holds(ticket),
    {
        proof {
            record_preserves_wf(self@, ticket, outcome.deep_view());
        }
        let request = match self.work.finish(ticket) {
            Some(request) => request,
            None => { return false; },
        };
        let info = match outcome {
            Some(info) => info,
            None => { return true; },
        };
        let ghost key = request@.key();
        let ghost deps = info@.dependencies;
        let ghost rest = old(self)@.work.finish(ticket);
        let children = clone_pairs(&info.dependencies);
        proof {
            insert_preserves_wf(self.graph@, key, info@);
        }
        self.graph.insert((request.name.clone(), request.version.clone()), info);
        self.graph.link(&request.parent, (request.name.clone(), request.version.clone()));
        let mut i: usize = 0;
        let ghost graph = self.graph@;
        let ghost fetched = self.fetched.deep_view();
        assert(rest.waiting + child_requests(key, deps.take(0)) =~= rest.waiting);
        while i < children.len()
            invariant
                i <= children.len(),
                children.deep_view() == deps,
                key == (request.name@, request.version@),
                self.graph@ == graph,
                self.fetched.deep_view() == fetched,
                self.work@.wf(),
                self.work@ == (ExecutorView::<RequestView> {
                    waiting: rest.waiting + child_requests(key, deps.take(i as int)),
                    ..rest
                }),
            decreases children.len() - i,
        {
            let child = Request {
                name: children[i].0.clone(),
                version: children[i].1.clone(),
                parent: Some((request.name.clone(), request.version.clone())),
            };
            assert(deps[i as int] == children[i as int].deep_view());
            assert(child_requests(key, deps.take(i + 1)) =~= child_requests(
                key,
                deps.take(i as int),
            ).push(child@));
            assert(rest.waiting + child_requests(key, deps.take(i + 1)) =~= (rest.waiting
                + child_requests(key, deps.take(i as int))).push(child@));
            self.work.submit(child);
            i += 1;
        }
        assert(deps.take(i as int) =~= deps);
        true
    }

    /// Whether nothing waits and nothing is in flight.
    pub fn is_finished(&self) -> (r: bool)
        ensures
            r == self@.finished(),
    {
        self.work.is_idle()
    }

    /// How many requests are in flight.
    pub fn in_flight(&self) -> (n: usize)
        ensures
            n == self@.work.running.len(),
    {
        self.work.in_flight()
    }

    /// How many requests were handed out so far.
    pub fn fetch_count(&self) -> (n: usize)
        ensures
            n == self@.fetched.len(),
    {
        self.fetched.len()
    }

    /// The graph as far as it is resolved.
    pub fn graph(&self) -> (g: &DependencyGraph)
        ensures
            g@ == self@.graph,
    {
        &self.graph
    }

    /// Ends the resolution and gives the graph out.
    pub fn into_graph(self) -> (g: DependencyGraph)
        ensures
            g@ == self@.graph,
    {
        self.graph
    }
}

} // verus!
