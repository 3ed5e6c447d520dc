//! The dependency graph: one node for each resolved package, and for each
//! parent the ordered list of its children.

use crate::package::{clone_pairs, NameVersion, PackageInfo, PackageInfoView};
use vstd::prelude::*;

verus! {

/// One resolved package with the children recorded for it.
pub struct NodeView {
    pub key: NameVersion,
    pub info: PackageInfoView,
    pub children: Seq<NameVersion>,
}

/// The graph as a mathematical value: the children of the manifest root, and
/// the nodes in the order in which they were resolved.
pub struct GraphView {
    pub root: Seq<NameVersion>,
    pub nodes: Seq<NodeView>,
}

impl GraphView {
    /// The graph that holds nothing.
    pub open spec fn empty() -> GraphView {
        GraphView { root: Seq::empty(), nodes: Seq::empty() }
    }

    /// Whether a node stands under `key`.
    pub open spec fn has(self, key: NameVersion) -> bool {
        exists|i: int| 0 <= i < self.nodes.len() && (#[trigger] self.nodes[i]).key == key
    }

    /// The position of the node that stands under `key`.
    pub open spec fn index_of(self, key: NameVersion) -> int {
        choose|i: int| 0 <= i < self.nodes.len() && (#[trigger] self.nodes[i]).key == key
    }

    /// The record stored under `key`, if a node stands there.
    pub open spec fn record(self, key: NameVersion) -> Option<PackageInfoView> {
        if self.has(key) {
            Some(self.nodes[self.index_of(key)].info)
        } else {
            None
        }
    }

    /// The children recorded for `parent`; no parent means the manifest root.
    pub open spec fn children_of(self, parent: Option<NameVersion>) -> Option<Seq<NameVersion>> {
        match parent {
            None => Some(self.root),
            Some(key) => if self.has(key) {
                Some(self.nodes[self.index_of(key)].children)
            } else {
                None
            },
        }
    }

    /// No key stands for two nodes.
    pub open spec fn distinct_keys(self) -> bool {
        forall|i: int, j: int|
            0 <= i < j < self.nodes.len() ==> (#[trigger] self.nodes[i]).key != (
            #[trigger] self.nodes[j]).key
    }

    /// The children of every node begin with the dependencies that its
    /// record declares.
    pub open spec fn declared_first(self) -> bool {
        forall|i: int|
            0 <= i < self.nodes.len() ==> (#[trigger] self.nodes[i]).info.dependencies.is_prefix_of(
                self.nodes[i].children,
            )
    }

    /// Every child that was added after a resolution is a node: all children
    /// of the root, and the children of a node behind its declared ones.
    pub open spec fn resolved_links(self) -> bool {
        &&& forall|k: int| 0 <= k < self.root.len() ==> self.has(#[trigger] self.root[k])
        &&& forall|i: int, k: int|
            0 <= i < self.nodes.len() && self.nodes[i].info.dependencies.len() <= k
                < self.nodes[i].children.len() ==> self.has(#[trigger] self.nodes[i].children[k])
    }

    /// What holds of every graph that a resolution builds.
    pub open spec fn wf(self) -> bool {
        &&& self.distinct_keys()
        &&& self.declared_first()
        &&& self.resolved_links()
    }

    /// The graph after the package `info` was resolved under `key`: a new
    /// node whose children are the dependencies that `info` declares.
    pub open spec fn insert(self, key: NameVersion, info: PackageInfoView) -> GraphView {
        GraphView {
            nodes: self.nodes.push(NodeView { key, info, children: info.dependencies }),
            ..self
        }
    }

    /// The graph after `child` was added to the children of `parent`. A
    /// parent that is no node leaves the graph as it is.
    pub open spec fn link(self, parent: Option<NameVersion>, child: NameVersion) -> GraphView {
        match parent {
            None => GraphView { root: self.root.push(child), ..self },
            Some(key) => if self.has(key) {
                let i = self.index_of(key);
                let node = self.nodes[i];
                GraphView {
                    nodes: self.nodes.update(
                        i,
                        NodeView { children: node.children.push(child), ..node },
                    ),
                    ..self
                }
            } else {
                self
            },
        }
    }
}

/// With distinct keys, the node under a key is found at one position only.
pub proof fn index_is_unique(g: GraphView, i: int)
    requires
        g.distinct_keys(),
        0 <= i < g.nodes.len(),
    ensures
        g.has(g.nodes[i].key),
        g.index_of(g.nodes[i].key) == i,
{
    let key = g.nodes[i].key;
    let j = g.index_of(key);
    if j < i {
        assert(g.nodes[j].key != g.nodes[i].key);
    } else if i < j {
        assert(g.nodes[i].key != g.nodes[j].key);
    }
}

/// A node added under a key that was free keeps the graph well formed.
pub proof fn insert_preserves_wf(g: GraphView, key: NameVersion, info: PackageInfoView)
    requires
        g.wf(),
        !g.has(key),
    ensures
        g.insert(key, info).wf(),
        g.insert(key, info).has(key),
        g.insert(key, info).index_of(key) == g.nodes.len(),
        forall|k: NameVersion| g.has(k) ==> g.insert(key, info).has(k),
{
    let h = g.insert(key, info);
    let n = g.nodes.len() as int;
    assert(h.nodes[n].key == key);
    assert forall|i: int, j: int| 0 <= i < j < h.nodes.len() implies (#[trigger] h.nodes[i]).key != (
    #[trigger] h.nodes[j]).key by {
        if j < n {
            assert(h.nodes[i] == g.nodes[i]);
            assert(h.nodes[j] == g.nodes[j]);
        } else {
            assert(h.nodes[i] == g.nodes[i]);
        }
    }
    index_is_unique(h, n);
    assert forall|k: NameVersion| g.has(k) implies h.has(k) by {
        let i = g.index_of(k);
        assert(h.nodes[i] == g.nodes[i]);
    }
    assert forall|i: int| 0 <= i < h.nodes.len() implies (#[trigger] h.nodes[i]).info.dependencies.is_prefix_of(
        h.nodes[i].children,
    ) by {
        if i < n {
            assert(h.nodes[i] == g.nodes[i]);
        }
    }
    assert forall|i: int, k: int|
        0 <= i < h.nodes.len() && h.nodes[i].info.dependencies.len() <= k
            < h.nodes[i].children.len() implies h.has(#[trigger] h.nodes[i].children[k]) by {
        assert(i < n);
        assert(h.nodes[i] == g.nodes[i]);
        assert(g.has(g.nodes[i].children[k]));
    }
    assert forall|k: int| 0 <= k < h.root.len() implies h.has(#[trigger] h.root[k]) by {
        assert(g.has(g.root[k]));
    }
}

/// A link to a child that is a node keeps the graph well formed, and changes
/// neither the keys nor the records.
pub proof fn link_preserves_wf(g: GraphView, parent: Option<NameVersion>, child: NameVersion)
    requires
        g.wf(),
        g.has(child),
    ensures
        g.link(parent, child).wf(),
        g.link(parent, child).nodes.len() == g.nodes.len(),
        forall|i: int|
            0 <= i < g.nodes.len() ==> (#[trigger] g.link(parent, child).nodes[i]).key
                == g.nodes[i].key && g.link(parent, child).nodes[i].info == g.nodes[i].info,
        forall|k: NameVersion| g.has(k) <==> g.link(parent, child).has(k),
{
    let h = g.link(parent, child);
    assert(h.nodes.len() == g.nodes.len());
    assert forall|i: int| 0 <= i < g.nodes.len() implies (#[trigger] h.nodes[i]).key
        == g.nodes[i].key && h.nodes[i].info == g.nodes[i].info by {}
    assert forall|k: NameVersion| g.has(k) <==> h.has(k) by {
        if g.has(k) {
            let i = g.index_of(k);
            assert(h.nodes[i].key == k);
        }
        if h.has(k) {
            let i = h.index_of(k);
            assert(g.nodes[i].key == k);
        }
    }
    assert forall|i: int, j: int| 0 <= i < j < h.nodes.len() implies (#[trigger] h.nodes[i]).key != (
    #[trigger] h.nodes[j]).key by {
        assert(g.nodes[i].key != g.nodes[j].key);
    }
    assert forall|i: int| 0 <= i < h.nodes.len() implies (#[trigger] h.nodes[i]).info.dependencies.is_prefix_of(
        h.nodes[i].children,
    ) by {
        let d = g.nodes[i].info.dependencies;
        assert(d.is_prefix_of(g.nodes[i].children));
        if h.nodes[i].children != g.nodes[i].children {
            assert(h.nodes[i].children == g.nodes[i].children.push(child));
            assert(h.nodes[i].children.subrange(0, d.len() as int) =~= g.nodes[i].children.subrange(
                0,
                d.len() as int,
            ));
        }
    }
    assert forall|k: int| 0 <= k < h.root.len() implies h.has(#[trigger] h.root[k]) by {
        if k < g.root.len() {
            assert(g.has(g.root[k]));
        }
    }
    assert forall|i: int, k: int|
        0 <= i < h.nodes.len() && h.nodes[i].info.dependencies.len() <= k
            < h.nodes[i].children.len() implies h.has(#[trigger] h.nodes[i].children[k]) by {
        if k < g.nodes[i].children.len() {
            assert(h.nodes[i].children[k] == g.nodes[i].children[k]);
            assert(g.has(g.nodes[i].children[k]));
        }
    }
}

/// One resolved package: the key it was requested under, its record, and
/// the children recorded for it.
#[derive(Debug)]
pub struct Node {
    key: (String, String),
    info: PackageInfo,
    children: Vec<(String, String)>,
}

impl View for Node {
    type V = NodeView;

    closed spec fn view(&self) -> NodeView {
        NodeView {
            key: self.key.deep_view(),
            info: self.info@,
            children: self.children.deep_view(),
        }
    }
}

impl DeepView for Node {
    type V = NodeView;

    open spec fn deep_view(&self) -> NodeView {
        self@
    }
}

impl Node {
    /// The name and version specifier that the package was requested under.
    pub fn key(&self) -> (r: &(String, String))
        ensures
            r.deep_view() == self@.key,
    {
        &self.key
    }

    /// The record that the registry returned.
    pub fn info(&self) -> (r: &PackageInfo)
        ensures
            r@ == self@.info,
    {
        &self.info
    }

    /// The children recorded for this package.
    pub fn children(&self) -> (r: &Vec<(String, String)>)
        ensures
            r.deep_view() == self@.children,
    {
        &self.children
    }
}

/// Whether `key` is the pair of `name` and `version`.
pub fn key_is(key: &(String, String), name: &String, version: &String) -> (r: bool)
    ensures
        r == (key.deep_view() == (name@, version@)),
{
    key.0 == *name && key.1 == *version
}

/// The node table and the adjacency lists of one resolution.
#[derive(Debug)]
pub struct DependencyGraph {
    root: Vec<(String, String)>,
    nodes: Vec<Node>,
}

impl View for DependencyGraph {
    type V = GraphView;

    closed spec fn view(&self) -> GraphView {
        GraphView { root: self.root.deep_view(), nodes: self.nodes.deep_view() }
    }
}

impl DependencyGraph {
    /// The graph without nodes and without children of the root.
    pub fn new() -> (g: Self)
        ensures
            g@ == GraphView::empty(),
            g@.wf(),
    {
        let g = DependencyGraph { root: Vec::new(), nodes: Vec::new() };
        assert(g.root.deep_view() =~= Seq::<NameVersion>::empty());
        assert(g.nodes.deep_view() =~= Seq::<NodeView>::empty());
        g
    }

    /// The children of the manifest root.
    pub fn root(&self) -> (r: &Vec<(String, String)>)
        ensures
            r.deep_view() == self@.root,
    {
        &self.root
    }

    /// The nodes in the order in which they were resolved.
    pub fn nodes(&self) -> (r: &Vec<Node>)
        ensures
            r.deep_view() == self@.nodes,
    {
        &self.nodes
    }

    /// How many packages were resolved.
    pub fn len(&self) -> (n: usize)
        ensures
            n == self@.nodes.len(),
    {
        self.nodes.len()
    }

    /// The position of the node that stands under the given key.
    pub fn position(&self, name: &String, version: &String) -> (r: Option<usize>)
        requires
            self@.wf(),
        ensures
            match r {
                Some(i) => self@.has((name@, version@)) && i == self@.index_of((name@, version@)),
                None => !self@.has((name@, version@)),
            },
    {
        let mut i: usize = 0;
        while i < self.nodes.len()
            invariant
                i <= self.nodes.len(),
                self@.wf(),
                self@.nodes.len() == self.nodes.len(),
                forall|k: int| 0 <= k < i ==> (#[trigger] self@.nodes[k]).key != (name@, version@),
            decreases self.nodes.len() - i,
        {
            assert(self@.nodes[i as int] == self.nodes[i as int]@);
            if key_is(&self.nodes[i].key, name, version) {
                proof {
                    index_is_unique(self@, i as int);
                }
                return Some(i);
            }
            i += 1;
        }
        None
    }

    /// Whether a package was resolved under the given key.
    pub fn contains(&self, name: &String, version: &String) -> (r: bool)
        requires
            self@.wf(),
        ensures
            r == self@.has((name@, version@)),
    {
        self.position(name, version).is_some()
    }

    /// The record of the package resolved under the given key.
    pub fn get(&self, name: &String, version: &String) -> (r: Option<&PackageInfo>)
        requires
            self@.wf(),
        ensures
            r.deep_view() == self@.record((name@, version@)),
    {
        match self.position(name, version) {
            Some(i) => {
                assert(self@.nodes[i as int] == self.nodes[i as int]@);
                Some(&self.nodes[i].info)
            },
            None => None,
        }
    }

    /// The children recorded for a parent; no parent means the manifest
    /// root. A parent that was not resolved has none.
    pub fn children(&self, parent: &Option<(String, String)>) -> (r: Option<&Vec<(String, String)>>)
        requires
            self@.wf(),
        ensures
            r.deep_view() == self@.children_of(parent.deep_view()),
    {
        match parent {
            None => Some(&self.root),
            Some(key) => match self.position(&key.0, &key.1) {
                Some(i) => {
                    assert(self@.nodes[i as int] == self.nodes[i as int]@);
                    Some(&self.nodes[i].children)
                },
                None => None,
            },
        }
    }

    /// Adds the node of a package that was resolved under a key that was
    /// free. Its children are the dependencies that its record declares.
    pub(crate) fn insert(&mut self, key: (String, String), info: PackageInfo)
        requires
            old(self)@.wf(),
            !old(self)@.has(key.deep_view()),
        ensures
            final(self)@ == old(self)@.insert(key.deep_view(), info@),
            final(self)@.wf(),
    {
        proof {
            insert_preserves_wf(self@, key.deep_view(), info@);
        }
        let children = clone_pairs(&info.dependencies);
        let node = Node { key, info, children };
        self.nodes.push(node);
        assert(self.nodes.deep_view() =~= old(self).nodes.deep_view().push(node@));
    }

    /// Adds `child`, which is a node, to the children of `parent`.
    pub(crate) fn link(&mut self, parent: &Option<(String, String)>, child: (String, String))
        requires
            old(self)@.wf(),
            old(self)@.has(child.deep_view()),
        ensures
            final(self)@ == old(self)@.link(parent.deep_view(), child.deep_view()),
            final(self)@.wf(),
    {
        proof {
            link_preserves_wf(self@, parent.deep_view(), child.deep_view());
        }
        match parent {
            None => {
                self.root.push(child);
                assert(self.root.deep_view() =~= old(self).root.deep_view().push(child.deep_view()));
            },
            Some(key) => {
                match self.position(&key.0, &key.1) {
                    Some(i) => {
                        let ghost before = self.nodes[i as int]@;
                        assert(self@.nodes[i as int] == before);
                        self.nodes[i].children.push(child);
                        assert(self.nodes[i as int].children.deep_view() =~= before.children.push(
                            child.deep_view(),
                        ));
                        assert(self.nodes.deep_view() =~= old(self).nodes.deep_view().update(
                            i as int,
                            self.nodes[i as int]@,
                        ));
                    },
                    None => {},
                }
            },
        }
    }
}

} // verus!
