//! The resources of an application context — the root, loaded modules and
//! the interfaces they provide — and the dependencies between them.
use vstd::prelude::*;
use vstd::utf8::encode_utf8_decode_utf8;
use std::collections::HashMap;
use petgraph::stable_graph::StableGraph;
use crate::dependency_graph::{
    graph_nodes, graph_edges, has_out_edge, has_cycle, without_node, graph_with_capacity,
    graph_add_node, graph_add_edge, graph_remove_node, graph_has_outgoing, graph_sinks,
    graph_is_cyclic, lemma_edge_into_sink_keeps_acyclic, lemma_remove_node_keeps_acyclic,
    lemma_no_sink_means_cycle, reaches, lemma_add_edge_cycle, reaches_cycle, restrict,
    lemma_reaches_cycle_step, lemma_reaches_cycle_mono, lemma_no_sink_reaches_cycle,
};
use crate::module_error::{Error, ErrorKind};
use vstd::std_specs::hash::spec_hash_map_iter;
use vstd::std_specs::iter::IteratorSpec;

verus! {

broadcast use {vstd::std_specs::hash::group_hash_axioms, vstd::set::group_set_axioms, vstd::map::group_map_axioms};

/// What a resource is.
pub enum ResourceData<I, M> {
    /// The root every module hangs from.
    Root,
    /// An interface provided by a module.
    Interface(I),
    /// A loaded module.
    Module(M),
}

/// Where the dependency of an interface that is being loaded is found.
#[derive(Clone, Copy, PartialEq, Eq, Structural, Debug)]
pub enum DependencySource {
    /// An interface that is already in the map, by its id.
    Present(usize),
    /// An interface of the same load, by its position in the load's list;
    /// only interfaces before the dependent one can be named.
    Earlier(usize),
    /// No interface satisfies the dependency.
    Missing,
}

/// The dependencies, required ones first, of each interface of a load.
pub open spec fn load_dependencies<I>(interfaces: Seq<(I, Vec<DependencySource>, Vec<DependencySource>)>) -> Seq<Seq<DependencySource>> {
    Seq::new(interfaces.len(), |k: int| interfaces[k].1@ + interfaces[k].2@)
}

/// The text of a module's path, as used in specifications.
///
/// Implementations of [`ModulePath`] name their path with it; outside
/// verified code that item is never called at run time.
pub type PathText = Seq<char>;

/// A module that knows the path of its root.
pub trait ModulePath {
    /// The path of the module's root.
    spec fn spec_root_path(&self) -> PathText;

    /// Fetches the path of the module's root.
    fn root_path(&self) -> (p: &str)
        ensures
            p@ == self.spec_root_path(),
    ;
}

/// The path of the module resource `data`.
pub open spec fn path_of<I, M: ModulePath>(data: ResourceData<I, M>) -> Seq<char> {
    match data {
        ResourceData::Module(m) => m.spec_root_path(),
        _ => Seq::empty(),
    }
}

/// Whether two strings are equal, by their bytes.
fn same_text(a: &str, b: &str) -> (r: bool)
    ensures
        r <==> a@ == b@,
{
    proof {
        encode_utf8_decode_utf8(a@);
        encode_utf8_decode_utf8(b@);
    }
    crate::text::bytes_equal(a.as_bytes(), b.as_bytes())
}

/// Whether `x` is one of `ids`.
fn contains_id(ids: &Vec<usize>, x: usize) -> (b: bool)
    ensures
        b <==> ids@.contains(x),
{
    let mut i: usize = 0;
    while i < ids.len()
        invariant
            i <= ids@.len(),
            forall|j: int| 0 <= j < i ==> ids@[j] != x,
        decreases ids@.len() - i,
    {
        if ids[i] == x {
            return true;
        }
        i = i + 1;
    }
    false
}

/// The resources of a context and their dependency graph.
///
/// A resource is known by its id. An edge `a -> b` means that `b` depends on
/// `a`: the root owns every module, a module owns its interfaces, and an
/// interface is used by the interfaces that depend on it. A resource can only
/// be removed once nothing depends on it.
pub struct ResourceMap<I, M> {
    root: usize,
    resources: HashMap<usize, ResourceData<I, M>>,
    dependency_map: StableGraph<(), (), petgraph::Directed, usize>,
}

/// The error of a failed lookup or removal.
pub type ResourceError = Error<&'static str>;

impl<I, M> ResourceMap<I, M> {
    /// The resources by id.
    pub closed spec fn resources(&self) -> Map<usize, ResourceData<I, M>> {
        self.resources@
    }

    /// The dependency edges, as pairs of ids.
    pub closed spec fn dependencies(&self) -> Set<(usize, usize)> {
        graph_edges(self.dependency_map)
    }

    /// The id of the root.
    pub closed spec fn root_id(&self) -> usize {
        self.root
    }

    /// `id` is an interface of the map.
    pub open spec fn is_interface(&self, id: usize) -> bool {
        self.resources().contains_key(id) && self.resources()[id] is Interface
    }

    /// `id` is a module of the map.
    pub open spec fn is_module(&self, id: usize) -> bool {
        self.resources().contains_key(id) && self.resources()[id] is Module
    }

    /// The kind of error a lookup of `id` as an interface fails with, if it fails.
    pub open spec fn interface_lookup_error(&self, id: usize) -> Option<ErrorKind> {
        if !self.resources().contains_key(id) {
            Some(ErrorKind::NotFound)
        } else if self.resources()[id] is Interface {
            None
        } else {
            Some(ErrorKind::FailedPrecondition)
        }
    }

    /// The kind of error a lookup of `id` as a module fails with, if it fails.
    pub open spec fn module_lookup_error(&self, id: usize) -> Option<ErrorKind> {
        if !self.resources().contains_key(id) {
            Some(ErrorKind::NotFound)
        } else if self.resources()[id] is Module {
            None
        } else {
            Some(ErrorKind::FailedPrecondition)
        }
    }

    /// The dependency `src` of the interface at position `k` of a load can be
    /// satisfied: it names an interface of the map, or an interface that
    /// comes before it in the load.
    pub open spec fn resolvable(&self, k: int, src: DependencySource) -> bool {
        match src {
            DependencySource::Present(x) => self.is_interface(x),
            DependencySource::Earlier(j) => j < k,
            DependencySource::Missing => false,
        }
    }

    /// The dependency `src` of the interface at position `k` of a load, whose
    /// interfaces got the ids `ids`, is the resource `to`.
    pub open spec fn resolves_to(&self, ids: Seq<usize>, k: int, src: DependencySource, to: usize) -> bool {
        match src {
            DependencySource::Present(x) => self.is_interface(x) && to == x,
            DependencySource::Earlier(j) => j < k && to == ids[j as int],
            DependencySource::Missing => false,
        }
    }

    /// The edges a load adds to this map: the root owns the module `m`, the
    /// module owns each interface `ids[k]`, and each satisfied dependency of
    /// `ids[k]` (listed in `deps[k]`) is an edge into `ids[k]`.
    pub open spec fn load_edges(&self, m: usize, ids: Seq<usize>, deps: Seq<Seq<DependencySource>>) -> Set<(usize, usize)> {
        Set::new(|e: (usize, usize)|
            e == (self.root_id(), m) || exists|k: int| #![trigger ids[k]] 0 <= k < ids.len() && e.1 == ids[k] && (e.0 == m
                || exists|i: int| 0 <= i < deps[k].len() && #[trigger] self.resolves_to(ids, k, deps[k][i], e.0)))
    }

    /// Well-formedness: the graph has one node per resource, exactly one
    /// resource is the root, and every edge joins two resources and never
    /// points at the root.
    pub closed spec fn wf(&self) -> bool {
        &&& graph_nodes(self.dependency_map) == self.resources@.dom()
        &&& self.resources@.dom().finite()
        &&& self.resources@.contains_key(self.root)
        &&& self.resources@[self.root] is Root
        &&& forall|id: usize| #[trigger] self.resources@.contains_key(id) && id != self.root ==> !(self.resources@[id] is Root)
        &&& forall|e: (usize, usize)| #[trigger] graph_edges(self.dependency_map).contains(e) ==> {
            &&& self.resources@.contains_key(e.0)
            &&& self.resources@.contains_key(e.1)
            &&& e.1 != self.root
        }
    }

    /// Adding the next interface `id` of a load adds the edge from the module.
    proof fn lemma_load_push_interface(&self, m: usize, ids: Seq<usize>, done: Seq<Seq<DependencySource>>, id: usize)
        requires
            ids.len() == done.len(),
        ensures
            self.load_edges(m, ids.push(id), done.push(Seq::empty()))
                == self.load_edges(m, ids, done).insert((m, id)),
    {
        let ids2 = ids.push(id);
        let done2 = done.push(Seq::<DependencySource>::empty());
        let a = self.load_edges(m, ids2, done2);
        let b = self.load_edges(m, ids, done).insert((m, id));
        assert forall|e: (usize, usize)| a.contains(e) implies b.contains(e) by {
            if e != (self.root_id(), m) {
                let k = choose|k: int| #![trigger ids2[k]] 0 <= k < ids2.len() && e.1 == ids2[k] && (e.0 == m
                    || exists|i: int| 0 <= i < done2[k].len() && #[trigger] self.resolves_to(ids2, k, done2[k][i], e.0));
                if k == ids.len() {
                    assert(e == (m, id));
                } else {
                    assert(ids2[k] == ids[k]);
                    if e.0 != m {
                        let i = choose|i: int| 0 <= i < done2[k].len() && #[trigger] self.resolves_to(ids2, k, done2[k][i], e.0);
                        assert(done2[k] == done[k]);
                        assert(self.resolves_to(ids, k, done[k][i], e.0));
                    }
                    assert(self.load_edges(m, ids, done).contains(e));
                }
            }
        }
        assert forall|e: (usize, usize)| b.contains(e) implies a.contains(e) by {
            if e == (m, id) {
                assert(ids2[ids.len() as int] == id);
            } else if e != (self.root_id(), m) {
                let k = choose|k: int| #![trigger ids[k]] 0 <= k < ids.len() && e.1 == ids[k] && (e.0 == m
                    || exists|i: int| 0 <= i < done[k].len() && #[trigger] self.resolves_to(ids, k, done[k][i], e.0));
                assert(ids2[k] == ids[k]);
                assert(done2[k] == done[k]);
                if e.0 != m {
                    let i = choose|i: int| 0 <= i < done[k].len() && #[trigger] self.resolves_to(ids, k, done[k][i], e.0);
                    assert(self.resolves_to(ids2, k, done2[k][i], e.0));
                }
            }
        }
        assert(a =~= b);
    }

    /// Recording the next dependency `src` of the last interface of a load
    /// adds the edge from what it resolves to, if anything.
    proof fn lemma_load_push_dependency(
        &self,
        m: usize,
        ids: Seq<usize>,
        done: Seq<Seq<DependencySource>>,
        src: DependencySource,
        to: Option<usize>,
    )
        requires
            ids.len() == done.len(),
            ids.len() > 0,
            to matches Some(t) ==> self.resolves_to(ids, ids.len() - 1, src, t),
            to is None ==> forall|t: usize| !#[trigger] self.resolves_to(ids, ids.len() - 1, src, t),
        ensures
            ({
                let k = ids.len() - 1;
                let after = self.load_edges(m, ids, done.update(k, done[k].push(src)));
                match to {
                    Some(t) => after == self.load_edges(m, ids, done).insert((t, ids[k])),
                    None => after == self.load_edges(m, ids, done),
                }
            }),
    {
        let k = ids.len() - 1;
        let done2 = done.update(k, done[k].push(src));
        let a = self.load_edges(m, ids, done2);
        let base = self.load_edges(m, ids, done);
        let b = match to {
            Some(t) => base.insert((t, ids[k])),
            None => base,
        };
        assert forall|e: (usize, usize)| a.contains(e) implies b.contains(e) by {
            if e != (self.root_id(), m) {
                let kk = choose|kk: int| #![trigger ids[kk]] 0 <= kk < ids.len() && e.1 == ids[kk] && (e.0 == m
                    || exists|i: int| 0 <= i < done2[kk].len() && #[trigger] self.resolves_to(ids, kk, done2[kk][i], e.0));
                if e.0 != m {
                    let i = choose|i: int| 0 <= i < done2[kk].len() && #[trigger] self.resolves_to(ids, kk, done2[kk][i], e.0);
                    if kk == k && i == done[k].len() {
                        assert(done2[kk][i] == src);
                        assert(to is Some);
                        assert(e == (to->0, ids[k]));
                    } else {
                        assert(done2[kk][i] == done[kk][i]);
                        assert(self.resolves_to(ids, kk, done[kk][i], e.0));
                        assert(base.contains(e));
                    }
                } else {
                    assert(base.contains(e));
                }
            }
        }
        assert forall|e: (usize, usize)| b.contains(e) implies a.contains(e) by {
            if to matches Some(t) && e == (t, ids[k]) {
                assert(done2[k][done[k].len() as int] == src);
                assert(self.resolves_to(ids, k, done2[k][done[k].len() as int], e.0));
            } else if e != (self.root_id(), m) {
                let kk = choose|kk: int| #![trigger ids[kk]] 0 <= kk < ids.len() && e.1 == ids[kk] && (e.0 == m
                    || exists|i: int| 0 <= i < done[kk].len() && #[trigger] self.resolves_to(ids, kk, done[kk][i], e.0));
                if e.0 != m {
                    let i = choose|i: int| 0 <= i < done[kk].len() && #[trigger] self.resolves_to(ids, kk, done[kk][i], e.0);
                    assert(done2[kk][i] == done[kk][i]);
                    assert(self.resolves_to(ids, kk, done2[kk][i], e.0));
                }
            }
        }
        assert(a =~= b);
    }

    /// What holds while a load is under way: the map is `o` plus the module
    /// `m` holding `module`, the interfaces `ids` of the first entries of
    /// `orig`, and the edges of those that have been recorded in `done`.
    spec fn loading(
        &self,
        o: Self,
        m: usize,
        module: M,
        orig: Seq<(I, Vec<DependencySource>, Vec<DependencySource>)>,
        ids: Seq<usize>,
        done: Seq<Seq<DependencySource>>,
    ) -> bool {
        &&& self.wf()
        &&& o.wf()
        &&& self.root_id() == o.root_id()
        &&& ids.len() == done.len()
        &&& ids.len() <= orig.len()
        &&& !o.resources().contains_key(m)
        &&& ids.no_duplicates()
        &&& forall|j: int| 0 <= j < ids.len() ==> !o.resources().contains_key(#[trigger] ids[j]) && ids[j] != m
        &&& forall|x: usize| #[trigger] self.resources().contains_key(x)
            <==> (o.resources().contains_key(x) || x == m || ids.contains(x))
        &&& forall|x: usize| #[trigger] o.resources().contains_key(x) ==> self.resources()[x] == o.resources()[x]
        &&& self.resources()[m] == ResourceData::<I, M>::Module(module)
        &&& forall|j: int| 0 <= j < ids.len()
            ==> self.resources()[#[trigger] ids[j]] == ResourceData::<I, M>::Interface(orig[j].0)
        &&& self.dependencies() == o.dependencies() + o.load_edges(m, ids, done)
    }

    /// Whether every required dependency of the load can be satisfied.
    fn check_required(&self, interfaces: &Vec<(I, Vec<DependencySource>, Vec<DependencySource>)>) -> (b: bool)
        requires
            self.wf(),
        ensures
            b <==> forall|k: int, i: int| 0 <= k < interfaces@.len() && 0 <= i < interfaces@[k].1@.len()
                ==> self.resolvable(k, #[trigger] interfaces@[k].1@[i]),
    {
        let n = interfaces.len();
        let mut k: usize = 0;
        while k < n
            invariant
                n == interfaces@.len(),
                k <= n,
                self.wf(),
                forall|kk: int, i: int| 0 <= kk < k && 0 <= i < interfaces@[kk].1@.len()
                    ==> self.resolvable(kk, #[trigger] interfaces@[kk].1@[i]),
            decreases n - k,
        {
            let required = &interfaces[k].1;
            let mut i: usize = 0;
            while i < required.len()
                invariant
                    n == interfaces@.len(),
                    k < n,
                    i <= required@.len(),
                    self.wf(),
                    required@ == interfaces@[k as int].1@,
                    forall|kk: int, ii: int| 0 <= kk < k && 0 <= ii < interfaces@[kk].1@.len()
                        ==> self.resolvable(kk, #[trigger] interfaces@[kk].1@[ii]),
                    forall|ii: int| 0 <= ii < i ==> self.resolvable(k as int, #[trigger] required@[ii]),
                decreases required@.len() - i,
            {
                let ok = match required[i] {
                    DependencySource::Present(x) => self.get_interface(x).is_ok(),
                    DependencySource::Earlier(j) => j < k,
                    DependencySource::Missing => false,
                };
                if !ok {
                    proof {
                        assert(!self.resolvable(k as int, interfaces@[k as int].1@[i as int]));
                    }
                    return false;
                }
                i = i + 1;
            }
            k = k + 1;
        }
        true
    }

    /// A load whose edges are `edges` records every satisfied dependency,
    /// required or optional, as an edge into the interface that needs it: a
    /// dependency on an interface `x` of the map gives the edge `x -> ids[k]`,
    /// one on the interface at an earlier position `j` the edge
    /// `ids[j] -> ids[k]`.
    pub proof fn lemma_load_records_dependencies(
        &self,
        edges: Set<(usize, usize)>,
        m: usize,
        ids: Seq<usize>,
        interfaces: Seq<(I, Vec<DependencySource>, Vec<DependencySource>)>,
    )
        requires
            ids.len() == interfaces.len(),
            edges == self.dependencies() + self.load_edges(m, ids, load_dependencies(interfaces)),
        ensures
            forall|k: int, i: int| 0 <= k < ids.len() && 0 <= i < interfaces[k].1@.len()
                && #[trigger] interfaces[k].1@[i] is Present && self.is_interface(interfaces[k].1@[i]->Present_0)
                ==> edges.contains((interfaces[k].1@[i]->Present_0, ids[k])),
            forall|k: int, i: int| 0 <= k < ids.len() && 0 <= i < interfaces[k].2@.len()
                && #[trigger] interfaces[k].2@[i] is Present && self.is_interface(interfaces[k].2@[i]->Present_0)
                ==> edges.contains((interfaces[k].2@[i]->Present_0, ids[k])),
            forall|k: int, i: int| 0 <= k < ids.len() && 0 <= i < interfaces[k].1@.len()
                && #[trigger] interfaces[k].1@[i] is Earlier && interfaces[k].1@[i]->Earlier_0 < k
                ==> edges.contains((ids[interfaces[k].1@[i]->Earlier_0 as int], ids[k])),
            forall|k: int, i: int| 0 <= k < ids.len() && 0 <= i < interfaces[k].2@.len()
                && #[trigger] interfaces[k].2@[i] is Earlier && interfaces[k].2@[i]->Earlier_0 < k
                ==> edges.contains((ids[interfaces[k].2@[i]->Earlier_0 as int], ids[k])),
    {
        let deps = load_dependencies(interfaces);
        let le = self.load_edges(m, ids, deps);
        assert forall|k: int, i: int| 0 <= k < ids.len() && 0 <= i < interfaces[k].1@.len()
            && #[trigger] interfaces[k].1@[i] is Present && self.is_interface(interfaces[k].1@[i]->Present_0)
            implies edges.contains((interfaces[k].1@[i]->Present_0, ids[k])) by {
            let x = interfaces[k].1@[i]->Present_0;
            assert(deps[k][i] == interfaces[k].1@[i]);
            assert(self.resolves_to(ids, k, deps[k][i], x));
            assert(le.contains((x, ids[k])));
        }
        assert forall|k: int, i: int| 0 <= k < ids.len() && 0 <= i < interfaces[k].2@.len()
            && #[trigger] interfaces[k].2@[i] is Present && self.is_interface(interfaces[k].2@[i]->Present_0)
            implies edges.contains((interfaces[k].2@[i]->Present_0, ids[k])) by {
            let x = interfaces[k].2@[i]->Present_0;
            let i2 = interfaces[k].1@.len() + i;
            assert(deps[k][i2] == interfaces[k].2@[i]);
            assert(self.resolves_to(ids, k, deps[k][i2], x));
            assert(le.contains((x, ids[k])));
        }
        assert forall|k: int, i: int| 0 <= k < ids.len() && 0 <= i < interfaces[k].1@.len()
            && #[trigger] interfaces[k].1@[i] is Earlier && interfaces[k].1@[i]->Earlier_0 < k
            implies edges.contains((ids[interfaces[k].1@[i]->Earlier_0 as int], ids[k])) by {
            let j = interfaces[k].1@[i]->Earlier_0;
            assert(deps[k][i] == interfaces[k].1@[i]);
            assert(self.resolves_to(ids, k, deps[k][i], ids[j as int]));
            assert(le.contains((ids[j as int], ids[k])));
        }
        assert forall|k: int, i: int| 0 <= k < ids.len() && 0 <= i < interfaces[k].2@.len()
            && #[trigger] interfaces[k].2@[i] is Earlier && interfaces[k].2@[i]->Earlier_0 < k
            implies edges.contains((ids[interfaces[k].2@[i]->Earlier_0 as int], ids[k])) by {
            let j = interfaces[k].2@[i]->Earlier_0;
            let i2 = interfaces[k].1@.len() + i;
            assert(deps[k][i2] == interfaces[k].2@[i]);
            assert(self.resolves_to(ids, k, deps[k][i2], ids[j as int]));
            assert(le.contains((ids[j as int], ids[k])));
        }
    }

    /// A new map that holds only the root.
    pub fn new() -> (m: Self)
        ensures
            m.wf(),
            m.resources() == Map::<usize, ResourceData<I, M>>::empty().insert(m.root_id(), ResourceData::Root),
            m.dependencies() == Set::<(usize, usize)>::empty(),
    {
        let mut dependency_map = graph_with_capacity(1, 1);
        let root = graph_add_node(&mut dependency_map);
        let mut resources: HashMap<usize, ResourceData<I, M>> = HashMap::new();
        resources.insert(root, ResourceData::Root);
        let m = ResourceMap { root, resources, dependency_map };
        assert(graph_nodes(m.dependency_map) =~= m.resources@.dom());
        m
    }

    /// The id of the root.
    pub fn root(&self) -> (id: usize)
        ensures
            id == self.root_id(),
    {
        self.root
    }

    /// Adds a resource owned by `parent`; returns its fresh id.
    fn insert_resource(&mut self, data: ResourceData<I, M>, parent: usize) -> (id: usize)
        requires
            old(self).wf(),
            old(self).resources().contains_key(parent),
            !(data is Root),
        ensures
            final(self).wf(),
            final(self).root_id() == old(self).root_id(),
            !old(self).resources().contains_key(id),
            final(self).resources() == old(self).resources().insert(id, data),
            final(self).dependencies() == old(self).dependencies().insert((parent, id)),
            !has_cycle(old(self).dependencies()) ==> !has_cycle(final(self).dependencies()),
    {
        let ghost old_edges = graph_edges(self.dependency_map);
        let id = graph_add_node(&mut self.dependency_map);
        self.resources.insert(id, data);
        graph_add_edge(&mut self.dependency_map, parent, id);
        proof {
            assert(graph_nodes(self.dependency_map) =~= self.resources@.dom());
            assert(!has_out_edge(old_edges, id));
            if !has_cycle(old_edges) {
                lemma_edge_into_sink_keeps_acyclic(old_edges, parent, id);
            }
        }
        id
    }

    /// Adds a loaded module; it is owned by the root.
    pub fn add_module(&mut self, module: M) -> (r: Result<usize, ResourceError>)
        requires
            old(self).wf(),
        ensures
            final(self).wf(),
            final(self).root_id() == old(self).root_id(),
            r matches Ok(id) && {
                &&& !old(self).resources().contains_key(id)
                &&& final(self).resources() == old(self).resources().insert(id, ResourceData::Module(module))
                &&& final(self).dependencies() == old(self).dependencies().insert((old(self).root_id(), id))
            },
            !has_cycle(old(self).dependencies()) ==> !has_cycle(final(self).dependencies()),
    {
        let root = self.root;
        let id = self.insert_resource(ResourceData::Module(module), root);
        Ok(id)
    }

    /// Adds an interface owned by the module `module_id`.
    ///
    /// Fails, leaving the map unchanged, when `module_id` is not a module:
    /// `NotFound` when there is no such resource, `FailedPrecondition` when it
    /// is not a module.
    pub fn add_interface(&mut self, interface: I, module_id: usize) -> (r: Result<usize, ResourceError>)
        requires
            old(self).wf(),
        ensures
            final(self).wf(),
            final(self).root_id() == old(self).root_id(),
            r is Ok <==> old(self).is_module(module_id),
            r matches Ok(id) ==> {
                &&& !old(self).resources().contains_key(id)
                &&& final(self).resources() == old(self).resources().insert(id, ResourceData::Interface(interface))
                &&& final(self).dependencies() == old(self).dependencies().insert((module_id, id))
            },
            r matches Err(e) ==> {
                &&& Some(e.spec_kind()) == old(self).module_lookup_error(module_id)
                &&& final(self).resources() == old(self).resources()
                &&& final(self).dependencies() == old(self).dependencies()
            },
            !has_cycle(old(self).dependencies()) ==> !has_cycle(final(self).dependencies()),
    {
        match self.get_module(module_id) {
            Ok(_) => {},
            Err(e) => {
                return Err(e);
            },
        }
        let id = self.insert_resource(ResourceData::Interface(interface), module_id);
        Ok(id)
    }

    /// Records that the interface `dependent` depends on the interface
    /// `dependency`.
    ///
    /// Fails, leaving the map unchanged, when either is not an interface,
    /// with the error of the first failing lookup. The new edge closes a
    /// cycle exactly when `dependency` can already be reached from
    /// `dependent`.
    pub fn add_interface_dependency(&mut self, dependency: usize, dependent: usize) -> (r: Result<(), ResourceError>)
        requires
            old(self).wf(),
        ensures
            final(self).wf(),
            final(self).root_id() == old(self).root_id(),
            final(self).resources() == old(self).resources(),
            r is Ok <==> old(self).is_interface(dependency) && old(self).is_interface(dependent),
            r is Ok ==> final(self).dependencies() == old(self).dependencies().insert((dependency, dependent)),
            r matches Err(e) ==> {
                &&& final(self).dependencies() == old(self).dependencies()
                &&& Some(e.spec_kind()) == (if old(self).is_interface(dependency) {
                    old(self).interface_lookup_error(dependent)
                } else {
                    old(self).interface_lookup_error(dependency)
                })
            },
            r is Ok ==> (!has_cycle(final(self).dependencies()) <==> !has_cycle(old(self).dependencies())
                && !reaches(old(self).dependencies(), dependent, dependency)),
            !has_cycle(old(self).dependencies()) && dependency != dependent
                && !has_out_edge(old(self).dependencies(), dependent) ==> !has_cycle(final(self).dependencies()),
    {
        match self.get_interface(dependency) {
            Ok(_) => {},
            Err(e) => {
                return Err(e);
            },
        }
        match self.get_interface(dependent) {
            Ok(_) => {},
            Err(e) => {
                return Err(e);
            },
        }
        let ghost old_edges = graph_edges(self.dependency_map);
        graph_add_edge(&mut self.dependency_map, dependency, dependent);
        proof {
            lemma_add_edge_cycle(old_edges, dependency, dependent);
            if !has_cycle(old_edges) && dependency != dependent && !has_out_edge(old_edges, dependent) {
                lemma_edge_into_sink_keeps_acyclic(old_edges, dependency, dependent);
            }
        }
        Ok(())
    }

    /// Registers a loaded module together with the interfaces it provides.
    ///
    /// Each entry of `interfaces` is an interface with its required and its
    /// optional dependencies. The module is owned by the root, each interface
    /// by the module, and each dependency that can be satisfied becomes an
    /// edge into the interface that needs it; optional dependencies that
    /// cannot be satisfied are skipped. When a required dependency cannot be
    /// satisfied, the load fails with `NotFound` and the map is left as it was.
    /// On success the module's id and the interfaces' ids, in order, are
    /// returned.
    pub fn load_module_resources(
        &mut self,
        module: M,
        interfaces: Vec<(I, Vec<DependencySource>, Vec<DependencySource>)>,
    ) -> (r: Result<(usize, Vec<usize>), ResourceError>)
        requires
            old(self).wf(),
        ensures
            final(self).wf(),
            final(self).root_id() == old(self).root_id(),
            r is Ok <==> forall|k: int, i: int| 0 <= k < interfaces@.len() && 0 <= i < interfaces@[k].1@.len()
                ==> old(self).resolvable(k, #[trigger] interfaces@[k].1@[i]),
            r matches Err(e) ==> {
                &&& e.spec_kind() == ErrorKind::NotFound
                &&& final(self).resources() == old(self).resources()
                &&& final(self).dependencies() == old(self).dependencies()
            },
            r matches Ok((m, ids)) ==> {
                &&& ids@.len() == interfaces@.len()
                &&& ids@.no_duplicates()
                &&& !old(self).resources().contains_key(m)
                &&& forall|k: int| 0 <= k < ids@.len()
                    ==> !old(self).resources().contains_key(#[trigger] ids@[k]) && ids@[k] != m
                &&& forall|x: usize| #[trigger] final(self).resources().contains_key(x)
                    <==> (old(self).resources().contains_key(x) || x == m || ids@.contains(x))
                &&& forall|x: usize| #[trigger] old(self).resources().contains_key(x)
                    ==> final(self).resources()[x] == old(self).resources()[x]
                &&& final(self).resources()[m] == ResourceData::<I, M>::Module(module)
                &&& forall|k: int| 0 <= k < ids@.len()
                    ==> final(self).resources()[#[trigger] ids@[k]] == ResourceData::<I, M>::Interface(interfaces@[k].0)
                &&& final(self).dependencies()
                    == old(self).dependencies() + old(self).load_edges(m, ids@, load_dependencies(interfaces@))
                &&& forall|k: int, i: int| 0 <= k < ids@.len() && 0 <= i < interfaces@[k].1@.len()
                    && #[trigger] interfaces@[k].1@[i] is Present && old(self).is_interface(interfaces@[k].1@[i]->Present_0)
                    ==> final(self).dependencies().contains((interfaces@[k].1@[i]->Present_0, ids@[k]))
                &&& forall|k: int, i: int| 0 <= k < ids@.len() && 0 <= i < interfaces@[k].2@.len()
                    && #[trigger] interfaces@[k].2@[i] is Present && old(self).is_interface(interfaces@[k].2@[i]->Present_0)
                    ==> final(self).dependencies().contains((interfaces@[k].2@[i]->Present_0, ids@[k]))
                &&& forall|k: int, i: int| 0 <= k < ids@.len() && 0 <= i < interfaces@[k].1@.len()
                    && #[trigger] interfaces@[k].1@[i] is Earlier && interfaces@[k].1@[i]->Earlier_0 < k
                    ==> final(self).dependencies().contains((ids@[interfaces@[k].1@[i]->Earlier_0 as int], ids@[k]))
                &&& forall|k: int, i: int| 0 <= k < ids@.len() && 0 <= i < interfaces@[k].2@.len()
                    && #[trigger] interfaces@[k].2@[i] is Earlier && interfaces@[k].2@[i]->Earlier_0 < k
                    ==> final(self).dependencies().contains((ids@[interfaces@[k].2@[i]->Earlier_0 as int], ids@[k]))
            },
            !has_cycle(old(self).dependencies()) ==> !has_cycle(final(self).dependencies()),
    {
        if !self.check_required(&interfaces) {
            return Err(Error::new(ErrorKind::NotFound, "A required dependency of the module can not be satisfied"));
        }
        let n_total = interfaces.len();
        let ghost o = *self;
        let ghost orig = interfaces@;
        let ghost deps_all = load_dependencies(orig);
        let ghost module_v = module;
        let root = self.root;
        let module_id = self.insert_resource(ResourceData::Module(module), root);
        let mut ids: Vec<usize> = Vec::new();
        let ghost mut done: Seq<Seq<DependencySource>> = Seq::empty();
        proof {
            assert(o.load_edges(module_id, ids@, done) =~= set![(o.root_id(), module_id)]);
            assert(self.dependencies() =~= o.dependencies() + o.load_edges(module_id, ids@, done));
            assert forall|x: usize| #[trigger] self.resources().contains_key(x)
                <==> (o.resources().contains_key(x) || x == module_id || ids@.contains(x)) by {}
        }
        let mut rest = interfaces;
        let mut k: usize = 0;
        while rest.len() > 0
            invariant
                self.loading(o, module_id, module_v, orig, ids@, done),
                k == ids@.len(),
                k + rest@.len() == orig.len(),
                orig.len() == n_total,
                rest@ == orig.skip(k as int),
                deps_all == load_dependencies(orig),
                forall|kk: int| 0 <= kk < k ==> #[trigger] done[kk] == deps_all[kk],
                !has_cycle(o.dependencies()) ==> !has_cycle(self.dependencies()),
            decreases rest@.len(),
        {
            proof {
                assert(rest@[0] == orig[k as int]);
            }
            let (iface, required, optional) = rest.remove(0);
            proof {
                assert(rest@ =~= orig.skip(k + 1));
            }
            let ghost before = *self;
            let ghost old_ids = ids@;
            let ghost old_done = done;
            let id = self.insert_resource(ResourceData::Interface(iface), module_id);
            proof {
                o.lemma_load_push_interface(module_id, ids@, done, id);
                done = done.push(Seq::empty());
            }
            ids.push(id);
            proof {
                assert(ids@ =~= old_ids.push(id));
                assert(!old_ids.contains(id)) by {
                    if old_ids.contains(id) {
                        let j = old_ids.index_of(id);
                        assert(before.resources().contains_key(old_ids[j]));
                    }
                }
                assert(id != module_id);
                assert(!o.resources().contains_key(id));
                assert forall|x: usize| #[trigger] self.resources().contains_key(x)
                    <==> (o.resources().contains_key(x) || x == module_id || ids@.contains(x)) by {
                    if ids@.contains(x) {
                        let j = ids@.index_of(x);
                        if j < k {
                            assert(old_ids[j] == x);
                            assert(old_ids.contains(x));
                        }
                    }
                    if old_ids.contains(x) {
                        let j = old_ids.index_of(x);
                        assert(ids@[j] == x);
                    }
                    assert(ids@[k as int] == id);
                }
                assert forall|j: int| 0 <= j < ids@.len()
                    implies self.resources()[#[trigger] ids@[j]] == ResourceData::<I, M>::Interface(orig[j].0) by {
                    if j < k {
                        assert(ids@[j] == old_ids[j]);
                        assert(old_ids[j] != id);
                    }
                }
                assert forall|j: int| 0 <= j < ids@.len()
                    implies !o.resources().contains_key(#[trigger] ids@[j]) && ids@[j] != module_id by {
                    if j < k {
                        assert(ids@[j] == old_ids[j]);
                    }
                }
                assert(ids@.no_duplicates()) by {
                    assert forall|a: int, b: int| 0 <= a < ids@.len() && 0 <= b < ids@.len() && a != b
                        implies ids@[a] != ids@[b] by {
                        if a < k && b < k {
                            assert(old_ids[a] != old_ids[b]);
                        } else if a < k {
                            assert(old_ids.contains(old_ids[a]));
                        } else {
                            assert(old_ids.contains(old_ids[b]));
                        }
                    }
                }
                assert(self.dependencies() =~= o.dependencies() + o.load_edges(module_id, ids@, done));
                assert(self.loading(o, module_id, module_v, orig, ids@, done));
            }
            let mut all = required;
            let mut opt = optional;
            all.append(&mut opt);
            proof {
                assert(all@ == deps_all[k as int]);
            }
            let mut i: usize = 0;
            while i < all.len()
                invariant
                    self.loading(o, module_id, module_v, orig, ids@, done),
                    k + 1 == ids@.len(),
                    ids@[k as int] == id,
                    i <= all@.len(),
                    done[k as int] == all@.take(i as int),
                    all@ == deps_all[k as int],
                    deps_all == load_dependencies(orig),
                    k < orig.len(),
                    orig.len() == n_total,
                    forall|kk: int| 0 <= kk < k ==> #[trigger] done[kk] == deps_all[kk],
                    !has_cycle(o.dependencies()) ==> !has_cycle(self.dependencies()),
                decreases all@.len() - i,
            {
                let src = all[i];
                let target: Option<usize> = match src {
                    DependencySource::Present(x) => {
                        if x != module_id && !contains_id(&ids, x) && self.get_interface(x).is_ok() {
                            Some(x)
                        } else {
                            None
                        }
                    },
                    DependencySource::Earlier(j) => {
                        if j < k {
                            Some(ids[j])
                        } else {
                            None
                        }
                    },
                    DependencySource::Missing => None,
                };
                proof {
                    match src {
                        DependencySource::Present(x) => {
                            if o.is_interface(x) {
                                assert(!ids@.contains(x)) by {
                                    if ids@.contains(x) {
                                        let j = ids@.index_of(x);
                                        assert(!o.resources().contains_key(ids@[j]));
                                    }
                                }
                            }
                        },
                        _ => {},
                    }
                    o.lemma_load_push_dependency(module_id, ids@, done, src, target);
                    done = done.update(k as int, done[k as int].push(src));
                    assert(done[k as int] =~= all@.take(i + 1));
                }
                match target {
                    Some(t) => {
                        proof {
                            assert(!has_out_edge(self.dependencies(), id)) by {
                                if has_out_edge(self.dependencies(), id) {
                                    let b = choose|b: usize| self.dependencies().contains((id, b));
                                    if o.dependencies().contains((id, b)) {
                                        assert(o.resources().contains_key(id));
                                    } else {
                                        let e = (id, b);
                                        assert(o.resources().contains_key(o.root_id()));
                                        let kk = choose|kk: int| #![trigger ids@[kk]] 0 <= kk < ids@.len() && e.1 == ids@[kk]
                                            && (e.0 == module_id || exists|ii: int| 0 <= ii < done[kk].len()
                                            && #[trigger] o.resolves_to(ids@, kk, done[kk][ii], e.0));
                                        let ii = choose|ii: int| 0 <= ii < done[kk].len()
                                            && #[trigger] o.resolves_to(ids@, kk, done[kk][ii], e.0);
                                        match done[kk][ii] {
                                            DependencySource::Earlier(j) => {
                                                assert(ids@[j as int] == ids@[k as int]);
                                            },
                                            _ => {},
                                        }
                                    }
                                }
                            }
                        }
                        match self.add_interface_dependency(t, id) {
                            Ok(()) => {},
                            Err(_) => {
                                proof {
                                    assert(false);
                                }
                            },
                        }
                    },
                    None => {},
                }
                proof {
                    assert(self.dependencies() =~= o.dependencies() + o.load_edges(module_id, ids@, done));
                }
                i = i + 1;
            }
            proof {
                assert(all@.take(all@.len() as int) =~= all@);
            }
            k = k + 1;
        }
        proof {
            assert(done =~= deps_all);
            o.lemma_load_records_dependencies(self.dependencies(), module_id, ids@, orig);
        }
        Ok((module_id, ids))
    }

    /// Looks up an interface.
    ///
    /// Fails with `NotFound` when there is no such resource and with
    /// `FailedPrecondition` when it is not an interface.
    pub fn get_interface(&self, interface_id: usize) -> (r: Result<&I, ResourceError>)
        requires
            self.wf(),
        ensures
            r is Ok <==> self.is_interface(interface_id),
            r matches Ok(x) ==> self.resources()[interface_id] == ResourceData::<I, M>::Interface(*x),
            r matches Err(e) ==> Some(e.spec_kind()) == self.interface_lookup_error(interface_id),
    {
        match self.resources.get(&interface_id) {
            None => Err(Error::new(ErrorKind::NotFound, "The interface does not exist")),
            Some(ResourceData::Interface(x)) => Ok(x),
            Some(_) => Err(Error::new(ErrorKind::FailedPrecondition, "The resource is not an interface")),
        }
    }

    /// Looks up a module.
    ///
    /// Fails with `NotFound` when there is no such resource and with
    /// `FailedPrecondition` when it is not a module.
    pub fn get_module(&self, module_id: usize) -> (r: Result<&M, ResourceError>)
        requires
            self.wf(),
        ensures
            r is Ok <==> self.is_module(module_id),
            r matches Ok(x) ==> self.resources()[module_id] == ResourceData::<I, M>::Module(*x),
            r matches Err(e) ==> Some(e.spec_kind()) == self.module_lookup_error(module_id),
    {
        match self.resources.get(&module_id) {
            None => Err(Error::new(ErrorKind::NotFound, "The module does not exist")),
            Some(ResourceData::Module(x)) => Ok(x),
            Some(_) => Err(Error::new(ErrorKind::FailedPrecondition, "The resource is not a module")),
        }
    }

    /// The loaded modules, each once, in no particular order.
    pub fn get_modules(&self) -> (ms: Vec<&M>)
        requires
            self.wf(),
        ensures
            exists|ids: Seq<usize>|
                {
                    &&& ids.no_duplicates()
                    &&& ids.len() == ms@.len()
                    &&& forall|k: usize| #[trigger] ids.contains(k) <==> self.is_module(k)
                    &&& forall|i: int| 0 <= i < ids.len()
                        ==> self.resources()[#[trigger] ids[i]] == ResourceData::<I, M>::Module(*ms@[i])
                },
    {
        let mut ms: Vec<&M> = Vec::new();
        let ghost mut ids: Seq<usize> = Seq::empty();
        let ghost m = self.resources@;
        let ghost entries = spec_hash_map_iter(&self.resources).remaining();
        let ghost mut seen: int = 0;
        for (id, data) in it: self.resources.iter()
            invariant
                m == self.resources@,
                entries == spec_hash_map_iter(&self.resources).remaining(),
                it.seq() == entries,
                seen == it.index(),
                ms@.len() == ids.len(),
                ids.no_duplicates(),
                entries.no_duplicates(),
                forall|j: int| 0 <= j < entries.len() ==> m.contains_key(*(#[trigger] entries[j]).0)
                    && m[*entries[j].0] == *entries[j].1,
                forall|i: int| 0 <= i < ids.len() ==> m[#[trigger] ids[i]] == ResourceData::<I, M>::Module(*ms@[i]),
                forall|i: int| 0 <= i < ids.len() ==> exists|j: int| 0 <= j < seen && *entries[j].0 == #[trigger] ids[i],
                forall|j: int| 0 <= j < seen && (m[*(#[trigger] entries[j]).0] is Module)
                    ==> ids.contains(*entries[j].0),
        {
            proof {
                assert(entries[seen] == (id, data));
            }
            let ghost old_ids = ids;
            match data {
                ResourceData::Module(x) => {
                    proof {
                        assert forall|i: int| 0 <= i < ids.len() implies ids[i] != *id by {
                            let j = choose|j: int| 0 <= j < seen && *entries[j].0 == ids[i];
                            if ids[i] == *id {
                                assert(entries[j] == entries[seen]);
                            }
                        }
                        ids = ids.push(*id);
                    }
                    ms.push(x);
                },
                _ => {},
            }
            proof {
                assert forall|j: int| 0 <= j < seen + 1 && (m[*(#[trigger] entries[j]).0] is Module)
                    implies ids.contains(*entries[j].0) by {
                    if j < seen {
                        assert(old_ids.contains(*entries[j].0));
                        let i = old_ids.index_of(*entries[j].0);
                        assert(ids[i] == old_ids[i]);
                    } else {
                        assert(ids[ids.len() - 1] == *id);
                    }
                }
                seen = seen + 1;
            }
        }
        proof {
            assert(seen == entries.len());
            assert forall|k: usize| #[trigger] ids.contains(k) <==> self.is_module(k) by {
                if ids.contains(k) {
                    let i = ids.index_of(k);
                    assert(m[ids[i]] is Module);
                }
                if self.is_module(k) {
                    assert(entries.contains((&k, &m[k])));
                    let j = entries.index_of((&k, &m[k]));
                    assert(m[*entries[j].0] is Module);
                }
            }
        }
        ms
    }

    /// Removes a resource that exists, is not the root and has no dependents.
    fn remove_resource(&mut self, id: usize)
        requires
            old(self).wf(),
            old(self).resources().contains_key(id),
            id != old(self).root_id(),
            !has_out_edge(old(self).dependencies(), id),
        ensures
            final(self).wf(),
            final(self).root_id() == old(self).root_id(),
            final(self).resources() == old(self).resources().remove(id),
            final(self).dependencies() == without_node(old(self).dependencies(), id),
            !has_cycle(old(self).dependencies()) ==> !has_cycle(final(self).dependencies()),
    {
        let ghost old_edges = graph_edges(self.dependency_map);
        graph_remove_node(&mut self.dependency_map, id);
        self.resources.remove(&id);
        proof {
            assert(graph_nodes(self.dependency_map) =~= self.resources@.dom());
            if !has_cycle(old_edges) {
                lemma_remove_node_keeps_acyclic(old_edges, id);
            }
        }
    }

    /// Removes an interface.
    ///
    /// Fails, leaving the map unchanged, when `interface_id` is not an
    /// interface (`NotFound` or `FailedPrecondition`) or when another
    /// interface still depends on it (`FailedPrecondition`).
    pub fn remove_interface(&mut self, interface_id: usize) -> (r: Result<(), ResourceError>)
        requires
            old(self).wf(),
        ensures
            final(self).wf(),
            final(self).root_id() == old(self).root_id(),
            r is Ok <==> old(self).is_interface(interface_id) && !has_out_edge(old(self).dependencies(), interface_id),
            r is Ok ==> {
                &&& final(self).resources() == old(self).resources().remove(interface_id)
                &&& final(self).dependencies() == without_node(old(self).dependencies(), interface_id)
            },
            r matches Err(e) ==> {
                &&& final(self).resources() == old(self).resources()
                &&& final(self).dependencies() == old(self).dependencies()
                &&& e.spec_kind() == (if old(self).is_interface(interface_id) {
                    ErrorKind::FailedPrecondition
                } else {
                    old(self).interface_lookup_error(interface_id).unwrap()
                })
            },
            !has_cycle(old(self).dependencies()) ==> !has_cycle(final(self).dependencies()),
    {
        match self.get_interface(interface_id) {
            Ok(_) => {},
            Err(e) => {
                return Err(e);
            },
        }
        if graph_has_outgoing(&self.dependency_map, interface_id) {
            return Err(Error::new(ErrorKind::FailedPrecondition, "The interface can not be removed, as it is being used"));
        }
        self.remove_resource(interface_id);
        Ok(())
    }

    /// Removes a module.
    ///
    /// Fails, leaving the map unchanged, when `module_id` is not a module
    /// (`NotFound` or `FailedPrecondition`) or when it still owns some
    /// interfaces (`FailedPrecondition`).
    pub fn remove_module(&mut self, module_id: usize) -> (r: Result<(), ResourceError>)
        requires
            old(self).wf(),
        ensures
            final(self).wf(),
            final(self).root_id() == old(self).root_id(),
            r is Ok <==> old(self).is_module(module_id) && !has_out_edge(old(self).dependencies(), module_id),
            r is Ok ==> {
                &&& final(self).resources() == old(self).resources().remove(module_id)
                &&& final(self).dependencies() == without_node(old(self).dependencies(), module_id)
            },
            r matches Err(e) ==> {
                &&& final(self).resources() == old(self).resources()
                &&& final(self).dependencies() == old(self).dependencies()
                &&& e.spec_kind() == (if old(self).is_module(module_id) {
                    ErrorKind::FailedPrecondition
                } else {
                    old(self).module_lookup_error(module_id).unwrap()
                })
            },
            !has_cycle(old(self).dependencies()) ==> !has_cycle(final(self).dependencies()),
    {
        match self.get_module(module_id) {
            Ok(_) => {},
            Err(e) => {
                return Err(e);
            },
        }
        if graph_has_outgoing(&self.dependency_map, module_id) {
            return Err(Error::new(ErrorKind::FailedPrecondition, "The module can not be removed, as it still owns some interfaces"));
        }
        self.remove_resource(module_id);
        Ok(())
    }

    /// Whether the dependency graph is free of cycles.
    pub fn is_acyclic(&self) -> (b: bool)
        ensures
            b == !has_cycle(self.dependencies()),
    {
        graph_is_cyclic(&self.dependency_map) == false
    }

    /// Removes every interface and module that nothing depends on, again and
    /// again, until no more can be removed.
    ///
    /// A resource stays exactly when it is the root or a cycle of the
    /// dependency graph can be reached from it; the edges that stay are the
    /// old edges between the resources that stay. On an acyclic map only the
    /// root remains.
    pub fn cleanup_resources(&mut self)
        requires
            old(self).wf(),
        ensures
            final(self).wf(),
            final(self).root_id() == old(self).root_id(),
            final(self).resources().dom().subset_of(old(self).resources().dom()),
            forall|id: usize| #[trigger] final(self).resources().contains_key(id)
                ==> final(self).resources()[id] == old(self).resources()[id],
            forall|id: usize| #[trigger] final(self).resources().contains_key(id) && id != final(self).root_id()
                ==> has_out_edge(final(self).dependencies(), id),
            forall|id: usize| #[trigger] final(self).resources().contains_key(id)
                <==> old(self).resources().contains_key(id) && (id == old(self).root_id()
                    || reaches_cycle(old(self).dependencies(), id)),
            final(self).dependencies() == restrict(old(self).dependencies(), final(self).resources().dom()),
            !has_cycle(old(self).dependencies())
                ==> final(self).resources() == Map::<usize, ResourceData<I, M>>::empty().insert(
                    old(self).root_id(),
                    ResourceData::Root,
                ),
    {
        let ghost old_res = self.resources@;
        let ghost old_edges = graph_edges(self.dependency_map);
        let ghost acyclic = !has_cycle(graph_edges(self.dependency_map));
        proof {
            assert(graph_edges(self.dependency_map) =~= restrict(old_edges, self.resources@.dom()));
        }
        loop
            invariant
                old_edges == graph_edges(old(self).dependency_map),
                old(self).wf(),
                graph_edges(self.dependency_map) == restrict(old_edges, self.resources@.dom()),
                forall|x: usize| #[trigger] old_res.contains_key(x) && reaches_cycle(old_edges, x)
                    ==> self.resources@.contains_key(x),
                self.wf(),
                self.root == old(self).root,
                self.resources@.dom().subset_of(old_res.dom()),
                forall|id: usize| #[trigger] self.resources@.contains_key(id) ==> self.resources@[id] == old_res[id],
                acyclic ==> !has_cycle(graph_edges(self.dependency_map)),
                old_res == old(self).resources@,
                acyclic == !has_cycle(graph_edges(old(self).dependency_map)),
            ensures
                graph_edges(self.dependency_map) == restrict(old_edges, self.resources@.dom()),
                forall|x: usize| #[trigger] old_res.contains_key(x) && reaches_cycle(old_edges, x)
                    ==> self.resources@.contains_key(x),
                self.wf(),
                self.root == old(self).root,
                self.resources@.dom().subset_of(old_res.dom()),
                forall|id: usize| #[trigger] self.resources@.contains_key(id) ==> self.resources@[id] == old_res[id],
                acyclic ==> !has_cycle(graph_edges(self.dependency_map)),
                forall|id: usize| #[trigger] self.resources@.contains_key(id) && id != self.root
                    ==> has_out_edge(graph_edges(self.dependency_map), id),
            decreases self.resources@.dom().len(),
        {
            let sinks = graph_sinks(&self.dependency_map);
            let ghost start_res = self.resources@;
            let ghost start_edges = graph_edges(self.dependency_map);
            let mut removed_any = false;
            let mut k: usize = 0;
            proof {
                assert forall|j: int| 0 <= j < sinks@.len() implies {
                    &&& self.resources@.contains_key(#[trigger] sinks@[j])
                    &&& !has_out_edge(graph_edges(self.dependency_map), sinks@[j])
                } by {
                    assert(sinks@.contains(sinks@[j]));
                }
            }
            while k < sinks.len()
                invariant
                    old_edges == graph_edges(old(self).dependency_map),
                    old_res == old(self).resources@,
                    old(self).wf(),
                    graph_edges(self.dependency_map) == restrict(old_edges, self.resources@.dom()),
                    forall|x: usize| #[trigger] old_res.contains_key(x) && reaches_cycle(old_edges, x)
                        ==> self.resources@.contains_key(x),
                    self.wf(),
                    self.root == old(self).root,
                    self.resources@.dom().subset_of(old_res.dom()),
                    forall|id: usize| #[trigger] self.resources@.contains_key(id) ==> self.resources@[id] == old_res[id],
                    acyclic ==> !has_cycle(graph_edges(self.dependency_map)),
                    sinks@.no_duplicates(),
                    k <= sinks@.len(),
                    start_res.dom().finite(),
                    forall|j: int| k <= j < sinks@.len() ==> {
                        &&& self.resources@.contains_key(#[trigger] sinks@[j])
                        &&& !has_out_edge(graph_edges(self.dependency_map), sinks@[j])
                    },
                    removed_any ==> self.resources@.dom().len() < start_res.dom().len(),
                    !removed_any ==> self.resources@ == start_res && graph_edges(self.dependency_map) == start_edges,
                    !removed_any ==> forall|j: int| 0 <= j < k ==> #[trigger] sinks@[j] == self.root,
                    forall|x: usize| #[trigger] sinks@.contains(x) <==> (start_res.dom().contains(x) && !has_out_edge(start_edges, x)),
                decreases sinks@.len() - k,
            {
                let s = sinks[k];
                if s != self.root {
                    let ghost before = self.resources@;
                    let ghost before_edges = graph_edges(self.dependency_map);
                    proof {
                        if reaches_cycle(old_edges, s) {
                            lemma_reaches_cycle_step(old_edges, s);
                            let z = choose|z: usize| #[trigger] old_edges.contains((s, z)) && reaches_cycle(old_edges, z);
                            assert(graph_edges(old(self).dependency_map).contains((s, z)));
                            assert(old_res.contains_key(z));
                            assert(before_edges.contains((s, z)));
                            assert(has_out_edge(before_edges, s));
                        }
                    }
                    self.remove_resource(s);
                    proof {
                        assert(graph_edges(self.dependency_map) =~= restrict(old_edges, self.resources@.dom()));
                        assert(self.resources@.dom() =~= before.dom().remove(s));
                        assert forall|j: int| k + 1 <= j < sinks@.len() implies {
                            &&& self.resources@.contains_key(#[trigger] sinks@[j])
                            &&& !has_out_edge(graph_edges(self.dependency_map), sinks@[j])
                        } by {
                            assert(sinks@[j] != sinks@[k as int]);
                            assert(before.contains_key(sinks@[j]));
                            assert(!has_out_edge(before_edges, sinks@[j]));
                            if has_out_edge(graph_edges(self.dependency_map), sinks@[j]) {
                                let b = choose|b: usize| graph_edges(self.dependency_map).contains((sinks@[j], b));
                                assert(before_edges.contains((sinks@[j], b)));
                            }
                        }
                    }
                    removed_any = true;
                }
                k = k + 1;
            }
            if !removed_any {
                proof {
                    assert forall|id: usize| #[trigger] self.resources@.contains_key(id) && id != self.root
                        implies has_out_edge(graph_edges(self.dependency_map), id) by {
                        if !has_out_edge(graph_edges(self.dependency_map), id) {
                            assert(sinks@.contains(id));
                            let j = choose|j: int| 0 <= j < sinks@.len() && sinks@[j] == id;
                            assert(sinks@[j] == self.root);
                        }
                    }
                }
                break;
            }
        }
        proof {
            let edges = graph_edges(self.dependency_map);
            assert forall|id: usize| #[trigger] self.resources@.contains_key(id)
                <==> old_res.contains_key(id) && (id == self.root || reaches_cycle(old_edges, id)) by {
                if self.resources@.contains_key(id) && id != self.root {
                    let others = self.resources@.dom().remove(self.root);
                    assert forall|y: usize| others.contains(y) implies #[trigger] has_out_edge(edges, y) by {
                        assert(self.resources@.contains_key(y));
                    }
                    assert forall|e: (usize, usize)| #[trigger] edges.contains(e) implies others.contains(e.1) by {}
                    lemma_no_sink_reaches_cycle(others, edges, id);
                    lemma_reaches_cycle_mono(edges, old_edges, id);
                }
            }
            if acyclic {
                let others = self.resources@.dom().remove(self.root);
                if exists|x: usize| others.contains(x) {
                    let x = choose|x: usize| others.contains(x);
                    assert forall|y: usize| others.contains(y) implies #[trigger] has_out_edge(edges, y) by {
                        assert(self.resources@.contains_key(y));
                    }
                    assert forall|e: (usize, usize)| #[trigger] edges.contains(e) implies others.contains(e.1) by {}
                    lemma_no_sink_means_cycle(others, edges, x);
                    assert(false);
                }
                assert(self.resources@ =~= Map::<usize, ResourceData<I, M>>::empty().insert(self.root, ResourceData::Root)) by {
                    assert forall|id: usize| self.resources@.contains_key(id) implies id == self.root by {
                        if id != self.root {
                            assert(others.contains(id));
                        }
                    }
                }
            }
        }
    }
}

impl<I, M: ModulePath> ResourceMap<I, M> {
    /// Looks up a loaded module by the path of its root.
    ///
    /// Returns some module with that path and its id, or `None` when no
    /// loaded module has that path.
    pub fn get_module_by_path(&self, path: &str) -> (r: Option<(usize, &M)>)
        requires
            self.wf(),
        ensures
            r matches Some((id, m)) ==> {
                &&& self.is_module(id)
                &&& self.resources()[id] == ResourceData::<I, M>::Module(*m)
                &&& m.spec_root_path() == path@
            },
            r is None <==> forall|id: usize| #[trigger] self.is_module(id)
                ==> path_of(self.resources()[id]) != path@,
    {
        let ghost m = self.resources@;
        let ghost entries = spec_hash_map_iter(&self.resources).remaining();
        let ghost mut seen: int = 0;
        for (id, data) in it: self.resources.iter()
            invariant
                m == self.resources@,
                entries == spec_hash_map_iter(&self.resources).remaining(),
                it.seq() == entries,
                seen == it.index(),
                forall|j: int| 0 <= j < entries.len() ==> m.contains_key(*(#[trigger] entries[j]).0)
                    && m[*entries[j].0] == *entries[j].1,
                forall|j: int| 0 <= j < seen && (m[*(#[trigger] entries[j]).0] is Module)
                    ==> path_of(m[*entries[j].0]) != path@,
        {
            proof {
                assert(entries[seen] == (id, data));
            }
            match data {
                ResourceData::Module(x) => {
                    if same_text(x.root_path(), path) {
                        proof {
                            assert(self.is_module(*id));
                            assert(path_of(self.resources()[*id]) == path@);
                        }
                        return Some((*id, x));
                    }
                },
                _ => {},
            }
            proof {
                seen = seen + 1;
            }
        }
        proof {
            assert(seen == entries.len());
            assert forall|k: usize| #[trigger] self.is_module(k) implies path_of(self.resources()[k]) != path@ by {
                assert(entries.contains((&k, &m[k])));
                let j = entries.index_of((&k, &m[k]));
                assert(m[*entries[j].0] is Module);
            }
        }
        None
    }
}

} // verus!
