//! The module dependency graph of one agent execution, and the order in
//! which its modules are evaluated.
use vstd::prelude::*;

use crate::error::BuaError;
use crate::record::{ModuleRecord, ModuleStatus};

verus! {

/// Topological evaluation order for the module graph: module paths,
/// dependencies first.
#[derive(Debug)]
pub struct EvalOrder(pub Vec<String>);

impl EvalOrder {
    /// The paths, in evaluation order.
    pub fn iter(&self) -> (r: std::slice::Iter<'_, String>)
        ensures
            vstd::std_specs::slice::into_iter_elts(r) == self.0@,
    {
        self.0.iter()
    }

    /// The number of modules.
    pub fn len(&self) -> (n: usize)
        ensures
            n == self.0@.len(),
    {
        self.0.len()
    }

    /// Whether the order is empty.
    pub fn is_empty(&self) -> (r: bool)
        ensures
            r == (self.0@.len() == 0),
    {
        self.0.len() == 0
    }
}

/// The module dependency graph.
///
/// Every path the graph has heard of (as a module or as an end of an import
/// edge) has an index; at each index the graph holds the module inserted
/// under that path, if any, and the indices that its module imports.
#[derive(Debug)]
pub struct ModuleGraph {
    keys: Vec<String>,
    nodes: Vec<Option<ModuleRecord>>,
    deps: Vec<Vec<usize>>,
}

/// The mathematical value of a module graph: the known paths, the module at
/// each path (if one was inserted), and the import edges from each path as
/// indices into the known paths.
pub struct GraphView {
    pub keys: Seq<Seq<char>>,
    pub nodes: Seq<Option<ModuleRecord>>,
    pub deps: Seq<Seq<usize>>,
}

impl View for ModuleGraph {
    type V = GraphView;

    closed spec fn view(&self) -> GraphView {
        GraphView {
            keys: self.keys@.map_values(|k: String| k@),
            nodes: self.nodes@,
            deps: self.deps@.map_values(|d: Vec<usize>| d@),
        }
    }
}

/// Well-formedness of a graph value: one entry per path in each table, each
/// path known once, and every edge ending at a known path.
pub open spec fn graph_wf(g: GraphView) -> bool {
    &&& g.nodes.len() == g.keys.len()
    &&& g.deps.len() == g.keys.len()
    &&& forall|i: int, j: int| 0 <= i < j < g.keys.len() ==> g.keys[i] != g.keys[j]
    &&& forall|i: int, j: int|
        0 <= i < g.deps.len() && 0 <= j < g.deps[i].len() ==> #[trigger] g.deps[i][j] < g.keys.len()
}

/// The index of path `k`, if the graph knows it.
pub open spec fn index_of(g: GraphView, k: Seq<char>) -> Option<int> {
    if exists|i: int| 0 <= i < g.keys.len() && g.keys[i] == k {
        Some(choose|i: int| 0 <= i < g.keys.len() && g.keys[i] == k)
    } else {
        None
    }
}

/// `g` with path `k` known: unchanged if it was, else `k` appended with no
/// module and no edges.
pub open spec fn with_key(g: GraphView, k: Seq<char>) -> GraphView {
    if index_of(g, k) is Some {
        g
    } else {
        GraphView {
            keys: g.keys.push(k),
            nodes: g.nodes.push(None),
            deps: g.deps.push(Seq::empty()),
        }
    }
}

/// Whether module `a` imports module `b` (by index).
pub open spec fn edge(g: GraphView, a: int, b: int) -> bool {
    0 <= a < g.deps.len() && 0 <= b < g.deps.len() && g.deps[a].contains(b as usize)
}

/// Whether `p` is a path of import edges.
pub open spec fn is_path(g: GraphView, p: Seq<int>) -> bool {
    p.len() >= 1 && forall|i: int| 0 <= i < p.len() - 1 ==> #[trigger] edge(g, p[i], p[i + 1])
}

/// Whether index `b` can be reached from index `a` along import edges.
pub open spec fn reaches(g: GraphView, a: int, b: int) -> bool {
    exists|p: Seq<int>| #[trigger] is_path(g, p) && p[0] == a && p.last() == b
}

/// Whether a module was inserted at index `i`.
pub open spec fn is_node(g: GraphView, i: int) -> bool {
    0 <= i < g.nodes.len() && g.nodes[i] is Some
}

/// Whether path `k` has a module that reaches the module at path `m`.
pub open spec fn path_reaches(g: GraphView, k: Seq<char>, m: Seq<char>) -> bool {
    exists|a: int, b: int|
        0 <= a < g.keys.len() && 0 <= b < g.keys.len() && g.keys[a] == k && g.keys[b] == m
            && #[trigger] reaches(g, a, b)
}

/// Whether the module at path `k` imports the module at path `m`.
pub open spec fn path_imports(g: GraphView, k: Seq<char>, m: Seq<char>) -> bool {
    exists|a: int, b: int|
        0 <= a < g.keys.len() && 0 <= b < g.keys.len() && g.keys[a] == k && g.keys[b] == m
            && #[trigger] edge(g, a, b)
}

/// Whether path `k` holds a module.
pub open spec fn path_is_node(g: GraphView, k: Seq<char>) -> bool {
    exists|a: int| 0 <= a < g.keys.len() && g.keys[a] == k && #[trigger] is_node(g, a)
}

/// The number of modules among `nodes`.
pub open spec fn node_count(nodes: Seq<Option<ModuleRecord>>) -> nat
    decreases nodes.len(),
{
    if nodes.len() == 0 {
        0
    } else {
        node_count(nodes.drop_last()) + if nodes.last() is Some {
            1nat
        } else {
            0nat
        }
    }
}

proof fn lemma_node_count_bound(nodes: Seq<Option<ModuleRecord>>)
    ensures
        node_count(nodes) <= nodes.len(),
    decreases nodes.len(),
{
    if nodes.len() > 0 {
        lemma_node_count_bound(nodes.drop_last());
    }
}

proof fn lemma_node_count_update(nodes: Seq<Option<ModuleRecord>>, i: int, x: Option<ModuleRecord>)
    requires
        0 <= i < nodes.len(),
    ensures
        node_count(nodes.update(i, x)) == node_count(nodes) - (if nodes[i] is Some {
            1int
        } else {
            0int
        }) + (if x is Some {
            1int
        } else {
            0int
        }),
    decreases nodes.len(),
{
    if i < nodes.len() - 1 {
        lemma_node_count_update(nodes.drop_last(), i, x);
        assert(nodes.update(i, x).drop_last() =~= nodes.drop_last().update(i, x));
    } else {
        assert(nodes.update(i, x).drop_last() =~= nodes.drop_last());
    }
}

proof fn lemma_reach_refl(g: GraphView, a: int)
    ensures
        reaches(g, a, a),
{
    let p = seq![a];
    assert(is_path(g, p));
}

proof fn lemma_reach_step(g: GraphView, a: int, b: int, c: int)
    requires
        reaches(g, a, b),
        edge(g, b, c),
    ensures
        reaches(g, a, c),
{
    let p = choose|p: Seq<int>| #[trigger] is_path(g, p) && p[0] == a && p.last() == b;
    let q = p.push(c);
    assert forall|i: int| 0 <= i < q.len() - 1 implies #[trigger] edge(g, q[i], q[i + 1]) by {
        if i < p.len() - 1 {
            assert(edge(g, p[i], p[i + 1]));
        }
    }
    assert(is_path(g, q));
}

proof fn lemma_reach_trans(g: GraphView, a: int, b: int, c: int)
    requires
        reaches(g, a, b),
        reaches(g, b, c),
    ensures
        reaches(g, a, c),
{
    let p = choose|p: Seq<int>| #[trigger] is_path(g, p) && p[0] == a && p.last() == b;
    let q = choose|q: Seq<int>| #[trigger] is_path(g, q) && q[0] == b && q.last() == c;
    let r = p + q.drop_first();
    assert forall|i: int| 0 <= i < r.len() - 1 implies #[trigger] edge(g, r[i], r[i + 1]) by {
        if i < p.len() - 1 {
            assert(edge(g, p[i], p[i + 1]));
        } else {
            let k = i - p.len() + 1;
            assert(edge(g, q[k], q[k + 1]));
        }
    }
    assert(is_path(g, r));
}

/// A set of indices closed under import edges holds everything reachable
/// from its members.
proof fn lemma_closed_holds_reachable(g: GraphView, s: Set<int>, a: int, b: int)
    requires
        s.contains(a),
        forall|x: int, y: int| s.contains(x) && #[trigger] edge(g, x, y) ==> s.contains(y),
        reaches(g, a, b),
    ensures
        s.contains(b),
{
    let p = choose|p: Seq<int>| #[trigger] is_path(g, p) && p[0] == a && p.last() == b;
    lemma_closed_path_prefix(g, s, p, p.len() - 1);
}

proof fn lemma_closed_path_prefix(g: GraphView, s: Set<int>, p: Seq<int>, i: int)
    requires
        is_path(g, p),
        s.contains(p[0]),
        0 <= i < p.len(),
        forall|x: int, y: int| s.contains(x) && #[trigger] edge(g, x, y) ==> s.contains(y),
    ensures
        s.contains(p[i]),
    decreases i,
{
    if i > 0 {
        lemma_closed_path_prefix(g, s, p, i - 1);
        let j = i - 1;
        assert(edge(g, p[j], p[j + 1]));
    }
}

proof fn lemma_index_of(g: GraphView, i: int)
    requires
        graph_wf(g),
        0 <= i < g.keys.len(),
    ensures
        index_of(g, g.keys[i]) == Some(i),
{
    let c = choose|c: int| 0 <= c < g.keys.len() && g.keys[c] == g.keys[i];
    assert(c == i) by {
        if c < i {
            assert(g.keys[c] != g.keys[i]);
        }
        if i < c {
            assert(g.keys[i] != g.keys[c]);
        }
    }
}

/// The depth-first visit of index `u`, from marking `m` (0 unvisited, 1 on
/// the search path, 2 finished) and order `o`, within `fuel` nested visits:
/// `u` goes on the path, each unvisited dependency is visited in edge
/// order, then `u` is finished and appended when it holds a module.
pub open spec fn dfs_visit(g: GraphView, m: Seq<u8>, o: Seq<usize>, u: int, fuel: nat) -> (Seq<u8>, Seq<usize>)
    decreases fuel, 0nat, 0nat,
{
    if fuel == 0 {
        (m, o)
    } else {
        let r = dfs_deps(g, m.update(u, 1), o, u, 0, (fuel - 1) as nat);
        (r.0.update(u, 2), if is_node(g, u) {
            r.1.push(u as usize)
        } else {
            r.1
        })
    }
}

/// The visits of the dependencies of `u` from the `k`-th on (see
/// [`dfs_visit`]).
pub open spec fn dfs_deps(g: GraphView, m: Seq<u8>, o: Seq<usize>, u: int, k: int, fuel: nat) -> (Seq<u8>, Seq<usize>)
    decreases fuel, 1nat, (g.deps[u].len() - k) as nat,
{
    if k < 0 || k >= g.deps[u].len() {
        (m, o)
    } else {
        let v = g.deps[u][k] as int;
        let r = if 0 <= v < m.len() && m[v] == 0 {
            dfs_visit(g, m, o, v, fuel)
        } else {
            (m, o)
        };
        dfs_deps(g, r.0, r.1, u, k + 1, fuel)
    }
}

/// The paths of the modules reachable from path `k`, in the order of a
/// depth-first post-order search from it over the import edges in the
/// order they were added.
pub open spec fn dfs_eval_order(g: GraphView, k: Seq<char>) -> Seq<Seq<char>> {
    let z = Seq::new(g.keys.len(), |i: int| 0u8);
    dfs_visit(g, z, Seq::empty(), index_of(g, k)->0, count_white(z)).1.map_values(
        |i: usize| g.keys[i as int],
    )
}

/// The number of unvisited entries (`0`) of a search marking.
pub open spec fn count_white(m: Seq<u8>) -> nat
    decreases m.len(),
{
    if m.len() == 0 {
        0
    } else {
        count_white(m.drop_last()) + if m.last() == 0 {
            1nat
        } else {
            0nat
        }
    }
}

proof fn lemma_count_white_mono(m1: Seq<u8>, m2: Seq<u8>)
    requires
        m1.len() == m2.len(),
        forall|x: int| 0 <= x < m2.len() && m2[x] == 0 ==> m1[x] == 0,
    ensures
        count_white(m2) <= count_white(m1),
        (exists|u: int| 0 <= u < m1.len() && m1[u] == 0 && m2[u] != 0) ==> count_white(m2)
            < count_white(m1),
    decreases m1.len(),
{
    if m1.len() > 0 {
        lemma_count_white_mono(m1.drop_last(), m2.drop_last());
        if exists|u: int| 0 <= u < m1.len() && m1[u] == 0 && m2[u] != 0 {
            let u = choose|u: int| 0 <= u < m1.len() && m1[u] == 0 && m2[u] != 0;
            if u < m1.len() - 1 {
                assert(m1.drop_last()[u] == 0 && m2.drop_last()[u] != 0);
            }
        }
    }
}

/// The invariant of the depth-first search over `g` from `entry`: a marking
/// of every index as unvisited (0), on the search path (1) or finished (2),
/// and the finished modules in the order they finished.
///
/// A finished index has no unvisited import, and is reachable from `entry`;
/// the order holds each finished module once; and when a module comes before
/// one that it imports, the import reaches it back.
pub open spec fn dfs_inv(g: GraphView, mark: Seq<u8>, order: Seq<usize>, entry: int) -> bool {
    &&& mark.len() == g.keys.len()
    &&& forall|x: int| 0 <= x < mark.len() ==> #[trigger] mark[x] <= 2
    &&& forall|x: int, y: int|
        0 <= x < mark.len() && mark[x] == 2 && #[trigger] edge(g, x, y) ==> mark[y] != 0
    &&& forall|x: int| 0 <= x < mark.len() && #[trigger] mark[x] == 2 ==> reaches(g, entry, x)
    &&& forall|i: int|
        0 <= i < order.len() ==> order[i] < mark.len() && mark[order[i] as int] == 2 && is_node(
            g,
            #[trigger] order[i] as int,
        )
    &&& forall|i: int, j: int| 0 <= i < j < order.len() ==> order[i] != order[j]
    &&& forall|x: int|
        0 <= x < mark.len() && mark[x] == 2 && #[trigger] is_node(g, x) ==> order.contains(
            x as usize,
        )
    &&& forall|i: int, j: int|
        0 <= i < j < order.len() && #[trigger] edge(g, order[i] as int, order[j] as int)
            ==> reaches(g, order[j] as int, order[i] as int)
}

/// What an evaluation order from `entry` promises: the entry module comes
/// last; each module appears once, and is reachable from the entry; every
/// module reachable from the entry appears; and a module that comes before
/// one of its imports lies on an import cycle with it.
pub open spec fn valid_eval_order(g: GraphView, entry: Seq<char>, ov: Seq<Seq<char>>) -> bool {
    &&& ov.len() >= 1
    &&& ov.last() == entry
    &&& forall|i: int, j: int| 0 <= i < j < ov.len() ==> ov[i] != ov[j]
    &&& forall|i: int|
        0 <= i < ov.len() ==> path_is_node(g, #[trigger] ov[i]) && path_reaches(g, entry, ov[i])
    &&& forall|k: Seq<char>|
        #[trigger] path_is_node(g, k) && path_reaches(g, entry, k) ==> ov.contains(k)
    &&& forall|i: int, j: int|
        0 <= i < j < ov.len() && #[trigger] path_imports(g, ov[i], ov[j]) ==> path_reaches(
            g,
            ov[j],
            ov[i],
        )
}

proof fn lemma_key_unique(g: GraphView, a: int, c: int)
    requires
        graph_wf(g),
        0 <= a < g.keys.len(),
        0 <= c < g.keys.len(),
        g.keys[a] == g.keys[c],
    ensures
        a == c,
{
    if a < c {
        assert(g.keys[a] != g.keys[c]);
    }
    if c < a {
        assert(g.keys[c] != g.keys[a]);
    }
}

/// The failed modules among the first `n` indices: path and reason, in
/// index order.
pub open spec fn failed_upto(g: GraphView, n: int) -> Seq<(Seq<char>, Seq<char>)>
    decreases n,
{
    if n <= 0 {
        Seq::empty()
    } else {
        failed_upto(g, n - 1) + match g.nodes[n - 1] {
            Some(rec) => match rec.status {
                ModuleStatus::Failed(reason) => seq![(g.keys[n - 1], reason@)],
                _ => Seq::empty(),
            },
            None => Seq::empty(),
        }
    }
}

/// The number of modules among the first `n` entries of `nodes` that
/// satisfy `p`.
pub open spec fn count_where(
    nodes: Seq<Option<ModuleRecord>>,
    n: int,
    p: spec_fn(ModuleRecord) -> bool,
) -> nat
    decreases n,
{
    if n <= 0 {
        0
    } else {
        count_where(nodes, n - 1, p) + match nodes[n - 1] {
            Some(rec) => if p(rec) {
                1nat
            } else {
                0nat
            },
            None => 0nat,
        }
    }
}

proof fn lemma_count_where_bound(nodes: Seq<Option<ModuleRecord>>, n: int, p: spec_fn(ModuleRecord) -> bool)
    requires
        0 <= n,
    ensures
        count_where(nodes, n, p) <= n,
    decreases n,
{
    if n > 0 {
        lemma_count_where_bound(nodes, n - 1, p);
    }
}

/// The number of import edges of the first `n` indices.
pub open spec fn edges_upto(deps: Seq<Seq<usize>>, n: int) -> nat
    decreases n,
{
    if n <= 0 {
        0
    } else {
        edges_upto(deps, n - 1) + deps[n - 1].len()
    }
}

proof fn lemma_counts_upto(g: GraphView, n: int)
    requires
        0 <= n <= g.nodes.len(),
    ensures
        count_where(g.nodes, n, |r: ModuleRecord| r.status is Evaluated) + count_where(
            g.nodes,
            n,
            |r: ModuleRecord| r.status is Failed,
        ) + count_where(g.nodes, n, |r: ModuleRecord| !(r.status is Evaluated) && !(r.status is Failed))
            == node_count(g.nodes.take(n)),
        count_where(g.nodes, n, |r: ModuleRecord| r.status is Failed) == failed_upto(g, n).len(),
    decreases n,
{
    if n > 0 {
        lemma_counts_upto(g, n - 1);
        assert(g.nodes.take(n).drop_last() =~= g.nodes.take(n - 1));
        assert(g.nodes.take(n).last() == g.nodes[n - 1]);
    }
}

/// The statistics of a graph add up: every module is evaluated, failed or
/// pending, so those three counts sum to the number of modules; and the
/// failed count is the number of entries `failed_modules` lists.
pub proof fn law_stats_add_up(g: GraphView)
    ensures
        count_where(g.nodes, g.nodes.len() as int, |r: ModuleRecord| r.status is Evaluated)
            + count_where(g.nodes, g.nodes.len() as int, |r: ModuleRecord| r.status is Failed)
            + count_where(
            g.nodes,
            g.nodes.len() as int,
            |r: ModuleRecord| !(r.status is Evaluated) && !(r.status is Failed),
        ) == node_count(g.nodes),
        g.nodes.len() == g.keys.len() ==> count_where(
            g.nodes,
            g.nodes.len() as int,
            |r: ModuleRecord| r.status is Failed,
        ) == failed_upto(g, g.keys.len() as int).len(),
{
    lemma_counts_upto(g, g.nodes.len() as int);
    assert(g.nodes.take(g.nodes.len() as int) =~= g.nodes);
}

proof fn lemma_edges_upto_mono(deps: Seq<Seq<usize>>, m: int, n: int)
    requires
        0 <= m <= n,
    ensures
        edges_upto(deps, m) <= edges_upto(deps, n),
    decreases n - m,
{
    if m < n {
        lemma_edges_upto_mono(deps, m, n - 1);
    }
}

/// Statistics of a graph.
#[derive(Debug)]
pub struct GraphStats {
    pub total: usize,
    pub evaluated: usize,
    pub failed: usize,
    pub pending: usize,
    pub has_top_level_await: usize,
    pub edge_count: usize,
}

impl ModuleGraph {
    /// Well-formedness (see [`graph_wf`]).
    pub closed spec fn wf(&self) -> bool {
        graph_wf(self@)
    }

    /// A well-formed graph has one module entry and one edge list per known
    /// path, each path once, and edges only to known paths.
    pub proof fn lemma_wf(&self)
        requires
            self.wf(),
        ensures
            graph_wf(self@),
    {
    }

    /// An empty graph.
    pub fn new() -> (g: Self)
        ensures
            g.wf(),
            g@.keys.len() == 0,
    {
        let g = ModuleGraph { keys: Vec::new(), nodes: Vec::new(), deps: Vec::new() };
        assert(g@.keys =~= Seq::<Seq<char>>::empty());
        g
    }

    /// The index of path `key`, if known.
    fn find(&self, key: &String) -> (r: Option<usize>)
        requires
            self.wf(),
        ensures
            match r {
                Some(i) => i < self@.keys.len() && index_of(self@, key@) == Some(i as int),
                None => index_of(self@, key@) is None,
            },
    {
        let mut i: usize = 0;
        while i < self.keys.len()
            invariant
                self.wf(),
                i <= self.keys@.len(),
                forall|j: int| 0 <= j < i ==> self@.keys[j] != key@,
            decreases self.keys.len() - i,
        {
            if self.keys[i] == *key {
                assert(self@.keys[i as int] == key@);
                let ghost c = choose|c: int| 0 <= c < self@.keys.len() && self@.keys[c] == key@;
                assert(c == i) by {
                    if c != i {
                        assert(self@.keys[c] != self@.keys[i as int]);
                    }
                }
                return Some(i);
            }
            i = i + 1;
        }
        None
    }

    /// The index of path `key`, adding it (with no module and no edges) if
    /// it was not known.
    fn intern(&mut self, key: &String) -> (i: usize)
        requires
            old(self).wf(),
        ensures
            final(self).wf(),
            final(self)@ == with_key(old(self)@, key@),
            i < final(self)@.keys.len(),
            index_of(final(self)@, key@) == Some(i as int),
    {
        match self.find(key) {
            Some(i) => i,
            None => {
                let ghost g0 = self@;
                let n = self.keys.len();
                self.keys.push(key.clone());
                self.nodes.push(None);
                self.deps.push(Vec::new());
                assert(self@.keys =~= g0.keys.push(key@));
                assert(self@.nodes =~= g0.nodes.push(None));
                assert(self@.deps =~= g0.deps.push(Seq::empty()));
                assert(self@.keys[n as int] == key@);
                assert forall|i: int, j: int|
                    0 <= i < self@.deps.len() && 0 <= j < self@.deps[i].len() implies #[trigger] self@.deps[i][j]
                    < self@.keys.len() by {
                    if i < n {
                        assert(self@.deps[i] == g0.deps[i]);
                    }
                }
                let ghost c = choose|c: int| 0 <= c < self@.keys.len() && self@.keys[c] == key@;
                assert(c == n) by {
                    if c < n {
                        assert(g0.keys[c] == key@);
                    }
                }
                n
            },
        }
    }

    /// Inserts a module record, under its resolved path. Its import edges
    /// start empty.
    pub fn insert(&mut self, record: ModuleRecord)
        requires
            old(self).wf(),
        ensures
            final(self).wf(),
            ({
                let g1 = with_key(old(self)@, record.resolved_path@);
                let i = index_of(g1, record.resolved_path@)->0;
                &&& final(self)@.keys == g1.keys
                &&& final(self)@.nodes == g1.nodes.update(i, Some(record))
                &&& final(self)@.deps == g1.deps.update(i, Seq::empty())
            }),
    {
        let key = record.resolved_path.clone();
        let i = self.intern(&key);
        let ghost g1 = self@;
        self.deps.set(i, Vec::new());
        self.nodes.set(i, Some(record));
        assert(self@.deps =~= g1.deps.update(i as int, Seq::empty()));
        assert(self@.keys =~= g1.keys);
        assert forall|a: int, b: int|
            0 <= a < self@.deps.len() && 0 <= b < self@.deps[a].len() implies #[trigger] self@.deps[a][b]
            < self@.keys.len() by {
            assert(a != i);
            assert(self@.deps[a] == g1.deps[a]);
        }
    }

    /// Adds a dependency edge: `from` imports `to`.
    pub fn add_edge(&mut self, from: &String, to: &String)
        requires
            old(self).wf(),
        ensures
            final(self).wf(),
            ({
                let g2 = with_key(with_key(old(self)@, from@), to@);
                let f = index_of(g2, from@)->0;
                let t = index_of(g2, to@)->0;
                &&& final(self)@.keys == g2.keys
                &&& final(self)@.nodes == g2.nodes
                &&& final(self)@.deps == g2.deps.update(f, g2.deps[f].push(t as usize))
            }),
    {
        let f0 = self.intern(from);
        let ghost g1 = self@;
        let t = self.intern(to);
        let ghost g2 = self@;
        let f = f0;
        proof {
            assert(g2.keys[f as int] == g1.keys[f as int]);
            lemma_index_of(g2, f as int);
        }
        let mut d = Vec::new();
        std::mem::swap(&mut d, &mut self.deps[f]);
        d.push(t);
        self.deps.set(f, d);
        assert(self@.deps =~= g2.deps.update(f as int, g2.deps[f as int].push(t)));
        assert(self@.keys =~= g2.keys);
        assert forall|a: int, b: int|
            0 <= a < self@.deps.len() && 0 <= b < self@.deps[a].len() implies #[trigger] self@.deps[a][b]
            < self@.keys.len() by {
            if a != f {
                assert(self@.deps[a] == g2.deps[a]);
            } else if b < g2.deps[a].len() {
                assert(self@.deps[a][b] == g2.deps[a][b]);
            }
        }
    }

    /// The module inserted under `path`.
    pub fn get(&self, path: &String) -> (r: Option<&ModuleRecord>)
        requires
            self.wf(),
        ensures
            match index_of(self@, path@) {
                Some(i) => match self@.nodes[i] {
                    Some(rec) => r == Some(&rec),
                    None => r is None,
                },
                None => r is None,
            },
    {
        match self.find(path) {
            Some(i) => match &self.nodes[i] {
                Some(rec) => Some(rec),
                None => None,
            },
            None => None,
        }
    }

    /// The module inserted under `path`, for update in place.
    pub fn get_mut(&mut self, path: &String) -> (r: Option<&mut ModuleRecord>)
        requires
            old(self).wf(),
        ensures
            final(self)@.keys == old(self)@.keys,
            final(self)@.deps == old(self)@.deps,
            match index_of(old(self)@, path@) {
                Some(i) => match old(self)@.nodes[i] {
                    Some(rec) => r matches Some(m) && *m == rec && final(self)@.nodes == old(
                        self,
                    )@.nodes.update(i, Some(*final(m))),
                    None => r is None && final(self)@.nodes == old(self)@.nodes,
                },
                None => r is None && final(self)@.nodes == old(self)@.nodes,
            },
    {
        match self.find(path) {
            Some(i) => self.nodes[i].as_mut(),
            None => None,
        }
    }

    /// Whether a module was inserted under `path`.
    pub fn contains(&self, path: &String) -> (r: bool)
        requires
            self.wf(),
        ensures
            r == (index_of(self@, path@) matches Some(i) && self@.nodes[i] is Some),
    {
        match self.find(path) {
            Some(i) => self.nodes[i].is_some(),
            None => false,
        }
    }

    /// Depth-first search from `u`: visits every unvisited index reachable
    /// from `u` and appends the modules among them in post-order.
    fn dfs(
        &self,
        u: usize,
        mark: &mut Vec<u8>,
        order: &mut Vec<usize>,
        Ghost(stack): Ghost<Seq<int>>,
        Ghost(entry): Ghost<int>,
    )
        requires
            self.wf(),
            u < self@.keys.len(),
            old(mark)@[u as int] == 0,
            dfs_inv(self@, old(mark)@, old(order)@, entry),
            forall|x: int| 0 <= x < old(mark)@.len() ==> (#[trigger] old(mark)@[x] == 1 <==> stack.contains(x)),
            forall|i: int| 0 <= i < stack.len() ==> reaches(self@, #[trigger] stack[i], u as int),
            reaches(self@, entry, u as int),
        ensures
            dfs_inv(self@, final(mark)@, final(order)@, entry),
            final(mark)@[u as int] == 2,
            forall|x: int| 0 <= x < old(mark)@.len() ==> (#[trigger] final(mark)@[x] == 1 <==> old(mark)@[x] == 1),
            forall|x: int| 0 <= x < old(mark)@.len() && old(mark)@[x] == 2 ==> #[trigger] final(mark)@[x] == 2,
            forall|x: int|
                0 <= x < old(mark)@.len() && old(mark)@[x] == 0 && #[trigger] final(mark)@[x] == 2
                    ==> reaches(self@, u as int, x),
            final(order)@.len() >= old(order)@.len(),
            final(order)@.subrange(0, old(order)@.len() as int) == old(order)@,
            is_node(self@, u as int) ==> final(order)@.last() == u,
            forall|fuel: nat|
                fuel >= count_white(old(mark)@) ==> #[trigger] dfs_visit(
                    self@,
                    old(mark)@,
                    old(order)@,
                    u as int,
                    fuel,
                ) == (final(mark)@, final(order)@),
        decreases count_white(old(mark)@),
    {
        let ghost g = self@;
        let ghost m0 = mark@;
        let ghost o0 = order@;
        let ghost stack2 = stack.push(u as int);
        mark.set(u, 1);
        let ghost m1s = mark@;
        proof {
            lemma_reach_refl(g, u as int);
            lemma_count_white_mono(m0, mark@);
            assert(mark@ == m0.update(u as int, 1));
            assert forall|x: int| 0 <= x < mark@.len() && #[trigger] mark@[x] == 2 implies m0[x] == 2 by {}
            assert forall|x: int, y: int|
                0 <= x < mark@.len() && mark@[x] == 2 && #[trigger] edge(g, x, y) implies mark@[y] != 0 by {
                assert(m0[x] == 2);
                assert(m0[y] != 0);
            }
            assert forall|i: int| 0 <= i < order@.len() implies order@[i] < mark@.len() && mark@[order@[i] as int] == 2 && is_node(
                g,
                #[trigger] order@[i] as int,
            ) by {
                assert(m0[order@[i] as int] == 2);
            }
            assert forall|x: int| 0 <= x < mark@.len() implies (#[trigger] mark@[x] == 1 <==> stack2.contains(x)) by {
                if x == u {
                    assert(stack2[stack.len() as int] == u);
                } else {
                    assert(m0[x] == 1 <==> stack.contains(x));
                    if stack.contains(x) {
                        let c = choose|c: int| 0 <= c < stack.len() && stack[c] == x;
                        assert(stack2[c] == x);
                    }
                    if stack2.contains(x) {
                        let c = choose|c: int| 0 <= c < stack2.len() && stack2[c] == x;
                        assert(c < stack.len());
                        assert(stack[c] == x);
                    }
                }
            }
            assert(count_white(mark@) < count_white(m0)) by {
                assert(m0[u as int] == 0 && mark@[u as int] != 0);
            }
            assert(order@.subrange(0, o0.len() as int) =~= o0);
        }
        let mut k: usize = 0;
        while k < self.deps[u].len()
            invariant
                self.wf(),
                g == self@,
                u < g.keys.len(),
                mark@.len() == m0.len(),
                mark@[u as int] == 1,
                m0.len() == g.keys.len(),
                m0 == old(mark)@,
                stack2 == stack.push(u as int),
                forall|x: int| 0 <= x < mark@.len() ==> #[trigger] mark@[x] <= 2,
                forall|x: int, y: int|
                    0 <= x < mark@.len() && mark@[x] == 2 && #[trigger] edge(g, x, y) ==> mark@[y] != 0,
                forall|x: int| 0 <= x < mark@.len() && #[trigger] mark@[x] == 2 ==> reaches(g, entry, x),
                forall|i: int|
                    0 <= i < order@.len() ==> order@[i] < mark@.len() && mark@[order@[i] as int] == 2 && is_node(
                        g,
                        #[trigger] order@[i] as int,
                    ),
                forall|i: int, j: int| 0 <= i < j < order@.len() ==> order@[i] != order@[j],
                forall|x: int|
                    0 <= x < mark@.len() && mark@[x] == 2 && #[trigger] is_node(g, x) ==> order@.contains(
                        x as usize,
                    ),
                forall|i: int, j: int|
                    0 <= i < j < order@.len() && #[trigger] edge(g, order@[i] as int, order@[j] as int)
                        ==> reaches(g, order@[j] as int, order@[i] as int),
                forall|x: int| 0 <= x < mark@.len() ==> (#[trigger] mark@[x] == 1 <==> stack2.contains(x)),
                forall|i: int| 0 <= i < stack.len() ==> reaches(g, #[trigger] stack[i], u as int),
                reaches(g, entry, u as int),
                reaches(g, u as int, u as int),
                forall|x: int| 0 <= x < m0.len() && m0[x] == 2 ==> #[trigger] mark@[x] == 2,
                forall|x: int| 0 <= x < m0.len() && #[trigger] mark@[x] == 2 ==> m0[x] == 2 || (m0[x] == 0
                    && reaches(g, u as int, x)),
                forall|x: int| 0 <= x < m0.len() && m0[x] == 1 ==> #[trigger] mark@[x] == 1,
                count_white(mark@) < count_white(m0),
                forall|x: int| 0 <= x < m0.len() && mark@[x] == 0 ==> #[trigger] m0[x] == 0,
                forall|j: int| 0 <= j < k ==> mark@[#[trigger] g.deps[u as int][j] as int] != 0,
                k <= g.deps[u as int].len(),
                order@.len() >= o0.len(),
                order@.subrange(0, o0.len() as int) == o0,
                forall|i: int| o0.len() <= i < order@.len() ==> m0[#[trigger] order@[i] as int] == 0,
                m1s == m0.update(u as int, 1),
                count_white(mark@) <= count_white(m1s),
                forall|f: nat|
                    f >= count_white(m1s) ==> #[trigger] dfs_deps(g, m1s, o0, u as int, 0, f) == dfs_deps(
                        g,
                        mark@,
                        order@,
                        u as int,
                        k as int,
                        f,
                    ),
            decreases g.deps[u as int].len() - k,
        {
            let v = self.deps[u][k];
            let ghost mb = mark@;
            let ghost ob = order@;
            proof {
                assert(g.deps[u as int][k as int] == v);
                assert(edge(g, u as int, v as int)) by {
                    assert(g.deps[u as int][k as int] == v);
                }
            }
            if mark[v] == 0 {
                let ghost m1 = mark@;
                let ghost o1 = order@;
                proof {
                    lemma_reach_step(g, entry, u as int, v as int);
                    assert forall|i: int| 0 <= i < stack2.len() implies reaches(g, #[trigger] stack2[i], v as int) by {
                        if i < stack.len() {
                            assert(stack2[i] == stack[i]);
                            assert(reaches(g, stack[i], u as int));
                            lemma_reach_step(g, stack[i], u as int, v as int);
                        } else {
                            assert(stack2[i] == u as int);
                            lemma_reach_step(g, u as int, u as int, v as int);
                        }
                    }
                }
                assert(count_white(mark@) < count_white(m0));
                self.dfs(v, mark, order, Ghost(stack2), Ghost(entry));
                proof {
                    lemma_reach_step(g, u as int, u as int, v as int);
                    assert forall|x: int| 0 <= x < m0.len() && #[trigger] mark@[x] == 2 implies m0[x] == 2 || (m0[x] == 0
                        && reaches(g, u as int, x)) by {
                        if m1[x] != 2 {
                            assert(m1[x] == 0);
                            lemma_reach_trans(g, u as int, v as int, x);
                        }
                    }
                    lemma_count_white_mono(m1, mark@);
                    assert forall|i: int| o0.len() <= i < order@.len() implies m0[#[trigger] order@[i] as int] == 0 by {
                        if i < o1.len() {
                            assert(order@[i] == o1[i]);
                        } else {
                            let w = order@[i] as int;
                            assert(mark@[w] == 2);
                            assert(m1[w] != 2) by {
                                if m1[w] == 2 {
                                    assert(o1.contains(w as usize));
                                    let c = choose|c: int| 0 <= c < o1.len() && o1[c] == w as usize;
                                    assert(order@[c] == o1[c]);
                                }
                            }
                        }
                    }
                    assert(order@.subrange(0, o0.len() as int) =~= o1.subrange(0, o0.len() as int));
                }
            }
            proof {
                assert forall|f: nat| f >= count_white(m1s) implies #[trigger] dfs_deps(g, m1s, o0, u as int, 0, f)
                    == dfs_deps(g, mark@, order@, u as int, k + 1, f) by {
                    assert(dfs_deps(g, m1s, o0, u as int, 0, f) == dfs_deps(g, mb, ob, u as int, k as int, f));
                    if mb[v as int] == 0 {
                        assert(dfs_visit(g, mb, ob, v as int, f) == (mark@, order@));
                    }
                }
            }
            k = k + 1;
        }
        let ghost m2 = mark@;
        let ghost o2 = order@;
        assert(k == g.deps[u as int].len());
        assert forall|f: nat| f >= count_white(m1s) implies #[trigger] dfs_deps(g, m1s, o0, u as int, 0, f)
            == (m2, o2) by {
            assert(dfs_deps(g, m1s, o0, u as int, 0, f) == dfs_deps(g, m2, o2, u as int, k as int, f));
        }
        mark.set(u, 2);
        assert(mark@ == m2.update(u as int, 2));
        proof {
            assert(self.deps.len() == g.deps.len());
            assert forall|y: int| #[trigger] edge(g, u as int, y) implies mark@[y] != 0 by {
                assert(g.deps[u as int].contains(y as usize));
                let j = choose|j: int| 0 <= j < g.deps[u as int].len() && g.deps[u as int][j] == y as usize;
                assert(g.deps[u as int][j] as int == y);
                assert(m2[g.deps[u as int][j] as int] != 0);
                assert(m2[y] != 0);
            }
        }
        if self.nodes[u].is_some() {
            order.push(u);
            proof {
                assert(!o2.contains(u)) by {
                    if o2.contains(u) {
                        let c = choose|c: int| 0 <= c < o2.len() && o2[c] == u;
                        assert(m2[o2[c] as int] == 2);
                    }
                }
                assert forall|i: int, j: int|
                    0 <= i < j < order@.len() && #[trigger] edge(g, order@[i] as int, order@[j] as int)
                        implies reaches(g, order@[j] as int, order@[i] as int) by {
                    if j == order@.len() - 1 {
                        let w = order@[i] as int;
                        assert(order@[i] == o2[i]);
                        if i < o0.len() {
                            assert(o2[i] == o0[i]);
                            assert(m0[w] == 2);
                            assert(m0[u as int] != 0);
                        } else {
                            assert(m0[w] == 0);
                            assert(m2[w] == 2);
                        }
                    } else {
                        assert(order@[i] == o2[i] && order@[j] == o2[j]);
                    }
                }
                assert forall|x: int|
                    0 <= x < mark@.len() && mark@[x] == 2 && #[trigger] is_node(g, x) implies order@.contains(
                        x as usize,
                    ) by {
                    if x == u {
                        assert(order@[order@.len() - 1] == u);
                    } else {
                        let c = choose|c: int| 0 <= c < o2.len() && o2[c] == x as usize;
                        assert(order@[c] == o2[c]);
                    }
                }
                assert(order@.subrange(0, o0.len() as int) =~= o2.subrange(0, o0.len() as int));
            }
        }
        proof {
            assert forall|x: int| 0 <= x < mark@.len() && #[trigger] mark@[x] == 2 implies reaches(g, entry, x) by {
                if x != u {
                    assert(m2[x] == 2);
                }
            }
            assert forall|x: int, y: int|
                0 <= x < mark@.len() && mark@[x] == 2 && #[trigger] edge(g, x, y) implies mark@[y] != 0 by {
                if x != u {
                    assert(m2[x] == 2);
                    assert(m2[y] != 0);
                }
            }
            assert forall|i: int| 0 <= i < order@.len() implies order@[i] < mark@.len() && mark@[order@[i] as int] == 2 && is_node(
                g,
                #[trigger] order@[i] as int,
            ) by {
                if i < o2.len() {
                    assert(order@[i] == o2[i]);
                }
            }
            assert forall|x: int|
                0 <= x < mark@.len() && mark@[x] == 2 && #[trigger] is_node(g, x) implies order@.contains(
                    x as usize,
                ) by {
                if x != u {
                    assert(m2[x] == 2);
                }
            }
            assert(order@ == if is_node(g, u as int) {
                o2.push(u)
            } else {
                o2
            });
            assert forall|fuel: nat| fuel >= count_white(m0) implies #[trigger] dfs_visit(
                g,
                m0,
                o0,
                u as int,
                fuel,
            ) == (mark@, order@) by {
                assert(m0.update(u as int, 1) == m1s);
                assert(dfs_deps(g, m1s, o0, u as int, 0, (fuel - 1) as nat) == (m2, o2));
            }
        }
    }

    /// The evaluation order of the modules reachable from `entry`,
    /// dependencies first (a depth-first post-order over the import edges;
    /// cyclic imports are allowed, see [`valid_eval_order`]). An error when
    /// no module was inserted under `entry`.
    pub fn eval_order(&self, entry: &String) -> (r: Result<EvalOrder, BuaError>)
        requires
            self.wf(),
        ensures
            r is Ok <==> path_is_node(self@, entry@),
            r matches Err(e) ==> (e matches BuaError::ModuleNotFound { specifier }
                && specifier@ == entry@),
            r matches Ok(ord) ==> valid_eval_order(
                self@,
                entry@,
                ord.0@.map_values(|s: String| s@),
            ),
            r matches Ok(ord) ==> ord.0@.map_values(|s: String| s@) == dfs_eval_order(self@, entry@),
    {
        let ghost g = self@;
        let e = match self.find(entry) {
            Some(e) => e,
            None => {
                proof {
                    if path_is_node(g, entry@) {
                        let a = choose|a: int| 0 <= a < g.keys.len() && g.keys[a] == entry@ && #[trigger] is_node(g, a);
                        assert(index_of(g, entry@) is Some);
                    }
                }
                return Err(BuaError::ModuleNotFound { specifier: entry.clone() });
            },
        };
        proof {
            lemma_index_of(g, e as int);
        }
        if self.nodes[e].is_none() {
            proof {
                if path_is_node(g, entry@) {
                    let a = choose|a: int| 0 <= a < g.keys.len() && g.keys[a] == entry@ && #[trigger] is_node(g, a);
                    lemma_key_unique(g, a, e as int);
                }
            }
            return Err(BuaError::ModuleNotFound { specifier: entry.clone() });
        }
        assert(is_node(g, e as int));
        let n = self.keys.len();
        let mut mark: Vec<u8> = Vec::new();
        let mut i: usize = 0;
        while i < n
            invariant
                i <= n,
                n == g.keys.len(),
                mark@.len() == i,
                forall|x: int| 0 <= x < i ==> mark@[x] == 0,
            decreases n - i,
        {
            mark.push(0);
            i = i + 1;
        }
        let mut order: Vec<usize> = Vec::new();
        let ghost z = Seq::new(g.keys.len(), |i: int| 0u8);
        assert(mark@ =~= z);
        proof {
            lemma_reach_refl(g, e as int);
            assert(order@.len() == 0);
            assert(dfs_inv(g, mark@, order@, e as int));
        }
        self.dfs(e, &mut mark, &mut order, Ghost(Seq::empty()), Ghost(e as int));
        let ghost ids = order@;
        assert(dfs_visit(g, z, Seq::empty(), e as int, count_white(z)) == (mark@, order@));
        let mut out: Vec<String> = Vec::new();
        let mut k: usize = 0;
        while k < order.len()
            invariant
                self.wf(),
                g == self@,
                dfs_inv(g, mark@, order@, e as int),
                k <= order@.len(),
                out@.len() == k,
                forall|j: int| 0 <= j < k ==> out@[j]@ == g.keys[order@[j] as int],
            decreases order.len() - k,
        {
            let id = order[k];
            out.push(self.keys[id].clone());
            k = k + 1;
        }
        let ghost ov = out@.map_values(|s: String| s@);
        assert(ov =~= dfs_eval_order(g, entry@)) by {
            assert(index_of(g, entry@) == Some(e as int));
        }
        proof {
            assert forall|x: int| 0 <= x < mark@.len() implies #[trigger] mark@[x] != 1 by {}
            assert forall|j: int| 0 <= j < ov.len() implies ov[j] == g.keys[ids[j] as int] by {}
            // the entry comes last
            assert(ov.last() == entry@);
            // each module once
            assert forall|a: int, b: int| 0 <= a < b < ov.len() implies ov[a] != ov[b] by {
                if ov[a] == ov[b] {
                    lemma_key_unique(g, ids[a] as int, ids[b] as int);
                }
            }
            // each module reachable from the entry
            assert forall|j: int| 0 <= j < ov.len() implies path_is_node(g, #[trigger] ov[j])
                && path_reaches(g, entry@, ov[j]) by {
                let w = ids[j] as int;
                assert(is_node(g, w));
                assert(mark@[w] == 2);
                assert(reaches(g, e as int, w));
            }
            // every reachable module appears
            let black = Set::new(|x: int| 0 <= x < mark@.len() && mark@[x] == 2);
            assert forall|x: int, y: int| black.contains(x) && #[trigger] edge(g, x, y) implies black.contains(y) by {
                assert(mark@[y] != 0);
                assert(mark@[y] != 1);
            }
            assert forall|kk: Seq<char>| #[trigger] path_is_node(g, kk) && path_reaches(g, entry@, kk) implies ov.contains(kk) by {
                let a = choose|a: int| 0 <= a < g.keys.len() && g.keys[a] == kk && #[trigger] is_node(g, a);
                let (a1, b1) = choose|a1: int, b1: int|
                    0 <= a1 < g.keys.len() && 0 <= b1 < g.keys.len() && g.keys[a1] == entry@ && g.keys[b1] == kk
                        && #[trigger] reaches(g, a1, b1);
                lemma_key_unique(g, a1, e as int);
                lemma_key_unique(g, b1, a);
                lemma_closed_holds_reachable(g, black, e as int, a);
                assert(order@.contains(a as usize));
                let c = choose|c: int| 0 <= c < order@.len() && order@[c] == a as usize;
                assert(ov[c] == kk);
            }
            // dependencies first, but for cycles
            assert forall|a: int, b: int|
                0 <= a < b < ov.len() && #[trigger] path_imports(g, ov[a], ov[b]) implies path_reaches(
                    g,
                    ov[b],
                    ov[a],
                ) by {
                let (x, y) = choose|x: int, y: int|
                    0 <= x < g.keys.len() && 0 <= y < g.keys.len() && g.keys[x] == ov[a] && g.keys[y] == ov[b]
                        && #[trigger] edge(g, x, y);
                lemma_key_unique(g, x, ids[a] as int);
                lemma_key_unique(g, y, ids[b] as int);
                assert(reaches(g, ids[b] as int, ids[a] as int));
            }
        }
        Ok(EvalOrder(out))
    }

    /// The failed modules, with their reasons, in the order they were first
    /// known.
    pub fn failed_modules(&self) -> (r: Vec<(&str, &str)>)
        requires
            self.wf(),
        ensures
            r@.map_values(|p: (&str, &str)| (p.0@, p.1@)) == failed_upto(self@, self@.keys.len() as int),
    {
        let ghost g = self@;
        let mut out: Vec<(&str, &str)> = Vec::new();
        let mut i: usize = 0;
        while i < self.nodes.len()
            invariant
                self.wf(),
                g == self@,
                i <= g.nodes.len(),
                out@.map_values(|p: (&str, &str)| (p.0@, p.1@)) == failed_upto(g, i as int),
            decreases self.nodes.len() - i,
        {
            match &self.nodes[i] {
                Some(rec) => match rec.status.failed_reason() {
                    Some(reason) => {
                        out.push((self.keys[i].as_str(), reason));
                    },
                    None => {},
                },
                None => {},
            }
            assert(out@.map_values(|p: (&str, &str)| (p.0@, p.1@)) =~= failed_upto(g, i + 1));
            i = i + 1;
        }
        out
    }

    /// Statistics for observability: the number of modules, of evaluated,
    /// failed and other modules, of modules with top-level await, and of
    /// import edges.
    pub fn stats(&self) -> (s: GraphStats)
        requires
            self.wf(),
            edges_upto(self@.deps, self@.deps.len() as int) <= usize::MAX,
        ensures
            s.total == node_count(self@.nodes),
            s.evaluated == count_where(self@.nodes, self@.nodes.len() as int, |r: ModuleRecord| r.status is Evaluated),
            s.failed == count_where(self@.nodes, self@.nodes.len() as int, |r: ModuleRecord| r.status is Failed),
            s.pending == count_where(
                self@.nodes,
                self@.nodes.len() as int,
                |r: ModuleRecord| !(r.status is Evaluated) && !(r.status is Failed),
            ),
            s.has_top_level_await == count_where(self@.nodes, self@.nodes.len() as int, |r: ModuleRecord| r.has_top_level_await),
            s.edge_count == edges_upto(self@.deps, self@.deps.len() as int),
    {
        let ghost g = self@;
        let ghost pe = |r: ModuleRecord| r.status is Evaluated;
        let ghost pf = |r: ModuleRecord| r.status is Failed;
        let ghost pp = |r: ModuleRecord| !(r.status is Evaluated) && !(r.status is Failed);
        let ghost pt = |r: ModuleRecord| r.has_top_level_await;
        let mut evaluated: usize = 0;
        let mut failed: usize = 0;
        let mut pending: usize = 0;
        let mut has_tla: usize = 0;
        let mut edges: usize = 0;
        let mut i: usize = 0;
        while i < self.nodes.len()
            invariant
                self.wf(),
                g == self@,
                edges_upto(g.deps, g.deps.len() as int) <= usize::MAX,
                i <= g.nodes.len(),
                pe == (|r: ModuleRecord| r.status is Evaluated),
                pf == (|r: ModuleRecord| r.status is Failed),
                pp == (|r: ModuleRecord| !(r.status is Evaluated) && !(r.status is Failed)),
                pt == (|r: ModuleRecord| r.has_top_level_await),
                evaluated == count_where(g.nodes, i as int, pe),
                failed == count_where(g.nodes, i as int, pf),
                pending == count_where(g.nodes, i as int, pp),
                has_tla == count_where(g.nodes, i as int, pt),
                edges == edges_upto(g.deps, i as int),
            decreases self.nodes.len() - i,
        {
            proof {
                lemma_count_where_bound(g.nodes, i as int, pe);
                lemma_count_where_bound(g.nodes, i as int, pf);
                lemma_count_where_bound(g.nodes, i as int, pp);
                lemma_count_where_bound(g.nodes, i as int, pt);
                lemma_edges_upto_mono(g.deps, i + 1, g.deps.len() as int);
            }
            match &self.nodes[i] {
                Some(rec) => {
                    match &rec.status {
                        ModuleStatus::Evaluated => {
                            evaluated = evaluated + 1;
                        },
                        ModuleStatus::Failed(_) => {
                            failed = failed + 1;
                        },
                        _ => {
                            pending = pending + 1;
                        },
                    }
                    if rec.has_top_level_await {
                        has_tla = has_tla + 1;
                    }
                },
                None => {},
            }
            edges = edges + self.deps[i].len();
            i = i + 1;
        }
        let total = self.len();
        GraphStats {
            total,
            evaluated,
            failed,
            pending,
            has_top_level_await: has_tla,
            edge_count: edges,
        }
    }

    /// The number of modules in the graph.
    pub fn len(&self) -> (n: usize)
        ensures
            n == node_count(self@.nodes),
    {
        let mut n: usize = 0;
        let mut i: usize = 0;
        while i < self.nodes.len()
            invariant
                i <= self.nodes@.len(),
                n == node_count(self.nodes@.take(i as int)),
            decreases self.nodes.len() - i,
        {
            proof {
                assert(self.nodes@.take(i + 1).drop_last() =~= self.nodes@.take(i as int));
                lemma_node_count_bound(self.nodes@.take(i as int));
            }
            if self.nodes[i].is_some() {
                n = n + 1;
            }
            i = i + 1;
        }
        assert(self.nodes@.take(i as int) =~= self.nodes@);
        n
    }
}

} // verus!
