//! The parent/child hierarchy of the nodes on the canvas, with entities
//! named by their 64-bit ids, and the search that keeps a node from being
//! moved under its own subtree.
use vstd::prelude::*;
use vstd::set_lib::lemma_len_subset;

verus! {

/// The children of one entity, in order.
pub struct HierarchyEntry {
    pub entity: u64,
    pub children: Vec<u64>,
}

/// A snapshot of the hierarchy: the entities that have children, each with
/// its children.
pub struct Hierarchy {
    pub entries: Vec<HierarchyEntry>,
}

/// Every child listed anywhere in `entries`, entry by entry.
pub open spec fn listed_children(entries: Seq<HierarchyEntry>) -> Seq<u64>
    decreases entries.len(),
{
    if entries.len() == 0 {
        Seq::empty()
    } else {
        listed_children(entries.drop_last()) + entries.last().children@
    }
}

impl Hierarchy {
    /// `child` is listed among the children of `parent`.
    pub open spec fn child_edge(&self, parent: u64, child: u64) -> bool {
        exists|i: int|
            0 <= i < self.entries@.len() && #[trigger] self.entries@[i].entity == parent
                && self.entries@[i].children@.contains(child)
    }

    /// `path` walks from parent to child at each step.
    pub open spec fn is_path(&self, path: Seq<u64>) -> bool {
        &&& path.len() >= 1
        &&& forall|k: int| 0 <= k < path.len() - 1 ==> #[trigger] self.child_edge(path[k], path[k + 1])
    }

    /// `to` is `from` itself or lies in the subtree below `from`.
    pub open spec fn reaches(&self, from: u64, to: u64) -> bool {
        exists|path: Seq<u64>| #[trigger] self.is_path(path) && path[0] == from && path.last() == to
    }

    /// The entities that a search from `from` can meet.
    pub open spec fn search_space(&self, from: u64) -> Set<u64> {
        listed_children(self.entries@).to_set().insert(from)
    }

    /// Whether `target` is `ancestor` itself or one of its descendants.
    pub fn is_descendant(&self, target: u64, ancestor: u64) -> (res: bool)
        ensures
            res == self.reaches(ancestor, target),
    {
        if target == ancestor {
            proof {
                assert(self.is_path(seq![ancestor]));
            }
            return true;
        }
        proof {
            self.lemma_reaches_self(ancestor);
        }
        let mut seen: Vec<u64> = Vec::new();
        seen.push(ancestor);
        let mut next: usize = 0;
        while next < seen.len()
            invariant
                self.search_inv(ancestor, target, seen@),
                next <= seen.len(),
                forall|k: int, c: u64|
                    0 <= k < next && #[trigger] self.child_edge(seen@[k], c) ==> seen@.contains(c),
            decreases self.search_space(ancestor).len() - next,
        {
            proof {
                self.lemma_seen_bounded(ancestor, seen@);
            }
            let node = seen[next];
            let ghost before = seen@;
            let mut i: usize = 0;
            while i < self.entries.len()
                invariant
                    self.search_inv(ancestor, target, seen@),
                    next < seen.len(),
                    seen@[next as int] == node,
                    before.len() <= seen@.len(),
                    forall|k: int| 0 <= k < before.len() ==> seen@[k] == before[k],
                    forall|k: int, c: u64|
                        0 <= k < next && #[trigger] self.child_edge(seen@[k], c) ==> seen@.contains(c),
                    forall|i2: int, c: u64|
                        0 <= i2 < i && self.entries@[i2].entity == node
                            && #[trigger] self.entries@[i2].children@.contains(c) ==> seen@.contains(c),
                    i <= self.entries.len(),
                decreases self.entries.len() - i,
            {
                if self.entries[i].entity == node {
                    let kids = &self.entries[i].children;
                    let mut j: usize = 0;
                    while j < kids.len()
                        invariant
                            kids@ == self.entries@[i as int].children@,
                            self.entries@[i as int].entity == node,
                            i < self.entries.len(),
                            self.search_inv(ancestor, target, seen@),
                            next < seen.len(),
                            seen@[next as int] == node,
                            before.len() <= seen@.len(),
                            forall|k: int| 0 <= k < before.len() ==> seen@[k] == before[k],
                            forall|k: int, c: u64|
                                0 <= k < next && #[trigger] self.child_edge(seen@[k], c)
                                    ==> seen@.contains(c),
                            forall|i2: int, c: u64|
                                0 <= i2 < i && self.entries@[i2].entity == node
                                    && #[trigger] self.entries@[i2].children@.contains(c) ==> seen@.contains(c),
                            forall|j2: int| 0 <= j2 < j ==> seen@.contains(#[trigger] kids@[j2]),
                            j <= kids.len(),
                        decreases kids.len() - j,
                    {
                        let c = kids[j];
                        proof {
                            assert(self.entries@[i as int].children@.contains(c));
                            assert(self.child_edge(node, c));
                            assert(seen@.contains(node));
                            self.lemma_reaches_step(ancestor, node, c);
                            self.lemma_listed_child_in_space(ancestor, i as int, c);
                        }
                        if c == target {
                            assert(self.reaches(ancestor, node));
                            assert(self.reaches(ancestor, target));
                            return true;
                        }
                        if !vec_contains(&seen, c) {
                            let ghost prev = seen@;
                            seen.push(c);
                            proof {
                                assert forall|x: u64| prev.contains(x) implies seen@.contains(x) by {
                                    let k = choose|k: int| 0 <= k < prev.len() && prev[k] == x;
                                    assert(seen@[k] == x);
                                }
                                assert(seen@[seen@.len() - 1] == c);
                                assert(seen@.no_duplicates());
                            }
                        }
                        j = j + 1;
                    }
                    proof {
                        assert forall|c: u64|
                            self.entries@[i as int].children@.contains(c) implies seen@.contains(c) by {
                            let j2 = choose|j2: int| 0 <= j2 < kids@.len() && kids@[j2] == c;
                            assert(seen@.contains(kids@[j2]));
                        }
                    }
                }
                i = i + 1;
            }
            proof {
                assert forall|k: int, c: u64|
                    0 <= k < next + 1 && #[trigger] self.child_edge(seen@[k], c) implies seen@.contains(
                        c,
                    ) by {
                    if k == next {
                        let i2 = choose|i2: int|
                            0 <= i2 < self.entries@.len() && #[trigger] self.entries@[i2].entity
                                == seen@[k] && self.entries@[i2].children@.contains(c);
                        assert(self.entries@[i2].entity == node);
                    }
                }
            }
            next = next + 1;
        }
        proof {
            self.lemma_closed_search_finds_all(ancestor, target, seen@);
        }
        false
    }

    /// The invariant of the search from `ancestor`: `seen` starts at
    /// `ancestor`, holds no entity twice, only entities below `ancestor`
    /// within the search space, and not `target`.
    pub open spec fn search_inv(&self, ancestor: u64, target: u64, seen: Seq<u64>) -> bool {
        &&& seen.len() > 0
        &&& seen[0] == ancestor
        &&& seen.no_duplicates()
        &&& forall|k: int| 0 <= k < seen.len() ==> self.reaches(ancestor, #[trigger] seen[k])
        &&& forall|k: int| 0 <= k < seen.len() ==> self.search_space(ancestor).contains(#[trigger] seen[k])
        &&& !seen.contains(target)
    }

    proof fn lemma_reaches_self(&self, a: u64)
        ensures
            self.reaches(a, a),
    {
        assert(self.is_path(seq![a]));
    }

    proof fn lemma_reaches_step(&self, a: u64, b: u64, c: u64)
        requires
            self.reaches(a, b),
            self.child_edge(b, c),
        ensures
            self.reaches(a, c),
    {
        let path = choose|path: Seq<u64>| #[trigger] self.is_path(path) && path[0] == a && path.last() == b;
        let longer = path.push(c);
        assert forall|k: int| 0 <= k < longer.len() - 1 implies #[trigger] self.child_edge(
            longer[k],
            longer[k + 1],
        ) by {
            if k < path.len() - 1 {
                assert(longer[k] == path[k] && longer[k + 1] == path[k + 1]);
            }
        }
        assert(self.is_path(longer));
    }

    proof fn lemma_listed_child_in_space(&self, a: u64, i: int, c: u64)
        requires
            0 <= i < self.entries@.len(),
            self.entries@[i].children@.contains(c),
        ensures
            self.search_space(a).contains(c),
    {
        lemma_listed_children_contains(self.entries@, i, c);
    }

    proof fn lemma_seen_bounded(&self, a: u64, seen: Seq<u64>)
        requires
            seen.no_duplicates(),
            forall|k: int| 0 <= k < seen.len() ==> self.search_space(a).contains(#[trigger] seen[k]),
        ensures
            seen.len() <= self.search_space(a).len(),
            self.search_space(a).finite(),
    {
        seen.unique_seq_to_set();
        listed_children(self.entries@).lemma_cardinality_of_set();
        assert(seen.to_set().subset_of(self.search_space(a)));
        lemma_len_subset(seen.to_set(), self.search_space(a));
    }

    proof fn lemma_closed_search_finds_all(&self, a: u64, t: u64, seen: Seq<u64>)
        requires
            seen.len() > 0,
            seen[0] == a,
            forall|k: int, c: u64|
                0 <= k < seen.len() && #[trigger] self.child_edge(seen[k], c) ==> seen.contains(c),
            !seen.contains(t),
        ensures
            !self.reaches(a, t),
    {
        if self.reaches(a, t) {
            let path = choose|path: Seq<u64>| #[trigger] self.is_path(path) && path[0] == a && path.last() == t;
            self.lemma_path_stays_in(seen, path);
        }
    }

    proof fn lemma_path_stays_in(&self, seen: Seq<u64>, path: Seq<u64>)
        requires
            self.is_path(path),
            seen.contains(path[0]),
            forall|k: int, c: u64|
                0 <= k < seen.len() && #[trigger] self.child_edge(seen[k], c) ==> seen.contains(c),
        ensures
            seen.contains(path.last()),
        decreases path.len(),
    {
        if path.len() > 1 {
            let prefix = path.drop_last();
            assert forall|k: int| 0 <= k < prefix.len() - 1 implies #[trigger] self.child_edge(
                prefix[k],
                prefix[k + 1],
            ) by {
                assert(self.child_edge(path[k], path[k + 1]));
            }
            self.lemma_path_stays_in(seen, prefix);
            let x = prefix.last();
            let k = choose|k: int| 0 <= k < seen.len() && seen[k] == x;
            let m = path.len() - 2;
            assert(self.child_edge(path[m], path[m + 1]));
            assert(self.child_edge(seen[k], path.last()));
        }
    }
}

/// Every node is in its own subtree, and a descendant of a descendant is a
/// descendant.
pub proof fn lemma_reaches_reflexive_transitive(h: &Hierarchy, a: u64, b: u64, c: u64)
    ensures
        h.reaches(a, a),
        h.reaches(a, b) && h.reaches(b, c) ==> h.reaches(a, c),
{
    assert(h.is_path(seq![a]));
    if h.reaches(a, b) && h.reaches(b, c) {
        let p = choose|p: Seq<u64>| #[trigger] h.is_path(p) && p[0] == a && p.last() == b;
        let q = choose|q: Seq<u64>| #[trigger] h.is_path(q) && q[0] == b && q.last() == c;
        let joined = p + q.drop_first();
        assert forall|k: int| 0 <= k < joined.len() - 1 implies #[trigger] h.child_edge(
            joined[k],
            joined[k + 1],
        ) by {
            if k < p.len() - 1 {
                assert(joined[k] == p[k] && joined[k + 1] == p[k + 1]);
            } else if k == p.len() - 1 {
                assert(joined[k] == q[0] && joined[k + 1] == q[1]);
                assert(h.child_edge(q[0int], q[0int + 1]));
            } else {
                let m = k - p.len() + 1;
                assert(joined[k] == q[m] && joined[k + 1] == q[m + 1]);
            }
        }
        if q.len() == 1 {
            assert(joined =~= p);
        } else {
            assert(joined.last() == q.last());
        }
        assert(h.is_path(joined));
    }
}

/// A walk along `edge` from its first entity to its last, one step per edge.
pub open spec fn is_walk(edge: spec_fn(u64, u64) -> bool, path: Seq<u64>) -> bool {
    &&& path.len() >= 1
    &&& forall|k: int| 0 <= k < path.len() - 1 ==> #[trigger] edge(path[k], path[k + 1])
}

/// `to` can be reached from `from` along `edge` (in no steps when equal).
pub open spec fn walks_to(edge: spec_fn(u64, u64) -> bool, from: u64, to: u64) -> bool {
    exists|path: Seq<u64>| #[trigger] is_walk(edge, path) && path[0] == from && path.last() == to
}

/// No entity lies below itself: no edge leads back from a descendant.
pub open spec fn acyclic(edge: spec_fn(u64, u64) -> bool) -> bool {
    forall|a: u64, b: u64| #[trigger] edge(a, b) ==> !walks_to(edge, b, a)
}

/// The parent/child relation after `child` is moved under `parent`: it
/// leaves its former parent and becomes a child of `parent`.
pub open spec fn moved_under(edge: spec_fn(u64, u64) -> bool, child: u64, parent: u64) -> spec_fn(
    u64,
    u64,
) -> bool {
    |x: u64, y: u64| (edge(x, y) && y != child) || (x == parent && y == child)
}

impl Hierarchy {
    /// The parent/child relation of the hierarchy.
    pub open spec fn edges(&self) -> spec_fn(u64, u64) -> bool {
        |x: u64, y: u64| self.child_edge(x, y)
    }
}

proof fn lemma_walk_single(edge: spec_fn(u64, u64) -> bool, a: u64)
    ensures
        walks_to(edge, a, a),
{
    assert(is_walk(edge, seq![a]));
}

proof fn lemma_walk_step(edge: spec_fn(u64, u64) -> bool, a: u64, b: u64, c: u64)
    requires
        walks_to(edge, a, b),
        edge(b, c),
    ensures
        walks_to(edge, a, c),
{
    let p = choose|p: Seq<u64>| #[trigger] is_walk(edge, p) && p[0] == a && p.last() == b;
    let q = p.push(c);
    assert forall|k: int| 0 <= k < q.len() - 1 implies #[trigger] edge(q[k], q[k + 1]) by {
        if k < p.len() - 1 {
            assert(q[k] == p[k] && q[k + 1] == p[k + 1]);
        }
    }
    assert(is_walk(edge, q));
}

proof fn lemma_walk_trans(edge: spec_fn(u64, u64) -> bool, a: u64, b: u64, c: u64)
    requires
        walks_to(edge, a, b),
        walks_to(edge, b, c),
    ensures
        walks_to(edge, a, c),
{
    let q = choose|q: Seq<u64>| #[trigger] is_walk(edge, q) && q[0] == b && q.last() == c;
    lemma_walk_prefix_extends(edge, a, q);
}

/// Extending a walk to the start of `q` by `q` reaches the end of `q`.
proof fn lemma_walk_prefix_extends(edge: spec_fn(u64, u64) -> bool, a: u64, q: Seq<u64>)
    requires
        is_walk(edge, q),
        walks_to(edge, a, q[0]),
    ensures
        walks_to(edge, a, q.last()),
    decreases q.len(),
{
    if q.len() > 1 {
        let front = q.drop_last();
        assert forall|k: int| 0 <= k < front.len() - 1 implies #[trigger] edge(front[k], front[k + 1]) by {
            assert(edge(q[k], q[k + 1]));
        }
        lemma_walk_prefix_extends(edge, a, front);
        let m = q.len() - 2;
        assert(edge(q[m], q[m + 1]));
        lemma_walk_step(edge, a, front.last(), q.last());
    }
}

/// A walk after the move either avoids the new edge, and so is a walk
/// before the move, or passes through it: then `parent` was reachable from
/// its start and its end from `child`.
proof fn lemma_moved_walk(edge: spec_fn(u64, u64) -> bool, child: u64, parent: u64, path: Seq<u64>)
    requires
        is_walk(moved_under(edge, child, parent), path),
    ensures
        walks_to(edge, path[0], path.last()) || (walks_to(edge, path[0], parent) && walks_to(
            edge,
            child,
            path.last(),
        )),
    decreases path.len(),
{
    let moved = moved_under(edge, child, parent);
    if path.len() == 1 {
        lemma_walk_single(edge, path[0]);
    } else {
        let front = path.drop_last();
        assert forall|k: int| 0 <= k < front.len() - 1 implies #[trigger] moved(front[k], front[k + 1]) by {
            assert(moved(path[k], path[k + 1]));
        }
        lemma_moved_walk(edge, child, parent, front);
        let m = path.len() - 2;
        assert(moved(path[m], path[m + 1]));
        let z = front.last();
        let y = path.last();
        assert(z == path[m] && y == path[m + 1]);
        if edge(z, y) && y != child {
            if walks_to(edge, path[0], z) {
                lemma_walk_step(edge, path[0], z, y);
            } else {
                lemma_walk_step(edge, child, z, y);
            }
        } else {
            assert(z == parent && y == child);
            lemma_walk_single(edge, child);
        }
    }
}

/// Moving `child` under `parent` keeps an acyclic parent/child relation
/// acyclic whenever `parent` is not `child` and not below it.
pub proof fn lemma_move_keeps_acyclic(edge: spec_fn(u64, u64) -> bool, child: u64, parent: u64)
    requires
        acyclic(edge),
        !walks_to(edge, child, parent),
    ensures
        acyclic(moved_under(edge, child, parent)),
{
    let moved = moved_under(edge, child, parent);
    assert forall|a: u64, b: u64| #[trigger] moved(a, b) implies !walks_to(moved, b, a) by {
        if walks_to(moved, b, a) {
            let path = choose|path: Seq<u64>| #[trigger] is_walk(moved, path) && path[0] == b && path.last() == a;
            lemma_moved_walk(edge, child, parent, path);
            if edge(a, b) && b != child {
                if walks_to(edge, b, a) {
                    assert(!walks_to(edge, b, a));
                } else {
                    lemma_walk_step(edge, child, a, b);
                    lemma_walk_trans(edge, child, b, parent);
                }
            } else {
                assert(a == parent && b == child);
            }
        }
    }
}

/// The subtree relation of a hierarchy is reachability along its
/// parent/child relation.
pub proof fn lemma_reaches_walks_to(h: &Hierarchy, a: u64, b: u64)
    ensures
        h.reaches(a, b) <==> walks_to(h.edges(), a, b),
{
    let e = h.edges();
    if h.reaches(a, b) {
        let p = choose|p: Seq<u64>| #[trigger] h.is_path(p) && p[0] == a && p.last() == b;
        assert forall|k: int| 0 <= k < p.len() - 1 implies #[trigger] e(p[k], p[k + 1]) by {
            assert(h.child_edge(p[k], p[k + 1]));
        }
        assert(is_walk(e, p));
    }
    if walks_to(e, a, b) {
        let p = choose|p: Seq<u64>| #[trigger] is_walk(e, p) && p[0] == a && p.last() == b;
        assert forall|k: int| 0 <= k < p.len() - 1 implies #[trigger] h.child_edge(p[k], p[k + 1]) by {
            assert(e(p[k], p[k + 1]));
        }
        assert(h.is_path(p));
    }
}

/// A move that `settle_hierarchy_drop` returns, carried out on an acyclic
/// hierarchy, leaves it acyclic: no node ever ends up below itself.
pub proof fn lemma_drop_keeps_hierarchy_acyclic(h: &Hierarchy, child: u64, parent: u64)
    requires
        acyclic(h.edges()),
        !h.reaches(child, parent),
    ensures
        acyclic(moved_under(h.edges(), child, parent)),
{
    lemma_reaches_walks_to(h, child, parent);
    lemma_move_keeps_acyclic(h.edges(), child, parent);
}

proof fn lemma_listed_children_contains(entries: Seq<HierarchyEntry>, i: int, c: u64)
    requires
        0 <= i < entries.len(),
        entries[i].children@.contains(c),
    ensures
        listed_children(entries).contains(c),
    decreases entries.len(),
{
    let rest = entries.drop_last();
    let last = entries.last().children@;
    if i == entries.len() - 1 {
        let j = choose|j: int| 0 <= j < last.len() && last[j] == c;
        assert((listed_children(rest) + last)[listed_children(rest).len() + j] == c);
    } else {
        assert(rest[i] == entries[i]);
        lemma_listed_children_contains(rest, i, c);
        let j = choose|j: int| 0 <= j < listed_children(rest).len() && listed_children(rest)[j] == c;
        assert((listed_children(rest) + last)[j] == c);
    }
}

/// Whether `v` holds `x`.
fn vec_contains(v: &Vec<u64>, x: u64) -> (b: bool)
    ensures
        b == v@.contains(x),
{
    let mut i: usize = 0;
    while i < v.len()
        invariant
            i <= v.len(),
            forall|k: int| 0 <= k < i ==> v@[k] != x,
        decreases v.len() - i,
    {
        if v[i] == x {
            return true;
        }
        i = i + 1;
    }
    false
}

} // verus!
